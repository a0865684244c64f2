//! The contract: its stored state, its entry points and the event that it emits.
//!
//! The entry points work on the values that the contract keeps between calls.  A host adapter
//! loads these before a call, stores them after it and publishes the event that the call gives.

use crate::error::ExecError;
use crate::quote::{
    is_expired, parse_signed_quote_min, quote_is_expired, quote_outcome, ParsedQuote, QuoteFields,
};
use crate::request::{parse_request_min, request_format_outcome};
use crate::sdk::{
    bytes32_contents, bytes_contents, bytes_len, is_ledger_time, law_ledger_time_is_a_reading,
    ledger_timestamp, symbol_new, symbol_text,
};
use soroban_sdk::{Address, Bytes, BytesN, Env, Symbol};
use vstd::prelude::*;

verus! {

/// What the contract stores.
#[derive(Copy, Clone, Debug, Eq, PartialEq, Structural)]
pub enum DataKey {
    /// The chain that the contract runs on.
    ChainId,
}

/// The event of an accepted request.
pub struct ExecutionRequested {
    pub quoter_wa32: Option<BytesN<32>>,
    pub payee: Address,
    pub dst_chain: u32,
    pub dst_addr_wa32: BytesN<32>,
    pub refund: Address,
    pub fee_token: Option<Address>,
    pub fee_amount: Option<i128>,
    pub signed_quote: Bytes,
    pub request: Bytes,
    pub relay_instructions: Option<Bytes>,
}

impl Clone for ExecutionRequested {
    fn clone(&self) -> (r: ExecutionRequested)
        ensures
            r == *self,
    {
        ExecutionRequested {
            quoter_wa32: match &self.quoter_wa32 {
                Some(quoter) => Some(quoter.clone()),
                None => None,
            },
            payee: self.payee.clone(),
            dst_chain: self.dst_chain,
            dst_addr_wa32: self.dst_addr_wa32.clone(),
            refund: self.refund.clone(),
            fee_token: match &self.fee_token {
                Some(token) => Some(token.clone()),
                None => None,
            },
            fee_amount: self.fee_amount,
            signed_quote: self.signed_quote.clone(),
            request: self.request.clone(),
            relay_instructions: match &self.relay_instructions {
                Some(instructions) => Some(instructions.clone()),
                None => None,
            },
        }
    }
}

impl ExecutionRequested {
    /// The event names `quoter` as the quoter.
    pub open spec fn names_quoter(self, quoter: Seq<u8>) -> bool {
        self.quoter_wa32 matches Some(q) && bytes32_contents(q) == quoter
    }

    /// The topics under which the event is published.
    pub fn topics(env: &Env) -> (r: (Symbol, Symbol))
        ensures
            symbol_text(r.0) == "Executor"@,
            symbol_text(r.1) == "ExecutionRequested"@,
    {
        proof {
            reveal_strlit("Executor");
            reveal_strlit("ExecutionRequested");
        }
        (symbol_new(env, "Executor"), symbol_new(env, "ExecutionRequested"))
    }
}

/// The stored state after `init`, or why `init` is refused: the chain is set once and for all.
pub open spec fn init_outcome(stored: Map<DataKey, u32>, chain_id: u32) -> Result<
    Map<DataKey, u32>,
    ExecError,
> {
    if stored.contains_key(DataKey::ChainId) {
        Err(ExecError::AlreadyInitialized)
    } else {
        Ok(stored.insert(DataKey::ChainId, chain_id))
    }
}

/// The answer of `chain_id`.
pub open spec fn chain_id_outcome(stored: Map<DataKey, u32>) -> Result<u32, ExecError> {
    if stored.contains_key(DataKey::ChainId) {
        Ok(stored[DataKey::ChainId])
    } else {
        Err(ExecError::NotInitialized)
    }
}

/// The quote that a request is accepted on at the ledger time `now`, or why the request is
/// refused.
pub open spec fn request_outcome(
    stored: Map<DataKey, u32>,
    now: u64,
    dst_chain: u32,
    signed_quote: Seq<u8>,
    request: Seq<u8>,
) -> Result<QuoteFields, ExecError> {
    if signed_quote.len() == 0 {
        Err(ExecError::EmptyQuote)
    } else if request.len() == 0 {
        Err(ExecError::EmptyRequest)
    } else {
        match (chain_id_outcome(stored), quote_outcome(signed_quote)) {
            (Err(e), _) => Err(e),
            (_, Err(e)) => Err(e),
            (Ok(this_chain), Ok(quote)) => if quote.src_chain != this_chain {
                Err(ExecError::QuoteChainMismatch)
            } else if quote.dst_chain != dst_chain {
                Err(ExecError::RequestDstMismatch)
            } else if is_expired(quote.expiry, now) {
                Err(ExecError::QuoteExpired)
            } else {
                match request_format_outcome(request) {
                    Err(e) => Err(e),
                    Ok(_) => Ok(quote),
                }
            },
        }
    }
}

/// `r` answers a request made at the ledger time `now`: a refusal carries the reason, and the
/// event of an accepted request names the quoter of the quote and carries the arguments unchanged.
pub open spec fn answers_request(
    r: Result<ExecutionRequested, ExecError>,
    stored: Map<DataKey, u32>,
    now: u64,
    dst_chain: u32,
    dst_addr_wa32: BytesN<32>,
    refund: Address,
    payee: Address,
    fee_token: Option<Address>,
    fee_amount: Option<i128>,
    signed_quote: Bytes,
    request: Bytes,
    relay_instructions: Option<Bytes>,
) -> bool {
    match request_outcome(
        stored,
        now,
        dst_chain,
        bytes_contents(signed_quote),
        bytes_contents(request),
    ) {
        Err(e) => r == Err::<ExecutionRequested, ExecError>(e),
        Ok(quote) => {
            &&& r matches Ok(event)
            &&& event.names_quoter(quote.quoter)
            &&& event.payee == payee
            &&& event.dst_chain == dst_chain
            &&& event.dst_addr_wa32 == dst_addr_wa32
            &&& event.refund == refund
            &&& event.fee_token == fee_token
            &&& event.fee_amount == fee_amount
            &&& event.signed_quote == signed_quote
            &&& event.request == request
            &&& event.relay_instructions == relay_instructions
        },
    }
}

/// The entry points of the contract.
pub trait ExecutorTrait {
    /// What the contract stores.
    spec fn stored(&self) -> Map<DataKey, u32>;

    /// Sets the chain that the contract runs on.
    fn init(&mut self, chain_id: u32) -> (r: Result<(), ExecError>)
        ensures
            match init_outcome(old(self).stored(), chain_id) {
                Ok(stored) => r == Ok::<(), ExecError>(()) && final(self).stored() == stored,
                Err(e) => r == Err::<(), ExecError>(e) && final(self).stored() == old(
                    self,
                ).stored(),
            },
            r is Ok <==> !old(self).stored().contains_key(DataKey::ChainId),
            r is Ok ==> final(self).stored() == old(self).stored().insert(
                DataKey::ChainId,
                chain_id,
            ),
            r is Err ==> final(self).stored() == old(self).stored(),
    ;

    /// The chain that the contract runs on.
    fn chain_id(&self) -> (r: Result<u32, ExecError>)
        ensures
            r == chain_id_outcome(self.stored()),
            r is Ok <==> self.stored().contains_key(DataKey::ChainId),
            r matches Ok(id) ==> id == self.stored()[DataKey::ChainId],
    ;

    /// Checks a request for execution on `dst_chain` against the quote that it comes with, at the
    /// close time of the current ledger.
    #[allow(clippy::too_many_arguments)]
    fn request_execution(
        &self,
        env: Env,
        dst_chain: u32,
        dst_addr_wa32: BytesN<32>,
        refund: Address,
        payee: Address,
        fee_token: Option<Address>,
        fee_amount: Option<i128>,
        signed_quote: Bytes,
        request: Bytes,
        relay_instructions: Option<Bytes>,
    ) -> (r: Result<ExecutionRequested, ExecError>)
        ensures
            exists|now: u64| #[trigger]
                is_ledger_time(env, now) && answers_request(
                    r,
                    self.stored(),
                    now,
                    dst_chain,
                    dst_addr_wa32,
                    refund,
                    payee,
                    fee_token,
                    fee_amount,
                    signed_quote,
                    request,
                    relay_instructions,
                ),
    ;
}

/// The contract, as what it keeps between calls.
pub struct Executor {
    chain_id: Option<u32>,
}

impl Executor {
    /// The contract with the chain that it has stored, if it has.
    pub fn load(chain_id: Option<u32>) -> (r: Executor)
        ensures
            r.stored() == (match chain_id {
                Some(id) => map![DataKey::ChainId => id],
                None => Map::empty(),
            }),
    {
        Executor { chain_id }
    }

    /// The value stored under `key`, if there is one.
    pub fn entry(&self, key: DataKey) -> (r: Option<u32>)
        ensures
            r == (if self.stored().contains_key(key) {
                Some(self.stored()[key])
            } else {
                None
            }),
    {
        match key {
            DataKey::ChainId => self.chain_id,
        }
    }

    /// Checks a request for execution at the ledger time `now`.
    #[allow(clippy::too_many_arguments)]
    pub fn request_execution_at(
        &self,
        env: Env,
        now: u64,
        dst_chain: u32,
        dst_addr_wa32: BytesN<32>,
        refund: Address,
        payee: Address,
        fee_token: Option<Address>,
        fee_amount: Option<i128>,
        signed_quote: Bytes,
        request: Bytes,
        relay_instructions: Option<Bytes>,
    ) -> (r: Result<ExecutionRequested, ExecError>)
        ensures
            answers_request(
                r,
                self.stored(),
                now,
                dst_chain,
                dst_addr_wa32,
                refund,
                payee,
                fee_token,
                fee_amount,
                signed_quote,
                request,
                relay_instructions,
            ),
    {
        if bytes_len(&signed_quote) == 0 {
            return Err(ExecError::EmptyQuote);
        }
        if bytes_len(&request) == 0 {
            return Err(ExecError::EmptyRequest);
        }
        let this_chain: u32 = match self.chain_id() {
            Ok(id) => id,
            Err(e) => return Err(e),
        };
        let pq: ParsedQuote = match parse_signed_quote_min(&env, &signed_quote) {
            Ok(p) => p,
            Err(e) => return Err(e),
        };
        if pq.src_chain != this_chain {
            return Err(ExecError::QuoteChainMismatch);
        }
        if pq.dst_chain != dst_chain {
            return Err(ExecError::RequestDstMismatch);
        }
        if quote_is_expired(pq.expiry, now) {
            return Err(ExecError::QuoteExpired);
        }
        if let Err(e) = parse_request_min(&request) {
            return Err(e);
        }
        Ok(
            ExecutionRequested {
                quoter_wa32: Some(pq.quoter_wa32),
                payee,
                dst_chain,
                dst_addr_wa32,
                refund,
                fee_token,
                fee_amount,
                signed_quote,
                request,
                relay_instructions,
            },
        )
    }
}

impl ExecutorTrait for Executor {
    closed spec fn stored(&self) -> Map<DataKey, u32> {
        match self.chain_id {
            Some(id) => map![DataKey::ChainId => id],
            None => Map::empty(),
        }
    }

    fn init(&mut self, chain_id: u32) -> (r: Result<(), ExecError>) {
        if self.chain_id.is_some() {
            return Err(ExecError::AlreadyInitialized);
        }
        self.chain_id = Some(chain_id);
        Ok(())
    }

    fn chain_id(&self) -> (r: Result<u32, ExecError>) {
        match self.chain_id {
            Some(id) => Ok(id),
            None => Err(ExecError::NotInitialized),
        }
    }

    #[allow(clippy::too_many_arguments)]
    fn request_execution(
        &self,
        env: Env,
        dst_chain: u32,
        dst_addr_wa32: BytesN<32>,
        refund: Address,
        payee: Address,
        fee_token: Option<Address>,
        fee_amount: Option<i128>,
        signed_quote: Bytes,
        request: Bytes,
        relay_instructions: Option<Bytes>,
    ) -> (r: Result<ExecutionRequested, ExecError>) {
        let now: u64 = ledger_timestamp(&env);
        proof {
            law_ledger_time_is_a_reading(env, now);
        }
        self.request_execution_at(
            env,
            now,
            dst_chain,
            dst_addr_wa32,
            refund,
            payee,
            fee_token,
            fee_amount,
            signed_quote,
            request,
            relay_instructions,
        )
    }
}

} // verus!

//! What the entry points answer, in terms of what they are given: the bytes of the quote and of the
//! request, what the contract stores and the ledger time.
//!
//! Each law here is about the results of the functions themselves.  `call_ensures(f, args, r)` says
//! that `r` is a result of calling `f` with `args`.

use crate::bytes::be_value;
use crate::contract::{answers_request, DataKey, ExecutionRequested, Executor, ExecutorTrait};
use crate::error::ExecError;
use crate::quote::lemma_quote_bytes;
use crate::request::lemma_request_bytes;
use crate::sdk::{bytes32_contents, bytes_contents, is_ledger_time, symbol_text};
use soroban_sdk::{Address, Bytes, BytesN, Env, Symbol};
use vstd::prelude::*;

verus! {

/// A loaded contract stores the chain that it was loaded with, and nothing else.
pub proof fn law_load_keeps_the_chain(
    chain_id: Option<u32>,
    executor: Executor,
    answer: Result<u32, ExecError>,
    entry: Option<u32>,
)
    requires
        call_ensures(Executor::load, (chain_id,), executor),
        call_ensures(<Executor as ExecutorTrait>::chain_id, (&executor,), answer),
        call_ensures(Executor::entry, (&executor, DataKey::ChainId), entry),
    ensures
        executor.stored().contains_key(DataKey::ChainId) <==> chain_id is Some,
        chain_id matches Some(id) ==> executor.stored()[DataKey::ChainId] == id,
        answer == (match chain_id {
            Some(id) => Ok::<u32, ExecError>(id),
            None => Err::<u32, ExecError>(ExecError::NotInitialized),
        }),
        entry == chain_id,
{
}

/// What is written back after a call and loaded for the next one is what was stored.
pub proof fn law_stored_state_survives_a_reload(
    executor: Executor,
    entry: Option<u32>,
    reloaded: Executor,
)
    requires
        call_ensures(Executor::entry, (&executor, DataKey::ChainId), entry),
        call_ensures(Executor::load, (entry,), reloaded),
    ensures
        reloaded.stored() == executor.stored(),
{
    assert(reloaded.stored() =~= executor.stored());
}

/// `init` is accepted if and only if no chain is stored.  It then stores the one that it was given;
/// otherwise it is refused for that reason and stores nothing.
pub proof fn law_init_stores_the_first_chain(
    executor: &mut Executor,
    chain_id: u32,
    r: Result<(), ExecError>,
)
    requires
        call_ensures(<Executor as ExecutorTrait>::init, (executor, chain_id), r),
    ensures
        r is Ok <==> !old(executor).stored().contains_key(DataKey::ChainId),
        r is Ok ==> final(executor).stored() == old(executor).stored().insert(
            DataKey::ChainId,
            chain_id,
        ),
        r matches Err(e) ==> e == ExecError::AlreadyInitialized && final(executor).stored() == old(
            executor,
        ).stored(),
{
}

/// After `init`, accepted or not, `chain_id` answers, and after an accepted one it answers with what
/// `init` was given.
pub proof fn law_chain_id_after_init(
    executor: &mut Executor,
    chain_id: u32,
    r: Result<(), ExecError>,
    answer: Result<u32, ExecError>,
)
    requires
        call_ensures(<Executor as ExecutorTrait>::init, (executor, chain_id), r),
        call_ensures(<Executor as ExecutorTrait>::chain_id, (&*final(executor),), answer),
    ensures
        answer is Ok,
        r is Ok ==> answer == Ok::<u32, ExecError>(chain_id),
{
}

/// Whatever became of one `init`, the next is refused, and the answer of `chain_id` stays.
pub proof fn law_second_init_is_refused(
    before: &mut Executor,
    first: u32,
    r: Result<(), ExecError>,
    between: Result<u32, ExecError>,
    after: &mut Executor,
    second: u32,
    s: Result<(), ExecError>,
    answer: Result<u32, ExecError>,
)
    requires
        call_ensures(<Executor as ExecutorTrait>::init, (before, first), r),
        call_ensures(<Executor as ExecutorTrait>::chain_id, (&*final(before),), between),
        *old(after) == *final(before),
        call_ensures(<Executor as ExecutorTrait>::init, (after, second), s),
        call_ensures(<Executor as ExecutorTrait>::chain_id, (&*final(after),), answer),
    ensures
        s == Err::<(), ExecError>(ExecError::AlreadyInitialized),
        answer == between,
{
}

/// A request is accepted if and only if the contract has a chain, the quote has its 80 bytes and
/// starts with `EQ01`, names that chain as the source and the requested one as the destination and
/// is not past, and the request starts with `ERV1`.
pub proof fn law_answer_accepts_iff(
    executor: &Executor,
    env: Env,
    now: u64,
    dst_chain: u32,
    dst_addr_wa32: BytesN<32>,
    refund: Address,
    payee: Address,
    fee_token: Option<Address>,
    fee_amount: Option<i128>,
    signed_quote: Bytes,
    request: Bytes,
    relay_instructions: Option<Bytes>,
    r: Result<ExecutionRequested, ExecError>,
)
    requires
        call_ensures(
            Executor::request_execution_at,
            (
                executor,
                env,
                now,
                dst_chain,
                dst_addr_wa32,
                refund,
                payee,
                fee_token,
                fee_amount,
                signed_quote,
                request,
                relay_instructions,
            ),
            r,
        ),
    ensures
        ({
            let stored = executor.stored();
            let q = bytes_contents(signed_quote);
            let m = bytes_contents(request);
            &&& r is Ok <==> {
                &&& stored.contains_key(DataKey::ChainId)
                &&& q.len() >= 80 && q[0] == 0x45 && q[1] == 0x51 && q[2] == 0x30 && q[3] == 0x31
                &&& q[68] * 0x100 + q[69] == stored[DataKey::ChainId]
                &&& q[70] * 0x100 + q[71] == dst_chain
                &&& now <= be_value(q.subrange(72, 80)) <= i64::MAX
                &&& m.len() >= 4 && m[0] == 0x45 && m[1] == 0x52 && m[2] == 0x56 && m[3] == 0x31
            }
        }),
{
    lemma_quote_bytes(bytes_contents(signed_quote));
    lemma_request_bytes(bytes_contents(request));
}

/// The event of an accepted request names the quoter that the quote names.
pub proof fn law_event_names_the_quoter(
    executor: &Executor,
    env: Env,
    now: u64,
    dst_chain: u32,
    dst_addr_wa32: BytesN<32>,
    refund: Address,
    payee: Address,
    fee_token: Option<Address>,
    fee_amount: Option<i128>,
    signed_quote: Bytes,
    request: Bytes,
    relay_instructions: Option<Bytes>,
    r: Result<ExecutionRequested, ExecError>,
)
    requires
        call_ensures(
            Executor::request_execution_at,
            (
                executor,
                env,
                now,
                dst_chain,
                dst_addr_wa32,
                refund,
                payee,
                fee_token,
                fee_amount,
                signed_quote,
                request,
                relay_instructions,
            ),
            r,
        ),
    ensures
        r matches Ok(event) ==> (event.quoter_wa32 matches Some(quoter) && bytes32_contents(quoter)
            == bytes_contents(signed_quote).subrange(4, 36)),
{
    lemma_quote_bytes(bytes_contents(signed_quote));
    lemma_request_bytes(bytes_contents(request));
}

/// The event of an accepted request carries what the caller gave, unchanged.
pub proof fn law_event_carries_the_arguments(
    executor: &Executor,
    env: Env,
    now: u64,
    dst_chain: u32,
    dst_addr_wa32: BytesN<32>,
    refund: Address,
    payee: Address,
    fee_token: Option<Address>,
    fee_amount: Option<i128>,
    signed_quote: Bytes,
    request: Bytes,
    relay_instructions: Option<Bytes>,
    r: Result<ExecutionRequested, ExecError>,
)
    requires
        call_ensures(
            Executor::request_execution_at,
            (
                executor,
                env,
                now,
                dst_chain,
                dst_addr_wa32,
                refund,
                payee,
                fee_token,
                fee_amount,
                signed_quote,
                request,
                relay_instructions,
            ),
            r,
        ),
    ensures
        r matches Ok(event) ==> {
            &&& event.payee == payee
            &&& event.dst_chain == dst_chain
            &&& event.dst_addr_wa32 == dst_addr_wa32
            &&& event.refund == refund
            &&& event.fee_token == fee_token
            &&& event.fee_amount == fee_amount
            &&& event.signed_quote == signed_quote
            &&& event.request == request
            &&& event.relay_instructions == relay_instructions
        },
{
}

/// An empty quote is refused as such, whatever else there is, and an empty request beside a quote.
pub proof fn law_answer_to_empty_input(
    executor: &Executor,
    env: Env,
    now: u64,
    dst_chain: u32,
    dst_addr_wa32: BytesN<32>,
    refund: Address,
    payee: Address,
    fee_token: Option<Address>,
    fee_amount: Option<i128>,
    signed_quote: Bytes,
    request: Bytes,
    relay_instructions: Option<Bytes>,
    r: Result<ExecutionRequested, ExecError>,
)
    requires
        call_ensures(
            Executor::request_execution_at,
            (
                executor,
                env,
                now,
                dst_chain,
                dst_addr_wa32,
                refund,
                payee,
                fee_token,
                fee_amount,
                signed_quote,
                request,
                relay_instructions,
            ),
            r,
        ),
    ensures
        ({
            let stored = executor.stored();
            let q = bytes_contents(signed_quote);
            let m = bytes_contents(request);
            &&& r == Err::<ExecutionRequested, ExecError>(ExecError::EmptyQuote) <==> q.len() == 0
            &&& r == Err::<ExecutionRequested, ExecError>(ExecError::EmptyRequest) <==> q.len() > 0 && m.len() == 0
        }),
{
}

/// Without a chain a request is refused for that, unless something is empty.  No request is
/// refused because there is a chain already.
pub proof fn law_answer_without_a_chain(
    executor: &Executor,
    env: Env,
    now: u64,
    dst_chain: u32,
    dst_addr_wa32: BytesN<32>,
    refund: Address,
    payee: Address,
    fee_token: Option<Address>,
    fee_amount: Option<i128>,
    signed_quote: Bytes,
    request: Bytes,
    relay_instructions: Option<Bytes>,
    r: Result<ExecutionRequested, ExecError>,
)
    requires
        call_ensures(
            Executor::request_execution_at,
            (
                executor,
                env,
                now,
                dst_chain,
                dst_addr_wa32,
                refund,
                payee,
                fee_token,
                fee_amount,
                signed_quote,
                request,
                relay_instructions,
            ),
            r,
        ),
    ensures
        ({
            let stored = executor.stored();
            let q = bytes_contents(signed_quote);
            let m = bytes_contents(request);
            &&& r == Err::<ExecutionRequested, ExecError>(ExecError::NotInitialized) <==> {
                &&& q.len() > 0
                &&& m.len() > 0
                &&& !stored.contains_key(DataKey::ChainId)
            }
            &&& r != Err::<ExecutionRequested, ExecError>(ExecError::AlreadyInitialized)
        }),
{
    lemma_quote_bytes(bytes_contents(signed_quote));
    lemma_request_bytes(bytes_contents(request));
}

/// A quote that starts otherwise is refused for that.
pub proof fn law_answer_to_other_prefix_of_quote(
    executor: &Executor,
    env: Env,
    now: u64,
    dst_chain: u32,
    dst_addr_wa32: BytesN<32>,
    refund: Address,
    payee: Address,
    fee_token: Option<Address>,
    fee_amount: Option<i128>,
    signed_quote: Bytes,
    request: Bytes,
    relay_instructions: Option<Bytes>,
    r: Result<ExecutionRequested, ExecError>,
)
    requires
        call_ensures(
            Executor::request_execution_at,
            (
                executor,
                env,
                now,
                dst_chain,
                dst_addr_wa32,
                refund,
                payee,
                fee_token,
                fee_amount,
                signed_quote,
                request,
                relay_instructions,
            ),
            r,
        ),
    ensures
        ({
            let stored = executor.stored();
            let q = bytes_contents(signed_quote);
            let m = bytes_contents(request);
            &&& r == Err::<ExecutionRequested, ExecError>(ExecError::InvalidQuotePrefix) <==> {
                &&& m.len() > 0
                &&& stored.contains_key(DataKey::ChainId)
                &&& q.len() >= 80
                &&& !(q[0] == 0x45 && q[1] == 0x51 && q[2] == 0x30 && q[3] == 0x31)
            }
        }),
{
    lemma_quote_bytes(bytes_contents(signed_quote));
    lemma_request_bytes(bytes_contents(request));
}

/// A quote for another source chain, larger or smaller, is refused for that.
pub proof fn law_answer_to_other_source(
    executor: &Executor,
    env: Env,
    now: u64,
    dst_chain: u32,
    dst_addr_wa32: BytesN<32>,
    refund: Address,
    payee: Address,
    fee_token: Option<Address>,
    fee_amount: Option<i128>,
    signed_quote: Bytes,
    request: Bytes,
    relay_instructions: Option<Bytes>,
    r: Result<ExecutionRequested, ExecError>,
)
    requires
        call_ensures(
            Executor::request_execution_at,
            (
                executor,
                env,
                now,
                dst_chain,
                dst_addr_wa32,
                refund,
                payee,
                fee_token,
                fee_amount,
                signed_quote,
                request,
                relay_instructions,
            ),
            r,
        ),
    ensures
        ({
            let stored = executor.stored();
            let q = bytes_contents(signed_quote);
            let m = bytes_contents(request);
            &&& r == Err::<ExecutionRequested, ExecError>(ExecError::QuoteChainMismatch) <==> {
                &&& m.len() > 0
                &&& stored.contains_key(DataKey::ChainId)
                &&& q.len() >= 80 && q[0] == 0x45 && q[1] == 0x51 && q[2] == 0x30 && q[3] == 0x31
                &&& q[68] * 0x100 + q[69] != stored[DataKey::ChainId]
            }
        }),
{
    lemma_quote_bytes(bytes_contents(signed_quote));
    lemma_request_bytes(bytes_contents(request));
}

/// A quote for this chain and another destination, larger or smaller, is refused for that.
pub proof fn law_answer_to_other_destination(
    executor: &Executor,
    env: Env,
    now: u64,
    dst_chain: u32,
    dst_addr_wa32: BytesN<32>,
    refund: Address,
    payee: Address,
    fee_token: Option<Address>,
    fee_amount: Option<i128>,
    signed_quote: Bytes,
    request: Bytes,
    relay_instructions: Option<Bytes>,
    r: Result<ExecutionRequested, ExecError>,
)
    requires
        call_ensures(
            Executor::request_execution_at,
            (
                executor,
                env,
                now,
                dst_chain,
                dst_addr_wa32,
                refund,
                payee,
                fee_token,
                fee_amount,
                signed_quote,
                request,
                relay_instructions,
            ),
            r,
        ),
    ensures
        ({
            let stored = executor.stored();
            let q = bytes_contents(signed_quote);
            let m = bytes_contents(request);
            &&& r == Err::<ExecutionRequested, ExecError>(ExecError::RequestDstMismatch) <==> {
                &&& m.len() > 0
                &&& stored.contains_key(DataKey::ChainId)
                &&& q.len() >= 80 && q[0] == 0x45 && q[1] == 0x51 && q[2] == 0x30 && q[3] == 0x31
                &&& q[68] * 0x100 + q[69] == stored[DataKey::ChainId]
                &&& q[70] * 0x100 + q[71] != dst_chain
            }
        }),
{
    lemma_quote_bytes(bytes_contents(signed_quote));
    lemma_request_bytes(bytes_contents(request));
}

/// A quote for this chain and the requested one is refused as expired if and only if its expiry,
/// as a signed number of seconds, is before the ledger time.
pub proof fn law_answer_to_past_quote(
    executor: &Executor,
    env: Env,
    now: u64,
    dst_chain: u32,
    dst_addr_wa32: BytesN<32>,
    refund: Address,
    payee: Address,
    fee_token: Option<Address>,
    fee_amount: Option<i128>,
    signed_quote: Bytes,
    request: Bytes,
    relay_instructions: Option<Bytes>,
    r: Result<ExecutionRequested, ExecError>,
)
    requires
        call_ensures(
            Executor::request_execution_at,
            (
                executor,
                env,
                now,
                dst_chain,
                dst_addr_wa32,
                refund,
                payee,
                fee_token,
                fee_amount,
                signed_quote,
                request,
                relay_instructions,
            ),
            r,
        ),
    ensures
        ({
            let stored = executor.stored();
            let q = bytes_contents(signed_quote);
            let m = bytes_contents(request);
            &&& r == Err::<ExecutionRequested, ExecError>(ExecError::QuoteExpired) <==> {
                &&& m.len() > 0
                &&& stored.contains_key(DataKey::ChainId)
                &&& q.len() >= 80 && q[0] == 0x45 && q[1] == 0x51 && q[2] == 0x30 && q[3] == 0x31
                &&& q[68] * 0x100 + q[69] == stored[DataKey::ChainId]
                &&& q[70] * 0x100 + q[71] == dst_chain
                &&& be_value(q.subrange(72, 80)) < now || be_value(q.subrange(72, 80)) > i64::MAX
            }
        }),
{
    lemma_quote_bytes(bytes_contents(signed_quote));
    lemma_request_bytes(bytes_contents(request));
}

/// A request that starts otherwise is refused for that, on a quote that would have been accepted.
pub proof fn law_answer_to_other_prefix_of_request(
    executor: &Executor,
    env: Env,
    now: u64,
    dst_chain: u32,
    dst_addr_wa32: BytesN<32>,
    refund: Address,
    payee: Address,
    fee_token: Option<Address>,
    fee_amount: Option<i128>,
    signed_quote: Bytes,
    request: Bytes,
    relay_instructions: Option<Bytes>,
    r: Result<ExecutionRequested, ExecError>,
)
    requires
        call_ensures(
            Executor::request_execution_at,
            (
                executor,
                env,
                now,
                dst_chain,
                dst_addr_wa32,
                refund,
                payee,
                fee_token,
                fee_amount,
                signed_quote,
                request,
                relay_instructions,
            ),
            r,
        ),
    ensures
        ({
            let stored = executor.stored();
            let q = bytes_contents(signed_quote);
            let m = bytes_contents(request);
            &&& r == Err::<ExecutionRequested, ExecError>(ExecError::InvalidRequestPrefix) <==> {
                &&& stored.contains_key(DataKey::ChainId)
                &&& q.len() >= 80 && q[0] == 0x45 && q[1] == 0x51 && q[2] == 0x30 && q[3] == 0x31
                &&& q[68] * 0x100 + q[69] == stored[DataKey::ChainId]
                &&& q[70] * 0x100 + q[71] == dst_chain
                &&& now <= be_value(q.subrange(72, 80)) <= i64::MAX
                &&& m.len() >= 4
                &&& !(m[0] == 0x45 && m[1] == 0x52 && m[2] == 0x56 && m[3] == 0x31)
            }
        }),
{
    lemma_quote_bytes(bytes_contents(signed_quote));
    lemma_request_bytes(bytes_contents(request));
}

/// A quote that is too short is refused for that, and so is a request that is too short on a quote
/// that would have been accepted.
pub proof fn law_answer_to_short_input(
    executor: &Executor,
    env: Env,
    now: u64,
    dst_chain: u32,
    dst_addr_wa32: BytesN<32>,
    refund: Address,
    payee: Address,
    fee_token: Option<Address>,
    fee_amount: Option<i128>,
    signed_quote: Bytes,
    request: Bytes,
    relay_instructions: Option<Bytes>,
    r: Result<ExecutionRequested, ExecError>,
)
    requires
        call_ensures(
            Executor::request_execution_at,
            (
                executor,
                env,
                now,
                dst_chain,
                dst_addr_wa32,
                refund,
                payee,
                fee_token,
                fee_amount,
                signed_quote,
                request,
                relay_instructions,
            ),
            r,
        ),
    ensures
        ({
            let stored = executor.stored();
            let q = bytes_contents(signed_quote);
            let m = bytes_contents(request);
            &&& r == Err::<ExecutionRequested, ExecError>(ExecError::BadLengths) <==> {
                ||| {
                    &&& 0 < q.len() < 80
                    &&& m.len() > 0
                    &&& stored.contains_key(DataKey::ChainId)
                }
                ||| {
                    &&& stored.contains_key(DataKey::ChainId)
                    &&& q.len() >= 80 && q[0] == 0x45 && q[1] == 0x51 && q[2] == 0x30 && q[3] == 0x31
                    &&& q[68] * 0x100 + q[69] == stored[DataKey::ChainId]
                    &&& q[70] * 0x100 + q[71] == dst_chain
                    &&& now <= be_value(q.subrange(72, 80)) <= i64::MAX
                    &&& 0 < m.len() < 4
                }
            }
        }),
{
    lemma_quote_bytes(bytes_contents(signed_quote));
    lemma_request_bytes(bytes_contents(request));
}

/// A quote that serves a request for one chain serves none for another.
pub proof fn law_quote_serves_one_destination(
    executor: &Executor,
    env: Env,
    now: u64,
    other_chain: u32,
    dst_chain: u32,
    dst_addr_wa32: BytesN<32>,
    refund: Address,
    payee: Address,
    fee_token: Option<Address>,
    fee_amount: Option<i128>,
    signed_quote: Bytes,
    request: Bytes,
    relay_instructions: Option<Bytes>,
    r: Result<ExecutionRequested, ExecError>,
    s: Result<ExecutionRequested, ExecError>,
)
    requires
        call_ensures(
            Executor::request_execution_at,
            (
                executor,
                env,
                now,
                dst_chain,
                dst_addr_wa32,
                refund,
                payee,
                fee_token,
                fee_amount,
                signed_quote,
                request,
                relay_instructions,
            ),
            r,
        ),
        call_ensures(
            Executor::request_execution_at,
            (
                executor,
                env,
                now,
                other_chain,
                dst_addr_wa32,
                refund,
                payee,
                fee_token,
                fee_amount,
                signed_quote,
                request,
                relay_instructions,
            ),
            s,
        ),
        r is Ok,
        other_chain != dst_chain,
    ensures
        s == Err::<ExecutionRequested, ExecError>(ExecError::RequestDstMismatch),
{
    lemma_quote_bytes(bytes_contents(signed_quote));
    lemma_request_bytes(bytes_contents(request));
}

/// A quote that one contract accepts is refused by any contract on another chain.
pub proof fn law_quote_serves_one_source(
    executor: &Executor,
    other: &Executor,
    env: Env,
    now: u64,
    dst_chain: u32,
    dst_addr_wa32: BytesN<32>,
    refund: Address,
    payee: Address,
    fee_token: Option<Address>,
    fee_amount: Option<i128>,
    signed_quote: Bytes,
    request: Bytes,
    relay_instructions: Option<Bytes>,
    r: Result<ExecutionRequested, ExecError>,
    s: Result<ExecutionRequested, ExecError>,
)
    requires
        call_ensures(
            Executor::request_execution_at,
            (
                executor,
                env,
                now,
                dst_chain,
                dst_addr_wa32,
                refund,
                payee,
                fee_token,
                fee_amount,
                signed_quote,
                request,
                relay_instructions,
            ),
            r,
        ),
        call_ensures(
            Executor::request_execution_at,
            (
                other,
                env,
                now,
                dst_chain,
                dst_addr_wa32,
                refund,
                payee,
                fee_token,
                fee_amount,
                signed_quote,
                request,
                relay_instructions,
            ),
            s,
        ),
        r is Ok,
        other.stored().contains_key(DataKey::ChainId),
        other.stored()[DataKey::ChainId] != executor.stored()[DataKey::ChainId],
    ensures
        s == Err::<ExecutionRequested, ExecError>(ExecError::QuoteChainMismatch),
{
    lemma_quote_bytes(bytes_contents(signed_quote));
    lemma_request_bytes(bytes_contents(request));
}

/// A request that is accepted at one time is accepted at every earlier one, and one that is
/// refused as expired is so refused at every later one.
pub proof fn law_answer_over_time(
    executor: &Executor,
    env: Env,
    earlier: u64,
    later: u64,
    dst_chain: u32,
    dst_addr_wa32: BytesN<32>,
    refund: Address,
    payee: Address,
    fee_token: Option<Address>,
    fee_amount: Option<i128>,
    signed_quote: Bytes,
    request: Bytes,
    relay_instructions: Option<Bytes>,
    r: Result<ExecutionRequested, ExecError>,
    s: Result<ExecutionRequested, ExecError>,
)
    requires
        call_ensures(
            Executor::request_execution_at,
            (
                executor,
                env,
                earlier,
                dst_chain,
                dst_addr_wa32,
                refund,
                payee,
                fee_token,
                fee_amount,
                signed_quote,
                request,
                relay_instructions,
            ),
            r,
        ),
        call_ensures(
            Executor::request_execution_at,
            (
                executor,
                env,
                later,
                dst_chain,
                dst_addr_wa32,
                refund,
                payee,
                fee_token,
                fee_amount,
                signed_quote,
                request,
                relay_instructions,
            ),
            s,
        ),
        earlier <= later,
    ensures
        s is Ok ==> r is Ok,
        r == Err::<ExecutionRequested, ExecError>(ExecError::QuoteExpired) ==> s == Err::<
            ExecutionRequested,
            ExecError,
        >(ExecError::QuoteExpired),
{
    lemma_quote_bytes(bytes_contents(signed_quote));
    lemma_request_bytes(bytes_contents(request));
}

/// Addresses, fee and relay instructions decide nothing: they are carried, not checked.
pub proof fn law_carried_arguments_decide_nothing(
    executor: &Executor,
    env: Env,
    now: u64,
    dst_chain: u32,
    dst_addr_wa32: BytesN<32>,
    refund: Address,
    payee: Address,
    fee_token: Option<Address>,
    fee_amount: Option<i128>,
    signed_quote: Bytes,
    request: Bytes,
    relay_instructions: Option<Bytes>,
    other_dst_addr: BytesN<32>,
    other_refund: Address,
    other_payee: Address,
    other_token: Option<Address>,
    other_amount: Option<i128>,
    other_instructions: Option<Bytes>,
    r: Result<ExecutionRequested, ExecError>,
    s: Result<ExecutionRequested, ExecError>,
)
    requires
        call_ensures(
            Executor::request_execution_at,
            (
                executor,
                env,
                now,
                dst_chain,
                dst_addr_wa32,
                refund,
                payee,
                fee_token,
                fee_amount,
                signed_quote,
                request,
                relay_instructions,
            ),
            r,
        ),
        call_ensures(
            Executor::request_execution_at,
            (
                executor,
                env,
                now,
                dst_chain,
                other_dst_addr,
                other_refund,
                other_payee,
                other_token,
                other_amount,
                signed_quote,
                request,
                other_instructions,
            ),
            s,
        ),
    ensures
        r is Ok <==> s is Ok,
        r matches Err(e) ==> s == Err::<ExecutionRequested, ExecError>(e),
{
}

/// `request_execution` decides at a ledger time as it was read: there is one such that the request
/// is accepted if and only if all is in order and the quote is not past then, and is refused as
/// expired if and only if all is in order up to there and the quote is past then.
pub proof fn law_request_is_answered_at_the_ledger_time(
    executor: &Executor,
    env: Env,
    dst_chain: u32,
    dst_addr_wa32: BytesN<32>,
    refund: Address,
    payee: Address,
    fee_token: Option<Address>,
    fee_amount: Option<i128>,
    signed_quote: Bytes,
    request: Bytes,
    relay_instructions: Option<Bytes>,
    r: Result<ExecutionRequested, ExecError>,
)
    requires
        call_ensures(
            <Executor as ExecutorTrait>::request_execution,
            (
                executor,
                env,
                dst_chain,
                dst_addr_wa32,
                refund,
                payee,
                fee_token,
                fee_amount,
                signed_quote,
                request,
                relay_instructions,
            ),
            r,
        ),
    ensures
        ({
            let stored = executor.stored();
            let q = bytes_contents(signed_quote);
            let m = bytes_contents(request);
            exists|now: u64| #[trigger]
                is_ledger_time(env, now) && {
                    &&& r is Ok <==> {
                        &&& stored.contains_key(DataKey::ChainId)
                        &&& q.len() >= 80 && q[0] == 0x45 && q[1] == 0x51 && q[2] == 0x30 && q[3] == 0x31
                        &&& q[68] * 0x100 + q[69] == stored[DataKey::ChainId]
                        &&& q[70] * 0x100 + q[71] == dst_chain
                        &&& now <= be_value(q.subrange(72, 80)) <= i64::MAX
                        &&& m.len() >= 4 && m[0] == 0x45 && m[1] == 0x52 && m[2] == 0x56 && m[3] == 0x31
                    }
                    &&& r == Err::<ExecutionRequested, ExecError>(ExecError::QuoteExpired) <==> {
                        &&& m.len() > 0
                        &&& stored.contains_key(DataKey::ChainId)
                        &&& q.len() >= 80 && q[0] == 0x45 && q[1] == 0x51 && q[2] == 0x30 && q[3] == 0x31
                        &&& q[68] * 0x100 + q[69] == stored[DataKey::ChainId]
                        &&& q[70] * 0x100 + q[71] == dst_chain
                        &&& be_value(q.subrange(72, 80)) < now || be_value(q.subrange(72, 80)) > i64::MAX
                    }
                }
        }),
{
    lemma_quote_bytes(bytes_contents(signed_quote));
    lemma_request_bytes(bytes_contents(request));
    let now = choose|now: u64| #[trigger]
        is_ledger_time(env, now) && answers_request(
            r,
            executor.stored(),
            now,
            dst_chain,
            dst_addr_wa32,
            refund,
            payee,
            fee_token,
            fee_amount,
            signed_quote,
            request,
            relay_instructions,
        );
    assert(is_ledger_time(env, now));
}

/// A quote that is past at every time that the ledger can give is never accepted.
pub proof fn law_past_quote_is_refused(
    executor: &Executor,
    env: Env,
    dst_chain: u32,
    dst_addr_wa32: BytesN<32>,
    refund: Address,
    payee: Address,
    fee_token: Option<Address>,
    fee_amount: Option<i128>,
    signed_quote: Bytes,
    request: Bytes,
    relay_instructions: Option<Bytes>,
    r: Result<ExecutionRequested, ExecError>,
)
    requires
        call_ensures(
            <Executor as ExecutorTrait>::request_execution,
            (
                executor,
                env,
                dst_chain,
                dst_addr_wa32,
                refund,
                payee,
                fee_token,
                fee_amount,
                signed_quote,
                request,
                relay_instructions,
            ),
            r,
        ),
        forall|now: u64| #[trigger]
            is_ledger_time(env, now) ==> be_value(bytes_contents(signed_quote).subrange(72, 80)) < now,
    ensures
        r is Err,
{
    lemma_quote_bytes(bytes_contents(signed_quote));
    lemma_request_bytes(bytes_contents(request));
}

/// Where all is in order and the quote is not past at any time that the ledger can give, the
/// request is accepted.
pub proof fn law_current_quote_is_accepted(
    executor: &Executor,
    env: Env,
    dst_chain: u32,
    dst_addr_wa32: BytesN<32>,
    refund: Address,
    payee: Address,
    fee_token: Option<Address>,
    fee_amount: Option<i128>,
    signed_quote: Bytes,
    request: Bytes,
    relay_instructions: Option<Bytes>,
    r: Result<ExecutionRequested, ExecError>,
)
    requires
        call_ensures(
            <Executor as ExecutorTrait>::request_execution,
            (
                executor,
                env,
                dst_chain,
                dst_addr_wa32,
                refund,
                payee,
                fee_token,
                fee_amount,
                signed_quote,
                request,
                relay_instructions,
            ),
            r,
        ),
        ({
            let stored = executor.stored();
            let q = bytes_contents(signed_quote);
            let m = bytes_contents(request);
            &&& stored.contains_key(DataKey::ChainId)
            &&& q.len() >= 80 && q[0] == 0x45 && q[1] == 0x51 && q[2] == 0x30 && q[3] == 0x31
            &&& q[68] * 0x100 + q[69] == stored[DataKey::ChainId]
            &&& q[70] * 0x100 + q[71] == dst_chain
            &&& m.len() >= 4 && m[0] == 0x45 && m[1] == 0x52 && m[2] == 0x56 && m[3] == 0x31
            &&& forall|now: u64| #[trigger]
                is_ledger_time(env, now) ==> now <= be_value(q.subrange(72, 80)) <= i64::MAX
        }),
    ensures
        r is Ok,
{
    lemma_quote_bytes(bytes_contents(signed_quote));
    lemma_request_bytes(bytes_contents(request));
}

/// The event that `request_execution` gives names the quoter that the quote names, and carries
/// what the caller gave, unchanged.
pub proof fn law_request_event_is_faithful(
    executor: &Executor,
    env: Env,
    dst_chain: u32,
    dst_addr_wa32: BytesN<32>,
    refund: Address,
    payee: Address,
    fee_token: Option<Address>,
    fee_amount: Option<i128>,
    signed_quote: Bytes,
    request: Bytes,
    relay_instructions: Option<Bytes>,
    r: Result<ExecutionRequested, ExecError>,
)
    requires
        call_ensures(
            <Executor as ExecutorTrait>::request_execution,
            (
                executor,
                env,
                dst_chain,
                dst_addr_wa32,
                refund,
                payee,
                fee_token,
                fee_amount,
                signed_quote,
                request,
                relay_instructions,
            ),
            r,
        ),
    ensures
        r matches Ok(event) ==> (event.quoter_wa32 matches Some(quoter) && bytes32_contents(quoter)
            == bytes_contents(signed_quote).subrange(4, 36)),
        r matches Ok(event) ==> {
            &&& event.payee == payee
            &&& event.dst_chain == dst_chain
            &&& event.dst_addr_wa32 == dst_addr_wa32
            &&& event.refund == refund
            &&& event.fee_token == fee_token
            &&& event.fee_amount == fee_amount
            &&& event.signed_quote == signed_quote
            &&& event.request == request
            &&& event.relay_instructions == relay_instructions
        },
{
    lemma_quote_bytes(bytes_contents(signed_quote));
    lemma_request_bytes(bytes_contents(request));
}

/// What is refused before the time comes into it is refused whatever the time: empty input, a
/// contract without a chain, a quote that starts otherwise, another source and another
/// destination.
pub proof fn law_request_refusals_without_the_time(
    executor: &Executor,
    env: Env,
    dst_chain: u32,
    dst_addr_wa32: BytesN<32>,
    refund: Address,
    payee: Address,
    fee_token: Option<Address>,
    fee_amount: Option<i128>,
    signed_quote: Bytes,
    request: Bytes,
    relay_instructions: Option<Bytes>,
    r: Result<ExecutionRequested, ExecError>,
)
    requires
        call_ensures(
            <Executor as ExecutorTrait>::request_execution,
            (
                executor,
                env,
                dst_chain,
                dst_addr_wa32,
                refund,
                payee,
                fee_token,
                fee_amount,
                signed_quote,
                request,
                relay_instructions,
            ),
            r,
        ),
    ensures
        ({
            let stored = executor.stored();
            let q = bytes_contents(signed_quote);
            let m = bytes_contents(request);
            &&& r == Err::<ExecutionRequested, ExecError>(ExecError::EmptyQuote) <==> q.len() == 0
            &&& r == Err::<ExecutionRequested, ExecError>(ExecError::EmptyRequest) <==> q.len() > 0 && m.len() == 0
            &&& r == Err::<ExecutionRequested, ExecError>(ExecError::NotInitialized) <==> {
                &&& q.len() > 0
                &&& m.len() > 0
                &&& !stored.contains_key(DataKey::ChainId)
            }
            &&& r == Err::<ExecutionRequested, ExecError>(ExecError::InvalidQuotePrefix) <==> {
                &&& m.len() > 0
                &&& stored.contains_key(DataKey::ChainId)
                &&& q.len() >= 80
                &&& !(q[0] == 0x45 && q[1] == 0x51 && q[2] == 0x30 && q[3] == 0x31)
            }
            &&& r == Err::<ExecutionRequested, ExecError>(ExecError::QuoteChainMismatch) <==> {
                &&& m.len() > 0
                &&& stored.contains_key(DataKey::ChainId)
                &&& q.len() >= 80 && q[0] == 0x45 && q[1] == 0x51 && q[2] == 0x30 && q[3] == 0x31
                &&& q[68] * 0x100 + q[69] != stored[DataKey::ChainId]
            }
            &&& r == Err::<ExecutionRequested, ExecError>(ExecError::RequestDstMismatch) <==> {
                &&& m.len() > 0
                &&& stored.contains_key(DataKey::ChainId)
                &&& q.len() >= 80 && q[0] == 0x45 && q[1] == 0x51 && q[2] == 0x30 && q[3] == 0x31
                &&& q[68] * 0x100 + q[69] == stored[DataKey::ChainId]
                &&& q[70] * 0x100 + q[71] != dst_chain
            }
            &&& r != Err::<ExecutionRequested, ExecError>(ExecError::AlreadyInitialized)
        }),
{
    lemma_quote_bytes(bytes_contents(signed_quote));
    lemma_request_bytes(bytes_contents(request));
}

/// The topics under which events are published are always the same two names, in this order.
pub proof fn law_topics_name_contract_and_event(env: &Env, topics: (Symbol, Symbol))
    requires
        call_ensures(ExecutionRequested::topics, (env,), topics),
    ensures
        symbol_text(topics.0) == "Executor"@,
        symbol_text(topics.1) == "ExecutionRequested"@,
{
}

/// A copy of an event is the event.
pub proof fn law_copied_event_is_the_same(event: &ExecutionRequested, copy: ExecutionRequested)
    requires
        call_ensures(<ExecutionRequested as Clone>::clone, (event,), copy),
    ensures
        copy == *event,
{
}

} // verus!

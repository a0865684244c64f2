//! What holds of the contract as a whole, over any stored state, any ledger time and any input.

use crate::contract::{chain_id_outcome, init_outcome, request_outcome, DataKey};
use crate::error::ExecError;
use crate::quote::{
    law_quote_read_then_write, law_quote_rest_is_ignored, law_quote_write_then_read, quote_outcome,
    QuoteFields, SIGNED_QUOTE_PREFIX,
};
use crate::request::{law_request_payload_is_ignored, REQ_EXEC_PREFIX};
use vstd::prelude::*;

verus! {

/// The stored state after calls of `init` with each of `ids` in turn.  The other entry points
/// store nothing.
pub open spec fn after_inits(stored: Map<DataKey, u32>, ids: Seq<u32>) -> Map<DataKey, u32>
    decreases ids.len(),
{
    if ids.len() == 0 {
        stored
    } else {
        let before = after_inits(stored, ids.drop_last());
        match init_outcome(before, ids.last()) {
            Ok(after) => after,
            Err(_) => before,
        }
    }
}

/// `chain_id` answers with what `init` was given.
pub proof fn law_init_then_chain_id(stored: Map<DataKey, u32>, chain_id: u32)
    ensures
        init_outcome(stored, chain_id) matches Ok(after) ==> chain_id_outcome(after) == Ok::<
            u32,
            ExecError,
        >(chain_id),
{
}

/// A second `init` is refused, whatever the two were given.
pub proof fn law_init_only_once(stored: Map<DataKey, u32>, first: u32, second: u32)
    ensures
        init_outcome(stored, first) matches Ok(after) ==> init_outcome(after, second) == Err::<
            Map<DataKey, u32>,
            ExecError,
        >(ExecError::AlreadyInitialized),
{
}

/// Before `init` there is no chain, and exactly then is `init` accepted.
pub proof fn law_init_accepted_iff_no_chain(stored: Map<DataKey, u32>, chain_id: u32)
    ensures
        init_outcome(stored, chain_id) is Ok <==> chain_id_outcome(stored) == Err::<u32, ExecError>(
            ExecError::NotInitialized,
        ),
{
}

/// Once the contract has a chain, no calls of `init` change what it stores.
pub proof fn law_chain_id_never_changes(stored: Map<DataKey, u32>, ids: Seq<u32>)
    requires
        chain_id_outcome(stored) is Ok,
    ensures
        after_inits(stored, ids) == stored,
    decreases ids.len(),
{
    if ids.len() > 0 {
        law_chain_id_never_changes(stored, ids.drop_last());
    }
}

/// Of any calls of `init` on a contract without a chain, the first one decides.
pub proof fn law_first_init_decides(stored: Map<DataKey, u32>, ids: Seq<u32>)
    requires
        chain_id_outcome(stored) is Err,
        ids.len() > 0,
    ensures
        chain_id_outcome(after_inits(stored, ids)) == Ok::<u32, ExecError>(ids[0]),
    decreases ids.len(),
{
    if ids.len() == 1 {
        assert(after_inits(stored, ids.drop_last()) == stored);
    } else {
        law_first_init_decides(stored, ids.drop_last());
    }
}

/// A request is accepted if and only if the contract has a chain, the quote is well formed, is for
/// that chain and for the requested one and has not expired, and the request is well formed.  It
/// is then accepted on exactly that quote.
pub proof fn law_request_accepted_iff(
    stored: Map<DataKey, u32>,
    now: u64,
    dst_chain: u32,
    signed_quote: Seq<u8>,
    request: Seq<u8>,
)
    ensures
        request_outcome(stored, now, dst_chain, signed_quote, request) is Ok <==> {
            &&& stored.contains_key(DataKey::ChainId)
            &&& signed_quote.len() >= 80
            &&& signed_quote.subrange(0, 4) == SIGNED_QUOTE_PREFIX@
            &&& quote_outcome(signed_quote)->Ok_0.src_chain == stored[DataKey::ChainId]
            &&& quote_outcome(signed_quote)->Ok_0.dst_chain == dst_chain
            &&& now <= quote_outcome(signed_quote)->Ok_0.expiry <= i64::MAX
            &&& request.len() >= 4
            &&& request.subrange(0, 4) == REQ_EXEC_PREFIX@
        },
        request_outcome(stored, now, dst_chain, signed_quote, request) is Ok ==> request_outcome(
            stored,
            now,
            dst_chain,
            signed_quote,
            request,
        ) == quote_outcome(signed_quote),
{
}

/// A quote that was written for this chain, for the requested one and for a time not yet past is
/// accepted, whatever follows its fields and whatever the request carries.
pub proof fn law_written_quote_accepted(
    stored: Map<DataKey, u32>,
    now: u64,
    dst_chain: u32,
    fields: QuoteFields,
    rest: Seq<u8>,
    payload: Seq<u8>,
)
    requires
        fields.fits(),
        chain_id_outcome(stored) is Ok,
        fields.src_chain == chain_id_outcome(stored)->Ok_0,
        fields.dst_chain == dst_chain,
        now <= fields.expiry <= i64::MAX,
    ensures
        request_outcome(
            stored,
            now,
            dst_chain,
            fields.written() + rest,
            REQ_EXEC_PREFIX@ + payload,
        ) == Ok::<QuoteFields, ExecError>(fields),
{
    law_quote_write_then_read(fields, rest);
    law_request_payload_is_ignored(payload);
}

/// The answer depends on no more than the first 80 bytes of the quote and the first four of the
/// request.
pub proof fn law_rest_makes_no_difference(
    stored: Map<DataKey, u32>,
    now: u64,
    dst_chain: u32,
    quote_head: Seq<u8>,
    quote_rest: Seq<u8>,
    request_head: Seq<u8>,
    request_rest: Seq<u8>,
)
    requires
        quote_head.len() >= 80,
        request_head.len() >= 4,
    ensures
        request_outcome(
            stored,
            now,
            dst_chain,
            quote_head + quote_rest,
            request_head + request_rest,
        ) == request_outcome(stored, now, dst_chain, quote_head, request_head),
{
    law_quote_rest_is_ignored(quote_head, quote_rest);
    assert((request_head + request_rest).subrange(0, 4) =~= request_head.subrange(0, 4));
}

/// Before `init` no request is accepted.
pub proof fn law_no_request_before_init(
    stored: Map<DataKey, u32>,
    now: u64,
    dst_chain: u32,
    signed_quote: Seq<u8>,
    request: Seq<u8>,
)
    requires
        chain_id_outcome(stored) is Err,
    ensures
        request_outcome(stored, now, dst_chain, signed_quote, request) is Err,
        signed_quote.len() > 0 && request.len() > 0 ==> request_outcome(
            stored,
            now,
            dst_chain,
            signed_quote,
            request,
        ) == Err::<QuoteFields, ExecError>(ExecError::NotInitialized),
{
}

/// Quotes have 16 bits for a chain.  A contract on a chain with a larger number accepts no
/// request, and no contract accepts one for such a chain.
pub proof fn law_wide_chain_accepts_nothing(
    stored: Map<DataKey, u32>,
    now: u64,
    dst_chain: u32,
    signed_quote: Seq<u8>,
    request: Seq<u8>,
)
    requires
        dst_chain > u16::MAX || (chain_id_outcome(stored) matches Ok(id) && id > u16::MAX),
    ensures
        request_outcome(stored, now, dst_chain, signed_quote, request) is Err,
{
    if quote_outcome(signed_quote) is Ok {
        law_quote_read_then_write(signed_quote);
    }
}

/// A request that is accepted would have been accepted at any earlier time, on the same quote.
pub proof fn law_accepted_earlier_too(
    stored: Map<DataKey, u32>,
    earlier: u64,
    now: u64,
    dst_chain: u32,
    signed_quote: Seq<u8>,
    request: Seq<u8>,
)
    requires
        earlier <= now,
        request_outcome(stored, now, dst_chain, signed_quote, request) is Ok,
    ensures
        request_outcome(stored, earlier, dst_chain, signed_quote, request) == request_outcome(
            stored,
            now,
            dst_chain,
            signed_quote,
            request,
        ),
{
}

/// A quote that has expired stays expired.
pub proof fn law_expired_stays_expired(
    stored: Map<DataKey, u32>,
    now: u64,
    later: u64,
    dst_chain: u32,
    signed_quote: Seq<u8>,
    request: Seq<u8>,
)
    requires
        now <= later,
        request_outcome(stored, now, dst_chain, signed_quote, request) == Err::<
            QuoteFields,
            ExecError,
        >(ExecError::QuoteExpired),
    ensures
        request_outcome(stored, later, dst_chain, signed_quote, request) == Err::<
            QuoteFields,
            ExecError,
        >(ExecError::QuoteExpired),
{
}

/// A quote that was written to expire before the Unix epoch is refused at every time, and for that
/// reason where the contract gets to the expiry.
pub proof fn law_expiry_before_epoch_accepts_nothing(
    stored: Map<DataKey, u32>,
    now: u64,
    dst_chain: u32,
    signed_quote: Seq<u8>,
    request: Seq<u8>,
)
    requires
        quote_outcome(signed_quote) is Ok,
        quote_outcome(signed_quote)->Ok_0.expiry > i64::MAX,
    ensures
        request_outcome(stored, now, dst_chain, signed_quote, request) is Err,
        ({
            &&& request.len() > 0
            &&& chain_id_outcome(stored) is Ok
            &&& quote_outcome(signed_quote)->Ok_0.src_chain == chain_id_outcome(stored)->Ok_0
            &&& quote_outcome(signed_quote)->Ok_0.dst_chain == dst_chain
        }) ==> request_outcome(stored, now, dst_chain, signed_quote, request) == Err::<
            QuoteFields,
            ExecError,
        >(ExecError::QuoteExpired),
{
}

/// An accepted quote is for one destination only: the same request for another chain is refused
/// for that reason.
pub proof fn law_quote_binds_destination(
    stored: Map<DataKey, u32>,
    now: u64,
    dst_chain: u32,
    other_chain: u32,
    signed_quote: Seq<u8>,
    request: Seq<u8>,
)
    requires
        other_chain != dst_chain,
        request_outcome(stored, now, dst_chain, signed_quote, request) is Ok,
    ensures
        request_outcome(stored, now, other_chain, signed_quote, request) == Err::<
            QuoteFields,
            ExecError,
        >(ExecError::RequestDstMismatch),
{
}

} // verus!

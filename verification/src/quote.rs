//! Signed quotes.
//!
//! A quote starts with 80 bytes of fixed layout:
//!
//! | bytes  | field                                       |
//! |--------|---------------------------------------------|
//! | 0..4   | the prefix `EQ01`                           |
//! | 4..36  | the quoter's address, as 32 bytes           |
//! | 36..68 | the payee's address, as 32 bytes            |
//! | 68..70 | the source chain, big-endian                |
//! | 70..72 | the destination chain, big-endian           |
//! | 72..80 | the expiry in Unix seconds, big-endian, as  |
//! |        | a signed number in two's complement         |
//!
//! The contract does not look at what follows, a signature among it.

use crate::bytes::{
    be_bytes, be_count, be_u16_at, be_u64_at, be_value, bytes_eq_prefix, law_be_read_then_write,
    law_be_value_bound, law_be_value_of_eight, law_be_value_of_two, law_be_write_then_read,
    read_fixed,
};
use crate::error::ExecError;
use crate::sdk::{bytes32_contents, bytes32_from_array, bytes_contents, bytes_len};
use soroban_sdk::{Bytes, BytesN, Env};
use vstd::prelude::*;

verus! {

/// `EQ01`
pub const SIGNED_QUOTE_PREFIX: [u8; 4] = [0x45, 0x51, 0x30, 0x31];

/// The part of a quote that the contract reads.
pub struct ParsedQuote {
    pub quoter_wa32: BytesN<32>,
    pub _payee_wa32: BytesN<32>,
    pub src_chain: u32,
    pub dst_chain: u32,
    pub expiry: u64,
}

/// What the fixed layout of a quote says.
#[verifier::ext_equal]
pub struct QuoteFields {
    pub quoter: Seq<u8>,
    pub payee: Seq<u8>,
    pub src_chain: nat,
    pub dst_chain: nat,
    pub expiry: nat,
}

impl QuoteFields {
    /// Every field fits the room that the layout has for it.
    pub open spec fn fits(self) -> bool {
        &&& self.quoter.len() == 32
        &&& self.payee.len() == 32
        &&& self.src_chain <= u16::MAX
        &&& self.dst_chain <= u16::MAX
        &&& self.expiry <= u64::MAX
    }

    /// The layout, written out.
    pub open spec fn written(self) -> Seq<u8> {
        SIGNED_QUOTE_PREFIX@ + self.quoter + self.payee + be_bytes(self.src_chain, 2) + be_bytes(
            self.dst_chain,
            2,
        ) + be_bytes(self.expiry, 8)
    }
}

impl View for ParsedQuote {
    type V = QuoteFields;

    open spec fn view(&self) -> QuoteFields {
        QuoteFields {
            quoter: bytes32_contents(self.quoter_wa32),
            payee: bytes32_contents(self._payee_wa32),
            src_chain: self.src_chain as nat,
            dst_chain: self.dst_chain as nat,
            expiry: self.expiry as nat,
        }
    }
}

/// Whether a quote with this expiry field is past at the ledger time `now`.  The field holds a
/// signed number: one above `i64::MAX` stands for a time before the Unix epoch, which is past
/// whatever the time.
pub open spec fn is_expired(expiry: nat, now: u64) -> bool {
    expiry < now || expiry > i64::MAX
}

/// What reading a quote gives.
pub open spec fn quote_outcome(q: Seq<u8>) -> Result<QuoteFields, ExecError> {
    if q.len() < 80 {
        Err(ExecError::BadLengths)
    } else if q.subrange(0, 4) != SIGNED_QUOTE_PREFIX@ {
        Err(ExecError::InvalidQuotePrefix)
    } else {
        Ok(
            QuoteFields {
                quoter: q.subrange(4, 36),
                payee: q.subrange(36, 68),
                src_chain: be_value(q.subrange(68, 70)),
                dst_chain: be_value(q.subrange(70, 72)),
                expiry: be_value(q.subrange(72, 80)),
            },
        )
    }
}

/// Reads the fixed layout at the start of a quote.
pub fn parse_signed_quote_min(env: &Env, quote: &Bytes) -> (r: Result<ParsedQuote, ExecError>)
    ensures
        match r {
            Ok(p) => quote_outcome(bytes_contents(*quote)) == Ok::<QuoteFields, ExecError>(p@),
            Err(e) => quote_outcome(bytes_contents(*quote)) == Err::<QuoteFields, ExecError>(e),
        },
{
    if bytes_len(quote) < 80 {
        return Err(ExecError::BadLengths);
    }
    if !bytes_eq_prefix(quote, 0, &SIGNED_QUOTE_PREFIX) {
        return Err(ExecError::InvalidQuotePrefix);
    }
    let quoter_wa32: BytesN<32> = bytes32_from_array(env, &read_fixed::<32>(quote, 4));
    let payee_wa32: BytesN<32> = bytes32_from_array(env, &read_fixed::<32>(quote, 36));
    let src_chain: u32 = be_u16_at(quote, 68) as u32;
    let dst_chain: u32 = be_u16_at(quote, 70) as u32;
    let expiry: u64 = be_u64_at(quote, 72);
    Ok(ParsedQuote { quoter_wa32, _payee_wa32: payee_wa32, src_chain, dst_chain, expiry })
}

/// Whether a quote with this expiry field is past at the ledger time `now`.
pub fn quote_is_expired(expiry: u64, now: u64) -> (r: bool)
    ensures
        r == is_expired(expiry as nat, now),
{
    expiry < now || expiry > i64::MAX as u64
}

/// A quote that was written to expire at `time`, before or after the Unix epoch, is past exactly
/// when that time is.
pub proof fn law_expiry_is_signed(time: i64, now: u64)
    ensures
        is_expired(
            if time < 0 {
                (time + 0x1_0000_0000_0000_0000) as nat
            } else {
                time as nat
            },
            now,
        ) <==> time < now,
{
}

/// The same of what `quote_is_expired` answers: `time` is what the expiry field holds, read as a
/// signed number.
pub proof fn law_quote_is_past_when_its_time_is(expiry: u64, time: i64, now: u64, r: bool)
    requires
        expiry == time || expiry == time + 0x1_0000_0000_0000_0000,
        call_ensures(quote_is_expired, (expiry, now), r),
    ensures
        r <==> time < now,
{
}

/// What the bytes of a quote say, at their places.
pub(crate) proof fn lemma_quote_bytes(q: Seq<u8>)
    ensures
        quote_outcome(q) is Ok <==> q.len() >= 80 && q[0] == 0x45 && q[1] == 0x51 && q[2] == 0x30
            && q[3] == 0x31,
        quote_outcome(q) is Err ==> quote_outcome(q)->Err_0 == (if q.len() < 80 {
            ExecError::BadLengths
        } else {
            ExecError::InvalidQuotePrefix
        }),
        quote_outcome(q) matches Ok(f) ==> {
            &&& f.quoter == q.subrange(4, 36)
            &&& f.payee == q.subrange(36, 68)
            &&& f.src_chain == q[68] * 0x100 + q[69]
            &&& f.dst_chain == q[70] * 0x100 + q[71]
            &&& f.expiry == be_value(q.subrange(72, 80))
        },
{
    if q.len() >= 80 {
        let head = q.subrange(0, 4);
        assert(head[0] == q[0] && head[1] == q[1] && head[2] == q[2] && head[3] == q[3]);
        if q[0] == 0x45 && q[1] == 0x51 && q[2] == 0x30 && q[3] == 0x31 {
            assert(head =~= SIGNED_QUOTE_PREFIX@);
        }
        law_be_value_of_two(q.subrange(68, 70));
        law_be_value_of_two(q.subrange(70, 72));
    }
}

/// A quote is read if and only if it has 80 bytes or more and starts with `EQ01`; a shorter one is
/// refused for its length, and another start for that.
pub proof fn law_quote_is_read_iff(env: &Env, quote: &Bytes, r: Result<ParsedQuote, ExecError>)
    requires
        call_ensures(parse_signed_quote_min, (env, quote), r),
    ensures
        ({
            let q = bytes_contents(*quote);
            &&& r is Ok <==> q.len() >= 80 && q[0] == 0x45 && q[1] == 0x51 && q[2] == 0x30 && q[3]
                == 0x31
            &&& r is Err ==> r->Err_0 == (if q.len() < 80 {
                ExecError::BadLengths
            } else {
                ExecError::InvalidQuotePrefix
            })
        }),
{
    lemma_quote_bytes(bytes_contents(*quote));
}

/// Each field that is read from a quote is what the bytes at its place say.
pub proof fn law_quote_fields_are_at_their_places(
    env: &Env,
    quote: &Bytes,
    r: Result<ParsedQuote, ExecError>,
)
    requires
        call_ensures(parse_signed_quote_min, (env, quote), r),
        r is Ok,
    ensures
        ({
            let q = bytes_contents(*quote);
            let p = r->Ok_0;
            &&& bytes32_contents(p.quoter_wa32) == q.subrange(4, 36)
            &&& bytes32_contents(p._payee_wa32) == q.subrange(36, 68)
            &&& p.src_chain == q[68] * 0x100 + q[69]
            &&& p.dst_chain == q[70] * 0x100 + q[71]
            &&& p.expiry == q[72] * 0x100_0000_0000_0000 + q[73] * 0x1_0000_0000_0000 + q[74]
                * 0x100_0000_0000 + q[75] * 0x1_0000_0000 + q[76] * 0x100_0000 + q[77] * 0x1_0000
                + q[78] * 0x100 + q[79]
        }),
{
    lemma_quote_bytes(bytes_contents(*quote));
    law_be_value_of_eight(bytes_contents(*quote).subrange(72, 80));
}

/// Reading a quote gives back the fields that were written into it, whatever follows them.
pub proof fn law_quote_write_then_read(fields: QuoteFields, rest: Seq<u8>)
    requires
        fields.fits(),
    ensures
        fields.written().len() == 80,
        quote_outcome(fields.written() + rest) == Ok::<QuoteFields, ExecError>(fields),
{
    reveal_with_fuel(be_count, 9);
    law_be_write_then_read(fields.src_chain, 2);
    law_be_write_then_read(fields.dst_chain, 2);
    law_be_write_then_read(fields.expiry, 8);
    let q = fields.written() + rest;
    assert(q.subrange(0, 4) =~= SIGNED_QUOTE_PREFIX@);
    assert(q.subrange(4, 36) =~= fields.quoter);
    assert(q.subrange(36, 68) =~= fields.payee);
    assert(q.subrange(68, 70) =~= be_bytes(fields.src_chain, 2));
    assert(q.subrange(70, 72) =~= be_bytes(fields.dst_chain, 2));
    assert(q.subrange(72, 80) =~= be_bytes(fields.expiry, 8));
}

/// The fields read from a quote fit the layout, and writing them gives the first 80 bytes of the
/// quote.  So two quotes that read the same start with the same 80 bytes.
pub proof fn law_quote_read_then_write(q: Seq<u8>)
    requires
        quote_outcome(q) is Ok,
    ensures
        quote_outcome(q)->Ok_0.fits(),
        quote_outcome(q)->Ok_0.written() == q.subrange(0, 80),
{
    let fields = quote_outcome(q)->Ok_0;
    reveal_with_fuel(be_count, 9);
    law_be_value_bound(q.subrange(68, 70));
    law_be_value_bound(q.subrange(70, 72));
    law_be_value_bound(q.subrange(72, 80));
    law_be_read_then_write(q.subrange(68, 70));
    law_be_read_then_write(q.subrange(70, 72));
    law_be_read_then_write(q.subrange(72, 80));
    assert(fields.written() =~= q.subrange(0, 80));
}

/// What follows the first 80 bytes of a quote makes no difference.
pub proof fn law_quote_rest_is_ignored(head: Seq<u8>, rest: Seq<u8>)
    requires
        head.len() >= 80,
    ensures
        quote_outcome(head + rest) == quote_outcome(head),
{
    let q = head + rest;
    assert(q.subrange(0, 4) =~= head.subrange(0, 4));
    assert(q.subrange(4, 36) =~= head.subrange(4, 36));
    assert(q.subrange(36, 68) =~= head.subrange(36, 68));
    assert(q.subrange(68, 70) =~= head.subrange(68, 70));
    assert(q.subrange(70, 72) =~= head.subrange(70, 72));
    assert(q.subrange(72, 80) =~= head.subrange(72, 80));
}

} // verus!

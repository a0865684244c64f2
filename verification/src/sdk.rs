//! The parts of `soroban_sdk` that the contract's logic calls, with what is relied on of each.
//!
//! Nothing in this file is proved: every contract here is a statement about the SDK.  Each call
//! draws on the budget of the transaction.  A transaction that runs out of it is aborted by the
//! host, so the contracts speak of the calls that return.

use soroban_sdk::{Address, Bytes, BytesN, Env, Symbol};
use vstd::prelude::*;

verus! {

/// The host environment of a contract call.
#[verifier::external_type_specification]
#[verifier::external_body]
pub struct ExEnv(soroban_sdk::Env);

/// An account or contract address.  The contract only carries addresses through.
#[verifier::external_type_specification]
#[verifier::external_body]
pub struct ExAddress(soroban_sdk::Address);

/// A byte array held by the host.
#[verifier::external_type_specification]
#[verifier::external_body]
pub struct ExBytes(soroban_sdk::Bytes);

/// A byte array of fixed size held by the host.
#[verifier::external_type_specification]
#[verifier::external_body]
pub struct ExBytesN<const N: usize>(soroban_sdk::BytesN<N>);

/// A short identifier, as used for the topics of an event.
#[verifier::external_type_specification]
#[verifier::external_body]
pub struct ExSymbol(soroban_sdk::Symbol);

/// The bytes that a `Bytes` holds.  A host byte array never changes: the methods of `Bytes` that
/// alter it make the handle refer to a new array.
pub uninterp spec fn bytes_contents(b: Bytes) -> Seq<u8>;

/// The bytes that a `BytesN<32>` holds.
pub uninterp spec fn bytes32_contents(b: BytesN<32>) -> Seq<u8>;

/// The characters that a `Symbol` holds.
pub uninterp spec fn symbol_text(s: Symbol) -> Seq<char>;

/// `Bytes::clone`: another handle to the same host array.
pub assume_specification[ <Bytes as Clone>::clone ](b: &Bytes) -> (r: Bytes)
    ensures
        r == *b,
;

/// `BytesN::clone`: another handle to the same host array.
pub assume_specification<const N: usize>[ <BytesN<N> as Clone>::clone ](b: &BytesN<N>) -> (r:
    BytesN<N>)
    ensures
        r == *b,
;

/// `Address::clone`: another handle to the same address.
pub assume_specification[ <Address as Clone>::clone ](a: &Address) -> (r: Address)
    ensures
        r == *a,
;

/// `Bytes::len`: the number of bytes held.
#[verifier::external_body]
pub(crate) fn bytes_len(b: &Bytes) -> (n: u32)
    ensures
        n == bytes_contents(*b).len(),
{
    b.len()
}

/// `Bytes::get`: the byte at a position, or `None` when the position is out of bounds.
#[verifier::external_body]
pub(crate) fn bytes_get(b: &Bytes, i: u32) -> (r: Option<u8>)
    ensures
        r == (if i < bytes_contents(*b).len() {
            Some(bytes_contents(*b)[i as int])
        } else {
            None
        }),
{
    b.get(i)
}

/// `BytesN::<32>::from_array`: a fixed-size byte array that holds the items of the array.
#[verifier::external_body]
pub(crate) fn bytes32_from_array(env: &Env, items: &[u8; 32]) -> (r: BytesN<32>)
    ensures
        bytes32_contents(r) == items@,
{
    BytesN::<32>::from_array(env, items)
}

/// A character that the SDK admits in a symbol: `a-zA-Z0-9_`.
pub open spec fn is_symbol_char(c: char) -> bool {
    'a' <= c <= 'z' || 'A' <= c <= 'Z' || '0' <= c <= '9' || c == '_'
}

/// The strings that a symbol can hold: at most 32 characters, each of them admitted.
pub open spec fn is_symbol_text(s: Seq<char>) -> bool {
    s.len() <= 32 && forall|i: int| 0 <= i < s.len() ==> is_symbol_char(#[trigger] s[i])
}

/// `Symbol::new`: the symbol that holds the string.  It panics on a string that no symbol can
/// hold, so those are left out.
#[verifier::external_body]
pub(crate) fn symbol_new(env: &Env, s: &str) -> (r: Symbol)
    requires
        is_symbol_text(s@),
    ensures
        symbol_text(r) == s@,
{
    Symbol::new(env, s)
}

/// `Env::ledger` and `Ledger::timestamp`: the close time of the current ledger, in seconds since
/// the Unix epoch.  Nothing is claimed of it: it is whatever the ledger says.  A host that runs a
/// contract has a ledger; one that was never given any panics here, which no argument shows.
#[verifier::external_body]
pub(crate) fn ledger_timestamp(env: &Env) -> (now: u64) {
    env.ledger().timestamp()
}

/// `now` is what reading the ledger time of `env` can give.  Two readings need not agree.
pub closed spec fn is_ledger_time(env: Env, now: u64) -> bool {
    call_ensures(ledger_timestamp, (&env,), now)
}

/// A ledger time is a reading as it came, with nothing done to it.
pub(crate) proof fn law_ledger_time_is_a_reading(env: Env, now: u64)
    ensures
        is_ledger_time(env, now) <==> call_ensures(ledger_timestamp, (&env,), now),
{
}

} // verus!

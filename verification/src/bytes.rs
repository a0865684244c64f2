//! Reading fixed-width fields out of a host byte array.

use crate::sdk::{bytes_contents, bytes_get, bytes_len};
use soroban_sdk::Bytes;
use vstd::prelude::*;

verus! {

/// The number that `s` writes in big-endian order.
pub open spec fn be_value(s: Seq<u8>) -> nat
    decreases s.len(),
{
    if s.len() == 0 {
        0
    } else {
        be_value(s.drop_last()) * 256 + s.last() as nat
    }
}

/// The `n` low bytes of `v` in big-endian order.
pub open spec fn be_bytes(v: nat, n: nat) -> Seq<u8>
    decreases n,
{
    if n == 0 {
        Seq::empty()
    } else {
        be_bytes(v / 256, (n - 1) as nat).push((v % 256) as u8)
    }
}

/// How many numbers `n` bytes can write.
pub open spec fn be_count(n: nat) -> nat
    decreases n,
{
    if n == 0 {
        1
    } else {
        256 * be_count((n - 1) as nat)
    }
}

/// Bytes write no number that is out of reach of their count.
pub proof fn law_be_value_bound(s: Seq<u8>)
    ensures
        be_value(s) < be_count(s.len()),
    decreases s.len(),
{
    if s.len() > 0 {
        law_be_value_bound(s.drop_last());
    }
}

/// Writing a number that fits in `n` bytes takes `n` bytes, and reading them gives it back.
pub proof fn law_be_write_then_read(v: nat, n: nat)
    requires
        v < be_count(n),
    ensures
        be_bytes(v, n).len() == n,
        be_value(be_bytes(v, n)) == v,
    decreases n,
{
    if n > 0 {
        law_be_write_then_read(v / 256, (n - 1) as nat);
        assert(be_bytes(v, n).drop_last() =~= be_bytes(v / 256, (n - 1) as nat));
    }
}

/// Writing the number that was read from some bytes gives those bytes.
pub proof fn law_be_read_then_write(s: Seq<u8>)
    ensures
        be_bytes(be_value(s), s.len()) == s,
    decreases s.len(),
{
    if s.len() > 0 {
        law_be_read_then_write(s.drop_last());
        assert(s =~= s.drop_last().push(s.last()));
    }
}

/// Two bytes write 256 times the first plus the second.
pub proof fn law_be_value_of_two(s: Seq<u8>)
    requires
        s.len() == 2,
    ensures
        be_value(s) == s[0] * 0x100 + s[1],
{
    reveal_with_fuel(be_value, 3);
}

/// Four bytes weigh as powers of 256, the first the most.
pub proof fn law_be_value_of_four(s: Seq<u8>)
    requires
        s.len() == 4,
    ensures
        be_value(s) == s[0] * 0x100_0000 + s[1] * 0x1_0000 + s[2] * 0x100 + s[3],
{
    reveal_with_fuel(be_value, 5);
}

/// Eight bytes weigh as powers of 256, the first the most.
pub proof fn law_be_value_of_eight(s: Seq<u8>)
    requires
        s.len() == 8,
    ensures
        be_value(s) == s[0] * 0x100_0000_0000_0000 + s[1] * 0x1_0000_0000_0000 + s[2]
            * 0x100_0000_0000 + s[3] * 0x1_0000_0000 + s[4] * 0x100_0000 + s[5] * 0x1_0000 + s[6]
            * 0x100 + s[7],
{
    reveal_with_fuel(be_value, 9);
}

/// What `bytes_eq_prefix` answers: the bytes from `start` on are those of the prefix, one by one,
/// and there are enough of them.
pub proof fn law_prefix_is_compared_byte_by_byte(b: &Bytes, start: u32, prefix: &[u8], r: bool)
    requires
        start + prefix@.len() <= u32::MAX,
        call_ensures(bytes_eq_prefix, (b, start, prefix), r),
    ensures
        r <==> start + prefix@.len() <= bytes_contents(*b).len() && forall|i: int|
            0 <= i < prefix@.len() ==> bytes_contents(*b)[start + i] == #[trigger] prefix@[i],
{
    let whole = bytes_contents(*b);
    if start + prefix@.len() <= whole.len() {
        let window = whole.subrange(start as int, start + prefix@.len());
        assert(forall|i: int| 0 <= i < prefix@.len() ==> window[i] == #[trigger] whole[start + i]);
        if forall|i: int| 0 <= i < prefix@.len() ==> whole[start + i] == #[trigger] prefix@[i] {
            assert(window =~= prefix@);
        }
        if window == prefix@ {
            assert forall|i: int| 0 <= i < prefix@.len() implies whole[start + i]
                == #[trigger] prefix@[i] by {
                assert(window[i] == whole[start + i]);
            }
        }
    }
}

/// What `read_fixed` gives: the bytes from `start` on, one by one.
pub proof fn law_fixed_bytes_are_read_in_order<const N: usize>(b: &Bytes, start: u32, out: [u8; N])
    requires
        N > 0 ==> start + N <= bytes_contents(*b).len(),
        start + N <= u32::MAX,
        call_ensures(read_fixed::<N>, (b, start), out),
    ensures
        out@.len() == N,
        forall|i: int| 0 <= i < N ==> #[trigger] out@[i] == bytes_contents(*b)[start + i],
{
}

/// What `be_u16_at` gives, byte by byte.
pub proof fn law_u16_is_big_endian(b: &Bytes, start: u32, v: u16)
    requires
        start + 2 <= bytes_contents(*b).len(),
        start + 2 <= u32::MAX,
        call_ensures(be_u16_at, (b, start), v),
    ensures
        v == bytes_contents(*b)[start as int] * 0x100 + bytes_contents(*b)[start + 1],
{
    law_be_value_of_two(bytes_contents(*b).subrange(start as int, start + 2));
}

/// What `be_u32_at` gives, byte by byte.
pub proof fn law_u32_is_big_endian(b: &Bytes, start: u32, v: u32)
    requires
        start + 4 <= bytes_contents(*b).len(),
        start + 4 <= u32::MAX,
        call_ensures(be_u32_at, (b, start), v),
    ensures
        v == bytes_contents(*b)[start as int] * 0x100_0000 + bytes_contents(*b)[start + 1]
            * 0x1_0000 + bytes_contents(*b)[start + 2] * 0x100 + bytes_contents(*b)[start + 3],
{
    law_be_value_of_four(bytes_contents(*b).subrange(start as int, start + 4));
}

/// What `be_u64_at` gives, byte by byte.
pub proof fn law_u64_is_big_endian(b: &Bytes, start: u32, v: u64)
    requires
        start + 8 <= bytes_contents(*b).len(),
        start + 8 <= u32::MAX,
        call_ensures(be_u64_at, (b, start), v),
    ensures
        v == bytes_contents(*b)[start as int] * 0x100_0000_0000_0000 + bytes_contents(*b)[start + 1]
            * 0x1_0000_0000_0000 + bytes_contents(*b)[start + 2] * 0x100_0000_0000
            + bytes_contents(*b)[start + 3] * 0x1_0000_0000 + bytes_contents(*b)[start + 4]
            * 0x100_0000 + bytes_contents(*b)[start + 5] * 0x1_0000 + bytes_contents(*b)[start + 6]
            * 0x100 + bytes_contents(*b)[start + 7],
{
    law_be_value_of_eight(bytes_contents(*b).subrange(start as int, start + 8));
}

/// The widths that the format uses, in numbers.
proof fn lemma_be_counts()
    ensures
        be_count(2) == 0x1_0000,
        be_count(4) == 0x1_0000_0000,
        be_count(8) == 0x1_0000_0000_0000_0000,
{
    reveal_with_fuel(be_count, 9);
}

proof fn lemma_be_count_grows(m: nat, n: nat)
    requires
        m <= n,
    ensures
        be_count(m) <= be_count(n),
    decreases n,
{
    if m < n {
        lemma_be_count_grows(m, (n - 1) as nat);
    }
}

/// Whether `b` holds `prefix` at `start`.
pub fn bytes_eq_prefix(b: &Bytes, start: u32, prefix: &[u8]) -> (r: bool)
    requires
        start + prefix@.len() <= u32::MAX,
    ensures
        r == (start + prefix@.len() <= bytes_contents(*b).len() && bytes_contents(*b).subrange(
            start as int,
            start + prefix@.len(),
        ) == prefix@),
{
    if bytes_len(b) < start + prefix.len() as u32 {
        return false;
    }
    let ghost window = bytes_contents(*b).subrange(start as int, start + prefix@.len());
    let mut i: usize = 0;
    while i < prefix.len()
        invariant
            i <= prefix@.len(),
            start + prefix@.len() <= u32::MAX,
            start + prefix@.len() <= bytes_contents(*b).len(),
            window == bytes_contents(*b).subrange(start as int, start + prefix@.len()),
            forall|j: int| 0 <= j < i ==> window[j] == prefix@[j],
        decreases prefix@.len() - i,
    {
        let v: u8 = bytes_get(b, start + i as u32).unwrap();
        assert(v == window[i as int]);
        if v != prefix[i] {
            return false;
        }
        i += 1;
    }
    assert(window =~= prefix@);
    true
}

/// The `N` bytes of `b` from `start` on.  Positions are `u32`, so the end has to be one too.  No
/// bytes can be read from any position.
pub fn read_fixed<const N: usize>(b: &Bytes, start: u32) -> (out: [u8; N])
    requires
        N > 0 ==> start + N <= bytes_contents(*b).len(),
        start + N <= u32::MAX,
    ensures
        out@ == (if N > 0 {
            bytes_contents(*b).subrange(start as int, start + N)
        } else {
            Seq::empty()
        }),
{
    let mut out: [u8; N] = [0u8; N];
    for i in 0..N
        invariant
            N > 0 ==> start + N <= bytes_contents(*b).len(),
            start + N <= u32::MAX,
            forall|j: int| 0 <= j < i ==> out@[j] == bytes_contents(*b)[start + j],
    {
        out[i] = bytes_get(b, start + i as u32).unwrap();
    }
    out
}

/// The number that at most eight bytes write in big-endian order.
fn be_uint(bytes: &[u8]) -> (v: u64)
    requires
        bytes@.len() <= 8,
    ensures
        v == be_value(bytes@),
{
    let mut v: u64 = 0;
    let mut i: usize = 0;
    while i < bytes.len()
        invariant
            i <= bytes@.len() <= 8,
            v == be_value(bytes@.take(i as int)),
        decreases bytes@.len() - i,
    {
        let ghost longer = bytes@.take(i + 1);
        proof {
            assert(longer.drop_last() =~= bytes@.take(i as int));
            law_be_value_bound(longer);
            lemma_be_count_grows(longer.len(), 8);
            lemma_be_counts();
        }
        v = v * 256 + bytes[i] as u64;
        i += 1;
    }
    assert(bytes@.take(i as int) =~= bytes@);
    v
}

/// The big-endian `u16` at `start`.
pub fn be_u16_at(b: &Bytes, start: u32) -> (v: u16)
    requires
        start + 2 <= bytes_contents(*b).len(),
        start + 2 <= u32::MAX,
    ensures
        v == be_value(bytes_contents(*b).subrange(start as int, start + 2)),
{
    let bytes: [u8; 2] = read_fixed::<2>(b, start);
    proof {
        law_be_value_bound(bytes@);
        lemma_be_counts();
    }
    be_uint(&bytes) as u16
}

/// The big-endian `u32` at `start`.
pub fn be_u32_at(b: &Bytes, start: u32) -> (v: u32)
    requires
        start + 4 <= bytes_contents(*b).len(),
        start + 4 <= u32::MAX,
    ensures
        v == be_value(bytes_contents(*b).subrange(start as int, start + 4)),
{
    let bytes: [u8; 4] = read_fixed::<4>(b, start);
    proof {
        law_be_value_bound(bytes@);
        lemma_be_counts();
    }
    be_uint(&bytes) as u32
}

/// The big-endian `u64` at `start`.
pub fn be_u64_at(b: &Bytes, start: u32) -> (v: u64)
    requires
        start + 8 <= bytes_contents(*b).len(),
        start + 8 <= u32::MAX,
    ensures
        v == be_value(bytes_contents(*b).subrange(start as int, start + 8)),
{
    let bytes: [u8; 8] = read_fixed::<8>(b, start);
    be_uint(&bytes)
}

} // verus!

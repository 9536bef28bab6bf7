//! Integers and fixed-size fields in byte strings.

use vstd::prelude::*;
use vstd::slice::slice_subrange;

verus! {

/// The number that `s` writes with its least significant byte first.
pub open spec fn le_int(s: Seq<u8>) -> int
    decreases s.len(),
{
    if s.len() == 0 {
        0
    } else {
        s[0] + 256 * le_int(s.skip(1))
    }
}

/// The number that `s` writes with its most significant byte first.
pub open spec fn be_int(s: Seq<u8>) -> int
    decreases s.len(),
{
    if s.len() == 0 {
        0
    } else {
        256 * be_int(s.drop_last()) + s.last()
    }
}

/// Unfolds `le_int` by one byte of `s` at position `from`.
proof fn lemma_le_step(s: Seq<u8>, from: int, to: int)
    requires
        0 <= from < to <= s.len(),
    ensures
        le_int(s.subrange(from, to)) == s[from] + 256 * le_int(s.subrange(from + 1, to)),
{
    assert(s.subrange(from, to).skip(1) =~= s.subrange(from + 1, to));
}

/// Reads the four bytes of `s` from `at` on as a little-endian number.
pub(crate) fn read_u32_le(s: &[u8], at: usize) -> (x: u32)
    requires
        at + 4 <= s@.len(),
    ensures
        x == le_int(s@.subrange(at as int, at + 4)),
{
    proof {
        let (a, b) = (at as int, at + 4);
        lemma_le_step(s@, a, b);
        lemma_le_step(s@, a + 1, b);
        lemma_le_step(s@, a + 2, b);
        lemma_le_step(s@, a + 3, b);
    }
    s[at] as u32 + 0x100 * s[at + 1] as u32 + 0x1_0000 * s[at + 2] as u32 + 0x100_0000 * s[at + 3] as u32
}

/// Reads the eight bytes of `s` from `at` on as a little-endian number.
pub(crate) fn read_u64_le(s: &[u8], at: usize) -> (x: u64)
    requires
        at + 8 <= s@.len(),
    ensures
        x == le_int(s@.subrange(at as int, at + 8)),
{
    assert(s.len() == s@.len());
    let low: u64 = read_u32_le(s, at) as u64;
    let high: u64 = read_u32_le(s, at + 4) as u64;
    proof {
        let (a, b, c) = (at as int, at + 4, at + 8);
        lemma_le_step(s@, a, c);
        lemma_le_step(s@, a + 1, c);
        lemma_le_step(s@, a + 2, c);
        lemma_le_step(s@, a + 3, c);
        lemma_le_step(s@, a, b);
        lemma_le_step(s@, a + 1, b);
        lemma_le_step(s@, a + 2, b);
        lemma_le_step(s@, a + 3, b);
    }
    low + 0x1_0000_0000 * high
}

/// Reads the two bytes of `s` from `at` on as a big-endian number.
pub(crate) fn read_u16_be(s: &[u8], at: usize) -> (x: u16)
    requires
        at + 2 <= s@.len(),
    ensures
        x == be_int(s@.subrange(at as int, at + 2)),
{
    proof {
        let field = s@.subrange(at as int, at + 2);
        reveal_with_fuel(be_int, 3);
        assert(field.drop_last().drop_last() =~= Seq::<u8>::empty());
    }
    0x100 * s[at] as u16 + s[at + 1] as u16
}

/// `TryFrom<&[T]>` for `&[T; N]`: a slice of `N` bytes, seen as an array of them.
#[verifier::external_body]
fn slice_as_array<const N: usize>(s: &[u8]) -> (array: &[u8; N])
    requires
        s@.len() == N,
    ensures
        array@ == s@,
{
    <&[u8; N]>::try_from(s).unwrap()
}

/// The `N` bytes of `s` from `at` on.
pub(crate) fn array_at<const N: usize>(s: &[u8], at: usize) -> (array: &[u8; N])
    requires
        at + N <= s@.len(),
    ensures
        array@ == s@.subrange(at as int, at + N),
{
    assert(s.len() == s@.len());
    slice_as_array::<N>(slice_subrange(s, at, at + N))
}

} // verus!

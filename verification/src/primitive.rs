//! Primitive decoders: little-endian integer reads at an explicit offset,
//! fixed-length byte copies, and trailing-NUL trimming, each proved against
//! a spec-level model of the bytes.

use vstd::prelude::*;
use vstd::slice::{slice_subrange, slice_to_vec};

verus! {

/// The two bytes of `s` at `i`, read as a little-endian integer.
pub open spec fn u16_le_at(s: Seq<u8>, i: int) -> u16
    recommends
        0 <= i,
        i + 2 <= s.len(),
{
    (s[i] + 0x100 * s[i + 1]) as u16
}

/// The four bytes of `s` at `i`, read as a little-endian integer.
pub open spec fn u32_le_at(s: Seq<u8>, i: int) -> u32
    recommends
        0 <= i,
        i + 4 <= s.len(),
{
    (u16_le_at(s, i) + 0x1_0000 * u16_le_at(s, i + 2)) as u32
}

/// The eight bytes of `s` at `i`, read as a little-endian integer.
pub open spec fn u64_le_at(s: Seq<u8>, i: int) -> u64
    recommends
        0 <= i,
        i + 8 <= s.len(),
{
    (u32_le_at(s, i) + 0x1_0000_0000 * u32_le_at(s, i + 4)) as u64
}

pub fn read_u16_le(data: &[u8], offset: usize) -> (r: u16)
    requires
        offset + 2 <= data@.len(),
    ensures
        r == u16_le_at(data@, offset as int),
{
    let b0 = data[offset];
    let b1 = data[offset + 1];
    b0 as u16 + b1 as u16 * 0x100
}

pub fn read_u32_le(data: &[u8], offset: usize) -> (r: u32)
    requires
        offset + 4 <= data@.len(),
    ensures
        r == u32_le_at(data@, offset as int),
{
    let b0 = data[offset];
    let b1 = data[offset + 1];
    let b2 = data[offset + 2];
    let b3 = data[offset + 3];
    b0 as u32 + b1 as u32 * 0x100 + b2 as u32 * 0x1_0000 + b3 as u32 * 0x100_0000
}

pub fn read_u64_le(data: &[u8], offset: usize) -> (r: u64)
    requires
        offset + 8 <= data@.len(),
    ensures
        r == u64_le_at(data@, offset as int),
{
    let b0 = data[offset];
    let b1 = data[offset + 1];
    let b2 = data[offset + 2];
    let b3 = data[offset + 3];
    let b4 = data[offset + 4];
    let b5 = data[offset + 5];
    let b6 = data[offset + 6];
    let b7 = data[offset + 7];
    let lo = b0 as u32 + b1 as u32 * 0x100 + b2 as u32 * 0x1_0000 + b3 as u32 * 0x100_0000;
    let hi = b4 as u32 + b5 as u32 * 0x100 + b6 as u32 * 0x1_0000 + b7 as u32 * 0x100_0000;
    lo as u64 + hi as u64 * 0x1_0000_0000
}

/// An opaque copy of the bytes of `data` from `start` (inclusive) to `end`
/// (exclusive); the content is never reinterpreted.
pub fn copy_range(data: &[u8], start: usize, end: usize) -> (r: Vec<u8>)
    requires
        start <= end,
        end <= data@.len(),
    ensures
        r@ == data@.subrange(start as int, end as int),
{
    slice_to_vec(slice_subrange(data, start, end))
}

/// `s` with every trailing zero byte removed.
pub open spec fn trim_nul(s: Seq<u8>) -> Seq<u8>
    decreases s.len(),
{
    if s.len() > 0 && s.last() == 0 {
        trim_nul(s.drop_last())
    } else {
        s
    }
}

/// What trimming means: the result is a prefix of the input, it does not end
/// in a zero byte, and everything dropped was a zero byte.
pub proof fn lemma_trim_nul(s: Seq<u8>)
    ensures
        trim_nul(s).len() <= s.len(),
        trim_nul(s) == s.subrange(0, trim_nul(s).len() as int),
        trim_nul(s).len() > 0 ==> trim_nul(s).last() != 0,
        forall|i: int| trim_nul(s).len() <= i < s.len() ==> s[i] == 0,
    decreases s.len(),
{
    if s.len() > 0 && s.last() == 0 {
        lemma_trim_nul(s.drop_last());
        assert(s.drop_last() =~= s.subrange(0, s.len() - 1));
        assert(trim_nul(s) == s.drop_last().subrange(0, trim_nul(s).len() as int));
        assert(s.drop_last().subrange(0, trim_nul(s).len() as int) =~= s.subrange(
            0,
            trim_nul(s).len() as int,
        ));
        assert forall|i: int| trim_nul(s).len() <= i < s.len() implies s[i] == 0 by {
            if i < s.len() - 1 {
                assert(s.drop_last()[i] == 0);
            }
        };
    } else {
        assert(trim_nul(s) == s);
        assert(s =~= s.subrange(0, s.len() as int));
    }
}

/// The bytes of `data` from `start` to `end` with trailing zero bytes removed.
pub fn trim_nul_range(data: &[u8], start: usize, end: usize) -> (r: Vec<u8>)
    requires
        start <= end,
        end <= data@.len(),
    ensures
        r@ == trim_nul(data@.subrange(start as int, end as int)),
{
    let mut e = end;
    while e > start && data[e - 1] == 0
        invariant
            start <= e <= end,
            end <= data@.len(),
            trim_nul(data@.subrange(start as int, end as int)) == trim_nul(
                data@.subrange(start as int, e as int),
            ),
        decreases e,
    {
        proof {
            let cur = data@.subrange(start as int, e as int);
            assert(cur.last() == 0);
            assert(cur.drop_last() =~= data@.subrange(start as int, e - 1));
        }
        e = e - 1;
    }
    proof {
        let cur = data@.subrange(start as int, e as int);
        assert(trim_nul(cur) == cur);
    }
    copy_range(data, start, e)
}

} // verus!

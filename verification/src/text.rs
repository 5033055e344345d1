//! Text decoding for the format's name and title fields. Both fields are
//! decoded permissively: invalid code units become replacement characters
//! and decoding never fails. The decoded text is named by uninterpreted
//! spec functions; contracts downstream speak of those names exactly.

use vstd::prelude::*;
use crate::primitive::{read_u16_le, u16_le_at};

verus! {

/// The text that lossy UTF-8 decoding assigns to `bytes`.
pub uninterp spec fn utf8_lossy_of(bytes: Seq<u8>) -> Seq<char>;

/// The text that lossy UTF-16 decoding assigns to `units`.
pub uninterp spec fn utf16_lossy_of(units: Seq<u16>) -> Seq<char>;

/// Relies on `String::from_utf8_lossy`: the decoded text is a function of
/// the input bytes alone; invalid sequences become replacement characters
/// and the call never fails.
#[verifier::external_body]
pub(crate) fn utf8_lossy(bytes: &[u8]) -> (r: String)
    ensures
        r@ == utf8_lossy_of(bytes@),
{
    String::from_utf8_lossy(bytes).into_owned()
}

/// Relies on `String::from_utf16_lossy`: the decoded text is a function of
/// the input code units alone; invalid units become replacement characters
/// and the call never fails.
#[verifier::external_body]
pub(crate) fn utf16_lossy(units: &[u16]) -> (r: String)
    ensures
        r@ == utf16_lossy_of(units@),
{
    String::from_utf16_lossy(units)
}

/// The UTF-16 code units held little-endian in `s`, pairwise; a trailing
/// odd byte carries no unit.
pub open spec fn utf16le_units(s: Seq<u8>) -> Seq<u16> {
    Seq::new((s.len() / 2) as nat, |i: int| u16_le_at(s, 2 * i))
}

/// Reads the little-endian UTF-16 code units out of `data`.
pub fn read_utf16le_units(data: &[u8]) -> (r: Vec<u16>)
    ensures
        r@ == utf16le_units(data@),
{
    let n = data.len() / 2;
    let mut units: Vec<u16> = Vec::new();
    let mut i: usize = 0;
    while i < n
        invariant
            n == data@.len() / 2,
            data@.len() <= usize::MAX,
            i <= n,
            units@.len() == i,
            forall|j: int| 0 <= j < i ==> units@[j] == u16_le_at(data@, 2 * j),
        decreases n - i,
    {
        let u = read_u16_le(data, 2 * i);
        units.push(u);
        i = i + 1;
    }
    proof {
        assert(units@ =~= utf16le_units(data@));
    }
    units
}

} // verus!

//! Bit ranges of a 64-bit word.
//!
//! The two executable functions here call the `bitfield` crate; their
//! contracts are believed, not proved. Everything else in the library is
//! proved from them.
use bitfield::BitRange;
use vstd::prelude::*;

verus! {

/// The word whose lowest `msb - lsb + 1` bits are set and whose other bits
/// are clear.
pub open spec fn low_ones(msb: usize, lsb: usize) -> u64 {
    u64::MAX >> ((63 - msb + lsb) as u64)
}

/// The word whose bits `lsb..=msb` are set and whose other bits are clear.
pub open spec fn field_mask(msb: usize, lsb: usize) -> u64 {
    low_ones(msb, lsb) << (lsb as u64)
}

/// The value held in bits `lsb..=msb` of `word`, moved down to bit 0.
pub open spec fn bits_of(word: u64, msb: usize, lsb: usize) -> u64 {
    (word >> (lsb as u64)) & low_ones(msb, lsb)
}

/// `word` with bits `lsb..=msb` replaced by the low bits of `value`; bits of
/// `value` that do not fit the range are dropped.
pub open spec fn with_bits(word: u64, msb: usize, lsb: usize, value: u64) -> u64 {
    (word & !field_mask(msb, lsb)) | ((value << (lsb as u64)) & field_mask(msb, lsb))
}

/// Reads bits `lsb..=msb` of `word`.
///
/// Trusted: calls `<u64 as bitfield::BitRange<u64>>::bit_range`. The contract
/// claims that it shifts the range down to bit 0 and clears everything above
/// it. The outside function computes shift amounts from `63 - msb` and
/// `msb - lsb`, so the range must lie inside the word.
#[verifier::external_body]
pub(crate) fn get_bits(word: u64, msb: usize, lsb: usize) -> (value: u64)
    requires
        lsb <= msb < 64,
    ensures
        value == bits_of(word, msb, lsb),
{
    let value: u64 = word.bit_range(msb, lsb);
    value
}

/// Writes `value` into bits `lsb..=msb` of `word` and returns the new word.
///
/// Trusted: calls `<u64 as bitfield::BitRange<u64>>::set_bit_range`. The
/// contract claims that it clears the range, then ors in `value` shifted up
/// to `lsb` and cut to the range, leaving every other bit as it was.
#[verifier::external_body]
pub(crate) fn set_bits(word: u64, msb: usize, lsb: usize, value: u64) -> (updated: u64)
    requires
        lsb <= msb < 64,
    ensures
        updated == with_bits(word, msb, lsb, value),
{
    let mut updated: u64 = word;
    updated.set_bit_range(msb, lsb, value);
    updated
}

} // verus!

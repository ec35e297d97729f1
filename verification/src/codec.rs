//! Bit-field codecs shared by every register block: the masked
//! read-modify-write update and the 10-bit MSB/LSB composite split.

use vstd::prelude::*;

verus! {

/// The register byte that results from a read-modify-write which sets the
/// field selected by `mask` to `bits` and keeps every other bit of `prev`.
pub open spec fn masked_update(prev: u8, mask: u8, bits: u8) -> u8 {
    (prev & !mask) | (bits & mask)
}

/// A read-modify-write touches nothing but its own field: every bit outside
/// `mask` is carried over from `prev` bit-for-bit, and every bit inside
/// `mask` comes from `bits`.
pub proof fn lemma_masked_update_preserves_other_bits(prev: u8, mask: u8, bits: u8)
    ensures
        masked_update(prev, mask, bits) & !mask == prev & !mask,
        masked_update(prev, mask, bits) & mask == bits & mask,
{
    assert(((prev & !mask) | (bits & mask)) & !mask == prev & !mask) by (bit_vector);
    assert(((prev & !mask) | (bits & mask)) & mask == bits & mask) by (bit_vector);
}

/// A 10-bit value recomposed from its MSB register byte and the two low
/// bits of its LSB register byte: `(msb << 2) | (lsb & 3)`.
pub open spec fn spec_compose10(msb: u8, lsb: u8) -> u16 {
    ((msb as u16) << 2) | ((lsb as u16) & 3)
}

/// The MSB register byte of a 10-bit value: its upper eight bits.
pub open spec fn spec_msb10(value: u16) -> u8 {
    (value >> 2) as u8
}

/// The LSB register byte of a 10-bit value: its lower two bits.
pub open spec fn spec_lsb10(value: u16) -> u8 {
    (value & 3) as u8
}

/// Decode a composite 10-bit value from its two register bytes.
pub fn compose10(msb: u8, lsb: u8) -> (r: u16)
    ensures
        r == spec_compose10(msb, lsb),
        r <= 1023,
{
    proof {
        assert((((msb as u16) << 2) | ((lsb as u16) & 3)) <= 1023) by (bit_vector);
    }
    ((msb as u16) << 2) | ((lsb as u16) & 3)
}

/// Encode a 10-bit value as its MSB and LSB register bytes.
pub fn split10(value: u16) -> (r: (u8, u8))
    requires
        value <= 1023,
    ensures
        r.0 == spec_msb10(value),
        r.1 == spec_lsb10(value),
{
    (((value >> 2) as u8), ((value & 3) as u8))
}

/// The composite codec round-trips: splitting any 10-bit value into MSB and
/// LSB register bytes and recomposing them gives the value back.
pub proof fn lemma_composite_round_trip(value: u16)
    requires
        value <= 1023,
    ensures
        spec_compose10(spec_msb10(value), spec_lsb10(value)) == value,
{
    assert((((((value >> 2) as u8) as u16) << 2) | ((((value & 3) as u8) as u16) & 3))
        == value) by (bit_vector)
        requires
            value <= 1023,
    ;
}

} // verus!

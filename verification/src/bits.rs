//! Bit-level helpers shared by the header parser and the payload decoders.

use bitvec::order::Lsb0;
use bitvec::view::BitView;
use vstd::prelude::*;

verus! {

/// Bit `index` of `byte`, bit 0 being the least significant one.
pub open spec fn spec_bit(byte: u8, index: u8) -> bool {
    (byte >> index) & 1u8 == 1u8
}

/// The 16-bit value whose little-endian bytes are `low`, `high`.
pub open spec fn spec_u16_from_bytes(low: u8, high: u8) -> u16 {
    (low as int + 256 * (high as int)) as u16
}

/// The four low bits of `byte`.
pub open spec fn spec_low_nibble(byte: u8) -> u8 {
    byte % 16
}

/// The four high bits of `byte`, moved down.
pub open spec fn spec_high_nibble(byte: u8) -> u8 {
    byte / 16
}

/// Reads one bit of a byte through `bitvec`: `BitView::view_bits::<Lsb0>` views
/// the byte as a slice of eight bits, and indexing that slice by `usize` reads
/// one of them.
///
/// Trusted: in `Lsb0` order position `index` selects the bit of weight
/// `1 << index`. `bitvec` panics on an index past the slice's end, so the index
/// must be below eight.
#[verifier::external_body]
pub(crate) fn lsb0_bit(byte: u8, index: usize) -> (bit: bool)
    requires
        index < 8,
    ensures
        bit == spec_bit(byte, index as u8),
{
    byte.view_bits::<Lsb0>()[index]
}

/// Joins two bytes, least significant first, into a 16-bit value.
pub fn u16_from_bytes(low: u8, high: u8) -> (value: u16)
    ensures
        value == spec_u16_from_bytes(low, high),
        value == low + 256 * high,
{
    let value: u16 = ((high as u16) << 8) | (low as u16);
    assert(((high as u16) << 8) | (low as u16) == (low as u16) + 256 * (high as u16))
        by (bit_vector);
    value
}

/// The four low bits of `byte`.
pub fn low_nibble(byte: u8) -> (nibble: u8)
    ensures
        nibble == spec_low_nibble(byte),
        nibble <= 15,
{
    let nibble: u8 = byte & 0b1111;
    assert(byte & 0b1111 == byte % 16) by (bit_vector);
    nibble
}

/// The four high bits of `byte`, moved down.
pub fn high_nibble(byte: u8) -> (nibble: u8)
    ensures
        nibble == spec_high_nibble(byte),
        nibble <= 15,
{
    let nibble: u8 = byte >> 4;
    assert(byte >> 4 == byte / 16) by (bit_vector);
    nibble
}

} // verus!

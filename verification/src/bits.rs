//! Arithmetic on bit fields: how a field's mask follows from its place, how
//! a value is put into a field, and what a read-modify-write leaves alone.
use vstd::prelude::*;

verus! {

/// The mask of a field `width` bits wide whose lowest bit is bit `pos`.
pub open spec fn field_mask(pos: u64, width: u64) -> u64 {
    (((1u64 << width) - 1) as u64) << pos
}

/// `seen` with the field under `mask` replaced by `value`: the field's bits
/// are cleared, then `value` is shifted to `pos` and cut to the mask.
pub open spec fn insert8(seen: u8, mask: u8, pos: u8, value: u8) -> u8 {
    (seen & !mask) | ((value << pos) & mask)
}

/// `seen` with the field under `mask` replaced by `value`: the field's bits
/// are cleared, then `value` is shifted to `pos` and cut to the mask.
pub open spec fn insert16(seen: u16, mask: u16, pos: u16, value: u16) -> u16 {
    (seen & !mask) | ((value << pos) & mask)
}

/// `seen` with the field under `mask` replaced by `value`: the field's bits
/// are cleared, then `value` is shifted to `pos` and cut to the mask.
pub open spec fn insert32(seen: u32, mask: u32, pos: u32, value: u32) -> u32 {
    (seen & !mask) | ((value << pos) & mask)
}

/// A read-modify-write on one field leaves every other field as it was:
/// where `mask` and `other` share no bit, turning the bits of `mask` on or
/// off, or putting a value into the field under `mask`, changes nothing
/// under `other`.
pub proof fn lemma_other_bits_kept8(seen: u8, mask: u8, other: u8, pos: u8, value: u8)
    by (bit_vector)
    requires
        mask & other == 0,
    ensures
        (seen | mask) & other == seen & other,
        (seen & !mask) & other == seen & other,
        insert8(seen, mask, pos, value) & other == seen & other,
{
}

/// What a read-modify-write does to its own field: turning the bits of
/// `mask` on leaves them all on, turning them off leaves them all off, and
/// putting a value into the field leaves there the value, shifted to `pos`
/// and cut to the mask.
pub proof fn lemma_own_bits_set8(seen: u8, mask: u8, pos: u8, value: u8)
    by (bit_vector)
    ensures
        (seen | mask) & mask == mask,
        (seen & !mask) & mask == 0,
        insert8(seen, mask, pos, value) & mask == (value << pos) & mask,
{
}

/// A read-modify-write on one field leaves every other field as it was:
/// where `mask` and `other` share no bit, turning the bits of `mask` on or
/// off, or putting a value into the field under `mask`, changes nothing
/// under `other`.
pub proof fn lemma_other_bits_kept16(seen: u16, mask: u16, other: u16, pos: u16, value: u16)
    by (bit_vector)
    requires
        mask & other == 0,
    ensures
        (seen | mask) & other == seen & other,
        (seen & !mask) & other == seen & other,
        insert16(seen, mask, pos, value) & other == seen & other,
{
}

/// What a read-modify-write does to its own field: turning the bits of
/// `mask` on leaves them all on, turning them off leaves them all off, and
/// putting a value into the field leaves there the value, shifted to `pos`
/// and cut to the mask.
pub proof fn lemma_own_bits_set16(seen: u16, mask: u16, pos: u16, value: u16)
    by (bit_vector)
    ensures
        (seen | mask) & mask == mask,
        (seen & !mask) & mask == 0,
        insert16(seen, mask, pos, value) & mask == (value << pos) & mask,
{
}

/// A read-modify-write on one field leaves every other field as it was:
/// where `mask` and `other` share no bit, turning the bits of `mask` on or
/// off, or putting a value into the field under `mask`, changes nothing
/// under `other`.
pub proof fn lemma_other_bits_kept32(seen: u32, mask: u32, other: u32, pos: u32, value: u32)
    by (bit_vector)
    requires
        mask & other == 0,
    ensures
        (seen | mask) & other == seen & other,
        (seen & !mask) & other == seen & other,
        insert32(seen, mask, pos, value) & other == seen & other,
{
}

/// What a read-modify-write does to its own field: turning the bits of
/// `mask` on leaves them all on, turning them off leaves them all off, and
/// putting a value into the field leaves there the value, shifted to `pos`
/// and cut to the mask.
pub proof fn lemma_own_bits_set32(seen: u32, mask: u32, pos: u32, value: u32)
    by (bit_vector)
    ensures
        (seen | mask) & mask == mask,
        (seen & !mask) & mask == 0,
        insert32(seen, mask, pos, value) & mask == (value << pos) & mask,
{
}

/// What is read out of a field is less than two to the power of the
/// field's width: for a field of `width` bits at `pos` within 32 bits, the
/// value under the field's mask, shifted down, fits in `width` bits.
pub proof fn lemma_field_in_range(seen: u32, pos: u32, width: u32)
    by (bit_vector)
    requires
        0 < width,
        pos + width <= 32,
    ensures
        ((seen as u64 & field_mask(pos as u64, width as u64)) >> (pos as u64)) < (1u64 << (
        width as u64)),
{
}

} // verus!

//! Bit-level access to bytes and words.
//!
//! The executable functions here call the `bitfield` and `tock-registers`
//! crates. Their contracts are taken on trust from the crates' sources; the
//! rest of the library reasons only through the spec functions of this file.

use vstd::prelude::*;

verus! {

/// Whether bit `i` of the byte `v` is set.
pub open spec fn bit8(v: u8, i: u8) -> bool {
    (v >> i) & 1u8 == 1u8
}

/// The byte `v` with bit `i` replaced by `b`.
pub open spec fn with_bit8(v: u8, i: u8, b: bool) -> u8 {
    if b {
        v | (1u8 << i)
    } else {
        v & !(1u8 << i)
    }
}

/// Whether bit `i` of the word `v` is set.
pub open spec fn bit16(v: u16, i: u16) -> bool {
    (v >> i) & 1u16 == 1u16
}

/// The word `v` with bit `i` replaced by `b`.
pub open spec fn with_bit16(v: u16, i: u16, b: bool) -> u16 {
    if b {
        v | (1u16 << i)
    } else {
        v & !(1u16 << i)
    }
}

/// The `width` bits of the byte `v` that start at bit `lsb`, right-aligned.
pub open spec fn bits8(v: u8, lsb: u8, width: u8) -> u8 {
    (v >> lsb) & (((1u16 << width) - 1) as u8)
}

/// The `width` bits of the word `v` that start at bit `lsb`, right-aligned.
pub open spec fn bits16(v: u16, lsb: u16, width: u16) -> u8 {
    ((v >> lsb) & (((1u32 << width) - 1) as u16)) as u8
}

/// The word `v` with the `width` bits that start at bit `lsb` replaced by the
/// low `width` bits of `value`.
pub open spec fn with_bits16(v: u16, lsb: u16, width: u16, value: u8) -> u16 {
    let mask: u16 = (((1u32 << width) - 1) as u16) << lsb;
    (v & !mask) | (((value as u16) << lsb) & mask)
}

/// The value of a register field: the bits of `value` under `mask << shift`,
/// right-aligned.
pub open spec fn field_value(value: u8, mask: u8, shift: u8) -> u8 {
    (value & (mask << shift)) >> shift
}

/// The register `value` with the field under `mask << shift` replaced by
/// `field`.
pub open spec fn with_field(value: u8, mask: u8, shift: u8, field: u8) -> u8 {
    (value & !(mask << shift)) | ((field & mask) << shift)
}

/// Calls `bitfield::Bit::bit` on a `u8`. Trusted: the result is bit `i` of `v`.
/// The index is kept under 8, where the crate's shifts are in range.
#[verifier::external_body]
pub(crate) fn get_bit8(v: u8, i: u8) -> (r: bool)
    requires
        i < 8,
    ensures
        r == bit8(v, i),
{
    bitfield::Bit::bit(&v, i as usize)
}

/// Calls `bitfield::BitMut::set_bit` on a `u8`. Trusted: bit `i` becomes `b`
/// and every other bit stays.
#[verifier::external_body]
pub(crate) fn set_bit8(v: &mut u8, i: u8, b: bool)
    requires
        i < 8,
    ensures
        *final(v) == with_bit8(*old(v), i, b),
{
    bitfield::BitMut::set_bit(v, i as usize, b)
}

/// Calls `bitfield::Bit::bit` on a `u16`. Trusted: the result is bit `i` of
/// `v`.
#[verifier::external_body]
pub(crate) fn get_bit16(v: u16, i: u16) -> (r: bool)
    requires
        i < 16,
    ensures
        r == bit16(v, i),
{
    bitfield::Bit::bit(&v, i as usize)
}

/// Calls `bitfield::BitMut::set_bit` on a `u16`. Trusted: bit `i` becomes `b`
/// and every other bit stays.
#[verifier::external_body]
pub(crate) fn set_bit16(v: &mut u16, i: u16, b: bool)
    requires
        i < 16,
    ensures
        *final(v) == with_bit16(*old(v), i, b),
{
    bitfield::BitMut::set_bit(v, i as usize, b)
}

/// Calls `bitfield::BitRange::<u8>::bit_range` on a `u8`. Trusted: the result
/// holds bits `lsb..=msb` of `v`, right-aligned.
#[verifier::external_body]
pub(crate) fn get_bits8(v: u8, msb: u8, lsb: u8) -> (r: u8)
    requires
        lsb <= msb < 8,
    ensures
        r == bits8(v, lsb, (msb - lsb + 1) as u8),
{
    bitfield::BitRange::<u8>::bit_range(&v, msb as usize, lsb as usize)
}

/// Calls `bitfield::BitRange::<u8>::bit_range` on a `u16`. Trusted: the
/// result holds bits `lsb..=msb` of `v`, right-aligned; at most eight bits
/// are asked for, so that they fit the result.
#[verifier::external_body]
pub(crate) fn get_bits16(v: u16, msb: u16, lsb: u16) -> (r: u8)
    requires
        lsb <= msb < 16,
        msb - lsb < 8,
    ensures
        r == bits16(v, lsb, (msb - lsb + 1) as u16),
{
    bitfield::BitRange::<u8>::bit_range(&v, msb as usize, lsb as usize)
}

/// Calls `bitfield::BitRangeMut::<u8>::set_bit_range` on a `u16`. Trusted:
/// bits `lsb..=msb` take the low bits of `value` and every other bit stays.
#[verifier::external_body]
pub(crate) fn set_bits16(v: &mut u16, msb: u16, lsb: u16, value: u8)
    requires
        lsb <= msb < 16,
    ensures
        *final(v) == with_bits16(*old(v), lsb, (msb - lsb + 1) as u16, value),
{
    bitfield::BitRangeMut::<u8>::set_bit_range(v, msb as usize, lsb as usize, value)
}

/// Calls `tock_registers::fields::Field::read`. Trusted: the result is the
/// field of `value` that lies under `mask << shift`, shifted down.
#[verifier::external_body]
pub(crate) fn read_field(value: u8, mask: u8, shift: u8) -> (r: u8)
    requires
        shift < 8,
    ensures
        r == field_value(value, mask, shift),
{
    tock_registers::fields::Field::<u8, ()>::new(mask, shift as usize).read(value)
}

/// Calls `tock_registers::fields::Field::is_set`. Trusted: the result says
/// whether any bit of `value` under `mask << shift` is set.
#[verifier::external_body]
pub(crate) fn field_is_set(value: u8, mask: u8, shift: u8) -> (r: bool)
    requires
        shift < 8,
    ensures
        r == (value & (mask << shift) != 0),
{
    tock_registers::fields::Field::<u8, ()>::new(mask, shift as usize).is_set(value)
}

/// Calls `tock_registers::fields::FieldValue::modify`. Trusted: the field of
/// `value` under `mask << shift` is replaced by `field & mask`.
#[verifier::external_body]
pub(crate) fn modify_field(value: u8, mask: u8, shift: u8, field: u8) -> (r: u8)
    requires
        shift < 8,
    ensures
        r == with_field(value, mask, shift, field),
{
    tock_registers::fields::FieldValue::<u8, ()>::new(mask, shift as usize, field).modify(value)
}

/// The field of the upper four bits is the byte divided by 16.
pub proof fn lemma_high_nybble(v: u8)
    ensures
        field_value(v, 0xF, 4) == v / 16,
{
    assert((v & (0xFu8 << 4u8)) >> 4u8 == v / 16) by (bit_vector);
}

/// A field of one bit at `shift` is set exactly where that bit of the
/// register is.
pub proof fn lemma_field_is_bit(v: u8, shift: u8)
    requires
        shift < 8,
    ensures
        (v & (1u8 << shift) != 0) == bit8(v, shift),
{
    assert((v & (1u8 << shift) != 0) == ((v >> shift) & 1u8 == 1u8)) by (bit_vector)
        requires
            shift < 8,
    ;
}

/// Replacing the upper or the lower byte of a word, in arithmetic.
pub proof fn lemma_with_byte(v: u16, value: u8)
    ensures
        with_bits16(v, 8, 8, value) == value * 256 + v % 256,
        with_bits16(v, 0, 8, value) == (v / 256) * 256 + value,
{
    assert(((v & !((((1u32 << 8u16) - 1) as u16) << 8u16)) | (((value as u16) << 8u16) & ((((1u32
        << 8u16) - 1) as u16) << 8u16))) == (value as u16) * 256 + v % 256) by (bit_vector);
    assert(((v & !((((1u32 << 8u16) - 1) as u16) << 0u16)) | (((value as u16) << 0u16) & ((((1u32
        << 8u16) - 1) as u16) << 0u16))) == (v / 256) * 256 + (value as u16)) by (bit_vector);
}

/// Writing a one-bit field is setting or clearing that bit.
pub proof fn lemma_field_write_is_bit(v: u8, shift: u8)
    requires
        shift < 8,
    ensures
        with_field(v, 1, shift, 1) == with_bit8(v, shift, true),
        with_field(v, 1, shift, 0) == with_bit8(v, shift, false),
{
    assert(((v & !(1u8 << shift)) | ((1u8 & 1u8) << shift)) == (v | (1u8 << shift)))
        by (bit_vector)
        requires
            shift < 8,
    ;
    assert(((v & !(1u8 << shift)) | ((0u8 & 1u8) << shift)) == (v & !(1u8 << shift)))
        by (bit_vector)
        requires
            shift < 8,
    ;
}

/// A bit that was written reads back, and the other bits stay.
pub proof fn lemma_bit_written(v: u8, i: u8, b: bool, j: u8)
    requires
        i < 8,
        j < 8,
    ensures
        bit8(with_bit8(v, i, b), i) == b,
        j != i ==> bit8(with_bit8(v, i, b), j) == bit8(v, j),
{
    assert(((v | (1u8 << i)) >> i) & 1u8 == 1u8) by (bit_vector)
        requires
            i < 8,
    ;
    assert(((v & !(1u8 << i)) >> i) & 1u8 == 0u8) by (bit_vector)
        requires
            i < 8,
    ;
    assert(j != i ==> ((v | (1u8 << i)) >> j) & 1u8 == (v >> j) & 1u8) by (bit_vector)
        requires
            i < 8,
            j < 8,
    ;
    assert(j != i ==> ((v & !(1u8 << i)) >> j) & 1u8 == (v >> j) & 1u8) by (bit_vector)
        requires
            i < 8,
            j < 8,
    ;
}

} // verus!

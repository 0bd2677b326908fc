//! Bit fields of a register byte.
//!
//! A field is a span of contiguous bits, named by its most and least
//! significant bit positions (`msb` and `lsb`, both inclusive, bit 0 being the
//! least significant). The specification functions here say what reading and
//! writing a field mean; the executable functions hand the work to the
//! `bitfield` crate; the lemmas state what holds of any field of any byte.

use bitfield::{Bit, BitRange};
use vstd::prelude::*;

verus! {

/// The byte whose set bits are exactly the bits `lsb..=msb`.
pub open spec fn span_mask(msb: usize, lsb: usize) -> u8 {
    !(0xfeu8 << msb) & (0xffu8 << lsb)
}

/// The largest value that the field `lsb..=msb` can hold.
pub open spec fn field_max(msb: usize, lsb: usize) -> u8 {
    span_mask(msb, lsb) >> lsb
}

/// The bits `lsb..=msb` of `byte`, moved down so that bit `lsb` becomes bit 0.
pub open spec fn field(byte: u8, msb: usize, lsb: usize) -> u8 {
    (byte & span_mask(msb, lsb)) >> lsb
}

/// `byte` with the bits `lsb..=msb` replaced by the low bits of `value`.
/// Bits of `value` that do not fit in the field are dropped; bits of `byte`
/// outside the field stay as they are.
pub open spec fn with_field(byte: u8, msb: usize, lsb: usize, value: u8) -> u8 {
    (byte & !span_mask(msb, lsb)) | ((value << lsb) & span_mask(msb, lsb))
}

/// Whether bit `bit` of `byte` is set.
pub open spec fn flag(byte: u8, bit: usize) -> bool {
    field(byte, bit, bit) != 0
}

/// `byte` with bit `bit` set if `value` holds and cleared if not.
pub open spec fn with_flag(byte: u8, bit: usize, value: bool) -> u8 {
    with_field(byte, bit, bit, if value { 1u8 } else { 0u8 })
}

/// Whether the spans `a_lsb..=a_msb` and `b_lsb..=b_msb` share no bit.
pub open spec fn disjoint(a_msb: usize, a_lsb: usize, b_msb: usize, b_lsb: usize) -> bool {
    a_msb < b_lsb || b_msb < a_lsb
}

/// Calls `bitfield::BitRange::<u8>::bit_range` on a `u8`. Trusted: for a span
/// inside the byte the crate shifts the bits above `msb` out to the left and
/// then the bits below `lsb` out to the right, which leaves `field`.
#[verifier::external_body]
pub(crate) fn bit_range(byte: &u8, msb: usize, lsb: usize) -> (r: u8)
    requires
        lsb <= msb < 8,
    ensures
        r == field(*byte, msb, lsb),
{
    byte.bit_range(msb, lsb)
}

/// Calls `bitfield::BitRange::<u8>::set_bit_range` on a `u8`. Trusted: for a
/// span inside the byte the crate clears the span, shifts `value` up by `lsb`,
/// masks it to the span and ors it in, which is `with_field`.
#[verifier::external_body]
pub(crate) fn set_bit_range(byte: &mut u8, msb: usize, lsb: usize, value: u8)
    requires
        lsb <= msb < 8,
    ensures
        *final(byte) == with_field(*old(byte), msb, lsb, value),
{
    byte.set_bit_range(msb, lsb, value)
}

/// Calls `bitfield::Bit::bit` on a `u8`. Trusted: the crate reads the
/// one-bit span at `position` and tests it against zero.
#[verifier::external_body]
pub(crate) fn bit(byte: &u8, position: usize) -> (r: bool)
    requires
        position < 8,
    ensures
        r == flag(*byte, position),
{
    byte.bit(position)
}

/// Calls `bitfield::Bit::set_bit` on a `u8`. Trusted: the crate writes 1 or 0,
/// for `true` or `false`, to the one-bit span at `position`.
#[verifier::external_body]
pub(crate) fn set_bit(byte: &mut u8, position: usize, value: bool)
    requires
        position < 8,
    ensures
        *final(byte) == with_flag(*old(byte), position, value),
{
    byte.set_bit(position, value)
}

/// The same values by shifts alone, which is how the `bitfield` crate
/// computes them: a field by shifting the bits above it out to the left and
/// the bits below it out to the right, a mask by doing so to a byte of ones
/// and shifting back up.
pub proof fn lemma_shift_forms(byte: u8, msb: usize, lsb: usize)
    requires
        lsb <= msb < 8,
    ensures
        field(byte, msb, lsb) == (byte << ((7 - msb) as usize)) >> ((7 - msb + lsb) as usize),
        span_mask(msb, lsb) == ((0xffu8 << ((7 - msb) as usize)) >> ((7 - msb + lsb) as usize))
            << lsb,
{
    let up: usize = (7 - msb) as usize;
    let down: usize = (7 - msb + lsb) as usize;
    assert(field(byte, msb, lsb) == (byte << up) >> down && span_mask(msb, lsb) == ((0xffu8 << up)
        >> down) << lsb) by (bit_vector)
        requires
            lsb <= msb < 8,
            up == 7 - msb,
            down == 7 - msb + lsb,
    ;
}

/// A field never holds more than `field_max`, and `field_max` of a span of
/// `n` bits is `2^n - 1`.
pub proof fn lemma_field_bounded(byte: u8, msb: usize, lsb: usize)
    requires
        lsb <= msb < 8,
    ensures
        field(byte, msb, lsb) <= field_max(msb, lsb),
        field_max(msb, lsb) == (0xffu8 >> (7 - (msb - lsb)) as usize),
{
    assert(field(byte, msb, lsb) <= field_max(msb, lsb)) by (bit_vector)
        requires
            lsb <= msb < 8,
    ;
    let width_less_one: usize = (msb - lsb) as usize;
    let shift: usize = (7 - width_less_one) as usize;
    assert(field_max(msb, lsb) == (0xffu8 >> shift)) by (bit_vector)
        requires
            lsb <= msb < 8,
            width_less_one == msb - lsb,
            shift == 7 - width_less_one,
    ;
}

/// Round trip: a value that fits in a field is read back as it was written,
/// whatever the byte held before.
pub proof fn lemma_field_round_trip(byte: u8, msb: usize, lsb: usize, value: u8)
    requires
        lsb <= msb < 8,
        value <= field_max(msb, lsb),
    ensures
        field(with_field(byte, msb, lsb, value), msb, lsb) == value,
{
    assert(field(with_field(byte, msb, lsb, value), msb, lsb) == value) by (bit_vector)
        requires
            lsb <= msb < 8,
            value <= field_max(msb, lsb),
    ;
}

/// Round trip for a value of any size: what is read back is the part of the
/// value that the field has room for.
pub proof fn lemma_field_truncates(byte: u8, msb: usize, lsb: usize, value: u8)
    requires
        lsb <= msb < 8,
    ensures
        field(with_field(byte, msb, lsb, value), msb, lsb) == value & field_max(msb, lsb),
{
    assert(field(with_field(byte, msb, lsb, value), msb, lsb) == value & field_max(msb, lsb))
        by (bit_vector)
        requires
            lsb <= msb < 8,
    ;
}

/// Round trip for a flag: a bit reads back as it was written.
pub proof fn lemma_flag_round_trip(byte: u8, bit: usize, value: bool)
    requires
        bit < 8,
    ensures
        flag(with_flag(byte, bit, value), bit) == value,
{
    assert(flag(with_flag(byte, bit, value), bit) == value) by (bit_vector)
        requires
            bit < 8,
    ;
}

/// Independence: writing one field leaves every bit outside it, and so every
/// field that shares no bit with it, as it was.
pub proof fn lemma_field_independent(
    byte: u8,
    msb: usize,
    lsb: usize,
    value: u8,
    other_msb: usize,
    other_lsb: usize,
)
    requires
        lsb <= msb < 8,
        other_lsb <= other_msb < 8,
        disjoint(msb, lsb, other_msb, other_lsb),
    ensures
        with_field(byte, msb, lsb, value) & !span_mask(msb, lsb) == byte & !span_mask(msb, lsb),
        field(with_field(byte, msb, lsb, value), other_msb, other_lsb) == field(
            byte,
            other_msb,
            other_lsb,
        ),
{
    assert(with_field(byte, msb, lsb, value) & !span_mask(msb, lsb) == byte & !span_mask(msb, lsb))
        by (bit_vector);
    assert(field(with_field(byte, msb, lsb, value), other_msb, other_lsb) == field(
        byte,
        other_msb,
        other_lsb,
    )) by (bit_vector)
        requires
            lsb <= msb < 8,
            other_lsb <= other_msb < 8,
            disjoint(msb, lsb, other_msb, other_lsb),
    ;
}

/// Idempotence: writing the same value to the same field a second time
/// changes nothing.
pub proof fn lemma_with_field_idempotent(byte: u8, msb: usize, lsb: usize, value: u8)
    ensures
        with_field(with_field(byte, msb, lsb, value), msb, lsb, value) == with_field(
            byte,
            msb,
            lsb,
            value,
        ),
{
    assert(with_field(with_field(byte, msb, lsb, value), msb, lsb, value) == with_field(
        byte,
        msb,
        lsb,
        value,
    )) by (bit_vector);
}

/// The last write to a field wins: an earlier write to the same field leaves
/// no trace.
pub proof fn lemma_with_field_overwrites(byte: u8, msb: usize, lsb: usize, first: u8, second: u8)
    ensures
        with_field(with_field(byte, msb, lsb, first), msb, lsb, second) == with_field(
            byte,
            msb,
            lsb,
            second,
        ),
{
    assert(with_field(with_field(byte, msb, lsb, first), msb, lsb, second) == with_field(
        byte,
        msb,
        lsb,
        second,
    )) by (bit_vector);
}

/// Writes to fields that share no bit can be made in either order.
pub proof fn lemma_with_field_commutes(
    byte: u8,
    msb: usize,
    lsb: usize,
    value: u8,
    other_msb: usize,
    other_lsb: usize,
    other_value: u8,
)
    requires
        lsb <= msb < 8,
        other_lsb <= other_msb < 8,
        disjoint(msb, lsb, other_msb, other_lsb),
    ensures
        with_field(with_field(byte, msb, lsb, value), other_msb, other_lsb, other_value)
            == with_field(with_field(byte, other_msb, other_lsb, other_value), msb, lsb, value),
{
    assert(with_field(with_field(byte, msb, lsb, value), other_msb, other_lsb, other_value)
        == with_field(with_field(byte, other_msb, other_lsb, other_value), msb, lsb, value))
        by (bit_vector)
        requires
            lsb <= msb < 8,
            other_lsb <= other_msb < 8,
            disjoint(msb, lsb, other_msb, other_lsb),
    ;
}

} // verus!

//! Bit groups inside one register byte.
//!
//! A register byte is cut into fields: runs of adjacent bits, each named by
//! the position of its lowest bit (`offset`, bit 0 being the least
//! significant) and its length (`width`). The functions here read and replace
//! one field and leave every other bit alone.

use vstd::prelude::*;

verus! {

/// The byte whose `width` lowest bits are set and whose other bits are clear.
pub open spec fn low_mask(width: u8) -> u8 {
    if width >= 8 {
        0xff
    } else {
        ((1u8 << width) - 1) as u8
    }
}

/// The code held by the field of `byte` that starts at bit `offset` and is
/// `width` bits long.
pub open spec fn field(byte: u8, offset: u8, width: u8) -> u8 {
    (byte >> offset) & low_mask(width)
}

/// `byte` with the field at `offset` replaced by the `width` lowest bits of
/// `code`.
pub open spec fn with_field(byte: u8, offset: u8, width: u8, code: u8) -> u8 {
    (byte & !(low_mask(width) << offset)) | ((code & low_mask(width)) << offset)
}

/// Whether bit `index` of `byte` is set.
pub open spec fn bit(byte: u8, index: u8) -> bool {
    field(byte, index, 1) == 1
}

/// The code of a one-bit field: 1 for `true` and 0 for `false`.
pub open spec fn bit_code(value: bool) -> u8 {
    if value {
        1
    } else {
        0
    }
}

/// `byte` with bit `index` set or cleared according to `value`.
pub open spec fn with_bit(byte: u8, index: u8, value: bool) -> u8 {
    with_field(byte, index, 1, bit_code(value))
}

/// How many codes a field of `width` bits can hold: two to the power of
/// `width`, and 256 for the whole byte.
pub open spec fn code_count(width: u8) -> int {
    if width == 0 {
        1
    } else if width == 1 {
        2
    } else if width == 2 {
        4
    } else if width == 3 {
        8
    } else if width == 4 {
        16
    } else if width == 5 {
        32
    } else if width == 6 {
        64
    } else if width == 7 {
        128
    } else {
        256
    }
}

/// Whether the fields `(offset_a, width_a)` and `(offset_b, width_b)` share
/// no bit.
pub open spec fn disjoint(offset_a: u8, width_a: u8, offset_b: u8, width_b: u8) -> bool {
    offset_a + width_a <= offset_b || offset_b + width_b <= offset_a
}

/// Whether `after` differs from `before` in the field at `offset` only: every
/// field that shares no bit with it holds in `after` what it holds in
/// `before`.
pub open spec fn unchanged_outside(before: u8, after: u8, offset: u8, width: u8) -> bool {
    forall|other_offset: u8, other_width: u8|
        disjoint(offset, width, other_offset, other_width) ==> #[trigger] field(
            after,
            other_offset,
            other_width,
        ) == field(before, other_offset, other_width)
}

/// A field's code fits in the field's width.
pub proof fn lemma_field_bound(byte: u8, offset: u8, width: u8)
    by (bit_vector)
    ensures
        field(byte, offset, width) < code_count(width),
{
}

/// Reading a field that was just written gives back the code written.
pub proof fn lemma_field_of_with_field(byte: u8, offset: u8, width: u8, code: u8)
    by (bit_vector)
    requires
        offset + width <= 8,
        code < code_count(width),
    ensures
        field(with_field(byte, offset, width, code), offset, width) == code,
{
}

/// Writing one field leaves every field that shares no bit with it as it was.
pub proof fn lemma_with_field_keeps_other(
    byte: u8,
    offset: u8,
    width: u8,
    code: u8,
    other_offset: u8,
    other_width: u8,
)
    by (bit_vector)
    requires
        disjoint(offset, width, other_offset, other_width),
    ensures
        field(with_field(byte, offset, width, code), other_offset, other_width) == field(
            byte,
            other_offset,
            other_width,
        ),
{
}

/// Writing a field changes nothing outside it.
pub proof fn lemma_with_field_unchanged_outside(byte: u8, offset: u8, width: u8, code: u8)
    ensures
        unchanged_outside(byte, with_field(byte, offset, width, code), offset, width),
{
    assert forall|other_offset: u8, other_width: u8|
        disjoint(offset, width, other_offset, other_width) implies #[trigger] field(
        with_field(byte, offset, width, code),
        other_offset,
        other_width,
    ) == field(byte, other_offset, other_width) by {
        lemma_with_field_keeps_other(byte, offset, width, code, other_offset, other_width);
    }
}

/// The byte whose `width` lowest bits are set.
fn mask_of(width: u8) -> (mask: u8)
    ensures
        mask == low_mask(width),
{
    if width >= 8 {
        0xff
    } else {
        assert(width < 8 ==> (1u8 << width) >= 1) by (bit_vector);
        (1u8 << width) - 1
    }
}

/// Reads the field of `byte` that starts at bit `offset` and is `width` bits
/// long. Bits beyond bit 7 read as clear.
pub fn get_field(byte: u8, offset: u8, width: u8) -> (code: u8)
    ensures
        code == field(byte, offset, width),
        code < code_count(width),
{
    proof {
        lemma_field_bound(byte, offset, width);
    }
    if offset >= 8 || width == 0 {
        assert(offset >= 8 || width == 0 ==> field(byte, offset, width) == 0) by (bit_vector);
        0
    } else {
        (byte >> offset) & mask_of(width)
    }
}

/// Replaces the field of `byte` that starts at bit `offset` and is `width`
/// bits long by the `width` lowest bits of `code`. What lies beyond bit 7 is
/// dropped.
pub fn set_field(byte: u8, offset: u8, width: u8, code: u8) -> (updated: u8)
    ensures
        updated == with_field(byte, offset, width, code),
        offset + width <= 8 && code < code_count(width) ==> field(updated, offset, width) == code,
        unchanged_outside(byte, updated, offset, width),
{
    proof {
        if offset + width <= 8 && code < code_count(width) {
            lemma_field_of_with_field(byte, offset, width, code);
        }
        lemma_with_field_unchanged_outside(byte, offset, width, code);
    }
    if offset >= 8 || width == 0 {
        assert(offset >= 8 || width == 0 ==> with_field(byte, offset, width, code) == byte)
            by (bit_vector);
        byte
    } else {
        let mask = mask_of(width);
        (byte & !(mask << offset)) | ((code & mask) << offset)
    }
}

/// Reads bit `index` of `byte`. There is no set bit beyond bit 7.
pub fn get_bit(byte: u8, index: u8) -> (value: bool)
    ensures
        value == bit(byte, index),
{
    get_field(byte, index, 1) == 1
}

/// Sets or clears bit `index` of `byte`. Beyond bit 7 there is nothing to
/// change.
pub fn set_bit(byte: u8, index: u8, value: bool) -> (updated: u8)
    ensures
        updated == with_bit(byte, index, value),
        index < 8 ==> bit(updated, index) == value,
        unchanged_outside(byte, updated, index, 1),
{
    set_field(byte, index, 1, if value { 1 } else { 0 })
}

} // verus!

//! Bit fields of register values.
//!
//! A register holds a word; a field is the run of `width` bits that starts at bit
//! `offset`. Every field accessor of the peripheral modules is specified with the
//! functions of this module, and the laws below say what a read gives back of a
//! write and what a write leaves alone.
use vstd::prelude::*;

verus! {

/// The mask whose `width` low bits are set.
pub open spec fn low_mask(width: u32) -> u32 {
    !(0xffff_ffffu32 << width)
}

/// A field of `width` bits at bit `offset` lies inside a 32-bit word.
pub open spec fn field_fits(offset: u32, width: u32) -> bool {
    0 < width && width < 32 && offset + width <= 32
}

/// The value of the field of `width` bits that starts at bit `offset` of `bits`.
pub open spec fn field_u32(bits: u32, offset: u32, width: u32) -> u32 {
    (bits >> offset) & low_mask(width)
}

/// Bit `offset` of `bits` is set.
pub open spec fn bit_u32(bits: u32, offset: u32) -> bool {
    (bits >> offset) & 1u32 == 1u32
}

/// `bits` with the field of `width` bits at `offset` replaced by the low `width`
/// bits of `value`; the other bits are those of `bits`.
pub open spec fn with_field_u32(bits: u32, offset: u32, width: u32, value: u32) -> u32 {
    (bits & !(low_mask(width) << offset)) | ((value & low_mask(width)) << offset)
}

/// `bits` with bit `offset` set when `value` holds and cleared otherwise.
pub open spec fn with_bit_u32(bits: u32, offset: u32, value: bool) -> u32 {
    if value {
        bits | (1u32 << offset)
    } else {
        bits & !(1u32 << offset)
    }
}

/// Two fields have no bit in common.
pub open spec fn disjoint(o1: u32, w1: u32, o2: u32, w2: u32) -> bool {
    o1 + w1 <= o2 || o2 + w2 <= o1
}

/// The field of a 16-bit register value.
pub open spec fn field_u16(bits: u16, offset: u32, width: u32) -> u32 {
    field_u32(bits as u32, offset, width)
}

/// Bit `offset` of a 16-bit register value.
pub open spec fn bit_u16(bits: u16, offset: u32) -> bool {
    bit_u32(bits as u32, offset)
}

/// A 16-bit register value with one field replaced.
pub open spec fn with_field_u16(bits: u16, offset: u32, width: u32, value: u32) -> u16 {
    with_field_u32(bits as u32, offset, width, value) as u16
}

/// A 16-bit register value with one bit set or cleared.
pub open spec fn with_bit_u16(bits: u16, offset: u32, value: bool) -> u16 {
    with_bit_u32(bits as u32, offset, value) as u16
}

/// Reads the field of `width` bits at `offset`.
pub fn read_field_u32(bits: u32, offset: u32, width: u32) -> (r: u32)
    requires
        field_fits(offset, width),
    ensures
        r == field_u32(bits, offset, width),
        width <= 8 ==> r < 0x100,
        width <= 16 ==> r < 0x1_0000,
{
    let r: u32 = (bits >> offset) & !(0xffff_ffffu32 << width);
    assert(width <= 8 ==> r < 0x100) by (bit_vector)
        requires
            r == (bits >> offset) & !(0xffff_ffffu32 << width),
            width < 32,
    ;
    assert(width <= 16 ==> r < 0x1_0000) by (bit_vector)
        requires
            r == (bits >> offset) & !(0xffff_ffffu32 << width),
            width < 32,
    ;
    r
}

/// Reads bit `offset`.
pub fn read_bit_u32(bits: u32, offset: u32) -> (r: bool)
    requires
        offset < 32,
    ensures
        r == bit_u32(bits, offset),
{
    (bits >> offset) & 1 == 1
}

/// Replaces the field of `width` bits at `offset` by the low bits of `value`.
pub fn write_field_u32(bits: u32, offset: u32, width: u32, value: u32) -> (r: u32)
    requires
        field_fits(offset, width),
    ensures
        r == with_field_u32(bits, offset, width, value),
{
    let mask: u32 = !(0xffff_ffffu32 << width);
    (bits & !(mask << offset)) | ((value & mask) << offset)
}

/// Sets or clears bit `offset`.
pub fn write_bit_u32(bits: u32, offset: u32, value: bool) -> (r: u32)
    requires
        offset < 32,
    ensures
        r == with_bit_u32(bits, offset, value),
{
    if value {
        bits | (1u32 << offset)
    } else {
        bits & !(1u32 << offset)
    }
}

/// Reads the field of `width` bits at `offset` of a 16-bit register value.
pub fn read_field_u16(bits: u16, offset: u32, width: u32) -> (r: u32)
    requires
        field_fits(offset, width),
    ensures
        r == field_u16(bits, offset, width),
        width <= 8 ==> r < 0x100,
        width <= 16 ==> r < 0x1_0000,
{
    read_field_u32(bits as u32, offset, width)
}

/// Reads bit `offset` of a 16-bit register value.
pub fn read_bit_u16(bits: u16, offset: u32) -> (r: bool)
    requires
        offset < 16,
    ensures
        r == bit_u16(bits, offset),
{
    read_bit_u32(bits as u32, offset)
}

/// Replaces a field of a 16-bit register value.
pub fn write_field_u16(bits: u16, offset: u32, width: u32, value: u32) -> (r: u16)
    requires
        field_fits(offset, width),
        offset + width <= 16,
    ensures
        r == with_field_u16(bits, offset, width, value),
        r as u32 == with_field_u32(bits as u32, offset, width, value),
{
    proof {
        lemma_field_write_stays_u16(bits, offset, width, value);
    }
    write_field_u32(bits as u32, offset, width, value) as u16
}

/// Sets or clears bit `offset` of a 16-bit register value.
pub fn write_bit_u16(bits: u16, offset: u32, value: bool) -> (r: u16)
    requires
        offset < 16,
    ensures
        r == with_bit_u16(bits, offset, value),
        r as u32 == with_bit_u32(bits as u32, offset, value),
{
    proof {
        lemma_bit_write_stays_u16(bits, offset, value);
    }
    write_bit_u32(bits as u32, offset, value) as u16
}

/// Replacing a field that lies in the low 16 bits of a 16-bit value gives a
/// 16-bit value.
pub proof fn lemma_field_write_stays_u16(bits: u16, offset: u32, width: u32, value: u32)
    requires
        field_fits(offset, width),
        offset + width <= 16,
    ensures
        with_field_u32(bits as u32, offset, width, value) < 0x1_0000,
{
    let b: u32 = bits as u32;
    assert((b & !(!(0xffff_ffffu32 << width) << offset)) | ((value & !(0xffff_ffffu32 << width))
        << offset) < 0x1_0000) by (bit_vector)
        requires
            b < 0x1_0000,
            offset + width <= 16,
            width < 32,
    ;
}

/// Setting or clearing one of the low 16 bits of a 16-bit value gives a 16-bit
/// value.
pub proof fn lemma_bit_write_stays_u16(bits: u16, offset: u32, value: bool)
    requires
        offset < 16,
    ensures
        with_bit_u32(bits as u32, offset, value) < 0x1_0000,
{
    let b: u32 = bits as u32;
    assert((b | (1u32 << offset)) < 0x1_0000 && (b & !(1u32 << offset)) < 0x1_0000) by (bit_vector)
        requires
            b < 0x1_0000,
            offset < 16,
    ;
}

/// A field read back after it was written gives the low `width` bits of the value
/// written.
pub proof fn lemma_read_after_write(bits: u32, offset: u32, width: u32, value: u32)
    requires
        field_fits(offset, width),
    ensures
        field_u32(with_field_u32(bits, offset, width, value), offset, width) == value & low_mask(
            width,
        ),
{
    assert(((((bits & !(!(0xffff_ffffu32 << width) << offset)) | ((value & !(0xffff_ffffu32
        << width)) << offset)) >> offset) & !(0xffff_ffffu32 << width)) == value & !(
    0xffff_ffffu32 << width)) by (bit_vector)
        requires
            0 < width < 32,
            offset + width <= 32,
    ;
}

/// A value that fits in the field is read back unchanged.
pub proof fn lemma_read_after_write_fitting(bits: u32, offset: u32, width: u32, value: u32)
    requires
        field_fits(offset, width),
        value <= low_mask(width),
    ensures
        field_u32(with_field_u32(bits, offset, width, value), offset, width) == value,
{
    lemma_read_after_write(bits, offset, width, value);
    assert(value & !(0xffff_ffffu32 << width) == value) by (bit_vector)
        requires
            value <= !(0xffff_ffffu32 << width),
            width < 32,
    ;
}

/// Writing a field leaves every field disjoint from it as it was.
pub proof fn lemma_write_keeps_other_fields(
    bits: u32,
    offset: u32,
    width: u32,
    value: u32,
    other_offset: u32,
    other_width: u32,
)
    requires
        field_fits(offset, width),
        field_fits(other_offset, other_width),
        disjoint(offset, width, other_offset, other_width),
    ensures
        field_u32(with_field_u32(bits, offset, width, value), other_offset, other_width)
            == field_u32(bits, other_offset, other_width),
{
    let o: u32 = offset;
    let w: u32 = width;
    let p: u32 = other_offset;
    let q: u32 = other_width;
    assert(((((bits & !(!(0xffff_ffffu32 << w) << o)) | ((value & !(0xffff_ffffu32 << w)) << o))
        >> p) & !(0xffff_ffffu32 << q)) == ((bits >> p) & !(0xffff_ffffu32 << q))) by (bit_vector)
        requires
            0 < w < 32,
            0 < q < 32,
            o + w <= 32,
            p + q <= 32,
            o + w <= p || p + q <= o,
    ;
}

/// Writing a field keeps every bit outside it.
pub proof fn lemma_write_keeps_other_bits(
    bits: u32,
    offset: u32,
    width: u32,
    value: u32,
    index: u32,
)
    requires
        field_fits(offset, width),
        index < 32,
        index < offset || offset + width <= index,
    ensures
        bit_u32(with_field_u32(bits, offset, width, value), index) == bit_u32(bits, index),
{
    let o: u32 = offset;
    let w: u32 = width;
    assert(((((bits & !(!(0xffff_ffffu32 << w) << o)) | ((value & !(0xffff_ffffu32 << w)) << o))
        >> index) & 1u32 == 1u32) == ((bits >> index) & 1u32 == 1u32)) by (bit_vector)
        requires
            0 < w < 32,
            o + w <= 32,
            index < 32,
            index < o || o + w <= index,
    ;
}

/// Writing back the value that a field holds leaves the register unchanged.
pub proof fn lemma_write_back_unchanged(bits: u32, offset: u32, width: u32)
    requires
        field_fits(offset, width),
    ensures
        with_field_u32(bits, offset, width, field_u32(bits, offset, width)) == bits,
{
    let o: u32 = offset;
    let w: u32 = width;
    assert(((bits & !(!(0xffff_ffffu32 << w) << o)) | ((((bits >> o) & !(0xffff_ffffu32 << w))
        & !(0xffff_ffffu32 << w)) << o)) == bits) by (bit_vector)
        requires
            0 < w < 32,
            o + w <= 32,
    ;
}

/// A second write of the same field overrides the first.
pub proof fn lemma_last_write_wins(bits: u32, offset: u32, width: u32, first: u32, second: u32)
    requires
        field_fits(offset, width),
    ensures
        with_field_u32(with_field_u32(bits, offset, width, first), offset, width, second)
            == with_field_u32(bits, offset, width, second),
{
    let o: u32 = offset;
    let w: u32 = width;
    let m: u32 = !(0xffff_ffffu32 << w);
    assert(((((bits & !(m << o)) | ((first & m) << o)) & !(m << o)) | ((second & m) << o)) == ((
    bits & !(m << o)) | ((second & m) << o))) by (bit_vector);
}

/// Writes of disjoint fields may be made in either order.
pub proof fn lemma_disjoint_writes_commute(
    bits: u32,
    o1: u32,
    w1: u32,
    v1: u32,
    o2: u32,
    w2: u32,
    v2: u32,
)
    requires
        field_fits(o1, w1),
        field_fits(o2, w2),
        disjoint(o1, w1, o2, w2),
    ensures
        with_field_u32(with_field_u32(bits, o1, w1, v1), o2, w2, v2) == with_field_u32(
            with_field_u32(bits, o2, w2, v2),
            o1,
            w1,
            v1,
        ),
{
    let m1: u32 = !(0xffff_ffffu32 << w1);
    let m2: u32 = !(0xffff_ffffu32 << w2);
    assert(((((bits & !(m1 << o1)) | ((v1 & m1) << o1)) & !(m2 << o2)) | ((v2 & m2) << o2)) == ((((
    bits & !(m2 << o2)) | ((v2 & m2) << o2)) & !(m1 << o1)) | ((v1 & m1) << o1))) by (bit_vector)
        requires
            m1 == !(0xffff_ffffu32 << w1),
            m2 == !(0xffff_ffffu32 << w2),
            0 < w1 < 32,
            0 < w2 < 32,
            o1 + w1 <= 32,
            o2 + w2 <= 32,
            o1 + w1 <= o2 || o2 + w2 <= o1,
    ;
}

/// Setting or clearing a bit is writing the one-bit field there with 1 or 0, and
/// the bit reads back as written.
pub proof fn lemma_bit_is_one_bit_field(bits: u32, offset: u32, value: bool)
    requires
        offset < 32,
    ensures
        with_bit_u32(bits, offset, value) == with_field_u32(
            bits,
            offset,
            1,
            if value {
                1
            } else {
                0
            },
        ),
        bit_u32(bits, offset) == (field_u32(bits, offset, 1) == 1),
        bit_u32(with_bit_u32(bits, offset, value), offset) == value,
{
    assert((bits | (1u32 << offset)) == ((bits & !(!(0xffff_ffffu32 << 1u32) << offset)) | ((1u32
        & !(0xffff_ffffu32 << 1u32)) << offset))) by (bit_vector)
        requires
            offset < 32,
    ;
    assert((bits & !(1u32 << offset)) == ((bits & !(!(0xffff_ffffu32 << 1u32) << offset)) | ((0u32
        & !(0xffff_ffffu32 << 1u32)) << offset))) by (bit_vector)
        requires
            offset < 32,
    ;
    assert(((bits >> offset) & 1u32 == 1u32) == (((bits >> offset) & !(0xffff_ffffu32 << 1u32))
        == 1u32)) by (bit_vector);
    assert(((bits | (1u32 << offset)) >> offset) & 1u32 == 1u32) by (bit_vector)
        requires
            offset < 32,
    ;
    assert(((bits & !(1u32 << offset)) >> offset) & 1u32 != 1u32) by (bit_vector)
        requires
            offset < 32,
    ;
}

/// Setting or clearing one bit leaves every other bit as it was.
pub proof fn lemma_bit_write_keeps_other_bits(bits: u32, offset: u32, value: bool, index: u32)
    requires
        offset < 32,
        index < 32,
        index != offset,
    ensures
        bit_u32(with_bit_u32(bits, offset, value), index) == bit_u32(bits, index),
{
    assert((((bits | (1u32 << offset)) >> index) & 1u32 == 1u32) == ((bits >> index) & 1u32
        == 1u32)) by (bit_vector)
        requires
            offset < 32,
            index < 32,
            index != offset,
    ;
    assert((((bits & !(1u32 << offset)) >> index) & 1u32 == 1u32) == ((bits >> index) & 1u32
        == 1u32)) by (bit_vector)
        requires
            offset < 32,
            index < 32,
            index != offset,
    ;
}

/// The field value is the register value divided by `2^offset`, taken modulo
/// `2^width`.
pub proof fn lemma_field_is_div_mod(bits: u32, offset: u32, width: u32)
    requires
        field_fits(offset, width),
    ensures
        field_u32(bits, offset, width) as nat == (bits as nat / vstd::arithmetic::power2::pow2(
            offset as nat,
        )) % vstd::arithmetic::power2::pow2(width as nat),
{
    let s: u32 = bits >> offset;
    vstd::bits::lemma_u32_shr_is_div(bits, offset);
    vstd::bits::lemma_u32_pow2_no_overflow(width as nat);
    vstd::bits::lemma_u32_shl_is_mul(1, width);
    assert(!(0xffff_ffffu32 << width) == ((1u32 << width) - 1) as u32) by (bit_vector)
        requires
            width < 32,
    ;
    vstd::bits::lemma_u32_low_bits_mask_is_mod(s, width as nat);
}

/// A field of a 16-bit register read back after it was written gives the low
/// `width` bits of the value written, and every field disjoint from it keeps its
/// value.
pub proof fn lemma_read_after_write_u16(
    bits: u16,
    offset: u32,
    width: u32,
    value: u32,
    other_offset: u32,
    other_width: u32,
)
    requires
        field_fits(offset, width),
        offset + width <= 16,
        field_fits(other_offset, other_width),
        disjoint(offset, width, other_offset, other_width),
    ensures
        field_u16(with_field_u16(bits, offset, width, value), offset, width) == value & low_mask(
            width,
        ),
        field_u16(with_field_u16(bits, offset, width, value), other_offset, other_width)
            == field_u16(bits, other_offset, other_width),
{
    lemma_field_write_stays_u16(bits, offset, width, value);
    lemma_read_after_write(bits as u32, offset, width, value);
    lemma_write_keeps_other_fields(bits as u32, offset, width, value, other_offset, other_width);
}

/// A bit of a 16-bit register reads back as it was set or cleared, and every
/// other bit keeps its value.
pub proof fn lemma_bit_write_u16(bits: u16, offset: u32, value: bool, index: u32)
    requires
        offset < 16,
        index < 32,
        index != offset,
    ensures
        bit_u16(with_bit_u16(bits, offset, value), offset) == value,
        bit_u16(with_bit_u16(bits, offset, value), index) == bit_u16(bits, index),
{
    lemma_bit_write_stays_u16(bits, offset, value);
    lemma_bit_is_one_bit_field(bits as u32, offset, value);
    lemma_bit_write_keeps_other_bits(bits as u32, offset, value, index);
}

} // verus!

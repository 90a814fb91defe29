use vstd::prelude::*;
use crate::bitfield;

verus! {

/// Reader of register F0DATA0
pub type R = crate::gd32vf103_pac::generic::R<u32, super::F0DATA0>;

/// Writer for register F0DATA0
pub type W = crate::gd32vf103_pac::generic::W<u32, super::F0DATA0>;

/// Register F0DATA0 `reset()`'s with value 0
impl crate::gd32vf103_pac::generic::ResetValue for super::F0DATA0 {
    type Type = u32;

    open spec fn reset_spec() -> u32 {
        0
    }

    fn reset_value() -> (r: u32) {
        0
    }
}

/// Reader of field `FD0`
pub type FD0_R = crate::gd32vf103_pac::generic::R<bool, bool>;

/// Write proxy for field `FD0`
pub struct FD0_W<'a> {
    pub w: &'a mut W,
}

impl<'a> FD0_W<'a> {
    /// Sets the field bit
    pub fn set_bit(self) -> (r: &'a mut W)
        ensures
            r@ == bitfield::with_bit_u32(old(self.w)@, 0, true),
            *final(r) == *final(self.w),
    {
        self.bit(true)
    }

    /// Clears the field bit
    pub fn clear_bit(self) -> (r: &'a mut W)
        ensures
            r@ == bitfield::with_bit_u32(old(self.w)@, 0, false),
            *final(r) == *final(self.w),
    {
        self.bit(false)
    }

    /// Writes raw bits to the field
    pub fn bit(self, value: bool) -> (r: &'a mut W)
        ensures
            r@ == bitfield::with_bit_u32(old(self.w)@, 0, value),
            *final(r) == *final(self.w),
    {
        let bits: u32 = bitfield::write_bit_u32(self.w.value(), 0, value);
        self.w.bits(bits)
    }
}

/// Reader of field `FD1`
pub type FD1_R = crate::gd32vf103_pac::generic::R<bool, bool>;

/// Write proxy for field `FD1`
pub struct FD1_W<'a> {
    pub w: &'a mut W,
}

impl<'a> FD1_W<'a> {
    /// Sets the field bit
    pub fn set_bit(self) -> (r: &'a mut W)
        ensures
            r@ == bitfield::with_bit_u32(old(self.w)@, 1, true),
            *final(r) == *final(self.w),
    {
        self.bit(true)
    }

    /// Clears the field bit
    pub fn clear_bit(self) -> (r: &'a mut W)
        ensures
            r@ == bitfield::with_bit_u32(old(self.w)@, 1, false),
            *final(r) == *final(self.w),
    {
        self.bit(false)
    }

    /// Writes raw bits to the field
    pub fn bit(self, value: bool) -> (r: &'a mut W)
        ensures
            r@ == bitfield::with_bit_u32(old(self.w)@, 1, value),
            *final(r) == *final(self.w),
    {
        let bits: u32 = bitfield::write_bit_u32(self.w.value(), 1, value);
        self.w.bits(bits)
    }
}

/// Reader of field `FD2`
pub type FD2_R = crate::gd32vf103_pac::generic::R<bool, bool>;

/// Write proxy for field `FD2`
pub struct FD2_W<'a> {
    pub w: &'a mut W,
}

impl<'a> FD2_W<'a> {
    /// Sets the field bit
    pub fn set_bit(self) -> (r: &'a mut W)
        ensures
            r@ == bitfield::with_bit_u32(old(self.w)@, 2, true),
            *final(r) == *final(self.w),
    {
        self.bit(true)
    }

    /// Clears the field bit
    pub fn clear_bit(self) -> (r: &'a mut W)
        ensures
            r@ == bitfield::with_bit_u32(old(self.w)@, 2, false),
            *final(r) == *final(self.w),
    {
        self.bit(false)
    }

    /// Writes raw bits to the field
    pub fn bit(self, value: bool) -> (r: &'a mut W)
        ensures
            r@ == bitfield::with_bit_u32(old(self.w)@, 2, value),
            *final(r) == *final(self.w),
    {
        let bits: u32 = bitfield::write_bit_u32(self.w.value(), 2, value);
        self.w.bits(bits)
    }
}

/// Reader of field `FD3`
pub type FD3_R = crate::gd32vf103_pac::generic::R<bool, bool>;

/// Write proxy for field `FD3`
pub struct FD3_W<'a> {
    pub w: &'a mut W,
}

impl<'a> FD3_W<'a> {
    /// Sets the field bit
    pub fn set_bit(self) -> (r: &'a mut W)
        ensures
            r@ == bitfield::with_bit_u32(old(self.w)@, 3, true),
            *final(r) == *final(self.w),
    {
        self.bit(true)
    }

    /// Clears the field bit
    pub fn clear_bit(self) -> (r: &'a mut W)
        ensures
            r@ == bitfield::with_bit_u32(old(self.w)@, 3, false),
            *final(r) == *final(self.w),
    {
        self.bit(false)
    }

    /// Writes raw bits to the field
    pub fn bit(self, value: bool) -> (r: &'a mut W)
        ensures
            r@ == bitfield::with_bit_u32(old(self.w)@, 3, value),
            *final(r) == *final(self.w),
    {
        let bits: u32 = bitfield::write_bit_u32(self.w.value(), 3, value);
        self.w.bits(bits)
    }
}

/// Reader of field `FD4`
pub type FD4_R = crate::gd32vf103_pac::generic::R<bool, bool>;

/// Write proxy for field `FD4`
pub struct FD4_W<'a> {
    pub w: &'a mut W,
}

impl<'a> FD4_W<'a> {
    /// Sets the field bit
    pub fn set_bit(self) -> (r: &'a mut W)
        ensures
            r@ == bitfield::with_bit_u32(old(self.w)@, 4, true),
            *final(r) == *final(self.w),
    {
        self.bit(true)
    }

    /// Clears the field bit
    pub fn clear_bit(self) -> (r: &'a mut W)
        ensures
            r@ == bitfield::with_bit_u32(old(self.w)@, 4, false),
            *final(r) == *final(self.w),
    {
        self.bit(false)
    }

    /// Writes raw bits to the field
    pub fn bit(self, value: bool) -> (r: &'a mut W)
        ensures
            r@ == bitfield::with_bit_u32(old(self.w)@, 4, value),
            *final(r) == *final(self.w),
    {
        let bits: u32 = bitfield::write_bit_u32(self.w.value(), 4, value);
        self.w.bits(bits)
    }
}

/// Reader of field `FD5`
pub type FD5_R = crate::gd32vf103_pac::generic::R<bool, bool>;

/// Write proxy for field `FD5`
pub struct FD5_W<'a> {
    pub w: &'a mut W,
}

impl<'a> FD5_W<'a> {
    /// Sets the field bit
    pub fn set_bit(self) -> (r: &'a mut W)
        ensures
            r@ == bitfield::with_bit_u32(old(self.w)@, 5, true),
            *final(r) == *final(self.w),
    {
        self.bit(true)
    }

    /// Clears the field bit
    pub fn clear_bit(self) -> (r: &'a mut W)
        ensures
            r@ == bitfield::with_bit_u32(old(self.w)@, 5, false),
            *final(r) == *final(self.w),
    {
        self.bit(false)
    }

    /// Writes raw bits to the field
    pub fn bit(self, value: bool) -> (r: &'a mut W)
        ensures
            r@ == bitfield::with_bit_u32(old(self.w)@, 5, value),
            *final(r) == *final(self.w),
    {
        let bits: u32 = bitfield::write_bit_u32(self.w.value(), 5, value);
        self.w.bits(bits)
    }
}

/// Reader of field `FD6`
pub type FD6_R = crate::gd32vf103_pac::generic::R<bool, bool>;

/// Write proxy for field `FD6`
pub struct FD6_W<'a> {
    pub w: &'a mut W,
}

impl<'a> FD6_W<'a> {
    /// Sets the field bit
    pub fn set_bit(self) -> (r: &'a mut W)
        ensures
            r@ == bitfield::with_bit_u32(old(self.w)@, 6, true),
            *final(r) == *final(self.w),
    {
        self.bit(true)
    }

    /// Clears the field bit
    pub fn clear_bit(self) -> (r: &'a mut W)
        ensures
            r@ == bitfield::with_bit_u32(old(self.w)@, 6, false),
            *final(r) == *final(self.w),
    {
        self.bit(false)
    }

    /// Writes raw bits to the field
    pub fn bit(self, value: bool) -> (r: &'a mut W)
        ensures
            r@ == bitfield::with_bit_u32(old(self.w)@, 6, value),
            *final(r) == *final(self.w),
    {
        let bits: u32 = bitfield::write_bit_u32(self.w.value(), 6, value);
        self.w.bits(bits)
    }
}

/// Reader of field `FD7`
pub type FD7_R = crate::gd32vf103_pac::generic::R<bool, bool>;

/// Write proxy for field `FD7`
pub struct FD7_W<'a> {
    pub w: &'a mut W,
}

impl<'a> FD7_W<'a> {
    /// Sets the field bit
    pub fn set_bit(self) -> (r: &'a mut W)
        ensures
            r@ == bitfield::with_bit_u32(old(self.w)@, 7, true),
            *final(r) == *final(self.w),
    {
        self.bit(true)
    }

    /// Clears the field bit
    pub fn clear_bit(self) -> (r: &'a mut W)
        ensures
            r@ == bitfield::with_bit_u32(old(self.w)@, 7, false),
            *final(r) == *final(self.w),
    {
        self.bit(false)
    }

    /// Writes raw bits to the field
    pub fn bit(self, value: bool) -> (r: &'a mut W)
        ensures
            r@ == bitfield::with_bit_u32(old(self.w)@, 7, value),
            *final(r) == *final(self.w),
    {
        let bits: u32 = bitfield::write_bit_u32(self.w.value(), 7, value);
        self.w.bits(bits)
    }
}

/// Reader of field `FD8`
pub type FD8_R = crate::gd32vf103_pac::generic::R<bool, bool>;

/// Write proxy for field `FD8`
pub struct FD8_W<'a> {
    pub w: &'a mut W,
}

impl<'a> FD8_W<'a> {
    /// Sets the field bit
    pub fn set_bit(self) -> (r: &'a mut W)
        ensures
            r@ == bitfield::with_bit_u32(old(self.w)@, 8, true),
            *final(r) == *final(self.w),
    {
        self.bit(true)
    }

    /// Clears the field bit
    pub fn clear_bit(self) -> (r: &'a mut W)
        ensures
            r@ == bitfield::with_bit_u32(old(self.w)@, 8, false),
            *final(r) == *final(self.w),
    {
        self.bit(false)
    }

    /// Writes raw bits to the field
    pub fn bit(self, value: bool) -> (r: &'a mut W)
        ensures
            r@ == bitfield::with_bit_u32(old(self.w)@, 8, value),
            *final(r) == *final(self.w),
    {
        let bits: u32 = bitfield::write_bit_u32(self.w.value(), 8, value);
        self.w.bits(bits)
    }
}

/// Reader of field `FD9`
pub type FD9_R = crate::gd32vf103_pac::generic::R<bool, bool>;

/// Write proxy for field `FD9`
pub struct FD9_W<'a> {
    pub w: &'a mut W,
}

impl<'a> FD9_W<'a> {
    /// Sets the field bit
    pub fn set_bit(self) -> (r: &'a mut W)
        ensures
            r@ == bitfield::with_bit_u32(old(self.w)@, 9, true),
            *final(r) == *final(self.w),
    {
        self.bit(true)
    }

    /// Clears the field bit
    pub fn clear_bit(self) -> (r: &'a mut W)
        ensures
            r@ == bitfield::with_bit_u32(old(self.w)@, 9, false),
            *final(r) == *final(self.w),
    {
        self.bit(false)
    }

    /// Writes raw bits to the field
    pub fn bit(self, value: bool) -> (r: &'a mut W)
        ensures
            r@ == bitfield::with_bit_u32(old(self.w)@, 9, value),
            *final(r) == *final(self.w),
    {
        let bits: u32 = bitfield::write_bit_u32(self.w.value(), 9, value);
        self.w.bits(bits)
    }
}

/// Reader of field `FD10`
pub type FD10_R = crate::gd32vf103_pac::generic::R<bool, bool>;

/// Write proxy for field `FD10`
pub struct FD10_W<'a> {
    pub w: &'a mut W,
}

impl<'a> FD10_W<'a> {
    /// Sets the field bit
    pub fn set_bit(self) -> (r: &'a mut W)
        ensures
            r@ == bitfield::with_bit_u32(old(self.w)@, 10, true),
            *final(r) == *final(self.w),
    {
        self.bit(true)
    }

    /// Clears the field bit
    pub fn clear_bit(self) -> (r: &'a mut W)
        ensures
            r@ == bitfield::with_bit_u32(old(self.w)@, 10, false),
            *final(r) == *final(self.w),
    {
        self.bit(false)
    }

    /// Writes raw bits to the field
    pub fn bit(self, value: bool) -> (r: &'a mut W)
        ensures
            r@ == bitfield::with_bit_u32(old(self.w)@, 10, value),
            *final(r) == *final(self.w),
    {
        let bits: u32 = bitfield::write_bit_u32(self.w.value(), 10, value);
        self.w.bits(bits)
    }
}

/// Reader of field `FD11`
pub type FD11_R = crate::gd32vf103_pac::generic::R<bool, bool>;

/// Write proxy for field `FD11`
pub struct FD11_W<'a> {
    pub w: &'a mut W,
}

impl<'a> FD11_W<'a> {
    /// Sets the field bit
    pub fn set_bit(self) -> (r: &'a mut W)
        ensures
            r@ == bitfield::with_bit_u32(old(self.w)@, 11, true),
            *final(r) == *final(self.w),
    {
        self.bit(true)
    }

    /// Clears the field bit
    pub fn clear_bit(self) -> (r: &'a mut W)
        ensures
            r@ == bitfield::with_bit_u32(old(self.w)@, 11, false),
            *final(r) == *final(self.w),
    {
        self.bit(false)
    }

    /// Writes raw bits to the field
    pub fn bit(self, value: bool) -> (r: &'a mut W)
        ensures
            r@ == bitfield::with_bit_u32(old(self.w)@, 11, value),
            *final(r) == *final(self.w),
    {
        let bits: u32 = bitfield::write_bit_u32(self.w.value(), 11, value);
        self.w.bits(bits)
    }
}

/// Reader of field `FD12`
pub type FD12_R = crate::gd32vf103_pac::generic::R<bool, bool>;

/// Write proxy for field `FD12`
pub struct FD12_W<'a> {
    pub w: &'a mut W,
}

impl<'a> FD12_W<'a> {
    /// Sets the field bit
    pub fn set_bit(self) -> (r: &'a mut W)
        ensures
            r@ == bitfield::with_bit_u32(old(self.w)@, 12, true),
            *final(r) == *final(self.w),
    {
        self.bit(true)
    }

    /// Clears the field bit
    pub fn clear_bit(self) -> (r: &'a mut W)
        ensures
            r@ == bitfield::with_bit_u32(old(self.w)@, 12, false),
            *final(r) == *final(self.w),
    {
        self.bit(false)
    }

    /// Writes raw bits to the field
    pub fn bit(self, value: bool) -> (r: &'a mut W)
        ensures
            r@ == bitfield::with_bit_u32(old(self.w)@, 12, value),
            *final(r) == *final(self.w),
    {
        let bits: u32 = bitfield::write_bit_u32(self.w.value(), 12, value);
        self.w.bits(bits)
    }
}

/// Reader of field `FD13`
pub type FD13_R = crate::gd32vf103_pac::generic::R<bool, bool>;

/// Write proxy for field `FD13`
pub struct FD13_W<'a> {
    pub w: &'a mut W,
}

impl<'a> FD13_W<'a> {
    /// Sets the field bit
    pub fn set_bit(self) -> (r: &'a mut W)
        ensures
            r@ == bitfield::with_bit_u32(old(self.w)@, 13, true),
            *final(r) == *final(self.w),
    {
        self.bit(true)
    }

    /// Clears the field bit
    pub fn clear_bit(self) -> (r: &'a mut W)
        ensures
            r@ == bitfield::with_bit_u32(old(self.w)@, 13, false),
            *final(r) == *final(self.w),
    {
        self.bit(false)
    }

    /// Writes raw bits to the field
    pub fn bit(self, value: bool) -> (r: &'a mut W)
        ensures
            r@ == bitfield::with_bit_u32(old(self.w)@, 13, value),
            *final(r) == *final(self.w),
    {
        let bits: u32 = bitfield::write_bit_u32(self.w.value(), 13, value);
        self.w.bits(bits)
    }
}

/// Reader of field `FD14`
pub type FD14_R = crate::gd32vf103_pac::generic::R<bool, bool>;

/// Write proxy for field `FD14`
pub struct FD14_W<'a> {
    pub w: &'a mut W,
}

impl<'a> FD14_W<'a> {
    /// Sets the field bit
    pub fn set_bit(self) -> (r: &'a mut W)
        ensures
            r@ == bitfield::with_bit_u32(old(self.w)@, 14, true),
            *final(r) == *final(self.w),
    {
        self.bit(true)
    }

    /// Clears the field bit
    pub fn clear_bit(self) -> (r: &'a mut W)
        ensures
            r@ == bitfield::with_bit_u32(old(self.w)@, 14, false),
            *final(r) == *final(self.w),
    {
        self.bit(false)
    }

    /// Writes raw bits to the field
    pub fn bit(self, value: bool) -> (r: &'a mut W)
        ensures
            r@ == bitfield::with_bit_u32(old(self.w)@, 14, value),
            *final(r) == *final(self.w),
    {
        let bits: u32 = bitfield::write_bit_u32(self.w.value(), 14, value);
        self.w.bits(bits)
    }
}

/// Reader of field `FD15`
pub type FD15_R = crate::gd32vf103_pac::generic::R<bool, bool>;

/// Write proxy for field `FD15`
pub struct FD15_W<'a> {
    pub w: &'a mut W,
}

impl<'a> FD15_W<'a> {
    /// Sets the field bit
    pub fn set_bit(self) -> (r: &'a mut W)
        ensures
            r@ == bitfield::with_bit_u32(old(self.w)@, 15, true),
            *final(r) == *final(self.w),
    {
        self.bit(true)
    }

    /// Clears the field bit
    pub fn clear_bit(self) -> (r: &'a mut W)
        ensures
            r@ == bitfield::with_bit_u32(old(self.w)@, 15, false),
            *final(r) == *final(self.w),
    {
        self.bit(false)
    }

    /// Writes raw bits to the field
    pub fn bit(self, value: bool) -> (r: &'a mut W)
        ensures
            r@ == bitfield::with_bit_u32(old(self.w)@, 15, value),
            *final(r) == *final(self.w),
    {
        let bits: u32 = bitfield::write_bit_u32(self.w.value(), 15, value);
        self.w.bits(bits)
    }
}

/// Reader of field `FD16`
pub type FD16_R = crate::gd32vf103_pac::generic::R<bool, bool>;

/// Write proxy for field `FD16`
pub struct FD16_W<'a> {
    pub w: &'a mut W,
}

impl<'a> FD16_W<'a> {
    /// Sets the field bit
    pub fn set_bit(self) -> (r: &'a mut W)
        ensures
            r@ == bitfield::with_bit_u32(old(self.w)@, 16, true),
            *final(r) == *final(self.w),
    {
        self.bit(true)
    }

    /// Clears the field bit
    pub fn clear_bit(self) -> (r: &'a mut W)
        ensures
            r@ == bitfield::with_bit_u32(old(self.w)@, 16, false),
            *final(r) == *final(self.w),
    {
        self.bit(false)
    }

    /// Writes raw bits to the field
    pub fn bit(self, value: bool) -> (r: &'a mut W)
        ensures
            r@ == bitfield::with_bit_u32(old(self.w)@, 16, value),
            *final(r) == *final(self.w),
    {
        let bits: u32 = bitfield::write_bit_u32(self.w.value(), 16, value);
        self.w.bits(bits)
    }
}

/// Reader of field `FD17`
pub type FD17_R = crate::gd32vf103_pac::generic::R<bool, bool>;

/// Write proxy for field `FD17`
pub struct FD17_W<'a> {
    pub w: &'a mut W,
}

impl<'a> FD17_W<'a> {
    /// Sets the field bit
    pub fn set_bit(self) -> (r: &'a mut W)
        ensures
            r@ == bitfield::with_bit_u32(old(self.w)@, 17, true),
            *final(r) == *final(self.w),
    {
        self.bit(true)
    }

    /// Clears the field bit
    pub fn clear_bit(self) -> (r: &'a mut W)
        ensures
            r@ == bitfield::with_bit_u32(old(self.w)@, 17, false),
            *final(r) == *final(self.w),
    {
        self.bit(false)
    }

    /// Writes raw bits to the field
    pub fn bit(self, value: bool) -> (r: &'a mut W)
        ensures
            r@ == bitfield::with_bit_u32(old(self.w)@, 17, value),
            *final(r) == *final(self.w),
    {
        let bits: u32 = bitfield::write_bit_u32(self.w.value(), 17, value);
        self.w.bits(bits)
    }
}

/// Reader of field `FD18`
pub type FD18_R = crate::gd32vf103_pac::generic::R<bool, bool>;

/// Write proxy for field `FD18`
pub struct FD18_W<'a> {
    pub w: &'a mut W,
}

impl<'a> FD18_W<'a> {
    /// Sets the field bit
    pub fn set_bit(self) -> (r: &'a mut W)
        ensures
            r@ == bitfield::with_bit_u32(old(self.w)@, 18, true),
            *final(r) == *final(self.w),
    {
        self.bit(true)
    }

    /// Clears the field bit
    pub fn clear_bit(self) -> (r: &'a mut W)
        ensures
            r@ == bitfield::with_bit_u32(old(self.w)@, 18, false),
            *final(r) == *final(self.w),
    {
        self.bit(false)
    }

    /// Writes raw bits to the field
    pub fn bit(self, value: bool) -> (r: &'a mut W)
        ensures
            r@ == bitfield::with_bit_u32(old(self.w)@, 18, value),
            *final(r) == *final(self.w),
    {
        let bits: u32 = bitfield::write_bit_u32(self.w.value(), 18, value);
        self.w.bits(bits)
    }
}

/// Reader of field `FD19`
pub type FD19_R = crate::gd32vf103_pac::generic::R<bool, bool>;

/// Write proxy for field `FD19`
pub struct FD19_W<'a> {
    pub w: &'a mut W,
}

impl<'a> FD19_W<'a> {
    /// Sets the field bit
    pub fn set_bit(self) -> (r: &'a mut W)
        ensures
            r@ == bitfield::with_bit_u32(old(self.w)@, 19, true),
            *final(r) == *final(self.w),
    {
        self.bit(true)
    }

    /// Clears the field bit
    pub fn clear_bit(self) -> (r: &'a mut W)
        ensures
            r@ == bitfield::with_bit_u32(old(self.w)@, 19, false),
            *final(r) == *final(self.w),
    {
        self.bit(false)
    }

    /// Writes raw bits to the field
    pub fn bit(self, value: bool) -> (r: &'a mut W)
        ensures
            r@ == bitfield::with_bit_u32(old(self.w)@, 19, value),
            *final(r) == *final(self.w),
    {
        let bits: u32 = bitfield::write_bit_u32(self.w.value(), 19, value);
        self.w.bits(bits)
    }
}

/// Reader of field `FD20`
pub type FD20_R = crate::gd32vf103_pac::generic::R<bool, bool>;

/// Write proxy for field `FD20`
pub struct FD20_W<'a> {
    pub w: &'a mut W,
}

impl<'a> FD20_W<'a> {
    /// Sets the field bit
    pub fn set_bit(self) -> (r: &'a mut W)
        ensures
            r@ == bitfield::with_bit_u32(old(self.w)@, 20, true),
            *final(r) == *final(self.w),
    {
        self.bit(true)
    }

    /// Clears the field bit
    pub fn clear_bit(self) -> (r: &'a mut W)
        ensures
            r@ == bitfield::with_bit_u32(old(self.w)@, 20, false),
            *final(r) == *final(self.w),
    {
        self.bit(false)
    }

    /// Writes raw bits to the field
    pub fn bit(self, value: bool) -> (r: &'a mut W)
        ensures
            r@ == bitfield::with_bit_u32(old(self.w)@, 20, value),
            *final(r) == *final(self.w),
    {
        let bits: u32 = bitfield::write_bit_u32(self.w.value(), 20, value);
        self.w.bits(bits)
    }
}

/// Reader of field `FD21`
pub type FD21_R = crate::gd32vf103_pac::generic::R<bool, bool>;

/// Write proxy for field `FD21`
pub struct FD21_W<'a> {
    pub w: &'a mut W,
}

impl<'a> FD21_W<'a> {
    /// Sets the field bit
    pub fn set_bit(self) -> (r: &'a mut W)
        ensures
            r@ == bitfield::with_bit_u32(old(self.w)@, 21, true),
            *final(r) == *final(self.w),
    {
        self.bit(true)
    }

    /// Clears the field bit
    pub fn clear_bit(self) -> (r: &'a mut W)
        ensures
            r@ == bitfield::with_bit_u32(old(self.w)@, 21, false),
            *final(r) == *final(self.w),
    {
        self.bit(false)
    }

    /// Writes raw bits to the field
    pub fn bit(self, value: bool) -> (r: &'a mut W)
        ensures
            r@ == bitfield::with_bit_u32(old(self.w)@, 21, value),
            *final(r) == *final(self.w),
    {
        let bits: u32 = bitfield::write_bit_u32(self.w.value(), 21, value);
        self.w.bits(bits)
    }
}

/// Reader of field `FD22`
pub type FD22_R = crate::gd32vf103_pac::generic::R<bool, bool>;

/// Write proxy for field `FD22`
pub struct FD22_W<'a> {
    pub w: &'a mut W,
}

impl<'a> FD22_W<'a> {
    /// Sets the field bit
    pub fn set_bit(self) -> (r: &'a mut W)
        ensures
            r@ == bitfield::with_bit_u32(old(self.w)@, 22, true),
            *final(r) == *final(self.w),
    {
        self.bit(true)
    }

    /// Clears the field bit
    pub fn clear_bit(self) -> (r: &'a mut W)
        ensures
            r@ == bitfield::with_bit_u32(old(self.w)@, 22, false),
            *final(r) == *final(self.w),
    {
        self.bit(false)
    }

    /// Writes raw bits to the field
    pub fn bit(self, value: bool) -> (r: &'a mut W)
        ensures
            r@ == bitfield::with_bit_u32(old(self.w)@, 22, value),
            *final(r) == *final(self.w),
    {
        let bits: u32 = bitfield::write_bit_u32(self.w.value(), 22, value);
        self.w.bits(bits)
    }
}

/// Reader of field `FD23`
pub type FD23_R = crate::gd32vf103_pac::generic::R<bool, bool>;

/// Write proxy for field `FD23`
pub struct FD23_W<'a> {
    pub w: &'a mut W,
}

impl<'a> FD23_W<'a> {
    /// Sets the field bit
    pub fn set_bit(self) -> (r: &'a mut W)
        ensures
            r@ == bitfield::with_bit_u32(old(self.w)@, 23, true),
            *final(r) == *final(self.w),
    {
        self.bit(true)
    }

    /// Clears the field bit
    pub fn clear_bit(self) -> (r: &'a mut W)
        ensures
            r@ == bitfield::with_bit_u32(old(self.w)@, 23, false),
            *final(r) == *final(self.w),
    {
        self.bit(false)
    }

    /// Writes raw bits to the field
    pub fn bit(self, value: bool) -> (r: &'a mut W)
        ensures
            r@ == bitfield::with_bit_u32(old(self.w)@, 23, value),
            *final(r) == *final(self.w),
    {
        let bits: u32 = bitfield::write_bit_u32(self.w.value(), 23, value);
        self.w.bits(bits)
    }
}

/// Reader of field `FD24`
pub type FD24_R = crate::gd32vf103_pac::generic::R<bool, bool>;

/// Write proxy for field `FD24`
pub struct FD24_W<'a> {
    pub w: &'a mut W,
}

impl<'a> FD24_W<'a> {
    /// Sets the field bit
    pub fn set_bit(self) -> (r: &'a mut W)
        ensures
            r@ == bitfield::with_bit_u32(old(self.w)@, 24, true),
            *final(r) == *final(self.w),
    {
        self.bit(true)
    }

    /// Clears the field bit
    pub fn clear_bit(self) -> (r: &'a mut W)
        ensures
            r@ == bitfield::with_bit_u32(old(self.w)@, 24, false),
            *final(r) == *final(self.w),
    {
        self.bit(false)
    }

    /// Writes raw bits to the field
    pub fn bit(self, value: bool) -> (r: &'a mut W)
        ensures
            r@ == bitfield::with_bit_u32(old(self.w)@, 24, value),
            *final(r) == *final(self.w),
    {
        let bits: u32 = bitfield::write_bit_u32(self.w.value(), 24, value);
        self.w.bits(bits)
    }
}

/// Reader of field `FD25`
pub type FD25_R = crate::gd32vf103_pac::generic::R<bool, bool>;

/// Write proxy for field `FD25`
pub struct FD25_W<'a> {
    pub w: &'a mut W,
}

impl<'a> FD25_W<'a> {
    /// Sets the field bit
    pub fn set_bit(self) -> (r: &'a mut W)
        ensures
            r@ == bitfield::with_bit_u32(old(self.w)@, 25, true),
            *final(r) == *final(self.w),
    {
        self.bit(true)
    }

    /// Clears the field bit
    pub fn clear_bit(self) -> (r: &'a mut W)
        ensures
            r@ == bitfield::with_bit_u32(old(self.w)@, 25, false),
            *final(r) == *final(self.w),
    {
        self.bit(false)
    }

    /// Writes raw bits to the field
    pub fn bit(self, value: bool) -> (r: &'a mut W)
        ensures
            r@ == bitfield::with_bit_u32(old(self.w)@, 25, value),
            *final(r) == *final(self.w),
    {
        let bits: u32 = bitfield::write_bit_u32(self.w.value(), 25, value);
        self.w.bits(bits)
    }
}

/// Reader of field `FD26`
pub type FD26_R = crate::gd32vf103_pac::generic::R<bool, bool>;

/// Write proxy for field `FD26`
pub struct FD26_W<'a> {
    pub w: &'a mut W,
}

impl<'a> FD26_W<'a> {
    /// Sets the field bit
    pub fn set_bit(self) -> (r: &'a mut W)
        ensures
            r@ == bitfield::with_bit_u32(old(self.w)@, 26, true),
            *final(r) == *final(self.w),
    {
        self.bit(true)
    }

    /// Clears the field bit
    pub fn clear_bit(self) -> (r: &'a mut W)
        ensures
            r@ == bitfield::with_bit_u32(old(self.w)@, 26, false),
            *final(r) == *final(self.w),
    {
        self.bit(false)
    }

    /// Writes raw bits to the field
    pub fn bit(self, value: bool) -> (r: &'a mut W)
        ensures
            r@ == bitfield::with_bit_u32(old(self.w)@, 26, value),
            *final(r) == *final(self.w),
    {
        let bits: u32 = bitfield::write_bit_u32(self.w.value(), 26, value);
        self.w.bits(bits)
    }
}

/// Reader of field `FD27`
pub type FD27_R = crate::gd32vf103_pac::generic::R<bool, bool>;

/// Write proxy for field `FD27`
pub struct FD27_W<'a> {
    pub w: &'a mut W,
}

impl<'a> FD27_W<'a> {
    /// Sets the field bit
    pub fn set_bit(self) -> (r: &'a mut W)
        ensures
            r@ == bitfield::with_bit_u32(old(self.w)@, 27, true),
            *final(r) == *final(self.w),
    {
        self.bit(true)
    }

    /// Clears the field bit
    pub fn clear_bit(self) -> (r: &'a mut W)
        ensures
            r@ == bitfield::with_bit_u32(old(self.w)@, 27, false),
            *final(r) == *final(self.w),
    {
        self.bit(false)
    }

    /// Writes raw bits to the field
    pub fn bit(self, value: bool) -> (r: &'a mut W)
        ensures
            r@ == bitfield::with_bit_u32(old(self.w)@, 27, value),
            *final(r) == *final(self.w),
    {
        let bits: u32 = bitfield::write_bit_u32(self.w.value(), 27, value);
        self.w.bits(bits)
    }
}

/// Reader of field `FD28`
pub type FD28_R = crate::gd32vf103_pac::generic::R<bool, bool>;

/// Write proxy for field `FD28`
pub struct FD28_W<'a> {
    pub w: &'a mut W,
}

impl<'a> FD28_W<'a> {
    /// Sets the field bit
    pub fn set_bit(self) -> (r: &'a mut W)
        ensures
            r@ == bitfield::with_bit_u32(old(self.w)@, 28, true),
            *final(r) == *final(self.w),
    {
        self.bit(true)
    }

    /// Clears the field bit
    pub fn clear_bit(self) -> (r: &'a mut W)
        ensures
            r@ == bitfield::with_bit_u32(old(self.w)@, 28, false),
            *final(r) == *final(self.w),
    {
        self.bit(false)
    }

    /// Writes raw bits to the field
    pub fn bit(self, value: bool) -> (r: &'a mut W)
        ensures
            r@ == bitfield::with_bit_u32(old(self.w)@, 28, value),
            *final(r) == *final(self.w),
    {
        let bits: u32 = bitfield::write_bit_u32(self.w.value(), 28, value);
        self.w.bits(bits)
    }
}

/// Reader of field `FD29`
pub type FD29_R = crate::gd32vf103_pac::generic::R<bool, bool>;

/// Write proxy for field `FD29`
pub struct FD29_W<'a> {
    pub w: &'a mut W,
}

impl<'a> FD29_W<'a> {
    /// Sets the field bit
    pub fn set_bit(self) -> (r: &'a mut W)
        ensures
            r@ == bitfield::with_bit_u32(old(self.w)@, 29, true),
            *final(r) == *final(self.w),
    {
        self.bit(true)
    }

    /// Clears the field bit
    pub fn clear_bit(self) -> (r: &'a mut W)
        ensures
            r@ == bitfield::with_bit_u32(old(self.w)@, 29, false),
            *final(r) == *final(self.w),
    {
        self.bit(false)
    }

    /// Writes raw bits to the field
    pub fn bit(self, value: bool) -> (r: &'a mut W)
        ensures
            r@ == bitfield::with_bit_u32(old(self.w)@, 29, value),
            *final(r) == *final(self.w),
    {
        let bits: u32 = bitfield::write_bit_u32(self.w.value(), 29, value);
        self.w.bits(bits)
    }
}

/// Reader of field `FD30`
pub type FD30_R = crate::gd32vf103_pac::generic::R<bool, bool>;

/// Write proxy for field `FD30`
pub struct FD30_W<'a> {
    pub w: &'a mut W,
}

impl<'a> FD30_W<'a> {
    /// Sets the field bit
    pub fn set_bit(self) -> (r: &'a mut W)
        ensures
            r@ == bitfield::with_bit_u32(old(self.w)@, 30, true),
            *final(r) == *final(self.w),
    {
        self.bit(true)
    }

    /// Clears the field bit
    pub fn clear_bit(self) -> (r: &'a mut W)
        ensures
            r@ == bitfield::with_bit_u32(old(self.w)@, 30, false),
            *final(r) == *final(self.w),
    {
        self.bit(false)
    }

    /// Writes raw bits to the field
    pub fn bit(self, value: bool) -> (r: &'a mut W)
        ensures
            r@ == bitfield::with_bit_u32(old(self.w)@, 30, value),
            *final(r) == *final(self.w),
    {
        let bits: u32 = bitfield::write_bit_u32(self.w.value(), 30, value);
        self.w.bits(bits)
    }
}

/// Reader of field `FD31`
pub type FD31_R = crate::gd32vf103_pac::generic::R<bool, bool>;

/// Write proxy for field `FD31`
pub struct FD31_W<'a> {
    pub w: &'a mut W,
}

impl<'a> FD31_W<'a> {
    /// Sets the field bit
    pub fn set_bit(self) -> (r: &'a mut W)
        ensures
            r@ == bitfield::with_bit_u32(old(self.w)@, 31, true),
            *final(r) == *final(self.w),
    {
        self.bit(true)
    }

    /// Clears the field bit
    pub fn clear_bit(self) -> (r: &'a mut W)
        ensures
            r@ == bitfield::with_bit_u32(old(self.w)@, 31, false),
            *final(r) == *final(self.w),
    {
        self.bit(false)
    }

    /// Writes raw bits to the field
    pub fn bit(self, value: bool) -> (r: &'a mut W)
        ensures
            r@ == bitfield::with_bit_u32(old(self.w)@, 31, value),
            *final(r) == *final(self.w),
    {
        let bits: u32 = bitfield::write_bit_u32(self.w.value(), 31, value);
        self.w.bits(bits)
    }
}

impl R {
    /// Bit 0 - Filter bits
    pub fn fd0(&self) -> (r: FD0_R)
        ensures
            r@ == bitfield::bit_u32(self@, 0),
    {
        FD0_R::new(bitfield::read_bit_u32(self.bits(), 0))
    }

    /// Bit 1 - Filter bits
    pub fn fd1(&self) -> (r: FD1_R)
        ensures
            r@ == bitfield::bit_u32(self@, 1),
    {
        FD1_R::new(bitfield::read_bit_u32(self.bits(), 1))
    }

    /// Bit 2 - Filter bits
    pub fn fd2(&self) -> (r: FD2_R)
        ensures
            r@ == bitfield::bit_u32(self@, 2),
    {
        FD2_R::new(bitfield::read_bit_u32(self.bits(), 2))
    }

    /// Bit 3 - Filter bits
    pub fn fd3(&self) -> (r: FD3_R)
        ensures
            r@ == bitfield::bit_u32(self@, 3),
    {
        FD3_R::new(bitfield::read_bit_u32(self.bits(), 3))
    }

    /// Bit 4 - Filter bits
    pub fn fd4(&self) -> (r: FD4_R)
        ensures
            r@ == bitfield::bit_u32(self@, 4),
    {
        FD4_R::new(bitfield::read_bit_u32(self.bits(), 4))
    }

    /// Bit 5 - Filter bits
    pub fn fd5(&self) -> (r: FD5_R)
        ensures
            r@ == bitfield::bit_u32(self@, 5),
    {
        FD5_R::new(bitfield::read_bit_u32(self.bits(), 5))
    }

    /// Bit 6 - Filter bits
    pub fn fd6(&self) -> (r: FD6_R)
        ensures
            r@ == bitfield::bit_u32(self@, 6),
    {
        FD6_R::new(bitfield::read_bit_u32(self.bits(), 6))
    }

    /// Bit 7 - Filter bits
    pub fn fd7(&self) -> (r: FD7_R)
        ensures
            r@ == bitfield::bit_u32(self@, 7),
    {
        FD7_R::new(bitfield::read_bit_u32(self.bits(), 7))
    }

    /// Bit 8 - Filter bits
    pub fn fd8(&self) -> (r: FD8_R)
        ensures
            r@ == bitfield::bit_u32(self@, 8),
    {
        FD8_R::new(bitfield::read_bit_u32(self.bits(), 8))
    }

    /// Bit 9 - Filter bits
    pub fn fd9(&self) -> (r: FD9_R)
        ensures
            r@ == bitfield::bit_u32(self@, 9),
    {
        FD9_R::new(bitfield::read_bit_u32(self.bits(), 9))
    }

    /// Bit 10 - Filter bits
    pub fn fd10(&self) -> (r: FD10_R)
        ensures
            r@ == bitfield::bit_u32(self@, 10),
    {
        FD10_R::new(bitfield::read_bit_u32(self.bits(), 10))
    }

    /// Bit 11 - Filter bits
    pub fn fd11(&self) -> (r: FD11_R)
        ensures
            r@ == bitfield::bit_u32(self@, 11),
    {
        FD11_R::new(bitfield::read_bit_u32(self.bits(), 11))
    }

    /// Bit 12 - Filter bits
    pub fn fd12(&self) -> (r: FD12_R)
        ensures
            r@ == bitfield::bit_u32(self@, 12),
    {
        FD12_R::new(bitfield::read_bit_u32(self.bits(), 12))
    }

    /// Bit 13 - Filter bits
    pub fn fd13(&self) -> (r: FD13_R)
        ensures
            r@ == bitfield::bit_u32(self@, 13),
    {
        FD13_R::new(bitfield::read_bit_u32(self.bits(), 13))
    }

    /// Bit 14 - Filter bits
    pub fn fd14(&self) -> (r: FD14_R)
        ensures
            r@ == bitfield::bit_u32(self@, 14),
    {
        FD14_R::new(bitfield::read_bit_u32(self.bits(), 14))
    }

    /// Bit 15 - Filter bits
    pub fn fd15(&self) -> (r: FD15_R)
        ensures
            r@ == bitfield::bit_u32(self@, 15),
    {
        FD15_R::new(bitfield::read_bit_u32(self.bits(), 15))
    }

    /// Bit 16 - Filter bits
    pub fn fd16(&self) -> (r: FD16_R)
        ensures
            r@ == bitfield::bit_u32(self@, 16),
    {
        FD16_R::new(bitfield::read_bit_u32(self.bits(), 16))
    }

    /// Bit 17 - Filter bits
    pub fn fd17(&self) -> (r: FD17_R)
        ensures
            r@ == bitfield::bit_u32(self@, 17),
    {
        FD17_R::new(bitfield::read_bit_u32(self.bits(), 17))
    }

    /// Bit 18 - Filter bits
    pub fn fd18(&self) -> (r: FD18_R)
        ensures
            r@ == bitfield::bit_u32(self@, 18),
    {
        FD18_R::new(bitfield::read_bit_u32(self.bits(), 18))
    }

    /// Bit 19 - Filter bits
    pub fn fd19(&self) -> (r: FD19_R)
        ensures
            r@ == bitfield::bit_u32(self@, 19),
    {
        FD19_R::new(bitfield::read_bit_u32(self.bits(), 19))
    }

    /// Bit 20 - Filter bits
    pub fn fd20(&self) -> (r: FD20_R)
        ensures
            r@ == bitfield::bit_u32(self@, 20),
    {
        FD20_R::new(bitfield::read_bit_u32(self.bits(), 20))
    }

    /// Bit 21 - Filter bits
    pub fn fd21(&self) -> (r: FD21_R)
        ensures
            r@ == bitfield::bit_u32(self@, 21),
    {
        FD21_R::new(bitfield::read_bit_u32(self.bits(), 21))
    }

    /// Bit 22 - Filter bits
    pub fn fd22(&self) -> (r: FD22_R)
        ensures
            r@ == bitfield::bit_u32(self@, 22),
    {
        FD22_R::new(bitfield::read_bit_u32(self.bits(), 22))
    }

    /// Bit 23 - Filter bits
    pub fn fd23(&self) -> (r: FD23_R)
        ensures
            r@ == bitfield::bit_u32(self@, 23),
    {
        FD23_R::new(bitfield::read_bit_u32(self.bits(), 23))
    }

    /// Bit 24 - Filter bits
    pub fn fd24(&self) -> (r: FD24_R)
        ensures
            r@ == bitfield::bit_u32(self@, 24),
    {
        FD24_R::new(bitfield::read_bit_u32(self.bits(), 24))
    }

    /// Bit 25 - Filter bits
    pub fn fd25(&self) -> (r: FD25_R)
        ensures
            r@ == bitfield::bit_u32(self@, 25),
    {
        FD25_R::new(bitfield::read_bit_u32(self.bits(), 25))
    }

    /// Bit 26 - Filter bits
    pub fn fd26(&self) -> (r: FD26_R)
        ensures
            r@ == bitfield::bit_u32(self@, 26),
    {
        FD26_R::new(bitfield::read_bit_u32(self.bits(), 26))
    }

    /// Bit 27 - Filter bits
    pub fn fd27(&self) -> (r: FD27_R)
        ensures
            r@ == bitfield::bit_u32(self@, 27),
    {
        FD27_R::new(bitfield::read_bit_u32(self.bits(), 27))
    }

    /// Bit 28 - Filter bits
    pub fn fd28(&self) -> (r: FD28_R)
        ensures
            r@ == bitfield::bit_u32(self@, 28),
    {
        FD28_R::new(bitfield::read_bit_u32(self.bits(), 28))
    }

    /// Bit 29 - Filter bits
    pub fn fd29(&self) -> (r: FD29_R)
        ensures
            r@ == bitfield::bit_u32(self@, 29),
    {
        FD29_R::new(bitfield::read_bit_u32(self.bits(), 29))
    }

    /// Bit 30 - Filter bits
    pub fn fd30(&self) -> (r: FD30_R)
        ensures
            r@ == bitfield::bit_u32(self@, 30),
    {
        FD30_R::new(bitfield::read_bit_u32(self.bits(), 30))
    }

    /// Bit 31 - Filter bits
    pub fn fd31(&self) -> (r: FD31_R)
        ensures
            r@ == bitfield::bit_u32(self@, 31),
    {
        FD31_R::new(bitfield::read_bit_u32(self.bits(), 31))
    }
}

impl W {
    /// Bit 0 - Filter bits
    pub fn fd0(&mut self) -> (r: FD0_W<'_>)
        ensures
            *r.w == *old(self),
            *final(r.w) == *final(self),
    {
        FD0_W { w: self }
    }

    /// Bit 1 - Filter bits
    pub fn fd1(&mut self) -> (r: FD1_W<'_>)
        ensures
            *r.w == *old(self),
            *final(r.w) == *final(self),
    {
        FD1_W { w: self }
    }

    /// Bit 2 - Filter bits
    pub fn fd2(&mut self) -> (r: FD2_W<'_>)
        ensures
            *r.w == *old(self),
            *final(r.w) == *final(self),
    {
        FD2_W { w: self }
    }

    /// Bit 3 - Filter bits
    pub fn fd3(&mut self) -> (r: FD3_W<'_>)
        ensures
            *r.w == *old(self),
            *final(r.w) == *final(self),
    {
        FD3_W { w: self }
    }

    /// Bit 4 - Filter bits
    pub fn fd4(&mut self) -> (r: FD4_W<'_>)
        ensures
            *r.w == *old(self),
            *final(r.w) == *final(self),
    {
        FD4_W { w: self }
    }

    /// Bit 5 - Filter bits
    pub fn fd5(&mut self) -> (r: FD5_W<'_>)
        ensures
            *r.w == *old(self),
            *final(r.w) == *final(self),
    {
        FD5_W { w: self }
    }

    /// Bit 6 - Filter bits
    pub fn fd6(&mut self) -> (r: FD6_W<'_>)
        ensures
            *r.w == *old(self),
            *final(r.w) == *final(self),
    {
        FD6_W { w: self }
    }

    /// Bit 7 - Filter bits
    pub fn fd7(&mut self) -> (r: FD7_W<'_>)
        ensures
            *r.w == *old(self),
            *final(r.w) == *final(self),
    {
        FD7_W { w: self }
    }

    /// Bit 8 - Filter bits
    pub fn fd8(&mut self) -> (r: FD8_W<'_>)
        ensures
            *r.w == *old(self),
            *final(r.w) == *final(self),
    {
        FD8_W { w: self }
    }

    /// Bit 9 - Filter bits
    pub fn fd9(&mut self) -> (r: FD9_W<'_>)
        ensures
            *r.w == *old(self),
            *final(r.w) == *final(self),
    {
        FD9_W { w: self }
    }

    /// Bit 10 - Filter bits
    pub fn fd10(&mut self) -> (r: FD10_W<'_>)
        ensures
            *r.w == *old(self),
            *final(r.w) == *final(self),
    {
        FD10_W { w: self }
    }

    /// Bit 11 - Filter bits
    pub fn fd11(&mut self) -> (r: FD11_W<'_>)
        ensures
            *r.w == *old(self),
            *final(r.w) == *final(self),
    {
        FD11_W { w: self }
    }

    /// Bit 12 - Filter bits
    pub fn fd12(&mut self) -> (r: FD12_W<'_>)
        ensures
            *r.w == *old(self),
            *final(r.w) == *final(self),
    {
        FD12_W { w: self }
    }

    /// Bit 13 - Filter bits
    pub fn fd13(&mut self) -> (r: FD13_W<'_>)
        ensures
            *r.w == *old(self),
            *final(r.w) == *final(self),
    {
        FD13_W { w: self }
    }

    /// Bit 14 - Filter bits
    pub fn fd14(&mut self) -> (r: FD14_W<'_>)
        ensures
            *r.w == *old(self),
            *final(r.w) == *final(self),
    {
        FD14_W { w: self }
    }

    /// Bit 15 - Filter bits
    pub fn fd15(&mut self) -> (r: FD15_W<'_>)
        ensures
            *r.w == *old(self),
            *final(r.w) == *final(self),
    {
        FD15_W { w: self }
    }

    /// Bit 16 - Filter bits
    pub fn fd16(&mut self) -> (r: FD16_W<'_>)
        ensures
            *r.w == *old(self),
            *final(r.w) == *final(self),
    {
        FD16_W { w: self }
    }

    /// Bit 17 - Filter bits
    pub fn fd17(&mut self) -> (r: FD17_W<'_>)
        ensures
            *r.w == *old(self),
            *final(r.w) == *final(self),
    {
        FD17_W { w: self }
    }

    /// Bit 18 - Filter bits
    pub fn fd18(&mut self) -> (r: FD18_W<'_>)
        ensures
            *r.w == *old(self),
            *final(r.w) == *final(self),
    {
        FD18_W { w: self }
    }

    /// Bit 19 - Filter bits
    pub fn fd19(&mut self) -> (r: FD19_W<'_>)
        ensures
            *r.w == *old(self),
            *final(r.w) == *final(self),
    {
        FD19_W { w: self }
    }

    /// Bit 20 - Filter bits
    pub fn fd20(&mut self) -> (r: FD20_W<'_>)
        ensures
            *r.w == *old(self),
            *final(r.w) == *final(self),
    {
        FD20_W { w: self }
    }

    /// Bit 21 - Filter bits
    pub fn fd21(&mut self) -> (r: FD21_W<'_>)
        ensures
            *r.w == *old(self),
            *final(r.w) == *final(self),
    {
        FD21_W { w: self }
    }

    /// Bit 22 - Filter bits
    pub fn fd22(&mut self) -> (r: FD22_W<'_>)
        ensures
            *r.w == *old(self),
            *final(r.w) == *final(self),
    {
        FD22_W { w: self }
    }

    /// Bit 23 - Filter bits
    pub fn fd23(&mut self) -> (r: FD23_W<'_>)
        ensures
            *r.w == *old(self),
            *final(r.w) == *final(self),
    {
        FD23_W { w: self }
    }

    /// Bit 24 - Filter bits
    pub fn fd24(&mut self) -> (r: FD24_W<'_>)
        ensures
            *r.w == *old(self),
            *final(r.w) == *final(self),
    {
        FD24_W { w: self }
    }

    /// Bit 25 - Filter bits
    pub fn fd25(&mut self) -> (r: FD25_W<'_>)
        ensures
            *r.w == *old(self),
            *final(r.w) == *final(self),
    {
        FD25_W { w: self }
    }

    /// Bit 26 - Filter bits
    pub fn fd26(&mut self) -> (r: FD26_W<'_>)
        ensures
            *r.w == *old(self),
            *final(r.w) == *final(self),
    {
        FD26_W { w: self }
    }

    /// Bit 27 - Filter bits
    pub fn fd27(&mut self) -> (r: FD27_W<'_>)
        ensures
            *r.w == *old(self),
            *final(r.w) == *final(self),
    {
        FD27_W { w: self }
    }

    /// Bit 28 - Filter bits
    pub fn fd28(&mut self) -> (r: FD28_W<'_>)
        ensures
            *r.w == *old(self),
            *final(r.w) == *final(self),
    {
        FD28_W { w: self }
    }

    /// Bit 29 - Filter bits
    pub fn fd29(&mut self) -> (r: FD29_W<'_>)
        ensures
            *r.w == *old(self),
            *final(r.w) == *final(self),
    {
        FD29_W { w: self }
    }

    /// Bit 30 - Filter bits
    pub fn fd30(&mut self) -> (r: FD30_W<'_>)
        ensures
            *r.w == *old(self),
            *final(r.w) == *final(self),
    {
        FD30_W { w: self }
    }

    /// Bit 31 - Filter bits
    pub fn fd31(&mut self) -> (r: FD31_W<'_>)
        ensures
            *r.w == *old(self),
            *final(r.w) == *final(self),
    {
        FD31_W { w: self }
    }
}

} // verus!

use vstd::prelude::*;
use crate::bitfield;

verus! {

/// Reader of register FAFIFO
pub type R = crate::gd32vf103_pac::generic::R<u32, super::FAFIFO>;

/// Writer for register FAFIFO
pub type W = crate::gd32vf103_pac::generic::W<u32, super::FAFIFO>;

/// Register FAFIFO `reset()`'s with value 0
impl crate::gd32vf103_pac::generic::ResetValue for super::FAFIFO {
    type Type = u32;

    open spec fn reset_spec() -> u32 {
        0
    }

    fn reset_value() -> (r: u32) {
        0
    }
}

/// Reader of field `FAF0`
pub type FAF0_R = crate::gd32vf103_pac::generic::R<bool, bool>;

/// Write proxy for field `FAF0`
pub struct FAF0_W<'a> {
    pub w: &'a mut W,
}

impl<'a> FAF0_W<'a> {
    /// Sets the field bit
    pub fn set_bit(self) -> (r: &'a mut W)
        ensures
            r@ == bitfield::with_bit_u32(old(self.w)@, 0, true),
            *final(r) == *final(self.w),
    {
        self.bit(true)
    }

    /// Clears the field bit
    pub fn clear_bit(self) -> (r: &'a mut W)
        ensures
            r@ == bitfield::with_bit_u32(old(self.w)@, 0, false),
            *final(r) == *final(self.w),
    {
        self.bit(false)
    }

    /// Writes raw bits to the field
    pub fn bit(self, value: bool) -> (r: &'a mut W)
        ensures
            r@ == bitfield::with_bit_u32(old(self.w)@, 0, value),
            *final(r) == *final(self.w),
    {
        let bits: u32 = bitfield::write_bit_u32(self.w.value(), 0, value);
        self.w.bits(bits)
    }
}

/// Reader of field `FAF1`
pub type FAF1_R = crate::gd32vf103_pac::generic::R<bool, bool>;

/// Write proxy for field `FAF1`
pub struct FAF1_W<'a> {
    pub w: &'a mut W,
}

impl<'a> FAF1_W<'a> {
    /// Sets the field bit
    pub fn set_bit(self) -> (r: &'a mut W)
        ensures
            r@ == bitfield::with_bit_u32(old(self.w)@, 1, true),
            *final(r) == *final(self.w),
    {
        self.bit(true)
    }

    /// Clears the field bit
    pub fn clear_bit(self) -> (r: &'a mut W)
        ensures
            r@ == bitfield::with_bit_u32(old(self.w)@, 1, false),
            *final(r) == *final(self.w),
    {
        self.bit(false)
    }

    /// Writes raw bits to the field
    pub fn bit(self, value: bool) -> (r: &'a mut W)
        ensures
            r@ == bitfield::with_bit_u32(old(self.w)@, 1, value),
            *final(r) == *final(self.w),
    {
        let bits: u32 = bitfield::write_bit_u32(self.w.value(), 1, value);
        self.w.bits(bits)
    }
}

/// Reader of field `FAF2`
pub type FAF2_R = crate::gd32vf103_pac::generic::R<bool, bool>;

/// Write proxy for field `FAF2`
pub struct FAF2_W<'a> {
    pub w: &'a mut W,
}

impl<'a> FAF2_W<'a> {
    /// Sets the field bit
    pub fn set_bit(self) -> (r: &'a mut W)
        ensures
            r@ == bitfield::with_bit_u32(old(self.w)@, 2, true),
            *final(r) == *final(self.w),
    {
        self.bit(true)
    }

    /// Clears the field bit
    pub fn clear_bit(self) -> (r: &'a mut W)
        ensures
            r@ == bitfield::with_bit_u32(old(self.w)@, 2, false),
            *final(r) == *final(self.w),
    {
        self.bit(false)
    }

    /// Writes raw bits to the field
    pub fn bit(self, value: bool) -> (r: &'a mut W)
        ensures
            r@ == bitfield::with_bit_u32(old(self.w)@, 2, value),
            *final(r) == *final(self.w),
    {
        let bits: u32 = bitfield::write_bit_u32(self.w.value(), 2, value);
        self.w.bits(bits)
    }
}

/// Reader of field `FAF3`
pub type FAF3_R = crate::gd32vf103_pac::generic::R<bool, bool>;

/// Write proxy for field `FAF3`
pub struct FAF3_W<'a> {
    pub w: &'a mut W,
}

impl<'a> FAF3_W<'a> {
    /// Sets the field bit
    pub fn set_bit(self) -> (r: &'a mut W)
        ensures
            r@ == bitfield::with_bit_u32(old(self.w)@, 3, true),
            *final(r) == *final(self.w),
    {
        self.bit(true)
    }

    /// Clears the field bit
    pub fn clear_bit(self) -> (r: &'a mut W)
        ensures
            r@ == bitfield::with_bit_u32(old(self.w)@, 3, false),
            *final(r) == *final(self.w),
    {
        self.bit(false)
    }

    /// Writes raw bits to the field
    pub fn bit(self, value: bool) -> (r: &'a mut W)
        ensures
            r@ == bitfield::with_bit_u32(old(self.w)@, 3, value),
            *final(r) == *final(self.w),
    {
        let bits: u32 = bitfield::write_bit_u32(self.w.value(), 3, value);
        self.w.bits(bits)
    }
}

/// Reader of field `FAF4`
pub type FAF4_R = crate::gd32vf103_pac::generic::R<bool, bool>;

/// Write proxy for field `FAF4`
pub struct FAF4_W<'a> {
    pub w: &'a mut W,
}

impl<'a> FAF4_W<'a> {
    /// Sets the field bit
    pub fn set_bit(self) -> (r: &'a mut W)
        ensures
            r@ == bitfield::with_bit_u32(old(self.w)@, 4, true),
            *final(r) == *final(self.w),
    {
        self.bit(true)
    }

    /// Clears the field bit
    pub fn clear_bit(self) -> (r: &'a mut W)
        ensures
            r@ == bitfield::with_bit_u32(old(self.w)@, 4, false),
            *final(r) == *final(self.w),
    {
        self.bit(false)
    }

    /// Writes raw bits to the field
    pub fn bit(self, value: bool) -> (r: &'a mut W)
        ensures
            r@ == bitfield::with_bit_u32(old(self.w)@, 4, value),
            *final(r) == *final(self.w),
    {
        let bits: u32 = bitfield::write_bit_u32(self.w.value(), 4, value);
        self.w.bits(bits)
    }
}

/// Reader of field `FAF5`
pub type FAF5_R = crate::gd32vf103_pac::generic::R<bool, bool>;

/// Write proxy for field `FAF5`
pub struct FAF5_W<'a> {
    pub w: &'a mut W,
}

impl<'a> FAF5_W<'a> {
    /// Sets the field bit
    pub fn set_bit(self) -> (r: &'a mut W)
        ensures
            r@ == bitfield::with_bit_u32(old(self.w)@, 5, true),
            *final(r) == *final(self.w),
    {
        self.bit(true)
    }

    /// Clears the field bit
    pub fn clear_bit(self) -> (r: &'a mut W)
        ensures
            r@ == bitfield::with_bit_u32(old(self.w)@, 5, false),
            *final(r) == *final(self.w),
    {
        self.bit(false)
    }

    /// Writes raw bits to the field
    pub fn bit(self, value: bool) -> (r: &'a mut W)
        ensures
            r@ == bitfield::with_bit_u32(old(self.w)@, 5, value),
            *final(r) == *final(self.w),
    {
        let bits: u32 = bitfield::write_bit_u32(self.w.value(), 5, value);
        self.w.bits(bits)
    }
}

/// Reader of field `FAF6`
pub type FAF6_R = crate::gd32vf103_pac::generic::R<bool, bool>;

/// Write proxy for field `FAF6`
pub struct FAF6_W<'a> {
    pub w: &'a mut W,
}

impl<'a> FAF6_W<'a> {
    /// Sets the field bit
    pub fn set_bit(self) -> (r: &'a mut W)
        ensures
            r@ == bitfield::with_bit_u32(old(self.w)@, 6, true),
            *final(r) == *final(self.w),
    {
        self.bit(true)
    }

    /// Clears the field bit
    pub fn clear_bit(self) -> (r: &'a mut W)
        ensures
            r@ == bitfield::with_bit_u32(old(self.w)@, 6, false),
            *final(r) == *final(self.w),
    {
        self.bit(false)
    }

    /// Writes raw bits to the field
    pub fn bit(self, value: bool) -> (r: &'a mut W)
        ensures
            r@ == bitfield::with_bit_u32(old(self.w)@, 6, value),
            *final(r) == *final(self.w),
    {
        let bits: u32 = bitfield::write_bit_u32(self.w.value(), 6, value);
        self.w.bits(bits)
    }
}

/// Reader of field `FAF7`
pub type FAF7_R = crate::gd32vf103_pac::generic::R<bool, bool>;

/// Write proxy for field `FAF7`
pub struct FAF7_W<'a> {
    pub w: &'a mut W,
}

impl<'a> FAF7_W<'a> {
    /// Sets the field bit
    pub fn set_bit(self) -> (r: &'a mut W)
        ensures
            r@ == bitfield::with_bit_u32(old(self.w)@, 7, true),
            *final(r) == *final(self.w),
    {
        self.bit(true)
    }

    /// Clears the field bit
    pub fn clear_bit(self) -> (r: &'a mut W)
        ensures
            r@ == bitfield::with_bit_u32(old(self.w)@, 7, false),
            *final(r) == *final(self.w),
    {
        self.bit(false)
    }

    /// Writes raw bits to the field
    pub fn bit(self, value: bool) -> (r: &'a mut W)
        ensures
            r@ == bitfield::with_bit_u32(old(self.w)@, 7, value),
            *final(r) == *final(self.w),
    {
        let bits: u32 = bitfield::write_bit_u32(self.w.value(), 7, value);
        self.w.bits(bits)
    }
}

/// Reader of field `FAF8`
pub type FAF8_R = crate::gd32vf103_pac::generic::R<bool, bool>;

/// Write proxy for field `FAF8`
pub struct FAF8_W<'a> {
    pub w: &'a mut W,
}

impl<'a> FAF8_W<'a> {
    /// Sets the field bit
    pub fn set_bit(self) -> (r: &'a mut W)
        ensures
            r@ == bitfield::with_bit_u32(old(self.w)@, 8, true),
            *final(r) == *final(self.w),
    {
        self.bit(true)
    }

    /// Clears the field bit
    pub fn clear_bit(self) -> (r: &'a mut W)
        ensures
            r@ == bitfield::with_bit_u32(old(self.w)@, 8, false),
            *final(r) == *final(self.w),
    {
        self.bit(false)
    }

    /// Writes raw bits to the field
    pub fn bit(self, value: bool) -> (r: &'a mut W)
        ensures
            r@ == bitfield::with_bit_u32(old(self.w)@, 8, value),
            *final(r) == *final(self.w),
    {
        let bits: u32 = bitfield::write_bit_u32(self.w.value(), 8, value);
        self.w.bits(bits)
    }
}

/// Reader of field `FAF9`
pub type FAF9_R = crate::gd32vf103_pac::generic::R<bool, bool>;

/// Write proxy for field `FAF9`
pub struct FAF9_W<'a> {
    pub w: &'a mut W,
}

impl<'a> FAF9_W<'a> {
    /// Sets the field bit
    pub fn set_bit(self) -> (r: &'a mut W)
        ensures
            r@ == bitfield::with_bit_u32(old(self.w)@, 9, true),
            *final(r) == *final(self.w),
    {
        self.bit(true)
    }

    /// Clears the field bit
    pub fn clear_bit(self) -> (r: &'a mut W)
        ensures
            r@ == bitfield::with_bit_u32(old(self.w)@, 9, false),
            *final(r) == *final(self.w),
    {
        self.bit(false)
    }

    /// Writes raw bits to the field
    pub fn bit(self, value: bool) -> (r: &'a mut W)
        ensures
            r@ == bitfield::with_bit_u32(old(self.w)@, 9, value),
            *final(r) == *final(self.w),
    {
        let bits: u32 = bitfield::write_bit_u32(self.w.value(), 9, value);
        self.w.bits(bits)
    }
}

/// Reader of field `FAF10`
pub type FAF10_R = crate::gd32vf103_pac::generic::R<bool, bool>;

/// Write proxy for field `FAF10`
pub struct FAF10_W<'a> {
    pub w: &'a mut W,
}

impl<'a> FAF10_W<'a> {
    /// Sets the field bit
    pub fn set_bit(self) -> (r: &'a mut W)
        ensures
            r@ == bitfield::with_bit_u32(old(self.w)@, 10, true),
            *final(r) == *final(self.w),
    {
        self.bit(true)
    }

    /// Clears the field bit
    pub fn clear_bit(self) -> (r: &'a mut W)
        ensures
            r@ == bitfield::with_bit_u32(old(self.w)@, 10, false),
            *final(r) == *final(self.w),
    {
        self.bit(false)
    }

    /// Writes raw bits to the field
    pub fn bit(self, value: bool) -> (r: &'a mut W)
        ensures
            r@ == bitfield::with_bit_u32(old(self.w)@, 10, value),
            *final(r) == *final(self.w),
    {
        let bits: u32 = bitfield::write_bit_u32(self.w.value(), 10, value);
        self.w.bits(bits)
    }
}

/// Reader of field `FAF11`
pub type FAF11_R = crate::gd32vf103_pac::generic::R<bool, bool>;

/// Write proxy for field `FAF11`
pub struct FAF11_W<'a> {
    pub w: &'a mut W,
}

impl<'a> FAF11_W<'a> {
    /// Sets the field bit
    pub fn set_bit(self) -> (r: &'a mut W)
        ensures
            r@ == bitfield::with_bit_u32(old(self.w)@, 11, true),
            *final(r) == *final(self.w),
    {
        self.bit(true)
    }

    /// Clears the field bit
    pub fn clear_bit(self) -> (r: &'a mut W)
        ensures
            r@ == bitfield::with_bit_u32(old(self.w)@, 11, false),
            *final(r) == *final(self.w),
    {
        self.bit(false)
    }

    /// Writes raw bits to the field
    pub fn bit(self, value: bool) -> (r: &'a mut W)
        ensures
            r@ == bitfield::with_bit_u32(old(self.w)@, 11, value),
            *final(r) == *final(self.w),
    {
        let bits: u32 = bitfield::write_bit_u32(self.w.value(), 11, value);
        self.w.bits(bits)
    }
}

/// Reader of field `FAF12`
pub type FAF12_R = crate::gd32vf103_pac::generic::R<bool, bool>;

/// Write proxy for field `FAF12`
pub struct FAF12_W<'a> {
    pub w: &'a mut W,
}

impl<'a> FAF12_W<'a> {
    /// Sets the field bit
    pub fn set_bit(self) -> (r: &'a mut W)
        ensures
            r@ == bitfield::with_bit_u32(old(self.w)@, 12, true),
            *final(r) == *final(self.w),
    {
        self.bit(true)
    }

    /// Clears the field bit
    pub fn clear_bit(self) -> (r: &'a mut W)
        ensures
            r@ == bitfield::with_bit_u32(old(self.w)@, 12, false),
            *final(r) == *final(self.w),
    {
        self.bit(false)
    }

    /// Writes raw bits to the field
    pub fn bit(self, value: bool) -> (r: &'a mut W)
        ensures
            r@ == bitfield::with_bit_u32(old(self.w)@, 12, value),
            *final(r) == *final(self.w),
    {
        let bits: u32 = bitfield::write_bit_u32(self.w.value(), 12, value);
        self.w.bits(bits)
    }
}

/// Reader of field `FAF13`
pub type FAF13_R = crate::gd32vf103_pac::generic::R<bool, bool>;

/// Write proxy for field `FAF13`
pub struct FAF13_W<'a> {
    pub w: &'a mut W,
}

impl<'a> FAF13_W<'a> {
    /// Sets the field bit
    pub fn set_bit(self) -> (r: &'a mut W)
        ensures
            r@ == bitfield::with_bit_u32(old(self.w)@, 13, true),
            *final(r) == *final(self.w),
    {
        self.bit(true)
    }

    /// Clears the field bit
    pub fn clear_bit(self) -> (r: &'a mut W)
        ensures
            r@ == bitfield::with_bit_u32(old(self.w)@, 13, false),
            *final(r) == *final(self.w),
    {
        self.bit(false)
    }

    /// Writes raw bits to the field
    pub fn bit(self, value: bool) -> (r: &'a mut W)
        ensures
            r@ == bitfield::with_bit_u32(old(self.w)@, 13, value),
            *final(r) == *final(self.w),
    {
        let bits: u32 = bitfield::write_bit_u32(self.w.value(), 13, value);
        self.w.bits(bits)
    }
}

/// Reader of field `FAF14`
pub type FAF14_R = crate::gd32vf103_pac::generic::R<bool, bool>;

/// Write proxy for field `FAF14`
pub struct FAF14_W<'a> {
    pub w: &'a mut W,
}

impl<'a> FAF14_W<'a> {
    /// Sets the field bit
    pub fn set_bit(self) -> (r: &'a mut W)
        ensures
            r@ == bitfield::with_bit_u32(old(self.w)@, 14, true),
            *final(r) == *final(self.w),
    {
        self.bit(true)
    }

    /// Clears the field bit
    pub fn clear_bit(self) -> (r: &'a mut W)
        ensures
            r@ == bitfield::with_bit_u32(old(self.w)@, 14, false),
            *final(r) == *final(self.w),
    {
        self.bit(false)
    }

    /// Writes raw bits to the field
    pub fn bit(self, value: bool) -> (r: &'a mut W)
        ensures
            r@ == bitfield::with_bit_u32(old(self.w)@, 14, value),
            *final(r) == *final(self.w),
    {
        let bits: u32 = bitfield::write_bit_u32(self.w.value(), 14, value);
        self.w.bits(bits)
    }
}

/// Reader of field `FAF15`
pub type FAF15_R = crate::gd32vf103_pac::generic::R<bool, bool>;

/// Write proxy for field `FAF15`
pub struct FAF15_W<'a> {
    pub w: &'a mut W,
}

impl<'a> FAF15_W<'a> {
    /// Sets the field bit
    pub fn set_bit(self) -> (r: &'a mut W)
        ensures
            r@ == bitfield::with_bit_u32(old(self.w)@, 15, true),
            *final(r) == *final(self.w),
    {
        self.bit(true)
    }

    /// Clears the field bit
    pub fn clear_bit(self) -> (r: &'a mut W)
        ensures
            r@ == bitfield::with_bit_u32(old(self.w)@, 15, false),
            *final(r) == *final(self.w),
    {
        self.bit(false)
    }

    /// Writes raw bits to the field
    pub fn bit(self, value: bool) -> (r: &'a mut W)
        ensures
            r@ == bitfield::with_bit_u32(old(self.w)@, 15, value),
            *final(r) == *final(self.w),
    {
        let bits: u32 = bitfield::write_bit_u32(self.w.value(), 15, value);
        self.w.bits(bits)
    }
}

/// Reader of field `FAF16`
pub type FAF16_R = crate::gd32vf103_pac::generic::R<bool, bool>;

/// Write proxy for field `FAF16`
pub struct FAF16_W<'a> {
    pub w: &'a mut W,
}

impl<'a> FAF16_W<'a> {
    /// Sets the field bit
    pub fn set_bit(self) -> (r: &'a mut W)
        ensures
            r@ == bitfield::with_bit_u32(old(self.w)@, 16, true),
            *final(r) == *final(self.w),
    {
        self.bit(true)
    }

    /// Clears the field bit
    pub fn clear_bit(self) -> (r: &'a mut W)
        ensures
            r@ == bitfield::with_bit_u32(old(self.w)@, 16, false),
            *final(r) == *final(self.w),
    {
        self.bit(false)
    }

    /// Writes raw bits to the field
    pub fn bit(self, value: bool) -> (r: &'a mut W)
        ensures
            r@ == bitfield::with_bit_u32(old(self.w)@, 16, value),
            *final(r) == *final(self.w),
    {
        let bits: u32 = bitfield::write_bit_u32(self.w.value(), 16, value);
        self.w.bits(bits)
    }
}

/// Reader of field `FAF17`
pub type FAF17_R = crate::gd32vf103_pac::generic::R<bool, bool>;

/// Write proxy for field `FAF17`
pub struct FAF17_W<'a> {
    pub w: &'a mut W,
}

impl<'a> FAF17_W<'a> {
    /// Sets the field bit
    pub fn set_bit(self) -> (r: &'a mut W)
        ensures
            r@ == bitfield::with_bit_u32(old(self.w)@, 17, true),
            *final(r) == *final(self.w),
    {
        self.bit(true)
    }

    /// Clears the field bit
    pub fn clear_bit(self) -> (r: &'a mut W)
        ensures
            r@ == bitfield::with_bit_u32(old(self.w)@, 17, false),
            *final(r) == *final(self.w),
    {
        self.bit(false)
    }

    /// Writes raw bits to the field
    pub fn bit(self, value: bool) -> (r: &'a mut W)
        ensures
            r@ == bitfield::with_bit_u32(old(self.w)@, 17, value),
            *final(r) == *final(self.w),
    {
        let bits: u32 = bitfield::write_bit_u32(self.w.value(), 17, value);
        self.w.bits(bits)
    }
}

/// Reader of field `FAF18`
pub type FAF18_R = crate::gd32vf103_pac::generic::R<bool, bool>;

/// Write proxy for field `FAF18`
pub struct FAF18_W<'a> {
    pub w: &'a mut W,
}

impl<'a> FAF18_W<'a> {
    /// Sets the field bit
    pub fn set_bit(self) -> (r: &'a mut W)
        ensures
            r@ == bitfield::with_bit_u32(old(self.w)@, 18, true),
            *final(r) == *final(self.w),
    {
        self.bit(true)
    }

    /// Clears the field bit
    pub fn clear_bit(self) -> (r: &'a mut W)
        ensures
            r@ == bitfield::with_bit_u32(old(self.w)@, 18, false),
            *final(r) == *final(self.w),
    {
        self.bit(false)
    }

    /// Writes raw bits to the field
    pub fn bit(self, value: bool) -> (r: &'a mut W)
        ensures
            r@ == bitfield::with_bit_u32(old(self.w)@, 18, value),
            *final(r) == *final(self.w),
    {
        let bits: u32 = bitfield::write_bit_u32(self.w.value(), 18, value);
        self.w.bits(bits)
    }
}

/// Reader of field `FAF19`
pub type FAF19_R = crate::gd32vf103_pac::generic::R<bool, bool>;

/// Write proxy for field `FAF19`
pub struct FAF19_W<'a> {
    pub w: &'a mut W,
}

impl<'a> FAF19_W<'a> {
    /// Sets the field bit
    pub fn set_bit(self) -> (r: &'a mut W)
        ensures
            r@ == bitfield::with_bit_u32(old(self.w)@, 19, true),
            *final(r) == *final(self.w),
    {
        self.bit(true)
    }

    /// Clears the field bit
    pub fn clear_bit(self) -> (r: &'a mut W)
        ensures
            r@ == bitfield::with_bit_u32(old(self.w)@, 19, false),
            *final(r) == *final(self.w),
    {
        self.bit(false)
    }

    /// Writes raw bits to the field
    pub fn bit(self, value: bool) -> (r: &'a mut W)
        ensures
            r@ == bitfield::with_bit_u32(old(self.w)@, 19, value),
            *final(r) == *final(self.w),
    {
        let bits: u32 = bitfield::write_bit_u32(self.w.value(), 19, value);
        self.w.bits(bits)
    }
}

/// Reader of field `FAF20`
pub type FAF20_R = crate::gd32vf103_pac::generic::R<bool, bool>;

/// Write proxy for field `FAF20`
pub struct FAF20_W<'a> {
    pub w: &'a mut W,
}

impl<'a> FAF20_W<'a> {
    /// Sets the field bit
    pub fn set_bit(self) -> (r: &'a mut W)
        ensures
            r@ == bitfield::with_bit_u32(old(self.w)@, 20, true),
            *final(r) == *final(self.w),
    {
        self.bit(true)
    }

    /// Clears the field bit
    pub fn clear_bit(self) -> (r: &'a mut W)
        ensures
            r@ == bitfield::with_bit_u32(old(self.w)@, 20, false),
            *final(r) == *final(self.w),
    {
        self.bit(false)
    }

    /// Writes raw bits to the field
    pub fn bit(self, value: bool) -> (r: &'a mut W)
        ensures
            r@ == bitfield::with_bit_u32(old(self.w)@, 20, value),
            *final(r) == *final(self.w),
    {
        let bits: u32 = bitfield::write_bit_u32(self.w.value(), 20, value);
        self.w.bits(bits)
    }
}

/// Reader of field `FAF21`
pub type FAF21_R = crate::gd32vf103_pac::generic::R<bool, bool>;

/// Write proxy for field `FAF21`
pub struct FAF21_W<'a> {
    pub w: &'a mut W,
}

impl<'a> FAF21_W<'a> {
    /// Sets the field bit
    pub fn set_bit(self) -> (r: &'a mut W)
        ensures
            r@ == bitfield::with_bit_u32(old(self.w)@, 21, true),
            *final(r) == *final(self.w),
    {
        self.bit(true)
    }

    /// Clears the field bit
    pub fn clear_bit(self) -> (r: &'a mut W)
        ensures
            r@ == bitfield::with_bit_u32(old(self.w)@, 21, false),
            *final(r) == *final(self.w),
    {
        self.bit(false)
    }

    /// Writes raw bits to the field
    pub fn bit(self, value: bool) -> (r: &'a mut W)
        ensures
            r@ == bitfield::with_bit_u32(old(self.w)@, 21, value),
            *final(r) == *final(self.w),
    {
        let bits: u32 = bitfield::write_bit_u32(self.w.value(), 21, value);
        self.w.bits(bits)
    }
}

/// Reader of field `FAF22`
pub type FAF22_R = crate::gd32vf103_pac::generic::R<bool, bool>;

/// Write proxy for field `FAF22`
pub struct FAF22_W<'a> {
    pub w: &'a mut W,
}

impl<'a> FAF22_W<'a> {
    /// Sets the field bit
    pub fn set_bit(self) -> (r: &'a mut W)
        ensures
            r@ == bitfield::with_bit_u32(old(self.w)@, 22, true),
            *final(r) == *final(self.w),
    {
        self.bit(true)
    }

    /// Clears the field bit
    pub fn clear_bit(self) -> (r: &'a mut W)
        ensures
            r@ == bitfield::with_bit_u32(old(self.w)@, 22, false),
            *final(r) == *final(self.w),
    {
        self.bit(false)
    }

    /// Writes raw bits to the field
    pub fn bit(self, value: bool) -> (r: &'a mut W)
        ensures
            r@ == bitfield::with_bit_u32(old(self.w)@, 22, value),
            *final(r) == *final(self.w),
    {
        let bits: u32 = bitfield::write_bit_u32(self.w.value(), 22, value);
        self.w.bits(bits)
    }
}

/// Reader of field `FAF23`
pub type FAF23_R = crate::gd32vf103_pac::generic::R<bool, bool>;

/// Write proxy for field `FAF23`
pub struct FAF23_W<'a> {
    pub w: &'a mut W,
}

impl<'a> FAF23_W<'a> {
    /// Sets the field bit
    pub fn set_bit(self) -> (r: &'a mut W)
        ensures
            r@ == bitfield::with_bit_u32(old(self.w)@, 23, true),
            *final(r) == *final(self.w),
    {
        self.bit(true)
    }

    /// Clears the field bit
    pub fn clear_bit(self) -> (r: &'a mut W)
        ensures
            r@ == bitfield::with_bit_u32(old(self.w)@, 23, false),
            *final(r) == *final(self.w),
    {
        self.bit(false)
    }

    /// Writes raw bits to the field
    pub fn bit(self, value: bool) -> (r: &'a mut W)
        ensures
            r@ == bitfield::with_bit_u32(old(self.w)@, 23, value),
            *final(r) == *final(self.w),
    {
        let bits: u32 = bitfield::write_bit_u32(self.w.value(), 23, value);
        self.w.bits(bits)
    }
}

/// Reader of field `FAF24`
pub type FAF24_R = crate::gd32vf103_pac::generic::R<bool, bool>;

/// Write proxy for field `FAF24`
pub struct FAF24_W<'a> {
    pub w: &'a mut W,
}

impl<'a> FAF24_W<'a> {
    /// Sets the field bit
    pub fn set_bit(self) -> (r: &'a mut W)
        ensures
            r@ == bitfield::with_bit_u32(old(self.w)@, 24, true),
            *final(r) == *final(self.w),
    {
        self.bit(true)
    }

    /// Clears the field bit
    pub fn clear_bit(self) -> (r: &'a mut W)
        ensures
            r@ == bitfield::with_bit_u32(old(self.w)@, 24, false),
            *final(r) == *final(self.w),
    {
        self.bit(false)
    }

    /// Writes raw bits to the field
    pub fn bit(self, value: bool) -> (r: &'a mut W)
        ensures
            r@ == bitfield::with_bit_u32(old(self.w)@, 24, value),
            *final(r) == *final(self.w),
    {
        let bits: u32 = bitfield::write_bit_u32(self.w.value(), 24, value);
        self.w.bits(bits)
    }
}

/// Reader of field `FAF25`
pub type FAF25_R = crate::gd32vf103_pac::generic::R<bool, bool>;

/// Write proxy for field `FAF25`
pub struct FAF25_W<'a> {
    pub w: &'a mut W,
}

impl<'a> FAF25_W<'a> {
    /// Sets the field bit
    pub fn set_bit(self) -> (r: &'a mut W)
        ensures
            r@ == bitfield::with_bit_u32(old(self.w)@, 25, true),
            *final(r) == *final(self.w),
    {
        self.bit(true)
    }

    /// Clears the field bit
    pub fn clear_bit(self) -> (r: &'a mut W)
        ensures
            r@ == bitfield::with_bit_u32(old(self.w)@, 25, false),
            *final(r) == *final(self.w),
    {
        self.bit(false)
    }

    /// Writes raw bits to the field
    pub fn bit(self, value: bool) -> (r: &'a mut W)
        ensures
            r@ == bitfield::with_bit_u32(old(self.w)@, 25, value),
            *final(r) == *final(self.w),
    {
        let bits: u32 = bitfield::write_bit_u32(self.w.value(), 25, value);
        self.w.bits(bits)
    }
}

/// Reader of field `FAF26`
pub type FAF26_R = crate::gd32vf103_pac::generic::R<bool, bool>;

/// Write proxy for field `FAF26`
pub struct FAF26_W<'a> {
    pub w: &'a mut W,
}

impl<'a> FAF26_W<'a> {
    /// Sets the field bit
    pub fn set_bit(self) -> (r: &'a mut W)
        ensures
            r@ == bitfield::with_bit_u32(old(self.w)@, 26, true),
            *final(r) == *final(self.w),
    {
        self.bit(true)
    }

    /// Clears the field bit
    pub fn clear_bit(self) -> (r: &'a mut W)
        ensures
            r@ == bitfield::with_bit_u32(old(self.w)@, 26, false),
            *final(r) == *final(self.w),
    {
        self.bit(false)
    }

    /// Writes raw bits to the field
    pub fn bit(self, value: bool) -> (r: &'a mut W)
        ensures
            r@ == bitfield::with_bit_u32(old(self.w)@, 26, value),
            *final(r) == *final(self.w),
    {
        let bits: u32 = bitfield::write_bit_u32(self.w.value(), 26, value);
        self.w.bits(bits)
    }
}

/// Reader of field `FAF27`
pub type FAF27_R = crate::gd32vf103_pac::generic::R<bool, bool>;

/// Write proxy for field `FAF27`
pub struct FAF27_W<'a> {
    pub w: &'a mut W,
}

impl<'a> FAF27_W<'a> {
    /// Sets the field bit
    pub fn set_bit(self) -> (r: &'a mut W)
        ensures
            r@ == bitfield::with_bit_u32(old(self.w)@, 27, true),
            *final(r) == *final(self.w),
    {
        self.bit(true)
    }

    /// Clears the field bit
    pub fn clear_bit(self) -> (r: &'a mut W)
        ensures
            r@ == bitfield::with_bit_u32(old(self.w)@, 27, false),
            *final(r) == *final(self.w),
    {
        self.bit(false)
    }

    /// Writes raw bits to the field
    pub fn bit(self, value: bool) -> (r: &'a mut W)
        ensures
            r@ == bitfield::with_bit_u32(old(self.w)@, 27, value),
            *final(r) == *final(self.w),
    {
        let bits: u32 = bitfield::write_bit_u32(self.w.value(), 27, value);
        self.w.bits(bits)
    }
}

impl R {
    /// Bit 0 - Filter 0 associated with FIFO
    pub fn faf0(&self) -> (r: FAF0_R)
        ensures
            r@ == bitfield::bit_u32(self@, 0),
    {
        FAF0_R::new(bitfield::read_bit_u32(self.bits(), 0))
    }

    /// Bit 1 - Filter 1 associated with FIFO
    pub fn faf1(&self) -> (r: FAF1_R)
        ensures
            r@ == bitfield::bit_u32(self@, 1),
    {
        FAF1_R::new(bitfield::read_bit_u32(self.bits(), 1))
    }

    /// Bit 2 - Filter 2 associated with FIFO
    pub fn faf2(&self) -> (r: FAF2_R)
        ensures
            r@ == bitfield::bit_u32(self@, 2),
    {
        FAF2_R::new(bitfield::read_bit_u32(self.bits(), 2))
    }

    /// Bit 3 - Filter 3 associated with FIFO
    pub fn faf3(&self) -> (r: FAF3_R)
        ensures
            r@ == bitfield::bit_u32(self@, 3),
    {
        FAF3_R::new(bitfield::read_bit_u32(self.bits(), 3))
    }

    /// Bit 4 - Filter 4 associated with FIFO
    pub fn faf4(&self) -> (r: FAF4_R)
        ensures
            r@ == bitfield::bit_u32(self@, 4),
    {
        FAF4_R::new(bitfield::read_bit_u32(self.bits(), 4))
    }

    /// Bit 5 - Filter 5 associated with FIFO
    pub fn faf5(&self) -> (r: FAF5_R)
        ensures
            r@ == bitfield::bit_u32(self@, 5),
    {
        FAF5_R::new(bitfield::read_bit_u32(self.bits(), 5))
    }

    /// Bit 6 - Filter 6 associated with FIFO
    pub fn faf6(&self) -> (r: FAF6_R)
        ensures
            r@ == bitfield::bit_u32(self@, 6),
    {
        FAF6_R::new(bitfield::read_bit_u32(self.bits(), 6))
    }

    /// Bit 7 - Filter 7 associated with FIFO
    pub fn faf7(&self) -> (r: FAF7_R)
        ensures
            r@ == bitfield::bit_u32(self@, 7),
    {
        FAF7_R::new(bitfield::read_bit_u32(self.bits(), 7))
    }

    /// Bit 8 - Filter 8 associated with FIFO
    pub fn faf8(&self) -> (r: FAF8_R)
        ensures
            r@ == bitfield::bit_u32(self@, 8),
    {
        FAF8_R::new(bitfield::read_bit_u32(self.bits(), 8))
    }

    /// Bit 9 - Filter 9 associated with FIFO
    pub fn faf9(&self) -> (r: FAF9_R)
        ensures
            r@ == bitfield::bit_u32(self@, 9),
    {
        FAF9_R::new(bitfield::read_bit_u32(self.bits(), 9))
    }

    /// Bit 10 - Filter 10 associated with FIFO
    pub fn faf10(&self) -> (r: FAF10_R)
        ensures
            r@ == bitfield::bit_u32(self@, 10),
    {
        FAF10_R::new(bitfield::read_bit_u32(self.bits(), 10))
    }

    /// Bit 11 - Filter 11 associated with FIFO
    pub fn faf11(&self) -> (r: FAF11_R)
        ensures
            r@ == bitfield::bit_u32(self@, 11),
    {
        FAF11_R::new(bitfield::read_bit_u32(self.bits(), 11))
    }

    /// Bit 12 - Filter 12 associated with FIFO
    pub fn faf12(&self) -> (r: FAF12_R)
        ensures
            r@ == bitfield::bit_u32(self@, 12),
    {
        FAF12_R::new(bitfield::read_bit_u32(self.bits(), 12))
    }

    /// Bit 13 - Filter 13 associated with FIFO
    pub fn faf13(&self) -> (r: FAF13_R)
        ensures
            r@ == bitfield::bit_u32(self@, 13),
    {
        FAF13_R::new(bitfield::read_bit_u32(self.bits(), 13))
    }

    /// Bit 14 - Filter 14 associated with FIFO
    pub fn faf14(&self) -> (r: FAF14_R)
        ensures
            r@ == bitfield::bit_u32(self@, 14),
    {
        FAF14_R::new(bitfield::read_bit_u32(self.bits(), 14))
    }

    /// Bit 15 - Filter 15 associated with FIFO
    pub fn faf15(&self) -> (r: FAF15_R)
        ensures
            r@ == bitfield::bit_u32(self@, 15),
    {
        FAF15_R::new(bitfield::read_bit_u32(self.bits(), 15))
    }

    /// Bit 16 - Filter 16 associated with FIFO
    pub fn faf16(&self) -> (r: FAF16_R)
        ensures
            r@ == bitfield::bit_u32(self@, 16),
    {
        FAF16_R::new(bitfield::read_bit_u32(self.bits(), 16))
    }

    /// Bit 17 - Filter 17 associated with FIFO
    pub fn faf17(&self) -> (r: FAF17_R)
        ensures
            r@ == bitfield::bit_u32(self@, 17),
    {
        FAF17_R::new(bitfield::read_bit_u32(self.bits(), 17))
    }

    /// Bit 18 - Filter 18 associated with FIFO
    pub fn faf18(&self) -> (r: FAF18_R)
        ensures
            r@ == bitfield::bit_u32(self@, 18),
    {
        FAF18_R::new(bitfield::read_bit_u32(self.bits(), 18))
    }

    /// Bit 19 - Filter 19 associated with FIFO
    pub fn faf19(&self) -> (r: FAF19_R)
        ensures
            r@ == bitfield::bit_u32(self@, 19),
    {
        FAF19_R::new(bitfield::read_bit_u32(self.bits(), 19))
    }

    /// Bit 20 - Filter 20 associated with FIFO
    pub fn faf20(&self) -> (r: FAF20_R)
        ensures
            r@ == bitfield::bit_u32(self@, 20),
    {
        FAF20_R::new(bitfield::read_bit_u32(self.bits(), 20))
    }

    /// Bit 21 - Filter 21 associated with FIFO
    pub fn faf21(&self) -> (r: FAF21_R)
        ensures
            r@ == bitfield::bit_u32(self@, 21),
    {
        FAF21_R::new(bitfield::read_bit_u32(self.bits(), 21))
    }

    /// Bit 22 - Filter 22 associated with FIFO
    pub fn faf22(&self) -> (r: FAF22_R)
        ensures
            r@ == bitfield::bit_u32(self@, 22),
    {
        FAF22_R::new(bitfield::read_bit_u32(self.bits(), 22))
    }

    /// Bit 23 - Filter 23 associated with FIFO
    pub fn faf23(&self) -> (r: FAF23_R)
        ensures
            r@ == bitfield::bit_u32(self@, 23),
    {
        FAF23_R::new(bitfield::read_bit_u32(self.bits(), 23))
    }

    /// Bit 24 - Filter 24 associated with FIFO
    pub fn faf24(&self) -> (r: FAF24_R)
        ensures
            r@ == bitfield::bit_u32(self@, 24),
    {
        FAF24_R::new(bitfield::read_bit_u32(self.bits(), 24))
    }

    /// Bit 25 - Filter 25 associated with FIFO
    pub fn faf25(&self) -> (r: FAF25_R)
        ensures
            r@ == bitfield::bit_u32(self@, 25),
    {
        FAF25_R::new(bitfield::read_bit_u32(self.bits(), 25))
    }

    /// Bit 26 - Filter 26 associated with FIFO
    pub fn faf26(&self) -> (r: FAF26_R)
        ensures
            r@ == bitfield::bit_u32(self@, 26),
    {
        FAF26_R::new(bitfield::read_bit_u32(self.bits(), 26))
    }

    /// Bit 27 - Filter 27 associated with FIFO
    pub fn faf27(&self) -> (r: FAF27_R)
        ensures
            r@ == bitfield::bit_u32(self@, 27),
    {
        FAF27_R::new(bitfield::read_bit_u32(self.bits(), 27))
    }
}

impl W {
    /// Bit 0 - Filter 0 associated with FIFO
    pub fn faf0(&mut self) -> (r: FAF0_W<'_>)
        ensures
            *r.w == *old(self),
            *final(r.w) == *final(self),
    {
        FAF0_W { w: self }
    }

    /// Bit 1 - Filter 1 associated with FIFO
    pub fn faf1(&mut self) -> (r: FAF1_W<'_>)
        ensures
            *r.w == *old(self),
            *final(r.w) == *final(self),
    {
        FAF1_W { w: self }
    }

    /// Bit 2 - Filter 2 associated with FIFO
    pub fn faf2(&mut self) -> (r: FAF2_W<'_>)
        ensures
            *r.w == *old(self),
            *final(r.w) == *final(self),
    {
        FAF2_W { w: self }
    }

    /// Bit 3 - Filter 3 associated with FIFO
    pub fn faf3(&mut self) -> (r: FAF3_W<'_>)
        ensures
            *r.w == *old(self),
            *final(r.w) == *final(self),
    {
        FAF3_W { w: self }
    }

    /// Bit 4 - Filter 4 associated with FIFO
    pub fn faf4(&mut self) -> (r: FAF4_W<'_>)
        ensures
            *r.w == *old(self),
            *final(r.w) == *final(self),
    {
        FAF4_W { w: self }
    }

    /// Bit 5 - Filter 5 associated with FIFO
    pub fn faf5(&mut self) -> (r: FAF5_W<'_>)
        ensures
            *r.w == *old(self),
            *final(r.w) == *final(self),
    {
        FAF5_W { w: self }
    }

    /// Bit 6 - Filter 6 associated with FIFO
    pub fn faf6(&mut self) -> (r: FAF6_W<'_>)
        ensures
            *r.w == *old(self),
            *final(r.w) == *final(self),
    {
        FAF6_W { w: self }
    }

    /// Bit 7 - Filter 7 associated with FIFO
    pub fn faf7(&mut self) -> (r: FAF7_W<'_>)
        ensures
            *r.w == *old(self),
            *final(r.w) == *final(self),
    {
        FAF7_W { w: self }
    }

    /// Bit 8 - Filter 8 associated with FIFO
    pub fn faf8(&mut self) -> (r: FAF8_W<'_>)
        ensures
            *r.w == *old(self),
            *final(r.w) == *final(self),
    {
        FAF8_W { w: self }
    }

    /// Bit 9 - Filter 9 associated with FIFO
    pub fn faf9(&mut self) -> (r: FAF9_W<'_>)
        ensures
            *r.w == *old(self),
            *final(r.w) == *final(self),
    {
        FAF9_W { w: self }
    }

    /// Bit 10 - Filter 10 associated with FIFO
    pub fn faf10(&mut self) -> (r: FAF10_W<'_>)
        ensures
            *r.w == *old(self),
            *final(r.w) == *final(self),
    {
        FAF10_W { w: self }
    }

    /// Bit 11 - Filter 11 associated with FIFO
    pub fn faf11(&mut self) -> (r: FAF11_W<'_>)
        ensures
            *r.w == *old(self),
            *final(r.w) == *final(self),
    {
        FAF11_W { w: self }
    }

    /// Bit 12 - Filter 12 associated with FIFO
    pub fn faf12(&mut self) -> (r: FAF12_W<'_>)
        ensures
            *r.w == *old(self),
            *final(r.w) == *final(self),
    {
        FAF12_W { w: self }
    }

    /// Bit 13 - Filter 13 associated with FIFO
    pub fn faf13(&mut self) -> (r: FAF13_W<'_>)
        ensures
            *r.w == *old(self),
            *final(r.w) == *final(self),
    {
        FAF13_W { w: self }
    }

    /// Bit 14 - Filter 14 associated with FIFO
    pub fn faf14(&mut self) -> (r: FAF14_W<'_>)
        ensures
            *r.w == *old(self),
            *final(r.w) == *final(self),
    {
        FAF14_W { w: self }
    }

    /// Bit 15 - Filter 15 associated with FIFO
    pub fn faf15(&mut self) -> (r: FAF15_W<'_>)
        ensures
            *r.w == *old(self),
            *final(r.w) == *final(self),
    {
        FAF15_W { w: self }
    }

    /// Bit 16 - Filter 16 associated with FIFO
    pub fn faf16(&mut self) -> (r: FAF16_W<'_>)
        ensures
            *r.w == *old(self),
            *final(r.w) == *final(self),
    {
        FAF16_W { w: self }
    }

    /// Bit 17 - Filter 17 associated with FIFO
    pub fn faf17(&mut self) -> (r: FAF17_W<'_>)
        ensures
            *r.w == *old(self),
            *final(r.w) == *final(self),
    {
        FAF17_W { w: self }
    }

    /// Bit 18 - Filter 18 associated with FIFO
    pub fn faf18(&mut self) -> (r: FAF18_W<'_>)
        ensures
            *r.w == *old(self),
            *final(r.w) == *final(self),
    {
        FAF18_W { w: self }
    }

    /// Bit 19 - Filter 19 associated with FIFO
    pub fn faf19(&mut self) -> (r: FAF19_W<'_>)
        ensures
            *r.w == *old(self),
            *final(r.w) == *final(self),
    {
        FAF19_W { w: self }
    }

    /// Bit 20 - Filter 20 associated with FIFO
    pub fn faf20(&mut self) -> (r: FAF20_W<'_>)
        ensures
            *r.w == *old(self),
            *final(r.w) == *final(self),
    {
        FAF20_W { w: self }
    }

    /// Bit 21 - Filter 21 associated with FIFO
    pub fn faf21(&mut self) -> (r: FAF21_W<'_>)
        ensures
            *r.w == *old(self),
            *final(r.w) == *final(self),
    {
        FAF21_W { w: self }
    }

    /// Bit 22 - Filter 22 associated with FIFO
    pub fn faf22(&mut self) -> (r: FAF22_W<'_>)
        ensures
            *r.w == *old(self),
            *final(r.w) == *final(self),
    {
        FAF22_W { w: self }
    }

    /// Bit 23 - Filter 23 associated with FIFO
    pub fn faf23(&mut self) -> (r: FAF23_W<'_>)
        ensures
            *r.w == *old(self),
            *final(r.w) == *final(self),
    {
        FAF23_W { w: self }
    }

    /// Bit 24 - Filter 24 associated with FIFO
    pub fn faf24(&mut self) -> (r: FAF24_W<'_>)
        ensures
            *r.w == *old(self),
            *final(r.w) == *final(self),
    {
        FAF24_W { w: self }
    }

    /// Bit 25 - Filter 25 associated with FIFO
    pub fn faf25(&mut self) -> (r: FAF25_W<'_>)
        ensures
            *r.w == *old(self),
            *final(r.w) == *final(self),
    {
        FAF25_W { w: self }
    }

    /// Bit 26 - Filter 26 associated with FIFO
    pub fn faf26(&mut self) -> (r: FAF26_W<'_>)
        ensures
            *r.w == *old(self),
            *final(r.w) == *final(self),
    {
        FAF26_W { w: self }
    }

    /// Bit 27 - Filter 27 associated with FIFO
    pub fn faf27(&mut self) -> (r: FAF27_W<'_>)
        ensures
            *r.w == *old(self),
            *final(r.w) == *final(self),
    {
        FAF27_W { w: self }
    }
}

} // verus!

use vstd::prelude::*;
use crate::bitfield;

verus! {

/// Reader of register FW
pub type R = crate::gd32vf103_pac::generic::R<u32, super::FW>;

/// Writer for register FW
pub type W = crate::gd32vf103_pac::generic::W<u32, super::FW>;

/// Register FW `reset()`'s with value 0
impl crate::gd32vf103_pac::generic::ResetValue for super::FW {
    type Type = u32;

    open spec fn reset_spec() -> u32 {
        0
    }

    fn reset_value() -> (r: u32) {
        0
    }
}

/// Reader of field `FW0`
pub type FW0_R = crate::gd32vf103_pac::generic::R<bool, bool>;

/// Write proxy for field `FW0`
pub struct FW0_W<'a> {
    pub w: &'a mut W,
}

impl<'a> FW0_W<'a> {
    /// Sets the field bit
    pub fn set_bit(self) -> (r: &'a mut W)
        ensures
            r@ == bitfield::with_bit_u32(old(self.w)@, 0, true),
            *final(r) == *final(self.w),
    {
        self.bit(true)
    }

    /// Clears the field bit
    pub fn clear_bit(self) -> (r: &'a mut W)
        ensures
            r@ == bitfield::with_bit_u32(old(self.w)@, 0, false),
            *final(r) == *final(self.w),
    {
        self.bit(false)
    }

    /// Writes raw bits to the field
    pub fn bit(self, value: bool) -> (r: &'a mut W)
        ensures
            r@ == bitfield::with_bit_u32(old(self.w)@, 0, value),
            *final(r) == *final(self.w),
    {
        let bits: u32 = bitfield::write_bit_u32(self.w.value(), 0, value);
        self.w.bits(bits)
    }
}

/// Reader of field `FW1`
pub type FW1_R = crate::gd32vf103_pac::generic::R<bool, bool>;

/// Write proxy for field `FW1`
pub struct FW1_W<'a> {
    pub w: &'a mut W,
}

impl<'a> FW1_W<'a> {
    /// Sets the field bit
    pub fn set_bit(self) -> (r: &'a mut W)
        ensures
            r@ == bitfield::with_bit_u32(old(self.w)@, 1, true),
            *final(r) == *final(self.w),
    {
        self.bit(true)
    }

    /// Clears the field bit
    pub fn clear_bit(self) -> (r: &'a mut W)
        ensures
            r@ == bitfield::with_bit_u32(old(self.w)@, 1, false),
            *final(r) == *final(self.w),
    {
        self.bit(false)
    }

    /// Writes raw bits to the field
    pub fn bit(self, value: bool) -> (r: &'a mut W)
        ensures
            r@ == bitfield::with_bit_u32(old(self.w)@, 1, value),
            *final(r) == *final(self.w),
    {
        let bits: u32 = bitfield::write_bit_u32(self.w.value(), 1, value);
        self.w.bits(bits)
    }
}

/// Reader of field `FW2`
pub type FW2_R = crate::gd32vf103_pac::generic::R<bool, bool>;

/// Write proxy for field `FW2`
pub struct FW2_W<'a> {
    pub w: &'a mut W,
}

impl<'a> FW2_W<'a> {
    /// Sets the field bit
    pub fn set_bit(self) -> (r: &'a mut W)
        ensures
            r@ == bitfield::with_bit_u32(old(self.w)@, 2, true),
            *final(r) == *final(self.w),
    {
        self.bit(true)
    }

    /// Clears the field bit
    pub fn clear_bit(self) -> (r: &'a mut W)
        ensures
            r@ == bitfield::with_bit_u32(old(self.w)@, 2, false),
            *final(r) == *final(self.w),
    {
        self.bit(false)
    }

    /// Writes raw bits to the field
    pub fn bit(self, value: bool) -> (r: &'a mut W)
        ensures
            r@ == bitfield::with_bit_u32(old(self.w)@, 2, value),
            *final(r) == *final(self.w),
    {
        let bits: u32 = bitfield::write_bit_u32(self.w.value(), 2, value);
        self.w.bits(bits)
    }
}

/// Reader of field `FW3`
pub type FW3_R = crate::gd32vf103_pac::generic::R<bool, bool>;

/// Write proxy for field `FW3`
pub struct FW3_W<'a> {
    pub w: &'a mut W,
}

impl<'a> FW3_W<'a> {
    /// Sets the field bit
    pub fn set_bit(self) -> (r: &'a mut W)
        ensures
            r@ == bitfield::with_bit_u32(old(self.w)@, 3, true),
            *final(r) == *final(self.w),
    {
        self.bit(true)
    }

    /// Clears the field bit
    pub fn clear_bit(self) -> (r: &'a mut W)
        ensures
            r@ == bitfield::with_bit_u32(old(self.w)@, 3, false),
            *final(r) == *final(self.w),
    {
        self.bit(false)
    }

    /// Writes raw bits to the field
    pub fn bit(self, value: bool) -> (r: &'a mut W)
        ensures
            r@ == bitfield::with_bit_u32(old(self.w)@, 3, value),
            *final(r) == *final(self.w),
    {
        let bits: u32 = bitfield::write_bit_u32(self.w.value(), 3, value);
        self.w.bits(bits)
    }
}

/// Reader of field `FW4`
pub type FW4_R = crate::gd32vf103_pac::generic::R<bool, bool>;

/// Write proxy for field `FW4`
pub struct FW4_W<'a> {
    pub w: &'a mut W,
}

impl<'a> FW4_W<'a> {
    /// Sets the field bit
    pub fn set_bit(self) -> (r: &'a mut W)
        ensures
            r@ == bitfield::with_bit_u32(old(self.w)@, 4, true),
            *final(r) == *final(self.w),
    {
        self.bit(true)
    }

    /// Clears the field bit
    pub fn clear_bit(self) -> (r: &'a mut W)
        ensures
            r@ == bitfield::with_bit_u32(old(self.w)@, 4, false),
            *final(r) == *final(self.w),
    {
        self.bit(false)
    }

    /// Writes raw bits to the field
    pub fn bit(self, value: bool) -> (r: &'a mut W)
        ensures
            r@ == bitfield::with_bit_u32(old(self.w)@, 4, value),
            *final(r) == *final(self.w),
    {
        let bits: u32 = bitfield::write_bit_u32(self.w.value(), 4, value);
        self.w.bits(bits)
    }
}

/// Reader of field `FW5`
pub type FW5_R = crate::gd32vf103_pac::generic::R<bool, bool>;

/// Write proxy for field `FW5`
pub struct FW5_W<'a> {
    pub w: &'a mut W,
}

impl<'a> FW5_W<'a> {
    /// Sets the field bit
    pub fn set_bit(self) -> (r: &'a mut W)
        ensures
            r@ == bitfield::with_bit_u32(old(self.w)@, 5, true),
            *final(r) == *final(self.w),
    {
        self.bit(true)
    }

    /// Clears the field bit
    pub fn clear_bit(self) -> (r: &'a mut W)
        ensures
            r@ == bitfield::with_bit_u32(old(self.w)@, 5, false),
            *final(r) == *final(self.w),
    {
        self.bit(false)
    }

    /// Writes raw bits to the field
    pub fn bit(self, value: bool) -> (r: &'a mut W)
        ensures
            r@ == bitfield::with_bit_u32(old(self.w)@, 5, value),
            *final(r) == *final(self.w),
    {
        let bits: u32 = bitfield::write_bit_u32(self.w.value(), 5, value);
        self.w.bits(bits)
    }
}

/// Reader of field `FW6`
pub type FW6_R = crate::gd32vf103_pac::generic::R<bool, bool>;

/// Write proxy for field `FW6`
pub struct FW6_W<'a> {
    pub w: &'a mut W,
}

impl<'a> FW6_W<'a> {
    /// Sets the field bit
    pub fn set_bit(self) -> (r: &'a mut W)
        ensures
            r@ == bitfield::with_bit_u32(old(self.w)@, 6, true),
            *final(r) == *final(self.w),
    {
        self.bit(true)
    }

    /// Clears the field bit
    pub fn clear_bit(self) -> (r: &'a mut W)
        ensures
            r@ == bitfield::with_bit_u32(old(self.w)@, 6, false),
            *final(r) == *final(self.w),
    {
        self.bit(false)
    }

    /// Writes raw bits to the field
    pub fn bit(self, value: bool) -> (r: &'a mut W)
        ensures
            r@ == bitfield::with_bit_u32(old(self.w)@, 6, value),
            *final(r) == *final(self.w),
    {
        let bits: u32 = bitfield::write_bit_u32(self.w.value(), 6, value);
        self.w.bits(bits)
    }
}

/// Reader of field `FW7`
pub type FW7_R = crate::gd32vf103_pac::generic::R<bool, bool>;

/// Write proxy for field `FW7`
pub struct FW7_W<'a> {
    pub w: &'a mut W,
}

impl<'a> FW7_W<'a> {
    /// Sets the field bit
    pub fn set_bit(self) -> (r: &'a mut W)
        ensures
            r@ == bitfield::with_bit_u32(old(self.w)@, 7, true),
            *final(r) == *final(self.w),
    {
        self.bit(true)
    }

    /// Clears the field bit
    pub fn clear_bit(self) -> (r: &'a mut W)
        ensures
            r@ == bitfield::with_bit_u32(old(self.w)@, 7, false),
            *final(r) == *final(self.w),
    {
        self.bit(false)
    }

    /// Writes raw bits to the field
    pub fn bit(self, value: bool) -> (r: &'a mut W)
        ensures
            r@ == bitfield::with_bit_u32(old(self.w)@, 7, value),
            *final(r) == *final(self.w),
    {
        let bits: u32 = bitfield::write_bit_u32(self.w.value(), 7, value);
        self.w.bits(bits)
    }
}

/// Reader of field `FW8`
pub type FW8_R = crate::gd32vf103_pac::generic::R<bool, bool>;

/// Write proxy for field `FW8`
pub struct FW8_W<'a> {
    pub w: &'a mut W,
}

impl<'a> FW8_W<'a> {
    /// Sets the field bit
    pub fn set_bit(self) -> (r: &'a mut W)
        ensures
            r@ == bitfield::with_bit_u32(old(self.w)@, 8, true),
            *final(r) == *final(self.w),
    {
        self.bit(true)
    }

    /// Clears the field bit
    pub fn clear_bit(self) -> (r: &'a mut W)
        ensures
            r@ == bitfield::with_bit_u32(old(self.w)@, 8, false),
            *final(r) == *final(self.w),
    {
        self.bit(false)
    }

    /// Writes raw bits to the field
    pub fn bit(self, value: bool) -> (r: &'a mut W)
        ensures
            r@ == bitfield::with_bit_u32(old(self.w)@, 8, value),
            *final(r) == *final(self.w),
    {
        let bits: u32 = bitfield::write_bit_u32(self.w.value(), 8, value);
        self.w.bits(bits)
    }
}

/// Reader of field `FW9`
pub type FW9_R = crate::gd32vf103_pac::generic::R<bool, bool>;

/// Write proxy for field `FW9`
pub struct FW9_W<'a> {
    pub w: &'a mut W,
}

impl<'a> FW9_W<'a> {
    /// Sets the field bit
    pub fn set_bit(self) -> (r: &'a mut W)
        ensures
            r@ == bitfield::with_bit_u32(old(self.w)@, 9, true),
            *final(r) == *final(self.w),
    {
        self.bit(true)
    }

    /// Clears the field bit
    pub fn clear_bit(self) -> (r: &'a mut W)
        ensures
            r@ == bitfield::with_bit_u32(old(self.w)@, 9, false),
            *final(r) == *final(self.w),
    {
        self.bit(false)
    }

    /// Writes raw bits to the field
    pub fn bit(self, value: bool) -> (r: &'a mut W)
        ensures
            r@ == bitfield::with_bit_u32(old(self.w)@, 9, value),
            *final(r) == *final(self.w),
    {
        let bits: u32 = bitfield::write_bit_u32(self.w.value(), 9, value);
        self.w.bits(bits)
    }
}

/// Reader of field `FW10`
pub type FW10_R = crate::gd32vf103_pac::generic::R<bool, bool>;

/// Write proxy for field `FW10`
pub struct FW10_W<'a> {
    pub w: &'a mut W,
}

impl<'a> FW10_W<'a> {
    /// Sets the field bit
    pub fn set_bit(self) -> (r: &'a mut W)
        ensures
            r@ == bitfield::with_bit_u32(old(self.w)@, 10, true),
            *final(r) == *final(self.w),
    {
        self.bit(true)
    }

    /// Clears the field bit
    pub fn clear_bit(self) -> (r: &'a mut W)
        ensures
            r@ == bitfield::with_bit_u32(old(self.w)@, 10, false),
            *final(r) == *final(self.w),
    {
        self.bit(false)
    }

    /// Writes raw bits to the field
    pub fn bit(self, value: bool) -> (r: &'a mut W)
        ensures
            r@ == bitfield::with_bit_u32(old(self.w)@, 10, value),
            *final(r) == *final(self.w),
    {
        let bits: u32 = bitfield::write_bit_u32(self.w.value(), 10, value);
        self.w.bits(bits)
    }
}

/// Reader of field `FW11`
pub type FW11_R = crate::gd32vf103_pac::generic::R<bool, bool>;

/// Write proxy for field `FW11`
pub struct FW11_W<'a> {
    pub w: &'a mut W,
}

impl<'a> FW11_W<'a> {
    /// Sets the field bit
    pub fn set_bit(self) -> (r: &'a mut W)
        ensures
            r@ == bitfield::with_bit_u32(old(self.w)@, 11, true),
            *final(r) == *final(self.w),
    {
        self.bit(true)
    }

    /// Clears the field bit
    pub fn clear_bit(self) -> (r: &'a mut W)
        ensures
            r@ == bitfield::with_bit_u32(old(self.w)@, 11, false),
            *final(r) == *final(self.w),
    {
        self.bit(false)
    }

    /// Writes raw bits to the field
    pub fn bit(self, value: bool) -> (r: &'a mut W)
        ensures
            r@ == bitfield::with_bit_u32(old(self.w)@, 11, value),
            *final(r) == *final(self.w),
    {
        let bits: u32 = bitfield::write_bit_u32(self.w.value(), 11, value);
        self.w.bits(bits)
    }
}

/// Reader of field `FW12`
pub type FW12_R = crate::gd32vf103_pac::generic::R<bool, bool>;

/// Write proxy for field `FW12`
pub struct FW12_W<'a> {
    pub w: &'a mut W,
}

impl<'a> FW12_W<'a> {
    /// Sets the field bit
    pub fn set_bit(self) -> (r: &'a mut W)
        ensures
            r@ == bitfield::with_bit_u32(old(self.w)@, 12, true),
            *final(r) == *final(self.w),
    {
        self.bit(true)
    }

    /// Clears the field bit
    pub fn clear_bit(self) -> (r: &'a mut W)
        ensures
            r@ == bitfield::with_bit_u32(old(self.w)@, 12, false),
            *final(r) == *final(self.w),
    {
        self.bit(false)
    }

    /// Writes raw bits to the field
    pub fn bit(self, value: bool) -> (r: &'a mut W)
        ensures
            r@ == bitfield::with_bit_u32(old(self.w)@, 12, value),
            *final(r) == *final(self.w),
    {
        let bits: u32 = bitfield::write_bit_u32(self.w.value(), 12, value);
        self.w.bits(bits)
    }
}

/// Reader of field `FW13`
pub type FW13_R = crate::gd32vf103_pac::generic::R<bool, bool>;

/// Write proxy for field `FW13`
pub struct FW13_W<'a> {
    pub w: &'a mut W,
}

impl<'a> FW13_W<'a> {
    /// Sets the field bit
    pub fn set_bit(self) -> (r: &'a mut W)
        ensures
            r@ == bitfield::with_bit_u32(old(self.w)@, 13, true),
            *final(r) == *final(self.w),
    {
        self.bit(true)
    }

    /// Clears the field bit
    pub fn clear_bit(self) -> (r: &'a mut W)
        ensures
            r@ == bitfield::with_bit_u32(old(self.w)@, 13, false),
            *final(r) == *final(self.w),
    {
        self.bit(false)
    }

    /// Writes raw bits to the field
    pub fn bit(self, value: bool) -> (r: &'a mut W)
        ensures
            r@ == bitfield::with_bit_u32(old(self.w)@, 13, value),
            *final(r) == *final(self.w),
    {
        let bits: u32 = bitfield::write_bit_u32(self.w.value(), 13, value);
        self.w.bits(bits)
    }
}

/// Reader of field `FW14`
pub type FW14_R = crate::gd32vf103_pac::generic::R<bool, bool>;

/// Write proxy for field `FW14`
pub struct FW14_W<'a> {
    pub w: &'a mut W,
}

impl<'a> FW14_W<'a> {
    /// Sets the field bit
    pub fn set_bit(self) -> (r: &'a mut W)
        ensures
            r@ == bitfield::with_bit_u32(old(self.w)@, 14, true),
            *final(r) == *final(self.w),
    {
        self.bit(true)
    }

    /// Clears the field bit
    pub fn clear_bit(self) -> (r: &'a mut W)
        ensures
            r@ == bitfield::with_bit_u32(old(self.w)@, 14, false),
            *final(r) == *final(self.w),
    {
        self.bit(false)
    }

    /// Writes raw bits to the field
    pub fn bit(self, value: bool) -> (r: &'a mut W)
        ensures
            r@ == bitfield::with_bit_u32(old(self.w)@, 14, value),
            *final(r) == *final(self.w),
    {
        let bits: u32 = bitfield::write_bit_u32(self.w.value(), 14, value);
        self.w.bits(bits)
    }
}

/// Reader of field `FW15`
pub type FW15_R = crate::gd32vf103_pac::generic::R<bool, bool>;

/// Write proxy for field `FW15`
pub struct FW15_W<'a> {
    pub w: &'a mut W,
}

impl<'a> FW15_W<'a> {
    /// Sets the field bit
    pub fn set_bit(self) -> (r: &'a mut W)
        ensures
            r@ == bitfield::with_bit_u32(old(self.w)@, 15, true),
            *final(r) == *final(self.w),
    {
        self.bit(true)
    }

    /// Clears the field bit
    pub fn clear_bit(self) -> (r: &'a mut W)
        ensures
            r@ == bitfield::with_bit_u32(old(self.w)@, 15, false),
            *final(r) == *final(self.w),
    {
        self.bit(false)
    }

    /// Writes raw bits to the field
    pub fn bit(self, value: bool) -> (r: &'a mut W)
        ensures
            r@ == bitfield::with_bit_u32(old(self.w)@, 15, value),
            *final(r) == *final(self.w),
    {
        let bits: u32 = bitfield::write_bit_u32(self.w.value(), 15, value);
        self.w.bits(bits)
    }
}

/// Reader of field `FW16`
pub type FW16_R = crate::gd32vf103_pac::generic::R<bool, bool>;

/// Write proxy for field `FW16`
pub struct FW16_W<'a> {
    pub w: &'a mut W,
}

impl<'a> FW16_W<'a> {
    /// Sets the field bit
    pub fn set_bit(self) -> (r: &'a mut W)
        ensures
            r@ == bitfield::with_bit_u32(old(self.w)@, 16, true),
            *final(r) == *final(self.w),
    {
        self.bit(true)
    }

    /// Clears the field bit
    pub fn clear_bit(self) -> (r: &'a mut W)
        ensures
            r@ == bitfield::with_bit_u32(old(self.w)@, 16, false),
            *final(r) == *final(self.w),
    {
        self.bit(false)
    }

    /// Writes raw bits to the field
    pub fn bit(self, value: bool) -> (r: &'a mut W)
        ensures
            r@ == bitfield::with_bit_u32(old(self.w)@, 16, value),
            *final(r) == *final(self.w),
    {
        let bits: u32 = bitfield::write_bit_u32(self.w.value(), 16, value);
        self.w.bits(bits)
    }
}

/// Reader of field `FW17`
pub type FW17_R = crate::gd32vf103_pac::generic::R<bool, bool>;

/// Write proxy for field `FW17`
pub struct FW17_W<'a> {
    pub w: &'a mut W,
}

impl<'a> FW17_W<'a> {
    /// Sets the field bit
    pub fn set_bit(self) -> (r: &'a mut W)
        ensures
            r@ == bitfield::with_bit_u32(old(self.w)@, 17, true),
            *final(r) == *final(self.w),
    {
        self.bit(true)
    }

    /// Clears the field bit
    pub fn clear_bit(self) -> (r: &'a mut W)
        ensures
            r@ == bitfield::with_bit_u32(old(self.w)@, 17, false),
            *final(r) == *final(self.w),
    {
        self.bit(false)
    }

    /// Writes raw bits to the field
    pub fn bit(self, value: bool) -> (r: &'a mut W)
        ensures
            r@ == bitfield::with_bit_u32(old(self.w)@, 17, value),
            *final(r) == *final(self.w),
    {
        let bits: u32 = bitfield::write_bit_u32(self.w.value(), 17, value);
        self.w.bits(bits)
    }
}

/// Reader of field `FW18`
pub type FW18_R = crate::gd32vf103_pac::generic::R<bool, bool>;

/// Write proxy for field `FW18`
pub struct FW18_W<'a> {
    pub w: &'a mut W,
}

impl<'a> FW18_W<'a> {
    /// Sets the field bit
    pub fn set_bit(self) -> (r: &'a mut W)
        ensures
            r@ == bitfield::with_bit_u32(old(self.w)@, 18, true),
            *final(r) == *final(self.w),
    {
        self.bit(true)
    }

    /// Clears the field bit
    pub fn clear_bit(self) -> (r: &'a mut W)
        ensures
            r@ == bitfield::with_bit_u32(old(self.w)@, 18, false),
            *final(r) == *final(self.w),
    {
        self.bit(false)
    }

    /// Writes raw bits to the field
    pub fn bit(self, value: bool) -> (r: &'a mut W)
        ensures
            r@ == bitfield::with_bit_u32(old(self.w)@, 18, value),
            *final(r) == *final(self.w),
    {
        let bits: u32 = bitfield::write_bit_u32(self.w.value(), 18, value);
        self.w.bits(bits)
    }
}

/// Reader of field `FW19`
pub type FW19_R = crate::gd32vf103_pac::generic::R<bool, bool>;

/// Write proxy for field `FW19`
pub struct FW19_W<'a> {
    pub w: &'a mut W,
}

impl<'a> FW19_W<'a> {
    /// Sets the field bit
    pub fn set_bit(self) -> (r: &'a mut W)
        ensures
            r@ == bitfield::with_bit_u32(old(self.w)@, 19, true),
            *final(r) == *final(self.w),
    {
        self.bit(true)
    }

    /// Clears the field bit
    pub fn clear_bit(self) -> (r: &'a mut W)
        ensures
            r@ == bitfield::with_bit_u32(old(self.w)@, 19, false),
            *final(r) == *final(self.w),
    {
        self.bit(false)
    }

    /// Writes raw bits to the field
    pub fn bit(self, value: bool) -> (r: &'a mut W)
        ensures
            r@ == bitfield::with_bit_u32(old(self.w)@, 19, value),
            *final(r) == *final(self.w),
    {
        let bits: u32 = bitfield::write_bit_u32(self.w.value(), 19, value);
        self.w.bits(bits)
    }
}

/// Reader of field `FW20`
pub type FW20_R = crate::gd32vf103_pac::generic::R<bool, bool>;

/// Write proxy for field `FW20`
pub struct FW20_W<'a> {
    pub w: &'a mut W,
}

impl<'a> FW20_W<'a> {
    /// Sets the field bit
    pub fn set_bit(self) -> (r: &'a mut W)
        ensures
            r@ == bitfield::with_bit_u32(old(self.w)@, 20, true),
            *final(r) == *final(self.w),
    {
        self.bit(true)
    }

    /// Clears the field bit
    pub fn clear_bit(self) -> (r: &'a mut W)
        ensures
            r@ == bitfield::with_bit_u32(old(self.w)@, 20, false),
            *final(r) == *final(self.w),
    {
        self.bit(false)
    }

    /// Writes raw bits to the field
    pub fn bit(self, value: bool) -> (r: &'a mut W)
        ensures
            r@ == bitfield::with_bit_u32(old(self.w)@, 20, value),
            *final(r) == *final(self.w),
    {
        let bits: u32 = bitfield::write_bit_u32(self.w.value(), 20, value);
        self.w.bits(bits)
    }
}

/// Reader of field `FW21`
pub type FW21_R = crate::gd32vf103_pac::generic::R<bool, bool>;

/// Write proxy for field `FW21`
pub struct FW21_W<'a> {
    pub w: &'a mut W,
}

impl<'a> FW21_W<'a> {
    /// Sets the field bit
    pub fn set_bit(self) -> (r: &'a mut W)
        ensures
            r@ == bitfield::with_bit_u32(old(self.w)@, 21, true),
            *final(r) == *final(self.w),
    {
        self.bit(true)
    }

    /// Clears the field bit
    pub fn clear_bit(self) -> (r: &'a mut W)
        ensures
            r@ == bitfield::with_bit_u32(old(self.w)@, 21, false),
            *final(r) == *final(self.w),
    {
        self.bit(false)
    }

    /// Writes raw bits to the field
    pub fn bit(self, value: bool) -> (r: &'a mut W)
        ensures
            r@ == bitfield::with_bit_u32(old(self.w)@, 21, value),
            *final(r) == *final(self.w),
    {
        let bits: u32 = bitfield::write_bit_u32(self.w.value(), 21, value);
        self.w.bits(bits)
    }
}

/// Reader of field `FW22`
pub type FW22_R = crate::gd32vf103_pac::generic::R<bool, bool>;

/// Write proxy for field `FW22`
pub struct FW22_W<'a> {
    pub w: &'a mut W,
}

impl<'a> FW22_W<'a> {
    /// Sets the field bit
    pub fn set_bit(self) -> (r: &'a mut W)
        ensures
            r@ == bitfield::with_bit_u32(old(self.w)@, 22, true),
            *final(r) == *final(self.w),
    {
        self.bit(true)
    }

    /// Clears the field bit
    pub fn clear_bit(self) -> (r: &'a mut W)
        ensures
            r@ == bitfield::with_bit_u32(old(self.w)@, 22, false),
            *final(r) == *final(self.w),
    {
        self.bit(false)
    }

    /// Writes raw bits to the field
    pub fn bit(self, value: bool) -> (r: &'a mut W)
        ensures
            r@ == bitfield::with_bit_u32(old(self.w)@, 22, value),
            *final(r) == *final(self.w),
    {
        let bits: u32 = bitfield::write_bit_u32(self.w.value(), 22, value);
        self.w.bits(bits)
    }
}

/// Reader of field `FW23`
pub type FW23_R = crate::gd32vf103_pac::generic::R<bool, bool>;

/// Write proxy for field `FW23`
pub struct FW23_W<'a> {
    pub w: &'a mut W,
}

impl<'a> FW23_W<'a> {
    /// Sets the field bit
    pub fn set_bit(self) -> (r: &'a mut W)
        ensures
            r@ == bitfield::with_bit_u32(old(self.w)@, 23, true),
            *final(r) == *final(self.w),
    {
        self.bit(true)
    }

    /// Clears the field bit
    pub fn clear_bit(self) -> (r: &'a mut W)
        ensures
            r@ == bitfield::with_bit_u32(old(self.w)@, 23, false),
            *final(r) == *final(self.w),
    {
        self.bit(false)
    }

    /// Writes raw bits to the field
    pub fn bit(self, value: bool) -> (r: &'a mut W)
        ensures
            r@ == bitfield::with_bit_u32(old(self.w)@, 23, value),
            *final(r) == *final(self.w),
    {
        let bits: u32 = bitfield::write_bit_u32(self.w.value(), 23, value);
        self.w.bits(bits)
    }
}

/// Reader of field `FW24`
pub type FW24_R = crate::gd32vf103_pac::generic::R<bool, bool>;

/// Write proxy for field `FW24`
pub struct FW24_W<'a> {
    pub w: &'a mut W,
}

impl<'a> FW24_W<'a> {
    /// Sets the field bit
    pub fn set_bit(self) -> (r: &'a mut W)
        ensures
            r@ == bitfield::with_bit_u32(old(self.w)@, 24, true),
            *final(r) == *final(self.w),
    {
        self.bit(true)
    }

    /// Clears the field bit
    pub fn clear_bit(self) -> (r: &'a mut W)
        ensures
            r@ == bitfield::with_bit_u32(old(self.w)@, 24, false),
            *final(r) == *final(self.w),
    {
        self.bit(false)
    }

    /// Writes raw bits to the field
    pub fn bit(self, value: bool) -> (r: &'a mut W)
        ensures
            r@ == bitfield::with_bit_u32(old(self.w)@, 24, value),
            *final(r) == *final(self.w),
    {
        let bits: u32 = bitfield::write_bit_u32(self.w.value(), 24, value);
        self.w.bits(bits)
    }
}

/// Reader of field `FW25`
pub type FW25_R = crate::gd32vf103_pac::generic::R<bool, bool>;

/// Write proxy for field `FW25`
pub struct FW25_W<'a> {
    pub w: &'a mut W,
}

impl<'a> FW25_W<'a> {
    /// Sets the field bit
    pub fn set_bit(self) -> (r: &'a mut W)
        ensures
            r@ == bitfield::with_bit_u32(old(self.w)@, 25, true),
            *final(r) == *final(self.w),
    {
        self.bit(true)
    }

    /// Clears the field bit
    pub fn clear_bit(self) -> (r: &'a mut W)
        ensures
            r@ == bitfield::with_bit_u32(old(self.w)@, 25, false),
            *final(r) == *final(self.w),
    {
        self.bit(false)
    }

    /// Writes raw bits to the field
    pub fn bit(self, value: bool) -> (r: &'a mut W)
        ensures
            r@ == bitfield::with_bit_u32(old(self.w)@, 25, value),
            *final(r) == *final(self.w),
    {
        let bits: u32 = bitfield::write_bit_u32(self.w.value(), 25, value);
        self.w.bits(bits)
    }
}

/// Reader of field `FW26`
pub type FW26_R = crate::gd32vf103_pac::generic::R<bool, bool>;

/// Write proxy for field `FW26`
pub struct FW26_W<'a> {
    pub w: &'a mut W,
}

impl<'a> FW26_W<'a> {
    /// Sets the field bit
    pub fn set_bit(self) -> (r: &'a mut W)
        ensures
            r@ == bitfield::with_bit_u32(old(self.w)@, 26, true),
            *final(r) == *final(self.w),
    {
        self.bit(true)
    }

    /// Clears the field bit
    pub fn clear_bit(self) -> (r: &'a mut W)
        ensures
            r@ == bitfield::with_bit_u32(old(self.w)@, 26, false),
            *final(r) == *final(self.w),
    {
        self.bit(false)
    }

    /// Writes raw bits to the field
    pub fn bit(self, value: bool) -> (r: &'a mut W)
        ensures
            r@ == bitfield::with_bit_u32(old(self.w)@, 26, value),
            *final(r) == *final(self.w),
    {
        let bits: u32 = bitfield::write_bit_u32(self.w.value(), 26, value);
        self.w.bits(bits)
    }
}

/// Reader of field `FW27`
pub type FW27_R = crate::gd32vf103_pac::generic::R<bool, bool>;

/// Write proxy for field `FW27`
pub struct FW27_W<'a> {
    pub w: &'a mut W,
}

impl<'a> FW27_W<'a> {
    /// Sets the field bit
    pub fn set_bit(self) -> (r: &'a mut W)
        ensures
            r@ == bitfield::with_bit_u32(old(self.w)@, 27, true),
            *final(r) == *final(self.w),
    {
        self.bit(true)
    }

    /// Clears the field bit
    pub fn clear_bit(self) -> (r: &'a mut W)
        ensures
            r@ == bitfield::with_bit_u32(old(self.w)@, 27, false),
            *final(r) == *final(self.w),
    {
        self.bit(false)
    }

    /// Writes raw bits to the field
    pub fn bit(self, value: bool) -> (r: &'a mut W)
        ensures
            r@ == bitfield::with_bit_u32(old(self.w)@, 27, value),
            *final(r) == *final(self.w),
    {
        let bits: u32 = bitfield::write_bit_u32(self.w.value(), 27, value);
        self.w.bits(bits)
    }
}

impl R {
    /// Bit 0 - Filter working
    pub fn fw0(&self) -> (r: FW0_R)
        ensures
            r@ == bitfield::bit_u32(self@, 0),
    {
        FW0_R::new(bitfield::read_bit_u32(self.bits(), 0))
    }

    /// Bit 1 - Filter working
    pub fn fw1(&self) -> (r: FW1_R)
        ensures
            r@ == bitfield::bit_u32(self@, 1),
    {
        FW1_R::new(bitfield::read_bit_u32(self.bits(), 1))
    }

    /// Bit 2 - Filter working
    pub fn fw2(&self) -> (r: FW2_R)
        ensures
            r@ == bitfield::bit_u32(self@, 2),
    {
        FW2_R::new(bitfield::read_bit_u32(self.bits(), 2))
    }

    /// Bit 3 - Filter working
    pub fn fw3(&self) -> (r: FW3_R)
        ensures
            r@ == bitfield::bit_u32(self@, 3),
    {
        FW3_R::new(bitfield::read_bit_u32(self.bits(), 3))
    }

    /// Bit 4 - Filter working
    pub fn fw4(&self) -> (r: FW4_R)
        ensures
            r@ == bitfield::bit_u32(self@, 4),
    {
        FW4_R::new(bitfield::read_bit_u32(self.bits(), 4))
    }

    /// Bit 5 - Filter working
    pub fn fw5(&self) -> (r: FW5_R)
        ensures
            r@ == bitfield::bit_u32(self@, 5),
    {
        FW5_R::new(bitfield::read_bit_u32(self.bits(), 5))
    }

    /// Bit 6 - Filter working
    pub fn fw6(&self) -> (r: FW6_R)
        ensures
            r@ == bitfield::bit_u32(self@, 6),
    {
        FW6_R::new(bitfield::read_bit_u32(self.bits(), 6))
    }

    /// Bit 7 - Filter working
    pub fn fw7(&self) -> (r: FW7_R)
        ensures
            r@ == bitfield::bit_u32(self@, 7),
    {
        FW7_R::new(bitfield::read_bit_u32(self.bits(), 7))
    }

    /// Bit 8 - Filter working
    pub fn fw8(&self) -> (r: FW8_R)
        ensures
            r@ == bitfield::bit_u32(self@, 8),
    {
        FW8_R::new(bitfield::read_bit_u32(self.bits(), 8))
    }

    /// Bit 9 - Filter working
    pub fn fw9(&self) -> (r: FW9_R)
        ensures
            r@ == bitfield::bit_u32(self@, 9),
    {
        FW9_R::new(bitfield::read_bit_u32(self.bits(), 9))
    }

    /// Bit 10 - Filter working
    pub fn fw10(&self) -> (r: FW10_R)
        ensures
            r@ == bitfield::bit_u32(self@, 10),
    {
        FW10_R::new(bitfield::read_bit_u32(self.bits(), 10))
    }

    /// Bit 11 - Filter working
    pub fn fw11(&self) -> (r: FW11_R)
        ensures
            r@ == bitfield::bit_u32(self@, 11),
    {
        FW11_R::new(bitfield::read_bit_u32(self.bits(), 11))
    }

    /// Bit 12 - Filter working
    pub fn fw12(&self) -> (r: FW12_R)
        ensures
            r@ == bitfield::bit_u32(self@, 12),
    {
        FW12_R::new(bitfield::read_bit_u32(self.bits(), 12))
    }

    /// Bit 13 - Filter working
    pub fn fw13(&self) -> (r: FW13_R)
        ensures
            r@ == bitfield::bit_u32(self@, 13),
    {
        FW13_R::new(bitfield::read_bit_u32(self.bits(), 13))
    }

    /// Bit 14 - Filter working
    pub fn fw14(&self) -> (r: FW14_R)
        ensures
            r@ == bitfield::bit_u32(self@, 14),
    {
        FW14_R::new(bitfield::read_bit_u32(self.bits(), 14))
    }

    /// Bit 15 - Filter working
    pub fn fw15(&self) -> (r: FW15_R)
        ensures
            r@ == bitfield::bit_u32(self@, 15),
    {
        FW15_R::new(bitfield::read_bit_u32(self.bits(), 15))
    }

    /// Bit 16 - Filter working
    pub fn fw16(&self) -> (r: FW16_R)
        ensures
            r@ == bitfield::bit_u32(self@, 16),
    {
        FW16_R::new(bitfield::read_bit_u32(self.bits(), 16))
    }

    /// Bit 17 - Filter working
    pub fn fw17(&self) -> (r: FW17_R)
        ensures
            r@ == bitfield::bit_u32(self@, 17),
    {
        FW17_R::new(bitfield::read_bit_u32(self.bits(), 17))
    }

    /// Bit 18 - Filter working
    pub fn fw18(&self) -> (r: FW18_R)
        ensures
            r@ == bitfield::bit_u32(self@, 18),
    {
        FW18_R::new(bitfield::read_bit_u32(self.bits(), 18))
    }

    /// Bit 19 - Filter working
    pub fn fw19(&self) -> (r: FW19_R)
        ensures
            r@ == bitfield::bit_u32(self@, 19),
    {
        FW19_R::new(bitfield::read_bit_u32(self.bits(), 19))
    }

    /// Bit 20 - Filter working
    pub fn fw20(&self) -> (r: FW20_R)
        ensures
            r@ == bitfield::bit_u32(self@, 20),
    {
        FW20_R::new(bitfield::read_bit_u32(self.bits(), 20))
    }

    /// Bit 21 - Filter working
    pub fn fw21(&self) -> (r: FW21_R)
        ensures
            r@ == bitfield::bit_u32(self@, 21),
    {
        FW21_R::new(bitfield::read_bit_u32(self.bits(), 21))
    }

    /// Bit 22 - Filter working
    pub fn fw22(&self) -> (r: FW22_R)
        ensures
            r@ == bitfield::bit_u32(self@, 22),
    {
        FW22_R::new(bitfield::read_bit_u32(self.bits(), 22))
    }

    /// Bit 23 - Filter working
    pub fn fw23(&self) -> (r: FW23_R)
        ensures
            r@ == bitfield::bit_u32(self@, 23),
    {
        FW23_R::new(bitfield::read_bit_u32(self.bits(), 23))
    }

    /// Bit 24 - Filter working
    pub fn fw24(&self) -> (r: FW24_R)
        ensures
            r@ == bitfield::bit_u32(self@, 24),
    {
        FW24_R::new(bitfield::read_bit_u32(self.bits(), 24))
    }

    /// Bit 25 - Filter working
    pub fn fw25(&self) -> (r: FW25_R)
        ensures
            r@ == bitfield::bit_u32(self@, 25),
    {
        FW25_R::new(bitfield::read_bit_u32(self.bits(), 25))
    }

    /// Bit 26 - Filter working
    pub fn fw26(&self) -> (r: FW26_R)
        ensures
            r@ == bitfield::bit_u32(self@, 26),
    {
        FW26_R::new(bitfield::read_bit_u32(self.bits(), 26))
    }

    /// Bit 27 - Filter working
    pub fn fw27(&self) -> (r: FW27_R)
        ensures
            r@ == bitfield::bit_u32(self@, 27),
    {
        FW27_R::new(bitfield::read_bit_u32(self.bits(), 27))
    }
}

impl W {
    /// Bit 0 - Filter working
    pub fn fw0(&mut self) -> (r: FW0_W<'_>)
        ensures
            *r.w == *old(self),
            *final(r.w) == *final(self),
    {
        FW0_W { w: self }
    }

    /// Bit 1 - Filter working
    pub fn fw1(&mut self) -> (r: FW1_W<'_>)
        ensures
            *r.w == *old(self),
            *final(r.w) == *final(self),
    {
        FW1_W { w: self }
    }

    /// Bit 2 - Filter working
    pub fn fw2(&mut self) -> (r: FW2_W<'_>)
        ensures
            *r.w == *old(self),
            *final(r.w) == *final(self),
    {
        FW2_W { w: self }
    }

    /// Bit 3 - Filter working
    pub fn fw3(&mut self) -> (r: FW3_W<'_>)
        ensures
            *r.w == *old(self),
            *final(r.w) == *final(self),
    {
        FW3_W { w: self }
    }

    /// Bit 4 - Filter working
    pub fn fw4(&mut self) -> (r: FW4_W<'_>)
        ensures
            *r.w == *old(self),
            *final(r.w) == *final(self),
    {
        FW4_W { w: self }
    }

    /// Bit 5 - Filter working
    pub fn fw5(&mut self) -> (r: FW5_W<'_>)
        ensures
            *r.w == *old(self),
            *final(r.w) == *final(self),
    {
        FW5_W { w: self }
    }

    /// Bit 6 - Filter working
    pub fn fw6(&mut self) -> (r: FW6_W<'_>)
        ensures
            *r.w == *old(self),
            *final(r.w) == *final(self),
    {
        FW6_W { w: self }
    }

    /// Bit 7 - Filter working
    pub fn fw7(&mut self) -> (r: FW7_W<'_>)
        ensures
            *r.w == *old(self),
            *final(r.w) == *final(self),
    {
        FW7_W { w: self }
    }

    /// Bit 8 - Filter working
    pub fn fw8(&mut self) -> (r: FW8_W<'_>)
        ensures
            *r.w == *old(self),
            *final(r.w) == *final(self),
    {
        FW8_W { w: self }
    }

    /// Bit 9 - Filter working
    pub fn fw9(&mut self) -> (r: FW9_W<'_>)
        ensures
            *r.w == *old(self),
            *final(r.w) == *final(self),
    {
        FW9_W { w: self }
    }

    /// Bit 10 - Filter working
    pub fn fw10(&mut self) -> (r: FW10_W<'_>)
        ensures
            *r.w == *old(self),
            *final(r.w) == *final(self),
    {
        FW10_W { w: self }
    }

    /// Bit 11 - Filter working
    pub fn fw11(&mut self) -> (r: FW11_W<'_>)
        ensures
            *r.w == *old(self),
            *final(r.w) == *final(self),
    {
        FW11_W { w: self }
    }

    /// Bit 12 - Filter working
    pub fn fw12(&mut self) -> (r: FW12_W<'_>)
        ensures
            *r.w == *old(self),
            *final(r.w) == *final(self),
    {
        FW12_W { w: self }
    }

    /// Bit 13 - Filter working
    pub fn fw13(&mut self) -> (r: FW13_W<'_>)
        ensures
            *r.w == *old(self),
            *final(r.w) == *final(self),
    {
        FW13_W { w: self }
    }

    /// Bit 14 - Filter working
    pub fn fw14(&mut self) -> (r: FW14_W<'_>)
        ensures
            *r.w == *old(self),
            *final(r.w) == *final(self),
    {
        FW14_W { w: self }
    }

    /// Bit 15 - Filter working
    pub fn fw15(&mut self) -> (r: FW15_W<'_>)
        ensures
            *r.w == *old(self),
            *final(r.w) == *final(self),
    {
        FW15_W { w: self }
    }

    /// Bit 16 - Filter working
    pub fn fw16(&mut self) -> (r: FW16_W<'_>)
        ensures
            *r.w == *old(self),
            *final(r.w) == *final(self),
    {
        FW16_W { w: self }
    }

    /// Bit 17 - Filter working
    pub fn fw17(&mut self) -> (r: FW17_W<'_>)
        ensures
            *r.w == *old(self),
            *final(r.w) == *final(self),
    {
        FW17_W { w: self }
    }

    /// Bit 18 - Filter working
    pub fn fw18(&mut self) -> (r: FW18_W<'_>)
        ensures
            *r.w == *old(self),
            *final(r.w) == *final(self),
    {
        FW18_W { w: self }
    }

    /// Bit 19 - Filter working
    pub fn fw19(&mut self) -> (r: FW19_W<'_>)
        ensures
            *r.w == *old(self),
            *final(r.w) == *final(self),
    {
        FW19_W { w: self }
    }

    /// Bit 20 - Filter working
    pub fn fw20(&mut self) -> (r: FW20_W<'_>)
        ensures
            *r.w == *old(self),
            *final(r.w) == *final(self),
    {
        FW20_W { w: self }
    }

    /// Bit 21 - Filter working
    pub fn fw21(&mut self) -> (r: FW21_W<'_>)
        ensures
            *r.w == *old(self),
            *final(r.w) == *final(self),
    {
        FW21_W { w: self }
    }

    /// Bit 22 - Filter working
    pub fn fw22(&mut self) -> (r: FW22_W<'_>)
        ensures
            *r.w == *old(self),
            *final(r.w) == *final(self),
    {
        FW22_W { w: self }
    }

    /// Bit 23 - Filter working
    pub fn fw23(&mut self) -> (r: FW23_W<'_>)
        ensures
            *r.w == *old(self),
            *final(r.w) == *final(self),
    {
        FW23_W { w: self }
    }

    /// Bit 24 - Filter working
    pub fn fw24(&mut self) -> (r: FW24_W<'_>)
        ensures
            *r.w == *old(self),
            *final(r.w) == *final(self),
    {
        FW24_W { w: self }
    }

    /// Bit 25 - Filter working
    pub fn fw25(&mut self) -> (r: FW25_W<'_>)
        ensures
            *r.w == *old(self),
            *final(r.w) == *final(self),
    {
        FW25_W { w: self }
    }

    /// Bit 26 - Filter working
    pub fn fw26(&mut self) -> (r: FW26_W<'_>)
        ensures
            *r.w == *old(self),
            *final(r.w) == *final(self),
    {
        FW26_W { w: self }
    }

    /// Bit 27 - Filter working
    pub fn fw27(&mut self) -> (r: FW27_W<'_>)
        ensures
            *r.w == *old(self),
            *final(r.w) == *final(self),
    {
        FW27_W { w: self }
    }
}

} // verus!

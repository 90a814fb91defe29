use vstd::prelude::*;
use crate::bitfield;

verus! {

/// Reader of register FSCFG
pub type R = crate::gd32vf103_pac::generic::R<u32, super::FSCFG>;

/// Writer for register FSCFG
pub type W = crate::gd32vf103_pac::generic::W<u32, super::FSCFG>;

/// Register FSCFG `reset()`'s with value 0
impl crate::gd32vf103_pac::generic::ResetValue for super::FSCFG {
    type Type = u32;

    open spec fn reset_spec() -> u32 {
        0
    }

    fn reset_value() -> (r: u32) {
        0
    }
}

/// Reader of field `FS0`
pub type FS0_R = crate::gd32vf103_pac::generic::R<bool, bool>;

/// Write proxy for field `FS0`
pub struct FS0_W<'a> {
    pub w: &'a mut W,
}

impl<'a> FS0_W<'a> {
    /// Sets the field bit
    pub fn set_bit(self) -> (r: &'a mut W)
        ensures
            r@ == bitfield::with_bit_u32(old(self.w)@, 0, true),
            *final(r) == *final(self.w),
    {
        self.bit(true)
    }

    /// Clears the field bit
    pub fn clear_bit(self) -> (r: &'a mut W)
        ensures
            r@ == bitfield::with_bit_u32(old(self.w)@, 0, false),
            *final(r) == *final(self.w),
    {
        self.bit(false)
    }

    /// Writes raw bits to the field
    pub fn bit(self, value: bool) -> (r: &'a mut W)
        ensures
            r@ == bitfield::with_bit_u32(old(self.w)@, 0, value),
            *final(r) == *final(self.w),
    {
        let bits: u32 = bitfield::write_bit_u32(self.w.value(), 0, value);
        self.w.bits(bits)
    }
}

/// Reader of field `FS1`
pub type FS1_R = crate::gd32vf103_pac::generic::R<bool, bool>;

/// Write proxy for field `FS1`
pub struct FS1_W<'a> {
    pub w: &'a mut W,
}

impl<'a> FS1_W<'a> {
    /// Sets the field bit
    pub fn set_bit(self) -> (r: &'a mut W)
        ensures
            r@ == bitfield::with_bit_u32(old(self.w)@, 1, true),
            *final(r) == *final(self.w),
    {
        self.bit(true)
    }

    /// Clears the field bit
    pub fn clear_bit(self) -> (r: &'a mut W)
        ensures
            r@ == bitfield::with_bit_u32(old(self.w)@, 1, false),
            *final(r) == *final(self.w),
    {
        self.bit(false)
    }

    /// Writes raw bits to the field
    pub fn bit(self, value: bool) -> (r: &'a mut W)
        ensures
            r@ == bitfield::with_bit_u32(old(self.w)@, 1, value),
            *final(r) == *final(self.w),
    {
        let bits: u32 = bitfield::write_bit_u32(self.w.value(), 1, value);
        self.w.bits(bits)
    }
}

/// Reader of field `FS2`
pub type FS2_R = crate::gd32vf103_pac::generic::R<bool, bool>;

/// Write proxy for field `FS2`
pub struct FS2_W<'a> {
    pub w: &'a mut W,
}

impl<'a> FS2_W<'a> {
    /// Sets the field bit
    pub fn set_bit(self) -> (r: &'a mut W)
        ensures
            r@ == bitfield::with_bit_u32(old(self.w)@, 2, true),
            *final(r) == *final(self.w),
    {
        self.bit(true)
    }

    /// Clears the field bit
    pub fn clear_bit(self) -> (r: &'a mut W)
        ensures
            r@ == bitfield::with_bit_u32(old(self.w)@, 2, false),
            *final(r) == *final(self.w),
    {
        self.bit(false)
    }

    /// Writes raw bits to the field
    pub fn bit(self, value: bool) -> (r: &'a mut W)
        ensures
            r@ == bitfield::with_bit_u32(old(self.w)@, 2, value),
            *final(r) == *final(self.w),
    {
        let bits: u32 = bitfield::write_bit_u32(self.w.value(), 2, value);
        self.w.bits(bits)
    }
}

/// Reader of field `FS3`
pub type FS3_R = crate::gd32vf103_pac::generic::R<bool, bool>;

/// Write proxy for field `FS3`
pub struct FS3_W<'a> {
    pub w: &'a mut W,
}

impl<'a> FS3_W<'a> {
    /// Sets the field bit
    pub fn set_bit(self) -> (r: &'a mut W)
        ensures
            r@ == bitfield::with_bit_u32(old(self.w)@, 3, true),
            *final(r) == *final(self.w),
    {
        self.bit(true)
    }

    /// Clears the field bit
    pub fn clear_bit(self) -> (r: &'a mut W)
        ensures
            r@ == bitfield::with_bit_u32(old(self.w)@, 3, false),
            *final(r) == *final(self.w),
    {
        self.bit(false)
    }

    /// Writes raw bits to the field
    pub fn bit(self, value: bool) -> (r: &'a mut W)
        ensures
            r@ == bitfield::with_bit_u32(old(self.w)@, 3, value),
            *final(r) == *final(self.w),
    {
        let bits: u32 = bitfield::write_bit_u32(self.w.value(), 3, value);
        self.w.bits(bits)
    }
}

/// Reader of field `FS4`
pub type FS4_R = crate::gd32vf103_pac::generic::R<bool, bool>;

/// Write proxy for field `FS4`
pub struct FS4_W<'a> {
    pub w: &'a mut W,
}

impl<'a> FS4_W<'a> {
    /// Sets the field bit
    pub fn set_bit(self) -> (r: &'a mut W)
        ensures
            r@ == bitfield::with_bit_u32(old(self.w)@, 4, true),
            *final(r) == *final(self.w),
    {
        self.bit(true)
    }

    /// Clears the field bit
    pub fn clear_bit(self) -> (r: &'a mut W)
        ensures
            r@ == bitfield::with_bit_u32(old(self.w)@, 4, false),
            *final(r) == *final(self.w),
    {
        self.bit(false)
    }

    /// Writes raw bits to the field
    pub fn bit(self, value: bool) -> (r: &'a mut W)
        ensures
            r@ == bitfield::with_bit_u32(old(self.w)@, 4, value),
            *final(r) == *final(self.w),
    {
        let bits: u32 = bitfield::write_bit_u32(self.w.value(), 4, value);
        self.w.bits(bits)
    }
}

/// Reader of field `FS5`
pub type FS5_R = crate::gd32vf103_pac::generic::R<bool, bool>;

/// Write proxy for field `FS5`
pub struct FS5_W<'a> {
    pub w: &'a mut W,
}

impl<'a> FS5_W<'a> {
    /// Sets the field bit
    pub fn set_bit(self) -> (r: &'a mut W)
        ensures
            r@ == bitfield::with_bit_u32(old(self.w)@, 5, true),
            *final(r) == *final(self.w),
    {
        self.bit(true)
    }

    /// Clears the field bit
    pub fn clear_bit(self) -> (r: &'a mut W)
        ensures
            r@ == bitfield::with_bit_u32(old(self.w)@, 5, false),
            *final(r) == *final(self.w),
    {
        self.bit(false)
    }

    /// Writes raw bits to the field
    pub fn bit(self, value: bool) -> (r: &'a mut W)
        ensures
            r@ == bitfield::with_bit_u32(old(self.w)@, 5, value),
            *final(r) == *final(self.w),
    {
        let bits: u32 = bitfield::write_bit_u32(self.w.value(), 5, value);
        self.w.bits(bits)
    }
}

/// Reader of field `FS6`
pub type FS6_R = crate::gd32vf103_pac::generic::R<bool, bool>;

/// Write proxy for field `FS6`
pub struct FS6_W<'a> {
    pub w: &'a mut W,
}

impl<'a> FS6_W<'a> {
    /// Sets the field bit
    pub fn set_bit(self) -> (r: &'a mut W)
        ensures
            r@ == bitfield::with_bit_u32(old(self.w)@, 6, true),
            *final(r) == *final(self.w),
    {
        self.bit(true)
    }

    /// Clears the field bit
    pub fn clear_bit(self) -> (r: &'a mut W)
        ensures
            r@ == bitfield::with_bit_u32(old(self.w)@, 6, false),
            *final(r) == *final(self.w),
    {
        self.bit(false)
    }

    /// Writes raw bits to the field
    pub fn bit(self, value: bool) -> (r: &'a mut W)
        ensures
            r@ == bitfield::with_bit_u32(old(self.w)@, 6, value),
            *final(r) == *final(self.w),
    {
        let bits: u32 = bitfield::write_bit_u32(self.w.value(), 6, value);
        self.w.bits(bits)
    }
}

/// Reader of field `FS7`
pub type FS7_R = crate::gd32vf103_pac::generic::R<bool, bool>;

/// Write proxy for field `FS7`
pub struct FS7_W<'a> {
    pub w: &'a mut W,
}

impl<'a> FS7_W<'a> {
    /// Sets the field bit
    pub fn set_bit(self) -> (r: &'a mut W)
        ensures
            r@ == bitfield::with_bit_u32(old(self.w)@, 7, true),
            *final(r) == *final(self.w),
    {
        self.bit(true)
    }

    /// Clears the field bit
    pub fn clear_bit(self) -> (r: &'a mut W)
        ensures
            r@ == bitfield::with_bit_u32(old(self.w)@, 7, false),
            *final(r) == *final(self.w),
    {
        self.bit(false)
    }

    /// Writes raw bits to the field
    pub fn bit(self, value: bool) -> (r: &'a mut W)
        ensures
            r@ == bitfield::with_bit_u32(old(self.w)@, 7, value),
            *final(r) == *final(self.w),
    {
        let bits: u32 = bitfield::write_bit_u32(self.w.value(), 7, value);
        self.w.bits(bits)
    }
}

/// Reader of field `FS8`
pub type FS8_R = crate::gd32vf103_pac::generic::R<bool, bool>;

/// Write proxy for field `FS8`
pub struct FS8_W<'a> {
    pub w: &'a mut W,
}

impl<'a> FS8_W<'a> {
    /// Sets the field bit
    pub fn set_bit(self) -> (r: &'a mut W)
        ensures
            r@ == bitfield::with_bit_u32(old(self.w)@, 8, true),
            *final(r) == *final(self.w),
    {
        self.bit(true)
    }

    /// Clears the field bit
    pub fn clear_bit(self) -> (r: &'a mut W)
        ensures
            r@ == bitfield::with_bit_u32(old(self.w)@, 8, false),
            *final(r) == *final(self.w),
    {
        self.bit(false)
    }

    /// Writes raw bits to the field
    pub fn bit(self, value: bool) -> (r: &'a mut W)
        ensures
            r@ == bitfield::with_bit_u32(old(self.w)@, 8, value),
            *final(r) == *final(self.w),
    {
        let bits: u32 = bitfield::write_bit_u32(self.w.value(), 8, value);
        self.w.bits(bits)
    }
}

/// Reader of field `FS9`
pub type FS9_R = crate::gd32vf103_pac::generic::R<bool, bool>;

/// Write proxy for field `FS9`
pub struct FS9_W<'a> {
    pub w: &'a mut W,
}

impl<'a> FS9_W<'a> {
    /// Sets the field bit
    pub fn set_bit(self) -> (r: &'a mut W)
        ensures
            r@ == bitfield::with_bit_u32(old(self.w)@, 9, true),
            *final(r) == *final(self.w),
    {
        self.bit(true)
    }

    /// Clears the field bit
    pub fn clear_bit(self) -> (r: &'a mut W)
        ensures
            r@ == bitfield::with_bit_u32(old(self.w)@, 9, false),
            *final(r) == *final(self.w),
    {
        self.bit(false)
    }

    /// Writes raw bits to the field
    pub fn bit(self, value: bool) -> (r: &'a mut W)
        ensures
            r@ == bitfield::with_bit_u32(old(self.w)@, 9, value),
            *final(r) == *final(self.w),
    {
        let bits: u32 = bitfield::write_bit_u32(self.w.value(), 9, value);
        self.w.bits(bits)
    }
}

/// Reader of field `FS10`
pub type FS10_R = crate::gd32vf103_pac::generic::R<bool, bool>;

/// Write proxy for field `FS10`
pub struct FS10_W<'a> {
    pub w: &'a mut W,
}

impl<'a> FS10_W<'a> {
    /// Sets the field bit
    pub fn set_bit(self) -> (r: &'a mut W)
        ensures
            r@ == bitfield::with_bit_u32(old(self.w)@, 10, true),
            *final(r) == *final(self.w),
    {
        self.bit(true)
    }

    /// Clears the field bit
    pub fn clear_bit(self) -> (r: &'a mut W)
        ensures
            r@ == bitfield::with_bit_u32(old(self.w)@, 10, false),
            *final(r) == *final(self.w),
    {
        self.bit(false)
    }

    /// Writes raw bits to the field
    pub fn bit(self, value: bool) -> (r: &'a mut W)
        ensures
            r@ == bitfield::with_bit_u32(old(self.w)@, 10, value),
            *final(r) == *final(self.w),
    {
        let bits: u32 = bitfield::write_bit_u32(self.w.value(), 10, value);
        self.w.bits(bits)
    }
}

/// Reader of field `FS11`
pub type FS11_R = crate::gd32vf103_pac::generic::R<bool, bool>;

/// Write proxy for field `FS11`
pub struct FS11_W<'a> {
    pub w: &'a mut W,
}

impl<'a> FS11_W<'a> {
    /// Sets the field bit
    pub fn set_bit(self) -> (r: &'a mut W)
        ensures
            r@ == bitfield::with_bit_u32(old(self.w)@, 11, true),
            *final(r) == *final(self.w),
    {
        self.bit(true)
    }

    /// Clears the field bit
    pub fn clear_bit(self) -> (r: &'a mut W)
        ensures
            r@ == bitfield::with_bit_u32(old(self.w)@, 11, false),
            *final(r) == *final(self.w),
    {
        self.bit(false)
    }

    /// Writes raw bits to the field
    pub fn bit(self, value: bool) -> (r: &'a mut W)
        ensures
            r@ == bitfield::with_bit_u32(old(self.w)@, 11, value),
            *final(r) == *final(self.w),
    {
        let bits: u32 = bitfield::write_bit_u32(self.w.value(), 11, value);
        self.w.bits(bits)
    }
}

/// Reader of field `FS12`
pub type FS12_R = crate::gd32vf103_pac::generic::R<bool, bool>;

/// Write proxy for field `FS12`
pub struct FS12_W<'a> {
    pub w: &'a mut W,
}

impl<'a> FS12_W<'a> {
    /// Sets the field bit
    pub fn set_bit(self) -> (r: &'a mut W)
        ensures
            r@ == bitfield::with_bit_u32(old(self.w)@, 12, true),
            *final(r) == *final(self.w),
    {
        self.bit(true)
    }

    /// Clears the field bit
    pub fn clear_bit(self) -> (r: &'a mut W)
        ensures
            r@ == bitfield::with_bit_u32(old(self.w)@, 12, false),
            *final(r) == *final(self.w),
    {
        self.bit(false)
    }

    /// Writes raw bits to the field
    pub fn bit(self, value: bool) -> (r: &'a mut W)
        ensures
            r@ == bitfield::with_bit_u32(old(self.w)@, 12, value),
            *final(r) == *final(self.w),
    {
        let bits: u32 = bitfield::write_bit_u32(self.w.value(), 12, value);
        self.w.bits(bits)
    }
}

/// Reader of field `FS13`
pub type FS13_R = crate::gd32vf103_pac::generic::R<bool, bool>;

/// Write proxy for field `FS13`
pub struct FS13_W<'a> {
    pub w: &'a mut W,
}

impl<'a> FS13_W<'a> {
    /// Sets the field bit
    pub fn set_bit(self) -> (r: &'a mut W)
        ensures
            r@ == bitfield::with_bit_u32(old(self.w)@, 13, true),
            *final(r) == *final(self.w),
    {
        self.bit(true)
    }

    /// Clears the field bit
    pub fn clear_bit(self) -> (r: &'a mut W)
        ensures
            r@ == bitfield::with_bit_u32(old(self.w)@, 13, false),
            *final(r) == *final(self.w),
    {
        self.bit(false)
    }

    /// Writes raw bits to the field
    pub fn bit(self, value: bool) -> (r: &'a mut W)
        ensures
            r@ == bitfield::with_bit_u32(old(self.w)@, 13, value),
            *final(r) == *final(self.w),
    {
        let bits: u32 = bitfield::write_bit_u32(self.w.value(), 13, value);
        self.w.bits(bits)
    }
}

/// Reader of field `FS14`
pub type FS14_R = crate::gd32vf103_pac::generic::R<bool, bool>;

/// Write proxy for field `FS14`
pub struct FS14_W<'a> {
    pub w: &'a mut W,
}

impl<'a> FS14_W<'a> {
    /// Sets the field bit
    pub fn set_bit(self) -> (r: &'a mut W)
        ensures
            r@ == bitfield::with_bit_u32(old(self.w)@, 14, true),
            *final(r) == *final(self.w),
    {
        self.bit(true)
    }

    /// Clears the field bit
    pub fn clear_bit(self) -> (r: &'a mut W)
        ensures
            r@ == bitfield::with_bit_u32(old(self.w)@, 14, false),
            *final(r) == *final(self.w),
    {
        self.bit(false)
    }

    /// Writes raw bits to the field
    pub fn bit(self, value: bool) -> (r: &'a mut W)
        ensures
            r@ == bitfield::with_bit_u32(old(self.w)@, 14, value),
            *final(r) == *final(self.w),
    {
        let bits: u32 = bitfield::write_bit_u32(self.w.value(), 14, value);
        self.w.bits(bits)
    }
}

/// Reader of field `FS15`
pub type FS15_R = crate::gd32vf103_pac::generic::R<bool, bool>;

/// Write proxy for field `FS15`
pub struct FS15_W<'a> {
    pub w: &'a mut W,
}

impl<'a> FS15_W<'a> {
    /// Sets the field bit
    pub fn set_bit(self) -> (r: &'a mut W)
        ensures
            r@ == bitfield::with_bit_u32(old(self.w)@, 15, true),
            *final(r) == *final(self.w),
    {
        self.bit(true)
    }

    /// Clears the field bit
    pub fn clear_bit(self) -> (r: &'a mut W)
        ensures
            r@ == bitfield::with_bit_u32(old(self.w)@, 15, false),
            *final(r) == *final(self.w),
    {
        self.bit(false)
    }

    /// Writes raw bits to the field
    pub fn bit(self, value: bool) -> (r: &'a mut W)
        ensures
            r@ == bitfield::with_bit_u32(old(self.w)@, 15, value),
            *final(r) == *final(self.w),
    {
        let bits: u32 = bitfield::write_bit_u32(self.w.value(), 15, value);
        self.w.bits(bits)
    }
}

/// Reader of field `FS16`
pub type FS16_R = crate::gd32vf103_pac::generic::R<bool, bool>;

/// Write proxy for field `FS16`
pub struct FS16_W<'a> {
    pub w: &'a mut W,
}

impl<'a> FS16_W<'a> {
    /// Sets the field bit
    pub fn set_bit(self) -> (r: &'a mut W)
        ensures
            r@ == bitfield::with_bit_u32(old(self.w)@, 16, true),
            *final(r) == *final(self.w),
    {
        self.bit(true)
    }

    /// Clears the field bit
    pub fn clear_bit(self) -> (r: &'a mut W)
        ensures
            r@ == bitfield::with_bit_u32(old(self.w)@, 16, false),
            *final(r) == *final(self.w),
    {
        self.bit(false)
    }

    /// Writes raw bits to the field
    pub fn bit(self, value: bool) -> (r: &'a mut W)
        ensures
            r@ == bitfield::with_bit_u32(old(self.w)@, 16, value),
            *final(r) == *final(self.w),
    {
        let bits: u32 = bitfield::write_bit_u32(self.w.value(), 16, value);
        self.w.bits(bits)
    }
}

/// Reader of field `FS17`
pub type FS17_R = crate::gd32vf103_pac::generic::R<bool, bool>;

/// Write proxy for field `FS17`
pub struct FS17_W<'a> {
    pub w: &'a mut W,
}

impl<'a> FS17_W<'a> {
    /// Sets the field bit
    pub fn set_bit(self) -> (r: &'a mut W)
        ensures
            r@ == bitfield::with_bit_u32(old(self.w)@, 17, true),
            *final(r) == *final(self.w),
    {
        self.bit(true)
    }

    /// Clears the field bit
    pub fn clear_bit(self) -> (r: &'a mut W)
        ensures
            r@ == bitfield::with_bit_u32(old(self.w)@, 17, false),
            *final(r) == *final(self.w),
    {
        self.bit(false)
    }

    /// Writes raw bits to the field
    pub fn bit(self, value: bool) -> (r: &'a mut W)
        ensures
            r@ == bitfield::with_bit_u32(old(self.w)@, 17, value),
            *final(r) == *final(self.w),
    {
        let bits: u32 = bitfield::write_bit_u32(self.w.value(), 17, value);
        self.w.bits(bits)
    }
}

/// Reader of field `FS18`
pub type FS18_R = crate::gd32vf103_pac::generic::R<bool, bool>;

/// Write proxy for field `FS18`
pub struct FS18_W<'a> {
    pub w: &'a mut W,
}

impl<'a> FS18_W<'a> {
    /// Sets the field bit
    pub fn set_bit(self) -> (r: &'a mut W)
        ensures
            r@ == bitfield::with_bit_u32(old(self.w)@, 18, true),
            *final(r) == *final(self.w),
    {
        self.bit(true)
    }

    /// Clears the field bit
    pub fn clear_bit(self) -> (r: &'a mut W)
        ensures
            r@ == bitfield::with_bit_u32(old(self.w)@, 18, false),
            *final(r) == *final(self.w),
    {
        self.bit(false)
    }

    /// Writes raw bits to the field
    pub fn bit(self, value: bool) -> (r: &'a mut W)
        ensures
            r@ == bitfield::with_bit_u32(old(self.w)@, 18, value),
            *final(r) == *final(self.w),
    {
        let bits: u32 = bitfield::write_bit_u32(self.w.value(), 18, value);
        self.w.bits(bits)
    }
}

/// Reader of field `FS19`
pub type FS19_R = crate::gd32vf103_pac::generic::R<bool, bool>;

/// Write proxy for field `FS19`
pub struct FS19_W<'a> {
    pub w: &'a mut W,
}

impl<'a> FS19_W<'a> {
    /// Sets the field bit
    pub fn set_bit(self) -> (r: &'a mut W)
        ensures
            r@ == bitfield::with_bit_u32(old(self.w)@, 19, true),
            *final(r) == *final(self.w),
    {
        self.bit(true)
    }

    /// Clears the field bit
    pub fn clear_bit(self) -> (r: &'a mut W)
        ensures
            r@ == bitfield::with_bit_u32(old(self.w)@, 19, false),
            *final(r) == *final(self.w),
    {
        self.bit(false)
    }

    /// Writes raw bits to the field
    pub fn bit(self, value: bool) -> (r: &'a mut W)
        ensures
            r@ == bitfield::with_bit_u32(old(self.w)@, 19, value),
            *final(r) == *final(self.w),
    {
        let bits: u32 = bitfield::write_bit_u32(self.w.value(), 19, value);
        self.w.bits(bits)
    }
}

/// Reader of field `FS20`
pub type FS20_R = crate::gd32vf103_pac::generic::R<bool, bool>;

/// Write proxy for field `FS20`
pub struct FS20_W<'a> {
    pub w: &'a mut W,
}

impl<'a> FS20_W<'a> {
    /// Sets the field bit
    pub fn set_bit(self) -> (r: &'a mut W)
        ensures
            r@ == bitfield::with_bit_u32(old(self.w)@, 20, true),
            *final(r) == *final(self.w),
    {
        self.bit(true)
    }

    /// Clears the field bit
    pub fn clear_bit(self) -> (r: &'a mut W)
        ensures
            r@ == bitfield::with_bit_u32(old(self.w)@, 20, false),
            *final(r) == *final(self.w),
    {
        self.bit(false)
    }

    /// Writes raw bits to the field
    pub fn bit(self, value: bool) -> (r: &'a mut W)
        ensures
            r@ == bitfield::with_bit_u32(old(self.w)@, 20, value),
            *final(r) == *final(self.w),
    {
        let bits: u32 = bitfield::write_bit_u32(self.w.value(), 20, value);
        self.w.bits(bits)
    }
}

/// Reader of field `FS21`
pub type FS21_R = crate::gd32vf103_pac::generic::R<bool, bool>;

/// Write proxy for field `FS21`
pub struct FS21_W<'a> {
    pub w: &'a mut W,
}

impl<'a> FS21_W<'a> {
    /// Sets the field bit
    pub fn set_bit(self) -> (r: &'a mut W)
        ensures
            r@ == bitfield::with_bit_u32(old(self.w)@, 21, true),
            *final(r) == *final(self.w),
    {
        self.bit(true)
    }

    /// Clears the field bit
    pub fn clear_bit(self) -> (r: &'a mut W)
        ensures
            r@ == bitfield::with_bit_u32(old(self.w)@, 21, false),
            *final(r) == *final(self.w),
    {
        self.bit(false)
    }

    /// Writes raw bits to the field
    pub fn bit(self, value: bool) -> (r: &'a mut W)
        ensures
            r@ == bitfield::with_bit_u32(old(self.w)@, 21, value),
            *final(r) == *final(self.w),
    {
        let bits: u32 = bitfield::write_bit_u32(self.w.value(), 21, value);
        self.w.bits(bits)
    }
}

/// Reader of field `FS22`
pub type FS22_R = crate::gd32vf103_pac::generic::R<bool, bool>;

/// Write proxy for field `FS22`
pub struct FS22_W<'a> {
    pub w: &'a mut W,
}

impl<'a> FS22_W<'a> {
    /// Sets the field bit
    pub fn set_bit(self) -> (r: &'a mut W)
        ensures
            r@ == bitfield::with_bit_u32(old(self.w)@, 22, true),
            *final(r) == *final(self.w),
    {
        self.bit(true)
    }

    /// Clears the field bit
    pub fn clear_bit(self) -> (r: &'a mut W)
        ensures
            r@ == bitfield::with_bit_u32(old(self.w)@, 22, false),
            *final(r) == *final(self.w),
    {
        self.bit(false)
    }

    /// Writes raw bits to the field
    pub fn bit(self, value: bool) -> (r: &'a mut W)
        ensures
            r@ == bitfield::with_bit_u32(old(self.w)@, 22, value),
            *final(r) == *final(self.w),
    {
        let bits: u32 = bitfield::write_bit_u32(self.w.value(), 22, value);
        self.w.bits(bits)
    }
}

/// Reader of field `FS23`
pub type FS23_R = crate::gd32vf103_pac::generic::R<bool, bool>;

/// Write proxy for field `FS23`
pub struct FS23_W<'a> {
    pub w: &'a mut W,
}

impl<'a> FS23_W<'a> {
    /// Sets the field bit
    pub fn set_bit(self) -> (r: &'a mut W)
        ensures
            r@ == bitfield::with_bit_u32(old(self.w)@, 23, true),
            *final(r) == *final(self.w),
    {
        self.bit(true)
    }

    /// Clears the field bit
    pub fn clear_bit(self) -> (r: &'a mut W)
        ensures
            r@ == bitfield::with_bit_u32(old(self.w)@, 23, false),
            *final(r) == *final(self.w),
    {
        self.bit(false)
    }

    /// Writes raw bits to the field
    pub fn bit(self, value: bool) -> (r: &'a mut W)
        ensures
            r@ == bitfield::with_bit_u32(old(self.w)@, 23, value),
            *final(r) == *final(self.w),
    {
        let bits: u32 = bitfield::write_bit_u32(self.w.value(), 23, value);
        self.w.bits(bits)
    }
}

/// Reader of field `FS24`
pub type FS24_R = crate::gd32vf103_pac::generic::R<bool, bool>;

/// Write proxy for field `FS24`
pub struct FS24_W<'a> {
    pub w: &'a mut W,
}

impl<'a> FS24_W<'a> {
    /// Sets the field bit
    pub fn set_bit(self) -> (r: &'a mut W)
        ensures
            r@ == bitfield::with_bit_u32(old(self.w)@, 24, true),
            *final(r) == *final(self.w),
    {
        self.bit(true)
    }

    /// Clears the field bit
    pub fn clear_bit(self) -> (r: &'a mut W)
        ensures
            r@ == bitfield::with_bit_u32(old(self.w)@, 24, false),
            *final(r) == *final(self.w),
    {
        self.bit(false)
    }

    /// Writes raw bits to the field
    pub fn bit(self, value: bool) -> (r: &'a mut W)
        ensures
            r@ == bitfield::with_bit_u32(old(self.w)@, 24, value),
            *final(r) == *final(self.w),
    {
        let bits: u32 = bitfield::write_bit_u32(self.w.value(), 24, value);
        self.w.bits(bits)
    }
}

/// Reader of field `FS25`
pub type FS25_R = crate::gd32vf103_pac::generic::R<bool, bool>;

/// Write proxy for field `FS25`
pub struct FS25_W<'a> {
    pub w: &'a mut W,
}

impl<'a> FS25_W<'a> {
    /// Sets the field bit
    pub fn set_bit(self) -> (r: &'a mut W)
        ensures
            r@ == bitfield::with_bit_u32(old(self.w)@, 25, true),
            *final(r) == *final(self.w),
    {
        self.bit(true)
    }

    /// Clears the field bit
    pub fn clear_bit(self) -> (r: &'a mut W)
        ensures
            r@ == bitfield::with_bit_u32(old(self.w)@, 25, false),
            *final(r) == *final(self.w),
    {
        self.bit(false)
    }

    /// Writes raw bits to the field
    pub fn bit(self, value: bool) -> (r: &'a mut W)
        ensures
            r@ == bitfield::with_bit_u32(old(self.w)@, 25, value),
            *final(r) == *final(self.w),
    {
        let bits: u32 = bitfield::write_bit_u32(self.w.value(), 25, value);
        self.w.bits(bits)
    }
}

/// Reader of field `FS26`
pub type FS26_R = crate::gd32vf103_pac::generic::R<bool, bool>;

/// Write proxy for field `FS26`
pub struct FS26_W<'a> {
    pub w: &'a mut W,
}

impl<'a> FS26_W<'a> {
    /// Sets the field bit
    pub fn set_bit(self) -> (r: &'a mut W)
        ensures
            r@ == bitfield::with_bit_u32(old(self.w)@, 26, true),
            *final(r) == *final(self.w),
    {
        self.bit(true)
    }

    /// Clears the field bit
    pub fn clear_bit(self) -> (r: &'a mut W)
        ensures
            r@ == bitfield::with_bit_u32(old(self.w)@, 26, false),
            *final(r) == *final(self.w),
    {
        self.bit(false)
    }

    /// Writes raw bits to the field
    pub fn bit(self, value: bool) -> (r: &'a mut W)
        ensures
            r@ == bitfield::with_bit_u32(old(self.w)@, 26, value),
            *final(r) == *final(self.w),
    {
        let bits: u32 = bitfield::write_bit_u32(self.w.value(), 26, value);
        self.w.bits(bits)
    }
}

/// Reader of field `FS27`
pub type FS27_R = crate::gd32vf103_pac::generic::R<bool, bool>;

/// Write proxy for field `FS27`
pub struct FS27_W<'a> {
    pub w: &'a mut W,
}

impl<'a> FS27_W<'a> {
    /// Sets the field bit
    pub fn set_bit(self) -> (r: &'a mut W)
        ensures
            r@ == bitfield::with_bit_u32(old(self.w)@, 27, true),
            *final(r) == *final(self.w),
    {
        self.bit(true)
    }

    /// Clears the field bit
    pub fn clear_bit(self) -> (r: &'a mut W)
        ensures
            r@ == bitfield::with_bit_u32(old(self.w)@, 27, false),
            *final(r) == *final(self.w),
    {
        self.bit(false)
    }

    /// Writes raw bits to the field
    pub fn bit(self, value: bool) -> (r: &'a mut W)
        ensures
            r@ == bitfield::with_bit_u32(old(self.w)@, 27, value),
            *final(r) == *final(self.w),
    {
        let bits: u32 = bitfield::write_bit_u32(self.w.value(), 27, value);
        self.w.bits(bits)
    }
}

impl R {
    /// Bit 0 - Filter scale configuration
    pub fn fs0(&self) -> (r: FS0_R)
        ensures
            r@ == bitfield::bit_u32(self@, 0),
    {
        FS0_R::new(bitfield::read_bit_u32(self.bits(), 0))
    }

    /// Bit 1 - Filter scale configuration
    pub fn fs1(&self) -> (r: FS1_R)
        ensures
            r@ == bitfield::bit_u32(self@, 1),
    {
        FS1_R::new(bitfield::read_bit_u32(self.bits(), 1))
    }

    /// Bit 2 - Filter scale configuration
    pub fn fs2(&self) -> (r: FS2_R)
        ensures
            r@ == bitfield::bit_u32(self@, 2),
    {
        FS2_R::new(bitfield::read_bit_u32(self.bits(), 2))
    }

    /// Bit 3 - Filter scale configuration
    pub fn fs3(&self) -> (r: FS3_R)
        ensures
            r@ == bitfield::bit_u32(self@, 3),
    {
        FS3_R::new(bitfield::read_bit_u32(self.bits(), 3))
    }

    /// Bit 4 - Filter scale configuration
    pub fn fs4(&self) -> (r: FS4_R)
        ensures
            r@ == bitfield::bit_u32(self@, 4),
    {
        FS4_R::new(bitfield::read_bit_u32(self.bits(), 4))
    }

    /// Bit 5 - Filter scale configuration
    pub fn fs5(&self) -> (r: FS5_R)
        ensures
            r@ == bitfield::bit_u32(self@, 5),
    {
        FS5_R::new(bitfield::read_bit_u32(self.bits(), 5))
    }

    /// Bit 6 - Filter scale configuration
    pub fn fs6(&self) -> (r: FS6_R)
        ensures
            r@ == bitfield::bit_u32(self@, 6),
    {
        FS6_R::new(bitfield::read_bit_u32(self.bits(), 6))
    }

    /// Bit 7 - Filter scale configuration
    pub fn fs7(&self) -> (r: FS7_R)
        ensures
            r@ == bitfield::bit_u32(self@, 7),
    {
        FS7_R::new(bitfield::read_bit_u32(self.bits(), 7))
    }

    /// Bit 8 - Filter scale configuration
    pub fn fs8(&self) -> (r: FS8_R)
        ensures
            r@ == bitfield::bit_u32(self@, 8),
    {
        FS8_R::new(bitfield::read_bit_u32(self.bits(), 8))
    }

    /// Bit 9 - Filter scale configuration
    pub fn fs9(&self) -> (r: FS9_R)
        ensures
            r@ == bitfield::bit_u32(self@, 9),
    {
        FS9_R::new(bitfield::read_bit_u32(self.bits(), 9))
    }

    /// Bit 10 - Filter scale configuration
    pub fn fs10(&self) -> (r: FS10_R)
        ensures
            r@ == bitfield::bit_u32(self@, 10),
    {
        FS10_R::new(bitfield::read_bit_u32(self.bits(), 10))
    }

    /// Bit 11 - Filter scale configuration
    pub fn fs11(&self) -> (r: FS11_R)
        ensures
            r@ == bitfield::bit_u32(self@, 11),
    {
        FS11_R::new(bitfield::read_bit_u32(self.bits(), 11))
    }

    /// Bit 12 - Filter scale configuration
    pub fn fs12(&self) -> (r: FS12_R)
        ensures
            r@ == bitfield::bit_u32(self@, 12),
    {
        FS12_R::new(bitfield::read_bit_u32(self.bits(), 12))
    }

    /// Bit 13 - Filter scale configuration
    pub fn fs13(&self) -> (r: FS13_R)
        ensures
            r@ == bitfield::bit_u32(self@, 13),
    {
        FS13_R::new(bitfield::read_bit_u32(self.bits(), 13))
    }

    /// Bit 14 - Filter scale configuration
    pub fn fs14(&self) -> (r: FS14_R)
        ensures
            r@ == bitfield::bit_u32(self@, 14),
    {
        FS14_R::new(bitfield::read_bit_u32(self.bits(), 14))
    }

    /// Bit 15 - Filter scale configuration
    pub fn fs15(&self) -> (r: FS15_R)
        ensures
            r@ == bitfield::bit_u32(self@, 15),
    {
        FS15_R::new(bitfield::read_bit_u32(self.bits(), 15))
    }

    /// Bit 16 - Filter scale configuration
    pub fn fs16(&self) -> (r: FS16_R)
        ensures
            r@ == bitfield::bit_u32(self@, 16),
    {
        FS16_R::new(bitfield::read_bit_u32(self.bits(), 16))
    }

    /// Bit 17 - Filter scale configuration
    pub fn fs17(&self) -> (r: FS17_R)
        ensures
            r@ == bitfield::bit_u32(self@, 17),
    {
        FS17_R::new(bitfield::read_bit_u32(self.bits(), 17))
    }

    /// Bit 18 - Filter scale configuration
    pub fn fs18(&self) -> (r: FS18_R)
        ensures
            r@ == bitfield::bit_u32(self@, 18),
    {
        FS18_R::new(bitfield::read_bit_u32(self.bits(), 18))
    }

    /// Bit 19 - Filter scale configuration
    pub fn fs19(&self) -> (r: FS19_R)
        ensures
            r@ == bitfield::bit_u32(self@, 19),
    {
        FS19_R::new(bitfield::read_bit_u32(self.bits(), 19))
    }

    /// Bit 20 - Filter scale configuration
    pub fn fs20(&self) -> (r: FS20_R)
        ensures
            r@ == bitfield::bit_u32(self@, 20),
    {
        FS20_R::new(bitfield::read_bit_u32(self.bits(), 20))
    }

    /// Bit 21 - Filter scale configuration
    pub fn fs21(&self) -> (r: FS21_R)
        ensures
            r@ == bitfield::bit_u32(self@, 21),
    {
        FS21_R::new(bitfield::read_bit_u32(self.bits(), 21))
    }

    /// Bit 22 - Filter scale configuration
    pub fn fs22(&self) -> (r: FS22_R)
        ensures
            r@ == bitfield::bit_u32(self@, 22),
    {
        FS22_R::new(bitfield::read_bit_u32(self.bits(), 22))
    }

    /// Bit 23 - Filter scale configuration
    pub fn fs23(&self) -> (r: FS23_R)
        ensures
            r@ == bitfield::bit_u32(self@, 23),
    {
        FS23_R::new(bitfield::read_bit_u32(self.bits(), 23))
    }

    /// Bit 24 - Filter scale configuration
    pub fn fs24(&self) -> (r: FS24_R)
        ensures
            r@ == bitfield::bit_u32(self@, 24),
    {
        FS24_R::new(bitfield::read_bit_u32(self.bits(), 24))
    }

    /// Bit 25 - Filter scale configuration
    pub fn fs25(&self) -> (r: FS25_R)
        ensures
            r@ == bitfield::bit_u32(self@, 25),
    {
        FS25_R::new(bitfield::read_bit_u32(self.bits(), 25))
    }

    /// Bit 26 - Filter scale configuration
    pub fn fs26(&self) -> (r: FS26_R)
        ensures
            r@ == bitfield::bit_u32(self@, 26),
    {
        FS26_R::new(bitfield::read_bit_u32(self.bits(), 26))
    }

    /// Bit 27 - Filter scale configuration
    pub fn fs27(&self) -> (r: FS27_R)
        ensures
            r@ == bitfield::bit_u32(self@, 27),
    {
        FS27_R::new(bitfield::read_bit_u32(self.bits(), 27))
    }
}

impl W {
    /// Bit 0 - Filter scale configuration
    pub fn fs0(&mut self) -> (r: FS0_W<'_>)
        ensures
            *r.w == *old(self),
            *final(r.w) == *final(self),
    {
        FS0_W { w: self }
    }

    /// Bit 1 - Filter scale configuration
    pub fn fs1(&mut self) -> (r: FS1_W<'_>)
        ensures
            *r.w == *old(self),
            *final(r.w) == *final(self),
    {
        FS1_W { w: self }
    }

    /// Bit 2 - Filter scale configuration
    pub fn fs2(&mut self) -> (r: FS2_W<'_>)
        ensures
            *r.w == *old(self),
            *final(r.w) == *final(self),
    {
        FS2_W { w: self }
    }

    /// Bit 3 - Filter scale configuration
    pub fn fs3(&mut self) -> (r: FS3_W<'_>)
        ensures
            *r.w == *old(self),
            *final(r.w) == *final(self),
    {
        FS3_W { w: self }
    }

    /// Bit 4 - Filter scale configuration
    pub fn fs4(&mut self) -> (r: FS4_W<'_>)
        ensures
            *r.w == *old(self),
            *final(r.w) == *final(self),
    {
        FS4_W { w: self }
    }

    /// Bit 5 - Filter scale configuration
    pub fn fs5(&mut self) -> (r: FS5_W<'_>)
        ensures
            *r.w == *old(self),
            *final(r.w) == *final(self),
    {
        FS5_W { w: self }
    }

    /// Bit 6 - Filter scale configuration
    pub fn fs6(&mut self) -> (r: FS6_W<'_>)
        ensures
            *r.w == *old(self),
            *final(r.w) == *final(self),
    {
        FS6_W { w: self }
    }

    /// Bit 7 - Filter scale configuration
    pub fn fs7(&mut self) -> (r: FS7_W<'_>)
        ensures
            *r.w == *old(self),
            *final(r.w) == *final(self),
    {
        FS7_W { w: self }
    }

    /// Bit 8 - Filter scale configuration
    pub fn fs8(&mut self) -> (r: FS8_W<'_>)
        ensures
            *r.w == *old(self),
            *final(r.w) == *final(self),
    {
        FS8_W { w: self }
    }

    /// Bit 9 - Filter scale configuration
    pub fn fs9(&mut self) -> (r: FS9_W<'_>)
        ensures
            *r.w == *old(self),
            *final(r.w) == *final(self),
    {
        FS9_W { w: self }
    }

    /// Bit 10 - Filter scale configuration
    pub fn fs10(&mut self) -> (r: FS10_W<'_>)
        ensures
            *r.w == *old(self),
            *final(r.w) == *final(self),
    {
        FS10_W { w: self }
    }

    /// Bit 11 - Filter scale configuration
    pub fn fs11(&mut self) -> (r: FS11_W<'_>)
        ensures
            *r.w == *old(self),
            *final(r.w) == *final(self),
    {
        FS11_W { w: self }
    }

    /// Bit 12 - Filter scale configuration
    pub fn fs12(&mut self) -> (r: FS12_W<'_>)
        ensures
            *r.w == *old(self),
            *final(r.w) == *final(self),
    {
        FS12_W { w: self }
    }

    /// Bit 13 - Filter scale configuration
    pub fn fs13(&mut self) -> (r: FS13_W<'_>)
        ensures
            *r.w == *old(self),
            *final(r.w) == *final(self),
    {
        FS13_W { w: self }
    }

    /// Bit 14 - Filter scale configuration
    pub fn fs14(&mut self) -> (r: FS14_W<'_>)
        ensures
            *r.w == *old(self),
            *final(r.w) == *final(self),
    {
        FS14_W { w: self }
    }

    /// Bit 15 - Filter scale configuration
    pub fn fs15(&mut self) -> (r: FS15_W<'_>)
        ensures
            *r.w == *old(self),
            *final(r.w) == *final(self),
    {
        FS15_W { w: self }
    }

    /// Bit 16 - Filter scale configuration
    pub fn fs16(&mut self) -> (r: FS16_W<'_>)
        ensures
            *r.w == *old(self),
            *final(r.w) == *final(self),
    {
        FS16_W { w: self }
    }

    /// Bit 17 - Filter scale configuration
    pub fn fs17(&mut self) -> (r: FS17_W<'_>)
        ensures
            *r.w == *old(self),
            *final(r.w) == *final(self),
    {
        FS17_W { w: self }
    }

    /// Bit 18 - Filter scale configuration
    pub fn fs18(&mut self) -> (r: FS18_W<'_>)
        ensures
            *r.w == *old(self),
            *final(r.w) == *final(self),
    {
        FS18_W { w: self }
    }

    /// Bit 19 - Filter scale configuration
    pub fn fs19(&mut self) -> (r: FS19_W<'_>)
        ensures
            *r.w == *old(self),
            *final(r.w) == *final(self),
    {
        FS19_W { w: self }
    }

    /// Bit 20 - Filter scale configuration
    pub fn fs20(&mut self) -> (r: FS20_W<'_>)
        ensures
            *r.w == *old(self),
            *final(r.w) == *final(self),
    {
        FS20_W { w: self }
    }

    /// Bit 21 - Filter scale configuration
    pub fn fs21(&mut self) -> (r: FS21_W<'_>)
        ensures
            *r.w == *old(self),
            *final(r.w) == *final(self),
    {
        FS21_W { w: self }
    }

    /// Bit 22 - Filter scale configuration
    pub fn fs22(&mut self) -> (r: FS22_W<'_>)
        ensures
            *r.w == *old(self),
            *final(r.w) == *final(self),
    {
        FS22_W { w: self }
    }

    /// Bit 23 - Filter scale configuration
    pub fn fs23(&mut self) -> (r: FS23_W<'_>)
        ensures
            *r.w == *old(self),
            *final(r.w) == *final(self),
    {
        FS23_W { w: self }
    }

    /// Bit 24 - Filter scale configuration
    pub fn fs24(&mut self) -> (r: FS24_W<'_>)
        ensures
            *r.w == *old(self),
            *final(r.w) == *final(self),
    {
        FS24_W { w: self }
    }

    /// Bit 25 - Filter scale configuration
    pub fn fs25(&mut self) -> (r: FS25_W<'_>)
        ensures
            *r.w == *old(self),
            *final(r.w) == *final(self),
    {
        FS25_W { w: self }
    }

    /// Bit 26 - Filter scale configuration
    pub fn fs26(&mut self) -> (r: FS26_W<'_>)
        ensures
            *r.w == *old(self),
            *final(r.w) == *final(self),
    {
        FS26_W { w: self }
    }

    /// Bit 27 - Filter scale configuration
    pub fn fs27(&mut self) -> (r: FS27_W<'_>)
        ensures
            *r.w == *old(self),
            *final(r.w) == *final(self),
    {
        FS27_W { w: self }
    }
}

} // verus!

use vstd::prelude::*;
use crate::bitfield;

verus! {

/// Reader of register FCTL
pub type R = crate::gd32vf103_pac::generic::R<u32, super::FCTL>;

/// Writer for register FCTL
pub type W = crate::gd32vf103_pac::generic::W<u32, super::FCTL>;

/// Register FCTL `reset()`'s with value 0x2a1c_0e01
impl crate::gd32vf103_pac::generic::ResetValue for super::FCTL {
    type Type = u32;

    open spec fn reset_spec() -> u32 {
        0x2a1c_0e01
    }

    fn reset_value() -> (r: u32) {
        0x2a1c_0e01
    }
}

/// Reader of field `HBC1F`
pub type HBC1F_R = crate::gd32vf103_pac::generic::R<u8, u8>;

/// Write proxy for field `HBC1F`
pub struct HBC1F_W<'a> {
    pub w: &'a mut W,
}

impl<'a> HBC1F_W<'a> {
    /// Writes raw bits to the field
    pub fn bits(self, value: u8) -> (r: &'a mut W)
        ensures
            r@ == bitfield::with_field_u32(old(self.w)@, 8, 6, value as u32),
            *final(r) == *final(self.w),
    {
        let bits: u32 = bitfield::write_field_u32(self.w.value(), 8, 6, value as u32);
        self.w.bits(bits)
    }
}

/// Reader of field `FLD`
pub type FLD_R = crate::gd32vf103_pac::generic::R<bool, bool>;

/// Write proxy for field `FLD`
pub struct FLD_W<'a> {
    pub w: &'a mut W,
}

impl<'a> FLD_W<'a> {
    /// Sets the field bit
    pub fn set_bit(self) -> (r: &'a mut W)
        ensures
            r@ == bitfield::with_bit_u32(old(self.w)@, 0, true),
            *final(r) == *final(self.w),
    {
        self.bit(true)
    }

    /// Clears the field bit
    pub fn clear_bit(self) -> (r: &'a mut W)
        ensures
            r@ == bitfield::with_bit_u32(old(self.w)@, 0, false),
            *final(r) == *final(self.w),
    {
        self.bit(false)
    }

    /// Writes raw bits to the field
    pub fn bit(self, value: bool) -> (r: &'a mut W)
        ensures
            r@ == bitfield::with_bit_u32(old(self.w)@, 0, value),
            *final(r) == *final(self.w),
    {
        let bits: u32 = bitfield::write_bit_u32(self.w.value(), 0, value);
        self.w.bits(bits)
    }
}

impl R {
    /// Bits 8:13 - Header bank of CAN1 filter
    pub fn hbc1f(&self) -> (r: HBC1F_R)
        ensures
            r@ == bitfield::field_u32(self@, 8, 6) as u8,
    {
        HBC1F_R::new(bitfield::read_field_u32(self.bits(), 8, 6) as u8)
    }

    /// Bit 0 - Filter lock disable
    pub fn fld(&self) -> (r: FLD_R)
        ensures
            r@ == bitfield::bit_u32(self@, 0),
    {
        FLD_R::new(bitfield::read_bit_u32(self.bits(), 0))
    }
}

impl W {
    /// Bits 8:13 - Header bank of CAN1 filter
    pub fn hbc1f(&mut self) -> (r: HBC1F_W<'_>)
        ensures
            *r.w == *old(self),
            *final(r.w) == *final(self),
    {
        HBC1F_W { w: self }
    }

    /// Bit 0 - Filter lock disable
    pub fn fld(&mut self) -> (r: FLD_W<'_>)
        ensures
            *r.w == *old(self),
            *final(r.w) == *final(self),
    {
        FLD_W { w: self }
    }
}

} // verus!

use vstd::prelude::*;
use crate::bitfield;

verus! {

/// Reader of register PCF1
pub type R = crate::gd32vf103_pac::generic::R<u32, super::PCF1>;

/// Writer for register PCF1
pub type W = crate::gd32vf103_pac::generic::W<u32, super::PCF1>;

/// Register PCF1 `reset()`'s with value 0
impl crate::gd32vf103_pac::generic::ResetValue for super::PCF1 {
    type Type = u32;

    open spec fn reset_spec() -> u32 {
        0
    }

    fn reset_value() -> (r: u32) {
        0
    }
}

/// Reader of field `EXMC_NADV`
pub type EXMC_NADV_R = crate::gd32vf103_pac::generic::R<bool, bool>;

/// Write proxy for field `EXMC_NADV`
pub struct EXMC_NADV_W<'a> {
    pub w: &'a mut W,
}

impl<'a> EXMC_NADV_W<'a> {
    /// Sets the field bit
    pub fn set_bit(self) -> (r: &'a mut W)
        ensures
            r@ == bitfield::with_bit_u32(old(self.w)@, 10, true),
            *final(r) == *final(self.w),
    {
        self.bit(true)
    }

    /// Clears the field bit
    pub fn clear_bit(self) -> (r: &'a mut W)
        ensures
            r@ == bitfield::with_bit_u32(old(self.w)@, 10, false),
            *final(r) == *final(self.w),
    {
        self.bit(false)
    }

    /// Writes raw bits to the field
    pub fn bit(self, value: bool) -> (r: &'a mut W)
        ensures
            r@ == bitfield::with_bit_u32(old(self.w)@, 10, value),
            *final(r) == *final(self.w),
    {
        let bits: u32 = bitfield::write_bit_u32(self.w.value(), 10, value);
        self.w.bits(bits)
    }
}

impl R {
    /// Bit 10 - EXMC_NADV connect/disconnect
    pub fn exmc_nadv(&self) -> (r: EXMC_NADV_R)
        ensures
            r@ == bitfield::bit_u32(self@, 10),
    {
        EXMC_NADV_R::new(bitfield::read_bit_u32(self.bits(), 10))
    }
}

impl W {
    /// Bit 10 - EXMC_NADV connect/disconnect
    pub fn exmc_nadv(&mut self) -> (r: EXMC_NADV_W<'_>)
        ensures
            *r.w == *old(self),
            *final(r.w) == *final(self),
    {
        EXMC_NADV_W { w: self }
    }
}

} // verus!

use vstd::prelude::*;
use crate::bitfield;

verus! {

/// Reader of register FDATA
pub type R = crate::gd32vf103_pac::generic::R<u32, super::FDATA>;

/// Writer for register FDATA
pub type W = crate::gd32vf103_pac::generic::W<u32, super::FDATA>;

/// Register FDATA `reset()`'s with value 0
impl crate::gd32vf103_pac::generic::ResetValue for super::FDATA {
    type Type = u32;

    open spec fn reset_spec() -> u32 {
        0
    }

    fn reset_value() -> (r: u32) {
        0
    }
}

/// Reader of field `FDATA`
pub type FDATA_R = crate::gd32vf103_pac::generic::R<u8, u8>;

/// Write proxy for field `FDATA`
pub struct FDATA_W<'a> {
    pub w: &'a mut W,
}

impl<'a> FDATA_W<'a> {
    /// Writes raw bits to the field
    pub fn bits(self, value: u8) -> (r: &'a mut W)
        ensures
            r@ == bitfield::with_field_u32(old(self.w)@, 0, 8, value as u32),
            *final(r) == *final(self.w),
    {
        let bits: u32 = bitfield::write_field_u32(self.w.value(), 0, 8, value as u32);
        self.w.bits(bits)
    }
}

impl R {
    /// Bits 0:7 - Free Data Register bits
    pub fn fdata(&self) -> (r: FDATA_R)
        ensures
            r@ == bitfield::field_u32(self@, 0, 8) as u8,
    {
        FDATA_R::new(bitfield::read_field_u32(self.bits(), 0, 8) as u8)
    }
}

impl W {
    /// Bits 0:7 - Free Data Register bits
    pub fn fdata(&mut self) -> (r: FDATA_W<'_>)
        ensures
            *r.w == *old(self),
            *final(r.w) == *final(self),
    {
        FDATA_W { w: self }
    }
}

} // verus!

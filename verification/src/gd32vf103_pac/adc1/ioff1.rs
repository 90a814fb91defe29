use vstd::prelude::*;
use crate::bitfield;

verus! {

/// Reader of register IOFF1
pub type R = crate::gd32vf103_pac::generic::R<u32, super::IOFF1>;

/// Writer for register IOFF1
pub type W = crate::gd32vf103_pac::generic::W<u32, super::IOFF1>;

/// Register IOFF1 `reset()`'s with value 0
impl crate::gd32vf103_pac::generic::ResetValue for super::IOFF1 {
    type Type = u32;

    open spec fn reset_spec() -> u32 {
        0
    }

    fn reset_value() -> (r: u32) {
        0
    }
}

/// Reader of field `IOFF`
pub type IOFF_R = crate::gd32vf103_pac::generic::R<u16, u16>;

/// Write proxy for field `IOFF`
pub struct IOFF_W<'a> {
    pub w: &'a mut W,
}

impl<'a> IOFF_W<'a> {
    /// Writes raw bits to the field
    pub fn bits(self, value: u16) -> (r: &'a mut W)
        ensures
            r@ == bitfield::with_field_u32(old(self.w)@, 0, 12, value as u32),
            *final(r) == *final(self.w),
    {
        let bits: u32 = bitfield::write_field_u32(self.w.value(), 0, 12, value as u32);
        self.w.bits(bits)
    }
}

impl R {
    /// Bits 0:11 - Data offset for inserted channel 1
    pub fn ioff(&self) -> (r: IOFF_R)
        ensures
            r@ == bitfield::field_u32(self@, 0, 12) as u16,
    {
        IOFF_R::new(bitfield::read_field_u32(self.bits(), 0, 12) as u16)
    }
}

impl W {
    /// Bits 0:11 - Data offset for inserted channel 1
    pub fn ioff(&mut self) -> (r: IOFF_W<'_>)
        ensures
            *r.w == *old(self),
            *final(r.w) == *final(self),
    {
        IOFF_W { w: self }
    }
}

} // verus!

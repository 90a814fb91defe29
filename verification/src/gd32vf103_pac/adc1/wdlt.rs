use vstd::prelude::*;
use crate::bitfield;

verus! {

/// Reader of register WDLT
pub type R = crate::gd32vf103_pac::generic::R<u32, super::WDLT>;

/// Writer for register WDLT
pub type W = crate::gd32vf103_pac::generic::W<u32, super::WDLT>;

/// Register WDLT `reset()`'s with value 0
impl crate::gd32vf103_pac::generic::ResetValue for super::WDLT {
    type Type = u32;

    open spec fn reset_spec() -> u32 {
        0
    }

    fn reset_value() -> (r: u32) {
        0
    }
}

/// Reader of field `WDLT`
pub type WDLT_R = crate::gd32vf103_pac::generic::R<u16, u16>;

/// Write proxy for field `WDLT`
pub struct WDLT_W<'a> {
    pub w: &'a mut W,
}

impl<'a> WDLT_W<'a> {
    /// Writes raw bits to the field
    pub fn bits(self, value: u16) -> (r: &'a mut W)
        ensures
            r@ == bitfield::with_field_u32(old(self.w)@, 0, 12, value as u32),
            *final(r) == *final(self.w),
    {
        let bits: u32 = bitfield::write_field_u32(self.w.value(), 0, 12, value as u32);
        self.w.bits(bits)
    }
}

impl R {
    /// Bits 0:11 - Analog watchdog lower threshold
    pub fn wdlt(&self) -> (r: WDLT_R)
        ensures
            r@ == bitfield::field_u32(self@, 0, 12) as u16,
    {
        WDLT_R::new(bitfield::read_field_u32(self.bits(), 0, 12) as u16)
    }
}

impl W {
    /// Bits 0:11 - Analog watchdog lower threshold
    pub fn wdlt(&mut self) -> (r: WDLT_W<'_>)
        ensures
            *r.w == *old(self),
            *final(r.w) == *final(self),
    {
        WDLT_W { w: self }
    }
}

} // verus!

use vstd::prelude::*;
use crate::bitfield;

verus! {

/// Reader of register WDHT
pub type R = crate::gd32vf103_pac::generic::R<u32, super::WDHT>;

/// Writer for register WDHT
pub type W = crate::gd32vf103_pac::generic::W<u32, super::WDHT>;

/// Register WDHT `reset()`'s with value 0x0fff
impl crate::gd32vf103_pac::generic::ResetValue for super::WDHT {
    type Type = u32;

    open spec fn reset_spec() -> u32 {
        0x0fff
    }

    fn reset_value() -> (r: u32) {
        0x0fff
    }
}

/// Reader of field `WDHT`
pub type WDHT_R = crate::gd32vf103_pac::generic::R<u16, u16>;

/// Write proxy for field `WDHT`
pub struct WDHT_W<'a> {
    pub w: &'a mut W,
}

impl<'a> WDHT_W<'a> {
    /// Writes raw bits to the field
    pub fn bits(self, value: u16) -> (r: &'a mut W)
        ensures
            r@ == bitfield::with_field_u32(old(self.w)@, 0, 12, value as u32),
            *final(r) == *final(self.w),
    {
        let bits: u32 = bitfield::write_field_u32(self.w.value(), 0, 12, value as u32);
        self.w.bits(bits)
    }
}

impl R {
    /// Bits 0:11 - Analog watchdog higher threshold
    pub fn wdht(&self) -> (r: WDHT_R)
        ensures
            r@ == bitfield::field_u32(self@, 0, 12) as u16,
    {
        WDHT_R::new(bitfield::read_field_u32(self.bits(), 0, 12) as u16)
    }
}

impl W {
    /// Bits 0:11 - Analog watchdog higher threshold
    pub fn wdht(&mut self) -> (r: WDHT_W<'_>)
        ensures
            *r.w == *old(self),
            *final(r.w) == *final(self),
    {
        WDHT_W { w: self }
    }
}

} // verus!

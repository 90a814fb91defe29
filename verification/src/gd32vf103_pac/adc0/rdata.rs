use vstd::prelude::*;
use crate::bitfield;

verus! {

/// Reader of register RDATA
pub type R = crate::gd32vf103_pac::generic::R<u32, super::RDATA>;

/// Reader of field `ADC1RDTR`
pub type ADC1RDTR_R = crate::gd32vf103_pac::generic::R<u16, u16>;

/// Reader of field `RDATA`
pub type RDATA_R = crate::gd32vf103_pac::generic::R<u16, u16>;

impl R {
    /// Bits 16:31 - ADC regular channel data
    pub fn adc1rdtr(&self) -> (r: ADC1RDTR_R)
        ensures
            r@ == bitfield::field_u32(self@, 16, 16) as u16,
    {
        ADC1RDTR_R::new(bitfield::read_field_u32(self.bits(), 16, 16) as u16)
    }

    /// Bits 0:15 - Regular channel data
    pub fn rdata(&self) -> (r: RDATA_R)
        ensures
            r@ == bitfield::field_u32(self@, 0, 16) as u16,
    {
        RDATA_R::new(bitfield::read_field_u32(self.bits(), 0, 16) as u16)
    }
}

} // verus!

use vstd::prelude::*;
use crate::bitfield;

verus! {

/// Reader of register IDATA0
pub type R = crate::gd32vf103_pac::generic::R<u32, super::IDATA0>;

/// Reader of field `IDATAn`
pub type IDATAN_R = crate::gd32vf103_pac::generic::R<u16, u16>;

impl R {
    /// Bits 0:15 - Inserted number n conversion data
    pub fn idatan(&self) -> (r: IDATAN_R)
        ensures
            r@ == bitfield::field_u32(self@, 0, 16) as u16,
    {
        IDATAN_R::new(bitfield::read_field_u32(self.bits(), 0, 16) as u16)
    }
}

} // verus!

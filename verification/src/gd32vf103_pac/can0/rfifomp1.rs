use vstd::prelude::*;
use crate::bitfield;

verus! {

/// Reader of register RFIFOMP1
pub type R = crate::gd32vf103_pac::generic::R<u32, super::RFIFOMP1>;

/// Reader of field `TS`
pub type TS_R = crate::gd32vf103_pac::generic::R<u16, u16>;

/// Reader of field `FI`
pub type FI_R = crate::gd32vf103_pac::generic::R<u8, u8>;

/// Reader of field `DLENC`
pub type DLENC_R = crate::gd32vf103_pac::generic::R<u8, u8>;

impl R {
    /// Bits 16:31 - Time stamp
    pub fn ts(&self) -> (r: TS_R)
        ensures
            r@ == bitfield::field_u32(self@, 16, 16) as u16,
    {
        TS_R::new(bitfield::read_field_u32(self.bits(), 16, 16) as u16)
    }

    /// Bits 8:15 - Filtering index
    pub fn fi(&self) -> (r: FI_R)
        ensures
            r@ == bitfield::field_u32(self@, 8, 8) as u8,
    {
        FI_R::new(bitfield::read_field_u32(self.bits(), 8, 8) as u8)
    }

    /// Bits 0:3 - Data length code
    pub fn dlenc(&self) -> (r: DLENC_R)
        ensures
            r@ == bitfield::field_u32(self@, 0, 4) as u8,
    {
        DLENC_R::new(bitfield::read_field_u32(self.bits(), 0, 4) as u8)
    }
}

} // verus!

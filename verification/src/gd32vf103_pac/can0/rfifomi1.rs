use vstd::prelude::*;
use crate::bitfield;

verus! {

/// Reader of register RFIFOMI1
pub type R = crate::gd32vf103_pac::generic::R<u32, super::RFIFOMI1>;

/// Reader of field `SFID_EFID`
pub type SFID_EFID_R = crate::gd32vf103_pac::generic::R<u16, u16>;

/// Reader of field `EFID`
pub type EFID_R = crate::gd32vf103_pac::generic::R<u32, u32>;

/// Reader of field `FF`
pub type FF_R = crate::gd32vf103_pac::generic::R<bool, bool>;

/// Reader of field `FT`
pub type FT_R = crate::gd32vf103_pac::generic::R<bool, bool>;

impl R {
    /// Bits 21:31 - The frame identifier
    pub fn sfid_efid(&self) -> (r: SFID_EFID_R)
        ensures
            r@ == bitfield::field_u32(self@, 21, 11) as u16,
    {
        SFID_EFID_R::new(bitfield::read_field_u32(self.bits(), 21, 11) as u16)
    }

    /// Bits 3:20 - The frame identifier
    pub fn efid(&self) -> (r: EFID_R)
        ensures
            r@ == bitfield::field_u32(self@, 3, 18),
    {
        EFID_R::new(bitfield::read_field_u32(self.bits(), 3, 18))
    }

    /// Bit 2 - Frame format
    pub fn ff(&self) -> (r: FF_R)
        ensures
            r@ == bitfield::bit_u32(self@, 2),
    {
        FF_R::new(bitfield::read_bit_u32(self.bits(), 2))
    }

    /// Bit 1 - Frame type
    pub fn ft(&self) -> (r: FT_R)
        ensures
            r@ == bitfield::bit_u32(self@, 1),
    {
        FT_R::new(bitfield::read_bit_u32(self.bits(), 1))
    }
}

} // verus!

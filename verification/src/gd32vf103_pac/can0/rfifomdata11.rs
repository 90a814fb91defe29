use vstd::prelude::*;
use crate::bitfield;

verus! {

/// Reader of register RFIFOMDATA11
pub type R = crate::gd32vf103_pac::generic::R<u32, super::RFIFOMDATA11>;

/// Reader of field `DB7`
pub type DB7_R = crate::gd32vf103_pac::generic::R<u8, u8>;

/// Reader of field `DB6`
pub type DB6_R = crate::gd32vf103_pac::generic::R<u8, u8>;

/// Reader of field `DB5`
pub type DB5_R = crate::gd32vf103_pac::generic::R<u8, u8>;

/// Reader of field `DB4`
pub type DB4_R = crate::gd32vf103_pac::generic::R<u8, u8>;

impl R {
    /// Bits 24:31 - Data byte 7
    pub fn db7(&self) -> (r: DB7_R)
        ensures
            r@ == bitfield::field_u32(self@, 24, 8) as u8,
    {
        DB7_R::new(bitfield::read_field_u32(self.bits(), 24, 8) as u8)
    }

    /// Bits 16:23 - Data byte 6
    pub fn db6(&self) -> (r: DB6_R)
        ensures
            r@ == bitfield::field_u32(self@, 16, 8) as u8,
    {
        DB6_R::new(bitfield::read_field_u32(self.bits(), 16, 8) as u8)
    }

    /// Bits 8:15 - Data byte 5
    pub fn db5(&self) -> (r: DB5_R)
        ensures
            r@ == bitfield::field_u32(self@, 8, 8) as u8,
    {
        DB5_R::new(bitfield::read_field_u32(self.bits(), 8, 8) as u8)
    }

    /// Bits 0:7 - Data byte 4
    pub fn db4(&self) -> (r: DB4_R)
        ensures
            r@ == bitfield::field_u32(self@, 0, 8) as u8,
    {
        DB4_R::new(bitfield::read_field_u32(self.bits(), 0, 8) as u8)
    }
}

} // verus!

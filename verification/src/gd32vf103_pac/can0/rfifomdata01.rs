use vstd::prelude::*;
use crate::bitfield;

verus! {

/// Reader of register RFIFOMDATA01
pub type R = crate::gd32vf103_pac::generic::R<u32, super::RFIFOMDATA01>;

/// Reader of field `DB3`
pub type DB3_R = crate::gd32vf103_pac::generic::R<u8, u8>;

/// Reader of field `DB2`
pub type DB2_R = crate::gd32vf103_pac::generic::R<u8, u8>;

/// Reader of field `DB1`
pub type DB1_R = crate::gd32vf103_pac::generic::R<u8, u8>;

/// Reader of field `DB0`
pub type DB0_R = crate::gd32vf103_pac::generic::R<u8, u8>;

impl R {
    /// Bits 24:31 - Data byte 3
    pub fn db3(&self) -> (r: DB3_R)
        ensures
            r@ == bitfield::field_u32(self@, 24, 8) as u8,
    {
        DB3_R::new(bitfield::read_field_u32(self.bits(), 24, 8) as u8)
    }

    /// Bits 16:23 - Data byte 2
    pub fn db2(&self) -> (r: DB2_R)
        ensures
            r@ == bitfield::field_u32(self@, 16, 8) as u8,
    {
        DB2_R::new(bitfield::read_field_u32(self.bits(), 16, 8) as u8)
    }

    /// Bits 8:15 - Data byte 1
    pub fn db1(&self) -> (r: DB1_R)
        ensures
            r@ == bitfield::field_u32(self@, 8, 8) as u8,
    {
        DB1_R::new(bitfield::read_field_u32(self.bits(), 8, 8) as u8)
    }

    /// Bits 0:7 - Data byte 0
    pub fn db0(&self) -> (r: DB0_R)
        ensures
            r@ == bitfield::field_u32(self@, 0, 8) as u8,
    {
        DB0_R::new(bitfield::read_field_u32(self.bits(), 0, 8) as u8)
    }
}

} // verus!

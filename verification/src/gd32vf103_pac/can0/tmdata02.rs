use vstd::prelude::*;
use crate::bitfield;

verus! {

/// Reader of register TMDATA02
pub type R = crate::gd32vf103_pac::generic::R<u32, super::TMDATA02>;

/// Writer for register TMDATA02
pub type W = crate::gd32vf103_pac::generic::W<u32, super::TMDATA02>;

/// Register TMDATA02 `reset()`'s with value 0
impl crate::gd32vf103_pac::generic::ResetValue for super::TMDATA02 {
    type Type = u32;

    open spec fn reset_spec() -> u32 {
        0
    }

    fn reset_value() -> (r: u32) {
        0
    }
}

/// Reader of field `DB3`
pub type DB3_R = crate::gd32vf103_pac::generic::R<u8, u8>;

/// Write proxy for field `DB3`
pub struct DB3_W<'a> {
    pub w: &'a mut W,
}

impl<'a> DB3_W<'a> {
    /// Writes raw bits to the field
    pub fn bits(self, value: u8) -> (r: &'a mut W)
        ensures
            r@ == bitfield::with_field_u32(old(self.w)@, 24, 8, value as u32),
            *final(r) == *final(self.w),
    {
        let bits: u32 = bitfield::write_field_u32(self.w.value(), 24, 8, value as u32);
        self.w.bits(bits)
    }
}

/// Reader of field `DB2`
pub type DB2_R = crate::gd32vf103_pac::generic::R<u8, u8>;

/// Write proxy for field `DB2`
pub struct DB2_W<'a> {
    pub w: &'a mut W,
}

impl<'a> DB2_W<'a> {
    /// Writes raw bits to the field
    pub fn bits(self, value: u8) -> (r: &'a mut W)
        ensures
            r@ == bitfield::with_field_u32(old(self.w)@, 16, 8, value as u32),
            *final(r) == *final(self.w),
    {
        let bits: u32 = bitfield::write_field_u32(self.w.value(), 16, 8, value as u32);
        self.w.bits(bits)
    }
}

/// Reader of field `DB1`
pub type DB1_R = crate::gd32vf103_pac::generic::R<u8, u8>;

/// Write proxy for field `DB1`
pub struct DB1_W<'a> {
    pub w: &'a mut W,
}

impl<'a> DB1_W<'a> {
    /// Writes raw bits to the field
    pub fn bits(self, value: u8) -> (r: &'a mut W)
        ensures
            r@ == bitfield::with_field_u32(old(self.w)@, 8, 8, value as u32),
            *final(r) == *final(self.w),
    {
        let bits: u32 = bitfield::write_field_u32(self.w.value(), 8, 8, value as u32);
        self.w.bits(bits)
    }
}

/// Reader of field `DB0`
pub type DB0_R = crate::gd32vf103_pac::generic::R<u8, u8>;

/// Write proxy for field `DB0`
pub struct DB0_W<'a> {
    pub w: &'a mut W,
}

impl<'a> DB0_W<'a> {
    /// Writes raw bits to the field
    pub fn bits(self, value: u8) -> (r: &'a mut W)
        ensures
            r@ == bitfield::with_field_u32(old(self.w)@, 0, 8, value as u32),
            *final(r) == *final(self.w),
    {
        let bits: u32 = bitfield::write_field_u32(self.w.value(), 0, 8, value as u32);
        self.w.bits(bits)
    }
}

impl R {
    /// Bits 24:31 - Data byte 3
    pub fn db3(&self) -> (r: DB3_R)
        ensures
            r@ == bitfield::field_u32(self@, 24, 8) as u8,
    {
        DB3_R::new(bitfield::read_field_u32(self.bits(), 24, 8) as u8)
    }

    /// Bits 16:23 - Data byte 2
    pub fn db2(&self) -> (r: DB2_R)
        ensures
            r@ == bitfield::field_u32(self@, 16, 8) as u8,
    {
        DB2_R::new(bitfield::read_field_u32(self.bits(), 16, 8) as u8)
    }

    /// Bits 8:15 - Data byte 1
    pub fn db1(&self) -> (r: DB1_R)
        ensures
            r@ == bitfield::field_u32(self@, 8, 8) as u8,
    {
        DB1_R::new(bitfield::read_field_u32(self.bits(), 8, 8) as u8)
    }

    /// Bits 0:7 - Data byte 0
    pub fn db0(&self) -> (r: DB0_R)
        ensures
            r@ == bitfield::field_u32(self@, 0, 8) as u8,
    {
        DB0_R::new(bitfield::read_field_u32(self.bits(), 0, 8) as u8)
    }
}

impl W {
    /// Bits 24:31 - Data byte 3
    pub fn db3(&mut self) -> (r: DB3_W<'_>)
        ensures
            *r.w == *old(self),
            *final(r.w) == *final(self),
    {
        DB3_W { w: self }
    }

    /// Bits 16:23 - Data byte 2
    pub fn db2(&mut self) -> (r: DB2_W<'_>)
        ensures
            *r.w == *old(self),
            *final(r.w) == *final(self),
    {
        DB2_W { w: self }
    }

    /// Bits 8:15 - Data byte 1
    pub fn db1(&mut self) -> (r: DB1_W<'_>)
        ensures
            *r.w == *old(self),
            *final(r.w) == *final(self),
    {
        DB1_W { w: self }
    }

    /// Bits 0:7 - Data byte 0
    pub fn db0(&mut self) -> (r: DB0_W<'_>)
        ensures
            *r.w == *old(self),
            *final(r.w) == *final(self),
    {
        DB0_W { w: self }
    }
}

} // verus!

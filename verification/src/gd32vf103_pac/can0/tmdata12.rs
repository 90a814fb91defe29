use vstd::prelude::*;
use crate::bitfield;

verus! {

/// Reader of register TMDATA12
pub type R = crate::gd32vf103_pac::generic::R<u32, super::TMDATA12>;

/// Writer for register TMDATA12
pub type W = crate::gd32vf103_pac::generic::W<u32, super::TMDATA12>;

/// Register TMDATA12 `reset()`'s with value 0
impl crate::gd32vf103_pac::generic::ResetValue for super::TMDATA12 {
    type Type = u32;

    open spec fn reset_spec() -> u32 {
        0
    }

    fn reset_value() -> (r: u32) {
        0
    }
}

/// Reader of field `DB7`
pub type DB7_R = crate::gd32vf103_pac::generic::R<u8, u8>;

/// Write proxy for field `DB7`
pub struct DB7_W<'a> {
    pub w: &'a mut W,
}

impl<'a> DB7_W<'a> {
    /// Writes raw bits to the field
    pub fn bits(self, value: u8) -> (r: &'a mut W)
        ensures
            r@ == bitfield::with_field_u32(old(self.w)@, 24, 8, value as u32),
            *final(r) == *final(self.w),
    {
        let bits: u32 = bitfield::write_field_u32(self.w.value(), 24, 8, value as u32);
        self.w.bits(bits)
    }
}

/// Reader of field `DB6`
pub type DB6_R = crate::gd32vf103_pac::generic::R<u8, u8>;

/// Write proxy for field `DB6`
pub struct DB6_W<'a> {
    pub w: &'a mut W,
}

impl<'a> DB6_W<'a> {
    /// Writes raw bits to the field
    pub fn bits(self, value: u8) -> (r: &'a mut W)
        ensures
            r@ == bitfield::with_field_u32(old(self.w)@, 16, 8, value as u32),
            *final(r) == *final(self.w),
    {
        let bits: u32 = bitfield::write_field_u32(self.w.value(), 16, 8, value as u32);
        self.w.bits(bits)
    }
}

/// Reader of field `DB5`
pub type DB5_R = crate::gd32vf103_pac::generic::R<u8, u8>;

/// Write proxy for field `DB5`
pub struct DB5_W<'a> {
    pub w: &'a mut W,
}

impl<'a> DB5_W<'a> {
    /// Writes raw bits to the field
    pub fn bits(self, value: u8) -> (r: &'a mut W)
        ensures
            r@ == bitfield::with_field_u32(old(self.w)@, 8, 8, value as u32),
            *final(r) == *final(self.w),
    {
        let bits: u32 = bitfield::write_field_u32(self.w.value(), 8, 8, value as u32);
        self.w.bits(bits)
    }
}

/// Reader of field `DB4`
pub type DB4_R = crate::gd32vf103_pac::generic::R<u8, u8>;

/// Write proxy for field `DB4`
pub struct DB4_W<'a> {
    pub w: &'a mut W,
}

impl<'a> DB4_W<'a> {
    /// Writes raw bits to the field
    pub fn bits(self, value: u8) -> (r: &'a mut W)
        ensures
            r@ == bitfield::with_field_u32(old(self.w)@, 0, 8, value as u32),
            *final(r) == *final(self.w),
    {
        let bits: u32 = bitfield::write_field_u32(self.w.value(), 0, 8, value as u32);
        self.w.bits(bits)
    }
}

impl R {
    /// Bits 24:31 - Data byte 7
    pub fn db7(&self) -> (r: DB7_R)
        ensures
            r@ == bitfield::field_u32(self@, 24, 8) as u8,
    {
        DB7_R::new(bitfield::read_field_u32(self.bits(), 24, 8) as u8)
    }

    /// Bits 16:23 - Data byte 6
    pub fn db6(&self) -> (r: DB6_R)
        ensures
            r@ == bitfield::field_u32(self@, 16, 8) as u8,
    {
        DB6_R::new(bitfield::read_field_u32(self.bits(), 16, 8) as u8)
    }

    /// Bits 8:15 - Data byte 5
    pub fn db5(&self) -> (r: DB5_R)
        ensures
            r@ == bitfield::field_u32(self@, 8, 8) as u8,
    {
        DB5_R::new(bitfield::read_field_u32(self.bits(), 8, 8) as u8)
    }

    /// Bits 0:7 - Data byte 4
    pub fn db4(&self) -> (r: DB4_R)
        ensures
            r@ == bitfield::field_u32(self@, 0, 8) as u8,
    {
        DB4_R::new(bitfield::read_field_u32(self.bits(), 0, 8) as u8)
    }
}

impl W {
    /// Bits 24:31 - Data byte 7
    pub fn db7(&mut self) -> (r: DB7_W<'_>)
        ensures
            *r.w == *old(self),
            *final(r.w) == *final(self),
    {
        DB7_W { w: self }
    }

    /// Bits 16:23 - Data byte 6
    pub fn db6(&mut self) -> (r: DB6_W<'_>)
        ensures
            *r.w == *old(self),
            *final(r.w) == *final(self),
    {
        DB6_W { w: self }
    }

    /// Bits 8:15 - Data byte 5
    pub fn db5(&mut self) -> (r: DB5_W<'_>)
        ensures
            *r.w == *old(self),
            *final(r.w) == *final(self),
    {
        DB5_W { w: self }
    }

    /// Bits 0:7 - Data byte 4
    pub fn db4(&mut self) -> (r: DB4_W<'_>)
        ensures
            *r.w == *old(self),
            *final(r.w) == *final(self),
    {
        DB4_W { w: self }
    }
}

} // verus!

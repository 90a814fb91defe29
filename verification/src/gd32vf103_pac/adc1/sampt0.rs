use vstd::prelude::*;
use crate::bitfield;

verus! {

/// Reader of register SAMPT0
pub type R = crate::gd32vf103_pac::generic::R<u32, super::SAMPT0>;

/// Writer for register SAMPT0
pub type W = crate::gd32vf103_pac::generic::W<u32, super::SAMPT0>;

/// Register SAMPT0 `reset()`'s with value 0
impl crate::gd32vf103_pac::generic::ResetValue for super::SAMPT0 {
    type Type = u32;

    open spec fn reset_spec() -> u32 {
        0
    }

    fn reset_value() -> (r: u32) {
        0
    }
}

/// Reader of field `SPT10`
pub type SPT10_R = crate::gd32vf103_pac::generic::R<u8, u8>;

/// Write proxy for field `SPT10`
pub struct SPT10_W<'a> {
    pub w: &'a mut W,
}

impl<'a> SPT10_W<'a> {
    /// Writes raw bits to the field
    pub fn bits(self, value: u8) -> (r: &'a mut W)
        ensures
            r@ == bitfield::with_field_u32(old(self.w)@, 0, 3, value as u32),
            *final(r) == *final(self.w),
    {
        let bits: u32 = bitfield::write_field_u32(self.w.value(), 0, 3, value as u32);
        self.w.bits(bits)
    }
}

/// Reader of field `SPT11`
pub type SPT11_R = crate::gd32vf103_pac::generic::R<u8, u8>;

/// Write proxy for field `SPT11`
pub struct SPT11_W<'a> {
    pub w: &'a mut W,
}

impl<'a> SPT11_W<'a> {
    /// Writes raw bits to the field
    pub fn bits(self, value: u8) -> (r: &'a mut W)
        ensures
            r@ == bitfield::with_field_u32(old(self.w)@, 3, 3, value as u32),
            *final(r) == *final(self.w),
    {
        let bits: u32 = bitfield::write_field_u32(self.w.value(), 3, 3, value as u32);
        self.w.bits(bits)
    }
}

/// Reader of field `SPT12`
pub type SPT12_R = crate::gd32vf103_pac::generic::R<u8, u8>;

/// Write proxy for field `SPT12`
pub struct SPT12_W<'a> {
    pub w: &'a mut W,
}

impl<'a> SPT12_W<'a> {
    /// Writes raw bits to the field
    pub fn bits(self, value: u8) -> (r: &'a mut W)
        ensures
            r@ == bitfield::with_field_u32(old(self.w)@, 6, 3, value as u32),
            *final(r) == *final(self.w),
    {
        let bits: u32 = bitfield::write_field_u32(self.w.value(), 6, 3, value as u32);
        self.w.bits(bits)
    }
}

/// Reader of field `SPT13`
pub type SPT13_R = crate::gd32vf103_pac::generic::R<u8, u8>;

/// Write proxy for field `SPT13`
pub struct SPT13_W<'a> {
    pub w: &'a mut W,
}

impl<'a> SPT13_W<'a> {
    /// Writes raw bits to the field
    pub fn bits(self, value: u8) -> (r: &'a mut W)
        ensures
            r@ == bitfield::with_field_u32(old(self.w)@, 9, 3, value as u32),
            *final(r) == *final(self.w),
    {
        let bits: u32 = bitfield::write_field_u32(self.w.value(), 9, 3, value as u32);
        self.w.bits(bits)
    }
}

/// Reader of field `SPT14`
pub type SPT14_R = crate::gd32vf103_pac::generic::R<u8, u8>;

/// Write proxy for field `SPT14`
pub struct SPT14_W<'a> {
    pub w: &'a mut W,
}

impl<'a> SPT14_W<'a> {
    /// Writes raw bits to the field
    pub fn bits(self, value: u8) -> (r: &'a mut W)
        ensures
            r@ == bitfield::with_field_u32(old(self.w)@, 12, 3, value as u32),
            *final(r) == *final(self.w),
    {
        let bits: u32 = bitfield::write_field_u32(self.w.value(), 12, 3, value as u32);
        self.w.bits(bits)
    }
}

/// Reader of field `SPT15`
pub type SPT15_R = crate::gd32vf103_pac::generic::R<u8, u8>;

/// Write proxy for field `SPT15`
pub struct SPT15_W<'a> {
    pub w: &'a mut W,
}

impl<'a> SPT15_W<'a> {
    /// Writes raw bits to the field
    pub fn bits(self, value: u8) -> (r: &'a mut W)
        ensures
            r@ == bitfield::with_field_u32(old(self.w)@, 15, 3, value as u32),
            *final(r) == *final(self.w),
    {
        let bits: u32 = bitfield::write_field_u32(self.w.value(), 15, 3, value as u32);
        self.w.bits(bits)
    }
}

/// Reader of field `SPT16`
pub type SPT16_R = crate::gd32vf103_pac::generic::R<u8, u8>;

/// Write proxy for field `SPT16`
pub struct SPT16_W<'a> {
    pub w: &'a mut W,
}

impl<'a> SPT16_W<'a> {
    /// Writes raw bits to the field
    pub fn bits(self, value: u8) -> (r: &'a mut W)
        ensures
            r@ == bitfield::with_field_u32(old(self.w)@, 18, 3, value as u32),
            *final(r) == *final(self.w),
    {
        let bits: u32 = bitfield::write_field_u32(self.w.value(), 18, 3, value as u32);
        self.w.bits(bits)
    }
}

/// Reader of field `SPT17`
pub type SPT17_R = crate::gd32vf103_pac::generic::R<u8, u8>;

/// Write proxy for field `SPT17`
pub struct SPT17_W<'a> {
    pub w: &'a mut W,
}

impl<'a> SPT17_W<'a> {
    /// Writes raw bits to the field
    pub fn bits(self, value: u8) -> (r: &'a mut W)
        ensures
            r@ == bitfield::with_field_u32(old(self.w)@, 21, 3, value as u32),
            *final(r) == *final(self.w),
    {
        let bits: u32 = bitfield::write_field_u32(self.w.value(), 21, 3, value as u32);
        self.w.bits(bits)
    }
}

impl R {
    /// Bits 0:2 - Channel 10 sample time selection
    pub fn spt10(&self) -> (r: SPT10_R)
        ensures
            r@ == bitfield::field_u32(self@, 0, 3) as u8,
    {
        SPT10_R::new(bitfield::read_field_u32(self.bits(), 0, 3) as u8)
    }

    /// Bits 3:5 - Channel 11 sample time selection
    pub fn spt11(&self) -> (r: SPT11_R)
        ensures
            r@ == bitfield::field_u32(self@, 3, 3) as u8,
    {
        SPT11_R::new(bitfield::read_field_u32(self.bits(), 3, 3) as u8)
    }

    /// Bits 6:8 - Channel 12 sample time selection
    pub fn spt12(&self) -> (r: SPT12_R)
        ensures
            r@ == bitfield::field_u32(self@, 6, 3) as u8,
    {
        SPT12_R::new(bitfield::read_field_u32(self.bits(), 6, 3) as u8)
    }

    /// Bits 9:11 - Channel 13 sample time selection
    pub fn spt13(&self) -> (r: SPT13_R)
        ensures
            r@ == bitfield::field_u32(self@, 9, 3) as u8,
    {
        SPT13_R::new(bitfield::read_field_u32(self.bits(), 9, 3) as u8)
    }

    /// Bits 12:14 - Channel 14 sample time selection
    pub fn spt14(&self) -> (r: SPT14_R)
        ensures
            r@ == bitfield::field_u32(self@, 12, 3) as u8,
    {
        SPT14_R::new(bitfield::read_field_u32(self.bits(), 12, 3) as u8)
    }

    /// Bits 15:17 - Channel 15 sample time selection
    pub fn spt15(&self) -> (r: SPT15_R)
        ensures
            r@ == bitfield::field_u32(self@, 15, 3) as u8,
    {
        SPT15_R::new(bitfield::read_field_u32(self.bits(), 15, 3) as u8)
    }

    /// Bits 18:20 - Channel 16 sample time selection
    pub fn spt16(&self) -> (r: SPT16_R)
        ensures
            r@ == bitfield::field_u32(self@, 18, 3) as u8,
    {
        SPT16_R::new(bitfield::read_field_u32(self.bits(), 18, 3) as u8)
    }

    /// Bits 21:23 - Channel 17 sample time selection
    pub fn spt17(&self) -> (r: SPT17_R)
        ensures
            r@ == bitfield::field_u32(self@, 21, 3) as u8,
    {
        SPT17_R::new(bitfield::read_field_u32(self.bits(), 21, 3) as u8)
    }
}

impl W {
    /// Bits 0:2 - Channel 10 sample time selection
    pub fn spt10(&mut self) -> (r: SPT10_W<'_>)
        ensures
            *r.w == *old(self),
            *final(r.w) == *final(self),
    {
        SPT10_W { w: self }
    }

    /// Bits 3:5 - Channel 11 sample time selection
    pub fn spt11(&mut self) -> (r: SPT11_W<'_>)
        ensures
            *r.w == *old(self),
            *final(r.w) == *final(self),
    {
        SPT11_W { w: self }
    }

    /// Bits 6:8 - Channel 12 sample time selection
    pub fn spt12(&mut self) -> (r: SPT12_W<'_>)
        ensures
            *r.w == *old(self),
            *final(r.w) == *final(self),
    {
        SPT12_W { w: self }
    }

    /// Bits 9:11 - Channel 13 sample time selection
    pub fn spt13(&mut self) -> (r: SPT13_W<'_>)
        ensures
            *r.w == *old(self),
            *final(r.w) == *final(self),
    {
        SPT13_W { w: self }
    }

    /// Bits 12:14 - Channel 14 sample time selection
    pub fn spt14(&mut self) -> (r: SPT14_W<'_>)
        ensures
            *r.w == *old(self),
            *final(r.w) == *final(self),
    {
        SPT14_W { w: self }
    }

    /// Bits 15:17 - Channel 15 sample time selection
    pub fn spt15(&mut self) -> (r: SPT15_W<'_>)
        ensures
            *r.w == *old(self),
            *final(r.w) == *final(self),
    {
        SPT15_W { w: self }
    }

    /// Bits 18:20 - Channel 16 sample time selection
    pub fn spt16(&mut self) -> (r: SPT16_W<'_>)
        ensures
            *r.w == *old(self),
            *final(r.w) == *final(self),
    {
        SPT16_W { w: self }
    }

    /// Bits 21:23 - Channel 17 sample time selection
    pub fn spt17(&mut self) -> (r: SPT17_W<'_>)
        ensures
            *r.w == *old(self),
            *final(r.w) == *final(self),
    {
        SPT17_W { w: self }
    }
}

} // verus!

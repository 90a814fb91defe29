use vstd::prelude::*;
use crate::bitfield;

verus! {

/// Reader of register SAMPT1
pub type R = crate::gd32vf103_pac::generic::R<u32, super::SAMPT1>;

/// Writer for register SAMPT1
pub type W = crate::gd32vf103_pac::generic::W<u32, super::SAMPT1>;

/// Register SAMPT1 `reset()`'s with value 0
impl crate::gd32vf103_pac::generic::ResetValue for super::SAMPT1 {
    type Type = u32;

    open spec fn reset_spec() -> u32 {
        0
    }

    fn reset_value() -> (r: u32) {
        0
    }
}

/// Reader of field `SPT0`
pub type SPT0_R = crate::gd32vf103_pac::generic::R<u8, u8>;

/// Write proxy for field `SPT0`
pub struct SPT0_W<'a> {
    pub w: &'a mut W,
}

impl<'a> SPT0_W<'a> {
    /// Writes raw bits to the field
    pub fn bits(self, value: u8) -> (r: &'a mut W)
        ensures
            r@ == bitfield::with_field_u32(old(self.w)@, 0, 3, value as u32),
            *final(r) == *final(self.w),
    {
        let bits: u32 = bitfield::write_field_u32(self.w.value(), 0, 3, value as u32);
        self.w.bits(bits)
    }
}

/// Reader of field `SPT1`
pub type SPT1_R = crate::gd32vf103_pac::generic::R<u8, u8>;

/// Write proxy for field `SPT1`
pub struct SPT1_W<'a> {
    pub w: &'a mut W,
}

impl<'a> SPT1_W<'a> {
    /// Writes raw bits to the field
    pub fn bits(self, value: u8) -> (r: &'a mut W)
        ensures
            r@ == bitfield::with_field_u32(old(self.w)@, 3, 3, value as u32),
            *final(r) == *final(self.w),
    {
        let bits: u32 = bitfield::write_field_u32(self.w.value(), 3, 3, value as u32);
        self.w.bits(bits)
    }
}

/// Reader of field `SPT2`
pub type SPT2_R = crate::gd32vf103_pac::generic::R<u8, u8>;

/// Write proxy for field `SPT2`
pub struct SPT2_W<'a> {
    pub w: &'a mut W,
}

impl<'a> SPT2_W<'a> {
    /// Writes raw bits to the field
    pub fn bits(self, value: u8) -> (r: &'a mut W)
        ensures
            r@ == bitfield::with_field_u32(old(self.w)@, 6, 3, value as u32),
            *final(r) == *final(self.w),
    {
        let bits: u32 = bitfield::write_field_u32(self.w.value(), 6, 3, value as u32);
        self.w.bits(bits)
    }
}

/// Reader of field `SPT3`
pub type SPT3_R = crate::gd32vf103_pac::generic::R<u8, u8>;

/// Write proxy for field `SPT3`
pub struct SPT3_W<'a> {
    pub w: &'a mut W,
}

impl<'a> SPT3_W<'a> {
    /// Writes raw bits to the field
    pub fn bits(self, value: u8) -> (r: &'a mut W)
        ensures
            r@ == bitfield::with_field_u32(old(self.w)@, 9, 3, value as u32),
            *final(r) == *final(self.w),
    {
        let bits: u32 = bitfield::write_field_u32(self.w.value(), 9, 3, value as u32);
        self.w.bits(bits)
    }
}

/// Reader of field `SPT4`
pub type SPT4_R = crate::gd32vf103_pac::generic::R<u8, u8>;

/// Write proxy for field `SPT4`
pub struct SPT4_W<'a> {
    pub w: &'a mut W,
}

impl<'a> SPT4_W<'a> {
    /// Writes raw bits to the field
    pub fn bits(self, value: u8) -> (r: &'a mut W)
        ensures
            r@ == bitfield::with_field_u32(old(self.w)@, 12, 3, value as u32),
            *final(r) == *final(self.w),
    {
        let bits: u32 = bitfield::write_field_u32(self.w.value(), 12, 3, value as u32);
        self.w.bits(bits)
    }
}

/// Reader of field `SPT5`
pub type SPT5_R = crate::gd32vf103_pac::generic::R<u8, u8>;

/// Write proxy for field `SPT5`
pub struct SPT5_W<'a> {
    pub w: &'a mut W,
}

impl<'a> SPT5_W<'a> {
    /// Writes raw bits to the field
    pub fn bits(self, value: u8) -> (r: &'a mut W)
        ensures
            r@ == bitfield::with_field_u32(old(self.w)@, 15, 3, value as u32),
            *final(r) == *final(self.w),
    {
        let bits: u32 = bitfield::write_field_u32(self.w.value(), 15, 3, value as u32);
        self.w.bits(bits)
    }
}

/// Reader of field `SPT6`
pub type SPT6_R = crate::gd32vf103_pac::generic::R<u8, u8>;

/// Write proxy for field `SPT6`
pub struct SPT6_W<'a> {
    pub w: &'a mut W,
}

impl<'a> SPT6_W<'a> {
    /// Writes raw bits to the field
    pub fn bits(self, value: u8) -> (r: &'a mut W)
        ensures
            r@ == bitfield::with_field_u32(old(self.w)@, 18, 3, value as u32),
            *final(r) == *final(self.w),
    {
        let bits: u32 = bitfield::write_field_u32(self.w.value(), 18, 3, value as u32);
        self.w.bits(bits)
    }
}

/// Reader of field `SPT7`
pub type SPT7_R = crate::gd32vf103_pac::generic::R<u8, u8>;

/// Write proxy for field `SPT7`
pub struct SPT7_W<'a> {
    pub w: &'a mut W,
}

impl<'a> SPT7_W<'a> {
    /// Writes raw bits to the field
    pub fn bits(self, value: u8) -> (r: &'a mut W)
        ensures
            r@ == bitfield::with_field_u32(old(self.w)@, 21, 3, value as u32),
            *final(r) == *final(self.w),
    {
        let bits: u32 = bitfield::write_field_u32(self.w.value(), 21, 3, value as u32);
        self.w.bits(bits)
    }
}

/// Reader of field `SPT8`
pub type SPT8_R = crate::gd32vf103_pac::generic::R<u8, u8>;

/// Write proxy for field `SPT8`
pub struct SPT8_W<'a> {
    pub w: &'a mut W,
}

impl<'a> SPT8_W<'a> {
    /// Writes raw bits to the field
    pub fn bits(self, value: u8) -> (r: &'a mut W)
        ensures
            r@ == bitfield::with_field_u32(old(self.w)@, 24, 3, value as u32),
            *final(r) == *final(self.w),
    {
        let bits: u32 = bitfield::write_field_u32(self.w.value(), 24, 3, value as u32);
        self.w.bits(bits)
    }
}

/// Reader of field `SPT9`
pub type SPT9_R = crate::gd32vf103_pac::generic::R<u8, u8>;

/// Write proxy for field `SPT9`
pub struct SPT9_W<'a> {
    pub w: &'a mut W,
}

impl<'a> SPT9_W<'a> {
    /// Writes raw bits to the field
    pub fn bits(self, value: u8) -> (r: &'a mut W)
        ensures
            r@ == bitfield::with_field_u32(old(self.w)@, 27, 3, value as u32),
            *final(r) == *final(self.w),
    {
        let bits: u32 = bitfield::write_field_u32(self.w.value(), 27, 3, value as u32);
        self.w.bits(bits)
    }
}

impl R {
    /// Bits 0:2 - Channel 0 sample time selection
    pub fn spt0(&self) -> (r: SPT0_R)
        ensures
            r@ == bitfield::field_u32(self@, 0, 3) as u8,
    {
        SPT0_R::new(bitfield::read_field_u32(self.bits(), 0, 3) as u8)
    }

    /// Bits 3:5 - Channel 1 sample time selection
    pub fn spt1(&self) -> (r: SPT1_R)
        ensures
            r@ == bitfield::field_u32(self@, 3, 3) as u8,
    {
        SPT1_R::new(bitfield::read_field_u32(self.bits(), 3, 3) as u8)
    }

    /// Bits 6:8 - Channel 2 sample time selection
    pub fn spt2(&self) -> (r: SPT2_R)
        ensures
            r@ == bitfield::field_u32(self@, 6, 3) as u8,
    {
        SPT2_R::new(bitfield::read_field_u32(self.bits(), 6, 3) as u8)
    }

    /// Bits 9:11 - Channel 3 sample time selection
    pub fn spt3(&self) -> (r: SPT3_R)
        ensures
            r@ == bitfield::field_u32(self@, 9, 3) as u8,
    {
        SPT3_R::new(bitfield::read_field_u32(self.bits(), 9, 3) as u8)
    }

    /// Bits 12:14 - Channel 4 sample time selection
    pub fn spt4(&self) -> (r: SPT4_R)
        ensures
            r@ == bitfield::field_u32(self@, 12, 3) as u8,
    {
        SPT4_R::new(bitfield::read_field_u32(self.bits(), 12, 3) as u8)
    }

    /// Bits 15:17 - Channel 5 sample time selection
    pub fn spt5(&self) -> (r: SPT5_R)
        ensures
            r@ == bitfield::field_u32(self@, 15, 3) as u8,
    {
        SPT5_R::new(bitfield::read_field_u32(self.bits(), 15, 3) as u8)
    }

    /// Bits 18:20 - Channel 6 sample time selection
    pub fn spt6(&self) -> (r: SPT6_R)
        ensures
            r@ == bitfield::field_u32(self@, 18, 3) as u8,
    {
        SPT6_R::new(bitfield::read_field_u32(self.bits(), 18, 3) as u8)
    }

    /// Bits 21:23 - Channel 7 sample time selection
    pub fn spt7(&self) -> (r: SPT7_R)
        ensures
            r@ == bitfield::field_u32(self@, 21, 3) as u8,
    {
        SPT7_R::new(bitfield::read_field_u32(self.bits(), 21, 3) as u8)
    }

    /// Bits 24:26 - Channel 8 sample time selection
    pub fn spt8(&self) -> (r: SPT8_R)
        ensures
            r@ == bitfield::field_u32(self@, 24, 3) as u8,
    {
        SPT8_R::new(bitfield::read_field_u32(self.bits(), 24, 3) as u8)
    }

    /// Bits 27:29 - Channel 9 sample time selection
    pub fn spt9(&self) -> (r: SPT9_R)
        ensures
            r@ == bitfield::field_u32(self@, 27, 3) as u8,
    {
        SPT9_R::new(bitfield::read_field_u32(self.bits(), 27, 3) as u8)
    }
}

impl W {
    /// Bits 0:2 - Channel 0 sample time selection
    pub fn spt0(&mut self) -> (r: SPT0_W<'_>)
        ensures
            *r.w == *old(self),
            *final(r.w) == *final(self),
    {
        SPT0_W { w: self }
    }

    /// Bits 3:5 - Channel 1 sample time selection
    pub fn spt1(&mut self) -> (r: SPT1_W<'_>)
        ensures
            *r.w == *old(self),
            *final(r.w) == *final(self),
    {
        SPT1_W { w: self }
    }

    /// Bits 6:8 - Channel 2 sample time selection
    pub fn spt2(&mut self) -> (r: SPT2_W<'_>)
        ensures
            *r.w == *old(self),
            *final(r.w) == *final(self),
    {
        SPT2_W { w: self }
    }

    /// Bits 9:11 - Channel 3 sample time selection
    pub fn spt3(&mut self) -> (r: SPT3_W<'_>)
        ensures
            *r.w == *old(self),
            *final(r.w) == *final(self),
    {
        SPT3_W { w: self }
    }

    /// Bits 12:14 - Channel 4 sample time selection
    pub fn spt4(&mut self) -> (r: SPT4_W<'_>)
        ensures
            *r.w == *old(self),
            *final(r.w) == *final(self),
    {
        SPT4_W { w: self }
    }

    /// Bits 15:17 - Channel 5 sample time selection
    pub fn spt5(&mut self) -> (r: SPT5_W<'_>)
        ensures
            *r.w == *old(self),
            *final(r.w) == *final(self),
    {
        SPT5_W { w: self }
    }

    /// Bits 18:20 - Channel 6 sample time selection
    pub fn spt6(&mut self) -> (r: SPT6_W<'_>)
        ensures
            *r.w == *old(self),
            *final(r.w) == *final(self),
    {
        SPT6_W { w: self }
    }

    /// Bits 21:23 - Channel 7 sample time selection
    pub fn spt7(&mut self) -> (r: SPT7_W<'_>)
        ensures
            *r.w == *old(self),
            *final(r.w) == *final(self),
    {
        SPT7_W { w: self }
    }

    /// Bits 24:26 - Channel 8 sample time selection
    pub fn spt8(&mut self) -> (r: SPT8_W<'_>)
        ensures
            *r.w == *old(self),
            *final(r.w) == *final(self),
    {
        SPT8_W { w: self }
    }

    /// Bits 27:29 - Channel 9 sample time selection
    pub fn spt9(&mut self) -> (r: SPT9_W<'_>)
        ensures
            *r.w == *old(self),
            *final(r.w) == *final(self),
    {
        SPT9_W { w: self }
    }
}

} // verus!

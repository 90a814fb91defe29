use vstd::prelude::*;
use crate::bitfield;

verus! {

/// Reader of register ISQ
pub type R = crate::gd32vf103_pac::generic::R<u32, super::ISQ>;

/// Writer for register ISQ
pub type W = crate::gd32vf103_pac::generic::W<u32, super::ISQ>;

/// Register ISQ `reset()`'s with value 0
impl crate::gd32vf103_pac::generic::ResetValue for super::ISQ {
    type Type = u32;

    open spec fn reset_spec() -> u32 {
        0
    }

    fn reset_value() -> (r: u32) {
        0
    }
}

/// Reader of field `IL`
pub type IL_R = crate::gd32vf103_pac::generic::R<u8, u8>;

/// Write proxy for field `IL`
pub struct IL_W<'a> {
    pub w: &'a mut W,
}

impl<'a> IL_W<'a> {
    /// Writes raw bits to the field
    pub fn bits(self, value: u8) -> (r: &'a mut W)
        ensures
            r@ == bitfield::with_field_u32(old(self.w)@, 20, 2, value as u32),
            *final(r) == *final(self.w),
    {
        let bits: u32 = bitfield::write_field_u32(self.w.value(), 20, 2, value as u32);
        self.w.bits(bits)
    }
}

/// Reader of field `ISQ3`
pub type ISQ3_R = crate::gd32vf103_pac::generic::R<u8, u8>;

/// Write proxy for field `ISQ3`
pub struct ISQ3_W<'a> {
    pub w: &'a mut W,
}

impl<'a> ISQ3_W<'a> {
    /// Writes raw bits to the field
    pub fn bits(self, value: u8) -> (r: &'a mut W)
        ensures
            r@ == bitfield::with_field_u32(old(self.w)@, 15, 5, value as u32),
            *final(r) == *final(self.w),
    {
        let bits: u32 = bitfield::write_field_u32(self.w.value(), 15, 5, value as u32);
        self.w.bits(bits)
    }
}

/// Reader of field `ISQ2`
pub type ISQ2_R = crate::gd32vf103_pac::generic::R<u8, u8>;

/// Write proxy for field `ISQ2`
pub struct ISQ2_W<'a> {
    pub w: &'a mut W,
}

impl<'a> ISQ2_W<'a> {
    /// Writes raw bits to the field
    pub fn bits(self, value: u8) -> (r: &'a mut W)
        ensures
            r@ == bitfield::with_field_u32(old(self.w)@, 10, 5, value as u32),
            *final(r) == *final(self.w),
    {
        let bits: u32 = bitfield::write_field_u32(self.w.value(), 10, 5, value as u32);
        self.w.bits(bits)
    }
}

/// Reader of field `ISQ1`
pub type ISQ1_R = crate::gd32vf103_pac::generic::R<u8, u8>;

/// Write proxy for field `ISQ1`
pub struct ISQ1_W<'a> {
    pub w: &'a mut W,
}

impl<'a> ISQ1_W<'a> {
    /// Writes raw bits to the field
    pub fn bits(self, value: u8) -> (r: &'a mut W)
        ensures
            r@ == bitfield::with_field_u32(old(self.w)@, 5, 5, value as u32),
            *final(r) == *final(self.w),
    {
        let bits: u32 = bitfield::write_field_u32(self.w.value(), 5, 5, value as u32);
        self.w.bits(bits)
    }
}

/// Reader of field `ISQ0`
pub type ISQ0_R = crate::gd32vf103_pac::generic::R<u8, u8>;

/// Write proxy for field `ISQ0`
pub struct ISQ0_W<'a> {
    pub w: &'a mut W,
}

impl<'a> ISQ0_W<'a> {
    /// Writes raw bits to the field
    pub fn bits(self, value: u8) -> (r: &'a mut W)
        ensures
            r@ == bitfield::with_field_u32(old(self.w)@, 0, 5, value as u32),
            *final(r) == *final(self.w),
    {
        let bits: u32 = bitfield::write_field_u32(self.w.value(), 0, 5, value as u32);
        self.w.bits(bits)
    }
}

impl R {
    /// Bits 20:21 - Inserted channel group length
    pub fn il(&self) -> (r: IL_R)
        ensures
            r@ == bitfield::field_u32(self@, 20, 2) as u8,
    {
        IL_R::new(bitfield::read_field_u32(self.bits(), 20, 2) as u8)
    }

    /// Bits 15:19 - 4th conversion in inserted sequence
    pub fn isq3(&self) -> (r: ISQ3_R)
        ensures
            r@ == bitfield::field_u32(self@, 15, 5) as u8,
    {
        ISQ3_R::new(bitfield::read_field_u32(self.bits(), 15, 5) as u8)
    }

    /// Bits 10:14 - 3rd conversion in inserted sequence
    pub fn isq2(&self) -> (r: ISQ2_R)
        ensures
            r@ == bitfield::field_u32(self@, 10, 5) as u8,
    {
        ISQ2_R::new(bitfield::read_field_u32(self.bits(), 10, 5) as u8)
    }

    /// Bits 5:9 - 2nd conversion in inserted sequence
    pub fn isq1(&self) -> (r: ISQ1_R)
        ensures
            r@ == bitfield::field_u32(self@, 5, 5) as u8,
    {
        ISQ1_R::new(bitfield::read_field_u32(self.bits(), 5, 5) as u8)
    }

    /// Bits 0:4 - 1st conversion in inserted sequence
    pub fn isq0(&self) -> (r: ISQ0_R)
        ensures
            r@ == bitfield::field_u32(self@, 0, 5) as u8,
    {
        ISQ0_R::new(bitfield::read_field_u32(self.bits(), 0, 5) as u8)
    }
}

impl W {
    /// Bits 20:21 - Inserted channel group length
    pub fn il(&mut self) -> (r: IL_W<'_>)
        ensures
            *r.w == *old(self),
            *final(r.w) == *final(self),
    {
        IL_W { w: self }
    }

    /// Bits 15:19 - 4th conversion in inserted sequence
    pub fn isq3(&mut self) -> (r: ISQ3_W<'_>)
        ensures
            *r.w == *old(self),
            *final(r.w) == *final(self),
    {
        ISQ3_W { w: self }
    }

    /// Bits 10:14 - 3rd conversion in inserted sequence
    pub fn isq2(&mut self) -> (r: ISQ2_W<'_>)
        ensures
            *r.w == *old(self),
            *final(r.w) == *final(self),
    {
        ISQ2_W { w: self }
    }

    /// Bits 5:9 - 2nd conversion in inserted sequence
    pub fn isq1(&mut self) -> (r: ISQ1_W<'_>)
        ensures
            *r.w == *old(self),
            *final(r.w) == *final(self),
    {
        ISQ1_W { w: self }
    }

    /// Bits 0:4 - 1st conversion in inserted sequence
    pub fn isq0(&mut self) -> (r: ISQ0_W<'_>)
        ensures
            *r.w == *old(self),
            *final(r.w) == *final(self),
    {
        ISQ0_W { w: self }
    }
}

} // verus!

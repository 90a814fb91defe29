use vstd::prelude::*;
use crate::bitfield;

verus! {

/// Reader of register RSQ2
pub type R = crate::gd32vf103_pac::generic::R<u32, super::RSQ2>;

/// Writer for register RSQ2
pub type W = crate::gd32vf103_pac::generic::W<u32, super::RSQ2>;

/// Register RSQ2 `reset()`'s with value 0
impl crate::gd32vf103_pac::generic::ResetValue for super::RSQ2 {
    type Type = u32;

    open spec fn reset_spec() -> u32 {
        0
    }

    fn reset_value() -> (r: u32) {
        0
    }
}

/// Reader of field `RSQ5`
pub type RSQ5_R = crate::gd32vf103_pac::generic::R<u8, u8>;

/// Write proxy for field `RSQ5`
pub struct RSQ5_W<'a> {
    pub w: &'a mut W,
}

impl<'a> RSQ5_W<'a> {
    /// Writes raw bits to the field
    pub fn bits(self, value: u8) -> (r: &'a mut W)
        ensures
            r@ == bitfield::with_field_u32(old(self.w)@, 25, 5, value as u32),
            *final(r) == *final(self.w),
    {
        let bits: u32 = bitfield::write_field_u32(self.w.value(), 25, 5, value as u32);
        self.w.bits(bits)
    }
}

/// Reader of field `RSQ4`
pub type RSQ4_R = crate::gd32vf103_pac::generic::R<u8, u8>;

/// Write proxy for field `RSQ4`
pub struct RSQ4_W<'a> {
    pub w: &'a mut W,
}

impl<'a> RSQ4_W<'a> {
    /// Writes raw bits to the field
    pub fn bits(self, value: u8) -> (r: &'a mut W)
        ensures
            r@ == bitfield::with_field_u32(old(self.w)@, 20, 5, value as u32),
            *final(r) == *final(self.w),
    {
        let bits: u32 = bitfield::write_field_u32(self.w.value(), 20, 5, value as u32);
        self.w.bits(bits)
    }
}

/// Reader of field `RSQ3`
pub type RSQ3_R = crate::gd32vf103_pac::generic::R<u8, u8>;

/// Write proxy for field `RSQ3`
pub struct RSQ3_W<'a> {
    pub w: &'a mut W,
}

impl<'a> RSQ3_W<'a> {
    /// Writes raw bits to the field
    pub fn bits(self, value: u8) -> (r: &'a mut W)
        ensures
            r@ == bitfield::with_field_u32(old(self.w)@, 15, 5, value as u32),
            *final(r) == *final(self.w),
    {
        let bits: u32 = bitfield::write_field_u32(self.w.value(), 15, 5, value as u32);
        self.w.bits(bits)
    }
}

/// Reader of field `RSQ2`
pub type RSQ2_R = crate::gd32vf103_pac::generic::R<u8, u8>;

/// Write proxy for field `RSQ2`
pub struct RSQ2_W<'a> {
    pub w: &'a mut W,
}

impl<'a> RSQ2_W<'a> {
    /// Writes raw bits to the field
    pub fn bits(self, value: u8) -> (r: &'a mut W)
        ensures
            r@ == bitfield::with_field_u32(old(self.w)@, 10, 5, value as u32),
            *final(r) == *final(self.w),
    {
        let bits: u32 = bitfield::write_field_u32(self.w.value(), 10, 5, value as u32);
        self.w.bits(bits)
    }
}

/// Reader of field `RSQ1`
pub type RSQ1_R = crate::gd32vf103_pac::generic::R<u8, u8>;

/// Write proxy for field `RSQ1`
pub struct RSQ1_W<'a> {
    pub w: &'a mut W,
}

impl<'a> RSQ1_W<'a> {
    /// Writes raw bits to the field
    pub fn bits(self, value: u8) -> (r: &'a mut W)
        ensures
            r@ == bitfield::with_field_u32(old(self.w)@, 5, 5, value as u32),
            *final(r) == *final(self.w),
    {
        let bits: u32 = bitfield::write_field_u32(self.w.value(), 5, 5, value as u32);
        self.w.bits(bits)
    }
}

/// Reader of field `RSQ0`
pub type RSQ0_R = crate::gd32vf103_pac::generic::R<u8, u8>;

/// Write proxy for field `RSQ0`
pub struct RSQ0_W<'a> {
    pub w: &'a mut W,
}

impl<'a> RSQ0_W<'a> {
    /// Writes raw bits to the field
    pub fn bits(self, value: u8) -> (r: &'a mut W)
        ensures
            r@ == bitfield::with_field_u32(old(self.w)@, 0, 5, value as u32),
            *final(r) == *final(self.w),
    {
        let bits: u32 = bitfield::write_field_u32(self.w.value(), 0, 5, value as u32);
        self.w.bits(bits)
    }
}

impl R {
    /// Bits 25:29 - 6th conversion in regular sequence
    pub fn rsq5(&self) -> (r: RSQ5_R)
        ensures
            r@ == bitfield::field_u32(self@, 25, 5) as u8,
    {
        RSQ5_R::new(bitfield::read_field_u32(self.bits(), 25, 5) as u8)
    }

    /// Bits 20:24 - 5th conversion in regular sequence
    pub fn rsq4(&self) -> (r: RSQ4_R)
        ensures
            r@ == bitfield::field_u32(self@, 20, 5) as u8,
    {
        RSQ4_R::new(bitfield::read_field_u32(self.bits(), 20, 5) as u8)
    }

    /// Bits 15:19 - 4th conversion in regular sequence
    pub fn rsq3(&self) -> (r: RSQ3_R)
        ensures
            r@ == bitfield::field_u32(self@, 15, 5) as u8,
    {
        RSQ3_R::new(bitfield::read_field_u32(self.bits(), 15, 5) as u8)
    }

    /// Bits 10:14 - 3rd conversion in regular sequence
    pub fn rsq2(&self) -> (r: RSQ2_R)
        ensures
            r@ == bitfield::field_u32(self@, 10, 5) as u8,
    {
        RSQ2_R::new(bitfield::read_field_u32(self.bits(), 10, 5) as u8)
    }

    /// Bits 5:9 - 2nd conversion in regular sequence
    pub fn rsq1(&self) -> (r: RSQ1_R)
        ensures
            r@ == bitfield::field_u32(self@, 5, 5) as u8,
    {
        RSQ1_R::new(bitfield::read_field_u32(self.bits(), 5, 5) as u8)
    }

    /// Bits 0:4 - 1st conversion in regular sequence
    pub fn rsq0(&self) -> (r: RSQ0_R)
        ensures
            r@ == bitfield::field_u32(self@, 0, 5) as u8,
    {
        RSQ0_R::new(bitfield::read_field_u32(self.bits(), 0, 5) as u8)
    }
}

impl W {
    /// Bits 25:29 - 6th conversion in regular sequence
    pub fn rsq5(&mut self) -> (r: RSQ5_W<'_>)
        ensures
            *r.w == *old(self),
            *final(r.w) == *final(self),
    {
        RSQ5_W { w: self }
    }

    /// Bits 20:24 - 5th conversion in regular sequence
    pub fn rsq4(&mut self) -> (r: RSQ4_W<'_>)
        ensures
            *r.w == *old(self),
            *final(r.w) == *final(self),
    {
        RSQ4_W { w: self }
    }

    /// Bits 15:19 - 4th conversion in regular sequence
    pub fn rsq3(&mut self) -> (r: RSQ3_W<'_>)
        ensures
            *r.w == *old(self),
            *final(r.w) == *final(self),
    {
        RSQ3_W { w: self }
    }

    /// Bits 10:14 - 3rd conversion in regular sequence
    pub fn rsq2(&mut self) -> (r: RSQ2_W<'_>)
        ensures
            *r.w == *old(self),
            *final(r.w) == *final(self),
    {
        RSQ2_W { w: self }
    }

    /// Bits 5:9 - 2nd conversion in regular sequence
    pub fn rsq1(&mut self) -> (r: RSQ1_W<'_>)
        ensures
            *r.w == *old(self),
            *final(r.w) == *final(self),
    {
        RSQ1_W { w: self }
    }

    /// Bits 0:4 - 1st conversion in regular sequence
    pub fn rsq0(&mut self) -> (r: RSQ0_W<'_>)
        ensures
            *r.w == *old(self),
            *final(r.w) == *final(self),
    {
        RSQ0_W { w: self }
    }
}

} // verus!

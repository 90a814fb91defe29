use vstd::prelude::*;
use crate::bitfield;

verus! {

/// Reader of register RSQ1
pub type R = crate::gd32vf103_pac::generic::R<u32, super::RSQ1>;

/// Writer for register RSQ1
pub type W = crate::gd32vf103_pac::generic::W<u32, super::RSQ1>;

/// Register RSQ1 `reset()`'s with value 0
impl crate::gd32vf103_pac::generic::ResetValue for super::RSQ1 {
    type Type = u32;

    open spec fn reset_spec() -> u32 {
        0
    }

    fn reset_value() -> (r: u32) {
        0
    }
}

/// Reader of field `RSQ11`
pub type RSQ11_R = crate::gd32vf103_pac::generic::R<u8, u8>;

/// Write proxy for field `RSQ11`
pub struct RSQ11_W<'a> {
    pub w: &'a mut W,
}

impl<'a> RSQ11_W<'a> {
    /// Writes raw bits to the field
    pub fn bits(self, value: u8) -> (r: &'a mut W)
        ensures
            r@ == bitfield::with_field_u32(old(self.w)@, 25, 5, value as u32),
            *final(r) == *final(self.w),
    {
        let bits: u32 = bitfield::write_field_u32(self.w.value(), 25, 5, value as u32);
        self.w.bits(bits)
    }
}

/// Reader of field `RSQ10`
pub type RSQ10_R = crate::gd32vf103_pac::generic::R<u8, u8>;

/// Write proxy for field `RSQ10`
pub struct RSQ10_W<'a> {
    pub w: &'a mut W,
}

impl<'a> RSQ10_W<'a> {
    /// Writes raw bits to the field
    pub fn bits(self, value: u8) -> (r: &'a mut W)
        ensures
            r@ == bitfield::with_field_u32(old(self.w)@, 20, 5, value as u32),
            *final(r) == *final(self.w),
    {
        let bits: u32 = bitfield::write_field_u32(self.w.value(), 20, 5, value as u32);
        self.w.bits(bits)
    }
}

/// Reader of field `RSQ9`
pub type RSQ9_R = crate::gd32vf103_pac::generic::R<u8, u8>;

/// Write proxy for field `RSQ9`
pub struct RSQ9_W<'a> {
    pub w: &'a mut W,
}

impl<'a> RSQ9_W<'a> {
    /// Writes raw bits to the field
    pub fn bits(self, value: u8) -> (r: &'a mut W)
        ensures
            r@ == bitfield::with_field_u32(old(self.w)@, 15, 5, value as u32),
            *final(r) == *final(self.w),
    {
        let bits: u32 = bitfield::write_field_u32(self.w.value(), 15, 5, value as u32);
        self.w.bits(bits)
    }
}

/// Reader of field `RSQ8`
pub type RSQ8_R = crate::gd32vf103_pac::generic::R<u8, u8>;

/// Write proxy for field `RSQ8`
pub struct RSQ8_W<'a> {
    pub w: &'a mut W,
}

impl<'a> RSQ8_W<'a> {
    /// Writes raw bits to the field
    pub fn bits(self, value: u8) -> (r: &'a mut W)
        ensures
            r@ == bitfield::with_field_u32(old(self.w)@, 10, 5, value as u32),
            *final(r) == *final(self.w),
    {
        let bits: u32 = bitfield::write_field_u32(self.w.value(), 10, 5, value as u32);
        self.w.bits(bits)
    }
}

/// Reader of field `RSQ7`
pub type RSQ7_R = crate::gd32vf103_pac::generic::R<u8, u8>;

/// Write proxy for field `RSQ7`
pub struct RSQ7_W<'a> {
    pub w: &'a mut W,
}

impl<'a> RSQ7_W<'a> {
    /// Writes raw bits to the field
    pub fn bits(self, value: u8) -> (r: &'a mut W)
        ensures
            r@ == bitfield::with_field_u32(old(self.w)@, 5, 5, value as u32),
            *final(r) == *final(self.w),
    {
        let bits: u32 = bitfield::write_field_u32(self.w.value(), 5, 5, value as u32);
        self.w.bits(bits)
    }
}

/// Reader of field `RSQ6`
pub type RSQ6_R = crate::gd32vf103_pac::generic::R<u8, u8>;

/// Write proxy for field `RSQ6`
pub struct RSQ6_W<'a> {
    pub w: &'a mut W,
}

impl<'a> RSQ6_W<'a> {
    /// Writes raw bits to the field
    pub fn bits(self, value: u8) -> (r: &'a mut W)
        ensures
            r@ == bitfield::with_field_u32(old(self.w)@, 0, 5, value as u32),
            *final(r) == *final(self.w),
    {
        let bits: u32 = bitfield::write_field_u32(self.w.value(), 0, 5, value as u32);
        self.w.bits(bits)
    }
}

impl R {
    /// Bits 25:29 - 12th conversion in regular sequence
    pub fn rsq11(&self) -> (r: RSQ11_R)
        ensures
            r@ == bitfield::field_u32(self@, 25, 5) as u8,
    {
        RSQ11_R::new(bitfield::read_field_u32(self.bits(), 25, 5) as u8)
    }

    /// Bits 20:24 - 11th conversion in regular sequence
    pub fn rsq10(&self) -> (r: RSQ10_R)
        ensures
            r@ == bitfield::field_u32(self@, 20, 5) as u8,
    {
        RSQ10_R::new(bitfield::read_field_u32(self.bits(), 20, 5) as u8)
    }

    /// Bits 15:19 - 10th conversion in regular sequence
    pub fn rsq9(&self) -> (r: RSQ9_R)
        ensures
            r@ == bitfield::field_u32(self@, 15, 5) as u8,
    {
        RSQ9_R::new(bitfield::read_field_u32(self.bits(), 15, 5) as u8)
    }

    /// Bits 10:14 - 9th conversion in regular sequence
    pub fn rsq8(&self) -> (r: RSQ8_R)
        ensures
            r@ == bitfield::field_u32(self@, 10, 5) as u8,
    {
        RSQ8_R::new(bitfield::read_field_u32(self.bits(), 10, 5) as u8)
    }

    /// Bits 5:9 - 8th conversion in regular sequence
    pub fn rsq7(&self) -> (r: RSQ7_R)
        ensures
            r@ == bitfield::field_u32(self@, 5, 5) as u8,
    {
        RSQ7_R::new(bitfield::read_field_u32(self.bits(), 5, 5) as u8)
    }

    /// Bits 0:4 - 7th conversion in regular sequence
    pub fn rsq6(&self) -> (r: RSQ6_R)
        ensures
            r@ == bitfield::field_u32(self@, 0, 5) as u8,
    {
        RSQ6_R::new(bitfield::read_field_u32(self.bits(), 0, 5) as u8)
    }
}

impl W {
    /// Bits 25:29 - 12th conversion in regular sequence
    pub fn rsq11(&mut self) -> (r: RSQ11_W<'_>)
        ensures
            *r.w == *old(self),
            *final(r.w) == *final(self),
    {
        RSQ11_W { w: self }
    }

    /// Bits 20:24 - 11th conversion in regular sequence
    pub fn rsq10(&mut self) -> (r: RSQ10_W<'_>)
        ensures
            *r.w == *old(self),
            *final(r.w) == *final(self),
    {
        RSQ10_W { w: self }
    }

    /// Bits 15:19 - 10th conversion in regular sequence
    pub fn rsq9(&mut self) -> (r: RSQ9_W<'_>)
        ensures
            *r.w == *old(self),
            *final(r.w) == *final(self),
    {
        RSQ9_W { w: self }
    }

    /// Bits 10:14 - 9th conversion in regular sequence
    pub fn rsq8(&mut self) -> (r: RSQ8_W<'_>)
        ensures
            *r.w == *old(self),
            *final(r.w) == *final(self),
    {
        RSQ8_W { w: self }
    }

    /// Bits 5:9 - 8th conversion in regular sequence
    pub fn rsq7(&mut self) -> (r: RSQ7_W<'_>)
        ensures
            *r.w == *old(self),
            *final(r.w) == *final(self),
    {
        RSQ7_W { w: self }
    }

    /// Bits 0:4 - 7th conversion in regular sequence
    pub fn rsq6(&mut self) -> (r: RSQ6_W<'_>)
        ensures
            *r.w == *old(self),
            *final(r.w) == *final(self),
    {
        RSQ6_W { w: self }
    }
}

} // verus!

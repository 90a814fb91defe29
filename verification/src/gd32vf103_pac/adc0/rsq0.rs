use vstd::prelude::*;
use crate::bitfield;

verus! {

/// Reader of register RSQ0
pub type R = crate::gd32vf103_pac::generic::R<u32, super::RSQ0>;

/// Writer for register RSQ0
pub type W = crate::gd32vf103_pac::generic::W<u32, super::RSQ0>;

/// Register RSQ0 `reset()`'s with value 0
impl crate::gd32vf103_pac::generic::ResetValue for super::RSQ0 {
    type Type = u32;

    open spec fn reset_spec() -> u32 {
        0
    }

    fn reset_value() -> (r: u32) {
        0
    }
}

/// Reader of field `RL`
pub type RL_R = crate::gd32vf103_pac::generic::R<u8, u8>;

/// Write proxy for field `RL`
pub struct RL_W<'a> {
    pub w: &'a mut W,
}

impl<'a> RL_W<'a> {
    /// Writes raw bits to the field
    pub fn bits(self, value: u8) -> (r: &'a mut W)
        ensures
            r@ == bitfield::with_field_u32(old(self.w)@, 20, 4, value as u32),
            *final(r) == *final(self.w),
    {
        let bits: u32 = bitfield::write_field_u32(self.w.value(), 20, 4, value as u32);
        self.w.bits(bits)
    }
}

/// Reader of field `RSQ15`
pub type RSQ15_R = crate::gd32vf103_pac::generic::R<u8, u8>;

/// Write proxy for field `RSQ15`
pub struct RSQ15_W<'a> {
    pub w: &'a mut W,
}

impl<'a> RSQ15_W<'a> {
    /// Writes raw bits to the field
    pub fn bits(self, value: u8) -> (r: &'a mut W)
        ensures
            r@ == bitfield::with_field_u32(old(self.w)@, 15, 5, value as u32),
            *final(r) == *final(self.w),
    {
        let bits: u32 = bitfield::write_field_u32(self.w.value(), 15, 5, value as u32);
        self.w.bits(bits)
    }
}

/// Reader of field `RSQ14`
pub type RSQ14_R = crate::gd32vf103_pac::generic::R<u8, u8>;

/// Write proxy for field `RSQ14`
pub struct RSQ14_W<'a> {
    pub w: &'a mut W,
}

impl<'a> RSQ14_W<'a> {
    /// Writes raw bits to the field
    pub fn bits(self, value: u8) -> (r: &'a mut W)
        ensures
            r@ == bitfield::with_field_u32(old(self.w)@, 10, 5, value as u32),
            *final(r) == *final(self.w),
    {
        let bits: u32 = bitfield::write_field_u32(self.w.value(), 10, 5, value as u32);
        self.w.bits(bits)
    }
}

/// Reader of field `RSQ13`
pub type RSQ13_R = crate::gd32vf103_pac::generic::R<u8, u8>;

/// Write proxy for field `RSQ13`
pub struct RSQ13_W<'a> {
    pub w: &'a mut W,
}

impl<'a> RSQ13_W<'a> {
    /// Writes raw bits to the field
    pub fn bits(self, value: u8) -> (r: &'a mut W)
        ensures
            r@ == bitfield::with_field_u32(old(self.w)@, 5, 5, value as u32),
            *final(r) == *final(self.w),
    {
        let bits: u32 = bitfield::write_field_u32(self.w.value(), 5, 5, value as u32);
        self.w.bits(bits)
    }
}

/// Reader of field `RSQ12`
pub type RSQ12_R = crate::gd32vf103_pac::generic::R<u8, u8>;

/// Write proxy for field `RSQ12`
pub struct RSQ12_W<'a> {
    pub w: &'a mut W,
}

impl<'a> RSQ12_W<'a> {
    /// Writes raw bits to the field
    pub fn bits(self, value: u8) -> (r: &'a mut W)
        ensures
            r@ == bitfield::with_field_u32(old(self.w)@, 0, 5, value as u32),
            *final(r) == *final(self.w),
    {
        let bits: u32 = bitfield::write_field_u32(self.w.value(), 0, 5, value as u32);
        self.w.bits(bits)
    }
}

impl R {
    /// Bits 20:23 - Regular channel group length
    pub fn rl(&self) -> (r: RL_R)
        ensures
            r@ == bitfield::field_u32(self@, 20, 4) as u8,
    {
        RL_R::new(bitfield::read_field_u32(self.bits(), 20, 4) as u8)
    }

    /// Bits 15:19 - 16th conversion in regular sequence
    pub fn rsq15(&self) -> (r: RSQ15_R)
        ensures
            r@ == bitfield::field_u32(self@, 15, 5) as u8,
    {
        RSQ15_R::new(bitfield::read_field_u32(self.bits(), 15, 5) as u8)
    }

    /// Bits 10:14 - 15th conversion in regular sequence
    pub fn rsq14(&self) -> (r: RSQ14_R)
        ensures
            r@ == bitfield::field_u32(self@, 10, 5) as u8,
    {
        RSQ14_R::new(bitfield::read_field_u32(self.bits(), 10, 5) as u8)
    }

    /// Bits 5:9 - 14th conversion in regular sequence
    pub fn rsq13(&self) -> (r: RSQ13_R)
        ensures
            r@ == bitfield::field_u32(self@, 5, 5) as u8,
    {
        RSQ13_R::new(bitfield::read_field_u32(self.bits(), 5, 5) as u8)
    }

    /// Bits 0:4 - 13th conversion in regular sequence
    pub fn rsq12(&self) -> (r: RSQ12_R)
        ensures
            r@ == bitfield::field_u32(self@, 0, 5) as u8,
    {
        RSQ12_R::new(bitfield::read_field_u32(self.bits(), 0, 5) as u8)
    }
}

impl W {
    /// Bits 20:23 - Regular channel group length
    pub fn rl(&mut self) -> (r: RL_W<'_>)
        ensures
            *r.w == *old(self),
            *final(r.w) == *final(self),
    {
        RL_W { w: self }
    }

    /// Bits 15:19 - 16th conversion in regular sequence
    pub fn rsq15(&mut self) -> (r: RSQ15_W<'_>)
        ensures
            *r.w == *old(self),
            *final(r.w) == *final(self),
    {
        RSQ15_W { w: self }
    }

    /// Bits 10:14 - 15th conversion in regular sequence
    pub fn rsq14(&mut self) -> (r: RSQ14_W<'_>)
        ensures
            *r.w == *old(self),
            *final(r.w) == *final(self),
    {
        RSQ14_W { w: self }
    }

    /// Bits 5:9 - 14th conversion in regular sequence
    pub fn rsq13(&mut self) -> (r: RSQ13_W<'_>)
        ensures
            *r.w == *old(self),
            *final(r.w) == *final(self),
    {
        RSQ13_W { w: self }
    }

    /// Bits 0:4 - 13th conversion in regular sequence
    pub fn rsq12(&mut self) -> (r: RSQ12_W<'_>)
        ensures
            *r.w == *old(self),
            *final(r.w) == *final(self),
    {
        RSQ12_W { w: self }
    }
}

} // verus!

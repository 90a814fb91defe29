use vstd::prelude::*;
use crate::bitfield;

verus! {

/// Reader of register EXTISS2
pub type R = crate::gd32vf103_pac::generic::R<u32, super::EXTISS2>;

/// Writer for register EXTISS2
pub type W = crate::gd32vf103_pac::generic::W<u32, super::EXTISS2>;

/// Register EXTISS2 `reset()`'s with value 0
impl crate::gd32vf103_pac::generic::ResetValue for super::EXTISS2 {
    type Type = u32;

    open spec fn reset_spec() -> u32 {
        0
    }

    fn reset_value() -> (r: u32) {
        0
    }
}

/// Reader of field `EXTI11_SS`
pub type EXTI11_SS_R = crate::gd32vf103_pac::generic::R<u8, u8>;

/// Write proxy for field `EXTI11_SS`
pub struct EXTI11_SS_W<'a> {
    pub w: &'a mut W,
}

impl<'a> EXTI11_SS_W<'a> {
    /// Writes raw bits to the field
    pub fn bits(self, value: u8) -> (r: &'a mut W)
        ensures
            r@ == bitfield::with_field_u32(old(self.w)@, 12, 4, value as u32),
            *final(r) == *final(self.w),
    {
        let bits: u32 = bitfield::write_field_u32(self.w.value(), 12, 4, value as u32);
        self.w.bits(bits)
    }
}

/// Reader of field `EXTI10_SS`
pub type EXTI10_SS_R = crate::gd32vf103_pac::generic::R<u8, u8>;

/// Write proxy for field `EXTI10_SS`
pub struct EXTI10_SS_W<'a> {
    pub w: &'a mut W,
}

impl<'a> EXTI10_SS_W<'a> {
    /// Writes raw bits to the field
    pub fn bits(self, value: u8) -> (r: &'a mut W)
        ensures
            r@ == bitfield::with_field_u32(old(self.w)@, 8, 4, value as u32),
            *final(r) == *final(self.w),
    {
        let bits: u32 = bitfield::write_field_u32(self.w.value(), 8, 4, value as u32);
        self.w.bits(bits)
    }
}

/// Reader of field `EXTI9_SS`
pub type EXTI9_SS_R = crate::gd32vf103_pac::generic::R<u8, u8>;

/// Write proxy for field `EXTI9_SS`
pub struct EXTI9_SS_W<'a> {
    pub w: &'a mut W,
}

impl<'a> EXTI9_SS_W<'a> {
    /// Writes raw bits to the field
    pub fn bits(self, value: u8) -> (r: &'a mut W)
        ensures
            r@ == bitfield::with_field_u32(old(self.w)@, 4, 4, value as u32),
            *final(r) == *final(self.w),
    {
        let bits: u32 = bitfield::write_field_u32(self.w.value(), 4, 4, value as u32);
        self.w.bits(bits)
    }
}

/// Reader of field `EXTI8_SS`
pub type EXTI8_SS_R = crate::gd32vf103_pac::generic::R<u8, u8>;

/// Write proxy for field `EXTI8_SS`
pub struct EXTI8_SS_W<'a> {
    pub w: &'a mut W,
}

impl<'a> EXTI8_SS_W<'a> {
    /// Writes raw bits to the field
    pub fn bits(self, value: u8) -> (r: &'a mut W)
        ensures
            r@ == bitfield::with_field_u32(old(self.w)@, 0, 4, value as u32),
            *final(r) == *final(self.w),
    {
        let bits: u32 = bitfield::write_field_u32(self.w.value(), 0, 4, value as u32);
        self.w.bits(bits)
    }
}

impl R {
    /// Bits 12:15 - EXTI 11 sources selection
    pub fn exti11_ss(&self) -> (r: EXTI11_SS_R)
        ensures
            r@ == bitfield::field_u32(self@, 12, 4) as u8,
    {
        EXTI11_SS_R::new(bitfield::read_field_u32(self.bits(), 12, 4) as u8)
    }

    /// Bits 8:11 - EXTI 10 sources selection
    pub fn exti10_ss(&self) -> (r: EXTI10_SS_R)
        ensures
            r@ == bitfield::field_u32(self@, 8, 4) as u8,
    {
        EXTI10_SS_R::new(bitfield::read_field_u32(self.bits(), 8, 4) as u8)
    }

    /// Bits 4:7 - EXTI 9 sources selection
    pub fn exti9_ss(&self) -> (r: EXTI9_SS_R)
        ensures
            r@ == bitfield::field_u32(self@, 4, 4) as u8,
    {
        EXTI9_SS_R::new(bitfield::read_field_u32(self.bits(), 4, 4) as u8)
    }

    /// Bits 0:3 - EXTI 8 sources selection
    pub fn exti8_ss(&self) -> (r: EXTI8_SS_R)
        ensures
            r@ == bitfield::field_u32(self@, 0, 4) as u8,
    {
        EXTI8_SS_R::new(bitfield::read_field_u32(self.bits(), 0, 4) as u8)
    }
}

impl W {
    /// Bits 12:15 - EXTI 11 sources selection
    pub fn exti11_ss(&mut self) -> (r: EXTI11_SS_W<'_>)
        ensures
            *r.w == *old(self),
            *final(r.w) == *final(self),
    {
        EXTI11_SS_W { w: self }
    }

    /// Bits 8:11 - EXTI 10 sources selection
    pub fn exti10_ss(&mut self) -> (r: EXTI10_SS_W<'_>)
        ensures
            *r.w == *old(self),
            *final(r.w) == *final(self),
    {
        EXTI10_SS_W { w: self }
    }

    /// Bits 4:7 - EXTI 9 sources selection
    pub fn exti9_ss(&mut self) -> (r: EXTI9_SS_W<'_>)
        ensures
            *r.w == *old(self),
            *final(r.w) == *final(self),
    {
        EXTI9_SS_W { w: self }
    }

    /// Bits 0:3 - EXTI 8 sources selection
    pub fn exti8_ss(&mut self) -> (r: EXTI8_SS_W<'_>)
        ensures
            *r.w == *old(self),
            *final(r.w) == *final(self),
    {
        EXTI8_SS_W { w: self }
    }
}

} // verus!

use vstd::prelude::*;
use crate::bitfield;

verus! {

/// Reader of register EXTISS3
pub type R = crate::gd32vf103_pac::generic::R<u32, super::EXTISS3>;

/// Writer for register EXTISS3
pub type W = crate::gd32vf103_pac::generic::W<u32, super::EXTISS3>;

/// Register EXTISS3 `reset()`'s with value 0
impl crate::gd32vf103_pac::generic::ResetValue for super::EXTISS3 {
    type Type = u32;

    open spec fn reset_spec() -> u32 {
        0
    }

    fn reset_value() -> (r: u32) {
        0
    }
}

/// Reader of field `EXTI15_SS`
pub type EXTI15_SS_R = crate::gd32vf103_pac::generic::R<u8, u8>;

/// Write proxy for field `EXTI15_SS`
pub struct EXTI15_SS_W<'a> {
    pub w: &'a mut W,
}

impl<'a> EXTI15_SS_W<'a> {
    /// Writes raw bits to the field
    pub fn bits(self, value: u8) -> (r: &'a mut W)
        ensures
            r@ == bitfield::with_field_u32(old(self.w)@, 12, 4, value as u32),
            *final(r) == *final(self.w),
    {
        let bits: u32 = bitfield::write_field_u32(self.w.value(), 12, 4, value as u32);
        self.w.bits(bits)
    }
}

/// Reader of field `EXTI14_SS`
pub type EXTI14_SS_R = crate::gd32vf103_pac::generic::R<u8, u8>;

/// Write proxy for field `EXTI14_SS`
pub struct EXTI14_SS_W<'a> {
    pub w: &'a mut W,
}

impl<'a> EXTI14_SS_W<'a> {
    /// Writes raw bits to the field
    pub fn bits(self, value: u8) -> (r: &'a mut W)
        ensures
            r@ == bitfield::with_field_u32(old(self.w)@, 8, 4, value as u32),
            *final(r) == *final(self.w),
    {
        let bits: u32 = bitfield::write_field_u32(self.w.value(), 8, 4, value as u32);
        self.w.bits(bits)
    }
}

/// Reader of field `EXTI13_SS`
pub type EXTI13_SS_R = crate::gd32vf103_pac::generic::R<u8, u8>;

/// Write proxy for field `EXTI13_SS`
pub struct EXTI13_SS_W<'a> {
    pub w: &'a mut W,
}

impl<'a> EXTI13_SS_W<'a> {
    /// Writes raw bits to the field
    pub fn bits(self, value: u8) -> (r: &'a mut W)
        ensures
            r@ == bitfield::with_field_u32(old(self.w)@, 4, 4, value as u32),
            *final(r) == *final(self.w),
    {
        let bits: u32 = bitfield::write_field_u32(self.w.value(), 4, 4, value as u32);
        self.w.bits(bits)
    }
}

/// Reader of field `EXTI12_SS`
pub type EXTI12_SS_R = crate::gd32vf103_pac::generic::R<u8, u8>;

/// Write proxy for field `EXTI12_SS`
pub struct EXTI12_SS_W<'a> {
    pub w: &'a mut W,
}

impl<'a> EXTI12_SS_W<'a> {
    /// Writes raw bits to the field
    pub fn bits(self, value: u8) -> (r: &'a mut W)
        ensures
            r@ == bitfield::with_field_u32(old(self.w)@, 0, 4, value as u32),
            *final(r) == *final(self.w),
    {
        let bits: u32 = bitfield::write_field_u32(self.w.value(), 0, 4, value as u32);
        self.w.bits(bits)
    }
}

impl R {
    /// Bits 12:15 - EXTI 15 sources selection
    pub fn exti15_ss(&self) -> (r: EXTI15_SS_R)
        ensures
            r@ == bitfield::field_u32(self@, 12, 4) as u8,
    {
        EXTI15_SS_R::new(bitfield::read_field_u32(self.bits(), 12, 4) as u8)
    }

    /// Bits 8:11 - EXTI 14 sources selection
    pub fn exti14_ss(&self) -> (r: EXTI14_SS_R)
        ensures
            r@ == bitfield::field_u32(self@, 8, 4) as u8,
    {
        EXTI14_SS_R::new(bitfield::read_field_u32(self.bits(), 8, 4) as u8)
    }

    /// Bits 4:7 - EXTI 13 sources selection
    pub fn exti13_ss(&self) -> (r: EXTI13_SS_R)
        ensures
            r@ == bitfield::field_u32(self@, 4, 4) as u8,
    {
        EXTI13_SS_R::new(bitfield::read_field_u32(self.bits(), 4, 4) as u8)
    }

    /// Bits 0:3 - EXTI 12 sources selection
    pub fn exti12_ss(&self) -> (r: EXTI12_SS_R)
        ensures
            r@ == bitfield::field_u32(self@, 0, 4) as u8,
    {
        EXTI12_SS_R::new(bitfield::read_field_u32(self.bits(), 0, 4) as u8)
    }
}

impl W {
    /// Bits 12:15 - EXTI 15 sources selection
    pub fn exti15_ss(&mut self) -> (r: EXTI15_SS_W<'_>)
        ensures
            *r.w == *old(self),
            *final(r.w) == *final(self),
    {
        EXTI15_SS_W { w: self }
    }

    /// Bits 8:11 - EXTI 14 sources selection
    pub fn exti14_ss(&mut self) -> (r: EXTI14_SS_W<'_>)
        ensures
            *r.w == *old(self),
            *final(r.w) == *final(self),
    {
        EXTI14_SS_W { w: self }
    }

    /// Bits 4:7 - EXTI 13 sources selection
    pub fn exti13_ss(&mut self) -> (r: EXTI13_SS_W<'_>)
        ensures
            *r.w == *old(self),
            *final(r.w) == *final(self),
    {
        EXTI13_SS_W { w: self }
    }

    /// Bits 0:3 - EXTI 12 sources selection
    pub fn exti12_ss(&mut self) -> (r: EXTI12_SS_W<'_>)
        ensures
            *r.w == *old(self),
            *final(r.w) == *final(self),
    {
        EXTI12_SS_W { w: self }
    }
}

} // verus!

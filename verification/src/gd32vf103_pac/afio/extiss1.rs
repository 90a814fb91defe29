use vstd::prelude::*;
use crate::bitfield;

verus! {

/// Reader of register EXTISS1
pub type R = crate::gd32vf103_pac::generic::R<u32, super::EXTISS1>;

/// Writer for register EXTISS1
pub type W = crate::gd32vf103_pac::generic::W<u32, super::EXTISS1>;

/// Register EXTISS1 `reset()`'s with value 0
impl crate::gd32vf103_pac::generic::ResetValue for super::EXTISS1 {
    type Type = u32;

    open spec fn reset_spec() -> u32 {
        0
    }

    fn reset_value() -> (r: u32) {
        0
    }
}

/// Reader of field `EXTI7_SS`
pub type EXTI7_SS_R = crate::gd32vf103_pac::generic::R<u8, u8>;

/// Write proxy for field `EXTI7_SS`
pub struct EXTI7_SS_W<'a> {
    pub w: &'a mut W,
}

impl<'a> EXTI7_SS_W<'a> {
    /// Writes raw bits to the field
    pub fn bits(self, value: u8) -> (r: &'a mut W)
        ensures
            r@ == bitfield::with_field_u32(old(self.w)@, 12, 4, value as u32),
            *final(r) == *final(self.w),
    {
        let bits: u32 = bitfield::write_field_u32(self.w.value(), 12, 4, value as u32);
        self.w.bits(bits)
    }
}

/// Reader of field `EXTI6_SS`
pub type EXTI6_SS_R = crate::gd32vf103_pac::generic::R<u8, u8>;

/// Write proxy for field `EXTI6_SS`
pub struct EXTI6_SS_W<'a> {
    pub w: &'a mut W,
}

impl<'a> EXTI6_SS_W<'a> {
    /// Writes raw bits to the field
    pub fn bits(self, value: u8) -> (r: &'a mut W)
        ensures
            r@ == bitfield::with_field_u32(old(self.w)@, 8, 4, value as u32),
            *final(r) == *final(self.w),
    {
        let bits: u32 = bitfield::write_field_u32(self.w.value(), 8, 4, value as u32);
        self.w.bits(bits)
    }
}

/// Reader of field `EXTI5_SS`
pub type EXTI5_SS_R = crate::gd32vf103_pac::generic::R<u8, u8>;

/// Write proxy for field `EXTI5_SS`
pub struct EXTI5_SS_W<'a> {
    pub w: &'a mut W,
}

impl<'a> EXTI5_SS_W<'a> {
    /// Writes raw bits to the field
    pub fn bits(self, value: u8) -> (r: &'a mut W)
        ensures
            r@ == bitfield::with_field_u32(old(self.w)@, 4, 4, value as u32),
            *final(r) == *final(self.w),
    {
        let bits: u32 = bitfield::write_field_u32(self.w.value(), 4, 4, value as u32);
        self.w.bits(bits)
    }
}

/// Reader of field `EXTI4_SS`
pub type EXTI4_SS_R = crate::gd32vf103_pac::generic::R<u8, u8>;

/// Write proxy for field `EXTI4_SS`
pub struct EXTI4_SS_W<'a> {
    pub w: &'a mut W,
}

impl<'a> EXTI4_SS_W<'a> {
    /// Writes raw bits to the field
    pub fn bits(self, value: u8) -> (r: &'a mut W)
        ensures
            r@ == bitfield::with_field_u32(old(self.w)@, 0, 4, value as u32),
            *final(r) == *final(self.w),
    {
        let bits: u32 = bitfield::write_field_u32(self.w.value(), 0, 4, value as u32);
        self.w.bits(bits)
    }
}

impl R {
    /// Bits 12:15 - EXTI 7 sources selection
    pub fn exti7_ss(&self) -> (r: EXTI7_SS_R)
        ensures
            r@ == bitfield::field_u32(self@, 12, 4) as u8,
    {
        EXTI7_SS_R::new(bitfield::read_field_u32(self.bits(), 12, 4) as u8)
    }

    /// Bits 8:11 - EXTI 6 sources selection
    pub fn exti6_ss(&self) -> (r: EXTI6_SS_R)
        ensures
            r@ == bitfield::field_u32(self@, 8, 4) as u8,
    {
        EXTI6_SS_R::new(bitfield::read_field_u32(self.bits(), 8, 4) as u8)
    }

    /// Bits 4:7 - EXTI 5 sources selection
    pub fn exti5_ss(&self) -> (r: EXTI5_SS_R)
        ensures
            r@ == bitfield::field_u32(self@, 4, 4) as u8,
    {
        EXTI5_SS_R::new(bitfield::read_field_u32(self.bits(), 4, 4) as u8)
    }

    /// Bits 0:3 - EXTI 4 sources selection
    pub fn exti4_ss(&self) -> (r: EXTI4_SS_R)
        ensures
            r@ == bitfield::field_u32(self@, 0, 4) as u8,
    {
        EXTI4_SS_R::new(bitfield::read_field_u32(self.bits(), 0, 4) as u8)
    }
}

impl W {
    /// Bits 12:15 - EXTI 7 sources selection
    pub fn exti7_ss(&mut self) -> (r: EXTI7_SS_W<'_>)
        ensures
            *r.w == *old(self),
            *final(r.w) == *final(self),
    {
        EXTI7_SS_W { w: self }
    }

    /// Bits 8:11 - EXTI 6 sources selection
    pub fn exti6_ss(&mut self) -> (r: EXTI6_SS_W<'_>)
        ensures
            *r.w == *old(self),
            *final(r.w) == *final(self),
    {
        EXTI6_SS_W { w: self }
    }

    /// Bits 4:7 - EXTI 5 sources selection
    pub fn exti5_ss(&mut self) -> (r: EXTI5_SS_W<'_>)
        ensures
            *r.w == *old(self),
            *final(r.w) == *final(self),
    {
        EXTI5_SS_W { w: self }
    }

    /// Bits 0:3 - EXTI 4 sources selection
    pub fn exti4_ss(&mut self) -> (r: EXTI4_SS_W<'_>)
        ensures
            *r.w == *old(self),
            *final(r.w) == *final(self),
    {
        EXTI4_SS_W { w: self }
    }
}

} // verus!

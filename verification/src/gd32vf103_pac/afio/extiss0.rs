use vstd::prelude::*;
use crate::bitfield;

verus! {

/// Reader of register EXTISS0
pub type R = crate::gd32vf103_pac::generic::R<u32, super::EXTISS0>;

/// Writer for register EXTISS0
pub type W = crate::gd32vf103_pac::generic::W<u32, super::EXTISS0>;

/// Register EXTISS0 `reset()`'s with value 0
impl crate::gd32vf103_pac::generic::ResetValue for super::EXTISS0 {
    type Type = u32;

    open spec fn reset_spec() -> u32 {
        0
    }

    fn reset_value() -> (r: u32) {
        0
    }
}

/// Reader of field `EXTI3_SS`
pub type EXTI3_SS_R = crate::gd32vf103_pac::generic::R<u8, u8>;

/// Write proxy for field `EXTI3_SS`
pub struct EXTI3_SS_W<'a> {
    pub w: &'a mut W,
}

impl<'a> EXTI3_SS_W<'a> {
    /// Writes raw bits to the field
    pub fn bits(self, value: u8) -> (r: &'a mut W)
        ensures
            r@ == bitfield::with_field_u32(old(self.w)@, 12, 4, value as u32),
            *final(r) == *final(self.w),
    {
        let bits: u32 = bitfield::write_field_u32(self.w.value(), 12, 4, value as u32);
        self.w.bits(bits)
    }
}

/// Reader of field `EXTI2_SS`
pub type EXTI2_SS_R = crate::gd32vf103_pac::generic::R<u8, u8>;

/// Write proxy for field `EXTI2_SS`
pub struct EXTI2_SS_W<'a> {
    pub w: &'a mut W,
}

impl<'a> EXTI2_SS_W<'a> {
    /// Writes raw bits to the field
    pub fn bits(self, value: u8) -> (r: &'a mut W)
        ensures
            r@ == bitfield::with_field_u32(old(self.w)@, 8, 4, value as u32),
            *final(r) == *final(self.w),
    {
        let bits: u32 = bitfield::write_field_u32(self.w.value(), 8, 4, value as u32);
        self.w.bits(bits)
    }
}

/// Reader of field `EXTI1_SS`
pub type EXTI1_SS_R = crate::gd32vf103_pac::generic::R<u8, u8>;

/// Write proxy for field `EXTI1_SS`
pub struct EXTI1_SS_W<'a> {
    pub w: &'a mut W,
}

impl<'a> EXTI1_SS_W<'a> {
    /// Writes raw bits to the field
    pub fn bits(self, value: u8) -> (r: &'a mut W)
        ensures
            r@ == bitfield::with_field_u32(old(self.w)@, 4, 4, value as u32),
            *final(r) == *final(self.w),
    {
        let bits: u32 = bitfield::write_field_u32(self.w.value(), 4, 4, value as u32);
        self.w.bits(bits)
    }
}

/// Reader of field `EXTI0_SS`
pub type EXTI0_SS_R = crate::gd32vf103_pac::generic::R<u8, u8>;

/// Write proxy for field `EXTI0_SS`
pub struct EXTI0_SS_W<'a> {
    pub w: &'a mut W,
}

impl<'a> EXTI0_SS_W<'a> {
    /// Writes raw bits to the field
    pub fn bits(self, value: u8) -> (r: &'a mut W)
        ensures
            r@ == bitfield::with_field_u32(old(self.w)@, 0, 4, value as u32),
            *final(r) == *final(self.w),
    {
        let bits: u32 = bitfield::write_field_u32(self.w.value(), 0, 4, value as u32);
        self.w.bits(bits)
    }
}

impl R {
    /// Bits 12:15 - EXTI 3 sources selection
    pub fn exti3_ss(&self) -> (r: EXTI3_SS_R)
        ensures
            r@ == bitfield::field_u32(self@, 12, 4) as u8,
    {
        EXTI3_SS_R::new(bitfield::read_field_u32(self.bits(), 12, 4) as u8)
    }

    /// Bits 8:11 - EXTI 2 sources selection
    pub fn exti2_ss(&self) -> (r: EXTI2_SS_R)
        ensures
            r@ == bitfield::field_u32(self@, 8, 4) as u8,
    {
        EXTI2_SS_R::new(bitfield::read_field_u32(self.bits(), 8, 4) as u8)
    }

    /// Bits 4:7 - EXTI 1 sources selection
    pub fn exti1_ss(&self) -> (r: EXTI1_SS_R)
        ensures
            r@ == bitfield::field_u32(self@, 4, 4) as u8,
    {
        EXTI1_SS_R::new(bitfield::read_field_u32(self.bits(), 4, 4) as u8)
    }

    /// Bits 0:3 - EXTI 0 sources selection
    pub fn exti0_ss(&self) -> (r: EXTI0_SS_R)
        ensures
            r@ == bitfield::field_u32(self@, 0, 4) as u8,
    {
        EXTI0_SS_R::new(bitfield::read_field_u32(self.bits(), 0, 4) as u8)
    }
}

impl W {
    /// Bits 12:15 - EXTI 3 sources selection
    pub fn exti3_ss(&mut self) -> (r: EXTI3_SS_W<'_>)
        ensures
            *r.w == *old(self),
            *final(r.w) == *final(self),
    {
        EXTI3_SS_W { w: self }
    }

    /// Bits 8:11 - EXTI 2 sources selection
    pub fn exti2_ss(&mut self) -> (r: EXTI2_SS_W<'_>)
        ensures
            *r.w == *old(self),
            *final(r.w) == *final(self),
    {
        EXTI2_SS_W { w: self }
    }

    /// Bits 4:7 - EXTI 1 sources selection
    pub fn exti1_ss(&mut self) -> (r: EXTI1_SS_W<'_>)
        ensures
            *r.w == *old(self),
            *final(r.w) == *final(self),
    {
        EXTI1_SS_W { w: self }
    }

    /// Bits 0:3 - EXTI 0 sources selection
    pub fn exti0_ss(&mut self) -> (r: EXTI0_SS_W<'_>)
        ensures
            *r.w == *old(self),
            *final(r.w) == *final(self),
    {
        EXTI0_SS_W { w: self }
    }
}

} // verus!

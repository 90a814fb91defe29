use vstd::prelude::*;
use crate::bitfield;

verus! {

/// Reader of register TPCS
pub type R = crate::gd32vf103_pac::generic::R<u16, super::TPCS>;

/// Writer for register TPCS
pub type W = crate::gd32vf103_pac::generic::W<u16, super::TPCS>;

/// Register TPCS `reset()`'s with value 0
impl crate::gd32vf103_pac::generic::ResetValue for super::TPCS {
    type Type = u16;

    open spec fn reset_spec() -> u16 {
        0
    }

    fn reset_value() -> (r: u16) {
        0
    }
}

/// Reader of field `TIF`
pub type TIF_R = crate::gd32vf103_pac::generic::R<bool, bool>;

/// Write proxy for field `TIF`
pub struct TIF_W<'a> {
    pub w: &'a mut W,
}

impl<'a> TIF_W<'a> {
    /// Sets the field bit
    pub fn set_bit(self) -> (r: &'a mut W)
        ensures
            r@ == bitfield::with_bit_u16(old(self.w)@, 9, true),
            *final(r) == *final(self.w),
    {
        self.bit(true)
    }

    /// Clears the field bit
    pub fn clear_bit(self) -> (r: &'a mut W)
        ensures
            r@ == bitfield::with_bit_u16(old(self.w)@, 9, false),
            *final(r) == *final(self.w),
    {
        self.bit(false)
    }

    /// Writes raw bits to the field
    pub fn bit(self, value: bool) -> (r: &'a mut W)
        ensures
            r@ == bitfield::with_bit_u16(old(self.w)@, 9, value),
            *final(r) == *final(self.w),
    {
        let bits: u16 = bitfield::write_bit_u16(self.w.value(), 9, value);
        self.w.bits(bits)
    }
}

/// Reader of field `TEF`
pub type TEF_R = crate::gd32vf103_pac::generic::R<bool, bool>;

/// Write proxy for field `TEF`
pub struct TEF_W<'a> {
    pub w: &'a mut W,
}

impl<'a> TEF_W<'a> {
    /// Sets the field bit
    pub fn set_bit(self) -> (r: &'a mut W)
        ensures
            r@ == bitfield::with_bit_u16(old(self.w)@, 8, true),
            *final(r) == *final(self.w),
    {
        self.bit(true)
    }

    /// Clears the field bit
    pub fn clear_bit(self) -> (r: &'a mut W)
        ensures
            r@ == bitfield::with_bit_u16(old(self.w)@, 8, false),
            *final(r) == *final(self.w),
    {
        self.bit(false)
    }

    /// Writes raw bits to the field
    pub fn bit(self, value: bool) -> (r: &'a mut W)
        ensures
            r@ == bitfield::with_bit_u16(old(self.w)@, 8, value),
            *final(r) == *final(self.w),
    {
        let bits: u16 = bitfield::write_bit_u16(self.w.value(), 8, value);
        self.w.bits(bits)
    }
}

/// Reader of field `TPIE`
pub type TPIE_R = crate::gd32vf103_pac::generic::R<bool, bool>;

/// Write proxy for field `TPIE`
pub struct TPIE_W<'a> {
    pub w: &'a mut W,
}

impl<'a> TPIE_W<'a> {
    /// Sets the field bit
    pub fn set_bit(self) -> (r: &'a mut W)
        ensures
            r@ == bitfield::with_bit_u16(old(self.w)@, 2, true),
            *final(r) == *final(self.w),
    {
        self.bit(true)
    }

    /// Clears the field bit
    pub fn clear_bit(self) -> (r: &'a mut W)
        ensures
            r@ == bitfield::with_bit_u16(old(self.w)@, 2, false),
            *final(r) == *final(self.w),
    {
        self.bit(false)
    }

    /// Writes raw bits to the field
    pub fn bit(self, value: bool) -> (r: &'a mut W)
        ensures
            r@ == bitfield::with_bit_u16(old(self.w)@, 2, value),
            *final(r) == *final(self.w),
    {
        let bits: u16 = bitfield::write_bit_u16(self.w.value(), 2, value);
        self.w.bits(bits)
    }
}

/// Reader of field `TIR`
pub type TIR_R = crate::gd32vf103_pac::generic::R<bool, bool>;

/// Write proxy for field `TIR`
pub struct TIR_W<'a> {
    pub w: &'a mut W,
}

impl<'a> TIR_W<'a> {
    /// Sets the field bit
    pub fn set_bit(self) -> (r: &'a mut W)
        ensures
            r@ == bitfield::with_bit_u16(old(self.w)@, 1, true),
            *final(r) == *final(self.w),
    {
        self.bit(true)
    }

    /// Clears the field bit
    pub fn clear_bit(self) -> (r: &'a mut W)
        ensures
            r@ == bitfield::with_bit_u16(old(self.w)@, 1, false),
            *final(r) == *final(self.w),
    {
        self.bit(false)
    }

    /// Writes raw bits to the field
    pub fn bit(self, value: bool) -> (r: &'a mut W)
        ensures
            r@ == bitfield::with_bit_u16(old(self.w)@, 1, value),
            *final(r) == *final(self.w),
    {
        let bits: u16 = bitfield::write_bit_u16(self.w.value(), 1, value);
        self.w.bits(bits)
    }
}

/// Reader of field `TER`
pub type TER_R = crate::gd32vf103_pac::generic::R<bool, bool>;

/// Write proxy for field `TER`
pub struct TER_W<'a> {
    pub w: &'a mut W,
}

impl<'a> TER_W<'a> {
    /// Sets the field bit
    pub fn set_bit(self) -> (r: &'a mut W)
        ensures
            r@ == bitfield::with_bit_u16(old(self.w)@, 0, true),
            *final(r) == *final(self.w),
    {
        self.bit(true)
    }

    /// Clears the field bit
    pub fn clear_bit(self) -> (r: &'a mut W)
        ensures
            r@ == bitfield::with_bit_u16(old(self.w)@, 0, false),
            *final(r) == *final(self.w),
    {
        self.bit(false)
    }

    /// Writes raw bits to the field
    pub fn bit(self, value: bool) -> (r: &'a mut W)
        ensures
            r@ == bitfield::with_bit_u16(old(self.w)@, 0, value),
            *final(r) == *final(self.w),
    {
        let bits: u16 = bitfield::write_bit_u16(self.w.value(), 0, value);
        self.w.bits(bits)
    }
}

impl R {
    /// Bit 9 - Tamper interrupt flag
    pub fn tif(&self) -> (r: TIF_R)
        ensures
            r@ == bitfield::bit_u16(self@, 9),
    {
        TIF_R::new(bitfield::read_bit_u16(self.bits(), 9))
    }

    /// Bit 8 - Tamper event flag
    pub fn tef(&self) -> (r: TEF_R)
        ensures
            r@ == bitfield::bit_u16(self@, 8),
    {
        TEF_R::new(bitfield::read_bit_u16(self.bits(), 8))
    }

    /// Bit 2 - Tamper interrupt enable
    pub fn tpie(&self) -> (r: TPIE_R)
        ensures
            r@ == bitfield::bit_u16(self@, 2),
    {
        TPIE_R::new(bitfield::read_bit_u16(self.bits(), 2))
    }

    /// Bit 1 - Tamper interrupt reset
    pub fn tir(&self) -> (r: TIR_R)
        ensures
            r@ == bitfield::bit_u16(self@, 1),
    {
        TIR_R::new(bitfield::read_bit_u16(self.bits(), 1))
    }

    /// Bit 0 - Tamper event reset
    pub fn ter(&self) -> (r: TER_R)
        ensures
            r@ == bitfield::bit_u16(self@, 0),
    {
        TER_R::new(bitfield::read_bit_u16(self.bits(), 0))
    }
}

impl W {
    /// Bit 9 - Tamper interrupt flag
    pub fn tif(&mut self) -> (r: TIF_W<'_>)
        ensures
            *r.w == *old(self),
            *final(r.w) == *final(self),
    {
        TIF_W { w: self }
    }

    /// Bit 8 - Tamper event flag
    pub fn tef(&mut self) -> (r: TEF_W<'_>)
        ensures
            *r.w == *old(self),
            *final(r.w) == *final(self),
    {
        TEF_W { w: self }
    }

    /// Bit 2 - Tamper interrupt enable
    pub fn tpie(&mut self) -> (r: TPIE_W<'_>)
        ensures
            *r.w == *old(self),
            *final(r.w) == *final(self),
    {
        TPIE_W { w: self }
    }

    /// Bit 1 - Tamper interrupt reset
    pub fn tir(&mut self) -> (r: TIR_W<'_>)
        ensures
            *r.w == *old(self),
            *final(r.w) == *final(self),
    {
        TIR_W { w: self }
    }

    /// Bit 0 - Tamper event reset
    pub fn ter(&mut self) -> (r: TER_W<'_>)
        ensures
            *r.w == *old(self),
            *final(r.w) == *final(self),
    {
        TER_W { w: self }
    }
}

} // verus!

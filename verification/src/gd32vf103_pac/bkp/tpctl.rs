use vstd::prelude::*;
use crate::bitfield;

verus! {

/// Reader of register TPCTL
pub type R = crate::gd32vf103_pac::generic::R<u16, super::TPCTL>;

/// Writer for register TPCTL
pub type W = crate::gd32vf103_pac::generic::W<u16, super::TPCTL>;

/// Register TPCTL `reset()`'s with value 0
impl crate::gd32vf103_pac::generic::ResetValue for super::TPCTL {
    type Type = u16;

    open spec fn reset_spec() -> u16 {
        0
    }

    fn reset_value() -> (r: u16) {
        0
    }
}

/// Reader of field `TPAL`
pub type TPAL_R = crate::gd32vf103_pac::generic::R<bool, bool>;

/// Write proxy for field `TPAL`
pub struct TPAL_W<'a> {
    pub w: &'a mut W,
}

impl<'a> TPAL_W<'a> {
    /// Sets the field bit
    pub fn set_bit(self) -> (r: &'a mut W)
        ensures
            r@ == bitfield::with_bit_u16(old(self.w)@, 1, true),
            *final(r) == *final(self.w),
    {
        self.bit(true)
    }

    /// Clears the field bit
    pub fn clear_bit(self) -> (r: &'a mut W)
        ensures
            r@ == bitfield::with_bit_u16(old(self.w)@, 1, false),
            *final(r) == *final(self.w),
    {
        self.bit(false)
    }

    /// Writes raw bits to the field
    pub fn bit(self, value: bool) -> (r: &'a mut W)
        ensures
            r@ == bitfield::with_bit_u16(old(self.w)@, 1, value),
            *final(r) == *final(self.w),
    {
        let bits: u16 = bitfield::write_bit_u16(self.w.value(), 1, value);
        self.w.bits(bits)
    }
}

/// Reader of field `TPEN`
pub type TPEN_R = crate::gd32vf103_pac::generic::R<bool, bool>;

/// Write proxy for field `TPEN`
pub struct TPEN_W<'a> {
    pub w: &'a mut W,
}

impl<'a> TPEN_W<'a> {
    /// Sets the field bit
    pub fn set_bit(self) -> (r: &'a mut W)
        ensures
            r@ == bitfield::with_bit_u16(old(self.w)@, 0, true),
            *final(r) == *final(self.w),
    {
        self.bit(true)
    }

    /// Clears the field bit
    pub fn clear_bit(self) -> (r: &'a mut W)
        ensures
            r@ == bitfield::with_bit_u16(old(self.w)@, 0, false),
            *final(r) == *final(self.w),
    {
        self.bit(false)
    }

    /// Writes raw bits to the field
    pub fn bit(self, value: bool) -> (r: &'a mut W)
        ensures
            r@ == bitfield::with_bit_u16(old(self.w)@, 0, value),
            *final(r) == *final(self.w),
    {
        let bits: u16 = bitfield::write_bit_u16(self.w.value(), 0, value);
        self.w.bits(bits)
    }
}

impl R {
    /// Bit 1 - TAMPER pin active level
    pub fn tpal(&self) -> (r: TPAL_R)
        ensures
            r@ == bitfield::bit_u16(self@, 1),
    {
        TPAL_R::new(bitfield::read_bit_u16(self.bits(), 1))
    }

    /// Bit 0 - TAMPER detection enable
    pub fn tpen(&self) -> (r: TPEN_R)
        ensures
            r@ == bitfield::bit_u16(self@, 0),
    {
        TPEN_R::new(bitfield::read_bit_u16(self.bits(), 0))
    }
}

impl W {
    /// Bit 1 - TAMPER pin active level
    pub fn tpal(&mut self) -> (r: TPAL_W<'_>)
        ensures
            *r.w == *old(self),
            *final(r.w) == *final(self),
    {
        TPAL_W { w: self }
    }

    /// Bit 0 - TAMPER detection enable
    pub fn tpen(&mut self) -> (r: TPEN_W<'_>)
        ensures
            *r.w == *old(self),
            *final(r.w) == *final(self),
    {
        TPEN_W { w: self }
    }
}

} // verus!

use vstd::prelude::*;
use crate::bitfield;

verus! {

/// Reader of register OCTL
pub type R = crate::gd32vf103_pac::generic::R<u16, super::OCTL>;

/// Writer for register OCTL
pub type W = crate::gd32vf103_pac::generic::W<u16, super::OCTL>;

/// Register OCTL `reset()`'s with value 0
impl crate::gd32vf103_pac::generic::ResetValue for super::OCTL {
    type Type = u16;

    open spec fn reset_spec() -> u16 {
        0
    }

    fn reset_value() -> (r: u16) {
        0
    }
}

/// Reader of field `ROSEL`
pub type ROSEL_R = crate::gd32vf103_pac::generic::R<bool, bool>;

/// Write proxy for field `ROSEL`
pub struct ROSEL_W<'a> {
    pub w: &'a mut W,
}

impl<'a> ROSEL_W<'a> {
    /// Sets the field bit
    pub fn set_bit(self) -> (r: &'a mut W)
        ensures
            r@ == bitfield::with_bit_u16(old(self.w)@, 9, true),
            *final(r) == *final(self.w),
    {
        self.bit(true)
    }

    /// Clears the field bit
    pub fn clear_bit(self) -> (r: &'a mut W)
        ensures
            r@ == bitfield::with_bit_u16(old(self.w)@, 9, false),
            *final(r) == *final(self.w),
    {
        self.bit(false)
    }

    /// Writes raw bits to the field
    pub fn bit(self, value: bool) -> (r: &'a mut W)
        ensures
            r@ == bitfield::with_bit_u16(old(self.w)@, 9, value),
            *final(r) == *final(self.w),
    {
        let bits: u16 = bitfield::write_bit_u16(self.w.value(), 9, value);
        self.w.bits(bits)
    }
}

/// Reader of field `ASOEN`
pub type ASOEN_R = crate::gd32vf103_pac::generic::R<bool, bool>;

/// Write proxy for field `ASOEN`
pub struct ASOEN_W<'a> {
    pub w: &'a mut W,
}

impl<'a> ASOEN_W<'a> {
    /// Sets the field bit
    pub fn set_bit(self) -> (r: &'a mut W)
        ensures
            r@ == bitfield::with_bit_u16(old(self.w)@, 8, true),
            *final(r) == *final(self.w),
    {
        self.bit(true)
    }

    /// Clears the field bit
    pub fn clear_bit(self) -> (r: &'a mut W)
        ensures
            r@ == bitfield::with_bit_u16(old(self.w)@, 8, false),
            *final(r) == *final(self.w),
    {
        self.bit(false)
    }

    /// Writes raw bits to the field
    pub fn bit(self, value: bool) -> (r: &'a mut W)
        ensures
            r@ == bitfield::with_bit_u16(old(self.w)@, 8, value),
            *final(r) == *final(self.w),
    {
        let bits: u16 = bitfield::write_bit_u16(self.w.value(), 8, value);
        self.w.bits(bits)
    }
}

/// Reader of field `COEN`
pub type COEN_R = crate::gd32vf103_pac::generic::R<bool, bool>;

/// Write proxy for field `COEN`
pub struct COEN_W<'a> {
    pub w: &'a mut W,
}

impl<'a> COEN_W<'a> {
    /// Sets the field bit
    pub fn set_bit(self) -> (r: &'a mut W)
        ensures
            r@ == bitfield::with_bit_u16(old(self.w)@, 7, true),
            *final(r) == *final(self.w),
    {
        self.bit(true)
    }

    /// Clears the field bit
    pub fn clear_bit(self) -> (r: &'a mut W)
        ensures
            r@ == bitfield::with_bit_u16(old(self.w)@, 7, false),
            *final(r) == *final(self.w),
    {
        self.bit(false)
    }

    /// Writes raw bits to the field
    pub fn bit(self, value: bool) -> (r: &'a mut W)
        ensures
            r@ == bitfield::with_bit_u16(old(self.w)@, 7, value),
            *final(r) == *final(self.w),
    {
        let bits: u16 = bitfield::write_bit_u16(self.w.value(), 7, value);
        self.w.bits(bits)
    }
}

/// Reader of field `RCCV`
pub type RCCV_R = crate::gd32vf103_pac::generic::R<u8, u8>;

/// Write proxy for field `RCCV`
pub struct RCCV_W<'a> {
    pub w: &'a mut W,
}

impl<'a> RCCV_W<'a> {
    /// Writes raw bits to the field
    pub fn bits(self, value: u8) -> (r: &'a mut W)
        ensures
            r@ == bitfield::with_field_u16(old(self.w)@, 0, 7, value as u32),
            *final(r) == *final(self.w),
    {
        let bits: u16 = bitfield::write_field_u16(self.w.value(), 0, 7, value as u32);
        self.w.bits(bits)
    }
}

impl R {
    /// Bit 9 - RTC output selection
    pub fn rosel(&self) -> (r: ROSEL_R)
        ensures
            r@ == bitfield::bit_u16(self@, 9),
    {
        ROSEL_R::new(bitfield::read_bit_u16(self.bits(), 9))
    }

    /// Bit 8 - RTC alarm or second signal output enable
    pub fn asoen(&self) -> (r: ASOEN_R)
        ensures
            r@ == bitfield::bit_u16(self@, 8),
    {
        ASOEN_R::new(bitfield::read_bit_u16(self.bits(), 8))
    }

    /// Bit 7 - RTC clock calibration output enable
    pub fn coen(&self) -> (r: COEN_R)
        ensures
            r@ == bitfield::bit_u16(self@, 7),
    {
        COEN_R::new(bitfield::read_bit_u16(self.bits(), 7))
    }

    /// Bits 0:6 - RTC clock calibration value
    pub fn rccv(&self) -> (r: RCCV_R)
        ensures
            r@ == bitfield::field_u16(self@, 0, 7) as u8,
    {
        RCCV_R::new(bitfield::read_field_u16(self.bits(), 0, 7) as u8)
    }
}

impl W {
    /// Bit 9 - RTC output selection
    pub fn rosel(&mut self) -> (r: ROSEL_W<'_>)
        ensures
            *r.w == *old(self),
            *final(r.w) == *final(self),
    {
        ROSEL_W { w: self }
    }

    /// Bit 8 - RTC alarm or second signal output enable
    pub fn asoen(&mut self) -> (r: ASOEN_W<'_>)
        ensures
            *r.w == *old(self),
            *final(r.w) == *final(self),
    {
        ASOEN_W { w: self }
    }

    /// Bit 7 - RTC clock calibration output enable
    pub fn coen(&mut self) -> (r: COEN_W<'_>)
        ensures
            *r.w == *old(self),
            *final(r.w) == *final(self),
    {
        COEN_W { w: self }
    }

    /// Bits 0:6 - RTC clock calibration value
    pub fn rccv(&mut self) -> (r: RCCV_W<'_>)
        ensures
            *r.w == *old(self),
            *final(r.w) == *final(self),
    {
        RCCV_W { w: self }
    }
}

} // verus!

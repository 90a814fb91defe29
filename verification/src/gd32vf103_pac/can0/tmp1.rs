use vstd::prelude::*;
use crate::bitfield;

verus! {

/// Reader of register TMP1
pub type R = crate::gd32vf103_pac::generic::R<u32, super::TMP1>;

/// Writer for register TMP1
pub type W = crate::gd32vf103_pac::generic::W<u32, super::TMP1>;

/// Register TMP1 `reset()`'s with value 0
impl crate::gd32vf103_pac::generic::ResetValue for super::TMP1 {
    type Type = u32;

    open spec fn reset_spec() -> u32 {
        0
    }

    fn reset_value() -> (r: u32) {
        0
    }
}

/// Reader of field `TS`
pub type TS_R = crate::gd32vf103_pac::generic::R<u16, u16>;

/// Write proxy for field `TS`
pub struct TS_W<'a> {
    pub w: &'a mut W,
}

impl<'a> TS_W<'a> {
    /// Writes raw bits to the field
    pub fn bits(self, value: u16) -> (r: &'a mut W)
        ensures
            r@ == bitfield::with_field_u32(old(self.w)@, 16, 16, value as u32),
            *final(r) == *final(self.w),
    {
        let bits: u32 = bitfield::write_field_u32(self.w.value(), 16, 16, value as u32);
        self.w.bits(bits)
    }
}

/// Reader of field `TSEN`
pub type TSEN_R = crate::gd32vf103_pac::generic::R<bool, bool>;

/// Write proxy for field `TSEN`
pub struct TSEN_W<'a> {
    pub w: &'a mut W,
}

impl<'a> TSEN_W<'a> {
    /// Sets the field bit
    pub fn set_bit(self) -> (r: &'a mut W)
        ensures
            r@ == bitfield::with_bit_u32(old(self.w)@, 8, true),
            *final(r) == *final(self.w),
    {
        self.bit(true)
    }

    /// Clears the field bit
    pub fn clear_bit(self) -> (r: &'a mut W)
        ensures
            r@ == bitfield::with_bit_u32(old(self.w)@, 8, false),
            *final(r) == *final(self.w),
    {
        self.bit(false)
    }

    /// Writes raw bits to the field
    pub fn bit(self, value: bool) -> (r: &'a mut W)
        ensures
            r@ == bitfield::with_bit_u32(old(self.w)@, 8, value),
            *final(r) == *final(self.w),
    {
        let bits: u32 = bitfield::write_bit_u32(self.w.value(), 8, value);
        self.w.bits(bits)
    }
}

/// Reader of field `DLENC`
pub type DLENC_R = crate::gd32vf103_pac::generic::R<u8, u8>;

/// Write proxy for field `DLENC`
pub struct DLENC_W<'a> {
    pub w: &'a mut W,
}

impl<'a> DLENC_W<'a> {
    /// Writes raw bits to the field
    pub fn bits(self, value: u8) -> (r: &'a mut W)
        ensures
            r@ == bitfield::with_field_u32(old(self.w)@, 0, 4, value as u32),
            *final(r) == *final(self.w),
    {
        let bits: u32 = bitfield::write_field_u32(self.w.value(), 0, 4, value as u32);
        self.w.bits(bits)
    }
}

impl R {
    /// Bits 16:31 - Time stamp
    pub fn ts(&self) -> (r: TS_R)
        ensures
            r@ == bitfield::field_u32(self@, 16, 16) as u16,
    {
        TS_R::new(bitfield::read_field_u32(self.bits(), 16, 16) as u16)
    }

    /// Bit 8 - Time stamp enable
    pub fn tsen(&self) -> (r: TSEN_R)
        ensures
            r@ == bitfield::bit_u32(self@, 8),
    {
        TSEN_R::new(bitfield::read_bit_u32(self.bits(), 8))
    }

    /// Bits 0:3 - Data length code
    pub fn dlenc(&self) -> (r: DLENC_R)
        ensures
            r@ == bitfield::field_u32(self@, 0, 4) as u8,
    {
        DLENC_R::new(bitfield::read_field_u32(self.bits(), 0, 4) as u8)
    }
}

impl W {
    /// Bits 16:31 - Time stamp
    pub fn ts(&mut self) -> (r: TS_W<'_>)
        ensures
            *r.w == *old(self),
            *final(r.w) == *final(self),
    {
        TS_W { w: self }
    }

    /// Bit 8 - Time stamp enable
    pub fn tsen(&mut self) -> (r: TSEN_W<'_>)
        ensures
            *r.w == *old(self),
            *final(r.w) == *final(self),
    {
        TSEN_W { w: self }
    }

    /// Bits 0:3 - Data length code
    pub fn dlenc(&mut self) -> (r: DLENC_W<'_>)
        ensures
            *r.w == *old(self),
            *final(r.w) == *final(self),
    {
        DLENC_W { w: self }
    }
}

} // verus!

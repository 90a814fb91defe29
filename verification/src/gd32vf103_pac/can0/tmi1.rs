use vstd::prelude::*;
use crate::bitfield;

verus! {

/// Reader of register TMI1
pub type R = crate::gd32vf103_pac::generic::R<u32, super::TMI1>;

/// Writer for register TMI1
pub type W = crate::gd32vf103_pac::generic::W<u32, super::TMI1>;

/// Register TMI1 `reset()`'s with value 0
impl crate::gd32vf103_pac::generic::ResetValue for super::TMI1 {
    type Type = u32;

    open spec fn reset_spec() -> u32 {
        0
    }

    fn reset_value() -> (r: u32) {
        0
    }
}

/// Reader of field `SFID_EFID`
pub type SFID_EFID_R = crate::gd32vf103_pac::generic::R<u16, u16>;

/// Write proxy for field `SFID_EFID`
pub struct SFID_EFID_W<'a> {
    pub w: &'a mut W,
}

impl<'a> SFID_EFID_W<'a> {
    /// Writes raw bits to the field
    pub fn bits(self, value: u16) -> (r: &'a mut W)
        ensures
            r@ == bitfield::with_field_u32(old(self.w)@, 21, 11, value as u32),
            *final(r) == *final(self.w),
    {
        let bits: u32 = bitfield::write_field_u32(self.w.value(), 21, 11, value as u32);
        self.w.bits(bits)
    }
}

/// Reader of field `EFID`
pub type EFID_R = crate::gd32vf103_pac::generic::R<u32, u32>;

/// Write proxy for field `EFID`
pub struct EFID_W<'a> {
    pub w: &'a mut W,
}

impl<'a> EFID_W<'a> {
    /// Writes raw bits to the field
    pub fn bits(self, value: u32) -> (r: &'a mut W)
        ensures
            r@ == bitfield::with_field_u32(old(self.w)@, 3, 18, value),
            *final(r) == *final(self.w),
    {
        let bits: u32 = bitfield::write_field_u32(self.w.value(), 3, 18, value);
        self.w.bits(bits)
    }
}

/// Reader of field `FF`
pub type FF_R = crate::gd32vf103_pac::generic::R<bool, bool>;

/// Write proxy for field `FF`
pub struct FF_W<'a> {
    pub w: &'a mut W,
}

impl<'a> FF_W<'a> {
    /// Sets the field bit
    pub fn set_bit(self) -> (r: &'a mut W)
        ensures
            r@ == bitfield::with_bit_u32(old(self.w)@, 2, true),
            *final(r) == *final(self.w),
    {
        self.bit(true)
    }

    /// Clears the field bit
    pub fn clear_bit(self) -> (r: &'a mut W)
        ensures
            r@ == bitfield::with_bit_u32(old(self.w)@, 2, false),
            *final(r) == *final(self.w),
    {
        self.bit(false)
    }

    /// Writes raw bits to the field
    pub fn bit(self, value: bool) -> (r: &'a mut W)
        ensures
            r@ == bitfield::with_bit_u32(old(self.w)@, 2, value),
            *final(r) == *final(self.w),
    {
        let bits: u32 = bitfield::write_bit_u32(self.w.value(), 2, value);
        self.w.bits(bits)
    }
}

/// Reader of field `FT`
pub type FT_R = crate::gd32vf103_pac::generic::R<bool, bool>;

/// Write proxy for field `FT`
pub struct FT_W<'a> {
    pub w: &'a mut W,
}

impl<'a> FT_W<'a> {
    /// Sets the field bit
    pub fn set_bit(self) -> (r: &'a mut W)
        ensures
            r@ == bitfield::with_bit_u32(old(self.w)@, 1, true),
            *final(r) == *final(self.w),
    {
        self.bit(true)
    }

    /// Clears the field bit
    pub fn clear_bit(self) -> (r: &'a mut W)
        ensures
            r@ == bitfield::with_bit_u32(old(self.w)@, 1, false),
            *final(r) == *final(self.w),
    {
        self.bit(false)
    }

    /// Writes raw bits to the field
    pub fn bit(self, value: bool) -> (r: &'a mut W)
        ensures
            r@ == bitfield::with_bit_u32(old(self.w)@, 1, value),
            *final(r) == *final(self.w),
    {
        let bits: u32 = bitfield::write_bit_u32(self.w.value(), 1, value);
        self.w.bits(bits)
    }
}

/// Reader of field `TEN`
pub type TEN_R = crate::gd32vf103_pac::generic::R<bool, bool>;

/// Write proxy for field `TEN`
pub struct TEN_W<'a> {
    pub w: &'a mut W,
}

impl<'a> TEN_W<'a> {
    /// Sets the field bit
    pub fn set_bit(self) -> (r: &'a mut W)
        ensures
            r@ == bitfield::with_bit_u32(old(self.w)@, 0, true),
            *final(r) == *final(self.w),
    {
        self.bit(true)
    }

    /// Clears the field bit
    pub fn clear_bit(self) -> (r: &'a mut W)
        ensures
            r@ == bitfield::with_bit_u32(old(self.w)@, 0, false),
            *final(r) == *final(self.w),
    {
        self.bit(false)
    }

    /// Writes raw bits to the field
    pub fn bit(self, value: bool) -> (r: &'a mut W)
        ensures
            r@ == bitfield::with_bit_u32(old(self.w)@, 0, value),
            *final(r) == *final(self.w),
    {
        let bits: u32 = bitfield::write_bit_u32(self.w.value(), 0, value);
        self.w.bits(bits)
    }
}

impl R {
    /// Bits 21:31 - The frame identifier
    pub fn sfid_efid(&self) -> (r: SFID_EFID_R)
        ensures
            r@ == bitfield::field_u32(self@, 21, 11) as u16,
    {
        SFID_EFID_R::new(bitfield::read_field_u32(self.bits(), 21, 11) as u16)
    }

    /// Bits 3:20 - The frame identifier
    pub fn efid(&self) -> (r: EFID_R)
        ensures
            r@ == bitfield::field_u32(self@, 3, 18),
    {
        EFID_R::new(bitfield::read_field_u32(self.bits(), 3, 18))
    }

    /// Bit 2 - Frame format
    pub fn ff(&self) -> (r: FF_R)
        ensures
            r@ == bitfield::bit_u32(self@, 2),
    {
        FF_R::new(bitfield::read_bit_u32(self.bits(), 2))
    }

    /// Bit 1 - Frame type
    pub fn ft(&self) -> (r: FT_R)
        ensures
            r@ == bitfield::bit_u32(self@, 1),
    {
        FT_R::new(bitfield::read_bit_u32(self.bits(), 1))
    }

    /// Bit 0 - Transmit enable
    pub fn ten(&self) -> (r: TEN_R)
        ensures
            r@ == bitfield::bit_u32(self@, 0),
    {
        TEN_R::new(bitfield::read_bit_u32(self.bits(), 0))
    }
}

impl W {
    /// Bits 21:31 - The frame identifier
    pub fn sfid_efid(&mut self) -> (r: SFID_EFID_W<'_>)
        ensures
            *r.w == *old(self),
            *final(r.w) == *final(self),
    {
        SFID_EFID_W { w: self }
    }

    /// Bits 3:20 - The frame identifier
    pub fn efid(&mut self) -> (r: EFID_W<'_>)
        ensures
            *r.w == *old(self),
            *final(r.w) == *final(self),
    {
        EFID_W { w: self }
    }

    /// Bit 2 - Frame format
    pub fn ff(&mut self) -> (r: FF_W<'_>)
        ensures
            *r.w == *old(self),
            *final(r.w) == *final(self),
    {
        FF_W { w: self }
    }

    /// Bit 1 - Frame type
    pub fn ft(&mut self) -> (r: FT_W<'_>)
        ensures
            *r.w == *old(self),
            *final(r.w) == *final(self),
    {
        FT_W { w: self }
    }

    /// Bit 0 - Transmit enable
    pub fn ten(&mut self) -> (r: TEN_W<'_>)
        ensures
            *r.w == *old(self),
            *final(r.w) == *final(self),
    {
        TEN_W { w: self }
    }
}

} // verus!

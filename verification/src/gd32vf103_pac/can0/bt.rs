use vstd::prelude::*;
use crate::bitfield;

verus! {

/// Reader of register BT
pub type R = crate::gd32vf103_pac::generic::R<u32, super::BT>;

/// Writer for register BT
pub type W = crate::gd32vf103_pac::generic::W<u32, super::BT>;

/// Register BT `reset()`'s with value 0x0123_0000
impl crate::gd32vf103_pac::generic::ResetValue for super::BT {
    type Type = u32;

    open spec fn reset_spec() -> u32 {
        0x0123_0000
    }

    fn reset_value() -> (r: u32) {
        0x0123_0000
    }
}

/// Reader of field `SCMOD`
pub type SCMOD_R = crate::gd32vf103_pac::generic::R<bool, bool>;

/// Write proxy for field `SCMOD`
pub struct SCMOD_W<'a> {
    pub w: &'a mut W,
}

impl<'a> SCMOD_W<'a> {
    /// Sets the field bit
    pub fn set_bit(self) -> (r: &'a mut W)
        ensures
            r@ == bitfield::with_bit_u32(old(self.w)@, 31, true),
            *final(r) == *final(self.w),
    {
        self.bit(true)
    }

    /// Clears the field bit
    pub fn clear_bit(self) -> (r: &'a mut W)
        ensures
            r@ == bitfield::with_bit_u32(old(self.w)@, 31, false),
            *final(r) == *final(self.w),
    {
        self.bit(false)
    }

    /// Writes raw bits to the field
    pub fn bit(self, value: bool) -> (r: &'a mut W)
        ensures
            r@ == bitfield::with_bit_u32(old(self.w)@, 31, value),
            *final(r) == *final(self.w),
    {
        let bits: u32 = bitfield::write_bit_u32(self.w.value(), 31, value);
        self.w.bits(bits)
    }
}

/// Reader of field `LCMOD`
pub type LCMOD_R = crate::gd32vf103_pac::generic::R<bool, bool>;

/// Write proxy for field `LCMOD`
pub struct LCMOD_W<'a> {
    pub w: &'a mut W,
}

impl<'a> LCMOD_W<'a> {
    /// Sets the field bit
    pub fn set_bit(self) -> (r: &'a mut W)
        ensures
            r@ == bitfield::with_bit_u32(old(self.w)@, 30, true),
            *final(r) == *final(self.w),
    {
        self.bit(true)
    }

    /// Clears the field bit
    pub fn clear_bit(self) -> (r: &'a mut W)
        ensures
            r@ == bitfield::with_bit_u32(old(self.w)@, 30, false),
            *final(r) == *final(self.w),
    {
        self.bit(false)
    }

    /// Writes raw bits to the field
    pub fn bit(self, value: bool) -> (r: &'a mut W)
        ensures
            r@ == bitfield::with_bit_u32(old(self.w)@, 30, value),
            *final(r) == *final(self.w),
    {
        let bits: u32 = bitfield::write_bit_u32(self.w.value(), 30, value);
        self.w.bits(bits)
    }
}

/// Reader of field `SJW`
pub type SJW_R = crate::gd32vf103_pac::generic::R<u8, u8>;

/// Write proxy for field `SJW`
pub struct SJW_W<'a> {
    pub w: &'a mut W,
}

impl<'a> SJW_W<'a> {
    /// Writes raw bits to the field
    pub fn bits(self, value: u8) -> (r: &'a mut W)
        ensures
            r@ == bitfield::with_field_u32(old(self.w)@, 24, 2, value as u32),
            *final(r) == *final(self.w),
    {
        let bits: u32 = bitfield::write_field_u32(self.w.value(), 24, 2, value as u32);
        self.w.bits(bits)
    }
}

/// Reader of field `BS2`
pub type BS2_R = crate::gd32vf103_pac::generic::R<u8, u8>;

/// Write proxy for field `BS2`
pub struct BS2_W<'a> {
    pub w: &'a mut W,
}

impl<'a> BS2_W<'a> {
    /// Writes raw bits to the field
    pub fn bits(self, value: u8) -> (r: &'a mut W)
        ensures
            r@ == bitfield::with_field_u32(old(self.w)@, 20, 3, value as u32),
            *final(r) == *final(self.w),
    {
        let bits: u32 = bitfield::write_field_u32(self.w.value(), 20, 3, value as u32);
        self.w.bits(bits)
    }
}

/// Reader of field `BS1`
pub type BS1_R = crate::gd32vf103_pac::generic::R<u8, u8>;

/// Write proxy for field `BS1`
pub struct BS1_W<'a> {
    pub w: &'a mut W,
}

impl<'a> BS1_W<'a> {
    /// Writes raw bits to the field
    pub fn bits(self, value: u8) -> (r: &'a mut W)
        ensures
            r@ == bitfield::with_field_u32(old(self.w)@, 16, 4, value as u32),
            *final(r) == *final(self.w),
    {
        let bits: u32 = bitfield::write_field_u32(self.w.value(), 16, 4, value as u32);
        self.w.bits(bits)
    }
}

/// Reader of field `BAUDPSC`
pub type BAUDPSC_R = crate::gd32vf103_pac::generic::R<u16, u16>;

/// Write proxy for field `BAUDPSC`
pub struct BAUDPSC_W<'a> {
    pub w: &'a mut W,
}

impl<'a> BAUDPSC_W<'a> {
    /// Writes raw bits to the field
    pub fn bits(self, value: u16) -> (r: &'a mut W)
        ensures
            r@ == bitfield::with_field_u32(old(self.w)@, 0, 10, value as u32),
            *final(r) == *final(self.w),
    {
        let bits: u32 = bitfield::write_field_u32(self.w.value(), 0, 10, value as u32);
        self.w.bits(bits)
    }
}

impl R {
    /// Bit 31 - Silent communication mode
    pub fn scmod(&self) -> (r: SCMOD_R)
        ensures
            r@ == bitfield::bit_u32(self@, 31),
    {
        SCMOD_R::new(bitfield::read_bit_u32(self.bits(), 31))
    }

    /// Bit 30 - Loopback communication mode
    pub fn lcmod(&self) -> (r: LCMOD_R)
        ensures
            r@ == bitfield::bit_u32(self@, 30),
    {
        LCMOD_R::new(bitfield::read_bit_u32(self.bits(), 30))
    }

    /// Bits 24:25 - Resynchronization jump width
    pub fn sjw(&self) -> (r: SJW_R)
        ensures
            r@ == bitfield::field_u32(self@, 24, 2) as u8,
    {
        SJW_R::new(bitfield::read_field_u32(self.bits(), 24, 2) as u8)
    }

    /// Bits 20:22 - Bit segment 2
    pub fn bs2(&self) -> (r: BS2_R)
        ensures
            r@ == bitfield::field_u32(self@, 20, 3) as u8,
    {
        BS2_R::new(bitfield::read_field_u32(self.bits(), 20, 3) as u8)
    }

    /// Bits 16:19 - Bit segment 1
    pub fn bs1(&self) -> (r: BS1_R)
        ensures
            r@ == bitfield::field_u32(self@, 16, 4) as u8,
    {
        BS1_R::new(bitfield::read_field_u32(self.bits(), 16, 4) as u8)
    }

    /// Bits 0:9 - Baud rate prescaler
    pub fn baudpsc(&self) -> (r: BAUDPSC_R)
        ensures
            r@ == bitfield::field_u32(self@, 0, 10) as u16,
    {
        BAUDPSC_R::new(bitfield::read_field_u32(self.bits(), 0, 10) as u16)
    }
}

impl W {
    /// Bit 31 - Silent communication mode
    pub fn scmod(&mut self) -> (r: SCMOD_W<'_>)
        ensures
            *r.w == *old(self),
            *final(r.w) == *final(self),
    {
        SCMOD_W { w: self }
    }

    /// Bit 30 - Loopback communication mode
    pub fn lcmod(&mut self) -> (r: LCMOD_W<'_>)
        ensures
            *r.w == *old(self),
            *final(r.w) == *final(self),
    {
        LCMOD_W { w: self }
    }

    /// Bits 24:25 - Resynchronization jump width
    pub fn sjw(&mut self) -> (r: SJW_W<'_>)
        ensures
            *r.w == *old(self),
            *final(r.w) == *final(self),
    {
        SJW_W { w: self }
    }

    /// Bits 20:22 - Bit segment 2
    pub fn bs2(&mut self) -> (r: BS2_W<'_>)
        ensures
            *r.w == *old(self),
            *final(r.w) == *final(self),
    {
        BS2_W { w: self }
    }

    /// Bits 16:19 - Bit segment 1
    pub fn bs1(&mut self) -> (r: BS1_W<'_>)
        ensures
            *r.w == *old(self),
            *final(r.w) == *final(self),
    {
        BS1_W { w: self }
    }

    /// Bits 0:9 - Baud rate prescaler
    pub fn baudpsc(&mut self) -> (r: BAUDPSC_W<'_>)
        ensures
            *r.w == *old(self),
            *final(r.w) == *final(self),
    {
        BAUDPSC_W { w: self }
    }
}

} // verus!

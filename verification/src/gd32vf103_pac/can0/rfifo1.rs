use vstd::prelude::*;
use crate::bitfield;

verus! {

/// Reader of register RFIFO1
pub type R = crate::gd32vf103_pac::generic::R<u32, super::RFIFO1>;

/// Writer for register RFIFO1
pub type W = crate::gd32vf103_pac::generic::W<u32, super::RFIFO1>;

/// Register RFIFO1 `reset()`'s with value 0
impl crate::gd32vf103_pac::generic::ResetValue for super::RFIFO1 {
    type Type = u32;

    open spec fn reset_spec() -> u32 {
        0
    }

    fn reset_value() -> (r: u32) {
        0
    }
}

/// Reader of field `RFD1`
pub type RFD1_R = crate::gd32vf103_pac::generic::R<bool, bool>;

/// Write proxy for field `RFD1`
pub struct RFD1_W<'a> {
    pub w: &'a mut W,
}

impl<'a> RFD1_W<'a> {
    /// Sets the field bit
    pub fn set_bit(self) -> (r: &'a mut W)
        ensures
            r@ == bitfield::with_bit_u32(old(self.w)@, 5, true),
            *final(r) == *final(self.w),
    {
        self.bit(true)
    }

    /// Clears the field bit
    pub fn clear_bit(self) -> (r: &'a mut W)
        ensures
            r@ == bitfield::with_bit_u32(old(self.w)@, 5, false),
            *final(r) == *final(self.w),
    {
        self.bit(false)
    }

    /// Writes raw bits to the field
    pub fn bit(self, value: bool) -> (r: &'a mut W)
        ensures
            r@ == bitfield::with_bit_u32(old(self.w)@, 5, value),
            *final(r) == *final(self.w),
    {
        let bits: u32 = bitfield::write_bit_u32(self.w.value(), 5, value);
        self.w.bits(bits)
    }
}

/// Reader of field `RFO1`
pub type RFO1_R = crate::gd32vf103_pac::generic::R<bool, bool>;

/// Write proxy for field `RFO1`
pub struct RFO1_W<'a> {
    pub w: &'a mut W,
}

impl<'a> RFO1_W<'a> {
    /// Sets the field bit
    pub fn set_bit(self) -> (r: &'a mut W)
        ensures
            r@ == bitfield::with_bit_u32(old(self.w)@, 4, true),
            *final(r) == *final(self.w),
    {
        self.bit(true)
    }

    /// Clears the field bit
    pub fn clear_bit(self) -> (r: &'a mut W)
        ensures
            r@ == bitfield::with_bit_u32(old(self.w)@, 4, false),
            *final(r) == *final(self.w),
    {
        self.bit(false)
    }

    /// Writes raw bits to the field
    pub fn bit(self, value: bool) -> (r: &'a mut W)
        ensures
            r@ == bitfield::with_bit_u32(old(self.w)@, 4, value),
            *final(r) == *final(self.w),
    {
        let bits: u32 = bitfield::write_bit_u32(self.w.value(), 4, value);
        self.w.bits(bits)
    }
}

/// Reader of field `RFF1`
pub type RFF1_R = crate::gd32vf103_pac::generic::R<bool, bool>;

/// Write proxy for field `RFF1`
pub struct RFF1_W<'a> {
    pub w: &'a mut W,
}

impl<'a> RFF1_W<'a> {
    /// Sets the field bit
    pub fn set_bit(self) -> (r: &'a mut W)
        ensures
            r@ == bitfield::with_bit_u32(old(self.w)@, 3, true),
            *final(r) == *final(self.w),
    {
        self.bit(true)
    }

    /// Clears the field bit
    pub fn clear_bit(self) -> (r: &'a mut W)
        ensures
            r@ == bitfield::with_bit_u32(old(self.w)@, 3, false),
            *final(r) == *final(self.w),
    {
        self.bit(false)
    }

    /// Writes raw bits to the field
    pub fn bit(self, value: bool) -> (r: &'a mut W)
        ensures
            r@ == bitfield::with_bit_u32(old(self.w)@, 3, value),
            *final(r) == *final(self.w),
    {
        let bits: u32 = bitfield::write_bit_u32(self.w.value(), 3, value);
        self.w.bits(bits)
    }
}

/// Reader of field `RFL1`
pub type RFL1_R = crate::gd32vf103_pac::generic::R<u8, u8>;

impl R {
    /// Bit 5 - Receive FIFO1 dequeue
    pub fn rfd1(&self) -> (r: RFD1_R)
        ensures
            r@ == bitfield::bit_u32(self@, 5),
    {
        RFD1_R::new(bitfield::read_bit_u32(self.bits(), 5))
    }

    /// Bit 4 - Receive FIFO1 overfull
    pub fn rfo1(&self) -> (r: RFO1_R)
        ensures
            r@ == bitfield::bit_u32(self@, 4),
    {
        RFO1_R::new(bitfield::read_bit_u32(self.bits(), 4))
    }

    /// Bit 3 - Receive FIFO1 full
    pub fn rff1(&self) -> (r: RFF1_R)
        ensures
            r@ == bitfield::bit_u32(self@, 3),
    {
        RFF1_R::new(bitfield::read_bit_u32(self.bits(), 3))
    }

    /// Bits 0:1 - Receive FIFO1 length
    pub fn rfl1(&self) -> (r: RFL1_R)
        ensures
            r@ == bitfield::field_u32(self@, 0, 2) as u8,
    {
        RFL1_R::new(bitfield::read_field_u32(self.bits(), 0, 2) as u8)
    }
}

impl W {
    /// Bit 5 - Receive FIFO1 dequeue
    pub fn rfd1(&mut self) -> (r: RFD1_W<'_>)
        ensures
            *r.w == *old(self),
            *final(r.w) == *final(self),
    {
        RFD1_W { w: self }
    }

    /// Bit 4 - Receive FIFO1 overfull
    pub fn rfo1(&mut self) -> (r: RFO1_W<'_>)
        ensures
            *r.w == *old(self),
            *final(r.w) == *final(self),
    {
        RFO1_W { w: self }
    }

    /// Bit 3 - Receive FIFO1 full
    pub fn rff1(&mut self) -> (r: RFF1_W<'_>)
        ensures
            *r.w == *old(self),
            *final(r.w) == *final(self),
    {
        RFF1_W { w: self }
    }
}

} // verus!

use vstd::prelude::*;
use crate::bitfield;

verus! {

/// Reader of register RFIFO0
pub type R = crate::gd32vf103_pac::generic::R<u32, super::RFIFO0>;

/// Writer for register RFIFO0
pub type W = crate::gd32vf103_pac::generic::W<u32, super::RFIFO0>;

/// Register RFIFO0 `reset()`'s with value 0
impl crate::gd32vf103_pac::generic::ResetValue for super::RFIFO0 {
    type Type = u32;

    open spec fn reset_spec() -> u32 {
        0
    }

    fn reset_value() -> (r: u32) {
        0
    }
}

/// Reader of field `RFD0`
pub type RFD0_R = crate::gd32vf103_pac::generic::R<bool, bool>;

/// Write proxy for field `RFD0`
pub struct RFD0_W<'a> {
    pub w: &'a mut W,
}

impl<'a> RFD0_W<'a> {
    /// Sets the field bit
    pub fn set_bit(self) -> (r: &'a mut W)
        ensures
            r@ == bitfield::with_bit_u32(old(self.w)@, 5, true),
            *final(r) == *final(self.w),
    {
        self.bit(true)
    }

    /// Clears the field bit
    pub fn clear_bit(self) -> (r: &'a mut W)
        ensures
            r@ == bitfield::with_bit_u32(old(self.w)@, 5, false),
            *final(r) == *final(self.w),
    {
        self.bit(false)
    }

    /// Writes raw bits to the field
    pub fn bit(self, value: bool) -> (r: &'a mut W)
        ensures
            r@ == bitfield::with_bit_u32(old(self.w)@, 5, value),
            *final(r) == *final(self.w),
    {
        let bits: u32 = bitfield::write_bit_u32(self.w.value(), 5, value);
        self.w.bits(bits)
    }
}

/// Reader of field `RFO0`
pub type RFO0_R = crate::gd32vf103_pac::generic::R<bool, bool>;

/// Write proxy for field `RFO0`
pub struct RFO0_W<'a> {
    pub w: &'a mut W,
}

impl<'a> RFO0_W<'a> {
    /// Sets the field bit
    pub fn set_bit(self) -> (r: &'a mut W)
        ensures
            r@ == bitfield::with_bit_u32(old(self.w)@, 4, true),
            *final(r) == *final(self.w),
    {
        self.bit(true)
    }

    /// Clears the field bit
    pub fn clear_bit(self) -> (r: &'a mut W)
        ensures
            r@ == bitfield::with_bit_u32(old(self.w)@, 4, false),
            *final(r) == *final(self.w),
    {
        self.bit(false)
    }

    /// Writes raw bits to the field
    pub fn bit(self, value: bool) -> (r: &'a mut W)
        ensures
            r@ == bitfield::with_bit_u32(old(self.w)@, 4, value),
            *final(r) == *final(self.w),
    {
        let bits: u32 = bitfield::write_bit_u32(self.w.value(), 4, value);
        self.w.bits(bits)
    }
}

/// Reader of field `RFF0`
pub type RFF0_R = crate::gd32vf103_pac::generic::R<bool, bool>;

/// Write proxy for field `RFF0`
pub struct RFF0_W<'a> {
    pub w: &'a mut W,
}

impl<'a> RFF0_W<'a> {
    /// Sets the field bit
    pub fn set_bit(self) -> (r: &'a mut W)
        ensures
            r@ == bitfield::with_bit_u32(old(self.w)@, 3, true),
            *final(r) == *final(self.w),
    {
        self.bit(true)
    }

    /// Clears the field bit
    pub fn clear_bit(self) -> (r: &'a mut W)
        ensures
            r@ == bitfield::with_bit_u32(old(self.w)@, 3, false),
            *final(r) == *final(self.w),
    {
        self.bit(false)
    }

    /// Writes raw bits to the field
    pub fn bit(self, value: bool) -> (r: &'a mut W)
        ensures
            r@ == bitfield::with_bit_u32(old(self.w)@, 3, value),
            *final(r) == *final(self.w),
    {
        let bits: u32 = bitfield::write_bit_u32(self.w.value(), 3, value);
        self.w.bits(bits)
    }
}

/// Reader of field `RFL0`
pub type RFL0_R = crate::gd32vf103_pac::generic::R<u8, u8>;

impl R {
    /// Bit 5 - Receive FIFO0 dequeue
    pub fn rfd0(&self) -> (r: RFD0_R)
        ensures
            r@ == bitfield::bit_u32(self@, 5),
    {
        RFD0_R::new(bitfield::read_bit_u32(self.bits(), 5))
    }

    /// Bit 4 - Receive FIFO0 overfull
    pub fn rfo0(&self) -> (r: RFO0_R)
        ensures
            r@ == bitfield::bit_u32(self@, 4),
    {
        RFO0_R::new(bitfield::read_bit_u32(self.bits(), 4))
    }

    /// Bit 3 - Receive FIFO0 full
    pub fn rff0(&self) -> (r: RFF0_R)
        ensures
            r@ == bitfield::bit_u32(self@, 3),
    {
        RFF0_R::new(bitfield::read_bit_u32(self.bits(), 3))
    }

    /// Bits 0:1 - Receive FIFO0 length
    pub fn rfl0(&self) -> (r: RFL0_R)
        ensures
            r@ == bitfield::field_u32(self@, 0, 2) as u8,
    {
        RFL0_R::new(bitfield::read_field_u32(self.bits(), 0, 2) as u8)
    }
}

impl W {
    /// Bit 5 - Receive FIFO0 dequeue
    pub fn rfd0(&mut self) -> (r: RFD0_W<'_>)
        ensures
            *r.w == *old(self),
            *final(r.w) == *final(self),
    {
        RFD0_W { w: self }
    }

    /// Bit 4 - Receive FIFO0 overfull
    pub fn rfo0(&mut self) -> (r: RFO0_W<'_>)
        ensures
            *r.w == *old(self),
            *final(r.w) == *final(self),
    {
        RFO0_W { w: self }
    }

    /// Bit 3 - Receive FIFO0 full
    pub fn rff0(&mut self) -> (r: RFF0_W<'_>)
        ensures
            *r.w == *old(self),
            *final(r.w) == *final(self),
    {
        RFF0_W { w: self }
    }
}

} // verus!

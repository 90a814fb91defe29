use vstd::prelude::*;
use crate::bitfield;

verus! {

/// Reader of register STAT
pub type R = crate::gd32vf103_pac::generic::R<u32, super::STAT>;

/// Writer for register STAT
pub type W = crate::gd32vf103_pac::generic::W<u32, super::STAT>;

/// Register STAT `reset()`'s with value 0
impl crate::gd32vf103_pac::generic::ResetValue for super::STAT {
    type Type = u32;

    open spec fn reset_spec() -> u32 {
        0
    }

    fn reset_value() -> (r: u32) {
        0
    }
}

/// Reader of field `STRC`
pub type STRC_R = crate::gd32vf103_pac::generic::R<bool, bool>;

/// Write proxy for field `STRC`
pub struct STRC_W<'a> {
    pub w: &'a mut W,
}

impl<'a> STRC_W<'a> {
    /// Sets the field bit
    pub fn set_bit(self) -> (r: &'a mut W)
        ensures
            r@ == bitfield::with_bit_u32(old(self.w)@, 4, true),
            *final(r) == *final(self.w),
    {
        self.bit(true)
    }

    /// Clears the field bit
    pub fn clear_bit(self) -> (r: &'a mut W)
        ensures
            r@ == bitfield::with_bit_u32(old(self.w)@, 4, false),
            *final(r) == *final(self.w),
    {
        self.bit(false)
    }

    /// Writes raw bits to the field
    pub fn bit(self, value: bool) -> (r: &'a mut W)
        ensures
            r@ == bitfield::with_bit_u32(old(self.w)@, 4, value),
            *final(r) == *final(self.w),
    {
        let bits: u32 = bitfield::write_bit_u32(self.w.value(), 4, value);
        self.w.bits(bits)
    }
}

/// Reader of field `STIC`
pub type STIC_R = crate::gd32vf103_pac::generic::R<bool, bool>;

/// Write proxy for field `STIC`
pub struct STIC_W<'a> {
    pub w: &'a mut W,
}

impl<'a> STIC_W<'a> {
    /// Sets the field bit
    pub fn set_bit(self) -> (r: &'a mut W)
        ensures
            r@ == bitfield::with_bit_u32(old(self.w)@, 3, true),
            *final(r) == *final(self.w),
    {
        self.bit(true)
    }

    /// Clears the field bit
    pub fn clear_bit(self) -> (r: &'a mut W)
        ensures
            r@ == bitfield::with_bit_u32(old(self.w)@, 3, false),
            *final(r) == *final(self.w),
    {
        self.bit(false)
    }

    /// Writes raw bits to the field
    pub fn bit(self, value: bool) -> (r: &'a mut W)
        ensures
            r@ == bitfield::with_bit_u32(old(self.w)@, 3, value),
            *final(r) == *final(self.w),
    {
        let bits: u32 = bitfield::write_bit_u32(self.w.value(), 3, value);
        self.w.bits(bits)
    }
}

/// Reader of field `EOIC`
pub type EOIC_R = crate::gd32vf103_pac::generic::R<bool, bool>;

/// Write proxy for field `EOIC`
pub struct EOIC_W<'a> {
    pub w: &'a mut W,
}

impl<'a> EOIC_W<'a> {
    /// Sets the field bit
    pub fn set_bit(self) -> (r: &'a mut W)
        ensures
            r@ == bitfield::with_bit_u32(old(self.w)@, 2, true),
            *final(r) == *final(self.w),
    {
        self.bit(true)
    }

    /// Clears the field bit
    pub fn clear_bit(self) -> (r: &'a mut W)
        ensures
            r@ == bitfield::with_bit_u32(old(self.w)@, 2, false),
            *final(r) == *final(self.w),
    {
        self.bit(false)
    }

    /// Writes raw bits to the field
    pub fn bit(self, value: bool) -> (r: &'a mut W)
        ensures
            r@ == bitfield::with_bit_u32(old(self.w)@, 2, value),
            *final(r) == *final(self.w),
    {
        let bits: u32 = bitfield::write_bit_u32(self.w.value(), 2, value);
        self.w.bits(bits)
    }
}

/// Reader of field `EOC`
pub type EOC_R = crate::gd32vf103_pac::generic::R<bool, bool>;

/// Write proxy for field `EOC`
pub struct EOC_W<'a> {
    pub w: &'a mut W,
}

impl<'a> EOC_W<'a> {
    /// Sets the field bit
    pub fn set_bit(self) -> (r: &'a mut W)
        ensures
            r@ == bitfield::with_bit_u32(old(self.w)@, 1, true),
            *final(r) == *final(self.w),
    {
        self.bit(true)
    }

    /// Clears the field bit
    pub fn clear_bit(self) -> (r: &'a mut W)
        ensures
            r@ == bitfield::with_bit_u32(old(self.w)@, 1, false),
            *final(r) == *final(self.w),
    {
        self.bit(false)
    }

    /// Writes raw bits to the field
    pub fn bit(self, value: bool) -> (r: &'a mut W)
        ensures
            r@ == bitfield::with_bit_u32(old(self.w)@, 1, value),
            *final(r) == *final(self.w),
    {
        let bits: u32 = bitfield::write_bit_u32(self.w.value(), 1, value);
        self.w.bits(bits)
    }
}

/// Reader of field `WDE`
pub type WDE_R = crate::gd32vf103_pac::generic::R<bool, bool>;

/// Write proxy for field `WDE`
pub struct WDE_W<'a> {
    pub w: &'a mut W,
}

impl<'a> WDE_W<'a> {
    /// Sets the field bit
    pub fn set_bit(self) -> (r: &'a mut W)
        ensures
            r@ == bitfield::with_bit_u32(old(self.w)@, 0, true),
            *final(r) == *final(self.w),
    {
        self.bit(true)
    }

    /// Clears the field bit
    pub fn clear_bit(self) -> (r: &'a mut W)
        ensures
            r@ == bitfield::with_bit_u32(old(self.w)@, 0, false),
            *final(r) == *final(self.w),
    {
        self.bit(false)
    }

    /// Writes raw bits to the field
    pub fn bit(self, value: bool) -> (r: &'a mut W)
        ensures
            r@ == bitfield::with_bit_u32(old(self.w)@, 0, value),
            *final(r) == *final(self.w),
    {
        let bits: u32 = bitfield::write_bit_u32(self.w.value(), 0, value);
        self.w.bits(bits)
    }
}

impl R {
    /// Bit 4 - Start flag of regular channel group
    pub fn strc(&self) -> (r: STRC_R)
        ensures
            r@ == bitfield::bit_u32(self@, 4),
    {
        STRC_R::new(bitfield::read_bit_u32(self.bits(), 4))
    }

    /// Bit 3 - Start flag of inserted channel group
    pub fn stic(&self) -> (r: STIC_R)
        ensures
            r@ == bitfield::bit_u32(self@, 3),
    {
        STIC_R::new(bitfield::read_bit_u32(self.bits(), 3))
    }

    /// Bit 2 - End of inserted group conversion flag
    pub fn eoic(&self) -> (r: EOIC_R)
        ensures
            r@ == bitfield::bit_u32(self@, 2),
    {
        EOIC_R::new(bitfield::read_bit_u32(self.bits(), 2))
    }

    /// Bit 1 - End of group conversion flag
    pub fn eoc(&self) -> (r: EOC_R)
        ensures
            r@ == bitfield::bit_u32(self@, 1),
    {
        EOC_R::new(bitfield::read_bit_u32(self.bits(), 1))
    }

    /// Bit 0 - Analog watchdog event flag
    pub fn wde(&self) -> (r: WDE_R)
        ensures
            r@ == bitfield::bit_u32(self@, 0),
    {
        WDE_R::new(bitfield::read_bit_u32(self.bits(), 0))
    }
}

impl W {
    /// Bit 4 - Start flag of regular channel group
    pub fn strc(&mut self) -> (r: STRC_W<'_>)
        ensures
            *r.w == *old(self),
            *final(r.w) == *final(self),
    {
        STRC_W { w: self }
    }

    /// Bit 3 - Start flag of inserted channel group
    pub fn stic(&mut self) -> (r: STIC_W<'_>)
        ensures
            *r.w == *old(self),
            *final(r.w) == *final(self),
    {
        STIC_W { w: self }
    }

    /// Bit 2 - End of inserted group conversion flag
    pub fn eoic(&mut self) -> (r: EOIC_W<'_>)
        ensures
            *r.w == *old(self),
            *final(r.w) == *final(self),
    {
        EOIC_W { w: self }
    }

    /// Bit 1 - End of group conversion flag
    pub fn eoc(&mut self) -> (r: EOC_W<'_>)
        ensures
            *r.w == *old(self),
            *final(r.w) == *final(self),
    {
        EOC_W { w: self }
    }

    /// Bit 0 - Analog watchdog event flag
    pub fn wde(&mut self) -> (r: WDE_W<'_>)
        ensures
            *r.w == *old(self),
            *final(r.w) == *final(self),
    {
        WDE_W { w: self }
    }
}

} // verus!

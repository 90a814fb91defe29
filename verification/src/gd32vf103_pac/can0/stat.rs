use vstd::prelude::*;
use crate::bitfield;

verus! {

/// Reader of register STAT
pub type R = crate::gd32vf103_pac::generic::R<u32, super::STAT>;

/// Writer for register STAT
pub type W = crate::gd32vf103_pac::generic::W<u32, super::STAT>;

/// Register STAT `reset()`'s with value 0x0c02
impl crate::gd32vf103_pac::generic::ResetValue for super::STAT {
    type Type = u32;

    open spec fn reset_spec() -> u32 {
        0x0c02
    }

    fn reset_value() -> (r: u32) {
        0x0c02
    }
}

/// Reader of field `RXL`
pub type RXL_R = crate::gd32vf103_pac::generic::R<bool, bool>;

/// Reader of field `LASTRX`
pub type LASTRX_R = crate::gd32vf103_pac::generic::R<bool, bool>;

/// Reader of field `RS`
pub type RS_R = crate::gd32vf103_pac::generic::R<bool, bool>;

/// Reader of field `TS`
pub type TS_R = crate::gd32vf103_pac::generic::R<bool, bool>;

/// Reader of field `SLPIF`
pub type SLPIF_R = crate::gd32vf103_pac::generic::R<bool, bool>;

/// Write proxy for field `SLPIF`
pub struct SLPIF_W<'a> {
    pub w: &'a mut W,
}

impl<'a> SLPIF_W<'a> {
    /// Sets the field bit
    pub fn set_bit(self) -> (r: &'a mut W)
        ensures
            r@ == bitfield::with_bit_u32(old(self.w)@, 4, true),
            *final(r) == *final(self.w),
    {
        self.bit(true)
    }

    /// Clears the field bit
    pub fn clear_bit(self) -> (r: &'a mut W)
        ensures
            r@ == bitfield::with_bit_u32(old(self.w)@, 4, false),
            *final(r) == *final(self.w),
    {
        self.bit(false)
    }

    /// Writes raw bits to the field
    pub fn bit(self, value: bool) -> (r: &'a mut W)
        ensures
            r@ == bitfield::with_bit_u32(old(self.w)@, 4, value),
            *final(r) == *final(self.w),
    {
        let bits: u32 = bitfield::write_bit_u32(self.w.value(), 4, value);
        self.w.bits(bits)
    }
}

/// Reader of field `WUIF`
pub type WUIF_R = crate::gd32vf103_pac::generic::R<bool, bool>;

/// Write proxy for field `WUIF`
pub struct WUIF_W<'a> {
    pub w: &'a mut W,
}

impl<'a> WUIF_W<'a> {
    /// Sets the field bit
    pub fn set_bit(self) -> (r: &'a mut W)
        ensures
            r@ == bitfield::with_bit_u32(old(self.w)@, 3, true),
            *final(r) == *final(self.w),
    {
        self.bit(true)
    }

    /// Clears the field bit
    pub fn clear_bit(self) -> (r: &'a mut W)
        ensures
            r@ == bitfield::with_bit_u32(old(self.w)@, 3, false),
            *final(r) == *final(self.w),
    {
        self.bit(false)
    }

    /// Writes raw bits to the field
    pub fn bit(self, value: bool) -> (r: &'a mut W)
        ensures
            r@ == bitfield::with_bit_u32(old(self.w)@, 3, value),
            *final(r) == *final(self.w),
    {
        let bits: u32 = bitfield::write_bit_u32(self.w.value(), 3, value);
        self.w.bits(bits)
    }
}

/// Reader of field `ERRIF`
pub type ERRIF_R = crate::gd32vf103_pac::generic::R<bool, bool>;

/// Write proxy for field `ERRIF`
pub struct ERRIF_W<'a> {
    pub w: &'a mut W,
}

impl<'a> ERRIF_W<'a> {
    /// Sets the field bit
    pub fn set_bit(self) -> (r: &'a mut W)
        ensures
            r@ == bitfield::with_bit_u32(old(self.w)@, 2, true),
            *final(r) == *final(self.w),
    {
        self.bit(true)
    }

    /// Clears the field bit
    pub fn clear_bit(self) -> (r: &'a mut W)
        ensures
            r@ == bitfield::with_bit_u32(old(self.w)@, 2, false),
            *final(r) == *final(self.w),
    {
        self.bit(false)
    }

    /// Writes raw bits to the field
    pub fn bit(self, value: bool) -> (r: &'a mut W)
        ensures
            r@ == bitfield::with_bit_u32(old(self.w)@, 2, value),
            *final(r) == *final(self.w),
    {
        let bits: u32 = bitfield::write_bit_u32(self.w.value(), 2, value);
        self.w.bits(bits)
    }
}

/// Reader of field `SLPWS`
pub type SLPWS_R = crate::gd32vf103_pac::generic::R<bool, bool>;

/// Reader of field `IWS`
pub type IWS_R = crate::gd32vf103_pac::generic::R<bool, bool>;

impl R {
    /// Bit 11 - RX level
    pub fn rxl(&self) -> (r: RXL_R)
        ensures
            r@ == bitfield::bit_u32(self@, 11),
    {
        RXL_R::new(bitfield::read_bit_u32(self.bits(), 11))
    }

    /// Bit 10 - Last sample value of RX pin
    pub fn lastrx(&self) -> (r: LASTRX_R)
        ensures
            r@ == bitfield::bit_u32(self@, 10),
    {
        LASTRX_R::new(bitfield::read_bit_u32(self.bits(), 10))
    }

    /// Bit 9 - Receiving state
    pub fn rs(&self) -> (r: RS_R)
        ensures
            r@ == bitfield::bit_u32(self@, 9),
    {
        RS_R::new(bitfield::read_bit_u32(self.bits(), 9))
    }

    /// Bit 8 - Transmitting state
    pub fn ts(&self) -> (r: TS_R)
        ensures
            r@ == bitfield::bit_u32(self@, 8),
    {
        TS_R::new(bitfield::read_bit_u32(self.bits(), 8))
    }

    /// Bit 4 - Status change interrupt flag of sleep working mode entering
    pub fn slpif(&self) -> (r: SLPIF_R)
        ensures
            r@ == bitfield::bit_u32(self@, 4),
    {
        SLPIF_R::new(bitfield::read_bit_u32(self.bits(), 4))
    }

    /// Bit 3 - Status change interrupt flag of wakeup from sleep working mode
    pub fn wuif(&self) -> (r: WUIF_R)
        ensures
            r@ == bitfield::bit_u32(self@, 3),
    {
        WUIF_R::new(bitfield::read_bit_u32(self.bits(), 3))
    }

    /// Bit 2 - Error interrupt flag
    pub fn errif(&self) -> (r: ERRIF_R)
        ensures
            r@ == bitfield::bit_u32(self@, 2),
    {
        ERRIF_R::new(bitfield::read_bit_u32(self.bits(), 2))
    }

    /// Bit 1 - Sleep working state
    pub fn slpws(&self) -> (r: SLPWS_R)
        ensures
            r@ == bitfield::bit_u32(self@, 1),
    {
        SLPWS_R::new(bitfield::read_bit_u32(self.bits(), 1))
    }

    /// Bit 0 - Initial working state
    pub fn iws(&self) -> (r: IWS_R)
        ensures
            r@ == bitfield::bit_u32(self@, 0),
    {
        IWS_R::new(bitfield::read_bit_u32(self.bits(), 0))
    }
}

impl W {
    /// Bit 4 - Status change interrupt flag of sleep working mode entering
    pub fn slpif(&mut self) -> (r: SLPIF_W<'_>)
        ensures
            *r.w == *old(self),
            *final(r.w) == *final(self),
    {
        SLPIF_W { w: self }
    }

    /// Bit 3 - Status change interrupt flag of wakeup from sleep working mode
    pub fn wuif(&mut self) -> (r: WUIF_W<'_>)
        ensures
            *r.w == *old(self),
            *final(r.w) == *final(self),
    {
        WUIF_W { w: self }
    }

    /// Bit 2 - Error interrupt flag
    pub fn errif(&mut self) -> (r: ERRIF_W<'_>)
        ensures
            *r.w == *old(self),
            *final(r.w) == *final(self),
    {
        ERRIF_W { w: self }
    }
}

} // verus!

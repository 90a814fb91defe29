use vstd::prelude::*;
use crate::bitfield;

verus! {

/// Reader of register CTL
pub type R = crate::gd32vf103_pac::generic::R<u32, super::CTL>;

/// Writer for register CTL
pub type W = crate::gd32vf103_pac::generic::W<u32, super::CTL>;

/// Register CTL `reset()`'s with value 0x0001_0002
impl crate::gd32vf103_pac::generic::ResetValue for super::CTL {
    type Type = u32;

    open spec fn reset_spec() -> u32 {
        0x0001_0002
    }

    fn reset_value() -> (r: u32) {
        0x0001_0002
    }
}

/// Reader of field `DFZ`
pub type DFZ_R = crate::gd32vf103_pac::generic::R<bool, bool>;

/// Write proxy for field `DFZ`
pub struct DFZ_W<'a> {
    pub w: &'a mut W,
}

impl<'a> DFZ_W<'a> {
    /// Sets the field bit
    pub fn set_bit(self) -> (r: &'a mut W)
        ensures
            r@ == bitfield::with_bit_u32(old(self.w)@, 16, true),
            *final(r) == *final(self.w),
    {
        self.bit(true)
    }

    /// Clears the field bit
    pub fn clear_bit(self) -> (r: &'a mut W)
        ensures
            r@ == bitfield::with_bit_u32(old(self.w)@, 16, false),
            *final(r) == *final(self.w),
    {
        self.bit(false)
    }

    /// Writes raw bits to the field
    pub fn bit(self, value: bool) -> (r: &'a mut W)
        ensures
            r@ == bitfield::with_bit_u32(old(self.w)@, 16, value),
            *final(r) == *final(self.w),
    {
        let bits: u32 = bitfield::write_bit_u32(self.w.value(), 16, value);
        self.w.bits(bits)
    }
}

/// Reader of field `SWRST`
pub type SWRST_R = crate::gd32vf103_pac::generic::R<bool, bool>;

/// Write proxy for field `SWRST`
pub struct SWRST_W<'a> {
    pub w: &'a mut W,
}

impl<'a> SWRST_W<'a> {
    /// Sets the field bit
    pub fn set_bit(self) -> (r: &'a mut W)
        ensures
            r@ == bitfield::with_bit_u32(old(self.w)@, 15, true),
            *final(r) == *final(self.w),
    {
        self.bit(true)
    }

    /// Clears the field bit
    pub fn clear_bit(self) -> (r: &'a mut W)
        ensures
            r@ == bitfield::with_bit_u32(old(self.w)@, 15, false),
            *final(r) == *final(self.w),
    {
        self.bit(false)
    }

    /// Writes raw bits to the field
    pub fn bit(self, value: bool) -> (r: &'a mut W)
        ensures
            r@ == bitfield::with_bit_u32(old(self.w)@, 15, value),
            *final(r) == *final(self.w),
    {
        let bits: u32 = bitfield::write_bit_u32(self.w.value(), 15, value);
        self.w.bits(bits)
    }
}

/// Reader of field `TTC`
pub type TTC_R = crate::gd32vf103_pac::generic::R<bool, bool>;

/// Write proxy for field `TTC`
pub struct TTC_W<'a> {
    pub w: &'a mut W,
}

impl<'a> TTC_W<'a> {
    /// Sets the field bit
    pub fn set_bit(self) -> (r: &'a mut W)
        ensures
            r@ == bitfield::with_bit_u32(old(self.w)@, 7, true),
            *final(r) == *final(self.w),
    {
        self.bit(true)
    }

    /// Clears the field bit
    pub fn clear_bit(self) -> (r: &'a mut W)
        ensures
            r@ == bitfield::with_bit_u32(old(self.w)@, 7, false),
            *final(r) == *final(self.w),
    {
        self.bit(false)
    }

    /// Writes raw bits to the field
    pub fn bit(self, value: bool) -> (r: &'a mut W)
        ensures
            r@ == bitfield::with_bit_u32(old(self.w)@, 7, value),
            *final(r) == *final(self.w),
    {
        let bits: u32 = bitfield::write_bit_u32(self.w.value(), 7, value);
        self.w.bits(bits)
    }
}

/// Reader of field `ABOR`
pub type ABOR_R = crate::gd32vf103_pac::generic::R<bool, bool>;

/// Write proxy for field `ABOR`
pub struct ABOR_W<'a> {
    pub w: &'a mut W,
}

impl<'a> ABOR_W<'a> {
    /// Sets the field bit
    pub fn set_bit(self) -> (r: &'a mut W)
        ensures
            r@ == bitfield::with_bit_u32(old(self.w)@, 6, true),
            *final(r) == *final(self.w),
    {
        self.bit(true)
    }

    /// Clears the field bit
    pub fn clear_bit(self) -> (r: &'a mut W)
        ensures
            r@ == bitfield::with_bit_u32(old(self.w)@, 6, false),
            *final(r) == *final(self.w),
    {
        self.bit(false)
    }

    /// Writes raw bits to the field
    pub fn bit(self, value: bool) -> (r: &'a mut W)
        ensures
            r@ == bitfield::with_bit_u32(old(self.w)@, 6, value),
            *final(r) == *final(self.w),
    {
        let bits: u32 = bitfield::write_bit_u32(self.w.value(), 6, value);
        self.w.bits(bits)
    }
}

/// Reader of field `AWU`
pub type AWU_R = crate::gd32vf103_pac::generic::R<bool, bool>;

/// Write proxy for field `AWU`
pub struct AWU_W<'a> {
    pub w: &'a mut W,
}

impl<'a> AWU_W<'a> {
    /// Sets the field bit
    pub fn set_bit(self) -> (r: &'a mut W)
        ensures
            r@ == bitfield::with_bit_u32(old(self.w)@, 5, true),
            *final(r) == *final(self.w),
    {
        self.bit(true)
    }

    /// Clears the field bit
    pub fn clear_bit(self) -> (r: &'a mut W)
        ensures
            r@ == bitfield::with_bit_u32(old(self.w)@, 5, false),
            *final(r) == *final(self.w),
    {
        self.bit(false)
    }

    /// Writes raw bits to the field
    pub fn bit(self, value: bool) -> (r: &'a mut W)
        ensures
            r@ == bitfield::with_bit_u32(old(self.w)@, 5, value),
            *final(r) == *final(self.w),
    {
        let bits: u32 = bitfield::write_bit_u32(self.w.value(), 5, value);
        self.w.bits(bits)
    }
}

/// Reader of field `ARD`
pub type ARD_R = crate::gd32vf103_pac::generic::R<bool, bool>;

/// Write proxy for field `ARD`
pub struct ARD_W<'a> {
    pub w: &'a mut W,
}

impl<'a> ARD_W<'a> {
    /// Sets the field bit
    pub fn set_bit(self) -> (r: &'a mut W)
        ensures
            r@ == bitfield::with_bit_u32(old(self.w)@, 4, true),
            *final(r) == *final(self.w),
    {
        self.bit(true)
    }

    /// Clears the field bit
    pub fn clear_bit(self) -> (r: &'a mut W)
        ensures
            r@ == bitfield::with_bit_u32(old(self.w)@, 4, false),
            *final(r) == *final(self.w),
    {
        self.bit(false)
    }

    /// Writes raw bits to the field
    pub fn bit(self, value: bool) -> (r: &'a mut W)
        ensures
            r@ == bitfield::with_bit_u32(old(self.w)@, 4, value),
            *final(r) == *final(self.w),
    {
        let bits: u32 = bitfield::write_bit_u32(self.w.value(), 4, value);
        self.w.bits(bits)
    }
}

/// Reader of field `RFOD`
pub type RFOD_R = crate::gd32vf103_pac::generic::R<bool, bool>;

/// Write proxy for field `RFOD`
pub struct RFOD_W<'a> {
    pub w: &'a mut W,
}

impl<'a> RFOD_W<'a> {
    /// Sets the field bit
    pub fn set_bit(self) -> (r: &'a mut W)
        ensures
            r@ == bitfield::with_bit_u32(old(self.w)@, 3, true),
            *final(r) == *final(self.w),
    {
        self.bit(true)
    }

    /// Clears the field bit
    pub fn clear_bit(self) -> (r: &'a mut W)
        ensures
            r@ == bitfield::with_bit_u32(old(self.w)@, 3, false),
            *final(r) == *final(self.w),
    {
        self.bit(false)
    }

    /// Writes raw bits to the field
    pub fn bit(self, value: bool) -> (r: &'a mut W)
        ensures
            r@ == bitfield::with_bit_u32(old(self.w)@, 3, value),
            *final(r) == *final(self.w),
    {
        let bits: u32 = bitfield::write_bit_u32(self.w.value(), 3, value);
        self.w.bits(bits)
    }
}

/// Reader of field `TFO`
pub type TFO_R = crate::gd32vf103_pac::generic::R<bool, bool>;

/// Write proxy for field `TFO`
pub struct TFO_W<'a> {
    pub w: &'a mut W,
}

impl<'a> TFO_W<'a> {
    /// Sets the field bit
    pub fn set_bit(self) -> (r: &'a mut W)
        ensures
            r@ == bitfield::with_bit_u32(old(self.w)@, 2, true),
            *final(r) == *final(self.w),
    {
        self.bit(true)
    }

    /// Clears the field bit
    pub fn clear_bit(self) -> (r: &'a mut W)
        ensures
            r@ == bitfield::with_bit_u32(old(self.w)@, 2, false),
            *final(r) == *final(self.w),
    {
        self.bit(false)
    }

    /// Writes raw bits to the field
    pub fn bit(self, value: bool) -> (r: &'a mut W)
        ensures
            r@ == bitfield::with_bit_u32(old(self.w)@, 2, value),
            *final(r) == *final(self.w),
    {
        let bits: u32 = bitfield::write_bit_u32(self.w.value(), 2, value);
        self.w.bits(bits)
    }
}

/// Reader of field `SLPWMOD`
pub type SLPWMOD_R = crate::gd32vf103_pac::generic::R<bool, bool>;

/// Write proxy for field `SLPWMOD`
pub struct SLPWMOD_W<'a> {
    pub w: &'a mut W,
}

impl<'a> SLPWMOD_W<'a> {
    /// Sets the field bit
    pub fn set_bit(self) -> (r: &'a mut W)
        ensures
            r@ == bitfield::with_bit_u32(old(self.w)@, 1, true),
            *final(r) == *final(self.w),
    {
        self.bit(true)
    }

    /// Clears the field bit
    pub fn clear_bit(self) -> (r: &'a mut W)
        ensures
            r@ == bitfield::with_bit_u32(old(self.w)@, 1, false),
            *final(r) == *final(self.w),
    {
        self.bit(false)
    }

    /// Writes raw bits to the field
    pub fn bit(self, value: bool) -> (r: &'a mut W)
        ensures
            r@ == bitfield::with_bit_u32(old(self.w)@, 1, value),
            *final(r) == *final(self.w),
    {
        let bits: u32 = bitfield::write_bit_u32(self.w.value(), 1, value);
        self.w.bits(bits)
    }
}

/// Reader of field `IWMOD`
pub type IWMOD_R = crate::gd32vf103_pac::generic::R<bool, bool>;

/// Write proxy for field `IWMOD`
pub struct IWMOD_W<'a> {
    pub w: &'a mut W,
}

impl<'a> IWMOD_W<'a> {
    /// Sets the field bit
    pub fn set_bit(self) -> (r: &'a mut W)
        ensures
            r@ == bitfield::with_bit_u32(old(self.w)@, 0, true),
            *final(r) == *final(self.w),
    {
        self.bit(true)
    }

    /// Clears the field bit
    pub fn clear_bit(self) -> (r: &'a mut W)
        ensures
            r@ == bitfield::with_bit_u32(old(self.w)@, 0, false),
            *final(r) == *final(self.w),
    {
        self.bit(false)
    }

    /// Writes raw bits to the field
    pub fn bit(self, value: bool) -> (r: &'a mut W)
        ensures
            r@ == bitfield::with_bit_u32(old(self.w)@, 0, value),
            *final(r) == *final(self.w),
    {
        let bits: u32 = bitfield::write_bit_u32(self.w.value(), 0, value);
        self.w.bits(bits)
    }
}

impl R {
    /// Bit 16 - Debug freeze
    pub fn dfz(&self) -> (r: DFZ_R)
        ensures
            r@ == bitfield::bit_u32(self@, 16),
    {
        DFZ_R::new(bitfield::read_bit_u32(self.bits(), 16))
    }

    /// Bit 15 - Software reset
    pub fn swrst(&self) -> (r: SWRST_R)
        ensures
            r@ == bitfield::bit_u32(self@, 15),
    {
        SWRST_R::new(bitfield::read_bit_u32(self.bits(), 15))
    }

    /// Bit 7 - Time-triggered communication
    pub fn ttc(&self) -> (r: TTC_R)
        ensures
            r@ == bitfield::bit_u32(self@, 7),
    {
        TTC_R::new(bitfield::read_bit_u32(self.bits(), 7))
    }

    /// Bit 6 - Automatic bus-off recovery
    pub fn abor(&self) -> (r: ABOR_R)
        ensures
            r@ == bitfield::bit_u32(self@, 6),
    {
        ABOR_R::new(bitfield::read_bit_u32(self.bits(), 6))
    }

    /// Bit 5 - Automatic wakeup
    pub fn awu(&self) -> (r: AWU_R)
        ensures
            r@ == bitfield::bit_u32(self@, 5),
    {
        AWU_R::new(bitfield::read_bit_u32(self.bits(), 5))
    }

    /// Bit 4 - Automatic retransmission disable
    pub fn ard(&self) -> (r: ARD_R)
        ensures
            r@ == bitfield::bit_u32(self@, 4),
    {
        ARD_R::new(bitfield::read_bit_u32(self.bits(), 4))
    }

    /// Bit 3 - Receive FIFO overwrite disable
    pub fn rfod(&self) -> (r: RFOD_R)
        ensures
            r@ == bitfield::bit_u32(self@, 3),
    {
        RFOD_R::new(bitfield::read_bit_u32(self.bits(), 3))
    }

    /// Bit 2 - Transmit FIFO order
    pub fn tfo(&self) -> (r: TFO_R)
        ensures
            r@ == bitfield::bit_u32(self@, 2),
    {
        TFO_R::new(bitfield::read_bit_u32(self.bits(), 2))
    }

    /// Bit 1 - Sleep working mode
    pub fn slpwmod(&self) -> (r: SLPWMOD_R)
        ensures
            r@ == bitfield::bit_u32(self@, 1),
    {
        SLPWMOD_R::new(bitfield::read_bit_u32(self.bits(), 1))
    }

    /// Bit 0 - Initial working mode
    pub fn iwmod(&self) -> (r: IWMOD_R)
        ensures
            r@ == bitfield::bit_u32(self@, 0),
    {
        IWMOD_R::new(bitfield::read_bit_u32(self.bits(), 0))
    }
}

impl W {
    /// Bit 16 - Debug freeze
    pub fn dfz(&mut self) -> (r: DFZ_W<'_>)
        ensures
            *r.w == *old(self),
            *final(r.w) == *final(self),
    {
        DFZ_W { w: self }
    }

    /// Bit 15 - Software reset
    pub fn swrst(&mut self) -> (r: SWRST_W<'_>)
        ensures
            *r.w == *old(self),
            *final(r.w) == *final(self),
    {
        SWRST_W { w: self }
    }

    /// Bit 7 - Time-triggered communication
    pub fn ttc(&mut self) -> (r: TTC_W<'_>)
        ensures
            *r.w == *old(self),
            *final(r.w) == *final(self),
    {
        TTC_W { w: self }
    }

    /// Bit 6 - Automatic bus-off recovery
    pub fn abor(&mut self) -> (r: ABOR_W<'_>)
        ensures
            *r.w == *old(self),
            *final(r.w) == *final(self),
    {
        ABOR_W { w: self }
    }

    /// Bit 5 - Automatic wakeup
    pub fn awu(&mut self) -> (r: AWU_W<'_>)
        ensures
            *r.w == *old(self),
            *final(r.w) == *final(self),
    {
        AWU_W { w: self }
    }

    /// Bit 4 - Automatic retransmission disable
    pub fn ard(&mut self) -> (r: ARD_W<'_>)
        ensures
            *r.w == *old(self),
            *final(r.w) == *final(self),
    {
        ARD_W { w: self }
    }

    /// Bit 3 - Receive FIFO overwrite disable
    pub fn rfod(&mut self) -> (r: RFOD_W<'_>)
        ensures
            *r.w == *old(self),
            *final(r.w) == *final(self),
    {
        RFOD_W { w: self }
    }

    /// Bit 2 - Transmit FIFO order
    pub fn tfo(&mut self) -> (r: TFO_W<'_>)
        ensures
            *r.w == *old(self),
            *final(r.w) == *final(self),
    {
        TFO_W { w: self }
    }

    /// Bit 1 - Sleep working mode
    pub fn slpwmod(&mut self) -> (r: SLPWMOD_W<'_>)
        ensures
            *r.w == *old(self),
            *final(r.w) == *final(self),
    {
        SLPWMOD_W { w: self }
    }

    /// Bit 0 - Initial working mode
    pub fn iwmod(&mut self) -> (r: IWMOD_W<'_>)
        ensures
            *r.w == *old(self),
            *final(r.w) == *final(self),
    {
        IWMOD_W { w: self }
    }
}

} // verus!

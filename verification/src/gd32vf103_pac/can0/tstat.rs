use vstd::prelude::*;
use crate::bitfield;

verus! {

/// Reader of register TSTAT
pub type R = crate::gd32vf103_pac::generic::R<u32, super::TSTAT>;

/// Writer for register TSTAT
pub type W = crate::gd32vf103_pac::generic::W<u32, super::TSTAT>;

/// Register TSTAT `reset()`'s with value 0x1c00_0000
impl crate::gd32vf103_pac::generic::ResetValue for super::TSTAT {
    type Type = u32;

    open spec fn reset_spec() -> u32 {
        0x1c00_0000
    }

    fn reset_value() -> (r: u32) {
        0x1c00_0000
    }
}

/// Reader of field `TMLS2`
pub type TMLS2_R = crate::gd32vf103_pac::generic::R<bool, bool>;

/// Reader of field `TMLS1`
pub type TMLS1_R = crate::gd32vf103_pac::generic::R<bool, bool>;

/// Reader of field `TMLS0`
pub type TMLS0_R = crate::gd32vf103_pac::generic::R<bool, bool>;

/// Reader of field `TME2`
pub type TME2_R = crate::gd32vf103_pac::generic::R<bool, bool>;

/// Reader of field `TME1`
pub type TME1_R = crate::gd32vf103_pac::generic::R<bool, bool>;

/// Reader of field `TME0`
pub type TME0_R = crate::gd32vf103_pac::generic::R<bool, bool>;

/// Reader of field `NUM`
pub type NUM_R = crate::gd32vf103_pac::generic::R<u8, u8>;

/// Reader of field `MST2`
pub type MST2_R = crate::gd32vf103_pac::generic::R<bool, bool>;

/// Write proxy for field `MST2`
pub struct MST2_W<'a> {
    pub w: &'a mut W,
}

impl<'a> MST2_W<'a> {
    /// Sets the field bit
    pub fn set_bit(self) -> (r: &'a mut W)
        ensures
            r@ == bitfield::with_bit_u32(old(self.w)@, 23, true),
            *final(r) == *final(self.w),
    {
        self.bit(true)
    }

    /// Clears the field bit
    pub fn clear_bit(self) -> (r: &'a mut W)
        ensures
            r@ == bitfield::with_bit_u32(old(self.w)@, 23, false),
            *final(r) == *final(self.w),
    {
        self.bit(false)
    }

    /// Writes raw bits to the field
    pub fn bit(self, value: bool) -> (r: &'a mut W)
        ensures
            r@ == bitfield::with_bit_u32(old(self.w)@, 23, value),
            *final(r) == *final(self.w),
    {
        let bits: u32 = bitfield::write_bit_u32(self.w.value(), 23, value);
        self.w.bits(bits)
    }
}

/// Reader of field `MTE2`
pub type MTE2_R = crate::gd32vf103_pac::generic::R<bool, bool>;

/// Write proxy for field `MTE2`
pub struct MTE2_W<'a> {
    pub w: &'a mut W,
}

impl<'a> MTE2_W<'a> {
    /// Sets the field bit
    pub fn set_bit(self) -> (r: &'a mut W)
        ensures
            r@ == bitfield::with_bit_u32(old(self.w)@, 19, true),
            *final(r) == *final(self.w),
    {
        self.bit(true)
    }

    /// Clears the field bit
    pub fn clear_bit(self) -> (r: &'a mut W)
        ensures
            r@ == bitfield::with_bit_u32(old(self.w)@, 19, false),
            *final(r) == *final(self.w),
    {
        self.bit(false)
    }

    /// Writes raw bits to the field
    pub fn bit(self, value: bool) -> (r: &'a mut W)
        ensures
            r@ == bitfield::with_bit_u32(old(self.w)@, 19, value),
            *final(r) == *final(self.w),
    {
        let bits: u32 = bitfield::write_bit_u32(self.w.value(), 19, value);
        self.w.bits(bits)
    }
}

/// Reader of field `MAL2`
pub type MAL2_R = crate::gd32vf103_pac::generic::R<bool, bool>;

/// Write proxy for field `MAL2`
pub struct MAL2_W<'a> {
    pub w: &'a mut W,
}

impl<'a> MAL2_W<'a> {
    /// Sets the field bit
    pub fn set_bit(self) -> (r: &'a mut W)
        ensures
            r@ == bitfield::with_bit_u32(old(self.w)@, 18, true),
            *final(r) == *final(self.w),
    {
        self.bit(true)
    }

    /// Clears the field bit
    pub fn clear_bit(self) -> (r: &'a mut W)
        ensures
            r@ == bitfield::with_bit_u32(old(self.w)@, 18, false),
            *final(r) == *final(self.w),
    {
        self.bit(false)
    }

    /// Writes raw bits to the field
    pub fn bit(self, value: bool) -> (r: &'a mut W)
        ensures
            r@ == bitfield::with_bit_u32(old(self.w)@, 18, value),
            *final(r) == *final(self.w),
    {
        let bits: u32 = bitfield::write_bit_u32(self.w.value(), 18, value);
        self.w.bits(bits)
    }
}

/// Reader of field `MTFNERR2`
pub type MTFNERR2_R = crate::gd32vf103_pac::generic::R<bool, bool>;

/// Write proxy for field `MTFNERR2`
pub struct MTFNERR2_W<'a> {
    pub w: &'a mut W,
}

impl<'a> MTFNERR2_W<'a> {
    /// Sets the field bit
    pub fn set_bit(self) -> (r: &'a mut W)
        ensures
            r@ == bitfield::with_bit_u32(old(self.w)@, 17, true),
            *final(r) == *final(self.w),
    {
        self.bit(true)
    }

    /// Clears the field bit
    pub fn clear_bit(self) -> (r: &'a mut W)
        ensures
            r@ == bitfield::with_bit_u32(old(self.w)@, 17, false),
            *final(r) == *final(self.w),
    {
        self.bit(false)
    }

    /// Writes raw bits to the field
    pub fn bit(self, value: bool) -> (r: &'a mut W)
        ensures
            r@ == bitfield::with_bit_u32(old(self.w)@, 17, value),
            *final(r) == *final(self.w),
    {
        let bits: u32 = bitfield::write_bit_u32(self.w.value(), 17, value);
        self.w.bits(bits)
    }
}

/// Reader of field `MTF2`
pub type MTF2_R = crate::gd32vf103_pac::generic::R<bool, bool>;

/// Write proxy for field `MTF2`
pub struct MTF2_W<'a> {
    pub w: &'a mut W,
}

impl<'a> MTF2_W<'a> {
    /// Sets the field bit
    pub fn set_bit(self) -> (r: &'a mut W)
        ensures
            r@ == bitfield::with_bit_u32(old(self.w)@, 16, true),
            *final(r) == *final(self.w),
    {
        self.bit(true)
    }

    /// Clears the field bit
    pub fn clear_bit(self) -> (r: &'a mut W)
        ensures
            r@ == bitfield::with_bit_u32(old(self.w)@, 16, false),
            *final(r) == *final(self.w),
    {
        self.bit(false)
    }

    /// Writes raw bits to the field
    pub fn bit(self, value: bool) -> (r: &'a mut W)
        ensures
            r@ == bitfield::with_bit_u32(old(self.w)@, 16, value),
            *final(r) == *final(self.w),
    {
        let bits: u32 = bitfield::write_bit_u32(self.w.value(), 16, value);
        self.w.bits(bits)
    }
}

/// Reader of field `MST1`
pub type MST1_R = crate::gd32vf103_pac::generic::R<bool, bool>;

/// Write proxy for field `MST1`
pub struct MST1_W<'a> {
    pub w: &'a mut W,
}

impl<'a> MST1_W<'a> {
    /// Sets the field bit
    pub fn set_bit(self) -> (r: &'a mut W)
        ensures
            r@ == bitfield::with_bit_u32(old(self.w)@, 15, true),
            *final(r) == *final(self.w),
    {
        self.bit(true)
    }

    /// Clears the field bit
    pub fn clear_bit(self) -> (r: &'a mut W)
        ensures
            r@ == bitfield::with_bit_u32(old(self.w)@, 15, false),
            *final(r) == *final(self.w),
    {
        self.bit(false)
    }

    /// Writes raw bits to the field
    pub fn bit(self, value: bool) -> (r: &'a mut W)
        ensures
            r@ == bitfield::with_bit_u32(old(self.w)@, 15, value),
            *final(r) == *final(self.w),
    {
        let bits: u32 = bitfield::write_bit_u32(self.w.value(), 15, value);
        self.w.bits(bits)
    }
}

/// Reader of field `MTE1`
pub type MTE1_R = crate::gd32vf103_pac::generic::R<bool, bool>;

/// Write proxy for field `MTE1`
pub struct MTE1_W<'a> {
    pub w: &'a mut W,
}

impl<'a> MTE1_W<'a> {
    /// Sets the field bit
    pub fn set_bit(self) -> (r: &'a mut W)
        ensures
            r@ == bitfield::with_bit_u32(old(self.w)@, 11, true),
            *final(r) == *final(self.w),
    {
        self.bit(true)
    }

    /// Clears the field bit
    pub fn clear_bit(self) -> (r: &'a mut W)
        ensures
            r@ == bitfield::with_bit_u32(old(self.w)@, 11, false),
            *final(r) == *final(self.w),
    {
        self.bit(false)
    }

    /// Writes raw bits to the field
    pub fn bit(self, value: bool) -> (r: &'a mut W)
        ensures
            r@ == bitfield::with_bit_u32(old(self.w)@, 11, value),
            *final(r) == *final(self.w),
    {
        let bits: u32 = bitfield::write_bit_u32(self.w.value(), 11, value);
        self.w.bits(bits)
    }
}

/// Reader of field `MAL1`
pub type MAL1_R = crate::gd32vf103_pac::generic::R<bool, bool>;

/// Write proxy for field `MAL1`
pub struct MAL1_W<'a> {
    pub w: &'a mut W,
}

impl<'a> MAL1_W<'a> {
    /// Sets the field bit
    pub fn set_bit(self) -> (r: &'a mut W)
        ensures
            r@ == bitfield::with_bit_u32(old(self.w)@, 10, true),
            *final(r) == *final(self.w),
    {
        self.bit(true)
    }

    /// Clears the field bit
    pub fn clear_bit(self) -> (r: &'a mut W)
        ensures
            r@ == bitfield::with_bit_u32(old(self.w)@, 10, false),
            *final(r) == *final(self.w),
    {
        self.bit(false)
    }

    /// Writes raw bits to the field
    pub fn bit(self, value: bool) -> (r: &'a mut W)
        ensures
            r@ == bitfield::with_bit_u32(old(self.w)@, 10, value),
            *final(r) == *final(self.w),
    {
        let bits: u32 = bitfield::write_bit_u32(self.w.value(), 10, value);
        self.w.bits(bits)
    }
}

/// Reader of field `MTFNERR1`
pub type MTFNERR1_R = crate::gd32vf103_pac::generic::R<bool, bool>;

/// Write proxy for field `MTFNERR1`
pub struct MTFNERR1_W<'a> {
    pub w: &'a mut W,
}

impl<'a> MTFNERR1_W<'a> {
    /// Sets the field bit
    pub fn set_bit(self) -> (r: &'a mut W)
        ensures
            r@ == bitfield::with_bit_u32(old(self.w)@, 9, true),
            *final(r) == *final(self.w),
    {
        self.bit(true)
    }

    /// Clears the field bit
    pub fn clear_bit(self) -> (r: &'a mut W)
        ensures
            r@ == bitfield::with_bit_u32(old(self.w)@, 9, false),
            *final(r) == *final(self.w),
    {
        self.bit(false)
    }

    /// Writes raw bits to the field
    pub fn bit(self, value: bool) -> (r: &'a mut W)
        ensures
            r@ == bitfield::with_bit_u32(old(self.w)@, 9, value),
            *final(r) == *final(self.w),
    {
        let bits: u32 = bitfield::write_bit_u32(self.w.value(), 9, value);
        self.w.bits(bits)
    }
}

/// Reader of field `MTF1`
pub type MTF1_R = crate::gd32vf103_pac::generic::R<bool, bool>;

/// Write proxy for field `MTF1`
pub struct MTF1_W<'a> {
    pub w: &'a mut W,
}

impl<'a> MTF1_W<'a> {
    /// Sets the field bit
    pub fn set_bit(self) -> (r: &'a mut W)
        ensures
            r@ == bitfield::with_bit_u32(old(self.w)@, 8, true),
            *final(r) == *final(self.w),
    {
        self.bit(true)
    }

    /// Clears the field bit
    pub fn clear_bit(self) -> (r: &'a mut W)
        ensures
            r@ == bitfield::with_bit_u32(old(self.w)@, 8, false),
            *final(r) == *final(self.w),
    {
        self.bit(false)
    }

    /// Writes raw bits to the field
    pub fn bit(self, value: bool) -> (r: &'a mut W)
        ensures
            r@ == bitfield::with_bit_u32(old(self.w)@, 8, value),
            *final(r) == *final(self.w),
    {
        let bits: u32 = bitfield::write_bit_u32(self.w.value(), 8, value);
        self.w.bits(bits)
    }
}

/// Reader of field `MST0`
pub type MST0_R = crate::gd32vf103_pac::generic::R<bool, bool>;

/// Write proxy for field `MST0`
pub struct MST0_W<'a> {
    pub w: &'a mut W,
}

impl<'a> MST0_W<'a> {
    /// Sets the field bit
    pub fn set_bit(self) -> (r: &'a mut W)
        ensures
            r@ == bitfield::with_bit_u32(old(self.w)@, 7, true),
            *final(r) == *final(self.w),
    {
        self.bit(true)
    }

    /// Clears the field bit
    pub fn clear_bit(self) -> (r: &'a mut W)
        ensures
            r@ == bitfield::with_bit_u32(old(self.w)@, 7, false),
            *final(r) == *final(self.w),
    {
        self.bit(false)
    }

    /// Writes raw bits to the field
    pub fn bit(self, value: bool) -> (r: &'a mut W)
        ensures
            r@ == bitfield::with_bit_u32(old(self.w)@, 7, value),
            *final(r) == *final(self.w),
    {
        let bits: u32 = bitfield::write_bit_u32(self.w.value(), 7, value);
        self.w.bits(bits)
    }
}

/// Reader of field `MTE0`
pub type MTE0_R = crate::gd32vf103_pac::generic::R<bool, bool>;

/// Write proxy for field `MTE0`
pub struct MTE0_W<'a> {
    pub w: &'a mut W,
}

impl<'a> MTE0_W<'a> {
    /// Sets the field bit
    pub fn set_bit(self) -> (r: &'a mut W)
        ensures
            r@ == bitfield::with_bit_u32(old(self.w)@, 3, true),
            *final(r) == *final(self.w),
    {
        self.bit(true)
    }

    /// Clears the field bit
    pub fn clear_bit(self) -> (r: &'a mut W)
        ensures
            r@ == bitfield::with_bit_u32(old(self.w)@, 3, false),
            *final(r) == *final(self.w),
    {
        self.bit(false)
    }

    /// Writes raw bits to the field
    pub fn bit(self, value: bool) -> (r: &'a mut W)
        ensures
            r@ == bitfield::with_bit_u32(old(self.w)@, 3, value),
            *final(r) == *final(self.w),
    {
        let bits: u32 = bitfield::write_bit_u32(self.w.value(), 3, value);
        self.w.bits(bits)
    }
}

/// Reader of field `MAL0`
pub type MAL0_R = crate::gd32vf103_pac::generic::R<bool, bool>;

/// Write proxy for field `MAL0`
pub struct MAL0_W<'a> {
    pub w: &'a mut W,
}

impl<'a> MAL0_W<'a> {
    /// Sets the field bit
    pub fn set_bit(self) -> (r: &'a mut W)
        ensures
            r@ == bitfield::with_bit_u32(old(self.w)@, 2, true),
            *final(r) == *final(self.w),
    {
        self.bit(true)
    }

    /// Clears the field bit
    pub fn clear_bit(self) -> (r: &'a mut W)
        ensures
            r@ == bitfield::with_bit_u32(old(self.w)@, 2, false),
            *final(r) == *final(self.w),
    {
        self.bit(false)
    }

    /// Writes raw bits to the field
    pub fn bit(self, value: bool) -> (r: &'a mut W)
        ensures
            r@ == bitfield::with_bit_u32(old(self.w)@, 2, value),
            *final(r) == *final(self.w),
    {
        let bits: u32 = bitfield::write_bit_u32(self.w.value(), 2, value);
        self.w.bits(bits)
    }
}

/// Reader of field `MTFNERR0`
pub type MTFNERR0_R = crate::gd32vf103_pac::generic::R<bool, bool>;

/// Write proxy for field `MTFNERR0`
pub struct MTFNERR0_W<'a> {
    pub w: &'a mut W,
}

impl<'a> MTFNERR0_W<'a> {
    /// Sets the field bit
    pub fn set_bit(self) -> (r: &'a mut W)
        ensures
            r@ == bitfield::with_bit_u32(old(self.w)@, 1, true),
            *final(r) == *final(self.w),
    {
        self.bit(true)
    }

    /// Clears the field bit
    pub fn clear_bit(self) -> (r: &'a mut W)
        ensures
            r@ == bitfield::with_bit_u32(old(self.w)@, 1, false),
            *final(r) == *final(self.w),
    {
        self.bit(false)
    }

    /// Writes raw bits to the field
    pub fn bit(self, value: bool) -> (r: &'a mut W)
        ensures
            r@ == bitfield::with_bit_u32(old(self.w)@, 1, value),
            *final(r) == *final(self.w),
    {
        let bits: u32 = bitfield::write_bit_u32(self.w.value(), 1, value);
        self.w.bits(bits)
    }
}

/// Reader of field `MTF0`
pub type MTF0_R = crate::gd32vf103_pac::generic::R<bool, bool>;

/// Write proxy for field `MTF0`
pub struct MTF0_W<'a> {
    pub w: &'a mut W,
}

impl<'a> MTF0_W<'a> {
    /// Sets the field bit
    pub fn set_bit(self) -> (r: &'a mut W)
        ensures
            r@ == bitfield::with_bit_u32(old(self.w)@, 0, true),
            *final(r) == *final(self.w),
    {
        self.bit(true)
    }

    /// Clears the field bit
    pub fn clear_bit(self) -> (r: &'a mut W)
        ensures
            r@ == bitfield::with_bit_u32(old(self.w)@, 0, false),
            *final(r) == *final(self.w),
    {
        self.bit(false)
    }

    /// Writes raw bits to the field
    pub fn bit(self, value: bool) -> (r: &'a mut W)
        ensures
            r@ == bitfield::with_bit_u32(old(self.w)@, 0, value),
            *final(r) == *final(self.w),
    {
        let bits: u32 = bitfield::write_bit_u32(self.w.value(), 0, value);
        self.w.bits(bits)
    }
}

impl R {
    /// Bit 31 - Transmit mailbox 2 last sending in transmit FIFO
    pub fn tmls2(&self) -> (r: TMLS2_R)
        ensures
            r@ == bitfield::bit_u32(self@, 31),
    {
        TMLS2_R::new(bitfield::read_bit_u32(self.bits(), 31))
    }

    /// Bit 30 - Transmit mailbox 1 last sending in transmit FIFO
    pub fn tmls1(&self) -> (r: TMLS1_R)
        ensures
            r@ == bitfield::bit_u32(self@, 30),
    {
        TMLS1_R::new(bitfield::read_bit_u32(self.bits(), 30))
    }

    /// Bit 29 - Transmit mailbox 0 last sending in transmit FIFO
    pub fn tmls0(&self) -> (r: TMLS0_R)
        ensures
            r@ == bitfield::bit_u32(self@, 29),
    {
        TMLS0_R::new(bitfield::read_bit_u32(self.bits(), 29))
    }

    /// Bit 28 - Transmit mailbox 2 empty
    pub fn tme2(&self) -> (r: TME2_R)
        ensures
            r@ == bitfield::bit_u32(self@, 28),
    {
        TME2_R::new(bitfield::read_bit_u32(self.bits(), 28))
    }

    /// Bit 27 - Transmit mailbox 1 empty
    pub fn tme1(&self) -> (r: TME1_R)
        ensures
            r@ == bitfield::bit_u32(self@, 27),
    {
        TME1_R::new(bitfield::read_bit_u32(self.bits(), 27))
    }

    /// Bit 26 - Transmit mailbox 0 empty
    pub fn tme0(&self) -> (r: TME0_R)
        ensures
            r@ == bitfield::bit_u32(self@, 26),
    {
        TME0_R::new(bitfield::read_bit_u32(self.bits(), 26))
    }

    /// Bits 24:25 - number of the transmit FIFO mailbox in which the frame will be transmitted if at least one mailbox is empty
    pub fn num(&self) -> (r: NUM_R)
        ensures
            r@ == bitfield::field_u32(self@, 24, 2) as u8,
    {
        NUM_R::new(bitfield::read_field_u32(self.bits(), 24, 2) as u8)
    }

    /// Bit 23 - Mailbox 2 stop transmitting
    pub fn mst2(&self) -> (r: MST2_R)
        ensures
            r@ == bitfield::bit_u32(self@, 23),
    {
        MST2_R::new(bitfield::read_bit_u32(self.bits(), 23))
    }

    /// Bit 19 - Mailbox 2 transmit error
    pub fn mte2(&self) -> (r: MTE2_R)
        ensures
            r@ == bitfield::bit_u32(self@, 19),
    {
        MTE2_R::new(bitfield::read_bit_u32(self.bits(), 19))
    }

    /// Bit 18 - Mailbox 2 arbitration lost
    pub fn mal2(&self) -> (r: MAL2_R)
        ensures
            r@ == bitfield::bit_u32(self@, 18),
    {
        MAL2_R::new(bitfield::read_bit_u32(self.bits(), 18))
    }

    /// Bit 17 - Mailbox 2 transmit finished and no error
    pub fn mtfnerr2(&self) -> (r: MTFNERR2_R)
        ensures
            r@ == bitfield::bit_u32(self@, 17),
    {
        MTFNERR2_R::new(bitfield::read_bit_u32(self.bits(), 17))
    }

    /// Bit 16 - Mailbox 2 transmit finished
    pub fn mtf2(&self) -> (r: MTF2_R)
        ensures
            r@ == bitfield::bit_u32(self@, 16),
    {
        MTF2_R::new(bitfield::read_bit_u32(self.bits(), 16))
    }

    /// Bit 15 - Mailbox 1 stop transmitting
    pub fn mst1(&self) -> (r: MST1_R)
        ensures
            r@ == bitfield::bit_u32(self@, 15),
    {
        MST1_R::new(bitfield::read_bit_u32(self.bits(), 15))
    }

    /// Bit 11 - Mailbox 1 transmit error
    pub fn mte1(&self) -> (r: MTE1_R)
        ensures
            r@ == bitfield::bit_u32(self@, 11),
    {
        MTE1_R::new(bitfield::read_bit_u32(self.bits(), 11))
    }

    /// Bit 10 - Mailbox 1 arbitration lost
    pub fn mal1(&self) -> (r: MAL1_R)
        ensures
            r@ == bitfield::bit_u32(self@, 10),
    {
        MAL1_R::new(bitfield::read_bit_u32(self.bits(), 10))
    }

    /// Bit 9 - Mailbox 1 transmit finished and no error
    pub fn mtfnerr1(&self) -> (r: MTFNERR1_R)
        ensures
            r@ == bitfield::bit_u32(self@, 9),
    {
        MTFNERR1_R::new(bitfield::read_bit_u32(self.bits(), 9))
    }

    /// Bit 8 - Mailbox 1 transmit finished
    pub fn mtf1(&self) -> (r: MTF1_R)
        ensures
            r@ == bitfield::bit_u32(self@, 8),
    {
        MTF1_R::new(bitfield::read_bit_u32(self.bits(), 8))
    }

    /// Bit 7 - Mailbox 0 stop transmitting
    pub fn mst0(&self) -> (r: MST0_R)
        ensures
            r@ == bitfield::bit_u32(self@, 7),
    {
        MST0_R::new(bitfield::read_bit_u32(self.bits(), 7))
    }

    /// Bit 3 - Mailbox 0 transmit error
    pub fn mte0(&self) -> (r: MTE0_R)
        ensures
            r@ == bitfield::bit_u32(self@, 3),
    {
        MTE0_R::new(bitfield::read_bit_u32(self.bits(), 3))
    }

    /// Bit 2 - Mailbox 0 arbitration lost
    pub fn mal0(&self) -> (r: MAL0_R)
        ensures
            r@ == bitfield::bit_u32(self@, 2),
    {
        MAL0_R::new(bitfield::read_bit_u32(self.bits(), 2))
    }

    /// Bit 1 - Mailbox 0 transmit finished and no error
    pub fn mtfnerr0(&self) -> (r: MTFNERR0_R)
        ensures
            r@ == bitfield::bit_u32(self@, 1),
    {
        MTFNERR0_R::new(bitfield::read_bit_u32(self.bits(), 1))
    }

    /// Bit 0 - Mailbox 0 transmit finished
    pub fn mtf0(&self) -> (r: MTF0_R)
        ensures
            r@ == bitfield::bit_u32(self@, 0),
    {
        MTF0_R::new(bitfield::read_bit_u32(self.bits(), 0))
    }
}

impl W {
    /// Bit 23 - Mailbox 2 stop transmitting
    pub fn mst2(&mut self) -> (r: MST2_W<'_>)
        ensures
            *r.w == *old(self),
            *final(r.w) == *final(self),
    {
        MST2_W { w: self }
    }

    /// Bit 19 - Mailbox 2 transmit error
    pub fn mte2(&mut self) -> (r: MTE2_W<'_>)
        ensures
            *r.w == *old(self),
            *final(r.w) == *final(self),
    {
        MTE2_W { w: self }
    }

    /// Bit 18 - Mailbox 2 arbitration lost
    pub fn mal2(&mut self) -> (r: MAL2_W<'_>)
        ensures
            *r.w == *old(self),
            *final(r.w) == *final(self),
    {
        MAL2_W { w: self }
    }

    /// Bit 17 - Mailbox 2 transmit finished and no error
    pub fn mtfnerr2(&mut self) -> (r: MTFNERR2_W<'_>)
        ensures
            *r.w == *old(self),
            *final(r.w) == *final(self),
    {
        MTFNERR2_W { w: self }
    }

    /// Bit 16 - Mailbox 2 transmit finished
    pub fn mtf2(&mut self) -> (r: MTF2_W<'_>)
        ensures
            *r.w == *old(self),
            *final(r.w) == *final(self),
    {
        MTF2_W { w: self }
    }

    /// Bit 15 - Mailbox 1 stop transmitting
    pub fn mst1(&mut self) -> (r: MST1_W<'_>)
        ensures
            *r.w == *old(self),
            *final(r.w) == *final(self),
    {
        MST1_W { w: self }
    }

    /// Bit 11 - Mailbox 1 transmit error
    pub fn mte1(&mut self) -> (r: MTE1_W<'_>)
        ensures
            *r.w == *old(self),
            *final(r.w) == *final(self),
    {
        MTE1_W { w: self }
    }

    /// Bit 10 - Mailbox 1 arbitration lost
    pub fn mal1(&mut self) -> (r: MAL1_W<'_>)
        ensures
            *r.w == *old(self),
            *final(r.w) == *final(self),
    {
        MAL1_W { w: self }
    }

    /// Bit 9 - Mailbox 1 transmit finished and no error
    pub fn mtfnerr1(&mut self) -> (r: MTFNERR1_W<'_>)
        ensures
            *r.w == *old(self),
            *final(r.w) == *final(self),
    {
        MTFNERR1_W { w: self }
    }

    /// Bit 8 - Mailbox 1 transmit finished
    pub fn mtf1(&mut self) -> (r: MTF1_W<'_>)
        ensures
            *r.w == *old(self),
            *final(r.w) == *final(self),
    {
        MTF1_W { w: self }
    }

    /// Bit 7 - Mailbox 0 stop transmitting
    pub fn mst0(&mut self) -> (r: MST0_W<'_>)
        ensures
            *r.w == *old(self),
            *final(r.w) == *final(self),
    {
        MST0_W { w: self }
    }

    /// Bit 3 - Mailbox 0 transmit error
    pub fn mte0(&mut self) -> (r: MTE0_W<'_>)
        ensures
            *r.w == *old(self),
            *final(r.w) == *final(self),
    {
        MTE0_W { w: self }
    }

    /// Bit 2 - Mailbox 0 arbitration lost
    pub fn mal0(&mut self) -> (r: MAL0_W<'_>)
        ensures
            *r.w == *old(self),
            *final(r.w) == *final(self),
    {
        MAL0_W { w: self }
    }

    /// Bit 1 - Mailbox 0 transmit finished and no error
    pub fn mtfnerr0(&mut self) -> (r: MTFNERR0_W<'_>)
        ensures
            *r.w == *old(self),
            *final(r.w) == *final(self),
    {
        MTFNERR0_W { w: self }
    }

    /// Bit 0 - Mailbox 0 transmit finished
    pub fn mtf0(&mut self) -> (r: MTF0_W<'_>)
        ensures
            *r.w == *old(self),
            *final(r.w) == *final(self),
    {
        MTF0_W { w: self }
    }
}

} // verus!

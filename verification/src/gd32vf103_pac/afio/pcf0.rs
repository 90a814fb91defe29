use vstd::prelude::*;
use crate::bitfield;

verus! {

/// Reader of register PCF0
pub type R = crate::gd32vf103_pac::generic::R<u32, super::PCF0>;

/// Writer for register PCF0
pub type W = crate::gd32vf103_pac::generic::W<u32, super::PCF0>;

/// Register PCF0 `reset()`'s with value 0
impl crate::gd32vf103_pac::generic::ResetValue for super::PCF0 {
    type Type = u32;

    open spec fn reset_spec() -> u32 {
        0
    }

    fn reset_value() -> (r: u32) {
        0
    }
}

/// Reader of field `TIMER1ITI1_REMAP`
pub type TIMER1ITI1_REMAP_R = crate::gd32vf103_pac::generic::R<bool, bool>;

/// Write proxy for field `TIMER1ITI1_REMAP`
pub struct TIMER1ITI1_REMAP_W<'a> {
    pub w: &'a mut W,
}

impl<'a> TIMER1ITI1_REMAP_W<'a> {
    /// Sets the field bit
    pub fn set_bit(self) -> (r: &'a mut W)
        ensures
            r@ == bitfield::with_bit_u32(old(self.w)@, 29, true),
            *final(r) == *final(self.w),
    {
        self.bit(true)
    }

    /// Clears the field bit
    pub fn clear_bit(self) -> (r: &'a mut W)
        ensures
            r@ == bitfield::with_bit_u32(old(self.w)@, 29, false),
            *final(r) == *final(self.w),
    {
        self.bit(false)
    }

    /// Writes raw bits to the field
    pub fn bit(self, value: bool) -> (r: &'a mut W)
        ensures
            r@ == bitfield::with_bit_u32(old(self.w)@, 29, value),
            *final(r) == *final(self.w),
    {
        let bits: u32 = bitfield::write_bit_u32(self.w.value(), 29, value);
        self.w.bits(bits)
    }
}

/// Reader of field `SPI2_REMAP`
pub type SPI2_REMAP_R = crate::gd32vf103_pac::generic::R<bool, bool>;

/// Write proxy for field `SPI2_REMAP`
pub struct SPI2_REMAP_W<'a> {
    pub w: &'a mut W,
}

impl<'a> SPI2_REMAP_W<'a> {
    /// Sets the field bit
    pub fn set_bit(self) -> (r: &'a mut W)
        ensures
            r@ == bitfield::with_bit_u32(old(self.w)@, 28, true),
            *final(r) == *final(self.w),
    {
        self.bit(true)
    }

    /// Clears the field bit
    pub fn clear_bit(self) -> (r: &'a mut W)
        ensures
            r@ == bitfield::with_bit_u32(old(self.w)@, 28, false),
            *final(r) == *final(self.w),
    {
        self.bit(false)
    }

    /// Writes raw bits to the field
    pub fn bit(self, value: bool) -> (r: &'a mut W)
        ensures
            r@ == bitfield::with_bit_u32(old(self.w)@, 28, value),
            *final(r) == *final(self.w),
    {
        let bits: u32 = bitfield::write_bit_u32(self.w.value(), 28, value);
        self.w.bits(bits)
    }
}

/// Reader of field `SWJ_CFG`
pub type SWJ_CFG_R = crate::gd32vf103_pac::generic::R<u8, u8>;

/// Write proxy for field `SWJ_CFG`
pub struct SWJ_CFG_W<'a> {
    pub w: &'a mut W,
}

impl<'a> SWJ_CFG_W<'a> {
    /// Writes raw bits to the field
    pub fn bits(self, value: u8) -> (r: &'a mut W)
        ensures
            r@ == bitfield::with_field_u32(old(self.w)@, 24, 3, value as u32),
            *final(r) == *final(self.w),
    {
        let bits: u32 = bitfield::write_field_u32(self.w.value(), 24, 3, value as u32);
        self.w.bits(bits)
    }
}

/// Reader of field `CAN1_REMAP`
pub type CAN1_REMAP_R = crate::gd32vf103_pac::generic::R<bool, bool>;

/// Write proxy for field `CAN1_REMAP`
pub struct CAN1_REMAP_W<'a> {
    pub w: &'a mut W,
}

impl<'a> CAN1_REMAP_W<'a> {
    /// Sets the field bit
    pub fn set_bit(self) -> (r: &'a mut W)
        ensures
            r@ == bitfield::with_bit_u32(old(self.w)@, 22, true),
            *final(r) == *final(self.w),
    {
        self.bit(true)
    }

    /// Clears the field bit
    pub fn clear_bit(self) -> (r: &'a mut W)
        ensures
            r@ == bitfield::with_bit_u32(old(self.w)@, 22, false),
            *final(r) == *final(self.w),
    {
        self.bit(false)
    }

    /// Writes raw bits to the field
    pub fn bit(self, value: bool) -> (r: &'a mut W)
        ensures
            r@ == bitfield::with_bit_u32(old(self.w)@, 22, value),
            *final(r) == *final(self.w),
    {
        let bits: u32 = bitfield::write_bit_u32(self.w.value(), 22, value);
        self.w.bits(bits)
    }
}

/// Reader of field `TIMER4CH3_IREMAP`
pub type TIMER4CH3_IREMAP_R = crate::gd32vf103_pac::generic::R<bool, bool>;

/// Write proxy for field `TIMER4CH3_IREMAP`
pub struct TIMER4CH3_IREMAP_W<'a> {
    pub w: &'a mut W,
}

impl<'a> TIMER4CH3_IREMAP_W<'a> {
    /// Sets the field bit
    pub fn set_bit(self) -> (r: &'a mut W)
        ensures
            r@ == bitfield::with_bit_u32(old(self.w)@, 16, true),
            *final(r) == *final(self.w),
    {
        self.bit(true)
    }

    /// Clears the field bit
    pub fn clear_bit(self) -> (r: &'a mut W)
        ensures
            r@ == bitfield::with_bit_u32(old(self.w)@, 16, false),
            *final(r) == *final(self.w),
    {
        self.bit(false)
    }

    /// Writes raw bits to the field
    pub fn bit(self, value: bool) -> (r: &'a mut W)
        ensures
            r@ == bitfield::with_bit_u32(old(self.w)@, 16, value),
            *final(r) == *final(self.w),
    {
        let bits: u32 = bitfield::write_bit_u32(self.w.value(), 16, value);
        self.w.bits(bits)
    }
}

/// Reader of field `PD01_REMAP`
pub type PD01_REMAP_R = crate::gd32vf103_pac::generic::R<bool, bool>;

/// Write proxy for field `PD01_REMAP`
pub struct PD01_REMAP_W<'a> {
    pub w: &'a mut W,
}

impl<'a> PD01_REMAP_W<'a> {
    /// Sets the field bit
    pub fn set_bit(self) -> (r: &'a mut W)
        ensures
            r@ == bitfield::with_bit_u32(old(self.w)@, 15, true),
            *final(r) == *final(self.w),
    {
        self.bit(true)
    }

    /// Clears the field bit
    pub fn clear_bit(self) -> (r: &'a mut W)
        ensures
            r@ == bitfield::with_bit_u32(old(self.w)@, 15, false),
            *final(r) == *final(self.w),
    {
        self.bit(false)
    }

    /// Writes raw bits to the field
    pub fn bit(self, value: bool) -> (r: &'a mut W)
        ensures
            r@ == bitfield::with_bit_u32(old(self.w)@, 15, value),
            *final(r) == *final(self.w),
    {
        let bits: u32 = bitfield::write_bit_u32(self.w.value(), 15, value);
        self.w.bits(bits)
    }
}

/// Reader of field `CAN0_REMAP`
pub type CAN0_REMAP_R = crate::gd32vf103_pac::generic::R<u8, u8>;

/// Write proxy for field `CAN0_REMAP`
pub struct CAN0_REMAP_W<'a> {
    pub w: &'a mut W,
}

impl<'a> CAN0_REMAP_W<'a> {
    /// Writes raw bits to the field
    pub fn bits(self, value: u8) -> (r: &'a mut W)
        ensures
            r@ == bitfield::with_field_u32(old(self.w)@, 13, 2, value as u32),
            *final(r) == *final(self.w),
    {
        let bits: u32 = bitfield::write_field_u32(self.w.value(), 13, 2, value as u32);
        self.w.bits(bits)
    }
}

/// Reader of field `TIMER3_REMAP`
pub type TIMER3_REMAP_R = crate::gd32vf103_pac::generic::R<bool, bool>;

/// Write proxy for field `TIMER3_REMAP`
pub struct TIMER3_REMAP_W<'a> {
    pub w: &'a mut W,
}

impl<'a> TIMER3_REMAP_W<'a> {
    /// Sets the field bit
    pub fn set_bit(self) -> (r: &'a mut W)
        ensures
            r@ == bitfield::with_bit_u32(old(self.w)@, 12, true),
            *final(r) == *final(self.w),
    {
        self.bit(true)
    }

    /// Clears the field bit
    pub fn clear_bit(self) -> (r: &'a mut W)
        ensures
            r@ == bitfield::with_bit_u32(old(self.w)@, 12, false),
            *final(r) == *final(self.w),
    {
        self.bit(false)
    }

    /// Writes raw bits to the field
    pub fn bit(self, value: bool) -> (r: &'a mut W)
        ensures
            r@ == bitfield::with_bit_u32(old(self.w)@, 12, value),
            *final(r) == *final(self.w),
    {
        let bits: u32 = bitfield::write_bit_u32(self.w.value(), 12, value);
        self.w.bits(bits)
    }
}

/// Reader of field `TIMER2_REMAP`
pub type TIMER2_REMAP_R = crate::gd32vf103_pac::generic::R<u8, u8>;

/// Write proxy for field `TIMER2_REMAP`
pub struct TIMER2_REMAP_W<'a> {
    pub w: &'a mut W,
}

impl<'a> TIMER2_REMAP_W<'a> {
    /// Writes raw bits to the field
    pub fn bits(self, value: u8) -> (r: &'a mut W)
        ensures
            r@ == bitfield::with_field_u32(old(self.w)@, 10, 2, value as u32),
            *final(r) == *final(self.w),
    {
        let bits: u32 = bitfield::write_field_u32(self.w.value(), 10, 2, value as u32);
        self.w.bits(bits)
    }
}

/// Reader of field `TIMER1_REMAP`
pub type TIMER1_REMAP_R = crate::gd32vf103_pac::generic::R<u8, u8>;

/// Write proxy for field `TIMER1_REMAP`
pub struct TIMER1_REMAP_W<'a> {
    pub w: &'a mut W,
}

impl<'a> TIMER1_REMAP_W<'a> {
    /// Writes raw bits to the field
    pub fn bits(self, value: u8) -> (r: &'a mut W)
        ensures
            r@ == bitfield::with_field_u32(old(self.w)@, 8, 2, value as u32),
            *final(r) == *final(self.w),
    {
        let bits: u32 = bitfield::write_field_u32(self.w.value(), 8, 2, value as u32);
        self.w.bits(bits)
    }
}

/// Reader of field `TIMER0_REMAP`
pub type TIMER0_REMAP_R = crate::gd32vf103_pac::generic::R<u8, u8>;

/// Write proxy for field `TIMER0_REMAP`
pub struct TIMER0_REMAP_W<'a> {
    pub w: &'a mut W,
}

impl<'a> TIMER0_REMAP_W<'a> {
    /// Writes raw bits to the field
    pub fn bits(self, value: u8) -> (r: &'a mut W)
        ensures
            r@ == bitfield::with_field_u32(old(self.w)@, 6, 2, value as u32),
            *final(r) == *final(self.w),
    {
        let bits: u32 = bitfield::write_field_u32(self.w.value(), 6, 2, value as u32);
        self.w.bits(bits)
    }
}

/// Reader of field `USART2_REMAP`
pub type USART2_REMAP_R = crate::gd32vf103_pac::generic::R<u8, u8>;

/// Write proxy for field `USART2_REMAP`
pub struct USART2_REMAP_W<'a> {
    pub w: &'a mut W,
}

impl<'a> USART2_REMAP_W<'a> {
    /// Writes raw bits to the field
    pub fn bits(self, value: u8) -> (r: &'a mut W)
        ensures
            r@ == bitfield::with_field_u32(old(self.w)@, 4, 2, value as u32),
            *final(r) == *final(self.w),
    {
        let bits: u32 = bitfield::write_field_u32(self.w.value(), 4, 2, value as u32);
        self.w.bits(bits)
    }
}

/// Reader of field `USART1_REMAP`
pub type USART1_REMAP_R = crate::gd32vf103_pac::generic::R<bool, bool>;

/// Write proxy for field `USART1_REMAP`
pub struct USART1_REMAP_W<'a> {
    pub w: &'a mut W,
}

impl<'a> USART1_REMAP_W<'a> {
    /// Sets the field bit
    pub fn set_bit(self) -> (r: &'a mut W)
        ensures
            r@ == bitfield::with_bit_u32(old(self.w)@, 3, true),
            *final(r) == *final(self.w),
    {
        self.bit(true)
    }

    /// Clears the field bit
    pub fn clear_bit(self) -> (r: &'a mut W)
        ensures
            r@ == bitfield::with_bit_u32(old(self.w)@, 3, false),
            *final(r) == *final(self.w),
    {
        self.bit(false)
    }

    /// Writes raw bits to the field
    pub fn bit(self, value: bool) -> (r: &'a mut W)
        ensures
            r@ == bitfield::with_bit_u32(old(self.w)@, 3, value),
            *final(r) == *final(self.w),
    {
        let bits: u32 = bitfield::write_bit_u32(self.w.value(), 3, value);
        self.w.bits(bits)
    }
}

/// Reader of field `USART0_REMAP`
pub type USART0_REMAP_R = crate::gd32vf103_pac::generic::R<bool, bool>;

/// Write proxy for field `USART0_REMAP`
pub struct USART0_REMAP_W<'a> {
    pub w: &'a mut W,
}

impl<'a> USART0_REMAP_W<'a> {
    /// Sets the field bit
    pub fn set_bit(self) -> (r: &'a mut W)
        ensures
            r@ == bitfield::with_bit_u32(old(self.w)@, 2, true),
            *final(r) == *final(self.w),
    {
        self.bit(true)
    }

    /// Clears the field bit
    pub fn clear_bit(self) -> (r: &'a mut W)
        ensures
            r@ == bitfield::with_bit_u32(old(self.w)@, 2, false),
            *final(r) == *final(self.w),
    {
        self.bit(false)
    }

    /// Writes raw bits to the field
    pub fn bit(self, value: bool) -> (r: &'a mut W)
        ensures
            r@ == bitfield::with_bit_u32(old(self.w)@, 2, value),
            *final(r) == *final(self.w),
    {
        let bits: u32 = bitfield::write_bit_u32(self.w.value(), 2, value);
        self.w.bits(bits)
    }
}

/// Reader of field `I2C0_REMAP`
pub type I2C0_REMAP_R = crate::gd32vf103_pac::generic::R<bool, bool>;

/// Write proxy for field `I2C0_REMAP`
pub struct I2C0_REMAP_W<'a> {
    pub w: &'a mut W,
}

impl<'a> I2C0_REMAP_W<'a> {
    /// Sets the field bit
    pub fn set_bit(self) -> (r: &'a mut W)
        ensures
            r@ == bitfield::with_bit_u32(old(self.w)@, 1, true),
            *final(r) == *final(self.w),
    {
        self.bit(true)
    }

    /// Clears the field bit
    pub fn clear_bit(self) -> (r: &'a mut W)
        ensures
            r@ == bitfield::with_bit_u32(old(self.w)@, 1, false),
            *final(r) == *final(self.w),
    {
        self.bit(false)
    }

    /// Writes raw bits to the field
    pub fn bit(self, value: bool) -> (r: &'a mut W)
        ensures
            r@ == bitfield::with_bit_u32(old(self.w)@, 1, value),
            *final(r) == *final(self.w),
    {
        let bits: u32 = bitfield::write_bit_u32(self.w.value(), 1, value);
        self.w.bits(bits)
    }
}

/// Reader of field `SPI0_REMAP`
pub type SPI0_REMAP_R = crate::gd32vf103_pac::generic::R<bool, bool>;

/// Write proxy for field `SPI0_REMAP`
pub struct SPI0_REMAP_W<'a> {
    pub w: &'a mut W,
}

impl<'a> SPI0_REMAP_W<'a> {
    /// Sets the field bit
    pub fn set_bit(self) -> (r: &'a mut W)
        ensures
            r@ == bitfield::with_bit_u32(old(self.w)@, 0, true),
            *final(r) == *final(self.w),
    {
        self.bit(true)
    }

    /// Clears the field bit
    pub fn clear_bit(self) -> (r: &'a mut W)
        ensures
            r@ == bitfield::with_bit_u32(old(self.w)@, 0, false),
            *final(r) == *final(self.w),
    {
        self.bit(false)
    }

    /// Writes raw bits to the field
    pub fn bit(self, value: bool) -> (r: &'a mut W)
        ensures
            r@ == bitfield::with_bit_u32(old(self.w)@, 0, value),
            *final(r) == *final(self.w),
    {
        let bits: u32 = bitfield::write_bit_u32(self.w.value(), 0, value);
        self.w.bits(bits)
    }
}

impl R {
    /// Bit 29 - TIMER1 internal trigger 1 remapping
    pub fn timer1iti1_remap(&self) -> (r: TIMER1ITI1_REMAP_R)
        ensures
            r@ == bitfield::bit_u32(self@, 29),
    {
        TIMER1ITI1_REMAP_R::new(bitfield::read_bit_u32(self.bits(), 29))
    }

    /// Bit 28 - SPI2/I2S2 remapping
    pub fn spi2_remap(&self) -> (r: SPI2_REMAP_R)
        ensures
            r@ == bitfield::bit_u32(self@, 28),
    {
        SPI2_REMAP_R::new(bitfield::read_bit_u32(self.bits(), 28))
    }

    /// Bits 24:26 - Serial wire JTAG configuration
    pub fn swj_cfg(&self) -> (r: SWJ_CFG_R)
        ensures
            r@ == bitfield::field_u32(self@, 24, 3) as u8,
    {
        SWJ_CFG_R::new(bitfield::read_field_u32(self.bits(), 24, 3) as u8)
    }

    /// Bit 22 - CAN1 I/O remapping
    pub fn can1_remap(&self) -> (r: CAN1_REMAP_R)
        ensures
            r@ == bitfield::bit_u32(self@, 22),
    {
        CAN1_REMAP_R::new(bitfield::read_bit_u32(self.bits(), 22))
    }

    /// Bit 16 - TIMER4 channel3 internal remapping
    pub fn timer4ch3_iremap(&self) -> (r: TIMER4CH3_IREMAP_R)
        ensures
            r@ == bitfield::bit_u32(self@, 16),
    {
        TIMER4CH3_IREMAP_R::new(bitfield::read_bit_u32(self.bits(), 16))
    }

    /// Bit 15 - Port D0/Port D1 mapping on OSC_IN/OSC_OUT
    pub fn pd01_remap(&self) -> (r: PD01_REMAP_R)
        ensures
            r@ == bitfield::bit_u32(self@, 15),
    {
        PD01_REMAP_R::new(bitfield::read_bit_u32(self.bits(), 15))
    }

    /// Bits 13:14 - CAN0 alternate interface remapping
    pub fn can0_remap(&self) -> (r: CAN0_REMAP_R)
        ensures
            r@ == bitfield::field_u32(self@, 13, 2) as u8,
    {
        CAN0_REMAP_R::new(bitfield::read_field_u32(self.bits(), 13, 2) as u8)
    }

    /// Bit 12 - TIMER3 remapping
    pub fn timer3_remap(&self) -> (r: TIMER3_REMAP_R)
        ensures
            r@ == bitfield::bit_u32(self@, 12),
    {
        TIMER3_REMAP_R::new(bitfield::read_bit_u32(self.bits(), 12))
    }

    /// Bits 10:11 - TIMER2 remapping
    pub fn timer2_remap(&self) -> (r: TIMER2_REMAP_R)
        ensures
            r@ == bitfield::field_u32(self@, 10, 2) as u8,
    {
        TIMER2_REMAP_R::new(bitfield::read_field_u32(self.bits(), 10, 2) as u8)
    }

    /// Bits 8:9 - TIMER1 remapping
    pub fn timer1_remap(&self) -> (r: TIMER1_REMAP_R)
        ensures
            r@ == bitfield::field_u32(self@, 8, 2) as u8,
    {
        TIMER1_REMAP_R::new(bitfield::read_field_u32(self.bits(), 8, 2) as u8)
    }

    /// Bits 6:7 - TIMER0 remapping
    pub fn timer0_remap(&self) -> (r: TIMER0_REMAP_R)
        ensures
            r@ == bitfield::field_u32(self@, 6, 2) as u8,
    {
        TIMER0_REMAP_R::new(bitfield::read_field_u32(self.bits(), 6, 2) as u8)
    }

    /// Bits 4:5 - USART2 remapping
    pub fn usart2_remap(&self) -> (r: USART2_REMAP_R)
        ensures
            r@ == bitfield::field_u32(self@, 4, 2) as u8,
    {
        USART2_REMAP_R::new(bitfield::read_field_u32(self.bits(), 4, 2) as u8)
    }

    /// Bit 3 - USART1 remapping
    pub fn usart1_remap(&self) -> (r: USART1_REMAP_R)
        ensures
            r@ == bitfield::bit_u32(self@, 3),
    {
        USART1_REMAP_R::new(bitfield::read_bit_u32(self.bits(), 3))
    }

    /// Bit 2 - USART0 remapping
    pub fn usart0_remap(&self) -> (r: USART0_REMAP_R)
        ensures
            r@ == bitfield::bit_u32(self@, 2),
    {
        USART0_REMAP_R::new(bitfield::read_bit_u32(self.bits(), 2))
    }

    /// Bit 1 - I2C0 remapping
    pub fn i2c0_remap(&self) -> (r: I2C0_REMAP_R)
        ensures
            r@ == bitfield::bit_u32(self@, 1),
    {
        I2C0_REMAP_R::new(bitfield::read_bit_u32(self.bits(), 1))
    }

    /// Bit 0 - SPI0 remapping
    pub fn spi0_remap(&self) -> (r: SPI0_REMAP_R)
        ensures
            r@ == bitfield::bit_u32(self@, 0),
    {
        SPI0_REMAP_R::new(bitfield::read_bit_u32(self.bits(), 0))
    }
}

impl W {
    /// Bit 29 - TIMER1 internal trigger 1 remapping
    pub fn timer1iti1_remap(&mut self) -> (r: TIMER1ITI1_REMAP_W<'_>)
        ensures
            *r.w == *old(self),
            *final(r.w) == *final(self),
    {
        TIMER1ITI1_REMAP_W { w: self }
    }

    /// Bit 28 - SPI2/I2S2 remapping
    pub fn spi2_remap(&mut self) -> (r: SPI2_REMAP_W<'_>)
        ensures
            *r.w == *old(self),
            *final(r.w) == *final(self),
    {
        SPI2_REMAP_W { w: self }
    }

    /// Bits 24:26 - Serial wire JTAG configuration
    pub fn swj_cfg(&mut self) -> (r: SWJ_CFG_W<'_>)
        ensures
            *r.w == *old(self),
            *final(r.w) == *final(self),
    {
        SWJ_CFG_W { w: self }
    }

    /// Bit 22 - CAN1 I/O remapping
    pub fn can1_remap(&mut self) -> (r: CAN1_REMAP_W<'_>)
        ensures
            *r.w == *old(self),
            *final(r.w) == *final(self),
    {
        CAN1_REMAP_W { w: self }
    }

    /// Bit 16 - TIMER4 channel3 internal remapping
    pub fn timer4ch3_iremap(&mut self) -> (r: TIMER4CH3_IREMAP_W<'_>)
        ensures
            *r.w == *old(self),
            *final(r.w) == *final(self),
    {
        TIMER4CH3_IREMAP_W { w: self }
    }

    /// Bit 15 - Port D0/Port D1 mapping on OSC_IN/OSC_OUT
    pub fn pd01_remap(&mut self) -> (r: PD01_REMAP_W<'_>)
        ensures
            *r.w == *old(self),
            *final(r.w) == *final(self),
    {
        PD01_REMAP_W { w: self }
    }

    /// Bits 13:14 - CAN0 alternate interface remapping
    pub fn can0_remap(&mut self) -> (r: CAN0_REMAP_W<'_>)
        ensures
            *r.w == *old(self),
            *final(r.w) == *final(self),
    {
        CAN0_REMAP_W { w: self }
    }

    /// Bit 12 - TIMER3 remapping
    pub fn timer3_remap(&mut self) -> (r: TIMER3_REMAP_W<'_>)
        ensures
            *r.w == *old(self),
            *final(r.w) == *final(self),
    {
        TIMER3_REMAP_W { w: self }
    }

    /// Bits 10:11 - TIMER2 remapping
    pub fn timer2_remap(&mut self) -> (r: TIMER2_REMAP_W<'_>)
        ensures
            *r.w == *old(self),
            *final(r.w) == *final(self),
    {
        TIMER2_REMAP_W { w: self }
    }

    /// Bits 8:9 - TIMER1 remapping
    pub fn timer1_remap(&mut self) -> (r: TIMER1_REMAP_W<'_>)
        ensures
            *r.w == *old(self),
            *final(r.w) == *final(self),
    {
        TIMER1_REMAP_W { w: self }
    }

    /// Bits 6:7 - TIMER0 remapping
    pub fn timer0_remap(&mut self) -> (r: TIMER0_REMAP_W<'_>)
        ensures
            *r.w == *old(self),
            *final(r.w) == *final(self),
    {
        TIMER0_REMAP_W { w: self }
    }

    /// Bits 4:5 - USART2 remapping
    pub fn usart2_remap(&mut self) -> (r: USART2_REMAP_W<'_>)
        ensures
            *r.w == *old(self),
            *final(r.w) == *final(self),
    {
        USART2_REMAP_W { w: self }
    }

    /// Bit 3 - USART1 remapping
    pub fn usart1_remap(&mut self) -> (r: USART1_REMAP_W<'_>)
        ensures
            *r.w == *old(self),
            *final(r.w) == *final(self),
    {
        USART1_REMAP_W { w: self }
    }

    /// Bit 2 - USART0 remapping
    pub fn usart0_remap(&mut self) -> (r: USART0_REMAP_W<'_>)
        ensures
            *r.w == *old(self),
            *final(r.w) == *final(self),
    {
        USART0_REMAP_W { w: self }
    }

    /// Bit 1 - I2C0 remapping
    pub fn i2c0_remap(&mut self) -> (r: I2C0_REMAP_W<'_>)
        ensures
            *r.w == *old(self),
            *final(r.w) == *final(self),
    {
        I2C0_REMAP_W { w: self }
    }

    /// Bit 0 - SPI0 remapping
    pub fn spi0_remap(&mut self) -> (r: SPI0_REMAP_W<'_>)
        ensures
            *r.w == *old(self),
            *final(r.w) == *final(self),
    {
        SPI0_REMAP_W { w: self }
    }
}

} // verus!

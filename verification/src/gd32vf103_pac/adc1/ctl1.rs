use vstd::prelude::*;
use crate::bitfield;

verus! {

/// Reader of register CTL1
pub type R = crate::gd32vf103_pac::generic::R<u32, super::CTL1>;

/// Writer for register CTL1
pub type W = crate::gd32vf103_pac::generic::W<u32, super::CTL1>;

/// Register CTL1 `reset()`'s with value 0
impl crate::gd32vf103_pac::generic::ResetValue for super::CTL1 {
    type Type = u32;

    open spec fn reset_spec() -> u32 {
        0
    }

    fn reset_value() -> (r: u32) {
        0
    }
}

/// Reader of field `SWRCST`
pub type SWRCST_R = crate::gd32vf103_pac::generic::R<bool, bool>;

/// Write proxy for field `SWRCST`
pub struct SWRCST_W<'a> {
    pub w: &'a mut W,
}

impl<'a> SWRCST_W<'a> {
    /// Sets the field bit
    pub fn set_bit(self) -> (r: &'a mut W)
        ensures
            r@ == bitfield::with_bit_u32(old(self.w)@, 22, true),
            *final(r) == *final(self.w),
    {
        self.bit(true)
    }

    /// Clears the field bit
    pub fn clear_bit(self) -> (r: &'a mut W)
        ensures
            r@ == bitfield::with_bit_u32(old(self.w)@, 22, false),
            *final(r) == *final(self.w),
    {
        self.bit(false)
    }

    /// Writes raw bits to the field
    pub fn bit(self, value: bool) -> (r: &'a mut W)
        ensures
            r@ == bitfield::with_bit_u32(old(self.w)@, 22, value),
            *final(r) == *final(self.w),
    {
        let bits: u32 = bitfield::write_bit_u32(self.w.value(), 22, value);
        self.w.bits(bits)
    }
}

/// Reader of field `SWICST`
pub type SWICST_R = crate::gd32vf103_pac::generic::R<bool, bool>;

/// Write proxy for field `SWICST`
pub struct SWICST_W<'a> {
    pub w: &'a mut W,
}

impl<'a> SWICST_W<'a> {
    /// Sets the field bit
    pub fn set_bit(self) -> (r: &'a mut W)
        ensures
            r@ == bitfield::with_bit_u32(old(self.w)@, 21, true),
            *final(r) == *final(self.w),
    {
        self.bit(true)
    }

    /// Clears the field bit
    pub fn clear_bit(self) -> (r: &'a mut W)
        ensures
            r@ == bitfield::with_bit_u32(old(self.w)@, 21, false),
            *final(r) == *final(self.w),
    {
        self.bit(false)
    }

    /// Writes raw bits to the field
    pub fn bit(self, value: bool) -> (r: &'a mut W)
        ensures
            r@ == bitfield::with_bit_u32(old(self.w)@, 21, value),
            *final(r) == *final(self.w),
    {
        let bits: u32 = bitfield::write_bit_u32(self.w.value(), 21, value);
        self.w.bits(bits)
    }
}

/// Reader of field `ETERC`
pub type ETERC_R = crate::gd32vf103_pac::generic::R<bool, bool>;

/// Write proxy for field `ETERC`
pub struct ETERC_W<'a> {
    pub w: &'a mut W,
}

impl<'a> ETERC_W<'a> {
    /// Sets the field bit
    pub fn set_bit(self) -> (r: &'a mut W)
        ensures
            r@ == bitfield::with_bit_u32(old(self.w)@, 20, true),
            *final(r) == *final(self.w),
    {
        self.bit(true)
    }

    /// Clears the field bit
    pub fn clear_bit(self) -> (r: &'a mut W)
        ensures
            r@ == bitfield::with_bit_u32(old(self.w)@, 20, false),
            *final(r) == *final(self.w),
    {
        self.bit(false)
    }

    /// Writes raw bits to the field
    pub fn bit(self, value: bool) -> (r: &'a mut W)
        ensures
            r@ == bitfield::with_bit_u32(old(self.w)@, 20, value),
            *final(r) == *final(self.w),
    {
        let bits: u32 = bitfield::write_bit_u32(self.w.value(), 20, value);
        self.w.bits(bits)
    }
}

/// Reader of field `ETSRC`
pub type ETSRC_R = crate::gd32vf103_pac::generic::R<u8, u8>;

/// Write proxy for field `ETSRC`
pub struct ETSRC_W<'a> {
    pub w: &'a mut W,
}

impl<'a> ETSRC_W<'a> {
    /// Writes raw bits to the field
    pub fn bits(self, value: u8) -> (r: &'a mut W)
        ensures
            r@ == bitfield::with_field_u32(old(self.w)@, 17, 3, value as u32),
            *final(r) == *final(self.w),
    {
        let bits: u32 = bitfield::write_field_u32(self.w.value(), 17, 3, value as u32);
        self.w.bits(bits)
    }
}

/// Reader of field `ETEIC`
pub type ETEIC_R = crate::gd32vf103_pac::generic::R<bool, bool>;

/// Write proxy for field `ETEIC`
pub struct ETEIC_W<'a> {
    pub w: &'a mut W,
}

impl<'a> ETEIC_W<'a> {
    /// Sets the field bit
    pub fn set_bit(self) -> (r: &'a mut W)
        ensures
            r@ == bitfield::with_bit_u32(old(self.w)@, 15, true),
            *final(r) == *final(self.w),
    {
        self.bit(true)
    }

    /// Clears the field bit
    pub fn clear_bit(self) -> (r: &'a mut W)
        ensures
            r@ == bitfield::with_bit_u32(old(self.w)@, 15, false),
            *final(r) == *final(self.w),
    {
        self.bit(false)
    }

    /// Writes raw bits to the field
    pub fn bit(self, value: bool) -> (r: &'a mut W)
        ensures
            r@ == bitfield::with_bit_u32(old(self.w)@, 15, value),
            *final(r) == *final(self.w),
    {
        let bits: u32 = bitfield::write_bit_u32(self.w.value(), 15, value);
        self.w.bits(bits)
    }
}

/// Reader of field `ETSIC`
pub type ETSIC_R = crate::gd32vf103_pac::generic::R<u8, u8>;

/// Write proxy for field `ETSIC`
pub struct ETSIC_W<'a> {
    pub w: &'a mut W,
}

impl<'a> ETSIC_W<'a> {
    /// Writes raw bits to the field
    pub fn bits(self, value: u8) -> (r: &'a mut W)
        ensures
            r@ == bitfield::with_field_u32(old(self.w)@, 12, 3, value as u32),
            *final(r) == *final(self.w),
    {
        let bits: u32 = bitfield::write_field_u32(self.w.value(), 12, 3, value as u32);
        self.w.bits(bits)
    }
}

/// Reader of field `DAL`
pub type DAL_R = crate::gd32vf103_pac::generic::R<bool, bool>;

/// Write proxy for field `DAL`
pub struct DAL_W<'a> {
    pub w: &'a mut W,
}

impl<'a> DAL_W<'a> {
    /// Sets the field bit
    pub fn set_bit(self) -> (r: &'a mut W)
        ensures
            r@ == bitfield::with_bit_u32(old(self.w)@, 11, true),
            *final(r) == *final(self.w),
    {
        self.bit(true)
    }

    /// Clears the field bit
    pub fn clear_bit(self) -> (r: &'a mut W)
        ensures
            r@ == bitfield::with_bit_u32(old(self.w)@, 11, false),
            *final(r) == *final(self.w),
    {
        self.bit(false)
    }

    /// Writes raw bits to the field
    pub fn bit(self, value: bool) -> (r: &'a mut W)
        ensures
            r@ == bitfield::with_bit_u32(old(self.w)@, 11, value),
            *final(r) == *final(self.w),
    {
        let bits: u32 = bitfield::write_bit_u32(self.w.value(), 11, value);
        self.w.bits(bits)
    }
}

/// Reader of field `DMA`
pub type DMA_R = crate::gd32vf103_pac::generic::R<bool, bool>;

/// Write proxy for field `DMA`
pub struct DMA_W<'a> {
    pub w: &'a mut W,
}

impl<'a> DMA_W<'a> {
    /// Sets the field bit
    pub fn set_bit(self) -> (r: &'a mut W)
        ensures
            r@ == bitfield::with_bit_u32(old(self.w)@, 8, true),
            *final(r) == *final(self.w),
    {
        self.bit(true)
    }

    /// Clears the field bit
    pub fn clear_bit(self) -> (r: &'a mut W)
        ensures
            r@ == bitfield::with_bit_u32(old(self.w)@, 8, false),
            *final(r) == *final(self.w),
    {
        self.bit(false)
    }

    /// Writes raw bits to the field
    pub fn bit(self, value: bool) -> (r: &'a mut W)
        ensures
            r@ == bitfield::with_bit_u32(old(self.w)@, 8, value),
            *final(r) == *final(self.w),
    {
        let bits: u32 = bitfield::write_bit_u32(self.w.value(), 8, value);
        self.w.bits(bits)
    }
}

/// Reader of field `RSTCLB`
pub type RSTCLB_R = crate::gd32vf103_pac::generic::R<bool, bool>;

/// Write proxy for field `RSTCLB`
pub struct RSTCLB_W<'a> {
    pub w: &'a mut W,
}

impl<'a> RSTCLB_W<'a> {
    /// Sets the field bit
    pub fn set_bit(self) -> (r: &'a mut W)
        ensures
            r@ == bitfield::with_bit_u32(old(self.w)@, 3, true),
            *final(r) == *final(self.w),
    {
        self.bit(true)
    }

    /// Clears the field bit
    pub fn clear_bit(self) -> (r: &'a mut W)
        ensures
            r@ == bitfield::with_bit_u32(old(self.w)@, 3, false),
            *final(r) == *final(self.w),
    {
        self.bit(false)
    }

    /// Writes raw bits to the field
    pub fn bit(self, value: bool) -> (r: &'a mut W)
        ensures
            r@ == bitfield::with_bit_u32(old(self.w)@, 3, value),
            *final(r) == *final(self.w),
    {
        let bits: u32 = bitfield::write_bit_u32(self.w.value(), 3, value);
        self.w.bits(bits)
    }
}

/// Reader of field `CLB`
pub type CLB_R = crate::gd32vf103_pac::generic::R<bool, bool>;

/// Write proxy for field `CLB`
pub struct CLB_W<'a> {
    pub w: &'a mut W,
}

impl<'a> CLB_W<'a> {
    /// Sets the field bit
    pub fn set_bit(self) -> (r: &'a mut W)
        ensures
            r@ == bitfield::with_bit_u32(old(self.w)@, 2, true),
            *final(r) == *final(self.w),
    {
        self.bit(true)
    }

    /// Clears the field bit
    pub fn clear_bit(self) -> (r: &'a mut W)
        ensures
            r@ == bitfield::with_bit_u32(old(self.w)@, 2, false),
            *final(r) == *final(self.w),
    {
        self.bit(false)
    }

    /// Writes raw bits to the field
    pub fn bit(self, value: bool) -> (r: &'a mut W)
        ensures
            r@ == bitfield::with_bit_u32(old(self.w)@, 2, value),
            *final(r) == *final(self.w),
    {
        let bits: u32 = bitfield::write_bit_u32(self.w.value(), 2, value);
        self.w.bits(bits)
    }
}

/// Reader of field `CTN`
pub type CTN_R = crate::gd32vf103_pac::generic::R<bool, bool>;

/// Write proxy for field `CTN`
pub struct CTN_W<'a> {
    pub w: &'a mut W,
}

impl<'a> CTN_W<'a> {
    /// Sets the field bit
    pub fn set_bit(self) -> (r: &'a mut W)
        ensures
            r@ == bitfield::with_bit_u32(old(self.w)@, 1, true),
            *final(r) == *final(self.w),
    {
        self.bit(true)
    }

    /// Clears the field bit
    pub fn clear_bit(self) -> (r: &'a mut W)
        ensures
            r@ == bitfield::with_bit_u32(old(self.w)@, 1, false),
            *final(r) == *final(self.w),
    {
        self.bit(false)
    }

    /// Writes raw bits to the field
    pub fn bit(self, value: bool) -> (r: &'a mut W)
        ensures
            r@ == bitfield::with_bit_u32(old(self.w)@, 1, value),
            *final(r) == *final(self.w),
    {
        let bits: u32 = bitfield::write_bit_u32(self.w.value(), 1, value);
        self.w.bits(bits)
    }
}

/// Reader of field `ADCON`
pub type ADCON_R = crate::gd32vf103_pac::generic::R<bool, bool>;

/// Write proxy for field `ADCON`
pub struct ADCON_W<'a> {
    pub w: &'a mut W,
}

impl<'a> ADCON_W<'a> {
    /// Sets the field bit
    pub fn set_bit(self) -> (r: &'a mut W)
        ensures
            r@ == bitfield::with_bit_u32(old(self.w)@, 0, true),
            *final(r) == *final(self.w),
    {
        self.bit(true)
    }

    /// Clears the field bit
    pub fn clear_bit(self) -> (r: &'a mut W)
        ensures
            r@ == bitfield::with_bit_u32(old(self.w)@, 0, false),
            *final(r) == *final(self.w),
    {
        self.bit(false)
    }

    /// Writes raw bits to the field
    pub fn bit(self, value: bool) -> (r: &'a mut W)
        ensures
            r@ == bitfield::with_bit_u32(old(self.w)@, 0, value),
            *final(r) == *final(self.w),
    {
        let bits: u32 = bitfield::write_bit_u32(self.w.value(), 0, value);
        self.w.bits(bits)
    }
}

impl R {
    /// Bit 22 - Start on regular channel
    pub fn swrcst(&self) -> (r: SWRCST_R)
        ensures
            r@ == bitfield::bit_u32(self@, 22),
    {
        SWRCST_R::new(bitfield::read_bit_u32(self.bits(), 22))
    }

    /// Bit 21 - Start on inserted channel
    pub fn swicst(&self) -> (r: SWICST_R)
        ensures
            r@ == bitfield::bit_u32(self@, 21),
    {
        SWICST_R::new(bitfield::read_bit_u32(self.bits(), 21))
    }

    /// Bit 20 - External trigger enable for regular channel
    pub fn eterc(&self) -> (r: ETERC_R)
        ensures
            r@ == bitfield::bit_u32(self@, 20),
    {
        ETERC_R::new(bitfield::read_bit_u32(self.bits(), 20))
    }

    /// Bits 17:19 - External trigger select for regular channel
    pub fn etsrc(&self) -> (r: ETSRC_R)
        ensures
            r@ == bitfield::field_u32(self@, 17, 3) as u8,
    {
        ETSRC_R::new(bitfield::read_field_u32(self.bits(), 17, 3) as u8)
    }

    /// Bit 15 - External trigger enable for inserted channel
    pub fn eteic(&self) -> (r: ETEIC_R)
        ensures
            r@ == bitfield::bit_u32(self@, 15),
    {
        ETEIC_R::new(bitfield::read_bit_u32(self.bits(), 15))
    }

    /// Bits 12:14 - External trigger select for inserted channel
    pub fn etsic(&self) -> (r: ETSIC_R)
        ensures
            r@ == bitfield::field_u32(self@, 12, 3) as u8,
    {
        ETSIC_R::new(bitfield::read_field_u32(self.bits(), 12, 3) as u8)
    }

    /// Bit 11 - Data alignment
    pub fn dal(&self) -> (r: DAL_R)
        ensures
            r@ == bitfield::bit_u32(self@, 11),
    {
        DAL_R::new(bitfield::read_bit_u32(self.bits(), 11))
    }

    /// Bit 8 - DMA request enable
    pub fn dma(&self) -> (r: DMA_R)
        ensures
            r@ == bitfield::bit_u32(self@, 8),
    {
        DMA_R::new(bitfield::read_bit_u32(self.bits(), 8))
    }

    /// Bit 3 - Reset calibration
    pub fn rstclb(&self) -> (r: RSTCLB_R)
        ensures
            r@ == bitfield::bit_u32(self@, 3),
    {
        RSTCLB_R::new(bitfield::read_bit_u32(self.bits(), 3))
    }

    /// Bit 2 - ADC calibration
    pub fn clb(&self) -> (r: CLB_R)
        ensures
            r@ == bitfield::bit_u32(self@, 2),
    {
        CLB_R::new(bitfield::read_bit_u32(self.bits(), 2))
    }

    /// Bit 1 - Continuous mode
    pub fn ctn(&self) -> (r: CTN_R)
        ensures
            r@ == bitfield::bit_u32(self@, 1),
    {
        CTN_R::new(bitfield::read_bit_u32(self.bits(), 1))
    }

    /// Bit 0 - ADC on
    pub fn adcon(&self) -> (r: ADCON_R)
        ensures
            r@ == bitfield::bit_u32(self@, 0),
    {
        ADCON_R::new(bitfield::read_bit_u32(self.bits(), 0))
    }
}

impl W {
    /// Bit 22 - Start on regular channel
    pub fn swrcst(&mut self) -> (r: SWRCST_W<'_>)
        ensures
            *r.w == *old(self),
            *final(r.w) == *final(self),
    {
        SWRCST_W { w: self }
    }

    /// Bit 21 - Start on inserted channel
    pub fn swicst(&mut self) -> (r: SWICST_W<'_>)
        ensures
            *r.w == *old(self),
            *final(r.w) == *final(self),
    {
        SWICST_W { w: self }
    }

    /// Bit 20 - External trigger enable for regular channel
    pub fn eterc(&mut self) -> (r: ETERC_W<'_>)
        ensures
            *r.w == *old(self),
            *final(r.w) == *final(self),
    {
        ETERC_W { w: self }
    }

    /// Bits 17:19 - External trigger select for regular channel
    pub fn etsrc(&mut self) -> (r: ETSRC_W<'_>)
        ensures
            *r.w == *old(self),
            *final(r.w) == *final(self),
    {
        ETSRC_W { w: self }
    }

    /// Bit 15 - External trigger enable for inserted channel
    pub fn eteic(&mut self) -> (r: ETEIC_W<'_>)
        ensures
            *r.w == *old(self),
            *final(r.w) == *final(self),
    {
        ETEIC_W { w: self }
    }

    /// Bits 12:14 - External trigger select for inserted channel
    pub fn etsic(&mut self) -> (r: ETSIC_W<'_>)
        ensures
            *r.w == *old(self),
            *final(r.w) == *final(self),
    {
        ETSIC_W { w: self }
    }

    /// Bit 11 - Data alignment
    pub fn dal(&mut self) -> (r: DAL_W<'_>)
        ensures
            *r.w == *old(self),
            *final(r.w) == *final(self),
    {
        DAL_W { w: self }
    }

    /// Bit 8 - DMA request enable
    pub fn dma(&mut self) -> (r: DMA_W<'_>)
        ensures
            *r.w == *old(self),
            *final(r.w) == *final(self),
    {
        DMA_W { w: self }
    }

    /// Bit 3 - Reset calibration
    pub fn rstclb(&mut self) -> (r: RSTCLB_W<'_>)
        ensures
            *r.w == *old(self),
            *final(r.w) == *final(self),
    {
        RSTCLB_W { w: self }
    }

    /// Bit 2 - ADC calibration
    pub fn clb(&mut self) -> (r: CLB_W<'_>)
        ensures
            *r.w == *old(self),
            *final(r.w) == *final(self),
    {
        CLB_W { w: self }
    }

    /// Bit 1 - Continuous mode
    pub fn ctn(&mut self) -> (r: CTN_W<'_>)
        ensures
            *r.w == *old(self),
            *final(r.w) == *final(self),
    {
        CTN_W { w: self }
    }

    /// Bit 0 - ADC on
    pub fn adcon(&mut self) -> (r: ADCON_W<'_>)
        ensures
            *r.w == *old(self),
            *final(r.w) == *final(self),
    {
        ADCON_W { w: self }
    }
}

} // verus!

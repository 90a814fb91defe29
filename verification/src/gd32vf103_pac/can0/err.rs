use vstd::prelude::*;
use crate::bitfield;

verus! {

/// Reader of register ERR
pub type R = crate::gd32vf103_pac::generic::R<u32, super::ERR>;

/// Writer for register ERR
pub type W = crate::gd32vf103_pac::generic::W<u32, super::ERR>;

/// Register ERR `reset()`'s with value 0
impl crate::gd32vf103_pac::generic::ResetValue for super::ERR {
    type Type = u32;

    open spec fn reset_spec() -> u32 {
        0
    }

    fn reset_value() -> (r: u32) {
        0
    }
}

/// Reader of field `RECNT`
pub type RECNT_R = crate::gd32vf103_pac::generic::R<u8, u8>;

/// Reader of field `TECNT`
pub type TECNT_R = crate::gd32vf103_pac::generic::R<u8, u8>;

/// Reader of field `ERRN`
pub type ERRN_R = crate::gd32vf103_pac::generic::R<u8, u8>;

/// Write proxy for field `ERRN`
pub struct ERRN_W<'a> {
    pub w: &'a mut W,
}

impl<'a> ERRN_W<'a> {
    /// Writes raw bits to the field
    pub fn bits(self, value: u8) -> (r: &'a mut W)
        ensures
            r@ == bitfield::with_field_u32(old(self.w)@, 4, 3, value as u32),
            *final(r) == *final(self.w),
    {
        let bits: u32 = bitfield::write_field_u32(self.w.value(), 4, 3, value as u32);
        self.w.bits(bits)
    }
}

/// Reader of field `BOERR`
pub type BOERR_R = crate::gd32vf103_pac::generic::R<bool, bool>;

/// Reader of field `PERR`
pub type PERR_R = crate::gd32vf103_pac::generic::R<bool, bool>;

/// Reader of field `WERR`
pub type WERR_R = crate::gd32vf103_pac::generic::R<bool, bool>;

impl R {
    /// Bits 24:31 - Receive Error Count defined by the CAN standard
    pub fn recnt(&self) -> (r: RECNT_R)
        ensures
            r@ == bitfield::field_u32(self@, 24, 8) as u8,
    {
        RECNT_R::new(bitfield::read_field_u32(self.bits(), 24, 8) as u8)
    }

    /// Bits 16:23 - Transmit Error Count defined by the CAN standard
    pub fn tecnt(&self) -> (r: TECNT_R)
        ensures
            r@ == bitfield::field_u32(self@, 16, 8) as u8,
    {
        TECNT_R::new(bitfield::read_field_u32(self.bits(), 16, 8) as u8)
    }

    /// Bits 4:6 - Error number
    pub fn errn(&self) -> (r: ERRN_R)
        ensures
            r@ == bitfield::field_u32(self@, 4, 3) as u8,
    {
        ERRN_R::new(bitfield::read_field_u32(self.bits(), 4, 3) as u8)
    }

    /// Bit 2 - Bus-off error
    pub fn boerr(&self) -> (r: BOERR_R)
        ensures
            r@ == bitfield::bit_u32(self@, 2),
    {
        BOERR_R::new(bitfield::read_bit_u32(self.bits(), 2))
    }

    /// Bit 1 - Passive error
    pub fn perr(&self) -> (r: PERR_R)
        ensures
            r@ == bitfield::bit_u32(self@, 1),
    {
        PERR_R::new(bitfield::read_bit_u32(self.bits(), 1))
    }

    /// Bit 0 - Warning error
    pub fn werr(&self) -> (r: WERR_R)
        ensures
            r@ == bitfield::bit_u32(self@, 0),
    {
        WERR_R::new(bitfield::read_bit_u32(self.bits(), 0))
    }
}

impl W {
    /// Bits 4:6 - Error number
    pub fn errn(&mut self) -> (r: ERRN_W<'_>)
        ensures
            *r.w == *old(self),
            *final(r.w) == *final(self),
    {
        ERRN_W { w: self }
    }
}

} // verus!

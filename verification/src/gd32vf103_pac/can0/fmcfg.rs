use vstd::prelude::*;
use crate::bitfield;

verus! {

/// Reader of register FMCFG
pub type R = crate::gd32vf103_pac::generic::R<u32, super::FMCFG>;

/// Writer for register FMCFG
pub type W = crate::gd32vf103_pac::generic::W<u32, super::FMCFG>;

/// Register FMCFG `reset()`'s with value 0
impl crate::gd32vf103_pac::generic::ResetValue for super::FMCFG {
    type Type = u32;

    open spec fn reset_spec() -> u32 {
        0
    }

    fn reset_value() -> (r: u32) {
        0
    }
}

/// Reader of field `FMOD27`
pub type FMOD27_R = crate::gd32vf103_pac::generic::R<bool, bool>;

/// Write proxy for field `FMOD27`
pub struct FMOD27_W<'a> {
    pub w: &'a mut W,
}

impl<'a> FMOD27_W<'a> {
    /// Sets the field bit
    pub fn set_bit(self) -> (r: &'a mut W)
        ensures
            r@ == bitfield::with_bit_u32(old(self.w)@, 27, true),
            *final(r) == *final(self.w),
    {
        self.bit(true)
    }

    /// Clears the field bit
    pub fn clear_bit(self) -> (r: &'a mut W)
        ensures
            r@ == bitfield::with_bit_u32(old(self.w)@, 27, false),
            *final(r) == *final(self.w),
    {
        self.bit(false)
    }

    /// Writes raw bits to the field
    pub fn bit(self, value: bool) -> (r: &'a mut W)
        ensures
            r@ == bitfield::with_bit_u32(old(self.w)@, 27, value),
            *final(r) == *final(self.w),
    {
        let bits: u32 = bitfield::write_bit_u32(self.w.value(), 27, value);
        self.w.bits(bits)
    }
}

/// Reader of field `FMOD26`
pub type FMOD26_R = crate::gd32vf103_pac::generic::R<bool, bool>;

/// Write proxy for field `FMOD26`
pub struct FMOD26_W<'a> {
    pub w: &'a mut W,
}

impl<'a> FMOD26_W<'a> {
    /// Sets the field bit
    pub fn set_bit(self) -> (r: &'a mut W)
        ensures
            r@ == bitfield::with_bit_u32(old(self.w)@, 26, true),
            *final(r) == *final(self.w),
    {
        self.bit(true)
    }

    /// Clears the field bit
    pub fn clear_bit(self) -> (r: &'a mut W)
        ensures
            r@ == bitfield::with_bit_u32(old(self.w)@, 26, false),
            *final(r) == *final(self.w),
    {
        self.bit(false)
    }

    /// Writes raw bits to the field
    pub fn bit(self, value: bool) -> (r: &'a mut W)
        ensures
            r@ == bitfield::with_bit_u32(old(self.w)@, 26, value),
            *final(r) == *final(self.w),
    {
        let bits: u32 = bitfield::write_bit_u32(self.w.value(), 26, value);
        self.w.bits(bits)
    }
}

/// Reader of field `FMOD25`
pub type FMOD25_R = crate::gd32vf103_pac::generic::R<bool, bool>;

/// Write proxy for field `FMOD25`
pub struct FMOD25_W<'a> {
    pub w: &'a mut W,
}

impl<'a> FMOD25_W<'a> {
    /// Sets the field bit
    pub fn set_bit(self) -> (r: &'a mut W)
        ensures
            r@ == bitfield::with_bit_u32(old(self.w)@, 25, true),
            *final(r) == *final(self.w),
    {
        self.bit(true)
    }

    /// Clears the field bit
    pub fn clear_bit(self) -> (r: &'a mut W)
        ensures
            r@ == bitfield::with_bit_u32(old(self.w)@, 25, false),
            *final(r) == *final(self.w),
    {
        self.bit(false)
    }

    /// Writes raw bits to the field
    pub fn bit(self, value: bool) -> (r: &'a mut W)
        ensures
            r@ == bitfield::with_bit_u32(old(self.w)@, 25, value),
            *final(r) == *final(self.w),
    {
        let bits: u32 = bitfield::write_bit_u32(self.w.value(), 25, value);
        self.w.bits(bits)
    }
}

/// Reader of field `FMOD24`
pub type FMOD24_R = crate::gd32vf103_pac::generic::R<bool, bool>;

/// Write proxy for field `FMOD24`
pub struct FMOD24_W<'a> {
    pub w: &'a mut W,
}

impl<'a> FMOD24_W<'a> {
    /// Sets the field bit
    pub fn set_bit(self) -> (r: &'a mut W)
        ensures
            r@ == bitfield::with_bit_u32(old(self.w)@, 24, true),
            *final(r) == *final(self.w),
    {
        self.bit(true)
    }

    /// Clears the field bit
    pub fn clear_bit(self) -> (r: &'a mut W)
        ensures
            r@ == bitfield::with_bit_u32(old(self.w)@, 24, false),
            *final(r) == *final(self.w),
    {
        self.bit(false)
    }

    /// Writes raw bits to the field
    pub fn bit(self, value: bool) -> (r: &'a mut W)
        ensures
            r@ == bitfield::with_bit_u32(old(self.w)@, 24, value),
            *final(r) == *final(self.w),
    {
        let bits: u32 = bitfield::write_bit_u32(self.w.value(), 24, value);
        self.w.bits(bits)
    }
}

/// Reader of field `FMOD23`
pub type FMOD23_R = crate::gd32vf103_pac::generic::R<bool, bool>;

/// Write proxy for field `FMOD23`
pub struct FMOD23_W<'a> {
    pub w: &'a mut W,
}

impl<'a> FMOD23_W<'a> {
    /// Sets the field bit
    pub fn set_bit(self) -> (r: &'a mut W)
        ensures
            r@ == bitfield::with_bit_u32(old(self.w)@, 23, true),
            *final(r) == *final(self.w),
    {
        self.bit(true)
    }

    /// Clears the field bit
    pub fn clear_bit(self) -> (r: &'a mut W)
        ensures
            r@ == bitfield::with_bit_u32(old(self.w)@, 23, false),
            *final(r) == *final(self.w),
    {
        self.bit(false)
    }

    /// Writes raw bits to the field
    pub fn bit(self, value: bool) -> (r: &'a mut W)
        ensures
            r@ == bitfield::with_bit_u32(old(self.w)@, 23, value),
            *final(r) == *final(self.w),
    {
        let bits: u32 = bitfield::write_bit_u32(self.w.value(), 23, value);
        self.w.bits(bits)
    }
}

/// Reader of field `FMOD22`
pub type FMOD22_R = crate::gd32vf103_pac::generic::R<bool, bool>;

/// Write proxy for field `FMOD22`
pub struct FMOD22_W<'a> {
    pub w: &'a mut W,
}

impl<'a> FMOD22_W<'a> {
    /// Sets the field bit
    pub fn set_bit(self) -> (r: &'a mut W)
        ensures
            r@ == bitfield::with_bit_u32(old(self.w)@, 22, true),
            *final(r) == *final(self.w),
    {
        self.bit(true)
    }

    /// Clears the field bit
    pub fn clear_bit(self) -> (r: &'a mut W)
        ensures
            r@ == bitfield::with_bit_u32(old(self.w)@, 22, false),
            *final(r) == *final(self.w),
    {
        self.bit(false)
    }

    /// Writes raw bits to the field
    pub fn bit(self, value: bool) -> (r: &'a mut W)
        ensures
            r@ == bitfield::with_bit_u32(old(self.w)@, 22, value),
            *final(r) == *final(self.w),
    {
        let bits: u32 = bitfield::write_bit_u32(self.w.value(), 22, value);
        self.w.bits(bits)
    }
}

/// Reader of field `FMOD21`
pub type FMOD21_R = crate::gd32vf103_pac::generic::R<bool, bool>;

/// Write proxy for field `FMOD21`
pub struct FMOD21_W<'a> {
    pub w: &'a mut W,
}

impl<'a> FMOD21_W<'a> {
    /// Sets the field bit
    pub fn set_bit(self) -> (r: &'a mut W)
        ensures
            r@ == bitfield::with_bit_u32(old(self.w)@, 21, true),
            *final(r) == *final(self.w),
    {
        self.bit(true)
    }

    /// Clears the field bit
    pub fn clear_bit(self) -> (r: &'a mut W)
        ensures
            r@ == bitfield::with_bit_u32(old(self.w)@, 21, false),
            *final(r) == *final(self.w),
    {
        self.bit(false)
    }

    /// Writes raw bits to the field
    pub fn bit(self, value: bool) -> (r: &'a mut W)
        ensures
            r@ == bitfield::with_bit_u32(old(self.w)@, 21, value),
            *final(r) == *final(self.w),
    {
        let bits: u32 = bitfield::write_bit_u32(self.w.value(), 21, value);
        self.w.bits(bits)
    }
}

/// Reader of field `FMOD20`
pub type FMOD20_R = crate::gd32vf103_pac::generic::R<bool, bool>;

/// Write proxy for field `FMOD20`
pub struct FMOD20_W<'a> {
    pub w: &'a mut W,
}

impl<'a> FMOD20_W<'a> {
    /// Sets the field bit
    pub fn set_bit(self) -> (r: &'a mut W)
        ensures
            r@ == bitfield::with_bit_u32(old(self.w)@, 20, true),
            *final(r) == *final(self.w),
    {
        self.bit(true)
    }

    /// Clears the field bit
    pub fn clear_bit(self) -> (r: &'a mut W)
        ensures
            r@ == bitfield::with_bit_u32(old(self.w)@, 20, false),
            *final(r) == *final(self.w),
    {
        self.bit(false)
    }

    /// Writes raw bits to the field
    pub fn bit(self, value: bool) -> (r: &'a mut W)
        ensures
            r@ == bitfield::with_bit_u32(old(self.w)@, 20, value),
            *final(r) == *final(self.w),
    {
        let bits: u32 = bitfield::write_bit_u32(self.w.value(), 20, value);
        self.w.bits(bits)
    }
}

/// Reader of field `FMOD19`
pub type FMOD19_R = crate::gd32vf103_pac::generic::R<bool, bool>;

/// Write proxy for field `FMOD19`
pub struct FMOD19_W<'a> {
    pub w: &'a mut W,
}

impl<'a> FMOD19_W<'a> {
    /// Sets the field bit
    pub fn set_bit(self) -> (r: &'a mut W)
        ensures
            r@ == bitfield::with_bit_u32(old(self.w)@, 19, true),
            *final(r) == *final(self.w),
    {
        self.bit(true)
    }

    /// Clears the field bit
    pub fn clear_bit(self) -> (r: &'a mut W)
        ensures
            r@ == bitfield::with_bit_u32(old(self.w)@, 19, false),
            *final(r) == *final(self.w),
    {
        self.bit(false)
    }

    /// Writes raw bits to the field
    pub fn bit(self, value: bool) -> (r: &'a mut W)
        ensures
            r@ == bitfield::with_bit_u32(old(self.w)@, 19, value),
            *final(r) == *final(self.w),
    {
        let bits: u32 = bitfield::write_bit_u32(self.w.value(), 19, value);
        self.w.bits(bits)
    }
}

/// Reader of field `FMOD18`
pub type FMOD18_R = crate::gd32vf103_pac::generic::R<bool, bool>;

/// Write proxy for field `FMOD18`
pub struct FMOD18_W<'a> {
    pub w: &'a mut W,
}

impl<'a> FMOD18_W<'a> {
    /// Sets the field bit
    pub fn set_bit(self) -> (r: &'a mut W)
        ensures
            r@ == bitfield::with_bit_u32(old(self.w)@, 18, true),
            *final(r) == *final(self.w),
    {
        self.bit(true)
    }

    /// Clears the field bit
    pub fn clear_bit(self) -> (r: &'a mut W)
        ensures
            r@ == bitfield::with_bit_u32(old(self.w)@, 18, false),
            *final(r) == *final(self.w),
    {
        self.bit(false)
    }

    /// Writes raw bits to the field
    pub fn bit(self, value: bool) -> (r: &'a mut W)
        ensures
            r@ == bitfield::with_bit_u32(old(self.w)@, 18, value),
            *final(r) == *final(self.w),
    {
        let bits: u32 = bitfield::write_bit_u32(self.w.value(), 18, value);
        self.w.bits(bits)
    }
}

/// Reader of field `FMOD17`
pub type FMOD17_R = crate::gd32vf103_pac::generic::R<bool, bool>;

/// Write proxy for field `FMOD17`
pub struct FMOD17_W<'a> {
    pub w: &'a mut W,
}

impl<'a> FMOD17_W<'a> {
    /// Sets the field bit
    pub fn set_bit(self) -> (r: &'a mut W)
        ensures
            r@ == bitfield::with_bit_u32(old(self.w)@, 17, true),
            *final(r) == *final(self.w),
    {
        self.bit(true)
    }

    /// Clears the field bit
    pub fn clear_bit(self) -> (r: &'a mut W)
        ensures
            r@ == bitfield::with_bit_u32(old(self.w)@, 17, false),
            *final(r) == *final(self.w),
    {
        self.bit(false)
    }

    /// Writes raw bits to the field
    pub fn bit(self, value: bool) -> (r: &'a mut W)
        ensures
            r@ == bitfield::with_bit_u32(old(self.w)@, 17, value),
            *final(r) == *final(self.w),
    {
        let bits: u32 = bitfield::write_bit_u32(self.w.value(), 17, value);
        self.w.bits(bits)
    }
}

/// Reader of field `FMOD16`
pub type FMOD16_R = crate::gd32vf103_pac::generic::R<bool, bool>;

/// Write proxy for field `FMOD16`
pub struct FMOD16_W<'a> {
    pub w: &'a mut W,
}

impl<'a> FMOD16_W<'a> {
    /// Sets the field bit
    pub fn set_bit(self) -> (r: &'a mut W)
        ensures
            r@ == bitfield::with_bit_u32(old(self.w)@, 16, true),
            *final(r) == *final(self.w),
    {
        self.bit(true)
    }

    /// Clears the field bit
    pub fn clear_bit(self) -> (r: &'a mut W)
        ensures
            r@ == bitfield::with_bit_u32(old(self.w)@, 16, false),
            *final(r) == *final(self.w),
    {
        self.bit(false)
    }

    /// Writes raw bits to the field
    pub fn bit(self, value: bool) -> (r: &'a mut W)
        ensures
            r@ == bitfield::with_bit_u32(old(self.w)@, 16, value),
            *final(r) == *final(self.w),
    {
        let bits: u32 = bitfield::write_bit_u32(self.w.value(), 16, value);
        self.w.bits(bits)
    }
}

/// Reader of field `FMOD15`
pub type FMOD15_R = crate::gd32vf103_pac::generic::R<bool, bool>;

/// Write proxy for field `FMOD15`
pub struct FMOD15_W<'a> {
    pub w: &'a mut W,
}

impl<'a> FMOD15_W<'a> {
    /// Sets the field bit
    pub fn set_bit(self) -> (r: &'a mut W)
        ensures
            r@ == bitfield::with_bit_u32(old(self.w)@, 15, true),
            *final(r) == *final(self.w),
    {
        self.bit(true)
    }

    /// Clears the field bit
    pub fn clear_bit(self) -> (r: &'a mut W)
        ensures
            r@ == bitfield::with_bit_u32(old(self.w)@, 15, false),
            *final(r) == *final(self.w),
    {
        self.bit(false)
    }

    /// Writes raw bits to the field
    pub fn bit(self, value: bool) -> (r: &'a mut W)
        ensures
            r@ == bitfield::with_bit_u32(old(self.w)@, 15, value),
            *final(r) == *final(self.w),
    {
        let bits: u32 = bitfield::write_bit_u32(self.w.value(), 15, value);
        self.w.bits(bits)
    }
}

/// Reader of field `FMOD14`
pub type FMOD14_R = crate::gd32vf103_pac::generic::R<bool, bool>;

/// Write proxy for field `FMOD14`
pub struct FMOD14_W<'a> {
    pub w: &'a mut W,
}

impl<'a> FMOD14_W<'a> {
    /// Sets the field bit
    pub fn set_bit(self) -> (r: &'a mut W)
        ensures
            r@ == bitfield::with_bit_u32(old(self.w)@, 14, true),
            *final(r) == *final(self.w),
    {
        self.bit(true)
    }

    /// Clears the field bit
    pub fn clear_bit(self) -> (r: &'a mut W)
        ensures
            r@ == bitfield::with_bit_u32(old(self.w)@, 14, false),
            *final(r) == *final(self.w),
    {
        self.bit(false)
    }

    /// Writes raw bits to the field
    pub fn bit(self, value: bool) -> (r: &'a mut W)
        ensures
            r@ == bitfield::with_bit_u32(old(self.w)@, 14, value),
            *final(r) == *final(self.w),
    {
        let bits: u32 = bitfield::write_bit_u32(self.w.value(), 14, value);
        self.w.bits(bits)
    }
}

/// Reader of field `FMOD13`
pub type FMOD13_R = crate::gd32vf103_pac::generic::R<bool, bool>;

/// Write proxy for field `FMOD13`
pub struct FMOD13_W<'a> {
    pub w: &'a mut W,
}

impl<'a> FMOD13_W<'a> {
    /// Sets the field bit
    pub fn set_bit(self) -> (r: &'a mut W)
        ensures
            r@ == bitfield::with_bit_u32(old(self.w)@, 13, true),
            *final(r) == *final(self.w),
    {
        self.bit(true)
    }

    /// Clears the field bit
    pub fn clear_bit(self) -> (r: &'a mut W)
        ensures
            r@ == bitfield::with_bit_u32(old(self.w)@, 13, false),
            *final(r) == *final(self.w),
    {
        self.bit(false)
    }

    /// Writes raw bits to the field
    pub fn bit(self, value: bool) -> (r: &'a mut W)
        ensures
            r@ == bitfield::with_bit_u32(old(self.w)@, 13, value),
            *final(r) == *final(self.w),
    {
        let bits: u32 = bitfield::write_bit_u32(self.w.value(), 13, value);
        self.w.bits(bits)
    }
}

/// Reader of field `FMOD12`
pub type FMOD12_R = crate::gd32vf103_pac::generic::R<bool, bool>;

/// Write proxy for field `FMOD12`
pub struct FMOD12_W<'a> {
    pub w: &'a mut W,
}

impl<'a> FMOD12_W<'a> {
    /// Sets the field bit
    pub fn set_bit(self) -> (r: &'a mut W)
        ensures
            r@ == bitfield::with_bit_u32(old(self.w)@, 12, true),
            *final(r) == *final(self.w),
    {
        self.bit(true)
    }

    /// Clears the field bit
    pub fn clear_bit(self) -> (r: &'a mut W)
        ensures
            r@ == bitfield::with_bit_u32(old(self.w)@, 12, false),
            *final(r) == *final(self.w),
    {
        self.bit(false)
    }

    /// Writes raw bits to the field
    pub fn bit(self, value: bool) -> (r: &'a mut W)
        ensures
            r@ == bitfield::with_bit_u32(old(self.w)@, 12, value),
            *final(r) == *final(self.w),
    {
        let bits: u32 = bitfield::write_bit_u32(self.w.value(), 12, value);
        self.w.bits(bits)
    }
}

/// Reader of field `FMOD11`
pub type FMOD11_R = crate::gd32vf103_pac::generic::R<bool, bool>;

/// Write proxy for field `FMOD11`
pub struct FMOD11_W<'a> {
    pub w: &'a mut W,
}

impl<'a> FMOD11_W<'a> {
    /// Sets the field bit
    pub fn set_bit(self) -> (r: &'a mut W)
        ensures
            r@ == bitfield::with_bit_u32(old(self.w)@, 11, true),
            *final(r) == *final(self.w),
    {
        self.bit(true)
    }

    /// Clears the field bit
    pub fn clear_bit(self) -> (r: &'a mut W)
        ensures
            r@ == bitfield::with_bit_u32(old(self.w)@, 11, false),
            *final(r) == *final(self.w),
    {
        self.bit(false)
    }

    /// Writes raw bits to the field
    pub fn bit(self, value: bool) -> (r: &'a mut W)
        ensures
            r@ == bitfield::with_bit_u32(old(self.w)@, 11, value),
            *final(r) == *final(self.w),
    {
        let bits: u32 = bitfield::write_bit_u32(self.w.value(), 11, value);
        self.w.bits(bits)
    }
}

/// Reader of field `FMOD10`
pub type FMOD10_R = crate::gd32vf103_pac::generic::R<bool, bool>;

/// Write proxy for field `FMOD10`
pub struct FMOD10_W<'a> {
    pub w: &'a mut W,
}

impl<'a> FMOD10_W<'a> {
    /// Sets the field bit
    pub fn set_bit(self) -> (r: &'a mut W)
        ensures
            r@ == bitfield::with_bit_u32(old(self.w)@, 10, true),
            *final(r) == *final(self.w),
    {
        self.bit(true)
    }

    /// Clears the field bit
    pub fn clear_bit(self) -> (r: &'a mut W)
        ensures
            r@ == bitfield::with_bit_u32(old(self.w)@, 10, false),
            *final(r) == *final(self.w),
    {
        self.bit(false)
    }

    /// Writes raw bits to the field
    pub fn bit(self, value: bool) -> (r: &'a mut W)
        ensures
            r@ == bitfield::with_bit_u32(old(self.w)@, 10, value),
            *final(r) == *final(self.w),
    {
        let bits: u32 = bitfield::write_bit_u32(self.w.value(), 10, value);
        self.w.bits(bits)
    }
}

/// Reader of field `FMOD9`
pub type FMOD9_R = crate::gd32vf103_pac::generic::R<bool, bool>;

/// Write proxy for field `FMOD9`
pub struct FMOD9_W<'a> {
    pub w: &'a mut W,
}

impl<'a> FMOD9_W<'a> {
    /// Sets the field bit
    pub fn set_bit(self) -> (r: &'a mut W)
        ensures
            r@ == bitfield::with_bit_u32(old(self.w)@, 9, true),
            *final(r) == *final(self.w),
    {
        self.bit(true)
    }

    /// Clears the field bit
    pub fn clear_bit(self) -> (r: &'a mut W)
        ensures
            r@ == bitfield::with_bit_u32(old(self.w)@, 9, false),
            *final(r) == *final(self.w),
    {
        self.bit(false)
    }

    /// Writes raw bits to the field
    pub fn bit(self, value: bool) -> (r: &'a mut W)
        ensures
            r@ == bitfield::with_bit_u32(old(self.w)@, 9, value),
            *final(r) == *final(self.w),
    {
        let bits: u32 = bitfield::write_bit_u32(self.w.value(), 9, value);
        self.w.bits(bits)
    }
}

/// Reader of field `FMOD8`
pub type FMOD8_R = crate::gd32vf103_pac::generic::R<bool, bool>;

/// Write proxy for field `FMOD8`
pub struct FMOD8_W<'a> {
    pub w: &'a mut W,
}

impl<'a> FMOD8_W<'a> {
    /// Sets the field bit
    pub fn set_bit(self) -> (r: &'a mut W)
        ensures
            r@ == bitfield::with_bit_u32(old(self.w)@, 8, true),
            *final(r) == *final(self.w),
    {
        self.bit(true)
    }

    /// Clears the field bit
    pub fn clear_bit(self) -> (r: &'a mut W)
        ensures
            r@ == bitfield::with_bit_u32(old(self.w)@, 8, false),
            *final(r) == *final(self.w),
    {
        self.bit(false)
    }

    /// Writes raw bits to the field
    pub fn bit(self, value: bool) -> (r: &'a mut W)
        ensures
            r@ == bitfield::with_bit_u32(old(self.w)@, 8, value),
            *final(r) == *final(self.w),
    {
        let bits: u32 = bitfield::write_bit_u32(self.w.value(), 8, value);
        self.w.bits(bits)
    }
}

/// Reader of field `FMOD7`
pub type FMOD7_R = crate::gd32vf103_pac::generic::R<bool, bool>;

/// Write proxy for field `FMOD7`
pub struct FMOD7_W<'a> {
    pub w: &'a mut W,
}

impl<'a> FMOD7_W<'a> {
    /// Sets the field bit
    pub fn set_bit(self) -> (r: &'a mut W)
        ensures
            r@ == bitfield::with_bit_u32(old(self.w)@, 7, true),
            *final(r) == *final(self.w),
    {
        self.bit(true)
    }

    /// Clears the field bit
    pub fn clear_bit(self) -> (r: &'a mut W)
        ensures
            r@ == bitfield::with_bit_u32(old(self.w)@, 7, false),
            *final(r) == *final(self.w),
    {
        self.bit(false)
    }

    /// Writes raw bits to the field
    pub fn bit(self, value: bool) -> (r: &'a mut W)
        ensures
            r@ == bitfield::with_bit_u32(old(self.w)@, 7, value),
            *final(r) == *final(self.w),
    {
        let bits: u32 = bitfield::write_bit_u32(self.w.value(), 7, value);
        self.w.bits(bits)
    }
}

/// Reader of field `FMOD6`
pub type FMOD6_R = crate::gd32vf103_pac::generic::R<bool, bool>;

/// Write proxy for field `FMOD6`
pub struct FMOD6_W<'a> {
    pub w: &'a mut W,
}

impl<'a> FMOD6_W<'a> {
    /// Sets the field bit
    pub fn set_bit(self) -> (r: &'a mut W)
        ensures
            r@ == bitfield::with_bit_u32(old(self.w)@, 6, true),
            *final(r) == *final(self.w),
    {
        self.bit(true)
    }

    /// Clears the field bit
    pub fn clear_bit(self) -> (r: &'a mut W)
        ensures
            r@ == bitfield::with_bit_u32(old(self.w)@, 6, false),
            *final(r) == *final(self.w),
    {
        self.bit(false)
    }

    /// Writes raw bits to the field
    pub fn bit(self, value: bool) -> (r: &'a mut W)
        ensures
            r@ == bitfield::with_bit_u32(old(self.w)@, 6, value),
            *final(r) == *final(self.w),
    {
        let bits: u32 = bitfield::write_bit_u32(self.w.value(), 6, value);
        self.w.bits(bits)
    }
}

/// Reader of field `FMOD5`
pub type FMOD5_R = crate::gd32vf103_pac::generic::R<bool, bool>;

/// Write proxy for field `FMOD5`
pub struct FMOD5_W<'a> {
    pub w: &'a mut W,
}

impl<'a> FMOD5_W<'a> {
    /// Sets the field bit
    pub fn set_bit(self) -> (r: &'a mut W)
        ensures
            r@ == bitfield::with_bit_u32(old(self.w)@, 5, true),
            *final(r) == *final(self.w),
    {
        self.bit(true)
    }

    /// Clears the field bit
    pub fn clear_bit(self) -> (r: &'a mut W)
        ensures
            r@ == bitfield::with_bit_u32(old(self.w)@, 5, false),
            *final(r) == *final(self.w),
    {
        self.bit(false)
    }

    /// Writes raw bits to the field
    pub fn bit(self, value: bool) -> (r: &'a mut W)
        ensures
            r@ == bitfield::with_bit_u32(old(self.w)@, 5, value),
            *final(r) == *final(self.w),
    {
        let bits: u32 = bitfield::write_bit_u32(self.w.value(), 5, value);
        self.w.bits(bits)
    }
}

/// Reader of field `FMOD4`
pub type FMOD4_R = crate::gd32vf103_pac::generic::R<bool, bool>;

/// Write proxy for field `FMOD4`
pub struct FMOD4_W<'a> {
    pub w: &'a mut W,
}

impl<'a> FMOD4_W<'a> {
    /// Sets the field bit
    pub fn set_bit(self) -> (r: &'a mut W)
        ensures
            r@ == bitfield::with_bit_u32(old(self.w)@, 4, true),
            *final(r) == *final(self.w),
    {
        self.bit(true)
    }

    /// Clears the field bit
    pub fn clear_bit(self) -> (r: &'a mut W)
        ensures
            r@ == bitfield::with_bit_u32(old(self.w)@, 4, false),
            *final(r) == *final(self.w),
    {
        self.bit(false)
    }

    /// Writes raw bits to the field
    pub fn bit(self, value: bool) -> (r: &'a mut W)
        ensures
            r@ == bitfield::with_bit_u32(old(self.w)@, 4, value),
            *final(r) == *final(self.w),
    {
        let bits: u32 = bitfield::write_bit_u32(self.w.value(), 4, value);
        self.w.bits(bits)
    }
}

/// Reader of field `FMOD3`
pub type FMOD3_R = crate::gd32vf103_pac::generic::R<bool, bool>;

/// Write proxy for field `FMOD3`
pub struct FMOD3_W<'a> {
    pub w: &'a mut W,
}

impl<'a> FMOD3_W<'a> {
    /// Sets the field bit
    pub fn set_bit(self) -> (r: &'a mut W)
        ensures
            r@ == bitfield::with_bit_u32(old(self.w)@, 3, true),
            *final(r) == *final(self.w),
    {
        self.bit(true)
    }

    /// Clears the field bit
    pub fn clear_bit(self) -> (r: &'a mut W)
        ensures
            r@ == bitfield::with_bit_u32(old(self.w)@, 3, false),
            *final(r) == *final(self.w),
    {
        self.bit(false)
    }

    /// Writes raw bits to the field
    pub fn bit(self, value: bool) -> (r: &'a mut W)
        ensures
            r@ == bitfield::with_bit_u32(old(self.w)@, 3, value),
            *final(r) == *final(self.w),
    {
        let bits: u32 = bitfield::write_bit_u32(self.w.value(), 3, value);
        self.w.bits(bits)
    }
}

/// Reader of field `FMOD2`
pub type FMOD2_R = crate::gd32vf103_pac::generic::R<bool, bool>;

/// Write proxy for field `FMOD2`
pub struct FMOD2_W<'a> {
    pub w: &'a mut W,
}

impl<'a> FMOD2_W<'a> {
    /// Sets the field bit
    pub fn set_bit(self) -> (r: &'a mut W)
        ensures
            r@ == bitfield::with_bit_u32(old(self.w)@, 2, true),
            *final(r) == *final(self.w),
    {
        self.bit(true)
    }

    /// Clears the field bit
    pub fn clear_bit(self) -> (r: &'a mut W)
        ensures
            r@ == bitfield::with_bit_u32(old(self.w)@, 2, false),
            *final(r) == *final(self.w),
    {
        self.bit(false)
    }

    /// Writes raw bits to the field
    pub fn bit(self, value: bool) -> (r: &'a mut W)
        ensures
            r@ == bitfield::with_bit_u32(old(self.w)@, 2, value),
            *final(r) == *final(self.w),
    {
        let bits: u32 = bitfield::write_bit_u32(self.w.value(), 2, value);
        self.w.bits(bits)
    }
}

/// Reader of field `FMOD1`
pub type FMOD1_R = crate::gd32vf103_pac::generic::R<bool, bool>;

/// Write proxy for field `FMOD1`
pub struct FMOD1_W<'a> {
    pub w: &'a mut W,
}

impl<'a> FMOD1_W<'a> {
    /// Sets the field bit
    pub fn set_bit(self) -> (r: &'a mut W)
        ensures
            r@ == bitfield::with_bit_u32(old(self.w)@, 1, true),
            *final(r) == *final(self.w),
    {
        self.bit(true)
    }

    /// Clears the field bit
    pub fn clear_bit(self) -> (r: &'a mut W)
        ensures
            r@ == bitfield::with_bit_u32(old(self.w)@, 1, false),
            *final(r) == *final(self.w),
    {
        self.bit(false)
    }

    /// Writes raw bits to the field
    pub fn bit(self, value: bool) -> (r: &'a mut W)
        ensures
            r@ == bitfield::with_bit_u32(old(self.w)@, 1, value),
            *final(r) == *final(self.w),
    {
        let bits: u32 = bitfield::write_bit_u32(self.w.value(), 1, value);
        self.w.bits(bits)
    }
}

/// Reader of field `FMOD0`
pub type FMOD0_R = crate::gd32vf103_pac::generic::R<bool, bool>;

/// Write proxy for field `FMOD0`
pub struct FMOD0_W<'a> {
    pub w: &'a mut W,
}

impl<'a> FMOD0_W<'a> {
    /// Sets the field bit
    pub fn set_bit(self) -> (r: &'a mut W)
        ensures
            r@ == bitfield::with_bit_u32(old(self.w)@, 0, true),
            *final(r) == *final(self.w),
    {
        self.bit(true)
    }

    /// Clears the field bit
    pub fn clear_bit(self) -> (r: &'a mut W)
        ensures
            r@ == bitfield::with_bit_u32(old(self.w)@, 0, false),
            *final(r) == *final(self.w),
    {
        self.bit(false)
    }

    /// Writes raw bits to the field
    pub fn bit(self, value: bool) -> (r: &'a mut W)
        ensures
            r@ == bitfield::with_bit_u32(old(self.w)@, 0, value),
            *final(r) == *final(self.w),
    {
        let bits: u32 = bitfield::write_bit_u32(self.w.value(), 0, value);
        self.w.bits(bits)
    }
}

impl R {
    /// Bit 27 - Filter mode
    pub fn fmod27(&self) -> (r: FMOD27_R)
        ensures
            r@ == bitfield::bit_u32(self@, 27),
    {
        FMOD27_R::new(bitfield::read_bit_u32(self.bits(), 27))
    }

    /// Bit 26 - Filter mode
    pub fn fmod26(&self) -> (r: FMOD26_R)
        ensures
            r@ == bitfield::bit_u32(self@, 26),
    {
        FMOD26_R::new(bitfield::read_bit_u32(self.bits(), 26))
    }

    /// Bit 25 - Filter mode
    pub fn fmod25(&self) -> (r: FMOD25_R)
        ensures
            r@ == bitfield::bit_u32(self@, 25),
    {
        FMOD25_R::new(bitfield::read_bit_u32(self.bits(), 25))
    }

    /// Bit 24 - Filter mode
    pub fn fmod24(&self) -> (r: FMOD24_R)
        ensures
            r@ == bitfield::bit_u32(self@, 24),
    {
        FMOD24_R::new(bitfield::read_bit_u32(self.bits(), 24))
    }

    /// Bit 23 - Filter mode
    pub fn fmod23(&self) -> (r: FMOD23_R)
        ensures
            r@ == bitfield::bit_u32(self@, 23),
    {
        FMOD23_R::new(bitfield::read_bit_u32(self.bits(), 23))
    }

    /// Bit 22 - Filter mode
    pub fn fmod22(&self) -> (r: FMOD22_R)
        ensures
            r@ == bitfield::bit_u32(self@, 22),
    {
        FMOD22_R::new(bitfield::read_bit_u32(self.bits(), 22))
    }

    /// Bit 21 - Filter mode
    pub fn fmod21(&self) -> (r: FMOD21_R)
        ensures
            r@ == bitfield::bit_u32(self@, 21),
    {
        FMOD21_R::new(bitfield::read_bit_u32(self.bits(), 21))
    }

    /// Bit 20 - Filter mode
    pub fn fmod20(&self) -> (r: FMOD20_R)
        ensures
            r@ == bitfield::bit_u32(self@, 20),
    {
        FMOD20_R::new(bitfield::read_bit_u32(self.bits(), 20))
    }

    /// Bit 19 - Filter mode
    pub fn fmod19(&self) -> (r: FMOD19_R)
        ensures
            r@ == bitfield::bit_u32(self@, 19),
    {
        FMOD19_R::new(bitfield::read_bit_u32(self.bits(), 19))
    }

    /// Bit 18 - Filter mode
    pub fn fmod18(&self) -> (r: FMOD18_R)
        ensures
            r@ == bitfield::bit_u32(self@, 18),
    {
        FMOD18_R::new(bitfield::read_bit_u32(self.bits(), 18))
    }

    /// Bit 17 - Filter mode
    pub fn fmod17(&self) -> (r: FMOD17_R)
        ensures
            r@ == bitfield::bit_u32(self@, 17),
    {
        FMOD17_R::new(bitfield::read_bit_u32(self.bits(), 17))
    }

    /// Bit 16 - Filter mode
    pub fn fmod16(&self) -> (r: FMOD16_R)
        ensures
            r@ == bitfield::bit_u32(self@, 16),
    {
        FMOD16_R::new(bitfield::read_bit_u32(self.bits(), 16))
    }

    /// Bit 15 - Filter mode
    pub fn fmod15(&self) -> (r: FMOD15_R)
        ensures
            r@ == bitfield::bit_u32(self@, 15),
    {
        FMOD15_R::new(bitfield::read_bit_u32(self.bits(), 15))
    }

    /// Bit 14 - Filter mode
    pub fn fmod14(&self) -> (r: FMOD14_R)
        ensures
            r@ == bitfield::bit_u32(self@, 14),
    {
        FMOD14_R::new(bitfield::read_bit_u32(self.bits(), 14))
    }

    /// Bit 13 - Filter mode
    pub fn fmod13(&self) -> (r: FMOD13_R)
        ensures
            r@ == bitfield::bit_u32(self@, 13),
    {
        FMOD13_R::new(bitfield::read_bit_u32(self.bits(), 13))
    }

    /// Bit 12 - Filter mode
    pub fn fmod12(&self) -> (r: FMOD12_R)
        ensures
            r@ == bitfield::bit_u32(self@, 12),
    {
        FMOD12_R::new(bitfield::read_bit_u32(self.bits(), 12))
    }

    /// Bit 11 - Filter mode
    pub fn fmod11(&self) -> (r: FMOD11_R)
        ensures
            r@ == bitfield::bit_u32(self@, 11),
    {
        FMOD11_R::new(bitfield::read_bit_u32(self.bits(), 11))
    }

    /// Bit 10 - Filter mode
    pub fn fmod10(&self) -> (r: FMOD10_R)
        ensures
            r@ == bitfield::bit_u32(self@, 10),
    {
        FMOD10_R::new(bitfield::read_bit_u32(self.bits(), 10))
    }

    /// Bit 9 - Filter mode
    pub fn fmod9(&self) -> (r: FMOD9_R)
        ensures
            r@ == bitfield::bit_u32(self@, 9),
    {
        FMOD9_R::new(bitfield::read_bit_u32(self.bits(), 9))
    }

    /// Bit 8 - Filter mode
    pub fn fmod8(&self) -> (r: FMOD8_R)
        ensures
            r@ == bitfield::bit_u32(self@, 8),
    {
        FMOD8_R::new(bitfield::read_bit_u32(self.bits(), 8))
    }

    /// Bit 7 - Filter mode
    pub fn fmod7(&self) -> (r: FMOD7_R)
        ensures
            r@ == bitfield::bit_u32(self@, 7),
    {
        FMOD7_R::new(bitfield::read_bit_u32(self.bits(), 7))
    }

    /// Bit 6 - Filter mode
    pub fn fmod6(&self) -> (r: FMOD6_R)
        ensures
            r@ == bitfield::bit_u32(self@, 6),
    {
        FMOD6_R::new(bitfield::read_bit_u32(self.bits(), 6))
    }

    /// Bit 5 - Filter mode
    pub fn fmod5(&self) -> (r: FMOD5_R)
        ensures
            r@ == bitfield::bit_u32(self@, 5),
    {
        FMOD5_R::new(bitfield::read_bit_u32(self.bits(), 5))
    }

    /// Bit 4 - Filter mode
    pub fn fmod4(&self) -> (r: FMOD4_R)
        ensures
            r@ == bitfield::bit_u32(self@, 4),
    {
        FMOD4_R::new(bitfield::read_bit_u32(self.bits(), 4))
    }

    /// Bit 3 - Filter mode
    pub fn fmod3(&self) -> (r: FMOD3_R)
        ensures
            r@ == bitfield::bit_u32(self@, 3),
    {
        FMOD3_R::new(bitfield::read_bit_u32(self.bits(), 3))
    }

    /// Bit 2 - Filter mode
    pub fn fmod2(&self) -> (r: FMOD2_R)
        ensures
            r@ == bitfield::bit_u32(self@, 2),
    {
        FMOD2_R::new(bitfield::read_bit_u32(self.bits(), 2))
    }

    /// Bit 1 - Filter mode
    pub fn fmod1(&self) -> (r: FMOD1_R)
        ensures
            r@ == bitfield::bit_u32(self@, 1),
    {
        FMOD1_R::new(bitfield::read_bit_u32(self.bits(), 1))
    }

    /// Bit 0 - Filter mode
    pub fn fmod0(&self) -> (r: FMOD0_R)
        ensures
            r@ == bitfield::bit_u32(self@, 0),
    {
        FMOD0_R::new(bitfield::read_bit_u32(self.bits(), 0))
    }
}

impl W {
    /// Bit 27 - Filter mode
    pub fn fmod27(&mut self) -> (r: FMOD27_W<'_>)
        ensures
            *r.w == *old(self),
            *final(r.w) == *final(self),
    {
        FMOD27_W { w: self }
    }

    /// Bit 26 - Filter mode
    pub fn fmod26(&mut self) -> (r: FMOD26_W<'_>)
        ensures
            *r.w == *old(self),
            *final(r.w) == *final(self),
    {
        FMOD26_W { w: self }
    }

    /// Bit 25 - Filter mode
    pub fn fmod25(&mut self) -> (r: FMOD25_W<'_>)
        ensures
            *r.w == *old(self),
            *final(r.w) == *final(self),
    {
        FMOD25_W { w: self }
    }

    /// Bit 24 - Filter mode
    pub fn fmod24(&mut self) -> (r: FMOD24_W<'_>)
        ensures
            *r.w == *old(self),
            *final(r.w) == *final(self),
    {
        FMOD24_W { w: self }
    }

    /// Bit 23 - Filter mode
    pub fn fmod23(&mut self) -> (r: FMOD23_W<'_>)
        ensures
            *r.w == *old(self),
            *final(r.w) == *final(self),
    {
        FMOD23_W { w: self }
    }

    /// Bit 22 - Filter mode
    pub fn fmod22(&mut self) -> (r: FMOD22_W<'_>)
        ensures
            *r.w == *old(self),
            *final(r.w) == *final(self),
    {
        FMOD22_W { w: self }
    }

    /// Bit 21 - Filter mode
    pub fn fmod21(&mut self) -> (r: FMOD21_W<'_>)
        ensures
            *r.w == *old(self),
            *final(r.w) == *final(self),
    {
        FMOD21_W { w: self }
    }

    /// Bit 20 - Filter mode
    pub fn fmod20(&mut self) -> (r: FMOD20_W<'_>)
        ensures
            *r.w == *old(self),
            *final(r.w) == *final(self),
    {
        FMOD20_W { w: self }
    }

    /// Bit 19 - Filter mode
    pub fn fmod19(&mut self) -> (r: FMOD19_W<'_>)
        ensures
            *r.w == *old(self),
            *final(r.w) == *final(self),
    {
        FMOD19_W { w: self }
    }

    /// Bit 18 - Filter mode
    pub fn fmod18(&mut self) -> (r: FMOD18_W<'_>)
        ensures
            *r.w == *old(self),
            *final(r.w) == *final(self),
    {
        FMOD18_W { w: self }
    }

    /// Bit 17 - Filter mode
    pub fn fmod17(&mut self) -> (r: FMOD17_W<'_>)
        ensures
            *r.w == *old(self),
            *final(r.w) == *final(self),
    {
        FMOD17_W { w: self }
    }

    /// Bit 16 - Filter mode
    pub fn fmod16(&mut self) -> (r: FMOD16_W<'_>)
        ensures
            *r.w == *old(self),
            *final(r.w) == *final(self),
    {
        FMOD16_W { w: self }
    }

    /// Bit 15 - Filter mode
    pub fn fmod15(&mut self) -> (r: FMOD15_W<'_>)
        ensures
            *r.w == *old(self),
            *final(r.w) == *final(self),
    {
        FMOD15_W { w: self }
    }

    /// Bit 14 - Filter mode
    pub fn fmod14(&mut self) -> (r: FMOD14_W<'_>)
        ensures
            *r.w == *old(self),
            *final(r.w) == *final(self),
    {
        FMOD14_W { w: self }
    }

    /// Bit 13 - Filter mode
    pub fn fmod13(&mut self) -> (r: FMOD13_W<'_>)
        ensures
            *r.w == *old(self),
            *final(r.w) == *final(self),
    {
        FMOD13_W { w: self }
    }

    /// Bit 12 - Filter mode
    pub fn fmod12(&mut self) -> (r: FMOD12_W<'_>)
        ensures
            *r.w == *old(self),
            *final(r.w) == *final(self),
    {
        FMOD12_W { w: self }
    }

    /// Bit 11 - Filter mode
    pub fn fmod11(&mut self) -> (r: FMOD11_W<'_>)
        ensures
            *r.w == *old(self),
            *final(r.w) == *final(self),
    {
        FMOD11_W { w: self }
    }

    /// Bit 10 - Filter mode
    pub fn fmod10(&mut self) -> (r: FMOD10_W<'_>)
        ensures
            *r.w == *old(self),
            *final(r.w) == *final(self),
    {
        FMOD10_W { w: self }
    }

    /// Bit 9 - Filter mode
    pub fn fmod9(&mut self) -> (r: FMOD9_W<'_>)
        ensures
            *r.w == *old(self),
            *final(r.w) == *final(self),
    {
        FMOD9_W { w: self }
    }

    /// Bit 8 - Filter mode
    pub fn fmod8(&mut self) -> (r: FMOD8_W<'_>)
        ensures
            *r.w == *old(self),
            *final(r.w) == *final(self),
    {
        FMOD8_W { w: self }
    }

    /// Bit 7 - Filter mode
    pub fn fmod7(&mut self) -> (r: FMOD7_W<'_>)
        ensures
            *r.w == *old(self),
            *final(r.w) == *final(self),
    {
        FMOD7_W { w: self }
    }

    /// Bit 6 - Filter mode
    pub fn fmod6(&mut self) -> (r: FMOD6_W<'_>)
        ensures
            *r.w == *old(self),
            *final(r.w) == *final(self),
    {
        FMOD6_W { w: self }
    }

    /// Bit 5 - Filter mode
    pub fn fmod5(&mut self) -> (r: FMOD5_W<'_>)
        ensures
            *r.w == *old(self),
            *final(r.w) == *final(self),
    {
        FMOD5_W { w: self }
    }

    /// Bit 4 - Filter mode
    pub fn fmod4(&mut self) -> (r: FMOD4_W<'_>)
        ensures
            *r.w == *old(self),
            *final(r.w) == *final(self),
    {
        FMOD4_W { w: self }
    }

    /// Bit 3 - Filter mode
    pub fn fmod3(&mut self) -> (r: FMOD3_W<'_>)
        ensures
            *r.w == *old(self),
            *final(r.w) == *final(self),
    {
        FMOD3_W { w: self }
    }

    /// Bit 2 - Filter mode
    pub fn fmod2(&mut self) -> (r: FMOD2_W<'_>)
        ensures
            *r.w == *old(self),
            *final(r.w) == *final(self),
    {
        FMOD2_W { w: self }
    }

    /// Bit 1 - Filter mode
    pub fn fmod1(&mut self) -> (r: FMOD1_W<'_>)
        ensures
            *r.w == *old(self),
            *final(r.w) == *final(self),
    {
        FMOD1_W { w: self }
    }

    /// Bit 0 - Filter mode
    pub fn fmod0(&mut self) -> (r: FMOD0_W<'_>)
        ensures
            *r.w == *old(self),
            *final(r.w) == *final(self),
    {
        FMOD0_W { w: self }
    }
}

} // verus!

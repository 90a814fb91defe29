use vstd::prelude::*;
use crate::bitfield;

verus! {

/// Register `WWDG_CTRL` reader
pub struct R(crate::cm32m4xxr_pac::generic::R<WWDG_CTRL_SPEC>);

impl View for R {
    type V = u32;

    closed spec fn view(&self) -> u32 {
        self.0@
    }
}

impl From<crate::cm32m4xxr_pac::generic::R<WWDG_CTRL_SPEC>> for R {
    fn from(reader: crate::cm32m4xxr_pac::generic::R<WWDG_CTRL_SPEC>) -> (r: Self)
        ensures
            r@ == reader@,
    {
        R(reader)
    }
}

impl vstd::std_specs::convert::FromSpecImpl<crate::cm32m4xxr_pac::generic::R<WWDG_CTRL_SPEC>> for R {
    open spec fn obeys_from_spec() -> bool {
        true
    }

    closed spec fn from_spec(v: crate::cm32m4xxr_pac::generic::R<WWDG_CTRL_SPEC>) -> Self {
        R(v)
    }
}

/// Register `WWDG_CTRL` writer
pub struct W(crate::cm32m4xxr_pac::generic::W<WWDG_CTRL_SPEC>);

impl View for W {
    type V = u32;

    closed spec fn view(&self) -> u32 {
        self.0@
    }
}

impl From<crate::cm32m4xxr_pac::generic::W<WWDG_CTRL_SPEC>> for W {
    fn from(writer: crate::cm32m4xxr_pac::generic::W<WWDG_CTRL_SPEC>) -> (r: Self)
        ensures
            r@ == writer@,
    {
        W(writer)
    }
}

impl vstd::std_specs::convert::FromSpecImpl<crate::cm32m4xxr_pac::generic::W<WWDG_CTRL_SPEC>> for W {
    open spec fn obeys_from_spec() -> bool {
        true
    }

    closed spec fn from_spec(v: crate::cm32m4xxr_pac::generic::W<WWDG_CTRL_SPEC>) -> Self {
        W(v)
    }
}

/// Field `T` reader - T Timer
pub type T_R = crate::cm32m4xxr_pac::generic::FieldReader<u8, u8>;

/// Field `T` writer - T Timer
pub struct T_W<'a> {
    pub w: &'a mut W,
}

impl<'a> T_W<'a> {
    /// Creates the writer of this field for `w`.
    pub fn new(w: &'a mut W) -> (r: Self)
        ensures
            *r.w == *old(w),
            *final(r.w) == *final(w),
    {
        T_W { w }
    }

    /// Writes raw bits to the field
    pub fn bits(self, value: u8) -> (r: &'a mut W)
        ensures
            r@ == bitfield::with_field_u32(old(self.w)@, 0, 7, value as u32),
            *final(r) == *final(self.w),
    {
        let bits: u32 = bitfield::write_field_u32(self.w.0.value(), 0, 7, value as u32);
        self.w.bits(bits)
    }
}

/// Field `ACTB` reader - ACTB
pub type ACTB_R = crate::cm32m4xxr_pac::generic::BitReader<bool>;

/// Field `ACTB` writer - ACTB
pub struct ACTB_W<'a> {
    pub w: &'a mut W,
}

impl<'a> ACTB_W<'a> {
    /// Creates the writer of this field for `w`.
    pub fn new(w: &'a mut W) -> (r: Self)
        ensures
            *r.w == *old(w),
            *final(r.w) == *final(w),
    {
        ACTB_W { w }
    }

    /// Sets the field bit
    pub fn set_bit(self) -> (r: &'a mut W)
        ensures
            r@ == bitfield::with_bit_u32(old(self.w)@, 7, true),
            *final(r) == *final(self.w),
    {
        self.bit(true)
    }

    /// Clears the field bit
    pub fn clear_bit(self) -> (r: &'a mut W)
        ensures
            r@ == bitfield::with_bit_u32(old(self.w)@, 7, false),
            *final(r) == *final(self.w),
    {
        self.bit(false)
    }

    /// Writes raw bits to the field
    pub fn bit(self, value: bool) -> (r: &'a mut W)
        ensures
            r@ == bitfield::with_bit_u32(old(self.w)@, 7, value),
            *final(r) == *final(self.w),
    {
        let bits: u32 = bitfield::write_bit_u32(self.w.0.value(), 7, value);
        self.w.bits(bits)
    }
}

impl R {
    /// Bits of the register as they were read.
    pub fn bits(&self) -> (r: u32)
        ensures
            r == self@,
    {
        self.0.bits()
    }

    /// Bits 0:6 - T Timer
    pub fn t(&self) -> (r: T_R)
        ensures
            r@ == bitfield::field_u32(self@, 0, 7) as u8,
    {
        T_R::new(bitfield::read_field_u32(self.bits(), 0, 7) as u8)
    }

    /// Bit 7 - ACTB
    pub fn actb(&self) -> (r: ACTB_R)
        ensures
            r@ == bitfield::bit_u32(self@, 7),
    {
        ACTB_R::new(bitfield::read_bit_u32(self.bits(), 7))
    }
}

impl W {
    /// Bits 0:6 - T Timer
    pub fn t(&mut self) -> (r: T_W<'_>)
        ensures
            *r.w == *old(self),
            *final(r.w) == *final(self),
    {
        T_W::new(self)
    }

    /// Bit 7 - ACTB
    pub fn actb(&mut self) -> (r: ACTB_W<'_>)
        ensures
            *r.w == *old(self),
            *final(r.w) == *final(self),
    {
        ACTB_W::new(self)
    }

    /// Writes raw bits to the register.
    pub fn bits(&mut self, bits: u32) -> (r: &mut Self)
        ensures
            r@ == bits,
            *final(r) == *final(self),
    {
        self.0.bits(bits);
        self
    }
}

/// WWDG_CTRL
pub struct WWDG_CTRL_SPEC;

impl crate::cm32m4xxr_pac::generic::RegisterSpec for WWDG_CTRL_SPEC {
    type Ux = u32;
}

/// `read()` gives the [R] reader of this register
impl crate::cm32m4xxr_pac::generic::Readable for WWDG_CTRL_SPEC {
    type Reader = R;

    fn reader(bits: u32) -> (r: R) {
        R(crate::cm32m4xxr_pac::generic::R::new(bits))
    }
}

/// `write()` stores the value that a [W] writer of this register holds
impl crate::cm32m4xxr_pac::generic::Writable for WWDG_CTRL_SPEC {
    type Writer = W;

    fn writer(bits: u32) -> (w: W) {
        W(crate::cm32m4xxr_pac::generic::W::new(bits))
    }

    fn writer_bits(w: &W) -> (r: u32) {
        w.0.value()
    }
}

/// `reset()` method sets WWDG_CTRL to value 0x7f
impl crate::cm32m4xxr_pac::generic::Resettable for WWDG_CTRL_SPEC {
    open spec fn reset_spec() -> u32 {
        0x7f
    }

    fn reset_value() -> (r: u32) {
        0x7f
    }
}

} // verus!

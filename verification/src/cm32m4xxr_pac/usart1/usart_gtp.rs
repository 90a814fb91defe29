use vstd::prelude::*;
use crate::bitfield;

verus! {

/// Register `USART_GTP` reader
pub struct R(crate::cm32m4xxr_pac::generic::R<USART_GTP_SPEC>);

impl View for R {
    type V = u32;

    closed spec fn view(&self) -> u32 {
        self.0@
    }
}

impl From<crate::cm32m4xxr_pac::generic::R<USART_GTP_SPEC>> for R {
    fn from(reader: crate::cm32m4xxr_pac::generic::R<USART_GTP_SPEC>) -> (r: Self)
        ensures
            r@ == reader@,
    {
        R(reader)
    }
}

impl vstd::std_specs::convert::FromSpecImpl<crate::cm32m4xxr_pac::generic::R<USART_GTP_SPEC>> for R {
    open spec fn obeys_from_spec() -> bool {
        true
    }

    closed spec fn from_spec(v: crate::cm32m4xxr_pac::generic::R<USART_GTP_SPEC>) -> Self {
        R(v)
    }
}

/// Register `USART_GTP` writer
pub struct W(crate::cm32m4xxr_pac::generic::W<USART_GTP_SPEC>);

impl View for W {
    type V = u32;

    closed spec fn view(&self) -> u32 {
        self.0@
    }
}

impl From<crate::cm32m4xxr_pac::generic::W<USART_GTP_SPEC>> for W {
    fn from(writer: crate::cm32m4xxr_pac::generic::W<USART_GTP_SPEC>) -> (r: Self)
        ensures
            r@ == writer@,
    {
        W(writer)
    }
}

impl vstd::std_specs::convert::FromSpecImpl<crate::cm32m4xxr_pac::generic::W<USART_GTP_SPEC>> for W {
    open spec fn obeys_from_spec() -> bool {
        true
    }

    closed spec fn from_spec(v: crate::cm32m4xxr_pac::generic::W<USART_GTP_SPEC>) -> Self {
        W(v)
    }
}

/// Field `PSCV` reader - PSCV
pub type PSCV_R = crate::cm32m4xxr_pac::generic::FieldReader<u8, u8>;

/// Field `PSCV` writer - PSCV
pub struct PSCV_W<'a> {
    pub w: &'a mut W,
}

impl<'a> PSCV_W<'a> {
    /// Creates the writer of this field for `w`.
    pub fn new(w: &'a mut W) -> (r: Self)
        ensures
            *r.w == *old(w),
            *final(r.w) == *final(w),
    {
        PSCV_W { w }
    }

    /// Writes raw bits to the field
    pub fn bits(self, value: u8) -> (r: &'a mut W)
        ensures
            r@ == bitfield::with_field_u32(old(self.w)@, 0, 8, value as u32),
            *final(r) == *final(self.w),
    {
        let bits: u32 = bitfield::write_field_u32(self.w.0.value(), 0, 8, value as u32);
        self.w.bits(bits)
    }
}

/// Field `GTV` reader - GTV
pub type GTV_R = crate::cm32m4xxr_pac::generic::FieldReader<u8, u8>;

/// Field `GTV` writer - GTV
pub struct GTV_W<'a> {
    pub w: &'a mut W,
}

impl<'a> GTV_W<'a> {
    /// Creates the writer of this field for `w`.
    pub fn new(w: &'a mut W) -> (r: Self)
        ensures
            *r.w == *old(w),
            *final(r.w) == *final(w),
    {
        GTV_W { w }
    }

    /// Writes raw bits to the field
    pub fn bits(self, value: u8) -> (r: &'a mut W)
        ensures
            r@ == bitfield::with_field_u32(old(self.w)@, 8, 8, value as u32),
            *final(r) == *final(self.w),
    {
        let bits: u32 = bitfield::write_field_u32(self.w.0.value(), 8, 8, value as u32);
        self.w.bits(bits)
    }
}

impl R {
    /// Bits of the register as they were read.
    pub fn bits(&self) -> (r: u32)
        ensures
            r == self@,
    {
        self.0.bits()
    }

    /// Bits 0:7 - PSCV
    pub fn pscv(&self) -> (r: PSCV_R)
        ensures
            r@ == bitfield::field_u32(self@, 0, 8) as u8,
    {
        PSCV_R::new(bitfield::read_field_u32(self.bits(), 0, 8) as u8)
    }

    /// Bits 8:15 - GTV
    pub fn gtv(&self) -> (r: GTV_R)
        ensures
            r@ == bitfield::field_u32(self@, 8, 8) as u8,
    {
        GTV_R::new(bitfield::read_field_u32(self.bits(), 8, 8) as u8)
    }
}

impl W {
    /// Bits 0:7 - PSCV
    pub fn pscv(&mut self) -> (r: PSCV_W<'_>)
        ensures
            *r.w == *old(self),
            *final(r.w) == *final(self),
    {
        PSCV_W::new(self)
    }

    /// Bits 8:15 - GTV
    pub fn gtv(&mut self) -> (r: GTV_W<'_>)
        ensures
            *r.w == *old(self),
            *final(r.w) == *final(self),
    {
        GTV_W::new(self)
    }

    /// Writes raw bits to the register.
    pub fn bits(&mut self, bits: u32) -> (r: &mut Self)
        ensures
            r@ == bits,
            *final(r) == *final(self),
    {
        self.0.bits(bits);
        self
    }
}

/// USART_GTP
pub struct USART_GTP_SPEC;

impl crate::cm32m4xxr_pac::generic::RegisterSpec for USART_GTP_SPEC {
    type Ux = u32;
}

/// `read()` gives the [R] reader of this register
impl crate::cm32m4xxr_pac::generic::Readable for USART_GTP_SPEC {
    type Reader = R;

    fn reader(bits: u32) -> (r: R) {
        R(crate::cm32m4xxr_pac::generic::R::new(bits))
    }
}

/// `write()` stores the value that a [W] writer of this register holds
impl crate::cm32m4xxr_pac::generic::Writable for USART_GTP_SPEC {
    type Writer = W;

    fn writer(bits: u32) -> (w: W) {
        W(crate::cm32m4xxr_pac::generic::W::new(bits))
    }

    fn writer_bits(w: &W) -> (r: u32) {
        w.0.value()
    }
}

/// `reset()` method sets USART_GTP to value 0
impl crate::cm32m4xxr_pac::generic::Resettable for USART_GTP_SPEC {
    open spec fn reset_spec() -> u32 {
        0
    }

    fn reset_value() -> (r: u32) {
        0
    }
}

} // verus!

use vstd::prelude::*;
use crate::bitfield;

verus! {

/// Register `USART_BRCF` reader
pub struct R(crate::cm32m4xxr_pac::generic::R<USART_BRCF_SPEC>);

impl View for R {
    type V = u32;

    closed spec fn view(&self) -> u32 {
        self.0@
    }
}

impl From<crate::cm32m4xxr_pac::generic::R<USART_BRCF_SPEC>> for R {
    fn from(reader: crate::cm32m4xxr_pac::generic::R<USART_BRCF_SPEC>) -> (r: Self)
        ensures
            r@ == reader@,
    {
        R(reader)
    }
}

impl vstd::std_specs::convert::FromSpecImpl<crate::cm32m4xxr_pac::generic::R<USART_BRCF_SPEC>> for R {
    open spec fn obeys_from_spec() -> bool {
        true
    }

    closed spec fn from_spec(v: crate::cm32m4xxr_pac::generic::R<USART_BRCF_SPEC>) -> Self {
        R(v)
    }
}

/// Register `USART_BRCF` writer
pub struct W(crate::cm32m4xxr_pac::generic::W<USART_BRCF_SPEC>);

impl View for W {
    type V = u32;

    closed spec fn view(&self) -> u32 {
        self.0@
    }
}

impl From<crate::cm32m4xxr_pac::generic::W<USART_BRCF_SPEC>> for W {
    fn from(writer: crate::cm32m4xxr_pac::generic::W<USART_BRCF_SPEC>) -> (r: Self)
        ensures
            r@ == writer@,
    {
        W(writer)
    }
}

impl vstd::std_specs::convert::FromSpecImpl<crate::cm32m4xxr_pac::generic::W<USART_BRCF_SPEC>> for W {
    open spec fn obeys_from_spec() -> bool {
        true
    }

    closed spec fn from_spec(v: crate::cm32m4xxr_pac::generic::W<USART_BRCF_SPEC>) -> Self {
        W(v)
    }
}

/// Field `DIV_Decimal` reader - DIV_Decimal
pub type DIV_DECIMAL_R = crate::cm32m4xxr_pac::generic::FieldReader<u8, u8>;

/// Field `DIV_Decimal` writer - DIV_Decimal
pub struct DIV_DECIMAL_W<'a> {
    pub w: &'a mut W,
}

impl<'a> DIV_DECIMAL_W<'a> {
    /// Creates the writer of this field for `w`.
    pub fn new(w: &'a mut W) -> (r: Self)
        ensures
            *r.w == *old(w),
            *final(r.w) == *final(w),
    {
        DIV_DECIMAL_W { w }
    }

    /// Writes raw bits to the field
    pub fn bits(self, value: u8) -> (r: &'a mut W)
        ensures
            r@ == bitfield::with_field_u32(old(self.w)@, 0, 4, value as u32),
            *final(r) == *final(self.w),
    {
        let bits: u32 = bitfield::write_field_u32(self.w.0.value(), 0, 4, value as u32);
        self.w.bits(bits)
    }
}

/// Field `DIV_Integer` reader - DIV_Integer
pub type DIV_INTEGER_R = crate::cm32m4xxr_pac::generic::FieldReader<u16, u16>;

/// Field `DIV_Integer` writer - DIV_Integer
pub struct DIV_INTEGER_W<'a> {
    pub w: &'a mut W,
}

impl<'a> DIV_INTEGER_W<'a> {
    /// Creates the writer of this field for `w`.
    pub fn new(w: &'a mut W) -> (r: Self)
        ensures
            *r.w == *old(w),
            *final(r.w) == *final(w),
    {
        DIV_INTEGER_W { w }
    }

    /// Writes raw bits to the field
    pub fn bits(self, value: u16) -> (r: &'a mut W)
        ensures
            r@ == bitfield::with_field_u32(old(self.w)@, 4, 12, value as u32),
            *final(r) == *final(self.w),
    {
        let bits: u32 = bitfield::write_field_u32(self.w.0.value(), 4, 12, value as u32);
        self.w.bits(bits)
    }
}

impl R {
    /// Bits of the register as they were read.
    pub fn bits(&self) -> (r: u32)
        ensures
            r == self@,
    {
        self.0.bits()
    }

    /// Bits 0:3 - DIV_Decimal
    pub fn div_decimal(&self) -> (r: DIV_DECIMAL_R)
        ensures
            r@ == bitfield::field_u32(self@, 0, 4) as u8,
    {
        DIV_DECIMAL_R::new(bitfield::read_field_u32(self.bits(), 0, 4) as u8)
    }

    /// Bits 4:15 - DIV_Integer
    pub fn div_integer(&self) -> (r: DIV_INTEGER_R)
        ensures
            r@ == bitfield::field_u32(self@, 4, 12) as u16,
    {
        DIV_INTEGER_R::new(bitfield::read_field_u32(self.bits(), 4, 12) as u16)
    }
}

impl W {
    /// Bits 0:3 - DIV_Decimal
    pub fn div_decimal(&mut self) -> (r: DIV_DECIMAL_W<'_>)
        ensures
            *r.w == *old(self),
            *final(r.w) == *final(self),
    {
        DIV_DECIMAL_W::new(self)
    }

    /// Bits 4:15 - DIV_Integer
    pub fn div_integer(&mut self) -> (r: DIV_INTEGER_W<'_>)
        ensures
            *r.w == *old(self),
            *final(r.w) == *final(self),
    {
        DIV_INTEGER_W::new(self)
    }

    /// Writes raw bits to the register.
    pub fn bits(&mut self, bits: u32) -> (r: &mut Self)
        ensures
            r@ == bits,
            *final(r) == *final(self),
    {
        self.0.bits(bits);
        self
    }
}

/// USART_BRCF
pub struct USART_BRCF_SPEC;

impl crate::cm32m4xxr_pac::generic::RegisterSpec for USART_BRCF_SPEC {
    type Ux = u32;
}

/// `read()` gives the [R] reader of this register
impl crate::cm32m4xxr_pac::generic::Readable for USART_BRCF_SPEC {
    type Reader = R;

    fn reader(bits: u32) -> (r: R) {
        R(crate::cm32m4xxr_pac::generic::R::new(bits))
    }
}

/// `write()` stores the value that a [W] writer of this register holds
impl crate::cm32m4xxr_pac::generic::Writable for USART_BRCF_SPEC {
    type Writer = W;

    fn writer(bits: u32) -> (w: W) {
        W(crate::cm32m4xxr_pac::generic::W::new(bits))
    }

    fn writer_bits(w: &W) -> (r: u32) {
        w.0.value()
    }
}

/// `reset()` method sets USART_BRCF to value 0
impl crate::cm32m4xxr_pac::generic::Resettable for USART_BRCF_SPEC {
    open spec fn reset_spec() -> u32 {
        0
    }

    fn reset_value() -> (r: u32) {
        0
    }
}

} // verus!

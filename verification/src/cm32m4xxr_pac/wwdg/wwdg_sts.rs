use vstd::prelude::*;
use crate::bitfield;

verus! {

/// Register `WWDG_STS` reader
pub struct R(crate::cm32m4xxr_pac::generic::R<WWDG_STS_SPEC>);

impl View for R {
    type V = u32;

    closed spec fn view(&self) -> u32 {
        self.0@
    }
}

impl From<crate::cm32m4xxr_pac::generic::R<WWDG_STS_SPEC>> for R {
    fn from(reader: crate::cm32m4xxr_pac::generic::R<WWDG_STS_SPEC>) -> (r: Self)
        ensures
            r@ == reader@,
    {
        R(reader)
    }
}

impl vstd::std_specs::convert::FromSpecImpl<crate::cm32m4xxr_pac::generic::R<WWDG_STS_SPEC>> for R {
    open spec fn obeys_from_spec() -> bool {
        true
    }

    closed spec fn from_spec(v: crate::cm32m4xxr_pac::generic::R<WWDG_STS_SPEC>) -> Self {
        R(v)
    }
}

/// Register `WWDG_STS` writer
pub struct W(crate::cm32m4xxr_pac::generic::W<WWDG_STS_SPEC>);

impl View for W {
    type V = u32;

    closed spec fn view(&self) -> u32 {
        self.0@
    }
}

impl From<crate::cm32m4xxr_pac::generic::W<WWDG_STS_SPEC>> for W {
    fn from(writer: crate::cm32m4xxr_pac::generic::W<WWDG_STS_SPEC>) -> (r: Self)
        ensures
            r@ == writer@,
    {
        W(writer)
    }
}

impl vstd::std_specs::convert::FromSpecImpl<crate::cm32m4xxr_pac::generic::W<WWDG_STS_SPEC>> for W {
    open spec fn obeys_from_spec() -> bool {
        true
    }

    closed spec fn from_spec(v: crate::cm32m4xxr_pac::generic::W<WWDG_STS_SPEC>) -> Self {
        W(v)
    }
}

/// Field `EWINTF` reader - EWINTF
pub type EWINTF_R = crate::cm32m4xxr_pac::generic::BitReader<bool>;

/// Field `EWINTF` writer - EWINTF
pub struct EWINTF_W<'a> {
    pub w: &'a mut W,
}

impl<'a> EWINTF_W<'a> {
    /// Creates the writer of this field for `w`.
    pub fn new(w: &'a mut W) -> (r: Self)
        ensures
            *r.w == *old(w),
            *final(r.w) == *final(w),
    {
        EWINTF_W { w }
    }

    /// Sets the field bit
    pub fn set_bit(self) -> (r: &'a mut W)
        ensures
            r@ == bitfield::with_bit_u32(old(self.w)@, 0, true),
            *final(r) == *final(self.w),
    {
        self.bit(true)
    }

    /// Clears the field bit
    pub fn clear_bit(self) -> (r: &'a mut W)
        ensures
            r@ == bitfield::with_bit_u32(old(self.w)@, 0, false),
            *final(r) == *final(self.w),
    {
        self.bit(false)
    }

    /// Writes raw bits to the field
    pub fn bit(self, value: bool) -> (r: &'a mut W)
        ensures
            r@ == bitfield::with_bit_u32(old(self.w)@, 0, value),
            *final(r) == *final(self.w),
    {
        let bits: u32 = bitfield::write_bit_u32(self.w.0.value(), 0, value);
        self.w.bits(bits)
    }
}

impl R {
    /// Bits of the register as they were read.
    pub fn bits(&self) -> (r: u32)
        ensures
            r == self@,
    {
        self.0.bits()
    }

    /// Bit 0 - EWINTF
    pub fn ewintf(&self) -> (r: EWINTF_R)
        ensures
            r@ == bitfield::bit_u32(self@, 0),
    {
        EWINTF_R::new(bitfield::read_bit_u32(self.bits(), 0))
    }
}

impl W {
    /// Bit 0 - EWINTF
    pub fn ewintf(&mut self) -> (r: EWINTF_W<'_>)
        ensures
            *r.w == *old(self),
            *final(r.w) == *final(self),
    {
        EWINTF_W::new(self)
    }

    /// Writes raw bits to the register.
    pub fn bits(&mut self, bits: u32) -> (r: &mut Self)
        ensures
            r@ == bits,
            *final(r) == *final(self),
    {
        self.0.bits(bits);
        self
    }
}

/// WWDG_STS
pub struct WWDG_STS_SPEC;

impl crate::cm32m4xxr_pac::generic::RegisterSpec for WWDG_STS_SPEC {
    type Ux = u32;
}

/// `read()` gives the [R] reader of this register
impl crate::cm32m4xxr_pac::generic::Readable for WWDG_STS_SPEC {
    type Reader = R;

    fn reader(bits: u32) -> (r: R) {
        R(crate::cm32m4xxr_pac::generic::R::new(bits))
    }
}

/// `write()` stores the value that a [W] writer of this register holds
impl crate::cm32m4xxr_pac::generic::Writable for WWDG_STS_SPEC {
    type Writer = W;

    fn writer(bits: u32) -> (w: W) {
        W(crate::cm32m4xxr_pac::generic::W::new(bits))
    }

    fn writer_bits(w: &W) -> (r: u32) {
        w.0.value()
    }
}

/// `reset()` method sets WWDG_STS to value 0
impl crate::cm32m4xxr_pac::generic::Resettable for WWDG_STS_SPEC {
    open spec fn reset_spec() -> u32 {
        0
    }

    fn reset_value() -> (r: u32) {
        0
    }
}

} // verus!

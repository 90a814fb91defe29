use vstd::prelude::*;
use crate::bitfield;

verus! {

/// Register `USART_CTRL3` reader
pub struct R(crate::cm32m4xxr_pac::generic::R<USART_CTRL3_SPEC>);

impl View for R {
    type V = u32;

    closed spec fn view(&self) -> u32 {
        self.0@
    }
}

impl From<crate::cm32m4xxr_pac::generic::R<USART_CTRL3_SPEC>> for R {
    fn from(reader: crate::cm32m4xxr_pac::generic::R<USART_CTRL3_SPEC>) -> (r: Self)
        ensures
            r@ == reader@,
    {
        R(reader)
    }
}

impl vstd::std_specs::convert::FromSpecImpl<crate::cm32m4xxr_pac::generic::R<USART_CTRL3_SPEC>> for R {
    open spec fn obeys_from_spec() -> bool {
        true
    }

    closed spec fn from_spec(v: crate::cm32m4xxr_pac::generic::R<USART_CTRL3_SPEC>) -> Self {
        R(v)
    }
}

/// Register `USART_CTRL3` writer
pub struct W(crate::cm32m4xxr_pac::generic::W<USART_CTRL3_SPEC>);

impl View for W {
    type V = u32;

    closed spec fn view(&self) -> u32 {
        self.0@
    }
}

impl From<crate::cm32m4xxr_pac::generic::W<USART_CTRL3_SPEC>> for W {
    fn from(writer: crate::cm32m4xxr_pac::generic::W<USART_CTRL3_SPEC>) -> (r: Self)
        ensures
            r@ == writer@,
    {
        W(writer)
    }
}

impl vstd::std_specs::convert::FromSpecImpl<crate::cm32m4xxr_pac::generic::W<USART_CTRL3_SPEC>> for W {
    open spec fn obeys_from_spec() -> bool {
        true
    }

    closed spec fn from_spec(v: crate::cm32m4xxr_pac::generic::W<USART_CTRL3_SPEC>) -> Self {
        W(v)
    }
}

/// Field `ERRIEN` reader - ERRIEN
pub type ERRIEN_R = crate::cm32m4xxr_pac::generic::BitReader<bool>;

/// Field `ERRIEN` writer - ERRIEN
pub struct ERRIEN_W<'a> {
    pub w: &'a mut W,
}

impl<'a> ERRIEN_W<'a> {
    /// Creates the writer of this field for `w`.
    pub fn new(w: &'a mut W) -> (r: Self)
        ensures
            *r.w == *old(w),
            *final(r.w) == *final(w),
    {
        ERRIEN_W { w }
    }

    /// Sets the field bit
    pub fn set_bit(self) -> (r: &'a mut W)
        ensures
            r@ == bitfield::with_bit_u32(old(self.w)@, 0, true),
            *final(r) == *final(self.w),
    {
        self.bit(true)
    }

    /// Clears the field bit
    pub fn clear_bit(self) -> (r: &'a mut W)
        ensures
            r@ == bitfield::with_bit_u32(old(self.w)@, 0, false),
            *final(r) == *final(self.w),
    {
        self.bit(false)
    }

    /// Writes raw bits to the field
    pub fn bit(self, value: bool) -> (r: &'a mut W)
        ensures
            r@ == bitfield::with_bit_u32(old(self.w)@, 0, value),
            *final(r) == *final(self.w),
    {
        let bits: u32 = bitfield::write_bit_u32(self.w.0.value(), 0, value);
        self.w.bits(bits)
    }
}

/// Field `IRDAMEN` reader - IRDAMEN
pub type IRDAMEN_R = crate::cm32m4xxr_pac::generic::BitReader<bool>;

/// Field `IRDAMEN` writer - IRDAMEN
pub struct IRDAMEN_W<'a> {
    pub w: &'a mut W,
}

impl<'a> IRDAMEN_W<'a> {
    /// Creates the writer of this field for `w`.
    pub fn new(w: &'a mut W) -> (r: Self)
        ensures
            *r.w == *old(w),
            *final(r.w) == *final(w),
    {
        IRDAMEN_W { w }
    }

    /// Sets the field bit
    pub fn set_bit(self) -> (r: &'a mut W)
        ensures
            r@ == bitfield::with_bit_u32(old(self.w)@, 1, true),
            *final(r) == *final(self.w),
    {
        self.bit(true)
    }

    /// Clears the field bit
    pub fn clear_bit(self) -> (r: &'a mut W)
        ensures
            r@ == bitfield::with_bit_u32(old(self.w)@, 1, false),
            *final(r) == *final(self.w),
    {
        self.bit(false)
    }

    /// Writes raw bits to the field
    pub fn bit(self, value: bool) -> (r: &'a mut W)
        ensures
            r@ == bitfield::with_bit_u32(old(self.w)@, 1, value),
            *final(r) == *final(self.w),
    {
        let bits: u32 = bitfield::write_bit_u32(self.w.0.value(), 1, value);
        self.w.bits(bits)
    }
}

/// Field `IRDALP` reader - IRDALP
pub type IRDALP_R = crate::cm32m4xxr_pac::generic::BitReader<bool>;

/// Field `IRDALP` writer - IRDALP
pub struct IRDALP_W<'a> {
    pub w: &'a mut W,
}

impl<'a> IRDALP_W<'a> {
    /// Creates the writer of this field for `w`.
    pub fn new(w: &'a mut W) -> (r: Self)
        ensures
            *r.w == *old(w),
            *final(r.w) == *final(w),
    {
        IRDALP_W { w }
    }

    /// Sets the field bit
    pub fn set_bit(self) -> (r: &'a mut W)
        ensures
            r@ == bitfield::with_bit_u32(old(self.w)@, 2, true),
            *final(r) == *final(self.w),
    {
        self.bit(true)
    }

    /// Clears the field bit
    pub fn clear_bit(self) -> (r: &'a mut W)
        ensures
            r@ == bitfield::with_bit_u32(old(self.w)@, 2, false),
            *final(r) == *final(self.w),
    {
        self.bit(false)
    }

    /// Writes raw bits to the field
    pub fn bit(self, value: bool) -> (r: &'a mut W)
        ensures
            r@ == bitfield::with_bit_u32(old(self.w)@, 2, value),
            *final(r) == *final(self.w),
    {
        let bits: u32 = bitfield::write_bit_u32(self.w.0.value(), 2, value);
        self.w.bits(bits)
    }
}

/// Field `HDMEN` reader - HDMEN
pub type HDMEN_R = crate::cm32m4xxr_pac::generic::BitReader<bool>;

/// Field `HDMEN` writer - HDMEN
pub struct HDMEN_W<'a> {
    pub w: &'a mut W,
}

impl<'a> HDMEN_W<'a> {
    /// Creates the writer of this field for `w`.
    pub fn new(w: &'a mut W) -> (r: Self)
        ensures
            *r.w == *old(w),
            *final(r.w) == *final(w),
    {
        HDMEN_W { w }
    }

    /// Sets the field bit
    pub fn set_bit(self) -> (r: &'a mut W)
        ensures
            r@ == bitfield::with_bit_u32(old(self.w)@, 3, true),
            *final(r) == *final(self.w),
    {
        self.bit(true)
    }

    /// Clears the field bit
    pub fn clear_bit(self) -> (r: &'a mut W)
        ensures
            r@ == bitfield::with_bit_u32(old(self.w)@, 3, false),
            *final(r) == *final(self.w),
    {
        self.bit(false)
    }

    /// Writes raw bits to the field
    pub fn bit(self, value: bool) -> (r: &'a mut W)
        ensures
            r@ == bitfield::with_bit_u32(old(self.w)@, 3, value),
            *final(r) == *final(self.w),
    {
        let bits: u32 = bitfield::write_bit_u32(self.w.0.value(), 3, value);
        self.w.bits(bits)
    }
}

/// Field `SCNACK` reader - SCNACK
pub type SCNACK_R = crate::cm32m4xxr_pac::generic::BitReader<bool>;

/// Field `SCNACK` writer - SCNACK
pub struct SCNACK_W<'a> {
    pub w: &'a mut W,
}

impl<'a> SCNACK_W<'a> {
    /// Creates the writer of this field for `w`.
    pub fn new(w: &'a mut W) -> (r: Self)
        ensures
            *r.w == *old(w),
            *final(r.w) == *final(w),
    {
        SCNACK_W { w }
    }

    /// Sets the field bit
    pub fn set_bit(self) -> (r: &'a mut W)
        ensures
            r@ == bitfield::with_bit_u32(old(self.w)@, 4, true),
            *final(r) == *final(self.w),
    {
        self.bit(true)
    }

    /// Clears the field bit
    pub fn clear_bit(self) -> (r: &'a mut W)
        ensures
            r@ == bitfield::with_bit_u32(old(self.w)@, 4, false),
            *final(r) == *final(self.w),
    {
        self.bit(false)
    }

    /// Writes raw bits to the field
    pub fn bit(self, value: bool) -> (r: &'a mut W)
        ensures
            r@ == bitfield::with_bit_u32(old(self.w)@, 4, value),
            *final(r) == *final(self.w),
    {
        let bits: u32 = bitfield::write_bit_u32(self.w.0.value(), 4, value);
        self.w.bits(bits)
    }
}

/// Field `SCMEN` reader - SCMEN
pub type SCMEN_R = crate::cm32m4xxr_pac::generic::BitReader<bool>;

/// Field `SCMEN` writer - SCMEN
pub struct SCMEN_W<'a> {
    pub w: &'a mut W,
}

impl<'a> SCMEN_W<'a> {
    /// Creates the writer of this field for `w`.
    pub fn new(w: &'a mut W) -> (r: Self)
        ensures
            *r.w == *old(w),
            *final(r.w) == *final(w),
    {
        SCMEN_W { w }
    }

    /// Sets the field bit
    pub fn set_bit(self) -> (r: &'a mut W)
        ensures
            r@ == bitfield::with_bit_u32(old(self.w)@, 5, true),
            *final(r) == *final(self.w),
    {
        self.bit(true)
    }

    /// Clears the field bit
    pub fn clear_bit(self) -> (r: &'a mut W)
        ensures
            r@ == bitfield::with_bit_u32(old(self.w)@, 5, false),
            *final(r) == *final(self.w),
    {
        self.bit(false)
    }

    /// Writes raw bits to the field
    pub fn bit(self, value: bool) -> (r: &'a mut W)
        ensures
            r@ == bitfield::with_bit_u32(old(self.w)@, 5, value),
            *final(r) == *final(self.w),
    {
        let bits: u32 = bitfield::write_bit_u32(self.w.0.value(), 5, value);
        self.w.bits(bits)
    }
}

/// Field `DMARXEN` reader - DMARXEN
pub type DMARXEN_R = crate::cm32m4xxr_pac::generic::BitReader<bool>;

/// Field `DMARXEN` writer - DMARXEN
pub struct DMARXEN_W<'a> {
    pub w: &'a mut W,
}

impl<'a> DMARXEN_W<'a> {
    /// Creates the writer of this field for `w`.
    pub fn new(w: &'a mut W) -> (r: Self)
        ensures
            *r.w == *old(w),
            *final(r.w) == *final(w),
    {
        DMARXEN_W { w }
    }

    /// Sets the field bit
    pub fn set_bit(self) -> (r: &'a mut W)
        ensures
            r@ == bitfield::with_bit_u32(old(self.w)@, 6, true),
            *final(r) == *final(self.w),
    {
        self.bit(true)
    }

    /// Clears the field bit
    pub fn clear_bit(self) -> (r: &'a mut W)
        ensures
            r@ == bitfield::with_bit_u32(old(self.w)@, 6, false),
            *final(r) == *final(self.w),
    {
        self.bit(false)
    }

    /// Writes raw bits to the field
    pub fn bit(self, value: bool) -> (r: &'a mut W)
        ensures
            r@ == bitfield::with_bit_u32(old(self.w)@, 6, value),
            *final(r) == *final(self.w),
    {
        let bits: u32 = bitfield::write_bit_u32(self.w.0.value(), 6, value);
        self.w.bits(bits)
    }
}

/// Field `DMATXEN` reader - DMATXEN
pub type DMATXEN_R = crate::cm32m4xxr_pac::generic::BitReader<bool>;

/// Field `DMATXEN` writer - DMATXEN
pub struct DMATXEN_W<'a> {
    pub w: &'a mut W,
}

impl<'a> DMATXEN_W<'a> {
    /// Creates the writer of this field for `w`.
    pub fn new(w: &'a mut W) -> (r: Self)
        ensures
            *r.w == *old(w),
            *final(r.w) == *final(w),
    {
        DMATXEN_W { w }
    }

    /// Sets the field bit
    pub fn set_bit(self) -> (r: &'a mut W)
        ensures
            r@ == bitfield::with_bit_u32(old(self.w)@, 7, true),
            *final(r) == *final(self.w),
    {
        self.bit(true)
    }

    /// Clears the field bit
    pub fn clear_bit(self) -> (r: &'a mut W)
        ensures
            r@ == bitfield::with_bit_u32(old(self.w)@, 7, false),
            *final(r) == *final(self.w),
    {
        self.bit(false)
    }

    /// Writes raw bits to the field
    pub fn bit(self, value: bool) -> (r: &'a mut W)
        ensures
            r@ == bitfield::with_bit_u32(old(self.w)@, 7, value),
            *final(r) == *final(self.w),
    {
        let bits: u32 = bitfield::write_bit_u32(self.w.0.value(), 7, value);
        self.w.bits(bits)
    }
}

/// Field `RTSEN` reader - RTSEN
pub type RTSEN_R = crate::cm32m4xxr_pac::generic::BitReader<bool>;

/// Field `RTSEN` writer - RTSEN
pub struct RTSEN_W<'a> {
    pub w: &'a mut W,
}

impl<'a> RTSEN_W<'a> {
    /// Creates the writer of this field for `w`.
    pub fn new(w: &'a mut W) -> (r: Self)
        ensures
            *r.w == *old(w),
            *final(r.w) == *final(w),
    {
        RTSEN_W { w }
    }

    /// Sets the field bit
    pub fn set_bit(self) -> (r: &'a mut W)
        ensures
            r@ == bitfield::with_bit_u32(old(self.w)@, 8, true),
            *final(r) == *final(self.w),
    {
        self.bit(true)
    }

    /// Clears the field bit
    pub fn clear_bit(self) -> (r: &'a mut W)
        ensures
            r@ == bitfield::with_bit_u32(old(self.w)@, 8, false),
            *final(r) == *final(self.w),
    {
        self.bit(false)
    }

    /// Writes raw bits to the field
    pub fn bit(self, value: bool) -> (r: &'a mut W)
        ensures
            r@ == bitfield::with_bit_u32(old(self.w)@, 8, value),
            *final(r) == *final(self.w),
    {
        let bits: u32 = bitfield::write_bit_u32(self.w.0.value(), 8, value);
        self.w.bits(bits)
    }
}

/// Field `CTSEN` reader - CTSEN
pub type CTSEN_R = crate::cm32m4xxr_pac::generic::BitReader<bool>;

/// Field `CTSEN` writer - CTSEN
pub struct CTSEN_W<'a> {
    pub w: &'a mut W,
}

impl<'a> CTSEN_W<'a> {
    /// Creates the writer of this field for `w`.
    pub fn new(w: &'a mut W) -> (r: Self)
        ensures
            *r.w == *old(w),
            *final(r.w) == *final(w),
    {
        CTSEN_W { w }
    }

    /// Sets the field bit
    pub fn set_bit(self) -> (r: &'a mut W)
        ensures
            r@ == bitfield::with_bit_u32(old(self.w)@, 9, true),
            *final(r) == *final(self.w),
    {
        self.bit(true)
    }

    /// Clears the field bit
    pub fn clear_bit(self) -> (r: &'a mut W)
        ensures
            r@ == bitfield::with_bit_u32(old(self.w)@, 9, false),
            *final(r) == *final(self.w),
    {
        self.bit(false)
    }

    /// Writes raw bits to the field
    pub fn bit(self, value: bool) -> (r: &'a mut W)
        ensures
            r@ == bitfield::with_bit_u32(old(self.w)@, 9, value),
            *final(r) == *final(self.w),
    {
        let bits: u32 = bitfield::write_bit_u32(self.w.0.value(), 9, value);
        self.w.bits(bits)
    }
}

/// Field `CTSIEN` reader - CTSIEN
pub type CTSIEN_R = crate::cm32m4xxr_pac::generic::BitReader<bool>;

/// Field `CTSIEN` writer - CTSIEN
pub struct CTSIEN_W<'a> {
    pub w: &'a mut W,
}

impl<'a> CTSIEN_W<'a> {
    /// Creates the writer of this field for `w`.
    pub fn new(w: &'a mut W) -> (r: Self)
        ensures
            *r.w == *old(w),
            *final(r.w) == *final(w),
    {
        CTSIEN_W { w }
    }

    /// Sets the field bit
    pub fn set_bit(self) -> (r: &'a mut W)
        ensures
            r@ == bitfield::with_bit_u32(old(self.w)@, 10, true),
            *final(r) == *final(self.w),
    {
        self.bit(true)
    }

    /// Clears the field bit
    pub fn clear_bit(self) -> (r: &'a mut W)
        ensures
            r@ == bitfield::with_bit_u32(old(self.w)@, 10, false),
            *final(r) == *final(self.w),
    {
        self.bit(false)
    }

    /// Writes raw bits to the field
    pub fn bit(self, value: bool) -> (r: &'a mut W)
        ensures
            r@ == bitfield::with_bit_u32(old(self.w)@, 10, value),
            *final(r) == *final(self.w),
    {
        let bits: u32 = bitfield::write_bit_u32(self.w.0.value(), 10, value);
        self.w.bits(bits)
    }
}

impl R {
    /// Bits of the register as they were read.
    pub fn bits(&self) -> (r: u32)
        ensures
            r == self@,
    {
        self.0.bits()
    }

    /// Bit 0 - ERRIEN
    pub fn errien(&self) -> (r: ERRIEN_R)
        ensures
            r@ == bitfield::bit_u32(self@, 0),
    {
        ERRIEN_R::new(bitfield::read_bit_u32(self.bits(), 0))
    }

    /// Bit 1 - IRDAMEN
    pub fn irdamen(&self) -> (r: IRDAMEN_R)
        ensures
            r@ == bitfield::bit_u32(self@, 1),
    {
        IRDAMEN_R::new(bitfield::read_bit_u32(self.bits(), 1))
    }

    /// Bit 2 - IRDALP
    pub fn irdalp(&self) -> (r: IRDALP_R)
        ensures
            r@ == bitfield::bit_u32(self@, 2),
    {
        IRDALP_R::new(bitfield::read_bit_u32(self.bits(), 2))
    }

    /// Bit 3 - HDMEN
    pub fn hdmen(&self) -> (r: HDMEN_R)
        ensures
            r@ == bitfield::bit_u32(self@, 3),
    {
        HDMEN_R::new(bitfield::read_bit_u32(self.bits(), 3))
    }

    /// Bit 4 - SCNACK
    pub fn scnack(&self) -> (r: SCNACK_R)
        ensures
            r@ == bitfield::bit_u32(self@, 4),
    {
        SCNACK_R::new(bitfield::read_bit_u32(self.bits(), 4))
    }

    /// Bit 5 - SCMEN
    pub fn scmen(&self) -> (r: SCMEN_R)
        ensures
            r@ == bitfield::bit_u32(self@, 5),
    {
        SCMEN_R::new(bitfield::read_bit_u32(self.bits(), 5))
    }

    /// Bit 6 - DMARXEN
    pub fn dmarxen(&self) -> (r: DMARXEN_R)
        ensures
            r@ == bitfield::bit_u32(self@, 6),
    {
        DMARXEN_R::new(bitfield::read_bit_u32(self.bits(), 6))
    }

    /// Bit 7 - DMATXEN
    pub fn dmatxen(&self) -> (r: DMATXEN_R)
        ensures
            r@ == bitfield::bit_u32(self@, 7),
    {
        DMATXEN_R::new(bitfield::read_bit_u32(self.bits(), 7))
    }

    /// Bit 8 - RTSEN
    pub fn rtsen(&self) -> (r: RTSEN_R)
        ensures
            r@ == bitfield::bit_u32(self@, 8),
    {
        RTSEN_R::new(bitfield::read_bit_u32(self.bits(), 8))
    }

    /// Bit 9 - CTSEN
    pub fn ctsen(&self) -> (r: CTSEN_R)
        ensures
            r@ == bitfield::bit_u32(self@, 9),
    {
        CTSEN_R::new(bitfield::read_bit_u32(self.bits(), 9))
    }

    /// Bit 10 - CTSIEN
    pub fn ctsien(&self) -> (r: CTSIEN_R)
        ensures
            r@ == bitfield::bit_u32(self@, 10),
    {
        CTSIEN_R::new(bitfield::read_bit_u32(self.bits(), 10))
    }
}

impl W {
    /// Bit 0 - ERRIEN
    pub fn errien(&mut self) -> (r: ERRIEN_W<'_>)
        ensures
            *r.w == *old(self),
            *final(r.w) == *final(self),
    {
        ERRIEN_W::new(self)
    }

    /// Bit 1 - IRDAMEN
    pub fn irdamen(&mut self) -> (r: IRDAMEN_W<'_>)
        ensures
            *r.w == *old(self),
            *final(r.w) == *final(self),
    {
        IRDAMEN_W::new(self)
    }

    /// Bit 2 - IRDALP
    pub fn irdalp(&mut self) -> (r: IRDALP_W<'_>)
        ensures
            *r.w == *old(self),
            *final(r.w) == *final(self),
    {
        IRDALP_W::new(self)
    }

    /// Bit 3 - HDMEN
    pub fn hdmen(&mut self) -> (r: HDMEN_W<'_>)
        ensures
            *r.w == *old(self),
            *final(r.w) == *final(self),
    {
        HDMEN_W::new(self)
    }

    /// Bit 4 - SCNACK
    pub fn scnack(&mut self) -> (r: SCNACK_W<'_>)
        ensures
            *r.w == *old(self),
            *final(r.w) == *final(self),
    {
        SCNACK_W::new(self)
    }

    /// Bit 5 - SCMEN
    pub fn scmen(&mut self) -> (r: SCMEN_W<'_>)
        ensures
            *r.w == *old(self),
            *final(r.w) == *final(self),
    {
        SCMEN_W::new(self)
    }

    /// Bit 6 - DMARXEN
    pub fn dmarxen(&mut self) -> (r: DMARXEN_W<'_>)
        ensures
            *r.w == *old(self),
            *final(r.w) == *final(self),
    {
        DMARXEN_W::new(self)
    }

    /// Bit 7 - DMATXEN
    pub fn dmatxen(&mut self) -> (r: DMATXEN_W<'_>)
        ensures
            *r.w == *old(self),
            *final(r.w) == *final(self),
    {
        DMATXEN_W::new(self)
    }

    /// Bit 8 - RTSEN
    pub fn rtsen(&mut self) -> (r: RTSEN_W<'_>)
        ensures
            *r.w == *old(self),
            *final(r.w) == *final(self),
    {
        RTSEN_W::new(self)
    }

    /// Bit 9 - CTSEN
    pub fn ctsen(&mut self) -> (r: CTSEN_W<'_>)
        ensures
            *r.w == *old(self),
            *final(r.w) == *final(self),
    {
        CTSEN_W::new(self)
    }

    /// Bit 10 - CTSIEN
    pub fn ctsien(&mut self) -> (r: CTSIEN_W<'_>)
        ensures
            *r.w == *old(self),
            *final(r.w) == *final(self),
    {
        CTSIEN_W::new(self)
    }

    /// Writes raw bits to the register.
    pub fn bits(&mut self, bits: u32) -> (r: &mut Self)
        ensures
            r@ == bits,
            *final(r) == *final(self),
    {
        self.0.bits(bits);
        self
    }
}

/// USART_CTRL3
pub struct USART_CTRL3_SPEC;

impl crate::cm32m4xxr_pac::generic::RegisterSpec for USART_CTRL3_SPEC {
    type Ux = u32;
}

/// `read()` gives the [R] reader of this register
impl crate::cm32m4xxr_pac::generic::Readable for USART_CTRL3_SPEC {
    type Reader = R;

    fn reader(bits: u32) -> (r: R) {
        R(crate::cm32m4xxr_pac::generic::R::new(bits))
    }
}

/// `write()` stores the value that a [W] writer of this register holds
impl crate::cm32m4xxr_pac::generic::Writable for USART_CTRL3_SPEC {
    type Writer = W;

    fn writer(bits: u32) -> (w: W) {
        W(crate::cm32m4xxr_pac::generic::W::new(bits))
    }

    fn writer_bits(w: &W) -> (r: u32) {
        w.0.value()
    }
}

/// `reset()` method sets USART_CTRL3 to value 0
impl crate::cm32m4xxr_pac::generic::Resettable for USART_CTRL3_SPEC {
    open spec fn reset_spec() -> u32 {
        0
    }

    fn reset_value() -> (r: u32) {
        0
    }
}

} // verus!

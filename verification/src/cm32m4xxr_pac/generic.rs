//! Register specifications, readers, writers and register cells shared by the
//! peripherals of the CM32M4xxR.
//!
//! Each register has a specification type `*_SPEC` that gives its width, its
//! reader and writer types and its reset value. A register cell `Reg` holds a
//! word of that width.
use core::marker::PhantomData;
use vstd::prelude::*;

verus! {

/// The width of a register.
pub trait RegisterSpec {
    /// Raw register type (`u8`, `u16`, `u32`, ...).
    type Ux: Copy;
}

/// A register that can be read, with the reader type that its `read` gives.
pub trait Readable: RegisterSpec {
    /// Result of `read`.
    type Reader: View<V = Self::Ux>;

    /// The reader that holds `bits`.
    fn reader(bits: Self::Ux) -> (r: Self::Reader)
        ensures
            r@ == bits,
    ;
}

/// A register that can be written, with the writer type that builds the value.
pub trait Writable: RegisterSpec {
    /// Writer type argument to `write`.
    type Writer: View<V = Self::Ux>;

    /// The writer that holds `bits`.
    fn writer(bits: Self::Ux) -> (w: Self::Writer)
        ensures
            w@ == bits,
    ;

    /// The bits that the writer holds.
    fn writer_bits(w: &Self::Writer) -> (r: Self::Ux)
        ensures
            r == w@,
    ;
}

/// The value a register takes at reset.
pub trait Resettable: RegisterSpec {
    /// The reset value.
    spec fn reset_spec() -> Self::Ux;

    /// Returns the reset value.
    fn reset_value() -> (r: Self::Ux)
        ensures
            r == Self::reset_spec(),
    ;
}

/// Register reader: the bits read from register `REG`.
pub struct R<REG: RegisterSpec> {
    pub(crate) bits: REG::Ux,
    _reg: PhantomData<REG>,
}

impl<REG: RegisterSpec> View for R<REG> {
    type V = REG::Ux;

    closed spec fn view(&self) -> REG::Ux {
        self.bits
    }
}

impl<REG: RegisterSpec> R<REG> {
    /// A reader that holds `bits`.
    pub fn new(bits: REG::Ux) -> (r: Self)
        ensures
            r@ == bits,
    {
        R { bits, _reg: PhantomData }
    }

    /// Reads raw bits from the register.
    pub fn bits(&self) -> (r: REG::Ux)
        ensures
            r == self@,
    {
        self.bits
    }
}

/// Register writer: the bits that will be stored in register `REG`.
pub struct W<REG: RegisterSpec> {
    pub(crate) bits: REG::Ux,
    _reg: PhantomData<REG>,
}

impl<REG: RegisterSpec> View for W<REG> {
    type V = REG::Ux;

    closed spec fn view(&self) -> REG::Ux {
        self.bits
    }
}

impl<REG: RegisterSpec> W<REG> {
    /// A writer that holds `bits`.
    pub fn new(bits: REG::Ux) -> (w: Self)
        ensures
            w@ == bits,
    {
        W { bits, _reg: PhantomData }
    }

    /// Writes raw bits to the register.
    pub fn bits(&mut self, bits: REG::Ux) -> (r: &mut Self)
        ensures
            r@ == bits,
            *final(r) == *final(self),
    {
        self.bits = bits;
        self
    }

    /// The bits the writer holds so far.
    pub fn value(&self) -> (r: REG::Ux)
        ensures
            r == self@,
    {
        self.bits
    }
}

/// Field reader: the value of a field, of type `U`.
pub struct FieldReader<U, FI> {
    pub(crate) bits: U,
    _reg: PhantomData<FI>,
}

/// Reader of a one-bit field.
pub type BitReader<FI = bool> = FieldReader<bool, FI>;

impl<U, FI> View for FieldReader<U, FI> {
    type V = U;

    closed spec fn view(&self) -> U {
        self.bits
    }
}

impl<U: Copy, FI> FieldReader<U, FI> {
    /// A field reader that holds `bits`.
    pub fn new(bits: U) -> (r: Self)
        ensures
            r@ == bits,
    {
        FieldReader { bits, _reg: PhantomData }
    }

    /// Reads raw bits from the field.
    pub fn bits(&self) -> (r: U)
        ensures
            r == self@,
    {
        self.bits
    }
}

impl<FI> FieldReader<bool, FI> {
    /// Value of the field as raw bit.
    pub fn bit(&self) -> (r: bool)
        ensures
            r == self@,
    {
        self.bits
    }

    /// The bit is clear (0).
    pub fn bit_is_clear(&self) -> (r: bool)
        ensures
            r == !self@,
    {
        !self.bits
    }

    /// The bit is set (1).
    pub fn bit_is_set(&self) -> (r: bool)
        ensures
            r == self@,
    {
        self.bits
    }
}

/// A register cell that holds a word of the width of `REG`.
pub struct Reg<REG: RegisterSpec> {
    register: REG::Ux,
    _marker: PhantomData<REG>,
}

impl<REG: RegisterSpec> View for Reg<REG> {
    type V = REG::Ux;

    closed spec fn view(&self) -> REG::Ux {
        self.register
    }
}

impl<REG: RegisterSpec> Reg<REG> {
    /// A cell that holds `value`.
    pub fn new(value: REG::Ux) -> (r: Self)
        ensures
            r@ == value,
    {
        Reg { register: value, _marker: PhantomData }
    }

    /// Reads the contents of the register.
    pub fn read(&self) -> (r: REG::Reader)
        where REG: Readable
        ensures
            r@ == self@,
    {
        REG::reader(self.register)
    }

    /// Stores the value that `w` holds.
    pub fn write(&mut self, w: &REG::Writer)
        where REG: Writable
        ensures
            final(self)@ == w@,
    {
        self.register = REG::writer_bits(w);
    }

    /// A writer that starts from the contents of the register, for a
    /// read-modify-write.
    pub fn modify_writer(&self) -> (w: REG::Writer)
        where REG: Readable + Writable
        ensures
            w@ == self@,
    {
        REG::writer(self.register)
    }

    /// Puts the register back to its reset value.
    pub fn reset(&mut self)
        where REG: Resettable + Writable
        ensures
            final(self)@ == REG::reset_spec(),
    {
        self.register = REG::reset_value();
    }

    /// A writer that starts from the reset value, for a write of the whole
    /// register.
    pub fn reset_writer() -> (w: REG::Writer)
        where REG: Resettable + Writable
        ensures
            w@ == REG::reset_spec(),
    {
        REG::writer(REG::reset_value())
    }
}

} // verus!

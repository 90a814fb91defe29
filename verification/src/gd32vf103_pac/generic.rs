//! Readers, writers and register cells shared by the peripherals of the GD32VF103.
//!
//! A register cell holds a word of `U`. Reading it gives a reader `R`, whose
//! methods pick out the fields; a writer `W` is built from the reset value (for
//! a write) or from the contents (for a read-modify-write), changed field by
//! field through the field proxies, and stored back.
use core::marker::PhantomData;
use vstd::prelude::*;

verus! {

/// Register or field reader: a value of `U` read from register `T`.
pub struct R<U, T> {
    pub(crate) bits: U,
    _reg: PhantomData<T>,
}

impl<U, T> View for R<U, T> {
    type V = U;

    closed spec fn view(&self) -> U {
        self.bits
    }
}

impl<U: Copy, T> R<U, T> {
    /// Creates a reader that holds `bits`.
    pub fn new(bits: U) -> (r: Self)
        ensures
            r@ == bits,
    {
        R { bits, _reg: PhantomData }
    }

    /// The raw bits the reader holds.
    pub fn bits(&self) -> (r: U)
        ensures
            r == self@,
    {
        self.bits
    }
}

impl<FI> R<bool, FI> {
    /// The value of the bit.
    pub fn bit(&self) -> (r: bool)
        ensures
            r == self@,
    {
        self.bits
    }

    /// The bit is clear (0).
    pub fn bit_is_clear(&self) -> (r: bool)
        ensures
            r == !self@,
    {
        !self.bits
    }

    /// The bit is set (1).
    pub fn bit_is_set(&self) -> (r: bool)
        ensures
            r == self@,
    {
        self.bits
    }
}

/// Register writer: the value of `U` that will be stored in register `REG`.
pub struct W<U, REG> {
    pub(crate) bits: U,
    _reg: PhantomData<REG>,
}

impl<U, REG> View for W<U, REG> {
    type V = U;

    closed spec fn view(&self) -> U {
        self.bits
    }
}

impl<U: Copy, REG> W<U, REG> {
    /// Creates a writer that holds `bits`.
    pub fn new(bits: U) -> (w: Self)
        ensures
            w@ == bits,
    {
        W { bits, _reg: PhantomData }
    }

    /// Writes raw bits to the register.
    pub fn bits(&mut self, bits: U) -> (r: &mut Self)
        ensures
            r@ == bits,
            *final(r) == *final(self),
    {
        self.bits = bits;
        self
    }

    /// The bits the writer holds so far.
    pub fn value(&self) -> (r: U)
        ensures
            r == self@,
    {
        self.bits
    }
}

/// Marks a register that can be read.
pub trait Readable {

}

/// Marks a register that can be written.
pub trait Writable {

}

/// The value a register takes at reset.
pub trait ResetValue {
    /// Width of the register.
    type Type;

    /// The reset value.
    spec fn reset_spec() -> Self::Type;

    /// Returns the reset value.
    fn reset_value() -> (r: Self::Type)
        ensures
            r == Self::reset_spec(),
    ;
}

/// A register cell that holds a word of `U`; `REG` names the register.
pub struct Reg<U, REG> {
    register: U,
    _marker: PhantomData<REG>,
}

impl<U, REG> View for Reg<U, REG> {
    type V = U;

    closed spec fn view(&self) -> U {
        self.register
    }
}

impl<U: Copy, REG> Reg<U, REG> {
    /// A cell that holds `value`.
    pub fn new(value: U) -> (r: Self)
        ensures
            r@ == value,
    {
        Reg { register: value, _marker: PhantomData }
    }

    /// Reads the contents of the register.
    pub fn read(&self) -> (r: R<U, Self>)
        where Self: Readable
        ensures
            r@ == self@,
    {
        R::new(self.register)
    }

    /// Stores the value that `w` holds.
    pub fn write(&mut self, w: &W<U, Self>)
        where Self: Writable
        ensures
            final(self)@ == w@,
    {
        self.register = w.value();
    }

    /// A writer that starts from the contents of the register, for a
    /// read-modify-write.
    pub fn modify_writer(&self) -> (w: W<U, Self>)
        where Self: Readable + Writable
        ensures
            w@ == self@,
    {
        W::new(self.register)
    }

    /// Puts the register back to its reset value.
    pub fn reset(&mut self)
        where Self: ResetValue<Type = U> + Writable
        ensures
            final(self)@ == <Self as ResetValue>::reset_spec(),
    {
        self.register = <Self as ResetValue>::reset_value();
    }

    /// A writer that starts from the reset value, for a write of the whole
    /// register.
    pub fn reset_writer() -> (w: W<U, Self>)
        where Self: ResetValue<Type = U> + Writable
        ensures
            w@ == <Self as ResetValue>::reset_spec(),
    {
        W::new(<Self as ResetValue>::reset_value())
    }
}

} // verus!

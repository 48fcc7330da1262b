//! Constant-memory storage for kernel parameters.
//!
//! A [`Constant<T>`] holds a value that the host populates between kernel
//! launches and that device code reads as a value-typed copy. The storage
//! has a single value visible identically to every reader; reading never
//! changes it.

use vstd::prelude::*;

verus! {

/// A read-only (from the device's side) cell holding a `T`.
pub struct Constant<T: Copy> {
    value: T,
}

impl<T: Copy> View for Constant<T> {
    type V = T;

    closed spec fn view(&self) -> T {
        self.value
    }
}

impl<T: Copy> Constant<T> {
    /// Storage populated with `value`.
    pub fn new(value: T) -> (c: Self)
        ensures
            c@ == value,
    {
        Constant { value }
    }

    /// Host-side update between launches: the storage afterwards holds `value`.
    pub fn set(&mut self, value: T)
        ensures
            final(self)@ == value,
    {
        self.value = value;
    }

    /// Read the current value: a by-value copy of the storage.
    pub fn get(&self) -> (v: T)
        ensures
            v == self@,
    {
        self.value
    }
}

} // verus!

//! A single-owner mutable slot.
//!
//! `Cell<T>` owns exactly one value of type `T`. The slot can be overwritten
//! in place with [`Cell::set`] and, for duplicable values, read out with
//! [`Cell::get`]. The classic hazard of such a slot — two callers mutating
//! it at once — is ruled out at compile time here: mutation demands `&mut`,
//! so a `Cell` has a single logical owner at every point of a program.

use vstd::prelude::*;

verus! {

pub struct Cell<T> {
    value: T,
}

impl<T> View for Cell<T> {
    type V = T;

    closed spec fn view(&self) -> T {
        self.value
    }
}

impl<T> Cell<T> {
    /// Stores `value`; no other effect.
    pub fn new(value: T) -> (cell: Cell<T>)
        ensures
            cell@ == value,
    {
        Cell { value }
    }

    /// Overwrites the stored value unconditionally, discarding the previous
    /// one.
    pub fn set(&mut self, value: T)
        ensures
            final(self)@ == value,
    {
        self.value = value;
    }

    /// Returns a duplicate of the current value without consuming it.
    pub fn get(&self) -> (value: T) where T: Copy
        ensures
            value == self@,
    {
        self.value
    }
}

} // verus!

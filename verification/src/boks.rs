//! An owned heap box.
//!
//! `Boks<T>` places one value on the heap and owns it exclusively: reads go
//! through [`Boks::get`], writes through [`Boks::get_mut`], and the value
//! comes back out with [`Boks::into_inner`]. The backing allocation lives
//! exactly as long as the `Boks` itself.

use vstd::prelude::*;

verus! {

pub struct Boks<T> {
    p: Box<T>,
}

impl<T> View for Boks<T> {
    type V = T;

    closed spec fn view(&self) -> T {
        *self.p
    }
}

impl<T> Boks<T> {
    /// Moves `value` onto the heap.
    pub fn new(value: T) -> (boks: Boks<T>)
        ensures
            boks@ == value,
    {
        Boks { p: Box::new(value) }
    }

    /// Reads the boxed value.
    pub fn get(&self) -> (value: &T)
        ensures
            *value == self@,
    {
        &self.p
    }

    /// Mutable access to the boxed value.
    pub fn get_mut<'a>(&'a mut self) -> (value: &'a mut T)
        ensures
            *value == old(self)@,
            final(self)@ == *final(value),
    {
        &mut self.p
    }

    /// Takes the value back out, freeing the box.
    pub fn into_inner(self) -> (value: T)
        ensures
            value == self@,
    {
        *self.p
    }
}

} // verus!

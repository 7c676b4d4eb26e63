//! Small vector helpers.

use vstd::prelude::*;

verus! {

/// A vector holding `count` copies of `element`.
pub fn filled<T: Copy>(element: T, count: usize) -> (values: Vec<T>)
    ensures
        values@.len() == count,
        forall|i: int| 0 <= i < count ==> values@[i] == element,
{
    let mut values: Vec<T> = Vec::new();
    let mut made: usize = 0;
    while made < count
        invariant
            made <= count,
            values@.len() == made,
            forall|i: int| 0 <= i < made ==> values@[i] == element,
        decreases count - made,
    {
        values.push(element);
        made = made + 1;
    }
    values
}

/// An iterator over no elements at all: `next` always answers `None`.
pub struct EmptyIterator<T> {
    marker: core::marker::PhantomData<T>,
}

impl<T> EmptyIterator<T> {
    pub fn new() -> (it: EmptyIterator<T>) {
        EmptyIterator { marker: core::marker::PhantomData }
    }

    pub fn next(&mut self) -> (item: Option<T>)
        ensures
            item is None,
    {
        None
    }
}

} // verus!

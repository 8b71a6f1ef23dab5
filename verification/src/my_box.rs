//! A transparent single-owner wrapper around a value: plain pass-through
//! read and write access, no reference counting and no shared ownership. An
//! unrelated utility that only shares the crate's namespace.

use vstd::prelude::*;

verus! {

/// A box holding exactly one value, owned by exactly one place.
pub struct MyBox<T> {
    v: T,
}

impl<T> View for MyBox<T> {
    type V = T;

    closed spec fn view(&self) -> T {
        self.v
    }
}

impl<T> MyBox<T> {
    /// Wraps a value.
    pub fn new(x: T) -> (b: MyBox<T>)
        ensures
            b@ == x,
    {
        MyBox { v: x }
    }

    /// Reads the wrapped value.
    pub fn get(&self) -> (r: &T)
        ensures
            *r == self@,
    {
        &self.v
    }

    /// Replaces the wrapped value, handing the old one back.
    pub fn replace(&mut self, x: T) -> (r: T)
        ensures
            final(self)@ == x,
            r == old(self)@,
    {
        let mut x = x;
        core::mem::swap(&mut self.v, &mut x);
        x
    }

    /// Unwraps the value, consuming the box.
    pub fn into_inner(self) -> (r: T)
        ensures
            r == self@,
    {
        self.v
    }
}

} // verus!

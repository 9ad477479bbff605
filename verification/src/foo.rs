//! A container of one value, and a capability that it has through a trait.

use vstd::prelude::*;

verus! {

/// Holds one value of any type.
pub struct Foo<T> {
    pub bar: T,
}

impl<T> Foo<T> {
    /// Gives up the container for the value it holds.
    pub fn get_bar(self) -> (bar: T)
        ensures
            bar == self.bar,
    {
        self.bar
    }
}

/// Something that can be used up to yield a `T`, or nothing.
pub trait Frobnicate<T> {
    fn frobnicate(self) -> Option<T>;
}

impl<T> Frobnicate<T> for Foo<T> {
    /// A container always yields the value it holds.
    fn frobnicate(self) -> (held: Option<T>)
        ensures
            held == Some(self.bar),
    {
        Some(self.bar)
    }
}

} // verus!

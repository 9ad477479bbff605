//! Plain data: two records of a pair of integers, a set of four directions,
//! and two sum types that hold a value or nothing.

use vstd::prelude::*;

verus! {

/// A point in the plane, with named coordinates.
#[derive(Clone, Copy, Debug, PartialEq, Eq)]
pub struct Point {
    pub x: i32,
    pub y: i32,
}

/// A point in the plane, with its coordinates by position.
#[derive(Clone, Copy, Debug, PartialEq, Eq)]
pub struct Point2(pub i32, pub i32);

/// One of four directions.
#[derive(Clone, Copy, Debug, PartialEq, Eq)]
pub enum Direction {
    Left,
    Right,
    Up,
    Down,
}

/// A 32-bit integer, or nothing.
#[derive(Clone, Copy, Debug, PartialEq, Eq)]
pub enum OptionalI32 {
    AnI32(i32),
    Nothing,
}

impl View for OptionalI32 {
    type V = Option<int>;

    /// The integer that is held, if there is one.
    open spec fn view(&self) -> Option<int> {
        match *self {
            OptionalI32::AnI32(n) => Some(n as int),
            OptionalI32::Nothing => None,
        }
    }
}

/// A value of any type, or nothing.
#[derive(Debug, PartialEq, Eq)]
pub enum Optional<T> {
    SomeVal(T),
    NoVal,
}

} // verus!

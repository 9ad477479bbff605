//! What is said of a value once a pattern match has taken it apart.
//!
//! Each function here picks a sentence by the shape and the content of its
//! argument, and returns it as text. The sentences are given, character by
//! character, by [`optional_text`] and [`pair_text`].

use vstd::prelude::*;
use crate::decimal::{decimal, decimal_text};
use crate::types::OptionalI32;

verus! {

/// An integer together with an integer that may be missing.
#[derive(Clone, Copy, Debug, PartialEq, Eq)]
pub struct FooBar {
    pub x: i32,
    pub y: OptionalI32,
}

impl View for FooBar {
    type V = (int, Option<int>);

    /// The first number, and the second if there is one.
    open spec fn view(&self) -> (int, Option<int>) {
        (self.x as int, self.y@)
    }
}

/// The sentence for an integer that may be missing: it names the integer,
/// or says that there is none.
pub open spec fn optional_text(held: Option<int>) -> Seq<char> {
    match held {
        Some(n) => "it's an i32: "@ + decimal_text(n),
        None => "it's nothing"@,
    }
}

/// The sentence for a pair whose second number may be missing.
///
/// Without a second number it says so. Two zeros get a sentence of their
/// own; any other two equal numbers are called the same; two different
/// numbers are both named, the first one first.
pub open spec fn pair_text(pair: (int, Option<int>)) -> Seq<char> {
    match pair.1 {
        None => "The second number is nothing"@,
        Some(m) => if pair.0 == 0 && m == 0 {
            "The numbers are zero!"@
        } else if pair.0 == m {
            "The nubmers are the same!"@
        } else {
            "Different numbers: "@ + decimal_text(pair.0) + ", "@ + decimal_text(m)
        },
    }
}

impl OptionalI32 {
    /// The sentence that says what `self` holds.
    pub fn describe(&self) -> (text: String)
        ensures
            text@ == optional_text(self@),
    {
        match *self {
            OptionalI32::AnI32(n) => {
                let mut text = String::from_str("it's an i32: ");
                text.append(decimal(n).as_str());
                text
            },
            OptionalI32::Nothing => String::from_str("it's nothing"),
        }
    }
}

impl FooBar {
    /// The sentence that compares the two numbers of `self`.
    pub fn describe(&self) -> (text: String)
        ensures
            text@ == pair_text(self@),
    {
        match *self {
            FooBar { x: 0, y: OptionalI32::AnI32(0) } => String::from_str("The numbers are zero!"),
            FooBar { x: n, y: OptionalI32::AnI32(m) } if n == m => String::from_str(
                "The nubmers are the same!",
            ),
            FooBar { x: n, y: OptionalI32::AnI32(m) } => {
                let mut text = String::from_str("Different numbers: ");
                text.append(decimal(n).as_str());
                text.append(", ");
                text.append(decimal(m).as_str());
                text
            },
            FooBar { x: _, y: OptionalI32::Nothing } => String::from_str(
                "The second number is nothing",
            ),
        }
    }
}

} // verus!

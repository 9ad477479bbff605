//! A handful of small building blocks: an addition on `i32` that cannot
//! overflow, plain records and sum types, a generic one-field container with
//! a capability attached through a trait, and the wording of two pattern
//! matches, down to the decimal digits of the numbers they mention.
//!
//! Every function body here is verified against its contract, which says
//! exactly what comes back; no operation can overflow or panic.

use vstd::prelude::*;

pub mod decimal;
pub mod foo;
pub mod matching;
pub mod types;

verus! {

/// The sum of two 32-bit signed integers.
///
/// The caller shows that the sum fits in an `i32`; the result is then the
/// mathematical sum.
pub fn add2(x: i32, y: i32) -> (sum: i32)
    requires
        i32::MIN <= x + y <= i32::MAX,
    ensures
        sum == x + y,
{
    x + y
}

} // verus!

//! Decimal notation for 32-bit signed integers.
//!
//! [`decimal_text`] says, as a sequence of characters, how an integer is
//! written: its digits from the most significant down, without leading
//! zeros, behind a `-` if it is negative. [`decimal`] computes that text.
//! The lemmas at the end show that the notation can be read back, so that
//! it tells any two integers apart.

use vstd::prelude::*;

verus! {

/// The character that stands for the digit `d`, where `0 <= d <= 9`.
pub open spec fn digit_char(d: int) -> char
    recommends
        0 <= d <= 9,
{
    seq!['0', '1', '2', '3', '4', '5', '6', '7', '8', '9'][d]
}

/// The digits of `n`, most significant first. Zero is written `0`.
pub open spec fn digits(n: nat) -> Seq<char>
    decreases n,
{
    if n < 10 {
        seq![digit_char(n as int)]
    } else {
        digits(n / 10).push(digit_char((n % 10) as int))
    }
}

/// How `n` is written in decimal: a minus sign if it is negative, then the
/// digits of its magnitude.
pub open spec fn decimal_text(n: int) -> Seq<char> {
    if n < 0 {
        seq!['-'] + digits((-n) as nat)
    } else {
        digits(n as nat)
    }
}

/// Writes the digits of `n` behind what `text` already holds.
fn append_digits(text: &mut String, n: u32)
    ensures
        final(text)@ == old(text)@ + digits(n as nat),
    decreases n,
{
    if n >= 10 {
        append_digits(text, n / 10);
    }
    let d: usize = (n % 10) as usize;
    let all = "0123456789";
    proof {
        reveal_strlit("0123456789");
        assert(all@.subrange(d as int, d + 1) == seq![digit_char(d as int)]);
    }
    text.append(all.substring_ascii(d, d + 1));
}

/// The decimal notation of `n`.
pub fn decimal(n: i32) -> (text: String)
    ensures
        text@ == decimal_text(n as int),
{
    let mut text = String::new();
    if n < 0 {
        proof {
            reveal_strlit("-");
            assert("-"@ == seq!['-']);
        }
        text.append("-");
        // The magnitude of the least `i32` does not fit in an `i32`.
        let magnitude: i64 = -(n as i64);
        append_digits(&mut text, magnitude as u32);
    } else {
        append_digits(&mut text, n as u32);
    }
    text
}

/// The value of the digit that `c` stands for, where `c` is one of `0` to `9`.
pub open spec fn digit_value(c: char) -> int
    recommends
        '0' <= c <= '9',
{
    c as int - '0' as int
}

/// The number that a row of digits writes, most significant digit first.
pub open spec fn digits_value(text: Seq<char>) -> int
    decreases text.len(),
{
    if text.len() == 0 {
        0
    } else {
        digits_value(text.drop_last()) * 10 + digit_value(text.last())
    }
}

/// The integer that a decimal text writes: a leading `-` negates the number
/// that the digits behind it write.
pub open spec fn decimal_value(text: Seq<char>) -> int {
    if text.len() > 0 && text[0] == '-' {
        -digits_value(text.drop_first())
    } else {
        digits_value(text)
    }
}

/// The digits of a number are at least one character, each of them one of
/// `0` to `9`.
pub proof fn lemma_digits_are_digits(n: nat)
    ensures
        digits(n).len() >= 1,
        forall|i: int| 0 <= i < digits(n).len() ==> '0' <= #[trigger] digits(n)[i] <= '9',
    decreases n,
{
    if n >= 10 {
        lemma_digits_are_digits(n / 10);
    }
}

/// Only zero is written with a zero in front.
pub proof fn lemma_digits_no_leading_zero(n: nat)
    ensures
        digits(n)[0] == '0' <==> n == 0,
    decreases n,
{
    if n >= 10 {
        lemma_digits_are_digits(n / 10);
        lemma_digits_no_leading_zero(n / 10);
    }
}

/// Reading the digits of a number gives the number back.
pub proof fn lemma_digits_value(n: nat)
    ensures
        digits_value(digits(n)) == n,
    decreases n,
{
    let text = digits(n);
    if n < 10 {
        assert(text.drop_last() =~= Seq::<char>::empty());
        assert(digits_value(text.drop_last()) == 0);
    } else {
        lemma_digits_value(n / 10);
        assert(text.drop_last() =~= digits(n / 10));
    }
}

/// Reading the decimal notation of an integer gives the integer back.
pub proof fn lemma_decimal_value(n: int)
    ensures
        decimal_value(decimal_text(n)) == n,
{
    if n < 0 {
        let magnitude = (-n) as nat;
        lemma_digits_value(magnitude);
        assert(decimal_text(n).drop_first() =~= digits(magnitude));
    } else {
        lemma_digits_are_digits(n as nat);
        lemma_digits_value(n as nat);
    }
}

/// Two integers that are written alike are the same integer.
pub proof fn lemma_decimal_text_injective(a: int, b: int)
    requires
        decimal_text(a) == decimal_text(b),
    ensures
        a == b,
{
    lemma_decimal_value(a);
    lemma_decimal_value(b);
}

} // verus!

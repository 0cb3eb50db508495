//! Numbers as text, for the expressions handed to the engine and the messages
//! shown to the user.

use vstd::prelude::*;

verus! {

/// `String::push` of the standard library: the string afterwards is the
/// string before with `ch` appended as its last character.
pub assume_specification[ String::push ](s: &mut String, ch: char)
    ensures
        final(s)@ == old(s)@.push(ch),
;

/// The character that stands for a digit below 16; letters are capitals iff
/// `upper`.
pub open spec fn digit_char(digit: int, upper: bool) -> char {
    if digit < 10 {
        (digit + 48) as char
    } else if upper {
        (digit + 55) as char
    } else {
        (digit + 87) as char
    }
}

/// `n` in decimal, most significant digit first, without leading zeros; zero
/// is the single digit `0`.
pub open spec fn decimal(n: nat) -> Seq<char>
    decreases n,
{
    if n < 10 {
        seq![digit_char(n as int, false)]
    } else {
        decimal(n / 10).push(digit_char((n % 10) as int, false))
    }
}

/// `n` in hexadecimal, most significant digit first, without a prefix and
/// without leading zeros; letters are capitals iff `upper`.
pub open spec fn hex(n: nat, upper: bool) -> Seq<char>
    decreases n,
{
    if n < 16 {
        seq![digit_char(n as int, upper)]
    } else {
        hex(n / 16, upper).push(digit_char((n % 16) as int, upper))
    }
}

/// The character of one digit.
pub fn digit_to_char(digit: u8, upper: bool) -> (c: char)
    requires
        digit < 16,
    ensures
        c == digit_char(digit as int, upper),
{
    if digit < 10 {
        (digit + 48) as char
    } else if upper {
        (digit + 55) as char
    } else {
        (digit + 87) as char
    }
}

/// Appends `n` in decimal to `out`.
pub fn push_decimal(out: &mut String, n: u64)
    ensures
        final(out)@ == old(out)@ + decimal(n as nat),
    decreases n,
{
    if n >= 10 {
        push_decimal(out, n / 10);
    }
    out.push(digit_to_char((n % 10) as u8, false));
}

/// Appends `n` in hexadecimal to `out`, without a prefix.
pub fn push_hex(out: &mut String, n: u64, upper: bool)
    ensures
        final(out)@ == old(out)@ + hex(n as nat, upper),
    decreases n,
{
    if n >= 16 {
        push_hex(out, n / 16, upper);
    }
    out.push(digit_to_char((n % 16) as u8, upper));
}

} // verus!

//! Numbers as text.

use vstd::prelude::*;
use vstd::string::{StrSliceExecFns, StringExecFns};

verus! {

/// The sixteen digits, in order of their value.
pub open spec fn digits() -> Seq<char> {
    seq!['0', '1', '2', '3', '4', '5', '6', '7', '8', '9', 'a', 'b', 'c', 'd', 'e', 'f']
}

/// A number in decimal notation, without leading zeros.
pub open spec fn decimal(n: nat) -> Seq<char>
    decreases n,
{
    if n < 10 {
        seq![digits()[n as int]]
    } else {
        decimal(n / 10).push(digits()[(n % 10) as int])
    }
}

/// A 16-bit number as four hexadecimal digits, in lower case.
pub open spec fn hex4(value: u16) -> Seq<char> {
    seq![
        digits()[value as int / 4096],
        digits()[value as int / 256 % 16],
        digits()[value as int / 16 % 16],
        digits()[value as int % 16],
    ]
}

/// The digit of value `d`.
fn digit(d: usize) -> (text: &'static str)
    requires
        d < 16,
    ensures
        text@ == seq![digits()[d as int]],
{
    let all = "0123456789abcdef";
    proof {
        reveal_strlit("0123456789abcdef");
    }
    all.substring_ascii(d, d + 1)
}

/// Writes a number in decimal notation.
pub fn to_decimal(n: usize) -> (text: String)
    ensures
        text@ == decimal(n as nat),
    decreases n,
{
    if n < 10 {
        String::from_str(digit(n))
    } else {
        let mut text = to_decimal(n / 10);
        text.append(digit(n % 10));
        text
    }
}

/// Writes a 16-bit number as four hexadecimal digits.
pub fn to_hex4(value: u16) -> (text: String)
    ensures
        text@ == hex4(value),
{
    let v = value as usize;
    let mut text = String::from_str(digit(v / 4096));
    text.append(digit(v / 256 % 16));
    text.append(digit(v / 16 % 16));
    text.append(digit(v % 16));
    text
}

} // verus!

//! Numbers travel through the library as the bit patterns of IEEE-754
//! binary64 values; this module holds what the library knows of them.
//! Reading a number out of text happens outside the library, which
//! receives the resulting bit patterns.
use vstd::prelude::*;

verus! {

/// Mask of the exponent field of a binary64 bit pattern.
pub const EXPONENT_MASK: u64 = 0x7ff0_0000_0000_0000u64;

/// A bit pattern denotes a finite number (neither infinite nor NaN) exactly
/// when its exponent field is not all ones.
pub open spec fn is_finite_bits(bits: u64) -> bool {
    bits & EXPONENT_MASK != EXPONENT_MASK
}

/// A bit pattern denotes a finite number greater than zero exactly when its
/// sign bit is clear, it is not `+0.0`, and its exponent field is not all
/// ones: the patterns strictly between `0` and `0x7ff0_0000_0000_0000`.
pub open spec fn is_positive_finite_bits(bits: u64) -> bool {
    0 < bits && bits < EXPONENT_MASK
}

/// Whether a bit pattern denotes a finite binary64 number.
pub fn finite_bits(bits: u64) -> (finite: bool)
    ensures
        finite == is_finite_bits(bits),
{
    bits & EXPONENT_MASK != EXPONENT_MASK
}

/// Whether a bit pattern denotes a finite binary64 number above zero.
pub fn positive_finite_bits(bits: u64) -> (positive: bool)
    ensures
        positive == is_positive_finite_bits(bits),
{
    0 < bits && bits < EXPONENT_MASK
}

} // verus!

verus! {

/// The character of a decimal digit.
pub open spec fn digit_char(d: nat) -> char {
    (('0' as u32) + d) as char
}

/// The decimal text of a natural number, as `u64`'s `Display` writes it.
pub open spec fn decimal(n: nat) -> Seq<char>
    decreases n,
{
    if n < 10 {
        seq![digit_char(n)]
    } else {
        decimal(n / 10).push(digit_char(n % 10))
    }
}

fn digit_text(d: u64) -> (text: &'static str)
    requires
        d < 10,
    ensures
        text@ == seq![digit_char(d as nat)],
{
    proof {
        reveal_strlit("0");
        reveal_strlit("1");
        reveal_strlit("2");
        reveal_strlit("3");
        reveal_strlit("4");
        reveal_strlit("5");
        reveal_strlit("6");
        reveal_strlit("7");
        reveal_strlit("8");
        reveal_strlit("9");
    }
    match d {
        0 => "0",
        1 => "1",
        2 => "2",
        3 => "3",
        4 => "4",
        5 => "5",
        6 => "6",
        7 => "7",
        8 => "8",
        _ => "9",
    }
}

/// The decimal text of a number.
pub fn decimal_text(n: u64) -> (text: String)
    ensures
        text@ == decimal(n as nat),
    decreases n,
{
    if n < 10 {
        String::from_str(digit_text(n))
    } else {
        let mut text = decimal_text(n / 10);
        text.append(digit_text(n % 10));
        text
    }
}

} // verus!

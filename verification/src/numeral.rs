//! Positional numerals: the digits of a number in base 2, 10 or 16, padded
//! with leading zeros to a minimum count.

use crate::text::{push_repeated, repeated};
use vstd::arithmetic::div_mod::lemma_div_decreases;
use vstd::arithmetic::power2::{lemma2_to64, lemma_pow2_adds, lemma_pow2_unfold, pow2};
use vstd::prelude::*;

verus! {

/// The bases in which numbers are written.
#[derive(Clone, Copy, Debug, PartialEq, Eq, Structural)]
pub enum Radix {
    Binary,
    Decimal,
    Hex,
}

impl Radix {
    /// The number of distinct digits of the radix.
    pub open spec fn base(self) -> nat {
        match self {
            Radix::Binary => 2,
            Radix::Decimal => 10,
            Radix::Hex => 16,
        }
    }

    /// The base as a machine integer.
    pub fn base_value(self) -> (b: u128)
        ensures
            b == self.base(),
    {
        match self {
            Radix::Binary => 2,
            Radix::Decimal => 10,
            Radix::Hex => 16,
        }
    }
}

/// The character for the digit `d`: `0`..`9`, then lower case `a`..`f`.
pub open spec fn digit_char(d: nat) -> char {
    if d < 10 {
        (48 + d) as char
    } else {
        (87 + d) as char
    }
}

/// The digits of `n` in the given base, most significant first, without
/// leading zeros; zero is the single digit `0`.
pub open spec fn digits(n: nat, base: nat) -> Seq<char>
    decreases n,
{
    if base < 2 || n < base {
        seq![digit_char(n)]
    } else {
        proof {
            lemma_div_decreases(n as int, base as int);
        }
        digits(n / base, base).push(digit_char(n % base))
    }
}

/// The digits of `n`, with zeros in front until there are at least
/// `min_digits` of them.
pub open spec fn padded(n: nat, base: nat, min_digits: nat) -> Seq<char> {
    let d = digits(n, base);
    if d.len() >= min_digits {
        d
    } else {
        repeated('0', (min_digits - d.len()) as nat) + d
    }
}

/// A number below `2^k` has at most `k` digits, in any base.
pub proof fn lemma_digits_len_bound(n: nat, base: nat, k: nat)
    requires
        base >= 2,
        k >= 1,
        n < pow2(k),
    ensures
        1 <= digits(n, base).len() <= k,
    decreases k,
{
    if n >= base {
        lemma_pow2_unfold(k);
        if k == 1 {
            lemma2_to64();
        } else {
            let q = n / base;
            assert(q <= n / 2) by (nonlinear_arith)
                requires
                    q == n / base,
                    base >= 2,
            ;
            lemma_digits_len_bound(q, base, (k - 1) as nat);
        }
    }
}

/// Padding never shortens a numeral, and a number that fits in `min_digits`
/// binary places is written with exactly that many digits.
pub proof fn lemma_padded_len(n: nat, base: nat, min_digits: nat)
    requires
        base >= 2,
    ensures
        padded(n, base, min_digits).len() >= min_digits,
        padded(n, base, min_digits).len() >= 1,
        min_digits >= 1 && n < pow2(min_digits) ==> padded(n, base, min_digits).len()
            == min_digits,
{
    if min_digits >= 1 && n < pow2(min_digits) {
        lemma_digits_len_bound(n, base, min_digits);
    }
}

/// Every 128-bit value has at most 128 digits.
proof fn lemma_u128_digits(value: u128, base: nat)
    requires
        base >= 2,
    ensures
        1 <= digits(value as nat, base).len() <= 128,
{
    lemma2_to64();
    lemma_pow2_adds(64, 64);
    lemma_digits_len_bound(value as nat, base, 128);
}

/// The character for a digit.
fn digit(d: u8) -> (c: char)
    requires
        d < 16,
    ensures
        c == digit_char(d as nat),
{
    if d < 10 {
        (48u8 + d) as char
    } else {
        (87u8 + d) as char
    }
}

/// The number of digits of `value` without padding.
fn digit_count(value: u128, base: u128) -> (n: usize)
    requires
        2 <= base <= 16,
    ensures
        n == digits(value as nat, base as nat).len(),
        1 <= n <= 128,
    decreases value,
{
    proof {
        lemma_u128_digits(value, base as nat);
    }
    if value < base {
        1
    } else {
        proof {
            lemma_div_decreases(value as int, base as int);
        }
        1 + digit_count(value / base, base)
    }
}

/// Appends to `out` the digits of `value` without padding.
fn push_digits(out: &mut String, value: u128, base: u128)
    requires
        2 <= base <= 16,
    ensures
        final(out)@ == old(out)@ + digits(value as nat, base as nat),
    decreases value,
{
    if value < base {
        out.push(digit(value as u8));
    } else {
        proof {
            lemma_div_decreases(value as int, base as int);
        }
        push_digits(out, value / base, base);
        out.push(digit((value % base) as u8));
    }
}

/// Appends to `out` the numeral of `value` in the given radix, with at
/// least `min_digits` digits.
pub fn push_numeral(out: &mut String, value: u128, radix: Radix, min_digits: usize)
    ensures
        final(out)@ == old(out)@ + padded(value as nat, radix.base(), min_digits as nat),
{
    let base = radix.base_value();
    let count = digit_count(value, base);
    if count < min_digits {
        push_repeated(out, '0', min_digits - count);
    }
    push_digits(out, value, base);
}

/// The numeral of `value` in the given radix, with at least `min_digits`
/// digits.
pub fn numeral(value: u128, radix: Radix, min_digits: usize) -> (s: String)
    ensures
        s@ == padded(value as nat, radix.base(), min_digits as nat),
{
    let mut s = String::new();
    push_numeral(&mut s, value, radix, min_digits);
    s
}

} // verus!

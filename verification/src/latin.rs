//! The abbreviated Latin-script formatter: plain decimal digits, or a
//! quotient with a `k` or `m` suffix, the scale chosen purely from the
//! count of trailing zero digits.

use vstd::prelude::*;
use crate::glyphs::{decimal_digit_glyph, decimal_digit_str};
use crate::{abs_val, pow10};

verus! {

/// The count of trailing zero decimal digits of `m`: the largest `k` such
/// that 10 to the `k` divides `m` (zero for `m == 0`).
pub open spec fn trailing_zeros(m: nat) -> nat
    decreases m,
{
    if m == 0 || m % 10 != 0 {
        0
    } else {
        1 + trailing_zeros(m / 10)
    }
}

/// The decimal digit string of `m`, most significant digit first (empty
/// for zero).
pub open spec fn decimal_seq(m: nat) -> Seq<char>
    decreases m,
{
    if m == 0 {
        Seq::empty()
    } else {
        decimal_seq(m / 10) + seq![decimal_digit_glyph((m % 10) as int)]
    }
}

/// The abbreviated Latin form of a magnitude in the supported range:
/// with fewer than three trailing zeros the plain digits, with three to
/// five the thousands quotient and `k`, with six or more the millions
/// quotient and `m`. The scale is driven by trailing zeros alone, never
/// by the size of the magnitude.
pub open spec fn latin_spec(m: nat) -> Seq<char> {
    let tier = trailing_zeros(m) / 3;
    if tier == 0 {
        decimal_seq(m)
    } else if tier == 1 {
        decimal_seq(m / 1000) + seq!['k']
    } else {
        decimal_seq(m / 1000000) + seq!['m']
    }
}

/// A positive number is at least the power of ten that divides it.
proof fn lemma_trailing_zeros_bound(m: nat)
    requires
        m >= 1,
    ensures
        pow10(trailing_zeros(m)) <= m,
    decreases m,
{
    if m % 10 == 0 {
        lemma_trailing_zeros_bound(m / 10);
        assert(pow10(trailing_zeros(m)) == 10 * pow10(trailing_zeros(m / 10)));
        assert(10 * pow10(trailing_zeros(m / 10)) <= 10 * (m / 10));
    }
}

/// Powers of ten do not decrease.
proof fn lemma_pow10_increases(a: nat, b: nat)
    requires
        a <= b,
    ensures
        pow10(a) <= pow10(b),
    decreases b,
{
    if a < b {
        lemma_pow10_increases(a, (b - 1) as nat);
    }
}

/// A magnitude under one hundred million has at most seven trailing zeros.
proof fn lemma_trailing_zeros_small(m: nat)
    requires
        1 <= m < 100000000,
    ensures
        trailing_zeros(m) <= 7,
{
    if trailing_zeros(m) > 7 {
        lemma_trailing_zeros_bound(m);
        lemma_pow10_increases(8, trailing_zeros(m));
        crate::lemma_pow10_values();
    }
}

/// Counts the trailing zero decimal digits of `m`.
fn count_trailing_zeros(m: u32) -> (t: u32)
    requires
        1 <= m < 100000000,
    ensures
        t == trailing_zeros(m as nat),
{
    proof {
        lemma_trailing_zeros_small(m as nat);
    }
    let mut cur = m;
    let mut t: u32 = 0;
    while cur % 10 == 0
        invariant
            1 <= cur <= m,
            trailing_zeros(m as nat) == t + trailing_zeros(cur as nat),
            t <= trailing_zeros(m as nat) <= 7,
        decreases cur,
    {
        cur = cur / 10;
        t = t + 1;
    }
    t
}

/// Builds the decimal digit string of `m`.
fn decimal_string(m: u32) -> (r: String)
    requires
        m >= 1,
    ensures
        r@ == decimal_seq(m as nat),
{
    let mut cur = m;
    let mut r = String::new();
    while cur > 0
        invariant
            decimal_seq(m as nat) == decimal_seq(cur as nat) + r@,
        decreases cur,
    {
        let d = cur % 10;
        let mut piece = String::from_str(decimal_digit_str(d));
        piece.append(r.as_str());
        proof {
            assert(decimal_seq((cur / 10) as nat) + piece@ =~= decimal_seq(cur as nat) + r@);
        }
        r = piece;
        cur = cur / 10;
    }
    proof {
        assert(decimal_seq(0) + r@ =~= r@);
    }
    r
}

/// Formats the magnitude of `number` as an abbreviated Latin-script
/// string. A zero amount, or one whose magnitude is at or above one
/// hundred million, has no representation.
pub fn format_latin_number(number: i32) -> (r: Option<String>)
    ensures
        match r {
            Some(s) => 1 <= abs_val(number) < 100000000 && s@ == latin_spec(abs_val(number)),
            None => !(1 <= abs_val(number) < 100000000),
        },
{
    if number == 0 || number >= 100000000 || number <= -100000000 {
        return None;
    }
    let mag: u32 = if number < 0 {
        (-number) as u32
    } else {
        number as u32
    };
    proof {
        lemma_trailing_zeros_small(mag as nat);
    }
    let t = count_trailing_zeros(mag);
    let tier = t / 3;
    proof {
        if tier >= 1 {
            lemma_trailing_zeros_bound(mag as nat);
            lemma_pow10_increases(3, trailing_zeros(mag as nat));
            if tier >= 2 {
                lemma_pow10_increases(6, trailing_zeros(mag as nat));
            }
            crate::lemma_pow10_values();
        }
    }
    if tier == 0 {
        Some(decimal_string(mag))
    } else if tier == 1 {
        let mut s = decimal_string(mag / 1000);
        s.append("k");
        proof {
            reveal_strlit("k");
            assert(s@ =~= latin_spec(mag as nat));
        }
        Some(s)
    } else if tier == 2 {
        let mut s = decimal_string(mag / 1000000);
        s.append("m");
        proof {
            reveal_strlit("m");
            assert(s@ =~= latin_spec(mag as nat));
        }
        Some(s)
    } else {
        // An unsupported scale; never reached, as a magnitude under one
        // hundred million has at most seven trailing zeros.
        None
    }
}

} // verus!

//! The fully spelled-out Han-script formatter: myriad grouping at ten
//! thousand and above, and a digit-by-digit build below it, with zero-run
//! elision and the thousands-position substitution for the digit two.

use vstd::prelude::*;
use crate::glyphs::{
    ZERO_MARK, MYRIAD_MARK, digit_glyph, exponent_glyph, digit_glyph_str, exponent_glyph_str,
    zero_mark_str, myriad_mark_str,
};
use crate::{abs_val, pow10};

verus! {

/// The digit-by-digit build for the remaining digits of `m`, whose least
/// significant digit sits at decimal position `exp`, prepended onto the
/// tokens `acc` already built for the lower positions. A zero digit
/// prepends the zero mark only when something is already built and the
/// zero mark is not already in front; a non-zero digit prepends its glyph
/// and, above the units position, the scale glyph of its position.
pub open spec fn han_digits(m: nat, exp: nat, acc: Seq<char>) -> Seq<char>
    decreases m,
{
    if m == 0 {
        acc
    } else {
        let d = m % 10;
        let acc2 = if d == 0 {
            if acc.len() > 0 && acc[0] != ZERO_MARK {
                seq![ZERO_MARK] + acc
            } else {
                acc
            }
        } else {
            if exp == 0 {
                seq![digit_glyph(d as int, 0)] + acc
            } else {
                seq![digit_glyph(d as int, exp as int), exponent_glyph(exp as int)] + acc
            }
        };
        han_digits(m / 10, exp + 1, acc2)
    }
}

/// The fully spelled-out Han form of a magnitude in the supported range.
/// At ten thousand and above, the upper part is followed by the myriad
/// mark and then the lower part, which is empty when it is zero; the two
/// parts are built independently, so no zero mark crosses the myriad
/// boundary.
pub open spec fn han_spec(m: nat) -> Seq<char>
    decreases m,
{
    if m >= 10000 {
        let upper = m / 10000;
        let lower = m % 10000;
        han_spec(upper) + seq![MYRIAD_MARK] + (if lower == 0 {
            Seq::<char>::empty()
        } else {
            han_spec(lower)
        })
    } else {
        han_digits(m, 0, Seq::empty())
    }
}

/// Builds the Han form of a magnitude below ten thousand.
fn format_han_small(m: u32) -> (r: String)
    requires
        1 <= m <= 9999,
    ensures
        r@ == han_digits(m as nat, 0, Seq::empty()),
{
    proof {
        crate::lemma_pow10_values();
    }
    let mut cur = m;
    let mut exp: u32 = 0;
    let mut r = String::new();
    while cur > 0
        invariant
            exp <= 4,
            (cur as nat) < pow10((4 - exp) as nat),
            han_digits(m as nat, 0, Seq::empty()) == han_digits(cur as nat, exp as nat, r@),
        decreases cur,
    {
        proof {
            if exp == 4 {
                assert(pow10(0) == 1);
                assert(false);
            }
            assert(pow10((4 - exp) as nat) == 10 * pow10((3 - exp) as nat));
        }
        let ghost prev = r@;
        let d = cur % 10;
        if d == 0 {
            let grow = if r.as_str().is_empty() {
                false
            } else {
                r.as_str().get_char(0) != ZERO_MARK
            };
            if grow {
                let mut piece = String::from_str(zero_mark_str());
                piece.append(r.as_str());
                r = piece;
                proof {
                    assert(r@ =~= seq![ZERO_MARK] + prev);
                }
            }
        } else {
            let mut piece = String::from_str(digit_glyph_str(d, exp));
            if exp > 0 {
                piece.append(exponent_glyph_str(exp));
            }
            piece.append(r.as_str());
            r = piece;
            proof {
                if exp == 0 {
                    assert(r@ =~= seq![digit_glyph(d as int, 0)] + prev);
                } else {
                    assert(r@ =~= seq![
                        digit_glyph(d as int, exp as int),
                        exponent_glyph(exp as int),
                    ] + prev);
                }
            }
        }
        proof {
            assert(han_digits(cur as nat, exp as nat, prev) == han_digits(
                (cur / 10) as nat,
                (exp + 1) as nat,
                r@,
            ));
        }
        cur = cur / 10;
        exp = exp + 1;
    }
    r
}

/// Formats the magnitude of `number` as a fully spelled-out Han-script
/// string. A zero amount, or one whose magnitude is at or above one
/// hundred million, has no representation.
pub fn format_chinese_number(number: i32) -> (r: Option<String>)
    ensures
        match r {
            Some(s) => 1 <= abs_val(number) < 100000000 && s@ == han_spec(abs_val(number)),
            None => !(1 <= abs_val(number) < 100000000),
        },
{
    if number == 0 || number >= 100000000 || number <= -100000000 {
        return None;
    }
    let mag: u32 = if number < 0 {
        (-number) as u32
    } else {
        number as u32
    };
    if mag >= 10000 {
        let upper = mag / 10000;
        let lower = mag % 10000;
        let mut s = format_han_small(upper);
        s.append(myriad_mark_str());
        proof {
            assert(han_spec(upper as nat) == han_digits(upper as nat, 0, Seq::empty()));
        }
        if lower != 0 {
            let low = format_han_small(lower);
            s.append(low.as_str());
            proof {
                assert(han_spec(lower as nat) == han_digits(lower as nat, 0, Seq::empty()));
                assert(s@ =~= han_spec(mag as nat));
            }
        } else {
            proof {
                assert(s@ =~= han_spec(mag as nat));
            }
        }
        Some(s)
    } else {
        Some(format_han_small(mag))
    }
}

} // verus!

//! A mechanical reading of Han numeral strings under the positional-value
//! rules, and the proof that the formatter round-trips: every supported
//! magnitude formats to a string that reads back as the same magnitude.

use vstd::prelude::*;
use crate::glyphs::{
    ZERO_MARK, MYRIAD_MARK, TWO_MARK_FOR_THOUSANDS, is_ordinary_digit_glyph,
    digit_glyph, exponent_glyph,
};
use crate::han::{han_digits, han_spec};
use crate::pow10;

verus! {

/// The numeric value of a digit glyph; the thousands substitute counts
/// as two.
pub open spec fn digit_glyph_value(c: char) -> int {
    if c == '一' {
        1
    } else if c == '二' {
        2
    } else if c == '三' {
        3
    } else if c == '四' {
        4
    } else if c == '五' {
        5
    } else if c == '六' {
        6
    } else if c == '七' {
        7
    } else if c == '八' {
        8
    } else if c == '九' {
        9
    } else if c == TWO_MARK_FOR_THOUSANDS {
        2
    } else {
        0
    }
}

/// Whether `c` denotes a non-zero digit.
pub open spec fn is_digit_glyph_char(c: char) -> bool {
    is_ordinary_digit_glyph(c) || c == TWO_MARK_FOR_THOUSANDS
}

/// Whether `c` is one of the three scale glyphs.
pub open spec fn is_exponent_glyph(c: char) -> bool {
    c == '十' || c == '百' || c == '千'
}

/// The multiplier a scale glyph stands for.
pub open spec fn exponent_glyph_value(c: char) -> int {
    if c == '十' {
        10
    } else if c == '百' {
        100
    } else if c == '千' {
        1000
    } else {
        0
    }
}

/// Reads a Han numeral string left to right: a digit glyph grouped with a
/// following scale glyph adds their product to the open section, a bare
/// digit glyph adds itself, the zero mark adds nothing, and the myriad
/// mark closes the section and scales the running total by ten thousand.
pub open spec fn han_eval(s: Seq<char>, total: int, section: int) -> int
    decreases s.len(),
{
    if s.len() == 0 {
        total + section
    } else if s[0] == ZERO_MARK {
        han_eval(s.skip(1), total, section)
    } else if s[0] == MYRIAD_MARK {
        han_eval(s.skip(1), (total + section) * 10000, 0)
    } else if is_digit_glyph_char(s[0]) {
        if s.len() >= 2 && is_exponent_glyph(s[1]) {
            han_eval(
                s.skip(2),
                total,
                section + digit_glyph_value(s[0]) * exponent_glyph_value(s[1]),
            )
        } else {
            han_eval(s.skip(1), total, section + digit_glyph_value(s[0]))
        }
    } else {
        han_eval(s.skip(1), total, section)
    }
}

/// The magnitude a Han numeral string denotes.
pub open spec fn han_value(s: Seq<char>) -> int {
    han_eval(s, 0, 0)
}

/// Reading the tokens that the digit-by-digit build prepends for `m` adds
/// `m` shifted to its decimal position into the open section, whatever
/// follows them.
proof fn lemma_han_digits_eval(
    m: nat,
    exp: nat,
    acc: Seq<char>,
    t: Seq<char>,
    total: int,
    section: int,
)
    requires
        exp <= 4,
        (m as int) < pow10((4 - exp) as nat),
        acc.len() == 0 || !is_exponent_glyph(acc[0]),
        t.len() == 0 || !is_exponent_glyph(t[0]),
    ensures
        han_eval(han_digits(m, exp, acc) + t, total, section) == han_eval(
            acc + t,
            total,
            section + m * pow10(exp),
        ),
    decreases m,
{
    if m == 0 {
        assert(han_digits(m, exp, acc) == acc);
    } else {
        let d = m % 10;
        if exp == 4 {
            assert(pow10(0) == 1);
            assert(false);
        }
        assert(pow10((4 - exp) as nat) == 10 * pow10((3 - exp) as nat));
        let acc2 = if d == 0 {
            if acc.len() > 0 && acc[0] != ZERO_MARK {
                seq![ZERO_MARK] + acc
            } else {
                acc
            }
        } else {
            if exp == 0 {
                seq![digit_glyph(d as int, 0)] + acc
            } else {
                seq![digit_glyph(d as int, exp as int), exponent_glyph(exp as int)] + acc
            }
        };
        assert(han_digits(m, exp, acc) == han_digits(m / 10, exp + 1, acc2));
        assert(acc2.len() == 0 || !is_exponent_glyph(acc2[0]));
        lemma_han_digits_eval(m / 10, exp + 1, acc2, t, total, section);
        // Reading the freshly prepended token leaves exactly `d` at this
        // position in the section.
        let s2 = section + (m / 10) * pow10(exp + 1);
        if d == 0 {
            if acc.len() > 0 && acc[0] != ZERO_MARK {
                assert((seq![ZERO_MARK] + acc + t).skip(1) =~= acc + t);
                assert(han_eval(acc2 + t, total, s2) == han_eval(acc + t, total, s2));
            }
        } else {
            if exp == 0 {
                let g = digit_glyph(d as int, 0);
                let u = seq![g] + acc + t;
                assert(acc2 + t =~= u);
                assert(is_digit_glyph_char(g) && g != ZERO_MARK && g != MYRIAD_MARK);
                assert(digit_glyph_value(g) == d);
                if u.len() >= 2 {
                    assert(u[1] == (acc + t)[0]);
                    assert(!is_exponent_glyph(u[1]));
                }
                assert(u.skip(1) =~= acc + t);
                assert(han_eval(u, total, s2) == han_eval(acc + t, total, s2 + d));
                assert(pow10(0) == 1);
            } else {
                let g = digit_glyph(d as int, exp as int);
                let e = exponent_glyph(exp as int);
                let u = seq![g, e] + acc + t;
                assert(acc2 + t =~= u);
                assert(is_digit_glyph_char(g) && g != ZERO_MARK && g != MYRIAD_MARK);
                assert(digit_glyph_value(g) == d);
                assert(is_exponent_glyph(e));
                crate::lemma_pow10_values();
                assert(exponent_glyph_value(e) == pow10(exp));
                assert(u.skip(2) =~= acc + t);
                assert(han_eval(u, total, s2) == han_eval(
                    acc + t,
                    total,
                    s2 + d * pow10(exp),
                ));
            }
        }
        let p: int = pow10(exp) as int;
        let p1: int = pow10(exp + 1) as int;
        let q: int = (m / 10) as int;
        assert(d * p + q * p1 == m * p) by (nonlinear_arith)
            requires
                p1 == 10 * p,
                m == 10 * q + d,
        ;
    }
}

/// The round-trip law: every supported magnitude has a Han form, and
/// reading that form back under the positional-value rules yields the
/// magnitude itself.
pub proof fn lemma_han_round_trip(m: nat)
    requires
        1 <= m < 100000000,
    ensures
        han_value(han_spec(m)) == m,
{
    crate::lemma_pow10_values();
    if m >= 10000 {
        let upper = m / 10000;
        let lower = m % 10000;
        let low = if lower == 0 {
            Seq::<char>::empty()
        } else {
            han_spec(lower)
        };
        let t = seq![MYRIAD_MARK] + low;
        assert(han_spec(upper) == han_digits(upper, 0, Seq::empty()));
        assert(han_spec(m) =~= han_digits(upper, 0, Seq::empty()) + t);
        lemma_han_digits_eval(upper, 0, Seq::empty(), t, 0, 0);
        assert(Seq::<char>::empty() + t =~= t);
        assert(han_eval(han_spec(m), 0, 0) == han_eval(t, 0, upper as int));
        assert(t.skip(1) =~= low);
        assert(han_eval(t, 0, upper as int) == han_eval(low, upper as int * 10000, 0));
        if lower == 0 {
            assert(han_eval(low, upper as int * 10000, 0) == upper as int * 10000);
        } else {
            assert(low =~= han_digits(lower, 0, Seq::empty()) + Seq::<char>::empty());
            lemma_han_digits_eval(lower, 0, Seq::empty(), Seq::empty(), upper as int * 10000, 0);
            assert(Seq::<char>::empty() + Seq::<char>::empty() =~= Seq::<char>::empty());
            assert(han_eval(low, upper as int * 10000, 0) == upper as int * 10000 + lower);
        }
    } else {
        assert(han_spec(m) =~= han_digits(m, 0, Seq::empty()) + Seq::<char>::empty());
        lemma_han_digits_eval(m, 0, Seq::empty(), Seq::empty(), 0, 0);
        assert(Seq::<char>::empty() + Seq::<char>::empty() =~= Seq::<char>::empty());
    }
}

} // verus!

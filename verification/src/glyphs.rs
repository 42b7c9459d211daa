//! The fixed glyph tables: nine digit glyphs, three scale glyphs, and the
//! three reserved marks with special insertion rules.

use vstd::prelude::*;

verus! {

/// The glyph that stands for a run of interior zero digits.
pub const ZERO_MARK: char = '零';

/// The glyph that separates the upper (myriad) part from the lower part.
pub const MYRIAD_MARK: char = '万';

/// The substitute glyph for the digit two in the thousands position.
pub const TWO_MARK_FOR_THOUSANDS: char = '两';

/// The ordinary glyph for a non-zero digit (1 through 9).
pub open spec fn ordinary_digit_glyph(d: int) -> char {
    if d == 1 {
        '一'
    } else if d == 2 {
        '二'
    } else if d == 3 {
        '三'
    } else if d == 4 {
        '四'
    } else if d == 5 {
        '五'
    } else if d == 6 {
        '六'
    } else if d == 7 {
        '七'
    } else if d == 8 {
        '八'
    } else {
        '九'
    }
}

/// The glyph chosen for digit `d` at decimal position `exp`: the ordinary
/// glyph, except that a two in the thousands position uses the substitute.
pub open spec fn digit_glyph(d: int, exp: int) -> char {
    if exp == 3 && d == 2 {
        TWO_MARK_FOR_THOUSANDS
    } else {
        ordinary_digit_glyph(d)
    }
}

/// The scale glyph for decimal position `exp` (1 = tens, 2 = hundreds,
/// 3 = thousands).
pub open spec fn exponent_glyph(exp: int) -> char {
    if exp == 1 {
        '十'
    } else if exp == 2 {
        '百'
    } else {
        '千'
    }
}

/// Whether `c` is one of the nine ordinary digit glyphs.
pub open spec fn is_ordinary_digit_glyph(c: char) -> bool {
    c == '一' || c == '二' || c == '三' || c == '四' || c == '五' || c == '六' || c == '七'
        || c == '八' || c == '九'
}

/// The one-character string holding the glyph of digit `d` at position `exp`.
pub fn digit_glyph_str(d: u32, exp: u32) -> (r: &'static str)
    requires
        1 <= d <= 9,
    ensures
        r@ == seq![digit_glyph(d as int, exp as int)],
{
    proof {
        reveal_strlit("两");
        reveal_strlit("一");
        reveal_strlit("二");
        reveal_strlit("三");
        reveal_strlit("四");
        reveal_strlit("五");
        reveal_strlit("六");
        reveal_strlit("七");
        reveal_strlit("八");
        reveal_strlit("九");
    }
    let r: &'static str = if exp == 3 && d == 2 {
        "两"
    } else {
        match d {
            1 => "一",
            2 => "二",
            3 => "三",
            4 => "四",
            5 => "五",
            6 => "六",
            7 => "七",
            8 => "八",
            _ => "九",
        }
    };
    proof {
        assert(r@ =~= seq![digit_glyph(d as int, exp as int)]);
    }
    r
}

/// The one-character string holding the scale glyph for position `exp`.
pub fn exponent_glyph_str(exp: u32) -> (r: &'static str)
    requires
        1 <= exp <= 3,
    ensures
        r@ == seq![exponent_glyph(exp as int)],
{
    proof {
        reveal_strlit("十");
        reveal_strlit("百");
        reveal_strlit("千");
    }
    let r: &'static str = match exp {
        1 => "十",
        2 => "百",
        _ => "千",
    };
    proof {
        assert(r@ =~= seq![exponent_glyph(exp as int)]);
    }
    r
}

/// The one-character string holding the zero mark.
pub fn zero_mark_str() -> (r: &'static str)
    ensures
        r@ == seq![ZERO_MARK],
{
    proof {
        reveal_strlit("零");
    }
    let r = "零";
    proof {
        assert(r@ =~= seq![ZERO_MARK]);
    }
    r
}

/// The one-character string holding the myriad mark.
pub fn myriad_mark_str() -> (r: &'static str)
    ensures
        r@ == seq![MYRIAD_MARK],
{
    proof {
        reveal_strlit("万");
    }
    let r = "万";
    proof {
        assert(r@ =~= seq![MYRIAD_MARK]);
    }
    r
}

/// The decimal digit character for `d` (0 through 9).
pub open spec fn decimal_digit_glyph(d: int) -> char {
    if d == 0 {
        '0'
    } else if d == 1 {
        '1'
    } else if d == 2 {
        '2'
    } else if d == 3 {
        '3'
    } else if d == 4 {
        '4'
    } else if d == 5 {
        '5'
    } else if d == 6 {
        '6'
    } else if d == 7 {
        '7'
    } else if d == 8 {
        '8'
    } else {
        '9'
    }
}

/// The one-character string holding the decimal digit character for `d`.
pub fn decimal_digit_str(d: u32) -> (r: &'static str)
    requires
        d <= 9,
    ensures
        r@ == seq![decimal_digit_glyph(d as int)],
{
    proof {
        reveal_strlit("0");
        reveal_strlit("1");
        reveal_strlit("2");
        reveal_strlit("3");
        reveal_strlit("4");
        reveal_strlit("5");
        reveal_strlit("6");
        reveal_strlit("7");
        reveal_strlit("8");
        reveal_strlit("9");
    }
    let r: &'static str = match d {
        0 => "0",
        1 => "1",
        2 => "2",
        3 => "3",
        4 => "4",
        5 => "5",
        6 => "6",
        7 => "7",
        8 => "8",
        _ => "9",
    };
    proof {
        assert(r@ =~= seq![decimal_digit_glyph(d as int)]);
    }
    r
}

} // verus!

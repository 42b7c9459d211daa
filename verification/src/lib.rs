//! Numeral formatting for a fixed-size sticker card: an abbreviated
//! Latin-script form, a fully spelled-out myriad-grouped Han-script form,
//! and a layout planner that turns the two strings into draw instructions.

pub mod glyphs;
pub mod latin;
pub mod han;
pub mod decode;
pub mod layout;

use vstd::prelude::*;
use crate::latin::{format_latin_number, latin_spec};
use crate::han::{format_chinese_number, han_spec};

verus! {

/// 10 raised to `e`.
pub open spec fn pow10(e: nat) -> nat
    decreases e,
{
    if e == 0 {
        1
    } else {
        10 * pow10((e - 1) as nat)
    }
}

/// The first few powers of ten, spelled out.
pub proof fn lemma_pow10_values()
    ensures
        pow10(0) == 1,
        pow10(1) == 10,
        pow10(2) == 100,
        pow10(3) == 1000,
        pow10(4) == 10000,
        pow10(5) == 100000,
        pow10(6) == 1000000,
        pow10(7) == 10000000,
        pow10(8) == 100000000,
{
    assert(pow10(0) == 1);
    assert(pow10(1) == 10);
    assert(pow10(2) == 100);
    assert(pow10(3) == 1000);
    assert(pow10(4) == 10000);
    assert(pow10(5) == 100000);
    assert(pow10(6) == 1000000);
    assert(pow10(7) == 10000000);
    assert(pow10(8) == 100000000);
}

/// The magnitude of a signed amount.
pub open spec fn abs_val(number: i32) -> nat {
    if number < 0 {
        (-(number as int)) as nat
    } else {
        number as nat
    }
}

/// The sign prefix put in front of both formatted numbers.
pub open spec fn sign_seq(number: i32) -> Seq<char> {
    if number < 0 {
        seq!['-']
    } else {
        seq!['+']
    }
}

/// Formats a signed amount in both scripts, each prefixed with its sign
/// glyph. A zero amount, or one whose magnitude is at or above one hundred
/// million, has no representation. The Latin string comes first.
pub fn format_signed(amount: i32) -> (r: Option<(String, String)>)
    ensures
        match r {
            Some(pair) => 1 <= abs_val(amount) < 100000000
                && pair.0@ == sign_seq(amount) + latin_spec(abs_val(amount))
                && pair.1@ == sign_seq(amount) + han_spec(abs_val(amount)),
            None => !(1 <= abs_val(amount) < 100000000),
        },
{
    let chinese = match format_chinese_number(amount) {
        Some(s) => s,
        None => {
            return None;
        },
    };
    let latin = match format_latin_number(amount) {
        Some(s) => s,
        None => {
            return None;
        },
    };
    let sign: &'static str = if amount < 0 {
        "-"
    } else {
        "+"
    };
    proof {
        reveal_strlit("-");
        reveal_strlit("+");
        assert(sign@ =~= sign_seq(amount));
    }
    let signed_latin = String::from_str(sign).concat(latin.as_str());
    let signed_chinese = String::from_str(sign).concat(chinese.as_str());
    Some((signed_latin, signed_chinese))
}

} // verus!

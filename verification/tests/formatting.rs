use credit_numerals::han::format_chinese_number;
use credit_numerals::latin::format_latin_number;
use credit_numerals::format_signed;

#[test]
fn unsupported_magnitudes() {
    assert_eq!(format_chinese_number(0), None);
    assert_eq!(format_chinese_number(100000000), None);
    assert_eq!(format_chinese_number(-100000000), None);
    assert_eq!(format_latin_number(0), None);
    assert_eq!(format_latin_number(100000000), None);
    assert_eq!(format_latin_number(-100000000), None);
    assert_eq!(format_latin_number(i32::MIN), None);
    assert_eq!(format_chinese_number(i32::MIN), None);
}

#[test]
fn latin_scale_tiers() {
    assert_eq!(format_latin_number(1000).unwrap(), "1k");
    assert_eq!(format_latin_number(2000000).unwrap(), "2m");
    assert_eq!(format_latin_number(1234).unwrap(), "1234");
    assert_eq!(format_latin_number(12300).unwrap(), "12300");
}

#[test]
fn latin_tier_is_driven_by_trailing_zeros_not_size() {
    // Two trailing zeros only, so a large value still prints in full.
    assert_eq!(format_latin_number(12345600).unwrap(), "12345600");
    assert_eq!(format_latin_number(10000).unwrap(), "10k");
    assert_eq!(format_latin_number(1000000).unwrap(), "1m");
    assert_eq!(format_latin_number(99999999).unwrap(), "99999999");
    assert_eq!(format_latin_number(7).unwrap(), "7");
    assert_eq!(format_latin_number(-1000).unwrap(), "1k");
}

#[test]
fn han_two_thousand_uses_the_substitute_glyph() {
    let s = format_chinese_number(2000).unwrap();
    assert_eq!(s, "两千");
    assert!(s.contains('两'));
    assert!(!s.contains('二'));
}

#[test]
fn han_ordinary_two_elsewhere() {
    assert_eq!(format_chinese_number(2).unwrap(), "二");
    assert_eq!(format_chinese_number(20).unwrap(), "二十");
    assert_eq!(format_chinese_number(200).unwrap(), "二百");
    assert_eq!(format_chinese_number(2222).unwrap(), "两千二百二十二");
}

#[test]
fn han_myriad_with_empty_lower_part() {
    let one = format_chinese_number(1).unwrap();
    let expected = format!("{}万", one);
    assert_eq!(format_chinese_number(10000).unwrap(), expected);
    assert_eq!(format_chinese_number(10000).unwrap(), "一万");
}

#[test]
fn han_myriad_with_unit_lower_part() {
    let one = format_chinese_number(1).unwrap();
    let expected = format!("{}万{}", one, one);
    assert_eq!(format_chinese_number(10001).unwrap(), expected);
    assert_eq!(format_chinese_number(10001).unwrap(), "一万一");
}

#[test]
fn han_zero_runs_elide_to_a_single_mark() {
    let s = format_chinese_number(1002).unwrap();
    assert_eq!(s, "一千零二");
    assert_eq!(s.chars().filter(|c| *c == '零').count(), 1);
    assert_eq!(format_chinese_number(1020).unwrap(), "一千零二十");
    assert_eq!(format_chinese_number(10002).unwrap(), "一万二");
    // Across the myriad boundary the zero run is not marked: the lower
    // part is built on its own.
    assert_eq!(format_chinese_number(100200).unwrap(), "一十万二百");
}

#[test]
fn han_trailing_zeros_contribute_nothing() {
    assert_eq!(format_chinese_number(1100).unwrap(), "一千一百");
    assert_eq!(format_chinese_number(50).unwrap(), "五十");
    assert_eq!(format_chinese_number(5).unwrap(), "五");
}

#[test]
fn han_no_zero_mark_crosses_the_myriad_boundary() {
    // The lower part is built on its own, so no zero mark follows the
    // myriad mark even where the lower part starts with zero digits.
    assert_eq!(format_chinese_number(10050000).unwrap(), "一千零五万");
    assert_eq!(format_chinese_number(99999999).unwrap(), "九千九百九十九万九千九百九十九");
}

#[test]
fn signed_pair_carries_the_sign_glyph() {
    let (latin, chinese) = format_signed(-500).unwrap();
    assert_eq!(latin, "-500");
    assert_eq!(chinese, "-五百");
    let (latin, chinese) = format_signed(1000).unwrap();
    assert_eq!(latin, "+1k");
    assert_eq!(chinese, "+一千");
    assert_eq!(format_signed(0), None);
    assert_eq!(format_signed(100000000), None);
}

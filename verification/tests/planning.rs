use credit_numerals::layout::{chinese_suffix, plan_layout, FontTier};
use credit_numerals::han::format_chinese_number;

#[test]
fn suffix_constant() {
    assert_eq!(chinese_suffix(), "社会信用");
}

#[test]
fn short_number_gets_large_font_single_line() {
    let plan = plan_layout("+100", "+一百", chinese_suffix());
    assert_eq!(plan.instructions.len(), 2);
    assert_eq!(plan.instructions[0].text, "+一百社会信用");
    assert_eq!(plan.instructions[0].tier, FontTier::Large);
    assert_eq!(plan.instructions[0].x, 160);
    assert_eq!(plan.instructions[0].y, 140);
    // No compensation: the Latin line sits at its base height.
    assert_eq!(plan.instructions[1].text, "+100 Social Credit");
    assert_eq!(plan.instructions[1].tier, FontTier::Large);
    assert_eq!(plan.instructions[1].y, 80);
}

#[test]
fn five_and_six_characters_shrink_the_font() {
    let plan = plan_layout("+10001", "+一万零一", chinese_suffix());
    assert_eq!(plan.instructions[0].tier, FontTier::Medium);
    assert_eq!(plan.instructions[0].y, 140);
    let plan = plan_layout("+100001", "+一十万零一", chinese_suffix());
    assert_eq!(plan.instructions[0].tier, FontTier::Small);
    assert_eq!(plan.instructions[0].y, 140);
}

#[test]
fn seven_characters_nudge_the_latin_line_down() {
    let chinese = "+一百二十三万";
    assert_eq!(chinese.chars().count(), 7);
    let plan = plan_layout("+1230k", chinese, chinese_suffix());
    assert_eq!(plan.instructions.len(), 2);
    assert_eq!(plan.instructions[0].text, "+一百二十三万社会信用");
    assert_eq!(plan.instructions[0].tier, FontTier::Pico);
    assert_eq!(plan.instructions[0].y, 135);
    assert_eq!(plan.instructions[1].text, "+1230k Social Credit");
    assert_eq!(plan.instructions[1].tier, FontTier::Small);
    assert_eq!(plan.instructions[1].y, 75 + 10);
}

#[test]
fn medium_lengths_put_the_suffix_on_its_own_line() {
    let chinese = "+一百二十三万四千";
    assert_eq!(chinese.chars().count(), 9);
    let plan = plan_layout("+1234000", chinese, chinese_suffix());
    assert_eq!(plan.instructions.len(), 3);
    assert_eq!(plan.instructions[0].text, chinese);
    assert_eq!(plan.instructions[0].tier, FontTier::Pico);
    assert_eq!(plan.instructions[0].y, 110);
    assert_eq!(plan.instructions[1].text, "社会信用");
    assert_eq!(plan.instructions[1].y, 145);
    assert_eq!(plan.instructions[2].y, 75);
}

#[test]
fn long_number_splits_at_half_when_a_digit_follows() {
    // Twelve characters with a digit-like glyph at the halfway index
    // (position eight): the split stays put.
    let chinese = "+一十二万三千零五十六七";
    assert_eq!(chinese.chars().count(), 12);
    assert_eq!(chinese.chars().nth(8), Some('五'));
    let plan = plan_layout("+12345678", chinese, chinese_suffix());
    assert_eq!(plan.instructions.len(), 3);
    assert_eq!(plan.instructions[0].text, "+一十二万三千零");
    assert_eq!(plan.instructions[0].y, 110);
    assert_eq!(plan.instructions[1].text, "五十六七社会信用");
    assert_eq!(plan.instructions[1].y, 145);
    // A Latin string longer than seven characters takes the short suffix.
    assert_eq!(plan.instructions[2].text, "+12345678 Soc. Credit");
    assert_eq!(plan.instructions[2].y, 75);
}

#[test]
fn long_number_split_advances_past_a_marker() {
    // A genuine formatted number of twelve characters once signed; the
    // halfway index lands on a scale marker, so the split advances by one
    // rather than bisecting the numeral group.
    let han = format_chinese_number(123456).unwrap();
    let chinese = format!("+{han}");
    assert_eq!(chinese, "+一十二万三千四百五十六");
    assert_eq!(chinese.chars().count(), 12);
    assert_eq!(chinese.chars().nth(8), Some('百'));
    let plan = plan_layout("+123456", &chinese, chinese_suffix());
    assert_eq!(plan.instructions.len(), 3);
    assert_eq!(plan.instructions[0].text, "+一十二万三千四百");
    assert_eq!(plan.instructions[0].tier, FontTier::Pico);
    assert_eq!(plan.instructions[0].y, 110);
    assert_eq!(plan.instructions[1].text, "五十六社会信用");
    assert_eq!(plan.instructions[1].tier, FontTier::Pico);
    assert_eq!(plan.instructions[1].y, 145);
    assert_eq!(plan.instructions[2].text, "+123456 Social Credit");
    assert_eq!(plan.instructions[2].y, 75);
}

#[test]
fn boundary_lengths() {
    // Four characters still take the large font on a single line.
    let plan = plan_layout("+1", "一千零二", chinese_suffix());
    assert_eq!(plan.instructions.len(), 2);
    assert_eq!(plan.instructions[0].text, "一千零二社会信用");
    assert_eq!(plan.instructions[0].tier, FontTier::Large);
    // Eight characters move the suffix to its own line.
    let plan = plan_layout("+1", "一二三四五六七八", chinese_suffix());
    assert_eq!(plan.instructions.len(), 3);
    assert_eq!(plan.instructions[0].text, "一二三四五六七八");
    assert_eq!(plan.instructions[0].y, 110);
    assert_eq!(plan.instructions[1].text, "社会信用");
    // Eleven characters still avoid splitting the number itself.
    let plan = plan_layout("+1", "一二三四五六七八九零一", chinese_suffix());
    assert_eq!(plan.instructions.len(), 3);
    assert_eq!(plan.instructions[0].text, "一二三四五六七八九零一");
    // A Latin string of four characters keeps the large font at its base
    // height; five characters shrink it and raise it.
    let plan = plan_layout("+100", "一千", chinese_suffix());
    assert_eq!(plan.instructions[1].tier, FontTier::Large);
    assert_eq!(plan.instructions[1].y, 80);
    let plan = plan_layout("+1000", "一千", chinese_suffix());
    assert_eq!(plan.instructions[1].tier, FontTier::Small);
    assert_eq!(plan.instructions[1].y, 75);
}

#[test]
fn planning_is_deterministic() {
    let first = plan_layout("+123456", "+一十二万三千四百五十六", chinese_suffix());
    let second = plan_layout("+123456", "+一十二万三千四百五十六", chinese_suffix());
    assert_eq!(first, second);
}

//! The layout planner: from the two formatted strings and the fixed
//! localized suffix it decides, purely from character counts, the font
//! tier, the vertical offsets, and whether and where the Han string is
//! split across two lines, and emits the ordered draw instructions.

use vstd::prelude::*;
use crate::glyphs::{ZERO_MARK, TWO_MARK_FOR_THOUSANDS, is_ordinary_digit_glyph};

verus! {

/// The four discrete text sizes the planner chooses from.
#[derive(Clone, Copy, Debug, PartialEq, Eq, Structural)]
pub enum FontTier {
    Large,
    Medium,
    Small,
    Pico,
}

/// One text draw: what to draw, at which size, and where.
#[derive(Clone, Debug, PartialEq)]
pub struct DrawInstruction {
    pub text: String,
    pub tier: FontTier,
    pub x: i32,
    pub y: i32,
}

/// The mathematical shadow of one draw instruction.
pub ghost struct DrawInstructionModel {
    pub text: Seq<char>,
    pub tier: FontTier,
    pub x: int,
    pub y: int,
}

impl View for DrawInstruction {
    type V = DrawInstructionModel;

    open spec fn view(&self) -> DrawInstructionModel {
        DrawInstructionModel {
            text: self.text@,
            tier: self.tier,
            x: self.x as int,
            y: self.y as int,
        }
    }
}

/// The ordered draw instructions for one card.
#[derive(Clone, Debug, PartialEq)]
pub struct RenderPlan {
    pub instructions: Vec<DrawInstruction>,
}

impl View for RenderPlan {
    type V = Seq<DrawInstructionModel>;

    open spec fn view(&self) -> Seq<DrawInstructionModel> {
        self.instructions@.map_values(|d: DrawInstruction| d@)
    }
}

/// The fixed localized suffix appended to the Han number for display.
pub open spec fn chinese_suffix_spec() -> Seq<char> {
    "社会信用"@
}

/// Hands out the fixed localized suffix for the Han number.
pub fn chinese_suffix() -> (r: &'static str)
    ensures
        r@ == chinese_suffix_spec(),
{
    "社会信用"
}

/// The short and full Latin suffix forms.
pub open spec fn latin_suffix_short() -> Seq<char> {
    "Soc. Credit"@
}

pub open spec fn latin_suffix_full() -> Seq<char> {
    "Social Credit"@
}

/// Whether the wrapped line may begin with `c`: a digit-like glyph is
/// fine, while cutting just before a scale or myriad marker is avoided.
pub open spec fn is_break_glyph(c: char) -> bool {
    is_ordinary_digit_glyph(c) || c == ZERO_MARK || c == TWO_MARK_FOR_THOUSANDS
}

/// Decides whether the wrapped line may begin with `c`.
pub fn check_break_glyph(c: char) -> (r: bool)
    ensures
        r == is_break_glyph(c),
{
    c == '一' || c == '二' || c == '三' || c == '四' || c == '五' || c == '六' || c == '七'
        || c == '八' || c == '九' || c == ZERO_MARK || c == TWO_MARK_FOR_THOUSANDS
}

/// The vertical compensation the Han layout hands down to the Latin line.
pub open spec fn vertical_comp(l: int) -> int {
    if l == 7 {
        10
    } else {
        0
    }
}

/// The split index for a Han string too long for one line: half the
/// combined length of number and suffix, advanced by one when the
/// character there is no digit-like glyph.
pub open spec fn split_index(chinese: Seq<char>, suffix: Seq<char>) -> int {
    let half = ((chinese.len() + suffix.len()) as int) / 2;
    if is_break_glyph(chinese[half]) {
        half
    } else {
        half + 1
    }
}

/// The Han-side instructions, keyed by the character count of the number
/// alone: one line in a shrinking font up to seven characters, then the
/// suffix moves to a second line, then the number itself is split.
pub open spec fn chinese_instructions(chinese: Seq<char>, suffix: Seq<char>) -> Seq<
    DrawInstructionModel,
> {
    let l = chinese.len() as int;
    if l <= 4 {
        seq![
            (DrawInstructionModel {
                text: chinese + suffix,
                tier: FontTier::Large,
                x: 160,
                y: 140,
            }),
        ]
    } else if l == 5 {
        seq![
            (DrawInstructionModel {
                text: chinese + suffix,
                tier: FontTier::Medium,
                x: 160,
                y: 140,
            }),
        ]
    } else if l == 6 {
        seq![
            (DrawInstructionModel {
                text: chinese + suffix,
                tier: FontTier::Small,
                x: 160,
                y: 140,
            }),
        ]
    } else if l == 7 {
        seq![
            (DrawInstructionModel { text: chinese + suffix, tier: FontTier::Pico, x: 160, y: 135 }),
        ]
    } else if l <= 11 {
        seq![
            (DrawInstructionModel { text: chinese, tier: FontTier::Pico, x: 160, y: 110 }),
            (DrawInstructionModel { text: suffix, tier: FontTier::Pico, x: 160, y: 145 }),
        ]
    } else {
        let split = split_index(chinese, suffix);
        seq![
            (DrawInstructionModel {
                text: chinese.take(split),
                tier: FontTier::Pico,
                x: 160,
                y: 110,
            }),
            (DrawInstructionModel {
                text: chinese.skip(split) + suffix,
                tier: FontTier::Pico,
                x: 160,
                y: 145,
            }),
        ]
    }
}

/// The Latin-side instruction: suffix form and font tier from the length
/// of the Latin string alone, its height nudged by the Han compensation.
pub open spec fn latin_instruction(latin: Seq<char>, comp: int) -> DrawInstructionModel {
    let suffix = if latin.len() > 7 {
        latin_suffix_short()
    } else {
        latin_suffix_full()
    };
    let tier = if latin.len() > 4 {
        FontTier::Small
    } else {
        FontTier::Large
    };
    let base_y: int = if latin.len() > 4 {
        75
    } else {
        80
    };
    DrawInstructionModel { text: latin + " "@ + suffix, tier: tier, x: 160, y: base_y + comp }
}

/// The whole plan: the Han instructions first, then the Latin line.
pub open spec fn plan_spec(latin: Seq<char>, chinese: Seq<char>, suffix: Seq<char>) -> Seq<
    DrawInstructionModel,
> {
    chinese_instructions(chinese, suffix) + seq![
        latin_instruction(latin, vertical_comp(chinese.len() as int)),
    ]
}

/// Plans the card layout for the two formatted, sign-prefixed strings and
/// the localized suffix. The split index of a two-line Han string must
/// land inside the string, which holds whenever the suffix is shorter
/// than the number being split.
pub fn plan_layout(latin: &str, chinese: &str, suffix: &str) -> (r: RenderPlan)
    requires
        chinese@.len() + suffix@.len() <= usize::MAX,
        chinese@.len() > 11 ==> suffix@.len() < chinese@.len(),
    ensures
        r@ == plan_spec(latin@, chinese@, suffix@),
{
    let l = chinese.unicode_len();
    let mut instructions: Vec<DrawInstruction> = Vec::new();
    let comp: i32;
    if l <= 4 {
        let text = String::from_str(chinese).concat(suffix);
        instructions.push(DrawInstruction { text, tier: FontTier::Large, x: 160, y: 140 });
        comp = 0;
    } else if l == 5 {
        let text = String::from_str(chinese).concat(suffix);
        instructions.push(DrawInstruction { text, tier: FontTier::Medium, x: 160, y: 140 });
        comp = 0;
    } else if l == 6 {
        let text = String::from_str(chinese).concat(suffix);
        instructions.push(DrawInstruction { text, tier: FontTier::Small, x: 160, y: 140 });
        comp = 0;
    } else if l == 7 {
        let text = String::from_str(chinese).concat(suffix);
        instructions.push(DrawInstruction { text, tier: FontTier::Pico, x: 160, y: 135 });
        comp = 10;
    } else if l <= 11 {
        instructions.push(
            DrawInstruction {
                text: String::from_str(chinese),
                tier: FontTier::Pico,
                x: 160,
                y: 110,
            },
        );
        instructions.push(
            DrawInstruction { text: String::from_str(suffix), tier: FontTier::Pico, x: 160, y: 145 },
        );
        comp = 0;
    } else {
        let slen = suffix.unicode_len();
        let mut split = (l + slen) / 2;
        let c = chinese.get_char(split);
        if !check_break_glyph(c) {
            split = split + 1;
        }
        let line1 = chinese.substring_char(0, split);
        let line2 = chinese.substring_char(split, l);
        proof {
            assert(line1@ =~= chinese@.take(split_index(chinese@, suffix@)));
            assert(line2@ =~= chinese@.skip(split_index(chinese@, suffix@)));
        }
        instructions.push(
            DrawInstruction { text: String::from_str(line1), tier: FontTier::Pico, x: 160, y: 110 },
        );
        instructions.push(
            DrawInstruction {
                text: String::from_str(line2).concat(suffix),
                tier: FontTier::Pico,
                x: 160,
                y: 145,
            },
        );
        comp = 0;
    }
    let llen = latin.unicode_len();
    let latin_suffix: &'static str = if llen > 7 {
        "Soc. Credit"
    } else {
        "Social Credit"
    };
    let tier = if llen > 4 {
        FontTier::Small
    } else {
        FontTier::Large
    };
    let base_y: i32 = if llen > 4 {
        75
    } else {
        80
    };
    let text = String::from_str(latin).concat(" ").concat(latin_suffix);
    instructions.push(DrawInstruction { text, tier, x: 160, y: base_y + comp });
    let r = RenderPlan { instructions };
    proof {
        assert(r@ =~~= plan_spec(latin@, chinese@, suffix@));
    }
    r
}

/// Planning is a pure function of its three strings: two plans built for
/// the same inputs are the same plan.
pub proof fn lemma_plan_layout_deterministic(
    p1: RenderPlan,
    p2: RenderPlan,
    latin: Seq<char>,
    chinese: Seq<char>,
    suffix: Seq<char>,
)
    requires
        p1@ == plan_spec(latin, chinese, suffix),
        p2@ == plan_spec(latin, chinese, suffix),
    ensures
        p1@ == p2@,
{
}

} // verus!

use vstd::prelude::*;
use vstd::string::*;
use crate::ansi::{combine, combined, lemma_single, sequence};
use crate::background_colors::BackgroundColors;
use crate::font_mode::FontMode;

verus! {

/// The colour of the text itself. Each variant carries its escape sequence.
pub enum ForegroundColors {
    Black(&'static str),
    Red(&'static str),
    Green(&'static str),
    Yellow(&'static str),
    Blue(&'static str),
    Magenta(&'static str),
    Cyan(&'static str),
    White(&'static str),
    Default(&'static str),
    BrightBlack(&'static str),
    BrightRed(&'static str),
    BrightGreen(&'static str),
    BrightYellow(&'static str),
    BrightBlue(&'static str),
    BrightMagenta(&'static str),
    BrightCyan(&'static str),
    BrightWhite(&'static str),
}

impl View for ForegroundColors {
    type V = Seq<char>;

    /// The text that the value carries.
    open spec fn view(&self) -> Seq<char> {
        match self {
            ForegroundColors::Black(s) => s@,
            ForegroundColors::Red(s) => s@,
            ForegroundColors::Green(s) => s@,
            ForegroundColors::Yellow(s) => s@,
            ForegroundColors::Blue(s) => s@,
            ForegroundColors::Magenta(s) => s@,
            ForegroundColors::Cyan(s) => s@,
            ForegroundColors::White(s) => s@,
            ForegroundColors::Default(s) => s@,
            ForegroundColors::BrightBlack(s) => s@,
            ForegroundColors::BrightRed(s) => s@,
            ForegroundColors::BrightGreen(s) => s@,
            ForegroundColors::BrightYellow(s) => s@,
            ForegroundColors::BrightBlue(s) => s@,
            ForegroundColors::BrightMagenta(s) => s@,
            ForegroundColors::BrightCyan(s) => s@,
            ForegroundColors::BrightWhite(s) => s@,
        }
    }
}

impl ForegroundColors {
    /// Black foreground.
    pub fn black() -> (style: Self)
        ensures
            style is Black,
            style@ == sequence(seq![30nat]),
    {
        proof {
            reveal_strlit("\x1B[30m");
            lemma_single(30);
        }
        let style = ForegroundColors::Black("\x1B[30m");
        assert(style@ =~= sequence(seq![30nat]));
        style
    }

    /// Red foreground.
    pub fn red() -> (style: Self)
        ensures
            style is Red,
            style@ == sequence(seq![31nat]),
    {
        proof {
            reveal_strlit("\x1B[31m");
            lemma_single(31);
        }
        let style = ForegroundColors::Red("\x1B[31m");
        assert(style@ =~= sequence(seq![31nat]));
        style
    }

    /// Green foreground.
    pub fn green() -> (style: Self)
        ensures
            style is Green,
            style@ == sequence(seq![32nat]),
    {
        proof {
            reveal_strlit("\x1B[32m");
            lemma_single(32);
        }
        let style = ForegroundColors::Green("\x1B[32m");
        assert(style@ =~= sequence(seq![32nat]));
        style
    }

    /// Yellow foreground.
    pub fn yellow() -> (style: Self)
        ensures
            style is Yellow,
            style@ == sequence(seq![33nat]),
    {
        proof {
            reveal_strlit("\x1B[33m");
            lemma_single(33);
        }
        let style = ForegroundColors::Yellow("\x1B[33m");
        assert(style@ =~= sequence(seq![33nat]));
        style
    }

    /// Blue foreground.
    pub fn blue() -> (style: Self)
        ensures
            style is Blue,
            style@ == sequence(seq![34nat]),
    {
        proof {
            reveal_strlit("\x1B[34m");
            lemma_single(34);
        }
        let style = ForegroundColors::Blue("\x1B[34m");
        assert(style@ =~= sequence(seq![34nat]));
        style
    }

    /// Magenta foreground.
    pub fn magenta() -> (style: Self)
        ensures
            style is Magenta,
            style@ == sequence(seq![35nat]),
    {
        proof {
            reveal_strlit("\x1B[35m");
            lemma_single(35);
        }
        let style = ForegroundColors::Magenta("\x1B[35m");
        assert(style@ =~= sequence(seq![35nat]));
        style
    }

    /// Cyan foreground.
    pub fn cyan() -> (style: Self)
        ensures
            style is Cyan,
            style@ == sequence(seq![36nat]),
    {
        proof {
            reveal_strlit("\x1B[36m");
            lemma_single(36);
        }
        let style = ForegroundColors::Cyan("\x1B[36m");
        assert(style@ =~= sequence(seq![36nat]));
        style
    }

    /// White foreground.
    pub fn white() -> (style: Self)
        ensures
            style is White,
            style@ == sequence(seq![37nat]),
    {
        proof {
            reveal_strlit("\x1B[37m");
            lemma_single(37);
        }
        let style = ForegroundColors::White("\x1B[37m");
        assert(style@ =~= sequence(seq![37nat]));
        style
    }

    /// The terminal's own foreground colour.
    pub fn default() -> (style: Self)
        ensures
            style is Default,
            style@ == sequence(seq![39nat]),
    {
        proof {
            reveal_strlit("\x1B[39m");
            lemma_single(39);
        }
        let style = ForegroundColors::Default("\x1B[39m");
        assert(style@ =~= sequence(seq![39nat]));
        style
    }

    /// Bright black foreground.
    pub fn bright_black() -> (style: Self)
        ensures
            style is BrightBlack,
            style@ == sequence(seq![90nat]),
    {
        proof {
            reveal_strlit("\x1B[90m");
            lemma_single(90);
        }
        let style = ForegroundColors::BrightBlack("\x1B[90m");
        assert(style@ =~= sequence(seq![90nat]));
        style
    }

    /// Bright red foreground.
    pub fn bright_red() -> (style: Self)
        ensures
            style is BrightRed,
            style@ == sequence(seq![91nat]),
    {
        proof {
            reveal_strlit("\x1B[91m");
            lemma_single(91);
        }
        let style = ForegroundColors::BrightRed("\x1B[91m");
        assert(style@ =~= sequence(seq![91nat]));
        style
    }

    /// Bright green foreground.
    pub fn bright_green() -> (style: Self)
        ensures
            style is BrightGreen,
            style@ == sequence(seq![92nat]),
    {
        proof {
            reveal_strlit("\x1B[92m");
            lemma_single(92);
        }
        let style = ForegroundColors::BrightGreen("\x1B[92m");
        assert(style@ =~= sequence(seq![92nat]));
        style
    }

    /// Bright yellow foreground.
    pub fn bright_yellow() -> (style: Self)
        ensures
            style is BrightYellow,
            style@ == sequence(seq![93nat]),
    {
        proof {
            reveal_strlit("\x1B[93m");
            lemma_single(93);
        }
        let style = ForegroundColors::BrightYellow("\x1B[93m");
        assert(style@ =~= sequence(seq![93nat]));
        style
    }

    /// Bright blue foreground.
    pub fn bright_blue() -> (style: Self)
        ensures
            style is BrightBlue,
            style@ == sequence(seq![94nat]),
    {
        proof {
            reveal_strlit("\x1B[94m");
            lemma_single(94);
        }
        let style = ForegroundColors::BrightBlue("\x1B[94m");
        assert(style@ =~= sequence(seq![94nat]));
        style
    }

    /// Bright magenta foreground.
    pub fn bright_magenta() -> (style: Self)
        ensures
            style is BrightMagenta,
            style@ == sequence(seq![95nat]),
    {
        proof {
            reveal_strlit("\x1B[95m");
            lemma_single(95);
        }
        let style = ForegroundColors::BrightMagenta("\x1B[95m");
        assert(style@ =~= sequence(seq![95nat]));
        style
    }

    /// Bright cyan foreground.
    pub fn bright_cyan() -> (style: Self)
        ensures
            style is BrightCyan,
            style@ == sequence(seq![96nat]),
    {
        proof {
            reveal_strlit("\x1B[96m");
            lemma_single(96);
        }
        let style = ForegroundColors::BrightCyan("\x1B[96m");
        assert(style@ =~= sequence(seq![96nat]));
        style
    }

    /// Bright white foreground.
    pub fn bright_white() -> (style: Self)
        ensures
            style is BrightWhite,
            style@ == sequence(seq![97nat]),
    {
        proof {
            reveal_strlit("\x1B[97m");
            lemma_single(97);
        }
        let style = ForegroundColors::BrightWhite("\x1B[97m");
        assert(style@ =~= sequence(seq![97nat]));
        style
    }

    /// The carried text, borrowed.
    pub fn as_str(&self) -> (text: &'static str)
        ensures
            text@ == self@,
    {
        match self {
            ForegroundColors::Black(s) => s,
            ForegroundColors::Red(s) => s,
            ForegroundColors::Green(s) => s,
            ForegroundColors::Yellow(s) => s,
            ForegroundColors::Blue(s) => s,
            ForegroundColors::Magenta(s) => s,
            ForegroundColors::Cyan(s) => s,
            ForegroundColors::White(s) => s,
            ForegroundColors::Default(s) => s,
            ForegroundColors::BrightBlack(s) => s,
            ForegroundColors::BrightRed(s) => s,
            ForegroundColors::BrightGreen(s) => s,
            ForegroundColors::BrightYellow(s) => s,
            ForegroundColors::BrightBlue(s) => s,
            ForegroundColors::BrightMagenta(s) => s,
            ForegroundColors::BrightCyan(s) => s,
            ForegroundColors::BrightWhite(s) => s,
        }
    }

    /// The carried text: for a value made by one of the functions above, its
    /// escape sequence.
    pub fn to_string(&self) -> (text: String)
        ensures
            text@ == self@,
    {
        String::from_str(self.as_str())
    }
}

impl core::ops::Add<BackgroundColors> for ForegroundColors {
    type Output = String;

    /// One escape sequence with the parameters of `self`, then those of `rhs`.
    fn add(self, rhs: BackgroundColors) -> (both: String)
        ensures
            both@ == combined(self@, rhs@),
    {
        combine(self.as_str(), rhs.as_str())
    }
}

/// What `+` gives is stated by `add` itself, over views. Specifications cannot
/// build a `String`, so the operator promises no spec-level value.
impl vstd::std_specs::ops::AddSpecImpl<BackgroundColors> for ForegroundColors {
    open spec fn obeys_add_spec() -> bool {
        false
    }

    open spec fn add_req(self, rhs: BackgroundColors) -> bool {
        true
    }

    open spec fn add_spec(self, rhs: BackgroundColors) -> String {
        arbitrary()
    }
}

impl core::ops::Add<FontMode> for ForegroundColors {
    type Output = String;

    /// One escape sequence with the parameters of `self`, then those of `rhs`.
    fn add(self, rhs: FontMode) -> (both: String)
        ensures
            both@ == combined(self@, rhs@),
    {
        combine(self.as_str(), rhs.as_str())
    }
}

/// What `+` gives is stated by `add` itself, over views. Specifications cannot
/// build a `String`, so the operator promises no spec-level value.
impl vstd::std_specs::ops::AddSpecImpl<FontMode> for ForegroundColors {
    open spec fn obeys_add_spec() -> bool {
        false
    }

    open spec fn add_req(self, rhs: FontMode) -> bool {
        true
    }

    open spec fn add_spec(self, rhs: FontMode) -> String {
        arbitrary()
    }
}

impl core::ops::Add<ForegroundColors> for ForegroundColors {
    type Output = String;

    /// One escape sequence with the parameters of `self`, then those of `rhs`.
    fn add(self, rhs: ForegroundColors) -> (both: String)
        ensures
            both@ == combined(self@, rhs@),
    {
        combine(self.as_str(), rhs.as_str())
    }
}

/// What `+` gives is stated by `add` itself, over views. Specifications cannot
/// build a `String`, so the operator promises no spec-level value.
impl vstd::std_specs::ops::AddSpecImpl<ForegroundColors> for ForegroundColors {
    open spec fn obeys_add_spec() -> bool {
        false
    }

    open spec fn add_req(self, rhs: ForegroundColors) -> bool {
        true
    }

    open spec fn add_spec(self, rhs: ForegroundColors) -> String {
        arbitrary()
    }
}

impl core::ops::Add<String> for ForegroundColors {
    type Output = String;

    /// One escape sequence with the parameters of `self`, then those of `rhs`.
    fn add(self, rhs: String) -> (both: String)
        ensures
            both@ == combined(self@, rhs@),
    {
        combine(self.as_str(), rhs.as_str())
    }
}

/// What `+` gives is stated by `add` itself, over views. Specifications cannot
/// build a `String`, so the operator promises no spec-level value.
impl vstd::std_specs::ops::AddSpecImpl<String> for ForegroundColors {
    open spec fn obeys_add_spec() -> bool {
        false
    }

    open spec fn add_req(self, rhs: String) -> bool {
        true
    }

    open spec fn add_spec(self, rhs: String) -> String {
        arbitrary()
    }
}

impl core::ops::Add<ForegroundColors> for String {
    type Output = String;

    /// One escape sequence with the parameters of `self`, then those of `rhs`.
    fn add(self, rhs: ForegroundColors) -> (both: String)
        ensures
            both@ == combined(self@, rhs@),
    {
        combine(self.as_str(), rhs.as_str())
    }
}

/// What `+` gives is stated by `add` itself, over views. Specifications cannot
/// build a `String`, so the operator promises no spec-level value.
impl vstd::std_specs::ops::AddSpecImpl<ForegroundColors> for String {
    open spec fn obeys_add_spec() -> bool {
        false
    }

    open spec fn add_req(self, rhs: ForegroundColors) -> bool {
        true
    }

    open spec fn add_spec(self, rhs: ForegroundColors) -> String {
        arbitrary()
    }
}

} // verus!

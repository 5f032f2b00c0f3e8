use vstd::prelude::*;
use vstd::string::*;
use crate::ansi::{combine, combined, lemma_single, sequence};
use crate::foreground_colors::ForegroundColors;
use crate::font_mode::FontMode;

verus! {

/// The colour behind the text. Each variant carries its escape sequence.
pub enum BackgroundColors {
    Black(&'static str),
    Red(&'static str),
    Green(&'static str),
    Yellow(&'static str),
    Blue(&'static str),
    Magenta(&'static str),
    Cyan(&'static str),
    White(&'static str),
    Default(&'static str),
    BrightBlack(&'static str),
    BrightRed(&'static str),
    BrightGreen(&'static str),
    BrightYellow(&'static str),
    BrightBlue(&'static str),
    BrightMagenta(&'static str),
    BrightCyan(&'static str),
    BrightWhite(&'static str),
}

impl View for BackgroundColors {
    type V = Seq<char>;

    /// The text that the value carries.
    open spec fn view(&self) -> Seq<char> {
        match self {
            BackgroundColors::Black(s) => s@,
            BackgroundColors::Red(s) => s@,
            BackgroundColors::Green(s) => s@,
            BackgroundColors::Yellow(s) => s@,
            BackgroundColors::Blue(s) => s@,
            BackgroundColors::Magenta(s) => s@,
            BackgroundColors::Cyan(s) => s@,
            BackgroundColors::White(s) => s@,
            BackgroundColors::Default(s) => s@,
            BackgroundColors::BrightBlack(s) => s@,
            BackgroundColors::BrightRed(s) => s@,
            BackgroundColors::BrightGreen(s) => s@,
            BackgroundColors::BrightYellow(s) => s@,
            BackgroundColors::BrightBlue(s) => s@,
            BackgroundColors::BrightMagenta(s) => s@,
            BackgroundColors::BrightCyan(s) => s@,
            BackgroundColors::BrightWhite(s) => s@,
        }
    }
}

impl BackgroundColors {
    /// Black background.
    pub fn black() -> (style: Self)
        ensures
            style is Black,
            style@ == sequence(seq![40nat]),
    {
        proof {
            reveal_strlit("\x1B[40m");
            lemma_single(40);
        }
        let style = BackgroundColors::Black("\x1B[40m");
        assert(style@ =~= sequence(seq![40nat]));
        style
    }

    /// Red background.
    pub fn red() -> (style: Self)
        ensures
            style is Red,
            style@ == sequence(seq![41nat]),
    {
        proof {
            reveal_strlit("\x1B[41m");
            lemma_single(41);
        }
        let style = BackgroundColors::Red("\x1B[41m");
        assert(style@ =~= sequence(seq![41nat]));
        style
    }

    /// Green background.
    pub fn green() -> (style: Self)
        ensures
            style is Green,
            style@ == sequence(seq![42nat]),
    {
        proof {
            reveal_strlit("\x1B[42m");
            lemma_single(42);
        }
        let style = BackgroundColors::Green("\x1B[42m");
        assert(style@ =~= sequence(seq![42nat]));
        style
    }

    /// Yellow background.
    pub fn yellow() -> (style: Self)
        ensures
            style is Yellow,
            style@ == sequence(seq![43nat]),
    {
        proof {
            reveal_strlit("\x1B[43m");
            lemma_single(43);
        }
        let style = BackgroundColors::Yellow("\x1B[43m");
        assert(style@ =~= sequence(seq![43nat]));
        style
    }

    /// Blue background.
    pub fn blue() -> (style: Self)
        ensures
            style is Blue,
            style@ == sequence(seq![44nat]),
    {
        proof {
            reveal_strlit("\x1B[44m");
            lemma_single(44);
        }
        let style = BackgroundColors::Blue("\x1B[44m");
        assert(style@ =~= sequence(seq![44nat]));
        style
    }

    /// Magenta background.
    pub fn magenta() -> (style: Self)
        ensures
            style is Magenta,
            style@ == sequence(seq![45nat]),
    {
        proof {
            reveal_strlit("\x1B[45m");
            lemma_single(45);
        }
        let style = BackgroundColors::Magenta("\x1B[45m");
        assert(style@ =~= sequence(seq![45nat]));
        style
    }

    /// Cyan background.
    pub fn cyan() -> (style: Self)
        ensures
            style is Cyan,
            style@ == sequence(seq![46nat]),
    {
        proof {
            reveal_strlit("\x1B[46m");
            lemma_single(46);
        }
        let style = BackgroundColors::Cyan("\x1B[46m");
        assert(style@ =~= sequence(seq![46nat]));
        style
    }

    /// White background.
    pub fn white() -> (style: Self)
        ensures
            style is White,
            style@ == sequence(seq![47nat]),
    {
        proof {
            reveal_strlit("\x1B[47m");
            lemma_single(47);
        }
        let style = BackgroundColors::White("\x1B[47m");
        assert(style@ =~= sequence(seq![47nat]));
        style
    }

    /// The terminal's own background colour.
    pub fn default() -> (style: Self)
        ensures
            style is Default,
            style@ == sequence(seq![49nat]),
    {
        proof {
            reveal_strlit("\x1B[49m");
            lemma_single(49);
        }
        let style = BackgroundColors::Default("\x1B[49m");
        assert(style@ =~= sequence(seq![49nat]));
        style
    }

    /// Bright black background.
    pub fn bright_black() -> (style: Self)
        ensures
            style is BrightBlack,
            style@ == sequence(seq![100nat]),
    {
        proof {
            reveal_strlit("\x1B[100m");
            lemma_single(100);
        }
        let style = BackgroundColors::BrightBlack("\x1B[100m");
        assert(style@ =~= sequence(seq![100nat]));
        style
    }

    /// Bright red background.
    pub fn bright_red() -> (style: Self)
        ensures
            style is BrightRed,
            style@ == sequence(seq![101nat]),
    {
        proof {
            reveal_strlit("\x1B[101m");
            lemma_single(101);
        }
        let style = BackgroundColors::BrightRed("\x1B[101m");
        assert(style@ =~= sequence(seq![101nat]));
        style
    }

    /// Bright green background.
    pub fn bright_green() -> (style: Self)
        ensures
            style is BrightGreen,
            style@ == sequence(seq![102nat]),
    {
        proof {
            reveal_strlit("\x1B[102m");
            lemma_single(102);
        }
        let style = BackgroundColors::BrightGreen("\x1B[102m");
        assert(style@ =~= sequence(seq![102nat]));
        style
    }

    /// Bright yellow background.
    pub fn bright_yellow() -> (style: Self)
        ensures
            style is BrightYellow,
            style@ == sequence(seq![103nat]),
    {
        proof {
            reveal_strlit("\x1B[103m");
            lemma_single(103);
        }
        let style = BackgroundColors::BrightYellow("\x1B[103m");
        assert(style@ =~= sequence(seq![103nat]));
        style
    }

    /// Bright blue background.
    pub fn bright_blue() -> (style: Self)
        ensures
            style is BrightBlue,
            style@ == sequence(seq![104nat]),
    {
        proof {
            reveal_strlit("\x1B[104m");
            lemma_single(104);
        }
        let style = BackgroundColors::BrightBlue("\x1B[104m");
        assert(style@ =~= sequence(seq![104nat]));
        style
    }

    /// Bright magenta background.
    pub fn bright_magenta() -> (style: Self)
        ensures
            style is BrightMagenta,
            style@ == sequence(seq![105nat]),
    {
        proof {
            reveal_strlit("\x1B[105m");
            lemma_single(105);
        }
        let style = BackgroundColors::BrightMagenta("\x1B[105m");
        assert(style@ =~= sequence(seq![105nat]));
        style
    }

    /// Bright cyan background.
    pub fn bright_cyan() -> (style: Self)
        ensures
            style is BrightCyan,
            style@ == sequence(seq![106nat]),
    {
        proof {
            reveal_strlit("\x1B[106m");
            lemma_single(106);
        }
        let style = BackgroundColors::BrightCyan("\x1B[106m");
        assert(style@ =~= sequence(seq![106nat]));
        style
    }

    /// Bright white background.
    pub fn bright_white() -> (style: Self)
        ensures
            style is BrightWhite,
            style@ == sequence(seq![107nat]),
    {
        proof {
            reveal_strlit("\x1B[107m");
            lemma_single(107);
        }
        let style = BackgroundColors::BrightWhite("\x1B[107m");
        assert(style@ =~= sequence(seq![107nat]));
        style
    }

    /// The carried text, borrowed.
    pub fn as_str(&self) -> (text: &'static str)
        ensures
            text@ == self@,
    {
        match self {
            BackgroundColors::Black(s) => s,
            BackgroundColors::Red(s) => s,
            BackgroundColors::Green(s) => s,
            BackgroundColors::Yellow(s) => s,
            BackgroundColors::Blue(s) => s,
            BackgroundColors::Magenta(s) => s,
            BackgroundColors::Cyan(s) => s,
            BackgroundColors::White(s) => s,
            BackgroundColors::Default(s) => s,
            BackgroundColors::BrightBlack(s) => s,
            BackgroundColors::BrightRed(s) => s,
            BackgroundColors::BrightGreen(s) => s,
            BackgroundColors::BrightYellow(s) => s,
            BackgroundColors::BrightBlue(s) => s,
            BackgroundColors::BrightMagenta(s) => s,
            BackgroundColors::BrightCyan(s) => s,
            BackgroundColors::BrightWhite(s) => s,
        }
    }

    /// The carried text: for a value made by one of the functions above, its
    /// escape sequence.
    pub fn to_string(&self) -> (text: String)
        ensures
            text@ == self@,
    {
        String::from_str(self.as_str())
    }
}

impl core::ops::Add<ForegroundColors> for BackgroundColors {
    type Output = String;

    /// One escape sequence with the parameters of `self`, then those of `rhs`.
    fn add(self, rhs: ForegroundColors) -> (both: String)
        ensures
            both@ == combined(self@, rhs@),
    {
        combine(self.as_str(), rhs.as_str())
    }
}

/// What `+` gives is stated by `add` itself, over views. Specifications cannot
/// build a `String`, so the operator promises no spec-level value.
impl vstd::std_specs::ops::AddSpecImpl<ForegroundColors> for BackgroundColors {
    open spec fn obeys_add_spec() -> bool {
        false
    }

    open spec fn add_req(self, rhs: ForegroundColors) -> bool {
        true
    }

    open spec fn add_spec(self, rhs: ForegroundColors) -> String {
        arbitrary()
    }
}

impl core::ops::Add<FontMode> for BackgroundColors {
    type Output = String;

    /// One escape sequence with the parameters of `self`, then those of `rhs`.
    fn add(self, rhs: FontMode) -> (both: String)
        ensures
            both@ == combined(self@, rhs@),
    {
        combine(self.as_str(), rhs.as_str())
    }
}

/// What `+` gives is stated by `add` itself, over views. Specifications cannot
/// build a `String`, so the operator promises no spec-level value.
impl vstd::std_specs::ops::AddSpecImpl<FontMode> for BackgroundColors {
    open spec fn obeys_add_spec() -> bool {
        false
    }

    open spec fn add_req(self, rhs: FontMode) -> bool {
        true
    }

    open spec fn add_spec(self, rhs: FontMode) -> String {
        arbitrary()
    }
}

impl core::ops::Add<BackgroundColors> for BackgroundColors {
    type Output = String;

    /// One escape sequence with the parameters of `self`, then those of `rhs`.
    fn add(self, rhs: BackgroundColors) -> (both: String)
        ensures
            both@ == combined(self@, rhs@),
    {
        combine(self.as_str(), rhs.as_str())
    }
}

/// What `+` gives is stated by `add` itself, over views. Specifications cannot
/// build a `String`, so the operator promises no spec-level value.
impl vstd::std_specs::ops::AddSpecImpl<BackgroundColors> for BackgroundColors {
    open spec fn obeys_add_spec() -> bool {
        false
    }

    open spec fn add_req(self, rhs: BackgroundColors) -> bool {
        true
    }

    open spec fn add_spec(self, rhs: BackgroundColors) -> String {
        arbitrary()
    }
}

impl core::ops::Add<String> for BackgroundColors {
    type Output = String;

    /// One escape sequence with the parameters of `self`, then those of `rhs`.
    fn add(self, rhs: String) -> (both: String)
        ensures
            both@ == combined(self@, rhs@),
    {
        combine(self.as_str(), rhs.as_str())
    }
}

/// What `+` gives is stated by `add` itself, over views. Specifications cannot
/// build a `String`, so the operator promises no spec-level value.
impl vstd::std_specs::ops::AddSpecImpl<String> for BackgroundColors {
    open spec fn obeys_add_spec() -> bool {
        false
    }

    open spec fn add_req(self, rhs: String) -> bool {
        true
    }

    open spec fn add_spec(self, rhs: String) -> String {
        arbitrary()
    }
}

impl core::ops::Add<BackgroundColors> for String {
    type Output = String;

    /// One escape sequence with the parameters of `self`, then those of `rhs`.
    fn add(self, rhs: BackgroundColors) -> (both: String)
        ensures
            both@ == combined(self@, rhs@),
    {
        combine(self.as_str(), rhs.as_str())
    }
}

/// What `+` gives is stated by `add` itself, over views. Specifications cannot
/// build a `String`, so the operator promises no spec-level value.
impl vstd::std_specs::ops::AddSpecImpl<BackgroundColors> for String {
    open spec fn obeys_add_spec() -> bool {
        false
    }

    open spec fn add_req(self, rhs: BackgroundColors) -> bool {
        true
    }

    open spec fn add_spec(self, rhs: BackgroundColors) -> String {
        arbitrary()
    }
}

} // verus!

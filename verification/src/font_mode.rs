use vstd::prelude::*;
use vstd::string::*;
use crate::ansi::{combine, combined, lemma_single, sequence};
use crate::background_colors::BackgroundColors;
use crate::foreground_colors::ForegroundColors;

verus! {

/// A font attribute, or the code that ends one. Each variant carries its
/// escape sequence.
pub enum FontMode {
    Bold(&'static str),
    Dim(&'static str),
    Italic(&'static str),
    Underline(&'static str),
    Blinking(&'static str),
    Reverse(&'static str),
    Invisible(&'static str),
    Strikethrough(&'static str),
    ResetAll(&'static str),
    ResetBold(&'static str),
    ResetDim(&'static str),
    ResetItalic(&'static str),
    ResetUnderline(&'static str),
    ResetBlinking(&'static str),
    ResetReverse(&'static str),
    ResetInvisible(&'static str),
    ResetStrikethrough(&'static str),
}

impl View for FontMode {
    type V = Seq<char>;

    /// The text that the value carries.
    open spec fn view(&self) -> Seq<char> {
        match self {
            FontMode::Bold(s) => s@,
            FontMode::Dim(s) => s@,
            FontMode::Italic(s) => s@,
            FontMode::Underline(s) => s@,
            FontMode::Blinking(s) => s@,
            FontMode::Reverse(s) => s@,
            FontMode::Invisible(s) => s@,
            FontMode::Strikethrough(s) => s@,
            FontMode::ResetAll(s) => s@,
            FontMode::ResetBold(s) => s@,
            FontMode::ResetDim(s) => s@,
            FontMode::ResetItalic(s) => s@,
            FontMode::ResetUnderline(s) => s@,
            FontMode::ResetBlinking(s) => s@,
            FontMode::ResetReverse(s) => s@,
            FontMode::ResetInvisible(s) => s@,
            FontMode::ResetStrikethrough(s) => s@,
        }
    }
}

impl FontMode {
    /// Bold or increased intensity.
    pub fn bold() -> (style: Self)
        ensures
            style is Bold,
            style@ == sequence(seq![1nat]),
    {
        proof {
            reveal_strlit("\x1B[1m");
            lemma_single(1);
        }
        let style = FontMode::Bold("\x1B[1m");
        assert(style@ =~= sequence(seq![1nat]));
        style
    }

    /// Faint or decreased intensity.
    pub fn dim() -> (style: Self)
        ensures
            style is Dim,
            style@ == sequence(seq![2nat]),
    {
        proof {
            reveal_strlit("\x1B[2m");
            lemma_single(2);
        }
        let style = FontMode::Dim("\x1B[2m");
        assert(style@ =~= sequence(seq![2nat]));
        style
    }

    /// Italic.
    pub fn italic() -> (style: Self)
        ensures
            style is Italic,
            style@ == sequence(seq![3nat]),
    {
        proof {
            reveal_strlit("\x1B[3m");
            lemma_single(3);
        }
        let style = FontMode::Italic("\x1B[3m");
        assert(style@ =~= sequence(seq![3nat]));
        style
    }

    /// Underlined.
    pub fn underline() -> (style: Self)
        ensures
            style is Underline,
            style@ == sequence(seq![4nat]),
    {
        proof {
            reveal_strlit("\x1B[4m");
            lemma_single(4);
        }
        let style = FontMode::Underline("\x1B[4m");
        assert(style@ =~= sequence(seq![4nat]));
        style
    }

    /// Blinking.
    pub fn blinking() -> (style: Self)
        ensures
            style is Blinking,
            style@ == sequence(seq![5nat]),
    {
        proof {
            reveal_strlit("\x1B[5m");
            lemma_single(5);
        }
        let style = FontMode::Blinking("\x1B[5m");
        assert(style@ =~= sequence(seq![5nat]));
        style
    }

    /// Foreground and background swapped.
    pub fn reverse() -> (style: Self)
        ensures
            style is Reverse,
            style@ == sequence(seq![7nat]),
    {
        proof {
            reveal_strlit("\x1B[7m");
            lemma_single(7);
        }
        let style = FontMode::Reverse("\x1B[7m");
        assert(style@ =~= sequence(seq![7nat]));
        style
    }

    /// Hidden.
    pub fn invisible() -> (style: Self)
        ensures
            style is Invisible,
            style@ == sequence(seq![8nat]),
    {
        proof {
            reveal_strlit("\x1B[8m");
            lemma_single(8);
        }
        let style = FontMode::Invisible("\x1B[8m");
        assert(style@ =~= sequence(seq![8nat]));
        style
    }

    /// Crossed out.
    pub fn strikethrough() -> (style: Self)
        ensures
            style is Strikethrough,
            style@ == sequence(seq![9nat]),
    {
        proof {
            reveal_strlit("\x1B[9m");
            lemma_single(9);
        }
        let style = FontMode::Strikethrough("\x1B[9m");
        assert(style@ =~= sequence(seq![9nat]));
        style
    }

    /// Every colour and attribute back to the terminal's default.
    pub fn reset_all() -> (style: Self)
        ensures
            style is ResetAll,
            style@ == sequence(seq![0nat]),
    {
        proof {
            reveal_strlit("\x1B[0m");
            lemma_single(0);
        }
        let style = FontMode::ResetAll("\x1B[0m");
        assert(style@ =~= sequence(seq![0nat]));
        style
    }

    /// Normal intensity. Terminals know one code for this: it ends dim too.
    pub fn reset_bold() -> (style: Self)
        ensures
            style is ResetBold,
            style@ == sequence(seq![22nat]),
    {
        proof {
            reveal_strlit("\x1B[22m");
            lemma_single(22);
        }
        let style = FontMode::ResetBold("\x1B[22m");
        assert(style@ =~= sequence(seq![22nat]));
        style
    }

    /// Normal intensity. Terminals know one code for this: it ends bold too.
    pub fn reset_dim() -> (style: Self)
        ensures
            style is ResetDim,
            style@ == sequence(seq![22nat]),
    {
        proof {
            reveal_strlit("\x1B[22m");
            lemma_single(22);
        }
        let style = FontMode::ResetDim("\x1B[22m");
        assert(style@ =~= sequence(seq![22nat]));
        style
    }

    /// Italic off.
    pub fn reset_italic() -> (style: Self)
        ensures
            style is ResetItalic,
            style@ == sequence(seq![23nat]),
    {
        proof {
            reveal_strlit("\x1B[23m");
            lemma_single(23);
        }
        let style = FontMode::ResetItalic("\x1B[23m");
        assert(style@ =~= sequence(seq![23nat]));
        style
    }

    /// Underline off.
    pub fn reset_underline() -> (style: Self)
        ensures
            style is ResetUnderline,
            style@ == sequence(seq![24nat]),
    {
        proof {
            reveal_strlit("\x1B[24m");
            lemma_single(24);
        }
        let style = FontMode::ResetUnderline("\x1B[24m");
        assert(style@ =~= sequence(seq![24nat]));
        style
    }

    /// Blinking off.
    pub fn reset_blinking() -> (style: Self)
        ensures
            style is ResetBlinking,
            style@ == sequence(seq![25nat]),
    {
        proof {
            reveal_strlit("\x1B[25m");
            lemma_single(25);
        }
        let style = FontMode::ResetBlinking("\x1B[25m");
        assert(style@ =~= sequence(seq![25nat]));
        style
    }

    /// Reverse off.
    pub fn reset_reverse() -> (style: Self)
        ensures
            style is ResetReverse,
            style@ == sequence(seq![27nat]),
    {
        proof {
            reveal_strlit("\x1B[27m");
            lemma_single(27);
        }
        let style = FontMode::ResetReverse("\x1B[27m");
        assert(style@ =~= sequence(seq![27nat]));
        style
    }

    /// Hidden off.
    pub fn reset_invisible() -> (style: Self)
        ensures
            style is ResetInvisible,
            style@ == sequence(seq![28nat]),
    {
        proof {
            reveal_strlit("\x1B[28m");
            lemma_single(28);
        }
        let style = FontMode::ResetInvisible("\x1B[28m");
        assert(style@ =~= sequence(seq![28nat]));
        style
    }

    /// Strikethrough off.
    pub fn reset_strikethrough() -> (style: Self)
        ensures
            style is ResetStrikethrough,
            style@ == sequence(seq![29nat]),
    {
        proof {
            reveal_strlit("\x1B[29m");
            lemma_single(29);
        }
        let style = FontMode::ResetStrikethrough("\x1B[29m");
        assert(style@ =~= sequence(seq![29nat]));
        style
    }

    /// The carried text, borrowed.
    pub fn as_str(&self) -> (text: &'static str)
        ensures
            text@ == self@,
    {
        match self {
            FontMode::Bold(s) => s,
            FontMode::Dim(s) => s,
            FontMode::Italic(s) => s,
            FontMode::Underline(s) => s,
            FontMode::Blinking(s) => s,
            FontMode::Reverse(s) => s,
            FontMode::Invisible(s) => s,
            FontMode::Strikethrough(s) => s,
            FontMode::ResetAll(s) => s,
            FontMode::ResetBold(s) => s,
            FontMode::ResetDim(s) => s,
            FontMode::ResetItalic(s) => s,
            FontMode::ResetUnderline(s) => s,
            FontMode::ResetBlinking(s) => s,
            FontMode::ResetReverse(s) => s,
            FontMode::ResetInvisible(s) => s,
            FontMode::ResetStrikethrough(s) => s,
        }
    }

    /// The carried text: for a value made by one of the functions above, its
    /// escape sequence.
    pub fn to_string(&self) -> (text: String)
        ensures
            text@ == self@,
    {
        String::from_str(self.as_str())
    }
}

impl core::ops::Add<BackgroundColors> for FontMode {
    type Output = String;

    /// One escape sequence with the parameters of `self`, then those of `rhs`.
    fn add(self, rhs: BackgroundColors) -> (both: String)
        ensures
            both@ == combined(self@, rhs@),
    {
        combine(self.as_str(), rhs.as_str())
    }
}

/// What `+` gives is stated by `add` itself, over views. Specifications cannot
/// build a `String`, so the operator promises no spec-level value.
impl vstd::std_specs::ops::AddSpecImpl<BackgroundColors> for FontMode {
    open spec fn obeys_add_spec() -> bool {
        false
    }

    open spec fn add_req(self, rhs: BackgroundColors) -> bool {
        true
    }

    open spec fn add_spec(self, rhs: BackgroundColors) -> String {
        arbitrary()
    }
}

impl core::ops::Add<ForegroundColors> for FontMode {
    type Output = String;

    /// One escape sequence with the parameters of `self`, then those of `rhs`.
    fn add(self, rhs: ForegroundColors) -> (both: String)
        ensures
            both@ == combined(self@, rhs@),
    {
        combine(self.as_str(), rhs.as_str())
    }
}

/// What `+` gives is stated by `add` itself, over views. Specifications cannot
/// build a `String`, so the operator promises no spec-level value.
impl vstd::std_specs::ops::AddSpecImpl<ForegroundColors> for FontMode {
    open spec fn obeys_add_spec() -> bool {
        false
    }

    open spec fn add_req(self, rhs: ForegroundColors) -> bool {
        true
    }

    open spec fn add_spec(self, rhs: ForegroundColors) -> String {
        arbitrary()
    }
}

impl core::ops::Add<FontMode> for FontMode {
    type Output = String;

    /// One escape sequence with the parameters of `self`, then those of `rhs`.
    fn add(self, rhs: FontMode) -> (both: String)
        ensures
            both@ == combined(self@, rhs@),
    {
        combine(self.as_str(), rhs.as_str())
    }
}

/// What `+` gives is stated by `add` itself, over views. Specifications cannot
/// build a `String`, so the operator promises no spec-level value.
impl vstd::std_specs::ops::AddSpecImpl<FontMode> for FontMode {
    open spec fn obeys_add_spec() -> bool {
        false
    }

    open spec fn add_req(self, rhs: FontMode) -> bool {
        true
    }

    open spec fn add_spec(self, rhs: FontMode) -> String {
        arbitrary()
    }
}

impl core::ops::Add<String> for FontMode {
    type Output = String;

    /// One escape sequence with the parameters of `self`, then those of `rhs`.
    fn add(self, rhs: String) -> (both: String)
        ensures
            both@ == combined(self@, rhs@),
    {
        combine(self.as_str(), rhs.as_str())
    }
}

/// What `+` gives is stated by `add` itself, over views. Specifications cannot
/// build a `String`, so the operator promises no spec-level value.
impl vstd::std_specs::ops::AddSpecImpl<String> for FontMode {
    open spec fn obeys_add_spec() -> bool {
        false
    }

    open spec fn add_req(self, rhs: String) -> bool {
        true
    }

    open spec fn add_spec(self, rhs: String) -> String {
        arbitrary()
    }
}

impl core::ops::Add<FontMode> for String {
    type Output = String;

    /// One escape sequence with the parameters of `self`, then those of `rhs`.
    fn add(self, rhs: FontMode) -> (both: String)
        ensures
            both@ == combined(self@, rhs@),
    {
        combine(self.as_str(), rhs.as_str())
    }
}

/// What `+` gives is stated by `add` itself, over views. Specifications cannot
/// build a `String`, so the operator promises no spec-level value.
impl vstd::std_specs::ops::AddSpecImpl<FontMode> for String {
    open spec fn obeys_add_spec() -> bool {
        false
    }

    open spec fn add_req(self, rhs: FontMode) -> bool {
        true
    }

    open spec fn add_spec(self, rhs: FontMode) -> String {
        arbitrary()
    }
}

} // verus!

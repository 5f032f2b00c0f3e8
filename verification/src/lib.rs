pub mod ansi;
pub mod background_colors;
pub mod call_site;
pub mod font_mode;
pub mod foreground_colors;
pub mod levels;
pub mod shape;

use vstd::prelude::*;
use vstd::string::*;
use crate::ansi::{decimal, decimal_text, law_combined_sequences, lemma_single, sequence};
use crate::background_colors::BackgroundColors;
use crate::call_site::{get_caller_location_symbols, occurs_in, text_contains, StackSymbol};
use crate::font_mode::FontMode;
use crate::foreground_colors::ForegroundColors;
use crate::levels::Levels;

verus! {

/// A logger: it formats a line for every call at or above its threshold.
pub struct Apollo {
    pub logging_level: Levels,
}

/// The sequence that ends every styled stretch of a line.
pub open spec fn reset() -> Seq<char> {
    sequence(seq![0nat])
}

/// What parts two neighbouring columns of a line.
pub open spec fn separator() -> Seq<char> {
    seq![' ', '|', ' ']
}

/// The label of a level, each as wide as the others.
pub open spec fn label(level: Levels) -> Seq<char> {
    match level {
        Levels::DEBUG => seq!['[', ' ', 'D', 'E', 'B', 'U', 'G', ' ', ']'],
        Levels::INFO => seq!['[', ' ', 'I', 'N', 'F', 'O', ' ', ' ', ']'],
        Levels::WARN => seq!['[', ' ', 'W', 'A', 'R', 'N', ' ', ' ', ']'],
        Levels::ERROR => seq!['[', ' ', 'E', 'R', 'R', 'O', 'R', ' ', ']'],
        Levels::CRITICAL => seq!['[', ' ', 'C', 'R', 'I', 'T', ' ', ' ', ']'],
        Levels::NONE => Seq::empty(),
    }
}

/// The parameters that style the time stamp: bright green at every level.
pub open spec fn date_style(level: Levels) -> Seq<nat> {
    seq![92nat]
}

/// The parameters that style the label.
pub open spec fn label_style(level: Levels) -> Seq<nat> {
    match level {
        Levels::DEBUG => seq![36nat],
        Levels::INFO => seq![34nat],
        Levels::WARN => seq![33nat],
        Levels::ERROR => seq![31nat],
        Levels::CRITICAL => seq![91nat],
        Levels::NONE => Seq::empty(),
    }
}

/// The parameters that style the place of the call: italic at every level.
pub open spec fn location_style(level: Levels) -> Seq<nat> {
    seq![3nat]
}

/// The parameters that style the message.
pub open spec fn text_style(level: Levels) -> Seq<nat> {
    match level {
        Levels::DEBUG => seq![96nat],
        Levels::INFO => seq![97nat],
        Levels::WARN => seq![33nat, 1nat],
        Levels::ERROR => seq![31nat, 1nat],
        Levels::CRITICAL => seq![97nat, 101nat, 1nat, 4nat],
        Levels::NONE => Seq::empty(),
    }
}

/// The line of one call: the time stamp in brackets, the label, the place of
/// the call and the message, each in its style and followed by a reset.
pub open spec fn line_text(
    level: Levels,
    time: Seq<char>,
    location: Seq<char>,
    message: Seq<char>,
) -> Seq<char> {
    sequence(date_style(level)) + seq!['['] + time + seq![']'] + reset() + seq![' '] + sequence(
        label_style(level),
    ) + label(level) + reset() + separator() + sequence(location_style(level)) + location
        + reset() + separator() + sequence(text_style(level)) + message + reset()
}

/// A place on the stack that never counts as the caller: the logger's own
/// methods, the stack walker's, the core library's, and files of installed
/// dependencies.
pub open spec fn skipped(location: Seq<char>) -> bool {
    ||| occurs_in(".cargo\\registry"@, location)
    ||| occurs_in("src\\libstd"@, location)
    ||| occurs_in("src\\libcore"@, location)
    ||| occurs_in("src\\backtrace"@, location)
    ||| occurs_in("get_caller_location"@, location)
    ||| occurs_in("backtrace::trace::{{closure}}"@, location)
    ||| occurs_in("backtrace::resolve_frame::{{closure}}"@, location)
    ||| occurs_in("core::"@, location)
    ||| occurs_in("Apollo::critical"@, location)
    ||| occurs_in("Apollo::error"@, location)
    ||| occurs_in("Apollo::warn"@, location)
    ||| occurs_in("Apollo::info"@, location)
    ||| occurs_in("Apollo::debug"@, location)
}

/// A symbol can stand for the caller: its file, line and name are all known,
/// and neither its path nor its name is a skipped place.
pub open spec fn qualifies(symbol: StackSymbol) -> bool {
    &&& symbol.path is Some
    &&& symbol.file is Some
    &&& symbol.line is Some
    &&& symbol.name is Some
    &&& !skipped(symbol.path->0@)
    &&& !skipped(symbol.name->0@)
}

/// How a symbol is shown in a line: file name, a colon, the line number.
pub open spec fn position(symbol: StackSymbol) -> Seq<char> {
    symbol.file->0@ + seq![':'] + decimal(symbol.line->0 as nat)
}

/// What stands in a line where no symbol qualifies.
pub open spec fn unknown_position() -> Seq<char> {
    seq!['U', 'n', 'k', 'n', 'o', 'w', 'n', ':', '0']
}

/// `i` is the first place in `symbols` whose symbol qualifies.
pub open spec fn first_qualifying(symbols: Seq<StackSymbol>, i: int) -> bool {
    &&& 0 <= i < symbols.len()
    &&& qualifies(symbols[i])
    &&& forall|j: int| 0 <= j < i ==> !qualifies(#[trigger] symbols[j])
}

/// `location` is what a line can show as the place of a call: the position of
/// a symbol that qualifies, or the stand-in where there is none.
pub open spec fn is_place(location: Seq<char>) -> bool {
    location == unknown_position() || exists|symbol: StackSymbol|
        qualifies(symbol) && location == #[trigger] position(symbol)
}

/// A character `0` to `9`.
pub open spec fn is_decimal_digit(c: char) -> bool {
    c == '0' || c == '1' || c == '2' || c == '3' || c == '4' || c == '5' || c == '6' || c == '7'
        || c == '8' || c == '9'
}

/// The shape of a time stamp, month/day/year hour:minute:second.millisecond,
/// with a `0` wherever a digit stands.
pub open spec fn time_stamp_pattern() -> Seq<char> {
    "00/00/00 00:00:00.000"@
}

/// `time` has the shape of a time stamp: as long as the pattern, a digit
/// where the pattern has its `0`, and the pattern's own character elsewhere.
pub open spec fn is_time_stamp(time: Seq<char>) -> bool {
    &&& time.len() == time_stamp_pattern().len()
    &&& forall|k: int|
        0 <= k < time.len() ==> if time_stamp_pattern()[k] == '0' {
            is_decimal_digit(#[trigger] time[k])
        } else {
            time[k] == time_stamp_pattern()[k]
        }
}

/// `line` is the line of a call at `level` with this message, for some time
/// stamp and some place of call.
pub open spec fn is_line(level: Levels, message: Seq<char>, line: Seq<char>) -> bool {
    exists|time: Seq<char>, location: Seq<char>|
        is_time_stamp(time) && is_place(location) && line == #[trigger] line_text(
            level,
            time,
            location,
            message,
        )
}

impl Default for Apollo {
    fn default() -> (logger: Self)
        ensures
            logger.logging_level == Levels::DEBUG,
    {
        Self::new()
    }
}

impl Apollo {
    /// A logger at the lowest threshold, which lets every call through.
    pub fn new() -> (logger: Apollo)
        ensures
            logger.logging_level == Levels::DEBUG,
    {
        Apollo { logging_level: Levels::DEBUG }
    }

    /// A call at `level` gets a line: the level is one that calls carry, and
    /// it does not rank below the threshold.
    pub open spec fn emits(self, level: Levels) -> bool {
        level != Levels::NONE && self.logging_level.ordinal() <= level.ordinal()
    }

    /// The current time in UTC as month/day/year hour:minute:second.millisecond:
    /// std's `SystemTime::now`, taken to a `DateTime<Utc>` by chrono's `From`,
    /// which takes a clock before 1970 as well as one after, and written by
    /// `DateTime::format`. Which time it shows depends on the clock; trusted is
    /// only the shape, which chrono gives to every time under these
    /// specifiers: two digits for each part, three for the milliseconds, and
    /// the marks between them.
    #[verifier::external_body]
    fn get_time_as_string(&self) -> (time: String)
        ensures
            is_time_stamp(time@),
    {
        chrono::DateTime::<chrono::Utc>::from(std::time::SystemTime::now())
            .format("%D %H:%M:%S%.3f")
            .to_string()
    }

    /// Formats a message at the DEBUG level, with the current time and the
    /// place of the call. Gives the line, or nothing where the threshold
    /// suppresses the call. The line is handed back, not written: writing it
    /// to the stream of its level is the caller's part.
    pub fn debug(&self, s: &str) -> (r: Option<String>)
        ensures
            r is Some <==> self.emits(Levels::DEBUG),
            r matches Some(line) ==> is_line(Levels::DEBUG, s@, line@),
    {
        if self.logging_level.as_u8() > Levels::DEBUG.as_u8() {
            return None;
        }
        let current_time = self.get_time_as_string();
        let location = match self.get_caller_location() {
            Some(place) => place,
            None => Self::unknown_place(),
        };
        self.render(Levels::DEBUG, current_time.as_str(), location.as_str(), s)
    }

    /// Formats a message at the INFO level, with the current time and the
    /// place of the call. Gives the line, or nothing where the threshold
    /// suppresses the call. The line is handed back, not written: writing it
    /// to the stream of its level is the caller's part.
    pub fn info(&self, s: &str) -> (r: Option<String>)
        ensures
            r is Some <==> self.emits(Levels::INFO),
            r matches Some(line) ==> is_line(Levels::INFO, s@, line@),
    {
        if self.logging_level.as_u8() > Levels::INFO.as_u8() {
            return None;
        }
        let current_time = self.get_time_as_string();
        let location = match self.get_caller_location() {
            Some(place) => place,
            None => Self::unknown_place(),
        };
        self.render(Levels::INFO, current_time.as_str(), location.as_str(), s)
    }

    /// Formats a message at the WARN level, with the current time and the
    /// place of the call. Gives the line, or nothing where the threshold
    /// suppresses the call. The line is handed back, not written: writing it
    /// to the stream of its level is the caller's part.
    pub fn warn(&self, s: &str) -> (r: Option<String>)
        ensures
            r is Some <==> self.emits(Levels::WARN),
            r matches Some(line) ==> is_line(Levels::WARN, s@, line@),
    {
        if self.logging_level.as_u8() > Levels::WARN.as_u8() {
            return None;
        }
        let current_time = self.get_time_as_string();
        let location = match self.get_caller_location() {
            Some(place) => place,
            None => Self::unknown_place(),
        };
        self.render(Levels::WARN, current_time.as_str(), location.as_str(), s)
    }

    /// Formats a message at the ERROR level, with the current time and the
    /// place of the call. Gives the line, or nothing where the threshold
    /// suppresses the call. The line is handed back, not written: writing it
    /// to the stream of its level is the caller's part.
    pub fn error(&self, s: &str) -> (r: Option<String>)
        ensures
            r is Some <==> self.emits(Levels::ERROR),
            r matches Some(line) ==> is_line(Levels::ERROR, s@, line@),
    {
        if self.logging_level.as_u8() > Levels::ERROR.as_u8() {
            return None;
        }
        let current_time = self.get_time_as_string();
        let location = match self.get_caller_location() {
            Some(place) => place,
            None => Self::unknown_place(),
        };
        self.render(Levels::ERROR, current_time.as_str(), location.as_str(), s)
    }

    /// Formats a message at the CRITICAL level, with the current time and the
    /// place of the call. Gives the line, or nothing where the threshold
    /// suppresses the call. The line is handed back, not written: writing it
    /// to the stream of its level is the caller's part.
    pub fn critical(&self, s: &str) -> (r: Option<String>)
        ensures
            r is Some <==> self.emits(Levels::CRITICAL),
            r matches Some(line) ==> is_line(Levels::CRITICAL, s@, line@),
    {
        if self.logging_level.as_u8() > Levels::CRITICAL.as_u8() {
            return None;
        }
        let current_time = self.get_time_as_string();
        let location = match self.get_caller_location() {
            Some(place) => place,
            None => Self::unknown_place(),
        };
        self.render(Levels::CRITICAL, current_time.as_str(), location.as_str(), s)
    }

    /// What a line shows where the stack names no caller.
    fn unknown_place() -> (location: String)
        ensures
            location@ == unknown_position(),
    {
        proof {
            reveal_strlit("Unknown:0");
        }
        let location = String::from_str("Unknown:0");
        assert(location@ =~= unknown_position());
        location
    }

    /// The file name and line of the nearest caller on the stack that is not
    /// a skipped place, or nothing where the stack names none.
    pub fn get_caller_location(&self) -> (r: Option<String>)
        ensures
            r matches Some(place) ==> exists|symbol: StackSymbol|
                qualifies(symbol) && place@ == #[trigger] position(symbol),
    {
        let symbols = get_caller_location_symbols();
        Self::locate(&symbols)
    }

    /// The position of the first symbol that qualifies, or nothing where none
    /// does.
    pub fn locate(symbols: &Vec<StackSymbol>) -> (r: Option<String>)
        ensures
            match r {
                Some(place) => exists|i: int|
                    first_qualifying(symbols@, i) && place@ == position(symbols@[i]),
                None => forall|i: int| 0 <= i < symbols.len() ==> !qualifies(#[trigger] symbols@[i]),
            },
    {
        let mut i: usize = 0;
        while i < symbols.len()
            invariant
                i <= symbols.len(),
                forall|j: int| 0 <= j < i ==> !qualifies(#[trigger] symbols@[j]),
            decreases symbols.len() - i,
        {
            match Self::place_of(&symbols[i]) {
                Some(place) => {
                    assert(first_qualifying(symbols@, i as int));
                    return Some(place);
                },
                None => {},
            }
            i += 1;
        }
        None
    }

    /// The position of one symbol, where it qualifies.
    fn place_of(symbol: &StackSymbol) -> (r: Option<String>)
        ensures
            match r {
                Some(place) => qualifies(*symbol) && place@ == position(*symbol),
                None => !qualifies(*symbol),
            },
    {
        match (&symbol.path, &symbol.file, &symbol.line, &symbol.name) {
            (Some(path), Some(file), Some(line), Some(name)) => {
                if Self::filter_locations(path.as_str()) {
                    return None;
                }
                if Self::filter_locations(name.as_str()) {
                    return None;
                }
                proof {
                    reveal_strlit(":");
                }
                let mut place = String::from_str(file.as_str());
                place.append(":");
                let number = decimal_text(*line);
                place.append(number.as_str());
                assert(place@ =~= position(*symbol));
                Some(place)
            },
            _ => None,
        }
    }

    /// Whether a path or a symbol name belongs to a place that never counts
    /// as the caller.
    pub fn filter_locations(location: &str) -> (hit: bool)
        ensures
            hit == skipped(location@),
    {
        text_contains(location, ".cargo\\registry")
            || text_contains(location, "src\\libstd")
            || text_contains(location, "src\\libcore")
            || text_contains(location, "src\\backtrace")
            || text_contains(location, "get_caller_location")
            || text_contains(location, "backtrace::trace::{{closure}}")
            || text_contains(location, "backtrace::resolve_frame::{{closure}}")
            || text_contains(location, "core::")
            || text_contains(location, "Apollo::critical")
            || text_contains(location, "Apollo::error")
            || text_contains(location, "Apollo::warn")
            || text_contains(location, "Apollo::info")
            || text_contains(location, "Apollo::debug")
    }

    /// The line of a call at `level`, or nothing where the threshold
    /// suppresses it.
    pub fn render(&self, level: Levels, time: &str, location: &str, s: &str) -> (r: Option<String>)
        ensures
            match r {
                Some(line) => self.emits(level) && line@ == line_text(
                    level,
                    time@,
                    location@,
                    s@,
                ),
                None => !self.emits(level),
            },
    {
        if self.logging_level.as_u8() > level.as_u8() {
            return None;
        }
        let date_format = ForegroundColors::bright_green().to_string();
        let location_format = FontMode::italic().to_string();
        match level {
            Levels::DEBUG => {
                let label_format = ForegroundColors::cyan().to_string();
                let text_format = ForegroundColors::bright_cyan().to_string();
                proof {
                    reveal_strlit("[ DEBUG ]");
                    assert("[ DEBUG ]"@ =~= label(level));
                }
                Some(
                    Self::assemble(
                        date_format.as_str(),
                        time,
                        label_format.as_str(),
                        "[ DEBUG ]",
                        location_format.as_str(),
                        location,
                        text_format.as_str(),
                        s,
                    ),
                )
            },
            Levels::INFO => {
                let label_format = ForegroundColors::blue().to_string();
                let text_format = ForegroundColors::bright_white().to_string();
                proof {
                    reveal_strlit("[ INFO  ]");
                    assert("[ INFO  ]"@ =~= label(level));
                }
                Some(
                    Self::assemble(
                        date_format.as_str(),
                        time,
                        label_format.as_str(),
                        "[ INFO  ]",
                        location_format.as_str(),
                        location,
                        text_format.as_str(),
                        s,
                    ),
                )
            },
            Levels::WARN => {
                let label_format = ForegroundColors::yellow().to_string();
                let text_format = ForegroundColors::yellow() + FontMode::bold();
                proof {
                    reveal_strlit("[ WARN  ]");
                    assert("[ WARN  ]"@ =~= label(level));
                    law_combined_sequences(seq![33nat], seq![1nat]);
                    assert(seq![33nat] + seq![1nat] =~= text_style(level));
                }
                Some(
                    Self::assemble(
                        date_format.as_str(),
                        time,
                        label_format.as_str(),
                        "[ WARN  ]",
                        location_format.as_str(),
                        location,
                        text_format.as_str(),
                        s,
                    ),
                )
            },
            Levels::ERROR => {
                let label_format = ForegroundColors::red().to_string();
                let text_format = ForegroundColors::red() + FontMode::bold();
                proof {
                    reveal_strlit("[ ERROR ]");
                    assert("[ ERROR ]"@ =~= label(level));
                    law_combined_sequences(seq![31nat], seq![1nat]);
                    assert(seq![31nat] + seq![1nat] =~= text_style(level));
                }
                Some(
                    Self::assemble(
                        date_format.as_str(),
                        time,
                        label_format.as_str(),
                        "[ ERROR ]",
                        location_format.as_str(),
                        location,
                        text_format.as_str(),
                        s,
                    ),
                )
            },
            Levels::CRITICAL => {
                let label_format = ForegroundColors::bright_red().to_string();
                let text_format = ForegroundColors::bright_white() + BackgroundColors::bright_red()
                    + FontMode::bold() + FontMode::underline();
                proof {
                    reveal_strlit("[ CRIT  ]");
                    assert("[ CRIT  ]"@ =~= label(level));
                    law_combined_sequences(seq![97nat], seq![101nat]);
                    assert(seq![97nat] + seq![101nat] =~= seq![97nat, 101nat]);
                    law_combined_sequences(seq![97nat, 101nat], seq![1nat]);
                    assert(seq![97nat, 101nat] + seq![1nat] =~= seq![97nat, 101nat, 1nat]);
                    law_combined_sequences(seq![97nat, 101nat, 1nat], seq![4nat]);
                    assert(seq![97nat, 101nat, 1nat] + seq![4nat] =~= text_style(level));
                }
                Some(
                    Self::assemble(
                        date_format.as_str(),
                        time,
                        label_format.as_str(),
                        "[ CRIT  ]",
                        location_format.as_str(),
                        location,
                        text_format.as_str(),
                        s,
                    ),
                )
            },
            Levels::NONE => None,
        }
    }

    /// Puts the columns of a line together, each behind its style and before
    /// a reset.
    fn assemble(
        date_format: &str,
        time: &str,
        label_format: &str,
        label: &str,
        location_format: &str,
        location: &str,
        text_format: &str,
        s: &str,
    ) -> (line: String)
        ensures
            line@ == date_format@ + seq!['['] + time@ + seq![']'] + reset() + seq![' ']
                + label_format@ + label@ + reset() + separator() + location_format@ + location@
                + reset() + separator() + text_format@ + s@ + reset(),
    {
        proof {
            reveal_strlit("[");
            reveal_strlit("]\x1B[0m ");
            reveal_strlit("\x1B[0m | ");
            reveal_strlit("\x1B[0m");
            lemma_single(0);
        }
        let mut line = String::from_str(date_format);
        line.append("[");
        line.append(time);
        line.append("]\x1B[0m ");
        line.append(label_format);
        line.append(label);
        line.append("\x1B[0m | ");
        line.append(location_format);
        line.append(location);
        line.append("\x1B[0m | ");
        line.append(text_format);
        line.append(s);
        line.append("\x1B[0m");
        assert(line@ =~= date_format@ + seq!['['] + time@ + seq![']'] + reset() + seq![' ']
            + label_format@ + label@ + reset() + separator() + location_format@ + location@
            + reset() + separator() + text_format@ + s@ + reset());
        line
    }
}

/// A logger lets a call through exactly where the call's level ranks at or
/// above the threshold, and suppresses it exactly where it ranks below. At
/// the threshold NONE nothing passes.
pub proof fn law_threshold(logger: Apollo, level: Levels)
    requires
        level != Levels::NONE,
    ensures
        logger.emits(level) <==> level.ordinal() >= logger.logging_level.ordinal(),
        !logger.emits(level) <==> level.ordinal() < logger.logging_level.ordinal(),
        logger.logging_level == Levels::NONE ==> !logger.emits(level),
        logger.logging_level == Levels::DEBUG ==> logger.emits(level),
{
}

} // verus!

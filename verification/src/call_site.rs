//! What a walk over the call stack yields, as plain values.

use vstd::prelude::*;

verus! {

/// One resolved symbol of the call stack. Any part may be missing: debug
/// information is not always there, and a path or a name that is no valid
/// UTF-8 counts as missing.
pub struct StackSymbol {
    /// The path of the source file.
    pub path: Option<String>,
    /// The last component of that path.
    pub file: Option<String>,
    /// The line in that file.
    pub line: Option<u32>,
    /// The symbol's raw name.
    pub name: Option<String>,
}

/// `pattern` stands somewhere in `text`, as one unbroken run.
pub open spec fn occurs_in(pattern: Seq<char>, text: Seq<char>) -> bool {
    exists|i: int|
        0 <= i && i + pattern.len() <= text.len() && #[trigger] text.subrange(
            i,
            i + pattern.len(),
        ) == pattern
}

/// `str::contains` with a string as the pattern. Trusted to say whether the
/// pattern's characters occur in the text as one unbroken run, which is what
/// std documents: the pattern matches a sub-slice of the text.
#[verifier::external_body]
pub(crate) fn text_contains(text: &str, pattern: &str) -> (found: bool)
    ensures
        found == occurs_in(pattern@, text@),
{
    text.contains(pattern)
}

/// Walks the current call stack with `backtrace::trace`, resolves each frame
/// with `backtrace::resolve_frame`, and hands back every symbol met, the most
/// recent call first, as plain values. Nothing is claimed of what comes back:
/// it depends on the stack, the platform and the debug information at hand.
///
/// The name matters: it holds `get_caller_location`, one of the skipped
/// places, so the walker's own frames never count as the caller.
#[verifier::external_body]
pub(crate) fn get_caller_location_symbols() -> (symbols: Vec<StackSymbol>) {
    let mut symbols: Vec<StackSymbol> = Vec::new();
    backtrace::trace(|frame| {
        backtrace::resolve_frame(frame, |symbol| {
            let path = symbol.filename();
            symbols.push(StackSymbol {
                path: path.and_then(|p| p.to_str()).map(String::from),
                file: path.and_then(|p| p.file_name()).map(|f| f.to_string_lossy().into_owned()),
                line: symbol.lineno(),
                name: symbol.name().and_then(|n| n.as_str()).map(String::from),
            });
        });
        true
    });
    symbols
}

} // verus!

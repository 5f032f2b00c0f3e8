//! Where the label stands in a line, and why no second label can stand in it
//! unless a caller's own text brings one.

use vstd::prelude::*;
use crate::ansi::{decimal, joined, sequence};
use crate::levels::Levels;
use crate::{
    date_style, is_time_stamp, label, label_style, line_text, location_style, reset, separator,
    text_style,
};

verus! {

/// The label of `level`, a level that calls carry, stands in `text` at `i`.
pub open spec fn label_at(text: Seq<char>, i: int, level: Levels) -> bool {
    &&& level != Levels::NONE
    &&& 0 <= i
    &&& i + 9 <= text.len()
    &&& text.subrange(i, i + 9) == label(level)
}

/// Some label stands somewhere in `text`.
pub open spec fn holds_label(text: Seq<char>) -> bool {
    exists|i: int, level: Levels| label_at(text, i, level)
}

/// Where the label starts in a line with this time stamp: behind the time
/// stamp's style, its two brackets, a reset, a blank and the label's style.
pub open spec fn label_start(time: Seq<char>) -> int {
    time.len() as int + 17
}

/// `text` ends with the characters of `tail`.
pub open spec fn ends_with(text: Seq<char>, tail: Seq<char>) -> bool {
    tail.len() <= text.len() && text.subrange(text.len() - tail.len(), text.len() as int) == tail
}

/// A character that can stand among the parameters of a sequence.
spec fn is_parameter_char(c: char) -> bool {
    c == ';' || c == '0' || c == '1' || c == '2' || c == '3' || c == '4' || c == '5' || c == '6'
        || c == '7' || c == '8' || c == '9'
}

proof fn lemma_label_chars(level: Levels)
    requires
        level != Levels::NONE,
    ensures
        label(level).len() == 9,
        label(level)[0] == '[',
        label(level)[1] == ' ',
        forall|k: int| 0 <= k < 9 ==> label(level)[k] != '\x1B',
        forall|k: int| 1 <= k < 9 ==> label(level)[k] != '[',
        level == Levels::DEBUG <==> label(level)[2] == 'D',
        level == Levels::INFO <==> label(level)[2] == 'I',
        level == Levels::WARN <==> label(level)[2] == 'W',
        level == Levels::ERROR <==> label(level)[2] == 'E',
        level == Levels::CRITICAL <==> label(level)[2] == 'C',
{
}

proof fn lemma_decimal_chars(n: nat)
    ensures
        decimal(n).len() >= 1,
        forall|k: int| 0 <= k < decimal(n).len() ==> is_parameter_char(#[trigger] decimal(n)[k]),
    decreases n,
{
    if n >= 10 {
        lemma_decimal_chars(n / 10);
    }
}

proof fn lemma_joined_chars(params: Seq<nat>)
    ensures
        forall|k: int|
            0 <= k < joined(params).len() ==> is_parameter_char(#[trigger] joined(params)[k]),
    decreases params.len(),
{
    if params.len() == 1 {
        lemma_decimal_chars(params[0]);
    } else if params.len() > 1 {
        let front = joined(params.drop_last());
        let back = decimal(params.last());
        lemma_joined_chars(params.drop_last());
        lemma_decimal_chars(params.last());
        assert forall|k: int| 0 <= k < joined(params).len() implies is_parameter_char(
            #[trigger] joined(params)[k],
        ) by {
            if k < front.len() {
                assert(joined(params)[k] == front[k]);
            } else if k == front.len() {
                assert(joined(params)[k] == ';');
            } else {
                assert(joined(params)[k] == back[k - front.len() - 1]);
            }
        }
    }
}

/// A sequence opens with ESC and `[`, and no later character of it is a `[`
/// or a blank.
proof fn lemma_sequence_chars(params: Seq<nat>)
    ensures
        sequence(params).len() == joined(params).len() + 3,
        sequence(params)[0] == '\x1B',
        sequence(params)[1] == '[',
        forall|k: int|
            2 <= k < sequence(params).len() ==> {
                let c = #[trigger] sequence(params)[k];
                c != '[' && c != ' ' && c != '\x1B'
            },
{
    lemma_joined_chars(params);
    let s = sequence(params);
    assert forall|k: int| 2 <= k < s.len() implies {
        let c = #[trigger] s[k];
        c != '[' && c != ' ' && c != '\x1B'
    } by {
        if k < s.len() - 1 {
            assert(s[k] == joined(params)[k - 2]);
            assert(is_parameter_char(joined(params)[k - 2]));
        } else {
            assert(s[k] == 'm');
        }
    }
}

/// A label does not reach across the start of an escape sequence: where
/// `right` is empty or opens with ESC, a label in `left + right` lies in one
/// of the two.
proof fn lemma_label_not_across(left: Seq<char>, right: Seq<char>, i: int, level: Levels)
    requires
        right.len() == 0 || right[0] == '\x1B',
        label_at(left + right, i, level),
    ensures
        (i + 9 <= left.len() && label_at(left, i, level)) || (i >= left.len() && label_at(
            right,
            i - left.len(),
            level,
        )),
{
    lemma_label_chars(level);
    let whole = left + right;
    let window = whole.subrange(i, i + 9);
    if i + 9 <= left.len() {
        assert(left.subrange(i, i + 9) =~= window);
    } else if i >= left.len() {
        assert(right.subrange(i - left.len(), i - left.len() + 9) =~= window);
    } else {
        let k = left.len() - i;
        assert(window[k] == whole[left.len() as int]);
        assert(whole[left.len() as int] == right[0]);
        assert(label(level)[k] != '\x1B');
        assert(false);
    }
}

/// A label in a sequence followed by `body` lies in `body`.
proof fn lemma_label_after_sequence(params: Seq<nat>, body: Seq<char>, i: int, level: Levels)
    requires
        label_at(sequence(params) + body, i, level),
    ensures
        i >= sequence(params).len(),
        label_at(body, i - sequence(params).len(), level),
{
    lemma_label_chars(level);
    lemma_sequence_chars(params);
    let s = sequence(params);
    let whole = s + body;
    let window = whole.subrange(i, i + 9);
    if i < s.len() {
        if i == 0 {
            assert(window[0] == whole[0]);
            assert(whole[0] == s[0]);
        } else if i == 1 {
            assert(window[1] == whole[2]);
            assert(whole[2] == s[2]);
        } else {
            assert(window[0] == whole[i]);
            assert(whole[i] == s[i]);
        }
        assert(false);
    }
    assert(body.subrange(i - s.len(), i - s.len() + 9) =~= window);
}

/// Every line ends with the full reset, and carries the label of its level
/// right behind the time stamp's column.
pub proof fn law_line_shape(
    level: Levels,
    time: Seq<char>,
    location: Seq<char>,
    message: Seq<char>,
)
    requires
        level != Levels::NONE,
    ensures
        ends_with(line_text(level, time, location, message), reset()),
        label_at(line_text(level, time, location, message), label_start(time), level),
{
    let line = line_text(level, time, location, message);
    lemma_label_chars(level);
    lemma_sequence_chars(date_style(level));
    lemma_sequence_chars(label_style(level));
    lemma_sequence_chars(seq![0nat]);
    crate::ansi::lemma_single(92);
    crate::ansi::lemma_single(0);
    crate::ansi::lemma_single(label_style(level)[0]);
    assert(label_style(level) =~= seq![label_style(level)[0]]);
    assert(line.subrange(line.len() - reset().len(), line.len() as int) =~= reset());
    let head = sequence(date_style(level)) + seq!['['] + time + seq![']'] + reset() + seq![' ']
        + sequence(label_style(level));
    assert(head.len() == time.len() + 17);
    assert(line.subrange(time.len() as int + 17, time.len() as int + 26) =~= label(level));
}

/// A label in a styled column that is followed by `rest` lies in the
/// column's text or in `rest`.
proof fn lemma_label_in_column(
    params: Seq<nat>,
    body: Seq<char>,
    rest: Seq<char>,
    i: int,
    level: Levels,
)
    requires
        rest.len() == 0 || rest[0] == '\x1B',
        label_at(sequence(params) + body + rest, i, level),
    ensures
        i >= sequence(params).len(),
        label_at(body, i - sequence(params).len(), level) || (i >= sequence(params).len()
            + body.len() && label_at(rest, i - sequence(params).len() - body.len(), level)),
{
    let column = sequence(params) + body;
    lemma_label_not_across(column, rest, i, level);
    if i + 9 <= column.len() {
        lemma_label_after_sequence(params, body, i, level);
    } else {
        lemma_sequence_chars(params);
    }
}

/// The message's column and the reset that ends the line.
spec fn message_tail(level: Levels, message: Seq<char>) -> Seq<char> {
    sequence(text_style(level)) + message + reset()
}

/// The place's column and all that follows it.
spec fn location_tail(level: Levels, location: Seq<char>, message: Seq<char>) -> Seq<char> {
    sequence(location_style(level)) + location + (reset() + separator() + message_tail(
        level,
        message,
    ))
}

/// The label's column and all that follows it.
spec fn label_tail(level: Levels, location: Seq<char>, message: Seq<char>) -> Seq<char> {
    sequence(label_style(level)) + label(level) + (reset() + separator() + location_tail(
        level,
        location,
        message,
    ))
}

proof fn lemma_line_columns(
    level: Levels,
    time: Seq<char>,
    location: Seq<char>,
    message: Seq<char>,
)
    ensures
        line_text(level, time, location, message) == sequence(date_style(level)) + (seq!['[']
            + time + seq![']']) + (reset() + seq![' '] + label_tail(level, location, message)),
{
    assert(line_text(level, time, location, message) =~= sequence(date_style(level)) + (seq!['[']
        + time + seq![']']) + (reset() + seq![' '] + label_tail(level, location, message)));
}

proof fn lemma_no_label_in_message_tail(level: Levels, message: Seq<char>, i: int, other: Levels)
    requires
        !holds_label(message),
    ensures
        !label_at(message_tail(level, message), i, other),
{
    if label_at(message_tail(level, message), i, other) {
        lemma_sequence_chars(seq![0nat]);
        lemma_label_in_column(text_style(level), message, reset(), i, other);
        let j = i - sequence(text_style(level)).len() - message.len();
        if label_at(reset(), j, other) {
            assert(reset() =~= reset() + Seq::<char>::empty());
            lemma_label_after_sequence(seq![0nat], Seq::<char>::empty(), j, other);
        }
    }
}

proof fn lemma_no_label_in_location_tail(
    level: Levels,
    location: Seq<char>,
    message: Seq<char>,
    i: int,
    other: Levels,
)
    requires
        !holds_label(location),
        !holds_label(message),
    ensures
        !label_at(location_tail(level, location, message), i, other),
{
    if label_at(location_tail(level, location, message), i, other) {
        let after = reset() + separator() + message_tail(level, message);
        lemma_sequence_chars(seq![0nat]);
        lemma_sequence_chars(text_style(level));
        assert(after[0] == '\x1B');
        lemma_label_in_column(location_style(level), location, after, i, other);
        let j = i - sequence(location_style(level)).len() - location.len();
        assert(message_tail(level, message)[0] == '\x1B');
        lemma_label_in_column(seq![0nat], separator(), message_tail(level, message), j, other);
        lemma_no_label_in_message_tail(
            level,
            message,
            j - reset().len() - separator().len(),
            other,
        );
    }
}

proof fn lemma_label_in_label_tail(
    level: Levels,
    location: Seq<char>,
    message: Seq<char>,
    i: int,
    other: Levels,
)
    requires
        level != Levels::NONE,
        !holds_label(location),
        !holds_label(message),
        label_at(label_tail(level, location, message), i, other),
    ensures
        other == level,
        i == sequence(label_style(level)).len(),
{
    let after = reset() + separator() + location_tail(level, location, message);
    lemma_sequence_chars(seq![0nat]);
    lemma_sequence_chars(location_style(level));
    lemma_label_chars(level);
    lemma_label_chars(other);
    assert(after[0] == '\x1B');
    lemma_label_in_column(label_style(level), label(level), after, i, other);
    let j = i - sequence(label_style(level)).len();
    if label_at(label(level), j, other) {
        assert(j == 0);
        assert(label(level).subrange(0, 9) =~= label(level));
        assert(label(level)[2] == label(other)[2]);
    } else {
        let k = j - label(level).len();
        assert(location_tail(level, location, message)[0] == '\x1B');
        lemma_label_in_column(
            seq![0nat],
            separator(),
            location_tail(level, location, message),
            k,
            other,
        );
        lemma_no_label_in_location_tail(
            level,
            location,
            message,
            k - reset().len() - separator().len(),
            other,
        );
    }
}

/// A line carries no label but its own, and that one once, unless the time
/// stamp in its brackets, the place of the call or the message brings one.
pub proof fn law_single_label(
    level: Levels,
    time: Seq<char>,
    location: Seq<char>,
    message: Seq<char>,
    i: int,
    other: Levels,
)
    requires
        level != Levels::NONE,
        !holds_label(seq!['['] + time + seq![']']),
        !holds_label(location),
        !holds_label(message),
        label_at(line_text(level, time, location, message), i, other),
    ensures
        other == level,
        i == label_start(time),
{
    let stamp = seq!['['] + time + seq![']'];
    let tail = label_tail(level, location, message);
    let after = reset() + seq![' '] + tail;
    lemma_line_columns(level, time, location, message);
    lemma_sequence_chars(seq![0nat]);
    lemma_sequence_chars(date_style(level));
    lemma_sequence_chars(label_style(level));
    crate::ansi::lemma_single(92);
    crate::ansi::lemma_single(0);
    assert(label_style(level) =~= seq![label_style(level)[0]]);
    crate::ansi::lemma_single(label_style(level)[0]);
    assert(after[0] == '\x1B');
    lemma_label_in_column(date_style(level), stamp, after, i, other);
    let j = i - sequence(date_style(level)).len() - stamp.len();
    assert(tail[0] == '\x1B');
    lemma_label_in_column(seq![0nat], seq![' '], tail, j, other);
    lemma_label_in_label_tail(level, location, message, j - reset().len() - 1, other);
}

/// A time stamp in its brackets brings no label.
pub proof fn law_time_stamp_holds_no_label(time: Seq<char>)
    requires
        is_time_stamp(time),
    ensures
        !holds_label(seq!['['] + time + seq![']']),
{
    reveal_strlit("00/00/00 00:00:00.000");
    let stamp = seq!['['] + time + seq![']'];
    assert forall|i: int, level: Levels| !label_at(stamp, i, level) by {
        if label_at(stamp, i, level) {
            lemma_label_chars(level);
            let window = stamp.subrange(i, i + 9);
            assert(window[0] == stamp[i]);
            assert(window[1] == stamp[i + 1]);
            if i == 0 {
                assert(stamp[1] == time[0]);
            } else {
                assert(stamp[i] == time[i - 1]);
            }
        }
    }
}

} // verus!

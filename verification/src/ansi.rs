//! The textual algebra of terminal styles: an escape sequence is ESC `[`,
//! then decimal parameters separated by `;`, then `m`. Two sequences are
//! combined by unwrapping both and wrapping the two parameter lists as one.

use vstd::prelude::*;
use vstd::string::*;

verus! {

/// The two characters that open every escape sequence: ESC and `[`.
pub open spec fn opener() -> Seq<char> {
    seq!['\x1B', '[']
}

/// `s` without its leading ESC `[`, or `s` itself where it does not start so.
pub open spec fn without_opener(s: Seq<char>) -> Seq<char> {
    if s.len() >= 2 && s[0] == '\x1B' && s[1] == '[' {
        s.subrange(2, s.len() as int)
    } else {
        s
    }
}

/// `s` without its final `m`, or `s` itself where it does not end so.
pub open spec fn without_closer(s: Seq<char>) -> Seq<char> {
    if s.len() >= 1 && s[s.len() - 1] == 'm' {
        s.subrange(0, s.len() - 1)
    } else {
        s
    }
}

/// What stands between the opener and the closing `m` of `s`. A fragment that
/// lacks either end keeps that end as it is.
pub open spec fn parameters(s: Seq<char>) -> Seq<char> {
    without_closer(without_opener(s))
}

/// One escape sequence carrying the parameters of `left`, then those of `right`.
pub open spec fn combined(left: Seq<char>, right: Seq<char>) -> Seq<char> {
    opener() + parameters(left) + seq![';'] + parameters(right) + seq!['m']
}

/// The character of a decimal digit.
pub open spec fn digit(d: nat) -> char
    recommends
        d < 10,
{
    if d == 0 {
        '0'
    } else if d == 1 {
        '1'
    } else if d == 2 {
        '2'
    } else if d == 3 {
        '3'
    } else if d == 4 {
        '4'
    } else if d == 5 {
        '5'
    } else if d == 6 {
        '6'
    } else if d == 7 {
        '7'
    } else if d == 8 {
        '8'
    } else {
        '9'
    }
}

/// `n` written in base ten, without leading zeros.
pub open spec fn decimal(n: nat) -> Seq<char>
    decreases n,
{
    if n < 10 {
        seq![digit(n)]
    } else {
        decimal(n / 10).push(digit(n % 10))
    }
}

/// The parameters in base ten, in order, with a `;` between neighbours.
pub open spec fn joined(params: Seq<nat>) -> Seq<char>
    decreases params.len(),
{
    if params.len() == 0 {
        Seq::empty()
    } else if params.len() == 1 {
        decimal(params[0])
    } else {
        joined(params.drop_last()) + seq![';'] + decimal(params.last())
    }
}

/// The escape sequence that selects the given parameters.
pub open spec fn sequence(params: Seq<nat>) -> Seq<char> {
    opener() + joined(params) + seq!['m']
}

/// Strips the escape-sequence wrapper from `s`, keeping what is between.
pub fn strip(s: &str) -> (inner: &str)
    ensures
        inner@ == parameters(s@),
{
    let n: usize = s.unicode_len();
    let start: usize = if n >= 2 && s.get_char(0) == '\x1B' && s.get_char(1) == '[' {
        2
    } else {
        0
    };
    let end: usize = if n > start && s.get_char(n - 1) == 'm' {
        n - 1
    } else {
        n
    };
    let inner = s.substring_char(start, end);
    proof {
        assert(without_opener(s@) == s@.subrange(start as int, n as int));
        assert(parameters(s@) =~= s@.subrange(start as int, end as int));
    }
    inner
}

/// Joins two styles, or fragments of styles, into a single escape sequence.
/// Nothing is dropped, reordered or merged: the parameters of `left` come
/// first, then those of `right`.
pub fn combine(left: &str, right: &str) -> (both: String)
    ensures
        both@ == combined(left@, right@),
{
    proof {
        reveal_strlit("\x1B[");
        reveal_strlit(";");
        reveal_strlit("m");
    }
    let mut both = String::from_str("\x1B[");
    both.append(strip(left));
    both.append(";");
    both.append(strip(right));
    both.append("m");
    assert(both@ =~= combined(left@, right@));
    both
}

fn digit_text(d: u32) -> (text: &'static str)
    requires
        d < 10,
    ensures
        text@ == seq![digit(d as nat)],
{
    proof {
        reveal_strlit("0");
        reveal_strlit("1");
        reveal_strlit("2");
        reveal_strlit("3");
        reveal_strlit("4");
        reveal_strlit("5");
        reveal_strlit("6");
        reveal_strlit("7");
        reveal_strlit("8");
        reveal_strlit("9");
    }
    let text = if d == 0 {
        "0"
    } else if d == 1 {
        "1"
    } else if d == 2 {
        "2"
    } else if d == 3 {
        "3"
    } else if d == 4 {
        "4"
    } else if d == 5 {
        "5"
    } else if d == 6 {
        "6"
    } else if d == 7 {
        "7"
    } else if d == 8 {
        "8"
    } else {
        "9"
    };
    assert(text@ =~= seq![digit(d as nat)]);
    text
}

/// Writes `n` in base ten.
pub fn decimal_text(n: u32) -> (text: String)
    ensures
        text@ == decimal(n as nat),
    decreases n,
{
    if n < 10 {
        String::from_str(digit_text(n))
    } else {
        let mut text = decimal_text(n / 10);
        text.append(digit_text(n % 10));
        assert(text@ =~= decimal(n as nat));
        text
    }
}

/// The sequence of a single parameter below a thousand, character by character.
pub proof fn lemma_single(n: nat)
    requires
        n < 1000,
    ensures
        n < 10 ==> sequence(seq![n]) == seq!['\x1B', '[', digit(n), 'm'],
        10 <= n < 100 ==> sequence(seq![n]) == seq![
            '\x1B',
            '[',
            digit(n / 10),
            digit(n % 10),
            'm',
        ],
        100 <= n ==> sequence(seq![n]) == seq![
            '\x1B',
            '[',
            digit(n / 100),
            digit(n / 10 % 10),
            digit(n % 10),
            'm',
        ],
{
    assert(joined(seq![n]) == decimal(n));
    if n < 10 {
        assert(sequence(seq![n]) =~= seq!['\x1B', '[', digit(n), 'm']);
    } else if n < 100 {
        assert(decimal(n / 10) == seq![digit(n / 10)]);
        assert(sequence(seq![n]) =~= seq!['\x1B', '[', digit(n / 10), digit(n % 10), 'm']);
    } else {
        let h = n / 10;
        assert(h / 10 == n / 100);
        assert(decimal(h / 10) == seq![digit(h / 10)]);
        assert(decimal(h) == decimal(h / 10).push(digit(h % 10)));
        assert(sequence(seq![n]) =~= seq![
            '\x1B',
            '[',
            digit(n / 100),
            digit(n / 10 % 10),
            digit(n % 10),
            'm',
        ]);
    }
}

/// Unwrapping a well-formed sequence gives back its joined parameters.
pub proof fn law_parameters_of_sequence(params: Seq<nat>)
    ensures
        parameters(sequence(params)) == joined(params),
{
    let s = sequence(params);
    assert(without_opener(s) =~= joined(params) + seq!['m']);
    assert(parameters(s) =~= joined(params));
}

/// Joining two non-empty parameter lists one after the other is joining each
/// and putting a `;` between.
pub proof fn law_joined_concat(a: Seq<nat>, b: Seq<nat>)
    requires
        a.len() > 0,
        b.len() > 0,
    ensures
        joined(a + b) == joined(a) + seq![';'] + joined(b),
    decreases b.len(),
{
    let ab = a + b;
    assert(ab.last() == b.last());
    if b.len() == 1 {
        assert(ab.drop_last() =~= a);
        assert(joined(ab) =~= joined(a) + seq![';'] + joined(b));
    } else {
        assert(ab.drop_last() =~= a + b.drop_last());
        law_joined_concat(a, b.drop_last());
        assert(joined(ab) =~= joined(a) + seq![';'] + joined(b));
    }
}

/// Combining two well-formed sequences gives the well-formed sequence of the
/// left parameters followed by the right ones, each kept and in its place.
pub proof fn law_combined_sequences(a: Seq<nat>, b: Seq<nat>)
    requires
        a.len() > 0,
        b.len() > 0,
    ensures
        combined(sequence(a), sequence(b)) == sequence(a + b),
{
    law_parameters_of_sequence(a);
    law_parameters_of_sequence(b);
    law_joined_concat(a, b);
    assert(combined(sequence(a), sequence(b)) =~= sequence(a + b));
}

/// Whatever the operands, a combination unwraps to the two unwrapped
/// operands with a `;` between.
pub proof fn law_parameters_of_combined(left: Seq<char>, right: Seq<char>)
    ensures
        parameters(combined(left, right)) == parameters(left) + seq![';'] + parameters(right),
{
    let c = combined(left, right);
    let inner = parameters(left) + seq![';'] + parameters(right);
    assert(c =~= opener() + inner + seq!['m']);
    assert(without_opener(c) =~= inner + seq!['m']);
    assert(parameters(c) =~= inner);
}

/// A chain of combinations carries its operands' parameters from left to
/// right, however the pairs were formed.
pub proof fn law_combined_associative(a: Seq<char>, b: Seq<char>, c: Seq<char>)
    ensures
        combined(combined(a, b), c) == combined(a, combined(b, c)),
        combined(combined(a, b), c) == opener() + parameters(a) + seq![';'] + parameters(b)
            + seq![';'] + parameters(c) + seq!['m'],
{
    law_parameters_of_combined(a, b);
    law_parameters_of_combined(b, c);
    let flat = opener() + parameters(a) + seq![';'] + parameters(b) + seq![';'] + parameters(c)
        + seq!['m'];
    assert(combined(combined(a, b), c) =~= flat);
    assert(combined(a, combined(b, c)) =~= flat);
}

} // verus!

//! Texts: finding and splitting, trimming, small letters, decimal numbers.

use vstd::prelude::*;

verus! {

/// Whether `pattern` stands in `text` at position `at`.
pub open spec fn occurs_at(text: Seq<char>, pattern: Seq<char>, at: int) -> bool {
    &&& 0 <= at
    &&& at + pattern.len() <= text.len()
    &&& text.subrange(at, at + pattern.len()) == pattern
}

/// Whether `pattern` stands somewhere in `text`.
pub open spec fn occurs(text: Seq<char>, pattern: Seq<char>) -> bool {
    exists|at: int| occurs_at(text, pattern, at)
}

/// Whether `at` is the leftmost position at which `pattern` stands in `text`.
pub open spec fn is_first_occurrence(text: Seq<char>, pattern: Seq<char>, at: int) -> bool {
    &&& occurs_at(text, pattern, at)
    &&& forall|earlier: int| 0 <= earlier < at ==> !occurs_at(text, pattern, earlier)
}

/// The leftmost position at which `pattern` stands in `text`; meaningful only
/// where it occurs at all.
pub open spec fn first_occurrence(text: Seq<char>, pattern: Seq<char>) -> int {
    choose|at: int| is_first_occurrence(text, pattern, at)
}

/// The parts of `text` before and after the leftmost occurrence of `pattern`,
/// or `None` where `pattern` does not occur.
pub open spec fn split_first(text: Seq<char>, pattern: Seq<char>) -> Option<(Seq<char>, Seq<char>)> {
    if occurs(text, pattern) {
        let at = first_occurrence(text, pattern);
        Some((text.take(at), text.skip(at + pattern.len())))
    } else {
        None
    }
}

/// Where a pattern occurs, it has a leftmost occurrence, at or before any given one.
pub proof fn lemma_leftmost_occurrence(text: Seq<char>, pattern: Seq<char>, at: int) -> (leftmost: int)
    requires
        occurs_at(text, pattern, at),
    ensures
        leftmost <= at,
        is_first_occurrence(text, pattern, leftmost),
    decreases at,
{
    if exists|earlier: int| 0 <= earlier < at && occurs_at(text, pattern, earlier) {
        let earlier = choose|earlier: int| 0 <= earlier < at && occurs_at(text, pattern, earlier);
        lemma_leftmost_occurrence(text, pattern, earlier)
    } else {
        at
    }
}

/// Where a pattern occurs, `first_occurrence` is its leftmost occurrence.
pub proof fn lemma_first_occurrence(text: Seq<char>, pattern: Seq<char>)
    requires
        occurs(text, pattern),
    ensures
        is_first_occurrence(text, pattern, first_occurrence(text, pattern)),
{
    let at = choose|at: int| occurs_at(text, pattern, at);
    let leftmost = lemma_leftmost_occurrence(text, pattern, at);
}

/// A leftmost occurrence is the only leftmost occurrence.
pub proof fn lemma_first_occurrence_is(text: Seq<char>, pattern: Seq<char>, at: int)
    requires
        is_first_occurrence(text, pattern, at),
    ensures
        occurs(text, pattern),
        first_occurrence(text, pattern) == at,
{
    let chosen = first_occurrence(text, pattern);
    assert(is_first_occurrence(text, pattern, chosen));
    if chosen < at {
        assert(!occurs_at(text, pattern, chosen));
    }
    if at < chosen {
        assert(!occurs_at(text, pattern, at));
    }
}

/// Splits `text` at the leftmost occurrence of `delimiter`.
///
/// Trusted: stands for `str::split_once` of the standard library. It is taken
/// to return `None` exactly when the delimiter does not occur, and otherwise
/// the text before its leftmost occurrence and the text after it.
#[verifier::external_body]
pub(crate) fn split_once<'a>(text: &'a str, delimiter: &str) -> (parts: Option<(&'a str, &'a str)>)
    ensures
        match parts {
            Some((before, after)) => {
                &&& is_first_occurrence(text@, delimiter@, before@.len() as int)
                &&& before@ == text@.take(before@.len() as int)
                &&& after@ == text@.skip((before@.len() + delimiter@.len()) as int)
            },
            None => !occurs(text@, delimiter@),
        },
{
    text.split_once(delimiter)
}

/// Splits `text` at the leftmost occurrence of `delimiter`, if there is one.
pub fn split_at_first<'a>(text: &'a str, delimiter: &str) -> (parts: Option<(&'a str, &'a str)>)
    ensures
        match (parts, split_first(text@, delimiter@)) {
            (Some((before, after)), Some((head, tail))) => before@ == head && after@ == tail,
            (None, None) => true,
            _ => false,
        },
{
    let parts = split_once(text, delimiter);
    proof {
        if let Some((before, after)) = parts {
            lemma_first_occurrence_is(text@, delimiter@, before@.len() as int);
        }
    }
    parts
}

/// Whether two texts hold the same characters.
///
/// Trusted: stands for `==` on `str` of the standard library, which compares
/// the two texts character by character.
#[verifier::external_body]
pub(crate) fn same_text(left: &str, right: &str) -> (same: bool)
    ensures
        same == (left@ == right@),
{
    left == right
}

/// Whether `text` ends with `suffix`.
///
/// Trusted: stands for `str::ends_with` of the standard library, called with
/// a text as the pattern.
#[verifier::external_body]
pub(crate) fn ends_with(text: &str, suffix: &str) -> (ends: bool)
    ensures
        ends == suffix@.is_suffix_of(text@),
{
    text.ends_with(suffix)
}

/// A character with every ASCII capital letter turned into its small letter.
pub open spec fn ascii_lower(c: char) -> char {
    if 'A' <= c && c <= 'Z' {
        ((c as u32) + 32) as char
    } else {
        c
    }
}

/// Turns the ASCII capital letters of `text` into small letters.
///
/// Trusted: stands for `str::to_ascii_lowercase` of the standard library,
/// which maps `A` to `Z` onto `a` to `z` and leaves every other character
/// as it is.
#[verifier::external_body]
pub(crate) fn to_ascii_lowercase(text: &str) -> (lowered: String)
    ensures
        lowered@ == text@.map_values(|c: char| ascii_lower(c)),
{
    text.to_ascii_lowercase()
}

/// Whether a character is white space to `str::trim` of the standard
/// library: whether it has the Unicode property `White_Space`.
pub uninterp spec fn is_whitespace(c: char) -> bool;

/// `text` without the white space at its start.
pub open spec fn trim_start(text: Seq<char>) -> Seq<char>
    decreases text.len(),
{
    if text.len() > 0 && is_whitespace(text.first()) {
        trim_start(text.drop_first())
    } else {
        text
    }
}

/// `text` without the white space at its end.
pub open spec fn trim_end(text: Seq<char>) -> Seq<char>
    decreases text.len(),
{
    if text.len() > 0 && is_whitespace(text.last()) {
        trim_end(text.drop_last())
    } else {
        text
    }
}

/// `text` without the white space at its start and at its end.
pub open spec fn trimmed(text: Seq<char>) -> Seq<char> {
    trim_end(trim_start(text))
}

/// Removes the white space at the start and at the end of `text`.
///
/// Trusted: stands for `str::trim` of the standard library, which takes away
/// the white space at both ends and nothing else.
#[verifier::external_body]
pub(crate) fn trim(text: &str) -> (inner: &str)
    ensures
        inner@ == trimmed(text@),
        inner@.len() > 0 ==> !is_whitespace(inner@.first()) && !is_whitespace(inner@.last()),
{
    text.trim()
}

/// Joins two texts.
pub fn join(left: &str, right: &str) -> (joined: String)
    ensures
        joined@ == left@ + right@,
{
    left.to_owned().concat(right)
}

/// The decimal digit that stands for a number below ten.
pub open spec fn digit(value: nat) -> char {
    if value == 0 {
        '0'
    } else if value == 1 {
        '1'
    } else if value == 2 {
        '2'
    } else if value == 3 {
        '3'
    } else if value == 4 {
        '4'
    } else if value == 5 {
        '5'
    } else if value == 6 {
        '6'
    } else if value == 7 {
        '7'
    } else if value == 8 {
        '8'
    } else {
        '9'
    }
}

/// A number written in decimal digits, without leading zeros.
pub open spec fn decimal(value: nat) -> Seq<char>
    decreases value,
{
    if value < 10 {
        seq![digit(value)]
    } else {
        decimal(value / 10).push(digit(value % 10))
    }
}

fn digit_text(value: usize) -> (text: &'static str)
    requires
        value < 10,
    ensures
        text@ == seq![digit(value as nat)],
{
    proof {
        reveal_strlit("0");
        reveal_strlit("1");
        reveal_strlit("2");
        reveal_strlit("3");
        reveal_strlit("4");
        reveal_strlit("5");
        reveal_strlit("6");
        reveal_strlit("7");
        reveal_strlit("8");
        reveal_strlit("9");
    }
    let text = if value == 0 {
        "0"
    } else if value == 1 {
        "1"
    } else if value == 2 {
        "2"
    } else if value == 3 {
        "3"
    } else if value == 4 {
        "4"
    } else if value == 5 {
        "5"
    } else if value == 6 {
        "6"
    } else if value == 7 {
        "7"
    } else if value == 8 {
        "8"
    } else {
        "9"
    };
    assert(text@ =~= seq![digit(value as nat)]);
    text
}

/// Writes a number in decimal digits, without leading zeros.
pub fn to_decimal(value: usize) -> (text: String)
    ensures
        text@ == decimal(value as nat),
    decreases value,
{
    if value < 10 {
        digit_text(value).to_owned()
    } else {
        let text = to_decimal(value / 10).concat(digit_text(value % 10));
        assert(text@ =~= decimal(value as nat));
        text
    }
}

} // verus!

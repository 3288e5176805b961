//! The two patterns that telemetry is read with, and the searches that run
//! them. The searches themselves are the `regex` crate's; what this module
//! says of them is believed, not proved.

use vstd::prelude::*;

verus! {

/// A version line: a word, the version, and in an opening bracket the
/// commit hash followed by the build date. The version begins with digits
/// and a dot and goes on up to the bracket; the date is four digits, two
/// and two, with hyphens between them.
pub const VERSION_PATTERN: &'static str =
    r"^\w+ (?P<version>\d+\..*) \((?P<hash>.*) (?P<release>\d{4}-\d{2}-\d{2})";

/// A diagnostic code in square brackets: `E` and four more characters.
pub const ERROR_CODE_PATTERN: &'static str = r"\[(?P<error>E.{4})\]";

/// The number of characters that a bracketed diagnostic code takes up.
pub const BRACKETED_CODE_LEN: usize = 7;

/// What the search for the first match of the expression `pattern` in
/// `text` yields: nothing where `pattern` is no valid expression or matches
/// nowhere, else the text of each group of the match by its number, the
/// whole match being number 0, with nothing for a group that took no part.
pub uninterp spec fn first_match_groups(pattern: Seq<char>, text: Seq<char>) -> Option<
    Seq<Option<Seq<char>>>,
>;

/// A bracketed diagnostic code starts at position `i` of `text`: `[`, `E`,
/// four characters of which none is a line feed, and `]`.
pub open spec fn is_code_at(text: Seq<char>, i: int) -> bool {
    &&& 0 <= i
    &&& i + BRACKETED_CODE_LEN <= text.len()
    &&& text[i] == '['
    &&& text[i + 1] == 'E'
    &&& forall|k: int| i + 2 <= k < i + 6 ==> text[k] != '\n'
    &&& text[i + 6] == ']'
}

/// The diagnostic codes found from position `i` of `text` on, first to
/// last, each without its brackets. The search goes on behind the closing
/// bracket of a code it has found, so no character belongs to two codes.
pub open spec fn error_codes_from(text: Seq<char>, i: int) -> Seq<Seq<char>>
    decreases text.len() - i,
{
    if i < 0 || i >= text.len() {
        Seq::empty()
    } else if is_code_at(text, i) {
        seq![text.subrange(i + 1, i + 6)] + error_codes_from(text, i + BRACKETED_CODE_LEN)
    } else {
        error_codes_from(text, i + 1)
    }
}

/// The diagnostic codes of `text`, first to last.
pub open spec fn error_codes_in(text: Seq<char>) -> Seq<Seq<char>> {
    error_codes_from(text, 0)
}

/// Searches `text` for the first match of `pattern` and hands out the text
/// of its groups.
///
/// Trusted: the body calls `regex::Regex::captures`, on the expression that
/// `regex::Regex::new` makes of `pattern`. The contract claims only that the
/// outcome is a function of the two strings, which it names. The expression
/// is made anew on each call: a compiled expression is opaque to the
/// verifier, and with the pattern at hand the contract can speak of it.
#[verifier::external_body]
pub(crate) fn regex_captures(pattern: &str, text: &str) -> (found: Option<Vec<Option<String>>>)
    ensures
        found.deep_view() == first_match_groups(pattern@, text@),
{
    let expression = regex::Regex::new(pattern).ok()?;
    let captures = expression.captures(text)?;
    Some(captures.iter().map(|group| group.map(|m| m.as_str().to_owned())).collect())
}

/// Searches `text` for every diagnostic code and hands out the codes.
///
/// Trusted: the body calls `regex::Regex::captures_iter`, on the expression
/// that `regex::Regex::new` makes of the diagnostic-code pattern, and takes
/// the first group of each match. The contract claims that those are the
/// codes of [`error_codes_in`]: that the pattern is a valid expression, that
/// it matches at a position exactly where [`is_code_at`] holds, `.` standing
/// for any character but a line feed, and that the matches come leftmost
/// first and do not overlap. Nothing is claimed of any other pattern.
#[verifier::external_body]
pub(crate) fn regex_error_codes(pattern: &str, text: &str) -> (codes: Vec<String>)
    requires
        pattern@ == ERROR_CODE_PATTERN@,
    ensures
        codes.deep_view() == error_codes_in(text@),
{
    match regex::Regex::new(pattern) {
        Ok(expression) => expression.captures_iter(text).map(|c| c[1].to_owned()).collect(),
        Err(_) => Vec::new(),
    }
}

} // verus!

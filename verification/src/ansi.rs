//! The width that a text takes on a terminal: its characters, without the
//! colour escape sequences that a terminal does not show.

use vstd::prelude::*;
use vstd::string::*;

verus! {

/// The regular expression of a colour escape sequence.
pub const ESCAPE_PATTERN: &'static str = r"\x1b\[[0-9;]*m";

pub const COLOR_GREEN: &'static str = "\x1b[32m";

pub const COLOR_RED: &'static str = "\x1b[31m";

pub const COLOR_RESET: &'static str = "\x1b[0m";

/// What `regex` makes of `haystack` when every non-overlapping match of
/// `pattern` is replaced by `replacement`, or `None` where `regex` refuses
/// the pattern.
pub uninterp spec fn regex_replaced(
    pattern: Seq<char>,
    haystack: Seq<char>,
    replacement: Seq<char>,
) -> Option<Seq<char>>;

/// `input` without its colour escape sequences.
pub open spec fn stripped(input: Seq<char>) -> Seq<char> {
    visible_part(regex_replaced(ESCAPE_PATTERN@, input, ""@), input)
}

/// The text that is measured: the replaced text, or the input as it is
/// where there is none.
pub open spec fn visible_part(replaced: Option<Seq<char>>, input: Seq<char>) -> Seq<char> {
    match replaced {
        Some(text) => text,
        None => input,
    }
}

/// The number of characters of `input` that a terminal shows.
pub open spec fn visible_width(input: Seq<char>) -> nat {
    stripped(input).len()
}

/// Compiles `pattern` with `regex::Regex::new` and, where that succeeds,
/// calls `Regex::replace_all` on `haystack` with `replacement`. The contract
/// gives the outcome its name and claims nothing else of it; the outcome is
/// `None` exactly where `Regex::new` returns an error.
#[verifier::external_body]
fn replace_all(pattern: &str, haystack: &str, replacement: &str) -> (r: Option<String>)
    ensures
        match r {
            Some(text) => regex_replaced(pattern@, haystack@, replacement@) == Some(text@),
            None => regex_replaced(pattern@, haystack@, replacement@) is None,
        },
{
    match regex::Regex::new(pattern) {
        Ok(re) => Some(re.replace_all(haystack, replacement).into_owned()),
        Err(_) => None,
    }
}

/// The number of characters of the replaced text, or of `input` where
/// there is none.
pub fn visible_len(replaced: Option<String>, input: &str) -> (r: usize)
    ensures
        r == visible_part(
            match replaced {
                Some(text) => Some(text@),
                None => None,
            },
            input@,
        ).len(),
{
    match replaced {
        Some(text) => text.as_str().unicode_len(),
        None => input.unicode_len(),
    }
}

/// The number of characters of `input` that a terminal shows: colour
/// escape sequences are removed before the characters are counted.
pub fn terminal_str_len(input: &str) -> (r: usize)
    ensures
        r == visible_width(input@),
        r == stripped(input@).len(),
{
    let replaced = replace_all(ESCAPE_PATTERN, input, "");
    visible_len(replaced, input)
}

} // verus!

//! The two patterns that names must match before they reach the store.

use vstd::prelude::*;
use crate::text::chars::{is_ascii_alphanumeric, is_ascii_digit, is_ascii_lower};

verus! {

/// A name of a custom command: one ASCII letter or digit, or more.
pub open spec fn is_command_name(s: Seq<char>) -> bool {
    s.len() >= 1 && forall|i: int| 0 <= i < s.len() ==> is_ascii_alphanumeric(#[trigger] s[i])
}

/// A character that may follow the first one of a username.
pub open spec fn is_username_char(c: char) -> bool {
    is_ascii_lower(c) || is_ascii_digit(c) || c == '_'
}

/// A username: a lower-case ASCII letter, then 2 to 24 lower-case ASCII
/// letters, digits or underscores.
pub open spec fn is_username(s: Seq<char>) -> bool {
    &&& 3 <= s.len() <= 25
    &&& is_ascii_lower(s[0])
    &&& forall|i: int| 1 <= i < s.len() ==> is_username_char(#[trigger] s[i])
}

/// `regex::Regex::new` on `pattern`, then `Regex::is_match` on `haystack`;
/// a pattern that does not compile matches nothing. Of the two patterns that
/// the library uses the contract says what they match: both are anchored at
/// the beginning and at the end of the haystack, the first is one character or
/// more of the class `[a-zA-Z0-9]`, the second one character of `[a-z]`
/// followed by 2 to 24 of `[a-z0-9_]`.
#[verifier::external_body]
fn regex_is_match(pattern: &str, haystack: &str) -> (matched: bool)
    ensures
        pattern@ == "^[a-zA-Z0-9]+$"@ ==> matched == is_command_name(haystack@),
        pattern@ == "^[a-z][a-z0-9_]{2,24}$"@ ==> matched == is_username(haystack@),
{
    match regex::Regex::new(pattern) {
        Ok(re) => re.is_match(haystack),
        Err(_) => false,
    }
}

/// Whether `name` may be the name of a custom command.
pub fn is_valid_command_name(name: &str) -> (r: bool)
    ensures
        r == is_command_name(name@),
{
    regex_is_match("^[a-zA-Z0-9]+$", name)
}

/// Whether `name` may be a username.
pub fn is_valid_username(name: &str) -> (r: bool)
    ensures
        r == is_username(name@),
{
    regex_is_match("^[a-z][a-z0-9_]{2,24}$", name)
}

} // verus!

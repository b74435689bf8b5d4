//! Checks on the text of incoming payloads.
use vstd::prelude::*;

verus! {

/// The pattern that a project key must match: capital letters and digits.
pub const KEY_PATTERN: &'static str = "^[A-Z0-9]+$";

/// Whether the regular expression `pattern` compiles and finds a match in
/// `text`.
pub uninterp spec fn regex_accepts(pattern: Seq<char>, text: Seq<char>) -> bool;

/// Whether `text` is an e-mail address in the sense of the HTML5 form rules.
pub uninterp spec fn email_is_valid(text: Seq<char>) -> bool;

/// Text made of one or more capital letters `A`-`Z` and digits `0`-`9`.
pub open spec fn is_key_text(text: Seq<char>) -> bool {
    text.len() > 0 && forall|i: int|
        0 <= i < text.len() ==> ('A' <= #[trigger] text[i] && text[i] <= 'Z') || ('0' <= text[i]
            && text[i] <= '9')
}

/// Relies on regex's `Regex::new` and `Regex::is_match`: the pattern is
/// compiled and searched for in `text`; a pattern that does not compile
/// matches nothing. The key pattern, anchored at both ends (`$` matches only
/// at the end of the text), accepts exactly the key texts.
#[verifier::external_body]
fn regex_match(pattern: &str, text: &str) -> (r: bool)
    ensures
        r == regex_accepts(pattern@, text@),
        pattern@ == KEY_PATTERN@ ==> r == is_key_text(text@),
{
    match regex::Regex::new(pattern) {
        Ok(re) => re.is_match(text),
        Err(_) => false,
    }
}

/// Relies on validator's `ValidateEmail::validate_email` for `&str`: an empty
/// text, or one without `@`, is refused before any other rule.
#[verifier::external_body]
fn email_check(text: &str) -> (r: bool)
    ensures
        r == email_is_valid(text@),
        text@.len() == 0 ==> !r,
        !text@.contains('@') ==> !r,
{
    validator::ValidateEmail::validate_email(&text)
}

/// The number of characters of `s`.
pub fn char_count(s: &str) -> (r: usize)
    ensures
        r == s@.len(),
{
    s.unicode_len()
}

/// Whether `key` is made of capital letters and digits only.
pub fn key_matches_pattern(key: &str) -> (r: bool)
    ensures
        r == regex_accepts(KEY_PATTERN@, key@),
        r == is_key_text(key@),
{
    regex_match(KEY_PATTERN, key)
}

/// Whether `email` is a valid e-mail address.
pub fn is_valid_email(email: &str) -> (r: bool)
    ensures
        r == email_is_valid(email@),
        email@.len() == 0 ==> !r,
        !email@.contains('@') ==> !r,
{
    email_check(email)
}

} // verus!

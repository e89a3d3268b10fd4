//! Regular expressions, as the `regex` crate matches them.

use vstd::prelude::*;

verus! {

/// Whether the regular expression `pattern` matches somewhere in `text`;
/// nothing where `pattern` is no regular expression.
pub uninterp spec fn regex_match(pattern: Seq<char>, text: Seq<char>) -> Option<bool>;

/// What the group `group` of the regular expression `pattern` holds in the
/// leftmost match in `text`; nothing where `pattern` is no regular
/// expression, where it does not match, or where the group took no part in
/// the match.
pub uninterp spec fn regex_group(pattern: Seq<char>, group: Seq<char>, text: Seq<char>) -> Option<
    Seq<char>,
>;

/// `Regex::new` compiles the pattern or refuses it, and `Regex::is_match`
/// says whether the compiled pattern matches somewhere in the text. Both
/// depend on the pattern and the text alone.
#[verifier::external_body]
pub(crate) fn is_match(pattern: &str, text: &str) -> (r: Option<bool>)
    ensures
        r == regex_match(pattern@, text@),
{
    match regex::Regex::new(pattern) {
        Ok(re) => Some(re.is_match(text)),
        Err(_) => None,
    }
}

/// `Regex::new` compiles the pattern or refuses it, `Regex::captures` finds
/// the leftmost match in the text, and `Captures::name` yields what a named
/// group of it holds. All depend on the pattern, the name and the text alone.
#[verifier::external_body]
pub(crate) fn group(pattern: &str, name: &str, text: &str) -> (r: Option<String>)
    ensures
        match r {
            Some(s) => regex_group(pattern@, name@, text@) == Some(s@),
            None => regex_group(pattern@, name@, text@) is None,
        },
{
    match regex::Regex::new(pattern) {
        Ok(re) => match re.captures(text) {
            Some(found) => match found.name(name) {
                Some(m) => Some(m.as_str().to_string()),
                None => None,
            },
            None => None,
        },
        Err(_) => None,
    }
}

} // verus!

//! Matching text against regular expressions.

use crate::framework::report::opt_text;
use vstd::prelude::*;

verus! {

/// The text of capture group `group` in the leftmost match of the regular
/// expression `pattern` in `text`, as the `regex` crate finds it; `None`
/// where the pattern is invalid, there is no match, or the group took no part.
pub uninterp spec fn regex_group_of(pattern: Seq<char>, text: Seq<char>, group: nat) -> Option<
    Seq<char>,
>;

/// `regex::Regex::new`, `Regex::captures` and `Captures::get`: the text of a
/// capture group in the leftmost match of `pattern` in `text`, a function of
/// pattern, text and group alone.
#[verifier::external_body]
fn regex_group(pattern: &str, text: &str, group: usize) -> (r: Option<String>)
    ensures
        opt_text(r) == regex_group_of(pattern@, text@, group as nat),
{
    match regex::Regex::new(pattern) {
        Ok(re) => re.captures(text).and_then(|c| c.get(group)).map(|m| m.as_str().to_string()),
        Err(_) => None,
    }
}

/// The text of capture group `group` in the leftmost match of `pattern` in `text`.
pub fn capture(pattern: &str, text: &str, group: usize) -> (r: Option<String>)
    ensures
        opt_text(r) == regex_group_of(pattern@, text@, group as nat),
{
    regex_group(pattern, text, group)
}

} // verus!

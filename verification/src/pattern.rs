//! Pattern matching on text, done by the `regex` crate.

use vstd::prelude::*;
use crate::seqs::view_of;

verus! {

/// What the first capture group of `pattern` matched in the leftmost match of
/// `pattern` in `text`. There is none where `pattern` is no valid regular
/// expression, where it matches nowhere in `text`, or where the match was made
/// without its first group.
pub uninterp spec fn first_group(pattern: Seq<char>, text: Seq<char>) -> Option<Seq<char>>;

/// Compiles `pattern` with `regex::Regex::new`, searches `text` with
/// `Regex::captures` and copies out what `Captures::get(1)` holds. The search
/// depends on the two texts alone; the contract gives its outcome the name
/// [`first_group`] and claims nothing else.
#[verifier::external_body]
pub(crate) fn capture(pattern: &str, text: &str) -> (r: Option<String>)
    ensures
        view_of(r) == first_group(pattern@, text@),
{
    let re = regex::Regex::new(pattern).ok()?;
    re.captures(text)?.get(1).map(|m| m.as_str().to_string())
}

} // verus!

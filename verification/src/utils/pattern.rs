use vstd::prelude::*;

verus! {

/// Whether a text is accepted as a regular expression.
pub uninterp spec fn regex_compiles(pattern: Seq<char>) -> bool;

/// Whether a regular expression matches somewhere in a text.
pub uninterp spec fn regex_matches(pattern: Seq<char>, text: Seq<char>) -> bool;

/// Searches `text` for a match of `pattern`.
///
/// Calls `regex::Regex::new` and, on the expression it gives,
/// `regex::Regex::is_match`. `None` says that the pattern was not accepted.
/// Both depend on their arguments alone.
#[verifier::external_body]
pub(crate) fn search(pattern: &str, text: &str) -> (found: Option<bool>)
    ensures
        found is Some == regex_compiles(pattern@),
        found matches Some(matched) ==> matched == regex_matches(pattern@, text@),
{
    match regex::Regex::new(pattern) {
        Ok(expression) => Some(expression.is_match(text)),
        Err(_) => None,
    }
}

} // verus!

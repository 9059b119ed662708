use vstd::prelude::*;

verus! {

/// Whether a character has the Unicode property `Uppercase`.
pub uninterp spec fn is_uppercase(c: char) -> bool;

/// Whether a character has the Unicode property `Lowercase`.
pub uninterp spec fn is_lowercase(c: char) -> bool;

/// Whether a character is in one of the Unicode general categories for
/// numbers.
pub uninterp spec fn is_numeric(c: char) -> bool;

/// Whether a character is alphabetic or numeric in Unicode's sense.
pub uninterp spec fn is_alphanumeric(c: char) -> bool;

/// Whether a character has the Unicode property `White_Space`.
pub uninterp spec fn is_whitespace(c: char) -> bool;

/// Calls `char::is_uppercase`, which depends on the character alone.
#[verifier::external_body]
pub(crate) fn char_is_uppercase(c: char) -> (answer: bool)
    ensures
        answer == is_uppercase(c),
{
    c.is_uppercase()
}

/// Calls `char::is_lowercase`, which depends on the character alone.
#[verifier::external_body]
pub(crate) fn char_is_lowercase(c: char) -> (answer: bool)
    ensures
        answer == is_lowercase(c),
{
    c.is_lowercase()
}

/// Calls `char::is_numeric`, which depends on the character alone.
#[verifier::external_body]
pub(crate) fn char_is_numeric(c: char) -> (answer: bool)
    ensures
        answer == is_numeric(c),
{
    c.is_numeric()
}

/// Calls `char::is_alphanumeric`, which depends on the character alone.
#[verifier::external_body]
pub(crate) fn char_is_alphanumeric(c: char) -> (answer: bool)
    ensures
        answer == is_alphanumeric(c),
{
    c.is_alphanumeric()
}

/// Calls `char::is_whitespace`, which depends on the character alone.
#[verifier::external_body]
pub(crate) fn char_is_whitespace(c: char) -> (answer: bool)
    ensures
        answer == is_whitespace(c),
{
    c.is_whitespace()
}

} // verus!

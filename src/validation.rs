use vstd::prelude::*;

verus! {

/// Whether a text is an email address as the HTML form rules define it.
pub uninterp spec fn email_is_valid(s: Seq<char>) -> bool;

/// Relies on validator's `ValidateEmail::validate_email` for `&str`: the
/// HTML5 email rule; an accepted address is not empty and holds an `@`.
#[verifier::external_body]
pub(crate) fn validate_email(s: &str) -> (r: bool)
    ensures
        r == email_is_valid(s@),
        r ==> s@.len() > 0 && s@.contains('@'),
{
    validator::ValidateEmail::validate_email(&s)
}

/// Relies on validator's `ValidateLength::validate_length` for `String` with
/// only a minimum: true when the text has at least `min` characters.
#[verifier::external_body]
pub(crate) fn validate_min_length(s: &String, min: u64) -> (r: bool)
    ensures
        r == (s@.len() >= min),
{
    validator::ValidateLength::<u64>::validate_length(s, Some(min), None, None)
}

} // verus!

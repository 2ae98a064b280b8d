use vstd::prelude::*;

verus! {

/// What `str::trim` leaves of a text.
pub uninterp spec fn trimmed(text: Seq<char>) -> Seq<char>;

/// The text without the white space at its two ends.
///
/// Calls `str::trim`, which returns the part of the text between its first
/// and its last character that are not white space as Unicode defines it.
/// The contract says no more than that the result is a function of the text.
#[verifier::external_body]
pub(crate) fn trim(text: &str) -> (inner: &str)
    ensures
        inner@ == trimmed(text@),
{
    text.trim()
}

} // verus!

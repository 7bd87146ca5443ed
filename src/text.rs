use vstd::prelude::*;

verus! {

/// What `str::trim` leaves of a string: it strips leading and trailing
/// Unicode white space.
pub uninterp spec fn trimmed(s: Seq<char>) -> Seq<char>;

/// The part of `s` before its first `.`, or all of `s` when it has none.
pub open spec fn before_dot(s: Seq<char>) -> Seq<char>
    decreases s.len(),
{
    if s.len() == 0 || s[0] == '.' {
        Seq::empty()
    } else {
        seq![s[0]] + before_dot(s.drop_first())
    }
}

/// Relies on `str::trim`: the result depends on the characters alone.
#[verifier::external_body]
pub(crate) fn trim(s: &str) -> (r: String)
    ensures
        r@ == trimmed(s@),
{
    s.trim().to_string()
}

/// Relies on `str::split('.')`: its first piece is the text before the first
/// dot, or the whole text when there is none.
#[verifier::external_body]
pub(crate) fn first_dot_piece(s: &str) -> (r: String)
    ensures
        r@ == before_dot(s@),
{
    s.split('.').next().unwrap_or_default().to_string()
}

/// Whether `s` reads exactly `word`.
pub(crate) fn is_word(s: &str, word: &str) -> (r: bool)
    ensures
        r == (s@ == word@),
{
    s.to_owned() == word.to_owned()
}

} // verus!

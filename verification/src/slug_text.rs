//! The slug transformation, delegated to the `slug` crate.

use vstd::prelude::*;

use crate::text::is_slug_char;

verus! {

/// The slug of a text: what `slug::slugify` returns for it. The result is a
/// function of the input characters alone.
pub uninterp spec fn slug_of(s: Seq<char>) -> Seq<char>;

/// Relies on `slug::slugify`: the result depends only on the input text, every
/// character of it is an ASCII lowercase letter, a digit or `'-'`, and an
/// empty input gives an empty slug.
#[verifier::external_body]
pub(crate) fn slugify_str(s: &str) -> (r: String)
    ensures
        r@ == slug_of(s@),
        forall|i: int| 0 <= i < r@.len() ==> is_slug_char(#[trigger] r@[i]),
        s@.len() == 0 ==> r@.len() == 0,
{
    slug::slugify(s)
}

} // verus!

//! Slugs: the form of a name that stands in a URL.

use vstd::prelude::*;

verus! {

/// The slug of a text: lower-case ASCII letters and digits, with single
/// hyphens where anything else stood.
pub uninterp spec fn slug_of(text: Seq<char>) -> Seq<char>;

/// `slug::slugify`. Which ASCII letters stand for a character of another
/// script is the crate's own table, so the result is only named.
#[verifier::external_body]
pub(crate) fn slugify(text: &str) -> (r: String)
    ensures
        r@ == slug_of(text@),
{
    slug::slugify(text)
}

} // verus!

//! Identifiers: 128-bit values, written and read as UUID strings.

use vstd::prelude::*;

verus! {

/// The hyphenated text of an identifier, as `Uuid`'s `Display` writes it.
pub uninterp spec fn uuid_text(id: u128) -> Seq<char>;

/// The identifier that `Uuid::parse_str` reads from a text, if it reads one.
pub uninterp spec fn uuid_parse(s: Seq<char>) -> Option<u128>;

/// `Uuid::from_u128(id).to_string()`. The text is named; parsing the text
/// gives the identifier back, since `parse_str` accepts the hyphenated form.
#[verifier::external_body]
pub(crate) fn uuid_to_string(id: u128) -> (r: String)
    ensures
        r@ == uuid_text(id),
        uuid_parse(r@) == Some(id),
{
    uuid::Uuid::from_u128(id).to_string()
}

/// `Uuid::parse_str`, with the identifier as a 128-bit value.
#[verifier::external_body]
pub(crate) fn uuid_parse_str(s: &str) -> (r: Option<u128>)
    ensures
        r == uuid_parse(s@),
{
    match uuid::Uuid::parse_str(s) {
        Ok(u) => Some(u.as_u128()),
        Err(_) => None,
    }
}

/// `Uuid::new_v4()`: a random identifier. Nothing is claimed of the value.
#[verifier::external_body]
pub(crate) fn uuid_new_v4() -> u128 {
    uuid::Uuid::new_v4().as_u128()
}

} // verus!

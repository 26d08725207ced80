//! The textual form of record identifiers.
//!
//! An identifier is an opaque 128-bit token.  On the wire and in the
//! relational table it travels as text; this module carries it between
//! the two forms and fixes the one fact the rest of the crate needs:
//! the emitted text parses back to the same token.

use vstd::prelude::*;

use crate::errors::StoreError;

verus! {

/// The canonical text of identifier `id`: the hyphenated lowercase
/// hexadecimal form.
pub uninterp spec fn id_text_of(id: u128) -> Seq<char>;

/// What parsing identifier text yields: the 128-bit token, or nothing
/// when the text is in no accepted form.
pub uninterp spec fn parsed_id_of(s: Seq<char>) -> Option<u128>;

/// Relies on `uuid::Uuid`'s display form (hyphenated lowercase
/// hexadecimal, a pure function of the 128 bits) reached through
/// `ToString`; `Uuid::from_u128` only converts the argument.  The
/// parser of the same crate accepts that form, so the emitted text
/// parses back to the same token.
#[verifier::external_body]
pub(crate) fn id_to_text(id: u128) -> (r: String)
    ensures
        r@ == id_text_of(id),
        parsed_id_of(r@) == Some(id),
{
    uuid::Uuid::from_u128(id).to_string()
}

/// Relies on `uuid::Uuid::parse_str`, a pure function of the text
/// that accepts the crate's hexadecimal forms and nothing else;
/// `Uuid::as_u128` only converts the result.
#[verifier::external_body]
pub(crate) fn text_to_id(s: &str) -> (r: Option<u128>)
    ensures
        r == parsed_id_of(s@),
{
    match uuid::Uuid::parse_str(s) {
        Ok(u) => Some(u.as_u128()),
        Err(_) => None,
    }
}

/// Parses the textual form of an identifier; text in no accepted form
/// is rejected as `InvalidInput`.
pub fn parse_id(s: &str) -> (r: Result<u128, StoreError>)
    ensures
        r == match parsed_id_of(s@) {
            Some(v) => Result::<u128, StoreError>::Ok(v),
            None => Err(StoreError::InvalidInput),
        },
{
    match text_to_id(s) {
        Some(v) => Ok(v),
        None => Err(StoreError::InvalidInput),
    }
}

/// Renders an identifier in its canonical text, which [`parse_id`]
/// accepts back.
pub fn id_text(id: u128) -> (r: String)
    ensures
        r@ == id_text_of(id),
        parsed_id_of(r@) == Some(id),
{
    id_to_text(id)
}

} // verus!

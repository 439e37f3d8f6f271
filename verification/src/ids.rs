//! User identifiers: 128-bit values and their textual form.

use vstd::prelude::*;

verus! {

/// The text `uuid::Uuid` prints for the identifier with the given 128-bit value.
pub uninterp spec fn uuid_text(id: u128) -> Seq<char>;

/// The 128-bit value `uuid::Uuid::parse_str` reads from `text`, or `None` where
/// it rejects the text.
pub uninterp spec fn uuid_parse(text: Seq<char>) -> Option<u128>;

/// Prints an identifier with `uuid::Uuid::from_u128` and the type's `Display`.
/// The contract names the text, and records that `parse_str` reads the printed
/// form back to the same value, as the crate documents of every format it prints.
#[verifier::external_body]
pub(crate) fn format_id(id: u128) -> (text: String)
    ensures
        text@ == uuid_text(id),
        uuid_parse(text@) == Some(id),
{
    uuid::Uuid::from_u128(id).to_string()
}

/// Reads an identifier with `uuid::Uuid::parse_str` and `Uuid::as_u128`.
/// The contract names the outcome.
#[verifier::external_body]
pub(crate) fn parse_id(text: &str) -> (id: Option<u128>)
    ensures
        id == uuid_parse(text@),
{
    match uuid::Uuid::parse_str(text) {
        Ok(parsed) => Some(parsed.as_u128()),
        Err(_) => None,
    }
}

/// Draws a random identifier with `uuid::Uuid::new_v4`. Nothing is claimed of
/// the value.
#[verifier::external_body]
pub(crate) fn fresh_id() -> u128 {
    uuid::Uuid::new_v4().as_u128()
}

} // verus!

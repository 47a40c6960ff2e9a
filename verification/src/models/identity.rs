//! Job identifiers: 128-bit values whose textual form is that of a UUID.

use vstd::prelude::*;

verus! {

/// The identifier that `uuid::Uuid::parse_str` reads from a text, if it
/// reads one.
pub uninterp spec fn uuid_parse(text: Seq<char>) -> Option<u128>;

/// The text that `uuid::Uuid`'s `Display` writes for an identifier.
pub uninterp spec fn uuid_text(id: u128) -> Seq<char>;

/// Calls `uuid::Uuid::new_v4` and hands the random identifier out as its
/// 128-bit value. Nothing is claimed of that value.
#[verifier::external_body]
pub(crate) fn random_id() -> u128 {
    uuid::Uuid::new_v4().as_u128()
}

/// Calls `uuid::Uuid::parse_str`. A parse error becomes `None`; a parsed
/// identifier is handed out as its 128-bit value. The result depends on the
/// text alone, which is all the contract claims.
#[verifier::external_body]
pub(crate) fn parse_id(text: &str) -> (id: Option<u128>)
    ensures
        id == uuid_parse(text@),
{
    match uuid::Uuid::parse_str(text) {
        Ok(parsed) => Some(parsed.as_u128()),
        Err(_) => None,
    }
}

/// Calls `to_string` on the `uuid::Uuid` of the given value, which writes
/// the hyphenated lower-case form. The contract names that text and claims
/// what the crate documents of its parser: it reads every form that the
/// crate writes, so the text parses back to the same identifier.
#[verifier::external_body]
pub(crate) fn id_text(id: u128) -> (text: String)
    ensures
        text@ == uuid_text(id),
        uuid_parse(text@) == Some(id),
{
    uuid::Uuid::from_u128(id).to_string()
}

} // verus!

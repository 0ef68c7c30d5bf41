//! Identifiers as they arrive in a request: text to be read as a UUID.

use vstd::prelude::*;

verus! {

/// What `uuid::Uuid::parse_str` makes of a text: the 128 bits of the
/// identifier, most significant byte first, or `None` where the text is not
/// a UUID in any of the forms that the parser accepts.
pub uninterp spec fn parsed_uuid(text: Seq<char>) -> Option<u128>;

/// Reads `text` as a UUID by `uuid::Uuid::parse_str`, and packs the 16 bytes
/// into an integer by `uuid::Uuid::as_u128`. The parser looks at the text
/// alone, so the same text always gives the same answer; that answer is not
/// spelled out here but named [`parsed_uuid`]. Nothing is proved of it.
#[verifier::external_body]
pub(crate) fn parse_uuid(text: &str) -> (id: Option<u128>)
    ensures
        id == parsed_uuid(text@),
{
    match uuid::Uuid::parse_str(text) {
        Ok(id) => Some(id.as_u128()),
        Err(_) => None,
    }
}

} // verus!

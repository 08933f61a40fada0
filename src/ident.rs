use vstd::prelude::*;

use crate::product::ProductId;

verus! {

/// The 128-bit value that a text spells as a UUID, or `None` where the text
/// is no UUID.
pub uninterp spec fn uuid_value_of(text: Seq<char>) -> Option<u128>;

/// Relies on uuid::Uuid::try_parse, read through Uuid::as_u128: the value
/// depends on the text alone, and an empty text is no UUID.
#[verifier::external_body]
fn parse_uuid(text: &str) -> (r: Option<u128>)
    ensures
        r == uuid_value_of(text@),
        text@.len() == 0 ==> r is None,
{
    match uuid::Uuid::try_parse(text) {
        Ok(u) => Some(u.as_u128()),
        Err(_) => None,
    }
}

/// Relies on uuid::Uuid::new_v4, read through Uuid::as_u128: a random value
/// whose version field (bits 76 to 79) is 4.
#[verifier::external_body]
fn random_uuid() -> (r: u128)
    ensures
        (r >> 76u128) & 0xfu128 == 4,
{
    uuid::Uuid::new_v4().as_u128()
}

/// The identifier that `text` spells in one of the textual forms of a UUID
/// (hyphenated, simple, braced or URN), or `None` where it spells none.
pub fn parse_product_id(text: &str) -> (r: Option<ProductId>)
    ensures
        match uuid_value_of(text@) {
            Some(v) => r == Some(ProductId { value: v }),
            None => r is None,
        },
{
    match parse_uuid(text) {
        Some(v) => Some(ProductId { value: v }),
        None => None,
    }
}

impl ProductId {
    /// A fresh random identifier (a version-4 UUID).
    pub fn random() -> (r: ProductId)
        ensures
            (r.value >> 76u128) & 0xfu128 == 4,
    {
        ProductId { value: random_uuid() }
    }
}

} // verus!

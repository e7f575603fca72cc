//! Identifiers. An identity id is an opaque 128-bit value; its canonical
//! text form (the hyphenated lower-case rendering) comes from the uuid
//! crate behind trusted wrappers, and fresh ids are random.
use vstd::prelude::*;

verus! {

/// The canonical hyphenated lower-case text form of a 128-bit identifier.
/// Names the result of uuid's `Uuid::to_string` on `Uuid::from_u128(id)`,
/// a function of the id alone.
pub uninterp spec fn uuid_text_of(id: u128) -> Seq<char>;

/// Relies on uuid's `Uuid::to_string`: the canonical hyphenated lower-case
/// form, 36 characters long.
#[verifier::external_body]
pub fn uuid_text(id: u128) -> (r: String)
    ensures
        r@ == uuid_text_of(id),
        r@.len() == 36,
{
    uuid::Uuid::from_u128(id).to_string()
}

/// The id a piece of text parses to, if any. Names the result of uuid's
/// `Uuid::parse_str` (projected through `as_u128`), a function of the text
/// alone. `parse_str` accepts a few layouts beyond the canonical one, so
/// this is not the inverse of [`uuid_text_of`] alone; the one fact stated
/// of it is that the canonical text of an id parses back to that id.
pub uninterp spec fn uuid_value_of(s: Seq<char>) -> Option<u128>;

/// Relies on uuid's `Uuid::parse_str` and `Uuid::as_u128`: a string in the
/// canonical hyphenated form parses back to exactly the id it renders.
#[verifier::external_body]
pub fn parse_uuid_text(s: &str) -> (r: Option<u128>)
    ensures
        r == uuid_value_of(s@),
        forall|id: u128| s@ == uuid_text_of(id) ==> r == Some(id),
{
    match uuid::Uuid::parse_str(s) {
        Ok(u) => Some(u.as_u128()),
        Err(_) => None,
    }
}

/// Relies on uuid's `Uuid::new_v4`: a fresh random identifier. Nothing is
/// assumed of the value; uniqueness is probabilistic only.
#[verifier::external_body]
pub fn fresh_uuid() -> u128 {
    uuid::Uuid::new_v4().as_u128()
}

} // verus!

use uuid::Uuid;
use vstd::prelude::*;

verus! {

/// The hyphenated, lower-case text of the UUID whose 128 bits are `id`.
pub uninterp spec fn uuid_hyphenated(id: u128) -> Seq<char>;

/// Calls `Uuid::new_v4` and hands out the bits of the random UUID it made. Nothing is
/// claimed of them: two calls may well return the same value.
#[verifier::external_body]
pub(crate) fn new_uuid() -> (id: u128) {
    Uuid::new_v4().as_u128()
}

/// Formats a UUID as `Uuid`'s `Display` does, which is the text that `uuid_hyphenated`
/// names.
#[verifier::external_body]
pub(crate) fn uuid_text(id: u128) -> (text: String)
    ensures
        text@ == uuid_hyphenated(id),
{
    Uuid::from_u128(id).to_string()
}

/// A new identifier for a poll or an option: the text of a random UUID.
pub fn fresh_id() -> (id: String)
    ensures
        exists|bits: u128| id@ == uuid_hyphenated(bits),
{
    let bits = new_uuid();
    uuid_text(bits)
}

} // verus!

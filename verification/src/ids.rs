use vstd::prelude::*;

verus! {

/// What `uuid::Uuid::from_u128` followed by its text form produces: named
/// only, a function of the 128-bit value alone.
pub uninterp spec fn uuid_str_of(id: u128) -> Seq<char>;

/// Relies on `uuid::Uuid::from_u128` and `uuid::Uuid`'s `Display`: the
/// hyphenated text form is a function of the value alone and is 36
/// characters long.
#[verifier::external_body]
pub(crate) fn uuid_string(id: u128) -> (r: String)
    ensures
        r@ == uuid_str_of(id),
        r@.len() == 36,
{
    uuid::Uuid::from_u128(id).to_string()
}

/// A fresh random 128-bit identifier.  Nothing is promised of the value;
/// callers that need freshness check it against the store and report a
/// collision instead of assuming one cannot happen.
pub fn random_id() -> u128 {
    rand::random()
}

} // verus!

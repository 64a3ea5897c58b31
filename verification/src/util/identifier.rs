//! Identifiers of tokens and secrets: random UUIDs, held as their 128-bit numbers.
use vstd::prelude::*;

verus! {

/// Whether `id` carries the version and variant marks of a random UUID: the version
/// digit is 4, and the two highest bits of the variant digit are `10`.
pub open spec fn is_random_uuid(id: u128) -> bool {
    id & 0x0000_0000_0000_F000_C000_0000_0000_0000u128
        == 0x0000_0000_0000_4000_8000_0000_0000_0000u128
}

/// `uuid::Uuid::new_v4`, read as a number with `Uuid::as_u128`.
///
/// The identifier is drawn at random, so two calls need not agree. All that is claimed
/// of it are the version and variant marks, which `new_v4` sets in every identifier that
/// it returns.
#[verifier::external_body]
pub(crate) fn new_v4() -> (id: u128)
    ensures
        is_random_uuid(id),
{
    uuid::Uuid::new_v4().as_u128()
}

} // verus!

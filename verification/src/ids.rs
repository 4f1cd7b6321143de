//! Note identifiers. A note's identity is a version-7 UUID generated at
//! construction; the crate never looks inside the value, it only carries it.

use vstd::prelude::*;

verus! {

/// `uuid::Uuid`, declared so that it can stand in signatures and fields.
/// The crate treats the value as opaque.
#[verifier::external_type_specification]
#[verifier::external_body]
pub struct ExUuid(uuid::Uuid);

/// Relies on `uuid::Uuid::now_v7`: a fresh time-ordered identifier drawn
/// from the current instant and random bits. Nothing can be promised of
/// the value itself.
#[verifier::external_body]
pub fn fresh_note_id() -> uuid::Uuid {
    uuid::Uuid::now_v7()
}

} // verus!

//! Identifiers of matches, planes and users.
//!
//! An identifier is a 128-bit value. The three domains share that
//! representation but are distinct types, so that an identifier of one
//! domain cannot stand where another is expected.

use vstd::prelude::*;

verus! {

/// The bits of an identifier value that hold the version and the variant
/// of a universally unique identifier.
pub const VERSION_VARIANT_MASK: u128 = 0x0000_0000_0000_f000_c000_0000_0000_0000;

/// Version 4 (random) and the RFC 4122 variant, at the place of the mask.
pub const RANDOM_VERSION_VARIANT: u128 = 0x0000_0000_0000_4000_8000_0000_0000_0000;

/// Whether `value` is marked as a randomly generated universally unique
/// identifier: version 4, RFC 4122 variant.
pub open spec fn is_random_uuid(value: u128) -> bool {
    value & VERSION_VARIANT_MASK == RANDOM_VERSION_VARIANT
}

/// Draws an identifier value with `uuid::Uuid::new_v4` and reads it with
/// `Uuid::as_u128`.
///
/// Trusted: the value carries version 4 and the RFC 4122 variant, which
/// `new_v4` sets on every value it returns. Nothing is claimed of the other
/// 122 bits, which come from the operating system's random source; in
/// particular two calls are not promised to differ. `new_v4` aborts when
/// that source cannot be read.
#[verifier::external_body]
pub(crate) fn random_uuid_value() -> (value: u128)
    ensures
        is_random_uuid(value),
{
    uuid::Uuid::new_v4().as_u128()
}

/// Names one match.
#[derive(Clone, Copy, Debug, PartialEq, Eq, Hash, Structural)]
pub struct MatchId {
    pub value: u128,
}

/// Names one plane.
#[derive(Clone, Copy, Debug, PartialEq, Eq, Hash, Structural)]
pub struct PlaneId {
    pub value: u128,
}

/// Names one user.
#[derive(Clone, Copy, Debug, PartialEq, Eq, Hash, Structural)]
pub struct UserId {
    pub value: u128,
}

impl MatchId {
    /// A freshly drawn match identifier.
    pub fn generate() -> (id: MatchId)
        ensures
            is_random_uuid(id.value),
    {
        MatchId { value: random_uuid_value() }
    }
}

impl PlaneId {
    /// A freshly drawn plane identifier.
    pub fn generate() -> (id: PlaneId)
        ensures
            is_random_uuid(id.value),
    {
        PlaneId { value: random_uuid_value() }
    }
}

impl UserId {
    /// A freshly drawn user identifier.
    pub fn generate() -> (id: UserId)
        ensures
            is_random_uuid(id.value),
    {
        UserId { value: random_uuid_value() }
    }
}

} // verus!

//! Identifiers of stored subscribers.
//!
//! An identifier is a version 4 UUID, held as the 128-bit number that its
//! sixteen bytes spell in big-endian order. The random bits come from the
//! `uuid` crate; this module is the boundary to it.

use vstd::prelude::*;

verus! {

/// The bits of a UUID that hold its version and its variant.
pub const VERSION_AND_VARIANT_BITS: u128 = 0x0000_0000_0000_f000_c000_0000_0000_0000;

/// Those bits in a random (version 4) UUID of the RFC 4122 variant.
pub const RANDOM_RFC4122: u128 = 0x0000_0000_0000_4000_8000_0000_0000_0000;

/// `id` is a version 4 UUID of the RFC 4122 variant: a number that
/// `Uuid::new_v4` can return.
pub open spec fn is_random_uuid(id: u128) -> bool {
    id & VERSION_AND_VARIANT_BITS == RANDOM_RFC4122
}

/// Calls `uuid::Uuid::new_v4` and hands the identifier back as a number
/// (`Uuid::as_u128`).
///
/// Trusted: the version and variant bits are those of a random UUID. The
/// other 122 bits come from the operating system's random number generator;
/// nothing is stated of them, so two calls may or may not differ.
#[verifier::external_body]
pub(crate) fn new_v4() -> (id: u128)
    ensures
        is_random_uuid(id),
{
    uuid::Uuid::new_v4().as_u128()
}

} // verus!

//! Commit identifiers.
//!
//! A commit is named by a [`uuid::Uuid`]. To the proofs such a value is opaque:
//! it is carried from the action to the snapshot. Only a freshly made one is
//! described, by the 128 bits it was built from.

use uuid::Uuid;
use vstd::prelude::*;

verus! {

/// The identifier type of the `uuid` crate, carried through as an opaque value.
#[verifier::external_type_specification]
#[verifier::external_body]
pub struct ExUuid(uuid::Uuid);

/// The identifier that `uuid::Uuid::from_u128` builds from 128 bits.
pub uninterp spec fn uuid_from_bits(bits: u128) -> Uuid;

/// `uuid::Uuid::from_u128` depends on its argument alone; what it builds is
/// called [`uuid_from_bits`].
pub assume_specification[ uuid::Uuid::from_u128 ](v: u128) -> (id: Uuid)
    ensures
        id == uuid_from_bits(v),
;

/// The version field (the four bits from bit 76 up) holds 7 and the variant
/// field (the two bits from bit 62 up) holds binary 10, as in RFC 9562.
pub open spec fn is_version_7(bits: u128) -> bool {
    &&& (bits >> 76) & 0xf == 7
    &&& (bits >> 62) & 0x3 == 2
}

/// An identifier built from the bits of a version 7 UUID.
pub open spec fn is_time_ordered(id: Uuid) -> bool {
    exists|bits: u128| is_version_7(bits) && id == #[trigger] uuid_from_bits(bits)
}

/// Calls `uuid::Uuid::now_v7` and reads the result's 128 bits with `as_u128`.
///
/// The bits come from the clock and from random data, so two calls differ. Of
/// every outcome it is claimed that the version and variant fields are those of
/// a version 7 UUID. Nothing is claimed of the other bits. The call panics if
/// the system clock stands before 1970 or no random data can be had.
#[verifier::external_body]
fn now_v7_bits() -> (bits: u128)
    ensures
        is_version_7(bits),
{
    Uuid::now_v7().as_u128()
}

/// Makes an identifier for a commit that was given none.
pub fn fresh_commit_uuid() -> (id: Uuid)
    ensures
        is_time_ordered(id),
{
    Uuid::from_u128(now_v7_bits())
}

} // verus!

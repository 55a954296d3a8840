//! Plan and safe-zone identifiers.
use vstd::prelude::*;

verus! {

/// A UUID as one big-endian 128-bit number (byte 0 of the UUID is the most
/// significant byte).
pub type Uuid128 = u128;

/// Whether `id` has the layout of a random UUID: version nibble 4 (bits 76..80)
/// and the RFC 4122 variant `10` (bits 62..64).
pub open spec fn is_v4_uuid(id: u128) -> bool {
    &&& (id >> 76u128) & 0xFu128 == 4u128
    &&& (id >> 62u128) & 0x3u128 == 2u128
}

/// Fresh random UUID from `uuid::Uuid::new_v4`, read with `Uuid::as_u128`.
///
/// Trusted: `uuid::Uuid::new_v4` masks a random 128-bit number with
/// `0xFFFFFFFFFFFF4FFFBFFFFFFFFFFFFFFF` and sets `0x40008000000000000000`, so the
/// version nibble is 4 and the variant bits are `10`; `as_u128` gives that number
/// back. Nothing else is said of it: the rest is random.
#[verifier::external_body]
pub(crate) fn new_uuid() -> (id: Uuid128)
    ensures
        is_v4_uuid(id),
{
    uuid::Uuid::new_v4().as_u128()
}

/// Identifies one plan of a destination session.
#[derive(Clone, Copy, Debug, PartialEq, Eq, Structural)]
pub struct PlanId {
    pub destination_session: Uuid128,
    pub plan_version: u64,
}

/// Identifies one safe zone within a plan.
#[derive(Clone, Copy, Debug, PartialEq, Eq, Structural)]
pub struct SafeZoneId {
    pub plan_id: PlanId,
    pub safe_zone_version: u64,
}

impl PlanId {
    /// The first plan of a new destination session, keyed by a fresh random session id.
    pub fn new_session() -> (id: PlanId)
        ensures
            id.plan_version == 0,
            is_v4_uuid(id.destination_session),
    {
        PlanId { destination_session: new_uuid(), plan_version: 0 }
    }
}

} // verus!

//! Entity metadata: identity and timestamps.

use vstd::prelude::*;

use crate::uid::UuidValue;
use crate::uid::uuid_new_v4;

verus! {

/// The metadata every stored entity starts with: a fresh identifier and
/// its creation and last-update times, in epoch seconds.
#[derive(Debug, Clone, Copy, PartialEq, Eq, Structural)]
pub struct Meta {
    /// The entity's identifier.
    pub id: UuidValue,
    /// When the entity was created.
    pub created_at: u64,
    /// When the entity last changed.
    pub updated_at: u64,
}

/// Relies on `std::time::SystemTime::now`: the wall clock, as seconds
/// since the Unix epoch (zero in the impossible case of a pre-epoch
/// clock).  Nothing is promised of the value.
#[verifier::external_body]
pub fn now_epoch_seconds() -> (r: u64) {
    match std::time::SystemTime::now().duration_since(std::time::UNIX_EPOCH) {
        Ok(d) => d.as_secs(),
        Err(_) => 0,
    }
}

impl Meta {
    /// Fresh metadata: a random identifier and both timestamps set to the
    /// same moment, now.
    pub fn new() -> (r: Meta)
        ensures
            r.created_at == r.updated_at,
    {
        let now = now_epoch_seconds();
        Meta { id: uuid_new_v4(), created_at: now, updated_at: now }
    }
}

impl Default for Meta {
    fn default() -> (r: Meta)
        ensures
            r.created_at == r.updated_at,
    {
        Meta::new()
    }
}

} // verus!

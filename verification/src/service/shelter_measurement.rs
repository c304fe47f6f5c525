//! Occupancy measurements: snapshots of a shelter's room at the moment a
//! signal reported.

use vstd::prelude::*;

use crate::service::context::Context;
use crate::service::shelter::ShelterSpace;
use crate::service::shelter::can_view_shelter;
use crate::service::signal::can_view_signal;
use crate::uid::UuidValue;

verus! {

/// One occupancy measurement: the shelter's capacity and occupancy as they
/// stood when a signal reported.
#[derive(Debug, Clone, Copy, PartialEq, Eq, Structural)]
pub struct ShelterMeasurement {
    /// The measurement's identifier.
    pub id: UuidValue,
    /// When the measurement was taken, in epoch seconds.
    pub created_at: u64,
    /// When the measurement last changed, in epoch seconds.
    pub updated_at: u64,
    /// The measured shelter.
    pub shelter_id: UuidValue,
    /// The signal that reported.
    pub signal_id: UuidValue,
    /// The shelter's capacity at the time.
    pub capacity: ShelterSpace,
    /// The shelter's occupancy at the time.
    pub occupancy: ShelterSpace,
}

/// What a measurement relates: its shelter and its signal.
#[derive(Debug, Clone, Copy, PartialEq, Eq, Structural)]
pub struct ShelterMeasurementRelations {
    /// The measured shelter.
    pub shelter_id: UuidValue,
    /// The signal that reported.
    pub signal_id: UuidValue,
}

/// Fetch one measurement by its identifier.
#[derive(Debug, Clone, Copy, PartialEq, Eq, Structural)]
pub struct GetShelterMeasurementRequest {
    /// The measurement to fetch.
    pub measurement_id: UuidValue,
}

/// List the measurements of one shelter, paginated.
#[derive(Debug, Clone, Copy, PartialEq, Eq, Structural)]
pub struct ListShelterMeasurementsRequest {
    /// The shelter whose measurements to list.
    pub shelter_id: UuidValue,
    /// How many measurements to return at most.
    pub limit: u32,
    /// How many measurements to skip.
    pub offset: u32,
}

/// Whether `context` may view a measurement with the given relations: an
/// internal caller may, and so may anyone who may view its shelter or its
/// signal.  The relations are looked up by the caller.
pub fn can_view_shelter_measurement(
    context: &Context,
    relations: ShelterMeasurementRelations,
) -> (r: bool)
    ensures
        r,
{
    if context.is_internal() {
        return true;
    }
    if can_view_shelter(context, relations.shelter_id) {
        return true;
    }
    can_view_signal(context, relations.signal_id)
}

} // verus!

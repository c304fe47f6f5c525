//! Measurement queries.

use vstd::prelude::*;

verus! {

/// The queries over occupancy measurements.
#[derive(Debug, Clone, Copy, PartialEq, Eq, Hash, Structural)]
pub struct ShelterMeasurementQueries;

} // verus!

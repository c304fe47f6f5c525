//! Geographic coordinates.

use vstd::prelude::*;

verus! {

/// A point on Earth.  The library holds each component in millionths of a
/// degree, so that coordinates are plain integers; a caller that works in
/// fractional degrees converts at the boundary.
#[derive(Debug, Clone, Copy, PartialEq, Eq, Structural)]
pub struct Coordinate {
    /// Longitude, in millionths of a degree.
    pub x: i64,
    /// Latitude, in millionths of a degree.
    pub y: i64,
}

} // verus!

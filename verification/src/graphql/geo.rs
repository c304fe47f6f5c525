//! Coordinates on the wire.

use vstd::prelude::*;

use crate::service::geo::Coordinate as CoordinateRepr;

verus! {

/// A point on Earth, as the API carries it: millionths of a degree in
/// each component, like the service-side value it wraps.
#[derive(Debug, Clone, Copy, PartialEq, Eq, Structural)]
pub struct Coordinate(pub CoordinateRepr);

impl From<CoordinateRepr> for Coordinate {
    fn from(coordinate: CoordinateRepr) -> (r: Coordinate) {
        Coordinate(coordinate)
    }
}

impl vstd::std_specs::convert::FromSpecImpl<CoordinateRepr> for Coordinate {
    open spec fn obeys_from_spec() -> bool {
        true
    }

    open spec fn from_spec(coordinate: CoordinateRepr) -> Coordinate {
        Coordinate(coordinate)
    }
}

impl From<Coordinate> for CoordinateRepr {
    fn from(coordinate: Coordinate) -> (r: CoordinateRepr) {
        coordinate.0
    }
}

impl vstd::std_specs::convert::FromSpecImpl<Coordinate> for CoordinateRepr {
    open spec fn obeys_from_spec() -> bool {
        true
    }

    open spec fn from_spec(coordinate: Coordinate) -> CoordinateRepr {
        coordinate.0
    }
}

} // verus!

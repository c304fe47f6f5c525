//! The root query object.

use vstd::prelude::*;

use crate::graphql::meta::MetaQueries;
use crate::graphql::shelter::ShelterQueries;
use crate::graphql::shelter_measurement::ShelterMeasurementQueries;
use crate::graphql::signal::SignalQueries;
use crate::graphql::user::UserQueries;

verus! {

/// The root query object: every query group the API offers.
#[derive(Debug, Clone, Copy, PartialEq, Eq, Hash, Structural)]
pub struct Query(
    pub MetaQueries,
    pub ShelterQueries,
    pub ShelterMeasurementQueries,
    pub SignalQueries,
    pub UserQueries,
);

impl Query {
    /// The root query object.
    pub fn new() -> (r: Query)
        ensures
            r == (Query(
                MetaQueries,
                ShelterQueries,
                ShelterMeasurementQueries,
                SignalQueries,
                UserQueries,
            )),
    {
        Query(MetaQueries, ShelterQueries, ShelterMeasurementQueries, SignalQueries, UserQueries)
    }
}

impl Default for Query {
    fn default() -> (r: Query)
        ensures
            r == (Query(
                MetaQueries,
                ShelterQueries,
                ShelterMeasurementQueries,
                SignalQueries,
                UserQueries,
            )),
    {
        Query::new()
    }
}

} // verus!

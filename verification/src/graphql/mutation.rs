//! The root mutation object.

use vstd::prelude::*;

use crate::graphql::shelter::ShelterMutations;
use crate::graphql::signal::SignalMutations;
use crate::graphql::user::UserMutations;

verus! {

/// The root mutation object: every mutation group the API offers.
#[derive(Debug, Clone, Copy, PartialEq, Eq, Hash, Structural)]
pub struct Mutation(pub ShelterMutations, pub SignalMutations, pub UserMutations);

impl Mutation {
    /// The root mutation object.
    pub fn new() -> (r: Mutation)
        ensures
            r == (Mutation(ShelterMutations, SignalMutations, UserMutations)),
    {
        Mutation(ShelterMutations, SignalMutations, UserMutations)
    }
}

impl Default for Mutation {
    fn default() -> (r: Mutation)
        ensures
            r == (Mutation(ShelterMutations, SignalMutations, UserMutations)),
    {
        Mutation::new()
    }
}

} // verus!

//! Metadata queries.

use vstd::prelude::*;

verus! {

/// The queries that report build and process metadata.
#[derive(Debug, Clone, Copy, PartialEq, Eq, Hash, Structural)]
pub struct MetaQueries;

} // verus!

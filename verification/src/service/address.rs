//! Postal addresses.

use vstd::prelude::*;

verus! {

/// A postal address, held as plain text lines.
#[derive(Debug, Clone, PartialEq, Eq)]
pub struct Address {
    /// e.g. 51 Charles St W
    pub line1: String,
    /// e.g. Suite #199, if any.
    pub line2: Option<String>,
    /// e.g. Waterloo
    pub city: String,
    /// e.g. Ontario
    pub region: String,
    /// e.g. Canada
    pub country: String,
    /// e.g. N2G 1H6
    pub postcode: String,
}

} // verus!

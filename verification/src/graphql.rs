//! The transport-facing shapes of the API: scalar codecs (cursors, ids,
//! coordinates), the input objects of every mutation, and the pure
//! validation that turns each input object into a service request.  The
//! transport machinery itself — resolvers, wire protocol, serialization —
//! stays with the caller.

use vstd::prelude::*;

pub mod address;
pub mod cursor;
pub mod geo;
pub mod id;
pub mod meta;
pub mod mutation;
pub mod query;
pub mod shelter;
pub mod shelter_measurement;
pub mod signal;
pub mod user;

verus! {

/// Which field of an input object was rejected, and why it was.
#[derive(Debug, Clone, Copy, PartialEq, Eq, Structural)]
pub enum InputFault {
    /// The name is too long.
    InvalidName,
    /// The about text is too long.
    InvalidAbout,
    /// The image URL does not parse.
    InvalidImageUrl,
    /// The email address was rejected.
    InvalidEmail,
    /// The phone number does not parse.
    InvalidPhone,
    /// The website URL does not parse.
    InvalidWebsiteUrl,
    /// The first name is too long.
    InvalidFirstName,
    /// The last name is too long.
    InvalidLastName,
    /// The presented id names an entity of another type.
    InvalidId,
}

} // verus!

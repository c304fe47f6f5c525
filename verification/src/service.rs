//! The service layer's value types and decision logic.
//!
//! Validated value types (emails, phone numbers, slugs, sanitized input
//! strings), the domain entities they compose into, the request shapes of
//! every service operation, and the pure parts of the operations
//! themselves: authorization decisions, entity construction and update
//! merging.  Whatever touches the database stays with the caller, which
//! hands plain values in and takes plain values back.

pub mod address;
pub mod context;
pub mod email;
pub mod geo;
pub mod input;
pub mod meta;
pub mod phone;
pub mod shelter;
pub mod shelter_measurement;
pub mod signal;
pub mod slug;
pub mod user;
pub mod verifiable;

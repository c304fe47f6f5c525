//! Verified core of the Chalmers Project API backend.
//!
//! The centerpiece is the bearer-token verification subsystem: decoding a
//! presented token's header, resolving the signing key from a refreshing
//! key cache, and enforcing the claim policy (expiry, issued-at, issuer,
//! audience) with a fixed clock-skew leeway.  Around it stand the small
//! validated value types (emails, phone numbers, slugs, input strings,
//! cursors, ids) and the request/response shapes of the service layer.

pub mod auth;
pub mod cache;
pub mod cli;
pub mod env;
pub mod fetch;
pub mod graphql;
pub mod jsonval;
pub mod jwk;
pub mod meta;
pub mod service;
pub mod text;
pub mod uid;

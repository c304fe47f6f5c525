//! The command-line surface, as plain values.
//!
//! Argument parsing itself lives with the binary; these are the shapes it
//! fills in and hands over.

use vstd::prelude::*;

verus! {

/// Run pending database migrations.
#[derive(Debug, Clone, PartialEq, Eq)]
pub struct MigrateCli {
    /// The database to migrate.
    pub db_url: String,
}

/// Serve the API.
#[derive(Debug, Clone, PartialEq, Eq)]
pub struct ServeCli {
    /// Whether to enable request tracing.
    pub trace: bool,
    /// The host to serve on.
    pub host: String,
    /// The port to serve on.
    pub port: u16,
    /// The origins allowed cross-origin access.
    pub cors_origin: Vec<String>,
    /// The database to serve from.
    pub database_url: String,
    /// How many database connections to hold at most.
    pub database_max_connections: Option<u32>,
    /// The identity-provider project whose tokens are accepted.
    pub firebase_project_id: String,
}

/// What the process was asked to do.
#[derive(Debug, Clone, PartialEq, Eq)]
pub enum Command {
    /// Serve the API.
    Serve(ServeCli),
    /// Run pending database migrations.
    Migrate(MigrateCli),
}

} // verus!

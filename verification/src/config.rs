//! How the programs find the node and the database.
use vstd::prelude::*;

verus! {

/// Configuration for the LND connection
#[derive(Debug)]
pub struct LndConfig {
    /// The gRPC endpoint of the LND node (e.g., "https://localhost:10009")
    pub endpoint: String,
    /// Path to the macaroon file for authentication
    pub macaroon: String,
    /// Path to the TLS certificate file, which is not read: certificates are not
    /// validated
    pub cert: String,
}

/// Configuration for the database connection
#[derive(Debug)]
pub struct DatabaseConfig {
    /// PostgreSQL connection URL
    pub url: String,
}

/// Root configuration structure
#[derive(Debug)]
pub struct Config {
    pub lnd: LndConfig,
    pub database: DatabaseConfig,
}

} // verus!

//! Service configuration.
//!
//! The configuration names the document store, the database, the timezone
//! offset used when reading dates, and the listen port. Loading and saving
//! it are file work and live outside the library; the shape and the
//! bootstrap defaults live here.

use vstd::prelude::*;

verus! {

/// The service configuration.
#[derive(Debug, Clone, PartialEq)]
pub struct Config {
    /// The document store's connection string.
    pub server: String,
    /// The database name.
    pub database: String,
    /// The timezone offset, in whole hours, as text.
    pub timezone: String,
    /// The port the service listens on.
    pub port: u16,
}

impl Default for Config {
    /// The bootstrap configuration written on first run: a local store,
    /// the service's own database, no timezone offset, port 8080.
    fn default() -> (r: Config)
        ensures
            r.server@ == "mongodb://localhost:27017"@,
            r.database@ == "zvms"@,
            r.timezone@ == "0"@,
            r.port == 8080,
    {
        Config {
            server: "mongodb://localhost:27017".to_string(),
            database: "zvms".to_string(),
            timezone: "0".to_string(),
            port: 8080,
        }
    }
}

} // verus!

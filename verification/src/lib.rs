//! Verified core of a volunteer-activity tracking service.
//!
//! The library holds the permission rules, the activity and participation
//! state machines, the export-job tracker, and the per-user time aggregation.
//! Network, database and file plumbing live outside; they hand the library
//! plain values and take plain values back.

pub mod ids;
pub mod models;
pub mod routers;
pub mod utils;

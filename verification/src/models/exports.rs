//! Export jobs: options, status and the task record a tracker holds.

use vstd::prelude::*;

use crate::ids::Oid;

verus! {

/// The output format an export job was asked for.
#[derive(Debug, Clone, Copy, PartialEq, Eq, Structural, Hash)]
pub enum ExportFormat {
    CSV,
    JSON,
    Excel,
}

/// What an export job should cover: a time range and an output format.
#[derive(Debug, Clone, Copy, PartialEq, Eq, Structural, Hash)]
pub struct ExportActivityTimesOptions {
    /// Start of the covered range, a unix timestamp.
    pub start: u64,
    /// End of the covered range, a unix timestamp.
    pub end: u64,
    pub format: ExportFormat,
}

/// The lifecycle states of an export job.
#[derive(Debug, Clone, Copy, PartialEq, Eq, Structural, Hash)]
pub enum TaskStatus {
    Pending,
    Processing,
    Done,
    Error,
}

/// One export job as the tracker holds it. Only the background worker that
/// owns the job mutates it; polling clients read snapshots.
#[derive(Debug, Clone, PartialEq)]
pub struct Task {
    /// Creation time, a unix timestamp in milliseconds.
    pub time: u64,
    /// The user who requested the export.
    pub actioner: Oid,
    pub options: ExportActivityTimesOptions,
    pub status: TaskStatus,
    /// The result file path once the job is done.
    pub result: Option<String>,
    /// Completion percentage, 0 to 100.
    pub percent: Option<u64>,
}

} // verus!

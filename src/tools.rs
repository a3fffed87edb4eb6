//! Parameters of the operations offered to remote callers.
use vstd::prelude::*;

verus! {

/// Parameters of `start_timer`.
#[derive(Debug, Clone)]
pub struct StartTimerParams {
    /// Duration in minutes (1-1440).
    pub duration_minutes: u32,
    /// Label for this focus session (1-64 characters).
    pub label: String,
}

/// Parameters of `get_history`.
#[derive(Debug, Clone)]
pub struct GetHistoryParams {
    /// Optional inclusive lower bound on the start time (ISO 8601).
    pub start_date: Option<String>,
    /// Optional inclusive upper bound on the start time (ISO 8601).
    pub end_date: Option<String>,
}

} // verus!

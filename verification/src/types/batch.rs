//! Batch job types.

use vstd::prelude::*;

verus! {

/// Status of a batch job.
#[derive(Debug, Clone, Copy, Default, PartialEq, Eq, Structural)]
pub enum BatchStatus {
    /// Input is being validated.
    #[default]
    Validating,
    /// Validation failed.
    Failed,
    /// Running.
    InProgress,
    /// Results are being prepared.
    Finalizing,
    /// Done.
    Completed,
    /// Did not finish in time.
    Expired,
    /// Being cancelled.
    Cancelling,
    /// Cancelled.
    Cancelled,
}

/// Wire name of a batch status (snake case).
pub open spec fn spec_batch_status_name(s: BatchStatus) -> Seq<char> {
    match s {
        BatchStatus::Validating => "validating"@,
        BatchStatus::Failed => "failed"@,
        BatchStatus::InProgress => "in_progress"@,
        BatchStatus::Finalizing => "finalizing"@,
        BatchStatus::Completed => "completed"@,
        BatchStatus::Expired => "expired"@,
        BatchStatus::Cancelling => "cancelling"@,
        BatchStatus::Cancelled => "cancelled"@,
    }
}

impl BatchStatus {
    /// The wire name of the status, as it is displayed.
    pub fn as_str(&self) -> (s: &'static str)
        ensures
            s@ == spec_batch_status_name(*self),
    {
        proof {
            reveal_strlit("validating");
            reveal_strlit("failed");
            reveal_strlit("in_progress");
            reveal_strlit("finalizing");
            reveal_strlit("completed");
            reveal_strlit("expired");
            reveal_strlit("cancelling");
            reveal_strlit("cancelled");
        }
        match self {
            BatchStatus::Validating => "validating",
            BatchStatus::Failed => "failed",
            BatchStatus::InProgress => "in_progress",
            BatchStatus::Finalizing => "finalizing",
            BatchStatus::Completed => "completed",
            BatchStatus::Expired => "expired",
            BatchStatus::Cancelling => "cancelling",
            BatchStatus::Cancelled => "cancelled",
        }
    }
}

/// Request counts of a batch.
#[derive(Debug, Clone, Copy, Default, PartialEq, Eq, Structural)]
pub struct BatchRequestCounts {
    /// Total requests.
    pub total: u64,
    /// Completed requests.
    pub completed: u64,
    /// Failed requests.
    pub failed: u64,
}

/// Query parameters for listing batches.
#[derive(Debug, Clone, Default, PartialEq)]
pub struct BatchListQuery {
    /// Page size.
    pub limit: Option<u32>,
    /// Cursor.
    pub after: Option<String>,
}

} // verus!

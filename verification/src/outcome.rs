//! Outcome and error types shared by the whole engine: the failure taxonomy,
//! the classification of one transfer attempt, the result of a commit, and the
//! terminal record of one job.

use vstd::prelude::*;

verus! {

/// The failure taxonomy of the engine.
///
/// `SourceUnavailable` and `VerificationFailed` are per-mirror and recoverable:
/// the job marks the mirror as tried and moves on. The remaining kinds are
/// fatal for the whole job.
#[derive(Clone, Copy, Debug, PartialEq, Eq, Structural)]
pub enum ErrorKind {
    /// A network-level failure on one mirror: connection refused, name
    /// resolution failure, mid-stream disconnect, or an expired attempt
    /// deadline. Retryable against another mirror.
    SourceUnavailable,
    /// The staged data did not pass the job's verification routine. Treated
    /// exactly like `SourceUnavailable` for control flow: the mirror is
    /// distrusted and another one is tried.
    VerificationFailed,
    /// Every source has been tried and failed; the job is over.
    SourcesExhausted,
    /// A local failure (staging write, commit rename) unrelated to any source;
    /// trying another mirror cannot help.
    LocalIOError,
    /// A file already exists at the final target path and the descriptor asked
    /// to fail rather than overwrite.
    TargetCollision,
    /// The batch was cancelled before this job could finish.
    Cancelled,
}

impl ErrorKind {
    /// A retryable kind is recovered inside the job by trying another mirror;
    /// a non-retryable kind ends the job at once.
    pub open spec fn is_retryable(self) -> bool {
        self == ErrorKind::SourceUnavailable || self == ErrorKind::VerificationFailed
    }
}

/// The classification of one transfer attempt against one mirror, produced by
/// the transfer worker.
#[derive(Clone, Copy, Debug, PartialEq, Eq, Structural)]
pub enum TransferOutcome {
    /// The stream completed per the transport's own framing; the bytes are in
    /// the staging file, not yet verified.
    Success { bytes_written: u64 },
    /// A source-side failure; another mirror may still succeed.
    RetryableFailure { reason: ErrorKind },
    /// A failure that no other mirror can cure (a local staging write error,
    /// a malformed location); the job fails at once.
    FatalFailure { reason: ErrorKind },
}

/// The outcome of committing a staged file to its final target path.
#[derive(Clone, Copy, Debug, PartialEq, Eq, Structural)]
pub enum CommitOutcome {
    /// The staged file was atomically moved to the final path.
    Committed,
    /// The final path was already occupied and the descriptor forbids
    /// overwriting.
    Collision,
    /// A local I/O error while renaming or copying the staged file.
    IoError,
}

/// The terminal record of one job, immutable once produced.
#[derive(Clone, Debug, PartialEq, Eq)]
pub enum JobResult {
    /// The staged data passed verification and now sits at `final_path`.
    Succeeded { final_path: String },
    /// The job ended without a committed file; `attempts_made` counts the
    /// transfer attempts that were started.
    Failed { reason: ErrorKind, attempts_made: usize },
}

/// One terminal record per submitted descriptor, in submission order.
pub type BatchResult = Vec<JobResult>;

} // verus!

//! A batch file-download engine: job descriptors with mirrored sources are
//! turned into retry-capable, verified transfers whose per-job lifecycle and
//! batch orchestration are proved correct.

pub mod batch;
pub mod download;
pub mod engine;
pub mod job;
pub mod outcome;
pub mod progress;
pub mod verify;

pub use download::Download;
pub use outcome::BatchResult;
pub use outcome::ErrorKind;
pub use outcome::JobResult;
pub use outcome::TransferOutcome;
pub use outcome::CommitOutcome;

//! The error taxonomy of a provisioning run.
//!
//! Every error is terminal for the run: there is no recovery beyond the
//! bounded retries inside the readiness probe.
use vstd::prelude::*;

use crate::pipeline::PipelineStage;

verus! {

/// Why a run failed. Each variant is a distinct observable kind.
#[derive(Clone, Copy, PartialEq, Eq, Structural, Debug)]
pub enum RunError {
    /// The model file lacked a `FROM` directive.
    MissingRequiredDirective,
    /// A local filesystem operation failed (reading the model file, creating
    /// the install directory, granting execute permission).
    LocalIoFailure,
    /// The build platform's architecture has no configured artifact.
    UnsupportedPlatform,
    /// Fetching the artifact binary over the network failed.
    DownloadFailure,
    /// The server process could not be spawned at all.
    ServerSpawnFailure,
    /// The server never answered the readiness probe within the retry budget.
    ServerUnresponsive,
    /// A pipeline stage's executable could not be launched.
    StageLaunchFailure { stage: PipelineStage },
    /// A pipeline stage launched but exited with a non-zero status.
    StageExitFailure { stage: PipelineStage, status: i32 },
    /// Terminating the server process failed.
    TerminationFailure,
}

/// What happened to the server process on a path that ended in failure.
#[derive(Clone, Copy, PartialEq, Eq, Structural, Debug)]
pub enum CleanupStatus {
    /// The run failed before the server process ever started.
    ServerNeverStarted,
    /// The server had started and was terminated during failure cleanup.
    ServerTerminated,
    /// The server had started and the termination attempt itself failed.
    TerminationAlsoFailed,
}

} // verus!

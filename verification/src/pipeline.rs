//! The fail-fast two-stage command pipeline.
//!
//! Each stage is an external command whose success is determined solely by
//! its exit status. A stage runs only if every stage before it exited zero;
//! "could not launch" and "launched but exited non-zero" are distinct error
//! kinds.
use vstd::prelude::*;

use crate::errors::RunError;

verus! {

/// The two stages the driver runs, in order: fetch the base resource, then
/// derive the custom resource from it and the local model file.
#[derive(Clone, Copy, PartialEq, Eq, Structural, Debug)]
pub enum PipelineStage {
    Fetch,
    Derive,
}

/// What became of one launched (or unlaunchable) stage.
#[derive(Clone, Copy, PartialEq, Eq, Structural, Debug)]
pub enum SubprocessOutcome {
    /// The stage's executable could not be spawned.
    LaunchFailed,
    /// The stage ran and exited with the given non-zero status.
    ExitedNonZero { status: i32 },
    /// The stage ran and exited zero.
    Success,
}

/// A well-formed outcome never carries a zero status in `ExitedNonZero`.
pub open spec fn outcome_wf(o: SubprocessOutcome) -> bool {
    o matches SubprocessOutcome::ExitedNonZero { status } ==> status != 0
}

/// Classifies a raw exit status: zero is success, anything else is a
/// non-zero exit carrying the status for diagnostics.
pub fn outcome_from_exit_status(status: i32) -> (o: SubprocessOutcome)
    ensures
        o == if status == 0 {
            SubprocessOutcome::Success
        } else {
            (SubprocessOutcome::ExitedNonZero { status })
        },
        outcome_wf(o),
{
    if status == 0 {
        SubprocessOutcome::Success
    } else {
        SubprocessOutcome::ExitedNonZero { status }
    }
}

/// The error a stage's outcome surfaces, if any.
pub open spec fn stage_failure_spec(stage: PipelineStage, o: SubprocessOutcome) -> Option<
    RunError,
> {
    match o {
        SubprocessOutcome::LaunchFailed => Some(RunError::StageLaunchFailure { stage }),
        SubprocessOutcome::ExitedNonZero { status } => Some(
            RunError::StageExitFailure { stage, status },
        ),
        SubprocessOutcome::Success => None,
    }
}

/// Maps a stage's outcome to the error it surfaces: `None` exactly when the
/// stage exited zero.
pub fn stage_failure(stage: PipelineStage, o: &SubprocessOutcome) -> (r: Option<RunError>)
    ensures
        r == stage_failure_spec(stage, *o),
{
    match o {
        SubprocessOutcome::LaunchFailed => Some(RunError::StageLaunchFailure { stage }),
        SubprocessOutcome::ExitedNonZero { status } => Some(
            RunError::StageExitFailure { stage, status: *status },
        ),
        SubprocessOutcome::Success => None,
    }
}

/// The verdict of a whole pipeline run.
#[derive(Clone, Copy, PartialEq, Eq, Structural, Debug)]
pub struct PipelineRun {
    /// The first stage's error, if any stage failed.
    pub error: Option<RunError>,
    /// How many stages were attempted: a stage after a failed one is never
    /// attempted.
    pub stages_attempted: usize,
}

/// Evaluates the strict fail-fast chain over the outcomes the two stages
/// would produce: the fetch stage's failure stops the pipeline before the
/// derive stage is attempted, and the surfaced error carries the failing
/// stage and, for a non-zero exit, its status.
pub fn run_pipeline(fetch: &SubprocessOutcome, derive: &SubprocessOutcome) -> (r: PipelineRun)
    ensures
        stage_failure_spec(PipelineStage::Fetch, *fetch) matches Some(e) ==> r == (PipelineRun {
            error: Some(e),
            stages_attempted: 1,
        }),
        *fetch == SubprocessOutcome::Success ==> r == (PipelineRun {
            error: stage_failure_spec(PipelineStage::Derive, *derive),
            stages_attempted: 2,
        }),
{
    match stage_failure(PipelineStage::Fetch, fetch) {
        Some(e) => PipelineRun { error: Some(e), stages_attempted: 1 },
        None => PipelineRun {
            error: stage_failure(PipelineStage::Derive, derive),
            stages_attempted: 2,
        },
    }
}

} // verus!

use ollama_buildpack::errors::RunError;
use ollama_buildpack::pipeline::outcome_from_exit_status;
use ollama_buildpack::pipeline::run_pipeline;
use ollama_buildpack::pipeline::stage_failure;
use ollama_buildpack::pipeline::PipelineStage;
use ollama_buildpack::pipeline::SubprocessOutcome;

#[test]
fn fetch_failure_stops_the_pipeline_and_carries_the_status() {
    let fetch = SubprocessOutcome::ExitedNonZero { status: 3 };
    let derive = SubprocessOutcome::Success;
    let run = run_pipeline(&fetch, &derive);
    assert_eq!(run.stages_attempted, 1);
    assert_eq!(
        run.error,
        Some(RunError::StageExitFailure { stage: PipelineStage::Fetch, status: 3 })
    );
}

#[test]
fn fetch_launch_failure_stops_the_pipeline() {
    let run = run_pipeline(&SubprocessOutcome::LaunchFailed, &SubprocessOutcome::Success);
    assert_eq!(run.stages_attempted, 1);
    assert_eq!(run.error, Some(RunError::StageLaunchFailure { stage: PipelineStage::Fetch }));
}

#[test]
fn both_stages_succeeding_completes_the_pipeline() {
    let run = run_pipeline(&SubprocessOutcome::Success, &SubprocessOutcome::Success);
    assert_eq!(run.stages_attempted, 2);
    assert_eq!(run.error, None);
}

#[test]
fn derive_failure_carries_its_own_stage_and_status() {
    let derive = SubprocessOutcome::ExitedNonZero { status: 7 };
    let run = run_pipeline(&SubprocessOutcome::Success, &derive);
    assert_eq!(run.stages_attempted, 2);
    assert_eq!(
        run.error,
        Some(RunError::StageExitFailure { stage: PipelineStage::Derive, status: 7 })
    );
}

#[test]
fn exit_status_classification() {
    assert_eq!(outcome_from_exit_status(0), SubprocessOutcome::Success);
    assert_eq!(outcome_from_exit_status(3), SubprocessOutcome::ExitedNonZero { status: 3 });
    assert_eq!(outcome_from_exit_status(-1), SubprocessOutcome::ExitedNonZero { status: -1 });
}

#[test]
fn stage_failure_distinguishes_launch_and_exit() {
    assert_eq!(
        stage_failure(PipelineStage::Derive, &SubprocessOutcome::LaunchFailed),
        Some(RunError::StageLaunchFailure { stage: PipelineStage::Derive })
    );
    assert_eq!(stage_failure(PipelineStage::Fetch, &SubprocessOutcome::Success), None);
}

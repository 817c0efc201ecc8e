use ollama_buildpack::artifact::ArtifactConfig;
use ollama_buildpack::artifact::ProvisioningRecord;
use ollama_buildpack::artifact::TargetPlatform;
use ollama_buildpack::driver::Driver;
use ollama_buildpack::driver::DriverAction;
use ollama_buildpack::driver::DriverConfig;
use ollama_buildpack::driver::DriverEvent;
use ollama_buildpack::driver::DriverPhase;
use ollama_buildpack::errors::CleanupStatus;
use ollama_buildpack::errors::RunError;
use ollama_buildpack::modelfile::base_model_from_lines;
use ollama_buildpack::pipeline::SubprocessOutcome;
use ollama_buildpack::probe::run_probe_script;
use ollama_buildpack::probe::ProbeRun;

fn b(s: &str) -> Vec<u8> {
    s.as_bytes().to_vec()
}

fn config() -> DriverConfig {
    DriverConfig {
        artifact: ArtifactConfig {
            version: b("0.1.32"),
            amd64_url: b("https://example.com/ollama-amd64"),
            arm64_url: b("https://example.com/ollama-arm64"),
        },
        arch: b("amd64"),
        modelfile_path: b("/workspace/Modelfile"),
    }
}

fn matching_record() -> ProvisioningRecord {
    ProvisioningRecord { version: b("0.1.32"), source_location: b("https://example.com/ollama-amd64") }
}

/// Drives a fresh driver up to the point where the fetch stage runs, with a
/// reusable prior install and a server that becomes ready on the third
/// probe attempt.
fn driver_at_fetch_stage() -> Driver {
    let mut driver = Driver::new(config());
    assert_eq!(driver.pending_action(), DriverAction::ReadModelfile);
    let lines = vec![b("FROM llama3")];
    let base_model = base_model_from_lines(&lines);
    assert_eq!(base_model, Some(b("llama3")));
    let a = driver.step(DriverEvent::ModelfileRead { base_model });
    assert_eq!(a, DriverAction::ReadRecord);
    let a = driver.step(DriverEvent::RecordRead { existing: Some(matching_record()) });
    // a matching record is reused verbatim: no Install action, no re-download
    assert_eq!(a, DriverAction::SpawnServer);
    let a = driver.step(DriverEvent::SpawnSucceeded);
    assert_eq!(a, DriverAction::Probe);
    let probe_run = run_probe_script(vec![5, 7, 11], &vec![false, false, true, false]);
    let elapsed_ms = match probe_run {
        ProbeRun::Ready { elapsed_ms, sleeps } => {
            assert_eq!(sleeps, 2);
            elapsed_ms
        },
        ProbeRun::Unresponsive { .. } => panic!("the third attempt succeeds"),
    };
    let a = driver.step(DriverEvent::ProbeReady { elapsed_ms });
    assert_eq!(a, DriverAction::RunFetchStage);
    assert_eq!(driver.ready_elapsed_ms, 12);
    driver
}

#[test]
fn full_run_with_reused_install_reaches_done() {
    let mut driver = driver_at_fetch_stage();
    assert_eq!(driver.fetch_stage_invocation(), vec![b("ollama"), b("pull"), b("llama3")]);
    let a = driver.step(DriverEvent::StageExited { outcome: SubprocessOutcome::Success });
    assert_eq!(a, DriverAction::RunDeriveStage);
    assert_eq!(
        driver.derive_stage_invocation(),
        vec![b("ollama"), b("create"), b("custom_model"), b("-f"), b("/workspace/Modelfile")]
    );
    let a = driver.step(DriverEvent::StageExited { outcome: SubprocessOutcome::Success });
    assert_eq!(a, DriverAction::Terminate);
    let a = driver.step(DriverEvent::TerminateSucceeded);
    assert_eq!(a, DriverAction::EmitDescriptor);
    let descriptor = driver.descriptor();
    assert_eq!(descriptor.invocation, vec![b("ollama"), b("serve")]);
    assert!(descriptor.is_default);
    let a = driver.step(DriverEvent::DescriptorEmitted);
    assert_eq!(a, DriverAction::Completed);
    assert_eq!(driver.phase, DriverPhase::Done);
    assert_eq!(driver.terminate_attempts, 1);
    assert!(driver.server_started);
}

#[test]
fn missing_directive_fails_before_any_spawn() {
    let lines = vec![b("COMMENT nothing here")];
    assert_eq!(base_model_from_lines(&lines), None);
    let mut driver = Driver::new(config());
    let a = driver.step(DriverEvent::ModelfileRead { base_model: None });
    assert_eq!(a, DriverAction::Aborted);
    assert_eq!(driver.phase, DriverPhase::Failed);
    assert_eq!(driver.error, Some(RunError::MissingRequiredDirective));
    assert!(!driver.server_started);
    assert_eq!(driver.terminate_attempts, 0);
    assert_eq!(driver.cleanup, CleanupStatus::ServerNeverStarted);
}

#[test]
fn fetch_stage_failure_terminates_the_server_exactly_once() {
    let mut driver = driver_at_fetch_stage();
    let outcome = SubprocessOutcome::ExitedNonZero { status: 3 };
    let a = driver.step(DriverEvent::StageExited { outcome });
    // the derive stage is never requested: cleanup comes first
    assert_eq!(a, DriverAction::Terminate);
    assert_eq!(driver.terminate_attempts, 1);
    let a = driver.step(DriverEvent::TerminateSucceeded);
    assert_eq!(a, DriverAction::Aborted);
    assert_eq!(
        driver.error,
        Some(RunError::StageExitFailure {
            stage: ollama_buildpack::pipeline::PipelineStage::Fetch,
            status: 3
        })
    );
    assert_eq!(driver.cleanup, CleanupStatus::ServerTerminated);
    assert_eq!(driver.terminate_attempts, 1);
}

#[test]
fn unresponsive_server_is_torn_down_before_failing() {
    let mut driver = Driver::new(config());
    driver.step(DriverEvent::ModelfileRead { base_model: Some(b("llama3")) });
    driver.step(DriverEvent::RecordRead { existing: Some(matching_record()) });
    driver.step(DriverEvent::SpawnSucceeded);
    let a = driver.step(DriverEvent::ProbeUnresponsive);
    assert_eq!(a, DriverAction::Terminate);
    let a = driver.step(DriverEvent::TerminateSucceeded);
    assert_eq!(a, DriverAction::Aborted);
    assert_eq!(driver.error, Some(RunError::ServerUnresponsive));
    assert_eq!(driver.cleanup, CleanupStatus::ServerTerminated);
    assert_eq!(driver.terminate_attempts, 1);
}

#[test]
fn stale_record_goes_through_install() {
    let mut driver = Driver::new(config());
    driver.step(DriverEvent::ModelfileRead { base_model: Some(b("llama3")) });
    let stale = ProvisioningRecord {
        version: b("0.1.31"),
        source_location: b("https://example.com/ollama-amd64"),
    };
    let a = driver.step(DriverEvent::RecordRead { existing: Some(stale) });
    assert_eq!(a, DriverAction::Install);
    let desired = driver.install_desired();
    assert_eq!(desired.version, b("0.1.32"));
    assert_eq!(desired.source_location, b("https://example.com/ollama-amd64"));
    assert_eq!(desired.platform, TargetPlatform::Amd64);
    let record = driver.install_record();
    assert_eq!(record.version, b("0.1.32"));
    assert_eq!(record.source_location, b("https://example.com/ollama-amd64"));
    let a = driver.step(DriverEvent::InstallSucceeded);
    assert_eq!(a, DriverAction::SpawnServer);
}

#[test]
fn never_installed_goes_through_install() {
    let mut driver = Driver::new(config());
    driver.step(DriverEvent::ModelfileRead { base_model: Some(b("llama3")) });
    let a = driver.step(DriverEvent::RecordRead { existing: None });
    assert_eq!(a, DriverAction::Install);
}

#[test]
fn download_failure_is_distinct_from_local_io_failure() {
    let mut driver = Driver::new(config());
    driver.step(DriverEvent::ModelfileRead { base_model: Some(b("llama3")) });
    driver.step(DriverEvent::RecordRead { existing: None });
    let a = driver.step(DriverEvent::InstallDownloadFailed);
    assert_eq!(a, DriverAction::Aborted);
    assert_eq!(driver.error, Some(RunError::DownloadFailure));

    let mut driver = Driver::new(config());
    driver.step(DriverEvent::ModelfileRead { base_model: Some(b("llama3")) });
    driver.step(DriverEvent::RecordRead { existing: None });
    let a = driver.step(DriverEvent::InstallIoFailed);
    assert_eq!(a, DriverAction::Aborted);
    assert_eq!(driver.error, Some(RunError::LocalIoFailure));
}

#[test]
fn unsupported_architecture_fails_without_install() {
    let mut unsupported = config();
    unsupported.arch = b("s390x");
    let mut driver = Driver::new(unsupported);
    let a = driver.step(DriverEvent::ModelfileRead { base_model: Some(b("llama3")) });
    assert_eq!(a, DriverAction::Aborted);
    assert_eq!(driver.error, Some(RunError::UnsupportedPlatform));
    assert_eq!(driver.cleanup, CleanupStatus::ServerNeverStarted);
}

#[test]
fn spawn_failure_means_the_server_never_started() {
    let mut driver = Driver::new(config());
    driver.step(DriverEvent::ModelfileRead { base_model: Some(b("llama3")) });
    driver.step(DriverEvent::RecordRead { existing: Some(matching_record()) });
    let a = driver.step(DriverEvent::SpawnFailed);
    assert_eq!(a, DriverAction::Aborted);
    assert_eq!(driver.error, Some(RunError::ServerSpawnFailure));
    assert_eq!(driver.cleanup, CleanupStatus::ServerNeverStarted);
    assert_eq!(driver.terminate_attempts, 0);
}

#[test]
fn termination_failure_is_surfaced_not_swallowed() {
    let mut driver = driver_at_fetch_stage();
    driver.step(DriverEvent::StageExited { outcome: SubprocessOutcome::Success });
    driver.step(DriverEvent::StageExited { outcome: SubprocessOutcome::Success });
    let a = driver.step(DriverEvent::TerminateFailed);
    assert_eq!(a, DriverAction::Aborted);
    assert_eq!(driver.error, Some(RunError::TerminationFailure));
    assert_eq!(driver.cleanup, CleanupStatus::TerminationAlsoFailed);
}

#[test]
fn stage_failure_followed_by_termination_failure_keeps_the_stage_error() {
    let mut driver = driver_at_fetch_stage();
    driver.step(DriverEvent::StageExited { outcome: SubprocessOutcome::LaunchFailed });
    let a = driver.step(DriverEvent::TerminateFailed);
    assert_eq!(a, DriverAction::Aborted);
    assert_eq!(
        driver.error,
        Some(RunError::StageLaunchFailure { stage: ollama_buildpack::pipeline::PipelineStage::Fetch })
    );
    assert_eq!(driver.cleanup, CleanupStatus::TerminationAlsoFailed);
    assert_eq!(driver.terminate_attempts, 1);
}

#[test]
fn modelfile_io_error_is_local_io_failure() {
    let mut driver = Driver::new(config());
    let a = driver.step(DriverEvent::ModelfileIoError);
    assert_eq!(a, DriverAction::Aborted);
    assert_eq!(driver.error, Some(RunError::LocalIoFailure));
}

//! The orchestration driver.
//!
//! A run walks a fixed state machine: extract the base model, install or
//! reuse the artifact, spawn the server, wait for readiness, run the fetch
//! and derive stages, terminate the server, and hand a process descriptor to
//! the external supervisor. The driver holds only the decisions: each
//! non-terminal phase names one outside action (`action_of`), the caller
//! performs it and reports the outcome as a `DriverEvent`, and `step`
//! computes the next phase. Every failure is terminal, and any failure after
//! the server started still passes through `Stopping` so the child process
//! is torn down exactly once on every path.
use vstd::prelude::*;

use crate::artifact::ArtifactConfig;
use crate::artifact::CacheDecision;
use crate::artifact::DesiredArtifact;
use crate::artifact::ProvisioningRecord;
use crate::artifact::decide;
use crate::artifact::decide_spec;
use crate::artifact::platform_of;
use crate::artifact::record_for;
use crate::artifact::resolve_desired;
use crate::artifact::source_location_for;
use crate::artifact::TargetPlatform;
use crate::bytes::clone_bytes;
use crate::errors::CleanupStatus;
use crate::errors::RunError;
use crate::modelfile::views_of;
use crate::pipeline::PipelineStage;
use crate::pipeline::SubprocessOutcome;
use crate::pipeline::stage_failure;
use crate::pipeline::stage_failure_spec;

verus! {

/// Where the run stands. Each non-terminal phase awaits the outcome of the
/// one outside action named by `action_of`.
#[derive(Clone, Copy, PartialEq, Eq, Structural, Debug)]
pub enum DriverPhase {
    /// Nothing has happened; the model file is to be read.
    Idle,
    /// The base model is known; the persisted provisioning record is to be
    /// read so the cache decision can be made.
    DecidingReuse,
    /// The record did not match: the artifact is to be fetched and installed.
    Installing,
    /// The artifact is in place (reused or freshly installed); the server
    /// process is to be spawned.
    ArtifactReady,
    /// The server process is running but not yet ready; the readiness probe
    /// is in progress.
    ServerStarting,
    /// The server answered the probe (it is ready); the fetch stage is
    /// running.
    StageFetching,
    /// The fetch stage exited zero; the derive stage is running.
    StageDeriving,
    /// The server process is being terminated; success and failure paths
    /// converge here so that the child process is never leaked.
    Stopping,
    /// The server was terminated after a fully successful pipeline; the
    /// process descriptor is to be handed off.
    ServerStopped,
    /// The descriptor was handed off; the run succeeded.
    Done,
    /// The run failed; `error` says why and `cleanup` what became of the
    /// server process.
    Failed,
}

/// What the caller must do next.
#[derive(Clone, Copy, PartialEq, Eq, Structural, Debug)]
pub enum DriverAction {
    /// Read the model file and report `ModelfileRead` or `ModelfileIoError`.
    ReadModelfile,
    /// Read the persisted provisioning record and report `RecordRead`.
    ReadRecord,
    /// Fetch and install the artifact of `install_desired`, persist
    /// `install_record` only after full success, and report an install
    /// event.
    Install,
    /// Spawn the server process with `serve_invocation` and report a spawn
    /// event.
    SpawnServer,
    /// Run the readiness probe and report `ProbeReady` or
    /// `ProbeUnresponsive`.
    Probe,
    /// Run the fetch stage (`fetch_invocation`) and report `StageExited`.
    RunFetchStage,
    /// Run the derive stage (`derive_invocation`) and report `StageExited`.
    RunDeriveStage,
    /// Terminate the server process and report a terminate event.
    Terminate,
    /// Hand `descriptor` to the process supervisor and report
    /// `DescriptorEmitted`.
    EmitDescriptor,
    /// Terminal: the run succeeded.
    Completed,
    /// Terminal: the run failed; read `error`.
    Aborted,
}

/// The outcome of the action the driver last asked for.
pub enum DriverEvent {
    /// The model file was read; the first `FROM` argument, or `None` when no
    /// line carries the directive.
    ModelfileRead { base_model: Option<Vec<u8>> },
    /// The model file could not be opened or read.
    ModelfileIoError,
    /// The persisted provisioning record was read; `None` means nothing was
    /// ever installed.
    RecordRead { existing: Option<ProvisioningRecord> },
    /// Directory creation, download, permission grant and record write all
    /// succeeded.
    InstallSucceeded,
    /// The artifact download failed (network transport).
    InstallDownloadFailed,
    /// A local filesystem step of the install failed.
    InstallIoFailed,
    /// The server process spawned.
    SpawnSucceeded,
    /// The server process could not be spawned; it never started.
    SpawnFailed,
    /// The readiness probe got an answer after the given accumulated wait.
    ProbeReady { elapsed_ms: u64 },
    /// The readiness probe exhausted its schedule.
    ProbeUnresponsive,
    /// The running stage finished with the given outcome.
    StageExited { outcome: SubprocessOutcome },
    /// The server process was terminated.
    TerminateSucceeded,
    /// Terminating the server process failed.
    TerminateFailed,
    /// The process descriptor was handed to the supervisor.
    DescriptorEmitted,
}

/// The static configuration a run starts from.
pub struct DriverConfig {
    /// Artifact version and per-platform source locations.
    pub artifact: ArtifactConfig,
    /// The build platform's architecture name.
    pub arch: Vec<u8>,
    /// The path of the local model file, handed to the derive stage.
    pub modelfile_path: Vec<u8>,
}

/// The orchestration state machine.
pub struct Driver {
    /// Where the run stands.
    pub phase: DriverPhase,
    /// The configuration the run started from; never changed.
    pub config: DriverConfig,
    /// The base model name, once extracted from the model file.
    pub base_model: Vec<u8>,
    /// The resolved artifact, once the platform is known.
    pub desired: Option<DesiredArtifact>,
    /// In `Stopping`: the failure to surface after cleanup, or `None` when
    /// the pipeline succeeded and cleanup precedes the handoff.
    pub pending_error: Option<RunError>,
    /// In `Failed`: why the run failed.
    pub error: Option<RunError>,
    /// In `Failed`: what became of the server process.
    pub cleanup: CleanupStatus,
    /// Whether the server process was ever successfully spawned.
    pub server_started: bool,
    /// How many `Terminate` actions the driver has emitted.
    pub terminate_attempts: u64,
    /// The readiness probe's accumulated wait, once the server answered.
    pub ready_elapsed_ms: u64,
}

/// The action awaited in a phase.
pub open spec fn action_of(phase: DriverPhase) -> DriverAction {
    match phase {
        DriverPhase::Idle => DriverAction::ReadModelfile,
        DriverPhase::DecidingReuse => DriverAction::ReadRecord,
        DriverPhase::Installing => DriverAction::Install,
        DriverPhase::ArtifactReady => DriverAction::SpawnServer,
        DriverPhase::ServerStarting => DriverAction::Probe,
        DriverPhase::StageFetching => DriverAction::RunFetchStage,
        DriverPhase::StageDeriving => DriverAction::RunDeriveStage,
        DriverPhase::Stopping => DriverAction::Terminate,
        DriverPhase::ServerStopped => DriverAction::EmitDescriptor,
        DriverPhase::Done => DriverAction::Completed,
        DriverPhase::Failed => DriverAction::Aborted,
    }
}

/// Whether an event answers the action awaited in a phase. Terminal phases
/// await nothing.
pub open spec fn event_expected(phase: DriverPhase, e: DriverEvent) -> bool {
    match phase {
        DriverPhase::Idle => e matches DriverEvent::ModelfileRead { .. } || e matches DriverEvent::ModelfileIoError,
        DriverPhase::DecidingReuse => e matches DriverEvent::RecordRead { .. },
        DriverPhase::Installing => e matches DriverEvent::InstallSucceeded || e matches DriverEvent::InstallDownloadFailed
            || e matches DriverEvent::InstallIoFailed,
        DriverPhase::ArtifactReady => e matches DriverEvent::SpawnSucceeded || e matches DriverEvent::SpawnFailed,
        DriverPhase::ServerStarting => e matches DriverEvent::ProbeReady { .. } || e matches DriverEvent::ProbeUnresponsive,
        DriverPhase::StageFetching => e matches DriverEvent::StageExited { .. },
        DriverPhase::StageDeriving => e matches DriverEvent::StageExited { .. },
        DriverPhase::Stopping => e matches DriverEvent::TerminateSucceeded || e matches DriverEvent::TerminateFailed,
        DriverPhase::ServerStopped => e matches DriverEvent::DescriptorEmitted,
        DriverPhase::Done => false,
        DriverPhase::Failed => false,
    }
}

/// How many `Terminate` actions a well-formed driver has emitted in a phase.
pub open spec fn terminate_attempts_expected(phase: DriverPhase, cleanup: CleanupStatus) -> int {
    match phase {
        DriverPhase::Stopping | DriverPhase::ServerStopped | DriverPhase::Done => 1,
        DriverPhase::Failed => if cleanup == CleanupStatus::ServerNeverStarted {
            0
        } else {
            1
        },
        _ => 0,
    }
}

impl Driver {
    /// The driver's invariant. In particular: the server-lifetime flag
    /// matches the phase, and the number of `Terminate` actions emitted is
    /// pinned by the phase, never more than one.
    pub open spec fn wf(&self) -> bool {
        &&& match self.phase {
            DriverPhase::Idle | DriverPhase::DecidingReuse | DriverPhase::Installing
                | DriverPhase::ArtifactReady => !self.server_started,
            DriverPhase::ServerStarting | DriverPhase::StageFetching | DriverPhase::StageDeriving
                | DriverPhase::Stopping | DriverPhase::ServerStopped | DriverPhase::Done => self.server_started,
            DriverPhase::Failed => self.server_started == (self.cleanup
                != CleanupStatus::ServerNeverStarted),
        }
        &&& self.terminate_attempts == terminate_attempts_expected(self.phase, self.cleanup)
        &&& (self.phase == DriverPhase::DecidingReuse || self.phase == DriverPhase::Installing)
            ==> self.desired is Some
        &&& (self.phase == DriverPhase::Failed) <==> (self.error is Some)
        &&& (self.phase != DriverPhase::Stopping) ==> self.pending_error is None
    }

    /// A fresh run.
    pub fn new(config: DriverConfig) -> (r: Driver)
        ensures
            r.wf(),
            r.phase == DriverPhase::Idle,
            r.config == config,
            !r.server_started,
            r.terminate_attempts == 0,
    {
        Driver {
            phase: DriverPhase::Idle,
            config,
            base_model: Vec::new(),
            desired: None,
            pending_error: None,
            error: None,
            cleanup: CleanupStatus::ServerNeverStarted,
            server_started: false,
            terminate_attempts: 0,
            ready_elapsed_ms: 0,
        }
    }

    /// The action the caller must perform next.
    pub fn pending_action(&self) -> (r: DriverAction)
        ensures
            r == action_of(self.phase),
    {
        match self.phase {
            DriverPhase::Idle => DriverAction::ReadModelfile,
            DriverPhase::DecidingReuse => DriverAction::ReadRecord,
            DriverPhase::Installing => DriverAction::Install,
            DriverPhase::ArtifactReady => DriverAction::SpawnServer,
            DriverPhase::ServerStarting => DriverAction::Probe,
            DriverPhase::StageFetching => DriverAction::RunFetchStage,
            DriverPhase::StageDeriving => DriverAction::RunDeriveStage,
            DriverPhase::Stopping => DriverAction::Terminate,
            DriverPhase::ServerStopped => DriverAction::EmitDescriptor,
            DriverPhase::Done => DriverAction::Completed,
            DriverPhase::Failed => DriverAction::Aborted,
        }
    }

    /// Consumes the outcome of the awaited action and advances the run.
    ///
    /// The returned action is always the one the new phase awaits, and a
    /// `Terminate` action is returned exactly when this step emitted one
    /// (entering `Stopping`), so the termination count moves only there.
    pub fn step(&mut self, event: DriverEvent) -> (r: DriverAction)
        requires
            old(self).wf(),
            event_expected(old(self).phase, event),
        ensures
            final(self).wf(),
            r == action_of(final(self).phase),
            step_ok(*old(self), event, *final(self)),
            (r == DriverAction::Terminate) <==> (final(self).terminate_attempts == old(
                self,
            ).terminate_attempts + 1),
            !(r == DriverAction::Terminate) ==> final(self).terminate_attempts == old(
                self,
            ).terminate_attempts,
    {
        match (self.phase, event) {
            (DriverPhase::Idle, DriverEvent::ModelfileRead { base_model: Some(m) }) => {
                self.base_model = m;
                match resolve_desired(&self.config.artifact, &self.config.arch) {
                    Ok(d) => {
                        self.desired = Some(d);
                        self.phase = DriverPhase::DecidingReuse;
                    },
                    Err(e) => {
                        self.error = Some(e);
                        self.cleanup = CleanupStatus::ServerNeverStarted;
                        self.phase = DriverPhase::Failed;
                    },
                }
            },
            (DriverPhase::Idle, DriverEvent::ModelfileRead { base_model: None }) => {
                self.error = Some(RunError::MissingRequiredDirective);
                self.cleanup = CleanupStatus::ServerNeverStarted;
                self.phase = DriverPhase::Failed;
            },
            (DriverPhase::Idle, DriverEvent::ModelfileIoError) => {
                self.error = Some(RunError::LocalIoFailure);
                self.cleanup = CleanupStatus::ServerNeverStarted;
                self.phase = DriverPhase::Failed;
            },
            (DriverPhase::DecidingReuse, DriverEvent::RecordRead { existing }) => {
                let keep = match &self.desired {
                    Some(d) => matches!(decide(&existing, d), CacheDecision::Keep),
                    None => false,
                };
                if keep {
                    self.phase = DriverPhase::ArtifactReady;
                } else {
                    self.phase = DriverPhase::Installing;
                }
            },
            (DriverPhase::Installing, DriverEvent::InstallSucceeded) => {
                self.phase = DriverPhase::ArtifactReady;
            },
            (DriverPhase::Installing, DriverEvent::InstallDownloadFailed) => {
                self.error = Some(RunError::DownloadFailure);
                self.cleanup = CleanupStatus::ServerNeverStarted;
                self.phase = DriverPhase::Failed;
            },
            (DriverPhase::Installing, DriverEvent::InstallIoFailed) => {
                self.error = Some(RunError::LocalIoFailure);
                self.cleanup = CleanupStatus::ServerNeverStarted;
                self.phase = DriverPhase::Failed;
            },
            (DriverPhase::ArtifactReady, DriverEvent::SpawnSucceeded) => {
                self.server_started = true;
                self.phase = DriverPhase::ServerStarting;
            },
            (DriverPhase::ArtifactReady, DriverEvent::SpawnFailed) => {
                self.error = Some(RunError::ServerSpawnFailure);
                self.cleanup = CleanupStatus::ServerNeverStarted;
                self.phase = DriverPhase::Failed;
            },
            (DriverPhase::ServerStarting, DriverEvent::ProbeReady { elapsed_ms }) => {
                self.ready_elapsed_ms = elapsed_ms;
                self.phase = DriverPhase::StageFetching;
            },
            (DriverPhase::ServerStarting, DriverEvent::ProbeUnresponsive) => {
                self.pending_error = Some(RunError::ServerUnresponsive);
                self.terminate_attempts = self.terminate_attempts + 1;
                self.phase = DriverPhase::Stopping;
            },
            (DriverPhase::StageFetching, DriverEvent::StageExited { outcome }) => {
                match stage_failure(PipelineStage::Fetch, &outcome) {
                    None => {
                        self.phase = DriverPhase::StageDeriving;
                    },
                    Some(e) => {
                        self.pending_error = Some(e);
                        self.terminate_attempts = self.terminate_attempts + 1;
                        self.phase = DriverPhase::Stopping;
                    },
                }
            },
            (DriverPhase::StageDeriving, DriverEvent::StageExited { outcome }) => {
                match stage_failure(PipelineStage::Derive, &outcome) {
                    None => {
                        self.pending_error = None;
                        self.terminate_attempts = self.terminate_attempts + 1;
                        self.phase = DriverPhase::Stopping;
                    },
                    Some(e) => {
                        self.pending_error = Some(e);
                        self.terminate_attempts = self.terminate_attempts + 1;
                        self.phase = DriverPhase::Stopping;
                    },
                }
            },
            (DriverPhase::Stopping, DriverEvent::TerminateSucceeded) => {
                match self.pending_error {
                    None => {
                        self.phase = DriverPhase::ServerStopped;
                    },
                    Some(e) => {
                        self.pending_error = None;
                        self.error = Some(e);
                        self.cleanup = CleanupStatus::ServerTerminated;
                        self.phase = DriverPhase::Failed;
                    },
                }
            },
            (DriverPhase::Stopping, DriverEvent::TerminateFailed) => {
                match self.pending_error {
                    None => {
                        self.error = Some(RunError::TerminationFailure);
                        self.cleanup = CleanupStatus::TerminationAlsoFailed;
                        self.phase = DriverPhase::Failed;
                    },
                    Some(e) => {
                        self.pending_error = None;
                        self.error = Some(e);
                        self.cleanup = CleanupStatus::TerminationAlsoFailed;
                        self.phase = DriverPhase::Failed;
                    },
                }
            },
            (DriverPhase::ServerStopped, DriverEvent::DescriptorEmitted) => {
                self.phase = DriverPhase::Done;
            },
            _ => {
                // unreachable: the event always answers the awaited action
                proof {
                    assert(false);
                }
            },
        }
        self.pending_action()
    }
}

/// The exact transition relation of one step: given the phase and the
/// event, pins the new phase and every field the step may touch; every
/// other field is unchanged.
pub open spec fn step_ok(pre: Driver, event: DriverEvent, post: Driver) -> bool {
    &&& post.config == pre.config
    &&& match (pre.phase, event) {
        (DriverPhase::Idle, DriverEvent::ModelfileRead { base_model: Some(m) }) => {
            match platform_of(pre.config.arch@) {
                Some(p) => {
                    &&& post.phase == DriverPhase::DecidingReuse
                    &&& post.base_model == m
                    &&& (post.desired matches Some(d) && d.platform == p && d.version@
                        == pre.config.artifact.version@ && d.source_location@
                        == source_location_for(pre.config.artifact, p))
                    &&& frame_flags(pre, post)
                },
                None => {
                    &&& post.base_model == m
                    &&& post.desired == pre.desired
                    &&& failed_before_start(pre, post, RunError::UnsupportedPlatform)
                },
            }
        },
        (DriverPhase::Idle, DriverEvent::ModelfileRead { base_model: None }) => {
            &&& frame_data(pre, post)
            &&& failed_before_start(pre, post, RunError::MissingRequiredDirective)
        },
        (DriverPhase::Idle, DriverEvent::ModelfileIoError) => {
            &&& frame_data(pre, post)
            &&& failed_before_start(pre, post, RunError::LocalIoFailure)
        },
        (DriverPhase::DecidingReuse, DriverEvent::RecordRead { existing }) => {
            &&& frame_data(pre, post)
            &&& frame_flags(pre, post)
            &&& match pre.desired {
                Some(d) => post.phase == (if decide_spec(existing, d) == CacheDecision::Keep {
                    DriverPhase::ArtifactReady
                } else {
                    DriverPhase::Installing
                }),
                None => false,
            }
        },
        (DriverPhase::Installing, DriverEvent::InstallSucceeded) => {
            &&& frame_data(pre, post)
            &&& frame_flags(pre, post)
            &&& post.phase == DriverPhase::ArtifactReady
        },
        (DriverPhase::Installing, DriverEvent::InstallDownloadFailed) => {
            &&& frame_data(pre, post)
            &&& failed_before_start(pre, post, RunError::DownloadFailure)
        },
        (DriverPhase::Installing, DriverEvent::InstallIoFailed) => {
            &&& frame_data(pre, post)
            &&& failed_before_start(pre, post, RunError::LocalIoFailure)
        },
        (DriverPhase::ArtifactReady, DriverEvent::SpawnSucceeded) => {
            &&& frame_data(pre, post)
            &&& post.phase == DriverPhase::ServerStarting
            &&& post.server_started
            &&& post.pending_error == pre.pending_error
            &&& post.error == pre.error
            &&& post.cleanup == pre.cleanup
            &&& post.terminate_attempts == pre.terminate_attempts
            &&& post.ready_elapsed_ms == pre.ready_elapsed_ms
        },
        (DriverPhase::ArtifactReady, DriverEvent::SpawnFailed) => {
            &&& frame_data(pre, post)
            &&& failed_before_start(pre, post, RunError::ServerSpawnFailure)
        },
        (DriverPhase::ServerStarting, DriverEvent::ProbeReady { elapsed_ms }) => {
            &&& frame_data(pre, post)
            &&& post.phase == DriverPhase::StageFetching
            &&& post.ready_elapsed_ms == elapsed_ms
            &&& post.pending_error == pre.pending_error
            &&& post.error == pre.error
            &&& post.cleanup == pre.cleanup
            &&& post.server_started == pre.server_started
            &&& post.terminate_attempts == pre.terminate_attempts
        },
        (DriverPhase::ServerStarting, DriverEvent::ProbeUnresponsive) => to_stopping(
            pre,
            post,
            Some(RunError::ServerUnresponsive),
        ),
        (DriverPhase::StageFetching, DriverEvent::StageExited { outcome }) => {
            match stage_failure_spec(PipelineStage::Fetch, outcome) {
                None => {
                    &&& frame_data(pre, post)
                    &&& frame_flags(pre, post)
                    &&& post.phase == DriverPhase::StageDeriving
                },
                Some(e) => to_stopping(pre, post, Some(e)),
            }
        },
        (DriverPhase::StageDeriving, DriverEvent::StageExited { outcome }) => {
            match stage_failure_spec(PipelineStage::Derive, outcome) {
                None => to_stopping(pre, post, None),
                Some(e) => to_stopping(pre, post, Some(e)),
            }
        },
        (DriverPhase::Stopping, DriverEvent::TerminateSucceeded) => {
            match pre.pending_error {
                None => {
                    &&& frame_data(pre, post)
                    &&& frame_flags(pre, post)
                    &&& post.phase == DriverPhase::ServerStopped
                },
                Some(e) => failed_after_start(pre, post, e, CleanupStatus::ServerTerminated),
            }
        },
        (DriverPhase::Stopping, DriverEvent::TerminateFailed) => {
            match pre.pending_error {
                None => failed_after_start(
                    pre,
                    post,
                    RunError::TerminationFailure,
                    CleanupStatus::TerminationAlsoFailed,
                ),
                Some(e) => failed_after_start(
                    pre,
                    post,
                    e,
                    CleanupStatus::TerminationAlsoFailed,
                ),
            }
        },
        (DriverPhase::ServerStopped, DriverEvent::DescriptorEmitted) => {
            &&& frame_data(pre, post)
            &&& frame_flags(pre, post)
            &&& post.phase == DriverPhase::Done
        },
        _ => false,
    }
}

/// The base model and resolved artifact are unchanged.
pub open spec fn frame_data(pre: Driver, post: Driver) -> bool {
    &&& post.base_model == pre.base_model
    &&& post.desired == pre.desired
}

/// The run flags (errors, cleanup, server lifetime, termination count,
/// probe wait) are unchanged.
pub open spec fn frame_flags(pre: Driver, post: Driver) -> bool {
    &&& post.pending_error == pre.pending_error
    &&& post.error == pre.error
    &&& post.cleanup == pre.cleanup
    &&& post.server_started == pre.server_started
    &&& post.terminate_attempts == pre.terminate_attempts
    &&& post.ready_elapsed_ms == pre.ready_elapsed_ms
}

/// The run failed before the server process ever started.
pub open spec fn failed_before_start(pre: Driver, post: Driver, e: RunError) -> bool {
    &&& post.phase == DriverPhase::Failed
    &&& post.error == Some(e)
    &&& post.cleanup == CleanupStatus::ServerNeverStarted
    &&& post.pending_error == pre.pending_error
    &&& post.server_started == pre.server_started
    &&& post.terminate_attempts == pre.terminate_attempts
    &&& post.ready_elapsed_ms == pre.ready_elapsed_ms
}

/// Failure cleanup begins: the one `Terminate` action is emitted and the
/// error to surface afterwards (none on the success path) is parked.
pub open spec fn to_stopping(pre: Driver, post: Driver, pending: Option<RunError>) -> bool {
    &&& frame_data(pre, post)
    &&& post.phase == DriverPhase::Stopping
    &&& post.pending_error == pending
    &&& post.terminate_attempts == pre.terminate_attempts + 1
    &&& post.error == pre.error
    &&& post.cleanup == pre.cleanup
    &&& post.server_started == pre.server_started
    &&& post.ready_elapsed_ms == pre.ready_elapsed_ms
}

/// The run failed after the server had started; cleanup was attempted.
pub open spec fn failed_after_start(
    pre: Driver,
    post: Driver,
    e: RunError,
    cleanup: CleanupStatus,
) -> bool {
    &&& frame_data(pre, post)
    &&& post.phase == DriverPhase::Failed
    &&& post.error == Some(e)
    &&& post.cleanup == cleanup
    &&& post.pending_error is None
    &&& post.server_started == pre.server_started
    &&& post.terminate_attempts == pre.terminate_attempts
    &&& post.ready_elapsed_ms == pre.ready_elapsed_ms
}

/// The final output of a successful run, handed to the external process
/// supervisor; immutable once built.
pub struct ProcessDescriptor {
    /// The launch invocation, one word per element.
    pub invocation: Vec<Vec<u8>>,
    /// Whether this entry is the default process type.
    pub is_default: bool,
}

/// The server executable's name, `ollama`, as bytes.
pub open spec fn ollama_bytes() -> Seq<u8> {
    seq![111u8, 108u8, 108u8, 97u8, 109u8, 97u8]
}

/// The server subcommand `serve`, as bytes.
pub open spec fn serve_bytes() -> Seq<u8> {
    seq![115u8, 101u8, 114u8, 118u8, 101u8]
}

/// The fetch subcommand `pull`, as bytes.
pub open spec fn pull_bytes() -> Seq<u8> {
    seq![112u8, 117u8, 108u8, 108u8]
}

/// The derive subcommand `create`, as bytes.
pub open spec fn create_bytes() -> Seq<u8> {
    seq![99u8, 114u8, 101u8, 97u8, 116u8, 101u8]
}

/// The fixed name of the derived resource, `custom_model`, as bytes.
pub open spec fn custom_model_bytes() -> Seq<u8> {
    seq![99u8, 117u8, 115u8, 116u8, 111u8, 109u8, 95u8, 109u8, 111u8, 100u8, 101u8, 108u8]
}

/// The flag `-f` that names the model file to the derive stage, as bytes.
pub open spec fn file_flag_bytes() -> Seq<u8> {
    seq![45u8, 102u8]
}

fn ollama_word() -> (v: Vec<u8>)
    ensures
        v@ == ollama_bytes(),
{
    let mut v: Vec<u8> = Vec::new();
    v.push(111);
    v.push(108);
    v.push(108);
    v.push(97);
    v.push(109);
    v.push(97);
    proof {
        assert(v@ =~= ollama_bytes());
    }
    v
}

fn serve_word() -> (v: Vec<u8>)
    ensures
        v@ == serve_bytes(),
{
    let mut v: Vec<u8> = Vec::new();
    v.push(115);
    v.push(101);
    v.push(114);
    v.push(118);
    v.push(101);
    proof {
        assert(v@ =~= serve_bytes());
    }
    v
}

fn pull_word() -> (v: Vec<u8>)
    ensures
        v@ == pull_bytes(),
{
    let mut v: Vec<u8> = Vec::new();
    v.push(112);
    v.push(117);
    v.push(108);
    v.push(108);
    proof {
        assert(v@ =~= pull_bytes());
    }
    v
}

fn create_word() -> (v: Vec<u8>)
    ensures
        v@ == create_bytes(),
{
    let mut v: Vec<u8> = Vec::new();
    v.push(99);
    v.push(114);
    v.push(101);
    v.push(97);
    v.push(116);
    v.push(101);
    proof {
        assert(v@ =~= create_bytes());
    }
    v
}

fn custom_model_word() -> (v: Vec<u8>)
    ensures
        v@ == custom_model_bytes(),
{
    let mut v: Vec<u8> = Vec::new();
    v.push(99);
    v.push(117);
    v.push(115);
    v.push(116);
    v.push(111);
    v.push(109);
    v.push(95);
    v.push(109);
    v.push(111);
    v.push(100);
    v.push(101);
    v.push(108);
    proof {
        assert(v@ =~= custom_model_bytes());
    }
    v
}

fn file_flag_word() -> (v: Vec<u8>)
    ensures
        v@ == file_flag_bytes(),
{
    let mut v: Vec<u8> = Vec::new();
    v.push(45);
    v.push(102);
    proof {
        assert(v@ =~= file_flag_bytes());
    }
    v
}

/// The invocation that launches the server: `ollama serve`.
pub open spec fn serve_invocation_spec() -> Seq<Seq<u8>> {
    seq![ollama_bytes(), serve_bytes()]
}

/// The fetch stage's invocation: `ollama pull <base model>`.
pub open spec fn fetch_invocation_spec(base_model: Seq<u8>) -> Seq<Seq<u8>> {
    seq![ollama_bytes(), pull_bytes(), base_model]
}

/// The derive stage's invocation:
/// `ollama create custom_model -f <model file path>`.
pub open spec fn derive_invocation_spec(modelfile_path: Seq<u8>) -> Seq<Seq<u8>> {
    seq![
        ollama_bytes(),
        create_bytes(),
        custom_model_bytes(),
        file_flag_bytes(),
        modelfile_path,
    ]
}

/// Builds the server launch invocation, `ollama serve`.
pub fn serve_invocation() -> (r: Vec<Vec<u8>>)
    ensures
        views_of(r@) == serve_invocation_spec(),
{
    let mut r: Vec<Vec<u8>> = Vec::new();
    r.push(ollama_word());
    r.push(serve_word());
    proof {
        assert(views_of(r@) =~= serve_invocation_spec());
    }
    r
}

/// Builds the fetch stage's invocation, `ollama pull <base model>`.
pub fn fetch_invocation(base_model: &Vec<u8>) -> (r: Vec<Vec<u8>>)
    ensures
        views_of(r@) == fetch_invocation_spec(base_model@),
{
    let mut r: Vec<Vec<u8>> = Vec::new();
    r.push(ollama_word());
    r.push(pull_word());
    r.push(clone_bytes(base_model));
    proof {
        assert(views_of(r@) =~= fetch_invocation_spec(base_model@));
    }
    r
}

/// Builds the derive stage's invocation,
/// `ollama create custom_model -f <model file path>`.
pub fn derive_invocation(modelfile_path: &Vec<u8>) -> (r: Vec<Vec<u8>>)
    ensures
        views_of(r@) == derive_invocation_spec(modelfile_path@),
{
    let mut r: Vec<Vec<u8>> = Vec::new();
    r.push(ollama_word());
    r.push(create_word());
    r.push(custom_model_word());
    r.push(file_flag_word());
    r.push(clone_bytes(modelfile_path));
    proof {
        assert(views_of(r@) =~= derive_invocation_spec(modelfile_path@));
    }
    r
}

impl Driver {
    /// The artifact the `Install` action must fetch and install.
    pub fn install_desired(&self) -> (r: DesiredArtifact)
        requires
            self.wf(),
            self.phase == DriverPhase::Installing,
        ensures
            self.desired matches Some(d) && r.version@ == d.version@ && r.source_location@
                == d.source_location@ && r.platform == d.platform,
    {
        match &self.desired {
            Some(d) => DesiredArtifact {
                version: clone_bytes(&d.version),
                source_location: clone_bytes(&d.source_location),
                platform: d.platform,
            },
            None => {
                proof {
                    assert(false);
                }
                DesiredArtifact {
                    version: Vec::new(),
                    source_location: Vec::new(),
                    platform: TargetPlatform::Amd64,
                }
            },
        }
    }

    /// The provisioning record the `Install` action persists only once the
    /// install fully succeeded: the desired artifact's projection, so that
    /// the next run's cache decision is `Keep`.
    pub fn install_record(&self) -> (r: ProvisioningRecord)
        requires
            self.wf(),
            self.phase == DriverPhase::Installing,
        ensures
            self.desired matches Some(d) && r.version@ == d.version@ && r.source_location@
                == d.source_location@,
    {
        match &self.desired {
            Some(d) => record_for(d),
            None => {
                proof {
                    assert(false);
                }
                ProvisioningRecord { version: Vec::new(), source_location: Vec::new() }
            },
        }
    }

    /// The invocation the fetch stage runs for this driver's base model.
    pub fn fetch_stage_invocation(&self) -> (r: Vec<Vec<u8>>)
        requires
            self.phase == DriverPhase::StageFetching,
        ensures
            views_of(r@) == fetch_invocation_spec(self.base_model@),
    {
        fetch_invocation(&self.base_model)
    }

    /// The invocation the derive stage runs for this driver's model file.
    pub fn derive_stage_invocation(&self) -> (r: Vec<Vec<u8>>)
        requires
            self.phase == DriverPhase::StageDeriving,
        ensures
            views_of(r@) == derive_invocation_spec(self.config.modelfile_path@),
    {
        derive_invocation(&self.config.modelfile_path)
    }

    /// The process descriptor handed off for supervised relaunch: the same
    /// server invocation, marked as the default process type.
    pub fn descriptor(&self) -> (r: ProcessDescriptor)
        requires
            self.phase == DriverPhase::ServerStopped,
        ensures
            views_of(r.invocation@) == serve_invocation_spec(),
            r.is_default,
    {
        ProcessDescriptor { invocation: serve_invocation(), is_default: true }
    }
}

/// Termination law, part one: no driver ever emits more than one
/// `Terminate` action.
pub proof fn lemma_terminate_at_most_once(d: Driver)
    requires
        d.wf(),
    ensures
        0 <= d.terminate_attempts <= 1,
{
}

/// Termination law, part two: when a run has ended (`Done` or `Failed`),
/// the driver has emitted exactly one `Terminate` action if the server ever
/// started, and none otherwise — so every path that successfully started
/// the server, including those on which a later stage failed, tears it down
/// exactly once.
pub proof fn lemma_termination_exactly_once(d: Driver)
    requires
        d.wf(),
        d.phase == DriverPhase::Done || d.phase == DriverPhase::Failed,
    ensures
        d.terminate_attempts == if d.server_started {
            1int
        } else {
            0int
        },
{
}

} // verus!

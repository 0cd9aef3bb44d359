//! The bootstrap state machine.
//!
//! One bootstrap run walks: attempt the bundled sidecar launch; on failure
//! attempt the host runtime fallback; once a process is spawned, probe its
//! health until success or the deadline; on timeout kill the process and
//! wait for its exit; finally produce the snapshot to publish and the
//! process to install, if any.
//!
//! The machine is a pure function from phase, event and the current clock
//! reading to the next phase and the action the driver must perform. The
//! driver spawns, probes, kills and sleeps; every decision is taken here
//! and verified against `step_model`.

use crate::health::HEALTH_TIMEOUT_MS;
use crate::launch::combined_launch_failure;
use crate::launch::combined_launch_failure_text;
use crate::launch::fallback_warning;
use crate::launch::fallback_warning_text;
use crate::snapshot::BootstrapStatus;
use crate::snapshot::LaunchMode;
use crate::snapshot::RuntimeBootstrapSnapshot;
use crate::snapshot::SnapshotModel;
use vstd::prelude::*;

verus! {

/// Phase of a bootstrap run in flight.
pub enum BootPhase {
    /// About to attempt the bundled sidecar launch.
    SpawnSidecar,
    /// The sidecar launch failed; about to attempt the host runtime
    /// fallback.
    SpawnFallback { sidecar_error: String },
    /// A process is running but not yet healthy; probing until the
    /// deadline.
    WaitHealth { pid: u64, mode: LaunchMode, warning: Option<String>, deadline_ms: u64 },
    /// Health never came; the process is being killed and reaped before
    /// the error snapshot is published.
    Abort { pid: u64, snapshot: RuntimeBootstrapSnapshot },
    /// The run is over: `snapshot` is what the consumer will read, and
    /// `install`, if any, the process now owed to lifecycle management.
    Done { snapshot: RuntimeBootstrapSnapshot, install: Option<u64> },
}

/// Mathematical model of a phase, with messages as character sequences.
pub enum BootPhaseModel {
    SpawnSidecar,
    SpawnFallback { sidecar_error: Seq<char> },
    WaitHealth { pid: u64, mode: LaunchMode, warning: Option<Seq<char>>, deadline_ms: u64 },
    Abort { pid: u64, snapshot: SnapshotModel },
    Done { snapshot: SnapshotModel, install: Option<u64> },
}

impl View for BootPhase {
    type V = BootPhaseModel;

    open spec fn view(&self) -> BootPhaseModel {
        match self {
            BootPhase::SpawnSidecar => BootPhaseModel::SpawnSidecar,
            BootPhase::SpawnFallback { sidecar_error } => BootPhaseModel::SpawnFallback {
                sidecar_error: sidecar_error@,
            },
            BootPhase::WaitHealth { pid, mode, warning, deadline_ms } => {
                BootPhaseModel::WaitHealth {
                    pid: *pid,
                    mode: *mode,
                    warning: match warning {
                        Some(w) => Some(w@),
                        None => None,
                    },
                    deadline_ms: *deadline_ms,
                }
            },
            BootPhase::Abort { pid, snapshot } => BootPhaseModel::Abort {
                pid: *pid,
                snapshot: snapshot@,
            },
            BootPhase::Done { snapshot, install } => BootPhaseModel::Done {
                snapshot: snapshot@,
                install: *install,
            },
        }
    }
}

/// What the driver observed since the last step.
pub enum BootEvent {
    /// A launch attempt produced a running process.
    Spawned { pid: u64 },
    /// A launch attempt failed outright.
    SpawnFailed { error: String },
    /// One health probe succeeded.
    ProbeSucceeded,
    /// One health probe failed.
    ProbeFailed { error: String },
    /// The process ordered killed has exited and been reaped.
    ProcessExited,
}

/// Mathematical model of an event.
pub enum BootEventModel {
    Spawned { pid: u64 },
    SpawnFailed { error: Seq<char> },
    ProbeSucceeded,
    ProbeFailed { error: Seq<char> },
    ProcessExited,
}

impl View for BootEvent {
    type V = BootEventModel;

    open spec fn view(&self) -> BootEventModel {
        match self {
            BootEvent::Spawned { pid } => BootEventModel::Spawned { pid: *pid },
            BootEvent::SpawnFailed { error } => BootEventModel::SpawnFailed { error: error@ },
            BootEvent::ProbeSucceeded => BootEventModel::ProbeSucceeded,
            BootEvent::ProbeFailed { error } => BootEventModel::ProbeFailed { error: error@ },
            BootEvent::ProcessExited => BootEventModel::ProcessExited,
        }
    }
}

/// What the driver must do next. Actions carry no hidden state: killing
/// names the process, everything else is implicit in the fixed
/// configuration.
#[derive(Clone, Copy, PartialEq, Eq, Structural, Debug)]
pub enum BootAction {
    /// Attempt the bundled sidecar launch.
    LaunchSidecar,
    /// Attempt the host runtime fallback launch.
    LaunchFallback,
    /// Probe health now.
    Probe,
    /// Sleep the probe interval, then probe health.
    DelayThenProbe,
    /// Kill this process and wait for its exit, then report
    /// `ProcessExited`.
    Kill { pid: u64 },
    /// The run is over; the finished snapshot is ready to publish.
    Publish,
}

/// Message of the snapshot produced when a spawned process never became
/// healthy: the degraded-launch warning, if any, followed by the last
/// probe failure.
pub open spec fn health_failure_text(warning: Option<Seq<char>>, probe_err: Seq<char>) -> Seq<
    char,
> {
    match warning {
        Some(w) => w + ". Health check failed: "@ + probe_err,
        None => "Runtime started but failed health check: "@ + probe_err,
    }
}

/// Compose the health failure message around the last probe error.
pub fn health_failure_message(warning: &Option<String>, probe_err: &str) -> (r: String)
    ensures
        r@ == health_failure_text(
            match warning {
                Some(w) => Some(w@),
                None => None,
            },
            probe_err@,
        ),
{
    match warning {
        Some(w) => {
            let mut s = w.clone();
            s.append(". Health check failed: ");
            s.append(probe_err);
            s
        },
        None => {
            let mut s = String::from_str("Runtime started but failed health check: ");
            s.append(probe_err);
            s
        },
    }
}

/// Addition on the clock, pinned at the top of the range instead of
/// wrapping.
pub open spec fn sat_add_u64(a: u64, b: u64) -> u64 {
    if a + b > u64::MAX {
        u64::MAX
    } else {
        (a + b) as u64
    }
}

/// Deadline a fresh process gets to become healthy, measured from `now`.
pub open spec fn health_deadline(now: u64) -> u64 {
    sat_add_u64(now, HEALTH_TIMEOUT_MS)
}

fn health_deadline_exec(now: u64) -> (r: u64)
    ensures
        r == health_deadline(now),
{
    if now <= u64::MAX - HEALTH_TIMEOUT_MS {
        now + HEALTH_TIMEOUT_MS
    } else {
        u64::MAX
    }
}

impl BootPhaseModel {
    /// Which events a phase can consume: exactly the outcomes of the
    /// action the previous step asked for.
    pub open spec fn accepts(self, event: BootEventModel) -> bool {
        match (self, event) {
            (BootPhaseModel::SpawnSidecar, BootEventModel::Spawned { .. }) => true,
            (BootPhaseModel::SpawnSidecar, BootEventModel::SpawnFailed { .. }) => true,
            (BootPhaseModel::SpawnFallback { .. }, BootEventModel::Spawned { .. }) => true,
            (BootPhaseModel::SpawnFallback { .. }, BootEventModel::SpawnFailed { .. }) => true,
            (BootPhaseModel::WaitHealth { .. }, BootEventModel::ProbeSucceeded) => true,
            (BootPhaseModel::WaitHealth { .. }, BootEventModel::ProbeFailed { .. }) => true,
            (BootPhaseModel::Abort { .. }, BootEventModel::ProcessExited) => true,
            _ => false,
        }
    }
}

/// The transition relation of the bootstrap machine: from a phase, an
/// observed event and the clock reading `now` to the next phase and the
/// action the driver must perform. Meaningful only where the phase
/// `accepts` the event.
pub open spec fn step_model(phase: BootPhaseModel, event: BootEventModel, now: u64) -> (
    BootPhaseModel,
    BootAction,
) {
    match (phase, event) {
        (BootPhaseModel::SpawnSidecar, BootEventModel::Spawned { pid }) => (
            BootPhaseModel::WaitHealth {
                pid,
                mode: LaunchMode::Sidecar,
                warning: None,
                deadline_ms: health_deadline(now),
            },
            BootAction::Probe,
        ),
        (BootPhaseModel::SpawnSidecar, BootEventModel::SpawnFailed { error }) => (
            BootPhaseModel::SpawnFallback { sidecar_error: error },
            BootAction::LaunchFallback,
        ),
        (BootPhaseModel::SpawnFallback { sidecar_error }, BootEventModel::Spawned { pid }) => (
            BootPhaseModel::WaitHealth {
                pid,
                mode: LaunchMode::FallbackNode,
                warning: Some(fallback_warning_text(sidecar_error)),
                deadline_ms: health_deadline(now),
            },
            BootAction::Probe,
        ),
        (BootPhaseModel::SpawnFallback { sidecar_error }, BootEventModel::SpawnFailed { error }) => (
            BootPhaseModel::Done {
                snapshot: SnapshotModel {
                    available: false,
                    status: BootstrapStatus::Error,
                    launch_mode: LaunchMode::NoLaunch,
                    message: Some(combined_launch_failure_text(sidecar_error, error)),
                    checked_at_ms: now,
                },
                install: None,
            },
            BootAction::Publish,
        ),
        (
            BootPhaseModel::WaitHealth { pid, mode, warning, .. },
            BootEventModel::ProbeSucceeded,
        ) => (
            BootPhaseModel::Done {
                snapshot: SnapshotModel {
                    available: true,
                    status: BootstrapStatus::Ready,
                    launch_mode: mode,
                    message: warning,
                    checked_at_ms: now,
                },
                install: Some(pid),
            },
            BootAction::Publish,
        ),
        (
            BootPhaseModel::WaitHealth { pid, mode, warning, deadline_ms },
            BootEventModel::ProbeFailed { error },
        ) => {
            if now < deadline_ms {
                (
                    BootPhaseModel::WaitHealth { pid, mode, warning, deadline_ms },
                    BootAction::DelayThenProbe,
                )
            } else {
                (
                    BootPhaseModel::Abort {
                        pid,
                        snapshot: SnapshotModel {
                            available: false,
                            status: BootstrapStatus::Error,
                            launch_mode: mode,
                            message: Some(health_failure_text(warning, error)),
                            checked_at_ms: now,
                        },
                    },
                    BootAction::Kill { pid },
                )
            }
        },
        (BootPhaseModel::Abort { snapshot, .. }, BootEventModel::ProcessExited) => (
            BootPhaseModel::Done { snapshot, install: None },
            BootAction::Publish,
        ),
        _ => (phase, BootAction::Publish),
    }
}

impl BootPhase {
    /// The phase every bootstrap run starts in.
    pub fn start() -> (r: BootPhase)
        ensures
            r@ == BootPhaseModel::SpawnSidecar,
    {
        BootPhase::SpawnSidecar
    }

    /// Consume one observed event at clock reading `now`, following the
    /// transition relation exactly.
    pub fn step(self, event: BootEvent, now: u64) -> (r: (BootPhase, BootAction))
        requires
            self@.accepts(event@),
        ensures
            (r.0@, r.1) == step_model(self@, event@, now),
    {
        match (self, event) {
            (BootPhase::SpawnSidecar, BootEvent::Spawned { pid }) => (
                BootPhase::WaitHealth {
                    pid,
                    mode: LaunchMode::Sidecar,
                    warning: None,
                    deadline_ms: health_deadline_exec(now),
                },
                BootAction::Probe,
            ),
            (BootPhase::SpawnSidecar, BootEvent::SpawnFailed { error }) => (
                BootPhase::SpawnFallback { sidecar_error: error },
                BootAction::LaunchFallback,
            ),
            (BootPhase::SpawnFallback { sidecar_error }, BootEvent::Spawned { pid }) => (
                BootPhase::WaitHealth {
                    pid,
                    mode: LaunchMode::FallbackNode,
                    warning: Some(fallback_warning(sidecar_error.as_str())),
                    deadline_ms: health_deadline_exec(now),
                },
                BootAction::Probe,
            ),
            (BootPhase::SpawnFallback { sidecar_error }, BootEvent::SpawnFailed { error }) => (
                BootPhase::Done {
                    snapshot: RuntimeBootstrapSnapshot {
                        available: false,
                        status: BootstrapStatus::Error,
                        launch_mode: LaunchMode::NoLaunch,
                        message: Some(
                            combined_launch_failure(sidecar_error.as_str(), error.as_str()),
                        ),
                        checked_at_ms: now,
                    },
                    install: None,
                },
                BootAction::Publish,
            ),
            (
                BootPhase::WaitHealth { pid, mode, warning, deadline_ms: _ },
                BootEvent::ProbeSucceeded,
            ) => (
                BootPhase::Done {
                    snapshot: RuntimeBootstrapSnapshot {
                        available: true,
                        status: BootstrapStatus::Ready,
                        launch_mode: mode,
                        message: warning,
                        checked_at_ms: now,
                    },
                    install: Some(pid),
                },
                BootAction::Publish,
            ),
            (
                BootPhase::WaitHealth { pid, mode, warning, deadline_ms },
                BootEvent::ProbeFailed { error },
            ) => {
                if now < deadline_ms {
                    (
                        BootPhase::WaitHealth { pid, mode, warning, deadline_ms },
                        BootAction::DelayThenProbe,
                    )
                } else {
                    let message = health_failure_message(&warning, error.as_str());
                    (
                        BootPhase::Abort {
                            pid,
                            snapshot: RuntimeBootstrapSnapshot {
                                available: false,
                                status: BootstrapStatus::Error,
                                launch_mode: mode,
                                message: Some(message),
                                checked_at_ms: now,
                            },
                        },
                        BootAction::Kill { pid },
                    )
                }
            },
            (BootPhase::Abort { pid: _, snapshot }, BootEvent::ProcessExited) => (
                BootPhase::Done { snapshot, install: None },
                BootAction::Publish,
            ),
            _ => unreached(),
        }
    }
}

} // verus!

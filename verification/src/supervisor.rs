//! The supervisor: owns the status store, the process-lifecycle slot and
//! the bootstrap run in flight, and exposes the entry points the driver
//! and the consumer use.
//!
//! The driver holds one lock around the whole supervisor, so at most one
//! bootstrap run is in flight at a time; within that discipline the
//! contracts here guarantee that at most one managed process is ever owned,
//! that replacing the owned process always names the evicted one for
//! killing, and that the published status only ever changes to a completed
//! snapshot.

use crate::boot::BootAction;
use crate::boot::BootEvent;
use crate::boot::BootEventModel;
use crate::boot::BootPhase;
use crate::boot::BootPhaseModel;
use crate::boot::health_failure_text;
use crate::boot::step_model;
use crate::launch::combined_launch_failure_text;
use crate::launch::contains_seq;
use crate::launch::fallback_warning_text;
use crate::launch::lemma_combined_failure_carries_both;
use crate::launch::lemma_fallback_warning_carries_reason;
use crate::snapshot::BootstrapStatus;
use crate::snapshot::LaunchMode;
use crate::snapshot::RuntimeBootstrapSnapshot;
use crate::snapshot::SnapshotModel;
use crate::snapshot::default_runtime_snapshot;
use crate::snapshot::dev_runtime_snapshot;
use crate::snapshot::pending_message_text;
use vstd::prelude::*;

verus! {

/// Holds the latest bootstrap outcome. Written whole and read whole: a
/// reader gets exactly the last snapshot written, never a partial value.
pub struct StatusStore {
    snapshot: RuntimeBootstrapSnapshot,
}

impl View for StatusStore {
    type V = SnapshotModel;

    closed spec fn view(&self) -> SnapshotModel {
        self.snapshot@
    }
}

impl StatusStore {
    /// A fresh store holds the pending snapshot: no attempt has completed.
    pub fn new() -> (r: StatusStore)
        ensures
            !r@.available,
            r@.status == BootstrapStatus::Pending,
            r@.launch_mode == LaunchMode::NoLaunch,
            r@.message == Some(pending_message_text()),
    {
        StatusStore { snapshot: default_runtime_snapshot() }
    }

    /// Read the last written snapshot.
    pub fn read(&self) -> (r: RuntimeBootstrapSnapshot)
        ensures
            r@ == self@,
    {
        self.snapshot.clone()
    }

    /// Replace the stored snapshot whole.
    pub fn write(&mut self, snapshot: RuntimeBootstrapSnapshot)
        ensures
            final(self)@ == snapshot@,
    {
        self.snapshot = snapshot;
    }
}

/// Owns the at-most-one managed process. The slot changes only through
/// `install`, which always names the previously owned process so the
/// caller can kill and reap it before anything new runs on the port.
pub struct LifecycleManager {
    owned: Option<u64>,
}

impl LifecycleManager {
    /// The process currently owned, if any.
    pub closed spec fn owned_pid(&self) -> Option<u64> {
        self.owned
    }

    /// A fresh manager owns nothing.
    pub fn new() -> (r: LifecycleManager)
        ensures
            r.owned_pid() is None,
    {
        LifecycleManager { owned: None }
    }

    /// Replace the owned process with `next` (possibly nothing). Returns
    /// the process that was owned before: the caller must kill it and wait
    /// for its exit before acting on the new one.
    pub fn install(&mut self, next: Option<u64>) -> (evicted: Option<u64>)
        ensures
            final(self).owned_pid() == next,
            evicted == old(self).owned_pid(),
    {
        let evicted = self.owned;
        self.owned = next;
        evicted
    }
}

/// The process a bootstrap phase holds but has not yet handed over to
/// lifecycle management.
pub open spec fn phase_pid(p: BootPhaseModel) -> Option<u64> {
    match p {
        BootPhaseModel::SpawnSidecar => None,
        BootPhaseModel::SpawnFallback { .. } => None,
        BootPhaseModel::WaitHealth { pid, .. } => Some(pid),
        BootPhaseModel::Abort { pid, .. } => Some(pid),
        BootPhaseModel::Done { install, .. } => install,
    }
}

/// The full supervisor state.
pub struct Supervisor {
    lifecycle: LifecycleManager,
    store: StatusStore,
    boot: Option<BootPhase>,
}

impl Supervisor {
    /// The process under lifecycle management, if any.
    pub closed spec fn owned_pid(self) -> Option<u64> {
        self.lifecycle.owned_pid()
    }

    /// The snapshot a status read returns.
    pub closed spec fn status_model(self) -> SnapshotModel {
        self.store@
    }

    /// The bootstrap run in flight, if any.
    pub closed spec fn boot_model(self) -> Option<BootPhaseModel> {
        match self.boot {
            Some(p) => Some(p@),
            None => None,
        }
    }

    /// While a bootstrap run is in flight, the lifecycle slot is empty:
    /// the old process was evicted when the run began, and a new one is
    /// installed only when the run completes.
    pub open spec fn wf(self) -> bool {
        self.boot_model() is Some ==> self.owned_pid() is None
    }

    /// How many managed processes the supervisor holds: the installed one
    /// plus the one a run in flight is probing or killing.
    pub open spec fn live_count(self) -> int {
        (if self.owned_pid() is Some {
            1int
        } else {
            0int
        }) + (match self.boot_model() {
            Some(p) => if phase_pid(p) is Some {
                1int
            } else {
                0int
            },
            None => 0int,
        })
    }

    /// A fresh supervisor: nothing owned, nothing in flight, pending
    /// status.
    pub fn new() -> (r: Supervisor)
        ensures
            r.wf(),
            r.owned_pid() is None,
            r.boot_model() is None,
            !r.status_model().available,
            r.status_model().status == BootstrapStatus::Pending,
            r.status_model().launch_mode == LaunchMode::NoLaunch,
            r.status_model().message == Some(pending_message_text()),
    {
        Supervisor { lifecycle: LifecycleManager::new(), store: StatusStore::new(), boot: None }
    }

    /// Read the current snapshot: always the last completed outcome, never
    /// a value from a run still in flight.
    pub fn read_status(&self) -> (r: RuntimeBootstrapSnapshot)
        ensures
            r@ == self.status_model(),
    {
        self.store.read()
    }

    /// Begin a bootstrap run (the startup path and the retry path alike).
    /// Any currently owned process is evicted first and returned: the
    /// driver must kill it and wait for its exit before performing the
    /// launch action, so the retry never leaves two server processes
    /// running at once.
    pub fn begin_bootstrap(&mut self) -> (r: (Option<u64>, BootAction))
        requires
            old(self).boot_model() is None,
        ensures
            final(self).wf(),
            r.0 == old(self).owned_pid(),
            r.1 == BootAction::LaunchSidecar,
            final(self).owned_pid() is None,
            final(self).boot_model() == Some(BootPhaseModel::SpawnSidecar),
            final(self).status_model() == old(self).status_model(),
    {
        let evicted = self.lifecycle.install(None);
        self.boot = Some(BootPhase::start());
        (evicted, BootAction::LaunchSidecar)
    }

    /// Feed the outcome of the last action back in, at clock reading
    /// `now`. Follows the transition relation exactly; when the run
    /// completes, the finished snapshot is published and the new process,
    /// if any, installed — until then neither the status nor the
    /// lifecycle slot changes.
    pub fn on_event(&mut self, event: BootEvent, now: u64) -> (action: BootAction)
        requires
            old(self).wf(),
            old(self).boot_model() matches Some(p) && p.accepts(event@),
        ensures
            final(self).wf(),
            ({
                let (next, act) = step_model(old(self).boot_model()->Some_0, event@, now);
                &&& action == act
                &&& match next {
                    BootPhaseModel::Done { snapshot, install } => {
                        &&& final(self).boot_model() is None
                        &&& final(self).status_model() == snapshot
                        &&& final(self).owned_pid() == install
                    },
                    _ => {
                        &&& final(self).boot_model() == Some(next)
                        &&& final(self).status_model() == old(self).status_model()
                        &&& final(self).owned_pid() == old(self).owned_pid()
                    },
                }
            }),
    {
        let phase = self.boot.take();
        match phase {
            Some(p) => {
                let (next, action) = p.step(event, now);
                match next {
                    BootPhase::Done { snapshot, install } => {
                        self.store.write(snapshot);
                        let evicted = self.lifecycle.install(install);
                        assert(evicted is None);
                        action
                    },
                    other => {
                        self.boot = Some(other);
                        action
                    },
                }
            },
            None => unreached(),
        }
    }

    /// Tear down on application exit: evict the owned process for killing.
    /// Equivalent to installing nothing; the managed process never
    /// outlives the application.
    pub fn shutdown(&mut self) -> (evicted: Option<u64>)
        ensures
            final(self).wf(),
            final(self).owned_pid() is None,
            evicted == old(self).owned_pid(),
            final(self).boot_model() == old(self).boot_model(),
            final(self).status_model() == old(self).status_model(),
    {
        self.lifecycle.install(None)
    }
}

/// Supervisor variant for a development build, where the backend server is
/// assumed externally supervised: every call reports ready with no managed
/// process.
pub struct DevSupervisor {}

impl DevSupervisor {
    pub fn new() -> (r: DevSupervisor) {
        DevSupervisor {}
    }

    /// Both the startup path and the retry path: unconditionally ready,
    /// externally supervised, nothing to manage.
    pub fn retry(&self) -> (r: RuntimeBootstrapSnapshot)
        ensures
            r@.available,
            r@.status == BootstrapStatus::Ready,
            r@.launch_mode == LaunchMode::DevExternal,
            r@.message is None,
    {
        dev_runtime_snapshot()
    }
}

/// At most one managed process handle is held at any instant: while a run
/// is in flight the lifecycle slot is empty, so the installed process and
/// the process a run holds never coexist.
pub proof fn lemma_at_most_one_live_process(s: Supervisor)
    requires
        s.wf(),
    ensures
        s.live_count() <= 1,
{
}

/// A run in flight never silently drops the process it holds: every
/// accepted transition either keeps the held process (possibly handing it
/// over for installation) or is the exit acknowledgement of a process the
/// machine had already ordered killed.
pub proof fn lemma_no_process_leaks_from_a_run(p: BootPhaseModel, e: BootEventModel, now: u64)
    requires
        p.accepts(e),
        phase_pid(p) is Some,
    ensures
        phase_pid(step_model(p, e, now).0) == phase_pid(p) || (p matches BootPhaseModel::Abort {
            ..
        } && e is ProcessExited),
{
}

/// A successful probe completes the run at once: from any waiting phase,
/// one `ProbeSucceeded` yields the ready snapshot and installs the probed
/// process, regardless of how much of the deadline is left.
pub proof fn lemma_probe_success_completes_immediately(
    pid: u64,
    mode: LaunchMode,
    warning: Option<Seq<char>>,
    deadline_ms: u64,
    now: u64,
)
    ensures
        step_model(
            BootPhaseModel::WaitHealth { pid, mode, warning, deadline_ms },
            BootEventModel::ProbeSucceeded,
            now,
        ) == (
            BootPhaseModel::Done {
                snapshot: SnapshotModel {
                    available: true,
                    status: BootstrapStatus::Ready,
                    launch_mode: mode,
                    message: warning,
                    checked_at_ms: now,
                },
                install: Some(pid),
            },
            BootAction::Publish,
        ),
{
}

/// While probes keep failing, no error is reported and nothing is killed
/// before the deadline; once the deadline has passed, the run kills the
/// spawned process, and only after its exit does it publish the error
/// snapshot, with no process installed.
pub proof fn lemma_probe_failure_errors_only_after_deadline(
    pid: u64,
    mode: LaunchMode,
    warning: Option<Seq<char>>,
    deadline_ms: u64,
    error: Seq<char>,
    now: u64,
)
    ensures
        now < deadline_ms ==> step_model(
            BootPhaseModel::WaitHealth { pid, mode, warning, deadline_ms },
            BootEventModel::ProbeFailed { error },
            now,
        ) == (
            BootPhaseModel::WaitHealth { pid, mode, warning, deadline_ms },
            BootAction::DelayThenProbe,
        ),
        now >= deadline_ms ==> {
            let aborted = SnapshotModel {
                available: false,
                status: BootstrapStatus::Error,
                launch_mode: mode,
                message: Some(health_failure_text(warning, error)),
                checked_at_ms: now,
            };
            &&& step_model(
                BootPhaseModel::WaitHealth { pid, mode, warning, deadline_ms },
                BootEventModel::ProbeFailed { error },
                now,
            ) == (BootPhaseModel::Abort { pid, snapshot: aborted }, BootAction::Kill { pid })
            &&& forall|exit_now: u64|
                step_model(
                    BootPhaseModel::Abort { pid, snapshot: aborted },
                    BootEventModel::ProcessExited,
                    exit_now,
                ) == (
                    BootPhaseModel::Done { snapshot: aborted, install: None::<u64> },
                    BootAction::Publish,
                )
        },
{
}

/// When the sidecar launch fails but the fallback launch succeeds and then
/// passes health, the run completes available and ready with the fallback
/// launch mode, and the snapshot carries a non-empty message naming the
/// sidecar failure reason.
pub proof fn lemma_fallback_success_reports_degraded(
    sidecar_error: Seq<char>,
    pid: u64,
    spawn_now: u64,
    now: u64,
)
    ensures
        ({
            let (after_primary, act1) = step_model(
                BootPhaseModel::SpawnSidecar,
                BootEventModel::SpawnFailed { error: sidecar_error },
                spawn_now,
            );
            let (waiting, act2) = step_model(
                after_primary,
                BootEventModel::Spawned { pid },
                spawn_now,
            );
            let (done, act3) = step_model(waiting, BootEventModel::ProbeSucceeded, now);
            &&& act1 == BootAction::LaunchFallback
            &&& act2 == BootAction::Probe
            &&& act3 == BootAction::Publish
            &&& done matches BootPhaseModel::Done { snapshot, install } && {
                &&& snapshot.available
                &&& snapshot.status == BootstrapStatus::Ready
                &&& snapshot.launch_mode == LaunchMode::FallbackNode
                &&& snapshot.message == Some(fallback_warning_text(sidecar_error))
                &&& snapshot.message->Some_0.len() > 0
                &&& contains_seq(snapshot.message->Some_0, sidecar_error)
                &&& install == Some(pid)
            }
        }),
{
    lemma_fallback_warning_carries_reason(sidecar_error);
}

/// When both launch strategies fail, the run completes with an error, no
/// launch mode and no process, and the single combined message carries
/// both failure reasons.
pub proof fn lemma_both_launch_failures_reported(
    sidecar_error: Seq<char>,
    fallback_error: Seq<char>,
    spawn_now: u64,
    now: u64,
)
    ensures
        ({
            let (after_primary, act1) = step_model(
                BootPhaseModel::SpawnSidecar,
                BootEventModel::SpawnFailed { error: sidecar_error },
                spawn_now,
            );
            let (done, act2) = step_model(
                after_primary,
                BootEventModel::SpawnFailed { error: fallback_error },
                now,
            );
            &&& act1 == BootAction::LaunchFallback
            &&& act2 == BootAction::Publish
            &&& done matches BootPhaseModel::Done { snapshot, install } && {
                &&& !snapshot.available
                &&& snapshot.status == BootstrapStatus::Error
                &&& snapshot.launch_mode == LaunchMode::NoLaunch
                &&& snapshot.message == Some(
                    combined_launch_failure_text(sidecar_error, fallback_error),
                )
                &&& contains_seq(snapshot.message->Some_0, sidecar_error)
                &&& contains_seq(snapshot.message->Some_0, fallback_error)
                &&& install is None
            }
        }),
{
    lemma_combined_failure_carries_both(sidecar_error, fallback_error);
}

} // verus!

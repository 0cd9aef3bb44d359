use runtime_supervisor::boot::{BootAction, BootEvent, BootPhase};
use runtime_supervisor::snapshot::{
    default_runtime_snapshot, dev_runtime_snapshot, now_ms, poisoned_snapshot, runtime_snapshot,
    BootstrapStatus, LaunchMode, RuntimeBootstrapSnapshot,
};
use runtime_supervisor::supervisor::{DevSupervisor, LifecycleManager, StatusStore, Supervisor};

fn probe_error(text: &str) -> BootEvent {
    BootEvent::ProbeFailed { error: text.to_string() }
}

/// Drive one full bootstrap that spawns `pid` via the sidecar and passes
/// health at once.
fn boot_healthy(sup: &mut Supervisor, pid: u64, now: u64) {
    let (_kill, action) = sup.begin_bootstrap();
    assert_eq!(action, BootAction::LaunchSidecar);
    let action = sup.on_event(BootEvent::Spawned { pid }, now);
    assert_eq!(action, BootAction::Probe);
    let action = sup.on_event(BootEvent::ProbeSucceeded, now + 30);
    assert_eq!(action, BootAction::Publish);
}

#[test]
fn status_names() {
    assert_eq!(BootstrapStatus::Ready.as_str(), "ready");
    assert_eq!(BootstrapStatus::Pending.as_str(), "pending");
    assert_eq!(BootstrapStatus::Error.as_str(), "error");
}

#[test]
fn launch_mode_names() {
    assert_eq!(LaunchMode::Sidecar.as_str(), "sidecar");
    assert_eq!(LaunchMode::FallbackNode.as_str(), "fallback-node");
    assert_eq!(LaunchMode::DevExternal.as_str(), "dev-external");
    assert_eq!(LaunchMode::NoLaunch.as_str(), "none");
    assert_eq!(LaunchMode::Unknown.as_str(), "unknown");
}

#[test]
fn default_snapshot_is_pending() {
    let s = default_runtime_snapshot();
    assert!(!s.available);
    assert_eq!(s.status, BootstrapStatus::Pending);
    assert_eq!(s.launch_mode, LaunchMode::NoLaunch);
    assert_eq!(s.message.as_deref(), Some("Runtime bootstrap has not completed yet."));
}

#[test]
fn dev_snapshot_is_ready_external() {
    let s = dev_runtime_snapshot();
    assert!(s.available);
    assert_eq!(s.status, BootstrapStatus::Ready);
    assert_eq!(s.launch_mode, LaunchMode::DevExternal);
    assert!(s.message.is_none());
}

#[test]
fn poisoned_snapshot_is_defensive_error() {
    let s = poisoned_snapshot();
    assert!(!s.available);
    assert_eq!(s.status, BootstrapStatus::Error);
    assert_eq!(s.launch_mode, LaunchMode::Unknown);
    assert_eq!(s.message.as_deref(), Some("Runtime status lock poisoned."));
}

#[test]
fn runtime_snapshot_keeps_fields_and_stamps_the_clock() {
    let before = now_ms();
    let s = runtime_snapshot(
        true,
        BootstrapStatus::Ready,
        LaunchMode::Sidecar,
        Some("fine".to_string()),
    );
    let after = now_ms();
    assert!(s.available);
    assert_eq!(s.status, BootstrapStatus::Ready);
    assert_eq!(s.launch_mode, LaunchMode::Sidecar);
    assert_eq!(s.message.as_deref(), Some("fine"));
    assert!(before <= s.checked_at_ms && s.checked_at_ms <= after);
}

#[test]
fn snapshot_clone_is_deep_equal() {
    let s = runtime_snapshot(
        false,
        BootstrapStatus::Error,
        LaunchMode::NoLaunch,
        Some("why".to_string()),
    );
    let c = s.clone();
    assert_eq!(c.available, s.available);
    assert_eq!(c.status, s.status);
    assert_eq!(c.launch_mode, s.launch_mode);
    assert_eq!(c.message, s.message);
    assert_eq!(c.checked_at_ms, s.checked_at_ms);
}

#[test]
fn status_store_returns_last_write() {
    let mut store = StatusStore::new();
    let first = store.read();
    assert_eq!(first.status, BootstrapStatus::Pending);
    store.write(runtime_snapshot(true, BootstrapStatus::Ready, LaunchMode::Sidecar, None));
    let second = store.read();
    assert!(second.available);
    assert_eq!(second.status, BootstrapStatus::Ready);
}

#[test]
fn lifecycle_install_always_names_the_evicted_process() {
    let mut manager = LifecycleManager::new();
    assert_eq!(manager.install(Some(10)), None);
    assert_eq!(manager.install(Some(11)), Some(10));
    assert_eq!(manager.install(None), Some(11));
    assert_eq!(manager.install(None), None);
}

#[test]
fn sidecar_happy_path_reports_ready() {
    let mut sup = Supervisor::new();
    boot_healthy(&mut sup, 42, 1_000);
    let s = sup.read_status();
    assert!(s.available);
    assert_eq!(s.status, BootstrapStatus::Ready);
    assert_eq!(s.launch_mode, LaunchMode::Sidecar);
    assert!(s.message.is_none());
    assert_eq!(s.checked_at_ms, 1_030);
}

#[test]
fn first_probe_success_finishes_without_waiting_out_the_deadline() {
    let mut sup = Supervisor::new();
    let (_kill, _action) = sup.begin_bootstrap();
    let action = sup.on_event(BootEvent::Spawned { pid: 5 }, 0);
    assert_eq!(action, BootAction::Probe);
    // One successful probe long before the 7000 ms deadline completes the run.
    let action = sup.on_event(BootEvent::ProbeSucceeded, 25);
    assert_eq!(action, BootAction::Publish);
    let s = sup.read_status();
    assert_eq!(s.status, BootstrapStatus::Ready);
    assert_eq!(s.checked_at_ms, 25);
}

#[test]
fn probes_keep_retrying_until_the_deadline_then_kill() {
    let mut sup = Supervisor::new();
    let (_kill, _action) = sup.begin_bootstrap();
    sup.on_event(BootEvent::Spawned { pid: 7 }, 100);
    // Deadline is 100 + 7000. Failures strictly before it only re-probe.
    let mut now = 100;
    while now + 140 < 7_100 {
        now += 140;
        let action = sup.on_event(probe_error("connect failed"), now);
        assert_eq!(action, BootAction::DelayThenProbe);
        // Still no published outcome while the run is in flight.
        assert_eq!(sup.read_status().status, BootstrapStatus::Pending);
    }
    // At the deadline the process is killed before any error is reported.
    let action = sup.on_event(probe_error("connect timed out"), 7_100);
    assert_eq!(action, BootAction::Kill { pid: 7 });
    assert_eq!(sup.read_status().status, BootstrapStatus::Pending);
    // Only once the process has exited is the error published, with no
    // process installed.
    let action = sup.on_event(BootEvent::ProcessExited, 7_150);
    assert_eq!(action, BootAction::Publish);
    let s = sup.read_status();
    assert!(!s.available);
    assert_eq!(s.status, BootstrapStatus::Error);
    assert_eq!(s.launch_mode, LaunchMode::Sidecar);
    assert_eq!(
        s.message.as_deref(),
        Some("Runtime started but failed health check: connect timed out")
    );
    // Retrying afterwards finds nothing to kill: the failed process was
    // never installed.
    let (kill, _action) = sup.begin_bootstrap();
    assert_eq!(kill, None);
}

#[test]
fn fallback_launch_reports_degraded_but_ready() {
    let mut sup = Supervisor::new();
    let (_kill, _action) = sup.begin_bootstrap();
    let action = sup.on_event(
        BootEvent::SpawnFailed { error: "no bundled binary".to_string() },
        50,
    );
    assert_eq!(action, BootAction::LaunchFallback);
    let action = sup.on_event(BootEvent::Spawned { pid: 9 }, 80);
    assert_eq!(action, BootAction::Probe);
    let action = sup.on_event(BootEvent::ProbeSucceeded, 120);
    assert_eq!(action, BootAction::Publish);
    let s = sup.read_status();
    assert!(s.available);
    assert_eq!(s.status, BootstrapStatus::Ready);
    assert_eq!(s.launch_mode, LaunchMode::FallbackNode);
    let message = s.message.expect("degraded launch must carry a message");
    assert_eq!(
        message,
        "Bundled sidecar launch failed, using host node fallback: no bundled binary"
    );
    assert!(message.contains("no bundled binary"));
}

#[test]
fn fallback_then_failed_health_combines_both_reasons() {
    let mut sup = Supervisor::new();
    let (_kill, _action) = sup.begin_bootstrap();
    sup.on_event(BootEvent::SpawnFailed { error: "no bundled binary".to_string() }, 0);
    sup.on_event(BootEvent::Spawned { pid: 3 }, 0);
    let action = sup.on_event(probe_error("connection refused"), 7_000);
    assert_eq!(action, BootAction::Kill { pid: 3 });
    sup.on_event(BootEvent::ProcessExited, 7_001);
    let s = sup.read_status();
    assert_eq!(s.status, BootstrapStatus::Error);
    assert_eq!(s.launch_mode, LaunchMode::FallbackNode);
    assert_eq!(
        s.message.as_deref(),
        Some(
            "Bundled sidecar launch failed, using host node fallback: no bundled binary. \
             Health check failed: connection refused"
        )
    );
}

#[test]
fn both_launch_failures_report_error_with_both_causes() {
    let mut sup = Supervisor::new();
    let (_kill, _action) = sup.begin_bootstrap();
    let action = sup.on_event(
        BootEvent::SpawnFailed { error: "unsupported sidecar platform: linux".to_string() },
        10,
    );
    assert_eq!(action, BootAction::LaunchFallback);
    let action = sup.on_event(
        BootEvent::SpawnFailed { error: "node not found".to_string() },
        20,
    );
    assert_eq!(action, BootAction::Publish);
    let s = sup.read_status();
    assert!(!s.available);
    assert_eq!(s.status, BootstrapStatus::Error);
    assert_eq!(s.launch_mode, LaunchMode::NoLaunch);
    let message = s.message.expect("a combined failure must carry a message");
    assert!(message.contains("unsupported sidecar platform: linux"));
    assert!(message.contains("node not found"));
    assert_eq!(
        message,
        "preferred sidecar launch failed: unsupported sidecar platform: linux; \
         fallback node launch failed: node not found"
    );
    // Nothing to kill on a later retry: no process was ever spawned.
    let (kill, _action) = sup.begin_bootstrap();
    assert_eq!(kill, None);
}

#[test]
fn retry_evicts_the_healthy_process_before_launching_again() {
    let mut sup = Supervisor::new();
    boot_healthy(&mut sup, 42, 1_000);
    // The retry hands back the installed process for killing before any
    // new launch action is performed.
    let (kill, action) = sup.begin_bootstrap();
    assert_eq!(kill, Some(42));
    assert_eq!(action, BootAction::LaunchSidecar);
    // The replacement run installs the new process; the old one was
    // already evicted, so at no instant were two owned.
    sup.on_event(BootEvent::Spawned { pid: 43 }, 2_000);
    sup.on_event(BootEvent::ProbeSucceeded, 2_010);
    let s = sup.read_status();
    assert!(s.available);
    // A further retry now evicts only the replacement.
    let (kill, _action) = sup.begin_bootstrap();
    assert_eq!(kill, Some(43));
}

#[test]
fn status_reads_during_a_run_return_the_prior_snapshot() {
    let mut sup = Supervisor::new();
    boot_healthy(&mut sup, 1, 500);
    let ready = sup.read_status();
    assert!(ready.available);
    // A new run is in flight: reads still return the completed ready
    // snapshot until the run publishes its own outcome.
    let (_kill, _action) = sup.begin_bootstrap();
    assert!(sup.read_status().available);
    sup.on_event(BootEvent::Spawned { pid: 2 }, 9_000);
    assert!(sup.read_status().available);
    sup.on_event(probe_error("connect failed"), 9_100);
    assert!(sup.read_status().available);
    assert_eq!(sup.read_status().checked_at_ms, ready.checked_at_ms);
    sup.on_event(probe_error("connect failed"), 16_000);
    sup.on_event(BootEvent::ProcessExited, 16_001);
    let s = sup.read_status();
    assert!(!s.available);
    assert_eq!(s.checked_at_ms, 16_000);
}

#[test]
fn shutdown_evicts_the_owned_process() {
    let mut sup = Supervisor::new();
    boot_healthy(&mut sup, 77, 0);
    assert_eq!(sup.shutdown(), Some(77));
    assert_eq!(sup.shutdown(), None);
    // The last published status is untouched by teardown.
    assert!(sup.read_status().available);
}

#[test]
fn standalone_step_on_clock_edge_values() {
    // A spawn very late in the clock's range saturates the deadline
    // instead of wrapping it.
    let (phase, action) = BootPhase::start().step(BootEvent::Spawned { pid: 1 }, u64::MAX - 10);
    assert_eq!(action, BootAction::Probe);
    let (_phase, action) = phase.step(
        BootEvent::ProbeFailed { error: "connect failed".to_string() },
        u64::MAX - 5,
    );
    assert_eq!(action, BootAction::DelayThenProbe);
}

#[test]
fn dev_supervisor_always_reports_ready() {
    let dev = DevSupervisor::new();
    let s = dev.retry();
    assert!(s.available);
    assert_eq!(s.status, BootstrapStatus::Ready);
    assert_eq!(s.launch_mode, LaunchMode::DevExternal);
    assert!(s.message.is_none());
    let again = dev.retry();
    assert!(again.available);
    assert_eq!(again.status, BootstrapStatus::Ready);
}

#[test]
fn snapshot_field_names_at_the_boundary() {
    // The consumer-facing rendering keeps the documented field texts.
    let s: RuntimeBootstrapSnapshot = default_runtime_snapshot();
    assert_eq!(s.status.as_str(), "pending");
    assert_eq!(s.launch_mode.as_str(), "none");
}

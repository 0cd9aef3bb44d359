//! Bootstrap snapshots: the value a consumer reads to learn whether the
//! managed server is available, how it was launched, and why it failed.

use vstd::prelude::*;

verus! {

/// Observable state of the bootstrap: `Pending` before any attempt has
/// completed, `Ready` after a successful health check, `Error` after any
/// failure.
#[derive(Clone, Copy, PartialEq, Eq, Structural, Debug)]
pub enum BootstrapStatus {
    Ready,
    Pending,
    Error,
}

impl BootstrapStatus {
    /// The fixed text for this status at the consumer boundary.
    pub open spec fn text(self) -> Seq<char> {
        match self {
            BootstrapStatus::Ready => "ready"@,
            BootstrapStatus::Pending => "pending"@,
            BootstrapStatus::Error => "error"@,
        }
    }

    pub fn as_str(self) -> (r: &'static str)
        ensures
            r@ == self.text(),
    {
        match self {
            BootstrapStatus::Ready => "ready",
            BootstrapStatus::Pending => "pending",
            BootstrapStatus::Error => "error",
        }
    }
}

/// Which launch strategy produced the current server process, or why none
/// applies: `NoLaunch` when nothing is running, `DevExternal` when the
/// server is assumed externally supervised, `Unknown` only in the defensive
/// lock-poisoned snapshot.
#[derive(Clone, Copy, PartialEq, Eq, Structural, Debug)]
pub enum LaunchMode {
    Sidecar,
    FallbackNode,
    DevExternal,
    NoLaunch,
    Unknown,
}

impl LaunchMode {
    /// The fixed text for this launch mode at the consumer boundary.
    pub open spec fn text(self) -> Seq<char> {
        match self {
            LaunchMode::Sidecar => "sidecar"@,
            LaunchMode::FallbackNode => "fallback-node"@,
            LaunchMode::DevExternal => "dev-external"@,
            LaunchMode::NoLaunch => "none"@,
            LaunchMode::Unknown => "unknown"@,
        }
    }

    pub fn as_str(self) -> (r: &'static str)
        ensures
            r@ == self.text(),
    {
        match self {
            LaunchMode::Sidecar => "sidecar",
            LaunchMode::FallbackNode => "fallback-node",
            LaunchMode::DevExternal => "dev-external",
            LaunchMode::NoLaunch => "none",
            LaunchMode::Unknown => "unknown",
        }
    }
}

/// Immutable description of the supervisor's current belief about server
/// availability. `available` is true only if the managed process passed its
/// health check and has not since been stopped; `message` is present only
/// on an error or on a degraded (fallback) launch.
pub struct RuntimeBootstrapSnapshot {
    pub available: bool,
    pub status: BootstrapStatus,
    pub launch_mode: LaunchMode,
    pub message: Option<String>,
    pub checked_at_ms: u64,
}

/// Mathematical model of a snapshot: the message is a sequence of
/// characters rather than a `String`.
pub struct SnapshotModel {
    pub available: bool,
    pub status: BootstrapStatus,
    pub launch_mode: LaunchMode,
    pub message: Option<Seq<char>>,
    pub checked_at_ms: u64,
}

impl View for RuntimeBootstrapSnapshot {
    type V = SnapshotModel;

    open spec fn view(&self) -> SnapshotModel {
        SnapshotModel {
            available: self.available,
            status: self.status,
            launch_mode: self.launch_mode,
            message: match self.message {
                Some(m) => Some(m@),
                None => None,
            },
            checked_at_ms: self.checked_at_ms,
        }
    }
}

impl Clone for RuntimeBootstrapSnapshot {
    fn clone(&self) -> (r: Self)
        ensures
            r@ == self@,
    {
        RuntimeBootstrapSnapshot {
            available: self.available,
            status: self.status,
            launch_mode: self.launch_mode,
            message: match &self.message {
                Some(m) => Some(m.clone()),
                None => None,
            },
            checked_at_ms: self.checked_at_ms,
        }
    }
}

/// Relies on std::time::SystemTime::now: milliseconds of the wall clock
/// since the Unix epoch, or 0 if the clock reads earlier than the epoch.
/// The reading is nondeterministic, so nothing is promised of it.
#[verifier::external_body]
pub fn now_ms() -> u64 {
    std::time::SystemTime::now()
        .duration_since(std::time::UNIX_EPOCH)
        .map(|duration| duration.as_millis() as u64)
        .unwrap_or(0)
}

/// Build a snapshot from its fields, stamped with the wall clock now.
pub fn runtime_snapshot(
    available: bool,
    status: BootstrapStatus,
    launch_mode: LaunchMode,
    message: Option<String>,
) -> (r: RuntimeBootstrapSnapshot)
    ensures
        r@.available == available,
        r@.status == status,
        r@.launch_mode == launch_mode,
        r@.message == (match message {
            Some(m) => Some(m@),
            None => None::<Seq<char>>,
        }),
{
    RuntimeBootstrapSnapshot { available, status, launch_mode, message, checked_at_ms: now_ms() }
}

/// The message of the snapshot in place before any bootstrap completes.
pub open spec fn pending_message_text() -> Seq<char> {
    "Runtime bootstrap has not completed yet."@
}

/// The snapshot in place before any bootstrap attempt has completed.
pub fn default_runtime_snapshot() -> (r: RuntimeBootstrapSnapshot)
    ensures
        !r@.available,
        r@.status == BootstrapStatus::Pending,
        r@.launch_mode == LaunchMode::NoLaunch,
        r@.message == Some(pending_message_text()),
{
    runtime_snapshot(
        false,
        BootstrapStatus::Pending,
        LaunchMode::NoLaunch,
        Some(String::from_str("Runtime bootstrap has not completed yet.")),
    )
}

/// The snapshot reported unconditionally when the server is assumed
/// externally supervised (development mode): always ready, no managed
/// process.
pub fn dev_runtime_snapshot() -> (r: RuntimeBootstrapSnapshot)
    ensures
        r@.available,
        r@.status == BootstrapStatus::Ready,
        r@.launch_mode == LaunchMode::DevExternal,
        r@.message is None,
{
    runtime_snapshot(true, BootstrapStatus::Ready, LaunchMode::DevExternal, None)
}

/// The message of the defensive snapshot returned when the status guard
/// has been corrupted by a prior failure.
pub open spec fn poisoned_message_text() -> Seq<char> {
    "Runtime status lock poisoned."@
}

/// Defensive snapshot for a corrupted status guard: never a normal code
/// path, only a fallback so that a status read degrades instead of
/// crashing.
pub fn poisoned_snapshot() -> (r: RuntimeBootstrapSnapshot)
    ensures
        !r@.available,
        r@.status == BootstrapStatus::Error,
        r@.launch_mode == LaunchMode::Unknown,
        r@.message == Some(poisoned_message_text()),
{
    runtime_snapshot(
        false,
        BootstrapStatus::Error,
        LaunchMode::Unknown,
        Some(String::from_str("Runtime status lock poisoned.")),
    )
}

} // verus!

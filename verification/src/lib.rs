//! Supervisor for a locally hosted API server process.
//!
//! On startup the supervisor launches the server (preferring a bundled
//! sidecar runtime, falling back to a host-installed runtime), waits until
//! an HTTP health probe succeeds, and publishes a bootstrap snapshot that a
//! consumer can read at any time. It owns at most one server process, and
//! tearing down or replacing that process always kills and reaps the old
//! one first.
//!
//! The library holds the decision logic, fully verified: the snapshot data
//! model, the platform gate for the bundled binary, probe-response
//! classification, diagnostic-message composition, and the bootstrap state
//! machine. A thin unverified driver performs the actual process spawning,
//! TCP probing and sleeping, and feeds the outcomes back in as events.

pub mod boot;
pub mod health;
pub mod launch;
pub mod snapshot;
pub mod supervisor;

use vstd::prelude::*;

verus! {

} // verus!

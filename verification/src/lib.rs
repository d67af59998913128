//! Orchestration core for a demo of a distributed time-series cluster.
//!
//! The library coordinates continuous synthetic-data replay across a fixed
//! set of remote nodes, schedules periodic flush/vacuum cycles, and shapes
//! the telemetry that is shown while the demo runs.  The remote collaborators
//! (database clients, object store, container runtime, event sink) perform
//! I/O and are driven by a thin unverified shell; everything the shell
//! decides or computes comes from this crate and carries a proved contract.

pub mod cursor;
pub mod failure;
pub mod fanout;
pub mod flush;
pub mod monitor;
pub mod registry;
pub mod replay;
pub mod schema;
pub mod synthesis;
pub mod topology;
pub mod window;

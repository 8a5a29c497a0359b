//! Supervision of a single sidecar worker process: liveness probing, the
//! bounded launch policy, output classification, the worker slot and the
//! orderly shutdown of the worker.

pub mod fault;
pub mod launcher;
pub mod models;
pub mod panel;
pub mod policy;
pub mod probe;
pub mod pump;
pub mod record;
pub mod screenshot;
pub mod shutdown;
pub mod state;
pub mod worker;

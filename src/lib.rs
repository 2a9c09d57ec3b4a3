//! Supervisor for a local sidecar service: runtime lookup, private data
//! layout, the persisted secret, schema migration steps, the service's
//! environment, readiness polling and the lifecycle of the child process.

pub mod text;
pub mod error;
pub mod random;
pub mod local_state;
pub mod locator;
pub mod migration;
pub mod launcher;
pub mod readiness;
pub mod lifecycle;

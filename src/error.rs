//! Errors of the supervisor's startup sequence.

use vstd::prelude::*;

verus! {

/// One of the tool invocations made before the service starts.
#[derive(Clone, Copy, Debug, PartialEq, Eq, Structural)]
pub enum ToolStep {
    /// Schema push against the master store.
    PushMaster,
    /// Deployment of pending migrations to the tenant store.
    DeployTenant,
    /// Schema push against the tenant store, after a failed deployment.
    PushTenant,
}

/// Why a startup attempt was abandoned.
#[derive(Clone, Debug)]
pub enum SetupError {
    /// The override variable `key` names a path that does not exist.
    OverrideMissing { key: String, path: String },
    /// No usable runtime executable was found.
    RuntimeNotFound,
    /// The service's installation directory is absent; `packaged` tells a
    /// packaged build, whose resources must be prepared before bundling,
    /// from a development checkout.
    CoreDirMissing { expected: String, packaged: bool },
    /// A directory or file of the private data area could not be handled.
    Filesystem { what: String, cause: String },
    /// The system's random source failed; `cause` is its description.
    RandomUnavailable { cause: String },
    /// The migration tool is not installed with the service.
    ToolMissing { expected: String },
    /// The migration tool could not be started for a step.
    ToolCouldNotRun { step: ToolStep, cause: String },
    /// The master store's schema push exited with failure.
    MasterPushFailed,
    /// Both the deployment and the push for the tenant store failed.
    TenantMigrationFailed,
    /// The service's built entry point is absent.
    EntryMissing { expected: String },
    /// The service process could not be spawned.
    SpawnFailed { cause: String },
    /// The service did not accept connections before the deadline.
    ReadinessTimeout,
}

} // verus!

//! Bringing both stores' schemas up to date before the service starts:
//! a schema push on the master store, then a deployment of pending
//! migrations on the tenant store with a single push as its fallback.

use vstd::prelude::*;
use vstd::string::*;

use crate::error::{SetupError, ToolStep};
use crate::text::{join, joined};

verus! {

/// Where the migration tool's entry script sits inside the service's
/// installation directory `core_dir`.
pub open spec fn tool_entry_path(core_dir: Seq<char>) -> Seq<char> {
    joined(joined(joined(joined(core_dir, ("node_modules")@), ("prisma")@), ("build")@), ("index.js")@)
}

pub fn tool_entry(core_dir: &str) -> (r: String)
    ensures
        r@ == tool_entry_path(core_dir@),
{
    let a = join(core_dir, "node_modules");
    let b = join(a.as_str(), "prisma");
    let c = join(b.as_str(), "build");
    join(c.as_str(), "index.js")
}

/// Where the orchestration stands.
#[derive(Clone, Debug)]
pub enum Stage {
    /// The given step is to be run next.
    Run(ToolStep),
    /// Both stores are up to date.
    Done,
    /// Startup must stop with this error.
    Failed(SetupError),
}

/// How one run of the migration tool ended.
#[derive(Clone, Debug)]
pub enum RunOutcome {
    /// The tool exited with success.
    Succeeded,
    /// The tool exited with failure.
    ExitedWithFailure,
    /// The tool could not be started; `cause` says why.
    CouldNotRun(String),
}

pub open spec fn is_terminal(s: Stage) -> bool {
    s is Done || s is Failed
}

/// The stage that orchestration starts in, given whether the tool's entry
/// script (expected at `expected`) is present.
pub open spec fn start_stage(tool_present: bool, expected: Seq<char>, s: Stage) -> bool {
    if tool_present {
        s == Stage::Run(ToolStep::PushMaster)
    } else {
        s matches Stage::Failed(SetupError::ToolMissing { expected: e }) && e@ == expected
    }
}

pub fn first_stage(tool_present: bool, expected: String) -> (r: Stage)
    ensures
        start_stage(tool_present, expected@, r),
{
    if tool_present {
        Stage::Run(ToolStep::PushMaster)
    } else {
        Stage::Failed(SetupError::ToolMissing { expected })
    }
}

/// The stage that follows `step` when its run ended with `outcome`.
pub open spec fn stage_after(step: ToolStep, outcome: RunOutcome) -> Stage {
    match outcome {
        RunOutcome::CouldNotRun(cause) => Stage::Failed(SetupError::ToolCouldNotRun { step, cause }),
        RunOutcome::Succeeded => match step {
            ToolStep::PushMaster => Stage::Run(ToolStep::DeployTenant),
            ToolStep::DeployTenant => Stage::Done,
            ToolStep::PushTenant => Stage::Done,
        },
        RunOutcome::ExitedWithFailure => match step {
            ToolStep::PushMaster => Stage::Failed(SetupError::MasterPushFailed),
            ToolStep::DeployTenant => Stage::Run(ToolStep::PushTenant),
            ToolStep::PushTenant => Stage::Failed(SetupError::TenantMigrationFailed),
        },
    }
}

/// Advances the orchestration after a run of `step`: a master push must
/// succeed; a failed tenant deployment falls back to a tenant push, whose
/// failure is final.
pub fn next_stage(step: ToolStep, outcome: RunOutcome) -> (r: Stage)
    ensures
        r == stage_after(step, outcome),
{
    match outcome {
        RunOutcome::CouldNotRun(cause) => Stage::Failed(SetupError::ToolCouldNotRun { step, cause }),
        RunOutcome::Succeeded => match step {
            ToolStep::PushMaster => Stage::Run(ToolStep::DeployTenant),
            ToolStep::DeployTenant => Stage::Done,
            ToolStep::PushTenant => Stage::Done,
        },
        RunOutcome::ExitedWithFailure => match step {
            ToolStep::PushMaster => Stage::Failed(SetupError::MasterPushFailed),
            ToolStep::DeployTenant => Stage::Run(ToolStep::PushTenant),
            ToolStep::PushTenant => Stage::Failed(SetupError::TenantMigrationFailed),
        },
    }
}

/// A failed tenant deployment leads to exactly one tenant push: the push
/// comes next, and whatever it ends with, orchestration is over.
pub proof fn lemma_fallback_once(push_outcome: RunOutcome)
    ensures
        stage_after(ToolStep::DeployTenant, RunOutcome::ExitedWithFailure) == Stage::Run(ToolStep::PushTenant),
        is_terminal(stage_after(ToolStep::PushTenant, push_outcome)),
{
}

/// The arguments of `step` that follow the tool's entry script.
pub open spec fn step_args(step: ToolStep) -> Seq<Seq<char>> {
    match step {
        ToolStep::PushMaster => seq![
            ("db")@,
            ("push")@,
            ("--schema")@,
            ("prisma/master.prisma")@,
            ("--skip-generate")@,
        ],
        ToolStep::DeployTenant => seq![
            ("migrate")@,
            ("deploy")@,
            ("--schema")@,
            ("prisma/schema.prisma")@,
        ],
        ToolStep::PushTenant => seq![
            ("db")@,
            ("push")@,
            ("--schema")@,
            ("prisma/schema.prisma")@,
            ("--skip-generate")@,
        ],
    }
}

/// The variable through which `step` receives its store's URL.
pub open spec fn step_env_key(step: ToolStep) -> Seq<char> {
    match step {
        ToolStep::PushMaster => ("MASTER_DATABASE_URL")@,
        _ => ("DATABASE_URL")@,
    }
}

/// One run of the migration tool: `runtime <args...>` with one variable set.
pub struct Invocation {
    pub args: Vec<String>,
    pub env_key: String,
    pub env_value: String,
}

/// The character sequences of `s`.
pub open spec fn arg_views(s: Seq<String>) -> Seq<Seq<char>> {
    s.map_values(|x: String| x@)
}

/// How to run `step`: the entry script then the step's arguments, with the
/// master store's URL for the master push and the tenant store's otherwise.
pub fn invocation(step: ToolStep, entry: &str, master_url: &str, tenant_url: &str) -> (r: Invocation)
    ensures
        arg_views(r.args@) == seq![entry@] + step_args(step),
        r.env_key@ == step_env_key(step),
        r.env_value@ == if step == ToolStep::PushMaster { master_url@ } else { tenant_url@ },
{
    let mut args: Vec<String> = Vec::new();
    args.push(String::from_str(entry));
    match step {
        ToolStep::PushMaster => {
            args.push(String::from_str("db"));
            args.push(String::from_str("push"));
            args.push(String::from_str("--schema"));
            args.push(String::from_str("prisma/master.prisma"));
            args.push(String::from_str("--skip-generate"));
        },
        ToolStep::DeployTenant => {
            args.push(String::from_str("migrate"));
            args.push(String::from_str("deploy"));
            args.push(String::from_str("--schema"));
            args.push(String::from_str("prisma/schema.prisma"));
        },
        ToolStep::PushTenant => {
            args.push(String::from_str("db"));
            args.push(String::from_str("push"));
            args.push(String::from_str("--schema"));
            args.push(String::from_str("prisma/schema.prisma"));
            args.push(String::from_str("--skip-generate"));
        },
    }
    assert(arg_views(args@) =~= seq![entry@] + step_args(step));
    match step {
        ToolStep::PushMaster => Invocation {
            args,
            env_key: String::from_str("MASTER_DATABASE_URL"),
            env_value: String::from_str(master_url),
        },
        _ => Invocation {
            args,
            env_key: String::from_str("DATABASE_URL"),
            env_value: String::from_str(tenant_url),
        },
    }
}

} // verus!

//! The service's command line and environment.

use vstd::prelude::*;
use vstd::string::*;

use crate::error::SetupError;
use crate::text::{join, joined};

verus! {

/// The port the service listens on.
pub const CORE_PORT: u16 = 3000;

/// Where the service's built entry point sits in `core_dir`.
pub open spec fn entry_path(core_dir: Seq<char>) -> Seq<char> {
    joined(joined(core_dir, ("dist")@), ("main.js")@)
}

pub fn service_entry(core_dir: &str) -> (r: String)
    ensures
        r@ == entry_path(core_dir@),
{
    let a = join(core_dir, "dist");
    join(a.as_str(), "main.js")
}

/// The entry point if it is present, `EntryMissing` naming it otherwise.
pub fn require_entry(entry: String, present: bool) -> (r: Result<String, SetupError>)
    ensures
        present ==> (r matches Ok(e) && e@ == entry@),
        !present ==> (r matches Err(SetupError::EntryMissing { expected }) && expected@ == entry@),
{
    if present {
        Ok(entry)
    } else {
        Err(SetupError::EntryMissing { expected: entry })
    }
}

/// What the service is started with, besides the runtime and the entry point.
pub struct ServiceConfig {
    pub development: bool,
    pub master_db_url: String,
    pub tenant_db_url: String,
    pub secret: String,
    /// The administrator override variables' values, if set.
    pub admin_email: Option<String>,
    pub admin_password: Option<String>,
}

pub open spec fn or_default(v: Option<String>, d: Seq<char>) -> Seq<char> {
    match v {
        Some(s) => s@,
        None => d,
    }
}

/// The environment passed to the service for `c`, in order.
pub open spec fn service_env_spec(c: ServiceConfig) -> Seq<(Seq<char>, Seq<char>)> {
    seq![
        (("NODE_ENV")@, if c.development { ("development")@ } else { ("production")@ }),
        (("PORT")@, ("3000")@),
        (("DESKTOP")@, ("true")@),
        (("FRONTEND_ORIGIN")@, ("http://localhost:5173,tauri://localhost,https://tauri.localhost")@),
        (("AUTH_COOKIE_SECURE")@, ("false")@),
        (("MASTER_DATABASE_URL")@, c.master_db_url@),
        (("DATABASE_URL")@, c.tenant_db_url@),
        (("AUTH_TOKEN_SECRET")@, c.secret@),
        (("AUTH_BOOTSTRAP_USER")@, or_default(c.admin_email, ("admin@local")@)),
        (("AUTH_BOOTSTRAP_PASSWORD")@, or_default(c.admin_password, ("admin")@)),
    ]
}

pub open spec fn pair_views(s: Seq<(String, String)>) -> Seq<(Seq<char>, Seq<char>)> {
    s.map_values(|p: (String, String)| (p.0@, p.1@))
}

fn value_or(v: &Option<String>, d: &str) -> (r: String)
    ensures
        r@ == match v {
            Some(s) => s@,
            None => d@,
        },
{
    match v {
        Some(s) => s.clone(),
        None => String::from_str(d),
    }
}

fn entry(k: &str, v: &str) -> (r: (String, String))
    ensures
        r.0@ == k@,
        r.1@ == v@,
{
    (String::from_str(k), String::from_str(v))
}

/// The full environment of the service: mode, port, desktop flag, allowed
/// origins, cookie policy, both store URLs, the secret and the bootstrap
/// administrator (from the overrides, else `admin@local` / `admin`).
pub fn service_environment(c: &ServiceConfig) -> (r: Vec<(String, String)>)
    ensures
        pair_views(r@) == service_env_spec(*c),
{
    let mut env: Vec<(String, String)> = Vec::new();
    env.push(entry("NODE_ENV", if c.development { "development" } else { "production" }));
    env.push(entry("PORT", "3000"));
    env.push(entry("DESKTOP", "true"));
    env.push(entry("FRONTEND_ORIGIN", "http://localhost:5173,tauri://localhost,https://tauri.localhost"));
    env.push(entry("AUTH_COOKIE_SECURE", "false"));
    env.push(entry("MASTER_DATABASE_URL", c.master_db_url.as_str()));
    env.push(entry("DATABASE_URL", c.tenant_db_url.as_str()));
    env.push(entry("AUTH_TOKEN_SECRET", c.secret.as_str()));
    env.push((String::from_str("AUTH_BOOTSTRAP_USER"), value_or(&c.admin_email, "admin@local")));
    env.push((String::from_str("AUTH_BOOTSTRAP_PASSWORD"), value_or(&c.admin_password, "admin")));
    assert(pair_views(env@) =~= service_env_spec(*c));
    env
}

/// Whether the service's output goes to the supervisor's own streams:
/// in development builds only.
pub fn inherit_output(development: bool) -> (r: bool)
    ensures
        r == development,
{
    development
}

/// Where a packaged build may hold the service's installation, under the
/// resource directory `res`, in the order they are tried.
pub open spec fn core_dir_choices(res: Seq<char>) -> Seq<Seq<char>> {
    seq![joined(res, ("petflow-core")@), joined(joined(res, ("resources")@), ("petflow-core")@)]
}

pub fn core_dir_candidates(resource_dir: &str) -> (r: Vec<String>)
    ensures
        r@.len() == 2,
        r@[0]@ == core_dir_choices(resource_dir@)[0],
        r@[1]@ == core_dir_choices(resource_dir@)[1],
{
    let mut v: Vec<String> = Vec::new();
    v.push(join(resource_dir, "petflow-core"));
    let nested = join(resource_dir, "resources");
    v.push(join(nested.as_str(), "petflow-core"));
    v
}

/// The first candidate that exists (`exists[k]` for candidate `k`), or
/// `CoreDirMissing` naming the first candidate if none does; `packaged`
/// tells whether the candidates come from a packaged build's resources.
pub fn pick_core_dir(candidates: &Vec<String>, exists: &Vec<bool>, packaged: bool) -> (r: Result<String, SetupError>)
    requires
        candidates@.len() >= 1,
        exists@.len() <= candidates@.len(),
    ensures
        (forall|j: int| 0 <= j < exists@.len() ==> !exists@[j]) <==> r is Err,
        r matches Err(e) ==> (e matches SetupError::CoreDirMissing { expected, packaged: p } && expected@ == candidates@[0]@
            && p == packaged),
        r matches Ok(d) ==> exists|i: int|
            0 <= i < exists@.len() && exists@[i] && (forall|j: int| 0 <= j < i ==> !exists@[j])
                && d@ == candidates@[i]@,
{
    let mut i: usize = 0;
    while i < exists.len()
        invariant
            i <= exists@.len(),
            exists@.len() <= candidates@.len(),
            forall|j: int| 0 <= j < i ==> !exists@[j],
        decreases exists@.len() - i,
    {
        if exists[i] {
            return Ok(candidates[i].clone());
        }
        i = i + 1;
    }
    Err(SetupError::CoreDirMissing { expected: candidates[0].clone(), packaged })
}

} // verus!

use petflow_desktop::error::{SetupError, ToolStep};
use petflow_desktop::launcher::{
    core_dir_candidates, inherit_output, pick_core_dir, require_entry, service_entry, service_environment,
    ServiceConfig,
};
use petflow_desktop::lifecycle::{Lifecycle, Phase};
use petflow_desktop::local_state::{local_layout, prepare_secret, settle_secret};
use petflow_desktop::locator::{
    candidate_list, choose_override, lex_less_eq, newest_first, nvm_binaries, nvm_versions_dir, pick_runtime,
    settle_override, well_known_paths, Candidate, OverrideChoice, Platform, NODE_BINARY_VAR,
};
use petflow_desktop::migration::{first_stage, invocation, next_stage, tool_entry, RunOutcome, Stage};
use petflow_desktop::readiness::{poll_next, Poll, READY_DEADLINE_MS};
use petflow_desktop::text::{hex_encode, join, sqlite_url, trim};

fn s(x: &str) -> String {
    x.to_string()
}

fn is_lower_hex(x: &str) -> bool {
    x.chars().all(|c| c.is_ascii_digit() || ('a'..='f').contains(&c))
}

#[test]
fn layout_of_tmp_x() {
    let l = local_layout("/tmp/x");
    assert_eq!(l.db_dir, "/tmp/x/db");
    assert_eq!(l.master_db_path, "/tmp/x/db/master.db");
    assert_eq!(l.tenant_db_path, "/tmp/x/db/dev.db");
    assert_eq!(l.secret_path, "/tmp/x/auth_token_secret.txt");
    assert_eq!(l.master_db_url, "file:/tmp/x/db/master.db");
    assert_eq!(l.tenant_db_url, "file:/tmp/x/db/dev.db");
}

#[test]
fn fresh_secret_is_written_as_64_hex_digits() {
    let p = prepare_secret(None).expect("random source");
    assert_eq!(p.secret.len(), 64);
    assert!(is_lower_hex(&p.secret));
    assert_eq!(p.write, Some(p.secret.clone()));
}

#[test]
fn existing_secret_is_trimmed_and_not_rewritten() {
    let p = prepare_secret(Some(s("  abc123\n"))).expect("no draw needed");
    assert_eq!(p.secret, "abc123");
    assert_eq!(p.write, None);
}

#[test]
fn second_preparation_reuses_the_secret() {
    let first = prepare_secret(None).expect("random source");
    let on_disk = first.write.clone().expect("fresh secret is written");
    let second = prepare_secret(Some(on_disk)).expect("no draw needed");
    assert_eq!(second.secret, first.secret);
    assert_eq!(second.write, None);
}

#[test]
fn settle_secret_encodes_fresh_bytes() {
    let p = settle_secret(None, &[0x00, 0x0f, 0xa5, 0xff]);
    assert_eq!(p.secret, "000fa5ff");
    assert_eq!(p.write, Some(s("000fa5ff")));
    let q = settle_secret(Some(s("\tkept ")), &[1, 2]);
    assert_eq!(q.secret, "kept");
    assert_eq!(q.write, None);
}

#[test]
fn hex_encoding_of_32_bytes() {
    let bytes: Vec<u8> = (0u8..32).collect();
    let h = hex_encode(&bytes);
    assert_eq!(h.len(), 64);
    assert!(h.starts_with("000102"));
    assert!(h.ends_with("1e1f"));
    assert_eq!(hex_encode(&[]), "");
}

#[test]
fn trim_strips_unicode_whitespace() {
    assert_eq!(trim("  a b \n"), "a b");
    assert_eq!(trim("\u{3000}x\u{a0}"), "x");
    assert_eq!(trim(" \t "), "");
    assert_eq!(trim(""), "");
}

#[test]
fn join_inserts_one_separator() {
    assert_eq!(join("/a", "b"), "/a/b");
    assert_eq!(join("/a/", "b"), "/a/b");
    assert_eq!(join("", "b"), "b");
}

#[test]
fn store_url_uses_forward_slashes() {
    assert_eq!(sqlite_url("C:\\Users\\me\\db\\dev.db"), "file:C:/Users/me/db/dev.db");
    assert_eq!(sqlite_url(""), "file:");
}

#[test]
fn first_nonblank_override_wins() {
    let values = vec![Some(s("   ")), Some(s(" /opt/node "))];
    match choose_override(&values) {
        OverrideChoice::Use { index, path } => {
            assert_eq!(index, 1);
            assert_eq!(path, "/opt/node");
        },
        OverrideChoice::Search => panic!("an override is set"),
    }
    let none: Vec<Option<String>> = vec![None, Some(s(""))];
    assert!(matches!(choose_override(&none), OverrideChoice::Search));
}

#[test]
fn missing_override_path_fails_without_search() {
    let values = vec![Some(s("/does/not/exist")), None];
    let path = match choose_override(&values) {
        OverrideChoice::Use { path, .. } => path,
        OverrideChoice::Search => panic!("override must pin the runtime"),
    };
    match settle_override(NODE_BINARY_VAR, path, false) {
        Err(SetupError::OverrideMissing { key, path }) => {
            assert_eq!(key, "PETFLOW_NODE_BINARY");
            assert_eq!(path, "/does/not/exist");
        },
        other => panic!("unexpected {:?}", other),
    }
    assert_eq!(settle_override(NODE_BINARY_VAR, s("/bin/node"), true).unwrap(), "/bin/node");
}

#[test]
fn candidates_per_platform() {
    let linux = candidate_list(Platform::Other, &vec![s("/h/v1")]);
    let paths: Vec<&str> = linux.iter().map(|c| c.path.as_str()).collect();
    assert_eq!(paths, vec!["node", "/usr/local/bin/node", "/usr/bin/node"]);
    assert!(!linux[0].must_exist);
    assert!(linux[1].must_exist);

    let win = well_known_paths(Platform::Windows);
    assert_eq!(win[0], "C:\\Program Files\\nodejs\\node.exe");
    assert_eq!(win[2], "C:\\ProgramData\\chocolatey\\bin\\node.exe");

    let mac = candidate_list(Platform::MacOs, &vec![s("/h/.nvm/versions/node/v18.1.0"), s("/h/.nvm/versions/node/v20.3.1")]);
    let paths: Vec<&str> = mac.iter().map(|c| c.path.as_str()).collect();
    assert_eq!(
        paths,
        vec![
            "node",
            "/opt/homebrew/bin/node",
            "/usr/local/bin/node",
            "/usr/bin/node",
            "/h/.nvm/versions/node/v20.3.1/bin/node",
            "/h/.nvm/versions/node/v18.1.0/bin/node",
        ]
    );
}

#[test]
fn nvm_paths_newest_first() {
    assert_eq!(nvm_versions_dir("/Users/me"), "/Users/me/.nvm/versions/node");
    let rc = nvm_binaries(&vec![s("/n/v1"), s("/n/v1-rc")]);
    assert_eq!(rc, vec![s("/n/v1-rc/bin/node"), s("/n/v1/bin/node")]);
    let bins = nvm_binaries(&vec![s("/n/v16"), s("/n/v22"), s("/n/v18")]);
    assert_eq!(bins, vec![s("/n/v22/bin/node"), s("/n/v18/bin/node"), s("/n/v16/bin/node")]);
    let sorted = newest_first(vec![s("a"), s("c"), s("b"), s("c")]);
    assert_eq!(sorted, vec![s("c"), s("c"), s("b"), s("a")]);
    assert!(lex_less_eq("ab", "abc"));
    assert!(!lex_less_eq("b", "abc"));
}

#[test]
fn first_usable_candidate_is_picked() {
    let c = vec![
        Candidate { path: s("node"), must_exist: false },
        Candidate { path: s("/usr/bin/node"), must_exist: true },
    ];
    assert_eq!(pick_runtime(&c, &vec![false, true]).unwrap(), "/usr/bin/node");
    assert!(matches!(pick_runtime(&c, &vec![false, false]), Err(SetupError::RuntimeNotFound)));
    assert!(matches!(pick_runtime(&c, &vec![]), Err(SetupError::RuntimeNotFound)));
}

#[test]
fn installation_dir_choices() {
    let c = core_dir_candidates("/res");
    assert_eq!(c, vec![s("/res/petflow-core"), s("/res/resources/petflow-core")]);
    assert_eq!(pick_core_dir(&c, &vec![false, true], true).unwrap(), "/res/resources/petflow-core");
    match pick_core_dir(&c, &vec![false, false], true) {
        Err(SetupError::CoreDirMissing { expected, packaged }) => {
            assert_eq!(expected, "/res/petflow-core");
            assert!(packaged);
        },
        other => panic!("unexpected {:?}", other),
    }
    let dev = vec![s("/src/petflow-core")];
    match pick_core_dir(&dev, &vec![false], false) {
        Err(SetupError::CoreDirMissing { expected, packaged }) => {
            assert_eq!(expected, "/src/petflow-core");
            assert!(!packaged);
        },
        other => panic!("unexpected {:?}", other),
    }
}

#[test]
fn missing_tool_stops_migration() {
    let entry = tool_entry("/core");
    assert_eq!(entry, "/core/node_modules/prisma/build/index.js");
    assert!(matches!(first_stage(true, entry.clone()), Stage::Run(ToolStep::PushMaster)));
    match first_stage(false, entry) {
        Stage::Failed(SetupError::ToolMissing { expected }) => {
            assert_eq!(expected, "/core/node_modules/prisma/build/index.js")
        },
        other => panic!("unexpected {:?}", other),
    }
}

#[test]
fn failed_deploy_falls_back_to_one_push() {
    let after_deploy = next_stage(ToolStep::DeployTenant, RunOutcome::ExitedWithFailure);
    assert!(matches!(after_deploy, Stage::Run(ToolStep::PushTenant)));
    assert!(matches!(next_stage(ToolStep::PushTenant, RunOutcome::Succeeded), Stage::Done));
    assert!(matches!(
        next_stage(ToolStep::PushTenant, RunOutcome::ExitedWithFailure),
        Stage::Failed(SetupError::TenantMigrationFailed)
    ));
}

#[test]
fn master_push_must_succeed() {
    assert!(matches!(next_stage(ToolStep::PushMaster, RunOutcome::Succeeded), Stage::Run(ToolStep::DeployTenant)));
    assert!(matches!(
        next_stage(ToolStep::PushMaster, RunOutcome::ExitedWithFailure),
        Stage::Failed(SetupError::MasterPushFailed)
    ));
    assert!(matches!(next_stage(ToolStep::DeployTenant, RunOutcome::Succeeded), Stage::Done));
    match next_stage(ToolStep::PushMaster, RunOutcome::CouldNotRun(s("no such file"))) {
        Stage::Failed(SetupError::ToolCouldNotRun { step, cause }) => {
            assert_eq!(step, ToolStep::PushMaster);
            assert_eq!(cause, "no such file");
        },
        other => panic!("unexpected {:?}", other),
    }
}

#[test]
fn tool_invocations() {
    let m = invocation(ToolStep::PushMaster, "/t.js", "file:/m.db", "file:/d.db");
    assert_eq!(m.args, vec![s("/t.js"), s("db"), s("push"), s("--schema"), s("prisma/master.prisma"), s("--skip-generate")]);
    assert_eq!(m.env_key, "MASTER_DATABASE_URL");
    assert_eq!(m.env_value, "file:/m.db");
    let d = invocation(ToolStep::DeployTenant, "/t.js", "file:/m.db", "file:/d.db");
    assert_eq!(d.args, vec![s("/t.js"), s("migrate"), s("deploy"), s("--schema"), s("prisma/schema.prisma")]);
    assert_eq!(d.env_key, "DATABASE_URL");
    assert_eq!(d.env_value, "file:/d.db");
    let p = invocation(ToolStep::PushTenant, "/t.js", "file:/m.db", "file:/d.db");
    assert_eq!(p.args, vec![s("/t.js"), s("db"), s("push"), s("--schema"), s("prisma/schema.prisma"), s("--skip-generate")]);
    assert_eq!(p.env_value, "file:/d.db");
}

#[test]
fn service_environment_is_complete() {
    let c = ServiceConfig {
        development: false,
        master_db_url: s("file:/m.db"),
        tenant_db_url: s("file:/d.db"),
        secret: s("ff00"),
        admin_email: None,
        admin_password: Some(s("pw")),
    };
    let env = service_environment(&c);
    let expected = vec![
        (s("NODE_ENV"), s("production")),
        (s("PORT"), s("3000")),
        (s("DESKTOP"), s("true")),
        (s("FRONTEND_ORIGIN"), s("http://localhost:5173,tauri://localhost,https://tauri.localhost")),
        (s("AUTH_COOKIE_SECURE"), s("false")),
        (s("MASTER_DATABASE_URL"), s("file:/m.db")),
        (s("DATABASE_URL"), s("file:/d.db")),
        (s("AUTH_TOKEN_SECRET"), s("ff00")),
        (s("AUTH_BOOTSTRAP_USER"), s("admin@local")),
        (s("AUTH_BOOTSTRAP_PASSWORD"), s("pw")),
    ];
    assert_eq!(env, expected);
    let dev = ServiceConfig { development: true, ..c };
    assert_eq!(service_environment(&dev)[0].1, "development");
    assert!(inherit_output(true));
    assert!(!inherit_output(false));
}

#[test]
fn service_entry_must_exist() {
    let e = service_entry("/core");
    assert_eq!(e, "/core/dist/main.js");
    assert_eq!(require_entry(e.clone(), true).unwrap(), "/core/dist/main.js");
    match require_entry(e, false) {
        Err(SetupError::EntryMissing { expected }) => assert_eq!(expected, "/core/dist/main.js"),
        other => panic!("unexpected {:?}", other),
    }
}

#[test]
fn zero_deadline_times_out_without_probing() {
    assert_eq!(poll_next(0, 0, None), Poll::TimedOut);
    assert_eq!(poll_next(0, READY_DEADLINE_MS, None), Poll::Probe);
    assert_eq!(poll_next(READY_DEADLINE_MS, READY_DEADLINE_MS, None), Poll::TimedOut);
    assert_eq!(poll_next(10, 100, Some(true)), Poll::Ready);
    assert_eq!(poll_next(10, 100, Some(false)), Poll::Sleep);
}

#[test]
fn taken_port_means_no_launch() {
    let mut l: Lifecycle<u32> = Lifecycle::new();
    assert!(!l.begin(true));
    assert_eq!(l.phase(), Phase::Unmanaged);
    assert_eq!(l.shutdown(), None);
    assert_eq!(l.phase(), Phase::Unmanaged);
}

#[test]
fn double_shutdown_stops_once() {
    let mut l: Lifecycle<u32> = Lifecycle::new();
    assert!(l.begin(false));
    assert_eq!(l.phase(), Phase::Starting);
    assert_eq!(l.started(7), None);
    assert!(l.is_holding());
    assert_eq!(l.shutdown(), Some(7));
    assert_eq!(l.phase(), Phase::Stopped);
    assert_eq!(l.shutdown(), None);
    assert_eq!(l.phase(), Phase::Stopped);
}

#[test]
fn failed_startup_hands_back_the_process() {
    let mut l: Lifecycle<u32> = Lifecycle::new();
    assert!(l.begin(false));
    assert_eq!(l.failed(Some(3)), Some(3));
    assert_eq!(l.phase(), Phase::Failed);
    assert!(!l.is_holding());
    assert_eq!(l.started(4), Some(4));
    assert_eq!(l.shutdown(), None);
}

#[test]
fn fresh_secrets_come_from_the_random_source() {
    let a = prepare_secret(None).expect("random source").secret;
    let b = prepare_secret(None).expect("random source").secret;
    assert_ne!(a, b);
    assert_ne!(a, "0".repeat(64));
}

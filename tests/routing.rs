use cross::session::{
    asks_version, classify, exit_code, Action, Event, Failure, FailureKind, Session, Subcommand,
};
use cross::triple::{is_supported_host, list_contains, needs_emulation, text_eq, TargetCatalog};

struct World {
    host: &'static str,
    root: Option<&'static str>,
    installed: Vec<&'static str>,
    registered: bool,
    status: Option<i32>,
}

fn strings(v: &[&str]) -> Vec<String> {
    v.iter().map(|s| s.to_string()).collect()
}

fn session(sub: Option<&str>, target: Option<&str>, args: &[&str]) -> Session {
    Session::new(
        TargetCatalog::standard(),
        sub,
        target.map(|t| t.to_string()),
        strings(args),
    )
}

fn answer(w: &World, a: &Action) -> Event {
    match a {
        Action::ResolveHost => Event::Host(w.host.to_string()),
        Action::FindRoot => Event::Root(Ok(w.root.map(|r| r.to_string()))),
        Action::ListInstalled => Event::InstalledTargets(Ok(strings(&w.installed))),
        Action::Install { .. } => Event::Installed(Ok(())),
        Action::QueryEmulation => Event::Emulation(Ok(w.registered)),
        Action::RegisterEmulation => Event::Registered(Ok(())),
        Action::RunNative { .. } | Action::RunContainer { .. } => Event::Exited(Ok(w.status)),
        Action::Exit { .. } | Action::Fail { .. } => panic!("the invocation has ended"),
    }
}

fn drive(mut s: Session, w: &World) -> Vec<Action> {
    let mut out = Vec::new();
    let mut event = Event::Begin;
    while !s.is_done() {
        assert!(s.accepts(&event));
        let a = s.step(event);
        out.push(a.clone());
        if s.is_done() {
            break;
        }
        event = answer(w, &a);
    }
    out
}

fn world(host: &'static str, root: Option<&'static str>, installed: Vec<&'static str>) -> World {
    World { host, root, installed, registered: false, status: Some(0) }
}

const HOST: &str = "x86_64-unknown-linux-gnu";

#[test]
fn cross_build_installs_missing_target_without_emulator() {
    let args = ["build", "--target", "aarch64-unknown-linux-gnu"];
    let s = session(Some("build"), Some("aarch64-unknown-linux-gnu"), &args);
    let mut w = world(HOST, Some("/work/project"), vec![]);
    w.status = Some(4);
    let acts = drive(s, &w);
    assert_eq!(
        acts,
        vec![
            Action::ResolveHost,
            Action::FindRoot,
            Action::ListInstalled,
            Action::Install { target: "aarch64-unknown-linux-gnu".to_string() },
            Action::RunContainer {
                target: "aarch64-unknown-linux-gnu".to_string(),
                args: strings(&args),
                root: "/work/project".to_string(),
            },
            Action::Exit { code: 4 },
        ]
    );
}

#[test]
fn cross_test_on_i686_needs_no_installer_nor_emulator() {
    let args = ["test", "--target", "i686-unknown-linux-gnu"];
    let s = session(Some("test"), Some("i686-unknown-linux-gnu"), &args);
    let w = world(HOST, Some("/p"), vec!["x86_64-unknown-linux-gnu", "i686-unknown-linux-gnu"]);
    let acts = drive(s, &w);
    assert_eq!(
        acts,
        vec![
            Action::ResolveHost,
            Action::FindRoot,
            Action::ListInstalled,
            Action::RunContainer {
                target: "i686-unknown-linux-gnu".to_string(),
                args: strings(&args),
                root: "/p".to_string(),
            },
            Action::Exit { code: 0 },
        ]
    );
}

#[test]
fn build_without_project_root_runs_natively() {
    let args = ["build", "--release", "--target", "aarch64-unknown-linux-gnu"];
    let s = session(Some("build"), Some("aarch64-unknown-linux-gnu"), &args);
    let w = world(HOST, None, vec![]);
    let acts = drive(s, &w);
    assert_eq!(
        acts,
        vec![
            Action::ResolveHost,
            Action::FindRoot,
            Action::RunNative { args: strings(&args) },
            Action::Exit { code: 0 },
        ]
    );
}

#[test]
fn unrecognized_subcommand_runs_natively_at_once() {
    let args = ["clippy", "--target", "aarch64-unknown-linux-gnu"];
    let s = session(Some("clippy"), Some("aarch64-unknown-linux-gnu"), &args);
    let w = world(HOST, Some("/p"), vec![]);
    let acts = drive(s, &w);
    assert_eq!(
        acts,
        vec![Action::RunNative { args: strings(&args) }, Action::Exit { code: 0 }]
    );
}

#[test]
fn no_subcommand_runs_natively() {
    let s = session(None, None, &["--version"]);
    let acts = drive(s, &world(HOST, Some("/p"), vec![]));
    assert_eq!(
        acts,
        vec![Action::RunNative { args: strings(&["--version"]) }, Action::Exit { code: 0 }]
    );
}

#[test]
fn uncatalogued_target_runs_natively() {
    let args = ["build", "--target", "wasm32-unknown-unknown"];
    let s = session(Some("build"), Some("wasm32-unknown-unknown"), &args);
    let acts = drive(s, &world(HOST, Some("/p"), vec![]));
    assert_eq!(
        acts,
        vec![
            Action::ResolveHost,
            Action::FindRoot,
            Action::RunNative { args: strings(&args) },
            Action::Exit { code: 0 },
        ]
    );
}

#[test]
fn unsupported_host_runs_natively() {
    let args = ["build", "--target", "aarch64-unknown-linux-gnu"];
    let s = session(Some("build"), Some("aarch64-unknown-linux-gnu"), &args);
    let acts = drive(s, &world("aarch64-apple-darwin", Some("/p"), vec![]));
    assert_eq!(acts[2], Action::RunNative { args: strings(&args) });
    assert_eq!(acts.len(), 4);
}

#[test]
fn missing_target_defaults_to_host() {
    let s = session(Some("build"), None, &["build"]);
    let acts = drive(s, &world(HOST, Some("/p"), vec![HOST]));
    assert_eq!(
        acts[3],
        Action::RunContainer {
            target: HOST.to_string(),
            args: strings(&["build"]),
            root: "/p".to_string(),
        }
    );
    assert_eq!(acts.len(), 5);
}

#[test]
fn run_on_foreign_target_registers_emulator_when_absent() {
    let args = ["run", "--target", "mips-unknown-linux-gnu"];
    let s = session(Some("run"), Some("mips-unknown-linux-gnu"), &args);
    let acts = drive(s, &world(HOST, Some("/p"), vec!["mips-unknown-linux-gnu"]));
    assert_eq!(
        acts,
        vec![
            Action::ResolveHost,
            Action::FindRoot,
            Action::ListInstalled,
            Action::QueryEmulation,
            Action::RegisterEmulation,
            Action::RunContainer {
                target: "mips-unknown-linux-gnu".to_string(),
                args: strings(&args),
                root: "/p".to_string(),
            },
            Action::Exit { code: 0 },
        ]
    );
}

#[test]
fn run_on_foreign_target_skips_registration_when_present() {
    let args = ["test", "--target", "s390x-unknown-linux-gnu"];
    let s = session(Some("test"), Some("s390x-unknown-linux-gnu"), &args);
    let mut w = world(HOST, Some("/p"), vec![]);
    w.registered = true;
    let acts = drive(s, &w);
    assert_eq!(acts[3], Action::Install { target: "s390x-unknown-linux-gnu".to_string() });
    assert_eq!(acts[4], Action::QueryEmulation);
    assert!(matches!(acts[5], Action::RunContainer { .. }));
    assert!(!acts.contains(&Action::RegisterEmulation));
}

#[test]
fn rustc_on_foreign_target_never_registers() {
    let args = ["rustc", "--target", "powerpc-unknown-linux-gnu"];
    let s = session(Some("rustc"), Some("powerpc-unknown-linux-gnu"), &args);
    let acts = drive(s, &world(HOST, Some("/p"), vec!["powerpc-unknown-linux-gnu"]));
    assert!(!acts.contains(&Action::QueryEmulation));
    assert!(!acts.contains(&Action::RegisterEmulation));
}

#[test]
fn second_invocation_does_not_reinstall() {
    let args = ["build", "--target", "armv7-unknown-linux-gnueabihf"];
    let first = drive(
        session(Some("build"), Some("armv7-unknown-linux-gnueabihf"), &args),
        &world(HOST, Some("/p"), vec![]),
    );
    assert_eq!(first[3], Action::Install { target: "armv7-unknown-linux-gnueabihf".to_string() });
    let second = drive(
        session(Some("build"), Some("armv7-unknown-linux-gnueabihf"), &args),
        &world(HOST, Some("/p"), vec!["armv7-unknown-linux-gnueabihf"]),
    );
    assert!(!second.iter().any(|a| matches!(a, Action::Install { .. })));
}

#[test]
fn exit_code_of_delegated_process_is_kept() {
    let mut w = world(HOST, Some("/p"), vec![]);
    w.status = Some(3);
    let acts = drive(session(Some("fmt"), None, &["fmt"]), &w);
    assert_eq!(acts.last(), Some(&Action::Exit { code: 3 }));
    w.status = None;
    let acts = drive(session(Some("fmt"), None, &["fmt"]), &w);
    assert_eq!(acts.last(), Some(&Action::Exit { code: 1 }));
}

#[test]
fn exit_code_values() {
    assert_eq!(exit_code(Some(0)), 0);
    assert_eq!(exit_code(Some(3)), 3);
    assert_eq!(exit_code(Some(101)), 101);
    assert_eq!(exit_code(None), 1);
}

fn causes() -> Vec<String> {
    strings(&["outer", "inner"])
}

#[test]
fn root_lookup_failure_is_fatal() {
    let mut s = session(Some("build"), None, &["build"]);
    assert_eq!(s.step(Event::Begin), Action::ResolveHost);
    assert_eq!(s.step(Event::Host(HOST.to_string())), Action::FindRoot);
    let a = s.step(Event::Root(Err(causes())));
    assert_eq!(a, Action::Fail { failure: Failure { kind: FailureKind::ProjectRoot, causes: causes() } });
    assert!(s.is_done());
}

fn to_installed(s: &mut Session) {
    assert_eq!(s.step(Event::Begin), Action::ResolveHost);
    assert_eq!(s.step(Event::Host(HOST.to_string())), Action::FindRoot);
    assert_eq!(s.step(Event::Root(Ok(Some("/p".to_string())))), Action::ListInstalled);
}

#[test]
fn listing_failure_is_fatal() {
    let mut s = session(Some("run"), Some("aarch64-unknown-linux-gnu"), &["run"]);
    to_installed(&mut s);
    let a = s.step(Event::InstalledTargets(Err(causes())));
    assert_eq!(a, Action::Fail { failure: Failure { kind: FailureKind::InstalledTargets, causes: causes() } });
}

#[test]
fn install_failure_is_fatal() {
    let mut s = session(Some("run"), Some("aarch64-unknown-linux-gnu"), &["run"]);
    to_installed(&mut s);
    assert!(matches!(s.step(Event::InstalledTargets(Ok(vec![]))), Action::Install { .. }));
    let a = s.step(Event::Installed(Err(causes())));
    assert_eq!(a, Action::Fail { failure: Failure { kind: FailureKind::Install, causes: causes() } });
    assert!(s.is_done());
}

#[test]
fn emulation_query_and_register_failures_are_fatal() {
    let mut s = session(Some("run"), Some("aarch64-unknown-linux-gnu"), &["run"]);
    to_installed(&mut s);
    let installed = strings(&["aarch64-unknown-linux-gnu"]);
    assert_eq!(s.step(Event::InstalledTargets(Ok(installed.clone()))), Action::QueryEmulation);
    let a = s.step(Event::Emulation(Err(causes())));
    assert_eq!(a, Action::Fail { failure: Failure { kind: FailureKind::Registration, causes: causes() } });

    let mut s = session(Some("run"), Some("aarch64-unknown-linux-gnu"), &["run"]);
    to_installed(&mut s);
    assert_eq!(s.step(Event::InstalledTargets(Ok(installed))), Action::QueryEmulation);
    assert_eq!(s.step(Event::Emulation(Ok(false))), Action::RegisterEmulation);
    let a = s.step(Event::Registered(Err(causes())));
    assert_eq!(a, Action::Fail { failure: Failure { kind: FailureKind::Registration, causes: causes() } });
}

#[test]
fn launch_failure_is_fatal() {
    let mut s = session(Some("doc"), None, &["doc"]);
    assert!(matches!(s.step(Event::Begin), Action::RunNative { .. }));
    assert!(!s.accepts(&Event::Begin));
    assert!(s.accepts(&Event::Exited(Ok(Some(0)))));
    let a = s.step(Event::Exited(Err(causes())));
    assert_eq!(a, Action::Fail { failure: Failure { kind: FailureKind::Launch, causes: causes() } });
    assert!(s.is_done());
}

#[test]
fn failure_report_lists_causes() {
    let f = Failure { kind: FailureKind::Install, causes: causes() };
    assert_eq!(
        f.report(),
        strings(&[
            "error: could not install the target's toolchain component",
            "caused by: outer",
            "caused by: inner",
        ])
    );
}

#[test]
fn classify_subcommands() {
    assert_eq!(classify(Some("build")), Subcommand::Build);
    assert_eq!(classify(Some("run")), Subcommand::Run);
    assert_eq!(classify(Some("rustc")), Subcommand::Rustc);
    assert_eq!(classify(Some("test")), Subcommand::Test);
    assert_eq!(classify(Some("clippy")), Subcommand::Other);
    assert_eq!(classify(Some("Build")), Subcommand::Other);
    assert_eq!(classify(None), Subcommand::Other);
}

#[test]
fn version_flag_detection() {
    assert!(asks_version(&strings(&["build", "--version"])));
    assert!(asks_version(&strings(&["-V"])));
    assert!(!asks_version(&strings(&["build", "-v", "--versions"])));
    assert!(!asks_version(&Vec::new()));
}

#[test]
fn standard_catalog_membership() {
    let c = TargetCatalog::standard();
    assert_eq!(c.triples.len(), 12);
    assert!(c.contains("aarch64-unknown-linux-gnu"));
    assert!(c.contains("x86_64-unknown-linux-gnu"));
    assert!(c.contains("s390x-unknown-linux-gnu"));
    assert!(!c.contains("x86_64-pc-windows-gnu"));
    assert!(!c.contains("aarch64-unknown-linux-gn"));
    assert!(!c.contains(""));
}

#[test]
fn smaller_catalog_can_be_injected() {
    let c = TargetCatalog::new(strings(&["mips-unknown-linux-gnu"]));
    let args = ["build", "--target", "aarch64-unknown-linux-gnu"];
    let s = Session::new(c, Some("build"), Some("aarch64-unknown-linux-gnu".to_string()), strings(&args));
    let acts = drive(s, &world(HOST, Some("/p"), vec![]));
    assert_eq!(acts[2], Action::RunNative { args: strings(&args) });
}

#[test]
fn triple_helpers() {
    assert!(text_eq("abc", "abc"));
    assert!(!text_eq("abc", "abd"));
    assert!(is_supported_host("x86_64-unknown-linux-gnu"));
    assert!(!is_supported_host("i686-unknown-linux-gnu"));
    assert!(!needs_emulation("i686-unknown-linux-gnu"));
    assert!(!needs_emulation("x86_64-unknown-linux-gnu"));
    assert!(needs_emulation("aarch64-unknown-linux-gnu"));
    assert!(list_contains(&strings(&["a", "b"]), "b"));
    assert!(!list_contains(&strings(&["a", "b"]), "c"));
    assert!(!list_contains(&Vec::new(), "a"));
}

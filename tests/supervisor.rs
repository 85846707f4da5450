use splash_supervisor::controller::{transition, Reaction, Supervisor, UiState};
use splash_supervisor::launch::{
    packaged_plan, resolve_launch_plan, termination_command, HostKind, ResolveError, RuntimeMode,
};
use splash_supervisor::status::{chars_of, classify_line, contains_chars, LifecycleStatus};

fn lines(v: &[&str]) -> Vec<String> {
    v.iter().map(|s| s.to_string()).collect()
}

fn notified(r: &Reaction) -> Option<String> {
    match r {
        Reaction::Notify(m) => Some(m.clone()),
        _ => None,
    }
}

#[test]
fn classify_by_substring() {
    assert_eq!(classify_line("STATUS: DOWNLOADING_DATA x"), LifecycleStatus::Downloading);
    assert_eq!(classify_line("INFO STATUS: EXTRACTING_DATA now"), LifecycleStatus::Extracting);
    assert_eq!(classify_line("STATUS: INITIALIZING_ENGINE"), LifecycleStatus::InitializingEngine);
    assert_eq!(classify_line(">> STATUS: READY <<"), LifecycleStatus::Ready);
    assert_eq!(classify_line("hello"), LifecycleStatus::Unclassified);
    assert_eq!(classify_line(""), LifecycleStatus::Unclassified);
    assert_eq!(classify_line("STATUS: READ"), LifecycleStatus::Unclassified);
    assert_eq!(classify_line("status: ready"), LifecycleStatus::Unclassified);
}

#[test]
fn classify_priority_order() {
    assert_eq!(
        classify_line("STATUS: READY STATUS: DOWNLOADING_DATA"),
        LifecycleStatus::Downloading
    );
    assert_eq!(
        classify_line("STATUS: INITIALIZING_ENGINE STATUS: EXTRACTING_DATA"),
        LifecycleStatus::Extracting
    );
    assert_eq!(
        classify_line("STATUS: READY STATUS: INITIALIZING_ENGINE"),
        LifecycleStatus::InitializingEngine
    );
}

#[test]
fn contains_edge_cases() {
    assert!(contains_chars(&chars_of("abc"), &chars_of("")));
    assert!(contains_chars(&chars_of("abc"), &chars_of("abc")));
    assert!(contains_chars(&chars_of("xxabc"), &chars_of("abc")));
    assert!(!contains_chars(&chars_of("ab"), &chars_of("abc")));
    assert!(!contains_chars(&chars_of("abxbc"), &chars_of("abc")));
    assert_eq!(chars_of("né"), vec!['n', 'é']);
}

#[test]
fn progress_lines_notify_without_state_change() {
    let mut s = Supervisor::new();
    let o = s.handle_line("STATUS: DOWNLOADING_DATA");
    assert_eq!(
        notified(&o.reaction).as_deref(),
        Some("Downloading knowledge base... (this may take a while)")
    );
    assert_eq!(s.state, UiState::Splash);
    let o = s.handle_line("STATUS: EXTRACTING_DATA");
    assert_eq!(notified(&o.reaction).as_deref(), Some("Extracting ancient wisdom..."));
    let o = s.handle_line("STATUS: INITIALIZING_ENGINE");
    assert_eq!(notified(&o.reaction).as_deref(), Some("Initializing AI engine..."));
    assert_eq!(s.state, UiState::Splash);
}

#[test]
fn first_ready_switches_once() {
    let mut s = Supervisor::new();
    let o = s.handle_line("STATUS: READY");
    assert!(matches!(o.reaction, Reaction::SwitchToMain));
    assert_eq!(s.state, UiState::Main);
}

#[test]
fn ready_in_main_is_idle() {
    let (st, r) = transition(UiState::Main, LifecycleStatus::Ready);
    assert_eq!(st, UiState::Main);
    assert!(matches!(r, Reaction::Nothing));
}

#[test]
fn passthrough_is_traced_only() {
    let mut s = Supervisor::new();
    let o = s.handle_line("hello world");
    assert_eq!(o.trace, "[BACKEND]: hello world");
    assert_eq!(o.status, LifecycleStatus::Unclassified);
    assert!(matches!(o.reaction, Reaction::Nothing));
    assert_eq!(s.state, UiState::Splash);
}

#[test]
fn progress_after_ready_still_notifies() {
    let mut s = Supervisor::new();
    let out = s.handle_lines(&lines(&["STATUS: READY", "STATUS: DOWNLOADING_DATA"]));
    assert!(matches!(out[0].reaction, Reaction::SwitchToMain));
    assert_eq!(
        notified(&out[1].reaction).as_deref(),
        Some("Downloading knowledge base... (this may take a while)")
    );
    assert_eq!(s.state, UiState::Main);
}

#[test]
fn scenario_progress_then_ready() {
    let mut s = Supervisor::new();
    let out = s.handle_lines(&lines(&[
        "STATUS: DOWNLOADING_DATA x",
        "STATUS: EXTRACTING_DATA",
        "STATUS: READY",
    ]));
    assert_eq!(out.len(), 3);
    assert_eq!(
        notified(&out[0].reaction).as_deref(),
        Some("Downloading knowledge base... (this may take a while)")
    );
    assert_eq!(notified(&out[1].reaction).as_deref(), Some("Extracting ancient wisdom..."));
    assert!(matches!(out[2].reaction, Reaction::SwitchToMain));
    assert_eq!(s.state, UiState::Main);
}

#[test]
fn scenario_passthrough_and_repeated_ready() {
    let mut s = Supervisor::new();
    let out = s.handle_lines(&lines(&["hello", "STATUS: READY", "STATUS: READY"]));
    assert_eq!(out[0].trace, "[BACKEND]: hello");
    assert!(matches!(out[0].reaction, Reaction::Nothing));
    assert!(matches!(out[1].reaction, Reaction::SwitchToMain));
    assert!(matches!(out[2].reaction, Reaction::Nothing));
    let shown = out.iter().filter(|o| !matches!(o.reaction, Reaction::Nothing)).count();
    assert_eq!(shown, 1);
    assert_eq!(s.state, UiState::Main);
}

#[test]
fn scenario_spawn_failure() {
    let s = Supervisor::new();
    let msg = s.spawn_failed("program not found");
    assert_eq!(msg, "Error: program not found");
    assert_eq!(s.state, UiState::Splash);
}

#[test]
fn scenario_packaged_resource_missing() {
    let r = resolve_launch_plan(RuntimeMode::Packaged, "/work", None);
    assert_eq!(r.err(), Some(ResolveError::ResourceMissing));
}

#[test]
fn development_plan() {
    let p = resolve_launch_plan(RuntimeMode::Development, "/work", None).unwrap();
    assert_eq!(p.executable, "python");
    let expected = std::path::Path::new("/work").join("rag").join("rag_api_server.py");
    assert_eq!(p.arguments, vec![expected.to_string_lossy().into_owned()]);
    assert_eq!(p.working_directory, "/work");
}

#[test]
fn packaged_plan_runs_in_parent() {
    let p = resolve_launch_plan(
        RuntimeMode::Packaged,
        "/ignored",
        Some("/opt/app/rag_api_server.exe".to_string()),
    )
    .unwrap();
    assert_eq!(p.executable, "/opt/app/rag_api_server.exe");
    assert!(p.arguments.is_empty());
    assert_eq!(p.working_directory, "/opt/app");
}

#[test]
fn packaged_plan_without_parent() {
    let r = resolve_launch_plan(RuntimeMode::Packaged, "/work", Some("/".to_string()));
    assert_eq!(r.err(), Some(ResolveError::NoParentDirectory));
    let r = packaged_plan("x", None);
    assert_eq!(r.err(), Some(ResolveError::NoParentDirectory));
    let p = packaged_plan("/a/x.exe", Some("/a".to_string())).unwrap();
    assert_eq!(p.working_directory, "/a");
}

#[test]
fn termination_by_image_name() {
    let c = termination_command(HostKind::Windows).unwrap();
    assert_eq!(c.program, "taskkill");
    assert_eq!(c.arguments, vec!["/F", "/IM", "rag_api_server.exe"]);
    assert!(termination_command(HostKind::Other).is_none());
}

use svc_supervisor::launcher::ServiceSpec;
use svc_supervisor::launcher::build_command;
use svc_supervisor::launcher::path_join;
use svc_supervisor::launcher::resolve_executable;

fn plain_spec(interpreter: Option<String>, args: Vec<String>) -> ServiceSpec {
    ServiceSpec {
        name: "svc".to_string(),
        exe_candidates: Vec::new(),
        interpreter,
        args,
        working_dir: None,
        env: Vec::new(),
        ensure_dirs: Vec::new(),
        probe_host: "127.0.0.1".to_string(),
        probe_port: 9,
        probe_timeout_ms: 1000,
        launch_required: true,
        ready_required: true,
        grace_ms: 0,
    }
}

#[test]
fn resolution_picks_the_only_existing_candidate() {
    let candidates = vec!["A".to_string(), "B".to_string(), "C".to_string()];
    let exists = vec![false, true, false];
    let r = resolve_executable(&candidates, &exists);
    assert_eq!(r, Some(1));
    assert_eq!(candidates[r.unwrap()], "B");
}

#[test]
fn resolution_prefers_the_earliest_existing_candidate() {
    let candidates = vec!["A".to_string(), "B".to_string(), "C".to_string()];
    let exists = vec![false, true, true];
    assert_eq!(resolve_executable(&candidates, &exists), Some(1));
}

#[test]
fn resolution_fails_when_nothing_exists() {
    let candidates = vec!["A".to_string(), "B".to_string()];
    let exists = vec![false, false];
    assert_eq!(resolve_executable(&candidates, &exists), None);
}

#[test]
fn resolution_of_empty_candidate_list_fails() {
    let candidates: Vec<String> = Vec::new();
    let exists: Vec<bool> = Vec::new();
    assert_eq!(resolve_executable(&candidates, &exists), None);
}

#[test]
fn path_join_uses_one_separator() {
    assert_eq!(path_join("/opt/app", "backend"), "/opt/app/backend");
    assert_eq!(path_join("", "x"), "/x");
}

#[test]
fn command_without_interpreter_runs_the_resolved_path() {
    let spec = plain_spec(None, vec!["--flag".to_string(), "7".to_string()]);
    let (program, args) = build_command(&spec, "/bin/tool");
    assert_eq!(program, "/bin/tool");
    assert_eq!(args, vec!["--flag".to_string(), "7".to_string()]);
}

#[test]
fn command_with_interpreter_passes_the_resolved_path_first() {
    let spec = plain_spec(Some("node".to_string()), vec!["--trace".to_string()]);
    let (program, args) = build_command(&spec, "/srv/main.js");
    assert_eq!(program, "node");
    assert_eq!(args, vec!["/srv/main.js".to_string(), "--trace".to_string()]);
}

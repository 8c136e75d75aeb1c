use svc_supervisor::launcher::ServiceSpec;
use svc_supervisor::supervisor::Action;
use svc_supervisor::supervisor::Phase;
use svc_supervisor::supervisor::ProbeOutcome;
use svc_supervisor::supervisor::StopStep;
use svc_supervisor::supervisor::Supervisor;

fn stage(name: &str, launch_required: bool, ready_required: bool, grace_ms: u64) -> ServiceSpec {
    ServiceSpec {
        name: name.to_string(),
        exe_candidates: vec![format!("/bin/{}", name)],
        interpreter: None,
        args: Vec::new(),
        working_dir: None,
        env: Vec::new(),
        ensure_dirs: Vec::new(),
        probe_host: "127.0.0.1".to_string(),
        probe_port: 4000,
        probe_timeout_ms: 30000,
        launch_required,
        ready_required,
        grace_ms,
    }
}

fn two_stage_supervisor() -> Supervisor {
    Supervisor::new(vec![
        stage("storage", true, true, 2000),
        stage("backend", true, false, 0),
    ])
}

#[test]
fn all_success_run_walks_stages_in_order() {
    let mut sup = two_stage_supervisor();
    assert_eq!(sup.current_phase(), Phase::NotStarted);
    assert_eq!(sup.start(), Action::LaunchStage { stage: 0 });
    assert_eq!(sup.current_phase(), Phase::Launching { stage: 0 });
    assert_eq!(sup.on_launch_ok(11), Action::ProbeStage { stage: 0 });
    assert_eq!(sup.current_phase(), Phase::AwaitingReady { stage: 0 });
    let (a, stops) = sup.on_probe_done(ProbeOutcome::Ready);
    assert_eq!(a, Action::LaunchStage { stage: 1 });
    assert!(stops.is_empty());
    assert_eq!(sup.on_launch_ok(22), Action::ProbeStage { stage: 1 });
    let (a, stops) = sup.on_probe_done(ProbeOutcome::Ready);
    assert_eq!(a, Action::ReportRunning);
    assert!(stops.is_empty());
    assert_eq!(sup.current_phase(), Phase::Running);
    assert_eq!(sup.handle_at(0), Some(11));
    assert_eq!(sup.handle_at(1), Some(22));
}

#[test]
fn empty_pipeline_runs_at_once() {
    let mut sup = Supervisor::new(Vec::new());
    assert_eq!(sup.start(), Action::ReportRunning);
    assert_eq!(sup.current_phase(), Phase::Running);
}

#[test]
fn required_launch_failure_aborts_before_later_stages() {
    let mut sup = two_stage_supervisor();
    sup.start();
    let (a, stops) = sup.on_launch_failed();
    assert_eq!(a, Action::FailStartup);
    assert!(stops.is_empty());
    assert_eq!(sup.current_phase(), Phase::Failed);
    // Nothing beyond stage 0 is ever launched: later events are ignored.
    assert_eq!(sup.on_launch_ok(99), Action::Ignore);
    let (a, stops) = sup.on_probe_done(ProbeOutcome::Ready);
    assert_eq!(a, Action::Ignore);
    assert!(stops.is_empty());
    assert_eq!(sup.current_phase(), Phase::Failed);
}

#[test]
fn required_launch_failure_stops_already_launched_stages() {
    let mut sup = two_stage_supervisor();
    sup.start();
    sup.on_launch_ok(11);
    sup.on_probe_done(ProbeOutcome::Ready);
    let (a, stops) = sup.on_launch_failed();
    assert_eq!(a, Action::FailStartup);
    assert_eq!(stops, vec![StopStep { stage: 0, handle: 11, grace_ms: 2000 }]);
    assert_eq!(sup.current_phase(), Phase::Failed);
    assert_eq!(sup.handle_at(0), None);
}

#[test]
fn required_probe_timeout_aborts_and_stops_orphans() {
    let mut sup = two_stage_supervisor();
    sup.start();
    sup.on_launch_ok(11);
    let (a, stops) = sup.on_probe_done(ProbeOutcome::TimedOut);
    assert_eq!(a, Action::FailStartup);
    // The just-launched storage process is itself stopped, not leaked.
    assert_eq!(stops, vec![StopStep { stage: 0, handle: 11, grace_ms: 2000 }]);
    assert_eq!(sup.current_phase(), Phase::Failed);
}

#[test]
fn early_exit_counts_as_probe_timeout() {
    let mut sup = two_stage_supervisor();
    sup.start();
    sup.on_launch_ok(11);
    let (a, _) = sup.on_probe_done(ProbeOutcome::ExitedEarly);
    assert_eq!(a, Action::FailStartup);
    assert_eq!(sup.current_phase(), Phase::Failed);
}

#[test]
fn best_effort_probe_failure_degrades_but_proceeds() {
    let mut sup = two_stage_supervisor();
    sup.start();
    sup.on_launch_ok(11);
    sup.on_probe_done(ProbeOutcome::Ready);
    sup.on_launch_ok(22);
    // The backend stage's readiness is best-effort: a timeout is logged
    // and the pipeline still reports success.
    let (a, stops) = sup.on_probe_done(ProbeOutcome::TimedOut);
    assert_eq!(a, Action::ReportRunning);
    assert!(stops.is_empty());
    assert_eq!(sup.current_phase(), Phase::Running);
    assert_eq!(sup.handle_at(1), Some(22));
}

#[test]
fn best_effort_launch_failure_skips_the_stage() {
    let mut sup = Supervisor::new(vec![
        stage("storage", true, true, 2000),
        stage("aux", false, false, 0),
    ]);
    sup.start();
    sup.on_launch_ok(11);
    sup.on_probe_done(ProbeOutcome::Ready);
    let (a, stops) = sup.on_launch_failed();
    assert_eq!(a, Action::ReportRunning);
    assert!(stops.is_empty());
    assert_eq!(sup.current_phase(), Phase::Running);
    assert_eq!(sup.handle_at(1), None);
}

#[test]
fn shutdown_stops_handles_in_reverse_order() {
    let mut sup = two_stage_supervisor();
    sup.start();
    sup.on_launch_ok(11);
    sup.on_probe_done(ProbeOutcome::Ready);
    sup.on_launch_ok(22);
    sup.on_probe_done(ProbeOutcome::Ready);
    let plan = sup.request_shutdown();
    assert_eq!(
        plan,
        vec![
            StopStep { stage: 1, handle: 22, grace_ms: 0 },
            StopStep { stage: 0, handle: 11, grace_ms: 2000 },
        ]
    );
    assert_eq!(sup.current_phase(), Phase::ShuttingDown);
    sup.notify_stopped();
    assert_eq!(sup.current_phase(), Phase::Stopped);
}

#[test]
fn second_shutdown_is_a_no_op() {
    let mut sup = two_stage_supervisor();
    sup.start();
    sup.on_launch_ok(11);
    sup.on_probe_done(ProbeOutcome::Ready);
    sup.on_launch_ok(22);
    sup.on_probe_done(ProbeOutcome::Ready);
    let first = sup.request_shutdown();
    assert_eq!(first.len(), 2);
    let second = sup.request_shutdown();
    assert!(second.is_empty());
    sup.notify_stopped();
    let third = sup.request_shutdown();
    assert!(third.is_empty());
    assert_eq!(sup.current_phase(), Phase::Stopped);
}

#[test]
fn shutdown_during_startup_takes_what_was_launched() {
    let mut sup = two_stage_supervisor();
    sup.start();
    sup.on_launch_ok(11);
    // The host asks to close while stage 0 is still awaiting readiness.
    let plan = sup.request_shutdown();
    assert_eq!(plan, vec![StopStep { stage: 0, handle: 11, grace_ms: 2000 }]);
    assert_eq!(sup.current_phase(), Phase::ShuttingDown);
    // The startup path, resuming after the race, finds its events ignored.
    let (a, stops) = sup.on_probe_done(ProbeOutcome::Ready);
    assert_eq!(a, Action::Ignore);
    assert!(stops.is_empty());
    assert_eq!(sup.handle_at(0), None);
}

#[test]
fn shutdown_before_any_launch_stops_nothing() {
    let mut sup = two_stage_supervisor();
    let plan = sup.request_shutdown();
    assert!(plan.is_empty());
    assert_eq!(sup.current_phase(), Phase::ShuttingDown);
}

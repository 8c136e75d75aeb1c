use svc_supervisor::prober::ProbeVerdict;
use svc_supervisor::prober::Prober;

#[test]
fn accepting_endpoint_is_ready_at_once() {
    let mut p = Prober::new(30000, 500);
    assert_eq!(p.on_attempt(true), ProbeVerdict::Ready);
    assert_eq!(p.elapsed_ms, 0);
}

#[test]
fn endpoint_accepting_before_timeout_is_ready_within_one_backoff() {
    // The endpoint starts accepting at 1200 ms; attempts run at 0, 500,
    // 1000, 1500 ms, so the prober reports ready at 1500 ms <= 1200 + 500.
    let accept_at: u64 = 1200;
    let mut p = Prober::new(30000, 500);
    let mut verdict = p.on_attempt(p.elapsed_ms >= accept_at);
    while verdict == ProbeVerdict::RetryAfterBackoff {
        verdict = p.on_attempt(p.elapsed_ms >= accept_at);
    }
    assert_eq!(verdict, ProbeVerdict::Ready);
    assert_eq!(p.elapsed_ms, 1500);
    assert!(p.elapsed_ms <= accept_at + 500);
}

#[test]
fn never_accepting_endpoint_times_out_not_early() {
    let mut p = Prober::new(2000, 500);
    let mut attempts: u64 = 0;
    loop {
        attempts += 1;
        match p.on_attempt(false) {
            ProbeVerdict::Ready => panic!("never accepted"),
            ProbeVerdict::RetryAfterBackoff => continue,
            ProbeVerdict::TimedOut => break,
        }
    }
    // Attempts at 0, 500, 1000, 1500 ms; the verdict arrives once the next
    // attempt could not start before the 2000 ms budget has elapsed.
    assert_eq!(attempts, 4);
    assert_eq!(p.elapsed_ms, 2000);
    assert!(p.elapsed_ms >= p.timeout_ms);
}

#[test]
fn backoff_longer_than_budget_gives_one_attempt() {
    let mut p = Prober::new(300, 500);
    assert_eq!(p.on_attempt(false), ProbeVerdict::TimedOut);
    assert_eq!(p.elapsed_ms, 300);
}

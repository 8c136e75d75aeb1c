use svc_supervisor::logger::EventLog;
use svc_supervisor::logger::LogLevel;
use svc_supervisor::logger::format_line;

#[test]
fn line_format_is_exact() {
    let line = format_line("2024-01-02 03:04:05", LogLevel::Info, "MongoDB is ready");
    assert_eq!(line, "[2024-01-02 03:04:05] [INFO] MongoDB is ready");
    let warn = format_line("t", LogLevel::Warn, "degraded");
    assert_eq!(warn, "[t] [WARN] degraded");
    let err = format_line("t", LogLevel::Error, "spawn failed");
    assert_eq!(err, "[t] [ERROR] spawn failed");
}

#[test]
fn labels_match_the_levels() {
    assert_eq!(LogLevel::Info.label(), "INFO");
    assert_eq!(LogLevel::Warn.label(), "WARN");
    assert_eq!(LogLevel::Error.label(), "ERROR");
}

#[test]
fn uninitialized_log_is_console_only() {
    let mut log = EventLog::new();
    let line = log.log("t0", LogLevel::Info, "starting");
    assert_eq!(line, "[t0] [INFO] starting");
    assert!(log.persisted_lines().is_empty());
}

#[test]
fn initialized_log_persists_in_order() {
    let mut log = EventLog::new();
    log.sink_opened();
    log.log("t0", LogLevel::Info, "starting MongoDB");
    log.log("t1", LogLevel::Warn, "backend probe skipped");
    let lines = log.persisted_lines();
    assert_eq!(
        lines,
        &vec![
            "[t0] [INFO] starting MongoDB".to_string(),
            "[t1] [WARN] backend probe skipped".to_string(),
        ]
    );
}

#[test]
fn failed_sink_falls_back_to_console_only() {
    let mut log = EventLog::new();
    log.sink_failed();
    let line = log.log("t", LogLevel::Error, "boom");
    assert_eq!(line, "[t] [ERROR] boom");
    assert!(log.persisted_lines().is_empty());
    // The lifecycle is final: a later open attempt does not resurrect it.
    log.sink_opened();
    log.log("t2", LogLevel::Info, "still console only");
    assert!(log.persisted_lines().is_empty());
}

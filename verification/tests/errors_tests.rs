use svc_supervisor::errors::StartupError;
use svc_supervisor::errors::join_with;

#[test]
fn join_with_separates_only_between_parts() {
    assert_eq!(join_with(&Vec::new(), ", "), "");
    assert_eq!(join_with(&vec!["a".to_string()], ", "), "a");
    assert_eq!(
        join_with(&vec!["a".to_string(), "b".to_string(), "c".to_string()], ", "),
        "a, b, c"
    );
}

#[test]
fn not_found_message_enumerates_every_tried_path() {
    let e = StartupError::ExecutableNotFound {
        tried: vec!["/res/mongodb/mongod.exe".to_string(), "/res/mongodb/mongod".to_string()],
        listing: vec!["backend".to_string(), "icons".to_string()],
    };
    assert_eq!(
        e.message(),
        "executable not found; tried: /res/mongodb/mongod.exe, /res/mongodb/mongod; \
         nearest directory holds: backend, icons"
    );
}

#[test]
fn spawn_failed_message_carries_the_cause() {
    let e = StartupError::SpawnFailed { cause: "program not found on PATH".to_string() };
    assert_eq!(e.message(), "failed to spawn process: program not found on PATH");
}

#[test]
fn readiness_timeout_message_names_the_service() {
    let e = StartupError::ReadinessTimeout { service: "mongodb".to_string() };
    assert_eq!(e.message(), "service never became reachable: mongodb");
}

#[test]
fn resource_dir_message_names_the_missing_directory() {
    let e = StartupError::ResourceDirUnavailable { what: "resource directory".to_string() };
    assert_eq!(e.message(), "host runtime supplied no resource directory");
}

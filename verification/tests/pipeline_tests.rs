use svc_supervisor::pipeline::backend_stage;
use svc_supervisor::pipeline::standard_pipeline;
use svc_supervisor::pipeline::storage_stage;

#[test]
fn storage_stage_on_windows_is_exact() {
    let s = storage_stage("C:/res", "C:/data", true);
    assert_eq!(s.name, "mongodb");
    assert_eq!(s.exe_candidates, vec!["C:/res/mongodb/mongod.exe".to_string()]);
    assert!(s.interpreter.is_none());
    assert_eq!(
        s.args,
        vec![
            "--dbpath".to_string(),
            "C:/data/data/db".to_string(),
            "--logpath".to_string(),
            "C:/data/data/logs/mongodb.log".to_string(),
            "--bind_ip".to_string(),
            "127.0.0.1".to_string(),
            "--port".to_string(),
            "27017".to_string(),
            "--logappend".to_string(),
        ]
    );
    assert!(s.working_dir.is_none());
    assert!(s.env.is_empty());
    assert_eq!(
        s.ensure_dirs,
        vec!["C:/data/data/db".to_string(), "C:/data/data/logs".to_string()]
    );
    assert_eq!(s.probe_host, "127.0.0.1");
    assert_eq!(s.probe_port, 27017);
    assert_eq!(s.probe_timeout_ms, 30000);
    assert!(s.launch_required);
    assert!(s.ready_required);
    assert_eq!(s.grace_ms, 2000);
}

#[test]
fn storage_stage_elsewhere_drops_the_exe_suffix() {
    let s = storage_stage("/res", "/data", false);
    assert_eq!(s.exe_candidates, vec!["/res/mongodb/mongod".to_string()]);
}

#[test]
fn backend_stage_env_contract_is_exact() {
    let s = backend_stage("/res", false);
    assert_eq!(s.name, "backend");
    assert_eq!(s.exe_candidates, vec!["/res/backend/dist/main.js".to_string()]);
    assert_eq!(s.interpreter, Some("node".to_string()));
    assert!(s.args.is_empty());
    assert_eq!(s.working_dir, Some("/res/backend".to_string()));
    assert_eq!(
        s.env,
        vec![
            ("DESKTOP_MODE".to_string(), "true".to_string()),
            (
                "MONGODB_URI".to_string(),
                "mongodb://127.0.0.1:27017/cafe_pos".to_string()
            ),
            ("PORT".to_string(), "3001".to_string()),
            ("NODE_ENV".to_string(), "production".to_string()),
        ]
    );
    assert_eq!(s.probe_port, 3001);
    assert_eq!(s.probe_timeout_ms, 30000);
    assert!(s.launch_required);
    assert!(!s.ready_required);
    assert_eq!(s.grace_ms, 0);
}

#[test]
fn backend_stage_on_windows_uses_node_exe() {
    let s = backend_stage("/res", true);
    assert_eq!(s.interpreter, Some("node.exe".to_string()));
}

#[test]
fn pipeline_orders_storage_before_backend() {
    let p = standard_pipeline("/res", "/data", false);
    assert_eq!(p.len(), 2);
    assert_eq!(p[0].name, "mongodb");
    assert_eq!(p[1].name, "backend");
    assert_eq!(p[0].probe_port, 27017);
    assert_eq!(p[1].probe_port, 3001);
}

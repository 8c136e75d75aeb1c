//! The concrete two-stage pipeline this supervisor brings up.
//!
//! Stage 0 is the storage engine (`mongod`), stage 1 the application server
//! (a JavaScript bundle run by `node`).  The builders here compute, from the
//! host-supplied resource and application-data directories, the full
//! [`ServiceSpec`] of each stage: candidate executable paths, argument list,
//! environment contract, readiness target, required/best-effort flags and
//! shutdown grace period.  The platform is passed in as a flag so that the
//! Windows executable names are chosen without any conditional compilation.

use vstd::prelude::*;
use crate::launcher::ServiceSpec;

verus! {

/// Port on which the storage engine accepts connections.
pub const STORAGE_PORT: u16 = 27017;

/// Port on which the application server listens.
pub const BACKEND_PORT: u16 = 3001;

/// Default overall budget for one readiness probe.
pub const DEFAULT_PROBE_TIMEOUT_MS: u64 = 30000;

/// Pause after terminating the storage engine, before waiting for its exit,
/// so it can flush state to disk.
pub const STORAGE_GRACE_MS: u64 = 2000;

/// What the storage-engine stage must look like, field by field.
pub open spec fn is_storage_stage(
    s: ServiceSpec,
    resource_dir: Seq<char>,
    app_data_dir: Seq<char>,
    windows: bool,
) -> bool {
    &&& s.name@ == "mongodb"@
    &&& s.exe_candidates@.len() == 1
    &&& s.exe_candidates@[0]@ == resource_dir + "/"@ + (if windows {
        "mongodb/mongod.exe"@
    } else {
        "mongodb/mongod"@
    })
    &&& s.interpreter is None
    &&& s.args@.len() == 9
    &&& s.args@[0]@ == "--dbpath"@
    &&& s.args@[1]@ == app_data_dir + "/"@ + "data/db"@
    &&& s.args@[2]@ == "--logpath"@
    &&& s.args@[3]@ == app_data_dir + "/"@ + "data/logs/mongodb.log"@
    &&& s.args@[4]@ == "--bind_ip"@
    &&& s.args@[5]@ == "127.0.0.1"@
    &&& s.args@[6]@ == "--port"@
    &&& s.args@[7]@ == "27017"@
    &&& s.args@[8]@ == "--logappend"@
    &&& s.working_dir is None
    &&& s.env@.len() == 0
    &&& s.ensure_dirs@.len() == 2
    &&& s.ensure_dirs@[0]@ == app_data_dir + "/"@ + "data/db"@
    &&& s.ensure_dirs@[1]@ == app_data_dir + "/"@ + "data/logs"@
    &&& s.probe_host@ == "127.0.0.1"@
    &&& s.probe_port == STORAGE_PORT
    &&& s.probe_timeout_ms == DEFAULT_PROBE_TIMEOUT_MS
    &&& s.launch_required
    &&& s.ready_required
    &&& s.grace_ms == STORAGE_GRACE_MS
}

/// What the application-server stage must look like, field by field.
pub open spec fn is_backend_stage(
    s: ServiceSpec,
    resource_dir: Seq<char>,
    windows: bool,
) -> bool {
    &&& s.name@ == "backend"@
    &&& s.exe_candidates@.len() == 1
    &&& s.exe_candidates@[0]@ == resource_dir + "/"@ + "backend/dist/main.js"@
    &&& s.interpreter matches Some(i) && i@ == (if windows {
        "node.exe"@
    } else {
        "node"@
    })
    &&& s.args@.len() == 0
    &&& s.working_dir matches Some(w) && w@ == resource_dir + "/"@ + "backend"@
    &&& s.env@.len() == 4
    &&& s.env@[0].0@ == "DESKTOP_MODE"@ && s.env@[0].1@ == "true"@
    &&& s.env@[1].0@ == "MONGODB_URI"@ && s.env@[1].1@
        == "mongodb://127.0.0.1:27017/cafe_pos"@
    &&& s.env@[2].0@ == "PORT"@ && s.env@[2].1@ == "3001"@
    &&& s.env@[3].0@ == "NODE_ENV"@ && s.env@[3].1@ == "production"@
    &&& s.ensure_dirs@.len() == 0
    &&& s.probe_host@ == "127.0.0.1"@
    &&& s.probe_port == BACKEND_PORT
    &&& s.probe_timeout_ms == DEFAULT_PROBE_TIMEOUT_MS
    &&& s.launch_required
    &&& !s.ready_required
    &&& s.grace_ms == 0
}

/// Build the storage-engine stage descriptor.
pub fn storage_stage(resource_dir: &str, app_data_dir: &str, windows: bool) -> (s: ServiceSpec)
    ensures
        is_storage_stage(s, resource_dir@, app_data_dir@, windows),
{
    let exe = if windows {
        crate::launcher::path_join(resource_dir, "mongodb/mongod.exe")
    } else {
        crate::launcher::path_join(resource_dir, "mongodb/mongod")
    };
    let db_dir = crate::launcher::path_join(app_data_dir, "data/db");
    let log_dir = crate::launcher::path_join(app_data_dir, "data/logs");
    let log_file = crate::launcher::path_join(app_data_dir, "data/logs/mongodb.log");
    ServiceSpec {
        name: "mongodb".to_owned(),
        exe_candidates: vec![exe],
        interpreter: None,
        args: vec![
            "--dbpath".to_owned(),
            db_dir.clone(),
            "--logpath".to_owned(),
            log_file,
            "--bind_ip".to_owned(),
            "127.0.0.1".to_owned(),
            "--port".to_owned(),
            "27017".to_owned(),
            "--logappend".to_owned(),
        ],
        working_dir: None,
        env: Vec::new(),
        ensure_dirs: vec![db_dir, log_dir],
        probe_host: "127.0.0.1".to_owned(),
        probe_port: STORAGE_PORT,
        probe_timeout_ms: DEFAULT_PROBE_TIMEOUT_MS,
        launch_required: true,
        ready_required: true,
        grace_ms: STORAGE_GRACE_MS,
    }
}

/// Build the application-server stage descriptor.
pub fn backend_stage(resource_dir: &str, windows: bool) -> (s: ServiceSpec)
    ensures
        is_backend_stage(s, resource_dir@, windows),
{
    let main_js = crate::launcher::path_join(resource_dir, "backend/dist/main.js");
    let backend_dir = crate::launcher::path_join(resource_dir, "backend");
    let node = if windows {
        "node.exe".to_owned()
    } else {
        "node".to_owned()
    };
    ServiceSpec {
        name: "backend".to_owned(),
        exe_candidates: vec![main_js],
        interpreter: Some(node),
        args: Vec::new(),
        working_dir: Some(backend_dir),
        env: vec![
            ("DESKTOP_MODE".to_owned(), "true".to_owned()),
            ("MONGODB_URI".to_owned(), "mongodb://127.0.0.1:27017/cafe_pos".to_owned()),
            ("PORT".to_owned(), "3001".to_owned()),
            ("NODE_ENV".to_owned(), "production".to_owned()),
        ],
        ensure_dirs: Vec::new(),
        probe_host: "127.0.0.1".to_owned(),
        probe_port: BACKEND_PORT,
        probe_timeout_ms: DEFAULT_PROBE_TIMEOUT_MS,
        launch_required: true,
        ready_required: false,
        grace_ms: 0,
    }
}

/// Build the whole pipeline in dependency order: storage engine first, then
/// the application server.
pub fn standard_pipeline(resource_dir: &str, app_data_dir: &str, windows: bool) -> (r: Vec<
    ServiceSpec,
>)
    ensures
        r@.len() == 2,
        is_storage_stage(r@[0], resource_dir@, app_data_dir@, windows),
        is_backend_stage(r@[1], resource_dir@, windows),
{
    let storage = storage_stage(resource_dir, app_data_dir, windows);
    let backend = backend_stage(resource_dir, windows);
    vec![storage, backend]
}

} // verus!

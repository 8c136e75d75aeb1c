//! Service descriptors and the launch-time decisions.
//!
//! A [`ServiceSpec`] describes one stage of the pipeline: where its
//! executable may be found, how the process is to be started, and how its
//! readiness is probed.  The decisions the launcher makes — which candidate
//! path is selected, what command line is built — are verified here; the
//! driver only performs the filesystem test and the actual spawn.

use vstd::prelude::*;

verus! {

/// Immutable descriptor of one pipeline stage.
///
/// `exe_candidates` are tried in declared order; the first that exists on
/// disk is selected.  When `interpreter` is set, the process is started as
/// `interpreter resolved-candidate args...`; otherwise the resolved candidate
/// is itself the program and `args` are passed to it unchanged.
/// `launch_required` and `ready_required` say whether a launch failure,
/// respectively a failed readiness probe, aborts the whole pipeline or is
/// logged and skipped.  `grace_ms` is the pause inserted after this service
/// is sent its terminate signal, before the blocking wait for its exit.
#[derive(Clone, Debug)]
pub struct ServiceSpec {
    pub name: String,
    pub exe_candidates: Vec<String>,
    pub interpreter: Option<String>,
    pub args: Vec<String>,
    pub working_dir: Option<String>,
    pub env: Vec<(String, String)>,
    pub ensure_dirs: Vec<String>,
    pub probe_host: String,
    pub probe_port: u16,
    pub probe_timeout_ms: u64,
    pub launch_required: bool,
    pub ready_required: bool,
    pub grace_ms: u64,
}

/// Join one path component onto a base path with a `/` separator.
pub fn path_join(base: &str, component: &str) -> (r: String)
    ensures
        r@ == base@ + "/"@ + component@,
{
    let mut s = base.to_owned();
    s.append("/");
    s.append(component);
    s
}

/// Select the executable to launch: the first candidate that exists on disk.
///
/// `exists` holds, for each candidate in order, whether that path exists;
/// the driver fills it with one filesystem test per candidate.  The result
/// is the index of the first existing candidate, or `None` when no candidate
/// exists.  Candidates after the selected one are never examined further,
/// and none of the non-selected candidates is ever handed to a spawn.
pub fn resolve_executable(candidates: &Vec<String>, exists: &Vec<bool>) -> (r: Option<usize>)
    requires
        candidates@.len() == exists@.len(),
    ensures
        match r {
            Some(i) => i < candidates@.len() && exists@[i as int]
                && (forall|j: int| 0 <= j < i ==> !exists@[j]),
            None => forall|j: int| 0 <= j < exists@.len() ==> !exists@[j],
        },
{
    let mut i: usize = 0;
    while i < exists.len()
        invariant
            i <= exists@.len(),
            candidates@.len() == exists@.len(),
            forall|j: int| 0 <= j < i ==> !exists@[j],
        decreases exists@.len() - i,
    {
        if exists[i] {
            return Some(i);
        }
        i = i + 1;
    }
    None
}

/// Build the program and argument list for a resolved stage.
///
/// With an interpreter, the resolved candidate becomes the first argument of
/// the interpreter; without one, the resolved candidate is the program.
pub fn build_command(spec: &ServiceSpec, resolved: &str) -> (r: (String, Vec<String>))
    ensures
        match spec.interpreter {
            Some(interp) => r.0@ == interp@
                && r.1@.len() == spec.args@.len() + 1
                && r.1@[0]@ == resolved@
                && (forall|j: int| 0 <= j < spec.args@.len() ==> r.1@[j + 1]@ == spec.args@[j]@),
            None => r.0@ == resolved@
                && r.1@.len() == spec.args@.len()
                && (forall|j: int| 0 <= j < spec.args@.len() ==> r.1@[j]@ == spec.args@[j]@),
        },
{
    match &spec.interpreter {
        Some(interp) => {
            let mut args: Vec<String> = Vec::new();
            args.push(resolved.to_owned());
            let mut i: usize = 0;
            while i < spec.args.len()
                invariant
                    i <= spec.args@.len(),
                    args@.len() == i + 1,
                    args@[0]@ == resolved@,
                    forall|j: int| 0 <= j < i ==> args@[j + 1]@ == spec.args@[j]@,
                decreases spec.args@.len() - i,
            {
                let a = &spec.args[i];
                args.push(a.clone());
                i = i + 1;
            }
            (interp.clone(), args)
        },
        None => {
            let mut args: Vec<String> = Vec::new();
            let mut i: usize = 0;
            while i < spec.args.len()
                invariant
                    i <= spec.args@.len(),
                    args@.len() == i,
                    forall|j: int| 0 <= j < i ==> args@[j]@ == spec.args@[j]@,
                decreases spec.args@.len() - i,
            {
                let a = &spec.args[i];
                args.push(a.clone());
                i = i + 1;
            }
            (resolved.to_owned(), args)
        },
    }
}

} // verus!

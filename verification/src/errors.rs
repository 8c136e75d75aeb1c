//! The failure kinds a startup can surface, with their operator-facing
//! diagnostics.
//!
//! A hard failure must be shown to the operator, not merely logged, so each
//! error renders to one descriptive line; the executable-not-found case
//! enumerates every candidate path that was tried and a shallow listing of
//! the nearest known-good ancestor directory, to point at a mispackaged
//! bundle.

use vstd::prelude::*;

verus! {

/// Why startup failed.
#[derive(Clone, Debug)]
pub enum StartupError {
    /// No candidate path of the stage's executable exists on disk.
    /// `tried` holds every path that was tested, in the order tried;
    /// `listing` is a shallow listing of the nearest known-good ancestor
    /// directory, for diagnostics.
    ExecutableNotFound { tried: Vec<String>, listing: Vec<String> },
    /// The operating system refused to create the process.
    SpawnFailed { cause: String },
    /// A required service never became reachable within its probe budget.
    ReadinessTimeout { service: String },
    /// The host runtime could not supply a required directory.
    ResourceDirUnavailable { what: String },
}

/// The first `k` parts joined with `sep` between consecutive parts.
pub open spec fn joined_upto(parts: Seq<Seq<char>>, sep: Seq<char>, k: int) -> Seq<char>
    decreases k,
{
    if k <= 0 {
        Seq::empty()
    } else if k == 1 {
        parts[0]
    } else {
        joined_upto(parts, sep, k - 1) + sep + parts[k - 1]
    }
}

/// All parts joined with `sep` between consecutive parts.
pub open spec fn joined(parts: Seq<Seq<char>>, sep: Seq<char>) -> Seq<char> {
    joined_upto(parts, sep, parts.len() as int)
}

/// Join the given parts with a separator.
pub fn join_with(parts: &Vec<String>, sep: &str) -> (r: String)
    ensures
        r@ == joined(parts.deep_view(), sep@),
{
    let mut s = String::new();
    let mut i: usize = 0;
    while i < parts.len()
        invariant
            i <= parts@.len(),
            s@ == joined_upto(parts.deep_view(), sep@, i as int),
        decreases parts@.len() - i,
    {
        if i > 0 {
            s.append(sep);
        }
        s.append(parts[i].as_str());
        assert(parts.deep_view()[i as int] == parts@[i as int]@);
        i = i + 1;
    }
    s
}

/// The one-line diagnostic of each failure kind.
pub open spec fn message_of(e: StartupError) -> Seq<char> {
    match e {
        StartupError::ExecutableNotFound { tried, listing } => "executable not found; tried: "@
            + joined(tried.deep_view(), ", "@) + "; nearest directory holds: "@ + joined(
            listing.deep_view(),
            ", "@,
        ),
        StartupError::SpawnFailed { cause } => "failed to spawn process: "@ + cause@,
        StartupError::ReadinessTimeout { service } => "service never became reachable: "@
            + service@,
        StartupError::ResourceDirUnavailable { what } => "host runtime supplied no "@ + what@,
    }
}

impl StartupError {
    /// Render the operator-facing diagnostic line.
    pub fn message(&self) -> (r: String)
        ensures
            r@ == message_of(*self),
    {
        match self {
            StartupError::ExecutableNotFound { tried, listing } => {
                let mut s = "executable not found; tried: ".to_owned();
                let t = join_with(tried, ", ");
                s.append(t.as_str());
                s.append("; nearest directory holds: ");
                let l = join_with(listing, ", ");
                s.append(l.as_str());
                s
            },
            StartupError::SpawnFailed { cause } => {
                let mut s = "failed to spawn process: ".to_owned();
                s.append(cause.as_str());
                s
            },
            StartupError::ReadinessTimeout { service } => {
                let mut s = "service never became reachable: ".to_owned();
                s.append(service.as_str());
                s
            },
            StartupError::ResourceDirUnavailable { what } => {
                let mut s = "host runtime supplied no ".to_owned();
                s.append(what.as_str());
                s
            },
        }
    }
}

} // verus!

//! A dependent-service supervisor library.
//!
//! The library models the logic of bringing up a fixed pipeline of external
//! service processes in dependency order, gating each stage on a readiness
//! probe, and tearing the pipeline down in reverse order on shutdown.  The
//! actual operating-system work (spawning processes, opening TCP connections,
//! sleeping, writing log files) is performed by a thin unverified driver; the
//! decisions — which stage to launch next, when a failure aborts the
//! pipeline, in which order handles are stopped, when a probe has timed
//! out — are made here and are verified.

pub mod errors;
pub mod launcher;
pub mod laws;
pub mod logger;
pub mod pipeline;
pub mod placement;
pub mod prober;
pub mod supervisor;

//! The startup/shutdown state machine of the service pipeline.
//!
//! The supervisor owns one slot per stage.  The driver reports events —
//! startup requested, a launch succeeded or failed, a readiness probe
//! concluded, the host asked to close, the stop sequence finished — and the
//! supervisor answers with the next action: launch a stage, probe a stage,
//! report the pipeline running or failed, or execute a stop plan.  All
//! decisions are made here; every transition is stated by the pure model
//! functions [`next`], [`emit`] and [`stops_of`], which the exec methods are
//! proved to follow exactly.
//!
//! Shutdown uses take-and-clear: computing a stop plan removes every handle
//! from its slot, so a second close request — or one racing with startup —
//! finds nothing to stop and no handle is ever stopped twice.  A cleared
//! slot is never repopulated, since a stage index is never revisited.

use vstd::prelude::*;
use crate::launcher::ServiceSpec;

verus! {

/// Where the pipeline stands.  `stage` indexes the service currently being
/// brought up; it also serves as the monotonic highest-stage marker that
/// decides what a hard failure has to roll back.
#[derive(Clone, Copy, Debug, PartialEq, Eq, Structural)]
pub enum Phase {
    NotStarted,
    Launching { stage: usize },
    AwaitingReady { stage: usize },
    Running,
    ShuttingDown,
    Failed,
    Stopped,
}

/// How one readiness wait concluded.  A process observed to have exited
/// before its probe succeeded is treated exactly like a probe timeout.
#[derive(Clone, Copy, Debug, PartialEq, Eq, Structural)]
pub enum ProbeOutcome {
    Ready,
    TimedOut,
    ExitedEarly,
}

/// An event the driver reports to the supervisor.
#[derive(Clone, Copy, Debug, PartialEq, Eq, Structural)]
pub enum Event {
    Start,
    LaunchOk { handle: u64 },
    LaunchFailed,
    ProbeDone { outcome: ProbeOutcome },
    CloseRequested,
    StopsDone,
}

/// What the driver is to do next.
#[derive(Clone, Copy, Debug, PartialEq, Eq, Structural)]
pub enum Action {
    /// Launch the given stage and report the result.
    LaunchStage { stage: usize },
    /// Probe the given stage's readiness target and report the outcome.
    ProbeStage { stage: usize },
    /// Startup has succeeded: tell the host application.
    ReportRunning,
    /// A required stage failed: surface the error to the operator; the
    /// accompanying stop plan clears any processes already launched.
    FailStartup,
    /// Execute the accompanying stop plan, then report `StopsDone`.
    ExecuteStops,
    /// The event does not apply in the current phase: do nothing.
    Ignore,
}

/// One entry of a stop plan: terminate `handle`, pause `grace_ms`, then
/// wait for the process to exit.
#[derive(Clone, Copy, Debug, PartialEq, Eq, Structural)]
pub struct StopStep {
    pub stage: usize,
    pub handle: u64,
    pub grace_ms: u64,
}

/// The supervisor's mathematical state: the phase, the per-stage flags and
/// grace periods, and the handle table.
#[verifier::ext_equal]
pub struct SupModel {
    pub phase: Phase,
    pub launch_required: Seq<bool>,
    pub ready_required: Seq<bool>,
    pub graces: Seq<u64>,
    pub handles: Seq<Option<u64>>,
}

impl SupModel {
    /// Number of stages.
    pub open spec fn n(self) -> int {
        self.handles.len() as int
    }

    /// The per-stage sequences agree in length and the phase's stage index
    /// is in range.
    pub open spec fn wf(self) -> bool {
        &&& self.launch_required.len() == self.n()
        &&& self.ready_required.len() == self.n()
        &&& self.graces.len() == self.n()
        &&& match self.phase {
            Phase::Launching { stage } => stage < self.n(),
            Phase::AwaitingReady { stage } => stage < self.n(),
            _ => true,
        }
    }

    /// The handle table with every slot cleared.
    pub open spec fn cleared_handles(self) -> Seq<Option<u64>> {
        Seq::new(self.handles.len(), |i: int| None)
    }
}

/// The phase after stage `i` is confirmed ready or confirmed
/// best-effort-skipped: bring up the next stage, or report success.
pub open spec fn advance_phase(m: SupModel, i: int) -> Phase {
    if i + 1 < m.n() {
        Phase::Launching { stage: (i + 1) as usize }
    } else {
        Phase::Running
    }
}

/// The action matching [`advance_phase`].
pub open spec fn advance_action(m: SupModel, i: int) -> Action {
    if i + 1 < m.n() {
        Action::LaunchStage { stage: (i + 1) as usize }
    } else {
        Action::ReportRunning
    }
}

/// The phase a close request leads to: the two terminal phases absorb it,
/// anything else starts shutting down.
pub open spec fn close_phase(p: Phase) -> Phase {
    match p {
        Phase::Failed => Phase::Failed,
        Phase::Stopped => Phase::Stopped,
        _ => Phase::ShuttingDown,
    }
}

/// The state transition: how the model changes on each event.  An event
/// that does not apply in the current phase leaves the state unchanged.
pub open spec fn next(m: SupModel, e: Event) -> SupModel {
    match (m.phase, e) {
        (Phase::NotStarted, Event::Start) => SupModel {
            phase: if m.n() == 0 {
                Phase::Running
            } else {
                Phase::Launching { stage: 0 }
            },
            ..m
        },
        (Phase::Launching { stage }, Event::LaunchOk { handle }) => SupModel {
            phase: Phase::AwaitingReady { stage },
            handles: m.handles.update(stage as int, Some(handle)),
            ..m
        },
        (Phase::Launching { stage }, Event::LaunchFailed) => if m.launch_required[stage as int] {
            SupModel { phase: Phase::Failed, handles: m.cleared_handles(), ..m }
        } else {
            SupModel { phase: advance_phase(m, stage as int), ..m }
        },
        (Phase::AwaitingReady { stage }, Event::ProbeDone { outcome }) => if outcome
            == ProbeOutcome::Ready {
            SupModel { phase: advance_phase(m, stage as int), ..m }
        } else if m.ready_required[stage as int] {
            SupModel { phase: Phase::Failed, handles: m.cleared_handles(), ..m }
        } else {
            SupModel { phase: advance_phase(m, stage as int), ..m }
        },
        (_, Event::CloseRequested) => SupModel {
            phase: close_phase(m.phase),
            handles: m.cleared_handles(),
            ..m
        },
        (Phase::ShuttingDown, Event::StopsDone) => SupModel { phase: Phase::Stopped, ..m },
        _ => m,
    }
}

/// The action the supervisor answers with on each event.
pub open spec fn emit(m: SupModel, e: Event) -> Action {
    match (m.phase, e) {
        (Phase::NotStarted, Event::Start) => if m.n() == 0 {
            Action::ReportRunning
        } else {
            Action::LaunchStage { stage: 0 }
        },
        (Phase::Launching { stage }, Event::LaunchOk { handle }) => Action::ProbeStage { stage },
        (Phase::Launching { stage }, Event::LaunchFailed) => if m.launch_required[stage as int] {
            Action::FailStartup
        } else {
            advance_action(m, stage as int)
        },
        (Phase::AwaitingReady { stage }, Event::ProbeDone { outcome }) => if outcome
            == ProbeOutcome::Ready {
            advance_action(m, stage as int)
        } else if m.ready_required[stage as int] {
            Action::FailStartup
        } else {
            advance_action(m, stage as int)
        },
        (_, Event::CloseRequested) => Action::ExecuteStops,
        _ => Action::Ignore,
    }
}

/// The stop step for stage `i`, when its slot is populated.
pub open spec fn step_opt(m: SupModel, i: int) -> Seq<StopStep> {
    match m.handles[i] {
        Some(h) => seq![StopStep { stage: i as usize, handle: h, grace_ms: m.graces[i] }],
        None => Seq::empty(),
    }
}

/// The stop steps for stages `lo..hi`, in strictly reverse declaration
/// order: dependents first, dependencies last.
pub open spec fn stop_plan_range(m: SupModel, lo: int, hi: int) -> Seq<StopStep>
    decreases hi - lo,
{
    if hi <= lo {
        Seq::empty()
    } else {
        step_opt(m, hi - 1) + stop_plan_range(m, lo, hi - 1)
    }
}

/// The whole stop plan: every populated handle, in reverse declaration
/// order.
pub open spec fn stop_plan(m: SupModel) -> Seq<StopStep> {
    stop_plan_range(m, 0, m.n())
}

/// The stop plan an event carries: hard failures and close requests clear
/// and stop everything populated; every other event stops nothing.
pub open spec fn stops_of(m: SupModel, e: Event) -> Seq<StopStep> {
    match (m.phase, e) {
        (Phase::Launching { stage }, Event::LaunchFailed) => if m.launch_required[stage as int] {
            stop_plan(m)
        } else {
            Seq::empty()
        },
        (Phase::AwaitingReady { stage }, Event::ProbeDone { outcome }) => if outcome
            != ProbeOutcome::Ready && m.ready_required[stage as int] {
            stop_plan(m)
        } else {
            Seq::empty()
        },
        (_, Event::CloseRequested) => stop_plan(m),
        _ => Seq::empty(),
    }
}

/// Splitting one stage off the low end of a stop-plan range.
proof fn lemma_stop_plan_range_snoc(m: SupModel, lo: int, hi: int)
    requires
        0 <= lo < hi <= m.handles.len(),
    ensures
        stop_plan_range(m, lo, hi) == stop_plan_range(m, lo + 1, hi) + step_opt(m, lo),
    decreases hi - lo,
{
    if lo == hi - 1 {
        assert(stop_plan_range(m, lo, lo) == Seq::<StopStep>::empty());
        assert(stop_plan_range(m, lo + 1, hi) == Seq::<StopStep>::empty());
        assert(stop_plan_range(m, lo, hi) == step_opt(m, lo) + stop_plan_range(m, lo, lo));
        assert(stop_plan_range(m, lo, hi) =~= stop_plan_range(m, lo + 1, hi) + step_opt(m, lo));
    } else {
        lemma_stop_plan_range_snoc(m, lo, hi - 1);
        assert(step_opt(m, hi - 1) + (stop_plan_range(m, lo + 1, hi - 1) + step_opt(m, lo)) =~= (
        step_opt(m, hi - 1) + stop_plan_range(m, lo + 1, hi - 1)) + step_opt(m, lo));
    }
}

/// The supervisor: the stage descriptors, one handle slot per stage, and
/// the current phase.
pub struct Supervisor {
    specs: Vec<ServiceSpec>,
    handles: Vec<Option<u64>>,
    phase: Phase,
}

impl View for Supervisor {
    type V = SupModel;

    closed spec fn view(&self) -> SupModel {
        SupModel {
            phase: self.phase,
            launch_required: Seq::new(self.specs@.len(), |i: int| self.specs@[i].launch_required),
            ready_required: Seq::new(self.specs@.len(), |i: int| self.specs@[i].ready_required),
            graces: Seq::new(self.specs@.len(), |i: int| self.specs@[i].grace_ms),
            handles: self.handles@,
        }
    }
}

impl Supervisor {
    /// The stage descriptors, in declaration order.
    pub closed spec fn stages(self) -> Seq<ServiceSpec> {
        self.specs@
    }

    /// The handle table matches the stage list and the phase is in range.
    pub open spec fn wf(self) -> bool {
        &&& self@.wf()
        &&& self.stages().len() == self@.n()
    }

    /// A supervisor for the given pipeline: nothing launched, nothing
    /// reached, every slot empty.
    pub fn new(specs: Vec<ServiceSpec>) -> (s: Supervisor)
        ensures
            s.wf(),
            s.stages() == specs@,
            s@.phase == Phase::NotStarted,
            s@.n() == specs@.len(),
            s@.handles == Seq::new(specs@.len(), |i: int| None::<u64>),
            s@.launch_required == Seq::new(specs@.len(), |i: int| specs@[i].launch_required),
            s@.ready_required == Seq::new(specs@.len(), |i: int| specs@[i].ready_required),
            s@.graces == Seq::new(specs@.len(), |i: int| specs@[i].grace_ms),
    {
        let n = specs.len();
        let mut handles: Vec<Option<u64>> = Vec::new();
        let mut i: usize = 0;
        while i < n
            invariant
                i <= n,
                handles@.len() == i,
                forall|j: int| 0 <= j < i ==> handles@[j] is None,
            decreases n - i,
        {
            handles.push(None);
            i = i + 1;
        }
        let s = Supervisor { specs, handles, phase: Phase::NotStarted };
        proof {
            assert(s@.handles =~= Seq::new(s.specs@.len(), |i: int| None::<u64>));
        }
        s
    }

    /// Begin the pipeline.
    pub fn start(&mut self) -> (a: Action)
        requires
            old(self).wf(),
        ensures
            final(self).wf(),
            final(self).stages() == old(self).stages(),
            final(self)@ == next(old(self)@, Event::Start),
            a == emit(old(self)@, Event::Start),
    {
        match self.phase {
            Phase::NotStarted => {
                if self.specs.len() == 0 {
                    self.phase = Phase::Running;
                    Action::ReportRunning
                } else {
                    self.phase = Phase::Launching { stage: 0 };
                    Action::LaunchStage { stage: 0 }
                }
            },
            _ => Action::Ignore,
        }
    }

    /// A launch attempt returned a handle: record it in the stage's slot
    /// and ask for the stage's readiness probe.
    pub fn on_launch_ok(&mut self, handle: u64) -> (a: Action)
        requires
            old(self).wf(),
        ensures
            final(self).wf(),
            final(self).stages() == old(self).stages(),
            final(self)@ == next(old(self)@, Event::LaunchOk { handle }),
            a == emit(old(self)@, Event::LaunchOk { handle }),
    {
        match self.phase {
            Phase::Launching { stage } => {
                self.handles.set(stage, Some(handle));
                self.phase = Phase::AwaitingReady { stage };
                Action::ProbeStage { stage }
            },
            _ => Action::Ignore,
        }
    }

    /// A launch attempt failed.  For a required stage the whole pipeline
    /// aborts and anything already launched is stopped (in reverse order);
    /// for a best-effort stage the pipeline proceeds as if the stage had
    /// succeeded.
    pub fn on_launch_failed(&mut self) -> (r: (Action, Vec<StopStep>))
        requires
            old(self).wf(),
        ensures
            final(self).wf(),
            final(self).stages() == old(self).stages(),
            final(self)@ == next(old(self)@, Event::LaunchFailed),
            r.0 == emit(old(self)@, Event::LaunchFailed),
            r.1@ == stops_of(old(self)@, Event::LaunchFailed),
    {
        match self.phase {
            Phase::Launching { stage } => {
                if self.specs[stage].launch_required {
                    let plan = self.take_all_reverse();
                    self.phase = Phase::Failed;
                    (Action::FailStartup, plan)
                } else {
                    (self.advance(stage), Vec::new())
                }
            },
            _ => (Action::Ignore, Vec::new()),
        }
    }

    /// A readiness probe concluded.  `Ready` confirms the stage; a timeout
    /// — or the process found to have exited before ever becoming ready,
    /// which counts the same — aborts a required stage and is skipped with
    /// a warning on a best-effort one.
    pub fn on_probe_done(&mut self, outcome: ProbeOutcome) -> (r: (Action, Vec<StopStep>))
        requires
            old(self).wf(),
        ensures
            final(self).wf(),
            final(self).stages() == old(self).stages(),
            final(self)@ == next(old(self)@, Event::ProbeDone { outcome }),
            r.0 == emit(old(self)@, Event::ProbeDone { outcome }),
            r.1@ == stops_of(old(self)@, Event::ProbeDone { outcome }),
    {
        match self.phase {
            Phase::AwaitingReady { stage } => {
                let ready = match outcome {
                    ProbeOutcome::Ready => true,
                    _ => false,
                };
                if ready {
                    (self.advance(stage), Vec::new())
                } else if self.specs[stage].ready_required {
                    let plan = self.take_all_reverse();
                    self.phase = Phase::Failed;
                    (Action::FailStartup, plan)
                } else {
                    (self.advance(stage), Vec::new())
                }
            },
            _ => (Action::Ignore, Vec::new()),
        }
    }

    /// The host asked to close.  Every populated handle is taken out of its
    /// slot and returned as a stop plan in reverse declaration order; the
    /// slots are cleared in the same atomic step, so a concurrent or
    /// repeated close request gets an empty plan.
    pub fn request_shutdown(&mut self) -> (plan: Vec<StopStep>)
        requires
            old(self).wf(),
        ensures
            final(self).wf(),
            final(self).stages() == old(self).stages(),
            final(self)@ == next(old(self)@, Event::CloseRequested),
            plan@ == stops_of(old(self)@, Event::CloseRequested),
    {
        let plan = self.take_all_reverse();
        self.phase = match self.phase {
            Phase::Failed => Phase::Failed,
            Phase::Stopped => Phase::Stopped,
            _ => Phase::ShuttingDown,
        };
        plan
    }

    /// The driver finished executing a stop plan.
    pub fn notify_stopped(&mut self)
        requires
            old(self).wf(),
        ensures
            final(self).wf(),
            final(self).stages() == old(self).stages(),
            final(self)@ == next(old(self)@, Event::StopsDone),
    {
        match self.phase {
            Phase::ShuttingDown => {
                self.phase = Phase::Stopped;
            },
            _ => {},
        }
    }

    /// Confirm stage `stage` and move on: launch the next stage, or report
    /// the pipeline running when this was the last one.
    fn advance(&mut self, stage: usize) -> (a: Action)
        requires
            old(self).wf(),
            stage < old(self)@.n(),
        ensures
            final(self).wf(),
            final(self).stages() == old(self).stages(),
            final(self)@ == (SupModel { phase: advance_phase(old(self)@, stage as int), ..old(self)@ }),
            a == advance_action(old(self)@, stage as int),
    {
        let n = self.specs.len();
        if stage + 1 < n {
            self.phase = Phase::Launching { stage: stage + 1 };
            Action::LaunchStage { stage: stage + 1 }
        } else {
            self.phase = Phase::Running;
            Action::ReportRunning
        }
    }

    /// The current phase.
    pub fn current_phase(&self) -> (p: Phase)
        ensures
            p == self@.phase,
    {
        self.phase
    }

    /// Number of stages in the pipeline.
    pub fn stage_count(&self) -> (n: usize)
        requires
            self.wf(),
        ensures
            n == self@.n(),
    {
        self.specs.len()
    }

    /// The descriptor of stage `i`.
    pub fn stage(&self, i: usize) -> (s: &ServiceSpec)
        requires
            self.wf(),
            i < self@.n(),
        ensures
            *s == self.stages()[i as int],
    {
        &self.specs[i]
    }

    /// The handle currently held for stage `i`, if any.
    pub fn handle_at(&self, i: usize) -> (h: Option<u64>)
        requires
            self.wf(),
            i < self@.n(),
        ensures
            h == self@.handles[i as int],
    {
        self.handles[i]
    }

    /// Take every populated handle out of its slot, clearing the slots, and
    /// return the matching stop steps in reverse declaration order.
    fn take_all_reverse(&mut self) -> (plan: Vec<StopStep>)
        requires
            old(self).wf(),
        ensures
            final(self).wf(),
            final(self).stages() == old(self).stages(),
            final(self)@ == (SupModel { handles: old(self)@.cleared_handles(), ..old(self)@ }),
            plan@ == stop_plan(old(self)@),
    {
        let ghost m0 = self@;
        let ghost specs0 = self.specs@;
        let mut plan: Vec<StopStep> = Vec::new();
        let mut i: usize = self.handles.len();
        while i > 0
            invariant
                self.wf(),
                i <= self.handles@.len(),
                self.specs@ == specs0,
                self@.graces == m0.graces,
                self@.launch_required == m0.launch_required,
                self@.ready_required == m0.ready_required,
                self.phase == m0.phase,
                self.handles@.len() == m0.handles.len(),
                forall|j: int| 0 <= j < i ==> self.handles@[j] == m0.handles[j],
                forall|j: int| i <= j < self.handles@.len() ==> self.handles@[j] is None,
                plan@ == stop_plan_range(m0, i as int, m0.n()),
            decreases i,
        {
            i = i - 1;
            let h = self.handles[i];
            self.handles.set(i, None);
            match h {
                Some(hd) => {
                    let g = self.specs[i].grace_ms;
                    plan.push(StopStep { stage: i, handle: hd, grace_ms: g });
                },
                None => {},
            }
            proof {
                lemma_stop_plan_range_snoc(m0, i as int, m0.n());
                if m0.handles[i as int] is None {
                    assert(plan@ =~= stop_plan_range(m0, i as int, m0.n()));
                }
            }
        }
        proof {
            assert(self@.handles =~= m0.cleared_handles());
            assert(self@ =~= SupModel { handles: m0.cleared_handles(), ..m0 });
        }
        plan
    }
}

} // verus!

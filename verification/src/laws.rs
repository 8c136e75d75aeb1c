//! The pipeline-wide guarantees of the supervisor, stated and proved over
//! the model of `supervisor`.
//!
//! A run is the fold of [`next`] over a sequence of events; its trace is the
//! sequence of actions [`emit`] answers along the way.  The lemmas here say
//! what every run of a given shape does: an all-success run walks the stages
//! in order and ends `Running`; a required stage's failure prevents every
//! later launch and ends `Failed` for good; a shutdown stops exactly the
//! populated handles in reverse declaration order; and a second shutdown
//! stops nothing.

use vstd::prelude::*;
use crate::supervisor::Action;
use crate::supervisor::Event;
use crate::supervisor::Phase;
use crate::supervisor::ProbeOutcome;
use crate::supervisor::StopStep;
use crate::supervisor::SupModel;
use crate::supervisor::emit;
use crate::supervisor::next;
use crate::supervisor::step_opt;
use crate::supervisor::stop_plan;
use crate::supervisor::stop_plan_range;
use crate::supervisor::stops_of;

verus! {

/// The state after the supervisor has digested `es`, in order.
pub open spec fn run(m: SupModel, es: Seq<Event>) -> SupModel
    decreases es.len(),
{
    if es.len() == 0 {
        m
    } else {
        run(next(m, es[0]), es.drop_first())
    }
}

/// The actions the supervisor answers while digesting `es`, in order.
pub open spec fn trace(m: SupModel, es: Seq<Event>) -> Seq<Action>
    decreases es.len(),
{
    if es.len() == 0 {
        Seq::empty()
    } else {
        seq![emit(m, es[0])] + trace(next(m, es[0]), es.drop_first())
    }
}

/// A supervisor as built: nothing started, every slot empty.
pub open spec fn init_model(
    launch_required: Seq<bool>,
    ready_required: Seq<bool>,
    graces: Seq<u64>,
) -> SupModel {
    SupModel {
        phase: Phase::NotStarted,
        launch_required,
        ready_required,
        graces,
        handles: Seq::new(launch_required.len(), |i: int| None),
    }
}

/// The handle table when the first `k` stages hold their handles and the
/// rest hold none.
pub open spec fn populated(hs: Seq<u64>, k: int) -> Seq<Option<u64>> {
    Seq::new(hs.len(), |i: int| if i < k { Some(hs[i]) } else { None })
}

/// What confirming stage `i` of `n` leads to: launching the next stage, or
/// reporting the pipeline running.
pub open spec fn advance_at(n: int, i: int) -> Action {
    if i + 1 < n {
        Action::LaunchStage { stage: (i + 1) as usize }
    } else {
        Action::ReportRunning
    }
}

/// The events of stages `i..k` each launching and probing successfully.
pub open spec fn stage_events(hs: Seq<u64>, i: int, k: int) -> Seq<Event>
    decreases k - i,
{
    if i < 0 || i >= k || k > hs.len() {
        Seq::empty()
    } else {
        seq![
            Event::LaunchOk { handle: hs[i] },
            Event::ProbeDone { outcome: ProbeOutcome::Ready },
        ] + stage_events(hs, i + 1, k)
    }
}

/// The actions answered while stages `i..k` of `n` succeed in order: each
/// stage's probe right after its launch returned a handle, then the next
/// stage's launch, and after the last stage the success report.
pub open spec fn stage_trace(n: int, i: int, k: int) -> Seq<Action>
    decreases k - i,
{
    if i < 0 || i >= k || k > n {
        Seq::empty()
    } else {
        seq![Action::ProbeStage { stage: i as usize }, advance_at(n, i)] + stage_trace(n, i + 1, k)
    }
}

/// The event sequence of a whole startup in which every stage succeeds.
pub open spec fn success_events(hs: Seq<u64>) -> Seq<Event> {
    seq![Event::Start] + stage_events(hs, 0, hs.len() as int)
}

/// The action sequence of a whole successful startup of `n` stages:
/// `Launch 0, Probe 0, Launch 1, Probe 1, …, Launch n-1, Probe n-1,
/// ReportRunning` — exactly one launch/probe pair per stage, each probe
/// after its own launch, and no probe before its stage's launch returned.
pub open spec fn success_trace(n: int) -> Seq<Action> {
    if n == 0 {
        seq![Action::ReportRunning]
    } else {
        seq![Action::LaunchStage { stage: 0 }] + stage_trace(n, 0, n)
    }
}

/// Running stages `i..k` with every launch and probe succeeding walks the
/// pipeline from `Launching(i)` to `Launching(k)` (or `Running` when `k` is
/// the end), populates exactly the handles of those stages, and answers
/// exactly the expected launch/probe pairs.
proof fn lemma_stage_run_aux(m: SupModel, hs: Seq<u64>, i: int, k: int)
    requires
        m.wf(),
        m.n() == hs.len(),
        hs.len() <= usize::MAX,
        0 <= i < k,
        k <= m.n(),
        m.phase == (Phase::Launching { stage: i as usize }),
        m.handles == populated(hs, i),
    ensures
        ({
            let es = stage_events(hs, i, k);
            let mfin = run(m, es);
            &&& mfin.launch_required == m.launch_required
            &&& mfin.ready_required == m.ready_required
            &&& mfin.graces == m.graces
            &&& mfin.handles == populated(hs, k)
            &&& mfin.phase == (if k < m.n() {
                Phase::Launching { stage: k as usize }
            } else {
                Phase::Running
            })
            &&& trace(m, es) == stage_trace(m.n(), i, k)
        }),
    decreases k - i,
{
    let es = stage_events(hs, i, k);
    let e0 = Event::LaunchOk { handle: hs[i] };
    let e1 = Event::ProbeDone { outcome: ProbeOutcome::Ready };
    let rest = stage_events(hs, i + 1, k);
    assert(es =~= seq![e0, e1] + rest);
    assert(es[0] == e0);
    assert(es.drop_first() =~= seq![e1] + rest);
    assert(es.drop_first()[0] == e1);
    assert(es.drop_first().drop_first() =~= rest);

    let m1 = next(m, e0);
    assert(m1.handles =~= populated(hs, i + 1));
    let m2 = next(m1, e1);
    assert(m2.handles == populated(hs, i + 1));

    assert(run(m, es) == run(m1, es.drop_first()));
    assert(run(m1, es.drop_first()) == run(m2, rest));
    assert(trace(m, es) == seq![emit(m, e0)] + trace(m1, es.drop_first()));
    assert(trace(m1, es.drop_first()) == seq![emit(m1, e1)] + trace(m2, rest));
    assert(trace(m, es) =~= seq![emit(m, e0), emit(m1, e1)] + trace(m2, rest));
    assert(emit(m, e0) == (Action::ProbeStage { stage: i as usize }));
    assert(emit(m1, e1) == advance_at(m.n(), i));

    if i + 1 == k {
        assert(rest =~= Seq::<Event>::empty());
        assert(run(m2, rest) == m2);
        assert(trace(m2, rest) =~= Seq::<Action>::empty());
        assert(stage_trace(m.n(), i + 1, k) =~= Seq::<Action>::empty());
        assert(trace(m, es) =~= stage_trace(m.n(), i, k));
    } else {
        lemma_stage_run_aux(m2, hs, i + 1, k);
        assert(trace(m, es) =~= stage_trace(m.n(), i, k));
    }
}

/// A pipeline of `N` stages, started with every stage succeeding, walks
/// through exactly one launch/probe pair per stage in declaration order and
/// ends `Running` with every slot populated; no stage's probe is answered
/// before its own launch has returned a handle, and no later stage is
/// launched before the earlier one is confirmed ready.
pub proof fn lemma_startup_all_success(
    launch_required: Seq<bool>,
    ready_required: Seq<bool>,
    graces: Seq<u64>,
    hs: Seq<u64>,
)
    requires
        launch_required.len() == hs.len(),
        ready_required.len() == hs.len(),
        graces.len() == hs.len(),
        hs.len() <= usize::MAX,
    ensures
        ({
            let m0 = init_model(launch_required, ready_required, graces);
            let es = success_events(hs);
            let mfin = run(m0, es);
            &&& mfin.phase == Phase::Running
            &&& mfin.handles == populated(hs, hs.len() as int)
            &&& mfin.launch_required == launch_required
            &&& mfin.ready_required == ready_required
            &&& mfin.graces == graces
            &&& trace(m0, es) == success_trace(hs.len() as int)
        }),
{
    let m0 = init_model(launch_required, ready_required, graces);
    let es = success_events(hs);
    let rest = stage_events(hs, 0, hs.len() as int);
    assert(es[0] == Event::Start);
    assert(es.drop_first() =~= rest);

    let m1 = next(m0, Event::Start);
    assert(run(m0, es) == run(m1, rest));
    assert(trace(m0, es) =~= seq![emit(m0, Event::Start)] + trace(m1, rest));

    if hs.len() == 0 {
        assert(rest =~= Seq::<Event>::empty());
        assert(m1.phase == Phase::Running);
        assert(m1.handles =~= populated(hs, 0));
        assert(trace(m0, es) =~= success_trace(0));
    } else {
        assert(m1.phase == (Phase::Launching { stage: 0 }));
        assert(m1.handles =~= populated(hs, 0));
        lemma_stage_run_aux(m1, hs, 0, hs.len() as int);
        assert(trace(m0, es) =~= success_trace(hs.len() as int));
    }
}

/// Digesting a concatenation digests the parts in order.
pub proof fn lemma_run_append(m: SupModel, es1: Seq<Event>, es2: Seq<Event>)
    ensures
        run(m, es1 + es2) == run(run(m, es1), es2),
    decreases es1.len(),
{
    if es1.len() == 0 {
        assert(es1 + es2 =~= es2);
    } else {
        let m1 = next(m, es1[0]);
        assert((es1 + es2)[0] == es1[0]);
        assert((es1 + es2).drop_first() =~= es1.drop_first() + es2);
        lemma_run_append(m1, es1.drop_first(), es2);
        assert(run(m, es1 + es2) == run(m1, es1.drop_first() + es2));
        assert(run(m, es1) == run(m1, es1.drop_first()));
    }
}

/// The trace of a concatenation is the concatenation of the traces.
pub proof fn lemma_trace_append(m: SupModel, es1: Seq<Event>, es2: Seq<Event>)
    ensures
        trace(m, es1 + es2) == trace(m, es1) + trace(run(m, es1), es2),
    decreases es1.len(),
{
    if es1.len() == 0 {
        assert(es1 + es2 =~= es2);
        assert(trace(m, es1) + trace(run(m, es1), es2) =~= trace(m, es2));
    } else {
        let m1 = next(m, es1[0]);
        assert((es1 + es2)[0] == es1[0]);
        assert((es1 + es2).drop_first() =~= es1.drop_first() + es2);
        lemma_trace_append(m1, es1.drop_first(), es2);
        assert(trace(m, es1 + es2) == seq![emit(m, es1[0])] + trace(m1, es1.drop_first() + es2));
        assert(trace(m, es1) == seq![emit(m, es1[0])] + trace(m1, es1.drop_first()));
        assert(seq![emit(m, es1[0])] + (trace(m1, es1.drop_first()) + trace(run(m, es1), es2)) =~= (
        seq![emit(m, es1[0])] + trace(m1, es1.drop_first())) + trace(run(m, es1), es2));
    }
}

/// Does this action launch a stage beyond `k`?
pub open spec fn launches_beyond(a: Action, k: int) -> bool {
    a matches Action::LaunchStage { stage } && stage > k
}

/// Actions answered during a success run of stages `i..k` with `k < n`:
/// probes of stages `i..k`, launches of stages `i+1..=k`, and no success
/// report.
proof fn lemma_stage_trace_bounds(n: int, i: int, k: int)
    requires
        0 <= i,
        k < n,
    ensures
        forall|t: int|
            0 <= t < stage_trace(n, i, k).len() ==> !launches_beyond(stage_trace(n, i, k)[t], k)
                && stage_trace(n, i, k)[t] != Action::ReportRunning,
    decreases k - i,
{
    if i >= k {
    } else {
        lemma_stage_trace_bounds(n, i + 1, k);
    }
}

/// Once the pipeline has failed it stays failed: no later event launches or
/// probes anything or reports success, and an empty handle table stays
/// empty.
pub proof fn lemma_failed_absorbs(m: SupModel, es: Seq<Event>)
    requires
        m.phase == Phase::Failed,
    ensures
        run(m, es).phase == Phase::Failed,
        run(m, es).handles.len() == m.handles.len(),
        (forall|j: int| 0 <= j < m.handles.len() ==> m.handles[j] is None) ==> (forall|j: int|
            0 <= j < run(m, es).handles.len() ==> run(m, es).handles[j] is None),
        forall|t: int|
            0 <= t < trace(m, es).len() ==> (trace(m, es)[t] == Action::Ignore || trace(m, es)[t]
                == Action::ExecuteStops),
    decreases es.len(),
{
    if es.len() == 0 {
    } else {
        let m1 = next(m, es[0]);
        assert(m1.phase == Phase::Failed);
        assert(m1.handles.len() == m.handles.len());
        lemma_failed_absorbs(m1, es.drop_first());
        assert(emit(m, es[0]) == Action::Ignore || emit(m, es[0]) == Action::ExecuteStops);
    }
}

/// Startup reaching stage `k` with every earlier stage succeeding: the
/// phase is `Launching(k)`, exactly the earlier stages' handles are
/// populated, and the trace so far holds their launch/probe pairs and the
/// launch of stage `k`.
proof fn lemma_prefix_reaches(
    launch_required: Seq<bool>,
    ready_required: Seq<bool>,
    graces: Seq<u64>,
    hs: Seq<u64>,
    k: int,
)
    requires
        launch_required.len() == hs.len(),
        ready_required.len() == hs.len(),
        graces.len() == hs.len(),
        hs.len() <= usize::MAX,
        0 <= k < hs.len(),
    ensures
        ({
            let m0 = init_model(launch_required, ready_required, graces);
            let pre = seq![Event::Start] + stage_events(hs, 0, k);
            let mp = run(m0, pre);
            &&& mp.phase == (Phase::Launching { stage: k as usize })
            &&& mp.handles == populated(hs, k)
            &&& mp.launch_required == launch_required
            &&& mp.ready_required == ready_required
            &&& mp.graces == graces
            &&& trace(m0, pre) == seq![Action::LaunchStage { stage: 0 }] + stage_trace(
                hs.len() as int,
                0,
                k,
            )
        }),
{
    let m0 = init_model(launch_required, ready_required, graces);
    let pre = seq![Event::Start] + stage_events(hs, 0, k);
    let rest = stage_events(hs, 0, k);
    assert(pre[0] == Event::Start);
    assert(pre.drop_first() =~= rest);
    let m1 = next(m0, Event::Start);
    assert(m1.phase == (Phase::Launching { stage: 0 }));
    assert(m1.handles =~= populated(hs, 0));
    assert(run(m0, pre) == run(m1, rest));
    assert(trace(m0, pre) == seq![emit(m0, Event::Start)] + trace(m1, rest));
    if k == 0 {
        assert(rest =~= Seq::<Event>::empty());
        assert(trace(m1, rest) =~= Seq::<Action>::empty());
        assert(stage_trace(hs.len() as int, 0, 0) =~= Seq::<Action>::empty());
        assert(trace(m0, pre) =~= seq![Action::LaunchStage { stage: 0 }] + stage_trace(
            hs.len() as int,
            0,
            k,
        ));
    } else {
        lemma_stage_run_aux(m1, hs, 0, k);
    }
}

/// If required stage `k` fails to launch, no stage beyond `k` is ever
/// launched, startup is never reported successful, and the pipeline ends —
/// and stays — `Failed` with every handle slot cleared, whatever events
/// follow.
pub proof fn lemma_required_launch_failure_aborts(
    launch_required: Seq<bool>,
    ready_required: Seq<bool>,
    graces: Seq<u64>,
    hs: Seq<u64>,
    k: int,
    es_after: Seq<Event>,
)
    requires
        launch_required.len() == hs.len(),
        ready_required.len() == hs.len(),
        graces.len() == hs.len(),
        hs.len() <= usize::MAX,
        0 <= k < hs.len(),
        launch_required[k],
    ensures
        ({
            let m0 = init_model(launch_required, ready_required, graces);
            let es = (seq![Event::Start] + stage_events(hs, 0, k)) + (seq![Event::LaunchFailed]
                + es_after);
            let mfin = run(m0, es);
            &&& mfin.phase == Phase::Failed
            &&& forall|j: int| 0 <= j < mfin.handles.len() ==> mfin.handles[j] is None
            &&& forall|t: int| 0 <= t < trace(m0, es).len() ==> !launches_beyond(trace(m0, es)[t], k)
            &&& forall|t: int| 0 <= t < trace(m0, es).len() ==> trace(m0, es)[t] != Action::ReportRunning
        }),
{
    let m0 = init_model(launch_required, ready_required, graces);
    let pre = seq![Event::Start] + stage_events(hs, 0, k);
    let tail = seq![Event::LaunchFailed] + es_after;
    let es = pre + tail;
    lemma_prefix_reaches(launch_required, ready_required, graces, hs, k);
    let mp = run(m0, pre);
    lemma_run_append(m0, pre, tail);
    lemma_trace_append(m0, pre, tail);

    assert(tail[0] == Event::LaunchFailed);
    assert(tail.drop_first() =~= es_after);
    let mf = next(mp, Event::LaunchFailed);
    assert(mf.phase == Phase::Failed);
    assert(forall|j: int| 0 <= j < mf.handles.len() ==> mf.handles[j] is None);
    assert(run(mp, tail) == run(mf, es_after));
    assert(trace(mp, tail) == seq![emit(mp, Event::LaunchFailed)] + trace(mf, es_after));
    assert(emit(mp, Event::LaunchFailed) == Action::FailStartup);
    lemma_failed_absorbs(mf, es_after);
    lemma_stage_trace_bounds(hs.len() as int, 0, k);
    assert(trace(m0, es) == (seq![Action::LaunchStage { stage: 0 }] + stage_trace(
        hs.len() as int,
        0,
        k,
    )) + (seq![Action::FailStartup] + trace(mf, es_after)));
}

/// If required stage `k` launches but its readiness probe times out — or
/// its process is found to have exited first, which counts the same — no
/// stage beyond `k` is ever launched, startup is never reported successful,
/// and the pipeline ends and stays `Failed` with every handle slot cleared.
pub proof fn lemma_required_probe_failure_aborts(
    launch_required: Seq<bool>,
    ready_required: Seq<bool>,
    graces: Seq<u64>,
    hs: Seq<u64>,
    k: int,
    outcome: ProbeOutcome,
    es_after: Seq<Event>,
)
    requires
        launch_required.len() == hs.len(),
        ready_required.len() == hs.len(),
        graces.len() == hs.len(),
        hs.len() <= usize::MAX,
        0 <= k < hs.len(),
        ready_required[k],
        outcome != ProbeOutcome::Ready,
    ensures
        ({
            let m0 = init_model(launch_required, ready_required, graces);
            let es = (seq![Event::Start] + stage_events(hs, 0, k)) + (seq![
                Event::LaunchOk { handle: hs[k] },
                Event::ProbeDone { outcome },
            ] + es_after);
            let mfin = run(m0, es);
            &&& mfin.phase == Phase::Failed
            &&& forall|j: int| 0 <= j < mfin.handles.len() ==> mfin.handles[j] is None
            &&& forall|t: int| 0 <= t < trace(m0, es).len() ==> !launches_beyond(trace(m0, es)[t], k)
            &&& forall|t: int| 0 <= t < trace(m0, es).len() ==> trace(m0, es)[t] != Action::ReportRunning
        }),
{
    let m0 = init_model(launch_required, ready_required, graces);
    let pre = seq![Event::Start] + stage_events(hs, 0, k);
    let e0 = Event::LaunchOk { handle: hs[k] };
    let e1 = Event::ProbeDone { outcome };
    let tail = seq![e0, e1] + es_after;
    let es = pre + tail;
    lemma_prefix_reaches(launch_required, ready_required, graces, hs, k);
    let mp = run(m0, pre);
    lemma_run_append(m0, pre, tail);
    lemma_trace_append(m0, pre, tail);

    assert(tail[0] == e0);
    assert(tail.drop_first() =~= seq![e1] + es_after);
    assert(tail.drop_first()[0] == e1);
    assert(tail.drop_first().drop_first() =~= es_after);
    let ma = next(mp, e0);
    assert(ma.phase == (Phase::AwaitingReady { stage: k as usize }));
    let mf = next(ma, e1);
    assert(mf.phase == Phase::Failed);
    assert(forall|j: int| 0 <= j < mf.handles.len() ==> mf.handles[j] is None);
    assert(run(mp, tail) == run(ma, tail.drop_first()));
    assert(run(ma, tail.drop_first()) == run(mf, es_after));
    assert(trace(mp, tail) == seq![emit(mp, e0)] + trace(ma, tail.drop_first()));
    assert(trace(ma, tail.drop_first()) == seq![emit(ma, e1)] + trace(mf, es_after));
    assert(emit(mp, e0) == (Action::ProbeStage { stage: k as usize }));
    assert(emit(ma, e1) == Action::FailStartup);
    lemma_failed_absorbs(mf, es_after);
    lemma_stage_trace_bounds(hs.len() as int, 0, k);
    assert(trace(m0, es) == (seq![Action::LaunchStage { stage: 0 }] + stage_trace(
        hs.len() as int,
        0,
        k,
    )) + (seq![Action::ProbeStage { stage: k as usize }] + (seq![Action::FailStartup] + trace(
        mf,
        es_after,
    ))));
}

/// Every stop plan for stages `lo..hi` is in strictly reverse declaration
/// order, stops only handles that are populated with exactly their recorded
/// handle and grace period, and misses no populated handle.
proof fn lemma_stop_plan_range_props(m: SupModel, lo: int, hi: int)
    requires
        m.wf(),
        m.n() <= usize::MAX,
        0 <= lo <= hi <= m.n(),
    ensures
        ({
            let p = stop_plan_range(m, lo, hi);
            &&& forall|a: int, b: int| 0 <= a < b < p.len() ==> p[a].stage > p[b].stage
            &&& forall|a: int|
                0 <= a < p.len() ==> lo <= p[a].stage < hi && m.handles[p[a].stage as int]
                    == Some(p[a].handle) && p[a].grace_ms == m.graces[p[a].stage as int]
            &&& forall|i: int|
                lo <= i < hi && m.handles[i] is Some ==> exists|a: int|
                    0 <= a < p.len() && p[a].stage == i
        }),
    decreases hi - lo,
{
    if hi <= lo {
    } else {
        let p = stop_plan_range(m, lo, hi);
        let p1 = stop_plan_range(m, lo, hi - 1);
        lemma_stop_plan_range_props(m, lo, hi - 1);
        assert(p == step_opt(m, hi - 1) + p1);
        if m.handles[hi - 1] is Some {
            assert(p[0].stage == hi - 1);
            assert forall|i: int| lo <= i < hi && m.handles[i] is Some implies exists|a: int|
                0 <= a < p.len() && p[a].stage == i by {
                if i == hi - 1 {
                    assert(p[0].stage == i);
                } else {
                    let a1 = choose|a1: int| 0 <= a1 < p1.len() && p1[a1].stage == i;
                    assert(p[a1 + 1].stage == i);
                }
            }
        } else {
            assert(p =~= p1);
            assert forall|i: int| lo <= i < hi && m.handles[i] is Some implies exists|a: int|
                0 <= a < p.len() && p[a].stage == i by {
                let a1 = choose|a1: int| 0 <= a1 < p1.len() && p1[a1].stage == i;
                assert(p[a1].stage == i);
            }
        }
    }
}

/// A shutdown request, whenever it arrives, stops exactly the populated
/// handles, each with its own handle value and grace period, in strictly
/// reverse declaration order — dependents before dependencies.
pub proof fn lemma_shutdown_reverse_order(m: SupModel)
    requires
        m.wf(),
        m.n() <= usize::MAX,
    ensures
        ({
            let p = stops_of(m, Event::CloseRequested);
            &&& p == stop_plan(m)
            &&& forall|a: int, b: int| 0 <= a < b < p.len() ==> p[a].stage > p[b].stage
            &&& forall|a: int|
                0 <= a < p.len() ==> p[a].stage < m.n() && m.handles[p[a].stage as int]
                    == Some(p[a].handle) && p[a].grace_ms == m.graces[p[a].stage as int]
            &&& forall|i: int|
                0 <= i < m.n() && m.handles[i] is Some ==> exists|a: int|
                    0 <= a < p.len() && p[a].stage == i
        }),
{
    lemma_stop_plan_range_props(m, 0, m.n());
}

/// The stop plan over a fully populated handle table, stage by stage: entry
/// `a` stops stage `hi - 1 - a`.
proof fn lemma_stop_plan_full(m: SupModel, hs: Seq<u64>, lo: int, hi: int)
    requires
        m.wf(),
        m.n() <= usize::MAX,
        m.n() == hs.len(),
        m.handles == populated(hs, hs.len() as int),
        0 <= lo <= hi <= m.n(),
    ensures
        ({
            let p = stop_plan_range(m, lo, hi);
            &&& p.len() == hi - lo
            &&& forall|a: int|
                0 <= a < p.len() ==> p[a].stage == hi - 1 - a && p[a].handle == hs[hi - 1 - a]
                    && p[a].grace_ms == m.graces[hi - 1 - a]
        }),
    decreases hi - lo,
{
    if hi <= lo {
    } else {
        lemma_stop_plan_full(m, hs, lo, hi - 1);
    }
}

/// A pipeline that reached `Running` through an all-success startup is shut
/// down by stopping every stage's handle in exactly reversed declaration
/// order: stage `N-1` first, stage `0` last, each with its own grace
/// period.
pub proof fn lemma_shutdown_after_success(
    launch_required: Seq<bool>,
    ready_required: Seq<bool>,
    graces: Seq<u64>,
    hs: Seq<u64>,
)
    requires
        launch_required.len() == hs.len(),
        ready_required.len() == hs.len(),
        graces.len() == hs.len(),
        hs.len() <= usize::MAX,
    ensures
        ({
            let m0 = init_model(launch_required, ready_required, graces);
            let mrun = run(m0, success_events(hs));
            let p = stops_of(mrun, Event::CloseRequested);
            &&& mrun.phase == Phase::Running
            &&& p.len() == hs.len()
            &&& forall|a: int|
                0 <= a < p.len() ==> p[a].stage == hs.len() - 1 - a && p[a].handle == hs[
                    hs.len() - 1 - a] && p[a].grace_ms == graces[hs.len() - 1 - a]
        }),
{
    lemma_startup_all_success(launch_required, ready_required, graces, hs);
    let m0 = init_model(launch_required, ready_required, graces);
    let mrun = run(m0, success_events(hs));
    lemma_stop_plan_full(mrun, hs, 0, mrun.n());
}

/// A cleared range contributes nothing to a stop plan.
proof fn lemma_stop_plan_empty_when_clear(m: SupModel, lo: int, hi: int)
    requires
        0 <= lo,
        hi <= m.handles.len(),
        forall|j: int| lo <= j < hi ==> m.handles[j] is None,
    ensures
        stop_plan_range(m, lo, hi) == Seq::<StopStep>::empty(),
    decreases hi - lo,
{
    if hi <= lo {
    } else {
        lemma_stop_plan_empty_when_clear(m, lo, hi - 1);
        assert(stop_plan_range(m, lo, hi) =~= Seq::<StopStep>::empty());
    }
}

/// Shutdown is idempotent: the first close request takes every handle; a
/// second one — or one racing with the first, serialized either way —
/// finds every slot cleared, stops nothing, and changes nothing.
pub proof fn lemma_shutdown_idempotent(m: SupModel)
    requires
        m.wf(),
    ensures
        ({
            let m1 = next(m, Event::CloseRequested);
            &&& stops_of(m1, Event::CloseRequested) == Seq::<StopStep>::empty()
            &&& next(m1, Event::CloseRequested) == m1
        }),
{
    let m1 = next(m, Event::CloseRequested);
    assert(forall|j: int| 0 <= j < m1.handles.len() ==> m1.handles[j] is None);
    lemma_stop_plan_empty_when_clear(m1, 0, m1.n());
    assert(m1.cleared_handles() =~= m1.handles);
    assert(next(m1, Event::CloseRequested) =~= m1);
}

/// A stage's probe is only ever requested in direct answer to that stage's
/// own launch returning a handle, and the handle is in its slot by then.
pub proof fn lemma_probe_only_after_launch(m: SupModel, e: Event, stage: usize)
    ensures
        emit(m, e) == (Action::ProbeStage { stage }) ==> m.phase == (Phase::Launching { stage })
            && (e matches Event::LaunchOk { handle }) && (stage < m.n() ==> next(m, e).handles[
            stage as int] is Some),
{
}

/// The first slot that can still be empty during startup: everything below
/// the stage currently being brought up is settled, everything at or above
/// it has not been launched yet.
pub open spec fn population_bound(m: SupModel) -> int {
    match m.phase {
        Phase::NotStarted => 0,
        Phase::Launching { stage } => stage as int,
        Phase::AwaitingReady { stage } => stage as int + 1,
        _ => m.n(),
    }
}

/// Handles are populated in declaration order: no slot at or beyond the
/// stage currently being brought up holds a handle.
pub open spec fn populated_in_order(m: SupModel) -> bool {
    forall|j: int| population_bound(m) <= j < m.n() ==> m.handles[j] is None
}

/// A fresh supervisor populates in order, trivially.
pub proof fn lemma_population_order_init(
    launch_required: Seq<bool>,
    ready_required: Seq<bool>,
    graces: Seq<u64>,
)
    requires
        ready_required.len() == launch_required.len(),
        graces.len() == launch_required.len(),
    ensures
        init_model(launch_required, ready_required, graces).wf(),
        populated_in_order(init_model(launch_required, ready_required, graces)),
{
}

/// Every event preserves well-formedness and in-order population: stages
/// are only ever filled at the stage being launched, and never revisited.
pub proof fn lemma_population_order_preserved(m: SupModel, e: Event)
    requires
        m.wf(),
        m.n() <= usize::MAX,
        populated_in_order(m),
    ensures
        next(m, e).wf(),
        populated_in_order(next(m, e)),
        next(m, e).n() == m.n(),
{
    let m1 = next(m, e);
    assert forall|j: int| population_bound(m1) <= j < m1.n() implies m1.handles[j] is None by {
        if population_bound(m) <= j < m.n() {
            assert(m.handles[j] is None);
        }
    }
}

/// In-order population holds along every run from every state that has it —
/// in particular along every run of a fresh supervisor, whatever the events.
pub proof fn lemma_population_order_run(m: SupModel, es: Seq<Event>)
    requires
        m.wf(),
        m.n() <= usize::MAX,
        populated_in_order(m),
    ensures
        run(m, es).wf(),
        populated_in_order(run(m, es)),
        run(m, es).n() == m.n(),
    decreases es.len(),
{
    if es.len() == 0 {
    } else {
        lemma_population_order_preserved(m, es[0]);
        lemma_population_order_run(next(m, es[0]), es.drop_first());
    }
}

/// Is the pipeline past the point of launching anything again?
pub open spec fn wound_down(p: Phase) -> bool {
    p == Phase::ShuttingDown || p == Phase::Stopped || p == Phase::Failed
}

/// A cleared handle table is cleared for good: once the pipeline is wound
/// down with every slot empty, no later event repopulates a slot, launches
/// or probes a stage, or reports the pipeline running.
pub proof fn lemma_no_relaunch_after_clear(m: SupModel, es: Seq<Event>)
    requires
        wound_down(m.phase),
        forall|j: int| 0 <= j < m.handles.len() ==> m.handles[j] is None,
    ensures
        wound_down(run(m, es).phase),
        run(m, es).handles.len() == m.handles.len(),
        forall|j: int| 0 <= j < run(m, es).handles.len() ==> run(m, es).handles[j] is None,
        forall|t: int|
            0 <= t < trace(m, es).len() ==> (trace(m, es)[t] == Action::Ignore || trace(m, es)[t]
                == Action::ExecuteStops),
    decreases es.len(),
{
    if es.len() == 0 {
    } else {
        let m1 = next(m, es[0]);
        assert(wound_down(m1.phase));
        assert(forall|j: int| 0 <= j < m1.handles.len() ==> m1.handles[j] is None);
        lemma_no_relaunch_after_clear(m1, es.drop_first());
        assert(emit(m, es[0]) == Action::Ignore || emit(m, es[0]) == Action::ExecuteStops);
    }
}

} // verus!

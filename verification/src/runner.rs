//! Task runner: the per-task pipeline state machine.
//!
//! One `TaskRunner` drives exactly one task from `Pending` to a terminal
//! status, emitting an ordered stream of snapshot and log updates.  The
//! machine suspends where the pipeline awaits outside work: the
//! hypothesis source (`on_candidates`) and the report writer (`on_report`).
//! The surrounding loop performs that work and feeds the results back in.
//!
//! A ghost history records the view of every emitted snapshot, and the
//! runner invariant carries the stream laws: progress and best score never
//! decrease, the (iteration, phase) pair only moves forward, the hypothesis
//! tails stay capped, and a `Finished` snapshot is the last one ever
//! emitted.

use vstd::prelude::*;
use vstd::arithmetic::div_mod::{lemma_div_is_ordered, lemma_div_multiples_vanish};
use crate::evaluator::{evaluate_hypothesis, noise_of, noise_from_seed, score_of};
use crate::llm::{generation_seed, mock_count, mock_line, RigLlm};
use crate::scheduler::TaskUpdate;
use crate::task::{
    hyp_view, hyps_view, phase_rank, snap_view, status_terminal, status_view, tail_cap,
    tail_hypotheses, Hypothesis, HypView, SnapView, StatusView, TaskDefinition, TaskPhase,
    TaskSnapshot, TaskStatus, IMPROVE_MARGIN, SCORE_ONE, TAIL_CAP, VERIFY_THRESHOLD,
};
use crate::text::{dec_digits, fixed2_digits, fixed2_to_string, u64_to_string};

verus! {

/// Progress reported while generating hypotheses in iteration `i` of `m`:
/// (i - 1/2) / m on the fixed-point scale.
pub open spec fn gen_progress(i: nat, m: nat) -> int {
    (2 * (i as int) - 1) * 5000 / (m as int)
}

/// Progress reported at the end of iteration `i` of `m`: i / m on the
/// fixed-point scale.
pub open spec fn test_progress(i: nat, m: nat) -> int {
    2 * (i as int) * 5000 / (m as int)
}

/// The per-iteration progress values are ordered and stay within the scale.
pub proof fn lemma_progress_steps(i: nat, m: nat)
    requires
        1 <= i <= m,
    ensures
        0 <= test_progress((i - 1) as nat, m) <= gen_progress(i, m),
        gen_progress(i, m) <= test_progress(i, m) <= SCORE_ONE,
{
    let mi = m as int;
    let ii = i as int;
    lemma_div_is_ordered(0, (2 * ii - 2) * 5000, mi);
    lemma_div_is_ordered((2 * ii - 2) * 5000, (2 * ii - 1) * 5000, mi);
    lemma_div_is_ordered((2 * ii - 1) * 5000, 2 * ii * 5000, mi);
    lemma_div_is_ordered(2 * ii * 5000, 2 * mi * 5000, mi);
    lemma_div_multiples_vanish(10000, mi);
    assert(2 * mi * 5000 == mi * 10000) by (nonlinear_arith);
}

/// Pipeline position of one task runner.
#[derive(Clone, Copy, Debug, PartialEq, Eq, Structural)]
pub enum RunnerStep {
    /// Created, nothing emitted yet.
    AwaitingStart,
    /// About to run `next_iteration`; the cancellation flag is polled here.
    IterationBoundary { next_iteration: usize },
    /// Waiting for the hypothesis source's candidates for `iteration`.
    AwaitingCandidates { iteration: usize },
    /// The loop is over; waiting for the report writer's result.
    AwaitingReport,
    /// Terminal; nothing will be emitted any more.
    Finished,
}

/// Ordering of emitted snapshot views within one task: progress and best
/// score never decrease and the (iteration, phase rank) pair moves forward.
pub open spec fn emission_le(a: SnapView, b: SnapView) -> bool {
    &&& a.progress <= b.progress
    &&& a.best_score <= b.best_score
    &&& (a.iteration < b.iteration || (a.iteration == b.iteration && phase_rank(a.phase)
        <= phase_rank(b.phase)))
}

/// What holds of every snapshot a runner emits.
pub open spec fn emitted_wf(v: SnapView) -> bool {
    &&& v.progress <= SCORE_ONE
    &&& v.best_score <= SCORE_ONE
    &&& v.last_score <= SCORE_ONE
    &&& v.verified.len() <= TAIL_CAP
    &&& v.discarded.len() <= TAIL_CAP
    &&& (status_terminal(v.status) <==> v.phase is Finished)
    &&& (v.phase is Finished ==> v.progress == SCORE_ONE)
}

/// Laws of one task's emitted snapshot stream.
pub open spec fn history_wf(h: Seq<SnapView>) -> bool {
    &&& forall|i: int| 0 <= i < h.len() ==> emitted_wf(#[trigger] h[i])
    &&& forall|i: int, j: int|
        0 <= i <= j < h.len() ==> emission_le(#[trigger] h[i], #[trigger] h[j])
    &&& forall|i: int|
        0 <= i < h.len() && (#[trigger] h[i]).phase is Finished ==> i == h.len() - 1
}

/// The per-task pipeline state machine.
pub struct TaskRunner {
    pub definition: TaskDefinition,
    pub snapshot: TaskSnapshot,
    /// All hypotheses classified as verified so far, in insertion order.
    pub verified: Vec<Hypothesis>,
    /// All hypotheses classified as discarded so far, in insertion order.
    pub discarded: Vec<Hypothesis>,
    pub best_score: u32,
    pub best_program: String,
    pub no_improve_streak: usize,
    pub step: RunnerStep,
    /// Views of every snapshot emitted so far, in emission order.
    pub history: Ghost<Seq<SnapView>>,
}

impl TaskRunner {
    /// Step-independent part of the invariant: the emitted stream obeys its
    /// laws, the current snapshot dominates everything emitted, and the
    /// snapshot agrees with the definition and the accumulators.
    pub open spec fn base_inv(self) -> bool {
        let s = self.snapshot;
        let m = self.definition.max_iters;
        let h = self.history@;
        &&& history_wf(h)
        &&& forall|i: int| 0 <= i < h.len() ==> emission_le(#[trigger] h[i], snap_view(s))
        &&& s.id == self.definition.id
        &&& s.name@ == self.definition.name@
        &&& s.max_iters == m
        &&& s.dataset_size == self.definition.dataset.len()
        &&& s.heuristics == self.definition.heuristics
        &&& s.progress <= SCORE_ONE
        &&& s.best_score <= SCORE_ONE
        &&& s.last_score <= SCORE_ONE
        &&& s.verified.len() <= TAIL_CAP
        &&& s.discarded.len() <= TAIL_CAP
        &&& s.best_score == self.best_score
        &&& (status_terminal(status_view(s.status)) <==> s.phase is Finished)
    }

    /// Full runner invariant: the base invariant plus what the current
    /// pipeline position pins down.
    pub open spec fn inv(self) -> bool {
        let s = self.snapshot;
        let m = self.definition.max_iters;
        let h = self.history@;
        &&& self.base_inv()
        &&& (!(self.step is Finished) ==> forall|i: int|
            0 <= i < h.len() ==> !((#[trigger] h[i]).phase is Finished))
        &&& (!(self.step is Finished) ==> s.report_path is None)
        &&& match self.step {
            RunnerStep::AwaitingStart => {
                &&& s.status is Pending
                &&& s.phase == TaskPhase::Defining
                &&& s.progress == 0
                &&& s.iteration == 0
                &&& s.last_score == 0
                &&& s.verified.len() == 0
                &&& s.discarded.len() == 0
                &&& s.report_path is None
                &&& h.len() == 0
                &&& self.verified.len() == 0
                &&& self.discarded.len() == 0
                &&& self.best_score == 0
                &&& self.no_improve_streak == 0
            },
            RunnerStep::IterationBoundary { next_iteration } => {
                &&& 1 <= next_iteration <= m
                &&& s.status is Running
                &&& !(s.phase is Finished) && !(s.phase is Reporting)
                &&& s.iteration == next_iteration - 1
                &&& s.progress <= gen_progress(next_iteration as nat, m as nat)
                &&& self.no_improve_streak <= 1
            },
            RunnerStep::AwaitingCandidates { iteration } => {
                &&& 1 <= iteration <= m
                &&& s.status is Running
                &&& s.phase == TaskPhase::GeneratingHypotheses
                &&& s.iteration == iteration
                &&& s.progress == gen_progress(iteration as nat, m as nat)
                &&& self.no_improve_streak <= 1
            },
            RunnerStep::AwaitingReport => {
                &&& s.status is Running
                &&& s.phase == TaskPhase::Reporting
                &&& s.iteration <= m
            },
            RunnerStep::Finished => true,
        }
    }

    /// Fresh runner for a definition: a pending snapshot, empty
    /// accumulators, nothing emitted.
    pub fn new(definition: TaskDefinition) -> (r: TaskRunner)
        ensures
            r.inv(),
            r.step == RunnerStep::AwaitingStart,
            r.definition == definition,
            r.history@.len() == 0,
            r.verified.len() == 0,
            r.discarded.len() == 0,
            r.best_score == 0,
            r.no_improve_streak == 0,
            snap_view(r.snapshot).name == definition.name@,
            snap_view(r.snapshot).id == definition.id as nat,
    {
        let snapshot = TaskSnapshot::from_definition(&definition);
        TaskRunner {
            definition,
            snapshot,
            verified: Vec::new(),
            discarded: Vec::new(),
            best_score: 0,
            best_program: String::from_str("uninitialized"),
            no_improve_streak: 0,
            step: RunnerStep::AwaitingStart,
            history: Ghost(Seq::empty()),
        }
    }
}

/// A snapshot whose view dominates the whole stream and satisfies the
/// per-emission laws can be appended to it.
proof fn lemma_history_push(h: Seq<SnapView>, cur: SnapView)
    requires
        history_wf(h),
        forall|i: int| 0 <= i < h.len() ==> emission_le(#[trigger] h[i], cur),
        forall|i: int| 0 <= i < h.len() ==> !((#[trigger] h[i]).phase is Finished),
        emitted_wf(cur),
    ensures
        history_wf(h.push(cur)),
        forall|i: int| 0 <= i < h.push(cur).len() ==> emission_le(#[trigger] h.push(cur)[i], cur),
{
    let h2 = h.push(cur);
    assert forall|i: int, j: int| 0 <= i <= j < h2.len() implies emission_le(
        #[trigger] h2[i],
        #[trigger] h2[j],
    ) by {
        if j < h.len() {
        } else {
            assert(h2[j] == cur);
            if i < h.len() {
                assert(emission_le(h[i], cur));
            }
        }
    }
    assert forall|i: int|
        0 <= i < h2.len() && (#[trigger] h2[i]).phase is Finished implies i == h2.len() - 1 by {
        if i < h.len() {
            assert(!(h[i].phase is Finished));
        }
    }
}

/// `emission_le` is transitive, so a new snapshot that dominates the
/// current one dominates everything emitted before it.
proof fn lemma_dominates(h: Seq<SnapView>, old_v: SnapView, new_v: SnapView)
    requires
        forall|i: int| 0 <= i < h.len() ==> emission_le(#[trigger] h[i], old_v),
        emission_le(old_v, new_v),
    ensures
        forall|i: int| 0 <= i < h.len() ==> emission_le(#[trigger] h[i], new_v),
{
    assert forall|i: int| 0 <= i < h.len() implies emission_le(#[trigger] h[i], new_v) by {
        assert(emission_le(h[i], old_v));
    }
}

// ---------------------------------------------------------------------------
// Emitted updates, described in contracts.
// ---------------------------------------------------------------------------

/// Whether `u` is a snapshot update whose view is `v`.
pub open spec fn is_upsert_of(u: TaskUpdate, v: SnapView) -> bool {
    match u {
        TaskUpdate::Upsert(s) => snap_view(s) == v,
        _ => false,
    }
}

/// Whether `u` is a log line for task `id` with text `msg`.
pub open spec fn is_log(u: TaskUpdate, id: nat, msg: Seq<char>) -> bool {
    match u {
        TaskUpdate::Log { id: i, message } => i as nat == id && message@ == msg,
        _ => false,
    }
}

/// The views of the snapshots carried by a list of updates, in emission
/// order (log lines contribute nothing).
pub open spec fn upsert_views(out: Seq<TaskUpdate>) -> Seq<SnapView>
    decreases out.len(),
{
    if out.len() == 0 {
        Seq::empty()
    } else {
        upsert_views(out.drop_last()) + (match out.last() {
            TaskUpdate::Upsert(s) => seq![snap_view(s)],
            TaskUpdate::Log { .. } => Seq::empty(),
        })
    }
}

/// Snapshot views distribute over concatenation of update lists.
proof fn lemma_upsert_views_concat(a: Seq<TaskUpdate>, b: Seq<TaskUpdate>)
    ensures
        upsert_views(a + b) == upsert_views(a) + upsert_views(b),
    decreases b.len(),
{
    if b.len() == 0 {
        assert(a + b =~= a);
        assert(upsert_views(a) + upsert_views(b) =~= upsert_views(a));
    } else {
        lemma_upsert_views_concat(a, b.drop_last());
        assert((a + b).drop_last() =~= a + b.drop_last());
        assert((a + b).last() == b.last());
        assert(upsert_views(a + b) =~= upsert_views(a) + upsert_views(b));
    }
}

/// An update list made of one snapshot followed by a log line carries
/// exactly that snapshot's view.
proof fn lemma_views_upsert_log(m: Seq<TaskUpdate>, v: SnapView)
    requires
        m.len() == 2,
        is_upsert_of(m[0], v),
        m[1] is Log,
    ensures
        upsert_views(m) == seq![v],
{
    let m1 = m.drop_last();
    assert(m1.drop_last() =~= Seq::<TaskUpdate>::empty());
    assert(upsert_views(Seq::<TaskUpdate>::empty()) =~= Seq::<SnapView>::empty());
    assert(m1.last() == m[0]);
    assert(upsert_views(m1) =~= seq![v]);
    assert(m.last() == m[1]);
    assert(upsert_views(m) =~= seq![v]);
}

/// The update list of a start that falls straight through to reporting
/// carries the two snapshots in order.
proof fn lemma_views_start_report(m: Seq<TaskUpdate>, v1: SnapView, v2: SnapView)
    requires
        m.len() == 4,
        is_upsert_of(m[0], v1),
        m[1] is Log,
        is_upsert_of(m[2], v2),
        m[3] is Log,
    ensures
        upsert_views(m) == seq![v1, v2],
{
    let m3 = m.drop_last();
    let m2 = m3.drop_last();
    assert(m2.len() == 2 && m2[0] == m[0] && m2[1] == m[1]);
    lemma_views_upsert_log(m2, v1);
    assert(m3.last() == m[2]);
    assert(upsert_views(m3) =~= seq![v1, v2]);
    assert(m.last() == m[3]);
    assert(upsert_views(m) =~= seq![v1, v2]);
}

/// The update list of one full iteration carries the evaluating, reducing,
/// synthesizing and testing snapshots in order.
proof fn lemma_views_iteration(
    m: Seq<TaskUpdate>,
    ve: SnapView,
    vr: SnapView,
    vs: SnapView,
    vt: SnapView,
)
    requires
        m.len() == 6,
        is_upsert_of(m[0], ve),
        m[1] is Log,
        is_upsert_of(m[2], vr),
        m[3] is Log,
        is_upsert_of(m[4], vs),
        is_upsert_of(m[5], vt),
    ensures
        upsert_views(m) == seq![ve, vr, vs, vt],
{
    let m5 = m.drop_last();
    let m4 = m5.drop_last();
    assert(m4.len() == 4 && m4[0] == m[0] && m4[1] == m[1] && m4[2] == m[2] && m4[3] == m[3]);
    let m3 = m4.drop_last();
    let m2 = m3.drop_last();
    assert(m2.len() == 2 && m2[0] == m[0] && m2[1] == m[1]);
    lemma_views_upsert_log(m2, ve);
    assert(m3.last() == m[2]);
    assert(upsert_views(m3) =~= seq![ve, vr]);
    assert(m4.last() == m[3]);
    assert(upsert_views(m4) =~= seq![ve, vr]);
    assert(m5.last() == m[4]);
    assert(upsert_views(m5) =~= seq![ve, vr, vs]);
    assert(m.last() == m[5]);
    assert(upsert_views(m) =~= seq![ve, vr, vs, vt]);
}

/// The update list of a final iteration additionally carries the reporting
/// snapshot.
proof fn lemma_views_iteration_report(
    m: Seq<TaskUpdate>,
    ve: SnapView,
    vr: SnapView,
    vs: SnapView,
    vt: SnapView,
    vrep: SnapView,
)
    requires
        m.len() == 8,
        is_upsert_of(m[0], ve),
        m[1] is Log,
        is_upsert_of(m[2], vr),
        m[3] is Log,
        is_upsert_of(m[4], vs),
        is_upsert_of(m[5], vt),
        is_upsert_of(m[6], vrep),
        m[7] is Log,
    ensures
        upsert_views(m) == seq![ve, vr, vs, vt, vrep],
{
    let m7 = m.drop_last();
    let m6 = m7.drop_last();
    assert(m6.len() == 6 && m6[0] == m[0] && m6[1] == m[1] && m6[2] == m[2] && m6[3] == m[3]
        && m6[4] == m[4] && m6[5] == m[5]);
    lemma_views_iteration(m6, ve, vr, vs, vt);
    assert(m7.last() == m[6]);
    assert(upsert_views(m7) =~= seq![ve, vr, vs, vt, vrep]);
    assert(m.last() == m[7]);
    assert(upsert_views(m) =~= seq![ve, vr, vs, vt, vrep]);
}

/// Log line emitted when a task starts.
pub open spec fn log_started() -> Seq<char> {
    "Task started with mock dataset."@
}

/// Log line emitted when iteration `i` starts generating.
pub open spec fn log_generating(i: nat) -> Seq<char> {
    "Iteration "@ + dec_digits(i) + ": generating hypotheses."@
}

/// Log line emitted when iteration `i` starts evaluating.
pub open spec fn log_evaluating(i: nat) -> Seq<char> {
    "Iteration "@ + dec_digits(i) + ": evaluating hypotheses."@
}

/// Log line emitted when iteration `i` improved the best score.
pub open spec fn log_improved(i: nat, best: nat) -> Seq<char> {
    "Iteration "@ + dec_digits(i) + ": new best score "@ + fixed2_digits(best) + "."@
}

/// Log line emitted when iteration `i` did not improve the best score.
pub open spec fn log_no_improvement(i: nat) -> Seq<char> {
    "Iteration "@ + dec_digits(i) + ": no improvement."@
}

/// Log line emitted when the report is being generated.
pub open spec fn log_reporting() -> Seq<char> {
    "Generating report."@
}

/// Builds the log prefix "Iteration <i>".
fn iteration_prefix(i: usize) -> (r: String)
    ensures
        r@ == "Iteration "@ + dec_digits(i as nat),
{
    let mut s = String::from_str("Iteration ");
    let part = u64_to_string(i as u64);
    s.append(part.as_str());
    s
}

/// Appends a log update for task `id`.
fn push_log(out: &mut Vec<TaskUpdate>, id: usize, message: String)
    ensures
        final(out)@.len() == old(out)@.len() + 1,
        final(out)@.subrange(0, old(out)@.len() as int) == old(out)@,
        is_log(final(out)@.last(), id as nat, message@),
{
    out.push(TaskUpdate::Log { id, message });
    proof {
        assert(final(out)@.subrange(0, old(out)@.len() as int) =~= old(out)@);
    }
}

impl TaskRunner {
    /// Appends a copy of the current snapshot to the update list and
    /// records its view in the history.
    fn emit(&mut self, out: &mut Vec<TaskUpdate>)
        ensures
            final(self).definition == old(self).definition,
            final(self).snapshot == old(self).snapshot,
            final(self).verified == old(self).verified,
            final(self).discarded == old(self).discarded,
            final(self).best_score == old(self).best_score,
            final(self).best_program == old(self).best_program,
            final(self).no_improve_streak == old(self).no_improve_streak,
            final(self).step == old(self).step,
            final(self).history@ == old(self).history@.push(snap_view(old(self).snapshot)),
            final(out)@.len() == old(out)@.len() + 1,
            final(out)@.subrange(0, old(out)@.len() as int) == old(out)@,
            is_upsert_of(final(out)@.last(), snap_view(old(self).snapshot)),
    {
        let dup = self.snapshot.duplicate();
        out.push(TaskUpdate::Upsert(dup));
        self.history = Ghost(self.history@.push(snap_view(self.snapshot)));
        proof {
            assert(final(out)@.subrange(0, old(out)@.len() as int) =~= old(out)@);
        }
    }

    /// The view the snapshot will have once the runner starts: running, in
    /// the generating phase, before any iteration.
    pub open spec fn started_view(d: TaskDefinition, name: Seq<char>) -> SnapView {
        SnapView {
            id: d.id as nat,
            name: name,
            status: StatusView::Running,
            phase: TaskPhase::GeneratingHypotheses,
            progress: 0,
            iteration: 0,
            max_iters: d.max_iters as nat,
            dataset_size: d.dataset.len() as nat,
            heuristics: d.heuristics,
            verified: Seq::empty(),
            discarded: Seq::empty(),
            best_score: 0,
            last_score: 0,
            report_path: None,
        }
    }

    /// Starts the task: marks it running, emits the initial snapshot and
    /// start log line, and moves to the first iteration boundary — or, when
    /// the iteration budget is zero, straight to the reporting stage.
    pub fn start(&mut self) -> (out: Vec<TaskUpdate>)
        requires
            old(self).inv(),
            old(self).step is AwaitingStart,
        ensures
            final(self).inv(),
            final(self).definition == old(self).definition,
            final(self).verified == old(self).verified,
            final(self).discarded == old(self).discarded,
            final(self).best_score == 0,
            final(self).no_improve_streak == old(self).no_improve_streak,
            ({
                let d = old(self).definition;
                let v1 = TaskRunner::started_view(d, old(self).snapshot.name@);
                if d.max_iters >= 1 {
                    &&& final(self).step == (RunnerStep::IterationBoundary { next_iteration: 1 })
                    &&& snap_view(final(self).snapshot) == v1
                    &&& final(self).history@ == seq![v1]
                    &&& out@.len() == 2
                    &&& is_upsert_of(out@[0], v1)
                    &&& is_log(out@[1], d.id as nat, log_started())
                } else {
                    let v2 = (SnapView { phase: TaskPhase::Reporting, ..v1 });
                    &&& final(self).step == RunnerStep::AwaitingReport
                    &&& snap_view(final(self).snapshot) == v2
                    &&& final(self).history@ == seq![v1, v2]
                    &&& out@.len() == 4
                    &&& is_upsert_of(out@[0], v1)
                    &&& is_log(out@[1], d.id as nat, log_started())
                    &&& is_upsert_of(out@[2], v2)
                    &&& is_log(out@[3], d.id as nat, log_reporting())
                }
            }),
    {
        let mut out: Vec<TaskUpdate> = Vec::new();
        let ghost v1 = TaskRunner::started_view(old(self).definition, old(self).snapshot.name@);
        self.snapshot.status = TaskStatus::Running;
        self.snapshot.phase = TaskPhase::GeneratingHypotheses;
        proof {
            assert(snap_view(self.snapshot) =~~= v1);
        }
        self.emit(&mut out);
        push_log(&mut out, self.definition.id, String::from_str("Task started with mock dataset."));
        proof {
            assert(self.history@ =~= seq![v1]);
        }
        if self.definition.max_iters >= 1 {
            self.step = RunnerStep::IterationBoundary { next_iteration: 1 };
            proof {
                lemma_progress_steps(1, self.definition.max_iters as nat);
            }
        } else {
            self.enter_reporting(&mut out);
            proof {
                let v2 = (SnapView { phase: TaskPhase::Reporting, ..v1 });
                assert(self.history@ =~= seq![v1, v2]);
            }
        }
        out
    }

    /// Moves the task to the reporting phase: emits the reporting snapshot
    /// and log line and awaits the report writer's result.
    fn enter_reporting(&mut self, out: &mut Vec<TaskUpdate>)
        requires
            old(self).base_inv(),
            forall|i: int|
                0 <= i < old(self).history@.len() ==> !((#[trigger] old(
                    self,
                ).history@[i]).phase is Finished),
            old(self).snapshot.status is Running,
            !(old(self).snapshot.phase is Finished),
            !(old(self).snapshot.phase is Reporting),
            old(self).snapshot.report_path is None,
            old(self).snapshot.iteration <= old(self).definition.max_iters,
        ensures
            final(self).inv(),
            final(self).definition == old(self).definition,
            final(self).verified == old(self).verified,
            final(self).discarded == old(self).discarded,
            final(self).best_score == old(self).best_score,
            final(self).best_program == old(self).best_program,
            final(self).no_improve_streak == old(self).no_improve_streak,
            final(self).step == RunnerStep::AwaitingReport,
            snap_view(final(self).snapshot) == (SnapView {
                phase: TaskPhase::Reporting,
                ..snap_view(old(self).snapshot)
            }),
            final(self).history@ == old(self).history@.push(snap_view(final(self).snapshot)),
            final(out)@.len() == old(out)@.len() + 2,
            final(out)@.subrange(0, old(out)@.len() as int) == old(out)@,
            is_upsert_of(final(out)@[old(out)@.len() as int], snap_view(final(self).snapshot)),
            is_log(final(out)@.last(), old(self).definition.id as nat, log_reporting()),
    {
        let ghost old_view = snap_view(self.snapshot);
        let ghost h0 = self.history@;
        let ghost out0 = out@;
        self.snapshot.phase = TaskPhase::Reporting;
        proof {
            lemma_dominates(h0, old_view, snap_view(self.snapshot));
            lemma_history_push(h0, snap_view(self.snapshot));
        }
        self.emit(out);
        push_log(out, self.definition.id, String::from_str("Generating report."));
        self.step = RunnerStep::AwaitingReport;
        proof {
            assert(final(out)@.subrange(0, out0.len() as int) =~= out0);
            assert(final(out)@[out0.len() as int] == final(out)@.subrange(
                out0.len() as int,
                out0.len() as int + 2,
            )[0]);
        }
    }

    /// Polls the cancellation flag at an iteration boundary.  A cancelled
    /// task emits exactly one final snapshot (`Cancelled` / `Finished`, at
    /// full progress, as the last snapshot of every task must be) and
    /// stops; otherwise the next iteration starts generating.
    pub fn poll_cancel(&mut self, cancelled: bool) -> (out: Vec<TaskUpdate>)
        requires
            old(self).inv(),
            old(self).step is IterationBoundary,
        ensures
            final(self).inv(),
            final(self).definition == old(self).definition,
            final(self).verified == old(self).verified,
            final(self).discarded == old(self).discarded,
            final(self).best_score == old(self).best_score,
            final(self).best_program == old(self).best_program,
            final(self).no_improve_streak == old(self).no_improve_streak,
            ({
                let i = old(self).step->IterationBoundary_next_iteration;
                let m = old(self).definition.max_iters;
                if cancelled {
                    let v = (SnapView {
                        status: StatusView::Cancelled,
                        phase: TaskPhase::Finished,
                        progress: SCORE_ONE as nat,
                        ..snap_view(old(self).snapshot)
                    });
                    &&& final(self).step == RunnerStep::Finished
                    &&& snap_view(final(self).snapshot) == v
                    &&& final(self).history@ == old(self).history@.push(v)
                    &&& out@.len() == 1
                    &&& is_upsert_of(out@[0], v)
                    &&& v.iteration == i - 1
                    &&& v.progress == SCORE_ONE
                } else {
                    let v = (SnapView {
                        iteration: i as nat,
                        phase: TaskPhase::GeneratingHypotheses,
                        progress: gen_progress(i as nat, m as nat) as nat,
                        ..snap_view(old(self).snapshot)
                    });
                    &&& final(self).step == (RunnerStep::AwaitingCandidates { iteration: i })
                    &&& snap_view(final(self).snapshot) == v
                    &&& final(self).history@ == old(self).history@.push(v)
                    &&& out@.len() == 2
                    &&& is_upsert_of(out@[0], v)
                    &&& is_log(out@[1], old(self).definition.id as nat, log_generating(i as nat))
                }
            }),
    {
        let i = match self.step {
            RunnerStep::IterationBoundary { next_iteration } => next_iteration,
            _ => 0,
        };
        let mut out: Vec<TaskUpdate> = Vec::new();
        let ghost old_view = snap_view(self.snapshot);
        let ghost h0 = self.history@;
        if cancelled {
            self.snapshot.status = TaskStatus::Cancelled;
            self.snapshot.phase = TaskPhase::Finished;
            self.snapshot.progress = SCORE_ONE;
            proof {
                lemma_dominates(h0, old_view, snap_view(self.snapshot));
                lemma_history_push(h0, snap_view(self.snapshot));
            }
            self.emit(&mut out);
            self.step = RunnerStep::Finished;
        } else {
            let m = self.definition.max_iters;
            proof {
                lemma_progress_steps(i as nat, m as nat);
            }
            let progress = compute_gen_progress(i, m);
            self.snapshot.iteration = i;
            self.snapshot.phase = TaskPhase::GeneratingHypotheses;
            self.snapshot.progress = progress;
            proof {
                lemma_dominates(h0, old_view, snap_view(self.snapshot));
                lemma_history_push(h0, snap_view(self.snapshot));
            }
            self.emit(&mut out);
            let mut msg = iteration_prefix(i);
            msg.append(": generating hypotheses.");
            proof {
                assert(msg@ =~= log_generating(i as nat));
            }
            push_log(&mut out, self.definition.id, msg);
            self.step = RunnerStep::AwaitingCandidates { iteration: i };
        }
        out
    }
}

// ---------------------------------------------------------------------------
// One iteration's evaluation step.
// ---------------------------------------------------------------------------

/// The iteration's best score: the maximum over all scored hypotheses,
/// verified or discarded alike, 0 when there are none.  A hypothesis that
/// falls below the verification threshold still counts here, so it can
/// drive the running best and the improvement rule.
pub open spec fn iteration_best(s: Seq<HypView>) -> nat
    decreases s.len(),
{
    if s.len() == 0 {
        0
    } else {
        let rest = iteration_best(s.drop_last());
        let sc = s.last().score;
        if sc > rest {
            sc
        } else {
            rest
        }
    }
}

/// The scored hypotheses that classify as verified, in order.
pub open spec fn keep_verified(s: Seq<HypView>) -> Seq<HypView>
    decreases s.len(),
{
    if s.len() == 0 {
        Seq::empty()
    } else if s.last().score >= VERIFY_THRESHOLD {
        keep_verified(s.drop_last()).push(s.last())
    } else {
        keep_verified(s.drop_last())
    }
}

/// The scored hypotheses that classify as discarded, in order.
pub open spec fn keep_discarded(s: Seq<HypView>) -> Seq<HypView>
    decreases s.len(),
{
    if s.len() == 0 {
        Seq::empty()
    } else if s.last().score < VERIFY_THRESHOLD {
        keep_discarded(s.drop_last()).push(s.last())
    } else {
        keep_discarded(s.drop_last())
    }
}

/// Everything classified as verified scores at or above the threshold.
pub proof fn lemma_keep_verified_scores(s: Seq<HypView>, k: int)
    requires
        0 <= k < keep_verified(s).len(),
    ensures
        keep_verified(s)[k].score >= VERIFY_THRESHOLD,
    decreases s.len(),
{
    if s.len() > 0 {
        if s.last().score >= VERIFY_THRESHOLD {
            if k < keep_verified(s.drop_last()).len() {
                lemma_keep_verified_scores(s.drop_last(), k);
            }
        } else {
            lemma_keep_verified_scores(s.drop_last(), k);
        }
    }
}

/// Everything classified as discarded scores below the threshold.
pub proof fn lemma_keep_discarded_scores(s: Seq<HypView>, k: int)
    requires
        0 <= k < keep_discarded(s).len(),
    ensures
        keep_discarded(s)[k].score < VERIFY_THRESHOLD,
    decreases s.len(),
{
    if s.len() > 0 {
        if s.last().score < VERIFY_THRESHOLD {
            if k < keep_discarded(s.drop_last()).len() {
                lemma_keep_discarded_scores(s.drop_last(), k);
            }
        } else {
            lemma_keep_discarded_scores(s.drop_last(), k);
        }
    }
}

/// Whether an iteration's best score improves on the running best by more
/// than the margin.
pub open spec fn improves(best: nat, it_best: nat) -> bool {
    it_best > best + IMPROVE_MARGIN
}

/// The no-improvement streak after an iteration.
pub open spec fn streak_after(streak: nat, best: nat, it_best: nat) -> nat {
    if improves(best, it_best) {
        0
    } else {
        streak + 1
    }
}

/// The running best score after an iteration.
pub open spec fn best_after(best: nat, it_best: nat) -> nat {
    if improves(best, it_best) {
        it_best
    } else {
        best
    }
}

/// Whether the iteration loop stops after iteration `i` of `m` with the
/// given no-improvement streak: two stalled iterations in a row, or the
/// budget is spent.
pub open spec fn loop_exits(streak: nat, i: nat, m: nat) -> bool {
    streak >= 2 || i >= m
}

/// Stopping rule: two consecutive non-improving iterations end the loop,
/// whatever the remaining budget.
pub proof fn lemma_stopping_rule(streak: nat, best1: nat, it1: nat, it2: nat, i: nat, m: nat)
    requires
        !improves(best1, it1),
        !improves(best_after(best1, it1), it2),
    ensures
        loop_exits(
            streak_after(streak_after(streak, best1, it1), best_after(best1, it1), it2),
            i,
            m,
        ),
{
}

/// Placeholder program artifact regenerated when iteration `i` improves
/// the best score.
pub open spec fn program_text(i: nat) -> Seq<char> {
    "fn solve(images: &[Image]) -> Vec<Label> { /* v"@ + dec_digits(i) + " */ }"@
}

/// Builds the placeholder program artifact for iteration `i`.
fn program_text_exec(i: usize) -> (r: String)
    ensures
        r@ == program_text(i as nat),
{
    let mut s = String::from_str("fn solve(images: &[Image]) -> Vec<Label> { /* v");
    let part = u64_to_string(i as u64);
    s.append(part.as_str());
    s.append(" */ }");
    proof {
        assert(s@ =~= program_text(i as nat));
    }
    s
}

/// Everything one iteration's evaluation step pins down, given the views
/// `sv` of the scored hypotheses: how the cumulative lists, the best score,
/// the streak and the snapshot change, and exactly which updates go out.
pub open spec fn evaluation_post(
    pre: TaskRunner,
    post: TaskRunner,
    out: Seq<TaskUpdate>,
    sv: Seq<HypView>,
) -> bool {
    let i = pre.step->AwaitingCandidates_iteration;
    let m = pre.definition.max_iters;
    let ib = iteration_best(sv);
    let ver2 = hyps_view(pre.verified@) + keep_verified(sv);
    let dis2 = hyps_view(pre.discarded@) + keep_discarded(sv);
    let b0 = pre.best_score as nat;
    let k0 = pre.no_improve_streak as nat;
    let b2 = best_after(b0, ib);
    let k2 = streak_after(k0, b0, ib);
    let v0 = snap_view(pre.snapshot);
    let ve = (SnapView { phase: TaskPhase::EvaluatingHypotheses, ..v0 });
    let vr = (SnapView {
        phase: TaskPhase::Reducing,
        verified: tail_cap(ver2),
        discarded: tail_cap(dis2),
        last_score: ib,
        ..v0
    });
    let vs = (SnapView { phase: TaskPhase::Synthesizing, best_score: b2, ..vr });
    let vt = (SnapView {
        phase: TaskPhase::Testing,
        progress: test_progress(i as nat, m as nat) as nat,
        ..vs
    });
    let vrep = (SnapView { phase: TaskPhase::Reporting, ..vt });
    &&& hyps_view(post.verified@) == ver2
    &&& hyps_view(post.discarded@) == dis2
    &&& post.best_score == b2
    &&& post.no_improve_streak == k2
    &&& (improves(b0, ib) ==> post.best_program@ == program_text(i as nat))
    &&& (!improves(b0, ib) ==> post.best_program@ == pre.best_program@)
    &&& is_upsert_of(out[0], ve)
    &&& is_log(out[1], pre.definition.id as nat, log_evaluating(i as nat))
    &&& is_upsert_of(out[2], vr)
    &&& (improves(b0, ib) ==> is_log(out[3], pre.definition.id as nat, log_improved(i as nat, b2)))
    &&& (!improves(b0, ib) ==> is_log(out[3], pre.definition.id as nat, log_no_improvement(i as nat)))
    &&& is_upsert_of(out[4], vs)
    &&& is_upsert_of(out[5], vt)
    &&& if loop_exits(k2, i as nat, m as nat) {
        &&& post.step == RunnerStep::AwaitingReport
        &&& snap_view(post.snapshot) == vrep
        &&& out.len() == 8
        &&& is_upsert_of(out[6], vrep)
        &&& is_log(out[7], pre.definition.id as nat, log_reporting())
        &&& post.history@ == pre.history@ + seq![ve, vr, vs, vt, vrep]
    } else {
        &&& post.step == (RunnerStep::IterationBoundary { next_iteration: (i + 1) as usize })
        &&& snap_view(post.snapshot) == vt
        &&& out.len() == 6
        &&& post.history@ == pre.history@ + seq![ve, vr, vs, vt]
    }
}

impl TaskRunner {
    /// Classifies one iteration's scored hypotheses into the cumulative
    /// verified / discarded lists and returns the iteration's best score.
    fn classify(&mut self, scored: &Vec<Hypothesis>) -> (it_best: u32)
        ensures
            hyps_view(final(self).verified@) == hyps_view(old(self).verified@) + keep_verified(
                hyps_view(scored@),
            ),
            hyps_view(final(self).discarded@) == hyps_view(old(self).discarded@) + keep_discarded(
                hyps_view(scored@),
            ),
            it_best as nat == iteration_best(hyps_view(scored@)),
            final(self).definition == old(self).definition,
            final(self).snapshot == old(self).snapshot,
            final(self).best_score == old(self).best_score,
            final(self).best_program == old(self).best_program,
            final(self).no_improve_streak == old(self).no_improve_streak,
            final(self).step == old(self).step,
            final(self).history@ == old(self).history@,
    {
        let ghost sv = hyps_view(scored@);
        let mut it_best: u32 = 0;
        let mut idx: usize = 0;
        while idx < scored.len()
            invariant
                0 <= idx <= scored.len(),
                sv == hyps_view(scored@),
                sv.len() == scored@.len(),
                hyps_view(self.verified@) == hyps_view(old(self).verified@) + keep_verified(
                    sv.subrange(0, idx as int),
                ),
                hyps_view(self.discarded@) == hyps_view(old(self).discarded@) + keep_discarded(
                    sv.subrange(0, idx as int),
                ),
                it_best as nat == iteration_best(sv.subrange(0, idx as int)),
                self.definition == old(self).definition,
                self.snapshot == old(self).snapshot,
                self.best_score == old(self).best_score,
                self.best_program == old(self).best_program,
                self.no_improve_streak == old(self).no_improve_streak,
                self.step == old(self).step,
                self.history@ == old(self).history@,
            decreases scored.len() - idx,
        {
            let h = scored[idx].duplicate();
            let ghost hv = hyp_view(h);
            let ghost pre = sv.subrange(0, idx as int);
            let ghost post = sv.subrange(0, idx as int + 1);
            let ghost ver_prev = self.verified@;
            let ghost dis_prev = self.discarded@;
            proof {
                assert(post.drop_last() =~= pre);
                assert(post.last() == sv[idx as int]);
                assert(sv[idx as int] == hyp_view(scored@[idx as int]));
                assert(hv == post.last());
            }
            if h.score > it_best {
                it_best = h.score;
            }
            if h.score >= VERIFY_THRESHOLD {
                self.verified.push(h);
                proof {
                    lemma_hyps_view_push(ver_prev, hv);
                    assert(keep_verified(post) == keep_verified(pre).push(post.last()));
                    assert(keep_discarded(post) == keep_discarded(pre));
                    assert(hyps_view(self.verified@) =~= hyps_view(old(self).verified@)
                        + keep_verified(post));
                }
            } else {
                self.discarded.push(h);
                proof {
                    lemma_hyps_view_push(dis_prev, hv);
                    assert(keep_discarded(post) == keep_discarded(pre).push(post.last()));
                    assert(keep_verified(post) == keep_verified(pre));
                    assert(hyps_view(self.discarded@) =~= hyps_view(old(self).discarded@)
                        + keep_discarded(post));
                }
            }
            idx = idx + 1;
        }
        proof {
            assert(sv.subrange(0, scored@.len() as int) =~= sv);
        }
        it_best
    }

    /// Runs one iteration's evaluating / reducing / synthesizing / testing
    /// phases on externally scored hypotheses: classifies them against the
    /// verification threshold, updates the bounded snapshot tails and the
    /// best score, applies the improvement rule to the no-improvement
    /// streak, and either moves to the next iteration boundary or — after
    /// two stalled iterations or the last one — to the reporting stage.
    pub fn on_scored_hypotheses(&mut self, scored: Vec<Hypothesis>) -> (out: Vec<TaskUpdate>)
        requires
            old(self).inv(),
            old(self).step is AwaitingCandidates,
            forall|k: int|
                0 <= k < scored@.len() ==> (#[trigger] scored@[k]).score <= SCORE_ONE,
        ensures
            final(self).inv(),
            final(self).definition == old(self).definition,
            evaluation_post(*old(self), *final(self), out@, hyps_view(scored@)),
    {
        let i = match self.step {
            RunnerStep::AwaitingCandidates { iteration } => iteration,
            _ => 0,
        };
        let m = self.definition.max_iters;
        let mut out: Vec<TaskUpdate> = Vec::new();

        // Evaluating: announce the phase, then classify every candidate.
        let ghost h0 = self.history@;
        let ghost v0 = snap_view(self.snapshot);
        self.snapshot.phase = TaskPhase::EvaluatingHypotheses;
        proof {
            assert(snap_view(self.snapshot) =~~= (SnapView {
                phase: TaskPhase::EvaluatingHypotheses,
                ..v0
            }));
            lemma_dominates(h0, v0, snap_view(self.snapshot));
            lemma_history_push(h0, snap_view(self.snapshot));
        }
        self.emit(&mut out);
        let mut msg = iteration_prefix(i);
        msg.append(": evaluating hypotheses.");
        proof {
            assert(msg@ =~= log_evaluating(i as nat));
        }
        push_log(&mut out, self.definition.id, msg);

        let it_best = self.classify(&scored);
        proof {
            lemma_iteration_best_bound(hyps_view(scored@));
        }

        // Reducing: refresh the bounded tails and the last score.
        let ghost h1 = self.history@;
        let ghost v1 = snap_view(self.snapshot);
        let ver_tail = tail_hypotheses(&self.verified, TAIL_CAP);
        let dis_tail = tail_hypotheses(&self.discarded, TAIL_CAP);
        self.snapshot.phase = TaskPhase::Reducing;
        self.snapshot.verified = ver_tail;
        self.snapshot.discarded = dis_tail;
        self.snapshot.last_score = it_best;
        proof {
            assert(hyps_view(self.snapshot.verified@) =~= tail_cap(hyps_view(self.verified@)));
            assert(hyps_view(self.snapshot.discarded@) =~= tail_cap(hyps_view(self.discarded@)));
            assert(snap_view(self.snapshot) =~~= (SnapView {
                phase: TaskPhase::Reducing,
                verified: tail_cap(hyps_view(self.verified@)),
                discarded: tail_cap(hyps_view(self.discarded@)),
                last_score: it_best as nat,
                ..v0
            }));
            lemma_dominates(h1, v1, snap_view(self.snapshot));
            lemma_history_push(h1, snap_view(self.snapshot));
        }
        self.emit(&mut out);

        // Synthesizing: apply the improvement rule, then publish the best.
        let ghost h2 = self.history@;
        let ghost v2 = snap_view(self.snapshot);
        self.snapshot.phase = TaskPhase::Synthesizing;
        if it_best > self.best_score + IMPROVE_MARGIN {
            self.best_score = it_best;
            self.best_program = program_text_exec(i);
            self.no_improve_streak = 0;
            let mut msg = iteration_prefix(i);
            msg.append(": new best score ");
            let part = fixed2_to_string(self.best_score);
            msg.append(part.as_str());
            msg.append(".");
            proof {
                assert(msg@ =~= log_improved(i as nat, self.best_score as nat));
            }
            push_log(&mut out, self.definition.id, msg);
        } else {
            self.no_improve_streak = self.no_improve_streak + 1;
            let mut msg = iteration_prefix(i);
            msg.append(": no improvement.");
            proof {
                assert(msg@ =~= log_no_improvement(i as nat));
            }
            push_log(&mut out, self.definition.id, msg);
        }
        self.snapshot.best_score = self.best_score;
        proof {
            assert(snap_view(self.snapshot) =~~= (SnapView {
                phase: TaskPhase::Synthesizing,
                best_score: self.best_score as nat,
                ..v2
            }));
            lemma_dominates(h2, v2, snap_view(self.snapshot));
            lemma_history_push(h2, snap_view(self.snapshot));
        }
        self.emit(&mut out);

        // Testing: report the end-of-iteration progress.
        let ghost h3 = self.history@;
        let ghost v3 = snap_view(self.snapshot);
        proof {
            lemma_progress_steps(i as nat, m as nat);
        }
        self.snapshot.phase = TaskPhase::Testing;
        self.snapshot.progress = compute_test_progress(i, m);
        proof {
            assert(snap_view(self.snapshot) =~~= (SnapView {
                phase: TaskPhase::Testing,
                progress: test_progress(i as nat, m as nat) as nat,
                ..v3
            }));
            lemma_dominates(h3, v3, snap_view(self.snapshot));
            lemma_history_push(h3, snap_view(self.snapshot));
        }
        self.emit(&mut out);

        // Stopping rule, then either the next boundary or the report stage.
        let ghost sv = hyps_view(scored@);
        let ghost ib = iteration_best(sv);
        let ghost ve = (SnapView { phase: TaskPhase::EvaluatingHypotheses, ..v0 });
        let ghost vr = (SnapView {
            phase: TaskPhase::Reducing,
            verified: tail_cap(hyps_view(old(self).verified@) + keep_verified(sv)),
            discarded: tail_cap(hyps_view(old(self).discarded@) + keep_discarded(sv)),
            last_score: ib,
            ..v0
        });
        let ghost vs2 = (SnapView {
            phase: TaskPhase::Synthesizing,
            best_score: best_after(old(self).best_score as nat, ib),
            ..vr
        });
        let ghost vt = (SnapView {
            phase: TaskPhase::Testing,
            progress: test_progress(i as nat, m as nat) as nat,
            ..vs2
        });
        proof {
            assert(v1 =~~= ve);
            assert(v2 =~~= vr);
            assert(v3 =~~= vs2);
            assert(snap_view(self.snapshot) =~~= vt);
        }
        if self.no_improve_streak >= 2 || i == m {
            self.enter_reporting(&mut out);
            proof {
                let vrep = (SnapView { phase: TaskPhase::Reporting, ..vt });
                assert(snap_view(self.snapshot) =~~= vrep);
                assert(self.history@ =~= h0 + seq![ve, vr, vs2, vt, vrep]);
            }
        } else {
            self.step = RunnerStep::IterationBoundary { next_iteration: i + 1 };
            proof {
                lemma_progress_steps((i + 1) as nat, m as nat);
                assert(self.history@ =~= h0 + seq![ve, vr, vs2, vt]);
            }
        }
        out
    }
}

/// Mapping to views distributes over appending one hypothesis whose view
/// is known.
proof fn lemma_hyps_view_push(v: Seq<Hypothesis>, hv: HypView)
    ensures
        forall|h: Hypothesis|
            hyp_view(h) == hv ==> hyps_view(#[trigger] v.push(h)) == hyps_view(v).push(hv),
{
    assert forall|h: Hypothesis| hyp_view(h) == hv implies hyps_view(#[trigger] v.push(h))
        == hyps_view(v).push(hv) by {
        assert(hyps_view(v.push(h)) =~= hyps_view(v).push(hv));
    }
}

/// The iteration best of scale-bounded scores stays on the scale.
proof fn lemma_iteration_best_bound(s: Seq<HypView>)
    requires
        forall|k: int| 0 <= k < s.len() ==> (#[trigger] s[k]).score <= SCORE_ONE,
    ensures
        iteration_best(s) <= SCORE_ONE,
    decreases s.len(),
{
    if s.len() > 0 {
        assert(s.last() == s[s.len() - 1]);
        assert forall|k: int| 0 <= k < s.drop_last().len() implies (
        #[trigger] s.drop_last()[k]).score <= SCORE_ONE by {
            assert(s.drop_last()[k] == s[k]);
        }
        lemma_iteration_best_bound(s.drop_last());
    }
}

/// Computes `gen_progress` on the fixed-point scale.
fn compute_gen_progress(i: usize, m: usize) -> (r: u32)
    requires
        1 <= i <= m,
    ensures
        r == gen_progress(i as nat, m as nat),
        r <= SCORE_ONE,
{
    proof {
        lemma_progress_steps(i as nat, m as nat);
    }
    let num: u128 = (2 * (i as u128) - 1) * 5000;
    (num / (m as u128)) as u32
}

/// Computes `test_progress` on the fixed-point scale.
fn compute_test_progress(i: usize, m: usize) -> (r: u32)
    requires
        1 <= i <= m,
    ensures
        r == test_progress(i as nat, m as nat),
        r <= SCORE_ONE,
{
    proof {
        lemma_progress_steps(i as nat, m as nat);
    }
    let num: u128 = 2 * (i as u128) * 5000;
    (num / (m as u128)) as u32
}

// ---------------------------------------------------------------------------
// Scoring raw candidate texts.
// ---------------------------------------------------------------------------

/// `x * y` wrapped at 2^64.
pub open spec fn wrap_mul64(x: u64, y: u64) -> u64 {
    ((x as nat * y as nat) % 0x1_0000_0000_0000_0000) as u64
}

/// Perturbation seed for one hypothesis, mixed from the task id, the
/// iteration and the candidate's index.
pub open spec fn hyp_seed(task_id: u64, iteration: u64, idx: u64) -> u64 {
    wrap_mul64(task_id, 31) ^ wrap_mul64(iteration, 997) ^ wrap_mul64(idx, 7919)
}

/// Computes the perturbation seed for one hypothesis.
fn hyp_seed_exec(task_id: u64, iteration: u64, idx: u64) -> (r: u64)
    ensures
        r == hyp_seed(task_id, iteration, idx),
{
    task_id.wrapping_mul(31) ^ iteration.wrapping_mul(997) ^ idx.wrapping_mul(7919)
}

/// Identifier of the `idx`-th candidate of iteration `i`: 100 per iteration
/// plus the index, saturating at the top of `usize`.
pub open spec fn candidate_id(i: nat, idx: nat) -> nat {
    if i * 100 + idx > usize::MAX {
        usize::MAX as nat
    } else {
        i * 100 + idx
    }
}

/// Computes a candidate identifier.
fn candidate_id_exec(i: usize, idx: usize) -> (r: usize)
    ensures
        r as nat == candidate_id(i as nat, idx as nat),
{
    if i <= (usize::MAX - idx) / 100 {
        proof {
            assert(i * 100 <= ((usize::MAX - idx) / 100) * 100 <= usize::MAX - idx) by {
                lemma_mul_ordered(i as int, ((usize::MAX - idx) / 100) as int, 100);
            }
        }
        i * 100 + idx
    } else {
        proof {
            assert(i >= (usize::MAX - idx) / 100 + 1);
            assert(i * 100 >= ((usize::MAX - idx) / 100 + 1) * 100) by {
                lemma_mul_ordered(((usize::MAX - idx) / 100 + 1) as int, i as int, 100);
            }
            assert(((usize::MAX - idx) / 100 + 1) * 100 > usize::MAX - idx);
        }
        usize::MAX
    }
}

/// Multiplying both sides of an ordering by a positive constant keeps it.
proof fn lemma_mul_ordered(a: int, b: int, c: int)
    requires
        a <= b,
        c >= 0,
    ensures
        a * c <= b * c,
{
    vstd::arithmetic::mul::lemma_mul_inequality(a, b, c);
}

/// The views of the hypotheses that scoring builds from raw candidate
/// texts: deterministic ids, the texts themselves, and scores drawn from
/// the text bytes, the heuristics, the dataset size and the seeded
/// perturbation.
pub open spec fn scored_view(d: TaskDefinition, i: nat, texts: Seq<Seq<char>>) -> Seq<HypView> {
    Seq::new(
        texts.len(),
        |k: int|
            HypView {
                id: candidate_id(i, k as nat),
                description: texts[k],
                score: score_of(
                    vstd::utf8::encode_utf8(texts[k]),
                    d.heuristics,
                    d.dataset.len() as nat,
                    noise_of(hyp_seed(d.id as u64, i as u64, k as u64)),
                ) as nat,
            },
    )
}

/// Spec-level mirror of the accumulator state the iteration loop threads:
/// the cumulative classified lists, the running best, the stall streak,
/// the last iteration's best, the end-of-iteration progress, and the next
/// iteration to run.
#[verifier::ext_equal]
pub ghost struct MockLoopState {
    pub ver: Seq<HypView>,
    pub dis: Seq<HypView>,
    pub best: nat,
    pub streak: nat,
    pub last: nat,
    pub progress: nat,
    pub next: nat,
}

/// The accumulator state before the first iteration.
pub open spec fn initial_mock_state() -> MockLoopState {
    MockLoopState {
        ver: Seq::empty(),
        dis: Seq::empty(),
        best: 0,
        streak: 0,
        last: 0,
        progress: 0,
        next: 1,
    }
}

/// The candidate texts the mock source yields for iteration `i`.
pub open spec fn mock_texts(d: TaskDefinition, source_seed: u64, i: nat) -> Seq<Seq<char>> {
    Seq::new(
        mock_count(generation_seed(source_seed, d.id as u64, i as u64)),
        |k: int| mock_line(i, k as nat, d.heuristics),
    )
}

/// The scored views of the mock candidates for iteration `i`.
pub open spec fn mock_scored(d: TaskDefinition, source_seed: u64, i: nat) -> Seq<HypView> {
    scored_view(d, i, mock_texts(d, source_seed, i))
}

/// One iteration folded into the accumulator state.
pub open spec fn mock_iter_step(s: MockLoopState, sv: Seq<HypView>, m: nat) -> MockLoopState {
    let ib = iteration_best(sv);
    MockLoopState {
        ver: s.ver + keep_verified(sv),
        dis: s.dis + keep_discarded(sv),
        best: best_after(s.best, ib),
        streak: streak_after(s.streak, s.best, ib),
        last: ib,
        progress: test_progress(s.next, m) as nat,
        next: s.next + 1,
    }
}

/// The accumulator state when the iteration loop leaves off: iterations
/// run in order from `s.next`, each fed the scored views `scored` yields
/// for it, until the stopping rule fires or the budget `m` is spent.
pub open spec fn pipeline_state(scored: spec_fn(nat) -> Seq<HypView>, m: nat, s: MockLoopState)
    -> MockLoopState
    decreases m + 1 - s.next,
{
    if s.next > m {
        s
    } else {
        let s2 = mock_iter_step(s, scored(s.next), m);
        if loop_exits(s2.streak, s.next, m) {
            s2
        } else {
            pipeline_state(scored, m, s2)
        }
    }
}

/// The accumulator state when the loop driven by the mock source leaves
/// off.
pub open spec fn mock_run_state(d: TaskDefinition, source_seed: u64, s: MockLoopState)
    -> MockLoopState {
    pipeline_state(|i: nat| mock_scored(d, source_seed, i), d.max_iters as nat, s)
}

/// The loop state just before iteration `i` (counting from 1), were the
/// loop to run every iteration without stopping.
pub open spec fn state_before(scored: spec_fn(nat) -> Seq<HypView>, m: nat, i: nat)
    -> MockLoopState
    decreases i,
{
    if i <= 1 {
        initial_mock_state()
    } else {
        mock_iter_step(state_before(scored, m, (i - 1) as nat), scored((i - 1) as nat), m)
    }
}

/// Stopping bound, in one piece: with a source whose iterations from the
/// second onward never improve the running best by more than the margin,
/// the iteration loop leaves off after at most three iterations — by
/// iteration 4, as the stream laws demand — and never spends a budget
/// larger than 4.  The run then stands at the reporting stage, from which
/// `on_report` drives it to a terminal status.
pub proof fn lemma_stopping_bound(scored: spec_fn(nat) -> Seq<HypView>, m: nat)
    requires
        m > 4,
        forall|i: nat| 2 <= i <= 4 ==> !improves(
            (#[trigger] state_before(scored, m, i)).best,
            iteration_best(scored(i)),
        ),
    ensures
        pipeline_state(scored, m, initial_mock_state()).next <= 4,
        pipeline_state(scored, m, initial_mock_state()).next <= m,
{
    let s1 = initial_mock_state();
    let s2 = mock_iter_step(s1, scored(1), m);
    let s3 = mock_iter_step(s2, scored(2), m);
    let s4 = mock_iter_step(s3, scored(3), m);
    assert(state_before(scored, m, 1) == s1);
    assert(state_before(scored, m, 2) == s2);
    assert(state_before(scored, m, 3) == s3);
    assert(!improves(s2.best, iteration_best(scored(2))));
    assert(!improves(s3.best, iteration_best(scored(3))));
    assert(!loop_exits(s2.streak, 1, m));
    assert(s3.streak == s2.streak + 1);
    if s3.streak >= 2 {
        assert(loop_exits(s3.streak, 2, m));
        assert(pipeline_state(scored, m, s2) == s3);
        assert(pipeline_state(scored, m, s1) == pipeline_state(scored, m, s2));
    } else {
        assert(!loop_exits(s3.streak, 2, m));
        assert(s4.streak == s3.streak + 1 && s4.streak >= 2);
        assert(loop_exits(s4.streak, 3, m));
        assert(pipeline_state(scored, m, s3) == s4);
        assert(pipeline_state(scored, m, s2) == pipeline_state(scored, m, s3));
        assert(pipeline_state(scored, m, s1) == pipeline_state(scored, m, s2));
    }
}

/// The snapshot view a mock run shows when it reaches the reporting stage.
pub open spec fn reporting_view(d: TaskDefinition, s: MockLoopState) -> SnapView {
    SnapView {
        phase: TaskPhase::Reporting,
        progress: s.progress,
        iteration: (s.next - 1) as nat,
        verified: tail_cap(s.ver),
        discarded: tail_cap(s.dis),
        best_score: s.best,
        last_score: s.last,
        ..TaskRunner::started_view(d, d.name@)
    }
}

impl TaskRunner {
    /// Runs one iteration's evaluation on raw candidate texts: scores each
    /// text with the deterministic evaluator and a per-candidate seeded
    /// perturbation, then classifies the scored hypotheses as
    /// `on_scored_hypotheses` does.
    pub fn on_candidates(&mut self, texts: Vec<String>) -> (out: Vec<TaskUpdate>)
        requires
            old(self).inv(),
            old(self).step is AwaitingCandidates,
            texts@.len() <= u64::MAX,
        ensures
            final(self).inv(),
            final(self).definition == old(self).definition,
            evaluation_post(
                *old(self),
                *final(self),
                out@,
                scored_view(
                    old(self).definition,
                    old(self).step->AwaitingCandidates_iteration as nat,
                    texts@.map_values(|t: String| t@),
                ),
            ),
    {
        let i = match self.step {
            RunnerStep::AwaitingCandidates { iteration } => iteration,
            _ => 0,
        };
        let ghost tv = texts@.map_values(|t: String| t@);
        let ghost goal = scored_view(self.definition, i as nat, tv);
        let dataset_len = self.definition.dataset.len();
        let heuristics = self.definition.heuristics;
        let task_id = self.definition.id;
        let mut scored: Vec<Hypothesis> = Vec::new();
        let mut idx: usize = 0;
        while idx < texts.len()
            invariant
                0 <= idx <= texts@.len(),
                texts@.len() <= u64::MAX,
                tv == texts@.map_values(|t: String| t@),
                goal == scored_view(self.definition, i as nat, tv),
                dataset_len == self.definition.dataset.len(),
                heuristics == self.definition.heuristics,
                task_id == self.definition.id,
                scored@.len() == idx,
                forall|k: int| 0 <= k < idx ==> hyp_view(#[trigger] scored@[k]) == goal[k],
                forall|k: int| 0 <= k < idx ==> (#[trigger] scored@[k]).score <= SCORE_ONE,
            decreases texts@.len() - idx,
        {
            let text = texts[idx].clone();
            let seed = hyp_seed_exec(task_id as u64, i as u64, idx as u64);
            let noise = noise_from_seed(seed);
            let score = evaluate_hypothesis(text.as_str(), &heuristics, dataset_len, noise);
            let id = candidate_id_exec(i, idx);
            proof {
                assert(tv[idx as int] == texts@[idx as int]@);
            }
            scored.push(Hypothesis { id, description: text, score });
            proof {
                assert(hyp_view(scored@[idx as int]) =~~= goal[idx as int]);
            }
            idx = idx + 1;
        }
        proof {
            assert(hyps_view(scored@) =~= goal);
        }
        self.on_scored_hypotheses(scored)
    }

    /// Terminates the task once the report has been written (or failed to
    /// be).  A path makes the task `Done` and carries the path; an error
    /// makes it `Failed` with the reason.  Either way the closing snapshot
    /// shows full progress and freshly capped hypothesis tails, and
    /// nothing follows it.
    pub fn on_report(&mut self, result: Result<String, String>) -> (out: Vec<TaskUpdate>)
        requires
            old(self).inv(),
            old(self).step is AwaitingReport,
        ensures
            final(self).inv(),
            final(self).definition == old(self).definition,
            final(self).step == RunnerStep::Finished,
            ({
                let v = (SnapView {
                    status: match result {
                        Ok(p) => StatusView::Done,
                        Err(e) => StatusView::Failed(e@),
                    },
                    phase: TaskPhase::Finished,
                    progress: SCORE_ONE as nat,
                    verified: tail_cap(hyps_view(old(self).verified@)),
                    discarded: tail_cap(hyps_view(old(self).discarded@)),
                    report_path: match result {
                        Ok(p) => Some(p@),
                        Err(e) => None,
                    },
                    ..snap_view(old(self).snapshot)
                });
                &&& snap_view(final(self).snapshot) == v
                &&& final(self).history@ == old(self).history@.push(v)
                &&& out@.len() == 1
                &&& is_upsert_of(out@[0], v)
                &&& v.progress == SCORE_ONE
                &&& v.phase is Finished
            }),
    {
        let mut out: Vec<TaskUpdate> = Vec::new();
        let ghost h0 = self.history@;
        let ghost v0 = snap_view(self.snapshot);
        let ghost new_status = (if result is Ok {
            StatusView::Done
        } else {
            StatusView::Failed(result->Err_0@)
        });
        let ghost new_report = (if result is Ok {
            Some(result->Ok_0@)
        } else {
            None
        });
        match result {
            Ok(path) => {
                self.snapshot.report_path = Some(path);
                self.snapshot.status = TaskStatus::Done;
                self.snapshot.phase = TaskPhase::Finished;
            },
            Err(reason) => {
                self.snapshot.status = TaskStatus::Failed(reason);
                self.snapshot.phase = TaskPhase::Finished;
            },
        }
        self.snapshot.progress = SCORE_ONE;
        let ver_tail = tail_hypotheses(&self.verified, TAIL_CAP);
        let dis_tail = tail_hypotheses(&self.discarded, TAIL_CAP);
        self.snapshot.verified = ver_tail;
        self.snapshot.discarded = dis_tail;
        self.snapshot.best_score = self.best_score;
        proof {
            assert(hyps_view(self.snapshot.verified@) =~= tail_cap(hyps_view(self.verified@)));
            assert(hyps_view(self.snapshot.discarded@) =~= tail_cap(hyps_view(self.discarded@)));
            lemma_dominates(h0, v0, snap_view(self.snapshot));
            lemma_history_push(h0, snap_view(self.snapshot));
        }
        self.emit(&mut out);
        self.step = RunnerStep::Finished;
        proof {
            let v = (SnapView {
                status: new_status,
                phase: TaskPhase::Finished,
                progress: SCORE_ONE as nat,
                verified: tail_cap(hyps_view(old(self).verified@)),
                discarded: tail_cap(hyps_view(old(self).discarded@)),
                report_path: new_report,
                ..snap_view(old(self).snapshot)
            });
            assert(snap_view(self.snapshot) =~~= v);
        }
        out
    }

    /// Drives the pipeline with the deterministic mock hypothesis source,
    /// never observing a cancellation, until the task is ready for its
    /// report.  The final accumulators, streak and snapshot equal the
    /// spec-level fold `mock_run_state` of the seeded candidates, and the
    /// returned updates carry exactly the emitted snapshots, in order.
    pub fn run_mock_iterations(&mut self, llm: &RigLlm) -> (out: Vec<TaskUpdate>)
        requires
            old(self).inv(),
            old(self).step is AwaitingStart,
        ensures
            final(self).inv(),
            final(self).definition == old(self).definition,
            final(self).step == RunnerStep::AwaitingReport,
            ({
                let d = old(self).definition;
                let fin = mock_run_state(d, llm.seed, initial_mock_state());
                &&& hyps_view(final(self).verified@) == fin.ver
                &&& hyps_view(final(self).discarded@) == fin.dis
                &&& final(self).best_score == fin.best
                &&& final(self).no_improve_streak == fin.streak
                &&& snap_view(final(self).snapshot) == reporting_view(d, fin)
                &&& final(self).history@ == upsert_views(out@)
            }),
    {
        let ghost d = self.definition;
        let ghost seed = llm.seed;
        let ghost fin = mock_run_state(d, seed, initial_mock_state());
        let ghost name0 = self.snapshot.name@;
        let ghost mut ls = initial_mock_state();
        let mut out = self.start();
        proof {
            assert(hyps_view(self.verified@) =~= Seq::<HypView>::empty());
            assert(hyps_view(self.discarded@) =~= Seq::<HypView>::empty());
            let v1 = TaskRunner::started_view(d, name0);
            if d.max_iters >= 1 {
                lemma_views_upsert_log(out@, v1);
            } else {
                let v2 = (SnapView { phase: TaskPhase::Reporting, ..v1 });
                lemma_views_start_report(out@, v1, v2);
                assert(v2 =~~= reporting_view(d, fin));
            }
        }
        loop
            invariant
                self.inv(),
                self.step is IterationBoundary || self.step is AwaitingReport,
                self.definition == d,
                d == old(self).definition,
                seed == llm.seed,
                fin == mock_run_state(d, seed, initial_mock_state()),
                self.history@ == upsert_views(out@),
                match self.step {
                    RunnerStep::IterationBoundary { next_iteration } => {
                        &&& ls.next == next_iteration
                        &&& mock_run_state(d, seed, ls) == fin
                        &&& hyps_view(self.verified@) == ls.ver
                        &&& hyps_view(self.discarded@) == ls.dis
                        &&& self.best_score == ls.best
                        &&& self.no_improve_streak == ls.streak
                    },
                    _ => {
                        &&& hyps_view(self.verified@) == fin.ver
                        &&& hyps_view(self.discarded@) == fin.dis
                        &&& self.best_score == fin.best
                        &&& self.no_improve_streak == fin.streak
                        &&& snap_view(self.snapshot) == reporting_view(d, fin)
                    },
                },
            ensures
                self.inv(),
                self.step is AwaitingReport,
                self.definition == d,
                self.history@ == upsert_views(out@),
                hyps_view(self.verified@) == fin.ver,
                hyps_view(self.discarded@) == fin.dis,
                self.best_score == fin.best,
                self.no_improve_streak == fin.streak,
                snap_view(self.snapshot) == reporting_view(d, fin),
            decreases (match self.step {
                RunnerStep::IterationBoundary { next_iteration } => self.definition.max_iters
                    + 1 - next_iteration,
                _ => 0int,
            }),
        {
            let i = match self.step {
                RunnerStep::IterationBoundary { next_iteration } => next_iteration,
                _ => { break },
            };
            let ghost m = d.max_iters as nat;

            // Poll the (never raised) cancellation flag: one generating
            // snapshot and a log line go out.
            let ghost out0 = out@;
            let ghost h0 = self.history@;
            let mut more = self.poll_cancel(false);
            let ghost more0 = more@;
            out.append(&mut more);
            proof {
                assert(out@ == out0 + more0);
                lemma_upsert_views_concat(out0, more0);
                lemma_views_upsert_log(more0, self.history@.last());
                assert(self.history@ =~= upsert_views(out0) + upsert_views(more0));
                assert(self.history@ == upsert_views(out@));
            }

            // Ask the mock source, then run the iteration on its texts.
            let texts = llm.generate_hypotheses(&self.definition, i);
            let ghost tv = texts@.map_values(|t: String| t@);
            proof {
                assert(tv =~= mock_texts(d, seed, i as nat));
            }
            let ghost pre = *self;
            let ghost out1 = out@;
            let mut more = self.on_candidates(texts);
            let ghost more1 = more@;
            out.append(&mut more);
            proof {
                let sv = mock_scored(d, seed, i as nat);
                assert(scored_view(d, i as nat, tv) == sv);
                let ib = iteration_best(sv);
                let ver2 = hyps_view(pre.verified@) + keep_verified(sv);
                let dis2 = hyps_view(pre.discarded@) + keep_discarded(sv);
                let b0 = pre.best_score as nat;
                let k0 = pre.no_improve_streak as nat;
                let b2 = best_after(b0, ib);
                let k2 = streak_after(k0, b0, ib);
                let v0 = snap_view(pre.snapshot);
                let ve = (SnapView { phase: TaskPhase::EvaluatingHypotheses, ..v0 });
                let vr = (SnapView {
                    phase: TaskPhase::Reducing,
                    verified: tail_cap(ver2),
                    discarded: tail_cap(dis2),
                    last_score: ib,
                    ..v0
                });
                let vs2 = (SnapView { phase: TaskPhase::Synthesizing, best_score: b2, ..vr });
                let vt = (SnapView {
                    phase: TaskPhase::Testing,
                    progress: test_progress(i as nat, m) as nat,
                    ..vs2
                });
                let ls2 = mock_iter_step(ls, sv, m);
                assert(out@ == out1 + more1);
                lemma_upsert_views_concat(out1, more1);
                if loop_exits(k2, i as nat, m) {
                    let vrep = (SnapView { phase: TaskPhase::Reporting, ..vt });
                    lemma_views_iteration_report(more1, ve, vr, vs2, vt, vrep);
                    assert(ls2.ver =~= ver2);
                    assert(ls2.dis =~= dis2);
                    assert(mock_run_state(d, seed, ls) == ls2);
                    assert(vrep =~~= reporting_view(d, ls2));
                } else {
                    lemma_views_iteration(more1, ve, vr, vs2, vt);
                    assert(ls2.ver =~= ver2);
                    assert(ls2.dis =~= dis2);
                    assert(mock_run_state(d, seed, ls2) == mock_run_state(d, seed, ls));
                }
                ls = ls2;
                assert(self.history@ == upsert_views(out@));
            }
        }
        out
    }
}

// ---------------------------------------------------------------------------
// Stream laws.  These restate, over any reachable runner, what the invariant
// guarantees of the emitted snapshot sequence.
// ---------------------------------------------------------------------------

/// Progress is non-decreasing across one task's emitted snapshots.
pub proof fn lemma_progress_monotone(r: TaskRunner, i: int, j: int)
    requires
        r.inv(),
        0 <= i <= j < r.history@.len(),
    ensures
        r.history@[i].progress <= r.history@[j].progress,
{
}

/// The best score is non-decreasing across one task's emitted snapshots.
pub proof fn lemma_best_score_monotone(r: TaskRunner, i: int, j: int)
    requires
        r.inv(),
        0 <= i <= j < r.history@.len(),
    ensures
        r.history@[i].best_score <= r.history@[j].best_score,
{
}

/// The (iteration, phase rank) pair moves only forward: the emitted phases
/// are a subsequence of the pipeline order, cycling once per iteration.
pub proof fn lemma_phases_ordered(r: TaskRunner, i: int, j: int)
    requires
        r.inv(),
        0 <= i <= j < r.history@.len(),
    ensures
        r.history@[i].iteration < r.history@[j].iteration || (r.history@[i].iteration
            == r.history@[j].iteration && phase_rank(r.history@[i].phase) <= phase_rank(
            r.history@[j].phase,
        )),
{
}

/// The hypothesis tails of every emitted snapshot respect the cap.
pub proof fn lemma_tails_capped(r: TaskRunner, i: int)
    requires
        r.inv(),
        0 <= i < r.history@.len(),
    ensures
        r.history@[i].verified.len() <= TAIL_CAP,
        r.history@[i].discarded.len() <= TAIL_CAP,
{
}

/// A `Finished` snapshot can only stand at the very end of the emitted
/// sequence.
pub proof fn lemma_finished_last(r: TaskRunner, i: int)
    requires
        r.inv(),
        0 <= i < r.history@.len(),
        r.history@[i].phase is Finished,
    ensures
        i == r.history@.len() - 1,
{
}

/// A task's terminal snapshot — the last it ever emits, whether done,
/// failed or cancelled — shows progress at exactly full scale: every
/// task's emitted progress sequence ends at 1.0.
pub proof fn lemma_final_progress_full(r: TaskRunner, i: int)
    requires
        r.inv(),
        0 <= i < r.history@.len(),
        r.history@[i].phase is Finished,
    ensures
        r.history@[i].progress == SCORE_ONE,
        i == r.history@.len() - 1,
{
}

/// A `Finished` snapshot is the last one emitted, so at most one snapshot
/// of a task ever carries a terminal status — in particular, cancelling
/// twice can not produce two `Cancelled` snapshots.
pub proof fn lemma_terminal_unique(r: TaskRunner, i: int, j: int)
    requires
        r.inv(),
        0 <= i < r.history@.len(),
        0 <= j < r.history@.len(),
        status_terminal(r.history@[i].status),
        status_terminal(r.history@[j].status),
    ensures
        i == j,
{
    assert(r.history@[i].phase is Finished);
    assert(r.history@[j].phase is Finished);
}

} // verus!

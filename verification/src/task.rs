//! Task data model: immutable task definitions, scored hypotheses, and the
//! mutable snapshot that a running task re-emits wholesale on every change.
//!
//! Scores, progress fractions and the heuristic scalars are fixed-point
//! values: `SCORE_ONE` (10000) stands for 1.0, so a score of 0.6 is 6000
//! units and a progress of 50% is 5000 units.

use vstd::prelude::*;
use crate::text::{dec_digits, dec_digits_pad2, u64_to_string, u64_to_string_pad2};

verus! {

/// Fixed-point scale: this many units stand for 1.0.
pub const SCORE_ONE: u32 = 10000;

/// A hypothesis whose score reaches this bound is classified as verified.
pub const VERIFY_THRESHOLD: u32 = 6000;

/// An iteration improves on the best score only when it beats it by more
/// than this margin (0.02).
pub const IMPROVE_MARGIN: u32 = 200;

/// Bounded length of the verified / discarded tails kept in a snapshot.
pub const TAIL_CAP: usize = 5;

/// One item of a task's dataset.
#[derive(Clone, Debug)]
pub struct ImageItem {
    pub id: usize,
    pub name: String,
}

/// Scalar parameters that bias scoring.  `edge_threshold` and
/// `contrast_boost` are fixed-point values on the `SCORE_ONE` scale.
#[derive(Clone, Copy, Debug, PartialEq, Eq, Structural)]
pub struct Heuristics {
    pub edge_threshold: u32,
    pub min_blob_area: usize,
    pub contrast_boost: u32,
}

/// Immutable description of one task, created once by the scheduler.
#[derive(Clone, Debug)]
pub struct TaskDefinition {
    pub id: usize,
    pub name: String,
    pub dataset: Vec<ImageItem>,
    pub heuristics: Heuristics,
    pub max_iters: usize,
    /// Creation time in seconds since the Unix epoch.
    pub created_at: u64,
}

/// A generated hypothesis together with its score on the `SCORE_ONE` scale.
#[derive(Clone, Debug)]
pub struct Hypothesis {
    pub id: usize,
    pub description: String,
    pub score: u32,
}

/// Lifecycle status of a task.  `Cancelled`, `Done` and `Failed` are
/// terminal: once one of them is emitted, no further snapshot follows.
#[derive(Clone, Debug)]
pub enum TaskStatus {
    Pending,
    Running,
    Cancelled,
    Done,
    Failed(String),
}

/// Pipeline stage of a task.  `Defining` and `Finished` occur once per task;
/// the middle five phases cycle once per iteration.
#[derive(Clone, Copy, Debug, PartialEq, Eq, Structural)]
pub enum TaskPhase {
    Defining,
    GeneratingHypotheses,
    EvaluatingHypotheses,
    Reducing,
    Synthesizing,
    Testing,
    Reporting,
    Finished,
}

/// Full, self-contained copy of a task's observable state.  Consumers treat
/// every snapshot as a replacement for the task's previous state, never as a
/// delta.
#[derive(Clone, Debug)]
pub struct TaskSnapshot {
    pub id: usize,
    pub name: String,
    pub status: TaskStatus,
    pub phase: TaskPhase,
    /// Progress fraction on the `SCORE_ONE` scale (10000 = done).
    pub progress: u32,
    pub iteration: usize,
    pub max_iters: usize,
    pub dataset_size: usize,
    pub heuristics: Heuristics,
    /// Most recent verified hypotheses, newest last, at most `TAIL_CAP`.
    pub verified: Vec<Hypothesis>,
    /// Most recent discarded hypotheses, newest last, at most `TAIL_CAP`.
    pub discarded: Vec<Hypothesis>,
    pub best_score: u32,
    pub last_score: u32,
    pub report_path: Option<String>,
}

/// Mathematical view of a status: the variant, with the reason text of a
/// failure.
#[verifier::ext_equal]
pub ghost enum StatusView {
    Pending,
    Running,
    Cancelled,
    Done,
    Failed(Seq<char>),
}

/// The view of a status.
pub open spec fn status_view(s: TaskStatus) -> StatusView {
    match s {
        TaskStatus::Pending => StatusView::Pending,
        TaskStatus::Running => StatusView::Running,
        TaskStatus::Cancelled => StatusView::Cancelled,
        TaskStatus::Done => StatusView::Done,
        TaskStatus::Failed(reason) => StatusView::Failed(reason@),
    }
}

/// Whether a status view is terminal: no snapshot follows one.
pub open spec fn status_terminal(s: StatusView) -> bool {
    s is Cancelled || s is Done || s is Failed
}

/// Two statuses agree: same variant, and the same reason when failed.
pub open spec fn status_eq(a: TaskStatus, b: TaskStatus) -> bool {
    status_view(a) == status_view(b)
}

/// Mathematical view of a hypothesis.
#[verifier::ext_equal]
pub ghost struct HypView {
    pub id: nat,
    pub description: Seq<char>,
    pub score: nat,
}

/// The view of a hypothesis.
pub open spec fn hyp_view(h: Hypothesis) -> HypView {
    HypView { id: h.id as nat, description: h.description@, score: h.score as nat }
}

/// The views of a list of hypotheses, in order.
pub open spec fn hyps_view(s: Seq<Hypothesis>) -> Seq<HypView> {
    s.map_values(|h: Hypothesis| hyp_view(h))
}

/// The last `TAIL_CAP` elements of `s` (all of them when fewer).
pub open spec fn tail_cap(s: Seq<HypView>) -> Seq<HypView> {
    if s.len() <= TAIL_CAP {
        s
    } else {
        s.subrange(s.len() - TAIL_CAP, s.len() as int)
    }
}

/// Mathematical view of a whole snapshot: everything an observer can read,
/// over sequences and unbounded integers.
#[verifier::ext_equal]
pub ghost struct SnapView {
    pub id: nat,
    pub name: Seq<char>,
    pub status: StatusView,
    pub phase: TaskPhase,
    pub progress: nat,
    pub iteration: nat,
    pub max_iters: nat,
    pub dataset_size: nat,
    pub heuristics: Heuristics,
    pub verified: Seq<HypView>,
    pub discarded: Seq<HypView>,
    pub best_score: nat,
    pub last_score: nat,
    pub report_path: Option<Seq<char>>,
}

/// The view of a snapshot.
pub open spec fn snap_view(s: TaskSnapshot) -> SnapView {
    SnapView {
        id: s.id as nat,
        name: s.name@,
        status: status_view(s.status),
        phase: s.phase,
        progress: s.progress as nat,
        iteration: s.iteration as nat,
        max_iters: s.max_iters as nat,
        dataset_size: s.dataset_size as nat,
        heuristics: s.heuristics,
        verified: hyps_view(s.verified@),
        discarded: hyps_view(s.discarded@),
        best_score: s.best_score as nat,
        last_score: s.last_score as nat,
        report_path: match s.report_path {
            Some(p) => Some(p@),
            None => None,
        },
    }
}

/// Two snapshots carry the same observable state.
pub open spec fn snap_eq(a: TaskSnapshot, b: TaskSnapshot) -> bool {
    snap_view(a) == snap_view(b)
}

impl Hypothesis {
    /// Field-preserving copy.
    pub fn duplicate(&self) -> (r: Hypothesis)
        ensures
            r.id == self.id,
            r.description@ == self.description@,
            r.score == self.score,
            hyp_view(r) == hyp_view(*self),
    {
        Hypothesis { id: self.id, description: self.description.clone(), score: self.score }
    }
}

impl TaskStatus {
    /// Variant- and payload-preserving copy.
    pub fn duplicate(&self) -> (r: TaskStatus)
        ensures
            status_eq(r, *self),
            status_view(r) == status_view(*self),
    {
        match self {
            TaskStatus::Pending => TaskStatus::Pending,
            TaskStatus::Running => TaskStatus::Running,
            TaskStatus::Cancelled => TaskStatus::Cancelled,
            TaskStatus::Done => TaskStatus::Done,
            TaskStatus::Failed(reason) => TaskStatus::Failed(reason.clone()),
        }
    }
}

/// Copies a list of hypotheses, preserving each element's view.
pub fn duplicate_hypotheses(s: &Vec<Hypothesis>) -> (r: Vec<Hypothesis>)
    ensures
        r.len() == s.len(),
        hyps_view(r@) == hyps_view(s@),
{
    let mut out: Vec<Hypothesis> = Vec::new();
    let mut i: usize = 0;
    while i < s.len()
        invariant
            0 <= i <= s.len(),
            out.len() == i,
            forall|k: int| 0 <= k < i ==> hyp_view(out@[k]) == hyp_view(s@[k]),
        decreases s.len() - i,
    {
        out.push(s[i].duplicate());
        i = i + 1;
    }
    proof {
        assert(hyps_view(out@) =~= hyps_view(s@));
    }
    out
}

/// The last `limit` hypotheses of `all` (all of them when fewer), oldest
/// dropped first, insertion order preserved.
pub fn tail_hypotheses(all: &Vec<Hypothesis>, limit: usize) -> (r: Vec<Hypothesis>)
    ensures
        r.len() == if all.len() <= limit { all@.len() as int } else { limit as int },
        forall|k: int|
            0 <= k < r.len() ==> hyp_view(r@[k]) == hyp_view(
                all@[all@.len() - r@.len() + k],
            ),
{
    let start: usize = if all.len() <= limit {
        0
    } else {
        all.len() - limit
    };
    let mut out: Vec<Hypothesis> = Vec::new();
    let mut i: usize = start;
    while i < all.len()
        invariant
            start <= i <= all.len(),
            out.len() == i - start,
            forall|k: int| 0 <= k < out.len() ==> hyp_view(out@[k]) == hyp_view(all@[start + k]),
        decreases all.len() - i,
    {
        out.push(all[i].duplicate());
        i = i + 1;
    }
    out
}

/// Position of a phase in the per-task pipeline order.  Within one task the
/// pair (iteration, phase rank) never decreases across emitted snapshots.
pub open spec fn phase_rank(p: TaskPhase) -> int {
    match p {
        TaskPhase::Defining => 0,
        TaskPhase::GeneratingHypotheses => 1,
        TaskPhase::EvaluatingHypotheses => 2,
        TaskPhase::Reducing => 3,
        TaskPhase::Synthesizing => 4,
        TaskPhase::Testing => 5,
        TaskPhase::Reporting => 6,
        TaskPhase::Finished => 7,
    }
}

/// Basic well-formedness of a snapshot: scores and progress stay on the
/// fixed-point scale and the hypothesis tails respect the cap.
pub open spec fn snapshot_wf(s: TaskSnapshot) -> bool {
    &&& s.progress <= SCORE_ONE
    &&& s.best_score <= SCORE_ONE
    &&& s.last_score <= SCORE_ONE
    &&& s.verified.len() <= TAIL_CAP
    &&& s.discarded.len() <= TAIL_CAP
}

/// Name of the `i`-th mock dataset item of task `id`.
pub open spec fn image_name(id: nat, i: nat) -> Seq<char> {
    "image_"@ + dec_digits(id) + "_"@ + dec_digits_pad2(i) + ".png"@
}

/// Relies on std's `SystemTime::now` / `duration_since`: seconds since the
/// Unix epoch, or 0 when the clock reads before the epoch.  Nothing is
/// promised of the value.
#[verifier::external_body]
fn now_unix_seconds() -> u64 {
    match std::time::SystemTime::now().duration_since(std::time::UNIX_EPOCH) {
        Ok(d) => d.as_secs(),
        Err(_) => 0,
    }
}

impl TaskDefinition {
    /// Standard mock definition: a 16-item dataset with generated names,
    /// fixed heuristics (edge 0.42, blob area 120, contrast 1.25) and a
    /// budget of 6 iterations.
    pub fn mock(id: usize, name: String) -> (r: TaskDefinition)
        ensures
            r.id == id,
            r.name@ == name@,
            r.dataset.len() == 16,
            forall|k: int|
                0 <= k < 16 ==> (#[trigger] r.dataset@[k]).id == k && r.dataset@[k].name@
                    == image_name(id as nat, k as nat),
            r.heuristics == (Heuristics { edge_threshold: 4200, min_blob_area: 120, contrast_boost: 12500 }),
            r.max_iters == 6,
    {
        let mut dataset: Vec<ImageItem> = Vec::new();
        let mut i: usize = 0;
        while i < 16
            invariant
                0 <= i <= 16,
                dataset.len() == i,
                forall|k: int|
                    0 <= k < i ==> (#[trigger] dataset@[k]).id == k && dataset@[k].name@
                        == image_name(id as nat, k as nat),
            decreases 16 - i,
        {
            let mut item_name = String::from_str("image_");
            let part = u64_to_string(id as u64);
            item_name.append(part.as_str());
            item_name.append("_");
            let part = u64_to_string_pad2(i as u64);
            item_name.append(part.as_str());
            item_name.append(".png");
            proof {
                assert(item_name@ =~= image_name(id as nat, i as nat));
            }
            dataset.push(ImageItem { id: i, name: item_name });
            i = i + 1;
        }
        let heuristics = Heuristics { edge_threshold: 4200, min_blob_area: 120, contrast_boost: 12500 };
        TaskDefinition { id, name, dataset, heuristics, max_iters: 6, created_at: now_unix_seconds() }
    }
}

impl TaskSnapshot {
    /// Observable-state-preserving copy.
    pub fn duplicate(&self) -> (r: TaskSnapshot)
        ensures
            snap_eq(r, *self),
            snap_view(r) == snap_view(*self),
    {
        TaskSnapshot {
            id: self.id,
            name: self.name.clone(),
            status: self.status.duplicate(),
            phase: self.phase,
            progress: self.progress,
            iteration: self.iteration,
            max_iters: self.max_iters,
            dataset_size: self.dataset_size,
            heuristics: self.heuristics,
            verified: duplicate_hypotheses(&self.verified),
            discarded: duplicate_hypotheses(&self.discarded),
            best_score: self.best_score,
            last_score: self.last_score,
            report_path: match &self.report_path {
                Some(p) => Some(p.clone()),
                None => None,
            },
        }
    }

    /// Fresh snapshot for a task that has not started yet: pending, in the
    /// `Defining` phase, with zeroed progress and empty hypothesis tails.
    pub fn from_definition(definition: &TaskDefinition) -> (r: TaskSnapshot)
        ensures
            r.id == definition.id,
            r.name@ == definition.name@,
            r.status is Pending,
            r.phase == TaskPhase::Defining,
            r.progress == 0,
            r.iteration == 0,
            r.max_iters == definition.max_iters,
            r.dataset_size == definition.dataset.len(),
            r.heuristics == definition.heuristics,
            r.verified.len() == 0,
            r.discarded.len() == 0,
            r.best_score == 0,
            r.last_score == 0,
            r.report_path is None,
            snapshot_wf(r),
    {
        TaskSnapshot {
            id: definition.id,
            name: definition.name.clone(),
            status: TaskStatus::Pending,
            phase: TaskPhase::Defining,
            progress: 0,
            iteration: 0,
            max_iters: definition.max_iters,
            dataset_size: definition.dataset.len(),
            heuristics: definition.heuristics,
            verified: Vec::new(),
            discarded: Vec::new(),
            best_score: 0,
            last_score: 0,
            report_path: None,
        }
    }
}

} // verus!

//! Scheduler: the single command-processing loop's decision logic.
//!
//! The scheduler owns task identity assignment and the registry of
//! cancellation handles.  Handling a command yields an effect that the
//! surrounding event loop performs: spawning a runner for a fresh
//! definition, signalling a cancellation flag, or stopping.  Cancelling an
//! unknown or already-cancelled task is a silent no-op.

use vstd::prelude::*;
use crate::task::TaskDefinition;
use crate::task::TaskSnapshot;

verus! {

/// Inbound commands consumed by the scheduler.
#[derive(Debug)]
pub enum SchedulerCommand {
    AddTask { name: String },
    CancelTask { id: usize },
    Shutdown,
}

/// Outbound updates produced by task runners: a full replacement snapshot
/// for one task, or an appended human-readable log line.
#[derive(Clone, Debug)]
pub enum TaskUpdate {
    Upsert(TaskSnapshot),
    Log { id: usize, message: String },
}

/// One registered cancellation handle: a task id and whether a cancel
/// signal has been recorded for it.
#[derive(Clone, Copy, Debug, PartialEq, Eq, Structural)]
pub struct CancelEntry {
    pub id: usize,
    pub cancelled: bool,
}

/// What the surrounding loop must do after a command was handled.
pub enum SchedulerEffect {
    /// Start a concurrently-running task runner for this definition.
    Spawn(TaskDefinition),
    /// Signal the cancellation flag registered under this id.
    Signal { id: usize },
    /// Nothing: the command referred to an unknown id.
    Ignore,
    /// Stop accepting commands.
    Stop,
}

/// Whether some entry of the registry carries `id`.
pub open spec fn registered(entries: Seq<CancelEntry>, id: usize) -> bool {
    exists|k: int| 0 <= k < entries.len() && (#[trigger] entries[k]).id == id
}

/// The registry after recording a cancel signal for `id`.
pub open spec fn mark_cancelled(entries: Seq<CancelEntry>, id: usize) -> Seq<CancelEntry> {
    entries.map_values(
        |e: CancelEntry|
            if e.id == id {
                CancelEntry { id: e.id, cancelled: true }
            } else {
                e
            },
    )
}

/// The scheduler's own state: the next task id to assign and the
/// registered cancellation handles, in registration order.
pub struct Scheduler {
    pub next_id: usize,
    pub entries: Vec<CancelEntry>,
}

impl Scheduler {
    /// Well-formed scheduler: ids start at 1, every registered id is below
    /// the next to be assigned, and no id is registered twice.
    pub open spec fn wf(self) -> bool {
        &&& self.next_id >= 1
        &&& forall|k: int|
            0 <= k < self.entries.len() ==> 1 <= (#[trigger] self.entries[k]).id
                < self.next_id
        &&& forall|k: int, l: int|
            0 <= k < l < self.entries.len() ==> (#[trigger] self.entries[k]).id != (
            #[trigger] self.entries[l]).id
    }

    /// Fresh scheduler: ids are assigned from 1 up and nothing is
    /// registered yet.
    pub fn new() -> (r: Scheduler)
        ensures
            r.wf(),
            r.next_id == 1,
            r.entries.len() == 0,
    {
        Scheduler { next_id: 1, entries: Vec::new() }
    }

    /// Handles one command.
    ///
    /// - `AddTask` assigns the next sequential id (never reused), registers
    ///   a fresh un-cancelled handle and asks the loop to spawn a runner
    ///   for the mock definition built from the name.
    /// - `CancelTask` records the signal idempotently and asks the loop to
    ///   signal the flag; an unknown id is silently ignored.
    /// - `Shutdown` asks the loop to stop; running tasks are not joined.
    pub fn handle_command(&mut self, cmd: SchedulerCommand) -> (effect: SchedulerEffect)
        requires
            old(self).wf(),
            cmd is AddTask ==> old(self).next_id < usize::MAX,
        ensures
            final(self).wf(),
            match cmd {
                SchedulerCommand::AddTask { name } => {
                    &&& final(self).next_id == old(self).next_id + 1
                    &&& final(self).entries@ == old(self).entries@.push(
                        CancelEntry { id: old(self).next_id, cancelled: false },
                    )
                    &&& match effect {
                        SchedulerEffect::Spawn(def) => {
                            &&& def.id == old(self).next_id
                            &&& def.name@ == name@
                            &&& def.max_iters == 6
                            &&& def.dataset.len() == 16
                        },
                        _ => false,
                    }
                },
                SchedulerCommand::CancelTask { id } => {
                    &&& final(self).next_id == old(self).next_id
                    &&& final(self).entries@ == mark_cancelled(old(self).entries@, id)
                    &&& (effect is Signal <==> registered(old(self).entries@, id))
                    &&& (effect is Ignore <==> !registered(old(self).entries@, id))
                    &&& match effect {
                        SchedulerEffect::Signal { id: sid } => sid == id,
                        SchedulerEffect::Ignore => true,
                        _ => false,
                    }
                },
                SchedulerCommand::Shutdown => {
                    &&& *final(self) == *old(self)
                    &&& effect is Stop
                },
            },
    {
        match cmd {
            SchedulerCommand::AddTask { name } => {
                let id = self.next_id;
                self.next_id = self.next_id + 1;
                let definition = TaskDefinition::mock(id, name);
                self.entries.push(CancelEntry { id, cancelled: false });
                SchedulerEffect::Spawn(definition)
            },
            SchedulerCommand::CancelTask { id } => {
                let mut found: bool = false;
                let mut k: usize = 0;
                let n = self.entries.len();
                while k < n
                    invariant
                        0 <= k <= n,
                        n == self.entries.len(),
                        self.next_id == old(self).next_id,
                        self.wf(),
                        found <==> exists|j: int|
                            0 <= j < k && (#[trigger] old(self).entries@[j]).id == id,
                        forall|j: int|
                            0 <= j < n ==> (#[trigger] self.entries@[j]) == (
                            if old(self).entries@[j].id == id && j < k {
                                CancelEntry { id: old(self).entries@[j].id, cancelled: true }
                            } else {
                                old(self).entries@[j]
                            }),
                    decreases n - k,
                {
                    if self.entries[k].id == id {
                        let was = self.entries[k];
                        self.entries.set(k, CancelEntry { id: was.id, cancelled: true });
                        found = true;
                    }
                    k = k + 1;
                }
                proof {
                    assert(self.entries@ =~= mark_cancelled(old(self).entries@, id));
                }
                if found {
                    SchedulerEffect::Signal { id }
                } else {
                    SchedulerEffect::Ignore
                }
            },
            SchedulerCommand::Shutdown => SchedulerEffect::Stop,
        }
    }
}

/// Cancelling is idempotent at the registry: recording a signal for an id
/// a second time leaves the registry exactly as the first recording left
/// it, whether or not the id is registered.
pub proof fn lemma_cancel_idempotent(entries: Seq<CancelEntry>, id: usize)
    ensures
        mark_cancelled(mark_cancelled(entries, id), id) == mark_cancelled(entries, id),
{
    assert(mark_cancelled(mark_cancelled(entries, id), id) =~= mark_cancelled(entries, id));
}

} // verus!

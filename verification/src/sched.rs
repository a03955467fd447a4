//! Pending-task bookkeeping and due-task selection.
//!
//! The system runs a closed, statically known set of recurring activities;
//! each task kind is either `Idle` (no pending entry) or `Scheduled` at an
//! absolute due timestamp on the wrapping counter. Scheduling a kind that is
//! already scheduled is accepted as a no-op success, never a duplicate, so a
//! triggering interrupt that fires faster than its deferred task can drain
//! its backlog cannot grow a queue. Dispatch selects, among the kinds whose
//! due time has been reached, the one with the earliest due time, breaking
//! ties toward the higher static priority.

use vstd::prelude::*;

use crate::clock;

verus! {

/// Number of task kinds in the closed set.
pub const NUM_TASK_KINDS: usize = 7;

/// The closed set of deferred activities the dispatcher knows.
#[derive(Clone, Copy, PartialEq, Eq, Structural, Debug)]
pub enum TaskKind {
    /// Redraw the counter text and bump the counter.
    WriteCounter,
    /// Advance the sprite animation and redraw it.
    WriteFerris,
    /// Sample the button line and debounce it.
    PollButton,
    /// React to a debounced button press.
    ButtonPressed,
    /// Read the battery pins and store the result.
    UpdateBatteryStatus,
    /// Redraw the battery status text.
    ShowBatteryStatus,
    /// Drain queued radio protocol work; armed by the hard interrupts.
    BleWorker,
}

/// Slot index of a task kind in the pending table.
pub open spec fn kind_index(k: TaskKind) -> int {
    match k {
        TaskKind::WriteCounter => 0,
        TaskKind::WriteFerris => 1,
        TaskKind::PollButton => 2,
        TaskKind::ButtonPressed => 3,
        TaskKind::UpdateBatteryStatus => 4,
        TaskKind::ShowBatteryStatus => 5,
        TaskKind::BleWorker => 6,
    }
}

/// Static priority of a task kind. The radio worker runs above the regular
/// housekeeping tasks but below the hard interrupts, which stand outside
/// this table.
pub open spec fn kind_priority(k: TaskKind) -> u8 {
    match k {
        TaskKind::BleWorker => 2,
        _ => 1,
    }
}

/// Slot index of a task kind, as executable code.
pub fn index_of(k: TaskKind) -> (i: usize)
    ensures
        i == kind_index(k),
{
    match k {
        TaskKind::WriteCounter => 0,
        TaskKind::WriteFerris => 1,
        TaskKind::PollButton => 2,
        TaskKind::ButtonPressed => 3,
        TaskKind::UpdateBatteryStatus => 4,
        TaskKind::ShowBatteryStatus => 5,
        TaskKind::BleWorker => 6,
    }
}

/// The task kind stored at a slot index.
pub fn kind_at(i: usize) -> (k: TaskKind)
    requires
        i < NUM_TASK_KINDS,
    ensures
        kind_index(k) == i,
{
    match i {
        0 => TaskKind::WriteCounter,
        1 => TaskKind::WriteFerris,
        2 => TaskKind::PollButton,
        3 => TaskKind::ButtonPressed,
        4 => TaskKind::UpdateBatteryStatus,
        5 => TaskKind::ShowBatteryStatus,
        _ => TaskKind::BleWorker,
    }
}

/// Static priority of a task kind, as executable code.
pub fn priority_of(k: TaskKind) -> (p: u8)
    ensures
        p == kind_priority(k),
{
    match k {
        TaskKind::BleWorker => 2,
        _ => 1,
    }
}

/// Distinct kinds sit in distinct slots.
pub proof fn lemma_kind_index_injective(a: TaskKind, b: TaskKind)
    requires
        kind_index(a) == kind_index(b),
    ensures
        a == b,
{
}

/// One dispatched task invocation: the kind, its static priority, and the
/// due timestamp it was scheduled for. Immutable once dispatched; a task
/// that reschedules itself gets a fresh handle.
pub struct TaskHandle {
    pub kind: TaskKind,
    pub priority: u8,
    pub due_time: u32,
}

/// What scheduling does to one kind's pending entry: an idle kind becomes
/// scheduled at the requested due time, a scheduled kind keeps its entry.
pub open spec fn coalesce(pending: Option<u32>, due: u32) -> Option<u32> {
    if pending is None {
        Some(due)
    } else {
        pending
    }
}

/// The pending-entry table: for each task kind, `None` when idle or the due
/// timestamp when scheduled. At most one entry per kind exists by
/// construction.
pub struct TaskScheduler {
    pub slots: Vec<Option<u32>>,
}

impl TaskScheduler {
    /// The table has exactly one slot per task kind.
    pub open spec fn wf(self) -> bool {
        self.slots@.len() == NUM_TASK_KINDS
    }

    /// The pending entry of a task kind.
    pub open spec fn pending(self, k: TaskKind) -> Option<u32> {
        self.slots@[kind_index(k)]
    }

    /// A kind is due when it is scheduled and its due time has been reached.
    pub open spec fn is_due(self, now: u32, k: TaskKind) -> bool {
        match self.pending(k) {
            Some(d) => clock::spec_reached(now, d),
            None => false,
        }
    }

    /// How long ago a due kind's deadline passed; larger means an earlier
    /// due time.
    pub open spec fn overdue_by(self, now: u32, k: TaskKind) -> int {
        clock::wrap_diff(now, self.pending(k)->0)
    }

    /// A scheduler with every kind idle.
    pub fn new() -> (s: TaskScheduler)
        ensures
            s.wf(),
            forall|k: TaskKind| s.pending(k) is None,
    {
        let mut slots: Vec<Option<u32>> = Vec::new();
        let mut i: usize = 0;
        while i < NUM_TASK_KINDS
            invariant
                slots@.len() == i,
                i <= NUM_TASK_KINDS,
                forall|j: int| 0 <= j < i ==> slots@[j] is None,
            decreases NUM_TASK_KINDS - i,
        {
            slots.push(None);
            i += 1;
        }
        let s = TaskScheduler { slots };
        assert(forall|k: TaskKind| 0 <= #[trigger] kind_index(k) < NUM_TASK_KINDS);
        s
    }

    /// Schedule a task kind for an absolute due timestamp. Idempotent
    /// coalescing: if the kind already has a pending entry the call changes
    /// nothing and reports `false`; otherwise the kind becomes scheduled at
    /// `due` and the call reports `true`. No other kind is touched.
    pub fn schedule(&mut self, k: TaskKind, due: u32) -> (armed: bool)
        requires
            old(self).wf(),
        ensures
            final(self).wf(),
            armed == (old(self).pending(k) is None),
            final(self).pending(k) == coalesce(old(self).pending(k), due),
            forall|j: TaskKind| j != k ==> final(self).pending(j) == old(self).pending(j),
    {
        let i = index_of(k);
        let armed = match self.slots[i] {
            Some(_) => false,
            None => {
                self.slots[i] = Some(due);
                true
            },
        };
        proof {
            assert forall|j: TaskKind| j != k implies final(self).pending(j) == old(self).pending(
                j,
            ) by {
                if kind_index(j) == kind_index(k) {
                    lemma_kind_index_injective(j, k);
                }
            }
        }
        armed
    }

    /// Arm an event-triggered kind to run now if it is idle; a kind already
    /// armed is left exactly as it is. This is the first-class form of the
    /// "spawn from interrupt, absorb repeats" pattern.
    pub fn arm_if_idle(&mut self, k: TaskKind, now: u32) -> (armed: bool)
        requires
            old(self).wf(),
        ensures
            final(self).wf(),
            armed == (old(self).pending(k) is None),
            final(self).pending(k) == coalesce(old(self).pending(k), now),
            forall|j: TaskKind| j != k ==> final(self).pending(j) == old(self).pending(j),
    {
        self.schedule(k, now)
    }

    /// Whether a kind currently has a pending entry.
    pub fn is_scheduled(&self, k: TaskKind) -> (r: bool)
        requires
            self.wf(),
        ensures
            r == (self.pending(k) is Some),
    {
        let i = index_of(k);
        self.slots[i].is_some()
    }

    /// Select, without removing it, the task to run at counter value `now`:
    /// among the kinds whose due time has been reached, the one with the
    /// earliest due time, ties broken toward the higher static priority.
    /// `None` exactly when nothing is due.
    pub fn next_due(&self, now: u32) -> (r: Option<TaskHandle>)
        requires
            self.wf(),
        ensures
            match r {
                None => forall|k: TaskKind| !self.is_due(now, k),
                Some(h) => {
                    &&& self.pending(h.kind) == Some(h.due_time)
                    &&& self.is_due(now, h.kind)
                    &&& h.priority == kind_priority(h.kind)
                    &&& forall|j: TaskKind|
                        self.is_due(now, j) ==> self.overdue_by(now, j) <= self.overdue_by(
                            now,
                            h.kind,
                        )
                    &&& forall|j: TaskKind|
                        self.is_due(now, j) && self.overdue_by(now, j) == self.overdue_by(
                            now,
                            h.kind,
                        ) ==> kind_priority(j) <= kind_priority(h.kind)
                },
            },
    {
        let mut best: Option<TaskHandle> = None;
        let mut best_overdue: u32 = 0;
        let mut i: usize = 0;
        while i < NUM_TASK_KINDS
            invariant
                self.wf(),
                i <= NUM_TASK_KINDS,
                match best {
                    None => forall|j: TaskKind|
                        kind_index(j) < i ==> !self.is_due(now, j),
                    Some(h) => {
                        &&& kind_index(h.kind) < i
                        &&& self.pending(h.kind) == Some(h.due_time)
                        &&& self.is_due(now, h.kind)
                        &&& h.priority == kind_priority(h.kind)
                        &&& best_overdue == self.overdue_by(now, h.kind)
                        &&& forall|j: TaskKind|
                            kind_index(j) < i && self.is_due(now, j) ==> self.overdue_by(now, j)
                                <= best_overdue
                        &&& forall|j: TaskKind|
                            kind_index(j) < i && self.is_due(now, j) && self.overdue_by(now, j)
                                == best_overdue ==> kind_priority(j) <= kind_priority(h.kind)
                    },
                },
            decreases NUM_TASK_KINDS - i,
        {
            let k = kind_at(i);
            if let Some(d) = self.slots[i] {
                if clock::reached(now, d) {
                    let overdue = clock::elapsed_since(now, d);
                    let pri = priority_of(k);
                    let take = match &best {
                        None => true,
                        Some(h) => overdue > best_overdue || (overdue == best_overdue && pri
                            > h.priority),
                    };
                    if take {
                        best = Some(TaskHandle { kind: k, priority: pri, due_time: d });
                        best_overdue = overdue;
                    }
                }
            }
            proof {
                assert forall|j: TaskKind| kind_index(j) < i + 1 && kind_index(j) >= i implies j
                    == k by {
                    lemma_kind_index_injective(j, k);
                }
            }
            i += 1;
        }
        best
    }

    /// Dispatch at `now`: remove and return the selected due task, which the
    /// caller runs at its static priority; the kind is idle afterwards until
    /// it is scheduled again. `None`, and no change, exactly when nothing is
    /// due.
    pub fn dispatch_due(&mut self, now: u32) -> (r: Option<TaskHandle>)
        requires
            old(self).wf(),
        ensures
            final(self).wf(),
            match r {
                None => {
                    &&& *final(self) == *old(self)
                    &&& forall|k: TaskKind| !old(self).is_due(now, k)
                },
                Some(h) => {
                    &&& old(self).pending(h.kind) == Some(h.due_time)
                    &&& old(self).is_due(now, h.kind)
                    &&& h.priority == kind_priority(h.kind)
                    &&& final(self).pending(h.kind) is None
                    &&& forall|j: TaskKind|
                        j != h.kind ==> final(self).pending(j) == old(self).pending(j)
                    &&& forall|j: TaskKind|
                        old(self).is_due(now, j) ==> old(self).overdue_by(now, j) <= old(
                            self,
                        ).overdue_by(now, h.kind)
                    &&& forall|j: TaskKind|
                        old(self).is_due(now, j) && old(self).overdue_by(now, j) == old(
                            self,
                        ).overdue_by(now, h.kind) ==> kind_priority(j) <= kind_priority(h.kind)
                },
            },
    {
        let selected = self.next_due(now);
        match selected {
            None => None,
            Some(h) => {
                let i = index_of(h.kind);
                self.slots[i] = None;
                proof {
                    assert forall|j: TaskKind| j != h.kind implies final(self).pending(j) == old(
                        self,
                    ).pending(j) by {
                        if kind_index(j) == kind_index(h.kind) {
                            lemma_kind_index_injective(j, h.kind);
                        }
                    }
                }
                Some(h)
            },
        }
    }
}

/// Scheduling idempotence: scheduling the same kind twice before it has run
/// leaves exactly one pending entry, and it carries the first-submitted due
/// time.
pub proof fn lemma_schedule_idempotent(d1: u32, d2: u32)
    ensures
        coalesce(coalesce(None, d1), d2) == Some(d1),
{
}

} // verus!

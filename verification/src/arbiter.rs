//! Priority-ceiling arbitration of shared peripheral state.
//!
//! The core is single and has no mutex: concurrency is priority-based
//! interrupt preemption. Each piece of shared state carries a fixed ceiling
//! priority, computed ahead of time as the maximum static priority of every
//! task that ever touches it. Entering a critical section raises the
//! executing context's effective priority to that ceiling for the duration
//! of the access and restores it on exit. A task that shares the resource
//! has priority at most the ceiling, so it cannot run until the section
//! completes and can never see the state half-written; a higher-priority
//! context that does not share it may still preempt. At most one section is
//! active on the core at any instant, and no nested acquisition across
//! different resources is permitted.

use vstd::prelude::*;

verus! {

/// The larger of two priorities.
pub open spec fn spec_max_priority(a: u8, b: u8) -> u8 {
    if a >= b {
        a
    } else {
        b
    }
}

/// Whether a context of static priority `incoming` may preempt an executing
/// context whose effective priority is `effective`.
pub open spec fn spec_may_preempt(effective: u8, incoming: u8) -> bool {
    incoming > effective
}

/// The preemption state of the executing context: its static priority, its
/// current effective priority, and the ceiling of the active critical
/// section if one is open.
pub struct ResourceArbiter {
    /// Static priority of the task or handler that is executing.
    pub task_priority: u8,
    /// Effective priority: what an incoming context must exceed to preempt.
    pub effective: u8,
    /// Ceiling of the open critical section, if one is open.
    pub active_ceiling: Option<u8>,
}

impl ResourceArbiter {
    /// Outside a section the context runs at its static priority; inside,
    /// it runs raised to the section's ceiling.
    pub open spec fn wf(self) -> bool {
        match self.active_ceiling {
            None => self.effective == self.task_priority,
            Some(c) => self.effective == spec_max_priority(self.task_priority, c),
        }
    }

    /// A section guarding a resource of ceiling `c` is open.
    pub open spec fn guards(self, c: u8) -> bool {
        self.active_ceiling == Some(c)
    }

    /// The arbiter for a context of the given static priority, outside any
    /// section.
    pub fn begin(task_priority: u8) -> (a: ResourceArbiter)
        ensures
            a.wf(),
            a.task_priority == task_priority,
            a.effective == task_priority,
            a.active_ceiling is None,
    {
        ResourceArbiter { task_priority, effective: task_priority, active_ceiling: None }
    }

    /// Open a critical section at the given ceiling, raising the effective
    /// priority. No section may already be open: nested acquisition across
    /// resources is a design-time error, not a runtime one.
    pub fn enter(&mut self, ceiling: u8)
        requires
            old(self).wf(),
            old(self).active_ceiling is None,
        ensures
            final(self).wf(),
            final(self).task_priority == old(self).task_priority,
            final(self).active_ceiling == Some(ceiling),
            final(self).effective == spec_max_priority(old(self).task_priority, ceiling),
    {
        let raised = if self.task_priority >= ceiling {
            self.task_priority
        } else {
            ceiling
        };
        self.effective = raised;
        self.active_ceiling = Some(ceiling);
    }

    /// Close the open critical section, restoring the prior effective
    /// priority.
    pub fn exit(&mut self)
        requires
            old(self).wf(),
            old(self).active_ceiling is Some,
        ensures
            final(self).wf(),
            final(self).task_priority == old(self).task_priority,
            final(self).active_ceiling is None,
            final(self).effective == old(self).task_priority,
    {
        self.effective = self.task_priority;
        self.active_ceiling = None;
    }

    /// Whether a context of static priority `incoming` would preempt right
    /// now.
    pub fn may_preempt(&self, incoming: u8) -> (r: bool)
        ensures
            r == spec_may_preempt(self.effective, incoming),
    {
        incoming > self.effective
    }
}

/// One piece of shared peripheral state, tagged with its fixed ceiling
/// priority. Exactly one logical owner at a time: every access goes through
/// the arbiter, inside a section at the resource's own ceiling.
pub struct Resource<T> {
    /// Maximum static priority of any task that ever accesses this value.
    pub ceiling: u8,
    /// The guarded state.
    pub value: T,
}

impl<T> Resource<T> {
    /// A resource with the given ceiling and initial value.
    pub fn new(ceiling: u8, value: T) -> (r: Resource<T>)
        ensures
            r.ceiling == ceiling,
            r.value == value,
    {
        Resource { ceiling, value }
    }

    /// Read the guarded value. Requires the section for this resource to be
    /// open: no access ever happens outside a section.
    pub fn get<'a>(&'a self, arb: &ResourceArbiter) -> (r: &'a T)
        requires
            arb.guards(self.ceiling),
        ensures
            *r == self.value,
    {
        &self.value
    }

    /// Borrow the guarded value for mutation inside the open section.
    pub fn borrow_mut<'a>(&'a mut self, arb: &ResourceArbiter) -> (r: &'a mut T)
        requires
            arb.guards(old(self).ceiling),
        ensures
            *r == old(self).value,
            final(self).ceiling == old(self).ceiling,
            final(self).value == *final(r),
    {
        &mut self.value
    }

    /// Overwrite the guarded value inside the open section.
    pub fn set(&mut self, arb: &ResourceArbiter, value: T)
        requires
            arb.guards(old(self).ceiling),
        ensures
            final(self).ceiling == old(self).ceiling,
            final(self).value == value,
    {
        self.value = value;
    }
}

/// No tearing under preemption, the masking half: while a section at
/// ceiling `c` is open, no task that shares the guarded resource can
/// preempt, because sharing means having static priority at most `c` (the
/// ceiling is the maximum over all sharers) and the executing context's
/// effective priority is at least `c`. A sharer therefore only ever runs
/// between sections, where every mutation is complete.
pub proof fn lemma_ceiling_masks_sharers(arb: ResourceArbiter, c: u8, sharer_priority: u8)
    requires
        arb.wf(),
        arb.guards(c),
        sharer_priority <= c,
    ensures
        !spec_may_preempt(arb.effective, sharer_priority),
{
}

/// No tearing under preemption, the liveness half: a context of priority
/// strictly above both the ceiling and the executing task still preempts
/// mid-section. Raising to the ceiling masks exactly the sharers, not the
/// whole system.
pub proof fn lemma_non_sharer_preempts(arb: ResourceArbiter, c: u8, incoming: u8)
    requires
        arb.wf(),
        arb.guards(c),
        incoming > c,
        incoming > arb.task_priority,
    ensures
        spec_may_preempt(arb.effective, incoming),
{
}

} // verus!

//! Two-stage radio handling: hard interrupts that stay short, and a
//! deferred worker that drains queued protocol work.
//!
//! The two genuine hardware interrupts (radio event and link-layer timer)
//! run at the highest priority and must finish in bounded time. The link
//! layer is the sole authority on protocol ordering; each interrupt hands
//! its verdict back as a command carrying the next wake-up time and whether
//! protocol work is queued. The hard stage only forwards: it arms the
//! lower-priority worker task -- idempotently, an already-armed worker is
//! left alone -- and returns. The worker, preemptible by the interrupts,
//! drains the queue to exhaustion and stops; it never reschedules itself
//! and is re-armed by the next interrupt, so no protocol event is dropped:
//! if arming raced, the next command still reports queued work.
//!
//! The queues are bounded packet rings with a single producer side and a
//! single consumer side each, one ring per direction.

use vstd::prelude::*;

use crate::sched::{TaskKind, TaskScheduler, coalesce};

verus! {

/// A bounded first-in-first-out ring of packets. One side only produces,
/// the other only consumes.
pub struct PacketRing {
    /// Most packets the ring can hold.
    pub capacity: usize,
    /// Queued packets, oldest first.
    pub items: Vec<Vec<u8>>,
}

impl PacketRing {
    /// The ring never holds more than its capacity.
    pub open spec fn wf(self) -> bool {
        self.items@.len() <= self.capacity
    }

    /// An empty ring of the given capacity.
    pub fn new(capacity: usize) -> (r: PacketRing)
        ensures
            r.wf(),
            r.capacity == capacity,
            r.items@.len() == 0,
    {
        PacketRing { capacity, items: Vec::new() }
    }

    /// Number of queued packets.
    pub fn len(&self) -> (n: usize)
        ensures
            n == self.items@.len(),
    {
        self.items.len()
    }

    /// Whether nothing is queued.
    pub fn is_empty(&self) -> (r: bool)
        ensures
            r == (self.items@.len() == 0),
    {
        self.items.len() == 0
    }

    /// Producer side: append a packet. A full ring rejects the packet and
    /// is left unchanged.
    pub fn push(&mut self, pkt: Vec<u8>) -> (accepted: bool)
        requires
            old(self).wf(),
        ensures
            final(self).wf(),
            final(self).capacity == old(self).capacity,
            accepted == (old(self).items@.len() < old(self).capacity),
            accepted ==> final(self).items@ == old(self).items@.push(pkt),
            !accepted ==> final(self).items@ == old(self).items@,
    {
        if self.items.len() < self.capacity {
            self.items.push(pkt);
            true
        } else {
            false
        }
    }

    /// Consumer side: remove and return the oldest packet, if any.
    pub fn pop(&mut self) -> (r: Option<Vec<u8>>)
        requires
            old(self).wf(),
        ensures
            final(self).wf(),
            final(self).capacity == old(self).capacity,
            match r {
                None => old(self).items@.len() == 0 && final(self).items@ == old(self).items@,
                Some(pkt) => {
                    &&& old(self).items@.len() > 0
                    &&& pkt == old(self).items@[0]
                    &&& final(self).items@ == old(self).items@.subrange(
                        1,
                        old(self).items@.len() as int,
                    )
                },
            },
    {
        if self.items.len() == 0 {
            None
        } else {
            let pkt = self.items.remove(0);
            proof {
                assert(final(self).items@ =~= old(self).items@.subrange(
                    1,
                    old(self).items@.len() as int,
                ));
            }
            Some(pkt)
        }
    }
}

/// The link layer's verdict after servicing one interrupt: when it next
/// needs to be woken, and whether protocol work is queued for the deferred
/// worker.
#[derive(Clone, Copy, PartialEq, Eq, Structural, Debug)]
pub struct LinkCmd {
    /// Absolute counter value at which the link timer must fire next.
    pub next_update: u32,
    /// Whether queued protocol work awaits the worker.
    pub queued_work: bool,
}

/// The shared state of the two-stage handoff: the receive ring filled by
/// the hard-interrupt stage and drained by the worker, and the transmit
/// ring filled by the worker and drained at the radio.
pub struct BleBridge {
    pub rx: PacketRing,
    pub tx: PacketRing,
}

impl BleBridge {
    /// Both rings are within capacity.
    pub open spec fn wf(self) -> bool {
        self.rx.wf() && self.tx.wf()
    }

    /// A bridge with empty rings of the given capacity in each direction.
    pub fn new(capacity: usize) -> (b: BleBridge)
        ensures
            b.wf(),
            b.rx.items@.len() == 0,
            b.tx.items@.len() == 0,
            b.rx.capacity == capacity,
            b.tx.capacity == capacity,
    {
        BleBridge { rx: PacketRing::new(capacity), tx: PacketRing::new(capacity) }
    }

    /// Hard-interrupt stage, receive direction: hand a received packet to
    /// the worker's ring. A full ring rejects it; the link layer will
    /// report the work again with its next command.
    pub fn push_received(&mut self, pkt: Vec<u8>) -> (accepted: bool)
        requires
            old(self).wf(),
        ensures
            final(self).wf(),
            final(self).tx == old(self).tx,
            final(self).rx.capacity == old(self).rx.capacity,
            accepted == (old(self).rx.items@.len() < old(self).rx.capacity),
            accepted ==> final(self).rx.items@ == old(self).rx.items@.push(pkt),
            !accepted ==> final(self).rx.items@ == old(self).rx.items@,
    {
        self.rx.push(pkt)
    }

    /// Whether queued protocol work awaits the worker.
    pub fn has_work(&self) -> (r: bool)
        ensures
            r == (self.rx.items@.len() > 0),
    {
        !self.rx.is_empty()
    }

    /// Worker stage: drain the receive ring to exhaustion and return the
    /// packets in arrival order. The worker stops when nothing is left; it
    /// does not re-arm itself.
    pub fn worker_drain(&mut self) -> (drained: Vec<Vec<u8>>)
        requires
            old(self).wf(),
        ensures
            final(self).wf(),
            final(self).tx == old(self).tx,
            final(self).rx.capacity == old(self).rx.capacity,
            final(self).rx.items@.len() == 0,
            drained@ == old(self).rx.items@,
    {
        let mut drained: Vec<Vec<u8>> = Vec::new();
        loop
            invariant
                self.wf(),
                self.tx == old(self).tx,
                self.rx.capacity == old(self).rx.capacity,
                drained@ + self.rx.items@ == old(self).rx.items@,
            ensures
                self.wf(),
                self.tx == old(self).tx,
                self.rx.capacity == old(self).rx.capacity,
                self.rx.items@.len() == 0,
                drained@ == old(self).rx.items@,
            decreases self.rx.items@.len(),
        {
            match self.rx.pop() {
                None => {
                    proof {
                        assert(drained@ =~= old(self).rx.items@);
                    }
                    break ;
                },
                Some(pkt) => {
                    drained.push(pkt);
                    proof {
                        assert(drained@ + self.rx.items@ =~= old(self).rx.items@);
                    }
                },
            }
        }
        drained
    }

    /// Worker stage, transmit direction: queue a protocol response for the
    /// radio. A full ring rejects it.
    pub fn queue_response(&mut self, pkt: Vec<u8>) -> (accepted: bool)
        requires
            old(self).wf(),
        ensures
            final(self).wf(),
            final(self).rx == old(self).rx,
            final(self).tx.capacity == old(self).tx.capacity,
            accepted == (old(self).tx.items@.len() < old(self).tx.capacity),
            accepted ==> final(self).tx.items@ == old(self).tx.items@.push(pkt),
            !accepted ==> final(self).tx.items@ == old(self).tx.items@,
    {
        self.tx.push(pkt)
    }

    /// Hard-interrupt stage, transmit direction: take the oldest queued
    /// response for transmission, if any.
    pub fn take_outgoing(&mut self) -> (r: Option<Vec<u8>>)
        requires
            old(self).wf(),
        ensures
            final(self).wf(),
            final(self).rx == old(self).rx,
            final(self).tx.capacity == old(self).tx.capacity,
            match r {
                None => old(self).tx.items@.len() == 0 && final(self).tx.items@ == old(
                    self,
                ).tx.items@,
                Some(pkt) => {
                    &&& old(self).tx.items@.len() > 0
                    &&& pkt == old(self).tx.items@[0]
                    &&& final(self).tx.items@ == old(self).tx.items@.subrange(
                        1,
                        old(self).tx.items@.len() as int,
                    )
                },
            },
    {
        self.tx.pop()
    }
}

/// Shared tail of both hard interrupt handlers: forward the link layer's
/// command. Arms the worker task to run now exactly when the command
/// reports queued work -- idempotently, so an interrupt storm cannot grow
/// the pending table -- and hands back the commanded wake-up time for the
/// timer edge to program.
pub fn handle_link_command(sched: &mut TaskScheduler, now: u32, cmd: LinkCmd) -> (next_update:
    u32)
    requires
        old(sched).wf(),
    ensures
        final(sched).wf(),
        next_update == cmd.next_update,
        cmd.queued_work ==> final(sched).pending(TaskKind::BleWorker) == coalesce(
            old(sched).pending(TaskKind::BleWorker),
            now,
        ),
        !cmd.queued_work ==> *final(sched) == *old(sched),
        forall|j: TaskKind|
            j != TaskKind::BleWorker ==> final(sched).pending(j) == old(sched).pending(j),
{
    if cmd.queued_work {
        sched.arm_if_idle(TaskKind::BleWorker, now);
    }
    cmd.next_update
}

/// Radio-event interrupt, as a decision on plain values: the link layer's
/// verdict is `None` when the event needed no action, and a command to
/// forward otherwise.
pub fn handle_radio_interrupt(sched: &mut TaskScheduler, now: u32, cmd: Option<LinkCmd>) -> (r:
    Option<u32>)
    requires
        old(sched).wf(),
    ensures
        final(sched).wf(),
        match cmd {
            None => *final(sched) == *old(sched) && r is None,
            Some(c) => {
                &&& r == Some(c.next_update)
                &&& c.queued_work ==> final(sched).pending(TaskKind::BleWorker) == coalesce(
                    old(sched).pending(TaskKind::BleWorker),
                    now,
                )
                &&& !c.queued_work ==> *final(sched) == *old(sched)
                &&& forall|j: TaskKind|
                    j != TaskKind::BleWorker ==> final(sched).pending(j) == old(sched).pending(j)
            },
        },
{
    match cmd {
        None => None,
        Some(c) => Some(handle_link_command(sched, now, c)),
    }
}

/// Link-timer interrupt: the edge has already checked and cleared the
/// pending flag and asked the link layer for its command; the decision is
/// the shared forwarding tail.
pub fn handle_timer_interrupt(sched: &mut TaskScheduler, now: u32, cmd: LinkCmd) -> (next_update:
    u32)
    requires
        old(sched).wf(),
    ensures
        final(sched).wf(),
        next_update == cmd.next_update,
        cmd.queued_work ==> final(sched).pending(TaskKind::BleWorker) == coalesce(
            old(sched).pending(TaskKind::BleWorker),
            now,
        ),
        !cmd.queued_work ==> *final(sched) == *old(sched),
        forall|j: TaskKind|
            j != TaskKind::BleWorker ==> final(sched).pending(j) == old(sched).pending(j),
{
    handle_link_command(sched, now, cmd)
}

} // verus!

//! Wrap-safe time arithmetic over a free-running 32-bit hardware counter.
//!
//! The counter overflows and restarts silently during normal operation, so
//! two raw counter values must never be compared with ordinary unsigned
//! less-than. Ordering is decided by the sign of the difference interpreted
//! as a signed value of the counter's bit width: `a` is earlier than `b`
//! exactly when `b` lies less than half the counter range ahead of `a` on the
//! ring.

use vstd::prelude::*;

verus! {

/// One more than the largest raw counter value.
pub const COUNTER_RANGE: u64 = 0x1_0000_0000;

/// Half the counter range; differences below this bound are "forward".
pub const HALF_RANGE: u32 = 0x8000_0000;

/// How two timestamps on the counter ring are ordered in time.
#[derive(Clone, Copy, PartialEq, Eq, Structural, Debug)]
pub enum TimeOrder {
    Earlier,
    Same,
    Later,
}

/// Mathematical difference `a - b` on the ring, reduced to `[0, 2^32)`.
pub open spec fn wrap_diff(a: u32, b: u32) -> int {
    if a >= b {
        a - b
    } else {
        a + COUNTER_RANGE - b
    }
}

/// `a` is strictly earlier than `b`: the signed interpretation of `a - b`
/// is negative, i.e. the forward distance from `b` to `a` is at least half
/// the ring.
pub open spec fn spec_earlier(a: u32, b: u32) -> bool {
    wrap_diff(a, b) >= HALF_RANGE
}

/// The ordering `compare` reports, as a spec-level function.
pub open spec fn spec_compare(a: u32, b: u32) -> TimeOrder {
    if a == b {
        TimeOrder::Same
    } else if spec_earlier(a, b) {
        TimeOrder::Earlier
    } else {
        TimeOrder::Later
    }
}

/// A deadline `due` has been reached at counter value `now`: `due` is not in
/// the strict future of `now`, i.e. `now` lies less than half the ring
/// forward of `due`.
pub open spec fn spec_reached(now: u32, due: u32) -> bool {
    wrap_diff(now, due) < HALF_RANGE
}

/// `t + d` reduced to the counter width.
pub open spec fn wrap_add(t: u32, d: u32) -> u32 {
    if t + d < COUNTER_RANGE {
        (t + d) as u32
    } else {
        (t + d - COUNTER_RANGE) as u32
    }
}

/// Wrap-aware ordering of two raw counter values.
///
/// Decides by the sign of `(a - b)` as a signed 32-bit value, never by raw
/// unsigned comparison, so values scheduled across a counter wrap are still
/// ordered by the time they denote.
pub fn compare(a: u32, b: u32) -> (r: TimeOrder)
    ensures
        r == spec_compare(a, b),
{
    if a == b {
        TimeOrder::Same
    } else {
        let diff: u32 = if a >= b {
            a - b
        } else {
            (a as u64 + COUNTER_RANGE - b as u64) as u32
        };
        if diff >= HALF_RANGE {
            TimeOrder::Earlier
        } else {
            TimeOrder::Later
        }
    }
}

/// Ticks elapsed from `t` to `now`, modulo the counter range.
pub fn elapsed_since(now: u32, t: u32) -> (d: u32)
    ensures
        d == wrap_diff(now, t),
{
    if now >= t {
        now - t
    } else {
        (now as u64 + COUNTER_RANGE - t as u64) as u32
    }
}

/// Whether the deadline `due` has been reached at counter value `now`.
pub fn reached(now: u32, due: u32) -> (r: bool)
    ensures
        r == spec_reached(now, due),
{
    elapsed_since(now, due) < HALF_RANGE
}

/// The timestamp `d` ticks after `t`, wrapping at the counter width.
pub fn add_duration(t: u32, d: u32) -> (r: u32)
    ensures
        r == wrap_add(t, d),
{
    let s: u64 = t as u64 + d as u64;
    if s < COUNTER_RANGE {
        s as u32
    } else {
        (s - COUNTER_RANGE) as u32
    }
}

/// The free-running counter itself, as the rest of the system sees it: a
/// current raw value that only moves forward (modulo wrap). The hardware
/// read happens at the edge; this mirror is advanced with the ticks that
/// have passed.
pub struct MonotonicClock {
    pub ticks: u32,
}

impl MonotonicClock {
    /// A clock whose counter currently reads `start`.
    pub fn new(start: u32) -> (c: MonotonicClock)
        ensures
            c.ticks == start,
    {
        MonotonicClock { ticks: start }
    }

    /// The current raw counter value.
    pub fn now(&self) -> (t: u32)
        ensures
            t == self.ticks,
    {
        self.ticks
    }

    /// Move the counter forward by `d` ticks, wrapping at the counter width.
    pub fn advance(&mut self, d: u32)
        ensures
            final(self).ticks == wrap_add(old(self).ticks, d),
    {
        self.ticks = add_duration(self.ticks, d);
    }
}

/// Wrap-safe ordering is what naive unsigned comparison is not: whenever `b`
/// lies a nonzero forward distance of less than half the ring after `a` --
/// in particular when `a` sits near the top of the counter range and `b` has
/// a smaller raw value because the counter wrapped -- `compare` still
/// reports `a` earlier than `b`.
pub proof fn lemma_wrap_safe_ordering(a: u32, b: u32)
    requires
        a != b,
        wrap_diff(b, a) < HALF_RANGE,
    ensures
        spec_compare(a, b) == TimeOrder::Earlier,
        spec_compare(b, a) == TimeOrder::Later,
{
    assert(wrap_diff(a, b) + wrap_diff(b, a) == COUNTER_RANGE);
}

} // verus!

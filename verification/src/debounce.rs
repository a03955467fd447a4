//! Majority-filter debouncing of a raw input line.
//!
//! A fixed six-sample shift register of raw boolean readings plus the last
//! reported stable level. Each poll shifts in one raw sample; a `Rising`
//! edge is reported exactly when the register has become all-true while the
//! reported level was still low, and a `Falling` edge symmetrically. The
//! reported level changes only on an edge, so up to five consecutive
//! contact-bounce glitches are absorbed without a spurious edge, at the cost
//! of six poll periods of latency.

use vstd::prelude::*;

verus! {

/// Number of consecutive agreeing samples needed before an edge is reported.
pub const DEBOUNCE_DEPTH: u32 = 6;

/// Mask selecting the six most recent samples in the shift register.
pub const HISTORY_MASK: u8 = 0x3f;

/// All six register bits set: six consecutive high samples.
pub const HISTORY_FULL: u8 = 0x3f;

/// A reported change of the debounced level.
#[derive(Clone, Copy, PartialEq, Eq, Structural, Debug)]
pub enum Edge {
    Rising,
    Falling,
}

/// Shift register after taking one more raw sample.
pub open spec fn spec_shift(history: u8, sample: bool) -> u8 {
    ((history << 1) | (if sample { 1u8 } else { 0u8 })) & HISTORY_MASK
}

/// The edge reported for one poll, given the register after the shift and
/// the level reported so far.
pub open spec fn spec_edge(shifted: u8, level: bool, sample: bool) -> Option<Edge> {
    if shifted == HISTORY_FULL && !level {
        Some(Edge::Rising)
    } else if shifted == 0 && level {
        Some(Edge::Falling)
    } else {
        None
    }
}

/// Debouncing state for one input line: the recent-sample shift register and
/// the last reported stable level. Created once at startup, mutated on every
/// poll, never destroyed.
pub struct Debouncer {
    /// Low six bits: the most recent raw samples, newest in bit 0.
    pub history: u8,
    /// The stable level reported so far.
    pub level: bool,
}

impl Debouncer {
    /// A debouncer that has seen only low samples and reports a low level.
    pub fn new() -> (d: Debouncer)
        ensures
            d.history == 0,
            d.level == false,
            d.wf(),
    {
        Debouncer { history: 0, level: false }
    }

    /// The register never holds samples beyond its six-bit window.
    pub open spec fn wf(self) -> bool {
        self.history < 64
    }

    /// Take one raw sample and report the edge, if any, that it completes.
    ///
    /// The reported level flips exactly when an edge is reported.
    pub fn update(&mut self, sample: bool) -> (edge: Option<Edge>)
        requires
            old(self).wf(),
        ensures
            final(self).history == spec_shift(old(self).history, sample),
            edge == spec_edge(final(self).history, old(self).level, sample),
            final(self).level == (match edge {
                Some(Edge::Rising) => true,
                Some(Edge::Falling) => false,
                None => old(self).level,
            }),
            final(self).wf(),
    {
        let bit: u8 = if sample { 1 } else { 0 };
        let shifted: u8 = ((self.history << 1u8) | bit) & HISTORY_MASK;
        proof {
            let h = old(self).history;
            let b = if sample { 1u8 } else { 0u8 };
            assert(((h << 1u8) | b) & 0x3fu8 < 64) by (bit_vector);
        }
        self.history = shifted;
        if shifted == HISTORY_FULL && !self.level {
            self.level = true;
            Some(Edge::Rising)
        } else if shifted == 0 && self.level {
            self.level = false;
            Some(Edge::Falling)
        } else {
            None
        }
    }
}

/// State reached after polling a whole sequence of raw samples.
pub open spec fn spec_run(d: Debouncer, samples: Seq<bool>) -> Debouncer
    decreases samples.len(),
{
    if samples.len() == 0 {
        d
    } else {
        spec_run(spec_step(d, samples[0]), samples.skip(1))
    }
}

/// One poll as a pure transition on the whole state.
pub open spec fn spec_step(d: Debouncer, sample: bool) -> Debouncer {
    Debouncer {
        history: spec_shift(d.history, sample),
        level: match spec_edge(spec_shift(d.history, sample), d.level, sample) {
            Some(Edge::Rising) => true,
            Some(Edge::Falling) => false,
            None => d.level,
        },
    }
}

/// The edge reported by the `i`-th poll of a sample sequence.
pub open spec fn spec_edge_at(d: Debouncer, samples: Seq<bool>, i: int) -> Option<Edge>
    decreases i,
{
    if i <= 0 {
        spec_edge(spec_shift(d.history, samples[0]), d.level, samples[0])
    } else {
        spec_edge_at(spec_step(d, samples[0]), samples.skip(1), i - 1)
    }
}

/// Debounce correctness, rising side: from any state whose last raw sample
/// was low and whose reported level is low, six consecutive high samples
/// produce exactly one edge, a `Rising` edge on the sixth sample.
pub proof fn lemma_six_high_samples_one_rising(d: Debouncer)
    requires
        d.wf(),
        d.level == false,
        d.history & 1 == 0,
    ensures
        forall|i: int|
            0 <= i < 5 ==> spec_edge_at(d, seq![true, true, true, true, true, true], i)
                == Option::<Edge>::None,
        spec_edge_at(d, seq![true, true, true, true, true, true], 5) == Some(Edge::Rising),
{
    let h0 = d.history;
    let h1 = spec_shift(h0, true);
    let h2 = spec_shift(h1, true);
    let h3 = spec_shift(h2, true);
    let h4 = spec_shift(h3, true);
    let h5 = spec_shift(h4, true);
    let h6 = spec_shift(h5, true);
    assert(h1 != HISTORY_FULL && h1 != 0 && h2 != HISTORY_FULL && h2 != 0 && h3 != HISTORY_FULL
        && h3 != 0 && h4 != HISTORY_FULL && h4 != 0 && h5 != HISTORY_FULL && h5 != 0 && h6
        == HISTORY_FULL) by (bit_vector)
        requires
            h0 & 1 == 0,
            h1 == ((h0 << 1u8) | 1u8) & 0x3fu8,
            h2 == ((h1 << 1u8) | 1u8) & 0x3fu8,
            h3 == ((h2 << 1u8) | 1u8) & 0x3fu8,
            h4 == ((h3 << 1u8) | 1u8) & 0x3fu8,
            h5 == ((h4 << 1u8) | 1u8) & 0x3fu8,
            h6 == ((h5 << 1u8) | 1u8) & 0x3fu8,
    ;
    reveal_with_fuel(spec_edge_at, 8);
    let s = seq![true, true, true, true, true, true];
    assert(s.skip(1) =~= seq![true, true, true, true, true]);
    assert(s.skip(1).skip(1) =~= seq![true, true, true, true]);
    assert(seq![true, true, true, true].skip(1) =~= seq![true, true, true]);
    assert(seq![true, true, true].skip(1) =~= seq![true, true]);
    assert(seq![true, true].skip(1) =~= seq![true]);
    assert(spec_edge_at(d, s, 0) == Option::<Edge>::None);
    assert(spec_edge_at(d, s, 1) == Option::<Edge>::None);
    assert(spec_edge_at(d, s, 2) == Option::<Edge>::None);
    assert(spec_edge_at(d, s, 3) == Option::<Edge>::None);
    assert(spec_edge_at(d, s, 4) == Option::<Edge>::None);
    assert(spec_edge_at(d, s, 5) == Some(Edge::Rising));
    assert(forall|i: int| 0 <= i < 5 ==> spec_edge_at(d, s, i) == Option::<Edge>::None) by {
        assert forall|i: int| 0 <= i < 5 implies spec_edge_at(d, s, i) == Option::<Edge>::None by {
            if i == 0 {
            } else if i == 1 {
            } else if i == 2 {
            } else if i == 3 {
            } else {
                assert(i == 4);
            }
        }
    }
}

/// Debounce correctness, falling side: from any state whose last raw sample
/// was high and whose reported level is high, six consecutive low samples
/// produce exactly one edge, a `Falling` edge on the sixth sample.
pub proof fn lemma_six_low_samples_one_falling(d: Debouncer)
    requires
        d.wf(),
        d.level == true,
        d.history & 1 == 1,
    ensures
        forall|i: int|
            0 <= i < 5 ==> spec_edge_at(d, seq![false, false, false, false, false, false], i)
                == Option::<Edge>::None,
        spec_edge_at(d, seq![false, false, false, false, false, false], 5) == Some(Edge::Falling),
{
    let h0 = d.history;
    let h1 = spec_shift(h0, false);
    let h2 = spec_shift(h1, false);
    let h3 = spec_shift(h2, false);
    let h4 = spec_shift(h3, false);
    let h5 = spec_shift(h4, false);
    let h6 = spec_shift(h5, false);
    assert(h1 != 0 && h1 != HISTORY_FULL && h2 != 0 && h2 != HISTORY_FULL && h3 != 0 && h3
        != HISTORY_FULL && h4 != 0 && h4 != HISTORY_FULL && h5 != 0 && h5 != HISTORY_FULL && h6
        == 0) by (bit_vector)
        requires
            h0 & 1 == 1,
            h1 == ((h0 << 1u8) | 0u8) & 0x3fu8,
            h2 == ((h1 << 1u8) | 0u8) & 0x3fu8,
            h3 == ((h2 << 1u8) | 0u8) & 0x3fu8,
            h4 == ((h3 << 1u8) | 0u8) & 0x3fu8,
            h5 == ((h4 << 1u8) | 0u8) & 0x3fu8,
            h6 == ((h5 << 1u8) | 0u8) & 0x3fu8,
    ;
    reveal_with_fuel(spec_edge_at, 8);
    let s = seq![false, false, false, false, false, false];
    assert(s.skip(1) =~= seq![false, false, false, false, false]);
    assert(s.skip(1).skip(1) =~= seq![false, false, false, false]);
    assert(seq![false, false, false, false].skip(1) =~= seq![false, false, false]);
    assert(seq![false, false, false].skip(1) =~= seq![false, false]);
    assert(seq![false, false].skip(1) =~= seq![false]);
    assert(spec_edge_at(d, s, 0) == Option::<Edge>::None);
    assert(spec_edge_at(d, s, 1) == Option::<Edge>::None);
    assert(spec_edge_at(d, s, 2) == Option::<Edge>::None);
    assert(spec_edge_at(d, s, 3) == Option::<Edge>::None);
    assert(spec_edge_at(d, s, 4) == Option::<Edge>::None);
    assert(spec_edge_at(d, s, 5) == Some(Edge::Falling));
    assert(forall|i: int| 0 <= i < 5 ==> spec_edge_at(d, s, i) == Option::<Edge>::None) by {
        assert forall|i: int| 0 <= i < 5 implies spec_edge_at(d, s, i) == Option::<Edge>::None by {
            if i == 0 {
            } else if i == 1 {
            } else if i == 2 {
            } else if i == 3 {
            } else {
                assert(i == 4);
            }
        }
    }
}

/// A single isolated glitch produces no edge: from a reported-low state whose
/// last raw sample was low, one high sample followed by one low sample
/// reports no edge on either poll, and leaves the state again reported-low
/// with a low last sample.
pub proof fn lemma_isolated_glitch_no_edge(d: Debouncer)
    requires
        d.wf(),
        d.level == false,
        d.history & 1 == 0,
    ensures
        spec_edge_at(d, seq![true, false], 0) == Option::<Edge>::None,
        spec_edge_at(d, seq![true, false], 1) == Option::<Edge>::None,
        spec_run(d, seq![true, false]).level == false,
        spec_run(d, seq![true, false]).history & 1 == 0,
        spec_run(d, seq![true, false]).wf(),
{
    let h0 = d.history;
    let h1 = spec_shift(h0, true);
    let h2 = spec_shift(h1, false);
    assert(h1 != HISTORY_FULL && h2 != HISTORY_FULL && h2 & 1 == 0 && h2 < 64)
        by (bit_vector)
        requires
            h0 & 1 == 0,
            h1 == ((h0 << 1u8) | 1u8) & 0x3fu8,
            h2 == ((h1 << 1u8) | 0u8) & 0x3fu8,
    ;
    reveal_with_fuel(spec_edge_at, 4);
    reveal_with_fuel(spec_run, 4);
    let s = seq![true, false];
    assert(s.skip(1) =~= seq![false]);
    assert(seq![false].skip(1) =~= Seq::<bool>::empty());
}

} // verus!

//! Sequencers: gates and notes driven by an internal clock.
//!
//! A sequencer divides time into periods and is told, at each sample, the
//! number of the period and the position within it. Positions are integers
//! on any scale on which a later position is the larger number; the
//! sequencer only compares them.

use vstd::prelude::*;

verus! {

/// A metronome: fires once each time the beat count goes up.
pub struct GateBeat {
    last_index: usize,
}

impl GateBeat {
    /// The highest beat count seen so far.
    pub closed spec fn last(self) -> usize {
        self.last_index
    }

    /// A metronome that has seen beat zero.
    pub fn new() -> (beat: Self)
        ensures
            beat.last() == 0,
    {
        GateBeat { last_index: 0 }
    }

    /// Takes the count of whole beats elapsed at this sample and says
    /// whether a beat begins here: it does when the count exceeds every
    /// count seen before.
    pub fn sample(&mut self, index: usize) -> (fired: bool)
        ensures
            fired == (index > old(self).last()),
            final(self).last() == if fired {
                index
            } else {
                old(self).last()
            },
    {
        if index > self.last_index {
            self.last_index = index;
            true
        } else {
            false
        }
    }
}

/// The trigger to look at in this sample: the first one when a new period
/// has begun, the one after the last that fired otherwise.
pub open spec fn cursor_at(period: usize, cursor: usize, outer_index: usize) -> usize {
    if outer_index > period {
        0
    } else {
        cursor
    }
}

/// The period a sequencer is in after seeing `outer_index`.
pub open spec fn period_at(period: usize, outer_index: usize) -> usize {
    if outer_index > period {
        outer_index
    } else {
        period
    }
}

/// A sequence of trigger positions within a period. Each fires once per
/// period, in order, at the first sample past its position.
pub struct GateSeq {
    times: Vec<i64>,
    outer_index: usize,
    inner_index: usize,
}

impl GateSeq {
    #[verifier::type_invariant]
    spec fn inv(self) -> bool {
        self.inner_index <= self.times@.len()
    }

    /// The trigger positions, in firing order.
    pub closed spec fn positions(self) -> Seq<i64> {
        self.times@
    }

    /// The number of the period last seen.
    pub closed spec fn period(self) -> usize {
        self.outer_index
    }

    /// How many triggers have fired in this period.
    pub closed spec fn cursor(self) -> usize {
        self.inner_index
    }

    /// A sequence at the start of period zero.
    pub fn new(times: Vec<i64>) -> (seq: Self)
        ensures
            seq.positions() == times@,
            seq.period() == 0,
            seq.cursor() == 0,
    {
        GateSeq { times, outer_index: 0, inner_index: 0 }
    }

    /// One sample at position `phase` of period `outer_index`. Returns
    /// whether a trigger fires. At most one trigger fires per sample, and
    /// none is skipped.
    pub fn sample(&mut self, outer_index: usize, phase: i64) -> (fired: bool)
        ensures
            final(self).positions() == old(self).positions(),
            final(self).period() == period_at(old(self).period(), outer_index),
            ({
                let cursor = cursor_at(old(self).period(), old(self).cursor(), outer_index);
                &&& fired == (cursor < old(self).positions().len() && phase > old(
                    self,
                ).positions()[cursor as int])
                &&& final(self).cursor() == if fired {
                    cursor + 1
                } else {
                    cursor as int
                }
            }),
    {
        proof {
            use_type_invariant(&*self);
        }
        if outer_index > self.outer_index {
            self.inner_index = 0;
            self.outer_index = outer_index;
        }
        if self.inner_index < self.times.len() && phase > self.times[self.inner_index] {
            self.inner_index += 1;
            true
        } else {
            false
        }
    }
}

/// The `(start, end)` spans of a list of windows.
pub open spec fn spans_of<V>(times: Seq<(i64, i64, V)>) -> Seq<(i64, i64)> {
    times.map_values(|window: (i64, i64, V)| (window.0, window.1))
}

/// The window to look at after the one at `cursor` may have closed: the
/// next one if `phase` is past the end of the window at `cursor`.
pub open spec fn window_at(spans: Seq<(i64, i64)>, cursor: usize, phase: i64) -> int {
    if cursor < spans.len() && phase > spans[cursor as int].1 {
        cursor + 1
    } else {
        cursor as int
    }
}

/// Whether `phase` is past the start of the window looked at.
pub open spec fn open_at(spans: Seq<(i64, i64)>, window: int, phase: i64) -> bool {
    0 <= window < spans.len() && phase > spans[window].0
}

/// A sequence of windows `(start, end, value)` within a period. While the
/// position is inside a window, the window's value sounds.
pub struct ValueBearingSustainedGateSeq<V> {
    times: Vec<(i64, i64, V)>,
    outer_index: usize,
    inner_index: usize,
}

impl<V> ValueBearingSustainedGateSeq<V> {
    #[verifier::type_invariant]
    spec fn inv(self) -> bool {
        self.inner_index <= self.times@.len()
    }
}

impl<V: Copy> ValueBearingSustainedGateSeq<V> {
    /// The windows, in order.
    pub closed spec fn windows(self) -> Seq<(i64, i64, V)> {
        self.times@
    }

    /// The number of the period last seen.
    pub closed spec fn period(self) -> usize {
        self.outer_index
    }

    /// How many windows of this period have closed.
    pub closed spec fn cursor(self) -> usize {
        self.inner_index
    }

    /// A sequence at the start of period zero.
    pub fn new(times: Vec<(i64, i64, V)>) -> (seq: Self)
        ensures
            seq.windows() == times@,
            seq.period() == 0,
            seq.cursor() == 0,
    {
        ValueBearingSustainedGateSeq { times, outer_index: 0, inner_index: 0 }
    }

    /// One sample at position `phase` of period `outer_index`. A window
    /// whose end has passed is closed, at most one per sample; the value of
    /// the window then looked at is returned if its start has passed.
    pub fn sample(&mut self, outer_index: usize, phase: i64) -> (value: Option<V>)
        ensures
            final(self).windows() == old(self).windows(),
            final(self).period() == period_at(old(self).period(), outer_index),
            final(self).cursor() == window_at(
                spans_of(old(self).windows()),
                cursor_at(old(self).period(), old(self).cursor(), outer_index),
                phase,
            ),
            value == if open_at(spans_of(old(self).windows()), final(self).cursor() as int, phase) {
                Some(old(self).windows()[final(self).cursor() as int].2)
            } else {
                None
            },
    {
        proof {
            use_type_invariant(&*self);
        }
        if outer_index > self.outer_index {
            self.inner_index = 0;
            self.outer_index = outer_index;
        }
        if self.inner_index < self.times.len() && phase > self.times[self.inner_index].1 {
            self.inner_index += 1;
        }
        if self.inner_index < self.times.len() && phase > self.times[self.inner_index].0 {
            Some(self.times[self.inner_index].2)
        } else {
            None
        }
    }
}

/// A sequence of windows `(start, end)` within a period: a gate that is on
/// while the position is inside a window.
pub struct SustainedGateSeq(ValueBearingSustainedGateSeq<()>);

impl SustainedGateSeq {
    /// The windows, in order.
    pub closed spec fn spans(self) -> Seq<(i64, i64)> {
        spans_of(self.0.windows())
    }

    /// The number of the period last seen.
    pub closed spec fn period(self) -> usize {
        self.0.period()
    }

    /// How many windows of this period have closed.
    pub closed spec fn cursor(self) -> usize {
        self.0.cursor()
    }

    /// A gate over the given windows, at the start of period zero.
    pub fn new(times: Vec<(i64, i64)>) -> (seq: Self)
        ensures
            seq.spans() == times@,
            seq.period() == 0,
            seq.cursor() == 0,
    {
        let mut marked: Vec<(i64, i64, ())> = Vec::new();
        let mut i: usize = 0;
        while i < times.len()
            invariant
                i <= times.len(),
                marked@.len() == i,
                forall|j: int|
                    0 <= j < i ==> (#[trigger] marked@[j]).0 == times@[j].0 && marked@[j].1
                        == times@[j].1,
            decreases times.len() - i,
        {
            marked.push((times[i].0, times[i].1, ()));
            i += 1;
        }
        assert(spans_of(marked@) =~= times@);
        SustainedGateSeq(ValueBearingSustainedGateSeq::new(marked))
    }

    /// One sample at position `phase` of period `outer_index`. Returns
    /// whether it is on.
    pub fn sample(&mut self, outer_index: usize, phase: i64) -> (on: bool)
        ensures
            final(self).spans() == old(self).spans(),
            final(self).period() == period_at(old(self).period(), outer_index),
            final(self).cursor() == window_at(
                old(self).spans(),
                cursor_at(old(self).period(), old(self).cursor(), outer_index),
                phase,
            ),
            on == open_at(old(self).spans(), final(self).cursor() as int, phase),
    {
        self.0.sample(outer_index, phase).is_some()
    }
}

/// A melody: a sequence of notes `(start, end, frequency)` within a
/// period. A note's frequency stays in force after the note has ended,
/// until the next one begins.
pub struct ADSRNoteSeq<V> {
    sequence: ValueBearingSustainedGateSeq<V>,
    last_frequency: V,
}

impl<V: Copy> ADSRNoteSeq<V> {
    /// The notes, in order.
    pub closed spec fn notes(self) -> Seq<(i64, i64, V)> {
        self.sequence.windows()
    }

    /// The number of the period last seen.
    pub closed spec fn period(self) -> usize {
        self.sequence.period()
    }

    /// How many notes of this period have ended.
    pub closed spec fn cursor(self) -> usize {
        self.sequence.cursor()
    }

    /// The frequency in force.
    pub closed spec fn held(self) -> V {
        self.last_frequency
    }

    /// A melody at the start of period zero. `initial` is the frequency in
    /// force before the first note.
    pub fn new(times: Vec<(i64, i64, V)>, initial: V) -> (seq: Self)
        ensures
            seq.notes() == times@,
            seq.period() == 0,
            seq.cursor() == 0,
            seq.held() == initial,
    {
        ADSRNoteSeq { sequence: ValueBearingSustainedGateSeq::new(times), last_frequency: initial }
    }

    /// One sample at position `phase` of period `outer_index`. Returns the
    /// frequency in force and whether a note sounds, which is what drives
    /// the envelope.
    pub fn sample(&mut self, outer_index: usize, phase: i64) -> (out: (V, bool))
        ensures
            final(self).notes() == old(self).notes(),
            final(self).period() == period_at(old(self).period(), outer_index),
            final(self).cursor() == window_at(
                spans_of(old(self).notes()),
                cursor_at(old(self).period(), old(self).cursor(), outer_index),
                phase,
            ),
            out.1 == open_at(spans_of(old(self).notes()), final(self).cursor() as int, phase),
            out.0 == if out.1 {
                old(self).notes()[final(self).cursor() as int].2
            } else {
                old(self).held()
            },
            final(self).held() == out.0,
    {
        let sounding: Option<V> = self.sequence.sample(outer_index, phase);
        match sounding {
            Some(frequency) => {
                self.last_frequency = frequency;
                (frequency, true)
            },
            None => (self.last_frequency, false),
        }
    }
}

} // verus!

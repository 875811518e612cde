//! The render side: counting frames and laying samples out over channels.

use vstd::prelude::*;

verus! {

/// The highest frame count. Up to here a count and its successor are
/// still distinct once both are turned into double-precision seconds.
pub const FRAME_LIMIT: u64 = 0x20_0000_0000_0000;

/// The count of frames rendered so far. It only moves forward, so the time
/// derived from it never runs backwards.
pub struct FrameClock {
    counter: u64,
}

impl FrameClock {
    /// Frames counted so far.
    pub closed spec fn count(self) -> u64 {
        self.counter
    }

    /// A clock that has counted no frame.
    pub fn new() -> (clock: Self)
        ensures
            clock.count() == 0,
    {
        FrameClock { counter: 0 }
    }

    /// Counts one more frame and returns its number. The first frame has
    /// number one. At `FRAME_LIMIT` the clock stands still.
    pub fn tick(&mut self) -> (frame: u64)
        ensures
            frame == final(self).count(),
            final(self).count() == if old(self).count() < FRAME_LIMIT {
                old(self).count() + 1
            } else {
                old(self).count() as int
            },
            final(self).count() >= old(self).count(),
    {
        if self.counter < FRAME_LIMIT {
            self.counter += 1;
        }
        self.counter
    }
}

/// The number of frames in a buffer of `len` samples for `channels`
/// channels; a shorter frame at the end counts.
pub open spec fn frames_in(len: int, channels: int) -> int {
    (len + channels - 1) / channels
}

/// The number of frames in a buffer of `len` samples.
pub fn frame_count(len: usize, channels: usize) -> (frames: usize)
    requires
        channels > 0,
    ensures
        frames == frames_in(len as int, channels as int),
        frames * channels >= len,
{
    let whole: usize = len / channels;
    let rest: usize = len % channels;
    proof {
        let d = channels as int;
        vstd::arithmetic::div_mod::lemma_fundamental_div_mod(len as int, d);
        assert(d * whole == whole * d) by (nonlinear_arith);
        assert((whole + 1) * d == whole * d + d) by (nonlinear_arith);
        assert(whole * d >= whole) by (nonlinear_arith)
            requires
                d >= 1,
                whole >= 0,
        ;
        if rest == 0 {
            vstd::arithmetic::div_mod::lemma_fundamental_div_mod_converse(
                len + d - 1,
                d,
                whole as int,
                d - 1,
            );
        } else {
            vstd::arithmetic::div_mod::lemma_fundamental_div_mod_converse(
                len + d - 1,
                d,
                whole + 1,
                rest - 1,
            );
        }
    }
    if rest == 0 {
        whole
    } else {
        whole + 1
    }
}

/// Fills an interleaved buffer: every channel of frame `k` gets
/// `values[k]`. Frames for which `values` holds nothing are left as they
/// are.
pub fn write_data<T: Copy>(output: &mut [T], channels: usize, values: &[T])
    requires
        channels > 0,
    ensures
        final(output)@.len() == old(output)@.len(),
        forall|i: int|
            0 <= i < final(output)@.len() ==> final(output)@[i] == if i / (channels as int)
                < values@.len() {
                values@[i / (channels as int)]
            } else {
                old(output)@[i]
            },
{
    let len: usize = output.len();
    let mut i: usize = 0;
    while i < len
        invariant
            channels > 0,
            i <= len,
            output@.len() == len,
            old(output)@.len() == len,
            forall|j: int|
                0 <= j < i ==> output@[j] == if j / (channels as int) < values@.len() {
                    values@[j / (channels as int)]
                } else {
                    old(output)@[j]
                },
            forall|j: int| i <= j < len ==> output@[j] == old(output)@[j],
        decreases len - i,
    {
        let frame: usize = i / channels;
        if frame < values.len() {
            output[i] = values[frame];
        }
        i += 1;
    }
}

} // verus!

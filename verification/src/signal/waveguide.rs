//! A plucked-string resonator: a ring of samples that is read, blended
//! with its successor and written back, one entry per sample.

use crate::ring::{ring_after, step_forward};
use vstd::prelude::*;

verus! {

/// The delay line after an excitation has been written at `head`, if one
/// was given.
pub open spec fn plucked<T>(line: Seq<T>, head: int, pluck: Option<T>) -> Seq<T> {
    match pluck {
        Some(value) => line.update(head, value),
        None => line,
    }
}

/// The delay line of a Karplus-Strong string and the place in it that the
/// next sample reads and writes.
pub struct KarplusStrong<T> {
    delay_line: Vec<T>,
    write_index: usize,
}

impl<T: Copy> KarplusStrong<T> {
    /// The samples on the line.
    pub closed spec fn line(self) -> Seq<T> {
        self.delay_line@
    }

    /// The entry that the next sample reads and writes.
    pub closed spec fn head(self) -> usize {
        self.write_index
    }

    /// The head points into the line, or at zero while the line is empty.
    pub open spec fn wf(self) -> bool {
        self.head() < self.line().len() || self.head() == 0
    }

    /// A string of `delay_length` samples, all of them `rest`.
    pub fn new(delay_length: usize, rest: T) -> (string: Self)
        ensures
            string.wf(),
            string.line() == Seq::new(delay_length as nat, |i: int| rest),
            string.head() == 0,
    {
        let mut delay_line: Vec<T> = Vec::new();
        let mut i: usize = 0;
        while i < delay_length
            invariant
                i <= delay_length,
                delay_line@ == Seq::new(i as nat, |j: int| rest),
            decreases delay_length - i,
        {
            delay_line.push(rest);
            i += 1;
            assert(delay_line@ =~= Seq::new(i as nat, |j: int| rest));
        }
        KarplusStrong { delay_line, write_index: 0 }
    }

    /// The number of samples on the line.
    pub fn delay_length(&self) -> (len: usize)
        ensures
            len == self.line().len(),
    {
        self.delay_line.len()
    }

    /// One sample. `pluck` is the excitation to write at the head first, if
    /// the string is being plucked. The head and the entry after it are then
    /// handed to `blend`; what it returns is written at the head and
    /// returned, and the head moves on by one.
    pub fn sample<F: Fn(T, T) -> T>(&mut self, pluck: Option<T>, blend: F) -> (value: T)
        requires
            old(self).wf(),
            old(self).line().len() > 0,
            ({
                let head = old(self).head() as int;
                let struck = plucked(old(self).line(), head, pluck);
                call_requires(blend, (struck[head], struck[ring_after(head, struck.len() as int)]))
            }),
        ensures
            final(self).wf(),
            ({
                let head = old(self).head() as int;
                let struck = plucked(old(self).line(), head, pluck);
                &&& call_ensures(
                    blend,
                    (struck[head], struck[ring_after(head, struck.len() as int)]),
                    value,
                )
                &&& final(self).line() == struck.update(head, value)
                &&& final(self).head() == ring_after(head, struck.len() as int)
            }),
    {
        let head: usize = self.write_index;
        let len: usize = self.delay_line.len();
        if let Some(excitation) = pluck {
            self.delay_line.set(head, excitation);
        }
        let after: usize = step_forward(head, len);
        let value: T = blend(self.delay_line[head], self.delay_line[after]);
        self.delay_line.set(head, value);
        self.write_index = after;
        value
    }
}

} // verus!

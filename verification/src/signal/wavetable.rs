//! Wavetable lookup: which entries of a table an interpolation reads.
//!
//! The table is a ring: the entry before the first is the last one.

use crate::ring::{ring_after, ring_before, step_back, step_forward};
use vstd::prelude::*;

verus! {

/// How a value between two entries is reconstructed.
#[derive(Debug, Clone, Copy, PartialEq, Eq, Structural)]
pub enum WavetableSampleStrategy {
    /// From the entry at the index and the one after it.
    Linear,
    /// From the entry at the index and its two neighbours.
    Quadratic,
}

/// The entries that one lookup reads, in table order.
#[derive(Debug, Clone, Copy, PartialEq)]
pub enum Taps<T> {
    /// The entry at the index and the one after it.
    Linear(T, T),
    /// The entry before the index, the one at it and the one after it.
    Quadratic(T, T, T),
}

/// What a lookup at `index` reads from `table` under `strategy`.
pub open spec fn taps_at<T>(table: Seq<T>, strategy: WavetableSampleStrategy, index: int) -> Taps<
    T,
> {
    match strategy {
        WavetableSampleStrategy::Linear => Taps::Linear(
            table[index],
            table[ring_after(index, table.len() as int)],
        ),
        WavetableSampleStrategy::Quadratic => Taps::Quadratic(
            table[ring_before(index, table.len() as int)],
            table[index],
            table[ring_after(index, table.len() as int)],
        ),
    }
}

/// One period of a signal, sampled at equal steps, and the way to read it.
#[derive(Debug, Clone)]
pub struct Table<T> {
    table: Vec<T>,
    strategy: WavetableSampleStrategy,
}

impl<T: Copy> Table<T> {
    /// The stored samples.
    pub closed spec fn entries(self) -> Seq<T> {
        self.table@
    }

    /// The interpolation in use.
    pub closed spec fn mode(self) -> WavetableSampleStrategy {
        self.strategy
    }

    /// A table over the given samples, read with three-point interpolation.
    pub fn new(table: Vec<T>) -> (built: Self)
        ensures
            built.entries() == table@,
            built.mode() == WavetableSampleStrategy::Quadratic,
    {
        Table { table, strategy: WavetableSampleStrategy::Quadratic }
    }

    /// The same table, read with `strategy`.
    pub fn with_strategy(self, strategy: WavetableSampleStrategy) -> (built: Self)
        ensures
            built.entries() == self.entries(),
            built.mode() == strategy,
    {
        let mut built = self;
        built.strategy = strategy;
        built
    }

    /// The interpolation in use.
    pub fn strategy(&self) -> (strategy: WavetableSampleStrategy)
        ensures
            strategy == self.mode(),
    {
        self.strategy
    }

    /// The number of samples in the table.
    pub fn resolution(&self) -> (resolution: usize)
        ensures
            resolution == self.entries().len(),
    {
        self.table.len()
    }

    /// The entries to interpolate between for a position whose whole part
    /// is `index`. At a whole position the reconstruction is the entry at
    /// the index itself.
    pub fn taps(&self, index: usize) -> (taps: Taps<T>)
        requires
            index < self.entries().len(),
        ensures
            taps == taps_at(self.entries(), self.mode(), index as int),
    {
        let len: usize = self.table.len();
        let after: usize = step_forward(index, len);
        match self.strategy {
            WavetableSampleStrategy::Linear => Taps::Linear(self.table[index], self.table[after]),
            WavetableSampleStrategy::Quadratic => {
                let before: usize = step_back(index, len);
                Taps::Quadratic(self.table[before], self.table[index], self.table[after])
            },
        }
    }
}

} // verus!

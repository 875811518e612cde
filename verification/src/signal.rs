//! State machines behind the nodes of a signal graph.

pub mod combinations;
pub mod envelope;
pub mod modulation;
pub mod osc;
pub mod sequence;
pub mod waveguide;
pub mod wavetable;

use vstd::prelude::*;

verus! {

/// What a memo does with a value it had to compute.
#[derive(Debug, Clone, Copy, PartialEq, Eq, Structural)]
pub enum MemoPolicy {
    /// Remember the newest query: a miss replaces the remembered pair.
    Refresh,
    /// Keep the pair given at construction for ever.
    Frozen,
}

/// A single-slot memo for a node that is read from several places in one
/// frame: it remembers one query time and the value computed for it.
///
/// The time is the bit pattern of the query, so two queries hit the same
/// slot only if they are identical bit for bit.
#[derive(Debug, Clone, Copy)]
pub struct Cached<V> {
    last_t: u64,
    last_value: V,
    policy: MemoPolicy,
}

impl<V: Copy> Cached<V> {
    /// The remembered query time.
    pub closed spec fn key(self) -> u64 {
        self.last_t
    }

    /// The value remembered for it.
    pub closed spec fn value(self) -> V {
        self.last_value
    }

    /// What happens on a miss.
    pub closed spec fn rule(self) -> MemoPolicy {
        self.policy
    }

    /// A memo that remembers `value` for time zero and follows the newest
    /// query from then on.
    pub fn new(value: V) -> (memo: Self)
        ensures
            memo.key() == 0,
            memo.value() == value,
            memo.rule() == MemoPolicy::Refresh,
    {
        Cached { last_t: 0, last_value: value, policy: MemoPolicy::Refresh }
    }

    /// The same memo under another policy.
    pub fn with_policy(self, policy: MemoPolicy) -> (memo: Self)
        ensures
            memo.key() == self.key(),
            memo.value() == self.value(),
            memo.rule() == policy,
    {
        Cached { last_t: self.last_t, last_value: self.last_value, policy }
    }

    /// The value for query time `t`. On a hit the remembered value is
    /// returned and `compute` is not called. On a miss `compute` is called
    /// once; under `Refresh` its result is remembered for `t`.
    pub fn sample<F: FnOnce() -> V>(&mut self, t: u64, compute: F) -> (value: V)
        requires
            t != old(self).key() ==> call_requires(compute, ()),
        ensures
            final(self).rule() == old(self).rule(),
            t == old(self).key() ==> value == old(self).value() && *final(self) == *old(self),
            t != old(self).key() ==> call_ensures(compute, (), value),
            t != old(self).key() && old(self).rule() == MemoPolicy::Refresh ==> final(self).key()
                == t && final(self).value() == value,
            t != old(self).key() && old(self).rule() == MemoPolicy::Frozen ==> *final(self) == *old(
                self,
            ),
    {
        if t == self.last_t {
            self.last_value
        } else {
            let value: V = compute();
            match self.policy {
                MemoPolicy::Refresh => {
                    self.last_t = t;
                    self.last_value = value;
                },
                MemoPolicy::Frozen => {},
            }
            value
        }
    }
}

} // verus!

//! Indices on a ring: the buffers of the synthesizer are read in a circle.

use vstd::arithmetic::div_mod::{lemma_mod_add_multiples_vanish, lemma_mod_self_0, lemma_small_mod};
use vstd::prelude::*;

verus! {

/// The index before `index` on a ring of `len` entries.
pub open spec fn ring_before(index: int, len: int) -> int {
    (index - 1) % len
}

/// The index after `index` on a ring of `len` entries.
pub open spec fn ring_after(index: int, len: int) -> int {
    (index + 1) % len
}

/// The index before `index`, the last one before the first.
pub fn step_back(index: usize, len: usize) -> (before: usize)
    requires
        index < len,
    ensures
        before == ring_before(index as int, len as int),
        before < len,
{
    proof {
        if index == 0 {
            lemma_mod_add_multiples_vanish(-1, len as int);
            lemma_small_mod((len - 1) as nat, len as nat);
        } else {
            lemma_small_mod((index - 1) as nat, len as nat);
        }
    }
    if index == 0 {
        len - 1
    } else {
        index - 1
    }
}

/// The index after `index`, the first one after the last.
pub fn step_forward(index: usize, len: usize) -> (after: usize)
    requires
        index < len,
    ensures
        after == ring_after(index as int, len as int),
        after < len,
{
    proof {
        if index + 1 == len {
            lemma_mod_self_0(len as int);
        } else {
            lemma_small_mod((index + 1) as nat, len as nat);
        }
    }
    if index + 1 == len {
        0
    } else {
        index + 1
    }
}

} // verus!

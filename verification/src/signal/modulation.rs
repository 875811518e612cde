//! Modulation: one signal driving the time axis of another.

use vstd::prelude::*;

verus! {

/// A carrier whose query time is offset by a modulator: the modulator
/// first, the carrier second.
#[derive(Debug, Clone)]
pub struct PhaseMod<C, M>(pub M, pub C);

impl<C: Clone, M> PhaseMod<C, M> {
    /// A carrier modulated by a signal built from a copy of itself. The
    /// copy is handed to `f`; the carrier itself is kept untouched, so the
    /// two share no state.
    pub fn with_self<F: Fn(C) -> M>(carrier: C, f: F) -> (built: Self)
        requires
            forall|copy: C| cloned(carrier, copy) ==> call_requires(f, (copy,)),
        ensures
            built.1 == carrier,
            exists|copy: C| cloned(carrier, copy) && call_ensures(f, (copy,), built.0),
    {
        let copy = carrier.clone();
        let ghost twin = copy;
        assert(cloned(carrier, twin));
        let modulator = f(copy);
        assert(cloned(carrier, twin) && call_ensures(f, (twin,), modulator));
        PhaseMod(modulator, carrier)
    }
}

} // verus!

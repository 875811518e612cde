//! The names of the basic waveforms. Each has period one and swings
//! between -1 and 1; their values are the caller's arithmetic.

use vstd::prelude::*;

verus! {

/// A sine wave.
#[derive(Debug, Clone, Copy, PartialEq, Eq, Structural)]
pub struct Sin;

/// A rising sawtooth.
#[derive(Debug, Clone, Copy, PartialEq, Eq, Structural)]
pub struct Saw;

/// A square wave, low in the first half of its period.
#[derive(Debug, Clone, Copy, PartialEq, Eq, Structural)]
pub struct Square;

/// A triangle wave.
#[derive(Debug, Clone, Copy, PartialEq, Eq, Structural)]
pub struct Tri;

} // verus!

//! Control logic of a polyphonic synthesizer.
//!
//! A synthesizer computes amplitudes, one per frame, and that arithmetic is
//! the caller's. What is decided along the way is decided here: what a MIDI
//! message means and which keys are held ([`midi`]), which voices of a bank
//! may sound and how copies of a voice are detuned
//! ([`signal::combinations`]), in which phase an envelope is
//! ([`signal::envelope`]), which trigger or note of a sequence is due
//! ([`signal::sequence`]), which entries of a table or a delay line are
//! read ([`signal::wavetable`], [`signal::waveguide`]), and how frames are
//! counted and laid out over channels ([`output`]).
//!
//! The caller hands over the comparisons it has made on its amplitudes and
//! times (a flag, an index, a position as an integer) and gets back the
//! decision. Time stamps and samples that the library only stores are
//! generic. Levels that follow from integers alone are exact fractions
//! ([`level`]).

pub mod level;
pub mod midi;
pub mod output;
pub mod ring;
pub mod signal;

//! Envelope phases: where an envelope stands between gate edges.
//!
//! The types are generic in the time stamp `T`. The library only stores and
//! hands back time stamps; comparing and adding them is the caller's part.

use vstd::prelude::*;

verus! {

/// The phase of an attack/decay/sustain/release envelope. The three ramps
/// remember the time at which they began.
#[derive(Debug, Clone, Copy, PartialEq)]
pub enum ADSRState<T> {
    Off,
    Attack(T),
    Decay(T),
    Sustain,
    Release(T),
}

impl<T> ADSRState<T> {
    /// The phase after one sample.
    ///
    /// `on` says whether the key is held, `now` is the time of the sample.
    /// `ended` is `Some(end)` when the ramp that is running has run out,
    /// `end` being its start plus its duration as sampled now; it is `None`
    /// while the ramp goes on, and has no meaning outside a ramp.
    pub open spec fn step(self, on: bool, now: T, ended: Option<T>) -> Self {
        match self {
            ADSRState::Off => if on {
                ADSRState::Attack(now)
            } else {
                ADSRState::Off
            },
            ADSRState::Attack(start) => match ended {
                Some(end) => ADSRState::Decay(end),
                None => ADSRState::Attack(start),
            },
            ADSRState::Decay(start) => match ended {
                Some(end) => if on {
                    ADSRState::Sustain
                } else {
                    ADSRState::Release(end)
                },
                None => ADSRState::Decay(start),
            },
            ADSRState::Sustain => if on {
                ADSRState::Sustain
            } else {
                ADSRState::Release(now)
            },
            ADSRState::Release(start) => match ended {
                Some(_) => ADSRState::Off,
                None => ADSRState::Release(start),
            },
        }
    }

    /// `next` is this phase or one that may come right after it: the phases
    /// run attack, decay, sustain, release and back to off, and only the
    /// sustain may be left out.
    pub open spec fn leads_to(self, next: Self) -> bool {
        match self {
            ADSRState::Off => next is Off || next is Attack,
            ADSRState::Attack(_) => next is Attack || next is Decay,
            ADSRState::Decay(_) => next is Decay || next is Sustain || next is Release,
            ADSRState::Sustain => next is Sustain || next is Release,
            ADSRState::Release(_) => next is Release || next is Off,
        }
    }

    /// The start of the ramp that is running, if one is.
    pub open spec fn ramp_start(self) -> Option<T> {
        match self {
            ADSRState::Attack(start) | ADSRState::Decay(start) | ADSRState::Release(start) => Some(
                start,
            ),
            ADSRState::Off | ADSRState::Sustain => None,
        }
    }
}

impl<T: Copy> ADSRState<T> {
    /// The start of the ramp that is running, if one is.
    pub fn anchor(&self) -> (start: Option<T>)
        ensures
            start == self.ramp_start(),
    {
        match self {
            ADSRState::Attack(start) => Some(*start),
            ADSRState::Decay(start) => Some(*start),
            ADSRState::Release(start) => Some(*start),
            ADSRState::Off => None,
            ADSRState::Sustain => None,
        }
    }

    /// Moves the envelope on by one sample; see [`ADSRState::step`].
    ///
    /// A ramp is left only when it has run out: neither holding the key nor
    /// letting it go cuts an attack short or restarts a release.
    pub fn advance(self, on: bool, now: T, ended: Option<T>) -> (next: Self)
        ensures
            next == self.step(on, now, ended),
            self.leads_to(next),
            self.ramp_start().is_some() && ended.is_none() ==> next == self,
    {
        match self {
            ADSRState::Off => {
                if on {
                    ADSRState::Attack(now)
                } else {
                    ADSRState::Off
                }
            },
            ADSRState::Attack(start) => {
                match ended {
                    Some(end) => ADSRState::Decay(end),
                    None => ADSRState::Attack(start),
                }
            },
            ADSRState::Decay(start) => {
                match ended {
                    Some(end) => {
                        if on {
                            ADSRState::Sustain
                        } else {
                            ADSRState::Release(end)
                        }
                    },
                    None => ADSRState::Decay(start),
                }
            },
            ADSRState::Sustain => {
                if on {
                    ADSRState::Sustain
                } else {
                    ADSRState::Release(now)
                }
            },
            ADSRState::Release(start) => {
                match ended {
                    Some(_) => ADSRState::Off,
                    None => ADSRState::Release(start),
                }
            },
        }
    }
}

/// Edge detection for the envelopes that fire once per gate: it remembers
/// whether its gate was on and when that last went on.
#[derive(Debug, Clone, Copy)]
pub struct GateLatch<T> {
    active: bool,
    start_t: T,
}

impl<T: Copy> GateLatch<T> {
    /// Whether its gate was on at the last sample.
    pub closed spec fn is_active(self) -> bool {
        self.active
    }

    /// The time of the last rising edge, or the time given at construction.
    pub closed spec fn started(self) -> T {
        self.start_t
    }

    /// A latch whose gate is off. `start_t` stands for "never fired".
    pub fn new(start_t: T) -> (latch: Self)
        ensures
            !latch.is_active(),
            latch.started() == start_t,
    {
        GateLatch { active: false, start_t }
    }

    /// Whether its gate was on at the last sample.
    pub fn active(&self) -> (active: bool)
        ensures
            active == self.is_active(),
    {
        self.active
    }

    /// Takes one gate value, sampled at time `now`, and returns the start
    /// time to measure from: `now` on a rising edge, the remembered start
    /// otherwise.
    pub fn update(&mut self, on: bool, now: T) -> (start_t: T)
        ensures
            final(self).is_active() == on,
            final(self).started() == if on && !old(self).is_active() {
                now
            } else {
                old(self).started()
            },
            start_t == final(self).started(),
    {
        if on {
            if !self.active {
                self.active = true;
                self.start_t = now;
            }
        } else {
            if self.active {
                self.active = false;
            }
        }
        self.start_t
    }
}

} // verus!

//! Timing of transmitted elements and the decision of each polling cycle.

use vstd::prelude::*;
use crate::keyer::Keyer;
use crate::pulse::{PaddleInput, Pulse};

verus! {

/// Timing units per minute at one word per minute: a unit lasts
/// `UNITS_PER_MINUTE / wpm` milliseconds.
pub const UNITS_PER_MINUTE: u64 = 1200;

/// Idle slices per timing unit while no element is sent.
pub const IDLE_SLICES_PER_UNIT: u64 = 10;

/// How long the outputs stay keyed and then released for one element.
#[derive(Debug, PartialEq, Eq, Structural, Clone, Copy)]
pub struct ElementTiming {
    /// Key-down time: the element's duration.
    pub key_down: u64,
    /// Key-up time that follows: one unit of inter-element spacing.
    pub key_up: u64,
}

/// What the polling loop does after one paddle sample.
#[derive(Debug, PartialEq, Eq, Structural, Clone, Copy)]
pub enum Action {
    /// Key the outputs for `pulse` as `timing` says, then sample again.
    Send { pulse: Pulse, timing: ElementTiming },
    /// Wait `wait` and sample again.
    Idle { wait: u64 },
}

/// The timing of `pulse` for a timing unit of `unit`.
pub open spec fn timing_of(pulse: Pulse, unit: nat) -> (nat, nat) {
    (pulse.units() * unit, unit)
}

/// Length of a timing unit, in milliseconds, at `wpm` words per minute.
pub fn unit_for_wpm(wpm: u64) -> (r: u64)
    requires
        wpm > 0,
    ensures
        r == UNITS_PER_MINUTE / wpm,
{
    UNITS_PER_MINUTE / wpm
}

/// Key-down time of `pulse`, then one unit of spacing.
pub fn element_timing(pulse: Pulse, unit: u64) -> (r: ElementTiming)
    requires
        pulse.units() * unit <= u64::MAX,
    ensures
        (r.key_down as nat, r.key_up as nat) == timing_of(pulse, unit as nat),
{
    ElementTiming { key_down: pulse.duration(unit), key_up: unit }
}

/// Time to wait before sampling again when nothing is sent.
pub fn idle_wait(unit: u64) -> (r: u64)
    ensures
        r == unit / IDLE_SLICES_PER_UNIT,
{
    unit / IDLE_SLICES_PER_UNIT
}

impl Keyer {
    /// The action owed after one cycle whose decided element is `next`.
    pub open spec fn action_for(next: Option<Pulse>, unit: nat) -> Action {
        match next {
            Some(p) => Action::Send {
                pulse: p,
                timing: ElementTiming {
                    key_down: (p.units() * unit) as u64,
                    key_up: unit as u64,
                },
            },
            None => Action::Idle { wait: (unit / IDLE_SLICES_PER_UNIT as nat) as u64 },
        }
    }

    /// One polling cycle: classifies the dit and dah contact readings,
    /// advances the state machine, and says whether to send an element
    /// (and for how long) or to idle for a tenth of a unit.
    pub fn poll(&mut self, dit: bool, dah: bool, unit: u64) -> (r: Action)
        requires
            3 * unit <= u64::MAX,
        ensures
            final(self)@ == old(self)@.next(PaddleInput::classify(dit, dah)),
            r == Self::action_for(
                old(self)@.next_pulse(PaddleInput::classify(dit, dah)),
                unit as nat,
            ),
    {
        let input = PaddleInput::from_io(dit, dah);
        match self.update(input) {
            Some(p) => Action::Send { pulse: p, timing: element_timing(p, unit) },
            None => Action::Idle { wait: idle_wait(unit) },
        }
    }
}

} // verus!

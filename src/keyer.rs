//! The iambic keyer state machine: one decision per polling cycle.

use vstd::prelude::*;
use crate::pulse::{PaddleInput, Pulse};

verus! {

/// Iambic convention, fixed when the keyer is made.
#[derive(Debug, Default, PartialEq, Eq, Structural, Clone, Copy)]
pub enum IambicMode {
    /// Stops as soon as both paddles are released.
    A,
    /// Sends one closing element after a squeeze is released.
    #[default]
    B,
}

/// How the current streak of elements came about.
#[derive(Debug, Default, PartialEq, Eq, Structural, Clone, Copy)]
pub enum PulseMode {
    /// A single paddle is held.
    #[default]
    Repeating,
    /// Both paddles are squeezed and elements alternate.
    Alternating,
}

/// Whether the closing element of a mode B squeeze has just been sent.
#[derive(Debug, Default, PartialEq, Eq, Structural, Clone, Copy)]
pub enum PulseType {
    #[default]
    Normal,
    Residual,
}

/// Everything a keyer carries from one cycle to the next.
pub struct KeyerState {
    pub current_pulse: Option<Pulse>,
    pub pulse_type: PulseType,
    pub pulse_mode: PulseMode,
    pub mode: IambicMode,
}

impl KeyerState {
    /// The state of a keyer that has sent nothing yet.
    pub open spec fn initial(mode: IambicMode) -> KeyerState {
        KeyerState {
            current_pulse: None,
            pulse_type: PulseType::Normal,
            pulse_mode: PulseMode::Repeating,
            mode,
        }
    }

    /// A residual element is only ever pending in mode B, during an
    /// alternating streak, right after that element was sent.
    pub open spec fn wf(self) -> bool {
        self.pulse_type == PulseType::Residual ==> {
            &&& self.mode == IambicMode::B
            &&& self.pulse_mode == PulseMode::Alternating
            &&& self.current_pulse is Some
        }
    }

    /// True when releasing both paddles now owes the closing element of
    /// mode B.
    pub open spec fn owes_residual(self) -> bool {
        &&& self.current_pulse is Some
        &&& self.mode == IambicMode::B
        &&& self.pulse_mode == PulseMode::Alternating
        &&& self.pulse_type == PulseType::Normal
    }

    /// The element decided for one cycle with paddle reading `input`.
    pub open spec fn next_pulse(self, input: Option<PaddleInput>) -> Option<Pulse> {
        match input {
            Some(PaddleInput::DitOnly) => Some(Pulse::Dit),
            Some(PaddleInput::DahOnly) => Some(Pulse::Dah),
            Some(PaddleInput::Both) => match self.current_pulse {
                None => Some(Pulse::Dah),
                Some(p) => Some(p.opposite()),
            },
            None => if self.owes_residual() {
                Some(self.current_pulse.unwrap().opposite())
            } else {
                None
            },
        }
    }

    /// The state after one cycle with paddle reading `input`: the decided
    /// element becomes the current one, a single paddle starts a repeating
    /// streak, a squeeze an alternating one, and the residual mark is set
    /// only on the cycle that sends the closing element.
    pub open spec fn next(self, input: Option<PaddleInput>) -> KeyerState {
        KeyerState {
            current_pulse: self.next_pulse(input),
            pulse_type: if input is None && self.owes_residual() {
                PulseType::Residual
            } else {
                PulseType::Normal
            },
            pulse_mode: match input {
                Some(PaddleInput::Both) => PulseMode::Alternating,
                Some(_) => PulseMode::Repeating,
                None => self.pulse_mode,
            },
            mode: self.mode,
        }
    }
}

/// Every cycle keeps a well-formed state well-formed.
pub proof fn lemma_next_wf(s: KeyerState, input: Option<PaddleInput>)
    requires
        s.wf(),
    ensures
        s.next(input).wf(),
{
}

/// A single paddle after a squeeze ends the alternating streak: releasing
/// the paddles then sends nothing, in either mode.
pub proof fn lemma_single_paddle_cancels_residual(s: KeyerState, input: PaddleInput)
    requires
        input != PaddleInput::Both,
    ensures
        s.next(Some(input)).pulse_mode == PulseMode::Repeating,
        s.next(Some(input)).next(None).current_pulse is None,
        s.next(Some(input)).next(None).pulse_type == PulseType::Normal,
{
}

/// In mode A, releasing both paddles sends nothing.
pub proof fn lemma_mode_a_stops_on_release(s: KeyerState)
    requires
        s.mode == IambicMode::A,
    ensures
        s.next_pulse(None) is None,
{
}

/// In mode B, the closing element after a squeeze is sent exactly once:
/// it is the opposite of the last element, and a second cycle without
/// contact sends nothing.
pub proof fn lemma_mode_b_single_residual(s: KeyerState)
    requires
        s.wf(),
        s.mode == IambicMode::B,
        s.pulse_mode == PulseMode::Alternating,
        s.pulse_type == PulseType::Normal,
        s.current_pulse is Some,
    ensures
        s.next_pulse(None) == Some(s.current_pulse.unwrap().opposite()),
        s.next(None).next_pulse(None) is None,
        s.next(None).next(None).pulse_type == PulseType::Normal,
{
}

/// The keyer state machine.
pub struct Keyer {
    current_pulse: Option<Pulse>,
    pulse_type: PulseType,
    pulse_mode: PulseMode,
    mode: IambicMode,
}

impl View for Keyer {
    type V = KeyerState;

    closed spec fn view(&self) -> KeyerState {
        KeyerState {
            current_pulse: self.current_pulse,
            pulse_type: self.pulse_type,
            pulse_mode: self.pulse_mode,
            mode: self.mode,
        }
    }
}

impl Keyer {
    #[verifier::type_invariant]
    spec fn inv(self) -> bool {
        self@.wf()
    }

    /// A keyer for the given iambic mode that has sent nothing yet.
    pub fn new(mode: IambicMode) -> (r: Self)
        ensures
            r@ == KeyerState::initial(mode),
            r@.wf(),
    {
        Keyer {
            current_pulse: None,
            pulse_type: PulseType::Normal,
            pulse_mode: PulseMode::Repeating,
            mode,
        }
    }

    /// Decides the element to send in this cycle from the paddle reading
    /// (`None` when no contact is closed) and what was sent before.
    pub fn update(&mut self, input: Option<PaddleInput>) -> (r: Option<Pulse>)
        ensures
            r == old(self)@.next_pulse(input),
            final(self)@ == old(self)@.next(input),
            final(self)@.wf(),
    {
        proof {
            use_type_invariant(&*self);
        }
        let mut pulse_type = PulseType::Normal;
        let mut pulse_mode = self.pulse_mode;
        let current_pulse = match (input, self.current_pulse) {
            (Some(PaddleInput::DitOnly), _) => {
                pulse_mode = PulseMode::Repeating;
                Some(Pulse::Dit)
            },
            (Some(PaddleInput::DahOnly), _) => {
                pulse_mode = PulseMode::Repeating;
                Some(Pulse::Dah)
            },
            // A squeeze always opens with a dah.
            (Some(PaddleInput::Both), None) => {
                pulse_mode = PulseMode::Alternating;
                Some(Pulse::Dah)
            },
            (Some(PaddleInput::Both), Some(p)) => {
                pulse_mode = PulseMode::Alternating;
                Some(p.toggle())
            },
            // Mode B: one closing element after the squeeze is released.
            (None, Some(p)) if self.mode == IambicMode::B && self.pulse_mode
                == PulseMode::Alternating => {
                match self.pulse_type {
                    PulseType::Normal => {
                        pulse_type = PulseType::Residual;
                        Some(p.toggle())
                    },
                    PulseType::Residual => None,
                }
            },
            (None, _) => None,
        };
        *self = Keyer { current_pulse, pulse_type, pulse_mode, mode: self.mode };
        current_pulse
    }
}

impl Default for Keyer {
    /// A mode B keyer that has sent nothing yet.
    fn default() -> (r: Self)
        ensures
            r@ == KeyerState::initial(IambicMode::B),
    {
        Keyer::new(IambicMode::B)
    }
}

} // verus!

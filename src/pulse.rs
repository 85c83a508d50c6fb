//! Morse elements and the paddle reading of one polling cycle.

use vstd::prelude::*;

verus! {

/// One Morse element: a short or a long key-down pulse.
#[derive(Debug, PartialEq, Eq, Structural, Clone, Copy)]
pub enum Pulse {
    Dit,
    Dah,
}

impl Pulse {
    /// Length of the element in timing units: one for a dit, three for a dah.
    pub open spec fn units(self) -> nat {
        match self {
            Pulse::Dit => 1,
            Pulse::Dah => 3,
        }
    }

    /// The other element.
    pub open spec fn opposite(self) -> Pulse {
        match self {
            Pulse::Dit => Pulse::Dah,
            Pulse::Dah => Pulse::Dit,
        }
    }

    /// Key-down time of the element for a timing unit of `unit`.
    pub fn duration(&self, unit: u64) -> (r: u64)
        requires
            self.units() * unit <= u64::MAX,
        ensures
            r == self.units() * unit,
    {
        match self {
            Pulse::Dit => unit,
            Pulse::Dah => 3 * unit,
        }
    }

    /// The opposite element: a dit for a dah and a dah for a dit.
    pub fn toggle(&self) -> (r: Self)
        ensures
            r == self.opposite(),
    {
        match self {
            Pulse::Dit => Pulse::Dah,
            Pulse::Dah => Pulse::Dit,
        }
    }
}

/// Toggling twice gives back the element one started from.
pub proof fn lemma_toggle_twice(p: Pulse)
    ensures
        p.opposite().opposite() == p,
{
}

/// A dit lasts one unit and a dah three, whatever the (positive) unit.
pub proof fn lemma_durations(unit: nat)
    requires
        unit > 0,
    ensures
        Pulse::Dit.units() * unit == unit,
        Pulse::Dah.units() * unit == 3 * unit,
{
}

/// Which paddle contacts are closed in one cycle, when at least one is.
#[derive(Debug, PartialEq, Eq, Structural, Clone, Copy)]
pub enum PaddleInput {
    DitOnly,
    DahOnly,
    Both,
}

impl PaddleInput {
    /// The classification of a pair of contact readings; `None` when
    /// neither contact is closed.
    pub open spec fn classify(dit: bool, dah: bool) -> Option<PaddleInput> {
        if dit && dah {
            Some(PaddleInput::Both)
        } else if dit {
            Some(PaddleInput::DitOnly)
        } else if dah {
            Some(PaddleInput::DahOnly)
        } else {
            None
        }
    }

    /// Classifies the dit and dah contact readings of one cycle.
    pub fn from_io(dit: bool, dah: bool) -> (r: Option<Self>)
        ensures
            r == Self::classify(dit, dah),
    {
        match (dit, dah) {
            (true, false) => Some(PaddleInput::DitOnly),
            (false, true) => Some(PaddleInput::DahOnly),
            (true, true) => Some(PaddleInput::Both),
            (false, false) => None,
        }
    }
}

} // verus!

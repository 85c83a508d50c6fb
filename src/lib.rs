//! Control logic for an iambic Morse paddle keyer: the pulse kinds, the
//! classification of the two paddle contacts, the keyer state machine
//! (iambic modes A and B) and the timing of each transmitted element.

pub mod keyer;
pub mod pulse;
pub mod transmit;

pub use keyer::{IambicMode, Keyer, KeyerState, PulseMode, PulseType};
pub use pulse::{PaddleInput, Pulse};
pub use transmit::{
    element_timing, idle_wait, unit_for_wpm, Action, ElementTiming, IDLE_SLICES_PER_UNIT,
    UNITS_PER_MINUTE,
};

//! Note events: a pitch and a velocity, with the fixed drum-kit constants.

use vstd::prelude::*;

verus! {

/// Percussion key of the kick drum.
pub const KICK_NOTE: u8 = 36;

/// Percussion key of the snare drum.
pub const SNARE_NOTE: u8 = 38;

/// Percussion key of the closed hi-hat.
pub const CH_NOTE: u8 = 42;

/// Percussion key of the open hi-hat.
pub const OH_NOTE: u8 = 46;

/// Velocity of every note the pattern produces.
pub const VELOCITY: u8 = 100;

/// A note event: which key sounds, and how hard.
#[derive(Clone, Copy, Debug, PartialEq, Eq, Structural)]
pub struct Note {
    pub pitch: u8,
    pub velocity: u8,
}

impl Note {
    pub fn new(pitch: u8, velocity: u8) -> (r: Note)
        ensures
            r == (Note { pitch, velocity }),
    {
        Note { pitch, velocity }
    }
}

} // verus!

//! The pattern composer: a 64-bit seed becomes four instrument patterns, and
//! the pattern becomes sixteen steps of note events.

use vstd::prelude::*;
use crate::instrument::{ch_table, decode, kick_table, oh_table, snare_table, InstrumentPattern};
use crate::note::{Note, CH_NOTE, KICK_NOTE, OH_NOTE, SNARE_NOTE, VELOCITY};

verus! {

/// The table of instrument `k`, in the order kick, snare, closed hat, open hat.
pub open spec fn instrument_table(k: int) -> Seq<(u16, bool)> {
    if k == 0 {
        kick_table()
    } else if k == 1 {
        snare_table()
    } else if k == 2 {
        ch_table()
    } else {
        oh_table()
    }
}

/// The 16-bit slice of `seed` that instrument `k` decodes: the most
/// significant one for the kick, the least significant one for the open hat.
pub open spec fn instrument_slice(seed: u64, k: int) -> u16 {
    if k == 0 {
        (seed >> 48u64) as u16
    } else if k == 1 {
        (seed >> 32u64) as u16
    } else if k == 2 {
        (seed >> 16u64) as u16
    } else {
        seed as u16
    }
}

/// The four instruments' steps that `seed` selects.
pub open spec fn compose(seed: u64) -> Seq<Seq<bool>> {
    Seq::new(4, |k: int| decode(instrument_slice(seed, k), instrument_table(k)))
}

/// The note of `pitch` when `hit`, else nothing.
pub open spec fn hit_note(hit: bool, pitch: u8) -> Seq<Note> {
    if hit {
        seq![Note { pitch, velocity: VELOCITY }]
    } else {
        Seq::empty()
    }
}

/// The notes that sound at `step` of pattern `p`, in instrument order.
pub open spec fn step_notes(p: Seq<Seq<bool>>, step: int) -> Seq<Note> {
    hit_note(p[0][step], KICK_NOTE) + hit_note(p[1][step], SNARE_NOTE) + hit_note(
        p[2][step],
        CH_NOTE,
    ) + hit_note(p[3][step], OH_NOTE)
}

/// The notes of each of the sixteen steps of pattern `p`.
pub open spec fn step_sequence(p: Seq<Seq<bool>>) -> Seq<Seq<Note>> {
    Seq::new(16, |i: int| step_notes(p, i))
}

/// A whole drum pattern: kick, snare, closed hat and open hat.
#[derive(Clone, Copy, Debug, PartialEq, Eq)]
pub struct MachinePattern(pub [InstrumentPattern; 4]);

impl View for MachinePattern {
    type V = Seq<Seq<bool>>;

    open spec fn view(&self) -> Seq<Seq<bool>> {
        Seq::new(4, |k: int| self.0@[k]@)
    }
}

impl MachinePattern {
    /// Decodes a seed into the four instruments' patterns.
    pub fn from_u64(num: u64) -> (r: MachinePattern)
        ensures
            r@ == compose(num),
            r@.len() == 4,
            forall|k: int| 0 <= k < 4 ==> (#[trigger] r@[k]).len() == 16,
    {
        let r = MachinePattern(
            [
                InstrumentPattern::kick_from_u16((num >> 48) as u16),
                InstrumentPattern::snare_from_u16((num >> 32) as u16),
                InstrumentPattern::ch_from_u16((num >> 16) as u16),
                InstrumentPattern::oh_from_u16(num as u16),
            ],
        );
        assert(r@ =~= compose(num));
        r
    }

    /// The notes that sound at `step`: one per instrument that hits there,
    /// in the order kick, snare, closed hat, open hat.
    pub fn notes_at_step(&self, step: usize) -> (r: Vec<Note>)
        requires
            step < 16,
        ensures
            r@ == step_notes(self@, step as int),
    {
        let mut notes: Vec<Note> = Vec::with_capacity(4);
        if self.0[0].0[step] {
            notes.push(Note::new(KICK_NOTE, VELOCITY));
        }
        assert(notes@ =~= hit_note(self@[0][step as int], KICK_NOTE));
        if self.0[1].0[step] {
            notes.push(Note::new(SNARE_NOTE, VELOCITY));
        }
        assert(notes@ =~= hit_note(self@[0][step as int], KICK_NOTE) + hit_note(
            self@[1][step as int],
            SNARE_NOTE,
        ));
        if self.0[2].0[step] {
            notes.push(Note::new(CH_NOTE, VELOCITY));
        }
        assert(notes@ =~= hit_note(self@[0][step as int], KICK_NOTE) + hit_note(
            self@[1][step as int],
            SNARE_NOTE,
        ) + hit_note(self@[2][step as int], CH_NOTE));
        if self.0[3].0[step] {
            notes.push(Note::new(OH_NOTE, VELOCITY));
        }
        assert(notes@ =~= step_notes(self@, step as int));
        notes
    }

    /// The notes of every step, from step 0 to step 15.
    pub fn step_iterator(&self) -> (r: Vec<Vec<Note>>)
        ensures
            r@.len() == 16,
            forall|i: int| 0 <= i < 16 ==> (#[trigger] r@[i])@ == step_sequence(self@)[i],
    {
        let mut steps: Vec<Vec<Note>> = Vec::with_capacity(16);
        let mut i: usize = 0;
        while i < 16
            invariant
                i <= 16,
                steps@.len() == i,
                forall|j: int| 0 <= j < i ==> (#[trigger] steps@[j])@ == step_sequence(self@)[j],
            decreases 16 - i,
        {
            steps.push(self.notes_at_step(i));
            i += 1;
        }
        steps
    }
}

} // verus!

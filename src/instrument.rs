//! The instrument decoder: one 16-bit slice of a seed becomes sixteen
//! hit/no-hit steps, through a per-instrument bit-mapping table.
//!
//! A table has one entry per step: the bit of the slice that the step reads,
//! and whether the step is a hit when that bit is set (`true`) or when it is
//! clear (`false`). Each row of a table below is one beat of four sixteenths.
//! The snare's and the hi-hats' tables put the lowest bits on the quarter
//! notes, the next ones on the eighths between them and the highest on the
//! remaining sixteenths; the kick's puts its lowest bits on the off-beat
//! eighths and its highest on the quarter notes. Small seeds thus give the
//! common variations, and the polarities are chosen so that a zero slice
//! gives the "Amen break".

use vstd::prelude::*;

verus! {

/// Whether bit `bit` of `num` is set.
pub open spec fn bit_set(num: u16, bit: u16) -> bool {
    (num >> bit) & 1u16 == 1u16
}

/// The step that reads `entry` is a hit for slice `num`.
pub open spec fn entry_hit(num: u16, entry: (u16, bool)) -> bool {
    bit_set(num, entry.0) == entry.1
}

/// The sixteen steps that `table` decodes from `num`.
pub open spec fn decode(num: u16, table: Seq<(u16, bool)>) -> Seq<bool> {
    Seq::new(16, |i: int| entry_hit(num, table[i]))
}

/// Bit-mapping table of the kick drum.
pub open spec fn kick_table() -> Seq<(u16, bool)> {
    seq![
        (15, false), (4, true), (0, false), (5, true),
        (13, true), (6, true), (1, true), (7, true),
        (14, true), (8, true), (2, false), (9, false),
        (12, true), (10, true), (3, true), (11, true),
    ]
}

/// Bit-mapping table of the snare drum.
pub open spec fn snare_table() -> Seq<(u16, bool)> {
    seq![
        (0, true), (8, true), (4, true), (9, true),
        (1, false), (10, true), (5, true), (11, false),
        (2, true), (12, false), (6, true), (13, true),
        (3, false), (14, true), (7, true), (15, true),
    ]
}

/// Bit-mapping table of the closed hi-hat.
pub open spec fn ch_table() -> Seq<(u16, bool)> {
    seq![
        (0, true), (8, false), (4, false), (9, false),
        (1, false), (10, false), (5, false), (11, false),
        (2, false), (12, false), (6, false), (13, false),
        (3, true), (14, false), (7, false), (15, false),
    ]
}

/// Bit-mapping table of the open hi-hat.
pub open spec fn oh_table() -> Seq<(u16, bool)> {
    seq![
        (0, false), (8, true), (4, true), (9, true),
        (1, true), (10, true), (5, true), (11, true),
        (2, true), (12, true), (6, true), (13, true),
        (3, false), (14, true), (7, true), (15, true),
    ]
}

/// Two sequences of sixteen items that agree at each index are equal.
pub(crate) proof fn lemma_same16<A>(a: Seq<A>, b: Seq<A>)
    requires
        a.len() == 16,
        b.len() == 16,
        a[0] == b[0], a[1] == b[1], a[2] == b[2], a[3] == b[3],
        a[4] == b[4], a[5] == b[5], a[6] == b[6], a[7] == b[7],
        a[8] == b[8], a[9] == b[9], a[10] == b[10], a[11] == b[11],
        a[12] == b[12], a[13] == b[13], a[14] == b[14], a[15] == b[15],
    ensures
        a == b,
{
    assert forall|i: int| 0 <= i < 16 implies a[i] == b[i] by {
        assert(i == 0 || i == 1 || i == 2 || i == 3 || i == 4 || i == 5 || i == 6 || i == 7
            || i == 8 || i == 9 || i == 10 || i == 11 || i == 12 || i == 13 || i == 14
            || i == 15);
    }
    assert(a =~= b);
}

/// The hits of one instrument over the sixteen steps.
#[derive(Clone, Copy, Debug, PartialEq, Eq)]
pub struct InstrumentPattern(pub [bool; 16]);

impl View for InstrumentPattern {
    type V = Seq<bool>;

    open spec fn view(&self) -> Seq<bool> {
        self.0@
    }
}

/// Decodes `num` through `table`, one step at a time.
fn decode_with(num: u16, table: &[(u16, bool); 16]) -> (r: InstrumentPattern)
    requires
        forall|i: int| 0 <= i < 16 ==> #[trigger] table@[i].0 < 16,
    ensures
        r@ == decode(num, table@),
{
    let mut hits = [false; 16];
    let mut i: usize = 0;
    while i < 16
        invariant
            i <= 16,
            forall|j: int| 0 <= j < 16 ==> #[trigger] table@[j].0 < 16,
            forall|j: int| 0 <= j < i ==> #[trigger] hits@[j] == entry_hit(num, table@[j]),
        decreases 16 - i,
    {
        let (bit, hit_when_set) = table[i];
        hits[i] = ((num >> bit) & 1 == 1) == hit_when_set;
        i += 1;
    }
    assert(hits@ =~= decode(num, table@));
    InstrumentPattern(hits)
}

/// The kick drum's table as data.
fn kick_entries() -> (r: [(u16, bool); 16])
    ensures
        r@ == kick_table(),
{
    let r = [
        (15, false), (4, true), (0, false), (5, true),
        (13, true), (6, true), (1, true), (7, true),
        (14, true), (8, true), (2, false), (9, false),
        (12, true), (10, true), (3, true), (11, true),
    ];
    proof {
        lemma_same16(r@, kick_table());
    }
    r
}

/// The snare drum's table as data.
fn snare_entries() -> (r: [(u16, bool); 16])
    ensures
        r@ == snare_table(),
{
    let r = [
        (0, true), (8, true), (4, true), (9, true),
        (1, false), (10, true), (5, true), (11, false),
        (2, true), (12, false), (6, true), (13, true),
        (3, false), (14, true), (7, true), (15, true),
    ];
    proof {
        lemma_same16(r@, snare_table());
    }
    r
}

/// The closed hi-hat's table as data.
fn ch_entries() -> (r: [(u16, bool); 16])
    ensures
        r@ == ch_table(),
{
    let r = [
        (0, true), (8, false), (4, false), (9, false),
        (1, false), (10, false), (5, false), (11, false),
        (2, false), (12, false), (6, false), (13, false),
        (3, true), (14, false), (7, false), (15, false),
    ];
    proof {
        lemma_same16(r@, ch_table());
    }
    r
}

/// The open hi-hat's table as data.
fn oh_entries() -> (r: [(u16, bool); 16])
    ensures
        r@ == oh_table(),
{
    let r = [
        (0, false), (8, true), (4, true), (9, true),
        (1, true), (10, true), (5, true), (11, true),
        (2, true), (12, true), (6, true), (13, true),
        (3, false), (14, true), (7, true), (15, true),
    ];
    proof {
        lemma_same16(r@, oh_table());
    }
    r
}

impl InstrumentPattern {
    /// Decodes a kick-drum slice.
    pub fn kick_from_u16(num: u16) -> (r: InstrumentPattern)
        ensures
            r@ == decode(num, kick_table()),
    {
        decode_with(num, &kick_entries())
    }

    /// Decodes a snare drum slice.
    pub fn snare_from_u16(num: u16) -> (r: InstrumentPattern)
        ensures
            r@ == decode(num, snare_table()),
    {
        decode_with(num, &snare_entries())
    }

    /// Decodes a closed hi-hat slice.
    pub fn ch_from_u16(num: u16) -> (r: InstrumentPattern)
        ensures
            r@ == decode(num, ch_table()),
    {
        decode_with(num, &ch_entries())
    }

    /// Decodes a open hi-hat slice.
    pub fn oh_from_u16(num: u16) -> (r: InstrumentPattern)
        ensures
            r@ == decode(num, oh_table()),
    {
        decode_with(num, &oh_entries())
    }
}

} // verus!

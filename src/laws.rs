//! What holds of every seed, slice and pattern, proved over the spec
//! functions that the decoder's and the composer's contracts use.

use vstd::prelude::*;
use crate::instrument::{bit_set, ch_table, decode, kick_table, lemma_same16, oh_table, snare_table};
use crate::machine::{compose, instrument_slice, instrument_table, step_notes, step_sequence};
use crate::MachinePattern;

verus! {

broadcast use vstd::array::group_array_axioms;

/// Some step of `table` reads bit `bit`.
pub open spec fn reads_bit(table: Seq<(u16, bool)>, bit: u16) -> bool {
    exists|i: int| 0 <= i < 16 && #[trigger] table[i].0 == bit
}

/// `table` maps its sixteen steps one to one onto the sixteen bits of a
/// slice: every step reads a bit below 16, every such bit is read by some
/// step, and no two steps read the same bit.
pub open spec fn covers_each_bit_once(table: Seq<(u16, bool)>) -> bool {
    &&& table.len() == 16
    &&& forall|i: int| 0 <= i < 16 ==> #[trigger] table[i].0 < 16
    &&& forall|b: u16| b < 16 ==> #[trigger] reads_bit(table, b)
    &&& forall|i: int, j: int|
        0 <= i < 16 && 0 <= j < 16 && #[trigger] table[i].0 == #[trigger] table[j].0 ==> i == j
}

proof fn lemma_cases16(i: int)
    requires
        0 <= i < 16,
    ensures
        i == 0 || i == 1 || i == 2 || i == 3 || i == 4 || i == 5 || i == 6 || i == 7 || i == 8
            || i == 9 || i == 10 || i == 11 || i == 12 || i == 13 || i == 14 || i == 15,
{
}

/// A table with an inverse, from bits back to steps, covers each bit once.
proof fn lemma_inverse_covers(table: Seq<(u16, bool)>, step_of: Seq<int>)
    requires
        table.len() == 16,
        step_of.len() == 16,
        forall|i: int| 0 <= i < 16 ==> #[trigger] table[i].0 < 16 && step_of[table[i].0 as int] == i,
        forall|b: int| 0 <= b < 16 ==> 0 <= #[trigger] step_of[b] < 16 && table[step_of[b]].0 == b,
    ensures
        covers_each_bit_once(table),
{
    assert forall|b: u16| b < 16 implies #[trigger] reads_bit(table, b) by {
        assert(table[step_of[b as int]].0 == b);
    }
    assert forall|i: int, j: int|
        0 <= i < 16 && 0 <= j < 16 && #[trigger] table[i].0 == #[trigger] table[j].0 implies i == j by {
        assert(step_of[table[i].0 as int] == i);
        assert(step_of[table[j].0 as int] == j);
    }
}

proof fn lemma_kick_covers()
    ensures
        covers_each_bit_once(kick_table()),
{
    let t = kick_table();
    let inv = seq![2int, 6, 10, 14, 1, 3, 5, 7, 9, 11, 13, 15, 12, 4, 8, 0];
    assert forall|i: int| 0 <= i < 16 implies #[trigger] t[i].0 < 16 && inv[t[i].0 as int] == i by {
        lemma_cases16(i);
    }
    assert forall|b: int| 0 <= b < 16 implies 0 <= #[trigger] inv[b] < 16 && t[inv[b]].0 == b by {
        lemma_cases16(b);
    }
    lemma_inverse_covers(t, inv);
}

/// The snare's and both hi-hats' tables read the bits in the same order.
proof fn lemma_shared_order_covers(t: Seq<(u16, bool)>)
    requires
        t.len() == 16,
        t[0].0 == 0, t[1].0 == 8, t[2].0 == 4, t[3].0 == 9,
        t[4].0 == 1, t[5].0 == 10, t[6].0 == 5, t[7].0 == 11,
        t[8].0 == 2, t[9].0 == 12, t[10].0 == 6, t[11].0 == 13,
        t[12].0 == 3, t[13].0 == 14, t[14].0 == 7, t[15].0 == 15,
    ensures
        covers_each_bit_once(t),
{
    let inv = seq![0int, 4, 8, 12, 2, 6, 10, 14, 1, 3, 5, 7, 9, 11, 13, 15];
    assert forall|i: int| 0 <= i < 16 implies #[trigger] t[i].0 < 16 && inv[t[i].0 as int] == i by {
        lemma_cases16(i);
    }
    assert forall|b: int| 0 <= b < 16 implies 0 <= #[trigger] inv[b] < 16 && t[inv[b]].0 == b by {
        lemma_cases16(b);
    }
    lemma_inverse_covers(t, inv);
}

/// Each instrument's table is a bijection between its sixteen steps and the
/// sixteen bits of its slice: no bit is ignored, none is read twice.
pub proof fn law_tables_cover_each_bit_once(k: int)
    requires
        0 <= k < 4,
    ensures
        covers_each_bit_once(instrument_table(k)),
{
    if k == 0 {
        lemma_kick_covers();
    } else {
        lemma_shared_order_covers(instrument_table(k));
    }
}

/// Decoding is deterministic: two patterns decoded from the same seed are
/// identical, and so are their step sequences.
pub proof fn law_deterministic(seed: u64, a: MachinePattern, b: MachinePattern)
    requires
        a@ == compose(seed),
        b@ == compose(seed),
    ensures
        a == b,
        step_sequence(a@) == step_sequence(b@),
{
    assert forall|k: int| 0 <= k < 4 implies a.0[k] == b.0[k] by {
        assert(a@[k] == b@[k]);
        assert(a.0[k].0 =~= b.0[k].0);
    }
    assert(a.0 =~= b.0);
}

/// Decoding is total: every seed gives four instruments of sixteen steps
/// each, every slice decodes to sixteen steps under every table, and every
/// pattern has sixteen steps of notes.
pub proof fn law_total(seed: u64, num: u16, k: int)
    requires
        0 <= k < 4,
    ensures
        compose(seed).len() == 4,
        compose(seed)[k].len() == 16,
        decode(num, instrument_table(k)).len() == 16,
        step_sequence(compose(seed)).len() == 16,
{
}

/// Each instrument depends on its own slice of the seed alone: two seeds
/// that agree on the slice of instrument `k` decode to the same steps for
/// `k`, whatever their other slices hold.
pub proof fn law_independent_slices(s1: u64, s2: u64, k: int)
    requires
        0 <= k < 4,
        instrument_slice(s1, k) == instrument_slice(s2, k),
    ensures
        compose(s1)[k] == compose(s2)[k],
{
}

/// Flipping one bit of a slice flips that bit and no other.
proof fn lemma_flip_bit(num: u16, bit: u16, c: u16)
    by (bit_vector)
    requires
        bit < 16,
        c < 16,
    ensures
        bit_set(num ^ (1u16 << bit), c) == (bit_set(num, c) != (c == bit)),
{
}

/// Flipping exactly one bit of an instrument's slice flips the hit at
/// exactly one step of that instrument: the step that reads the bit.
pub proof fn law_single_bit_flip(k: int, num: u16, bit: u16)
    requires
        0 <= k < 4,
        bit < 16,
    ensures
        exists|s: int|
            0 <= s < 16 && instrument_table(k)[s].0 == bit && forall|i: int|
                0 <= i < 16 ==> (#[trigger] decode(num ^ (1u16 << bit), instrument_table(k))[i]
                    != decode(num, instrument_table(k))[i] <==> i == s),
{
    let t = instrument_table(k);
    law_tables_cover_each_bit_once(k);
    assert(reads_bit(t, bit));
    let s = choose|s: int| 0 <= s < 16 && #[trigger] t[s].0 == bit;
    assert forall|i: int| 0 <= i < 16 implies (#[trigger] decode(num ^ (1u16 << bit), t)[i]
        != decode(num, t)[i] <==> i == s) by {
        lemma_flip_bit(num, bit, t[i].0);
    }
}

/// A zero bit pattern has no bit set.
proof fn lemma_zero_bits(b: u16)
    by (bit_vector)
    ensures
        !bit_set(0, b),
{
}

/// Seed 0 gives the reference rhythm of each instrument: every step is a hit
/// exactly where its table asks for a clear bit.
pub proof fn law_seed_zero()
    ensures
        compose(0) == seq![
            seq![true, false, true, false, false, false, false, false,
                false, false, true, true, false, false, false, false],
            seq![false, false, false, false, true, false, false, true,
                false, true, false, false, true, false, false, false],
            seq![false, true, true, true, true, true, true, true,
                true, true, true, true, false, true, true, true],
            seq![true, false, false, false, false, false, false, false,
                false, false, false, false, true, false, false, false],
        ],
{
    assert forall|b: u16| !#[trigger] bit_set(0, b) by {
        lemma_zero_bits(b);
    }
    assert(instrument_slice(0, 0) == 0) by (bit_vector);
    assert(instrument_slice(0, 1) == 0) by (bit_vector);
    assert(instrument_slice(0, 2) == 0) by (bit_vector);
    let expected = seq![
        seq![true, false, true, false, false, false, false, false,
            false, false, true, true, false, false, false, false],
        seq![false, false, false, false, true, false, false, true,
            false, true, false, false, true, false, false, false],
        seq![false, true, true, true, true, true, true, true,
            true, true, true, true, false, true, true, true],
        seq![true, false, false, false, false, false, false, false,
            false, false, false, false, true, false, false, false],
    ];
    lemma_same16(decode(0, kick_table()), expected[0]);
    lemma_same16(decode(0, snare_table()), expected[1]);
    lemma_same16(decode(0, ch_table()), expected[2]);
    lemma_same16(decode(0, oh_table()), expected[3]);
    assert(compose(0) =~= expected);
}

/// A step at which no instrument hits has no notes; it is still one of the
/// sixteen steps of the sequence.
pub proof fn law_empty_step(p: Seq<Seq<bool>>, step: int)
    requires
        0 <= step < 16,
        p.len() == 4,
        forall|k: int| 0 <= k < 4 ==> !(#[trigger] p[k])[step],
    ensures
        step_notes(p, step) == Seq::<crate::Note>::empty(),
        step_sequence(p).len() == 16,
        step_sequence(p)[step] == Seq::<crate::Note>::empty(),
{
    assert(!p[0][step] && !p[1][step] && !p[2][step] && !p[3][step]);
    assert(step_notes(p, step) =~= Seq::<crate::Note>::empty());
}

} // verus!

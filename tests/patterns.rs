use drum_seed::note::{CH_NOTE, KICK_NOTE, OH_NOTE, SNARE_NOTE, VELOCITY};
use drum_seed::{InstrumentPattern, MachinePattern, Note};

const T: bool = true;
const F: bool = false;

fn decoders() -> [fn(u16) -> InstrumentPattern; 4] {
    [
        InstrumentPattern::kick_from_u16,
        InstrumentPattern::snare_from_u16,
        InstrumentPattern::ch_from_u16,
        InstrumentPattern::oh_from_u16,
    ]
}

fn differing_steps(a: &InstrumentPattern, b: &InstrumentPattern) -> Vec<usize> {
    (0..16).filter(|&i| a.0[i] != b.0[i]).collect()
}

#[test]
fn seed_zero_gives_reference_rhythm() {
    let p = MachinePattern::from_u64(0);
    assert_eq!(p.0[0].0, [T, F, T, F, F, F, F, F, F, F, T, T, F, F, F, F]);
    assert_eq!(p.0[1].0, [F, F, F, F, T, F, F, T, F, T, F, F, T, F, F, F]);
    assert_eq!(p.0[2].0, [F, T, T, T, T, T, T, T, T, T, T, T, F, T, T, T]);
    assert_eq!(p.0[3].0, [T, F, F, F, F, F, F, F, F, F, F, F, T, F, F, F]);
}

#[test]
fn seed_zero_step_notes() {
    let steps = MachinePattern::from_u64(0).step_iterator();
    let kick = Note::new(36, 100);
    let snare = Note::new(38, 100);
    let ch = Note::new(42, 100);
    let oh = Note::new(46, 100);
    assert_eq!(steps[0], vec![kick, oh]);
    assert_eq!(steps[1], vec![ch]);
    assert_eq!(steps[4], vec![snare, ch]);
    assert_eq!(steps[12], vec![snare, oh]);
}

#[test]
fn decoding_is_deterministic() {
    for seed in [0u64, 1, 0x0123_4567_89ab_cdef, u64::MAX, 0xdead_beef_0000_ffff] {
        let a = MachinePattern::from_u64(seed);
        let b = MachinePattern::from_u64(seed);
        assert_eq!(a, b);
        assert_eq!(a.step_iterator(), b.step_iterator());
    }
}

#[test]
fn every_seed_gives_sixteen_steps() {
    for seed in [0u64, 7, 0x8000_0000_0000_0000, u64::MAX, 0x5555_aaaa_5555_aaaa] {
        let p = MachinePattern::from_u64(seed);
        assert_eq!(p.0.len(), 4);
        for inst in p.0.iter() {
            assert_eq!(inst.0.len(), 16);
        }
        assert_eq!(p.step_iterator().len(), 16);
    }
}

#[test]
fn each_table_reads_each_bit_once() {
    for decode in decoders() {
        let base = decode(0);
        let mut seen = [false; 16];
        for bit in 0..16 {
            let steps = differing_steps(&base, &decode(1u16 << bit));
            assert_eq!(steps.len(), 1);
            assert!(!seen[steps[0]]);
            seen[steps[0]] = true;
        }
        assert!(seen.iter().all(|&s| s));
    }
}

#[test]
fn single_bit_flip_changes_one_step() {
    for decode in decoders() {
        for num in [0x1234u16, 0xffff, 0x8001, 0x00f0] {
            let base = decode(num);
            for bit in 0..16 {
                assert_eq!(differing_steps(&base, &decode(num ^ (1u16 << bit))).len(), 1);
            }
        }
    }
}

#[test]
fn kick_bit_five_is_step_three() {
    assert!(!InstrumentPattern::kick_from_u16(0).0[3]);
    assert!(InstrumentPattern::kick_from_u16(0x0020).0[3]);
}

#[test]
fn slices_are_independent() {
    let base = MachinePattern::from_u64(0x1111_2222_3333_4444);
    let kick_changed = MachinePattern::from_u64(0xffff_2222_3333_4444);
    assert_ne!(base.0[0], kick_changed.0[0]);
    assert_eq!(base.0[1], kick_changed.0[1]);
    assert_eq!(base.0[2], kick_changed.0[2]);
    assert_eq!(base.0[3], kick_changed.0[3]);
    let oh_changed = MachinePattern::from_u64(0x1111_2222_3333_0000);
    assert_eq!(base.0[0], oh_changed.0[0]);
    assert_eq!(base.0[1], oh_changed.0[1]);
    assert_eq!(base.0[2], oh_changed.0[2]);
    assert_ne!(base.0[3], oh_changed.0[3]);
}

#[test]
fn slices_go_to_their_instruments() {
    let p = MachinePattern::from_u64(0x0123_4567_89ab_cdef);
    assert_eq!(p.0[0], InstrumentPattern::kick_from_u16(0x0123));
    assert_eq!(p.0[1], InstrumentPattern::snare_from_u16(0x4567));
    assert_eq!(p.0[2], InstrumentPattern::ch_from_u16(0x89ab));
    assert_eq!(p.0[3], InstrumentPattern::oh_from_u16(0xcdef));
}

#[test]
fn kick_and_closed_hat_step_notes() {
    let p = MachinePattern::from_u64(0x0020_0000_0000_0000);
    assert!(p.0[0].0[3] && !p.0[1].0[3] && p.0[2].0[3] && !p.0[3].0[3]);
    let steps = p.step_iterator();
    assert_eq!(steps[3], vec![Note::new(36, 100), Note::new(42, 100)]);
    assert_eq!(p.notes_at_step(3), steps[3]);
}

#[test]
fn step_notes_from_a_built_pattern() {
    let mut tracks = [InstrumentPattern([false; 16]); 4];
    tracks[0].0[3] = true;
    tracks[2].0[3] = true;
    let steps = MachinePattern(tracks).step_iterator();
    assert_eq!(steps.len(), 16);
    assert_eq!(steps[3], vec![Note::new(36, 100), Note::new(42, 100)]);
}

#[test]
fn empty_step_yields_no_notes() {
    let p = MachinePattern::from_u64(0x0000_0000_0100_0000);
    let steps = p.step_iterator();
    assert_eq!(steps.len(), 16);
    assert!(steps[1].is_empty());
    let silent = MachinePattern([InstrumentPattern([false; 16]); 4]).step_iterator();
    assert_eq!(silent.len(), 16);
    assert!(silent.iter().all(|s| s.is_empty()));
}

#[test]
fn all_hits_in_instrument_order() {
    let full = MachinePattern([InstrumentPattern([true; 16]); 4]);
    let expected = vec![
        Note::new(KICK_NOTE, VELOCITY),
        Note::new(SNARE_NOTE, VELOCITY),
        Note::new(CH_NOTE, VELOCITY),
        Note::new(OH_NOTE, VELOCITY),
    ];
    for step in full.step_iterator() {
        assert_eq!(step, expected);
    }
}

#[test]
fn note_constants() {
    assert_eq!((KICK_NOTE, SNARE_NOTE, CH_NOTE, OH_NOTE, VELOCITY), (36, 38, 42, 46, 100));
    let n = Note::new(38, 100);
    assert_eq!((n.pitch, n.velocity), (38, 100));
}

#[test]
fn all_ones_seed() {
    let p = MachinePattern::from_u64(u64::MAX);
    assert_eq!(p.0[0].0, [F, T, F, T, T, T, T, T, T, T, F, F, T, T, T, T]);
    assert_eq!(p.0[2].0, [T, F, F, F, F, F, F, F, F, F, F, F, T, F, F, F]);
}

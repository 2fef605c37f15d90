//! Tests of the MIDI note frequency mapping.

use solar1::midi::MidiNote;

#[test]
fn frequency_a4_is_440hz() {
    assert_eq!(MidiNote(69).frequency(), 440_000);
}

#[test]
fn frequency_one_octave_up_is_880hz() {
    assert_eq!(MidiNote(81).frequency(), 880_000);
}

#[test]
fn frequency_one_octave_down_is_220hz() {
    assert_eq!(MidiNote(57).frequency(), 220_000);
}

#[test]
fn frequency_all_a_notes_are_exact() {
    assert_eq!(MidiNote(21).frequency(), 27_500); // A0
    assert_eq!(MidiNote(33).frequency(), 55_000);
    assert_eq!(MidiNote(45).frequency(), 110_000);
    assert_eq!(MidiNote(93).frequency(), 1_760_000);
    assert_eq!(MidiNote(105).frequency(), 3_520_000);
}

#[test]
fn frequency_middle_c() {
    // C4 in equal temperament is 261.6256 Hz; the fixed-point mapping
    // truncates to millihertz.
    assert_eq!(MidiNote(60).frequency(), 261_625);
}

#[test]
fn frequency_extremes_of_the_note_range() {
    // The lowest MIDI note is about 8.18 Hz, the highest about 12543.85 Hz.
    assert_eq!(MidiNote(0).frequency(), 8_175);
    assert_eq!(MidiNote(127).frequency(), 12_543_840);
}

#[test]
fn frequency_rises_with_pitch() {
    let mut prev = MidiNote(0).frequency();
    for n in 1..128u8 {
        let f = MidiNote(n).frequency();
        assert!(f > prev);
        prev = f;
    }
}

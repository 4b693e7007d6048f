use miditui::midi::midi_export::{denominator_to_power, read_vlq, write_vlq};
use miditui::midi::midi_import::scale_ticks;
use miditui::midi::{contains_beat, contains_measure, name_to_note, note_to_name};

#[test]
fn test_vlq_encoding() {
    let mut buffer = Vec::new();

    // Single byte values (0-127)
    write_vlq(0, &mut buffer);
    assert_eq!(buffer, vec![0x00]);
    buffer.clear();

    write_vlq(127, &mut buffer);
    assert_eq!(buffer, vec![0x7F]);
    buffer.clear();

    // Two byte values (128-16383)
    write_vlq(128, &mut buffer);
    assert_eq!(buffer, vec![0x81, 0x00]);
    buffer.clear();

    write_vlq(0x3FFF, &mut buffer);
    assert_eq!(buffer, vec![0xFF, 0x7F]);
    buffer.clear();

    // Three byte values
    write_vlq(0x4000, &mut buffer);
    assert_eq!(buffer, vec![0x81, 0x80, 0x00]);
    buffer.clear();
}

#[test]
fn test_denominator_power() {
    assert_eq!(denominator_to_power(4), 2);
    assert_eq!(denominator_to_power(8), 3);
    assert_eq!(denominator_to_power(2), 1);
    assert_eq!(denominator_to_power(16), 4);
}

#[test]
fn test_scale_ticks() {
    // Same resolution
    assert_eq!(scale_ticks(480, 480), 480);

    // Double resolution source
    assert_eq!(scale_ticks(960, 960), 480);

    // Half resolution source
    assert_eq!(scale_ticks(240, 240), 480);

    // Different resolution
    assert_eq!(scale_ticks(120, 120), 480);
}

#[test]
fn test_note_to_name() {
    assert_eq!(note_to_name(60), "C4");
    assert_eq!(note_to_name(69), "A4");
    assert_eq!(note_to_name(0), "C-1");
    assert_eq!(note_to_name(127), "G9");
}

#[test]
fn test_name_to_note() {
    assert_eq!(name_to_note("C4"), Some(60));
    assert_eq!(name_to_note("A4"), Some(69));
    assert_eq!(name_to_note("C-1"), Some(0));
}

#[test]
fn vlq_round_trips() {
    let values = [
        0u32, 1, 0x7F, 0x80, 0x3FFF, 0x4000, 0x1F_FFFF, 0x20_0000, 0x0FFF_FFFF, 480, 1920, 96_000,
    ];
    for v in values {
        let mut buffer = vec![0xAA];
        write_vlq(v, &mut buffer);
        buffer.push(0x55);
        let (value, next) = read_vlq(&buffer, 1).unwrap();
        assert_eq!(value, v);
        assert_eq!(next, buffer.len() - 1);
    }
    let mut v: u32 = 1;
    while v <= 0x0FFF_FFFF {
        let mut buffer = Vec::new();
        write_vlq(v, &mut buffer);
        assert_eq!(read_vlq(&buffer, 0), Some((v, buffer.len())));
        v = v * 3 + 1;
    }
}

#[test]
fn vlq_largest_and_broken() {
    let mut buffer = Vec::new();
    write_vlq(0x0FFF_FFFF, &mut buffer);
    assert_eq!(buffer, vec![0xFF, 0xFF, 0xFF, 0x7F]);
    assert_eq!(read_vlq(&[0x81], 0), None);
    assert_eq!(read_vlq(&[0x81, 0x80, 0x80, 0x80, 0x00], 0), None);
    assert_eq!(read_vlq(&[0x00], 1), None);
    assert_eq!(read_vlq(&[0x00], 0), Some((0, 1)));
}

#[test]
fn denominator_power_of_the_others() {
    assert_eq!(denominator_to_power(1), 0);
    assert_eq!(denominator_to_power(32), 5);
    assert_eq!(denominator_to_power(3), 2);
    assert_eq!(denominator_to_power(0), 2);
}

#[test]
fn scale_ticks_floors_and_keeps_the_low_bits() {
    assert_eq!(scale_ticks(1, 960), 0);
    assert_eq!(scale_ticks(3, 960), 1);
    assert_eq!(scale_ticks(96, 96), 480);
    assert_eq!(scale_ticks(100, 1), 48_000);
    assert_eq!(scale_ticks(0x0FFF_FFFF, 1), ((0x0FFF_FFFFu64 * 480) % (1u64 << 32)) as u32);
}

#[test]
fn note_names_of_every_pitch_class() {
    let names: Vec<String> = (60..72).map(note_to_name).collect();
    assert_eq!(
        names,
        vec!["C4", "C#4", "D4", "D#4", "E4", "F4", "F#4", "G4", "G#4", "A4", "A#4", "B4"]
    );
    assert_eq!(note_to_name(11), "B-1");
    assert_eq!(note_to_name(12), "C0");
    assert_eq!(note_to_name(255), "D#20");
    for note in 0..=127u8 {
        assert_eq!(name_to_note(&note_to_name(note)), Some(note));
    }
}

#[test]
fn names_that_are_no_notes() {
    assert_eq!(name_to_note(""), None);
    assert_eq!(name_to_note("   "), None);
    assert_eq!(name_to_note("C"), None);
    assert_eq!(name_to_note("4"), None);
    assert_eq!(name_to_note("H4"), None);
    assert_eq!(name_to_note("c4"), None);
    assert_eq!(name_to_note("E#4"), None);
    assert_eq!(name_to_note("C4x"), None);
    assert_eq!(name_to_note("C-"), None);
    assert_eq!(name_to_note("C--1"), None);
    assert_eq!(name_to_note("C-2"), None);
    assert_eq!(name_to_note("G#9"), None);
    assert_eq!(name_to_note("C10"), None);
    assert_eq!(name_to_note("C99999999999999999999"), None);
    assert_eq!(name_to_note("  F#5\t"), Some(78));
    assert_eq!(name_to_note("G9"), Some(127));
    assert_eq!(name_to_note("C04"), Some(60));
    assert_eq!(name_to_note("C-0"), Some(12));
}

#[test]
fn beats_and_measures_in_a_column() {
    assert!(contains_beat(0, 1));
    assert!(!contains_beat(0, 0));
    assert!(!contains_beat(1, 479));
    assert!(contains_beat(1, 480));
    assert!(contains_beat(470, 20));
    assert!(!contains_beat(481, 120));
    assert!(contains_measure(1900, 30));
    assert!(!contains_measure(480, 120));
    assert!(contains_measure(1920, 1));
    assert!(!contains_beat(u32::MAX, 1));
    assert!(contains_beat(u32::MAX - 100, u32::MAX));
}

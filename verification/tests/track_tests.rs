use miditui::midi::{IdAllocator, Note, Track};

#[test]
fn test_track_creation() {
    let mut ids = IdAllocator::new();
    let track = Track::new(&mut ids, "Piano", 0);
    assert_eq!(track.name, "Piano");
    assert_eq!(track.channel, 0);
    assert_eq!(track.program, 0);
    assert!(!track.muted);
    assert!(!track.solo);
}

#[test]
fn test_add_notes_sorted() {
    let mut ids = IdAllocator::new();
    let mut track = Track::new(&mut ids, "Test", 0);
    track.create_note(&mut ids, 60, 100, 480, 240); // Beat 2
    track.create_note(&mut ids, 62, 100, 0, 240); // Beat 1
    track.create_note(&mut ids, 64, 100, 960, 240); // Beat 3

    let notes = track.notes();
    assert_eq!(notes[0].start_tick, 0);
    assert_eq!(notes[1].start_tick, 480);
    assert_eq!(notes[2].start_tick, 960);
}

#[test]
fn test_notes_in_range() {
    let mut ids = IdAllocator::new();
    let mut track = Track::new(&mut ids, "Test", 0);
    track.create_note(&mut ids, 60, 100, 0, 480); // 0-480
    track.create_note(&mut ids, 62, 100, 480, 480); // 480-960
    track.create_note(&mut ids, 64, 100, 960, 480); // 960-1440

    let in_range: Vec<_> = track.notes_in_range(240, 720);
    assert_eq!(in_range.len(), 2); // First two notes overlap
}

#[test]
fn test_duration() {
    let mut ids = IdAllocator::new();
    let mut track = Track::new(&mut ids, "Test", 0);
    assert_eq!(track.duration_ticks(), 0);

    track.create_note(&mut ids, 60, 100, 0, 480);
    assert_eq!(track.duration_ticks(), 480);

    track.create_note(&mut ids, 62, 100, 960, 480);
    assert_eq!(track.duration_ticks(), 1440);
}

fn starts(track: &Track) -> Vec<u32> {
    track.notes().iter().map(|n| n.start_tick).collect()
}

fn pitches(track: &Track) -> Vec<u8> {
    track.notes().iter().map(|n| n.pitch).collect()
}

#[test]
fn track_defaults() {
    let mut ids = IdAllocator::new();
    let track = Track::new(&mut ids, "Lead", 200);
    assert_eq!(track.channel, 15);
    assert_eq!(track.volume, 100);
    assert_eq!(track.pan, 64);
    assert_eq!(track.id.as_u64(), 1);
    let drums = Track::new_drum_track(&mut ids, "Drums");
    assert_eq!(drums.channel, 9);
    assert_eq!(drums.id.as_u64(), 2);
    assert_eq!(drums.note_count(), 0);
}

#[test]
fn notes_with_equal_start_keep_insertion_order() {
    let mut ids = IdAllocator::new();
    let mut track = Track::new(&mut ids, "Test", 0);
    track.create_note(&mut ids, 60, 100, 480, 10);
    track.create_note(&mut ids, 61, 100, 0, 10);
    track.create_note(&mut ids, 62, 100, 480, 10);
    track.create_note(&mut ids, 63, 100, 480, 10);
    track.create_note(&mut ids, 64, 100, 0, 10);
    assert_eq!(starts(&track), vec![0, 0, 480, 480, 480]);
    assert_eq!(pitches(&track), vec![61, 64, 60, 62, 63]);
}

#[test]
fn adjacent_notes_are_in_order_after_many_inserts() {
    let mut ids = IdAllocator::new();
    let mut track = Track::new(&mut ids, "Test", 0);
    let mut seed: u32 = 12345;
    for _ in 0..200 {
        seed = seed.wrapping_mul(1103515245).wrapping_add(12345);
        track.create_note(&mut ids, 60, 100, (seed >> 8) % 5000, 10);
    }
    let s = starts(&track);
    assert_eq!(s.len(), 200);
    assert!(s.windows(2).all(|w| w[0] <= w[1]));
}

#[test]
fn remove_and_get_by_id() {
    let mut ids = IdAllocator::new();
    let mut track = Track::new(&mut ids, "Test", 0);
    let a = track.create_note(&mut ids, 60, 100, 0, 10);
    let b = track.create_note(&mut ids, 61, 100, 5, 10);
    assert_eq!(track.get_note(b).map(|n| n.pitch), Some(61));
    let removed = track.remove_note(a);
    assert_eq!(removed.map(|n| n.pitch), Some(60));
    assert!(track.remove_note(a).is_none());
    assert!(track.get_note(a).is_none());
    assert_eq!(track.note_count(), 1);
    if let Some(note) = track.get_note_mut(b) {
        note.velocity = 33;
    }
    assert_eq!(track.notes()[0].velocity, 33);
    track.clear();
    assert_eq!(track.note_count(), 0);
}

#[test]
fn notes_at_tick_are_the_sounding_ones() {
    let mut ids = IdAllocator::new();
    let mut track = Track::new(&mut ids, "Test", 0);
    track.create_note(&mut ids, 60, 100, 0, 480);
    track.create_note(&mut ids, 62, 100, 240, 480);
    track.create_note(&mut ids, 64, 100, 960, 480);
    let at: Vec<u8> = track.notes_at_tick(300).iter().map(|n| n.pitch).collect();
    assert_eq!(at, vec![60, 62]);
    assert!(track.notes_at_tick(480 + 240).is_empty());
}

#[test]
fn notes_in_range_sees_every_note_at_tick_zero() {
    let mut ids = IdAllocator::new();
    let mut track = Track::new(&mut ids, "Test", 0);
    for pitch in 60..65 {
        track.create_note(&mut ids, pitch, 100, 0, 480);
    }
    assert_eq!(track.notes_in_range(0, 1).len(), 5);
}

#[test]
fn quantize_rounds_to_nearest_with_half_up() {
    let mut ids = IdAllocator::new();
    let mut track = Track::new(&mut ids, "Test", 0);
    track.create_note(&mut ids, 60, 100, 119, 10);
    track.create_note(&mut ids, 61, 100, 120, 10);
    track.create_note(&mut ids, 62, 100, 121, 10);
    track.create_note(&mut ids, 63, 100, 470, 10);
    track.create_note(&mut ids, 64, 100, 10, 10);
    track.quantize(240);
    assert_eq!(starts(&track), vec![0, 0, 240, 240, 480]);
    assert_eq!(pitches(&track), vec![64, 60, 61, 62, 63]);
    track.quantize(0);
    assert_eq!(starts(&track), vec![0, 0, 240, 240, 480]);
}

#[test]
fn quantize_stays_below_the_largest_tick() {
    let mut ids = IdAllocator::new();
    let mut track = Track::new(&mut ids, "Test", 0);
    track.create_note(&mut ids, 60, 100, u32::MAX - 1, 10);
    track.quantize(1000);
    assert_eq!(starts(&track), vec![4294967000]);
}

#[test]
fn transpose_all_counts_the_notes_left_behind() {
    let mut ids = IdAllocator::new();
    let mut track = Track::new(&mut ids, "Test", 0);
    track.create_note(&mut ids, 60, 100, 0, 10);
    track.create_note(&mut ids, 120, 100, 1, 10);
    track.create_note(&mut ids, 127, 100, 2, 10);
    assert_eq!(track.transpose_all(7), 1);
    assert_eq!(pitches(&track), vec![67, 127, 127]);
    assert_eq!(track.transpose_all(-128), 3);
}

#[test]
fn reorder_restores_order_after_edits() {
    let mut ids = IdAllocator::new();
    let mut track = Track::new(&mut ids, "Test", 0);
    track.create_note(&mut ids, 60, 100, 0, 10);
    track.create_note(&mut ids, 61, 100, 100, 10);
    track.create_note(&mut ids, 62, 100, 200, 10);
    track.notes_mut()[0].start_tick = 100;
    track.notes_mut()[2].start_tick = 50;
    track.reorder();
    assert_eq!(pitches(&track), vec![62, 60, 61]);
    assert_eq!(starts(&track), vec![50, 100, 100]);
}

#[test]
fn add_note_returns_the_notes_id() {
    let mut ids = IdAllocator::new();
    let mut track = Track::new(&mut ids, "Test", 0);
    let note = Note::new(&mut ids, 60, 100, 0, 10);
    let id = note.id;
    assert_eq!(track.add_note(note), id);
    let copy = track.clone();
    assert_eq!(copy.notes().len(), 1);
    assert_eq!(copy.name, "Test");
    assert_eq!(copy.id, track.id);
}

use miditui::midi::{IdAllocator, Note};

#[test]
fn test_note_creation() {
    let mut ids = IdAllocator::new();
    let note = Note::new(&mut ids, 60, 100, 0, 480);
    assert_eq!(note.pitch, 60);
    assert_eq!(note.velocity, 100);
    assert_eq!(note.start_tick, 0);
    assert_eq!(note.duration_ticks, 480);
}

#[test]
fn test_note_clamping() {
    let mut ids = IdAllocator::new();
    let note = Note::new(&mut ids, 200, 200, 0, 480);
    assert_eq!(note.pitch, 127);
    assert_eq!(note.velocity, 127);
}

#[test]
fn test_note_overlap() {
    let mut ids = IdAllocator::new();
    let note = Note::new(&mut ids, 60, 100, 100, 200); // 100-300
    assert!(note.overlaps_range(0, 150));
    assert!(note.overlaps_range(200, 400));
    assert!(note.overlaps_range(50, 350));
    assert!(!note.overlaps_range(0, 100));
    assert!(!note.overlaps_range(300, 400));
}

#[test]
fn test_note_active() {
    let mut ids = IdAllocator::new();
    let note = Note::new(&mut ids, 60, 100, 100, 200);
    assert!(!note.is_active_at(99));
    assert!(note.is_active_at(100));
    assert!(note.is_active_at(200));
    assert!(!note.is_active_at(300));
}

#[test]
fn test_transpose() {
    let mut ids = IdAllocator::new();
    let mut note = Note::new(&mut ids, 60, 100, 0, 480);
    assert!(note.transpose(12));
    assert_eq!(note.pitch, 72);

    let mut note = Note::new(&mut ids, 120, 100, 0, 480);
    assert!(!note.transpose(12)); // Would exceed 127
    assert_eq!(note.pitch, 120); // Unchanged
}

#[test]
fn note_ids_rise_and_never_repeat() {
    let mut ids = IdAllocator::new();
    let a = Note::new(&mut ids, 60, 100, 0, 480);
    let b = Note::new(&mut ids, 60, 100, 0, 480);
    let c = b.duplicate(&mut ids);
    assert_eq!(a.id.as_u64(), 1);
    assert_eq!(b.id.as_u64(), 2);
    assert_eq!(c.id.as_u64(), 3);
    assert_eq!((c.pitch, c.velocity, c.start_tick, c.duration_ticks), (60, 100, 0, 480));
}

#[test]
fn note_duration_is_at_least_one() {
    let mut ids = IdAllocator::new();
    let note = Note::new(&mut ids, 60, 100, 7, 0);
    assert_eq!(note.duration_ticks, 1);
    assert_eq!(note.end_tick(), 8);
}

#[test]
fn note_end_saturates() {
    let mut ids = IdAllocator::new();
    let note = Note::new(&mut ids, 60, 100, u32::MAX - 1, 10);
    assert_eq!(note.end_tick(), u32::MAX);
    assert!(note.is_active_at(u32::MAX - 1));
    assert!(!note.is_active_at(u32::MAX));
}

#[test]
fn note_shift_stops_at_the_ends() {
    let mut ids = IdAllocator::new();
    let mut note = Note::new(&mut ids, 60, 100, 100, 10);
    note.shift(-40);
    assert_eq!(note.start_tick, 60);
    note.shift(-100);
    assert_eq!(note.start_tick, 0);
    note.shift(i32::MIN);
    assert_eq!(note.start_tick, 0);
    note.shift(i32::MAX);
    note.shift(i32::MAX);
    note.shift(i32::MAX);
    assert_eq!(note.start_tick, u32::MAX);
}

#[test]
fn transpose_down_below_zero_fails() {
    let mut ids = IdAllocator::new();
    let mut note = Note::new(&mut ids, 5, 100, 0, 480);
    assert!(!note.transpose(-6));
    assert_eq!(note.pitch, 5);
    assert!(note.transpose(-5));
    assert_eq!(note.pitch, 0);
}

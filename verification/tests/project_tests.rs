use miditui::midi::{IdAllocator, Project, Track};

#[test]
fn test_project_creation() {
    let project = Project::new("Test");
    assert_eq!(project.name, "Test");
    assert_eq!(project.tempo, 120);
    assert_eq!(project.track_count(), 0);
}

#[test]
fn test_add_tracks() {
    let mut ids = IdAllocator::new();
    let mut project = Project::new("Test");
    project.create_track(&mut ids, "Track 1");
    project.create_track(&mut ids, "Track 2");
    assert_eq!(project.track_count(), 2);
}

#[test]
fn test_channel_assignment() {
    let mut ids = IdAllocator::new();
    let mut project = Project::new("Test");
    for i in 0..16 {
        project.create_track(&mut ids, &format!("Track {}", i + 1));
    }
    // Check that channel 9 was skipped (it's for drums)
    let channels: Vec<_> = project.tracks().iter().map(|t| t.channel).collect();
    assert!(!channels[..10].contains(&9)); // First 10 tracks skip channel 9
}

#[test]
fn test_tick_position_conversion() {
    let project = Project::new("Test"); // 4/4 time

    // Tick 0 = Measure 1, Beat 1
    assert_eq!(project.tick_to_position(0), (1, 1, 0));

    // Tick 480 = Measure 1, Beat 2
    assert_eq!(project.tick_to_position(480), (1, 2, 0));

    // Tick 1920 = Measure 2, Beat 1
    assert_eq!(project.tick_to_position(1920), (2, 1, 0));
}

#[test]
fn channels_cycle_and_pass_over_nine() {
    let mut ids = IdAllocator::new();
    let mut project = Project::new("Test");
    for _ in 0..17 {
        project.create_track(&mut ids, "T");
    }
    let channels: Vec<u8> = project.tracks().iter().map(|t| t.channel).collect();
    assert_eq!(channels, vec![0, 1, 2, 3, 4, 5, 6, 7, 8, 10, 11, 12, 13, 14, 15, 0, 1]);
    project.create_drum_track(&mut ids, "Drums");
    assert_eq!(project.track_at(17).map(|t| t.channel), Some(9));
    assert_eq!(project.next_channel, 2);
}

#[test]
fn position_round_trips_at_beat_starts() {
    let mut project = Project::new("Test");
    for (num, den) in [(4u8, 4u8), (3, 4), (6, 8), (7, 16), (16, 1), (1, 32)] {
        project.time_sig_numerator = num;
        project.time_sig_denominator = den;
        let per_measure = project.ticks_per_measure();
        assert_eq!(per_measure, 1920 / den as u32 * num as u32);
        for measure in 1..5u32 {
            let mut beat = 1u32;
            while (beat - 1) * 480 < per_measure {
                let tick = project.position_to_tick(measure, beat);
                assert_eq!(project.tick_to_position(tick), (measure, beat, 0));
                beat += 1;
            }
        }
    }
}

#[test]
fn position_counts_ticks_within_the_beat() {
    let project = Project::new("Test");
    assert_eq!(project.tick_to_position(1920 + 480 + 7), (2, 2, 7));
    assert_eq!(project.position_to_tick(2, 2), 2400);
    assert_eq!(project.ticks_per_measure(), 1920);
}

#[test]
fn solo_overrides_mute() {
    let mut ids = IdAllocator::new();
    let mut project = Project::new("Test");
    project.create_track(&mut ids, "A");
    project.create_track(&mut ids, "B");
    project.create_track(&mut ids, "C");
    let names = |p: &Project| -> Vec<String> {
        p.playable_tracks().iter().map(|t| t.name.clone()).collect()
    };
    assert_eq!(names(&project), vec!["A", "B", "C"]);
    project.track_at_mut(1).unwrap().solo = true;
    project.track_at_mut(0).unwrap().muted = true;
    assert_eq!(names(&project), vec!["B"]);
    project.track_at_mut(2).unwrap().solo = true;
    project.track_at_mut(2).unwrap().muted = true;
    assert_eq!(names(&project), vec!["B"]);
    project.track_at_mut(1).unwrap().solo = false;
    assert!(names(&project).is_empty());
    project.track_at_mut(2).unwrap().solo = false;
    assert_eq!(names(&project), vec!["B"]);
}

#[test]
fn tracks_are_found_moved_and_removed() {
    let mut ids = IdAllocator::new();
    let mut project = Project::with_default_track(&mut ids, "Test");
    assert_eq!(project.track_count(), 1);
    assert_eq!(project.track_at(0).unwrap().name, "Track 1");
    let b = project.create_track(&mut ids, "B");
    let c = project.add_track(Track::new(&mut ids, "C", 3));
    let note = project.get_track_mut(c).unwrap().create_note(&mut ids, 60, 100, 0, 960);
    assert_eq!(project.duration_ticks(), 960);
    let (owner, found) = project.find_note(note).unwrap();
    assert_eq!(owner, c);
    assert_eq!(found.pitch, 60);
    assert!(project.move_track(2, 0));
    assert!(!project.move_track(3, 0));
    assert!(!project.move_track(0, 3));
    let order: Vec<String> = project.tracks().iter().map(|t| t.name.clone()).collect();
    assert_eq!(order, vec!["C", "Track 1", "B"]);
    assert_eq!(project.remove_track(b).map(|t| t.name), Some("B".to_string()));
    assert!(project.remove_track(b).is_none());
    assert!(project.get_track(b).is_none());
    assert_eq!(project.track_count(), 2);
    for track in project.tracks_mut() {
        track.muted = true;
    }
    assert!(project.playable_tracks().is_empty());
    let copy = project.clone();
    assert_eq!(copy.track_count(), 2);
    assert_eq!(copy.tracks()[0].notes().len(), 1);
}

#[test]
fn soundfont_path_is_set_and_cleared() {
    let mut project = Project::new("Test");
    assert_eq!(project.get_soundfont_path(), None);
    project.set_soundfont_path(Some("fonts/piano.sf2"));
    assert_eq!(project.get_soundfont_path(), Some("fonts/piano.sf2"));
    project.set_soundfont_path(None);
    assert_eq!(project.get_soundfont_path(), None);
}

#[test]
fn counters_are_moved_beyond_the_identifiers_of_a_project() {
    let mut ids = IdAllocator::starting_at(40, 7);
    let mut project = Project::new("p");
    let first = project.create_track(&mut ids, "a");
    project.create_track(&mut ids, "b");
    project.get_track_mut(first).unwrap().create_note(&mut ids, 60, 100, 0, 10);
    project.get_track_mut(first).unwrap().create_note(&mut ids, 61, 100, 0, 10);

    let moved = project.ids_beyond(IdAllocator::new());
    assert_eq!((moved.next_note, moved.next_track), (42, 9));
    let moved = project.ids_beyond(IdAllocator::starting_at(42, 9));
    assert_eq!((moved.next_note, moved.next_track), (42, 9));
    let moved = project.ids_beyond(IdAllocator::starting_at(100, 8));
    assert_eq!((moved.next_note, moved.next_track), (100, 9));
    let moved = Project::new("q").ids_beyond(IdAllocator::starting_at(3, 4));
    assert_eq!((moved.next_note, moved.next_track), (3, 4));

    let mut top = IdAllocator::starting_at(u64::MAX, u64::MAX);
    let mut full = Project::new("r");
    let id = full.create_track(&mut top, "t");
    full.get_track_mut(id).unwrap().create_note(&mut top, 60, 100, 0, 10);
    let moved = full.ids_beyond(IdAllocator::new());
    assert_eq!((moved.next_note, moved.next_track), (u64::MAX, u64::MAX));
}

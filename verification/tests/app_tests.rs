use miditui::app::dialogs::{ClickTracker, FileBrowserState, SoundfontDialogState};
use miditui::app::editing::trimmed_text;
use miditui::app::playback::note_of_key;
use miditui::app::{App, EditMode, HighlightMode, LayoutRegions, Notice, SaveFormat, ViewMode};
use miditui::audio::engine::{PlaybackState, SynthCommand};
use miditui::midi::edit::{apply_edit, NoteEdit};
use miditui::midi::{IdAllocator, Note, Project};

fn summary(project: &Project) -> Vec<(String, u8, u8, u8, bool, bool, Vec<(u64, u8, u32, u32)>)> {
    project
        .tracks()
        .iter()
        .map(|t| {
            (
                t.name.clone(),
                t.program,
                t.volume,
                t.pan,
                t.muted,
                t.solo,
                t.notes()
                    .iter()
                    .map(|n| (n.id.as_u64(), n.pitch, n.start_tick, n.duration_ticks))
                    .collect(),
            )
        })
        .collect()
}

/// A layout of which only the size of the grid is known.
fn screen(grid_width: u16, visible_pitches: u8) -> LayoutRegions {
    let mut layout = LayoutRegions::new();
    layout.piano_roll_grid.width = grid_width;
    layout.visible_pitches = visible_pitches;
    layout
}

fn count(commands: &[SynthCommand], wanted: SynthCommand) -> usize {
    commands.iter().filter(|c| **c == wanted).count()
}

#[test]
fn a_fresh_editor() {
    let app = App::new();
    assert_eq!(app.project().name, "New Project");
    assert_eq!(app.project().track_count(), 1);
    assert_eq!(app.zoom, 120);
    assert_eq!((app.cursor_tick, app.cursor_pitch, app.scroll_x, app.scroll_y), (0, 60, 0, 48));
    assert_eq!(app.edit_mode, EditMode::Normal);
    assert_eq!(app.view_mode, ViewMode::Combined);
    assert!(app.status_message.is_none());
    assert!(!app.check_autosave());
    assert_eq!(app.selected_track().unwrap().name, "Track 1");
}

#[test]
fn undo_redo_chain_of_four() {
    let mut app = App::new();
    let initial = summary(app.project());
    app.place_note();
    app.add_track();
    app.adjust_track_volume(-30);
    app.cursor_tick = 960;
    app.cursor_pitch = 72;
    app.selected_track_index = 0;
    app.place_note();
    let edited = summary(app.project());
    assert_ne!(initial, edited);
    assert_eq!(app.history.undo_count(), 4);

    for _ in 0..4 {
        let (done, commands) = app.undo();
        assert!(done);
        assert_eq!(commands[0], SynthCommand::AllNotesOff { immediate: true });
    }
    assert_eq!(summary(app.project()), initial);
    assert_eq!(app.history.undo_count(), 0);
    assert_eq!(app.history.redo_count(), 4);
    assert!(!app.undo().0);
    assert!(matches!(app.status_message, Some((Notice::NothingToUndo, _))));

    for _ in 0..4 {
        assert!(app.redo().0);
    }
    assert_eq!(summary(app.project()), edited);
    assert_eq!(app.history.undo_count(), 4);
    assert_eq!(app.history.redo_count(), 0);
    assert!(!app.redo().0);

    app.undo();
    assert_eq!(app.history.redo_count(), 1);
    app.adjust_tempo(5);
    assert_eq!(app.history.redo_count(), 0);
    assert_eq!(app.project().tempo, 125);
}

#[test]
fn undo_drops_a_snapshot_that_cannot_be_restored() {
    let mut app = App::new();
    app.selected_track_index = 7;
    app.save_state("Odd");
    app.selected_track_index = 0;
    app.add_track();
    assert!(app.undo().0);
    let (done, commands) = app.undo();
    assert!(!done);
    assert!(commands.is_empty());
    assert!(matches!(app.status_message, Some((Notice::UndoFailed, _))));
    assert_eq!(app.history.undo_count(), 0);
    assert_eq!(app.history.redo_count(), 0);
}

#[test]
fn undo_restores_the_selection_that_still_exists() {
    let mut app = App::new();
    app.place_note();
    let id = app.project().track_at(0).unwrap().notes()[0].id;
    app.select_note(id, false);
    app.selected_notes.insert(4242);
    app.place_note();
    app.clear_selection();
    assert!(app.undo().0);
    assert_eq!(app.selected_notes.len(), 1);
    assert!(app.selected_notes.contains(&id.as_u64()));
}

#[test]
fn sequencer_at_the_boundary() {
    let mut app = App::new();
    app.project_mut().track_at_mut(0).unwrap().create_note(&mut IdAllocator::starting_at(900, 900), 64, 100, 480, 480);
    app.set_now(1_000);
    let setup = app.toggle_playback();
    assert_eq!(setup.len(), 3);
    assert_eq!(app.transport.playback_state(), PlaybackState::Playing);
    let on = SynthCommand::NoteOn { channel: 0, pitch: 64, velocity: 100 };
    let off = SynthCommand::NoteOff { channel: 0, pitch: 64 };
    let mut sent = Vec::new();
    let mut now = 1_000u64;
    while now < 1_000 + 499_999 {
        app.set_now(now);
        sent.extend(app.update_sequencer());
        now += 16_667;
    }
    app.set_now(1_000 + 499_999);
    sent.extend(app.update_sequencer());
    assert_eq!(count(&sent, on), 0);
    assert_eq!(app.transport.position_ticks(), 479);
    app.set_now(1_000 + 500_000);
    sent.extend(app.update_sequencer());
    assert_eq!(count(&sent, on), 1);
    assert!(app.active_tracks.contains(&0));
    while now < 1_000 + 999_999 {
        app.set_now(now);
        sent.extend(app.update_sequencer());
        now += 16_667;
    }
    assert_eq!(count(&sent, off), 0);
    app.set_now(1_000 + 1_000_000);
    sent.extend(app.update_sequencer());
    assert_eq!(count(&sent, on), 1);
    assert_eq!(count(&sent, off), 1);
    assert!(app.active_tracks.is_empty());
    assert_eq!(app.cursor_tick, 960);
}

#[test]
fn a_note_at_tick_zero_sounds_on_the_first_update() {
    let mut app = App::new();
    app.place_note();
    app.toggle_playback();
    let sent = app.update_sequencer();
    assert_eq!(sent, vec![SynthCommand::NoteOn { channel: 0, pitch: 60, velocity: 100 }]);
    assert!(app.update_sequencer().is_empty());
}

#[test]
fn seek_clears_hung_notes() {
    let mut app = App::new();
    app.project_mut().track_at_mut(0).unwrap().create_note(&mut IdAllocator::starting_at(900, 900), 50, 100, 0, 960);
    app.project_mut().track_at_mut(0).unwrap().create_note(&mut IdAllocator::starting_at(901, 900), 51, 100, 4000, 960);
    app.toggle_playback();
    app.set_now(250_000);
    let sent = app.update_sequencer();
    assert_eq!(sent, vec![SynthCommand::NoteOn { channel: 0, pitch: 50, velocity: 100 }]);
    assert_eq!(app.transport.position_ticks(), 240);
    let commands = app.seek_to_tick(2000);
    assert_eq!(commands, vec![SynthCommand::AllNotesOff { immediate: true }]);
    assert_eq!(app.cursor_tick, 2000);
    assert_eq!(app.last_sequencer_tick, Some(2000));
    assert!(matches!(app.status_message, Some((Notice::SeekTo { measure: 2, beat: 1, tick: 80 }, _))));
    let mut later = Vec::new();
    for step in 1..200u64 {
        app.set_now(250_000 + step * 10_000);
        later.extend(app.update_sequencer());
    }
    assert_eq!(count(&later, SynthCommand::NoteOff { channel: 0, pitch: 50 }), 0);
    assert_eq!(count(&later, SynthCommand::NoteOn { channel: 0, pitch: 50, velocity: 100 }), 0);
    assert_eq!(app.transport.position_ticks(), 2000 + 1910);
}

#[test]
fn seek_while_stopped_moves_the_position_only() {
    let mut app = App::new();
    assert!(app.seek_to_tick(9600).is_empty());
    assert_eq!(app.transport.position_ticks(), 9600);
    assert_eq!(app.scroll_x, 9600 - 60 * 120 / 2);
    app.toggle_playback();
    assert_eq!(app.last_sequencer_tick, Some(9600));
    assert_eq!(app.playback_start_tick, 9600);
}

#[test]
fn playback_stops_two_beats_behind_the_end() {
    let mut app = App::new();
    app.place_note();
    app.toggle_playback();
    app.set_now(1_500_000);
    let sent = app.update_sequencer();
    assert_eq!(app.transport.playback_state(), PlaybackState::Playing);
    assert_eq!(sent.len(), 2);
    app.set_now(1_500_000 + 10_000);
    let sent = app.update_sequencer();
    assert_eq!(sent, vec![SynthCommand::AllNotesOff { immediate: true }]);
    assert_eq!(app.transport.playback_state(), PlaybackState::Stopped);
    assert_eq!((app.cursor_tick, app.scroll_x, app.transport.position_ticks()), (0, 0, 0));
    assert!(app.update_sequencer().is_empty());
}

#[test]
fn pause_resume_stop_restart() {
    let mut app = App::new();
    app.toggle_playback();
    app.set_now(100_000);
    app.update_sequencer();
    let paused = app.toggle_playback();
    assert_eq!(paused, vec![SynthCommand::AllNotesOff { immediate: false }]);
    assert_eq!(app.transport.playback_state(), PlaybackState::Paused);
    assert_eq!(app.transport.position_ticks(), 96);
    app.set_now(5_000_000);
    app.toggle_playback();
    assert_eq!(app.last_sequencer_tick, Some(96));
    app.set_now(5_100_000);
    app.update_sequencer();
    assert_eq!(app.transport.position_ticks(), 192);
    let restarted = app.restart_playback();
    assert_eq!(restarted[0], SynthCommand::AllNotesOff { immediate: true });
    assert_eq!(restarted.len(), 4);
    assert_eq!(app.last_sequencer_tick, None);
    assert_eq!(app.transport.playback_state(), PlaybackState::Playing);
    let stopped = app.stop_playback();
    assert_eq!(stopped, vec![SynthCommand::AllNotesOff { immediate: true }]);
    assert_eq!(app.transport.playback_state(), PlaybackState::Stopped);
}

#[test]
fn the_view_follows_playback() {
    let mut app = App::new();
    app.update_layout(screen(100, 24));
    app.project_mut().track_at_mut(0).unwrap().create_note(&mut IdAllocator::starting_at(9, 9), 50, 100, 0, 96_000);
    app.toggle_playback();
    app.set_now(9_375_000);
    app.update_sequencer();
    assert_eq!(app.cursor_tick, 9000);
    assert_eq!(app.scroll_x, 0);
    app.set_now(9_376_100);
    app.update_sequencer();
    assert_eq!(app.cursor_tick, 9001);
    assert_eq!(app.scroll_x, 9001 - 3000);
}

#[test]
fn notes_are_placed_found_and_deleted() {
    let mut app = App::new();
    app.cursor_tick = 480;
    app.cursor_pitch = 64;
    let heard = app.place_note();
    assert_eq!(heard, vec![SynthCommand::NoteOn { channel: 0, pitch: 64, velocity: 100 }]);
    let id = app.note_at(64, 900).unwrap();
    assert!(app.note_at(64, 960).is_none());
    assert!(app.note_at(65, 900).is_none());
    assert!(app.is_recently_added_note(id, 480));
    assert!(app.is_recently_added_pitch(64));
    assert!(app.last_modified.is_some());
    app.select_note(id, true);
    app.cursor_tick = 700;
    app.delete_note_at_cursor();
    assert_eq!(app.project().track_at(0).unwrap().note_count(), 0);
    assert!(app.selected_notes.is_empty());
    let before = app.history.undo_count();
    app.delete_note_at_cursor();
    assert_eq!(app.history.undo_count(), before);
}

#[test]
fn selected_notes_are_edited_together() {
    let mut app = App::new();
    let mut ids = IdAllocator::starting_at(100, 100);
    let track = app.project_mut().track_at_mut(0).unwrap();
    let a = track.create_note(&mut ids, 60, 100, 0, 100);
    let b = track.create_note(&mut ids, 126, 100, 50, 100);
    let c = track.create_note(&mut ids, 70, 100, 100, 100);
    app.transpose_selected_notes(5);
    assert_eq!(app.history.undo_count(), 0);
    app.select_note(a, false);
    app.select_note(b, true);
    app.select_note(c, true);
    app.select_note(c, true);
    app.transpose_selected_notes(5);
    app.adjust_selected_notes_duration(-500);
    app.move_selected_notes_horizontal(70);
    let notes: Vec<(u64, u8, u32, u32)> = summary(app.project())[0].6.clone();
    assert_eq!(
        notes,
        vec![(100, 65, 70, 1), (102, 70, 100, 100), (101, 127, 120, 1)]
    );
    assert_eq!(app.history.undo_count(), 3);
    app.edit_selected_notes_no_undo(NoteEdit::Shift(-1000));
    assert_eq!(app.history.undo_count(), 3);
    let starts: Vec<u32> = summary(app.project())[0].6.iter().map(|n| n.2).collect();
    assert_eq!(starts, vec![0, 0, 100]);
    app.delete_selected_notes();
    assert_eq!(summary(app.project())[0].6, vec![(102, 70, 100, 100)]);
    assert!(app.selected_notes.is_empty());
}

#[test]
fn edits_of_a_single_note() {
    let mut ids = IdAllocator::new();
    let note = Note::new(&mut ids, 60, 100, 10, 20);
    assert_eq!(apply_edit(note, NoteEdit::Transpose(-70)).pitch, 0);
    assert_eq!(apply_edit(note, NoteEdit::Transpose(70)).pitch, 127);
    assert_eq!(apply_edit(note, NoteEdit::Lengthen(i32::MIN)).duration_ticks, 1);
    assert_eq!(apply_edit(note, NoteEdit::Lengthen(5)).duration_ticks, 25);
    assert_eq!(apply_edit(note, NoteEdit::Shift(-11)).start_tick, 0);
    assert_eq!(apply_edit(note, NoteEdit::Shift(11)).start_tick, 21);
}

#[test]
fn tracks_are_added_deleted_and_renamed() {
    let mut app = App::new();
    app.delete_selected_track();
    assert!(matches!(app.status_message, Some((Notice::CannotDeleteLastTrack, _))));
    assert_eq!(app.project().track_count(), 1);
    app.add_track();
    app.add_track();
    assert_eq!(app.selected_track_index, 2);
    assert_eq!(app.selected_track().unwrap().name, "Track 3");
    assert_eq!(app.selected_track().unwrap().channel, 1);
    app.delete_selected_track();
    assert_eq!(app.selected_track_index, 1);
    assert!(matches!(&app.status_message, Some((Notice::DeletedTrack { name }, _)) if name == "Track 3"));

    app.start_rename_track();
    assert_eq!(app.rename_buffer, "Track 2");
    for _ in 0..7 {
        app.rename_track_backspace();
    }
    app.rename_track_backspace();
    for c in "  Bass\u{a0} ".chars() {
        app.rename_track_input(c);
    }
    app.confirm_rename_track();
    assert_eq!(app.selected_track().unwrap().name, "Bass");
    assert!(!app.renaming_track);
    assert_eq!(app.rename_buffer, "");

    app.start_rename_track();
    for _ in 0..10 {
        app.rename_track_backspace();
    }
    app.rename_track_input(' ');
    let undo = app.history.undo_count();
    app.confirm_rename_track();
    assert!(matches!(app.status_message, Some((Notice::RenameEmpty, _))));
    assert_eq!(app.selected_track().unwrap().name, "Bass");
    assert_eq!(app.history.undo_count(), undo);

    app.start_rename_track();
    for _ in 0..40 {
        app.rename_track_input('x');
    }
    assert_eq!(app.rename_buffer.len(), 32);
    app.cancel_rename_track();
    assert_eq!(app.selected_track().unwrap().name, "Bass");
    app.rename_track_input('y');
    assert_eq!(app.rename_buffer, "");
}

#[test]
fn mixer_changes_are_clamped_and_sent() {
    let mut app = App::new();
    assert_eq!(
        app.adjust_track_volume(100),
        vec![SynthCommand::SetVolume { channel: 0, volume: 127 }]
    );
    assert_eq!(
        app.adjust_track_volume(-1000),
        vec![SynthCommand::SetVolume { channel: 0, volume: 0 }]
    );
    assert_eq!(app.adjust_track_pan(-4), vec![SynthCommand::SetPan { channel: 0, pan: 60 }]);
    assert_eq!(app.adjust_track_pan(i16::MAX), vec![SynthCommand::SetPan { channel: 0, pan: 127 }]);
    assert_eq!(app.toggle_mute(), vec![SynthCommand::AllNotesOff { immediate: true }]);
    assert!(app.selected_track().unwrap().muted);
    assert_eq!(app.toggle_solo(), vec![SynthCommand::AllNotesOff { immediate: true }]);
    assert!(app.selected_track().unwrap().solo);
    app.toggle_mute();
    assert!(!app.selected_track().unwrap().muted);
    app.held_notes.insert(61);
    app.held_notes.insert(3);
    assert_eq!(
        app.cycle_instrument(-1),
        vec![
            SynthCommand::NoteOff { channel: 0, pitch: 3 },
            SynthCommand::NoteOff { channel: 0, pitch: 61 },
            SynthCommand::AllNotesOff { immediate: true },
            SynthCommand::SetProgram { channel: 0, program: 127 },
        ]
    );
    assert!(app.held_notes.is_empty());
    assert_eq!(
        app.cycle_instrument(2).last(),
        Some(&SynthCommand::SetProgram { channel: 0, program: 1 })
    );
    app.selected_track_index = 9;
    assert!(app.adjust_track_volume(1).is_empty());
    assert!(app.toggle_mute().is_empty());
    assert_eq!(app.cycle_instrument(1), vec![SynthCommand::AllNotesOff { immediate: true }]);
}

#[test]
fn tempo_and_time_signature_are_clamped() {
    let mut app = App::new();
    app.adjust_tempo(-500);
    assert_eq!(app.project().tempo, 20);
    assert_eq!(app.transport.tempo(), 20);
    app.adjust_tempo(i32::MAX);
    assert_eq!(app.project().tempo, 300);
    app.adjust_tempo(-7);
    assert_eq!(app.project().tempo, 293);
    app.adjust_time_sig_numerator(100);
    assert_eq!(app.project().time_sig_numerator, 16);
    app.adjust_time_sig_numerator(-100);
    assert_eq!(app.project().time_sig_numerator, 1);
    let mut seen = Vec::new();
    for _ in 0..5 {
        app.cycle_time_sig_denominator();
        seen.push(app.project().time_sig_denominator);
    }
    assert_eq!(seen, vec![8, 16, 2, 4, 8]);
}

#[test]
fn keys_of_the_keyboard() {
    assert_eq!(note_of_key('z', 0), Some(48));
    assert_eq!(note_of_key('Q', 0), Some(60));
    assert_eq!(note_of_key('i', 0), Some(72));
    assert_eq!(note_of_key('2', 1), Some(73));
    assert_eq!(note_of_key('z', -4), Some(0));
    assert_eq!(note_of_key('z', -5), None);
    assert_eq!(note_of_key('i', 5), None);
    assert_eq!(note_of_key('p', 0), None);
    let mut app = App::new();
    let (played, commands) = app.handle_note_key('q');
    assert!(played);
    assert_eq!(commands, vec![SynthCommand::NoteOn { channel: 0, pitch: 60, velocity: 100 }]);
    let (played, commands) = app.handle_note_key('q');
    assert!(!played && commands.is_empty());
    assert_eq!(
        app.handle_note_key_release('Q'),
        vec![SynthCommand::NoteOff { channel: 0, pitch: 60 }]
    );
    assert!(app.handle_note_key_release('q').is_empty());
    assert!(!app.handle_note_key('!').0);
    app.handle_note_key('w');
    app.handle_note_key('e');
    assert_eq!(
        app.release_all_notes(),
        vec![
            SynthCommand::NoteOff { channel: 0, pitch: 62 },
            SynthCommand::NoteOff { channel: 0, pitch: 64 },
        ]
    );
    assert_eq!(app.project().track_at(0).unwrap().note_count(), 0);
    app.change_octave(3);
    app.change_octave(3);
    assert_eq!(app.octave_offset, 3);
    app.change_octave(-7);
    assert_eq!(app.octave_offset, -4);
}

#[test]
fn insert_mode_records_in_real_time() {
    let mut app = App::new();
    app.edit_mode = EditMode::Insert;
    app.cursor_tick = 960;
    app.set_now(10_000_000);
    let (played, commands) = app.handle_note_key('q');
    assert!(played);
    assert_eq!(commands.len(), 1);
    assert!(app.insert_recording_active);
    assert_eq!(app.get_insert_indicator_tick(), Some(960));
    let (_, commands) = app.handle_note_key('e');
    assert_eq!(commands.len(), 1);
    app.set_now(10_500_000);
    assert_eq!(app.get_insert_recording_tick(), 960 + 480);
    let (_, commands) = app.handle_note_key('q');
    assert_eq!(
        commands,
        vec![
            SynthCommand::NoteOff { channel: 0, pitch: 60 },
            SynthCommand::NoteOn { channel: 0, pitch: 60, velocity: 100 },
        ]
    );
    let notes: Vec<(u8, u32, u32)> =
        summary(app.project())[0].6.iter().map(|n| (n.1, n.2, n.3)).collect();
    assert_eq!(notes, vec![(60, 960, 480), (64, 960, 480), (60, 1440, 480)]);
    assert_eq!(app.cursor_tick, 1440);
    assert_eq!(app.history.undo_count(), 3);
    // Two measures of four beats at 120 beats a minute are four seconds.
    app.set_now(10_500_000 + 4_000_000);
    app.update_insert_recording();
    assert!(app.insert_recording_active);
    app.set_now(10_500_000 + 4_000_001);
    app.update_insert_recording();
    assert!(!app.insert_recording_active);
    assert!(matches!(app.status_message, Some((Notice::RecordingStopped, _))));
    assert_eq!(app.cursor_tick, 960 + 4320);
    assert_eq!(app.get_insert_indicator_tick(), None);
    app.handle_note_key('w');
    app.set_now(20_000_000);
    app.stop_insert_recording();
    assert!(!app.insert_recording_active);
    assert_eq!(app.get_insert_recording_tick(), app.cursor_tick);
}

#[test]
fn cursor_zoom_and_view() {
    let mut app = App::new();
    app.update_layout(screen(80, 24));
    app.move_cursor_horizontal(-5);
    assert_eq!(app.cursor_tick, 0);
    app.move_cursor_horizontal(9601);
    assert_eq!((app.cursor_tick, app.scroll_x), (9601, 1));
    app.move_cursor_horizontal(-9000);
    assert_eq!((app.cursor_tick, app.scroll_x), (601, 1));
    app.move_cursor_horizontal(-601);
    assert_eq!((app.cursor_tick, app.scroll_x), (0, 0));
    app.move_cursor_vertical(-13);
    assert_eq!((app.cursor_pitch, app.scroll_y), (47, 47));
    app.move_cursor_vertical(30);
    assert_eq!((app.cursor_pitch, app.scroll_y), (77, 53));
    app.move_cursor_vertical(100);
    assert_eq!(app.cursor_pitch, 77);
    app.zoom_in();
    assert_eq!(app.zoom, 96);
    app.zoom_out();
    assert_eq!(app.zoom, 120);
    app.zoom_by(1, 100);
    assert_eq!(app.zoom, 30);
    app.zoom_by(1000, 1);
    assert_eq!(app.zoom, 1920);
    app.scroll_to_note(1_000_000, 5);
    assert_eq!((app.cursor_tick, app.cursor_pitch), (1_000_000, 5));
    assert_eq!(app.scroll_x, 1_000_000 - 1920 * 70 / 2);
    assert_eq!(app.scroll_y, 0);
    app.toggle_view_mode();
    assert_eq!(app.view_mode, ViewMode::PianoRoll);
    app.toggle_view_mode();
    app.toggle_view_mode();
    assert_eq!(app.view_mode, ViewMode::Combined);
    assert!(app.highlight_piano_roll() && !app.highlight_timeline());
    app.cycle_highlight_mode();
    assert!(app.highlight_piano_roll() && app.highlight_timeline());
    app.cycle_highlight_mode();
    assert_eq!(app.highlight_mode, HighlightMode::Off);
    app.cycle_highlight_mode();
    assert!(!app.highlight_piano_roll() && app.highlight_timeline());
    app.toggle_expanded_tracks();
    assert!(!app.expanded_tracks);
    assert_eq!(app.display_position_ticks(), 12);
    assert_eq!(app.cursor_position(), (521, 4, 160));
}

#[test]
fn autosave_waits_five_seconds_after_a_change() {
    let mut app = App::new();
    app.set_now(1_000_000);
    app.place_note();
    app.set_now(5_999_999);
    assert!(!app.check_autosave());
    app.set_now(6_000_000);
    assert!(app.check_autosave());
    app.prepare_autosave("piano.sf2");
    assert_eq!(app.project().get_soundfont_path(), Some("piano.sf2"));
    app.autosave_done();
    assert!(!app.check_autosave());
    app.set_now(60_000_000);
    assert!(!app.check_autosave());
    app.mark_modified();
    app.set_now(65_000_000);
    assert!(app.check_autosave());
    app.set_now(1);
    assert_eq!(app.now_micros, 65_000_000);
}

#[test]
fn notices_expire() {
    let mut app = App::new();
    app.set_now(10);
    app.set_status(Notice::Paused);
    app.set_now(3_000_010);
    app.clear_expired_status();
    assert!(app.status_message.is_some());
    app.set_now(3_000_011);
    app.clear_expired_status();
    assert!(app.status_message.is_none());
}

#[test]
fn a_loaded_project_takes_over() {
    let mut app = App::new();
    app.place_note();
    app.toggle_playback();
    let mut ids = IdAllocator::new();
    let mut project = Project::new("Loaded");
    project.create_track(&mut ids, "A");
    project.create_track(&mut ids, "B");
    let commands = app.load_project(project);
    assert_eq!(commands.len(), 7);
    assert_eq!(app.project().name, "Loaded");
    assert_eq!(app.transport.playback_state(), PlaybackState::Stopped);
    assert_eq!(app.history.undo_count(), 0);
    assert!(matches!(app.status_message, Some((Notice::ProjectLoaded, _))));
    app.octave_offset = 2;
    app.edit_mode = EditMode::Select;
    let commands = app.reset_to_new_project();
    assert_eq!(commands.len(), 4);
    assert_eq!(app.project().name, "New Project");
    assert_eq!(app.project().track_count(), 1);
    assert_eq!(app.octave_offset, 2);
    assert_eq!(app.edit_mode, EditMode::Select);
    assert!(app.last_modified.is_none());
}

#[test]
fn dialogs() {
    let mut app = App::new();
    app.save_dialog.input('x');
    assert_eq!(app.save_dialog.filename, "");
    app.save_dialog.open_with("song");
    app.save_dialog.input('!');
    app.save_dialog.input('\n');
    app.save_dialog.input('\u{9f}');
    assert_eq!(app.save_dialog.filename, "song!");
    app.save_dialog.backspace();
    assert_eq!(app.save_dialog.filename, "song");
    assert_eq!(app.save_dialog.format, SaveFormat::Json);
    assert_eq!(app.save_dialog.format.extension(), "json");
    app.save_dialog.toggle_format();
    assert_eq!(app.save_dialog.format.extension(), "oxm");
    app.save_dialog.toggle_format();
    assert_eq!(app.save_dialog.format.extension(), "mid");
    app.save_dialog.toggle_format();
    assert_eq!(app.save_dialog.format, SaveFormat::Json);
    assert!(app.save_dialog.can_confirm());
    for _ in 0..9 {
        app.save_dialog.backspace();
    }
    assert!(!app.save_dialog.can_confirm());
    app.save_dialog.close();
    assert!(!app.save_dialog.open);

    app.new_project_dialog.left();
    assert_eq!(app.new_project_dialog.selected, 0);
    app.new_project_dialog.open();
    assert_eq!(app.new_project_dialog.selected, 1);
    assert!(!app.new_project_dialog.confirm());
    app.new_project_dialog.open();
    app.new_project_dialog.left();
    app.new_project_dialog.right();
    app.new_project_dialog.left();
    assert!(app.new_project_dialog.confirm());
    assert!(!app.new_project_dialog.open);
    app.new_project_dialog.cancel();
}

#[test]
fn browsers_scroll_with_the_selection() {
    let mut browser = FileBrowserState::new();
    browser.move_down();
    assert_eq!(browser.selected, 0);
    browser.show("/music".to_string(), (0..25).map(|i| format!("f{}", i)).collect());
    for _ in 0..9 {
        browser.move_down();
    }
    assert_eq!((browser.selected, browser.scroll), (9, 0));
    browser.move_down();
    assert_eq!((browser.selected, browser.scroll), (10, 1));
    for _ in 0..30 {
        browser.move_down();
    }
    assert_eq!((browser.selected, browser.scroll), (24, 15));
    assert_eq!(browser.selected_entry().map(|s| s.as_str()), Some("f24"));
    for _ in 0..10 {
        browser.move_up();
    }
    assert_eq!((browser.selected, browser.scroll), (14, 14));
    browser.cancel();
    assert!(browser.selected_entry().is_none());

    let mut fonts = SoundfontDialogState::new();
    fonts.is_first_load = true;
    fonts.show(".".to_string(), vec!["a.sf2".to_string(), "b.sf2".to_string()]);
    fonts.move_down();
    fonts.move_down();
    assert_eq!(fonts.selected_entry().map(|s| s.as_str()), Some("b.sf2"));
    assert!(!fonts.cancel());
    assert!(fonts.open);
    fonts.is_first_load = false;
    assert!(fonts.cancel());
    assert!(!fonts.open);
}

#[test]
fn double_clicks() {
    let mut clicks = ClickTracker::new();
    assert!(!clicks.record_click(3, 4, 1000));
    assert!(clicks.record_click(3, 4, 1399));
    assert!(!clicks.record_click(3, 4, 1400));
    assert!(!clicks.record_click(3, 5, 1500));
    assert!(!clicks.record_click(3, 5, 1900));
    assert!(clicks.record_click(3, 5, 1900));
}

#[test]
fn trimming() {
    assert_eq!(trimmed_text("  a b \t\n"), "a b");
    assert_eq!(trimmed_text("\u{3000}x\u{2003}"), "x");
    assert_eq!(trimmed_text("   "), "");
    assert_eq!(trimmed_text(""), "");
    assert_eq!(trimmed_text("\u{200b}"), "\u{200b}");
}

#[test]
fn clearing_the_history_leaves_the_project() {
    let mut app = App::new();
    app.place_note();
    app.add_track();
    app.undo();
    assert_eq!(app.history.undo_count(), 1);
    assert_eq!(app.history.redo_count(), 1);
    let before = summary(app.project());
    app.clear_history();
    assert_eq!(app.history.undo_count(), 0);
    assert_eq!(app.history.redo_count(), 0);
    assert!(!app.history.can_undo());
    assert!(!app.history.can_redo());
    assert_eq!(summary(app.project()), before);
    assert!(!app.undo().0);
}

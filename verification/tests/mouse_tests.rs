use miditui::app::layout::{LayoutRegions, Region};
use miditui::app::view::{format_pan, pan_notice, volume_level, OffScreenIndicators, VolumeLevel};
use miditui::midi::{IdAllocator, Note};
use miditui::app::{App, DragState, EditMode, FocusedPanel, Notice, ViewMode};
use miditui::audio::engine::{PlaybackState, SynthCommand};

fn region(x: u16, y: u16, width: u16, height: u16) -> Region {
    Region { x, y, width, height }
}

/// A screen of 100 columns and 40 rows in the combined view, with the
/// ruler of the piano roll drawn.
fn screen() -> LayoutRegions {
    let mut layout = LayoutRegions::arrange(
        region(0, 0, 100, 3),
        region(0, 3, 30, 32),
        region(30, 3, 70, 32),
        region(0, 35, 100, 5),
        ViewMode::Combined,
    );
    layout.piano_roll_ruler = region(36, 4, 63, 1);
    layout
}

fn editor() -> App {
    let mut app = App::new();
    app.update_layout(screen());
    app.set_now(1_000);
    app
}

fn notes(app: &App, track: usize) -> Vec<(u8, u32, u32)> {
    app.project()
        .track_at(track)
        .unwrap()
        .notes()
        .iter()
        .map(|n| (n.pitch, n.start_tick, n.duration_ticks))
        .collect()
}

#[test]
fn the_grid_lies_within_the_piano_roll() {
    let layout = screen();
    assert_eq!(layout.piano_roll_grid, region(36, 4, 63, 15));
    assert_eq!(layout.visible_pitches, 14);
    assert_eq!(layout.project_timeline_ruler, Region::empty());

    let alone = LayoutRegions::arrange(
        region(0, 0, 100, 3),
        region(0, 3, 30, 32),
        region(30, 3, 70, 32),
        region(0, 35, 100, 5),
        ViewMode::PianoRoll,
    );
    assert_eq!(alone.piano_roll_grid, region(36, 4, 63, 30));
    assert_eq!(alone.visible_pitches, 29);

    let timeline = LayoutRegions::arrange(
        region(0, 0, 100, 3),
        region(0, 3, 30, 32),
        region(30, 3, 70, 32),
        region(0, 35, 100, 5),
        ViewMode::ProjectTimeline,
    );
    assert_eq!(timeline.piano_roll_grid, region(43, 4, 56, 30));

    let tiny = LayoutRegions::arrange(
        Region::empty(),
        Region::empty(),
        region(65_535, 65_535, 3, 2),
        Region::empty(),
        ViewMode::PianoRoll,
    );
    assert_eq!(tiny.piano_roll_grid, region(65_535, 65_535, 0, 0));
    assert_eq!(tiny.visible_pitches, 0);

    let tall = LayoutRegions::arrange(
        Region::empty(),
        Region::empty(),
        region(0, 0, 10, 400),
        Region::empty(),
        ViewMode::PianoRoll,
    );
    assert_eq!(tall.visible_pitches, 127);
}

#[test]
fn panels_and_rulers_under_a_point() {
    let layout = screen();
    assert_eq!(layout.panel_at(0, 0), Some(FocusedPanel::Timeline));
    assert_eq!(layout.panel_at(99, 2), Some(FocusedPanel::Timeline));
    assert_eq!(layout.panel_at(29, 3), Some(FocusedPanel::TrackList));
    assert_eq!(layout.panel_at(30, 3), Some(FocusedPanel::PianoRoll));
    assert_eq!(layout.panel_at(99, 34), Some(FocusedPanel::PianoRoll));
    assert_eq!(layout.panel_at(0, 35), Some(FocusedPanel::Keyboard));
    assert_eq!(layout.panel_at(100, 0), None);
    assert_eq!(layout.panel_at(0, 40), None);
    assert!(layout.is_in_piano_roll_grid(36, 4));
    assert!(layout.is_in_piano_roll_grid(98, 18));
    assert!(!layout.is_in_piano_roll_grid(99, 18));
    assert!(!layout.is_in_piano_roll_grid(98, 19));
    assert!(!layout.is_in_piano_roll_grid(35, 4));
    assert_eq!(layout.ruler_hit_test(36, 4), Some((0, 63)));
    assert_eq!(layout.ruler_hit_test(50, 4), Some((14, 63)));
    assert_eq!(layout.ruler_hit_test(50, 5), None);
    assert!(layout.is_on_piano_keys(31));
    assert!(layout.is_on_piano_keys(35));
    assert!(!layout.is_on_piano_keys(30));
    assert!(!layout.is_on_piano_keys(36));
    assert!(region(65_000, 65_000, 600, 600).contains(65_535, 65_535));
    assert!(!region(5, 5, 0, 0).contains(5, 5));

    let mut two = screen();
    two.project_timeline_ruler = region(43, 20, 56, 1);
    assert_eq!(two.ruler_hit_test(50, 20), Some((7, 56)));
}

#[test]
fn tick_and_pitch_under_the_mouse() {
    let mut app = editor();
    assert_eq!(app.grid_position(36, 5), (0, 61));
    assert_eq!(app.grid_position(40, 6), (480, 60));
    assert_eq!(app.grid_position(40, 4), (480, 61));
    assert_eq!(app.grid_position(98, 18), (62 * 120, 48));
    assert_eq!(app.grid_position(0, 0), (0, 61));
    app.scroll_x = u32::MAX - 100;
    assert_eq!(app.grid_position(40, 6).0, u32::MAX);
    app.scroll_y = 120;
    assert_eq!(app.grid_position(40, 5).1, 127);
    app.scroll_y = 0;
    assert_eq!(app.grid_position(40, 30).1, 0);
}

#[test]
fn a_click_off_the_panels_does_nothing() {
    let mut app = editor();
    let (handled, commands) = app.handle_mouse_click(100, 40, false);
    assert!(!handled);
    assert!(commands.is_empty());
    assert_eq!(app.focused_panel, FocusedPanel::PianoRoll);
    assert!(app.status_message.is_none());
}

#[test]
fn clicks_in_the_transport_bar() {
    let mut app = editor();
    let (handled, commands) = app.handle_mouse_click(15, 1, false);
    assert!(handled);
    assert_eq!(app.focused_panel, FocusedPanel::Timeline);
    assert_eq!(app.transport.playback_state(), PlaybackState::Playing);
    assert_eq!(
        commands,
        vec![
            SynthCommand::SetProgram { channel: 0, program: 0 },
            SynthCommand::SetVolume { channel: 0, volume: 100 },
            SynthCommand::SetPan { channel: 0, pan: 64 },
        ]
    );
    let (_, commands) = app.handle_mouse_click(0, 1, false);
    assert_eq!(app.transport.playback_state(), PlaybackState::Paused);
    assert_eq!(commands, vec![SynthCommand::AllNotesOff { immediate: false }]);

    let (_, commands) = app.handle_mouse_click(16, 1, false);
    assert_eq!(app.transport.playback_state(), PlaybackState::Stopped);
    assert_eq!(commands, vec![SynthCommand::AllNotesOff { immediate: true }]);
    let (_, commands) = app.handle_mouse_click(35, 1, false);
    assert_eq!(commands, vec![SynthCommand::AllNotesOff { immediate: true }]);

    app.status_message = None;
    let (handled, commands) = app.handle_mouse_click(36, 1, false);
    assert!(handled);
    assert!(commands.is_empty());
    assert!(app.status_message.is_none());
}

#[test]
fn clicks_on_the_keyboard_move_the_octave() {
    let mut app = editor();
    let (handled, commands) = app.handle_mouse_click(49, 36, false);
    assert!(handled && commands.is_empty());
    assert_eq!(app.octave_offset, -1);
    assert_eq!(app.focused_panel, FocusedPanel::Keyboard);
    app.handle_mouse_click(50, 36, false);
    app.handle_mouse_click(99, 39, false);
    assert_eq!(app.octave_offset, 1);
    assert!(matches!(app.status_message, Some((Notice::Octave { offset: 1 }, 1_000))));
}

#[test]
fn clicks_in_the_track_list() {
    let mut app = editor();
    app.add_track();
    assert_eq!(app.selected_track_index, 1);
    let undone = app.history.undo_count();

    // The name of the first track.
    let (handled, commands) = app.handle_mouse_click(5, 4, false);
    assert!(handled && commands.is_empty());
    assert_eq!(app.selected_track_index, 0);
    assert_eq!(app.focused_panel, FocusedPanel::TrackList);
    assert!(matches!(&app.status_message, Some((Notice::SelectedTrack { name }, 1_000)) if name == "Track 1"));
    assert_eq!(app.history.undo_count(), undone);

    // Mute and solo of the second track, which is not selected.
    let (_, commands) = app.handle_mouse_click(1, 6, false);
    assert_eq!(commands, vec![SynthCommand::AllNotesOff { immediate: true }]);
    assert!(app.project().track_at(1).unwrap().muted);
    assert!(!app.project().track_at(0).unwrap().muted);
    assert_eq!(app.selected_track_index, 0);
    assert_eq!(app.history.undo_count(), undone + 1);
    assert!(matches!(&app.status_message, Some((Notice::Muted { name, muted: true }, _)) if name == "Track 2"));
    app.handle_mouse_click(0, 6, false);
    assert!(!app.project().track_at(1).unwrap().muted);
    let (_, commands) = app.handle_mouse_click(2, 6, false);
    assert_eq!(commands, vec![SynthCommand::AllNotesOff { immediate: true }]);
    assert!(app.project().track_at(1).unwrap().solo);
    assert_eq!(app.last_modified, Some(1_000));

    // The second row of a track selects it, whatever the column.
    app.handle_mouse_click(1, 7, false);
    assert_eq!(app.selected_track_index, 1);
    assert!(!app.project().track_at(1).unwrap().muted);

    // Behind the last track, on the border and on the hints.
    for (x, y) in [(5, 8), (5, 3), (5, 34), (5, 32), (5, 33)] {
        app.status_message = None;
        let (handled, commands) = app.handle_mouse_click(x, y, false);
        assert!(handled && commands.is_empty());
        assert!(app.status_message.is_none());
        assert_eq!(app.selected_track_index, 1);
    }
}

#[test]
fn a_compact_track_list_scrolls_with_the_selection() {
    let mut app = editor();
    let mut layout = screen();
    layout.track_list = region(0, 3, 30, 8);
    app.update_layout(layout);
    app.toggle_expanded_tracks();
    for _ in 0..6 {
        app.add_track();
    }
    // Four rows of tracks; with the seventh track selected the list
    // begins at the fourth.
    assert_eq!(app.selected_track_index, 6);
    app.handle_mouse_click(5, 4, false);
    assert_eq!(app.selected_track_index, 3);
    // Now the list begins at the first.
    app.handle_mouse_click(5, 7, false);
    assert_eq!(app.selected_track_index, 3);
    app.handle_mouse_click(5, 5, false);
    assert_eq!(app.selected_track_index, 1);
    app.handle_mouse_click(2, 5, false);
    assert!(app.project().track_at(1).unwrap().solo);
    app.handle_mouse_click(1, 4, false);
    assert!(app.project().track_at(0).unwrap().muted);
}

#[test]
fn clicks_on_the_grid_select_and_place() {
    let mut app = editor();
    app.selected_notes.insert(77);
    let (handled, commands) = app.handle_mouse_click(40, 6, true);
    assert!(handled && commands.is_empty());
    assert_eq!((app.cursor_tick, app.cursor_pitch), (480, 60));
    assert_eq!(app.selected_notes.len(), 1);
    app.handle_mouse_click(40, 6, false);
    assert!(app.selected_notes.is_empty());
    assert!(notes(&app, 0).is_empty());

    app.edit_mode = EditMode::Insert;
    let (_, commands) = app.handle_mouse_click(40, 6, false);
    assert_eq!(commands, vec![SynthCommand::NoteOn { channel: 0, pitch: 60, velocity: 100 }]);
    assert_eq!(notes(&app, 0), vec![(60, 480, 480)]);
    assert!(matches!(app.status_message, Some((Notice::AddedNote { pitch: 60, beat: 1 }, _))));
    let id = app.project().track_at(0).unwrap().notes()[0].id.as_u64();

    // On the note, in any mode, a click selects.
    let (_, commands) = app.handle_mouse_click(43, 6, false);
    assert!(commands.is_empty());
    assert_eq!((app.cursor_tick, app.cursor_pitch), (840, 60));
    assert!(app.selected_notes.contains(&id) && app.selected_notes.len() == 1);
    assert!(matches!(app.status_message, Some((Notice::SelectedNote { pitch: 60, beat: 1 }, 1_000))));
    assert_eq!(notes(&app, 0).len(), 1);
    app.handle_mouse_click(43, 6, true);
    assert!(app.selected_notes.is_empty());
    app.selected_notes.insert(77);
    app.handle_mouse_click(43, 6, true);
    assert!(app.selected_notes.contains(&id) && app.selected_notes.contains(&77));
    app.handle_mouse_click(43, 6, false);
    assert!(app.selected_notes.contains(&id) && app.selected_notes.len() == 1);

    // Behind the end of the note another one is placed.
    app.handle_mouse_click(44, 6, false);
    assert_eq!(notes(&app, 0), vec![(60, 480, 480), (60, 960, 480)]);
}

#[test]
fn a_click_on_the_ruler_seeks_to_the_beat() {
    let mut app = editor();
    let (handled, commands) = app.handle_mouse_click(41, 4, false);
    assert!(handled && commands.is_empty());
    assert_eq!(app.cursor_tick, 480);
    assert_eq!(app.transport.position_ticks(), 480);
    assert!(matches!(app.status_message, Some((Notice::SeekTo { measure: 1, beat: 2, tick: 0 }, _))));
    assert_eq!(app.cursor_pitch, 60);

    app.toggle_playback();
    let (_, commands) = app.handle_mouse_click(52, 4, false);
    assert_eq!(commands, vec![SynthCommand::AllNotesOff { immediate: true }]);
    assert_eq!(app.transport.position_ticks(), 1920);
    assert_eq!(app.last_sequencer_tick, Some(1920));
}

#[test]
fn clicks_on_the_piano_keys() {
    let mut app = editor();
    let (handled, commands) = app.handle_mouse_click(32, 6, false);
    assert!(handled);
    assert_eq!(commands, vec![SynthCommand::NoteOn { channel: 0, pitch: 60, velocity: 100 }]);
    assert!(matches!(app.status_message, Some((Notice::PlayingNote { pitch: 60 }, 1_000))));
    assert!(notes(&app, 0).is_empty());
    assert_eq!(app.handle_piano_key_release(32, 6), vec![SynthCommand::NoteOff { channel: 0, pitch: 60 }]);
    assert_eq!(app.handle_piano_key_release(35, 5), vec![SynthCommand::NoteOff { channel: 0, pitch: 61 }]);
    assert_eq!(app.handle_piano_key_release(35, 0), vec![SynthCommand::NoteOff { channel: 0, pitch: 61 }]);
    assert!(app.handle_piano_key_release(36, 6).is_empty());
    assert!(app.handle_piano_key_release(30, 6).is_empty());

    // On the border at the left of the keys nothing sounds.
    let (handled, commands) = app.handle_mouse_click(30, 6, false);
    assert!(handled && commands.is_empty());

    app.edit_mode = EditMode::Insert;
    app.cursor_tick = 960;
    let (_, commands) = app.handle_mouse_click(33, 8, false);
    assert_eq!(commands, vec![SynthCommand::NoteOn { channel: 0, pitch: 58, velocity: 100 }]);
    assert_eq!(notes(&app, 0), vec![(58, 960, 480)]);
    assert_eq!(app.cursor_pitch, 58);
    app.undo();
    assert!(matches!(&app.status_message, Some((Notice::Undone { description }, _)) if description == "Insert note"));
    assert!(notes(&app, 0).is_empty());
}

#[test]
fn the_wheel_over_the_piano_roll() {
    let mut app = editor();
    app.handle_mouse_scroll(50, 10, 0, 1, false);
    assert_eq!(app.scroll_y, 49);
    app.handle_mouse_scroll(50, 10, 0, -3, false);
    assert_eq!(app.scroll_y, 46);
    app.handle_mouse_scroll(50, 10, 0, 200, false);
    assert_eq!(app.scroll_y, 113);
    app.handle_mouse_scroll(50, 10, 0, -255, false);
    assert_eq!(app.scroll_y, 0);
    // Of a turn only the low eight bits count, and it scrolls by at
    // least one row.
    app.handle_mouse_scroll(50, 10, 0, 256, false);
    assert_eq!(app.scroll_y, 1);
    app.handle_mouse_scroll(50, 10, 0, 258, false);
    assert_eq!(app.scroll_y, 3);

    app.handle_mouse_scroll(50, 10, 2, 0, false);
    assert_eq!(app.scroll_x, 240);
    app.handle_mouse_scroll(50, 10, -1, 0, false);
    assert_eq!(app.scroll_x, 120);
    app.handle_mouse_scroll(50, 10, -5, -1, false);
    assert_eq!((app.scroll_x, app.scroll_y), (0, 2));
    app.scroll_x = u32::MAX - 5;
    app.handle_mouse_scroll(50, 10, i16::MAX, 0, false);
    assert_eq!(app.scroll_x, u32::MAX);
    app.handle_mouse_scroll(50, 10, i16::MIN, 0, false);
    assert_eq!(app.scroll_x, u32::MAX - 32_768 * 120);
    assert!(app.status_message.is_none());

    app.handle_mouse_scroll(50, 10, 3, 1, true);
    assert_eq!(app.zoom, 96);
    assert_eq!(app.scroll_y, 2);
    assert!(matches!(app.status_message, Some((Notice::Zoom { ticks_per_column: 96 }, 1_000))));
    app.handle_mouse_scroll(50, 10, 0, -1, true);
    assert_eq!(app.zoom, 120);
    app.handle_mouse_scroll(50, 10, 0, -1, true);
    assert_eq!(app.zoom, 150);
    app.status_message = None;
    app.handle_mouse_scroll(50, 10, 4, 0, true);
    assert_eq!(app.zoom, 150);
    assert!(app.status_message.is_none());

    // Off the panels.
    app.handle_mouse_scroll(100, 40, 1, 1, false);
    assert_eq!((app.scroll_x, app.scroll_y), (u32::MAX - 32_768 * 120, 2));
}

#[test]
fn the_wheel_over_the_other_panels() {
    let mut app = editor();
    app.add_track();
    app.add_track();
    assert_eq!(app.selected_track_index, 2);
    app.handle_mouse_scroll(5, 10, 0, -1, false);
    assert_eq!(app.selected_track_index, 2);
    app.handle_mouse_scroll(5, 10, 0, 1, false);
    assert_eq!(app.selected_track_index, 1);
    app.handle_mouse_scroll(5, 10, 0, 7, false);
    app.handle_mouse_scroll(5, 10, 0, 7, false);
    assert_eq!(app.selected_track_index, 0);
    app.handle_mouse_scroll(5, 10, 0, -7, false);
    assert_eq!(app.selected_track_index, 1);
    app.handle_mouse_scroll(5, 10, 3, 0, false);
    assert_eq!(app.selected_track_index, 1);

    let undone = app.history.undo_count();
    app.handle_mouse_scroll(50, 1, 0, 5, false);
    assert_eq!(app.project().tempo, 121);
    assert_eq!(app.transport.tempo(), 121);
    assert_eq!(app.history.undo_count(), undone + 1);
    assert!(matches!(app.status_message, Some((Notice::Tempo { tempo: 121 }, _))));
    app.handle_mouse_scroll(50, 1, 0, -5, false);
    app.handle_mouse_scroll(50, 1, 0, -5, false);
    assert_eq!(app.project().tempo, 119);
    app.handle_mouse_scroll(50, 1, 1, 0, false);
    assert_eq!(app.history.undo_count(), undone + 3);
    app.project_mut().tempo = 300;
    app.handle_mouse_scroll(50, 1, 0, 1, false);
    assert_eq!(app.project().tempo, 300);
    app.project_mut().tempo = 20;
    app.handle_mouse_scroll(50, 1, 0, -1, false);
    assert_eq!(app.project().tempo, 20);
    // A tempo below the range goes up by one, and down to the range.
    app.project_mut().tempo = 10;
    app.handle_mouse_scroll(50, 1, 0, 1, false);
    assert_eq!(app.project().tempo, 11);
    app.handle_mouse_scroll(50, 1, 0, -1, false);
    assert_eq!(app.project().tempo, 20);
    app.project_mut().tempo = u32::MAX;
    app.handle_mouse_scroll(50, 1, 0, 1, false);
    assert_eq!(app.project().tempo, 300);

    app.handle_mouse_scroll(50, 36, 0, 1, false);
    assert_eq!(app.octave_offset, 1);
    app.handle_mouse_scroll(50, 36, 0, -1, false);
    app.handle_mouse_scroll(50, 36, 0, -1, false);
    assert_eq!(app.octave_offset, -1);
}

#[test]
fn a_drag_scrolls_the_view() {
    let mut app = editor();
    app.handle_drag_start(20, 6, false);
    assert_eq!(app.drag_state, DragState::Idle);
    app.handle_drag_move(50, 10);
    assert_eq!((app.scroll_x, app.scroll_y), (0, 48));

    app.handle_drag_start(40, 6, false);
    assert_eq!(app.drag_state, DragState::Scrolling { last_x: 40, last_y: 6 });
    app.handle_drag_move(38, 8);
    assert_eq!((app.scroll_x, app.scroll_y), (240, 46));
    assert_eq!(app.drag_state, DragState::Scrolling { last_x: 38, last_y: 8 });
    app.handle_drag_move(39, 5);
    assert_eq!((app.scroll_x, app.scroll_y), (120, 49));
    app.handle_drag_move(60, 0);
    assert_eq!((app.scroll_x, app.scroll_y), (0, 54));
    app.handle_drag_move(60, 300);
    // 300 rows down count as 44.
    assert_eq!(app.scroll_y, 10);
    app.handle_drag_move(60, 0);
    assert_eq!(app.scroll_y, 54);
    app.scroll_y = 120;
    app.handle_drag_move(60, 256);
    app.handle_drag_move(60, 0);
    assert_eq!(app.scroll_y, 113);
    app.handle_drag_end();
    assert_eq!(app.drag_state, DragState::Idle);
    assert!(app.last_modified.is_none());
    assert_eq!(app.history.undo_count(), 0);
}

#[test]
fn a_drag_with_shift_moves_the_cursor() {
    let mut app = editor();
    app.handle_drag_start(40, 6, true);
    assert_eq!(app.drag_state, DragState::SelectingNotes { start_x: 40, start_y: 6 });
    assert_eq!((app.cursor_tick, app.cursor_pitch), (0, 60));
    app.handle_drag_move(45, 10);
    assert_eq!((app.cursor_tick, app.cursor_pitch), (9 * 120, 56));
    app.handle_drag_move(20, 10);
    assert_eq!((app.cursor_tick, app.cursor_pitch), (9 * 120, 56));
    assert_eq!(app.drag_state, DragState::SelectingNotes { start_x: 40, start_y: 6 });
    app.handle_drag_end();
    assert_eq!(app.drag_state, DragState::Idle);
    assert!(app.last_modified.is_none());
}

#[test]
fn a_drag_moves_the_selected_notes() {
    let mut app = editor();
    app.cursor_tick = 480;
    app.place_note();
    app.cursor_tick = 1440;
    app.cursor_pitch = 61;
    app.place_note();
    let first = app.project().track_at(0).unwrap().notes()[0].id;
    app.select_note(first, false);
    let undone = app.history.undo_count();
    app.last_modified = None;
    app.set_now(2_000);

    // A drag that begins off the selected note scrolls.
    app.handle_drag_start(48, 5, false);
    assert!(matches!(app.drag_state, DragState::Scrolling { .. }));
    app.handle_drag_end();

    app.handle_drag_start(42, 6, false);
    assert_eq!(
        app.drag_state,
        DragState::MovingNotes { last_x: 42, last_y: 6, start_tick: 720, start_pitch: 60 }
    );
    assert_eq!(app.history.undo_count(), undone + 1);
    app.handle_drag_move(44, 5);
    assert_eq!(notes(&app, 0), vec![(61, 720, 480), (61, 1440, 480)]);
    assert_eq!(
        app.drag_state,
        DragState::MovingNotes { last_x: 44, last_y: 5, start_tick: 0, start_pitch: 0 }
    );
    app.handle_drag_move(44, 5);
    assert_eq!(notes(&app, 0), vec![(61, 720, 480), (61, 1440, 480)]);
    app.handle_drag_move(36, 7);
    assert_eq!(notes(&app, 0), vec![(59, 0, 480), (61, 1440, 480)]);
    assert_eq!(app.history.undo_count(), undone + 1);
    assert!(app.last_modified.is_none());
    app.handle_drag_end();
    assert_eq!(app.last_modified, Some(2_000));
    assert_eq!(app.drag_state, DragState::Idle);

    app.undo();
    assert_eq!(notes(&app, 0), vec![(60, 480, 480), (61, 1440, 480)]);
}

#[test]
fn double_clicks_by_panel() {
    let mut app = editor();
    let commands = app.handle_double_click(40, 6);
    assert_eq!(commands, vec![SynthCommand::NoteOn { channel: 0, pitch: 60, velocity: 100 }]);
    assert_eq!(notes(&app, 0), vec![(60, 480, 480)]);
    let commands = app.handle_double_click(41, 6);
    assert!(commands.is_empty());
    assert!(notes(&app, 0).is_empty());
    assert!(matches!(app.status_message, Some((Notice::DeletedNote, _))));
    assert_eq!(app.history.undo_count(), 2);
    // On the piano keys and on the border nothing happens.
    assert!(app.handle_double_click(32, 6).is_empty());
    assert_eq!(app.history.undo_count(), 2);

    assert!(app.handle_double_click(5, 10).is_empty());
    assert!(app.renaming_track);
    assert_eq!(app.rename_buffer, "Track 1");

    app.toggle_playback();
    let commands = app.handle_double_click(50, 1);
    assert_eq!(commands, vec![SynthCommand::AllNotesOff { immediate: true }]);
    assert_eq!(app.transport.playback_state(), PlaybackState::Stopped);

    app.change_octave(2);
    assert!(app.handle_double_click(50, 36).is_empty());
    assert_eq!(app.octave_offset, 0);
    assert!(matches!(app.status_message, Some((Notice::OctaveReset, 1_000))));

    app.status_message = None;
    assert!(app.handle_double_click(100, 40).is_empty());
    assert!(app.status_message.is_none());
}

#[test]
fn notes_that_the_view_does_not_show() {
    let mut ids = IdAllocator::new();
    let mut note = |pitch, start, duration| Note::new(&mut ids, pitch, 100, start, duration);
    let none = OffScreenIndicators { above: false, below: false, left: false, right: false };

    // The view shows the pitches 48 to 61 and the ticks 1000 to 1999.
    let shown = |notes: &[Note]| OffScreenIndicators::calculate(notes, 1000, 48, 1000, 14);
    assert_eq!(shown(&[]), none);
    assert_eq!(shown(&[]).title_indicator(), "");
    assert_eq!(shown(&[note(48, 1000, 1000), note(61, 1999, 1)]), none);
    assert_eq!(shown(&[note(62, 1500, 10)]), OffScreenIndicators { above: true, ..none });
    assert_eq!(shown(&[note(47, 1500, 10)]), OffScreenIndicators { below: true, ..none });
    assert_eq!(shown(&[note(50, 999, 2)]), OffScreenIndicators { left: true, ..none });
    assert_eq!(shown(&[note(50, 999, 1)]), none);
    assert_eq!(shown(&[note(50, 0, 10)]), none);
    assert_eq!(shown(&[note(50, 1999, 2)]), OffScreenIndicators { right: true, ..none });
    assert_eq!(shown(&[note(50, 2000, 2)]), none);
    assert_eq!(shown(&[note(50, 1999, 1)]), none);
    let all = shown(&[note(50, 10, 5000), note(0, 1500, 1), note(127, 1500, 1)]);
    assert_eq!(all, OffScreenIndicators { above: true, below: true, left: true, right: true });
    assert_eq!(all.title_indicator(), "[^v<>]");
    assert_eq!(OffScreenIndicators { below: true, right: true, ..none }.title_indicator(), "[v>]");

    // A view that shows every pitch has nothing above it.
    let wide = OffScreenIndicators::calculate(&[note(127, 0, 1)], 0, 100, 10, 200);
    assert_eq!(wide, none);
    // Of the ticks shown the low 32 bits count.
    let cut = OffScreenIndicators::calculate(&[note(60, 5, 10)], 0, 0, (1 << 32) + 8, 128);
    assert_eq!(cut, OffScreenIndicators { right: true, ..none });
}

#[test]
fn volume_and_pan_for_display() {
    assert_eq!(volume_level(0), VolumeLevel::Normal);
    assert_eq!(volume_level(80), VolumeLevel::Normal);
    assert_eq!(volume_level(81), VolumeLevel::Hot);
    assert_eq!(volume_level(100), VolumeLevel::Hot);
    assert_eq!(volume_level(101), VolumeLevel::Clipping);
    assert_eq!(volume_level(255), VolumeLevel::Clipping);

    assert_eq!(format_pan(64), "C  ");
    assert_eq!(format_pan(63), "L 1");
    assert_eq!(format_pan(55), "L 9");
    assert_eq!(format_pan(54), "L10");
    assert_eq!(format_pan(0), "L64");
    assert_eq!(format_pan(65), "R 1");
    assert_eq!(format_pan(127), "R63");
    assert_eq!(format_pan(255), "R191");

    assert_eq!(pan_notice(64), "C");
    assert_eq!(pan_notice(54), "C");
    assert_eq!(pan_notice(74), "C");
    assert_eq!(pan_notice(53), "L11");
    assert_eq!(pan_notice(0), "L64");
    assert_eq!(pan_notice(75), "R11");
    assert_eq!(pan_notice(127), "R63");
}

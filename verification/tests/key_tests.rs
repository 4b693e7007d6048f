use miditui::app::keys::{key_command, Command, CommandKind, Key, Modifiers, Request};
use miditui::app::{App, EditMode, FocusedPanel, Notice};
use miditui::audio::engine::{PlaybackState, SynthCommand};

const PLAIN: Modifiers = Modifiers { control: false, shift: false };
const CONTROL: Modifiers = Modifiers { control: true, shift: false };
const SHIFT: Modifiers = Modifiers { control: false, shift: true };

fn press(app: &mut App, c: char) -> (Request, Vec<SynthCommand>) {
    app.handle_key(Key::Char(c), PLAIN)
}

fn notes(app: &App) -> Vec<(u8, u32, u32)> {
    app.selected_track()
        .unwrap()
        .notes()
        .iter()
        .map(|n| (n.pitch, n.start_tick, n.duration_ticks))
        .collect()
}

#[test]
fn keys_that_mean_the_same_in_every_mode() {
    for mode in [EditMode::Normal, EditMode::Insert, EditMode::Select] {
        assert_eq!(key_command(mode, Key::Char('c'), CONTROL), Command::Quit);
        assert_eq!(key_command(mode, Key::Char('q'), CONTROL), Command::Quit);
        assert_eq!(key_command(mode, Key::Char('z'), CONTROL), Command::Undo);
        assert_eq!(key_command(mode, Key::Char('y'), CONTROL), Command::Redo);
        assert_eq!(key_command(mode, Key::Char('?'), PLAIN), Command::ToggleHelp);
        assert_eq!(key_command(mode, Key::Char('?'), CONTROL), Command::ToggleHelp);
        assert_eq!(key_command(mode, Key::Esc, PLAIN), Command::Escape);
        assert_eq!(key_command(mode, Key::Tab, SHIFT), Command::FocusNext);
        assert_eq!(key_command(mode, Key::Char(' '), PLAIN), Command::PlayPause);
        assert_eq!(key_command(mode, Key::Char(' '), SHIFT), Command::Restart);
        assert_eq!(key_command(mode, Key::Char('e'), CONTROL), Command::ExportAudio);
        assert_eq!(key_command(mode, Key::Char('m'), CONTROL), Command::ExportMidi);
        assert_eq!(key_command(mode, Key::Char('s'), CONTROL), Command::OpenSaveDialog);
        assert_eq!(key_command(mode, Key::Char('o'), CONTROL), Command::OpenFileBrowser);
        assert_eq!(key_command(mode, Key::Char('n'), CONTROL), Command::OpenNewProjectDialog);
        assert_eq!(key_command(mode, Key::Char('l'), CONTROL), Command::OpenSoundfontDialog);
        assert_eq!(key_command(mode, Key::Other, CONTROL), Command::Nothing);
    }
    assert_eq!(key_command(EditMode::Normal, Key::Char('q'), PLAIN), Command::Quit);
    assert_eq!(key_command(EditMode::Insert, Key::Char('q'), PLAIN), Command::NoteKey('q'));
    assert_eq!(key_command(EditMode::Select, Key::Char('q'), PLAIN), Command::Nothing);
    assert_eq!(key_command(EditMode::Normal, Key::Char('.'), PLAIN), Command::Stop);
    assert_eq!(key_command(EditMode::Insert, Key::Char('.'), PLAIN), Command::NoteKey('.'));
    assert_eq!(key_command(EditMode::Select, Key::Char('.'), PLAIN), Command::Nothing);
}

#[test]
fn keys_of_normal_mode() {
    let normal = |c: char| key_command(EditMode::Normal, Key::Char(c), PLAIN);
    let expected = [
        ('i', Command::InsertMode),
        ('v', Command::SelectMode),
        ('h', Command::CursorLeft),
        ('l', Command::CursorRight),
        ('k', Command::CursorUp),
        ('j', Command::CursorDown),
        ('H', Command::MeasureLeft),
        ('L', Command::MeasureRight),
        ('0', Command::CursorHome),
        ('$', Command::CursorEnd),
        ('J', Command::NextTrack),
        ('K', Command::PreviousTrack),
        ('a', Command::AddTrack),
        ('d', Command::DeleteTrack),
        ('x', Command::DeleteTrack),
        ('r', Command::RenameTrack),
        ('g', Command::ToggleView),
        ('t', Command::ToggleTrackRows),
        ('m', Command::ToggleMute),
        ('s', Command::ToggleSolo),
        ('n', Command::PlaceNote),
        ('=', Command::ZoomIn),
        ('+', Command::ZoomIn),
        ('-', Command::ZoomOut),
        (',', Command::OctaveDown),
        ('/', Command::OctaveUp),
        ('[', Command::TempoDown),
        (']', Command::TempoUp),
        ('{', Command::FewerBeats),
        ('}', Command::MoreBeats),
        ('|', Command::NextBeatUnit),
        ('<', Command::PreviousInstrument),
        ('>', Command::NextInstrument),
        (';', Command::VolumeDown),
        ('\'', Command::VolumeUp),
        ('(', Command::PanLeft),
        (')', Command::PanRight),
        ('e', Command::ExportAudio),
        ('W', Command::CycleHighlight),
        ('z', Command::NoteKey('z')),
        ('w', Command::NoteKey('w')),
        ('\u{e9}', Command::NoteKey('\u{e9}')),
    ];
    for (c, command) in expected {
        assert_eq!(normal(c), command, "{c}");
    }
    assert_eq!(key_command(EditMode::Normal, Key::Char('-'), CONTROL), Command::NoteKey('-'));
    assert_eq!(key_command(EditMode::Normal, Key::Char('h'), CONTROL), Command::CursorLeft);
    assert_eq!(key_command(EditMode::Normal, Key::Left, PLAIN), Command::CursorLeft);
    assert_eq!(key_command(EditMode::Normal, Key::Right, PLAIN), Command::CursorRight);
    assert_eq!(key_command(EditMode::Normal, Key::Up, PLAIN), Command::CursorUp);
    assert_eq!(key_command(EditMode::Normal, Key::Down, PLAIN), Command::CursorDown);
    assert_eq!(key_command(EditMode::Normal, Key::Enter, PLAIN), Command::PlaceNote);
    assert_eq!(key_command(EditMode::Normal, Key::Delete, PLAIN), Command::DeleteNote);
    assert_eq!(key_command(EditMode::Normal, Key::Other, PLAIN), Command::Nothing);
}

#[test]
fn keys_of_insert_and_select_mode() {
    let insert = |c: char| key_command(EditMode::Insert, Key::Char(c), PLAIN);
    assert_eq!(insert(','), Command::OctaveDown);
    assert_eq!(insert('/'), Command::OctaveUp);
    assert_eq!(insert('<'), Command::PreviousInstrument);
    assert_eq!(insert('>'), Command::NextInstrument);
    assert_eq!(insert('a'), Command::NoteKey('a'));
    assert_eq!(insert('i'), Command::NoteKey('i'));
    assert_eq!(key_command(EditMode::Insert, Key::Left, PLAIN), Command::CursorLeft);
    assert_eq!(key_command(EditMode::Insert, Key::Up, PLAIN), Command::CursorUp);
    assert_eq!(key_command(EditMode::Insert, Key::Enter, PLAIN), Command::Nothing);
    assert_eq!(key_command(EditMode::Insert, Key::Delete, PLAIN), Command::Nothing);

    let select = |c: char, held: Modifiers| key_command(EditMode::Select, Key::Char(c), held);
    assert_eq!(select('A', SHIFT), Command::ShortenNotes);
    assert_eq!(select('D', SHIFT), Command::LengthenNotes);
    assert_eq!(select('A', PLAIN), Command::Nothing);
    assert_eq!(select('w', PLAIN), Command::NotesUp);
    assert_eq!(select('s', PLAIN), Command::NotesDown);
    assert_eq!(select('a', PLAIN), Command::NotesLeft);
    assert_eq!(select('d', SHIFT), Command::NotesRight);
    assert_eq!(select('h', PLAIN), Command::CursorLeft);
    assert_eq!(select('l', PLAIN), Command::CursorRight);
    assert_eq!(select('k', PLAIN), Command::CursorUp);
    assert_eq!(select('j', PLAIN), Command::CursorDown);
    assert_eq!(select('x', PLAIN), Command::DeleteSelection);
    assert_eq!(select('c', PLAIN), Command::ClearSelection);
    assert_eq!(select('n', PLAIN), Command::Nothing);
    assert_eq!(key_command(EditMode::Select, Key::Enter, PLAIN), Command::ToggleNote);
    assert_eq!(key_command(EditMode::Select, Key::Delete, PLAIN), Command::DeleteSelection);
    assert_eq!(key_command(EditMode::Select, Key::Right, PLAIN), Command::CursorRight);
}

#[test]
fn requests_and_kinds_of_commands() {
    assert_eq!(Command::Quit.request(), Request::Quit);
    assert_eq!(Command::ToggleHelp.request(), Request::Nothing);
    assert_eq!(Command::ExportAudio.request(), Request::ExportAudio);
    assert_eq!(Command::ExportMidi.request(), Request::ExportMidi);
    assert_eq!(Command::OpenSaveDialog.request(), Request::OpenSaveDialog);
    assert_eq!(Command::OpenFileBrowser.request(), Request::OpenFileBrowser);
    assert_eq!(Command::OpenSoundfontDialog.request(), Request::OpenSoundfontDialog);
    assert_eq!(Command::OpenNewProjectDialog.request(), Request::Nothing);
    assert_eq!(Command::Undo.request(), Request::Nothing);
    assert_eq!(Command::Quit.kind(), CommandKind::View);
    assert_eq!(Command::Undo.kind(), CommandKind::Play);
    assert_eq!(Command::NoteKey('q').kind(), CommandKind::Play);
    assert_eq!(Command::PanRight.kind(), CommandKind::Mix);
    assert_eq!(Command::ClearSelection.kind(), CommandKind::Edit);
}

#[test]
fn requests_leave_the_editor_alone() {
    let mut app = App::new();
    for (key, held, request) in [
        (Key::Char('q'), PLAIN, Request::Quit),
        (Key::Char('c'), CONTROL, Request::Quit),
        (Key::Char('e'), PLAIN, Request::ExportAudio),
        (Key::Char('m'), CONTROL, Request::ExportMidi),
        (Key::Char('s'), CONTROL, Request::OpenSaveDialog),
        (Key::Char('o'), CONTROL, Request::OpenFileBrowser),
        (Key::Char('l'), CONTROL, Request::OpenSoundfontDialog),
        (Key::Other, PLAIN, Request::Nothing),
    ] {
        let (asked, commands) = app.handle_key(key, held);
        assert_eq!(asked, request);
        assert!(commands.is_empty());
        assert!(app.status_message.is_none());
        assert_eq!(app.history.undo_count(), 0);
    }
    let (asked, _) = app.handle_key(Key::Char('n'), CONTROL);
    assert_eq!(asked, Request::Nothing);
    assert!(app.new_project_dialog.open);
    assert_eq!(app.new_project_dialog.selected, 1);
    let (asked, commands) = app.handle_key(Key::Char('?'), PLAIN);
    assert!(asked == Request::Nothing && commands.is_empty());
    assert!(app.show_help);
    app.handle_key(Key::Char('?'), PLAIN);
    assert!(!app.show_help);
    for key in [Key::Backspace, Key::PageUp, Key::PageDown, Key::Home] {
        assert_eq!(key_command(EditMode::Normal, key, PLAIN), Command::Nothing);
        assert_eq!(key_command(EditMode::Select, key, CONTROL), Command::Nothing);
    }
}

#[test]
fn modes_and_focus() {
    let mut app = App::new();
    app.set_now(7);
    press(&mut app, 'i');
    assert_eq!(app.edit_mode, EditMode::Insert);
    assert!(matches!(app.status_message, Some((Notice::InsertMode, 7))));
    // In insert mode `p` plays no note and changes nothing.
    let (_, commands) = press(&mut app, 'p');
    assert!(commands.is_empty());
    assert_eq!(app.edit_mode, EditMode::Insert);
    assert_eq!(app.history.undo_count(), 0);
    let (_, commands) = press(&mut app, 'z');
    assert_eq!(commands, vec![SynthCommand::NoteOn { channel: 0, pitch: 48, velocity: 100 }]);
    assert!(app.insert_recording_active);
    assert_eq!(notes(&app), vec![(48, 0, 480)]);

    let (_, commands) = app.handle_key(Key::Esc, PLAIN);
    assert_eq!(commands, vec![SynthCommand::NoteOff { channel: 0, pitch: 48 }]);
    assert_eq!(app.edit_mode, EditMode::Normal);
    assert!(!app.insert_recording_active);
    assert!(app.held_notes.is_empty());
    assert!(matches!(app.status_message, Some((Notice::NormalMode, 7))));
    app.status_message = None;
    let (_, commands) = app.handle_key(Key::Esc, PLAIN);
    assert!(commands.is_empty());
    assert!(app.status_message.is_none());

    press(&mut app, 'v');
    assert_eq!(app.edit_mode, EditMode::Select);
    assert!(matches!(app.status_message, Some((Notice::SelectMode, 7))));
    app.handle_key(Key::Esc, PLAIN);
    assert_eq!(app.edit_mode, EditMode::Normal);

    assert_eq!(app.focused_panel, FocusedPanel::PianoRoll);
    for panel in [
        FocusedPanel::Keyboard,
        FocusedPanel::TrackList,
        FocusedPanel::Timeline,
        FocusedPanel::PianoRoll,
    ] {
        app.handle_key(Key::Tab, PLAIN);
        assert_eq!(app.focused_panel, panel);
    }
}

#[test]
fn transport_and_history_keys() {
    let mut app = App::new();
    let (_, commands) = press(&mut app, ' ');
    assert_eq!(commands.len(), 3);
    assert_eq!(app.transport.playback_state(), PlaybackState::Playing);
    press(&mut app, ' ');
    assert_eq!(app.transport.playback_state(), PlaybackState::Paused);
    let (_, commands) = app.handle_key(Key::Char(' '), SHIFT);
    assert_eq!(commands[0], SynthCommand::AllNotesOff { immediate: true });
    assert_eq!(app.transport.playback_state(), PlaybackState::Playing);
    let (_, commands) = press(&mut app, '.');
    assert_eq!(commands, vec![SynthCommand::AllNotesOff { immediate: true }]);
    assert_eq!(app.transport.playback_state(), PlaybackState::Stopped);

    press(&mut app, 'n');
    assert_eq!(notes(&app), vec![(60, 0, 480)]);
    let (_, commands) = app.handle_key(Key::Char('z'), CONTROL);
    assert_eq!(commands[0], SynthCommand::AllNotesOff { immediate: true });
    assert!(notes(&app).is_empty());
    app.handle_key(Key::Char('y'), CONTROL);
    assert_eq!(notes(&app), vec![(60, 0, 480)]);
    app.handle_key(Key::Char('y'), CONTROL);
    assert!(matches!(app.status_message, Some((Notice::NothingToRedo, _))));
}

#[test]
fn cursor_keys() {
    let mut app = App::new();
    press(&mut app, 'l');
    press(&mut app, 'l');
    app.handle_key(Key::Right, PLAIN);
    assert_eq!(app.cursor_tick, 360);
    press(&mut app, 'h');
    assert_eq!(app.cursor_tick, 240);
    press(&mut app, 'L');
    assert_eq!(app.cursor_tick, 2160);
    press(&mut app, 'H');
    press(&mut app, 'H');
    assert_eq!(app.cursor_tick, 0);
    press(&mut app, 'k');
    app.handle_key(Key::Up, PLAIN);
    assert_eq!(app.cursor_pitch, 62);
    press(&mut app, 'j');
    assert_eq!(app.cursor_pitch, 61);

    app.cursor_tick = 960;
    press(&mut app, 'n');
    press(&mut app, '$');
    assert_eq!(app.cursor_tick, 1440);
    app.scroll_x = 500;
    press(&mut app, '0');
    assert_eq!((app.cursor_tick, app.scroll_x), (0, 0));

    // A column wider than the largest step moves by the largest step.
    app.zoom = u32::MAX;
    press(&mut app, 'l');
    assert_eq!(app.cursor_tick, i32::MAX as u32);
    press(&mut app, 'h');
    assert_eq!(app.cursor_tick, 0);
}

#[test]
fn track_and_mixer_keys() {
    let mut app = App::new();
    app.set_now(3);
    press(&mut app, 'a');
    press(&mut app, 'a');
    assert_eq!(app.project().track_count(), 3);
    assert_eq!(app.selected_track_index, 2);
    press(&mut app, 'J');
    assert_eq!(app.selected_track_index, 2);
    press(&mut app, 'K');
    press(&mut app, 'K');
    press(&mut app, 'K');
    assert_eq!(app.selected_track_index, 0);
    press(&mut app, 'J');
    assert_eq!(app.selected_track_index, 1);

    let (_, commands) = press(&mut app, 'm');
    assert_eq!(commands, vec![SynthCommand::AllNotesOff { immediate: true }]);
    assert!(app.selected_track().unwrap().muted);
    press(&mut app, 's');
    assert!(app.selected_track().unwrap().solo);
    let channel = app.selected_track().unwrap().channel;
    let (_, commands) = press(&mut app, ';');
    assert_eq!(commands, vec![SynthCommand::SetVolume { channel, volume: 95 }]);
    let (_, commands) = press(&mut app, '\'');
    assert_eq!(commands, vec![SynthCommand::SetVolume { channel, volume: 100 }]);
    let (_, commands) = press(&mut app, '(');
    assert_eq!(commands, vec![SynthCommand::SetPan { channel, pan: 56 }]);
    let (_, commands) = press(&mut app, ')');
    assert_eq!(commands, vec![SynthCommand::SetPan { channel, pan: 64 }]);
    let (_, commands) = press(&mut app, '>');
    assert!(commands.contains(&SynthCommand::SetProgram { channel, program: 1 }));
    let (_, commands) = press(&mut app, '<');
    assert!(commands.contains(&SynthCommand::SetProgram { channel, program: 0 }));

    press(&mut app, ']');
    assert_eq!(app.project().tempo, 125);
    press(&mut app, '[');
    press(&mut app, '[');
    assert_eq!(app.project().tempo, 115);
    press(&mut app, '}');
    assert_eq!(app.project().time_sig_numerator, 5);
    press(&mut app, '{');
    press(&mut app, '{');
    assert_eq!(app.project().time_sig_numerator, 3);
    press(&mut app, '|');
    assert_eq!(app.project().time_sig_denominator, 8);

    press(&mut app, 'r');
    assert!(app.renaming_track);
    app.cancel_rename_track();
    press(&mut app, 'd');
    assert_eq!(app.project().track_count(), 2);
    press(&mut app, 'x');
    assert_eq!(app.project().track_count(), 1);
    press(&mut app, 'x');
    assert_eq!(app.project().track_count(), 1);
    assert!(matches!(app.status_message, Some((Notice::CannotDeleteLastTrack, 3))));
}

#[test]
fn view_keys() {
    let mut app = App::new();
    press(&mut app, '=');
    assert_eq!(app.zoom, 60);
    assert!(matches!(app.status_message, Some((Notice::Zoom { ticks_per_column: 60 }, _))));
    press(&mut app, '+');
    assert_eq!(app.zoom, 30);
    press(&mut app, '+');
    assert_eq!(app.zoom, 30);
    press(&mut app, '-');
    press(&mut app, '-');
    assert_eq!(app.zoom, 120);
    press(&mut app, ',');
    assert_eq!(app.octave_offset, -1);
    press(&mut app, '/');
    press(&mut app, '/');
    assert_eq!(app.octave_offset, 1);
    let view = app.view_mode;
    press(&mut app, 'g');
    assert_ne!(app.view_mode, view);
    let expanded = app.expanded_tracks;
    press(&mut app, 't');
    assert_eq!(app.expanded_tracks, !expanded);
    let highlight = app.highlight_mode;
    press(&mut app, 'W');
    assert_ne!(app.highlight_mode, highlight);
}

#[test]
fn select_mode_edits_the_selection() {
    let mut app = App::new();
    app.set_now(11);
    app.cursor_tick = 480;
    press(&mut app, 'n');
    app.handle_key(Key::Enter, PLAIN);
    assert_eq!(notes(&app), vec![(60, 480, 480), (60, 480, 480)]);
    app.undo();
    press(&mut app, 'v');

    // Nothing is selected: the keys move the cursor.
    press(&mut app, 'w');
    assert_eq!(app.cursor_pitch, 61);
    press(&mut app, 's');
    assert_eq!(app.cursor_pitch, 60);
    press(&mut app, 'd');
    assert_eq!(app.cursor_tick, 600);
    press(&mut app, 'a');
    assert_eq!(app.cursor_tick, 480);
    app.status_message = None;
    app.handle_key(Key::Char('A'), SHIFT);
    app.handle_key(Key::Char('D'), SHIFT);
    press(&mut app, 'x');
    app.handle_key(Key::Delete, PLAIN);
    assert!(app.status_message.is_none());
    assert_eq!(notes(&app), vec![(60, 480, 480)]);
    assert_eq!(app.history.undo_count(), 1);

    app.handle_key(Key::Enter, PLAIN);
    assert_eq!(app.selected_notes.len(), 1);
    assert!(matches!(app.status_message, Some((Notice::NoteToggled { selected: true }, 11))));
    app.handle_key(Key::Enter, PLAIN);
    assert!(app.selected_notes.is_empty());
    assert!(matches!(app.status_message, Some((Notice::NoteToggled { selected: false }, 11))));
    app.handle_key(Key::Enter, PLAIN);
    app.cursor_tick = 0;
    app.status_message = None;
    app.handle_key(Key::Enter, PLAIN);
    assert!(app.status_message.is_none());
    assert_eq!(app.selected_notes.len(), 1);

    press(&mut app, 'w');
    assert_eq!(notes(&app), vec![(61, 480, 480)]);
    assert!(matches!(app.status_message, Some((Notice::MovedNotesUp, 11))));
    press(&mut app, 's');
    press(&mut app, 's');
    assert_eq!(notes(&app), vec![(59, 480, 480)]);
    assert!(matches!(app.status_message, Some((Notice::MovedNotesDown, _))));
    assert_eq!(app.history.undo_count(), 4);
    press(&mut app, 'd');
    assert_eq!(notes(&app), vec![(59, 600, 480)]);
    assert!(matches!(app.status_message, Some((Notice::MovedNotesRight, _))));
    press(&mut app, 'a');
    press(&mut app, 'a');
    assert_eq!(notes(&app), vec![(59, 360, 480)]);
    assert!(matches!(app.status_message, Some((Notice::MovedNotesLeft, _))));
    app.handle_key(Key::Char('D'), SHIFT);
    assert_eq!(notes(&app), vec![(59, 360, 600)]);
    assert!(matches!(app.status_message, Some((Notice::DurationExpanded, _))));
    app.handle_key(Key::Char('A'), SHIFT);
    app.handle_key(Key::Char('A'), SHIFT);
    assert_eq!(notes(&app), vec![(59, 360, 360)]);
    assert!(matches!(app.status_message, Some((Notice::DurationReduced, _))));
    assert_eq!(app.cursor_pitch, 60);
    // The history holds the last eight edits.
    assert_eq!(app.history.undo_count(), 8);

    press(&mut app, 'c');
    assert!(app.selected_notes.is_empty());
    assert!(matches!(app.status_message, Some((Notice::SelectionCleared, 11))));
    app.cursor_tick = 400;
    app.cursor_pitch = 59;
    app.handle_key(Key::Enter, PLAIN);
    app.selected_notes.insert(999);
    press(&mut app, 'x');
    assert!(notes(&app).is_empty());
    assert!(app.selected_notes.is_empty());
    assert!(matches!(app.status_message, Some((Notice::DeletedNotes { count: 2 }, _))));
}

#[test]
fn delete_key_of_normal_mode() {
    let mut app = App::new();
    press(&mut app, 'n');
    app.cursor_tick = 479;
    app.handle_key(Key::Delete, PLAIN);
    assert!(notes(&app).is_empty());
    let undone = app.history.undo_count();
    app.handle_key(Key::Delete, PLAIN);
    assert_eq!(app.history.undo_count(), undone);
}

use miditui::app::keys::{Key, Modifiers, Request};
use miditui::app::layout::{LayoutRegions, Region};
use miditui::app::screen::{
    proposed_name, MouseAction, MouseButton, Pointer, Screen, Selection,
};
use miditui::app::{App, DragState, EditMode, Notice, SaveFormat, ViewMode};
use miditui::audio::engine::{PlaybackState, SynthCommand};
use miditui::midi::{IdAllocator, Project};

const PLAIN: Modifiers = Modifiers { control: false, shift: false };
const CONTROL: Modifiers = Modifiers { control: true, shift: false };

fn press(app: &mut App, key: Key) -> Request {
    app.handle_key_press(key, PLAIN).0
}

fn entries(names: &[&str]) -> Vec<String> {
    names.iter().map(|n| n.to_string()).collect()
}

fn editor() -> App {
    let mut app = App::new();
    let mut layout = LayoutRegions::arrange(
        Region { x: 0, y: 0, width: 100, height: 3 },
        Region { x: 0, y: 3, width: 30, height: 32 },
        Region { x: 30, y: 3, width: 70, height: 32 },
        Region { x: 0, y: 35, width: 100, height: 5 },
        ViewMode::Combined,
    );
    layout.piano_roll_ruler = Region { x: 36, y: 4, width: 63, height: 1 };
    app.update_layout(layout);
    app.set_now(5);
    app
}

#[test]
fn the_screen_that_takes_the_keys() {
    let mut app = App::new();
    assert_eq!(app.screen(), Screen::Editor);
    app.start_rename_track();
    assert_eq!(app.screen(), Screen::Renaming);
    app.file_browser.show("/".to_string(), entries(&["a.json"]));
    assert_eq!(app.screen(), Screen::FileBrowser);
    app.open_save_dialog(None);
    assert_eq!(app.screen(), Screen::SaveDialog);
    app.open_new_project_dialog();
    assert_eq!(app.screen(), Screen::NewProjectDialog);
    app.soundfont_dialog.show("/".to_string(), entries(&["a.sf2"]));
    assert_eq!(app.screen(), Screen::SoundfontDialog);
    app.show_help = true;
    assert_eq!(app.screen(), Screen::Help);
}

#[test]
fn the_help_takes_the_keys() {
    let mut app = App::new();
    assert_eq!(press(&mut app, Key::Char('?')), Request::Nothing);
    assert!(app.show_help);
    press(&mut app, Key::Char('j'));
    press(&mut app, Key::Down);
    press(&mut app, Key::PageDown);
    assert_eq!(app.help_scroll, 12);
    press(&mut app, Key::Char('k'));
    press(&mut app, Key::Up);
    assert_eq!(app.help_scroll, 10);
    press(&mut app, Key::PageUp);
    press(&mut app, Key::PageUp);
    assert_eq!(app.help_scroll, 0);
    app.help_scroll = u16::MAX - 3;
    press(&mut app, Key::PageDown);
    assert_eq!(app.help_scroll, u16::MAX);
    press(&mut app, Key::Home);
    assert_eq!(app.help_scroll, 0);
    // The keys of the editor do nothing.
    press(&mut app, Key::Char('a'));
    assert_eq!(app.handle_key_press(Key::Char('q'), CONTROL).0, Request::Nothing);
    assert_eq!(app.project().track_count(), 1);
    assert!(app.show_help);
    app.help_scroll = 4;
    press(&mut app, Key::Esc);
    assert!(!app.show_help);
    assert_eq!(app.help_scroll, 0);
    press(&mut app, Key::Char('?'));
    app.help_scroll = 4;
    press(&mut app, Key::Char('?'));
    assert!(!app.show_help);
    assert_eq!(app.help_scroll, 0);
}

#[test]
fn the_browser_for_soundfonts_takes_the_keys() {
    let mut app = App::new();
    app.set_now(9);
    let names: Vec<String> = (0..12).map(|i| format!("{i}.sf2")).collect();
    app.soundfont_dialog.show("/fonts".to_string(), names);
    assert_eq!(press(&mut app, Key::Enter), Request::SelectSoundfont);
    assert!(app.soundfont_dialog.open);
    press(&mut app, Key::Up);
    assert_eq!(app.soundfont_dialog.selected, 0);
    for _ in 0..5 {
        press(&mut app, Key::Down);
        press(&mut app, Key::Char('j'));
    }
    assert_eq!((app.soundfont_dialog.selected, app.soundfont_dialog.scroll), (10, 1));
    press(&mut app, Key::Down);
    press(&mut app, Key::Down);
    assert_eq!((app.soundfont_dialog.selected, app.soundfont_dialog.scroll), (11, 2));
    press(&mut app, Key::Char('k'));
    assert_eq!((app.soundfont_dialog.selected, app.soundfont_dialog.scroll), (10, 2));
    press(&mut app, Key::Char('a'));
    assert_eq!(app.project().track_count(), 1);

    app.soundfont_dialog.is_first_load = true;
    assert_eq!(press(&mut app, Key::Esc), Request::Nothing);
    assert!(app.soundfont_dialog.open);
    assert!(matches!(app.status_message, Some((Notice::SoundfontRequired, 9))));
    assert!(!app.soundfont_dialog_cancel());
    app.soundfont_dialog.is_first_load = false;
    press(&mut app, Key::Esc);
    assert!(!app.soundfont_dialog.open);
    assert!(matches!(app.status_message, Some((Notice::SoundfontCancelled, 9))));
    assert_eq!(app.soundfont_dialog.selected, 10);
}

#[test]
fn the_dialog_before_a_new_project_takes_the_keys() {
    let mut app = App::new();
    app.set_now(9);
    app.place_note();
    assert_eq!(app.handle_key_press(Key::Char('n'), CONTROL).0, Request::Nothing);
    assert!(app.new_project_dialog.open);
    assert_eq!(app.new_project_dialog.selected, 1);
    for (key, answer) in [
        (Key::Left, 0),
        (Key::Right, 1),
        (Key::Char('h'), 0),
        (Key::Char('l'), 1),
        (Key::Char('y'), 0),
        (Key::Char('n'), 1),
        (Key::Tab, 0),
        (Key::Tab, 1),
        (Key::Char('x'), 1),
    ] {
        press(&mut app, key);
        assert_eq!(app.new_project_dialog.selected, answer);
    }
    // "No" is chosen.
    let (request, commands) = app.handle_key_press(Key::Enter, PLAIN);
    assert_eq!(request, Request::Nothing);
    assert!(commands.is_empty());
    assert!(!app.new_project_dialog.open);
    assert!(matches!(app.status_message, Some((Notice::NewProjectCancelled, 9))));
    assert_eq!(app.selected_track().unwrap().note_count(), 1);

    app.open_new_project_dialog();
    app.status_message = None;
    press(&mut app, Key::Esc);
    assert!(!app.new_project_dialog.open);
    assert!(matches!(app.status_message, Some((Notice::NewProjectCancelled, 9))));

    app.open_new_project_dialog();
    press(&mut app, Key::Left);
    let (request, commands) = app.handle_key_press(Key::Enter, PLAIN);
    assert_eq!(request, Request::ProjectReset);
    assert_eq!(commands[0], SynthCommand::AllNotesOff { immediate: true });
    assert_eq!(commands.len(), 4);
    assert!(!app.new_project_dialog.open);
    assert_eq!(app.selected_track().unwrap().note_count(), 0);
    assert_eq!(app.history.undo_count(), 0);
    assert!(matches!(app.status_message, Some((Notice::NewProjectCreated, 9))));

    // While the dialog is closed nothing is confirmed.
    let (created, commands) = app.new_project_dialog_confirm();
    assert!(!created && commands.is_empty());
}

#[test]
fn the_save_dialog_takes_the_keys() {
    let mut app = App::new();
    app.set_now(9);
    assert_eq!(app.handle_key_press(Key::Char('s'), CONTROL).0, Request::OpenSaveDialog);
    assert!(!app.save_dialog.open);
    app.open_save_dialog(None);
    assert!(app.save_dialog.open);
    assert_eq!(app.save_dialog.filename, "New_Project");
    assert_eq!(app.save_dialog.format, SaveFormat::Json);
    for key in [Key::Backspace, Key::Char('s'), Key::Char('-'), Key::Char('_'), Key::Char('\u{e9}')]
    {
        assert_eq!(press(&mut app, key), Request::Nothing);
    }
    assert_eq!(app.save_dialog.filename, "New_Projecs-_\u{e9}");
    for c in [' ', '.', '/', '?', '\u{7}'] {
        press(&mut app, Key::Char(c));
    }
    assert_eq!(app.save_dialog.filename, "New_Projecs-_\u{e9}");
    press(&mut app, Key::Tab);
    assert_eq!(app.save_dialog.format, SaveFormat::Oxm);
    press(&mut app, Key::Tab);
    press(&mut app, Key::Tab);
    assert_eq!(app.save_dialog.format, SaveFormat::Json);
    assert_eq!(press(&mut app, Key::Enter), Request::SaveProject);
    assert!(app.save_dialog.open);
    assert!(app.status_message.is_none());
    press(&mut app, Key::Esc);
    assert!(!app.save_dialog.open);
    assert!(matches!(app.status_message, Some((Notice::SaveCancelled, 9))));
    assert_eq!(app.save_dialog.filename, "New_Projecs-_\u{e9}");

    // Typed into the dialog by hand, every character but a control
    // character is taken.
    app.open_save_dialog(Some("song"));
    assert_eq!(app.save_dialog.filename, "song");
    app.save_dialog_input('.');
    app.save_dialog_input('\n');
    assert_eq!(app.save_dialog.filename, "song.");
    app.save_dialog_backspace();
    app.save_dialog_toggle_format();
    assert_eq!((app.save_dialog.filename.as_str(), app.save_dialog.format), ("song", SaveFormat::Oxm));
    for _ in 0..6 {
        app.save_dialog_backspace();
    }
    assert_eq!(app.save_dialog.filename, "");
    app.save_dialog_cancel();
    app.save_dialog_input('x');
    app.save_dialog_toggle_format();
    assert_eq!((app.save_dialog.filename.as_str(), app.save_dialog.format), ("", SaveFormat::Oxm));
}

#[test]
fn names_that_the_save_dialog_proposes() {
    assert_eq!(proposed_name(None, "New Project"), "New_Project");
    assert_eq!(proposed_name(None, "a/b: c?  d_e-f"), "ab_c__d_e-f");
    assert_eq!(proposed_name(None, "\u{e9}t\u{e9} 2\u{664}"), "\u{e9}t\u{e9}_2\u{664}");
    assert_eq!(proposed_name(None, ""), "project");
    assert_eq!(proposed_name(None, "?!"), "project");
    assert_eq!(proposed_name(None, " "), "_");
    assert_eq!(proposed_name(Some("my song.v2"), "New Project"), "my song.v2");
    assert_eq!(proposed_name(Some(""), "New Project"), "project");
}

#[test]
fn the_browser_for_project_files_takes_the_keys() {
    let mut app = App::new();
    app.set_now(9);
    assert_eq!(app.handle_key_press(Key::Char('o'), CONTROL).0, Request::OpenFileBrowser);
    app.file_browser.show("/songs".to_string(), entries(&["..", "a.json", "b.mid"]));
    press(&mut app, Key::Down);
    press(&mut app, Key::Char('j'));
    press(&mut app, Key::Char('j'));
    assert_eq!(app.file_browser.selected, 2);
    press(&mut app, Key::Char('k'));
    press(&mut app, Key::Up);
    press(&mut app, Key::Up);
    assert_eq!(app.file_browser.selected, 0);
    assert_eq!(press(&mut app, Key::Enter), Request::LoadSelected);
    assert!(app.file_browser.open);
    press(&mut app, Key::Char('q'));
    assert!(app.file_browser.open);
    press(&mut app, Key::Esc);
    assert!(!app.file_browser.open);
    assert!(matches!(app.status_message, Some((Notice::LoadCancelled, 9))));
    assert_eq!(app.file_browser.entries.len(), 3);
}

#[test]
fn renaming_takes_the_keys() {
    let mut app = App::new();
    press(&mut app, Key::Char('r'));
    assert!(app.renaming_track);
    for key in [
        Key::Backspace,
        Key::Backspace,
        Key::Char(' '),
        Key::Char('q'),
        Key::Char('\u{1b}'),
        Key::Tab,
        Key::Char('?'),
    ] {
        assert_eq!(press(&mut app, key), Request::Nothing);
    }
    assert_eq!(app.rename_buffer, "Track q?");
    assert!(!app.show_help);
    press(&mut app, Key::Enter);
    assert!(!app.renaming_track);
    assert_eq!(app.selected_track().unwrap().name, "Track q?");
    press(&mut app, Key::Char('r'));
    press(&mut app, Key::Char('x'));
    press(&mut app, Key::Esc);
    assert!(!app.renaming_track);
    assert_eq!(app.selected_track().unwrap().name, "Track q?");
    assert_eq!(app.edit_mode, EditMode::Normal);
    assert_eq!(press(&mut app, Key::Char('q')), Request::Quit);
}

#[test]
fn the_help_takes_the_mouse() {
    let mut app = editor();
    let mut pointer = Pointer::new();
    app.show_help = true;
    app.help_scroll = 5;
    app.handle_mouse(&mut pointer, MouseAction::ScrollDown, 50, 10, false, false, 0);
    assert_eq!(app.help_scroll, 8);
    app.handle_mouse(&mut pointer, MouseAction::ScrollUp, 50, 10, false, false, 0);
    app.handle_mouse(&mut pointer, MouseAction::ScrollUp, 50, 10, false, false, 0);
    assert_eq!(app.help_scroll, 2);
    app.handle_mouse(&mut pointer, MouseAction::ScrollUp, 50, 10, false, false, 0);
    assert_eq!(app.help_scroll, 0);
    assert_eq!(app.scroll_y, 48);
    app.handle_mouse(&mut pointer, MouseAction::Down(MouseButton::Right), 50, 10, false, false, 0);
    assert_eq!(app.edit_mode, EditMode::Normal);
    app.help_scroll = 7;
    let commands =
        app.handle_mouse(&mut pointer, MouseAction::Down(MouseButton::Left), 15, 1, false, false, 0);
    assert!(commands.is_empty());
    assert!(!app.show_help);
    assert_eq!(app.help_scroll, 0);
    assert_eq!(app.transport.playback_state(), PlaybackState::Stopped);
    assert!(pointer.last_down.is_none() && pointer.clicks.last_pos.is_none());
}

#[test]
fn the_buttons_of_the_mouse() {
    let mut app = editor();
    let mut pointer = Pointer::new();
    let left = MouseAction::Down(MouseButton::Left);

    // A click on a piano key and its release.
    let commands = app.handle_mouse(&mut pointer, left, 32, 6, false, false, 1_000);
    assert_eq!(commands, vec![SynthCommand::NoteOn { channel: 0, pitch: 60, velocity: 100 }]);
    assert_eq!(pointer.last_down, Some((32, 6)));
    let commands =
        app.handle_mouse(&mut pointer, MouseAction::Up(MouseButton::Left), 50, 20, false, false, 1_100);
    assert_eq!(commands, vec![SynthCommand::NoteOff { channel: 0, pitch: 60 }]);
    assert!(pointer.last_down.is_none());
    let commands =
        app.handle_mouse(&mut pointer, MouseAction::Up(MouseButton::Left), 32, 6, false, false, 1_100);
    assert!(commands.is_empty());

    // A click in the grid begins a drag; a second one in time is a
    // double click and places a note, a third one begins anew.
    app.handle_mouse(&mut pointer, left, 40, 6, false, false, 2_000);
    assert_eq!(app.drag_state, DragState::Scrolling { last_x: 40, last_y: 6 });
    assert_eq!((app.cursor_tick, app.cursor_pitch), (480, 60));
    app.handle_mouse(&mut pointer, MouseAction::Drag(MouseButton::Left), 39, 6, false, false, 2_050);
    assert_eq!(app.scroll_x, 120);
    app.handle_mouse(&mut pointer, MouseAction::Up(MouseButton::Left), 39, 6, false, false, 2_100);
    assert_eq!(app.drag_state, DragState::Idle);
    app.scroll_x = 0;
    app.handle_mouse(&mut pointer, left, 40, 6, false, false, 2_400);
    assert_eq!(app.selected_track().unwrap().note_count(), 0);
    let commands = app.handle_mouse(&mut pointer, left, 40, 6, false, false, 2_799);
    assert_eq!(commands, vec![SynthCommand::NoteOn { channel: 0, pitch: 60, velocity: 100 }]);
    assert_eq!(app.selected_track().unwrap().note_count(), 1);
    assert!(pointer.clicks.last_pos.is_none());
    app.handle_mouse(&mut pointer, MouseAction::Up(MouseButton::Left), 40, 6, false, false, 2_800);
    app.handle_mouse(&mut pointer, left, 40, 6, false, false, 2_900);
    assert_eq!(app.selected_track().unwrap().note_count(), 1);
    assert_eq!(app.selected_notes.len(), 1);
    // The drag began before the click selected the note: it scrolls,
    // and only the double click was recorded.
    assert!(matches!(app.drag_state, DragState::Scrolling { .. }));
    assert_eq!(app.history.undo_count(), 1);

    // A drag that begins on the selected note moves it.
    app.handle_mouse(&mut pointer, MouseAction::Up(MouseButton::Left), 40, 6, false, false, 3_000);
    app.handle_mouse(&mut pointer, left, 41, 6, false, false, 4_000);
    assert!(matches!(app.drag_state, DragState::MovingNotes { .. }));
    assert_eq!(app.history.undo_count(), 2);
    app.handle_mouse(&mut pointer, MouseAction::Drag(MouseButton::Left), 43, 6, false, false, 4_100);
    assert_eq!(app.selected_track().unwrap().notes()[0].start_tick, 720);
    app.last_modified = None;
    app.handle_mouse(&mut pointer, MouseAction::Up(MouseButton::Left), 43, 6, false, false, 4_200);
    assert_eq!(app.last_modified, Some(5));

    // The right button changes the mode.
    let right = MouseAction::Down(MouseButton::Right);
    app.handle_mouse(&mut pointer, right, 0, 0, false, false, 5_000);
    assert_eq!(app.edit_mode, EditMode::Insert);
    assert!(matches!(app.status_message, Some((Notice::InsertModeByMouse, 5))));
    app.handle_mouse(&mut pointer, right, 0, 0, false, false, 5_000);
    assert_eq!(app.edit_mode, EditMode::Normal);
    assert!(matches!(app.status_message, Some((Notice::NormalMode, 5))));
    app.edit_mode = EditMode::Select;
    app.handle_mouse(&mut pointer, right, 0, 0, false, false, 5_000);
    assert_eq!(app.edit_mode, EditMode::Normal);

    // The middle button drags without a click.
    app.clear_selection();
    app.handle_mouse(&mut pointer, MouseAction::Down(MouseButton::Middle), 50, 8, true, false, 6_000);
    assert_eq!(app.drag_state, DragState::Scrolling { last_x: 50, last_y: 8 });
    assert_eq!((app.cursor_tick, app.cursor_pitch), (600, 60));
    app.handle_mouse(&mut pointer, MouseAction::Drag(MouseButton::Middle), 50, 9, false, false, 6_100);
    assert_eq!(app.scroll_y, 47);
    app.handle_mouse(&mut pointer, MouseAction::Up(MouseButton::Middle), 50, 9, false, false, 6_200);
    assert_eq!(app.drag_state, DragState::Idle);
    app.handle_mouse(&mut pointer, MouseAction::Up(MouseButton::Right), 50, 9, false, false, 6_200);
    app.handle_mouse(&mut pointer, MouseAction::Other, 50, 9, false, false, 6_200);
    assert_eq!(app.scroll_y, 47);
}

#[test]
fn the_wheel_of_the_mouse() {
    let mut app = editor();
    let mut pointer = Pointer::new();
    app.handle_mouse(&mut pointer, MouseAction::ScrollUp, 50, 10, false, false, 0);
    assert_eq!(app.scroll_y, 49);
    app.handle_mouse(&mut pointer, MouseAction::ScrollDown, 50, 10, false, false, 0);
    app.handle_mouse(&mut pointer, MouseAction::ScrollDown, 50, 10, false, false, 0);
    assert_eq!(app.scroll_y, 47);
    app.handle_mouse(&mut pointer, MouseAction::ScrollRight, 50, 10, false, false, 0);
    app.handle_mouse(&mut pointer, MouseAction::ScrollRight, 50, 10, false, false, 0);
    app.handle_mouse(&mut pointer, MouseAction::ScrollLeft, 50, 10, false, false, 0);
    assert_eq!(app.scroll_x, 120);
    app.handle_mouse(&mut pointer, MouseAction::ScrollUp, 50, 10, false, true, 0);
    assert_eq!(app.zoom, 96);
    app.handle_mouse(&mut pointer, MouseAction::ScrollDown, 50, 10, true, true, 0);
    assert_eq!(app.zoom, 120);
    app.handle_mouse(&mut pointer, MouseAction::ScrollUp, 50, 1, false, false, 0);
    assert_eq!(app.project().tempo, 121);
}

#[test]
fn the_file_that_a_save_goes_to() {
    let mut app = App::new();
    assert!(app.save_target("/fonts/a.sf2").is_none());
    assert!(app.project().get_soundfont_path().is_none());
    app.open_save_dialog(Some("song"));
    let (name, format) = app.save_target("/fonts/a.sf2").unwrap();
    assert_eq!((name.as_str(), format), ("song.json", SaveFormat::Json));
    assert_eq!(app.project().get_soundfont_path(), Some("/fonts/a.sf2"));
    assert!(app.save_dialog.open);
    app.save_dialog_toggle_format();
    let (name, format) = app.save_target("/fonts/b.sf2").unwrap();
    assert_eq!((name.as_str(), format), ("song.oxm", SaveFormat::Oxm));
    assert_eq!(app.project().get_soundfont_path(), Some("/fonts/b.sf2"));
    app.save_dialog_toggle_format();
    let (name, format) = app.save_target("/fonts/c.sf2").unwrap();
    assert_eq!((name.as_str(), format), ("song.mid", SaveFormat::Midi));
    assert_eq!(app.project().get_soundfont_path(), Some("/fonts/b.sf2"));
    for _ in 0..4 {
        app.save_dialog_backspace();
    }
    assert!(app.save_target("/fonts/d.sf2").is_none());
    app.save_dialog_input('x');
    app.save_dialog_cancel();
    assert!(app.save_target("/fonts/d.sf2").is_none());
}

#[test]
fn the_format_of_a_file_to_load() {
    use_format(Some("oxm"), SaveFormat::Oxm);
    use_format(Some("mid"), SaveFormat::Midi);
    use_format(Some("midi"), SaveFormat::Midi);
    use_format(Some("json"), SaveFormat::Json);
    use_format(Some("txt"), SaveFormat::Json);
    use_format(Some("MID"), SaveFormat::Json);
    use_format(Some(""), SaveFormat::Json);
    use_format(None, SaveFormat::Json);
}

fn use_format(extension: Option<&str>, format: SaveFormat) {
    assert_eq!(miditui::app::screen::format_of_extension(extension), format);
}

#[test]
fn steps_in_a_list() {
    use_steps();
}

fn use_steps() {
    let (up, down) = (miditui::app::dialogs::step_up, miditui::app::dialogs::step_down);
    assert_eq!(up(0, 0), (0, 0));
    assert_eq!(up(5, 5), (4, 4));
    assert_eq!(up(5, 2), (4, 2));
    assert_eq!(down(0, 0, 0, 20), (0, 0));
    assert_eq!(down(0, 0, 1, 20), (0, 0));
    assert_eq!(down(18, 0, 30, 20), (19, 0));
    assert_eq!(down(19, 0, 30, 20), (20, 1));
    assert_eq!(down(29, 10, 30, 20), (29, 10));
    assert_eq!(down(3, 9, 30, 1), (4, 9));
    assert_eq!(down(9, 9, 30, 1), (10, 10));
    assert_eq!(down(usize::MAX, 0, 3, 20), (usize::MAX, 0));
}

#[test]
fn browsers_open_and_select() {
    let mut app = App::new();
    assert!(matches!(app.file_browser_selection(), Selection::Nothing));
    app.open_file_browser("/songs".to_string(), entries(&["..", "/songs/old", "/songs/a.json"]));
    assert!(app.file_browser.open);
    assert_eq!(app.file_browser.current_dir, "/songs");
    assert_eq!((app.file_browser.selected, app.file_browser.scroll), (0, 0));
    assert!(matches!(app.file_browser_selection(), Selection::Parent));
    app.file_browser_down();
    assert!(matches!(app.file_browser_selection(), Selection::Entry(e) if e == "/songs/old"));
    app.file_browser_down();
    app.file_browser_down();
    assert!(matches!(app.file_browser_selection(), Selection::Entry(e) if e == "/songs/a.json"));
    app.file_browser.selected = 3;
    assert!(matches!(app.file_browser_selection(), Selection::Nothing));
    app.file_browser.selected = 1;
    app.file_browser_cancel();
    assert!(matches!(app.file_browser_selection(), Selection::Nothing));
    app.open_file_browser("/".to_string(), Vec::new());
    assert!(matches!(app.file_browser_selection(), Selection::Nothing));

    app.open_soundfont_dialog(true, "/fonts".to_string(), entries(&["...", ".."]));
    assert!(app.soundfont_dialog.open && app.soundfont_dialog.is_first_load);
    assert!(matches!(app.soundfont_dialog_selection(), Selection::Entry(e) if e == "..."));
    app.soundfont_dialog_down();
    assert!(matches!(app.soundfont_dialog_selection(), Selection::Parent));
    app.open_soundfont_dialog(false, "/".to_string(), entries(&["a.sf2"]));
    assert!(!app.soundfont_dialog.is_first_load);
    assert_eq!(app.soundfont_dialog.selected, 0);
}

#[test]
fn a_recovered_project_and_a_new_soundfont() {
    let mut app = App::new();
    app.set_now(4);
    app.place_note();
    app.add_track();
    app.cursor_tick = 960;
    app.scroll_x = 480;
    app.toggle_playback();
    let undone = app.history.undo_count();

    let mut ids = IdAllocator::new();
    let mut project = Project::with_default_track(&mut ids, "Saved");
    project.track_at_mut(0).unwrap().program = 9;
    let commands = app.recover_project(project);
    assert_eq!(
        commands,
        vec![
            SynthCommand::SetProgram { channel: 0, program: 9 },
            SynthCommand::SetVolume { channel: 0, volume: 100 },
            SynthCommand::SetPan { channel: 0, pan: 64 },
        ]
    );
    assert_eq!(app.project().name, "Saved");
    assert_eq!((app.selected_track_index, app.cursor_tick, app.scroll_x), (0, 0, 0));
    assert!(app.selected_notes.is_empty());
    assert!(matches!(app.status_message, Some((Notice::RecoveredFromAutosave, 4))));
    // History and playback are left as they are.
    assert_eq!(app.history.undo_count(), undone);
    assert_eq!(app.transport.playback_state(), PlaybackState::Playing);

    app.handle_note_key('z');
    app.update_sequencer();
    let commands = app.soundfont_loaded("/fonts/b.sf2", "b.sf2");
    assert_eq!(commands.len(), 3);
    assert_eq!(commands[0], SynthCommand::SetProgram { channel: 0, program: 9 });
    assert_eq!(app.project().get_soundfont_path(), Some("/fonts/b.sf2"));
    assert_eq!(app.transport.playback_state(), PlaybackState::Stopped);
    assert_eq!(app.transport.position_ticks(), 0);
    assert!(app.playback_start_time.is_none() && app.last_sequencer_tick.is_none());
    assert!(app.held_notes.is_empty() && app.active_tracks.is_empty());
    assert!(matches!(&app.status_message, Some((Notice::SoundfontLoaded { name }, 4)) if name == "b.sf2"));
    assert_eq!(app.project().name, "Saved");
}

#[test]
fn the_position_of_the_cursor_as_text() {
    let mut app = App::new();
    assert_eq!(app.position_string(), "1:01:000");
    app.cursor_tick = 480 * 4 * 11 + 480 * 2 + 7;
    assert_eq!(app.position_string(), "12:03:007");
    app.cursor_tick = u32::MAX;
    assert_eq!(app.position_string(), "2236963:01:255");
    app.project_mut().time_sig_numerator = 16;
    app.project_mut().time_sig_denominator = 1;
    app.cursor_tick = 1920 * 16 - 1;
    assert_eq!(app.position_string(), "1:64:479");
    app.cursor_tick = 480 * 99;
    assert_eq!(app.position_string(), "2:36:000");
    app.selected_track_mut().unwrap().volume = 3;
    assert_eq!(app.project().track_at(0).unwrap().volume, 3);
    app.selected_track_index = 5;
    assert!(app.selected_track_mut().is_none());
}

/// A sequence of numbers that looks random and is the same every time.
struct Numbers(u64);

impl Numbers {
    fn next(&mut self, below: u64) -> u64 {
        self.0 = self.0.wrapping_mul(6364136223846793005).wrapping_add(1442695040888963407);
        (self.0 >> 33) % below
    }
}

fn in_order(app: &App) -> bool {
    app.project()
        .tracks()
        .iter()
        .all(|t| t.notes().windows(2).all(|w| w[0].start_tick <= w[1].start_tick))
}

#[test]
fn keys_and_mouse_keep_every_track_in_order() {
    let keys: Vec<Key> = "ivhlkjHL0$JKadxrgtmsn=+-,/[]{}|<>;'()eWzsxdcvgbqw2e3rAD?. c"
        .chars()
        .map(Key::Char)
        .chain([
            Key::Left,
            Key::Right,
            Key::Up,
            Key::Down,
            Key::Enter,
            Key::Esc,
            Key::Tab,
            Key::Delete,
            Key::Backspace,
        ])
        .collect();
    let actions = [
        MouseAction::Down(MouseButton::Left),
        MouseAction::Up(MouseButton::Left),
        MouseAction::Drag(MouseButton::Left),
        MouseAction::Down(MouseButton::Right),
        MouseAction::Down(MouseButton::Middle),
        MouseAction::Drag(MouseButton::Middle),
        MouseAction::Up(MouseButton::Middle),
        MouseAction::ScrollUp,
        MouseAction::ScrollDown,
        MouseAction::ScrollLeft,
        MouseAction::ScrollRight,
    ];
    let mut numbers = Numbers(7);
    let mut app = editor();
    let mut pointer = Pointer::new();
    let mut now = 0u64;
    let mut edits = 0;
    for step in 0..6000 {
        now += numbers.next(300);
        app.set_now(now * 1000);
        let modified = app.last_modified;
        if numbers.next(3) == 0 {
            let action = actions[numbers.next(actions.len() as u64) as usize];
            let (x, y) = (numbers.next(100) as u16, numbers.next(40) as u16);
            let shift = numbers.next(4) == 0;
            app.handle_mouse(&mut pointer, action, x, y, shift, numbers.next(8) == 0, now);
        } else {
            let key = keys[numbers.next(keys.len() as u64) as usize];
            let held = Modifiers { control: numbers.next(10) == 0, shift: numbers.next(5) == 0 };
            app.handle_key_press(key, held);
        }
        if numbers.next(7) == 0 {
            app.update_sequencer();
            app.update_insert_recording();
        }
        if app.last_modified != modified {
            edits += 1;
        }
        assert!(in_order(&app), "step {step}");
        assert!(app.history.undo_count() <= 8 && app.history.redo_count() <= 8);
        assert!(app.project().track_count() >= 1);
        assert!((20..=300).contains(&app.project().tempo));
        assert!((1..=16).contains(&app.project().time_sig_numerator));
        assert!([1, 2, 4, 8, 16, 32].contains(&app.project().time_sig_denominator));
        assert!((30..=1920).contains(&app.zoom));
        assert!((-4..=4).contains(&app.octave_offset));
    }
    assert!(edits > 200, "{edits}");
}

//! What the keys of the keyboard do to the editor.
//!
//! A key stands for a command: which one depends on the editing mode
//! and on the control and shift keys. Some keys mean the same in every
//! mode; the others have a meaning in normal mode, in insert mode or in
//! select mode. A command changes the editor, tells the synthesizer
//! what to do, or asks the application for something that the editor
//! cannot do itself: to end, to save, to load or to export.

use vstd::prelude::*;
use super::editing::{
    cursor_note_deleted, denominator_cycled, has_selected_track, mute_toggled, note_index_at,
    note_placed, numerator_adjusted, pan_adjusted, redone, rename_started, selected_view,
    selection_deleted, selection_lengthened, selection_moved, selection_transposed, selection_with,
    solo_toggled, tempo_adjusted, track_added, track_deleted, undone, volume_adjusted,
};
use super::mouse::{less, zoom_shown};
use super::playback::{
    instrument_cycled, note_key_pressed, notes_released, playback_restarted, playback_stopped,
    playback_toggled, recording_end,
};
use super::{
    cursor_moved, cursor_raised, highlight_cycled, octave_changed, track_rows_toggled, view_toggled,
    with_notice, zoomed, App, EditMode, FocusedPanel, NewProjectDialogState, Notice,
};
use crate::audio::engine::SynthCommand;
use crate::midi::project::max_track_end;
use crate::midi::TICKS_PER_WHOLE;

verus! {

broadcast use vstd::std_specs::hash::group_hash_axioms;

/// A key of the keyboard.
#[derive(Debug, Clone, Copy, PartialEq, Eq, Structural)]
pub enum Key {
    /// A key that gives a character.
    Char(char),
    Left,
    Right,
    Up,
    Down,
    Enter,
    Esc,
    Tab,
    Delete,
    Backspace,
    PageUp,
    PageDown,
    Home,
    /// Any other key.
    Other,
}

/// The keys that are held while another is pressed.
#[derive(Debug, Clone, Copy, PartialEq, Eq, Structural)]
pub struct Modifiers {
    pub control: bool,
    pub shift: bool,
}

/// What a key asks for.
#[derive(Debug, Clone, Copy, PartialEq, Eq, Structural)]
pub enum Command {
    /// The key means nothing.
    Nothing,
    Quit,
    Undo,
    Redo,
    ToggleHelp,
    /// Back to normal mode.
    Escape,
    FocusNext,
    Restart,
    PlayPause,
    Stop,
    ExportAudio,
    ExportMidi,
    OpenSaveDialog,
    OpenFileBrowser,
    OpenNewProjectDialog,
    OpenSoundfontDialog,
    InsertMode,
    SelectMode,
    /// The cursor a column to the left.
    CursorLeft,
    CursorRight,
    CursorUp,
    CursorDown,
    /// The cursor a measure of four beats to the left.
    MeasureLeft,
    MeasureRight,
    /// The cursor and the view to tick 0.
    CursorHome,
    /// The cursor to the end of the project.
    CursorEnd,
    NextTrack,
    PreviousTrack,
    AddTrack,
    DeleteTrack,
    RenameTrack,
    ToggleView,
    ToggleTrackRows,
    ToggleMute,
    ToggleSolo,
    PlaceNote,
    DeleteNote,
    ZoomIn,
    ZoomOut,
    OctaveDown,
    OctaveUp,
    TempoDown,
    TempoUp,
    FewerBeats,
    MoreBeats,
    NextBeatUnit,
    PreviousInstrument,
    NextInstrument,
    VolumeDown,
    VolumeUp,
    PanLeft,
    PanRight,
    CycleHighlight,
    /// A key that may play a note.
    NoteKey(char),
    ShortenNotes,
    LengthenNotes,
    /// The selected notes a semitone up, or else the cursor.
    NotesUp,
    NotesDown,
    /// The selected notes a column to the left, or else the cursor.
    NotesLeft,
    NotesRight,
    /// The note under the cursor in or out of the selection.
    ToggleNote,
    DeleteSelection,
    ClearSelection,
}

/// What the application has to do after a key.
#[derive(Debug, Clone, Copy, PartialEq, Eq, Structural)]
pub enum Request {
    Nothing,
    /// End the program.
    Quit,
    /// Render the project to an audio file.
    ExportAudio,
    /// Write the project to a MIDI file.
    ExportMidi,
    /// Open the save dialog on a name for the project.
    OpenSaveDialog,
    /// Open the browser for project files on the current directory.
    OpenFileBrowser,
    /// Open the browser for SoundFonts on the current directory.
    OpenSoundfontDialog,
    /// Save the project under the name and in the format of the save
    /// dialog.
    SaveProject,
    /// Enter the directory or load the project that is selected in the
    /// browser for project files.
    LoadSelected,
    /// Enter the directory or load the SoundFont that is selected in
    /// the browser for SoundFonts.
    SelectSoundfont,
    /// Forget the file of the project: a new project has begun.
    ProjectReset,
}

/// The command of a key that means the same in every mode, if `key` is
/// such a key. The letter `q` alone ends the program in normal mode
/// only, and the full stop stops playback in normal mode only.
pub open spec fn global_command(mode: EditMode, key: Key, held: Modifiers) -> Option<Command> {
    if held.control && (key == Key::Char('c') || key == Key::Char('q')) {
        Some(Command::Quit)
    } else if key == Key::Char('q') && mode == EditMode::Normal {
        Some(Command::Quit)
    } else if held.control && key == Key::Char('z') {
        Some(Command::Undo)
    } else if held.control && key == Key::Char('y') {
        Some(Command::Redo)
    } else if key == Key::Char('?') {
        Some(Command::ToggleHelp)
    } else if key == Key::Esc {
        Some(Command::Escape)
    } else if key == Key::Tab {
        Some(Command::FocusNext)
    } else if key == Key::Char(' ') {
        Some(
            if held.shift {
                Command::Restart
            } else {
                Command::PlayPause
            },
        )
    } else if key == Key::Char('.') && mode == EditMode::Normal {
        Some(Command::Stop)
    } else if held.control && key == Key::Char('e') {
        Some(Command::ExportAudio)
    } else if held.control && key == Key::Char('m') {
        Some(Command::ExportMidi)
    } else if held.control && key == Key::Char('s') {
        Some(Command::OpenSaveDialog)
    } else if held.control && key == Key::Char('o') {
        Some(Command::OpenFileBrowser)
    } else if held.control && key == Key::Char('n') {
        Some(Command::OpenNewProjectDialog)
    } else if held.control && key == Key::Char('l') {
        Some(Command::OpenSoundfontDialog)
    } else {
        None
    }
}

/// The command of a character in normal mode.
pub open spec fn normal_char(c: char, held: Modifiers) -> Command {
    if c == 'i' {
        Command::InsertMode
    } else if c == 'v' {
        Command::SelectMode
    } else if c == 'h' {
        Command::CursorLeft
    } else if c == 'l' {
        Command::CursorRight
    } else if c == 'k' {
        Command::CursorUp
    } else if c == 'j' {
        Command::CursorDown
    } else if c == 'H' {
        Command::MeasureLeft
    } else if c == 'L' {
        Command::MeasureRight
    } else if c == '0' {
        Command::CursorHome
    } else if c == '$' {
        Command::CursorEnd
    } else if c == 'J' {
        Command::NextTrack
    } else if c == 'K' {
        Command::PreviousTrack
    } else if c == 'a' {
        Command::AddTrack
    } else if c == 'd' || c == 'x' {
        Command::DeleteTrack
    } else if c == 'r' {
        Command::RenameTrack
    } else if c == 'g' {
        Command::ToggleView
    } else if c == 't' {
        Command::ToggleTrackRows
    } else if c == 'm' {
        Command::ToggleMute
    } else if c == 's' {
        Command::ToggleSolo
    } else if c == 'n' {
        Command::PlaceNote
    } else if c == '=' || c == '+' {
        Command::ZoomIn
    } else if c == '-' && !held.control {
        Command::ZoomOut
    } else if c == ',' {
        Command::OctaveDown
    } else if c == '/' {
        Command::OctaveUp
    } else if c == '[' {
        Command::TempoDown
    } else if c == ']' {
        Command::TempoUp
    } else if c == '{' {
        Command::FewerBeats
    } else if c == '}' {
        Command::MoreBeats
    } else if c == '|' {
        Command::NextBeatUnit
    } else if c == '<' {
        Command::PreviousInstrument
    } else if c == '>' {
        Command::NextInstrument
    } else if c == ';' {
        Command::VolumeDown
    } else if c == '\'' {
        Command::VolumeUp
    } else if c == '(' {
        Command::PanLeft
    } else if c == ')' {
        Command::PanRight
    } else if c == 'e' {
        Command::ExportAudio
    } else if c == 'W' {
        Command::CycleHighlight
    } else {
        Command::NoteKey(c)
    }
}

/// The command of a key in normal mode.
pub open spec fn normal_command(key: Key, held: Modifiers) -> Command {
    match key {
        Key::Char(c) => normal_char(c, held),
        Key::Left => Command::CursorLeft,
        Key::Right => Command::CursorRight,
        Key::Up => Command::CursorUp,
        Key::Down => Command::CursorDown,
        Key::Enter => Command::PlaceNote,
        Key::Delete => Command::DeleteNote,
        _ => Command::Nothing,
    }
}

/// The command of a key in insert mode: most characters play and place
/// a note.
pub open spec fn insert_command(key: Key) -> Command {
    match key {
        Key::Left => Command::CursorLeft,
        Key::Right => Command::CursorRight,
        Key::Up => Command::CursorUp,
        Key::Down => Command::CursorDown,
        Key::Char(c) => if c == ',' {
            Command::OctaveDown
        } else if c == '/' {
            Command::OctaveUp
        } else if c == '<' {
            Command::PreviousInstrument
        } else if c == '>' {
            Command::NextInstrument
        } else {
            Command::NoteKey(c)
        },
        _ => Command::Nothing,
    }
}

/// The command of a key in select mode.
pub open spec fn select_command(key: Key, held: Modifiers) -> Command {
    match key {
        Key::Char(c) => if c == 'A' && held.shift {
            Command::ShortenNotes
        } else if c == 'D' && held.shift {
            Command::LengthenNotes
        } else if c == 'w' {
            Command::NotesUp
        } else if c == 's' {
            Command::NotesDown
        } else if c == 'a' {
            Command::NotesLeft
        } else if c == 'd' {
            Command::NotesRight
        } else if c == 'h' {
            Command::CursorLeft
        } else if c == 'l' {
            Command::CursorRight
        } else if c == 'k' {
            Command::CursorUp
        } else if c == 'j' {
            Command::CursorDown
        } else if c == 'x' {
            Command::DeleteSelection
        } else if c == 'c' {
            Command::ClearSelection
        } else {
            Command::Nothing
        },
        Key::Left => Command::CursorLeft,
        Key::Right => Command::CursorRight,
        Key::Up => Command::CursorUp,
        Key::Down => Command::CursorDown,
        Key::Enter => Command::ToggleNote,
        Key::Delete => Command::DeleteSelection,
        _ => Command::Nothing,
    }
}

/// The command of a key: that of a key that means the same in every
/// mode, or else the one that the key has in `mode`.
pub open spec fn command_of(mode: EditMode, key: Key, held: Modifiers) -> Command {
    match global_command(mode, key, held) {
        Some(command) => command,
        None => match mode {
            EditMode::Normal => normal_command(key, held),
            EditMode::Insert => insert_command(key),
            EditMode::Select => select_command(key, held),
        },
    }
}

/// The panel that takes the focus after `panel`.
pub open spec fn next_panel(panel: FocusedPanel) -> FocusedPanel {
    match panel {
        FocusedPanel::TrackList => FocusedPanel::Timeline,
        FocusedPanel::Timeline => FocusedPanel::PianoRoll,
        FocusedPanel::PianoRoll => FocusedPanel::Keyboard,
        FocusedPanel::Keyboard => FocusedPanel::TrackList,
    }
}

/// The ticks by which a step of one column moves: the ticks of a
/// column, held at the largest `i32`.
pub open spec fn column_step(zoom: u32) -> i32 {
    if zoom > i32::MAX {
        i32::MAX
    } else {
        zoom as i32
    }
}

/// What the application has to do after `command`.
pub open spec fn request_of(command: Command) -> Request {
    match command {
        Command::Quit => Request::Quit,
        Command::ExportAudio => Request::ExportAudio,
        Command::ExportMidi => Request::ExportMidi,
        Command::OpenSaveDialog => Request::OpenSaveDialog,
        Command::OpenFileBrowser => Request::OpenFileBrowser,
        Command::OpenSoundfontDialog => Request::OpenSoundfontDialog,
        _ => Request::Nothing,
    }
}

/// What going back to normal mode makes of the editor: nothing in
/// normal mode; else a recording ends, every held key is let go, and a
/// notice is given.
pub open spec fn escaped(before: App, after: App, commands: Seq<SynthCommand>) -> bool {
    if before.edit_mode == EditMode::Normal {
        after == before && commands.len() == 0
    } else {
        &&& notes_released(
            App { edit_mode: EditMode::Normal, ..recording_end(before) },
            App { status_message: before.status_message, ..after },
            commands,
        )
        &&& after.status_message == Some((Notice::NormalMode, before.now_micros))
    }
}

/// What the edit of the selected notes that `command` asks for makes
/// of the editor.
pub open spec fn selection_edit(before: App, after: App, command: Command) -> bool {
    let step = column_step(before.zoom);
    match command {
        Command::ShortenNotes => selection_lengthened(before, after, (-step) as i32),
        Command::LengthenNotes => selection_lengthened(before, after, step),
        Command::NotesUp => selection_transposed(before, after, 1i8),
        Command::NotesDown => selection_transposed(before, after, -1i8),
        Command::NotesLeft => selection_moved(before, after, (-step) as i32),
        Command::NotesRight => selection_moved(before, after, step),
        _ => false,
    }
}

/// The notice of an edit of the selected notes.
pub open spec fn edit_notice(command: Command) -> Notice {
    match command {
        Command::ShortenNotes => Notice::DurationReduced,
        Command::LengthenNotes => Notice::DurationExpanded,
        Command::NotesUp => Notice::MovedNotesUp,
        Command::NotesDown => Notice::MovedNotesDown,
        Command::NotesLeft => Notice::MovedNotesLeft,
        _ => Notice::MovedNotesRight,
    }
}

/// What an edit of the selected notes makes of the editor when a
/// notice follows it: the edit as it is without the notice, and the
/// notice; nothing where nothing is selected.
pub open spec fn selection_changed(before: App, after: App, command: Command) -> bool {
    if before.selected_notes@.len() == 0 {
        after == before
    } else {
        &&& selection_edit(
            before,
            App { status_message: before.status_message, ..after },
            command,
        )
        &&& after.status_message == Some((edit_notice(command), before.now_micros))
    }
}

/// What the toggling of the note under the cursor makes of the editor:
/// nothing where there is no note.
pub open spec fn note_toggled(before: App, after: App) -> bool {
    let notes = selected_view(before).notes;
    let i = note_index_at(notes, before.cursor_pitch, before.cursor_tick, 0);
    if has_selected_track(before) && i < notes.len() {
        let id = notes[i].id.0;
        &&& after.selected_notes@ == selection_with(before.selected_notes@, id, true)
        &&& after == (App {
            selected_notes: after.selected_notes,
            status_message: Some(
                (
                    Notice::NoteToggled { selected: !before.selected_notes@.contains(id) },
                    before.now_micros,
                ),
            ),
            ..before
        })
    } else {
        after == before
    }
}

/// What `command` makes of the editor, and what the synthesizer has to
/// do. A command that is a request to the application leaves the
/// editor as it is.
pub open spec fn performed(
    before: App,
    after: App,
    commands: Seq<SynthCommand>,
    command: Command,
) -> bool {
    let step = column_step(before.zoom);
    let quiet = commands.len() == 0;
    let chosen = before.selected_notes@.len() > 0;
    match command {
        Command::Nothing | Command::Quit | Command::ExportAudio | Command::ExportMidi
        | Command::OpenSaveDialog | Command::OpenFileBrowser | Command::OpenSoundfontDialog => after
            == before && quiet,
        Command::ToggleHelp => quiet && after == (App { show_help: !before.show_help, ..before }),
        Command::Undo => exists|done: bool| #[trigger] undone(before, after, done, commands),
        Command::Redo => exists|done: bool| #[trigger] redone(before, after, done, commands),
        Command::Escape => escaped(before, after, commands),
        Command::FocusNext => quiet && after == (App {
            focused_panel: next_panel(before.focused_panel),
            ..before
        }),
        Command::Restart => playback_restarted(before, after, commands),
        Command::PlayPause => playback_toggled(before, after, commands),
        Command::Stop => playback_stopped(before, after, commands),
        Command::OpenNewProjectDialog => quiet && after == (App {
            new_project_dialog: NewProjectDialogState { open: true, selected: 1 },
            ..before
        }),
        Command::InsertMode => quiet && after == with_notice(
            App { edit_mode: EditMode::Insert, ..before },
            Notice::InsertMode,
        ),
        Command::SelectMode => quiet && after == with_notice(
            App { edit_mode: EditMode::Select, ..before },
            Notice::SelectMode,
        ),
        Command::CursorLeft => quiet && cursor_moved(before, after, (-step) as i32),
        Command::CursorRight => quiet && cursor_moved(before, after, step),
        Command::CursorUp => quiet && cursor_raised(before, after, 1i8),
        Command::CursorDown => quiet && cursor_raised(before, after, -1i8),
        Command::MeasureLeft => quiet && cursor_moved(before, after, -1920i32),
        Command::MeasureRight => quiet && cursor_moved(before, after, 1920i32),
        Command::CursorHome => quiet && after == (App { cursor_tick: 0, scroll_x: 0, ..before }),
        Command::CursorEnd => quiet && after == (App {
            cursor_tick: max_track_end(before.project@.tracks),
            ..before
        }),
        Command::NextTrack => quiet && after == (App {
            selected_track_index: if before.selected_track_index < less(
                before.project.tracks@.len() as int,
                1,
            ) {
                (before.selected_track_index + 1) as usize
            } else {
                before.selected_track_index
            },
            ..before
        }),
        Command::PreviousTrack => quiet && after == (App {
            selected_track_index: if before.selected_track_index > 0 {
                (before.selected_track_index - 1) as usize
            } else {
                before.selected_track_index
            },
            ..before
        }),
        Command::AddTrack => quiet && track_added(before, after),
        Command::DeleteTrack => quiet && track_deleted(before, after),
        Command::RenameTrack => quiet && rename_started(before, after),
        Command::ToggleView => quiet && view_toggled(before, after),
        Command::ToggleTrackRows => quiet && track_rows_toggled(before, after),
        Command::ToggleMute => mute_toggled(before, after, commands, before.selected_track_index),
        Command::ToggleSolo => solo_toggled(before, after, commands, before.selected_track_index),
        Command::PlaceNote => note_placed(before, after, commands, "Place note"@),
        Command::DeleteNote => quiet && cursor_note_deleted(before, after),
        Command::ZoomIn => quiet && zoom_shown(before, after, zoomed(before.zoom, 1, 2)),
        Command::ZoomOut => quiet && zoom_shown(before, after, zoomed(before.zoom, 2, 1)),
        Command::OctaveDown => quiet && octave_changed(before, after, -1i8),
        Command::OctaveUp => quiet && octave_changed(before, after, 1i8),
        Command::TempoDown => quiet && tempo_adjusted(before, after, -5i32),
        Command::TempoUp => quiet && tempo_adjusted(before, after, 5i32),
        Command::FewerBeats => quiet && numerator_adjusted(before, after, -1i8),
        Command::MoreBeats => quiet && numerator_adjusted(before, after, 1i8),
        Command::NextBeatUnit => quiet && denominator_cycled(before, after),
        Command::PreviousInstrument => instrument_cycled(before, after, commands, -1i8),
        Command::NextInstrument => instrument_cycled(before, after, commands, 1i8),
        Command::VolumeDown => volume_adjusted(before, after, commands, -5i16),
        Command::VolumeUp => volume_adjusted(before, after, commands, 5i16),
        Command::PanLeft => pan_adjusted(before, after, commands, -8i16),
        Command::PanRight => pan_adjusted(before, after, commands, 8i16),
        Command::CycleHighlight => quiet && highlight_cycled(before, after),
        Command::NoteKey(c) => exists|played: bool| #[trigger]
            note_key_pressed(before, after, played, commands, c),
        Command::ShortenNotes | Command::LengthenNotes => quiet && selection_changed(
            before,
            after,
            command,
        ),
        Command::DeleteSelection => quiet && selection_deleted(before, after),
        Command::NotesUp => quiet && if chosen {
            selection_changed(before, after, command)
        } else {
            cursor_raised(before, after, 1i8)
        },
        Command::NotesDown => quiet && if chosen {
            selection_changed(before, after, command)
        } else {
            cursor_raised(before, after, -1i8)
        },
        Command::NotesLeft => quiet && if chosen {
            selection_changed(before, after, command)
        } else {
            cursor_moved(before, after, (-step) as i32)
        },
        Command::NotesRight => quiet && if chosen {
            selection_changed(before, after, command)
        } else {
            cursor_moved(before, after, step)
        },
        Command::ToggleNote => quiet && note_toggled(before, after),
        Command::ClearSelection => {
            &&& quiet
            &&& after.selected_notes@ == Set::<u64>::empty()
            &&& after == (App {
                selected_notes: after.selected_notes,
                status_message: Some((Notice::SelectionCleared, before.now_micros)),
                ..before
            })
        },
    }
}

/// The part of the editor that a command is about.
#[derive(Debug, Clone, Copy, PartialEq, Eq, Structural)]
pub enum CommandKind {
    /// View, cursor, mode and focus, and the requests to the
    /// application.
    View,
    /// Transport, history and the keys that play.
    Play,
    /// Tracks, tempo and time signature.
    Mix,
    /// Notes.
    Edit,
}

/// The part of the editor that `command` is about.
pub open spec fn kind_of(command: Command) -> CommandKind {
    match command {
        Command::Undo | Command::Redo | Command::Escape | Command::Restart | Command::PlayPause
        | Command::Stop | Command::NoteKey(_) => CommandKind::Play,
        Command::AddTrack | Command::DeleteTrack | Command::RenameTrack | Command::ToggleMute
        | Command::ToggleSolo | Command::TempoDown | Command::TempoUp | Command::FewerBeats
        | Command::MoreBeats | Command::NextBeatUnit | Command::PreviousInstrument
        | Command::NextInstrument | Command::VolumeDown | Command::VolumeUp | Command::PanLeft
        | Command::PanRight => CommandKind::Mix,
        Command::PlaceNote | Command::DeleteNote | Command::ShortenNotes | Command::LengthenNotes
        | Command::NotesUp | Command::NotesDown | Command::NotesLeft | Command::NotesRight
        | Command::ToggleNote | Command::DeleteSelection | Command::ClearSelection => CommandKind::Edit,
        _ => CommandKind::View,
    }
}

impl Command {
    /// What the application has to do after the command.
    pub fn request(&self) -> (request: Request)
        ensures
            request == request_of(*self),
    {
        match self {
            Command::Quit => Request::Quit,
            Command::ExportAudio => Request::ExportAudio,
            Command::ExportMidi => Request::ExportMidi,
            Command::OpenSaveDialog => Request::OpenSaveDialog,
            Command::OpenFileBrowser => Request::OpenFileBrowser,
            Command::OpenSoundfontDialog => Request::OpenSoundfontDialog,
            _ => Request::Nothing,
        }
    }

    /// The part of the editor that the command is about.
    pub fn kind(&self) -> (kind: CommandKind)
        ensures
            kind == kind_of(*self),
    {
        match self {
            Command::Undo | Command::Redo | Command::Escape | Command::Restart
            | Command::PlayPause | Command::Stop | Command::NoteKey(_) => CommandKind::Play,
            Command::AddTrack | Command::DeleteTrack | Command::RenameTrack | Command::ToggleMute
            | Command::ToggleSolo | Command::TempoDown | Command::TempoUp | Command::FewerBeats
            | Command::MoreBeats | Command::NextBeatUnit | Command::PreviousInstrument
            | Command::NextInstrument | Command::VolumeDown | Command::VolumeUp
            | Command::PanLeft | Command::PanRight => CommandKind::Mix,
            Command::PlaceNote | Command::DeleteNote | Command::ShortenNotes
            | Command::LengthenNotes | Command::NotesUp | Command::NotesDown | Command::NotesLeft
            | Command::NotesRight | Command::ToggleNote | Command::DeleteSelection
            | Command::ClearSelection => CommandKind::Edit,
            _ => CommandKind::View,
        }
    }
}

/// The command of a character that is held with the control key, if it
/// has one.
fn control_command(c: char) -> (command: Option<Command>)
    ensures
        command == (if c == 'c' || c == 'q' {
            Some(Command::Quit)
        } else if c == 'z' {
            Some(Command::Undo)
        } else if c == 'y' {
            Some(Command::Redo)
        } else if c == 'e' {
            Some(Command::ExportAudio)
        } else if c == 'm' {
            Some(Command::ExportMidi)
        } else if c == 's' {
            Some(Command::OpenSaveDialog)
        } else if c == 'o' {
            Some(Command::OpenFileBrowser)
        } else if c == 'n' {
            Some(Command::OpenNewProjectDialog)
        } else if c == 'l' {
            Some(Command::OpenSoundfontDialog)
        } else {
            None
        }),
{
    if c == 'c' || c == 'q' {
        Some(Command::Quit)
    } else if c == 'z' {
        Some(Command::Undo)
    } else if c == 'y' {
        Some(Command::Redo)
    } else if c == 'e' {
        Some(Command::ExportAudio)
    } else if c == 'm' {
        Some(Command::ExportMidi)
    } else if c == 's' {
        Some(Command::OpenSaveDialog)
    } else if c == 'o' {
        Some(Command::OpenFileBrowser)
    } else if c == 'n' {
        Some(Command::OpenNewProjectDialog)
    } else if c == 'l' {
        Some(Command::OpenSoundfontDialog)
    } else {
        None
    }
}

/// The command of a key that means the same in every mode, if `key` is
/// such a key.
fn global_key(mode: EditMode, key: Key, held: Modifiers) -> (command: Option<Command>)
    ensures
        command == global_command(mode, key, held),
{
    let normal = match mode {
        EditMode::Normal => true,
        _ => false,
    };
    match key {
        Key::Esc => Some(Command::Escape),
        Key::Tab => Some(Command::FocusNext),
        Key::Char(c) => {
            if held.control && (c == 'c' || c == 'q') {
                Some(Command::Quit)
            } else if c == 'q' && normal {
                Some(Command::Quit)
            } else if held.control && (c == 'z' || c == 'y') {
                control_command(c)
            } else if c == '?' {
                Some(Command::ToggleHelp)
            } else if c == ' ' {
                if held.shift {
                    Some(Command::Restart)
                } else {
                    Some(Command::PlayPause)
                }
            } else if c == '.' && normal {
                Some(Command::Stop)
            } else if held.control {
                control_command(c)
            } else {
                None
            }
        },
        _ => None,
    }
}

/// The command of a character in normal mode.
fn normal_key(c: char, held: Modifiers) -> (command: Command)
    ensures
        command == normal_char(c, held),
{
    if c == 'i' {
        Command::InsertMode
    } else if c == 'v' {
        Command::SelectMode
    } else if c == 'h' {
        Command::CursorLeft
    } else if c == 'l' {
        Command::CursorRight
    } else if c == 'k' {
        Command::CursorUp
    } else if c == 'j' {
        Command::CursorDown
    } else if c == 'H' {
        Command::MeasureLeft
    } else if c == 'L' {
        Command::MeasureRight
    } else if c == '0' {
        Command::CursorHome
    } else if c == '$' {
        Command::CursorEnd
    } else if c == 'J' {
        Command::NextTrack
    } else if c == 'K' {
        Command::PreviousTrack
    } else if c == 'a' {
        Command::AddTrack
    } else if c == 'd' || c == 'x' {
        Command::DeleteTrack
    } else if c == 'r' {
        Command::RenameTrack
    } else if c == 'g' {
        Command::ToggleView
    } else if c == 't' {
        Command::ToggleTrackRows
    } else if c == 'm' {
        Command::ToggleMute
    } else if c == 's' {
        Command::ToggleSolo
    } else if c == 'n' {
        Command::PlaceNote
    } else if c == '=' || c == '+' {
        Command::ZoomIn
    } else if c == '-' && !held.control {
        Command::ZoomOut
    } else if c == ',' {
        Command::OctaveDown
    } else if c == '/' {
        Command::OctaveUp
    } else if c == '[' {
        Command::TempoDown
    } else if c == ']' {
        Command::TempoUp
    } else if c == '{' {
        Command::FewerBeats
    } else if c == '}' {
        Command::MoreBeats
    } else if c == '|' {
        Command::NextBeatUnit
    } else if c == '<' {
        Command::PreviousInstrument
    } else if c == '>' {
        Command::NextInstrument
    } else if c == ';' {
        Command::VolumeDown
    } else if c == '\'' {
        Command::VolumeUp
    } else if c == '(' {
        Command::PanLeft
    } else if c == ')' {
        Command::PanRight
    } else if c == 'e' {
        Command::ExportAudio
    } else if c == 'W' {
        Command::CycleHighlight
    } else {
        Command::NoteKey(c)
    }
}

/// The command of a key in a mode, for a key that does not mean the
/// same in every mode.
fn mode_key(mode: EditMode, key: Key, held: Modifiers) -> (command: Command)
    ensures
        command == (match mode {
            EditMode::Normal => normal_command(key, held),
            EditMode::Insert => insert_command(key),
            EditMode::Select => select_command(key, held),
        }),
{
    match key {
        Key::Left => Command::CursorLeft,
        Key::Right => Command::CursorRight,
        Key::Up => Command::CursorUp,
        Key::Down => Command::CursorDown,
        Key::Enter => match mode {
            EditMode::Normal => Command::PlaceNote,
            EditMode::Insert => Command::Nothing,
            EditMode::Select => Command::ToggleNote,
        },
        Key::Delete => match mode {
            EditMode::Normal => Command::DeleteNote,
            EditMode::Insert => Command::Nothing,
            EditMode::Select => Command::DeleteSelection,
        },
        Key::Char(c) => match mode {
            EditMode::Normal => normal_key(c, held),
            EditMode::Insert => {
                if c == ',' {
                    Command::OctaveDown
                } else if c == '/' {
                    Command::OctaveUp
                } else if c == '<' {
                    Command::PreviousInstrument
                } else if c == '>' {
                    Command::NextInstrument
                } else {
                    Command::NoteKey(c)
                }
            },
            EditMode::Select => {
                if c == 'A' && held.shift {
                    Command::ShortenNotes
                } else if c == 'D' && held.shift {
                    Command::LengthenNotes
                } else if c == 'w' {
                    Command::NotesUp
                } else if c == 's' {
                    Command::NotesDown
                } else if c == 'a' {
                    Command::NotesLeft
                } else if c == 'd' {
                    Command::NotesRight
                } else if c == 'h' {
                    Command::CursorLeft
                } else if c == 'l' {
                    Command::CursorRight
                } else if c == 'k' {
                    Command::CursorUp
                } else if c == 'j' {
                    Command::CursorDown
                } else if c == 'x' {
                    Command::DeleteSelection
                } else if c == 'c' {
                    Command::ClearSelection
                } else {
                    Command::Nothing
                }
            },
        },
        _ => Command::Nothing,
    }
}

/// The command of a key in a mode.
pub fn key_command(mode: EditMode, key: Key, held: Modifiers) -> (command: Command)
    ensures
        command == command_of(mode, key, held),
{
    match global_key(mode, key, held) {
        Some(command) => command,
        None => mode_key(mode, key, held),
    }
}

impl App {
    /// The ticks by which a step of one column moves.
    fn step(&self) -> (step: i32)
        ensures
            step == column_step(self.zoom),
            step >= 0,
    {
        if self.zoom > i32::MAX as u32 {
            i32::MAX
        } else {
            self.zoom as i32
        }
    }

    /// Goes back to normal mode.
    fn escape(&mut self) -> (commands: Vec<SynthCommand>)
        ensures
            escaped(*old(self), *final(self), commands@),
    {
        match self.edit_mode {
            EditMode::Normal => Vec::new(),
            _ => {
                self.stop_insert_recording();
                self.edit_mode = EditMode::Normal;
                let commands = self.release_all_notes();
                let ghost let_go = *self;
                self.set_status(Notice::NormalMode);
                proof {
                    assert(let_go == (App { status_message: old(self).status_message, ..*self }));
                }
                commands
            },
        }
    }

    /// Edits the selected notes as `command` says and gives the notice
    /// of it; nothing where nothing is selected.
    fn change_selection(&mut self, command: Command)
        requires
            command == Command::ShortenNotes || command == Command::LengthenNotes || command
                == Command::NotesUp || command == Command::NotesDown || command
                == Command::NotesLeft || command == Command::NotesRight,
        ensures
            selection_changed(*old(self), *final(self), command),
    {
        if self.selected_notes.len() == 0 {
            return;
        }
        let step = self.step();
        let notice = match command {
            Command::ShortenNotes => {
                self.adjust_selected_notes_duration(-step);
                Notice::DurationReduced
            },
            Command::LengthenNotes => {
                self.adjust_selected_notes_duration(step);
                Notice::DurationExpanded
            },
            Command::NotesUp => {
                self.transpose_selected_notes(1);
                Notice::MovedNotesUp
            },
            Command::NotesDown => {
                self.transpose_selected_notes(-1);
                Notice::MovedNotesDown
            },
            Command::NotesLeft => {
                self.move_selected_notes_horizontal(-step);
                Notice::MovedNotesLeft
            },
            _ => {
                self.move_selected_notes_horizontal(step);
                Notice::MovedNotesRight
            },
        };
        let ghost mid = *self;
        self.set_status(notice);
        proof {
            assert(selection_edit(*old(self), mid, command));
            assert(mid == (App { status_message: old(self).status_message, ..*self }));
        }
    }

    /// Takes the note under the cursor in or out of the selection.
    fn toggle_note(&mut self)
        ensures
            note_toggled(*old(self), *final(self)),
    {
        match self.note_at(self.cursor_pitch, self.cursor_tick) {
            Some(id) => {
                let selected = self.selected_notes.contains(&id.0);
                self.select_note(id, true);
                self.set_status(Notice::NoteToggled { selected: !selected });
            },
            None => {},
        }
    }

    /// Carries out a command that changes the view, the cursor, the
    /// mode or the focus, or that is a request to the application.
    fn perform_view(&mut self, command: Command) -> (commands: Vec<SynthCommand>)
        requires
            kind_of(command) == CommandKind::View,
        ensures
            performed(*old(self), *final(self), commands@, command),
    {
        let step = self.step();
        match command {
            Command::FocusNext => {
                self.focused_panel = match self.focused_panel {
                    FocusedPanel::TrackList => FocusedPanel::Timeline,
                    FocusedPanel::Timeline => FocusedPanel::PianoRoll,
                    FocusedPanel::PianoRoll => FocusedPanel::Keyboard,
                    FocusedPanel::Keyboard => FocusedPanel::TrackList,
                };
            },
            Command::ToggleHelp => {
                self.show_help = !self.show_help;
            },
            Command::OpenNewProjectDialog => {
                self.new_project_dialog.open();
            },
            Command::InsertMode => {
                self.edit_mode = EditMode::Insert;
                self.set_status(Notice::InsertMode);
            },
            Command::SelectMode => {
                self.edit_mode = EditMode::Select;
                self.set_status(Notice::SelectMode);
            },
            Command::CursorLeft => {
                self.move_cursor_horizontal(-step);
            },
            Command::CursorRight => {
                self.move_cursor_horizontal(step);
            },
            Command::CursorUp => {
                self.move_cursor_vertical(1);
            },
            Command::CursorDown => {
                self.move_cursor_vertical(-1);
            },
            Command::MeasureLeft => {
                self.move_cursor_horizontal(-(TICKS_PER_WHOLE as i32));
            },
            Command::MeasureRight => {
                self.move_cursor_horizontal(TICKS_PER_WHOLE as i32);
            },
            Command::CursorHome => {
                self.cursor_tick = 0;
                self.scroll_x = 0;
            },
            Command::CursorEnd => {
                self.cursor_tick = self.project.duration_ticks();
            },
            Command::NextTrack => {
                let count = self.project.tracks.len();
                if count > 0 && self.selected_track_index < count - 1 {
                    self.selected_track_index = self.selected_track_index + 1;
                }
            },
            Command::PreviousTrack => {
                if self.selected_track_index > 0 {
                    self.selected_track_index = self.selected_track_index - 1;
                }
            },
            Command::ToggleView => {
                self.toggle_view_mode();
            },
            Command::ToggleTrackRows => {
                self.toggle_expanded_tracks();
            },
            Command::ZoomIn => {
                self.zoom_by(1, 2);
                self.set_status(Notice::Zoom { ticks_per_column: self.zoom });
            },
            Command::ZoomOut => {
                self.zoom_by(2, 1);
                self.set_status(Notice::Zoom { ticks_per_column: self.zoom });
            },
            Command::OctaveDown => {
                self.change_octave(-1);
            },
            Command::OctaveUp => {
                self.change_octave(1);
            },
            Command::CycleHighlight => {
                self.cycle_highlight_mode();
            },
            _ => {},
        }
        Vec::new()
    }

    /// Carries out a command of the transport, of the history or of
    /// the keys that play.
    fn perform_play(&mut self, command: Command) -> (commands: Vec<SynthCommand>)
        requires
            kind_of(command) == CommandKind::Play,
        ensures
            performed(*old(self), *final(self), commands@, command),
    {
        match command {
            Command::Undo => {
                let (done, commands) = self.undo();
                assert(undone(*old(self), *self, done, commands@));
                commands
            },
            Command::Redo => {
                let (done, commands) = self.redo();
                assert(redone(*old(self), *self, done, commands@));
                commands
            },
            Command::Escape => self.escape(),
            Command::Restart => self.restart_playback(),
            Command::PlayPause => self.toggle_playback(),
            Command::Stop => self.stop_playback(),
            Command::NoteKey(c) => {
                let (played, commands) = self.handle_note_key(c);
                assert(note_key_pressed(*old(self), *self, played, commands@, c));
                commands
            },
            _ => Vec::new(),
        }
    }

    /// Carries out a command on the tracks, the tempo or the time
    /// signature.
    fn perform_mix(&mut self, command: Command) -> (commands: Vec<SynthCommand>)
        requires
            kind_of(command) == CommandKind::Mix,
            old(self).project.tracks@.len() < usize::MAX,
        ensures
            performed(*old(self), *final(self), commands@, command),
    {
        match command {
            Command::AddTrack => {
                self.add_track();
                Vec::new()
            },
            Command::DeleteTrack => {
                self.delete_selected_track();
                Vec::new()
            },
            Command::RenameTrack => {
                self.start_rename_track();
                Vec::new()
            },
            Command::ToggleMute => self.toggle_mute(),
            Command::ToggleSolo => self.toggle_solo(),
            Command::TempoDown => {
                self.adjust_tempo(-5);
                Vec::new()
            },
            Command::TempoUp => {
                self.adjust_tempo(5);
                Vec::new()
            },
            Command::FewerBeats => {
                self.adjust_time_sig_numerator(-1);
                Vec::new()
            },
            Command::MoreBeats => {
                self.adjust_time_sig_numerator(1);
                Vec::new()
            },
            Command::NextBeatUnit => {
                self.cycle_time_sig_denominator();
                Vec::new()
            },
            Command::PreviousInstrument => self.cycle_instrument(-1),
            Command::NextInstrument => self.cycle_instrument(1),
            Command::VolumeDown => self.adjust_track_volume(-5),
            Command::VolumeUp => self.adjust_track_volume(5),
            Command::PanLeft => self.adjust_track_pan(-8),
            Command::PanRight => self.adjust_track_pan(8),
            _ => Vec::new(),
        }
    }

    /// Carries out a command on notes.
    fn perform_edit(&mut self, command: Command) -> (commands: Vec<SynthCommand>)
        requires
            kind_of(command) == CommandKind::Edit,
        ensures
            performed(*old(self), *final(self), commands@, command),
    {
        let step = self.step();
        let chosen = self.selected_notes.len() > 0;
        match command {
            Command::PlaceNote => {
                return self.place_note();
            },
            Command::DeleteNote => {
                self.delete_note_at_cursor();
            },
            Command::ShortenNotes | Command::LengthenNotes => {
                self.change_selection(command);
            },
            Command::DeleteSelection => {
                self.delete_selected_notes();
            },
            Command::NotesUp => {
                if chosen {
                    self.change_selection(command);
                } else {
                    self.move_cursor_vertical(1);
                }
            },
            Command::NotesDown => {
                if chosen {
                    self.change_selection(command);
                } else {
                    self.move_cursor_vertical(-1);
                }
            },
            Command::NotesLeft => {
                if chosen {
                    self.change_selection(command);
                } else {
                    self.move_cursor_horizontal(-step);
                }
            },
            Command::NotesRight => {
                if chosen {
                    self.change_selection(command);
                } else {
                    self.move_cursor_horizontal(step);
                }
            },
            Command::ToggleNote => {
                self.toggle_note();
            },
            Command::ClearSelection => {
                self.clear_selection();
                self.set_status(Notice::SelectionCleared);
            },
            _ => {},
        }
        Vec::new()
    }

    /// Carries `command` out and returns what the synthesizer has to
    /// do. What the command asks of the application is left to the
    /// application.
    pub fn perform(&mut self, command: Command) -> (commands: Vec<SynthCommand>)
        requires
            old(self).project.tracks@.len() < usize::MAX,
        ensures
            performed(*old(self), *final(self), commands@, command),
    {
        match command.kind() {
            CommandKind::View => self.perform_view(command),
            CommandKind::Play => self.perform_play(command),
            CommandKind::Mix => self.perform_mix(command),
            CommandKind::Edit => self.perform_edit(command),
        }
    }

    /// Handles a key: carries out the command that the key stands for
    /// in the mode of the editor. Returns what the application has to
    /// do and what the synthesizer has to do.
    pub fn handle_key(&mut self, key: Key, held: Modifiers) -> (outcome: (
        Request,
        Vec<SynthCommand>,
    ))
        requires
            old(self).project.tracks@.len() < usize::MAX,
        ensures
            outcome.0 == request_of(command_of(old(self).edit_mode, key, held)),
            performed(
                *old(self),
                *final(self),
                outcome.1@,
                command_of(old(self).edit_mode, key, held),
            ),
    {
        let command = key_command(self.edit_mode, key, held);
        let commands = self.perform(command);
        (command.request(), commands)
    }
}

} // verus!

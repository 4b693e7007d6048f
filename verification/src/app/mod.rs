//! The state of the editor and the operations that the user interface
//! invokes on it.
//!
//! The state holds no clock and no synthesizer. Time comes in as
//! `now_micros`, which the caller sets before it invokes an operation;
//! what the synthesizer has to do goes out as a list of commands.

use vstd::prelude::*;
use std::collections::HashSet;
use crate::audio::engine::{PlaybackState, Transport};
use crate::history::HistoryManager;
use crate::midi::ids::{IdAllocator, NoteId};
use crate::midi::note::shifted_tick;
use crate::midi::project::Project;
use crate::midi::TICKS_PER_BEAT;

pub mod dialogs;
pub mod editing;
pub mod keys;
pub mod laws;
pub mod layout;
pub mod mouse;
pub mod notices;
pub mod playback;
pub mod screen;
pub mod view;

pub use dialogs::{
    ClickTracker, FileBrowserState, NewProjectDialogState, SaveDialogState, SaveFormat,
    SoundfontDialogState,
};
pub use layout::{LayoutRegions, Region};

verus! {

/// Microseconds after the last change at which the project is saved
/// automatically.
pub const AUTOSAVE_DELAY_MICROS: u64 = 5_000_000;

/// Microseconds for which a notice is shown.
pub const NOTICE_MICROS: u64 = 3_000_000;

/// Velocity of a note that the editor places.
pub const DEFAULT_VELOCITY: u8 = 100;

/// Duration of a note that the editor places: a quarter note.
pub const DEFAULT_NOTE_DURATION: u32 = 480;

/// Fewest ticks that a display column can stand for.
pub const MIN_ZOOM: u32 = 30;

/// Most ticks that a display column can stand for.
pub const MAX_ZOOM: u32 = 1920;

/// Columns that the grid is taken to have before it was ever drawn.
pub const FALLBACK_COLUMNS: u32 = 60;

/// The panel that has the focus.
#[derive(Debug, Clone, Copy, PartialEq, Eq, Structural)]
pub enum FocusedPanel {
    /// The list of tracks.
    TrackList,
    /// The transport bar.
    Timeline,
    /// The piano roll of the selected track.
    PianoRoll,
    /// The keyboard at the bottom.
    Keyboard,
}

/// The editing mode.
#[derive(Debug, Clone, Copy, PartialEq, Eq, Structural)]
pub enum EditMode {
    /// Moving about and selecting.
    Normal,
    /// Placing notes.
    Insert,
    /// Selecting notes to edit.
    Select,
}

/// What the main area shows.
#[derive(Debug, Clone, Copy, PartialEq, Eq, Structural)]
pub enum ViewMode {
    /// Piano roll and project timeline together.
    Combined,
    /// The piano roll alone.
    PianoRoll,
    /// The project timeline alone.
    ProjectTimeline,
}

/// Where sounding notes are highlighted during playback.
#[derive(Debug, Clone, Copy, PartialEq, Eq, Structural)]
pub enum HighlightMode {
    /// In the piano roll.
    PianoRollOnly,
    /// In the piano roll and in the project timeline.
    Both,
    /// Nowhere.
    Off,
    /// In the project timeline.
    TimelineOnly,
}

/// What a drag of the mouse is doing.
#[derive(Debug, Clone, Copy, PartialEq, Eq, Structural)]
pub enum DragState {
    /// No drag.
    Idle,
    /// Selecting notes in the piano roll.
    SelectingNotes { start_x: u16, start_y: u16 },
    /// Scrolling the view.
    Scrolling { last_x: u16, last_y: u16 },
    /// Moving the selected notes.
    MovingNotes { last_x: u16, last_y: u16, start_tick: u32, start_pitch: u8 },
}

/// What the editor has to tell the user about the last operation. The
/// words of each notice are those of `notices::notice_text`.
#[derive(Debug)]
pub enum Notice {
    Paused,
    Playing,
    Stopped,
    Restarting,
    AddedTrack { number: usize },
    CannotDeleteLastTrack,
    DeletedTrack { name: String },
    Renaming,
    Renamed { name: String },
    RenameEmpty,
    RenameCancelled,
    Undone { description: String },
    UndoFailed,
    NothingToUndo,
    Redone { description: String },
    RedoFailed,
    NothingToRedo,
    Volume { name: String, volume: u8 },
    Pan { name: String, pan: u8 },
    Muted { name: String, muted: bool },
    Solo { name: String, solo: bool },
    Instrument { program: u8 },
    Tempo { tempo: u32 },
    TimeSignature { numerator: u8, denominator: u8 },
    View { view: ViewMode },
    ExpandedTracks { expanded: bool },
    Highlight { highlight: HighlightMode },
    SeekTo { measure: u32, beat: u32, tick: u32 },
    AddedNote { pitch: u8, beat: u32 },
    DeletedNote,
    SelectedNote { pitch: u8, beat: u32 },
    SelectedTrack { name: String },
    PlayingNote { pitch: u8 },
    Octave { offset: i8 },
    OctaveReset,
    NormalMode,
    InsertMode,
    SelectMode,
    DurationReduced,
    DurationExpanded,
    MovedNotesUp,
    MovedNotesDown,
    MovedNotesLeft,
    MovedNotesRight,
    NoteToggled { selected: bool },
    DeletedNotes { count: usize },
    SelectionCleared,
    SoundfontCancelled,
    SoundfontRequired,
    LoadCancelled,
    InsertModeByMouse,
    Zoom { ticks_per_column: u32 },
    RecordingStopped,
    SaveCancelled,
    NewProjectCancelled,
    NewProjectCreated,
    ProjectLoaded,
    RecoveredFromAutosave,
    SoundfontLoaded { name: String },
}

/// The state of the editor.
#[derive(Debug)]
pub struct App {
    /// The project being edited.
    pub project: Project,
    /// State and position of playback.
    pub transport: Transport,
    /// The counters from which note and track identifiers are drawn.
    pub ids: IdAllocator,
    /// The time at which the current input is handled, in microseconds
    /// of a clock that never goes back.
    pub now_micros: u64,
    /// The panel that has the focus.
    pub focused_panel: FocusedPanel,
    /// The editing mode.
    pub edit_mode: EditMode,
    /// What the main area shows.
    pub view_mode: ViewMode,
    /// Index of the selected track.
    pub selected_track_index: usize,
    /// Raw identifiers of the selected notes.
    pub selected_notes: HashSet<u64>,
    /// Tick of the cursor.
    pub cursor_tick: u32,
    /// Pitch of the cursor.
    pub cursor_pitch: u8,
    /// First tick shown.
    pub scroll_x: u32,
    /// Lowest pitch shown.
    pub scroll_y: u8,
    /// Ticks that a display column stands for.
    pub zoom: u32,
    /// Pitches held down on the keyboard.
    pub held_notes: HashSet<u8>,
    /// Octaves by which the keyboard is moved, -4 to 4.
    pub octave_offset: i8,
    /// The last position that the sequencer dispatched; `None` before
    /// the first update of a playback from tick 0.
    pub last_sequencer_tick: Option<u32>,
    /// The time at which playback began, while it plays.
    pub playback_start_time: Option<u64>,
    /// The tick at which playback began.
    pub playback_start_tick: u32,
    /// Whether a render to a file is going on.
    pub exporting: bool,
    /// What a drag of the mouse is doing.
    pub drag_state: DragState,
    /// Whether a track is being renamed.
    pub renaming_track: bool,
    /// The name typed so far.
    pub rename_buffer: String,
    /// Whether tracks are listed on two lines each.
    pub expanded_tracks: bool,
    /// Indices of the tracks in which a note sounds.
    pub active_tracks: HashSet<usize>,
    /// The time of the last change that is not saved.
    pub last_modified: Option<u64>,
    /// The time of the last automatic save.
    pub last_autosave: Option<u64>,
    /// The save dialog.
    pub save_dialog: SaveDialogState,
    /// The dialog that asks before a new project.
    pub new_project_dialog: NewProjectDialogState,
    /// The browser for project files.
    pub file_browser: FileBrowserState,
    /// The browser for SoundFont files.
    pub soundfont_dialog: SoundfontDialogState,
    /// Whether the help is shown.
    pub show_help: bool,
    /// Where sounding notes are highlighted.
    pub highlight_mode: HighlightMode,
    /// Ticks by which the playhead is drawn ahead of the position.
    pub display_offset_ticks: u32,
    /// Lines by which the help is scrolled.
    pub help_scroll: u16,
    /// Undo and redo.
    pub history: HistoryManager,
    /// Whether notes are being recorded in insert mode.
    pub insert_recording_active: bool,
    /// The time at which recording began.
    pub insert_recording_start_time: Option<u64>,
    /// The tick at which recording began.
    pub insert_recording_start_tick: u32,
    /// The time at which the last note was recorded.
    pub last_insert_note_time: Option<u64>,
    /// The beat of the note added last.
    pub recently_added_beat: Option<u32>,
    /// The note added last, and its tick.
    pub recently_added_note: Option<(NoteId, u32)>,
    /// The pitch of the note added last.
    pub recently_added_pitch: Option<u8>,
    /// Where each panel lies, as it was last drawn; every rectangle is
    /// empty before anything was drawn.
    pub layout: LayoutRegions,
    /// The notice of the last operation and the time it was given.
    pub status_message: Option<(Notice, u64)>,
}

/// The editor with the notice `notice`, given at the time of the
/// editor.
pub open spec fn with_notice(app: App, notice: Notice) -> App {
    App { status_message: Some((notice, app.now_micros)), ..app }
}

/// `zoom` times `columns`, held at the largest `u32`.
pub open spec fn visible_span(zoom: u32, columns: u32) -> u32 {
    if zoom * columns > u32::MAX {
        u32::MAX
    } else {
        (zoom * columns) as u32
    }
}

/// The first tick shown once the cursor has moved to `cursor`: the
/// cursor itself if it lies before the view, the tick `visible` before
/// it if it lies behind the view, else as before.
pub open spec fn scroll_following(scroll_x: u32, cursor: u32, visible: u32) -> u32 {
    if cursor < scroll_x {
        cursor
    } else if cursor > scroll_x + visible {
        (cursor - visible) as u32
    } else {
        scroll_x
    }
}

/// At least one row.
pub open spec fn rows(visible_pitches: u8) -> u8 {
    if visible_pitches < 1 {
        1
    } else {
        visible_pitches
    }
}

/// The lowest pitch shown once the cursor has moved to `pitch`.
pub open spec fn scroll_following_pitch(scroll_y: u8, pitch: u8, visible: u8) -> u8 {
    if pitch < scroll_y {
        pitch
    } else if pitch > scroll_y + visible {
        (pitch - visible) as u8
    } else {
        scroll_y
    }
}

/// `zoom * numerator / denominator`, held within the bounds of the zoom.
pub open spec fn zoomed(zoom: u32, numerator: u32, denominator: u32) -> u32
    recommends
        denominator > 0,
{
    let scaled = zoom as int * numerator as int / denominator as int;
    if scaled < MIN_ZOOM {
        MIN_ZOOM
    } else if scaled > MAX_ZOOM {
        MAX_ZOOM
    } else {
        scaled as u32
    }
}

/// The first tick shown once a note at `tick` was added: as before if the
/// note is in view, else so that the note is in the middle.
pub open spec fn scroll_showing(scroll_x: u32, tick: u32, visible: u32) -> u32 {
    if tick >= scroll_x && tick < scroll_x + visible {
        scroll_x
    } else if tick < visible / 2 {
        0
    } else {
        (tick - visible / 2) as u32
    }
}

/// The lowest pitch shown once a note at `pitch` was added.
pub open spec fn scroll_showing_pitch(scroll_y: u8, pitch: u8, visible: u8) -> u8 {
    if pitch >= scroll_y && pitch < scroll_y + visible && scroll_y + visible <= 255 {
        scroll_y
    } else if pitch >= scroll_y && scroll_y + visible > 255 && pitch < 255 {
        scroll_y
    } else if pitch < visible / 2 {
        0
    } else {
        (pitch - visible / 2) as u8
    }
}

/// The view mode that follows `mode`.
pub open spec fn next_view_mode(mode: ViewMode) -> ViewMode {
    match mode {
        ViewMode::Combined => ViewMode::PianoRoll,
        ViewMode::PianoRoll => ViewMode::ProjectTimeline,
        ViewMode::ProjectTimeline => ViewMode::Combined,
    }
}

/// The highlight mode that follows `mode`.
pub open spec fn next_highlight_mode(mode: HighlightMode) -> HighlightMode {
    match mode {
        HighlightMode::PianoRollOnly => HighlightMode::Both,
        HighlightMode::Both => HighlightMode::Off,
        HighlightMode::Off => HighlightMode::TimelineOnly,
        HighlightMode::TimelineOnly => HighlightMode::PianoRollOnly,
    }
}

/// Whether the project is to be saved automatically at `now`: a change
/// is at least the delay old and no automatic save came after it.
pub open spec fn autosave_due(now: u64, last_modified: Option<u64>, last_autosave: Option<u64>) -> bool {
    match last_modified {
        Some(modified) => now >= modified && now - modified >= AUTOSAVE_DELAY_MICROS && (match last_autosave {
            Some(saved) => saved < modified,
            None => true,
        }),
        None => false,
    }
}

/// `zoom` times `columns`, held at the largest `u32`.
pub fn span_of(zoom: u32, columns: u32) -> (span: u32)
    ensures
        span == visible_span(zoom, columns),
{
    assert(zoom * columns <= 0xFFFF_FFFF * 0xFFFF_FFFF) by (nonlinear_arith)
        requires
            0 <= zoom <= 0xFFFF_FFFF,
            0 <= columns <= 0xFFFF_FFFF,
    ;
    let wide: u64 = zoom as u64 * columns as u64;
    if wide > u32::MAX as u64 {
        u32::MAX
    } else {
        wide as u32
    }
}

/// What moving the keyboard by `delta` octaves makes of the editor:
/// nothing, unless that stays within four octaves either way.
pub open spec fn octave_changed(before: App, after: App, delta: i8) -> bool {
    &&& !(-4 <= before.octave_offset + delta <= 4) ==> after == before
    &&& -4 <= before.octave_offset + delta <= 4 ==> {
        &&& after == (App {
            octave_offset: (before.octave_offset + delta) as i8,
            status_message: after.status_message,
            ..before
        })
        &&& after.status_message matches Some((Notice::Octave { offset }, time))
            && offset == before.octave_offset + delta && time == before.now_micros
    }
}

/// What moving the cursor by `ticks` makes of the editor: the view
/// follows the cursor.
pub open spec fn cursor_moved(before: App, after: App, ticks: i32) -> bool {
    &&& after == (App {
        cursor_tick: shifted_tick(before.cursor_tick, ticks as int),
        scroll_x: scroll_following(
            before.scroll_x,
            shifted_tick(before.cursor_tick, ticks as int),
            visible_span(before.zoom, 80),
        ),
        ..before
    })
}

/// What moving the cursor by `semitones` makes of the editor: nothing,
/// unless the pitch stays within 0 to 127.
pub open spec fn cursor_raised(before: App, after: App, semitones: i8) -> bool {
    &&& !(0 <= before.cursor_pitch + semitones <= 127) ==> after == before
    &&& 0 <= before.cursor_pitch + semitones <= 127 ==> after == (App {
        cursor_pitch: (before.cursor_pitch + semitones) as u8,
        scroll_y: scroll_following_pitch(
            before.scroll_y,
            (before.cursor_pitch + semitones) as u8,
            rows(before.layout.visible_pitches),
        ),
        ..before
    })
}

/// What a step to the next view makes of the editor.
pub open spec fn view_toggled(before: App, after: App) -> bool {
    &&& after == (App {
        view_mode: next_view_mode(before.view_mode),
        status_message: after.status_message,
        ..before
    })
    &&& after.status_message matches Some((Notice::View { view }, time)) && view
        == next_view_mode(before.view_mode) && time == before.now_micros
}

/// What a change between one and two rows for a track makes of the
/// editor.
pub open spec fn track_rows_toggled(before: App, after: App) -> bool {
    &&& after == (App {
        expanded_tracks: !before.expanded_tracks,
        status_message: after.status_message,
        ..before
    })
    &&& after.status_message matches Some((Notice::ExpandedTracks { expanded }, time))
        && expanded == !before.expanded_tracks && time == before.now_micros
}

/// What a step to the next way of highlighting makes of the editor.
pub open spec fn highlight_cycled(before: App, after: App) -> bool {
    &&& after == (App {
        highlight_mode: next_highlight_mode(before.highlight_mode),
        status_message: after.status_message,
        ..before
    })
    &&& after.status_message matches Some((Notice::Highlight { highlight }, time)) && highlight
        == next_highlight_mode(before.highlight_mode) && time == before.now_micros
}

impl App {
    /// Creates the state of a fresh editor: a project "New Project" with
    /// one track, the cursor at tick 0 on middle C, a quarter of a beat to
    /// the column, nothing selected, nothing playing, an empty history.
    pub fn new() -> (app: Self)
        ensures
            app.project@ == crate::midi::project::default_project(
                "New Project"@,
                IdAllocator { next_note: 1, next_track: 1 },
            ),
            app.project.is_valid(),
            laws::kept_in_order(app),
            app.transport == (Transport {
                playback_state: PlaybackState::Stopped,
                playing: false,
                position_ticks: 0,
                tempo: 120,
            }),
            app.selected_track_index == 0,
            app.selected_notes@ == Set::<u64>::empty(),
            app.cursor_tick == 0,
            app.cursor_pitch == 60,
            app.scroll_x == 0,
            app.scroll_y == 48,
            app.zoom == 120,
            app.edit_mode == EditMode::Normal,
            app.focused_panel == FocusedPanel::PianoRoll,
            app.view_mode == ViewMode::Combined,
            app.highlight_mode == HighlightMode::PianoRollOnly,
            app.octave_offset == 0,
            app.last_sequencer_tick.is_none(),
            app.playback_start_time.is_none(),
            app.history@.undo.len() == 0,
            app.history@.redo.len() == 0,
            app.last_modified.is_none(),
            app.status_message.is_none(),
            !app.insert_recording_active,
            app.expanded_tracks,
            app.ids == (IdAllocator { next_note: 1, next_track: 2 }),
            app.now_micros == 0,
            app.held_notes@ == Set::<u8>::empty(),
            app.active_tracks@ == Set::<usize>::empty(),
            app.drag_state == DragState::Idle,
            !app.renaming_track,
            app.rename_buffer@.len() == 0,
            !app.exporting,
            app.last_autosave.is_none(),
            !app.save_dialog.open,
            !app.new_project_dialog.open,
            !app.file_browser.open,
            app.file_browser.entries@.len() == 0,
            !app.soundfont_dialog.open,
            !app.soundfont_dialog.is_first_load,
            app.soundfont_dialog.entries@.len() == 0,
            !app.show_help,
            app.display_offset_ticks == 12,
            app.help_scroll == 0,
            app.recently_added_note.is_none(),
            app.recently_added_pitch.is_none(),
            app.recently_added_beat.is_none(),
            app.layout == (LayoutRegions {
                timeline: Region { x: 0, y: 0, width: 0, height: 0 },
                track_list: Region { x: 0, y: 0, width: 0, height: 0 },
                piano_roll: Region { x: 0, y: 0, width: 0, height: 0 },
                piano_roll_grid: Region { x: 0, y: 0, width: 0, height: 0 },
                keyboard: Region { x: 0, y: 0, width: 0, height: 0 },
                piano_roll_ruler: Region { x: 0, y: 0, width: 0, height: 0 },
                project_timeline_ruler: Region { x: 0, y: 0, width: 0, height: 0 },
                visible_pitches: 0,
            }),
    {
        let mut ids = IdAllocator::new();
        let project = Project::with_default_track(&mut ids, "New Project");
        let app = App {
            project,
            transport: Transport::new(),
            ids,
            now_micros: 0,
            focused_panel: FocusedPanel::PianoRoll,
            edit_mode: EditMode::Normal,
            view_mode: ViewMode::Combined,
            selected_track_index: 0,
            selected_notes: HashSet::new(),
            cursor_tick: 0,
            cursor_pitch: 60,
            scroll_x: 0,
            scroll_y: 48,
            zoom: TICKS_PER_BEAT / 4,
            held_notes: HashSet::new(),
            octave_offset: 0,
            last_sequencer_tick: None,
            playback_start_time: None,
            playback_start_tick: 0,
            exporting: false,
            drag_state: DragState::Idle,
            renaming_track: false,
            rename_buffer: String::new(),
            expanded_tracks: true,
            active_tracks: HashSet::new(),
            last_modified: None,
            last_autosave: None,
            save_dialog: SaveDialogState::new(),
            new_project_dialog: NewProjectDialogState::new(),
            file_browser: FileBrowserState::new(),
            soundfont_dialog: SoundfontDialogState::new(),
            show_help: false,
            highlight_mode: HighlightMode::PianoRollOnly,
            display_offset_ticks: 12,
            help_scroll: 0,
            history: HistoryManager::new(),
            insert_recording_active: false,
            insert_recording_start_time: None,
            insert_recording_start_tick: 0,
            last_insert_note_time: None,
            recently_added_beat: None,
            recently_added_note: None,
            recently_added_pitch: None,
            layout: LayoutRegions::new(),
            status_message: None,
        };
        proof {
            laws::lemma_fresh_in_order(app);
        }
        app
    }

    /// The project.
    pub fn project(&self) -> (project: &Project)
        ensures
            *project == self.project,
    {
        &self.project
    }

    /// The project, for changing in place.
    pub fn project_mut(&mut self) -> (project: &mut Project)
        ensures
            *project == old(self).project,
            *final(self) == (App { project: *final(project), ..*old(self) }),
    {
        &mut self.project
    }

    /// Sets the time at which the next input is handled. Time never goes
    /// back: an earlier time leaves the clock as it is.
    pub fn set_now(&mut self, now_micros: u64)
        ensures
            *final(self) == (App {
                now_micros: if now_micros > old(self).now_micros {
                    now_micros
                } else {
                    old(self).now_micros
                },
                ..*old(self)
            }),
    {
        if now_micros > self.now_micros {
            self.now_micros = now_micros;
        }
    }

    /// Takes over the layout of the screen as it was just drawn.
    pub fn update_layout(&mut self, layout: LayoutRegions)
        ensures
            *final(self) == (App { layout, ..*old(self) }),
    {
        self.layout = layout;
    }

    /// Gives a notice, stamped with the current time.
    pub fn set_status(&mut self, notice: Notice)
        ensures
            *final(self) == with_notice(*old(self), notice),
    {
        self.status_message = Some((notice, self.now_micros));
    }

    /// Drops the notice once it is more than three seconds old.
    pub fn clear_expired_status(&mut self)
        ensures
            *final(self) == (App {
                status_message: match old(self).status_message {
                    Some((notice, time)) => if old(self).now_micros - time > NOTICE_MICROS {
                        None
                    } else {
                        old(self).status_message
                    },
                    None => None,
                },
                ..*old(self)
            }),
    {
        let expired = match &self.status_message {
            Some((_, time)) => self.now_micros > *time && self.now_micros - *time > NOTICE_MICROS,
            None => false,
        };
        if expired {
            self.status_message = None;
        }
    }

    /// Notes the current time as that of the last change.
    pub fn mark_modified(&mut self)
        ensures
            *final(self) == (App { last_modified: Some(old(self).now_micros), ..*old(self) }),
    {
        self.last_modified = Some(self.now_micros);
    }

    /// Whether the project is to be saved automatically now: the last
    /// change is at least five seconds old and not yet saved.
    pub fn check_autosave(&self) -> (save_now: bool)
        ensures
            save_now == autosave_due(self.now_micros, self.last_modified, self.last_autosave),
    {
        match self.last_modified {
            Some(modified) => {
                self.now_micros >= modified && self.now_micros - modified >= AUTOSAVE_DELAY_MICROS
                    && match self.last_autosave {
                    Some(saved) => saved < modified,
                    None => true,
                }
            },
            None => false,
        }
    }

    /// Puts the path of the SoundFont in use into the project, so that an
    /// automatic save holds it.
    pub fn prepare_autosave(&mut self, soundfont_path: &str)
        ensures
            final(self).project@ == (crate::midi::project::ProjectView {
                soundfont_path: Some(soundfont_path@),
                ..old(self).project@
            }),
            *final(self) == (App { project: final(self).project, ..*old(self) }),
    {
        self.project.set_soundfont_path(Some(soundfont_path));
    }

    /// Notes that an automatic save succeeded now.
    pub fn autosave_done(&mut self)
        ensures
            *final(self) == (App { last_autosave: Some(old(self).now_micros), ..*old(self) }),
            !autosave_due(final(self).now_micros, final(self).last_modified, final(self).last_autosave),
    {
        self.last_autosave = Some(self.now_micros);
    }

    /// The selected track, if the project has a track at the selected
    /// index.
    pub fn selected_track(&self) -> (track: Option<&crate::midi::track::Track>)
        ensures
            track.is_some() == (self.selected_track_index < self.project.tracks@.len()),
            track matches Some(t) ==> *t == self.project.tracks@[self.selected_track_index as int],
    {
        self.project.track_at(self.selected_track_index)
    }

    /// The selected track, for changing in place.
    pub fn selected_track_mut(&mut self) -> (track: Option<&mut crate::midi::track::Track>)
        ensures
            track.is_some() == (old(self).selected_track_index < old(self).project.tracks@.len()),
            match track {
                Some(t) => {
                    &&& *t == old(self).project.tracks@[old(self).selected_track_index as int]
                    &&& final(self).project.tracks@ == old(self).project.tracks@.update(
                        old(self).selected_track_index as int,
                        *final(t),
                    )
                    &&& final(self).project@ == (crate::midi::project::ProjectView {
                        tracks: final(self).project@.tracks,
                        ..old(self).project@
                    })
                    &&& *final(self) == (App { project: final(self).project, ..*old(self) })
                },
                None => *final(self) == *old(self),
            },
    {
        let index = self.selected_track_index;
        self.project.track_at_mut(index)
    }

    /// The channel of the selected track; 0 if there is none.
    pub fn selected_channel(&self) -> (channel: u8)
        ensures
            channel == (if self.selected_track_index < self.project.tracks@.len() {
                self.project.tracks@[self.selected_track_index as int].channel
            } else {
                0
            }),
    {
        match self.project.track_at(self.selected_track_index) {
            Some(track) => track.channel,
            None => 0,
        }
    }

    /// Moves the cursor by `ticks` and scrolls so that it stays in view;
    /// the view is taken to be 80 columns wide.
    pub fn move_cursor_horizontal(&mut self, ticks: i32)
        ensures
            cursor_moved(*old(self), *final(self), ticks),
    {
        let moved: i64 = self.cursor_tick as i64 + ticks as i64;
        self.cursor_tick = if moved < 0 {
            0
        } else if moved > u32::MAX as i64 {
            u32::MAX
        } else {
            moved as u32
        };
        let visible = span_of(self.zoom, 80);
        if self.cursor_tick < self.scroll_x {
            self.scroll_x = self.cursor_tick;
        } else if self.cursor_tick as u64 > self.scroll_x as u64 + visible as u64 {
            self.scroll_x = self.cursor_tick - visible;
        }
    }

    /// Moves the cursor by `semitones` if it stays within 0 to 127, and
    /// scrolls so that it stays in view.
    pub fn move_cursor_vertical(&mut self, semitones: i8)
        ensures
            cursor_raised(*old(self), *final(self), semitones),
    {
        let pitch: i16 = self.cursor_pitch as i16 + semitones as i16;
        if 0 <= pitch && pitch <= 127 {
            self.cursor_pitch = pitch as u8;
            let visible: u8 = if self.layout.visible_pitches < 1 {
                1
            } else {
                self.layout.visible_pitches
            };
            if self.cursor_pitch < self.scroll_y {
                self.scroll_y = self.cursor_pitch;
            } else if self.cursor_pitch as u16 > self.scroll_y as u16 + visible as u16 {
                self.scroll_y = self.cursor_pitch - visible;
            }
        }
    }

    /// Moves the keyboard by `delta` octaves if that stays within four
    /// octaves either way.
    pub fn change_octave(&mut self, delta: i8)
        ensures
            octave_changed(*old(self), *final(self), delta),
    {
        let offset: i16 = self.octave_offset as i16 + delta as i16;
        if -4 <= offset && offset <= 4 {
            self.octave_offset = offset as i8;
            self.set_status(Notice::Octave { offset: offset as i8 });
        }
    }

    /// Sets the zoom to `numerator / denominator` of what it is, within
    /// 30 to 1920 ticks to the column.
    pub fn zoom_by(&mut self, numerator: u32, denominator: u32)
        requires
            denominator > 0,
        ensures
            *final(self) == (App { zoom: zoomed(old(self).zoom, numerator, denominator), ..*old(self) }),
    {
        assert(self.zoom * numerator <= 0xFFFF_FFFF * 0xFFFF_FFFF) by (nonlinear_arith)
            requires
                0 <= self.zoom <= 0xFFFF_FFFF,
                0 <= numerator <= 0xFFFF_FFFF,
        ;
        let scaled: u64 = self.zoom as u64 * numerator as u64 / denominator as u64;
        self.zoom = if scaled < MIN_ZOOM as u64 {
            MIN_ZOOM
        } else if scaled > MAX_ZOOM as u64 {
            MAX_ZOOM
        } else {
            scaled as u32
        };
    }

    /// Zooms in: four fifths of the ticks to the column.
    pub fn zoom_in(&mut self)
        ensures
            *final(self) == (App { zoom: zoomed(old(self).zoom, 4, 5), ..*old(self) }),
    {
        self.zoom_by(4, 5);
    }

    /// Zooms out: five fourths of the ticks to the column.
    pub fn zoom_out(&mut self)
        ensures
            *final(self) == (App { zoom: zoomed(old(self).zoom, 5, 4), ..*old(self) }),
    {
        self.zoom_by(5, 4);
    }

    /// Scrolls so that a note at `tick` and `pitch` is in view, and puts
    /// the cursor on it; the view is taken to be 70 columns wide.
    pub fn scroll_to_note(&mut self, tick: u32, pitch: u8)
        ensures
            *final(self) == (App {
                scroll_x: scroll_showing(old(self).scroll_x, tick, visible_span(old(self).zoom, 70)),
                scroll_y: scroll_showing_pitch(old(self).scroll_y, pitch, rows(old(self).layout.visible_pitches)),
                cursor_tick: tick,
                cursor_pitch: pitch,
                ..*old(self)
            }),
    {
        let visible_pitches: u8 = if self.layout.visible_pitches < 1 {
            1
        } else {
            self.layout.visible_pitches
        };
        let visible_ticks = span_of(self.zoom, 70);
        let tick_visible = tick >= self.scroll_x && (tick as u64) < self.scroll_x as u64
            + visible_ticks as u64;
        if !tick_visible {
            self.scroll_x = tick.saturating_sub(visible_ticks / 2);
        }
        let pitch_max = self.scroll_y.saturating_add(visible_pitches);
        let pitch_visible = pitch >= self.scroll_y && pitch < pitch_max;
        if !pitch_visible {
            self.scroll_y = pitch.saturating_sub(visible_pitches / 2);
        }
        self.cursor_tick = tick;
        self.cursor_pitch = pitch;
    }

    /// Marks a note as the one added last, scrolls to it and puts the
    /// cursor on it.
    pub fn register_added_note(&mut self, note_id: NoteId, pitch: u8, tick: u32)
        ensures
            *final(self) == (App {
                recently_added_beat: Some(tick / TICKS_PER_BEAT),
                recently_added_note: Some((note_id, tick)),
                recently_added_pitch: Some(pitch),
                scroll_x: scroll_showing(old(self).scroll_x, tick, visible_span(old(self).zoom, 70)),
                scroll_y: scroll_showing_pitch(old(self).scroll_y, pitch, rows(old(self).layout.visible_pitches)),
                cursor_tick: tick,
                cursor_pitch: pitch,
                ..*old(self)
            }),
    {
        self.recently_added_beat = Some(tick / TICKS_PER_BEAT);
        self.recently_added_note = Some((note_id, tick));
        self.recently_added_pitch = Some(pitch);
        self.scroll_to_note(tick, pitch);
    }

    /// Whether a note with this identifier and start is the one added last.
    pub fn is_recently_added_note(&self, note_id: NoteId, start_tick: u32) -> (recent: bool)
        ensures
            recent == (self.recently_added_note == Some((note_id, start_tick))),
    {
        match self.recently_added_note {
            Some((id, tick)) => id.0 == note_id.0 && tick == start_tick,
            None => false,
        }
    }

    /// Whether `pitch` is that of the note added last.
    pub fn is_recently_added_pitch(&self, pitch: u8) -> (recent: bool)
        ensures
            recent == (self.recently_added_pitch == Some(pitch)),
    {
        match self.recently_added_pitch {
            Some(p) => p == pitch,
            None => false,
        }
    }

    /// Goes on to the next view mode: combined, piano roll, project
    /// timeline, and round again.
    pub fn toggle_view_mode(&mut self)
        ensures
            view_toggled(*old(self), *final(self)),
    {
        let mode = match self.view_mode {
            ViewMode::Combined => ViewMode::PianoRoll,
            ViewMode::PianoRoll => ViewMode::ProjectTimeline,
            ViewMode::ProjectTimeline => ViewMode::Combined,
        };
        self.view_mode = mode;
        self.set_status(Notice::View { view: mode });
    }

    /// Switches between tracks on two lines and tracks on one.
    pub fn toggle_expanded_tracks(&mut self)
        ensures
            track_rows_toggled(*old(self), *final(self)),
    {
        self.expanded_tracks = !self.expanded_tracks;
        let expanded = self.expanded_tracks;
        self.set_status(Notice::ExpandedTracks { expanded });
    }

    /// Goes on to the next highlight mode: piano roll, both, off,
    /// timeline, and round again.
    pub fn cycle_highlight_mode(&mut self)
        ensures
            highlight_cycled(*old(self), *final(self)),
    {
        let mode = match self.highlight_mode {
            HighlightMode::PianoRollOnly => HighlightMode::Both,
            HighlightMode::Both => HighlightMode::Off,
            HighlightMode::Off => HighlightMode::TimelineOnly,
            HighlightMode::TimelineOnly => HighlightMode::PianoRollOnly,
        };
        self.highlight_mode = mode;
        self.set_status(Notice::Highlight { highlight: mode });
    }

    /// Whether the piano roll highlights sounding notes.
    pub fn highlight_piano_roll(&self) -> (yes: bool)
        ensures
            yes == (self.highlight_mode == HighlightMode::PianoRollOnly || self.highlight_mode
                == HighlightMode::Both),
    {
        match self.highlight_mode {
            HighlightMode::PianoRollOnly => true,
            HighlightMode::Both => true,
            _ => false,
        }
    }

    /// Whether the project timeline highlights sounding tracks.
    pub fn highlight_timeline(&self) -> (yes: bool)
        ensures
            yes == (self.highlight_mode == HighlightMode::TimelineOnly || self.highlight_mode
                == HighlightMode::Both),
    {
        match self.highlight_mode {
            HighlightMode::TimelineOnly => true,
            HighlightMode::Both => true,
            _ => false,
        }
    }

    /// The position at which the playhead is drawn: the position of the
    /// transport and the display offset, held at the largest tick.
    pub fn display_position_ticks(&self) -> (ticks: u32)
        ensures
            ticks == crate::midi::note::saturating_sum(
                self.transport.position_ticks,
                self.display_offset_ticks,
            ),
    {
        self.transport.position_ticks().saturating_add(self.display_offset_ticks)
    }

    /// Measure, beat and tick of the cursor, for display.
    pub fn cursor_position(&self) -> (position: (u32, u32, u32))
        requires
            self.project.time_sig_denominator > 0,
            self.project.time_sig_numerator > 0,
        ensures
            (position.0 as int, position.1 as int, position.2 as int)
                == crate::midi::project::position_of_tick(
                self.cursor_tick,
                self.project.spec_ticks_per_measure(),
            ),
    {
        self.project.tick_to_position(self.cursor_tick)
    }

    /// The position of the cursor as text: the measure, the beat in two
    /// digits and the tick in three, with colons between them.
    pub fn position_string(&self) -> (text: String)
        requires
            self.project.time_sig_denominator > 0,
            self.project.time_sig_numerator > 0,
        ensures
            ({
                let position = crate::midi::project::position_of_tick(
                    self.cursor_tick,
                    self.project.spec_ticks_per_measure(),
                );
                text@ == notices::position_text(
                    position.0 as nat,
                    position.1 as nat,
                    position.2 as nat,
                )
            }),
    {
        let (measure, beat, tick) = self.cursor_position();
        notices::format_position(measure, beat, tick)
    }
}

} // verus!

//! What the mouse does to the editor.
//!
//! A click goes to the panel under it: in the track list it selects a
//! track or toggles its mute or solo state, in the piano roll it seeks,
//! selects or places a note or sounds a piano key, in the transport bar
//! it plays or stops, on the keyboard it moves the octave. The wheel
//! scrolls or zooms the piano roll, steps through the tracks, and
//! changes tempo or octave. A drag scrolls the view, moves the cursor or
//! moves the selected notes.
//!
//! Columns, rows and the distances between them are counted in wide
//! arithmetic, so that no click, however far out, overflows.

use vstd::prelude::*;
use super::editing::{
    has_selected_track, mute_toggled, note_deleted, note_index_at, note_placed, rename_started,
    selected_view, selection_with, snapshot_view, solo_toggled, tempo_set, with_track,
};
use super::layout::TIME_RULER_HEIGHT;
use super::playback::{playback_stopped, playback_toggled, sought};
use super::{
    octave_changed, rows, zoomed, App, DragState, EditMode, FocusedPanel, Notice, DEFAULT_VELOCITY,
};
use crate::audio::engine::SynthCommand;
use crate::history::after_push_undo;
use crate::midi::edit::{NoteEdit, notes_after_edit};
use crate::midi::note::{Note, shifted_tick};
use crate::midi::project::{MAX_TEMPO, MIN_TEMPO};
use crate::midi::track::TrackView;
use crate::midi::TICKS_PER_BEAT;

verus! {

/// Columns at the left of the transport bar on which a click plays or
/// pauses.
pub const PLAY_COLUMNS: u16 = 15;

/// Columns at the left of the transport bar on which a click plays,
/// pauses or stops.
pub const TRANSPORT_COLUMNS: u16 = 35;

/// Rows at the bottom of the track list that show its keys.
pub const TRACK_HINT_ROWS: u16 = 2;

/// `a - b`, or 0 where that is negative.
pub open spec fn less(a: int, b: int) -> int {
    if a > b {
        a - b
    } else {
        0
    }
}

/// The tick that `column` of the grid shows: the first tick shown and
/// `zoom` ticks for every column, held at the largest `u32`.
pub open spec fn tick_at_column(scroll_x: u32, zoom: u32, column: int) -> u32 {
    let tick = scroll_x + column * zoom;
    if tick > u32::MAX {
        u32::MAX
    } else {
        tick as u32
    }
}

/// The pitch that `row` of the piano roll shows: the rows count down
/// from the highest pitch shown, and no pitch is above 127 or below 0.
pub open spec fn pitch_at_row(scroll_y: u8, visible_pitches: u8, row: int) -> u8 {
    let pitch = less(scroll_y + rows(visible_pitches) - 1, row);
    if pitch > 127 {
        127
    } else {
        pitch as u8
    }
}

/// The tick under column `x` of the screen, for a point in the grid.
pub open spec fn grid_tick(app: App, x: u16) -> u32 {
    tick_at_column(app.scroll_x, app.zoom, less(x as int, app.layout.piano_roll_grid.x as int))
}

/// The pitch under row `y` of the screen, for a point in the grid, whose
/// first row is the time ruler.
pub open spec fn grid_pitch(app: App, y: u16) -> u8 {
    pitch_at_row(
        app.scroll_y,
        app.layout.visible_pitches,
        less(less(y as int, app.layout.piano_roll_grid.y as int), TIME_RULER_HEIGHT as int),
    )
}

/// The pitch of the piano key at row `y` of the screen: the keys begin
/// under the border of the piano roll and the time ruler.
pub open spec fn key_pitch(app: App, y: u16) -> u8 {
    pitch_at_row(
        app.scroll_y,
        app.layout.visible_pitches,
        less(y as int, app.layout.piano_roll.y + 1 + TIME_RULER_HEIGHT),
    )
}

/// The tick at which the beat of `tick` begins.
pub open spec fn beat_start(tick: u32) -> u32 {
    (tick / TICKS_PER_BEAT * TICKS_PER_BEAT) as u32
}

/// The track at row `y` of the screen, and whether the row is the first
/// of that track, for a row of the track list that shows a track.
///
/// The list lies within a border, above the rows that show its keys. A
/// track takes two rows when the list is expanded, else one. The list
/// is scrolled just so far that the selected track is the last one
/// shown.
pub open spec fn clicked_track(app: App, y: u16) -> Option<(usize, bool)> {
    let region = app.layout.track_list;
    let row = y - region.y - 1;
    let list_height = less(less(region.height as int, 2), TRACK_HINT_ROWS as int);
    let rows_per_track: int = if app.expanded_tracks {
        2
    } else {
        1
    };
    let shown = list_height / rows_per_track;
    let first: int = if app.selected_track_index >= shown {
        app.selected_track_index - shown + 1
    } else {
        0
    };
    let index = first + row / rows_per_track;
    if region.y < y && y < region.y + region.height - 1 && row < list_height && index
        < app.project@.tracks.len() {
        Some((index as usize, row % rows_per_track == 0))
    } else {
        None
    }
}

/// What a click in the track list makes of the editor. In the first
/// column of the first row of a track it toggles mute, in the second
/// column solo; elsewhere on a track it selects the track. Off the
/// tracks it does nothing.
pub open spec fn track_list_clicked(
    before: App,
    after: App,
    commands: Seq<SynthCommand>,
    x: u16,
    y: u16,
) -> bool {
    let column = less(x as int, before.layout.track_list.x + 1);
    match clicked_track(before, y) {
        None => after == before && commands.len() == 0,
        Some((index, first_row)) => if first_row && column == 0 {
            mute_toggled(before, after, commands, index)
        } else if first_row && column == 1 {
            solo_toggled(before, after, commands, index)
        } else {
            &&& commands.len() == 0
            &&& after.status_message matches Some((Notice::SelectedTrack { name }, time)) && time
                == before.now_micros && name@ == before.project@.tracks[index as int].name
            &&& after == (App {
                selected_track_index: index,
                status_message: after.status_message,
                ..before
            })
        },
    }
}

/// What a click on the grid makes of the editor, once the cursor is
/// where the click was. On a note it selects the note: alone, or, with
/// the shift key, in or out of the selection. Off the notes it places a
/// note in insert mode, and else empties the selection unless the shift
/// key is held.
pub open spec fn grid_clicked(
    at: App,
    after: App,
    commands: Seq<SynthCommand>,
    shift_held: bool,
) -> bool {
    let notes = selected_view(at).notes;
    let i = note_index_at(notes, at.cursor_pitch, at.cursor_tick, 0);
    if has_selected_track(at) && i < notes.len() {
        &&& commands.len() == 0
        &&& after.selected_notes@ == selection_with(at.selected_notes@, notes[i].id.0, shift_held)
        &&& after == (App {
            selected_notes: after.selected_notes,
            status_message: Some(
                (
                    Notice::SelectedNote {
                        pitch: at.cursor_pitch,
                        beat: at.cursor_tick / TICKS_PER_BEAT,
                    },
                    at.now_micros,
                ),
            ),
            ..at
        })
    } else if at.edit_mode == EditMode::Insert {
        note_placed(at, after, commands, "Place note"@)
    } else if !shift_held {
        &&& commands.len() == 0
        &&& after.selected_notes@ == Set::<u64>::empty()
        &&& after == (App { selected_notes: after.selected_notes, ..at })
    } else {
        after == at && commands.len() == 0
    }
}

/// What a click on the piano key of `pitch` makes of the editor: the
/// key sounds on the channel of the selected track, and in insert mode
/// a note of that pitch is placed at the tick of the cursor.
pub open spec fn key_clicked(
    before: App,
    after: App,
    commands: Seq<SynthCommand>,
    pitch: u8,
) -> bool {
    if before.edit_mode == EditMode::Insert {
        note_placed(App { cursor_pitch: pitch, ..before }, after, commands, "Insert note"@)
    } else {
        &&& commands == seq![
            SynthCommand::NoteOn {
                channel: before.selected_channel_spec(),
                pitch,
                velocity: DEFAULT_VELOCITY,
            },
        ]
        &&& after == (App {
            status_message: Some((Notice::PlayingNote { pitch }, before.now_micros)),
            ..before
        })
    }
}

/// What a click in the piano roll makes of the editor. On a time ruler
/// it seeks to the beat under it; in the grid it moves the cursor there
/// and selects or places a note; on the piano keys it sounds the key.
pub open spec fn piano_roll_clicked(
    before: App,
    after: App,
    commands: Seq<SynthCommand>,
    x: u16,
    y: u16,
    shift_held: bool,
) -> bool {
    match before.layout.ruler(x, y) {
        Some((column, _)) => sought(
            before,
            after,
            commands,
            beat_start(tick_at_column(before.scroll_x, before.zoom, column as int)),
        ),
        None => if before.layout.piano_roll_grid.holds(x, y) {
            grid_clicked(
                App {
                    cursor_tick: grid_tick(before, x),
                    cursor_pitch: grid_pitch(before, y),
                    ..before
                },
                after,
                commands,
                shift_held,
            )
        } else if before.layout.on_piano_keys(x) {
            key_clicked(before, after, commands, key_pitch(before, y))
        } else {
            after == before && commands.len() == 0
        },
    }
}

/// What a click in the transport bar makes of the editor: in its first
/// 15 columns it plays or pauses, in the 20 that follow it stops.
pub open spec fn timeline_clicked(
    before: App,
    after: App,
    commands: Seq<SynthCommand>,
    x: u16,
) -> bool {
    let column = less(x as int, before.layout.timeline.x + 1);
    if column < PLAY_COLUMNS {
        playback_toggled(before, after, commands)
    } else if column < TRANSPORT_COLUMNS {
        playback_stopped(before, after, commands)
    } else {
        after == before && commands.len() == 0
    }
}

/// What a click on the keyboard makes of the editor: in its left half
/// the keyboard moves an octave down, in its right half an octave up.
pub open spec fn keyboard_clicked(before: App, after: App, x: u16) -> bool {
    if less(x as int, before.layout.keyboard.x as int) < before.layout.keyboard.width / 2 {
        octave_changed(before, after, -1i8)
    } else {
        octave_changed(before, after, 1i8)
    }
}

/// What a click at a point of the screen makes of the editor: the panel
/// under it takes the focus and the click.
pub open spec fn mouse_clicked(
    before: App,
    after: App,
    commands: Seq<SynthCommand>,
    x: u16,
    y: u16,
    shift_held: bool,
) -> bool {
    match before.layout.panel(x, y) {
        None => after == before && commands.len() == 0,
        Some(panel) => {
            let focused = App { focused_panel: panel, ..before };
            match panel {
                FocusedPanel::TrackList => track_list_clicked(focused, after, commands, x, y),
                FocusedPanel::PianoRoll => piano_roll_clicked(
                    focused,
                    after,
                    commands,
                    x,
                    y,
                    shift_held,
                ),
                FocusedPanel::Timeline => timeline_clicked(focused, after, commands, x),
                FocusedPanel::Keyboard => keyboard_clicked(focused, after, x) && commands.len()
                    == 0,
            }
        },
    }
}

impl App {
    /// The tick that a column of the grid shows.
    fn tick_of_column(&self, column: u16) -> (tick: u32)
        ensures
            tick == tick_at_column(self.scroll_x, self.zoom, column as int),
    {
        assert(column * self.zoom <= 0xFFFF * 0xFFFF_FFFF) by (nonlinear_arith)
            requires
                0 <= column <= 0xFFFF,
                0 <= self.zoom <= 0xFFFF_FFFF,
        ;
        let wide: u64 = self.scroll_x as u64 + column as u64 * self.zoom as u64;
        if wide > u32::MAX as u64 {
            u32::MAX
        } else {
            wide as u32
        }
    }

    /// The pitch that a row of the piano roll shows.
    fn pitch_of_row(&self, row: u16) -> (pitch: u8)
        ensures
            pitch == pitch_at_row(self.scroll_y, self.layout.visible_pitches, row as int),
    {
        let visible: u16 = if self.layout.visible_pitches < 1 {
            1
        } else {
            self.layout.visible_pitches as u16
        };
        let top: u16 = self.scroll_y as u16 + visible - 1;
        let pitch: u16 = if top > row {
            top - row
        } else {
            0
        };
        if pitch > 127 {
            127
        } else {
            pitch as u8
        }
    }

    /// Tick and pitch under a point of the screen, for a point in the
    /// grid of the piano roll.
    pub fn grid_position(&self, x: u16, y: u16) -> (at: (u32, u8))
        ensures
            at == (grid_tick(*self, x), grid_pitch(*self, y)),
    {
        let grid = self.layout.piano_roll_grid;
        let column: u16 = if x > grid.x {
            x - grid.x
        } else {
            0
        };
        let below: u16 = if y > grid.y {
            y - grid.y
        } else {
            0
        };
        let row: u16 = if below > TIME_RULER_HEIGHT {
            below - TIME_RULER_HEIGHT
        } else {
            0
        };
        (self.tick_of_column(column), self.pitch_of_row(row))
    }

    /// The pitch of the piano key at a row of the screen.
    fn pitch_of_key(&self, y: u16) -> (pitch: u8)
        ensures
            pitch == key_pitch(*self, y),
    {
        let first: u32 = self.layout.piano_roll.y as u32 + 1 + TIME_RULER_HEIGHT as u32;
        let row: u16 = if y as u32 > first {
            (y as u32 - first) as u16
        } else {
            0
        };
        self.pitch_of_row(row)
    }

    /// The track at a row of the screen and whether the row is the first
    /// of that track, if the row is one of the track list that shows a
    /// track.
    fn track_at_row(&self, y: u16) -> (hit: Option<(usize, bool)>)
        ensures
            hit == clicked_track(*self, y),
            hit matches Some((index, _)) ==> index < self.project.tracks@.len(),
    {
        let region = self.layout.track_list;
        if !(y > region.y && (y as u32) + 1 < region.y as u32 + region.height as u32) {
            return None;
        }
        let row: u16 = y - region.y - 1;
        let inner: u16 = if region.height > 2 {
            region.height - 2
        } else {
            0
        };
        let list_height: u16 = if inner > TRACK_HINT_ROWS {
            inner - TRACK_HINT_ROWS
        } else {
            0
        };
        if row >= list_height {
            return None;
        }
        let rows_per_track: u16 = if self.expanded_tracks {
            2
        } else {
            1
        };
        let shown: u16 = list_height / rows_per_track;
        let selected = self.selected_track_index;
        let first: u128 = if selected as u128 >= shown as u128 {
            selected as u128 - shown as u128 + 1
        } else {
            0
        };
        let index: u128 = first + (row / rows_per_track) as u128;
        if index < self.project.tracks.len() as u128 {
            Some((index as usize, row % rows_per_track == 0))
        } else {
            None
        }
    }

    /// Handles a click in the track list.
    fn handle_track_list_click(&mut self, x: u16, y: u16) -> (commands: Vec<SynthCommand>)
        ensures
            track_list_clicked(*old(self), *final(self), commands@, x, y),
    {
        let left: u32 = self.layout.track_list.x as u32 + 1;
        match self.track_at_row(y) {
            None => Vec::new(),
            Some((index, first_row)) => {
                if first_row && x as u32 <= left {
                    self.toggle_mute_at(index)
                } else if first_row && x as u32 == left + 1 {
                    self.toggle_solo_at(index)
                } else {
                    self.selected_track_index = index;
                    let name = self.project.tracks[index].name.clone();
                    assert(self.project@.tracks[index as int] == self.project.tracks@[index as int]@);
                    self.set_status(Notice::SelectedTrack { name });
                    Vec::new()
                }
            },
        }
    }

    /// Handles a click on the grid, with the cursor where the click was.
    fn handle_grid_click(&mut self, shift_held: bool) -> (commands: Vec<SynthCommand>)
        ensures
            grid_clicked(*old(self), *final(self), commands@, shift_held),
    {
        let pitch = self.cursor_pitch;
        let tick = self.cursor_tick;
        match self.note_at(pitch, tick) {
            Some(note_id) => {
                self.select_note(note_id, shift_held);
                self.set_status(Notice::SelectedNote { pitch, beat: tick / TICKS_PER_BEAT });
                Vec::new()
            },
            None => {
                if self.edit_mode == EditMode::Insert {
                    self.place_note()
                } else {
                    if !shift_held {
                        self.clear_selection();
                    }
                    Vec::new()
                }
            },
        }
    }

    /// Handles a click on the piano key of `pitch`.
    fn handle_key_click(&mut self, pitch: u8) -> (commands: Vec<SynthCommand>)
        ensures
            key_clicked(*old(self), *final(self), commands@, pitch),
    {
        if self.edit_mode == EditMode::Insert {
            self.cursor_pitch = pitch;
            self.place_note_as("Insert note")
        } else {
            let channel = self.selected_channel();
            let mut commands: Vec<SynthCommand> = Vec::new();
            commands.push(SynthCommand::NoteOn { channel, pitch, velocity: DEFAULT_VELOCITY });
            self.set_status(Notice::PlayingNote { pitch });
            commands
        }
    }

    /// Handles a click in the piano roll.
    fn handle_piano_roll_click(&mut self, x: u16, y: u16, shift_held: bool) -> (commands: Vec<
        SynthCommand,
    >)
        requires
            old(self).project.time_sig_denominator > 0,
            old(self).project.time_sig_numerator > 0,
        ensures
            piano_roll_clicked(*old(self), *final(self), commands@, x, y, shift_held),
    {
        let layout = self.layout;
        match layout.ruler_hit_test(x, y) {
            Some((column, _)) => {
                let tick = self.tick_of_column(column);
                self.seek_to_tick(tick / TICKS_PER_BEAT * TICKS_PER_BEAT)
            },
            None => {
                if layout.is_in_piano_roll_grid(x, y) {
                    let (tick, pitch) = self.grid_position(x, y);
                    self.cursor_tick = tick;
                    self.cursor_pitch = pitch;
                    self.handle_grid_click(shift_held)
                } else if layout.is_on_piano_keys(x) {
                    let pitch = self.pitch_of_key(y);
                    self.handle_key_click(pitch)
                } else {
                    Vec::new()
                }
            },
        }
    }

    /// Handles a click in the transport bar.
    fn handle_timeline_click(&mut self, x: u16) -> (commands: Vec<SynthCommand>)
        ensures
            timeline_clicked(*old(self), *final(self), commands@, x),
    {
        let left: u32 = self.layout.timeline.x as u32 + 1;
        let column: u32 = if x as u32 > left {
            x as u32 - left
        } else {
            0
        };
        if column < PLAY_COLUMNS as u32 {
            self.toggle_playback()
        } else if column < TRANSPORT_COLUMNS as u32 {
            self.stop_playback()
        } else {
            Vec::new()
        }
    }

    /// Handles a click on the keyboard.
    fn handle_keyboard_click(&mut self, x: u16)
        ensures
            keyboard_clicked(*old(self), *final(self), x),
    {
        let region = self.layout.keyboard;
        let column: u16 = if x > region.x {
            x - region.x
        } else {
            0
        };
        if column < region.width / 2 {
            self.change_octave(-1);
        } else {
            self.change_octave(1);
        }
    }

    /// Handles a click at a point of the screen. Returns whether the
    /// point lies in a panel, and what the synthesizer has to do.
    pub fn handle_mouse_click(&mut self, x: u16, y: u16, shift_held: bool) -> (handled: (
        bool,
        Vec<SynthCommand>,
    ))
        requires
            old(self).project.time_sig_denominator > 0,
            old(self).project.time_sig_numerator > 0,
        ensures
            handled.0 == old(self).layout.panel(x, y).is_some(),
            mouse_clicked(*old(self), *final(self), handled.1@, x, y, shift_held),
    {
        match self.layout.panel_at(x, y) {
            None => (false, Vec::new()),
            Some(panel) => {
                self.focused_panel = panel;
                let commands = match panel {
                    FocusedPanel::TrackList => self.handle_track_list_click(x, y),
                    FocusedPanel::PianoRoll => self.handle_piano_roll_click(x, y, shift_held),
                    FocusedPanel::Timeline => self.handle_timeline_click(x),
                    FocusedPanel::Keyboard => {
                        self.handle_keyboard_click(x);
                        Vec::new()
                    },
                };
                (true, commands)
            },
        }
    }

    /// The command that ends the sound of the piano key at a point of
    /// the screen; none if the point is off the piano keys.
    pub fn handle_piano_key_release(&self, x: u16, y: u16) -> (commands: Vec<SynthCommand>)
        ensures
            commands@ == (if self.layout.on_piano_keys(x) {
                seq![
                    SynthCommand::NoteOff {
                        channel: self.selected_channel_spec(),
                        pitch: key_pitch(*self, y),
                    },
                ]
            } else {
                Seq::<SynthCommand>::empty()
            }),
    {
        let mut commands: Vec<SynthCommand> = Vec::new();
        if self.layout.is_on_piano_keys(x) {
            let pitch = self.pitch_of_key(y);
            let channel = self.selected_channel();
            commands.push(SynthCommand::NoteOff { channel, pitch });
        }
        commands
    }
}

/// The size of `delta`, without its sign.
pub open spec fn size(delta: int) -> int {
    if delta < 0 {
        -delta
    } else {
        delta
    }
}

/// The rows that a movement by `delta` scrolls: the low eight bits of
/// its size.
pub open spec fn steps(delta: int) -> int {
    size(delta) % 256
}

/// The lowest pitch shown after the view went up by `amount`: never
/// more than 127 less the rows shown.
pub open spec fn scrolled_up(scroll_y: u8, amount: int, visible_pitches: u8) -> u8 {
    let highest = less(127, rows(visible_pitches) as int);
    if scroll_y + amount > highest {
        highest as u8
    } else {
        (scroll_y + amount) as u8
    }
}

/// The lowest pitch shown after the view went down by `amount`.
pub open spec fn scrolled_down(scroll_y: u8, amount: int) -> u8 {
    less(scroll_y as int, amount) as u8
}

/// The lowest pitch shown after the wheel turned by `delta`: up for a
/// positive turn, down for a negative one, by at least one row.
pub open spec fn wheel_scroll_y(scroll_y: u8, delta: i16, visible_pitches: u8) -> u8 {
    let amount = if steps(delta as int) < 1 {
        1
    } else {
        steps(delta as int)
    };
    if delta > 0 {
        scrolled_up(scroll_y, amount, visible_pitches)
    } else if delta < 0 {
        scrolled_down(scroll_y, amount)
    } else {
        scroll_y
    }
}

/// The first tick shown after the wheel turned sideways by `delta`: a
/// column of `zoom` ticks for every step, and at least one column.
pub open spec fn wheel_scroll_x(scroll_x: u32, delta: i16, zoom: u32) -> u32 {
    let ticks = if size(delta as int) < 1 {
        zoom as int
    } else {
        size(delta as int) * zoom
    };
    if delta > 0 {
        shifted_tick(scroll_x, ticks)
    } else if delta < 0 {
        shifted_tick(scroll_x, -ticks)
    } else {
        scroll_x
    }
}

/// The selected track after the wheel turned by `delta` over the track
/// list: the one before for a positive turn, the one behind for a
/// negative one, as far as there is one.
pub open spec fn wheel_track(selected: usize, delta: i16, count: nat) -> usize {
    if delta > 0 && selected > 0 {
        (selected - 1) as usize
    } else if delta < 0 && selected < less(count as int, 1) {
        (selected + 1) as usize
    } else {
        selected
    }
}

/// The tempo after the wheel turned by `delta` over the transport bar:
/// one more for a positive turn, up to 300, one less for a negative one,
/// down to 20.
pub open spec fn wheel_tempo(tempo: u32, delta: i16) -> u32 {
    if delta > 0 {
        if tempo + 1 > MAX_TEMPO {
            MAX_TEMPO
        } else {
            (tempo + 1) as u32
        }
    } else {
        if less(tempo as int, 1) < MIN_TEMPO {
            MIN_TEMPO
        } else {
            (tempo - 1) as u32
        }
    }
}

/// What the zoom `zoom` makes of the editor, with the notice of it.
pub open spec fn zoom_shown(before: App, after: App, zoom: u32) -> bool {
    after == (App {
        zoom,
        status_message: Some((Notice::Zoom { ticks_per_column: zoom }, before.now_micros)),
        ..before
    })
}

/// What a turn of the wheel makes of the editor. Over the piano roll it
/// scrolls, or zooms while the control key is held: in for a positive
/// turn, out for a negative one. Over the track list it selects the
/// next track, over the transport bar it changes the tempo, over the
/// keyboard the octave. Off the panels it does nothing.
pub open spec fn mouse_scrolled(
    before: App,
    after: App,
    x: u16,
    y: u16,
    delta_x: i16,
    delta_y: i16,
    ctrl_held: bool,
) -> bool {
    match before.layout.panel(x, y) {
        None => after == before,
        Some(FocusedPanel::PianoRoll) => if ctrl_held {
            if delta_y > 0 {
                zoom_shown(before, after, zoomed(before.zoom, 4, 5))
            } else if delta_y < 0 {
                zoom_shown(before, after, zoomed(before.zoom, 5, 4))
            } else {
                after == before
            }
        } else {
            after == (App {
                scroll_y: wheel_scroll_y(before.scroll_y, delta_y, before.layout.visible_pitches),
                scroll_x: wheel_scroll_x(before.scroll_x, delta_x, before.zoom),
                ..before
            })
        },
        Some(FocusedPanel::TrackList) => after == (App {
            selected_track_index: wheel_track(
                before.selected_track_index,
                delta_y,
                before.project.tracks@.len(),
            ),
            ..before
        }),
        Some(FocusedPanel::Timeline) => if delta_y != 0 {
            tempo_set(before, after, wheel_tempo(before.project.tempo, delta_y))
        } else {
            after == before
        },
        Some(FocusedPanel::Keyboard) => if delta_y > 0 {
            octave_changed(before, after, 1i8)
        } else if delta_y < 0 {
            octave_changed(before, after, -1i8)
        } else {
            after == before
        },
    }
}

/// The size of a turn of the wheel.
fn size_of(delta: i16) -> (wide: u32)
    ensures
        wide == size(delta as int),
{
    if delta < 0 {
        (-(delta as i32)) as u32
    } else {
        delta as u32
    }
}

/// `tick + delta`, held within the ticks.
fn shift_tick(tick: u32, delta: i64) -> (moved: u32)
    ensures
        moved == shifted_tick(tick, delta as int),
{
    let wide: i128 = tick as i128 + delta as i128;
    if wide < 0 {
        0
    } else if wide > u32::MAX as i128 {
        u32::MAX
    } else {
        wide as u32
    }
}

/// The lowest pitch shown after the view went up by `amount`.
fn scroll_up(scroll_y: u8, amount: u8, visible_pitches: u8) -> (scroll: u8)
    ensures
        scroll == scrolled_up(scroll_y, amount as int, visible_pitches),
{
    let shown: u8 = if visible_pitches < 1 {
        1
    } else {
        visible_pitches
    };
    let highest: u8 = if shown < 127 {
        127 - shown
    } else {
        0
    };
    let sum: u16 = scroll_y as u16 + amount as u16;
    if sum > highest as u16 {
        highest
    } else {
        sum as u8
    }
}

impl App {
    /// Handles a turn of the wheel at a point of the screen: `delta_x`
    /// columns to the right and `delta_y` rows up.
    pub fn handle_mouse_scroll(
        &mut self,
        x: u16,
        y: u16,
        delta_x: i16,
        delta_y: i16,
        ctrl_held: bool,
    )
        ensures
            mouse_scrolled(*old(self), *final(self), x, y, delta_x, delta_y, ctrl_held),
    {
        match self.layout.panel_at(x, y) {
            None => {},
            Some(FocusedPanel::PianoRoll) => {
                if ctrl_held {
                    if delta_y != 0 {
                        if delta_y > 0 {
                            self.zoom_in();
                        } else {
                            self.zoom_out();
                        }
                        self.set_status(Notice::Zoom { ticks_per_column: self.zoom });
                    }
                } else {
                    if delta_y != 0 {
                        let low: u8 = (size_of(delta_y) % 256) as u8;
                        let amount: u8 = if low < 1 {
                            1
                        } else {
                            low
                        };
                        self.scroll_y = if delta_y > 0 {
                            scroll_up(self.scroll_y, amount, self.layout.visible_pitches)
                        } else {
                            self.scroll_y.saturating_sub(amount)
                        };
                    }
                    if delta_x != 0 {
                        let columns = size_of(delta_x);
                        assert(columns * self.zoom <= 0x8000 * 0xFFFF_FFFF) by (nonlinear_arith)
                            requires
                                0 <= columns <= 0x8000,
                                0 <= self.zoom <= 0xFFFF_FFFF,
                        ;
                        let ticks: i64 = columns as i64 * self.zoom as i64;
                        self.scroll_x = if delta_x > 0 {
                            shift_tick(self.scroll_x, ticks)
                        } else {
                            shift_tick(self.scroll_x, -ticks)
                        };
                    }
                }
            },
            Some(FocusedPanel::TrackList) => {
                let count = self.project.tracks.len();
                if delta_y > 0 && self.selected_track_index > 0 {
                    self.selected_track_index = self.selected_track_index - 1;
                } else if delta_y < 0 && count > 0 && self.selected_track_index < count - 1 {
                    self.selected_track_index = self.selected_track_index + 1;
                }
            },
            Some(FocusedPanel::Timeline) => {
                let tempo = self.project.tempo;
                if delta_y > 0 {
                    self.set_tempo(
                        if tempo >= MAX_TEMPO {
                            MAX_TEMPO
                        } else {
                            tempo + 1
                        },
                    );
                } else if delta_y < 0 {
                    self.set_tempo(
                        if tempo <= MIN_TEMPO {
                            MIN_TEMPO
                        } else {
                            tempo - 1
                        },
                    );
                }
            },
            Some(FocusedPanel::Keyboard) => {
                if delta_y > 0 {
                    self.change_octave(1);
                } else if delta_y < 0 {
                    self.change_octave(-1);
                }
            },
        }
    }
}

/// The note is selected, has `pitch` and sounds at `tick`.
pub open spec fn grabbed(note: Note, selected: Set<u64>, pitch: u8, tick: u32) -> bool {
    selected.contains(note.id.0) && note.pitch == pitch && note.spec_is_active_at(tick)
}

/// A selected note of the selected track has `pitch` and sounds at
/// `tick`.
pub open spec fn on_selected_note(app: App, pitch: u8, tick: u32) -> bool {
    has_selected_track(app) && exists|i: int|
        0 <= i < selected_view(app).notes.len() && grabbed(
            #[trigger] selected_view(app).notes[i],
            app.selected_notes@,
            pitch,
            tick,
        )
}

/// What the begin of a drag makes of the editor. In the grid of the
/// piano roll a drag that begins on a selected note moves the selected
/// notes, and the state before it is recorded; another drag selects
/// while the shift key is held and else scrolls. Off the grid no drag
/// begins.
pub open spec fn drag_started(before: App, after: App, x: u16, y: u16, shift_held: bool) -> bool {
    let tick = grid_tick(before, x);
    let pitch = grid_pitch(before, y);
    if !before.layout.piano_roll_grid.holds(x, y) {
        after == before
    } else if on_selected_note(before, pitch, tick) {
        &&& after.history@ == after_push_undo(
            before.history@,
            snapshot_view(before, "Move notes"@),
        )
        &&& after == (App {
            history: after.history,
            drag_state: DragState::MovingNotes {
                last_x: x,
                last_y: y,
                start_tick: tick,
                start_pitch: pitch,
            },
            ..before
        })
    } else if shift_held {
        after == (App { drag_state: DragState::SelectingNotes { start_x: x, start_y: y }, ..before })
    } else {
        after == (App { drag_state: DragState::Scrolling { last_x: x, last_y: y }, ..before })
    }
}

/// The ticks by which notes move that are dragged by `columns`: `zoom`
/// ticks for every column, held within the range of `i32`.
pub open spec fn drag_ticks(columns: int, zoom: u32) -> i32 {
    let ticks = columns * zoom;
    if ticks < i32::MIN {
        i32::MIN
    } else if ticks > i32::MAX {
        i32::MAX
    } else {
        ticks as i32
    }
}

/// The semitones by which notes rise that are dragged down by
/// `rows_down`: a semitone up for every row up, of which the low eight
/// bits are kept, as a signed number.
pub open spec fn drag_semitones(rows_down: int) -> i8 {
    let up = if rows_down < 0 {
        steps(rows_down)
    } else {
        (256 - steps(rows_down)) % 256
    };
    if up >= 128 {
        (up - 256) as i8
    } else {
        up as i8
    }
}

/// The notes after the selected ones were dragged by `columns` to the
/// right and by `rows_down` down.
pub open spec fn dragged_notes(
    notes: Seq<Note>,
    selected: Set<u64>,
    zoom: u32,
    columns: int,
    rows_down: int,
) -> Seq<Note> {
    let moved = if columns != 0 {
        notes_after_edit(notes, selected, NoteEdit::Shift(drag_ticks(columns, zoom)))
    } else {
        notes
    };
    if rows_down != 0 {
        notes_after_edit(moved, selected, NoteEdit::Transpose(drag_semitones(rows_down)))
    } else {
        moved
    }
}

/// The first tick shown after the view was dragged by `columns` to the
/// right: the view follows the mouse.
pub open spec fn drag_scroll_x(scroll_x: u32, zoom: u32, columns: int) -> u32 {
    shifted_tick(scroll_x, -(columns * zoom))
}

/// The lowest pitch shown after the view was dragged down by
/// `rows_down`.
pub open spec fn drag_scroll_y(scroll_y: u8, visible_pitches: u8, rows_down: int) -> u8 {
    if rows_down > 0 {
        scrolled_down(scroll_y, steps(rows_down))
    } else if rows_down < 0 {
        scrolled_up(scroll_y, steps(rows_down), visible_pitches)
    } else {
        scroll_y
    }
}

/// What a drag to a point makes of the editor while the selected notes
/// are moved by the drag that began at `(last_x, last_y)`: they follow
/// the mouse, and nothing is recorded.
pub open spec fn notes_dragged(
    before: App,
    after: App,
    x: u16,
    y: u16,
    last_x: u16,
    last_y: u16,
) -> bool {
    let drag_state = DragState::MovingNotes { last_x: x, last_y: y, start_tick: 0, start_pitch: 0 };
    if before.selected_notes@.len() == 0 || !has_selected_track(before) {
        after == (App { drag_state, ..before })
    } else {
        &&& after.project@ == with_track(
            before.project@,
            before.selected_track_index as int,
            TrackView {
                notes: dragged_notes(
                    selected_view(before).notes,
                    before.selected_notes@,
                    before.zoom,
                    x - last_x,
                    y - last_y,
                ),
                ..selected_view(before)
            },
        )
        &&& after == (App { project: after.project, drag_state, ..before })
    }
}

/// What a drag to a point makes of the editor: the view scrolls, the
/// cursor follows the mouse within the grid, or the selected notes
/// move, as the drag began. Without a drag nothing changes.
pub open spec fn dragged(before: App, after: App, x: u16, y: u16) -> bool {
    match before.drag_state {
        DragState::Idle => after == before,
        DragState::Scrolling { last_x, last_y } => after == (App {
            scroll_x: drag_scroll_x(before.scroll_x, before.zoom, x - last_x),
            scroll_y: drag_scroll_y(before.scroll_y, before.layout.visible_pitches, y - last_y),
            drag_state: DragState::Scrolling { last_x: x, last_y: y },
            ..before
        }),
        DragState::SelectingNotes { .. } => if before.layout.piano_roll_grid.holds(x, y) {
            after == (App {
                cursor_tick: grid_tick(before, x),
                cursor_pitch: grid_pitch(before, y),
                ..before
            })
        } else {
            after == before
        },
        DragState::MovingNotes { last_x, last_y, .. } => notes_dragged(
            before,
            after,
            x,
            y,
            last_x,
            last_y,
        ),
    }
}

/// What a double click at a point makes of the editor. In the grid of
/// the piano roll it moves the cursor there and deletes the note under
/// it or, where there is none, places one. In the track list it begins
/// renaming the selected track, in the transport bar it stops, on the
/// keyboard it sets the octave back.
pub open spec fn double_clicked(
    before: App,
    after: App,
    commands: Seq<SynthCommand>,
    x: u16,
    y: u16,
) -> bool {
    match before.layout.panel(x, y) {
        None => after == before && commands.len() == 0,
        Some(FocusedPanel::PianoRoll) => if before.layout.piano_roll_grid.holds(x, y) {
            let at = App {
                cursor_tick: grid_tick(before, x),
                cursor_pitch: grid_pitch(before, y),
                ..before
            };
            let notes = selected_view(at).notes;
            let i = note_index_at(notes, at.cursor_pitch, at.cursor_tick, 0);
            if has_selected_track(at) && i < notes.len() {
                note_deleted(at, after, notes[i].id) && commands.len() == 0
            } else {
                note_placed(at, after, commands, "Place note"@)
            }
        } else {
            after == before && commands.len() == 0
        },
        Some(FocusedPanel::TrackList) => rename_started(before, after) && commands.len() == 0,
        Some(FocusedPanel::Timeline) => playback_stopped(before, after, commands),
        Some(FocusedPanel::Keyboard) => {
            &&& commands.len() == 0
            &&& after == (App {
                octave_offset: 0,
                status_message: Some((Notice::OctaveReset, before.now_micros)),
                ..before
            })
        },
    }
}

/// The rows that a movement by `delta` scrolls.
fn steps_of(delta: i32) -> (low: u8)
    requires
        -0x1_0000 < delta < 0x1_0000,
    ensures
        low == steps(delta as int),
{
    let wide: i32 = if delta < 0 {
        -delta
    } else {
        delta
    };
    (wide % 256) as u8
}

/// The semitones by which notes rise that are dragged down by
/// `rows_down`.
fn semitones_of(rows_down: i32) -> (semitones: i8)
    requires
        -0x1_0000 < rows_down < 0x1_0000,
    ensures
        semitones == drag_semitones(rows_down as int),
{
    let low: i32 = steps_of(rows_down) as i32;
    let up: i32 = if rows_down < 0 {
        low
    } else {
        (256 - low) % 256
    };
    if up >= 128 {
        (up - 256) as i8
    } else {
        up as i8
    }
}

impl App {
    /// Whether a selected note of the selected track has `pitch` and
    /// sounds at `tick`.
    fn is_on_selected_note(&self, pitch: u8, tick: u32) -> (hit: bool)
        ensures
            hit == on_selected_note(*self, pitch, tick),
    {
        match self.project.track_at(self.selected_track_index) {
            None => false,
            Some(track) => {
                assert(track@ == selected_view(*self));
                let notes = track.notes();
                let mut i: usize = 0;
                while i < notes.len()
                    invariant
                        i <= notes@.len(),
                        has_selected_track(*self),
                        notes@ == selected_view(*self).notes,
                        forall|k: int|
                            0 <= k < i ==> !grabbed(
                                #[trigger] notes@[k],
                                self.selected_notes@,
                                pitch,
                                tick,
                            ),
                    decreases notes@.len() - i,
                {
                    let note = &notes[i];
                    if self.selected_notes.contains(&note.id.0) && note.pitch == pitch
                        && note.is_active_at(tick) {
                        assert(grabbed(
                            selected_view(*self).notes[i as int],
                            self.selected_notes@,
                            pitch,
                            tick,
                        ));
                        return true;
                    }
                    i += 1;
                }
                false
            },
        }
    }

    /// Handles the begin of a drag at a point of the screen.
    pub fn handle_drag_start(&mut self, x: u16, y: u16, shift_held: bool)
        ensures
            drag_started(*old(self), *final(self), x, y, shift_held),
    {
        if !self.layout.is_in_piano_roll_grid(x, y) {
            return;
        }
        let (tick, pitch) = self.grid_position(x, y);
        if self.is_on_selected_note(pitch, tick) {
            self.save_state("Move notes");
            self.drag_state =
            DragState::MovingNotes { last_x: x, last_y: y, start_tick: tick, start_pitch: pitch };
        } else if shift_held {
            self.drag_state = DragState::SelectingNotes { start_x: x, start_y: y };
        } else {
            self.drag_state = DragState::Scrolling { last_x: x, last_y: y };
        }
    }

    /// Moves the selected notes with a drag from `(last_x, last_y)` to
    /// `(x, y)`.
    #[verifier::rlimit(40)]
    fn drag_notes(&mut self, x: u16, y: u16, last_x: u16, last_y: u16)
        ensures
            notes_dragged(*old(self), *final(self), x, y, last_x, last_y),
    {
        let columns: i64 = x as i64 - last_x as i64;
        let rows_down: i32 = y as i32 - last_y as i32;
        let ghost index = self.selected_track_index as int;
        let ghost tracks = self.project@.tracks;
        if columns != 0 {
            assert(-0xFFFF * 0xFFFF_FFFF <= columns * self.zoom <= 0xFFFF * 0xFFFF_FFFF)
                by (nonlinear_arith)
                requires
                    -0xFFFF <= columns <= 0xFFFF,
                    0 <= self.zoom <= 0xFFFF_FFFF,
            ;
            let wide: i64 = columns * self.zoom as i64;
            let ticks: i32 = if wide < i32::MIN as i64 {
                i32::MIN
            } else if wide > i32::MAX as i64 {
                i32::MAX
            } else {
                wide as i32
            };
            self.edit_selected_notes_no_undo(NoteEdit::Shift(ticks));
        }
        let ghost moved = self.project@.tracks;
        if rows_down != 0 {
            self.edit_selected_notes_no_undo(NoteEdit::Transpose(semitones_of(rows_down)));
        }
        self.drag_state =
        DragState::MovingNotes { last_x: x, last_y: y, start_tick: 0, start_pitch: 0 };
        proof {
            if old(self).selected_notes@.len() > 0 && has_selected_track(*old(self)) {
                assert(moved =~= tracks.update(index, moved[index]));
                assert(self.project@.tracks =~= tracks.update(index, self.project@.tracks[index]));
            }
        }
    }

    /// Handles a drag that has come to a point of the screen.
    pub fn handle_drag_move(&mut self, x: u16, y: u16)
        ensures
            dragged(*old(self), *final(self), x, y),
    {
        match self.drag_state {
            DragState::Idle => {},
            DragState::Scrolling { last_x, last_y } => {
                let columns: i64 = x as i64 - last_x as i64;
                let rows_down: i32 = y as i32 - last_y as i32;
                assert(-0xFFFF * 0xFFFF_FFFF <= columns * self.zoom <= 0xFFFF * 0xFFFF_FFFF)
                    by (nonlinear_arith)
                    requires
                        -0xFFFF <= columns <= 0xFFFF,
                        0 <= self.zoom <= 0xFFFF_FFFF,
                ;
                self.scroll_x = shift_tick(self.scroll_x, -(columns * self.zoom as i64));
                if rows_down > 0 {
                    self.scroll_y = self.scroll_y.saturating_sub(steps_of(rows_down));
                } else if rows_down < 0 {
                    self.scroll_y =
                    scroll_up(self.scroll_y, steps_of(rows_down), self.layout.visible_pitches);
                }
                self.drag_state = DragState::Scrolling { last_x: x, last_y: y };
            },
            DragState::SelectingNotes { .. } => {
                if self.layout.is_in_piano_roll_grid(x, y) {
                    let (tick, pitch) = self.grid_position(x, y);
                    self.cursor_tick = tick;
                    self.cursor_pitch = pitch;
                }
            },
            DragState::MovingNotes { last_x, last_y, .. } => {
                self.drag_notes(x, y, last_x, last_y);
            },
        }
    }

    /// Handles the end of a drag: the project counts as changed if notes
    /// were moved.
    pub fn handle_drag_end(&mut self)
        ensures
            *final(self) == (App {
                last_modified: if old(self).drag_state is MovingNotes {
                    Some(old(self).now_micros)
                } else {
                    old(self).last_modified
                },
                drag_state: DragState::Idle,
                ..*old(self)
            }),
    {
        match self.drag_state {
            DragState::MovingNotes { .. } => {
                self.mark_modified();
            },
            _ => {},
        }
        self.drag_state = DragState::Idle;
    }

    /// Handles a double click at a point of the screen and returns what
    /// the synthesizer has to do.
    pub fn handle_double_click(&mut self, x: u16, y: u16) -> (commands: Vec<SynthCommand>)
        ensures
            double_clicked(*old(self), *final(self), commands@, x, y),
    {
        match self.layout.panel_at(x, y) {
            None => Vec::new(),
            Some(FocusedPanel::PianoRoll) => {
                if self.layout.is_in_piano_roll_grid(x, y) {
                    let (tick, pitch) = self.grid_position(x, y);
                    self.cursor_tick = tick;
                    self.cursor_pitch = pitch;
                    match self.note_at(pitch, tick) {
                        Some(note_id) => {
                            self.delete_note_by_id(note_id);
                            Vec::new()
                        },
                        None => self.place_note(),
                    }
                } else {
                    Vec::new()
                }
            },
            Some(FocusedPanel::TrackList) => {
                self.start_rename_track();
                Vec::new()
            },
            Some(FocusedPanel::Timeline) => self.stop_playback(),
            Some(FocusedPanel::Keyboard) => {
                self.octave_offset = 0;
                self.set_status(Notice::OctaveReset);
                Vec::new()
            },
        }
    }
}

} // verus!

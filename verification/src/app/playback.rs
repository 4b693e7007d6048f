//! Playback and live input: the transport, the sequencer update, the
//! keyboard, and recording in insert mode.

use vstd::prelude::*;
use super::editing::{has_selected_track, recorded, selected_view, with_track};
use super::{
    App, EditMode, Notice, rows, scroll_showing, scroll_showing_pitch, span_of, visible_span,
    DEFAULT_NOTE_DURATION, DEFAULT_VELOCITY, FALLBACK_COLUMNS,
};
use crate::audio::engine::{
    PlaybackState, SynthCommand, Transport, configure_all, elapsed_ticks, setup_all, ticks_in,
};
use crate::audio::sequencer::{active_tracks, dispatch, dispatched};
use crate::midi::ids::{IdAllocator, NoteId, next_counter};
use crate::midi::note::{Note, saturating_sum};
use crate::midi::project::{Project, default_project, max_track_end, position_of_tick};
use crate::midi::track::{TrackView, ordered_insert};
use crate::midi::TICKS_PER_BEAT;

verus! {

broadcast use vstd::std_specs::hash::group_hash_axioms;

/// Ticks behind the end of the project at which playback stops by itself.
pub const STOP_MARGIN_TICKS: u32 = 960;

/// Microseconds of two beats at one beat per minute: two measures of
/// `n` beats at `tempo` beats per minute last `n` times this, divided by
/// `tempo`.
pub const TWO_BEATS_MICROS: u64 = 120_000_000;

/// The note that a key of the computer keyboard plays before the octave
/// offset: the lower row from C3, the upper row from C4.
pub open spec fn key_base_note(key: char) -> Option<u8> {
    if key == 'z' || key == 'Z' {
        Some(48u8)
    } else if key == 's' || key == 'S' {
        Some(49u8)
    } else if key == 'x' || key == 'X' {
        Some(50u8)
    } else if key == 'd' || key == 'D' {
        Some(51u8)
    } else if key == 'c' || key == 'C' {
        Some(52u8)
    } else if key == 'v' || key == 'V' {
        Some(53u8)
    } else if key == 'g' || key == 'G' {
        Some(54u8)
    } else if key == 'b' || key == 'B' {
        Some(55u8)
    } else if key == 'h' || key == 'H' {
        Some(56u8)
    } else if key == 'n' || key == 'N' {
        Some(57u8)
    } else if key == 'j' || key == 'J' {
        Some(58u8)
    } else if key == 'm' || key == 'M' {
        Some(59u8)
    } else if key == 'q' || key == 'Q' {
        Some(60u8)
    } else if key == '2' {
        Some(61u8)
    } else if key == 'w' || key == 'W' {
        Some(62u8)
    } else if key == '3' {
        Some(63u8)
    } else if key == 'e' || key == 'E' {
        Some(64u8)
    } else if key == 'r' || key == 'R' {
        Some(65u8)
    } else if key == '5' {
        Some(66u8)
    } else if key == 't' || key == 'T' {
        Some(67u8)
    } else if key == '6' {
        Some(68u8)
    } else if key == 'y' || key == 'Y' {
        Some(69u8)
    } else if key == '7' {
        Some(70u8)
    } else if key == 'u' || key == 'U' {
        Some(71u8)
    } else if key == 'i' || key == 'I' {
        Some(72u8)
    } else {
        None
    }
}

/// The note that a key plays with the keyboard moved by `octave_offset`
/// octaves, if the key plays one and the note is one of 0 to 127.
pub open spec fn key_note(key: char, octave_offset: i8) -> Option<u8> {
    match key_base_note(key) {
        Some(base) => if 0 <= base + octave_offset * 12 <= 127 {
            Some((base + octave_offset * 12) as u8)
        } else {
            None
        },
        None => None,
    }
}

/// A note-off on `channel` for each held pitch below `upto`, in rising
/// order of pitch.
pub open spec fn release_commands(held: Set<u8>, channel: u8, upto: int) -> Seq<SynthCommand>
    decreases upto,
{
    if upto <= 0 {
        Seq::<SynthCommand>::empty()
    } else {
        let before = release_commands(held, channel, upto - 1);
        if held.contains((upto - 1) as u8) {
            before.push(SynthCommand::NoteOff { channel, pitch: (upto - 1) as u8 })
        } else {
            before
        }
    }
}

/// The columns of the grid: as last drawn, or 60 before it was drawn.
pub open spec fn grid_columns(grid_width: u16) -> u32 {
    if grid_width > 0 {
        grid_width as u32
    } else {
        FALLBACK_COLUMNS
    }
}

/// The first tick shown once playback stands at `current`: the view
/// moves on when the position passes three quarters of it, so that the
/// position stands at one quarter.
pub open spec fn scroll_playing(scroll_x: u32, current: u32, visible: u32) -> u32 {
    if current > scroll_x + visible * 3 / 4 {
        if current < visible / 4 {
            0
        } else {
            (current - visible / 4) as u32
        }
    } else {
        scroll_x
    }
}

/// The first tick shown once the position was set to `tick`: as before
/// if the tick is in view, else so that the tick is in the middle.
pub open spec fn scroll_seeking(scroll_x: u32, tick: u32, visible: u32) -> u32 {
    if tick < scroll_x || tick >= scroll_x + visible {
        if tick < visible / 2 {
            0
        } else {
            (tick - visible / 2) as u32
        }
    } else {
        scroll_x
    }
}

/// Microseconds from `start` to `now`; 0 if `now` is the earlier.
pub open spec fn micros_since(now: u64, start: u64) -> u64 {
    if now >= start {
        (now - start) as u64
    } else {
        0
    }
}

/// The position of a playback that began at `start_tick` at the time
/// `start`, at the time `now`.
pub open spec fn playing_tick(now: u64, start: u64, start_tick: u32, tempo: u32) -> u32 {
    saturating_sum(start_tick, ticks_in(micros_since(now, start), tempo))
}

/// The tick at which a note recorded now is placed.
pub open spec fn recording_tick(app: App) -> u32 {
    match app.insert_recording_start_time {
        Some(start) => playing_tick(
            app.now_micros,
            start,
            app.insert_recording_start_tick,
            app.project.tempo,
        ),
        None => app.cursor_tick,
    }
}

/// Recording has been idle for longer than two measures.
pub open spec fn recording_idle(app: App) -> bool {
    match app.last_insert_note_time {
        Some(last) => app.project.tempo > 0 && micros_since(app.now_micros, last) as int
            > TWO_BEATS_MICROS * app.project.time_sig_numerator / (app.project.tempo as int),
        None => false,
    }
}

/// `program + delta`, wrapped into 0 to 127.
pub open spec fn cycled_program(program: u8, delta: i8) -> u8 {
    ((program + delta) % 128) as u8
}

/// The note that `key` plays.
pub fn note_of_key(key: char, octave_offset: i8) -> (note: Option<u8>)
    ensures
        note == key_note(key, octave_offset),
{
    let base: Option<u8> = if key == 'z' || key == 'Z' {
        Some(48)
    } else if key == 's' || key == 'S' {
        Some(49)
    } else if key == 'x' || key == 'X' {
        Some(50)
    } else if key == 'd' || key == 'D' {
        Some(51)
    } else if key == 'c' || key == 'C' {
        Some(52)
    } else if key == 'v' || key == 'V' {
        Some(53)
    } else if key == 'g' || key == 'G' {
        Some(54)
    } else if key == 'b' || key == 'B' {
        Some(55)
    } else if key == 'h' || key == 'H' {
        Some(56)
    } else if key == 'n' || key == 'N' {
        Some(57)
    } else if key == 'j' || key == 'J' {
        Some(58)
    } else if key == 'm' || key == 'M' {
        Some(59)
    } else if key == 'q' || key == 'Q' {
        Some(60)
    } else if key == '2' {
        Some(61)
    } else if key == 'w' || key == 'W' {
        Some(62)
    } else if key == '3' {
        Some(63)
    } else if key == 'e' || key == 'E' {
        Some(64)
    } else if key == 'r' || key == 'R' {
        Some(65)
    } else if key == '5' {
        Some(66)
    } else if key == 't' || key == 'T' {
        Some(67)
    } else if key == '6' {
        Some(68)
    } else if key == 'y' || key == 'Y' {
        Some(69)
    } else if key == '7' {
        Some(70)
    } else if key == 'u' || key == 'U' {
        Some(71)
    } else if key == 'i' || key == 'I' {
        Some(72)
    } else {
        None
    };
    match base {
        Some(b) => {
            let note: i16 = b as i16 + octave_offset as i16 * 12;
            if 0 <= note && note <= 127 {
                Some(note as u8)
            } else {
                None
            }
        },
        None => None,
    }
}

/// The tick in the middle of a view of `visible` ticks around `tick`.
fn centered(tick: u32, visible: u32) -> (scroll: u32)
    ensures
        scroll == (if tick < visible / 2 {
            0
        } else {
            tick - visible / 2
        }),
{
    tick.saturating_sub(visible / 2)
}

/// What playing or pausing makes of the editor. While playing: the
/// transport pauses and the voices ring out. Otherwise: every track is
/// set up on the synthesizer and the transport plays from its position;
/// a playback from tick 0 has dispatched nothing yet.
pub open spec fn playback_toggled(before: App, after: App, commands: Seq<SynthCommand>) -> bool {
    &&& before.transport.playback_state == PlaybackState::Playing ==> {
        &&& commands == seq![SynthCommand::AllNotesOff { immediate: false }]
        &&& after.transport == (Transport {
            playing: false,
            playback_state: PlaybackState::Paused,
            ..before.transport
        })
        &&& after.playback_start_time.is_none()
        &&& after.status_message matches Some((Notice::Paused, time)) && time == before.now_micros
        &&& after == (App {
            transport: after.transport,
            playback_start_time: None,
            status_message: after.status_message,
            ..before
        })
    }
    &&& before.transport.playback_state != PlaybackState::Playing ==> {
        let position = before.transport.position_ticks;
        &&& commands == setup_all(
            before.project@.tracks,
            before.project@.tracks.len() as int,
        )
        &&& after.transport == (Transport {
            playing: true,
            playback_state: PlaybackState::Playing,
            tempo: before.project.tempo,
            ..before.transport
        })
        &&& after.playback_start_time == Some(before.now_micros)
        &&& after.playback_start_tick == position
        &&& after.last_sequencer_tick == (if position == 0 {
            None
        } else {
            Some(position)
        })
        &&& after.status_message matches Some((Notice::Playing, time)) && time == before.now_micros
        &&& after == (App {
            transport: after.transport,
            playback_start_time: after.playback_start_time,
            playback_start_tick: position,
            last_sequencer_tick: after.last_sequencer_tick,
            status_message: after.status_message,
            ..before
        })
    }
}

/// What stopping makes of the editor: every voice is cut, and position,
/// cursor and view are back at tick 0.
pub open spec fn playback_stopped(before: App, after: App, commands: Seq<SynthCommand>) -> bool {
    &&& commands == seq![SynthCommand::AllNotesOff { immediate: true }]
    &&& after.transport == (Transport {
        playing: false,
        playback_state: PlaybackState::Stopped,
        position_ticks: 0,
        ..before.transport
    })
    &&& after.status_message matches Some((Notice::Stopped, time)) && time == before.now_micros
    &&& after == (App {
        transport: after.transport,
        playback_start_time: None,
        cursor_tick: 0,
        scroll_x: 0,
        status_message: after.status_message,
        ..before
    })
}

/// What seeking to `tick` makes of the editor: cursor and position are at
/// `tick`, the view holds it, and while playing every voice is cut and
/// the sequencer goes on from `tick`.
pub open spec fn sought(before: App, after: App, commands: Seq<SynthCommand>, tick: u32) -> bool {
    &&& after.cursor_tick == tick
    &&& after.transport == (Transport { position_ticks: tick, ..before.transport })
    &&& after.scroll_x == scroll_seeking(
        before.scroll_x,
        tick,
        visible_span(before.zoom, grid_columns(before.layout.piano_roll_grid.width)),
    )
    &&& before.transport.playing ==> {
        &&& commands == seq![SynthCommand::AllNotesOff { immediate: true }]
        &&& after.playback_start_time == Some(before.now_micros)
        &&& after.playback_start_tick == tick
        &&& after.last_sequencer_tick == Some(tick)
    }
    &&& !before.transport.playing ==> {
        &&& commands.len() == 0
        &&& after.playback_start_time == before.playback_start_time
        &&& after.playback_start_tick == before.playback_start_tick
        &&& after.last_sequencer_tick == before.last_sequencer_tick
    }
    &&& after.status_message matches Some((Notice::SeekTo { measure, beat, tick: sub }, time)) && time == before.now_micros
        && (measure as int, beat as int, sub as int) == position_of_tick(
        tick,
        before.project.spec_ticks_per_measure(),
    )
    &&& after == (App {
        cursor_tick: tick,
        transport: after.transport,
        scroll_x: after.scroll_x,
        playback_start_time: after.playback_start_time,
        playback_start_tick: after.playback_start_tick,
        last_sequencer_tick: after.last_sequencer_tick,
        status_message: after.status_message,
        ..before
    })
}

/// What a restart makes of the editor: it plays from tick 0, whatever
/// the transport was doing.
pub open spec fn playback_restarted(before: App, after: App, commands: Seq<SynthCommand>) -> bool {
    &&& commands == seq![SynthCommand::AllNotesOff { immediate: true }] + setup_all(
        before.project@.tracks,
        before.project@.tracks.len() as int,
    )
    &&& after.transport == (Transport {
        playing: true,
        playback_state: PlaybackState::Playing,
        position_ticks: 0,
        tempo: before.project.tempo,
    })
    &&& after.status_message matches Some((Notice::Restarting, time)) && time == before.now_micros
    &&& after == (App {
        transport: after.transport,
        playback_start_time: Some(before.now_micros),
        playback_start_tick: 0,
        last_sequencer_tick: None,
        cursor_tick: 0,
        scroll_x: 0,
        status_message: after.status_message,
        ..before
    })
}

/// What a step of `delta` through the instruments makes of the editor,
/// and what the synthesizer has to do.
pub open spec fn instrument_cycled(before: App, after: App, commands: Seq<SynthCommand>, delta: i8) -> bool {
    &&& after.held_notes@ == Set::<u8>::empty()
    &&& !has_selected_track(before) ==> {
        &&& commands == release_commands(before.held_notes@, 0, 256).push(
            SynthCommand::AllNotesOff { immediate: true },
        )
        &&& after == (App { held_notes: after.held_notes, ..before })
    }
    &&& has_selected_track(before) ==> {
        let track = selected_view(before);
        let program = cycled_program(track.program, delta);
        &&& recorded(before, after, "Change instrument"@)
        &&& commands == release_commands(before.held_notes@, track.channel, 256).push(
            SynthCommand::AllNotesOff { immediate: true },
        ).push(SynthCommand::SetProgram { channel: track.channel, program })
        &&& after.project@ == with_track(
            before.project@,
            before.selected_track_index as int,
            TrackView { program, ..track },
        )
        &&& after.status_message matches Some((Notice::Instrument { program: shown }, time)) && time == before.now_micros
            && shown == program
        &&& after == (App {
            project: after.project,
            held_notes: after.held_notes,
            history: after.history,
            last_modified: after.last_modified,
            status_message: after.status_message,
            ..before
        })
    }
}

/// What the key `key` of the computer keyboard makes of the editor,
/// whether it is a key that plays a note, and what the synthesizer has
/// to do.
pub open spec fn note_key_pressed(before: App, after: App, played: bool, commands: Seq<SynthCommand>, key: char) -> bool {
    &&& key_note(key, before.octave_offset).is_none() ==> !played && commands.len() == 0
        && after == before
    &&& key_note(key, before.octave_offset) matches Some(note) ==> {
        let channel = before.selected_channel_spec();
        let held = before.held_notes@.contains(note);
        let on = SynthCommand::NoteOn { channel, pitch: note, velocity: DEFAULT_VELOCITY };
        &&& before.edit_mode != EditMode::Insert && held ==> !played && commands.len()
            == 0 && after == before
        &&& before.edit_mode != EditMode::Insert && !held ==> {
            &&& played
            &&& commands == seq![on]
            &&& after.held_notes@ == before.held_notes@.insert(note)
            &&& after == (App { held_notes: after.held_notes, ..before })
        }
        &&& before.edit_mode == EditMode::Insert ==> {
            let began = App {
                insert_recording_active: true,
                insert_recording_start_time: if before.insert_recording_active {
                    before.insert_recording_start_time
                } else {
                    Some(before.now_micros)
                },
                insert_recording_start_tick: if before.insert_recording_active {
                    before.insert_recording_start_tick
                } else {
                    before.cursor_tick
                },
                ..before
            };
            let tick = recording_tick(began);
            &&& played
            &&& commands == (if held {
                seq![SynthCommand::NoteOff { channel, pitch: note }, on]
            } else {
                seq![on]
            })
            &&& after.held_notes@ == before.held_notes@.insert(note)
            &&& after.insert_recording_active
            &&& after.insert_recording_start_time == began.insert_recording_start_time
            &&& after.insert_recording_start_tick == began.insert_recording_start_tick
            &&& after.last_insert_note_time == Some(before.now_micros)
            &&& after.cursor_tick == tick
            &&& after.history@ == crate::history::after_push_undo(
                before.history@,
                super::editing::snapshot_view(before, "Insert note"@),
            )
            &&& after.last_modified == Some(before.now_micros)
            &&& !has_selected_track(before) ==> after == (App {
                held_notes: after.held_notes,
                history: after.history,
                last_modified: after.last_modified,
                insert_recording_active: true,
                insert_recording_start_time: began.insert_recording_start_time,
                insert_recording_start_tick: began.insert_recording_start_tick,
                last_insert_note_time: after.last_insert_note_time,
                cursor_tick: tick,
                ..before
            })
            &&& has_selected_track(before) ==> after == (App {
                project: after.project,
                ids: IdAllocator { next_note: next_counter(before.ids.next_note), ..before.ids },
                held_notes: after.held_notes,
                history: after.history,
                last_modified: after.last_modified,
                insert_recording_active: true,
                insert_recording_start_time: began.insert_recording_start_time,
                insert_recording_start_tick: began.insert_recording_start_tick,
                last_insert_note_time: after.last_insert_note_time,
                cursor_tick: tick,
                cursor_pitch: note,
                scroll_x: scroll_showing(before.scroll_x, tick, visible_span(before.zoom, 70)),
                scroll_y: scroll_showing_pitch(
                    before.scroll_y,
                    note,
                    rows(before.layout.visible_pitches),
                ),
                recently_added_beat: Some(tick / TICKS_PER_BEAT),
                recently_added_note: Some((NoteId(before.ids.next_note), tick)),
                recently_added_pitch: Some(note),
                ..before
            })
            &&& has_selected_track(before) && before.project.tracks@[before.selected_track_index as int].is_sorted() ==> after.project@ == with_track(
                before.project@,
                before.selected_track_index as int,
                TrackView {
                    notes: ordered_insert(
                        selected_view(before).notes,
                        Note {
                            id: NoteId(before.ids.next_note),
                            pitch: note,
                            velocity: DEFAULT_VELOCITY,
                            start_tick: tick,
                            duration_ticks: DEFAULT_NOTE_DURATION,
                        },
                    ),
                    ..selected_view(before)
                },
            )
        }
    }
}

/// The editor after a recording has ended: the cursor stands where the
/// recording had come to.
pub open spec fn recording_end(before: App) -> App {
    App {
        cursor_tick: if before.insert_recording_active {
            recording_tick(before)
        } else {
            before.cursor_tick
        },
        insert_recording_active: false,
        insert_recording_start_time: None,
        last_insert_note_time: None,
        ..before
    }
}

/// What the end of a recording makes of the editor.
pub open spec fn recording_stopped(before: App, after: App) -> bool {
    after == recording_end(before)
}

/// What letting go of every key makes of the editor, and what the
/// synthesizer has to do.
pub open spec fn notes_released(before: App, after: App, commands: Seq<SynthCommand>) -> bool {
    &&& commands == release_commands(before.held_notes@, before.selected_channel_spec(), 256)
    &&& after.held_notes@ == Set::<u8>::empty()
    &&& after == (App { held_notes: after.held_notes, ..before })
}

/// What beginning a new project makes of the editor, and what the
/// synthesizer has to do.
pub open spec fn project_reset(before: App, after: App, commands: Seq<SynthCommand>) -> bool {
    &&& after.project@ == default_project("New Project"@, before.ids)
    &&& after.project.is_valid()
    &&& commands == seq![SynthCommand::AllNotesOff { immediate: true }] + setup_all(
        after.project@.tracks,
        1,
    )
    &&& after.ids == (IdAllocator { next_track: next_counter(before.ids.next_track), ..before.ids })
    &&& after.transport == (Transport {
        playing: false,
        playback_state: PlaybackState::Stopped,
        position_ticks: 0,
        ..before.transport
    })
    &&& after.selected_notes@ == Set::<u64>::empty()
    &&& after.active_tracks@ == Set::<usize>::empty()
    &&& after.held_notes@ == Set::<u8>::empty()
    &&& after.history@.undo.len() == 0
    &&& after.history@.redo.len() == 0
    &&& after.status_message matches Some((Notice::NewProjectCreated, time)) && time == before.now_micros
    &&& after == (App {
        project: after.project,
        ids: after.ids,
        transport: after.transport,
        playback_start_time: None,
        selected_track_index: 0,
        selected_notes: after.selected_notes,
        cursor_tick: 0,
        cursor_pitch: 60,
        scroll_x: 0,
        scroll_y: 48,
        last_modified: None,
        last_autosave: None,
        active_tracks: after.active_tracks,
        held_notes: after.held_notes,
        insert_recording_active: false,
        insert_recording_start_time: None,
        insert_recording_start_tick: 0,
        last_insert_note_time: None,
        recently_added_beat: None,
        recently_added_note: None,
        recently_added_pitch: None,
        history: after.history,
        status_message: after.status_message,
        ..before
    })
}

impl App {
    /// The commands that release every held key on the channel of the
    /// selected track; no key is held afterwards.
    pub fn release_all_notes(&mut self) -> (commands: Vec<SynthCommand>)
        ensures
            notes_released(*old(self), *final(self), commands@),
    {
        let channel = self.selected_channel();
        let mut commands: Vec<SynthCommand> = Vec::new();
        let mut pitch: u16 = 0;
        while pitch < 256
            invariant
                pitch <= 256,
                channel == self.selected_channel_spec(),
                commands@ == release_commands(self.held_notes@, channel, pitch as int),
            decreases 256 - pitch,
        {
            let p = pitch as u8;
            if self.held_notes.contains(&p) {
                commands.push(SynthCommand::NoteOff { channel, pitch: p });
            }
            pitch += 1;
        }
        self.held_notes.clear();
        commands
    }

    /// Plays or pauses. While playing: pauses and lets the voices ring
    /// out. Otherwise: sets every track up on the synthesizer and plays
    /// from the position of the transport; a playback from tick 0 also
    /// sounds the notes that begin at tick 0.
    pub fn toggle_playback(&mut self) -> (commands: Vec<SynthCommand>)
        ensures
            playback_toggled(*old(self), *final(self), commands@),
    {
        let mut commands: Vec<SynthCommand> = Vec::new();
        match self.transport.playback_state() {
            PlaybackState::Playing => {
                self.transport.set_playing(false);
                commands.push(SynthCommand::AllNotesOff { immediate: false });
                self.playback_start_time = None;
                self.set_status(Notice::Paused);
            },
            _ => {
                configure_all(&self.project, &mut commands);
                self.transport.set_tempo(self.project.tempo);
                self.playback_start_time = Some(self.now_micros);
                let position = self.transport.position_ticks();
                self.playback_start_tick = position;
                self.last_sequencer_tick = if position == 0 {
                    None
                } else {
                    Some(position)
                };
                self.transport.set_playing(true);
                self.set_status(Notice::Playing);
            },
        }
        commands
    }

    /// Stops: every voice is cut, position, cursor and view go back to
    /// tick 0.
    pub fn stop_playback(&mut self) -> (commands: Vec<SynthCommand>)
        ensures
            playback_stopped(*old(self), *final(self), commands@),
    {
        let mut commands: Vec<SynthCommand> = Vec::new();
        commands.push(self.transport.stop());
        self.playback_start_time = None;
        self.cursor_tick = 0;
        self.scroll_x = 0;
        self.set_status(Notice::Stopped);
        commands
    }

    /// Plays from tick 0, whatever the transport was doing: as a stop
    /// followed by a play.
    pub fn restart_playback(&mut self) -> (commands: Vec<SynthCommand>)
        ensures
            playback_restarted(*old(self), *final(self), commands@),
    {
        let mut commands: Vec<SynthCommand> = Vec::new();
        commands.push(self.transport.stop());
        self.cursor_tick = 0;
        self.scroll_x = 0;
        configure_all(&self.project, &mut commands);
        self.transport.set_tempo(self.project.tempo);
        self.playback_start_time = Some(self.now_micros);
        self.playback_start_tick = 0;
        self.last_sequencer_tick = None;
        self.transport.set_playing(true);
        self.set_status(Notice::Restarting);
        commands
    }

    /// Sets cursor and position to `tick`. While playing, every voice is
    /// cut and the sequencer goes on from `tick`, so that no note before
    /// it is dispatched again. The view moves if `tick` is out of it.
    #[verifier::rlimit(40)]
    pub fn seek_to_tick(&mut self, tick: u32) -> (commands: Vec<SynthCommand>)
        requires
            old(self).project.time_sig_denominator > 0,
            old(self).project.time_sig_numerator > 0,
        ensures
            sought(*old(self), *final(self), commands@, tick),
    {
        let mut commands: Vec<SynthCommand> = Vec::new();
        self.cursor_tick = tick;
        if self.transport.is_playing() {
            commands.push(SynthCommand::AllNotesOff { immediate: true });
            self.playback_start_time = Some(self.now_micros);
            self.playback_start_tick = tick;
            self.last_sequencer_tick = Some(tick);
        }
        self.transport.set_position_ticks(tick);
        let columns: u32 = if self.layout.piano_roll_grid.width > 0 {
            self.layout.piano_roll_grid.width as u32
        } else {
            FALLBACK_COLUMNS
        };
        let visible = span_of(self.zoom, columns);
        if tick < self.scroll_x || tick as u64 >= self.scroll_x as u64 + visible as u64 {
            self.scroll_x = centered(tick, visible);
        }
        let (measure, beat, sub) = self.project.tick_to_position(tick);
        self.set_status(Notice::SeekTo { measure, beat, tick: sub });
        commands
    }

    /// One update of the sequencer, to be invoked many times a second.
    ///
    /// While nothing plays, no track is active and nothing is sent.
    /// While playing, the position follows the clock, the notes that
    /// begin or end between the last position and this one are sent to
    /// the synthesizer, the view follows the position, and playback
    /// stops two beats behind the end of the project.
    pub fn update_sequencer(&mut self) -> (commands: Vec<SynthCommand>)
        ensures
            !old(self).transport.playing ==> {
                &&& commands@.len() == 0
                &&& final(self).active_tracks@ == Set::<usize>::empty()
                &&& *final(self) == (App { active_tracks: final(self).active_tracks, ..*old(self) })
            },
            old(self).transport.playing && old(self).playback_start_time.is_none() ==> {
                &&& commands@.len() == 0
                &&& *final(self) == *old(self)
            },
            old(self).transport.playing && old(self).playback_start_time.is_some() ==> {
                let current = playing_tick(
                    old(self).now_micros,
                    old(self).playback_start_time.unwrap(),
                    old(self).playback_start_tick,
                    old(self).project.tempo,
                );
                let sent = dispatched(old(self).project@.tracks, old(self).last_sequencer_tick, current);
                let ended = current > max_track_end(old(self).project@.tracks) + STOP_MARGIN_TICKS;
                &&& final(self).last_sequencer_tick == Some(current)
                &&& final(self).active_tracks@ == active_tracks(old(self).project@.tracks, current)
                &&& *final(self) == (App {
                    last_sequencer_tick: Some(current),
                    active_tracks: final(self).active_tracks,
                    transport: final(self).transport,
                    cursor_tick: final(self).cursor_tick,
                    scroll_x: final(self).scroll_x,
                    playback_start_time: final(self).playback_start_time,
                    status_message: if ended {
                        Some((Notice::Stopped, old(self).now_micros))
                    } else {
                        old(self).status_message
                    },
                    ..*old(self)
                })
                &&& !ended ==> {
                    &&& commands@ == sent
                    &&& final(self).transport == (Transport {
                        position_ticks: current,
                        ..old(self).transport
                    })
                    &&& final(self).cursor_tick == current
                    &&& final(self).scroll_x == scroll_playing(
                        old(self).scroll_x,
                        current,
                        visible_span(old(self).zoom, grid_columns(old(self).layout.piano_roll_grid.width)),
                    )
                    &&& final(self).playback_start_time == old(self).playback_start_time
                }
                &&& ended ==> {
                    &&& commands@ == sent.push(SynthCommand::AllNotesOff { immediate: true })
                    &&& final(self).transport == (Transport {
                        playing: false,
                        playback_state: PlaybackState::Stopped,
                        position_ticks: 0,
                        ..old(self).transport
                    })
                    &&& final(self).cursor_tick == 0
                    &&& final(self).scroll_x == 0
                    &&& final(self).playback_start_time.is_none()
                }
            },
    {
        if !self.transport.is_playing() {
            self.active_tracks.clear();
            return Vec::new();
        }
        let start = match self.playback_start_time {
            Some(start) => start,
            None => {
                return Vec::new();
            },
        };
        let elapsed: u64 = if self.now_micros >= start {
            self.now_micros - start
        } else {
            0
        };
        let current = self.playback_start_tick.saturating_add(
            elapsed_ticks(elapsed, self.project.tempo),
        );
        self.transport.set_position_ticks(current);
        self.cursor_tick = current;
        let (mut commands, active) = dispatch(&self.project, self.last_sequencer_tick, current);
        self.active_tracks = active;
        self.last_sequencer_tick = Some(current);
        let columns: u32 = if self.layout.piano_roll_grid.width > 0 {
            self.layout.piano_roll_grid.width as u32
        } else {
            FALLBACK_COLUMNS
        };
        let visible = span_of(self.zoom, columns);
        if current as u64 > self.scroll_x as u64 + visible as u64 * 3 / 4 {
            self.scroll_x = current.saturating_sub(visible / 4);
        }
        let end = self.project.duration_ticks();
        if current as u64 > end as u64 + STOP_MARGIN_TICKS as u64 {
            let mut stop = self.stop_playback();
            commands.append(&mut stop);
        }
        commands
    }

    /// The tick at which a note recorded now is placed: the tick at which
    /// recording began and the ticks that passed since; the tick of the
    /// cursor while nothing is recorded.
    pub fn get_insert_recording_tick(&self) -> (tick: u32)
        ensures
            tick == recording_tick(*self),
    {
        match self.insert_recording_start_time {
            Some(start) => {
                let elapsed: u64 = if self.now_micros >= start {
                    self.now_micros - start
                } else {
                    0
                };
                self.insert_recording_start_tick.saturating_add(
                    elapsed_ticks(elapsed, self.project.tempo),
                )
            },
            None => self.cursor_tick,
        }
    }

    /// Where the moving line of a recording stands, while one is going on
    /// in insert mode.
    pub fn get_insert_indicator_tick(&self) -> (tick: Option<u32>)
        ensures
            tick == (if self.insert_recording_active && self.edit_mode == EditMode::Insert {
                Some(recording_tick(*self))
            } else {
                None
            }),
    {
        let insert = match self.edit_mode {
            EditMode::Insert => true,
            _ => false,
        };
        if self.insert_recording_active && insert {
            Some(self.get_insert_recording_tick())
        } else {
            None
        }
    }

    /// Ends a recording in insert mode once no note was recorded for
    /// longer than two measures; the cursor goes to where the recording
    /// stood.
    pub fn update_insert_recording(&mut self)
        ensures
            !(old(self).insert_recording_active && old(self).edit_mode == EditMode::Insert
                && recording_idle(*old(self))) ==> *final(self) == *old(self),
            old(self).insert_recording_active && old(self).edit_mode == EditMode::Insert
                && recording_idle(*old(self)) ==> {
                &&& final(self).status_message matches Some((Notice::RecordingStopped, time)) && time == old(self).now_micros
                &&& *final(self) == (App {
                    cursor_tick: recording_tick(*old(self)),
                    insert_recording_active: false,
                    insert_recording_start_time: None,
                    last_insert_note_time: None,
                    status_message: final(self).status_message,
                    ..*old(self)
                })
            },
    {
        let insert = match self.edit_mode {
            EditMode::Insert => true,
            _ => false,
        };
        if !self.insert_recording_active || !insert {
            return;
        }
        match self.last_insert_note_time {
            Some(last) => {
                if self.project.tempo == 0 {
                    return;
                }
                let idle: u64 = if self.now_micros >= last {
                    self.now_micros - last
                } else {
                    0
                };
                let limit: u64 = TWO_BEATS_MICROS * self.project.time_sig_numerator as u64
                    / self.project.tempo as u64;
                if idle > limit {
                    self.cursor_tick = self.get_insert_recording_tick();
                    self.insert_recording_active = false;
                    self.insert_recording_start_time = None;
                    self.last_insert_note_time = None;
                    self.set_status(Notice::RecordingStopped);
                }
            },
            None => {},
        }
    }

    /// Ends a recording in insert mode, if one is going on; the cursor
    /// goes to where the recording stood.
    pub fn stop_insert_recording(&mut self)
        ensures
            recording_stopped(*old(self), *final(self)),
    {
        if self.insert_recording_active {
            self.cursor_tick = self.get_insert_recording_tick();
        }
        self.insert_recording_active = false;
        self.insert_recording_start_time = None;
        self.last_insert_note_time = None;
    }

    /// Takes in a key of the computer keyboard as a key of the piano.
    /// Returns whether the key played a note, and the commands for the
    /// synthesizer.
    ///
    /// Outside insert mode a key sounds its note unless it is held
    /// already. In insert mode every press sounds the note anew and
    /// records it: the first press begins the recording at the cursor,
    /// each note is placed where the recording stands, and keys pressed
    /// together give notes at one tick.
    #[verifier::rlimit(40)]
    pub fn handle_note_key(&mut self, key: char) -> (played: (bool, Vec<SynthCommand>))
        ensures
            note_key_pressed(*old(self), *final(self), played.0, played.1@, key),
    {
        let mut commands: Vec<SynthCommand> = Vec::new();
        let note = match note_of_key(key, self.octave_offset) {
            Some(note) => note,
            None => {
                return (false, commands);
            },
        };
        let channel = self.selected_channel();
        let held = self.held_notes.contains(&note);
        let insert = match self.edit_mode {
            EditMode::Insert => true,
            _ => false,
        };
        if !insert {
            if held {
                return (false, commands);
            }
            self.held_notes.insert(note);
            commands.push(SynthCommand::NoteOn { channel, pitch: note, velocity: DEFAULT_VELOCITY });
            return (true, commands);
        }
        if held {
            commands.push(SynthCommand::NoteOff { channel, pitch: note });
            assert(self.held_notes@ =~= self.held_notes@.insert(note));
        } else {
            self.held_notes.insert(note);
        }
        commands.push(SynthCommand::NoteOn { channel, pitch: note, velocity: DEFAULT_VELOCITY });
        let ghost snap = super::editing::snapshot_view(*old(self), "Insert note"@);
        if !self.insert_recording_active {
            self.insert_recording_active = true;
            self.insert_recording_start_time = Some(self.now_micros);
            self.insert_recording_start_tick = self.cursor_tick;
        }
        let tick = self.get_insert_recording_tick();
        self.save_state("Insert note");
        let index = self.selected_track_index;
        if index < self.project.tracks.len() {
            let ghost before = self.project@;
            let ghost old_tracks = self.project.tracks@;
            let mut track = self.project.tracks.remove(index);
            let id = track.create_note(&mut self.ids, note, DEFAULT_VELOCITY, tick, DEFAULT_NOTE_DURATION);
            let ghost put = track;
            self.project.tracks.insert(index, track);
            proof {
                assert(self.project.tracks@ =~= old_tracks.update(index as int, put));
                assert(self.project@.tracks =~= before.tracks.update(index as int, put@));
            }
            self.register_added_note(id, note, tick);
        }
        self.last_insert_note_time = Some(self.now_micros);
        self.cursor_tick = tick;
        self.mark_modified();
        proof {
            let on = SynthCommand::NoteOn { channel, pitch: note, velocity: DEFAULT_VELOCITY };
            if held {
                assert(commands@ =~= seq![SynthCommand::NoteOff { channel, pitch: note }, on]);
            } else {
                assert(commands@ =~= seq![on]);
            }
        }
        (true, commands)
    }

    /// Takes in the release of a key of the computer keyboard: the
    /// note-off of its note, if that note was held.
    pub fn handle_note_key_release(&mut self, key: char) -> (commands: Vec<SynthCommand>)
        ensures
            match key_note(key, old(self).octave_offset) {
                Some(note) => if old(self).held_notes@.contains(note) {
                    &&& commands@ == seq![
                        SynthCommand::NoteOff {
                            channel: old(self).selected_channel_spec(),
                            pitch: note,
                        },
                    ]
                    &&& final(self).held_notes@ == old(self).held_notes@.remove(note)
                    &&& *final(self) == (App { held_notes: final(self).held_notes, ..*old(self) })
                } else {
                    commands@.len() == 0 && *final(self) == *old(self)
                },
                None => commands@.len() == 0 && *final(self) == *old(self),
            },
    {
        let mut commands: Vec<SynthCommand> = Vec::new();
        match note_of_key(key, self.octave_offset) {
            Some(note) => {
                if self.held_notes.contains(&note) {
                    let channel = self.selected_channel();
                    self.held_notes.remove(&note);
                    commands.push(SynthCommand::NoteOff { channel, pitch: note });
                }
            },
            None => {},
        }
        commands
    }

    /// Moves the instrument of the selected track by `delta` programs,
    /// going round from 127 to 0. Every held key is released and every
    /// voice cut first, so that none rings on with the old instrument.
    pub fn cycle_instrument(&mut self, delta: i8) -> (commands: Vec<SynthCommand>)
        ensures
            instrument_cycled(*old(self), *final(self), commands@, delta),
    {
        let index = self.selected_track_index;
        let selected = index < self.project.tracks.len();
        if selected {
            self.save_state("Change instrument");
        }
        let mut commands = self.release_all_notes();
        commands.push(SynthCommand::AllNotesOff { immediate: true });
        if selected {
            let ghost before = self.project@;
            let ghost old_tracks = self.project.tracks@;
            let mut track = self.project.tracks.remove(index);
            let wide: i16 = track.program as i16 + delta as i16;
            let program: u8 = if wide < 0 {
                (wide + 128) as u8
            } else {
                (wide % 128) as u8
            };
            track.program = program;
            let channel = track.channel;
            let ghost put = track;
            self.project.tracks.insert(index, track);
            proof {
                assert(self.project.tracks@ =~= old_tracks.update(index as int, put));
                assert(self.project@.tracks =~= before.tracks.update(index as int, put@));
            }
            commands.push(SynthCommand::SetProgram { channel, program });
            self.set_status(Notice::Instrument { program });
            self.mark_modified();
        }
        commands
    }

    /// Takes over a project that was loaded: playback stops, the first
    /// track is selected, nothing else is, cursor and view go to tick 0,
    /// the history is emptied. Returns the commands that cut every voice
    /// and set every track up.
    pub fn load_project(&mut self, project: Project) -> (commands: Vec<SynthCommand>)
        ensures
            commands@ == seq![SynthCommand::AllNotesOff { immediate: true }] + setup_all(
                project@.tracks,
                project@.tracks.len() as int,
            ),
            final(self).project == project,
            final(self).transport == (Transport {
                playing: false,
                playback_state: PlaybackState::Stopped,
                position_ticks: 0,
                ..old(self).transport
            }),
            final(self).selected_notes@ == Set::<u64>::empty(),
            final(self).active_tracks@ == Set::<usize>::empty(),
            final(self).history@.undo.len() == 0,
            final(self).history@.redo.len() == 0,
            final(self).status_message matches Some((Notice::ProjectLoaded, time)) && time == old(self).now_micros,
            *final(self) == (App {
                project,
                transport: final(self).transport,
                playback_start_time: None,
                last_sequencer_tick: None,
                playback_start_tick: 0,
                active_tracks: final(self).active_tracks,
                selected_track_index: 0,
                selected_notes: final(self).selected_notes,
                cursor_tick: 0,
                scroll_x: 0,
                history: final(self).history,
                status_message: final(self).status_message,
                ..*old(self)
            }),
    {
        let mut commands: Vec<SynthCommand> = Vec::new();
        commands.push(self.transport.stop());
        self.playback_start_time = None;
        self.last_sequencer_tick = None;
        self.playback_start_tick = 0;
        self.active_tracks.clear();
        self.project = project;
        self.selected_track_index = 0;
        self.selected_notes.clear();
        self.cursor_tick = 0;
        self.scroll_x = 0;
        self.history.clear();
        configure_all(&self.project, &mut commands);
        self.set_status(Notice::ProjectLoaded);
        commands
    }

    /// Begins a new project "New Project" with one track: playback
    /// stops, selection, cursor, view, recording and history start
    /// afresh; editing mode and octave stay.
    pub fn reset_to_new_project(&mut self) -> (commands: Vec<SynthCommand>)
        ensures
            project_reset(*old(self), *final(self), commands@),
    {
        let mut commands: Vec<SynthCommand> = Vec::new();
        commands.push(self.transport.stop());
        self.playback_start_time = None;
        self.project = Project::with_default_track(&mut self.ids, "New Project");
        self.selected_track_index = 0;
        self.selected_notes.clear();
        self.cursor_tick = 0;
        self.cursor_pitch = 60;
        self.scroll_x = 0;
        self.scroll_y = 48;
        self.last_modified = None;
        self.last_autosave = None;
        self.active_tracks.clear();
        self.held_notes.clear();
        self.insert_recording_active = false;
        self.insert_recording_start_time = None;
        self.insert_recording_start_tick = 0;
        self.last_insert_note_time = None;
        self.recently_added_beat = None;
        self.recently_added_note = None;
        self.recently_added_pitch = None;
        self.history.clear();
        configure_all(&self.project, &mut commands);
        self.set_status(Notice::NewProjectCreated);
        commands
    }
}

} // verus!

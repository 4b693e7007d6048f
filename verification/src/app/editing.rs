//! Edits of the project: notes, tracks, tempo and time signature, and
//! undo and redo.
//!
//! Every edit first puts a snapshot of the state on the undo stack and,
//! once it is done, notes the time of the change.

use vstd::prelude::*;
use super::{
    App, Notice, rows, scroll_showing, scroll_showing_pitch, visible_span, DEFAULT_NOTE_DURATION,
    DEFAULT_VELOCITY,
};
use crate::audio::engine::{SynthCommand, configure_all, setup_all};
use crate::history::{
    SnapshotView, StateSnapshot, after_pop_redo, after_pop_undo, after_push_redo, after_push_undo,
    after_push_undo_preserve_redo, restorable, restored_selection,
};
use crate::midi::edit::{NoteEdit, notes_after_edit};
use crate::midi::ids::{IdAllocator, NoteId, next_counter};
use crate::midi::note::{Note, min_u8};
use crate::midi::project::{
    ProjectView, following_channel, index_of_track, MAX_NUMERATOR, MAX_TEMPO, MIN_TEMPO,
};
use crate::midi::track::{Track, TrackView, has_id, index_of_id, ordered_insert};
use crate::midi::TICKS_PER_BEAT;
use crate::text::{chars_of, decimal_text, pop_char, push_char, push_decimal, text_of};

verus! {

broadcast use vstd::std_specs::hash::group_hash_axioms;

/// Most bytes that the name typed for a track can have before a further
/// character is refused.
pub const RENAME_LIMIT: usize = 32;

/// The snapshot that `save_state` takes of `app`.
pub open spec fn snapshot_view(app: App, description: Seq<char>) -> SnapshotView {
    SnapshotView {
        project: app.project@,
        selected_track_index: app.selected_track_index,
        selected_notes: app.selected_notes@,
        description,
    }
}

/// The project has a track at the selected index.
pub open spec fn has_selected_track(app: App) -> bool {
    app.selected_track_index < app.project.tracks@.len()
}

/// The selected track, as mathematical values.
pub open spec fn selected_view(app: App) -> TrackView {
    app.project@.tracks[app.selected_track_index as int]
}

/// `project` with `track` in place of the track at `index`.
pub open spec fn with_track(project: ProjectView, index: int, track: TrackView) -> ProjectView {
    ProjectView { tracks: project.tracks.update(index, track), ..project }
}

/// Index of the first note at or behind `from` that has `pitch` and
/// sounds at `tick`; the number of notes if there is none.
pub open spec fn note_index_at(notes: Seq<Note>, pitch: u8, tick: u32, from: int) -> int
    decreases notes.len() - from,
{
    if 0 <= from < notes.len() && !(notes[from].pitch == pitch && notes[from].spec_is_active_at(tick)) {
        note_index_at(notes, pitch, tick, from + 1)
    } else {
        from
    }
}

/// `note_index_at` lies at or behind `from` and within the notes or just
/// behind them.
pub proof fn lemma_note_index_at(notes: Seq<Note>, pitch: u8, tick: u32, from: int)
    requires
        0 <= from <= notes.len(),
    ensures
        from <= note_index_at(notes, pitch, tick, from) <= notes.len(),
    decreases notes.len() - from,
{
    if from < notes.len() && !(notes[from].pitch == pitch && notes[from].spec_is_active_at(tick)) {
        lemma_note_index_at(notes, pitch, tick, from + 1);
    }
}

/// `value + delta`, held within `low` and `high`.
pub open spec fn clamped(value: int, delta: int, low: int, high: int) -> int {
    if value + delta < low {
        low
    } else if value + delta > high {
        high
    } else {
        value + delta
    }
}

/// The denominator that follows `denominator`: 2, 4, 8, 16, and round
/// again; 2 behind any other value.
pub open spec fn next_denominator(denominator: u8) -> u8 {
    if denominator == 2 {
        4
    } else if denominator == 4 {
        8
    } else if denominator == 8 {
        16
    } else {
        2
    }
}

/// The selected track index once the project has `count` tracks left.
pub open spec fn index_within(index: usize, count: nat) -> usize {
    if count == 0 {
        0
    } else if index >= count {
        (count - 1) as usize
    } else {
        index
    }
}

/// The edit was recorded: a snapshot of `before` is on the undo stack,
/// nothing is left to redo, and the time of the change is noted.
pub open spec fn recorded(before: App, after: App, description: Seq<char>) -> bool {
    &&& after.history@ == after_push_undo(before.history@, snapshot_view(before, description))
    &&& after.last_modified == Some(before.now_micros)
}

/// The state that an undo or redo brings back from `snap`.
pub open spec fn restored(before: App, after: App, snap: SnapshotView) -> bool {
    &&& after.project@ == snap.project
    &&& after.selected_track_index == index_within(snap.selected_track_index, snap.project.tracks.len())
    &&& after.selected_notes@ == restored_selection(snap)
    &&& after.last_modified == Some(before.now_micros)
}

/// The commands that bring a synthesizer in line with a restored
/// project: every voice cut, every track set up.
pub open spec fn resync_commands(project: ProjectView) -> Seq<SynthCommand> {
    seq![SynthCommand::AllNotesOff { immediate: true }] + setup_all(
        project.tracks,
        project.tracks.len() as int,
    )
}

/// What placing a note makes of the editor: the edit is recorded under
/// `description`, a note of a quarter stands at the cursor in the
/// selected track, and the synthesizer is told to sound it.
pub open spec fn note_placed(
    before: App,
    after: App,
    commands: Seq<SynthCommand>,
    description: Seq<char>,
) -> bool {
    &&& recorded(before, after, description)
    &&& commands == seq![
        SynthCommand::NoteOn {
            channel: before.selected_channel_spec(),
            pitch: before.cursor_pitch,
            velocity: DEFAULT_VELOCITY,
        },
    ]
    &&& !has_selected_track(before) ==> after == (App {
        history: after.history,
        last_modified: after.last_modified,
        status_message: after.status_message,
        ..before
    })
    &&& has_selected_track(before) ==> {
        let track = selected_view(before);
        let note = Note {
            id: NoteId(before.ids.next_note),
            pitch: min_u8(before.cursor_pitch, 127),
            velocity: DEFAULT_VELOCITY,
            start_tick: before.cursor_tick,
            duration_ticks: DEFAULT_NOTE_DURATION,
        };
        &&& after.ids == (IdAllocator { next_note: next_counter(before.ids.next_note), ..before.ids })
        &&& after.project@.tracks.len() == before.project@.tracks.len()
        &&& before.project.tracks@[before.selected_track_index as int].is_sorted()
            ==> after.project@ == with_track(
            before.project@,
            before.selected_track_index as int,
            TrackView { notes: ordered_insert(track.notes, note), ..track },
        )
        &&& after == (App {
            project: after.project,
            ids: after.ids,
            history: after.history,
            last_modified: after.last_modified,
            status_message: after.status_message,
            recently_added_beat: Some(before.cursor_tick / TICKS_PER_BEAT),
            recently_added_note: Some((note.id, note.start_tick)),
            recently_added_pitch: Some(before.cursor_pitch),
            scroll_x: scroll_showing(
                before.scroll_x,
                before.cursor_tick,
                visible_span(before.zoom, 70),
            ),
            scroll_y: scroll_showing_pitch(
                before.scroll_y,
                before.cursor_pitch,
                rows(before.layout.visible_pitches),
            ),
            ..before
        })
    }
    &&& after.status_message matches Some((Notice::AddedNote { pitch, beat }, time)) && time
        == before.now_micros && pitch == before.cursor_pitch && beat == before.cursor_tick
        / TICKS_PER_BEAT
}

/// What deleting the note `note_id` makes of the editor: the edit is
/// recorded, and the note is gone from the selected track and from the
/// selection.
pub open spec fn note_deleted(before: App, after: App, note_id: NoteId) -> bool {
    &&& recorded(before, after, "Delete note"@)
    &&& after.selected_notes@ == before.selected_notes@.remove(note_id.0)
    &&& !has_selected_track(before) ==> after.project == before.project
    &&& has_selected_track(before) ==> {
        let track = selected_view(before);
        after.project@ == with_track(
            before.project@,
            before.selected_track_index as int,
            TrackView {
                notes: if has_id(track.notes, note_id) {
                    track.notes.remove(index_of_id(track.notes, note_id))
                } else {
                    track.notes
                },
                ..track
            },
        )
    }
    &&& after.status_message matches Some((Notice::DeletedNote, time)) && time == before.now_micros
    &&& after == (App {
        project: after.project,
        selected_notes: after.selected_notes,
        history: after.history,
        last_modified: after.last_modified,
        status_message: after.status_message,
        ..before
    })
}

/// What `edit` makes of the editor when it is applied to the selected
/// notes of the selected track without being recorded.
pub open spec fn selection_edited(before: App, after: App, edit: NoteEdit) -> bool {
    &&& (before.selected_notes@.len() == 0 || !has_selected_track(before)) ==> after
        == before
    &&& before.selected_notes@.len() > 0 && has_selected_track(before) ==> {
        &&& after.project@ == with_track(
            before.project@,
            before.selected_track_index as int,
            TrackView {
                notes: notes_after_edit(
                    selected_view(before).notes,
                    before.selected_notes@,
                    edit,
                ),
                ..selected_view(before)
            },
        )
        &&& after == (App { project: after.project, ..before })
    }
}

/// The selection after the note `id` is selected: alone, or, with
/// `toggle`, in or out of the selection as it stands.
pub open spec fn selection_with(selected: Set<u64>, id: u64, toggle: bool) -> Set<u64> {
    if !toggle {
        Set::<u64>::empty().insert(id)
    } else if selected.contains(id) {
        selected.remove(id)
    } else {
        selected.insert(id)
    }
}

/// What selecting the note `note_id` makes of the editor: it is selected
/// alone, or, with `toggle`, goes in or out of the selection.
pub open spec fn note_selected(before: App, after: App, note_id: NoteId, toggle: bool) -> bool {
    &&& after.selected_notes@ == selection_with(before.selected_notes@, note_id.0, toggle)
    &&& after == (App { selected_notes: after.selected_notes, ..before })
}

/// What beginning to rename makes of the editor: with a selected track,
/// the name typed so far is the name of that track.
pub open spec fn rename_started(before: App, after: App) -> bool {
    &&& !has_selected_track(before) ==> after == before
    &&& has_selected_track(before) ==> {
        &&& after.renaming_track
        &&& after.rename_buffer@ == selected_view(before).name
        &&& after.status_message matches Some((Notice::Renaming, time)) && time == before.now_micros
        &&& after == (App {
            renaming_track: true,
            rename_buffer: after.rename_buffer,
            status_message: after.status_message,
            ..before
        })
    }
}

/// What setting the tempo to `tempo` makes of the editor: the edit is
/// recorded, and project and transport have that tempo.
pub open spec fn tempo_set(before: App, after: App, tempo: u32) -> bool {
    &&& recorded(before, after, "Adjust tempo"@)
    &&& after.project@ == (ProjectView { tempo, ..before.project@ })
    &&& after.project.tracks == before.project.tracks
    &&& after.transport == (crate::audio::engine::Transport { tempo, ..before.transport })
    &&& after.status_message matches Some((Notice::Tempo { tempo: shown }, time)) && time
        == before.now_micros && shown == tempo
    &&& after == (App {
        project: after.project,
        transport: after.transport,
        history: after.history,
        last_modified: after.last_modified,
        status_message: after.status_message,
        ..before
    })
}

/// What a change of the tempo by `delta` makes of the editor: the tempo
/// is set to the sum, held within 20 to 300.
pub open spec fn tempo_adjusted(before: App, after: App, delta: i32) -> bool {
    tempo_set(
        before,
        after,
        clamped(before.project@.tempo as int, delta as int, MIN_TEMPO as int, MAX_TEMPO as int) as u32,
    )
}


/// What muting or unmuting the track at `index` makes of the editor: with
/// such a track, the edit is recorded and every voice is cut.
pub open spec fn mute_toggled(before: App, after: App, commands: Seq<SynthCommand>, index: usize) -> bool {
    &&& index >= before.project@.tracks.len() ==> after == before && commands.len() == 0
    &&& index < before.project@.tracks.len() ==> {
        let track = before.project@.tracks[index as int];
        &&& recorded(before, after, "Toggle mute"@)
        &&& after.project@ == with_track(
            before.project@,
            index as int,
            TrackView { muted: !track.muted, ..track },
        )
        &&& commands == seq![SynthCommand::AllNotesOff { immediate: true }]
        &&& after.status_message matches Some((Notice::Muted { name, muted }, time)) && time
            == before.now_micros && name@ == track.name && muted == !track.muted
        &&& after == (App {
            project: after.project,
            history: after.history,
            last_modified: after.last_modified,
            status_message: after.status_message,
            ..before
        })
    }
}

/// What making solo or not the track at `index` makes of the editor: with
/// such a track, the edit is recorded and every voice is cut.
pub open spec fn solo_toggled(before: App, after: App, commands: Seq<SynthCommand>, index: usize) -> bool {
    &&& index >= before.project@.tracks.len() ==> after == before && commands.len() == 0
    &&& index < before.project@.tracks.len() ==> {
        let track = before.project@.tracks[index as int];
        &&& recorded(before, after, "Toggle solo"@)
        &&& after.project@ == with_track(
            before.project@,
            index as int,
            TrackView { solo: !track.solo, ..track },
        )
        &&& commands == seq![SynthCommand::AllNotesOff { immediate: true }]
        &&& after.status_message matches Some((Notice::Solo { name, solo }, time)) && time
            == before.now_micros && name@ == track.name && solo == !track.solo
        &&& after == (App {
            project: after.project,
            history: after.history,
            last_modified: after.last_modified,
            status_message: after.status_message,
            ..before
        })
    }
}

/// What an undo makes of the editor, whether it took place, and what the
/// synthesizer has to do. The last recorded state comes back and the
/// current one can be brought back by a redo; a recorded state that
/// cannot be brought back empties the history.
pub open spec fn undone(before: App, after: App, done: bool, commands: Seq<SynthCommand>) -> bool {
    &&& before.history@.undo.len() == 0 ==> {
        &&& !done
        &&& commands.len() == 0
        &&& after.history@ == before.history@
        &&& after == (App {
            history: after.history,
            status_message: after.status_message,
            ..before
        })
        &&& after.status_message matches Some((Notice::NothingToUndo, time)) && time == before.now_micros
    }
    &&& before.history@.undo.len() > 0 && !restorable(before.history@.undo.last()) ==> {
        &&& !done
        &&& commands.len() == 0
        &&& after.history@.undo.len() == 0
        &&& after.history@.redo.len() == 0
        &&& after == (App {
            history: after.history,
            status_message: after.status_message,
            ..before
        })
        &&& after.status_message matches Some((Notice::UndoFailed, time)) && time == before.now_micros
    }
    &&& before.history@.undo.len() > 0 && restorable(before.history@.undo.last()) ==> {
        let snap = before.history@.undo.last();
        &&& done
        &&& restored(before, after, snap)
        &&& after.history@ == after_push_redo(
            after_pop_undo(before.history@),
            snapshot_view(before, snap.description),
        )
        &&& commands == resync_commands(snap.project)
        &&& after.status_message matches Some((Notice::Undone { description }, time)) && time == before.now_micros
            && description@ == snap.description
    }
    &&& after == (App {
        project: after.project,
        selected_track_index: after.selected_track_index,
        selected_notes: after.selected_notes,
        last_modified: after.last_modified,
        history: after.history,
        status_message: after.status_message,
        ..before
    })
}

/// What a redo makes of the editor, whether it took place, and what the
/// synthesizer has to do. The state that the last undo left comes back,
/// and what else can be redone stays.
pub open spec fn redone(before: App, after: App, done: bool, commands: Seq<SynthCommand>) -> bool {
    &&& before.history@.redo.len() == 0 ==> {
        &&& !done
        &&& commands.len() == 0
        &&& after.history@ == before.history@
        &&& after == (App {
            history: after.history,
            status_message: after.status_message,
            ..before
        })
        &&& after.status_message matches Some((Notice::NothingToRedo, time)) && time == before.now_micros
    }
    &&& before.history@.redo.len() > 0 && !restorable(before.history@.redo.last()) ==> {
        &&& !done
        &&& commands.len() == 0
        &&& after.history@.undo.len() == 0
        &&& after.history@.redo.len() == 0
        &&& after == (App {
            history: after.history,
            status_message: after.status_message,
            ..before
        })
        &&& after.status_message matches Some((Notice::RedoFailed, time)) && time == before.now_micros
    }
    &&& before.history@.redo.len() > 0 && restorable(before.history@.redo.last()) ==> {
        let snap = before.history@.redo.last();
        &&& done
        &&& restored(before, after, snap)
        &&& after.history@ == after_push_undo_preserve_redo(
            after_pop_redo(before.history@),
            snapshot_view(before, snap.description),
        )
        &&& commands == resync_commands(snap.project)
        &&& after.status_message matches Some((Notice::Redone { description }, time)) && time == before.now_micros
            && description@ == snap.description
    }
    &&& after == (App {
        project: after.project,
        selected_track_index: after.selected_track_index,
        selected_notes: after.selected_notes,
        last_modified: after.last_modified,
        history: after.history,
        status_message: after.status_message,
        ..before
    })
}

/// What adding a track makes of the editor: the edit is recorded, and a
/// track on the next channel stands at the end and is selected.
pub open spec fn track_added(before: App, after: App) -> bool {
    &&& recorded(before, after, "Add track"@)
    &&& after.project@ == (ProjectView {
        tracks: before.project@.tracks.push(
            crate::midi::midi_import::fresh_track(
                before.ids,
                "Track "@ + decimal_text(before.project@.tracks.len() + 1),
                min_u8(before.project@.next_channel, 15),
            ),
        ),
        next_channel: following_channel(before.project@.next_channel),
        ..before.project@
    })
    &&& after.ids.next_track == next_counter(before.ids.next_track)
    &&& after.ids.next_note == before.ids.next_note
    &&& after.selected_track_index == before.project@.tracks.len()
    &&& after.status_message matches Some((Notice::AddedTrack { number }, time)) && time == before.now_micros && number
        == before.project@.tracks.len() + 1
    &&& after == (App {
        project: after.project,
        ids: after.ids,
        selected_track_index: after.selected_track_index,
        history: after.history,
        last_modified: after.last_modified,
        status_message: after.status_message,
        ..before
    })
}

/// What deleting the selected track makes of the editor: nothing but a
/// notice while it is the last track.
pub open spec fn track_deleted(before: App, after: App) -> bool {
    &&& before.project@.tracks.len() <= 1 ==> {
        &&& after.status_message matches Some((Notice::CannotDeleteLastTrack, time)) && time == before.now_micros
        &&& after == (App {
            status_message: after.status_message,
            ..before
        })
    }
    &&& before.project@.tracks.len() > 1 && !has_selected_track(before) ==> after
        == before
    &&& before.project@.tracks.len() > 1 && has_selected_track(before) ==> {
        let id = selected_view(before).id;
        let at = index_of_track(before.project@.tracks, id);
        &&& recorded(before, after, "Delete track"@)
        &&& after.project@ == (ProjectView {
            tracks: before.project@.tracks.remove(at),
            ..before.project@
        })
        &&& after.selected_track_index == index_within(
            before.selected_track_index,
            (before.project@.tracks.len() - 1) as nat,
        )
        &&& after.status_message matches Some((Notice::DeletedTrack { name }, time)) && time == before.now_micros
            && name@ == selected_view(before).name
        &&& after == (App {
            project: after.project,
            selected_track_index: after.selected_track_index,
            history: after.history,
            last_modified: after.last_modified,
            status_message: after.status_message,
            ..before
        })
    }
}

/// What a change of the volume of the selected track by `delta` makes of
/// the editor, and what the synthesizer has to do.
pub open spec fn volume_adjusted(before: App, after: App, commands: Seq<SynthCommand>, delta: i16) -> bool {
    &&& !has_selected_track(before) ==> after == before && commands.len() == 0
    &&& has_selected_track(before) ==> {
        let track = selected_view(before);
        let volume = clamped(track.volume as int, delta as int, 0, 127) as u8;
        &&& recorded(before, after, "Adjust volume"@)
        &&& after.project@ == with_track(
            before.project@,
            before.selected_track_index as int,
            TrackView { volume, ..track },
        )
        &&& commands == seq![SynthCommand::SetVolume { channel: track.channel, volume }]
        &&& after.status_message matches Some((Notice::Volume { name, volume: shown }, time)) && time == before.now_micros
            && name@ == track.name && shown == volume
        &&& after == (App {
            project: after.project,
            history: after.history,
            last_modified: after.last_modified,
            status_message: after.status_message,
            ..before
        })
    }
}

/// What a change of the pan of the selected track by `delta` makes of the
/// editor, and what the synthesizer has to do.
pub open spec fn pan_adjusted(before: App, after: App, commands: Seq<SynthCommand>, delta: i16) -> bool {
    &&& !has_selected_track(before) ==> after == before && commands.len() == 0
    &&& has_selected_track(before) ==> {
        let track = selected_view(before);
        let pan = clamped(track.pan as int, delta as int, 0, 127) as u8;
        &&& recorded(before, after, "Adjust pan"@)
        &&& after.project@ == with_track(
            before.project@,
            before.selected_track_index as int,
            TrackView { pan, ..track },
        )
        &&& commands == seq![SynthCommand::SetPan { channel: track.channel, pan }]
        &&& after.status_message matches Some((Notice::Pan { name, pan: shown }, time)) && time == before.now_micros
            && name@ == track.name && shown == pan
        &&& after == (App {
            project: after.project,
            history: after.history,
            last_modified: after.last_modified,
            status_message: after.status_message,
            ..before
        })
    }
}

/// What a change of the beats of a measure by `delta` makes of the
/// editor: the edit is recorded, and the beats stay within 1 to 16.
pub open spec fn numerator_adjusted(before: App, after: App, delta: i8) -> bool {
    &&& recorded(before, after, "Adjust time signature"@)
    &&& after.project@ == (ProjectView {
        time_sig_numerator: clamped(
            before.project@.time_sig_numerator as int,
            delta as int,
            1,
            MAX_NUMERATOR as int,
        ) as u8,
        ..before.project@
    })
    &&& after.project.tracks == before.project.tracks
    &&& after.status_message matches Some(
        (Notice::TimeSignature { numerator, denominator }, time),
    ) && time == before.now_micros && numerator == after.project@.time_sig_numerator && denominator == after.project@.time_sig_denominator
    &&& after == (App {
        project: after.project,
        history: after.history,
        last_modified: after.last_modified,
        status_message: after.status_message,
        ..before
    })
}

/// What a step to the next beat unit makes of the editor.
pub open spec fn denominator_cycled(before: App, after: App) -> bool {
    &&& recorded(before, after, "Adjust time signature"@)
    &&& after.project@ == (ProjectView {
        time_sig_denominator: next_denominator(before.project@.time_sig_denominator),
        ..before.project@
    })
    &&& after.project.tracks == before.project.tracks
    &&& after.status_message matches Some(
        (Notice::TimeSignature { numerator, denominator }, time),
    ) && time == before.now_micros && numerator == after.project@.time_sig_numerator && denominator == after.project@.time_sig_denominator
    &&& after == (App {
        project: after.project,
        history: after.history,
        last_modified: after.last_modified,
        status_message: after.status_message,
        ..before
    })
}

/// What deleting the note under the cursor makes of the editor: nothing
/// where there is no such note.
pub open spec fn cursor_note_deleted(before: App, after: App) -> bool {
    let notes = selected_view(before).notes;
    let at = note_index_at(notes, before.cursor_pitch, before.cursor_tick, 0);
    if has_selected_track(before) && at < notes.len() {
        note_deleted(before, after, notes[at].id)
    } else {
        after == before
    }
}

/// What deleting the selected notes makes of the editor: nothing where
/// nothing is selected.
pub open spec fn selection_deleted(before: App, after: App) -> bool {
    &&& before.selected_notes@.len() == 0 ==> after == before
    &&& before.selected_notes@.len() > 0 ==> {
        &&& recorded(before, after, "Delete selected notes"@)
        &&& after.selected_notes@ == Set::<u64>::empty()
        &&& !has_selected_track(before) ==> after.project == before.project
        &&& has_selected_track(before) ==> after.project@ == with_track(
            before.project@,
            before.selected_track_index as int,
            TrackView {
                notes: selected_view(before).notes.filter(
                    |n: Note| !before.selected_notes@.contains(n.id.0),
                ),
                ..selected_view(before)
            },
        )
        &&& after == (App {
            project: after.project,
            selected_notes: after.selected_notes,
            history: after.history,
            last_modified: after.last_modified,
            status_message: Some(
                (
                    Notice::DeletedNotes { count: before.selected_notes@.len() as usize },
                    before.now_micros,
                ),
            ),
            ..before
        })
    }
}

/// What `edit` makes of the editor when it is applied to the selected
/// notes of the selected track and recorded under `description`:
/// nothing where nothing is selected.
pub open spec fn selection_edit_recorded(
    before: App,
    after: App,
    edit: NoteEdit,
    description: Seq<char>,
) -> bool {
    &&& before.selected_notes@.len() == 0 ==> after == before
    &&& before.selected_notes@.len() > 0 ==> {
        &&& recorded(before, after, description)
        &&& !has_selected_track(before) ==> after.project == before.project
        &&& has_selected_track(before) ==> after.project@ == with_track(
            before.project@,
            before.selected_track_index as int,
            TrackView {
                notes: notes_after_edit(selected_view(before).notes, before.selected_notes@, edit),
                ..selected_view(before)
            },
        )
        &&& after == (App {
            project: after.project,
            history: after.history,
            last_modified: after.last_modified,
            ..before
        })
    }
}

/// What transposing the selected notes by `semitones` makes of the
/// editor.
pub open spec fn selection_transposed(before: App, after: App, semitones: i8) -> bool {
    selection_edit_recorded(before, after, NoteEdit::Transpose(semitones), "Transpose notes"@)
}

/// What lengthening the selected notes by `delta` ticks makes of the
/// editor.
pub open spec fn selection_lengthened(before: App, after: App, delta: i32) -> bool {
    selection_edit_recorded(before, after, NoteEdit::Lengthen(delta), "Adjust note duration"@)
}

/// What moving the selected notes by `ticks` makes of the editor.
pub open spec fn selection_moved(before: App, after: App, ticks: i32) -> bool {
    selection_edit_recorded(before, after, NoteEdit::Shift(ticks), "Move notes"@)
}

/// What a typed character makes of the editor while a track is being
/// renamed: it joins the name typed so far, as long as the name has room.
pub open spec fn rename_typed(before: App, after: App, c: char) -> bool {
    &&& after.rename_buffer@ == (if before.renaming_track && vstd::utf8::encode_utf8(
        before.rename_buffer@,
    ).len() < RENAME_LIMIT {
        before.rename_buffer@.push(c)
    } else {
        before.rename_buffer@
    })
    &&& after == (App { rename_buffer: after.rename_buffer, ..before })
}

/// What the backspace key makes of the editor while a track is being
/// renamed: the last character of the name typed so far is gone.
pub open spec fn rename_erased(before: App, after: App) -> bool {
    &&& after.rename_buffer@ == (if before.renaming_track && before.rename_buffer@.len()
        > 0 {
        before.rename_buffer@.drop_last()
    } else {
        before.rename_buffer@
    })
    &&& after == (App { rename_buffer: after.rename_buffer, ..before })
}

/// What the end of a renaming makes of the editor: the selected track
/// has the name that was typed, without the blanks around it, unless
/// nothing but blanks was typed.
pub open spec fn rename_confirmed(before: App, after: App) -> bool {
    &&& !before.renaming_track ==> after == before
    &&& before.renaming_track ==> {
        let name = crate::midi::names::trimmed(before.rename_buffer@);
        &&& !after.renaming_track
        &&& after.rename_buffer@.len() == 0
        &&& name.len() == 0 ==> {
            &&& after.status_message matches Some((Notice::RenameEmpty, time)) && time
                == before.now_micros
            &&& after == (App {
                renaming_track: false,
                rename_buffer: after.rename_buffer,
                status_message: after.status_message,
                ..before
            })
        }
        &&& name.len() > 0 ==> {
            &&& after == (App {
                project: after.project,
                history: after.history,
                last_modified: after.last_modified,
                renaming_track: false,
                rename_buffer: after.rename_buffer,
                status_message: after.status_message,
                ..before
            })
            &&& recorded(before, after, "Rename track"@)
            &&& after.status_message matches Some((Notice::Renamed { name: given }, time)) && time == before.now_micros
                && given@ == name
            &&& !has_selected_track(before) ==> after.project == before.project
            &&& has_selected_track(before) ==> after.project@ == with_track(
                before.project@,
                before.selected_track_index as int,
                TrackView { name, ..selected_view(before) },
            )
        }
    }
}

/// What giving up a renaming makes of the editor.
pub open spec fn rename_cancelled(before: App, after: App) -> bool {
    &&& !before.renaming_track ==> after == before
    &&& before.renaming_track ==> {
        &&& !after.renaming_track
        &&& after.rename_buffer@.len() == 0
        &&& after.status_message matches Some((Notice::RenameCancelled, time)) && time == before.now_micros
        &&& after == (App {
            renaming_track: false,
            rename_buffer: after.rename_buffer,
            status_message: after.status_message,
            ..before
        })
    }
}

impl App {
    /// Puts a snapshot of project and selection on the undo stack, under
    /// `description`; nothing is left to redo. To be called before a change.
    pub fn save_state(&mut self, description: &str)
        ensures
            final(self).history@ == after_push_undo(
                old(self).history@,
                snapshot_view(*old(self), description@),
            ),
            *final(self) == (App { history: final(self).history, ..*old(self) }),
    {
        let snapshot = StateSnapshot::new(
            &self.project,
            self.selected_track_index,
            &self.selected_notes,
            description,
        );
        self.history.push_undo(snapshot);
    }

    /// Brings `snap` back: its project, its selected track held within
    /// the tracks, its selection without the notes that are gone.
    fn restore(&mut self, snap: StateSnapshot) -> (description: String)
        requires
            restorable(snap@),
        ensures
            restored(*old(self), *final(self), snap@),
            description@ == snap@.description,
            *final(self) == (App {
                project: final(self).project,
                selected_track_index: final(self).selected_track_index,
                selected_notes: final(self).selected_notes,
                last_modified: final(self).last_modified,
                ..*old(self)
            }),
    {
        let kept = snap.valid_selected_notes();
        let index = snap.selected_track_index;
        let StateSnapshot { project, selected_track_index: _, selected_notes: _, description } = snap;
        let count = project.track_count();
        self.project = project;
        self.selected_track_index = if count == 0 {
            0
        } else if index >= count {
            count - 1
        } else {
            index
        };
        self.selected_notes = kept;
        self.last_modified = Some(self.now_micros);
        description
    }

    /// Undoes the last edit. Returns whether a state was brought back, and
    /// the commands that bring the synthesizer in line with it.
    ///
    /// The current state goes onto the redo stack. A snapshot that cannot
    /// be restored empties both stacks instead.
    pub fn undo(&mut self) -> (done: (bool, Vec<SynthCommand>))
        ensures
            undone(*old(self), *final(self), done.0, done.1@),
    {
        let mut commands: Vec<SynthCommand> = Vec::new();
        match self.history.pop_undo() {
            Some(snap) => {
                if !snap.is_valid() {
                    self.history.clear();
                    self.set_status(Notice::UndoFailed);
                    return (false, commands);
                }
                let current = StateSnapshot::new(
                    &self.project,
                    self.selected_track_index,
                    &self.selected_notes,
                    snap.description.as_str(),
                );
                self.history.push_redo(current);
                let description = self.restore(snap);
                commands.push(SynthCommand::AllNotesOff { immediate: true });
                configure_all(&self.project, &mut commands);
                self.set_status(Notice::Undone { description });
                (true, commands)
            },
            None => {
                self.set_status(Notice::NothingToUndo);
                (false, commands)
            },
        }
    }

    /// Redoes the edit undone last. Returns whether a state was brought
    /// back, and the commands that bring the synthesizer in line with it.
    ///
    /// The current state goes onto the undo stack and the rest of the redo
    /// stack stays, so that several redos can follow each other. A
    /// snapshot that cannot be restored empties both stacks instead.
    pub fn redo(&mut self) -> (done: (bool, Vec<SynthCommand>))
        ensures
            redone(*old(self), *final(self), done.0, done.1@),
    {
        let mut commands: Vec<SynthCommand> = Vec::new();
        match self.history.pop_redo() {
            Some(snap) => {
                if !snap.is_valid() {
                    self.history.clear();
                    self.set_status(Notice::RedoFailed);
                    return (false, commands);
                }
                let current = StateSnapshot::new(
                    &self.project,
                    self.selected_track_index,
                    &self.selected_notes,
                    snap.description.as_str(),
                );
                self.history.push_undo_preserve_redo(current);
                let description = self.restore(snap);
                commands.push(SynthCommand::AllNotesOff { immediate: true });
                configure_all(&self.project, &mut commands);
                self.set_status(Notice::Redone { description });
                (true, commands)
            },
            None => {
                self.set_status(Notice::NothingToRedo);
                (false, commands)
            },
        }
    }

    /// Empties the undo and redo stacks.
    pub fn clear_history(&mut self)
        ensures
            final(self).history@.undo.len() == 0,
            final(self).history@.redo.len() == 0,
            *final(self) == (App { history: final(self).history, ..*old(self) }),
    {
        self.history.clear();
    }

    /// Places a note of a quarter at the cursor, in the selected track,
    /// and returns the command that lets it be heard.
    pub fn place_note(&mut self) -> (commands: Vec<SynthCommand>)
        ensures
            note_placed(*old(self), *final(self), commands@, "Place note"@),
    {
        self.place_note_as("Place note")
    }

    /// Places a note as `place_note` does and records the edit under
    /// `description`.
    pub fn place_note_as(&mut self, description: &str) -> (commands: Vec<SynthCommand>)
        ensures
            note_placed(*old(self), *final(self), commands@, description@),
    {
        let pitch = self.cursor_pitch;
        let tick = self.cursor_tick;
        let channel = self.selected_channel();
        self.save_state(description);
        let index = self.selected_track_index;
        if index < self.project.tracks.len() {
            let ghost before = self.project@;
            let ghost old_tracks = self.project.tracks@;
            let mut track = self.project.tracks.remove(index);
            let ghost taken = track@;
            let id = track.create_note(&mut self.ids, pitch, DEFAULT_VELOCITY, tick, DEFAULT_NOTE_DURATION);
            let ghost put = track;
            self.project.tracks.insert(index, track);
            proof {
                assert(self.project.tracks@ =~= old_tracks.update(index as int, put));
                assert(self.project@.tracks =~= before.tracks.update(index as int, put@));
            }
            self.register_added_note(id, pitch, tick);
        }
        let mut commands: Vec<SynthCommand> = Vec::new();
        commands.push(SynthCommand::NoteOn { channel, pitch, velocity: DEFAULT_VELOCITY });
        self.set_status(Notice::AddedNote { pitch, beat: tick / TICKS_PER_BEAT });
        self.mark_modified();
        commands
    }

    /// The channel of the selected track; 0 if there is none.
    pub open spec fn selected_channel_spec(&self) -> u8 {
        if self.selected_track_index < self.project.tracks@.len() {
            self.project.tracks@[self.selected_track_index as int].channel
        } else {
            0
        }
    }

    /// The identifier of the first note of the selected track that has
    /// `pitch` and sounds at `tick`.
    pub fn note_at(&self, pitch: u8, tick: u32) -> (found: Option<NoteId>)
        ensures
            match found {
                Some(id) => {
                    let notes = selected_view(*self).notes;
                    &&& has_selected_track(*self)
                    &&& note_index_at(notes, pitch, tick, 0) < notes.len()
                    &&& id == notes[note_index_at(notes, pitch, tick, 0)].id
                },
                None => !has_selected_track(*self) || note_index_at(
                    selected_view(*self).notes,
                    pitch,
                    tick,
                    0,
                ) >= selected_view(*self).notes.len(),
            },
    {
        match self.project.track_at(self.selected_track_index) {
            Some(track) => {
                assert(track@ == selected_view(*self));
                let notes = track.notes();
                let mut i: usize = 0;
                while i < notes.len() && !(notes[i].pitch == pitch && notes[i].is_active_at(tick))
                    invariant
                        i <= notes@.len(),
                        note_index_at(notes@, pitch, tick, 0) == note_index_at(
                            notes@,
                            pitch,
                            tick,
                            i as int,
                        ),
                    decreases notes@.len() - i,
                {
                    i += 1;
                }
                if i < notes.len() {
                    Some(notes[i].id)
                } else {
                    None
                }
            },
            None => None,
        }
    }

    /// Removes the note with identifier `note_id` from the selected track
    /// and from the selection.
    pub fn delete_note_by_id(&mut self, note_id: NoteId)
        ensures
            note_deleted(*old(self), *final(self), note_id),
    {
        self.save_state("Delete note");
        let index = self.selected_track_index;
        if index < self.project.tracks.len() {
            let ghost before = self.project@;
            let ghost old_tracks = self.project.tracks@;
            let mut track = self.project.tracks.remove(index);
            let _ = track.remove_note(note_id);
            let ghost put = track;
            self.project.tracks.insert(index, track);
            proof {
                assert(self.project.tracks@ =~= old_tracks.update(index as int, put));
                assert(self.project@.tracks =~= before.tracks.update(index as int, put@));
            }
        }
        self.selected_notes.remove(&note_id.0);
        self.set_status(Notice::DeletedNote);
        self.mark_modified();
    }

    /// Removes the first note of the selected track that has the pitch of
    /// the cursor and sounds at its tick. Nothing changes if there is none.
    pub fn delete_note_at_cursor(&mut self)
        ensures
            cursor_note_deleted(*old(self), *final(self)),
    {
        match self.note_at(self.cursor_pitch, self.cursor_tick) {
            Some(id) => {
                proof {
                    let notes = selected_view(*self).notes;
                    let at = note_index_at(notes, self.cursor_pitch, self.cursor_tick, 0);
                    lemma_note_index_at(notes, self.cursor_pitch, self.cursor_tick, 0);
                    assert(notes[at].id == id);
                    assert(has_id(notes, id));
                }
                self.delete_note_by_id(id);
            },
            None => {},
        }
    }

    /// Removes every selected note from the selected track and empties
    /// the selection. Nothing changes if nothing is selected.
    pub fn delete_selected_notes(&mut self)
        ensures
            selection_deleted(*old(self), *final(self)),
    {
        let count = self.selected_notes.len();
        if count == 0 {
            assert(self.selected_notes@.len() == 0);
            return;
        }
        self.save_state("Delete selected notes");
        let index = self.selected_track_index;
        if index < self.project.tracks.len() {
            let ghost before = self.project@;
            let ghost old_tracks = self.project.tracks@;
            let ghost chosen = self.selected_notes@;
            let ghost keep = |n: Note| !chosen.contains(n.id.0);
            let mut track = self.project.tracks.remove(index);
            let ghost taken = track@;
            let mut kept: Vec<Note> = Vec::new();
            let mut i: usize = 0;
            proof {
                crate::midi::track::lemma_filter_nothing(track.notes@.subrange(0, 0), keep);
            }
            while i < track.notes.len()
                invariant
                    i <= track.notes@.len(),
                    chosen == self.selected_notes@,
                    keep == (|n: Note| !chosen.contains(n.id.0)),
                    kept@ == track.notes@.subrange(0, i as int).filter(keep),
                decreases track.notes@.len() - i,
            {
                let note = track.notes[i];
                proof {
                    assert(track.notes@.subrange(0, i + 1) =~= track.notes@.subrange(0, i as int).push(note));
                    track.notes@.subrange(0, i as int).lemma_filter_push(note, keep);
                }
                if !self.selected_notes.contains(&note.id.0) {
                    kept.push(note);
                }
                i += 1;
            }
            assert(track.notes@.subrange(0, i as int) =~= track.notes@);
            track.notes = kept;
            let ghost put = track;
            self.project.tracks.insert(index, track);
            proof {
                assert(self.project.tracks@ =~= old_tracks.update(index as int, put));
                assert(self.project@.tracks =~= before.tracks.update(index as int, put@));
            }
        }
        self.selected_notes.clear();
        self.set_status(Notice::DeletedNotes { count });
        self.mark_modified();
    }

    /// Applies `edit` to the selected notes of the selected track, without
    /// recording it: for use while notes are dragged.
    pub fn edit_selected_notes_no_undo(&mut self, edit: NoteEdit)
        ensures
            selection_edited(*old(self), *final(self), edit),
    {
        if self.selected_notes.len() == 0 {
            assert(self.selected_notes@.len() == 0);
            return;
        }
        let index = self.selected_track_index;
        if index < self.project.tracks.len() {
            let ghost before = self.project@;
            let ghost old_tracks = self.project.tracks@;
            let mut track = self.project.tracks.remove(index);
            track.edit_selected(&self.selected_notes, edit);
            let ghost put = track;
            self.project.tracks.insert(index, track);
            proof {
                assert(self.project.tracks@ =~= old_tracks.update(index as int, put));
                assert(self.project@.tracks =~= before.tracks.update(index as int, put@));
            }
        }
    }

    /// Applies `edit` to the selected notes of the selected track and
    /// records it under `description`. Nothing changes if nothing is
    /// selected.
    fn edit_selected_notes(&mut self, edit: NoteEdit, description: &str)
        ensures
            selection_edit_recorded(*old(self), *final(self), edit, description@),
    {
        if self.selected_notes.len() == 0 {
            assert(self.selected_notes@.len() == 0);
            return;
        }
        self.save_state(description);
        self.edit_selected_notes_no_undo(edit);
        self.mark_modified();
    }

    /// Moves the pitch of the selected notes by `semitones`, stopping at
    /// 0 and at 127.
    pub fn transpose_selected_notes(&mut self, semitones: i8)
        ensures
            selection_transposed(*old(self), *final(self), semitones),
    {
        self.edit_selected_notes(NoteEdit::Transpose(semitones), "Transpose notes");
    }

    /// Changes the duration of the selected notes by `delta` ticks,
    /// stopping at 1 tick.
    pub fn adjust_selected_notes_duration(&mut self, delta: i32)
        ensures
            selection_lengthened(*old(self), *final(self), delta),
    {
        self.edit_selected_notes(NoteEdit::Lengthen(delta), "Adjust note duration");
    }

    /// Moves the start of the selected notes by `ticks`, stopping at tick
    /// 0, and puts the notes of the track in order again.
    pub fn move_selected_notes_horizontal(&mut self, ticks: i32)
        ensures
            selection_moved(*old(self), *final(self), ticks),
    {
        self.edit_selected_notes(NoteEdit::Shift(ticks), "Move notes");
    }

    /// Selects the note with identifier `note_id`: alone, or, with
    /// `toggle`, in or out of the selection as it stands.
    pub fn select_note(&mut self, note_id: NoteId, toggle: bool)
        ensures
            note_selected(*old(self), *final(self), note_id, toggle),
    {
        if toggle {
            if self.selected_notes.contains(&note_id.0) {
                self.selected_notes.remove(&note_id.0);
            } else {
                self.selected_notes.insert(note_id.0);
            }
        } else {
            self.selected_notes.clear();
            self.selected_notes.insert(note_id.0);
        }
    }

    /// Empties the selection.
    pub fn clear_selection(&mut self)
        ensures
            final(self).selected_notes@ == Set::<u64>::empty(),
            *final(self) == (App { selected_notes: final(self).selected_notes, ..*old(self) }),
    {
        self.selected_notes.clear();
    }

    /// Appends a track named "Track" and its number on the next channel,
    /// and selects it.
    pub fn add_track(&mut self)
        requires
            old(self).project.tracks@.len() < usize::MAX,
        ensures
            track_added(*old(self), *final(self)),
    {
        self.save_state("Add track");
        let number = self.project.track_count() + 1;
        let mut name = "Track ".to_owned();
        push_decimal(number as u64, &mut name);
        self.project.create_track(&mut self.ids, name.as_str());
        self.selected_track_index = self.project.track_count() - 1;
        self.set_status(Notice::AddedTrack { number });
        self.mark_modified();
    }

    /// Removes the selected track, unless it is the last one left. The
    /// selection moves onto the last track if it stood behind it.
    pub fn delete_selected_track(&mut self)
        ensures
            track_deleted(*old(self), *final(self)),
    {
        if self.project.track_count() <= 1 {
            self.set_status(Notice::CannotDeleteLastTrack);
            return;
        }
        let index = self.selected_track_index;
        if index < self.project.tracks.len() {
            let name = self.project.tracks[index].name.clone();
            let id = self.project.tracks[index].id;
            proof {
                crate::midi::project::lemma_index_of_track(self.project@.tracks, id);
                assert(self.project@.tracks[index as int].id == id);
            }
            self.save_state("Delete track");
            let _ = self.project.remove_track(id);
            let count = self.project.track_count();
            if self.selected_track_index >= count {
                self.selected_track_index = count - 1;
            }
            self.set_status(Notice::DeletedTrack { name });
            self.mark_modified();
        }
    }

    /// Begins renaming the selected track: the name typed so far is the
    /// name that the track has.
    pub fn start_rename_track(&mut self)
        ensures
            rename_started(*old(self), *final(self)),
    {
        let index = self.selected_track_index;
        if index < self.project.tracks.len() {
            self.rename_buffer = self.project.tracks[index].name.clone();
            self.renaming_track = true;
            self.set_status(Notice::Renaming);
        }
    }

    /// Takes a typed character into the new name, while a track is being
    /// renamed and the name has fewer than 32 bytes.
    pub fn rename_track_input(&mut self, c: char)
        ensures
            rename_typed(*old(self), *final(self), c),
    {
        if self.renaming_track && self.rename_buffer.as_str().as_bytes().len() < RENAME_LIMIT {
            push_char(&mut self.rename_buffer, c);
        }
    }

    /// Takes the last character off the new name, while a track is being
    /// renamed.
    pub fn rename_track_backspace(&mut self)
        ensures
            rename_erased(*old(self), *final(self)),
    {
        if self.renaming_track {
            let _ = pop_char(&mut self.rename_buffer);
        }
    }

    /// Ends renaming: the selected track takes the name typed, without
    /// the white space at its ends, unless that is empty.
    pub fn confirm_rename_track(&mut self)
        ensures
            rename_confirmed(*old(self), *final(self)),
    {
        if !self.renaming_track {
            return;
        }
        let name = trimmed_text(self.rename_buffer.as_str());
        if name.as_str().unicode_len() > 0 {
            self.save_state("Rename track");
            let index = self.selected_track_index;
            if index < self.project.tracks.len() {
                let ghost before = self.project@;
                let ghost old_tracks = self.project.tracks@;
                let mut track = self.project.tracks.remove(index);
                track.name = name.clone();
                let ghost put = track;
                self.project.tracks.insert(index, track);
                proof {
                    assert(self.project.tracks@ =~= old_tracks.update(index as int, put));
                    assert(self.project@.tracks =~= before.tracks.update(index as int, put@));
                }
            }
            self.set_status(Notice::Renamed { name });
            self.mark_modified();
        } else {
            self.set_status(Notice::RenameEmpty);
        }
        self.renaming_track = false;
        self.rename_buffer = String::new();
    }

    /// Ends renaming without a change.
    pub fn cancel_rename_track(&mut self)
        ensures
            rename_cancelled(*old(self), *final(self)),
    {
        if self.renaming_track {
            self.renaming_track = false;
            self.rename_buffer = String::new();
            self.set_status(Notice::RenameCancelled);
        }
    }

    /// Changes the volume of the selected track by `delta`, within 0 to
    /// 127, and returns the command that sets it on the channel.
    pub fn adjust_track_volume(&mut self, delta: i16) -> (commands: Vec<SynthCommand>)
        ensures
            volume_adjusted(*old(self), *final(self), commands@, delta),
    {
        let mut commands: Vec<SynthCommand> = Vec::new();
        let index = self.selected_track_index;
        if index < self.project.tracks.len() {
            self.save_state("Adjust volume");
            let ghost before = self.project@;
            let ghost old_tracks = self.project.tracks@;
            let mut track = self.project.tracks.remove(index);
            let wide: i32 = track.volume as i32 + delta as i32;
            let volume: u8 = if wide < 0 {
                0
            } else if wide > 127 {
                127
            } else {
                wide as u8
            };
            track.volume = volume;
            let name = track.name.clone();
            let channel = track.channel;
            let ghost put = track;
            self.project.tracks.insert(index, track);
            proof {
                assert(self.project.tracks@ =~= old_tracks.update(index as int, put));
                assert(self.project@.tracks =~= before.tracks.update(index as int, put@));
            }
            commands.push(SynthCommand::SetVolume { channel, volume });
            self.set_status(Notice::Volume { name, volume });
            self.mark_modified();
        }
        commands
    }

    /// Changes the pan of the selected track by `delta`, within 0 to 127,
    /// and returns the command that sets it on the channel.
    pub fn adjust_track_pan(&mut self, delta: i16) -> (commands: Vec<SynthCommand>)
        ensures
            pan_adjusted(*old(self), *final(self), commands@, delta),
    {
        let mut commands: Vec<SynthCommand> = Vec::new();
        let index = self.selected_track_index;
        if index < self.project.tracks.len() {
            self.save_state("Adjust pan");
            let ghost before = self.project@;
            let ghost old_tracks = self.project.tracks@;
            let mut track = self.project.tracks.remove(index);
            let wide: i32 = track.pan as i32 + delta as i32;
            let pan: u8 = if wide < 0 {
                0
            } else if wide > 127 {
                127
            } else {
                wide as u8
            };
            track.pan = pan;
            let name = track.name.clone();
            let channel = track.channel;
            let ghost put = track;
            self.project.tracks.insert(index, track);
            proof {
                assert(self.project.tracks@ =~= old_tracks.update(index as int, put));
                assert(self.project@.tracks =~= before.tracks.update(index as int, put@));
            }
            commands.push(SynthCommand::SetPan { channel, pan });
            self.set_status(Notice::Pan { name, pan });
            self.mark_modified();
        }
        commands
    }

    /// Mutes or unmutes the track at `index` and returns the command that
    /// cuts every voice, so that the sequencer starts afresh the voices
    /// that are still to sound. Nothing changes if there is no such track.
    pub fn toggle_mute_at(&mut self, index: usize) -> (commands: Vec<SynthCommand>)
        ensures
            mute_toggled(*old(self), *final(self), commands@, index),
    {
        let mut commands: Vec<SynthCommand> = Vec::new();
        if index < self.project.tracks.len() {
            self.save_state("Toggle mute");
            let ghost before = self.project@;
            let ghost old_tracks = self.project.tracks@;
            let mut track = self.project.tracks.remove(index);
            track.muted = !track.muted;
            let muted = track.muted;
            let name = track.name.clone();
            let ghost put = track;
            self.project.tracks.insert(index, track);
            proof {
                assert(self.project.tracks@ =~= old_tracks.update(index as int, put));
                assert(self.project@.tracks =~= before.tracks.update(index as int, put@));
            }
            commands.push(SynthCommand::AllNotesOff { immediate: true });
            self.set_status(Notice::Muted { name, muted });
            self.mark_modified();
        }
        commands
    }

    /// Mutes or unmutes the selected track and returns the command that
    /// cuts every voice.
    pub fn toggle_mute(&mut self) -> (commands: Vec<SynthCommand>)
        ensures
            mute_toggled(*old(self), *final(self), commands@, old(self).selected_track_index),
    {
        self.toggle_mute_at(self.selected_track_index)
    }

    /// Makes solo or not the track at `index` and returns the command that
    /// cuts every voice, so that the sequencer starts afresh the voices
    /// that are still to sound. Nothing changes if there is no such track.
    pub fn toggle_solo_at(&mut self, index: usize) -> (commands: Vec<SynthCommand>)
        ensures
            solo_toggled(*old(self), *final(self), commands@, index),
    {
        let mut commands: Vec<SynthCommand> = Vec::new();
        if index < self.project.tracks.len() {
            self.save_state("Toggle solo");
            let ghost before = self.project@;
            let ghost old_tracks = self.project.tracks@;
            let mut track = self.project.tracks.remove(index);
            track.solo = !track.solo;
            let solo = track.solo;
            let name = track.name.clone();
            let ghost put = track;
            self.project.tracks.insert(index, track);
            proof {
                assert(self.project.tracks@ =~= old_tracks.update(index as int, put));
                assert(self.project@.tracks =~= before.tracks.update(index as int, put@));
            }
            commands.push(SynthCommand::AllNotesOff { immediate: true });
            self.set_status(Notice::Solo { name, solo });
            self.mark_modified();
        }
        commands
    }

    /// Makes solo or not the selected track and returns the command that
    /// cuts every voice.
    pub fn toggle_solo(&mut self) -> (commands: Vec<SynthCommand>)
        ensures
            solo_toggled(*old(self), *final(self), commands@, old(self).selected_track_index),
    {
        self.toggle_solo_at(self.selected_track_index)
    }

    /// Sets the tempo of project and transport to `tempo` beats per
    /// minute and records the edit.
    pub fn set_tempo(&mut self, tempo: u32)
        ensures
            tempo_set(*old(self), *final(self), tempo),
    {
        self.save_state("Adjust tempo");
        self.project.tempo = tempo;
        self.transport.set_tempo(tempo);
        self.set_status(Notice::Tempo { tempo });
        self.mark_modified();
    }

    /// Changes the tempo by `delta` beats per minute, within 20 to 300.
    pub fn adjust_tempo(&mut self, delta: i32)
        ensures
            tempo_adjusted(*old(self), *final(self), delta),
    {
        let wide: i64 = self.project.tempo as i64 + delta as i64;
        let tempo: u32 = if wide < MIN_TEMPO as i64 {
            MIN_TEMPO
        } else if wide > MAX_TEMPO as i64 {
            MAX_TEMPO
        } else {
            wide as u32
        };
        self.set_tempo(tempo);
    }

    /// Changes the numerator of the time signature by `delta`, within 1
    /// to 16.
    pub fn adjust_time_sig_numerator(&mut self, delta: i8)
        ensures
            numerator_adjusted(*old(self), *final(self), delta),
    {
        self.save_state("Adjust time signature");
        let wide: i16 = self.project.time_sig_numerator as i16 + delta as i16;
        let numerator: u8 = if wide < 1 {
            1
        } else if wide > MAX_NUMERATOR as i16 {
            MAX_NUMERATOR
        } else {
            wide as u8
        };
        self.project.time_sig_numerator = numerator;
        let denominator = self.project.time_sig_denominator;
        self.set_status(Notice::TimeSignature { numerator, denominator });
        self.mark_modified();
    }

    /// Goes on to the next denominator of the time signature: 2, 4, 8,
    /// 16, and round again.
    pub fn cycle_time_sig_denominator(&mut self)
        ensures
            denominator_cycled(*old(self), *final(self)),
    {
        self.save_state("Adjust time signature");
        let current = self.project.time_sig_denominator;
        let denominator: u8 = if current == 2 {
            4
        } else if current == 4 {
            8
        } else if current == 8 {
            16
        } else {
            2
        };
        self.project.time_sig_denominator = denominator;
        let numerator = self.project.time_sig_numerator;
        self.set_status(Notice::TimeSignature { numerator, denominator });
        self.mark_modified();
    }
}

/// `text` without the white space at its ends.
pub fn trimmed_text(text: &str) -> (trimmed: String)
    ensures
        trimmed@ == crate::midi::names::trimmed(text@),
{
    let chars = chars_of(text);
    let len = chars.len();
    let mut from: usize = 0;
    while from < len && crate::midi::names::space(chars[from])
        invariant
            from <= len,
            len == chars@.len(),
            crate::midi::names::skip_spaces(chars@, 0) == crate::midi::names::skip_spaces(
                chars@,
                from as int,
            ),
        decreases len - from,
    {
        from += 1;
    }
    let mut to: usize = len;
    while to > 0 && crate::midi::names::space(chars[to - 1])
        invariant
            to <= len,
            len == chars@.len(),
            crate::midi::names::drop_spaces(chars@, len as int) == crate::midi::names::drop_spaces(
                chars@,
                to as int,
            ),
        decreases to,
    {
        to -= 1;
    }
    if from >= to {
        String::new()
    } else {
        text_of(&chars, from, to)
    }
}

} // verus!

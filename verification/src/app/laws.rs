//! What holds of every command of the editor.
//!
//! An edit is recorded before it changes the project, and the notes of
//! every track stay in order of start, in the project and in every
//! state that the history holds, whatever command is carried out.

use vstd::prelude::*;
use super::editing::{
    has_selected_track, note_deleted, note_placed, recorded, redone, selected_view,
    selection_deleted, selection_edit_recorded, snapshot_view, undone, with_track,
};
use super::dialogs::doubles;
use super::keys::{
    command_of, kind_of, performed, Command, CommandKind, Key, Modifiers, Request,
};
use super::mouse::{
    clicked_track, double_clicked, drag_semitones, drag_started, drag_ticks, dragged,
    dragged_notes, grid_pitch, grid_tick, key_pitch, less, mouse_clicked, mouse_scrolled,
    piano_roll_clicked, track_list_clicked,
};
use super::playback::note_key_pressed;
use super::screen::{
    key_pressed, mouse_handled, new_project_confirmed, screen_of, MouseAction, MouseButton,
    Pointer, Screen,
};
use super::{App, DragState, EditMode, FocusedPanel};
use crate::audio::engine::SynthCommand;
use crate::history::{bounded_push, SnapshotView};
use crate::midi::edit::{edited_notes, notes_after_edit, NoteEdit};
use crate::midi::ids::NoteId;
use crate::midi::note::Note;
use crate::midi::project::ProjectView;
use crate::midi::track::{
    lemma_ordered_insert_sorted, lemma_sorted_pairs, lemma_stable_sort_sorted, ordered_insert,
    sorted_by_start, TrackView,
};

verus! {

/// The notes of every track of the project are in order of start.
pub open spec fn in_order(project: ProjectView) -> bool {
    forall|i: int| 0 <= i < project.tracks.len() ==> sorted_by_start((#[trigger] project.tracks[i]).notes)
}

/// In every state of the stack the notes of every track are in order.
pub open spec fn stack_in_order(stack: Seq<SnapshotView>) -> bool {
    forall|k: int| 0 <= k < stack.len() ==> in_order((#[trigger] stack[k]).project)
}

/// The notes of every track are in order of start: in the project of
/// the editor and in every state that its history holds.
pub open spec fn kept_in_order(app: App) -> bool {
    &&& in_order(app.project@)
    &&& stack_in_order(app.history@.undo)
    &&& stack_in_order(app.history@.redo)
}

/// The snapshot that was pushed last is on top of the stack.
pub proof fn lemma_pushed_is_on_top(stack: Seq<SnapshotView>, snap: SnapshotView)
    ensures
        bounded_push(stack, snap).len() > 0,
        bounded_push(stack, snap).last() == snap,
{
}

/// An edit is recorded before it changes the project. Whatever command
/// but undo and redo has changed the project: the project as it was,
/// with the selection as it was, is on top of the undo stack, nothing
/// is left to redo, and the time of the change is noted.
pub proof fn lemma_edit_is_recorded(
    before: App,
    after: App,
    commands: Seq<SynthCommand>,
    command: Command,
)
    requires
        performed(before, after, commands, command),
        command != Command::Undo,
        command != Command::Redo,
        after.project@ != before.project@,
    ensures
        after.history@.undo.len() > 0,
        after.history@.redo.len() == 0,
        after.last_modified == Some(before.now_micros),
        ({
            let top = after.history@.undo.last();
            &&& top.project == before.project@
            &&& top.selected_track_index == before.selected_track_index
            &&& top.selected_notes == before.selected_notes@
        }),
{
    let description = after.history@.undo.last().description;
    lemma_pushed_is_on_top(before.history@.undo, snapshot_view(before, description));
    match command {
        Command::NoteKey(c) => {
            lemma_pushed_is_on_top(before.history@.undo, snapshot_view(before, "Insert note"@));
        },
        Command::PlaceNote => {
            lemma_pushed_is_on_top(before.history@.undo, snapshot_view(before, "Place note"@));
        },
        _ => {},
    }
}

/// Notes in order stay in order when one of them is taken out.
pub proof fn lemma_remove_in_order(notes: Seq<Note>, at: int)
    requires
        sorted_by_start(notes),
        0 <= at < notes.len(),
    ensures
        sorted_by_start(notes.remove(at)),
{
    lemma_sorted_pairs(notes);
    let rest = notes.remove(at);
    assert forall|i: int| 0 <= i && i + 1 < rest.len() implies (#[trigger] rest[i]).start_tick
        <= rest[i + 1].start_tick by {
        let a = if i < at {
            i
        } else {
            i + 1
        };
        let b = if i + 1 < at {
            i + 1
        } else {
            i + 2
        };
        assert(rest[i] == notes[a]);
        assert(rest[i + 1] == notes[b]);
    }
}

/// Notes in order stay in order when some of them are left out.
pub proof fn lemma_filter_in_order(notes: Seq<Note>, keep: spec_fn(Note) -> bool)
    requires
        sorted_by_start(notes),
    ensures
        sorted_by_start(notes.filter(keep)),
    decreases notes.len(),
{
    reveal(Seq::filter);
    if notes.len() > 0 {
        let rest = notes.drop_last();
        assert forall|i: int| 0 <= i && i + 1 < rest.len() implies (#[trigger] rest[i]).start_tick
            <= rest[i + 1].start_tick by {
            assert(rest[i] == notes[i]);
            assert(rest[i + 1] == notes[i + 1]);
        }
        lemma_filter_in_order(rest, keep);
        let kept = rest.filter(keep);
        if keep(notes.last()) {
            let grown = kept.push(notes.last());
            assert(notes.filter(keep) == grown);
            if kept.len() > 0 {
                let top = kept.last();
                assert(kept.contains(top));
                rest.lemma_filter_contains_rev(keep, top);
                let k = choose|k: int| 0 <= k < rest.len() && rest[k] == top;
                lemma_sorted_pairs(notes);
                assert(notes[k] == top);
                assert(top.start_tick <= notes.last().start_tick);
            }
            assert forall|i: int| 0 <= i && i + 1 < grown.len() implies (
            #[trigger] grown[i]).start_tick <= grown[i + 1].start_tick by {
                if i + 1 < kept.len() {
                    assert(grown[i] == kept[i]);
                    assert(grown[i + 1] == kept[i + 1]);
                }
            }
        }
    }
}

/// Notes in order are in order after an edit of some of them.
pub proof fn lemma_edit_in_order(notes: Seq<Note>, selected: Set<u64>, edit: NoteEdit)
    requires
        sorted_by_start(notes),
    ensures
        sorted_by_start(notes_after_edit(notes, selected, edit)),
{
    let edited = edited_notes(notes, selected, edit);
    if edit is Shift {
        lemma_stable_sort_sorted(edited);
    } else {
        assert forall|i: int| 0 <= i && i + 1 < edited.len() implies (
        #[trigger] edited[i]).start_tick <= edited[i + 1].start_tick by {
            assert(edited[i].start_tick == notes[i].start_tick);
            assert(edited[i + 1].start_tick == notes[i + 1].start_tick);
        }
    }
}

/// A project in order stays in order when one of its tracks gives way
/// to a track in order.
pub proof fn lemma_with_track_in_order(project: ProjectView, index: int, track: TrackView)
    requires
        in_order(project),
        0 <= index < project.tracks.len(),
        sorted_by_start(track.notes),
    ensures
        in_order(with_track(project, index, track)),
{
    let changed = with_track(project, index, track);
    assert forall|i: int| 0 <= i < changed.tracks.len() implies sorted_by_start(
        (#[trigger] changed.tracks[i]).notes,
    ) by {
        if i != index {
            assert(changed.tracks[i] == project.tracks[i]);
        }
    }
}

/// A stack in order stays in order when a state in order is pushed.
pub proof fn lemma_push_in_order(stack: Seq<SnapshotView>, snap: SnapshotView)
    requires
        stack_in_order(stack),
        in_order(snap.project),
    ensures
        stack_in_order(bounded_push(stack, snap)),
{
    let grown = stack.push(snap);
    let pushed = bounded_push(stack, snap);
    assert forall|k: int| 0 <= k < pushed.len() implies in_order((#[trigger] pushed[k]).project) by {
        let from = grown.len() - pushed.len();
        assert(pushed[k] == grown[from + k]);
        if from + k < stack.len() {
            assert(grown[from + k] == stack[from + k]);
        }
    }
}

/// The history of an editor in order is in order after an edit was
/// recorded.
pub proof fn lemma_recorded_in_order(before: App, after: App, description: Seq<char>)
    requires
        kept_in_order(before),
        recorded(before, after, description),
    ensures
        stack_in_order(after.history@.undo),
        stack_in_order(after.history@.redo),
{
    lemma_push_in_order(before.history@.undo, snapshot_view(before, description));
}

/// A note that goes to its place in the selected track keeps the
/// editor in order.
pub proof fn lemma_insert_keeps_order(
    before: App,
    after: App,
    note: Note,
    description: Seq<char>,
)
    requires
        kept_in_order(before),
        recorded(before, after, description),
        has_selected_track(before),
        after.project@ == with_track(
            before.project@,
            before.selected_track_index as int,
            TrackView {
                notes: ordered_insert(selected_view(before).notes, note),
                ..selected_view(before)
            },
        ),
    ensures
        kept_in_order(after),
{
    let track = selected_view(before);
    lemma_recorded_in_order(before, after, description);
    lemma_sorted_pairs(track.notes);
    lemma_ordered_insert_sorted(track.notes, note);
    lemma_sorted_pairs(ordered_insert(track.notes, note));
    lemma_with_track_in_order(
        before.project@,
        before.selected_track_index as int,
        TrackView { notes: ordered_insert(track.notes, note), ..track },
    );
}

/// The selected track of an editor in order is in order.
pub proof fn lemma_selected_in_order(before: App)
    requires
        in_order(before.project@),
        has_selected_track(before),
    ensures
        before.project.tracks@[before.selected_track_index as int].is_sorted(),
{
    let index = before.selected_track_index as int;
    assert(before.project@.tracks[index] == before.project.tracks@[index]@);
}

/// Placing a note keeps the editor in order.
#[verifier::rlimit(50)]
pub proof fn lemma_placing_keeps_order(
    before: App,
    after: App,
    commands: Seq<SynthCommand>,
    description: Seq<char>,
)
    requires
        kept_in_order(before),
        note_placed(before, after, commands, description),
    ensures
        kept_in_order(after),
{
    if has_selected_track(before) {
        lemma_selected_in_order(before);
        let note = Note {
            id: NoteId(before.ids.next_note),
            pitch: crate::midi::note::min_u8(before.cursor_pitch, 127),
            velocity: super::DEFAULT_VELOCITY,
            start_tick: before.cursor_tick,
            duration_ticks: super::DEFAULT_NOTE_DURATION,
        };
        lemma_insert_keeps_order(before, after, note, description);
    } else {
        lemma_recorded_in_order(before, after, description);
    }
}

/// Deleting a note keeps the editor in order.
pub proof fn lemma_deleting_keeps_order(before: App, after: App, note_id: NoteId)
    requires
        kept_in_order(before),
        note_deleted(before, after, note_id),
    ensures
        kept_in_order(after),
{
    lemma_recorded_in_order(before, after, "Delete note"@);
    if has_selected_track(before) {
        let index = before.selected_track_index as int;
        let track = selected_view(before);
        let at = crate::midi::track::index_of_id(track.notes, note_id);
        if crate::midi::track::has_id(track.notes, note_id) {
            crate::midi::track::lemma_index_of_id(track.notes, note_id);
            lemma_remove_in_order(track.notes, at);
            lemma_with_track_in_order(
                before.project@,
                index,
                TrackView { notes: track.notes.remove(at), ..track },
            );
        } else {
            lemma_with_track_in_order(before.project@, index, track);
        }
    }
}

/// Deleting the selected notes keeps the editor in order.
pub proof fn lemma_deleting_selection_keeps_order(before: App, after: App)
    requires
        kept_in_order(before),
        selection_deleted(before, after),
    ensures
        kept_in_order(after),
{
    if before.selected_notes@.len() > 0 {
        lemma_recorded_in_order(before, after, "Delete selected notes"@);
        if has_selected_track(before) {
            let track = selected_view(before);
            let keep = |n: Note| !before.selected_notes@.contains(n.id.0);
            lemma_filter_in_order(track.notes, keep);
            lemma_with_track_in_order(
                before.project@,
                before.selected_track_index as int,
                TrackView { notes: track.notes.filter(keep), ..track },
            );
        }
    }
}

/// An edit of the selected notes keeps the editor in order.
pub proof fn lemma_editing_keeps_order(
    before: App,
    after: App,
    edit: NoteEdit,
    description: Seq<char>,
)
    requires
        kept_in_order(before),
        selection_edit_recorded(before, after, edit, description),
    ensures
        kept_in_order(after),
{
    if before.selected_notes@.len() > 0 {
        lemma_recorded_in_order(before, after, description);
        if has_selected_track(before) {
            let track = selected_view(before);
            lemma_edit_in_order(track.notes, before.selected_notes@, edit);
            lemma_with_track_in_order(
                before.project@,
                before.selected_track_index as int,
                TrackView {
                    notes: notes_after_edit(track.notes, before.selected_notes@, edit),
                    ..track
                },
            );
        }
    }
}

/// A change of what a track is set to, which leaves its notes alone,
/// keeps the editor in order.
pub proof fn lemma_setting_keeps_order(
    before: App,
    after: App,
    index: int,
    track: TrackView,
    description: Seq<char>,
)
    requires
        kept_in_order(before),
        0 <= index < before.project@.tracks.len(),
        recorded(before, after, description),
        after.project@ == with_track(before.project@, index, track),
        track.notes == before.project@.tracks[index].notes,
    ensures
        kept_in_order(after),
{
    lemma_recorded_in_order(before, after, description);
    lemma_with_track_in_order(before.project@, index, track);
}

/// An undo or a redo keeps the editor in order.
pub proof fn lemma_history_keeps_order(
    before: App,
    after: App,
    done: bool,
    commands: Seq<SynthCommand>,
    undo: bool,
)
    requires
        kept_in_order(before),
        if undo {
            undone(before, after, done, commands)
        } else {
            redone(before, after, done, commands)
        },
    ensures
        kept_in_order(after),
{
    let h = before.history@;
    if undo {
        if h.undo.len() > 0 && crate::history::restorable(h.undo.last()) {
            let snap = h.undo.last();
            assert(in_order(snap.project));
            lemma_push_in_order(h.redo, snapshot_view(before, snap.description));
            assert forall|k: int| 0 <= k < h.undo.drop_last().len() implies in_order(
                (#[trigger] h.undo.drop_last()[k]).project,
            ) by {
                assert(h.undo.drop_last()[k] == h.undo[k]);
            }
        }
    } else {
        if h.redo.len() > 0 && crate::history::restorable(h.redo.last()) {
            let snap = h.redo.last();
            assert(in_order(snap.project));
            lemma_push_in_order(h.undo, snapshot_view(before, snap.description));
            assert forall|k: int| 0 <= k < h.redo.drop_last().len() implies in_order(
                (#[trigger] h.redo.drop_last()[k]).project,
            ) by {
                assert(h.redo.drop_last()[k] == h.redo[k]);
            }
        }
    }
}

/// A key that plays a note keeps the editor in order.
pub proof fn lemma_playing_keeps_order(
    before: App,
    after: App,
    played: bool,
    commands: Seq<SynthCommand>,
    key: char,
)
    requires
        kept_in_order(before),
        note_key_pressed(before, after, played, commands, key),
    ensures
        kept_in_order(after),
{
    match super::playback::key_note(key, before.octave_offset) {
        Some(note) => {
            if before.edit_mode == EditMode::Insert {
                lemma_push_in_order(before.history@.undo, snapshot_view(before, "Insert note"@));
                if has_selected_track(before) {
                    let index = before.selected_track_index as int;
                    let track = selected_view(before);
                    assert(before.project@.tracks[index] == before.project.tracks@[index]@);
                    assert(before.project.tracks@[index].is_sorted());
                    let began = App {
                        insert_recording_active: true,
                        insert_recording_start_time: if before.insert_recording_active {
                            before.insert_recording_start_time
                        } else {
                            Some(before.now_micros)
                        },
                        insert_recording_start_tick: if before.insert_recording_active {
                            before.insert_recording_start_tick
                        } else {
                            before.cursor_tick
                        },
                        ..before
                    };
                    let placed = Note {
                        id: NoteId(before.ids.next_note),
                        pitch: note,
                        velocity: super::DEFAULT_VELOCITY,
                        start_tick: super::playback::recording_tick(began),
                        duration_ticks: super::DEFAULT_NOTE_DURATION,
                    };
                    lemma_sorted_pairs(track.notes);
                    lemma_ordered_insert_sorted(track.notes, placed);
                    lemma_sorted_pairs(ordered_insert(track.notes, placed));
                    lemma_with_track_in_order(
                        before.project@,
                        index,
                        TrackView { notes: ordered_insert(track.notes, placed), ..track },
                    );
                }
            }
        },
        None => {},
    }
}

/// A project in order stays in order when a track is taken out.
pub proof fn lemma_remove_track_in_order(project: ProjectView, at: int)
    requires
        in_order(project),
        0 <= at < project.tracks.len(),
    ensures
        in_order(ProjectView { tracks: project.tracks.remove(at), ..project }),
{
    let rest = project.tracks.remove(at);
    assert forall|i: int| 0 <= i < rest.len() implies sorted_by_start((#[trigger] rest[i]).notes) by {
        if i < at {
            assert(rest[i] == project.tracks[i]);
        } else {
            assert(rest[i] == project.tracks[i + 1]);
        }
    }
}

/// A project in order stays in order when a track without notes is
/// added.
pub proof fn lemma_push_track_in_order(project: ProjectView, track: TrackView, next_channel: u8)
    requires
        in_order(project),
        track.notes.len() == 0,
    ensures
        in_order(ProjectView { tracks: project.tracks.push(track), next_channel, ..project }),
{
    let grown = project.tracks.push(track);
    assert forall|i: int| 0 <= i < grown.len() implies sorted_by_start((#[trigger] grown[i]).notes) by {
        if i < project.tracks.len() {
            assert(grown[i] == project.tracks[i]);
        }
    }
}

/// An editor whose project and history are those of an editor in
/// order is in order.
pub proof fn lemma_same_music_in_order(before: App, after: App)
    requires
        kept_in_order(before),
        after.project@ == before.project@,
        after.history@ == before.history@,
    ensures
        kept_in_order(after),
{
}

/// A command on view, cursor, mode or focus keeps the editor in order.
#[verifier::rlimit(50)]
pub proof fn lemma_view_keeps_order(
    before: App,
    after: App,
    commands: Seq<SynthCommand>,
    command: Command,
)
    requires
        kept_in_order(before),
        performed(before, after, commands, command),
        kind_of(command) == CommandKind::View,
    ensures
        kept_in_order(after),
{
    assert(after.project == before.project && after.history == before.history);
}

/// A command of the transport, of the history or of a key that plays
/// keeps the editor in order.
#[verifier::rlimit(50)]
pub proof fn lemma_play_keeps_order(
    before: App,
    after: App,
    commands: Seq<SynthCommand>,
    command: Command,
)
    requires
        kept_in_order(before),
        performed(before, after, commands, command),
        kind_of(command) == CommandKind::Play,
    ensures
        kept_in_order(after),
{
    match command {
        Command::Undo => {
            let done = choose|done: bool| undone(before, after, done, commands);
            lemma_history_keeps_order(before, after, done, commands, true);
        },
        Command::Redo => {
            let done = choose|done: bool| redone(before, after, done, commands);
            lemma_history_keeps_order(before, after, done, commands, false);
        },
        Command::NoteKey(c) => {
            let played = choose|played: bool| note_key_pressed(before, after, played, commands, c);
            lemma_playing_keeps_order(before, after, played, commands, c);
        },
        _ => {
            assert(after.project == before.project && after.history == before.history);
        },
    }
}

/// A command on the tracks, the tempo or the time signature keeps the
/// editor in order.
#[verifier::rlimit(80)]
pub proof fn lemma_mix_keeps_order(
    before: App,
    after: App,
    commands: Seq<SynthCommand>,
    command: Command,
)
    requires
        kept_in_order(before),
        performed(before, after, commands, command),
        kind_of(command) == CommandKind::Mix,
    ensures
        kept_in_order(after),
{
    let index = before.selected_track_index as int;
    let track = selected_view(before);
    let project = before.project@;
    match command {
        Command::AddTrack => {
            lemma_recorded_in_order(before, after, "Add track"@);
            let added = after.project@.tracks.last();
            lemma_push_track_in_order(project, added, after.project@.next_channel);
        },
        Command::DeleteTrack => {
            if project.tracks.len() > 1 && has_selected_track(before) {
                lemma_recorded_in_order(before, after, "Delete track"@);
                crate::midi::project::lemma_index_of_track(project.tracks, track.id);
                let at = crate::midi::project::index_of_track(project.tracks, track.id);
                assert(project.tracks[index].id == track.id);
                assert(crate::midi::project::has_track(project.tracks, track.id));
                lemma_remove_track_in_order(project, at);
            } else {
                lemma_same_music_in_order(before, after);
            }
        },
        Command::RenameTrack => {
            lemma_same_music_in_order(before, after);
        },
        Command::ToggleMute => {
            if has_selected_track(before) {
                lemma_setting_keeps_order(
                    before,
                    after,
                    index,
                    TrackView { muted: !track.muted, ..track },
                    "Toggle mute"@,
                );
            }
        },
        Command::ToggleSolo => {
            if has_selected_track(before) {
                lemma_setting_keeps_order(
                    before,
                    after,
                    index,
                    TrackView { solo: !track.solo, ..track },
                    "Toggle solo"@,
                );
            }
        },
        Command::TempoDown | Command::TempoUp => {
            lemma_recorded_in_order(before, after, "Adjust tempo"@);
            assert(after.project@.tracks == project.tracks);
        },
        Command::FewerBeats | Command::MoreBeats | Command::NextBeatUnit => {
            lemma_recorded_in_order(before, after, "Adjust time signature"@);
            assert(after.project@.tracks == project.tracks);
        },
        Command::PreviousInstrument | Command::NextInstrument => {
            if has_selected_track(before) {
                lemma_setting_keeps_order(
                    before,
                    after,
                    index,
                    after.project@.tracks[index],
                    "Change instrument"@,
                );
            } else {
                lemma_same_music_in_order(before, after);
            }
        },
        Command::VolumeDown | Command::VolumeUp => {
            if has_selected_track(before) {
                lemma_setting_keeps_order(
                    before,
                    after,
                    index,
                    after.project@.tracks[index],
                    "Adjust volume"@,
                );
            }
        },
        _ => {
            if has_selected_track(before) {
                lemma_setting_keeps_order(
                    before,
                    after,
                    index,
                    after.project@.tracks[index],
                    "Adjust pan"@,
                );
            }
        },
    }
}

/// A command on notes keeps the editor in order.
#[verifier::rlimit(80)]
pub proof fn lemma_edit_keeps_order(
    before: App,
    after: App,
    commands: Seq<SynthCommand>,
    command: Command,
)
    requires
        kept_in_order(before),
        performed(before, after, commands, command),
        kind_of(command) == CommandKind::Edit,
    ensures
        kept_in_order(after),
{
    let step = super::keys::column_step(before.zoom);
    let plain = App { status_message: before.status_message, ..after };
    let chosen = before.selected_notes@.len() > 0;
    match command {
        Command::PlaceNote => {
            lemma_placing_keeps_order(before, after, commands, "Place note"@);
        },
        Command::DeleteNote => {
            let notes = selected_view(before).notes;
            let at = super::editing::note_index_at(
                notes,
                before.cursor_pitch,
                before.cursor_tick,
                0,
            );
            if has_selected_track(before) && at < notes.len() {
                lemma_deleting_keeps_order(before, after, notes[at].id);
            }
        },
        Command::DeleteSelection => {
            lemma_deleting_selection_keeps_order(before, after);
        },
        Command::ShortenNotes => {
            if chosen {
                lemma_editing_keeps_order(
                    before,
                    plain,
                    NoteEdit::Lengthen((-step) as i32),
                    "Adjust note duration"@,
                );
                lemma_same_music_in_order(plain, after);
            }
        },
        Command::LengthenNotes => {
            if chosen {
                lemma_editing_keeps_order(
                    before,
                    plain,
                    NoteEdit::Lengthen(step),
                    "Adjust note duration"@,
                );
                lemma_same_music_in_order(plain, after);
            }
        },
        Command::NotesUp => {
            if chosen {
                lemma_editing_keeps_order(
                    before,
                    plain,
                    NoteEdit::Transpose(1i8),
                    "Transpose notes"@,
                );
                lemma_same_music_in_order(plain, after);
            }
        },
        Command::NotesDown => {
            if chosen {
                lemma_editing_keeps_order(
                    before,
                    plain,
                    NoteEdit::Transpose(-1i8),
                    "Transpose notes"@,
                );
                lemma_same_music_in_order(plain, after);
            }
        },
        Command::NotesLeft => {
            if chosen {
                lemma_editing_keeps_order(
                    before,
                    plain,
                    NoteEdit::Shift((-step) as i32),
                    "Move notes"@,
                );
                lemma_same_music_in_order(plain, after);
            }
        },
        Command::NotesRight => {
            if chosen {
                lemma_editing_keeps_order(before, plain, NoteEdit::Shift(step), "Move notes"@);
                lemma_same_music_in_order(plain, after);
            }
        },
        _ => {},
    }
}

/// The editor stays in order. Whatever command is carried out on an
/// editor in which the notes of every track are in order of start, in
/// the project and in every state that the history holds: they are in
/// order afterwards.
pub proof fn lemma_command_keeps_order(
    before: App,
    after: App,
    commands: Seq<SynthCommand>,
    command: Command,
)
    requires
        kept_in_order(before),
        performed(before, after, commands, command),
    ensures
        kept_in_order(after),
{
    match kind_of(command) {
        CommandKind::View => lemma_view_keeps_order(before, after, commands, command),
        CommandKind::Play => lemma_play_keeps_order(before, after, commands, command),
        CommandKind::Mix => lemma_mix_keeps_order(before, after, commands, command),
        CommandKind::Edit => lemma_edit_keeps_order(before, after, commands, command),
    }
}

/// A click in the track list keeps the editor in order.
#[verifier::rlimit(50)]
pub proof fn lemma_track_click_keeps_order(
    before: App,
    after: App,
    commands: Seq<SynthCommand>,
    x: u16,
    y: u16,
)
    requires
        kept_in_order(before),
        track_list_clicked(before, after, commands, x, y),
    ensures
        kept_in_order(after),
{
    match clicked_track(before, y) {
        None => {},
        Some((index, first_row)) => {
            let column = less(x as int, before.layout.track_list.x + 1);
            let track = before.project@.tracks[index as int];
            if first_row && column == 0 {
                if index < before.project@.tracks.len() {
                    lemma_setting_keeps_order(
                        before,
                        after,
                        index as int,
                        TrackView { muted: !track.muted, ..track },
                        "Toggle mute"@,
                    );
                }
            } else if first_row && column == 1 {
                if index < before.project@.tracks.len() {
                    lemma_setting_keeps_order(
                        before,
                        after,
                        index as int,
                        TrackView { solo: !track.solo, ..track },
                        "Toggle solo"@,
                    );
                }
            } else {
                lemma_same_music_in_order(before, after);
            }
        },
    }
}

/// A click in the piano roll keeps the editor in order.
#[verifier::rlimit(50)]
pub proof fn lemma_roll_click_keeps_order(
    before: App,
    after: App,
    commands: Seq<SynthCommand>,
    x: u16,
    y: u16,
    shift_held: bool,
)
    requires
        kept_in_order(before),
        piano_roll_clicked(before, after, commands, x, y, shift_held),
    ensures
        kept_in_order(after),
{
    match before.layout.ruler(x, y) {
        Some((column, _)) => {
            lemma_same_music_in_order(before, after);
        },
        None => {
            if before.layout.piano_roll_grid.holds(x, y) {
                let at = App {
                    cursor_tick: grid_tick(before, x),
                    cursor_pitch: grid_pitch(before, y),
                    ..before
                };
                lemma_same_music_in_order(before, at);
                let notes = selected_view(at).notes;
                let i = super::editing::note_index_at(notes, at.cursor_pitch, at.cursor_tick, 0);
                if has_selected_track(at) && i < notes.len() {
                    lemma_same_music_in_order(at, after);
                } else if at.edit_mode == EditMode::Insert {
                    lemma_placing_keeps_order(at, after, commands, "Place note"@);
                } else {
                    lemma_same_music_in_order(at, after);
                }
            } else if before.layout.on_piano_keys(x) {
                if before.edit_mode == EditMode::Insert {
                    let at = App { cursor_pitch: key_pitch(before, y), ..before };
                    lemma_same_music_in_order(before, at);
                    lemma_placing_keeps_order(at, after, commands, "Insert note"@);
                } else {
                    lemma_same_music_in_order(before, after);
                }
            }
        },
    }
}

/// A click keeps the editor in order.
#[verifier::rlimit(50)]
pub proof fn lemma_click_keeps_order(
    before: App,
    after: App,
    commands: Seq<SynthCommand>,
    x: u16,
    y: u16,
    shift_held: bool,
)
    requires
        kept_in_order(before),
        mouse_clicked(before, after, commands, x, y, shift_held),
    ensures
        kept_in_order(after),
{
    match before.layout.panel(x, y) {
        None => {},
        Some(panel) => {
            let focused = App { focused_panel: panel, ..before };
            lemma_same_music_in_order(before, focused);
            match panel {
                FocusedPanel::TrackList => {
                    lemma_track_click_keeps_order(focused, after, commands, x, y);
                },
                FocusedPanel::PianoRoll => {
                    lemma_roll_click_keeps_order(focused, after, commands, x, y, shift_held);
                },
                _ => {
                    lemma_same_music_in_order(focused, after);
                },
            }
        },
    }
}

/// A double click keeps the editor in order.
#[verifier::rlimit(50)]
pub proof fn lemma_double_click_keeps_order(
    before: App,
    after: App,
    commands: Seq<SynthCommand>,
    x: u16,
    y: u16,
)
    requires
        kept_in_order(before),
        double_clicked(before, after, commands, x, y),
    ensures
        kept_in_order(after),
{
    match before.layout.panel(x, y) {
        Some(FocusedPanel::PianoRoll) => {
            if before.layout.piano_roll_grid.holds(x, y) {
                let at = App {
                    cursor_tick: grid_tick(before, x),
                    cursor_pitch: grid_pitch(before, y),
                    ..before
                };
                lemma_same_music_in_order(before, at);
                let notes = selected_view(at).notes;
                let i = super::editing::note_index_at(notes, at.cursor_pitch, at.cursor_tick, 0);
                if has_selected_track(at) && i < notes.len() {
                    lemma_deleting_keeps_order(at, after, notes[i].id);
                } else {
                    lemma_placing_keeps_order(at, after, commands, "Place note"@);
                }
            }
        },
        Some(_) => {
            lemma_same_music_in_order(before, after);
        },
        None => {},
    }
}

/// The begin of a drag keeps the editor in order.
pub proof fn lemma_drag_start_keeps_order(
    before: App,
    after: App,
    x: u16,
    y: u16,
    shift_held: bool,
)
    requires
        kept_in_order(before),
        drag_started(before, after, x, y, shift_held),
    ensures
        kept_in_order(after),
{
    lemma_push_in_order(before.history@.undo, snapshot_view(before, "Move notes"@));
}

/// A drag keeps the editor in order.
#[verifier::rlimit(50)]
pub proof fn lemma_drag_keeps_order(before: App, after: App, x: u16, y: u16)
    requires
        kept_in_order(before),
        dragged(before, after, x, y),
    ensures
        kept_in_order(after),
{
    match before.drag_state {
        DragState::MovingNotes { last_x, last_y, .. } => {
            if before.selected_notes@.len() > 0 && has_selected_track(before) {
                let track = selected_view(before);
                let chosen = before.selected_notes@;
                let columns = x - last_x;
                let rows_down = y - last_y;
                let moved = if columns != 0 {
                    notes_after_edit(
                        track.notes,
                        chosen,
                        NoteEdit::Shift(drag_ticks(columns, before.zoom)),
                    )
                } else {
                    track.notes
                };
                if columns != 0 {
                    lemma_edit_in_order(
                        track.notes,
                        chosen,
                        NoteEdit::Shift(drag_ticks(columns, before.zoom)),
                    );
                }
                if rows_down != 0 {
                    lemma_edit_in_order(
                        moved,
                        chosen,
                        NoteEdit::Transpose(drag_semitones(rows_down)),
                    );
                }
                lemma_with_track_in_order(
                    before.project@,
                    before.selected_track_index as int,
                    TrackView {
                        notes: dragged_notes(track.notes, chosen, before.zoom, columns, rows_down),
                        ..track
                    },
                );
            }
        },
        _ => {},
    }
}

/// A turn of the wheel keeps the editor in order.
#[verifier::rlimit(50)]
pub proof fn lemma_scroll_keeps_order(
    before: App,
    after: App,
    x: u16,
    y: u16,
    delta_x: i16,
    delta_y: i16,
    ctrl_held: bool,
)
    requires
        kept_in_order(before),
        mouse_scrolled(before, after, x, y, delta_x, delta_y, ctrl_held),
    ensures
        kept_in_order(after),
{
    match before.layout.panel(x, y) {
        Some(FocusedPanel::Timeline) => {
            if delta_y != 0 {
                lemma_recorded_in_order(before, after, "Adjust tempo"@);
                assert(after.project@.tracks == before.project@.tracks);
            }
        },
        _ => {},
    }
}

/// The mouse keeps the editor in order: whatever the mouse does to an
/// editor in which the notes of every track are in order of start, in
/// the project and in every state that the history holds, they are in
/// order afterwards.
#[verifier::rlimit(50)]
pub proof fn lemma_mouse_keeps_order(
    before: App,
    pointer: Pointer,
    after: App,
    pointer_after: Pointer,
    commands: Seq<SynthCommand>,
    action: MouseAction,
    x: u16,
    y: u16,
    shift_held: bool,
    ctrl_held: bool,
    now_ms: u64,
)
    requires
        kept_in_order(before),
        mouse_handled(
            before,
            pointer,
            after,
            pointer_after,
            commands,
            action,
            x,
            y,
            shift_held,
            ctrl_held,
            now_ms,
        ),
    ensures
        kept_in_order(after),
{
    if before.show_help {
        lemma_same_music_in_order(before, after);
    } else {
        match action {
            MouseAction::Down(MouseButton::Left) => {
                if doubles(pointer.clicks, (x, y), now_ms) {
                    lemma_double_click_keeps_order(before, after, commands, x, y);
                } else {
                    let mid = choose|mid: App|
                        #[trigger] drag_started(before, mid, x, y, shift_held) && mouse_clicked(
                            mid,
                            after,
                            commands,
                            x,
                            y,
                            shift_held,
                        );
                    lemma_drag_start_keeps_order(before, mid, x, y, shift_held);
                    lemma_click_keeps_order(mid, after, commands, x, y, shift_held);
                }
            },
            MouseAction::Drag(MouseButton::Left) | MouseAction::Drag(MouseButton::Middle) => {
                lemma_drag_keeps_order(before, after, x, y);
            },
            MouseAction::Down(MouseButton::Middle) => {
                lemma_drag_start_keeps_order(before, after, x, y, false);
            },
            MouseAction::ScrollUp => {
                lemma_scroll_keeps_order(before, after, x, y, 0, 1, ctrl_held);
            },
            MouseAction::ScrollDown => {
                lemma_scroll_keeps_order(before, after, x, y, 0, -1i16, ctrl_held);
            },
            MouseAction::ScrollLeft => {
                lemma_scroll_keeps_order(before, after, x, y, -1i16, 0, ctrl_held);
            },
            MouseAction::ScrollRight => {
                lemma_scroll_keeps_order(before, after, x, y, 1, 0, ctrl_held);
            },
            _ => {
                lemma_same_music_in_order(before, after);
            },
        }
    }
}

/// The keys keep the editor in order: whatever key is pressed on an
/// editor in which the notes of every track are in order of start, in
/// the project and in every state that the history holds, they are in
/// order afterwards.
#[verifier::rlimit(80)]
pub proof fn lemma_key_keeps_order(
    before: App,
    after: App,
    request: Request,
    commands: Seq<SynthCommand>,
    key: Key,
    held: Modifiers,
)
    requires
        kept_in_order(before),
        key_pressed(before, after, request, commands, key, held),
    ensures
        kept_in_order(after),
{
    match screen_of(before) {
        Screen::Editor => {
            lemma_command_keeps_order(
                before,
                after,
                commands,
                command_of(before.edit_mode, key, held),
            );
        },
        Screen::NewProjectDialog => {
            if key == Key::Enter {
                let created = choose|created: bool| #[trigger]
                    new_project_confirmed(before, after, created, commands);
                if created {
                    assert(after.project@.tracks.len() == 1);
                    assert(after.project@.tracks[0].notes.len() == 0);
                } else {
                    lemma_same_music_in_order(before, after);
                }
            } else {
                lemma_same_music_in_order(before, after);
            }
        },
        Screen::Renaming => {
            if key == Key::Enter && before.renaming_track {
                let name = crate::midi::names::trimmed(before.rename_buffer@);
                if name.len() > 0 && has_selected_track(before) {
                    lemma_setting_keeps_order(
                        before,
                        after,
                        before.selected_track_index as int,
                        TrackView { name, ..selected_view(before) },
                        "Rename track"@,
                    );
                } else if name.len() > 0 {
                    lemma_recorded_in_order(before, after, "Rename track"@);
                } else {
                    lemma_same_music_in_order(before, after);
                }
            } else {
                lemma_same_music_in_order(before, after);
            }
        },
        _ => {
            lemma_same_music_in_order(before, after);
        },
    }
}

/// A fresh editor is in order.
pub proof fn lemma_fresh_in_order(app: App)
    requires
        app.project@.tracks.len() == 1,
        app.project@.tracks[0].notes.len() == 0,
        app.history@.undo.len() == 0,
        app.history@.redo.len() == 0,
    ensures
        kept_in_order(app),
{
}

} // verus!

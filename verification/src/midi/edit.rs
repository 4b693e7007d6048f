//! Edits of the selected notes of a track.

use vstd::prelude::*;
use std::collections::HashSet;
use super::note::{Note, shifted_tick};
use super::track::{Track, TrackView, sorted_by_start, stable_sort};

verus! {

broadcast use vstd::std_specs::hash::group_hash_axioms;

/// An edit of a note.
#[derive(Debug, Clone, Copy, PartialEq, Eq, Structural)]
pub enum NoteEdit {
    /// Move the pitch by so many semitones, stopping at 0 and at 127.
    Transpose(i8),
    /// Change the duration by so many ticks, stopping at 1 tick.
    Lengthen(i32),
    /// Move the start by so many ticks, stopping at tick 0.
    Shift(i32),
}

/// `pitch + semitones`, held within 0 to 127.
pub open spec fn clamped_pitch(pitch: u8, semitones: int) -> u8 {
    if pitch + semitones < 0 {
        0
    } else if pitch + semitones > 127 {
        127
    } else {
        (pitch + semitones) as u8
    }
}

/// `duration + delta`, held within 1 and the largest `u32`.
pub open spec fn clamped_duration(duration: u32, delta: int) -> u32 {
    if duration + delta < 1 {
        1
    } else if duration + delta > u32::MAX {
        u32::MAX
    } else {
        (duration + delta) as u32
    }
}

/// `note` after `edit`.
pub open spec fn edited_note(note: Note, edit: NoteEdit) -> Note {
    match edit {
        NoteEdit::Transpose(semitones) => Note {
            pitch: clamped_pitch(note.pitch, semitones as int),
            ..note
        },
        NoteEdit::Lengthen(delta) => Note {
            duration_ticks: clamped_duration(note.duration_ticks, delta as int),
            ..note
        },
        NoteEdit::Shift(ticks) => Note {
            start_tick: shifted_tick(note.start_tick, ticks as int),
            ..note
        },
    }
}

/// `notes` with `edit` applied to those whose identifier is in `selected`.
pub open spec fn edited_notes(notes: Seq<Note>, selected: Set<u64>, edit: NoteEdit) -> Seq<Note> {
    notes.map_values(
        |n: Note|
            if selected.contains(n.id.0) {
                edited_note(n, edit)
            } else {
                n
            },
    )
}

/// The notes of a track after `edit` of the selected ones: a shift is
/// followed by putting the notes in order of start again.
pub open spec fn notes_after_edit(notes: Seq<Note>, selected: Set<u64>, edit: NoteEdit) -> Seq<Note> {
    if edit is Shift {
        stable_sort(edited_notes(notes, selected, edit))
    } else {
        edited_notes(notes, selected, edit)
    }
}

/// `note` after `edit`.
pub fn apply_edit(note: Note, edit: NoteEdit) -> (changed: Note)
    ensures
        changed == edited_note(note, edit),
{
    let mut changed = note;
    match edit {
        NoteEdit::Transpose(semitones) => {
            let pitch: i16 = note.pitch as i16 + semitones as i16;
            changed.pitch = if pitch < 0 {
                0
            } else if pitch > 127 {
                127
            } else {
                pitch as u8
            };
        },
        NoteEdit::Lengthen(delta) => {
            let duration: i64 = note.duration_ticks as i64 + delta as i64;
            changed.duration_ticks = if duration < 1 {
                1
            } else if duration > u32::MAX as i64 {
                u32::MAX
            } else {
                duration as u32
            };
        },
        NoteEdit::Shift(ticks) => {
            changed.shift(ticks);
        },
    }
    changed
}

impl Track {
    /// Applies `edit` to the notes whose identifier is in `selected`.
    /// After a shift the notes are put in order of start again.
    pub fn edit_selected(&mut self, selected: &HashSet<u64>, edit: NoteEdit)
        ensures
            final(self)@ == (TrackView {
                notes: notes_after_edit(old(self)@.notes, selected@, edit),
                ..old(self)@
            }),
            (old(self).is_sorted() || edit is Shift) ==> final(self).is_sorted(),
    {
        let ghost before = self.notes@;
        let ghost change = |n: Note|
            if selected@.contains(n.id.0) {
                edited_note(n, edit)
            } else {
                n
            };
        let mut i: usize = 0;
        assert(self.notes@.subrange(0, 0) =~= before.subrange(0, 0).map_values(change));
        while i < self.notes.len()
            invariant
                i <= self.notes.len(),
                self.notes@.len() == before.len(),
                change == (|n: Note|
                    if selected@.contains(n.id.0) {
                        edited_note(n, edit)
                    } else {
                        n
                    }),
                forall|k: int| 0 <= k < i ==> self.notes@[k] == change(before[k]),
                forall|k: int| i <= k < before.len() ==> self.notes@[k] == before[k],
                self@ == (TrackView { notes: self.notes@, ..old(self)@ }),
            decreases self.notes.len() - i,
        {
            let note = self.notes[i];
            if selected.contains(&note.id.0) {
                self.notes[i] = apply_edit(note, edit);
            }
            i += 1;
        }
        assert(self.notes@ =~= edited_notes(before, selected@, edit));
        match edit {
            NoteEdit::Shift(_) => {
                self.reorder();
            },
            _ => {
                proof {
                    if sorted_by_start(before) {
                        assert forall|k: int| 0 <= k && k + 1 < self.notes@.len() implies (#[trigger] self.notes@[k]).start_tick
                            <= self.notes@[k + 1].start_tick by {
                            assert(before[k].start_tick <= before[k + 1].start_tick);
                        }
                    }
                }
            },
        }
    }
}

} // verus!

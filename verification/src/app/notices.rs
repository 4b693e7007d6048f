//! The words of the notices of the editor, for the status line.

use vstd::prelude::*;
use vstd::string::StringExecFns;
use super::view::{pan_notice, pan_notice_text};
use super::{HighlightMode, Notice, ViewMode};
use crate::midi::names::{note_name_text, note_to_name};
use crate::text::{decimal, decimal_text, padded_text, push_char, push_decimal, push_padded};

verus! {

/// `middle` between `before` and `after`.
pub open spec fn phrase(before: Seq<char>, middle: Seq<char>, after: Seq<char>) -> Seq<char> {
    before + middle + after
}

/// The decimal numeral of `n`, with a minus sign if it is negative.
pub open spec fn signed_text(n: int) -> Seq<char> {
    if n < 0 {
        seq!['-'] + decimal_text((-n) as nat)
    } else {
        decimal_text(n as nat)
    }
}

/// A position as text: the measure, the beat in two digits and the
/// tick in three, with colons between them.
pub open spec fn position_text(measure: nat, beat: nat, tick: nat) -> Seq<char> {
    decimal_text(measure) + seq![':'] + padded_text(beat, 2, '0') + seq![':'] + padded_text(
        tick,
        3,
        '0',
    )
}

/// The name of a view.
pub open spec fn view_text(view: ViewMode) -> Seq<char> {
    match view {
        ViewMode::Combined => "Combined View"@,
        ViewMode::PianoRoll => "Piano Roll View"@,
        ViewMode::ProjectTimeline => "Project Timeline View"@,
    }
}

/// The words for a way of highlighting.
pub open spec fn highlight_text(highlight: HighlightMode) -> Seq<char> {
    match highlight {
        HighlightMode::PianoRollOnly => "Highlight: Piano Roll only"@,
        HighlightMode::Both => "Highlight: Piano Roll + Timeline"@,
        HighlightMode::Off => "Highlight: OFF"@,
        HighlightMode::TimelineOnly => "Highlight: Timeline only"@,
    }
}

/// The words of a notice. `instrument` is the name of the instrument
/// of which a notice of an instrument speaks.
pub open spec fn notice_text(notice: Notice, instrument: Seq<char>) -> Seq<char> {
    match notice {
        Notice::Paused => "Paused"@,
        Notice::Playing => "Playing"@,
        Notice::Stopped => "Stopped"@,
        Notice::Restarting => "Restarting from beginning"@,
        Notice::AddedTrack { number } => phrase("Added Track "@, decimal_text(number as nat), ""@),
        Notice::CannotDeleteLastTrack => "Cannot delete the last track"@,
        Notice::DeletedTrack { name } => phrase("Deleted "@, name@, ""@),
        Notice::Renaming => "Renaming track - Enter to confirm, Esc to cancel"@,
        Notice::Renamed { name } => phrase("Renamed to: "@, name@, ""@),
        Notice::RenameEmpty => "Rename cancelled - name cannot be empty"@,
        Notice::RenameCancelled => "Rename cancelled"@,
        Notice::Undone { description } => phrase("Undo: "@, description@, ""@),
        Notice::UndoFailed => "Undo failed: history cleared due to invalid state"@,
        Notice::NothingToUndo => "Nothing to undo"@,
        Notice::Redone { description } => phrase("Redo: "@, description@, ""@),
        Notice::RedoFailed => "Redo failed: history cleared due to invalid state"@,
        Notice::NothingToRedo => "Nothing to redo"@,
        Notice::Volume { name, volume } => phrase(name@, ": Volume "@, decimal_text(volume as nat)),
        Notice::Pan { name, pan } => phrase(name@, ": Pan "@, pan_notice_text(pan)),
        Notice::Muted { name, muted } => phrase(
            if muted {
                "Muted"@
            } else {
                "Unmuted"@
            },
            " "@,
            name@,
        ),
        Notice::Solo { name, solo } => phrase(
            if solo {
                "Solo on"@
            } else {
                "Solo off"@
            },
            " "@,
            name@,
        ),
        Notice::Instrument { program } => phrase(
            phrase("Instrument: "@, instrument, " ("@),
            decimal_text(program as nat),
            ")"@,
        ),
        Notice::Tempo { tempo } => phrase("Tempo: "@, decimal_text(tempo as nat), " BPM"@),
        Notice::TimeSignature { numerator, denominator } => phrase(
            phrase("Time signature: "@, decimal_text(numerator as nat), "/"@),
            decimal_text(denominator as nat),
            ""@,
        ),
        Notice::View { view } => view_text(view),
        Notice::ExpandedTracks { expanded } => if expanded {
            "Expanded track view"@
        } else {
            "Compact track view"@
        },
        Notice::Highlight { highlight } => highlight_text(highlight),
        Notice::SeekTo { measure, beat, tick } => phrase(
            "Seek to "@,
            position_text(measure as nat, beat as nat, tick as nat),
            ""@,
        ),
        Notice::AddedNote { pitch, beat } => phrase(
            phrase("Added "@, note_name_text(pitch), " at "@),
            decimal_text(beat as nat),
            ""@,
        ),
        Notice::DeletedNote => "Deleted note"@,
        Notice::SelectedNote { pitch, beat } => phrase(
            phrase("Selected note at "@, note_name_text(pitch), " ("@),
            decimal_text(beat as nat),
            ")"@,
        ),
        Notice::SelectedTrack { name } => phrase("Selected: "@, name@, ""@),
        Notice::PlayingNote { pitch } => phrase("Playing: "@, note_name_text(pitch), ""@),
        Notice::Octave { offset } => phrase("Octave: "@, signed_text(offset as int), ""@),
        Notice::OctaveReset => "Octave reset to 0"@,
        Notice::NormalMode => "Normal mode"@,
        Notice::InsertMode => "Insert mode - keys play & insert notes"@,
        Notice::SelectMode => "Select mode"@,
        Notice::DurationReduced => "Reduced note duration"@,
        Notice::DurationExpanded => "Expanded note duration"@,
        Notice::MovedNotesUp => "Moved notes up"@,
        Notice::MovedNotesDown => "Moved notes down"@,
        Notice::MovedNotesLeft => "Moved notes left"@,
        Notice::MovedNotesRight => "Moved notes right"@,
        Notice::NoteToggled { selected } => if selected {
            "Selected note"@
        } else {
            "Deselected note"@
        },
        Notice::DeletedNotes { count } => phrase("Deleted "@, decimal_text(count as nat), " notes"@),
        Notice::SelectionCleared => "Selection cleared"@,
        Notice::SoundfontCancelled => "Soundfont selection cancelled"@,
        Notice::SoundfontRequired => "A soundfont is required to continue"@,
        Notice::LoadCancelled => "Load cancelled"@,
        Notice::InsertModeByMouse => "Insert mode - click to place notes"@,
        Notice::Zoom { ticks_per_column } => phrase(
            "Zoom: "@,
            decimal_text(ticks_per_column as nat),
            " ticks/col"@,
        ),
        Notice::RecordingStopped => "Recording stopped (2 measures idle)"@,
        Notice::SaveCancelled => "Save cancelled"@,
        Notice::NewProjectCancelled => "New project cancelled"@,
        Notice::NewProjectCreated => "New project created"@,
        Notice::ProjectLoaded => "Project loaded"@,
        Notice::RecoveredFromAutosave => "Recovered from autosave"@,
        Notice::SoundfontLoaded { name } => phrase("Loaded soundfont: "@, name@, ""@),
    }
}

/// `middle` between `before` and `after`.
fn phrase_of(before: &str, middle: &str, after: &str) -> (text: String)
    ensures
        text@ == phrase(before@, middle@, after@),
{
    let mut text = String::from_str(before);
    text.append(middle);
    text.append(after);
    text
}

/// The decimal numeral of `n`, with a minus sign if it is negative.
fn signed(n: i8) -> (text: String)
    ensures
        text@ == signed_text(n as int),
{
    let mut text = String::new();
    if n < 0 {
        push_char(&mut text, '-');
        push_decimal((-(n as i16)) as u64, &mut text);
        assert(text@ =~= signed_text(n as int));
    } else {
        push_decimal(n as u64, &mut text);
        assert(text@ =~= signed_text(n as int));
    }
    text
}

/// A position as text: the measure, the beat in two digits and the
/// tick in three, with colons between them.
pub fn format_position(measure: u32, beat: u32, tick: u32) -> (text: String)
    ensures
        text@ == position_text(measure as nat, beat as nat, tick as nat),
{
    let mut text = String::new();
    push_decimal(measure as u64, &mut text);
    push_char(&mut text, ':');
    push_padded(beat as u64, 2, '0', &mut text);
    push_char(&mut text, ':');
    push_padded(tick as u64, 3, '0', &mut text);
    assert(text@ =~= position_text(measure as nat, beat as nat, tick as nat));
    text
}

/// The words of a notice that is made of words alone.
fn plain_words(notice: &Notice) -> (words: &'static str)
    requires
        is_plain(*notice),
    ensures
        words@ == notice_text(*notice, Seq::<char>::empty()),
{
    match notice {
        Notice::Paused => "Paused",
        Notice::Playing => "Playing",
        Notice::Stopped => "Stopped",
        Notice::Restarting => "Restarting from beginning",
        Notice::CannotDeleteLastTrack => "Cannot delete the last track",
        Notice::Renaming => "Renaming track - Enter to confirm, Esc to cancel",
        Notice::RenameEmpty => "Rename cancelled - name cannot be empty",
        Notice::RenameCancelled => "Rename cancelled",
        Notice::UndoFailed => "Undo failed: history cleared due to invalid state",
        Notice::NothingToUndo => "Nothing to undo",
        Notice::RedoFailed => "Redo failed: history cleared due to invalid state",
        Notice::NothingToRedo => "Nothing to redo",
        Notice::DeletedNote => "Deleted note",
        Notice::OctaveReset => "Octave reset to 0",
        Notice::NormalMode => "Normal mode",
        Notice::InsertMode => "Insert mode - keys play & insert notes",
        Notice::SelectMode => "Select mode",
        Notice::DurationReduced => "Reduced note duration",
        Notice::DurationExpanded => "Expanded note duration",
        Notice::MovedNotesUp => "Moved notes up",
        Notice::MovedNotesDown => "Moved notes down",
        Notice::MovedNotesLeft => "Moved notes left",
        Notice::MovedNotesRight => "Moved notes right",
        Notice::SelectionCleared => "Selection cleared",
        Notice::SoundfontCancelled => "Soundfont selection cancelled",
        Notice::SoundfontRequired => "A soundfont is required to continue",
        Notice::LoadCancelled => "Load cancelled",
        Notice::InsertModeByMouse => "Insert mode - click to place notes",
        Notice::RecordingStopped => "Recording stopped (2 measures idle)",
        Notice::SaveCancelled => "Save cancelled",
        Notice::NewProjectCancelled => "New project cancelled",
        Notice::NewProjectCreated => "New project created",
        Notice::ProjectLoaded => "Project loaded",
        Notice::RecoveredFromAutosave => "Recovered from autosave",
        Notice::View { view } => match view {
            ViewMode::Combined => "Combined View",
            ViewMode::PianoRoll => "Piano Roll View",
            ViewMode::ProjectTimeline => "Project Timeline View",
        },
        Notice::ExpandedTracks { expanded } => if *expanded {
            "Expanded track view"
        } else {
            "Compact track view"
        },
        Notice::Highlight { highlight } => match highlight {
            HighlightMode::PianoRollOnly => "Highlight: Piano Roll only",
            HighlightMode::Both => "Highlight: Piano Roll + Timeline",
            HighlightMode::Off => "Highlight: OFF",
            HighlightMode::TimelineOnly => "Highlight: Timeline only",
        },
        Notice::NoteToggled { selected } => if *selected {
            "Selected note"
        } else {
            "Deselected note"
        },
        _ => "",
    }
}

/// The notice is made of words alone: it names no track, no number and
/// no note.
pub open spec fn is_plain(notice: Notice) -> bool {
    match notice {
        Notice::AddedTrack { .. } | Notice::DeletedTrack { .. } | Notice::Renamed { .. }
        | Notice::Undone { .. } | Notice::Redone { .. } | Notice::Volume { .. } | Notice::Pan { .. }
        | Notice::Muted { .. } | Notice::Solo { .. } | Notice::Instrument { .. } | Notice::Tempo {
            ..
        } | Notice::TimeSignature { .. } | Notice::SeekTo { .. } | Notice::AddedNote { .. }
        | Notice::SelectedNote { .. } | Notice::SelectedTrack { .. } | Notice::PlayingNote { .. }
        | Notice::Octave { .. } | Notice::DeletedNotes { .. } | Notice::Zoom { .. }
        | Notice::SoundfontLoaded { .. } => false,
        _ => true,
    }
}

impl Notice {
    /// The words of the notice. `instrument` is the name of the
    /// instrument of which a notice of an instrument speaks.
    pub fn text(&self, instrument: &str) -> (text: String)
        ensures
            text@ == notice_text(*self, instrument@),
    {
        match self {
            Notice::AddedTrack { number } => phrase_of(
                "Added Track ",
                decimal(*number as u64).as_str(),
                "",
            ),
            Notice::DeletedTrack { name } => phrase_of("Deleted ", name.as_str(), ""),
            Notice::Renamed { name } => phrase_of("Renamed to: ", name.as_str(), ""),
            Notice::Undone { description } => phrase_of("Undo: ", description.as_str(), ""),
            Notice::Redone { description } => phrase_of("Redo: ", description.as_str(), ""),
            Notice::Volume { name, volume } => phrase_of(
                name.as_str(),
                ": Volume ",
                decimal(*volume as u64).as_str(),
            ),
            Notice::Pan { name, pan } => phrase_of(
                name.as_str(),
                ": Pan ",
                pan_notice(*pan).as_str(),
            ),
            Notice::Muted { name, muted } => phrase_of(
                if *muted {
                    "Muted"
                } else {
                    "Unmuted"
                },
                " ",
                name.as_str(),
            ),
            Notice::Solo { name, solo } => phrase_of(
                if *solo {
                    "Solo on"
                } else {
                    "Solo off"
                },
                " ",
                name.as_str(),
            ),
            Notice::Instrument { program } => phrase_of(
                phrase_of("Instrument: ", instrument, " (").as_str(),
                decimal(*program as u64).as_str(),
                ")",
            ),
            Notice::Tempo { tempo } => phrase_of("Tempo: ", decimal(*tempo as u64).as_str(), " BPM"),
            Notice::TimeSignature { numerator, denominator } => phrase_of(
                phrase_of("Time signature: ", decimal(*numerator as u64).as_str(), "/").as_str(),
                decimal(*denominator as u64).as_str(),
                "",
            ),
            Notice::SeekTo { measure, beat, tick } => phrase_of(
                "Seek to ",
                format_position(*measure, *beat, *tick).as_str(),
                "",
            ),
            Notice::AddedNote { pitch, beat } => phrase_of(
                phrase_of("Added ", note_to_name(*pitch).as_str(), " at ").as_str(),
                decimal(*beat as u64).as_str(),
                "",
            ),
            Notice::SelectedNote { pitch, beat } => phrase_of(
                phrase_of("Selected note at ", note_to_name(*pitch).as_str(), " (").as_str(),
                decimal(*beat as u64).as_str(),
                ")",
            ),
            Notice::SelectedTrack { name } => phrase_of("Selected: ", name.as_str(), ""),
            Notice::PlayingNote { pitch } => phrase_of(
                "Playing: ",
                note_to_name(*pitch).as_str(),
                "",
            ),
            Notice::Octave { offset } => phrase_of("Octave: ", signed(*offset).as_str(), ""),
            Notice::DeletedNotes { count } => phrase_of(
                "Deleted ",
                decimal(*count as u64).as_str(),
                " notes",
            ),
            Notice::Zoom { ticks_per_column } => phrase_of(
                "Zoom: ",
                decimal(*ticks_per_column as u64).as_str(),
                " ticks/col",
            ),
            Notice::SoundfontLoaded { name } => phrase_of("Loaded soundfont: ", name.as_str(), ""),
            _ => String::from_str(plain_words(self)),
        }
    }
}

} // verus!

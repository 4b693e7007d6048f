//! The sequencer: which notes begin and end between two positions.
//!
//! Each update covers the ticks behind the last position dispatched, up to
//! and including the current one; the first update of a playback from
//! tick 0 also covers tick 0.

use vstd::prelude::*;
use std::collections::HashSet;
use super::engine::SynthCommand;
use crate::midi::note::Note;
use crate::midi::project::{Project, any_solo, plays, track_views};
use crate::midi::track::{Track, TrackView};

verus! {

broadcast use vstd::std_specs::hash::group_hash_axioms;

/// An event at `tick` falls to the update that goes from `last` to
/// `current`: it lies behind `last` and not behind `current`. Where
/// nothing was dispatched yet, every tick up to `current` counts, except
/// tick 0 for an event that needs a positive tick.
pub open spec fn due(tick: u32, positive: bool, last: Option<u32>, current: u32) -> bool {
    match last {
        None => tick <= current && (!positive || tick > 0),
        Some(l) => l < tick && tick <= current,
    }
}

/// The commands of one note in one update: its note-on if its start is
/// due, then its note-off if its end is due.
pub open spec fn note_commands(note: Note, channel: u8, last: Option<u32>, current: u32) -> Seq<
    SynthCommand,
> {
    let on = if due(note.start_tick, false, last, current) {
        seq![SynthCommand::NoteOn { channel, pitch: note.pitch, velocity: note.velocity }]
    } else {
        Seq::<SynthCommand>::empty()
    };
    let off = if due(note.spec_end_tick(), true, last, current) {
        seq![SynthCommand::NoteOff { channel, pitch: note.pitch }]
    } else {
        Seq::<SynthCommand>::empty()
    };
    on + off
}

/// The commands of the first `upto` notes, note by note.
pub open spec fn notes_commands(
    notes: Seq<Note>,
    channel: u8,
    last: Option<u32>,
    current: u32,
    upto: int,
) -> Seq<SynthCommand>
    decreases upto,
{
    if upto <= 0 {
        Seq::<SynthCommand>::empty()
    } else {
        notes_commands(notes, channel, last, current, upto - 1) + note_commands(
            notes[upto - 1],
            channel,
            last,
            current,
        )
    }
}

/// The commands of the first `upto` tracks, track by track; a track that
/// is not played gives none.
pub open spec fn tracks_commands(
    tracks: Seq<TrackView>,
    some_solo: bool,
    last: Option<u32>,
    current: u32,
    upto: int,
) -> Seq<SynthCommand>
    decreases upto,
{
    if upto <= 0 {
        Seq::<SynthCommand>::empty()
    } else {
        let track = tracks[upto - 1];
        let before = tracks_commands(tracks, some_solo, last, current, upto - 1);
        if plays(track, some_solo) {
            before + notes_commands(track.notes, track.channel, last, current, track.notes.len() as int)
        } else {
            before
        }
    }
}

/// The commands of one update over all tracks, under solo and mute
/// arbitration.
pub open spec fn dispatched(tracks: Seq<TrackView>, last: Option<u32>, current: u32) -> Seq<
    SynthCommand,
> {
    tracks_commands(tracks, any_solo(tracks), last, current, tracks.len() as int)
}

/// Some note sounds at `tick`.
pub open spec fn sounding(notes: Seq<Note>, tick: u32) -> bool {
    exists|i: int| 0 <= i < notes.len() && (#[trigger] notes[i]).spec_is_active_at(tick)
}

/// The indices of the tracks that are played and in which a note sounds
/// at `tick`.
pub open spec fn active_tracks(tracks: Seq<TrackView>, tick: u32) -> Set<usize> {
    Set::new(
        |i: usize|
            i < tracks.len() && plays(tracks[i as int], any_solo(tracks)) && sounding(
                tracks[i as int].notes,
                tick,
            ),
    )
}

/// The position that the `k`th of a run of updates starts from: `last`
/// for the first, the position of the update before for the others.
pub open spec fn step_last(last: Option<u32>, ticks: Seq<u32>, k: int) -> Option<u32> {
    if k <= 0 {
        last
    } else {
        Some(ticks[k - 1])
    }
}

/// In how many of the first `upto` updates of a run an event at `tick`
/// is due; `ticks` are the positions of the updates.
pub open spec fn times_due(
    tick: u32,
    positive: bool,
    last: Option<u32>,
    ticks: Seq<u32>,
    upto: int,
) -> nat
    decreases upto,
{
    if upto <= 0 {
        0
    } else {
        let here: nat = if due(tick, positive, step_last(last, ticks, upto - 1), ticks[upto - 1]) {
            1
        } else {
            0
        };
        times_due(tick, positive, last, ticks, upto - 1) + here
    }
}

/// The positions of a run of updates never go back, and begin at or
/// behind the position that the run starts from.
pub open spec fn rising(last: Option<u32>, ticks: Seq<u32>) -> bool {
    &&& forall|i: int, j: int| 0 <= i <= j < ticks.len() ==> ticks[i] <= ticks[j]
    &&& last matches Some(l) ==> forall|i: int| 0 <= i < ticks.len() ==> l <= #[trigger] ticks[i]
}

/// Over a run of updates whose positions never go back, an event is due
/// exactly once if its tick lies between the start of the run and its
/// last position, and never otherwise. So a note that a run of updates
/// passes over gets exactly one note-on and exactly one note-off.
pub proof fn lemma_dispatched_once(
    tick: u32,
    positive: bool,
    last: Option<u32>,
    ticks: Seq<u32>,
    upto: int,
)
    requires
        rising(last, ticks),
        0 < upto <= ticks.len(),
    ensures
        times_due(tick, positive, last, ticks, upto) == (if due(
            tick,
            positive,
            last,
            ticks[upto - 1],
        ) {
            1nat
        } else {
            0nat
        }),
    decreases upto,
{
    if upto > 1 {
        lemma_dispatched_once(tick, positive, last, ticks, upto - 1);
        assert(ticks[upto - 2] <= ticks[upto - 1]);
    } else {
        assert(times_due(tick, positive, last, ticks, 0) == 0);
    }
}

/// The commands of `track` for the update from `last` to `current`,
/// appended to `commands`; and whether a note of the track sounds at
/// `current`.
fn dispatch_track(track: &Track, last: Option<u32>, current: u32, commands: &mut Vec<SynthCommand>) -> (active:
    bool)
    ensures
        final(commands)@ == old(commands)@ + notes_commands(
            track@.notes,
            track.channel,
            last,
            current,
            track@.notes.len() as int,
        ),
        active == sounding(track@.notes, current),
{
    let notes = track.notes();
    let channel = track.channel;
    let mut active = false;
    let mut i: usize = 0;
    assert(commands@ =~= old(commands)@ + notes_commands(notes@, channel, last, current, 0));
    while i < notes.len()
        invariant
            i <= notes@.len(),
            commands@ == old(commands)@ + notes_commands(notes@, channel, last, current, i as int),
            active == sounding(notes@.subrange(0, i as int), current),
        decreases notes@.len() - i,
    {
        let note = notes[i];
        let ghost before = commands@;
        let on_due = match last {
            None => note.start_tick <= current,
            Some(l) => note.start_tick > l && note.start_tick <= current,
        };
        if on_due {
            commands.push(
                SynthCommand::NoteOn { channel, pitch: note.pitch, velocity: note.velocity },
            );
        }
        let end = note.end_tick();
        let off_due = match last {
            None => end <= current && end > 0,
            Some(l) => end > l && end <= current,
        };
        if off_due {
            commands.push(SynthCommand::NoteOff { channel, pitch: note.pitch });
        }
        proof {
            assert(commands@ =~= before + note_commands(note, channel, last, current));
            assert(commands@ =~= old(commands)@ + notes_commands(
                notes@,
                channel,
                last,
                current,
                i + 1,
            ));
            let front = notes@.subrange(0, i as int);
            let next = notes@.subrange(0, i + 1);
            assert(next[i as int] == note);
            if sounding(front, current) {
                let w = choose|k: int| 0 <= k < front.len() && (#[trigger] front[k]).spec_is_active_at(current);
                assert(next[w].spec_is_active_at(current));
            }
            if sounding(next, current) && !note.spec_is_active_at(current) {
                let w = choose|k: int| 0 <= k < next.len() && (#[trigger] next[k]).spec_is_active_at(current);
                assert(front[w].spec_is_active_at(current));
            }
        }
        if note.is_active_at(current) {
            active = true;
        }
        i += 1;
    }
    assert(notes@.subrange(0, i as int) =~= notes@);
    active
}

/// One update of the sequencer: the commands for the notes that begin or
/// end between `last` and `current`, and the tracks in which a note
/// sounds at `current`. Only tracks that are played take part.
pub fn dispatch(project: &Project, last: Option<u32>, current: u32) -> (update: (
    Vec<SynthCommand>,
    HashSet<usize>,
))
    ensures
        update.0@ == dispatched(project@.tracks, last, current),
        update.1@ == active_tracks(project@.tracks, current),
{
    let some_solo = project.has_solo();
    let ghost views = project@.tracks;
    let mut commands: Vec<SynthCommand> = Vec::new();
    let mut active: HashSet<usize> = HashSet::new();
    let mut i: usize = 0;
    assert(active@ =~= Set::new(
        |k: usize| k < 0 && plays(views[k as int], some_solo) && sounding(views[k as int].notes, current),
    ));
    while i < project.tracks.len()
        invariant
            i <= project.tracks@.len(),
            views == track_views(project.tracks@),
            some_solo == any_solo(views),
            commands@ == tracks_commands(views, some_solo, last, current, i as int),
            active@ == Set::new(
                |k: usize|
                    k < i && plays(views[k as int], some_solo) && sounding(
                        views[k as int].notes,
                        current,
                    ),
            ),
        decreases project.tracks@.len() - i,
    {
        let track = &project.tracks[i];
        assert(views[i as int] == track@);
        let played = if some_solo {
            track.solo && !track.muted
        } else {
            !track.muted
        };
        if played {
            let sounds = dispatch_track(track, last, current, &mut commands);
            if sounds {
                active.insert(i);
            }
        }
        assert(active@ =~= Set::new(
            |k: usize|
                k < i + 1 && plays(views[k as int], some_solo) && sounding(
                    views[k as int].notes,
                    current,
                ),
        ));
        i += 1;
    }
    assert(active@ =~= active_tracks(views, current));
    (commands, active)
}

} // verus!

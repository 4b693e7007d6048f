//! What comes back when a written file is read.
//!
//! The writer turns a project into events and the events into bytes; the
//! reader takes the events that a parser finds in bytes and turns them
//! into a project. This module states the events that stand in a written
//! file, and proves that the reader makes of them the project that was
//! written: for projects in whose tracks no two notes sound together.

use vstd::prelude::*;
use vstd::utf8::encode_utf8;
use super::ids::IdAllocator;
use super::midi_export::{
    MidiEventView, TimedEventView, event_key, event_keys, music_track_events, note_event_pair,
    note_events, saturating_diff, setup_events, tempo_track_events,
};
use super::midi_import::{
    ScanView, after_track, fresh_track, scan_events, scan_message, scan_start,
};
use super::note::Note;
use super::order::{lemma_stable_order_of_sorted, stable_order};
use super::project::ProjectView;
use super::smf::{SmfEventView, SmfFileView, SmfFormat, SmfMessageView, SmfTiming};
use super::track::TrackView;

verus! {

/// The message that stands in a file for an event of the writer.
pub open spec fn read_back(event: MidiEventView) -> SmfMessageView {
    match event {
        MidiEventView::NoteOn { channel, pitch, velocity } => SmfMessageView::NoteOn {
            channel,
            key: pitch,
            velocity,
        },
        MidiEventView::NoteOff { channel, pitch, velocity } => SmfMessageView::NoteOff {
            channel,
            key: pitch,
        },
        MidiEventView::ProgramChange { channel, program } => SmfMessageView::ProgramChange {
            channel,
            program,
        },
        MidiEventView::ControlChange { channel, controller, value } => SmfMessageView::Controller {
            channel,
            controller,
            value,
        },
        MidiEventView::SetTempo { microseconds_per_beat } => SmfMessageView::Tempo {
            micros_per_beat: microseconds_per_beat,
        },
        MidiEventView::TimeSignature { numerator, denominator_power } => SmfMessageView::TimeSignature {
            numerator,
            denominator_power,
        },
        MidiEventView::TrackName { name } => SmfMessageView::TrackName { name: encode_utf8(name) },
        MidiEventView::EndOfTrack => SmfMessageView::Other,
    }
}

/// The `j`th event of a track chunk written from `events` in the order
/// `order`: the time since the event before it, and its message.
pub open spec fn file_event(events: Seq<TimedEventView>, order: Seq<int>, j: int) -> SmfEventView {
    let here = events[order[j]];
    let before = if j == 0 {
        0u32
    } else {
        events[order[j - 1]].tick
    };
    SmfEventView { delta: saturating_diff(here.tick, before), message: read_back(here.event) }
}

/// The events that stand in a track chunk written from `events`.
pub open spec fn track_in_file(events: Seq<TimedEventView>) -> Seq<SmfEventView> {
    Seq::new(events.len(), |j: int| file_event(events, stable_order(event_keys(events)), j))
}

/// The events that stand in the file written from a project: format 1 at
/// 480 ticks to the quarter note, the tempo track, then the music tracks.
pub open spec fn file_of(p: ProjectView) -> SmfFileView {
    SmfFileView {
        format: SmfFormat::Parallel,
        timing: SmfTiming::Metrical(480),
        tracks: seq![track_in_file(tempo_track_events(p))] + p.tracks.map_values(
            |t: TrackView| track_in_file(music_track_events(t)),
        ),
    }
}

/// The scan after the first `upto` of `events` are taken in, each at its
/// own tick.
pub open spec fn scan_seq(s: ScanView, events: Seq<TimedEventView>, label: Seq<char>, upto: int) -> ScanView
    decreases upto,
{
    if upto <= 0 {
        s
    } else {
        let e = events[upto - 1];
        scan_message(
            ScanView { tick: e.tick, ..scan_seq(s, events, label, upto - 1) },
            read_back(e.event),
            label,
        )
    }
}

/// The events are in order of key.
pub open spec fn in_key_order(events: Seq<TimedEventView>) -> bool {
    forall|i: int, j: int|
        0 <= i <= j < events.len() ==> event_key(#[trigger] events[i]) <= event_key(
            #[trigger] events[j],
        )
}

/// Each event has a key no larger than that of the event behind it.
pub open spec fn in_key_steps(events: Seq<TimedEventView>) -> bool {
    forall|i: int|
        0 <= i && i + 1 < events.len() ==> event_key(#[trigger] events[i]) <= event_key(
            events[i + 1],
        )
}

/// Taking a message in leaves the tick as it is.
pub proof fn lemma_message_keeps_tick(at: ScanView, message: SmfMessageView, label: Seq<char>)
    ensures
        scan_message(at, message, label).tick == at.tick,
{
}

/// Events that rise step by step are in order of key.
pub proof fn lemma_key_steps(events: Seq<TimedEventView>)
    requires
        in_key_steps(events),
    ensures
        in_key_order(events),
{
    assert forall|i: int, j: int| 0 <= i <= j < events.len() implies event_key(
        #[trigger] events[i],
    ) <= event_key(#[trigger] events[j]) by {
        lemma_key_reach(events, i, j);
    }
}

proof fn lemma_key_reach(events: Seq<TimedEventView>, i: int, j: int)
    requires
        in_key_steps(events),
        0 <= i <= j < events.len(),
    ensures
        event_key(events[i]) <= event_key(events[j]),
    decreases j - i,
{
    if i < j {
        lemma_key_reach(events, i, j - 1);
        let k = j - 1;
        assert(event_key(events[k]) <= event_key(events[k + 1]));
    }
}

/// Events in order of key are written in the order in which they stand.
pub proof fn lemma_written_in_order(events: Seq<TimedEventView>)
    requires
        in_key_order(events),
    ensures
        stable_order(event_keys(events)) == Seq::new(events.len(), |i: int| i),
{
    let keys = event_keys(events);
    assert forall|i: int, j: int| 0 <= i <= j < keys.len() implies keys[i] <= keys[j] by {
        assert(keys[i] == event_key(events[i]));
        assert(keys[j] == event_key(events[j]));
    }
    lemma_stable_order_of_sorted(keys);
}

/// Reading the events of a written track chunk, delta by delta, is taking
/// the events of the writer in, each at its own tick.
pub proof fn lemma_scan_of_file(s: ScanView, events: Seq<TimedEventView>, label: Seq<char>, upto: int)
    requires
        in_key_order(events),
        s.tick == 0,
        0 <= upto <= events.len(),
    ensures
        scan_events(s, track_in_file(events), 480, label, upto) == scan_seq(s, events, label, upto),
        scan_seq(s, events, label, upto).tick == (if upto == 0 {
            0u32
        } else {
            events[upto - 1].tick
        }),
    decreases upto,
{
    if upto > 0 {
        lemma_scan_of_file(s, events, label, upto - 1);
        lemma_written_in_order(events);
        let order = stable_order(event_keys(events));
        let file = track_in_file(events);
        let before = scan_seq(s, events, label, upto - 1);
        let e = events[upto - 1];
        assert(order[upto - 1] == upto - 1);
        assert(file[upto - 1] == file_event(events, order, upto - 1));
        if upto > 1 {
            assert(order[upto - 2] == upto - 2);
            assert(event_key(events[upto - 2]) <= event_key(events[upto - 1]));
            assert(events[upto - 2].tick <= e.tick) by {
                let a = events[upto - 2];
                assert(a.tick * 256 + a.priority <= e.tick * 256 + e.priority);
            }
        }
        lemma_message_keeps_tick(ScanView { tick: e.tick, ..before }, read_back(e.event), label);
    }
}

/// Taking in two runs of events one after the other is taking in the
/// first, then the second.
pub proof fn lemma_scan_seq_concat(
    s: ScanView,
    a: Seq<TimedEventView>,
    b: Seq<TimedEventView>,
    label: Seq<char>,
    upto: int,
)
    requires
        0 <= upto <= b.len(),
    ensures
        scan_seq(s, a + b, label, a.len() + upto) == scan_seq(
            scan_seq(s, a, label, a.len() as int),
            b,
            label,
            upto,
        ),
    decreases upto,
{
    if upto > 0 {
        lemma_scan_seq_concat(s, a, b, label, upto - 1);
        assert((a + b)[a.len() + upto - 1] == b[upto - 1]);
    } else {
        lemma_scan_seq_front(s, a, b, label, a.len() as int);
    }
}

/// The first events of a run are taken in alike whatever follows them.
pub proof fn lemma_scan_seq_front(
    s: ScanView,
    a: Seq<TimedEventView>,
    b: Seq<TimedEventView>,
    label: Seq<char>,
    upto: int,
)
    requires
        0 <= upto <= a.len(),
    ensures
        scan_seq(s, a + b, label, upto) == scan_seq(s, a, label, upto),
    decreases upto,
{
    if upto > 0 {
        lemma_scan_seq_front(s, a, b, label, upto - 1);
        assert((a + b)[upto - 1] == a[upto - 1]);
    }
}

/// A note as a file holds it: pitch and velocity are data bytes, the
/// velocity is not 0, and the end lies within the ticks.
pub open spec fn plain_note(n: Note) -> bool {
    &&& n.pitch <= 127
    &&& 1 <= n.velocity <= 127
    &&& n.duration_ticks >= 1
    &&& n.start_tick + n.duration_ticks <= u32::MAX
}

/// No two notes sound together or touch: each ends before the next begins.
pub open spec fn one_voice(notes: Seq<Note>) -> bool {
    &&& forall|i: int| 0 <= i < notes.len() ==> plain_note(#[trigger] notes[i])
    &&& forall|i: int|
        0 <= i && i + 1 < notes.len() ==> (#[trigger] notes[i]).start_tick + notes[i].duration_ticks
            < notes[i + 1].start_tick
}

/// What is heard of a note: pitch, velocity, start and duration.
pub open spec fn sound_of(n: Note) -> (u8, u8, u32, u32) {
    (n.pitch, n.velocity, n.start_tick, n.duration_ticks)
}

/// Two runs of notes are heard alike, note by note.
pub open spec fn same_sounds(a: Seq<Note>, b: Seq<Note>) -> bool {
    &&& a.len() == b.len()
    &&& forall|i: int| 0 <= i < a.len() ==> sound_of(#[trigger] a[i]) == sound_of(b[i])
}

/// Two tracks agree in what a file holds of a track: name, channel,
/// program, volume, pan, and the notes as they are heard.
pub open spec fn same_track(a: TrackView, b: TrackView) -> bool {
    &&& a.name == b.name
    &&& a.channel == b.channel
    &&& a.program == b.program
    &&& a.volume == b.volume
    &&& a.pan == b.pan
    &&& same_sounds(a.notes, b.notes)
}

/// The scan of a music track once its setup is taken in: one track, named
/// and set up as the track that was written, and no note yet.
pub open spec fn set_up(ids: IdAllocator, t: TrackView) -> ScanView {
    ScanView {
        tracks: seq![
            TrackView {
                program: t.program,
                volume: t.volume,
                pan: t.pan,
                ..fresh_track(ids, t.name, t.channel)
            },
        ],
        open: Seq::empty(),
        tempo: None,
        time_sig: None,
        name: Some(t.name),
        tick: 0,
        ids: after_track(ids),
    }
}

/// Taking in the setup of a written track gives a track with its name,
/// channel, program, volume and pan.
pub proof fn lemma_scan_setup(ids: IdAllocator, t: TrackView, label: Seq<char>)
    ensures
        scan_seq(scan_start(ids), setup_events(t), label, 4) == set_up(ids, t),
{
    let events = setup_events(t);
    let s0 = scan_start(ids);
    vstd::utf8::encode_utf8_valid_utf8(t.name);
    vstd::utf8::encode_utf8_decode_utf8(t.name);
    let s1 = scan_seq(s0, events, label, 1);
    assert(scan_seq(s0, events, label, 0) == s0);
    assert(s1 == ScanView { name: Some(t.name), ..s0 });
    let s2 = scan_seq(s0, events, label, 2);
    let fresh = fresh_track(ids, t.name, t.channel);
    assert(s1.tracks.len() == 0);
    assert(super::midi_import::channel_index(s1.tracks, t.channel, 0) == 0);
    let made = ScanView { tracks: s1.tracks.push(fresh), ids: after_track(ids), ..s1 };
    assert(super::midi_import::with_channel(s1, t.channel, label) == made);
    assert(made.tracks[0] == fresh);
    assert(super::midi_import::channel_index(made.tracks, t.channel, 0) == 0);
    let t2 = TrackView { program: t.program, ..fresh };
    assert(s2 == ScanView { tracks: made.tracks.update(0, t2), ..made });
    assert(s2.tracks =~= seq![t2]);
    let s3 = scan_seq(s0, events, label, 3);
    assert(super::midi_import::channel_index(s2.tracks, t.channel, 0) == 0);
    assert(super::midi_import::with_channel(s2, t.channel, label) == s2);
    let t3 = TrackView { volume: t.volume, ..t2 };
    assert(s3 == ScanView { tracks: s2.tracks.update(0, t3), ..s2 });
    assert(s3.tracks =~= seq![t3]);
    let s4 = scan_seq(s0, events, label, 4);
    assert(super::midi_import::channel_index(s3.tracks, t.channel, 0) == 0);
    assert(super::midi_import::with_channel(s3, t.channel, label) == s3);
    let t4 = TrackView { pan: t.pan, ..t3 };
    assert(s4 == ScanView { tracks: s3.tracks.update(0, t4), ..s3 });
    assert(s4.tracks =~= seq![t4]);
    assert(s4.tracks =~= set_up(ids, t).tracks);
    assert(s4.open =~= set_up(ids, t).open);
}

/// The events of notes are two to the note: its note-on, then its note-off.
pub proof fn lemma_note_events_at(notes: Seq<Note>, channel: u8)
    ensures
        note_events(notes, channel).len() == 2 * notes.len(),
        forall|i: int|
            0 <= i < notes.len() ==> note_events(notes, channel)[2 * i] == note_event_pair(
                #[trigger] notes[i],
                channel,
            )[0] && note_events(notes, channel)[2 * i + 1] == note_event_pair(notes[i], channel)[1],
    decreases notes.len(),
{
    if notes.len() > 0 {
        let front = notes.drop_last();
        lemma_note_events_at(front, channel);
        let all = note_events(notes, channel);
        let pair = note_event_pair(notes.last(), channel);
        assert(all == note_events(front, channel) + pair);
        assert forall|i: int| 0 <= i < notes.len() implies all[2 * i] == note_event_pair(
            #[trigger] notes[i],
            channel,
        )[0] && all[2 * i + 1] == note_event_pair(notes[i], channel)[1] by {
            if i < front.len() {
                assert(front[i] == notes[i]);
                assert(all[2 * i] == note_events(front, channel)[2 * i]);
                assert(all[2 * i + 1] == note_events(front, channel)[2 * i + 1]);
            } else {
                assert(all[2 * i] == pair[0]);
                assert(all[2 * i + 1] == pair[1]);
            }
        }
    }
}

/// Taking in the events of notes of one voice adds the notes to the
/// track of their channel, in order, as they are heard.
pub proof fn lemma_scan_notes(s: ScanView, notes: Seq<Note>, label: Seq<char>)
    requires
        one_voice(notes),
        s.tracks.len() == 1,
        s.tracks[0].notes.len() == 0,
        s.open.len() == 0,
    ensures
        ({
            let r = scan_seq(
                s,
                note_events(notes, s.tracks[0].channel),
                label,
                2 * notes.len() as int,
            );
            &&& r.tracks.len() == 1
            &&& r.tracks[0] == (TrackView { notes: r.tracks[0].notes, ..s.tracks[0] })
            &&& same_sounds(r.tracks[0].notes, notes)
            &&& r.open.len() == 0
            &&& r.name == s.name
            &&& r.tempo == s.tempo
            &&& r.time_sig == s.time_sig
        }),
    decreases notes.len(),
{
    let channel = s.tracks[0].channel;
    if notes.len() == 0 {
        assert(scan_seq(s, note_events(notes, channel), label, 0) == s);
    } else {
        let front = notes.drop_last();
        let last = notes.last();
        assert(one_voice(front)) by {
            assert forall|i: int| 0 <= i < front.len() implies plain_note(#[trigger] front[i]) by {
                assert(front[i] == notes[i]);
            }
            assert forall|i: int| 0 <= i && i + 1 < front.len() implies (#[trigger] front[i]).start_tick
                + front[i].duration_ticks < front[i + 1].start_tick by {
                assert(front[i] == notes[i]);
                assert(front[i + 1] == notes[i + 1]);
            }
        }
        lemma_scan_notes(s, front, label);
        lemma_note_events_at(front, channel);
        let a = note_events(front, channel);
        let pair = note_event_pair(last, channel);
        let m = scan_seq(s, a, label, a.len() as int);
        lemma_scan_seq_concat(s, a, pair, label, 2);
        assert(note_events(notes, channel) == a + pair);
        let r = scan_seq(s, note_events(notes, channel), label, 2 * notes.len() as int);
        assert(r == scan_seq(m, pair, label, 2));
        lemma_scan_pair(m, last, label);
        let prev = m.tracks[0].notes;
        assert(prev.len() > 0 ==> prev.last().start_tick <= last.start_tick) by {
            if prev.len() > 0 {
                let k = front.len() - 1;
                assert(sound_of(prev[k]) == sound_of(front[k]));
                assert(front[k] == notes[k]);
                assert(notes[k].start_tick + notes[k].duration_ticks < notes[k + 1].start_tick);
            }
        }
        let grown = r.tracks[0].notes;
        assert(grown.len() == notes.len());
        assert forall|i: int| 0 <= i < grown.len() implies sound_of(#[trigger] grown[i]) == sound_of(
            notes[i],
        ) by {
            if i < prev.len() {
                assert(grown[i] == prev[i]);
                assert(sound_of(prev[i]) == sound_of(front[i]));
                assert(front[i] == notes[i]);
            }
        }
    }
}

/// Taking in the note-on and the note-off of a plain note, with no note
/// open, adds the note behind the notes of the track of its channel, if
/// none of those starts later.
pub proof fn lemma_scan_pair(m: ScanView, note: Note, label: Seq<char>)
    requires
        plain_note(note),
        m.tracks.len() == 1,
        m.open.len() == 0,
        m.tracks[0].notes.len() > 0 ==> m.tracks[0].notes.last().start_tick <= note.start_tick,
    ensures
        ({
            let r = scan_seq(m, note_event_pair(note, m.tracks[0].channel), label, 2);
            &&& r.tracks.len() == 1
            &&& r.tracks[0] == (TrackView { notes: r.tracks[0].notes, ..m.tracks[0] })
            &&& r.tracks[0].notes.len() == m.tracks[0].notes.len() + 1
            &&& forall|i: int|
                0 <= i < m.tracks[0].notes.len() ==> (#[trigger] r.tracks[0].notes[i])
                    == m.tracks[0].notes[i]
            &&& sound_of(r.tracks[0].notes.last()) == sound_of(note)
            &&& r.open.len() == 0
            &&& r.name == m.name
            &&& r.tempo == m.tempo
            &&& r.time_sig == m.time_sig
        }),
{
    let channel = m.tracks[0].channel;
    let pair = note_event_pair(note, channel);
    let prev = m.tracks[0].notes;
    assert(scan_seq(m, pair, label, 0) == m);
    let at = ScanView { tick: note.start_tick, ..m };
    assert(super::midi_import::channel_index(at.tracks, channel, 0) == 0);
    assert(super::midi_import::with_channel(at, channel, label) == at);
    assert(super::midi_import::open_index(at.open, channel, note.pitch, 0) == 0);
    let entry = super::midi_import::OpenNote {
        channel,
        pitch: note.pitch,
        start_tick: note.start_tick,
        velocity: note.velocity,
    };
    let on = scan_seq(m, pair, label, 1);
    assert(on == ScanView { open: at.open.push(entry), ..at });
    let end = note.spec_end_tick();
    assert(end == note.start_tick + note.duration_ticks);
    let at2 = ScanView { tick: end, ..on };
    assert(super::midi_import::channel_index(at2.tracks, channel, 0) == 0);
    assert(super::midi_import::with_channel(at2, channel, label) == at2);
    assert(at2.open[0] == entry);
    assert(super::midi_import::open_index(at2.open, channel, note.pitch, 0) == 0);
    let taken = ScanView { open: at2.open.remove(0), ..at2 };
    assert(taken.open.len() == 0);
    let placed = Note {
        id: super::ids::NoteId(taken.ids.next_note),
        pitch: note.pitch,
        velocity: note.velocity,
        start_tick: note.start_tick,
        duration_ticks: note.duration_ticks,
    };
    assert(super::track::insertion_index(prev, note.start_tick) == prev.len());
    assert(super::track::ordered_insert(prev, placed) =~= prev.push(placed));
    let r = scan_seq(m, pair, label, 2);
    assert(r == super::midi_import::with_close(at2, channel, note.pitch));
    assert(r == super::midi_import::with_note(
        taken,
        channel,
        note.pitch,
        note.velocity,
        note.start_tick,
        note.duration_ticks,
    ));
    assert(r.tracks[0].notes == prev.push(placed));
}

} // verus!

//! Writing a project and reading it back gives the project again.
//!
//! This holds of the events that stand in the written file, as the module
//! `fidelity` states them, for a project with a tempo of 20 to 300, a
//! denominator that is a power of two up to 32, and tracks in which each
//! note ends before the next begins. Identifiers, mute and solo states,
//! the next channel and the SoundFont path do not come back.

use vstd::prelude::*;
use super::fidelity::{
    file_of, in_key_order, in_key_steps, lemma_key_steps, lemma_note_events_at, lemma_scan_notes,
    lemma_scan_of_file, lemma_scan_seq_concat, lemma_scan_setup, one_voice, plain_note, read_back,
    same_track, scan_seq, set_up, track_in_file,
};
use super::ids::IdAllocator;
use super::midi_export::{
    event_key, lemma_tempo_round_trip, music_track_events, note_event_pair,
    note_events, power_of_denominator, setup_events, tempo_track_events, track_end,
};
use super::midi_import::{
    ScanView, any_note, by_channel, channel_keys, close_left, import_track, import_tracks, importable,
    imported_project, scan_events, scan_start, track_label, track_yield,
};
use super::order::lemma_stable_order_of_sorted;
use super::project::{ProjectView, is_beat_unit};
use super::smf::{SmfFormat, SmfMessageView};
use super::track::{TrackView, lemma_max_end_tick};

verus! {

/// A project of which a written file holds everything that a file can
/// hold: the tempo and the time signature are in range, and in each track
/// each note ends before the next begins.
pub open spec fn comes_back(p: ProjectView) -> bool {
    &&& 20 <= p.tempo <= 300
    &&& is_beat_unit(p.time_sig_denominator)
    &&& p.tracks.len() >= 1
    &&& forall|i: int| 0 <= i < p.tracks.len() ==> one_voice((#[trigger] p.tracks[i]).notes)
}

/// The events of a track of one voice are written in the order in which
/// the writer lists them.
pub proof fn lemma_music_events_in_order(t: TrackView)
    requires
        one_voice(t.notes),
    ensures
        in_key_order(music_track_events(t)),
        music_track_events(t).len() == 5 + 2 * t.notes.len(),
{
    let notes = t.notes;
    let n = notes.len() as int;
    let setup = setup_events(t);
    let nev = note_events(notes, t.channel);
    let raw = music_track_events(t);
    lemma_note_events_at(notes, t.channel);
    lemma_max_end_tick(notes);
    assert(raw.len() == 5 + 2 * n);
    assert forall|i: int| 0 <= i && i + 1 < raw.len() implies event_key(#[trigger] raw[i])
        <= event_key(raw[i + 1]) by {
        if i < 3 {
            assert(raw[i] == setup[i]);
            assert(raw[i + 1] == setup[i + 1]);
        } else if i == 3 {
            assert(raw[i] == setup[3]);
            if n > 0 {
                assert(raw[4] == nev[0]);
                assert(nev[2 * 0int] == note_event_pair(notes[0], t.channel)[0]);
            }
        } else {
            let j = i - 4;
            let q = j / 2;
            assert(0 <= q < n);
            assert(raw[i] == nev[j]);
            assert(plain_note(notes[q]));
            assert(nev[2 * q] == note_event_pair(notes[q], t.channel)[0]);
            assert(nev[2 * q + 1] == note_event_pair(notes[q], t.channel)[1]);
            if j == 2 * q {
                assert(raw[i + 1] == nev[j + 1]);
            } else {
                assert(j == 2 * q + 1);
                if q + 1 < n {
                    assert(raw[i + 1] == nev[2 * (q + 1)]);
                    assert(nev[2 * (q + 1)] == note_event_pair(notes[q + 1], t.channel)[0]);
                    assert(notes[q].start_tick + notes[q].duration_ticks < notes[q + 1].start_tick);
                } else {
                    assert(notes[q].spec_end_tick() <= track_end(t));
                }
            }
        }
    }
    lemma_key_steps(raw);
}

/// The one track of a scan is in order of channel as it stands.
proof fn lemma_by_channel_of_one(tracks: Seq<TrackView>)
    requires
        tracks.len() <= 1,
    ensures
        by_channel(tracks) == tracks,
{
    let keys = channel_keys(tracks);
    lemma_stable_order_of_sorted(keys);
    assert(by_channel(tracks) =~= tracks);
}

/// A written track of one voice gives, when it is read, one track that
/// agrees with it in name, channel, program, volume, pan and notes, and
/// neither tempo nor time signature.
pub proof fn lemma_music_track_yield(t: TrackView, index: nat, ids: IdAllocator)
    requires
        one_voice(t.notes),
    ensures
        ({
            let y = track_yield(track_in_file(music_track_events(t)), index, 480, false, ids);
            &&& y.tracks.len() == 1
            &&& same_track(y.tracks[0], t)
            &&& y.tempo.is_none()
            &&& y.time_sig.is_none()
        }),
{
    reveal(track_yield);
    let label = track_label(index);
    let events = music_track_events(t);
    let file = track_in_file(events);
    let setup = setup_events(t);
    let nev = note_events(t.notes, t.channel);
    let n = t.notes.len() as int;
    let s0 = scan_start(ids);
    lemma_music_events_in_order(t);
    lemma_note_events_at(t.notes, t.channel);
    lemma_scan_of_file(s0, events, label, events.len() as int);
    let scanned = scan_events(s0, file, 480, label, file.len() as int);
    assert(scanned == scan_seq(s0, events, label, events.len() as int));

    let body = setup + nev;
    let last = events.last();
    assert(events =~= body + seq![last]);
    lemma_scan_seq_concat(s0, body, seq![last], label, 1);
    lemma_scan_seq_concat(s0, setup, nev, label, 2 * n);
    lemma_scan_setup(ids, t, label);
    let ready = set_up(ids, t);
    assert(scan_seq(s0, setup, label, 4) == ready);
    lemma_scan_notes(ready, t.notes, label);
    let played = scan_seq(ready, nev, label, 2 * n);
    assert(scan_seq(s0, body, label, body.len() as int) == played);
    assert(scan_seq(played, seq![last], label, 0) == played);
    assert(read_back(last.event) == SmfMessageView::Other);
    assert(scanned == (ScanView { tick: last.tick, ..played }));

    assert(close_left(scanned, scanned.open, 0) == scanned);
    lemma_by_channel_of_one(scanned.tracks);
}

/// The written tempo track gives, when it is read, the tempo and the
/// time signature of the project, and no track.
pub proof fn lemma_tempo_track_yield(p: ProjectView, ids: IdAllocator)
    requires
        20 <= p.tempo <= 300,
        is_beat_unit(p.time_sig_denominator),
    ensures
        ({
            let y = track_yield(track_in_file(tempo_track_events(p)), 0, 480, true, ids);
            &&& y.tracks.len() == 0
            &&& y.tempo == Some(p.tempo)
            &&& y.time_sig == Some((p.time_sig_numerator, p.time_sig_denominator))
        }),
{
    reveal(track_yield);
    let label = track_label(0);
    let events = tempo_track_events(p);
    let file = track_in_file(events);
    let s0 = scan_start(ids);
    assert(in_key_steps(events));
    lemma_key_steps(events);
    lemma_scan_of_file(s0, events, label, 4);
    lemma_tempo_round_trip(p.tempo);
    vstd::utf8::encode_utf8_valid_utf8(p.name);
    let scanned = scan_events(s0, file, 480, label, file.len() as int);
    assert(scanned == scan_seq(s0, events, label, 4));
    let s1 = scan_seq(s0, events, label, 1);
    let s2 = scan_seq(s0, events, label, 2);
    let s3 = scan_seq(s0, events, label, 3);
    assert(scan_seq(s0, events, label, 0) == s0);
    assert(s1.tracks == s0.tracks && s1.open == s0.open && s1.tempo.is_none() && s1.time_sig.is_none());
    assert(power_of_denominator(p.time_sig_denominator) < 8);
    assert(s2.time_sig == Some((p.time_sig_numerator, p.time_sig_denominator)));
    assert(s2.tracks == s0.tracks && s2.open == s0.open && s2.tempo.is_none());
    assert(s3.tempo == Some(p.tempo));
    assert(s3.tracks == s0.tracks && s3.open == s0.open && s3.time_sig == s2.time_sig);
    assert(scanned.tracks == s0.tracks && scanned.open == s0.open);
    assert(scanned.tempo == s3.tempo && scanned.time_sig == s3.time_sig);
    assert(close_left(scanned, scanned.open, 0) == scanned);
    lemma_by_channel_of_one(scanned.tracks);
    assert(!any_note(scanned.tracks));
}

/// The first tracks of a written file give, when they are read, the
/// tempo and time signature of the project and a track for each of its
/// tracks read so far.
#[verifier::rlimit(40)]
pub proof fn lemma_import_of_written(p: ProjectView, ids: IdAllocator, upto: int)
    requires
        comes_back(p),
        1 <= upto <= p.tracks.len() + 1,
    ensures
        ({
            let acc = import_tracks(file_of(p).tracks, 480, SmfFormat::Parallel, ids, upto);
            &&& acc.tracks.len() == upto - 1
            &&& forall|i: int| 0 <= i < upto - 1 ==> same_track(#[trigger] acc.tracks[i], p.tracks[i])
            &&& acc.tempo == p.tempo
            &&& acc.time_sig == (p.time_sig_numerator, p.time_sig_denominator)
        }),
    decreases upto,
{
    let tracks = file_of(p).tracks;
    let music = p.tracks.map_values(|t: TrackView| track_in_file(music_track_events(t)));
    assert(tracks == seq![track_in_file(tempo_track_events(p))] + music);
    if upto == 1 {
        let start = import_tracks(tracks, 480, SmfFormat::Parallel, ids, 0);
        assert(tracks[0] == track_in_file(tempo_track_events(p)));
        lemma_tempo_track_yield(p, start.ids);
        let acc = import_tracks(tracks, 480, SmfFormat::Parallel, ids, 1);
        assert(acc == import_track(start, tracks[0], 0, 480, SmfFormat::Parallel));
        assert(acc.tracks =~= Seq::<TrackView>::empty());
    } else {
        lemma_import_of_written(p, ids, upto - 1);
        let before = import_tracks(tracks, 480, SmfFormat::Parallel, ids, upto - 1);
        let t = p.tracks[upto - 2];
        assert(tracks[upto - 1] == music[upto - 2]);
        assert(music[upto - 2] == track_in_file(music_track_events(t)));
        lemma_music_track_yield(t, (upto - 1) as nat, before.ids);
        let y = track_yield(tracks[upto - 1], (upto - 1) as nat, 480, false, before.ids);
        let acc = import_tracks(tracks, 480, SmfFormat::Parallel, ids, upto);
        assert(acc == import_track(before, tracks[upto - 1], (upto - 1) as nat, 480, SmfFormat::Parallel));
        assert(acc.tracks == before.tracks + y.tracks);
        assert forall|i: int| 0 <= i < upto - 1 implies same_track(#[trigger] acc.tracks[i], p.tracks[i]) by {
            if i < upto - 2 {
                assert(acc.tracks[i] == before.tracks[i]);
            } else {
                assert(acc.tracks[i] == y.tracks[0]);
            }
        }
    }
}

/// The file written from a project gives, when it is read, a project
/// with the same tempo and time signature and, track by track, the same
/// names, channels, programs, volumes, pans and notes.
pub proof fn lemma_round_trip(p: ProjectView, name: Seq<char>, ids: IdAllocator)
    requires
        comes_back(p),
    ensures
        importable(file_of(p)) == Some(480u32),
        ({
            let q = imported_project(file_of(p), 480, name, ids).0;
            &&& q.name == name
            &&& q.tempo == p.tempo
            &&& q.time_sig_numerator == p.time_sig_numerator
            &&& q.time_sig_denominator == p.time_sig_denominator
            &&& q.tracks.len() == p.tracks.len()
            &&& forall|i: int| 0 <= i < p.tracks.len() ==> same_track(#[trigger] q.tracks[i], p.tracks[i])
        }),
{
    let file = file_of(p);
    assert(file.tracks.len() == p.tracks.len() + 1);
    lemma_import_of_written(p, ids, (p.tracks.len() + 1) as int);
}

} // verus!

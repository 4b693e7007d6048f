//! Reading a Standard MIDI File into a project.
//!
//! Formats 0 and 1 with metrical timing are read. Every channel that a
//! track of the file speaks to becomes a track of the project; notes come
//! from pairs of note-on and note-off; program, volume (controller 7) and
//! pan (controller 10) set the track's mixer; tempo and time signature
//! set the project's. Everything else is passed over.

use vstd::prelude::*;
use vstd::string::StringExecFns;
use vstd::utf8::{decode_utf8, valid_utf8};
use super::ids::{IdAllocator, NoteId, TrackId, next_counter};
use super::midi_export::{MICROS_PER_MINUTE, saturating_diff};
use super::note::{Note, MAX_DATA, min_u8, saturating_sum};
use super::order::{as_ints, sort_order, stable_order};
use super::project::{Project, ProjectView, track_views};
use super::smf::{
    SmfEvent, SmfEventView, SmfFile, SmfFileView, SmfFormat, SmfMessage, SmfMessageView, SmfTiming,
    parse_smf, parsed_smf, smf_event_views, smf_track_views,
};
use super::track::{Track, TrackView, ordered_insert, CENTER_PAN, DEFAULT_VOLUME};
use super::TICKS_PER_BEAT;
use crate::text::{decimal_text, push_decimal};

verus! {

/// Why a file could not be imported.
#[derive(Debug)]
pub enum MidiImportError {
    /// The file could not be read.
    IoError(String),
    /// The bytes are no Standard MIDI File.
    ParseError(String),
    /// The file is of a kind that is not read: format 2, or SMPTE timing.
    UnsupportedFormat(String),
}

/// A note that has begun and not yet ended.
#[derive(Debug, Clone, Copy, PartialEq, Eq, Structural)]
pub struct OpenNote {
    pub channel: u8,
    pub pitch: u8,
    pub start_tick: u32,
    pub velocity: u8,
}

/// What has been gathered from the events of one track of a file.
#[derive(Debug)]
pub struct TrackScan {
    /// One track for every channel seen, in order of first appearance.
    pub tracks: Vec<Track>,
    /// The notes that are sounding, in the order in which they began.
    pub open: Vec<OpenNote>,
    /// The last tempo seen, in beats per minute.
    pub tempo: Option<u32>,
    /// The last time signature seen: numerator and denominator.
    pub time_sig: Option<(u8, u8)>,
    /// The last track name seen.
    pub name: Option<String>,
    /// The tick of the last event, in ticks of 480 to the quarter note.
    pub tick: u32,
}

/// A scan and the identifier counters, as mathematical values.
pub struct ScanView {
    pub tracks: Seq<TrackView>,
    pub open: Seq<OpenNote>,
    pub tempo: Option<u32>,
    pub time_sig: Option<(u8, u8)>,
    pub name: Option<Seq<char>>,
    pub tick: u32,
    pub ids: IdAllocator,
}

/// What one track of a file gives to the project.
pub struct TrackYield {
    pub tracks: Seq<TrackView>,
    pub tempo: Option<u32>,
    pub time_sig: Option<(u8, u8)>,
    pub ids: IdAllocator,
}

/// What has been gathered from the tracks of a file read so far.
pub struct ImportView {
    pub tracks: Seq<TrackView>,
    pub tempo: u32,
    pub time_sig: (u8, u8),
    pub ids: IdAllocator,
}

/// Delta ticks of a file with `tpb` ticks to the quarter note, in ticks of
/// 480 to the quarter note: `source * 480 / tpb`, of which the low 32 bits
/// are kept.
pub open spec fn scaled_ticks(source: u32, tpb: u32) -> u32
    recommends
        tpb > 0,
{
    if tpb == TICKS_PER_BEAT {
        source
    } else {
        ((source as int * TICKS_PER_BEAT as int / tpb as int) % 0x1_0000_0000) as u32
    }
}

/// Two to the power `power`, for a power below 8.
pub open spec fn beat_unit_of(power: u8) -> u8 {
    if power == 0 {
        1
    } else if power == 1 {
        2
    } else if power == 2 {
        4
    } else if power == 3 {
        8
    } else if power == 4 {
        16
    } else if power == 5 {
        32
    } else if power == 6 {
        64
    } else {
        128
    }
}

/// Index of the first track at or behind `from` that is on `channel`; the
/// number of tracks if there is none.
pub open spec fn channel_index(tracks: Seq<TrackView>, channel: u8, from: int) -> int
    decreases tracks.len() - from,
{
    if 0 <= from < tracks.len() && tracks[from].channel != channel {
        channel_index(tracks, channel, from + 1)
    } else {
        from
    }
}

/// Index of the first open note at or behind `from` with this channel and
/// pitch; the number of open notes if there is none.
pub open spec fn open_index(open: Seq<OpenNote>, channel: u8, pitch: u8, from: int) -> int
    decreases open.len() - from,
{
    if 0 <= from < open.len() && !(open[from].channel == channel && open[from].pitch == pitch) {
        open_index(open, channel, pitch, from + 1)
    } else {
        from
    }
}

/// The identifier counters after a note identifier is drawn.
pub open spec fn after_note(ids: IdAllocator) -> IdAllocator {
    IdAllocator { next_note: next_counter(ids.next_note), ..ids }
}

/// The identifier counters after a track identifier is drawn.
pub open spec fn after_track(ids: IdAllocator) -> IdAllocator {
    IdAllocator { next_track: next_counter(ids.next_track), ..ids }
}

/// An empty track named `name` on `channel` with the next track identifier.
pub open spec fn fresh_track(ids: IdAllocator, name: Seq<char>, channel: u8) -> TrackView {
    TrackView {
        id: TrackId(ids.next_track),
        name,
        channel,
        program: 0,
        volume: DEFAULT_VOLUME,
        pan: CENTER_PAN,
        muted: false,
        solo: false,
        notes: Seq::<Note>::empty(),
    }
}

/// The scan with a track for `channel`: a new one, named by the track
/// name seen so far or else by `label`, unless there is one already.
pub open spec fn with_channel(s: ScanView, channel: u8, label: Seq<char>) -> ScanView {
    if channel_index(s.tracks, channel, 0) < s.tracks.len() {
        s
    } else {
        let name = match s.name {
            Some(n) => n,
            None => label,
        };
        ScanView {
            tracks: s.tracks.push(fresh_track(s.ids, name, channel)),
            ids: after_track(s.ids),
            ..s
        }
    }
}

/// The scan with a note added to the track of `channel`, if there is one.
pub open spec fn with_note(
    s: ScanView,
    channel: u8,
    pitch: u8,
    velocity: u8,
    start_tick: u32,
    duration_ticks: u32,
) -> ScanView {
    let i = channel_index(s.tracks, channel, 0);
    if i < s.tracks.len() {
        let note = Note {
            id: NoteId(s.ids.next_note),
            pitch: min_u8(pitch, MAX_DATA),
            velocity: min_u8(velocity, MAX_DATA),
            start_tick,
            duration_ticks: if duration_ticks == 0 {
                1u32
            } else {
                duration_ticks
            },
        };
        ScanView {
            tracks: s.tracks.update(
                i,
                TrackView { notes: ordered_insert(s.tracks[i].notes, note), ..s.tracks[i] },
            ),
            ids: after_note(s.ids),
            ..s
        }
    } else {
        s
    }
}

/// The scan after a note of `channel` and `pitch` begins at the current
/// tick: it takes the place of an open note of the same channel and pitch,
/// or else joins the open notes at the end.
pub open spec fn with_open(s: ScanView, channel: u8, pitch: u8, velocity: u8) -> ScanView {
    let i = open_index(s.open, channel, pitch, 0);
    let entry = OpenNote { channel, pitch, start_tick: s.tick, velocity };
    if i < s.open.len() {
        ScanView { open: s.open.update(i, entry), ..s }
    } else {
        ScanView { open: s.open.push(entry), ..s }
    }
}

/// The scan after the note of `channel` and `pitch` ends at the current
/// tick: the open note becomes a note of the track, at least 1 tick long.
/// Nothing changes if no such note is open.
pub open spec fn with_close(s: ScanView, channel: u8, pitch: u8) -> ScanView {
    let i = open_index(s.open, channel, pitch, 0);
    if i < s.open.len() {
        let begun = s.open[i];
        let length = saturating_diff(s.tick, begun.start_tick);
        with_note(
            ScanView { open: s.open.remove(i), ..s },
            channel,
            pitch,
            begun.velocity,
            begun.start_tick,
            if length < 1 {
                1u32
            } else {
                length
            },
        )
    } else {
        s
    }
}

/// The scan with the program of the track of `channel` set.
pub open spec fn with_program(s: ScanView, channel: u8, program: u8) -> ScanView {
    let i = channel_index(s.tracks, channel, 0);
    if i < s.tracks.len() {
        ScanView { tracks: s.tracks.update(i, TrackView { program, ..s.tracks[i] }), ..s }
    } else {
        s
    }
}

/// The scan with a controller of the track of `channel` set: 7 is the
/// volume, 10 the pan, any other is passed over.
pub open spec fn with_controller(s: ScanView, channel: u8, controller: u8, value: u8) -> ScanView {
    let i = channel_index(s.tracks, channel, 0);
    if i < s.tracks.len() && controller == 7 {
        ScanView { tracks: s.tracks.update(i, TrackView { volume: value, ..s.tracks[i] }), ..s }
    } else if i < s.tracks.len() && controller == 10 {
        ScanView { tracks: s.tracks.update(i, TrackView { pan: value, ..s.tracks[i] }), ..s }
    } else {
        s
    }
}

/// The scan after an event that is for no channel: a track name that is
/// UTF-8, a tempo above 0 and a time signature with a denominator up to
/// 128 are kept, anything else is passed over.
pub open spec fn with_meta(s: ScanView, message: SmfMessageView) -> ScanView {
    match message {
        SmfMessageView::TrackName { name } => if valid_utf8(name) {
            ScanView { name: Some(decode_utf8(name)), ..s }
        } else {
            s
        },
        SmfMessageView::Tempo { micros_per_beat } => if micros_per_beat > 0 {
            ScanView { tempo: Some((MICROS_PER_MINUTE / micros_per_beat) as u32), ..s }
        } else {
            s
        },
        SmfMessageView::TimeSignature { numerator, denominator_power } => if denominator_power < 8 {
            ScanView { time_sig: Some((numerator, beat_unit_of(denominator_power))), ..s }
        } else {
            s
        },
        _ => s,
    }
}

/// The scan after one event of a file with `tpb` ticks to the quarter
/// note: the tick moves on by the delta time, then the message is taken in.
pub open spec fn scan_event(s: ScanView, e: SmfEventView, tpb: u32, label: Seq<char>) -> ScanView {
    scan_message(
        ScanView { tick: saturating_sum(s.tick, scaled_ticks(e.delta, tpb)), ..s },
        e.message,
        label,
    )
}

/// The scan after a message is taken in at the current tick.
pub open spec fn scan_message(at: ScanView, message: SmfMessageView, label: Seq<char>) -> ScanView {
    match message {
        SmfMessageView::NoteOn { channel, key, velocity } => if velocity > 0 {
            with_open(with_channel(at, channel, label), channel, key, velocity)
        } else {
            with_close(with_channel(at, channel, label), channel, key)
        },
        SmfMessageView::NoteOff { channel, key } => with_close(
            with_channel(at, channel, label),
            channel,
            key,
        ),
        SmfMessageView::ProgramChange { channel, program } => with_program(
            with_channel(at, channel, label),
            channel,
            program,
        ),
        SmfMessageView::Controller { channel, controller, value } => with_controller(
            with_channel(at, channel, label),
            channel,
            controller,
            value,
        ),
        SmfMessageView::OtherChannel { channel } => with_channel(at, channel, label),
        _ => with_meta(at, message),
    }
}

/// The scan after the first `upto` events.
pub open spec fn scan_events(
    s: ScanView,
    events: Seq<SmfEventView>,
    tpb: u32,
    label: Seq<char>,
    upto: int,
) -> ScanView
    decreases upto,
{
    if upto <= 0 {
        s
    } else {
        scan_event(scan_events(s, events, tpb, label, upto - 1), events[upto - 1], tpb, label)
    }
}

/// The scan after the first `upto` of the notes `left` open at the end of
/// a track are given a length of one beat.
pub open spec fn close_left(s: ScanView, left: Seq<OpenNote>, upto: int) -> ScanView
    decreases upto,
{
    if upto <= 0 {
        s
    } else {
        let begun = left[upto - 1];
        with_note(
            close_left(s, left, upto - 1),
            begun.channel,
            begun.pitch,
            begun.velocity,
            begun.start_tick,
            TICKS_PER_BEAT,
        )
    }
}

/// The channels of `tracks`, as sort keys.
pub open spec fn channel_keys(tracks: Seq<TrackView>) -> Seq<u64> {
    tracks.map_values(|t: TrackView| t.channel as u64)
}

/// `tracks` in order of channel.
pub open spec fn by_channel(tracks: Seq<TrackView>) -> Seq<TrackView> {
    Seq::new(tracks.len(), |k: int| tracks[stable_order(channel_keys(tracks))[k]])
}

/// Some track holds a note.
pub open spec fn any_note(tracks: Seq<TrackView>) -> bool {
    exists|i: int| 0 <= i < tracks.len() && (#[trigger] tracks[i]).notes.len() > 0
}

/// An empty scan at tick 0.
pub open spec fn scan_start(ids: IdAllocator) -> ScanView {
    ScanView {
        tracks: Seq::empty(),
        open: Seq::empty(),
        tempo: None,
        time_sig: None,
        name: None,
        tick: 0,
        ids,
    }
}

/// The default name of the tracks that come from track `index` of a file.
pub open spec fn track_label(index: nat) -> Seq<char> {
    "Track "@ + decimal_text(index + 1)
}

/// What the events of track `index` of a file give: the tracks of its
/// channels in order of channel, and the last tempo and time signature.
/// A tempo track gives no tracks unless it holds a note.
#[verifier::opaque]
pub open spec fn track_yield(
    events: Seq<SmfEventView>,
    index: nat,
    tpb: u32,
    tempo_track: bool,
    ids: IdAllocator,
) -> TrackYield {
    let scanned = scan_events(scan_start(ids), events, tpb, track_label(index), events.len() as int);
    let closed = close_left(scanned, scanned.open, scanned.open.len() as int);
    let sorted = by_channel(closed.tracks);
    TrackYield {
        tracks: if tempo_track && !any_note(sorted) {
            Seq::empty()
        } else {
            sorted
        },
        tempo: closed.tempo,
        time_sig: closed.time_sig,
        ids: closed.ids,
    }
}

/// What has been gathered once one more track of the file is read.
pub open spec fn import_track(
    acc: ImportView,
    events: Seq<SmfEventView>,
    index: nat,
    tpb: u32,
    format: SmfFormat,
) -> ImportView {
    let y = track_yield(events, index, tpb, format == SmfFormat::Parallel && index == 0, acc.ids);
    ImportView {
        tracks: acc.tracks + y.tracks,
        tempo: match y.tempo {
            Some(t) => t,
            None => acc.tempo,
        },
        time_sig: match y.time_sig {
            Some(ts) => ts,
            None => acc.time_sig,
        },
        ids: y.ids,
    }
}

/// What has been gathered from the first `upto` tracks of the file.
pub open spec fn import_tracks(
    tracks: Seq<Seq<SmfEventView>>,
    tpb: u32,
    format: SmfFormat,
    ids: IdAllocator,
    upto: int,
) -> ImportView
    decreases upto,
{
    if upto <= 0 {
        ImportView { tracks: Seq::empty(), tempo: 120, time_sig: (4, 4), ids }
    } else {
        import_track(
            import_tracks(tracks, tpb, format, ids, upto - 1),
            tracks[upto - 1],
            (upto - 1) as nat,
            tpb,
            format,
        )
    }
}

/// The project that a file with `tpb` ticks to the quarter note gives, and
/// the identifier counters behind it. A file that gives no track at all
/// gives a project with one empty track, "Track 1" on channel 0.
pub open spec fn imported_project(file: SmfFileView, tpb: u32, name: Seq<char>, ids: IdAllocator) -> (
    ProjectView,
    IdAllocator,
) {
    let all = import_tracks(file.tracks, tpb, file.format, ids, file.tracks.len() as int);
    let tracks = if all.tracks.len() == 0 {
        seq![fresh_track(all.ids, "Track 1"@, 0)]
    } else {
        all.tracks
    };
    (
        ProjectView {
            name,
            tempo: all.tempo,
            time_sig_numerator: all.time_sig.0,
            time_sig_denominator: all.time_sig.1,
            tracks,
            next_channel: 0,
            soundfont_path: None,
        },
        if all.tracks.len() == 0 {
            after_track(all.ids)
        } else {
            all.ids
        },
    )
}

/// The ticks to the quarter note of a file that can be imported: one with
/// metrical timing of at least one tick, in format 0 or 1.
pub open spec fn importable(file: SmfFileView) -> Option<u32> {
    match file.timing {
        SmfTiming::Metrical(tpb) => if file.format != SmfFormat::Sequential && tpb > 0 {
            Some(tpb as u32)
        } else {
            None
        },
        SmfTiming::Timecode => None,
    }
}

impl TrackScan {
    /// The scan and the identifier counters as mathematical values.
    pub open spec fn view_with(&self, ids: IdAllocator) -> ScanView {
        ScanView {
            tracks: track_views(self.tracks@),
            open: self.open@,
            tempo: self.tempo,
            time_sig: self.time_sig,
            name: match self.name {
                Some(n) => Some(n@),
                None => None,
            },
            tick: self.tick,
            ids,
        }
    }

    /// The notes of every track are in order of start.
    pub open spec fn is_sorted(&self) -> bool {
        forall|i: int| 0 <= i < self.tracks@.len() ==> (#[trigger] self.tracks@[i]).is_sorted()
    }
}

/// What a file written from a project says of name, tempo and time
/// signature comes back when it is read: a name as UTF-8, a tempo of 20
/// to 300 beats per minute as microseconds per beat, and a denominator
/// that is a power of two up to 32 as its exponent.
pub proof fn lemma_meta_round_trip(s: ScanView, name: Seq<char>, tempo: u32, numerator: u8, denominator: u8)
    requires
        20 <= tempo <= 300,
        super::project::is_beat_unit(denominator),
    ensures
        with_meta(s, SmfMessageView::TrackName { name: vstd::utf8::encode_utf8(name) }) == (ScanView {
            name: Some(name),
            ..s
        }),
        with_meta(
            s,
            SmfMessageView::Tempo { micros_per_beat: (MICROS_PER_MINUTE / tempo) as u32 },
        ) == (ScanView { tempo: Some(tempo), ..s }),
        with_meta(
            s,
            SmfMessageView::TimeSignature {
                numerator,
                denominator_power: super::midi_export::power_of_denominator(denominator),
            },
        ) == (ScanView { time_sig: Some((numerator, denominator)), ..s }),
{
    vstd::utf8::encode_utf8_valid_utf8(name);
    vstd::utf8::encode_utf8_decode_utf8(name);
    super::midi_export::lemma_tempo_round_trip(tempo);
}

/// What `std::str::from_utf8` makes of the bytes: the text they encode,
/// or `None` where they are no UTF-8.
#[verifier::external_body]
fn utf8_text(bytes: &[u8]) -> (text: Option<&str>)
    ensures
        text.is_some() == valid_utf8(bytes@),
        text matches Some(t) ==> t@ == decode_utf8(bytes@),
{
    std::str::from_utf8(bytes).ok()
}

/// Delta ticks of a file with `source_tpb` ticks to the quarter note, in
/// ticks of 480 to the quarter note.
pub fn scale_ticks(source_ticks: u32, source_tpb: u32) -> (ticks: u32)
    requires
        source_tpb > 0,
    ensures
        ticks == scaled_ticks(source_ticks, source_tpb),
{
    if source_tpb == TICKS_PER_BEAT {
        source_ticks
    } else {
        assert(source_ticks * 480 <= 0xFFFF_FFFF * 480);
        let wide: u64 = source_ticks as u64 * 480u64 / source_tpb as u64;
        (wide % 0x1_0000_0000) as u32
    }
}

/// Index of the track on `channel`, or the number of tracks.
fn find_channel(tracks: &Vec<Track>, channel: u8) -> (index: usize)
    ensures
        index == channel_index(track_views(tracks@), channel, 0),
        index <= tracks@.len(),
        index < tracks@.len() ==> tracks@[index as int].channel == channel,
{
    let ghost views = track_views(tracks@);
    let mut i: usize = 0;
    while i < tracks.len() && tracks[i].channel != channel
        invariant
            i <= tracks@.len(),
            views == track_views(tracks@),
            channel_index(views, channel, 0) == channel_index(views, channel, i as int),
        decreases tracks@.len() - i,
    {
        assert(views[i as int] == tracks@[i as int]@);
        i += 1;
    }
    proof {
        if i < tracks@.len() {
            assert(views[i as int] == tracks@[i as int]@);
        }
    }
    i
}

/// Index of the open note of `channel` and `pitch`, or the number of open notes.
fn find_open(open: &Vec<OpenNote>, channel: u8, pitch: u8) -> (index: usize)
    ensures
        index == open_index(open@, channel, pitch, 0),
        index <= open@.len(),
{
    let mut i: usize = 0;
    while i < open.len() && !(open[i].channel == channel && open[i].pitch == pitch)
        invariant
            i <= open@.len(),
            open_index(open@, channel, pitch, 0) == open_index(open@, channel, pitch, i as int),
        decreases open@.len() - i,
    {
        i += 1;
    }
    i
}

/// Makes sure that the scan has a track for `channel`.
fn ensure_channel(scan: &mut TrackScan, ids: &mut IdAllocator, channel: u8, label: &str)
    requires
        old(scan).is_sorted(),
    ensures
        final(scan).view_with(*final(ids)) == with_channel(
            old(scan).view_with(*old(ids)),
            channel,
            label@,
        ),
        final(scan).is_sorted(),
        channel_index(track_views(final(scan).tracks@), channel, 0) < final(scan).tracks@.len(),
{
    let index = find_channel(&scan.tracks, channel);
    if index >= scan.tracks.len() {
        let ghost before = track_views(scan.tracks@);
        let mut track = match &scan.name {
            Some(name) => Track::new(ids, name.as_str(), channel),
            None => Track::new(ids, label, channel),
        };
        track.channel = channel;
        scan.tracks.push(track);
        proof {
            assert(track_views(scan.tracks@) =~= before.push(track@));
            lemma_channel_index_found(track_views(scan.tracks@), channel, 0, before.len() as int);
        }
    }
}

/// A track on `channel` at `at` puts `channel_index` at or before `at`.
proof fn lemma_channel_index_found(tracks: Seq<TrackView>, channel: u8, from: int, at: int)
    requires
        0 <= from <= at < tracks.len(),
        tracks[at].channel == channel,
    ensures
        from <= channel_index(tracks, channel, from) <= at,
        tracks[channel_index(tracks, channel, from)].channel == channel,
    decreases at - from,
{
    if from < at && tracks[from].channel != channel {
        lemma_channel_index_found(tracks, channel, from + 1, at);
    }
}

/// Adds a note to the track of `channel`, if the scan has one.
fn add_note_on(
    scan: &mut TrackScan,
    ids: &mut IdAllocator,
    channel: u8,
    pitch: u8,
    velocity: u8,
    start_tick: u32,
    duration_ticks: u32,
)
    requires
        old(scan).is_sorted(),
    ensures
        final(scan).view_with(*final(ids)) == with_note(
            old(scan).view_with(*old(ids)),
            channel,
            pitch,
            velocity,
            start_tick,
            duration_ticks,
        ),
        final(scan).is_sorted(),
        final(scan).open == old(scan).open,
{
    let index = find_channel(&scan.tracks, channel);
    if index < scan.tracks.len() {
        let ghost before = track_views(scan.tracks@);
        let ghost old_tracks = scan.tracks@;
        let note = Note::new(ids, pitch, velocity, start_tick, duration_ticks);
        let mut track = scan.tracks.remove(index);
        let ghost taken = track@;
        assert(taken == before[index as int]);
        track.add_note(note);
        let ghost put = track;
        scan.tracks.insert(index, track);
        proof {
            assert(scan.tracks@ =~= old_tracks.update(index as int, put));
            assert(track_views(scan.tracks@) =~= before.update(
                index as int,
                TrackView { notes: ordered_insert(taken.notes, note), ..taken },
            ));
            assert forall|i: int| 0 <= i < scan.tracks@.len() implies (#[trigger] scan.tracks@[i]).is_sorted() by {
                if i != index {
                    assert(scan.tracks@[i] == old_tracks[i]);
                }
            }
        }
    }
}

/// Begins a note of `channel` and `pitch` at the current tick.
fn open_note(scan: &mut TrackScan, channel: u8, pitch: u8, velocity: u8)
    ensures
        forall|ids: IdAllocator| #[trigger]
            final(scan).view_with(ids) == with_open(old(scan).view_with(ids), channel, pitch, velocity),
        final(scan).tracks == old(scan).tracks,
{
    let index = find_open(&scan.open, channel, pitch);
    let entry = OpenNote { channel, pitch, start_tick: scan.tick, velocity };
    if index < scan.open.len() {
        scan.open[index] = entry;
    } else {
        scan.open.push(entry);
    }
}

/// Sets the program of the track of `channel`, if the scan has one.
fn set_program(scan: &mut TrackScan, channel: u8, program: u8)
    requires
        old(scan).is_sorted(),
    ensures
        forall|ids: IdAllocator| #[trigger]
            final(scan).view_with(ids) == with_program(old(scan).view_with(ids), channel, program),
        final(scan).is_sorted(),
{
    let index = find_channel(&scan.tracks, channel);
    if index < scan.tracks.len() {
        let ghost before = track_views(scan.tracks@);
        let ghost old_tracks = scan.tracks@;
        let mut track = scan.tracks.remove(index);
        track.program = program;
        let ghost put = track;
        scan.tracks.insert(index, track);
        proof {
            assert(scan.tracks@ =~= old_tracks.update(index as int, put));
            assert(track_views(scan.tracks@) =~= before.update(
                index as int,
                TrackView { program, ..before[index as int] },
            ));
            assert forall|i: int| 0 <= i < scan.tracks@.len() implies (#[trigger] scan.tracks@[i]).is_sorted() by {
                if i != index {
                    assert(scan.tracks@[i] == old_tracks[i]);
                }
            }
        }
    }
}

/// Sets volume (controller 7) or pan (controller 10) of the track of
/// `channel`, if the scan has one; passes over any other controller.
fn set_controller(scan: &mut TrackScan, channel: u8, controller: u8, value: u8)
    requires
        old(scan).is_sorted(),
    ensures
        forall|ids: IdAllocator| #[trigger]
            final(scan).view_with(ids) == with_controller(
                old(scan).view_with(ids),
                channel,
                controller,
                value,
            ),
        final(scan).is_sorted(),
{
    let index = find_channel(&scan.tracks, channel);
    if index < scan.tracks.len() && (controller == 7 || controller == 10) {
        let ghost before = track_views(scan.tracks@);
        let ghost old_tracks = scan.tracks@;
        let mut track = scan.tracks.remove(index);
        if controller == 7 {
            track.volume = value;
        } else {
            track.pan = value;
        }
        let ghost put = track;
        scan.tracks.insert(index, track);
        proof {
            assert(scan.tracks@ =~= old_tracks.update(index as int, put));
            assert(track_views(scan.tracks@) =~= before.update(index as int, put@));
            assert forall|i: int| 0 <= i < scan.tracks@.len() implies (#[trigger] scan.tracks@[i]).is_sorted() by {
                if i != index {
                    assert(scan.tracks@[i] == old_tracks[i]);
                }
            }
        }
    }
}

/// Takes in what an event says that is not for a channel.
fn scan_meta(scan: &mut TrackScan, message: &SmfMessage)
    ensures
        forall|ids: IdAllocator| #[trigger]
            final(scan).view_with(ids) == with_meta(old(scan).view_with(ids), message@),
        final(scan).tracks == old(scan).tracks,
{
    match message {
        SmfMessage::TrackName { name } => {
            match utf8_text(name.as_slice()) {
                Some(text) => {
                    scan.name = Some(text.to_owned());
                },
                None => {},
            }
        },
        SmfMessage::Tempo { micros_per_beat } => {
            if *micros_per_beat > 0 {
                scan.tempo = Some(MICROS_PER_MINUTE / *micros_per_beat);
            }
        },
        SmfMessage::TimeSignature { numerator, denominator_power } => {
            let power = *denominator_power;
            if power < 8 {
                let unit: u8 = if power == 0 {
                    1
                } else if power == 1 {
                    2
                } else if power == 2 {
                    4
                } else if power == 3 {
                    8
                } else if power == 4 {
                    16
                } else if power == 5 {
                    32
                } else if power == 6 {
                    64
                } else {
                    128
                };
                scan.time_sig = Some((*numerator, unit));
            }
        },
        _ => {},
    }
}

/// Takes in one event.
fn scan_step(scan: &mut TrackScan, ids: &mut IdAllocator, event: &SmfEvent, tpb: u32, label: &str)
    requires
        tpb > 0,
        old(scan).is_sorted(),
    ensures
        final(scan).view_with(*final(ids)) == scan_event(
            old(scan).view_with(*old(ids)),
            event@,
            tpb,
            label@,
        ),
        final(scan).is_sorted(),
{
    let tick = scan.tick.saturating_add(scale_ticks(event.delta, tpb));
    match &event.message {
        SmfMessage::NoteOn { channel, key, velocity } => {
            scan.tick = tick;
            ensure_channel(scan, ids, *channel, label);
            if *velocity > 0 {
                open_note(scan, *channel, *key, *velocity);
            } else {
                close_note(scan, ids, *channel, *key);
            }
        },
        SmfMessage::NoteOff { channel, key } => {
            scan.tick = tick;
            ensure_channel(scan, ids, *channel, label);
            close_note(scan, ids, *channel, *key);
        },
        SmfMessage::ProgramChange { channel, program } => {
            scan.tick = tick;
            ensure_channel(scan, ids, *channel, label);
            set_program(scan, *channel, *program);
        },
        SmfMessage::Controller { channel, controller, value } => {
            scan.tick = tick;
            ensure_channel(scan, ids, *channel, label);
            set_controller(scan, *channel, *controller, *value);
        },
        SmfMessage::OtherChannel { channel } => {
            scan.tick = tick;
            ensure_channel(scan, ids, *channel, label);
        },
        _ => {
            scan.tick = tick;
            scan_meta(scan, &event.message);
        },
    }
}

/// Ends the open note of `channel` and `pitch`, if there is one, at the
/// current tick.
fn close_note(scan: &mut TrackScan, ids: &mut IdAllocator, channel: u8, pitch: u8)
    requires
        old(scan).is_sorted(),
    ensures
        final(scan).view_with(*final(ids)) == with_close(
            old(scan).view_with(*old(ids)),
            channel,
            pitch,
        ),
        final(scan).is_sorted(),
{
    let index = find_open(&scan.open, channel, pitch);
    if index < scan.open.len() {
        let begun = scan.open.remove(index);
        let length = scan.tick.saturating_sub(begun.start_tick);
        let duration: u32 = if length < 1 {
            1
        } else {
            length
        };
        add_note_on(scan, ids, channel, pitch, begun.velocity, begun.start_tick, duration);
    }
}

/// The notes of every track are in order of start.
pub open spec fn all_in_order(tracks: Seq<Track>) -> bool {
    forall|i: int| 0 <= i < tracks.len() ==> (#[trigger] tracks[i]).is_sorted()
}

/// The tracks of `tracks` in order of channel.
fn sorted_by_channel(tracks: &Vec<Track>) -> (sorted: Vec<Track>)
    ensures
        track_views(sorted@) == by_channel(track_views(tracks@)),
        all_in_order(tracks@) ==> all_in_order(sorted@),
{
    let ghost views = track_views(tracks@);
    let mut keys: Vec<u64> = Vec::with_capacity(tracks.len());
    let mut i: usize = 0;
    while i < tracks.len()
        invariant
            i <= tracks@.len(),
            views == track_views(tracks@),
            keys@ == channel_keys(views.subrange(0, i as int)),
        decreases tracks@.len() - i,
    {
        keys.push(tracks[i].channel as u64);
        assert(views[i as int] == tracks@[i as int]@);
        assert(keys@ =~= channel_keys(views.subrange(0, i + 1)));
        i += 1;
    }
    assert(views.subrange(0, i as int) =~= views);
    let order = sort_order(&keys);
    let ghost ranks = stable_order(channel_keys(views));
    let mut sorted: Vec<Track> = Vec::with_capacity(tracks.len());
    let mut k: usize = 0;
    while k < order.len()
        invariant
            k <= order@.len(),
            order@.len() == tracks@.len(),
            views == track_views(tracks@),
            ranks == as_ints(order@),
            ranks == stable_order(channel_keys(views)),
            forall|j: int| 0 <= j < order@.len() ==> (#[trigger] order@[j]) < tracks@.len(),
            sorted@.len() == k,
            all_in_order(tracks@) ==> all_in_order(sorted@),
            track_views(sorted@) == by_channel(views).subrange(0, k as int),
        decreases order@.len() - k,
    {
        let index = order[k];
        let ghost before = track_views(sorted@);
        let copy = tracks[index].clone();
        let ghost so_far = sorted@;
        sorted.push(copy);
        proof {
            if all_in_order(tracks@) {
                assert(tracks@[index as int].is_sorted());
                assert forall|j: int| 0 <= j < sorted@.len() implies (#[trigger] sorted@[j]).is_sorted() by {
                    if j < so_far.len() {
                        assert(sorted@[j] == so_far[j]);
                    }
                }
            }
            assert(ranks[k as int] == index as int);
            assert(views[index as int] == tracks@[index as int]@);
            assert(track_views(sorted@) =~= before.push(copy@));
            assert(track_views(sorted@) =~= by_channel(views).subrange(0, k + 1));
        }
        k += 1;
    }
    assert(by_channel(views).subrange(0, k as int) =~= by_channel(views));
    sorted
}

/// Whether some track holds a note.
fn holds_note(tracks: &Vec<Track>) -> (some: bool)
    ensures
        some == any_note(track_views(tracks@)),
{
    let ghost views = track_views(tracks@);
    let mut i: usize = 0;
    while i < tracks.len()
        invariant
            i <= tracks@.len(),
            views == track_views(tracks@),
            forall|k: int| 0 <= k < i ==> (#[trigger] views[k]).notes.len() == 0,
        decreases tracks@.len() - i,
    {
        assert(views[i as int] == tracks@[i as int]@);
        if tracks[i].note_count() > 0 {
            return true;
        }
        i += 1;
    }
    false
}

/// The default name of the tracks that come from track `index` of a file.
fn label_of(index: usize) -> (label: String)
    requires
        index < usize::MAX,
    ensures
        label@ == track_label(index as nat),
{
    let mut label = String::from_str("Track ");
    push_decimal((index + 1) as u64, &mut label);
    label
}

/// What the events of track `index` of a file give to the project.
fn scan_track(
    events: &Vec<SmfEvent>,
    index: usize,
    tpb: u32,
    tempo_track: bool,
    ids: &mut IdAllocator,
) -> (found: (Vec<Track>, Option<u32>, Option<(u8, u8)>))
    requires
        tpb > 0,
        index < usize::MAX,
    ensures
        ({
            let y = track_yield(smf_event_views(events@), index as nat, tpb, tempo_track, *old(ids));
            &&& track_views(found.0@) == y.tracks
            &&& found.1 == y.tempo
            &&& found.2 == y.time_sig
            &&& *final(ids) == y.ids
        }),
        all_in_order(found.0@),
{
    reveal(track_yield);
    let label = label_of(index);
    let ghost source = smf_event_views(events@);
    let ghost start = *ids;
    let mut scan = TrackScan {
        tracks: Vec::new(),
        open: Vec::new(),
        tempo: None,
        time_sig: None,
        name: None,
        tick: 0,
    };
    assert(scan.view_with(*ids) =~= scan_start(start)) by {
        assert(track_views(scan.tracks@) =~= Seq::<TrackView>::empty());
    }
    let mut i: usize = 0;
    while i < events.len()
        invariant
            i <= events@.len(),
            tpb > 0,
            source == smf_event_views(events@),
            label@ == track_label(index as nat),
            scan.is_sorted(),
            scan.view_with(*ids) == scan_events(scan_start(start), source, tpb, label@, i as int),
        decreases events@.len() - i,
    {
        assert(source[i as int] == events@[i as int]@);
        scan_step(&mut scan, ids, &events[i], tpb, label.as_str());
        i += 1;
    }
    let ghost scanned = scan.view_with(*ids);
    let mut left: Vec<OpenNote> = Vec::new();
    std::mem::swap(&mut left, &mut scan.open);
    assert(left@ == scanned.open);
    let mut k: usize = 0;
    while k < left.len()
        invariant
            k <= left@.len(),
            scan.is_sorted(),
            left@ == scanned.open,
            (ScanView { open: scanned.open, ..scan.view_with(*ids) }) == close_left(
                scanned,
                scanned.open,
                k as int,
            ),
        decreases left@.len() - k,
    {
        let begun = left[k];
        let ghost before = scan.view_with(*ids);
        add_note_on(
            &mut scan,
            ids,
            begun.channel,
            begun.pitch,
            begun.velocity,
            begun.start_tick,
            TICKS_PER_BEAT,
        );
        proof {
            let shown = ScanView { open: scanned.open, ..before };
            lemma_with_note_open(
                before,
                scanned.open,
                begun.channel,
                begun.pitch,
                begun.velocity,
                begun.start_tick,
                TICKS_PER_BEAT,
            );
        }
        k += 1;
    }
    let ghost closed = close_left(scanned, scanned.open, scanned.open.len() as int);
    assert(all_in_order(scan.tracks@));
    let sorted = sorted_by_channel(&scan.tracks);
    let tracks = if tempo_track && !holds_note(&sorted) {
        let none: Vec<Track> = Vec::new();
        assert(track_views(none@) =~= Seq::<TrackView>::empty());
        none
    } else {
        sorted
    };
    (tracks, scan.tempo, scan.time_sig)
}

/// `with_note` does not look at the open notes and leaves them alone.
proof fn lemma_with_note_open(
    s: ScanView,
    open: Seq<OpenNote>,
    channel: u8,
    pitch: u8,
    velocity: u8,
    start_tick: u32,
    duration_ticks: u32,
)
    ensures
        with_note(ScanView { open, ..s }, channel, pitch, velocity, start_tick, duration_ticks) == (
        ScanView { open, ..with_note(s, channel, pitch, velocity, start_tick, duration_ticks) }),
{
}

/// The project that the events of a file give, under the name `name`.
///
/// Fails with `UnsupportedFormat` for a file with SMPTE timing and for a
/// file of format 2, and with `ParseError` for a file that counts 0 ticks
/// to the quarter note; the identifier counters then stay as they are.
pub fn project_from_smf(file: &SmfFile, name: &str, ids: &mut IdAllocator) -> (made: Result<
    Project,
    MidiImportError,
>)
    ensures
        made.is_ok() == importable(file@).is_some(),
        made matches Ok(project) ==> (project@, *final(ids)) == imported_project(
            file@,
            importable(file@).unwrap(),
            name@,
            *old(ids),
        ),
        made matches Ok(project) ==> all_in_order(project.tracks@),
        made matches Err(e) ==> {
            &&& *final(ids) == *old(ids)
            &&& match e {
                MidiImportError::UnsupportedFormat(text) => if file@.timing is Timecode {
                    text@ == "SMPTE timecode timing not supported"@
                } else {
                    file@.format == SmfFormat::Sequential && text@
                        == "Format 2 (sequential) MIDI files not supported"@
                },
                MidiImportError::ParseError(text) => file@.timing == SmfTiming::Metrical(0)
                    && file@.format != SmfFormat::Sequential && text@
                    == "file counts 0 ticks to the quarter note"@,
                MidiImportError::IoError(_) => false,
            }
        },
{
    let tpb: u32 = match file.timing {
        SmfTiming::Metrical(ticks) => ticks as u32,
        SmfTiming::Timecode => {
            return Err(
                MidiImportError::UnsupportedFormat(
                    String::from_str("SMPTE timecode timing not supported"),
                ),
            );
        },
    };
    match file.format {
        SmfFormat::Sequential => {
            return Err(
                MidiImportError::UnsupportedFormat(
                    String::from_str("Format 2 (sequential) MIDI files not supported"),
                ),
            );
        },
        _ => {},
    }
    if tpb == 0 {
        return Err(
            MidiImportError::ParseError(String::from_str("file counts 0 ticks to the quarter note")),
        );
    }
    let ghost start = *ids;
    let ghost source = file@.tracks;
    let format = file.format;
    let mut project = Project::new(name);
    let mut tempo: u32 = 120;
    let mut time_sig: (u8, u8) = (4, 4);
    let mut i: usize = 0;
    while i < file.tracks.len()
        invariant
            i <= file.tracks@.len(),
            tpb > 0,
            format == file.format,
            all_in_order(project.tracks@),
            source == smf_track_views(file.tracks@),
            project@ == (ProjectView {
                name: name@,
                tempo: 120,
                time_sig_numerator: 4,
                time_sig_denominator: 4,
                tracks: project@.tracks,
                next_channel: 0,
                soundfont_path: None,
            }),
            (ImportView { tracks: project@.tracks, tempo, time_sig, ids: *ids }) == import_tracks(
                source,
                tpb,
                format,
                start,
                i as int,
            ),
        decreases file.tracks@.len() - i,
    {
        let tempo_track = match format {
            SmfFormat::Parallel => i == 0,
            _ => false,
        };
        assert(source[i as int] == smf_event_views(file.tracks@[i as int]@));
        let ghost acc = import_tracks(source, tpb, format, start, i as int);
        let (mut found, found_tempo, found_time_sig) = scan_track(
            &file.tracks[i],
            i,
            tpb,
            tempo_track,
            ids,
        );
        match found_tempo {
            Some(t) => {
                tempo = t;
            },
            None => {},
        }
        match found_time_sig {
            Some(ts) => {
                time_sig = ts;
            },
            None => {},
        }
        let ghost added = track_views(found@);
        let ghost before = project@.tracks;
        let ghost had = project.tracks@;
        let ghost got = found@;
        project.tracks.append(&mut found);
        assert forall|k: int| 0 <= k < project.tracks@.len() implies (#[trigger] project.tracks@[k]).is_sorted() by {
            if k < had.len() {
                assert(project.tracks@[k] == had[k]);
            } else {
                assert(project.tracks@[k] == got[k - had.len()]);
            }
        }
        assert(project@.tracks =~= before + added);
        i += 1;
    }
    if project.tracks.len() == 0 {
        let track = Track::new(ids, "Track 1", 0);
        project.tracks.push(track);
        assert(project@.tracks =~= seq![track@]);
    }
    project.tempo = tempo;
    project.time_sig_numerator = time_sig.0;
    project.time_sig_denominator = time_sig.1;
    Ok(project)
}

/// The project that the bytes of a Standard MIDI File give, under the
/// name `name`.
///
/// Fails with `ParseError` if the bytes are no Standard MIDI File, and as
/// [`project_from_smf`] does for what the parser read.
pub fn import_from_midi(data: &[u8], name: &str, ids: &mut IdAllocator) -> (made: Result<
    Project,
    MidiImportError,
>)
    ensures
        made.is_ok() == (parsed_smf(data@) matches Some(file) && importable(file).is_some()),
        made matches Ok(project) ==> (project@, *final(ids)) == imported_project(
            parsed_smf(data@).unwrap(),
            importable(parsed_smf(data@).unwrap()).unwrap(),
            name@,
            *old(ids),
        ),
        made matches Ok(project) ==> all_in_order(project.tracks@),
        made.is_err() ==> *final(ids) == *old(ids),
        made matches Err(e) ==> !(e is IoError),
        parsed_smf(data@).is_none() ==> made matches Err(MidiImportError::ParseError(_)),
{
    match parse_smf(data) {
        Ok(file) => {
            project_from_smf(&file, name, ids)
        },
        Err(text) => Err(MidiImportError::ParseError(text)),
    }
}

} // verus!

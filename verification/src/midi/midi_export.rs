//! Writing a project as a Standard MIDI File, format 1.
//!
//! The file holds one tempo track (name, time signature, tempo) followed by
//! one track per project track (name, program, volume, pan, notes). Mute
//! and solo states, note identifiers and the SoundFont path have no place
//! in the format and are left out.

use vstd::prelude::*;
use vstd::utf8::encode_utf8;
use super::note::Note;
use super::order::{as_ints, sort_order, stable_order};
use super::project::{Project, ProjectView, max_track_end, track_views};
use super::track::{Track, TrackView, max_end_tick};
use super::TICKS_PER_BEAT;

verus! {

/// Largest value that MIDI allows in a variable-length quantity: 28 bits.
pub const MAX_VLQ: u32 = 0x0FFF_FFFF;

/// Microseconds in a minute: the tempo in beats per minute divides this
/// to give the microseconds per beat.
pub const MICROS_PER_MINUTE: u32 = 60_000_000;

/// Most tracks a project can have and still be written: the header
/// counts them, and the tempo track, in 16 bits.
pub const MAX_EXPORT_TRACKS: usize = 0xFFFE;

/// An event of a track chunk.
#[derive(Debug)]
pub enum MidiEvent {
    /// A key goes down.
    NoteOn { channel: u8, pitch: u8, velocity: u8 },
    /// A key goes up.
    NoteOff { channel: u8, pitch: u8, velocity: u8 },
    /// The channel takes another instrument.
    ProgramChange { channel: u8, program: u8 },
    /// A controller of the channel takes a value.
    ControlChange { channel: u8, controller: u8, value: u8 },
    /// Tempo, in microseconds per quarter note.
    SetTempo { microseconds_per_beat: u32 },
    /// Time signature; the denominator as a power of two.
    TimeSignature { numerator: u8, denominator_power: u8 },
    /// Name of the track.
    TrackName { name: String },
    /// Last event of every track.
    EndOfTrack,
}

/// An event as mathematical values.
pub enum MidiEventView {
    NoteOn { channel: u8, pitch: u8, velocity: u8 },
    NoteOff { channel: u8, pitch: u8, velocity: u8 },
    ProgramChange { channel: u8, program: u8 },
    ControlChange { channel: u8, controller: u8, value: u8 },
    SetTempo { microseconds_per_beat: u32 },
    TimeSignature { numerator: u8, denominator_power: u8 },
    TrackName { name: Seq<char> },
    EndOfTrack,
}

/// An event with its absolute tick and its rank among events of one tick.
#[derive(Debug)]
pub struct TimedEvent {
    /// Tick of the event, from the start of the track.
    pub tick: u32,
    /// The event.
    pub event: MidiEvent,
    /// Events of one tick are written in rising order of priority.
    pub priority: u8,
}

/// A timed event as mathematical values.
pub struct TimedEventView {
    pub tick: u32,
    pub event: MidiEventView,
    pub priority: u8,
}

/// Why a project cannot be written as a Standard MIDI File.
#[derive(Debug, Clone, Copy, PartialEq, Eq, Structural)]
pub enum MidiExportError {
    /// The tempo is 0, so a beat has no length.
    ZeroTempo,
    /// A name, a track or the number of tracks is beyond what the format can count.
    TooLarge,
}

impl View for MidiEvent {
    type V = MidiEventView;

    open spec fn view(&self) -> MidiEventView {
        match *self {
            MidiEvent::NoteOn { channel, pitch, velocity } => MidiEventView::NoteOn {
                channel,
                pitch,
                velocity,
            },
            MidiEvent::NoteOff { channel, pitch, velocity } => MidiEventView::NoteOff {
                channel,
                pitch,
                velocity,
            },
            MidiEvent::ProgramChange { channel, program } => MidiEventView::ProgramChange {
                channel,
                program,
            },
            MidiEvent::ControlChange { channel, controller, value } => MidiEventView::ControlChange {
                channel,
                controller,
                value,
            },
            MidiEvent::SetTempo { microseconds_per_beat } => MidiEventView::SetTempo {
                microseconds_per_beat,
            },
            MidiEvent::TimeSignature { numerator, denominator_power } => MidiEventView::TimeSignature {
                numerator,
                denominator_power,
            },
            MidiEvent::TrackName { name } => MidiEventView::TrackName { name: name@ },
            MidiEvent::EndOfTrack => MidiEventView::EndOfTrack,
        }
    }
}

impl View for TimedEvent {
    type V = TimedEventView;

    open spec fn view(&self) -> TimedEventView {
        TimedEventView { tick: self.tick, event: self.event@, priority: self.priority }
    }
}

/// The continuation bytes of a variable-length quantity whose higher
/// groups hold `v`: each byte seven bits with the top bit set, the highest
/// group first.
pub open spec fn vlq_prefix(v: u32) -> Seq<u8>
    decreases v,
{
    if v == 0 {
        Seq::<u8>::empty()
    } else {
        vlq_prefix(v / 128).push((128 + v % 128) as u8)
    }
}

/// `v` as a variable-length quantity: seven bits a byte, the highest group
/// first, the top bit set on every byte but the last, and no more bytes
/// than the value needs.
pub open spec fn vlq_bytes(v: u32) -> Seq<u8> {
    vlq_prefix(v / 128).push((v % 128) as u8)
}

/// Reads a variable-length quantity of at most `left` bytes at `pos`,
/// `acc` holding the groups read so far. Gives the value and the position
/// behind it, or `None` where the bytes end or the quantity goes on.
pub open spec fn vlq_scan(bytes: Seq<u8>, pos: int, acc: u32, left: nat) -> Option<(u32, int)>
    decreases left,
{
    if left == 0 || pos < 0 || pos >= bytes.len() {
        None
    } else {
        let next = (acc * 128 + bytes[pos] % 128) as u32;
        if bytes[pos] < 128 {
            Some((next, pos + 1))
        } else {
            vlq_scan(bytes, pos + 1, next, (left - 1) as nat)
        }
    }
}

/// The variable-length quantity of at most four bytes at `pos`.
pub open spec fn vlq_value(bytes: Seq<u8>, pos: int) -> Option<(u32, int)> {
    vlq_scan(bytes, pos, 0, 4)
}

/// Number of bytes of `v` as a variable-length quantity.
pub open spec fn vlq_len(v: u32) -> nat {
    if v < 0x80 {
        1
    } else if v < 0x4000 {
        2
    } else if v < 0x20_0000 {
        3
    } else if v < 0x1000_0000 {
        4
    } else {
        5
    }
}

/// The four bytes of `v`, highest first.
pub open spec fn be32_bytes(v: u32) -> Seq<u8> {
    seq![(v / 0x100_0000) as u8, (v / 0x1_0000 % 256) as u8, (v / 0x100 % 256) as u8, (v % 256) as u8]
}

/// The exponent of two that a time-signature denominator stands for; 2
/// (a quarter note) for a value that is no power of two up to 32.
pub open spec fn power_of_denominator(denominator: u8) -> u8 {
    if denominator == 1 {
        0
    } else if denominator == 2 {
        1
    } else if denominator == 4 {
        2
    } else if denominator == 8 {
        3
    } else if denominator == 16 {
        4
    } else if denominator == 32 {
        5
    } else {
        2
    }
}

/// The bytes of an event, without its delta time.
pub open spec fn event_bytes(event: MidiEventView) -> Seq<u8> {
    match event {
        MidiEventView::NoteOn { channel, pitch, velocity } => seq![
            (0x90 + channel % 16) as u8,
            pitch,
            velocity,
        ],
        MidiEventView::NoteOff { channel, pitch, velocity } => seq![
            (0x80 + channel % 16) as u8,
            pitch,
            velocity,
        ],
        MidiEventView::ProgramChange { channel, program } => seq![
            (0xC0 + channel % 16) as u8,
            program,
        ],
        MidiEventView::ControlChange { channel, controller, value } => seq![
            (0xB0 + channel % 16) as u8,
            controller,
            value,
        ],
        MidiEventView::SetTempo { microseconds_per_beat } => seq![
            0xFFu8,
            0x51u8,
            0x03u8,
            (microseconds_per_beat / 0x1_0000 % 256) as u8,
            (microseconds_per_beat / 0x100 % 256) as u8,
            (microseconds_per_beat % 256) as u8,
        ],
        MidiEventView::TimeSignature { numerator, denominator_power } => seq![
            0xFFu8,
            0x58u8,
            0x04u8,
            numerator,
            denominator_power,
            24u8,
            8u8,
        ],
        MidiEventView::TrackName { name } => seq![0xFFu8, 0x03u8] + vlq_bytes(
            encode_utf8(name).len() as u32,
        ) + encode_utf8(name),
        MidiEventView::EndOfTrack => seq![0xFFu8, 0x2Fu8, 0x00u8],
    }
}

/// The length of a name can be written as a variable-length quantity.
pub open spec fn event_fits(event: MidiEventView) -> bool {
    event matches MidiEventView::TrackName { name } ==> encode_utf8(name).len() <= MAX_VLQ
}

/// The views of the events of `s`, in order.
pub open spec fn event_views(s: Seq<TimedEvent>) -> Seq<TimedEventView> {
    s.map_values(|e: TimedEvent| e@)
}

/// The sort key of an event: its tick, then its priority.
pub open spec fn event_key(event: TimedEventView) -> u64 {
    (event.tick * 256 + event.priority) as u64
}

/// The sort keys of `events`, in order.
pub open spec fn event_keys(events: Seq<TimedEventView>) -> Seq<u64> {
    events.map_values(|e: TimedEventView| event_key(e))
}

/// `a - b`, or 0 where `b` is the larger.
pub open spec fn saturating_diff(a: u32, b: u32) -> u32 {
    if a >= b {
        (a - b) as u32
    } else {
        0
    }
}

/// The bytes of the first `upto` events in the order `order`: each the time
/// since the event before it, as a variable-length quantity, then the event.
pub open spec fn encoded_events(events: Seq<TimedEventView>, order: Seq<int>, upto: int) -> Seq<u8>
    decreases upto,
{
    if upto <= 0 {
        Seq::<u8>::empty()
    } else {
        let here = events[order[upto - 1]];
        let before = if upto == 1 {
            0u32
        } else {
            events[order[upto - 2]].tick
        };
        encoded_events(events, order, upto - 1) + vlq_bytes(saturating_diff(here.tick, before))
            + event_bytes(here.event)
    }
}

/// The data of a track chunk: the events in order of tick, events of one
/// tick in order of priority, events equal in both as they were listed.
pub open spec fn track_data(events: Seq<TimedEventView>) -> Seq<u8> {
    encoded_events(events, stable_order(event_keys(events)), events.len() as int)
}

/// A track chunk: the tag, the length of the data in four bytes, the data.
pub open spec fn chunk_bytes(data: Seq<u8>) -> Seq<u8> {
    seq![0x4Du8, 0x54u8, 0x72u8, 0x6Bu8] + be32_bytes(data.len() as u32) + data
}

/// The header chunk of a format 1 file of `chunks` track chunks at 480
/// ticks per quarter note.
pub open spec fn header_bytes(chunks: nat) -> Seq<u8> {
    seq![
        0x4Du8,
        0x54u8,
        0x68u8,
        0x64u8,
        0u8,
        0u8,
        0u8,
        6u8,
        0u8,
        1u8,
        (chunks / 256) as u8,
        (chunks % 256) as u8,
        (TICKS_PER_BEAT / 256) as u8,
        (TICKS_PER_BEAT % 256) as u8,
    ]
}

/// The events of the tempo track: project name, time signature and tempo
/// at tick 0, the end of the track at the end of the project.
pub open spec fn tempo_track_events(p: ProjectView) -> Seq<TimedEventView> {
    seq![
        TimedEventView { tick: 0, event: MidiEventView::TrackName { name: p.name }, priority: 0 },
        TimedEventView {
            tick: 0,
            event: MidiEventView::TimeSignature {
                numerator: p.time_sig_numerator,
                denominator_power: power_of_denominator(p.time_sig_denominator),
            },
            priority: 1,
        },
        TimedEventView {
            tick: 0,
            event: MidiEventView::SetTempo {
                microseconds_per_beat: (MICROS_PER_MINUTE / p.tempo) as u32,
            },
            priority: 2,
        },
        TimedEventView {
            tick: max_track_end(p.tracks),
            event: MidiEventView::EndOfTrack,
            priority: 255,
        },
    ]
}

/// The note-on and note-off of one note on `channel`.
pub open spec fn note_event_pair(note: Note, channel: u8) -> Seq<TimedEventView> {
    seq![
        TimedEventView {
            tick: note.start_tick,
            event: MidiEventView::NoteOn { channel, pitch: note.pitch, velocity: note.velocity },
            priority: 10,
        },
        TimedEventView {
            tick: note.spec_end_tick(),
            event: MidiEventView::NoteOff { channel, pitch: note.pitch, velocity: 0 },
            priority: 11,
        },
    ]
}

/// The note-on and note-off events of `notes` on `channel`, note by note.
pub open spec fn note_events(notes: Seq<Note>, channel: u8) -> Seq<TimedEventView>
    decreases notes.len(),
{
    if notes.len() == 0 {
        Seq::<TimedEventView>::empty()
    } else {
        note_events(notes.drop_last(), channel) + note_event_pair(notes.last(), channel)
    }
}

/// Name, program, volume and pan of a track, all at tick 0.
pub open spec fn setup_events(t: TrackView) -> Seq<TimedEventView> {
    seq![
        TimedEventView { tick: 0, event: MidiEventView::TrackName { name: t.name }, priority: 0 },
        TimedEventView {
            tick: 0,
            event: MidiEventView::ProgramChange { channel: t.channel, program: t.program },
            priority: 1,
        },
        TimedEventView {
            tick: 0,
            event: MidiEventView::ControlChange { channel: t.channel, controller: 7, value: t.volume },
            priority: 2,
        },
        TimedEventView {
            tick: 0,
            event: MidiEventView::ControlChange { channel: t.channel, controller: 10, value: t.pan },
            priority: 3,
        },
    ]
}

/// The tick of the end of a music track: its length, but at least 1.
pub open spec fn track_end(t: TrackView) -> u32 {
    if max_end_tick(t.notes) < 1 {
        1
    } else {
        max_end_tick(t.notes)
    }
}

/// The events of a music track: its setup, its notes, its end.
pub open spec fn music_track_events(t: TrackView) -> Seq<TimedEventView> {
    (setup_events(t) + note_events(t.notes, t.channel)).push(
        TimedEventView { tick: track_end(t), event: MidiEventView::EndOfTrack, priority: 255 },
    )
}

/// The chunks of the music tracks, one behind the other.
pub open spec fn music_chunks(tracks: Seq<TrackView>) -> Seq<u8>
    decreases tracks.len(),
{
    if tracks.len() == 0 {
        Seq::<u8>::empty()
    } else {
        music_chunks(tracks.drop_last()) + chunk_bytes(track_data(music_track_events(tracks.last())))
    }
}

/// The whole file: header, tempo track, music tracks.
pub open spec fn smf_bytes(p: ProjectView) -> Seq<u8> {
    header_bytes(p.tracks.len() + 1) + chunk_bytes(track_data(tempo_track_events(p)))
        + music_chunks(p.tracks)
}

/// The name of the track and the length of its chunk can be written.
pub open spec fn track_fits(t: TrackView) -> bool {
    &&& encode_utf8(t.name).len() <= MAX_VLQ
    &&& track_data(music_track_events(t)).len() <= u32::MAX
}

/// Everything that the file has to count can be counted: the tracks in 16
/// bits, the length of each name in 28, the length of each chunk in 32.
pub open spec fn fits_format(p: ProjectView) -> bool {
    &&& p.tracks.len() <= MAX_EXPORT_TRACKS
    &&& encode_utf8(p.name).len() <= MAX_VLQ
    &&& track_data(tempo_track_events(p)).len() <= u32::MAX
    &&& forall|i: int| 0 <= i < p.tracks.len() ==> track_fits(#[trigger] p.tracks[i])
}

/// A variable-length quantity has as few bytes as its value allows: one
/// for every seven bits.
pub proof fn lemma_vlq_len(v: u32)
    ensures
        vlq_bytes(v).len() == vlq_len(v),
        vlq_bytes(v).last() < 128,
        forall|i: int| 0 <= i < vlq_bytes(v).len() - 1 ==> vlq_bytes(v)[i] >= 128,
{
    reveal_with_fuel(vlq_prefix, 6);
}

/// Reading back a variable-length quantity of up to 28 bits gives the
/// value that was written, and the position behind its last byte,
/// whatever follows it.
pub proof fn lemma_vlq_round_trip(v: u32, rest: Seq<u8>)
    requires
        v <= MAX_VLQ,
    ensures
        vlq_value(vlq_bytes(v) + rest, 0) == Some((v, vlq_bytes(v).len() as int)),
{
    lemma_vlq_scan_groups(v / 128, (v % 128) as u8, rest);
    assert(vlq_bytes(v) + rest =~= vlq_prefix(v / 128) + seq![(v % 128) as u8] + rest);
}

/// Scanning the continuation bytes for `p` and then a last byte gives the
/// groups of `p` followed by the last byte, and ends behind that byte.
proof fn lemma_vlq_scan_groups(p: u32, last: u8, rest: Seq<u8>)
    requires
        last < 128,
        p < 0x20_0000,
    ensures
        vlq_value(vlq_prefix(p) + seq![last] + rest, 0) == Some(
            ((p * 128 + last) as u32, (vlq_prefix(p).len() + 1) as int),
        ),
{
    let bytes = vlq_prefix(p) + seq![last] + rest;
    lemma_vlq_prefix_form(p);
    if p == 0 {
        assert(bytes[0] == last);
        lemma_scan_last(bytes, 0, 0, 4);
    } else if p < 128 {
        let a = (128 + p) as u8;
        assert(bytes[0] == a && bytes[1] == last);
        lemma_scan_more(bytes, 0, 0, 4);
        lemma_scan_last(bytes, 1, p, 3);
    } else if p < 16384 {
        let a = (128 + p / 128) as u8;
        let b = (128 + p % 128) as u8;
        assert(bytes[0] == a && bytes[1] == b && bytes[2] == last);
        lemma_scan_more(bytes, 0, 0, 4);
        lemma_scan_more(bytes, 1, (p / 128) as u32, 3);
        lemma_scan_last(bytes, 2, p, 2);
    } else {
        let a = (128 + p / 16384) as u8;
        let b = (128 + p / 128 % 128) as u8;
        let c = (128 + p % 128) as u8;
        assert(bytes[0] == a && bytes[1] == b && bytes[2] == c && bytes[3] == last);
        lemma_scan_more(bytes, 0, 0, 4);
        lemma_scan_more(bytes, 1, (p / 16384) as u32, 3);
        lemma_scan_more(bytes, 2, (p / 128) as u32, 2);
        lemma_scan_last(bytes, 3, p, 1);
    }
}

/// The continuation bytes of a value of up to 21 bits, written out.
proof fn lemma_vlq_prefix_form(p: u32)
    requires
        p < 0x20_0000,
    ensures
        p == 0 ==> vlq_prefix(p) == Seq::<u8>::empty(),
        0 < p < 128 ==> vlq_prefix(p) == seq![(128 + p) as u8],
        128 <= p < 16384 ==> vlq_prefix(p) == seq![(128 + p / 128) as u8, (128 + p % 128) as u8],
        16384 <= p ==> vlq_prefix(p) == seq![
            (128 + p / 16384) as u8,
            (128 + p / 128 % 128) as u8,
            (128 + p % 128) as u8,
        ],
{
    let q = (p / 128) as u32;
    let r = (q / 128) as u32;
    assert(vlq_prefix(0) == Seq::<u8>::empty());
    if p > 0 {
        assert(vlq_prefix(p) == vlq_prefix(q).push((128 + p % 128) as u8));
        if q > 0 {
            assert(vlq_prefix(q) == vlq_prefix(r).push((128 + q % 128) as u8));
            if r > 0 {
                assert(r / 128 == 0);
                assert(vlq_prefix(r) == vlq_prefix(0).push((128 + r % 128) as u8));
                assert(r == p / 16384);
                assert(vlq_prefix(p) =~= seq![
                    (128 + p / 16384) as u8,
                    (128 + p / 128 % 128) as u8,
                    (128 + p % 128) as u8,
                ]);
            } else {
                assert(vlq_prefix(p) =~= seq![(128 + p / 128) as u8, (128 + p % 128) as u8]);
            }
        } else {
            assert(vlq_prefix(p) =~= seq![(128 + p) as u8]);
        }
    }
}

/// One step of a scan over a byte that ends the quantity.
proof fn lemma_scan_last(bytes: Seq<u8>, pos: int, acc: u32, left: nat)
    requires
        left > 0,
        0 <= pos < bytes.len(),
        bytes[pos] < 128,
    ensures
        vlq_scan(bytes, pos, acc, left) == Some(((acc * 128 + bytes[pos]) as u32, pos + 1)),
{
}

/// One step of a scan over a byte after which the quantity goes on.
proof fn lemma_scan_more(bytes: Seq<u8>, pos: int, acc: u32, left: nat)
    requires
        left > 0,
        0 <= pos < bytes.len(),
        bytes[pos] >= 128,
    ensures
        vlq_scan(bytes, pos, acc, left) == vlq_scan(
            bytes,
            pos + 1,
            (acc * 128 + (bytes[pos] - 128)) as u32,
            (left - 1) as nat,
        ),
{
}

/// A tempo of 20 to 300 beats per minute comes back from the microseconds
/// per beat that stand for it in the file.
pub proof fn lemma_tempo_round_trip(tempo: u32)
    requires
        20 <= tempo <= 300,
    ensures
        MICROS_PER_MINUTE / tempo > 0,
        MICROS_PER_MINUTE / tempo < 0x100_0000,
        MICROS_PER_MINUTE / ((MICROS_PER_MINUTE / tempo) as u32) == tempo,
{
    let q = 60_000_000int / (tempo as int);
    let r = 60_000_000int % (tempo as int);
    vstd::arithmetic::div_mod::lemma_fundamental_div_mod(60_000_000, tempo as int);
    assert(q >= 200_000) by {
        vstd::arithmetic::div_mod::lemma_div_is_ordered_by_denominator(
            60_000_000,
            tempo as int,
            300,
        );
    }
    assert(q <= 3_000_000) by {
        vstd::arithmetic::div_mod::lemma_div_is_ordered_by_denominator(60_000_000, 20, tempo as int);
    }
    assert(60_000_000int == q * tempo + r) by (nonlinear_arith)
        requires
            60_000_000int == tempo * q + r,
    ;
    vstd::arithmetic::div_mod::lemma_fundamental_div_mod_converse(60_000_000, q, tempo as int, r);
}

/// A denominator that is a power of two up to 32 comes back from the
/// exponent that stands for it in the file.
pub proof fn lemma_denominator_round_trip(denominator: u8)
    requires
        super::project::is_beat_unit(denominator),
    ensures
        power_of_denominator(denominator) <= 5,
        vstd::arithmetic::power2::pow2(power_of_denominator(denominator) as nat) == denominator,
{
    vstd::arithmetic::power2::lemma2_to64();
}

/// Writes the continuation bytes for the groups in `v`.
fn write_vlq_prefix(v: u32, buffer: &mut Vec<u8>)
    ensures
        final(buffer)@ == old(buffer)@ + vlq_prefix(v),
    decreases v,
{
    if v > 0 {
        write_vlq_prefix(v / 128, buffer);
        buffer.push((128 + v % 128) as u8);
        assert(buffer@ =~= old(buffer)@ + vlq_prefix(v));
    } else {
        assert(buffer@ =~= old(buffer)@ + vlq_prefix(v));
    }
}

/// Appends `value` to `buffer` as a variable-length quantity.
pub fn write_vlq(value: u32, buffer: &mut Vec<u8>)
    ensures
        final(buffer)@ == old(buffer)@ + vlq_bytes(value),
{
    write_vlq_prefix(value / 128, buffer);
    buffer.push((value % 128) as u8);
    assert(buffer@ =~= old(buffer)@ + vlq_bytes(value));
}

/// Reads the variable-length quantity of at most four bytes at `pos`:
/// the value and the position behind it. `None` where the bytes end
/// before the quantity does, or the quantity is longer than four bytes.
pub fn read_vlq(bytes: &[u8], pos: usize) -> (found: Option<(u32, usize)>)
    ensures
        match found {
            Some((value, next)) => vlq_value(bytes@, pos as int) == Some((value, next as int)),
            None => vlq_value(bytes@, pos as int).is_none(),
        },
{
    let mut acc: u32 = 0;
    let mut at: usize = pos;
    let mut left: usize = 4;
    while left > 0
        invariant
            left <= 4,
            acc < pow128((4 - left) as nat),
            at - pos == 4 - left,
            vlq_value(bytes@, pos as int) == vlq_scan(bytes@, at as int, acc, left as nat),
        decreases left,
    {
        if at >= bytes.len() {
            return None;
        }
        let byte = bytes[at];
        proof {
            lemma_pow128_step(acc, byte, (4 - left) as nat);
        }
        let next: u32 = acc * 128 + (byte % 128) as u32;
        if byte < 128 {
            return Some((next, at + 1));
        }
        acc = next;
        at = at + 1;
        left = left - 1;
    }
    None
}

/// 128 to the power `n`, for `n` up to 4.
pub open spec fn pow128(n: nat) -> int {
    if n == 0 {
        1
    } else if n == 1 {
        128
    } else if n == 2 {
        16384
    } else if n == 3 {
        2097152
    } else {
        268435456
    }
}

proof fn lemma_pow128_step(acc: u32, byte: u8, n: nat)
    requires
        n < 4,
        acc < pow128(n),
    ensures
        acc * 128 + byte % 128 < pow128(n + 1),
{
}

/// Appends the bytes of `event`, without a delta time, to `buffer`.
pub fn write_event(event: &MidiEvent, buffer: &mut Vec<u8>)
    requires
        event_fits(event@),
    ensures
        final(buffer)@ == old(buffer)@ + event_bytes(event@),
{
    match event {
        MidiEvent::NoteOn { channel, pitch, velocity } => {
            buffer.push(0x90 + *channel % 16);
            buffer.push(*pitch);
            buffer.push(*velocity);
        },
        MidiEvent::NoteOff { channel, pitch, velocity } => {
            buffer.push(0x80 + *channel % 16);
            buffer.push(*pitch);
            buffer.push(*velocity);
        },
        MidiEvent::ProgramChange { channel, program } => {
            buffer.push(0xC0 + *channel % 16);
            buffer.push(*program);
        },
        MidiEvent::ControlChange { channel, controller, value } => {
            buffer.push(0xB0 + *channel % 16);
            buffer.push(*controller);
            buffer.push(*value);
        },
        MidiEvent::SetTempo { microseconds_per_beat } => {
            let micros: u32 = *microseconds_per_beat;
            buffer.push(0xFF);
            buffer.push(0x51);
            buffer.push(0x03);
            buffer.push((micros / 0x1_0000 % 256) as u8);
            buffer.push((micros / 0x100 % 256) as u8);
            buffer.push((micros % 256) as u8);
        },
        MidiEvent::TimeSignature { numerator, denominator_power } => {
            buffer.push(0xFF);
            buffer.push(0x58);
            buffer.push(0x04);
            buffer.push(*numerator);
            buffer.push(*denominator_power);
            buffer.push(24);
            buffer.push(8);
        },
        MidiEvent::TrackName { name } => {
            buffer.push(0xFF);
            buffer.push(0x03);
            let name_bytes = name.as_str().as_bytes();
            write_vlq(name_bytes.len() as u32, buffer);
            buffer.extend_from_slice(name_bytes);
        },
        MidiEvent::EndOfTrack => {
            buffer.push(0xFF);
            buffer.push(0x2F);
            buffer.push(0x00);
        },
    }
    assert(buffer@ =~= old(buffer)@ + event_bytes(event@));
}

impl TimedEvent {
    /// An event at `tick` with the given rank among the events of that tick.
    pub fn new(tick: u32, event: MidiEvent, priority: u8) -> (timed: Self)
        ensures
            timed@ == (TimedEventView { tick, event: event@, priority }),
            timed.event == event,
    {
        TimedEvent { tick, event, priority }
    }
}

/// The data of a track chunk for `events`: the events in order of tick,
/// then priority, each behind the time since the one before it.
pub fn build_track_data(events: &Vec<TimedEvent>) -> (data: Vec<u8>)
    requires
        forall|i: int| 0 <= i < events@.len() ==> event_fits((#[trigger] events@[i])@.event),
    ensures
        data@ == track_data(event_views(events@)),
{
    let ghost views = event_views(events@);
    let mut keys: Vec<u64> = Vec::with_capacity(events.len());
    let mut i: usize = 0;
    while i < events.len()
        invariant
            i <= events.len(),
            views == event_views(events@),
            keys@ == event_keys(views.subrange(0, i as int)),
        decreases events.len() - i,
    {
        let key: u64 = events[i].tick as u64 * 256 + events[i].priority as u64;
        keys.push(key);
        assert(views[i as int] == events@[i as int]@);
        assert(keys@ =~= event_keys(views.subrange(0, i + 1)));
        i += 1;
    }
    assert(views.subrange(0, i as int) =~= views);
    let order = sort_order(&keys);
    let ghost ranks = as_ints(order@);
    let mut data: Vec<u8> = Vec::new();
    let mut last_tick: u32 = 0;
    let mut k: usize = 0;
    while k < order.len()
        invariant
            k <= order@.len(),
            order@.len() == events@.len(),
            views == event_views(events@),
            ranks == as_ints(order@),
            forall|j: int| 0 <= j < order@.len() ==> (#[trigger] order@[j]) < events@.len(),
            forall|j: int| 0 <= j < events@.len() ==> event_fits((#[trigger] events@[j])@.event),
            data@ == encoded_events(views, ranks, k as int),
            last_tick == (if k == 0 {
                0u32
            } else {
                views[ranks[k - 1]].tick
            }),
        decreases order@.len() - k,
    {
        let index = order[k];
        let timed = &events[index];
        proof {
            assert(ranks[k as int] == index as int);
            assert(views[index as int] == timed@);
        }
        let delta = timed.tick.saturating_sub(last_tick);
        write_vlq(delta, &mut data);
        write_event(&timed.event, &mut data);
        last_tick = timed.tick;
        assert(data@ =~= encoded_events(views, ranks, k + 1));
        k += 1;
    }
    data
}

/// Appends a track chunk holding `track_data` to `out`. Fails, and
/// appends nothing, if the length of the data does not fit in 32 bits.
pub fn write_track_chunk(out: &mut Vec<u8>, track_data: &Vec<u8>) -> (done: Result<(), MidiExportError>)
    ensures
        done.is_ok() == (track_data@.len() <= u32::MAX),
        done.is_ok() ==> final(out)@ == old(out)@ + chunk_bytes(track_data@),
        done.is_err() ==> final(out)@ == old(out)@ && done == Err::<(), MidiExportError>(
            MidiExportError::TooLarge,
        ),
{
    if track_data.len() > u32::MAX as usize {
        return Err(MidiExportError::TooLarge);
    }
    let length: u32 = track_data.len() as u32;
    out.push(0x4D);
    out.push(0x54);
    out.push(0x72);
    out.push(0x6B);
    out.push((length / 0x100_0000) as u8);
    out.push((length / 0x1_0000 % 256) as u8);
    out.push((length / 0x100 % 256) as u8);
    out.push((length % 256) as u8);
    out.extend_from_slice(track_data.as_slice());
    assert(out@ =~= old(out)@ + chunk_bytes(track_data@));
    Ok(())
}

/// The exponent of two that a time-signature denominator stands for; 2
/// (a quarter note) for a value that is no power of two up to 32.
pub fn denominator_to_power(denom: u8) -> (power: u8)
    ensures
        power == power_of_denominator(denom),
{
    if denom == 1 {
        0
    } else if denom == 2 {
        1
    } else if denom == 4 {
        2
    } else if denom == 8 {
        3
    } else if denom == 16 {
        4
    } else if denom == 32 {
        5
    } else {
        2
    }
}

/// Whether the name can stand in a file: its length in bytes fits a
/// variable-length quantity.
fn name_fits(name: &String) -> (fits: bool)
    ensures
        fits == (encode_utf8(name@).len() <= MAX_VLQ),
{
    name.as_str().as_bytes().len() <= MAX_VLQ as usize
}

/// The timed events of the tempo track of `project`.
fn tempo_events(project: &Project) -> (events: Vec<TimedEvent>)
    requires
        project.tempo > 0,
    ensures
        event_views(events@) == tempo_track_events(project@),
{
    let mut events: Vec<TimedEvent> = Vec::new();
    events.push(TimedEvent::new(0, MidiEvent::TrackName { name: project.name.clone() }, 0));
    events.push(
        TimedEvent::new(
            0,
            MidiEvent::TimeSignature {
                numerator: project.time_sig_numerator,
                denominator_power: denominator_to_power(project.time_sig_denominator),
            },
            1,
        ),
    );
    events.push(
        TimedEvent::new(
            0,
            MidiEvent::SetTempo { microseconds_per_beat: MICROS_PER_MINUTE / project.tempo },
            2,
        ),
    );
    events.push(TimedEvent::new(project.duration_ticks(), MidiEvent::EndOfTrack, 255));
    assert(event_views(events@) =~= tempo_track_events(project@));
    events
}

/// The timed events of the music track `track`.
fn music_events(track: &Track) -> (events: Vec<TimedEvent>)
    ensures
        event_views(events@) == music_track_events(track@),
{
    let channel = track.channel;
    let mut events: Vec<TimedEvent> = Vec::new();
    events.push(TimedEvent::new(0, MidiEvent::TrackName { name: track.name.clone() }, 0));
    events.push(
        TimedEvent::new(0, MidiEvent::ProgramChange { channel, program: track.program }, 1),
    );
    events.push(
        TimedEvent::new(
            0,
            MidiEvent::ControlChange { channel, controller: 7, value: track.volume },
            2,
        ),
    );
    events.push(
        TimedEvent::new(0, MidiEvent::ControlChange { channel, controller: 10, value: track.pan }, 3),
    );
    assert(event_views(events@) =~= setup_events(track@) + note_events(
        track.notes@.subrange(0, 0),
        channel,
    ));
    let mut i: usize = 0;
    while i < track.notes.len()
        invariant
            i <= track.notes.len(),
            channel == track.channel,
            event_views(events@) == setup_events(track@) + note_events(
                track.notes@.subrange(0, i as int),
                channel,
            ),
        decreases track.notes.len() - i,
    {
        let note = track.notes[i];
        let ghost before = event_views(events@);
        proof {
            assert(track.notes@.subrange(0, i + 1).drop_last() =~= track.notes@.subrange(0, i as int));
        }
        events.push(
            TimedEvent::new(
                note.start_tick,
                MidiEvent::NoteOn { channel, pitch: note.pitch, velocity: note.velocity },
                10,
            ),
        );
        events.push(
            TimedEvent::new(
                note.end_tick(),
                MidiEvent::NoteOff { channel, pitch: note.pitch, velocity: 0 },
                11,
            ),
        );
        assert(event_views(events@) =~= before + note_event_pair(note, channel));
        assert(event_views(events@) =~= setup_events(track@) + note_events(
            track.notes@.subrange(0, i + 1),
            channel,
        ));
        i += 1;
    }
    assert(track.notes@.subrange(0, i as int) =~= track.notes@);
    let length = track.duration_ticks();
    let end: u32 = if length < 1 {
        1
    } else {
        length
    };
    let ghost before = event_views(events@);
    events.push(TimedEvent::new(end, MidiEvent::EndOfTrack, 255));
    assert(event_views(events@) =~= before.push(
        TimedEventView { tick: track_end(track@), event: MidiEventView::EndOfTrack, priority: 255 },
    ));
    events
}

/// Every name among the tempo-track events fits once the project's does.
proof fn lemma_tempo_events_fit(p: ProjectView)
    requires
        encode_utf8(p.name).len() <= MAX_VLQ,
    ensures
        forall|i: int| 0 <= i < tempo_track_events(p).len() ==> event_fits(
            (#[trigger] tempo_track_events(p)[i]).event,
        ),
{
}

/// Note events carry no name.
proof fn lemma_note_events_fit(notes: Seq<Note>, channel: u8)
    ensures
        note_events(notes, channel).len() == 2 * notes.len(),
        forall|i: int| 0 <= i < note_events(notes, channel).len() ==> event_fits(
            (#[trigger] note_events(notes, channel)[i]).event,
        ),
    decreases notes.len(),
{
    if notes.len() > 0 {
        lemma_note_events_fit(notes.drop_last(), channel);
        let front = note_events(notes.drop_last(), channel);
        let pair = note_event_pair(notes.last(), channel);
        assert forall|i: int| 0 <= i < note_events(notes, channel).len() implies event_fits(
            (#[trigger] note_events(notes, channel)[i]).event,
        ) by {
            if i < front.len() {
                assert(note_events(notes, channel)[i] == front[i]);
            } else {
                assert(note_events(notes, channel)[i] == pair[i - front.len()]);
            }
        }
    }
}

/// Every name among the events of a music track fits once the track's does.
proof fn lemma_music_events_fit(t: TrackView)
    requires
        encode_utf8(t.name).len() <= MAX_VLQ,
    ensures
        forall|i: int| 0 <= i < music_track_events(t).len() ==> event_fits(
            (#[trigger] music_track_events(t)[i]).event,
        ),
{
    lemma_note_events_fit(t.notes, t.channel);
    let setup = setup_events(t);
    let notes = note_events(t.notes, t.channel);
    assert forall|i: int| 0 <= i < music_track_events(t).len() implies event_fits(
        (#[trigger] music_track_events(t)[i]).event,
    ) by {
        if i < setup.len() {
            assert(music_track_events(t)[i] == setup[i]);
        } else if i < setup.len() + notes.len() {
            assert(music_track_events(t)[i] == notes[i - setup.len()]);
        }
    }
}

/// The project as the bytes of a Standard MIDI File, format 1, at 480
/// ticks per quarter note.
///
/// Fails with `ZeroTempo` if the tempo is 0, and otherwise with
/// `TooLarge` if the project has more than 65534 tracks, a name of more
/// than 2^28 - 1 bytes, or a track whose events take more than 2^32 - 1
/// bytes.
#[verifier::loop_isolation(false)]
pub fn export_to_midi(project: &Project) -> (file: Result<Vec<u8>, MidiExportError>)
    ensures
        file.is_ok() == (project@.tempo > 0 && fits_format(project@)),
        file matches Ok(bytes) ==> bytes@ == smf_bytes(project@),
        file matches Err(e) ==> (e == MidiExportError::ZeroTempo) == (project@.tempo == 0),
{
    if project.tempo == 0 {
        return Err(MidiExportError::ZeroTempo);
    }
    let count = project.tracks.len();
    if count > MAX_EXPORT_TRACKS || !name_fits(&project.name) {
        return Err(MidiExportError::TooLarge);
    }
    let chunks: usize = count + 1;
    let mut out: Vec<u8> = Vec::new();
    out.push(0x4D);
    out.push(0x54);
    out.push(0x68);
    out.push(0x64);
    out.push(0);
    out.push(0);
    out.push(0);
    out.push(6);
    out.push(0);
    out.push(1);
    out.push((chunks / 256) as u8);
    out.push((chunks % 256) as u8);
    out.push((TICKS_PER_BEAT / 256) as u8);
    out.push((TICKS_PER_BEAT % 256) as u8);
    assert(out@ =~= header_bytes(project@.tracks.len() + 1));

    let events = tempo_events(project);
    proof {
        lemma_tempo_events_fit(project@);
        assert forall|i: int| 0 <= i < events@.len() implies event_fits(
            (#[trigger] events@[i])@.event,
        ) by {
            assert(event_views(events@)[i] == events@[i]@);
        }
    }
    let data = build_track_data(&events);
    match write_track_chunk(&mut out, &data) {
        Ok(()) => {},
        Err(e) => {
            return Err(e);
        },
    }
    let ghost views = project@.tracks;
    let ghost head = out@;
    assert(music_chunks(views.subrange(0, 0)) =~= Seq::<u8>::empty());
    assert(out@ =~= head + music_chunks(views.subrange(0, 0)));
    let mut i: usize = 0;
    while i < project.tracks.len()
        invariant
            i <= project.tracks.len(),
            views == track_views(project.tracks@),
            head == header_bytes(views.len() + 1) + chunk_bytes(
                track_data(tempo_track_events(project@)),
            ),
            out@ == head + music_chunks(views.subrange(0, i as int)),
            forall|k: int| 0 <= k < i ==> track_fits(#[trigger] views[k]),
        decreases project.tracks.len() - i,
    {
        let track = &project.tracks[i];
        proof {
            assert(views[i as int] == track@);
            assert(views.subrange(0, i + 1).drop_last() =~= views.subrange(0, i as int));
            assert(views.subrange(0, i + 1).last() == track@);
        }
        if !name_fits(&track.name) {
            return Err(MidiExportError::TooLarge);
        }
        let events = music_events(track);
        proof {
            lemma_music_events_fit(track@);
            assert forall|k: int| 0 <= k < events@.len() implies event_fits(
                (#[trigger] events@[k])@.event,
            ) by {
                assert(event_views(events@)[k] == events@[k]@);
            }
        }
        let data = build_track_data(&events);
        let ghost before = out@;
        match write_track_chunk(&mut out, &data) {
            Ok(()) => {},
            Err(e) => {
                return Err(e);
            },
        }
        assert(out@ =~= head + music_chunks(views.subrange(0, i + 1)));
        i += 1;
    }
    assert(views.subrange(0, i as int) =~= views);
    assert(out@ =~= smf_bytes(project@));
    Ok(out)
}

impl Project {
    /// The project as the bytes of a Standard MIDI File; see [`export_to_midi`].
    pub fn export_to_midi(&self) -> (file: Result<Vec<u8>, MidiExportError>)
        ensures
            file.is_ok() == (self@.tempo > 0 && fits_format(self@)),
            file matches Ok(bytes) ==> bytes@ == smf_bytes(self@),
            file matches Err(e) ==> (e == MidiExportError::ZeroTempo) == (self@.tempo == 0),
    {
        export_to_midi(self)
    }
}

} // verus!

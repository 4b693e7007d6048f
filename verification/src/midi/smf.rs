//! Reading the events of a Standard MIDI File.
//!
//! The bytes are parsed by the `midly` crate. What it hands back is copied,
//! event by event, into plain values that the importer works on.

use vstd::prelude::*;

verus! {

/// How the tracks of a file relate to each other.
#[derive(Debug, Clone, Copy, PartialEq, Eq, Structural)]
pub enum SmfFormat {
    /// Format 0: one track that holds every channel.
    SingleTrack,
    /// Format 1: tracks that play together.
    Parallel,
    /// Format 2: tracks that play one after the other.
    Sequential,
}

/// How the delta times of a file are counted.
#[derive(Debug, Clone, Copy, PartialEq, Eq, Structural)]
pub enum SmfTiming {
    /// In ticks, so many to a quarter note.
    Metrical(u16),
    /// In fractions of an SMPTE frame.
    Timecode,
}

/// What an event says, as far as an import reads it.
#[derive(Debug)]
pub enum SmfMessage {
    /// A key goes down; with velocity 0, a key goes up.
    NoteOn { channel: u8, key: u8, velocity: u8 },
    /// A key goes up.
    NoteOff { channel: u8, key: u8 },
    /// The channel takes another instrument.
    ProgramChange { channel: u8, program: u8 },
    /// A controller of the channel takes a value.
    Controller { channel: u8, controller: u8, value: u8 },
    /// Any other message of a channel.
    OtherChannel { channel: u8 },
    /// The name of the track, as bytes.
    TrackName { name: Vec<u8> },
    /// The tempo, in microseconds per quarter note.
    Tempo { micros_per_beat: u32 },
    /// The time signature; the denominator as a power of two.
    TimeSignature { numerator: u8, denominator_power: u8 },
    /// Anything else.
    Other,
}

/// An event: the ticks since the event before it, and what it says.
#[derive(Debug)]
pub struct SmfEvent {
    /// Ticks since the event before, in the file's own resolution.
    pub delta: u32,
    /// What the event says.
    pub message: SmfMessage,
}

/// The events of a file, track by track.
#[derive(Debug)]
pub struct SmfFile {
    /// How the tracks relate.
    pub format: SmfFormat,
    /// How delta times are counted.
    pub timing: SmfTiming,
    /// The tracks, each a list of events.
    pub tracks: Vec<Vec<SmfEvent>>,
}

/// A message as mathematical values.
pub enum SmfMessageView {
    NoteOn { channel: u8, key: u8, velocity: u8 },
    NoteOff { channel: u8, key: u8 },
    ProgramChange { channel: u8, program: u8 },
    Controller { channel: u8, controller: u8, value: u8 },
    OtherChannel { channel: u8 },
    TrackName { name: Seq<u8> },
    Tempo { micros_per_beat: u32 },
    TimeSignature { numerator: u8, denominator_power: u8 },
    Other,
}

/// An event as mathematical values.
pub struct SmfEventView {
    pub delta: u32,
    pub message: SmfMessageView,
}

/// A file as mathematical values.
pub struct SmfFileView {
    pub format: SmfFormat,
    pub timing: SmfTiming,
    pub tracks: Seq<Seq<SmfEventView>>,
}

impl View for SmfMessage {
    type V = SmfMessageView;

    open spec fn view(&self) -> SmfMessageView {
        match *self {
            SmfMessage::NoteOn { channel, key, velocity } => SmfMessageView::NoteOn {
                channel,
                key,
                velocity,
            },
            SmfMessage::NoteOff { channel, key } => SmfMessageView::NoteOff { channel, key },
            SmfMessage::ProgramChange { channel, program } => SmfMessageView::ProgramChange {
                channel,
                program,
            },
            SmfMessage::Controller { channel, controller, value } => SmfMessageView::Controller {
                channel,
                controller,
                value,
            },
            SmfMessage::OtherChannel { channel } => SmfMessageView::OtherChannel { channel },
            SmfMessage::TrackName { name } => SmfMessageView::TrackName { name: name@ },
            SmfMessage::Tempo { micros_per_beat } => SmfMessageView::Tempo { micros_per_beat },
            SmfMessage::TimeSignature { numerator, denominator_power } => SmfMessageView::TimeSignature {
                numerator,
                denominator_power,
            },
            SmfMessage::Other => SmfMessageView::Other,
        }
    }
}

impl View for SmfEvent {
    type V = SmfEventView;

    open spec fn view(&self) -> SmfEventView {
        SmfEventView { delta: self.delta, message: self.message@ }
    }
}

/// The views of the events of `s`, in order.
pub open spec fn smf_event_views(s: Seq<SmfEvent>) -> Seq<SmfEventView> {
    s.map_values(|e: SmfEvent| e@)
}

/// The views of the tracks of `s`, in order.
pub open spec fn smf_track_views(s: Seq<Vec<SmfEvent>>) -> Seq<Seq<SmfEventView>> {
    s.map_values(|t: Vec<SmfEvent>| smf_event_views(t@))
}

impl View for SmfFile {
    type V = SmfFileView;

    open spec fn view(&self) -> SmfFileView {
        SmfFileView {
            format: self.format,
            timing: self.timing,
            tracks: smf_track_views(self.tracks@),
        }
    }
}

/// A parsed file of the `midly` crate.
#[verifier::external_type_specification]
#[verifier::external_body]
pub struct ExSmf<'a>(midly::Smf<'a>);

/// The error of the `midly` crate.
#[verifier::external_type_specification]
#[verifier::external_body]
pub struct ExMidlyError(midly::Error);

/// What `midly::Smf::parse` makes of the bytes of a file: the events it
/// reads, or `None` where it reports an error.
pub uninterp spec fn parsed_smf(data: Seq<u8>) -> Option<SmfFileView>;

/// The format, timing and events that a `midly::Smf` holds.
pub uninterp spec fn smf_content(smf: midly::Smf<'_>) -> SmfFileView;

/// Calls `midly::Smf::parse`. The outcome depends on the bytes alone: an
/// error where `parsed_smf` has none, else a file that holds what
/// `parsed_smf` names.
#[verifier::external_body]
fn parse_bytes<'a>(data: &'a [u8]) -> (parsed: Result<midly::Smf<'a>, midly::Error>)
    ensures
        parsed.is_ok() == parsed_smf(data@).is_some(),
        parsed matches Ok(smf) ==> parsed_smf(data@) == Some(smf_content(smf)),
{
    midly::Smf::parse(data)
}

/// The text of a `midly::Error`, as its `Display` gives it.
#[verifier::external_body]
fn error_text(error: &midly::Error) -> (text: String) {
    format!("{}", error)
}

/// Reads `header.format` of a `midly::Smf`.
#[verifier::external_body]
fn format_of(smf: &midly::Smf<'_>) -> (format: SmfFormat)
    ensures
        format == smf_content(*smf).format,
{
    match smf.header.format {
        midly::Format::SingleTrack => SmfFormat::SingleTrack,
        midly::Format::Parallel => SmfFormat::Parallel,
        midly::Format::Sequential => SmfFormat::Sequential,
    }
}

/// Reads `header.timing` of a `midly::Smf`; the ticks per quarter note of
/// metrical timing as an integer.
#[verifier::external_body]
fn timing_of(smf: &midly::Smf<'_>) -> (timing: SmfTiming)
    ensures
        timing == smf_content(*smf).timing,
{
    match smf.header.timing {
        midly::Timing::Metrical(ticks) => SmfTiming::Metrical(ticks.as_int()),
        midly::Timing::Timecode(_, _) => SmfTiming::Timecode,
    }
}

/// The length of `tracks` of a `midly::Smf`.
#[verifier::external_body]
fn track_count_of(smf: &midly::Smf<'_>) -> (count: usize)
    ensures
        count == smf_content(*smf).tracks.len(),
{
    smf.tracks.len()
}

/// The length of one track of a `midly::Smf`.
#[verifier::external_body]
fn event_count_of(smf: &midly::Smf<'_>, track: usize) -> (count: usize)
    requires
        track < smf_content(*smf).tracks.len(),
    ensures
        count == smf_content(*smf).tracks[track as int].len(),
{
    smf.tracks[track].len()
}

/// The delta time of one event of a `midly::Smf`, as an integer.
#[verifier::external_body]
fn delta_of(smf: &midly::Smf<'_>, track: usize, index: usize) -> (delta: u32)
    requires
        track < smf_content(*smf).tracks.len(),
        index < smf_content(*smf).tracks[track as int].len(),
    ensures
        delta == smf_content(*smf).tracks[track as int][index as int].delta,
{
    smf.tracks[track][index].delta.as_int()
}

/// A message is one of a channel.
pub open spec fn is_channel_message(message: SmfMessageView) -> bool {
    message is NoteOn || message is NoteOff || message is ProgramChange || message is Controller
        || message is OtherChannel
}

/// The kind of one event of a `midly::Smf` if it is a message of a
/// channel: the variant, with the fields of the variant as integers.
#[verifier::external_body]
fn channel_message_of(smf: &midly::Smf<'_>, track: usize, index: usize) -> (message: Option<SmfMessage>)
    requires
        track < smf_content(*smf).tracks.len(),
        index < smf_content(*smf).tracks[track as int].len(),
    ensures
        message.is_some() == is_channel_message(
            smf_content(*smf).tracks[track as int][index as int].message,
        ),
        message matches Some(m) ==> m@ == smf_content(*smf).tracks[track as int][index as int].message,
{
    let midly::TrackEventKind::Midi { channel, message } = smf.tracks[track][index].kind else {
        return None;
    };
    let channel = channel.as_int();
    Some(match message {
        midly::MidiMessage::NoteOn { key, vel } => SmfMessage::NoteOn { channel, key: key.as_int(), velocity: vel.as_int() },
        midly::MidiMessage::NoteOff { key, .. } => SmfMessage::NoteOff { channel, key: key.as_int() },
        midly::MidiMessage::ProgramChange { program } => SmfMessage::ProgramChange { channel, program: program.as_int() },
        midly::MidiMessage::Controller { controller, value } => SmfMessage::Controller { channel, controller: controller.as_int(), value: value.as_int() },
        _ => SmfMessage::OtherChannel { channel },
    })
}

/// The kind of one event of a `midly::Smf` that is no message of a
/// channel: track name, tempo and time signature with their fields, any
/// other as `Other`.
#[verifier::external_body]
fn meta_message_of(smf: &midly::Smf<'_>, track: usize, index: usize) -> (message: SmfMessage)
    requires
        track < smf_content(*smf).tracks.len(),
        index < smf_content(*smf).tracks[track as int].len(),
        !is_channel_message(smf_content(*smf).tracks[track as int][index as int].message),
    ensures
        message@ == smf_content(*smf).tracks[track as int][index as int].message,
{
    match smf.tracks[track][index].kind {
        midly::TrackEventKind::Meta(midly::MetaMessage::TrackName(name)) => SmfMessage::TrackName { name: name.to_vec() },
        midly::TrackEventKind::Meta(midly::MetaMessage::Tempo(micros)) => SmfMessage::Tempo { micros_per_beat: micros.as_int() },
        midly::TrackEventKind::Meta(midly::MetaMessage::TimeSignature(numerator, denominator_power, _, _)) => SmfMessage::TimeSignature { numerator, denominator_power },
        _ => SmfMessage::Other,
    }
}

/// Copies the events of one track of `smf` into plain values.
fn read_track(smf: &midly::Smf<'_>, track: usize) -> (events: Vec<SmfEvent>)
    requires
        track < smf_content(*smf).tracks.len(),
    ensures
        smf_event_views(events@) == smf_content(*smf).tracks[track as int],
{
    let count = event_count_of(smf, track);
    let ghost source = smf_content(*smf).tracks[track as int];
    let mut events: Vec<SmfEvent> = Vec::new();
    let mut i: usize = 0;
    while i < count
        invariant
            i <= count,
            count == source.len(),
            track < smf_content(*smf).tracks.len(),
            source == smf_content(*smf).tracks[track as int],
            events@.len() == i,
            smf_event_views(events@) == source.subrange(0, i as int),
        decreases count - i,
    {
        let delta = delta_of(smf, track, i);
        let message = match channel_message_of(smf, track, i) {
            Some(m) => m,
            None => meta_message_of(smf, track, i),
        };
        let ghost before = smf_event_views(events@);
        events.push(SmfEvent { delta, message });
        assert(smf_event_views(events@) =~= before.push(source[i as int]));
        assert(smf_event_views(events@) =~= source.subrange(0, i + 1));
        i += 1;
    }
    assert(source.subrange(0, i as int) =~= source);
    events
}

/// Copies format, timing and events of `smf` into plain values.
fn read_file(smf: &midly::Smf<'_>) -> (file: SmfFile)
    ensures
        file@ == smf_content(*smf),
{
    let format = format_of(smf);
    let timing = timing_of(smf);
    let count = track_count_of(smf);
    let ghost source = smf_content(*smf).tracks;
    let mut tracks: Vec<Vec<SmfEvent>> = Vec::new();
    let mut i: usize = 0;
    while i < count
        invariant
            i <= count,
            count == source.len(),
            source == smf_content(*smf).tracks,
            tracks@.len() == i,
            smf_track_views(tracks@) == source.subrange(0, i as int),
        decreases count - i,
    {
        let events = read_track(smf, i);
        let ghost before = smf_track_views(tracks@);
        tracks.push(events);
        assert(smf_track_views(tracks@) =~= before.push(source[i as int]));
        assert(smf_track_views(tracks@) =~= source.subrange(0, i + 1));
        i += 1;
    }
    assert(source.subrange(0, i as int) =~= source);
    SmfFile { format, timing, tracks }
}

/// Parses the bytes of a Standard MIDI File into its events. `Err` holds
/// the parser's message.
pub fn parse_smf(data: &[u8]) -> (parsed: Result<SmfFile, String>)
    ensures
        parsed.is_ok() == parsed_smf(data@).is_some(),
        parsed matches Ok(file) ==> Some(file@) == parsed_smf(data@),
{
    match parse_bytes(data) {
        Ok(smf) => Ok(read_file(&smf)),
        Err(error) => Err(error_text(&error)),
    }
}

} // verus!

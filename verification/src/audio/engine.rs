//! The transport, the commands that drive a synthesizer, and the cursor of
//! the audio producer.

use vstd::prelude::*;
use vstd::string::StringExecFns;
use crate::midi::track::Track;
use crate::text::{decimal_text, push_decimal};

verus! {

/// Sample rate of synthesis and export, in frames per second.
pub const SAMPLE_RATE: u32 = 44100;

/// Frames that the audio producer renders at a time.
pub const BUFFER_SIZE: usize = 256;

/// Programs of General MIDI.
pub const PROGRAM_COUNT: usize = 128;

/// Microseconds in which one tick passes at one beat per minute, divided
/// by 480: at `tempo` beats per minute, `tempo` ticks pass in this time.
pub const MICROS_PER_TICK_BEAT: u64 = 125_000;

/// The state of the transport.
#[derive(Debug, Clone, Copy, PartialEq, Eq, Structural)]
pub enum PlaybackState {
    /// Not playing; the position is at the start.
    Stopped,
    /// Playing.
    Playing,
    /// Halted at the current position.
    Paused,
}

/// A command for the synthesizer.
#[derive(Debug, Clone, Copy, PartialEq, Eq, Structural)]
pub enum SynthCommand {
    /// Start a voice.
    NoteOn { channel: u8, pitch: u8, velocity: u8 },
    /// Release a voice.
    NoteOff { channel: u8, pitch: u8 },
    /// Release every voice; cut it without a tail if `immediate`.
    AllNotesOff { immediate: bool },
    /// Take an instrument on a channel.
    SetProgram { channel: u8, program: u8 },
    /// Set the volume of a channel (controller 7).
    SetVolume { channel: u8, volume: u8 },
    /// Set the pan of a channel (controller 10).
    SetPan { channel: u8, pan: u8 },
}

/// State and position of playback.
#[derive(Debug, Clone, Copy, PartialEq, Eq, Structural)]
pub struct Transport {
    /// Stopped, playing or paused.
    pub playback_state: PlaybackState,
    /// Whether events are being dispatched.
    pub playing: bool,
    /// Position in ticks.
    pub position_ticks: u32,
    /// Tempo in beats per minute, as last set.
    pub tempo: u32,
}

/// Bank, program and name of a preset of a SoundFont.
#[derive(Debug)]
pub struct PresetInfo {
    pub bank: i32,
    pub patch: i32,
    pub name: String,
}

/// Where the audio producer stands in its buffers.
#[derive(Debug, Clone, Copy, PartialEq, Eq, Structural)]
pub struct FrameCursor {
    /// Frame within the buffers; `BUFFER_SIZE` when they are used up.
    pub buf_pos: usize,
    /// The channel that comes next: 0 left, 1 right.
    pub channel: usize,
}

/// Which sample the audio producer hands out next.
#[derive(Debug, Clone, Copy, PartialEq, Eq, Structural)]
pub struct SampleSlot {
    /// Frame within the buffers.
    pub frame: usize,
    /// From the left buffer if true, from the right one otherwise.
    pub left: bool,
}

/// Program, volume and pan of a track as commands for its channel.
pub open spec fn track_setup(channel: u8, program: u8, volume: u8, pan: u8) -> Seq<SynthCommand> {
    seq![
        SynthCommand::SetProgram { channel, program },
        SynthCommand::SetVolume { channel, volume },
        SynthCommand::SetPan { channel, pan },
    ]
}

/// Ticks that pass in `elapsed_micros` microseconds at `tempo` beats per
/// minute, 480 ticks to the beat, rounded down and held at the largest tick.
pub open spec fn ticks_in(elapsed_micros: u64, tempo: u32) -> u32 {
    let ticks = (elapsed_micros as int * tempo as int) / (MICROS_PER_TICK_BEAT as int);
    if ticks > u32::MAX {
        u32::MAX
    } else {
        ticks as u32
    }
}

/// The name of the last of the first `upto` presets that is in bank 0
/// with program `program`, if there is one.
pub open spec fn preset_name(presets: Seq<PresetInfo>, program: int, upto: int) -> Option<Seq<char>>
    decreases upto,
{
    if upto <= 0 {
        None
    } else if presets[upto - 1].bank == 0 && presets[upto - 1].patch == program {
        Some(presets[upto - 1].name@)
    } else {
        preset_name(presets, program, upto - 1)
    }
}

/// The name of program `program`: that of its preset in bank 0, or
/// "Program" and the number where the SoundFont has none.
pub open spec fn instrument_name(presets: Seq<PresetInfo>, program: int) -> Seq<char> {
    match preset_name(presets, program, presets.len() as int) {
        Some(name) => name,
        None => "Program "@ + decimal_text(program as nat),
    }
}

/// The setup commands of the first `upto` tracks, track by track.
pub open spec fn setup_all(tracks: Seq<crate::midi::track::TrackView>, upto: int) -> Seq<SynthCommand>
    decreases upto,
{
    if upto <= 0 {
        Seq::<SynthCommand>::empty()
    } else {
        let track = tracks[upto - 1];
        setup_all(tracks, upto - 1) + track_setup(
            track.channel,
            track.program,
            track.volume,
            track.pan,
        )
    }
}

/// The commands that set a synthesizer up for every track of `project`,
/// appended to `commands`.
pub fn configure_all(project: &crate::midi::project::Project, commands: &mut Vec<SynthCommand>)
    ensures
        final(commands)@ == old(commands)@ + setup_all(
            project@.tracks,
            project@.tracks.len() as int,
        ),
{
    let ghost views = project@.tracks;
    let mut i: usize = 0;
    assert(commands@ =~= old(commands)@ + setup_all(views, 0));
    while i < project.tracks.len()
        invariant
            i <= project.tracks@.len(),
            views == crate::midi::project::track_views(project.tracks@),
            commands@ == old(commands)@ + setup_all(views, i as int),
        decreases project.tracks@.len() - i,
    {
        let track = &project.tracks[i];
        assert(views[i as int] == track@);
        let ghost before = commands@;
        commands.push(SynthCommand::SetProgram { channel: track.channel, program: track.program });
        commands.push(SynthCommand::SetVolume { channel: track.channel, volume: track.volume });
        commands.push(SynthCommand::SetPan { channel: track.channel, pan: track.pan });
        assert(commands@ =~= before + track_setup(
            track.channel,
            track.program,
            track.volume,
            track.pan,
        ));
        assert(commands@ =~= old(commands)@ + setup_all(views, i + 1));
        i += 1;
    }
}

/// The commands that set a synthesizer up for `track`: program, volume, pan.
pub fn configure_track(track: &Track) -> (commands: Vec<SynthCommand>)
    ensures
        commands@ == track_setup(track.channel, track.program, track.volume, track.pan),
{
    let mut commands: Vec<SynthCommand> = Vec::with_capacity(3);
    commands.push(SynthCommand::SetProgram { channel: track.channel, program: track.program });
    commands.push(SynthCommand::SetVolume { channel: track.channel, volume: track.volume });
    commands.push(SynthCommand::SetPan { channel: track.channel, pan: track.pan });
    assert(commands@ =~= track_setup(track.channel, track.program, track.volume, track.pan));
    commands
}

/// Ticks that pass in `elapsed_micros` microseconds at `tempo` beats per
/// minute.
pub fn elapsed_ticks(elapsed_micros: u64, tempo: u32) -> (ticks: u32)
    ensures
        ticks == ticks_in(elapsed_micros, tempo),
{
    assert(elapsed_micros * tempo <= 0xFFFF_FFFF_FFFF_FFFF * 0xFFFF_FFFF) by (nonlinear_arith)
        requires
            0 <= elapsed_micros <= 0xFFFF_FFFF_FFFF_FFFF,
            0 <= tempo <= 0xFFFF_FFFF,
    ;
    let wide: u128 = elapsed_micros as u128 * tempo as u128 / (MICROS_PER_TICK_BEAT as u128);
    if wide > u32::MAX as u128 {
        u32::MAX
    } else {
        wide as u32
    }
}

/// The names of the 128 programs: for each the name of its preset in bank
/// 0, the last one if there are several, or "Program" and the number.
pub fn instrument_names(presets: &Vec<PresetInfo>) -> (names: Vec<String>)
    ensures
        names@.len() == PROGRAM_COUNT,
        forall|p: int| 0 <= p < PROGRAM_COUNT ==> (#[trigger] names@[p])@ == instrument_name(presets@, p),
{
    let mut names: Vec<String> = Vec::with_capacity(PROGRAM_COUNT);
    let mut program: usize = 0;
    while program < PROGRAM_COUNT
        invariant
            program <= PROGRAM_COUNT,
            names@.len() == program,
            forall|p: int| 0 <= p < program ==> (#[trigger] names@[p])@ == instrument_name(presets@, p),
        decreases PROGRAM_COUNT - program,
    {
        let mut found: Option<usize> = None;
        let mut i: usize = 0;
        while i < presets.len()
            invariant
                i <= presets@.len(),
                program < PROGRAM_COUNT,
                match found {
                    Some(k) => k < i && preset_name(presets@, program as int, i as int) == Some(
                        presets@[k as int].name@,
                    ),
                    None => preset_name(presets@, program as int, i as int).is_none(),
                },
            decreases presets@.len() - i,
        {
            if presets[i].bank == 0 && presets[i].patch == program as i32 {
                found = Some(i);
            }
            i += 1;
        }
        let name = match found {
            Some(k) => presets[k].name.clone(),
            None => {
                let mut fallback = String::from_str("Program ");
                push_decimal(program as u64, &mut fallback);
                fallback
            },
        };
        names.push(name);
        program += 1;
    }
    names
}

impl Transport {
    /// A stopped transport at tick 0 and 120 beats per minute.
    pub fn new() -> (transport: Self)
        ensures
            transport == (Transport {
                playback_state: PlaybackState::Stopped,
                playing: false,
                position_ticks: 0,
                tempo: 120,
            }),
    {
        Transport {
            playback_state: PlaybackState::Stopped,
            playing: false,
            position_ticks: 0,
            tempo: 120,
        }
    }

    /// Stopped, playing or paused.
    pub fn playback_state(&self) -> (state: PlaybackState)
        ensures
            state == self.playback_state,
    {
        self.playback_state
    }

    /// Whether events are being dispatched.
    pub fn is_playing(&self) -> (playing: bool)
        ensures
            playing == self.playing,
    {
        self.playing
    }

    /// Starts or halts dispatch: the state becomes `Playing` or `Paused`.
    pub fn set_playing(&mut self, playing: bool)
        ensures
            *final(self) == (Transport {
                playing,
                playback_state: if playing {
                    PlaybackState::Playing
                } else {
                    PlaybackState::Paused
                },
                ..*old(self)
            }),
    {
        self.playing = playing;
        self.playback_state = if playing {
            PlaybackState::Playing
        } else {
            PlaybackState::Paused
        };
    }

    /// Stops: the state becomes `Stopped`, the position 0. Returns the
    /// command that cuts every voice.
    pub fn stop(&mut self) -> (command: SynthCommand)
        ensures
            *final(self) == (Transport {
                playing: false,
                playback_state: PlaybackState::Stopped,
                position_ticks: 0,
                ..*old(self)
            }),
            command == (SynthCommand::AllNotesOff { immediate: true }),
    {
        self.playing = false;
        self.position_ticks = 0;
        self.playback_state = PlaybackState::Stopped;
        SynthCommand::AllNotesOff { immediate: true }
    }

    /// Position in ticks.
    pub fn position_ticks(&self) -> (ticks: u32)
        ensures
            ticks == self.position_ticks,
    {
        self.position_ticks
    }

    /// Sets the position.
    pub fn set_position_ticks(&mut self, ticks: u32)
        ensures
            *final(self) == (Transport { position_ticks: ticks, ..*old(self) }),
    {
        self.position_ticks = ticks;
    }

    /// Sets the tempo.
    pub fn set_tempo(&mut self, tempo: u32)
        ensures
            *final(self) == (Transport { tempo, ..*old(self) }),
    {
        self.tempo = tempo;
    }

    /// Tempo in beats per minute, as last set.
    pub fn tempo(&self) -> (tempo: u32)
        ensures
            tempo == self.tempo,
    {
        self.tempo
    }
}

impl FrameCursor {
    /// The cursor stands on a frame, or just behind the buffers, and on
    /// one of the two channels.
    pub open spec fn is_valid(&self) -> bool {
        self.buf_pos <= BUFFER_SIZE && self.channel <= 1
    }

    /// A cursor behind the buffers, so that the first sample asks for a
    /// refill, with the left channel next.
    pub fn new() -> (cursor: Self)
        ensures
            cursor == (FrameCursor { buf_pos: BUFFER_SIZE, channel: 0 }),
            cursor.is_valid(),
    {
        FrameCursor { buf_pos: BUFFER_SIZE, channel: 0 }
    }

    /// Whether the buffers are used up and have to be rendered anew
    /// before the next sample.
    pub fn needs_refill(&self) -> (needed: bool)
        ensures
            needed == (self.buf_pos >= BUFFER_SIZE),
    {
        self.buf_pos >= BUFFER_SIZE
    }

    /// Puts the cursor on the first frame of buffers that were just filled.
    pub fn refilled(&mut self)
        ensures
            *final(self) == (FrameCursor { buf_pos: 0, ..*old(self) }),
    {
        self.buf_pos = 0;
    }

    /// The slot of the next sample, and the cursor moved on: left then
    /// right of one frame, then the next frame.
    pub fn advance(&mut self) -> (slot: SampleSlot)
        requires
            old(self).is_valid(),
            old(self).buf_pos < BUFFER_SIZE,
        ensures
            slot == (SampleSlot { frame: old(self).buf_pos, left: old(self).channel == 0 }),
            slot.frame < BUFFER_SIZE,
            final(self).channel == 1 - old(self).channel,
            final(self).buf_pos == (if old(self).channel == 1 {
                old(self).buf_pos + 1
            } else {
                old(self).buf_pos as int
            }),
            final(self).is_valid(),
    {
        let slot = SampleSlot { frame: self.buf_pos, left: self.channel == 0 };
        self.channel = 1 - self.channel;
        if self.channel == 0 {
            self.buf_pos = self.buf_pos + 1;
        }
        slot
    }
}

/// Status of a note-off message.
pub const NOTE_OFF_STATUS: u8 = 0x80;

/// Status of a note-on message.
pub const NOTE_ON_STATUS: u8 = 0x90;

/// Status of a controller message.
pub const CONTROLLER_STATUS: u8 = 0xB0;

/// Status of a program change.
pub const PROGRAM_STATUS: u8 = 0xC0;

/// Number of the controller for the volume of a channel.
pub const VOLUME_CONTROLLER: u8 = 7;

/// Number of the controller for the pan of a channel.
pub const PAN_CONTROLLER: u8 = 10;

/// A MIDI message to a channel: the status without the channel, and
/// two bytes of data.
#[derive(Debug, Clone, Copy, PartialEq, Eq, Structural)]
pub struct ChannelMessage {
    pub channel: u8,
    pub status: u8,
    pub data1: u8,
    pub data2: u8,
}

/// The MIDI message that carries `command` to a synthesizer. A note-off
/// has velocity 0, volume is controller 7 and pan controller 10. The
/// command that releases every voice is no message to a channel.
pub open spec fn message_of(command: SynthCommand) -> Option<ChannelMessage> {
    match command {
        SynthCommand::NoteOn { channel, pitch, velocity } => Some(
            ChannelMessage { channel, status: NOTE_ON_STATUS, data1: pitch, data2: velocity },
        ),
        SynthCommand::NoteOff { channel, pitch } => Some(
            ChannelMessage { channel, status: NOTE_OFF_STATUS, data1: pitch, data2: 0 },
        ),
        SynthCommand::AllNotesOff { .. } => None,
        SynthCommand::SetProgram { channel, program } => Some(
            ChannelMessage { channel, status: PROGRAM_STATUS, data1: program, data2: 0 },
        ),
        SynthCommand::SetVolume { channel, volume } => Some(
            ChannelMessage {
                channel,
                status: CONTROLLER_STATUS,
                data1: VOLUME_CONTROLLER,
                data2: volume,
            },
        ),
        SynthCommand::SetPan { channel, pan } => Some(
            ChannelMessage { channel, status: CONTROLLER_STATUS, data1: PAN_CONTROLLER, data2: pan },
        ),
    }
}

impl SynthCommand {
    /// The MIDI message that carries the command to a synthesizer, if
    /// it is a message to a channel.
    pub fn midi_message(&self) -> (message: Option<ChannelMessage>)
        ensures
            message == message_of(*self),
    {
        match *self {
            SynthCommand::NoteOn { channel, pitch, velocity } => Some(
                ChannelMessage { channel, status: NOTE_ON_STATUS, data1: pitch, data2: velocity },
            ),
            SynthCommand::NoteOff { channel, pitch } => Some(
                ChannelMessage { channel, status: NOTE_OFF_STATUS, data1: pitch, data2: 0 },
            ),
            SynthCommand::AllNotesOff { .. } => None,
            SynthCommand::SetProgram { channel, program } => Some(
                ChannelMessage { channel, status: PROGRAM_STATUS, data1: program, data2: 0 },
            ),
            SynthCommand::SetVolume { channel, volume } => Some(
                ChannelMessage {
                    channel,
                    status: CONTROLLER_STATUS,
                    data1: VOLUME_CONTROLLER,
                    data2: volume,
                },
            ),
            SynthCommand::SetPan { channel, pan } => Some(
                ChannelMessage {
                    channel,
                    status: CONTROLLER_STATUS,
                    data1: PAN_CONTROLLER,
                    data2: pan,
                },
            ),
        }
    }
}

/// The first microsecond of playback at which `ticks` ticks have
/// passed at `tempo` beats per minute.
pub open spec fn micros_until(ticks: u32, tempo: u32) -> int
    recommends
        tempo > 0,
{
    (ticks * MICROS_PER_TICK_BEAT + tempo - 1) / (tempo as int)
}

/// A tick is reached at its time and not before: after
/// `micros_until(ticks, tempo)` microseconds just `ticks` ticks have
/// passed, and a microsecond earlier fewer.
pub proof fn lemma_tick_reached(ticks: u32, tempo: u32)
    requires
        0 < tempo <= MICROS_PER_TICK_BEAT,
    ensures
        0 <= micros_until(ticks, tempo) <= u64::MAX,
        ticks_in(micros_until(ticks, tempo) as u64, tempo) == ticks,
        micros_until(ticks, tempo) > 0 ==> ticks_in((micros_until(ticks, tempo) - 1) as u64, tempo)
            < ticks,
{
    let unit = MICROS_PER_TICK_BEAT as int;
    let t = ticks as int;
    let b = tempo as int;
    let m = micros_until(ticks, tempo);
    let top = t * unit + b - 1;
    vstd::arithmetic::div_mod::lemma_fundamental_div_mod(top, b);
    let r = top % b;
    assert(top == b * m + r && 0 <= r < b);
    assert(0 <= t * unit <= 0xFFFF_FFFF * 125_000) by (nonlinear_arith)
        requires
            0 <= t <= 0xFFFF_FFFF,
            unit == 125_000,
    ;
    assert(m >= 0 && m <= top) by (nonlinear_arith)
        requires
            top == b * m + r,
            0 <= r < b,
            top >= 0,
            b >= 1,
    ;
    // t * unit <= m * b < t * unit + b
    assert(m * b == b * m) by (nonlinear_arith);
    assert(t * unit <= m * b && m * b < t * unit + b);
    // At m microseconds: floor(m * b / unit) == t.
    vstd::arithmetic::div_mod::lemma_fundamental_div_mod(m * b, unit);
    let q = (m * b) / unit;
    let s = (m * b) % unit;
    assert(m * b == unit * q + s && 0 <= s < unit);
    assert(q == t) by (nonlinear_arith)
        requires
            m * b == unit * q + s,
            0 <= s < unit,
            t * unit <= m * b,
            m * b < t * unit + b,
            b <= unit,
            unit > 0,
    ;
    if m > 0 {
        let before = (m - 1) * b;
        assert(before == m * b - b) by (nonlinear_arith)
            requires
                before == (m - 1) * b,
        ;
        assert(before < t * unit);
        assert(before >= 0) by (nonlinear_arith)
            requires
                before == (m - 1) * b,
                m >= 1,
                b >= 1,
        ;
        vstd::arithmetic::div_mod::lemma_fundamental_div_mod(before, unit);
        let q2 = before / unit;
        let s2 = before % unit;
        assert(q2 < t) by (nonlinear_arith)
            requires
                before == unit * q2 + s2,
                0 <= s2 < unit,
                before < t * unit,
                unit > 0,
        ;
    }
}

/// The first microsecond of playback at which `ticks` ticks have
/// passed at `tempo` beats per minute.
pub fn ticks_to_micros(ticks: u32, tempo: u32) -> (micros: u64)
    requires
        tempo > 0,
    ensures
        micros == micros_until(ticks, tempo),
{
    assert(ticks * MICROS_PER_TICK_BEAT <= 0xFFFF_FFFF * 125_000) by (nonlinear_arith)
        requires
            0 <= ticks <= 0xFFFF_FFFF,
            MICROS_PER_TICK_BEAT == 125_000,
    ;
    (ticks as u64 * MICROS_PER_TICK_BEAT + tempo as u64 - 1) / tempo as u64
}

impl crate::midi::project::Project {
    /// The time that the project takes at its tempo, in microseconds:
    /// the first microsecond at which its last note has ended.
    pub fn duration_micros(&self) -> (micros: u64)
        requires
            self.tempo > 0,
        ensures
            micros == micros_until(crate::midi::project::max_track_end(self@.tracks), self.tempo),
    {
        ticks_to_micros(self.duration_ticks(), self.tempo)
    }
}

} // verus!

//! The plan of an offline render: which events go to the synthesizer, in
//! what order and before which chunk of samples.
//!
//! The samples themselves are made and written outside this library.

use vstd::prelude::*;
use super::engine::{SynthCommand, track_setup};
use crate::midi::note::Note;
use crate::midi::order::{as_ints, sort_order, stable_order};
use crate::midi::project::{Project, any_solo, plays, track_views};
use crate::midi::track::{Track, TrackView};

verus! {

/// Frames rendered at a time.
pub const RENDER_BUFFER_SIZE: usize = 4096;

/// Seconds rendered behind the last note, for its release.
pub const RELEASE_TAIL_SECONDS: u64 = 2;

/// A note-on or note-off of a render.
#[derive(Debug, Clone, Copy, PartialEq, Eq, Structural)]
pub struct RenderEvent {
    /// Tick of the event.
    pub tick: u32,
    /// Note-on if true, note-off otherwise.
    pub is_note_on: bool,
    /// Channel of the track.
    pub channel: u8,
    /// Pitch of the note.
    pub pitch: u8,
    /// Velocity of a note-on; 0 for a note-off.
    pub velocity: u8,
}

/// The note-on and note-off of one note on `channel`.
pub open spec fn note_render(note: Note, channel: u8) -> Seq<RenderEvent> {
    seq![
        RenderEvent {
            tick: note.start_tick,
            is_note_on: true,
            channel,
            pitch: note.pitch,
            velocity: note.velocity,
        },
        RenderEvent {
            tick: note.spec_end_tick(),
            is_note_on: false,
            channel,
            pitch: note.pitch,
            velocity: 0,
        },
    ]
}

/// The events of the first `upto` notes, note by note.
pub open spec fn notes_render(notes: Seq<Note>, channel: u8, upto: int) -> Seq<RenderEvent>
    decreases upto,
{
    if upto <= 0 {
        Seq::<RenderEvent>::empty()
    } else {
        notes_render(notes, channel, upto - 1) + note_render(notes[upto - 1], channel)
    }
}

/// The events of the first `upto` tracks, track by track; a track that is
/// not played gives none.
pub open spec fn tracks_render(tracks: Seq<TrackView>, some_solo: bool, upto: int) -> Seq<RenderEvent>
    decreases upto,
{
    if upto <= 0 {
        Seq::<RenderEvent>::empty()
    } else {
        let track = tracks[upto - 1];
        let before = tracks_render(tracks, some_solo, upto - 1);
        if plays(track, some_solo) {
            before + notes_render(track.notes, track.channel, track.notes.len() as int)
        } else {
            before
        }
    }
}

/// The sort key of an event: its tick, a note-off before a note-on.
pub open spec fn render_key(event: RenderEvent) -> u64 {
    (event.tick * 2 + (if event.is_note_on {
        1int
    } else {
        0int
    })) as u64
}

/// The sort keys of `events`, in order.
pub open spec fn render_keys(events: Seq<RenderEvent>) -> Seq<u64> {
    events.map_values(|e: RenderEvent| render_key(e))
}

/// `events` in order of tick, note-offs of a tick before its note-ons,
/// events equal in both as they were listed.
pub open spec fn in_render_order(events: Seq<RenderEvent>) -> Seq<RenderEvent> {
    Seq::new(events.len(), |k: int| events[stable_order(render_keys(events))[k]])
}

/// The events of a render of `tracks`: those of the played tracks, in
/// render order.
pub open spec fn render_plan(tracks: Seq<TrackView>) -> Seq<RenderEvent> {
    in_render_order(tracks_render(tracks, any_solo(tracks), tracks.len() as int))
}

/// The setup commands of the first `upto` tracks; a track that is not
/// played gives none.
pub open spec fn tracks_setup(tracks: Seq<TrackView>, some_solo: bool, upto: int) -> Seq<SynthCommand>
    decreases upto,
{
    if upto <= 0 {
        Seq::<SynthCommand>::empty()
    } else {
        let track = tracks[upto - 1];
        let before = tracks_setup(tracks, some_solo, upto - 1);
        if plays(track, some_solo) {
            before + track_setup(track.channel, track.program, track.volume, track.pan)
        } else {
            before
        }
    }
}

/// Samples of a render: those of `duration_ticks` ticks at `tempo` beats
/// per minute, rounded down, and two seconds more.
pub open spec fn samples_of(duration_ticks: u32, tempo: u32, sample_rate: u32) -> int
    recommends
        tempo > 0,
{
    (duration_ticks as int * sample_rate as int) / (tempo as int * 8) + RELEASE_TAIL_SECONDS
        * sample_rate
}

/// The tick in which sample `sample` lies, held at the largest tick.
pub open spec fn tick_of_sample(sample: u64, tempo: u32, sample_rate: u32) -> u32
    recommends
        sample_rate > 0,
{
    let tick = (sample as int * tempo as int * 8) / (sample_rate as int);
    if tick > u32::MAX {
        u32::MAX
    } else {
        tick as u32
    }
}

/// Index behind the events from `from` on that lie at or before `tick`,
/// up to the first that lies later.
pub open spec fn due_end(events: Seq<RenderEvent>, from: int, tick: u32) -> int
    decreases events.len() - from,
{
    if 0 <= from < events.len() && events[from].tick <= tick {
        due_end(events, from + 1, tick)
    } else {
        from
    }
}

/// The events of `track`, appended to `events`.
fn push_track_events(track: &Track, events: &mut Vec<RenderEvent>)
    ensures
        final(events)@ == old(events)@ + notes_render(
            track@.notes,
            track.channel,
            track@.notes.len() as int,
        ),
{
    let notes = track.notes();
    let channel = track.channel;
    let mut i: usize = 0;
    assert(events@ =~= old(events)@ + notes_render(notes@, channel, 0));
    while i < notes.len()
        invariant
            i <= notes@.len(),
            events@ == old(events)@ + notes_render(notes@, channel, i as int),
        decreases notes@.len() - i,
    {
        let note = notes[i];
        let ghost before = events@;
        events.push(
            RenderEvent {
                tick: note.start_tick,
                is_note_on: true,
                channel,
                pitch: note.pitch,
                velocity: note.velocity,
            },
        );
        events.push(
            RenderEvent {
                tick: note.end_tick(),
                is_note_on: false,
                channel,
                pitch: note.pitch,
                velocity: 0,
            },
        );
        assert(events@ =~= before + note_render(note, channel));
        assert(events@ =~= old(events)@ + notes_render(notes@, channel, i + 1));
        i += 1;
    }
}

/// The note-ons and note-offs of the played tracks, in order of tick, the
/// note-offs of a tick before its note-ons.
pub fn render_events(project: &Project) -> (events: Vec<RenderEvent>)
    ensures
        events@ == render_plan(project@.tracks),
{
    let some_solo = project.has_solo();
    let ghost views = project@.tracks;
    let mut raw: Vec<RenderEvent> = Vec::new();
    let mut i: usize = 0;
    while i < project.tracks.len()
        invariant
            i <= project.tracks@.len(),
            views == track_views(project.tracks@),
            some_solo == any_solo(views),
            raw@ == tracks_render(views, some_solo, i as int),
        decreases project.tracks@.len() - i,
    {
        let track = &project.tracks[i];
        assert(views[i as int] == track@);
        let played = if some_solo {
            track.solo && !track.muted
        } else {
            !track.muted
        };
        if played {
            push_track_events(track, &mut raw);
        }
        i += 1;
    }
    let mut keys: Vec<u64> = Vec::with_capacity(raw.len());
    let mut j: usize = 0;
    while j < raw.len()
        invariant
            j <= raw@.len(),
            keys@ == render_keys(raw@.subrange(0, j as int)),
        decreases raw@.len() - j,
    {
        let event = raw[j];
        let key: u64 = event.tick as u64 * 2 + if event.is_note_on {
            1
        } else {
            0
        };
        keys.push(key);
        assert(keys@ =~= render_keys(raw@.subrange(0, j + 1)));
        j += 1;
    }
    assert(raw@.subrange(0, j as int) =~= raw@);
    let order = sort_order(&keys);
    let mut events: Vec<RenderEvent> = Vec::with_capacity(raw.len());
    let mut k: usize = 0;
    while k < order.len()
        invariant
            k <= order@.len(),
            order@.len() == raw@.len(),
            as_ints(order@) == stable_order(render_keys(raw@)),
            forall|n: int| 0 <= n < order@.len() ==> (#[trigger] order@[n]) < raw@.len(),
            events@ == in_render_order(raw@).subrange(0, k as int),
        decreases order@.len() - k,
    {
        let index = order[k];
        assert(as_ints(order@)[k as int] == index as int);
        events.push(raw[index]);
        assert(events@ =~= in_render_order(raw@).subrange(0, k + 1));
        k += 1;
    }
    assert(in_render_order(raw@).subrange(0, k as int) =~= in_render_order(raw@));
    events
}

/// The commands that set a synthesizer up for a render: program, volume
/// and pan of every played track.
pub fn setup_commands(project: &Project) -> (commands: Vec<SynthCommand>)
    ensures
        commands@ == tracks_setup(
            project@.tracks,
            any_solo(project@.tracks),
            project@.tracks.len() as int,
        ),
{
    let some_solo = project.has_solo();
    let ghost views = project@.tracks;
    let mut commands: Vec<SynthCommand> = Vec::new();
    let mut i: usize = 0;
    while i < project.tracks.len()
        invariant
            i <= project.tracks@.len(),
            views == track_views(project.tracks@),
            some_solo == any_solo(views),
            commands@ == tracks_setup(views, some_solo, i as int),
        decreases project.tracks@.len() - i,
    {
        let track = &project.tracks[i];
        assert(views[i as int] == track@);
        let played = if some_solo {
            track.solo && !track.muted
        } else {
            !track.muted
        };
        if played {
            let ghost before = commands@;
            commands.push(SynthCommand::SetProgram { channel: track.channel, program: track.program });
            commands.push(SynthCommand::SetVolume { channel: track.channel, volume: track.volume });
            commands.push(SynthCommand::SetPan { channel: track.channel, pan: track.pan });
            assert(commands@ =~= before + track_setup(
                track.channel,
                track.program,
                track.volume,
                track.pan,
            ));
        }
        i += 1;
    }
    commands
}

/// Samples of a render of `duration_ticks` ticks at `tempo` beats per
/// minute, the release tail included.
pub fn total_samples(duration_ticks: u32, tempo: u32, sample_rate: u32) -> (samples: u64)
    requires
        tempo > 0,
    ensures
        samples == samples_of(duration_ticks, tempo, sample_rate),
{
    assert(duration_ticks * sample_rate <= 0xFFFF_FFFF * 0xFFFF_FFFF) by (nonlinear_arith)
        requires
            0 <= duration_ticks <= 0xFFFF_FFFF,
            0 <= sample_rate <= 0xFFFF_FFFF,
    ;
    let played: u64 = duration_ticks as u64 * sample_rate as u64 / (tempo as u64 * 8);
    assert(played <= 0xFFFF_FFFF * 0xFFFF_FFFF) by {
        vstd::arithmetic::div_mod::lemma_div_is_ordered_by_denominator(
            duration_ticks as int * sample_rate as int,
            1,
            tempo as int * 8,
        );
    }
    played + RELEASE_TAIL_SECONDS * sample_rate as u64
}

/// The tick in which sample `sample` lies.
pub fn tick_at_sample(sample: u64, tempo: u32, sample_rate: u32) -> (tick: u32)
    requires
        sample_rate > 0,
    ensures
        tick == tick_of_sample(sample, tempo, sample_rate),
{
    assert(sample * tempo * 8 <= 0xFFFF_FFFF_FFFF_FFFF * 0xFFFF_FFFF * 8) by (nonlinear_arith)
        requires
            0 <= sample <= 0xFFFF_FFFF_FFFF_FFFF,
            0 <= tempo <= 0xFFFF_FFFF,
    ;
    let wide: u128 = sample as u128 * tempo as u128 * 8 / (sample_rate as u128);
    if wide > u32::MAX as u128 {
        u32::MAX
    } else {
        wide as u32
    }
}

/// Index behind the events from `from` on that are to be sent before the
/// chunk that begins in tick `tick`: those that lie at or before it.
pub fn events_due(events: &Vec<RenderEvent>, from: usize, tick: u32) -> (end: usize)
    requires
        from <= events@.len(),
    ensures
        end == due_end(events@, from as int, tick),
        from <= end <= events@.len(),
{
    let mut end: usize = from;
    while end < events.len() && events[end].tick <= tick
        invariant
            from <= end <= events@.len(),
            due_end(events@, from as int, tick) == due_end(events@, end as int, tick),
        decreases events@.len() - end,
    {
        end += 1;
    }
    end
}

/// Frames of the next chunk when `done` of `total` samples are rendered:
/// what is left, but no more than a buffer holds.
pub fn chunk_frames(done: u64, total: u64) -> (frames: usize)
    ensures
        frames == (if done >= total {
            0
        } else if total - done > RENDER_BUFFER_SIZE {
            RENDER_BUFFER_SIZE as int
        } else {
            total - done
        }),
{
    if done >= total {
        0
    } else if total - done > RENDER_BUFFER_SIZE as u64 {
        RENDER_BUFFER_SIZE
    } else {
        (total - done) as usize
    }
}

/// No event of the notes of a track lies behind the latest end of its
/// notes.
pub proof fn lemma_notes_render_ends(notes: Seq<Note>, channel: u8, upto: int)
    requires
        0 <= upto <= notes.len(),
    ensures
        notes_render(notes, channel, upto).len() == 2 * upto,
        forall|k: int| 0 <= k < 2 * upto ==> (#[trigger] notes_render(notes, channel, upto)[k]).tick
            <= crate::midi::track::max_end_tick(notes),
    decreases upto,
{
    if upto > 0 {
        lemma_notes_render_ends(notes, channel, upto - 1);
        crate::midi::track::lemma_max_end_tick(notes);
        let before = notes_render(notes, channel, upto - 1);
        let here = note_render(notes[upto - 1], channel);
        let all = notes_render(notes, channel, upto);
        assert(all == before + here);
        assert(notes[upto - 1].start_tick <= notes[upto - 1].spec_end_tick());
        assert forall|k: int| 0 <= k < 2 * upto implies (#[trigger] all[k]).tick
            <= crate::midi::track::max_end_tick(notes) by {
            if k < before.len() {
                assert(all[k] == before[k]);
            } else {
                assert(all[k] == here[k - before.len()]);
            }
        }
    }
}

/// No event of the tracks lies behind the latest end of a note.
pub proof fn lemma_tracks_render_ends(tracks: Seq<TrackView>, some_solo: bool, upto: int)
    requires
        0 <= upto <= tracks.len(),
    ensures
        forall|k: int|
            0 <= k < tracks_render(tracks, some_solo, upto).len() ==> (#[trigger] tracks_render(
                tracks,
                some_solo,
                upto,
            )[k]).tick <= crate::midi::project::max_track_end(tracks),
    decreases upto,
{
    if upto > 0 {
        lemma_tracks_render_ends(tracks, some_solo, upto - 1);
        let track = tracks[upto - 1];
        let before = tracks_render(tracks, some_solo, upto - 1);
        let all = tracks_render(tracks, some_solo, upto);
        if plays(track, some_solo) {
            let here = notes_render(track.notes, track.channel, track.notes.len() as int);
            lemma_notes_render_ends(track.notes, track.channel, track.notes.len() as int);
            crate::midi::project::lemma_max_track_end(tracks);
            assert(all == before + here);
            assert forall|k: int| 0 <= k < all.len() implies (#[trigger] all[k]).tick
                <= crate::midi::project::max_track_end(tracks) by {
                if k < before.len() {
                    assert(all[k] == before[k]);
                } else {
                    assert(all[k] == here[k - before.len()]);
                }
            }
        }
    }
}

/// Events that all lie at or before `tick` are all due at `tick`.
pub proof fn lemma_all_due(events: Seq<RenderEvent>, from: int, tick: u32)
    requires
        0 <= from <= events.len(),
        forall|k: int| 0 <= k < events.len() ==> (#[trigger] events[k]).tick <= tick,
    ensures
        due_end(events, from, tick) == events.len(),
    decreases events.len() - from,
{
    if from < events.len() {
        lemma_all_due(events, from + 1, tick);
    }
}

/// The last chunk of a render lies behind every note: the first sample
/// of a chunk that reaches the end of the render lies in a tick at or
/// behind the end of the project, at any sample rate of 2049 or more.
pub proof fn lemma_last_chunk_is_late(duration_ticks: u32, tempo: u32, sample_rate: u32, done: u64)
    requires
        tempo > 0,
        sample_rate >= 2049,
        done + RENDER_BUFFER_SIZE >= samples_of(duration_ticks, tempo, sample_rate),
    ensures
        tick_of_sample(done, tempo, sample_rate) >= duration_ticks,
{
    let d = duration_ticks as int;
    let r = sample_rate as int;
    let b = tempo as int * 8;
    let s = done as int;
    let whole = (d * r) / b;
    vstd::arithmetic::div_mod::lemma_fundamental_div_mod(d * r, b);
    let rest = (d * r) % b;
    assert(d * r == b * whole + rest && 0 <= rest < b);
    assert(s >= whole + 2 * r - 4096);
    assert(s * b >= d * r) by (nonlinear_arith)
        requires
            d * r == b * whole + rest,
            0 <= rest < b,
            s >= whole + 2 * r - 4096,
            r >= 2049,
            b >= 8,
    ;
    assert(s * tempo * 8 == s * b) by (nonlinear_arith)
        requires
            b == tempo * 8,
    ;
    vstd::arithmetic::div_mod::lemma_fundamental_div_mod(s * b, r);
    let q = (s * b) / r;
    let m = (s * b) % r;
    assert(q >= d) by (nonlinear_arith)
        requires
            s * b == r * q + m,
            0 <= m < r,
            s * b >= d * r,
            r > 0,
    ;
}

/// Before the last chunk of a render every event that is left is sent:
/// at the first sample of a chunk that reaches the end of the render,
/// every event of the plan is due.
pub proof fn lemma_render_sends_all(
    tracks: Seq<TrackView>,
    tempo: u32,
    sample_rate: u32,
    done: u64,
    from: int,
)
    requires
        tempo > 0,
        sample_rate >= 2049,
        0 <= from <= render_plan(tracks).len(),
        done + RENDER_BUFFER_SIZE >= samples_of(
            crate::midi::project::max_track_end(tracks),
            tempo,
            sample_rate,
        ),
    ensures
        due_end(render_plan(tracks), from, tick_of_sample(done, tempo, sample_rate)) == render_plan(
            tracks,
        ).len(),
{
    let end = crate::midi::project::max_track_end(tracks);
    let raw = tracks_render(tracks, any_solo(tracks), tracks.len() as int);
    let plan = render_plan(tracks);
    let tick = tick_of_sample(done, tempo, sample_rate);
    lemma_last_chunk_is_late(end, tempo, sample_rate, done);
    lemma_tracks_render_ends(tracks, any_solo(tracks), tracks.len() as int);
    crate::midi::order::lemma_stable_order(render_keys(raw));
    assert forall|k: int| 0 <= k < plan.len() implies (#[trigger] plan[k]).tick <= tick by {
        let at = stable_order(render_keys(raw))[k];
        assert(plan[k] == raw[at]);
    }
    lemma_all_due(plan, from, tick);
}

} // verus!

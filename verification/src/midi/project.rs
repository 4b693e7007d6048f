//! A project: tracks, tempo, time signature and the SoundFont it is played with.

use vstd::prelude::*;
use super::ids::{IdAllocator, NoteId, TrackId, next_counter};
use super::note::{Note, min_u8};
use super::track::{
    Track, TrackView, has_id, index_of_id, max_end_tick, CENTER_PAN, DEFAULT_VOLUME, DRUM_CHANNEL,
    MAX_CHANNEL,
};
use super::{DEFAULT_TEMPO, TICKS_PER_BEAT};

verus! {

/// Slowest tempo of a valid project, in beats per minute.
pub const MIN_TEMPO: u32 = 20;

/// Fastest tempo of a valid project, in beats per minute.
pub const MAX_TEMPO: u32 = 300;

/// Largest time-signature numerator of a valid project.
pub const MAX_NUMERATOR: u8 = 16;

/// A whole composition.
#[derive(Debug)]
pub struct Project {
    /// Name of the project.
    pub name: String,
    /// Tempo in beats per minute.
    pub tempo: u32,
    /// Beats per measure.
    pub time_sig_numerator: u8,
    /// Beat unit: 4 is a quarter note, 8 an eighth.
    pub time_sig_denominator: u8,
    /// The tracks, in display order.
    pub tracks: Vec<Track>,
    /// Channel that the next melodic track will get.
    pub next_channel: u8,
    /// Path of the SoundFont used for playback, if one is set.
    pub soundfont_path: Option<String>,
}

/// What a project holds, as mathematical values.
pub struct ProjectView {
    pub name: Seq<char>,
    pub tempo: u32,
    pub time_sig_numerator: u8,
    pub time_sig_denominator: u8,
    pub tracks: Seq<TrackView>,
    pub next_channel: u8,
    pub soundfont_path: Option<Seq<char>>,
}

/// The views of the tracks of `s`, in order.
pub open spec fn track_views(s: Seq<Track>) -> Seq<TrackView> {
    s.map_values(|t: Track| t@)
}

/// The view of an optional string.
pub open spec fn text_view(s: Option<String>) -> Option<Seq<char>> {
    match s {
        Some(text) => Some(text@),
        None => None,
    }
}

/// The denominator is a power of two from 1 to 32.
pub open spec fn is_beat_unit(denominator: u8) -> bool {
    denominator == 1 || denominator == 2 || denominator == 4 || denominator == 8 || denominator
        == 16 || denominator == 32
}

/// Ticks in one measure of a `numerator`/`denominator` signature.
pub open spec fn measure_ticks(numerator: u8, denominator: u8) -> int
    recommends
        denominator > 0,
{
    (TICKS_PER_BEAT * 4) / (denominator as int) * numerator
}

/// The channel handed out after `channel`: the next one, passing over the
/// drum channel and starting again at 0 after 15.
pub open spec fn following_channel(channel: u8) -> u8 {
    if channel == 8 {
        10
    } else if channel >= 15 {
        0
    } else {
        (channel + 1) as u8
    }
}

/// Some track is solo.
pub open spec fn any_solo(tracks: Seq<TrackView>) -> bool {
    exists|i: int| 0 <= i < tracks.len() && (#[trigger] tracks[i]).solo
}

/// Solo and mute arbitration for one track: while some track is solo, a
/// track plays if it is solo and not muted; otherwise if it is not muted.
pub open spec fn plays(track: TrackView, some_solo: bool) -> bool {
    if some_solo {
        track.solo && !track.muted
    } else {
        !track.muted
    }
}

/// The tracks of `tracks` that are played, in order.
pub open spec fn playable(tracks: Seq<TrackView>) -> Seq<TrackView> {
    tracks.filter(|t: TrackView| plays(t, any_solo(tracks)))
}

/// Index of the first track of `s` with identifier `id`, or `s.len()`.
pub open spec fn index_of_track(s: Seq<TrackView>, id: TrackId) -> int
    decreases s.len(),
{
    if s.len() == 0 {
        0
    } else if s[0].id == id {
        0
    } else {
        1 + index_of_track(s.drop_first(), id)
    }
}

/// Some track of `s` has identifier `id`.
pub open spec fn has_track(s: Seq<TrackView>, id: TrackId) -> bool {
    exists|i: int| 0 <= i < s.len() && (#[trigger] s[i]).id == id
}

/// Index of the first track of `s` that holds a note with identifier `id`,
/// or `s.len()`.
pub open spec fn index_of_note_owner(s: Seq<TrackView>, id: NoteId) -> int
    decreases s.len(),
{
    if s.len() == 0 {
        0
    } else if has_id(s[0].notes, id) {
        0
    } else {
        1 + index_of_note_owner(s.drop_first(), id)
    }
}

/// The latest end of a note in any track of `s`, 0 if there is no note.
pub open spec fn max_track_end(s: Seq<TrackView>) -> u32
    decreases s.len(),
{
    if s.len() == 0 {
        0
    } else {
        let rest = max_track_end(s.drop_last());
        let here = max_end_tick(s.last().notes);
        if here > rest {
            here
        } else {
            rest
        }
    }
}

/// Measure, beat and tick within the beat of `tick`; measure and beat count from 1.
pub open spec fn position_of_tick(tick: u32, per_measure: int) -> (int, int, int)
    recommends
        per_measure > 0,
{
    (
        tick as int / per_measure + 1,
        (tick as int % per_measure) / (TICKS_PER_BEAT as int) + 1,
        (tick as int % per_measure) % (TICKS_PER_BEAT as int),
    )
}

/// The tick at which beat `beat` of measure `measure` begins, both counting from 1.
pub open spec fn tick_of_position(measure: u32, beat: u32, per_measure: int) -> int {
    (measure - 1) * per_measure + (beat - 1) * TICKS_PER_BEAT
}

/// `index_of_track` finds the first track with the identifier, if there is one.
pub proof fn lemma_index_of_track(s: Seq<TrackView>, id: TrackId)
    ensures
        0 <= index_of_track(s, id) <= s.len(),
        index_of_track(s, id) < s.len() ==> s[index_of_track(s, id)].id == id,
        forall|k: int| 0 <= k < index_of_track(s, id) ==> (#[trigger] s[k]).id != id,
        has_track(s, id) <==> index_of_track(s, id) < s.len(),
    decreases s.len(),
{
    if s.len() > 0 && s[0].id != id {
        let rest = s.drop_first();
        lemma_index_of_track(rest, id);
        let p = index_of_track(rest, id);
        assert forall|k: int| 0 <= k < 1 + p implies (#[trigger] s[k]).id != id by {
            if k > 0 {
                assert(rest[k - 1] == s[k]);
            }
        }
        if p < rest.len() {
            assert(rest[p] == s[p + 1]);
        }
        if has_track(s, id) {
            let w = choose|i: int| 0 <= i < s.len() && (#[trigger] s[i]).id == id;
            assert(rest[w - 1] == s[w]);
        }
    }
}

/// `index_of_note_owner` finds the first track that holds the note, if one does.
pub proof fn lemma_index_of_note_owner(s: Seq<TrackView>, id: NoteId)
    ensures
        0 <= index_of_note_owner(s, id) <= s.len(),
        index_of_note_owner(s, id) < s.len() ==> has_id(s[index_of_note_owner(s, id)].notes, id),
        forall|k: int| 0 <= k < index_of_note_owner(s, id) ==> !has_id((#[trigger] s[k]).notes, id),
    decreases s.len(),
{
    if s.len() > 0 && !has_id(s[0].notes, id) {
        let rest = s.drop_first();
        lemma_index_of_note_owner(rest, id);
        let p = index_of_note_owner(rest, id);
        assert forall|k: int| 0 <= k < 1 + p implies !has_id((#[trigger] s[k]).notes, id) by {
            if k > 0 {
                assert(rest[k - 1] == s[k]);
            }
        }
        if p < rest.len() {
            assert(rest[p] == s[p + 1]);
        }
    }
}

/// `max_track_end` is the length of some track and no track is longer.
pub proof fn lemma_max_track_end(s: Seq<TrackView>)
    ensures
        forall|i: int| 0 <= i < s.len() ==> max_end_tick((#[trigger] s[i]).notes) <= max_track_end(s),
        s.len() > 0 ==> exists|i: int| 0 <= i < s.len() && max_end_tick((#[trigger] s[i]).notes) == max_track_end(s),
    decreases s.len(),
{
    if s.len() > 0 {
        let front = s.drop_last();
        lemma_max_track_end(front);
        assert forall|i: int| 0 <= i < s.len() implies max_end_tick((#[trigger] s[i]).notes)
            <= max_track_end(s) by {
            if i < s.len() - 1 {
                assert(front[i] == s[i]);
            }
        }
        if max_end_tick(s.last().notes) > max_track_end(front) || front.len() == 0 {
            assert(max_end_tick(s[s.len() - 1].notes) == max_track_end(s));
        } else {
            let w = choose|i: int| 0 <= i < front.len() && max_end_tick((#[trigger] front[i]).notes)
                == max_track_end(front);
            assert(s[w] == front[w]);
        }
    }
}

/// The playable tracks under solo and mute arbitration: if some track is
/// solo, exactly the tracks that are solo and not muted; otherwise exactly
/// the tracks that are not muted.
pub proof fn lemma_solo_arbitration(tracks: Seq<TrackView>)
    ensures
        any_solo(tracks) ==> playable(tracks) == tracks.filter(|t: TrackView| t.solo && !t.muted),
        !any_solo(tracks) ==> playable(tracks) == tracks.filter(|t: TrackView| !t.muted),
        forall|t: TrackView| #[trigger]
            playable(tracks).contains(t) <==> tracks.contains(t) && plays(t, any_solo(tracks)),
{
    let some = any_solo(tracks);
    let p = |t: TrackView| plays(t, any_solo(tracks));
    let q = |t: TrackView| t.solo && !t.muted;
    let r = |t: TrackView| !t.muted;
    lemma_filter_same(tracks, p, if some { q } else { r });
    assert forall|t: TrackView| #[trigger]
        playable(tracks).contains(t) <==> tracks.contains(t) && plays(t, some) by {
        if playable(tracks).contains(t) {
            let i = choose|i: int| 0 <= i < playable(tracks).len() && playable(tracks)[i] == t;
            tracks.lemma_filter_pred(p, i);
            tracks.lemma_filter_contains_rev(p, t);
        }
        if tracks.contains(t) && plays(t, some) {
            let j = choose|j: int| 0 <= j < tracks.len() && tracks[j] == t;
            tracks.lemma_filter_contains(p, j);
        }
    }
}

/// Two predicates that agree on every value select the same elements.
pub proof fn lemma_filter_same(s: Seq<TrackView>, p: spec_fn(TrackView) -> bool, q: spec_fn(TrackView) -> bool)
    requires
        forall|t: TrackView| #[trigger] p(t) == q(t),
    ensures
        s.filter(p) == s.filter(q),
    decreases s.len(),
{
    reveal(Seq::filter);
    if s.len() > 0 {
        lemma_filter_same(s.drop_last(), p, q);
    }
}

/// Converting the start of a beat to a tick and back gives the same measure
/// and beat, at tick 0 of the beat.
pub proof fn lemma_position_round_trip(measure: u32, beat: u32, per_measure: int)
    requires
        measure >= 1,
        beat >= 1,
        per_measure > 0,
        (beat - 1) * TICKS_PER_BEAT < per_measure,
        tick_of_position(measure, beat, per_measure) <= u32::MAX,
    ensures
        position_of_tick(tick_of_position(measure, beat, per_measure) as u32, per_measure) == (
            measure as int,
            beat as int,
            0int,
        ),
{
    let offset = (beat - 1) * TICKS_PER_BEAT;
    let tick = tick_of_position(measure, beat, per_measure);
    assert(tick >= 0) by (nonlinear_arith)
        requires
            tick == (measure - 1) * per_measure + (beat - 1) * 480,
            measure >= 1,
            beat >= 1,
            per_measure > 0,
    ;
    vstd::arithmetic::div_mod::lemma_fundamental_div_mod_converse(
        tick,
        per_measure,
        measure - 1,
        offset,
    );
    vstd::arithmetic::div_mod::lemma_fundamental_div_mod_converse(offset, 480, beat - 1, 0);
}

impl View for Project {
    type V = ProjectView;

    open spec fn view(&self) -> ProjectView {
        ProjectView {
            name: self.name@,
            tempo: self.tempo,
            time_sig_numerator: self.time_sig_numerator,
            time_sig_denominator: self.time_sig_denominator,
            tracks: track_views(self.tracks@),
            next_channel: self.next_channel,
            soundfont_path: text_view(self.soundfont_path),
        }
    }
}

impl Clone for Project {
    /// A deep copy: same settings, and a copy of every track and note.
    fn clone(&self) -> (copy: Self)
        ensures
            copy@ == self@,
    {
        let mut tracks: Vec<Track> = Vec::with_capacity(self.tracks.len());
        let mut i: usize = 0;
        while i < self.tracks.len()
            invariant
                i <= self.tracks.len(),
                tracks@.len() == i,
                track_views(tracks@) == track_views(self.tracks@).subrange(0, i as int),
            decreases self.tracks.len() - i,
        {
            let ghost before = tracks@;
            let track = self.tracks[i].clone();
            tracks.push(track);
            assert(track_views(tracks@) =~= track_views(self.tracks@).subrange(0, i + 1)) by {
                assert forall|k: int| 0 <= k < i + 1 implies track_views(tracks@)[k] == track_views(
                    self.tracks@,
                )[k] by {
                    if k < i {
                        assert(track_views(before)[k] == track_views(self.tracks@).subrange(
                            0,
                            i as int,
                        )[k]);
                    }
                }
            }
            i += 1;
        }
        assert(track_views(tracks@) =~= track_views(self.tracks@));
        let soundfont_path = match &self.soundfont_path {
            Some(path) => Some(path.clone()),
            None => None,
        };
        Project {
            name: self.name.clone(),
            tempo: self.tempo,
            time_sig_numerator: self.time_sig_numerator,
            time_sig_denominator: self.time_sig_denominator,
            tracks,
            next_channel: self.next_channel,
            soundfont_path,
        }
    }
}

/// A project named `name` with the tempo and time signature of a fresh
/// project and one empty track, "Track 1" on channel 0, that has the
/// next track identifier.
pub open spec fn default_project(name: Seq<char>, ids: IdAllocator) -> ProjectView {
    ProjectView {
        name,
        tempo: DEFAULT_TEMPO,
        time_sig_numerator: 4,
        time_sig_denominator: 4,
        tracks: seq![
            TrackView {
                id: TrackId(ids.next_track),
                name: "Track 1"@,
                channel: 0,
                program: 0,
                volume: DEFAULT_VOLUME,
                pan: CENTER_PAN,
                muted: false,
                solo: false,
                notes: Seq::<Note>::empty(),
            },
        ],
        next_channel: 0,
        soundfont_path: None,
    }
}

impl Project {
    /// Tempo, time signature and next channel are in range and every track is valid.
    pub open spec fn is_valid(&self) -> bool {
        &&& MIN_TEMPO <= self.tempo <= MAX_TEMPO
        &&& 1 <= self.time_sig_numerator <= MAX_NUMERATOR
        &&& is_beat_unit(self.time_sig_denominator)
        &&& self.next_channel <= MAX_CHANNEL
        &&& forall|i: int| 0 <= i < self.tracks@.len() ==> (#[trigger] self.tracks@[i]).is_valid()
    }

    /// Ticks in one measure of the project's time signature.
    pub open spec fn spec_ticks_per_measure(&self) -> int {
        measure_ticks(self.time_sig_numerator, self.time_sig_denominator)
    }

    /// Creates a project without tracks: 120 beats per minute, 4/4, no SoundFont.
    pub fn new(name: &str) -> (project: Self)
        ensures
            project@ == (ProjectView {
                name: name@,
                tempo: DEFAULT_TEMPO,
                time_sig_numerator: 4,
                time_sig_denominator: 4,
                tracks: Seq::<TrackView>::empty(),
                next_channel: 0,
                soundfont_path: None,
            }),
            project.is_valid(),
    {
        let project = Project {
            name: name.to_owned(),
            tempo: DEFAULT_TEMPO,
            time_sig_numerator: 4,
            time_sig_denominator: 4,
            tracks: Vec::new(),
            next_channel: 0,
            soundfont_path: None,
        };
        assert(project@.tracks =~= Seq::<TrackView>::empty());
        project
    }

    /// Creates a project with one empty track named "Track 1" on channel 0.
    pub fn with_default_track(ids: &mut IdAllocator, name: &str) -> (project: Self)
        ensures
            project@ == default_project(name@, *old(ids)),
            final(ids).next_track == next_counter(old(ids).next_track),
            final(ids).next_note == old(ids).next_note,
            project.is_valid(),
    {
        let mut project = Project::new(name);
        let track = Track::new(ids, "Track 1", 0);
        project.add_track(track);
        assert(project@.tracks =~= default_project(name@, *old(ids)).tracks);
        project
    }

    /// Sets or clears the path of the SoundFont.
    pub fn set_soundfont_path(&mut self, path: Option<&str>)
        ensures
            final(self)@ == (ProjectView {
                soundfont_path: match path {
                    Some(p) => Some(p@),
                    None => None,
                },
                ..old(self)@
            }),
            final(self).tracks == old(self).tracks,
    {
        self.soundfont_path = match path {
            Some(p) => Some(p.to_owned()),
            None => None,
        };
    }

    /// The path of the SoundFont, if one is set.
    pub fn get_soundfont_path(&self) -> (path: Option<&str>)
        ensures
            match path {
                Some(p) => self@.soundfont_path == Some(p@),
                None => self@.soundfont_path.is_none(),
            },
    {
        match &self.soundfont_path {
            Some(p) => Some(p.as_str()),
            None => None,
        }
    }

    /// Ticks per measure: the ticks of one beat unit times the numerator.
    pub fn ticks_per_measure(&self) -> (ticks: u32)
        requires
            self.time_sig_denominator > 0,
        ensures
            ticks == self.spec_ticks_per_measure(),
    {
        let beat_ticks: u32 = TICKS_PER_BEAT * 4 / (self.time_sig_denominator as u32);
        assert(beat_ticks <= 1920) by {
            vstd::arithmetic::div_mod::lemma_div_is_ordered_by_denominator(
                1920,
                1,
                self.time_sig_denominator as int,
            );
        }
        assert(beat_ticks * self.time_sig_numerator <= 1920 * 255) by (nonlinear_arith)
            requires
                beat_ticks <= 1920,
                self.time_sig_numerator <= 255,
        ;
        beat_ticks * (self.time_sig_numerator as u32)
    }

    /// Length of the project in ticks: that of its longest track, 0 without notes.
    pub fn duration_ticks(&self) -> (ticks: u32)
        ensures
            ticks == max_track_end(self@.tracks),
    {
        let mut ticks: u32 = 0;
        let mut i: usize = 0;
        while i < self.tracks.len()
            invariant
                i <= self.tracks.len(),
                ticks == max_track_end(track_views(self.tracks@).subrange(0, i as int)),
            decreases self.tracks.len() - i,
        {
            proof {
                assert(track_views(self.tracks@).subrange(0, i + 1).drop_last() =~= track_views(
                    self.tracks@,
                ).subrange(0, i as int));
            }
            let here = self.tracks[i].duration_ticks();
            if here > ticks {
                ticks = here;
            }
            i += 1;
        }
        assert(track_views(self.tracks@).subrange(0, i as int) =~= track_views(self.tracks@));
        ticks
    }

    /// Appends `track` and returns its identifier.
    pub fn add_track(&mut self, track: Track) -> (id: TrackId)
        ensures
            id == track.id,
            final(self)@ == (ProjectView { tracks: old(self)@.tracks.push(track@), ..old(self)@ }),
            final(self).tracks@ == old(self).tracks@.push(track),
            old(self).is_valid() && track.is_valid() ==> final(self).is_valid(),
    {
        let id = track.id;
        self.tracks.push(track);
        assert(self@.tracks =~= old(self)@.tracks.push(track@));
        id
    }

    /// Appends an empty melodic track on the next channel and moves the next
    /// channel on, passing over the drum channel.
    pub fn create_track(&mut self, ids: &mut IdAllocator, name: &str) -> (id: TrackId)
        ensures
            id.0 == old(ids).next_track,
            final(ids).next_track == next_counter(old(ids).next_track),
            final(ids).next_note == old(ids).next_note,
            final(self)@ == (ProjectView {
                tracks: old(self)@.tracks.push(
                    TrackView {
                        id,
                        name: name@,
                        channel: min_u8(old(self)@.next_channel, MAX_CHANNEL),
                        program: 0,
                        volume: DEFAULT_VOLUME,
                        pan: CENTER_PAN,
                        muted: false,
                        solo: false,
                        notes: Seq::<Note>::empty(),
                    },
                ),
                next_channel: following_channel(old(self)@.next_channel),
                ..old(self)@
            }),
            old(self).is_valid() ==> final(self).is_valid(),
    {
        let channel = self.next_channel;
        self.next_channel = if channel == 8 {
            10
        } else if channel >= 15 {
            0
        } else {
            channel + 1
        };
        let track = Track::new(ids, name, channel);
        self.add_track(track)
    }

    /// Appends an empty drum track; the next channel stays as it is.
    pub fn create_drum_track(&mut self, ids: &mut IdAllocator, name: &str) -> (id: TrackId)
        ensures
            id.0 == old(ids).next_track,
            final(ids).next_track == next_counter(old(ids).next_track),
            final(ids).next_note == old(ids).next_note,
            final(self)@ == (ProjectView {
                tracks: old(self)@.tracks.push(
                    TrackView {
                        id,
                        name: name@,
                        channel: DRUM_CHANNEL,
                        program: 0,
                        volume: DEFAULT_VOLUME,
                        pan: CENTER_PAN,
                        muted: false,
                        solo: false,
                        notes: Seq::<Note>::empty(),
                    },
                ),
                ..old(self)@
            }),
            old(self).is_valid() ==> final(self).is_valid(),
    {
        let track = Track::new_drum_track(ids, name);
        self.add_track(track)
    }

    /// Index of the first track with identifier `id`, or the number of tracks.
    fn position_of(&self, id: TrackId) -> (pos: usize)
        ensures
            pos == index_of_track(self@.tracks, id),
            pos <= self.tracks@.len(),
            pos < self.tracks@.len() <==> has_track(self@.tracks, id),
            pos < self.tracks@.len() ==> self.tracks@[pos as int].id == id,
    {
        let ghost views = self@.tracks;
        let mut i: usize = 0;
        proof {
            lemma_index_of_track(views, id);
        }
        while i < self.tracks.len()
            invariant
                i <= self.tracks.len(),
                views == track_views(self.tracks@),
                i <= index_of_track(views, id) <= views.len(),
                index_of_track(views, id) < views.len() ==> views[index_of_track(views, id)].id == id,
                forall|k: int| 0 <= k < index_of_track(views, id) ==> (#[trigger] views[k]).id != id,
                has_track(views, id) <==> index_of_track(views, id) < views.len(),
            decreases self.tracks.len() - i,
        {
            assert(views[i as int] == self.tracks@[i as int]@);
            if self.tracks[i].id == id {
                return i;
            }
            i += 1;
        }
        i
    }

    /// Takes out the first track with identifier `id` and returns it;
    /// `None`, and no change, if there is no such track.
    pub fn remove_track(&mut self, id: TrackId) -> (removed: Option<Track>)
        ensures
            removed.is_some() == has_track(old(self)@.tracks, id),
            removed matches Some(track) ==> {
                &&& track@ == old(self)@.tracks[index_of_track(old(self)@.tracks, id)]
                &&& track.id == id
                &&& final(self)@ == (ProjectView {
                    tracks: old(self)@.tracks.remove(index_of_track(old(self)@.tracks, id)),
                    ..old(self)@
                })
            },
            removed.is_none() ==> final(self)@ == old(self)@,
            old(self).is_valid() ==> final(self).is_valid(),
    {
        let pos = self.position_of(id);
        if pos < self.tracks.len() {
            let track = self.tracks.remove(pos);
            assert(self@.tracks =~= old(self)@.tracks.remove(pos as int));
            Some(track)
        } else {
            None
        }
    }

    /// The first track with identifier `id`.
    pub fn get_track(&self, id: TrackId) -> (found: Option<&Track>)
        ensures
            found.is_some() == has_track(self@.tracks, id),
            found matches Some(track) ==> {
                &&& *track == self.tracks@[index_of_track(self@.tracks, id)]
                &&& track.id == id
            },
    {
        let pos = self.position_of(id);
        if pos < self.tracks.len() {
            Some(&self.tracks[pos])
        } else {
            None
        }
    }

    /// The first track with identifier `id`, for changing in place.
    pub fn get_track_mut(&mut self, id: TrackId) -> (found: Option<&mut Track>)
        ensures
            found.is_some() == has_track(old(self)@.tracks, id),
            match found {
                Some(track) => {
                    &&& *track == old(self).tracks@[index_of_track(old(self)@.tracks, id)]
                    &&& final(self).tracks@ == old(self).tracks@.update(
                        index_of_track(old(self)@.tracks, id),
                        *final(track),
                    )
                    &&& final(self)@ == (ProjectView { tracks: final(self)@.tracks, ..old(self)@ })
                },
                None => *final(self) == *old(self),
            },
    {
        let pos = self.position_of(id);
        if pos < self.tracks.len() {
            Some(&mut self.tracks[pos])
        } else {
            None
        }
    }

    /// The track at `index`, if there is one.
    pub fn track_at(&self, index: usize) -> (found: Option<&Track>)
        ensures
            found.is_some() == (index < self.tracks@.len()),
            found matches Some(track) ==> *track == self.tracks@[index as int],
    {
        if index < self.tracks.len() {
            Some(&self.tracks[index])
        } else {
            None
        }
    }

    /// The track at `index`, for changing in place.
    pub fn track_at_mut(&mut self, index: usize) -> (found: Option<&mut Track>)
        ensures
            found.is_some() == (index < old(self).tracks@.len()),
            match found {
                Some(track) => {
                    &&& *track == old(self).tracks@[index as int]
                    &&& final(self).tracks@ == old(self).tracks@.update(index as int, *final(track))
                    &&& final(self)@ == (ProjectView { tracks: final(self)@.tracks, ..old(self)@ })
                },
                None => *final(self) == *old(self),
            },
    {
        if index < self.tracks.len() {
            Some(&mut self.tracks[index])
        } else {
            None
        }
    }

    /// All tracks, in display order.
    pub fn tracks(&self) -> (tracks: &[Track])
        ensures
            tracks@ == self.tracks@,
    {
        self.tracks.as_slice()
    }

    /// All tracks, for changing in place.
    pub fn tracks_mut(&mut self) -> (tracks: &mut [Track])
        ensures
            tracks@ == old(self).tracks@,
            final(self).tracks@ == final(tracks)@,
            final(self)@ == (ProjectView { tracks: final(self)@.tracks, ..old(self)@ }),
    {
        self.tracks.as_mut_slice()
    }

    /// Number of tracks.
    pub fn track_count(&self) -> (count: usize)
        ensures
            count == self@.tracks.len(),
    {
        self.tracks.len()
    }

    /// Moves the track at `from` to position `to`. Returns `false`, and
    /// changes nothing, unless both are positions of tracks.
    pub fn move_track(&mut self, from: usize, to: usize) -> (moved: bool)
        ensures
            moved == (from < old(self)@.tracks.len() && to < old(self)@.tracks.len()),
            moved ==> final(self)@ == (ProjectView {
                tracks: old(self)@.tracks.remove(from as int).insert(
                    to as int,
                    old(self)@.tracks[from as int],
                ),
                ..old(self)@
            }),
            !moved ==> final(self)@ == old(self)@,
            old(self).is_valid() ==> final(self).is_valid(),
    {
        if from >= self.tracks.len() || to >= self.tracks.len() {
            return false;
        }
        let track = self.tracks.remove(from);
        assert(self@.tracks =~= old(self)@.tracks.remove(from as int));
        let ghost mid = self@.tracks;
        self.tracks.insert(to, track);
        assert(self@.tracks =~= mid.insert(to as int, track@));
        true
    }

    /// Whether some track is solo.
    pub fn has_solo(&self) -> (some: bool)
        ensures
            some == any_solo(self@.tracks),
    {
        let mut i: usize = 0;
        while i < self.tracks.len()
            invariant
                i <= self.tracks.len(),
                forall|k: int| 0 <= k < i ==> !(#[trigger] self@.tracks[k]).solo,
            decreases self.tracks.len() - i,
        {
            assert(self@.tracks[i as int] == self.tracks@[i as int]@);
            if self.tracks[i].solo {
                return true;
            }
            i += 1;
        }
        false
    }

    /// The tracks that are played, in order: while some track is solo, those
    /// that are solo and not muted; otherwise those that are not muted.
    pub fn playable_tracks(&self) -> (tracks: Vec<&Track>)
        ensures
            tracks@.map_values(|t: &Track| t@) == playable(self@.tracks),
    {
        let some_solo = self.has_solo();
        let ghost views = self@.tracks;
        let ghost pred = |t: TrackView| plays(t, any_solo(views));
        let mut out: Vec<&Track> = Vec::new();
        let mut i: usize = 0;
        proof {
            reveal(Seq::filter);
            assert(out@.map_values(|t: &Track| t@) =~= views.subrange(0, 0).filter(pred));
        }
        while i < self.tracks.len()
            invariant
                i <= self.tracks.len(),
                views == track_views(self.tracks@),
                some_solo == any_solo(views),
                pred == (|t: TrackView| plays(t, any_solo(views))),
                out@.map_values(|t: &Track| t@) == views.subrange(0, i as int).filter(pred),
            decreases self.tracks.len() - i,
        {
            let track = &self.tracks[i];
            let ghost before = out@;
            proof {
                assert(views[i as int] == track@);
                assert(views.subrange(0, i + 1) =~= views.subrange(0, i as int).push(track@));
                views.subrange(0, i as int).lemma_filter_push(track@, pred);
            }
            let chosen = if some_solo {
                track.solo && !track.muted
            } else {
                !track.muted
            };
            if chosen {
                out.push(track);
                assert(out@.map_values(|t: &Track| t@) =~= before.map_values(|t: &Track| t@).push(
                    track@,
                ));
            }
            i += 1;
        }
        assert(views.subrange(0, i as int) =~= views);
        out
    }

    /// The note with identifier `id` and the identifier of the first track
    /// that holds such a note.
    pub fn find_note(&self, id: NoteId) -> (found: Option<(TrackId, &Note)>)
        ensures
            found.is_some() == (index_of_note_owner(self@.tracks, id) < self@.tracks.len()),
            found matches Some((track_id, note)) ==> {
                let owner = self@.tracks[index_of_note_owner(self@.tracks, id)];
                &&& track_id == owner.id
                &&& *note == owner.notes[index_of_id(owner.notes, id)]
                &&& note.id == id
            },
    {
        let ghost views = self@.tracks;
        let mut i: usize = 0;
        proof {
            lemma_index_of_note_owner(views, id);
        }
        while i < self.tracks.len()
            invariant
                i <= self.tracks.len(),
                views == track_views(self.tracks@),
                i <= index_of_note_owner(views, id) <= views.len(),
                index_of_note_owner(views, id) < views.len() ==> has_id(
                    views[index_of_note_owner(views, id)].notes,
                    id,
                ),
                forall|k: int| 0 <= k < index_of_note_owner(views, id) ==> !has_id((#[trigger] views[k]).notes, id),
            decreases self.tracks.len() - i,
        {
            assert(views[i as int] == self.tracks@[i as int]@);
            let track = &self.tracks[i];
            match track.get_note(id) {
                Some(note) => {
                    return Some((track.id, note));
                },
                None => {},
            }
            i += 1;
        }
        None
    }

    /// Measure, beat and tick within the beat of `tick`; measure and beat
    /// count from 1.
    pub fn tick_to_position(&self, tick: u32) -> (position: (u32, u32, u32))
        requires
            self.time_sig_denominator > 0,
            self.time_sig_numerator > 0,
        ensures
            (position.0 as int, position.1 as int, position.2 as int) == position_of_tick(
                tick,
                self.spec_ticks_per_measure(),
            ),
    {
        let per_measure = self.ticks_per_measure();
        assert(per_measure >= 7) by {
            let d = self.time_sig_denominator as int;
            assert(1920int / d >= 7) by {
                vstd::arithmetic::div_mod::lemma_div_is_ordered_by_denominator(1920, d, 255);
            }
            assert(1920int / d * self.time_sig_numerator >= 7) by (nonlinear_arith)
                requires
                    1920int / d >= 7,
                    self.time_sig_numerator >= 1,
            ;
        }
        assert(tick / per_measure <= tick / 7) by {
            vstd::arithmetic::div_mod::lemma_div_is_ordered_by_denominator(
                tick as int,
                7,
                per_measure as int,
            );
        }
        let measure: u32 = tick / per_measure + 1;
        let in_measure: u32 = tick % per_measure;
        let beat: u32 = in_measure / TICKS_PER_BEAT + 1;
        let in_beat: u32 = in_measure % TICKS_PER_BEAT;
        (measure, beat, in_beat)
    }

    /// The tick at which beat `beat` of measure `measure` begins, both
    /// counting from 1.
    pub fn position_to_tick(&self, measure: u32, beat: u32) -> (tick: u32)
        requires
            self.time_sig_denominator > 0,
            measure >= 1,
            beat >= 1,
            tick_of_position(measure, beat, self.spec_ticks_per_measure()) <= u32::MAX,
        ensures
            tick == tick_of_position(measure, beat, self.spec_ticks_per_measure()),
    {
        let per_measure: u64 = self.ticks_per_measure() as u64;
        let bars: u64 = (measure - 1) as u64 * per_measure;
        let beats: u64 = (beat - 1) as u64 * (TICKS_PER_BEAT as u64);
        assert(bars <= 0xFFFF_FFFF * 0xFFFF_FFFF) by (nonlinear_arith)
            requires
                bars == (measure - 1) * per_measure,
                measure - 1 <= 0xFFFF_FFFF,
                0 <= per_measure <= 0xFFFF_FFFF,
        ;
        (bars + beats) as u32
    }
}

/// One more than `id`, held at the largest value.
pub open spec fn above(id: u64) -> u64 {
    if id == u64::MAX {
        u64::MAX
    } else {
        (id + 1) as u64
    }
}

/// The least counter value that is at least `floor` and above the
/// identifier of each of the first `upto` of `notes`.
pub open spec fn notes_bound(notes: Seq<Note>, floor: u64, upto: int) -> u64
    decreases upto,
{
    if upto <= 0 {
        floor
    } else {
        let before = notes_bound(notes, floor, upto - 1);
        let this = above(notes[upto - 1].id.0);
        if this > before {
            this
        } else {
            before
        }
    }
}

/// The least counter value that is at least `floor` and above the
/// identifier of each note of the first `upto` of `tracks`.
pub open spec fn note_id_bound(tracks: Seq<TrackView>, floor: u64, upto: int) -> u64
    decreases upto,
{
    if upto <= 0 {
        floor
    } else {
        notes_bound(
            tracks[upto - 1].notes,
            note_id_bound(tracks, floor, upto - 1),
            tracks[upto - 1].notes.len() as int,
        )
    }
}

/// The least counter value that is at least `floor` and above the
/// identifier of each of the first `upto` of `tracks`.
pub open spec fn track_id_bound(tracks: Seq<TrackView>, floor: u64, upto: int) -> u64
    decreases upto,
{
    if upto <= 0 {
        floor
    } else {
        let before = track_id_bound(tracks, floor, upto - 1);
        let this = above(tracks[upto - 1].id.0);
        if this > before {
            this
        } else {
            before
        }
    }
}

/// The bound of notes is at least the floor and above every note it
/// covers.
pub proof fn lemma_notes_bound(notes: Seq<Note>, floor: u64, upto: int)
    requires
        0 <= upto <= notes.len(),
    ensures
        notes_bound(notes, floor, upto) >= floor,
        forall|j: int| 0 <= j < upto ==> above((#[trigger] notes[j]).id.0) <= notes_bound(notes, floor, upto),
    decreases upto,
{
    if upto > 0 {
        lemma_notes_bound(notes, floor, upto - 1);
    }
}

/// Identifiers drawn from counters that were moved beyond a project are
/// new to it: the counters are not below where they stood, every track
/// identifier of the project is below the track counter and every note
/// identifier below the note counter, unless a counter has come to the
/// largest value.
pub proof fn lemma_ids_beyond(tracks: Seq<TrackView>, ids: IdAllocator, upto: int)
    requires
        0 <= upto <= tracks.len(),
    ensures
        note_id_bound(tracks, ids.next_note, upto) >= ids.next_note,
        track_id_bound(tracks, ids.next_track, upto) >= ids.next_track,
        forall|i: int| 0 <= i < upto ==> above((#[trigger] tracks[i]).id.0) <= track_id_bound(tracks, ids.next_track, upto),
        forall|i: int, j: int| 0 <= i < upto && 0 <= j < tracks[i].notes.len() ==> above(
            (#[trigger] tracks[i].notes[j]).id.0,
        ) <= note_id_bound(tracks, ids.next_note, upto),
    decreases upto,
{
    if upto > 0 {
        lemma_ids_beyond(tracks, ids, upto - 1);
        let notes = tracks[upto - 1].notes;
        lemma_notes_bound(
            notes,
            note_id_bound(tracks, ids.next_note, upto - 1),
            notes.len() as int,
        );
    }
}

impl Project {
    /// The counters `ids`, moved beyond every identifier of the
    /// project: what they hand out is new to the project.
    pub fn ids_beyond(&self, ids: IdAllocator) -> (moved: IdAllocator)
        ensures
            moved.next_note == note_id_bound(self@.tracks, ids.next_note, self@.tracks.len() as int),
            moved.next_track == track_id_bound(
                self@.tracks,
                ids.next_track,
                self@.tracks.len() as int,
            ),
    {
        let mut next_note = ids.next_note;
        let mut next_track = ids.next_track;
        let mut i: usize = 0;
        while i < self.tracks.len()
            invariant
                i <= self.tracks@.len(),
                next_note == note_id_bound(self@.tracks, ids.next_note, i as int),
                next_track == track_id_bound(self@.tracks, ids.next_track, i as int),
            decreases self.tracks@.len() - i,
        {
            let track = &self.tracks[i];
            assert(self@.tracks[i as int] == track@);
            let above_track = track.id.0.saturating_add(1);
            if above_track > next_track {
                next_track = above_track;
            }
            let ghost floor = next_note;
            let mut j: usize = 0;
            while j < track.notes.len()
                invariant
                    j <= track.notes@.len(),
                    next_note == notes_bound(track.notes@, floor, j as int),
                decreases track.notes@.len() - j,
            {
                let above_note = track.notes[j].id.0.saturating_add(1);
                if above_note > next_note {
                    next_note = above_note;
                }
                j += 1;
            }
            i += 1;
        }
        IdAllocator::starting_at(next_note, next_track)
    }
}

} // verus!

//! A track: mixer settings and notes kept in order of their start.

use vstd::prelude::*;
use super::ids::{IdAllocator, NoteId, TrackId, next_counter};
use super::note::{Note, MAX_DATA, min_u8};

verus! {

/// Highest MIDI channel.
pub const MAX_CHANNEL: u8 = 15;

/// The channel that General MIDI keeps for drums.
pub const DRUM_CHANNEL: u8 = 9;

/// Volume of a fresh track.
pub const DEFAULT_VOLUME: u8 = 100;

/// Pan of a fresh track: the centre.
pub const CENTER_PAN: u8 = 64;

/// One track of a project.
#[derive(Debug)]
pub struct Track {
    /// Identifier of the track.
    pub id: TrackId,
    /// Display name.
    pub name: String,
    /// MIDI channel, 0 to 15.
    pub channel: u8,
    /// MIDI program (instrument), 0 to 127.
    pub program: u8,
    /// Volume, 0 to 127.
    pub volume: u8,
    /// Pan, 0 (left) to 127 (right).
    pub pan: u8,
    /// A muted track is not played.
    pub muted: bool,
    /// While any track is solo, only solo tracks are played.
    pub solo: bool,
    /// The notes, in order of start. Code that writes to this field keeps
    /// that order, or calls `reorder`.
    pub notes: Vec<Note>,
}

/// What a track holds, as mathematical values.
pub struct TrackView {
    pub id: TrackId,
    pub name: Seq<char>,
    pub channel: u8,
    pub program: u8,
    pub volume: u8,
    pub pan: u8,
    pub muted: bool,
    pub solo: bool,
    pub notes: Seq<Note>,
}

/// Each note starts no later than the one after it.
pub open spec fn sorted_by_start(s: Seq<Note>) -> bool {
    forall|i: int| 0 <= i && i + 1 < s.len() ==> (#[trigger] s[i]).start_tick <= s[i + 1].start_tick
}

/// No note starts later than any note behind it.
pub open spec fn ordered_pairs(s: Seq<Note>) -> bool {
    forall|i: int, j: int| 0 <= i <= j < s.len() ==> s[i].start_tick <= s[j].start_tick
}

/// Where a note starting at `tick` goes: behind the last note that starts
/// at `tick` or earlier.
pub open spec fn insertion_index(s: Seq<Note>, tick: u32) -> int
    decreases s.len(),
{
    if s.len() == 0 {
        0
    } else if s.last().start_tick <= tick {
        s.len() as int
    } else {
        insertion_index(s.drop_last(), tick)
    }
}

/// `after` is `before` with `note` put in at `pos`, behind a note that
/// starts no later and before one that starts later.
pub open spec fn placed_at(before: Seq<Note>, note: Note, pos: int, after: Seq<Note>) -> bool {
    &&& 0 <= pos <= before.len()
    &&& pos > 0 ==> before[pos - 1].start_tick <= note.start_tick
    &&& pos < before.len() ==> before[pos].start_tick > note.start_tick
    &&& after == before.insert(pos, note)
}

/// `s` with `note` put in by its start, behind the notes that start at the same tick.
pub open spec fn ordered_insert(s: Seq<Note>, note: Note) -> Seq<Note> {
    s.insert(insertion_index(s, note.start_tick), note)
}

/// The notes of `s` in order of start; notes with equal start keep their order.
pub open spec fn stable_sort(s: Seq<Note>) -> Seq<Note>
    decreases s.len(),
{
    if s.len() == 0 {
        Seq::<Note>::empty()
    } else {
        ordered_insert(stable_sort(s.drop_last()), s.last())
    }
}

/// Index of the first note of `s` with identifier `id`, or `s.len()` if there is none.
pub open spec fn index_of_id(s: Seq<Note>, id: NoteId) -> int
    decreases s.len(),
{
    if s.len() == 0 {
        0
    } else if s[0].id == id {
        0
    } else {
        1 + index_of_id(s.drop_first(), id)
    }
}

/// Some note of `s` has identifier `id`.
pub open spec fn has_id(s: Seq<Note>, id: NoteId) -> bool {
    exists|i: int| 0 <= i < s.len() && (#[trigger] s[i]).id == id
}

/// The latest end among the notes of `s`, 0 if there are none.
pub open spec fn max_end_tick(s: Seq<Note>) -> u32
    decreases s.len(),
{
    if s.len() == 0 {
        0
    } else {
        let rest = max_end_tick(s.drop_last());
        if s.last().spec_end_tick() > rest {
            s.last().spec_end_tick()
        } else {
            rest
        }
    }
}

/// `tick` moved to the nearest multiple of `grid`, a tick half way going up.
/// Where the multiple above does not fit in 32 bits, the one below is taken.
pub open spec fn quantized_tick(tick: u32, grid: u32) -> u32
    recommends
        grid > 0,
{
    let rem = tick % grid;
    if 2 * rem >= grid && tick - rem + grid <= u32::MAX {
        (tick - rem + grid) as u32
    } else {
        (tick - rem) as u32
    }
}

/// `note` with its start on the grid.
pub open spec fn quantized_note(note: Note, grid: u32) -> Note {
    Note { start_tick: quantized_tick(note.start_tick, grid), ..note }
}

/// `pitch` can move by `semitones` and stay within 0 to 127.
pub open spec fn can_transpose(pitch: u8, semitones: i8) -> bool {
    0 <= pitch + semitones <= 127
}

/// `note` moved by `semitones` where that is possible, else unchanged.
pub open spec fn transposed_note(note: Note, semitones: i8) -> Note {
    if can_transpose(note.pitch, semitones) {
        Note { pitch: (note.pitch + semitones) as u8, ..note }
    } else {
        note
    }
}

/// How many notes of `s` cannot move by `semitones`.
pub open spec fn count_stuck(s: Seq<Note>, semitones: i8) -> nat {
    s.filter(|n: Note| !can_transpose(n.pitch, semitones)).len()
}

/// A sequence is in order pairwise exactly when it is in order neighbour by neighbour.
pub proof fn lemma_sorted_pairs(s: Seq<Note>)
    ensures
        sorted_by_start(s) == ordered_pairs(s),
{
    if sorted_by_start(s) {
        assert forall|i: int, j: int| 0 <= i <= j < s.len() implies s[i].start_tick
            <= s[j].start_tick by {
            lemma_sorted_reach(s, i, j);
        }
    }
    if ordered_pairs(s) {
        assert forall|i: int| 0 <= i && i + 1 < s.len() implies (#[trigger] s[i]).start_tick
            <= s[i + 1].start_tick by {}
    }
}

proof fn lemma_sorted_reach(s: Seq<Note>, i: int, j: int)
    requires
        sorted_by_start(s),
        0 <= i <= j < s.len(),
    ensures
        s[i].start_tick <= s[j].start_tick,
    decreases j - i,
{
    if i < j {
        lemma_sorted_reach(s, i, j - 1);
        let k = j - 1;
        assert(s[k].start_tick <= s[k + 1].start_tick);
    }
}

/// `insertion_index` lies in the sequence, behind a note that starts no
/// later and before one that starts later.
pub proof fn lemma_insertion_index_bounds(s: Seq<Note>, tick: u32)
    ensures
        0 <= insertion_index(s, tick) <= s.len(),
        insertion_index(s, tick) > 0 ==> s[insertion_index(s, tick) - 1].start_tick <= tick,
        forall|k: int| insertion_index(s, tick) <= k < s.len() ==> (#[trigger] s[k]).start_tick > tick,
    decreases s.len(),
{
    if s.len() > 0 && s.last().start_tick > tick {
        lemma_insertion_index_bounds(s.drop_last(), tick);
        let p = insertion_index(s.drop_last(), tick);
        assert forall|k: int| p <= k < s.len() implies (#[trigger] s[k]).start_tick > tick by {
            if k < s.len() - 1 {
                assert(s.drop_last()[k] == s[k]);
            }
        }
        if p > 0 {
            assert(s.drop_last()[p - 1] == s[p - 1]);
        }
    }
}

/// In an ordered sequence only one position separates the notes that start
/// at `tick` or earlier from those that start later.
pub proof fn lemma_insertion_index_unique(s: Seq<Note>, tick: u32, pos: int)
    requires
        ordered_pairs(s),
        0 <= pos <= s.len(),
        pos > 0 ==> s[pos - 1].start_tick <= tick,
        pos < s.len() ==> s[pos].start_tick > tick,
    ensures
        pos == insertion_index(s, tick),
{
    lemma_insertion_index_bounds(s, tick);
    let p = insertion_index(s, tick);
    if p < pos {
        assert(s[pos - 1].start_tick > tick);
    } else if p > pos {
        assert(s[p - 1].start_tick <= tick);
        assert(s[pos].start_tick <= s[p - 1].start_tick);
    }
}

/// Putting a note into an ordered sequence by its start leaves it ordered.
pub proof fn lemma_ordered_insert_sorted(s: Seq<Note>, note: Note)
    requires
        ordered_pairs(s),
    ensures
        ordered_pairs(ordered_insert(s, note)),
        ordered_insert(s, note).len() == s.len() + 1,
{
    lemma_insertion_index_bounds(s, note.start_tick);
    let p = insertion_index(s, note.start_tick);
    let r = ordered_insert(s, note);
    assert forall|i: int, j: int| 0 <= i <= j < r.len() implies r[i].start_tick
        <= r[j].start_tick by {
        if j < p {
            assert(r[i] == s[i] && r[j] == s[j]);
        } else if j == p {
            if i < p {
                assert(r[i] == s[i]);
                assert(s[i].start_tick <= s[p - 1].start_tick);
            }
        } else {
            assert(r[j] == s[j - 1]);
            if i < p {
                assert(r[i] == s[i]);
            } else if i == p {
                assert(s[j - 1].start_tick > note.start_tick);
            } else {
                assert(r[i] == s[i - 1]);
            }
        }
    }
}

/// The result of `stable_sort` is ordered and as long as its argument.
pub proof fn lemma_stable_sort_sorted(s: Seq<Note>)
    ensures
        ordered_pairs(stable_sort(s)),
        sorted_by_start(stable_sort(s)),
        stable_sort(s).len() == s.len(),
    decreases s.len(),
{
    if s.len() > 0 {
        lemma_stable_sort_sorted(s.drop_last());
        lemma_ordered_insert_sorted(stable_sort(s.drop_last()), s.last());
    }
    lemma_sorted_pairs(stable_sort(s));
}

/// `stable_sort` neither drops nor adds a note.
pub proof fn lemma_stable_sort_permutes(s: Seq<Note>)
    ensures
        stable_sort(s).to_multiset() == s.to_multiset(),
    decreases s.len(),
{
    broadcast use vstd::seq_lib::to_multiset_build, vstd::seq_lib::to_multiset_insert;

    if s.len() > 0 {
        lemma_stable_sort_permutes(s.drop_last());
        let rest = stable_sort(s.drop_last());
        lemma_insertion_index_bounds(rest, s.last().start_tick);
        assert(s == s.drop_last().push(s.last()));
        assert(stable_sort(s).to_multiset() == rest.to_multiset().insert(s.last()));
        assert(s.to_multiset() == s.drop_last().to_multiset().insert(s.last()));
    } else {
        assert(stable_sort(s) == s);
    }
}

/// An ordered sequence is its own `stable_sort`.
pub proof fn lemma_stable_sort_of_sorted(s: Seq<Note>)
    requires
        ordered_pairs(s),
    ensures
        stable_sort(s) == s,
    decreases s.len(),
{
    if s.len() > 0 {
        let front = s.drop_last();
        assert(ordered_pairs(front)) by {
            assert forall|i: int, j: int| 0 <= i <= j < front.len() implies front[i].start_tick
                <= front[j].start_tick by {
                assert(front[i] == s[i] && front[j] == s[j]);
            }
        }
        lemma_stable_sort_of_sorted(front);
        if front.len() > 0 {
            assert(front.last() == s[s.len() - 2]);
            assert(front.last().start_tick <= s.last().start_tick);
        }
        assert(insertion_index(front, s.last().start_tick) == front.len());
        assert(front.insert(front.len() as int, s.last()) =~= s);
    } else {
        assert(stable_sort(s) =~= s);
    }
}

/// Filtering an empty sequence leaves it empty.
pub proof fn lemma_filter_nothing(s: Seq<Note>, pred: spec_fn(Note) -> bool)
    requires
        s.len() == 0,
    ensures
        s.filter(pred) == Seq::<Note>::empty(),
{
    reveal(Seq::filter);
    assert(s =~= Seq::<Note>::empty());
}

/// `index_of_id` finds the first note with the identifier, if there is one.
pub proof fn lemma_index_of_id(s: Seq<Note>, id: NoteId)
    ensures
        0 <= index_of_id(s, id) <= s.len(),
        index_of_id(s, id) < s.len() ==> s[index_of_id(s, id)].id == id,
        forall|k: int| 0 <= k < index_of_id(s, id) ==> (#[trigger] s[k]).id != id,
        has_id(s, id) <==> index_of_id(s, id) < s.len(),
    decreases s.len(),
{
    if s.len() > 0 && s[0].id != id {
        let rest = s.drop_first();
        lemma_index_of_id(rest, id);
        let p = index_of_id(rest, id);
        assert forall|k: int| 0 <= k < 1 + p implies (#[trigger] s[k]).id != id by {
            if k > 0 {
                assert(rest[k - 1] == s[k]);
            }
        }
        if p < rest.len() {
            assert(rest[p] == s[p + 1]);
        }
        if has_id(s, id) {
            let w = choose|i: int| 0 <= i < s.len() && (#[trigger] s[i]).id == id;
            assert(rest[w - 1] == s[w]);
        }
    }
}

/// `max_end_tick` is an end of some note and no note ends later.
pub proof fn lemma_max_end_tick(s: Seq<Note>)
    ensures
        forall|i: int| 0 <= i < s.len() ==> (#[trigger] s[i]).spec_end_tick() <= max_end_tick(s),
        s.len() > 0 ==> exists|i: int| 0 <= i < s.len() && (#[trigger] s[i]).spec_end_tick() == max_end_tick(s),
        s.len() == 0 ==> max_end_tick(s) == 0,
    decreases s.len(),
{
    if s.len() > 0 {
        let front = s.drop_last();
        lemma_max_end_tick(front);
        assert forall|i: int| 0 <= i < s.len() implies (#[trigger] s[i]).spec_end_tick()
            <= max_end_tick(s) by {
            if i < s.len() - 1 {
                assert(front[i] == s[i]);
            }
        }
        if s.last().spec_end_tick() > max_end_tick(front) || front.len() == 0 {
            assert(s[s.len() - 1].spec_end_tick() == max_end_tick(s));
        } else {
            let w = choose|i: int| 0 <= i < front.len() && (#[trigger] front[i]).spec_end_tick()
                == max_end_tick(front);
            assert(s[w] == front[w]);
        }
    }
}

impl View for Track {
    type V = TrackView;

    open spec fn view(&self) -> TrackView {
        TrackView {
            id: self.id,
            name: self.name@,
            channel: self.channel,
            program: self.program,
            volume: self.volume,
            pan: self.pan,
            muted: self.muted,
            solo: self.solo,
            notes: self.notes@,
        }
    }
}

impl Clone for Track {
    /// A copy with the same identifier, settings and notes.
    fn clone(&self) -> (copy: Self)
        ensures
            copy@ == self@,
    {
        let mut notes: Vec<Note> = Vec::with_capacity(self.notes.len());
        let mut i: usize = 0;
        while i < self.notes.len()
            invariant
                i <= self.notes.len(),
                notes@ == self.notes@.subrange(0, i as int),
            decreases self.notes.len() - i,
        {
            notes.push(self.notes[i]);
            assert(notes@ =~= self.notes@.subrange(0, i + 1));
            i += 1;
        }
        assert(notes@ =~= self.notes@);
        Track {
            id: self.id,
            name: self.name.clone(),
            channel: self.channel,
            program: self.program,
            volume: self.volume,
            pan: self.pan,
            muted: self.muted,
            solo: self.solo,
            notes,
        }
    }
}

/// Position in `notes` behind the last note that starts at `tick` or
/// earlier, found by halving.
fn upper_bound(notes: &Vec<Note>, tick: u32) -> (pos: usize)
    ensures
        pos <= notes.len(),
        pos > 0 ==> notes[pos - 1].start_tick <= tick,
        pos < notes.len() ==> notes[pos as int].start_tick > tick,
        ordered_pairs(notes@) ==> pos == insertion_index(notes@, tick),
{
    let mut lo: usize = 0;
    let mut hi: usize = notes.len();
    while lo < hi
        invariant
            lo <= hi <= notes.len(),
            lo > 0 ==> notes[lo - 1].start_tick <= tick,
            hi < notes.len() ==> notes[hi as int].start_tick > tick,
        decreases hi - lo,
    {
        let mid: usize = lo + (hi - lo) / 2;
        if notes[mid].start_tick <= tick {
            lo = mid + 1;
        } else {
            hi = mid;
        }
    }
    proof {
        if ordered_pairs(notes@) {
            lemma_insertion_index_unique(notes@, tick, lo as int);
        }
    }
    lo
}

/// The notes of `notes` in order of start, equal starts keeping their order.
fn sorted_copy(notes: &Vec<Note>) -> (out: Vec<Note>)
    ensures
        out@ == stable_sort(notes@),
{
    let mut out: Vec<Note> = Vec::with_capacity(notes.len());
    let mut i: usize = 0;
    while i < notes.len()
        invariant
            i <= notes.len(),
            out@ == stable_sort(notes@.subrange(0, i as int)),
        decreases notes.len() - i,
    {
        let note = notes[i];
        proof {
            lemma_stable_sort_sorted(notes@.subrange(0, i as int));
            assert(notes@.subrange(0, i + 1).drop_last() =~= notes@.subrange(0, i as int));
        }
        let pos = upper_bound(&out, note.start_tick);
        out.insert(pos, note);
        i += 1;
    }
    assert(notes@.subrange(0, i as int) =~= notes@);
    out
}

impl Track {
    /// The notes are in order of start.
    pub open spec fn is_sorted(&self) -> bool {
        sorted_by_start(self.notes@)
    }

    /// Channel, program, volume and pan are in MIDI's ranges, the notes are
    /// valid and in order of start.
    pub open spec fn is_valid(&self) -> bool {
        &&& self.channel <= MAX_CHANNEL
        &&& self.program <= MAX_DATA
        &&& self.volume <= MAX_DATA
        &&& self.pan <= MAX_DATA
        &&& self.is_sorted()
        &&& forall|i: int| 0 <= i < self.notes@.len() ==> (#[trigger] self.notes@[i]).is_valid()
    }

    /// Creates an empty track on `channel` (at most 15): piano, volume 100,
    /// pan centred, neither muted nor solo.
    pub fn new(ids: &mut IdAllocator, name: &str, channel: u8) -> (track: Self)
        ensures
            track@ == (TrackView {
                id: TrackId(old(ids).next_track),
                name: name@,
                channel: min_u8(channel, MAX_CHANNEL),
                program: 0,
                volume: DEFAULT_VOLUME,
                pan: CENTER_PAN,
                muted: false,
                solo: false,
                notes: Seq::<Note>::empty(),
            }),
            final(ids).next_track == next_counter(old(ids).next_track),
            final(ids).next_note == old(ids).next_note,
            track.is_valid(),
    {
        Track {
            id: TrackId::new(ids),
            name: name.to_owned(),
            channel: if channel > MAX_CHANNEL { MAX_CHANNEL } else { channel },
            program: 0,
            volume: DEFAULT_VOLUME,
            pan: CENTER_PAN,
            muted: false,
            solo: false,
            notes: Vec::new(),
        }
    }

    /// Creates an empty drum track: channel 9, otherwise as `new`.
    pub fn new_drum_track(ids: &mut IdAllocator, name: &str) -> (track: Self)
        ensures
            track@ == (TrackView {
                id: TrackId(old(ids).next_track),
                name: name@,
                channel: DRUM_CHANNEL,
                program: 0,
                volume: DEFAULT_VOLUME,
                pan: CENTER_PAN,
                muted: false,
                solo: false,
                notes: Seq::<Note>::empty(),
            }),
            final(ids).next_track == next_counter(old(ids).next_track),
            final(ids).next_note == old(ids).next_note,
            track.is_valid(),
    {
        Track {
            id: TrackId::new(ids),
            name: name.to_owned(),
            channel: DRUM_CHANNEL,
            program: 0,
            volume: DEFAULT_VOLUME,
            pan: CENTER_PAN,
            muted: false,
            solo: false,
            notes: Vec::new(),
        }
    }

    /// Puts `note` into the track and returns its identifier.
    ///
    /// The note goes behind a note that starts no later and before one that
    /// starts later. In an ordered track that is one place: behind every
    /// note with the same or an earlier start.
    pub fn add_note(&mut self, note: Note) -> (id: NoteId)
        ensures
            id == note.id,
            exists|pos: int| placed_at(old(self)@.notes, note, pos, final(self)@.notes),
            old(self).is_sorted() ==> final(self)@.notes == ordered_insert(old(self)@.notes, note),
            old(self).is_sorted() ==> final(self).is_sorted(),
            final(self)@ == (TrackView { notes: final(self)@.notes, ..old(self)@ }),
    {
        let id = note.id;
        let ghost before = self.notes@;
        let pos = upper_bound(&self.notes, note.start_tick);
        self.notes.insert(pos, note);
        proof {
            assert(sorted_by_start(before) ==> self.notes@ == ordered_insert(before, note)
                && sorted_by_start(self.notes@)) by {
                lemma_sorted_pairs(before);
                if sorted_by_start(before) {
                    lemma_ordered_insert_sorted(before, note);
                    lemma_sorted_pairs(ordered_insert(before, note));
                }
            }
            assert(placed_at(old(self)@.notes, note, pos as int, self@.notes));
        }
        id
    }

    /// Creates a note with a fresh identifier and puts it into the track as
    /// `add_note` does.
    pub fn create_note(&mut self, ids: &mut IdAllocator, pitch: u8, velocity: u8, start_tick: u32, duration_ticks: u32) -> (id: NoteId)
        ensures
            id.0 == old(ids).next_note,
            final(ids).next_note == next_counter(old(ids).next_note),
            final(ids).next_track == old(ids).next_track,
            final(self)@.notes.len() == old(self)@.notes.len() + 1,
            old(self).is_sorted() ==> final(self)@.notes == ordered_insert(
                old(self)@.notes,
                Note {
                    id,
                    pitch: min_u8(pitch, MAX_DATA),
                    velocity: min_u8(velocity, MAX_DATA),
                    start_tick,
                    duration_ticks: if duration_ticks == 0 { 1u32 } else { duration_ticks },
                },
            ),
            old(self).is_sorted() ==> final(self).is_sorted(),
            old(self).is_valid() ==> final(self).is_valid(),
            final(self)@ == (TrackView { notes: final(self)@.notes, ..old(self)@ }),
    {
        let note = Note::new(ids, pitch, velocity, start_tick, duration_ticks);
        let id = self.add_note(note);
        proof {
            if old(self).is_valid() {
                lemma_insertion_index_bounds(old(self)@.notes, note.start_tick);
                let p = insertion_index(old(self)@.notes, note.start_tick);
                assert forall|i: int| 0 <= i < self@.notes.len() implies (#[trigger] self@.notes[i]).is_valid() by {
                    if i < p {
                        assert(self@.notes[i] == old(self)@.notes[i]);
                    } else if i > p {
                        assert(self@.notes[i] == old(self)@.notes[i - 1]);
                    }
                }
            }
        }
        id
    }

    /// Takes out the first note with identifier `id` and returns it; `None`,
    /// and no change, if the track has no such note.
    pub fn remove_note(&mut self, id: NoteId) -> (removed: Option<Note>)
        ensures
            removed.is_some() == has_id(old(self)@.notes, id),
            removed matches Some(note) ==> {
                &&& note == old(self)@.notes[index_of_id(old(self)@.notes, id)]
                &&& note.id == id
                &&& final(self)@.notes == old(self)@.notes.remove(index_of_id(old(self)@.notes, id))
            },
            removed.is_none() ==> final(self)@.notes == old(self)@.notes,
            old(self).is_sorted() ==> final(self).is_sorted(),
            final(self)@ == (TrackView { notes: final(self)@.notes, ..old(self)@ }),
    {
        let pos = self.position_of(id);
        if pos < self.notes.len() {
            proof {
                lemma_sorted_pairs(self.notes@);
                lemma_sorted_pairs(self.notes@.remove(pos as int));
            }
            Some(self.notes.remove(pos))
        } else {
            None
        }
    }

    /// Index of the first note with identifier `id`, or the number of notes.
    fn position_of(&self, id: NoteId) -> (pos: usize)
        ensures
            pos == index_of_id(self.notes@, id),
            pos <= self.notes@.len(),
            pos < self.notes@.len() <==> has_id(self.notes@, id),
            pos < self.notes@.len() ==> self.notes@[pos as int].id == id,
    {
        let mut i: usize = 0;
        proof {
            lemma_index_of_id(self.notes@, id);
        }
        while i < self.notes.len()
            invariant
                i <= self.notes.len(),
                i <= index_of_id(self.notes@, id) <= self.notes.len(),
                index_of_id(self.notes@, id) < self.notes.len() ==> self.notes@[index_of_id(self.notes@, id)].id == id,
                forall|k: int| 0 <= k < index_of_id(self.notes@, id) ==> (#[trigger] self.notes@[k]).id != id,
            decreases self.notes.len() - i,
        {
            if self.notes[i].id == id {
                return i;
            }
            i += 1;
        }
        i
    }

    /// The first note with identifier `id`.
    pub fn get_note(&self, id: NoteId) -> (found: Option<&Note>)
        ensures
            found.is_some() == has_id(self@.notes, id),
            found matches Some(note) ==> *note == self@.notes[index_of_id(self@.notes, id)] && note.id == id,
    {
        let pos = self.position_of(id);
        if pos < self.notes.len() {
            Some(&self.notes[pos])
        } else {
            None
        }
    }

    /// The first note with identifier `id`, for changing in place. What is
    /// written through the reference takes that note's place; a caller that
    /// moves its start puts the track in order again with `reorder`.
    pub fn get_note_mut(&mut self, id: NoteId) -> (found: Option<&mut Note>)
        ensures
            found.is_some() == has_id(old(self)@.notes, id),
            match found {
                Some(note) => {
                    &&& *note == old(self)@.notes[index_of_id(old(self)@.notes, id)]
                    &&& final(self)@ == (TrackView {
                        notes: old(self)@.notes.update(index_of_id(old(self)@.notes, id), *final(note)),
                        ..old(self)@
                    })
                },
                None => final(self)@ == old(self)@,
            },
    {
        let pos = self.position_of(id);
        if pos < self.notes.len() {
            Some(&mut self.notes[pos])
        } else {
            None
        }
    }

    /// All notes, in the order in which they are kept.
    pub fn notes(&self) -> (notes: &[Note])
        ensures
            notes@ == self@.notes,
    {
        self.notes.as_slice()
    }

    /// All notes, for changing in place. A caller that moves a start puts
    /// the track in order again with `reorder`.
    pub fn notes_mut(&mut self) -> (notes: &mut [Note])
        ensures
            notes@ == old(self)@.notes,
            final(self)@ == (TrackView { notes: final(notes)@, ..old(self)@ }),
    {
        self.notes.as_mut_slice()
    }

    /// The notes whose interval meets the range from `start` (inclusive) to
    /// `end` (exclusive), in track order.
    pub fn notes_in_range(&self, start: u32, end: u32) -> (hits: Vec<Note>)
        ensures
            hits@ == self@.notes.filter(|n: Note| n.spec_overlaps_range(start, end)),
    {
        let mut hits: Vec<Note> = Vec::new();
        let mut i: usize = 0;
        let ghost pred = |n: Note| n.spec_overlaps_range(start, end);
        proof {
            lemma_filter_nothing(self.notes@.subrange(0, 0), pred);
        }
        while i < self.notes.len()
            invariant
                i <= self.notes.len(),
                pred == (|n: Note| n.spec_overlaps_range(start, end)),
                hits@ == self.notes@.subrange(0, i as int).filter(pred),
            decreases self.notes.len() - i,
        {
            let note = self.notes[i];
            proof {
                assert(self.notes@.subrange(0, i + 1) =~= self.notes@.subrange(0, i as int).push(note));
                self.notes@.subrange(0, i as int).lemma_filter_push(note, pred);
            }
            if note.overlaps_range(start, end) {
                hits.push(note);
            }
            i += 1;
        }
        assert(self.notes@.subrange(0, i as int) =~= self.notes@);
        hits
    }

    /// The notes that sound at `tick`, in track order.
    pub fn notes_at_tick(&self, tick: u32) -> (hits: Vec<Note>)
        ensures
            hits@ == self@.notes.filter(|n: Note| n.spec_is_active_at(tick)),
    {
        let mut hits: Vec<Note> = Vec::new();
        let mut i: usize = 0;
        let ghost pred = |n: Note| n.spec_is_active_at(tick);
        proof {
            lemma_filter_nothing(self.notes@.subrange(0, 0), pred);
        }
        while i < self.notes.len()
            invariant
                i <= self.notes.len(),
                pred == (|n: Note| n.spec_is_active_at(tick)),
                hits@ == self.notes@.subrange(0, i as int).filter(pred),
            decreases self.notes.len() - i,
        {
            let note = self.notes[i];
            proof {
                assert(self.notes@.subrange(0, i + 1) =~= self.notes@.subrange(0, i as int).push(note));
                self.notes@.subrange(0, i as int).lemma_filter_push(note, pred);
            }
            if note.is_active_at(tick) {
                hits.push(note);
            }
            i += 1;
        }
        assert(self.notes@.subrange(0, i as int) =~= self.notes@);
        hits
    }

    /// Length of the track in ticks: the latest end of a note, 0 without notes.
    pub fn duration_ticks(&self) -> (ticks: u32)
        ensures
            ticks == max_end_tick(self@.notes),
    {
        let mut ticks: u32 = 0;
        let mut i: usize = 0;
        while i < self.notes.len()
            invariant
                i <= self.notes.len(),
                ticks == max_end_tick(self.notes@.subrange(0, i as int)),
            decreases self.notes.len() - i,
        {
            proof {
                assert(self.notes@.subrange(0, i + 1).drop_last() =~= self.notes@.subrange(0, i as int));
            }
            let end = self.notes[i].end_tick();
            if end > ticks {
                ticks = end;
            }
            i += 1;
        }
        assert(self.notes@.subrange(0, i as int) =~= self.notes@);
        ticks
    }

    /// Number of notes.
    pub fn note_count(&self) -> (count: usize)
        ensures
            count == self@.notes.len(),
    {
        self.notes.len()
    }

    /// Removes every note.
    pub fn clear(&mut self)
        ensures
            final(self)@ == (TrackView { notes: Seq::<Note>::empty(), ..old(self)@ }),
            final(self).is_sorted(),
    {
        self.notes.clear();
    }

    /// Puts the notes in order of start again; notes with equal start keep
    /// their order.
    pub fn reorder(&mut self)
        ensures
            final(self)@ == (TrackView { notes: stable_sort(old(self)@.notes), ..old(self)@ }),
            final(self).is_sorted(),
    {
        let sorted = sorted_copy(&self.notes);
        proof {
            lemma_stable_sort_sorted(self.notes@);
        }
        self.notes = sorted;
    }

    /// Moves each start to the nearest multiple of `grid_ticks`, a start half
    /// way between two going up, then puts the notes in order again. A grid
    /// of 0 changes nothing.
    pub fn quantize(&mut self, grid_ticks: u32)
        ensures
            grid_ticks == 0 ==> final(self)@ == old(self)@,
            grid_ticks > 0 ==> final(self)@ == (TrackView {
                notes: stable_sort(old(self)@.notes.map_values(|n: Note| quantized_note(n, grid_ticks))),
                ..old(self)@
            }),
            grid_ticks > 0 ==> final(self).is_sorted(),
    {
        if grid_ticks == 0 {
            return;
        }
        let ghost snap = |n: Note| quantized_note(n, grid_ticks);
        let mut moved: Vec<Note> = Vec::with_capacity(self.notes.len());
        let mut i: usize = 0;
        while i < self.notes.len()
            invariant
                i <= self.notes.len(),
                grid_ticks > 0,
                snap == (|n: Note| quantized_note(n, grid_ticks)),
                moved@ == self.notes@.subrange(0, i as int).map_values(snap),
            decreases self.notes.len() - i,
        {
            let mut note = self.notes[i];
            let rem: u32 = note.start_tick % grid_ticks;
            proof {
                vstd::arithmetic::div_mod::lemma_mod_decreases(note.start_tick as nat, grid_ticks as nat);
            }
            let below: u32 = note.start_tick - rem;
            if rem >= grid_ticks - rem && below <= u32::MAX - grid_ticks {
                note.start_tick = below + grid_ticks;
            } else {
                note.start_tick = below;
            }
            assert(note == quantized_note(self.notes@[i as int], grid_ticks));
            moved.push(note);
            assert(moved@ =~= self.notes@.subrange(0, i + 1).map_values(snap));
            i += 1;
        }
        assert(self.notes@.subrange(0, i as int) =~= self.notes@);
        let sorted = sorted_copy(&moved);
        proof {
            lemma_stable_sort_sorted(moved@);
        }
        self.notes = sorted;
    }

    /// Moves every note by `semitones` that stays within 0 to 127 when
    /// moved, and returns how many could not move.
    pub fn transpose_all(&mut self, semitones: i8) -> (stuck: usize)
        ensures
            final(self)@ == (TrackView {
                notes: old(self)@.notes.map_values(|n: Note| transposed_note(n, semitones)),
                ..old(self)@
            }),
            stuck == count_stuck(old(self)@.notes, semitones),
            old(self).is_sorted() ==> final(self).is_sorted(),
    {
        let ghost before = self.notes@;
        let ghost shift = |n: Note| transposed_note(n, semitones);
        let ghost fails = |n: Note| !can_transpose(n.pitch, semitones);
        let mut stuck: usize = 0;
        let mut i: usize = 0;
        proof {
            lemma_filter_nothing(before.subrange(0, 0), fails);
            assert(self.notes@.subrange(0, 0) =~= before.subrange(0, 0).map_values(shift));
        }
        while i < self.notes.len()
            invariant
                i <= self.notes.len(),
                self.notes@.len() == before.len(),
                shift == (|n: Note| transposed_note(n, semitones)),
                fails == (|n: Note| !can_transpose(n.pitch, semitones)),
                self.notes@.subrange(0, i as int) == before.subrange(0, i as int).map_values(shift),
                self.notes@.subrange(i as int, before.len() as int) == before.subrange(i as int, before.len() as int),
                stuck == before.subrange(0, i as int).filter(fails).len(),
                stuck <= i,
                self@ == (TrackView { notes: self.notes@, ..old(self)@ }),
            decreases self.notes.len() - i,
        {
            let ghost prev = self.notes@;
            assert(prev[i as int] == before[i as int]) by {
                assert(prev.subrange(i as int, before.len() as int)[0] == before.subrange(i as int, before.len() as int)[0]);
            }
            let mut note = self.notes[i];
            let moved = note.transpose(semitones);
            self.notes[i] = note;
            proof {
                assert(before.subrange(0, i + 1) =~= before.subrange(0, i as int).push(before[i as int]));
                before.subrange(0, i as int).lemma_filter_push(before[i as int], fails);
                assert(self.notes@.subrange(0, i + 1) =~= before.subrange(0, i + 1).map_values(shift)) by {
                    assert forall|k: int| 0 <= k < i + 1 implies self.notes@[k] == shift(before[k]) by {
                        if k < i {
                            assert(prev.subrange(0, i as int)[k] == shift(before.subrange(0, i as int)[k]));
                        }
                    }
                }
                assert(self.notes@.subrange(i + 1, before.len() as int) =~= before.subrange(i + 1, before.len() as int)) by {
                    assert forall|k: int| i + 1 <= k < before.len() implies self.notes@[k] == before[k] by {
                        assert(prev.subrange(i as int, before.len() as int)[k - i] == before.subrange(i as int, before.len() as int)[k - i]);
                    }
                }
            }
            if !moved {
                stuck += 1;
            }
            i += 1;
        }
        proof {
            assert(before.subrange(0, i as int) =~= before);
            assert(self.notes@.subrange(0, i as int) =~= self.notes@);
            if sorted_by_start(before) {
                assert forall|k: int| 0 <= k && k + 1 < self.notes@.len() implies (#[trigger] self.notes@[k]).start_tick
                    <= self.notes@[k + 1].start_tick by {
                    assert(before[k].start_tick <= before[k + 1].start_tick);
                }
            }
        }
        stuck
    }
}

} // verus!

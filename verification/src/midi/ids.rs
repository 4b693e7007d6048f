//! Identifiers of notes and tracks, and the counters that hand them out.

use vstd::prelude::*;

verus! {

/// Identifier of a note. Two notes made from one [`IdAllocator`] never share
/// an identifier until its counter has gone through all 2^64 values.
#[derive(Debug, Clone, Copy, PartialEq, Eq, Hash, Structural)]
pub struct NoteId(pub u64);

/// Identifier of a track, drawn from a counter of its own.
#[derive(Debug, Clone, Copy, PartialEq, Eq, Hash, Structural)]
pub struct TrackId(pub u64);

/// The two monotonic counters from which identifiers are drawn.
///
/// One allocator serves a whole run of the program; handing the same
/// allocator to every constructor is what makes identifiers unique.
#[derive(Debug, Clone, Copy, PartialEq, Eq, Structural)]
pub struct IdAllocator {
    /// Raw value of the next note identifier.
    pub next_note: u64,
    /// Raw value of the next track identifier.
    pub next_track: u64,
}

/// The counter value that follows `n`: one more, wrapping to zero after the
/// largest value.
pub open spec fn next_counter(n: u64) -> u64 {
    if n == u64::MAX {
        0
    } else {
        (n + 1) as u64
    }
}

impl IdAllocator {
    /// An allocator whose two counters start at 1.
    pub fn new() -> (ids: Self)
        ensures
            ids.next_note == 1,
            ids.next_track == 1,
    {
        IdAllocator { next_note: 1, next_track: 1 }
    }

    /// An allocator that continues from the given counter values.
    pub fn starting_at(next_note: u64, next_track: u64) -> (ids: Self)
        ensures
            ids.next_note == next_note,
            ids.next_track == next_track,
    {
        IdAllocator { next_note, next_track }
    }
}

impl NoteId {
    /// Draws the next note identifier and advances the note counter.
    pub fn new(ids: &mut IdAllocator) -> (id: Self)
        ensures
            id.0 == old(ids).next_note,
            final(ids).next_note == next_counter(old(ids).next_note),
            final(ids).next_track == old(ids).next_track,
    {
        let raw: u64 = ids.next_note;
        ids.next_note = raw.wrapping_add(1);
        NoteId(raw)
    }

    /// The identifier with the given raw value, as read back from a file.
    pub fn from_raw(raw: u64) -> (id: Self)
        ensures
            id.0 == raw,
    {
        NoteId(raw)
    }

    /// The raw value of the identifier.
    pub fn as_u64(&self) -> (raw: u64)
        ensures
            raw == self.0,
    {
        self.0
    }
}

impl TrackId {
    /// Draws the next track identifier and advances the track counter.
    pub fn new(ids: &mut IdAllocator) -> (id: Self)
        ensures
            id.0 == old(ids).next_track,
            final(ids).next_track == next_counter(old(ids).next_track),
            final(ids).next_note == old(ids).next_note,
    {
        let raw: u64 = ids.next_track;
        ids.next_track = raw.wrapping_add(1);
        TrackId(raw)
    }

    /// The identifier with the given raw value, as read back from a file.
    pub fn from_raw(raw: u64) -> (id: Self)
        ensures
            id.0 == raw,
    {
        TrackId(raw)
    }

    /// The raw value of the identifier.
    pub fn as_u64(&self) -> (raw: u64)
        ensures
            raw == self.0,
    {
        self.0
    }
}

} // verus!

//! A single note: pitch, velocity, start and duration in ticks.

use vstd::prelude::*;
use super::ids::{IdAllocator, NoteId, next_counter};

verus! {

/// Highest pitch, velocity, program, volume and pan value of MIDI.
pub const MAX_DATA: u8 = 127;

/// A note of a track.
#[derive(Debug, Clone, Copy, PartialEq, Eq, Structural)]
pub struct Note {
    /// Identifier, kept across edits and saves.
    pub id: NoteId,
    /// MIDI note number, 0 to 127; 60 is middle C.
    pub pitch: u8,
    /// Attack intensity, 0 to 127.
    pub velocity: u8,
    /// Start, in ticks from the beginning of the track.
    pub start_tick: u32,
    /// Length in ticks, at least 1.
    pub duration_ticks: u32,
}

/// The smaller of the two values.
pub open spec fn min_u8(a: u8, b: u8) -> u8 {
    if a <= b {
        a
    } else {
        b
    }
}

/// `a + b`, held at the largest `u32` where the sum would pass it.
pub open spec fn saturating_sum(a: u32, b: u32) -> u32 {
    if a + b > u32::MAX {
        u32::MAX
    } else {
        (a + b) as u32
    }
}

/// `tick + delta`, held at 0 below and at the largest `u32` above.
pub open spec fn shifted_tick(tick: u32, delta: int) -> u32 {
    if tick + delta < 0 {
        0
    } else if tick + delta > u32::MAX {
        u32::MAX
    } else {
        (tick + delta) as u32
    }
}

impl Note {
    /// Pitch and velocity are MIDI data bytes and the note lasts at least one tick.
    pub open spec fn is_valid(&self) -> bool {
        &&& self.pitch <= MAX_DATA
        &&& self.velocity <= MAX_DATA
        &&& self.duration_ticks >= 1
    }

    /// First tick after the note: start plus duration, saturating.
    pub open spec fn spec_end_tick(&self) -> u32 {
        saturating_sum(self.start_tick, self.duration_ticks)
    }

    /// The note's interval meets the range from `start` (inclusive) to `end` (exclusive).
    pub open spec fn spec_overlaps_range(&self, start: u32, end: u32) -> bool {
        self.start_tick < end && self.spec_end_tick() > start
    }

    /// The note sounds at `tick`.
    pub open spec fn spec_is_active_at(&self, tick: u32) -> bool {
        self.start_tick <= tick && tick < self.spec_end_tick()
    }

    /// Creates a note with a fresh identifier. Pitch and velocity above 127
    /// become 127, and a duration of 0 becomes 1.
    pub fn new(ids: &mut IdAllocator, pitch: u8, velocity: u8, start_tick: u32, duration_ticks: u32) -> (note: Self)
        ensures
            note.id.0 == old(ids).next_note,
            final(ids).next_note == next_counter(old(ids).next_note),
            final(ids).next_track == old(ids).next_track,
            note.pitch == min_u8(pitch, MAX_DATA),
            note.velocity == min_u8(velocity, MAX_DATA),
            note.start_tick == start_tick,
            note.duration_ticks == (if duration_ticks == 0 { 1u32 } else { duration_ticks }),
            note.is_valid(),
    {
        Note {
            id: NoteId::new(ids),
            pitch: if pitch > MAX_DATA { MAX_DATA } else { pitch },
            velocity: if velocity > MAX_DATA { MAX_DATA } else { velocity },
            start_tick,
            duration_ticks: if duration_ticks == 0 { 1 } else { duration_ticks },
        }
    }

    /// First tick after the note.
    #[verifier::when_used_as_spec(spec_end_tick)]
    pub fn end_tick(&self) -> (end: u32)
        ensures
            end == self.spec_end_tick(),
    {
        self.start_tick.saturating_add(self.duration_ticks)
    }

    /// Whether any part of the note lies in the range from `start`
    /// (inclusive) to `end` (exclusive).
    #[verifier::when_used_as_spec(spec_overlaps_range)]
    pub fn overlaps_range(&self, start: u32, end: u32) -> (hit: bool)
        ensures
            hit == self.spec_overlaps_range(start, end),
    {
        self.start_tick < end && self.end_tick() > start
    }

    /// Whether the note sounds at `tick`: from its start up to, not
    /// including, its end.
    #[verifier::when_used_as_spec(spec_is_active_at)]
    pub fn is_active_at(&self, tick: u32) -> (active: bool)
        ensures
            active == self.spec_is_active_at(tick),
            active <==> (tick >= self.start_tick && tick < self.spec_end_tick()),
    {
        tick >= self.start_tick && tick < self.end_tick()
    }

    /// A copy of the note under a fresh identifier.
    pub fn duplicate(&self, ids: &mut IdAllocator) -> (copy: Self)
        ensures
            copy.id.0 == old(ids).next_note,
            final(ids).next_note == next_counter(old(ids).next_note),
            final(ids).next_track == old(ids).next_track,
            copy == (Note { id: copy.id, ..*self }),
    {
        Note {
            id: NoteId::new(ids),
            pitch: self.pitch,
            velocity: self.velocity,
            start_tick: self.start_tick,
            duration_ticks: self.duration_ticks,
        }
    }

    /// Moves the pitch by `semitones` if the result stays within 0 to 127;
    /// otherwise leaves the note as it is and returns `false`.
    pub fn transpose(&mut self, semitones: i8) -> (moved: bool)
        ensures
            moved == (0 <= old(self).pitch + semitones <= 127),
            moved ==> *final(self) == (Note { pitch: (old(self).pitch + semitones) as u8, ..*old(self) }),
            !moved ==> *final(self) == *old(self),
    {
        let new_pitch: i16 = self.pitch as i16 + semitones as i16;
        if 0 <= new_pitch && new_pitch <= 127 {
            self.pitch = new_pitch as u8;
            true
        } else {
            false
        }
    }

    /// Moves the start by `ticks`, stopping at tick 0 and at the largest tick.
    pub fn shift(&mut self, ticks: i32)
        ensures
            *final(self) == (Note { start_tick: shifted_tick(old(self).start_tick, ticks as int), ..*old(self) }),
    {
        let moved: i64 = self.start_tick as i64 + ticks as i64;
        if moved < 0 {
            self.start_tick = 0;
        } else if moved > u32::MAX as i64 {
            self.start_tick = u32::MAX;
        } else {
            self.start_tick = moved as u32;
        }
    }
}

} // verus!

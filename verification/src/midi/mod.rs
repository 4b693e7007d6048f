//! Musical data: notes, tracks, projects and their identifiers.

use vstd::prelude::*;

pub mod edit;
pub mod fidelity;
pub mod ids;
pub mod midi_export;
pub mod midi_import;
pub mod names;
pub mod note;
pub mod order;
pub mod project;
pub mod round_trip;
pub mod smf;
pub mod track;

pub use ids::{IdAllocator, NoteId, TrackId};
pub use midi_export::{export_to_midi, MidiExportError};
pub use midi_import::{import_from_midi, MidiImportError};
pub use names::{name_to_note, note_to_name};
pub use note::Note;
pub use project::{Project, ProjectView};
pub use track::{Track, TrackView};

verus! {

/// Ticks per beat (quarter note): the fixed internal resolution.
pub const TICKS_PER_BEAT: u32 = 480;

/// Tempo of a fresh project, in beats per minute.
pub const DEFAULT_TEMPO: u32 = 120;

/// Ticks of a 4/4 measure.
pub const TICKS_PER_WHOLE: u32 = 1920;

/// Some multiple of `step` lies in the range from `tick` (inclusive) to
/// `tick + width` (exclusive).
pub open spec fn holds_multiple(tick: u32, width: u32, step: u32) -> bool {
    exists|k: int| 0 <= k && tick <= #[trigger] (k * step) < tick + width
}

/// The first multiple of `step` at or behind `tick`.
pub open spec fn next_multiple(tick: u32, step: u32) -> int
    recommends
        step > 0,
{
    if tick % step == 0 {
        tick as int
    } else {
        (tick / step + 1) * step
    }
}

/// `next_multiple` is a multiple of `step`, it lies less than `step`
/// behind `tick`, and no multiple lies between the two.
pub proof fn lemma_next_multiple(tick: u32, width: u32, step: u32)
    requires
        step > 0,
    ensures
        tick <= next_multiple(tick, step) < tick + step,
        holds_multiple(tick, width, step) <==> next_multiple(tick, step) < tick + width,
{
    let q = tick as int / step as int;
    let r = tick as int % step as int;
    let s = step as int;
    vstd::arithmetic::div_mod::lemma_fundamental_div_mod(tick as int, s);
    assert(tick == s * q + r);
    assert(q * s == s * q) by (nonlinear_arith);
    assert((q + 1) * s == q * s + s) by (nonlinear_arith);
    let next = next_multiple(tick, step);
    let m = if r == 0 {
        q
    } else {
        q + 1
    };
    assert(next == m * s);
    if next < tick + width {
        assert(0 <= m && tick <= m * step < tick + width);
    }
    if holds_multiple(tick, width, step) {
        let k = choose|k: int| 0 <= k && tick <= #[trigger] (k * step) < tick + width;
        assert(k >= m) by (nonlinear_arith)
            requires
                k * s >= q * s + r,
                0 <= r < s,
                m == (if r == 0 {
                    q
                } else {
                    q + 1
                }),
                s > 0,
        ;
        assert(k * s >= m * s) by (nonlinear_arith)
            requires
                k >= m,
                s > 0,
        ;
    }
}

/// Whether the range of `width` ticks that begins at `tick` holds a
/// multiple of `step`.
fn range_holds_multiple(tick: u32, width: u32, step: u32) -> (hit: bool)
    requires
        step > 0,
    ensures
        hit == holds_multiple(tick, width, step),
{
    proof {
        lemma_next_multiple(tick, width, step);
    }
    let next: u64 = if tick % step == 0 {
        tick as u64
    } else {
        let whole: u64 = tick as u64 / step as u64 + 1;
        assert(whole * step <= 0x1_0000_0000 * 0xFFFF_FFFF) by (nonlinear_arith)
            requires
                0 <= whole <= 0x1_0000_0000,
                0 <= step <= 0xFFFF_FFFF,
        ;
        whole * step as u64
    };
    next < tick as u64 + width as u64
}

/// Whether a beat begins within the `zoom` ticks from `tick` on: the
/// ticks of one display column.
pub fn contains_beat(tick: u32, zoom: u32) -> (hit: bool)
    ensures
        hit == holds_multiple(tick, zoom, TICKS_PER_BEAT),
{
    range_holds_multiple(tick, zoom, TICKS_PER_BEAT)
}

/// Whether a 4/4 measure begins within the `zoom` ticks from `tick` on.
pub fn contains_measure(tick: u32, zoom: u32) -> (hit: bool)
    ensures
        hit == holds_multiple(tick, zoom, TICKS_PER_WHOLE),
{
    range_holds_multiple(tick, zoom, TICKS_PER_WHOLE)
}

} // verus!

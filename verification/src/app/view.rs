//! What the piano roll tells about the notes that it does not show,
//! and how the track list shows volume and pan.

use vstd::prelude::*;
use crate::midi::note::Note;
use crate::text::{decimal_text, padded_text, push_char, push_decimal, push_padded};

verus! {

/// The edges of the view behind which there are notes.
#[derive(Debug, Clone, Copy, PartialEq, Eq, Structural)]
pub struct OffScreenIndicators {
    /// A note lies above the pitches shown.
    pub above: bool,
    /// A note lies below the pitches shown.
    pub below: bool,
    /// A note begins before the first tick shown and ends behind it.
    pub left: bool,
    /// A note begins before the first tick that is not shown any more
    /// and ends behind it.
    pub right: bool,
}

/// The pitch above the highest pitch shown: at most 128.
pub open spec fn pitch_limit(scroll_y: u8, visible_pitches: u8) -> int {
    if scroll_y + visible_pitches > 128 {
        128
    } else {
        scroll_y + visible_pitches
    }
}

/// The first tick that is not shown any more, held at the largest
/// `u32`; of the ticks shown only the low 32 bits count.
pub open spec fn tick_limit(scroll_x: u32, visible_ticks: u64) -> int {
    let end = scroll_x + visible_ticks % 0x1_0000_0000;
    if end > u32::MAX {
        u32::MAX as int
    } else {
        end
    }
}

/// The note begins before `tick` and ends behind it.
pub open spec fn straddles(note: Note, tick: int) -> bool {
    note.start_tick < tick && note.spec_end_tick() > tick
}

/// The note lies at or above `pitch`.
pub open spec fn at_or_above(note: Note, pitch: int) -> bool {
    note.pitch >= pitch
}

/// The note lies below `pitch`.
pub open spec fn below(note: Note, pitch: int) -> bool {
    note.pitch < pitch
}

/// The edges of the view behind which there are notes among the first
/// `upto` of `notes`.
pub open spec fn off_screen(
    notes: Seq<Note>,
    scroll_x: u32,
    scroll_y: u8,
    visible_ticks: u64,
    visible_pitches: u8,
    upto: int,
) -> OffScreenIndicators {
    OffScreenIndicators {
        above: exists|i: int|
            0 <= i < upto && at_or_above(#[trigger] notes[i], pitch_limit(scroll_y, visible_pitches)),
        below: exists|i: int| 0 <= i < upto && below(#[trigger] notes[i], scroll_y as int),
        left: exists|i: int| 0 <= i < upto && straddles(#[trigger] notes[i], scroll_x as int),
        right: exists|i: int|
            0 <= i < upto && straddles(#[trigger] notes[i], tick_limit(scroll_x, visible_ticks)),
    }
}

/// The mark of the edges in the title of the piano roll: `^`, `v`, `<`
/// and `>` for the edges behind which there are notes, in brackets, or
/// nothing where there is none.
pub open spec fn indicator_text(shown: OffScreenIndicators) -> Seq<char> {
    if !shown.above && !shown.below && !shown.left && !shown.right {
        Seq::<char>::empty()
    } else {
        seq!['['] + (if shown.above {
            seq!['^']
        } else {
            Seq::<char>::empty()
        }) + (if shown.below {
            seq!['v']
        } else {
            Seq::<char>::empty()
        }) + (if shown.left {
            seq!['<']
        } else {
            Seq::<char>::empty()
        }) + (if shown.right {
            seq!['>']
        } else {
            Seq::<char>::empty()
        }) + seq![']']
    }
}

/// How loud a track is set.
#[derive(Debug, Clone, Copy, PartialEq, Eq, Structural)]
pub enum VolumeLevel {
    /// Up to 80.
    Normal,
    /// From 81 to 100.
    Hot,
    /// Above 100.
    Clipping,
}

/// How loud a volume of `volume` is.
pub open spec fn level_of(volume: u8) -> VolumeLevel {
    if volume > 100 {
        VolumeLevel::Clipping
    } else if volume > 80 {
        VolumeLevel::Hot
    } else {
        VolumeLevel::Normal
    }
}

/// The pan of a track in three characters, for the track list: `L` or
/// `R` and the distance from the centre, or `C` for the centre.
pub open spec fn pan_label_text(pan: u8) -> Seq<char> {
    if pan < 64 {
        seq!['L'] + padded_text((64 - pan) as nat, 2, ' ')
    } else if pan > 64 {
        seq!['R'] + padded_text((pan - 64) as nat, 2, ' ')
    } else {
        seq!['C', ' ', ' ']
    }
}

/// The pan of a track for a notice: `L` or `R` and the distance from
/// the centre where that is more than 10, else `C`.
pub open spec fn pan_notice_text(pan: u8) -> Seq<char> {
    if pan < 54 {
        seq!['L'] + decimal_text((64 - pan) as nat)
    } else if pan > 74 {
        seq!['R'] + decimal_text((pan - 64) as nat)
    } else {
        seq!['C']
    }
}

/// How loud a volume of `volume` is.
pub fn volume_level(volume: u8) -> (level: VolumeLevel)
    ensures
        level == level_of(volume),
{
    if volume > 100 {
        VolumeLevel::Clipping
    } else if volume > 80 {
        VolumeLevel::Hot
    } else {
        VolumeLevel::Normal
    }
}

/// The pan of a track in three characters, for the track list.
pub fn format_pan(pan: u8) -> (text: String)
    ensures
        text@ == pan_label_text(pan),
{
    let mut text = String::new();
    if pan < 64 {
        push_char(&mut text, 'L');
        push_padded((64 - pan) as u64, 2, ' ', &mut text);
        assert(text@ =~= pan_label_text(pan));
    } else if pan > 64 {
        push_char(&mut text, 'R');
        push_padded((pan - 64) as u64, 2, ' ', &mut text);
        assert(text@ =~= pan_label_text(pan));
    } else {
        push_char(&mut text, 'C');
        push_char(&mut text, ' ');
        push_char(&mut text, ' ');
        assert(text@ =~= pan_label_text(pan));
    }
    text
}

/// The pan of a track for a notice.
pub fn pan_notice(pan: u8) -> (text: String)
    ensures
        text@ == pan_notice_text(pan),
{
    let mut text = String::new();
    if pan < 54 {
        push_char(&mut text, 'L');
        push_decimal((64 - pan) as u64, &mut text);
        assert(text@ =~= pan_notice_text(pan));
    } else if pan > 74 {
        push_char(&mut text, 'R');
        push_decimal((pan - 64) as u64, &mut text);
        assert(text@ =~= pan_notice_text(pan));
    } else {
        push_char(&mut text, 'C');
        assert(text@ =~= pan_notice_text(pan));
    }
    text
}

impl OffScreenIndicators {
    /// Finds the edges of the view behind which there are notes. The
    /// view shows `visible_pitches` pitches from `scroll_y` up and
    /// `visible_ticks` ticks from `scroll_x` on.
    pub fn calculate(
        notes: &[Note],
        scroll_x: u32,
        scroll_y: u8,
        visible_ticks: u64,
        visible_pitches: u8,
    ) -> (shown: Self)
        ensures
            shown == off_screen(
                notes@,
                scroll_x,
                scroll_y,
                visible_ticks,
                visible_pitches,
                notes@.len() as int,
            ),
    {
        let pitch_max: u16 = if scroll_y as u16 + visible_pitches as u16 > 128 {
            128
        } else {
            scroll_y as u16 + visible_pitches as u16
        };
        let low: u64 = visible_ticks % 0x1_0000_0000;
        let tick_max: u32 = if scroll_x as u64 + low > u32::MAX as u64 {
            u32::MAX
        } else {
            (scroll_x as u64 + low) as u32
        };
        let mut shown = OffScreenIndicators { above: false, below: false, left: false, right: false };
        let mut i: usize = 0;
        while i < notes.len()
            invariant
                i <= notes@.len(),
                pitch_max == pitch_limit(scroll_y, visible_pitches),
                tick_max == tick_limit(scroll_x, visible_ticks),
                shown == off_screen(
                    notes@,
                    scroll_x,
                    scroll_y,
                    visible_ticks,
                    visible_pitches,
                    i as int,
                ),
            decreases notes@.len() - i,
        {
            let note = &notes[i];
            let ghost before = shown;
            if note.pitch as u16 >= pitch_max {
                shown.above = true;
            }
            if note.pitch < scroll_y {
                shown.below = true;
            }
            if note.start_tick < scroll_x && note.end_tick() > scroll_x {
                shown.left = true;
            }
            if note.start_tick < tick_max && note.end_tick() > tick_max {
                shown.right = true;
            }
            proof {
                let next = off_screen(
                    notes@,
                    scroll_x,
                    scroll_y,
                    visible_ticks,
                    visible_pitches,
                    i + 1,
                );
                let this = notes@[i as int];
                assert(next.above == (before.above || at_or_above(this, pitch_max as int)));
                assert(next.below == (before.below || below(this, scroll_y as int)));
                assert(next.left == (before.left || straddles(this, scroll_x as int)));
                assert(next.right == (before.right || straddles(this, tick_max as int)));
            }
            i += 1;
        }
        shown
    }

    /// The mark of the edges for the title of the piano roll.
    pub fn title_indicator(&self) -> (text: String)
        ensures
            text@ == indicator_text(*self),
    {
        let mut text = String::new();
        if !self.above && !self.below && !self.left && !self.right {
            return text;
        }
        push_char(&mut text, '[');
        if self.above {
            push_char(&mut text, '^');
        }
        if self.below {
            push_char(&mut text, 'v');
        }
        if self.left {
            push_char(&mut text, '<');
        }
        if self.right {
            push_char(&mut text, '>');
        }
        push_char(&mut text, ']');
        assert(text@ =~= indicator_text(*self));
        text
    }
}

} // verus!

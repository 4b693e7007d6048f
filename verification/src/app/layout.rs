//! Where the panels lie on the screen.
//!
//! The user interface draws the panels and tells the editor where each
//! of them came to lie; the editor finds the panel under the mouse from
//! that. Columns and rows are counted from the top left corner.

use vstd::prelude::*;
use super::{FocusedPanel, ViewMode};

verus! {

/// Columns that the piano keys take at the left of the piano roll.
pub const PIANO_KEY_WIDTH: u16 = 5;

/// Columns that the track labels take at the left of the project
/// timeline.
pub const TRACK_LABEL_WIDTH: u16 = 12;

/// Rows that the time ruler takes at the top of the grid.
pub const TIME_RULER_HEIGHT: u16 = 1;

/// A rectangle of the screen.
#[derive(Debug, Clone, Copy, PartialEq, Eq, Structural)]
pub struct Region {
    /// Column of the left edge.
    pub x: u16,
    /// Row of the top edge.
    pub y: u16,
    /// Number of columns.
    pub width: u16,
    /// Number of rows.
    pub height: u16,
}

/// The rectangle of each panel, as it was last drawn.
#[derive(Debug, Clone, Copy, PartialEq, Eq, Structural)]
pub struct LayoutRegions {
    /// The transport bar at the top.
    pub timeline: Region,
    /// The list of tracks at the left.
    pub track_list: Region,
    /// The piano roll.
    pub piano_roll: Region,
    /// The grid of the piano roll, without the piano keys.
    pub piano_roll_grid: Region,
    /// The keyboard at the bottom.
    pub keyboard: Region,
    /// The time ruler of the piano roll.
    pub piano_roll_ruler: Region,
    /// The time ruler of the project timeline.
    pub project_timeline_ruler: Region,
    /// Rows of pitches that the piano roll shows.
    pub visible_pitches: u8,
}

/// `value`, or the largest `u16` where it is more.
pub open spec fn held(value: int) -> u16 {
    if value > u16::MAX {
        u16::MAX
    } else {
        value as u16
    }
}

/// The grid within the piano roll: inside the border, to the right of
/// the piano keys or, in the project timeline, of the track labels. In
/// the combined view the piano roll has 55 of 100 rows of the area.
pub open spec fn grid_within(piano_roll: Region, view_mode: ViewMode) -> Region {
    let labels = if view_mode == ViewMode::ProjectTimeline {
        TRACK_LABEL_WIDTH
    } else {
        PIANO_KEY_WIDTH
    };
    let height = if view_mode == ViewMode::Combined {
        piano_roll.height * 55 / 100
    } else {
        piano_roll.height as int
    };
    Region {
        x: held(piano_roll.x + 1 + labels),
        y: held(piano_roll.y + 1),
        width: if piano_roll.width > 2 + labels {
            (piano_roll.width - 2 - labels) as u16
        } else {
            0
        },
        height: if height > 2 {
            (height - 2) as u16
        } else {
            0
        },
    }
}

/// The rows of pitches in a grid of `height` rows: those under the time
/// ruler, at most 127.
pub open spec fn pitch_rows(height: u16) -> u8 {
    if height - TIME_RULER_HEIGHT > 127 {
        127
    } else if height > TIME_RULER_HEIGHT {
        (height - TIME_RULER_HEIGHT) as u8
    } else {
        0
    }
}

impl Region {
    /// The point lies in the rectangle.
    pub open spec fn holds(&self, x: u16, y: u16) -> bool {
        &&& self.x <= x < self.x + self.width
        &&& self.y <= y < self.y + self.height
    }

    /// The rectangle without columns or rows at the top left corner.
    pub fn empty() -> (region: Self)
        ensures
            region == (Region { x: 0, y: 0, width: 0, height: 0 }),
    {
        Region { x: 0, y: 0, width: 0, height: 0 }
    }

    /// Whether the point lies in the rectangle.
    pub fn contains(&self, x: u16, y: u16) -> (hit: bool)
        ensures
            hit == self.holds(x, y),
    {
        x >= self.x && (x as u32) < self.x as u32 + self.width as u32 && y >= self.y && (y as u32)
            < self.y as u32 + self.height as u32
    }
}

impl LayoutRegions {
    /// The panel in which the point lies: the first of transport bar,
    /// track list, piano roll and keyboard that holds it.
    pub open spec fn panel(&self, x: u16, y: u16) -> Option<FocusedPanel> {
        if self.timeline.holds(x, y) {
            Some(FocusedPanel::Timeline)
        } else if self.track_list.holds(x, y) {
            Some(FocusedPanel::TrackList)
        } else if self.piano_roll.holds(x, y) {
            Some(FocusedPanel::PianoRoll)
        } else if self.keyboard.holds(x, y) {
            Some(FocusedPanel::Keyboard)
        } else {
            None
        }
    }

    /// The column within the time ruler in which the point lies, and the
    /// width of that ruler: of the piano roll first, then of the project
    /// timeline.
    pub open spec fn ruler(&self, x: u16, y: u16) -> Option<(u16, u16)> {
        if self.piano_roll_ruler.holds(x, y) {
            Some(((x - self.piano_roll_ruler.x) as u16, self.piano_roll_ruler.width))
        } else if self.project_timeline_ruler.holds(x, y) {
            Some(((x - self.project_timeline_ruler.x) as u16, self.project_timeline_ruler.width))
        } else {
            None
        }
    }

    /// The point lies on the piano keys: in one of the columns that
    /// follow the left border of the piano roll.
    pub open spec fn on_piano_keys(&self, x: u16) -> bool {
        self.piano_roll.x < x < self.piano_roll.x + 1 + PIANO_KEY_WIDTH
    }

    /// The layout before anything was drawn: every rectangle is empty.
    pub fn new() -> (layout: Self)
        ensures
            layout == (LayoutRegions {
                timeline: Region { x: 0, y: 0, width: 0, height: 0 },
                track_list: Region { x: 0, y: 0, width: 0, height: 0 },
                piano_roll: Region { x: 0, y: 0, width: 0, height: 0 },
                piano_roll_grid: Region { x: 0, y: 0, width: 0, height: 0 },
                keyboard: Region { x: 0, y: 0, width: 0, height: 0 },
                piano_roll_ruler: Region { x: 0, y: 0, width: 0, height: 0 },
                project_timeline_ruler: Region { x: 0, y: 0, width: 0, height: 0 },
                visible_pitches: 0,
            }),
    {
        LayoutRegions {
            timeline: Region::empty(),
            track_list: Region::empty(),
            piano_roll: Region::empty(),
            piano_roll_grid: Region::empty(),
            keyboard: Region::empty(),
            piano_roll_ruler: Region::empty(),
            project_timeline_ruler: Region::empty(),
            visible_pitches: 0,
        }
    }

    /// The layout of a screen on which the four panels lie as given and
    /// the main area shows `view_mode`; the rulers are not drawn yet.
    pub fn arrange(
        timeline: Region,
        track_list: Region,
        piano_roll: Region,
        keyboard: Region,
        view_mode: ViewMode,
    ) -> (layout: Self)
        ensures
            layout == (LayoutRegions {
                timeline,
                track_list,
                piano_roll,
                piano_roll_grid: grid_within(piano_roll, view_mode),
                keyboard,
                piano_roll_ruler: Region { x: 0, y: 0, width: 0, height: 0 },
                project_timeline_ruler: Region { x: 0, y: 0, width: 0, height: 0 },
                visible_pitches: pitch_rows(grid_within(piano_roll, view_mode).height),
            }),
    {
        let labels: u16 = match view_mode {
            ViewMode::ProjectTimeline => TRACK_LABEL_WIDTH,
            _ => PIANO_KEY_WIDTH,
        };
        let height: u16 = match view_mode {
            ViewMode::Combined => (piano_roll.height as u32 * 55 / 100) as u16,
            _ => piano_roll.height,
        };
        let x: u32 = piano_roll.x as u32 + 1 + labels as u32;
        let y: u32 = piano_roll.y as u32 + 1;
        let grid = Region {
            x: if x > u16::MAX as u32 {
                u16::MAX
            } else {
                x as u16
            },
            y: if y > u16::MAX as u32 {
                u16::MAX
            } else {
                y as u16
            },
            width: if piano_roll.width > 2 + labels {
                piano_roll.width - 2 - labels
            } else {
                0
            },
            height: if height > 2 {
                height - 2
            } else {
                0
            },
        };
        let below_ruler: u16 = if grid.height > TIME_RULER_HEIGHT {
            grid.height - TIME_RULER_HEIGHT
        } else {
            0
        };
        LayoutRegions {
            timeline,
            track_list,
            piano_roll,
            piano_roll_grid: grid,
            keyboard,
            piano_roll_ruler: Region::empty(),
            project_timeline_ruler: Region::empty(),
            visible_pitches: if below_ruler > 127 {
                127
            } else {
                below_ruler as u8
            },
        }
    }

    /// The panel in which the point lies, if it lies in one.
    pub fn panel_at(&self, x: u16, y: u16) -> (panel: Option<FocusedPanel>)
        ensures
            panel == self.panel(x, y),
    {
        if self.timeline.contains(x, y) {
            Some(FocusedPanel::Timeline)
        } else if self.track_list.contains(x, y) {
            Some(FocusedPanel::TrackList)
        } else if self.piano_roll.contains(x, y) {
            Some(FocusedPanel::PianoRoll)
        } else if self.keyboard.contains(x, y) {
            Some(FocusedPanel::Keyboard)
        } else {
            None
        }
    }

    /// Whether the point lies in the grid of the piano roll.
    pub fn is_in_piano_roll_grid(&self, x: u16, y: u16) -> (hit: bool)
        ensures
            hit == self.piano_roll_grid.holds(x, y),
    {
        self.piano_roll_grid.contains(x, y)
    }

    /// The column within a time ruler in which the point lies, and the
    /// width of that ruler, if the point lies on one.
    pub fn ruler_hit_test(&self, x: u16, y: u16) -> (hit: Option<(u16, u16)>)
        ensures
            hit == self.ruler(x, y),
    {
        if self.piano_roll_ruler.contains(x, y) {
            Some((x - self.piano_roll_ruler.x, self.piano_roll_ruler.width))
        } else if self.project_timeline_ruler.contains(x, y) {
            Some((x - self.project_timeline_ruler.x, self.project_timeline_ruler.width))
        } else {
            None
        }
    }

    /// Whether the point lies on the piano keys.
    pub fn is_on_piano_keys(&self, x: u16) -> (hit: bool)
        ensures
            hit == self.on_piano_keys(x),
    {
        x > self.piano_roll.x && (x as u32) < self.piano_roll.x as u32 + 1 + PIANO_KEY_WIDTH as u32
    }
}

} // verus!

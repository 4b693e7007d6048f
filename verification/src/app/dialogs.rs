//! The dialogs of the editor: saving, browsing for files, asking before a
//! new project; and the detection of double clicks.
//!
//! The entries of a browser are read from the disc by the caller; here they
//! are names in a list with a selection and a scroll position.

use vstd::prelude::*;
use crate::text::{pop_char, push_char};

verus! {

/// Entries that a browser inside the editor shows at a time.
pub const BROWSER_ROWS: usize = 10;

/// Milliseconds within which two clicks on one spot are a double click.
pub const DOUBLE_CLICK_THRESHOLD_MS: u64 = 400;

/// The format of a saved project.
#[derive(Debug, Clone, Copy, PartialEq, Eq, Structural)]
pub enum SaveFormat {
    /// Readable text.
    Json,
    /// Compact binary.
    Oxm,
    /// Standard MIDI File; loses what the format cannot hold.
    Midi,
}

/// The save dialog.
#[derive(Debug)]
pub struct SaveDialogState {
    /// Whether the dialog is open.
    pub open: bool,
    /// The file name typed so far, without extension.
    pub filename: String,
    /// The format chosen.
    pub format: SaveFormat,
}

/// The dialog that asks before a new project.
#[derive(Debug, Clone, Copy, PartialEq, Eq, Structural)]
pub struct NewProjectDialogState {
    /// Whether the dialog is open.
    pub open: bool,
    /// The answer chosen: 0 is yes, 1 is no.
    pub selected: usize,
}

/// The browser for project files.
#[derive(Debug)]
pub struct FileBrowserState {
    /// Whether the browser is open.
    pub open: bool,
    /// The directory shown.
    pub current_dir: String,
    /// The entries of the directory.
    pub entries: Vec<String>,
    /// Index of the selected entry.
    pub selected: usize,
    /// Index of the first entry shown.
    pub scroll: usize,
}

/// The browser for SoundFont files.
#[derive(Debug)]
pub struct SoundfontDialogState {
    /// Whether the browser is open.
    pub open: bool,
    /// Whether this is the first choice of a SoundFont, which cannot be
    /// put off.
    pub is_first_load: bool,
    /// The directory shown.
    pub current_dir: String,
    /// The entries of the directory.
    pub entries: Vec<String>,
    /// Index of the selected entry.
    pub selected: usize,
    /// Index of the first entry shown.
    pub scroll: usize,
}

/// The last click, for the detection of double clicks.
#[derive(Debug, Clone, Copy)]
pub struct ClickTracker {
    /// Column and row of the last click.
    pub last_pos: Option<(u16, u16)>,
    /// Time of the last click, in milliseconds.
    pub last_time: Option<u64>,
}

/// The format that follows `format` in the save dialog.
pub open spec fn next_format(format: SaveFormat) -> SaveFormat {
    match format {
        SaveFormat::Json => SaveFormat::Oxm,
        SaveFormat::Oxm => SaveFormat::Midi,
        SaveFormat::Midi => SaveFormat::Json,
    }
}

/// The character is a control character: one of the first 32, or one
/// from 127 to 159.
pub open spec fn is_control(c: char) -> bool {
    (c as u32) < 0x20 || (0x7F <= (c as u32) <= 0x9F)
}

/// Selection and scroll position after a step up in a list.
pub open spec fn stepped_up(selected: usize, scroll: usize) -> (usize, usize) {
    if selected > 0 {
        (
            (selected - 1) as usize,
            if selected - 1 < scroll {
                (selected - 1) as usize
            } else {
                scroll
            },
        )
    } else {
        (selected, scroll)
    }
}

/// Selection and scroll position after a step down in a list of `len`
/// entries of which `rows` are shown.
pub open spec fn stepped_down(selected: usize, scroll: usize, len: nat, rows: usize) -> (usize, usize) {
    if selected + 1 < len {
        (
            (selected + 1) as usize,
            if selected + 1 >= scroll + rows {
                (selected + 2 - rows) as usize
            } else {
                scroll
            },
        )
    } else {
        (selected, scroll)
    }
}

/// Whether a click at `pos` and `now` doubles the last click.
pub open spec fn doubles(tracker: ClickTracker, pos: (u16, u16), now_ms: u64) -> bool {
    match (tracker.last_pos, tracker.last_time) {
        (Some(last), Some(time)) => last == pos && now_ms >= time && now_ms - time
            < DOUBLE_CLICK_THRESHOLD_MS,
        _ => false,
    }
}

/// Selection and scroll position after a step up in a list.
pub fn step_up(selected: usize, scroll: usize) -> (moved: (usize, usize))
    ensures
        moved == stepped_up(selected, scroll),
{
    if selected > 0 {
        let next = selected - 1;
        (
            next,
            if next < scroll {
                next
            } else {
                scroll
            },
        )
    } else {
        (selected, scroll)
    }
}

/// Selection and scroll position after a step down in a list of `len`
/// entries of which `rows` are shown.
pub fn step_down(selected: usize, scroll: usize, len: usize, rows: usize) -> (moved: (usize, usize))
    requires
        1 <= rows,
    ensures
        moved == stepped_down(selected, scroll, len as nat, rows),
{
    if selected < len && selected + 1 < len {
        let next = selected + 1;
        if next as u128 >= scroll as u128 + rows as u128 {
            (next, next + 1 - rows)
        } else {
            (next, scroll)
        }
    } else {
        (selected, scroll)
    }
}

impl SaveFormat {
    /// The extension of a file of this format.
    pub fn extension(&self) -> (ext: &'static str)
        ensures
            ext@ == (match *self {
                SaveFormat::Json => "json"@,
                SaveFormat::Oxm => "oxm"@,
                SaveFormat::Midi => "mid"@,
            }),
    {
        match self {
            SaveFormat::Json => "json",
            SaveFormat::Oxm => "oxm",
            SaveFormat::Midi => "mid",
        }
    }
}

impl SaveDialogState {
    /// A closed dialog with no file name, set to the text format.
    pub fn new() -> (dialog: Self)
        ensures
            !dialog.open,
            dialog.filename@.len() == 0,
            dialog.format == SaveFormat::Json,
    {
        SaveDialogState { open: false, filename: String::new(), format: SaveFormat::Json }
    }

    /// Opens the dialog on `default_name`, set to the text format.
    pub fn open_with(&mut self, default_name: &str)
        ensures
            final(self).open,
            final(self).filename@ == default_name@,
            final(self).format == SaveFormat::Json,
    {
        self.filename = default_name.to_owned();
        self.format = SaveFormat::Json;
        self.open = true;
    }

    /// Takes a typed character into the file name, unless the dialog is
    /// closed or the character is a control character.
    pub fn input(&mut self, c: char)
        ensures
            final(self).filename@ == (if old(self).open && !is_control(c) {
                old(self).filename@.push(c)
            } else {
                old(self).filename@
            }),
            *final(self) == (SaveDialogState { filename: final(self).filename, ..*old(self) }),
    {
        let code = c as u32;
        let control = code < 0x20 || (0x7F <= code && code <= 0x9F);
        if self.open && !control {
            push_char(&mut self.filename, c);
        }
    }

    /// Takes the last character off the file name, if the dialog is open.
    pub fn backspace(&mut self)
        ensures
            final(self).filename@ == (if old(self).open && old(self).filename@.len() > 0 {
                old(self).filename@.drop_last()
            } else {
                old(self).filename@
            }),
            *final(self) == (SaveDialogState { filename: final(self).filename, ..*old(self) }),
    {
        if self.open {
            let _ = pop_char(&mut self.filename);
        }
    }

    /// Goes on to the next format, if the dialog is open: text, binary,
    /// MIDI, and round again.
    pub fn toggle_format(&mut self)
        ensures
            *final(self) == (SaveDialogState {
                format: if old(self).open {
                    next_format(old(self).format)
                } else {
                    old(self).format
                },
                ..*old(self)
            }),
    {
        if self.open {
            self.format = match self.format {
                SaveFormat::Json => SaveFormat::Oxm,
                SaveFormat::Oxm => SaveFormat::Midi,
                SaveFormat::Midi => SaveFormat::Json,
            };
        }
    }

    /// Whether a save can go ahead: the dialog is open and a file name is
    /// given.
    pub fn can_confirm(&self) -> (ready: bool)
        ensures
            ready == (self.open && self.filename@.len() > 0),
    {
        self.open && self.filename.as_str().unicode_len() > 0
    }

    /// Closes the dialog.
    pub fn close(&mut self)
        ensures
            *final(self) == (SaveDialogState { open: false, ..*old(self) }),
    {
        self.open = false;
    }
}

impl NewProjectDialogState {
    /// A closed dialog.
    pub fn new() -> (dialog: Self)
        ensures
            dialog == (NewProjectDialogState { open: false, selected: 0 }),
    {
        NewProjectDialogState { open: false, selected: 0 }
    }

    /// Opens the dialog with "no" chosen.
    pub fn open(&mut self)
        ensures
            *final(self) == (NewProjectDialogState { open: true, selected: 1 }),
    {
        self.open = true;
        self.selected = 1;
    }

    /// Chooses "yes", if the dialog is open.
    pub fn left(&mut self)
        ensures
            *final(self) == (NewProjectDialogState {
                selected: if old(self).open {
                    0
                } else {
                    old(self).selected
                },
                ..*old(self)
            }),
    {
        if self.open {
            self.selected = 0;
        }
    }

    /// Chooses "no", if the dialog is open.
    pub fn right(&mut self)
        ensures
            *final(self) == (NewProjectDialogState {
                selected: if old(self).open {
                    1
                } else {
                    old(self).selected
                },
                ..*old(self)
            }),
    {
        if self.open {
            self.selected = 1;
        }
    }

    /// Closes the dialog and says whether it was open with "yes" chosen.
    pub fn confirm(&mut self) -> (yes: bool)
        ensures
            yes == (old(self).open && old(self).selected == 0),
            *final(self) == (NewProjectDialogState { open: false, ..*old(self) }),
    {
        let yes = self.open && self.selected == 0;
        self.open = false;
        yes
    }

    /// Closes the dialog.
    pub fn cancel(&mut self)
        ensures
            *final(self) == (NewProjectDialogState { open: false, ..*old(self) }),
    {
        self.open = false;
    }
}

impl FileBrowserState {
    /// The browser with selection and scroll position `to`.
    pub open spec fn stepped(self, to: (usize, usize)) -> FileBrowserState {
        FileBrowserState { selected: to.0, scroll: to.1, ..self }
    }

    /// A closed browser without entries.
    pub fn new() -> (browser: Self)
        ensures
            !browser.open,
            browser.current_dir@.len() == 0,
            browser.entries@.len() == 0,
            browser.selected == 0,
            browser.scroll == 0,
    {
        FileBrowserState {
            open: false,
            current_dir: String::new(),
            entries: Vec::new(),
            selected: 0,
            scroll: 0,
        }
    }

    /// Shows the entries of a directory, the first one selected; the
    /// browser is open afterwards.
    pub fn show(&mut self, current_dir: String, entries: Vec<String>)
        ensures
            final(self).open,
            final(self).current_dir == current_dir,
            final(self).entries == entries,
            final(self).selected == 0,
            final(self).scroll == 0,
    {
        self.open = true;
        self.current_dir = current_dir;
        self.entries = entries;
        self.selected = 0;
        self.scroll = 0;
    }

    /// Moves the selection up by one entry, if the browser is open.
    pub fn move_up(&mut self)
        ensures
            *final(self) == old(self).stepped(
                if old(self).open {
                    stepped_up(old(self).selected, old(self).scroll)
                } else {
                    (old(self).selected, old(self).scroll)
                },
            ),
    {
        if self.open {
            let (selected, scroll) = step_up(self.selected, self.scroll);
            self.selected = selected;
            self.scroll = scroll;
        }
    }

    /// Moves the selection down by one entry, if the browser is open.
    pub fn move_down(&mut self)
        ensures
            *final(self) == old(self).stepped(
                if old(self).open {
                    stepped_down(
                        old(self).selected,
                        old(self).scroll,
                        old(self).entries@.len(),
                        BROWSER_ROWS,
                    )
                } else {
                    (old(self).selected, old(self).scroll)
                },
            ),
    {
        if self.open {
            let (selected, scroll) = step_down(
                self.selected,
                self.scroll,
                self.entries.len(),
                BROWSER_ROWS,
            );
            self.selected = selected;
            self.scroll = scroll;
        }
    }

    /// The selected entry, if the browser is open and has one.
    pub fn selected_entry(&self) -> (entry: Option<&String>)
        ensures
            entry.is_some() == (self.open && self.selected < self.entries@.len()),
            entry matches Some(e) ==> *e == self.entries@[self.selected as int],
    {
        if self.open && self.selected < self.entries.len() {
            Some(&self.entries[self.selected])
        } else {
            None
        }
    }

    /// Closes the browser.
    pub fn cancel(&mut self)
        ensures
            *final(self) == (FileBrowserState { open: false, ..*old(self) }),
    {
        self.open = false;
    }
}

impl SoundfontDialogState {
    /// The browser with selection and scroll position `to`.
    pub open spec fn stepped(self, to: (usize, usize)) -> SoundfontDialogState {
        SoundfontDialogState { selected: to.0, scroll: to.1, ..self }
    }

    /// A closed browser without entries.
    pub fn new() -> (browser: Self)
        ensures
            !browser.open,
            !browser.is_first_load,
            browser.current_dir@.len() == 0,
            browser.entries@.len() == 0,
            browser.selected == 0,
            browser.scroll == 0,
    {
        SoundfontDialogState {
            open: false,
            is_first_load: false,
            current_dir: String::new(),
            entries: Vec::new(),
            selected: 0,
            scroll: 0,
        }
    }

    /// Shows the entries of a directory, the first one selected; the
    /// browser is open afterwards.
    pub fn show(&mut self, current_dir: String, entries: Vec<String>)
        ensures
            final(self).open,
            final(self).is_first_load == old(self).is_first_load,
            final(self).current_dir == current_dir,
            final(self).entries == entries,
            final(self).selected == 0,
            final(self).scroll == 0,
    {
        self.open = true;
        self.current_dir = current_dir;
        self.entries = entries;
        self.selected = 0;
        self.scroll = 0;
    }

    /// Moves the selection up by one entry, if the browser is open.
    pub fn move_up(&mut self)
        ensures
            *final(self) == old(self).stepped(
                if old(self).open {
                    stepped_up(old(self).selected, old(self).scroll)
                } else {
                    (old(self).selected, old(self).scroll)
                },
            ),
    {
        if self.open {
            let (selected, scroll) = step_up(self.selected, self.scroll);
            self.selected = selected;
            self.scroll = scroll;
        }
    }

    /// Moves the selection down by one entry, if the browser is open.
    pub fn move_down(&mut self)
        ensures
            *final(self) == old(self).stepped(
                if old(self).open {
                    stepped_down(
                        old(self).selected,
                        old(self).scroll,
                        old(self).entries@.len(),
                        BROWSER_ROWS,
                    )
                } else {
                    (old(self).selected, old(self).scroll)
                },
            ),
    {
        if self.open {
            let (selected, scroll) = step_down(
                self.selected,
                self.scroll,
                self.entries.len(),
                BROWSER_ROWS,
            );
            self.selected = selected;
            self.scroll = scroll;
        }
    }

    /// The selected entry, if the browser is open and has one.
    pub fn selected_entry(&self) -> (entry: Option<&String>)
        ensures
            entry.is_some() == (self.open && self.selected < self.entries@.len()),
            entry matches Some(e) ==> *e == self.entries@[self.selected as int],
    {
        if self.open && self.selected < self.entries.len() {
            Some(&self.entries[self.selected])
        } else {
            None
        }
    }

    /// Closes the browser, unless it is the first choice of a SoundFont,
    /// which cannot be put off. Says whether the browser was closed.
    pub fn cancel(&mut self) -> (closed: bool)
        ensures
            closed == !old(self).is_first_load,
            *final(self) == (SoundfontDialogState {
                open: old(self).open && old(self).is_first_load,
                ..*old(self)
            }),
    {
        if self.is_first_load {
            false
        } else {
            self.open = false;
            true
        }
    }
}

impl ClickTracker {
    /// A tracker that has seen no click.
    pub fn new() -> (tracker: Self)
        ensures
            tracker == (ClickTracker { last_pos: None, last_time: None }),
    {
        ClickTracker { last_pos: None, last_time: None }
    }

    /// Takes in a click at column `x` and row `y` at `now_ms` and says
    /// whether it doubles the last one: same spot, less than 400
    /// milliseconds later. A double click is forgotten at once, so that a
    /// third click begins anew.
    pub fn record_click(&mut self, x: u16, y: u16, now_ms: u64) -> (double: bool)
        ensures
            double == doubles(*old(self), (x, y), now_ms),
            *final(self) == (if double {
                ClickTracker { last_pos: None, last_time: None }
            } else {
                ClickTracker { last_pos: Some((x, y)), last_time: Some(now_ms) }
            }),
    {
        let double = match (self.last_pos, self.last_time) {
            (Some((lx, ly)), Some(time)) => lx == x && ly == y && now_ms >= time && now_ms - time
                < DOUBLE_CLICK_THRESHOLD_MS,
            _ => false,
        };
        if double {
            self.last_pos = None;
            self.last_time = None;
        } else {
            self.last_pos = Some((x, y));
            self.last_time = Some(now_ms);
        }
        double
    }
}

} // verus!

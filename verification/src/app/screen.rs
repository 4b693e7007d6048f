//! The dialogs of the editor, and which part of the screen takes a key
//! or the mouse.
//!
//! The help, the browser for SoundFonts, the dialog before a new
//! project, the save dialog, the browser for project files and the
//! renaming of a track take the keys before the editor does, in this
//! order. The help takes the mouse too.

use vstd::prelude::*;
use vstd::string::StringExecFns;
use super::dialogs::{
    is_control, next_format, stepped_down, stepped_up, ClickTracker, FileBrowserState,
    NewProjectDialogState, SaveDialogState, SaveFormat, SoundfontDialogState, BROWSER_ROWS, doubles,
};
use super::editing::{rename_cancelled, rename_confirmed, rename_erased, rename_typed};
use super::keys::{command_of, performed, request_of, Key, Modifiers, Request};
use super::mouse::{
    double_clicked, drag_started, dragged, key_pitch, less, mouse_clicked, mouse_scrolled,
};
use super::playback::project_reset;
use super::{with_notice, App, EditMode, Notice};
use crate::audio::engine::{configure_all, setup_all, PlaybackState, SynthCommand, Transport};
use crate::midi::project::Project;
use crate::text::{chars_of, push_char};

verus! {

/// Rows by which a page key scrolls the help.
pub const HELP_PAGE_ROWS: u16 = 10;

/// Rows by which the wheel scrolls the help.
pub const HELP_WHEEL_ROWS: u16 = 3;

/// The part of the screen that takes the keys.
#[derive(Debug, Clone, Copy, PartialEq, Eq, Structural)]
pub enum Screen {
    Help,
    SoundfontDialog,
    NewProjectDialog,
    SaveDialog,
    FileBrowser,
    Renaming,
    Editor,
}

/// A button of the mouse.
#[derive(Debug, Clone, Copy, PartialEq, Eq, Structural)]
pub enum MouseButton {
    Left,
    Right,
    Middle,
}

/// What the mouse did.
#[derive(Debug, Clone, Copy, PartialEq, Eq, Structural)]
pub enum MouseAction {
    Down(MouseButton),
    Up(MouseButton),
    Drag(MouseButton),
    ScrollUp,
    ScrollDown,
    ScrollLeft,
    ScrollRight,
    /// Anything else, a movement without a button for one.
    Other,
}

/// What is remembered of the mouse between its events.
#[derive(Debug, Clone, Copy)]
pub struct Pointer {
    /// The last click, for the detection of double clicks.
    pub clicks: ClickTracker,
    /// Where the left button went down, while it is down.
    pub last_down: Option<(u16, u16)>,
}

/// Whether std counts `c` as alphanumeric: a letter or a number of any
/// script, by the tables of Unicode that std holds.
pub uninterp spec fn alphanumeric(c: char) -> bool;

/// Whether `c` is alphanumeric, by `char::is_alphanumeric` of std. Not
/// proved: the contract gives the answer of std its name and says no
/// more of it.
#[verifier::external_body]
fn is_alphanumeric(c: char) -> (yes: bool)
    ensures
        yes == alphanumeric(c),
{
    c.is_alphanumeric()
}

/// The character may stand in the name of a file that the save dialog
/// proposes or takes: a letter, a number, `_` or `-`.
pub open spec fn file_name_char(c: char) -> bool {
    alphanumeric(c) || c == '_' || c == '-'
}

/// The first `upto` characters of `name` as part of a file name: blanks
/// become `_`, and what else may not stand in a file name is left out.
pub open spec fn file_name_part(name: Seq<char>, upto: int) -> Seq<char>
    decreases upto,
{
    if upto <= 0 {
        Seq::<char>::empty()
    } else {
        let c = name[upto - 1];
        let before = file_name_part(name, upto - 1);
        if c == ' ' {
            before.push('_')
        } else if file_name_char(c) {
            before.push(c)
        } else {
            before
        }
    }
}

/// The name that the save dialog proposes: the name of the file of the
/// project without its extension, or else the name of the project made
/// a file name; `project` where that is empty.
pub open spec fn proposed_file_name(stem: Option<Seq<char>>, project_name: Seq<char>) -> Seq<char> {
    let name = match stem {
        Some(stem) => stem,
        None => file_name_part(project_name, project_name.len() as int),
    };
    if name.len() == 0 {
        "project"@
    } else {
        name
    }
}

/// The part of the screen that takes the keys.
pub open spec fn screen_of(app: App) -> Screen {
    if app.show_help {
        Screen::Help
    } else if app.soundfont_dialog.open {
        Screen::SoundfontDialog
    } else if app.new_project_dialog.open {
        Screen::NewProjectDialog
    } else if app.save_dialog.open {
        Screen::SaveDialog
    } else if app.file_browser.open {
        Screen::FileBrowser
    } else if app.renaming_track {
        Screen::Renaming
    } else {
        Screen::Editor
    }
}

/// `scroll + rows`, held at the largest `u16`.
pub open spec fn scrolled_on(scroll: u16, rows: u16) -> u16 {
    if scroll + rows > u16::MAX {
        u16::MAX
    } else {
        (scroll + rows) as u16
    }
}

/// The row at which the help begins after a key.
pub open spec fn help_scrolled(scroll: u16, key: Key) -> u16 {
    if key == Key::Up || key == Key::Char('k') {
        less(scroll as int, 1) as u16
    } else if key == Key::Down || key == Key::Char('j') {
        scrolled_on(scroll, 1)
    } else if key == Key::PageUp {
        less(scroll as int, HELP_PAGE_ROWS as int) as u16
    } else if key == Key::PageDown {
        scrolled_on(scroll, HELP_PAGE_ROWS)
    } else if key == Key::Home {
        0
    } else {
        scroll
    }
}

/// The editor after a key while the help is shown: `?` and the escape
/// key close the help, the other keys scroll it.
pub open spec fn help_key(before: App, key: Key) -> App {
    if key == Key::Char('?') || key == Key::Esc {
        App { show_help: false, help_scroll: 0, ..before }
    } else {
        App { help_scroll: help_scrolled(before.help_scroll, key), ..before }
    }
}

/// The editor after the browser for SoundFonts was given up: the first
/// choice of a SoundFont cannot be given up.
pub open spec fn soundfont_cancelled(before: App) -> App {
    if before.soundfont_dialog.is_first_load {
        with_notice(before, Notice::SoundfontRequired)
    } else {
        with_notice(
            App {
                soundfont_dialog: SoundfontDialogState { open: false, ..before.soundfont_dialog },
                ..before
            },
            Notice::SoundfontCancelled,
        )
    }
}

/// The editor after a step up in the browser for SoundFonts.
pub open spec fn soundfont_up(before: App) -> App {
    let dialog = before.soundfont_dialog;
    App {
        soundfont_dialog: if dialog.open {
            dialog.stepped(stepped_up(dialog.selected, dialog.scroll))
        } else {
            dialog
        },
        ..before
    }
}

/// The editor after a step down in the browser for SoundFonts.
pub open spec fn soundfont_down(before: App) -> App {
    let dialog = before.soundfont_dialog;
    App {
        soundfont_dialog: if dialog.open {
            dialog.stepped(
                stepped_down(dialog.selected, dialog.scroll, dialog.entries@.len(), BROWSER_ROWS),
            )
        } else {
            dialog
        },
        ..before
    }
}

/// The editor after a step up in the browser for project files.
pub open spec fn browser_up(before: App) -> App {
    let browser = before.file_browser;
    App {
        file_browser: if browser.open {
            browser.stepped(stepped_up(browser.selected, browser.scroll))
        } else {
            browser
        },
        ..before
    }
}

/// The editor after a step down in the browser for project files.
pub open spec fn browser_down(before: App) -> App {
    let browser = before.file_browser;
    App {
        file_browser: if browser.open {
            browser.stepped(
                stepped_down(browser.selected, browser.scroll, browser.entries@.len(), BROWSER_ROWS),
            )
        } else {
            browser
        },
        ..before
    }
}

/// The editor after the browser for project files was given up.
pub open spec fn browser_cancelled(before: App) -> App {
    with_notice(
        App { file_browser: FileBrowserState { open: false, ..before.file_browser }, ..before },
        Notice::LoadCancelled,
    )
}

/// The editor with the dialog before a new project closed.
pub open spec fn new_project_closed(before: App) -> App {
    App {
        new_project_dialog: NewProjectDialogState { open: false, ..before.new_project_dialog },
        ..before
    }
}

/// The editor with an answer chosen in the dialog before a new
/// project, if the dialog is open.
pub open spec fn new_project_chosen(before: App, answer: usize) -> App {
    App {
        new_project_dialog: NewProjectDialogState {
            selected: if before.new_project_dialog.open {
                answer
            } else {
                before.new_project_dialog.selected
            },
            ..before.new_project_dialog
        },
        ..before
    }
}

/// What the answer to the dialog before a new project makes of the
/// editor: with "yes" chosen a new project begins, else a notice is
/// given; nothing while the dialog is closed.
pub open spec fn new_project_confirmed(
    before: App,
    after: App,
    created: bool,
    commands: Seq<SynthCommand>,
) -> bool {
    if !before.new_project_dialog.open {
        after == before && !created && commands.len() == 0
    } else if before.new_project_dialog.selected == 0 {
        created && project_reset(new_project_closed(before), after, commands)
    } else {
        &&& !created
        &&& commands.len() == 0
        &&& after == with_notice(new_project_closed(before), Notice::NewProjectCancelled)
    }
}

/// The editor after the save dialog was given up.
pub open spec fn save_cancelled(before: App) -> App {
    with_notice(
        App { save_dialog: SaveDialogState { open: false, ..before.save_dialog }, ..before },
        Notice::SaveCancelled,
    )
}

/// What a change of the file name in the save dialog makes of the
/// editor: the name is `name` afterwards.
pub open spec fn save_name_changed(before: App, after: App, name: Seq<char>) -> bool {
    &&& after.save_dialog.filename@ == name
    &&& after == (App {
        save_dialog: SaveDialogState {
            filename: after.save_dialog.filename,
            ..before.save_dialog
        },
        ..before
    })
}

/// What a key makes of the editor while the browser for SoundFonts is
/// open, and what it asks of the application.
pub open spec fn soundfont_key(before: App, after: App, request: Request, key: Key) -> bool {
    if key == Key::Enter {
        request == Request::SelectSoundfont && after == before
    } else {
        &&& request == Request::Nothing
        &&& after == (if key == Key::Esc {
            soundfont_cancelled(before)
        } else if key == Key::Up || key == Key::Char('k') {
            soundfont_up(before)
        } else if key == Key::Down || key == Key::Char('j') {
            soundfont_down(before)
        } else {
            before
        })
    }
}

/// What a key makes of the editor while the dialog before a new project
/// is open, what it asks of the application and what the synthesizer
/// has to do.
pub open spec fn new_project_key(
    before: App,
    after: App,
    request: Request,
    commands: Seq<SynthCommand>,
    key: Key,
) -> bool {
    if key == Key::Enter {
        exists|created: bool|
            {
                &&& #[trigger] new_project_confirmed(before, after, created, commands)
                &&& request == (if created {
                    Request::ProjectReset
                } else {
                    Request::Nothing
                })
            }
    } else {
        &&& request == Request::Nothing
        &&& commands.len() == 0
        &&& after == (if key == Key::Esc {
            with_notice(new_project_closed(before), Notice::NewProjectCancelled)
        } else if key == Key::Left || key == Key::Char('h') || key == Key::Char('y') {
            new_project_chosen(before, 0)
        } else if key == Key::Right || key == Key::Char('l') || key == Key::Char('n') {
            new_project_chosen(before, 1)
        } else if key == Key::Tab {
            new_project_chosen(
                before,
                if before.new_project_dialog.selected == 0 {
                    1
                } else {
                    0
                },
            )
        } else {
            before
        })
    }
}

/// What a key makes of the editor while the save dialog is open, and
/// what it asks of the application.
pub open spec fn save_key(before: App, after: App, request: Request, key: Key) -> bool {
    let name = before.save_dialog.filename@;
    match key {
        Key::Enter => request == Request::SaveProject && after == before,
        Key::Esc => request == Request::Nothing && after == save_cancelled(before),
        Key::Tab => request == Request::Nothing && after == (App {
            save_dialog: SaveDialogState {
                format: next_format(before.save_dialog.format),
                ..before.save_dialog
            },
            ..before
        }),
        Key::Backspace => request == Request::Nothing && save_name_changed(
            before,
            after,
            if name.len() > 0 {
                name.drop_last()
            } else {
                name
            },
        ),
        Key::Char(c) => request == Request::Nothing && if file_name_char(c) && !is_control(c) {
            save_name_changed(before, after, name.push(c))
        } else {
            after == before
        },
        _ => request == Request::Nothing && after == before,
    }
}

/// What a key makes of the editor while the browser for project files
/// is open, and what it asks of the application.
pub open spec fn browser_key(before: App, after: App, request: Request, key: Key) -> bool {
    if key == Key::Enter {
        request == Request::LoadSelected && after == before
    } else {
        &&& request == Request::Nothing
        &&& after == (if key == Key::Esc {
            browser_cancelled(before)
        } else if key == Key::Up || key == Key::Char('k') {
            browser_up(before)
        } else if key == Key::Down || key == Key::Char('j') {
            browser_down(before)
        } else {
            before
        })
    }
}

/// What a key makes of the editor while a track is being renamed.
pub open spec fn rename_key(before: App, after: App, key: Key) -> bool {
    match key {
        Key::Enter => rename_confirmed(before, after),
        Key::Esc => rename_cancelled(before, after),
        Key::Backspace => rename_erased(before, after),
        Key::Char(c) => if is_control(c) {
            after == before
        } else {
            rename_typed(before, after, c)
        },
        _ => after == before,
    }
}

/// What a key makes of the editor, what it asks of the application and
/// what the synthesizer has to do: the key goes to the part of the
/// screen that takes the keys.
pub open spec fn key_pressed(
    before: App,
    after: App,
    request: Request,
    commands: Seq<SynthCommand>,
    key: Key,
    held: Modifiers,
) -> bool {
    let quiet = commands.len() == 0;
    match screen_of(before) {
        Screen::Help => quiet && request == Request::Nothing && after == help_key(before, key),
        Screen::SoundfontDialog => quiet && soundfont_key(before, after, request, key),
        Screen::NewProjectDialog => new_project_key(before, after, request, commands, key),
        Screen::SaveDialog => quiet && save_key(before, after, request, key),
        Screen::FileBrowser => quiet && browser_key(before, after, request, key),
        Screen::Renaming => quiet && request == Request::Nothing && rename_key(before, after, key),
        Screen::Editor => {
            let command = command_of(before.edit_mode, key, held);
            request == request_of(command) && performed(before, after, commands, command)
        },
    }
}

/// The editor after the wheel or a button of the mouse while the help
/// is shown: the left button closes the help, the wheel scrolls it.
pub open spec fn help_mouse(before: App, action: MouseAction) -> App {
    match action {
        MouseAction::Down(MouseButton::Left) => App { show_help: false, help_scroll: 0, ..before },
        MouseAction::ScrollUp => App {
            help_scroll: less(before.help_scroll as int, HELP_WHEEL_ROWS as int) as u16,
            ..before
        },
        MouseAction::ScrollDown => App {
            help_scroll: scrolled_on(before.help_scroll, HELP_WHEEL_ROWS),
            ..before
        },
        _ => before,
    }
}

/// The editor after the right button of the mouse: insert mode from
/// normal mode, normal mode from the others.
pub open spec fn mode_toggled(before: App) -> App {
    if before.edit_mode == EditMode::Normal {
        with_notice(App { edit_mode: EditMode::Insert, ..before }, Notice::InsertModeByMouse)
    } else {
        with_notice(App { edit_mode: EditMode::Normal, ..before }, Notice::NormalMode)
    }
}

/// What the release of the left button makes of the editor, and what
/// the synthesizer has to do: a drag ends, and the piano key on which
/// the button went down falls silent.
pub open spec fn left_released(
    before: App,
    last_down: Option<(u16, u16)>,
    after: App,
    commands: Seq<SynthCommand>,
) -> bool {
    &&& dragged_to_end(before, after)
    &&& commands == (match last_down {
        Some((x, y)) => if before.layout.on_piano_keys(x) {
            seq![
                SynthCommand::NoteOff {
                    channel: before.selected_channel_spec(),
                    pitch: key_pitch(before, y),
                },
            ]
        } else {
            Seq::<SynthCommand>::empty()
        },
        None => Seq::<SynthCommand>::empty(),
    })
}

/// What the end of a drag makes of the editor: the project counts as
/// changed if notes were moved.
pub open spec fn dragged_to_end(before: App, after: App) -> bool {
    after == (App {
        last_modified: if before.drag_state is MovingNotes {
            Some(before.now_micros)
        } else {
            before.last_modified
        },
        drag_state: super::DragState::Idle,
        ..before
    })
}

/// What the mouse makes of the editor and of what is remembered of the
/// mouse, and what the synthesizer has to do.
///
/// While the help is shown the mouse goes to the help. Else the left
/// button clicks, double clicks, drags and lets go; the right button
/// changes the mode; the middle button drags; the wheel scrolls.
pub open spec fn mouse_handled(
    before: App,
    pointer: Pointer,
    after: App,
    pointer_after: Pointer,
    commands: Seq<SynthCommand>,
    action: MouseAction,
    x: u16,
    y: u16,
    shift_held: bool,
    ctrl_held: bool,
    now_ms: u64,
) -> bool {
    let quiet = commands.len() == 0;
    if before.show_help {
        quiet && pointer_after == pointer && after == help_mouse(before, action)
    } else {
        match action {
            MouseAction::Down(MouseButton::Left) => {
                let double = doubles(pointer.clicks, (x, y), now_ms);
                &&& pointer_after.last_down == Some((x, y))
                &&& pointer_after.clicks == (if double {
                    ClickTracker { last_pos: None, last_time: None }
                } else {
                    ClickTracker { last_pos: Some((x, y)), last_time: Some(now_ms) }
                })
                &&& if double {
                    double_clicked(before, after, commands, x, y)
                } else {
                    exists|mid: App| #[trigger]
                        drag_started(before, mid, x, y, shift_held) && mouse_clicked(
                            mid,
                            after,
                            commands,
                            x,
                            y,
                            shift_held,
                        )
                }
            },
            MouseAction::Up(MouseButton::Left) => {
                &&& pointer_after == (Pointer { last_down: None, ..pointer })
                &&& left_released(before, pointer.last_down, after, commands)
            },
            MouseAction::Drag(MouseButton::Left) | MouseAction::Drag(MouseButton::Middle) => quiet
                && pointer_after == pointer && dragged(before, after, x, y),
            MouseAction::Down(MouseButton::Right) => quiet && pointer_after == pointer && after
                == mode_toggled(before),
            MouseAction::Down(MouseButton::Middle) => quiet && pointer_after == pointer
                && drag_started(before, after, x, y, false),
            MouseAction::Up(MouseButton::Middle) => quiet && pointer_after == pointer
                && dragged_to_end(before, after),
            MouseAction::ScrollUp => quiet && pointer_after == pointer && mouse_scrolled(
                before,
                after,
                x,
                y,
                0,
                1,
                ctrl_held,
            ),
            MouseAction::ScrollDown => quiet && pointer_after == pointer && mouse_scrolled(
                before,
                after,
                x,
                y,
                0,
                -1i16,
                ctrl_held,
            ),
            MouseAction::ScrollLeft => quiet && pointer_after == pointer && mouse_scrolled(
                before,
                after,
                x,
                y,
                -1i16,
                0,
                ctrl_held,
            ),
            MouseAction::ScrollRight => quiet && pointer_after == pointer && mouse_scrolled(
                before,
                after,
                x,
                y,
                1,
                0,
                ctrl_held,
            ),
            _ => quiet && pointer_after == pointer && after == before,
        }
    }
}

/// Whether the character may stand in a file name.
fn is_file_name_char(c: char) -> (yes: bool)
    ensures
        yes == file_name_char(c),
{
    is_alphanumeric(c) || c == '_' || c == '-'
}

/// Whether the character is a control character.
fn control(c: char) -> (yes: bool)
    ensures
        yes == is_control(c),
{
    let code = c as u32;
    code < 0x20 || (0x7F <= code && code <= 0x9F)
}

/// The name that the save dialog proposes for a project named
/// `project_name` whose file has the name `stem` without its extension.
pub fn proposed_name(stem: Option<&str>, project_name: &str) -> (name: String)
    ensures
        name@ == proposed_file_name(
            match stem {
                Some(stem) => Some(stem@),
                None => None,
            },
            project_name@,
        ),
{
    let name = match stem {
        Some(stem) => String::from_str(stem),
        None => {
            let chars = chars_of(project_name);
            let mut name = String::new();
            let mut i: usize = 0;
            while i < chars.len()
                invariant
                    i <= chars@.len(),
                    chars@ == project_name@,
                    name@ == file_name_part(project_name@, i as int),
                decreases chars@.len() - i,
            {
                let c = chars[i];
                if c == ' ' {
                    push_char(&mut name, '_');
                } else if is_file_name_char(c) {
                    push_char(&mut name, c);
                }
                i += 1;
            }
            name
        },
    };
    if name.as_str().unicode_len() == 0 {
        String::from_str("project")
    } else {
        name
    }
}

/// The format in which a file with the extension `extension`, in lower
/// case, is read: `oxm` is binary, `mid` and `midi` are MIDI, and
/// everything else is taken for text.
pub open spec fn format_of(extension: Option<Seq<char>>) -> SaveFormat {
    match extension {
        Some(ext) => if ext == "oxm"@ {
            SaveFormat::Oxm
        } else if ext == "mid"@ || ext == "midi"@ {
            SaveFormat::Midi
        } else {
            SaveFormat::Json
        },
        None => SaveFormat::Json,
    }
}

/// The name of the file that the save dialog asks for: the name typed
/// and the extension of the format.
pub open spec fn save_file_name(dialog: SaveDialogState) -> Seq<char> {
    dialog.filename@ + seq!['.'] + (match dialog.format {
        SaveFormat::Json => "json"@,
        SaveFormat::Oxm => "oxm"@,
        SaveFormat::Midi => "mid"@,
    })
}

/// What is selected in a browser.
#[derive(Debug)]
pub enum Selection {
    /// The browser is closed or empty, or nothing is selected.
    Nothing,
    /// The entry that leads to the directory above.
    Parent,
    /// A directory or a file.
    Entry(String),
}

/// What is selected in a browser, as mathematical values.
pub enum SelectionView {
    Nothing,
    Parent,
    Entry(Seq<char>),
}

impl View for Selection {
    type V = SelectionView;

    open spec fn view(&self) -> SelectionView {
        match self {
            Selection::Nothing => SelectionView::Nothing,
            Selection::Parent => SelectionView::Parent,
            Selection::Entry(entry) => SelectionView::Entry(entry@),
        }
    }
}

/// What is selected in a browser with the entries `entries` of which
/// the one at `selected` is selected: the entry `..` leads to the
/// directory above.
pub open spec fn selection_of(open: bool, entries: Seq<String>, selected: usize) -> SelectionView {
    if !open || selected >= entries.len() {
        SelectionView::Nothing
    } else if entries[selected as int]@ == ".."@ {
        SelectionView::Parent
    } else {
        SelectionView::Entry(entries[selected as int]@)
    }
}

/// What is selected in a browser.
fn choose_entry(open: bool, entries: &Vec<String>, selected: usize) -> (choice: Selection)
    ensures
        choice@ == selection_of(open, entries@, selected),
{
    if !open || selected >= entries.len() {
        Selection::Nothing
    } else if same_text(entries[selected].as_str(), "..") {
        Selection::Parent
    } else {
        Selection::Entry(entries[selected].clone())
    }
}

/// Whether `text` is the text `other`.
fn same_text(text: &str, other: &str) -> (same: bool)
    ensures
        same == (text@ == other@),
{
    String::from_str(text) == String::from_str(other)
}

/// The format in which a file with the extension `extension`, in lower
/// case, is read.
pub fn format_of_extension(extension: Option<&str>) -> (format: SaveFormat)
    ensures
        format == format_of(
            match extension {
                Some(ext) => Some(ext@),
                None => None,
            },
        ),
{
    match extension {
        Some(ext) => {
            if same_text(ext, "oxm") {
                SaveFormat::Oxm
            } else if same_text(ext, "mid") || same_text(ext, "midi") {
                SaveFormat::Midi
            } else {
                SaveFormat::Json
            }
        },
        None => SaveFormat::Json,
    }
}

impl Pointer {
    /// Nothing is remembered: no click, no button down.
    pub fn new() -> (pointer: Self)
        ensures
            pointer == (Pointer {
                clicks: ClickTracker { last_pos: None, last_time: None },
                last_down: None,
            }),
    {
        Pointer { clicks: ClickTracker::new(), last_down: None }
    }
}

impl App {
    /// The part of the screen that takes the keys.
    pub fn screen(&self) -> (screen: Screen)
        ensures
            screen == screen_of(*self),
    {
        if self.show_help {
            Screen::Help
        } else if self.soundfont_dialog.open {
            Screen::SoundfontDialog
        } else if self.new_project_dialog.open {
            Screen::NewProjectDialog
        } else if self.save_dialog.open {
            Screen::SaveDialog
        } else if self.file_browser.open {
            Screen::FileBrowser
        } else if self.renaming_track {
            Screen::Renaming
        } else {
            Screen::Editor
        }
    }

    /// Opens the save dialog on the name of the file of the project
    /// without its extension, `stem`, or else on the name of the
    /// project made a file name.
    pub fn open_save_dialog(&mut self, stem: Option<&str>)
        ensures
            final(self).save_dialog.filename@ == proposed_file_name(
                match stem {
                    Some(stem) => Some(stem@),
                    None => None,
                },
                old(self).project@.name,
            ),
            *final(self) == (App {
                save_dialog: SaveDialogState {
                    open: true,
                    filename: final(self).save_dialog.filename,
                    format: SaveFormat::Json,
                },
                ..*old(self)
            }),
    {
        let name = proposed_name(stem, self.project.name.as_str());
        self.save_dialog.open_with(name.as_str());
    }

    /// Makes the project ready for the save that the save dialog asks
    /// for and returns the name of the file and the format, if the
    /// dialog is open and a name is given. Unless the format is MIDI,
    /// which has no room for it, the project takes the path of the
    /// SoundFont, `soundfont_path`, along. The dialog stays as it is.
    pub fn save_target(&mut self, soundfont_path: &str) -> (target: Option<(String, SaveFormat)>)
        ensures
            target.is_some() == (old(self).save_dialog.open && old(self).save_dialog.filename@.len()
                > 0),
            target matches Some((name, format)) ==> {
                &&& name@ == save_file_name(old(self).save_dialog)
                &&& format == old(self).save_dialog.format
            },
            final(self).project@ == (if target.is_some() && old(self).save_dialog.format
                != SaveFormat::Midi {
                crate::midi::project::ProjectView {
                    soundfont_path: Some(soundfont_path@),
                    ..old(self).project@
                }
            } else {
                old(self).project@
            }),
            final(self).project.tracks == old(self).project.tracks,
            *final(self) == (App { project: final(self).project, ..*old(self) }),
    {
        if !self.save_dialog.can_confirm() {
            return None;
        }
        let format = self.save_dialog.format;
        let mut name = self.save_dialog.filename.clone();
        push_char(&mut name, '.');
        name.append(format.extension());
        match format {
            SaveFormat::Midi => {},
            _ => {
                self.project.set_soundfont_path(Some(soundfont_path));
            },
        }
        Some((name, format))
    }

    /// Takes a typed character into the file name of the save dialog.
    pub fn save_dialog_input(&mut self, c: char)
        ensures
            save_name_changed(
                *old(self),
                *final(self),
                if old(self).save_dialog.open && !is_control(c) {
                    old(self).save_dialog.filename@.push(c)
                } else {
                    old(self).save_dialog.filename@
                },
            ),
    {
        self.save_dialog.input(c);
    }

    /// Takes the last character off the file name of the save dialog.
    pub fn save_dialog_backspace(&mut self)
        ensures
            save_name_changed(
                *old(self),
                *final(self),
                if old(self).save_dialog.open && old(self).save_dialog.filename@.len() > 0 {
                    old(self).save_dialog.filename@.drop_last()
                } else {
                    old(self).save_dialog.filename@
                },
            ),
    {
        self.save_dialog.backspace();
    }

    /// Goes on to the next format in the save dialog.
    pub fn save_dialog_toggle_format(&mut self)
        ensures
            *final(self) == (App {
                save_dialog: SaveDialogState {
                    format: if old(self).save_dialog.open {
                        next_format(old(self).save_dialog.format)
                    } else {
                        old(self).save_dialog.format
                    },
                    ..old(self).save_dialog
                },
                ..*old(self)
            }),
    {
        self.save_dialog.toggle_format();
    }

    /// Gives the save dialog up.
    pub fn save_dialog_cancel(&mut self)
        ensures
            *final(self) == save_cancelled(*old(self)),
    {
        self.save_dialog.close();
        self.set_status(Notice::SaveCancelled);
    }

    /// Opens the browser for project files on the directory
    /// `current_dir` with the entries `entries`, the first one selected.
    pub fn open_file_browser(&mut self, current_dir: String, entries: Vec<String>)
        ensures
            *final(self) == (App {
                file_browser: FileBrowserState {
                    open: true,
                    current_dir,
                    entries,
                    selected: 0,
                    scroll: 0,
                },
                ..*old(self)
            }),
    {
        self.file_browser.show(current_dir, entries);
    }

    /// Opens the browser for SoundFonts on the directory `current_dir`
    /// with the entries `entries`, the first one selected. With
    /// `is_first_load` the browser cannot be given up.
    pub fn open_soundfont_dialog(
        &mut self,
        is_first_load: bool,
        current_dir: String,
        entries: Vec<String>,
    )
        ensures
            *final(self) == (App {
                soundfont_dialog: SoundfontDialogState {
                    open: true,
                    is_first_load,
                    current_dir,
                    entries,
                    selected: 0,
                    scroll: 0,
                },
                ..*old(self)
            }),
    {
        self.soundfont_dialog.is_first_load = is_first_load;
        self.soundfont_dialog.show(current_dir, entries);
    }

    /// What is selected in the browser for project files.
    pub fn file_browser_selection(&self) -> (choice: Selection)
        ensures
            choice@ == selection_of(
                self.file_browser.open,
                self.file_browser.entries@,
                self.file_browser.selected,
            ),
    {
        choose_entry(self.file_browser.open, &self.file_browser.entries, self.file_browser.selected)
    }

    /// What is selected in the browser for SoundFonts.
    pub fn soundfont_dialog_selection(&self) -> (choice: Selection)
        ensures
            choice@ == selection_of(
                self.soundfont_dialog.open,
                self.soundfont_dialog.entries@,
                self.soundfont_dialog.selected,
            ),
    {
        choose_entry(
            self.soundfont_dialog.open,
            &self.soundfont_dialog.entries,
            self.soundfont_dialog.selected,
        )
    }

    /// Takes over the project that was found in the autosave file: the
    /// first track is selected, nothing else is, cursor and view go to
    /// tick 0. Returns the commands that set every track up.
    pub fn recover_project(&mut self, project: Project) -> (commands: Vec<SynthCommand>)
        ensures
            commands@ == setup_all(project@.tracks, project@.tracks.len() as int),
            final(self).selected_notes@ == Set::<u64>::empty(),
            *final(self) == with_notice(
                App {
                    project,
                    selected_track_index: 0,
                    selected_notes: final(self).selected_notes,
                    cursor_tick: 0,
                    scroll_x: 0,
                    ..*old(self)
                },
                Notice::RecoveredFromAutosave,
            ),
    {
        self.project = project;
        self.selected_track_index = 0;
        self.selected_notes.clear();
        self.cursor_tick = 0;
        self.scroll_x = 0;
        let mut commands: Vec<SynthCommand> = Vec::new();
        configure_all(&self.project, &mut commands);
        self.set_status(Notice::RecoveredFromAutosave);
        commands
    }

    /// Takes a new synthesizer into use, with the SoundFont at `path`
    /// whose file is named `name`: playback stops, no key is held, the
    /// project takes the path along. Returns the commands that set
    /// every track up on the new synthesizer.
    pub fn soundfont_loaded(&mut self, path: &str, name: &str) -> (commands: Vec<SynthCommand>)
        ensures
            commands@ == setup_all(old(self).project@.tracks, old(self).project@.tracks.len() as int),
            final(self).project@ == (crate::midi::project::ProjectView {
                soundfont_path: Some(path@),
                ..old(self).project@
            }),
            final(self).project.tracks == old(self).project.tracks,
            final(self).active_tracks@ == Set::<usize>::empty(),
            final(self).held_notes@ == Set::<u8>::empty(),
            final(self).status_message matches Some((Notice::SoundfontLoaded { name: shown }, time))
                && time == old(self).now_micros && shown@ == name@,
            *final(self) == (App {
                project: final(self).project,
                transport: Transport {
                    playing: false,
                    playback_state: PlaybackState::Stopped,
                    position_ticks: 0,
                    ..old(self).transport
                },
                playback_start_time: None,
                last_sequencer_tick: None,
                playback_start_tick: 0,
                active_tracks: final(self).active_tracks,
                held_notes: final(self).held_notes,
                status_message: final(self).status_message,
                ..*old(self)
            }),
    {
        let _ = self.transport.stop();
        self.playback_start_time = None;
        self.last_sequencer_tick = None;
        self.playback_start_tick = 0;
        self.active_tracks.clear();
        self.held_notes.clear();
        self.project.set_soundfont_path(Some(path));
        let mut commands: Vec<SynthCommand> = Vec::new();
        configure_all(&self.project, &mut commands);
        self.set_status(Notice::SoundfontLoaded { name: String::from_str(name) });
        commands
    }

    /// Moves the selection of the browser for project files up.
    pub fn file_browser_up(&mut self)
        ensures
            *final(self) == browser_up(*old(self)),
    {
        self.file_browser.move_up();
    }

    /// Moves the selection of the browser for project files down.
    pub fn file_browser_down(&mut self)
        ensures
            *final(self) == browser_down(*old(self)),
    {
        self.file_browser.move_down();
    }

    /// Gives the browser for project files up.
    pub fn file_browser_cancel(&mut self)
        ensures
            *final(self) == browser_cancelled(*old(self)),
    {
        self.file_browser.cancel();
        self.set_status(Notice::LoadCancelled);
    }

    /// Moves the selection of the browser for SoundFonts up.
    pub fn soundfont_dialog_up(&mut self)
        ensures
            *final(self) == soundfont_up(*old(self)),
    {
        self.soundfont_dialog.move_up();
    }

    /// Moves the selection of the browser for SoundFonts down.
    pub fn soundfont_dialog_down(&mut self)
        ensures
            *final(self) == soundfont_down(*old(self)),
    {
        self.soundfont_dialog.move_down();
    }

    /// Gives the browser for SoundFonts up, unless it is the first
    /// choice of a SoundFont, which cannot be put off. Says whether the
    /// browser was closed.
    pub fn soundfont_dialog_cancel(&mut self) -> (closed: bool)
        ensures
            closed == !old(self).soundfont_dialog.is_first_load,
            *final(self) == soundfont_cancelled(*old(self)),
    {
        if self.soundfont_dialog.is_first_load {
            self.set_status(Notice::SoundfontRequired);
            false
        } else {
            self.soundfont_dialog.open = false;
            self.set_status(Notice::SoundfontCancelled);
            true
        }
    }

    /// Opens the dialog that asks before a new project, with "no"
    /// chosen.
    pub fn open_new_project_dialog(&mut self)
        ensures
            *final(self) == (App {
                new_project_dialog: NewProjectDialogState { open: true, selected: 1 },
                ..*old(self)
            }),
    {
        self.new_project_dialog.open();
    }

    /// Chooses "yes" in the dialog before a new project.
    pub fn new_project_dialog_left(&mut self)
        ensures
            *final(self) == new_project_chosen(*old(self), 0),
    {
        self.new_project_dialog.left();
    }

    /// Chooses "no" in the dialog before a new project.
    pub fn new_project_dialog_right(&mut self)
        ensures
            *final(self) == new_project_chosen(*old(self), 1),
    {
        self.new_project_dialog.right();
    }

    /// Closes the dialog before a new project and begins a new project
    /// if "yes" is chosen. Says whether a new project has begun, and
    /// what the synthesizer has to do.
    pub fn new_project_dialog_confirm(&mut self) -> (done: (bool, Vec<SynthCommand>))
        ensures
            new_project_confirmed(*old(self), *final(self), done.0, done.1@),
    {
        if !self.new_project_dialog.open {
            return (false, Vec::new());
        }
        if self.new_project_dialog.confirm() {
            let commands = self.reset_to_new_project();
            (true, commands)
        } else {
            self.set_status(Notice::NewProjectCancelled);
            (false, Vec::new())
        }
    }

    /// Closes the dialog before a new project.
    pub fn new_project_dialog_cancel(&mut self)
        ensures
            *final(self) == with_notice(new_project_closed(*old(self)), Notice::NewProjectCancelled),
    {
        self.new_project_dialog.cancel();
        self.set_status(Notice::NewProjectCancelled);
    }

    /// Handles a key while the help is shown.
    fn handle_help_key(&mut self, key: Key)
        ensures
            *final(self) == help_key(*old(self), key),
    {
        match key {
            Key::Esc => {
                self.show_help = false;
                self.help_scroll = 0;
            },
            Key::Up => {
                self.help_scroll = self.help_scroll.saturating_sub(1);
            },
            Key::Down => {
                self.help_scroll = self.help_scroll.saturating_add(1);
            },
            Key::PageUp => {
                self.help_scroll = self.help_scroll.saturating_sub(HELP_PAGE_ROWS);
            },
            Key::PageDown => {
                self.help_scroll = self.help_scroll.saturating_add(HELP_PAGE_ROWS);
            },
            Key::Home => {
                self.help_scroll = 0;
            },
            Key::Char(c) => {
                if c == '?' {
                    self.show_help = false;
                    self.help_scroll = 0;
                } else if c == 'k' {
                    self.help_scroll = self.help_scroll.saturating_sub(1);
                } else if c == 'j' {
                    self.help_scroll = self.help_scroll.saturating_add(1);
                }
            },
            _ => {},
        }
    }

    /// Handles a key while the browser for SoundFonts is open.
    fn handle_soundfont_key(&mut self, key: Key) -> (request: Request)
        ensures
            soundfont_key(*old(self), *final(self), request, key),
    {
        match key {
            Key::Enter => {
                return Request::SelectSoundfont;
            },
            Key::Esc => {
                self.soundfont_dialog_cancel();
            },
            Key::Up => {
                self.soundfont_dialog_up();
            },
            Key::Down => {
                self.soundfont_dialog_down();
            },
            Key::Char(c) => {
                if c == 'k' {
                    self.soundfont_dialog_up();
                } else if c == 'j' {
                    self.soundfont_dialog_down();
                }
            },
            _ => {},
        }
        Request::Nothing
    }

    /// Handles a key while the dialog before a new project is open.
    fn handle_new_project_key(&mut self, key: Key) -> (outcome: (Request, Vec<SynthCommand>))
        ensures
            new_project_key(*old(self), *final(self), outcome.0, outcome.1@, key),
    {
        match key {
            Key::Enter => {
                let (created, commands) = self.new_project_dialog_confirm();
                assert(new_project_confirmed(*old(self), *self, created, commands@));
                return (
                    if created {
                        Request::ProjectReset
                    } else {
                        Request::Nothing
                    },
                    commands,
                );
            },
            Key::Esc => {
                self.new_project_dialog_cancel();
            },
            Key::Left => {
                self.new_project_dialog_left();
            },
            Key::Right => {
                self.new_project_dialog_right();
            },
            Key::Tab => {
                if self.new_project_dialog.selected == 0 {
                    self.new_project_dialog_right();
                } else {
                    self.new_project_dialog_left();
                }
            },
            Key::Char(c) => {
                if c == 'h' || c == 'y' {
                    self.new_project_dialog_left();
                } else if c == 'l' || c == 'n' {
                    self.new_project_dialog_right();
                }
            },
            _ => {},
        }
        (Request::Nothing, Vec::new())
    }

    /// Handles a key while the save dialog is open.
    fn handle_save_key(&mut self, key: Key) -> (request: Request)
        requires
            old(self).save_dialog.open,
        ensures
            save_key(*old(self), *final(self), request, key),
    {
        match key {
            Key::Enter => {
                return Request::SaveProject;
            },
            Key::Esc => {
                self.save_dialog_cancel();
            },
            Key::Tab => {
                self.save_dialog_toggle_format();
            },
            Key::Backspace => {
                self.save_dialog_backspace();
            },
            Key::Char(c) => {
                if is_file_name_char(c) && !control(c) {
                    self.save_dialog_input(c);
                }
            },
            _ => {},
        }
        Request::Nothing
    }

    /// Handles a key while the browser for project files is open.
    fn handle_browser_key(&mut self, key: Key) -> (request: Request)
        ensures
            browser_key(*old(self), *final(self), request, key),
    {
        match key {
            Key::Enter => {
                return Request::LoadSelected;
            },
            Key::Esc => {
                self.file_browser_cancel();
            },
            Key::Up => {
                self.file_browser_up();
            },
            Key::Down => {
                self.file_browser_down();
            },
            Key::Char(c) => {
                if c == 'k' {
                    self.file_browser_up();
                } else if c == 'j' {
                    self.file_browser_down();
                }
            },
            _ => {},
        }
        Request::Nothing
    }

    /// Handles a key while a track is being renamed.
    fn handle_rename_key(&mut self, key: Key)
        ensures
            rename_key(*old(self), *final(self), key),
    {
        match key {
            Key::Enter => {
                self.confirm_rename_track();
            },
            Key::Esc => {
                self.cancel_rename_track();
            },
            Key::Backspace => {
                self.rename_track_backspace();
            },
            Key::Char(c) => {
                if !control(c) {
                    self.rename_track_input(c);
                }
            },
            _ => {},
        }
    }

    /// Handles the press of a key: the key goes to the part of the
    /// screen that takes the keys. Returns what is left for the
    /// application to do and what the synthesizer has to do.
    pub fn handle_key_press(&mut self, key: Key, held: Modifiers) -> (outcome: (
        Request,
        Vec<SynthCommand>,
    ))
        requires
            old(self).project.tracks@.len() < usize::MAX,
        ensures
            key_pressed(*old(self), *final(self), outcome.0, outcome.1@, key, held),
    {
        match self.screen() {
            Screen::Help => {
                self.handle_help_key(key);
                (Request::Nothing, Vec::new())
            },
            Screen::SoundfontDialog => (self.handle_soundfont_key(key), Vec::new()),
            Screen::NewProjectDialog => self.handle_new_project_key(key),
            Screen::SaveDialog => (self.handle_save_key(key), Vec::new()),
            Screen::FileBrowser => (self.handle_browser_key(key), Vec::new()),
            Screen::Renaming => {
                self.handle_rename_key(key);
                (Request::Nothing, Vec::new())
            },
            Screen::Editor => self.handle_key(key, held),
        }
    }

    /// Handles the mouse while the help is shown.
    fn handle_help_mouse(&mut self, action: MouseAction)
        ensures
            *final(self) == help_mouse(*old(self), action),
    {
        match action {
            MouseAction::Down(MouseButton::Left) => {
                self.show_help = false;
                self.help_scroll = 0;
            },
            MouseAction::ScrollUp => {
                self.help_scroll = self.help_scroll.saturating_sub(HELP_WHEEL_ROWS);
            },
            MouseAction::ScrollDown => {
                self.help_scroll = self.help_scroll.saturating_add(HELP_WHEEL_ROWS);
            },
            _ => {},
        }
    }

    /// Goes to insert mode from normal mode and to normal mode from the
    /// others.
    fn toggle_mode(&mut self)
        ensures
            *final(self) == mode_toggled(*old(self)),
    {
        match self.edit_mode {
            EditMode::Normal => {
                self.edit_mode = EditMode::Insert;
                self.set_status(Notice::InsertModeByMouse);
            },
            _ => {
                self.edit_mode = EditMode::Normal;
                self.set_status(Notice::NormalMode);
            },
        }
    }

    /// Handles the left button going down.
    fn handle_left_down(
        &mut self,
        pointer: &mut Pointer,
        x: u16,
        y: u16,
        shift_held: bool,
        now_ms: u64,
    ) -> (commands: Vec<SynthCommand>)
        requires
            old(self).project.time_sig_denominator > 0,
            old(self).project.time_sig_numerator > 0,
            !old(self).show_help,
        ensures
            mouse_handled(
                *old(self),
                *old(pointer),
                *final(self),
                *final(pointer),
                commands@,
                MouseAction::Down(MouseButton::Left),
                x,
                y,
                shift_held,
                false,
                now_ms,
            ),
    {
        pointer.last_down = Some((x, y));
        if pointer.clicks.record_click(x, y, now_ms) {
            self.handle_double_click(x, y)
        } else {
            self.handle_drag_start(x, y, shift_held);
            let ghost mid = *self;
            let (_, commands) = self.handle_mouse_click(x, y, shift_held);
            proof {
                assert(drag_started(*old(self), mid, x, y, shift_held));
            }
            commands
        }
    }

    /// Handles the mouse: `action` at column `x` and row `y` at
    /// `now_ms`, with the shift or control key held or not. Returns
    /// what the synthesizer has to do.
    pub fn handle_mouse(
        &mut self,
        pointer: &mut Pointer,
        action: MouseAction,
        x: u16,
        y: u16,
        shift_held: bool,
        ctrl_held: bool,
        now_ms: u64,
    ) -> (commands: Vec<SynthCommand>)
        requires
            old(self).project.time_sig_denominator > 0,
            old(self).project.time_sig_numerator > 0,
        ensures
            mouse_handled(
                *old(self),
                *old(pointer),
                *final(self),
                *final(pointer),
                commands@,
                action,
                x,
                y,
                shift_held,
                ctrl_held,
                now_ms,
            ),
    {
        if self.show_help {
            self.handle_help_mouse(action);
            return Vec::new();
        }
        match action {
            MouseAction::Down(MouseButton::Left) => {
                self.handle_left_down(pointer, x, y, shift_held, now_ms)
            },
            MouseAction::Up(MouseButton::Left) => {
                self.handle_drag_end();
                let commands = match pointer.last_down {
                    Some((lx, ly)) => self.handle_piano_key_release(lx, ly),
                    None => Vec::new(),
                };
                pointer.last_down = None;
                commands
            },
            MouseAction::Drag(MouseButton::Left) | MouseAction::Drag(MouseButton::Middle) => {
                self.handle_drag_move(x, y);
                Vec::new()
            },
            MouseAction::Down(MouseButton::Right) => {
                self.toggle_mode();
                Vec::new()
            },
            MouseAction::Down(MouseButton::Middle) => {
                self.handle_drag_start(x, y, false);
                Vec::new()
            },
            MouseAction::Up(MouseButton::Middle) => {
                self.handle_drag_end();
                Vec::new()
            },
            MouseAction::ScrollUp => {
                self.handle_mouse_scroll(x, y, 0, 1, ctrl_held);
                Vec::new()
            },
            MouseAction::ScrollDown => {
                self.handle_mouse_scroll(x, y, 0, -1, ctrl_held);
                Vec::new()
            },
            MouseAction::ScrollLeft => {
                self.handle_mouse_scroll(x, y, -1, 0, ctrl_held);
                Vec::new()
            },
            MouseAction::ScrollRight => {
                self.handle_mouse_scroll(x, y, 1, 0, ctrl_held);
                Vec::new()
            },
            _ => Vec::new(),
        }
    }
}

} // verus!

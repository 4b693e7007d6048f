//! The arguments of the command line.
//!
//! `--new` or `-n` begins with a fresh project, `--soundfont` or `-sf`
//! takes the path that follows as the SoundFont, an argument that ends
//! in `.sf2` is a SoundFont too, and `--help` or `-h` asks for the
//! usage. Anything else is refused. Arguments are read from left to
//! right, and the first that ends the run decides how it ends.

use vstd::prelude::*;
use vstd::string::StringExecFns;
use crate::text::chars_of;

verus! {

/// What the command line asks for.
#[derive(Debug)]
pub struct CliOptions {
    /// Begin with a fresh project and leave the autosave file alone.
    pub new_project: bool,
    /// The path of the SoundFont to load.
    pub soundfont: Option<String>,
}

/// Why the program ends before it has begun.
#[derive(Debug)]
pub enum CliExit {
    /// The usage was asked for.
    Help,
    /// `--soundfont` is the last argument: its path is missing.
    MissingPath,
    /// An argument that is no option and no SoundFont.
    UnknownOption(String),
}

/// The options, as mathematical values.
pub struct OptionsView {
    pub new_project: bool,
    pub soundfont: Option<Seq<char>>,
}

/// An early end, as mathematical values.
pub enum ExitView {
    Help,
    MissingPath,
    UnknownOption(Seq<char>),
}

impl View for CliOptions {
    type V = OptionsView;

    open spec fn view(&self) -> OptionsView {
        OptionsView {
            new_project: self.new_project,
            soundfont: match self.soundfont {
                Some(path) => Some(path@),
                None => None,
            },
        }
    }
}

impl View for CliExit {
    type V = ExitView;

    open spec fn view(&self) -> ExitView {
        match self {
            CliExit::Help => ExitView::Help,
            CliExit::MissingPath => ExitView::MissingPath,
            CliExit::UnknownOption(arg) => ExitView::UnknownOption(arg@),
        }
    }
}

/// The characters of each argument.
pub open spec fn texts(args: Seq<String>) -> Seq<Seq<char>> {
    Seq::new(args.len(), |i: int| args[i]@)
}

/// `text` ends with `suffix`.
pub open spec fn ends_with(text: Seq<char>, suffix: Seq<char>) -> bool {
    text.len() >= suffix.len() && text.subrange(text.len() - suffix.len(), text.len() as int)
        == suffix
}

/// What the arguments from index `from` on ask for, given what those
/// before them asked for.
pub open spec fn parsed_from(args: Seq<Seq<char>>, from: int, so_far: OptionsView) -> Result<
    OptionsView,
    ExitView,
>
    decreases args.len() - from,
{
    if from < 0 || from >= args.len() {
        Ok(so_far)
    } else {
        let arg = args[from];
        if arg == "--new"@ || arg == "-n"@ {
            parsed_from(args, from + 1, OptionsView { new_project: true, ..so_far })
        } else if arg == "--soundfont"@ || arg == "-sf"@ {
            if from + 1 >= args.len() {
                Err(ExitView::MissingPath)
            } else {
                parsed_from(
                    args,
                    from + 2,
                    OptionsView { soundfont: Some(args[from + 1]), ..so_far },
                )
            }
        } else if arg == "--help"@ || arg == "-h"@ {
            Err(ExitView::Help)
        } else if ends_with(arg, ".sf2"@) {
            parsed_from(args, from + 1, OptionsView { soundfont: Some(arg), ..so_far })
        } else {
            Err(ExitView::UnknownOption(arg))
        }
    }
}

/// What a command line asks for: its first argument is the name of the
/// program and asks for nothing.
pub open spec fn parsed(args: Seq<Seq<char>>) -> Result<OptionsView, ExitView> {
    parsed_from(args, 1, OptionsView { new_project: false, soundfont: None })
}

/// The status with which the program ends early: 0 after the usage, 1
/// after a command line that is refused.
pub open spec fn status_of(exit: ExitView) -> int {
    if exit is Help {
        0
    } else {
        1
    }
}

/// Whether `arg` is the text `text`.
fn is_text(arg: &String, text: &str) -> (same: bool)
    ensures
        same == (arg@ == text@),
{
    let other = String::from_str(text);
    *arg == other
}

/// Whether `arg` ends in `.sf2`.
pub fn is_soundfont_name(arg: &String) -> (yes: bool)
    ensures
        yes == ends_with(arg@, ".sf2"@),
{
    proof {
        reveal_strlit(".sf2");
    }
    let chars = chars_of(arg.as_str());
    let n = chars.len();
    if n < 4 {
        return false;
    }
    let yes = chars[n - 4] == '.' && chars[n - 3] == 's' && chars[n - 2] == 'f' && chars[n - 1]
        == '2';
    proof {
        let tail = arg@.subrange(n - 4, n as int);
        if yes {
            assert(tail =~= ".sf2"@);
        } else {
            assert(tail[0] == arg@[n - 4] && tail[1] == arg@[n - 3] && tail[2] == arg@[n - 2]
                && tail[3] == arg@[n - 1]);
        }
    }
    yes
}

impl CliExit {
    /// The status with which the program ends.
    pub fn exit_code(&self) -> (code: i32)
        ensures
            code == status_of(self@),
    {
        match self {
            CliExit::Help => 0,
            _ => 1,
        }
    }
}

impl CliOptions {
    /// Reads the arguments of the command line, the name of the program
    /// first.
    pub fn parse(args: &Vec<String>) -> (outcome: Result<CliOptions, CliExit>)
        ensures
            match outcome {
                Ok(options) => parsed(texts(args@)) == Ok::<OptionsView, ExitView>(options@),
                Err(exit) => parsed(texts(args@)) == Err::<OptionsView, ExitView>(exit@),
            },
    {
        let mut options = CliOptions { new_project: false, soundfont: None };
        let mut i: usize = 1;
        while i < args.len()
            invariant
                1 <= i,
                parsed(texts(args@)) == parsed_from(texts(args@), i as int, options@),
            decreases args@.len() - i,
        {
            let arg = &args[i];
            assert(texts(args@)[i as int] == arg@);
            if is_text(arg, "--new") || is_text(arg, "-n") {
                options.new_project = true;
                i += 1;
            } else if is_text(arg, "--soundfont") || is_text(arg, "-sf") {
                if i + 1 >= args.len() {
                    return Err(CliExit::MissingPath);
                }
                assert(texts(args@)[i + 1] == args@[i + 1]@);
                options.soundfont = Some(args[i + 1].clone());
                i += 2;
            } else if is_text(arg, "--help") || is_text(arg, "-h") {
                return Err(CliExit::Help);
            } else if is_soundfont_name(arg) {
                options.soundfont = Some(arg.clone());
                i += 1;
            } else {
                return Err(CliExit::UnknownOption(arg.clone()));
            }
        }
        Ok(options)
    }
}

} // verus!

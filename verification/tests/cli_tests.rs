use miditui::cli::{is_soundfont_name, CliExit, CliOptions};

fn parse(args: &[&str]) -> Result<CliOptions, CliExit> {
    let args: Vec<String> = args.iter().map(|a| a.to_string()).collect();
    CliOptions::parse(&args)
}

#[test]
fn no_arguments_ask_for_nothing() {
    for args in [&[][..], &["miditui"][..], &["--help"][..]] {
        let options = parse(args).unwrap();
        assert!(!options.new_project);
        assert!(options.soundfont.is_none());
    }
}

#[test]
fn new_and_soundfont() {
    let options = parse(&["miditui", "--new"]).unwrap();
    assert!(options.new_project && options.soundfont.is_none());
    let options = parse(&["miditui", "-n", "-sf", "a.sf2"]).unwrap();
    assert!(options.new_project);
    assert_eq!(options.soundfont.as_deref(), Some("a.sf2"));
    let options = parse(&["miditui", "--soundfont", "--help", "-n"]).unwrap();
    assert!(options.new_project);
    assert_eq!(options.soundfont.as_deref(), Some("--help"));
    let options = parse(&["miditui", "fonts/piano.sf2"]).unwrap();
    assert!(!options.new_project);
    assert_eq!(options.soundfont.as_deref(), Some("fonts/piano.sf2"));
    // The last SoundFont named is taken.
    let options = parse(&["miditui", "a.sf2", "-sf", "b", ".sf2"]).unwrap();
    assert_eq!(options.soundfont.as_deref(), Some(".sf2"));
}

#[test]
fn early_ends() {
    let exit = parse(&["miditui", "-n", "--help", "--what"]).unwrap_err();
    assert!(matches!(exit, CliExit::Help));
    assert_eq!(exit.exit_code(), 0);
    let exit = parse(&["miditui", "-h"]).unwrap_err();
    assert!(matches!(exit, CliExit::Help));

    let exit = parse(&["miditui", "--soundfont"]).unwrap_err();
    assert!(matches!(exit, CliExit::MissingPath));
    assert_eq!(exit.exit_code(), 1);
    let exit = parse(&["miditui", "a.sf2", "-sf"]).unwrap_err();
    assert!(matches!(exit, CliExit::MissingPath));

    let exit = parse(&["miditui", "--what", "--help"]).unwrap_err();
    assert!(matches!(&exit, CliExit::UnknownOption(arg) if arg == "--what"));
    assert_eq!(exit.exit_code(), 1);
    let exit = parse(&["miditui", "a.SF2"]).unwrap_err();
    assert!(matches!(&exit, CliExit::UnknownOption(arg) if arg == "a.SF2"));
    let exit = parse(&["miditui", ""]).unwrap_err();
    assert!(matches!(&exit, CliExit::UnknownOption(arg) if arg.is_empty()));
    let exit = parse(&["miditui", "--new "]).unwrap_err();
    assert!(matches!(exit, CliExit::UnknownOption(_)));
}

#[test]
fn names_of_soundfonts() {
    assert!(is_soundfont_name(&".sf2".to_string()));
    assert!(is_soundfont_name(&"\u{266b}.sf2".to_string()));
    assert!(!is_soundfont_name(&"sf2".to_string()));
    assert!(!is_soundfont_name(&"a.sf2 ".to_string()));
    assert!(!is_soundfont_name(&"a.sf3".to_string()));
    assert!(!is_soundfont_name(&"".to_string()));
}

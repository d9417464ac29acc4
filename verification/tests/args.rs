use dum::args::{
    get_help, get_version, is_forwarded_command, no_such_directory, parse_args, AppArgs, Parsed,
};
use path_absolutize::Absolutize;
use std::path::Path;

fn vec_of_strings(items: &[&str]) -> Vec<String> {
    items.iter().map(|s| String::from(*s)).collect()
}

fn working_dir() -> String {
    Path::new(".").absolutize().unwrap().to_str().unwrap().to_string()
}

/// Reads a command line to its end, entering every directory that `-c` names
/// the way a driver does.
fn parse_all(items: &[&str]) -> Parsed {
    let mut parsed = parse_args(vec_of_strings(items), working_dir());
    loop {
        match parsed {
            Parsed::ChangeDir { dir, rest } => {
                let dir = Path::new(&dir).absolutize().unwrap().to_str().unwrap().to_string();
                parsed = rest.enter_dir(dir);
            }
            other => return other,
        }
    }
}

fn parse_done(items: &[&str]) -> AppArgs {
    match parse_all(items) {
        Parsed::Done(args) => args,
        other => panic!("the command line was not read to its end: {:?}", other),
    }
}

#[test]
fn test_parse() {
    let args = parse_done(&["a", "b", "-c", "-d", "foo", "bar"]);
    assert_eq!(args.script_name, "a".to_string());
    assert_eq!(args.forwarded, vec!["b", "-c", "-d", "foo", "bar"]);
}

#[test]
fn test_parse_own_flags() {
    let args = parse_done(&["-c", ".", "a"]);
    assert_eq!(args.script_name, "a".to_string());
    assert_eq!(Path::new(&args.change_dir), Path::new(".").absolutize().unwrap());
    assert_eq!(args.forwarded, Vec::<&str>::new());
}

#[test]
fn change_dir_stops_for_the_directory() {
    match parse_args(vec_of_strings(&["-c", "sub/dir", "build", "--x"]), "/work".to_string()) {
        Parsed::ChangeDir { dir, rest } => {
            assert_eq!(dir, "sub/dir");
            assert_eq!(rest.next, 2);
            assert_eq!(rest.parsed.change_dir, "/work");
            let args = match rest.enter_dir("/work/sub/dir".to_string()) {
                Parsed::Done(args) => args,
                other => panic!("{:?}", other),
            };
            assert_eq!(args.change_dir, "/work/sub/dir");
            assert_eq!(args.command, "run");
            assert_eq!(args.script_name, "build");
            assert_eq!(args.forwarded, vec!["--x"]);
        }
        other => panic!("{:?}", other),
    }
}

#[test]
fn nothing_given_leaves_everything_blank() {
    let args = match parse_args(Vec::new(), "/work".to_string()) {
        Parsed::Done(args) => args,
        other => panic!("{:?}", other),
    };
    assert_eq!(
        args,
        AppArgs {
            script_name: String::new(),
            forwarded: vec![],
            change_dir: "/work".to_string(),
            command: String::new(),
            interactive: false,
            silent: false,
        }
    );
}

#[test]
fn a_word_is_a_script_under_run() {
    let args = parse_done(&["build"]);
    assert_eq!(args.command, "run");
    assert_eq!(args.script_name, "build");
    let args = parse_done(&["run", "build", "--watch", "x"]);
    assert_eq!(args.command, "run");
    assert_eq!(args.script_name, "build");
    assert_eq!(args.forwarded, vec!["--watch", "x"]);
}

#[test]
fn run_alone_names_no_script() {
    let args = parse_done(&["run"]);
    assert_eq!(args.command, "run");
    assert_eq!(args.script_name, "");
}

#[test]
fn t_stands_for_test_and_i_for_install() {
    assert_eq!(parse_done(&["t"]).script_name, "test");
    assert_eq!(parse_done(&["run", "t"]).script_name, "test");
    let args = parse_done(&["i"]);
    assert_eq!(args.command, "install");
    assert_eq!(args.script_name, "");
}

#[test]
fn package_manager_commands_forward_what_follows() {
    let args = parse_done(&["add", "left-pad", "-D"]);
    assert_eq!(args.command, "add");
    assert_eq!(args.script_name, "");
    assert_eq!(args.forwarded, vec!["left-pad", "-D"]);
    for command in ["install", "add", "remove", "uninstall"] {
        assert_eq!(parse_done(&[command]).command, command);
    }
}

#[test]
fn double_dash_forwards_the_rest_untouched() {
    let args = parse_done(&["build", "--", "-c", "--", "-h", "x"]);
    assert_eq!(args.script_name, "build");
    assert_eq!(args.forwarded, vec!["-c", "--", "-h", "x"]);
    let args = parse_done(&["--", "build"]);
    assert_eq!(args.script_name, "");
    assert_eq!(args.command, "");
    assert_eq!(args.forwarded, vec!["build"]);
}

#[test]
fn interactive_flag_is_read_before_the_script() {
    assert!(parse_done(&["-i"]).interactive);
    assert!(parse_done(&["--interactive"]).interactive);
    assert!(parse_done(&["run", "-i"]).interactive);
    let args = parse_done(&["build", "-i"]);
    assert!(!args.interactive);
    assert_eq!(args.forwarded, vec!["-i"]);
}

#[test]
fn help_and_version_end_the_run_with_success() {
    for flag in ["-h", "--help"] {
        let parsed = parse_all(&[flag, "build"]);
        assert_eq!(parsed, Parsed::Help);
        assert_eq!(parsed.exit_code(), Some(0));
        assert_eq!(parsed.message(), Some(get_help()));
    }
    for flag in ["-v", "--version"] {
        let parsed = parse_all(&[flag]);
        assert_eq!(parsed, Parsed::Version);
        assert_eq!(parsed.exit_code(), Some(0));
        assert_eq!(parsed.message(), Some("0.1.19".to_string()));
    }
}

#[test]
fn unknown_flag_is_a_mistake() {
    let parsed = parse_all(&["--frozen", "build"]);
    assert_eq!(parsed, Parsed::UnknownFlag("--frozen".to_string()));
    assert_eq!(parsed.exit_code(), Some(1));
    assert_eq!(parsed.message(), Some("Unknown flag: --frozen".to_string()));
}

#[test]
fn change_dir_without_a_directory_is_a_mistake() {
    let parsed = parse_all(&["-c"]);
    assert_eq!(parsed, Parsed::MissingDirectory);
    assert_eq!(parsed.exit_code(), Some(1));
    assert_eq!(parsed.message(), Some("No directory specified".to_string()));
}

#[test]
fn arguments_in_interactive_mode_are_a_mistake() {
    let parsed = parse_all(&["-i", "build", "extra"]);
    assert_eq!(parsed, Parsed::ArgumentsInInteractiveMode);
    assert_eq!(parsed.exit_code(), Some(1));
    assert_eq!(
        parsed.message(),
        Some("You can't pass arguments to interactive mode".to_string())
    );
}

#[test]
fn done_has_no_exit_code_and_no_message() {
    let parsed = parse_all(&["build"]);
    assert_eq!(parsed.exit_code(), None);
    assert_eq!(parsed.message(), None);
}

#[test]
fn flags_after_a_package_manager_command_are_forwarded() {
    let args = parse_done(&["install", "-h", "--frozen-lockfile"]);
    assert_eq!(args.command, "install");
    assert_eq!(args.forwarded, vec!["-h", "--frozen-lockfile"]);
}

#[test]
fn missing_directory_message_names_the_directory() {
    assert_eq!(no_such_directory("/no/where"), "Error: directory /no/where does not exist");
}

#[test]
fn forwarded_commands_are_known() {
    for command in ["install", "i", "add", "remove", "uninstall"] {
        assert!(is_forwarded_command(command));
    }
    for command in ["run", "", "test", "Install", "update"] {
        assert!(!is_forwarded_command(command));
    }
}

#[test]
fn help_text_names_the_version_and_the_flags() {
    let help = get_help();
    assert!(help.starts_with("dum v0.1.19\n\nUSAGE:\n    dum [OUR_FLAGS] [SCRIPT_NAME] [SCRIPT_ARGS]\n"));
    assert!(help.contains("    i, install         Install dependencies\n"));
    assert!(help.ends_with("    -v, --version         Prints version number\n"));
    assert_eq!(help.lines().count(), 20);
    assert_eq!(get_version(), "0.1.19");
}

//! The command line: what the user asked for, and the help text.

use vstd::prelude::*;
use crate::text::{append_from, starts_with_char, text_eq, texts};

verus! {

/// What the user asked the runner to do.
#[derive(Clone, Debug, PartialEq, Eq)]
pub struct AppArgs {
    /// The script or executable to run; empty if none was named.
    pub script_name: String,
    /// The arguments handed on to the script or the package manager.
    pub forwarded: Vec<String>,
    /// The directory the runner works in.
    pub change_dir: String,
    /// `run`, one of the package manager's commands, or empty.
    pub command: String,
    /// Whether the script is picked from a list.
    pub interactive: bool,
    /// Whether the trace of the command is left out.
    pub silent: bool,
}

/// The plain values of an [`AppArgs`].
pub ghost struct Request {
    pub script_name: Seq<char>,
    pub forwarded: Seq<Seq<char>>,
    pub change_dir: Seq<char>,
    pub command: Seq<char>,
    pub interactive: bool,
    pub silent: bool,
}

impl View for AppArgs {
    type V = Request;

    open spec fn view(&self) -> Request {
        Request {
            script_name: self.script_name@,
            forwarded: texts(self.forwarded@),
            change_dir: self.change_dir@,
            command: self.command@,
            interactive: self.interactive,
            silent: self.silent,
        }
    }
}

/// The version of the runner.
pub open spec fn version() -> Seq<char> {
    "0.1.19"@
}

/// The version of the runner.
pub fn get_version() -> (v: String)
    ensures
        v@ == version(),
{
    "0.1.19".to_owned()
}

/// The help text after its first line.
pub const HELP_BODY: &'static str = "

USAGE:
    dum [OUR_FLAGS] [SCRIPT_NAME] [SCRIPT_ARGS]

COMMANDS:
    <script_name>      Run an npm script (like npm run) or a script in node_modules/.bin (like npx)
    run                Show a list of available scripts
    run <script_name>  Run an npm script
    add <packages>     Add packages to the current project
    i, install         Install dependencies
    remove <packages>  Remove packages from the current project
    t, test            Run test script in nearest package.json
    [script]           Run scripts in nearest package.json

FLAGS:
    -c <dir>              Change working directory
    -i, --interactive     Interactive mode
    -h, --help            Prints help information
    -v, --version         Prints version number
";

/// The help text: the program's name and version, then usage, commands and flags.
pub open spec fn help_text() -> Seq<char> {
    "dum v"@ + version() + HELP_BODY@
}

/// The help text.
pub fn get_help() -> (help: String)
    ensures
        help@ == help_text(),
{
    let mut help = "dum v".to_owned();
    help.append(get_version().as_str());
    help.append(HELP_BODY);
    help
}

/// Whether `command` is handed to the package manager as it is.
pub open spec fn forwarded_command(command: Seq<char>) -> bool {
    ||| command == "install"@
    ||| command == "i"@
    ||| command == "add"@
    ||| command == "remove"@
    ||| command == "uninstall"@
}

/// Whether `command` is handed to the package manager as it is.
pub fn is_forwarded_command(command: &str) -> (forwarded: bool)
    ensures
        forwarded == forwarded_command(command@),
{
    text_eq(command, "install") || text_eq(command, "i") || text_eq(command, "add") || text_eq(
        command,
        "remove",
    ) || text_eq(command, "uninstall")
}

/// A command line that is partly read: the arguments, the position of the
/// next one, and what the arguments before it asked for.
#[derive(Clone, Debug, PartialEq, Eq)]
pub struct ArgParser {
    pub args: Vec<String>,
    pub next: usize,
    pub parsed: AppArgs,
}

/// The plain values of an [`ArgParser`].
pub ghost struct ParserView {
    pub args: Seq<Seq<char>>,
    pub next: int,
    pub parsed: Request,
}

impl View for ArgParser {
    type V = ParserView;

    open spec fn view(&self) -> ParserView {
        ParserView { args: texts(self.args@), next: self.next as int, parsed: self.parsed@ }
    }
}

/// What reading the command line came to.
#[derive(Clone, Debug, PartialEq, Eq)]
pub enum Parsed {
    /// The whole command line was read.
    Done(AppArgs),
    /// `-c <dir>` was read. Reading goes on with [`ArgParser::enter_dir`], once
    /// the directory is known to exist.
    ChangeDir { dir: String, rest: ArgParser },
    /// The help text was asked for.
    Help,
    /// The version was asked for.
    Version,
    /// A flag that the runner does not know.
    UnknownFlag(String),
    /// `-c` stands last, without a directory.
    MissingDirectory,
    /// Arguments for a script were given although the script is picked from a list.
    ArgumentsInInteractiveMode,
}

/// The plain values of a [`Parsed`].
pub ghost enum ParsedView {
    Done(Request),
    ChangeDir { dir: Seq<char>, rest: ParserView },
    Help,
    Version,
    UnknownFlag(Seq<char>),
    MissingDirectory,
    ArgumentsInInteractiveMode,
}

impl View for Parsed {
    type V = ParsedView;

    open spec fn view(&self) -> ParsedView {
        match *self {
            Parsed::Done(args) => ParsedView::Done(args@),
            Parsed::ChangeDir { dir, rest } => ParsedView::ChangeDir { dir: dir@, rest: rest@ },
            Parsed::Help => ParsedView::Help,
            Parsed::Version => ParsedView::Version,
            Parsed::UnknownFlag(flag) => ParsedView::UnknownFlag(flag@),
            Parsed::MissingDirectory => ParsedView::MissingDirectory,
            Parsed::ArgumentsInInteractiveMode => ParsedView::ArgumentsInInteractiveMode,
        }
    }
}

/// The request before any argument is read.
pub open spec fn blank_request(current_dir: Seq<char>) -> Request {
    Request {
        script_name: Seq::empty(),
        forwarded: Seq::empty(),
        change_dir: current_dir,
        command: Seq::empty(),
        interactive: false,
        silent: false,
    }
}

/// Whether a flag is still the runner's own: no script is named yet, and no
/// command but `run` is given. After that, flags belong to the script or to
/// the package manager.
pub open spec fn reads_own_flags(parsed: Request) -> bool {
    parsed.script_name.len() == 0 && (parsed.command.len() == 0 || parsed.command == "run"@)
}

/// Whether `arg` looks like a flag.
pub open spec fn is_flag(arg: Seq<char>) -> bool {
    arg.len() > 0 && arg[0] == '-'
}

/// The command that `word` names, with `i` standing for `install`.
pub open spec fn command_named(word: Seq<char>) -> Seq<char> {
    if word == "i"@ {
        "install"@
    } else {
        word
    }
}

/// The script that `word` names, with `t` standing for `test`.
pub open spec fn script_named(word: Seq<char>) -> Seq<char> {
    if word == "t"@ {
        "test"@
    } else {
        word
    }
}

/// What reading the command line comes to, from position `p.next` on.
///
/// `--` hands everything after it to the script. A flag is the runner's own as
/// long as [`reads_own_flags`] holds, and is forwarded after that: `-c` with a
/// directory, `-i` or `--interactive`, `-h` or `--help`, `-v` or `--version`. The first
/// word that names a command becomes the command; otherwise the first word
/// becomes the script's name and makes the command `run`; further words are
/// forwarded, which the interactive mode does not allow.
pub open spec fn parse_from(p: ParserView) -> ParsedView
    decreases p.args.len() - p.next,
{
    if !(0 <= p.next < p.args.len()) {
        ParsedView::Done(p.parsed)
    } else {
        let arg = p.args[p.next];
        let forward = ParserView {
            next: p.next + 1,
            parsed: Request { forwarded: p.parsed.forwarded.push(arg), ..p.parsed },
            ..p
        };
        if arg == "--"@ {
            ParsedView::Done(
                Request { forwarded: p.parsed.forwarded + p.args.skip(p.next + 1), ..p.parsed },
            )
        } else if is_flag(arg) {
            if !reads_own_flags(p.parsed) {
                parse_from(forward)
            } else if arg == "-c"@ {
                if p.next + 1 < p.args.len() {
                    ParsedView::ChangeDir {
                        dir: p.args[p.next + 1],
                        rest: ParserView { next: p.next + 2, ..p },
                    }
                } else {
                    ParsedView::MissingDirectory
                }
            } else if arg == "-i"@ || arg == "--interactive"@ {
                parse_from(
                    ParserView {
                        next: p.next + 1,
                        parsed: Request { interactive: true, ..p.parsed },
                        ..p
                    },
                )
            } else if arg == "-h"@ || arg == "--help"@ {
                ParsedView::Help
            } else if arg == "-v"@ || arg == "--version"@ {
                ParsedView::Version
            } else {
                ParsedView::UnknownFlag(arg)
            }
        } else if p.parsed.command.len() == 0 && (forwarded_command(arg) || arg == "run"@) {
            parse_from(
                ParserView {
                    next: p.next + 1,
                    parsed: Request { command: command_named(arg), ..p.parsed },
                    ..p
                },
            )
        } else if reads_own_flags(p.parsed) {
            parse_from(
                ParserView {
                    next: p.next + 1,
                    parsed: Request { command: "run"@, script_name: script_named(arg), ..p.parsed },
                    ..p
                },
            )
        } else if p.parsed.interactive {
            ParsedView::ArgumentsInInteractiveMode
        } else {
            parse_from(forward)
        }
    }
}

impl ArgParser {
    /// Reads on from the next argument.
    pub fn parse(self) -> (parsed: Parsed)
        ensures
            parsed@ == parse_from(self@),
    {
        let ghost start = self@;
        let mut parser = self;
        loop
            invariant
                start == self@,
                parse_from(parser@) == parse_from(start),
            decreases parser.args.len() - parser.next,
        {
            if parser.next >= parser.args.len() {
                return Parsed::Done(parser.parsed);
            }
            let ghost before = parser@;
            let arg = parser.args[parser.next].clone();
            let own = parser.parsed.script_name.as_str().is_empty() && (
            parser.parsed.command.as_str().is_empty() || text_eq(parser.parsed.command.as_str(), "run"));
            if text_eq(arg.as_str(), "--") {
                append_from(&mut parser.parsed.forwarded, &parser.args, parser.next + 1);
                return Parsed::Done(parser.parsed);
            }
            if starts_with_char(arg.as_str(), '-') {
                if own {
                    if text_eq(arg.as_str(), "-c") {
                        if parser.next + 1 < parser.args.len() {
                            let dir = parser.args[parser.next + 1].clone();
                            parser.next = parser.next + 2;
                            return Parsed::ChangeDir { dir, rest: parser };
                        }
                        return Parsed::MissingDirectory;
                    } else if text_eq(arg.as_str(), "-i") || text_eq(arg.as_str(), "--interactive") {
                        parser.parsed.interactive = true;
                    } else if text_eq(arg.as_str(), "-h") || text_eq(arg.as_str(), "--help") {
                        return Parsed::Help;
                    } else if text_eq(arg.as_str(), "-v") || text_eq(arg.as_str(), "--version") {
                        return Parsed::Version;
                    } else {
                        return Parsed::UnknownFlag(arg);
                    }
                } else {
                    let ghost so_far = texts(parser.parsed.forwarded@);
                    parser.parsed.forwarded.push(arg);
                    assert(texts(parser.parsed.forwarded@) =~= so_far.push(arg@));
                }
            } else if parser.parsed.command.as_str().is_empty() && (is_forwarded_command(
                arg.as_str(),
            ) || text_eq(arg.as_str(), "run")) {
                parser.parsed.command = if text_eq(arg.as_str(), "i") {
                    "install".to_owned()
                } else {
                    arg
                };
            } else if own {
                parser.parsed.command = "run".to_owned();
                parser.parsed.script_name = if text_eq(arg.as_str(), "t") {
                    "test".to_owned()
                } else {
                    arg
                };
            } else {
                if parser.parsed.interactive {
                    return Parsed::ArgumentsInInteractiveMode;
                }
                let ghost so_far = texts(parser.parsed.forwarded@);
                parser.parsed.forwarded.push(arg);
                assert(texts(parser.parsed.forwarded@) =~= so_far.push(arg@));
            }
            parser.next = parser.next + 1;
        }
    }

    /// Reads on after `-c <dir>`, with `dir` as the working directory.
    pub fn enter_dir(self, dir: String) -> (parsed: Parsed)
        ensures
            parsed@ == parse_from(
                ParserView { parsed: Request { change_dir: dir@, ..self@.parsed }, ..self@ },
            ),
    {
        let mut parser = self;
        parser.parsed.change_dir = dir;
        parser.parse()
    }
}

/// Reads the command line `args_vec`, the arguments after the program's name.
/// The working directory is `current_dir` unless `-c` names another.
pub fn parse_args(args_vec: Vec<String>, current_dir: String) -> (parsed: Parsed)
    ensures
        parsed@ == parse_from(
            ParserView { args: texts(args_vec@), next: 0, parsed: blank_request(current_dir@) },
        ),
{
    let parser = ArgParser {
        args: args_vec,
        next: 0,
        parsed: AppArgs {
            script_name: String::new(),
            forwarded: Vec::new(),
            change_dir: current_dir,
            command: String::new(),
            interactive: false,
            silent: false,
        },
    };
    assert(texts(parser.parsed.forwarded@) =~= Seq::<Seq<char>>::empty());
    parser.parse()
}

/// The exit code with which reading the command line ends the run, if it does:
/// 0 after the help text or the version, 1 after a mistake.
pub open spec fn stop_code(parsed: ParsedView) -> Option<i32> {
    match parsed {
        ParsedView::Done(_) => None,
        ParsedView::ChangeDir { .. } => None,
        ParsedView::Help => Some(0i32),
        ParsedView::Version => Some(0i32),
        _ => Some(1i32),
    }
}

/// The text shown when reading the command line ends the run.
pub open spec fn stop_message(parsed: ParsedView) -> Option<Seq<char>> {
    match parsed {
        ParsedView::Done(_) => None,
        ParsedView::ChangeDir { .. } => None,
        ParsedView::Help => Some(help_text()),
        ParsedView::Version => Some(version()),
        ParsedView::UnknownFlag(flag) => Some("Unknown flag: "@ + flag),
        ParsedView::MissingDirectory => Some("No directory specified"@),
        ParsedView::ArgumentsInInteractiveMode => Some(
            "You can't pass arguments to interactive mode"@,
        ),
    }
}

impl Parsed {
    /// The exit code, if reading the command line ends the run.
    pub fn exit_code(&self) -> (code: Option<i32>)
        ensures
            code == stop_code(self@),
    {
        match self {
            Parsed::Done(_) => None,
            Parsed::ChangeDir { .. } => None,
            Parsed::Help => Some(0),
            Parsed::Version => Some(0),
            _ => Some(1),
        }
    }

    /// The text to show, if reading the command line ends the run.
    pub fn message(&self) -> (message: Option<String>)
        ensures
            match message {
                Some(m) => stop_message(self@) == Some(m@),
                None => stop_message(self@) is None,
            },
    {
        match self {
            Parsed::Done(_) => None,
            Parsed::ChangeDir { .. } => None,
            Parsed::Help => Some(get_help()),
            Parsed::Version => Some(get_version()),
            Parsed::UnknownFlag(flag) => {
                let mut message = "Unknown flag: ".to_owned();
                message.append(flag.as_str());
                Some(message)
            },
            Parsed::MissingDirectory => Some("No directory specified".to_owned()),
            Parsed::ArgumentsInInteractiveMode => Some(
                "You can't pass arguments to interactive mode".to_owned(),
            ),
        }
    }
}

/// The text shown when the directory given with `-c` does not exist.
pub fn no_such_directory(dir: &str) -> (message: String)
    ensures
        message@ == "Error: directory "@ + dir@ + " does not exist"@,
{
    let mut message = "Error: directory ".to_owned();
    message.append(dir);
    message.append(" does not exist");
    message
}

/// Whether a request is in the form the parser leaves it in: the command is
/// empty, `run`, or a package manager's command under its full name, and a
/// script is named only under `run`. The parser never asks for silence.
pub open spec fn settled(request: Request) -> bool {
    &&& request.command.len() == 0 || request.command == "run"@ || (forwarded_command(
        request.command,
    ) && request.command != "i"@)
    &&& request.script_name.len() > 0 ==> request.command == "run"@
    &&& !request.silent
}

/// Reading the command line leaves the request settled, where it stops for a
/// directory as well as at the end.
pub proof fn lemma_parse_settled(p: ParserView)
    requires
        settled(p.parsed),
    ensures
        match parse_from(p) {
            ParsedView::Done(request) => settled(request),
            ParsedView::ChangeDir { rest, .. } => settled(rest.parsed) && rest.args == p.args
                && p.next < rest.next <= p.args.len(),
            _ => true,
        },
    decreases p.args.len() - p.next,
{
    reveal_strlit("i");
    reveal_strlit("install");
    reveal_strlit("run");
    if 0 <= p.next < p.args.len() {
        let arg = p.args[p.next];
        assert("install"@.len() == 7 && "i"@.len() == 1 && "run"@.len() == 3);
        if arg == "--"@ {
        } else if is_flag(arg) {
            if !reads_own_flags(p.parsed) {
                lemma_parse_settled(
                    ParserView {
                        next: p.next + 1,
                        parsed: Request { forwarded: p.parsed.forwarded.push(arg), ..p.parsed },
                        ..p
                    },
                );
            } else if arg == "-c"@ {
            } else if arg == "-i"@ || arg == "--interactive"@ {
                lemma_parse_settled(
                    ParserView {
                        next: p.next + 1,
                        parsed: Request { interactive: true, ..p.parsed },
                        ..p
                    },
                );
            }
        } else if p.parsed.command.len() == 0 && (forwarded_command(arg) || arg == "run"@) {
            lemma_parse_settled(
                ParserView {
                    next: p.next + 1,
                    parsed: Request { command: command_named(arg), ..p.parsed },
                    ..p
                },
            );
        } else if reads_own_flags(p.parsed) {
            lemma_parse_settled(
                ParserView {
                    next: p.next + 1,
                    parsed: Request { command: "run"@, script_name: script_named(arg), ..p.parsed },
                    ..p
                },
            );
        } else if !p.parsed.interactive {
            lemma_parse_settled(
                ParserView {
                    next: p.next + 1,
                    parsed: Request { forwarded: p.parsed.forwarded.push(arg), ..p.parsed },
                    ..p
                },
            );
        }
    }
}

/// The request before any argument is read is settled.
pub proof fn lemma_blank_is_settled(current_dir: Seq<char>)
    ensures
        settled(blank_request(current_dir)),
{
}

} // verus!

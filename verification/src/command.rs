//! The command that is finally run: what to run, where, with which arguments
//! and environment, and how the shell is asked to run it.

use vstd::prelude::*;
use crate::environment::Platform;
use crate::text::{append_all, texts};

verus! {

/// A command that is ready to be run.
#[derive(Clone, Debug, PartialEq, Eq)]
pub struct ExecutionPlan {
    /// The text the shell interprets: a script's command line or a program's path.
    pub script: String,
    /// The arguments handed to the script, each one kept whole.
    pub args: Vec<String>,
    /// The directory the command runs in.
    pub current_dir: String,
    /// The variables set on top of the inherited environment.
    pub envs: Vec<(String, String)>,
}

/// The plain values of an [`ExecutionPlan`].
pub ghost struct Plan {
    pub script: Seq<char>,
    pub args: Seq<Seq<char>>,
    pub current_dir: Seq<char>,
    pub envs: Seq<(Seq<char>, Seq<char>)>,
}

/// The plain values of a list of variables.
pub open spec fn pairs(envs: Seq<(String, String)>) -> Seq<(Seq<char>, Seq<char>)> {
    envs.map_values(|e: (String, String)| (e.0@, e.1@))
}

impl View for ExecutionPlan {
    type V = Plan;

    open spec fn view(&self) -> Plan {
        Plan {
            script: self.script@,
            args: texts(self.args@),
            current_dir: self.current_dir@,
            envs: pairs(self.envs@),
        }
    }
}

/// A program and its argument vector.
#[derive(Clone, Debug, PartialEq, Eq)]
pub struct ShellCommand {
    pub program: String,
    pub args: Vec<String>,
}

/// The shell that interprets a command on `platform`.
pub open spec fn shell_program(platform: Platform) -> Seq<char> {
    match platform {
        Platform::Posix => "sh"@,
        Platform::Windows => "cmd"@,
    }
}

/// The argument vector that makes the shell of `platform` run `script` with
/// `args`. On a POSIX system the script is followed by `"$@"`, and the
/// arguments become the shell's positional parameters, so that none of them is
/// split or joined on the way.
pub open spec fn shell_arguments(platform: Platform, script: Seq<char>, args: Seq<Seq<char>>) -> Seq<
    Seq<char>,
> {
    match platform {
        Platform::Posix => seq!["-c"@, script + " \"$@\""@, "sh"@] + args,
        Platform::Windows => seq!["/C"@, script] + args,
    }
}

/// The shell invocation that runs `script` with `args` on `platform`.
pub fn shell_command(script: &str, args: &Vec<String>, platform: Platform) -> (command: ShellCommand)
    ensures
        command.program@ == shell_program(platform),
        texts(command.args@) == shell_arguments(platform, script@, texts(args@)),
{
    let mut argv: Vec<String> = Vec::new();
    match platform {
        Platform::Posix => {
            let mut body = script.to_owned();
            body.append(" \"$@\"");
            argv.push("-c".to_owned());
            argv.push(body);
            argv.push("sh".to_owned());
            assert(texts(argv@) =~= seq!["-c"@, script@ + " \"$@\""@, "sh"@]);
            append_all(&mut argv, args);
            ShellCommand { program: "sh".to_owned(), args: argv }
        },
        Platform::Windows => {
            argv.push("/C".to_owned());
            argv.push(script.to_owned());
            assert(texts(argv@) =~= seq!["/C"@, script@]);
            append_all(&mut argv, args);
            ShellCommand { program: "cmd".to_owned(), args: argv }
        },
    }
}

/// The exit code of the runner after its command has ended: the command's own
/// code, or 1 if it ended without one.
pub fn exit_code(child: Option<i32>) -> (code: i32)
    ensures
        code == match child {
            Some(c) => c,
            None => 1i32,
        },
{
    match child {
        Some(c) => c,
        None => 1,
    }
}

} // verus!

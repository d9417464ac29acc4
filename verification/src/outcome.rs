//! How a run ends: with a command to execute, with something to show, or with
//! a failure.

use vstd::prelude::*;
use crate::command::{ExecutionPlan, Plan};
use crate::manifest::ScriptTable;
use crate::text::texts;
use crate::words::{join_words, shell_line};

verus! {

/// A failure that ends the run with a non-zero exit code.
#[derive(Clone, Copy, Debug, PartialEq, Eq, Structural)]
pub enum Failure {
    /// No manifest was found in the working directory or above it, or the
    /// manifest could not be read.
    ManifestMissing,
    /// The manifest is not a JSON document.
    ManifestInvalid,
    /// No lockfile names a package manager and the user chose none.
    PackageManagerUndetected,
    /// The name is neither a declared script nor a local executable.
    ScriptNotFound,
    /// A script was named although it was to be picked from a list.
    ScriptNameInInteractiveMode,
    /// A script was to be picked from a list, but none is declared.
    NoScripts,
    /// The driver reported something the resolver had not asked for.
    UnexpectedEvent,
}

impl Failure {
    /// The message shown for this failure.
    pub open spec fn message(self) -> Seq<char> {
        match self {
            Failure::ManifestMissing => "No package.json found"@,
            Failure::ManifestInvalid => "failed to parse package.json"@,
            Failure::PackageManagerUndetected => "Aborted."@,
            Failure::ScriptNotFound => "No script found."@,
            Failure::ScriptNameInInteractiveMode => "You can't specify script name in interactive mode"@,
            Failure::NoScripts => "No scripts found in package.json"@,
            Failure::UnexpectedEvent => "unexpected answer from the driver"@,
        }
    }

    /// The advice that follows the message, where there is any.
    pub open spec fn advice(self) -> Option<Seq<char>> {
        match self {
            Failure::ScriptNotFound => Some("To see a list of scripts, run `dum run`"@),
            _ => None,
        }
    }

    /// The message shown for this failure.
    pub fn to_string(&self) -> (message: String)
        ensures
            message@ == self.message(),
    {
        match self {
            Failure::ManifestMissing => "No package.json found".to_owned(),
            Failure::ManifestInvalid => "failed to parse package.json".to_owned(),
            Failure::PackageManagerUndetected => "Aborted.".to_owned(),
            Failure::ScriptNotFound => "No script found.".to_owned(),
            Failure::ScriptNameInInteractiveMode => "You can't specify script name in interactive mode".to_owned(),
            Failure::NoScripts => "No scripts found in package.json".to_owned(),
            Failure::UnexpectedEvent => "unexpected answer from the driver".to_owned(),
        }
    }

    /// The advice that follows the message, where there is any.
    pub fn hint(&self) -> (hint: Option<String>)
        ensures
            match hint {
                Some(h) => self.advice() == Some(h@),
                None => self.advice() is None,
            },
    {
        match self {
            Failure::ScriptNotFound => Some("To see a list of scripts, run `dum run`".to_owned()),
            _ => None,
        }
    }
}

/// The two lines shown before a command runs.
#[derive(Clone, Debug, PartialEq, Eq)]
pub struct Trace {
    /// The name that was asked for.
    pub script_name: String,
    /// The command text that it resolved to.
    pub script: String,
    /// The forwarded arguments, quoted for a shell.
    pub arguments: String,
}

/// The plain values of a [`Trace`].
pub ghost struct TraceView {
    pub script_name: Seq<char>,
    pub script: Seq<char>,
    pub arguments: Seq<char>,
}

impl View for Trace {
    type V = TraceView;

    open spec fn view(&self) -> TraceView {
        TraceView { script_name: self.script_name@, script: self.script@, arguments: self.arguments@ }
    }
}

/// The trace for running `script` under the name `script_name` with the
/// arguments `forwarded`.
pub open spec fn script_info(script_name: Seq<char>, script: Seq<char>, forwarded: Seq<Seq<char>>) -> TraceView {
    TraceView { script_name, script, arguments: shell_line(forwarded) }
}

/// The first line of a trace: the name that was asked for.
pub open spec fn name_line(trace: TraceView) -> Seq<char> {
    "$ "@ + trace.script_name
}

/// The second line of a trace: the command and the arguments it gets.
pub open spec fn command_line(trace: TraceView) -> Seq<char> {
    "$ "@ + trace.script + " "@ + trace.arguments
}

/// Describes the command that is about to run: the name that was asked for,
/// what it resolved to, and the forwarded arguments quoted for a shell.
pub fn print_script_info(script_name: &str, script: &str, forwarded: &Vec<String>) -> (trace: Trace)
    ensures
        trace@ == script_info(script_name@, script@, texts(forwarded@)),
{
    Trace {
        script_name: script_name.to_owned(),
        script: script.to_owned(),
        arguments: join_words(forwarded),
    }
}

impl Trace {
    /// The two lines of the trace as plain text.
    pub fn lines(&self) -> (lines: (String, String))
        ensures
            lines.0@ == name_line(self@),
            lines.1@ == command_line(self@),
    {
        let mut first = "$ ".to_owned();
        first.append(self.script_name.as_str());
        let mut second = "$ ".to_owned();
        second.append(self.script.as_str());
        second.append(" ");
        second.append(self.arguments.as_str());
        (first, second)
    }
}

/// How a run ends.
#[derive(Clone, Debug, PartialEq, Eq)]
pub enum Outcome {
    /// Run the command; the runner exits with the command's exit code.
    Execute { trace: Option<Trace>, plan: ExecutionPlan },
    /// Show the declared scripts.
    Listing(ScriptTable),
    /// Nothing was asked for: show how the runner is used.
    Usage,
    /// The user left the list of scripts without picking one.
    NothingSelected,
    /// The user left the prompt for arguments.
    Cancelled,
    /// Report the failure.
    Failed(Failure),
}

/// The plain values of an [`Outcome`].
pub ghost enum OutcomeView {
    Execute { trace: Option<TraceView>, plan: Plan },
    Listing(Seq<(Seq<char>, Seq<char>)>),
    Usage,
    NothingSelected,
    Cancelled,
    Failed(Failure),
}

impl View for Outcome {
    type V = OutcomeView;

    open spec fn view(&self) -> OutcomeView {
        match *self {
            Outcome::Execute { trace, plan } => OutcomeView::Execute {
                trace: match trace {
                    Some(t) => Some(t@),
                    None => None,
                },
                plan: plan@,
            },
            Outcome::Listing(table) => OutcomeView::Listing(table@),
            Outcome::Usage => OutcomeView::Usage,
            Outcome::NothingSelected => OutcomeView::NothingSelected,
            Outcome::Cancelled => OutcomeView::Cancelled,
            Outcome::Failed(failure) => OutcomeView::Failed(failure),
        }
    }
}

/// The exit code of a run that ended in `outcome`. An executed command decides
/// it by its own exit code `child`, or 1 if it ended without one; a failure
/// gives 1; everything else, a listing and a cancelled choice included, gives 0.
pub open spec fn exit_status_of(outcome: OutcomeView, child: Option<i32>) -> i32 {
    match outcome {
        OutcomeView::Execute { .. } => match child {
            Some(code) => code,
            None => 1i32,
        },
        OutcomeView::Failed(_) => 1i32,
        _ => 0i32,
    }
}

/// The notice shown for an outcome that runs nothing and is no failure.
pub open spec fn notice_of(outcome: OutcomeView) -> Option<Seq<char>> {
    match outcome {
        OutcomeView::Usage => Some("No script name specified.\n"@),
        OutcomeView::NothingSelected => Some("No script selected."@),
        OutcomeView::Cancelled => Some("Aborted."@),
        _ => None,
    }
}

impl Outcome {
    /// The exit code of the runner, given the exit code of the command if one ran.
    pub fn exit_status(&self, child: Option<i32>) -> (code: i32)
        ensures
            code == exit_status_of(self@, child),
    {
        match self {
            Outcome::Execute { .. } => crate::command::exit_code(child),
            Outcome::Failed(_) => 1,
            _ => 0,
        }
    }

    /// The notice to show, for an outcome that runs nothing and is no failure.
    pub fn notice(&self) -> (notice: Option<String>)
        ensures
            match notice {
                Some(n) => notice_of(self@) == Some(n@),
                None => notice_of(self@) is None,
            },
    {
        match self {
            Outcome::Usage => Some("No script name specified.\n".to_owned()),
            Outcome::NothingSelected => Some("No script selected.".to_owned()),
            Outcome::Cancelled => Some("Aborted.".to_owned()),
            _ => None,
        }
    }
}

} // verus!

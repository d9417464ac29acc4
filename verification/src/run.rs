//! The resolver: from a request to the command that is run.
//!
//! The resolver decides and a driver acts. [`run`] and
//! [`Resolver::step`] each answer with an [`Action`]; the driver performs it
//! and reports what happened as the next [`Event`], until the action is
//! [`Action::Finish`].

use vstd::prelude::*;
use crate::args::{forwarded_command, is_forwarded_command, AppArgs, Request};
use crate::command::{ExecutionPlan, Plan};
use crate::environment::{compose_path, get_path_env, Platform};
use crate::install::{
    has_lockfile,
    lockfile_names,
    choice_labels,
    choose_package_manager,
    chosen,
    detect,
    guess_package_manager,
    lockfile_candidates,
    lockfile_paths,
    package_manager_choices,
    PackageManager,
};
use crate::manifest::{command_of, loaded, names_of, ManifestError, ScriptTable};
use crate::outcome::{
    exit_status_of,
    print_script_info,
    script_info,
    Failure,
    Outcome,
    OutcomeView,
    TraceView,
};
use crate::paths::{
    candidates,
    join_each,
    joined_each,
    lemma_observed_truthful,
    lemma_snapshot_faithful,
    observed,
    path_join,
    resolve_bin,
    resolve_bin_path,
    truthful,
    DirTree,
};
use crate::project::{
    discovery_paths,
    discovery_probes,
    locate,
    location_of,
    optional_location,
    Location,
    ProjectLocation,
    MANIFEST_NAME,
    MODULES_NAME,
};
use crate::text::{append_all, copy_all, text_eq, texts};
use crate::words::{shell_words, split_words};

verus! {

/// The variable that holds the search path.
pub const PATH_VARIABLE: &'static str = "PATH";

/// The question asked when no lockfile names a package manager.
pub const ASK_PACKAGE_MANAGER: &'static str = "Which package manager do you want to use?";

/// The question asked when a script is picked from a list.
pub const ASK_SCRIPT: &'static str = "Select an npm script to run";

/// The question asked for the arguments of a picked script.
pub const ASK_ARGUMENTS: &'static str = "Enter arguments to pass to the script";

/// What the driver has to do next.
#[derive(Clone, Debug, PartialEq, Eq)]
pub enum Action {
    /// Find out which of these paths exist, and answer with [`Event::Probed`].
    Probe(Vec<String>),
    /// Read this file as text, and answer with [`Event::Contents`].
    Read(String),
    /// Let the user pick one of `items`, and answer with [`Event::Selected`].
    Select { message: String, items: Vec<String> },
    /// Ask the user for a line of text, and answer with [`Event::Entered`].
    /// With `retry`, the line entered before could not be split into words.
    Input { message: String, retry: bool },
    /// End the run.
    Finish(Outcome),
}

/// The plain values of an [`Action`].
pub ghost enum ActionView {
    Probe(Seq<Seq<char>>),
    Read(Seq<char>),
    Select { message: Seq<char>, items: Seq<Seq<char>> },
    Input { message: Seq<char>, retry: bool },
    Finish(OutcomeView),
}

impl View for Action {
    type V = ActionView;

    open spec fn view(&self) -> ActionView {
        match *self {
            Action::Probe(paths) => ActionView::Probe(texts(paths@)),
            Action::Read(path) => ActionView::Read(path@),
            Action::Select { message, items } => ActionView::Select {
                message: message@,
                items: texts(items@),
            },
            Action::Input { message, retry } => ActionView::Input { message: message@, retry },
            Action::Finish(outcome) => ActionView::Finish(outcome@),
        }
    }
}

/// What the driver reports back.
#[derive(Clone, Debug, PartialEq, Eq)]
pub enum Event {
    /// For each probed path, in the order asked, whether it exists.
    Probed(Vec<bool>),
    /// The text of the file, or nothing if it could not be read.
    Contents(Option<String>),
    /// The item the user picked, or nothing if the user left the list.
    Selected(Option<String>),
    /// The line the user entered, or nothing if the user left the prompt.
    Entered(Option<String>),
}

/// The plain values of an [`Event`].
pub ghost enum EventView {
    Probed(Seq<bool>),
    Contents(Option<Seq<char>>),
    Selected(Option<Seq<char>>),
    Entered(Option<Seq<char>>),
}

/// The characters of a string that may be missing.
pub open spec fn optional_text(text: Option<String>) -> Option<Seq<char>> {
    match text {
        Some(t) => Some(t@),
        None => None,
    }
}

impl View for Event {
    type V = EventView;

    open spec fn view(&self) -> EventView {
        match *self {
            Event::Probed(present) => EventView::Probed(present@),
            Event::Contents(text) => EventView::Contents(optional_text(text)),
            Event::Selected(item) => EventView::Selected(optional_text(item)),
            Event::Entered(line) => EventView::Entered(optional_text(line)),
        }
    }
}

/// What the resolver is waiting for.
#[derive(Clone, Copy, Debug, PartialEq, Eq, Structural)]
pub enum Phase {
    /// Whether the lockfiles exist.
    Lockfiles,
    /// The user's choice of a package manager.
    PackageManagerChoice,
    /// Whether the manifest and the dependency directories exist.
    Discovery,
    /// The text of the manifest.
    Manifest,
    /// The user's choice of a script.
    ScriptChoice,
    /// The arguments for the chosen script.
    Arguments,
    /// Whether the executable exists in the executable directories.
    Executables,
    /// Nothing: the run has ended.
    Done,
}

/// The plain values of a [`Resolver`].
pub ghost struct State {
    /// What was asked for; a picked script and its arguments are added to it.
    pub request: Request,
    pub platform: Platform,
    /// The search path the runner itself was started with.
    pub inherited_path: Seq<char>,
    pub phase: Phase,
    /// The paths of the probe that is under way.
    pub probes: Seq<Seq<char>>,
    /// The directory of the manifest.
    pub execute_dir: Seq<char>,
    /// The directories of executables, nearest first.
    pub bin_dirs: Seq<Seq<char>>,
    /// The scripts the manifest declares.
    pub scripts: Seq<(Seq<char>, Seq<char>)>,
}

/// The state of one run.
#[derive(Debug)]
pub struct Resolver {
    request: AppArgs,
    platform: Platform,
    inherited_path: String,
    phase: Phase,
    probes: Vec<String>,
    execute_dir: String,
    bin_dirs: Vec<String>,
    scripts: ScriptTable,
}

impl View for Resolver {
    type V = State;

    closed spec fn view(&self) -> State {
        State {
            request: self.request@,
            platform: self.platform,
            inherited_path: self.inherited_path@,
            phase: self.phase,
            probes: texts(self.probes@),
            execute_dir: self.execute_dir@,
            bin_dirs: texts(self.bin_dirs@),
            scripts: self.scripts@,
        }
    }
}

/// The command that hands `request` to the package manager `pm`: the package
/// manager, the command's own name, then the forwarded arguments, run in the
/// working directory with the environment as it is.
pub open spec fn forward_plan(request: Request, pm: PackageManager) -> Plan {
    Plan {
        script: pm.name(),
        args: seq![request.command] + request.forwarded,
        current_dir: request.change_dir,
        envs: Seq::empty(),
    }
}

/// The command that runs `script`, a declared command line or an executable's
/// path: it gets the forwarded arguments, runs in the manifest's directory, and
/// finds the project's executables first on its search path.
pub open spec fn script_plan(s: State, script: Seq<char>) -> Plan {
    Plan {
        script,
        args: s.request.forwarded,
        current_dir: s.execute_dir,
        envs: seq![
            (PATH_VARIABLE@, compose_path(s.bin_dirs, s.inherited_path, s.platform.separator())),
        ],
    }
}

/// The trace shown before `script` runs, unless the request is silent.
pub open spec fn trace_of(s: State, script: Seq<char>) -> Option<TraceView> {
    if s.request.silent {
        None
    } else {
        Some(script_info(s.request.script_name, script, s.request.forwarded))
    }
}

/// The run ends with `outcome`.
pub open spec fn finished(s: State, outcome: OutcomeView) -> (State, ActionView) {
    (State { phase: Phase::Done, ..s }, ActionView::Finish(outcome))
}

/// The run ends with the execution of `script`.
pub open spec fn executing(s: State, script: Seq<char>) -> (State, ActionView) {
    finished(s, OutcomeView::Execute { trace: trace_of(s, script), plan: script_plan(s, script) })
}

/// The run ends because the event was not the one the phase waits for.
pub open spec fn refused(s: State) -> (State, ActionView) {
    finished(s, OutcomeView::Failed(Failure::UnexpectedEvent))
}

/// The first state and action of a run. A command for the package manager
/// looks for lockfiles in the working directory; anything else looks for the
/// manifest and the dependency directories from there upward.
pub open spec fn begin(request: Request, platform: Platform, inherited_path: Seq<char>) -> (
    State,
    ActionView,
) {
    let forwarded = forwarded_command(request.command);
    let probes = if forwarded {
        lockfile_candidates(request.change_dir)
    } else {
        discovery_probes(request.change_dir)
    };
    (
        State {
            request,
            platform,
            inherited_path,
            phase: if forwarded {
                Phase::Lockfiles
            } else {
                Phase::Discovery
            },
            probes,
            execute_dir: Seq::empty(),
            bin_dirs: Seq::empty(),
            scripts: Seq::empty(),
        },
        ActionView::Probe(probes),
    )
}

/// The run ends with the command handed to `pm`, or fails without a package manager.
pub open spec fn forwarding(s: State, pm: Option<PackageManager>) -> (State, ActionView) {
    match pm {
        Some(pm) => finished(
            s,
            OutcomeView::Execute { trace: None, plan: forward_plan(s.request, pm) },
        ),
        None => finished(s, OutcomeView::Failed(Failure::PackageManagerUndetected)),
    }
}

/// After the lockfiles were probed: a lockfile decides the package manager,
/// and without one the user is asked.
pub open spec fn after_lockfiles(s: State, present: Seq<bool>) -> (State, ActionView) {
    match detect(observed(s.probes, present), s.request.change_dir) {
        Some(pm) => forwarding(s, Some(pm)),
        None => (
            State { phase: Phase::PackageManagerChoice, ..s },
            ActionView::Select { message: ASK_PACKAGE_MANAGER@, items: choice_labels() },
        ),
    }
}

/// After the user was asked for a package manager.
pub open spec fn after_package_manager_choice(s: State, answer: Option<Seq<char>>) -> (
    State,
    ActionView,
) {
    forwarding(s, chosen(answer))
}

/// After the project was located, while the resolver waits for that: the
/// manifest of a located project is read, and without a project the run fails.
pub open spec fn after_location(s: State, location: Option<Location>) -> (State, ActionView) {
    if s.phase != Phase::Discovery {
        refused(s)
    } else {
        match location {
            Some(l) => (
                State { phase: Phase::Manifest, execute_dir: l.execute_dir, bin_dirs: l.bin_dirs, ..s },
                ActionView::Read(l.manifest_path),
            ),
            None => finished(s, OutcomeView::Failed(Failure::ManifestMissing)),
        }
    }
}

/// After the manifest and the dependency directories were probed: the project
/// is located in what the probe found.
pub open spec fn after_discovery(s: State, present: Seq<bool>) -> (State, ActionView) {
    after_location(s, location_of(observed(s.probes, present), s.request.change_dir))
}

/// The name is resolved: a declared script comes before an executable of the
/// same name, and only for an undeclared name are the executable directories probed.
pub open spec fn resolve_name(s: State) -> (State, ActionView) {
    match command_of(s.scripts, s.request.script_name) {
        Some(command) => executing(s, command),
        None => {
            let probes = joined_each(s.bin_dirs, s.request.script_name);
            (State { phase: Phase::Executables, probes, ..s }, ActionView::Probe(probes))
        },
    }
}

/// What a request asks for, once the scripts are known.
pub open spec fn dispatch(s: State) -> (State, ActionView) {
    let named = s.request.script_name.len() > 0;
    if !s.request.interactive && s.request.command == "run"@ && !named {
        finished(s, OutcomeView::Listing(s.scripts))
    } else if named && s.request.interactive {
        finished(s, OutcomeView::Failed(Failure::ScriptNameInInteractiveMode))
    } else if !named && !s.request.interactive {
        finished(s, OutcomeView::Usage)
    } else if !named {
        if s.scripts.len() == 0 {
            finished(s, OutcomeView::Failed(Failure::NoScripts))
        } else {
            (
                State { phase: Phase::ScriptChoice, ..s },
                ActionView::Select { message: ASK_SCRIPT@, items: names_of(s.scripts) },
            )
        }
    } else {
        resolve_name(s)
    }
}

/// After the manifest was loaded, while the resolver waits for that: the
/// request is dispatched over the manifest's scripts, and a manifest that
/// could not be loaded ends the run.
pub open spec fn after_load(s: State, table: Result<Seq<(Seq<char>, Seq<char>)>, ManifestError>) -> (
    State,
    ActionView,
) {
    if s.phase != Phase::Manifest {
        refused(s)
    } else {
        match table {
            Ok(scripts) => dispatch(State { scripts, ..s }),
            Err(ManifestError::Missing) => finished(
                s,
                OutcomeView::Failed(Failure::ManifestMissing),
            ),
            Err(ManifestError::Invalid) => finished(
                s,
                OutcomeView::Failed(Failure::ManifestInvalid),
            ),
        }
    }
}

/// After the manifest was read.
pub open spec fn after_manifest(s: State, contents: Option<Seq<char>>) -> (State, ActionView) {
    after_load(s, loaded(contents))
}

/// After the user was shown the scripts: the picked script becomes the
/// requested one and its arguments are asked for; leaving the list ends the run.
pub open spec fn after_script_choice(s: State, answer: Option<Seq<char>>) -> (State, ActionView) {
    match answer {
        Some(name) => (
            State { phase: Phase::Arguments, request: Request { script_name: name, ..s.request }, ..s },
            ActionView::Input { message: ASK_ARGUMENTS@, retry: false },
        ),
        None => finished(s, OutcomeView::NothingSelected),
    }
}

/// After the entered line was split into words, while the resolver waits for
/// arguments: the words are added to the forwarded arguments, and a line that
/// could not be split is asked for again.
pub open spec fn after_words(s: State, words: Option<Seq<Seq<char>>>) -> (State, ActionView) {
    if s.phase != Phase::Arguments {
        refused(s)
    } else {
        match words {
            Some(words) => resolve_name(
                State {
                    request: Request { forwarded: s.request.forwarded + words, ..s.request },
                    ..s
                },
            ),
            None => (s, ActionView::Input { message: ASK_ARGUMENTS@, retry: true }),
        }
    }
}

/// After the user was asked for arguments.
pub open spec fn after_arguments(s: State, line: Option<Seq<char>>) -> (State, ActionView) {
    match line {
        Some(line) => after_words(s, shell_words(line)),
        None => finished(s, OutcomeView::Cancelled),
    }
}

/// After the executable directories were probed.
pub open spec fn after_executables(s: State, present: Seq<bool>) -> (State, ActionView) {
    match resolve_bin(observed(s.probes, present), s.request.script_name, s.bin_dirs) {
        Some(path) => executing(s, path),
        None => finished(s, OutcomeView::Failed(Failure::ScriptNotFound)),
    }
}

/// The next state and action for an event. An event that the current phase
/// does not wait for ends the run with a failure.
pub open spec fn step_spec(s: State, event: EventView) -> (State, ActionView) {
    match (s.phase, event) {
        (Phase::Lockfiles, EventView::Probed(present)) => after_lockfiles(s, present),
        (Phase::PackageManagerChoice, EventView::Selected(answer)) => after_package_manager_choice(
            s,
            answer,
        ),
        (Phase::Discovery, EventView::Probed(present)) => after_discovery(s, present),
        (Phase::Manifest, EventView::Contents(contents)) => after_manifest(s, contents),
        (Phase::ScriptChoice, EventView::Selected(answer)) => after_script_choice(s, answer),
        (Phase::Arguments, EventView::Entered(line)) => after_arguments(s, line),
        (Phase::Executables, EventView::Probed(present)) => after_executables(s, present),
        _ => refused(s),
    }
}

/// Starts a run for `app_args` on `platform`, with the search path the runner
/// inherited, and says what to probe first.
pub fn run(app_args: AppArgs, platform: Platform, inherited_path: String) -> (started: (
    Resolver,
    Action,
))
    ensures
        (started.0@, started.1@) == begin(app_args@, platform, inherited_path@),
        consistent(started.0@),
{
    let forwarded = is_forwarded_command(app_args.command.as_str());
    let probes = if forwarded {
        lockfile_paths(app_args.change_dir.as_str())
    } else {
        discovery_paths(app_args.change_dir.as_str())
    };
    let asked = copy_all(&probes);
    let resolver = Resolver {
        request: app_args,
        platform,
        inherited_path,
        phase: if forwarded {
            Phase::Lockfiles
        } else {
            Phase::Discovery
        },
        probes,
        execute_dir: String::new(),
        bin_dirs: Vec::new(),
        scripts: ScriptTable { scripts: Vec::new() },
    };
    proof {
        assert(texts(resolver.bin_dirs@) =~= Seq::<Seq<char>>::empty());
        assert(resolver.scripts@ =~= Seq::<(Seq<char>, Seq<char>)>::empty());
    }
    (resolver, Action::Probe(asked))
}

impl Resolver {
    /// Whether the run has ended.
    pub fn is_done(&self) -> (done: bool)
        ensures
            done == (self@.phase == Phase::Done),
    {
        match self.phase {
            Phase::Done => true,
            _ => false,
        }
    }

    /// Takes the driver's report and says what to do next.
    pub fn step(&mut self, event: Event) -> (action: Action)
        ensures
            (final(self)@, action@) == step_spec(old(self)@, event@),
            consistent(old(self)@) ==> consistent(final(self)@),
    {
        proof {
            if consistent(self@) {
                lemma_step_consistent(self@, event@);
            }
        }
        match (self.phase, event) {
            (Phase::Lockfiles, Event::Probed(present)) => self.lockfiles_probed(&present),
            (Phase::PackageManagerChoice, Event::Selected(answer)) => {
                let pm = choose_package_manager(&answer);
                self.forward(pm)
            },
            (Phase::Discovery, Event::Probed(present)) => self.discovery_probed(&present),
            (Phase::Manifest, Event::Contents(contents)) => {
                let table = ScriptTable::load(&contents);
                self.manifest_loaded(table)
            },
            (Phase::ScriptChoice, Event::Selected(answer)) => self.script_chosen(answer),
            (Phase::Arguments, Event::Entered(line)) => match line {
                Some(line) => {
                    let words = split_words(line.as_str());
                    self.words_entered(words)
                },
                None => self.finish(Outcome::Cancelled),
            },
            (Phase::Executables, Event::Probed(present)) => self.executables_probed(&present),
            _ => self.finish(Outcome::Failed(Failure::UnexpectedEvent)),
        }
    }

    /// Ends the run with `outcome`.
    fn finish(&mut self, outcome: Outcome) -> (action: Action)
        ensures
            (final(self)@, action@) == finished(old(self)@, outcome@),
    {
        self.phase = Phase::Done;
        Action::Finish(outcome)
    }

    /// Ends the run with the execution of `script`.
    fn execute(&mut self, script: String) -> (action: Action)
        ensures
            (final(self)@, action@) == executing(old(self)@, script@),
    {
        let trace = if self.request.silent {
            None
        } else {
            Some(
                print_script_info(
                    self.request.script_name.as_str(),
                    script.as_str(),
                    &self.request.forwarded,
                ),
            )
        };
        let mut envs: Vec<(String, String)> = Vec::new();
        envs.push(
            (
                PATH_VARIABLE.to_owned(),
                get_path_env(&self.bin_dirs, self.inherited_path.as_str(), self.platform),
            ),
        );
        let plan = ExecutionPlan {
            script,
            args: copy_all(&self.request.forwarded),
            current_dir: self.execute_dir.clone(),
            envs,
        };
        proof {
            assert(plan@.envs =~= script_plan(self@, script@).envs);
            assert(plan@ == script_plan(self@, script@));
        }
        self.finish(Outcome::Execute { trace, plan })
    }

    /// Ends the run with the command handed to the package manager, or with a
    /// failure if there is none.
    fn forward(&mut self, pm: Option<PackageManager>) -> (action: Action)
        ensures
            (final(self)@, action@) == forwarding(old(self)@, pm),
    {
        match pm {
            Some(pm) => {
                let mut args: Vec<String> = Vec::new();
                args.push(self.request.command.clone());
                assert(texts(args@) =~= seq![self.request.command@]);
                append_all(&mut args, &self.request.forwarded);
                let plan = ExecutionPlan {
                    script: pm.to_string(),
                    args,
                    current_dir: self.request.change_dir.clone(),
                    envs: Vec::new(),
                };
                proof {
                    assert(plan@.envs =~= Seq::<(Seq<char>, Seq<char>)>::empty());
                    assert(plan@ == forward_plan(self@.request, pm));
                }
                self.finish(Outcome::Execute { trace: None, plan })
            },
            None => self.finish(Outcome::Failed(Failure::PackageManagerUndetected)),
        }
    }

    /// Takes the answers to the probe for lockfiles.
    fn lockfiles_probed(&mut self, present: &Vec<bool>) -> (action: Action)
        ensures
            (final(self)@, action@) == after_lockfiles(old(self)@, present@),
    {
        let tree = DirTree::from_probes(&self.probes, present);
        match guess_package_manager(&tree, self.request.change_dir.as_str()) {
            Some(pm) => self.forward(Some(pm)),
            None => {
                self.phase = Phase::PackageManagerChoice;
                Action::Select {
                    message: ASK_PACKAGE_MANAGER.to_owned(),
                    items: package_manager_choices(),
                }
            },
        }
    }

    /// Takes the answers to the probe for the manifest and the dependency directories.
    fn discovery_probed(&mut self, present: &Vec<bool>) -> (action: Action)
        ensures
            (final(self)@, action@) == after_discovery(old(self)@, present@),
    {
        let tree = DirTree::from_probes(&self.probes, present);
        let location = locate(&tree, self.request.change_dir.as_str());
        self.located(location)
    }

    /// Takes the location of the project, or nothing if there is no project.
    /// The resolver has to be waiting for the answers to its first probe.
    pub fn located(&mut self, location: Option<ProjectLocation>) -> (action: Action)
        ensures
            (final(self)@, action@) == after_location(old(self)@, optional_location(location)),
            consistent(old(self)@) ==> consistent(final(self)@),
    {
        match self.phase {
            Phase::Discovery => {},
            _ => {
                return self.finish(Outcome::Failed(Failure::UnexpectedEvent));
            },
        }
        match location {
            Some(location) => {
                self.phase = Phase::Manifest;
                self.execute_dir = location.execute_dir;
                self.bin_dirs = location.bin_dirs;
                Action::Read(location.manifest_path)
            },
            None => self.finish(Outcome::Failed(Failure::ManifestMissing)),
        }
    }

    /// Takes the loaded manifest and decides what the request asks for. The
    /// resolver has to be waiting for the manifest.
    pub fn manifest_loaded(&mut self, table: Result<ScriptTable, ManifestError>) -> (action: Action)
        ensures
            (final(self)@, action@) == after_load(
                old(self)@,
                match table {
                    Ok(t) => Ok(t@),
                    Err(e) => Err(e),
                },
            ),
            consistent(old(self)@) ==> consistent(final(self)@),
    {
        match self.phase {
            Phase::Manifest => {},
            _ => {
                return self.finish(Outcome::Failed(Failure::UnexpectedEvent));
            },
        }
        match table {
            Ok(scripts) => {
                self.scripts = scripts;
                self.dispatch()
            },
            Err(ManifestError::Missing) => self.finish(Outcome::Failed(Failure::ManifestMissing)),
            Err(ManifestError::Invalid) => self.finish(Outcome::Failed(Failure::ManifestInvalid)),
        }
    }

    /// Decides what the request asks for, once the scripts are known.
    fn dispatch(&mut self) -> (action: Action)
        ensures
            (final(self)@, action@) == dispatch(old(self)@),
    {
        let named = !self.request.script_name.as_str().is_empty();
        let listing = text_eq(self.request.command.as_str(), "run");
        if !self.request.interactive && listing && !named {
            let table = self.scripts.copy();
            self.finish(Outcome::Listing(table))
        } else if named && self.request.interactive {
            self.finish(Outcome::Failed(Failure::ScriptNameInInteractiveMode))
        } else if !named && !self.request.interactive {
            self.finish(Outcome::Usage)
        } else if !named {
            if self.scripts.is_empty() {
                self.finish(Outcome::Failed(Failure::NoScripts))
            } else {
                self.phase = Phase::ScriptChoice;
                Action::Select { message: ASK_SCRIPT.to_owned(), items: self.scripts.names() }
            }
        } else {
            self.resolve()
        }
    }

    /// Resolves the requested name against the declared scripts.
    fn resolve(&mut self) -> (action: Action)
        ensures
            (final(self)@, action@) == resolve_name(old(self)@),
    {
        match self.scripts.lookup(self.request.script_name.as_str()) {
            Some(command) => self.execute(command),
            None => {
                let probes = join_each(&self.bin_dirs, self.request.script_name.as_str());
                let asked = copy_all(&probes);
                self.phase = Phase::Executables;
                self.probes = probes;
                Action::Probe(asked)
            },
        }
    }

    /// Takes the user's choice of a script.
    fn script_chosen(&mut self, answer: Option<String>) -> (action: Action)
        ensures
            (final(self)@, action@) == after_script_choice(old(self)@, optional_text(answer)),
    {
        match answer {
            Some(name) => {
                self.phase = Phase::Arguments;
                self.request.script_name = name;
                Action::Input { message: ASK_ARGUMENTS.to_owned(), retry: false }
            },
            None => self.finish(Outcome::NothingSelected),
        }
    }

    /// Takes the words of the line the user entered, or nothing if the line
    /// could not be split into words. The resolver has to be waiting for the
    /// arguments of a picked script.
    pub fn words_entered(&mut self, words: Option<Vec<String>>) -> (action: Action)
        ensures
            (final(self)@, action@) == after_words(
                old(self)@,
                match words {
                    Some(w) => Some(texts(w@)),
                    None => None,
                },
            ),
            consistent(old(self)@) ==> consistent(final(self)@),
    {
        match self.phase {
            Phase::Arguments => {},
            _ => {
                return self.finish(Outcome::Failed(Failure::UnexpectedEvent));
            },
        }
        match words {
            Some(words) => {
                append_all(&mut self.request.forwarded, &words);
                self.resolve()
            },
            None => Action::Input { message: ASK_ARGUMENTS.to_owned(), retry: true },
        }
    }

    /// Takes the answers to the probe for the executable.
    fn executables_probed(&mut self, present: &Vec<bool>) -> (action: Action)
        ensures
            (final(self)@, action@) == after_executables(old(self)@, present@),
    {
        let tree = DirTree::from_probes(&self.probes, present);
        match resolve_bin_path(&tree, self.request.script_name.as_str(), &self.bin_dirs) {
            Some(path) => self.execute(path),
            None => self.finish(Outcome::Failed(Failure::ScriptNotFound)),
        }
    }
}

/// Whether a state can occur in a run: the phases that look for a package
/// manager belong to the commands that are handed to one, and the paths of a
/// probe under way are those the phase asked for.
pub open spec fn consistent(s: State) -> bool {
    let forwards = forwarded_command(s.request.command);
    &&& (s.phase == Phase::Lockfiles || s.phase == Phase::PackageManagerChoice) ==> forwards
    &&& forwards ==> s.phase == Phase::Lockfiles || s.phase == Phase::PackageManagerChoice
        || s.phase == Phase::Done
    &&& s.phase == Phase::Lockfiles ==> s.probes == lockfile_candidates(s.request.change_dir)
    &&& s.phase == Phase::Discovery ==> s.probes == discovery_probes(s.request.change_dir)
    &&& s.phase == Phase::Executables ==> s.probes == joined_each(
        s.bin_dirs,
        s.request.script_name,
    )
}

/// A run starts in a consistent state.
pub proof fn lemma_begin_consistent(request: Request, platform: Platform, inherited_path: Seq<char>)
    ensures
        consistent(begin(request, platform, inherited_path).0),
{
}

/// Every step leads from a consistent state to a consistent state, and keeps
/// the command, the working directory and the platform of the request.
pub proof fn lemma_step_consistent(s: State, event: EventView)
    requires
        consistent(s),
    ensures
        consistent(step_spec(s, event).0),
        step_spec(s, event).0.request.command == s.request.command,
        step_spec(s, event).0.request.change_dir == s.request.change_dir,
        step_spec(s, event).0.request.interactive == s.request.interactive,
        step_spec(s, event).0.request.silent == s.request.silent,
        step_spec(s, event).0.platform == s.platform,
        step_spec(s, event).0.inherited_path == s.inherited_path,
{
}

/// Once the run has ended, every further event is refused.
pub proof fn lemma_done_stays_done(s: State, event: EventView)
    requires
        s.phase == Phase::Done,
    ensures
        step_spec(s, event) == refused(s),
{
}

/// A command for the package manager never touches the manifest: its run
/// starts by probing the lockfiles of the working directory, and each step
/// after that asks the user for a package manager or ends the run. It ends
/// with the package manager's command, run in the working directory with the
/// environment as it is, or with a failure.
pub proof fn lemma_forwarded_skips_manifest(s: State, event: EventView)
    requires
        consistent(s),
        forwarded_command(s.request.command),
    ensures
        begin(s.request, s.platform, s.inherited_path).1 == ActionView::Probe(
            lockfile_candidates(s.request.change_dir),
        ),
        match step_spec(s, event).1 {
            ActionView::Select { message, items } => message == ASK_PACKAGE_MANAGER@ && items
                == choice_labels(),
            ActionView::Finish(OutcomeView::Execute { trace, plan }) => trace is None && exists|
                pm: PackageManager,
            | plan == forward_plan(s.request, pm),
            ActionView::Finish(OutcomeView::Failed(failure)) => failure
                == Failure::PackageManagerUndetected || failure == Failure::UnexpectedEvent,
            _ => false,
        },
{
    match (s.phase, event) {
        (Phase::Lockfiles, EventView::Probed(present)) => {
            let found = detect(observed(s.probes, present), s.request.change_dir);
            if found is Some {
                assert(step_spec(s, event).1 == ActionView::Finish(
                    OutcomeView::Execute { trace: None, plan: forward_plan(s.request, found->0) },
                ));
            }
        },
        (Phase::PackageManagerChoice, EventView::Selected(answer)) => {
            let found = chosen(answer);
            if found is Some {
                assert(step_spec(s, event).1 == ActionView::Finish(
                    OutcomeView::Execute { trace: None, plan: forward_plan(s.request, found->0) },
                ));
            }
        },
        _ => {},
    }
}

/// Leaving the prompt for a package manager ends the run with a failure, and
/// so with the exit code 1.
pub proof fn lemma_cancelled_choice_fails(s: State, child: Option<i32>)
    requires
        s.phase == Phase::PackageManagerChoice,
    ensures
        step_spec(s, EventView::Selected(None)) == finished(
            s,
            OutcomeView::Failed(Failure::PackageManagerUndetected),
        ),
        exit_status_of(OutcomeView::Failed(Failure::PackageManagerUndetected), child) == 1,
{
}

/// With truthful answers about the lockfiles, the package manager is the one
/// that the world's lockfiles name.
pub proof fn lemma_lockfiles_faithful(s: State, present: Seq<bool>, world: Set<Seq<char>>)
    requires
        consistent(s),
        s.phase == Phase::Lockfiles,
        truthful(s.probes, present, world),
    ensures
        detect(observed(s.probes, present), s.request.change_dir) == detect(
            world,
            s.request.change_dir,
        ),
        step_spec(s, EventView::Probed(present)) == match detect(world, s.request.change_dir) {
            Some(pm) => forwarding(s, Some(pm)),
            None => (
                State { phase: Phase::PackageManagerChoice, ..s },
                ActionView::Select { message: ASK_PACKAGE_MANAGER@, items: choice_labels() },
            ),
        },
{
    let dir = s.request.change_dir;
    assert forall|i: int| 0 <= i < 5 implies has_lockfile(observed(s.probes, present), dir, i)
        == has_lockfile(world, dir, i) by {
        assert(s.probes[i] == path_join(dir, lockfile_names()[i]));
        lemma_observed_truthful(s.probes, present, world, s.probes[i]);
    }
    assert(has_lockfile(observed(s.probes, present), dir, 0) == has_lockfile(world, dir, 0));
    assert(has_lockfile(observed(s.probes, present), dir, 1) == has_lockfile(world, dir, 1));
    assert(has_lockfile(observed(s.probes, present), dir, 2) == has_lockfile(world, dir, 2));
    assert(has_lockfile(observed(s.probes, present), dir, 3) == has_lockfile(world, dir, 3));
    assert(has_lockfile(observed(s.probes, present), dir, 4) == has_lockfile(world, dir, 4));
}

/// With truthful answers to the first probe, the project is located as it
/// lies in the world: the manifest that is read is the nearest one, and the
/// directories of executables are those of all the world's dependency
/// directories from the working directory upward, nearest first.
pub proof fn lemma_discovery_faithful(s: State, present: Seq<bool>, world: Set<Seq<char>>)
    requires
        consistent(s),
        s.phase == Phase::Discovery,
        truthful(s.probes, present, world),
    ensures
        location_of(observed(s.probes, present), s.request.change_dir) == location_of(
            world,
            s.request.change_dir,
        ),
        step_spec(s, EventView::Probed(present)) == after_location(
            s,
            location_of(world, s.request.change_dir),
        ),
{
    let dir = s.request.change_dir;
    let manifests = candidates(dir, MANIFEST_NAME@);
    let modules = candidates(dir, MODULES_NAME@);
    assert forall|i: int| 0 <= i < manifests.len() implies s.probes.contains(
        #[trigger] manifests[i],
    ) by {
        assert(s.probes[i] == manifests[i]);
    }
    assert forall|i: int| 0 <= i < modules.len() implies s.probes.contains(#[trigger] modules[i]) by {
        assert(s.probes[manifests.len() + i] == modules[i]);
    }
    lemma_snapshot_faithful(s.probes, present, world, manifests, true);
    lemma_snapshot_faithful(s.probes, present, world, modules, false);
}

/// With truthful answers about the executable directories, the executable is
/// the one that the world's first directory holding it gives.
pub proof fn lemma_executables_faithful(s: State, present: Seq<bool>, world: Set<Seq<char>>)
    requires
        consistent(s),
        s.phase == Phase::Executables,
        truthful(s.probes, present, world),
    ensures
        resolve_bin(observed(s.probes, present), s.request.script_name, s.bin_dirs) == resolve_bin(
            world,
            s.request.script_name,
            s.bin_dirs,
        ),
        step_spec(s, EventView::Probed(present)) == match resolve_bin(
            world,
            s.request.script_name,
            s.bin_dirs,
        ) {
            Some(path) => executing(s, path),
            None => finished(s, OutcomeView::Failed(Failure::ScriptNotFound)),
        },
{
    assert forall|i: int| 0 <= i < s.probes.len() implies s.probes.contains(#[trigger] s.probes[i]) by {}
    lemma_snapshot_faithful(s.probes, present, world, s.probes, true);
}

/// A declared script comes first: a name that the manifest declares runs the
/// declared command, whatever executables exist, and nothing is probed for it.
/// The command gets the forwarded arguments as they are and runs in the
/// manifest's directory.
pub proof fn lemma_declared_script_wins(s: State, command: Seq<char>)
    requires
        command_of(s.scripts, s.request.script_name) == Some(command),
    ensures
        resolve_name(s) == executing(s, command),
        script_plan(s, command).script == command,
        script_plan(s, command).args == s.request.forwarded,
        script_plan(s, command).current_dir == s.execute_dir,
{
}

/// A name that the manifest does not declare falls back to the executables:
/// the executable directories are probed, and the executable found runs with
/// the forwarded arguments as they are. Without one the run fails, and so
/// ends with the exit code 1.
pub proof fn lemma_executable_fallback(s: State, present: Seq<bool>, child: Option<i32>)
    requires
        command_of(s.scripts, s.request.script_name) is None,
    ensures
        resolve_name(s).1 == ActionView::Probe(joined_each(s.bin_dirs, s.request.script_name)),
        resolve_name(s).0.phase == Phase::Executables,
        ({
            let probing = resolve_name(s).0;
            match resolve_bin(observed(probing.probes, present), s.request.script_name, s.bin_dirs) {
                Some(path) => step_spec(probing, EventView::Probed(present)) == executing(
                    probing,
                    path,
                ) && script_plan(probing, path).args == s.request.forwarded,
                None => step_spec(probing, EventView::Probed(present)) == finished(
                    probing,
                    OutcomeView::Failed(Failure::ScriptNotFound),
                ) && exit_status_of(OutcomeView::Failed(Failure::ScriptNotFound), child) == 1,
            }
        }),
{
}

/// `run` without a name lists the declared scripts, in the order of their
/// declaration, and runs nothing; the exit code is 0.
pub proof fn lemma_run_lists_scripts(s: State, child: Option<i32>)
    requires
        !s.request.interactive,
        s.request.command == "run"@,
        s.request.script_name.len() == 0,
    ensures
        dispatch(s) == finished(s, OutcomeView::Listing(s.scripts)),
        exit_status_of(OutcomeView::Listing(s.scripts), child) == 0,
{
}

/// Only the execution of a command makes the exit code depend on a command;
/// a failure gives 1 and every other end of a run gives 0.
pub proof fn lemma_exit_status(outcome: OutcomeView, child: Option<i32>)
    ensures
        outcome is Failed ==> exit_status_of(outcome, child) == 1,
        !(outcome is Failed) && !(outcome is Execute) ==> exit_status_of(outcome, child) == 0,
        outcome is Execute && child is Some ==> exit_status_of(outcome, child) == child->0,
        outcome is Execute && child is None ==> exit_status_of(outcome, child) == 1,
{
}

} // verus!

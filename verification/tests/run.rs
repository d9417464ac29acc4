use dum::args::AppArgs;
use dum::command::ExecutionPlan;
use dum::environment::Platform;
use dum::manifest::{ManifestError, Script, ScriptTable};
use dum::outcome::{print_script_info, Failure, Outcome, Trace};
use dum::project::ProjectLocation;
use dum::run::{run, Action, Event};

const MANIFEST: &str = "{\"scripts\": {\"test\": \"jest\", \"build\": \"tsc\"}}";

/// What a scripted driver knows: the paths that exist, the manifest's text,
/// and the answers the user gives, in order.
struct World {
    existing: Vec<&'static str>,
    manifest: Option<&'static str>,
    picks: Vec<Option<&'static str>>,
    lines: Vec<Option<&'static str>>,
}

fn world(existing: &[&'static str], manifest: Option<&'static str>) -> World {
    World { existing: existing.to_vec(), manifest, picks: vec![], lines: vec![] }
}

fn strings(items: &[&str]) -> Vec<String> {
    items.iter().map(|s| s.to_string()).collect()
}

fn request(command: &str, script_name: &str, forwarded: &[&str]) -> AppArgs {
    AppArgs {
        script_name: script_name.to_string(),
        forwarded: strings(forwarded),
        change_dir: "/work/app".to_string(),
        command: command.to_string(),
        interactive: false,
        silent: false,
    }
}

/// Runs the resolver to its end and returns the outcome with a log of what
/// the driver was asked to do.
fn drive(args: AppArgs, world: &World) -> (Outcome, Vec<String>) {
    let (mut resolver, mut action) =
        run(args, Platform::Posix, "/usr/bin:/bin".to_string());
    let mut log = Vec::new();
    let mut picks = world.picks.iter();
    let mut lines = world.lines.iter();
    loop {
        assert!(log.len() < 50);
        action = match action {
            Action::Probe(paths) => {
                log.push(format!("probe {}", paths.join(" ")));
                let present = paths.iter().map(|p| world.existing.contains(&p.as_str())).collect();
                resolver.step(Event::Probed(present))
            }
            Action::Read(path) => {
                log.push(format!("read {}", path));
                resolver.step(Event::Contents(world.manifest.map(|t| t.to_string())))
            }
            Action::Select { message, items } => {
                log.push(format!("select {} [{}]", message, items.join(",")));
                let pick = picks.next().expect("a pick that the test did not provide");
                resolver.step(Event::Selected(pick.map(|t| t.to_string())))
            }
            Action::Input { message, retry } => {
                log.push(format!("input {} retry={}", message, retry));
                let line = lines.next().expect("a line that the test did not provide");
                resolver.step(Event::Entered(line.map(|t| t.to_string())))
            }
            Action::Finish(outcome) => {
                assert!(resolver.is_done());
                return (outcome, log);
            }
        };
    }
}

fn path_overlay(path: &str) -> Vec<(String, String)> {
    vec![("PATH".to_string(), path.to_string())]
}

const PROJECT: [&str; 2] = ["/work/app/package.json", "/work/app/node_modules"];

#[test]
fn declared_script_comes_before_an_executable_of_the_same_name() {
    let w = world(
        &["/work/app/package.json", "/work/app/node_modules", "/work/app/node_modules/.bin/build"],
        Some("{\"scripts\": {\"build\": \"tsc\"}}"),
    );
    let (outcome, log) = drive(request("run", "build", &[]), &w);
    assert_eq!(
        outcome,
        Outcome::Execute {
            trace: Some(Trace {
                script_name: "build".to_string(),
                script: "tsc".to_string(),
                arguments: String::new(),
            }),
            plan: ExecutionPlan {
                script: "tsc".to_string(),
                args: vec![],
                current_dir: "/work/app".to_string(),
                envs: path_overlay("/work/app/node_modules/.bin:/usr/bin:/bin"),
            },
        }
    );
    assert_eq!(log.len(), 2);
    assert!(log[0].starts_with("probe "));
    assert_eq!(log[1], "read /work/app/package.json");
}

#[test]
fn undeclared_name_falls_back_to_the_executable() {
    let w = world(
        &["/work/app/package.json", "/work/app/node_modules", "/work/app/node_modules/.bin/lint"],
        Some(MANIFEST),
    );
    let (outcome, log) = drive(request("run", "lint", &["--fix", "src dir", "it's"]), &w);
    assert_eq!(
        outcome,
        Outcome::Execute {
            trace: Some(Trace {
                script_name: "lint".to_string(),
                script: "/work/app/node_modules/.bin/lint".to_string(),
                arguments: "--fix 'src dir' \"it's\"".to_string(),
            }),
            plan: ExecutionPlan {
                script: "/work/app/node_modules/.bin/lint".to_string(),
                args: strings(&["--fix", "src dir", "it's"]),
                current_dir: "/work/app".to_string(),
                envs: path_overlay("/work/app/node_modules/.bin:/usr/bin:/bin"),
            },
        }
    );
    assert_eq!(log[2], "probe /work/app/node_modules/.bin/lint");
}

#[test]
fn run_without_a_name_lists_the_scripts() {
    let w = world(&PROJECT, Some(MANIFEST));
    let (outcome, log) = drive(request("run", "", &[]), &w);
    assert_eq!(
        outcome,
        Outcome::Listing(ScriptTable {
            scripts: vec![
                Script { name: "test".to_string(), command: "jest".to_string() },
                Script { name: "build".to_string(), command: "tsc".to_string() },
            ],
        })
    );
    assert_eq!(outcome.exit_status(None), 0);
    assert_eq!(outcome.notice(), None);
    assert_eq!(log.len(), 2);
}

#[test]
fn run_without_a_name_lists_nothing_for_a_manifest_without_scripts() {
    let w = world(&PROJECT, Some("{\"name\": \"app\"}"));
    let (outcome, _) = drive(request("run", "", &[]), &w);
    assert_eq!(outcome, Outcome::Listing(ScriptTable { scripts: vec![] }));
    assert_eq!(outcome.exit_status(None), 0);
}

#[test]
fn install_without_lockfile_and_without_choice_is_aborted() {
    let mut w = world(&PROJECT, Some(MANIFEST));
    w.picks = vec![None];
    let (outcome, log) = drive(request("install", "", &[]), &w);
    assert_eq!(outcome, Outcome::Failed(Failure::PackageManagerUndetected));
    assert_eq!(Failure::PackageManagerUndetected.to_string(), "Aborted.");
    assert_eq!(outcome.exit_status(None), 1);
    assert_eq!(
        log,
        vec![
            "probe /work/app/yarn.lock /work/app/package-lock.json /work/app/pnpm-lock.yaml /work/app/bun.lockb /work/app/bun.lock",
            "select Which package manager do you want to use? [pnpm,npm,yarn,bun]",
        ]
    );
    assert!(log.iter().all(|entry| !entry.starts_with("read")));
}

#[test]
fn unknown_name_is_not_found() {
    let w = world(
        &["/work/app/package.json", "/work/app/node_modules", "/work/app/node_modules/.bin/lint"],
        Some(MANIFEST),
    );
    let (outcome, _) = drive(request("run", "deploy", &[]), &w);
    assert_eq!(outcome, Outcome::Failed(Failure::ScriptNotFound));
    assert_eq!(Failure::ScriptNotFound.to_string(), "No script found.");
    assert_eq!(
        Failure::ScriptNotFound.hint(),
        Some("To see a list of scripts, run `dum run`".to_string())
    );
    assert_eq!(outcome.exit_status(None), 1);
    assert_eq!(outcome.exit_status(Some(0)), 1);
}

#[test]
fn lockfile_decides_the_package_manager() {
    let w = world(&["/work/app/pnpm-lock.yaml", "/work/app/bun.lock"], None);
    let (outcome, log) = drive(request("add", "", &["left-pad", "-D"]), &w);
    assert_eq!(
        outcome,
        Outcome::Execute {
            trace: None,
            plan: ExecutionPlan {
                script: "pnpm".to_string(),
                args: strings(&["add", "left-pad", "-D"]),
                current_dir: "/work/app".to_string(),
                envs: vec![],
            },
        }
    );
    assert_eq!(log.len(), 1);
}

#[test]
fn yarn_lock_wins_over_package_lock_in_a_run() {
    let w = world(&["/work/app/package-lock.json", "/work/app/yarn.lock"], None);
    let (outcome, _) = drive(request("install", "", &[]), &w);
    match outcome {
        Outcome::Execute { trace: None, plan } => {
            assert_eq!(plan.script, "yarn");
            assert_eq!(plan.args, vec!["install"]);
        }
        other => panic!("{:?}", other),
    }
}

#[test]
fn lockfile_above_the_working_directory_is_not_looked_at() {
    let mut w = world(&["/work/yarn.lock"], None);
    w.picks = vec![Some("bun")];
    let (outcome, log) = drive(request("remove", "", &["x"]), &w);
    match outcome {
        Outcome::Execute { trace: None, plan } => {
            assert_eq!(plan.script, "bun");
            assert_eq!(plan.args, vec!["remove", "x"]);
            assert_eq!(plan.current_dir, "/work/app");
        }
        other => panic!("{:?}", other),
    }
    assert_eq!(log.len(), 2);
}

#[test]
fn unknown_answer_to_the_prompt_is_no_package_manager() {
    let mut w = world(&[], None);
    w.picks = vec![Some("cargo")];
    let (outcome, _) = drive(request("uninstall", "", &[]), &w);
    assert_eq!(outcome, Outcome::Failed(Failure::PackageManagerUndetected));
}

#[test]
fn no_manifest_is_a_failure() {
    let w = world(&["/work/app/node_modules"], Some(MANIFEST));
    let (outcome, log) = drive(request("run", "build", &[]), &w);
    assert_eq!(outcome, Outcome::Failed(Failure::ManifestMissing));
    assert_eq!(Failure::ManifestMissing.to_string(), "No package.json found");
    assert_eq!(outcome.exit_status(None), 1);
    assert_eq!(log.len(), 1);
}

#[test]
fn unreadable_manifest_is_a_failure() {
    let w = world(&PROJECT, None);
    let (outcome, _) = drive(request("run", "build", &[]), &w);
    assert_eq!(outcome, Outcome::Failed(Failure::ManifestMissing));
}

#[test]
fn invalid_manifest_is_a_failure() {
    let w = world(&PROJECT, Some("{\"scripts\": {"));
    let (outcome, _) = drive(request("run", "build", &[]), &w);
    assert_eq!(outcome, Outcome::Failed(Failure::ManifestInvalid));
    assert_eq!(Failure::ManifestInvalid.to_string(), "failed to parse package.json");
    assert_eq!(outcome.exit_status(None), 1);
}

#[test]
fn manifest_above_is_used_with_every_dependency_directory() {
    let w = World {
        existing: vec![
            "/work/package.json",
            "/package.json",
            "/work/app/node_modules",
            "/node_modules",
            "/work/node_modules",
        ],
        manifest: Some(MANIFEST),
        picks: vec![],
        lines: vec![],
    };
    let (outcome, log) = drive(request("run", "test", &["-u"]), &w);
    assert_eq!(
        log,
        vec![
            "probe /work/app/package.json /work/package.json /package.json /work/app/node_modules /work/node_modules /node_modules",
            "read /work/package.json",
        ]
    );
    match outcome {
        Outcome::Execute { plan, .. } => {
            assert_eq!(plan.script, "jest");
            assert_eq!(plan.args, vec!["-u"]);
            assert_eq!(plan.current_dir, "/work");
            assert_eq!(
                plan.envs,
                path_overlay(
                    "/work/app/node_modules/.bin:/work/node_modules/.bin:/node_modules/.bin:/usr/bin:/bin"
                )
            );
        }
        other => panic!("{:?}", other),
    }
}

#[test]
fn executable_is_taken_from_the_nearest_directory() {
    let w = world(
        &[
            "/work/app/package.json",
            "/work/app/node_modules",
            "/work/node_modules",
            "/work/node_modules/.bin/tsc",
            "/work/app/node_modules/.bin/tsc",
        ],
        Some("{}"),
    );
    let (outcome, log) = drive(request("run", "tsc", &[]), &w);
    assert_eq!(log[2], "probe /work/app/node_modules/.bin/tsc /work/node_modules/.bin/tsc");
    match outcome {
        Outcome::Execute { plan, .. } => assert_eq!(plan.script, "/work/app/node_modules/.bin/tsc"),
        other => panic!("{:?}", other),
    }
}

#[test]
fn silent_request_has_no_trace() {
    let w = world(&PROJECT, Some(MANIFEST));
    let mut args = request("run", "build", &["x"]);
    args.silent = true;
    match drive(args, &w).0 {
        Outcome::Execute { trace, plan } => {
            assert_eq!(trace, None);
            assert_eq!(plan.script, "tsc");
        }
        other => panic!("{:?}", other),
    }
}

#[test]
fn no_name_and_no_run_shows_the_usage() {
    let w = world(&PROJECT, Some(MANIFEST));
    let (outcome, _) = drive(request("", "", &[]), &w);
    assert_eq!(outcome, Outcome::Usage);
    assert_eq!(outcome.notice(), Some("No script name specified.\n".to_string()));
    assert_eq!(outcome.exit_status(None), 0);
}

#[test]
fn name_in_interactive_mode_is_a_failure() {
    let w = world(&PROJECT, Some(MANIFEST));
    let mut args = request("run", "build", &[]);
    args.interactive = true;
    let (outcome, _) = drive(args, &w);
    assert_eq!(outcome, Outcome::Failed(Failure::ScriptNameInInteractiveMode));
    assert_eq!(
        Failure::ScriptNameInInteractiveMode.to_string(),
        "You can't specify script name in interactive mode"
    );
    assert_eq!(outcome.exit_status(None), 1);
}

#[test]
fn interactive_pick_runs_the_picked_script_with_the_entered_arguments() {
    let mut w = world(&PROJECT, Some(MANIFEST));
    w.picks = vec![Some("build")];
    w.lines = vec![Some("  --watch 'a b'  c\\ d ")];
    let mut args = request("run", "", &["first"]);
    args.interactive = true;
    let (outcome, log) = drive(args, &w);
    assert_eq!(log[2], "select Select an npm script to run [test,build]");
    assert_eq!(log[3], "input Enter arguments to pass to the script retry=false");
    assert_eq!(
        outcome,
        Outcome::Execute {
            trace: Some(Trace {
                script_name: "build".to_string(),
                script: "tsc".to_string(),
                arguments: "first --watch 'a b' 'c d'".to_string(),
            }),
            plan: ExecutionPlan {
                script: "tsc".to_string(),
                args: strings(&["first", "--watch", "a b", "c d"]),
                current_dir: "/work/app".to_string(),
                envs: path_overlay("/work/app/node_modules/.bin:/usr/bin:/bin"),
            },
        }
    );
}

#[test]
fn interactive_pick_without_a_command_works_too() {
    let mut w = world(&PROJECT, Some(MANIFEST));
    w.picks = vec![Some("test")];
    w.lines = vec![Some("")];
    let mut args = request("", "", &[]);
    args.interactive = true;
    match drive(args, &w).0 {
        Outcome::Execute { plan, .. } => {
            assert_eq!(plan.script, "jest");
            assert_eq!(plan.args, Vec::<String>::new());
        }
        other => panic!("{:?}", other),
    }
}

#[test]
fn line_that_cannot_be_split_is_asked_for_again() {
    let mut w = world(&PROJECT, Some(MANIFEST));
    w.picks = vec![Some("test")];
    w.lines = vec![Some("'oops"), Some("tail\\"), Some("\"fine now\"")];
    let mut args = request("run", "", &[]);
    args.interactive = true;
    let (outcome, log) = drive(args, &w);
    assert_eq!(
        &log[3..],
        &[
            "input Enter arguments to pass to the script retry=false",
            "input Enter arguments to pass to the script retry=true",
            "input Enter arguments to pass to the script retry=true",
        ]
    );
    match outcome {
        Outcome::Execute { plan, .. } => {
            assert_eq!(plan.script, "jest");
            assert_eq!(plan.args, vec!["fine now"]);
        }
        other => panic!("{:?}", other),
    }
}

#[test]
fn leaving_the_list_of_scripts_ends_the_run_quietly() {
    let mut w = world(&PROJECT, Some(MANIFEST));
    w.picks = vec![None];
    let mut args = request("run", "", &[]);
    args.interactive = true;
    let (outcome, _) = drive(args, &w);
    assert_eq!(outcome, Outcome::NothingSelected);
    assert_eq!(outcome.notice(), Some("No script selected.".to_string()));
    assert_eq!(outcome.exit_status(None), 0);
}

#[test]
fn leaving_the_prompt_for_arguments_ends_the_run_quietly() {
    let mut w = world(&PROJECT, Some(MANIFEST));
    w.picks = vec![Some("build")];
    w.lines = vec![None];
    let mut args = request("run", "", &[]);
    args.interactive = true;
    let (outcome, _) = drive(args, &w);
    assert_eq!(outcome, Outcome::Cancelled);
    assert_eq!(outcome.notice(), Some("Aborted.".to_string()));
    assert_eq!(outcome.exit_status(None), 0);
}

#[test]
fn interactive_mode_without_scripts_is_a_failure() {
    let w = world(&PROJECT, Some("{\"scripts\": {}}"));
    let mut args = request("run", "", &[]);
    args.interactive = true;
    let (outcome, log) = drive(args, &w);
    assert_eq!(outcome, Outcome::Failed(Failure::NoScripts));
    assert_eq!(Failure::NoScripts.to_string(), "No scripts found in package.json");
    assert_eq!(outcome.exit_status(None), 1);
    assert_eq!(log.len(), 2);
}

#[test]
fn event_out_of_turn_ends_the_run() {
    let (mut resolver, action) =
        run(request("run", "build", &[]), Platform::Posix, String::new());
    assert!(matches!(action, Action::Probe(_)));
    assert!(!resolver.is_done());
    let action = resolver.step(Event::Selected(Some("build".to_string())));
    assert_eq!(action, Action::Finish(Outcome::Failed(Failure::UnexpectedEvent)));
    assert!(resolver.is_done());
    let action = resolver.step(Event::Probed(vec![true]));
    assert_eq!(action, Action::Finish(Outcome::Failed(Failure::UnexpectedEvent)));
}

#[test]
fn answers_that_are_too_few_count_as_absent() {
    let (mut resolver, _) =
        run(request("run", "build", &[]), Platform::Posix, String::new());
    let action = resolver.step(Event::Probed(vec![]));
    assert_eq!(action, Action::Finish(Outcome::Failed(Failure::ManifestMissing)));
}

#[test]
fn exit_status_of_an_executed_command_is_its_own() {
    let w = world(&PROJECT, Some(MANIFEST));
    let (outcome, _) = drive(request("run", "build", &[]), &w);
    assert_eq!(outcome.exit_status(Some(0)), 0);
    assert_eq!(outcome.exit_status(Some(7)), 7);
    assert_eq!(outcome.exit_status(None), 1);
    assert_eq!(outcome.notice(), None);
}

#[test]
fn located_without_a_manifest_fails() {
    let (mut resolver, _) =
        run(request("run", "build", &[]), Platform::Posix, String::new());
    let action = resolver.located(None);
    assert_eq!(action, Action::Finish(Outcome::Failed(Failure::ManifestMissing)));
}

#[test]
fn located_manifest_is_read_next() {
    let (mut resolver, _) =
        run(request("run", "build", &[]), Platform::Posix, "/bin".to_string());
    let action = resolver.located(Some(ProjectLocation {
        manifest_path: "/p/package.json".to_string(),
        execute_dir: "/p".to_string(),
        bin_dirs: strings(&["/p/node_modules/.bin"]),
    }));
    assert_eq!(action, Action::Read("/p/package.json".to_string()));
    let table = ScriptTable {
        scripts: vec![Script { name: "build".to_string(), command: "make".to_string() }],
    };
    match resolver.manifest_loaded(Ok(table)) {
        Action::Finish(Outcome::Execute { plan, .. }) => {
            assert_eq!(plan.script, "make");
            assert_eq!(plan.current_dir, "/p");
            assert_eq!(plan.envs, path_overlay("/p/node_modules/.bin:/bin"));
        }
        other => panic!("{:?}", other),
    }
}

fn waiting_for_manifest() -> dum::run::Resolver {
    let (mut resolver, _) = run(request("run", "build", &[]), Platform::Posix, String::new());
    let action = resolver.located(Some(ProjectLocation {
        manifest_path: "/p/package.json".to_string(),
        execute_dir: "/p".to_string(),
        bin_dirs: vec![],
    }));
    assert_eq!(action, Action::Read("/p/package.json".to_string()));
    resolver
}

#[test]
fn manifest_errors_become_failures() {
    assert_eq!(
        waiting_for_manifest().manifest_loaded(Err(ManifestError::Invalid)),
        Action::Finish(Outcome::Failed(Failure::ManifestInvalid))
    );
    assert_eq!(
        waiting_for_manifest().manifest_loaded(Err(ManifestError::Missing)),
        Action::Finish(Outcome::Failed(Failure::ManifestMissing))
    );
}

#[test]
fn results_out_of_turn_end_the_run() {
    let fresh = || run(request("run", "build", &[]), Platform::Posix, String::new()).0;
    let refused = Action::Finish(Outcome::Failed(Failure::UnexpectedEvent));
    assert_eq!(fresh().manifest_loaded(Ok(ScriptTable { scripts: vec![] })), refused);
    assert_eq!(fresh().words_entered(Some(vec![])), refused);
    assert_eq!(fresh().words_entered(None), refused);
    assert_eq!(waiting_for_manifest().located(None), refused);
    let (mut forwarding, _) = run(request("install", "", &[]), Platform::Posix, String::new());
    assert_eq!(forwarding.located(None), refused);
    assert!(forwarding.is_done());
}

#[test]
fn words_are_taken_while_arguments_are_awaited() {
    let mut resolver = waiting_for_manifest();
    let table = ScriptTable {
        scripts: vec![Script { name: "dev".to_string(), command: "vite".to_string() }],
    };
    let mut args = request("run", "", &[]);
    args.interactive = true;
    let (mut interactive, _) = run(args, Platform::Posix, "/bin".to_string());
    interactive.located(Some(ProjectLocation {
        manifest_path: "/p/package.json".to_string(),
        execute_dir: "/p".to_string(),
        bin_dirs: vec![],
    }));
    assert!(matches!(interactive.manifest_loaded(Ok(table.clone())), Action::Select { .. }));
    assert!(matches!(
        interactive.step(Event::Selected(Some("dev".to_string()))),
        Action::Input { retry: false, .. }
    ));
    assert!(matches!(interactive.words_entered(None), Action::Input { retry: true, .. }));
    match interactive.words_entered(Some(strings(&["--host", "0.0.0.0"]))) {
        Action::Finish(Outcome::Execute { plan, .. }) => {
            assert_eq!(plan.script, "vite");
            assert_eq!(plan.args, vec!["--host", "0.0.0.0"]);
            assert_eq!(plan.envs, path_overlay("/bin"));
        }
        other => panic!("{:?}", other),
    }
    assert!(matches!(resolver.manifest_loaded(Ok(table)), Action::Probe(_)));
}

#[test]
fn trace_quotes_the_arguments_for_a_shell() {
    let trace = print_script_info("build", "tsc -p .", &strings(&["--out", "my dir", ""]));
    assert_eq!(trace.script_name, "build");
    assert_eq!(trace.script, "tsc -p .");
    assert_eq!(trace.arguments, "--out 'my dir' ''");
    let (first, second) = trace.lines();
    assert_eq!(first, "$ build");
    assert_eq!(second, "$ tsc -p . --out 'my dir' ''");
}

#[test]
fn trace_without_arguments_ends_with_a_space() {
    let (first, second) = print_script_info("test", "jest", &Vec::new()).lines();
    assert_eq!(first, "$ test");
    assert_eq!(second, "$ jest ");
}

#[test]
fn failures_have_their_messages() {
    assert_eq!(Failure::UnexpectedEvent.to_string(), "unexpected answer from the driver");
    for failure in [
        Failure::ManifestMissing,
        Failure::ManifestInvalid,
        Failure::PackageManagerUndetected,
        Failure::ScriptNameInInteractiveMode,
        Failure::NoScripts,
        Failure::UnexpectedEvent,
    ] {
        assert_eq!(failure.hint(), None);
        assert_eq!(Outcome::Failed(failure).exit_status(Some(0)), 1);
    }
}

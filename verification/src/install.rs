//! The package managers the runner knows, and how a project's lockfile names one.

use vstd::prelude::*;
use crate::paths::{join_path, path_join, DirTree};
use crate::text::{text_eq, texts};

verus! {

/// A package manager that can install, add and remove a project's dependencies.
#[derive(Clone, Copy, Debug, PartialEq, Eq, Structural)]
pub enum PackageManager {
    Yarn,
    Npm,
    Pnpm,
    Bun,
}

/// The reason a name was not accepted as a package manager.
#[derive(Clone, Copy, Debug, PartialEq, Eq, Structural)]
pub struct ParsePackageManagerError;

impl ParsePackageManagerError {
    /// The text shown for this error.
    pub fn to_string(&self) -> (message: String)
        ensures
            message@ == "Parse package manager error"@,
    {
        "Parse package manager error".to_owned()
    }
}

/// The package manager that `name` spells, if any.
pub open spec fn parse_name(name: Seq<char>) -> Option<PackageManager> {
    if name == "yarn"@ {
        Some(PackageManager::Yarn)
    } else if name == "npm"@ {
        Some(PackageManager::Npm)
    } else if name == "pnpm"@ {
        Some(PackageManager::Pnpm)
    } else if name == "bun"@ {
        Some(PackageManager::Bun)
    } else {
        None
    }
}

impl PackageManager {
    /// The name of the package manager's executable, which is also its label in prompts.
    pub open spec fn name(self) -> Seq<char> {
        match self {
            PackageManager::Yarn => "yarn"@,
            PackageManager::Npm => "npm"@,
            PackageManager::Pnpm => "pnpm"@,
            PackageManager::Bun => "bun"@,
        }
    }

    /// The executable's name as an owned string.
    pub fn to_string(&self) -> (name: String)
        ensures
            name@ == self.name(),
    {
        match self {
            PackageManager::Yarn => "yarn".to_owned(),
            PackageManager::Npm => "npm".to_owned(),
            PackageManager::Pnpm => "pnpm".to_owned(),
            PackageManager::Bun => "bun".to_owned(),
        }
    }

    /// Reads a package manager from its executable's name; any other text is an error.
    pub fn from_str(name: &str) -> (parsed: Result<PackageManager, ParsePackageManagerError>)
        ensures
            parsed.ok() == parse_name(name@),
    {
        if text_eq(name, "yarn") {
            Ok(PackageManager::Yarn)
        } else if text_eq(name, "npm") {
            Ok(PackageManager::Npm)
        } else if text_eq(name, "pnpm") {
            Ok(PackageManager::Pnpm)
        } else if text_eq(name, "bun") {
            Ok(PackageManager::Bun)
        } else {
            Err(ParsePackageManagerError)
        }
    }
}

/// The lockfiles that are looked for in a project's directory, in the order of
/// their priority.
pub open spec fn lockfile_names() -> Seq<Seq<char>> {
    seq!["yarn.lock"@, "package-lock.json"@, "pnpm-lock.yaml"@, "bun.lockb"@, "bun.lock"@]
}

/// The package manager that writes the lockfile at position `i` of [`lockfile_names`].
pub open spec fn lockfile_owner(i: int) -> PackageManager {
    if i == 0 {
        PackageManager::Yarn
    } else if i == 1 {
        PackageManager::Npm
    } else if i == 2 {
        PackageManager::Pnpm
    } else {
        PackageManager::Bun
    }
}

/// The paths of the lockfiles inside `dir`, in the order of their priority.
pub open spec fn lockfile_candidates(dir: Seq<char>) -> Seq<Seq<char>> {
    lockfile_names().map_values(|name: Seq<char>| path_join(dir, name))
}

/// Whether the lockfile at position `i` exists directly inside `dir`.
pub open spec fn has_lockfile(tree: Set<Seq<char>>, dir: Seq<char>, i: int) -> bool {
    tree.contains(path_join(dir, lockfile_names()[i]))
}

/// The package manager named by the lockfiles in `dir`: the owner of the first
/// lockfile of [`lockfile_names`] that exists there. Only `dir` itself is
/// looked at, never a directory above it.
pub open spec fn detect(tree: Set<Seq<char>>, dir: Seq<char>) -> Option<PackageManager> {
    if has_lockfile(tree, dir, 0) {
        Some(lockfile_owner(0))
    } else if has_lockfile(tree, dir, 1) {
        Some(lockfile_owner(1))
    } else if has_lockfile(tree, dir, 2) {
        Some(lockfile_owner(2))
    } else if has_lockfile(tree, dir, 3) {
        Some(lockfile_owner(3))
    } else if has_lockfile(tree, dir, 4) {
        Some(lockfile_owner(4))
    } else {
        None
    }
}

/// The labels offered when the user is asked for a package manager, in the
/// order in which they are shown.
pub open spec fn choice_labels() -> Seq<Seq<char>> {
    seq![
        PackageManager::Pnpm.name(),
        PackageManager::Npm.name(),
        PackageManager::Yarn.name(),
        PackageManager::Bun.name(),
    ]
}

/// The package manager that an answer to the prompt stands for. A cancelled
/// prompt and an unknown label both give none.
pub open spec fn chosen(answer: Option<Seq<char>>) -> Option<PackageManager> {
    match answer {
        Some(label) => parse_name(label),
        None => None,
    }
}

/// The paths of the lockfiles to probe in `dir`, in the order of their priority.
pub fn lockfile_paths(dir: &str) -> (paths: Vec<String>)
    ensures
        texts(paths@) == lockfile_candidates(dir@),
{
    let mut paths: Vec<String> = Vec::new();
    paths.push(join_path(dir, "yarn.lock"));
    paths.push(join_path(dir, "package-lock.json"));
    paths.push(join_path(dir, "pnpm-lock.yaml"));
    paths.push(join_path(dir, "bun.lockb"));
    paths.push(join_path(dir, "bun.lock"));
    assert(texts(paths@) =~= lockfile_candidates(dir@));
    paths
}

/// Guesses the package manager of the project in `dir` from the lockfiles that
/// exist in `tree`. Without any lockfile there is no guess, and the user has to
/// be asked (see [`choose_package_manager`]).
pub fn guess_package_manager(tree: &DirTree, dir: &str) -> (guess: Option<PackageManager>)
    ensures
        guess == detect(tree@, dir@),
{
    if tree.contains(join_path(dir, "yarn.lock").as_str()) {
        return Some(PackageManager::Yarn);
    }
    if tree.contains(join_path(dir, "package-lock.json").as_str()) {
        return Some(PackageManager::Npm);
    }
    if tree.contains(join_path(dir, "pnpm-lock.yaml").as_str()) {
        return Some(PackageManager::Pnpm);
    }
    if tree.contains(join_path(dir, "bun.lockb").as_str()) {
        return Some(PackageManager::Bun);
    }
    if tree.contains(join_path(dir, "bun.lock").as_str()) {
        return Some(PackageManager::Bun);
    }
    None
}

/// The labels to show when asking the user for a package manager.
pub fn package_manager_choices() -> (labels: Vec<String>)
    ensures
        texts(labels@) == choice_labels(),
{
    let mut labels: Vec<String> = Vec::new();
    labels.push(PackageManager::Pnpm.to_string());
    labels.push(PackageManager::Npm.to_string());
    labels.push(PackageManager::Yarn.to_string());
    labels.push(PackageManager::Bun.to_string());
    assert(texts(labels@) =~= choice_labels());
    labels
}

/// Turns the user's answer to the prompt into a package manager.
pub fn choose_package_manager(answer: &Option<String>) -> (choice: Option<PackageManager>)
    ensures
        choice == chosen(
            match *answer {
                Some(label) => Some(label@),
                None => None,
            },
        ),
{
    match answer {
        Some(label) => PackageManager::from_str(label.as_str()).ok(),
        None => None,
    }
}

/// A Yarn lockfile decides the guess, whatever other lockfiles lie beside it.
pub proof fn lemma_yarn_lock_wins(tree: Set<Seq<char>>, dir: Seq<char>)
    requires
        tree.contains(path_join(dir, "yarn.lock"@)),
    ensures
        detect(tree, dir) == Some(PackageManager::Yarn),
{
}

/// The guess is the owner of the first lockfile, by priority, that exists.
pub proof fn lemma_first_lockfile_wins(tree: Set<Seq<char>>, dir: Seq<char>, i: int)
    requires
        0 <= i < lockfile_names().len(),
        has_lockfile(tree, dir, i),
        forall|j: int| 0 <= j < i ==> !has_lockfile(tree, dir, j),
    ensures
        detect(tree, dir) == Some(lockfile_owner(i)),
{
}

/// Without any lockfile there is no guess, and only then.
pub proof fn lemma_no_lockfile_no_guess(tree: Set<Seq<char>>, dir: Seq<char>)
    ensures
        detect(tree, dir) is None <==> forall|i: int|
            0 <= i < lockfile_names().len() ==> !has_lockfile(tree, dir, i),
{
    if detect(tree, dir) is None {
        assert forall|i: int| 0 <= i < lockfile_names().len() implies !has_lockfile(tree, dir, i) by {
            if i == 0 {
            } else if i == 1 {
            } else if i == 2 {
            } else if i == 3 {
            } else {
            }
        }
    } else {
        if has_lockfile(tree, dir, 0) {
        } else if has_lockfile(tree, dir, 1) {
        } else if has_lockfile(tree, dir, 2) {
        } else if has_lockfile(tree, dir, 3) {
        } else {
            assert(has_lockfile(tree, dir, 4));
        }
    }
}

/// Every package manager is read back from its own name.
pub proof fn lemma_name_round_trip(pm: PackageManager)
    ensures
        parse_name(pm.name()) == Some(pm),
{
    reveal_strlit("yarn");
    reveal_strlit("npm");
    reveal_strlit("pnpm");
    reveal_strlit("bun");
    assert("yarn"@.len() == 4);
    assert("npm"@.len() == 3);
    assert("pnpm"@.len() == 4);
    assert("yarn"@[0] == 'y');
    assert("pnpm"@[0] == 'p');
    assert("bun"@[0] == 'b');
    assert("npm"@[0] == 'n');
}

} // verus!

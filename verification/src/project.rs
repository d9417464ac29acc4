//! Where a project lies: its manifest, the directory commands run in, and the
//! directories that hold its executables.

use vstd::prelude::*;
use crate::paths::{
    ancestor_dirs,
    candidates,
    find_closest_files,
    find_upward,
    join_each,
    joined_each,
    lemma_matching_levels,
    matching_levels,
    parent_of,
    path_join,
    path_parent,
    present_in,
    probe_paths,
    DirTree,
};
use crate::text::{append_all, texts};

verus! {

/// The name of the manifest.
pub const MANIFEST_NAME: &'static str = "package.json";

/// The name of the directory that holds a project's dependencies.
pub const MODULES_NAME: &'static str = "node_modules";

/// The name, inside that directory, of the directory of executables.
pub const BIN_NAME: &'static str = ".bin";

/// Where a project lies.
#[derive(Clone, Debug, PartialEq, Eq)]
pub struct ProjectLocation {
    /// The nearest manifest, looking upward from the working directory.
    pub manifest_path: String,
    /// The directory of that manifest; commands run there.
    pub execute_dir: String,
    /// The directories of executables, one for every dependency directory from
    /// the working directory upward, nearest first.
    pub bin_dirs: Vec<String>,
}

/// The plain values of a [`ProjectLocation`].
pub ghost struct Location {
    pub manifest_path: Seq<char>,
    pub execute_dir: Seq<char>,
    pub bin_dirs: Seq<Seq<char>>,
}

impl View for ProjectLocation {
    type V = Location;

    open spec fn view(&self) -> Location {
        Location {
            manifest_path: self.manifest_path@,
            execute_dir: self.execute_dir@,
            bin_dirs: texts(self.bin_dirs@),
        }
    }
}

/// The plain values of a location that may be missing.
pub open spec fn optional_location(location: Option<ProjectLocation>) -> Option<Location> {
    match location {
        Some(l) => Some(l@),
        None => None,
    }
}

/// The paths to probe before a project can be located from `start`: the
/// manifest at every level, then the dependency directory at every level.
pub open spec fn discovery_probes(start: Seq<char>) -> Seq<Seq<char>> {
    candidates(start, MANIFEST_NAME@) + candidates(start, MODULES_NAME@)
}

/// The location put together from the manifests found, nearest first, the
/// directory of the nearest one, and the dependency directories found. There
/// is none without a manifest, and none without a directory for it.
pub open spec fn location_from(
    manifests: Seq<Seq<char>>,
    execute_dir: Option<Seq<char>>,
    modules: Seq<Seq<char>>,
) -> Option<Location> {
    if manifests.len() == 0 {
        None
    } else {
        match execute_dir {
            Some(dir) => Some(
                Location {
                    manifest_path: manifests[0],
                    execute_dir: dir,
                    bin_dirs: joined_each(modules, BIN_NAME@),
                },
            ),
            None => None,
        }
    }
}

/// The directory of the nearest of `manifests`.
pub open spec fn directory_of_first(manifests: Seq<Seq<char>>) -> Option<Seq<char>> {
    if manifests.len() == 0 {
        None
    } else {
        path_parent(manifests[0])
    }
}

/// The location of the project that `start` lies in, in `tree`: the nearest
/// manifest upward from `start`, its directory, and the executable directory
/// of every dependency directory upward from `start`.
pub open spec fn location_of(tree: Set<Seq<char>>, start: Seq<char>) -> Option<Location> {
    let manifests = find_upward(tree, start, MANIFEST_NAME@, true);
    location_from(
        manifests,
        directory_of_first(manifests),
        find_upward(tree, start, MODULES_NAME@, false),
    )
}

/// The paths to probe before the project of `start` can be located.
pub fn discovery_paths(start: &str) -> (paths: Vec<String>)
    ensures
        texts(paths@) == discovery_probes(start@),
{
    let mut paths = probe_paths(start, MANIFEST_NAME);
    let modules = probe_paths(start, MODULES_NAME);
    append_all(&mut paths, &modules);
    paths
}

impl ProjectLocation {
    /// Puts a location together from the manifests found, nearest first, the
    /// directory of the nearest one, and the dependency directories found.
    pub fn assemble(manifests: Vec<String>, execute_dir: Option<String>, modules: &Vec<String>) -> (location:
        Option<ProjectLocation>)
        ensures
            optional_location(location) == location_from(
                texts(manifests@),
                match execute_dir {
                    Some(dir) => Some(dir@),
                    None => None,
                },
                texts(modules@),
            ),
    {
        if manifests.len() == 0 {
            return None;
        }
        match execute_dir {
            Some(execute_dir) => Some(
                ProjectLocation {
                    manifest_path: manifests[0].clone(),
                    execute_dir,
                    bin_dirs: join_each(modules, BIN_NAME),
                },
            ),
            None => None,
        }
    }
}

/// Locates the project that `start` lies in, from what exists in `tree`.
pub fn locate(tree: &DirTree, start: &str) -> (location: Option<ProjectLocation>)
    ensures
        optional_location(location) == location_of(tree@, start@),
{
    let manifests = find_closest_files(tree, start, MANIFEST_NAME, true);
    let modules = find_closest_files(tree, start, MODULES_NAME, false);
    let execute_dir = if manifests.len() == 0 {
        None
    } else {
        parent_of(manifests[0].as_str())
    };
    ProjectLocation::assemble(manifests, execute_dir, &modules)
}

/// The manifest of a located project is the nearest one: it exists, it lies
/// `depth` levels above the start for some `depth`, and no nearer level holds
/// a manifest. Commands run in the directory that holds it.
pub proof fn lemma_location_is_nearest(tree: Set<Seq<char>>, start: Seq<char>) -> (depth: int)
    requires
        location_of(tree, start) is Some,
    ensures
        0 <= depth < ancestor_dirs(start).len(),
        location_of(tree, start)->0.manifest_path == path_join(
            ancestor_dirs(start)[depth],
            MANIFEST_NAME@,
        ),
        tree.contains(location_of(tree, start)->0.manifest_path),
        forall|i: int|
            0 <= i < depth ==> !tree.contains(
                path_join(#[trigger] ancestor_dirs(start)[i], MANIFEST_NAME@),
            ),
        path_parent(location_of(tree, start)->0.manifest_path) == Some(
            location_of(tree, start)->0.execute_dir,
        ),
{
    let paths = candidates(start, MANIFEST_NAME@);
    let levels = matching_levels(tree, paths);
    lemma_matching_levels(tree, paths);
    let depth = levels[0];
    assert forall|i: int| 0 <= i < depth implies !tree.contains(
        path_join(#[trigger] ancestor_dirs(start)[i], MANIFEST_NAME@),
    ) by {
        if tree.contains(paths[i]) {
            assert(levels.contains(i));
            let k = choose|k: int| 0 <= k < levels.len() && levels[k] == i;
            if k > 0 {
                assert(levels[0] < levels[k]);
            }
        }
    }
    depth
}

/// Without a manifest at any level there is no project.
pub proof fn lemma_no_manifest_no_location(tree: Set<Seq<char>>, start: Seq<char>)
    requires
        forall|i: int|
            0 <= i < ancestor_dirs(start).len() ==> !tree.contains(
                path_join(#[trigger] ancestor_dirs(start)[i], MANIFEST_NAME@),
            ),
    ensures
        location_of(tree, start) is None,
{
    let paths = candidates(start, MANIFEST_NAME@);
    let levels = matching_levels(tree, paths);
    lemma_matching_levels(tree, paths);
    if levels.len() > 0 {
        let level = levels[0];
        assert(tree.contains(paths[level]));
        assert(!tree.contains(path_join(ancestor_dirs(start)[level], MANIFEST_NAME@)));
    }
    assert(paths.filter(present_in(tree)).len() == 0);
}

} // verus!

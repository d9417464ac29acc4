//! Walking from a directory up to the root, over a snapshot of what exists.
//!
//! The walk itself never looks at the disk. It is told which paths exist by a
//! [`DirTree`], so the same question always has the same answer.

use vstd::prelude::*;
use crate::text::{text_eq, texts};

verus! {

/// The path that `std::path::Path::join` gives for `name` under `dir`.
pub uninterp spec fn path_join(dir: Seq<char>, name: Seq<char>) -> Seq<char>;

/// The path that `std::path::Path::parent` gives for `dir`, if `dir` has a parent.
pub uninterp spec fn path_parent(dir: Seq<char>) -> Option<Seq<char>>;

/// Calls `std::path::Path::join`. The result is a function of the two texts
/// alone; nothing more is claimed of it.
#[verifier::external_body]
pub(crate) fn join_path(dir: &str, name: &str) -> (joined: String)
    ensures
        joined@ == path_join(dir@, name@),
{
    std::path::Path::new(dir).join(name).to_string_lossy().into_owned()
}

/// Calls `std::path::Path::parent`, which returns the path without its final
/// component, or nothing for a root and for the empty path. Claimed: the result
/// is a function of the text alone, and a parent is shorter than its child.
#[verifier::external_body]
pub(crate) fn parent_of(dir: &str) -> (parent: Option<String>)
    ensures
        match parent {
            Some(p) => path_parent(dir@) == Some(p@) && p@.len() < dir@.len(),
            None => path_parent(dir@) is None,
        },
{
    std::path::Path::new(dir).parent().map(|p| p.to_string_lossy().into_owned())
}

/// `dir` followed by its parent, its parent's parent, and so on up to the root.
pub open spec fn ancestor_dirs(dir: Seq<char>) -> Seq<Seq<char>>
    decreases dir.len(),
{
    match path_parent(dir) {
        Some(p) => if p.len() < dir.len() {
            seq![dir] + ancestor_dirs(p)
        } else {
            seq![dir]
        },
        None => seq![dir],
    }
}

/// For each of `dirs`, the path of `name` inside it.
pub open spec fn joined_each(dirs: Seq<Seq<char>>, name: Seq<char>) -> Seq<Seq<char>> {
    dirs.map_values(|d: Seq<char>| path_join(d, name))
}

/// The paths at which `name` is looked for when walking up from `start`, nearest first.
pub open spec fn candidates(start: Seq<char>, name: Seq<char>) -> Seq<Seq<char>> {
    joined_each(ancestor_dirs(start), name)
}

/// The test "this path exists in `tree`".
pub open spec fn present_in(tree: Set<Seq<char>>) -> spec_fn(Seq<char>) -> bool {
    |p: Seq<char>| tree.contains(p)
}

/// Those of `paths` that exist in `tree`, in the order given; only the first of
/// them if `stop_on_first` is set.
pub open spec fn existing(tree: Set<Seq<char>>, paths: Seq<Seq<char>>, stop_on_first: bool) -> Seq<
    Seq<char>,
> {
    let hits = paths.filter(present_in(tree));
    if stop_on_first && hits.len() > 0 {
        seq![hits[0]]
    } else {
        hits
    }
}

/// What an upward search for `name` from `start` finds in `tree`.
pub open spec fn find_upward(
    tree: Set<Seq<char>>,
    start: Seq<char>,
    name: Seq<char>,
    stop_on_first: bool,
) -> Seq<Seq<char>> {
    existing(tree, candidates(start, name), stop_on_first)
}

/// The first of `dirs` that holds `name` in `tree`, as the path of `name` inside it.
pub open spec fn resolve_bin(tree: Set<Seq<char>>, name: Seq<char>, dirs: Seq<Seq<char>>) -> Option<
    Seq<char>,
> {
    let hits = joined_each(dirs, name).filter(present_in(tree));
    if hits.len() > 0 {
        Some(hits[0])
    } else {
        None
    }
}

/// The positions in `paths` of the entries that exist in `tree`, in rising order.
pub open spec fn matching_levels(tree: Set<Seq<char>>, paths: Seq<Seq<char>>) -> Seq<int>
    decreases paths.len(),
{
    if paths.len() == 0 {
        Seq::empty()
    } else {
        let below = matching_levels(tree, paths.drop_last());
        if tree.contains(paths.last()) {
            below.push(paths.len() - 1)
        } else {
            below
        }
    }
}

/// Filtering by existence keeps exactly the entries at the matching levels, in
/// the order of those levels.
pub proof fn lemma_matching_levels(tree: Set<Seq<char>>, paths: Seq<Seq<char>>)
    ensures
        matching_levels(tree, paths).len() == paths.filter(present_in(tree)).len(),
        forall|k: int|
            0 <= k < matching_levels(tree, paths).len() ==> {
                let level = #[trigger] matching_levels(tree, paths)[k];
                &&& 0 <= level < paths.len()
                &&& tree.contains(paths[level])
                &&& paths.filter(present_in(tree))[k] == paths[level]
            },
        forall|k: int, l: int|
            0 <= k < l < matching_levels(tree, paths).len() ==> matching_levels(tree, paths)[k]
                < matching_levels(tree, paths)[l],
        forall|i: int|
            0 <= i < paths.len() && tree.contains(paths[i]) ==> matching_levels(
                tree,
                paths,
            ).contains(i),
    decreases paths.len(),
{
    reveal(Seq::filter);
    let levels = matching_levels(tree, paths);
    if paths.len() > 0 {
        let shorter = paths.drop_last();
        let below = matching_levels(tree, shorter);
        lemma_matching_levels(tree, shorter);
        assert forall|i: int| 0 <= i < paths.len() && tree.contains(paths[i]) implies levels.contains(
            i,
        ) by {
            if i < shorter.len() {
                assert(shorter[i] == paths[i]);
                assert(below.contains(i));
                let k = choose|k: int| 0 <= k < below.len() && below[k] == i;
                assert(levels[k] == i);
            } else {
                assert(levels[levels.len() - 1] == i);
            }
        }
        assert forall|k: int| 0 <= k < levels.len() implies {
            let level = #[trigger] levels[k];
            &&& 0 <= level < paths.len()
            &&& tree.contains(paths[level])
            &&& paths.filter(present_in(tree))[k] == paths[level]
        } by {
            if k < below.len() {
                assert(shorter[below[k]] == paths[below[k]]);
            }
        }
    }
}

/// A search that stops at the first match returns exactly the nearest match:
/// if the entry exists `depth` levels up and at no nearer level, the result is
/// that one path, whatever lies above it.
pub proof fn lemma_nearest_match_only(
    tree: Set<Seq<char>>,
    start: Seq<char>,
    name: Seq<char>,
    depth: int,
)
    requires
        0 <= depth < ancestor_dirs(start).len(),
        tree.contains(path_join(ancestor_dirs(start)[depth], name)),
        forall|i: int| 0 <= i < depth ==> !tree.contains(path_join(ancestor_dirs(start)[i], name)),
    ensures
        find_upward(tree, start, name, true) == seq![path_join(ancestor_dirs(start)[depth], name)],
{
    let paths = candidates(start, name);
    let levels = matching_levels(tree, paths);
    lemma_matching_levels(tree, paths);
    assert(tree.contains(paths[depth]));
    assert(levels.contains(depth));
    let k = choose|k: int| 0 <= k < levels.len() && levels[k] == depth;
    if k > 0 {
        let nearer = levels[0];
        assert(nearer < depth);
        assert(tree.contains(paths[nearer]));
        assert(!tree.contains(path_join(ancestor_dirs(start)[nearer], name)));
    }
}

/// A search that does not stop returns every match, nearest first. The result
/// of the proof is the level of each returned path, counted from `start`.
pub proof fn lemma_all_matches_nearest_first(
    tree: Set<Seq<char>>,
    start: Seq<char>,
    name: Seq<char>,
) -> (levels: Seq<int>)
    ensures
        levels.len() == find_upward(tree, start, name, false).len(),
        forall|k: int|
            0 <= k < levels.len() ==> 0 <= #[trigger] levels[k] < ancestor_dirs(start).len()
                && find_upward(tree, start, name, false)[k] == path_join(
                ancestor_dirs(start)[levels[k]],
                name,
            ),
        forall|k: int, l: int| 0 <= k < l < levels.len() ==> levels[k] < levels[l],
        forall|i: int|
            0 <= i < ancestor_dirs(start).len() && tree.contains(
                path_join(ancestor_dirs(start)[i], name),
            ) ==> levels.contains(i),
        forall|k: int|
            0 <= k < levels.len() ==> tree.contains(#[trigger] find_upward(tree, start, name, false)[k]),
{
    let paths = candidates(start, name);
    lemma_matching_levels(tree, paths);
    let levels = matching_levels(tree, paths);
    assert forall|k: int| 0 <= k < levels.len() implies tree.contains(
        #[trigger] find_upward(tree, start, name, false)[k],
    ) by {
        let level = levels[k];
        assert(tree.contains(paths[level]));
    }
    assert forall|i: int|
        0 <= i < ancestor_dirs(start).len() && tree.contains(
            path_join(ancestor_dirs(start)[i], name),
        ) implies levels.contains(i) by {
        assert(tree.contains(paths[i]));
    }
    levels
}

/// The executable is taken from the first directory that holds it: if it
/// exists in `dirs[first]` and in no earlier directory, that is the path found.
pub proof fn lemma_first_directory_wins(
    tree: Set<Seq<char>>,
    name: Seq<char>,
    dirs: Seq<Seq<char>>,
    first: int,
)
    requires
        0 <= first < dirs.len(),
        tree.contains(path_join(dirs[first], name)),
        forall|i: int| 0 <= i < first ==> !tree.contains(path_join(dirs[i], name)),
    ensures
        resolve_bin(tree, name, dirs) == Some(path_join(dirs[first], name)),
{
    let paths = joined_each(dirs, name);
    let levels = matching_levels(tree, paths);
    lemma_matching_levels(tree, paths);
    assert(tree.contains(paths[first]));
    assert(levels.contains(first));
    let k = choose|k: int| 0 <= k < levels.len() && levels[k] == first;
    if k > 0 {
        let earlier = levels[0];
        assert(earlier < first);
        assert(tree.contains(paths[earlier]));
        assert(!tree.contains(path_join(dirs[earlier], name)));
    }
}

/// No directory holds the executable exactly when nothing is resolved.
pub proof fn lemma_unresolved_means_absent(tree: Set<Seq<char>>, name: Seq<char>, dirs: Seq<Seq<char>>)
    ensures
        resolve_bin(tree, name, dirs) is None <==> forall|i: int|
            0 <= i < dirs.len() ==> !tree.contains(#[trigger] path_join(dirs[i], name)),
{
    let paths = joined_each(dirs, name);
    let levels = matching_levels(tree, paths);
    lemma_matching_levels(tree, paths);
    if resolve_bin(tree, name, dirs) is None {
        assert forall|i: int| 0 <= i < dirs.len() implies !tree.contains(
            #[trigger] path_join(dirs[i], name),
        ) by {
            if tree.contains(paths[i]) {
                assert(levels.contains(i));
            }
        }
    } else {
        let level = levels[0];
        assert(tree.contains(paths[level]));
        assert(tree.contains(path_join(dirs[level], name)));
    }
}

/// Whether the answers `present` tell the truth about `paths` in `world`.
pub open spec fn truthful(paths: Seq<Seq<char>>, present: Seq<bool>, world: Set<Seq<char>>) -> bool {
    &&& present.len() == paths.len()
    &&& forall|i: int| 0 <= i < paths.len() ==> present[i] == world.contains(#[trigger] paths[i])
}

/// Two trees that agree on every one of `paths` keep the same ones.
pub proof fn lemma_existing_agrees(
    first: Set<Seq<char>>,
    second: Set<Seq<char>>,
    paths: Seq<Seq<char>>,
    stop_on_first: bool,
)
    requires
        forall|i: int|
            0 <= i < paths.len() ==> first.contains(#[trigger] paths[i]) == second.contains(paths[i]),
    ensures
        paths.filter(present_in(first)) == paths.filter(present_in(second)),
        existing(first, paths, stop_on_first) == existing(second, paths, stop_on_first),
    decreases paths.len(),
{
    reveal(Seq::filter);
    if paths.len() > 0 {
        let shorter = paths.drop_last();
        assert forall|i: int| 0 <= i < shorter.len() implies first.contains(#[trigger] shorter[i])
            == second.contains(shorter[i]) by {
            assert(shorter[i] == paths[i]);
        }
        lemma_existing_agrees(first, second, shorter, stop_on_first);
        assert(first.contains(paths[paths.len() - 1]) == second.contains(paths.last()));
    }
}

/// A snapshot made from truthful answers stands for the world: on every path
/// that was probed, it says what the world says.
pub proof fn lemma_observed_truthful(
    paths: Seq<Seq<char>>,
    present: Seq<bool>,
    world: Set<Seq<char>>,
    path: Seq<char>,
)
    requires
        truthful(paths, present, world),
        paths.contains(path),
    ensures
        observed(paths, present).contains(path) == world.contains(path),
{
    let i = choose|i: int| 0 <= i < paths.len() && paths[i] == path;
    if world.contains(path) {
        assert(present[i]);
    }
    if observed(paths, present).contains(path) {
        let k = choose|k: int|
            0 <= k < paths.len() && k < present.len() && present[k] && paths[k] == path;
        assert(world.contains(paths[k]));
    }
}

/// What is kept of `asked` over a snapshot is what the world would keep,
/// provided every path of `asked` was among the probed `paths` and the
/// answers were truthful.
pub proof fn lemma_snapshot_faithful(
    paths: Seq<Seq<char>>,
    present: Seq<bool>,
    world: Set<Seq<char>>,
    asked: Seq<Seq<char>>,
    stop_on_first: bool,
)
    requires
        truthful(paths, present, world),
        forall|i: int| 0 <= i < asked.len() ==> paths.contains(#[trigger] asked[i]),
    ensures
        asked.filter(present_in(observed(paths, present))) == asked.filter(present_in(world)),
        existing(observed(paths, present), asked, stop_on_first) == existing(
            world,
            asked,
            stop_on_first,
        ),
{
    assert forall|i: int| 0 <= i < asked.len() implies observed(paths, present).contains(
        #[trigger] asked[i],
    ) == world.contains(asked[i]) by {
        lemma_observed_truthful(paths, present, world, asked[i]);
    }
    lemma_existing_agrees(observed(paths, present), world, asked, stop_on_first);
}

/// A snapshot of the file system: the set of paths known to exist.
#[derive(Clone, Debug)]
pub struct DirTree {
    entries: Vec<String>,
}

/// The paths among `paths` that the answers `present` report as existing. A path
/// without an answer counts as absent.
pub open spec fn observed(paths: Seq<Seq<char>>, present: Seq<bool>) -> Set<Seq<char>> {
    Set::new(
        |p: Seq<char>|
            exists|i: int| 0 <= i < paths.len() && i < present.len() && present[i] && paths[i] == p,
    )
}

impl View for DirTree {
    type V = Set<Seq<char>>;

    closed spec fn view(&self) -> Set<Seq<char>> {
        Set::new(|p: Seq<char>| exists|i: int| 0 <= i < self.entries.len() && self.entries[i]@ == p)
    }
}

impl DirTree {
    /// A tree in which nothing exists.
    pub fn new() -> (tree: DirTree)
        ensures
            tree@ == Set::<Seq<char>>::empty(),
    {
        let tree = DirTree { entries: Vec::new() };
        assert(tree@ =~= Set::<Seq<char>>::empty());
        tree
    }

    /// Records that `path` exists.
    pub fn insert(&mut self, path: String)
        ensures
            final(self)@ == old(self)@.insert(path@),
    {
        let ghost before = self.entries@;
        self.entries.push(path);
        proof {
            let after = self.entries@;
            assert forall|p: Seq<char>| self@.contains(p) == old(self)@.insert(path@).contains(
                p,
            ) by {
                if old(self)@.contains(p) {
                    let i = choose|i: int| 0 <= i < before.len() && before[i]@ == p;
                    assert(after[i]@ == p);
                }
                if p == path@ {
                    assert(after[before.len() as int]@ == p);
                }
            }
            assert(self@ =~= old(self)@.insert(path@));
        }
    }

    /// Whether `path` exists in this tree.
    pub fn contains(&self, path: &str) -> (found: bool)
        ensures
            found == self@.contains(path@),
    {
        let mut i: usize = 0;
        while i < self.entries.len()
            invariant
                i <= self.entries.len(),
                forall|j: int| 0 <= j < i ==> self.entries[j]@ != path@,
            decreases self.entries.len() - i,
        {
            if text_eq(self.entries[i].as_str(), path) {
                return true;
            }
            i += 1;
        }
        false
    }

    /// The tree that a round of probing reports: `paths[i]` exists if `present[i]` says so.
    pub fn from_probes(paths: &Vec<String>, present: &Vec<bool>) -> (tree: DirTree)
        ensures
            tree@ == observed(texts(paths@), present@),
    {
        let mut tree = DirTree::new();
        let mut i: usize = 0;
        while i < paths.len() && i < present.len()
            invariant
                i <= paths.len(),
                i <= present.len(),
                tree@ == observed(texts(paths@).take(i as int), present@),
            decreases paths.len() - i,
        {
            let ghost before = tree@;
            if present[i] {
                tree.insert(paths[i].clone());
            }
            proof {
                let all = texts(paths@);
                assert forall|p: Seq<char>| tree@.contains(p) == observed(
                    all.take(i + 1),
                    present@,
                ).contains(p) by {
                    if observed(all.take(i as int), present@).contains(p) {
                        let k = choose|k: int|
                            0 <= k < all.take(i as int).len() && k < present@.len() && present@[k]
                                && all.take(i as int)[k] == p;
                        assert(all.take(i + 1)[k] == p);
                    }
                    if present@[i as int] && p == all[i as int] {
                        assert(all.take(i + 1)[i as int] == p);
                    }
                    if observed(all.take(i + 1), present@).contains(p) {
                        let k = choose|k: int|
                            0 <= k < all.take(i + 1).len() && k < present@.len() && present@[k]
                                && all.take(i + 1)[k] == p;
                        if k < i {
                            assert(all.take(i as int)[k] == p);
                        }
                    }
                }
                assert(tree@ =~= observed(all.take(i + 1), present@));
            }
            i += 1;
        }
        proof {
            let all = texts(paths@);
            assert forall|p: Seq<char>| observed(all.take(i as int), present@).contains(p)
                == observed(all, present@).contains(p) by {
                if observed(all.take(i as int), present@).contains(p) {
                    let k = choose|k: int|
                        0 <= k < all.take(i as int).len() && k < present@.len() && present@[k]
                            && all.take(i as int)[k] == p;
                    assert(all[k] == p);
                }
                if observed(all, present@).contains(p) {
                    let k = choose|k: int|
                        0 <= k < all.len() && k < present@.len() && present@[k] && all[k] == p;
                    assert(all.take(i as int)[k] == p);
                }
            }
            assert(tree@ =~= observed(all, present@));
        }
        tree
    }
}

/// The directories from `dir` up to the root, nearest first.
pub fn ancestors(dir: &str) -> (chain: Vec<String>)
    ensures
        texts(chain@) == ancestor_dirs(dir@),
{
    let mut chain: Vec<String> = Vec::new();
    let mut cur: String = dir.to_owned();
    loop
        invariant_except_break
            ancestor_dirs(dir@) == texts(chain@) + ancestor_dirs(cur@),
        ensures
            texts(chain@) == ancestor_dirs(dir@),
        decreases cur@.len(),
    {
        let next = parent_of(cur.as_str());
        let ghost walked = texts(chain@);
        let ghost here = cur@;
        chain.push(cur.clone());
        assert(texts(chain@) =~= walked.push(here));
        match next {
            Some(p) => {
                assert(walked + (seq![here] + ancestor_dirs(p@)) =~= walked.push(here)
                    + ancestor_dirs(p@));
                cur = p;
            },
            None => {
                assert(walked + seq![here] =~= walked.push(here));
                break ;
            },
        }
    }
    chain
}

/// The path of `name` inside each of `dirs`.
pub fn join_each(dirs: &Vec<String>, name: &str) -> (paths: Vec<String>)
    ensures
        texts(paths@) == joined_each(texts(dirs@), name@),
{
    let mut paths: Vec<String> = Vec::new();
    let mut i: usize = 0;
    while i < dirs.len()
        invariant
            i <= dirs.len(),
            paths.len() == i,
            forall|j: int| 0 <= j < i ==> paths[j]@ == path_join(dirs[j]@, name@),
        decreases dirs.len() - i,
    {
        paths.push(join_path(dirs[i].as_str(), name));
        i += 1;
    }
    assert(texts(paths@) =~= joined_each(texts(dirs@), name@));
    paths
}

/// The paths to probe for an upward search for `name` from `current_dir`, nearest first.
pub fn probe_paths(current_dir: &str, name: &str) -> (paths: Vec<String>)
    ensures
        texts(paths@) == candidates(current_dir@, name@),
{
    let chain = ancestors(current_dir);
    join_each(&chain, name)
}

/// Keeps those of `paths` that exist in `tree`, stopping after the first one on request.
pub fn keep_existing(tree: &DirTree, paths: &Vec<String>, stop_on_first: bool) -> (found: Vec<
    String,
>)
    ensures
        texts(found@) == existing(tree@, texts(paths@), stop_on_first),
{
    let ghost all = texts(paths@);
    let ghost pred = present_in(tree@);
    let mut found: Vec<String> = Vec::new();
    let mut i: usize = 0;
    proof {
        reveal(Seq::filter);
        assert(all.take(0) =~= Seq::<Seq<char>>::empty());
    }
    while i < paths.len()
        invariant
            i <= paths.len(),
            all == texts(paths@),
            pred == present_in(tree@),
            texts(found@) == all.take(i as int).filter(pred),
            stop_on_first ==> found.len() == 0,
        decreases paths.len() - i,
    {
        let ghost before = texts(found@);
        proof {
            assert(all.take(i + 1) =~= all.take(i as int).push(all[i as int]));
            all.take(i as int).lemma_filter_push(all[i as int], pred);
        }
        if tree.contains(paths[i].as_str()) {
            found.push(paths[i].clone());
            assert(texts(found@) =~= before.push(all[i as int]));
            if stop_on_first {
                proof {
                    let rest = all.skip(i + 1);
                    assert(all =~= all.take(i + 1) + rest);
                    Seq::filter_distributes_over_add(all.take(i + 1), rest, pred);
                    assert(all.filter(pred)[0] == all[i as int]);
                    assert(texts(found@) =~= seq![all[i as int]]);
                }
                return found;
            }
        }
        i += 1;
    }
    assert(all.take(i as int) =~= all);
    found
}

/// Searches upward from `current_dir` for entries called `name` that exist in
/// `tree`. The nearest match comes first; with `stop_on_first` it is the only one.
/// Finding nothing is not an error.
pub fn find_closest_files(tree: &DirTree, current_dir: &str, name: &str, stop_on_first: bool) -> (found:
    Vec<String>)
    ensures
        texts(found@) == find_upward(tree@, current_dir@, name@, stop_on_first),
{
    let paths = probe_paths(current_dir, name);
    keep_existing(tree, &paths, stop_on_first)
}

/// The first directory of `dirs` that holds `bin_name` in `tree`, as the path of
/// the executable. The name is matched exactly.
pub fn resolve_bin_path(tree: &DirTree, bin_name: &str, dirs: &Vec<String>) -> (path: Option<String>)
    ensures
        match path {
            Some(p) => resolve_bin(tree@, bin_name@, texts(dirs@)) == Some(p@),
            None => resolve_bin(tree@, bin_name@, texts(dirs@)) is None,
        },
{
    let paths = join_each(dirs, bin_name);
    let mut found = keep_existing(tree, &paths, true);
    let ghost kept = texts(found@);
    let first = found.pop();
    proof {
        let hits = joined_each(texts(dirs@), bin_name@).filter(present_in(tree@));
        if hits.len() > 0 {
            assert(kept.len() == 1);
            assert(kept[0] == hits[0]);
        } else {
            assert(kept.len() == 0);
        }
    }
    first
}

} // verus!

use dum::paths::{
    ancestors, find_closest_files, join_each, keep_existing, probe_paths, resolve_bin_path, DirTree,
};

fn tree_of(paths: &[&str]) -> DirTree {
    let mut tree = DirTree::new();
    for p in paths {
        tree.insert(p.to_string());
    }
    tree
}

fn strings(items: &[&str]) -> Vec<String> {
    items.iter().map(|s| s.to_string()).collect()
}

#[test]
fn ancestors_reach_the_root() {
    assert_eq!(ancestors("/a/b/c"), vec!["/a/b/c", "/a/b", "/a", "/"]);
    assert_eq!(ancestors("/"), vec!["/"]);
}

#[test]
fn ancestors_of_a_relative_directory_end_at_the_empty_path() {
    assert_eq!(ancestors("a/b"), vec!["a/b", "a", ""]);
    assert_eq!(ancestors(""), vec![""]);
}

#[test]
fn probe_paths_name_the_entry_at_every_level() {
    assert_eq!(
        probe_paths("/work/app", "package.json"),
        vec!["/work/app/package.json", "/work/package.json", "/package.json"]
    );
}

#[test]
fn nearest_manifest_is_the_only_result() {
    let tree = tree_of(&["/work/package.json", "/package.json", "/work/app/src/other.json"]);
    assert_eq!(
        find_closest_files(&tree, "/work/app/src", "package.json", true),
        vec!["/work/package.json"]
    );
}

#[test]
fn manifest_in_the_start_directory_is_found() {
    let tree = tree_of(&["/work/app/package.json", "/work/package.json"]);
    assert_eq!(
        find_closest_files(&tree, "/work/app", "package.json", true),
        vec!["/work/app/package.json"]
    );
}

#[test]
fn manifest_far_above_is_found_whatever_lies_between() {
    let tree = tree_of(&["/package.json"]);
    assert_eq!(
        find_closest_files(&tree, "/a/b/c/d/e/f/g", "package.json", true),
        vec!["/package.json"]
    );
}

#[test]
fn all_matches_come_nearest_first() {
    let tree = tree_of(&["/node_modules", "/work/app/node_modules", "/work/node_modules"]);
    assert_eq!(
        find_closest_files(&tree, "/work/app/src", "node_modules", false),
        vec!["/work/app/node_modules", "/work/node_modules", "/node_modules"]
    );
}

#[test]
fn nothing_found_is_an_empty_result() {
    let tree = tree_of(&["/work/app/yarn.lock"]);
    assert_eq!(find_closest_files(&tree, "/work/app", "package.json", true), Vec::<String>::new());
    assert_eq!(find_closest_files(&tree, "/work/app", "package.json", false), Vec::<String>::new());
    assert_eq!(
        find_closest_files(&DirTree::new(), "/work/app", "node_modules", false),
        Vec::<String>::new()
    );
}

#[test]
fn matches_below_the_start_directory_do_not_count() {
    let tree = tree_of(&["/work/app/src/package.json"]);
    assert_eq!(find_closest_files(&tree, "/work/app", "package.json", true), Vec::<String>::new());
}

#[test]
fn keep_existing_keeps_order_and_stops_on_request() {
    let tree = tree_of(&["/c", "/a"]);
    let paths = strings(&["/a", "/b", "/c"]);
    assert_eq!(keep_existing(&tree, &paths, false), vec!["/a", "/c"]);
    assert_eq!(keep_existing(&tree, &paths, true), vec!["/a"]);
    assert_eq!(keep_existing(&tree, &strings(&["/b"]), true), Vec::<String>::new());
}

#[test]
fn join_each_puts_the_name_into_every_directory() {
    assert_eq!(
        join_each(&strings(&["/w/a/node_modules", "/w/node_modules"]), ".bin"),
        vec!["/w/a/node_modules/.bin", "/w/node_modules/.bin"]
    );
    assert_eq!(join_each(&Vec::new(), ".bin"), Vec::<String>::new());
}

#[test]
fn executable_comes_from_the_first_directory_that_holds_it() {
    let dirs = strings(&["/w/a/node_modules/.bin", "/w/node_modules/.bin"]);
    let tree = tree_of(&["/w/node_modules/.bin/eslint", "/w/a/node_modules/.bin/eslint"]);
    assert_eq!(
        resolve_bin_path(&tree, "eslint", &dirs),
        Some("/w/a/node_modules/.bin/eslint".to_string())
    );
    let tree = tree_of(&["/w/node_modules/.bin/eslint"]);
    assert_eq!(
        resolve_bin_path(&tree, "eslint", &dirs),
        Some("/w/node_modules/.bin/eslint".to_string())
    );
}

#[test]
fn executable_name_is_matched_exactly() {
    let dirs = strings(&["/w/node_modules/.bin"]);
    let tree = tree_of(&["/w/node_modules/.bin/eslint.cmd", "/w/node_modules/.bin/tsc"]);
    assert_eq!(resolve_bin_path(&tree, "eslint", &dirs), None);
    assert_eq!(resolve_bin_path(&tree, "tsc", &Vec::new()), None);
}

#[test]
fn tree_answers_for_what_was_inserted() {
    let mut tree = DirTree::new();
    assert!(!tree.contains("/a"));
    tree.insert("/a".to_string());
    assert!(tree.contains("/a"));
    assert!(!tree.contains("/a/"));
    assert!(!tree.contains("/b"));
}

#[test]
fn tree_from_probes_holds_what_was_reported() {
    let paths = strings(&["/a", "/b", "/c"]);
    let tree = DirTree::from_probes(&paths, &vec![true, false, true]);
    assert!(tree.contains("/a"));
    assert!(!tree.contains("/b"));
    assert!(tree.contains("/c"));
}

#[test]
fn tree_from_probes_counts_a_missing_answer_as_absent() {
    let paths = strings(&["/a", "/b", "/c"]);
    let tree = DirTree::from_probes(&paths, &vec![true]);
    assert!(tree.contains("/a"));
    assert!(!tree.contains("/b"));
    assert!(!tree.contains("/c"));
    let tree = DirTree::from_probes(&strings(&["/a"]), &vec![false, true, true]);
    assert!(!tree.contains("/a"));
}

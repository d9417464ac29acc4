use dum::environment::{get_path_env, Platform};

fn strings(items: &[&str]) -> Vec<String> {
    items.iter().map(|s| s.to_string()).collect()
}

#[test]
fn no_directories_leave_the_path_unchanged() {
    assert_eq!(get_path_env(&Vec::new(), "/usr/bin:/bin", Platform::Posix), "/usr/bin:/bin");
    assert_eq!(get_path_env(&Vec::new(), "", Platform::Posix), "");
    assert_eq!(get_path_env(&Vec::new(), ":/usr/bin::/bin:", Platform::Posix), ":/usr/bin::/bin:");
    assert_eq!(get_path_env(&Vec::new(), "C:\\a;C:\\b", Platform::Windows), "C:\\a;C:\\b");
}

#[test]
fn directories_stand_in_front_in_their_order() {
    let dirs = strings(&["/w/a/node_modules/.bin", "/w/node_modules/.bin"]);
    assert_eq!(
        get_path_env(&dirs, "/usr/bin:/bin", Platform::Posix),
        "/w/a/node_modules/.bin:/w/node_modules/.bin:/usr/bin:/bin"
    );
}

#[test]
fn first_entry_is_the_first_directory() {
    let dirs = strings(&["/near/.bin", "/far/.bin"]);
    let path = get_path_env(&dirs, "/usr/bin", Platform::Posix);
    assert_eq!(path.split(':').next(), Some("/near/.bin"));
    assert_eq!(path.split(':').collect::<Vec<&str>>(), vec!["/near/.bin", "/far/.bin", "/usr/bin"]);
}

#[test]
fn empty_inherited_path_stays_as_an_empty_entry() {
    assert_eq!(get_path_env(&strings(&["/w/.bin"]), "", Platform::Posix), "/w/.bin:");
}

#[test]
fn windows_separates_with_a_semicolon() {
    let dirs = strings(&["C:\\w\\node_modules\\.bin"]);
    assert_eq!(
        get_path_env(&dirs, "C:\\Windows", Platform::Windows),
        "C:\\w\\node_modules\\.bin;C:\\Windows"
    );
    assert_eq!(Platform::Windows.separator_str(), ";");
    assert_eq!(Platform::Posix.separator_str(), ":");
}

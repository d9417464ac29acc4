use dum::manifest::{ManifestError, Script, ScriptTable};

fn script(name: &str, command: &str) -> Script {
    Script { name: name.to_string(), command: command.to_string() }
}

fn load(text: &str) -> Result<ScriptTable, ManifestError> {
    ScriptTable::load(&Some(text.to_string()))
}

#[test]
fn scripts_keep_the_order_of_their_declaration() {
    let table = load("{\"name\": \"app\", \"scripts\": {\"test\": \"jest\", \"build\": \"tsc\"}}").unwrap();
    assert_eq!(table.scripts, vec![script("test", "jest"), script("build", "tsc")]);
    assert_eq!(table.names(), vec!["test", "build"]);
}

#[test]
fn unreadable_manifest_is_missing() {
    assert_eq!(ScriptTable::load(&None), Err(ManifestError::Missing));
}

#[test]
fn text_that_is_not_json_is_invalid() {
    assert_eq!(load("{\"scripts\": "), Err(ManifestError::Invalid));
    assert_eq!(load(""), Err(ManifestError::Invalid));
    assert_eq!(load("scripts: build"), Err(ManifestError::Invalid));
}

#[test]
fn manifest_without_scripts_declares_none() {
    assert_eq!(load("{\"name\": \"app\"}"), Ok(ScriptTable { scripts: vec![] }));
    assert_eq!(load("{\"scripts\": {}}"), Ok(ScriptTable { scripts: vec![] }));
    assert!(load("{}").unwrap().is_empty());
}

#[test]
fn scripts_that_are_not_an_object_declare_none() {
    assert_eq!(load("{\"scripts\": [\"build\"]}"), Ok(ScriptTable { scripts: vec![] }));
    assert_eq!(load("{\"scripts\": \"build\"}"), Ok(ScriptTable { scripts: vec![] }));
    assert_eq!(load("[1, 2]"), Ok(ScriptTable { scripts: vec![] }));
    assert_eq!(load("null"), Ok(ScriptTable { scripts: vec![] }));
}

#[test]
fn other_fields_are_ignored() {
    let table = load("{\"version\": \"1.0.0\", \"scripts\": {\"dev\": \"vite\"}, \"private\": true}").unwrap();
    assert_eq!(table.scripts, vec![script("dev", "vite")]);
}

#[test]
fn value_that_is_not_a_string_is_the_empty_command() {
    let table = load("{\"scripts\": {\"a\": 1, \"b\": \"echo b\", \"c\": null}}").unwrap();
    assert_eq!(table.scripts, vec![script("a", ""), script("b", "echo b"), script("c", "")]);
}

#[test]
fn from_fields_builds_the_table() {
    let fields = Some(vec![
        ("lint".to_string(), Some("eslint .".to_string())),
        ("odd".to_string(), None),
    ]);
    assert_eq!(
        ScriptTable::from_fields(&fields),
        ScriptTable { scripts: vec![script("lint", "eslint ."), script("odd", "")] }
    );
    assert_eq!(ScriptTable::from_fields(&None), ScriptTable { scripts: vec![] });
}

#[test]
fn lookup_finds_declared_names_only() {
    let table = load("{\"scripts\": {\"test\": \"jest\", \"build\": \"tsc -p .\"}}").unwrap();
    assert_eq!(table.lookup("build"), Some("tsc -p .".to_string()));
    assert_eq!(table.lookup("test"), Some("jest".to_string()));
    assert_eq!(table.lookup("lint"), None);
    assert_eq!(table.lookup(""), None);
    assert_eq!(table.lookup("Build"), None);
}

#[test]
fn lookup_takes_the_first_declaration() {
    let table = ScriptTable { scripts: vec![script("a", "first"), script("a", "second")] };
    assert_eq!(table.lookup("a"), Some("first".to_string()));
}

#[test]
fn copy_is_equal() {
    let table = load("{\"scripts\": {\"test\": \"jest\", \"build\": \"tsc\"}}").unwrap();
    assert_eq!(table.copy(), table);
    assert!(!table.is_empty());
}

#[test]
fn escapes_in_the_manifest_are_decoded() {
    let table = load("{\"scripts\": {\"say\": \"echo \\\"hi\\\"\"}}").unwrap();
    assert_eq!(table.lookup("say"), Some("echo \"hi\"".to_string()));
}

use dum::command::{exit_code, shell_command};
use dum::environment::Platform;

fn strings(items: &[&str]) -> Vec<String> {
    items.iter().map(|s| s.to_string()).collect()
}

#[test]
fn posix_shell_gets_the_arguments_as_positional_parameters() {
    let command = shell_command("tsc -p .", &strings(&["--watch", "a b"]), Platform::Posix);
    assert_eq!(command.program, "sh");
    assert_eq!(command.args, vec!["-c", "tsc -p . \"$@\"", "sh", "--watch", "a b"]);
}

#[test]
fn posix_shell_without_arguments() {
    let command = shell_command("jest", &Vec::new(), Platform::Posix);
    assert_eq!(command.program, "sh");
    assert_eq!(command.args, vec!["-c", "jest \"$@\"", "sh"]);
}

#[test]
fn windows_shell_gets_the_script_and_the_arguments() {
    let command = shell_command("tsc", &strings(&["--watch"]), Platform::Windows);
    assert_eq!(command.program, "cmd");
    assert_eq!(command.args, vec!["/C", "tsc", "--watch"]);
}

#[test]
fn exit_code_is_the_commands_or_one() {
    assert_eq!(exit_code(Some(0)), 0);
    assert_eq!(exit_code(Some(3)), 3);
    assert_eq!(exit_code(Some(-1)), -1);
    assert_eq!(exit_code(None), 1);
}

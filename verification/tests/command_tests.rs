use xp_cli::Command;
use xp_cli::CommandOption;

#[test]
fn build_import_command() {
    let args = vec!["xp_cli".to_string(), "import".to_string()];
    let c = Command::build(args).unwrap();
    assert_eq!(c.name, "import");
    assert_eq!(c.description, "Import domains from Merlin");
    assert!(matches!(c.action, CommandOption::Import));
}

#[test]
fn build_update_command() {
    let args = vec!["xp_cli".to_string(), "update".to_string()];
    let c = Command::build(args).unwrap();
    assert_eq!(c.name, "update");
    assert_eq!(c.description, "Update domains from Merlin");
    assert!(matches!(c.action, CommandOption::Update));
}

#[test]
fn build_without_command_is_rejected() {
    let args = vec!["xp_cli".to_string()];
    let e = Command::build(args).unwrap_err();
    assert_eq!(e, "No command provided");
}

#[test]
fn build_empty_args_is_rejected() {
    let args: Vec<String> = Vec::new();
    let e = Command::build(args).unwrap_err();
    assert_eq!(e, "No command provided");
}

#[test]
fn build_unknown_command_is_rejected() {
    let args = vec!["xp_cli".to_string(), "frobnicate".to_string()];
    let e = Command::build(args).unwrap_err();
    assert_eq!(e, "Command not found");
}

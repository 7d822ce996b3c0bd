//! Tests of the manifest resolver: scope extraction, hook ordering, and
//! the error taxonomy.

use cargo_cmd::manifest::{get_commands, get_commands_from_str, parse_manifest, CmdError,
    ManifestCommands};

#[test]
fn test_get_commands_from_package_str() {
    let cargo_str = r#"
        [package]
        name = "test"
        version = "0.1.0"
        [package.metadata.commands]
        test = "echo 'test'"
        "#;

    let commands = get_commands_from_str(cargo_str).unwrap();
    assert_eq!(commands.len(), 1);
    assert_eq!(commands.get(&"test".to_string()), Some(&"echo 'test'".to_string()));
}

#[test]
fn test_get_commands_from_workspace_str() {
    let cargo_str = r#"
        [workspace]
        members = ["test"]
        [workspace.metadata.commands]
        test = "echo 'test from workspace'"
        "#;

    let commands = get_commands_from_str(cargo_str).unwrap();
    assert_eq!(commands.len(), 1);
    assert_eq!(
        commands.get(&"test".to_string()),
        Some(&"echo 'test from workspace'".to_string())
    );
}

#[test]
fn package_scope_resolves_single_entry() {
    let text = r#"
        [package.metadata.commands]
        test = "echo x"
        "#;
    let set = get_commands(text, &"test".to_string()).unwrap();
    assert_eq!(set, vec![("test".to_string(), "echo x".to_string())]);
}

#[test]
fn workspace_scope_resolves_like_package_scope() {
    let pkg = r#"
        [package.metadata.commands]
        test = "echo x"
        "#;
    let ws = r#"
        [workspace.metadata.commands]
        test = "echo x"
        "#;
    let from_pkg = get_commands(pkg, &"test".to_string()).unwrap();
    let from_ws = get_commands(ws, &"test".to_string()).unwrap();
    assert_eq!(from_pkg, from_ws);
}

#[test]
fn hooks_run_in_order() {
    let text = r#"
        [package.metadata.commands]
        posttest = "c"
        pretest = "a"
        test = "b"
        "#;
    let set = get_commands(text, &"test".to_string()).unwrap();
    assert_eq!(
        set,
        vec![
            ("pretest".to_string(), "a".to_string()),
            ("test".to_string(), "b".to_string()),
            ("posttest".to_string(), "c".to_string()),
        ]
    );
}

#[test]
fn lone_command_resolves_alone() {
    let text = r#"
        [package.metadata.commands]
        test = "b"
        "#;
    let set = get_commands(text, &"test".to_string()).unwrap();
    assert_eq!(set, vec![("test".to_string(), "b".to_string())]);
}

#[test]
fn missing_command_fails_despite_hooks() {
    let text = r#"
        [package.metadata.commands]
        pretest = "a"
        posttest = "c"
        "#;
    let err = get_commands(text, &"test".to_string()).unwrap_err();
    match &err {
        CmdError::CommandNotFound(name) => assert_eq!(name.as_str(), "test"),
        other => panic!("expected CommandNotFound, got {}", other.message()),
    }
    assert_eq!(err.message(), "Command \"test\" not found in Cargo.toml");
}

#[test]
fn neither_scope_is_a_schema_error() {
    let text = r#"
        [package]
        name = "test"
        version = "0.1.0"
        "#;
    let err = get_commands(text, &"test".to_string()).unwrap_err();
    assert!(matches!(err, CmdError::Schema));
    assert_eq!(err.message(), "Could not find commands in Cargo.toml");
}

#[test]
fn invalid_text_is_a_parse_error() {
    let err = get_commands_from_str("this is [not toml").unwrap_err();
    assert!(matches!(err, CmdError::Parse));
    assert_eq!(err.message(), "Could not find commands in Cargo.toml");
}

#[test]
fn non_string_command_is_a_parse_error() {
    let text = r#"
        [package.metadata.commands]
        test = 3
        "#;
    let err = get_commands_from_str(text).unwrap_err();
    assert!(matches!(err, CmdError::Parse));
}

#[test]
fn package_scope_wins_over_workspace_scope() {
    let text = r#"
        [package.metadata.commands]
        test = "from package"
        [workspace.metadata.commands]
        test = "from workspace"
        "#;
    let m = parse_manifest(text).unwrap();
    let table = match &m {
        ManifestCommands::Package(t) => t,
        _ => panic!("expected the package scope to be chosen"),
    };
    assert_eq!(table.get(&"test".to_string()), Some(&"from package".to_string()));
}

#[test]
fn workspace_scope_is_found_when_package_has_no_commands() {
    let text = r#"
        [package]
        name = "test"
        version = "0.1.0"
        [workspace.metadata.commands]
        test = "from workspace"
        "#;
    let m = parse_manifest(text).unwrap();
    assert!(matches!(m, ManifestCommands::Workspace(_)));
}

#[test]
fn empty_manifest_has_no_table() {
    let m = parse_manifest("").unwrap();
    assert!(matches!(m, ManifestCommands::Neither));
}

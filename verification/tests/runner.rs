//! Tests of the sequenced executor's decisions: the literal command line,
//! the progress lines, and exit-code propagation — the last also against a
//! real child shell.

use cargo_cmd::run::{command_line, echo_line, phase_label, step_decision, wants_labels,
    RunStatus, StepDecision};

fn status_of(result: std::io::Result<subprocess::ExitStatus>) -> RunStatus {
    match result {
        Err(_) => RunStatus::LaunchFailed,
        Ok(st) => match st.code() {
            Some(c) => RunStatus::Exited(c),
            None => RunStatus::AbnormalEnd,
        },
    }
}

#[test]
fn command_line_without_extra_args() {
    let line = command_line(&"echo hello".to_string(), &vec![]);
    assert_eq!(line, "echo hello");
}

#[test]
fn command_line_joins_extra_args_with_spaces() {
    let rest = vec!["--flag".to_string(), "value".to_string()];
    let line = command_line(&"echo hello".to_string(), &rest);
    assert_eq!(line, "echo hello --flag value");
}

#[test]
fn echo_line_prefixes_the_command() {
    let line = command_line(&"echo hello".to_string(), &vec![]);
    assert_eq!(echo_line(&line), "> echo hello");
}

#[test]
fn phase_label_brackets_the_name() {
    assert_eq!(phase_label(&"pretest".to_string()), "\n[pretest]");
    assert_eq!(phase_label(&"test".to_string()), "\n[test]");
}

#[test]
fn labels_only_for_multiple_phases() {
    assert!(!wants_labels(0));
    assert!(!wants_labels(1));
    assert!(wants_labels(2));
    assert!(wants_labels(3));
}

#[test]
fn zero_exit_proceeds() {
    assert_eq!(step_decision(&RunStatus::Exited(0)), StepDecision::Proceed);
}

#[test]
fn nonzero_exit_stops_with_that_code() {
    assert_eq!(step_decision(&RunStatus::Exited(3)), StepDecision::Stop(3));
    assert_eq!(step_decision(&RunStatus::Exited(255)), StepDecision::Stop(255));
}

#[test]
fn abnormal_end_stops_with_generic_code() {
    assert_eq!(step_decision(&RunStatus::AbnormalEnd), StepDecision::Stop(1));
    assert_eq!(step_decision(&RunStatus::LaunchFailed), StepDecision::Stop(1));
}

#[test]
fn child_exit_code_propagates() {
    let status = status_of(subprocess::Exec::shell("exit 3").join());
    assert_eq!(status, RunStatus::Exited(3));
    assert_eq!(step_decision(&status), StepDecision::Stop(3));
}

#[test]
fn successful_child_proceeds() {
    let status = status_of(subprocess::Exec::shell("true").join());
    assert_eq!(status, RunStatus::Exited(0));
    assert_eq!(step_decision(&status), StepDecision::Proceed);
}

#[test]
fn child_output_streams_through_the_shell() {
    let captured = subprocess::Exec::shell("echo hello")
        .stdout(subprocess::Redirection::Pipe)
        .capture()
        .unwrap();
    assert_eq!(captured.stdout_str(), "hello\n");
}

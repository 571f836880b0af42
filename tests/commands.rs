use forest::commands::{kill_finished, kill_session, list_finished, list_sessions};
use forest::error::SessionError;
use forest::outcome::{exit_result, Exit};

#[test]
fn kill_tears_down_label() {
    let call = kill_session("feat/cool").unwrap();
    assert_eq!(call.program, "devcontainer");
    assert_eq!(call.args, vec!["down", "--id-label", "name=feat-cool"]);
    assert_eq!(call.cwd, None);
}

#[test]
fn kill_without_session_succeeds() {
    assert_eq!(kill_finished("ghost", Exit::Success), Ok("Killed session ghost".to_string()));
}

#[test]
fn kill_reports_failure() {
    let err = kill_finished("x", Exit::Failure).unwrap_err();
    assert_eq!(err.message(), "devcontainer down failed");
    let err = kill_finished("x", Exit::NotInstalled).unwrap_err();
    assert_eq!(err, SessionError::NotInstalled { tool: "devcontainer".to_string() });
}

#[test]
fn list_call_and_outcome() {
    let call = list_sessions();
    assert_eq!(call.program, "devcontainer");
    assert_eq!(call.args, vec!["list"]);
    assert_eq!(list_finished(Exit::Success), Ok(()));
    assert_eq!(list_finished(Exit::Failure), Ok(()));
    assert!(list_finished(Exit::NotInstalled).is_err());
}

#[test]
fn exit_results() {
    assert_eq!(exit_result(Exit::Success, "git", "git branch"), Ok(()));
    assert_eq!(
        exit_result(Exit::Failure, "gh", "gh repo create").unwrap_err().message(),
        "gh repo create failed"
    );
    assert_eq!(
        exit_result(Exit::NotInstalled, "gh", "gh repo create").unwrap_err().message(),
        "gh command not found"
    );
}

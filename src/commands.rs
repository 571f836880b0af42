//! Tearing a session down and listing sessions.
use vstd::prelude::*;

use crate::calls::{down_call, down_model, list_call, list_model, ToolCall, ToolCallModel};
use crate::error::{ErrorModel, SessionError};
use crate::naming::{
    is_valid_label, lemma_sanitized_is_valid, sanitize_podman_name, sanitized, valid_podman_name,
};
use crate::outcome::{exit_outcome, exit_result, Exit};

verus! {

/// The message once a session has been torn down.
pub open spec fn killed_message(name: Seq<char>) -> Seq<char> {
    "Killed session "@ + name
}

/// The teardown call for the session `name`.
pub open spec fn kill_call(name: Seq<char>) -> Result<ToolCallModel, ErrorModel> {
    if is_valid_label(sanitized(name)) {
        Ok(down_model(sanitized(name)))
    } else {
        Err(ErrorModel::InvalidName { name })
    }
}

/// What killing the session `name` reports once its teardown call ended
/// with `exit`: the outcome depends on that exit alone, not on whether an
/// environment existed.
pub open spec fn kill_outcome(name: Seq<char>, exit: Exit) -> Result<Seq<char>, ErrorModel> {
    match exit_outcome(exit, "devcontainer"@, "devcontainer down"@) {
        Ok(()) => Ok(killed_message(name)),
        Err(e) => Err(e),
    }
}

/// Killing a session that has no environment succeeds: every name yields a
/// teardown call, no probe for the environment comes first, and a teardown
/// that the tool reports as done (as it does when there is nothing to tear
/// down) makes the kill succeed.
pub proof fn lemma_kill_without_session(name: Seq<char>)
    ensures
        kill_call(name) == Ok::<ToolCallModel, ErrorModel>(down_model(sanitized(name))),
        kill_outcome(name, Exit::Success) == Ok::<Seq<char>, ErrorModel>(killed_message(name)),
{
    lemma_sanitized_is_valid(name);
}

/// The teardown call for the session `name`.
pub fn kill_session(name: &str) -> (r: Result<ToolCall, SessionError>)
    ensures
        match kill_call(name@) {
            Ok(c) => r is Ok && r->Ok_0@ == c,
            Err(e) => r is Err && r->Err_0@ == e,
        },
{
    let label = sanitize_podman_name(name);
    if !valid_podman_name(label.as_str()) {
        return Err(SessionError::InvalidName { name: String::from_str(name) });
    }
    Ok(down_call(label.as_str()))
}

/// The outcome of tearing down the session `name` once the teardown call
/// ended with `exit`: the message to show, or the error.
pub fn kill_finished(name: &str, exit: Exit) -> (r: Result<String, SessionError>)
    ensures
        match kill_outcome(name@, exit) {
            Ok(m) => r is Ok && r->Ok_0@ == m,
            Err(e) => r is Err && r->Err_0@ == e,
        },
{
    match exit_result(exit, "devcontainer", "devcontainer down") {
        Ok(()) => Ok(String::from_str("Killed session ").concat(name)),
        Err(e) => Err(e),
    }
}

/// The call that lists sessions.
pub fn list_sessions() -> (r: ToolCall)
    ensures
        r@ == list_model(),
{
    list_call()
}

/// The outcome of listing once the call ended with `exit`: the listing's
/// own status is not an error, a missing tool is.
pub fn list_finished(exit: Exit) -> (r: Result<(), SessionError>)
    ensures
        exit == Exit::NotInstalled ==> r is Err && r->Err_0@ == (ErrorModel::NotInstalled {
            tool: "devcontainer"@,
        }),
        exit != Exit::NotInstalled ==> r is Ok,
{
    match exit {
        Exit::NotInstalled => Err(SessionError::NotInstalled { tool: String::from_str("devcontainer") }),
        _ => Ok(()),
    }
}

} // verus!

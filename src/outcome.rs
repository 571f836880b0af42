//! How the exit of an external program is read.
use vstd::prelude::*;

use crate::error::{ErrorModel, SessionError};

verus! {

/// How an external program ended.
#[derive(Clone, Copy, PartialEq, Eq, Structural, Debug)]
pub enum Exit {
    /// It ran and reported success.
    Success,
    /// It ran and reported failure.
    Failure,
    /// The executable could not be found.
    NotInstalled,
}

/// The result of the program `tool` running `step` and ending with `exit`.
pub open spec fn exit_outcome(exit: Exit, tool: Seq<char>, step: Seq<char>) -> Result<(), ErrorModel> {
    match exit {
        Exit::Success => Ok(()),
        Exit::Failure => Err(ErrorModel::ToolFailed { step }),
        Exit::NotInstalled => Err(ErrorModel::NotInstalled { tool }),
    }
}

pub open spec fn result_view(r: Result<(), SessionError>) -> Result<(), ErrorModel> {
    match r {
        Ok(()) => Ok(()),
        Err(e) => Err(e@),
    }
}

/// Reads the exit of the program `tool` running `step`.
pub fn exit_result(exit: Exit, tool: &str, step: &str) -> (r: Result<(), SessionError>)
    ensures
        result_view(r) == exit_outcome(exit, tool@, step@),
{
    match exit {
        Exit::Success => Ok(()),
        Exit::Failure => Err(SessionError::ToolFailed { step: String::from_str(step) }),
        Exit::NotInstalled => Err(SessionError::NotInstalled { tool: String::from_str(tool) }),
    }
}

} // verus!

//! The conditions that end a session operation.
use vstd::prelude::*;

use crate::text::same_text;

verus! {

/// Why a session operation stopped.
#[derive(Debug, Clone, PartialEq, Eq)]
pub enum SessionError {
    /// The named executable could not be found.
    NotInstalled { tool: String },
    /// An external step ran and reported failure.
    ToolFailed { step: String },
    /// The interactive shell inside the environment exited with failure.
    ExecFailed,
    /// The session name does not yield a well-formed label.
    InvalidName { name: String },
    /// The repository root has no final path component.
    RepoNameUnknown,
    /// The requested environment has no descriptor.
    EnvironmentNotFound { env: String },
    /// The descriptor file could not be read.
    DescriptorUnreadable { path: String },
    /// The descriptor file is not a JSON document.
    InvalidJson { path: String },
    /// The descriptor names neither an image nor a build.
    ImageMissing,
    /// The descriptor's build section names no dockerfile.
    DockerfileMissing,
    /// A directory could not be created.
    DirectoryFailed { path: String },
    /// The default descriptor could not be written.
    ScaffoldFailed { path: String },
}

/// The content of a `SessionError`.
pub ghost enum ErrorModel {
    NotInstalled { tool: Seq<char> },
    ToolFailed { step: Seq<char> },
    ExecFailed,
    InvalidName { name: Seq<char> },
    RepoNameUnknown,
    EnvironmentNotFound { env: Seq<char> },
    DescriptorUnreadable { path: Seq<char> },
    InvalidJson { path: Seq<char> },
    ImageMissing,
    DockerfileMissing,
    DirectoryFailed { path: Seq<char> },
    ScaffoldFailed { path: Seq<char> },
}

impl View for SessionError {
    type V = ErrorModel;

    open spec fn view(&self) -> ErrorModel {
        match self {
            SessionError::NotInstalled { tool } => ErrorModel::NotInstalled { tool: tool@ },
            SessionError::ToolFailed { step } => ErrorModel::ToolFailed { step: step@ },
            SessionError::ExecFailed => ErrorModel::ExecFailed,
            SessionError::InvalidName { name } => ErrorModel::InvalidName { name: name@ },
            SessionError::RepoNameUnknown => ErrorModel::RepoNameUnknown,
            SessionError::EnvironmentNotFound { env } => ErrorModel::EnvironmentNotFound {
                env: env@,
            },
            SessionError::DescriptorUnreadable { path } => ErrorModel::DescriptorUnreadable {
                path: path@,
            },
            SessionError::InvalidJson { path } => ErrorModel::InvalidJson { path: path@ },
            SessionError::ImageMissing => ErrorModel::ImageMissing,
            SessionError::DockerfileMissing => ErrorModel::DockerfileMissing,
            SessionError::DirectoryFailed { path } => ErrorModel::DirectoryFailed { path: path@ },
            SessionError::ScaffoldFailed { path } => ErrorModel::ScaffoldFailed { path: path@ },
        }
    }
}

/// What is said to the operator about `e`.
pub open spec fn error_text(e: SessionError) -> Seq<char> {
    match e {
        SessionError::NotInstalled { tool } => {
            if tool@ == "devcontainer"@ {
                tool@ + " command not found. Please install @devcontainers/cli"@
            } else {
                tool@ + " command not found"@
            }
        },
        SessionError::ToolFailed { step } => step@ + " failed"@,
        SessionError::ExecFailed => "devcontainer exec failed"@,
        SessionError::InvalidName { name } => "invalid session name: "@ + name@,
        SessionError::RepoNameUnknown => "failed to determine repo name"@,
        SessionError::EnvironmentNotFound { env } => "devcontainer "@ + env@ + " not found"@,
        SessionError::DescriptorUnreadable { path } => "cannot read devcontainer "@ + path@,
        SessionError::InvalidJson { path } => "invalid JSON in devcontainer "@ + path@,
        SessionError::ImageMissing => "image field missing in devcontainer"@,
        SessionError::DockerfileMissing => "dockerfile field missing in devcontainer build"@,
        SessionError::DirectoryFailed { path } => "failed to create directory "@ + path@,
        SessionError::ScaffoldFailed { path } => "failed to write default devcontainer "@ + path@,
    }
}

impl SessionError {
    /// The diagnostic for this condition.
    pub fn message(&self) -> (r: String)
        ensures
            r@ == error_text(*self),
    {
        match self {
            SessionError::NotInstalled { tool } => {
                let is_devcontainer = same_text(tool.as_str(), "devcontainer");
                if is_devcontainer {
                    tool.clone().concat(" command not found. Please install @devcontainers/cli")
                } else {
                    tool.clone().concat(" command not found")
                }
            },
            SessionError::ToolFailed { step } => step.clone().concat(" failed"),
            SessionError::ExecFailed => String::from_str("devcontainer exec failed"),
            SessionError::InvalidName { name } => String::from_str("invalid session name: ").concat(
                name.as_str(),
            ),
            SessionError::RepoNameUnknown => String::from_str("failed to determine repo name"),
            SessionError::EnvironmentNotFound { env } => String::from_str("devcontainer ").concat(
                env.as_str(),
            ).concat(" not found"),
            SessionError::DescriptorUnreadable { path } => String::from_str(
                "cannot read devcontainer ",
            ).concat(path.as_str()),
            SessionError::InvalidJson { path } => String::from_str(
                "invalid JSON in devcontainer ",
            ).concat(path.as_str()),
            SessionError::ImageMissing => String::from_str("image field missing in devcontainer"),
            SessionError::DockerfileMissing => String::from_str(
                "dockerfile field missing in devcontainer build",
            ),
            SessionError::DirectoryFailed { path } => String::from_str(
                "failed to create directory ",
            ).concat(path.as_str()),
            SessionError::ScaffoldFailed { path } => String::from_str(
                "failed to write default devcontainer ",
            ).concat(path.as_str()),
        }
    }
}

} // verus!

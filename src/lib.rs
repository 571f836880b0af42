//! Session lifecycle management for git worktrees paired with devcontainer
//! environments.

pub mod calls;
pub mod commands;
pub mod config;
pub mod descriptor;
pub mod error;
pub mod json;
pub mod naming;
pub mod outcome;
pub mod precheck;
pub mod session;
pub mod text;
pub mod workspace;
pub mod world;

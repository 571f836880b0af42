//! User configuration.
use vstd::prelude::*;

verus! {

/// The settings read from the user's configuration file.
#[derive(Debug, Clone, PartialEq, Eq)]
pub struct Config {
    /// The organisation under which a missing remote is created; none means
    /// remotes are never created.
    pub githuborg: Option<String>,
}

impl Config {
    /// A configuration with no setting.
    pub fn empty() -> (r: Config)
        ensures
            r.githuborg is None,
    {
        Config { githuborg: None }
    }
}

} // verus!

//! Deployment profiles.

use vstd::prelude::*;

verus! {

/// The deployment context that selects default network and policy settings.
#[derive(Clone, Copy, Debug, PartialEq, Eq, Structural)]
pub enum Build {
    Development,
    Production,
}

impl Build {
    /// The configuration file that belongs to this profile, relative to the
    /// working directory.
    pub fn config_path(self) -> (path: &'static str)
        ensures
            path@ == config_path_of(self),
    {
        match self {
            Build::Development => "config/Development.toml",
            Build::Production => "config/Production.toml",
        }
    }
}

/// The text of the configuration path of each profile.
pub open spec fn config_path_of(build: Build) -> Seq<char> {
    match build {
        Build::Development => "config/Development.toml"@,
        Build::Production => "config/Production.toml"@,
    }
}

} // verus!

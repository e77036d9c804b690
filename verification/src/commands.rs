//! The command data model: what each command of the tool carries, free of
//! any argument-parsing or I/O concern. Addresses, paths and queries are
//! byte strings.

use vstd::prelude::*;

verus! {

/// Clone a remote repository under the workspace root, or update or
/// replace an existing checkout of it.
pub struct Get {
    /// Update an already cloned repository (a fast-forward-only pull).
    pub update: bool,
    /// Use ssh.
    pub ssh: bool,
    /// Replace the local repository.
    pub replace: bool,
    /// The remote address.
    pub remote: Option<Vec<u8>>,
}

/// Print the repositories of the workspace, relative to its root.
pub struct List {
    /// Print full paths instead of root-relative ones.
    pub full_path: bool,
    /// Match the query against the final path segment only.
    pub exact: bool,
    /// The search query.
    pub query: Option<Vec<u8>>,
}

/// Look inside one repository of the workspace.
pub struct Look {
    /// The repository to look in.
    pub repository: Vec<u8>,
}

/// Print the workspace root.
pub struct Root {
    /// Print all known roots.
    pub all: bool,
}

/// A command of the tool.
pub enum Grm {
    Get(Get),
    List(List),
    Root(Root),
}

/// Failure to resolve the workspace root from the ambient configuration.
#[derive(Debug, PartialEq, Eq, Structural)]
pub enum ConfigError {
    ErrConfigNotFound,
    ErrHomeNotFound,
}

impl ConfigError {
    /// The message shown for this failure.
    pub fn message(&self) -> (m: &'static str)
        ensures
            (self is ErrConfigNotFound ==> m@ == "No git config found, do you have git installed?"@),
            (self is ErrHomeNotFound ==> m@ == "No home directory found"@),
    {
        match self {
            ConfigError::ErrConfigNotFound => "No git config found, do you have git installed?",
            ConfigError::ErrHomeNotFound => "No home directory found",
        }
    }
}

} // verus!

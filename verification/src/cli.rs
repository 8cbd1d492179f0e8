//! The command line: `uplate [source] [destination]` or one of the
//! subcommands `create`, `adopt`, `status` and `upgrade`.
use vstd::prelude::*;

verus! {

/// The whole command line.
#[derive(Debug, Clone)]
pub struct Cli {
    /// The subcommand, if one was given.
    pub command: Option<Command>,
    /// Template source for the shorthand create, e.g. `uplate source destination`.
    pub source: Option<String>,
    /// Destination directory for the shorthand create.
    pub destination: Option<String>,
}

/// A subcommand.
#[derive(Debug, Clone)]
pub enum Command {
    /// Create a new project from a boilerplate.
    Create(CreateArgs),
    /// Adopt an existing project created from a boilerplate.
    Adopt(AdoptArgs),
    /// Show whether a boilerplate update is available.
    Status(StatusArgs),
    /// Upgrade the current project from its boilerplate source.
    Upgrade(UpgradeArgs),
}

/// Arguments of `create`.
#[derive(Debug, Clone)]
pub struct CreateArgs {
    /// Template source, e.g. `owner/repo/path` or `https://gitlab.com/group/project`.
    pub source: Option<String>,
    /// Destination directory; prompted for when missing.
    pub destination: Option<String>,
}

/// Arguments of `adopt`.
#[derive(Debug, Clone)]
pub struct AdoptArgs {
    /// Template source, e.g. `owner/repo/path` or `https://gitlab.com/group/project`.
    pub source: Option<String>,
    /// Base commit or tag of the boilerplate that this project was created from.
    pub base: Option<String>,
}

/// Arguments of `status` (none).
#[derive(Debug, Clone)]
pub struct StatusArgs {}

/// Arguments of `upgrade`.
#[derive(Debug, Clone, Copy, PartialEq, Eq, Structural)]
pub struct UpgradeArgs {
    /// Preview the upgrade without modifying the working tree.
    pub dry_run: bool,
    /// Print a conflict-resolution prompt for coding agents if the upgrade cannot be applied cleanly.
    pub prompt: bool,
}

} // verus!

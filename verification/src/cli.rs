//! The operator's intent, as plain values.
//!
//! The binary parses the command line into its own argument types and hands
//! the library this mirror of them.

use vstd::prelude::*;

verus! {

/// One invocation of the tool.
#[derive(Debug, Clone)]
pub struct Cli {
    pub command: Commands,
}

/// The tool's subcommands.
#[derive(Debug, Clone)]
pub enum Commands {
    /// Ship the delta between two branches.
    B2b {
        source: String,
        target: String,
        ai: bool,
        dryrun: bool,
        dir: Option<String>,
        /// The platform identifier: `owner/repo` for GitHub, a numeric
        /// project id for GitLab. Optional only under a dry run.
        id: Option<String>,
    },
    /// Inspect or (re)create the on-disk configuration.
    Config { subcommand: ConfigCommands },
}

/// What to do with the on-disk configuration.
#[derive(Debug, Clone)]
pub enum ConfigCommands {
    Generate,
    Show,
}

} // verus!

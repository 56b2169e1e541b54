//! The run context: loaded settings with the command line folded in.

use vstd::prelude::*;
use crate::cli::{Cli, Commands};
use crate::settings::Settings;

verus! {

/// The settings one pipeline run goes by.
#[derive(Debug, Clone)]
pub struct Context {
    pub settings: Settings,
}

impl Context {
    /// Folds the command-line switches into freshly loaded settings: on a
    /// shipping run the `ai` and `dryrun` flags override the stored ones; a
    /// configuration command leaves the settings untouched.
    pub fn from_cli(args: &Cli, settings: Settings) -> (r: Context)
        ensures
            args.command matches Commands::B2b { ai, dryrun, .. } ==> {
                &&& r.settings.shipit.ai == ai
                &&& r.settings.shipit.dryrun == dryrun
                &&& r.settings.shipit.agent == settings.shipit.agent
                &&& r.settings.shipit.commits == settings.shipit.commits
                &&& r.settings.ollama == settings.ollama
                &&& r.settings.github == settings.github
                &&& r.settings.gitlab == settings.gitlab
            },
            args.command is Config ==> r.settings == settings,
    {
        let mut settings = settings;
        match &args.command {
            Commands::B2b { ai, dryrun, .. } => {
                settings.shipit.ai = *ai;
                settings.shipit.dryrun = *dryrun;
            },
            Commands::Config { .. } => {},
        }
        Context { settings }
    }
}

} // verus!

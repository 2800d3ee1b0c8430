//! The command set and the pure decisions behind command handling: which
//! commands need a configuration file, and which logical branch a fresh
//! checkout defaults to.

use vstd::prelude::*;
use vstd::string::*;

use crate::classify::spec_should_create;
use crate::config::Config;
use crate::text::{sanitize, str_eq};

verus! {

/// The commands the tool offers.
#[derive(Clone, Debug)]
pub enum Commands {
    Create { branch_name: String },
    Delete { branch_name: String },
    List,
    Init { force: bool },
    Cleanup { max_count: Option<usize> },
    Config,
    ConfigShow,
    InstallHooks,
    UninstallHooks,
    Check,
    GitHook,
    Templates { branch_name: Option<String> },
    TestPostCommands { branch_name: String },
    Switch { branch_name: Option<String>, template: bool },
    TestSwitch { branch_name: String },
}

/// The commands that cannot run without a configuration file on disk.
pub open spec fn spec_requires_config(cmd: Commands) -> bool {
    match cmd {
        Commands::Create { .. } => true,
        Commands::Delete { .. } => true,
        Commands::List => true,
        Commands::Cleanup { .. } => true,
        Commands::GitHook => true,
        Commands::Templates { .. } => true,
        Commands::TestPostCommands { .. } => true,
        Commands::Switch { .. } => true,
        Commands::TestSwitch { .. } => true,
        _ => false,
    }
}

/// Whether a command requires a configuration file to be found.
pub fn requires_config(cmd: &Commands) -> (r: bool)
    ensures
        r == spec_requires_config(*cmd),
{
    match cmd {
        Commands::Create { .. } => true,
        Commands::Delete { .. } => true,
        Commands::List => true,
        Commands::Cleanup { .. } => true,
        Commands::GitHook => true,
        Commands::Templates { .. } => true,
        Commands::TestPostCommands { .. } => true,
        Commands::Switch { .. } => true,
        Commands::TestSwitch { .. } => true,
        _ => false,
    }
}

/// The logical branch assumed when no local state exists: the template
/// marker on the main Git branch, the sanitized branch name when the
/// branch would create a database branch, and the template marker in
/// every other case, including an unreadable repository.
pub open spec fn spec_default_current_branch(cfg: Config, git_branch: Option<Seq<char>>) -> Seq<
    char,
> {
    match git_branch {
        Some(b) => if b == cfg.git.main_branch@ {
            "_main"@
        } else if spec_should_create(cfg, b) {
            sanitize(b)
        } else {
            "_main"@
        },
        None => "_main"@,
    }
}

/// The default logical branch for a checkout without local state, from
/// the current Git branch when one is readable.
pub fn detect_default_current_branch(config: &Config, current_git_branch: Option<&str>) -> (r:
    Option<String>)
    ensures
        r is Some,
        r->0@ == spec_default_current_branch(
            *config,
            match current_git_branch {
                Some(b) => Some(b@),
                None => None,
            },
        ),
{
    match current_git_branch {
        Some(branch) => {
            if str_eq(branch, config.git.main_branch.as_str()) {
                Some(String::from_str("_main"))
            } else if config.should_create_branch(branch) {
                Some(config.get_normalized_branch_name(branch))
            } else {
                Some(String::from_str("_main"))
            }
        },
        None => Some(String::from_str("_main")),
    }
}

/// The logical branch to display or act on: the stored state when there
/// is one, the detected default otherwise.
pub fn get_current_branch_with_default(
    stored: Option<&String>,
    config: &Config,
    current_git_branch: Option<&str>,
) -> (r: Option<String>)
    ensures
        r is Some,
        r->0@ == (match stored {
            Some(s) => s@,
            None => spec_default_current_branch(
                *config,
                match current_git_branch {
                    Some(b) => Some(b@),
                    None => None,
                },
            ),
        }),
{
    match stored {
        Some(s) => Some(s.clone()),
        None => detect_default_current_branch(config, current_git_branch),
    }
}

} // verus!

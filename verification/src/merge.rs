//! Resolution of the three configuration layers into one effective
//! configuration: precedence is environment over local overlay over base
//! file over built-in default, and the disabled-branch lists of the
//! environment and the local overlay are combined as a union.

use vstd::prelude::*;
use vstd::string::*;

use crate::classify::{any_pattern_matches, branch_matches_patterns};
use crate::config::{
    AuthConfig, AuthMethod, BehaviorConfig, Config, DatabaseConfig, EffectiveConfig, EnvConfig, GitConfig,
    LocalAuthConfig, LocalBehaviorConfig, LocalConfig, LocalDatabaseConfig, LocalGitConfig,
    NamingStrategy, PostCommand, clone_auth_methods, clone_opt_string, clone_post_commands,
    clone_strings, post_commands_eq,
};

verus! {

/// The database section of the local overlay, when both are present.
pub open spec fn local_database(l: Option<LocalConfig>) -> Option<LocalDatabaseConfig> {
    match l {
        Some(lc) => lc.database,
        None => None,
    }
}

/// The auth section of the local overlay, when present.
pub open spec fn local_auth(l: Option<LocalConfig>) -> Option<LocalAuthConfig> {
    match local_database(l) {
        Some(d) => d.auth,
        None => None,
    }
}

/// The git section of the local overlay, when present.
pub open spec fn local_git(l: Option<LocalConfig>) -> Option<LocalGitConfig> {
    match l {
        Some(lc) => lc.git,
        None => None,
    }
}

/// The behavior section of the local overlay, when present.
pub open spec fn local_behavior(l: Option<LocalConfig>) -> Option<LocalBehaviorConfig> {
    match l {
        Some(lc) => lc.behavior,
        None => None,
    }
}

/// Merged database host: environment, then local overlay, then base.
pub open spec fn merged_host(c: Config, l: Option<LocalConfig>, e: EnvConfig) -> String {
    if e.database_host is Some {
        e.database_host->0
    } else if local_database(l) is Some && local_database(l)->0.host is Some {
        local_database(l)->0.host->0
    } else {
        c.database.host
    }
}

/// Merged database port: environment, then local overlay, then base.
pub open spec fn merged_port(c: Config, l: Option<LocalConfig>, e: EnvConfig) -> u16 {
    if e.database_port is Some {
        e.database_port->0
    } else if local_database(l) is Some && local_database(l)->0.port is Some {
        local_database(l)->0.port->0
    } else {
        c.database.port
    }
}

/// Merged database user: environment, then local overlay, then base.
pub open spec fn merged_user(c: Config, l: Option<LocalConfig>, e: EnvConfig) -> String {
    if e.database_user is Some {
        e.database_user->0
    } else if local_database(l) is Some && local_database(l)->0.user is Some {
        local_database(l)->0.user->0
    } else {
        c.database.user
    }
}

/// Merged password: an environment or local value overrides; otherwise the
/// base value, which may itself be absent.
pub open spec fn merged_password(c: Config, l: Option<LocalConfig>, e: EnvConfig) -> Option<
    String,
> {
    if e.database_password is Some {
        Some(e.database_password->0)
    } else if local_database(l) is Some && local_database(l)->0.password is Some {
        Some(local_database(l)->0.password->0)
    } else {
        c.database.password
    }
}

/// Merged template database: local overlay over base; no environment
/// variable exists for it.
pub open spec fn merged_template_database(c: Config, l: Option<LocalConfig>) -> String {
    if local_database(l) is Some && local_database(l)->0.template_database is Some {
        local_database(l)->0.template_database->0
    } else {
        c.database.template_database
    }
}

/// Merged database prefix: environment, then local overlay, then base.
pub open spec fn merged_database_prefix(c: Config, l: Option<LocalConfig>, e: EnvConfig) -> String {
    if e.database_prefix is Some {
        e.database_prefix->0
    } else if local_database(l) is Some && local_database(l)->0.database_prefix is Some {
        local_database(l)->0.database_prefix->0
    } else {
        c.database.database_prefix
    }
}

/// Merged ordered list of authentication methods: local overlay over base.
pub open spec fn merged_auth_methods(c: Config, l: Option<LocalConfig>) -> Seq<AuthMethod> {
    if local_auth(l) is Some && local_auth(l)->0.methods is Some {
        local_auth(l)->0.methods->0@
    } else {
        c.database.auth.methods@
    }
}

/// Merged pgpass file path: a local value overrides; base otherwise.
pub open spec fn merged_pgpass_file(c: Config, l: Option<LocalConfig>) -> Option<String> {
    if local_auth(l) is Some && local_auth(l)->0.pgpass_file is Some {
        Some(local_auth(l)->0.pgpass_file->0)
    } else {
        c.database.auth.pgpass_file
    }
}

/// Merged service name: a local value overrides; base otherwise.
pub open spec fn merged_service_name(c: Config, l: Option<LocalConfig>) -> Option<String> {
    if local_auth(l) is Some && local_auth(l)->0.service_name is Some {
        Some(local_auth(l)->0.service_name->0)
    } else {
        c.database.auth.service_name
    }
}

/// Merged password-prompt flag: local overlay over base.
pub open spec fn merged_prompt_for_password(c: Config, l: Option<LocalConfig>) -> bool {
    if local_auth(l) is Some && local_auth(l)->0.prompt_for_password is Some {
        local_auth(l)->0.prompt_for_password->0
    } else {
        c.database.auth.prompt_for_password
    }
}

/// Merged auto-create flag: environment, then local overlay, then base.
pub open spec fn merged_auto_create(c: Config, l: Option<LocalConfig>, e: EnvConfig) -> bool {
    if e.auto_create is Some {
        e.auto_create->0
    } else if local_git(l) is Some && local_git(l)->0.auto_create_on_branch is Some {
        local_git(l)->0.auto_create_on_branch->0
    } else {
        c.git.auto_create_on_branch
    }
}

/// Merged auto-switch flag: environment, then local overlay, then base.
pub open spec fn merged_auto_switch(c: Config, l: Option<LocalConfig>, e: EnvConfig) -> bool {
    if e.auto_switch is Some {
        e.auto_switch->0
    } else if local_git(l) is Some && local_git(l)->0.auto_switch_on_branch is Some {
        local_git(l)->0.auto_switch_on_branch->0
    } else {
        c.git.auto_switch_on_branch
    }
}

/// Merged main-branch name: local overlay over base.
pub open spec fn merged_main_branch(c: Config, l: Option<LocalConfig>) -> String {
    if local_git(l) is Some && local_git(l)->0.main_branch is Some {
        local_git(l)->0.main_branch->0
    } else {
        c.git.main_branch
    }
}

/// Merged auto-create filter: a local value overrides; base otherwise.
pub open spec fn merged_auto_create_branch_filter(c: Config, l: Option<LocalConfig>) -> Option<
    String,
> {
    if local_git(l) is Some && local_git(l)->0.auto_create_branch_filter is Some {
        Some(local_git(l)->0.auto_create_branch_filter->0)
    } else {
        c.git.auto_create_branch_filter
    }
}

/// Merged branch filter regex: environment, then local overlay, then base.
pub open spec fn merged_branch_filter_regex(c: Config, l: Option<LocalConfig>, e: EnvConfig) -> Option<
    String,
> {
    if e.branch_filter_regex is Some {
        Some(e.branch_filter_regex->0)
    } else if local_git(l) is Some && local_git(l)->0.branch_filter_regex is Some {
        Some(local_git(l)->0.branch_filter_regex->0)
    } else {
        c.git.branch_filter_regex
    }
}

/// Merged excluded branches: local overlay over base, replaced wholesale.
pub open spec fn merged_exclude_branches(c: Config, l: Option<LocalConfig>) -> Seq<String> {
    if local_git(l) is Some && local_git(l)->0.exclude_branches is Some {
        local_git(l)->0.exclude_branches->0@
    } else {
        c.git.exclude_branches@
    }
}

/// Merged auto-cleanup flag: local overlay over base.
pub open spec fn merged_auto_cleanup(c: Config, l: Option<LocalConfig>) -> bool {
    if local_behavior(l) is Some && local_behavior(l)->0.auto_cleanup is Some {
        local_behavior(l)->0.auto_cleanup->0
    } else {
        c.behavior.auto_cleanup
    }
}

/// Merged branch cap: a local value overrides; base otherwise.
pub open spec fn merged_max_branches(c: Config, l: Option<LocalConfig>) -> Option<usize> {
    if local_behavior(l) is Some && local_behavior(l)->0.max_branches is Some {
        Some(local_behavior(l)->0.max_branches->0)
    } else {
        c.behavior.max_branches
    }
}

/// Merged naming strategy: local overlay over base.
pub open spec fn merged_naming_strategy(c: Config, l: Option<LocalConfig>) -> NamingStrategy {
    if local_behavior(l) is Some && local_behavior(l)->0.naming_strategy is Some {
        local_behavior(l)->0.naming_strategy->0
    } else {
        c.behavior.naming_strategy
    }
}

/// Merged post-commands: the local overlay's list replaces the base list
/// wholesale when present; the lists are never merged element-wise.
pub open spec fn merged_post_commands(c: Config, l: Option<LocalConfig>) -> Seq<PostCommand> {
    if l is Some && l->0.post_commands is Some {
        l->0.post_commands->0@
    } else {
        c.post_commands@
    }
}

/// The branch is disabled by some pattern of the environment list or of
/// the local overlay list: the two lists form a union, neither overrides
/// the other.
pub open spec fn spec_branch_disabled(ec: EffectiveConfig, branch: Seq<char>) -> bool {
    ||| (ec.env_config.disabled_branches is Some && any_pattern_matches(
        ec.env_config.disabled_branches->0.deep_view(),
        branch,
    ))
    ||| (ec.local_config is Some && ec.local_config->0.disabled_branches is Some
        && any_pattern_matches(ec.local_config->0.disabled_branches->0.deep_view(), branch))
}

/// The view of an optional current Git branch name.
pub open spec fn opt_str_view(o: Option<&str>) -> Option<Seq<char>> {
    match o {
        Some(s) => Some(s@),
        None => None,
    }
}

/// Whether branch-aware work is disabled for the current Git branch:
/// forced by the dedicated environment flag, otherwise decided by the
/// disabled-branch lists; without a resolvable branch nothing is disabled.
pub open spec fn spec_current_git_branch_disabled(ec: EffectiveConfig, cur: Option<Seq<char>>) -> bool {
    ec.current_branch_disabled || (cur is Some && spec_branch_disabled(ec, cur->0))
}

impl EffectiveConfig {
    /// Combines the three layers and pre-computes the gating booleans:
    /// `disabled` is the environment value, else the local value, else
    /// false; `skip_hooks` and `current_branch_disabled` come from the
    /// environment alone.
    pub fn new(config: Config, local_config: Option<LocalConfig>, env_config: EnvConfig) -> (r:
        EffectiveConfig)
        ensures
            r.config == config,
            r.local_config == local_config,
            r.env_config == env_config,
            r.disabled == (if env_config.disabled is Some {
                env_config.disabled->0
            } else if local_config is Some && local_config->0.disabled is Some {
                local_config->0.disabled->0
            } else {
                false
            }),
            r.skip_hooks == (if env_config.skip_hooks is Some {
                env_config.skip_hooks->0
            } else {
                false
            }),
            r.current_branch_disabled == (if env_config.current_branch_disabled is Some {
                env_config.current_branch_disabled->0
            } else {
                false
            }),
    {
        let disabled: bool = match env_config.disabled {
            Some(d) => d,
            None => match &local_config {
                Some(lc) => match lc.disabled {
                    Some(d) => d,
                    None => false,
                },
                None => false,
            },
        };
        let skip_hooks: bool = match env_config.skip_hooks {
            Some(s) => s,
            None => false,
        };
        let current_branch_disabled: bool = match env_config.current_branch_disabled {
            Some(s) => s,
            None => false,
        };
        EffectiveConfig { config, local_config, env_config, disabled, skip_hooks, current_branch_disabled }
    }

    /// Whether the whole tool is disabled.
    pub fn is_disabled(&self) -> (r: bool)
        ensures
            r == self.disabled,
    {
        self.disabled
    }

    /// Whether Git hooks are to be skipped.
    pub fn should_skip_hooks(&self) -> (r: bool)
        ensures
            r == self.skip_hooks,
    {
        self.skip_hooks
    }

    /// Whether work on the current branch is disabled by the environment.
    pub fn is_current_branch_disabled(&self) -> (r: bool)
        ensures
            r == self.current_branch_disabled,
    {
        self.current_branch_disabled
    }

    /// Whether a branch is disabled by the environment list or the local
    /// overlay list.
    pub fn is_branch_disabled(&self, branch_name: &str) -> (r: bool)
        ensures
            r == spec_branch_disabled(*self, branch_name@),
    {
        if let Some(disabled_branches) = &self.env_config.disabled_branches {
            if branch_matches_patterns(branch_name, disabled_branches) {
                return true;
            }
        }
        if let Some(local_config) = &self.local_config {
            if let Some(disabled_branches) = &local_config.disabled_branches {
                if branch_matches_patterns(branch_name, disabled_branches) {
                    return true;
                }
            }
        }
        false
    }

    /// Whether branch-aware work is disabled for the current Git branch,
    /// handed in by the caller as an optional branch name; an unreadable
    /// repository or detached head yields `None` and disables nothing.
    pub fn check_current_git_branch_disabled(&self, current_branch: Option<&str>) -> (r: bool)
        ensures
            r == spec_current_git_branch_disabled(*self, opt_str_view(current_branch)),
    {
        if self.is_current_branch_disabled() {
            return true;
        }
        match current_branch {
            Some(branch) => self.is_branch_disabled(branch),
            None => false,
        }
    }

    /// Whether every branch-sync action should be skipped for this
    /// invocation: the tool is globally disabled, or the current Git
    /// branch is disabled.
    pub fn should_exit_early(&self, current_branch: Option<&str>) -> (r: bool)
        ensures
            r == (self.disabled || spec_current_git_branch_disabled(
                *self,
                opt_str_view(current_branch),
            )),
    {
        if self.is_disabled() {
            return true;
        }
        self.check_current_git_branch_disabled(current_branch)
    }

    /// The fully resolved configuration: every leaf of the base
    /// configuration with the local overlay and then the environment
    /// applied on top, recomputed on every call.
    pub fn get_merged_config(&self) -> (r: Config)
        ensures
            r.database.host == merged_host(self.config, self.local_config, self.env_config),
            r.database.port == merged_port(self.config, self.local_config, self.env_config),
            r.database.user == merged_user(self.config, self.local_config, self.env_config),
            r.database.password == merged_password(
                self.config,
                self.local_config,
                self.env_config,
            ),
            r.database.template_database == merged_template_database(
                self.config,
                self.local_config,
            ),
            r.database.database_prefix == merged_database_prefix(
                self.config,
                self.local_config,
                self.env_config,
            ),
            r.database.auth.methods@ == merged_auth_methods(self.config, self.local_config),
            r.database.auth.pgpass_file == merged_pgpass_file(self.config, self.local_config),
            r.database.auth.service_name == merged_service_name(self.config, self.local_config),
            r.database.auth.prompt_for_password == merged_prompt_for_password(
                self.config,
                self.local_config,
            ),
            r.git.auto_create_on_branch == merged_auto_create(
                self.config,
                self.local_config,
                self.env_config,
            ),
            r.git.auto_switch_on_branch == merged_auto_switch(
                self.config,
                self.local_config,
                self.env_config,
            ),
            r.git.main_branch == merged_main_branch(self.config, self.local_config),
            r.git.auto_create_branch_filter == merged_auto_create_branch_filter(
                self.config,
                self.local_config,
            ),
            r.git.branch_filter_regex == merged_branch_filter_regex(
                self.config,
                self.local_config,
                self.env_config,
            ),
            r.git.exclude_branches@ == merged_exclude_branches(self.config, self.local_config),
            r.behavior.auto_cleanup == merged_auto_cleanup(self.config, self.local_config),
            r.behavior.max_branches == merged_max_branches(self.config, self.local_config),
            r.behavior.naming_strategy == merged_naming_strategy(self.config, self.local_config),
            post_commands_eq(
                r.post_commands@,
                merged_post_commands(self.config, self.local_config),
            ),
            r.current_branch == self.config.current_branch,
    {
        let c = &self.config;
        let e = &self.env_config;
        let ldb: Option<&LocalDatabaseConfig> = match &self.local_config {
            Some(lc) => match &lc.database {
                Some(d) => Some(d),
                None => None,
            },
            None => None,
        };
        let lauth: Option<&LocalAuthConfig> = match ldb {
            Some(d) => match &d.auth {
                Some(a) => Some(a),
                None => None,
            },
            None => None,
        };
        let lgit: Option<&LocalGitConfig> = match &self.local_config {
            Some(lc) => match &lc.git {
                Some(g) => Some(g),
                None => None,
            },
            None => None,
        };
        let lbeh: Option<&LocalBehaviorConfig> = match &self.local_config {
            Some(lc) => match &lc.behavior {
                Some(b) => Some(b),
                None => None,
            },
            None => None,
        };

        let host: String = match &e.database_host {
            Some(h) => h.clone(),
            None => match ldb {
                Some(d) => match &d.host {
                    Some(h) => h.clone(),
                    None => c.database.host.clone(),
                },
                None => c.database.host.clone(),
            },
        };
        let port: u16 = match e.database_port {
            Some(p) => p,
            None => match ldb {
                Some(d) => match d.port {
                    Some(p) => p,
                    None => c.database.port,
                },
                None => c.database.port,
            },
        };
        let user: String = match &e.database_user {
            Some(u) => u.clone(),
            None => match ldb {
                Some(d) => match &d.user {
                    Some(u) => u.clone(),
                    None => c.database.user.clone(),
                },
                None => c.database.user.clone(),
            },
        };
        let password: Option<String> = match &e.database_password {
            Some(p) => Some(p.clone()),
            None => match ldb {
                Some(d) => match &d.password {
                    Some(p) => Some(p.clone()),
                    None => clone_opt_string(&c.database.password),
                },
                None => clone_opt_string(&c.database.password),
            },
        };
        let template_database: String = match ldb {
            Some(d) => match &d.template_database {
                Some(t) => t.clone(),
                None => c.database.template_database.clone(),
            },
            None => c.database.template_database.clone(),
        };
        let database_prefix: String = match &e.database_prefix {
            Some(p) => p.clone(),
            None => match ldb {
                Some(d) => match &d.database_prefix {
                    Some(p) => p.clone(),
                    None => c.database.database_prefix.clone(),
                },
                None => c.database.database_prefix.clone(),
            },
        };
        let methods: Vec<AuthMethod> = match lauth {
            Some(a) => match &a.methods {
                Some(m) => clone_auth_methods(m),
                None => clone_auth_methods(&c.database.auth.methods),
            },
            None => clone_auth_methods(&c.database.auth.methods),
        };
        let pgpass_file: Option<String> = match lauth {
            Some(a) => match &a.pgpass_file {
                Some(f) => Some(f.clone()),
                None => clone_opt_string(&c.database.auth.pgpass_file),
            },
            None => clone_opt_string(&c.database.auth.pgpass_file),
        };
        let service_name: Option<String> = match lauth {
            Some(a) => match &a.service_name {
                Some(s) => Some(s.clone()),
                None => clone_opt_string(&c.database.auth.service_name),
            },
            None => clone_opt_string(&c.database.auth.service_name),
        };
        let prompt_for_password: bool = match lauth {
            Some(a) => match a.prompt_for_password {
                Some(p) => p,
                None => c.database.auth.prompt_for_password,
            },
            None => c.database.auth.prompt_for_password,
        };
        let auto_create_on_branch: bool = match e.auto_create {
            Some(b) => b,
            None => match lgit {
                Some(g) => match g.auto_create_on_branch {
                    Some(b) => b,
                    None => c.git.auto_create_on_branch,
                },
                None => c.git.auto_create_on_branch,
            },
        };
        let auto_switch_on_branch: bool = match e.auto_switch {
            Some(b) => b,
            None => match lgit {
                Some(g) => match g.auto_switch_on_branch {
                    Some(b) => b,
                    None => c.git.auto_switch_on_branch,
                },
                None => c.git.auto_switch_on_branch,
            },
        };
        let main_branch: String = match lgit {
            Some(g) => match &g.main_branch {
                Some(m) => m.clone(),
                None => c.git.main_branch.clone(),
            },
            None => c.git.main_branch.clone(),
        };
        let auto_create_branch_filter: Option<String> = match lgit {
            Some(g) => match &g.auto_create_branch_filter {
                Some(f) => Some(f.clone()),
                None => clone_opt_string(&c.git.auto_create_branch_filter),
            },
            None => clone_opt_string(&c.git.auto_create_branch_filter),
        };
        let branch_filter_regex: Option<String> = match &e.branch_filter_regex {
            Some(f) => Some(f.clone()),
            None => match lgit {
                Some(g) => match &g.branch_filter_regex {
                    Some(f) => Some(f.clone()),
                    None => clone_opt_string(&c.git.branch_filter_regex),
                },
                None => clone_opt_string(&c.git.branch_filter_regex),
            },
        };
        let exclude_branches: Vec<String> = match lgit {
            Some(g) => match &g.exclude_branches {
                Some(x) => clone_strings(x),
                None => clone_strings(&c.git.exclude_branches),
            },
            None => clone_strings(&c.git.exclude_branches),
        };
        let auto_cleanup: bool = match lbeh {
            Some(b) => match b.auto_cleanup {
                Some(a) => a,
                None => c.behavior.auto_cleanup,
            },
            None => c.behavior.auto_cleanup,
        };
        let max_branches: Option<usize> = match lbeh {
            Some(b) => match b.max_branches {
                Some(m) => Some(m),
                None => c.behavior.max_branches,
            },
            None => c.behavior.max_branches,
        };
        let naming_strategy: NamingStrategy = match lbeh {
            Some(b) => match b.naming_strategy {
                Some(n) => n,
                None => c.behavior.naming_strategy,
            },
            None => c.behavior.naming_strategy,
        };
        let post_commands: Vec<PostCommand> = match &self.local_config {
            Some(lc) => match &lc.post_commands {
                Some(p) => clone_post_commands(p),
                None => clone_post_commands(&c.post_commands),
            },
            None => clone_post_commands(&c.post_commands),
        };
        Config {
            database: DatabaseConfig {
                host,
                port,
                user,
                password,
                template_database,
                database_prefix,
                auth: AuthConfig { methods, pgpass_file, service_name, prompt_for_password },
            },
            git: GitConfig {
                auto_create_on_branch,
                auto_switch_on_branch,
                main_branch,
                auto_create_branch_filter,
                branch_filter_regex,
                exclude_branches,
            },
            behavior: BehaviorConfig { auto_cleanup, max_branches, naming_strategy },
            post_commands,
            current_branch: clone_opt_string(&self.config.current_branch),
        }
    }
}

} // verus!

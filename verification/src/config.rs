//! Configuration data model: the base configuration with its built-in
//! defaults, the optional local overlay, the environment overlay, and the
//! effective configuration that combines all three.

use vstd::prelude::*;
use vstd::string::*;

verus! {

/// One way of obtaining a password, tried in the configured order.
#[derive(Clone, Copy, Debug, PartialEq, Eq, Structural)]
pub enum AuthMethod {
    Password,
    Pgpass,
    Environment,
    Service,
    Prompt,
    System,
}

/// How a sanitized branch name and the configured prefix combine into a
/// database name.
#[derive(Clone, Copy, Debug, PartialEq, Eq, Structural)]
pub enum NamingStrategy {
    Prefix,
    Suffix,
    Replace,
}

/// Authentication settings of the base configuration.
#[derive(Clone, Debug)]
pub struct AuthConfig {
    pub methods: Vec<AuthMethod>,
    pub pgpass_file: Option<String>,
    pub service_name: Option<String>,
    pub prompt_for_password: bool,
}

/// Database connection settings of the base configuration.
#[derive(Clone, Debug)]
pub struct DatabaseConfig {
    pub host: String,
    pub port: u16,
    pub user: String,
    pub password: Option<String>,
    pub template_database: String,
    pub database_prefix: String,
    pub auth: AuthConfig,
}

/// Git-related settings of the base configuration.
#[derive(Clone, Debug)]
pub struct GitConfig {
    pub auto_create_on_branch: bool,
    pub auto_switch_on_branch: bool,
    pub main_branch: String,
    pub auto_create_branch_filter: Option<String>,
    pub branch_filter_regex: Option<String>,
    pub exclude_branches: Vec<String>,
}

/// Behavioural settings of the base configuration.
#[derive(Clone, Debug)]
pub struct BehaviorConfig {
    pub auto_cleanup: bool,
    pub max_branches: Option<usize>,
    pub naming_strategy: NamingStrategy,
}

/// A command executed after a branch database is created or switched to.
/// The three shapes are told apart when the configuration file is read:
/// a plain string, an object without an `action` key, and an object whose
/// `action` is `replace`.
#[derive(Clone, Debug)]
pub enum PostCommand {
    Simple(String),
    Complex(PostCommandConfig),
    Replace(ReplaceConfig),
}

/// A shell post-command with options.
#[derive(Clone, Debug)]
pub struct PostCommandConfig {
    pub name: Option<String>,
    pub command: String,
    pub working_dir: Option<String>,
    pub continue_on_error: Option<bool>,
    pub condition: Option<String>,
    pub environment: Option<Vec<(String, String)>>,
}

/// A file search-and-replace post-command.
#[derive(Clone, Debug)]
pub struct ReplaceConfig {
    pub action: String,
    pub name: Option<String>,
    pub file: String,
    pub pattern: String,
    pub replacement: String,
    pub create_if_missing: Option<bool>,
    pub continue_on_error: Option<bool>,
    pub condition: Option<String>,
}

/// The base configuration, fully populated via defaults when a field is
/// absent from disk.
#[derive(Clone, Debug)]
pub struct Config {
    pub database: DatabaseConfig,
    pub git: GitConfig,
    pub behavior: BehaviorConfig,
    pub post_commands: Vec<PostCommand>,
    /// Retained for backward compatibility with old configuration files;
    /// branch state now lives in the local state store, so this is ignored
    /// on load and always absent in fresh configurations.
    pub current_branch: Option<String>,
}

/// Local overlay of the database settings; every field optional.
#[derive(Clone, Debug)]
pub struct LocalDatabaseConfig {
    pub host: Option<String>,
    pub port: Option<u16>,
    pub user: Option<String>,
    pub password: Option<String>,
    pub template_database: Option<String>,
    pub database_prefix: Option<String>,
    pub auth: Option<LocalAuthConfig>,
}

/// Local overlay of the authentication settings; every field optional.
#[derive(Clone, Debug)]
pub struct LocalAuthConfig {
    pub methods: Option<Vec<AuthMethod>>,
    pub pgpass_file: Option<String>,
    pub service_name: Option<String>,
    pub prompt_for_password: Option<bool>,
}

/// Local overlay of the Git settings; every field optional.
#[derive(Clone, Debug)]
pub struct LocalGitConfig {
    pub auto_create_on_branch: Option<bool>,
    pub auto_switch_on_branch: Option<bool>,
    pub main_branch: Option<String>,
    pub auto_create_branch_filter: Option<String>,
    pub branch_filter_regex: Option<String>,
    pub exclude_branches: Option<Vec<String>>,
}

/// Local overlay of the behavioural settings; every field optional.
#[derive(Clone, Debug)]
pub struct LocalBehaviorConfig {
    pub auto_cleanup: Option<bool>,
    pub max_branches: Option<usize>,
    pub naming_strategy: Option<NamingStrategy>,
}

/// The optional, git-ignorable local override file.
#[derive(Clone, Debug)]
pub struct LocalConfig {
    pub database: Option<LocalDatabaseConfig>,
    pub git: Option<LocalGitConfig>,
    pub behavior: Option<LocalBehaviorConfig>,
    pub post_commands: Option<Vec<PostCommand>>,
    pub disabled: Option<bool>,
    pub disabled_branches: Option<Vec<String>>,
}

/// The overlay read from the recognized environment variables.
#[derive(Clone, Debug)]
pub struct EnvConfig {
    pub disabled: Option<bool>,
    pub skip_hooks: Option<bool>,
    pub auto_create: Option<bool>,
    pub auto_switch: Option<bool>,
    pub branch_filter_regex: Option<String>,
    pub disabled_branches: Option<Vec<String>>,
    pub current_branch_disabled: Option<bool>,
    pub database_host: Option<String>,
    pub database_port: Option<u16>,
    pub database_user: Option<String>,
    pub database_password: Option<String>,
    pub database_prefix: Option<String>,
}

/// The effective configuration: the three layers plus the pre-computed
/// gating booleans.
#[derive(Clone, Debug)]
pub struct EffectiveConfig {
    pub config: Config,
    pub local_config: Option<LocalConfig>,
    pub env_config: EnvConfig,
    pub disabled: bool,
    pub skip_hooks: bool,
    pub current_branch_disabled: bool,
}

/// A reason the base configuration is rejected by `validate_config`.
#[derive(Clone, Copy, Debug, PartialEq, Eq, Structural)]
pub enum ConfigError {
    EmptyHost,
    ZeroPort,
    EmptyUser,
    EmptyTemplateDatabase,
    EmptyDatabasePrefix,
}

/// The checks `validate_config` performs, in order: the resolved host,
/// user, template database and prefix must be non-empty and the port
/// must be positive.
pub open spec fn spec_validate_config(c: Config) -> Result<(), ConfigError> {
    if c.database.host@.len() == 0 {
        Err(ConfigError::EmptyHost)
    } else if c.database.port == 0 {
        Err(ConfigError::ZeroPort)
    } else if c.database.user@.len() == 0 {
        Err(ConfigError::EmptyUser)
    } else if c.database.template_database@.len() == 0 {
        Err(ConfigError::EmptyTemplateDatabase)
    } else if c.database.database_prefix@.len() == 0 {
        Err(ConfigError::EmptyDatabasePrefix)
    } else {
        Ok(())
    }
}

/// Rejects a configuration whose resolved connection fields are empty
/// or whose port is zero; reports the first violation found.
pub fn validate_config(config: &Config) -> (r: Result<(), ConfigError>)
    ensures
        r == spec_validate_config(*config),
{
    if config.database.host.as_str().unicode_len() == 0 {
        Err(ConfigError::EmptyHost)
    } else if config.database.port == 0 {
        Err(ConfigError::ZeroPort)
    } else if config.database.user.as_str().unicode_len() == 0 {
        Err(ConfigError::EmptyUser)
    } else if config.database.template_database.as_str().unicode_len() == 0 {
        Err(ConfigError::EmptyTemplateDatabase)
    } else if config.database.database_prefix.as_str().unicode_len() == 0 {
        Err(ConfigError::EmptyDatabasePrefix)
    } else {
        Ok(())
    }
}

impl Config {
    /// The value the deprecated current-branch field still exposes.
    pub fn get_current_branch(&self) -> (r: Option<&String>)
        ensures
            r is Some <==> self.current_branch is Some,
            r is Some ==> *r->0 == self.current_branch->0,
    {
        self.current_branch.as_ref()
    }

    /// Overwrites the deprecated current-branch field.
    pub fn set_current_branch(&mut self, branch_name: Option<String>)
        ensures
            final(self).current_branch == branch_name,
            final(self).database == old(self).database,
            final(self).git == old(self).git,
            final(self).behavior == old(self).behavior,
            final(self).post_commands == old(self).post_commands,
    {
        self.current_branch = branch_name;
    }
}

impl Default for Config {
    /// The built-in defaults used when no configuration file is found.
    fn default() -> (r: Config)
        ensures
            r.database.host@ == "localhost"@,
            r.database.port == 5432,
            r.database.user@ == "postgres"@,
            r.database.password is None,
            r.database.template_database@ == "template0"@,
            r.database.database_prefix@ == "pgbranch"@,
            r.database.auth.methods@ == seq![
                AuthMethod::Environment,
                AuthMethod::Pgpass,
                AuthMethod::Password,
                AuthMethod::Prompt,
            ],
            r.database.auth.pgpass_file is None,
            r.database.auth.service_name is None,
            r.database.auth.prompt_for_password == false,
            r.git.auto_create_on_branch == true,
            r.git.auto_switch_on_branch == true,
            r.git.main_branch@ == "main"@,
            r.git.auto_create_branch_filter is None,
            r.git.branch_filter_regex is None,
            r.git.exclude_branches.deep_view() == seq!["main"@, "master"@],
            r.behavior.auto_cleanup == false,
            r.behavior.max_branches == Some(10usize),
            r.behavior.naming_strategy == NamingStrategy::Prefix,
            r.post_commands@ == Seq::<PostCommand>::empty(),
            r.current_branch is None,
    {
        let mut methods: Vec<AuthMethod> = Vec::new();
        methods.push(AuthMethod::Environment);
        methods.push(AuthMethod::Pgpass);
        methods.push(AuthMethod::Password);
        methods.push(AuthMethod::Prompt);
        assert(methods@ =~= seq![
            AuthMethod::Environment,
            AuthMethod::Pgpass,
            AuthMethod::Password,
            AuthMethod::Prompt,
        ]);
        let mut exclude: Vec<String> = Vec::new();
        exclude.push(String::from_str("main"));
        exclude.push(String::from_str("master"));
        assert(exclude.deep_view() =~= seq!["main"@, "master"@]);
        Config {
            database: DatabaseConfig {
                host: String::from_str("localhost"),
                port: 5432,
                user: String::from_str("postgres"),
                password: None,
                template_database: String::from_str("template0"),
                database_prefix: String::from_str("pgbranch"),
                auth: AuthConfig {
                    methods,
                    pgpass_file: None,
                    service_name: None,
                    prompt_for_password: false,
                },
            },
            git: GitConfig {
                auto_create_on_branch: true,
                auto_switch_on_branch: true,
                main_branch: String::from_str("main"),
                auto_create_branch_filter: None,
                branch_filter_regex: None,
                exclude_branches: exclude,
            },
            behavior: BehaviorConfig {
                auto_cleanup: false,
                max_branches: Some(10),
                naming_strategy: NamingStrategy::Prefix,
            },
            post_commands: Vec::new(),
            current_branch: None,
        }
    }
}

} // verus!

verus! {

/// A copy of an optional string, equal to the original.
pub(crate) fn clone_opt_string(o: &Option<String>) -> (r: Option<String>)
    ensures
        r == *o,
{
    match o {
        Some(s) => Some(s.clone()),
        None => None,
    }
}

/// A copy of a vector of strings, equal to the original.
pub(crate) fn clone_strings(v: &Vec<String>) -> (r: Vec<String>)
    ensures
        r@ == v@,
{
    let mut out: Vec<String> = Vec::new();
    let mut i: usize = 0;
    while i < v.len()
        invariant
            i <= v@.len(),
            out@.len() == i,
            forall|j: int| 0 <= j < i ==> out@[j] == v@[j],
        decreases v.len() - i,
    {
        out.push(v[i].clone());
        i = i + 1;
    }
    proof {
        assert(out@ =~= v@);
    }
    out
}

/// A copy of the ordered list of authentication methods.
pub(crate) fn clone_auth_methods(v: &Vec<AuthMethod>) -> (r: Vec<AuthMethod>)
    ensures
        r@ == v@,
{
    let mut out: Vec<AuthMethod> = Vec::new();
    let mut i: usize = 0;
    while i < v.len()
        invariant
            i <= v@.len(),
            out@.len() == i,
            forall|j: int| 0 <= j < i ==> out@[j] == v@[j],
        decreases v.len() - i,
    {
        out.push(v[i]);
        i = i + 1;
    }
    proof {
        assert(out@ =~= v@);
    }
    out
}

/// A copy of a list of key-value pairs, equal to the original.
pub(crate) fn clone_pairs(v: &Vec<(String, String)>) -> (r: Vec<(String, String)>)
    ensures
        r@ == v@,
{
    let mut out: Vec<(String, String)> = Vec::new();
    let mut i: usize = 0;
    while i < v.len()
        invariant
            i <= v@.len(),
            out@.len() == i,
            forall|j: int| 0 <= j < i ==> out@[j] == v@[j],
        decreases v.len() - i,
    {
        let pair = &v[i];
        out.push((pair.0.clone(), pair.1.clone()));
        i = i + 1;
    }
    proof {
        assert(out@ =~= v@);
    }
    out
}

/// Two post-commands with the same shape and the same contents; the
/// environment lists are compared element by element.
pub open spec fn post_command_eq(a: PostCommand, b: PostCommand) -> bool {
    match (a, b) {
        (PostCommand::Simple(x), PostCommand::Simple(y)) => x == y,
        (PostCommand::Complex(x), PostCommand::Complex(y)) => {
            &&& x.name == y.name
            &&& x.command == y.command
            &&& x.working_dir == y.working_dir
            &&& x.continue_on_error == y.continue_on_error
            &&& x.condition == y.condition
            &&& (x.environment is Some <==> y.environment is Some)
            &&& (x.environment is Some ==> x.environment->0@ == y.environment->0@)
        },
        (PostCommand::Replace(x), PostCommand::Replace(y)) => x == y,
        _ => false,
    }
}

/// Two post-command lists of the same length whose entries agree pairwise.
pub open spec fn post_commands_eq(a: Seq<PostCommand>, b: Seq<PostCommand>) -> bool {
    a.len() == b.len() && forall|i: int| 0 <= i < a.len() ==> post_command_eq(
        #[trigger] a[i],
        b[i],
    )
}

/// A copy of one post-command with the same shape and contents.
pub(crate) fn clone_post_command(p: &PostCommand) -> (r: PostCommand)
    ensures
        post_command_eq(r, *p),
{
    match p {
        PostCommand::Simple(s) => PostCommand::Simple(s.clone()),
        PostCommand::Complex(c) => PostCommand::Complex(
            PostCommandConfig {
                name: clone_opt_string(&c.name),
                command: c.command.clone(),
                working_dir: clone_opt_string(&c.working_dir),
                continue_on_error: c.continue_on_error,
                condition: clone_opt_string(&c.condition),
                environment: match &c.environment {
                    Some(env) => Some(clone_pairs(env)),
                    None => None,
                },
            },
        ),
        PostCommand::Replace(c) => PostCommand::Replace(
            ReplaceConfig {
                action: c.action.clone(),
                name: clone_opt_string(&c.name),
                file: c.file.clone(),
                pattern: c.pattern.clone(),
                replacement: c.replacement.clone(),
                create_if_missing: c.create_if_missing,
                continue_on_error: c.continue_on_error,
                condition: clone_opt_string(&c.condition),
            },
        ),
    }
}

/// A copy of the post-command list with the same shapes and contents.
pub(crate) fn clone_post_commands(v: &Vec<PostCommand>) -> (r: Vec<PostCommand>)
    ensures
        post_commands_eq(r@, v@),
{
    let mut out: Vec<PostCommand> = Vec::new();
    let mut i: usize = 0;
    while i < v.len()
        invariant
            i <= v@.len(),
            out@.len() == i,
            forall|j: int| 0 <= j < i ==> post_command_eq(#[trigger] out@[j], v@[j]),
        decreases v.len() - i,
    {
        out.push(clone_post_command(&v[i]));
        i = i + 1;
    }
    out
}

} // verus!

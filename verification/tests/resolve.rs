//! Layer merging, environment parsing, gating predicates and branch
//! classification.

use pgbranch::config::{
    Config, ConfigError, EffectiveConfig, EnvConfig, LocalConfig, LocalDatabaseConfig,
    LocalGitConfig, NamingStrategy, PostCommand,
};
use pgbranch::config::validate_config;
use pgbranch::env::RawEnv;

fn empty_env() -> EnvConfig {
    EnvConfig {
        disabled: None,
        skip_hooks: None,
        auto_create: None,
        auto_switch: None,
        branch_filter_regex: None,
        disabled_branches: None,
        current_branch_disabled: None,
        database_host: None,
        database_port: None,
        database_user: None,
        database_password: None,
        database_prefix: None,
    }
}

fn empty_local() -> LocalConfig {
    LocalConfig {
        database: None,
        git: None,
        behavior: None,
        post_commands: None,
        disabled: None,
        disabled_branches: None,
    }
}

fn empty_local_database() -> LocalDatabaseConfig {
    LocalDatabaseConfig {
        host: None,
        port: None,
        user: None,
        password: None,
        template_database: None,
        database_prefix: None,
        auth: None,
    }
}

fn empty_raw_env() -> RawEnv {
    RawEnv {
        disabled: None,
        skip_hooks: None,
        auto_create: None,
        auto_switch: None,
        current_branch_disabled: None,
        branch_filter_regex: None,
        database_host: None,
        database_user: None,
        database_password: None,
        database_prefix: None,
        database_port: None,
        disabled_branches: None,
    }
}

#[test]
fn host_precedence_env_over_local_over_base() {
    let mut local = empty_local();
    let mut local_db = empty_local_database();
    local_db.host = Some("db.local".to_string());
    local.database = Some(local_db);
    let mut env = empty_env();
    env.database_host = Some("ci-host".to_string());

    let effective = EffectiveConfig::new(Config::default(), Some(local.clone()), env);
    assert_eq!(effective.get_merged_config().database.host, "ci-host");

    let effective = EffectiveConfig::new(Config::default(), Some(local), empty_env());
    assert_eq!(effective.get_merged_config().database.host, "db.local");

    let effective = EffectiveConfig::new(Config::default(), None, empty_env());
    assert_eq!(effective.get_merged_config().database.host, "localhost");
}

#[test]
fn merge_applies_each_layer_field() {
    let mut local = empty_local();
    let mut local_db = empty_local_database();
    local_db.port = Some(6000);
    local_db.template_database = Some("devdb".to_string());
    local.database = Some(local_db);
    local.git = Some(LocalGitConfig {
        auto_create_on_branch: Some(false),
        auto_switch_on_branch: None,
        main_branch: Some("trunk".to_string()),
        auto_create_branch_filter: None,
        branch_filter_regex: None,
        exclude_branches: Some(vec!["trunk".to_string()]),
    });
    local.post_commands = Some(vec![PostCommand::Simple("make reset".to_string())]);

    let mut env = empty_env();
    env.database_port = Some(7000);
    env.auto_create = Some(true);
    env.database_password = Some("pw".to_string());

    let effective = EffectiveConfig::new(Config::default(), Some(local), env);
    let merged = effective.get_merged_config();
    assert_eq!(merged.database.port, 7000);
    assert_eq!(merged.database.template_database, "devdb");
    assert_eq!(merged.database.password, Some("pw".to_string()));
    assert!(merged.git.auto_create_on_branch);
    assert_eq!(merged.git.main_branch, "trunk");
    assert_eq!(merged.git.exclude_branches, vec!["trunk".to_string()]);
    assert_eq!(merged.behavior.naming_strategy, NamingStrategy::Prefix);
    assert_eq!(merged.post_commands.len(), 1);
    match &merged.post_commands[0] {
        PostCommand::Simple(s) => assert_eq!(s, "make reset"),
        other => panic!("unexpected post command {:?}", other),
    }
}

#[test]
fn disabled_lists_union_from_env_and_local() {
    let mut env = empty_env();
    env.disabled_branches = Some(vec!["release/*".to_string()]);
    let mut local = empty_local();
    local.disabled_branches = Some(vec!["hotfix-1".to_string()]);

    let effective = EffectiveConfig::new(Config::default(), Some(local), env);
    assert!(effective.is_branch_disabled("release/2.0"));
    assert!(effective.is_branch_disabled("hotfix-1"));
    assert!(!effective.is_branch_disabled("feature-x"));
}

#[test]
fn unparsable_disable_pattern_fails_open() {
    let mut env = empty_env();
    env.disabled_branches = Some(vec!["broken[*".to_string()]);
    let effective = EffectiveConfig::new(Config::default(), None, env);
    assert!(!effective.is_branch_disabled("broken["));
    assert!(!effective.is_branch_disabled("anything"));
}

#[test]
fn disabled_flag_precedence() {
    let mut env = empty_env();
    env.disabled = Some(false);
    let mut local = empty_local();
    local.disabled = Some(true);
    let effective = EffectiveConfig::new(Config::default(), Some(local.clone()), env);
    assert!(!effective.is_disabled());

    let effective = EffectiveConfig::new(Config::default(), Some(local), empty_env());
    assert!(effective.is_disabled());

    let effective = EffectiveConfig::new(Config::default(), None, empty_env());
    assert!(!effective.is_disabled());
}

#[test]
fn skip_hooks_and_current_branch_disabled_come_from_env() {
    let mut env = empty_env();
    env.skip_hooks = Some(true);
    env.current_branch_disabled = Some(true);
    let effective = EffectiveConfig::new(Config::default(), None, env);
    assert!(effective.should_skip_hooks());
    assert!(effective.is_current_branch_disabled());
    assert!(effective.check_current_git_branch_disabled(None));
    assert!(effective.should_exit_early(Some("feature-x")));
}

#[test]
fn exit_early_on_disabled_current_branch() {
    let mut env = empty_env();
    env.disabled_branches = Some(vec!["frozen".to_string()]);
    let effective = EffectiveConfig::new(Config::default(), None, env);
    assert!(effective.should_exit_early(Some("frozen")));
    assert!(!effective.should_exit_early(Some("active")));
    assert!(!effective.should_exit_early(None));
}

#[test]
fn should_create_branch_respects_gate_and_excludes() {
    let mut config = Config::default();
    assert!(config.should_create_branch("feature/x"));
    assert!(!config.should_create_branch("main"));
    assert!(!config.should_create_branch("master"));
    config.git.auto_create_on_branch = false;
    assert!(!config.should_create_branch("feature/x"));
}

#[test]
fn should_create_branch_applies_filter_regex() {
    let mut config = Config::default();
    config.git.branch_filter_regex = Some("^feature/".to_string());
    assert!(config.should_create_branch("feature/login"));
    assert!(!config.should_create_branch("bugfix/login"));
}

#[test]
fn invalid_filter_regex_fails_closed() {
    let mut config = Config::default();
    config.git.branch_filter_regex = Some("feature[".to_string());
    assert!(!config.should_create_branch("feature/login"));
    assert!(!config.should_switch_on_branch("feature/login"));
}

#[test]
fn switch_to_main_bypasses_filters() {
    let mut config = Config::default();
    config.git.branch_filter_regex = Some("^feature/".to_string());
    // "main" fails the filter and is even excluded, yet switching passes.
    assert!(config.should_switch_on_branch("main"));
    config.git.auto_switch_on_branch = false;
    assert!(!config.should_switch_on_branch("main"));
}

#[test]
fn should_switch_applies_excludes_and_filter_to_others() {
    let mut config = Config::default();
    config.git.branch_filter_regex = Some("^feature/".to_string());
    assert!(config.should_switch_on_branch("feature/login"));
    assert!(!config.should_switch_on_branch("bugfix/login"));
    assert!(!config.should_switch_on_branch("master"));
}

#[test]
fn validate_config_reports_first_violation() {
    let config = Config::default();
    assert_eq!(validate_config(&config), Ok(()));

    let mut config = Config::default();
    config.database.host = String::new();
    assert_eq!(validate_config(&config), Err(ConfigError::EmptyHost));

    let mut config = Config::default();
    config.database.port = 0;
    assert_eq!(validate_config(&config), Err(ConfigError::ZeroPort));

    let mut config = Config::default();
    config.database.user = String::new();
    assert_eq!(validate_config(&config), Err(ConfigError::EmptyUser));

    let mut config = Config::default();
    config.database.template_database = String::new();
    assert_eq!(validate_config(&config), Err(ConfigError::EmptyTemplateDatabase));

    let mut config = Config::default();
    config.database.database_prefix = String::new();
    assert_eq!(validate_config(&config), Err(ConfigError::EmptyDatabasePrefix));
}

#[test]
fn env_bool_spellings() {
    for (text, expected) in [
        ("true", true),
        ("TRUE", true),
        ("1", true),
        ("Yes", true),
        ("on", true),
        ("false", false),
        ("0", false),
        ("No", false),
        ("OFF", false),
    ] {
        let mut raw = empty_raw_env();
        raw.disabled = Some(text.to_string());
        let env = EnvConfig::load_from_env(&raw).expect("boolean should parse");
        assert_eq!(env.disabled, Some(expected), "spelling {:?}", text);
    }
}

#[test]
fn env_bad_bool_names_variable_and_value() {
    let mut raw = empty_raw_env();
    raw.auto_switch = Some("maybe".to_string());
    let err = EnvConfig::load_from_env(&raw).unwrap_err();
    assert_eq!(err.variable, "PGBRANCH_AUTO_SWITCH");
    assert_eq!(err.value, "maybe");
}

#[test]
fn env_port_parses_permissively() {
    let mut raw = empty_raw_env();
    raw.database_port = Some("5433".to_string());
    assert_eq!(EnvConfig::load_from_env(&raw).unwrap().database_port, Some(5433));

    raw.database_port = Some("+5433".to_string());
    assert_eq!(EnvConfig::load_from_env(&raw).unwrap().database_port, Some(5433));

    raw.database_port = Some("not-a-port".to_string());
    assert_eq!(EnvConfig::load_from_env(&raw).unwrap().database_port, None);

    raw.database_port = Some("70000".to_string());
    assert_eq!(EnvConfig::load_from_env(&raw).unwrap().database_port, None);

    raw.database_port = None;
    assert_eq!(EnvConfig::load_from_env(&raw).unwrap().database_port, None);
}

#[test]
fn env_disabled_branches_split_and_trimmed() {
    let mut raw = empty_raw_env();
    raw.disabled_branches = Some(" release/* , hotfix-1 ,x".to_string());
    let env = EnvConfig::load_from_env(&raw).unwrap();
    assert_eq!(
        env.disabled_branches,
        Some(vec!["release/*".to_string(), "hotfix-1".to_string(), "x".to_string()])
    );
}

#[test]
fn env_strings_pass_through() {
    let mut raw = empty_raw_env();
    raw.branch_filter_regex = Some("^f".to_string());
    raw.database_host = Some("h".to_string());
    raw.database_user = Some("u".to_string());
    raw.database_password = Some("p".to_string());
    raw.database_prefix = Some("pre".to_string());
    let env = EnvConfig::load_from_env(&raw).unwrap();
    assert_eq!(env.branch_filter_regex, Some("^f".to_string()));
    assert_eq!(env.database_host, Some("h".to_string()));
    assert_eq!(env.database_user, Some("u".to_string()));
    assert_eq!(env.database_password, Some("p".to_string()));
    assert_eq!(env.database_prefix, Some("pre".to_string()));
}

#[test]
fn default_config_values() {
    let config = Config::default();
    assert_eq!(config.database.host, "localhost");
    assert_eq!(config.database.port, 5432);
    assert_eq!(config.database.user, "postgres");
    assert_eq!(config.database.template_database, "template0");
    assert_eq!(config.database.database_prefix, "pgbranch");
    assert!(config.git.auto_create_on_branch);
    assert!(config.git.auto_switch_on_branch);
    assert_eq!(config.git.main_branch, "main");
    assert_eq!(config.git.exclude_branches, vec!["main".to_string(), "master".to_string()]);
    assert_eq!(config.behavior.max_branches, Some(10));
    assert!(!config.behavior.auto_cleanup);
    assert!(config.post_commands.is_empty());
    assert!(config.current_branch.is_none());
}

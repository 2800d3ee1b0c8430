//! Branch-name sanitization and database-name derivation.

use pgbranch::config::{Config, NamingStrategy};

fn default_config() -> Config {
    Config::default()
}

#[test]
fn sanitize_lowercases_and_replaces() {
    let config = default_config();
    assert_eq!(config.get_normalized_branch_name("Feature/Auth-2"), "feature_auth_2");
}

#[test]
fn sanitize_collapses_underscore_runs() {
    let config = default_config();
    assert_eq!(config.get_normalized_branch_name("a--__--b"), "a_b");
}

#[test]
fn sanitize_strips_trailing_underscores() {
    let config = default_config();
    assert_eq!(config.get_normalized_branch_name("feature/"), "feature");
}

#[test]
fn sanitize_guards_leading_digit() {
    let config = default_config();
    assert_eq!(config.get_normalized_branch_name("123-hotfix"), "_123_hotfix");
}

#[test]
fn sanitize_keeps_dollar() {
    let config = default_config();
    assert_eq!(config.get_normalized_branch_name("$cash"), "$cash");
}

#[test]
fn sanitize_empty_becomes_branch() {
    let config = default_config();
    assert_eq!(config.get_normalized_branch_name(""), "branch");
    assert_eq!(config.get_normalized_branch_name("///"), "branch");
}

#[test]
fn sanitize_non_ascii_becomes_underscore() {
    let config = default_config();
    assert_eq!(config.get_normalized_branch_name("héllo"), "h_llo");
}

#[test]
fn sanitize_is_idempotent_on_samples() {
    let config = default_config();
    for input in ["Feature/Auth-2", "123", "--a--", "", "WIP: crazy branch!!"] {
        let once = config.get_normalized_branch_name(input);
        let twice = config.get_normalized_branch_name(&once);
        assert_eq!(once, twice);
    }
}

#[test]
fn database_name_prefix_strategy() {
    let config = default_config();
    assert_eq!(config.get_database_name("Feature/Auth-2"), "pgbranch_feature_auth_2");
}

#[test]
fn database_name_suffix_strategy() {
    let mut config = default_config();
    config.behavior.naming_strategy = NamingStrategy::Suffix;
    assert_eq!(config.get_database_name("Feature/Auth-2"), "feature_auth_2_pgbranch");
}

#[test]
fn database_name_replace_strategy() {
    let mut config = default_config();
    config.behavior.naming_strategy = NamingStrategy::Replace;
    assert_eq!(config.get_database_name("Feature/Auth-2"), "feature_auth_2");
}

#[test]
fn database_name_main_marker_uses_template() {
    for strategy in [NamingStrategy::Prefix, NamingStrategy::Suffix, NamingStrategy::Replace] {
        let mut config = default_config();
        config.behavior.naming_strategy = strategy;
        assert_eq!(config.get_database_name("_main"), "template0");
    }
}

#[test]
fn database_name_excluded_branch_uses_template() {
    for strategy in [NamingStrategy::Prefix, NamingStrategy::Suffix, NamingStrategy::Replace] {
        let mut config = default_config();
        config.behavior.naming_strategy = strategy;
        assert_eq!(config.get_database_name("main"), "template0");
        assert_eq!(config.get_database_name("master"), "template0");
    }
}

#[test]
fn database_name_fits_postgres_limit() {
    let config = default_config();
    let long_branch = "x".repeat(200);
    let name = config.get_database_name(&long_branch);
    assert_eq!(name.len(), 63);
    assert!(name.starts_with("pgbranch_xxx"));
    let short = config.get_database_name("ok");
    assert!(short.len() <= 63);
}

#[test]
fn database_name_shape_on_many_inputs() {
    let config = default_config();
    for input in [
        "Feature/Auth-2",
        "123",
        "",
        "ALL CAPS BRANCH",
        "release/v1.2.3",
        "ünïcödé/branch",
        &"y".repeat(300),
    ] {
        let name = config.get_database_name(input);
        assert!(!name.is_empty());
        assert!(name.len() <= 63);
        let first = name.chars().next().unwrap();
        assert!(first.is_ascii_lowercase() || first == '_');
        assert!(name.chars().all(|c| c.is_ascii_lowercase()
            || c.is_ascii_digit()
            || c == '_'
            || c == '$'));
    }
}

#[test]
fn oversized_name_exact_truncation_and_hash() {
    // The hash is a base-31 polynomial over the character codes of the
    // full combined name, reduced modulo 2^16, rendered as 4 hex digits.
    let config = default_config();
    let name = config.get_database_name(&"x".repeat(200));
    assert_eq!(
        name,
        "pgbranch_xxxxxxxxxxxxxxxxxxxxxxxxxxxxxxxxxxxxxxxxxxxxxxxxx_7326"
    );
}

#[test]
fn database_name_is_deterministic() {
    let config = default_config();
    let long_branch = "z".repeat(100);
    let first = config.get_database_name(&long_branch);
    let second = config.get_database_name(&long_branch);
    assert_eq!(first, second);
    assert_eq!(
        config.get_database_name("feature/x"),
        config.get_database_name("feature/x"),
    );
}

#[test]
fn oversized_names_get_distinct_hash_suffixes() {
    let config = default_config();
    let shared = "s".repeat(70);
    let one = format!("{}one", shared);
    let two = format!("{}two", shared);
    let name_one = config.get_database_name(&one);
    let name_two = config.get_database_name(&two);
    assert_eq!(name_one.len(), 63);
    assert_eq!(name_two.len(), 63);
    // The truncated bodies agree; only the hash of the full name separates them.
    assert_eq!(&name_one[..59], &name_two[..59]);
    assert_ne!(name_one, name_two);
}

#[test]
fn template_context_collects_branch_values() {
    let config = default_config();
    let context = pgbranch::naming::TemplateContext::new(&config, "Feature/Auth-2");
    assert_eq!(context.branch_name, "Feature/Auth-2");
    assert_eq!(context.db_name, "pgbranch_feature_auth_2");
    assert_eq!(context.db_host, "localhost");
    assert_eq!(context.db_port, 5432);
    assert_eq!(context.db_user, "postgres");
    assert_eq!(context.db_password, None);
    assert_eq!(context.template_db, "template0");
    assert_eq!(context.prefix, "pgbranch");
}

#[test]
fn substitute_replaces_all_placeholders() {
    let config = default_config();
    let context = pgbranch::naming::TemplateContext::new(&config, "feature/x");
    let result = config.substitute_template_variables(
        "db={db_name} host={db_host}:{db_port} user={db_user} tpl={template_db} p={prefix} b={branch_name}",
        &context,
    );
    assert_eq!(
        result,
        "db=pgbranch_feature_x host=localhost:5432 user=postgres tpl=template0 p=pgbranch b=feature/x"
    );
}

#[test]
fn substitute_skips_password_when_absent() {
    let config = default_config();
    let context = pgbranch::naming::TemplateContext::new(&config, "a");
    let result = config.substitute_template_variables("pw={db_password}", &context);
    assert_eq!(result, "pw={db_password}");

    let mut config = default_config();
    config.database.password = Some("s3cret".to_string());
    let context = pgbranch::naming::TemplateContext::new(&config, "a");
    let result = config.substitute_template_variables("pw={db_password}", &context);
    assert_eq!(result, "pw=s3cret");
}

#[test]
fn deprecated_current_branch_accessors() {
    let mut config = Config::default();
    assert!(config.get_current_branch().is_none());
    config.set_current_branch(Some("feature_x".to_string()));
    assert_eq!(config.get_current_branch(), Some(&"feature_x".to_string()));
    config.set_current_branch(None);
    assert!(config.get_current_branch().is_none());
}

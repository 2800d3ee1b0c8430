//! Connection-string building, identifier quoting, branch-name recovery,
//! password lookups, hooks and command classification.

use pgbranch::cli::{
    detect_default_current_branch, get_current_branch_with_default, requires_config, Commands,
};
use pgbranch::config::Config;
use pgbranch::database::{escape_identifier, DatabaseManager};
use pgbranch::hooks::{generate_hook_script, is_pgbranch_hook_content};

#[test]
fn connection_string_without_password() {
    let manager = DatabaseManager::new(Config::default());
    assert_eq!(
        manager.build_connection_string(None),
        "host=localhost port=5432 user=postgres dbname=postgres"
    );
}

#[test]
fn connection_string_with_password() {
    let manager = DatabaseManager::new(Config::default());
    let password = "secret".to_string();
    assert_eq!(
        manager.build_connection_string(Some(&password)),
        "host=localhost port=5432 user=postgres password=secret dbname=postgres"
    );
}

#[test]
fn escape_identifier_quotes_and_doubles() {
    assert_eq!(escape_identifier("plain"), "\"plain\"");
    assert_eq!(escape_identifier("we\"ird"), "\"we\"\"ird\"");
    assert_eq!(escape_identifier(""), "\"\"");
}

#[test]
fn extract_branch_name_strips_prefix() {
    let manager = DatabaseManager::new(Config::default());
    assert_eq!(manager.extract_branch_name("pgbranch_feature_x"), Some("feature_x".to_string()));
    assert_eq!(manager.extract_branch_name("pgbranch_"), Some("".to_string()));
    assert_eq!(manager.extract_branch_name("otherdb"), None);
    assert_eq!(manager.extract_branch_name("pgbranch"), None);
}

#[test]
fn pgpass_entry_matching() {
    let manager = DatabaseManager::new(Config::default());
    assert!(manager.matches_pgpass_entry("*", "*", "*", "*"));
    assert!(manager.matches_pgpass_entry("localhost", "5432", "postgres", "postgres"));
    assert!(!manager.matches_pgpass_entry("otherhost", "*", "*", "*"));
    assert!(!manager.matches_pgpass_entry("*", "5433", "*", "*"));
    assert!(!manager.matches_pgpass_entry("*", "*", "mydb", "*"));
    assert!(!manager.matches_pgpass_entry("*", "*", "*", "root"));
}

#[test]
fn pgpass_lookup_finds_matching_line() {
    let manager = DatabaseManager::new(Config::default());
    let content = "\
# a comment line

otherhost:5432:postgres:postgres:wrong
badline:too:few
localhost:5432:*:postgres:goodpw
*:*:*:*:fallback
";
    assert_eq!(manager.find_pgpass_password(content), Some("goodpw".to_string()));
}

#[test]
fn pgpass_lookup_handles_no_match_and_crlf() {
    let manager = DatabaseManager::new(Config::default());
    assert_eq!(manager.find_pgpass_password(""), None);
    assert_eq!(manager.find_pgpass_password("otherhost:1:2:3:pw"), None);
    let crlf = "*:*:*:*:pw\r\n";
    assert_eq!(manager.find_pgpass_password(crlf), Some("pw".to_string()));
}

#[test]
fn service_lookup_finds_password_in_section() {
    let manager = DatabaseManager::new(Config::default());
    let content = "\
# comment
[other]
password = nope

[mine]
user = someone
password = right one

[late]
password = toolate
";
    assert_eq!(
        manager.find_service_password(content, "mine"),
        Some("right one".to_string())
    );
    assert_eq!(manager.find_service_password(content, "absent"), None);
}

#[test]
fn service_lookup_ignores_keys_outside_section() {
    let manager = DatabaseManager::new(Config::default());
    let content = "password = outside\n[mine]\nother = 1\n";
    assert_eq!(manager.find_service_password(content, "mine"), None);
}

#[test]
fn hook_script_is_recognized() {
    let script = generate_hook_script();
    assert!(is_pgbranch_hook_content(&script));
    assert!(!is_pgbranch_hook_content("#!/bin/sh\nexit 0\n"));
}

#[test]
fn commands_requiring_config() {
    assert!(requires_config(&Commands::Create { branch_name: "b".to_string() }));
    assert!(requires_config(&Commands::Delete { branch_name: "b".to_string() }));
    assert!(requires_config(&Commands::List));
    assert!(requires_config(&Commands::Cleanup { max_count: None }));
    assert!(requires_config(&Commands::GitHook));
    assert!(requires_config(&Commands::Templates { branch_name: None }));
    assert!(requires_config(&Commands::TestPostCommands { branch_name: "b".to_string() }));
    assert!(requires_config(&Commands::Switch { branch_name: None, template: false }));
    assert!(requires_config(&Commands::TestSwitch { branch_name: "b".to_string() }));
    assert!(!requires_config(&Commands::Init { force: false }));
    assert!(!requires_config(&Commands::Config));
    assert!(!requires_config(&Commands::ConfigShow));
    assert!(!requires_config(&Commands::InstallHooks));
    assert!(!requires_config(&Commands::UninstallHooks));
    assert!(!requires_config(&Commands::Check));
}

#[test]
fn default_current_branch_detection() {
    let config = Config::default();
    assert_eq!(
        detect_default_current_branch(&config, Some("main")),
        Some("_main".to_string())
    );
    assert_eq!(
        detect_default_current_branch(&config, Some("Feature/Auth-2")),
        Some("feature_auth_2".to_string())
    );
    assert_eq!(detect_default_current_branch(&config, None), Some("_main".to_string()));

    // A branch filtered out of creation falls back to the template marker.
    let mut config = Config::default();
    config.git.branch_filter_regex = Some("^feature/".to_string());
    assert_eq!(
        detect_default_current_branch(&config, Some("bugfix/x")),
        Some("_main".to_string())
    );
}

#[test]
fn current_branch_prefers_stored_state() {
    let config = Config::default();
    let stored = "feature_y".to_string();
    assert_eq!(
        get_current_branch_with_default(Some(&stored), &config, Some("main")),
        Some("feature_y".to_string())
    );
    assert_eq!(
        get_current_branch_with_default(None, &config, Some("main")),
        Some("_main".to_string())
    );
}

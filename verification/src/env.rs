//! The environment overlay: parsing of the recognized `PGBRANCH_*`
//! variables. Boolean variables accept `true|1|yes|on` and
//! `false|0|no|off` case-insensitively and any other value is a fatal
//! error; the port variable silently yields "absent" when unparsable; the
//! disabled-branches variable splits on commas with each entry trimmed.

use vstd::prelude::*;
use vstd::string::*;

use crate::config::EnvConfig;
use crate::text::{
    chars_string, lower_ascii, lower_ascii_x, parse_u16, parse_u16_spec, split_trim,
    split_trimmed, str_chars, str_eq, strings_of_chars,
};

verus! {

/// A rejected boolean environment variable: which variable, and the value
/// it held.
#[derive(Clone, Debug)]
pub struct EnvError {
    pub variable: String,
    pub value: String,
}

/// How a boolean environment value reads: the recognized spellings,
/// compared after ASCII lowercasing; anything else is no boolean.
pub open spec fn spec_parse_bool(s: Seq<char>) -> Option<bool> {
    let l = lower_ascii(s);
    if l == "true"@ || l == "1"@ || l == "yes"@ || l == "on"@ {
        Some(true)
    } else if l == "false"@ || l == "0"@ || l == "no"@ || l == "off"@ {
        Some(false)
    } else {
        None
    }
}

/// The parse of an optional boolean environment value: absent stays
/// absent, a recognized spelling yields its value.
pub open spec fn spec_parse_bool_opt(o: Option<String>) -> Option<bool> {
    match o {
        Some(s) => spec_parse_bool(s@),
        None => None,
    }
}

/// The optional boolean environment value parses without error.
pub open spec fn bool_env_ok(o: Option<String>) -> bool {
    o is None || spec_parse_bool(o->0@) is Some
}

/// The raw text of the recognized environment variables, each absent when
/// the variable is unset.
#[derive(Clone, Debug)]
pub struct RawEnv {
    pub disabled: Option<String>,
    pub skip_hooks: Option<String>,
    pub auto_create: Option<String>,
    pub auto_switch: Option<String>,
    pub current_branch_disabled: Option<String>,
    pub branch_filter_regex: Option<String>,
    pub database_host: Option<String>,
    pub database_user: Option<String>,
    pub database_password: Option<String>,
    pub database_prefix: Option<String>,
    pub database_port: Option<String>,
    pub disabled_branches: Option<String>,
}

impl EnvConfig {
    /// Parses one boolean variable: absent is no value; a recognized
    /// spelling is its value; anything else is an error naming the
    /// variable and the offending text.
    pub fn parse_bool_env(variable: &str, value: &Option<String>) -> (r: Result<
        Option<bool>,
        EnvError,
    >)
        ensures
            value is None ==> r == Ok::<Option<bool>, EnvError>(None),
            value is Some ==> match spec_parse_bool(value->0@) {
                Some(b) => r == Ok::<Option<bool>, EnvError>(Some(b)),
                None => r matches Err(e) && e.variable@ == variable@ && e.value == value->0,
            },
    {
        match value {
            None => Ok(None),
            Some(v) => {
                let lowered = chars_string(&lower_ascii_x(&str_chars(v.as_str())));
                if str_eq(lowered.as_str(), "true") || str_eq(lowered.as_str(), "1") || str_eq(
                    lowered.as_str(),
                    "yes",
                ) || str_eq(lowered.as_str(), "on") {
                    Ok(Some(true))
                } else if str_eq(lowered.as_str(), "false") || str_eq(lowered.as_str(), "0")
                    || str_eq(lowered.as_str(), "no") || str_eq(lowered.as_str(), "off") {
                    Ok(Some(false))
                } else {
                    Err(EnvError { variable: String::from_str(variable), value: v.clone() })
                }
            },
        }
    }

    /// Builds the environment overlay from the raw variable texts. The
    /// five boolean variables are parsed strictly, in a fixed order, and
    /// the first unrecognized one is the error; string variables pass
    /// through; the port parses permissively to "absent"; the
    /// disabled-branches list splits on commas with trimmed entries.
    pub fn load_from_env(raw: &RawEnv) -> (r: Result<EnvConfig, EnvError>)
        ensures
            r is Ok <==> (bool_env_ok(raw.disabled) && bool_env_ok(raw.skip_hooks) && bool_env_ok(
                raw.auto_create,
            ) && bool_env_ok(raw.auto_switch) && bool_env_ok(raw.current_branch_disabled)),
            r matches Err(e) ==> {
                if !bool_env_ok(raw.disabled) {
                    e.variable@ == "PGBRANCH_DISABLED"@ && e.value == raw.disabled->0
                } else if !bool_env_ok(raw.skip_hooks) {
                    e.variable@ == "PGBRANCH_SKIP_HOOKS"@ && e.value == raw.skip_hooks->0
                } else if !bool_env_ok(raw.auto_create) {
                    e.variable@ == "PGBRANCH_AUTO_CREATE"@ && e.value == raw.auto_create->0
                } else if !bool_env_ok(raw.auto_switch) {
                    e.variable@ == "PGBRANCH_AUTO_SWITCH"@ && e.value == raw.auto_switch->0
                } else {
                    e.variable@ == "PGBRANCH_CURRENT_BRANCH_DISABLED"@ && e.value
                        == raw.current_branch_disabled->0
                }
            },
            r matches Ok(c) ==> {
                &&& c.disabled == spec_parse_bool_opt(raw.disabled)
                &&& c.skip_hooks == spec_parse_bool_opt(raw.skip_hooks)
                &&& c.auto_create == spec_parse_bool_opt(raw.auto_create)
                &&& c.auto_switch == spec_parse_bool_opt(raw.auto_switch)
                &&& c.current_branch_disabled == spec_parse_bool_opt(raw.current_branch_disabled)
                &&& c.branch_filter_regex == raw.branch_filter_regex
                &&& c.database_host == raw.database_host
                &&& c.database_user == raw.database_user
                &&& c.database_password == raw.database_password
                &&& c.database_prefix == raw.database_prefix
                &&& c.database_port == (match raw.database_port {
                    Some(s) => parse_u16_spec(s@),
                    None => None,
                })
                &&& (c.disabled_branches is Some <==> raw.disabled_branches is Some)
                &&& (raw.disabled_branches is Some ==> c.disabled_branches->0.deep_view()
                    == split_trimmed(raw.disabled_branches->0@, ','))
            },
    {
        let disabled = match Self::parse_bool_env("PGBRANCH_DISABLED", &raw.disabled) {
            Ok(v) => v,
            Err(e) => {
                return Err(e);
            },
        };
        let skip_hooks = match Self::parse_bool_env("PGBRANCH_SKIP_HOOKS", &raw.skip_hooks) {
            Ok(v) => v,
            Err(e) => {
                return Err(e);
            },
        };
        let auto_create = match Self::parse_bool_env("PGBRANCH_AUTO_CREATE", &raw.auto_create) {
            Ok(v) => v,
            Err(e) => {
                return Err(e);
            },
        };
        let auto_switch = match Self::parse_bool_env("PGBRANCH_AUTO_SWITCH", &raw.auto_switch) {
            Ok(v) => v,
            Err(e) => {
                return Err(e);
            },
        };
        let current_branch_disabled = match Self::parse_bool_env(
            "PGBRANCH_CURRENT_BRANCH_DISABLED",
            &raw.current_branch_disabled,
        ) {
            Ok(v) => v,
            Err(e) => {
                return Err(e);
            },
        };
        let database_port: Option<u16> = match &raw.database_port {
            Some(s) => parse_u16(&str_chars(s.as_str())),
            None => None,
        };
        let disabled_branches: Option<Vec<String>> = match &raw.disabled_branches {
            Some(s) => Some(strings_of_chars(&split_trim(&str_chars(s.as_str()), ','))),
            None => None,
        };
        Ok(
            EnvConfig {
                disabled,
                skip_hooks,
                auto_create,
                auto_switch,
                branch_filter_regex: crate::config::clone_opt_string(&raw.branch_filter_regex),
                disabled_branches,
                current_branch_disabled,
                database_host: crate::config::clone_opt_string(&raw.database_host),
                database_port,
                database_user: crate::config::clone_opt_string(&raw.database_user),
                database_password: crate::config::clone_opt_string(&raw.database_password),
                database_prefix: crate::config::clone_opt_string(&raw.database_prefix),
            },
        )
    }
}

} // verus!

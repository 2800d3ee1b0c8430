//! Mapping of Git branch names to PostgreSQL database identifiers, and
//! template-variable substitution for post-commands.

use vstd::prelude::*;
use vstd::string::*;

use crate::config::{Config, NamingStrategy};
use crate::text::{
    chars_string, contains_string, dec_str, hash16, hash16_x, hex4, hex4_x, hex_digit, is_db_char,
    is_digit, is_lower, lemma_hash16_range, lemma_sanitize_props, push_all, replace_all,
    replace_all_x, sanitize, sanitize_chars, str_chars, str_eq, u16_dec_chars,
};

verus! {

/// The sanitized branch name combined with the configured prefix,
/// according to the naming strategy.
pub open spec fn combined_name(strategy: NamingStrategy, prefix: Seq<char>, san: Seq<char>) -> Seq<
    char,
> {
    match strategy {
        NamingStrategy::Prefix => prefix + seq!['_'] + san,
        NamingStrategy::Suffix => san + seq!['_'] + prefix,
        NamingStrategy::Replace => san,
    }
}

/// Enforcement of the 63-character PostgreSQL identifier limit: an
/// over-long name is truncated and suffixed with '_' and four hexadecimal
/// digits of a hash of the full name, for a total of exactly 63.
pub open spec fn limit63(name: Seq<char>) -> Seq<char> {
    if name.len() <= 63 {
        name
    } else {
        name.take(58) + seq!['_'] + hex4(hash16(name))
    }
}

/// The database name derived from a branch name: the template database for
/// the reserved `"_main"` token and for excluded branches, otherwise the
/// sanitized name combined with the prefix and cut to the length limit.
pub open spec fn spec_database_name(cfg: Config, branch: Seq<char>) -> Seq<char> {
    if branch == "_main"@ || cfg.git.exclude_branches.deep_view().contains(branch) {
        cfg.database.template_database@
    } else {
        limit63(
            combined_name(
                cfg.behavior.naming_strategy,
                cfg.database.database_prefix@,
                sanitize(branch),
            ),
        )
    }
}

/// Executable form of `limit63`.
pub fn limit63_x(name: Vec<char>) -> (r: Vec<char>)
    ensures
        r@ == limit63(name@),
{
    if name.len() <= 63 {
        return name;
    }
    let h = hash16_x(&name);
    let hex = hex4_x(h);
    let mut out = name;
    let ghost full = out@;
    out.truncate(58);
    out.push('_');
    push_all(&mut out, &hex);
    proof {
        assert(out@ =~= full.take(58) + seq!['_'] + hex4(hash16(full)));
    }
    out
}

impl Config {
    /// The database identifier for a branch: `"_main"` and excluded
    /// branches map to the template database; any other branch is
    /// sanitized, combined with the prefix per the naming strategy, and
    /// cut to 63 characters with a hash suffix when over-long.
    pub fn get_database_name(&self, branch_name: &str) -> (r: String)
        ensures
            r@ == spec_database_name(*self, branch_name@),
    {
        if str_eq(branch_name, "_main") {
            return self.database.template_database.clone();
        }
        if contains_string(&self.git.exclude_branches, branch_name) {
            return self.database.template_database.clone();
        }
        let bchars = str_chars(branch_name);
        let san = sanitize_chars(&bchars);
        let prefix = str_chars(self.database.database_prefix.as_str());
        let mut combined: Vec<char> = Vec::new();
        match self.behavior.naming_strategy {
            NamingStrategy::Prefix => {
                push_all(&mut combined, &prefix);
                combined.push('_');
                push_all(&mut combined, &san);
            },
            NamingStrategy::Suffix => {
                push_all(&mut combined, &san);
                combined.push('_');
                push_all(&mut combined, &prefix);
            },
            NamingStrategy::Replace => {
                push_all(&mut combined, &san);
            },
        }
        proof {
            assert(combined@ =~= combined_name(
                self.behavior.naming_strategy,
                self.database.database_prefix@,
                sanitize(branch_name@),
            ));
        }
        let limited = limit63_x(combined);
        chars_string(&limited)
    }

    /// The sanitized form of a branch name alone, for display and for the
    /// local state store.
    pub fn get_normalized_branch_name(&self, branch_name: &str) -> (r: String)
        ensures
            r@ == sanitize(branch_name@),
    {
        let bchars = str_chars(branch_name);
        let san = sanitize_chars(&bchars);
        chars_string(&san)
    }
}

/// A name acceptable to PostgreSQL as produced by this library: between 1
/// and 63 characters, starting with a lowercase letter or underscore,
/// containing only lowercase letters, digits, underscores and dollar signs.
pub open spec fn valid_db_ident(s: Seq<char>) -> bool {
    &&& 1 <= s.len() <= 63
    &&& (is_lower(s[0]) || s[0] == '_')
    &&& forall|i: int| 0 <= i < s.len() ==> is_db_char(#[trigger] s[i])
}

/// `"_main"` and every excluded branch resolve to the template database
/// verbatim, whatever the naming strategy.
pub proof fn lemma_main_and_excluded_use_template(cfg: Config, branch: Seq<char>)
    requires
        branch == "_main"@ || cfg.git.exclude_branches.deep_view().contains(branch),
    ensures
        spec_database_name(cfg, branch) == cfg.database.template_database@,
{
}

/// Hexadecimal digits are identifier characters.
proof fn lemma_hex_digit_db(d: int)
    requires
        0 <= d < 16,
    ensures
        is_db_char(hex_digit(d)),
{
}

/// For every branch name, the derived database name is a valid PostgreSQL
/// identifier of at most 63 characters, provided the configured template
/// database and prefix are themselves valid identifiers and, for the
/// suffix and replace strategies, the sanitized branch name does not begin
/// with a dollar sign (a branch such as "$x" otherwise yields a name no
/// identifier pattern accepts).
pub proof fn lemma_database_name_valid(cfg: Config, branch: Seq<char>)
    requires
        valid_db_ident(cfg.database.template_database@),
        valid_db_ident(cfg.database.database_prefix@),
        cfg.behavior.naming_strategy == NamingStrategy::Prefix || sanitize(branch)[0] != '$',
    ensures
        valid_db_ident(spec_database_name(cfg, branch)),
{
    if branch == "_main"@ || cfg.git.exclude_branches.deep_view().contains(branch) {
    } else {
        let prefix = cfg.database.database_prefix@;
        let san = sanitize(branch);
        lemma_sanitize_props(branch);
        let name = combined_name(cfg.behavior.naming_strategy, prefix, san);
        assert(name.len() >= 1);
        assert(forall|i: int| 0 <= i < name.len() ==> is_db_char(#[trigger] name[i])) by {
            assert forall|i: int| 0 <= i < name.len() implies is_db_char(#[trigger] name[i]) by {
                match cfg.behavior.naming_strategy {
                    NamingStrategy::Prefix => {
                        if i < prefix.len() {
                            assert(name[i] == prefix[i]);
                        } else if i == prefix.len() {
                            assert(name[i] == '_');
                        } else {
                            assert(name[i] == san[i - prefix.len() - 1]);
                        }
                    },
                    NamingStrategy::Suffix => {
                        if i < san.len() {
                            assert(name[i] == san[i]);
                        } else if i == san.len() {
                            assert(name[i] == '_');
                        } else {
                            assert(name[i] == prefix[i - san.len() - 1]);
                        }
                    },
                    NamingStrategy::Replace => {
                        assert(name[i] == san[i]);
                    },
                }
            }
        }
        assert(is_lower(name[0]) || name[0] == '_') by {
            match cfg.behavior.naming_strategy {
                NamingStrategy::Prefix => {
                    assert(name[0] == prefix[0]);
                },
                NamingStrategy::Suffix => {
                    assert(name[0] == san[0]);
                    assert(is_db_char(san[0]) && !is_digit(san[0]) && san[0] != '$');
                },
                NamingStrategy::Replace => {
                    assert(name[0] == san[0]);
                    assert(is_db_char(san[0]) && !is_digit(san[0]) && san[0] != '$');
                },
            }
        }
        let out = limit63(name);
        if name.len() <= 63 {
            assert(out == name);
        } else {
            lemma_hash16_range(name);
            let h = hash16(name);
            assert(out.len() == 63);
            assert(out[0] == name[0]);
            assert(forall|i: int| 0 <= i < out.len() ==> is_db_char(#[trigger] out[i])) by {
                assert forall|i: int| 0 <= i < out.len() implies is_db_char(
                    #[trigger] out[i],
                ) by {
                    if i < 58 {
                        assert(out[i] == name[i]);
                    } else if i == 58 {
                        assert(out[i] == '_');
                    } else {
                        assert(out[i] == hex4(h)[i - 59]);
                        lemma_hex_digit_db(h / 4096 % 16);
                        lemma_hex_digit_db(h / 256 % 16);
                        lemma_hex_digit_db(h / 16 % 16);
                        lemma_hex_digit_db(h % 16);
                    }
                }
            }
        }
    }
}

} // verus!

verus! {

/// The values available to post-command templates for one branch.
#[derive(Clone, Debug)]
pub struct TemplateContext {
    pub branch_name: String,
    pub db_name: String,
    pub db_host: String,
    pub db_port: u16,
    pub db_user: String,
    pub db_password: Option<String>,
    pub template_db: String,
    pub prefix: String,
}

impl TemplateContext {
    /// Collects the substitution values for a branch from a configuration.
    pub fn new(config: &Config, branch_name: &str) -> (r: TemplateContext)
        ensures
            r.branch_name@ == branch_name@,
            r.db_name@ == spec_database_name(*config, branch_name@),
            r.db_host == config.database.host,
            r.db_port == config.database.port,
            r.db_user == config.database.user,
            r.db_password == config.database.password,
            r.template_db == config.database.template_database,
            r.prefix == config.database.database_prefix,
    {
        TemplateContext {
            branch_name: String::from_str(branch_name),
            db_name: config.get_database_name(branch_name),
            db_host: config.database.host.clone(),
            db_port: config.database.port,
            db_user: config.database.user.clone(),
            db_password: match &config.database.password {
                Some(p) => Some(p.clone()),
                None => None,
            },
            template_db: config.database.template_database.clone(),
            prefix: config.database.database_prefix.clone(),
        }
    }
}

/// A template with every placeholder replaced by its value from the
/// context, in a fixed order; the password placeholder is replaced only
/// when a password is present.
pub open spec fn spec_substitute(t: Seq<char>, ctx: TemplateContext) -> Seq<char> {
    let r1 = replace_all(t, "{branch_name}"@, ctx.branch_name@);
    let r2 = replace_all(r1, "{db_name}"@, ctx.db_name@);
    let r3 = replace_all(r2, "{db_host}"@, ctx.db_host@);
    let r4 = replace_all(r3, "{db_port}"@, dec_str(ctx.db_port as int));
    let r5 = replace_all(r4, "{db_user}"@, ctx.db_user@);
    let r6 = replace_all(r5, "{template_db}"@, ctx.template_db@);
    let r7 = replace_all(r6, "{prefix}"@, ctx.prefix@);
    if ctx.db_password is Some {
        replace_all(r7, "{db_password}"@, ctx.db_password->0@)
    } else {
        r7
    }
}

impl Config {
    /// Replaces every `{placeholder}` of the template with the
    /// corresponding value from the context.
    pub fn substitute_template_variables(&self, template: &str, context: &TemplateContext) -> (r:
        String)
        ensures
            r@ == spec_substitute(template@, *context),
    {
        proof {
            reveal_strlit("{branch_name}");
            reveal_strlit("{db_name}");
            reveal_strlit("{db_host}");
            reveal_strlit("{db_port}");
            reveal_strlit("{db_user}");
            reveal_strlit("{template_db}");
            reveal_strlit("{prefix}");
            reveal_strlit("{db_password}");
        }
        let cur = str_chars(template);
        let cur = replace_all_x(&cur, &str_chars("{branch_name}"), &str_chars(
            context.branch_name.as_str(),
        ));
        let cur = replace_all_x(&cur, &str_chars("{db_name}"), &str_chars(
            context.db_name.as_str(),
        ));
        let cur = replace_all_x(&cur, &str_chars("{db_host}"), &str_chars(
            context.db_host.as_str(),
        ));
        let cur = replace_all_x(&cur, &str_chars("{db_port}"), &u16_dec_chars(context.db_port));
        let cur = replace_all_x(&cur, &str_chars("{db_user}"), &str_chars(
            context.db_user.as_str(),
        ));
        let cur = replace_all_x(&cur, &str_chars("{template_db}"), &str_chars(
            context.template_db.as_str(),
        ));
        let cur = replace_all_x(&cur, &str_chars("{prefix}"), &str_chars(
            context.prefix.as_str(),
        ));
        let cur = match &context.db_password {
            Some(p) => replace_all_x(&cur, &str_chars("{db_password}"), &str_chars(p.as_str())),
            None => cur,
        };
        chars_string(&cur)
    }
}

} // verus!

//! Branch classification: whether a branch should trigger database
//! creation or a switch, and matching of disabled-branch patterns.

use vstd::prelude::*;
use vstd::string::*;

use crate::config::Config;
use crate::text::{chars_string, contains_char, contains_string, replace_all, replace_all_x,
    str_chars, str_eq};

verus! {

/// Whether `regex::Regex::new` accepts the pattern.
pub uninterp spec fn regex_valid(pattern: Seq<char>) -> bool;

/// Whether the compiled pattern matches anywhere in the text, as
/// `regex::Regex::is_match` reports it; only meaningful for patterns
/// that `regex_valid` holds of.
pub uninterp spec fn regex_match(pattern: Seq<char>, text: Seq<char>) -> bool;

/// Relies on regex::Regex::new, which compiles a pattern exactly when it
/// is a valid regular expression, and regex::Regex::is_match, which tests
/// whether the pattern matches anywhere in the text. Both results depend
/// on nothing but their arguments.
#[verifier::external_body]
fn regex_is_match(pattern: &str, text: &str) -> (r: Option<bool>)
    ensures
        r is Some <==> regex_valid(pattern@),
        r is Some ==> r->0 == regex_match(pattern@, text@),
{
    match regex::Regex::new(pattern) {
        Ok(re) => Some(re.is_match(text)),
        Err(_) => None,
    }
}

/// The verdict of an optional filter regex on a branch name: an absent
/// filter allows every branch; a present one allows exactly the branches
/// it matches; an invalid one allows none (creation and switching fail
/// closed).
pub open spec fn filter_allows(filter: Option<String>, branch: Seq<char>) -> bool {
    match filter {
        Some(f) => regex_valid(f@) && regex_match(f@, branch),
        None => true,
    }
}

/// Branch creation gate: `auto_create_on_branch` must be on, the branch
/// must not be excluded, and a configured filter regex must match.
pub open spec fn spec_should_create(cfg: Config, branch: Seq<char>) -> bool {
    &&& cfg.git.auto_create_on_branch
    &&& !cfg.git.exclude_branches.deep_view().contains(branch)
    &&& filter_allows(cfg.git.branch_filter_regex, branch)
}

/// Branch switch gate: `auto_switch_on_branch` must be on; the main branch
/// always passes; any other branch must not be excluded and must pass a
/// configured filter regex.
pub open spec fn spec_should_switch(cfg: Config, branch: Seq<char>) -> bool {
    &&& cfg.git.auto_switch_on_branch
    &&& (branch == cfg.git.main_branch@ || (!cfg.git.exclude_branches.deep_view().contains(branch)
        && filter_allows(cfg.git.branch_filter_regex, branch)))
}

impl Config {
    /// Whether a Git branch should trigger creation of a database branch.
    pub fn should_create_branch(&self, branch_name: &str) -> (r: bool)
        ensures
            r == spec_should_create(*self, branch_name@),
    {
        if !self.git.auto_create_on_branch {
            return false;
        }
        if contains_string(&self.git.exclude_branches, branch_name) {
            return false;
        }
        match &self.git.branch_filter_regex {
            Some(filter) => match regex_is_match(filter.as_str(), branch_name) {
                Some(b) => b,
                None => false,
            },
            None => true,
        }
    }

    /// Whether a Git branch should trigger a switch of the active database
    /// branch; the main branch is always switchable.
    pub fn should_switch_on_branch(&self, branch_name: &str) -> (r: bool)
        ensures
            r == spec_should_switch(*self, branch_name@),
    {
        if !self.git.auto_switch_on_branch {
            return false;
        }
        if str_eq(branch_name, self.git.main_branch.as_str()) {
            return true;
        }
        if contains_string(&self.git.exclude_branches, branch_name) {
            return false;
        }
        match &self.git.branch_filter_regex {
            Some(filter) => match regex_is_match(filter.as_str(), branch_name) {
                Some(b) => b,
                None => false,
            },
            None => true,
        }
    }
}

/// Switching to the configured main branch is gated only by
/// `auto_switch_on_branch`: exclusion lists and the filter regex do not
/// apply to it.
pub proof fn lemma_switch_to_main_bypasses_filters(cfg: Config, branch: Seq<char>)
    requires
        branch == cfg.git.main_branch@,
        cfg.git.auto_switch_on_branch,
    ensures
        spec_should_switch(cfg, branch),
{
}

/// The translation of a disabled-branch glob to a regular expression:
/// every `*` becomes `.*`; all other characters are passed through and
/// keep whatever meaning they have in a regular expression.
pub open spec fn glob_to_regex(p: Seq<char>) -> Seq<char> {
    replace_all(p, seq!['*'], seq!['.', '*'])
}

/// A disabled-branch pattern matches: a pattern containing `*` is
/// translated to a regular expression and must be valid and match
/// (an invalid translation disables nothing: matching fails open);
/// any other pattern must equal the branch name exactly.
pub open spec fn pattern_matches(p: Seq<char>, branch: Seq<char>) -> bool {
    if p.contains('*') {
        regex_valid(glob_to_regex(p)) && regex_match(glob_to_regex(p), branch)
    } else {
        p == branch
    }
}

/// Some pattern of the list matches the branch name.
pub open spec fn any_pattern_matches(ps: Seq<Seq<char>>, branch: Seq<char>) -> bool {
    exists|i: int| 0 <= i < ps.len() && pattern_matches(ps[i], branch)
}

/// Whether any of the exact-or-glob patterns matches the branch name.
pub fn branch_matches_patterns(branch_name: &str, patterns: &Vec<String>) -> (r: bool)
    ensures
        r == any_pattern_matches(patterns.deep_view(), branch_name@),
{
    let mut i: usize = 0;
    while i < patterns.len()
        invariant
            i <= patterns@.len(),
            forall|j: int| 0 <= j < i ==> !pattern_matches(patterns.deep_view()[j], branch_name@),
        decreases patterns.len() - i,
    {
        let p = str_chars(patterns[i].as_str());
        proof {
            assert(p@ == patterns.deep_view()[i as int]);
        }
        let matched: bool = if contains_char(&p, '*') {
            let star: Vec<char> = {
                let mut v: Vec<char> = Vec::new();
                v.push('*');
                v
            };
            let dot_star: Vec<char> = {
                let mut v: Vec<char> = Vec::new();
                v.push('.');
                v.push('*');
                v
            };
            proof {
                assert(star@ =~= seq!['*']);
                assert(dot_star@ =~= seq!['.', '*']);
            }
            let translated = replace_all_x(&p, &star, &dot_star);
            let translated_s = chars_string(&translated);
            match regex_is_match(translated_s.as_str(), branch_name) {
                Some(b) => b,
                None => false,
            }
        } else {
            str_eq(patterns[i].as_str(), branch_name)
        };
        if matched {
            return true;
        }
        i = i + 1;
    }
    proof {
        assert(forall|j: int|
            0 <= j < patterns.deep_view().len() ==> !pattern_matches(
                patterns.deep_view()[j],
                branch_name@,
            ));
    }
    false
}

} // verus!

//! The Git hook script the tool installs, and the recognition of hooks it
//! wrote, so that uninstalling never removes a hook belonging to someone
//! else.

use vstd::prelude::*;
use vstd::string::*;

use crate::text::{contains_seq, contains_seq_x, str_chars};

verus! {

/// The marker line by which the tool recognizes its own hooks.
pub open spec fn hook_marker() -> Seq<char> {
    "pgbranch auto-generated hook"@
}

/// The text of the shell script installed as a hook.
pub open spec fn hook_script_text() -> Seq<char> {
    "#!/bin/sh\n# pgbranch auto-generated hook\n# This hook automatically creates database branches when switching Git branches\n\n# For post-checkout hook, check if this is a branch checkout (not file checkout)\n# Parameters: $1=previous HEAD, $2=new HEAD, $3=checkout type (1=branch, 0=file)\nif [ \"$3\" = \"0\" ]; then\n    # This is a file checkout, not a branch checkout - skip pgbranch execution\n    exit 0\nfi\n\nPREV_BRANCH=`git reflog | awk 'NR==1{ print $6; exit }'`\nNEW_BRANCH=`git reflog | awk 'NR==1{ print $8; exit }'`\n\nif [ \"$PREV_BRANCH\" == \"$NEW_BRANCH\" ]; then\n    # This is the same branch checkout - skip pgbranch execution\n    exit 0\nfi\n\n# Check if pgbranch is available\nif command -v pgbranch >/dev/null 2>&1; then\n    # Run pgbranch git-hook command to handle branch creation\n    pgbranch git-hook\nelse\n    echo \"pgbranch not found in PATH, skipping database branch creation\"\nfi\n"@
}

/// Whether hook file text was written by this tool: it carries the marker
/// somewhere.
pub fn is_pgbranch_hook_content(content: &str) -> (r: bool)
    ensures
        r == contains_seq(content@, hook_marker()),
{
    contains_seq_x(&str_chars(content), &str_chars("pgbranch auto-generated hook"))
}

/// The shell script installed as post-checkout and post-merge hook. It
/// always carries the marker, so `is_pgbranch_hook_content` accepts it.
pub fn generate_hook_script() -> (r: String)
    ensures
        r@ == hook_script_text(),
        contains_seq(r@, hook_marker()),
{
    let r = String::from_str(
        "#!/bin/sh\n# pgbranch auto-generated hook\n# This hook automatically creates database branches when switching Git branches\n\n# For post-checkout hook, check if this is a branch checkout (not file checkout)\n# Parameters: $1=previous HEAD, $2=new HEAD, $3=checkout type (1=branch, 0=file)\nif [ \"$3\" = \"0\" ]; then\n    # This is a file checkout, not a branch checkout - skip pgbranch execution\n    exit 0\nfi\n\nPREV_BRANCH=`git reflog | awk 'NR==1{ print $6; exit }'`\nNEW_BRANCH=`git reflog | awk 'NR==1{ print $8; exit }'`\n\nif [ \"$PREV_BRANCH\" == \"$NEW_BRANCH\" ]; then\n    # This is the same branch checkout - skip pgbranch execution\n    exit 0\nfi\n\n# Check if pgbranch is available\nif command -v pgbranch >/dev/null 2>&1; then\n    # Run pgbranch git-hook command to handle branch creation\n    pgbranch git-hook\nelse\n    echo \"pgbranch not found in PATH, skipping database branch creation\"\nfi\n",
    );
    proof {
        reveal_strlit(
            "#!/bin/sh\n# pgbranch auto-generated hook\n# This hook automatically creates database branches when switching Git branches\n\n# For post-checkout hook, check if this is a branch checkout (not file checkout)\n# Parameters: $1=previous HEAD, $2=new HEAD, $3=checkout type (1=branch, 0=file)\nif [ \"$3\" = \"0\" ]; then\n    # This is a file checkout, not a branch checkout - skip pgbranch execution\n    exit 0\nfi\n\nPREV_BRANCH=`git reflog | awk 'NR==1{ print $6; exit }'`\nNEW_BRANCH=`git reflog | awk 'NR==1{ print $8; exit }'`\n\nif [ \"$PREV_BRANCH\" == \"$NEW_BRANCH\" ]; then\n    # This is the same branch checkout - skip pgbranch execution\n    exit 0\nfi\n\n# Check if pgbranch is available\nif command -v pgbranch >/dev/null 2>&1; then\n    # Run pgbranch git-hook command to handle branch creation\n    pgbranch git-hook\nelse\n    echo \"pgbranch not found in PATH, skipping database branch creation\"\nfi\n",
        );
        reveal_strlit("pgbranch auto-generated hook");
        assert(r@.subrange(12, 40) =~= hook_marker());
        assert(crate::text::match_at(r@, hook_marker(), 12));
    }
    r
}

} // verus!

use vstd::prelude::*;

use crate::error::GuardError;
use crate::text::{trim, trim_end_ws, trim_spec, trim_start_ws};

verus! {

/// The repository configuration key that switches the pre-commit scan on.
pub const ENABLE_KEY: &'static str = "hooks.gitleaks-enable";

/// The value stored under the key for each state of the switch.
pub open spec fn flag_value_spec(enabled: bool) -> Seq<char> {
    if enabled {
        "true"@
    } else {
        "false"@
    }
}

/// The arguments of the configuration command that stores the switch.
pub open spec fn config_set_args_spec(enabled: bool) -> Seq<Seq<char>> {
    seq!["config"@, ENABLE_KEY@, flag_value_spec(enabled)]
}

/// The arguments of the configuration command that reads the switch as a boolean.
pub open spec fn config_read_args_spec() -> Seq<Seq<char>> {
    seq!["config"@, "--bool"@, ENABLE_KEY@]
}

/// The views of a list of strings.
pub open spec fn views(v: Seq<String>) -> Seq<Seq<char>> {
    v.map_values(|a: String| a@)
}

/// How the read command's result is taken: enabled only when it succeeded and
/// printed `true`; an unset key makes the command fail, which reads as disabled.
pub open spec fn enabled_spec(success: bool, stdout: Seq<char>) -> bool {
    success && trim_spec(stdout) == "true"@
}

/// The value stored for a state of the switch.
pub fn flag_value(enabled: bool) -> (r: String)
    ensures
        r@ == flag_value_spec(enabled),
{
    if enabled {
        String::from_str("true")
    } else {
        String::from_str("false")
    }
}

/// Arguments that set the switch to `enabled`.
pub fn config_set_args(enabled: bool) -> (r: Vec<String>)
    ensures
        views(r@) == config_set_args_spec(enabled),
{
    let mut v: Vec<String> = Vec::new();
    v.push(String::from_str("config"));
    v.push(String::from_str(ENABLE_KEY));
    v.push(flag_value(enabled));
    assert(views(v@) =~= config_set_args_spec(enabled));
    v
}

/// Arguments for the `enable` and `disable` commands, which act only inside
/// a repository and fail with `NotARepository` elsewhere.
pub fn toggle_args(in_repository: bool, enabled: bool) -> (r: Result<Vec<String>, GuardError>)
    ensures
        in_repository ==> (r matches Ok(v) && views(v@) == config_set_args_spec(enabled)),
        !in_repository ==> r matches Err(GuardError::NotARepository),
{
    if in_repository {
        Ok(config_set_args(enabled))
    } else {
        Err(GuardError::NotARepository)
    }
}

/// Arguments that read the switch.
pub fn config_read_args() -> (r: Vec<String>)
    ensures
        views(r@) == config_read_args_spec(),
{
    let mut v: Vec<String> = Vec::new();
    v.push(String::from_str("config"));
    v.push(String::from_str("--bool"));
    v.push(String::from_str(ENABLE_KEY));
    assert(views(v@) =~= config_read_args_spec());
    v
}

/// Whether the switch is on, from the read command's success and output.
pub fn enabled_from_config(success: bool, stdout: &str) -> (r: bool)
    ensures
        r == enabled_spec(success, stdout@),
{
    if !success {
        return false;
    }
    let t = trim(stdout);
    let expected = String::from_str("true");
    t == expected
}

/// Reading back a stored value gives the state that was stored: the read
/// command prints the value, optionally followed by a line break.
pub proof fn lemma_toggle_read_back(enabled: bool)
    ensures
        enabled_spec(true, flag_value_spec(enabled)) == enabled,
        enabled_spec(true, flag_value_spec(enabled) + seq!['\n']) == enabled,
{
    reveal_strlit("true");
    reveal_strlit("false");
    let v = flag_value_spec(enabled);
    let w = v + seq!['\n'];
    assert(trim_start_ws(v) == v);
    assert(trim_end_ws(v) == v);
    assert(trim_start_ws(w) == w);
    assert(w.drop_last() =~= v);
    assert(trim_end_ws(w) == v);
    assert(enabled ==> v == "true"@);
    assert(!enabled ==> v.len() != "true"@.len());
}

/// A repository where the switch was never set, or where it cannot be read,
/// counts as disabled.
pub proof fn lemma_unset_reads_disabled(stdout: Seq<char>)
    ensures
        !enabled_spec(false, stdout),
{
}

/// The pre-commit hook. When the repository runs it before a commit, it
/// checks the switch and, if it is on, runs the scanner and blocks the commit
/// when leaks are found.
pub const PRE_COMMIT_HOOK: &'static str = r#"#!/bin/bash

# Color codes for terminal output
GREEN='\033[0;32m'
RED='\033[0;31m'
BLUE='\033[0;34m'
NC='\033[0m' # No Color

# Function to check if Gitleaks is enabled in Git config
function is_gitleaks_enabled() {
    git config --bool hooks.gitleaks-enable
}

# Function to run Gitleaks and check for secrets
function run_gitleaks() {
    echo -e "${GREEN}Running Gitleaks...${NC}"
    gitleaksOutput=$(gitleaks detect --redact --verbose --report-format json --report-path gitleaks-report.json --config .gitleaks.toml)
    gitleaksExitCode=$?

    # Check if Gitleaks found any secrets in the repository
    if [[ $gitleaksExitCode -eq 1 ]]; then
        echo -e "${RED}Found the following secrets:${NC}"
        echo "$gitleaksOutput"
        echo -e "${RED}Committing with existing secrets is not allowed.${NC}"
        exit 1
    else
        echo -e "${GREEN}Secrets check passed successfully.${NC}"
    fi
}

# Main script execution
if [[ "$(is_gitleaks_enabled)" == "true" ]]; then
    run_gitleaks
else
    echo -e "${BLUE}Gitleaks is not enabled in the Git config.${NC}"
fi
"#;

/// The hook script's text.
pub fn pre_commit_hook_script() -> (r: String)
    ensures
        r@ == PRE_COMMIT_HOOK@,
{
    String::from_str(PRE_COMMIT_HOOK)
}

} // verus!

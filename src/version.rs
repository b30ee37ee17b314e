use vstd::prelude::*;

use crate::error::GuardError;
use crate::text::{strip_leading, trim, trim_spec, trim_start_char};

verus! {

/// A version string without its leading `v` characters.
pub open spec fn normalized(v: Seq<char>) -> Seq<char> {
    strip_leading(v, 'v')
}

/// An update is due exactly when the two versions differ once their leading
/// `v` is dropped: a plain string comparison, so a downgrade counts too.
pub open spec fn needs_update_spec(current: Seq<char>, latest: Seq<char>) -> bool {
    normalized(current) != normalized(latest)
}

/// Drops the leading `v` characters of a version tag.
pub fn normalize_version(tag: &str) -> (r: String)
    ensures
        r@ == normalized(tag@),
{
    trim_start_char(tag, 'v')
}

/// Whether the installed version differs from the latest published one.
pub fn compare_versions(current: &str, latest: &str) -> (r: bool)
    ensures
        r == needs_update_spec(current@, latest@),
{
    let c = normalize_version(current);
    let l = normalize_version(latest);
    c != l
}

/// The installed version as reported by the scanner's `version` command:
/// its output without surrounding white space, or `NotInstalled` when the
/// command did not succeed.
pub fn version_from_output(success: bool, stdout: &str) -> (r: Result<String, GuardError>)
    ensures
        success ==> (r matches Ok(v) && v@ == trim_spec(stdout@)),
        !success ==> r == Err::<String, GuardError>(GuardError::NotInstalled),
{
    if success {
        Ok(trim(stdout))
    } else {
        Err(GuardError::NotInstalled)
    }
}

/// What the `update` command does once both versions are known.
#[derive(Clone, Copy, Debug, PartialEq, Eq, Structural)]
pub enum UpdatePlan {
    /// Nothing to do.
    AlreadyLatest,
    /// Same version, reinstalled because it was forced.
    ForcedReinstall,
    /// A different version is published; `confirm` says whether to ask first.
    NewVersion { confirm: bool },
}

/// The decision of the `update` command.
pub open spec fn update_plan_spec(current: Seq<char>, latest: Seq<char>, force: bool) -> UpdatePlan {
    if !needs_update_spec(current, latest) {
        if force {
            UpdatePlan::ForcedReinstall
        } else {
            UpdatePlan::AlreadyLatest
        }
    } else {
        UpdatePlan::NewVersion { confirm: !force }
    }
}

/// Decides whether to update, reinstall or stop.
pub fn plan_update(current: &str, latest: &str, force: bool) -> (r: UpdatePlan)
    ensures
        r == update_plan_spec(current@, latest@, force),
{
    let needs = compare_versions(current, latest);
    if !needs {
        if force {
            UpdatePlan::ForcedReinstall
        } else {
            UpdatePlan::AlreadyLatest
        }
    } else {
        UpdatePlan::NewVersion { confirm: !force }
    }
}

/// Stripping the leading `v` characters a second time changes nothing.
pub proof fn lemma_normalized_idempotent(v: Seq<char>)
    ensures
        normalized(normalized(v)) == normalized(v),
    decreases v.len(),
{
    if v.len() > 0 && v[0] == 'v' {
        lemma_normalized_idempotent(v.drop_first());
    }
}

/// The comparison ignores a leading `v` on either side, is symmetric, and
/// flags every pair of differing versions, whatever their order.
pub proof fn lemma_needs_update_laws(current: Seq<char>, latest: Seq<char>)
    ensures
        needs_update_spec(current, latest) == needs_update_spec(latest, current),
        needs_update_spec(seq!['v'] + current, latest) == needs_update_spec(current, latest),
        !needs_update_spec(current, current),
{
    assert((seq!['v'] + current).drop_first() =~= current);
}

} // verus!

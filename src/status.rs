use vstd::prelude::*;

verus! {

/// State of the pre-commit hook file.
#[derive(Clone, Copy, Debug, PartialEq, Eq, Structural)]
pub enum HookStatus {
    /// Present and executable.
    Enabled,
    /// Present but not executable.
    Disabled,
    NotInstalled,
}

/// A step that would complete the setup.
#[derive(Clone, Copy, Debug, PartialEq, Eq, Structural)]
pub enum Recommendation {
    InitRepository,
    InstallGitleaks,
    CreateConfig,
    EnableHook,
    SetupHook,
}

/// What the `status` command found, each part queried afresh.
#[derive(Clone, Copy, Debug, PartialEq, Eq, Structural)]
pub struct StatusReport {
    pub in_git_repo: bool,
    pub gitleaks_installed: bool,
    pub config_exists: bool,
    pub hook: HookStatus,
}

/// The hook's state from whether its file exists and is executable.
pub open spec fn hook_status_spec(exists: bool, executable: bool) -> HookStatus {
    if !exists {
        HookStatus::NotInstalled
    } else if executable {
        HookStatus::Enabled
    } else {
        HookStatus::Disabled
    }
}

/// Every part of the setup is in place.
pub open spec fn fully_protected_spec(r: StatusReport) -> bool {
    r.in_git_repo && r.gitleaks_installed && r.config_exists && r.hook == HookStatus::Enabled
}

/// The steps that remain, in the order they are shown; none when fully protected.
pub open spec fn recommendations_spec(r: StatusReport) -> Seq<Recommendation> {
    if fully_protected_spec(r) {
        seq![]
    } else {
        (if !r.in_git_repo { seq![Recommendation::InitRepository] } else { seq![] })
        + (if !r.gitleaks_installed { seq![Recommendation::InstallGitleaks] } else { seq![] })
        + (if !r.config_exists { seq![Recommendation::CreateConfig] } else { seq![] })
        + (match r.hook {
            HookStatus::Disabled => seq![Recommendation::EnableHook],
            HookStatus::NotInstalled => seq![Recommendation::SetupHook],
            HookStatus::Enabled => seq![],
        })
    }
}

/// The hook's state from whether its file exists and is executable.
pub fn hook_status(exists: bool, executable: bool) -> (r: HookStatus)
    ensures
        r == hook_status_spec(exists, executable),
{
    if !exists {
        HookStatus::NotInstalled
    } else if executable {
        HookStatus::Enabled
    } else {
        HookStatus::Disabled
    }
}

impl StatusReport {
    /// Whether every part of the setup is in place.
    pub fn is_fully_protected(&self) -> (r: bool)
        ensures
            r == fully_protected_spec(*self),
    {
        self.in_git_repo && self.gitleaks_installed && self.config_exists && self.hook == HookStatus::Enabled
    }

    /// The steps that would complete the setup.
    pub fn recommendations(&self) -> (r: Vec<Recommendation>)
        ensures
            r@ == recommendations_spec(*self),
    {
        let mut v: Vec<Recommendation> = Vec::new();
        if self.is_fully_protected() {
            assert(v@ =~= recommendations_spec(*self));
            return v;
        }
        if !self.in_git_repo {
            v.push(Recommendation::InitRepository);
        }
        if !self.gitleaks_installed {
            v.push(Recommendation::InstallGitleaks);
        }
        if !self.config_exists {
            v.push(Recommendation::CreateConfig);
        }
        match self.hook {
            HookStatus::Disabled => v.push(Recommendation::EnableHook),
            HookStatus::NotInstalled => v.push(Recommendation::SetupHook),
            HookStatus::Enabled => {},
        }
        assert(v@ =~= recommendations_spec(*self));
        v
    }
}

} // verus!

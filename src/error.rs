use vstd::prelude::*;

verus! {

/// Why a scan did not come back clean.
#[derive(Clone, Copy, Debug, PartialEq, Eq, Structural)]
pub enum ScanFailure {
    /// The scanner ran and reported leaks.
    SecretsFound,
    /// The scanner could not run, or stopped with an error of its own.
    ToolError,
}

/// Every way a command of the tool can fail.
#[derive(Clone, Copy, Debug, PartialEq, Eq, Structural)]
pub enum GuardError {
    NotARepository,
    NotInstalled,
    UnsupportedPlatform,
    AssetNotFound,
    DownloadFailed,
    ExtractionFailed,
    BinaryNotFound,
    InstallFailed,
    PermissionFailed,
    ScanFailed(ScanFailure),
    UpdateCheckFailed,
    ConfigWriteFailed,
}

} // verus!

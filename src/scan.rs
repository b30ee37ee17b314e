use vstd::prelude::*;

use crate::error::{GuardError, ScanFailure};
use crate::hook::views;
use crate::install::opt_view;
use crate::text::{is_last_segment_start, last_segment, strip_trailing, trim_end_str};

verus! {

/// The arguments of the scanner's `detect` command for a path and an
/// optional configuration file.
pub open spec fn detect_args_spec(path: Seq<char>, config: Option<Seq<char>>) -> Seq<Seq<char>> {
    let base = seq!["detect"@, "--source"@, path, "--verbose"@];
    match config {
        Some(c) => base + seq!["--config"@, c],
        None => base,
    }
}

/// Arguments for scanning `path`, forwarding the configuration file when given.
pub fn detect_args(path: &str, config: Option<&str>) -> (r: Vec<String>)
    ensures
        views(r@) == detect_args_spec(path@, opt_view(config)),
{
    let mut v: Vec<String> = Vec::new();
    v.push(String::from_str("detect"));
    v.push(String::from_str("--source"));
    v.push(String::from_str(path));
    v.push(String::from_str("--verbose"));
    match config {
        Some(c) => {
            v.push(String::from_str("--config"));
            v.push(String::from_str(c));
        },
        None => {},
    }
    assert(views(v@) =~= detect_args_spec(path@, opt_view(config)));
    v
}

/// What one run of the scanner found.
#[derive(Clone, Copy, Debug, PartialEq, Eq, Structural)]
pub enum ScanOutcome {
    Clean,
    SecretsFound,
    ToolError,
}

/// The scanner's exit status: 0 is clean, 1 is leaks found, anything else
/// (another code, or no code because the process was killed) is a failure of
/// the tool itself.
pub open spec fn scan_outcome_spec(code: Option<i32>) -> ScanOutcome {
    match code {
        Some(0) => ScanOutcome::Clean,
        Some(1) => ScanOutcome::SecretsFound,
        _ => ScanOutcome::ToolError,
    }
}

/// Reads the scanner's exit status.
pub fn scan_outcome(code: Option<i32>) -> (r: ScanOutcome)
    ensures
        r == scan_outcome_spec(code),
{
    match code {
        Some(0) => ScanOutcome::Clean,
        Some(1) => ScanOutcome::SecretsFound,
        _ => ScanOutcome::ToolError,
    }
}

impl ScanOutcome {
    /// A clean scan succeeds; the others fail, each with its own reason.
    pub fn into_result(self) -> (r: Result<(), GuardError>)
        ensures
            self == ScanOutcome::Clean ==> r is Ok,
            self == ScanOutcome::SecretsFound ==> r == Err::<(), GuardError>(
                GuardError::ScanFailed(ScanFailure::SecretsFound),
            ),
            self == ScanOutcome::ToolError ==> r == Err::<(), GuardError>(
                GuardError::ScanFailed(ScanFailure::ToolError),
            ),
    {
        match self {
            ScanOutcome::Clean => Ok(()),
            ScanOutcome::SecretsFound => Err(GuardError::ScanFailed(ScanFailure::SecretsFound)),
            ScanOutcome::ToolError => Err(GuardError::ScanFailed(ScanFailure::ToolError)),
        }
    }
}

/// The directory name a remote repository is cloned into: the last `/`
/// segment of its URL, without any trailing `.git`.
pub fn clone_dir_name(url: &str) -> (r: String)
    ensures
        exists|k: int|
            is_last_segment_start(url@, k) && r@ == strip_trailing(
                url@.subrange(k, url@.len() as int),
                ".git"@,
            ),
{
    let seg = last_segment(url);
    trim_end_str(seg.as_str(), ".git")
}

} // verus!

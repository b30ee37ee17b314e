use vstd::prelude::*;

use crate::error::GuardError;
use crate::text::str_equals;

verus! {

/// Operating-system family, in the naming used by release assets.
#[derive(Clone, Copy, Debug, PartialEq, Eq, Structural)]
pub enum OsFamily {
    Linux,
    Darwin,
    Windows,
}

/// CPU architecture, in the naming used by release assets.
#[derive(Clone, Copy, Debug, PartialEq, Eq, Structural)]
pub enum Arch {
    X64,
    Arm64,
}

/// The family that a runtime OS identifier (as Rust's `std::env::consts::OS` spells it) belongs to.
pub open spec fn os_from_runtime(id: Seq<char>) -> Option<OsFamily> {
    if id == "linux"@ {
        Some(OsFamily::Linux)
    } else if id == "macos"@ {
        Some(OsFamily::Darwin)
    } else if id == "windows"@ {
        Some(OsFamily::Windows)
    } else {
        None
    }
}

/// The architecture that a runtime identifier (as `std::env::consts::ARCH` spells it) denotes.
pub open spec fn arch_from_runtime(id: Seq<char>) -> Option<Arch> {
    if id == "x86_64"@ {
        Some(Arch::X64)
    } else if id == "aarch64"@ || id == "arm64"@ {
        Some(Arch::Arm64)
    } else {
        None
    }
}

/// Canonical name of an OS family.
pub open spec fn os_name_spec(os: OsFamily) -> Seq<char> {
    match os {
        OsFamily::Linux => "linux"@,
        OsFamily::Darwin => "darwin"@,
        OsFamily::Windows => "windows"@,
    }
}

/// Canonical name of an architecture.
pub open spec fn arch_name_spec(arch: Arch) -> Seq<char> {
    match arch {
        Arch::X64 => "x64"@,
        Arch::Arm64 => "arm64"@,
    }
}

/// The OS family whose canonical name is `n`.
pub open spec fn os_from_name(n: Seq<char>) -> Option<OsFamily> {
    if n == "linux"@ {
        Some(OsFamily::Linux)
    } else if n == "darwin"@ {
        Some(OsFamily::Darwin)
    } else if n == "windows"@ {
        Some(OsFamily::Windows)
    } else {
        None
    }
}

/// The architecture whose canonical name is `n`.
pub open spec fn arch_from_name(n: Seq<char>) -> Option<Arch> {
    if n == "x64"@ {
        Some(Arch::X64)
    } else if n == "arm64"@ {
        Some(Arch::Arm64)
    } else {
        None
    }
}

/// The release-asset suffix of a supported platform.
pub open spec fn suffix_spec(os: OsFamily, arch: Arch) -> Seq<char> {
    match (os, arch) {
        (OsFamily::Linux, Arch::X64) => "linux_x64.tar.gz"@,
        (OsFamily::Linux, Arch::Arm64) => "linux_arm64.tar.gz"@,
        (OsFamily::Darwin, Arch::X64) => "darwin_x64.tar.gz"@,
        (OsFamily::Darwin, Arch::Arm64) => "darwin_arm64.tar.gz"@,
        (OsFamily::Windows, Arch::X64) => "windows_x64.zip"@,
        (OsFamily::Windows, Arch::Arm64) => "windows_arm64.zip"@,
    }
}

/// The suffix for a pair of canonical names, or `None` when either is unsupported.
pub open spec fn platform_string_spec(os: Seq<char>, arch: Seq<char>) -> Option<Seq<char>> {
    match (os_from_name(os), arch_from_name(arch)) {
        (Some(o), Some(a)) => Some(suffix_spec(o, a)),
        _ => None,
    }
}

/// Maps the runtime OS identifier to the family used by release assets.
pub fn detect_os(os: &str) -> (r: Result<OsFamily, GuardError>)
    ensures
        r == (match os_from_runtime(os@) {
            Some(f) => Ok(f),
            None => Err(GuardError::UnsupportedPlatform),
        }),
{
    if str_equals(os, "linux") {
        Ok(OsFamily::Linux)
    } else if str_equals(os, "macos") {
        Ok(OsFamily::Darwin)
    } else if str_equals(os, "windows") {
        Ok(OsFamily::Windows)
    } else {
        Err(GuardError::UnsupportedPlatform)
    }
}

/// Maps the runtime architecture identifier to the one used by release assets.
pub fn detect_arch(arch: &str) -> (r: Result<Arch, GuardError>)
    ensures
        r == (match arch_from_runtime(arch@) {
            Some(a) => Ok(a),
            None => Err(GuardError::UnsupportedPlatform),
        }),
{
    if str_equals(arch, "x86_64") {
        Ok(Arch::X64)
    } else if str_equals(arch, "aarch64") || str_equals(arch, "arm64") {
        Ok(Arch::Arm64)
    } else {
        Err(GuardError::UnsupportedPlatform)
    }
}

impl OsFamily {
    /// Canonical name (`linux`, `darwin`, `windows`).
    pub fn name(&self) -> (r: String)
        ensures
            r@ == os_name_spec(*self),
    {
        match self {
            OsFamily::Linux => String::from_str("linux"),
            OsFamily::Darwin => String::from_str("darwin"),
            OsFamily::Windows => String::from_str("windows"),
        }
    }

    /// Parses a canonical name.
    pub fn from_name(n: &str) -> (r: Option<OsFamily>)
        ensures
            r == os_from_name(n@),
    {
        if str_equals(n, "linux") {
            Some(OsFamily::Linux)
        } else if str_equals(n, "darwin") {
            Some(OsFamily::Darwin)
        } else if str_equals(n, "windows") {
            Some(OsFamily::Windows)
        } else {
            None
        }
    }
}

impl Arch {
    /// Canonical name (`x64`, `arm64`).
    pub fn name(&self) -> (r: String)
        ensures
            r@ == arch_name_spec(*self),
    {
        match self {
            Arch::X64 => String::from_str("x64"),
            Arch::Arm64 => String::from_str("arm64"),
        }
    }

    /// Parses a canonical name.
    pub fn from_name(n: &str) -> (r: Option<Arch>)
        ensures
            r == arch_from_name(n@),
    {
        if str_equals(n, "x64") {
            Some(Arch::X64)
        } else if str_equals(n, "arm64") {
            Some(Arch::Arm64)
        } else {
            None
        }
    }
}

/// The release-asset suffix of a supported platform.
pub fn platform_suffix(os: OsFamily, arch: Arch) -> (r: String)
    ensures
        r@ == suffix_spec(os, arch),
{
    match (os, arch) {
        (OsFamily::Linux, Arch::X64) => String::from_str("linux_x64.tar.gz"),
        (OsFamily::Linux, Arch::Arm64) => String::from_str("linux_arm64.tar.gz"),
        (OsFamily::Darwin, Arch::X64) => String::from_str("darwin_x64.tar.gz"),
        (OsFamily::Darwin, Arch::Arm64) => String::from_str("darwin_arm64.tar.gz"),
        (OsFamily::Windows, Arch::X64) => String::from_str("windows_x64.zip"),
        (OsFamily::Windows, Arch::Arm64) => String::from_str("windows_arm64.zip"),
    }
}

/// The release-asset suffix for canonical OS and architecture names; unknown
/// names are an error rather than a fallback.
pub fn get_platform_string(os: &str, arch: &str) -> (r: Result<String, GuardError>)
    ensures
        match platform_string_spec(os@, arch@) {
            Some(s) => r matches Ok(v) && v@ == s,
            None => r == Err::<String, GuardError>(GuardError::UnsupportedPlatform),
        },
{
    match (OsFamily::from_name(os), Arch::from_name(arch)) {
        (Some(o), Some(a)) => Ok(platform_suffix(o, a)),
        _ => Err(GuardError::UnsupportedPlatform),
    }
}

/// Distinct supported platforms never share a release-asset suffix.
pub proof fn lemma_platform_suffix_unique(o1: OsFamily, a1: Arch, o2: OsFamily, a2: Arch)
    requires
        suffix_spec(o1, a1) == suffix_spec(o2, a2),
    ensures
        o1 == o2,
        a1 == a2,
{
    reveal_strlit("linux_x64.tar.gz");
    reveal_strlit("linux_arm64.tar.gz");
    reveal_strlit("darwin_x64.tar.gz");
    reveal_strlit("darwin_arm64.tar.gz");
    reveal_strlit("windows_x64.zip");
    reveal_strlit("windows_arm64.zip");
    let s1 = suffix_spec(o1, a1);
    let s2 = suffix_spec(o2, a2);
    assert(s1.len() == s2.len());
    assert(s1[0] == s2[0]);
    assert(s1[6] == s2[6]);
    assert(s1[7] == s2[7]);
}

/// For canonical names, the platform string is defined exactly on the
/// supported pairs, and there it determines the pair.
pub proof fn lemma_platform_string_injective(os1: Seq<char>, arch1: Seq<char>, os2: Seq<char>, arch2: Seq<char>)
    requires
        platform_string_spec(os1, arch1) is Some,
        platform_string_spec(os1, arch1) == platform_string_spec(os2, arch2),
    ensures
        os1 == os2,
        arch1 == arch2,
{
    let o1 = os_from_name(os1).unwrap();
    let a1 = arch_from_name(arch1).unwrap();
    let o2 = os_from_name(os2).unwrap();
    let a2 = arch_from_name(arch2).unwrap();
    lemma_platform_suffix_unique(o1, a1, o2, a2);
}

} // verus!

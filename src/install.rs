use vstd::prelude::*;

use crate::error::GuardError;
use crate::platform::{platform_suffix, suffix_spec, Arch, OsFamily};
use crate::release::{asset_names, first_match, select_asset, Release};
use crate::version::{normalize_version, normalized};

verus! {

/// Archive format of a release asset.
#[derive(Clone, Copy, Debug, PartialEq, Eq, Structural)]
pub enum ArchiveKind {
    TarGz,
    Zip,
}

/// Where Windows keeps programs when the environment does not say.
pub const DEFAULT_PROGRAM_FILES: &'static str = "C:\\Program Files";

/// The archive format used for an OS family.
pub open spec fn archive_kind_spec(os: OsFamily) -> ArchiveKind {
    if os == OsFamily::Windows {
        ArchiveKind::Zip
    } else {
        ArchiveKind::TarGz
    }
}

/// The file name of the scanner binary inside the archive.
pub open spec fn binary_name_spec(os: OsFamily) -> Seq<char> {
    if os == OsFamily::Windows {
        "gitleaks.exe"@
    } else {
        "gitleaks"@
    }
}

/// The directory the binary is installed into on Windows.
pub open spec fn windows_install_dir_spec(program_files: Option<Seq<char>>) -> Seq<char> {
    match program_files {
        Some(p) => p + "\\gitleaks"@,
        None => DEFAULT_PROGRAM_FILES@ + "\\gitleaks"@,
    }
}

/// The full path the binary is installed at.
pub open spec fn install_path_spec(os: OsFamily, program_files: Option<Seq<char>>) -> Seq<char> {
    if os == OsFamily::Windows {
        windows_install_dir_spec(program_files) + "\\gitleaks.exe"@
    } else {
        "/usr/local/bin/gitleaks"@
    }
}

/// The view of an optional string slice.
pub open spec fn opt_view(o: Option<&str>) -> Option<Seq<char>> {
    match o {
        Some(s) => Some(s@),
        None => None,
    }
}

/// Archive format for an OS family: zip on Windows, gzip-compressed tar elsewhere.
pub fn archive_kind(os: OsFamily) -> (r: ArchiveKind)
    ensures
        r == archive_kind_spec(os),
{
    match os {
        OsFamily::Windows => ArchiveKind::Zip,
        _ => ArchiveKind::TarGz,
    }
}

/// Name of the scanner binary at the root of the extracted archive.
pub fn binary_name(os: OsFamily) -> (r: String)
    ensures
        r@ == binary_name_spec(os),
{
    match os {
        OsFamily::Windows => String::from_str("gitleaks.exe"),
        _ => String::from_str("gitleaks"),
    }
}

/// The Windows install directory, under the given program-files location
/// or under the default one.
pub fn windows_install_dir(program_files: Option<&str>) -> (r: String)
    ensures
        r@ == windows_install_dir_spec(opt_view(program_files)),
{
    let base = match program_files {
        Some(p) => String::from_str(p),
        None => String::from_str(DEFAULT_PROGRAM_FILES),
    };
    base.concat("\\gitleaks")
}

/// Where the binary goes: a fixed system directory on Linux and macOS, a
/// directory under the program-files location on Windows.
pub fn install_path(os: OsFamily, program_files: Option<&str>) -> (r: String)
    ensures
        r@ == install_path_spec(os, opt_view(program_files)),
{
    match os {
        OsFamily::Windows => windows_install_dir(program_files).concat("\\gitleaks.exe"),
        _ => String::from_str("/usr/local/bin/gitleaks"),
    }
}

/// Everything the installer needs to fetch, unpack and place one release.
#[derive(Clone, Debug)]
pub struct InstallPlan {
    /// The release tag without its leading `v`.
    pub version: String,
    pub asset_name: String,
    pub download_url: String,
    pub archive: ArchiveKind,
    pub binary_name: String,
    pub install_path: String,
}

/// Chooses the asset of `release` for the platform and says where it goes.
/// Fails with `AssetNotFound` exactly when no asset name ends with the
/// platform's suffix.
pub fn plan_install(release: &Release, os: OsFamily, arch: Arch, program_files: Option<&str>) -> (r: Result<
    InstallPlan,
    GuardError,
>)
    ensures
        match first_match(asset_names(release.assets@), suffix_spec(os, arch)) {
            Some(i) => 0 <= i < release.assets@.len() && (r matches Ok(p) && p.asset_name@ == release.assets@[i].name@
                && p.download_url@ == release.assets@[i].browser_download_url@
                && p.version@ == normalized(release.tag_name@)
                && p.archive == archive_kind_spec(os)
                && p.binary_name@ == binary_name_spec(os)
                && p.install_path@ == install_path_spec(os, opt_view(program_files))),
            None => r == Err::<InstallPlan, GuardError>(GuardError::AssetNotFound),
        },
{
    let suffix = platform_suffix(os, arch);
    match select_asset(&release.assets, suffix.as_str()) {
        Some(i) => {
            let asset = &release.assets[i];
            Ok(InstallPlan {
                version: normalize_version(release.tag_name.as_str()),
                asset_name: asset.name.clone(),
                download_url: asset.browser_download_url.clone(),
                archive: archive_kind(os),
                binary_name: binary_name(os),
                install_path: install_path(os, program_files),
            })
        },
        None => Err(GuardError::AssetNotFound),
    }
}

/// The result of a privileged install: moving the binary into place and then
/// marking it executable each report on their own, so that a binary that was
/// moved but not made executable is told apart from one that never arrived.
pub fn privileged_install_result(moved: bool, made_executable: bool) -> (r: Result<(), GuardError>)
    ensures
        !moved ==> r == Err::<(), GuardError>(GuardError::InstallFailed),
        moved && !made_executable ==> r == Err::<(), GuardError>(GuardError::PermissionFailed),
        moved && made_executable ==> r is Ok,
{
    if !moved {
        Err(GuardError::InstallFailed)
    } else if !made_executable {
        Err(GuardError::PermissionFailed)
    } else {
        Ok(())
    }
}

/// Whether the `install` command downloads the scanner: always, unless asked
/// to skip it while the scanner is already present.
pub fn should_download(skip_download: bool, installed: bool) -> (r: bool)
    ensures
        r == (!skip_download || !installed),
{
    !skip_download || !installed
}

} // verus!

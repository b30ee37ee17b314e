use gitleaks_guard::config::{config_document, CONFIG_HEADER};
use gitleaks_guard::error::{GuardError, ScanFailure};
use gitleaks_guard::hook::{
    config_read_args, config_set_args, toggle_args, enabled_from_config, flag_value, pre_commit_hook_script,
};
use gitleaks_guard::install::{
    archive_kind, binary_name, install_path, plan_install, privileged_install_result,
    should_download, windows_install_dir, ArchiveKind,
};
use gitleaks_guard::metadata::{latest_version_from_json, latest_version_from_tag};
use gitleaks_guard::platform::{
    detect_arch, detect_os, get_platform_string, platform_suffix, Arch, OsFamily,
};
use gitleaks_guard::release::{select_asset, Asset, Release};
use gitleaks_guard::scan::{clone_dir_name, detect_args, scan_outcome, ScanOutcome};
use gitleaks_guard::status::{hook_status, HookStatus, Recommendation, StatusReport};
use gitleaks_guard::text::{ends_with, last_segment, trim, trim_end_str, trim_start_char};
use gitleaks_guard::version::{compare_versions, plan_update, version_from_output, UpdatePlan};

fn asset(name: &str) -> Asset {
    Asset {
        name: name.to_string(),
        browser_download_url: format!("https://example.invalid/download/{}", name),
    }
}

fn sample_release() -> Release {
    Release {
        tag_name: "v8.18.2".to_string(),
        assets: vec![
            asset("gitleaks_8.18.2_checksums.txt"),
            asset("gitleaks_8.18.2_darwin_arm64.tar.gz"),
            asset("gitleaks_8.18.2_darwin_x64.tar.gz"),
            asset("gitleaks_8.18.2_linux_arm64.tar.gz"),
            asset("gitleaks_8.18.2_linux_x64.tar.gz"),
            asset("gitleaks_8.18.2_windows_arm64.zip"),
            asset("gitleaks_8.18.2_windows_x64.zip"),
        ],
    }
}

fn strings(v: &[&str]) -> Vec<String> {
    v.iter().map(|s| s.to_string()).collect()
}

#[test]
fn detect_os_maps_runtime_names() {
    assert_eq!(detect_os("linux"), Ok(OsFamily::Linux));
    assert_eq!(detect_os("macos"), Ok(OsFamily::Darwin));
    assert_eq!(detect_os("windows"), Ok(OsFamily::Windows));
    assert_eq!(detect_os("freebsd"), Err(GuardError::UnsupportedPlatform));
    assert_eq!(detect_os("darwin"), Err(GuardError::UnsupportedPlatform));
    assert_eq!(detect_os(""), Err(GuardError::UnsupportedPlatform));
}

#[test]
fn detect_arch_maps_runtime_names() {
    assert_eq!(detect_arch("x86_64"), Ok(Arch::X64));
    assert_eq!(detect_arch("aarch64"), Ok(Arch::Arm64));
    assert_eq!(detect_arch("arm64"), Ok(Arch::Arm64));
    assert_eq!(detect_arch("x86"), Err(GuardError::UnsupportedPlatform));
    assert_eq!(detect_arch("riscv64"), Err(GuardError::UnsupportedPlatform));
}

#[test]
fn canonical_names_round_trip() {
    for os in [OsFamily::Linux, OsFamily::Darwin, OsFamily::Windows] {
        assert_eq!(OsFamily::from_name(&os.name()), Some(os));
    }
    for arch in [Arch::X64, Arch::Arm64] {
        assert_eq!(Arch::from_name(&arch.name()), Some(arch));
    }
    assert_eq!(OsFamily::Darwin.name(), "darwin");
    assert_eq!(Arch::Arm64.name(), "arm64");
    assert_eq!(OsFamily::from_name("macos"), None);
    assert_eq!(Arch::from_name("x86_64"), None);
}

#[test]
fn platform_strings_for_supported_pairs() {
    assert_eq!(get_platform_string("linux", "x64"), Ok("linux_x64.tar.gz".to_string()));
    assert_eq!(get_platform_string("linux", "arm64"), Ok("linux_arm64.tar.gz".to_string()));
    assert_eq!(get_platform_string("darwin", "x64"), Ok("darwin_x64.tar.gz".to_string()));
    assert_eq!(get_platform_string("darwin", "arm64"), Ok("darwin_arm64.tar.gz".to_string()));
    assert_eq!(get_platform_string("windows", "x64"), Ok("windows_x64.zip".to_string()));
    assert_eq!(get_platform_string("windows", "arm64"), Ok("windows_arm64.zip".to_string()));
}

#[test]
fn platform_strings_reject_unsupported_pairs() {
    assert_eq!(get_platform_string("linux", "x86"), Err(GuardError::UnsupportedPlatform));
    assert_eq!(get_platform_string("solaris", "x64"), Err(GuardError::UnsupportedPlatform));
    assert_eq!(get_platform_string("macos", "arm64"), Err(GuardError::UnsupportedPlatform));
    assert_eq!(get_platform_string("", ""), Err(GuardError::UnsupportedPlatform));
}

#[test]
fn platform_suffixes_are_unique_and_stable() {
    let mut seen: Vec<String> = Vec::new();
    for os in [OsFamily::Linux, OsFamily::Darwin, OsFamily::Windows] {
        for arch in [Arch::X64, Arch::Arm64] {
            let s = platform_suffix(os, arch);
            assert_eq!(s, platform_suffix(os, arch));
            assert!(!seen.contains(&s));
            seen.push(s);
        }
    }
    assert_eq!(seen.len(), 6);
}

#[test]
fn select_asset_takes_first_suffix_match() {
    let release = sample_release();
    assert_eq!(select_asset(&release.assets, "linux_x64.tar.gz"), Some(4));
    assert_eq!(select_asset(&release.assets, "windows_x64.zip"), Some(6));
    let dup = vec![asset("a_linux_x64.tar.gz"), asset("b_linux_x64.tar.gz")];
    assert_eq!(select_asset(&dup, "linux_x64.tar.gz"), Some(0));
    assert_eq!(select_asset(&dup, "linux_x64.tar.gz"), select_asset(&dup, "linux_x64.tar.gz"));
}

#[test]
fn select_asset_reports_no_match() {
    let release = sample_release();
    assert_eq!(select_asset(&release.assets, "freebsd_x64.tar.gz"), None);
    assert_eq!(select_asset(&Vec::new(), "linux_x64.tar.gz"), None);
    let exact = vec![asset("linux_x64.tar.gz.sig")];
    assert_eq!(select_asset(&exact, "linux_x64.tar.gz"), None);
}

#[test]
fn plan_install_for_linux() {
    let plan = plan_install(&sample_release(), OsFamily::Linux, Arch::X64, None).unwrap();
    assert_eq!(plan.version, "8.18.2");
    assert_eq!(plan.asset_name, "gitleaks_8.18.2_linux_x64.tar.gz");
    assert_eq!(
        plan.download_url,
        "https://example.invalid/download/gitleaks_8.18.2_linux_x64.tar.gz"
    );
    assert_eq!(plan.archive, ArchiveKind::TarGz);
    assert_eq!(plan.binary_name, "gitleaks");
    assert_eq!(plan.install_path, "/usr/local/bin/gitleaks");
}

#[test]
fn plan_install_for_windows() {
    let plan =
        plan_install(&sample_release(), OsFamily::Windows, Arch::Arm64, Some("D:\\Apps")).unwrap();
    assert_eq!(plan.asset_name, "gitleaks_8.18.2_windows_arm64.zip");
    assert_eq!(plan.archive, ArchiveKind::Zip);
    assert_eq!(plan.binary_name, "gitleaks.exe");
    assert_eq!(plan.install_path, "D:\\Apps\\gitleaks\\gitleaks.exe");
}

#[test]
fn plan_install_without_matching_asset() {
    let release = Release {
        tag_name: "v1.0.0".to_string(),
        assets: vec![asset("gitleaks_1.0.0_linux_x64.tar.gz")],
    };
    assert!(matches!(
        plan_install(&release, OsFamily::Darwin, Arch::Arm64, None),
        Err(GuardError::AssetNotFound)
    ));
}

#[test]
fn install_locations() {
    assert_eq!(install_path(OsFamily::Linux, None), "/usr/local/bin/gitleaks");
    assert_eq!(install_path(OsFamily::Darwin, Some("X")), "/usr/local/bin/gitleaks");
    assert_eq!(
        install_path(OsFamily::Windows, None),
        "C:\\Program Files\\gitleaks\\gitleaks.exe"
    );
    assert_eq!(windows_install_dir(None), "C:\\Program Files\\gitleaks");
    assert_eq!(binary_name(OsFamily::Darwin), "gitleaks");
    assert_eq!(archive_kind(OsFamily::Darwin), ArchiveKind::TarGz);
}

#[test]
fn privileged_install_reports_each_step() {
    assert_eq!(privileged_install_result(true, true), Ok(()));
    assert_eq!(privileged_install_result(false, true), Err(GuardError::InstallFailed));
    assert_eq!(privileged_install_result(false, false), Err(GuardError::InstallFailed));
    assert_eq!(privileged_install_result(true, false), Err(GuardError::PermissionFailed));
}

#[test]
fn install_twice_skips_download_only_when_present() {
    assert!(should_download(false, false));
    assert!(should_download(false, true));
    assert!(should_download(true, false));
    assert!(!should_download(true, true));
}

#[test]
fn needs_update_examples() {
    assert!(!compare_versions("v1.2.3", "v1.2.3"));
    assert!(!compare_versions("1.2.3", "v1.2.3"));
    assert!(compare_versions("1.2.3", "1.2.4"));
    assert!(compare_versions("1.2.4", "1.2.3"));
    assert!(!compare_versions("vv1.2.3", "1.2.3"));
    assert!(compare_versions("1.2.3", "1.2.3-rc1"));
}

#[test]
fn version_output_is_trimmed() {
    assert_eq!(version_from_output(true, "8.18.2\n"), Ok("8.18.2".to_string()));
    assert_eq!(version_from_output(true, "  v8.18.2 \r\n"), Ok("v8.18.2".to_string()));
    assert_eq!(version_from_output(false, "8.18.2\n"), Err(GuardError::NotInstalled));
}

#[test]
fn update_plans() {
    assert_eq!(plan_update("8.18.2", "v8.18.2", false), UpdatePlan::AlreadyLatest);
    assert_eq!(plan_update("8.18.2", "8.18.2", true), UpdatePlan::ForcedReinstall);
    assert_eq!(plan_update("8.18.1", "8.18.2", false), UpdatePlan::NewVersion { confirm: true });
    assert_eq!(plan_update("8.18.1", "8.18.2", true), UpdatePlan::NewVersion { confirm: false });
}

#[test]
fn latest_version_from_metadata() {
    let body = r#"{"tag_name":"v8.18.2","assets":[{"name":"x","browser_download_url":"y"}]}"#;
    assert_eq!(latest_version_from_json(body), Ok("8.18.2".to_string()));
    assert_eq!(latest_version_from_json(r#"{"tag_name":"8.0.0"}"#), Ok("8.0.0".to_string()));
}

#[test]
fn latest_version_missing_or_malformed() {
    assert_eq!(latest_version_from_json("not json"), Err(GuardError::UpdateCheckFailed));
    assert_eq!(latest_version_from_json(r#"{"name":"v1"}"#), Err(GuardError::UpdateCheckFailed));
    assert_eq!(latest_version_from_json(r#"{"tag_name":7}"#), Err(GuardError::UpdateCheckFailed));
    assert_eq!(latest_version_from_json(r#"["tag_name"]"#), Err(GuardError::UpdateCheckFailed));
    assert_eq!(latest_version_from_tag(Some("v2.0")), Ok("2.0".to_string()));
    assert_eq!(latest_version_from_tag(None), Err(GuardError::UpdateCheckFailed));
}

#[test]
fn toggle_commands() {
    assert_eq!(config_set_args(true), strings(&["config", "hooks.gitleaks-enable", "true"]));
    assert_eq!(config_set_args(false), strings(&["config", "hooks.gitleaks-enable", "false"]));
    assert_eq!(config_read_args(), strings(&["config", "--bool", "hooks.gitleaks-enable"]));
}

#[test]
fn toggle_outside_repository() {
    assert_eq!(toggle_args(false, true), Err(GuardError::NotARepository));
    assert_eq!(toggle_args(false, false), Err(GuardError::NotARepository));
    assert_eq!(
        toggle_args(true, false),
        Ok(strings(&["config", "hooks.gitleaks-enable", "false"]))
    );
}

#[test]
fn enable_then_read_is_enabled() {
    let stored = flag_value(true);
    assert!(enabled_from_config(true, &format!("{}\n", stored)));
    assert!(enabled_from_config(true, &stored));
}

#[test]
fn disable_then_read_is_disabled() {
    let stored = flag_value(false);
    assert!(!enabled_from_config(true, &format!("{}\n", stored)));
    assert!(!enabled_from_config(false, ""));
    assert!(!enabled_from_config(true, "yes\n"));
}

#[test]
fn hook_script_checks_the_switch() {
    let script = pre_commit_hook_script();
    assert!(script.starts_with("#!/bin/bash\n"));
    assert!(script.contains("git config --bool hooks.gitleaks-enable"));
    assert!(script.contains("--config .gitleaks.toml"));
    assert!(script.ends_with("fi\n"));
}

#[test]
fn detect_arguments() {
    assert_eq!(detect_args(".", None), strings(&["detect", "--source", ".", "--verbose"]));
    assert_eq!(
        detect_args("repo", Some(".gitleaks.toml")),
        strings(&["detect", "--source", "repo", "--verbose", "--config", ".gitleaks.toml"])
    );
}

#[test]
fn scan_exit_codes() {
    assert_eq!(scan_outcome(Some(0)), ScanOutcome::Clean);
    assert_eq!(scan_outcome(Some(1)), ScanOutcome::SecretsFound);
    assert_eq!(scan_outcome(Some(2)), ScanOutcome::ToolError);
    assert_eq!(scan_outcome(Some(-1)), ScanOutcome::ToolError);
    assert_eq!(scan_outcome(None), ScanOutcome::ToolError);
    assert_eq!(ScanOutcome::Clean.into_result(), Ok(()));
    assert_eq!(
        ScanOutcome::SecretsFound.into_result(),
        Err(GuardError::ScanFailed(ScanFailure::SecretsFound))
    );
    assert_eq!(
        ScanOutcome::ToolError.into_result(),
        Err(GuardError::ScanFailed(ScanFailure::ToolError))
    );
}

#[test]
fn clone_directory_names() {
    assert_eq!(clone_dir_name("https://github.com/gitleaks/gitleaks.git"), "gitleaks");
    assert_eq!(clone_dir_name("https://github.com/owner/project"), "project");
    assert_eq!(clone_dir_name("local"), "local");
    assert_eq!(clone_dir_name("a/b.git.git"), "b");
    assert_eq!(clone_dir_name("https://host/x/"), "");
}

#[test]
fn hook_states() {
    assert_eq!(hook_status(true, true), HookStatus::Enabled);
    assert_eq!(hook_status(true, false), HookStatus::Disabled);
    assert_eq!(hook_status(false, true), HookStatus::NotInstalled);
    assert_eq!(hook_status(false, false), HookStatus::NotInstalled);
}

#[test]
fn status_recommendations() {
    let full = StatusReport {
        in_git_repo: true,
        gitleaks_installed: true,
        config_exists: true,
        hook: HookStatus::Enabled,
    };
    assert!(full.is_fully_protected());
    assert!(full.recommendations().is_empty());
    let bare = StatusReport {
        in_git_repo: false,
        gitleaks_installed: false,
        config_exists: false,
        hook: HookStatus::NotInstalled,
    };
    assert!(!bare.is_fully_protected());
    assert_eq!(
        bare.recommendations(),
        vec![
            Recommendation::InitRepository,
            Recommendation::InstallGitleaks,
            Recommendation::CreateConfig,
            Recommendation::SetupHook,
        ]
    );
    let disabled = StatusReport { hook: HookStatus::Disabled, ..full };
    assert_eq!(disabled.recommendations(), vec![Recommendation::EnableHook]);
}

#[test]
fn config_document_prepends_header() {
    let doc = config_document("title = \"x\"\n");
    assert_eq!(doc, format!("{}title = \"x\"\n", CONFIG_HEADER));
    assert!(doc.starts_with("[[rules]]\nregex = \"API[_-]?KEY\"\n"));
    assert_eq!(config_document(""), CONFIG_HEADER);
}

#[test]
fn text_helpers() {
    assert_eq!(trim(" \t a b \n"), "a b");
    assert_eq!(trim("\u{a0}x\u{3000}"), "x");
    assert_eq!(trim("   "), "");
    assert_eq!(trim_start_char("vvv1", 'v'), "1");
    assert_eq!(trim_start_char("1v", 'v'), "1v");
    assert!(ends_with("abc", "bc"));
    assert!(ends_with("abc", ""));
    assert!(!ends_with("bc", "abc"));
    assert_eq!(last_segment("a/b/c"), "c");
    assert_eq!(last_segment("abc"), "abc");
    assert_eq!(trim_end_str("x.git.git", ".git"), "x");
    assert_eq!(trim_end_str("x", ""), "x");
}

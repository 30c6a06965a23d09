use mcdp_cli::classify::{classify, remediation_hint, ErrorCategory};
use mcdp_cli::identity::BuildIdentity;
use mcdp_cli::orchestrator::{
    effective_binary_name, find_asset, finish_update, is_success, orchestrate, plan_update,
    AssetDescriptor, ReleaseInfo, UpdateMode, UpdateOutcome, UpdatePlan,
};
use mcdp_cli::target::{detect_platform, map_triple, platform_identifier};
use mcdp_cli::text::{str_contains, str_eq, str_starts_with};
use mcdp_cli::version::resolve_version;

fn asset(name: &str) -> AssetDescriptor {
    AssetDescriptor {
        name: name.to_string(),
        download_url: format!("https://example.invalid/{}", name),
    }
}

fn release(version: &str, names: &[&str]) -> ReleaseInfo {
    ReleaseInfo {
        version: version.to_string(),
        assets: names.iter().map(|n| asset(n)).collect(),
    }
}

fn identity(version: &str, asset_target: Option<&str>) -> BuildIdentity {
    BuildIdentity {
        version: version.to_string(),
        asset_target: asset_target.map(|t| t.to_string()),
    }
}

#[test]
fn override_wins_over_everything() {
    let v = resolve_version(Some("9.9.9"), Some("v1.2.3-4-gabcdef0"), Some("0.5.0"));
    assert_eq!(v, "9.9.9");
}

#[test]
fn empty_override_falls_through() {
    let v = resolve_version(Some(""), Some("v1.2.3"), Some("0.5.0"));
    assert_eq!(v, "1.2.3");
}

#[test]
fn scm_descriptor_loses_leading_v() {
    assert_eq!(resolve_version(None, Some("v1.2.3"), None), "1.2.3");
    assert_eq!(
        resolve_version(None, Some("1.2.3-7-gdeadbee"), None),
        "1.2.3-7-gdeadbee"
    );
}

#[test]
fn fallback_to_manifest_then_unknown() {
    assert_eq!(resolve_version(None, None, Some("0.5.0")), "0.5.0");
    assert_eq!(resolve_version(None, None, None), "unknown");
    assert_eq!(resolve_version(Some(""), None, None), "unknown");
}

#[test]
fn mapping_table_is_exact() {
    assert_eq!(map_triple("x86_64-apple-darwin"), "macos15-amd64");
    assert_eq!(map_triple("aarch64-apple-darwin"), "macos15-arm64");
    assert_eq!(map_triple("x86_64-unknown-linux-gnu"), "ubuntu24-amd64");
    assert_eq!(map_triple("aarch64-unknown-linux-gnu"), "ubuntu24-arm64");
    assert_eq!(map_triple("x86_64-pc-windows-msvc"), "windows-amd64");
    assert_eq!(map_triple("aarch64-pc-windows-msvc"), "windows-arm64");
}

#[test]
fn unknown_triple_passes_through() {
    assert_eq!(
        map_triple("riscv64gc-unknown-linux-gnu"),
        "riscv64gc-unknown-linux-gnu"
    );
    assert_eq!(map_triple(""), "");
}

#[test]
fn detect_platform_follows_the_compiled_target() {
    assert_eq!(detect_platform(None), map_triple(self_update::get_target()));
    assert_eq!(detect_platform(Some("ubuntu22-amd64")), "ubuntu22-amd64");
}

#[test]
fn baked_in_target_wins_over_the_triple() {
    let p = platform_identifier(Some("ubuntu22-amd64"), "x86_64-unknown-linux-gnu");
    assert_eq!(p, "ubuntu22-amd64");
    let p = platform_identifier(None, "x86_64-unknown-linux-gnu");
    assert_eq!(p, "ubuntu24-amd64");
}

#[test]
fn windows_platforms_get_the_exe_suffix() {
    assert_eq!(effective_binary_name("windows-amd64"), "mcdp-cli.exe");
    assert_eq!(effective_binary_name("windows-arm64"), "mcdp-cli.exe");
    assert_eq!(effective_binary_name("ubuntu24-amd64"), "mcdp-cli");
    assert_eq!(effective_binary_name("macos15-arm64"), "mcdp-cli");
}

#[test]
fn text_helpers() {
    assert!(str_eq("abc", "abc"));
    assert!(!str_eq("abc", "abd"));
    assert!(!str_eq("abc", "abcd"));
    assert!(str_starts_with("windows-amd64", "windows"));
    assert!(!str_starts_with("win", "windows"));
    assert!(str_starts_with("anything", ""));
    assert!(str_contains("a Network error occurred", "Network"));
    assert!(str_contains("abc", ""));
    assert!(!str_contains("abc", "abd"));
    assert!(!str_contains("ab", "abc"));
    assert!(str_contains("xxabcx", "abc"));
}

#[test]
fn classification_table() {
    assert_eq!(
        classify("Update error: No asset found for target ubuntu24-amd64"),
        ErrorCategory::NoMatchingAsset
    );
    assert_eq!(classify("Network error while fetching"), ErrorCategory::NetworkOrApi);
    assert_eq!(classify("connection timeout after 30s"), ErrorCategory::NetworkOrApi);
    assert_eq!(
        classify("Permission denied (os error 13)"),
        ErrorCategory::Permission
    );
    assert_eq!(classify("something else entirely"), ErrorCategory::Unknown);
}

#[test]
fn remediation_hints_name_the_remedy() {
    assert_eq!(
        remediation_hint(&ErrorCategory::NoMatchingAsset),
        "No compatible binary found for your platform; check the latest release page for the platform identifiers on offer."
    );
    assert_eq!(
        remediation_hint(&ErrorCategory::NetworkOrApi),
        "Network connectivity issue; check your internet connection and try again."
    );
    assert_eq!(
        remediation_hint(&ErrorCategory::Permission),
        "Permission denied; try running with elevated permissions."
    );
    assert_eq!(
        remediation_hint(&ErrorCategory::Unknown),
        "Unrecognized failure; try again or download the latest release manually."
    );
}

#[test]
fn equal_versions_are_up_to_date_in_both_modes() {
    let id = identity("1.0.0", None);
    let rel = release("1.0.0", &["mcdp-cli"]);
    for mode in [UpdateMode::CheckOnly, UpdateMode::Apply] {
        let plan = plan_update(mode, &id, "x86_64-unknown-linux-gnu", &rel);
        assert!(matches!(
            plan,
            UpdatePlan::Finished(UpdateOutcome::AlreadyUpToDate(ref v)) if v == "1.0.0"
        ));
    }
}

#[test]
fn check_only_reports_without_downloading() {
    let id = identity("1.0.0", None);
    let rel = release("2.0.0", &["mcdp-cli"]);
    let plan = plan_update(UpdateMode::CheckOnly, &id, "x86_64-unknown-linux-gnu", &rel);
    assert!(matches!(
        plan,
        UpdatePlan::Finished(UpdateOutcome::UpdateAvailable(ref v)) if v == "2.0.0"
    ));
}

#[test]
fn apply_plans_the_first_matching_asset() {
    let id = identity("1.0.0", None);
    let rel = release("2.0.0", &["README.md", "mcdp-cli", "mcdp-cli"]);
    let plan = plan_update(UpdateMode::Apply, &id, "x86_64-unknown-linux-gnu", &rel);
    assert!(matches!(plan, UpdatePlan::Download(1)));
}

#[test]
fn apply_without_a_matching_asset_fails() {
    let id = identity("1.0.0", None);
    let rel = release("2.0.0", &["mcdp-cli.exe", "checksums.txt"]);
    let plan = plan_update(UpdateMode::Apply, &id, "x86_64-unknown-linux-gnu", &rel);
    assert!(matches!(
        plan,
        UpdatePlan::Finished(UpdateOutcome::Failed(ErrorCategory::NoMatchingAsset, ref p))
            if p == "ubuntu24-amd64"
    ));
}

#[test]
fn windows_apply_looks_for_the_exe() {
    let id = identity("1.0.0", Some("windows-amd64"));
    let rel = release("2.0.0", &["mcdp-cli", "mcdp-cli.exe"]);
    let plan = plan_update(UpdateMode::Apply, &id, "x86_64-pc-windows-msvc", &rel);
    assert!(matches!(plan, UpdatePlan::Download(1)));
}

#[test]
fn check_only_twice_gives_identical_outcomes() {
    let id = identity("1.0.0", None);
    let rel = release("2.0.0", &["mcdp-cli"]);
    let first = plan_update(UpdateMode::CheckOnly, &id, "x86_64-unknown-linux-gnu", &rel);
    let second = plan_update(UpdateMode::CheckOnly, &id, "x86_64-unknown-linux-gnu", &rel);
    match (&first, &second) {
        (
            UpdatePlan::Finished(UpdateOutcome::UpdateAvailable(a)),
            UpdatePlan::Finished(UpdateOutcome::UpdateAvailable(b)),
        ) => assert_eq!(a, b),
        _ => panic!("both runs must report the same available update"),
    }
}

#[test]
fn find_asset_reports_first_index_or_nothing() {
    let assets = vec![asset("a"), asset("b"), asset("b")];
    assert_eq!(find_asset(&assets, "b"), Some(1));
    assert_eq!(find_asset(&assets, "c"), None);
    assert_eq!(find_asset(&Vec::new(), "a"), None);
}

#[test]
fn successful_replace_reports_updated() {
    let id = identity("1.0.0", None);
    let rel = release("2.0.0", &["mcdp-cli"]);
    let out = finish_update(&id, &rel, Ok(()));
    assert!(matches!(
        out,
        UpdateOutcome::Updated(ref from, ref to) if from == "1.0.0" && to == "2.0.0"
    ));
}

#[test]
fn failed_replace_is_classified() {
    let id = identity("1.0.0", None);
    let rel = release("2.0.0", &["mcdp-cli"]);
    let out = finish_update(&id, &rel, Err("Permission denied (os error 13)".to_string()));
    assert!(matches!(
        out,
        UpdateOutcome::Failed(ErrorCategory::Permission, ref d)
            if d == "Permission denied (os error 13)"
    ));
}

#[test]
fn failed_release_query_is_a_network_failure() {
    let id = identity("1.0.0", None);
    for mode in [UpdateMode::CheckOnly, UpdateMode::Apply] {
        let plan = orchestrate(
            mode,
            &id,
            "x86_64-unknown-linux-gnu",
            Err("api returned status 403".to_string()),
        );
        assert!(matches!(
            plan,
            UpdatePlan::Finished(UpdateOutcome::Failed(ErrorCategory::NetworkOrApi, ref d))
                if d == "api returned status 403"
        ));
    }
}

#[test]
fn orchestrate_passes_a_fetched_release_to_the_plan() {
    let id = identity("1.0.0", None);
    let rel = release("2.0.0", &["mcdp-cli"]);
    let plan = orchestrate(UpdateMode::Apply, &id, "x86_64-unknown-linux-gnu", Ok(rel));
    assert!(matches!(plan, UpdatePlan::Download(0)));
}

#[test]
fn only_failures_exit_nonzero() {
    assert!(is_success(&UpdateOutcome::AlreadyUpToDate("1.0.0".to_string())));
    assert!(is_success(&UpdateOutcome::UpdateAvailable("2.0.0".to_string())));
    assert!(is_success(&UpdateOutcome::Updated(
        "1.0.0".to_string(),
        "2.0.0".to_string()
    )));
    assert!(!is_success(&UpdateOutcome::Failed(
        ErrorCategory::Unknown,
        "anything".to_string()
    )));
}

#[test]
fn identity_resolution_combines_both_resolvers() {
    let id = BuildIdentity::resolve(Some("3.1.4"), None, Some("0.1.0"), Some("ubuntu22-arm64"));
    assert_eq!(id.version, "3.1.4");
    assert_eq!(id.asset_target.as_deref(), Some("ubuntu22-arm64"));

    let id = BuildIdentity::resolve(None, Some("v2.0.0"), Some("0.1.0"), None);
    assert_eq!(id.version, "2.0.0");
    assert!(id.asset_target.is_none());
}

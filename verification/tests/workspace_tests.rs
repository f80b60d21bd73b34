use dhara_tool::defs::{normalize_definitions_release, print_defs_help, resolve_action, DefsCommand, DefsPaths};
use dhara_tool::paths::{
    default_artifacts_dir, default_defs_output_dir, default_defs_package_path, default_logs_dir,
    default_nuget_dir, default_output_dir, default_package_dir, resolve_logs_dir, sidecar_path_for_source,
};
use dhara_tool::runner::BuilderAction;
use dhara_tool::command::{RunMode, ToolContext};
use dhara_tool::workspace::{
    defs_path_for_context, next_package_revision_for_build, DefsPackageStatus, PackageInfo, WorkspaceSnapshot,
};

fn test_context(repo_root: &str, output_dir: Option<&str>) -> ToolContext {
    ToolContext {
        repo_root: repo_root.to_owned(),
        tool_root: repo_root.to_owned(),
        run_mode: RunMode::Direct,
        min: false,
        trace: false,
        workers: 4,
        package_dir: None,
        output_dir: output_dir.map(str::to_owned),
        logs_dir: None,
    }
}

#[test]
fn sidecar_path_uses_source_stem() {
    assert_eq!(sidecar_path_for_source("package/triddefs_xml.7z"), "package/triddefs_xml.source.toml");
}

#[test]
fn generated_defaults_are_under_tool_root() {
    let tool = "/exe";
    assert_eq!(default_output_dir(tool), "/exe/output");
    assert_eq!(default_logs_dir(tool), "/exe/logs");
    assert_eq!(default_artifacts_dir(tool), "/exe/artifacts");
    assert_eq!(default_nuget_dir(tool), "/exe/output/nuget");
}

#[test]
fn workspace_defaults_stay_under_repo_root() {
    let root = "/repo";
    assert_eq!(default_defs_output_dir(root), "/repo/src/core/dhara_storage_dal/resources");
    assert_eq!(default_package_dir(root), "/repo/tooling/dhara_tool/package");
    assert_eq!(default_defs_package_path(root), "/repo/src/core/dhara_storage_dal/resources/filedefs.dat");
}

#[test]
fn logs_ignore_output_override() {
    let tool = "/exe";
    assert_eq!(resolve_logs_dir(tool, None), "/exe/logs");
    assert_eq!(resolve_logs_dir(tool, Some("/exe/custom-logs")), "/exe/custom-logs");
    assert_eq!(resolve_logs_dir(tool, Some("logs")), "/exe/logs");
}

fn present_snapshot(version: &str) -> WorkspaceSnapshot {
    WorkspaceSnapshot {
        defs_path: "filedefs.dat".to_owned(),
        defs_status: DefsPackageStatus::Present,
        package_revision: Some(5),
        definitions_release: Some("2026-06-24".to_owned()),
        package_version: Some(version.to_owned()),
        definition_count: Some(1),
    }
}

#[test]
fn missing_dat_yields_revision_one() {
    let snapshot = WorkspaceSnapshot::missing(default_defs_package_path("/tmp/none"));
    assert!(matches!(snapshot.defs_status, DefsPackageStatus::Missing));
    assert_eq!(snapshot.next_package_revision("0.6.0").unwrap(), 1);
}

#[test]
fn matching_version_increments_revision() {
    assert_eq!(present_snapshot("0.6.0").next_package_revision("0.6.0").unwrap(), 6);
}

#[test]
fn mismatched_version_resets_revision() {
    assert_eq!(present_snapshot("0.5.0").next_package_revision("0.6.0").unwrap(), 1);
}

#[test]
fn record_package_written_updates_cached_revision() {
    let context = test_context("/repo", None);
    let path = defs_path_for_context(&context);
    assert_eq!(path, default_defs_package_path("/repo"));
    let info = PackageInfo {
        package_revision: 2,
        definitions_release: "2026-06-24".to_owned(),
        package_version: "0.6.0".to_owned(),
        definition_count: 1,
    };
    let snapshot = WorkspaceSnapshot::present(path.clone(), info);
    assert_eq!(next_package_revision_for_build(Some(&snapshot), "0.6.0").unwrap(), 3);

    let mut snapshot = snapshot;
    let written = PackageInfo {
        package_revision: 3,
        definitions_release: "2026-06-24".to_owned(),
        package_version: "0.6.0".to_owned(),
        definition_count: 1,
    };
    snapshot.record_package_written(&path, &written);
    assert_eq!(next_package_revision_for_build(Some(&snapshot), "0.6.0").unwrap(), 4);
    assert_eq!(next_package_revision_for_build(None, "0.6.0").unwrap(), 1);
}

#[test]
fn revision_overflow_and_labels() {
    let mut s = present_snapshot("0.6.0");
    s.package_revision = Some(u16::MAX);
    assert_eq!(s.next_package_revision("0.6.0").unwrap_err(), "package revision overflowed u16");
    assert_eq!(s.status_label(), "present");
    assert_eq!(s.version_match_label("0.6.0"), "match");
    assert_eq!(s.version_match_label("0.7.0"), "mismatch");
    let invalid = WorkspaceSnapshot::invalid("x".to_owned(), "bad".to_owned());
    assert_eq!(invalid.status_label(), "invalid");
    assert_eq!(invalid.version_match_label("0.7.0"), "\u{2014}");
    let mut other = present_snapshot("0.6.0");
    other.record_package_written("elsewhere.dat", &PackageInfo {
        package_revision: 9,
        definitions_release: "r".to_owned(),
        package_version: "9.9.9".to_owned(),
        definition_count: 3,
    });
    assert_eq!(other.package_revision, Some(5));
}

#[test]
fn normalize_accepts_iso_and_european_dates() {
    assert_eq!(normalize_definitions_release("2026-06-24").expect("iso date"), "2026-06-24");
    assert_eq!(normalize_definitions_release("24/06/2026").expect("european date"), "2026-06-24");
}

#[test]
fn normalize_rejects_blank_and_other_dates() {
    assert_eq!(normalize_definitions_release("  ").unwrap_err(), "definitions_release must not be empty");
    assert_eq!(
        normalize_definitions_release(" June 24 ").unwrap_err(),
        "definitions_release 'June 24' must use YYYY-MM-DD or DD/MM/YYYY"
    );
}

#[test]
fn defs_defaults_fill_missing_paths() {
    let paths = DefsPaths::from_repo_root("/repo", None, None, Some("logs2".to_owned()));
    assert_eq!(paths.package_dir, "/repo/tooling/dhara_tool/package");
    assert_eq!(paths.output_dir, "/repo/output");
    assert_eq!(paths.logs_dir, "/repo/logs2");
    assert_eq!(paths.default_trid_input_path(false, true), "/repo/tooling/dhara_tool/package/triddefs_xml");
    assert_eq!(paths.default_trid_input_path(false, false), "/repo/tooling/dhara_tool/package");
    let action = resolve_action(DefsCommand::BuildTridXml { input: None, output: Some("out.dat".to_owned()) }, &paths, "trid.7z");
    match action {
        BuilderAction::BuildTridXml { input, output } => {
            assert_eq!(input, "trid.7z");
            assert_eq!(output, "out.dat");
        }
        _ => panic!("unexpected action"),
    }
    let action = resolve_action(DefsCommand::Inspect { input: None }, &paths, "trid.7z");
    assert_eq!(action.title(), "Package Summary");
    assert!(!action.is_long_running());
    assert!(print_defs_help().starts_with("Defs commands:\n  defs pack [--output <path>]\n"));
}

#[test]
fn context_defs_path_follows_the_defs_output_dir() {
    assert_eq!(
        defs_path_for_context(&test_context("/repo", None)),
        "/repo/src/core/dhara_storage_dal/resources/filedefs.dat"
    );
    assert_eq!(defs_path_for_context(&test_context("/repo", Some("out"))), "/repo/out/filedefs.dat");
    assert_eq!(defs_path_for_context(&test_context("/repo", Some("/abs"))), "/abs/filedefs.dat");
}

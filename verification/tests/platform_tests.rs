use dhara_tool::native_rids::{
    buildable_runtimes_on_host, is_rid_buildable_on_host, native_lib_filename, package_native_path,
    platform, platform_target, RidError,
};
use dhara_tool::quality::{clippy_args_commands, fmt_command_args, quality_plan, test_dotnet_args, QualityStep};
use dhara_tool::release::{cargo_release_args, missing_secret_message, release_plan, required_release_secrets, secret_available, ReleaseOptions, ReleaseStep};
use dhara_tool::strmap::StringMap;

#[test]
fn package_native_paths_use_platform_extensions() {
    assert_eq!(package_native_path("win-x64").unwrap(), "runtimes/win-x64/native/dharastorage.dll");
    assert_eq!(package_native_path("linux-arm64").unwrap(), "runtimes/linux-arm64/native/libdharastorage.so");
    assert_eq!(package_native_path("osx-arm64").unwrap(), "runtimes/osx-arm64/native/libdharastorage.dylib");
}

#[test]
fn unknown_runtimes_are_rejected() {
    assert!(matches!(native_lib_filename("freebsd-x64"), Err(RidError::NoLibraryName(r)) if r == "freebsd-x64"));
    assert_eq!(platform("win-arm64").unwrap(), Some("ARM64"));
    assert_eq!(platform_target("win-arm64").unwrap(), Some("arm64"));
    assert_eq!(platform("linux-x64").unwrap(), None);
    assert!(matches!(platform("osx-x64"), Err(RidError::NoPlatform(_))));
    assert!(matches!(platform_target("osx-x64"), Err(RidError::NoPlatformTarget(_))));
}

#[test]
fn host_builds_its_own_runtimes() {
    let all = vec!["win-x64".to_owned(), "linux-x64".to_owned(), "osx-arm64".to_owned(), "linux-arm64".to_owned()];
    assert_eq!(buildable_runtimes_on_host(&all, "linux"), vec!["linux-x64".to_owned(), "linux-arm64".to_owned()]);
    assert_eq!(buildable_runtimes_on_host(&all, "macos"), vec!["osx-arm64".to_owned()]);
    assert!(buildable_runtimes_on_host(&all, "freebsd").is_empty());
    assert!(is_rid_buildable_on_host("win-arm64", "windows"));
}

#[test]
fn cargo_release_dry_run_allows_local_validation_state() {
    let args = cargo_release_args(true);

    assert!(args.windows(2).any(|pair| pair[0] == "--allow-branch" && pair[1] == "*"));
    assert!(args.contains(&"--no-verify".to_owned()));
    assert!(!args.contains(&"--execute".to_owned()));
}

#[test]
fn cargo_release_execute_requires_main_and_execute_flag() {
    let args = cargo_release_args(false);

    assert!(args.windows(2).any(|pair| pair[0] == "--allow-branch" && pair[1] == "main"));
    assert!(args.contains(&"--execute".to_owned()));
}

#[test]
fn execute_requires_publish_secret() {
    let values = StringMap::new();
    let key = "DHARA_TOOL_TEST_MISSING_NUGET_KEY";
    assert!(!secret_available(None, &values, key));
    assert!(missing_secret_message(key).contains("DHARA_TOOL_TEST_MISSING_NUGET_KEY"));
}

fn release_options_with(dry_run: bool, cargo: bool, nuget: bool, prepacked: bool) -> ReleaseOptions {
    ReleaseOptions {
        configuration: "Release".to_owned(),
        source_override: None,
        api_key_env_override: None,
        output_dir: None,
        dry_run,
        publish_cargo: cargo,
        publish_nuget: nuget,
        native_stage_override: None,
        prepacked_nuget: if prepacked { Some("pkg.nupkg".to_owned()) } else { None },
        verify_package_on_dry_run: false,
    }
}

#[test]
fn release_plans_follow_the_options() {
    let (steps, message) = release_plan(&release_options_with(false, true, true, false));
    assert_eq!(steps, vec![
        ReleaseStep::VerifyRelease,
        ReleaseStep::ValidateVersionsSynced,
        ReleaseStep::EnsureSecrets,
        ReleaseStep::CargoRelease,
        ReleaseStep::NugetPack,
        ReleaseStep::NugetPublishPacked,
    ]);
    assert_eq!(message, "Cargo and NuGet release completed successfully.");
    let (steps, message) = release_plan(&release_options_with(true, false, true, true));
    assert_eq!(steps.len(), 3);
    assert_eq!(message, "NuGet release dry run completed using pre-packed NuGet artifact.");
    let (_, message) = release_plan(&release_options_with(true, false, false, false));
    assert_eq!(message, "Release flow completed with Cargo and NuGet publishing skipped.");
}

#[test]
fn release_secrets_depend_on_what_publishes() {
    let secrets = required_release_secrets(&release_options_with(false, true, true, false), "NUGET_API_KEY");
    assert_eq!(secrets, vec!["CARGO_REGISTRY_TOKEN".to_owned(), "NUGET_API_KEY".to_owned()]);
    assert!(required_release_secrets(&release_options_with(true, true, true, false), "NUGET_API_KEY").is_empty());
    let mut file = StringMap::new();
    file.insert("NUGET_API_KEY".to_owned(), "  ".to_owned());
    assert!(!secret_available(Some(""), &file, "NUGET_API_KEY"));
    assert!(secret_available(Some("k"), &file, "NUGET_API_KEY"));
}

#[test]
fn quality_command_lines() {
    assert_eq!(fmt_command_args(true).last().unwrap(), "--check");
    assert_eq!(fmt_command_args(false).len(), 9);
    let clippy = clippy_args_commands();
    assert_eq!(clippy.len(), 2);
    assert_eq!(clippy[0][2], "dhara_storage");
    assert_eq!(quality_plan(true, true), vec![QualityStep::FmtCheck, QualityStep::Clippy, QualityStep::TestRust]);
}

#[test]
fn dotnet_tests_use_configured_project() {
    let config = dhara_tool::repo_config::DharaRepoConfig {
        versions: dhara_tool::repo_config::VersionConfig { workspace: "0.1.0".to_owned() },
        tool: dhara_tool::repo_config::ToolConfig { version: "0.1.0".to_owned() },
        nuget: dhara_tool::repo_config::NuGetConfig {
            package_id: "P".to_owned(),
            source: "s".to_owned(),
            authors: vec!["a".to_owned()],
            description: "d".to_owned(),
            tags: vec!["t".to_owned()],
            readme: "r.md".to_owned(),
            icon: None,
            repository_url: "u".to_owned(),
            project_url: "u".to_owned(),
        },
        ci: dhara_tool::repo_config::CiConfig {
            smoke_project: "s.csproj".to_owned(),
            package_project: "p.csproj".to_owned(),
            tests_project: "tests/T.csproj".to_owned(),
            native_runtimes: vec!["win-x64".to_owned()],
            host_runtime_smoke: "win-x64".to_owned(),
            aot_runtime_smoke: "win-x64".to_owned(),
        },
        publish: dhara_tool::repo_config::PublishConfig { environment: "e".to_owned(), api_key_env: "K".to_owned() },
        targets: dhara_tool::repo_config::TargetsConfig { rust_targets: StringMap::new() },
    };
    assert_eq!(test_dotnet_args(&config), vec!["test".to_owned(), "tests/T.csproj".to_owned()]);
}

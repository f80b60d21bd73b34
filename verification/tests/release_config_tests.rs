use dhara_tool::activation::{non_interactive_drift_message, run_activation, ActivationStep};
use dhara_tool::command::RunMode;
use dhara_tool::drift::{apply_drift_to, config_drift, ConfigDriftItem, ConfigDriftKind};
use dhara_tool::manifest::{read_tool_crate_version, validate_versions_synced, ManifestError};
use dhara_tool::repo_config::{
    CiConfig, DharaRepoConfig, NuGetConfig, PublishConfig, TargetsConfig, ToolConfig, VersionConfig,
    TOOL_CARGO_TOML_PATH,
};
use dhara_tool::strmap::StringMap;

fn release_sample_config() -> DharaRepoConfig {
    let mut targets = StringMap::new();
    targets.insert("win-x64".to_owned(), "x86_64-pc-windows-msvc".to_owned());
    DharaRepoConfig {
        versions: VersionConfig { workspace: "0.5.0".to_owned() },
        tool: ToolConfig { version: "0.8.1".to_owned() },
        nuget: NuGetConfig {
            package_id: "Dhara.Storage".to_owned(),
            source: "https://api.nuget.org/v3/index.json".to_owned(),
            authors: vec!["Naveen Dharmathunga".to_owned()],
            description: "Dhara Storage".to_owned(),
            tags: vec!["storage".to_owned()],
            readme: "src/bindings/Dhara.Storage/README.md".to_owned(),
            icon: None,
            repository_url: "https://github.com/D-Naveenz/dhara_storage".to_owned(),
            project_url: "https://github.com/D-Naveenz/dhara_storage".to_owned(),
        },
        ci: CiConfig {
            smoke_project: "src/bindings/Dhara.Storage.ConsumerSmoke/Dhara.Storage.ConsumerSmoke.csproj".to_owned(),
            package_project: "src/bindings/Dhara.Storage/Dhara.Storage.csproj".to_owned(),
            tests_project: "src/bindings/Dhara.Storage.Tests/Dhara.Storage.Tests.csproj".to_owned(),
            native_runtimes: vec!["win-x64".to_owned()],
            host_runtime_smoke: "win-x64".to_owned(),
            aot_runtime_smoke: "win-x64".to_owned(),
        },
        publish: PublishConfig {
            environment: "nuget-production".to_owned(),
            api_key_env: "NUGET_API_KEY".to_owned(),
        },
        targets: TargetsConfig { rust_targets: targets },
    }
}

fn version_files(cargo_version: &str, csproj_version: &str) -> (String, String) {
    let cargo = format!(
        r#"[workspace]
[workspace.package]
version = "{cargo_version}"
[workspace.dependencies]
dhara_storage_dal = {{ version = "{cargo_version}", path = "src/core/dhara_storage_dal" }}
dhara_storage = {{ version = "{cargo_version}", path = "src/core/dhara_storage" }}
"#
    );
    let csproj = format!(
        r#"<Project Sdk="Microsoft.NET.Sdk"><PropertyGroup><Version>{csproj_version}</Version></PropertyGroup></Project>"#
    );
    (cargo, csproj)
}

#[test]
fn validate_versions_synced_accepts_matching_metadata() {
    let config = release_sample_config();
    let (cargo, csproj) = version_files("0.5.0", "0.5.0");
    validate_versions_synced(&cargo, &csproj, &config).unwrap();
}

#[test]
fn validate_versions_synced_rejects_mismatched_metadata() {
    let config = release_sample_config();
    let (cargo, csproj) = version_files("0.5.0", "0.4.4");
    let error = validate_versions_synced(&cargo, &csproj, &config).unwrap_err();
    assert!(matches!(&error, ManifestError::CsprojVersionMismatch(actual, expected) if actual == "0.4.4" && expected == "0.5.0"));
    assert!(error.message().contains("package csproj Version"));
}

#[test]
fn activation_yes_applies_without_prompt() {
    let mut config = release_sample_config();
    config.versions.workspace = "0.2.0".to_owned();
    config.tool.version = "0.9.0".to_owned();
    let tool_manifest = "[package]\nversion = \"0.8.1\"\n";
    let drifts = config_drift(&config, tool_manifest, "[workspace]\n", "<Project />").unwrap();
    assert!(drifts.iter().any(|item| item.kind == ConfigDriftKind::ToolCrateVersion));
    assert_eq!(run_activation(drifts.len(), true, RunMode::Direct), ActivationStep::ApplyAll);
    let updated = apply_drift_to(ConfigDriftKind::ToolCrateVersion, tool_manifest, &config)
        .unwrap()
        .unwrap();
    assert_eq!(read_tool_crate_version(&updated).unwrap(), "0.9.0");
    let remaining = config_drift(&config, &updated, "[workspace]\n", "<Project />").unwrap();
    assert!(!remaining.iter().any(|item| item.kind == ConfigDriftKind::ToolCrateVersion));
}

#[test]
fn activation_non_tty_without_yes_fails() {
    let drifts = vec![ConfigDriftItem {
        kind: ConfigDriftKind::ToolCrateVersion,
        summary: format!("{TOOL_CARGO_TOML_PATH} package.version: 0.8.1 -> 0.9.0"),
    }];
    assert_eq!(run_activation(drifts.len(), false, RunMode::Direct), ActivationStep::Prompt);
    assert!(non_interactive_drift_message(&drifts).contains("--yes"));
}

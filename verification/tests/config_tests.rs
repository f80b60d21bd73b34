use dhara_tool::repo_config::{show_output, validate_config};
use dhara_tool::paths::{path_ancestors, repo_root_search_order, resolve_tool_root};
use dhara_tool::quality::ensure_dotnet_available;
use dhara_tool::csproj::{csproj_needs_sync, sync_csproj};
use dhara_tool::drift::{apply_drift_to, config_drift, ConfigDriftKind};
use dhara_tool::manifest::{read_tool_crate_version, sync_cargo_toml, sync_tool_cargo_toml};
use dhara_tool::repo_config::{
    bump_version_text, masked_env, parse_env_content, required_config_paths, set_version_text,
    validate_config_values, CiConfig, ConfigError, DharaRepoConfig, NuGetConfig, PublishConfig,
    TargetsConfig, ToolConfig, VersionConfig, VersionPart,
};
use dhara_tool::strmap::StringMap;

fn sample_config() -> DharaRepoConfig {
    let mut targets = StringMap::new();
    targets.insert("win-x64".to_owned(), "x86_64-pc-windows-msvc".to_owned());
    targets.insert("win-arm64".to_owned(), "aarch64-pc-windows-msvc".to_owned());
    targets.insert("linux-x64".to_owned(), "x86_64-unknown-linux-gnu".to_owned());
    targets.insert("linux-arm64".to_owned(), "aarch64-unknown-linux-gnu".to_owned());
    targets.insert("osx-arm64".to_owned(), "aarch64-apple-darwin".to_owned());

    DharaRepoConfig {
        versions: VersionConfig { workspace: "0.2.0".to_owned() },
        tool: ToolConfig { version: "0.8.1".to_owned() },
        nuget: NuGetConfig {
            package_id: "Dhara.Storage".to_owned(),
            source: "https://api.nuget.org/v3/index.json".to_owned(),
            authors: vec!["Naveen Dharmathunga".to_owned()],
            description: "High-level .NET bindings for the native Dhara Storage Rust runtime.".to_owned(),
            tags: vec!["storage".to_owned(), "ffi".to_owned()],
            readme: "src/bindings/Dhara.Storage/README.md".to_owned(),
            icon: Some("src/bindings/Dhara.Storage/icon-small.png".to_owned()),
            repository_url: "https://github.com/D-Naveenz/rheo_storage".to_owned(),
            project_url: "https://github.com/D-Naveenz/rheo_storage".to_owned(),
        },
        ci: CiConfig {
            smoke_project: "src/bindings/Dhara.Storage.ConsumerSmoke/Dhara.Storage.ConsumerSmoke.csproj".to_owned(),
            package_project: "src/bindings/Dhara.Storage/Dhara.Storage.csproj".to_owned(),
            tests_project: "src/bindings/Dhara.Storage.Tests/Dhara.Storage.Tests.csproj".to_owned(),
            native_runtimes: vec![
                "win-x64".to_owned(),
                "win-arm64".to_owned(),
                "linux-x64".to_owned(),
                "linux-arm64".to_owned(),
                "osx-arm64".to_owned(),
            ],
            host_runtime_smoke: "win-x64".to_owned(),
            aot_runtime_smoke: "win-x64".to_owned(),
        },
        publish: PublishConfig {
            environment: "nuget-production".to_owned(),
            api_key_env: "NUGET_API_KEY".to_owned(),
        },
        targets: TargetsConfig { rust_targets: targets },
    }
}

const METADATA_INPUT: &str = r#"<Project Sdk="Microsoft.NET.Sdk"><PropertyGroup><Version>1.0.0</Version></PropertyGroup></Project>"#;

const ROOT_ASSETS_INPUT: &str = r#"<Project Sdk="Microsoft.NET.Sdk">
  <PropertyGroup>
    <PackageIcon>old.png</PackageIcon>
  </PropertyGroup>
  <ItemGroup>
    <None Include="..\..\..\..\..\Dhara.AI\assets\branding\dhara-logo-colored_sm.png">
      <Pack>True</Pack>
      <PackagePath>\</PackagePath>
    </None>
  </ItemGroup>
</Project>"#;

fn check_metadata_sync() {
    let config = sample_config();
    let updated = sync_csproj(METADATA_INPUT, &config).unwrap();

    assert!(updated.contains("<PackageId>Dhara.Storage</PackageId>"));
    assert!(updated.contains("<Version>0.2.0</Version>"));
    assert!(updated.contains("<PackageTags>storage;ffi</PackageTags>"));
    assert!(updated.contains("<PackageReadmeFile>README.md</PackageReadmeFile>"));
}

fn check_root_assets_sync() {
    let mut config = sample_config();
    config.nuget.icon = Some("assets/branding/dhara-logo-colored_sm.png".to_owned());
    let updated = sync_csproj(ROOT_ASSETS_INPUT, &config).unwrap();

    assert!(updated.contains("..\\..\\..\\assets\\branding\\dhara-logo-colored_sm.png"));
    assert!(!updated.contains("Dhara.AI"));
}

#[test]
fn repo_config_sync_csproj_updates_package_metadata() {
    check_metadata_sync();
}

#[test]
fn config_sync_csproj_updates_package_metadata() {
    check_metadata_sync();
}

#[test]
fn repo_config_sync_csproj_uses_project_relative_root_assets() {
    check_root_assets_sync();
}

#[test]
fn config_sync_csproj_uses_project_relative_root_assets() {
    check_root_assets_sync();
}

#[test]
fn csproj_needs_sync_ignores_msbuild_xml_formatting() {
    let config = sample_config();
    let formatted = r#"<Project Sdk="Microsoft.NET.Sdk">
  <PropertyGroup>
    <StagedNativeRoot Condition="&apos;$(StagedNativeRoot)&apos; == &apos;&apos;" />
    <PackageId>Dhara.Storage</PackageId>
    <Version>0.2.0</Version>
    <Description>High-level .NET bindings for the native Dhara Storage Rust runtime.</Description>
    <PackageReadmeFile>README.md</PackageReadmeFile>
    <RepositoryUrl>https://github.com/D-Naveenz/rheo_storage</RepositoryUrl>
    <PackageProjectUrl>https://github.com/D-Naveenz/rheo_storage</PackageProjectUrl>
    <Authors>Naveen Dharmathunga</Authors>
    <PackageTags>storage;ffi</PackageTags>
    <PackageIcon>icon-small.png</PackageIcon>
  </PropertyGroup>
  <ItemGroup>
    <None Pack="true" Include="README.md" PackagePath="\" />
  </ItemGroup>
  <ItemGroup>
    <None Include="icon-small.png" Pack="true" PackagePath="\" />
  </ItemGroup>
</Project>"#;

    assert!(!csproj_needs_sync(formatted, &config).unwrap());
    assert_eq!(sync_csproj(formatted, &config).unwrap(), formatted);
}

fn check_env_parsing() {
    let parsed = parse_env_content(
        r#"
            # comment
            NUGET_API_KEY=test-key

            NUGET_SOURCE=https://api.nuget.org/v3/index.json
            "#,
    )
    .unwrap();

    assert_eq!(parsed.get("NUGET_API_KEY"), Some("test-key".to_owned()));
    assert_eq!(
        parsed.get("NUGET_SOURCE"),
        Some("https://api.nuget.org/v3/index.json".to_owned())
    );
}

#[test]
fn repo_config_parse_env_content_ignores_comments_and_blank_lines() {
    check_env_parsing();
}

#[test]
fn config_parse_env_content_ignores_comments_and_blank_lines() {
    check_env_parsing();
}

fn check_masking() {
    let mut values = StringMap::new();
    values.insert("NUGET_API_KEY".to_owned(), "secret".to_owned());
    values.insert(
        "NUGET_SOURCE".to_owned(),
        "https://api.nuget.org/v3/index.json".to_owned(),
    );

    let masked = masked_env(values);

    assert_eq!(masked.get("NUGET_API_KEY"), Some("<redacted>".to_owned()));
    assert_eq!(
        masked.get("NUGET_SOURCE"),
        Some("https://api.nuget.org/v3/index.json".to_owned())
    );
}

#[test]
fn repo_config_masked_env_redacts_secret_like_keys() {
    check_masking();
}

#[test]
fn config_masked_env_redacts_secret_like_keys() {
    check_masking();
}

fn check_cargo_sync(dal_path: &str, storage_path: &str) {
    let input = format!(
        "[workspace]\n[workspace.package]\nversion = \"0.1.0\"\n[workspace.dependencies]\ndhara_storage_dal = {{ version = \"0.1.0\", path = \"{dal_path}\" }}\ndhara_storage = {{ version = \"0.1.0\", path = \"{storage_path}\" }}\n"
    );
    let updated = sync_cargo_toml(&input, "0.2.0").unwrap();

    assert!(updated.contains("version = \"0.2.0\""));
    assert!(updated.contains(&format!(
        "dhara_storage_dal = {{ version = \"0.2.0\", path = \"{dal_path}\" }}"
    )));
    assert!(updated.contains(&format!(
        "dhara_storage = {{ version = \"0.2.0\", path = \"{storage_path}\" }}"
    )));
}

#[test]
fn repo_config_sync_cargo_toml_updates_workspace_version() {
    check_cargo_sync("src/core/dhara_storage_dal", "src/core/dhara_storage");
}

#[test]
fn config_sync_cargo_toml_updates_workspace_version() {
    check_cargo_sync("src/static/dhara_storage_dal", "src/static/dhara_storage");
}

#[test]
fn sync_tool_cargo_toml_updates_package_version() {
    let updated = sync_tool_cargo_toml("[package]\nversion = \"0.8.1\"\n", "0.8.4").unwrap();
    assert!(updated.contains("version = \"0.8.4\""));
}

fn check_bump() {
    let config = sample_config();
    let bumped = bump_version_text(&config.versions.workspace, VersionPart::Major).unwrap();
    assert_eq!(bumped, "1.0.0");
}

#[test]
fn repo_config_bump_version_updates_workspace_version() {
    check_bump();
}

#[test]
fn config_bump_version_updates_workspace_version() {
    check_bump();
}

fn check_complete_layout() {
    let config = sample_config();
    validate_config_values(&config).unwrap();
    let paths = required_config_paths(&config);
    assert_eq!(paths[0], "dhara.config.toml");
    assert_eq!(paths[1], "Cargo.toml");
    assert!(paths.contains(&"src/bindings/Dhara.Storage/icon-small.png".to_owned()));
    assert_eq!(
        paths.last().unwrap(),
        "src/core/dhara_storage_dal/resources/filedefs.dat"
    );
}

#[test]
fn repo_config_validate_config_accepts_complete_repo_layout() {
    check_complete_layout();
}

#[test]
fn config_validate_config_accepts_complete_repo_layout() {
    check_complete_layout();
}

#[test]
fn detect_config_drift_reports_tool_manifest_mismatch() {
    let mut config = sample_config();
    config.tool.version = "0.9.0".to_owned();
    let drifts = config_drift(
        &config,
        "[package]\nversion = \"0.8.1\"\n",
        "[workspace]\n",
        "<Project />",
    )
    .unwrap();
    assert!(drifts.iter().any(|item| {
        item.kind == ConfigDriftKind::ToolCrateVersion
            && item.summary.contains("0.8.1")
            && item.summary.contains("0.9.0")
    }));
}

#[test]
fn apply_config_drift_writes_tool_crate_from_config() {
    let mut config = sample_config();
    config.tool.version = "0.9.0".to_owned();
    let tool_manifest = "[package]\nversion = \"0.8.1\"\n";
    let updated = apply_drift_to(ConfigDriftKind::ToolCrateVersion, tool_manifest, &config)
        .unwrap()
        .unwrap();
    assert_eq!(read_tool_crate_version(&updated).unwrap(), "0.9.0");
    let remaining = config_drift(&config, &updated, "[workspace]\n", "<Project />").unwrap();
    assert!(!remaining
        .iter()
        .any(|item| item.kind == ConfigDriftKind::ToolCrateVersion));
}

#[test]
fn parse_env_content_reports_line_number() {
    let error = parse_env_content("A=1\n\nnot an entry\n").unwrap_err();
    assert!(matches!(error, ConfigError::InvalidEnvLine(3)));
}

#[test]
fn parse_env_content_later_line_wins() {
    let parsed = parse_env_content("A=1\nA = 2 \n").unwrap();
    assert_eq!(parsed.get("A"), Some("2".to_owned()));
    assert_eq!(parsed.len(), 1);
}

#[test]
fn masked_env_redacts_token_secret_and_password_keys() {
    let mut values = StringMap::new();
    values.insert("gh_token".to_owned(), "t".to_owned());
    values.insert("DB_PASSWORD".to_owned(), "p".to_owned());
    values.insert("CLIENT_SECRET".to_owned(), "s".to_owned());
    values.insert("PLAIN".to_owned(), "v".to_owned());
    let masked = masked_env(values);
    assert_eq!(masked.get("gh_token"), Some("<redacted>".to_owned()));
    assert_eq!(masked.get("DB_PASSWORD"), Some("<redacted>".to_owned()));
    assert_eq!(masked.get("CLIENT_SECRET"), Some("<redacted>".to_owned()));
    assert_eq!(masked.get("PLAIN"), Some("v".to_owned()));
}

#[test]
fn validate_config_reports_each_rule() {
    let mut config = sample_config();
    config.versions.workspace = "abc".to_owned();
    assert!(matches!(validate_config_values(&config), Err(ConfigError::InvalidWorkspaceVersion(v)) if v == "abc"));

    let mut config = sample_config();
    config.tool.version = "1.2".to_owned();
    assert!(matches!(validate_config_values(&config), Err(ConfigError::InvalidToolVersion(_))));

    let mut config = sample_config();
    config.nuget.package_id = "  ".to_owned();
    assert!(matches!(validate_config_values(&config), Err(ConfigError::EmptyPackageId)));

    let mut config = sample_config();
    config.nuget.authors.clear();
    assert!(matches!(validate_config_values(&config), Err(ConfigError::NoAuthors)));

    let mut config = sample_config();
    config.nuget.tags.clear();
    assert!(matches!(validate_config_values(&config), Err(ConfigError::NoTags)));

    let mut config = sample_config();
    config.publish.api_key_env = String::new();
    assert!(matches!(validate_config_values(&config), Err(ConfigError::EmptyApiKeyEnv)));

    let mut config = sample_config();
    config.ci.native_runtimes.push("freebsd-x64".to_owned());
    assert!(matches!(validate_config_values(&config), Err(ConfigError::MissingRustTarget(r)) if r == "freebsd-x64"));

    let mut config = sample_config();
    config.ci.aot_runtime_smoke = "osx-x64".to_owned();
    assert!(matches!(validate_config_values(&config), Err(ConfigError::AotRuntimeNotListed(r)) if r == "osx-x64"));
}

#[test]
fn version_texts_follow_semver() {
    assert_eq!(bump_version_text("1.2.3", VersionPart::Minor).unwrap(), "1.3.0");
    assert_eq!(bump_version_text("1.2.3", VersionPart::Patch).unwrap(), "1.2.4");
    assert_eq!(bump_version_text("1.2.3-beta.1+build5", VersionPart::Major).unwrap(), "2.0.0-beta.1+build5");
    assert!(matches!(bump_version_text("nope", VersionPart::Patch), Err(ConfigError::InvalidConfiguredSemver(_))));
    assert_eq!(set_version_text("3.4.5").unwrap(), "3.4.5");
    assert!(matches!(set_version_text("3.4"), Err(ConfigError::InvalidSemver(_))));
}

#[test]
fn validate_config_reports_first_missing_path() {
    let config = sample_config();
    let n = required_config_paths(&config).len();
    assert!(validate_config(&config, &vec![true; n]).is_ok());
    let mut exists = vec![true; n];
    exists[3] = false;
    exists[5] = false;
    assert!(matches!(
        validate_config(&config, &exists),
        Err(ConfigError::MissingPath(p)) if p == "src/bindings/Dhara.Storage.Tests/Dhara.Storage.Tests.csproj"
    ));
    let mut bad = sample_config();
    bad.nuget.tags.clear();
    assert!(matches!(validate_config(&bad, &exists), Err(ConfigError::NoTags)));
}

#[test]
fn show_output_masks_secrets() {
    let mut env = StringMap::new();
    env.insert("NUGET_API_KEY".to_owned(), "abc123".to_owned());
    env.insert("PLAIN".to_owned(), "value".to_owned());
    let out = show_output(sample_config(), env);
    assert_eq!(out.env.get("NUGET_API_KEY"), Some("<redacted>".to_owned()));
    assert_eq!(out.env.get("PLAIN"), Some("value".to_owned()));
    assert_eq!(out.config.tool.version, "0.8.1");
}

#[test]
fn tool_root_prefers_executable_directory() {
    assert_eq!(resolve_tool_root(Some("/opt/tool/dhara_tool"), Some("/fallback")), Some("/opt/tool".to_owned()));
    assert_eq!(resolve_tool_root(None, Some("/fallback")), Some("/fallback".to_owned()));
    assert_eq!(resolve_tool_root(Some("/"), None), None);
    assert_eq!(resolve_tool_root(None, None), None);
}

#[test]
fn dotnet_check_reports_missing_sdk() {
    assert!(ensure_dotnet_available(true).is_ok());
    assert_eq!(ensure_dotnet_available(false), Err("dotnet SDK was not found on PATH".to_owned()));
}

#[test]
fn repo_root_search_walks_up_from_cwd_then_executable() {
    assert_eq!(path_ancestors("/a/b/c"), vec!["/a/b/c", "/a/b", "/a", "/"]);
    assert_eq!(path_ancestors("rel/dir"), vec!["rel/dir", "rel", ""]);
    assert_eq!(
        repo_root_search_order(Some("/w/target/debug"), Some("/opt/t/dhara_tool")),
        vec!["/w/target/debug", "/w/target", "/w", "/", "/opt/t", "/opt", "/"]
    );
    assert_eq!(
        repo_root_search_order(Some("/opt/t"), Some("/opt/t/dhara_tool")),
        vec!["/opt/t", "/opt", "/"]
    );
    assert_eq!(repo_root_search_order(None, None), Vec::<String>::new());
}

#[test]
fn repo_root_markers_name_the_monorepo_layout() {
    use_markers();
}

fn use_markers() {
    let markers = dhara_tool::paths::repo_root_markers("/w");
    assert_eq!(
        markers,
        vec!["/w/dhara.config.toml", "/w/Cargo.toml", "/w/tooling/dhara_tool/Cargo.toml"]
    );
}

#[test]
fn syncing_removes_the_drift_it_reports() {
    let config = sample_config();
    for input in [METADATA_INPUT, ROOT_ASSETS_INPUT] {
        let once = sync_csproj(input, &config).unwrap();
        assert!(!csproj_needs_sync(&once, &config).unwrap());
        assert_eq!(sync_csproj(&once, &config).unwrap(), once);
    }
    let cargo = "[workspace]\n[workspace.package]\nversion = \"0.1.0\"\n";
    let once = sync_cargo_toml(cargo, "0.2.0").unwrap();
    assert_eq!(sync_cargo_toml(&once, "0.2.0").unwrap(), once);
    let tool = "[package]\nname = \"dhara_tool\"\nversion = \"0.8.0\"\n";
    let once = sync_tool_cargo_toml(tool, "0.8.1").unwrap();
    assert_eq!(read_tool_crate_version(&once).unwrap(), "0.8.1");
    assert_eq!(sync_tool_cargo_toml(&once, "0.8.1").unwrap(), once);
}

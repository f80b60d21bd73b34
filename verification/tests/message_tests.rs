use dhara_tool::args::ArgError;
use dhara_tool::cli::RootArgError;
use dhara_tool::csproj::CsprojError;
use dhara_tool::drift::DriftError;
use dhara_tool::manifest::ManifestError;
use dhara_tool::native_rids::RidError;
use dhara_tool::repo_config::ConfigError;

#[test]
fn config_error_messages() {
    assert_eq!(
        ConfigError::InvalidEnvLine(3).message(),
        "invalid env entry on line 3: expected KEY=VALUE"
    );
    assert_eq!(ConfigError::NoTags.message(), "nuget.tags must not be empty");
    assert_eq!(
        ConfigError::MissingRustTarget("osx-x64".to_owned()).message(),
        "targets.rust_targets is missing an entry for runtime 'osx-x64'"
    );
    assert_eq!(
        ConfigError::HostRuntimeNotListed("win-x86".to_owned()).message(),
        "ci.host_runtime_smoke 'win-x86' must be present in ci.native_runtimes"
    );
    assert_eq!(ConfigError::InvalidSemver("1.x".to_owned()).message(), "invalid semver: 1.x");
    assert_eq!(
        ConfigError::MissingPath(".env.example".to_owned()).message(),
        "required path does not exist: .env.example"
    );
}

#[test]
fn manifest_and_drift_error_messages() {
    assert_eq!(
        ManifestError::KeyMismatch("workspace.package.version".to_owned(), "0.4.4".to_owned(), "0.5.0".to_owned())
            .message(),
        "workspace.package.version is 0.4.4, expected 0.5.0"
    );
    assert_eq!(
        ManifestError::CsprojVersionMismatch("0.4.4".to_owned(), "0.5.0".to_owned()).message(),
        "package csproj Version is 0.4.4, expected 0.5.0"
    );
    assert_eq!(ManifestError::KeyMissing("x.version".to_owned()).message(), "x.version is missing");
    assert_eq!(
        DriftError::Csproj(CsprojError::MalformedElement("Version".to_owned())).message(),
        "malformed csproj element <Version>"
    );
    assert_eq!(
        DriftError::Manifest(ManifestError::Unparsable("Cargo.toml".to_owned())).message(),
        "failed to parse Cargo.toml"
    );
}

#[test]
fn argument_error_messages() {
    assert_eq!(
        ArgError::Conflict("--dry-run".to_owned(), "--execute".to_owned()).message(),
        "--dry-run and --execute cannot be used together"
    );
    assert_eq!(
        ArgError::InvalidValue("--part".to_owned(), "huge".to_owned()).message(),
        "invalid value 'huge' for '--part'"
    );
    assert_eq!(RootArgError::MissingValue("--workers".to_owned()).message(), "--workers requires a value");
    assert_eq!(
        RootArgError::InvalidWorkers("x".to_owned()).message(),
        "'x' is not a valid worker count"
    );
    assert_eq!(
        RidError::NoPlatform("freebsd-x64".to_owned()).message(),
        "unsupported runtime for Platform inference: freebsd-x64"
    );
}

use dhara_tool::args::ArgError;
use dhara_tool::command::{CommandRegistry, RunMode, ToolContext};
use dhara_tool::commands::{
    parse_native_merge_args, parse_publish_args, parse_release_run_args, parse_sync_embedded_args,
    parse_verify_defs_args, parse_version_bump_args, parse_version_set_args, publish_options,
    release_options,
};
use dhara_tool::registry::{ui_for_command, DharaStorageCapability};
use dhara_tool::repo_config::VersionPart;

fn test_context() -> ToolContext {
    ToolContext {
        repo_root: ".".to_owned(),
        tool_root: ".".to_owned(),
        run_mode: RunMode::Direct,
        min: false,
        trace: false,
        workers: 4,
        package_dir: None,
        output_dir: None,
        logs_dir: None,
    }
}

fn tokens(items: &[&str]) -> Vec<String> {
    items.iter().map(|s| (*s).to_owned()).collect()
}

fn check_release_defaults() {
    let args = parse_release_run_args(&Vec::new()).unwrap().unwrap();
    let options = release_options(args, &test_context());

    assert!(!options.dry_run);
    assert!(options.publish_cargo);
    assert!(options.publish_nuget);
    assert_eq!(options.configuration, "Release");
}

fn check_release_skips() {
    let args = parse_release_run_args(&tokens(&["--dry-run", "--skip-cargo", "--skip-nuget"]))
        .unwrap()
        .unwrap();
    let options = release_options(args, &test_context());

    assert!(options.dry_run);
    assert!(!options.publish_cargo);
    assert!(!options.publish_nuget);
}

#[test]
fn commands_release_run_defaults_to_execute_with_nuget() {
    check_release_defaults();
}

#[test]
fn capability_release_run_defaults_to_execute_with_nuget() {
    check_release_defaults();
}

#[test]
fn commands_release_run_supports_dry_run_and_skips() {
    check_release_skips();
}

#[test]
fn capability_release_run_supports_dry_run_and_skips() {
    check_release_skips();
}

fn check_registration() {
    let mut registry = CommandRegistry::new();
    DharaStorageCapability.register(&mut registry);

    let sections = registry.sections().iter().map(|section| section.name).collect::<Vec<_>>();
    assert_eq!(sections, vec!["config", "defs", "package", "release", "verify", "version"]);

    let commands = registry.commands().iter().map(|command| command.id).collect::<Vec<_>>();
    assert!(commands.contains(&"config.show"));
    assert!(commands.contains(&"defs.inspect-trid-xml"));
    assert!(commands.contains(&"verify.package"));
    assert!(commands.contains(&"release.publish"));
    assert!(commands.contains(&"release.run"));
    assert!(registry
        .commands()
        .iter()
        .all(|command| !command.ui.description.trim().is_empty()));
}

#[test]
fn registry_registration_adds_expected_sections_and_commands() {
    check_registration();
}

#[test]
fn capability_registration_adds_expected_sections_and_commands() {
    check_registration();
}

#[test]
fn registering_twice_keeps_one_entry_per_name() {
    let mut registry = CommandRegistry::new();
    DharaStorageCapability.register(&mut registry);
    DharaStorageCapability.register(&mut registry);
    assert_eq!(registry.sections().len(), 6);
    assert_eq!(registry.commands().len(), 20);
    let ids = registry.commands().iter().map(|c| c.id).collect::<Vec<_>>();
    let mut sorted = ids.clone();
    sorted.sort();
    assert_eq!(ids, sorted);
}

#[test]
fn ui_forms_follow_the_command() {
    let ui = ui_for_command("release.run", "s", "a");
    assert_eq!(ui.fields.len(), 6);
    assert!(ui.supports_cancel);
    assert!(!ui.quick_run);
    let fallback = ui_for_command("something.else", "Fallback summary", "");
    assert_eq!(fallback.description, "Fallback summary");
    assert!(fallback.fields.is_empty());
    let quick = ui_for_command("verify.ci", "s", "a");
    assert!(quick.quick_run && quick.supports_cancel);
}

#[test]
fn command_arguments_are_checked() {
    assert!(matches!(parse_release_run_args(&tokens(&["--bogus"])), Err(ArgError::Unknown(t)) if t == "--bogus"));
    assert!(matches!(parse_release_run_args(&tokens(&["--source"])), Err(ArgError::MissingValue(t)) if t == "--source"));
    assert!(matches!(parse_release_run_args(&tokens(&["--dry-run", "--dry-run"])), Err(ArgError::Repeated(_))));
    assert!(matches!(parse_release_run_args(&tokens(&["--dry-run=yes"])), Err(ArgError::UnexpectedValue(_))));
    assert!(matches!(parse_release_run_args(&tokens(&["stray"])), Err(ArgError::UnexpectedPositional(t)) if t == "stray"));
    assert!(parse_release_run_args(&tokens(&["--help"])).unwrap().is_none());
    let args = parse_release_run_args(&tokens(&["--configuration=Debug", "--source", "https://x"])).unwrap().unwrap();
    assert_eq!(args.configuration, "Debug");
    assert_eq!(args.source.as_deref(), Some("https://x"));

    assert!(matches!(parse_version_bump_args(&Vec::new()), Err(ArgError::MissingRequired(t)) if t == "--part"));
    assert!(matches!(parse_version_bump_args(&tokens(&["--part", "huge"])), Err(ArgError::InvalidValue(_, v)) if v == "huge"));
    assert_eq!(parse_version_bump_args(&tokens(&["--part", "minor"])).unwrap().unwrap().part, VersionPart::Minor);

    assert!(matches!(parse_version_set_args(&Vec::new()), Err(ArgError::MissingPositional(_))));
    assert_eq!(parse_version_set_args(&tokens(&["1.2.3"])).unwrap().unwrap().version, "1.2.3");

    let merge = parse_native_merge_args(&tokens(&["--output", "o", "--input", "a", "--input=b"])).unwrap().unwrap();
    assert_eq!(merge.input, vec!["a".to_owned(), "b".to_owned()]);
    assert_eq!(merge.output, "o");

    let sync = parse_sync_embedded_args(&tokens(&["-i", "in", "-oout", "--check"])).unwrap().unwrap();
    assert_eq!(sync.input.as_deref(), Some("in"));
    assert_eq!(sync.output.as_deref(), Some("out"));
    assert!(sync.check);

    assert!(matches!(parse_verify_defs_args(&tokens(&["--left", "l"])), Err(ArgError::MissingRequired(t)) if t == "--right"));
}

#[test]
fn publish_rejects_dry_run_with_execute() {
    let args = parse_publish_args(&tokens(&["--dry-run", "--execute"])).unwrap().unwrap();
    assert!(matches!(publish_options(args, &test_context()), Err(ArgError::Conflict(_, _))));
    let args = parse_publish_args(&tokens(&["--execute"])).unwrap().unwrap();
    assert!(publish_options(args, &test_context()).unwrap().execute_publish);
}

#[test]
fn command_lines_resolve_to_the_longest_matching_command() {
    let mut registry = CommandRegistry::new();
    DharaStorageCapability.register(&mut registry);
    let line = tokens(&["config", "env", "init", "--extra"]);
    let (i, k) = registry.resolve(&line).unwrap();
    assert_eq!(registry.commands()[i].id, "config.env.init");
    assert_eq!(k, 3);
    let (i, k) = registry.resolve(&tokens(&["version", "set", "1.2.3"])).unwrap();
    assert_eq!(registry.commands()[i].id, "version.set");
    assert_eq!(k, 2);
    assert!(registry.resolve(&tokens(&["version"])).is_none());
    assert!(registry.resolve(&tokens(&["nothing", "here"])).is_none());
    assert!(registry.resolve(&Vec::new()).is_none());
}

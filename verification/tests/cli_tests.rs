use dhara_tool::activation::{accepts_activation_answer, non_interactive_drift_message, run_activation, ActivationStep};
use dhara_tool::cli::{determine_launch_mode, help_text, parse_root_args, LaunchMode, RootArgError};
use dhara_tool::command::RunMode;
use dhara_tool::drift::{ConfigDriftItem, ConfigDriftKind};

#[test]
fn no_command_in_tty_uses_tui() {
    assert_eq!(determine_launch_mode(false, true), LaunchMode::InteractiveTui);
}

#[test]
fn no_command_without_tty_uses_plain_help() {
    assert_eq!(determine_launch_mode(false, false), LaunchMode::PlainHelp);
}

#[test]
fn explicit_command_uses_direct_mode() {
    assert_eq!(determine_launch_mode(true, true), LaunchMode::DirectCommand);
    assert_eq!(determine_launch_mode(true, false), LaunchMode::DirectCommand);
}

#[test]
fn trace_flag_may_follow_subcommand() {
    let parsed = parse_root_args(vec![
        "defs".to_owned(),
        "inspect-trid-xml".to_owned(),
        "--trace".to_owned(),
    ])
    .unwrap();

    assert!(parsed.trace);
    assert_eq!(parsed.command, vec!["defs", "inspect-trid-xml"]);
}

#[test]
fn min_flag_parsed() {
    let parsed = parse_root_args(vec!["defs".to_owned(), "inspect".to_owned(), "--min".to_owned()]).unwrap();
    assert!(parsed.min);
}

#[test]
fn min_short_flag_parsed() {
    let parsed = parse_root_args(vec!["-m".to_owned(), "defs".to_owned(), "inspect".to_owned()]).unwrap();
    assert!(parsed.min);
}

#[test]
fn trace_short_flag_parsed() {
    let parsed = parse_root_args(vec![
        "-t".to_owned(),
        "defs".to_owned(),
        "inspect-trid-xml".to_owned(),
    ])
    .unwrap();
    assert!(parsed.trace);
}

#[test]
fn workers_flag_parsed() {
    let parsed = parse_root_args(vec![
        "-w".to_owned(),
        "2".to_owned(),
        "defs".to_owned(),
        "inspect".to_owned(),
    ])
    .unwrap();
    assert_eq!(parsed.workers, Some(2));
}

#[test]
fn yes_flag_parsed() {
    let parsed = parse_root_args(vec!["--yes".to_owned(), "config".to_owned(), "show".to_owned()]).unwrap();
    assert!(parsed.yes);
}

#[test]
fn value_options_take_next_token_or_inline_value() {
    let parsed = parse_root_args(vec![
        "--repo-root".to_owned(),
        "/repo".to_owned(),
        "--logs-dir=--logs-dir=logs".to_owned(),
        "--workers=+8".to_owned(),
        "config".to_owned(),
        "--output-dir=out".to_owned(),
    ])
    .unwrap();
    assert_eq!(parsed.repo_root.as_deref(), Some("/repo"));
    assert_eq!(parsed.logs_dir.as_deref(), Some("logs"));
    assert_eq!(parsed.output_dir.as_deref(), Some("out"));
    assert_eq!(parsed.workers, Some(8));
    assert_eq!(parsed.command, vec!["config"]);
}

#[test]
fn value_option_errors() {
    assert!(matches!(
        parse_root_args(vec!["show".to_owned(), "--workers".to_owned()]),
        Err(RootArgError::MissingValue(o)) if o == "--workers"
    ));
    assert!(matches!(
        parse_root_args(vec!["-w".to_owned(), "two".to_owned()]),
        Err(RootArgError::InvalidWorkers(v)) if v == "two"
    ));
    assert!(matches!(
        parse_root_args(vec!["--workers=-1".to_owned()]),
        Err(RootArgError::InvalidWorkers(v)) if v == "-1"
    ));
}

#[test]
fn help_text_starts_with_usage() {
    let text = help_text("Commands:\n");
    assert!(text.starts_with("Usage: dhara_tool [global-options] <command> [command-options]\n"));
    assert!(text.ends_with("  --version\n\nCommands:\n"));
}

#[test]
fn non_interactive_message_lists_drifts() {
    let drifts = vec![ConfigDriftItem {
        kind: ConfigDriftKind::ToolCrateVersion,
        summary: "tool drift".to_owned(),
    }];
    let message = non_interactive_drift_message(&drifts);
    assert!(message.contains("tool drift"));
    assert!(message.contains("--yes"));
    assert_eq!(
        message,
        "configuration drift detected; pass --yes to apply without prompting:\n  - tool drift\n"
    );
}

#[test]
fn activation_steps_follow_mode_and_yes() {
    assert_eq!(run_activation(0, true, RunMode::Direct), ActivationStep::Nothing);
    assert_eq!(run_activation(2, true, RunMode::Interactive), ActivationStep::ApplyAll);
    assert_eq!(run_activation(1, false, RunMode::Interactive), ActivationStep::Pending);
    assert_eq!(run_activation(1, false, RunMode::Direct), ActivationStep::Prompt);
}

#[test]
fn activation_answer_accepts_yes_in_any_case() {
    assert!(accepts_activation_answer(" Y\n"));
    assert!(accepts_activation_answer("YES"));
    assert!(!accepts_activation_answer("no"));
    assert!(!accepts_activation_answer(""));
}

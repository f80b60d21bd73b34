use dhara_tool::command::CommandResult;
use dhara_tool::logging::{
    format_command_args, format_duration, is_long_running_module, log_file_name_for, next_log_session,
    parse_log_session, resolve_log_levels, summarize_command_result, LogDate, LogLevel,
};
use dhara_tool::runner::{field, CommandReport, ReportStatus};
use dhara_tool::trid::format_elapsed;

fn april_tenth() -> LogDate {
    LogDate { year: 2026, month: 4, day: 10 }
}

fn check_session_zero_name() {
    assert_eq!(log_file_name_for(april_tenth(), 0), "2026-04-10_dhara_tool.log");
}

fn check_numbered_names() {
    assert_eq!(log_file_name_for(april_tenth(), 1), "2026-04-10_dhara_tool_1.log");
    assert_eq!(log_file_name_for(april_tenth(), 3), "2026-04-10_dhara_tool_3.log");
}

fn check_session_parsing() {
    let date = april_tenth();
    assert_eq!(parse_log_session("2026-04-10_dhara_tool.log", date), Some(0));
    assert_eq!(parse_log_session("2026-04-10_dhara_tool_1.log", date), Some(1));
    assert_eq!(parse_log_session("2026-04-09_dhara_tool.log", date), None);
}

fn check_next_session() {
    let date = april_tenth();
    let mut names: Vec<String> = Vec::new();
    assert_eq!(next_log_session(&names, date), 0);
    names.push(log_file_name_for(date, 0));
    assert_eq!(next_log_session(&names, date), 1);
    names.push(log_file_name_for(date, 1));
    assert_eq!(next_log_session(&names, date), 2);
}

#[test]
fn audit_log_file_name_uses_dhara_tool_stem_for_session_zero() {
    check_session_zero_name();
}

#[test]
fn logging_log_file_name_uses_dhara_tool_stem_for_session_zero() {
    check_session_zero_name();
}

#[test]
fn audit_log_file_name_adds_session_suffix_for_positive_sessions() {
    check_numbered_names();
}

#[test]
fn logging_log_file_name_adds_session_suffix_for_positive_sessions() {
    check_numbered_names();
}

#[test]
fn audit_parse_log_session_recognizes_session_zero_and_numbered_sessions() {
    check_session_parsing();
}

#[test]
fn logging_parse_log_session_recognizes_session_zero_and_numbered_sessions() {
    check_session_parsing();
}

#[test]
fn audit_next_log_session_starts_at_zero_and_increments() {
    check_next_session();
}

#[test]
fn logging_next_log_session_starts_at_zero_and_increments() {
    check_next_session();
}

#[test]
fn format_duration_scales_units() {
    assert_eq!(format_duration(0, 450_000_000).as_deref(), Some("450ms"));
    assert_eq!(format_duration(65, 0).as_deref(), Some("1m5s"));
}

#[test]
fn format_duration_covers_every_unit() {
    assert_eq!(format_duration(7384, 0).as_deref(), Some("2h3m"));
    assert_eq!(format_duration(3600, 0).as_deref(), Some("1h0m"));
    assert_eq!(format_duration(60, 999_000_000).as_deref(), Some("1m0s"));
    assert_eq!(format_duration(0, 999_999).as_deref(), Some("0ms"));
    assert_eq!(format_duration(0, 999_999_999).as_deref(), Some("999ms"));
}

#[test]
fn format_duration_leaves_fractional_seconds_to_the_caller() {
    assert_eq!(format_duration(1, 0), None);
    assert_eq!(format_duration(3, 260_000_000), None);
    assert_eq!(format_duration(59, 960_000_000), None);
}

#[test]
fn format_elapsed_writes_milliseconds_below_a_second() {
    assert_eq!(format_elapsed(0, 12_345_678).as_deref(), Some("12ms"));
    assert_eq!(format_elapsed(0, 999_999_999).as_deref(), Some("999ms"));
    assert_eq!(format_elapsed(1, 0), None);
    assert_eq!(format_elapsed(42, 500_000_000), None);
}

#[test]
fn default_log_levels_use_info_on_console_and_file() {
    let (console, file) = resolve_log_levels(false, false);
    assert_eq!(console, LogLevel::Info);
    assert_eq!(file, LogLevel::Info);
}

#[test]
fn min_lowers_file_log_to_warn_only() {
    let (console, file) = resolve_log_levels(true, false);
    assert_eq!(console, LogLevel::Info);
    assert_eq!(file, LogLevel::Warn);
}

#[test]
fn trace_raises_file_log_to_debug() {
    let (console, file) = resolve_log_levels(false, true);
    assert_eq!(console, LogLevel::Info);
    assert_eq!(file, LogLevel::Debug);
}

#[test]
fn log_names_of_other_days_and_shapes_are_ignored() {
    let date = april_tenth();
    assert_eq!(parse_log_session("2026-04-10_dhara_tool_x.log", date), None);
    assert_eq!(parse_log_session("2026-04-10_dhara_tool_12.txt", date), None);
    assert_eq!(parse_log_session("2026-04-10_dhara_tool_4294967296.log", date), None);
    let names = vec!["notes.txt".to_owned(), log_file_name_for(date, 7), log_file_name_for(LogDate { year: 2026, month: 4, day: 9 }, 30)];
    assert_eq!(next_log_session(&names, date), 8);
    assert_eq!(log_file_name_for(LogDate { year: 812, month: 12, day: 1 }, 0), "0812-12-01_dhara_tool.log");
}

#[test]
fn command_args_and_long_runs() {
    assert_eq!(format_command_args(&Vec::new()), "defaults");
    assert_eq!(format_command_args(&vec!["--check".to_owned(), "-i".to_owned(), "x".to_owned()]), "--check -i x");
    assert!(is_long_running_module("release.run"));
    assert!(!is_long_running_module("config.show"));
}

#[test]
fn command_results_are_summarized() {
    let ok = CommandResult::success();
    assert_eq!(summarize_command_result("config.show", &ok), "completed");
    let failed = CommandResult { exit_code: -2, message: None, report: None };
    assert_eq!(summarize_command_result("config.show", &failed), "exit code -2");
    let msg = CommandResult::with_message("done".to_owned());
    assert_eq!(summarize_command_result("x", &msg), "done");
    let report = CommandReport {
        title: "Build Complete".to_owned(),
        status: ReportStatus::Success,
        fields: vec![field("Input", "a"), field("Output", "b"), field("Log", "c"), field("Total Parsed", "9"), field("Final Kept", "5")],
        exit_code: 0,
    };
    let with_report = CommandResult::with_report(report.clone());
    assert_eq!(summarize_command_result("defs.build-trid-xml", &with_report), "Output=b, Total Parsed=9, Final Kept=5");
    assert_eq!(
        summarize_command_result("release.run", &with_report),
        "Build Complete \u{2014} Input=a, Output=b, Log=c, Total Parsed=9"
    );
}

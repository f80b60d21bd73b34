use dhara_tool::command::{RunMode, ToolContext};
use dhara_tool::logging::{
    log_module_begin, log_module_begin_debug, log_module_compact_finish, log_module_end,
    log_module_failed, log_session_begin, log_session_end, log_task_step, log_transform_statistics,
    LogLevel, LoggingOptions,
};
use dhara_tool::trid::TridTransformReport;

fn context() -> ToolContext {
    ToolContext {
        repo_root: "/repo".to_owned(),
        tool_root: "/tool".to_owned(),
        run_mode: RunMode::Direct,
        min: false,
        trace: true,
        workers: 4,
        package_dir: None,
        output_dir: None,
        logs_dir: None,
    }
}

#[test]
fn session_begin_lines_name_version_flags_and_paths() {
    let options = LoggingOptions::from_context(&context());
    let lines = log_session_begin("0.8.1", &options, "/repo/logs/x.log");
    assert_eq!(lines.len(), 3);
    assert_eq!(lines[0].level, LogLevel::Info);
    assert_eq!(lines[0].text, "dhara_tool 0.8.1 started \u{2014} mode=direct, workers=4");
    assert_eq!(lines[1].level, LogLevel::Debug);
    assert_eq!(lines[1].text, "flags min=no, trace=yes, log=/repo/logs/x.log");
    assert_eq!(lines[2].level, LogLevel::Debug);
    assert_eq!(
        lines[2].text,
        "session paths resolved repo_root=/repo output_dir=/repo/output \
         defs_output_dir=/repo/src/core/dhara_storage_dal/resources logs_dir=/repo/logs package_dir=default"
    );
}

#[test]
fn session_end_wording_per_case() {
    let ts = "2026-04-10T12:00:00.000Z";
    assert_eq!(
        log_session_end(0, ts, Some("config.show"), None),
        "dhara_tool exiting 0 at 2026-04-10T12:00:00.000Z \u{2014} completed config.show"
    );
    assert_eq!(
        log_session_end(1, ts, Some("verify.ci"), Some("boom")),
        "dhara_tool exiting 1 at 2026-04-10T12:00:00.000Z \u{2014} verify.ci failed: boom"
    );
    assert_eq!(
        log_session_end(2, ts, None, Some("bad args")),
        "dhara_tool exiting 2 at 2026-04-10T12:00:00.000Z \u{2014} bad args"
    );
    assert_eq!(
        log_session_end(3, ts, Some("verify.ci"), None),
        "dhara_tool exiting 3 at 2026-04-10T12:00:00.000Z \u{2014} verify.ci"
    );
    assert_eq!(log_session_end(-1, ts, None, None), "dhara_tool exiting -1 at 2026-04-10T12:00:00.000Z");
}

#[test]
fn module_lines() {
    assert_eq!(log_module_begin("verify.ci", "defaults"), "verify.ci started \u{2014} defaults");
    assert_eq!(log_module_begin_debug("config.show", "defaults"), "config.show \u{2014} defaults");
    let ok = log_module_end("verify.ci", 0, "completed", "1.2s", "T");
    assert_eq!(ok.level, LogLevel::Info);
    assert_eq!(ok.text, "verify.ci finished in 1.2s at T \u{2014} completed");
    let bad = log_module_compact_finish("verify.ci", 2, "exit code 2", "15ms", "T");
    assert_eq!(bad.level, LogLevel::Warn);
    assert_eq!(bad.text, "verify.ci finished in 15ms at T with exit 2 \u{2014} exit code 2");
    assert_eq!(
        log_module_failed("package.pack", "no output", "3s", "T"),
        "package.pack failed in 3s at T \u{2014} no output"
    );
}

#[test]
fn transform_statistics_line() {
    let report = TridTransformReport {
        total_parsed: 10,
        mime_corrected: 1,
        mime_rejected: 2,
        extension_rejected: 3,
        signature_rejected: 0,
        final_trimmed: 1,
        final_kept: 4,
    };
    assert_eq!(
        log_transform_statistics(&report),
        "TrID transform \u{2014} parsed=10, kept=4, mime_corrected=1, mime_rejected=2, \
         ext_rejected=3, sig_rejected=0, trimmed=1"
    );
}

#[test]
fn task_step_levels_follow_outcome() {
    assert_eq!(log_task_step("fmt", "failed", None).level, LogLevel::Error);
    assert_eq!(log_task_step("fmt", "error", None).level, LogLevel::Error);
    assert_eq!(log_task_step("fmt", "skipped", None).level, LogLevel::Warn);
    assert_eq!(log_task_step("fmt", "bypassed", None).level, LogLevel::Warn);
    let ok = log_task_step("fmt", "ok", Some("clean"));
    assert_eq!(ok.level, LogLevel::Info);
    assert_eq!(ok.text, "task step task=fmt outcome=ok detail=clean");
    assert_eq!(log_task_step("doc", "warning", None).text, "task step task=doc outcome=warning detail=");
}

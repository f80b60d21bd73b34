use dhara_tool::runner::{build_report, print_report, verify_report, ReportStatus};
use dhara_tool::trid::{
    apply_reduce_decision, format_reduce_trace_line, phase_finish_summary, phase_step,
    should_report_parse_progress, trim_survivors, ReduceDecision, ReduceTraceDetail, TridBuildProgress,
    TridBuildStage, TridBuildStats, TridTransformReport,
};

#[test]
fn format_reduce_trace_line_rejects_invalid_mime_with_value() {
    let line = format_reduce_trace_line(
        5511,
        21692,
        "BrainSuite Surface File Format",
        &ReduceTraceDetail::RejectedInvalidMime { raw_mime: "application/x-foo".to_owned() },
    );
    assert!(line.contains("rejected: invalid MIME: application/x-foo"));
}

#[test]
fn format_reduce_trace_line_accepts_without_fix() {
    let line = format_reduce_trace_line(1768, 21692, "PNG Image", &ReduceTraceDetail::Accepted);
    assert_eq!(line, "(1768/21692) PNG Image \u{2014} accepted");
}

#[test]
fn format_reduce_trace_line_accepts_with_mime_fix() {
    let line = format_reduce_trace_line(
        1234,
        21692,
        "JPEG Image",
        &ReduceTraceDetail::AcceptedMimeFix {
            from: "application/octet-stream".to_owned(),
            to: "image/jpeg".to_owned(),
        },
    );
    assert_eq!(
        line,
        "(1234/21692) JPEG Image \u{2014} accepted: fix: (application/octet-stream -> image/jpeg)"
    );
}

fn zero_stats() -> TridBuildStats {
    TridBuildStats::zero()
}

#[test]
fn phase_finish_detects_parse_completion() {
    let update = TridBuildProgress {
        stage: TridBuildStage::ParseDefinitions,
        message: "Parsed 100 definitions in 3.2s".to_owned(),
        current: 100,
        total: Some(100),
        current_item: None,
        stats: zero_stats(),
        trace_detail: None,
    };
    assert_eq!(phase_finish_summary(&update), Some("Parsed 100 definitions in 3.2s"));
}

#[test]
fn reduce_milestone_progress_has_no_phase_finish() {
    let update = TridBuildProgress {
        stage: TridBuildStage::ReduceDefinitions,
        message: String::new(),
        current: 1000,
        total: Some(21692),
        current_item: Some("Sample Format".to_owned()),
        stats: zero_stats(),
        trace_detail: Some(ReduceTraceDetail::Accepted),
    };
    assert!(phase_finish_summary(&update).is_none());
}

#[test]
fn reduce_decisions_are_counted() {
    let mut report = TridTransformReport::new(4);
    let mut survivors: Vec<u32> = Vec::new();
    let decisions = vec![
        ReduceDecision { survivor: None, file_type: "A".to_owned(), trace: ReduceTraceDetail::RejectedNoPatterns },
        ReduceDecision { survivor: Some(7u32), file_type: "B".to_owned(), trace: ReduceTraceDetail::Accepted },
        ReduceDecision { survivor: Some(8u32), file_type: "C".to_owned(), trace: ReduceTraceDetail::AcceptedMimeFix { from: "x".to_owned(), to: "y".to_owned() } },
        ReduceDecision { survivor: None, file_type: "D".to_owned(), trace: ReduceTraceDetail::RejectedInvalidMime { raw_mime: "z".to_owned() } },
    ];
    let mut last = None;
    for (index, decision) in decisions.into_iter().enumerate() {
        last = Some(apply_reduce_decision(decision, index + 1, 4, &mut report, &mut survivors));
    }
    assert_eq!(survivors, vec![7, 8]);
    assert_eq!(report.signature_rejected, 1);
    assert_eq!(report.mime_corrected, 1);
    assert_eq!(report.mime_rejected, 1);
    let last = last.unwrap();
    assert_eq!(last.current, 4);
    assert_eq!(last.stats.accepted_count, 2);
    assert_eq!(last.current_item.as_deref(), Some("D"));
}

#[test]
fn final_trim_keeps_the_package_size() {
    let mut survivors: Vec<u32> = (0..5600).collect();
    let mut report = TridTransformReport::new(6000);
    trim_survivors(&mut survivors, &mut report);
    assert_eq!(survivors.len(), 5500);
    assert_eq!(report.final_trimmed, 100);
    assert_eq!(report.final_kept, 5500);
    let mut few: Vec<u32> = vec![1, 2];
    let mut report = TridTransformReport::new(2);
    trim_survivors(&mut few, &mut report);
    assert_eq!(report.final_kept, 2);
    assert_eq!(report.final_trimmed, 0);
}

#[test]
fn parse_progress_and_phase_steps() {
    assert!(should_report_parse_progress(1, 900));
    assert!(should_report_parse_progress(500, 900));
    assert!(should_report_parse_progress(900, 900));
    assert!(!should_report_parse_progress(501, 900));
    let update = TridBuildProgress {
        stage: TridBuildStage::ReduceDefinitions,
        message: "kept 3 of 9".to_owned(),
        current: 9,
        total: Some(9),
        current_item: None,
        stats: zero_stats(),
        trace_detail: None,
    };
    let step = phase_step(Some(TridBuildStage::ParseDefinitions), &update);
    assert!(step.starts_phase);
    assert!(step.finishes);
    assert_eq!(step.last_stage, Some(TridBuildStage::ReduceDefinitions));
}

#[test]
fn reports_print_padded_fields() {
    let report = TridTransformReport::new(3);
    let built = build_report("in", "out", "log", &report);
    assert_eq!(built.fields.len(), 10);
    let lines = print_report(&built);
    assert_eq!(lines[0], "Build Complete");
    assert_eq!(lines[1], format!("{:<20} {}", "Input", "in"));
    let differing = verify_report("l", "r", false, "log");
    assert_eq!(differing.exit_code, 1);
    assert_eq!(differing.status, ReportStatus::Warning);
}

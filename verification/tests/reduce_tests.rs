use dhara_tool::trid::{
    evaluate_definition, should_refresh_console, write_console_progress, ConsoleProgress,
    ReduceTraceDetail, TridBuildProgress, TridBuildStage, TridBuildStats,
};

fn update(stage: TridBuildStage, message: &str, current: usize, total: Option<usize>) -> TridBuildProgress {
    TridBuildProgress {
        stage,
        message: message.to_owned(),
        current,
        total,
        current_item: None,
        stats: TridBuildStats::zero(),
        trace_detail: None,
    }
}

#[test]
fn console_progress_lines() {
    assert!(write_console_progress(&update(TridBuildStage::LoadSource, "loading", 0, None), None).is_none());
    assert!(matches!(
        write_console_progress(&update(TridBuildStage::ExtractArchive, "extracting", 0, None), None),
        Some(ConsoleProgress::Message(m)) if m == "extract: extracting"
    ));
    assert!(write_console_progress(&update(TridBuildStage::ParseDefinitions, "x", 3, Some(0)), None).is_none());
    assert!(matches!(
        write_console_progress(&update(TridBuildStage::ParseDefinitions, "", 10, Some(10)), Some(5)),
        Some(ConsoleProgress::Counter(l, true)) if l == "parse: 10/10"
    ));
    assert!(write_console_progress(&update(TridBuildStage::ReduceDefinitions, "", 4, Some(10)), Some(100)).is_none());
    assert!(matches!(
        write_console_progress(&update(TridBuildStage::ReduceDefinitions, "", 4, Some(10)), Some(250)),
        Some(ConsoleProgress::Counter(l, false)) if l == "reduce: 4/10"
    ));
    assert!(should_refresh_console(0, 10, Some(1)));
    assert!(should_refresh_console(5, 10, None));
    assert!(!should_refresh_console(5, 10, Some(249)));
}

#[test]
fn definitions_are_judged_in_order() {
    let d = evaluate_definition("A".to_owned(), 0, Some(1), "text/plain", Some("text/plain".to_owned()));
    assert!(matches!(d.trace, ReduceTraceDetail::RejectedNoPatterns) && d.survivor.is_none());
    let d = evaluate_definition("B".to_owned(), 2, None, "text/plain", Some("text/plain".to_owned()));
    assert!(matches!(d.trace, ReduceTraceDetail::RejectedExtensionFloodgate) && d.survivor.is_none());
    let d = evaluate_definition("C".to_owned(), 2, Some(1), "bogus", None);
    assert!(matches!(d.trace, ReduceTraceDetail::RejectedInvalidMime { raw_mime } if raw_mime == "bogus"));
    let d = evaluate_definition("D".to_owned(), 2, Some(3), " Text/Plain ", Some("text/plain".to_owned()));
    assert!(matches!(d.trace, ReduceTraceDetail::Accepted));
    let s = d.survivor.unwrap();
    assert_eq!((s.level, s.canonical_mime.as_str()), (3, "text/plain"));
    let d = evaluate_definition("E".to_owned(), 2, Some(1), "image/jpg", Some("image/jpeg".to_owned()));
    assert!(matches!(d.trace, ReduceTraceDetail::AcceptedMimeFix { from, to } if from == "image/jpg" && to == "image/jpeg"));
    assert_eq!(d.file_type, "E");
}

//! The bookkeeping of the TrID XML reduction: the stages and progress
//! updates of a build, the counters of the reduce pass, the final trim to the
//! package's size, and the trace and phase lines the audit log shows.

use vstd::prelude::*;
use crate::text::{
    chars_of, string_from, copy_str, push_str, push_decimal, decimal, starts_with, starts_with_chars,
    trim, trim_chars, to_ascii_lower, lower_chars, chars_eq,
};

verus! {

/// The most definitions a reduced package keeps.
pub const TARGET_DEFINITION_COUNT: usize = 5500;

/// The validated-tags value a reduced package carries.
pub const VALIDATED_TAGS: u32 = 48;

/// At most this many definitions are reduced one after another; more are
/// reduced in parallel.
pub const PARALLEL_REDUCE_THRESHOLD: usize = 8;

/// Progress stages emitted while transforming TrID XML into a reduced package.
#[derive(Debug, Clone, Copy, PartialEq, Eq, Hash, Structural)]
pub enum TridBuildStage {
    /// Reading the source path and deciding how to load it.
    LoadSource,
    /// Extracting a `.7z` archive into a temporary directory.
    ExtractArchive,
    /// Parsing XML definitions from the source.
    ParseDefinitions,
    /// Validating and correcting MIME types and extension eligibility.
    ReduceDefinitions,
    /// Ordering and trimming the reduced definition set.
    FinalizePackage,
}

/// The outcome of reducing one definition.
#[derive(Debug, Clone)]
pub enum ReduceTraceDetail {
    RejectedNoPatterns,
    RejectedExtensionFloodgate,
    RejectedInvalidMime { raw_mime: String },
    Accepted,
    AcceptedMimeFix { from: String, to: String },
}

/// Live counters exposed during a build.
#[derive(Debug, Clone, Copy, PartialEq, Eq, Structural)]
pub struct TridBuildStats {
    pub parsed_count: usize,
    pub accepted_count: usize,
    pub mime_corrected: usize,
    pub mime_rejected: usize,
    pub extension_rejected: usize,
    pub signature_rejected: usize,
    pub final_trimmed: usize,
}

impl TridBuildStats {
    /// All counters at zero.
    pub fn zero() -> (r: TridBuildStats)
        ensures
            r == (TridBuildStats { parsed_count: 0, accepted_count: 0, mime_corrected: 0,
                mime_rejected: 0, extension_rejected: 0, signature_rejected: 0, final_trimmed: 0 }),
    {
        TridBuildStats {
            parsed_count: 0,
            accepted_count: 0,
            mime_corrected: 0,
            mime_rejected: 0,
            extension_rejected: 0,
            signature_rejected: 0,
            final_trimmed: 0,
        }
    }
}

/// Diagnostics of a transformation.
#[derive(Debug, Clone, Copy, PartialEq, Eq, Structural)]
pub struct TridTransformReport {
    pub total_parsed: usize,
    pub mime_corrected: usize,
    pub mime_rejected: usize,
    pub extension_rejected: usize,
    pub signature_rejected: usize,
    pub final_trimmed: usize,
    pub final_kept: usize,
}

impl TridTransformReport {
    /// A report of `total_parsed` definitions with nothing counted yet.
    pub fn new(total_parsed: usize) -> (r: TridTransformReport)
        ensures
            r == (TridTransformReport { total_parsed, mime_corrected: 0, mime_rejected: 0,
                extension_rejected: 0, signature_rejected: 0, final_trimmed: 0, final_kept: 0 }),
    {
        TridTransformReport {
            total_parsed,
            mime_corrected: 0,
            mime_rejected: 0,
            extension_rejected: 0,
            signature_rejected: 0,
            final_trimmed: 0,
            final_kept: 0,
        }
    }
}

/// A progress update of a build.
#[derive(Debug, Clone)]
pub struct TridBuildProgress {
    pub stage: TridBuildStage,
    pub message: String,
    pub current: usize,
    pub total: Option<usize>,
    pub current_item: Option<String>,
    pub stats: TridBuildStats,
    pub trace_detail: Option<ReduceTraceDetail>,
}

/// The reduce outcome of one definition: the candidate that survives, if
/// any, the definition's file type and what happened to it.
pub struct ReduceDecision<T> {
    pub survivor: Option<T>,
    pub file_type: String,
    pub trace: ReduceTraceDetail,
}

/// A definition that survives the reduce pass: the extension level the seeds
/// gave it and its canonical MIME type.
#[derive(Debug, Clone)]
pub struct AcceptedDefinition {
    pub level: u32,
    pub canonical_mime: String,
}

/// How the reduce pass judges a definition, given what the extension seeds
/// and the MIME catalog say of it: without patterns it is rejected; with no
/// seeded extension level it falls to the floodgate; a MIME type the catalog
/// cannot place rejects it; otherwise it survives, as a MIME fix when its
/// trimmed, lower-cased MIME type differs from the canonical one.
pub open spec fn judged(has_patterns: bool, level: Option<u32>, raw_mime: Seq<char>, canonical: Option<Seq<char>>) -> ReduceTraceView {
    if !has_patterns {
        ReduceTraceView::RejectedNoPatterns
    } else if level is None {
        ReduceTraceView::RejectedExtensionFloodgate
    } else {
        match canonical {
            None => ReduceTraceView::RejectedInvalidMime(raw_mime),
            Some(c) => if to_ascii_lower(trim(raw_mime)) != c {
                ReduceTraceView::AcceptedMimeFix(raw_mime, c)
            } else {
                ReduceTraceView::Accepted
            },
        }
    }
}

/// The view of a reduce outcome.
pub ghost enum ReduceTraceView {
    RejectedNoPatterns,
    RejectedExtensionFloodgate,
    RejectedInvalidMime(Seq<char>),
    Accepted,
    AcceptedMimeFix(Seq<char>, Seq<char>),
}

/// The view of a reduce outcome.
pub open spec fn trace_view(t: ReduceTraceDetail) -> ReduceTraceView {
    match t {
        ReduceTraceDetail::RejectedNoPatterns => ReduceTraceView::RejectedNoPatterns,
        ReduceTraceDetail::RejectedExtensionFloodgate => ReduceTraceView::RejectedExtensionFloodgate,
        ReduceTraceDetail::RejectedInvalidMime { raw_mime } => ReduceTraceView::RejectedInvalidMime(raw_mime@),
        ReduceTraceDetail::Accepted => ReduceTraceView::Accepted,
        ReduceTraceDetail::AcceptedMimeFix { from, to } => ReduceTraceView::AcceptedMimeFix(from@, to@),
    }
}

/// Judges one definition (see `judged`); `level` is what the extension
/// seeds give its extensions and `canonical_mime` what the MIME catalog
/// makes of its MIME type. A survivor carries both.
pub fn evaluate_definition(
    file_type: String,
    pattern_count: usize,
    level: Option<u32>,
    raw_mime: &str,
    canonical_mime: Option<String>,
) -> (r: ReduceDecision<AcceptedDefinition>)
    ensures
        r.file_type == file_type,
        trace_view(r.trace) == judged(pattern_count > 0, level,
            raw_mime@, match canonical_mime { Some(c) => Some(c@), None => None }),
        accepts(r.trace) <==> r.survivor is Some,
        r.survivor matches Some(a) ==> level == Some(a.level),
        r.survivor matches Some(a) ==> (canonical_mime matches Some(c) && a.canonical_mime@ == c@),
{
    if pattern_count == 0 {
        return ReduceDecision { survivor: None, file_type, trace: ReduceTraceDetail::RejectedNoPatterns };
    }
    let lv = match level {
        None => {
            return ReduceDecision { survivor: None, file_type, trace: ReduceTraceDetail::RejectedExtensionFloodgate };
        },
        Some(l) => l,
    };
    let canonical = match canonical_mime {
        None => {
            return ReduceDecision {
                survivor: None,
                file_type,
                trace: ReduceTraceDetail::RejectedInvalidMime { raw_mime: copy_str(raw_mime) },
            };
        },
        Some(c) => c,
    };
    let normalized = lower_chars(trim_chars(chars_of(raw_mime).as_slice()).as_slice());
    let c = chars_of(canonical.as_str());
    let trace = if !chars_eq(normalized.as_slice(), c.as_slice()) {
        ReduceTraceDetail::AcceptedMimeFix { from: copy_str(raw_mime), to: copy_str(canonical.as_str()) }
    } else {
        ReduceTraceDetail::Accepted
    };
    ReduceDecision {
        survivor: Some(AcceptedDefinition { level: lv, canonical_mime: canonical }),
        file_type,
        trace,
    }
}

/// The counters after one more decision.
pub open spec fn counted(r: TridTransformReport, trace: ReduceTraceDetail) -> TridTransformReport {
    match trace {
        ReduceTraceDetail::RejectedNoPatterns => TridTransformReport { signature_rejected: (r.signature_rejected + 1) as usize, ..r },
        ReduceTraceDetail::RejectedExtensionFloodgate => TridTransformReport { extension_rejected: (r.extension_rejected + 1) as usize, ..r },
        ReduceTraceDetail::RejectedInvalidMime { .. } => TridTransformReport { mime_rejected: (r.mime_rejected + 1) as usize, ..r },
        ReduceTraceDetail::Accepted => r,
        ReduceTraceDetail::AcceptedMimeFix { .. } => TridTransformReport { mime_corrected: (r.mime_corrected + 1) as usize, ..r },
    }
}

/// Whether a decision keeps its candidate.
pub open spec fn accepts(trace: ReduceTraceDetail) -> bool {
    trace is Accepted || trace is AcceptedMimeFix
}

/// The counters that can still grow by one.
pub open spec fn room_for_one(r: TridTransformReport) -> bool {
    r.signature_rejected < usize::MAX && r.extension_rejected < usize::MAX
        && r.mime_rejected < usize::MAX && r.mime_corrected < usize::MAX
}

/// Counts one reduce decision, keeps its survivor, and returns the progress
/// update that reports it.
pub fn apply_reduce_decision<T>(decision: ReduceDecision<T>, current: usize, total: usize, report: &mut TridTransformReport, survivors: &mut Vec<T>) -> (r: TridBuildProgress)
    requires
        room_for_one(*old(report)),
    ensures
        *final(report) == counted(*old(report), decision.trace),
        accepts(decision.trace) && decision.survivor is Some ==> final(survivors)@ == old(survivors)@.push(decision.survivor->0),
        !(accepts(decision.trace) && decision.survivor is Some) ==> final(survivors)@ == old(survivors)@,
        r.stage == TridBuildStage::ReduceDefinitions,
        r.message@ == Seq::<char>::empty(),
        r.current == current,
        r.total == Some(total),
        r.current_item == Some(decision.file_type),
        r.stats == (TridBuildStats {
            parsed_count: total,
            accepted_count: final(survivors)@.len() as usize,
            mime_corrected: final(report).mime_corrected,
            mime_rejected: final(report).mime_rejected,
            extension_rejected: final(report).extension_rejected,
            signature_rejected: final(report).signature_rejected,
            final_trimmed: final(report).final_trimmed,
        }),
        r.trace_detail == Some(decision.trace),
{
    let ReduceDecision { survivor, file_type, trace } = decision;
    match &trace {
        ReduceTraceDetail::RejectedNoPatterns => {
            report.signature_rejected = report.signature_rejected + 1;
        },
        ReduceTraceDetail::RejectedExtensionFloodgate => {
            report.extension_rejected = report.extension_rejected + 1;
        },
        ReduceTraceDetail::RejectedInvalidMime { .. } => {
            report.mime_rejected = report.mime_rejected + 1;
        },
        ReduceTraceDetail::Accepted => {
            match survivor {
                Some(c) => survivors.push(c),
                None => {},
            }
        },
        ReduceTraceDetail::AcceptedMimeFix { .. } => {
            report.mime_corrected = report.mime_corrected + 1;
            match survivor {
                Some(c) => survivors.push(c),
                None => {},
            }
        },
    }
    TridBuildProgress {
        stage: TridBuildStage::ReduceDefinitions,
        message: String::new(),
        current,
        total: Some(total),
        current_item: Some(file_type),
        stats: TridBuildStats {
            parsed_count: total,
            accepted_count: survivors.len(),
            mime_corrected: report.mime_corrected,
            mime_rejected: report.mime_rejected,
            extension_rejected: report.extension_rejected,
            signature_rejected: report.signature_rejected,
            final_trimmed: report.final_trimmed,
        },
        trace_detail: Some(trace),
    }
}

/// The number of decisions among `traces` of each outcome: signature,
/// extension and MIME rejections, accepted with and without a MIME fix.
pub open spec fn tally(traces: Seq<ReduceTraceDetail>) -> (nat, nat, nat, nat, nat)
    decreases traces.len(),
{
    if traces.len() == 0 {
        (0, 0, 0, 0, 0)
    } else {
        let t = tally(traces.drop_last());
        match traces.last() {
            ReduceTraceDetail::RejectedNoPatterns => ((t.0 + 1) as nat, t.1, t.2, t.3, t.4),
            ReduceTraceDetail::RejectedExtensionFloodgate => (t.0, (t.1 + 1) as nat, t.2, t.3, t.4),
            ReduceTraceDetail::RejectedInvalidMime { .. } => (t.0, t.1, (t.2 + 1) as nat, t.3, t.4),
            ReduceTraceDetail::Accepted => (t.0, t.1, t.2, (t.3 + 1) as nat, t.4),
            ReduceTraceDetail::AcceptedMimeFix { .. } => (t.0, t.1, t.2, t.3, (t.4 + 1) as nat),
        }
    }
}

/// Every reduced definition is counted exactly once: the rejections of each
/// kind and the acceptances add up to the number of decisions.
pub proof fn lemma_tally_covers_all(traces: Seq<ReduceTraceDetail>)
    ensures
        tally(traces).0 + tally(traces).1 + tally(traces).2 + tally(traces).3 + tally(traces).4 == traces.len(),
    decreases traces.len(),
{
    if traces.len() > 0 {
        lemma_tally_covers_all(traces.drop_last());
    }
}

/// The counters of a report after the decisions `traces`, starting from `r`.
pub open spec fn counted_all(r: TridTransformReport, traces: Seq<ReduceTraceDetail>) -> TridTransformReport
    decreases traces.len(),
{
    if traces.len() == 0 {
        r
    } else {
        counted(counted_all(r, traces.drop_last()), traces.last())
    }
}

/// Counting the decisions one by one from a fresh report leaves each
/// rejection counter and the MIME-fix counter at the tally of its kind.
pub proof fn lemma_counted_all_is_tally(total: usize, traces: Seq<ReduceTraceDetail>)
    requires
        traces.len() < usize::MAX,
    ensures
        counted_all(TridTransformReport { total_parsed: total, mime_corrected: 0, mime_rejected: 0,
            extension_rejected: 0, signature_rejected: 0, final_trimmed: 0, final_kept: 0 }, traces)
            == (TridTransformReport { total_parsed: total, mime_corrected: tally(traces).4 as usize,
            mime_rejected: tally(traces).2 as usize, extension_rejected: tally(traces).1 as usize,
            signature_rejected: tally(traces).0 as usize, final_trimmed: 0, final_kept: 0 }),
    decreases traces.len(),
{
    if traces.len() > 0 {
        lemma_counted_all_is_tally(total, traces.drop_last());
        lemma_tally_covers_all(traces.drop_last());
    }
}

/// How many survivors the final trim removes, and how many it keeps.
pub open spec fn trimmed_counts(survivors: nat) -> (nat, nat) {
    if survivors > TARGET_DEFINITION_COUNT {
        ((survivors - TARGET_DEFINITION_COUNT) as nat, TARGET_DEFINITION_COUNT as nat)
    } else {
        (0, survivors)
    }
}

/// Cuts the ranked survivors down to the package's size and records the
/// trim in the report.
pub fn trim_survivors<T>(survivors: &mut Vec<T>, report: &mut TridTransformReport)
    ensures
        final(survivors)@ == old(survivors)@.take(trimmed_counts(old(survivors)@.len()).1 as int),
        final(report).final_trimmed == (if old(survivors)@.len() > TARGET_DEFINITION_COUNT {
            trimmed_counts(old(survivors)@.len()).0 as usize
        } else {
            old(report).final_trimmed
        }),
        final(report).final_kept == trimmed_counts(old(survivors)@.len()).1,
        final(report).total_parsed == old(report).total_parsed,
        final(report).mime_corrected == old(report).mime_corrected,
        final(report).mime_rejected == old(report).mime_rejected,
        final(report).extension_rejected == old(report).extension_rejected,
        final(report).signature_rejected == old(report).signature_rejected,
{
    if survivors.len() > TARGET_DEFINITION_COUNT {
        report.final_trimmed = survivors.len() - TARGET_DEFINITION_COUNT;
        survivors.truncate(TARGET_DEFINITION_COUNT);
    }
    report.final_kept = survivors.len();
    proof {
        if old(survivors)@.len() <= TARGET_DEFINITION_COUNT {
            assert(old(survivors)@.take(old(survivors)@.len() as int) =~= old(survivors)@);
        }
    }
}

/// Whether parsing progress is reported after `done` of `total` files: the
/// first, the last, and every 250th.
pub open spec fn parse_progress_due(done: nat, total: nat) -> bool {
    done == total || done == 1 || done % 250 == 0
}

/// Decides whether to report parsing progress.
pub fn should_report_parse_progress(done: usize, total: usize) -> (r: bool)
    ensures
        r == parse_progress_due(done as nat, total as nat),
{
    done == total || done == 1 || done % 250 == 0
}

/// The parsing progress update after `done` of `total` files.
pub fn parse_progress(done: usize, total: usize) -> (r: TridBuildProgress)
    ensures
        r.stage == TridBuildStage::ParseDefinitions,
        r.message@ == "Parsing XML definitions"@,
        r.current == done,
        r.total == Some(total),
        r.current_item is None,
        r.stats == (TridBuildStats { parsed_count: done, accepted_count: 0, mime_corrected: 0,
            mime_rejected: 0, extension_rejected: 0, signature_rejected: 0, final_trimmed: 0 }),
        r.trace_detail is None,
{
    let mut stats = TridBuildStats::zero();
    stats.parsed_count = done;
    TridBuildProgress {
        stage: TridBuildStage::ParseDefinitions,
        message: string_from(chars_of("Parsing XML definitions").as_slice()),
        current: done,
        total: Some(total),
        current_item: None,
        stats,
        trace_detail: None,
    }
}

/// The stats a report stands for once `accepted` definitions survive.
pub open spec fn report_stats(r: TridTransformReport, accepted: usize) -> TridBuildStats {
    TridBuildStats {
        parsed_count: r.total_parsed,
        accepted_count: accepted,
        mime_corrected: r.mime_corrected,
        mime_rejected: r.mime_rejected,
        extension_rejected: r.extension_rejected,
        signature_rejected: r.signature_rejected,
        final_trimmed: r.final_trimmed,
    }
}

/// The update that opens the reduce pass.
pub fn reduce_started(report: &TridTransformReport) -> (r: TridBuildProgress)
    ensures
        r.stage == TridBuildStage::ReduceDefinitions,
        r.message@ == "Reducing validated definitions"@,
        r.current == 0,
        r.total == Some(report.total_parsed),
        r.current_item is None,
        r.stats == (TridBuildStats { parsed_count: report.total_parsed, accepted_count: 0,
            mime_corrected: 0, mime_rejected: 0, extension_rejected: 0, signature_rejected: 0, final_trimmed: 0 }),
        r.trace_detail is None,
{
    let mut stats = TridBuildStats::zero();
    stats.parsed_count = report.total_parsed;
    TridBuildProgress {
        stage: TridBuildStage::ReduceDefinitions,
        message: string_from(chars_of("Reducing validated definitions").as_slice()),
        current: 0,
        total: Some(report.total_parsed),
        current_item: None,
        stats,
        trace_detail: None,
    }
}

/// The update that closes the reduce pass: `kept <n> of <total>`.
pub fn reduce_finished(report: &TridTransformReport, kept: usize) -> (r: TridBuildProgress)
    ensures
        r.stage == TridBuildStage::ReduceDefinitions,
        r.message@ == "kept "@ + decimal(kept as nat) + " of "@ + decimal(report.total_parsed as nat),
        r.current == report.total_parsed,
        r.total == Some(report.total_parsed),
        r.current_item is None,
        r.stats == report_stats(*report, kept),
        r.trace_detail is None,
{
    let mut m: Vec<char> = Vec::new();
    push_str(&mut m, "kept ");
    push_decimal(&mut m, kept as u64);
    push_str(&mut m, " of ");
    push_decimal(&mut m, report.total_parsed as u64);
    TridBuildProgress {
        stage: TridBuildStage::ReduceDefinitions,
        message: string_from(m.as_slice()),
        current: report.total_parsed,
        total: Some(report.total_parsed),
        current_item: None,
        stats: TridBuildStats {
            parsed_count: report.total_parsed,
            accepted_count: kept,
            mime_corrected: report.mime_corrected,
            mime_rejected: report.mime_rejected,
            extension_rejected: report.extension_rejected,
            signature_rejected: report.signature_rejected,
            final_trimmed: report.final_trimmed,
        },
        trace_detail: None,
    }
}

/// The update that opens the finalize pass.
pub fn finalize_started(report: &TridTransformReport, survivors: usize) -> (r: TridBuildProgress)
    ensures
        r.stage == TridBuildStage::FinalizePackage,
        r.message@ == Seq::<char>::empty(),
        r.current == 0,
        r.total == Some(survivors),
        r.current_item is None,
        r.stats == report_stats(*report, survivors),
        r.trace_detail is None,
{
    TridBuildProgress {
        stage: TridBuildStage::FinalizePackage,
        message: String::new(),
        current: 0,
        total: Some(survivors),
        current_item: None,
        stats: TridBuildStats {
            parsed_count: report.total_parsed,
            accepted_count: survivors,
            mime_corrected: report.mime_corrected,
            mime_rejected: report.mime_rejected,
            extension_rejected: report.extension_rejected,
            signature_rejected: report.signature_rejected,
            final_trimmed: report.final_trimmed,
        },
        trace_detail: None,
    }
}

/// The update that closes the finalize pass: `trimmed to <n> definitions`.
pub fn finalize_finished(report: &TridTransformReport) -> (r: TridBuildProgress)
    ensures
        r.stage == TridBuildStage::FinalizePackage,
        r.message@ == "trimmed to "@ + decimal(report.final_kept as nat) + " definitions"@,
        r.current == report.final_kept,
        r.total == Some(report.final_kept),
        r.current_item is None,
        r.stats == report_stats(*report, report.final_kept),
        r.trace_detail is None,
{
    let mut m: Vec<char> = Vec::new();
    push_str(&mut m, "trimmed to ");
    push_decimal(&mut m, report.final_kept as u64);
    push_str(&mut m, " definitions");
    TridBuildProgress {
        stage: TridBuildStage::FinalizePackage,
        message: string_from(m.as_slice()),
        current: report.final_kept,
        total: Some(report.final_kept),
        current_item: None,
        stats: TridBuildStats {
            parsed_count: report.total_parsed,
            accepted_count: report.final_kept,
            mime_corrected: report.mime_corrected,
            mime_rejected: report.mime_rejected,
            extension_rejected: report.extension_rejected,
            signature_rejected: report.signature_rejected,
            final_trimmed: report.final_trimmed,
        },
        trace_detail: None,
    }
}

/// The words that end a reduce trace line.
pub open spec fn trace_suffix(detail: ReduceTraceDetail) -> Seq<char> {
    match detail {
        ReduceTraceDetail::RejectedNoPatterns => "rejected: no patterns"@,
        ReduceTraceDetail::RejectedExtensionFloodgate => "rejected: extension floodgate"@,
        ReduceTraceDetail::RejectedInvalidMime { raw_mime } => "rejected: invalid MIME: "@ + raw_mime@,
        ReduceTraceDetail::Accepted => "accepted"@,
        ReduceTraceDetail::AcceptedMimeFix { from, to } => "accepted: fix: ("@ + from@ + " -> "@ + to@ + ")"@,
    }
}

/// The audit line of one reduce decision:
/// `(<current>/<total>) <file type> — <outcome>`.
pub open spec fn trace_line(current: nat, total: nat, file_type: Seq<char>, detail: ReduceTraceDetail) -> Seq<char> {
    "("@ + decimal(current) + "/"@ + decimal(total) + ") "@ + file_type + " \u{2014} "@ + trace_suffix(detail)
}

/// Writes the audit line of one reduce decision.
pub fn format_reduce_trace_line(current: usize, total: usize, file_type: &str, detail: &ReduceTraceDetail) -> (r: String)
    ensures
        r@ == trace_line(current as nat, total as nat, file_type@, *detail),
{
    let mut out: Vec<char> = Vec::new();
    push_str(&mut out, "(");
    push_decimal(&mut out, current as u64);
    push_str(&mut out, "/");
    push_decimal(&mut out, total as u64);
    push_str(&mut out, ") ");
    push_str(&mut out, file_type);
    push_str(&mut out, " \u{2014} ");
    match detail {
        ReduceTraceDetail::RejectedNoPatterns => push_str(&mut out, "rejected: no patterns"),
        ReduceTraceDetail::RejectedExtensionFloodgate => push_str(&mut out, "rejected: extension floodgate"),
        ReduceTraceDetail::RejectedInvalidMime { raw_mime } => {
            push_str(&mut out, "rejected: invalid MIME: ");
            push_str(&mut out, raw_mime.as_str());
        },
        ReduceTraceDetail::Accepted => push_str(&mut out, "accepted"),
        ReduceTraceDetail::AcceptedMimeFix { from, to } => {
            push_str(&mut out, "accepted: fix: (");
            push_str(&mut out, from.as_str());
            push_str(&mut out, " -> ");
            push_str(&mut out, to.as_str());
            push_str(&mut out, ")");
        },
    }
    assert(out@ =~= trace_line(current as nat, total as nat, file_type@, *detail));
    string_from(out.as_slice())
}

/// The message with which a stage's update reports that the stage is done,
/// if it is such an update.
pub open spec fn finish_summary(stage: TridBuildStage, message: Seq<char>) -> Option<Seq<char>> {
    match stage {
        TridBuildStage::ExtractArchive => if starts_with(message, "extracted"@) { Some(message) } else { None },
        TridBuildStage::ParseDefinitions => if starts_with(message, "Parsed "@) { Some(message) } else { None },
        TridBuildStage::ReduceDefinitions => if starts_with(message, "kept "@) { Some(message) } else { None },
        TridBuildStage::FinalizePackage => if starts_with(message, "trimmed "@) { Some(message) } else { None },
        TridBuildStage::LoadSource => None,
    }
}

fn message_starts(message: &str, prefix: &str) -> (r: bool)
    ensures
        r == starts_with(message@, prefix@),
{
    let m = chars_of(message);
    let p = chars_of(prefix);
    starts_with_chars(m.as_slice(), p.as_slice())
}

/// The summary of a stage-finishing update, if it is one.
pub fn phase_finish_summary(update: &TridBuildProgress) -> (r: Option<&str>)
    ensures
        match finish_summary(update.stage, update.message@) {
            Some(m) => r matches Some(s) && s@ == m,
            None => r is None,
        },
{
    let m = update.message.as_str();
    let done = match update.stage {
        TridBuildStage::ExtractArchive => message_starts(m, "extracted"),
        TridBuildStage::ParseDefinitions => message_starts(m, "Parsed "),
        TridBuildStage::ReduceDefinitions => message_starts(m, "kept "),
        TridBuildStage::FinalizePackage => message_starts(m, "trimmed "),
        TridBuildStage::LoadSource => false,
    };
    if done {
        Some(m)
    } else {
        None
    }
}

/// The name the audit log gives a stage.
pub fn phase_name(stage: TridBuildStage) -> (r: &'static str)
    ensures
        stage == TridBuildStage::LoadSource ==> r@ == "load"@,
        stage == TridBuildStage::ExtractArchive ==> r@ == "extract"@,
        stage == TridBuildStage::ParseDefinitions ==> r@ == "parse"@,
        stage == TridBuildStage::ReduceDefinitions ==> r@ == "reduce"@,
        stage == TridBuildStage::FinalizePackage ==> r@ == "finalize"@,
{
    match stage {
        TridBuildStage::LoadSource => "load",
        TridBuildStage::ExtractArchive => "extract",
        TridBuildStage::ParseDefinitions => "parse",
        TridBuildStage::ReduceDefinitions => "reduce",
        TridBuildStage::FinalizePackage => "finalize",
    }
}

/// The label of a stage on the console; loading shows none.
pub fn console_stage_label(stage: TridBuildStage) -> (r: Option<&'static str>)
    ensures
        stage == TridBuildStage::LoadSource ==> r is None,
        stage == TridBuildStage::ExtractArchive ==> (r matches Some(l) && l@ == "extract"@),
        stage == TridBuildStage::ParseDefinitions ==> (r matches Some(l) && l@ == "parse"@),
        stage == TridBuildStage::ReduceDefinitions ==> (r matches Some(l) && l@ == "reduce"@),
        stage == TridBuildStage::FinalizePackage ==> (r matches Some(l) && l@ == "finalize"@),
{
    match stage {
        TridBuildStage::LoadSource => None,
        TridBuildStage::ExtractArchive => Some("extract"),
        TridBuildStage::ParseDefinitions => Some("parse"),
        TridBuildStage::ReduceDefinitions => Some("reduce"),
        TridBuildStage::FinalizePackage => Some("finalize"),
    }
}

/// The console label of a stage; loading has none.
pub open spec fn stage_label(stage: TridBuildStage) -> Option<Seq<char>> {
    match stage {
        TridBuildStage::LoadSource => None,
        TridBuildStage::ExtractArchive => Some("extract"@),
        TridBuildStage::ParseDefinitions => Some("parse"@),
        TridBuildStage::ReduceDefinitions => Some("reduce"@),
        TridBuildStage::FinalizePackage => Some("finalize"@),
    }
}

/// A counter line is redrawn at its first and last count, and in between at
/// most every 250 ms (`since_last_ms` is the time since the last redraw,
/// `None` before the first).
pub open spec fn refresh_due(current: nat, total: nat, since_last_ms: Option<u64>) -> bool {
    current == 0 || current >= total || match since_last_ms {
        None => true,
        Some(ms) => ms >= 250,
    }
}

/// Whether the console counter is redrawn now.
pub fn should_refresh_console(current: usize, total: usize, since_last_ms: Option<u64>) -> (r: bool)
    ensures
        r == refresh_due(current as nat, total as nat, since_last_ms),
{
    if current == 0 || current >= total {
        return true;
    }
    match since_last_ms {
        None => true,
        Some(ms) => ms >= 250,
    }
}

/// What the console shows of an update.
#[derive(Debug, Clone)]
pub enum ConsoleProgress {
    /// A line of its own: the stage label and the message.
    Message(String),
    /// The counter line `label: current/total`, and whether the count is
    /// complete (the line is then ended).
    Counter(String, bool),
}

/// The console line of an update: none for loading; a message line for an
/// update without a positive total and with no count; the counter line for
/// an update with a positive total when it is due (see `refresh_due`);
/// nothing otherwise.
pub open spec fn console_line(u: TridBuildProgress, since_last_ms: Option<u64>) -> Option<(Seq<char>, Option<bool>)> {
    match stage_label(u.stage) {
        None => None,
        Some(l) => match u.total {
            Some(t) if t > 0 => if refresh_due(u.current as nat, t as nat, since_last_ms) {
                Some((l + ": "@ + decimal(u.current as nat) + "/"@ + decimal(t as nat), Some(u.current >= t)))
            } else {
                None
            },
            _ => if u.current == 0 {
                Some((l + ": "@ + u.message@, None))
            } else {
                None
            },
        },
    }
}

/// What the console shows of an update (see `console_line`).
pub fn write_console_progress(update: &TridBuildProgress, since_last_ms: Option<u64>) -> (r: Option<ConsoleProgress>)
    ensures
        match console_line(*update, since_last_ms) {
            None => r is None,
            Some((t, None)) => r matches Some(ConsoleProgress::Message(m)) && m@ == t,
            Some((t, Some(done))) => r matches Some(ConsoleProgress::Counter(c, d)) && c@ == t && d == done,
        },
{
    let label = match console_stage_label(update.stage) {
        None => {
            return None;
        },
        Some(l) => l,
    };
    let total: usize = match update.total {
        Some(t) => t,
        None => 0,
    };
    if total == 0 {
        if update.current == 0 {
            let mut out = chars_of(label);
            push_str(&mut out, ": ");
            push_str(&mut out, update.message.as_str());
            return Some(ConsoleProgress::Message(string_from(out.as_slice())));
        }
        return None;
    }
    if !should_refresh_console(update.current, total, since_last_ms) {
        return None;
    }
    let mut out = chars_of(label);
    push_str(&mut out, ": ");
    push_decimal(&mut out, update.current as u64);
    push_str(&mut out, "/");
    push_decimal(&mut out, total as u64);
    Some(ConsoleProgress::Counter(string_from(out.as_slice()), update.current >= total))
}

/// What the phase timer does with an update, given the stage of the update
/// before it.
pub struct PhaseStep {
    /// The stage to remember for the next update.
    pub last_stage: Option<TridBuildStage>,
    /// The update starts (or restarts) the timing of its stage.
    pub starts_phase: bool,
    /// The update finishes its stage with this summary.
    pub finishes: bool,
}

/// Decides how an update moves the phase timer: loading updates are
/// ignored; an update starts its stage's timing when the stage changed or its
/// count is zero; it finishes the stage when it is a finishing update.
pub fn phase_step(last_stage: Option<TridBuildStage>, update: &TridBuildProgress) -> (r: PhaseStep)
    ensures
        update.stage == TridBuildStage::LoadSource ==> r.last_stage == last_stage && !r.starts_phase && !r.finishes,
        update.stage != TridBuildStage::LoadSource ==> {
            &&& r.last_stage == Some(update.stage)
            &&& r.starts_phase == (last_stage != Some(update.stage) || update.current == 0)
            &&& r.finishes == finish_summary(update.stage, update.message@) is Some
        },
{
    if update.stage == TridBuildStage::LoadSource {
        return PhaseStep { last_stage, starts_phase: false, finishes: false };
    }
    let changed = match last_stage {
        Some(s) => s != update.stage,
        None => true,
    };
    let finishes = phase_finish_summary(update).is_some();
    PhaseStep { last_stage: Some(update.stage), starts_phase: changed || update.current == 0, finishes }
}

/// Whether a reduce update earns a trace line: tracing is on, the update is
/// a reduce decision, and its total is known and positive.
pub open spec fn trace_due(trace: bool, stage: TridBuildStage, has_detail: bool, total: Option<usize>) -> bool {
    trace && stage == TridBuildStage::ReduceDefinitions && has_detail && (total matches Some(t) && t > 0)
}

/// The trace line an update earns, if any; an update without a file type
/// is shown as `unknown`.
pub fn reduce_trace_line(trace: bool, update: &TridBuildProgress) -> (r: Option<String>)
    ensures
        !trace_due(trace, update.stage, update.trace_detail is Some, update.total) ==> r is None,
        trace_due(trace, update.stage, update.trace_detail is Some, update.total) ==> (r matches Some(l)
            && l@ == trace_line(update.current as nat, update.total->0 as nat,
                match update.current_item { Some(i) => i@, None => "unknown"@ }, update.trace_detail->0)),
{
    if !trace || update.stage != TridBuildStage::ReduceDefinitions {
        return None;
    }
    match &update.trace_detail {
        None => None,
        Some(detail) => match update.total {
            Some(total) => {
                if total == 0 {
                    return None;
                }
                let file_type: &str = match &update.current_item {
                    Some(i) => i.as_str(),
                    None => "unknown",
                };
                Some(format_reduce_trace_line(update.current, total, file_type, detail))
            },
            None => None,
        },
    }
}

/// An elapsed time as the phase lines show it: milliseconds below a second.
/// From a second up the text is the floating-point seconds with one decimal;
/// that case is `None` here.
pub open spec fn elapsed_text(secs: nat, nanos: nat) -> Option<Seq<char>> {
    if secs >= 1 {
        None
    } else {
        Some(decimal(nanos / 1_000_000) + "ms"@)
    }
}

/// Writes an elapsed time below a second; from a second up the text is the
/// floating-point seconds with one decimal and `None` is returned.
pub fn format_elapsed(secs: u64, subsec_nanos: u32) -> (r: Option<String>)
    requires
        subsec_nanos < 1_000_000_000,
    ensures
        match elapsed_text(secs as nat, subsec_nanos as nat) {
            Some(t) => r matches Some(x) && x@ == t,
            None => r is None,
        },
{
    if secs >= 1 {
        return None;
    }
    let mut out: Vec<char> = Vec::new();
    push_decimal(&mut out, (subsec_nanos / 1_000_000) as u64);
    push_str(&mut out, "ms");
    Some(string_from(out.as_slice()))
}

} // verus!

//! The definitions-package actions and the reports they end with: which
//! action runs long, the title and fields of each report, and how a report
//! prints.

use vstd::prelude::*;
use crate::text::{chars_of, string_from, push_str, push_all, push_decimal, decimal};
use crate::trid::TridTransformReport;

verus! {

/// An action on definitions packages, with its paths.
#[derive(Debug, Clone)]
pub enum BuilderAction {
    Pack { output: String },
    BuildTridXml { input: String, output: String },
    Inspect { input: String },
    InspectTridXml { input: String },
    Normalize { input: String, output: String },
    Verify { left: String, right: String },
    SyncEmbedded { input: String, output: String, check: bool },
}

/// The title of the report an action ends with.
pub open spec fn action_title(a: BuilderAction) -> Seq<char> {
    match a {
        BuilderAction::Pack { .. } => "Bundled Package"@,
        BuilderAction::BuildTridXml { .. } => "Build Complete"@,
        BuilderAction::Inspect { .. } => "Package Summary"@,
        BuilderAction::InspectTridXml { .. } => "Transformation Preview"@,
        BuilderAction::Normalize { .. } => "Normalized Package"@,
        BuilderAction::Verify { .. } => "Verification"@,
        BuilderAction::SyncEmbedded { .. } => "Embedded Package Sync"@,
    }
}

impl BuilderAction {
    /// The title of the action's report.
    pub fn title(&self) -> (r: &'static str)
        ensures
            r@ == action_title(*self),
    {
        match self {
            BuilderAction::Pack { .. } => "Bundled Package",
            BuilderAction::BuildTridXml { .. } => "Build Complete",
            BuilderAction::Inspect { .. } => "Package Summary",
            BuilderAction::InspectTridXml { .. } => "Transformation Preview",
            BuilderAction::Normalize { .. } => "Normalized Package",
            BuilderAction::Verify { .. } => "Verification",
            BuilderAction::SyncEmbedded { .. } => "Embedded Package Sync",
        }
    }

    /// The actions that transform TrID XML run long.
    pub fn is_long_running(&self) -> (r: bool)
        ensures
            r == (self is BuildTridXml || self is InspectTridXml || self is SyncEmbedded),
    {
        match self {
            BuilderAction::BuildTridXml { .. } => true,
            BuilderAction::InspectTridXml { .. } => true,
            BuilderAction::SyncEmbedded { .. } => true,
            _ => false,
        }
    }
}

/// Whether a report is a plain success or a warning.
#[derive(Debug, Clone, Copy, PartialEq, Eq, Structural)]
pub enum ReportStatus {
    Success,
    Warning,
}

/// One labelled value of a report.
#[derive(Debug, Clone)]
pub struct ReportField {
    pub label: String,
    pub value: String,
}

/// The report an action ends with.
#[derive(Debug, Clone)]
pub struct CommandReport {
    pub title: String,
    pub status: ReportStatus,
    pub fields: Vec<ReportField>,
    pub exit_code: i32,
}

/// The view of a report field.
pub open spec fn field_pair(f: ReportField) -> (Seq<char>, Seq<char>) {
    (f.label@, f.value@)
}

/// The views of a report's fields.
pub open spec fn field_pairs(v: Seq<ReportField>) -> Seq<(Seq<char>, Seq<char>)> {
    v.map_values(|f: ReportField| field_pair(f))
}

impl ReportField {
    pub fn label(&self) -> (r: &str)
        ensures
            r@ == self.label@,
    {
        self.label.as_str()
    }

    pub fn value(&self) -> (r: &str)
        ensures
            r@ == self.value@,
    {
        self.value.as_str()
    }
}

impl CommandReport {
    pub fn title(&self) -> (r: &str)
        ensures
            r@ == self.title@,
    {
        self.title.as_str()
    }

    pub fn status(&self) -> (r: ReportStatus)
        ensures
            r == self.status,
    {
        self.status
    }

    pub fn fields(&self) -> (r: &Vec<ReportField>)
        ensures
            r@ == self.fields@,
    {
        &self.fields
    }

    pub fn exit_code(&self) -> (r: i32)
        ensures
            r == self.exit_code,
    {
        self.exit_code
    }
}

/// A report field.
pub fn field(label: &str, value: &str) -> (r: ReportField)
    ensures
        r.label@ == label@,
        r.value@ == value@,
{
    ReportField { label: string_from(chars_of(label).as_slice()), value: string_from(chars_of(value).as_slice()) }
}

fn number_field(label: &str, value: usize) -> (r: ReportField)
    ensures
        r.label@ == label@,
        r.value@ == decimal(value as nat),
{
    let mut v: Vec<char> = Vec::new();
    push_decimal(&mut v, value as u64);
    ReportField { label: string_from(chars_of(label).as_slice()), value: string_from(v.as_slice()) }
}

/// The fields that describe a transformation.
pub open spec fn transform_fields(r: TridTransformReport) -> Seq<(Seq<char>, Seq<char>)> {
    seq![
        ("Total Parsed"@, decimal(r.total_parsed as nat)),
        ("MIME Corrected"@, decimal(r.mime_corrected as nat)),
        ("MIME Rejected"@, decimal(r.mime_rejected as nat)),
        ("Extension Rejected"@, decimal(r.extension_rejected as nat)),
        ("Signature Rejected"@, decimal(r.signature_rejected as nat)),
        ("Final Trimmed"@, decimal(r.final_trimmed as nat)),
        ("Final Kept"@, decimal(r.final_kept as nat)),
    ]
}

/// Appends the transformation counters to a report's fields.
pub fn extend_transform_report_fields(fields: &mut Vec<ReportField>, report: &TridTransformReport)
    ensures
        field_pairs(final(fields)@) == field_pairs(old(fields)@) + transform_fields(*report),
{
    fields.push(number_field("Total Parsed", report.total_parsed));
    fields.push(number_field("MIME Corrected", report.mime_corrected));
    fields.push(number_field("MIME Rejected", report.mime_rejected));
    fields.push(number_field("Extension Rejected", report.extension_rejected));
    fields.push(number_field("Signature Rejected", report.signature_rejected));
    fields.push(number_field("Final Trimmed", report.final_trimmed));
    fields.push(number_field("Final Kept", report.final_kept));
    assert(field_pairs(fields@) =~= field_pairs(old(fields)@) + transform_fields(*report));
}

/// The view of a report: title, status, fields and exit code.
pub open spec fn report_view(r: CommandReport) -> (Seq<char>, ReportStatus, Seq<(Seq<char>, Seq<char>)>, i32) {
    (r.title@, r.status, field_pairs(r.fields@), r.exit_code)
}

/// The report of writing the bundled package.
pub fn pack_report(written: &str, log_path: &str) -> (r: CommandReport)
    ensures
        report_view(r) == ("Bundled Package"@, ReportStatus::Success,
            seq![("Output"@, written@), ("Log"@, log_path@)], 0i32),
{
    let mut fields: Vec<ReportField> = Vec::new();
    fields.push(field("Output", written));
    fields.push(field("Log", log_path));
    let r = CommandReport { title: string_from(chars_of("Bundled Package").as_slice()), status: ReportStatus::Success, fields, exit_code: 0 };
    assert(field_pairs(r.fields@) =~= seq![("Output"@, written@), ("Log"@, log_path@)]);
    r
}

/// The report of building a package from TrID XML.
pub fn build_report(input: &str, written: &str, log_path: &str, report: &TridTransformReport) -> (r: CommandReport)
    ensures
        report_view(r) == ("Build Complete"@, ReportStatus::Success,
            seq![("Input"@, input@), ("Output"@, written@), ("Log"@, log_path@)] + transform_fields(*report), 0i32),
{
    let mut fields: Vec<ReportField> = Vec::new();
    fields.push(field("Input", input));
    fields.push(field("Output", written));
    fields.push(field("Log", log_path));
    assert(field_pairs(fields@) =~= seq![("Input"@, input@), ("Output"@, written@), ("Log"@, log_path@)]);
    extend_transform_report_fields(&mut fields, report);
    CommandReport { title: string_from(chars_of("Build Complete").as_slice()), status: ReportStatus::Success, fields, exit_code: 0 }
}

/// The report of previewing a transformation.
pub fn preview_report(log_path: &str, report: &TridTransformReport) -> (r: CommandReport)
    ensures
        report_view(r) == ("Transformation Preview"@, ReportStatus::Success,
            seq![("Log"@, log_path@)] + transform_fields(*report), 0i32),
{
    let mut fields: Vec<ReportField> = Vec::new();
    fields.push(field("Log", log_path));
    assert(field_pairs(fields@) =~= seq![("Log"@, log_path@)]);
    extend_transform_report_fields(&mut fields, report);
    CommandReport { title: string_from(chars_of("Transformation Preview").as_slice()), status: ReportStatus::Success, fields, exit_code: 0 }
}

/// The summary of an encoded package.
#[derive(Debug, Clone)]
pub struct PackageSummary {
    pub signature: String,
    pub package_id: String,
    pub package_version: String,
    pub definitions_release: String,
    pub package_revision: u64,
    pub tags: u64,
    pub definition_count: u64,
}

/// The report of inspecting a package.
pub fn inspect_report(summary: &PackageSummary, log_path: &str) -> (r: CommandReport)
    ensures
        report_view(r) == ("Package Summary"@, ReportStatus::Success, seq![
            ("Signature"@, summary.signature@),
            ("Package Id"@, summary.package_id@),
            ("Format"@, "DSFD"@),
            ("Package Version"@, summary.package_version@),
            ("Definitions Release"@, summary.definitions_release@),
            ("Package Revision"@, decimal(summary.package_revision as nat)),
            ("Tags"@, decimal(summary.tags as nat)),
            ("Definitions"@, decimal(summary.definition_count as nat)),
            ("Log"@, log_path@),
        ], 0i32),
{
    let mut fields: Vec<ReportField> = Vec::new();
    fields.push(field("Signature", summary.signature.as_str()));
    fields.push(field("Package Id", summary.package_id.as_str()));
    fields.push(field("Format", "DSFD"));
    fields.push(field("Package Version", summary.package_version.as_str()));
    fields.push(field("Definitions Release", summary.definitions_release.as_str()));
    let mut rev: Vec<char> = Vec::new();
    push_decimal(&mut rev, summary.package_revision);
    fields.push(field("Package Revision", string_from(rev.as_slice()).as_str()));
    let mut tags: Vec<char> = Vec::new();
    push_decimal(&mut tags, summary.tags);
    fields.push(field("Tags", string_from(tags.as_slice()).as_str()));
    let mut defs: Vec<char> = Vec::new();
    push_decimal(&mut defs, summary.definition_count);
    fields.push(field("Definitions", string_from(defs.as_slice()).as_str()));
    fields.push(field("Log", log_path));
    let r = CommandReport { title: string_from(chars_of("Package Summary").as_slice()), status: ReportStatus::Success, fields, exit_code: 0 };
    assert(field_pairs(r.fields@) =~= seq![
        ("Signature"@, summary.signature@),
        ("Package Id"@, summary.package_id@),
        ("Format"@, "DSFD"@),
        ("Package Version"@, summary.package_version@),
        ("Definitions Release"@, summary.definitions_release@),
        ("Package Revision"@, decimal(summary.package_revision as nat)),
        ("Tags"@, decimal(summary.tags as nat)),
        ("Definitions"@, decimal(summary.definition_count as nat)),
        ("Log"@, log_path@),
    ]);
    r
}

/// The report of normalizing a package.
pub fn normalize_report(input: &str, written: &str, log_path: &str) -> (r: CommandReport)
    ensures
        report_view(r) == ("Normalized Package"@, ReportStatus::Success,
            seq![("Input"@, input@), ("Output"@, written@), ("Log"@, log_path@)], 0i32),
{
    let mut fields: Vec<ReportField> = Vec::new();
    fields.push(field("Input", input));
    fields.push(field("Output", written));
    fields.push(field("Log", log_path));
    let r = CommandReport { title: string_from(chars_of("Normalized Package").as_slice()), status: ReportStatus::Success, fields, exit_code: 0 };
    assert(field_pairs(r.fields@) =~= seq![("Input"@, input@), ("Output"@, written@), ("Log"@, log_path@)]);
    r
}

/// The report of comparing two packages: a difference is a warning with exit
/// code 1.
pub fn verify_report(left: &str, right: &str, matches: bool, log_path: &str) -> (r: CommandReport)
    ensures
        report_view(r) == ("Verification"@, if matches { ReportStatus::Success } else { ReportStatus::Warning },
            seq![("Left"@, left@), ("Right"@, right@), ("Result"@, if matches { "match"@ } else { "different"@ }),
                ("Log"@, log_path@)], if matches { 0i32 } else { 1i32 }),
{
    let mut fields: Vec<ReportField> = Vec::new();
    fields.push(field("Left", left));
    fields.push(field("Right", right));
    fields.push(field("Result", if matches { "match" } else { "different" }));
    fields.push(field("Log", log_path));
    let r = CommandReport {
        title: string_from(chars_of("Verification").as_slice()),
        status: if matches { ReportStatus::Success } else { ReportStatus::Warning },
        fields,
        exit_code: if matches { 0 } else { 1 },
    };
    assert(field_pairs(r.fields@) =~= seq![("Left"@, left@), ("Right"@, right@),
        ("Result"@, if matches { "match"@ } else { "different"@ }), ("Log"@, log_path@)]);
    r
}

/// How an embedded-package sync ended.
#[derive(Debug, Clone, Copy, PartialEq, Eq, Structural)]
pub enum SyncEmbeddedStatus {
    Skipped,
    UpToDate,
    Updated,
    NeedsUpdate,
}

/// The status, exit code and result word of a sync outcome: only a package
/// that needs an update under `--check` is a warning with exit code 1.
pub open spec fn sync_outcome(s: SyncEmbeddedStatus) -> (ReportStatus, i32, Seq<char>) {
    match s {
        SyncEmbeddedStatus::Skipped => (ReportStatus::Success, 0i32, "skipped"@),
        SyncEmbeddedStatus::UpToDate => (ReportStatus::Success, 0i32, "up-to-date"@),
        SyncEmbeddedStatus::Updated => (ReportStatus::Success, 0i32, "updated"@),
        SyncEmbeddedStatus::NeedsUpdate => (ReportStatus::Warning, 1i32, "update required"@),
    }
}

/// The report of syncing the embedded package.
pub fn sync_report(input: &str, output: &str, status: SyncEmbeddedStatus, package_version: Option<&str>, detail: &str, log_path: &str) -> (r: CommandReport)
    ensures
        report_view(r) == ("Embedded Package Sync"@, sync_outcome(status).0,
            seq![("Input"@, input@), ("Output"@, output@), ("Result"@, sync_outcome(status).2)]
                + (match package_version { Some(v) => seq![("Package Version"@, v@)], None => Seq::empty() })
                + seq![("Detail"@, detail@), ("Log"@, log_path@)],
            sync_outcome(status).1),
{
    let (st, code, result) = match status {
        SyncEmbeddedStatus::Skipped => (ReportStatus::Success, 0i32, "skipped"),
        SyncEmbeddedStatus::UpToDate => (ReportStatus::Success, 0i32, "up-to-date"),
        SyncEmbeddedStatus::Updated => (ReportStatus::Success, 0i32, "updated"),
        SyncEmbeddedStatus::NeedsUpdate => (ReportStatus::Warning, 1i32, "update required"),
    };
    let mut fields: Vec<ReportField> = Vec::new();
    fields.push(field("Input", input));
    fields.push(field("Output", output));
    fields.push(field("Result", result));
    match package_version {
        Some(v) => fields.push(field("Package Version", v)),
        None => {},
    }
    fields.push(field("Detail", detail));
    fields.push(field("Log", log_path));
    let r = CommandReport { title: string_from(chars_of("Embedded Package Sync").as_slice()), status: st, fields, exit_code: code };
    assert(field_pairs(r.fields@) =~= seq![("Input"@, input@), ("Output"@, output@), ("Result"@, sync_outcome(status).2)]
        + (match package_version { Some(v) => seq![("Package Version"@, v@)], None => Seq::empty() })
        + seq![("Detail"@, detail@), ("Log"@, log_path@)]);
    r
}

/// A label padded on the right with spaces to 20 characters.
pub open spec fn padded_label(label: Seq<char>) -> Seq<char> {
    if label.len() >= 20 {
        label
    } else {
        label + Seq::new((20 - label.len()) as nat, |i: int| ' ')
    }
}

/// The printed lines of a report: its title, then one line per field with
/// the label padded to 20 characters and the value after a space.
pub open spec fn report_lines(title: Seq<char>, fields: Seq<(Seq<char>, Seq<char>)>) -> Seq<Seq<char>> {
    seq![title] + fields.map_values(|f: (Seq<char>, Seq<char>)| field_line(f))
}

/// The printed line of one field.
pub open spec fn field_line(f: (Seq<char>, Seq<char>)) -> Seq<char> {
    padded_label(f.0) + " "@ + f.1
}

/// The lines a report prints.
pub fn print_report(report: &CommandReport) -> (r: Vec<String>)
    ensures
        r@.map_values(|s: String| s@) == report_lines(report.title@, field_pairs(report.fields@)),
{
    let mut lines: Vec<String> = Vec::new();
    lines.push(string_from(chars_of(report.title.as_str()).as_slice()));
    let mut i: usize = 0;
    assert(report.fields@.take(0) =~= Seq::<ReportField>::empty());
    assert(lines@.map_values(|s: String| s@) =~= report_lines(report.title@, field_pairs(report.fields@.take(0))));
    while i < report.fields.len()
        invariant
            i <= report.fields@.len(),
            lines@.map_values(|s: String| s@) == report_lines(report.title@, field_pairs(report.fields@.take(i as int))),
        decreases report.fields.len() - i,
    {
        let f = &report.fields[i];
        let label = chars_of(f.label.as_str());
        let mut line: Vec<char> = Vec::new();
        push_all(&mut line, label.as_slice());
        let mut k: usize = label.len();
        while k < 20
            invariant
                label@.len() <= k,
                k <= 20 || k == label@.len(),
                line@ == label@ + Seq::new((k - label@.len()) as nat, |j: int| ' '),
            decreases 20 - k,
        {
            line.push(' ');
            k = k + 1;
            assert(line@ =~= label@ + Seq::new((k - label@.len()) as nat, |j: int| ' '));
        }
        proof {
            if label@.len() >= 20 {
                assert(line@ =~= label@);
            }
            assert(line@ =~= padded_label(f.label@));
        }
        push_str(&mut line, " ");
        push_str(&mut line, f.value.as_str());
        let ghost old_lines = lines@;
        lines.push(string_from(line.as_slice()));
        proof {
            assert(report.fields@.take(i + 1) =~= report.fields@.take(i as int).push(*f));
            let before = field_pairs(report.fields@.take(i as int));
            let after = field_pairs(report.fields@.take(i + 1));
            assert(after =~= before.push(field_pair(*f)));
            assert(after.map_values(|p: (Seq<char>, Seq<char>)| field_line(p)) =~=
                before.map_values(|p: (Seq<char>, Seq<char>)| field_line(p)).push(field_line(field_pair(*f))));
            assert(lines@.map_values(|s: String| s@) =~= old_lines.map_values(|s: String| s@).push(field_line(field_pair(*f))));
            assert(lines@.map_values(|s: String| s@) =~= report_lines(report.title@, field_pairs(report.fields@.take(i + 1))));
        }
        i = i + 1;
    }
    assert(report.fields@.take(report.fields@.len() as int) =~= report.fields@);
    lines
}

} // verus!

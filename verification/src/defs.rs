//! The definitions-package commands: their working paths, the defaults of
//! their inputs and outputs, their help text, and the release date a TrID
//! source declares.

use vstd::prelude::*;
use crate::text::{chars_of, string_from, push_str, trim, trim_chars, join, views, join_strings};
use crate::paths::{
    join as path_join, join_path, resolved_against, resolve_output_dir, resolve_logs_dir,
    default_defs_package_path, EMBEDDED_DEFS_RELATIVE,
};
use crate::runner::BuilderAction;
use crate::logging::{LogDate, date_text, format_log_date};
use crate::cli::opt_text;

verus! {

/// Working paths of the definitions commands.
#[derive(Debug, Clone)]
pub struct DefsPaths {
    pub repo_root: String,
    pub package_dir: String,
    pub output_dir: String,
    pub logs_dir: String,
}

/// The paths the definitions commands use: the package directory defaults to
/// `tooling/dhara_tool/package`, the output and logs directories follow their
/// overrides (relative ones against the repository root).
pub open spec fn defs_paths(repo_root: Seq<char>, package_dir: Option<Seq<char>>, output_dir: Option<Seq<char>>, logs_dir: Option<Seq<char>>) -> (Seq<char>, Seq<char>, Seq<char>, Seq<char>) {
    (repo_root,
        match package_dir {
            Some(p) => p,
            None => path_join(path_join(path_join(repo_root, "tooling"@), "dhara_tool"@), "package"@),
        },
        match output_dir {
            Some(p) => resolved_against(repo_root, p),
            None => path_join(repo_root, "output"@),
        },
        match logs_dir {
            Some(p) => resolved_against(repo_root, p),
            None => path_join(repo_root, "logs"@),
        })
}

impl DefsPaths {
    /// Resolves the working paths from a repository root and the overrides.
    pub fn from_repo_root(repo_root: &str, package_dir: Option<String>, output_dir: Option<String>, logs_dir: Option<String>) -> (r: DefsPaths)
        ensures
            (r.repo_root@, r.package_dir@, r.output_dir@, r.logs_dir@)
                == defs_paths(repo_root@, opt_text(package_dir), opt_text(output_dir), opt_text(logs_dir)),
    {
        let package = match package_dir {
            Some(p) => p,
            None => crate::paths::default_package_dir(repo_root),
        };
        let output = match &output_dir {
            Some(p) => resolve_output_dir(repo_root, Some(p.as_str())),
            None => resolve_output_dir(repo_root, None),
        };
        let logs = match &logs_dir {
            Some(p) => resolve_logs_dir(repo_root, Some(p.as_str())),
            None => resolve_logs_dir(repo_root, None),
        };
        DefsPaths { repo_root: string_from(chars_of(repo_root).as_slice()), package_dir: package, output_dir: output, logs_dir: logs }
    }

    /// The two preferred TrID inputs, in order: the archive and the extracted
    /// directory inside the package directory.
    pub fn trid_input_candidates(&self) -> (r: (String, String))
        ensures
            r.0@ == path_join(self.package_dir@, "triddefs_xml.7z"@),
            r.1@ == path_join(self.package_dir@, "triddefs_xml"@),
    {
        (join_path(self.package_dir.as_str(), "triddefs_xml.7z"), join_path(self.package_dir.as_str(), "triddefs_xml"))
    }

    /// The default TrID input: the archive when it exists, else the extracted
    /// directory when it exists, else the package directory itself.
    pub fn default_trid_input_path(&self, archive_exists: bool, directory_exists: bool) -> (r: String)
        ensures
            archive_exists ==> r@ == path_join(self.package_dir@, "triddefs_xml.7z"@),
            !archive_exists && directory_exists ==> r@ == path_join(self.package_dir@, "triddefs_xml"@),
            !archive_exists && !directory_exists ==> r@ == self.package_dir@,
    {
        let (archive, directory) = self.trid_input_candidates();
        if archive_exists {
            archive
        } else if directory_exists {
            directory
        } else {
            string_from(chars_of(self.package_dir.as_str()).as_slice())
        }
    }

    /// The default output of a generated package: the embedded package path.
    pub fn default_package_output_path(&self) -> (r: String)
        ensures
            r@ == path_join(self.repo_root@, EMBEDDED_DEFS_RELATIVE@),
    {
        default_defs_package_path(self.repo_root.as_str())
    }
}

/// A definitions command as given, with its optional paths.
#[derive(Debug, Clone)]
pub enum DefsCommand {
    Pack { output: Option<String> },
    BuildTridXml { input: Option<String>, output: Option<String> },
    Inspect { input: Option<String> },
    InspectTridXml { input: Option<String> },
    Normalize { input: Option<String>, output: Option<String> },
    Verify { left: String, right: String },
    SyncEmbedded { input: Option<String>, output: Option<String>, check: bool },
}

pub open spec fn or_default(o: Option<String>, d: Seq<char>) -> Seq<char> {
    match o {
        Some(s) => s@,
        None => d,
    }
}

fn or_default_exec(o: Option<String>, d: &String) -> (r: String)
    ensures
        r@ == or_default(o, d@),
{
    match o {
        Some(s) => s,
        None => d.clone(),
    }
}

/// The action a command stands for: its paths, with the default TrID input
/// and the default package output filled in where it gives none.
pub open spec fn action_paths_ok(command: DefsCommand, trid_input: Seq<char>, package_output: Seq<char>, a: BuilderAction) -> bool {
    match command {
        DefsCommand::Pack { output } => a matches BuilderAction::Pack { output: o } && o@ == or_default(output, package_output),
        DefsCommand::BuildTridXml { input, output } => a matches BuilderAction::BuildTridXml { input: i, output: o }
            && i@ == or_default(input, trid_input) && o@ == or_default(output, package_output),
        DefsCommand::Inspect { input } => a matches BuilderAction::Inspect { input: i } && i@ == or_default(input, package_output),
        DefsCommand::InspectTridXml { input } => a matches BuilderAction::InspectTridXml { input: i } && i@ == or_default(input, trid_input),
        DefsCommand::Normalize { input, output } => a matches BuilderAction::Normalize { input: i, output: o }
            && i@ == or_default(input, package_output) && o@ == or_default(output, package_output),
        DefsCommand::Verify { left, right } => a matches BuilderAction::Verify { left: l, right: r } && l@ == left@ && r@ == right@,
        DefsCommand::SyncEmbedded { input, output, check } => a matches BuilderAction::SyncEmbedded { input: i, output: o, check: c }
            && i@ == or_default(input, trid_input) && o@ == or_default(output, package_output) && c == check,
    }
}

/// Fills in the defaults of a command; `trid_input` is the default TrID input
/// the file system selected (see `default_trid_input_path`).
pub fn resolve_action(command: DefsCommand, paths: &DefsPaths, trid_input: &str) -> (r: BuilderAction)
    ensures
        action_paths_ok(command, trid_input@, path_join(paths.repo_root@, EMBEDDED_DEFS_RELATIVE@), r),
{
    let out = paths.default_package_output_path();
    let tin = string_from(chars_of(trid_input).as_slice());
    match command {
        DefsCommand::Pack { output } => BuilderAction::Pack { output: or_default_exec(output, &out) },
        DefsCommand::BuildTridXml { input, output } => BuilderAction::BuildTridXml {
            input: or_default_exec(input, &tin),
            output: or_default_exec(output, &out),
        },
        DefsCommand::Inspect { input } => BuilderAction::Inspect { input: or_default_exec(input, &out) },
        DefsCommand::InspectTridXml { input } => BuilderAction::InspectTridXml { input: or_default_exec(input, &tin) },
        DefsCommand::Normalize { input, output } => BuilderAction::Normalize {
            input: or_default_exec(input, &out),
            output: or_default_exec(output, &out),
        },
        DefsCommand::Verify { left, right } => BuilderAction::Verify { left, right },
        DefsCommand::SyncEmbedded { input, output, check } => BuilderAction::SyncEmbedded {
            input: or_default_exec(input, &tin),
            output: or_default_exec(output, &out),
            check,
        },
    }
}

/// The lines of the definitions help.
pub open spec fn defs_help_lines() -> Seq<Seq<char>> {
    seq![
        "Defs commands:"@,
        "  defs pack [--output <path>]"@,
        "  defs build-trid-xml [--input <path>] [--output <path>]"@,
        "  defs inspect [--input <path>]"@,
        "  defs inspect-trid-xml [--input <path>]"@,
        "  defs normalize [--input <path>] [--output <path>]"@,
        "  defs verify --left <path> --right <path>"@,
        "  defs sync-embedded [--input <path>] [--output <path>] [--check]"@,
    ]
}

fn text(s: &str) -> (r: String)
    ensures
        r@ == s@,
{
    string_from(chars_of(s).as_slice())
}

/// The help text of the definitions commands, one line per command.
pub fn print_defs_help() -> (r: String)
    ensures
        r@ == join(defs_help_lines(), "\n"@),
{
    let mut lines: Vec<String> = Vec::new();
    lines.push(text("Defs commands:"));
    lines.push(text("  defs pack [--output <path>]"));
    lines.push(text("  defs build-trid-xml [--input <path>] [--output <path>]"));
    lines.push(text("  defs inspect [--input <path>]"));
    lines.push(text("  defs inspect-trid-xml [--input <path>]"));
    lines.push(text("  defs normalize [--input <path>] [--output <path>]"));
    lines.push(text("  defs verify --left <path> --right <path>"));
    lines.push(text("  defs sync-embedded [--input <path>] [--output <path>] [--check]"));
    assert(views(lines@) =~= defs_help_lines());
    let j = join_strings(lines.as_slice(), "\n");
    string_from(j.as_slice())
}

/// The date chrono's `NaiveDate::parse_from_str` reads from `text` with the
/// format `fmt`, as year, month and day.
pub uninterp spec fn naive_date_parsed(text: Seq<char>, fmt: Seq<char>) -> Option<(i32, u32, u32)>;

/// Calls `chrono::NaiveDate::parse_from_str` and returns the year, month and
/// day of the date it reads. The contract claims that the outcome is the one
/// `naive_date_parsed` names, and that a date it returns has a month from 1
/// to 12 and a day from 1 to 31, as every `NaiveDate` has.
#[verifier::external_body]
fn parse_naive_date(text: &str, fmt: &str) -> (r: Option<LogDate>)
    ensures
        match r {
            Some(d) => naive_date_parsed(text@, fmt@) == Some((d.year, d.month, d.day)) && d.wf(),
            None => naive_date_parsed(text@, fmt@) is None,
        },
{
    match chrono::NaiveDate::parse_from_str(text, fmt) {
        Ok(d) => Some(LogDate {
            year: chrono::Datelike::year(&d),
            month: chrono::Datelike::month(&d),
            day: chrono::Datelike::day(&d),
        }),
        Err(_) => None,
    }
}

/// A date as a spec value.
pub open spec fn as_date(t: (i32, u32, u32)) -> LogDate {
    LogDate { year: t.0, month: t.1, day: t.2 }
}

/// The release date a TrID source declares, written `YYYY-MM-DD`: the text
/// is trimmed and read as `YYYY-MM-DD`, else as `DD/MM/YYYY`.
pub open spec fn normalized_release(value: Seq<char>) -> Result<Seq<char>, Seq<char>> {
    let t = trim(value);
    if t.len() == 0 {
        Err("definitions_release must not be empty"@)
    } else if naive_date_parsed(t, "%Y-%m-%d"@) is Some {
        Ok(date_text(as_date(naive_date_parsed(t, "%Y-%m-%d"@)->0)))
    } else if naive_date_parsed(t, "%d/%m/%Y"@) is Some {
        Ok(date_text(as_date(naive_date_parsed(t, "%d/%m/%Y"@)->0)))
    } else {
        Err("definitions_release '"@ + t + "' must use YYYY-MM-DD or DD/MM/YYYY"@)
    }
}

/// Normalizes a declared release date to `YYYY-MM-DD`.
pub fn normalize_definitions_release(value: &str) -> (r: Result<String, String>)
    ensures
        match normalized_release(value@) {
            Ok(t) => r matches Ok(s) && s@ == t,
            Err(m) => r matches Err(s) && s@ == m,
        },
{
    let c = chars_of(value);
    let t = trim_chars(c.as_slice());
    let ts = string_from(t.as_slice());
    if t.len() == 0 {
        return Err(text("definitions_release must not be empty"));
    }
    match parse_naive_date(ts.as_str(), "%Y-%m-%d") {
        Some(d) => {
            return Ok(string_from(format_log_date(d).as_slice()));
        },
        None => {},
    }
    match parse_naive_date(ts.as_str(), "%d/%m/%Y") {
        Some(d) => {
            return Ok(string_from(format_log_date(d).as_slice()));
        },
        None => {},
    }
    let mut m: Vec<char> = Vec::new();
    push_str(&mut m, "definitions_release '");
    push_str(&mut m, ts.as_str());
    push_str(&mut m, "' must use YYYY-MM-DD or DD/MM/YYYY");
    Err(string_from(m.as_slice()))
}

} // verus!

//! The audit log's naming and wording: one log file per session and day,
//! the log levels the flags select, durations, and the summary lines that
//! commands leave in the log.

use vstd::prelude::*;
use crate::text::{
    chars_of, string_from, push_str, push_all, push_decimal, decimal, chars_eq, starts_with,
    ends_with, starts_with_chars, ends_with_chars, slice_chars, parse_unsigned, parse_bounded,
    join, views, join_strings, lemma_decimal_parses, lemma_decimal_digits, is_digit,
};
use crate::command::{CommandResult, RunMode, ToolContext};
use crate::paths::{
    resolve_logs_dir, resolve_output_dir, resolve_defs_output_dir, resolved_against,
    join as path_join, EMBEDDED_DEFS_DIR_RELATIVE,
};
use crate::trid::TridTransformReport;
use crate::cli::opt_text;
use crate::runner::{CommandReport, ReportField, field_pair, field_pairs};
use crate::text::signed_decimal;

verus! {

/// The stem of every log file name.
pub const LOG_FILE_STEM: &'static str = "dhara_tool";

/// The tracing target of the audit lines.
pub const AUDIT_TARGET: &'static str = "dhara_tool::audit";

/// A calendar date as the log names use it.
#[derive(Debug, Clone, Copy)]
pub struct LogDate {
    pub year: i32,
    pub month: u32,
    pub day: u32,
}

impl LogDate {
    /// Month and day in their calendar ranges.
    pub open spec fn wf(&self) -> bool {
        1 <= self.month <= 12 && 1 <= self.day <= 31
    }
}

/// `s` padded on the left with zeros to `w` characters.
pub open spec fn zero_pad(s: Seq<char>, w: nat) -> Seq<char> {
    if s.len() >= w {
        s
    } else {
        Seq::new((w - s.len()) as nat, |i: int| '0') + s
    }
}

/// The year as chrono's `%Y` writes it: four digits, zero-padded, for the
/// years 0 to 9999; otherwise a sign and at least four digits.
pub open spec fn year_text(y: int) -> Seq<char> {
    if 0 <= y <= 9999 {
        zero_pad(decimal(y as nat), 4)
    } else if y < 0 {
        seq!['-'] + zero_pad(decimal((-y) as nat), 4)
    } else {
        seq!['+'] + zero_pad(decimal(y as nat), 4)
    }
}

/// The date as chrono's `%Y-%m-%d` writes it.
pub open spec fn date_text(d: LogDate) -> Seq<char> {
    year_text(d.year as int) + seq!['-'] + zero_pad(decimal(d.month as nat), 2) + seq!['-']
        + zero_pad(decimal(d.day as nat), 2)
}

fn push_padded(out: &mut Vec<char>, n: u64, w: usize)
    requires
        w <= 4,
    ensures
        final(out)@ == old(out)@ + zero_pad(decimal(n as nat), w as nat),
{
    let d = crate::text::decimal_chars(n);
    let mut k: usize = d.len();
    let ghost start = out@;
    let mut zeros: Vec<char> = Vec::new();
    while k < w
        invariant
            d@.len() <= k <= w || (k == d@.len() && k >= w),
            zeros@ == Seq::new((k - d@.len()) as nat, |i: int| '0'),
        decreases w - k,
    {
        zeros.push('0');
        k = k + 1;
        assert(zeros@ =~= Seq::new((k - d@.len()) as nat, |i: int| '0'));
    }
    push_all(out, zeros.as_slice());
    push_all(out, d.as_slice());
    proof {
        if d@.len() >= w {
            assert(zeros@ =~= Seq::<char>::empty());
            assert(out@ =~= start + d@);
        } else {
            assert(out@ =~= start + (Seq::new((w - d@.len()) as nat, |i: int| '0') + d@));
        }
    }
}

/// Writes a date as `%Y-%m-%d`.
pub fn format_log_date(date: LogDate) -> (r: Vec<char>)
    requires
        date.wf(),
    ensures
        r@ == date_text(date),
{
    let mut out: Vec<char> = Vec::new();
    if 0 <= date.year && date.year <= 9999 {
        push_padded(&mut out, date.year as u64, 4);
    } else if date.year < 0 {
        out.push('-');
        let m: u64 = if date.year == i32::MIN { 2147483648u64 } else { (-date.year) as u64 };
        push_padded(&mut out, m, 4);
    } else {
        out.push('+');
        push_padded(&mut out, date.year as u64, 4);
    }
    let ghost y = out@;
    assert(y == year_text(date.year as int)) by {
        if !(0 <= date.year <= 9999) {
            assert(y =~= year_text(date.year as int));
        }
    }
    out.push('-');
    push_padded(&mut out, date.month as u64, 2);
    out.push('-');
    push_padded(&mut out, date.day as u64, 2);
    assert(out@ =~= date_text(date));
    out
}

/// The log file name of a session: `<date>_dhara_tool.log` for the first
/// session of a day, `<date>_dhara_tool_<n>.log` for session `n` after it.
pub open spec fn log_file_name(d: LogDate, session: u32) -> Seq<char> {
    if session == 0 {
        date_text(d) + "_"@ + LOG_FILE_STEM@ + ".log"@
    } else {
        date_text(d) + "_"@ + LOG_FILE_STEM@ + "_"@ + decimal(session as nat) + ".log"@
    }
}

/// Names the log file of a session.
pub fn log_file_name_for(date: LogDate, session: u32) -> (r: String)
    requires
        date.wf(),
    ensures
        r@ == log_file_name(date, session),
{
    let mut out = format_log_date(date);
    push_str(&mut out, "_");
    push_str(&mut out, LOG_FILE_STEM);
    if session != 0 {
        push_str(&mut out, "_");
        push_decimal(&mut out, session as u64);
    }
    push_str(&mut out, ".log");
    string_from(out.as_slice())
}

/// The start shared by the numbered log names of a day.
pub open spec fn session_prefix(d: LogDate) -> Seq<char> {
    date_text(d) + "_"@ + LOG_FILE_STEM@ + "_"@
}

/// The session a file name stands for on `d`: 0 for the day's first log
/// name, `n` for a numbered name whose number reads as a `u32`.
pub open spec fn log_session_of(name: Seq<char>, d: LogDate) -> Option<u32> {
    if name == log_file_name(d, 0) {
        Some(0)
    } else if !starts_with(name, session_prefix(d)) || !ends_with(name, ".log"@)
        || name.len() < session_prefix(d).len() + 4 {
        None
    } else {
        match parse_unsigned(name.subrange(session_prefix(d).len() as int, name.len() - 4)) {
            Some(v) => if v <= u32::MAX { Some(v as u32) } else { None },
            None => None,
        }
    }
}

/// Reads the session number out of a log file name of the given day.
pub fn parse_log_session(file_name: &str, date: LogDate) -> (r: Option<u32>)
    requires
        date.wf(),
    ensures
        r == log_session_of(file_name@, date),
{
    let name = chars_of(file_name);
    let first = log_file_name_for(date, 0);
    let first_c = chars_of(first.as_str());
    if chars_eq(name.as_slice(), first_c.as_slice()) {
        return Some(0);
    }
    let mut prefix = format_log_date(date);
    push_str(&mut prefix, "_");
    push_str(&mut prefix, LOG_FILE_STEM);
    push_str(&mut prefix, "_");
    let suffix = chars_of(".log");
    proof {
        reveal_strlit(".log");
    }
    if !starts_with_chars(name.as_slice(), prefix.as_slice()) || !ends_with_chars(name.as_slice(), suffix.as_slice())
        || name.len() - prefix.len() < 4 {
        return None;
    }
    let middle = slice_chars(name.as_slice(), prefix.len(), name.len() - 4);
    match parse_bounded(middle.as_slice(), u32::MAX as u64) {
        Some(v) => Some(v as u32),
        None => None,
    }
}

/// Naming a session's log file and reading the name back gives the session.
pub proof fn lemma_log_session_roundtrip(d: LogDate, session: u32)
    ensures
        log_session_of(log_file_name(d, session), d) == Some(session),
{
    if session != 0 {
        let name = log_file_name(d, session);
        let p = session_prefix(d);
        let digits = decimal(session as nat);
        lemma_decimal_digits(session as nat);
        lemma_decimal_parses(session as nat);
        reveal_strlit(".log");
        reveal_strlit("_");
        reveal_strlit("dhara_tool");
        assert(name =~= p + digits + ".log"@);
        assert(name.len() > log_file_name(d, 0).len());
        assert(starts_with(name, p)) by {
            assert(name.subrange(0, p.len() as int) =~= p);
        }
        assert(ends_with(name, ".log"@)) by {
            assert(name.subrange(name.len() - 4, name.len() as int) =~= ".log"@);
        }
        assert(name.subrange(p.len() as int, name.len() - 4) =~= digits);
    }
}

/// The highest session found among the names of a day.
pub open spec fn highest_session(names: Seq<Seq<char>>, d: LogDate) -> Option<u32>
    decreases names.len(),
{
    if names.len() == 0 {
        None
    } else {
        let rest = highest_session(names.drop_last(), d);
        match log_session_of(names.last(), d) {
            None => rest,
            Some(s) => match rest {
                None => Some(s),
                Some(h) => Some(if s > h { s } else { h }),
            },
        }
    }
}

/// The next free session of a day: 0 when no log of the day exists, else one
/// past the highest.
pub open spec fn next_session(names: Seq<Seq<char>>, d: LogDate) -> u32 {
    match highest_session(names, d) {
        None => 0,
        Some(h) => (h + 1) as u32,
    }
}

proof fn lemma_highest_bounded(names: Seq<Seq<char>>, d: LogDate)
    requires
        forall|i: int| 0 <= i < names.len() ==> log_session_of(#[trigger] names[i], d) != Some(u32::MAX),
    ensures
        highest_session(names, d) != Some(u32::MAX),
    decreases names.len(),
{
    if names.len() > 0 {
        assert forall|i: int| 0 <= i < names.drop_last().len() implies
            log_session_of(#[trigger] names.drop_last()[i], d) != Some(u32::MAX) by {
            assert(names.drop_last()[i] == names[i]);
        }
        lemma_highest_bounded(names.drop_last(), d);
        assert(log_session_of(names[names.len() - 1], d) != Some(u32::MAX));
    }
}

/// The highest session of a day is bounded by every session of that day in
/// the list and is itself one of them.
proof fn lemma_highest_is_max(names: Seq<Seq<char>>, d: LogDate)
    ensures
        forall|i: int| 0 <= i < names.len() && #[trigger] log_session_of(names[i], d) is Some ==>
            (highest_session(names, d) matches Some(h) && log_session_of(names[i], d)->Some_0 <= h),
        highest_session(names, d) matches Some(h) ==>
            exists|i: int| 0 <= i < names.len() && #[trigger] log_session_of(names[i], d) == Some(h),
        highest_session(names, d) is None ==>
            forall|i: int| 0 <= i < names.len() ==> #[trigger] log_session_of(names[i], d) is None,
    decreases names.len(),
{
    if names.len() > 0 {
        let rest = names.drop_last();
        lemma_highest_is_max(rest, d);
        assert forall|i: int| 0 <= i < rest.len() implies #[trigger] rest[i] == names[i] by {}
        let last = names.len() - 1;
        if let Some(h) = highest_session(names, d) {
            if log_session_of(names[last], d) == Some(h) {
            } else {
                let j = choose|j: int| 0 <= j < rest.len() && #[trigger] log_session_of(rest[j], d) == Some(h);
                assert(log_session_of(names[j], d) == Some(h));
            }
        }
        assert forall|i: int| 0 <= i < names.len() && #[trigger] log_session_of(names[i], d) is Some implies
            (highest_session(names, d) matches Some(h) && log_session_of(names[i], d)->Some_0 <= h) by {
            if i < last {
                assert(log_session_of(rest[i], d) is Some);
            }
        }
        if highest_session(names, d) is None {
            assert forall|i: int| 0 <= i < names.len() implies #[trigger] log_session_of(names[i], d) is None by {
                if i < last {
                    assert(log_session_of(rest[i], d) is None);
                }
            }
        }
    }
}

/// The next session of a day is past every session of that day among the
/// names, so it never reuses an existing log; it is 0 when the day has no
/// log, else one past a session that exists. (Sessions are below `u32::MAX`,
/// as `next_log_session` requires.)
pub proof fn lemma_next_session_is_fresh(names: Seq<Seq<char>>, d: LogDate)
    requires
        forall|i: int| 0 <= i < names.len() ==> log_session_of(#[trigger] names[i], d) != Some(u32::MAX),
    ensures
        forall|i: int| 0 <= i < names.len() && #[trigger] log_session_of(names[i], d) is Some ==>
            log_session_of(names[i], d)->Some_0 < next_session(names, d),
        next_session(names, d) == 0 <==>
            forall|i: int| 0 <= i < names.len() ==> #[trigger] log_session_of(names[i], d) is None,
        next_session(names, d) > 0 ==>
            exists|i: int| 0 <= i < names.len() && #[trigger] log_session_of(names[i], d) == Some((next_session(names, d) - 1) as u32),
{
    lemma_highest_is_max(names, d);
    lemma_highest_bounded(names, d);
    if let Some(h) = highest_session(names, d) {
        let j = choose|j: int| 0 <= j < names.len() && #[trigger] log_session_of(names[j], d) == Some(h);
        assert(log_session_of(names[j], d) is Some);
    }
}

/// The next session does not depend on the order the directory lists its
/// files in: two listings of the same names give the same session.
pub proof fn lemma_next_session_ignores_order(a: Seq<Seq<char>>, b: Seq<Seq<char>>, d: LogDate)
    requires
        a.to_multiset() == b.to_multiset(),
        forall|i: int| 0 <= i < a.len() ==> log_session_of(#[trigger] a[i], d) != Some(u32::MAX),
    ensures
        next_session(a, d) == next_session(b, d),
{
    a.to_multiset_ensures();
    b.to_multiset_ensures();
    assert forall|i: int| 0 <= i < b.len() implies log_session_of(#[trigger] b[i], d) != Some(u32::MAX) by {
        assert(b.contains(b[i]));
        assert(b.to_multiset().count(b[i]) > 0);
        assert(a.to_multiset().count(b[i]) > 0);
        assert(a.contains(b[i]));
        let j = choose|j: int| 0 <= j < a.len() && a[j] == b[i];
        assert(log_session_of(a[j], d) != Some(u32::MAX));
    }
    lemma_next_session_is_fresh(a, d);
    lemma_next_session_is_fresh(b, d);
    let na = next_session(a, d);
    let nb = next_session(b, d);
    if na > 0 {
        let i = choose|i: int| 0 <= i < a.len() && #[trigger] log_session_of(a[i], d) == Some((na - 1) as u32);
        assert(a.contains(a[i]));
        assert(a.to_multiset().count(a[i]) > 0);
        assert(b.to_multiset().count(a[i]) > 0);
        assert(b.contains(a[i]));
        let j = choose|j: int| 0 <= j < b.len() && b[j] == a[i];
        assert(log_session_of(b[j], d) is Some);
        assert(na - 1 < nb);
    }
    if nb > 0 {
        let i = choose|i: int| 0 <= i < b.len() && #[trigger] log_session_of(b[i], d) == Some((nb - 1) as u32);
        assert(b.contains(b[i]));
        assert(b.to_multiset().count(b[i]) > 0);
        assert(a.to_multiset().count(b[i]) > 0);
        assert(a.contains(b[i]));
        let j = choose|j: int| 0 <= j < a.len() && a[j] == b[i];
        assert(log_session_of(a[j], d) is Some);
        assert(nb - 1 < na);
    }
}

/// The session number the next log file of the day takes, given the names of
/// the files in the log directory.
pub fn next_log_session(file_names: &Vec<String>, date: LogDate) -> (r: u32)
    requires
        date.wf(),
        forall|i: int| 0 <= i < file_names@.len() ==> log_session_of(#[trigger] file_names@[i]@, date) != Some(u32::MAX),
    ensures
        r == next_session(views(file_names@), date),
{
    let ghost names = views(file_names@);
    proof {
        assert forall|i: int| 0 <= i < names.len() implies log_session_of(#[trigger] names[i], date) != Some(u32::MAX) by {
            assert(names[i] == file_names@[i]@);
        }
        lemma_highest_bounded(names, date);
    }
    let mut highest: Option<u32> = None;
    let mut i: usize = 0;
    assert(names.take(0) =~= Seq::<Seq<char>>::empty());
    while i < file_names.len()
        invariant
            i <= file_names@.len(),
            date.wf(),
            names == views(file_names@),
            highest == highest_session(names.take(i as int), date),
        decreases file_names.len() - i,
    {
        assert(names.take(i + 1).drop_last() =~= names.take(i as int));
        assert(names.take(i + 1).last() == file_names@[i as int]@);
        match parse_log_session(file_names[i].as_str(), date) {
            None => {},
            Some(s) => {
                highest = match highest {
                    None => Some(s),
                    Some(h) => Some(if s > h { s } else { h }),
                };
            },
        }
        i = i + 1;
    }
    assert(names.take(file_names@.len() as int) =~= names);
    match highest {
        None => 0,
        Some(h) => h + 1,
    }
}

/// A duration in the largest unit that suits it: hours and minutes from an
/// hour up, minutes and seconds from a minute up, else milliseconds below a
/// second. From one second up to a minute the text is seconds with one
/// decimal, written from the floating-point value of the duration; that case
/// is `None` here.
pub open spec fn duration_text(secs: nat, nanos: nat) -> Option<Seq<char>> {
    if secs >= 3600 {
        Some(decimal(secs / 3600) + "h"@ + decimal((secs % 3600) / 60) + "m"@)
    } else if secs >= 60 {
        Some(decimal(secs / 60) + "m"@ + decimal(secs % 60) + "s"@)
    } else if secs >= 1 {
        None
    } else {
        Some(decimal(nanos / 1_000_000) + "ms"@)
    }
}

/// Writes a duration given as whole seconds and the nanoseconds beyond them,
/// except from one second up to a minute, where the text is the duration's
/// floating-point seconds with one decimal and `None` is returned.
pub fn format_duration(secs: u64, subsec_nanos: u32) -> (r: Option<String>)
    requires
        subsec_nanos < 1_000_000_000,
    ensures
        match duration_text(secs as nat, subsec_nanos as nat) {
            Some(t) => r matches Some(x) && x@ == t,
            None => r is None,
        },
{
    let mut out: Vec<char> = Vec::new();
    if secs >= 3600 {
        push_decimal(&mut out, secs / 3600);
        push_str(&mut out, "h");
        push_decimal(&mut out, (secs % 3600) / 60);
        push_str(&mut out, "m");
    } else if secs >= 60 {
        push_decimal(&mut out, secs / 60);
        push_str(&mut out, "m");
        push_decimal(&mut out, secs % 60);
        push_str(&mut out, "s");
    } else if secs >= 1 {
        return None;
    } else {
        push_decimal(&mut out, (subsec_nanos / 1_000_000) as u64);
        push_str(&mut out, "ms");
    }
    Some(string_from(out.as_slice()))
}

/// The levels a log sink records.
#[derive(Debug, Clone, Copy, PartialEq, Eq, Structural)]
pub enum LogLevel {
    Debug,
    Info,
    Warn,
    Error,
}

/// The console stays at INFO; the file log records DEBUG with `--trace`,
/// WARN with `--min`, INFO otherwise (`--trace` wins over `--min`).
pub fn resolve_log_levels(min: bool, trace: bool) -> (r: (LogLevel, LogLevel))
    ensures
        r.0 == LogLevel::Info,
        trace ==> r.1 == LogLevel::Debug,
        !trace && min ==> r.1 == LogLevel::Warn,
        !trace && !min ==> r.1 == LogLevel::Info,
{
    let file = if trace {
        LogLevel::Debug
    } else if min {
        LogLevel::Warn
    } else {
        LogLevel::Info
    };
    (LogLevel::Info, file)
}

/// The commands whose runs are long enough to show progress.
pub open spec fn long_running(id: Seq<char>) -> bool {
    id == "defs.build-trid-xml"@ || id == "defs.inspect-trid-xml"@ || id == "defs.sync-embedded"@
        || id == "verify.ci"@ || id == "verify.package"@ || id == "package.pack"@
        || id == "package.publish"@ || id == "release.run"@
}

fn is(a: &str, b: &str) -> (r: bool)
    ensures
        r == (a@ == b@),
{
    let x = chars_of(a);
    let y = chars_of(b);
    chars_eq(x.as_slice(), y.as_slice())
}

/// Whether the command with this id is a long-running one.
pub fn is_long_running_module(command_id: &str) -> (r: bool)
    ensures
        r == long_running(command_id@),
{
    is(command_id, "defs.build-trid-xml") || is(command_id, "defs.inspect-trid-xml")
        || is(command_id, "defs.sync-embedded") || is(command_id, "verify.ci")
        || is(command_id, "verify.package") || is(command_id, "package.pack")
        || is(command_id, "package.publish") || is(command_id, "release.run")
}

/// The arguments of a command as the log shows them: `defaults` when there
/// are none, else the arguments joined by spaces.
pub fn format_command_args(args: &Vec<String>) -> (r: String)
    ensures
        args@.len() == 0 ==> r@ == "defaults"@,
        args@.len() > 0 ==> r@ == join(views(args@), " "@),
{
    if args.len() == 0 {
        string_from(chars_of("defaults").as_slice())
    } else {
        let j = join_strings(args.as_slice(), " ");
        string_from(j.as_slice())
    }
}

/// The word the log uses for a run mode.
/// The name of a run mode as logs and reports write it.
pub open spec fn run_mode_text(mode: RunMode) -> Seq<char> {
    match mode {
        RunMode::Interactive => "interactive"@,
        RunMode::Direct => "direct"@,
    }
}

/// The name of a run mode.
pub fn run_mode_name(mode: RunMode) -> (r: &'static str)
    ensures
        r@ == run_mode_text(mode),
{
    match mode {
        RunMode::Interactive => "interactive",
        RunMode::Direct => "direct",
    }
}


/// A field as the log summary shows it: `label=value`.
pub open spec fn pair_text(f: (Seq<char>, Seq<char>)) -> Seq<char> {
    f.0 + "="@ + f.1
}

/// The fields a `defs.*` summary names.
pub open spec fn defs_summary_label(label: Seq<char>) -> bool {
    label == "Definitions"@ || label == "Total Parsed"@ || label == "Final Kept"@
        || label == "Package Version"@ || label == "Result"@ || label == "Output"@
}

/// The `label=value` texts of the named fields, in report order.
pub open spec fn defs_parts(fields: Seq<(Seq<char>, Seq<char>)>) -> Seq<Seq<char>>
    decreases fields.len(),
{
    if fields.len() == 0 {
        Seq::empty()
    } else if defs_summary_label(fields.last().0) {
        defs_parts(fields.drop_last()).push(pair_text(fields.last()))
    } else {
        defs_parts(fields.drop_last())
    }
}

/// The summary of a definitions report: its named fields joined by `, `, or
/// its title when it has none of them.
pub open spec fn defs_summary(title: Seq<char>, fields: Seq<(Seq<char>, Seq<char>)>) -> Seq<char> {
    if defs_parts(fields).len() == 0 { title } else { join(defs_parts(fields), ", "@) }
}

fn pair_chars(f: &ReportField) -> (r: String)
    ensures
        r@ == pair_text(field_pair(*f)),
{
    let mut t: Vec<char> = Vec::new();
    push_str(&mut t, f.label.as_str());
    push_str(&mut t, "=");
    push_str(&mut t, f.value.as_str());
    string_from(t.as_slice())
}

fn is_defs_summary_label(label: &str) -> (r: bool)
    ensures
        r == defs_summary_label(label@),
{
    is(label, "Definitions") || is(label, "Total Parsed") || is(label, "Final Kept")
        || is(label, "Package Version") || is(label, "Result") || is(label, "Output")
}

/// Summarizes a definitions report for the log.
pub fn summarize_defs_report(report: &CommandReport) -> (r: String)
    ensures
        r@ == defs_summary(report.title@, field_pairs(report.fields@)),
{
    let ghost fp = field_pairs(report.fields@);
    let mut parts: Vec<String> = Vec::new();
    let mut i: usize = 0;
    assert(fp.take(0) =~= Seq::<(Seq<char>, Seq<char>)>::empty());
    assert(views(parts@) =~= Seq::<Seq<char>>::empty());
    while i < report.fields.len()
        invariant
            i <= report.fields@.len(),
            fp == field_pairs(report.fields@),
            views(parts@) == defs_parts(fp.take(i as int)),
        decreases report.fields.len() - i,
    {
        assert(fp.take(i + 1).drop_last() =~= fp.take(i as int));
        assert(fp.take(i + 1).last() == field_pair(report.fields@[i as int]));
        if is_defs_summary_label(report.fields[i].label.as_str()) {
            parts.push(pair_chars(&report.fields[i]));
            assert(views(parts@) =~= defs_parts(fp.take(i + 1)));
        }
        i = i + 1;
    }
    assert(fp.take(report.fields@.len() as int) =~= fp);
    if parts.len() == 0 {
        string_from(chars_of(report.title.as_str()).as_slice())
    } else {
        let j = join_strings(parts.as_slice(), ", ");
        string_from(j.as_slice())
    }
}

/// The summary of any other report: the title, then ` — ` and the first four
/// fields as `label=value` joined by `, ` when it has fields.
pub open spec fn report_summary(title: Seq<char>, fields: Seq<(Seq<char>, Seq<char>)>) -> Seq<char> {
    let shown = if fields.len() > 4 { fields.take(4) } else { fields };
    if shown.len() == 0 {
        title
    } else {
        title + " \u{2014} "@ + join(shown.map_values(|f: (Seq<char>, Seq<char>)| pair_text(f)), ", "@)
    }
}

/// The one-line summary of a command's outcome in the audit log: its message;
/// else its report (definitions reports by their key fields); else
/// `completed` or the exit code.
pub open spec fn result_summary(command_id: Seq<char>, result: CommandResult) -> Seq<char> {
    match result.message {
        Some(m) => m@,
        None => match result.report {
            Some(rep) => if starts_with(command_id, "defs."@) {
                defs_summary(rep.title@, field_pairs(rep.fields@))
            } else {
                report_summary(rep.title@, field_pairs(rep.fields@))
            },
            None => if result.exit_code == 0 {
                "completed"@
            } else {
                "exit code "@ + signed_decimal(result.exit_code as int)
            },
        },
    }
}

/// Summarizes a command's outcome for the audit log.
pub fn summarize_command_result(command_id: &str, result: &CommandResult) -> (r: String)
    ensures
        r@ == result_summary(command_id@, *result),
{
    match &result.message {
        Some(m) => {
            return string_from(chars_of(m.as_str()).as_slice());
        },
        None => {},
    }
    match &result.report {
        Some(rep) => {
            let id = chars_of(command_id);
            let prefix = chars_of("defs.");
            if starts_with_chars(id.as_slice(), prefix.as_slice()) {
                return summarize_defs_report(rep);
            }
            let ghost fp = field_pairs(rep.fields@);
            let n: usize = if rep.fields.len() > 4 { 4 } else { rep.fields.len() };
            let mut highlights: Vec<String> = Vec::new();
            let mut i: usize = 0;
            while i < n
                invariant
                    i <= n,
                    n <= rep.fields@.len(),
                    fp == field_pairs(rep.fields@),
                    highlights@.len() == i,
                    forall|k: int| 0 <= k < i ==> (#[trigger] highlights@[k])@ == pair_text(fp[k]),
                decreases n - i,
            {
                highlights.push(pair_chars(&rep.fields[i]));
                i = i + 1;
            }
            let ghost shown = if fp.len() > 4 { fp.take(4) } else { fp };
            assert(views(highlights@) =~= shown.map_values(|f: (Seq<char>, Seq<char>)| pair_text(f)));
            if n == 0 {
                return string_from(chars_of(rep.title.as_str()).as_slice());
            }
            let mut out: Vec<char> = Vec::new();
            push_str(&mut out, rep.title.as_str());
            push_str(&mut out, " \u{2014} ");
            let j = join_strings(highlights.as_slice(), ", ");
            push_all(&mut out, j.as_slice());
            string_from(out.as_slice())
        },
        None => {
            if result.exit_code == 0 {
                string_from(chars_of("completed").as_slice())
            } else {
                let mut out: Vec<char> = Vec::new();
                push_str(&mut out, "exit code ");
                let d = crate::text::signed_decimal_chars(result.exit_code as i64);
                push_all(&mut out, d.as_slice());
                string_from(out.as_slice())
            }
        },
    }
}


/// How the audit log is set up for a run.
#[derive(Debug, Clone)]
pub struct LoggingOptions {
    pub run_mode: RunMode,
    pub min: bool,
    pub trace: bool,
    pub logs_dir: String,
    pub context: ToolContext,
}

impl LoggingOptions {
    /// The logging options of a run: its mode and flags, and its logs
    /// directory (the override, relative ones against the repository root,
    /// else `logs` there).
    pub fn from_context(context: &ToolContext) -> (r: LoggingOptions)
        ensures
            r.run_mode == context.run_mode,
            r.min == context.min,
            r.trace == context.trace,
            r.context == *context,
            r.logs_dir@ == match context.logs_dir {
                Some(p) => resolved_against(context.repo_root@, p@),
                None => path_join(context.repo_root@, "logs"@),
            },
    {
        let logs = match &context.logs_dir {
            Some(p) => resolve_logs_dir(context.repo_root.as_str(), Some(p.as_str())),
            None => resolve_logs_dir(context.repo_root.as_str(), None),
        };
        LoggingOptions {
            run_mode: context.run_mode,
            min: context.min,
            trace: context.trace,
            logs_dir: logs,
            context: ToolContext {
                repo_root: context.repo_root.clone(),
                tool_root: context.tool_root.clone(),
                run_mode: context.run_mode,
                min: context.min,
                trace: context.trace,
                workers: context.workers,
                package_dir: context.package_dir.clone(),
                output_dir: context.output_dir.clone(),
                logs_dir: context.logs_dir.clone(),
            },
        }
    }
}

/// How build progress is shown for a run.
#[derive(Debug, Clone, Copy)]
pub struct ProgressSettings {
    pub trace: bool,
    pub run_mode: RunMode,
}

impl ProgressSettings {
    /// The progress settings of a run.
    pub fn from_context(context: &ToolContext) -> (r: ProgressSettings)
        ensures
            r.trace == context.trace,
            r.run_mode == context.run_mode,
    {
        ProgressSettings { trace: context.trace, run_mode: context.run_mode }
    }

    /// Progress goes to the console only for a direct run on a terminal.
    pub fn console_enabled(self, stderr_is_terminal: bool) -> (r: bool)
        ensures
            r == (self.run_mode == RunMode::Direct && stderr_is_terminal),
    {
        self.run_mode == RunMode::Direct && stderr_is_terminal
    }
}


/// One line of the audit log with the level it is recorded at.
#[derive(Debug, Clone)]
pub struct AuditLine {
    pub level: LogLevel,
    pub text: String,
}

/// `yes` or `no`.
pub open spec fn yes_no(b: bool) -> Seq<char> {
    if b { "yes"@ } else { "no"@ }
}

/// The lines that open a session's log: the banner with version, mode and
/// worker count (INFO), the flags with the log file (DEBUG), and the paths
/// the session resolved (DEBUG).
pub open spec fn session_begin_lines(version: Seq<char>, o: LoggingOptions, log_path: Seq<char>) -> Seq<(LogLevel, Seq<char>)> {
    let c = o.context;
    seq![
        (LogLevel::Info, "dhara_tool "@ + version + " started \u{2014} mode="@
            + run_mode_text(o.run_mode) + ", workers="@ + decimal(c.workers as nat)),
        (LogLevel::Debug, "flags min="@ + yes_no(o.min) + ", trace="@ + yes_no(o.trace)
            + ", log="@ + log_path),
        (LogLevel::Debug, "session paths resolved repo_root="@ + c.repo_root@
            + " output_dir="@ + opt_resolved_output(c) + " defs_output_dir="@
            + opt_resolved_defs_output(c) + " logs_dir="@ + o.logs_dir@
            + " package_dir="@ + match c.package_dir { Some(p) => p@, None => "default"@ }),
    ]
}

/// The output directory a session reports: the override against the
/// repository root, else `output` there.
pub open spec fn opt_resolved_output(c: ToolContext) -> Seq<char> {
    match c.output_dir {
        Some(p) => resolved_against(c.repo_root@, p@),
        None => path_join(c.repo_root@, "output"@),
    }
}

/// The definitions output directory a session reports.
pub open spec fn opt_resolved_defs_output(c: ToolContext) -> Seq<char> {
    match c.output_dir {
        Some(p) => resolved_against(c.repo_root@, p@),
        None => path_join(c.repo_root@, EMBEDDED_DEFS_DIR_RELATIVE@),
    }
}

/// The view of audit lines: each line's level and text.
pub open spec fn audit_view(lines: Seq<AuditLine>) -> Seq<(LogLevel, Seq<char>)> {
    lines.map_values(|l: AuditLine| (l.level, l.text@))
}

/// The lines that open the audit log of a session.
pub fn log_session_begin(version: &str, options: &LoggingOptions, log_path: &str) -> (r: Vec<AuditLine>)
    ensures
        audit_view(r@) == session_begin_lines(version@, *options, log_path@),
{
    let c = &options.context;
    let mut banner: Vec<char> = Vec::new();
    push_str(&mut banner, "dhara_tool ");
    push_str(&mut banner, version);
    push_str(&mut banner, " started \u{2014} mode=");
    push_str(&mut banner, run_mode_name(options.run_mode));
    push_str(&mut banner, ", workers=");
    push_decimal(&mut banner, c.workers as u64);
    let mut flags: Vec<char> = Vec::new();
    push_str(&mut flags, "flags min=");
    push_str(&mut flags, if options.min { "yes" } else { "no" });
    push_str(&mut flags, ", trace=");
    push_str(&mut flags, if options.trace { "yes" } else { "no" });
    push_str(&mut flags, ", log=");
    push_str(&mut flags, log_path);
    let out_dir = match &c.output_dir {
        Some(p) => resolve_output_dir(c.repo_root.as_str(), Some(p.as_str())),
        None => resolve_output_dir(c.repo_root.as_str(), None),
    };
    let defs_dir = match &c.output_dir {
        Some(p) => resolve_defs_output_dir(c.repo_root.as_str(), Some(p.as_str())),
        None => resolve_defs_output_dir(c.repo_root.as_str(), None),
    };
    let mut paths: Vec<char> = Vec::new();
    push_str(&mut paths, "session paths resolved repo_root=");
    push_str(&mut paths, c.repo_root.as_str());
    push_str(&mut paths, " output_dir=");
    push_str(&mut paths, out_dir.as_str());
    push_str(&mut paths, " defs_output_dir=");
    push_str(&mut paths, defs_dir.as_str());
    push_str(&mut paths, " logs_dir=");
    push_str(&mut paths, options.logs_dir.as_str());
    push_str(&mut paths, " package_dir=");
    match &c.package_dir {
        Some(p) => push_str(&mut paths, p.as_str()),
        None => push_str(&mut paths, "default"),
    }
    let mut r: Vec<AuditLine> = Vec::new();
    r.push(AuditLine { level: LogLevel::Info, text: string_from(banner.as_slice()) });
    r.push(AuditLine { level: LogLevel::Debug, text: string_from(flags.as_slice()) });
    r.push(AuditLine { level: LogLevel::Debug, text: string_from(paths.as_slice()) });
    assert(audit_view(r@) =~= session_begin_lines(version@, *options, log_path@));
    r
}

/// The closing line of a session: its exit code and time, then what
/// finished or failed.
pub open spec fn session_end_text(code: int, ts: Seq<char>, module: Option<Seq<char>>, error: Option<Seq<char>>) -> Seq<char> {
    let head = "dhara_tool exiting "@ + signed_decimal(code) + " at "@ + ts;
    match (module, error) {
        (Some(m), None) => if code == 0 {
            head + " \u{2014} completed "@ + m
        } else {
            head + " \u{2014} "@ + m
        },
        (Some(m), Some(e)) => head + " \u{2014} "@ + m + " failed: "@ + e,
        (None, Some(e)) => head + " \u{2014} "@ + e,
        (None, None) => head,
    }
}

/// The line that closes the audit log of a session (INFO).
pub fn log_session_end(exit_code: i32, timestamp: &str, module_id: Option<&str>, error: Option<&str>) -> (r: String)
    ensures
        r@ == session_end_text(exit_code as int, timestamp@,
            match module_id { Some(m) => Some(m@), None => None },
            match error { Some(e) => Some(e@), None => None }),
{
    let mut out: Vec<char> = Vec::new();
    push_str(&mut out, "dhara_tool exiting ");
    let code = crate::text::signed_decimal_chars(exit_code as i64);
    push_all(&mut out, code.as_slice());
    push_str(&mut out, " at ");
    push_str(&mut out, timestamp);
    match (module_id, error) {
        (Some(m), None) => {
            if exit_code == 0 {
                push_str(&mut out, " \u{2014} completed ");
            } else {
                push_str(&mut out, " \u{2014} ");
            }
            push_str(&mut out, m);
        },
        (Some(m), Some(e)) => {
            push_str(&mut out, " \u{2014} ");
            push_str(&mut out, m);
            push_str(&mut out, " failed: ");
            push_str(&mut out, e);
        },
        (None, Some(e)) => {
            push_str(&mut out, " \u{2014} ");
            push_str(&mut out, e);
        },
        (None, None) => {},
    }
    string_from(out.as_slice())
}

/// The line that opens a module's run (INFO).
pub fn log_module_begin(module_id: &str, config_summary: &str) -> (r: String)
    ensures
        r@ == module_id@ + " started \u{2014} "@ + config_summary@,
{
    let mut out: Vec<char> = Vec::new();
    push_str(&mut out, module_id);
    push_str(&mut out, " started \u{2014} ");
    push_str(&mut out, config_summary);
    string_from(out.as_slice())
}

/// The line that opens a quick module's run (DEBUG).
pub fn log_module_begin_debug(module_id: &str, config_summary: &str) -> (r: String)
    ensures
        r@ == module_id@ + " \u{2014} "@ + config_summary@,
{
    let mut out: Vec<char> = Vec::new();
    push_str(&mut out, module_id);
    push_str(&mut out, " \u{2014} ");
    push_str(&mut out, config_summary);
    string_from(out.as_slice())
}

/// The line that closes a module's run: INFO on success, WARN with the exit
/// code otherwise.
pub open spec fn module_end_line(id: Seq<char>, code: int, summary: Seq<char>, duration: Seq<char>, ts: Seq<char>) -> (LogLevel, Seq<char>) {
    let head = id + " finished in "@ + duration + " at "@ + ts;
    if code == 0 {
        (LogLevel::Info, head + " \u{2014} "@ + summary)
    } else {
        (LogLevel::Warn, head + " with exit "@ + signed_decimal(code) + " \u{2014} "@ + summary)
    }
}

/// The line that closes a module's run, given its duration text and the
/// time it finished.
pub fn log_module_end(module_id: &str, exit_code: i32, summary: &str, duration: &str, timestamp: &str) -> (r: AuditLine)
    ensures
        (r.level, r.text@) == module_end_line(module_id@, exit_code as int, summary@, duration@, timestamp@),
{
    let mut out: Vec<char> = Vec::new();
    push_str(&mut out, module_id);
    push_str(&mut out, " finished in ");
    push_str(&mut out, duration);
    push_str(&mut out, " at ");
    push_str(&mut out, timestamp);
    if exit_code == 0 {
        push_str(&mut out, " \u{2014} ");
        push_str(&mut out, summary);
        AuditLine { level: LogLevel::Info, text: string_from(out.as_slice()) }
    } else {
        push_str(&mut out, " with exit ");
        let code = crate::text::signed_decimal_chars(exit_code as i64);
        push_all(&mut out, code.as_slice());
        push_str(&mut out, " \u{2014} ");
        push_str(&mut out, summary);
        AuditLine { level: LogLevel::Warn, text: string_from(out.as_slice()) }
    }
}

/// The closing line of a module run in compact mode: worded as
/// `log_module_end`.
pub fn log_module_compact_finish(module_id: &str, exit_code: i32, summary: &str, duration: &str, timestamp: &str) -> (r: AuditLine)
    ensures
        (r.level, r.text@) == module_end_line(module_id@, exit_code as int, summary@, duration@, timestamp@),
{
    log_module_end(module_id, exit_code, summary, duration, timestamp)
}

/// The line recorded when a module fails (ERROR).
pub fn log_module_failed(module_id: &str, error: &str, duration: &str, timestamp: &str) -> (r: String)
    ensures
        r@ == module_id@ + " failed in "@ + duration@ + " at "@ + timestamp@ + " \u{2014} "@ + error@,
{
    let mut out: Vec<char> = Vec::new();
    push_str(&mut out, module_id);
    push_str(&mut out, " failed in ");
    push_str(&mut out, duration);
    push_str(&mut out, " at ");
    push_str(&mut out, timestamp);
    push_str(&mut out, " \u{2014} ");
    push_str(&mut out, error);
    string_from(out.as_slice())
}

/// The statistics line of a TrID transform.
pub open spec fn transform_statistics_text(r: TridTransformReport) -> Seq<char> {
    "TrID transform \u{2014} parsed="@ + decimal(r.total_parsed as nat)
        + ", kept="@ + decimal(r.final_kept as nat)
        + ", mime_corrected="@ + decimal(r.mime_corrected as nat)
        + ", mime_rejected="@ + decimal(r.mime_rejected as nat)
        + ", ext_rejected="@ + decimal(r.extension_rejected as nat)
        + ", sig_rejected="@ + decimal(r.signature_rejected as nat)
        + ", trimmed="@ + decimal(r.final_trimmed as nat)
}

/// The statistics line of a TrID transform (INFO).
pub fn log_transform_statistics(report: &TridTransformReport) -> (r: String)
    ensures
        r@ == transform_statistics_text(*report),
{
    let mut out: Vec<char> = Vec::new();
    push_str(&mut out, "TrID transform \u{2014} parsed=");
    push_decimal(&mut out, report.total_parsed as u64);
    push_str(&mut out, ", kept=");
    push_decimal(&mut out, report.final_kept as u64);
    push_str(&mut out, ", mime_corrected=");
    push_decimal(&mut out, report.mime_corrected as u64);
    push_str(&mut out, ", mime_rejected=");
    push_decimal(&mut out, report.mime_rejected as u64);
    push_str(&mut out, ", ext_rejected=");
    push_decimal(&mut out, report.extension_rejected as u64);
    push_str(&mut out, ", sig_rejected=");
    push_decimal(&mut out, report.signature_rejected as u64);
    push_str(&mut out, ", trimmed=");
    push_decimal(&mut out, report.final_trimmed as u64);
    string_from(out.as_slice())
}

/// The level a task step is recorded at: ERROR for `failed` and `error`,
/// WARN for `skipped`, `warning` and `bypassed`, INFO otherwise.
pub open spec fn task_step_level(outcome: Seq<char>) -> LogLevel {
    if outcome == "failed"@ || outcome == "error"@ {
        LogLevel::Error
    } else if outcome == "skipped"@ || outcome == "warning"@ || outcome == "bypassed"@ {
        LogLevel::Warn
    } else {
        LogLevel::Info
    }
}

/// The audit line of one task step: its level by outcome, and the task,
/// outcome and detail (empty when none).
pub fn log_task_step(task: &str, outcome: &str, detail: Option<&str>) -> (r: AuditLine)
    ensures
        r.level == task_step_level(outcome@),
        r.text@ == "task step task="@ + task@ + " outcome="@ + outcome@ + " detail="@
            + match detail { Some(d) => d@, None => Seq::<char>::empty() },
{
    let o = chars_of(outcome);
    let level = if chars_eq(o.as_slice(), chars_of("failed").as_slice())
        || chars_eq(o.as_slice(), chars_of("error").as_slice()) {
        LogLevel::Error
    } else if chars_eq(o.as_slice(), chars_of("skipped").as_slice())
        || chars_eq(o.as_slice(), chars_of("warning").as_slice())
        || chars_eq(o.as_slice(), chars_of("bypassed").as_slice()) {
        LogLevel::Warn
    } else {
        LogLevel::Info
    };
    let mut out: Vec<char> = Vec::new();
    push_str(&mut out, "task step task=");
    push_str(&mut out, task);
    push_str(&mut out, " outcome=");
    push_str(&mut out, outcome);
    push_str(&mut out, " detail=");
    match detail {
        Some(d) => push_str(&mut out, d),
        None => {},
    }
    AuditLine { level, text: string_from(out.as_slice()) }
}

/// Writing the log of the next free session makes the session after it the
/// next free one (while that session number still fits).
pub proof fn lemma_next_session_advances(names: Seq<Seq<char>>, d: LogDate)
    requires
        highest_session(names, d) != Some(u32::MAX),
        next_session(names, d) < u32::MAX,
    ensures
        next_session(names.push(log_file_name(d, next_session(names, d))), d) == next_session(names, d) + 1,
{
    let n = next_session(names, d);
    let more = names.push(log_file_name(d, n));
    lemma_log_session_roundtrip(d, n);
    assert(more.drop_last() =~= names);
    assert(more.last() == log_file_name(d, n));
    assert(log_session_of(more.last(), d) == Some(n));
    assert(highest_session(more, d) == Some(n)) by {
        match highest_session(names, d) {
            None => {},
            Some(h) => {
                assert(n == h + 1);
            },
        }
    }
}

} // verus!

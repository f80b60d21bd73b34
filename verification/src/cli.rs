//! The tool's own command line: the global options, which may stand before
//! or after the command words, and the choice of launch mode.

use vstd::prelude::*;
use crate::text::{
    chars_of, string_from, push_str, chars_eq, starts_with, starts_with_chars, slice_chars,
    parse_unsigned, parse_bounded, views, concat2, concat3,
};

verus! {

/// The global options and the command words of one invocation.
#[derive(Debug, Clone)]
pub struct RootArgs {
    pub repo_root: Option<String>,
    pub min: bool,
    pub trace: bool,
    pub workers: Option<usize>,
    pub package_dir: Option<String>,
    pub output_dir: Option<String>,
    pub logs_dir: Option<String>,
    pub show_help: bool,
    pub show_version: bool,
    pub yes: bool,
    pub command: Vec<String>,
}

/// The view of the parsed arguments.
#[verifier::ext_equal]
pub ghost struct RootView {
    pub repo_root: Option<Seq<char>>,
    pub min: bool,
    pub trace: bool,
    pub workers: Option<usize>,
    pub package_dir: Option<Seq<char>>,
    pub output_dir: Option<Seq<char>>,
    pub logs_dir: Option<Seq<char>>,
    pub show_help: bool,
    pub show_version: bool,
    pub yes: bool,
    pub command: Seq<Seq<char>>,
}

pub open spec fn opt_text(o: Option<String>) -> Option<Seq<char>> {
    match o {
        Some(s) => Some(s@),
        None => None,
    }
}

impl View for RootArgs {
    type V = RootView;

    open spec fn view(&self) -> RootView {
        RootView {
            repo_root: opt_text(self.repo_root),
            min: self.min,
            trace: self.trace,
            workers: self.workers,
            package_dir: opt_text(self.package_dir),
            output_dir: opt_text(self.output_dir),
            logs_dir: opt_text(self.logs_dir),
            show_help: self.show_help,
            show_version: self.show_version,
            yes: self.yes,
            command: views(self.command@),
        }
    }
}

/// Errors of the global options.
#[derive(Debug, Clone)]
pub enum RootArgError {
    /// The option needs a value and none follows.
    MissingValue(String),
    /// The worker count is not a non-negative integer that fits a `usize`.
    InvalidWorkers(String),
}

/// The view of a global option error.
pub ghost enum RootErrorView {
    MissingValue(Seq<char>),
    InvalidWorkers(Seq<char>),
}

impl View for RootArgError {
    type V = RootErrorView;

    open spec fn view(&self) -> RootErrorView {
        match self {
            RootArgError::MissingValue(s) => RootErrorView::MissingValue(s@),
            RootArgError::InvalidWorkers(s) => RootErrorView::InvalidWorkers(s@),
        }
    }
}

/// What a global option error says.
pub open spec fn root_error_text(e: RootErrorView) -> Seq<char> {
    match e {
        RootErrorView::MissingValue(o) => o + " requires a value"@,
        RootErrorView::InvalidWorkers(v) => "'"@ + v + "' is not a valid worker count"@,
    }
}

impl RootArgError {
    /// The error's message.
    pub fn message(&self) -> (r: String)
        ensures
            r@ == root_error_text(self@),
    {
        match self {
            RootArgError::MissingValue(o) => concat2(o.as_str(), " requires a value"),
            RootArgError::InvalidWorkers(v) => concat3("'", v.as_str(), "' is not a valid worker count"),
        }
    }
}

/// The arguments before any token is read.
pub open spec fn empty_root() -> RootView {
    RootView {
        repo_root: None,
        min: false,
        trace: false,
        workers: None,
        package_dir: None,
        output_dir: None,
        logs_dir: None,
        show_help: false,
        show_version: false,
        yes: false,
        command: Seq::empty(),
    }
}

/// `s` with every leading copy of `p` removed (`str::trim_start_matches`).
pub open spec fn strip_all_prefix(s: Seq<char>, p: Seq<char>) -> Seq<char>
    decreases s.len(),
{
    if p.len() > 0 && starts_with(s, p) {
        strip_all_prefix(s.skip(p.len() as int), p)
    } else {
        s
    }
}

/// The worker count a text gives, as `str::parse::<usize>` reads it.
pub open spec fn worker_count(s: Seq<char>) -> Option<usize> {
    match parse_unsigned(s) {
        Some(v) => if v <= usize::MAX { Some(v as usize) } else { None },
        None => None,
    }
}

/// Reads the tokens from `i` on into `p`: flags set their field, the value
/// options take the next token or the text after `=`, and every other token
/// is a command word.
pub open spec fn root_parse(args: Seq<Seq<char>>, i: int, p: RootView) -> Result<RootView, RootErrorView>
    decreases args.len() - i,
{
    if i < 0 || i >= args.len() {
        Ok(p)
    } else {
        let t = args[i];
        if t == "-h"@ || t == "--help"@ {
            root_parse(args, i + 1, RootView { show_help: true, ..p })
        } else if t == "--version"@ {
            root_parse(args, i + 1, RootView { show_version: true, ..p })
        } else if t == "-m"@ || t == "--min"@ {
            root_parse(args, i + 1, RootView { min: true, ..p })
        } else if t == "-t"@ || t == "--trace"@ {
            root_parse(args, i + 1, RootView { trace: true, ..p })
        } else if t == "-y"@ || t == "--yes"@ {
            root_parse(args, i + 1, RootView { yes: true, ..p })
        } else if t == "-w"@ || t == "--workers"@ {
            if i + 1 >= args.len() {
                Err(RootErrorView::MissingValue("--workers"@))
            } else {
                match worker_count(args[i + 1]) {
                    None => Err(RootErrorView::InvalidWorkers(args[i + 1])),
                    Some(n) => root_parse(args, i + 2, RootView { workers: Some(n), ..p }),
                }
            }
        } else if t == "--repo-root"@ {
            if i + 1 >= args.len() {
                Err(RootErrorView::MissingValue("--repo-root"@))
            } else {
                root_parse(args, i + 2, RootView { repo_root: Some(args[i + 1]), ..p })
            }
        } else if t == "--package-dir"@ {
            if i + 1 >= args.len() {
                Err(RootErrorView::MissingValue("--package-dir"@))
            } else {
                root_parse(args, i + 2, RootView { package_dir: Some(args[i + 1]), ..p })
            }
        } else if t == "--output-dir"@ {
            if i + 1 >= args.len() {
                Err(RootErrorView::MissingValue("--output-dir"@))
            } else {
                root_parse(args, i + 2, RootView { output_dir: Some(args[i + 1]), ..p })
            }
        } else if t == "--logs-dir"@ {
            if i + 1 >= args.len() {
                Err(RootErrorView::MissingValue("--logs-dir"@))
            } else {
                root_parse(args, i + 2, RootView { logs_dir: Some(args[i + 1]), ..p })
            }
        } else if starts_with(t, "--repo-root="@) {
            root_parse(args, i + 1, RootView { repo_root: Some(strip_all_prefix(t, "--repo-root="@)), ..p })
        } else if starts_with(t, "--package-dir="@) {
            root_parse(args, i + 1, RootView { package_dir: Some(strip_all_prefix(t, "--package-dir="@)), ..p })
        } else if starts_with(t, "--output-dir="@) {
            root_parse(args, i + 1, RootView { output_dir: Some(strip_all_prefix(t, "--output-dir="@)), ..p })
        } else if starts_with(t, "--logs-dir="@) {
            root_parse(args, i + 1, RootView { logs_dir: Some(strip_all_prefix(t, "--logs-dir="@)), ..p })
        } else if starts_with(t, "--workers="@) {
            let v = strip_all_prefix(t, "--workers="@);
            match worker_count(v) {
                None => Err(RootErrorView::InvalidWorkers(v)),
                Some(n) => root_parse(args, i + 1, RootView { workers: Some(n), ..p }),
            }
        } else {
            root_parse(args, i + 1, RootView { command: p.command.push(t), ..p })
        }
    }
}

/// Removes every leading copy of `prefix` from `s`.
pub fn trim_start_matches(s: &str, prefix: &str) -> (r: String)
    ensures
        r@ == strip_all_prefix(s@, prefix@),
{
    let c = chars_of(s);
    let p = chars_of(prefix);
    let mut start: usize = 0;
    if p.len() == 0 {
        return string_from(c.as_slice());
    }
    assert(c@.skip(0) =~= c@);
    loop
        invariant
            start <= c@.len(),
            p@ == prefix@,
            c@ == s@,
            p@.len() > 0,
            strip_all_prefix(c@, p@) == strip_all_prefix(c@.skip(start as int), p@),
        decreases c@.len() - start,
    {
        let rest = slice_chars(c.as_slice(), start, c.len());
        assert(rest@ =~= c@.skip(start as int));
        if starts_with_chars(rest.as_slice(), p.as_slice()) {
            assert(c@.skip(start as int).skip(p@.len() as int) =~= c@.skip(start + p@.len()));
            start = start + p.len();
        } else {
            return string_from(rest.as_slice());
        }
    }
}

fn worker_value(value: &str) -> (r: Option<usize>)
    ensures
        r == worker_count(value@),
{
    let c = chars_of(value);
    match parse_bounded(c.as_slice(), usize::MAX as u64) {
        Some(v) => Some(v as usize),
        None => None,
    }
}

fn is(t: &str, s: &str) -> (r: bool)
    ensures
        r == (t@ == s@),
{
    let a = chars_of(t);
    let b = chars_of(s);
    chars_eq(a.as_slice(), b.as_slice())
}

fn has_prefix(t: &str, s: &str) -> (r: bool)
    ensures
        r == starts_with(t@, s@),
{
    let a = chars_of(t);
    let b = chars_of(s);
    starts_with_chars(a.as_slice(), b.as_slice())
}

/// The value that follows the option at `index`.
pub fn next_value(args: &Vec<String>, index: usize, option: &str) -> (r: Result<String, RootArgError>)
    ensures
        index + 1 < args@.len() ==> (r matches Ok(v) && v@ == args@[index + 1]@),
        index + 1 >= args@.len() ==> (r matches Err(e) && e@ == RootErrorView::MissingValue(option@)),
{
    if index < args.len() && index + 1 < args.len() {
        Ok(args[index + 1].clone())
    } else {
        Err(RootArgError::MissingValue(string_from(chars_of(option).as_slice())))
    }
}

/// Parses the global options; they may stand before or after the command.
pub fn parse_root_args(args: Vec<String>) -> (r: Result<RootArgs, RootArgError>)
    ensures
        match root_parse(views(args@), 0, empty_root()) {
            Ok(v) => r matches Ok(p) && p@ == v,
            Err(e) => r matches Err(x) && x@ == e,
        },
{
    let ghost a = views(args@);
    let mut parsed = RootArgs {
        repo_root: None,
        min: false,
        trace: false,
        workers: None,
        package_dir: None,
        output_dir: None,
        logs_dir: None,
        show_help: false,
        show_version: false,
        yes: false,
        command: Vec::new(),
    };
    assert(views(parsed.command@) =~= Seq::<Seq<char>>::empty());
    assert(parsed@ =~= empty_root());
    let mut index: usize = 0;
    while index < args.len()
        invariant
            index <= args@.len(),
            a == views(args@),
            root_parse(a, 0, empty_root()) == root_parse(a, index as int, parsed@),
        decreases args.len() - index,
    {
        let token = args[index].as_str();
        let ghost before = parsed@;
        assert(a[index as int] == token@);
        if is(token, "-h") || is(token, "--help") {
            parsed.show_help = true;
            index = index + 1;
        } else if is(token, "--version") {
            parsed.show_version = true;
            index = index + 1;
        } else if is(token, "-m") || is(token, "--min") {
            parsed.min = true;
            index = index + 1;
        } else if is(token, "-t") || is(token, "--trace") {
            parsed.trace = true;
            index = index + 1;
        } else if is(token, "-y") || is(token, "--yes") {
            parsed.yes = true;
            index = index + 1;
        } else if is(token, "-w") || is(token, "--workers") {
            let value = next_value(&args, index, "--workers")?;
            match worker_value(value.as_str()) {
                Some(n) => {
                    parsed.workers = Some(n);
                },
                None => {
                    return Err(RootArgError::InvalidWorkers(value));
                },
            }
            index = index + 2;
        } else if is(token, "--repo-root") {
            parsed.repo_root = Some(next_value(&args, index, "--repo-root")?);
            index = index + 2;
        } else if is(token, "--package-dir") {
            parsed.package_dir = Some(next_value(&args, index, "--package-dir")?);
            index = index + 2;
        } else if is(token, "--output-dir") {
            parsed.output_dir = Some(next_value(&args, index, "--output-dir")?);
            index = index + 2;
        } else if is(token, "--logs-dir") {
            parsed.logs_dir = Some(next_value(&args, index, "--logs-dir")?);
            index = index + 2;
        } else if has_prefix(token, "--repo-root=") {
            parsed.repo_root = Some(trim_start_matches(token, "--repo-root="));
            index = index + 1;
        } else if has_prefix(token, "--package-dir=") {
            parsed.package_dir = Some(trim_start_matches(token, "--package-dir="));
            index = index + 1;
        } else if has_prefix(token, "--output-dir=") {
            parsed.output_dir = Some(trim_start_matches(token, "--output-dir="));
            index = index + 1;
        } else if has_prefix(token, "--logs-dir=") {
            parsed.logs_dir = Some(trim_start_matches(token, "--logs-dir="));
            index = index + 1;
        } else if has_prefix(token, "--workers=") {
            let value = trim_start_matches(token, "--workers=");
            match worker_value(value.as_str()) {
                Some(n) => {
                    parsed.workers = Some(n);
                },
                None => {
                    return Err(RootArgError::InvalidWorkers(value));
                },
            }
            index = index + 1;
        } else {
            parsed.command.push(args[index].clone());
            index = index + 1;
            assert(views(parsed.command@) =~= before.command.push(token@));
            assert(parsed@ =~= RootView { command: before.command.push(token@), ..before });
        }
    }
    Ok(parsed)
}

/// How the tool runs.
#[derive(Debug, Clone, Copy, PartialEq, Eq, Structural)]
pub enum LaunchMode {
    InteractiveTui,
    PlainHelp,
    DirectCommand,
}

/// A command on the command line runs directly; without one, an interactive
/// terminal gets the guided interface and anything else the help text.
pub fn determine_launch_mode(has_command: bool, interactive_terminal: bool) -> (r: LaunchMode)
    ensures
        has_command ==> r == LaunchMode::DirectCommand,
        !has_command && interactive_terminal ==> r == LaunchMode::InteractiveTui,
        !has_command && !interactive_terminal ==> r == LaunchMode::PlainHelp,
{
    if has_command {
        LaunchMode::DirectCommand
    } else if interactive_terminal {
        LaunchMode::InteractiveTui
    } else {
        LaunchMode::PlainHelp
    }
}

/// The usage text printed before the commands' own help.
pub open spec fn usage_text() -> Seq<char> {
    "Usage: dhara_tool [global-options] <command> [command-options]\n\nLaunch modes:\n  interactive  no subcommand in a TTY \u{2014} opens the guided TUI\n  direct       subcommand present \u{2014} runs immediately (CI, agents, scripts)\n\nGlobal options (may appear before or after the command):\n  --repo-root <path>\n  --package-dir <path>\n  --output-dir <path>\n  --logs-dir <path>\n  -m, --min         file log WARN only (console stays INFO)\n  -t, --trace       file log DEBUG (console stays INFO)\n  -w, --workers <n>  cap Rayon worker threads (default 4; env TOOL_MAX_WORKERS)\n  -y, --yes         apply configuration drift without prompting\n  -h, --help\n  --version\n\n"@
}

/// The full help text: the usage text followed by the commands' help.
pub fn help_text(commands_help: &str) -> (r: String)
    ensures
        r@ == usage_text() + commands_help@,
{
    let mut out: Vec<char> = Vec::new();
    push_str(&mut out, "Usage: dhara_tool [global-options] <command> [command-options]\n\nLaunch modes:\n  interactive  no subcommand in a TTY \u{2014} opens the guided TUI\n  direct       subcommand present \u{2014} runs immediately (CI, agents, scripts)\n\nGlobal options (may appear before or after the command):\n  --repo-root <path>\n  --package-dir <path>\n  --output-dir <path>\n  --logs-dir <path>\n  -m, --min         file log WARN only (console stays INFO)\n  -t, --trace       file log DEBUG (console stays INFO)\n  -w, --workers <n>  cap Rayon worker threads (default 4; env TOOL_MAX_WORKERS)\n  -y, --yes         apply configuration drift without prompting\n  -h, --help\n  --version\n\n");
    push_str(&mut out, commands_help);
    string_from(out.as_slice())
}


/// The global switches and the field each one sets.
pub open spec fn switch_set(p: RootView, flag: Seq<char>) -> RootView {
    if flag == "-h"@ || flag == "--help"@ {
        RootView { show_help: true, ..p }
    } else if flag == "--version"@ {
        RootView { show_version: true, ..p }
    } else if flag == "-m"@ || flag == "--min"@ {
        RootView { min: true, ..p }
    } else if flag == "-t"@ || flag == "--trace"@ {
        RootView { trace: true, ..p }
    } else {
        RootView { yes: true, ..p }
    }
}

/// The switches among the global options.
pub open spec fn is_switch(flag: Seq<char>) -> bool {
    flag == "-h"@ || flag == "--help"@ || flag == "--version"@ || flag == "-m"@ || flag == "--min"@
        || flag == "-t"@ || flag == "--trace"@ || flag == "-y"@ || flag == "--yes"@
}

proof fn lemma_switch_commutes(args: Seq<Seq<char>>, i: int, p: RootView, flag: Seq<char>)
    requires
        is_switch(flag),
    ensures
        root_parse(args, i, switch_set(p, flag)) == match root_parse(args, i, p) {
            Ok(q) => Ok(switch_set(q, flag)),
            Err(e) => Err(e),
        },
    decreases args.len() - i,
{
    if 0 <= i < args.len() {
        let t = args[i];
        let ps = switch_set(p, flag);
        if t == "-h"@ || t == "--help"@ {
            let n = RootView { show_help: true, ..p };
            lemma_switch_commutes(args, i + 1, n, flag);
            assert(RootView { show_help: true, ..ps } =~= switch_set(n, flag));
        } else if t == "--version"@ {
            let n = RootView { show_version: true, ..p };
            lemma_switch_commutes(args, i + 1, n, flag);
            assert(RootView { show_version: true, ..ps } =~= switch_set(n, flag));
        } else if t == "-m"@ || t == "--min"@ {
            let n = RootView { min: true, ..p };
            lemma_switch_commutes(args, i + 1, n, flag);
            assert(RootView { min: true, ..ps } =~= switch_set(n, flag));
        } else if t == "-t"@ || t == "--trace"@ {
            let n = RootView { trace: true, ..p };
            lemma_switch_commutes(args, i + 1, n, flag);
            assert(RootView { trace: true, ..ps } =~= switch_set(n, flag));
        } else if t == "-y"@ || t == "--yes"@ {
            let n = RootView { yes: true, ..p };
            lemma_switch_commutes(args, i + 1, n, flag);
            assert(RootView { yes: true, ..ps } =~= switch_set(n, flag));
        } else if t == "-w"@ || t == "--workers"@ {
            if i + 1 < args.len() && worker_count(args[i + 1]) is Some {
                let n = RootView { workers: worker_count(args[i + 1]), ..p };
                lemma_switch_commutes(args, i + 2, n, flag);
                assert(RootView { workers: worker_count(args[i + 1]), ..ps } =~= switch_set(n, flag));
            }
        } else if t == "--repo-root"@ {
            if i + 1 < args.len() {
                let n = RootView { repo_root: Some(args[i + 1]), ..p };
                lemma_switch_commutes(args, i + 2, n, flag);
                assert(RootView { repo_root: Some(args[i + 1]), ..ps } =~= switch_set(n, flag));
            }
        } else if t == "--package-dir"@ {
            if i + 1 < args.len() {
                let n = RootView { package_dir: Some(args[i + 1]), ..p };
                lemma_switch_commutes(args, i + 2, n, flag);
                assert(RootView { package_dir: Some(args[i + 1]), ..ps } =~= switch_set(n, flag));
            }
        } else if t == "--output-dir"@ {
            if i + 1 < args.len() {
                let n = RootView { output_dir: Some(args[i + 1]), ..p };
                lemma_switch_commutes(args, i + 2, n, flag);
                assert(RootView { output_dir: Some(args[i + 1]), ..ps } =~= switch_set(n, flag));
            }
        } else if t == "--logs-dir"@ {
            if i + 1 < args.len() {
                let n = RootView { logs_dir: Some(args[i + 1]), ..p };
                lemma_switch_commutes(args, i + 2, n, flag);
                assert(RootView { logs_dir: Some(args[i + 1]), ..ps } =~= switch_set(n, flag));
            }
        } else if starts_with(t, "--repo-root="@) {
            let v = Some(strip_all_prefix(t, "--repo-root="@));
            let n = RootView { repo_root: v, ..p };
            lemma_switch_commutes(args, i + 1, n, flag);
            assert(RootView { repo_root: v, ..ps } =~= switch_set(n, flag));
        } else if starts_with(t, "--package-dir="@) {
            let v = Some(strip_all_prefix(t, "--package-dir="@));
            let n = RootView { package_dir: v, ..p };
            lemma_switch_commutes(args, i + 1, n, flag);
            assert(RootView { package_dir: v, ..ps } =~= switch_set(n, flag));
        } else if starts_with(t, "--output-dir="@) {
            let v = Some(strip_all_prefix(t, "--output-dir="@));
            let n = RootView { output_dir: v, ..p };
            lemma_switch_commutes(args, i + 1, n, flag);
            assert(RootView { output_dir: v, ..ps } =~= switch_set(n, flag));
        } else if starts_with(t, "--logs-dir="@) {
            let v = Some(strip_all_prefix(t, "--logs-dir="@));
            let n = RootView { logs_dir: v, ..p };
            lemma_switch_commutes(args, i + 1, n, flag);
            assert(RootView { logs_dir: v, ..ps } =~= switch_set(n, flag));
        } else if starts_with(t, "--workers="@) {
            let w = worker_count(strip_all_prefix(t, "--workers="@));
            if w is Some {
                let n = RootView { workers: w, ..p };
                lemma_switch_commutes(args, i + 1, n, flag);
                assert(RootView { workers: w, ..ps } =~= switch_set(n, flag));
            }
        } else {
            let n = RootView { command: p.command.push(t), ..p };
            lemma_switch_commutes(args, i + 1, n, flag);
            assert(RootView { command: ps.command.push(t), ..ps } =~= switch_set(n, flag));
        }
    }
}

proof fn lemma_parse_concat(a: Seq<Seq<char>>, b: Seq<Seq<char>>, i: int, p: RootView)
    requires
        0 <= i <= a.len(),
        root_parse(a, i, p) is Ok,
    ensures
        root_parse(a + b, i, p) == root_parse(b, 0, root_parse(a, i, p)->Ok_0),
    decreases a.len() - i,
{
    let ab = a + b;
    if i < a.len() {
        let t = a[i];
        assert(ab[i] == t);
        if i + 1 < a.len() {
            assert(ab[i + 1] == a[i + 1]);
        }
        if t == "-h"@ || t == "--help"@ {
            lemma_parse_concat(a, b, i + 1, RootView { show_help: true, ..p });
        } else if t == "--version"@ {
            lemma_parse_concat(a, b, i + 1, RootView { show_version: true, ..p });
        } else if t == "-m"@ || t == "--min"@ {
            lemma_parse_concat(a, b, i + 1, RootView { min: true, ..p });
        } else if t == "-t"@ || t == "--trace"@ {
            lemma_parse_concat(a, b, i + 1, RootView { trace: true, ..p });
        } else if t == "-y"@ || t == "--yes"@ {
            lemma_parse_concat(a, b, i + 1, RootView { yes: true, ..p });
        } else if t == "-w"@ || t == "--workers"@ {
            lemma_parse_concat(a, b, i + 2, RootView { workers: worker_count(a[i + 1]), ..p });
        } else if t == "--repo-root"@ {
            lemma_parse_concat(a, b, i + 2, RootView { repo_root: Some(a[i + 1]), ..p });
        } else if t == "--package-dir"@ {
            lemma_parse_concat(a, b, i + 2, RootView { package_dir: Some(a[i + 1]), ..p });
        } else if t == "--output-dir"@ {
            lemma_parse_concat(a, b, i + 2, RootView { output_dir: Some(a[i + 1]), ..p });
        } else if t == "--logs-dir"@ {
            lemma_parse_concat(a, b, i + 2, RootView { logs_dir: Some(a[i + 1]), ..p });
        } else if starts_with(t, "--repo-root="@) {
            lemma_parse_concat(a, b, i + 1, RootView { repo_root: Some(strip_all_prefix(t, "--repo-root="@)), ..p });
        } else if starts_with(t, "--package-dir="@) {
            lemma_parse_concat(a, b, i + 1, RootView { package_dir: Some(strip_all_prefix(t, "--package-dir="@)), ..p });
        } else if starts_with(t, "--output-dir="@) {
            lemma_parse_concat(a, b, i + 1, RootView { output_dir: Some(strip_all_prefix(t, "--output-dir="@)), ..p });
        } else if starts_with(t, "--logs-dir="@) {
            lemma_parse_concat(a, b, i + 1, RootView { logs_dir: Some(strip_all_prefix(t, "--logs-dir="@)), ..p });
        } else if starts_with(t, "--workers="@) {
            lemma_parse_concat(a, b, i + 1, RootView { workers: worker_count(strip_all_prefix(t, "--workers="@)), ..p });
        } else {
            lemma_parse_concat(a, b, i + 1, RootView { command: p.command.push(t), ..p });
        }
    } else {
        lemma_parse_shift(a, b, 0, p);
    }
}

proof fn lemma_parse_shift(a: Seq<Seq<char>>, b: Seq<Seq<char>>, j: int, p: RootView)
    requires
        0 <= j,
    ensures
        root_parse(a + b, a.len() + j, p) == root_parse(b, j, p),
    decreases b.len() - j,
{
    let ab = a + b;
    if j < b.len() {
        let t = b[j];
        assert(ab[a.len() + j] == t);
        if j + 1 < b.len() {
            assert(ab[a.len() + j + 1] == b[j + 1]);
        }
        if t == "-h"@ || t == "--help"@ {
            lemma_parse_shift(a, b, j + 1, RootView { show_help: true, ..p });
        } else if t == "--version"@ {
            lemma_parse_shift(a, b, j + 1, RootView { show_version: true, ..p });
        } else if t == "-m"@ || t == "--min"@ {
            lemma_parse_shift(a, b, j + 1, RootView { min: true, ..p });
        } else if t == "-t"@ || t == "--trace"@ {
            lemma_parse_shift(a, b, j + 1, RootView { trace: true, ..p });
        } else if t == "-y"@ || t == "--yes"@ {
            lemma_parse_shift(a, b, j + 1, RootView { yes: true, ..p });
        } else if t == "-w"@ || t == "--workers"@ {
            if j + 1 < b.len() {
                lemma_parse_shift(a, b, j + 2, RootView { workers: worker_count(b[j + 1]), ..p });
            }
        } else if t == "--repo-root"@ {
            if j + 1 < b.len() {
                lemma_parse_shift(a, b, j + 2, RootView { repo_root: Some(b[j + 1]), ..p });
            }
        } else if t == "--package-dir"@ {
            if j + 1 < b.len() {
                lemma_parse_shift(a, b, j + 2, RootView { package_dir: Some(b[j + 1]), ..p });
            }
        } else if t == "--output-dir"@ {
            if j + 1 < b.len() {
                lemma_parse_shift(a, b, j + 2, RootView { output_dir: Some(b[j + 1]), ..p });
            }
        } else if t == "--logs-dir"@ {
            if j + 1 < b.len() {
                lemma_parse_shift(a, b, j + 2, RootView { logs_dir: Some(b[j + 1]), ..p });
            }
        } else if starts_with(t, "--repo-root="@) {
            lemma_parse_shift(a, b, j + 1, RootView { repo_root: Some(strip_all_prefix(t, "--repo-root="@)), ..p });
        } else if starts_with(t, "--package-dir="@) {
            lemma_parse_shift(a, b, j + 1, RootView { package_dir: Some(strip_all_prefix(t, "--package-dir="@)), ..p });
        } else if starts_with(t, "--output-dir="@) {
            lemma_parse_shift(a, b, j + 1, RootView { output_dir: Some(strip_all_prefix(t, "--output-dir="@)), ..p });
        } else if starts_with(t, "--logs-dir="@) {
            lemma_parse_shift(a, b, j + 1, RootView { logs_dir: Some(strip_all_prefix(t, "--logs-dir="@)), ..p });
        } else if starts_with(t, "--workers="@) {
            lemma_parse_shift(a, b, j + 1, RootView { workers: worker_count(strip_all_prefix(t, "--workers="@)), ..p });
        } else {
            lemma_parse_shift(a, b, j + 1, RootView { command: p.command.push(t), ..p });
        }
    }
}

/// A global switch has the same effect wherever it stands: placed before
/// the other tokens or after them, it sets its field and leaves the rest of
/// the parse as it was, when the other tokens parse.
pub proof fn lemma_switch_position_free(args: Seq<Seq<char>>, flag: Seq<char>)
    requires
        is_switch(flag),
        root_parse(args, 0, empty_root()) is Ok,
    ensures
        root_parse(seq![flag] + args, 0, empty_root()) == Ok::<RootView, RootErrorView>(switch_set(root_parse(args, 0, empty_root())->Ok_0, flag)),
        root_parse(args + seq![flag], 0, empty_root()) == Ok::<RootView, RootErrorView>(switch_set(root_parse(args, 0, empty_root())->Ok_0, flag)),
{
    let q = root_parse(args, 0, empty_root())->Ok_0;
    let front = seq![flag] + args;
    assert(front[0] == flag);
    lemma_parse_shift(seq![flag], args, 0, switch_set(empty_root(), flag));
    lemma_switch_commutes(args, 0, empty_root(), flag);
    assert(root_parse(front, 0, empty_root()) == root_parse(front, 1, switch_set(empty_root(), flag)));
    lemma_parse_concat(args, seq![flag], 0, empty_root());
    let one = seq![flag];
    assert(root_parse(one, 0, q) == root_parse(one, 1, switch_set(q, flag)));
}

} // verus!

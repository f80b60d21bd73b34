//! The arguments of each command, read against the command's option table,
//! and the options the packaging and release flows take from them.

use vstd::prelude::*;
use crate::text::{chars_of, string_from, chars_eq, views};
use crate::args::{
    OptSpec, OptView, opt_views, ArgError, ArgErrorView, Parsed, ParsedArgs, parsed_view,
    parse_tokens, parse_options, lemma_parse_len,
};
use crate::cli::opt_text;
use crate::repo_config::VersionPart;
use crate::command::ToolContext;
use crate::release::{ReleaseOptions, PackageOptions};

verus! {

/// The first value given for an option.
pub open spec fn opt_value(vals: Seq<Seq<char>>) -> Option<Seq<char>> {
    if vals.len() > 0 { Some(vals[0]) } else { None }
}

/// The first value given for an option, or `default`.
pub open spec fn value_or(vals: Seq<Seq<char>>, default: Seq<char>) -> Seq<char> {
    if vals.len() > 0 { vals[0] } else { default }
}

/// Whether a switch was given.
pub open spec fn switched(vals: Seq<Seq<char>>) -> bool {
    vals.len() > 0
}

/// The version part an option value names.
pub open spec fn part_named(v: Seq<char>) -> Option<VersionPart> {
    if v == "major"@ {
        Some(VersionPart::Major)
    } else if v == "minor"@ {
        Some(VersionPart::Minor)
    } else if v == "patch"@ {
        Some(VersionPart::Patch)
    } else {
        None
    }
}

fn first_value(v: &Vec<String>) -> (r: Option<String>)
    ensures
        opt_text(r) == opt_value(views(v@)),
{
    if v.len() > 0 {
        Some(v[0].clone())
    } else {
        None
    }
}

fn value_or_default(v: &Vec<String>, default: &str) -> (r: String)
    ensures
        r@ == value_or(views(v@), default@),
{
    if v.len() > 0 {
        v[0].clone()
    } else {
        string_from(chars_of(default).as_slice())
    }
}

fn all_values(v: &Vec<String>) -> (r: Vec<String>)
    ensures
        views(r@) == views(v@),
{
    let mut r: Vec<String> = Vec::new();
    let mut i: usize = 0;
    while i < v.len()
        invariant
            i <= v@.len(),
            views(r@) == views(v@).take(i as int),
        decreases v.len() - i,
    {
        let ghost before = r@;
        r.push(v[i].clone());
        assert(views(r@) =~= views(before).push(v@[i as int]@));
        assert(views(v@).take(i + 1) =~= views(v@).take(i as int).push(v@[i as int]@));
        i = i + 1;
    }
    assert(views(v@).take(v@.len() as int) =~= views(v@));
    r
}

fn lit(s: &str) -> (r: String)
    ensures
        r@ == s@,
{
    string_from(chars_of(s).as_slice())
}

fn opt(long: &'static str, short: Option<char>, takes_value: bool, multiple: bool) -> (r: OptSpec)
    ensures
        r.long == long && r.short == short && r.takes_value == takes_value && r.multiple == multiple,
{
    OptSpec { long, short, takes_value, multiple }
}

/// The first positional argument a command without positionals rejects.
pub open spec fn stray_positional(p: Parsed) -> Option<ArgErrorView> {
    if p.positionals.len() > 0 { Some(ArgErrorView::UnexpectedPositional(p.positionals[0])) } else { None }
}

/// The arguments of a command that takes No options at all.
#[derive(Debug, Clone)]
pub struct NoArgs {
}

/// The option table of `NoArgs`.
pub open spec fn no_args_specs() -> Seq<OptView> {
    Seq::empty()
}

fn no_args_table() -> (r: Vec<OptSpec>)
    ensures
        opt_views(r@) == no_args_specs(),
{
    let mut r: Vec<OptSpec> = Vec::new();
    assert(opt_views(r@) =~= no_args_specs());
    r
}

/// Why the options read for `NoArgs` are refused, if they are.
pub open spec fn no_args_problem(p: Parsed) -> Option<ArgErrorView> {
    if p.positionals.len() > 0 {
        Some(ArgErrorView::UnexpectedPositional(p.positionals[0]))
    }
    else {
        None
    }
}

/// The fields of `NoArgs` the options give.
pub open spec fn no_args_fields(p: Parsed, a: NoArgs) -> bool {
    true
}

/// Reads the arguments of `NoArgs`; `Ok(None)` when help was asked for.
pub fn parse_no_args(tokens: &Vec<String>) -> (r: Result<Option<NoArgs>, ArgError>)
    ensures
        match parse_tokens(views(tokens@), no_args_specs()) {
            Err(e) => r matches Err(x) && x@ == e,
            Ok(None) => r matches Ok(None),
            Ok(Some(p)) => match no_args_problem(p) {
                Some(e) => r matches Err(x) && x@ == e,
                None => r matches Ok(Some(a)) && no_args_fields(p, a),
            },
        },
{
    let table = no_args_table();
    proof {
        lemma_parse_len(views(tokens@), no_args_specs());
    }
    let p = match parse_options(tokens, &table) {
        Err(e) => {
            return Err(e);
        },
        Ok(None) => {
            return Ok(None);
        },
        Ok(Some(p)) => p,
    };
    let ghost pv = parsed_view(p);
    assert(p.values@.len() == pv.values.len());
    assert(views(p.positionals@) == pv.positionals);
    if p.positionals.len() > 0 {
        return Err(ArgError::UnexpectedPositional(p.positionals[0].clone()));
    }
    Ok(Some(NoArgs {  }))
}

/// The arguments of a command that takes The version to set, as the one positional argument.
#[derive(Debug, Clone)]
pub struct VersionSetArgs {
    pub version: String,
}

/// The option table of `VersionSetArgs`.
pub open spec fn version_set_args_specs() -> Seq<OptView> {
    Seq::empty()
}

fn version_set_args_table() -> (r: Vec<OptSpec>)
    ensures
        opt_views(r@) == version_set_args_specs(),
{
    let mut r: Vec<OptSpec> = Vec::new();
    assert(opt_views(r@) =~= version_set_args_specs());
    r
}

/// Why the options read for `VersionSetArgs` are refused, if they are.
pub open spec fn version_set_args_problem(p: Parsed) -> Option<ArgErrorView> {
    if p.positionals.len() == 0 {
        Some(ArgErrorView::MissingPositional("<VERSION>"@))
    }
    else if p.positionals.len() > 1 {
        Some(ArgErrorView::UnexpectedPositional(p.positionals[1]))
    }
    else {
        None
    }
}

/// The fields of `VersionSetArgs` the options give.
pub open spec fn version_set_args_fields(p: Parsed, a: VersionSetArgs) -> bool {
    a.version@ == p.positionals[0]
}

/// Reads the arguments of `VersionSetArgs`; `Ok(None)` when help was asked for.
pub fn parse_version_set_args(tokens: &Vec<String>) -> (r: Result<Option<VersionSetArgs>, ArgError>)
    ensures
        match parse_tokens(views(tokens@), version_set_args_specs()) {
            Err(e) => r matches Err(x) && x@ == e,
            Ok(None) => r matches Ok(None),
            Ok(Some(p)) => match version_set_args_problem(p) {
                Some(e) => r matches Err(x) && x@ == e,
                None => r matches Ok(Some(a)) && version_set_args_fields(p, a),
            },
        },
{
    let table = version_set_args_table();
    proof {
        lemma_parse_len(views(tokens@), version_set_args_specs());
    }
    let p = match parse_options(tokens, &table) {
        Err(e) => {
            return Err(e);
        },
        Ok(None) => {
            return Ok(None);
        },
        Ok(Some(p)) => p,
    };
    let ghost pv = parsed_view(p);
    assert(p.values@.len() == pv.values.len());
    assert(views(p.positionals@) == pv.positionals);
    if p.positionals.len() == 0 {
        return Err(ArgError::MissingPositional(string_from(chars_of("<VERSION>").as_slice())));
    }
    if p.positionals.len() > 1 {
        return Err(ArgError::UnexpectedPositional(p.positionals[1].clone()));
    }
    Ok(Some(VersionSetArgs { version: p.positionals[0].clone() }))
}

/// The arguments of a command that takes `--part <major|minor|patch>`, required.
#[derive(Debug, Clone)]
pub struct VersionBumpArgs {
    pub part: VersionPart,
}

/// The option table of `VersionBumpArgs`.
pub open spec fn version_bump_args_specs() -> Seq<OptView> {
    seq![OptView { long: "part"@, short: None, takes_value: true, multiple: false }]
}

fn version_bump_args_table() -> (r: Vec<OptSpec>)
    ensures
        opt_views(r@) == version_bump_args_specs(),
{
    let mut r: Vec<OptSpec> = Vec::new();
    r.push(opt("part", None, true, false));
    assert(opt_views(r@) =~= version_bump_args_specs());
    r
}

/// Why the options read for `VersionBumpArgs` are refused, if they are.
pub open spec fn version_bump_args_problem(p: Parsed) -> Option<ArgErrorView> {
    if p.positionals.len() > 0 {
        Some(ArgErrorView::UnexpectedPositional(p.positionals[0]))
    }
    else if p.values[0].len() == 0 {
        Some(ArgErrorView::MissingRequired("--part"@))
    }
    else if part_named(p.values[0][0]) is None {
        Some(ArgErrorView::InvalidValue("--part"@, p.values[0][0]))
    }
    else {
        None
    }
}

/// The fields of `VersionBumpArgs` the options give.
pub open spec fn version_bump_args_fields(p: Parsed, a: VersionBumpArgs) -> bool {
    Some(a.part) == part_named(p.values[0][0])
}

/// Reads the arguments of `VersionBumpArgs`; `Ok(None)` when help was asked for.
pub fn parse_version_bump_args(tokens: &Vec<String>) -> (r: Result<Option<VersionBumpArgs>, ArgError>)
    ensures
        match parse_tokens(views(tokens@), version_bump_args_specs()) {
            Err(e) => r matches Err(x) && x@ == e,
            Ok(None) => r matches Ok(None),
            Ok(Some(p)) => match version_bump_args_problem(p) {
                Some(e) => r matches Err(x) && x@ == e,
                None => r matches Ok(Some(a)) && version_bump_args_fields(p, a),
            },
        },
{
    let table = version_bump_args_table();
    proof {
        lemma_parse_len(views(tokens@), version_bump_args_specs());
    }
    let p = match parse_options(tokens, &table) {
        Err(e) => {
            return Err(e);
        },
        Ok(None) => {
            return Ok(None);
        },
        Ok(Some(p)) => p,
    };
    let ghost pv = parsed_view(p);
    assert(p.values@.len() == pv.values.len());
    assert(views(p.positionals@) == pv.positionals);
    assert(views(p.values@[0]@) == pv.values[0]);
    if p.positionals.len() > 0 {
        return Err(ArgError::UnexpectedPositional(p.positionals[0].clone()));
    }
    if p.values[0].len() == 0 {
        return Err(ArgError::MissingRequired(lit("--part")));
    }
    let part_text = p.values[0][0].as_str();
    let part = match crate::repo_config::parse_version_part(part_text) {
        Some(x) => x,
        None => {
            return Err(ArgError::InvalidValue(lit("--part"), p.values[0][0].clone()));
        },
    };
    Ok(Some(VersionBumpArgs { part }))
}

/// The arguments of a command that takes `--configuration` (default `Release`) and `--msvc-env`.
#[derive(Debug, Clone)]
pub struct StageNativeArgs {
    pub configuration: String,
    pub msvc_env: bool,
}

/// The option table of `StageNativeArgs`.
pub open spec fn stage_native_args_specs() -> Seq<OptView> {
    seq![OptView { long: "configuration"@, short: None, takes_value: true, multiple: false }, OptView { long: "msvc-env"@, short: None, takes_value: false, multiple: false }]
}

fn stage_native_args_table() -> (r: Vec<OptSpec>)
    ensures
        opt_views(r@) == stage_native_args_specs(),
{
    let mut r: Vec<OptSpec> = Vec::new();
    r.push(opt("configuration", None, true, false));
    r.push(opt("msvc-env", None, false, false));
    assert(opt_views(r@) =~= stage_native_args_specs());
    r
}

/// Why the options read for `StageNativeArgs` are refused, if they are.
pub open spec fn stage_native_args_problem(p: Parsed) -> Option<ArgErrorView> {
    if p.positionals.len() > 0 {
        Some(ArgErrorView::UnexpectedPositional(p.positionals[0]))
    }
    else {
        None
    }
}

/// The fields of `StageNativeArgs` the options give.
pub open spec fn stage_native_args_fields(p: Parsed, a: StageNativeArgs) -> bool {
    a.configuration@ == value_or(p.values[0], "Release"@)
    && a.msvc_env == switched(p.values[1])
}

/// Reads the arguments of `StageNativeArgs`; `Ok(None)` when help was asked for.
pub fn parse_stage_native_args(tokens: &Vec<String>) -> (r: Result<Option<StageNativeArgs>, ArgError>)
    ensures
        match parse_tokens(views(tokens@), stage_native_args_specs()) {
            Err(e) => r matches Err(x) && x@ == e,
            Ok(None) => r matches Ok(None),
            Ok(Some(p)) => match stage_native_args_problem(p) {
                Some(e) => r matches Err(x) && x@ == e,
                None => r matches Ok(Some(a)) && stage_native_args_fields(p, a),
            },
        },
{
    let table = stage_native_args_table();
    proof {
        lemma_parse_len(views(tokens@), stage_native_args_specs());
    }
    let p = match parse_options(tokens, &table) {
        Err(e) => {
            return Err(e);
        },
        Ok(None) => {
            return Ok(None);
        },
        Ok(Some(p)) => p,
    };
    let ghost pv = parsed_view(p);
    assert(p.values@.len() == pv.values.len());
    assert(views(p.positionals@) == pv.positionals);
    assert(views(p.values@[0]@) == pv.values[0]);
    assert(views(p.values@[1]@) == pv.values[1]);
    if p.positionals.len() > 0 {
        return Err(ArgError::UnexpectedPositional(p.positionals[0].clone()));
    }
    Ok(Some(StageNativeArgs { configuration: value_or_default(&p.values[0], "Release"), msvc_env: p.values[1].len() > 0 }))
}

/// The arguments of a command that takes `--output` (required) and any number of `--input`.
#[derive(Debug, Clone)]
pub struct NativeMergeArgs {
    pub output: String,
    pub input: Vec<String>,
}

/// The option table of `NativeMergeArgs`.
pub open spec fn native_merge_args_specs() -> Seq<OptView> {
    seq![OptView { long: "output"@, short: None, takes_value: true, multiple: false }, OptView { long: "input"@, short: None, takes_value: true, multiple: true }]
}

fn native_merge_args_table() -> (r: Vec<OptSpec>)
    ensures
        opt_views(r@) == native_merge_args_specs(),
{
    let mut r: Vec<OptSpec> = Vec::new();
    r.push(opt("output", None, true, false));
    r.push(opt("input", None, true, true));
    assert(opt_views(r@) =~= native_merge_args_specs());
    r
}

/// Why the options read for `NativeMergeArgs` are refused, if they are.
pub open spec fn native_merge_args_problem(p: Parsed) -> Option<ArgErrorView> {
    if p.positionals.len() > 0 {
        Some(ArgErrorView::UnexpectedPositional(p.positionals[0]))
    }
    else if p.values[0].len() == 0 {
        Some(ArgErrorView::MissingRequired("--output"@))
    }
    else {
        None
    }
}

/// The fields of `NativeMergeArgs` the options give.
pub open spec fn native_merge_args_fields(p: Parsed, a: NativeMergeArgs) -> bool {
    a.output@ == p.values[0][0]
    && views(a.input@) == p.values[1]
}

/// Reads the arguments of `NativeMergeArgs`; `Ok(None)` when help was asked for.
pub fn parse_native_merge_args(tokens: &Vec<String>) -> (r: Result<Option<NativeMergeArgs>, ArgError>)
    ensures
        match parse_tokens(views(tokens@), native_merge_args_specs()) {
            Err(e) => r matches Err(x) && x@ == e,
            Ok(None) => r matches Ok(None),
            Ok(Some(p)) => match native_merge_args_problem(p) {
                Some(e) => r matches Err(x) && x@ == e,
                None => r matches Ok(Some(a)) && native_merge_args_fields(p, a),
            },
        },
{
    let table = native_merge_args_table();
    proof {
        lemma_parse_len(views(tokens@), native_merge_args_specs());
    }
    let p = match parse_options(tokens, &table) {
        Err(e) => {
            return Err(e);
        },
        Ok(None) => {
            return Ok(None);
        },
        Ok(Some(p)) => p,
    };
    let ghost pv = parsed_view(p);
    assert(p.values@.len() == pv.values.len());
    assert(views(p.positionals@) == pv.positionals);
    assert(views(p.values@[0]@) == pv.values[0]);
    assert(views(p.values@[1]@) == pv.values[1]);
    if p.positionals.len() > 0 {
        return Err(ArgError::UnexpectedPositional(p.positionals[0].clone()));
    }
    if p.values[0].len() == 0 {
        return Err(ArgError::MissingRequired(lit("--output")));
    }
    Ok(Some(NativeMergeArgs { output: p.values[0][0].clone(), input: all_values(&p.values[1]) }))
}

/// The arguments of a command that takes `--check`.
#[derive(Debug, Clone)]
pub struct QualityFmtArgs {
    pub check: bool,
}

/// The option table of `QualityFmtArgs`.
pub open spec fn quality_fmt_args_specs() -> Seq<OptView> {
    seq![OptView { long: "check"@, short: None, takes_value: false, multiple: false }]
}

fn quality_fmt_args_table() -> (r: Vec<OptSpec>)
    ensures
        opt_views(r@) == quality_fmt_args_specs(),
{
    let mut r: Vec<OptSpec> = Vec::new();
    r.push(opt("check", None, false, false));
    assert(opt_views(r@) =~= quality_fmt_args_specs());
    r
}

/// Why the options read for `QualityFmtArgs` are refused, if they are.
pub open spec fn quality_fmt_args_problem(p: Parsed) -> Option<ArgErrorView> {
    if p.positionals.len() > 0 {
        Some(ArgErrorView::UnexpectedPositional(p.positionals[0]))
    }
    else {
        None
    }
}

/// The fields of `QualityFmtArgs` the options give.
pub open spec fn quality_fmt_args_fields(p: Parsed, a: QualityFmtArgs) -> bool {
    a.check == switched(p.values[0])
}

/// Reads the arguments of `QualityFmtArgs`; `Ok(None)` when help was asked for.
pub fn parse_quality_fmt_args(tokens: &Vec<String>) -> (r: Result<Option<QualityFmtArgs>, ArgError>)
    ensures
        match parse_tokens(views(tokens@), quality_fmt_args_specs()) {
            Err(e) => r matches Err(x) && x@ == e,
            Ok(None) => r matches Ok(None),
            Ok(Some(p)) => match quality_fmt_args_problem(p) {
                Some(e) => r matches Err(x) && x@ == e,
                None => r matches Ok(Some(a)) && quality_fmt_args_fields(p, a),
            },
        },
{
    let table = quality_fmt_args_table();
    proof {
        lemma_parse_len(views(tokens@), quality_fmt_args_specs());
    }
    let p = match parse_options(tokens, &table) {
        Err(e) => {
            return Err(e);
        },
        Ok(None) => {
            return Ok(None);
        },
        Ok(Some(p)) => p,
    };
    let ghost pv = parsed_view(p);
    assert(p.values@.len() == pv.values.len());
    assert(views(p.positionals@) == pv.positionals);
    assert(views(p.values@[0]@) == pv.values[0]);
    if p.positionals.len() > 0 {
        return Err(ArgError::UnexpectedPositional(p.positionals[0].clone()));
    }
    Ok(Some(QualityFmtArgs { check: p.values[0].len() > 0 }))
}

/// The arguments of a command that takes `--skip-docs` and `--skip-dotnet`.
#[derive(Debug, Clone)]
pub struct QualityRunArgs {
    pub skip_docs: bool,
    pub skip_dotnet: bool,
}

/// The option table of `QualityRunArgs`.
pub open spec fn quality_run_args_specs() -> Seq<OptView> {
    seq![OptView { long: "skip-docs"@, short: None, takes_value: false, multiple: false }, OptView { long: "skip-dotnet"@, short: None, takes_value: false, multiple: false }]
}

fn quality_run_args_table() -> (r: Vec<OptSpec>)
    ensures
        opt_views(r@) == quality_run_args_specs(),
{
    let mut r: Vec<OptSpec> = Vec::new();
    r.push(opt("skip-docs", None, false, false));
    r.push(opt("skip-dotnet", None, false, false));
    assert(opt_views(r@) =~= quality_run_args_specs());
    r
}

/// Why the options read for `QualityRunArgs` are refused, if they are.
pub open spec fn quality_run_args_problem(p: Parsed) -> Option<ArgErrorView> {
    if p.positionals.len() > 0 {
        Some(ArgErrorView::UnexpectedPositional(p.positionals[0]))
    }
    else {
        None
    }
}

/// The fields of `QualityRunArgs` the options give.
pub open spec fn quality_run_args_fields(p: Parsed, a: QualityRunArgs) -> bool {
    a.skip_docs == switched(p.values[0])
    && a.skip_dotnet == switched(p.values[1])
}

/// Reads the arguments of `QualityRunArgs`; `Ok(None)` when help was asked for.
pub fn parse_quality_run_args(tokens: &Vec<String>) -> (r: Result<Option<QualityRunArgs>, ArgError>)
    ensures
        match parse_tokens(views(tokens@), quality_run_args_specs()) {
            Err(e) => r matches Err(x) && x@ == e,
            Ok(None) => r matches Ok(None),
            Ok(Some(p)) => match quality_run_args_problem(p) {
                Some(e) => r matches Err(x) && x@ == e,
                None => r matches Ok(Some(a)) && quality_run_args_fields(p, a),
            },
        },
{
    let table = quality_run_args_table();
    proof {
        lemma_parse_len(views(tokens@), quality_run_args_specs());
    }
    let p = match parse_options(tokens, &table) {
        Err(e) => {
            return Err(e);
        },
        Ok(None) => {
            return Ok(None);
        },
        Ok(Some(p)) => p,
    };
    let ghost pv = parsed_view(p);
    assert(p.values@.len() == pv.values.len());
    assert(views(p.positionals@) == pv.positionals);
    assert(views(p.values@[0]@) == pv.values[0]);
    assert(views(p.values@[1]@) == pv.values[1]);
    if p.positionals.len() > 0 {
        return Err(ArgError::UnexpectedPositional(p.positionals[0].clone()));
    }
    Ok(Some(QualityRunArgs { skip_docs: p.values[0].len() > 0, skip_dotnet: p.values[1].len() > 0 }))
}

/// The arguments of a command that takes `--configuration` (default `Release`), `--version`, `--native-stage`.
#[derive(Debug, Clone)]
pub struct PackageArgs {
    pub configuration: String,
    pub version: Option<String>,
    pub native_stage: Option<String>,
}

/// The option table of `PackageArgs`.
pub open spec fn package_args_specs() -> Seq<OptView> {
    seq![OptView { long: "configuration"@, short: None, takes_value: true, multiple: false }, OptView { long: "version"@, short: None, takes_value: true, multiple: false }, OptView { long: "native-stage"@, short: None, takes_value: true, multiple: false }]
}

fn package_args_table() -> (r: Vec<OptSpec>)
    ensures
        opt_views(r@) == package_args_specs(),
{
    let mut r: Vec<OptSpec> = Vec::new();
    r.push(opt("configuration", None, true, false));
    r.push(opt("version", None, true, false));
    r.push(opt("native-stage", None, true, false));
    assert(opt_views(r@) =~= package_args_specs());
    r
}

/// Why the options read for `PackageArgs` are refused, if they are.
pub open spec fn package_args_problem(p: Parsed) -> Option<ArgErrorView> {
    if p.positionals.len() > 0 {
        Some(ArgErrorView::UnexpectedPositional(p.positionals[0]))
    }
    else {
        None
    }
}

/// The fields of `PackageArgs` the options give.
pub open spec fn package_args_fields(p: Parsed, a: PackageArgs) -> bool {
    a.configuration@ == value_or(p.values[0], "Release"@)
    && opt_text(a.version) == opt_value(p.values[1])
    && opt_text(a.native_stage) == opt_value(p.values[2])
}

/// Reads the arguments of `PackageArgs`; `Ok(None)` when help was asked for.
pub fn parse_package_args(tokens: &Vec<String>) -> (r: Result<Option<PackageArgs>, ArgError>)
    ensures
        match parse_tokens(views(tokens@), package_args_specs()) {
            Err(e) => r matches Err(x) && x@ == e,
            Ok(None) => r matches Ok(None),
            Ok(Some(p)) => match package_args_problem(p) {
                Some(e) => r matches Err(x) && x@ == e,
                None => r matches Ok(Some(a)) && package_args_fields(p, a),
            },
        },
{
    let table = package_args_table();
    proof {
        lemma_parse_len(views(tokens@), package_args_specs());
    }
    let p = match parse_options(tokens, &table) {
        Err(e) => {
            return Err(e);
        },
        Ok(None) => {
            return Ok(None);
        },
        Ok(Some(p)) => p,
    };
    let ghost pv = parsed_view(p);
    assert(p.values@.len() == pv.values.len());
    assert(views(p.positionals@) == pv.positionals);
    assert(views(p.values@[0]@) == pv.values[0]);
    assert(views(p.values@[1]@) == pv.values[1]);
    assert(views(p.values@[2]@) == pv.values[2]);
    if p.positionals.len() > 0 {
        return Err(ArgError::UnexpectedPositional(p.positionals[0].clone()));
    }
    Ok(Some(PackageArgs { configuration: value_or_default(&p.values[0], "Release"), version: first_value(&p.values[1]), native_stage: first_value(&p.values[2]) }))
}

/// The arguments of a command that takes `--configuration` (default `Release`), `--version`, `--source`, `--api-key-env`, `--dry-run`, `--execute`.
#[derive(Debug, Clone)]
pub struct PublishArgs {
    pub configuration: String,
    pub version: Option<String>,
    pub source: Option<String>,
    pub api_key_env: Option<String>,
    pub dry_run: bool,
    pub execute: bool,
}

/// The option table of `PublishArgs`.
pub open spec fn publish_args_specs() -> Seq<OptView> {
    seq![OptView { long: "configuration"@, short: None, takes_value: true, multiple: false }, OptView { long: "version"@, short: None, takes_value: true, multiple: false }, OptView { long: "source"@, short: None, takes_value: true, multiple: false }, OptView { long: "api-key-env"@, short: None, takes_value: true, multiple: false }, OptView { long: "dry-run"@, short: None, takes_value: false, multiple: false }, OptView { long: "execute"@, short: None, takes_value: false, multiple: false }]
}

fn publish_args_table() -> (r: Vec<OptSpec>)
    ensures
        opt_views(r@) == publish_args_specs(),
{
    let mut r: Vec<OptSpec> = Vec::new();
    r.push(opt("configuration", None, true, false));
    r.push(opt("version", None, true, false));
    r.push(opt("source", None, true, false));
    r.push(opt("api-key-env", None, true, false));
    r.push(opt("dry-run", None, false, false));
    r.push(opt("execute", None, false, false));
    assert(opt_views(r@) =~= publish_args_specs());
    r
}

/// Why the options read for `PublishArgs` are refused, if they are.
pub open spec fn publish_args_problem(p: Parsed) -> Option<ArgErrorView> {
    if p.positionals.len() > 0 {
        Some(ArgErrorView::UnexpectedPositional(p.positionals[0]))
    }
    else {
        None
    }
}

/// The fields of `PublishArgs` the options give.
pub open spec fn publish_args_fields(p: Parsed, a: PublishArgs) -> bool {
    a.configuration@ == value_or(p.values[0], "Release"@)
    && opt_text(a.version) == opt_value(p.values[1])
    && opt_text(a.source) == opt_value(p.values[2])
    && opt_text(a.api_key_env) == opt_value(p.values[3])
    && a.dry_run == switched(p.values[4])
    && a.execute == switched(p.values[5])
}

/// Reads the arguments of `PublishArgs`; `Ok(None)` when help was asked for.
pub fn parse_publish_args(tokens: &Vec<String>) -> (r: Result<Option<PublishArgs>, ArgError>)
    ensures
        match parse_tokens(views(tokens@), publish_args_specs()) {
            Err(e) => r matches Err(x) && x@ == e,
            Ok(None) => r matches Ok(None),
            Ok(Some(p)) => match publish_args_problem(p) {
                Some(e) => r matches Err(x) && x@ == e,
                None => r matches Ok(Some(a)) && publish_args_fields(p, a),
            },
        },
{
    let table = publish_args_table();
    proof {
        lemma_parse_len(views(tokens@), publish_args_specs());
    }
    let p = match parse_options(tokens, &table) {
        Err(e) => {
            return Err(e);
        },
        Ok(None) => {
            return Ok(None);
        },
        Ok(Some(p)) => p,
    };
    let ghost pv = parsed_view(p);
    assert(p.values@.len() == pv.values.len());
    assert(views(p.positionals@) == pv.positionals);
    assert(views(p.values@[0]@) == pv.values[0]);
    assert(views(p.values@[1]@) == pv.values[1]);
    assert(views(p.values@[2]@) == pv.values[2]);
    assert(views(p.values@[3]@) == pv.values[3]);
    assert(views(p.values@[4]@) == pv.values[4]);
    assert(views(p.values@[5]@) == pv.values[5]);
    if p.positionals.len() > 0 {
        return Err(ArgError::UnexpectedPositional(p.positionals[0].clone()));
    }
    Ok(Some(PublishArgs { configuration: value_or_default(&p.values[0], "Release"), version: first_value(&p.values[1]), source: first_value(&p.values[2]), api_key_env: first_value(&p.values[3]), dry_run: p.values[4].len() > 0, execute: p.values[5].len() > 0 }))
}

/// The arguments of a command that takes `--configuration` (default `Release`), `--source`, `--api-key-env`, `--dry-run`, `--skip-cargo`, `--skip-nuget`, `--native-stage`, `--prepacked-nuget`, `--verify-package`.
#[derive(Debug, Clone)]
pub struct ReleaseRunArgs {
    pub configuration: String,
    pub source: Option<String>,
    pub api_key_env: Option<String>,
    pub dry_run: bool,
    pub skip_cargo: bool,
    pub skip_nuget: bool,
    pub native_stage: Option<String>,
    pub prepacked_nuget: Option<String>,
    pub verify_package: bool,
}

/// The option table of `ReleaseRunArgs`.
pub open spec fn release_run_args_specs() -> Seq<OptView> {
    seq![OptView { long: "configuration"@, short: None, takes_value: true, multiple: false }, OptView { long: "source"@, short: None, takes_value: true, multiple: false }, OptView { long: "api-key-env"@, short: None, takes_value: true, multiple: false }, OptView { long: "dry-run"@, short: None, takes_value: false, multiple: false }, OptView { long: "skip-cargo"@, short: None, takes_value: false, multiple: false }, OptView { long: "skip-nuget"@, short: None, takes_value: false, multiple: false }, OptView { long: "native-stage"@, short: None, takes_value: true, multiple: false }, OptView { long: "prepacked-nuget"@, short: None, takes_value: true, multiple: false }, OptView { long: "verify-package"@, short: None, takes_value: false, multiple: false }]
}

fn release_run_args_table() -> (r: Vec<OptSpec>)
    ensures
        opt_views(r@) == release_run_args_specs(),
{
    let mut r: Vec<OptSpec> = Vec::new();
    r.push(opt("configuration", None, true, false));
    r.push(opt("source", None, true, false));
    r.push(opt("api-key-env", None, true, false));
    r.push(opt("dry-run", None, false, false));
    r.push(opt("skip-cargo", None, false, false));
    r.push(opt("skip-nuget", None, false, false));
    r.push(opt("native-stage", None, true, false));
    r.push(opt("prepacked-nuget", None, true, false));
    r.push(opt("verify-package", None, false, false));
    assert(opt_views(r@) =~= release_run_args_specs());
    r
}

/// Why the options read for `ReleaseRunArgs` are refused, if they are.
pub open spec fn release_run_args_problem(p: Parsed) -> Option<ArgErrorView> {
    if p.positionals.len() > 0 {
        Some(ArgErrorView::UnexpectedPositional(p.positionals[0]))
    }
    else {
        None
    }
}

/// The fields of `ReleaseRunArgs` the options give.
pub open spec fn release_run_args_fields(p: Parsed, a: ReleaseRunArgs) -> bool {
    a.configuration@ == value_or(p.values[0], "Release"@)
    && opt_text(a.source) == opt_value(p.values[1])
    && opt_text(a.api_key_env) == opt_value(p.values[2])
    && a.dry_run == switched(p.values[3])
    && a.skip_cargo == switched(p.values[4])
    && a.skip_nuget == switched(p.values[5])
    && opt_text(a.native_stage) == opt_value(p.values[6])
    && opt_text(a.prepacked_nuget) == opt_value(p.values[7])
    && a.verify_package == switched(p.values[8])
}

/// Reads the arguments of `ReleaseRunArgs`; `Ok(None)` when help was asked for.
pub fn parse_release_run_args(tokens: &Vec<String>) -> (r: Result<Option<ReleaseRunArgs>, ArgError>)
    ensures
        match parse_tokens(views(tokens@), release_run_args_specs()) {
            Err(e) => r matches Err(x) && x@ == e,
            Ok(None) => r matches Ok(None),
            Ok(Some(p)) => match release_run_args_problem(p) {
                Some(e) => r matches Err(x) && x@ == e,
                None => r matches Ok(Some(a)) && release_run_args_fields(p, a),
            },
        },
{
    let table = release_run_args_table();
    proof {
        lemma_parse_len(views(tokens@), release_run_args_specs());
    }
    let p = match parse_options(tokens, &table) {
        Err(e) => {
            return Err(e);
        },
        Ok(None) => {
            return Ok(None);
        },
        Ok(Some(p)) => p,
    };
    let ghost pv = parsed_view(p);
    assert(p.values@.len() == pv.values.len());
    assert(views(p.positionals@) == pv.positionals);
    assert(views(p.values@[0]@) == pv.values[0]);
    assert(views(p.values@[1]@) == pv.values[1]);
    assert(views(p.values@[2]@) == pv.values[2]);
    assert(views(p.values@[3]@) == pv.values[3]);
    assert(views(p.values@[4]@) == pv.values[4]);
    assert(views(p.values@[5]@) == pv.values[5]);
    assert(views(p.values@[6]@) == pv.values[6]);
    assert(views(p.values@[7]@) == pv.values[7]);
    assert(views(p.values@[8]@) == pv.values[8]);
    if p.positionals.len() > 0 {
        return Err(ArgError::UnexpectedPositional(p.positionals[0].clone()));
    }
    Ok(Some(ReleaseRunArgs { configuration: value_or_default(&p.values[0], "Release"), source: first_value(&p.values[1]), api_key_env: first_value(&p.values[2]), dry_run: p.values[3].len() > 0, skip_cargo: p.values[4].len() > 0, skip_nuget: p.values[5].len() > 0, native_stage: first_value(&p.values[6]), prepacked_nuget: first_value(&p.values[7]), verify_package: p.values[8].len() > 0 }))
}

/// The arguments of a command that takes `-o`/`--output`.
#[derive(Debug, Clone)]
pub struct OutputArg {
    pub output: Option<String>,
}

/// The option table of `OutputArg`.
pub open spec fn output_arg_specs() -> Seq<OptView> {
    seq![OptView { long: "output"@, short: Some('o'), takes_value: true, multiple: false }]
}

fn output_arg_table() -> (r: Vec<OptSpec>)
    ensures
        opt_views(r@) == output_arg_specs(),
{
    let mut r: Vec<OptSpec> = Vec::new();
    r.push(opt("output", Some('o'), true, false));
    assert(opt_views(r@) =~= output_arg_specs());
    r
}

/// Why the options read for `OutputArg` are refused, if they are.
pub open spec fn output_arg_problem(p: Parsed) -> Option<ArgErrorView> {
    if p.positionals.len() > 0 {
        Some(ArgErrorView::UnexpectedPositional(p.positionals[0]))
    }
    else {
        None
    }
}

/// The fields of `OutputArg` the options give.
pub open spec fn output_arg_fields(p: Parsed, a: OutputArg) -> bool {
    opt_text(a.output) == opt_value(p.values[0])
}

/// Reads the arguments of `OutputArg`; `Ok(None)` when help was asked for.
pub fn parse_output_arg(tokens: &Vec<String>) -> (r: Result<Option<OutputArg>, ArgError>)
    ensures
        match parse_tokens(views(tokens@), output_arg_specs()) {
            Err(e) => r matches Err(x) && x@ == e,
            Ok(None) => r matches Ok(None),
            Ok(Some(p)) => match output_arg_problem(p) {
                Some(e) => r matches Err(x) && x@ == e,
                None => r matches Ok(Some(a)) && output_arg_fields(p, a),
            },
        },
{
    let table = output_arg_table();
    proof {
        lemma_parse_len(views(tokens@), output_arg_specs());
    }
    let p = match parse_options(tokens, &table) {
        Err(e) => {
            return Err(e);
        },
        Ok(None) => {
            return Ok(None);
        },
        Ok(Some(p)) => p,
    };
    let ghost pv = parsed_view(p);
    assert(p.values@.len() == pv.values.len());
    assert(views(p.positionals@) == pv.positionals);
    assert(views(p.values@[0]@) == pv.values[0]);
    if p.positionals.len() > 0 {
        return Err(ArgError::UnexpectedPositional(p.positionals[0].clone()));
    }
    Ok(Some(OutputArg { output: first_value(&p.values[0]) }))
}

/// The arguments of a command that takes `-i`/`--input`.
#[derive(Debug, Clone)]
pub struct InputArg {
    pub input: Option<String>,
}

/// The option table of `InputArg`.
pub open spec fn input_arg_specs() -> Seq<OptView> {
    seq![OptView { long: "input"@, short: Some('i'), takes_value: true, multiple: false }]
}

fn input_arg_table() -> (r: Vec<OptSpec>)
    ensures
        opt_views(r@) == input_arg_specs(),
{
    let mut r: Vec<OptSpec> = Vec::new();
    r.push(opt("input", Some('i'), true, false));
    assert(opt_views(r@) =~= input_arg_specs());
    r
}

/// Why the options read for `InputArg` are refused, if they are.
pub open spec fn input_arg_problem(p: Parsed) -> Option<ArgErrorView> {
    if p.positionals.len() > 0 {
        Some(ArgErrorView::UnexpectedPositional(p.positionals[0]))
    }
    else {
        None
    }
}

/// The fields of `InputArg` the options give.
pub open spec fn input_arg_fields(p: Parsed, a: InputArg) -> bool {
    opt_text(a.input) == opt_value(p.values[0])
}

/// Reads the arguments of `InputArg`; `Ok(None)` when help was asked for.
pub fn parse_input_arg(tokens: &Vec<String>) -> (r: Result<Option<InputArg>, ArgError>)
    ensures
        match parse_tokens(views(tokens@), input_arg_specs()) {
            Err(e) => r matches Err(x) && x@ == e,
            Ok(None) => r matches Ok(None),
            Ok(Some(p)) => match input_arg_problem(p) {
                Some(e) => r matches Err(x) && x@ == e,
                None => r matches Ok(Some(a)) && input_arg_fields(p, a),
            },
        },
{
    let table = input_arg_table();
    proof {
        lemma_parse_len(views(tokens@), input_arg_specs());
    }
    let p = match parse_options(tokens, &table) {
        Err(e) => {
            return Err(e);
        },
        Ok(None) => {
            return Ok(None);
        },
        Ok(Some(p)) => p,
    };
    let ghost pv = parsed_view(p);
    assert(p.values@.len() == pv.values.len());
    assert(views(p.positionals@) == pv.positionals);
    assert(views(p.values@[0]@) == pv.values[0]);
    if p.positionals.len() > 0 {
        return Err(ArgError::UnexpectedPositional(p.positionals[0].clone()));
    }
    Ok(Some(InputArg { input: first_value(&p.values[0]) }))
}

/// The arguments of a command that takes `-i`/`--input` and `-o`/`--output`.
#[derive(Debug, Clone)]
pub struct InputOutputArgs {
    pub input: Option<String>,
    pub output: Option<String>,
}

/// The option table of `InputOutputArgs`.
pub open spec fn input_output_args_specs() -> Seq<OptView> {
    seq![OptView { long: "input"@, short: Some('i'), takes_value: true, multiple: false }, OptView { long: "output"@, short: Some('o'), takes_value: true, multiple: false }]
}

fn input_output_args_table() -> (r: Vec<OptSpec>)
    ensures
        opt_views(r@) == input_output_args_specs(),
{
    let mut r: Vec<OptSpec> = Vec::new();
    r.push(opt("input", Some('i'), true, false));
    r.push(opt("output", Some('o'), true, false));
    assert(opt_views(r@) =~= input_output_args_specs());
    r
}

/// Why the options read for `InputOutputArgs` are refused, if they are.
pub open spec fn input_output_args_problem(p: Parsed) -> Option<ArgErrorView> {
    if p.positionals.len() > 0 {
        Some(ArgErrorView::UnexpectedPositional(p.positionals[0]))
    }
    else {
        None
    }
}

/// The fields of `InputOutputArgs` the options give.
pub open spec fn input_output_args_fields(p: Parsed, a: InputOutputArgs) -> bool {
    opt_text(a.input) == opt_value(p.values[0])
    && opt_text(a.output) == opt_value(p.values[1])
}

/// Reads the arguments of `InputOutputArgs`; `Ok(None)` when help was asked for.
pub fn parse_input_output_args(tokens: &Vec<String>) -> (r: Result<Option<InputOutputArgs>, ArgError>)
    ensures
        match parse_tokens(views(tokens@), input_output_args_specs()) {
            Err(e) => r matches Err(x) && x@ == e,
            Ok(None) => r matches Ok(None),
            Ok(Some(p)) => match input_output_args_problem(p) {
                Some(e) => r matches Err(x) && x@ == e,
                None => r matches Ok(Some(a)) && input_output_args_fields(p, a),
            },
        },
{
    let table = input_output_args_table();
    proof {
        lemma_parse_len(views(tokens@), input_output_args_specs());
    }
    let p = match parse_options(tokens, &table) {
        Err(e) => {
            return Err(e);
        },
        Ok(None) => {
            return Ok(None);
        },
        Ok(Some(p)) => p,
    };
    let ghost pv = parsed_view(p);
    assert(p.values@.len() == pv.values.len());
    assert(views(p.positionals@) == pv.positionals);
    assert(views(p.values@[0]@) == pv.values[0]);
    assert(views(p.values@[1]@) == pv.values[1]);
    if p.positionals.len() > 0 {
        return Err(ArgError::UnexpectedPositional(p.positionals[0].clone()));
    }
    Ok(Some(InputOutputArgs { input: first_value(&p.values[0]), output: first_value(&p.values[1]) }))
}

/// The arguments of a command that takes `--left` and `--right`, both required.
#[derive(Debug, Clone)]
pub struct VerifyDefsArgs {
    pub left: String,
    pub right: String,
}

/// The option table of `VerifyDefsArgs`.
pub open spec fn verify_defs_args_specs() -> Seq<OptView> {
    seq![OptView { long: "left"@, short: None, takes_value: true, multiple: false }, OptView { long: "right"@, short: None, takes_value: true, multiple: false }]
}

fn verify_defs_args_table() -> (r: Vec<OptSpec>)
    ensures
        opt_views(r@) == verify_defs_args_specs(),
{
    let mut r: Vec<OptSpec> = Vec::new();
    r.push(opt("left", None, true, false));
    r.push(opt("right", None, true, false));
    assert(opt_views(r@) =~= verify_defs_args_specs());
    r
}

/// Why the options read for `VerifyDefsArgs` are refused, if they are.
pub open spec fn verify_defs_args_problem(p: Parsed) -> Option<ArgErrorView> {
    if p.positionals.len() > 0 {
        Some(ArgErrorView::UnexpectedPositional(p.positionals[0]))
    }
    else if p.values[0].len() == 0 {
        Some(ArgErrorView::MissingRequired("--left"@))
    }
    else if p.values[1].len() == 0 {
        Some(ArgErrorView::MissingRequired("--right"@))
    }
    else {
        None
    }
}

/// The fields of `VerifyDefsArgs` the options give.
pub open spec fn verify_defs_args_fields(p: Parsed, a: VerifyDefsArgs) -> bool {
    a.left@ == p.values[0][0]
    && a.right@ == p.values[1][0]
}

/// Reads the arguments of `VerifyDefsArgs`; `Ok(None)` when help was asked for.
pub fn parse_verify_defs_args(tokens: &Vec<String>) -> (r: Result<Option<VerifyDefsArgs>, ArgError>)
    ensures
        match parse_tokens(views(tokens@), verify_defs_args_specs()) {
            Err(e) => r matches Err(x) && x@ == e,
            Ok(None) => r matches Ok(None),
            Ok(Some(p)) => match verify_defs_args_problem(p) {
                Some(e) => r matches Err(x) && x@ == e,
                None => r matches Ok(Some(a)) && verify_defs_args_fields(p, a),
            },
        },
{
    let table = verify_defs_args_table();
    proof {
        lemma_parse_len(views(tokens@), verify_defs_args_specs());
    }
    let p = match parse_options(tokens, &table) {
        Err(e) => {
            return Err(e);
        },
        Ok(None) => {
            return Ok(None);
        },
        Ok(Some(p)) => p,
    };
    let ghost pv = parsed_view(p);
    assert(p.values@.len() == pv.values.len());
    assert(views(p.positionals@) == pv.positionals);
    assert(views(p.values@[0]@) == pv.values[0]);
    assert(views(p.values@[1]@) == pv.values[1]);
    if p.positionals.len() > 0 {
        return Err(ArgError::UnexpectedPositional(p.positionals[0].clone()));
    }
    if p.values[0].len() == 0 {
        return Err(ArgError::MissingRequired(lit("--left")));
    }
    if p.values[1].len() == 0 {
        return Err(ArgError::MissingRequired(lit("--right")));
    }
    Ok(Some(VerifyDefsArgs { left: p.values[0][0].clone(), right: p.values[1][0].clone() }))
}

/// The arguments of a command that takes `-i`/`--input`, `-o`/`--output` and `--check`.
#[derive(Debug, Clone)]
pub struct SyncEmbeddedArgs {
    pub input: Option<String>,
    pub output: Option<String>,
    pub check: bool,
}

/// The option table of `SyncEmbeddedArgs`.
pub open spec fn sync_embedded_args_specs() -> Seq<OptView> {
    seq![OptView { long: "input"@, short: Some('i'), takes_value: true, multiple: false }, OptView { long: "output"@, short: Some('o'), takes_value: true, multiple: false }, OptView { long: "check"@, short: None, takes_value: false, multiple: false }]
}

fn sync_embedded_args_table() -> (r: Vec<OptSpec>)
    ensures
        opt_views(r@) == sync_embedded_args_specs(),
{
    let mut r: Vec<OptSpec> = Vec::new();
    r.push(opt("input", Some('i'), true, false));
    r.push(opt("output", Some('o'), true, false));
    r.push(opt("check", None, false, false));
    assert(opt_views(r@) =~= sync_embedded_args_specs());
    r
}

/// Why the options read for `SyncEmbeddedArgs` are refused, if they are.
pub open spec fn sync_embedded_args_problem(p: Parsed) -> Option<ArgErrorView> {
    if p.positionals.len() > 0 {
        Some(ArgErrorView::UnexpectedPositional(p.positionals[0]))
    }
    else {
        None
    }
}

/// The fields of `SyncEmbeddedArgs` the options give.
pub open spec fn sync_embedded_args_fields(p: Parsed, a: SyncEmbeddedArgs) -> bool {
    opt_text(a.input) == opt_value(p.values[0])
    && opt_text(a.output) == opt_value(p.values[1])
    && a.check == switched(p.values[2])
}

/// Reads the arguments of `SyncEmbeddedArgs`; `Ok(None)` when help was asked for.
pub fn parse_sync_embedded_args(tokens: &Vec<String>) -> (r: Result<Option<SyncEmbeddedArgs>, ArgError>)
    ensures
        match parse_tokens(views(tokens@), sync_embedded_args_specs()) {
            Err(e) => r matches Err(x) && x@ == e,
            Ok(None) => r matches Ok(None),
            Ok(Some(p)) => match sync_embedded_args_problem(p) {
                Some(e) => r matches Err(x) && x@ == e,
                None => r matches Ok(Some(a)) && sync_embedded_args_fields(p, a),
            },
        },
{
    let table = sync_embedded_args_table();
    proof {
        lemma_parse_len(views(tokens@), sync_embedded_args_specs());
    }
    let p = match parse_options(tokens, &table) {
        Err(e) => {
            return Err(e);
        },
        Ok(None) => {
            return Ok(None);
        },
        Ok(Some(p)) => p,
    };
    let ghost pv = parsed_view(p);
    assert(p.values@.len() == pv.values.len());
    assert(views(p.positionals@) == pv.positionals);
    assert(views(p.values@[0]@) == pv.values[0]);
    assert(views(p.values@[1]@) == pv.values[1]);
    assert(views(p.values@[2]@) == pv.values[2]);
    if p.positionals.len() > 0 {
        return Err(ArgError::UnexpectedPositional(p.positionals[0].clone()));
    }
    Ok(Some(SyncEmbeddedArgs { input: first_value(&p.values[0]), output: first_value(&p.values[1]), check: p.values[2].len() > 0 }))
}

/// The package options of `verify package` and `package pack`.
pub fn package_options(args: PackageArgs, context: &ToolContext) -> (r: PackageOptions)
    ensures
        r.configuration == args.configuration,
        r.version_override == args.version,
        r.source_override is None,
        r.api_key_env_override is None,
        r.output_dir == context.output_dir,
        !r.execute_publish,
        r.native_stage_override == args.native_stage,
        r.prepacked_nuget_override is None,
{
    PackageOptions {
        configuration: args.configuration,
        version_override: args.version,
        source_override: None,
        api_key_env_override: None,
        output_dir: context.output_dir.clone(),
        execute_publish: false,
        native_stage_override: args.native_stage,
        prepacked_nuget_override: None,
    }
}

/// The package options of a publish: `--dry-run` and `--execute` exclude each
/// other, and only `--execute` publishes.
pub fn publish_options(args: PublishArgs, context: &ToolContext) -> (r: Result<PackageOptions, ArgError>)
    ensures
        args.dry_run && args.execute ==> (r matches Err(e) && e@ == ArgErrorView::Conflict("--dry-run"@, "--execute"@)),
        !(args.dry_run && args.execute) ==> (r matches Ok(o) && {
            &&& o.configuration == args.configuration
            &&& o.version_override == args.version
            &&& o.source_override == args.source
            &&& o.api_key_env_override == args.api_key_env
            &&& o.output_dir == context.output_dir
            &&& o.execute_publish == args.execute
            &&& o.native_stage_override is None
            &&& o.prepacked_nuget_override is None
        }),
{
    if args.dry_run && args.execute {
        return Err(ArgError::Conflict(lit("--dry-run"), lit("--execute")));
    }
    Ok(PackageOptions {
        configuration: args.configuration,
        version_override: args.version,
        source_override: args.source,
        api_key_env_override: args.api_key_env,
        output_dir: context.output_dir.clone(),
        execute_publish: args.execute && !args.dry_run,
        native_stage_override: None,
        prepacked_nuget_override: None,
    })
}

/// The options of `release run`: Cargo and NuGet publish unless skipped.
pub fn release_options(args: ReleaseRunArgs, context: &ToolContext) -> (r: ReleaseOptions)
    ensures
        r.configuration == args.configuration,
        r.source_override == args.source,
        r.api_key_env_override == args.api_key_env,
        r.output_dir == context.output_dir,
        r.dry_run == args.dry_run,
        r.publish_cargo == !args.skip_cargo,
        r.publish_nuget == !args.skip_nuget,
        r.native_stage_override == args.native_stage,
        r.prepacked_nuget == args.prepacked_nuget,
        r.verify_package_on_dry_run == args.verify_package,
{
    ReleaseOptions {
        configuration: args.configuration,
        source_override: args.source,
        api_key_env_override: args.api_key_env,
        output_dir: context.output_dir.clone(),
        dry_run: args.dry_run,
        publish_cargo: !args.skip_cargo,
        publish_nuget: !args.skip_nuget,
        native_stage_override: args.native_stage,
        prepacked_nuget: args.prepacked_nuget,
        verify_package_on_dry_run: args.verify_package,
    }
}

} // verus!

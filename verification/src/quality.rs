//! The local CI checks: the cargo and dotnet command lines each check runs
//! and the order in which a full run takes them.

use vstd::prelude::*;
use crate::text::{chars_of, string_from, views};
use crate::repo_config::DharaRepoConfig;

verus! {

fn text(s: &str) -> (r: String)
    ensures
        r@ == s@,
{
    string_from(chars_of(s).as_slice())
}

/// The views of a list of command lines.
pub open spec fn command_views(v: Seq<Vec<String>>) -> Seq<Seq<Seq<char>>> {
    v.map_values(|c: Vec<String>| views(c@))
}

/// The arguments of `cargo fmt` over the workspace crates, with `--check`
/// when only checking.
pub open spec fn fmt_args(check: bool) -> Seq<Seq<char>> {
    let base = seq!["fmt"@, "-p"@, "dhara_storage_dal"@, "-p"@, "dhara_storage"@, "-p"@, "dharastorage"@, "-p"@, "dhara_tool"@];
    if check { base.push("--check"@) } else { base }
}

/// The `cargo fmt` arguments.
pub fn fmt_command_args(check: bool) -> (r: Vec<String>)
    ensures
        views(r@) == fmt_args(check),
{
    let mut args: Vec<String> = Vec::new();
    args.push(text("fmt"));
    args.push(text("-p"));
    args.push(text("dhara_storage_dal"));
    args.push(text("-p"));
    args.push(text("dhara_storage"));
    args.push(text("-p"));
    args.push(text("dharastorage"));
    args.push(text("-p"));
    args.push(text("dhara_tool"));
    if check {
        args.push(text("--check"));
    }
    assert(views(args@) =~= fmt_args(check));
    args
}

/// The `cargo clippy` invocations: the storage crate with all features, then the other crates.
pub open spec fn clippy_args() -> Seq<Seq<Seq<char>>> {
    seq![seq!["clippy"@, "-p"@, "dhara_storage"@, "--all-targets"@, "--all-features"@, "--"@, "-D"@, "warnings"@], seq!["clippy"@, "-p"@, "dhara_storage_dal"@, "-p"@, "dharastorage"@, "-p"@, "dhara_tool"@, "--all-targets"@, "--"@, "-D"@, "warnings"@]]
}

/// The `cargo` invocations of this check, in order.
pub fn clippy_args_commands() -> (r: Vec<Vec<String>>)
    ensures
        command_views(r@) == clippy_args(),
{
    let mut r: Vec<Vec<String>> = Vec::new();
    let mut c0: Vec<String> = Vec::new();
    c0.push(text("clippy"));
    c0.push(text("-p"));
    c0.push(text("dhara_storage"));
    c0.push(text("--all-targets"));
    c0.push(text("--all-features"));
    c0.push(text("--"));
    c0.push(text("-D"));
    c0.push(text("warnings"));
    assert(views(c0@) =~= seq!["clippy"@, "-p"@, "dhara_storage"@, "--all-targets"@, "--all-features"@, "--"@, "-D"@, "warnings"@]);
    r.push(c0);
    let mut c1: Vec<String> = Vec::new();
    c1.push(text("clippy"));
    c1.push(text("-p"));
    c1.push(text("dhara_storage_dal"));
    c1.push(text("-p"));
    c1.push(text("dharastorage"));
    c1.push(text("-p"));
    c1.push(text("dhara_tool"));
    c1.push(text("--all-targets"));
    c1.push(text("--"));
    c1.push(text("-D"));
    c1.push(text("warnings"));
    assert(views(c1@) =~= seq!["clippy"@, "-p"@, "dhara_storage_dal"@, "-p"@, "dharastorage"@, "-p"@, "dhara_tool"@, "--all-targets"@, "--"@, "-D"@, "warnings"@]);
    r.push(c1);
    assert(command_views(r@) =~= clippy_args());
    r
}

/// The `cargo doc` invocations: the storage crate with all features, then the other crates.
pub open spec fn doc_args() -> Seq<Seq<Seq<char>>> {
    seq![seq!["doc"@, "-p"@, "dhara_storage"@, "--no-deps"@, "--all-features"@], seq!["doc"@, "--no-deps"@, "-p"@, "dhara_storage_dal"@, "-p"@, "dharastorage"@, "-p"@, "dhara_tool"@]]
}

/// The `cargo` invocations of this check, in order.
pub fn doc_args_commands() -> (r: Vec<Vec<String>>)
    ensures
        command_views(r@) == doc_args(),
{
    let mut r: Vec<Vec<String>> = Vec::new();
    let mut c0: Vec<String> = Vec::new();
    c0.push(text("doc"));
    c0.push(text("-p"));
    c0.push(text("dhara_storage"));
    c0.push(text("--no-deps"));
    c0.push(text("--all-features"));
    assert(views(c0@) =~= seq!["doc"@, "-p"@, "dhara_storage"@, "--no-deps"@, "--all-features"@]);
    r.push(c0);
    let mut c1: Vec<String> = Vec::new();
    c1.push(text("doc"));
    c1.push(text("--no-deps"));
    c1.push(text("-p"));
    c1.push(text("dhara_storage_dal"));
    c1.push(text("-p"));
    c1.push(text("dharastorage"));
    c1.push(text("-p"));
    c1.push(text("dhara_tool"));
    assert(views(c1@) =~= seq!["doc"@, "--no-deps"@, "-p"@, "dhara_storage_dal"@, "-p"@, "dharastorage"@, "-p"@, "dhara_tool"@]);
    r.push(c1);
    assert(command_views(r@) =~= doc_args());
    r
}

/// The `cargo test` invocations, one per tested crate.
pub open spec fn test_rust_args() -> Seq<Seq<Seq<char>>> {
    seq![seq!["test"@, "-p"@, "dhara_storage"@, "--all-features"@], seq!["test"@, "-p"@, "dhara_storage_dal"@], seq!["test"@, "-p"@, "dharastorage"@]]
}

/// The `cargo` invocations of this check, in order.
pub fn test_rust_args_commands() -> (r: Vec<Vec<String>>)
    ensures
        command_views(r@) == test_rust_args(),
{
    let mut r: Vec<Vec<String>> = Vec::new();
    let mut c0: Vec<String> = Vec::new();
    c0.push(text("test"));
    c0.push(text("-p"));
    c0.push(text("dhara_storage"));
    c0.push(text("--all-features"));
    assert(views(c0@) =~= seq!["test"@, "-p"@, "dhara_storage"@, "--all-features"@]);
    r.push(c0);
    let mut c1: Vec<String> = Vec::new();
    c1.push(text("test"));
    c1.push(text("-p"));
    c1.push(text("dhara_storage_dal"));
    assert(views(c1@) =~= seq!["test"@, "-p"@, "dhara_storage_dal"@]);
    r.push(c1);
    let mut c2: Vec<String> = Vec::new();
    c2.push(text("test"));
    c2.push(text("-p"));
    c2.push(text("dharastorage"));
    assert(views(c2@) =~= seq!["test"@, "-p"@, "dharastorage"@]);
    r.push(c2);
    assert(command_views(r@) =~= test_rust_args());
    r
}

/// The `dotnet test` arguments: the configured test project.
pub fn test_dotnet_args(config: &DharaRepoConfig) -> (r: Vec<String>)
    ensures
        views(r@) == seq!["test"@, config.ci.tests_project@],
{
    let mut r: Vec<String> = Vec::new();
    r.push(text("test"));
    r.push(config.ci.tests_project.clone());
    assert(views(r@) =~= seq!["test"@, config.ci.tests_project@]);
    r
}

/// One check of a local CI run.
#[derive(Debug, Clone, Copy, PartialEq, Eq, Structural)]
pub enum QualityStep {
    FmtCheck,
    Clippy,
    Doc,
    TestRust,
    TestDotnet,
}

/// The checks of a local CI run, in order: formatting, lints, docs unless
/// skipped, Rust tests, .NET tests unless skipped.
pub open spec fn quality_steps(skip_docs: bool, skip_dotnet: bool) -> Seq<QualityStep> {
    let a = seq![QualityStep::FmtCheck, QualityStep::Clippy];
    let b = if skip_docs { a } else { a.push(QualityStep::Doc) };
    let c = b.push(QualityStep::TestRust);
    if skip_dotnet { c } else { c.push(QualityStep::TestDotnet) }
}

/// Lists the checks of a local CI run.
pub fn quality_plan(skip_docs: bool, skip_dotnet: bool) -> (r: Vec<QualityStep>)
    ensures
        r@ == quality_steps(skip_docs, skip_dotnet),
{
    let mut r: Vec<QualityStep> = Vec::new();
    r.push(QualityStep::FmtCheck);
    r.push(QualityStep::Clippy);
    if !skip_docs {
        r.push(QualityStep::Doc);
    }
    r.push(QualityStep::TestRust);
    if !skip_dotnet {
        r.push(QualityStep::TestDotnet);
    }
    assert(r@ =~= quality_steps(skip_docs, skip_dotnet));
    r
}

/// The .NET checks need the SDK: given whether `dotnet --version` ran
/// successfully, succeeds when it did and fails with the reason otherwise.
pub fn ensure_dotnet_available(dotnet_found: bool) -> (r: Result<(), String>)
    ensures
        dotnet_found <==> r is Ok,
        r matches Err(m) ==> m@ == "dotnet SDK was not found on PATH"@,
{
    if dotnet_found {
        Ok(())
    } else {
        Err(text("dotnet SDK was not found on PATH"))
    }
}

} // verus!

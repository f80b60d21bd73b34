//! Workspace path layout: joining, the default directories under the tool and
//! repository roots, and the path queries (`parent`, `file_name`, ...) that
//! the rest of the tool reads.

use vstd::prelude::*;
use crate::text::{chars_of, string_from, copy_str, chars_eq, push_all, push_str, eq_ignore_case_chars, eq_ignore_ascii_case, views};

verus! {

/// Relative path to the operator crate manifest (monorepo layout marker).
pub const TOOL_CRATE_MANIFEST_RELATIVE: &'static str = "tooling/dhara_tool/Cargo.toml";

/// Relative path from the repository root to the embedded defs output directory.
pub const EMBEDDED_DEFS_DIR_RELATIVE: &'static str = "src/core/dhara_storage_dal/resources";

/// Relative path from the repository root to the embedded runtime defs package.
pub const EMBEDDED_DEFS_RELATIVE: &'static str = "src/core/dhara_storage_dal/resources/filedefs.dat";

/// Relative path from the repository root to the embedded runtime defs package.
pub const RUNTIME_DEFS_RELATIVE: &'static str = "src/core/dhara_storage_dal/resources/filedefs.dat";

/// What `Path::is_absolute` says of the path `p` (platform-dependent: a
/// leading `/` on Unix, a drive or UNC prefix with a root on Windows).
pub uninterp spec fn is_absolute(p: Seq<char>) -> bool;

/// The path `Path::join` builds from `base` and `rel` (an absolute `rel`
/// replaces `base`; otherwise `rel` follows `base` after the platform's
/// separator).
pub uninterp spec fn join(base: Seq<char>, rel: Seq<char>) -> Seq<char>;

/// Joins `rel` onto `base`.
///
/// Trusted: calls `std::path::Path::join` and converts the result back to
/// text (the pieces are UTF-8, so the conversion loses nothing); the contract
/// claims only that the result is the one `join` names.
#[verifier::external_body]
pub(crate) fn join_path(base: &str, rel: &str) -> (r: String)
    ensures
        r@ == join(base@, rel@),
{
    std::path::Path::new(base).join(rel).to_string_lossy().into_owned()
}

/// Whether a path is absolute.
///
/// Trusted: calls `std::path::Path::is_absolute`; the contract claims only
/// that the result is the one `is_absolute` names.
#[verifier::external_body]
pub(crate) fn is_absolute_path(p: &str) -> (r: bool)
    ensures
        r == is_absolute(p@),
{
    std::path::Path::new(p).is_absolute()
}

/// Joins a relative override against `base`; absolute overrides are unchanged.
pub open spec fn resolved_against(base: Seq<char>, path: Seq<char>) -> Seq<char> {
    if is_absolute(path) {
        path
    } else {
        join(base, path)
    }
}

/// Joins a relative override against `base`; absolute overrides are unchanged.
pub fn resolve_path_against_base(base: &str, path: &str) -> (r: String)
    ensures
        r@ == resolved_against(base@, path@),
{
    if is_absolute_path(path) {
        string_from(chars_of(path).as_slice())
    } else {
        join_path(base, path)
    }
}

/// Joins a relative override against `repo_root`; absolute overrides are unchanged.
pub fn resolve_path_against_repo(repo_root: &str, path: &str) -> (r: String)
    ensures
        r@ == resolved_against(repo_root@, path@),
{
    resolve_path_against_base(repo_root, path)
}

/// Default TrID/package input directory (`tooling/dhara_tool/package`).
pub fn default_package_dir(repo_root: &str) -> (r: String)
    ensures
        r@ == join(join(join(repo_root@, "tooling"@), "dhara_tool"@), "package"@),
{
    let a = join_path(repo_root, "tooling");
    let b = join_path(a.as_str(), "dhara_tool");
    join_path(b.as_str(), "package")
}

/// Default directory for NuGet and other operator artifacts (`{tool_root}/output`).
pub fn default_output_dir(tool_root: &str) -> (r: String)
    ensures
        r@ == join(tool_root@, "output"@),
{
    join_path(tool_root, "output")
}

/// Default directory for operator logs (`{tool_root}/logs`).
pub fn default_logs_dir(tool_root: &str) -> (r: String)
    ensures
        r@ == join(tool_root@, "logs"@),
{
    join_path(tool_root, "logs")
}

/// Default directory for generated `filedefs.dat` artifacts (under the workspace).
pub fn default_defs_output_dir(repo_root: &str) -> (r: String)
    ensures
        r@ == join(repo_root@, EMBEDDED_DEFS_DIR_RELATIVE@),
{
    join_path(repo_root, EMBEDDED_DEFS_DIR_RELATIVE)
}

/// Default directory for temporary assembly and verification staging (`{tool_root}/artifacts`).
pub fn default_artifacts_dir(tool_root: &str) -> (r: String)
    ensures
        r@ == join(tool_root@, "artifacts"@),
{
    join_path(tool_root, "artifacts")
}

/// Default directory for packed NuGet packages (`{tool_root}/output/nuget`).
pub fn default_nuget_dir(tool_root: &str) -> (r: String)
    ensures
        r@ == join(join(tool_root@, "output"@), "nuget"@),
{
    let out = default_output_dir(tool_root);
    join_path(out.as_str(), "nuget")
}

/// Path to the compile-time embedded defs package shipped inside `dhara_storage_dal`.
pub fn embedded_defs_package_path(repo_root: &str) -> (r: String)
    ensures
        r@ == join(repo_root@, EMBEDDED_DEFS_RELATIVE@),
{
    join_path(repo_root, EMBEDDED_DEFS_RELATIVE)
}

/// Default path for generated defs packages.
pub fn default_defs_package_path(repo_root: &str) -> (r: String)
    ensures
        r@ == join(repo_root@, EMBEDDED_DEFS_RELATIVE@),
{
    embedded_defs_package_path(repo_root)
}

/// Resolves the effective NuGet/operator output directory, honoring an optional CLI override.
pub fn resolve_output_dir(tool_root: &str, override_value: Option<&str>) -> (r: String)
    ensures
        r@ == match override_value {
            Some(p) => resolved_against(tool_root@, p@),
            None => join(tool_root@, "output"@),
        },
{
    match override_value {
        Some(p) => resolve_path_against_base(tool_root, p),
        None => default_output_dir(tool_root),
    }
}

/// Resolves the effective defs output directory, honoring an optional CLI override.
pub fn resolve_defs_output_dir(repo_root: &str, override_value: Option<&str>) -> (r: String)
    ensures
        r@ == match override_value {
            Some(p) => resolved_against(repo_root@, p@),
            None => join(repo_root@, EMBEDDED_DEFS_DIR_RELATIVE@),
        },
{
    match override_value {
        Some(p) => resolve_path_against_repo(repo_root, p),
        None => default_defs_output_dir(repo_root),
    }
}

/// Resolves the effective logs directory, honoring an optional CLI override.
pub fn resolve_logs_dir(tool_root: &str, logs_override: Option<&str>) -> (r: String)
    ensures
        r@ == match logs_override {
            Some(p) => resolved_against(tool_root@, p@),
            None => join(tool_root@, "logs"@),
        },
{
    match logs_override {
        Some(p) => resolve_path_against_base(tool_root, p),
        None => default_logs_dir(tool_root),
    }
}

/// The directory the operator's runtime output root is taken from: the
/// directory of the running executable when it has one, else the fallback;
/// `None` when neither is known.
pub open spec fn tool_root_dir(current_exe: Option<Seq<char>>, fallback: Option<Seq<char>>) -> Option<Seq<char>> {
    match current_exe {
        Some(e) if parent_of(e) is Some => parent_of(e),
        _ => fallback,
    }
}

/// Picks the directory of the operator's runtime output root (see
/// `tool_root_dir`); `None` means the current directory `.` is used as it
/// is. The caller canonicalizes a returned directory.
pub fn resolve_tool_root(current_exe: Option<&str>, fallback: Option<&str>) -> (r: Option<String>)
    ensures
        (match r {
            Some(s) => Some(s@),
            None => None,
        }) == tool_root_dir(
            match current_exe { Some(e) => Some(e@), None => None },
            match fallback { Some(f) => Some(f@), None => None },
        ),
{
    match current_exe {
        Some(e) => match path_parent(e) {
            Some(d) => {
                return Some(d);
            },
            None => {},
        },
        None => {},
    }
    match fallback {
        Some(f) => Some(copy_str(f)),
        None => None,
    }
}

/// A path and its ancestors, nearest first, as repeated `Path::parent`
/// gives them (a parent that is not shorter ends the walk).
pub open spec fn ancestors_of(p: Seq<char>) -> Seq<Seq<char>>
    decreases p.len(),
{
    match parent_of(p) {
        Some(q) => if q.len() < p.len() {
            seq![p] + ancestors_of(q)
        } else {
            seq![p]
        },
        None => seq![p],
    }
}

/// Lists a path and its ancestors, nearest first.
pub fn path_ancestors(p: &str) -> (r: Vec<String>)
    ensures
        views(r@) == ancestors_of(p@),
{
    let mut acc: Vec<String> = Vec::new();
    let mut cur = copy_str(p);
    loop
        invariant
            views(acc@) + ancestors_of(cur@) == ancestors_of(p@),
        decreases cur@.len(),
    {
        let next = path_parent(cur.as_str());
        let here = copy_str(cur.as_str());
        match next {
            Some(q) => {
                let ql = chars_of(q.as_str()).len();
                let cl = chars_of(cur.as_str()).len();
                let ghost a0 = views(acc@);
                if ql < cl {
                    assert(ancestors_of(cur@) == seq![cur@] + ancestors_of(q@));
                    acc.push(here);
                    assert(views(acc@) =~= a0.push(cur@));
                    assert(views(acc@) + ancestors_of(q@) =~= a0 + (seq![cur@] + ancestors_of(q@)));
                    cur = q;
                } else {
                    acc.push(here);
                    assert(views(acc@) =~= a0 + ancestors_of(cur@));
                    return acc;
                }
            },
            None => {
                let ghost a0 = views(acc@);
                acc.push(here);
                assert(views(acc@) =~= a0 + ancestors_of(cur@));
                return acc;
            },
        }
    }
}

/// The directories searched for the workspace root, in order: the current
/// directory and its ancestors, then the executable's directory and its
/// ancestors unless it is the current directory.
pub open spec fn repo_root_search(current_dir: Option<Seq<char>>, current_exe: Option<Seq<char>>) -> Seq<Seq<char>> {
    let first = match current_dir {
        Some(d) => ancestors_of(d),
        None => Seq::empty(),
    };
    let exe_dir = match current_exe {
        Some(e) => parent_of(e),
        None => None,
    };
    match exe_dir {
        Some(x) => if current_dir == Some(x) { first } else { first + ancestors_of(x) },
        None => first,
    }
}

/// The directories to probe, in order, for the workspace root when none is
/// given (see `repo_root_search`); the first that holds the root markers and
/// canonicalizes is the root.
pub fn repo_root_search_order(current_dir: Option<&str>, current_exe: Option<&str>) -> (r: Vec<String>)
    ensures
        views(r@) == repo_root_search(
            match current_dir { Some(d) => Some(d@), None => None },
            match current_exe { Some(e) => Some(e@), None => None },
        ),
{
    let mut r: Vec<String> = match current_dir {
        Some(d) => path_ancestors(d),
        None => Vec::new(),
    };
    let ghost first = views(r@);
    let exe_dir = match current_exe {
        Some(e) => path_parent(e),
        None => None,
    };
    match exe_dir {
        Some(x) => {
            let same = match current_dir {
                Some(d) => chars_eq(chars_of(d).as_slice(), chars_of(x.as_str()).as_slice()),
                None => false,
            };
            if !same {
                let mut more = path_ancestors(x.as_str());
                let ghost tail = views(more@);
                r.append(&mut more);
                assert(views(r@) =~= first + tail);
            }
        },
        None => {},
    }
    r
}

/// The three files whose presence marks the workspace root: the repository
/// configuration, the root `Cargo.toml` and the operator crate manifest.
pub fn repo_root_markers(path: &str) -> (r: Vec<String>)
    ensures
        r@.len() == 3,
        r@[0]@ == join(path@, "dhara.config.toml"@),
        r@[1]@ == join(path@, "Cargo.toml"@),
        r@[2]@ == join(path@, TOOL_CRATE_MANIFEST_RELATIVE@),
{
    let mut r: Vec<String> = Vec::new();
    r.push(join_path(path, "dhara.config.toml"));
    r.push(join_path(path, "Cargo.toml"));
    r.push(join_path(path, TOOL_CRATE_MANIFEST_RELATIVE));
    r
}


/// One component of a path, as `std::path::Component` reports it.
#[derive(Debug, Clone, PartialEq, Eq)]
pub enum PathComponent {
    Prefix(String),
    RootDir,
    CurDir,
    ParentDir,
    Normal(String),
}

/// The view of a path component.
pub ghost enum ComponentView {
    Prefix(Seq<char>),
    RootDir,
    CurDir,
    ParentDir,
    Normal(Seq<char>),
}

impl View for PathComponent {
    type V = ComponentView;

    open spec fn view(&self) -> ComponentView {
        match self {
            PathComponent::Prefix(s) => ComponentView::Prefix(s@),
            PathComponent::RootDir => ComponentView::RootDir,
            PathComponent::CurDir => ComponentView::CurDir,
            PathComponent::ParentDir => ComponentView::ParentDir,
            PathComponent::Normal(s) => ComponentView::Normal(s@),
        }
    }
}

/// What `Path::parent` returns for the path `p`.
pub uninterp spec fn parent_of(p: Seq<char>) -> Option<Seq<char>>;

/// What `Path::file_name` returns for the path `p`.
pub uninterp spec fn file_name_of(p: Seq<char>) -> Option<Seq<char>>;

/// What `Path::file_stem` returns for the path `p`.
pub uninterp spec fn file_stem_of(p: Seq<char>) -> Option<Seq<char>>;

/// What `Path::extension` returns for the path `p`.
pub uninterp spec fn extension_of(p: Seq<char>) -> Option<Seq<char>>;

/// The components that `Path::components` yields for the path `p`.
pub uninterp spec fn components_of(p: Seq<char>) -> Seq<ComponentView>;

/// Views of a list of path components.
pub open spec fn component_views(v: Seq<PathComponent>) -> Seq<ComponentView> {
    v.map_values(|c: PathComponent| c@)
}

/// The parent directory of `p`.
///
/// Trusted: calls `std::path::Path::parent`; the contract claims only that
/// the result is the one `parent_of` names for this path text.
#[verifier::external_body]
pub(crate) fn path_parent(p: &str) -> (r: Option<String>)
    ensures
        r matches Some(s) ==> parent_of(p@) == Some(s@),
        r is None ==> parent_of(p@) is None,
{
    std::path::Path::new(p).parent().map(|q| q.to_string_lossy().into_owned())
}

/// The final component of `p`, when it is a normal one.
///
/// Trusted: calls `std::path::Path::file_name`; the contract claims only that
/// the result is the one `file_name_of` names for this path text.
#[verifier::external_body]
pub(crate) fn path_file_name(p: &str) -> (r: Option<String>)
    ensures
        r matches Some(s) ==> file_name_of(p@) == Some(s@),
        r is None ==> file_name_of(p@) is None,
{
    std::path::Path::new(p).file_name().map(|q| q.to_string_lossy().into_owned())
}

/// The file name of `p` without its extension.
///
/// Trusted: calls `std::path::Path::file_stem`; the contract claims only that
/// the result is the one `file_stem_of` names for this path text.
#[verifier::external_body]
pub(crate) fn path_file_stem(p: &str) -> (r: Option<String>)
    ensures
        r matches Some(s) ==> file_stem_of(p@) == Some(s@),
        r is None ==> file_stem_of(p@) is None,
{
    std::path::Path::new(p).file_stem().map(|q| q.to_string_lossy().into_owned())
}

/// The extension of the file name of `p`.
///
/// Trusted: calls `std::path::Path::extension`; the contract claims only that
/// the result is the one `extension_of` names for this path text.
#[verifier::external_body]
pub(crate) fn path_extension(p: &str) -> (r: Option<String>)
    ensures
        r matches Some(s) ==> extension_of(p@) == Some(s@),
        r is None ==> extension_of(p@) is None,
{
    std::path::Path::new(p).extension().map(|q| q.to_string_lossy().into_owned())
}

/// The components of `p`.
///
/// Trusted: calls `std::path::Path::components` and converts each component
/// to a `PathComponent`, one for one; the contract claims only that the list
/// is the one `components_of` names for this path text.
#[verifier::external_body]
pub(crate) fn path_components(p: &str) -> (r: Vec<PathComponent>)
    ensures
        component_views(r@) == components_of(p@),
{
    std::path::Path::new(p).components().map(|c| match c {
        std::path::Component::Prefix(x) => PathComponent::Prefix(x.as_os_str().to_string_lossy().into_owned()),
        std::path::Component::RootDir => PathComponent::RootDir,
        std::path::Component::CurDir => PathComponent::CurDir,
        std::path::Component::ParentDir => PathComponent::ParentDir,
        std::path::Component::Normal(x) => PathComponent::Normal(x.to_string_lossy().into_owned()),
    }).collect()
}

/// The normal components of a path and `..` for each parent component, in
/// order; roots, prefixes and `.` are dropped.
pub open spec fn parts_of_components(c: Seq<ComponentView>) -> Seq<Seq<char>>
    decreases c.len(),
{
    if c.len() == 0 {
        Seq::empty()
    } else {
        let rest = parts_of_components(c.drop_last());
        match c.last() {
            ComponentView::Normal(s) => rest.push(s),
            ComponentView::ParentDir => rest.push(".."@),
            _ => rest,
        }
    }
}

/// The normal and parent components of the path `p`, as text.
pub fn path_parts(p: &str) -> (r: Vec<String>)
    ensures
        views(r@) == parts_of_components(components_of(p@)),
{
    let comps = path_components(p);
    let mut r: Vec<String> = Vec::new();
    let mut i: usize = 0;
    while i < comps.len()
        invariant
            i <= comps@.len(),
            component_views(comps@) == components_of(p@),
            views(r@) == parts_of_components(component_views(comps@).subrange(0, i as int)),
        decreases comps.len() - i,
    {
        let ghost before = component_views(comps@).subrange(0, i as int);
        let ghost after = component_views(comps@).subrange(0, i + 1);
        assert(after.drop_last() =~= before);
        match &comps[i] {
            PathComponent::Normal(s) => {
                r.push(s.clone());
            },
            PathComponent::ParentDir => {
                r.push(string_from(chars_of("..").as_slice()));
            },
            _ => {},
        }
        i = i + 1;
        assert(views(r@) =~= parts_of_components(after));
    }
    assert(component_views(comps@).subrange(0, comps@.len() as int) =~= component_views(comps@));
    r
}

/// The sidecar manifest beside a TrID source: `{stem}.source.toml` in the
/// source's parent directory (`.` when it has none); the stem falls back to
/// the file name and then to `filedefs`.
pub open spec fn sidecar_path(parent: Option<Seq<char>>, stem: Option<Seq<char>>, name: Option<Seq<char>>) -> Seq<char> {
    let dir = match parent {
        Some(d) => d,
        None => "."@,
    };
    let base = match stem {
        Some(s) => s,
        None => match name {
            Some(n) => n,
            None => "filedefs"@,
        },
    };
    join(dir, base + ".source.toml"@)
}

/// Resolve the sidecar manifest path for a TrID source archive or directory.
///
/// Uses `{stem}.source.toml` beside the source path.
pub fn sidecar_path_for_source(source: &str) -> (r: String)
    ensures
        r@ == sidecar_path(parent_of(source@), file_stem_of(source@), file_name_of(source@)),
{
    let parent = path_parent(source);
    let dir = match parent {
        Some(d) => d,
        None => string_from(chars_of(".").as_slice()),
    };
    let stem = path_file_stem(source);
    let base = match stem {
        Some(s) => s,
        None => match path_file_name(source) {
            Some(n) => n,
            None => string_from(chars_of("filedefs").as_slice()),
        },
    };
    let mut name = chars_of(base.as_str());
    push_str(&mut name, ".source.toml");
    let name = string_from(name.as_slice());
    join_path(dir.as_str(), name.as_str())
}

/// The source is a TrID XML file: its extension is `xml` in any ASCII case.
pub open spec fn has_extension(ext: Option<Seq<char>>, wanted: Seq<char>) -> bool {
    match ext {
        Some(e) => eq_ignore_ascii_case(e, wanted),
        None => false,
    }
}

/// True when `path` names an `.xml` file (any ASCII case).
pub fn is_xml_file(path: &str) -> (r: bool)
    ensures
        r == has_extension(extension_of(path@), "xml"@),
{
    match path_extension(path) {
        Some(e) => {
            let a = chars_of(e.as_str());
            let b = chars_of("xml");
            eq_ignore_case_chars(a.as_slice(), b.as_slice())
        },
        None => false,
    }
}

/// True when `path` names a `.7z` archive (any ASCII case).
pub fn is_7z_file(path: &str) -> (r: bool)
    ensures
        r == has_extension(extension_of(path@), "7z"@),
{
    match path_extension(path) {
        Some(e) => {
            let a = chars_of(e.as_str());
            let b = chars_of("7z");
            eq_ignore_case_chars(a.as_slice(), b.as_slice())
        },
        None => false,
    }
}

} // verus!

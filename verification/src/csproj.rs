//! Text surgery on the NuGet package project (`.csproj`): the property and
//! pack-item edits that bring its metadata in line with `dhara.config.toml`,
//! and the include-path helpers they rely on.

use vstd::prelude::*;
use crate::text::{
    chars_of, string_from, copy_str, push_all, push_str, chars_eq, slice_chars, find, find_chars,
    rfind, rfind_chars, find_from, find_chars_from, replace_char, replace_char_chars, join,
    eq_ignore_ascii_case, eq_ignore_case_chars, views, concat2, concat3,
};
use crate::xml::{
    XmlElement, XmlNode, xml_document, parse_document, property_from, find_property,
    element_text, get_text, attribute, get_attribute, pack_enabled, none_pack_enabled,
    node_is_element_named,
};
use crate::text::{trim, trim_chars};
use crate::repo_config::DharaRepoConfig;
use crate::paths::{
    is_absolute, is_absolute_path, parent_of, path_parent, file_name_of, path_file_name,
    components_of, parts_of_components, path_parts,
};

verus! {

/// Errors of the csproj edits and of the path helpers they use.
#[derive(Debug, Clone, PartialEq, Eq)]
pub enum CsprojError {
    /// The path does not end with a file name.
    NoFileName(String),
    /// A package asset path is absolute.
    AbsoluteAsset(String),
    /// The package project path has no parent directory.
    ProjectWithoutParent(String),
    /// The asset path resolves to the package project directory itself.
    AssetIsProjectDir,
    /// `<name>` is opened but never closed.
    MalformedElement(String),
    /// No `<Project` root element.
    MissingProjectRoot,
    /// The `<Project` opening tag is not closed.
    MalformedProjectTag,
    /// The project file is not well-formed XML.
    Parse,
}

/// The view of a csproj error: its kind with the texts it names.
pub ghost enum CsprojErrorView {
    NoFileName(Seq<char>),
    AbsoluteAsset(Seq<char>),
    ProjectWithoutParent(Seq<char>),
    AssetIsProjectDir,
    MalformedElement(Seq<char>),
    MissingProjectRoot,
    MalformedProjectTag,
    Parse,
}

impl View for CsprojError {
    type V = CsprojErrorView;

    open spec fn view(&self) -> CsprojErrorView {
        match self {
            CsprojError::NoFileName(s) => CsprojErrorView::NoFileName(s@),
            CsprojError::AbsoluteAsset(s) => CsprojErrorView::AbsoluteAsset(s@),
            CsprojError::ProjectWithoutParent(s) => CsprojErrorView::ProjectWithoutParent(s@),
            CsprojError::AssetIsProjectDir => CsprojErrorView::AssetIsProjectDir,
            CsprojError::MalformedElement(s) => CsprojErrorView::MalformedElement(s@),
            CsprojError::MissingProjectRoot => CsprojErrorView::MissingProjectRoot,
            CsprojError::MalformedProjectTag => CsprojErrorView::MalformedProjectTag,
            CsprojError::Parse => CsprojErrorView::Parse,
        }
    }
}

/// What a csproj error says.
pub open spec fn csproj_error_text(e: CsprojErrorView) -> Seq<char> {
    match e {
        CsprojErrorView::NoFileName(p) => "path must end with a file name: "@ + p,
        CsprojErrorView::AbsoluteAsset(p) => "repo-managed package assets must use repository-relative paths: "@ + p,
        CsprojErrorView::ProjectWithoutParent(p) => "package project path must have a parent: "@ + p,
        CsprojErrorView::AssetIsProjectDir => "package asset path cannot point at the package project directory"@,
        CsprojErrorView::MalformedElement(n) => "malformed csproj element <"@ + n + ">"@,
        CsprojErrorView::MissingProjectRoot => "csproj is missing a Project root element"@,
        CsprojErrorView::MalformedProjectTag => "csproj has a malformed Project opening tag"@,
        CsprojErrorView::Parse => "failed to parse Dhara.Storage.csproj"@,
    }
}

impl CsprojError {
    /// The error's message.
    pub fn message(&self) -> (r: String)
        ensures
            r@ == csproj_error_text(self@),
    {
        match self {
            CsprojError::NoFileName(p) => concat2("path must end with a file name: ", p.as_str()),
            CsprojError::AbsoluteAsset(p) => concat2("repo-managed package assets must use repository-relative paths: ", p.as_str()),
            CsprojError::ProjectWithoutParent(p) => concat2("package project path must have a parent: ", p.as_str()),
            CsprojError::AssetIsProjectDir => copy_str("package asset path cannot point at the package project directory"),
            CsprojError::MalformedElement(n) => concat3("malformed csproj element <", n.as_str(), ">"),
            CsprojError::MissingProjectRoot => copy_str("csproj is missing a Project root element"),
            CsprojError::MalformedProjectTag => copy_str("csproj has a malformed Project opening tag"),
            CsprojError::Parse => copy_str("failed to parse Dhara.Storage.csproj"),
        }
    }
}

/// A text result in view form.
pub open spec fn text_result(r: Result<String, CsprojError>) -> Result<Seq<char>, CsprojErrorView> {
    match r {
        Ok(s) => Ok(s@),
        Err(e) => Err(e@),
    }
}

/// `path` with every `/` turned into `\`, the separator MSBuild writes.
pub open spec fn normalized_include(path: Seq<char>) -> Seq<char> {
    replace_char(path, '/', '\\')
}

/// Turns every `/` in `path` into `\`.
pub fn normalize_include_path(path: &str) -> (r: String)
    ensures
        r@ == normalized_include(path@),
{
    let c = chars_of(path);
    let r = replace_char_chars(c.as_slice(), '/', '\\');
    string_from(r.as_slice())
}

pub open spec fn is_include_separator(c: char) -> bool {
    c == '\\' || c == '/'
}

/// The text after the last `\` or `/` of `s` (all of `s` when it has none).
pub open spec fn after_last_separator(s: Seq<char>) -> Seq<char>
    decreases s.len(),
{
    if s.len() == 0 {
        s
    } else if is_include_separator(s.last()) {
        Seq::empty()
    } else {
        after_last_separator(s.drop_last()).push(s.last())
    }
}

/// The file name of a csproj include: the text after the last separator,
/// `None` when that is empty.
pub open spec fn include_file_name(s: Seq<char>) -> Option<Seq<char>> {
    let f = after_last_separator(s);
    if f.len() == 0 { None } else { Some(f) }
}

proof fn lemma_after_last_separator(s: Seq<char>, k: int)
    requires
        0 <= k <= s.len(),
        forall|j: int| k <= j < s.len() ==> !is_include_separator(#[trigger] s[j]),
        k == 0 || is_include_separator(s[k - 1]),
    ensures
        after_last_separator(s) == s.subrange(k, s.len() as int),
    decreases s.len(),
{
    if s.len() == k {
        if k > 0 {
            assert(after_last_separator(s) =~= Seq::<char>::empty());
        }
        assert(s.subrange(k, s.len() as int) =~= Seq::<char>::empty());
    } else {
        let t = s.drop_last();
        assert forall|j: int| k <= j < t.len() implies !is_include_separator(#[trigger] t[j]) by {
            assert(t[j] == s[j]);
        }
        if k > 0 {
            assert(t[k - 1] == s[k - 1]);
        }
        lemma_after_last_separator(t, k);
        assert(s.subrange(k, s.len() as int) =~= t.subrange(k, t.len() as int).push(s.last()));
    }
}

/// The file name of a csproj include path.
pub fn csproj_include_file_name(item: &str) -> (r: Option<String>)
    ensures
        r matches Some(f) ==> include_file_name(item@) == Some(f@),
        r is None ==> include_file_name(item@) is None,
{
    let s = chars_of(item);
    let mut k = s.len();
    while k > 0 && !(s[k - 1] == '\\' || s[k - 1] == '/')
        invariant
            k <= s@.len(),
            forall|j: int| k <= j < s@.len() ==> !is_include_separator(#[trigger] s@[j]),
        decreases k,
    {
        k = k - 1;
    }
    proof {
        lemma_after_last_separator(s@, k as int);
    }
    if k == s.len() {
        None
    } else {
        let f = slice_chars(s.as_slice(), k, s.len());
        Some(string_from(f.as_slice()))
    }
}

/// The file name of a repository path, or the error the tool reports.
pub open spec fn file_name_result(path: Seq<char>) -> Result<Seq<char>, CsprojErrorView> {
    match file_name_of(path) {
        Some(f) => Ok(f),
        None => Err(CsprojErrorView::NoFileName(path)),
    }
}

/// The file name of `path`; an error when it has none.
pub fn file_name(path: &str) -> (r: Result<String, CsprojError>)
    ensures
        text_result(r) == file_name_result(path@),
{
    match path_file_name(path) {
        Some(f) => Ok(f),
        None => Err(CsprojError::NoFileName(copy_str(path))),
    }
}


/// Length of the longest common prefix of two part lists, parts compared
/// ignoring ASCII case.
pub open spec fn common_prefix_len(a: Seq<Seq<char>>, b: Seq<Seq<char>>) -> nat
    decreases a.len(),
{
    if a.len() == 0 || b.len() == 0 || !eq_ignore_ascii_case(a[0], b[0]) {
        0
    } else {
        1 + common_prefix_len(a.drop_first(), b.drop_first())
    }
}

/// The parts of the path from the project directory to the asset: one `..`
/// for each project part past the common prefix, then the rest of the asset.
pub open spec fn relative_parts(project: Seq<Seq<char>>, asset: Seq<Seq<char>>) -> Seq<Seq<char>> {
    let c = common_prefix_len(project, asset) as int;
    Seq::new((project.len() - c) as nat, |i: int| ".."@) + asset.subrange(c, asset.len() as int)
}

/// The asset path written relative to the package project's directory with
/// `\` separators, as MSBuild includes spell it.
pub open spec fn project_relative(asset: Seq<char>, project: Seq<char>) -> Result<Seq<char>, CsprojErrorView> {
    if is_absolute(asset) {
        Err(CsprojErrorView::AbsoluteAsset(asset))
    } else {
        match parent_of(project) {
            None => Err(CsprojErrorView::ProjectWithoutParent(project)),
            Some(dir) => {
                let rel = relative_parts(
                    parts_of_components(components_of(dir)),
                    parts_of_components(components_of(asset)),
                );
                if rel.len() == 0 {
                    Err(CsprojErrorView::AssetIsProjectDir)
                } else {
                    Ok(join(rel, "\\"@))
                }
            },
        }
    }
}

proof fn lemma_common_prefix(a: Seq<Seq<char>>, b: Seq<Seq<char>>, k: int)
    requires
        0 <= k <= a.len(),
        k <= b.len(),
        forall|j: int| 0 <= j < k ==> eq_ignore_ascii_case(#[trigger] a[j], b[j]),
        k == a.len() || k == b.len() || !eq_ignore_ascii_case(a[k], b[k]),
    ensures
        common_prefix_len(a, b) == k,
    decreases k,
{
    if k > 0 {
        assert forall|j: int| 0 <= j < k - 1 implies eq_ignore_ascii_case(#[trigger] a.drop_first()[j], b.drop_first()[j]) by {
            assert(a.drop_first()[j] == a[j + 1]);
            assert(b.drop_first()[j] == b[j + 1]);
        }
        if k < a.len() && k < b.len() {
            assert(a.drop_first()[k - 1] == a[k]);
            assert(b.drop_first()[k - 1] == b[k]);
        }
        lemma_common_prefix(a.drop_first(), b.drop_first(), k - 1);
    }
}

/// Joins a list of parts with `\`.
fn join_backslash(parts: &Vec<String>) -> (r: String)
    ensures
        r@ == join(views(parts@), "\\"@),
{
    let v = crate::text::join_strings(parts.as_slice(), "\\");
    string_from(v.as_slice())
}

/// The asset path relative to the package project's directory.
pub fn project_relative_include(asset_path: &str, project_path: &str) -> (r: Result<String, CsprojError>)
    ensures
        text_result(r) == project_relative(asset_path@, project_path@),
{
    if is_absolute_path(asset_path) {
        return Err(CsprojError::AbsoluteAsset(copy_str(asset_path)));
    }
    let dir = match path_parent(project_path) {
        Some(d) => d,
        None => {
            return Err(CsprojError::ProjectWithoutParent(copy_str(project_path)));
        },
    };
    let project_parts = path_parts(dir.as_str());
    let asset_parts = path_parts(asset_path);
    let ghost pp = views(project_parts@);
    let ghost ap = views(asset_parts@);
    let mut c: usize = 0;
    while c < project_parts.len() && c < asset_parts.len()
        invariant
            c <= project_parts@.len(),
            c <= asset_parts@.len(),
            pp == views(project_parts@),
            ap == views(asset_parts@),
            forall|j: int| 0 <= j < c ==> eq_ignore_ascii_case(#[trigger] pp[j], ap[j]),
        ensures
            c <= project_parts@.len(),
            c <= asset_parts@.len(),
            forall|j: int| 0 <= j < c ==> eq_ignore_ascii_case(#[trigger] pp[j], ap[j]),
            c == project_parts@.len() || c == asset_parts@.len() || !eq_ignore_ascii_case(pp[c as int], ap[c as int]),
        decreases project_parts.len() - c,
    {
        let a = chars_of(project_parts[c].as_str());
        let b = chars_of(asset_parts[c].as_str());
        if !eq_ignore_case_chars(a.as_slice(), b.as_slice()) {
            break;
        }
        c = c + 1;
    }
    proof {
        lemma_common_prefix(pp, ap, c as int);
    }
    let mut relative: Vec<String> = Vec::new();
    let mut i: usize = c;
    while i < project_parts.len()
        invariant
            c <= i <= project_parts@.len(),
            relative@.len() == i - c,
            forall|j: int| 0 <= j < relative@.len() ==> (#[trigger] relative@[j])@ == ".."@,
        decreases project_parts.len() - i,
    {
        relative.push(copy_str(".."));
        i = i + 1;
    }
    let ups = relative.len();
    let mut k: usize = c;
    while k < asset_parts.len()
        invariant
            c <= k <= asset_parts@.len(),
            relative@.len() == ups + (k - c),
            ap == views(asset_parts@),
            forall|j: int| 0 <= j < ups ==> (#[trigger] relative@[j])@ == ".."@,
            forall|j: int| ups <= j < relative@.len() ==> (#[trigger] relative@[j])@ == ap[c + j - ups],
        decreases asset_parts.len() - k,
    {
        relative.push(asset_parts[k].clone());
        k = k + 1;
    }
    assert(views(relative@) =~= relative_parts(pp, ap));
    if relative.len() == 0 {
        return Err(CsprojError::AssetIsProjectDir);
    }
    Ok(join_backslash(&relative))
}


/// `s` with `s[from..to]` replaced by `mid`.
pub open spec fn splice(s: Seq<char>, from: int, to: int, mid: Seq<char>) -> Seq<char> {
    s.subrange(0, from) + mid + s.subrange(to, s.len() as int)
}

/// Replaces `s[from..to]` with `mid`.
pub fn splice_chars(s: &[char], from: usize, to: usize, mid: &[char]) -> (r: Vec<char>)
    requires
        from <= to <= s@.len(),
    ensures
        r@ == splice(s@, from as int, to as int, mid@),
{
    let mut r = slice_chars(s, 0, from);
    push_all(&mut r, mid);
    let tail = slice_chars(s, to, s.len());
    push_all(&mut r, tail.as_slice());
    r
}

pub open spec fn open_tag(name: Seq<char>) -> Seq<char> {
    "<"@ + name + ">"@
}

pub open spec fn close_tag(name: Seq<char>) -> Seq<char> {
    "</"@ + name + ">"@
}

fn tag_chars(prefix: &str, name: &str) -> (r: Vec<char>)
    ensures
        r@ == prefix@ + name@ + ">"@,
{
    let mut r = chars_of(prefix);
    push_str(&mut r, name);
    push_str(&mut r, ">");
    r
}

/// The line a new property is written as inside an existing group.
pub open spec fn property_line(name: Seq<char>, value: Seq<char>) -> Seq<char> {
    "\n    <"@ + name + ">"@ + value + "</"@ + name + ">"@
}

/// A new property group holding one property.
pub open spec fn property_group_block(name: Seq<char>, value: Seq<char>) -> Seq<char> {
    "\n  <PropertyGroup>\n    <"@ + name + ">"@ + value + "</"@ + name + ">"@ + "\n  </PropertyGroup>"@
}

/// The project text with property `name` added: inside the first
/// `<PropertyGroup>`, or in a new group right after the `<Project ...>` tag.
pub open spec fn inserted_property(content: Seq<char>, name: Seq<char>, value: Seq<char>) -> Result<Seq<char>, CsprojErrorView> {
    match find(content, "<PropertyGroup>"@) {
        Some(idx) => Ok(splice(content, idx + "<PropertyGroup>"@.len(), idx + "<PropertyGroup>"@.len(), property_line(name, value))),
        None => match find(content, "<Project"@) {
            None => Err(CsprojErrorView::MissingProjectRoot),
            Some(po) => match find_from(content, ">"@, po) {
                None => Err(CsprojErrorView::MalformedProjectTag),
                Some(gt) => Ok(splice(content, gt + ">"@.len(), gt + ">"@.len(), property_group_block(name, value))),
            },
        },
    }
}

/// Adds property `name` with `value` to the project text.
pub fn insert_property_in_first_group(content: &str, name: &str, value: &str) -> (r: Result<String, CsprojError>)
    ensures
        text_result(r) == inserted_property(content@, name@, value@),
{
    let c = chars_of(content);
    assert(c@.len() == c.len());
    let group = chars_of("<PropertyGroup>");
    match find_chars(c.as_slice(), group.as_slice()) {
        Some(idx) => {
            let mut mid = chars_of("\n    <");
            push_str(&mut mid, name);
            push_str(&mut mid, ">");
            push_str(&mut mid, value);
            push_str(&mut mid, "</");
            push_str(&mut mid, name);
            push_str(&mut mid, ">");
            assert(mid@ =~= property_line(name@, value@));
            assert(idx + group@.len() <= c@.len());
            assert(c@.len() == c.len());
            let r = splice_chars(c.as_slice(), idx + group.len(), idx + group.len(), mid.as_slice());
            Ok(string_from(r.as_slice()))
        },
        None => {
            let project = chars_of("<Project");
            let po = match find_chars(c.as_slice(), project.as_slice()) {
                Some(po) => po,
                None => {
                    return Err(CsprojError::MissingProjectRoot);
                },
            };
            let gt_text = chars_of(">");
            let gt = match find_chars_from(c.as_slice(), gt_text.as_slice(), po) {
                Some(gt) => gt,
                None => {
                    return Err(CsprojError::MalformedProjectTag);
                },
            };
            let mut mid = chars_of("\n  <PropertyGroup>\n    <");
            push_str(&mut mid, name);
            push_str(&mut mid, ">");
            push_str(&mut mid, value);
            push_str(&mut mid, "</");
            push_str(&mut mid, name);
            push_str(&mut mid, ">");
            push_str(&mut mid, "\n  </PropertyGroup>");
            assert(mid@ =~= property_group_block(name@, value@));
            assert(gt + gt_text@.len() <= c@.len());
            let r = splice_chars(c.as_slice(), gt + gt_text.len(), gt + gt_text.len(), mid.as_slice());
            Ok(string_from(r.as_slice()))
        },
    }
}

/// The project text with property `name` set to `value`: the text between
/// the first `<name>` and the next `</name>` is replaced, or the property is
/// added when the project has no `<name>`.
pub open spec fn upserted_property(content: Seq<char>, name: Seq<char>, value: Seq<char>) -> Result<Seq<char>, CsprojErrorView> {
    match find(content, open_tag(name)) {
        Some(start) => {
            let vs = start + open_tag(name).len();
            match find_from(content, close_tag(name), vs) {
                None => Err(CsprojErrorView::MalformedElement(name)),
                Some(ve) => Ok(splice(content, vs, ve, value)),
            }
        },
        None => inserted_property(content, name, value),
    }
}

/// Sets property `name` to `value` in the project text.
pub fn upsert_property_element(content: &str, name: &str, value: &str) -> (r: Result<String, CsprojError>)
    ensures
        text_result(r) == upserted_property(content@, name@, value@),
{
    let c = chars_of(content);
    assert(c@.len() == c.len());
    let open = tag_chars("<", name);
    let close = tag_chars("</", name);
    assert(open@ =~= open_tag(name@));
    assert(close@ =~= close_tag(name@));
    match find_chars(c.as_slice(), open.as_slice()) {
        Some(start) => {
            assert(start + open@.len() <= c@.len());
            let vs = start + open.len();
            match find_chars_from(c.as_slice(), close.as_slice(), vs) {
                None => Err(CsprojError::MalformedElement(copy_str(name))),
                Some(ve) => {
                    let v = chars_of(value);
                    let current = slice_chars(c.as_slice(), vs, ve);
                    if chars_eq(current.as_slice(), v.as_slice()) {
                        assert(splice(c@, vs as int, ve as int, value@) =~= c@);
                        return Ok(copy_str(content));
                    }
                    let r = splice_chars(c.as_slice(), vs, ve, v.as_slice());
                    Ok(string_from(r.as_slice()))
                },
            }
        },
        None => insert_property_in_first_group(content, name, value),
    }
}

/// The project text with the first `<name>...</name>` element cut out;
/// unchanged when there is none.
pub open spec fn removed_property(content: Seq<char>, name: Seq<char>) -> Seq<char> {
    match find(content, open_tag(name)) {
        None => content,
        Some(start) => match find_from(content, close_tag(name), start) {
            None => content,
            Some(ce) => splice(content, start, ce + close_tag(name).len(), Seq::empty()),
        },
    }
}

/// Removes property `name` from the project text.
pub fn remove_property_element(content: &str, name: &str) -> (r: String)
    ensures
        r@ == removed_property(content@, name@),
{
    let c = chars_of(content);
    assert(c@.len() == c.len());
    let open = tag_chars("<", name);
    let close = tag_chars("</", name);
    assert(open@ =~= open_tag(name@));
    assert(close@ =~= close_tag(name@));
    match find_chars(c.as_slice(), open.as_slice()) {
        None => copy_str(content),
        Some(start) => match find_chars_from(c.as_slice(), close.as_slice(), start) {
            None => copy_str(content),
            Some(ce) => {
                assert(ce + close@.len() <= c@.len());
                let empty: Vec<char> = Vec::new();
                let r = splice_chars(c.as_slice(), start, ce + close.len(), empty.as_slice());
                assert(empty@ =~= Seq::<char>::empty());
                string_from(r.as_slice())
            },
        },
    }
}

/// The pack item appended for an asset that the project does not pack yet.
pub open spec fn pack_item(path: Seq<char>) -> Seq<char> {
    "  <ItemGroup>\n    <None Include=\""@ + path + "\" Pack=\"true\" PackagePath=\"\\\" />\n  </ItemGroup>\n"@
}

/// The project text with a pack item for `path` inserted before the last
/// `</Project>`; unchanged when there is none.
pub open spec fn appended_pack_item(content: Seq<char>, path: Seq<char>) -> Seq<char> {
    match rfind(content, "</Project>"@) {
        Some(i) => splice(content, i, i, pack_item(path)),
        None => content,
    }
}

/// Appends a pack item for `path` to the project text.
pub fn append_pack_none_item(content: &str, path: &str) -> (r: String)
    ensures
        r@ == appended_pack_item(content@, path@),
{
    let c = chars_of(content);
    assert(c@.len() == c.len());
    let end = chars_of("</Project>");
    match rfind_chars(c.as_slice(), end.as_slice()) {
        Some(i) => {
            let mut item = chars_of("  <ItemGroup>\n    <None Include=\"");
            push_str(&mut item, path);
            push_str(&mut item, "\" Pack=\"true\" PackagePath=\"\\\" />\n  </ItemGroup>\n");
            assert(item@ =~= pack_item(path@));
            let r = splice_chars(c.as_slice(), i, i, item.as_slice());
            string_from(r.as_slice())
        },
        None => copy_str(content),
    }
}

/// The attribute text `Include="path"`.
pub open spec fn include_attribute(path: Seq<char>) -> Seq<char> {
    "Include=\""@ + path + "\""@
}

fn include_attribute_chars(path: &[char]) -> (r: Vec<char>)
    ensures
        r@ == include_attribute(path@),
{
    let mut r = chars_of("Include=\"");
    push_all(&mut r, path);
    push_str(&mut r, "\"");
    r
}

/// The project text with the pack item for an asset pointing at
/// `expected`: unchanged when `current` already normalises to it; otherwise
/// the first `Include="current"` (as written, then normalised) is rewritten,
/// and when neither is found a new pack item is appended.
pub open spec fn patched_pack_include(content: Seq<char>, expected: Seq<char>, current: Seq<char>) -> Seq<char> {
    let exp = normalized_include(expected);
    if current.len() > 0 && normalized_include(current) == exp {
        content
    } else if current.len() > 0 {
        let q1 = include_attribute(current);
        match find(content, q1) {
            Some(st) => splice(content, st, st + q1.len(), include_attribute(exp)),
            None => {
                let q2 = include_attribute(normalized_include(current));
                match find(content, q2) {
                    Some(st) => splice(content, st, st + q2.len(), include_attribute(exp)),
                    None => appended_pack_item(content, exp),
                }
            },
        }
    } else {
        appended_pack_item(content, exp)
    }
}

/// Points the project's pack item for an asset at `expected`.
pub fn patch_pack_none_include(content: &str, expected: &str, current: &str) -> (r: String)
    ensures
        r@ == patched_pack_include(content@, expected@, current@),
{
    let exp = normalize_include_path(expected);
    let cur = chars_of(current);
    let cur_norm = normalize_include_path(current);
    let exp_chars = chars_of(exp.as_str());
    let cur_norm_chars = chars_of(cur_norm.as_str());
    if cur.len() > 0 && chars_eq(cur_norm_chars.as_slice(), exp_chars.as_slice()) {
        return copy_str(content);
    }
    if cur.len() > 0 {
        let c = chars_of(content);
        assert(c@.len() == c.len());
    assert(c@.len() == c.len());
        let replacement = include_attribute_chars(exp_chars.as_slice());
        let q1 = include_attribute_chars(cur.as_slice());
        match find_chars(c.as_slice(), q1.as_slice()) {
            Some(st) => {
                assert(st + q1@.len() <= c@.len());
                let r = splice_chars(c.as_slice(), st, st + q1.len(), replacement.as_slice());
                return string_from(r.as_slice());
            },
            None => {},
        }
        let q2 = include_attribute_chars(cur_norm_chars.as_slice());
        match find_chars(c.as_slice(), q2.as_slice()) {
            Some(st) => {
                assert(st + q2@.len() <= c@.len());
                let r = splice_chars(c.as_slice(), st, st + q2.len(), replacement.as_slice());
                return string_from(r.as_slice());
            },
            None => {},
        }
    }
    append_pack_none_item(content, exp.as_str())
}


/// What a pack entry decides while the item groups are scanned.
pub ghost enum PackScan {
    /// The entry is the asset's pack item; its `Include` is the result.
    Found(Seq<char>),
    /// The scan stops with no result (an entry without a usable `Include`).
    Stop,
    /// The entry is not the asset's pack item.
    Next,
}

/// How one item of an `ItemGroup` bears on the search for an asset's pack
/// item. Only packed `None` items count; one without an `Include`, or whose
/// `Include` has no file name, ends the search.
pub open spec fn scan_entry(entry: XmlElement, aliases: Seq<Seq<char>>) -> PackScan {
    if entry.name@ != "None"@ || !pack_enabled(entry) {
        PackScan::Next
    } else {
        match attribute(entry, "Include"@) {
            None => PackScan::Stop,
            Some(inc) => if aliases.contains(inc) {
                PackScan::Found(inc)
            } else {
                match include_file_name(inc) {
                    None => PackScan::Stop,
                    Some(f) => if exists|k: int| 0 <= k < aliases.len() && include_file_name(#[trigger] aliases[k]) == Some(f) {
                        PackScan::Found(inc)
                    } else {
                        PackScan::Next
                    },
                }
            },
        }
    }
}

/// The first decisive entry among `items[k..]`.
pub open spec fn scan_items(items: Seq<XmlNode>, aliases: Seq<Seq<char>>, k: int) -> PackScan
    decreases items.len() - k,
{
    if k < 0 || k >= items.len() {
        PackScan::Next
    } else {
        match items[k] {
            XmlNode::Element(e) => match scan_entry(e, aliases) {
                PackScan::Next => scan_items(items, aliases, k + 1),
                other => other,
            },
            _ => scan_items(items, aliases, k + 1),
        }
    }
}

/// The `Include` of the asset's pack item among the `ItemGroup` elements of
/// `groups[i..]`, matched by path or by file name.
pub open spec fn scan_groups(groups: Seq<XmlNode>, aliases: Seq<Seq<char>>, i: int) -> Option<Seq<char>>
    decreases groups.len() - i,
{
    if i < 0 || i >= groups.len() {
        None
    } else {
        match groups[i] {
            XmlNode::Element(g) => if g.name@ == "ItemGroup"@ {
                match scan_items(g.children@, aliases, 0) {
                    PackScan::Found(x) => Some(x),
                    PackScan::Stop => None,
                    PackScan::Next => scan_groups(groups, aliases, i + 1),
                }
            } else {
                scan_groups(groups, aliases, i + 1)
            },
            _ => scan_groups(groups, aliases, i + 1),
        }
    }
}

/// The `Include` of the project's pack item for an asset known by `aliases`.
pub open spec fn pack_include(project: XmlElement, aliases: Seq<Seq<char>>) -> Option<Seq<char>> {
    scan_groups(project.children@, aliases, 0)
}

fn aliases_contain(aliases: &Vec<String>, item: &str) -> (r: bool)
    ensures
        r == views(aliases@).contains(item@),
{
    let it = chars_of(item);
    let mut k: usize = 0;
    while k < aliases.len()
        invariant
            k <= aliases@.len(),
            it@ == item@,
            forall|j: int| 0 <= j < k ==> (#[trigger] aliases@[j])@ != item@,
        decreases aliases.len() - k,
    {
        let a = chars_of(aliases[k].as_str());
        if chars_eq(a.as_slice(), it.as_slice()) {
            assert(views(aliases@)[k as int] == item@);
            return true;
        }
        k = k + 1;
    }
    proof {
        if views(aliases@).contains(item@) {
            let j = choose|j: int| 0 <= j < views(aliases@).len() && views(aliases@)[j] == item@;
            assert(aliases@[j]@ == item@);
        }
    }
    false
}

fn alias_with_file_name(aliases: &Vec<String>, f: &str) -> (r: bool)
    ensures
        r == exists|k: int| 0 <= k < views(aliases@).len() && include_file_name(#[trigger] views(aliases@)[k]) == Some(f@),
{
    let fc = chars_of(f);
    let mut k: usize = 0;
    while k < aliases.len()
        invariant
            k <= aliases@.len(),
            fc@ == f@,
            forall|j: int| 0 <= j < k ==> include_file_name(#[trigger] views(aliases@)[j]) != Some(f@),
        decreases aliases.len() - k,
    {
        assert(views(aliases@)[k as int] == aliases@[k as int]@);
        match csproj_include_file_name(aliases[k].as_str()) {
            Some(g) => {
                let gc = chars_of(g.as_str());
                if chars_eq(gc.as_slice(), fc.as_slice()) {
                    return true;
                }
            },
            None => {},
        }
        k = k + 1;
    }
    false
}

/// What one entry element decides, as the exec scan sees it.
fn scan_entry_exec(entry: &XmlElement, aliases: &Vec<String>) -> (r: (u8, Option<String>))
    ensures
        r.0 == 0 ==> scan_entry(*entry, views(aliases@)) == PackScan::Next,
        r.0 == 1 ==> scan_entry(*entry, views(aliases@)) == PackScan::Stop,
        r.0 == 2 ==> (r.1 matches Some(x) && scan_entry(*entry, views(aliases@)) == PackScan::Found(x@)),
        r.0 <= 2,
{
    let name = chars_of(entry.name.as_str());
    let none = chars_of("None");
    if !chars_eq(name.as_slice(), none.as_slice()) || !none_pack_enabled(entry) {
        return (0, None);
    }
    let inc = match get_attribute(entry, "Include") {
        Some(v) => v,
        None => {
            return (1, None);
        },
    };
    if aliases_contain(aliases, inc.as_str()) {
        return (2, Some(inc));
    }
    match csproj_include_file_name(inc.as_str()) {
        None => (1, None),
        Some(f) => {
            if alias_with_file_name(aliases, f.as_str()) {
                (2, Some(inc))
            } else {
                (0, None)
            }
        },
    }
}

/// Finds the `Include` of the project's pack item for an asset known by
/// `aliases` (its repository path and its file name).
pub fn find_pack_none_include(project: &XmlElement, aliases: &Vec<String>) -> (r: Option<String>)
    ensures
        r matches Some(x) ==> pack_include(*project, views(aliases@)) == Some(x@),
        r is None ==> pack_include(*project, views(aliases@)) is None,
{
    let ghost al = views(aliases@);
    let mut i: usize = 0;
    while i < project.children.len()
        invariant
            i <= project.children@.len(),
            al == views(aliases@),
            pack_include(*project, al) == scan_groups(project.children@, al, i as int),
        decreases project.children.len() - i,
    {
        match &project.children[i] {
            XmlNode::Element(g) => {
                if node_is_element_named(&project.children[i], "ItemGroup") {
                    let mut k: usize = 0;
                    while k < g.children.len()
                        invariant
                            k <= g.children@.len(),
                            al == views(aliases@),
                            scan_items(g.children@, al, 0) == scan_items(g.children@, al, k as int),
                            i < project.children@.len(),
                            project.children@[i as int] == XmlNode::Element(*g),
                            g.name@ == "ItemGroup"@,
                            pack_include(*project, al) == scan_groups(project.children@, al, i as int),
                        decreases g.children.len() - k,
                    {
                        match &g.children[k] {
                            XmlNode::Element(e) => {
                                let (kind, found) = scan_entry_exec(e, aliases);
                                if kind == 1 {
                                    return None;
                                }
                                if kind == 2 {
                                    return found;
                                }
                            },
                            _ => {},
                        }
                        k = k + 1;
                    }
                }
            },
            _ => {},
        }
        i = i + 1;
    }
    None
}

/// The trimmed text of the first property `name`; `None` when the property
/// is missing, has no text, or has only white space.
pub open spec fn property_text(project: XmlElement, name: Seq<char>) -> Option<Seq<char>> {
    match property_from(project.children@, name, 0) {
        Some(p) => match element_text(p) {
            Some(t) => if trim(t).len() == 0 { None } else { Some(trim(t)) },
            None => None,
        },
        None => None,
    }
}

/// The trimmed text of the first property `name`, when it is not empty.
pub fn find_property_text(project: &XmlElement, name: &str) -> (r: Option<String>)
    ensures
        r matches Some(t) ==> property_text(*project, name@) == Some(t@),
        r is None ==> property_text(*project, name@) is None,
{
    match find_property(project, name) {
        Some(p) => match get_text(p) {
            Some(t) => {
                let c = chars_of(t.as_str());
                let tt = trim_chars(c.as_slice());
                if tt.len() == 0 {
                    None
                } else {
                    Some(string_from(tt.as_slice()))
                }
            },
            None => None,
        },
        None => None,
    }
}

/// The NuGet metadata a csproj carries for `dhara.config.toml` to own.
#[derive(Debug)]
pub struct ManagedCsprojSnapshot {
    pub package_id: String,
    pub version: String,
    pub description: String,
    pub package_readme_file: String,
    pub repository_url: String,
    pub package_project_url: String,
    pub authors: String,
    pub package_tags: String,
    pub package_icon: Option<String>,
    pub readme_include: String,
    pub icon_include: Option<String>,
}

/// The view of a managed snapshot.
pub ghost struct SnapshotView {
    pub package_id: Seq<char>,
    pub version: Seq<char>,
    pub description: Seq<char>,
    pub package_readme_file: Seq<char>,
    pub repository_url: Seq<char>,
    pub package_project_url: Seq<char>,
    pub authors: Seq<char>,
    pub package_tags: Seq<char>,
    pub package_icon: Option<Seq<char>>,
    pub readme_include: Seq<char>,
    pub icon_include: Option<Seq<char>>,
}

pub open spec fn opt_view(o: Option<String>) -> Option<Seq<char>> {
    match o {
        Some(s) => Some(s@),
        None => None,
    }
}

impl View for ManagedCsprojSnapshot {
    type V = SnapshotView;

    open spec fn view(&self) -> SnapshotView {
        SnapshotView {
            package_id: self.package_id@,
            version: self.version@,
            description: self.description@,
            package_readme_file: self.package_readme_file@,
            repository_url: self.repository_url@,
            package_project_url: self.package_project_url@,
            authors: self.authors@,
            package_tags: self.package_tags@,
            package_icon: opt_view(self.package_icon),
            readme_include: self.readme_include@,
            icon_include: opt_view(self.icon_include),
        }
    }
}

fn same_text(a: &String, b: &String) -> (r: bool)
    ensures
        r == (a@ == b@),
{
    let x = chars_of(a.as_str());
    let y = chars_of(b.as_str());
    chars_eq(x.as_slice(), y.as_slice())
}

fn same_opt(a: &Option<String>, b: &Option<String>) -> (r: bool)
    ensures
        r == (opt_view(*a) == opt_view(*b)),
{
    match (a, b) {
        (Some(x), Some(y)) => same_text(x, y),
        (None, None) => true,
        _ => false,
    }
}

impl ManagedCsprojSnapshot {
    /// Field-by-field equality.
    pub fn same_as(&self, other: &ManagedCsprojSnapshot) -> (r: bool)
        ensures
            r == (self@ == other@),
    {
        same_text(&self.package_id, &other.package_id)
            && same_text(&self.version, &other.version)
            && same_text(&self.description, &other.description)
            && same_text(&self.package_readme_file, &other.package_readme_file)
            && same_text(&self.repository_url, &other.repository_url)
            && same_text(&self.package_project_url, &other.package_project_url)
            && same_text(&self.authors, &other.authors)
            && same_text(&self.package_tags, &other.package_tags)
            && same_opt(&self.package_icon, &other.package_icon)
            && same_text(&self.readme_include, &other.readme_include)
            && same_opt(&self.icon_include, &other.icon_include)
    }
}

/// The managed metadata that the configuration prescribes.
pub open spec fn snapshot_from_config(config: DharaRepoConfig) -> Result<SnapshotView, CsprojErrorView> {
    let readme = config.nuget.readme@;
    let project = config.ci.package_project@;
    match file_name_result(readme) {
        Err(e) => Err(e),
        Ok(readme_file) => match project_relative(readme, project) {
            Err(e) => Err(e),
            Ok(readme_include) => {
                let icon_include = match config.nuget.icon {
                    None => Ok(None),
                    Some(i) => match project_relative(i@, project) {
                        Ok(x) => Ok(Some(x)),
                        Err(e) => Err(e),
                    },
                };
                match icon_include {
                    Err(e) => Err(e),
                    Ok(icon_include) => {
                        let package_icon = match config.nuget.icon {
                            None => Ok(None),
                            Some(i) => match file_name_result(i@) {
                                Ok(x) => Ok(Some(x)),
                                Err(e) => Err(e),
                            },
                        };
                        match package_icon {
                            Err(e) => Err(e),
                            Ok(package_icon) => Ok(SnapshotView {
                                package_id: config.nuget.package_id@,
                                version: config.versions.workspace@,
                                description: config.nuget.description@,
                                package_readme_file: readme_file,
                                repository_url: config.nuget.repository_url@,
                                package_project_url: config.nuget.project_url@,
                                authors: join(views(config.nuget.authors@), ";"@),
                                package_tags: join(views(config.nuget.tags@), ";"@),
                                package_icon,
                                readme_include,
                                icon_include,
                            }),
                        }
                    },
                }
            },
        },
    }
}

/// The snapshot as a result, in view form.
pub open spec fn snapshot_result(r: Result<ManagedCsprojSnapshot, CsprojError>) -> Result<SnapshotView, CsprojErrorView> {
    match r {
        Ok(s) => Ok(s@),
        Err(e) => Err(e@),
    }
}

fn join_semicolon(parts: &Vec<String>) -> (r: String)
    ensures
        r@ == join(views(parts@), ";"@),
{
    let v = crate::text::join_strings(parts.as_slice(), ";");
    string_from(v.as_slice())
}

/// Builds the managed metadata that the configuration prescribes.
pub fn managed_csproj_snapshot_from_config(config: &DharaRepoConfig) -> (r: Result<ManagedCsprojSnapshot, CsprojError>)
    ensures
        snapshot_result(r) == snapshot_from_config(*config),
{
    let readme_file = file_name(config.nuget.readme.as_str())?;
    let readme_include = project_relative_include(config.nuget.readme.as_str(), config.ci.package_project.as_str())?;
    let icon_include = match &config.nuget.icon {
        None => None,
        Some(i) => Some(project_relative_include(i.as_str(), config.ci.package_project.as_str())?),
    };
    let package_icon = match &config.nuget.icon {
        None => None,
        Some(i) => Some(file_name(i.as_str())?),
    };
    Ok(ManagedCsprojSnapshot {
        package_id: config.nuget.package_id.clone(),
        version: config.versions.workspace.clone(),
        description: config.nuget.description.clone(),
        package_readme_file: readme_file,
        repository_url: config.nuget.repository_url.clone(),
        package_project_url: config.nuget.project_url.clone(),
        authors: join_semicolon(&config.nuget.authors),
        package_tags: join_semicolon(&config.nuget.tags),
        package_icon,
        readme_include,
        icon_include,
    })
}


pub open spec fn text_or_empty(o: Option<Seq<char>>) -> Seq<char> {
    match o {
        Some(t) => t,
        None => Seq::empty(),
    }
}

pub open spec fn normalized_opt(o: Option<Seq<char>>) -> Option<Seq<char>> {
    match o {
        Some(t) => Some(normalized_include(t)),
        None => None,
    }
}

/// The managed metadata that a parsed project carries.
pub open spec fn snapshot_of_project(project: XmlElement, config: DharaRepoConfig, readme_file: Seq<char>) -> SnapshotView {
    let readme = config.nuget.readme@;
    SnapshotView {
        package_id: text_or_empty(property_text(project, "PackageId"@)),
        version: text_or_empty(property_text(project, "Version"@)),
        description: text_or_empty(property_text(project, "Description"@)),
        package_readme_file: text_or_empty(property_text(project, "PackageReadmeFile"@)),
        repository_url: text_or_empty(property_text(project, "RepositoryUrl"@)),
        package_project_url: text_or_empty(property_text(project, "PackageProjectUrl"@)),
        authors: text_or_empty(property_text(project, "Authors"@)),
        package_tags: text_or_empty(property_text(project, "PackageTags"@)),
        package_icon: property_text(project, "PackageIcon"@),
        readme_include: text_or_empty(normalized_opt(pack_include(project, seq![readme, readme_file]))),
        icon_include: match config.nuget.icon {
            None => None,
            Some(i) => match file_name_of(i@) {
                None => None,
                Some(f) => normalized_opt(pack_include(project, seq![i@, f])),
            },
        },
    }
}

/// The managed metadata that the project text carries; an error when it is
/// not well-formed XML or the configured readme has no file name.
pub open spec fn snapshot_from_content(content: Seq<char>, config: DharaRepoConfig) -> Result<SnapshotView, CsprojErrorView> {
    match xml_document(content) {
        None => Err(CsprojErrorView::Parse),
        Some(project) => match file_name_result(config.nuget.readme@) {
            Err(e) => Err(e),
            Ok(readme_file) => Ok(snapshot_of_project(project, config, readme_file)),
        },
    }
}

fn property_or_empty(project: &XmlElement, name: &str) -> (r: String)
    ensures
        r@ == text_or_empty(property_text(*project, name@)),
{
    match find_property_text(project, name) {
        Some(t) => t,
        None => {
            let r = String::new();
            r
        },
    }
}

fn pair_of(a: &str, b: &str) -> (r: Vec<String>)
    ensures
        views(r@) == seq![a@, b@],
{
    let mut r: Vec<String> = Vec::new();
    r.push(copy_str(a));
    r.push(copy_str(b));
    assert(views(r@) =~= seq![a@, b@]);
    r
}

/// Reads the managed metadata out of the project text.
pub fn managed_csproj_snapshot_from_content(content: &str, config: &DharaRepoConfig) -> (r: Result<ManagedCsprojSnapshot, CsprojError>)
    ensures
        snapshot_result(r) == snapshot_from_content(content@, *config),
{
    let project = match parse_document(content) {
        Some(p) => p,
        None => {
            return Err(CsprojError::Parse);
        },
    };
    let readme_file = file_name(config.nuget.readme.as_str())?;
    let readme_aliases = pair_of(config.nuget.readme.as_str(), readme_file.as_str());
    let readme_include = match find_pack_none_include(&project, &readme_aliases) {
        Some(p) => normalize_include_path(p.as_str()),
        None => String::new(),
    };
    let icon_include = match &config.nuget.icon {
        None => None,
        Some(icon) => match path_file_name(icon.as_str()) {
            None => None,
            Some(icon_file) => {
                let aliases = pair_of(icon.as_str(), icon_file.as_str());
                match find_pack_none_include(&project, &aliases) {
                    Some(p) => Some(normalize_include_path(p.as_str())),
                    None => None,
                }
            },
        },
    };
    Ok(ManagedCsprojSnapshot {
        package_id: property_or_empty(&project, "PackageId"),
        version: property_or_empty(&project, "Version"),
        description: property_or_empty(&project, "Description"),
        package_readme_file: property_or_empty(&project, "PackageReadmeFile"),
        repository_url: property_or_empty(&project, "RepositoryUrl"),
        package_project_url: property_or_empty(&project, "PackageProjectUrl"),
        authors: property_or_empty(&project, "Authors"),
        package_tags: property_or_empty(&project, "PackageTags"),
        package_icon: find_property_text(&project, "PackageIcon"),
        readme_include,
        icon_include,
    })
}

/// The project text with each `(name, value)` property set in turn; the
/// first failing edit's error otherwise.
pub open spec fn upserted_all(content: Seq<char>, props: Seq<(Seq<char>, Seq<char>)>) -> Result<Seq<char>, CsprojErrorView>
    decreases props.len(),
{
    if props.len() == 0 {
        Ok(content)
    } else {
        match upserted_all(content, props.drop_last()) {
            Err(e) => Err(e),
            Ok(c) => upserted_property(c, props.last().0, props.last().1),
        }
    }
}

/// The eight text properties the configuration owns, with their values.
pub open spec fn managed_properties(expected: SnapshotView) -> Seq<(Seq<char>, Seq<char>)> {
    seq![
        ("PackageId"@, expected.package_id),
        ("Version"@, expected.version),
        ("Description"@, expected.description),
        ("PackageReadmeFile"@, expected.package_readme_file),
        ("RepositoryUrl"@, expected.repository_url),
        ("PackageProjectUrl"@, expected.package_project_url),
        ("Authors"@, expected.authors),
        ("PackageTags"@, expected.package_tags),
    ]
}

/// The icon property edit: set it when configured, remove it when only the
/// project has one.
pub open spec fn icon_edit(c: Seq<char>, expected: Option<Seq<char>>, current: Option<Seq<char>>) -> Result<Seq<char>, CsprojErrorView> {
    match expected {
        Some(icon) => upserted_property(c, "PackageIcon"@, icon),
        None => match current {
            Some(_) => Ok(removed_property(c, "PackageIcon"@)),
            None => Ok(c),
        },
    }
}

/// The pack-item edits for the readme and, when configured, the icon.
pub open spec fn include_edits(c: Seq<char>, config: DharaRepoConfig, expected: SnapshotView, current: SnapshotView) -> Result<Seq<char>, CsprojErrorView> {
    match file_name_result(config.nuget.readme@) {
        Err(e) => Err(e),
        Ok(_) => {
            let c2 = patched_pack_include(c, expected.readme_include, current.readme_include);
            match expected.icon_include {
                None => Ok(c2),
                Some(icon_include) => {
                    let source = match config.nuget.icon {
                        Some(i) => i@,
                        None => icon_include,
                    };
                    match file_name_result(source) {
                        Err(e) => Err(e),
                        Ok(_) => Ok(patched_pack_include(c2, icon_include, text_or_empty(current.icon_include))),
                    }
                },
            }
        },
    }
}

/// The project text brought in line with the configuration: unchanged when
/// its managed metadata already matches; otherwise each managed property is
/// set, the icon property set or removed, and the pack items repointed.
pub open spec fn synced_csproj(content: Seq<char>, config: DharaRepoConfig) -> Result<Seq<char>, CsprojErrorView> {
    match snapshot_from_config(config) {
        Err(e) => Err(e),
        Ok(expected) => match snapshot_from_content(content, config) {
            Err(e) => Err(e),
            Ok(current) => if current == expected {
                Ok(content)
            } else {
                match upserted_all(content, managed_properties(expected)) {
                    Err(e) => Err(e),
                    Ok(c1) => match icon_edit(c1, expected.package_icon, current.package_icon) {
                        Err(e) => Err(e),
                        Ok(c2) => include_edits(c2, config, expected, current),
                    },
                }
            },
        },
    }
}

/// The project's managed metadata differs from what the configuration
/// prescribes (compared field by field, not as text).
pub open spec fn needs_sync(content: Seq<char>, config: DharaRepoConfig) -> Result<bool, CsprojErrorView> {
    match snapshot_from_content(content, config) {
        Err(e) => Err(e),
        Ok(current) => match snapshot_from_config(config) {
            Err(e) => Err(e),
            Ok(expected) => Ok(current != expected),
        },
    }
}

/// Whether the project's managed metadata differs from the configuration.
pub fn csproj_needs_sync(content: &str, config: &DharaRepoConfig) -> (r: Result<bool, CsprojError>)
    ensures
        match r {
            Ok(b) => needs_sync(content@, *config) == Ok::<bool, CsprojErrorView>(b),
            Err(e) => needs_sync(content@, *config) == Err::<bool, CsprojErrorView>(e@),
        },
{
    let current = managed_csproj_snapshot_from_content(content, config)?;
    let expected = managed_csproj_snapshot_from_config(config)?;
    Ok(!current.same_as(&expected))
}

/// Views of a list of text pairs.
pub open spec fn pair_views(v: Seq<(String, String)>) -> Seq<(Seq<char>, Seq<char>)> {
    v.map_values(|p: (String, String)| (p.0@, p.1@))
}

proof fn lemma_upserted_all_error(c: Seq<char>, p: Seq<(Seq<char>, Seq<char>)>, j: int, e: CsprojErrorView)
    requires
        0 <= j <= p.len(),
        upserted_all(c, p.subrange(0, j)) == Err::<Seq<char>, CsprojErrorView>(e),
    ensures
        upserted_all(c, p) == Err::<Seq<char>, CsprojErrorView>(e),
    decreases p.len() - j,
{
    if j == p.len() {
        assert(p.subrange(0, j) =~= p);
    } else {
        assert(p.subrange(0, j + 1).drop_last() =~= p.subrange(0, j));
        lemma_upserted_all_error(c, p, j + 1, e);
    }
}

/// Sets each listed property in turn.
pub fn upsert_all(content: &str, props: &Vec<(String, String)>) -> (r: Result<String, CsprojError>)
    ensures
        text_result(r) == upserted_all(content@, pair_views(props@)),
{
    let ghost pv = pair_views(props@);
    let mut updated = copy_str(content);
    assert(pv.subrange(0, 0) =~= Seq::<(Seq<char>, Seq<char>)>::empty());
    let mut i: usize = 0;
    while i < props.len()
        invariant
            i <= props@.len(),
            pv == pair_views(props@),
            upserted_all(content@, pv.subrange(0, i as int)) == Ok::<Seq<char>, CsprojErrorView>(updated@),
        decreases props.len() - i,
    {
        assert(pv.subrange(0, i + 1).drop_last() =~= pv.subrange(0, i as int));
        assert(pv.subrange(0, i + 1).last() == (props@[i as int].0@, props@[i as int].1@));
        match upsert_property_element(updated.as_str(), props[i].0.as_str(), props[i].1.as_str()) {
            Ok(u) => {
                updated = u;
            },
            Err(e) => {
                proof {
                    lemma_upserted_all_error(content@, pv, i + 1, e@);
                }
                return Err(e);
            },
        }
        i = i + 1;
    }
    assert(pv.subrange(0, props@.len() as int) =~= pv);
    Ok(updated)
}

fn named_pair(name: &str, value: &String) -> (r: (String, String))
    ensures
        r.0@ == name@,
        r.1@ == value@,
{
    (copy_str(name), value.clone())
}

/// The managed text properties with their expected values.
fn managed_property_list(expected: &ManagedCsprojSnapshot) -> (r: Vec<(String, String)>)
    ensures
        pair_views(r@) == managed_properties(expected@),
{
    let mut r: Vec<(String, String)> = Vec::new();
    r.push(named_pair("PackageId", &expected.package_id));
    r.push(named_pair("Version", &expected.version));
    r.push(named_pair("Description", &expected.description));
    r.push(named_pair("PackageReadmeFile", &expected.package_readme_file));
    r.push(named_pair("RepositoryUrl", &expected.repository_url));
    r.push(named_pair("PackageProjectUrl", &expected.package_project_url));
    r.push(named_pair("Authors", &expected.authors));
    r.push(named_pair("PackageTags", &expected.package_tags));
    assert(pair_views(r@) =~= managed_properties(expected@));
    r
}

fn upsert_into(updated: String, name: &str, value: &String) -> (r: Result<String, CsprojError>)
    ensures
        text_result(r) == upserted_property(updated@, name@, value@),
{
    upsert_property_element(updated.as_str(), name, value.as_str())
}

/// Brings the project text in line with the configuration's NuGet metadata.
pub fn sync_csproj(content: &str, config: &DharaRepoConfig) -> (r: Result<String, CsprojError>)
    ensures
        text_result(r) == synced_csproj(content@, *config),
{
    let expected = managed_csproj_snapshot_from_config(config)?;
    let current = managed_csproj_snapshot_from_content(content, config)?;
    if current.same_as(&expected) {
        return Ok(copy_str(content));
    }
    let props = managed_property_list(&expected);
    let mut updated = match upsert_all(content, &props) {
        Ok(u) => u,
        Err(e) => {
            return Err(e);
        },
    };

    match (&expected.package_icon, &current.package_icon) {
        (Some(icon), _) => {
            updated = upsert_into(updated, "PackageIcon", icon)?;
        },
        (None, Some(_)) => {
            updated = remove_property_element(updated.as_str(), "PackageIcon");
        },
        (None, None) => {},
    }

    let _readme_file = file_name(config.nuget.readme.as_str())?;
    updated = patch_pack_none_include(updated.as_str(), expected.readme_include.as_str(), current.readme_include.as_str());

    match &expected.icon_include {
        None => {},
        Some(icon_include) => {
            let source: &str = match &config.nuget.icon {
                Some(i) => i.as_str(),
                None => icon_include.as_str(),
            };
            let _icon_file = file_name(source)?;
            let current_icon: &str = match &current.icon_include {
                Some(x) => x.as_str(),
                None => "",
            };
            proof {
                if current.icon_include is None {
                    assert(""@ =~= Seq::<char>::empty()) by {
                        reveal_strlit("");
                    }
                }
            }
            updated = patch_pack_none_include(updated.as_str(), icon_include.as_str(), current_icon);
        },
    }
    Ok(updated)
}


/// A project whose managed metadata already agrees with the configuration is
/// left byte for byte as it is.
pub proof fn lemma_in_sync_is_unchanged(content: Seq<char>, config: DharaRepoConfig)
    requires
        needs_sync(content, config) == Ok::<bool, CsprojErrorView>(false),
    ensures
        synced_csproj(content, config) == Ok::<Seq<char>, CsprojErrorView>(content),
{
}


/// The metadata the configuration prescribes takes each field from its own
/// configuration entry: package id, workspace version, description,
/// repository URL, project URL, and the authors and tags joined with `;`.
/// The properties a sync writes carry exactly these values under their own
/// names.
pub proof fn lemma_prescribed_fields_come_from_config(config: DharaRepoConfig)
    requires
        snapshot_from_config(config) is Ok,
    ensures
        ({
            let e = snapshot_from_config(config)->Ok_0;
            &&& e.package_id == config.nuget.package_id@
            &&& e.version == config.versions.workspace@
            &&& e.description == config.nuget.description@
            &&& e.repository_url == config.nuget.repository_url@
            &&& e.package_project_url == config.nuget.project_url@
            &&& e.authors == join(views(config.nuget.authors@), ";"@)
            &&& e.package_tags == join(views(config.nuget.tags@), ";"@)
            &&& file_name_result(config.nuget.readme@) == Ok::<Seq<char>, CsprojErrorView>(e.package_readme_file)
            &&& (e.package_icon is None <==> config.nuget.icon is None)
            &&& (config.nuget.icon matches Some(i) ==> file_name_result(i@) == Ok::<Seq<char>, CsprojErrorView>(e.package_icon->Some_0))
            &&& managed_properties(e).contains(("PackageId"@, config.nuget.package_id@))
            &&& managed_properties(e).contains(("Version"@, config.versions.workspace@))
            &&& managed_properties(e).contains(("Description"@, config.nuget.description@))
            &&& managed_properties(e).contains(("RepositoryUrl"@, config.nuget.repository_url@))
            &&& managed_properties(e).contains(("PackageProjectUrl"@, config.nuget.project_url@))
            &&& managed_properties(e).contains(("Authors"@, join(views(config.nuget.authors@), ";"@)))
            &&& managed_properties(e).contains(("PackageTags"@, join(views(config.nuget.tags@), ";"@)))
            &&& managed_properties(e).contains(("PackageReadmeFile"@, e.package_readme_file))
        }),
{
    let e = snapshot_from_config(config)->Ok_0;
    let m = managed_properties(e);
    assert(m[0] == ("PackageId"@, e.package_id));
    assert(m[1] == ("Version"@, e.version));
    assert(m[2] == ("Description"@, e.description));
    assert(m[3] == ("PackageReadmeFile"@, e.package_readme_file));
    assert(m[4] == ("RepositoryUrl"@, e.repository_url));
    assert(m[5] == ("PackageProjectUrl"@, e.package_project_url));
    assert(m[6] == ("Authors"@, e.authors));
    assert(m[7] == ("PackageTags"@, e.package_tags));
}

/// A project judged in sync carries, in each managed property, the value its
/// configuration entry gives: the project URL property holds the configured
/// project URL, the repository URL property the configured repository URL,
/// and so on field by field.
pub proof fn lemma_in_sync_project_matches_config(content: Seq<char>, config: DharaRepoConfig)
    requires
        needs_sync(content, config) == Ok::<bool, CsprojErrorView>(false),
    ensures
        xml_document(content) is Some,
        ({
            let project = xml_document(content)->Some_0;
            &&& text_or_empty(property_text(project, "PackageId"@)) == config.nuget.package_id@
            &&& text_or_empty(property_text(project, "Version"@)) == config.versions.workspace@
            &&& text_or_empty(property_text(project, "Description"@)) == config.nuget.description@
            &&& text_or_empty(property_text(project, "RepositoryUrl"@)) == config.nuget.repository_url@
            &&& text_or_empty(property_text(project, "PackageProjectUrl"@)) == config.nuget.project_url@
            &&& text_or_empty(property_text(project, "Authors"@)) == join(views(config.nuget.authors@), ";"@)
            &&& text_or_empty(property_text(project, "PackageTags"@)) == join(views(config.nuget.tags@), ";"@)
        }),
{
    lemma_prescribed_fields_come_from_config(config);
}

} // verus!

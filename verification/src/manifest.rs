//! The version fields of the Cargo manifests and of the package csproj:
//! keeping them at the configured version and checking that they agree.

use vstd::prelude::*;
use crate::text::{
    chars_of, string_from, copy_str, push_str, push_all, trim, trim_chars, chars_eq, views, concat2,
    concat4, concat5,
};
use crate::xml::{XmlElement, xml_document, parse_document, property_from, find_property, element_text, get_text};
use crate::repo_config::{semver_parsed, parse_semver, DharaRepoConfig};

verus! {

/// What a TOML document holds at a path of keys.
pub enum TomlLookup {
    /// The text is not a TOML document.
    Unparsable,
    /// Some key along the path is absent.
    Missing,
    /// The path leads to something other than a string.
    NotString,
    /// The path leads to this string.
    Text(String),
}

/// The view of a TOML lookup.
pub ghost enum TomlLookupView {
    Unparsable,
    Missing,
    NotString,
    Text(Seq<char>),
}

impl View for TomlLookup {
    type V = TomlLookupView;

    open spec fn view(&self) -> TomlLookupView {
        match self {
            TomlLookup::Unparsable => TomlLookupView::Unparsable,
            TomlLookup::Missing => TomlLookupView::Missing,
            TomlLookup::NotString => TomlLookupView::NotString,
            TomlLookup::Text(s) => TomlLookupView::Text(s@),
        }
    }
}

/// What `toml_edit` finds at `path` of the document `content`.
pub uninterp spec fn toml_string_at(content: Seq<char>, path: Seq<Seq<char>>) -> TomlLookupView;

/// The text `toml_edit` renders after parsing `content` and setting the
/// string `value` at each of `paths`; `None` where it does not parse or a
/// path runs through a value that is not a table.
pub uninterp spec fn toml_strings_set(content: Seq<char>, paths: Seq<Seq<Seq<char>>>, value: Seq<char>) -> Option<Seq<char>>;

/// Views of a list of key paths.
pub open spec fn path_views(paths: Seq<Vec<String>>) -> Seq<Seq<Seq<char>>> {
    paths.map_values(|p: Vec<String>| views(p@))
}

/// Parses `content` as a `toml_edit::DocumentMut` and follows `path` with
/// `Item::get`, then reads the item with `Item::as_str`. The contract claims
/// only that the outcome is the one `toml_string_at` names.
#[verifier::external_body]
fn toml_lookup(content: &str, path: &Vec<String>) -> (r: TomlLookup)
    ensures
        r@ == toml_string_at(content@, views(path@)),
{
    let Ok(doc) = content.parse::<toml_edit::DocumentMut>() else { return TomlLookup::Unparsable };
    let mut item = doc.as_item();
    for key in path {
        let Some(next) = item.get(key.as_str()) else { return TomlLookup::Missing };
        item = next;
    }
    match item.as_str() {
        Some(s) => TomlLookup::Text(s.to_owned()),
        None => TomlLookup::NotString,
    }
}

/// Parses `content` as a `toml_edit::DocumentMut`, sets `toml_edit::value`
/// of the string at each path (walking with `Item::get_mut`,
/// which adds missing tables) and renders the document with `to_string`.
/// The contract claims only that the outcome is the one `toml_strings_set`
/// names. Every key path must be non-empty: an empty one would replace the
/// document root by a value, and rendering such a document panics.
#[verifier::external_body]
fn toml_set_strings(content: &str, paths: &Vec<Vec<String>>, value: &str) -> (r: Option<String>)
    requires
        forall|i: int| 0 <= i < paths@.len() ==> (#[trigger] paths@[i])@.len() > 0,
    ensures
        match r {
            Some(s) => toml_strings_set(content@, path_views(paths@), value@) == Some(s@),
            None => toml_strings_set(content@, path_views(paths@), value@) is None,
        },
{
    let mut doc = content.parse::<toml_edit::DocumentMut>().ok()?;
    for path in paths {
        let mut item = doc.as_item_mut();
        for key in path {
            item = item.get_mut(key.as_str())?;
        }
        *item = toml_edit::value(value);
    }
    Some(doc.to_string())
}

/// Errors of the manifest rules.
#[derive(Debug, Clone)]
pub enum ManifestError {
    /// The workspace version to write is not a semantic version.
    InvalidWorkspaceVersion(String),
    /// The tool version to write is not a semantic version.
    InvalidToolVersion(String),
    /// The named manifest could not be parsed or updated.
    Unparsable(String),
    /// The tool manifest has no string `package.version`.
    MissingToolVersion,
    /// The tool manifest's version is not a semantic version.
    InvalidToolSemver(String),
    /// The labelled key is absent.
    KeyMissing(String),
    /// The labelled key is not a string.
    KeyNotString(String),
    /// The labelled key holds another version: label, actual, expected.
    KeyMismatch(String, String, String),
    /// The package csproj is not well-formed XML.
    CsprojUnparsable,
    /// The package csproj has no `Version` property text.
    CsprojVersionMissing,
    /// The package csproj's version differs: actual, expected.
    CsprojVersionMismatch(String, String),
}

/// The view of a manifest error.
pub ghost enum ManifestErrorView {
    InvalidWorkspaceVersion(Seq<char>),
    InvalidToolVersion(Seq<char>),
    Unparsable(Seq<char>),
    MissingToolVersion,
    InvalidToolSemver(Seq<char>),
    KeyMissing(Seq<char>),
    KeyNotString(Seq<char>),
    KeyMismatch(Seq<char>, Seq<char>, Seq<char>),
    CsprojUnparsable,
    CsprojVersionMissing,
    CsprojVersionMismatch(Seq<char>, Seq<char>),
}

impl View for ManifestError {
    type V = ManifestErrorView;

    open spec fn view(&self) -> ManifestErrorView {
        match self {
            ManifestError::InvalidWorkspaceVersion(s) => ManifestErrorView::InvalidWorkspaceVersion(s@),
            ManifestError::InvalidToolVersion(s) => ManifestErrorView::InvalidToolVersion(s@),
            ManifestError::Unparsable(s) => ManifestErrorView::Unparsable(s@),
            ManifestError::MissingToolVersion => ManifestErrorView::MissingToolVersion,
            ManifestError::InvalidToolSemver(s) => ManifestErrorView::InvalidToolSemver(s@),
            ManifestError::KeyMissing(s) => ManifestErrorView::KeyMissing(s@),
            ManifestError::KeyNotString(s) => ManifestErrorView::KeyNotString(s@),
            ManifestError::KeyMismatch(a, b, c) => ManifestErrorView::KeyMismatch(a@, b@, c@),
            ManifestError::CsprojUnparsable => ManifestErrorView::CsprojUnparsable,
            ManifestError::CsprojVersionMissing => ManifestErrorView::CsprojVersionMissing,
            ManifestError::CsprojVersionMismatch(a, b) => ManifestErrorView::CsprojVersionMismatch(a@, b@),
        }
    }
}

/// What a manifest error says.
pub open spec fn manifest_error_text(e: ManifestErrorView) -> Seq<char> {
    match e {
        ManifestErrorView::InvalidWorkspaceVersion(v) => "invalid rust workspace version: "@ + v,
        ManifestErrorView::InvalidToolVersion(v) => "invalid tool version: "@ + v,
        ManifestErrorView::Unparsable(name) => "failed to parse "@ + name,
        ManifestErrorView::MissingToolVersion => "tooling/dhara_tool/Cargo.toml is missing package.version"@,
        ManifestErrorView::InvalidToolSemver(v) => "invalid tool semver: "@ + v,
        ManifestErrorView::KeyMissing(l) => l + " is missing"@,
        ManifestErrorView::KeyNotString(l) => l + " must be a string"@,
        ManifestErrorView::KeyMismatch(l, a, x) => l + " is "@ + a + ", expected "@ + x,
        ManifestErrorView::CsprojUnparsable => "failed to parse package csproj"@,
        ManifestErrorView::CsprojVersionMissing => "Version property missing from the package csproj"@,
        ManifestErrorView::CsprojVersionMismatch(a, x) => "package csproj Version is "@ + a + ", expected "@ + x,
    }
}

impl ManifestError {
    /// The error's message.
    pub fn message(&self) -> (r: String)
        ensures
            r@ == manifest_error_text(self@),
    {
        match self {
            ManifestError::InvalidWorkspaceVersion(v) => concat2("invalid rust workspace version: ", v.as_str()),
            ManifestError::InvalidToolVersion(v) => concat2("invalid tool version: ", v.as_str()),
            ManifestError::Unparsable(name) => concat2("failed to parse ", name.as_str()),
            ManifestError::MissingToolVersion => copy_str("tooling/dhara_tool/Cargo.toml is missing package.version"),
            ManifestError::InvalidToolSemver(v) => concat2("invalid tool semver: ", v.as_str()),
            ManifestError::KeyMissing(l) => concat2(l.as_str(), " is missing"),
            ManifestError::KeyNotString(l) => concat2(l.as_str(), " must be a string"),
            ManifestError::KeyMismatch(l, a, x) => concat5(l.as_str(), " is ", a.as_str(), ", expected ", x.as_str()),
            ManifestError::CsprojUnparsable => copy_str("failed to parse package csproj"),
            ManifestError::CsprojVersionMissing => copy_str("Version property missing from the package csproj"),
            ManifestError::CsprojVersionMismatch(a, x) => concat4("package csproj Version is ", a.as_str(), ", expected ", x.as_str()),
        }
    }
}

/// A text result in view form.
pub open spec fn manifest_text(r: Result<String, ManifestError>) -> Result<Seq<char>, ManifestErrorView> {
    match r {
        Ok(s) => Ok(s@),
        Err(e) => Err(e@),
    }
}

fn strings(parts: &[&str]) -> (r: Vec<String>)
    ensures
        r@.len() == parts@.len(),
        forall|i: int| 0 <= i < parts@.len() ==> (#[trigger] r@[i])@ == parts@[i]@,
{
    let mut r: Vec<String> = Vec::new();
    let mut i: usize = 0;
    while i < parts.len()
        invariant
            i <= parts@.len(),
            r@.len() == i,
            forall|j: int| 0 <= j < i ==> (#[trigger] r@[j])@ == parts@[j]@,
        decreases parts.len() - i,
    {
        r.push(string_from(chars_of(parts[i]).as_slice()));
        i = i + 1;
    }
    r
}

/// The key paths of the root manifest that carry the workspace version.
pub open spec fn workspace_version_paths() -> Seq<Seq<Seq<char>>> {
    seq![
        seq!["workspace"@, "package"@, "version"@],
        seq!["workspace"@, "dependencies"@, "dhara_storage_dal"@, "version"@],
        seq!["workspace"@, "dependencies"@, "dhara_storage"@, "version"@],
    ]
}

/// The key path of the tool manifest's version.
pub open spec fn tool_version_path() -> Seq<Seq<char>> {
    seq!["package"@, "version"@]
}

/// The name the root manifest is reported under.
pub open spec fn root_manifest_label() -> Seq<char> {
    "Cargo.toml"@
}

/// The name the tool manifest is reported under.
pub open spec fn tool_manifest_label() -> Seq<char> {
    "tooling/dhara_tool/Cargo.toml"@
}

/// The root manifest with the workspace package version and the versions of
/// the two storage crates in the workspace dependencies set to `version`.
pub open spec fn synced_cargo_toml(content: Seq<char>, version: Seq<char>) -> Result<Seq<char>, ManifestErrorView> {
    if semver_parsed(version) is None {
        Err(ManifestErrorView::InvalidWorkspaceVersion(version))
    } else {
        match toml_strings_set(content, workspace_version_paths(), version) {
            Some(t) => Ok(t),
            None => Err(ManifestErrorView::Unparsable(root_manifest_label())),
        }
    }
}

/// Sets the workspace version fields of the root `Cargo.toml`.
pub fn sync_cargo_toml(content: &str, version: &str) -> (r: Result<String, ManifestError>)
    ensures
        manifest_text(r) == synced_cargo_toml(content@, version@),
{
    if parse_semver(version).is_none() {
        return Err(ManifestError::InvalidWorkspaceVersion(string_from(chars_of(version).as_slice())));
    }
    let mut paths: Vec<Vec<String>> = Vec::new();
    paths.push(strings(&["workspace", "package", "version"]));
    paths.push(strings(&["workspace", "dependencies", "dhara_storage_dal", "version"]));
    paths.push(strings(&["workspace", "dependencies", "dhara_storage", "version"]));
    assert(path_views(paths@) =~= workspace_version_paths()) by {
        assert(views(paths@[0]@) =~= workspace_version_paths()[0]);
        assert(views(paths@[1]@) =~= workspace_version_paths()[1]);
        assert(views(paths@[2]@) =~= workspace_version_paths()[2]);
    }
    match toml_set_strings(content, &paths, version) {
        Some(t) => Ok(t),
        None => Err(ManifestError::Unparsable(string_from(chars_of("Cargo.toml").as_slice()))),
    }
}

/// The tool manifest with `package.version` set to `version`.
pub open spec fn synced_tool_cargo_toml(content: Seq<char>, version: Seq<char>) -> Result<Seq<char>, ManifestErrorView> {
    if semver_parsed(version) is None {
        Err(ManifestErrorView::InvalidToolVersion(version))
    } else {
        match toml_strings_set(content, seq![tool_version_path()], version) {
            Some(t) => Ok(t),
            None => Err(ManifestErrorView::Unparsable(tool_manifest_label())),
        }
    }
}

/// Sets `package.version` of the tool's own manifest.
pub fn sync_tool_cargo_toml(content: &str, version: &str) -> (r: Result<String, ManifestError>)
    ensures
        manifest_text(r) == synced_tool_cargo_toml(content@, version@),
{
    if parse_semver(version).is_none() {
        return Err(ManifestError::InvalidToolVersion(string_from(chars_of(version).as_slice())));
    }
    let mut paths: Vec<Vec<String>> = Vec::new();
    paths.push(strings(&["package", "version"]));
    assert(path_views(paths@) =~= seq![tool_version_path()]) by {
        assert(views(paths@[0]@) =~= tool_version_path());
    }
    match toml_set_strings(content, &paths, version) {
        Some(t) => Ok(t),
        None => Err(ManifestError::Unparsable(
            string_from(chars_of("tooling/dhara_tool/Cargo.toml").as_slice()),
        )),
    }
}

/// The version the tool manifest declares.
pub open spec fn tool_crate_version(content: Seq<char>) -> Result<Seq<char>, ManifestErrorView> {
    match toml_string_at(content, tool_version_path()) {
        TomlLookupView::Unparsable => Err(ManifestErrorView::Unparsable(tool_manifest_label())),
        TomlLookupView::Text(v) => if semver_parsed(v) is None {
            Err(ManifestErrorView::InvalidToolSemver(v))
        } else {
            Ok(v)
        },
        _ => Err(ManifestErrorView::MissingToolVersion),
    }
}

/// Reads `package.version` from the tool manifest and checks that it is a
/// semantic version.
pub fn read_tool_crate_version(content: &str) -> (r: Result<String, ManifestError>)
    ensures
        manifest_text(r) == tool_crate_version(content@),
{
    let path = strings(&["package", "version"]);
    assert(views(path@) =~= tool_version_path());
    match toml_lookup(content, &path) {
        TomlLookup::Unparsable => Err(ManifestError::Unparsable(
            string_from(chars_of("tooling/dhara_tool/Cargo.toml").as_slice()),
        )),
        TomlLookup::Text(v) => {
            if parse_semver(v.as_str()).is_none() {
                Err(ManifestError::InvalidToolSemver(v))
            } else {
                Ok(v)
            }
        },
        _ => Err(ManifestError::MissingToolVersion),
    }
}

/// The check of one version key: `None` when it holds `expected`.
pub open spec fn toml_version_problem(found: TomlLookupView, expected: Seq<char>, label: Seq<char>) -> Option<ManifestErrorView> {
    match found {
        TomlLookupView::Unparsable => Some(ManifestErrorView::Unparsable(root_manifest_label())),
        TomlLookupView::Missing => Some(ManifestErrorView::KeyMissing(label)),
        TomlLookupView::NotString => Some(ManifestErrorView::KeyNotString(label)),
        TomlLookupView::Text(v) => if v == expected {
            None
        } else {
            Some(ManifestErrorView::KeyMismatch(label, v, expected))
        },
    }
}

/// Checks that the root manifest holds `expected` at `path`.
pub fn require_toml_version(content: &str, path: &Vec<String>, expected: &str, label: &str) -> (r: Result<(), ManifestError>)
    ensures
        match toml_version_problem(toml_string_at(content@, views(path@)), expected@, label@) {
            None => r is Ok,
            Some(e) => r matches Err(x) && x@ == e,
        },
{
    let lbl = string_from(chars_of(label).as_slice());
    match toml_lookup(content, path) {
        TomlLookup::Unparsable => Err(ManifestError::Unparsable(string_from(chars_of("Cargo.toml").as_slice()))),
        TomlLookup::Missing => Err(ManifestError::KeyMissing(lbl)),
        TomlLookup::NotString => Err(ManifestError::KeyNotString(lbl)),
        TomlLookup::Text(v) => {
            let a = chars_of(v.as_str());
            let b = chars_of(expected);
            if chars_eq(a.as_slice(), b.as_slice()) {
                Ok(())
            } else {
                Err(ManifestError::KeyMismatch(lbl, v, string_from(b.as_slice())))
            }
        },
    }
}

/// The label of the workspace package version.
pub open spec fn workspace_version_labels() -> Seq<Seq<char>> {
    seq![
        "workspace.package.version"@,
        "workspace.dependencies.dhara_storage_dal.version"@,
        "workspace.dependencies.dhara_storage.version"@,
    ]
}

/// The text of the package csproj's `Version` property, as the release check
/// reads it: the text of the first `Version` property of any property group.
pub open spec fn csproj_version_text(project: XmlElement) -> Option<Seq<char>> {
    match property_from(project.children@, "Version"@, 0) {
        Some(p) => element_text(p),
        None => None,
    }
}

/// The first disagreement between the configured workspace version and the
/// manifests, in the order they are checked; `None` when all agree.
pub open spec fn versions_problem(cargo: Seq<char>, csproj: Seq<char>, expected: Seq<char>) -> Option<ManifestErrorView> {
    let p0 = toml_version_problem(toml_string_at(cargo, workspace_version_paths()[0]), expected, workspace_version_labels()[0]);
    let p1 = toml_version_problem(toml_string_at(cargo, workspace_version_paths()[1]), expected, workspace_version_labels()[1]);
    let p2 = toml_version_problem(toml_string_at(cargo, workspace_version_paths()[2]), expected, workspace_version_labels()[2]);
    if p0 is Some {
        p0
    } else if p1 is Some {
        p1
    } else if p2 is Some {
        p2
    } else {
        match xml_document(csproj) {
            None => Some(ManifestErrorView::CsprojUnparsable),
            Some(project) => match csproj_version_text(project) {
                None => Some(ManifestErrorView::CsprojVersionMissing),
                Some(v) => if trim(v) == expected {
                    None
                } else {
                    Some(ManifestErrorView::CsprojVersionMismatch(v, expected))
                },
            },
        }
    }
}

/// Checks that the root manifest and the package csproj carry the configured
/// workspace version.
pub fn validate_versions_synced(cargo_content: &str, csproj_content: &str, config: &DharaRepoConfig) -> (r: Result<(), ManifestError>)
    ensures
        match versions_problem(cargo_content@, csproj_content@, config.versions.workspace@) {
            None => r is Ok,
            Some(e) => r matches Err(x) && x@ == e,
        },
{
    let expected = config.versions.workspace.as_str();
    let p0 = strings(&["workspace", "package", "version"]);
    let p1 = strings(&["workspace", "dependencies", "dhara_storage_dal", "version"]);
    let p2 = strings(&["workspace", "dependencies", "dhara_storage", "version"]);
    assert(views(p0@) =~= workspace_version_paths()[0]);
    assert(views(p1@) =~= workspace_version_paths()[1]);
    assert(views(p2@) =~= workspace_version_paths()[2]);
    require_toml_version(cargo_content, &p0, expected, "workspace.package.version")?;
    require_toml_version(cargo_content, &p1, expected, "workspace.dependencies.dhara_storage_dal.version")?;
    require_toml_version(cargo_content, &p2, expected, "workspace.dependencies.dhara_storage.version")?;
    let project = match parse_document(csproj_content) {
        Some(p) => p,
        None => {
            return Err(ManifestError::CsprojUnparsable);
        },
    };
    let actual = match find_property(&project, "Version") {
        Some(p) => get_text(p),
        None => None,
    };
    match actual {
        None => Err(ManifestError::CsprojVersionMissing),
        Some(v) => {
            let c = chars_of(v.as_str());
            let t = trim_chars(c.as_slice());
            let e = chars_of(expected);
            if chars_eq(t.as_slice(), e.as_slice()) {
                Ok(())
            } else {
                Err(ManifestError::CsprojVersionMismatch(v, string_from(e.as_slice())))
            }
        },
    }
}

} // verus!

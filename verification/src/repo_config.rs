//! Repository configuration (`dhara.config.toml`): its model, the `.env`
//! parser, secret masking, validation and version bumps.

use vstd::prelude::*;
use crate::strmap::StringMap;
use crate::text::{
    chars_of, string_from, push_str, push_all, trim, trim_chars, find, find_chars, slice_chars,
    lines_of, char_rows, split_lines, lemma_lines_of_nonempty, to_ascii_upper, upper_chars,
    contains, decimal, push_decimal, chars_eq, views, copy_str, concat2, concat3,
};
use crate::paths::RUNTIME_DEFS_RELATIVE;

verus! {

pub const CONFIG_PATH: &'static str = "dhara.config.toml";
pub const ENV_EXAMPLE_PATH: &'static str = ".env.example";
pub const ENV_LOCAL_PATH: &'static str = ".env.local";
pub const ROOT_CARGO_TOML_PATH: &'static str = "Cargo.toml";
pub const TOOL_CARGO_TOML_PATH: &'static str = "tooling/dhara_tool/Cargo.toml";

/// The whole repository configuration.
#[derive(Debug, Clone)]
pub struct DharaRepoConfig {
    pub versions: VersionConfig,
    pub tool: ToolConfig,
    pub nuget: NuGetConfig,
    pub ci: CiConfig,
    pub publish: PublishConfig,
    pub targets: TargetsConfig,
}

/// The shared workspace version.
#[derive(Debug, Clone)]
pub struct VersionConfig {
    pub workspace: String,
}

/// The operator tool's own version.
#[derive(Debug, Clone)]
pub struct ToolConfig {
    pub version: String,
}

/// NuGet package metadata.
#[derive(Debug, Clone)]
pub struct NuGetConfig {
    pub package_id: String,
    pub source: String,
    pub authors: Vec<String>,
    pub description: String,
    pub tags: Vec<String>,
    pub readme: String,
    pub icon: Option<String>,
    pub repository_url: String,
    pub project_url: String,
}

/// Projects and runtimes the CI flow builds.
#[derive(Debug, Clone)]
pub struct CiConfig {
    pub smoke_project: String,
    pub package_project: String,
    pub tests_project: String,
    pub native_runtimes: Vec<String>,
    pub host_runtime_smoke: String,
    pub aot_runtime_smoke: String,
}

/// Publishing environment and the variable that holds the API key.
#[derive(Debug, Clone)]
pub struct PublishConfig {
    pub environment: String,
    pub api_key_env: String,
}

/// Rust target triple for each runtime identifier.
#[derive(Debug, Clone)]
pub struct TargetsConfig {
    pub rust_targets: StringMap,
}

/// Which part of a semantic version a bump increments.
#[derive(Debug, Clone, Copy, PartialEq, Eq)]
pub enum VersionPart {
    Major,
    Minor,
    Patch,
}


/// Errors of the configuration rules.
#[derive(Debug, Clone)]
pub enum ConfigError {
    /// A line of the env file (numbered from 1) is not `KEY=VALUE`.
    InvalidEnvLine(usize),
    /// `versions.workspace` is not a semantic version.
    InvalidWorkspaceVersion(String),
    /// `tool.version` is not a semantic version.
    InvalidToolVersion(String),
    /// `nuget.package_id` is blank.
    EmptyPackageId,
    /// `nuget.authors` is empty.
    NoAuthors,
    /// `nuget.tags` is empty.
    NoTags,
    /// `ci.native_runtimes` is empty.
    NoNativeRuntimes,
    /// `publish.environment` is blank.
    EmptyPublishEnvironment,
    /// `publish.api_key_env` is blank.
    EmptyApiKeyEnv,
    /// A native runtime has no Rust target.
    MissingRustTarget(String),
    /// `ci.host_runtime_smoke` is not one of the native runtimes.
    HostRuntimeNotListed(String),
    /// `ci.aot_runtime_smoke` is not one of the native runtimes.
    AotRuntimeNotListed(String),
    /// A version given on the command line is not a semantic version.
    InvalidSemver(String),
    /// The configured workspace version is not a semantic version.
    InvalidConfiguredSemver(String),
    /// The version part to bump is already at its largest value.
    VersionPartOverflow(String),
    /// A path that a valid repository holds does not exist (given relative
    /// to the repository root).
    MissingPath(String),
}

/// The view of a configuration error.
pub ghost enum ConfigErrorView {
    InvalidEnvLine(nat),
    InvalidWorkspaceVersion(Seq<char>),
    InvalidToolVersion(Seq<char>),
    EmptyPackageId,
    NoAuthors,
    NoTags,
    NoNativeRuntimes,
    EmptyPublishEnvironment,
    EmptyApiKeyEnv,
    MissingRustTarget(Seq<char>),
    HostRuntimeNotListed(Seq<char>),
    AotRuntimeNotListed(Seq<char>),
    InvalidSemver(Seq<char>),
    InvalidConfiguredSemver(Seq<char>),
    VersionPartOverflow(Seq<char>),
    MissingPath(Seq<char>),
}

impl View for ConfigError {
    type V = ConfigErrorView;

    open spec fn view(&self) -> ConfigErrorView {
        match self {
            ConfigError::InvalidEnvLine(n) => ConfigErrorView::InvalidEnvLine(*n as nat),
            ConfigError::InvalidWorkspaceVersion(s) => ConfigErrorView::InvalidWorkspaceVersion(s@),
            ConfigError::InvalidToolVersion(s) => ConfigErrorView::InvalidToolVersion(s@),
            ConfigError::EmptyPackageId => ConfigErrorView::EmptyPackageId,
            ConfigError::NoAuthors => ConfigErrorView::NoAuthors,
            ConfigError::NoTags => ConfigErrorView::NoTags,
            ConfigError::NoNativeRuntimes => ConfigErrorView::NoNativeRuntimes,
            ConfigError::EmptyPublishEnvironment => ConfigErrorView::EmptyPublishEnvironment,
            ConfigError::EmptyApiKeyEnv => ConfigErrorView::EmptyApiKeyEnv,
            ConfigError::MissingRustTarget(s) => ConfigErrorView::MissingRustTarget(s@),
            ConfigError::HostRuntimeNotListed(s) => ConfigErrorView::HostRuntimeNotListed(s@),
            ConfigError::AotRuntimeNotListed(s) => ConfigErrorView::AotRuntimeNotListed(s@),
            ConfigError::InvalidSemver(s) => ConfigErrorView::InvalidSemver(s@),
            ConfigError::InvalidConfiguredSemver(s) => ConfigErrorView::InvalidConfiguredSemver(s@),
            ConfigError::VersionPartOverflow(s) => ConfigErrorView::VersionPartOverflow(s@),
            ConfigError::MissingPath(s) => ConfigErrorView::MissingPath(s@),
        }
    }
}

/// What a configuration error says.
pub open spec fn config_error_text(e: ConfigErrorView) -> Seq<char> {
    match e {
        ConfigErrorView::InvalidEnvLine(n) => "invalid env entry on line "@ + decimal(n) + ": expected KEY=VALUE"@,
        ConfigErrorView::InvalidWorkspaceVersion(v) => "invalid workspace version: "@ + v,
        ConfigErrorView::InvalidToolVersion(v) => "invalid tool version: "@ + v,
        ConfigErrorView::EmptyPackageId => "nuget.package_id must not be empty"@,
        ConfigErrorView::NoAuthors => "nuget.authors must not be empty"@,
        ConfigErrorView::NoTags => "nuget.tags must not be empty"@,
        ConfigErrorView::NoNativeRuntimes => "ci.native_runtimes must not be empty"@,
        ConfigErrorView::EmptyPublishEnvironment => "publish.environment must not be empty"@,
        ConfigErrorView::EmptyApiKeyEnv => "publish.api_key_env must not be empty"@,
        ConfigErrorView::MissingRustTarget(r) => "targets.rust_targets is missing an entry for runtime '"@ + r + "'"@,
        ConfigErrorView::HostRuntimeNotListed(r) => "ci.host_runtime_smoke '"@ + r + "' must be present in ci.native_runtimes"@,
        ConfigErrorView::AotRuntimeNotListed(r) => "ci.aot_runtime_smoke '"@ + r + "' must be present in ci.native_runtimes"@,
        ConfigErrorView::InvalidSemver(v) => "invalid semver: "@ + v,
        ConfigErrorView::InvalidConfiguredSemver(v) => "invalid configured semver: "@ + v,
        ConfigErrorView::VersionPartOverflow(v) => "cannot bump "@ + v + ": the version part is at its largest value"@,
        ConfigErrorView::MissingPath(p) => "required path does not exist: "@ + p,
    }
}

impl ConfigError {
    /// The error's message.
    pub fn message(&self) -> (r: String)
        ensures
            r@ == config_error_text(self@),
    {
        match self {
            ConfigError::InvalidEnvLine(n) => {
                let mut out = chars_of("invalid env entry on line ");
                push_decimal(&mut out, *n as u64);
                push_str(&mut out, ": expected KEY=VALUE");
                string_from(out.as_slice())
            },
            ConfigError::InvalidWorkspaceVersion(v) => concat2("invalid workspace version: ", v.as_str()),
            ConfigError::InvalidToolVersion(v) => concat2("invalid tool version: ", v.as_str()),
            ConfigError::EmptyPackageId => copy_str("nuget.package_id must not be empty"),
            ConfigError::NoAuthors => copy_str("nuget.authors must not be empty"),
            ConfigError::NoTags => copy_str("nuget.tags must not be empty"),
            ConfigError::NoNativeRuntimes => copy_str("ci.native_runtimes must not be empty"),
            ConfigError::EmptyPublishEnvironment => copy_str("publish.environment must not be empty"),
            ConfigError::EmptyApiKeyEnv => copy_str("publish.api_key_env must not be empty"),
            ConfigError::MissingRustTarget(r) => concat3("targets.rust_targets is missing an entry for runtime '", r.as_str(), "'"),
            ConfigError::HostRuntimeNotListed(r) => concat3("ci.host_runtime_smoke '", r.as_str(), "' must be present in ci.native_runtimes"),
            ConfigError::AotRuntimeNotListed(r) => concat3("ci.aot_runtime_smoke '", r.as_str(), "' must be present in ci.native_runtimes"),
            ConfigError::InvalidSemver(v) => concat2("invalid semver: ", v.as_str()),
            ConfigError::InvalidConfiguredSemver(v) => concat2("invalid configured semver: ", v.as_str()),
            ConfigError::VersionPartOverflow(v) => concat3("cannot bump ", v.as_str(), ": the version part is at its largest value"),
            ConfigError::MissingPath(p) => concat2("required path does not exist: ", p.as_str()),
        }
    }
}

/// How one line of an env file reads: `None` when it is not `KEY=VALUE`,
/// `Some(None)` for a blank or `#` comment line, else the trimmed key and
/// value on either side of the first `=`.
pub open spec fn env_line(line: Seq<char>) -> Option<Option<(Seq<char>, Seq<char>)>> {
    let t = trim(line);
    if t.len() == 0 || t[0] == '#' {
        Some(None)
    } else {
        match find(t, seq!['=']) {
            None => None,
            Some(p) => Some(Some((trim(t.take(p)), trim(t.skip(p + 1))))),
        }
    }
}

/// The entries of an env file given as lines: each entry line sets its key
/// (a later line wins); `Err(n)` names the first line, numbered from 1, that
/// is not `KEY=VALUE`.
pub open spec fn env_entries(lines: Seq<Seq<char>>) -> Result<Map<Seq<char>, Seq<char>>, nat>
    decreases lines.len(),
{
    if lines.len() == 0 {
        Ok(Map::empty())
    } else {
        match env_entries(lines.drop_last()) {
            Err(n) => Err(n),
            Ok(m) => match env_line(lines.last()) {
                None => Err(lines.len()),
                Some(None) => Ok(m),
                Some(Some((k, v))) => Ok(m.insert(k, v)),
            },
        }
    }
}

proof fn lemma_env_entries_err_prefix(lines: Seq<Seq<char>>, k: int)
    requires
        0 <= k <= lines.len(),
        env_entries(lines.take(k)) is Err,
    ensures
        env_entries(lines) == env_entries(lines.take(k)),
    decreases lines.len() - k,
{
    if k < lines.len() {
        assert(lines.take(k + 1).drop_last() =~= lines.take(k));
        lemma_env_entries_err_prefix(lines, k + 1);
    } else {
        assert(lines.take(k) =~= lines);
    }
}

/// Parses the `KEY=VALUE` lines of a `.env` file; blank lines and lines
/// starting with `#` are skipped, keys and values are trimmed.
pub fn parse_env_content(content: &str) -> (r: Result<StringMap, ConfigError>)
    ensures
        match env_entries(lines_of(content@)) {
            Ok(m) => r matches Ok(map) && map.wf() && map@ == m,
            Err(n) => r matches Err(e) && e@ == ConfigErrorView::InvalidEnvLine(n),
        },
{
    let chars = chars_of(content);
    let lines = split_lines(chars.as_slice());
    let ghost rows = char_rows(lines@);
    let mut map = StringMap::new();
    let mut k: usize = 0;
    assert(rows.take(0) =~= Seq::<Seq<char>>::empty());
    while k < lines.len()
        invariant
            k <= lines@.len(),
            rows == char_rows(lines@),
            rows == lines_of(content@),
            map.wf(),
            env_entries(rows.take(k as int)) == Ok::<Map<Seq<char>, Seq<char>>, nat>(map@),
        decreases lines.len() - k,
    {
        let line = trim_chars(lines[k].as_slice());
        let ghost pre = rows.take(k as int);
        let ghost next = rows.take(k + 1);
        assert(next.drop_last() =~= pre);
        assert(next.last() == lines@[k as int]@);
        if line.len() == 0 || line[0] == '#' {
        } else {
            let eq: Vec<char> = vec!['='];
            assert(eq@ =~= seq!['=']);
            match find_chars(line.as_slice(), eq.as_slice()) {
                None => {
                    proof {
                        lemma_env_entries_err_prefix(rows, k + 1);
                    }
                    return Err(ConfigError::InvalidEnvLine(k + 1));
                },
                Some(p) => {
                    let key = trim_chars(slice_chars(line.as_slice(), 0, p).as_slice());
                    let value = trim_chars(slice_chars(line.as_slice(), p + 1, line.len()).as_slice());
                    assert(line@.subrange(0, p as int) =~= line@.take(p as int));
                    assert(line@.subrange(p + 1, line@.len() as int) =~= line@.skip(p + 1));
                    map.insert(string_from(key.as_slice()), string_from(value.as_slice()));
                },
            }
        }
        k = k + 1;
    }
    assert(rows.take(lines@.len() as int) =~= rows);
    Ok(map)
}

/// An env key that names a secret: its upper-case form holds `KEY`, `TOKEN`,
/// `SECRET` or `PASSWORD`.
pub open spec fn secret_like(key: Seq<char>) -> bool {
    let u = to_ascii_upper(key);
    contains(u, seq!['K', 'E', 'Y']) || contains(u, seq!['T', 'O', 'K', 'E', 'N'])
        || contains(u, seq!['S', 'E', 'C', 'R', 'E', 'T'])
        || contains(u, seq!['P', 'A', 'S', 'S', 'W', 'O', 'R', 'D'])
}

/// The text shown in place of a secret value.
pub open spec fn redacted() -> Seq<char> {
    seq!['<', 'r', 'e', 'd', 'a', 'c', 't', 'e', 'd', '>']
}

/// The value shown for `key`.
pub open spec fn masked_value(key: Seq<char>, value: Seq<char>) -> Seq<char> {
    if secret_like(key) {
        redacted()
    } else {
        value
    }
}

fn has_secret_word(key: &str) -> (r: bool)
    ensures
        r == secret_like(key@),
{
    let k = chars_of(key);
    let u = upper_chars(k.as_slice());
    let w1: Vec<char> = vec!['K', 'E', 'Y'];
    let w2: Vec<char> = vec!['T', 'O', 'K', 'E', 'N'];
    let w3: Vec<char> = vec!['S', 'E', 'C', 'R', 'E', 'T'];
    let w4: Vec<char> = vec!['P', 'A', 'S', 'S', 'W', 'O', 'R', 'D'];
    assert(w1@ =~= seq!['K', 'E', 'Y']);
    assert(w2@ =~= seq!['T', 'O', 'K', 'E', 'N']);
    assert(w3@ =~= seq!['S', 'E', 'C', 'R', 'E', 'T']);
    assert(w4@ =~= seq!['P', 'A', 'S', 'S', 'W', 'O', 'R', 'D']);
    find_chars(u.as_slice(), w1.as_slice()).is_some()
        || find_chars(u.as_slice(), w2.as_slice()).is_some()
        || find_chars(u.as_slice(), w3.as_slice()).is_some()
        || find_chars(u.as_slice(), w4.as_slice()).is_some()
}

/// The env values with every secret-like key's value replaced by
/// `<redacted>`.
pub fn masked_env(values: StringMap) -> (r: StringMap)
    requires
        values.wf(),
    ensures
        r.wf(),
        r@.dom() == values@.dom(),
        forall|k: Seq<char>| #[trigger] values@.contains_key(k) ==> r@[k] == masked_value(k, values@[k]),
{
    let entries = values.entries();
    let mut shown: Vec<String> = Vec::new();
    let mut i: usize = 0;
    while i < entries.len()
        invariant
            i <= entries@.len(),
            entries@.map_values(|p: (String, String)| (p.0@, p.1@)) == values.entries_view(),
            shown@.len() == i,
            forall|j: int| 0 <= j < i ==> (#[trigger] shown@[j])@ == masked_value(
                values.entries_view()[j].0, values.entries_view()[j].1),
        decreases entries.len() - i,
    {
        assert(values.entries_view()[i as int] == (entries@[i as int].0@, entries@[i as int].1@));
        let v = if has_secret_word(entries[i].0.as_str()) {
            let t: Vec<char> = vec!['<', 'r', 'e', 'd', 'a', 'c', 't', 'e', 'd', '>'];
            assert(t@ =~= redacted());
            string_from(t.as_slice())
        } else {
            entries[i].1.clone()
        };
        shown.push(v);
        i = i + 1;
    }
    let r = values.with_values(shown);
    proof {
        values.lemma_entries();
        r.lemma_entries();
        assert forall|k: Seq<char>| #[trigger] values@.contains_key(k) implies r@.contains_key(k)
            && r@[k] == masked_value(k, values@[k]) by {
            let j = choose|j: int| 0 <= j < values.entries_view().len() && values.entries_view()[j].0 == k;
            assert(r.entries_view()[j].0 == k);
        }
        assert forall|k: Seq<char>| #[trigger] r@.contains_key(k) implies values@.contains_key(k) by {
            let j = choose|j: int| 0 <= j < r.entries_view().len() && r.entries_view()[j].0 == k;
            assert(values.entries_view()[j].0 == k);
        }
        assert(r@.dom() =~= values@.dom());
    }
    r
}


/// A semantic version as `semver::Version` holds it: the three numbers and the
/// text of the pre-release and build identifiers.
#[derive(Debug, Clone)]
pub struct Semver {
    pub major: u64,
    pub minor: u64,
    pub patch: u64,
    pub pre: String,
    pub build: String,
}

/// The view of a semantic version.
pub ghost struct SemverView {
    pub major: u64,
    pub minor: u64,
    pub patch: u64,
    pub pre: Seq<char>,
    pub build: Seq<char>,
}

impl View for Semver {
    type V = SemverView;

    open spec fn view(&self) -> SemverView {
        SemverView {
            major: self.major,
            minor: self.minor,
            patch: self.patch,
            pre: self.pre@,
            build: self.build@,
        }
    }
}

#[verifier::external_type_specification]
#[verifier::external_body]
pub struct ExSemverError(semver::Error);

/// What `semver::Version::parse` makes of a text: `None` where it reports an
/// error.
pub uninterp spec fn semver_parsed(text: Seq<char>) -> Option<SemverView>;

/// Calls `semver::Version::parse` and copies the numbers and the identifier
/// texts of the version it returns. The contract claims only that the outcome
/// is the one `semver_parsed` names for the text; the grammar itself is not
/// stated.
#[verifier::external_body]
fn semver_parse(text: &str) -> (r: Result<Semver, semver::Error>)
    ensures
        r is Ok <==> semver_parsed(text@) is Some,
        r matches Ok(v) ==> semver_parsed(text@) == Some(v@),
{
    match semver::Version::parse(text) {
        Ok(v) => Ok(Semver {
            major: v.major,
            minor: v.minor,
            patch: v.patch,
            pre: v.pre.as_str().to_owned(),
            build: v.build.as_str().to_owned(),
        }),
        Err(e) => Err(e),
    }
}

/// Parses a semantic version; `None` where the text is not one.
pub fn parse_semver(text: &str) -> (r: Option<Semver>)
    ensures
        r is Some <==> semver_parsed(text@) is Some,
        r matches Some(v) ==> semver_parsed(text@) == Some(v@),
{
    match semver_parse(text) {
        Ok(v) => Some(v),
        Err(_) => None,
    }
}

/// A version written out: `major.minor.patch`, then `-pre` and `+build` where
/// those are not empty (the `Display` form of `semver::Version`).
pub open spec fn version_text(v: SemverView) -> Seq<char> {
    let core = decimal(v.major as nat) + seq!['.'] + decimal(v.minor as nat) + seq!['.']
        + decimal(v.patch as nat);
    let with_pre = if v.pre.len() > 0 { core + seq!['-'] + v.pre } else { core };
    if v.build.len() > 0 { with_pre + seq!['+'] + v.build } else { with_pre }
}

/// Writes a version out.
pub fn format_semver(v: &Semver) -> (r: String)
    ensures
        r@ == version_text(v@),
{
    let mut out: Vec<char> = Vec::new();
    push_decimal(&mut out, v.major);
    out.push('.');
    push_decimal(&mut out, v.minor);
    out.push('.');
    push_decimal(&mut out, v.patch);
    let pre = chars_of(v.pre.as_str());
    if pre.len() > 0 {
        out.push('-');
        push_all(&mut out, pre.as_slice());
    }
    let build = chars_of(v.build.as_str());
    if build.len() > 0 {
        out.push('+');
        push_all(&mut out, build.as_slice());
    }
    proof {
        let core = decimal(v.major as nat) + seq!['.'] + decimal(v.minor as nat) + seq!['.']
            + decimal(v.patch as nat);
        let with_pre = if v.pre@.len() > 0 { core + seq!['-'] + v.pre@ } else { core };
        assert(out@ =~= if v.build@.len() > 0 { with_pre + seq!['+'] + v.build@ } else { with_pre });
    }
    string_from(out.as_slice())
}

/// The component a bump increments.
pub open spec fn bumped_component(v: SemverView, part: VersionPart) -> u64 {
    match part {
        VersionPart::Major => v.major,
        VersionPart::Minor => v.minor,
        VersionPart::Patch => v.patch,
    }
}

/// A version with `part` incremented and the parts below it reset to zero;
/// the pre-release and build identifiers are kept.
pub open spec fn bumped(v: SemverView, part: VersionPart) -> SemverView
    recommends
        bumped_component(v, part) < u64::MAX,
{
    match part {
        VersionPart::Major => SemverView { major: (v.major + 1) as u64, minor: 0, patch: 0, ..v },
        VersionPart::Minor => SemverView { minor: (v.minor + 1) as u64, patch: 0, ..v },
        VersionPart::Patch => SemverView { patch: (v.patch + 1) as u64, ..v },
    }
}

/// Increments `part` of a version.
pub fn bump_semver(v: &Semver, part: VersionPart) -> (r: Semver)
    requires
        bumped_component(v@, part) < u64::MAX,
    ensures
        r@ == bumped(v@, part),
{
    let pre = v.pre.clone();
    let build = v.build.clone();
    match part {
        VersionPart::Major => Semver { major: v.major + 1, minor: 0, patch: 0, pre, build },
        VersionPart::Minor => Semver { major: v.major, minor: v.minor + 1, patch: 0, pre, build },
        VersionPart::Patch => Semver { major: v.major, minor: v.minor, patch: v.patch + 1, pre, build },
    }
}


/// The first runtime, in list order, with no entry in `targets`.
pub open spec fn first_missing_target(runtimes: Seq<Seq<char>>, targets: Map<Seq<char>, Seq<char>>) -> Option<Seq<char>>
    decreases runtimes.len(),
{
    if runtimes.len() == 0 {
        None
    } else if !targets.contains_key(runtimes[0]) {
        Some(runtimes[0])
    } else {
        first_missing_target(runtimes.drop_first(), targets)
    }
}

/// Blank: nothing but white space.
pub open spec fn blank(s: Seq<char>) -> bool {
    trim(s).len() == 0
}

/// The first rule the configuration breaks, in the order the rules are
/// checked; `None` when it keeps them all.
pub open spec fn config_problem(c: DharaRepoConfig) -> Option<ConfigErrorView> {
    let runtimes = views(c.ci.native_runtimes@);
    if semver_parsed(c.versions.workspace@) is None {
        Some(ConfigErrorView::InvalidWorkspaceVersion(c.versions.workspace@))
    } else if semver_parsed(c.tool.version@) is None {
        Some(ConfigErrorView::InvalidToolVersion(c.tool.version@))
    } else if blank(c.nuget.package_id@) {
        Some(ConfigErrorView::EmptyPackageId)
    } else if c.nuget.authors@.len() == 0 {
        Some(ConfigErrorView::NoAuthors)
    } else if c.nuget.tags@.len() == 0 {
        Some(ConfigErrorView::NoTags)
    } else if runtimes.len() == 0 {
        Some(ConfigErrorView::NoNativeRuntimes)
    } else if blank(c.publish.environment@) {
        Some(ConfigErrorView::EmptyPublishEnvironment)
    } else if blank(c.publish.api_key_env@) {
        Some(ConfigErrorView::EmptyApiKeyEnv)
    } else if first_missing_target(runtimes, c.targets.rust_targets@) is Some {
        Some(ConfigErrorView::MissingRustTarget(first_missing_target(runtimes, c.targets.rust_targets@)->0))
    } else if !runtimes.contains(c.ci.host_runtime_smoke@) {
        Some(ConfigErrorView::HostRuntimeNotListed(c.ci.host_runtime_smoke@))
    } else if !runtimes.contains(c.ci.aot_runtime_smoke@) {
        Some(ConfigErrorView::AotRuntimeNotListed(c.ci.aot_runtime_smoke@))
    } else {
        None
    }
}

fn is_blank(s: &str) -> (r: bool)
    ensures
        r == blank(s@),
{
    let c = chars_of(s);
    trim_chars(c.as_slice()).len() == 0
}

/// Whether `items` holds `s`.
pub fn list_contains(items: &Vec<String>, s: &str) -> (r: bool)
    ensures
        r == views(items@).contains(s@),
{
    let target = chars_of(s);
    let mut i: usize = 0;
    while i < items.len()
        invariant
            i <= items@.len(),
            target@ == s@,
            forall|j: int| 0 <= j < i ==> items@[j]@ != s@,
        decreases items.len() - i,
    {
        let c = chars_of(items[i].as_str());
        if chars_eq(c.as_slice(), target.as_slice()) {
            assert(views(items@)[i as int] == s@);
            return true;
        }
        i = i + 1;
    }
    proof {
        if views(items@).contains(s@) {
            let j = choose|j: int| 0 <= j < views(items@).len() && views(items@)[j] == s@;
            assert(items@[j]@ == s@);
        }
    }
    false
}

fn missing_target(runtimes: &Vec<String>, targets: &StringMap) -> (r: Option<String>)
    requires
        targets.wf(),
    ensures
        match first_missing_target(views(runtimes@), targets@) {
            None => r is None,
            Some(m) => r matches Some(x) && x@ == m,
        },
{
    let mut i: usize = 0;
    assert(views(runtimes@).skip(0) =~= views(runtimes@));
    while i < runtimes.len()
        invariant
            i <= runtimes@.len(),
            targets.wf(),
            first_missing_target(views(runtimes@), targets@)
                == first_missing_target(views(runtimes@).skip(i as int), targets@),
        decreases runtimes.len() - i,
    {
        let ghost rest = views(runtimes@).skip(i as int);
        assert(rest[0] == runtimes@[i as int]@);
        assert(rest.drop_first() =~= views(runtimes@).skip(i + 1));
        if !targets.contains_key(runtimes[i].as_str()) {
            return Some(runtimes[i].clone());
        }
        i = i + 1;
    }
    assert(views(runtimes@).skip(i as int).len() == 0);
    None
}

/// Checks the rules of the configuration that need no file system: valid
/// versions, the required non-empty fields, a Rust target for each native
/// runtime, and smoke runtimes drawn from the native runtimes.
pub fn validate_config_values(config: &DharaRepoConfig) -> (r: Result<(), ConfigError>)
    requires
        config.targets.rust_targets.wf(),
    ensures
        r is Ok <==> config_problem(*config) is None,
        r matches Err(e) ==> config_problem(*config) == Some(e@),
{
    if parse_semver(config.versions.workspace.as_str()).is_none() {
        return Err(ConfigError::InvalidWorkspaceVersion(config.versions.workspace.clone()));
    }
    if parse_semver(config.tool.version.as_str()).is_none() {
        return Err(ConfigError::InvalidToolVersion(config.tool.version.clone()));
    }
    if is_blank(config.nuget.package_id.as_str()) {
        return Err(ConfigError::EmptyPackageId);
    }
    if config.nuget.authors.len() == 0 {
        return Err(ConfigError::NoAuthors);
    }
    if config.nuget.tags.len() == 0 {
        return Err(ConfigError::NoTags);
    }
    if config.ci.native_runtimes.len() == 0 {
        return Err(ConfigError::NoNativeRuntimes);
    }
    if is_blank(config.publish.environment.as_str()) {
        return Err(ConfigError::EmptyPublishEnvironment);
    }
    if is_blank(config.publish.api_key_env.as_str()) {
        return Err(ConfigError::EmptyApiKeyEnv);
    }
    match missing_target(&config.ci.native_runtimes, &config.targets.rust_targets) {
        Some(m) => {
            return Err(ConfigError::MissingRustTarget(m));
        },
        None => {},
    }
    if !list_contains(&config.ci.native_runtimes, config.ci.host_runtime_smoke.as_str()) {
        return Err(ConfigError::HostRuntimeNotListed(config.ci.host_runtime_smoke.clone()));
    }
    if !list_contains(&config.ci.native_runtimes, config.ci.aot_runtime_smoke.as_str()) {
        return Err(ConfigError::AotRuntimeNotListed(config.ci.aot_runtime_smoke.clone()));
    }
    Ok(())
}

/// The repository-relative paths a valid repository must hold, in the order
/// they are checked.
pub open spec fn required_paths(c: DharaRepoConfig) -> Seq<Seq<char>> {
    let head = seq![CONFIG_PATH@, ROOT_CARGO_TOML_PATH@, c.ci.package_project@,
        c.ci.tests_project@, c.ci.smoke_project@, c.nuget.readme@];
    let with_icon = match c.nuget.icon {
        Some(icon) => head.push(icon@),
        None => head,
    };
    with_icon + seq![ENV_EXAMPLE_PATH@, RUNTIME_DEFS_RELATIVE@]
}

/// Lists the paths that must exist under the repository root.
pub fn required_config_paths(config: &DharaRepoConfig) -> (r: Vec<String>)
    ensures
        views(r@) == required_paths(*config),
{
    let mut r: Vec<String> = Vec::new();
    r.push(string_from(chars_of(CONFIG_PATH).as_slice()));
    r.push(string_from(chars_of(ROOT_CARGO_TOML_PATH).as_slice()));
    r.push(config.ci.package_project.clone());
    r.push(config.ci.tests_project.clone());
    r.push(config.ci.smoke_project.clone());
    r.push(config.nuget.readme.clone());
    match &config.nuget.icon {
        Some(icon) => r.push(icon.clone()),
        None => {},
    }
    r.push(string_from(chars_of(ENV_EXAMPLE_PATH).as_slice()));
    r.push(string_from(chars_of(RUNTIME_DEFS_RELATIVE).as_slice()));
    assert(views(r@) =~= required_paths(*config));
    r
}

/// What `config show` prints: the configuration and the env values with
/// their secrets masked.
#[derive(Debug, Clone)]
pub struct ShowOutput {
    pub config: DharaRepoConfig,
    pub env: StringMap,
}

/// Bundles a configuration with its env values for showing, masking every
/// secret-like value.
pub fn show_output(config: DharaRepoConfig, env: StringMap) -> (r: ShowOutput)
    requires
        env.wf(),
    ensures
        r.config == config,
        r.env.wf(),
        r.env@.dom() == env@.dom(),
        forall|k: Seq<char>| #[trigger] env@.contains_key(k) ==> r.env@[k] == masked_value(k, env@[k]),
{
    ShowOutput { config, env: masked_env(env) }
}

/// The first of `paths` whose entry in `exists` is false.
pub open spec fn first_missing(paths: Seq<Seq<char>>, exists: Seq<bool>) -> Option<Seq<char>>
    decreases paths.len(),
{
    if paths.len() == 0 {
        None
    } else if !exists[0] {
        Some(paths[0])
    } else {
        first_missing(paths.drop_first(), exists.drop_first())
    }
}

/// Validates a configuration against its repository: the values first (see
/// `validate_config_values`), then each required path in turn, where
/// `exists[i]` says whether the `i`-th of `required_config_paths` exists
/// under the repository root.
pub fn validate_config(config: &DharaRepoConfig, exists: &Vec<bool>) -> (r: Result<(), ConfigError>)
    requires
        config.targets.rust_targets.wf(),
        exists@.len() == required_paths(*config).len(),
    ensures
        r is Ok <==> (config_problem(*config) is None
            && first_missing(required_paths(*config), exists@) is None),
        r matches Err(e) ==> (match config_problem(*config) {
            Some(p) => e@ == p,
            None => first_missing(required_paths(*config), exists@) matches Some(m)
                && e@ == ConfigErrorView::MissingPath(m),
        }),
{
    match validate_config_values(config) {
        Err(e) => {
            return Err(e);
        },
        Ok(()) => {},
    }
    let paths = required_config_paths(config);
    let ghost ps = views(paths@);
    assert(ps.skip(0) =~= ps);
    assert(exists@.skip(0) =~= exists@);
    let mut i: usize = 0;
    while i < paths.len()
        invariant
            i <= paths@.len(),
            ps == views(paths@),
            ps == required_paths(*config),
            config_problem(*config) is None,
            ps.len() == exists@.len(),
            first_missing(ps, exists@) == first_missing(ps.skip(i as int), exists@.skip(i as int)),
        decreases paths.len() - i,
    {
        assert(ps.skip(i as int).drop_first() =~= ps.skip(i + 1));
        assert(exists@.skip(i as int).drop_first() =~= exists@.skip(i + 1));
        assert(ps.skip(i as int)[0] == ps[i as int]);
        assert(exists@.skip(i as int)[0] == exists@[i as int]);
        if !exists[i] {
            return Err(ConfigError::MissingPath(copy_str(paths[i].as_str())));
        }
        i = i + 1;
    }
    assert(ps.skip(i as int).len() == 0);
    Ok(())
}

/// The version text `set_version` stores: the given version written out in
/// canonical form.
pub fn set_version_text(version: &str) -> (r: Result<String, ConfigError>)
    ensures
        match semver_parsed(version@) {
            None => r matches Err(e) && e@ == ConfigErrorView::InvalidSemver(version@),
            Some(v) => r matches Ok(t) && t@ == version_text(v),
        },
{
    match parse_semver(version) {
        None => Err(ConfigError::InvalidSemver(string_from(chars_of(version).as_slice()))),
        Some(v) => Ok(format_semver(&v)),
    }
}

/// The next workspace version after bumping `part` of `current`.
pub fn bump_version_text(current: &str, part: VersionPart) -> (r: Result<String, ConfigError>)
    ensures
        match semver_parsed(current@) {
            None => r matches Err(e) && e@ == ConfigErrorView::InvalidConfiguredSemver(current@),
            Some(v) => if bumped_component(v, part) == u64::MAX {
                r matches Err(e) && e@ == ConfigErrorView::VersionPartOverflow(current@)
            } else {
                r matches Ok(t) && t@ == version_text(bumped(v, part))
            },
        },
{
    match parse_semver(current) {
        None => Err(ConfigError::InvalidConfiguredSemver(string_from(chars_of(current).as_slice()))),
        Some(v) => {
            let at_max = match part {
                VersionPart::Major => v.major == u64::MAX,
                VersionPart::Minor => v.minor == u64::MAX,
                VersionPart::Patch => v.patch == u64::MAX,
            };
            if at_max {
                Err(ConfigError::VersionPartOverflow(string_from(chars_of(current).as_slice())))
            } else {
                let next = bump_semver(&v, part);
                Ok(format_semver(&next))
            }
        },
    }
}

/// Reads a version part name as the command line takes it.
pub fn parse_version_part(s: &str) -> (r: Option<VersionPart>)
    ensures
        s@ == "major"@ ==> r == Some(VersionPart::Major),
        s@ == "minor"@ ==> r == Some(VersionPart::Minor),
        s@ == "patch"@ ==> r == Some(VersionPart::Patch),
        s@ != "major"@ && s@ != "minor"@ && s@ != "patch"@ ==> r is None,
{
    let c = chars_of(s);
    let major = chars_of("major");
    let minor = chars_of("minor");
    let patch = chars_of("patch");
    proof {
        reveal_strlit("major");
        reveal_strlit("minor");
        reveal_strlit("patch");
        assert("major"@[1] != "minor"@[1]);
        assert("major"@[0] != "patch"@[0]);
        assert("minor"@[0] != "patch"@[0]);
    }
    if chars_eq(c.as_slice(), major.as_slice()) {
        Some(VersionPart::Major)
    } else if chars_eq(c.as_slice(), minor.as_slice()) {
        Some(VersionPart::Minor)
    } else if chars_eq(c.as_slice(), patch.as_slice()) {
        Some(VersionPart::Patch)
    } else {
        None
    }
}

} // verus!

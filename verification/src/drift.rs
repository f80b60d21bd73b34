//! Configuration drift: where the manifests disagree with
//! `dhara.config.toml`, which is the truth, and the updates that bring them
//! back in line.

use vstd::prelude::*;
use crate::text::{chars_of, string_from, push_str, chars_eq};
use crate::repo_config::{DharaRepoConfig, TOOL_CARGO_TOML_PATH, ROOT_CARGO_TOML_PATH};
use crate::manifest::{
    ManifestError, ManifestErrorView, manifest_text, tool_crate_version, read_tool_crate_version,
    synced_cargo_toml, sync_cargo_toml, synced_tool_cargo_toml, sync_tool_cargo_toml,
    manifest_error_text,
};
use crate::csproj::{
    CsprojError, CsprojErrorView, needs_sync, csproj_needs_sync, synced_csproj, sync_csproj, text_result,
    csproj_error_text,
};

verus! {

/// Kind of manifest drift relative to `dhara.config.toml`.
#[derive(Debug, Clone, Copy, PartialEq, Eq, Hash, Structural)]
pub enum ConfigDriftKind {
    ToolCrateVersion,
    WorkspaceCargoToml,
    NuGetCsproj,
}

/// One detected drift item shown in activation prompts.
#[derive(Debug, Clone)]
pub struct ConfigDriftItem {
    pub kind: ConfigDriftKind,
    pub summary: String,
}

/// The view of a drift item.
pub ghost struct DriftView {
    pub kind: ConfigDriftKind,
    pub summary: Seq<char>,
}

impl View for ConfigDriftItem {
    type V = DriftView;

    open spec fn view(&self) -> DriftView {
        DriftView { kind: self.kind, summary: self.summary@ }
    }
}

/// Views of a list of drift items.
pub open spec fn drift_views(items: Seq<ConfigDriftItem>) -> Seq<DriftView> {
    items.map_values(|i: ConfigDriftItem| i@)
}

/// Errors met while reading the manifests for drift.
#[derive(Debug, Clone)]
pub enum DriftError {
    Manifest(ManifestError),
    Csproj(CsprojError),
}

/// The view of a drift error.
pub ghost enum DriftErrorView {
    Manifest(ManifestErrorView),
    Csproj(CsprojErrorView),
}

impl View for DriftError {
    type V = DriftErrorView;

    open spec fn view(&self) -> DriftErrorView {
        match self {
            DriftError::Manifest(e) => DriftErrorView::Manifest(e@),
            DriftError::Csproj(e) => DriftErrorView::Csproj(e@),
        }
    }
}

/// What a drift error says: the message of the manifest or csproj error.
pub open spec fn drift_error_text(e: DriftErrorView) -> Seq<char> {
    match e {
        DriftErrorView::Manifest(m) => manifest_error_text(m),
        DriftErrorView::Csproj(c) => csproj_error_text(c),
    }
}

impl DriftError {
    /// The error's message.
    pub fn message(&self) -> (r: String)
        ensures
            r@ == drift_error_text(self@),
    {
        match self {
            DriftError::Manifest(m) => m.message(),
            DriftError::Csproj(c) => c.message(),
        }
    }
}

/// The summary of a tool manifest version that differs from the configured one.
pub open spec fn tool_drift_summary(manifest_version: Seq<char>, config_version: Seq<char>) -> Seq<char> {
    TOOL_CARGO_TOML_PATH@ + " package.version: "@ + manifest_version + " -> "@ + config_version
}

/// The summary of a root manifest that needs the workspace version.
pub open spec fn workspace_drift_summary(version: Seq<char>) -> Seq<char> {
    ROOT_CARGO_TOML_PATH@ + " workspace version -> "@ + version
}

/// The summary of a package project whose NuGet metadata needs syncing.
pub open spec fn csproj_drift_summary(project: Seq<char>) -> Seq<char> {
    "dhara.config.toml NuGet metadata -> "@ + project
}

/// The drift items of a repository, given the texts of the tool manifest, the
/// root manifest and the package project, in the order they are checked.
pub open spec fn drift_of(config: DharaRepoConfig, tool: Seq<char>, cargo: Seq<char>, csproj: Seq<char>) -> Result<Seq<DriftView>, DriftErrorView> {
    match tool_crate_version(tool) {
        Err(e) => Err(DriftErrorView::Manifest(e)),
        Ok(tv) => {
            let s0 = if tv != config.tool.version@ {
                seq![DriftView { kind: ConfigDriftKind::ToolCrateVersion, summary: tool_drift_summary(tv, config.tool.version@) }]
            } else {
                Seq::empty()
            };
            match synced_cargo_toml(cargo, config.versions.workspace@) {
                Err(e) => Err(DriftErrorView::Manifest(e)),
                Ok(updated) => {
                    let s1 = if updated != cargo {
                        s0.push(DriftView { kind: ConfigDriftKind::WorkspaceCargoToml, summary: workspace_drift_summary(config.versions.workspace@) })
                    } else {
                        s0
                    };
                    match needs_sync(csproj, config) {
                        Err(e) => Err(DriftErrorView::Csproj(e)),
                        Ok(b) => Ok(if b {
                            s1.push(DriftView { kind: ConfigDriftKind::NuGetCsproj, summary: csproj_drift_summary(config.ci.package_project@) })
                        } else {
                            s1
                        }),
                    }
                },
            }
        },
    }
}

fn text_of(parts: Vec<char>) -> (r: String)
    ensures
        r@ == parts@,
{
    string_from(parts.as_slice())
}

/// Lists the manifest fields that differ from the configuration.
pub fn config_drift(config: &DharaRepoConfig, tool_manifest: &str, cargo_content: &str, csproj_content: &str) -> (r: Result<Vec<ConfigDriftItem>, DriftError>)
    ensures
        match drift_of(*config, tool_manifest@, cargo_content@, csproj_content@) {
            Ok(items) => r matches Ok(v) && drift_views(v@) == items,
            Err(e) => r matches Err(x) && x@ == e,
        },
{
    let mut items: Vec<ConfigDriftItem> = Vec::new();
    let tv = match read_tool_crate_version(tool_manifest) {
        Ok(v) => v,
        Err(e) => {
            return Err(DriftError::Manifest(e));
        },
    };
    let a = chars_of(tv.as_str());
    let b = chars_of(config.tool.version.as_str());
    if !chars_eq(a.as_slice(), b.as_slice()) {
        let mut s: Vec<char> = Vec::new();
        push_str(&mut s, TOOL_CARGO_TOML_PATH);
        push_str(&mut s, " package.version: ");
        push_str(&mut s, tv.as_str());
        push_str(&mut s, " -> ");
        push_str(&mut s, config.tool.version.as_str());
        items.push(ConfigDriftItem { kind: ConfigDriftKind::ToolCrateVersion, summary: text_of(s) });
    }
    let updated = match sync_cargo_toml(cargo_content, config.versions.workspace.as_str()) {
        Ok(u) => u,
        Err(e) => {
            return Err(DriftError::Manifest(e));
        },
    };
    let u = chars_of(updated.as_str());
    let c = chars_of(cargo_content);
    if !chars_eq(u.as_slice(), c.as_slice()) {
        let mut s: Vec<char> = Vec::new();
        push_str(&mut s, ROOT_CARGO_TOML_PATH);
        push_str(&mut s, " workspace version -> ");
        push_str(&mut s, config.versions.workspace.as_str());
        items.push(ConfigDriftItem { kind: ConfigDriftKind::WorkspaceCargoToml, summary: text_of(s) });
    }
    let stale = match csproj_needs_sync(csproj_content, config) {
        Ok(b) => b,
        Err(e) => {
            return Err(DriftError::Csproj(e));
        },
    };
    if stale {
        let mut s: Vec<char> = Vec::new();
        push_str(&mut s, "dhara.config.toml NuGet metadata -> ");
        push_str(&mut s, config.ci.package_project.as_str());
        items.push(ConfigDriftItem { kind: ConfigDriftKind::NuGetCsproj, summary: text_of(s) });
    }
    proof {
        let tool_items = if tv@ != config.tool.version@ {
            seq![DriftView { kind: ConfigDriftKind::ToolCrateVersion, summary: tool_drift_summary(tv@, config.tool.version@) }]
        } else {
            Seq::empty()
        };
        let ws_items = if updated@ != cargo_content@ {
            tool_items.push(DriftView { kind: ConfigDriftKind::WorkspaceCargoToml, summary: workspace_drift_summary(config.versions.workspace@) })
        } else {
            tool_items
        };
        let all = if stale {
            ws_items.push(DriftView { kind: ConfigDriftKind::NuGetCsproj, summary: csproj_drift_summary(config.ci.package_project@) })
        } else {
            ws_items
        };
        assert(drift_views(items@) =~= all);
    }
    Ok(items)
}

/// Which kinds occur among the items.
pub open spec fn has_kind(items: Seq<DriftView>, kind: ConfigDriftKind) -> bool {
    exists|i: int| 0 <= i < items.len() && (#[trigger] items[i]).kind == kind
}

/// Whether any item is of `kind`.
pub fn drift_has_kind(items: &Vec<ConfigDriftItem>, kind: ConfigDriftKind) -> (r: bool)
    ensures
        r == has_kind(drift_views(items@), kind),
{
    let mut i: usize = 0;
    while i < items.len()
        invariant
            i <= items@.len(),
            forall|j: int| 0 <= j < i ==> items@[j].kind != kind,
        decreases items.len() - i,
    {
        if items[i].kind == kind {
            assert(drift_views(items@)[i as int].kind == kind);
            return true;
        }
        i = i + 1;
    }
    proof {
        if has_kind(drift_views(items@), kind) {
            let j = choose|j: int| 0 <= j < drift_views(items@).len() && (#[trigger] drift_views(items@)[j]).kind == kind;
            assert(items@[j].kind == kind);
        }
    }
    false
}

/// The new text of a manifest that drift of `kind` calls for: `None` when
/// the text already agrees.
pub open spec fn drift_update(kind: ConfigDriftKind, content: Seq<char>, config: DharaRepoConfig) -> Result<Option<Seq<char>>, DriftErrorView> {
    let synced = match kind {
        ConfigDriftKind::ToolCrateVersion => match synced_tool_cargo_toml(content, config.tool.version@) {
            Ok(t) => Ok(t),
            Err(e) => Err(DriftErrorView::Manifest(e)),
        },
        ConfigDriftKind::WorkspaceCargoToml => match synced_cargo_toml(content, config.versions.workspace@) {
            Ok(t) => Ok(t),
            Err(e) => Err(DriftErrorView::Manifest(e)),
        },
        ConfigDriftKind::NuGetCsproj => match synced_csproj(content, config) {
            Ok(t) => Ok(t),
            Err(e) => Err(DriftErrorView::Csproj(e)),
        },
    };
    match synced {
        Err(e) => Err(e),
        Ok(t) => Ok(if t == content { None } else { Some(t) }),
    }
}

/// Computes the update of one manifest for drift of `kind`; the caller writes
/// it back when it is `Some`.
pub fn apply_drift_to(kind: ConfigDriftKind, content: &str, config: &DharaRepoConfig) -> (r: Result<Option<String>, DriftError>)
    ensures
        match drift_update(kind, content@, *config) {
            Ok(None) => r matches Ok(None),
            Ok(Some(t)) => r matches Ok(Some(x)) && x@ == t,
            Err(e) => r matches Err(x) && x@ == e,
        },
{
    let synced = match kind {
        ConfigDriftKind::ToolCrateVersion => match sync_tool_cargo_toml(content, config.tool.version.as_str()) {
            Ok(t) => t,
            Err(e) => {
                return Err(DriftError::Manifest(e));
            },
        },
        ConfigDriftKind::WorkspaceCargoToml => match sync_cargo_toml(content, config.versions.workspace.as_str()) {
            Ok(t) => t,
            Err(e) => {
                return Err(DriftError::Manifest(e));
            },
        },
        ConfigDriftKind::NuGetCsproj => match sync_csproj(content, config) {
            Ok(t) => t,
            Err(e) => {
                return Err(DriftError::Csproj(e));
            },
        },
    };
    let a = chars_of(synced.as_str());
    let b = chars_of(content);
    if chars_eq(a.as_slice(), b.as_slice()) {
        Ok(None)
    } else {
        Ok(Some(synced))
    }
}


/// Drift is reported manifest by manifest, exactly where syncing would change
/// something: the tool manifest when its version differs from the configured
/// one, the root manifest when syncing it to the workspace version changes
/// its text, the package project when its metadata differs from the
/// configuration. The list is empty exactly when every manifest is in sync,
/// and a drift of the root manifest is one that applying it fixes.
pub proof fn lemma_drift_iff_out_of_sync(config: DharaRepoConfig, tool: Seq<char>, cargo: Seq<char>, csproj: Seq<char>)
    requires
        drift_of(config, tool, cargo, csproj) is Ok,
    ensures
        ({
            let items = drift_of(config, tool, cargo, csproj)->Ok_0;
            &&& has_kind(items, ConfigDriftKind::ToolCrateVersion)
                <==> (tool_crate_version(tool) matches Ok(v) && v != config.tool.version@)
            &&& has_kind(items, ConfigDriftKind::WorkspaceCargoToml)
                <==> (synced_cargo_toml(cargo, config.versions.workspace@) matches Ok(u) && u != cargo)
            &&& has_kind(items, ConfigDriftKind::NuGetCsproj)
                <==> needs_sync(csproj, config) == Ok::<bool, CsprojErrorView>(true)
            &&& has_kind(items, ConfigDriftKind::WorkspaceCargoToml)
                <==> (drift_update(ConfigDriftKind::WorkspaceCargoToml, cargo, config) matches Ok(Some(_)))
            &&& (items.len() == 0 <==> (
                    tool_crate_version(tool) == Ok::<Seq<char>, ManifestErrorView>(config.tool.version@)
                    && synced_cargo_toml(cargo, config.versions.workspace@) == Ok::<Seq<char>, ManifestErrorView>(cargo)
                    && needs_sync(csproj, config) == Ok::<bool, CsprojErrorView>(false)))
        }),
{
    let items = drift_of(config, tool, cargo, csproj)->Ok_0;
    let tv = tool_crate_version(tool)->Ok_0;
    let updated = synced_cargo_toml(cargo, config.versions.workspace@)->Ok_0;
    let b = needs_sync(csproj, config)->Ok_0;
    let t0 = DriftView { kind: ConfigDriftKind::ToolCrateVersion, summary: tool_drift_summary(tv, config.tool.version@) };
    let w0 = DriftView { kind: ConfigDriftKind::WorkspaceCargoToml, summary: workspace_drift_summary(config.versions.workspace@) };
    let c0 = DriftView { kind: ConfigDriftKind::NuGetCsproj, summary: csproj_drift_summary(config.ci.package_project@) };
    let s0 = if tv != config.tool.version@ { seq![t0] } else { Seq::<DriftView>::empty() };
    let s1 = if updated != cargo { s0.push(w0) } else { s0 };
    let s2 = if b { s1.push(c0) } else { s1 };
    assert(items == s2);
    assert forall|k: ConfigDriftKind| has_kind(items, k) <==> (
        (k is ToolCrateVersion && tv != config.tool.version@)
        || (k is WorkspaceCargoToml && updated != cargo)
        || (k is NuGetCsproj && b)) by {
        if has_kind(items, k) {
            let i = choose|i: int| 0 <= i < items.len() && (#[trigger] items[i]).kind == k;
            assert(items[i] == t0 || items[i] == w0 || items[i] == c0);
        }
        if k is ToolCrateVersion && tv != config.tool.version@ {
            assert(items[0] == t0);
        }
        if k is WorkspaceCargoToml && updated != cargo {
            assert(s1[s1.len() - 1] == w0);
            assert(items[s1.len() - 1] == w0);
        }
        if k is NuGetCsproj && b {
            assert(items[items.len() - 1] == c0);
        }
    }
    assert(has_kind(items, ConfigDriftKind::ToolCrateVersion) == (tv != config.tool.version@));
    assert(has_kind(items, ConfigDriftKind::WorkspaceCargoToml) == (updated != cargo));
    assert(has_kind(items, ConfigDriftKind::NuGetCsproj) == b);
    if items.len() > 0 {
        assert(has_kind(items, items[0].kind));
    }
}


/// The place of a drift kind in the order manifests are checked.
pub open spec fn kind_place(k: ConfigDriftKind) -> int {
    match k {
        ConfigDriftKind::ToolCrateVersion => 0,
        ConfigDriftKind::WorkspaceCargoToml => 1,
        ConfigDriftKind::NuGetCsproj => 2,
    }
}

/// The drift list names each manifest at most once, in the order tool
/// manifest, root manifest, package project; a root manifest item names the
/// configured workspace version.
pub proof fn lemma_drift_in_check_order(config: DharaRepoConfig, tool: Seq<char>, cargo: Seq<char>, csproj: Seq<char>)
    requires
        drift_of(config, tool, cargo, csproj) is Ok,
    ensures
        ({
            let items = drift_of(config, tool, cargo, csproj)->Ok_0;
            &&& items.len() <= 3
            &&& forall|i: int, j: int| 0 <= i < j < items.len() ==>
                kind_place((#[trigger] items[i]).kind) < kind_place((#[trigger] items[j]).kind)
            &&& forall|i: int| 0 <= i < items.len() && (#[trigger] items[i]).kind is WorkspaceCargoToml ==>
                items[i].summary == workspace_drift_summary(config.versions.workspace@)
        }),
{
    let items = drift_of(config, tool, cargo, csproj)->Ok_0;
    let tv = tool_crate_version(tool)->Ok_0;
    let updated = synced_cargo_toml(cargo, config.versions.workspace@)->Ok_0;
    let b = needs_sync(csproj, config)->Ok_0;
    let t0 = DriftView { kind: ConfigDriftKind::ToolCrateVersion, summary: tool_drift_summary(tv, config.tool.version@) };
    let w0 = DriftView { kind: ConfigDriftKind::WorkspaceCargoToml, summary: workspace_drift_summary(config.versions.workspace@) };
    let c0 = DriftView { kind: ConfigDriftKind::NuGetCsproj, summary: csproj_drift_summary(config.ci.package_project@) };
    let s0 = if tv != config.tool.version@ { seq![t0] } else { Seq::<DriftView>::empty() };
    let s1 = if updated != cargo { s0.push(w0) } else { s0 };
    let s2 = if b { s1.push(c0) } else { s1 };
    assert(items == s2);
    assert(forall|i: int| 0 <= i < s0.len() ==> #[trigger] s0[i] == t0);
    assert(forall|i: int| 0 <= i < s1.len() ==> #[trigger] s1[i] == t0 || s1[i] == w0);
    assert(forall|i: int| 0 <= i < s1.len() && #[trigger] s1[i] == w0 ==> i == s1.len() - 1);
    assert(s0.len() <= 1);
}

} // verus!

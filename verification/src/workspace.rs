//! What the workspace knows about its definitions package, and the revision
//! the next package build takes.

use vstd::prelude::*;
use crate::text::{chars_of, string_from, chars_eq};
use crate::paths::{join, join_path, resolve_defs_output_dir, resolved_against, EMBEDDED_DEFS_DIR_RELATIVE};
use crate::command::ToolContext;

verus! {

/// The state of the workspace's definitions package file.
#[derive(Debug, Clone)]
pub enum DefsPackageStatus {
    Missing,
    Present,
    Invalid { reason: String },
}

/// What a decoded package says about itself.
#[derive(Debug, Clone)]
pub struct PackageInfo {
    pub package_revision: u16,
    pub definitions_release: String,
    pub package_version: String,
    pub definition_count: usize,
}

/// The workspace's view of its definitions package.
#[derive(Debug, Clone)]
pub struct WorkspaceSnapshot {
    pub defs_path: String,
    pub defs_status: DefsPackageStatus,
    pub package_revision: Option<u16>,
    pub definitions_release: Option<String>,
    pub package_version: Option<String>,
    pub definition_count: Option<usize>,
}

/// The revision the next build at `tool_version` takes: 1 unless the package
/// is present and was built by the same version, in which case one past its
/// revision (a missing revision counting as 0); `None` when that overflows
/// `u16`.
pub open spec fn next_revision(s: WorkspaceSnapshot, tool_version: Seq<char>) -> Option<u16> {
    if !(s.defs_status is Present) {
        Some(1)
    } else if !(s.package_version matches Some(v) && v@ == tool_version) {
        Some(1)
    } else {
        let current = match s.package_revision {
            Some(r) => r,
            None => 0,
        };
        if current == u16::MAX { None } else { Some((current + 1) as u16) }
    }
}

impl WorkspaceSnapshot {
    /// A snapshot of a path with no package file.
    pub fn missing(defs_path: String) -> (r: WorkspaceSnapshot)
        ensures
            r.defs_path == defs_path,
            r.defs_status is Missing,
            r.package_revision is None && r.definitions_release is None,
            r.package_version is None && r.definition_count is None,
    {
        WorkspaceSnapshot {
            defs_path,
            defs_status: DefsPackageStatus::Missing,
            package_revision: None,
            definitions_release: None,
            package_version: None,
            definition_count: None,
        }
    }

    /// A snapshot of a package file that decoded.
    pub fn present(defs_path: String, info: PackageInfo) -> (r: WorkspaceSnapshot)
        ensures
            r.defs_path == defs_path,
            r.defs_status is Present,
            r.package_revision == Some(info.package_revision),
            r.definitions_release == Some(info.definitions_release),
            r.package_version == Some(info.package_version),
            r.definition_count == Some(info.definition_count),
    {
        WorkspaceSnapshot {
            defs_path,
            defs_status: DefsPackageStatus::Present,
            package_revision: Some(info.package_revision),
            definitions_release: Some(info.definitions_release),
            package_version: Some(info.package_version),
            definition_count: Some(info.definition_count),
        }
    }

    /// A snapshot of a package file that failed to decode.
    pub fn invalid(defs_path: String, reason: String) -> (r: WorkspaceSnapshot)
        ensures
            r.defs_path == defs_path,
            r.defs_status == (DefsPackageStatus::Invalid { reason }),
            r.package_revision is None && r.definitions_release is None,
            r.package_version is None && r.definition_count is None,
    {
        WorkspaceSnapshot {
            defs_path,
            defs_status: DefsPackageStatus::Invalid { reason },
            package_revision: None,
            definitions_release: None,
            package_version: None,
            definition_count: None,
        }
    }

    /// The revision the next build at `tool_version` takes.
    pub fn next_package_revision(&self, tool_version: &str) -> (r: Result<u16, String>)
        ensures
            match next_revision(*self, tool_version@) {
                Some(n) => r == Ok::<u16, String>(n),
                None => r matches Err(m) && m@ == "package revision overflowed u16"@,
            },
    {
        match self.defs_status {
            DefsPackageStatus::Present => {},
            _ => {
                return Ok(1);
            },
        }
        let same = match &self.package_version {
            Some(v) => {
                let a = chars_of(v.as_str());
                let b = chars_of(tool_version);
                chars_eq(a.as_slice(), b.as_slice())
            },
            None => false,
        };
        if !same {
            return Ok(1);
        }
        let current: u16 = match self.package_revision {
            Some(r) => r,
            None => 0,
        };
        if current == u16::MAX {
            Err(string_from(chars_of("package revision overflowed u16").as_slice()))
        } else {
            Ok(current + 1)
        }
    }

    /// The word for the package state.
    pub fn status_label(&self) -> (r: &'static str)
        ensures
            self.defs_status is Missing ==> r@ == "missing"@,
            self.defs_status is Present ==> r@ == "present"@,
            self.defs_status is Invalid ==> r@ == "invalid"@,
    {
        match self.defs_status {
            DefsPackageStatus::Missing => "missing",
            DefsPackageStatus::Present => "present",
            DefsPackageStatus::Invalid { .. } => "invalid",
        }
    }

    /// Whether the package was built by `tool_version`: `match`, `mismatch`,
    /// or a dash when its version is unknown.
    pub fn version_match_label(&self, tool_version: &str) -> (r: &'static str)
        ensures
            match self.package_version {
                Some(v) => if v@ == tool_version@ { r@ == "match"@ } else { r@ == "mismatch"@ },
                None => r@ == "\u{2014}"@,
            },
    {
        match &self.package_version {
            Some(v) => {
                let a = chars_of(v.as_str());
                let b = chars_of(tool_version);
                if chars_eq(a.as_slice(), b.as_slice()) {
                    "match"
                } else {
                    "mismatch"
                }
            },
            None => "\u{2014}",
        }
    }

    /// Records a package just written to `path`: a snapshot of another path is
    /// left as it is.
    pub fn record_package_written(&mut self, path: &str, info: &PackageInfo)
        ensures
            old(self).defs_path@ != path@ ==> *final(self) == *old(self),
            old(self).defs_path@ == path@ ==> {
                &&& final(self).defs_path == old(self).defs_path
                &&& final(self).defs_status is Present
                &&& final(self).package_revision == Some(info.package_revision)
                &&& final(self).package_version matches Some(v) && v@ == info.package_version@
                &&& final(self).definitions_release matches Some(d) && d@ == info.definitions_release@
                &&& final(self).definition_count == Some(info.definition_count)
            },
    {
        let a = chars_of(self.defs_path.as_str());
        let b = chars_of(path);
        if !chars_eq(a.as_slice(), b.as_slice()) {
            return;
        }
        self.defs_status = DefsPackageStatus::Present;
        self.package_revision = Some(info.package_revision);
        self.package_version = Some(info.package_version.clone());
        self.definitions_release = Some(info.definitions_release.clone());
        self.definition_count = Some(info.definition_count);
    }
}

/// Recording a package written at the snapshot's path makes the next build
/// at that package's version take the revision after it.
pub proof fn lemma_record_then_next(before: WorkspaceSnapshot, after: WorkspaceSnapshot, info: PackageInfo)
    requires
        after.defs_status is Present,
        after.package_revision == Some(info.package_revision),
        after.package_version matches Some(v) && v@ == info.package_version@,
        info.package_revision < u16::MAX,
    ensures
        next_revision(after, info.package_version@) == Some((info.package_revision + 1) as u16),
{
}

/// The package file of the workspace: `filedefs.dat` in the definitions
/// output directory (the override against the repository root, else the
/// embedded resources directory), where builds write the package.
pub fn defs_path_for_context(context: &ToolContext) -> (r: String)
    ensures
        r@ == join(match context.output_dir {
            Some(p) => resolved_against(context.repo_root@, p@),
            None => join(context.repo_root@, EMBEDDED_DEFS_DIR_RELATIVE@),
        }, "filedefs.dat"@),
{
    let out = match &context.output_dir {
        Some(o) => resolve_defs_output_dir(context.repo_root.as_str(), Some(o.as_str())),
        None => resolve_defs_output_dir(context.repo_root.as_str(), None),
    };
    join_path(out.as_str(), "filedefs.dat")
}


/// The revision a package build takes, given the workspace state cached
/// for the process: 1 when the workspace has not been analysed yet.
pub fn next_package_revision_for_build(cached: Option<&WorkspaceSnapshot>, tool_version: &str) -> (r: Result<u16, String>)
    ensures
        cached is None ==> r == Ok::<u16, String>(1),
        cached matches Some(s) ==> match next_revision(*s, tool_version@) {
            Some(n) => r == Ok::<u16, String>(n),
            None => r matches Err(m) && m@ == "package revision overflowed u16"@,
        },
{
    match cached {
        None => Ok(1),
        Some(s) => s.next_package_revision(tool_version),
    }
}

/// Whether the cached snapshot must be analysed again: it describes another
/// package path.
pub fn needs_reanalysis(cached: &WorkspaceSnapshot, defs_path: &str) -> (r: bool)
    ensures
        r == (cached.defs_path@ != defs_path@),
{
    let a = chars_of(cached.defs_path.as_str());
    let b = chars_of(defs_path);
    !chars_eq(a.as_slice(), b.as_slice())
}

} // verus!

//! Runtime identifiers of the native library: its file name per platform,
//! where it sits inside the NuGet package, which identifiers the host can
//! build, and the MSBuild platform values they need.

use vstd::prelude::*;
use crate::text::{chars_of, string_from, push_str, chars_eq, views, concat2};

verus! {

/// A runtime identifier the tool does not know.
#[derive(Debug, Clone)]
pub enum RidError {
    /// No native library name for this identifier.
    NoLibraryName(String),
    /// No MSBuild `Platform` for this identifier.
    NoPlatform(String),
    /// No MSBuild `PlatformTarget` for this identifier.
    NoPlatformTarget(String),
}

/// The view of a runtime identifier error.
pub ghost enum RidErrorView {
    NoLibraryName(Seq<char>),
    NoPlatform(Seq<char>),
    NoPlatformTarget(Seq<char>),
}

impl View for RidError {
    type V = RidErrorView;

    open spec fn view(&self) -> RidErrorView {
        match self {
            RidError::NoLibraryName(s) => RidErrorView::NoLibraryName(s@),
            RidError::NoPlatform(s) => RidErrorView::NoPlatform(s@),
            RidError::NoPlatformTarget(s) => RidErrorView::NoPlatformTarget(s@),
        }
    }
}

/// What a runtime identifier error says.
pub open spec fn rid_error_text(e: RidErrorView) -> Seq<char> {
    match e {
        RidErrorView::NoLibraryName(r) => "unsupported runtime identifier for native library name: "@ + r,
        RidErrorView::NoPlatform(r) => "unsupported runtime for Platform inference: "@ + r,
        RidErrorView::NoPlatformTarget(r) => "unsupported runtime for PlatformTarget inference: "@ + r,
    }
}

impl RidError {
    /// The error's message.
    pub fn message(&self) -> (r: String)
        ensures
            r@ == rid_error_text(self@),
    {
        match self {
            RidError::NoLibraryName(r) => concat2("unsupported runtime identifier for native library name: ", r.as_str()),
            RidError::NoPlatform(r) => concat2("unsupported runtime for Platform inference: ", r.as_str()),
            RidError::NoPlatformTarget(r) => concat2("unsupported runtime for PlatformTarget inference: ", r.as_str()),
        }
    }
}

/// The native library file of a runtime identifier.
pub open spec fn library_name(rid: Seq<char>) -> Option<Seq<char>> {
    if rid == "win-x64"@ || rid == "win-arm64"@ {
        Some("dharastorage.dll"@)
    } else if rid == "linux-x64"@ || rid == "linux-arm64"@ {
        Some("libdharastorage.so"@)
    } else if rid == "osx-arm64"@ {
        Some("libdharastorage.dylib"@)
    } else {
        None
    }
}

/// Whether `rid` names a runtime of the operating system `os` (its text up
/// to the first `-` is `os`).
pub open spec fn rid_of_os(rid: Seq<char>, os: Seq<char>) -> bool {
    rid.len() > os.len() && rid.take(os.len() as int) == os && rid[os.len() as int] == '-'
}

/// The native library's file name depends on the identifier's operating
/// system alone: a Windows identifier gets `dharastorage.dll`, a Linux one
/// `libdharastorage.so`, a macOS one `libdharastorage.dylib`; and a name
/// exists exactly for the identifiers that some host builds natively.
pub proof fn lemma_library_name_follows_os(rid: Seq<char>)
    ensures
        library_name(rid) is Some && rid_of_os(rid, "win"@) ==> library_name(rid) == Some("dharastorage.dll"@),
        library_name(rid) is Some && rid_of_os(rid, "linux"@) ==> library_name(rid) == Some("libdharastorage.so"@),
        library_name(rid) is Some && rid_of_os(rid, "osx"@) ==> library_name(rid) == Some("libdharastorage.dylib"@),
        library_name(rid) is Some <==> (buildable_on(rid, "windows"@) || buildable_on(rid, "linux"@) || buildable_on(rid, "macos"@)),
{
    reveal_strlit("win");
    reveal_strlit("linux");
    reveal_strlit("osx");
    reveal_strlit("win-x64");
    reveal_strlit("win-arm64");
    reveal_strlit("linux-x64");
    reveal_strlit("linux-arm64");
    reveal_strlit("osx-arm64");
    reveal_strlit("windows");
    reveal_strlit("macos");
    assert("windows"@ != "linux"@ && "windows"@ != "macos"@ && "linux"@ != "macos"@) by {
        assert("windows"@.len() != "linux"@.len());
        assert("windows"@.len() != "macos"@.len());
        assert("linux"@[0] != "macos"@[0]);
    }
    if library_name(rid) is Some {
        assert(rid[0] == 'w' || rid[0] == 'l' || rid[0] == 'o');
        if rid_of_os(rid, "win"@) {
            assert(rid.take(3)[0] == 'w');
        }
        if rid_of_os(rid, "linux"@) {
            assert(rid.take(5)[0] == 'l');
        }
        if rid_of_os(rid, "osx"@) {
            assert(rid.take(3)[0] == 'o');
        }
    }
}

fn is(a: &str, b: &str) -> (r: bool)
    ensures
        r == (a@ == b@),
{
    let x = chars_of(a);
    let y = chars_of(b);
    chars_eq(x.as_slice(), y.as_slice())
}

/// Native library file name placed under `runtimes/{rid}/native/`.
pub fn native_lib_filename(rid: &str) -> (r: Result<&'static str, RidError>)
    ensures
        match library_name(rid@) {
            Some(n) => r matches Ok(x) && x@ == n,
            None => r matches Err(e) && e@ == RidErrorView::NoLibraryName(rid@),
        },
{
    if is(rid, "win-x64") || is(rid, "win-arm64") {
        Ok("dharastorage.dll")
    } else if is(rid, "linux-x64") || is(rid, "linux-arm64") {
        Ok("libdharastorage.so")
    } else if is(rid, "osx-arm64") {
        Ok("libdharastorage.dylib")
    } else {
        Err(RidError::NoLibraryName(string_from(chars_of(rid).as_slice())))
    }
}

/// Package-relative path for a native library entry inside a `.nupkg`.
pub fn package_native_path(rid: &str) -> (r: Result<String, RidError>)
    ensures
        match library_name(rid@) {
            Some(n) => r matches Ok(x) && x@ == "runtimes/"@ + rid@ + "/native/"@ + n,
            None => r matches Err(e) && e@ == RidErrorView::NoLibraryName(rid@),
        },
{
    let name = native_lib_filename(rid)?;
    let mut out: Vec<char> = Vec::new();
    push_str(&mut out, "runtimes/");
    push_str(&mut out, rid);
    push_str(&mut out, "/native/");
    push_str(&mut out, name);
    Ok(string_from(out.as_slice()))
}

/// The identifiers a host operating system builds without cross-compiling.
pub open spec fn buildable_on(rid: Seq<char>, host_os: Seq<char>) -> bool {
    if host_os == "windows"@ {
        rid == "win-x64"@ || rid == "win-arm64"@
    } else if host_os == "linux"@ {
        rid == "linux-x64"@ || rid == "linux-arm64"@
    } else if host_os == "macos"@ {
        rid == "osx-arm64"@
    } else {
        false
    }
}

/// Whether `host_os` (as `std::env::consts::OS` names it) builds `rid`.
pub fn is_rid_buildable_on_host(rid: &str, host_os: &str) -> (r: bool)
    ensures
        r == buildable_on(rid@, host_os@),
{
    if is(host_os, "windows") {
        is(rid, "win-x64") || is(rid, "win-arm64")
    } else if is(host_os, "linux") {
        is(rid, "linux-x64") || is(rid, "linux-arm64")
    } else if is(host_os, "macos") {
        is(rid, "osx-arm64")
    } else {
        false
    }
}

/// The identifiers of `rids` that the host builds, in order.
pub open spec fn buildable_subset(rids: Seq<Seq<char>>, host_os: Seq<char>) -> Seq<Seq<char>> {
    rids.filter(|r: Seq<char>| buildable_on(r, host_os))
}

/// Runtime identifiers that can be built on the host without cross-compilation.
pub fn buildable_runtimes_on_host(all_runtimes: &Vec<String>, host_os: &str) -> (r: Vec<String>)
    ensures
        views(r@) == buildable_subset(views(all_runtimes@), host_os@),
{
    let mut r: Vec<String> = Vec::new();
    let mut i: usize = 0;
    assert(views(all_runtimes@).take(0) =~= Seq::<Seq<char>>::empty());
    assert(buildable_subset(Seq::<Seq<char>>::empty(), host_os@) =~= Seq::<Seq<char>>::empty());
    while i < all_runtimes.len()
        invariant
            i <= all_runtimes@.len(),
            views(r@) == buildable_subset(views(all_runtimes@).take(i as int), host_os@),
        decreases all_runtimes.len() - i,
    {
        let ghost pre = views(all_runtimes@).take(i as int);
        let ghost next = views(all_runtimes@).take(i + 1);
        assert(next =~= pre.push(all_runtimes@[i as int]@));
        assert(next.drop_last() =~= pre);
        if is_rid_buildable_on_host(all_runtimes[i].as_str(), host_os) {
            r.push(all_runtimes[i].clone());
            assert(buildable_subset(next, host_os@) =~= buildable_subset(pre, host_os@).push(all_runtimes@[i as int]@)) by {
                reveal(Seq::filter);
            }
            assert(views(r@) =~= buildable_subset(next, host_os@));
        } else {
            assert(buildable_subset(next, host_os@) =~= buildable_subset(pre, host_os@)) by {
                reveal(Seq::filter);
            }
        }
        i = i + 1;
    }
    assert(views(all_runtimes@).take(all_runtimes@.len() as int) =~= views(all_runtimes@));
    r
}

/// The MSBuild `Platform` of an identifier: `Some(None)` where none is needed.
pub open spec fn platform_of(rid: Seq<char>) -> Option<Option<Seq<char>>> {
    if rid == "win-x64"@ {
        Some(Some("x64"@))
    } else if rid == "win-arm64"@ {
        Some(Some("ARM64"@))
    } else if rid == "win-x86"@ {
        Some(Some("x86"@))
    } else if rid == "linux-x64"@ || rid == "linux-arm64"@ || rid == "osx-arm64"@ {
        Some(None)
    } else {
        None
    }
}

/// The MSBuild `PlatformTarget` of an identifier: `Some(None)` where none is
/// needed.
pub open spec fn platform_target_of(rid: Seq<char>) -> Option<Option<Seq<char>>> {
    if rid == "win-x64"@ {
        Some(Some("x64"@))
    } else if rid == "win-arm64"@ {
        Some(Some("arm64"@))
    } else if rid == "win-x86"@ {
        Some(Some("x86"@))
    } else if rid == "linux-x64"@ || rid == "linux-arm64"@ || rid == "osx-arm64"@ {
        Some(None)
    } else {
        None
    }
}

pub open spec fn opt_str(o: Option<&'static str>) -> Option<Seq<char>> {
    match o {
        Some(s) => Some(s@),
        None => None,
    }
}

/// MSBuild `Platform` value when required for a runtime identifier.
pub fn platform(runtime: &str) -> (r: Result<Option<&'static str>, RidError>)
    ensures
        match platform_of(runtime@) {
            Some(p) => r matches Ok(x) && opt_str(x) == p,
            None => r matches Err(e) && e@ == RidErrorView::NoPlatform(runtime@),
        },
{
    if is(runtime, "win-x64") {
        Ok(Some("x64"))
    } else if is(runtime, "win-arm64") {
        Ok(Some("ARM64"))
    } else if is(runtime, "win-x86") {
        Ok(Some("x86"))
    } else if is(runtime, "linux-x64") || is(runtime, "linux-arm64") || is(runtime, "osx-arm64") {
        Ok(None)
    } else {
        Err(RidError::NoPlatform(string_from(chars_of(runtime).as_slice())))
    }
}

/// MSBuild `PlatformTarget` value when required for a runtime identifier.
pub fn platform_target(runtime: &str) -> (r: Result<Option<&'static str>, RidError>)
    ensures
        match platform_target_of(runtime@) {
            Some(p) => r matches Ok(x) && opt_str(x) == p,
            None => r matches Err(e) && e@ == RidErrorView::NoPlatformTarget(runtime@),
        },
{
    if is(runtime, "win-x64") {
        Ok(Some("x64"))
    } else if is(runtime, "win-arm64") {
        Ok(Some("arm64"))
    } else if is(runtime, "win-x86") {
        Ok(Some("x86"))
    } else if is(runtime, "linux-x64") || is(runtime, "linux-arm64") || is(runtime, "osx-arm64") {
        Ok(None)
    } else {
        Err(RidError::NoPlatformTarget(string_from(chars_of(runtime).as_slice())))
    }
}

} // verus!

//! The release flow: which steps a release runs for its options, the secrets
//! it needs, the Cargo release arguments and the message it ends with.

use vstd::prelude::*;
use crate::text::{chars_of, string_from, trim, trim_chars, views};
use crate::strmap::StringMap;

verus! {

/// The environment variable that holds the crates.io token.
pub const CARGO_REGISTRY_TOKEN_ENV: &'static str = "CARGO_REGISTRY_TOKEN";

/// The options of a release run.
#[derive(Debug, Clone)]
pub struct ReleaseOptions {
    pub configuration: String,
    pub source_override: Option<String>,
    pub api_key_env_override: Option<String>,
    pub output_dir: Option<String>,
    pub dry_run: bool,
    pub publish_cargo: bool,
    pub publish_nuget: bool,
    pub native_stage_override: Option<String>,
    pub prepacked_nuget: Option<String>,
    pub verify_package_on_dry_run: bool,
}

/// The options of a NuGet pack or publish.
#[derive(Debug, Clone)]
pub struct PackageOptions {
    pub configuration: String,
    pub version_override: Option<String>,
    pub source_override: Option<String>,
    pub api_key_env_override: Option<String>,
    pub output_dir: Option<String>,
    pub execute_publish: bool,
    pub native_stage_override: Option<String>,
    pub prepacked_nuget_override: Option<String>,
}

/// The arguments of `cargo release`: a dry run allows any branch and skips
/// verification; a real run requires `main` and executes.
pub open spec fn cargo_args(dry_run: bool) -> Seq<Seq<char>> {
    seq!["release"@, "--workspace"@, "--isolated"@, "--allow-branch"@,
        if dry_run { "*"@ } else { "main"@ }, "--tag-name"@, "v{{version}}"@, "--no-confirm"@,
        if dry_run { "--no-verify"@ } else { "--execute"@ }]
}

fn text(s: &str) -> (r: String)
    ensures
        r@ == s@,
{
    string_from(chars_of(s).as_slice())
}

/// The arguments passed to `cargo release`.
pub fn cargo_release_args(dry_run: bool) -> (r: Vec<String>)
    ensures
        views(r@) == cargo_args(dry_run),
{
    let mut args: Vec<String> = Vec::new();
    args.push(text("release"));
    args.push(text("--workspace"));
    args.push(text("--isolated"));
    args.push(text("--allow-branch"));
    args.push(text(if dry_run { "*" } else { "main" }));
    args.push(text("--tag-name"));
    args.push(text("v{{version}}"));
    args.push(text("--no-confirm"));
    if dry_run {
        args.push(text("--no-verify"));
    } else {
        args.push(text("--execute"));
    }
    assert(views(args@) =~= cargo_args(dry_run));
    args
}

/// The package options of the NuGet part of a release.
pub fn release_package_options(options: &ReleaseOptions) -> (r: PackageOptions)
    ensures
        r.configuration == options.configuration,
        r.version_override is None,
        r.source_override == options.source_override,
        r.api_key_env_override == options.api_key_env_override,
        r.output_dir == options.output_dir,
        !r.execute_publish,
        r.native_stage_override == options.native_stage_override,
        r.prepacked_nuget_override == options.prepacked_nuget,
{
    PackageOptions {
        configuration: options.configuration.clone(),
        version_override: None,
        source_override: options.source_override.clone(),
        api_key_env_override: options.api_key_env_override.clone(),
        output_dir: options.output_dir.clone(),
        execute_publish: false,
        native_stage_override: options.native_stage_override.clone(),
        prepacked_nuget_override: options.prepacked_nuget.clone(),
    }
}

/// The secrets a release needs, by variable name: none for a dry run; the
/// crates.io token when Cargo publishes; the NuGet key (the override, else
/// the configured variable) when NuGet publishes.
pub open spec fn needed_secrets(o: ReleaseOptions, configured_key: Seq<char>) -> Seq<Seq<char>> {
    if o.dry_run {
        Seq::empty()
    } else {
        let cargo = if o.publish_cargo { seq![CARGO_REGISTRY_TOKEN_ENV@] } else { Seq::empty() };
        let nuget_key = match o.api_key_env_override {
            Some(k) => k@,
            None => configured_key,
        };
        if o.publish_nuget { cargo.push(nuget_key) } else { cargo }
    }
}

/// Lists the secret variables the release must find, in the order checked.
pub fn required_release_secrets(options: &ReleaseOptions, configured_key: &str) -> (r: Vec<String>)
    ensures
        views(r@) == needed_secrets(*options, configured_key@),
{
    let mut r: Vec<String> = Vec::new();
    if options.dry_run {
        assert(views(r@) =~= needed_secrets(*options, configured_key@));
        return r;
    }
    if options.publish_cargo {
        r.push(text(CARGO_REGISTRY_TOKEN_ENV));
    }
    if options.publish_nuget {
        let key = match &options.api_key_env_override {
            Some(k) => k.clone(),
            None => text(configured_key),
        };
        r.push(key);
    }
    assert(views(r@) =~= needed_secrets(*options, configured_key@));
    r
}

/// A secret is available when the process environment or the `.env.local`
/// values hold a non-blank value for it (the environment is asked first).
pub open spec fn secret_found(env_value: Option<Seq<char>>, file_values: Map<Seq<char>, Seq<char>>, key: Seq<char>) -> bool {
    (env_value matches Some(v) && trim(v).len() > 0)
        || (file_values.contains_key(key) && trim(file_values[key]).len() > 0)
}

/// Whether a secret is available.
pub fn secret_available(env_value: Option<&str>, file_values: &StringMap, key: &str) -> (r: bool)
    requires
        file_values.wf(),
    ensures
        r == secret_found(match env_value { Some(v) => Some(v@), None => None }, file_values@, key@),
{
    match env_value {
        Some(v) => {
            let c = chars_of(v);
            if trim_chars(c.as_slice()).len() > 0 {
                return true;
            }
        },
        None => {},
    }
    match file_values.get(key) {
        Some(v) => {
            let c = chars_of(v.as_str());
            trim_chars(c.as_slice()).len() > 0
        },
        None => false,
    }
}

/// The error of a release that lacks a secret.
pub fn missing_secret_message(key: &str) -> (r: String)
    ensures
        r@ == key@ + " is required for release execution"@,
{
    let mut out = chars_of(key);
    crate::text::push_str(&mut out, " is required for release execution");
    string_from(out.as_slice())
}

/// One step of a release.
#[derive(Debug, Clone, Copy, PartialEq, Eq, Structural)]
pub enum ReleaseStep {
    /// Validate the release configuration and repository layout.
    VerifyRelease,
    /// Check that the manifests carry the configured version.
    ValidateVersionsSynced,
    /// Check that the needed secrets are available.
    EnsureSecrets,
    /// Run `cargo release`.
    CargoRelease,
    /// Verify the pre-packed NuGet package.
    NugetVerify,
    /// Verify and dry-run the NuGet publish.
    NugetPublish,
    /// Pack the NuGet package.
    NugetPack,
    /// Publish the packed NuGet package.
    NugetPublishPacked,
}

/// The NuGet steps of a release and the message it ends with.
pub open spec fn nuget_plan(o: ReleaseOptions) -> (Seq<ReleaseStep>, Seq<char>) {
    if !o.publish_cargo && !o.publish_nuget {
        (Seq::empty(), "Release flow completed with Cargo and NuGet publishing skipped."@)
    } else if !o.publish_nuget {
        (Seq::empty(), if o.dry_run {
            "Cargo release dry run completed. NuGet release was skipped."@
        } else {
            "Cargo release completed. NuGet release was skipped."@
        })
    } else if o.prepacked_nuget is Some {
        if o.dry_run {
            (if o.verify_package_on_dry_run { seq![ReleaseStep::NugetVerify] } else { Seq::empty() },
                if o.publish_cargo {
                    "Cargo and NuGet release dry run completed using pre-packed NuGet artifact."@
                } else {
                    "NuGet release dry run completed using pre-packed NuGet artifact."@
                })
        } else {
            (seq![ReleaseStep::NugetPublishPacked], if o.publish_cargo {
                "Cargo and NuGet release completed successfully."@
            } else {
                "NuGet release completed successfully. Cargo release was skipped."@
            })
        }
    } else if o.dry_run {
        (seq![ReleaseStep::NugetPublish], if o.publish_cargo {
            "Cargo and NuGet release dry run completed."@
        } else {
            "NuGet release dry run completed. Cargo release was skipped."@
        })
    } else {
        (seq![ReleaseStep::NugetPack, ReleaseStep::NugetPublishPacked], if o.publish_cargo {
            "Cargo and NuGet release completed successfully."@
        } else {
            "NuGet release completed successfully. Cargo release was skipped."@
        })
    }
}

/// The steps of a release, in order: the checks, the secrets, the Cargo
/// release when Cargo publishes, then the NuGet steps.
pub open spec fn release_steps(o: ReleaseOptions) -> Seq<ReleaseStep> {
    seq![ReleaseStep::VerifyRelease, ReleaseStep::ValidateVersionsSynced, ReleaseStep::EnsureSecrets]
        + (if o.publish_cargo { seq![ReleaseStep::CargoRelease] } else { Seq::empty() })
        + nuget_plan(o).0
}

/// The steps a release runs and the message it ends with when every step
/// succeeds; a failing step ends the release with its error.
pub fn release_plan(options: &ReleaseOptions) -> (r: (Vec<ReleaseStep>, &'static str))
    ensures
        r.0@ == release_steps(*options),
        r.1@ == nuget_plan(*options).1,
{
    let mut steps: Vec<ReleaseStep> = Vec::new();
    steps.push(ReleaseStep::VerifyRelease);
    steps.push(ReleaseStep::ValidateVersionsSynced);
    steps.push(ReleaseStep::EnsureSecrets);
    if options.publish_cargo {
        steps.push(ReleaseStep::CargoRelease);
    }
    let message: &'static str;
    if !options.publish_cargo && !options.publish_nuget {
        message = "Release flow completed with Cargo and NuGet publishing skipped.";
    } else if !options.publish_nuget {
        message = if options.dry_run {
            "Cargo release dry run completed. NuGet release was skipped."
        } else {
            "Cargo release completed. NuGet release was skipped."
        };
    } else if options.prepacked_nuget.is_some() {
        if options.dry_run {
            if options.verify_package_on_dry_run {
                steps.push(ReleaseStep::NugetVerify);
            }
            message = if options.publish_cargo {
                "Cargo and NuGet release dry run completed using pre-packed NuGet artifact."
            } else {
                "NuGet release dry run completed using pre-packed NuGet artifact."
            };
        } else {
            steps.push(ReleaseStep::NugetPublishPacked);
            message = if options.publish_cargo {
                "Cargo and NuGet release completed successfully."
            } else {
                "NuGet release completed successfully. Cargo release was skipped."
            };
        }
    } else if options.dry_run {
        steps.push(ReleaseStep::NugetPublish);
        message = if options.publish_cargo {
            "Cargo and NuGet release dry run completed."
        } else {
            "NuGet release dry run completed. Cargo release was skipped."
        };
    } else {
        steps.push(ReleaseStep::NugetPack);
        steps.push(ReleaseStep::NugetPublishPacked);
        message = if options.publish_cargo {
            "Cargo and NuGet release completed successfully."
        } else {
            "NuGet release completed successfully. Cargo release was skipped."
        };
    }
    assert(steps@ =~= release_steps(*options));
    (steps, message)
}

/// A dry run never needs a secret and never publishes to NuGet: its NuGet
/// steps are at most a verification and a dry-run publish.
pub proof fn lemma_dry_run_publishes_nothing(o: ReleaseOptions, configured_key: Seq<char>)
    requires
        o.dry_run,
    ensures
        needed_secrets(o, configured_key).len() == 0,
        !release_steps(o).contains(ReleaseStep::NugetPublishPacked),
        !release_steps(o).contains(ReleaseStep::NugetPack),
{
    let s = release_steps(o);
    assert forall|i: int| 0 <= i < s.len() implies s[i] != ReleaseStep::NugetPublishPacked && s[i] != ReleaseStep::NugetPack by {
    }
}


/// Whether a step belongs to the NuGet part of a release.
pub open spec fn is_nuget_step(s: ReleaseStep) -> bool {
    s is NugetVerify || s is NugetPublish || s is NugetPack || s is NugetPublishPacked
}

/// What a release runs, for every choice of options:
/// - it starts with the release checks, the version check and the secrets;
/// - it runs `cargo release` exactly when Cargo publishes;
/// - with NuGet publishing off it runs no NuGet step;
/// - a given pre-packed artifact is never re-packed, and a real run publishes
///   it as it is;
/// - the package is packed exactly when a real NuGet release has no
///   pre-packed artifact, and then before it is published;
/// - a real NuGet release ends by publishing the packed package, and a dry
///   run never publishes.
pub proof fn lemma_release_steps_follow_options(o: ReleaseOptions)
    ensures
        release_steps(o).len() >= 3,
        release_steps(o)[0] == ReleaseStep::VerifyRelease,
        release_steps(o)[1] == ReleaseStep::ValidateVersionsSynced,
        release_steps(o)[2] == ReleaseStep::EnsureSecrets,
        release_steps(o).contains(ReleaseStep::CargoRelease) <==> o.publish_cargo,
        !o.publish_nuget ==> forall|i: int| 0 <= i < release_steps(o).len() ==> !is_nuget_step(#[trigger] release_steps(o)[i]),
        o.prepacked_nuget is Some ==> !release_steps(o).contains(ReleaseStep::NugetPack),
        o.prepacked_nuget is Some && o.publish_nuget && !o.dry_run ==> release_steps(o).contains(ReleaseStep::NugetPublishPacked),
        release_steps(o).contains(ReleaseStep::NugetPack) <==> (o.publish_nuget && !o.dry_run && o.prepacked_nuget is None),
        release_steps(o).contains(ReleaseStep::NugetPack) ==>
            release_steps(o)[release_steps(o).len() - 2] == ReleaseStep::NugetPack,
        o.publish_nuget && !o.dry_run ==> release_steps(o).last() == ReleaseStep::NugetPublishPacked,
        o.dry_run ==> !release_steps(o).contains(ReleaseStep::NugetPublishPacked),
{
    let s = release_steps(o);
    let head = seq![ReleaseStep::VerifyRelease, ReleaseStep::ValidateVersionsSynced, ReleaseStep::EnsureSecrets];
    let cargo = if o.publish_cargo { seq![ReleaseStep::CargoRelease] } else { Seq::<ReleaseStep>::empty() };
    let nuget = nuget_plan(o).0;
    assert(s == head + cargo + nuget);
    if o.publish_cargo {
        assert(s[3] == ReleaseStep::CargoRelease);
    }
    if s.contains(ReleaseStep::CargoRelease) {
        let i = choose|i: int| 0 <= i < s.len() && s[i] == ReleaseStep::CargoRelease;
        assert(i >= 3);
    }
    if s.contains(ReleaseStep::NugetPack) {
        let i = choose|i: int| 0 <= i < s.len() && s[i] == ReleaseStep::NugetPack;
        assert(i >= 3);
    }
    if o.publish_nuget && !o.dry_run && o.prepacked_nuget is None {
        assert(s[s.len() - 2] == ReleaseStep::NugetPack);
    }
    if o.prepacked_nuget is Some && o.publish_nuget && !o.dry_run {
        assert(s[s.len() - 1] == ReleaseStep::NugetPublishPacked);
    }
    if o.dry_run && s.contains(ReleaseStep::NugetPublishPacked) {
        let i = choose|i: int| 0 <= i < s.len() && s[i] == ReleaseStep::NugetPublishPacked;
        assert(i >= 3);
    }
}


/// Whether a text mentions a dry run.
pub open spec fn mentions_dry_run(t: Seq<char>) -> bool {
    exists|i: int| 0 <= i && i + 7 <= t.len() && #[trigger] t.subrange(i, i + 7) == "dry run"@
}

/// The NuGet steps for every choice of options: the pre-packed package is
/// verified only on a dry run that asks for it, the dry-run publish happens
/// only on a dry run without a pre-packed package, and the closing message
/// mentions a dry run exactly when the release is one (and something was
/// to be published).
pub proof fn lemma_nuget_steps_and_message(o: ReleaseOptions)
    ensures
        release_steps(o).contains(ReleaseStep::NugetVerify)
            <==> (o.publish_nuget && o.dry_run && o.prepacked_nuget is Some && o.verify_package_on_dry_run),
        release_steps(o).contains(ReleaseStep::NugetPublish)
            <==> (o.publish_nuget && o.dry_run && o.prepacked_nuget is None),
        (o.publish_cargo || o.publish_nuget) ==> (mentions_dry_run(nuget_plan(o).1) <==> o.dry_run),
{
    let s = release_steps(o);
    let head = seq![ReleaseStep::VerifyRelease, ReleaseStep::ValidateVersionsSynced, ReleaseStep::EnsureSecrets];
    let cargo = if o.publish_cargo { seq![ReleaseStep::CargoRelease] } else { Seq::<ReleaseStep>::empty() };
    let nuget = nuget_plan(o).0;
    assert(s == head + cargo + nuget);
    if s.contains(ReleaseStep::NugetVerify) {
        let i = choose|i: int| 0 <= i < s.len() && s[i] == ReleaseStep::NugetVerify;
        assert(i >= 3);
    }
    if s.contains(ReleaseStep::NugetPublish) {
        let i = choose|i: int| 0 <= i < s.len() && s[i] == ReleaseStep::NugetPublish;
        assert(i >= 3);
    }
    if o.publish_nuget && o.dry_run && o.prepacked_nuget is Some && o.verify_package_on_dry_run {
        assert(s[s.len() - 1] == ReleaseStep::NugetVerify);
    }
    if o.publish_nuget && o.dry_run && o.prepacked_nuget is None {
        assert(s[s.len() - 1] == ReleaseStep::NugetPublish);
    }
    lemma_messages_mention_dry_run(o);
}

proof fn lemma_messages_mention_dry_run(o: ReleaseOptions)
    ensures
        (o.publish_cargo || o.publish_nuget) ==> (mentions_dry_run(nuget_plan(o).1) <==> o.dry_run),
{
    let m = nuget_plan(o).1;
    reveal_strlit("dry run");
    reveal_strlit("Cargo release dry run completed. NuGet release was skipped.");
    reveal_strlit("Cargo release completed. NuGet release was skipped.");
    reveal_strlit("Cargo and NuGet release dry run completed using pre-packed NuGet artifact.");
    reveal_strlit("NuGet release dry run completed using pre-packed NuGet artifact.");
    reveal_strlit("Cargo and NuGet release completed successfully.");
    reveal_strlit("NuGet release completed successfully. Cargo release was skipped.");
    reveal_strlit("Cargo and NuGet release dry run completed.");
    reveal_strlit("NuGet release dry run completed. Cargo release was skipped.");
    if o.publish_cargo || o.publish_nuget {
        if o.dry_run {
            let i: int = if !o.publish_nuget { 14 } else if o.publish_cargo { 24 } else { 14 };
            assert(m.subrange(i, i + 7) =~= "dry run"@);
        } else {
            assert forall|i: int| 0 <= i && i + 7 <= m.len() implies #[trigger] m.subrange(i, i + 7) != "dry run"@ by {
                assert(m.subrange(i, i + 7)[0] == m[i]);
                assert(m.subrange(i, i + 7)[1] == m[i + 1]);
                assert(m.subrange(i, i + 7)[2] == m[i + 2]);
                assert(m.subrange(i, i + 7)[3] == m[i + 3]);
                assert(m.subrange(i, i + 7)[4] == m[i + 4]);
            }
        }
    }
}

} // verus!

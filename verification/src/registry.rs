//! The Dhara Storage capability: the sections and commands the tool offers
//! and the form each command shows in the interactive interfaces.

use vstd::prelude::*;
use crate::text::{chars_of, chars_eq};
use crate::command::{
    ArgBinding, CommandRegistry, CommandSpec, CommandUi, FieldKind, FieldSpec, SectionSpec,
    UiView, FieldView, KindView, BindingView, ui_view, field_view, keys_of, ascending,
};

verus! {

/// A command as the capability declares it, before its form is attached.
pub struct RegisteredCommand {
    pub id: &'static str,
    pub path: Vec<&'static str>,
    pub summary: &'static str,
    pub args_summary: &'static str,
    pub section: &'static str,
}

/// The view of a declared command: id, path, summary, argument summary and
/// section.
#[verifier::ext_equal]
pub ghost struct RegisteredView {
    pub id: Seq<char>,
    pub path: Seq<Seq<char>>,
    pub summary: Seq<char>,
    pub args_summary: Seq<char>,
    pub section: Seq<char>,
}

impl View for RegisteredCommand {
    type V = RegisteredView;

    open spec fn view(&self) -> RegisteredView {
        RegisteredView {
            id: self.id@,
            path: self.path@.map_values(|s: &'static str| s@),
            summary: self.summary@,
            args_summary: self.args_summary@,
            section: self.section@,
        }
    }
}

/// The view of a section: name, prompt and summary.
pub open spec fn section_view(s: SectionSpec) -> (Seq<char>, Seq<char>, Seq<char>) {
    (s.name@, s.prompt@, s.summary@)
}

/// The sections the capability declares, in declaration order.
pub open spec fn section_table() -> Seq<(Seq<char>, Seq<char>, Seq<char>)> {
    seq![

        ("config"@, "dhara:config> "@, "Repository configuration commands"@),
        ("version"@, "dhara:version> "@, "Versioning commands"@),
        ("defs"@, "dhara:defs> "@, "Definitions package commands"@),
        ("verify"@, "dhara:verify> "@, "Verification commands"@),
        ("package"@, "dhara:package> "@, "NuGet packaging commands"@),
        ("release"@, "dhara:release> "@, "Release commands"@),
    ]
}

/// The commands the capability declares, in declaration order.
pub open spec fn command_table() -> Seq<RegisteredView> {
    seq![

        RegisteredView { id: "config.show"@, path: seq!["config"@, "show"@], summary: "Show effective repo configuration"@, args_summary: ""@, section: "config"@ },
        RegisteredView { id: "config.sync"@, path: seq!["config"@, "sync"@], summary: "Synchronize repo-managed metadata"@, args_summary: ""@, section: "config"@ },
        RegisteredView { id: "config.env.init"@, path: seq!["config"@, "env"@, "init"@], summary: "Create .env.local from .env.example"@, args_summary: ""@, section: "config"@ },
        RegisteredView { id: "version.set"@, path: seq!["version"@, "set"@], summary: "Set the shared workspace version"@, args_summary: "<version>"@, section: "version"@ },
        RegisteredView { id: "version.bump"@, path: seq!["version"@, "bump"@], summary: "Bump the shared workspace version"@, args_summary: "--part <major|minor|patch>"@, section: "version"@ },
        RegisteredView { id: "defs.pack"@, path: seq!["defs"@, "pack"@], summary: "Write the bundled definitions package"@, args_summary: "[--output <path>]"@, section: "defs"@ },
        RegisteredView { id: "defs.build-trid-xml"@, path: seq!["defs"@, "build-trid-xml"@], summary: "Build a definitions package from TrID XML"@, args_summary: "[--input <path>] [--output <path>]"@, section: "defs"@ },
        RegisteredView { id: "defs.inspect"@, path: seq!["defs"@, "inspect"@], summary: "Inspect an encoded package"@, args_summary: "[--input <path>]"@, section: "defs"@ },
        RegisteredView { id: "defs.inspect-trid-xml"@, path: seq!["defs"@, "inspect-trid-xml"@], summary: "Inspect a TrID XML source without writing output"@, args_summary: "[--input <path>]"@, section: "defs"@ },
        RegisteredView { id: "defs.normalize"@, path: seq!["defs"@, "normalize"@], summary: "Normalize an existing package"@, args_summary: "[--input <path>] [--output <path>]"@, section: "defs"@ },
        RegisteredView { id: "defs.verify"@, path: seq!["defs"@, "verify"@], summary: "Compare two packages"@, args_summary: "--left <path> --right <path>"@, section: "defs"@ },
        RegisteredView { id: "defs.sync-embedded"@, path: seq!["defs"@, "sync-embedded"@], summary: "Refresh the embedded runtime package"@, args_summary: "[--input <path>] [--output <path>] [--check]"@, section: "defs"@ },
        RegisteredView { id: "verify.release-config"@, path: seq!["verify"@, "release-config"@], summary: "Validate release configuration"@, args_summary: ""@, section: "verify"@ },
        RegisteredView { id: "verify.ci"@, path: seq!["verify"@, "ci"@], summary: "Run local CI-equivalent checks"@, args_summary: ""@, section: "verify"@ },
        RegisteredView { id: "verify.docs"@, path: seq!["verify"@, "docs"@], summary: "Build docs for core crates"@, args_summary: ""@, section: "verify"@ },
        RegisteredView { id: "verify.package"@, path: seq!["verify"@, "package"@], summary: "Pack and verify the NuGet package"@, args_summary: "[--configuration <name>] [--version <semver>]"@, section: "verify"@ },
        RegisteredView { id: "package.pack"@, path: seq!["package"@, "pack"@], summary: "Pack the NuGet package"@, args_summary: "[--configuration <name>] [--version <semver>]"@, section: "package"@ },
        RegisteredView { id: "package.publish"@, path: seq!["package"@, "publish"@], summary: "Verify and optionally publish the NuGet package"@, args_summary: "[--configuration <name>] [--version <semver>] [--source <url>] [--api-key-env <name>] [--dry-run|--execute]"@, section: "package"@ },
        RegisteredView { id: "release.publish"@, path: seq!["release"@, "publish"@], summary: "Release the NuGet package"@, args_summary: "[--configuration <name>] [--version <semver>] [--source <url>] [--api-key-env <name>] [--dry-run|--execute]"@, section: "release"@ },
        RegisteredView { id: "release.run"@, path: seq!["release"@, "run"@], summary: "Run the Cargo-first release workflow"@, args_summary: "[--configuration <name>] [--source <url>] [--api-key-env <name>] [--dry-run] [--skip-cargo] [--skip-nuget]"@, section: "release"@ },
    ]
}

/// The form of a command run at once, with no fields.
pub open spec fn quick_ui(description: Seq<char>, supports_cancel: bool) -> UiView {
    UiView { description, fields: Seq::empty(), quick_run: true, supports_cancel }
}

/// The two fields every packaging command asks for.
pub open spec fn package_fields() -> Seq<FieldView> {
    seq![FieldView { key: "configuration"@, label: "Configuration"@, help: "Build configuration used for verification and packing."@, kind: KindView::Select(seq!["Release"@]), binding: BindingView::FlagValue("--configuration"@), required: true, default_value: Some("Release"@) }, FieldView { key: "version"@, label: "Version override"@, help: "Optional package version override. Leave empty to use dhara.config.toml."@, kind: KindView::Text, binding: BindingView::FlagValue("--version"@), required: false, default_value: None }]
}

/// The form of a packaging command.
pub open spec fn package_ui(description: Seq<char>) -> UiView {
    UiView { description, fields: package_fields(), quick_run: true, supports_cancel: true }
}

/// A path field passed as `flag value`.
pub open spec fn path_field_view(key: Seq<char>, label: Seq<char>, help: Seq<char>, flag: Seq<char>, required: bool) -> FieldView {
    FieldView { key, label, help, kind: KindView::Path, binding: BindingView::FlagValue(flag), required, default_value: None }
}

/// The form of the command `id`; a command without its own form shows its
/// summary and no fields.
pub open spec fn ui_table(id: Seq<char>, summary: Seq<char>) -> UiView {

    if id == "config.show"@ {
        quick_ui("Inspect the effective Dhara repository configuration and resolved environment."@, false)
    } else if id == "config.sync"@ {
        quick_ui("Synchronize repo-managed metadata such as workspace version and NuGet package metadata."@, false)
    } else if id == "config.env.init"@ {
        quick_ui("Create .env.local from .env.example when the local file is missing."@, false)
    } else if id == "version.set"@ {
        UiView { description: "Set the shared workspace version used by both Cargo and NuGet metadata."@, fields: seq![FieldView { key: "version"@, label: "Version"@, help: "Semantic version to write into dhara.config.toml and synchronized package metadata."@, kind: KindView::Text, binding: BindingView::Positional, required: true, default_value: None }], quick_run: true, supports_cancel: false }
    } else if id == "version.bump"@ {
        UiView { description: "Bump the shared workspace version using semantic-version part semantics."@, fields: seq![FieldView { key: "part"@, label: "Part"@, help: "Which portion of the shared workspace version should be incremented."@, kind: KindView::Select(seq!["major"@, "minor"@, "patch"@]), binding: BindingView::FlagValue("--part"@), required: true, default_value: Some("minor"@) }], quick_run: true, supports_cancel: false }
    } else if id == "defs.pack"@ {
        UiView { description: "Write the bundled file definitions package from the embedded runtime asset."@, fields: seq![path_field_view("output"@, "Output"@, "Optional output file path."@, "--output"@, false)], quick_run: false, supports_cancel: false }
    } else if id == "defs.build-trid-xml"@ {
        UiView { description: "Build a filedefs.dat package from TrID XML sources or archives."@, fields: seq![path_field_view("input"@, "Input"@, "Optional TrID XML input path or archive."@, "--input"@, false), path_field_view("output"@, "Output"@, "Optional output package path."@, "--output"@, false)], quick_run: false, supports_cancel: false }
    } else if id == "defs.inspect"@ {
        UiView { description: "Inspect an encoded FlatBuffers package and summarize its metadata and counts."@, fields: seq![path_field_view("input"@, "Input"@, "Optional package path to inspect."@, "--input"@, false)], quick_run: false, supports_cancel: false }
    } else if id == "defs.inspect-trid-xml"@ {
        UiView { description: "Preview TrID XML transformation results without writing an output package."@, fields: seq![path_field_view("input"@, "Input"@, "Optional TrID XML source path."@, "--input"@, false)], quick_run: false, supports_cancel: false }
    } else if id == "defs.normalize"@ {
        UiView { description: "Normalize an existing FlatBuffers package into the canonical builder format."@, fields: seq![path_field_view("input"@, "Input"@, "Optional source package path."@, "--input"@, false), path_field_view("output"@, "Output"@, "Optional normalized output path."@, "--output"@, false)], quick_run: false, supports_cancel: false }
    } else if id == "defs.verify"@ {
        UiView { description: "Compare two FlatBuffers packages for semantic equivalence."@, fields: seq![path_field_view("left"@, "Left"@, "Left-hand package path."@, "--left"@, true), path_field_view("right"@, "Right"@, "Right-hand package path."@, "--right"@, true)], quick_run: false, supports_cancel: false }
    } else if id == "defs.sync-embedded"@ {
        UiView { description: "Refresh the runtime filedefs.dat package at tooling/output from the builder source."@, fields: seq![path_field_view("input"@, "Input"@, "Optional TrID XML archive or directory path."@, "--input"@, false), path_field_view("output"@, "Output"@, "Optional embedded package output path."@, "--output"@, false), FieldView { key: "check"@, label: "Check only"@, help: "Validate whether the embedded package is up to date without writing changes."@, kind: KindView::Boolean, binding: BindingView::Switch("--check"@), required: false, default_value: Some("false"@) }], quick_run: false, supports_cancel: false }
    } else if id == "verify.release-config"@ {
        quick_ui("Validate the release configuration and required repo layout."@, false)
    } else if id == "verify.ci"@ {
        quick_ui("Run the repo's local CI-equivalent checks for formatting, linting, tests, and .NET verification."@, true)
    } else if id == "verify.docs"@ {
        quick_ui("Build documentation for the Dhara crates without dependencies."@, true)
    } else if id == "verify.package"@ {
        package_ui("Pack and verify the Dhara.Storage NuGet package, including smoke-consumer validation."@)
    } else if id == "package.pack"@ {
        package_ui("Pack the Dhara.Storage NuGet package with staged native assets."@)
    } else if id == "package.publish"@ || id == "release.publish"@ {
        UiView { description: "Verify and optionally publish the Dhara.Storage NuGet package."@, fields: seq![FieldView { key: "configuration"@, label: "Configuration"@, help: "Build configuration used during package verification and packing."@, kind: KindView::Select(seq!["Release"@]), binding: BindingView::FlagValue("--configuration"@), required: true, default_value: Some("Release"@) }, FieldView { key: "version"@, label: "Version override"@, help: "Optional package version override. Leave empty to use dhara.config.toml."@, kind: KindView::Text, binding: BindingView::FlagValue("--version"@), required: false, default_value: None }, FieldView { key: "source"@, label: "Source"@, help: "Optional NuGet source URL override."@, kind: KindView::Text, binding: BindingView::FlagValue("--source"@), required: false, default_value: None }, FieldView { key: "api_key_env"@, label: "API key env"@, help: "Optional environment-variable name containing the NuGet API key."@, kind: KindView::Text, binding: BindingView::FlagValue("--api-key-env"@), required: false, default_value: None }, FieldView { key: "mode"@, label: "Mode"@, help: "Choose whether to publish or perform a dry run only."@, kind: KindView::Select(seq!["dry-run"@, "execute"@]), binding: BindingView::FlagValue("__mode"@), required: true, default_value: Some("dry-run"@) }], quick_run: false, supports_cancel: true }
    } else if id == "release.run"@ {
        UiView { description: "Run the Cargo-first release workflow, with optional NuGet publishing."@, fields: seq![FieldView { key: "configuration"@, label: "Configuration"@, help: "Build configuration used when NuGet packaging is enabled."@, kind: KindView::Select(seq!["Release"@]), binding: BindingView::FlagValue("--configuration"@), required: true, default_value: Some("Release"@) }, FieldView { key: "source"@, label: "Source"@, help: "Optional NuGet source URL override."@, kind: KindView::Text, binding: BindingView::FlagValue("--source"@), required: false, default_value: None }, FieldView { key: "api_key_env"@, label: "API key env"@, help: "Optional environment-variable name containing the NuGet API key."@, kind: KindView::Text, binding: BindingView::FlagValue("--api-key-env"@), required: false, default_value: None }, FieldView { key: "dry_run"@, label: "Dry run"@, help: "Run Cargo and NuGet release validation without publishing."@, kind: KindView::Boolean, binding: BindingView::Switch("--dry-run"@), required: false, default_value: Some("false"@) }, FieldView { key: "skip_cargo"@, label: "Skip Cargo"@, help: "Skip the Cargo release phase when crates were already published."@, kind: KindView::Boolean, binding: BindingView::Switch("--skip-cargo"@), required: false, default_value: Some("false"@) }, FieldView { key: "skip_nuget"@, label: "Skip NuGet"@, help: "Publish or dry-run only the Cargo release."@, kind: KindView::Boolean, binding: BindingView::Switch("--skip-nuget"@), required: false, default_value: Some("false"@) }], quick_run: false, supports_cancel: true }
    } else {
        UiView { description: summary, fields: Seq::empty(), quick_run: false, supports_cancel: false }
    }
}


fn field(key: &'static str, label: &'static str, help: &'static str, kind: FieldKind, binding: ArgBinding, required: bool, default_value: Option<&'static str>) -> (r: FieldSpec)
    ensures
        r.key == key && r.label == label && r.help == help && r.kind == kind && r.binding == binding
            && r.required == required && r.default_value == default_value,
{
    FieldSpec { key, label, help, kind, binding, required, default_value }
}

/// The form of a command that runs at once with no fields.
pub fn quick_command(description: &'static str, supports_cancel: bool) -> (r: CommandUi)
    ensures
        ui_view(r) == quick_ui(description@, supports_cancel),
{
    let ui = CommandUi { description, fields: Vec::new(), quick_run: true, supports_cancel };
    assert(ui_view(ui) =~~= quick_ui(description@, supports_cancel));
    ui
}

/// The form of a packaging command: build configuration and version override.
pub fn package_command(description: &'static str) -> (r: CommandUi)
    ensures
        ui_view(r) == package_ui(description@),
{
    let mut fields: Vec<FieldSpec> = Vec::new();

    fields.push(field("configuration", "Configuration", "Build configuration used for verification and packing.", FieldKind::Select(vec!["Release"]), ArgBinding::FlagValue("--configuration"), true, Some("Release")));
    fields.push(field("version", "Version override", "Optional package version override. Leave empty to use dhara.config.toml.", FieldKind::Text, ArgBinding::FlagValue("--version"), false, None));
    let ui = CommandUi { description, fields, quick_run: true, supports_cancel: true };
    assert(ui_view(ui) =~~= package_ui(description@));
    ui
}

/// A required path field passed as `flag value`.
pub fn required_path(key: &'static str, label: &'static str, help: &'static str, flag: &'static str) -> (r: FieldSpec)
    ensures
        field_view(r) == path_field_view(key@, label@, help@, flag@, true),
{
    FieldSpec { key, label, help, kind: FieldKind::Path, binding: ArgBinding::FlagValue(flag), required: true, default_value: None }
}

/// An optional path field passed as `flag value`.
pub fn optional_path(key: &'static str, label: &'static str, help: &'static str, flag: &'static str) -> (r: FieldSpec)
    ensures
        field_view(r) == path_field_view(key@, label@, help@, flag@, false),
{
    FieldSpec { key, label, help, kind: FieldKind::Path, binding: ArgBinding::FlagValue(flag), required: false, default_value: None }
}

fn is(id: &str, name: &str) -> (r: bool)
    ensures
        r == (id@ == name@),
{
    let a = chars_of(id);
    let b = chars_of(name);
    chars_eq(a.as_slice(), b.as_slice())
}

/// The form the interactive interfaces show for the command `id`.
pub fn ui_for_command(id: &'static str, summary: &'static str, args_summary: &'static str) -> (r: CommandUi)
    ensures
        ui_view(r) == ui_table(id@, summary@),
{

    if is(id, "config.show") {
        quick_command("Inspect the effective Dhara repository configuration and resolved environment.", false)
    } else if is(id, "config.sync") {
        quick_command("Synchronize repo-managed metadata such as workspace version and NuGet package metadata.", false)
    } else if is(id, "config.env.init") {
        quick_command("Create .env.local from .env.example when the local file is missing.", false)
    } else if is(id, "version.set") {
        {
            let mut fields: Vec<FieldSpec> = Vec::new();
            fields.push(field("version", "Version", "Semantic version to write into dhara.config.toml and synchronized package metadata.", FieldKind::Text, ArgBinding::Positional, true, None));
            let ui = CommandUi { description: "Set the shared workspace version used by both Cargo and NuGet metadata.", fields, quick_run: true, supports_cancel: false };
            assert(ui_view(ui) =~~= UiView { description: "Set the shared workspace version used by both Cargo and NuGet metadata."@, fields: seq![FieldView { key: "version"@, label: "Version"@, help: "Semantic version to write into dhara.config.toml and synchronized package metadata."@, kind: KindView::Text, binding: BindingView::Positional, required: true, default_value: None }], quick_run: true, supports_cancel: false });
            ui
        }
    } else if is(id, "version.bump") {
        {
            let mut fields: Vec<FieldSpec> = Vec::new();
            fields.push(field("part", "Part", "Which portion of the shared workspace version should be incremented.", FieldKind::Select(vec!["major", "minor", "patch"]), ArgBinding::FlagValue("--part"), true, Some("minor")));
            let ui = CommandUi { description: "Bump the shared workspace version using semantic-version part semantics.", fields, quick_run: true, supports_cancel: false };
            assert(ui_view(ui) =~~= UiView { description: "Bump the shared workspace version using semantic-version part semantics."@, fields: seq![FieldView { key: "part"@, label: "Part"@, help: "Which portion of the shared workspace version should be incremented."@, kind: KindView::Select(seq!["major"@, "minor"@, "patch"@]), binding: BindingView::FlagValue("--part"@), required: true, default_value: Some("minor"@) }], quick_run: true, supports_cancel: false });
            ui
        }
    } else if is(id, "defs.pack") {
        {
            let mut fields: Vec<FieldSpec> = Vec::new();
            fields.push(optional_path("output", "Output", "Optional output file path.", "--output"));
            let ui = CommandUi { description: "Write the bundled file definitions package from the embedded runtime asset.", fields, quick_run: false, supports_cancel: false };
            assert(ui_view(ui) =~~= UiView { description: "Write the bundled file definitions package from the embedded runtime asset."@, fields: seq![path_field_view("output"@, "Output"@, "Optional output file path."@, "--output"@, false)], quick_run: false, supports_cancel: false });
            ui
        }
    } else if is(id, "defs.build-trid-xml") {
        {
            let mut fields: Vec<FieldSpec> = Vec::new();
            fields.push(optional_path("input", "Input", "Optional TrID XML input path or archive.", "--input"));
            fields.push(optional_path("output", "Output", "Optional output package path.", "--output"));
            let ui = CommandUi { description: "Build a filedefs.dat package from TrID XML sources or archives.", fields, quick_run: false, supports_cancel: false };
            assert(ui_view(ui) =~~= UiView { description: "Build a filedefs.dat package from TrID XML sources or archives."@, fields: seq![path_field_view("input"@, "Input"@, "Optional TrID XML input path or archive."@, "--input"@, false), path_field_view("output"@, "Output"@, "Optional output package path."@, "--output"@, false)], quick_run: false, supports_cancel: false });
            ui
        }
    } else if is(id, "defs.inspect") {
        {
            let mut fields: Vec<FieldSpec> = Vec::new();
            fields.push(optional_path("input", "Input", "Optional package path to inspect.", "--input"));
            let ui = CommandUi { description: "Inspect an encoded FlatBuffers package and summarize its metadata and counts.", fields, quick_run: false, supports_cancel: false };
            assert(ui_view(ui) =~~= UiView { description: "Inspect an encoded FlatBuffers package and summarize its metadata and counts."@, fields: seq![path_field_view("input"@, "Input"@, "Optional package path to inspect."@, "--input"@, false)], quick_run: false, supports_cancel: false });
            ui
        }
    } else if is(id, "defs.inspect-trid-xml") {
        {
            let mut fields: Vec<FieldSpec> = Vec::new();
            fields.push(optional_path("input", "Input", "Optional TrID XML source path.", "--input"));
            let ui = CommandUi { description: "Preview TrID XML transformation results without writing an output package.", fields, quick_run: false, supports_cancel: false };
            assert(ui_view(ui) =~~= UiView { description: "Preview TrID XML transformation results without writing an output package."@, fields: seq![path_field_view("input"@, "Input"@, "Optional TrID XML source path."@, "--input"@, false)], quick_run: false, supports_cancel: false });
            ui
        }
    } else if is(id, "defs.normalize") {
        {
            let mut fields: Vec<FieldSpec> = Vec::new();
            fields.push(optional_path("input", "Input", "Optional source package path.", "--input"));
            fields.push(optional_path("output", "Output", "Optional normalized output path.", "--output"));
            let ui = CommandUi { description: "Normalize an existing FlatBuffers package into the canonical builder format.", fields, quick_run: false, supports_cancel: false };
            assert(ui_view(ui) =~~= UiView { description: "Normalize an existing FlatBuffers package into the canonical builder format."@, fields: seq![path_field_view("input"@, "Input"@, "Optional source package path."@, "--input"@, false), path_field_view("output"@, "Output"@, "Optional normalized output path."@, "--output"@, false)], quick_run: false, supports_cancel: false });
            ui
        }
    } else if is(id, "defs.verify") {
        {
            let mut fields: Vec<FieldSpec> = Vec::new();
            fields.push(required_path("left", "Left", "Left-hand package path.", "--left"));
            fields.push(required_path("right", "Right", "Right-hand package path.", "--right"));
            let ui = CommandUi { description: "Compare two FlatBuffers packages for semantic equivalence.", fields, quick_run: false, supports_cancel: false };
            assert(ui_view(ui) =~~= UiView { description: "Compare two FlatBuffers packages for semantic equivalence."@, fields: seq![path_field_view("left"@, "Left"@, "Left-hand package path."@, "--left"@, true), path_field_view("right"@, "Right"@, "Right-hand package path."@, "--right"@, true)], quick_run: false, supports_cancel: false });
            ui
        }
    } else if is(id, "defs.sync-embedded") {
        {
            let mut fields: Vec<FieldSpec> = Vec::new();
            fields.push(optional_path("input", "Input", "Optional TrID XML archive or directory path.", "--input"));
            fields.push(optional_path("output", "Output", "Optional embedded package output path.", "--output"));
            fields.push(field("check", "Check only", "Validate whether the embedded package is up to date without writing changes.", FieldKind::Boolean, ArgBinding::Switch("--check"), false, Some("false")));
            let ui = CommandUi { description: "Refresh the runtime filedefs.dat package at tooling/output from the builder source.", fields, quick_run: false, supports_cancel: false };
            assert(ui_view(ui) =~~= UiView { description: "Refresh the runtime filedefs.dat package at tooling/output from the builder source."@, fields: seq![path_field_view("input"@, "Input"@, "Optional TrID XML archive or directory path."@, "--input"@, false), path_field_view("output"@, "Output"@, "Optional embedded package output path."@, "--output"@, false), FieldView { key: "check"@, label: "Check only"@, help: "Validate whether the embedded package is up to date without writing changes."@, kind: KindView::Boolean, binding: BindingView::Switch("--check"@), required: false, default_value: Some("false"@) }], quick_run: false, supports_cancel: false });
            ui
        }
    } else if is(id, "verify.release-config") {
        quick_command("Validate the release configuration and required repo layout.", false)
    } else if is(id, "verify.ci") {
        quick_command("Run the repo's local CI-equivalent checks for formatting, linting, tests, and .NET verification.", true)
    } else if is(id, "verify.docs") {
        quick_command("Build documentation for the Dhara crates without dependencies.", true)
    } else if is(id, "verify.package") {
        package_command("Pack and verify the Dhara.Storage NuGet package, including smoke-consumer validation.")
    } else if is(id, "package.pack") {
        package_command("Pack the Dhara.Storage NuGet package with staged native assets.")
    } else if is(id, "package.publish") || is(id, "release.publish") {
        {
            let mut fields: Vec<FieldSpec> = Vec::new();
            fields.push(field("configuration", "Configuration", "Build configuration used during package verification and packing.", FieldKind::Select(vec!["Release"]), ArgBinding::FlagValue("--configuration"), true, Some("Release")));
            fields.push(field("version", "Version override", "Optional package version override. Leave empty to use dhara.config.toml.", FieldKind::Text, ArgBinding::FlagValue("--version"), false, None));
            fields.push(field("source", "Source", "Optional NuGet source URL override.", FieldKind::Text, ArgBinding::FlagValue("--source"), false, None));
            fields.push(field("api_key_env", "API key env", "Optional environment-variable name containing the NuGet API key.", FieldKind::Text, ArgBinding::FlagValue("--api-key-env"), false, None));
            fields.push(field("mode", "Mode", "Choose whether to publish or perform a dry run only.", FieldKind::Select(vec!["dry-run", "execute"]), ArgBinding::FlagValue("__mode"), true, Some("dry-run")));
            let ui = CommandUi { description: "Verify and optionally publish the Dhara.Storage NuGet package.", fields, quick_run: false, supports_cancel: true };
            assert(ui_view(ui) =~~= UiView { description: "Verify and optionally publish the Dhara.Storage NuGet package."@, fields: seq![FieldView { key: "configuration"@, label: "Configuration"@, help: "Build configuration used during package verification and packing."@, kind: KindView::Select(seq!["Release"@]), binding: BindingView::FlagValue("--configuration"@), required: true, default_value: Some("Release"@) }, FieldView { key: "version"@, label: "Version override"@, help: "Optional package version override. Leave empty to use dhara.config.toml."@, kind: KindView::Text, binding: BindingView::FlagValue("--version"@), required: false, default_value: None }, FieldView { key: "source"@, label: "Source"@, help: "Optional NuGet source URL override."@, kind: KindView::Text, binding: BindingView::FlagValue("--source"@), required: false, default_value: None }, FieldView { key: "api_key_env"@, label: "API key env"@, help: "Optional environment-variable name containing the NuGet API key."@, kind: KindView::Text, binding: BindingView::FlagValue("--api-key-env"@), required: false, default_value: None }, FieldView { key: "mode"@, label: "Mode"@, help: "Choose whether to publish or perform a dry run only."@, kind: KindView::Select(seq!["dry-run"@, "execute"@]), binding: BindingView::FlagValue("__mode"@), required: true, default_value: Some("dry-run"@) }], quick_run: false, supports_cancel: true });
            ui
        }
    } else if is(id, "release.run") {
        {
            let mut fields: Vec<FieldSpec> = Vec::new();
            fields.push(field("configuration", "Configuration", "Build configuration used when NuGet packaging is enabled.", FieldKind::Select(vec!["Release"]), ArgBinding::FlagValue("--configuration"), true, Some("Release")));
            fields.push(field("source", "Source", "Optional NuGet source URL override.", FieldKind::Text, ArgBinding::FlagValue("--source"), false, None));
            fields.push(field("api_key_env", "API key env", "Optional environment-variable name containing the NuGet API key.", FieldKind::Text, ArgBinding::FlagValue("--api-key-env"), false, None));
            fields.push(field("dry_run", "Dry run", "Run Cargo and NuGet release validation without publishing.", FieldKind::Boolean, ArgBinding::Switch("--dry-run"), false, Some("false")));
            fields.push(field("skip_cargo", "Skip Cargo", "Skip the Cargo release phase when crates were already published.", FieldKind::Boolean, ArgBinding::Switch("--skip-cargo"), false, Some("false")));
            fields.push(field("skip_nuget", "Skip NuGet", "Publish or dry-run only the Cargo release.", FieldKind::Boolean, ArgBinding::Switch("--skip-nuget"), false, Some("false")));
            let ui = CommandUi { description: "Run the Cargo-first release workflow, with optional NuGet publishing.", fields, quick_run: false, supports_cancel: true };
            assert(ui_view(ui) =~~= UiView { description: "Run the Cargo-first release workflow, with optional NuGet publishing."@, fields: seq![FieldView { key: "configuration"@, label: "Configuration"@, help: "Build configuration used when NuGet packaging is enabled."@, kind: KindView::Select(seq!["Release"@]), binding: BindingView::FlagValue("--configuration"@), required: true, default_value: Some("Release"@) }, FieldView { key: "source"@, label: "Source"@, help: "Optional NuGet source URL override."@, kind: KindView::Text, binding: BindingView::FlagValue("--source"@), required: false, default_value: None }, FieldView { key: "api_key_env"@, label: "API key env"@, help: "Optional environment-variable name containing the NuGet API key."@, kind: KindView::Text, binding: BindingView::FlagValue("--api-key-env"@), required: false, default_value: None }, FieldView { key: "dry_run"@, label: "Dry run"@, help: "Run Cargo and NuGet release validation without publishing."@, kind: KindView::Boolean, binding: BindingView::Switch("--dry-run"@), required: false, default_value: Some("false"@) }, FieldView { key: "skip_cargo"@, label: "Skip Cargo"@, help: "Skip the Cargo release phase when crates were already published."@, kind: KindView::Boolean, binding: BindingView::Switch("--skip-cargo"@), required: false, default_value: Some("false"@) }, FieldView { key: "skip_nuget"@, label: "Skip NuGet"@, help: "Publish or dry-run only the Cargo release."@, kind: KindView::Boolean, binding: BindingView::Switch("--skip-nuget"@), required: false, default_value: Some("false"@) }], quick_run: false, supports_cancel: true });
            ui
        }
    } else {
        let ui = CommandUi { description: summary, fields: Vec::new(), quick_run: false, supports_cancel: false };
        assert(ui_view(ui) =~~= ui_table(id@, summary@));
        ui
    }
}

/// Declares one command.
pub fn command(id: &'static str, path: Vec<&'static str>, summary: &'static str, args_summary: &'static str, section: &'static str) -> (r: RegisteredCommand)
    ensures
        r.id == id && r.path == path && r.summary == summary && r.args_summary == args_summary
            && r.section == section,
{
    RegisteredCommand { id, path, summary, args_summary, section }
}

/// The capability that contributes the Dhara Storage commands.
pub struct DharaStorageCapability;

impl DharaStorageCapability {
    /// The sections, in declaration order.
    pub fn sections(&self) -> (r: Vec<SectionSpec>)
        ensures
            r@.map_values(|s: SectionSpec| section_view(s)) == section_table(),
    {
        let mut r: Vec<SectionSpec> = Vec::new();

        r.push(SectionSpec { name: "config", prompt: "dhara:config> ", summary: "Repository configuration commands" });
        r.push(SectionSpec { name: "version", prompt: "dhara:version> ", summary: "Versioning commands" });
        r.push(SectionSpec { name: "defs", prompt: "dhara:defs> ", summary: "Definitions package commands" });
        r.push(SectionSpec { name: "verify", prompt: "dhara:verify> ", summary: "Verification commands" });
        r.push(SectionSpec { name: "package", prompt: "dhara:package> ", summary: "NuGet packaging commands" });
        r.push(SectionSpec { name: "release", prompt: "dhara:release> ", summary: "Release commands" });
        assert(r@.map_values(|s: SectionSpec| section_view(s)) =~= section_table());
        r
    }

    /// The commands, in declaration order.
    pub fn commands(&self) -> (r: Vec<RegisteredCommand>)
        ensures
            r@.map_values(|c: RegisteredCommand| c@) == command_table(),
    {
        let mut r: Vec<RegisteredCommand> = Vec::new();

        r.push(command("config.show", vec!["config", "show"], "Show effective repo configuration", "", "config"));
        r.push(command("config.sync", vec!["config", "sync"], "Synchronize repo-managed metadata", "", "config"));
        r.push(command("config.env.init", vec!["config", "env", "init"], "Create .env.local from .env.example", "", "config"));
        r.push(command("version.set", vec!["version", "set"], "Set the shared workspace version", "<version>", "version"));
        r.push(command("version.bump", vec!["version", "bump"], "Bump the shared workspace version", "--part <major|minor|patch>", "version"));
        r.push(command("defs.pack", vec!["defs", "pack"], "Write the bundled definitions package", "[--output <path>]", "defs"));
        r.push(command("defs.build-trid-xml", vec!["defs", "build-trid-xml"], "Build a definitions package from TrID XML", "[--input <path>] [--output <path>]", "defs"));
        r.push(command("defs.inspect", vec!["defs", "inspect"], "Inspect an encoded package", "[--input <path>]", "defs"));
        r.push(command("defs.inspect-trid-xml", vec!["defs", "inspect-trid-xml"], "Inspect a TrID XML source without writing output", "[--input <path>]", "defs"));
        r.push(command("defs.normalize", vec!["defs", "normalize"], "Normalize an existing package", "[--input <path>] [--output <path>]", "defs"));
        r.push(command("defs.verify", vec!["defs", "verify"], "Compare two packages", "--left <path> --right <path>", "defs"));
        r.push(command("defs.sync-embedded", vec!["defs", "sync-embedded"], "Refresh the embedded runtime package", "[--input <path>] [--output <path>] [--check]", "defs"));
        r.push(command("verify.release-config", vec!["verify", "release-config"], "Validate release configuration", "", "verify"));
        r.push(command("verify.ci", vec!["verify", "ci"], "Run local CI-equivalent checks", "", "verify"));
        r.push(command("verify.docs", vec!["verify", "docs"], "Build docs for core crates", "", "verify"));
        r.push(command("verify.package", vec!["verify", "package"], "Pack and verify the NuGet package", "[--configuration <name>] [--version <semver>]", "verify"));
        r.push(command("package.pack", vec!["package", "pack"], "Pack the NuGet package", "[--configuration <name>] [--version <semver>]", "package"));
        r.push(command("package.publish", vec!["package", "publish"], "Verify and optionally publish the NuGet package", "[--configuration <name>] [--version <semver>] [--source <url>] [--api-key-env <name>] [--dry-run|--execute]", "package"));
        r.push(command("release.publish", vec!["release", "publish"], "Release the NuGet package", "[--configuration <name>] [--version <semver>] [--source <url>] [--api-key-env <name>] [--dry-run|--execute]", "release"));
        r.push(command("release.run", vec!["release", "run"], "Run the Cargo-first release workflow", "[--configuration <name>] [--source <url>] [--api-key-env <name>] [--dry-run] [--skip-cargo] [--skip-nuget]", "release"));
        assert(r@.map_values(|c: RegisteredCommand| c@) =~~= command_table());
        r
    }
}


/// The registered form of a declared command: its fields as declared, with
/// the form `ui_table` gives for its id.
pub open spec fn declared_as(x: CommandSpec, d: RegisteredView) -> bool {
    &&& x.id@ == d.id
    &&& x.path@.map_values(|s: &'static str| s@) == d.path
    &&& x.summary@ == d.summary
    &&& x.args_summary@ == d.args_summary
    &&& x.section@ == d.section
    &&& ui_view(x.ui) == ui_table(d.id, d.summary)
}

/// A command that the capability declares.
pub open spec fn is_declared_command(x: CommandSpec) -> bool {
    exists|j: int| 0 <= j < command_table().len() && declared_as(x, #[trigger] command_table()[j])
}

/// The names of the declared sections.
pub open spec fn declared_section_names() -> Seq<Seq<char>> {
    section_table().map_values(|t: (Seq<char>, Seq<char>, Seq<char>)| t.0)
}

/// The ids of the declared commands.
pub open spec fn declared_command_ids() -> Seq<Seq<char>> {
    command_table().map_values(|d: RegisteredView| d.id)
}

/// What registering the capability makes of a registry: it stays well
/// formed; its section names and command ids are the old ones with the
/// declared ones added; every entry is an old one or a declared one.
pub open spec fn registered_from(before: CommandRegistry, after: CommandRegistry) -> bool {
    &&& after.wf()
    &&& forall|n: Seq<char>| #[trigger] keys_of(after.section_list()).contains(n) <==>
        (keys_of(before.section_list()).contains(n) || declared_section_names().contains(n))
    &&& forall|x: SectionSpec| #[trigger] after.section_list().contains(x) ==>
        before.section_list().contains(x) || section_table().contains(section_view(x))
    &&& forall|n: Seq<char>| #[trigger] keys_of(after.command_list()).contains(n) <==>
        (keys_of(before.command_list()).contains(n) || declared_command_ids().contains(n))
    &&& forall|x: CommandSpec| #[trigger] after.command_list().contains(x) ==>
        before.command_list().contains(x) || is_declared_command(x)
}

/// Registering the capability a second time adds no section name and no
/// command id.
pub proof fn lemma_register_twice_adds_nothing(first: CommandRegistry, second: CommandRegistry, third: CommandRegistry)
    requires
        registered_from(first, second),
        registered_from(second, third),
    ensures
        forall|n: Seq<char>| keys_of(third.section_list()).contains(n) <==> #[trigger] keys_of(second.section_list()).contains(n),
        forall|n: Seq<char>| keys_of(third.command_list()).contains(n) <==> #[trigger] keys_of(second.command_list()).contains(n),
{
    assert forall|n: Seq<char>| keys_of(third.section_list()).contains(n) <==> #[trigger] keys_of(second.section_list()).contains(n) by {
        if declared_section_names().contains(n) {
            assert(keys_of(second.section_list()).contains(n));
        }
    }
    assert forall|n: Seq<char>| keys_of(third.command_list()).contains(n) <==> #[trigger] keys_of(second.command_list()).contains(n) by {
        if declared_command_ids().contains(n) {
            assert(keys_of(second.command_list()).contains(n));
        }
    }
}

impl DharaStorageCapability {
    /// Adds the capability's sections and commands, each command with its
    /// form, to the registry.
    pub fn register(&self, registry: &mut CommandRegistry)
        requires
            old(registry).wf(),
        ensures
            registered_from(*old(registry), *final(registry)),
    {
        let ghost old_s = registry.section_list();
        let ghost old_c = registry.command_list();
        let sections = self.sections();
        let mut i: usize = 0;
        assert(declared_section_names().take(0) =~= Seq::<Seq<char>>::empty());
        while i < sections.len()
            invariant
                i <= sections@.len(),
                registry.wf(),
                registry.command_list() == old_c,
                sections@.map_values(|s: SectionSpec| section_view(s)) == section_table(),
                forall|n: Seq<char>| #[trigger] keys_of(registry.section_list()).contains(n) <==>
                    (keys_of(old_s).contains(n) || declared_section_names().take(i as int).contains(n)),
                forall|x: SectionSpec| #[trigger] registry.section_list().contains(x) ==>
                    old_s.contains(x) || section_table().contains(section_view(x)),
            decreases sections.len() - i,
        {
            let ghost before = registry.section_list();
            let sec = sections[i];
            assert(section_view(sections@[i as int]) == section_table()[i as int]);
            registry.add_section(sec);
            proof {
                let after = registry.section_list();
                assert(declared_section_names().take(i + 1) =~= declared_section_names().take(i as int).push(sec.name@));
                assert forall|n: Seq<char>| #[trigger] keys_of(after).contains(n) <==>
                    (keys_of(old_s).contains(n) || declared_section_names().take(i + 1).contains(n)) by {
                    if keys_of(after).contains(n) {
                        let j = choose|j: int| 0 <= j < keys_of(after).len() && keys_of(after)[j] == n;
                        assert(after.contains(after[j]));
                        if after[j] != sec {
                            assert(before.contains(after[j]));
                            let q = choose|q: int| 0 <= q < before.len() && before[q] == after[j];
                            assert(keys_of(before)[q] == n);
                            assert(keys_of(before).contains(n));
                            if declared_section_names().take(i as int).contains(n) {
                                let w = choose|w: int| 0 <= w < declared_section_names().take(i as int).len() && #[trigger] declared_section_names().take(i as int)[w] == n;
                                assert(declared_section_names().take(i + 1)[w] == n);
                            }
                        } else {
                            assert(declared_section_names().take(i + 1)[i as int] == n);
                        }
                    }
                    if keys_of(old_s).contains(n) || declared_section_names().take(i + 1).contains(n) {
                        if n == sec.name@ {
                            let j = choose|j: int| 0 <= j < after.len() && after[j] == sec;
                            assert(keys_of(after)[j] == n);
                        } else {
                            if declared_section_names().take(i + 1).contains(n) {
                                let w = choose|w: int| 0 <= w < declared_section_names().take(i + 1).len() && #[trigger] declared_section_names().take(i + 1)[w] == n;
                                assert(w != i);
                                assert(declared_section_names().take(i as int)[w] == n);
                                assert(declared_section_names().take(i as int).contains(n));
                            }
                            assert(keys_of(before).contains(n));
                            let q = choose|q: int| 0 <= q < keys_of(before).len() && keys_of(before)[q] == n;
                            assert(before.contains(before[q]));
                            assert(after.contains(before[q]));
                            let j = choose|j: int| 0 <= j < after.len() && after[j] == before[q];
                            assert(keys_of(after)[j] == n);
                        }
                    }
                }
                assert forall|x: SectionSpec| #[trigger] after.contains(x) implies
                    old_s.contains(x) || section_table().contains(section_view(x)) by {
                    if x == sec {
                        assert(section_table()[i as int] == section_view(x));
                    } else {
                        assert(before.contains(x));
                    }
                }
            }
            i = i + 1;
        }
        assert(declared_section_names().take(sections@.len() as int) =~= declared_section_names());
        let commands = self.commands();
        let mut k: usize = 0;
        assert(declared_command_ids().take(0) =~= Seq::<Seq<char>>::empty());
        while k < commands.len()
            invariant
                k <= commands@.len(),
                registry.wf(),
                commands@.map_values(|c: RegisteredCommand| c@) == command_table(),
                forall|n: Seq<char>| #[trigger] keys_of(registry.section_list()).contains(n) <==>
                    (keys_of(old_s).contains(n) || declared_section_names().contains(n)),
                forall|x: SectionSpec| #[trigger] registry.section_list().contains(x) ==>
                    old_s.contains(x) || section_table().contains(section_view(x)),
                forall|n: Seq<char>| #[trigger] keys_of(registry.command_list()).contains(n) <==>
                    (keys_of(old_c).contains(n) || declared_command_ids().take(k as int).contains(n)),
                forall|x: CommandSpec| #[trigger] registry.command_list().contains(x) ==>
                    old_c.contains(x) || is_declared_command(x),
            decreases commands.len() - k,
        {
            let ghost before = registry.command_list();
            let c = &commands[k];
            assert(c@ == command_table()[k as int]);
            let spec = CommandSpec {
                id: c.id,
                path: c.path.clone(),
                summary: c.summary,
                args_summary: c.args_summary,
                section: c.section,
                ui: ui_for_command(c.id, c.summary, c.args_summary),
            };
            assert(declared_as(spec, command_table()[k as int]));
            registry.add_command(spec);
            proof {
                let after = registry.command_list();
                assert(declared_command_ids().take(k + 1) =~= declared_command_ids().take(k as int).push(spec.id@));
                assert forall|n: Seq<char>| #[trigger] keys_of(after).contains(n) <==>
                    (keys_of(old_c).contains(n) || declared_command_ids().take(k + 1).contains(n)) by {
                    if keys_of(after).contains(n) {
                        let j = choose|j: int| 0 <= j < keys_of(after).len() && keys_of(after)[j] == n;
                        assert(after.contains(after[j]));
                        if after[j] != spec {
                            assert(before.contains(after[j]));
                            let q = choose|q: int| 0 <= q < before.len() && before[q] == after[j];
                            assert(keys_of(before)[q] == n);
                            assert(keys_of(before).contains(n));
                            if declared_command_ids().take(k as int).contains(n) {
                                let w = choose|w: int| 0 <= w < declared_command_ids().take(k as int).len() && #[trigger] declared_command_ids().take(k as int)[w] == n;
                                assert(declared_command_ids().take(k + 1)[w] == n);
                            }
                        } else {
                            assert(declared_command_ids().take(k + 1)[k as int] == n);
                        }
                    }
                    if keys_of(old_c).contains(n) || declared_command_ids().take(k + 1).contains(n) {
                        if n == spec.id@ {
                            let j = choose|j: int| 0 <= j < after.len() && after[j] == spec;
                            assert(keys_of(after)[j] == n);
                        } else {
                            if declared_command_ids().take(k + 1).contains(n) {
                                let w = choose|w: int| 0 <= w < declared_command_ids().take(k + 1).len() && #[trigger] declared_command_ids().take(k + 1)[w] == n;
                                assert(w != k);
                                assert(declared_command_ids().take(k as int)[w] == n);
                                assert(declared_command_ids().take(k as int).contains(n));
                            }
                            assert(keys_of(before).contains(n));
                            let q = choose|q: int| 0 <= q < keys_of(before).len() && keys_of(before)[q] == n;
                            assert(before.contains(before[q]));
                            assert(after.contains(before[q]));
                            let j = choose|j: int| 0 <= j < after.len() && after[j] == before[q];
                            assert(keys_of(after)[j] == n);
                        }
                    }
                }
                assert forall|x: CommandSpec| #[trigger] after.contains(x) implies
                    old_c.contains(x) || is_declared_command(x) by {
                    if x == spec {
                        assert(declared_as(x, command_table()[k as int]));
                    } else {
                        assert(before.contains(x));
                    }
                }
            }
            k = k + 1;
        }
        assert(declared_command_ids().take(commands@.len() as int) =~= declared_command_ids());
    }
}

} // verus!

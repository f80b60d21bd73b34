//! The command model of the tool: sections, commands with their form
//! descriptions, the run context, and the registry that keeps sections and
//! commands ordered by name.

use vstd::prelude::*;
use crate::text::{chars_of, string_from, push_str, chars_eq, views};
use crate::runner::CommandReport;
use crate::strmap::{seq_lt, chars_lt, lemma_seq_lt_irreflexive, lemma_seq_lt_transitive, lemma_seq_lt_total};

verus! {

/// How the tool was launched.
#[derive(Debug, Clone, Copy, PartialEq, Eq, Structural)]
pub enum RunMode {
    /// The guided terminal interface.
    Interactive,
    /// A command given on the command line.
    Direct,
}

/// Everything a command handler needs to know about the run.
#[derive(Debug, Clone)]
pub struct ToolContext {
    pub repo_root: String,
    pub tool_root: String,
    pub run_mode: RunMode,
    pub min: bool,
    pub trace: bool,
    pub workers: usize,
    pub package_dir: Option<String>,
    pub output_dir: Option<String>,
    pub logs_dir: Option<String>,
}

/// The outcome of a command: its exit code, and the message or report it
/// shows.
#[derive(Debug, Clone)]
pub struct CommandResult {
    pub exit_code: i32,
    pub message: Option<String>,
    pub report: Option<CommandReport>,
}

impl CommandResult {
    /// Success with nothing to print.
    pub fn success() -> (r: CommandResult)
        ensures
            r.exit_code == 0,
            r.message is None,
            r.report is None,
    {
        CommandResult { exit_code: 0, message: None, report: None }
    }

    /// Success with a message to print.
    pub fn with_message(message: String) -> (r: CommandResult)
        ensures
            r.exit_code == 0,
            r.message == Some(message),
            r.report is None,
    {
        CommandResult { exit_code: 0, message: Some(message), report: None }
    }

    /// The outcome an action's report stands for, with the report's exit code.
    pub fn with_report(report: CommandReport) -> (r: CommandResult)
        ensures
            r.exit_code == report.exit_code,
            r.message is None,
            r.report == Some(report),
    {
        CommandResult { exit_code: report.exit_code, message: None, report: Some(report) }
    }
}

/// How a form field is passed to the command.
#[derive(Debug, Clone, Copy)]
pub enum ArgBinding {
    /// As a positional argument.
    Positional,
    /// As `flag value`.
    FlagValue(&'static str),
    /// As a bare flag when set.
    Switch(&'static str),
}

/// The kind of value a form field takes.
#[derive(Debug, Clone)]
pub enum FieldKind {
    Text,
    Path,
    Boolean,
    /// One of the listed options.
    Select(Vec<&'static str>),
}

/// One field of a command's form.
#[derive(Debug, Clone)]
pub struct FieldSpec {
    pub key: &'static str,
    pub label: &'static str,
    pub help: &'static str,
    pub kind: FieldKind,
    pub binding: ArgBinding,
    pub required: bool,
    pub default_value: Option<&'static str>,
}

/// How a command is shown and filled in by the interactive interfaces.
#[derive(Debug, Clone)]
pub struct CommandUi {
    pub description: &'static str,
    pub fields: Vec<FieldSpec>,
    pub quick_run: bool,
    pub supports_cancel: bool,
}

/// A group of commands.
#[derive(Debug, Clone, Copy)]
pub struct SectionSpec {
    pub name: &'static str,
    pub prompt: &'static str,
    pub summary: &'static str,
}

/// A command: its id, the words that invoke it, its texts and its form.
#[derive(Debug, Clone)]
pub struct CommandSpec {
    pub id: &'static str,
    pub path: Vec<&'static str>,
    pub summary: &'static str,
    pub args_summary: &'static str,
    pub section: &'static str,
    pub ui: CommandUi,
}

/// The view of a field kind.
#[verifier::ext_equal]
pub ghost enum KindView {
    Text,
    Path,
    Boolean,
    Select(Seq<Seq<char>>),
}

/// The view of an argument binding.
#[verifier::ext_equal]
pub ghost enum BindingView {
    Positional,
    FlagValue(Seq<char>),
    Switch(Seq<char>),
}

/// The view of a form field.
#[verifier::ext_equal]
pub ghost struct FieldView {
    pub key: Seq<char>,
    pub label: Seq<char>,
    pub help: Seq<char>,
    pub kind: KindView,
    pub binding: BindingView,
    pub required: bool,
    pub default_value: Option<Seq<char>>,
}

/// The view of a command form.
#[verifier::ext_equal]
pub ghost struct UiView {
    pub description: Seq<char>,
    pub fields: Seq<FieldView>,
    pub quick_run: bool,
    pub supports_cancel: bool,
}

pub open spec fn kind_view(k: FieldKind) -> KindView {
    match k {
        FieldKind::Text => KindView::Text,
        FieldKind::Path => KindView::Path,
        FieldKind::Boolean => KindView::Boolean,
        FieldKind::Select(options) => KindView::Select(options@.map_values(|o: &'static str| o@)),
    }
}

pub open spec fn binding_view(b: ArgBinding) -> BindingView {
    match b {
        ArgBinding::Positional => BindingView::Positional,
        ArgBinding::FlagValue(f) => BindingView::FlagValue(f@),
        ArgBinding::Switch(f) => BindingView::Switch(f@),
    }
}

pub open spec fn field_view(f: FieldSpec) -> FieldView {
    FieldView {
        key: f.key@,
        label: f.label@,
        help: f.help@,
        kind: kind_view(f.kind),
        binding: binding_view(f.binding),
        required: f.required,
        default_value: match f.default_value {
            Some(d) => Some(d@),
            None => None,
        },
    }
}

pub open spec fn ui_view(u: CommandUi) -> UiView {
    UiView {
        description: u.description@,
        fields: u.fields@.map_values(|f: FieldSpec| field_view(f)),
        quick_run: u.quick_run,
        supports_cancel: u.supports_cancel,
    }
}

/// Something stored under a text key.
pub trait Keyed {
    spec fn key(&self) -> Seq<char>;

    fn key_chars(&self) -> (r: Vec<char>)
        ensures
            r@ == self.key();
}

impl Keyed for SectionSpec {
    open spec fn key(&self) -> Seq<char> {
        self.name@
    }

    fn key_chars(&self) -> (r: Vec<char>) {
        chars_of(self.name)
    }
}

impl Keyed for CommandSpec {
    open spec fn key(&self) -> Seq<char> {
        self.id@
    }

    fn key_chars(&self) -> (r: Vec<char>) {
        chars_of(self.id)
    }
}

/// The keys of a list, in order.
pub open spec fn keys_of<T: Keyed>(v: Seq<T>) -> Seq<Seq<char>> {
    v.map_values(|x: T| x.key())
}

/// Keys strictly ascending.
pub open spec fn ascending(k: Seq<Seq<char>>) -> bool {
    forall|i: int, j: int| 0 <= i < j < k.len() ==> seq_lt(#[trigger] k[i], #[trigger] k[j])
}

/// Puts `item` into a list kept in ascending key order, replacing the entry
/// with the same key if there is one.
pub fn upsert_sorted<T: Keyed>(v: &mut Vec<T>, item: T)
    requires
        ascending(keys_of(old(v)@)),
    ensures
        ascending(keys_of(final(v)@)),
        final(v)@.contains(item),
        forall|x: T| #[trigger] final(v)@.contains(x) <==> (x == item || (old(v)@.contains(x) && x.key() != item.key())),
{
    let k = item.key_chars();
    let ghost old_v = v@;
    let ghost ok = keys_of(old_v);
    let mut i: usize = 0;
    while i < v.len()
        invariant
            i <= v@.len(),
            v@ == old_v,
            ok == keys_of(old_v),
            ascending(ok),
            k@ == item.key(),
            forall|j: int| 0 <= j < i ==> seq_lt(#[trigger] ok[j], item.key()),
        ensures
            i <= v@.len(),
            v@ == old_v,
            forall|j: int| 0 <= j < i ==> seq_lt(#[trigger] ok[j], item.key()),
            i < v@.len() ==> !seq_lt(ok[i as int], item.key()),
        decreases v.len() - i,
    {
        let ek = v[i].key_chars();
        assert(ok[i as int] == v@[i as int].key());
        if !chars_lt(ek.as_slice(), k.as_slice()) {
            break;
        }
        i = i + 1;
    }
    let n = v.len();
    let mut same = false;
    if i < n {
        let ek = v[i].key_chars();
        same = chars_eq(ek.as_slice(), k.as_slice());
    }
    if same {
        v.set(i, item);
        proof {
            let e = v@;
            assert(ok[i as int] == item.key());
            assert(keys_of(e) =~= ok);
            assert(e[i as int] == item);
            assert forall|x: T| #[trigger] e.contains(x) <==> (x == item || (old_v.contains(x) && x.key() != item.key())) by {
                if e.contains(x) {
                    let j = choose|j: int| 0 <= j < e.len() && e[j] == x;
                    if j != i {
                        assert(old_v[j] == x);
                        assert(ok[j] == x.key());
                        if j < i {
                            assert(seq_lt(ok[j], ok[i as int]));
                        } else {
                            assert(seq_lt(ok[i as int], ok[j]));
                        }
                        lemma_seq_lt_irreflexive(x.key());
                    }
                }
                if x == item {
                    assert(e[i as int] == x);
                }
                if old_v.contains(x) && x.key() != item.key() {
                    let j = choose|j: int| 0 <= j < old_v.len() && old_v[j] == x;
                    assert(ok[j] == x.key());
                    assert(j != i);
                    assert(e[j] == x);
                }
            }
        }
        return;
    }
    proof {
        if i < n {
            lemma_seq_lt_total(ok[i as int], item.key());
            assert(seq_lt(item.key(), ok[i as int]));
        }
    }
    v.insert(i, item);
    proof {
        let e = v@;
        assert(e =~= old_v.subrange(0, i as int).push(item) + old_v.subrange(i as int, n as int));
        let ek = keys_of(e);
        assert forall|a: int, b: int| 0 <= a < b < ek.len() implies seq_lt(#[trigger] ek[a], #[trigger] ek[b]) by {
            if b < i {
                assert(ek[a] == ok[a]);
                assert(ek[b] == ok[b]);
            } else if b == i {
                assert(ek[a] == ok[a]);
                assert(ek[b] == item.key());
            } else if a < i {
                assert(ek[a] == ok[a]);
                assert(ek[b] == ok[b - 1]);
                if b - 1 > i {
                    lemma_seq_lt_transitive(item.key(), ok[i as int], ok[b - 1]);
                }
                lemma_seq_lt_transitive(ok[a], item.key(), ok[b - 1]);
            } else if a == i {
                assert(ek[a] == item.key());
                assert(ek[b] == ok[b - 1]);
                if b - 1 > i {
                    lemma_seq_lt_transitive(item.key(), ok[i as int], ok[b - 1]);
                }
            } else {
                assert(ek[a] == ok[a - 1]);
                assert(ek[b] == ok[b - 1]);
            }
        }
        assert(e[i as int] == item);
        assert forall|x: T| #[trigger] e.contains(x) <==> (x == item || (old_v.contains(x) && x.key() != item.key())) by {
            if e.contains(x) {
                let j = choose|j: int| 0 <= j < e.len() && e[j] == x;
                if j < i {
                    assert(old_v[j] == x);
                    assert(ok[j] == x.key());
                    assert(seq_lt(ok[j], item.key()));
                    if x.key() == item.key() {
                        lemma_seq_lt_irreflexive(x.key());
                    }
                } else if j > i {
                    assert(old_v[j - 1] == x);
                    assert(ok[j - 1] == x.key());
                    assert(seq_lt(item.key(), ok[i as int]));
                    if j - 1 > i {
                        lemma_seq_lt_transitive(item.key(), ok[i as int], ok[j - 1]);
                    }
                    if x.key() == item.key() {
                        lemma_seq_lt_irreflexive(x.key());
                    }
                }
            }
            if x == item {
                assert(e[i as int] == x);
            }
            if old_v.contains(x) && x.key() != item.key() {
                let j = choose|j: int| 0 <= j < old_v.len() && old_v[j] == x;
                if j < i {
                    assert(e[j] == x);
                } else {
                    assert(e[j + 1] == x);
                }
            }
        }
    }
}

/// The registry of sections and commands, each kept in ascending order of
/// name and id with no name or id twice.
pub struct CommandRegistry {
    sections: Vec<SectionSpec>,
    commands: Vec<CommandSpec>,
}

impl CommandRegistry {
    /// Sections ascending by name, commands ascending by id.
    pub closed spec fn wf(&self) -> bool {
        ascending(keys_of(self.sections@)) && ascending(keys_of(self.commands@))
    }

    /// The sections, ascending by name.
    pub closed spec fn section_list(&self) -> Seq<SectionSpec> {
        self.sections@
    }

    /// The commands, ascending by id.
    pub closed spec fn command_list(&self) -> Seq<CommandSpec> {
        self.commands@
    }

    /// A well-formed registry lists its sections and commands in strictly
    /// ascending order of name and id.
    pub proof fn lemma_ordered(&self)
        requires
            self.wf(),
        ensures
            ascending(keys_of(self.section_list())),
            ascending(keys_of(self.command_list())),
    {
    }

    /// An empty registry.
    pub fn new() -> (r: CommandRegistry)
        ensures
            r.wf(),
            r.section_list().len() == 0,
            r.command_list().len() == 0,
    {
        CommandRegistry { sections: Vec::new(), commands: Vec::new() }
    }

    /// Adds a section, replacing the one with the same name.
    pub fn add_section(&mut self, section: SectionSpec)
        requires
            old(self).wf(),
        ensures
            final(self).wf(),
            final(self).command_list() == old(self).command_list(),
            final(self).section_list().contains(section),
            forall|x: SectionSpec| #[trigger] final(self).section_list().contains(x) <==> (x == section
                || (old(self).section_list().contains(x) && x.name@ != section.name@)),
    {
        upsert_sorted(&mut self.sections, section);
    }

    /// Adds a command, replacing the one with the same id.
    pub fn add_command(&mut self, command: CommandSpec)
        requires
            old(self).wf(),
        ensures
            final(self).wf(),
            final(self).section_list() == old(self).section_list(),
            final(self).command_list().contains(command),
            forall|x: CommandSpec| #[trigger] final(self).command_list().contains(x) <==> (x == command
                || (old(self).command_list().contains(x) && x.id@ != command.id@)),
    {
        upsert_sorted(&mut self.commands, command);
    }

    /// The sections, ascending by name.
    pub fn sections(&self) -> (r: &Vec<SectionSpec>)
        ensures
            r@ == self.section_list(),
    {
        &self.sections
    }

    /// The commands, ascending by id.
    pub fn commands(&self) -> (r: &Vec<CommandSpec>)
        ensures
            r@ == self.command_list(),
    {
        &self.commands
    }

    /// The command the words of a command line name: the one whose words
    /// begin the line, the longest such (the first listed among equals),
    /// with the number of words it takes; the rest are its arguments.
    pub fn resolve(&self, tokens: &Vec<String>) -> (r: Option<(usize, usize)>)
        ensures
            match r {
                Some((i, k)) => {
                    &&& i < self.command_list().len()
                    &&& k == self.command_list()[i as int].path@.len()
                    &&& invokes(self.command_list()[i as int].path@, views(tokens@))
                    &&& forall|j: int| 0 <= j < self.command_list().len()
                        && invokes(#[trigger] self.command_list()[j].path@, views(tokens@))
                        ==> self.command_list()[j].path@.len() <= k
                },
                None => forall|j: int| 0 <= j < self.command_list().len()
                    ==> !invokes(#[trigger] self.command_list()[j].path@, views(tokens@)),
            },
    {
        let mut best: Option<(usize, usize)> = None;
        let mut i: usize = 0;
        while i < self.commands.len()
            invariant
                i <= self.commands@.len(),
                match best {
                    Some((b, k)) => {
                        &&& b < i
                        &&& k == self.commands@[b as int].path@.len()
                        &&& invokes(self.commands@[b as int].path@, views(tokens@))
                        &&& forall|j: int| 0 <= j < i && invokes(#[trigger] self.commands@[j].path@, views(tokens@))
                            ==> self.commands@[j].path@.len() <= k
                    },
                    None => forall|j: int| 0 <= j < i ==> !invokes(#[trigger] self.commands@[j].path@, views(tokens@)),
                },
            decreases self.commands@.len() - i,
        {
            let path = &self.commands[i].path;
            if path_invoked(path, tokens) {
                match best {
                    Some((_, k)) => {
                        if path.len() > k {
                            best = Some((i, path.len()));
                        }
                    },
                    None => {
                        best = Some((i, path.len()));
                    },
                }
            }
            i = i + 1;
        }
        best
    }
}

/// The command words `path` begin the command line `tokens`.
pub open spec fn invokes(path: Seq<&'static str>, tokens: Seq<Seq<char>>) -> bool {
    &&& 0 < path.len() <= tokens.len()
    &&& forall|j: int| 0 <= j < path.len() ==> (#[trigger] path[j])@ == tokens[j]
}

fn path_invoked(path: &Vec<&'static str>, tokens: &Vec<String>) -> (r: bool)
    ensures
        r == invokes(path@, views(tokens@)),
{
    if path.len() == 0 || path.len() > tokens.len() {
        return false;
    }
    let mut j: usize = 0;
    while j < path.len()
        invariant
            j <= path@.len(),
            path@.len() <= tokens@.len(),
            forall|m: int| 0 <= m < j ==> (#[trigger] path@[m])@ == views(tokens@)[m],
        decreases path@.len() - j,
    {
        let a = chars_of(path[j]);
        let b = chars_of(tokens[j].as_str());
        if !chars_eq(a.as_slice(), b.as_slice()) {
            return false;
        }
        j = j + 1;
    }
    true
}

} // verus!

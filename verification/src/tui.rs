//! The terminal interface's decisions: which panel is under the pointer,
//! which tab an index opens, how the form cursor cycles, the key hints of the
//! footer, the status line, and how a tree line is clipped to its columns.

use vstd::prelude::*;
use crate::text::{chars_of, string_from, copy_str, push_str, ends_with, trim, trim_chars};

verus! {

/// A rectangle of terminal cells.
#[derive(Debug, Clone, Copy)]
pub struct Rect {
    pub x: u16,
    pub y: u16,
    pub width: u16,
    pub height: u16,
}

impl Rect {
    /// The rectangle ends inside the terminal's coordinate range.
    pub open spec fn wf(&self) -> bool {
        self.x + self.width <= u16::MAX && self.y + self.height <= u16::MAX
    }
}

/// The cell `(col, row)` lies in a non-empty rectangle.
pub open spec fn inside(rect: Rect, col: u16, row: u16) -> bool {
    rect.width > 0 && rect.height > 0 && col >= rect.x && col < rect.x + rect.width
        && row >= rect.y && row < rect.y + rect.height
}

/// Whether the cell `(col, row)` lies in the rectangle.
pub fn point_in_rect(rect: Rect, col: u16, row: u16) -> (r: bool)
    requires
        rect.wf(),
    ensures
        r == inside(rect, col, row),
{
    rect.width > 0 && rect.height > 0 && col >= rect.x && col < rect.x + rect.width && row >= rect.y
        && row < rect.y + rect.height
}

/// The panels of the shell that can hold focus.
#[derive(Debug, Clone, Copy, PartialEq, Eq, Hash, Structural)]
pub enum TuiFocus {
    TaskTree,
    MainTabs,
    TabContent,
    ActionRun,
    ActionCancel,
    ActionReset,
}

/// The panel the pointer focuses: the action panel, then the centre, then the
/// task tree, whichever holds the cell first; none when it is in none.
pub fn focus_panel_at_pointer(task_tree: Rect, center: Rect, action: Rect, col: u16, row: u16) -> (r: Option<TuiFocus>)
    requires
        task_tree.wf(),
        center.wf(),
        action.wf(),
    ensures
        inside(action, col, row) ==> r == Some(TuiFocus::ActionRun),
        !inside(action, col, row) && inside(center, col, row) ==> r == Some(TuiFocus::TabContent),
        !inside(action, col, row) && !inside(center, col, row) && inside(task_tree, col, row) ==> r == Some(TuiFocus::TaskTree),
        !inside(action, col, row) && !inside(center, col, row) && !inside(task_tree, col, row) ==> r is None,
{
    if point_in_rect(action, col, row) {
        Some(TuiFocus::ActionRun)
    } else if point_in_rect(center, col, row) {
        Some(TuiFocus::TabContent)
    } else if point_in_rect(task_tree, col, row) {
        Some(TuiFocus::TaskTree)
    } else {
        None
    }
}

/// The tabs of the main view.
#[derive(Debug, Clone, Copy, PartialEq, Eq, Structural)]
pub enum MainTab {
    Info,
    Options,
    Troubleshooting,
    SystemConfigs,
}

/// The tab at an index; out-of-range indexes open the info tab.
pub fn tab_from_index(index: usize) -> (r: MainTab)
    ensures
        index == 1 ==> r == MainTab::Options,
        index == 2 ==> r == MainTab::Troubleshooting,
        index == 3 ==> r == MainTab::SystemConfigs,
        index != 1 && index != 2 && index != 3 ==> r == MainTab::Info,
{
    if index == 1 {
        MainTab::Options
    } else if index == 2 {
        MainTab::Troubleshooting
    } else if index == 3 {
        MainTab::SystemConfigs
    } else {
        MainTab::Info
    }
}

/// Moves the form cursor by `delta` fields, wrapping around; a form without
/// fields keeps its cursor.
pub fn cycle_form_field(field_count: usize, form_field: &mut usize, delta: isize)
    requires
        field_count <= isize::MAX,
        *old(form_field) <= isize::MAX,
        isize::MIN <= *old(form_field) + delta <= isize::MAX,
    ensures
        field_count == 0 ==> *final(form_field) == *old(form_field),
        field_count > 0 ==> *final(form_field) as int == (*old(form_field) as int + delta as int) % (field_count as int),
{
    if field_count == 0 {
        return;
    }
    let sum: isize = *form_field as isize + delta;
    let next: usize;
    if sum >= 0 {
        next = (sum as usize) % field_count;
    } else {
        let neg: usize = (-(sum + 1)) as usize;
        let rem: usize = neg % field_count;
        next = field_count - 1 - rem;
        assert(next as int == (sum as int) % (field_count as int)) by (nonlinear_arith)
            requires
                field_count > 0,
                neg as int == -(sum as int) - 1,
                rem as int == (neg as int) % (field_count as int),
                next as int == field_count as int - 1 - rem as int,
        {
            let c = field_count as int;
            let q = (neg as int) / c;
            assert(neg as int == q * c + rem as int);
            assert(sum as int == (-(q + 1)) * c + next as int);
            assert(0 <= next as int && (next as int) < c);
        }
    }
    *form_field = next;
}

/// Keeps a horizontal scroll offset within its maximum.
pub fn clamp_horizontal_scroll(h_scroll: &mut u16, max: u16)
    ensures
        *final(h_scroll) == if *old(h_scroll) > max { max } else { *old(h_scroll) },
{
    if *h_scroll > max {
        *h_scroll = max;
    }
}

/// What the footer's key hints depend on.
#[derive(Debug, Clone, Copy)]
pub struct FooterInputs {
    /// The repository setup prompt is open.
    pub repo_setup: bool,
    /// The activation prompt is open.
    pub activation_prompt: bool,
    /// A command is running.
    pub running: bool,
    /// The running command can be cancelled.
    pub cancelable: bool,
    /// The focused panel.
    pub focus: Option<TuiFocus>,
    /// The open tab.
    pub main_tab: MainTab,
    /// A form field is being edited.
    pub editing_form: bool,
}

/// A key and what it does.
pub type Hint = (&'static str, &'static str);

pub open spec fn hint_views(h: Seq<Hint>) -> Seq<(Seq<char>, Seq<char>)> {
    h.map_values(|p: Hint| (p.0@, p.1@))
}

/// The hints of the focused panel.
pub open spec fn panel_hints(c: FooterInputs) -> Seq<(Seq<char>, Seq<char>)> {
    match c.focus {
        Some(TuiFocus::TaskTree) => seq![("\u{2191}\u{2193}"@, "navigate"@), ("Enter"@, "select/expand"@), ("Click"@, "select"@)],
        Some(TuiFocus::MainTabs) => seq![("\u{2190}\u{2192}"@, "switch tab"@), ("Click"@, "tab"@)],
        Some(TuiFocus::TabContent) => match c.main_tab {
            MainTab::Options => if c.editing_form {
                seq![("Type"@, "edit"@), ("\u{2190}\u{2192}"@, "cycle select"@), ("Enter"@, "done"@), ("Esc"@, "cancel edit"@)]
            } else {
                seq![("\u{2191}\u{2193}"@, "field"@), ("Enter"@, "edit"@)]
            },
            MainTab::Troubleshooting | MainTab::SystemConfigs =>
                seq![("\u{2191}\u{2193}"@, "scroll"@), ("PgUp/Dn"@, "page"@), ("Wheel"@, "scroll"@)],
            MainTab::Info => seq![("\u{2191}\u{2193}"@, "scroll"@)],
        },
        Some(TuiFocus::ActionRun) | Some(TuiFocus::ActionCancel) | Some(TuiFocus::ActionReset) => {
            let base = seq![("Enter"@, "activate"@), ("Click"@, "button"@)];
            let with_run = if !c.running { base.push(("r"@, "run"@)) } else { base };
            if c.running && c.cancelable { with_run.push(("c"@, "cancel"@)) } else { with_run }
        },
        None => Seq::empty(),
    }
}

/// The key hints of the footer: the setup and activation prompts have their
/// own; otherwise the focused panel's hints, then the focus and quit (or
/// cancel) keys.
pub open spec fn footer_hint_list(c: FooterInputs) -> Seq<(Seq<char>, Seq<char>)> {
    if c.repo_setup {
        seq![("Type"@, "path"@), ("Enter"@, "confirm"@), ("Esc"@, "quit"@)]
    } else if c.activation_prompt {
        seq![("Tab"@, "buttons"@), ("Enter/Y"@, "apply"@), ("Esc/N"@, "decline"@), ("Click"@, "button"@)]
    } else {
        let p = panel_hints(c);
        if p.len() == 0 {
            seq![("Tab"@, "focus"@), ("q"@, "quit"@)]
        } else {
            let q = p.push(("Tab"@, "next panel"@));
            if !c.running {
                q.push(("q"@, "quit"@))
            } else if c.cancelable {
                q.push(("c"@, "cancel"@))
            } else {
                q
            }
        }
    }
}

/// The key hints the footer shows.
pub fn footer_hints(c: &FooterInputs) -> (r: Vec<Hint>)
    ensures
        hint_views(r@) == footer_hint_list(*c),
{
    let mut hints: Vec<Hint> = Vec::new();
    if c.repo_setup {
        hints.push(("Type", "path"));
        hints.push(("Enter", "confirm"));
        hints.push(("Esc", "quit"));
        assert(hint_views(hints@) =~= footer_hint_list(*c));
        return hints;
    }
    if c.activation_prompt {
        hints.push(("Tab", "buttons"));
        hints.push(("Enter/Y", "apply"));
        hints.push(("Esc/N", "decline"));
        hints.push(("Click", "button"));
        assert(hint_views(hints@) =~= footer_hint_list(*c));
        return hints;
    }
    match c.focus {
        Some(TuiFocus::TaskTree) => {
            hints.push(("\u{2191}\u{2193}", "navigate"));
            hints.push(("Enter", "select/expand"));
            hints.push(("Click", "select"));
        },
        Some(TuiFocus::MainTabs) => {
            hints.push(("\u{2190}\u{2192}", "switch tab"));
            hints.push(("Click", "tab"));
        },
        Some(TuiFocus::TabContent) => match c.main_tab {
            MainTab::Options => {
                if c.editing_form {
                    hints.push(("Type", "edit"));
                    hints.push(("\u{2190}\u{2192}", "cycle select"));
                    hints.push(("Enter", "done"));
                    hints.push(("Esc", "cancel edit"));
                } else {
                    hints.push(("\u{2191}\u{2193}", "field"));
                    hints.push(("Enter", "edit"));
                }
            },
            MainTab::Troubleshooting | MainTab::SystemConfigs => {
                hints.push(("\u{2191}\u{2193}", "scroll"));
                hints.push(("PgUp/Dn", "page"));
                hints.push(("Wheel", "scroll"));
            },
            MainTab::Info => {
                hints.push(("\u{2191}\u{2193}", "scroll"));
            },
        },
        Some(TuiFocus::ActionRun) | Some(TuiFocus::ActionCancel) | Some(TuiFocus::ActionReset) => {
            hints.push(("Enter", "activate"));
            hints.push(("Click", "button"));
            if !c.running {
                hints.push(("r", "run"));
            }
            if c.running && c.cancelable {
                hints.push(("c", "cancel"));
            }
        },
        None => {},
    }
    assert(hint_views(hints@) =~= panel_hints(*c));
    if hints.len() == 0 {
        hints.push(("Tab", "focus"));
        hints.push(("q", "quit"));
    } else {
        hints.push(("Tab", "next panel"));
        if !c.running {
            hints.push(("q", "quit"));
        } else if c.cancelable {
            hints.push(("c", "cancel"));
        }
    }
    assert(hint_views(hints@) =~= footer_hint_list(*c));
    hints
}

/// The tone of the status text.
#[derive(Debug, Clone, Copy, PartialEq, Eq, Structural)]
pub enum StatusTone {
    Ready,
    Running,
    Success,
    Failed,
    Warning,
}

/// The colour class a status is shown in.
#[derive(Debug, Clone, Copy, PartialEq, Eq, Structural)]
pub enum ValidationTone {
    Muted,
    Success,
    Error,
}

/// Success shows as success, failure as an error, everything else muted.
pub fn status_tone(tone: StatusTone) -> (r: ValidationTone)
    ensures
        tone == StatusTone::Success ==> r == ValidationTone::Success,
        tone == StatusTone::Failed ==> r == ValidationTone::Error,
        tone != StatusTone::Success && tone != StatusTone::Failed ==> r == ValidationTone::Muted,
{
    match tone {
        StatusTone::Ready => ValidationTone::Muted,
        StatusTone::Running => ValidationTone::Muted,
        StatusTone::Success => ValidationTone::Success,
        StatusTone::Failed => ValidationTone::Error,
        StatusTone::Warning => ValidationTone::Muted,
    }
}

/// The progress of a running command as the status line reads it.
#[derive(Debug, Clone)]
pub struct ProgressSnapshot {
    pub analyzing: bool,
    pub analyzing_message: String,
    pub step_label: String,
    pub activity_label: String,
    pub elapsed_secs: Option<u64>,
}

/// `s` with every trailing `…` removed.
pub open spec fn strip_ellipses(s: Seq<char>) -> Seq<char>
    decreases s.len(),
{
    if s.len() > 0 && s.last() == '\u{2026}' {
        strip_ellipses(s.drop_last())
    } else {
        s
    }
}

/// The text of the status line: the analysis message while analyzing, else
/// the step with its elapsed seconds, else the activity, else the status
/// message.
pub open spec fn status_line(p: Option<ProgressSnapshot>, status_message: Seq<char>) -> Seq<char> {
    match p {
        Some(s) => if s.analyzing && s.analyzing_message@.len() > 0 {
            s.analyzing_message@
        } else if s.step_label@.len() > 0 {
            match s.elapsed_secs {
                Some(t) => strip_ellipses(s.step_label@) + "\u{2026} ("@ + crate::text::decimal(t as nat) + "s)"@,
                None => s.step_label@,
            }
        } else if s.activity_label@.len() > 0 {
            match s.elapsed_secs {
                Some(t) => s.activity_label@ + "\u{2026} ("@ + crate::text::decimal(t as nat) + "s)"@,
                None => s.activity_label@ + "\u{2026}"@,
            }
        } else {
            status_message
        },
        None => status_message,
    }
}

fn trim_ellipses(s: &str) -> (r: Vec<char>)
    ensures
        r@ == strip_ellipses(s@),
{
    let c = chars_of(s);
    let mut n: usize = c.len();
    assert(c@.take(c@.len() as int) =~= c@);
    while n > 0 && c[n - 1] == '\u{2026}'
        invariant
            n <= c@.len(),
            c@ == s@,
            strip_ellipses(s@) == strip_ellipses(c@.take(n as int)),
        decreases n,
    {
        assert(c@.take(n as int).drop_last() =~= c@.take(n - 1));
        n = n - 1;
    }
    crate::text::slice_chars(c.as_slice(), 0, n)
}

fn nonempty(s: &str) -> (r: bool)
    ensures
        r == (s@.len() > 0),
{
    chars_of(s).len() > 0
}

/// Writes the status line.
pub fn format_status_line(progress: &Option<ProgressSnapshot>, status_message: &str) -> (r: String)
    ensures
        r@ == status_line(*progress, status_message@),
{
    match progress {
        Some(s) => {
            if s.analyzing && nonempty(s.analyzing_message.as_str()) {
                return s.analyzing_message.clone();
            }
            if nonempty(s.step_label.as_str()) {
                match s.elapsed_secs {
                    Some(t) => {
                        let mut out = trim_ellipses(s.step_label.as_str());
                        push_str(&mut out, "\u{2026} (");
                        crate::text::push_decimal(&mut out, t);
                        push_str(&mut out, "s)");
                        return string_from(out.as_slice());
                    },
                    None => {
                        return s.step_label.clone();
                    },
                }
            }
            if nonempty(s.activity_label.as_str()) {
                let mut out = chars_of(s.activity_label.as_str());
                match s.elapsed_secs {
                    Some(t) => {
                        push_str(&mut out, "\u{2026} (");
                        crate::text::push_decimal(&mut out, t);
                        push_str(&mut out, "s)");
                    },
                    None => {
                        push_str(&mut out, "\u{2026}");
                    },
                }
                return string_from(out.as_slice());
            }
            string_from(chars_of(status_message).as_slice())
        },
        None => string_from(chars_of(status_message).as_slice()),
    }
}

/// The columns `unicode-width` gives a character: `None` for a control
/// character.
pub uninterp spec fn char_columns(c: char) -> Option<usize>;

/// Calls `UnicodeWidthChar::width` from `unicode-width`. The contract claims
/// that the result is the one `char_columns` names, and what the crate's
/// source shows for ASCII and C1: printable ASCII takes one column, the C0
/// and C1 control characters and DEL have no width, and every character from
/// U+00A0 on has one.
#[verifier::external_body]
fn char_width(c: char) -> (r: Option<usize>)
    ensures
        r == char_columns(c),
        (' ' <= c && c <= '~') ==> r == Some(1usize),
        (c < ' ' || ('\u{7F}' <= c && c < '\u{A0}')) ==> r is None,
        c >= '\u{A0}' ==> r is Some,
{
    unicode_width::UnicodeWidthChar::width(c)
}

/// The width a character adds to a clipped line: control characters add none.
pub open spec fn shown_width(c: char) -> nat {
    match char_columns(c) {
        Some(w) => w as nat,
        None => 0,
    }
}

/// The longest run of `chars` that fits `room` columns.
pub open spec fn fitting(chars: Seq<char>, room: nat) -> Seq<char>
    decreases chars.len(),
{
    if chars.len() == 0 || shown_width(chars[0]) > room {
        Seq::empty()
    } else {
        seq![chars[0]] + fitting(chars.drop_first(), (room - shown_width(chars[0])) as nat)
    }
}

/// A line clipped to `max_width` columns after skipping `h_scroll`
/// characters.
pub open spec fn clipped(text: Seq<char>, max_width: nat, h_scroll: nat) -> Seq<char> {
    if max_width == 0 {
        Seq::empty()
    } else {
        fitting(text.skip(if h_scroll < text.len() { h_scroll as int } else { text.len() as int }), max_width)
    }
}

/// Clips a line of the task tree to the columns it may use.
pub fn clip_line(text: &str, max_width: usize, h_scroll: usize) -> (r: String)
    ensures
        r@ == clipped(text@, max_width as nat, h_scroll as nat),
{
    if max_width == 0 {
        return String::new();
    }
    let chars = chars_of(text);
    let start: usize = if h_scroll < chars.len() { h_scroll } else { chars.len() };
    let ghost rest = chars@.skip(start as int);
    let mut out: Vec<char> = Vec::new();
    let mut width: usize = 0;
    let mut i: usize = start;
    assert(chars@.skip(start as int) =~= rest);
    while i < chars.len()
        invariant
            start <= i <= chars@.len(),
            start == (if h_scroll < text@.len() { h_scroll } else { text@.len() as usize }),
            max_width > 0,
            width <= max_width,
            rest == chars@.skip(start as int),
            chars@ == text@,
            out@ + fitting(chars@.skip(i as int), (max_width - width) as nat) == fitting(rest, max_width as nat),
        decreases chars.len() - i,
    {
        let ghost tail = chars@.skip(i as int);
        assert(tail[0] == chars@[i as int]);
        assert(tail.drop_first() =~= chars@.skip(i + 1));
        let w: usize = match char_width(chars[i]) {
            Some(x) => x,
            None => 0,
        };
        if w > max_width - width {
            assert(fitting(tail, (max_width - width) as nat) =~= Seq::<char>::empty());
            assert(out@ =~= fitting(rest, max_width as nat));
            return string_from(out.as_slice());
        }
        out.push(chars[i]);
        width = width + w;
        i = i + 1;
        assert(out@ + fitting(chars@.skip(i as int), (max_width - width) as nat) =~= fitting(rest, max_width as nat));
    }
    assert(chars@.skip(i as int) =~= Seq::<char>::empty());
    assert(out@ =~= fitting(rest, max_width as nat));
    string_from(out.as_slice())
}


/// The columns a run of characters takes.
pub open spec fn columns(s: Seq<char>) -> nat
    decreases s.len(),
{
    if s.len() == 0 {
        0
    } else {
        shown_width(s[0]) + columns(s.drop_first())
    }
}

proof fn lemma_fitting(chars: Seq<char>, room: nat)
    ensures
        columns(fitting(chars, room)) <= room,
        fitting(chars, room).len() <= chars.len(),
        fitting(chars, room) == chars.take(fitting(chars, room).len() as int),
    decreases chars.len(),
{
    if chars.len() > 0 && shown_width(chars[0]) <= room {
        let rest = (room - shown_width(chars[0])) as nat;
        lemma_fitting(chars.drop_first(), rest);
        let f = fitting(chars, room);
        assert(f.drop_first() =~= fitting(chars.drop_first(), rest));
        assert(f =~= chars.take(f.len() as int));
    } else {
        assert(fitting(chars, room) =~= chars.take(0));
    }
}

/// A clipped line is a run of the scrolled text from its start, and it takes
/// no more columns than allowed.
pub proof fn lemma_clip_fits(text: Seq<char>, max_width: nat, h_scroll: nat)
    ensures
        columns(clipped(text, max_width, h_scroll)) <= max_width,
        ({
            let start = if h_scroll < text.len() { h_scroll as int } else { text.len() as int };
            let c = clipped(text, max_width, h_scroll);
            c == text.skip(start).take(c.len() as int)
        }),
{
    if max_width > 0 {
        let start = if h_scroll < text.len() { h_scroll as int } else { text.len() as int };
        lemma_fitting(text.skip(start), max_width);
    } else {
        let start = if h_scroll < text.len() { h_scroll as int } else { text.len() as int };
        assert(clipped(text, max_width, h_scroll) =~= text.skip(start).take(0));
    }
}


/// The modal dialogs that can cover the shell.
#[derive(Debug, Clone, Copy, PartialEq, Eq, Structural)]
pub enum ActiveModal {
    RepositorySetup,
    Activation,
}

/// What a modal dialog decided.
#[derive(Debug, Clone)]
pub enum ModalOutcome {
    /// The repository path was confirmed (trimmed).
    RepositoryResolved(String),
    /// The repository path was confirmed empty.
    RepositoryPathRequired,
    RepositoryCancelled,
    ActivationConfirmed,
    ActivationDeclined,
}

/// What the dialog widget reports for an event.
#[derive(Debug, Clone, Copy, PartialEq, Eq, Structural)]
pub enum DialogAction {
    Submit,
    Close,
    /// Anything that decides nothing.
    Other,
}

/// The modal dialogs over the shell: which one holds the input, whether each
/// is shown, and the repository path typed so far.
#[derive(Debug, Clone)]
pub struct ModalHost {
    pub active: Option<ActiveModal>,
    pub activation_visible: bool,
    pub repo_visible: bool,
    pub repo_path: String,
}

impl ModalHost {
    /// No dialog shown.
    pub fn new() -> (r: ModalHost)
        ensures
            r.active is None,
            !r.activation_visible,
            !r.repo_visible,
            r.repo_path@ == Seq::<char>::empty(),
    {
        ModalHost { active: None, activation_visible: false, repo_visible: false, repo_path: String::new() }
    }

    /// A dialog holds the input.
    pub fn is_blocking(&self) -> (r: bool)
        ensures
            r == self.active is Some,
    {
        self.active.is_some()
    }

    /// Shows the activation prompt; it takes the input.
    pub fn show_activation(&mut self)
        ensures
            final(self).active == Some(ActiveModal::Activation),
            final(self).activation_visible,
            final(self).repo_visible == old(self).repo_visible,
            final(self).repo_path@ == old(self).repo_path@,
    {
        self.activation_visible = true;
        self.active = Some(ActiveModal::Activation);
    }

    /// Hides the activation prompt; it gives the input back if it held it.
    pub fn hide_activation(&mut self)
        ensures
            !final(self).activation_visible,
            final(self).active == (if old(self).active == Some(ActiveModal::Activation) {
                None
            } else {
                old(self).active
            }),
            final(self).repo_visible == old(self).repo_visible,
            final(self).repo_path@ == old(self).repo_path@,
    {
        self.activation_visible = false;
        if self.active == Some(ActiveModal::Activation) {
            self.active = None;
        }
    }

    /// Shows the repository prompt with its path field set to `initial`
    /// (empty when none); it takes the input.
    pub fn show_repository(&mut self, initial: Option<String>)
        ensures
            final(self).active == Some(ActiveModal::RepositorySetup),
            final(self).repo_visible,
            final(self).repo_path@ == match initial { Some(t) => t@, None => Seq::<char>::empty() },
            final(self).activation_visible == old(self).activation_visible,
    {
        self.repo_path = match initial {
            Some(t) => t,
            None => String::new(),
        };
        self.repo_visible = true;
        self.active = Some(ActiveModal::RepositorySetup);
    }

    /// Hides the repository prompt; it gives the input back if it held it.
    pub fn hide_repository(&mut self)
        ensures
            !final(self).repo_visible,
            final(self).active == (if old(self).active == Some(ActiveModal::RepositorySetup) {
                None
            } else {
                old(self).active
            }),
            final(self).activation_visible == old(self).activation_visible,
            final(self).repo_path@ == old(self).repo_path@,
    {
        self.repo_visible = false;
        if self.active == Some(ActiveModal::RepositorySetup) {
            self.active = None;
        }
    }

    /// The footer hints of the dialog that holds the input, if any.
    pub fn footer_hints(&self) -> (r: Option<Vec<Hint>>)
        ensures
            match self.active {
                None => r is None,
                Some(ActiveModal::RepositorySetup) => r matches Some(h) && hint_views(h@)
                    == seq![("Type"@, "workspace path"@), ("Enter/OK"@, "confirm"@), ("Esc/Cancel"@, "quit"@)],
                Some(ActiveModal::Activation) => r matches Some(h) && hint_views(h@)
                    == seq![("Enter/Y"@, "apply"@), ("Esc/N"@, "decline"@), ("Click"@, "button"@)],
            },
    {
        match self.active {
            None => None,
            Some(ActiveModal::RepositorySetup) => {
                let mut h: Vec<Hint> = Vec::new();
                h.push(("Type", "workspace path"));
                h.push(("Enter/OK", "confirm"));
                h.push(("Esc/Cancel", "quit"));
                assert(hint_views(h@) =~= seq![("Type"@, "workspace path"@), ("Enter/OK"@, "confirm"@), ("Esc/Cancel"@, "quit"@)]);
                Some(h)
            },
            Some(ActiveModal::Activation) => {
                let mut h: Vec<Hint> = Vec::new();
                h.push(("Enter/Y", "apply"));
                h.push(("Esc/N", "decline"));
                h.push(("Click", "button"));
                assert(hint_views(h@) =~= seq![("Enter/Y"@, "apply"@), ("Esc/N"@, "decline"@), ("Click"@, "button"@)]);
                Some(h)
            },
        }
    }

    /// What the repository prompt decides: on submit, the trimmed path, or a
    /// request for one when it is empty; on close, cancellation (the prompt
    /// is hidden); nothing otherwise.
    pub fn map_repo_action(&mut self, action: DialogAction) -> (r: Option<ModalOutcome>)
        ensures
            match action {
                DialogAction::Submit => {
                    &&& *final(self) == *old(self)
                    &&& if trim(old(self).repo_path@).len() == 0 {
                        r matches Some(ModalOutcome::RepositoryPathRequired)
                    } else {
                        r matches Some(ModalOutcome::RepositoryResolved(p)) && p@ == trim(old(self).repo_path@)
                    }
                },
                DialogAction::Close => {
                    &&& r matches Some(ModalOutcome::RepositoryCancelled)
                    &&& !final(self).repo_visible
                    &&& final(self).active == (if old(self).active == Some(ActiveModal::RepositorySetup) {
                        None
                    } else {
                        old(self).active
                    })
                    &&& final(self).activation_visible == old(self).activation_visible
                    &&& final(self).repo_path@ == old(self).repo_path@
                },
                DialogAction::Other => r is None && *final(self) == *old(self),
            },
    {
        match action {
            DialogAction::Submit => {
                let t = trim_chars(chars_of(self.repo_path.as_str()).as_slice());
                if t.len() == 0 {
                    Some(ModalOutcome::RepositoryPathRequired)
                } else {
                    Some(ModalOutcome::RepositoryResolved(string_from(t.as_slice())))
                }
            },
            DialogAction::Close => {
                self.hide_repository();
                Some(ModalOutcome::RepositoryCancelled)
            },
            DialogAction::Other => None,
        }
    }

    /// What the activation prompt decides: confirmation on submit, a decline
    /// on close (the prompt is hidden either way); nothing otherwise.
    pub fn map_activation_action(&mut self, action: DialogAction) -> (r: Option<ModalOutcome>)
        ensures
            match action {
                DialogAction::Other => r is None && *final(self) == *old(self),
                _ => {
                    &&& (action == DialogAction::Submit ==> r matches Some(ModalOutcome::ActivationConfirmed))
                    &&& (action == DialogAction::Close ==> r matches Some(ModalOutcome::ActivationDeclined))
                    &&& !final(self).activation_visible
                    &&& final(self).active == (if old(self).active == Some(ActiveModal::Activation) {
                        None
                    } else {
                        old(self).active
                    })
                    &&& final(self).repo_visible == old(self).repo_visible
                    &&& final(self).repo_path@ == old(self).repo_path@
                },
            },
    {
        match action {
            DialogAction::Submit => {
                self.hide_activation();
                Some(ModalOutcome::ActivationConfirmed)
            },
            DialogAction::Close => {
                self.hide_activation();
                Some(ModalOutcome::ActivationDeclined)
            },
            DialogAction::Other => None,
        }
    }
}

/// A node of the task tree as the interface keeps it.
#[derive(Debug, Clone)]
pub struct TaskTreeData {
    pub label: String,
    pub path_key: String,
    pub command_id: Option<String>,
    pub has_children: bool,
}

/// What choosing a node of the task tree does.
#[derive(Debug, Clone)]
pub enum TreeSelection {
    /// A node with children opens or closes (by its path key).
    ToggleExpanded(String),
    /// A leaf selects its command.
    SelectCommand(String),
    /// A leaf without a command does nothing.
    Nothing,
}

/// Chooses a node of the task tree: a node with children toggles, a leaf
/// selects its command.
pub fn apply_tree_selection(node: &TaskTreeData) -> (r: TreeSelection)
    ensures
        node.has_children ==> (r matches TreeSelection::ToggleExpanded(k) && k@ == node.path_key@),
        !node.has_children ==> match node.command_id {
            Some(id) => (r matches TreeSelection::SelectCommand(c) && c@ == id@),
            None => r is Nothing,
        },
{
    if node.has_children {
        TreeSelection::ToggleExpanded(copy_str(node.path_key.as_str()))
    } else {
        match &node.command_id {
            Some(id) => TreeSelection::SelectCommand(copy_str(id.as_str())),
            None => TreeSelection::Nothing,
        }
    }
}

/// The keys the task tree answers.
#[derive(Debug, Clone, Copy, PartialEq, Eq, Structural)]
pub enum TreeKey {
    Up,
    Down,
    Home,
    End,
    Left,
    Right,
    Enter,
    Space,
    Other,
}

/// What a key did to the task tree.
#[derive(Debug, Clone, Copy, PartialEq, Eq, Structural)]
pub enum TreeKeyAction {
    /// The key did nothing.
    Unhandled,
    SelectionChanged,
    Toggled,
    Scrolled,
    Activate,
}

/// The change a key makes to the tree widget's selection.
#[derive(Debug, Clone, Copy, PartialEq, Eq, Structural)]
pub enum TreeMove {
    Stay,
    Previous,
    Next,
    /// Select the visible row at this index.
    Row(usize),
    CollapseSelected,
    ExpandSelected,
}

/// The outcome of a key in the task tree: what it did, the widget change,
/// the new horizontal scroll, and whether the selection is scrolled into
/// view afterwards.
#[derive(Debug, Clone, Copy)]
pub struct TreeKeyStep {
    pub action: TreeKeyAction,
    pub movement: TreeMove,
    pub h_scroll: u16,
    pub follow_selection: bool,
}

/// How the task tree answers a key, given its visible row count, its
/// horizontal scroll and the largest one, and whether a node is selected:
/// arrows and Home/End move the selection; Left scrolls back when scrolled,
/// else collapses; Right scrolls on while it can, else expands the selected
/// node; Enter and Space activate.
pub open spec fn tree_key_step(key: TreeKey, count: usize, h_scroll: u16, max_scroll: u16, has_selection: bool) -> (TreeKeyAction, TreeMove, int) {
    match key {
        TreeKey::Up => (TreeKeyAction::SelectionChanged, TreeMove::Previous, h_scroll as int),
        TreeKey::Down => (TreeKeyAction::SelectionChanged, TreeMove::Next, h_scroll as int),
        TreeKey::Home => (TreeKeyAction::SelectionChanged, TreeMove::Row(0), h_scroll as int),
        TreeKey::End => (TreeKeyAction::SelectionChanged,
            if count > 0 { TreeMove::Row((count - 1) as usize) } else { TreeMove::Stay }, h_scroll as int),
        TreeKey::Left => if h_scroll > 0 {
            (TreeKeyAction::Scrolled, TreeMove::Stay, h_scroll - 1)
        } else {
            (TreeKeyAction::Toggled, if has_selection { TreeMove::CollapseSelected } else { TreeMove::Stay }, h_scroll as int)
        },
        TreeKey::Right => if h_scroll < max_scroll {
            (TreeKeyAction::Scrolled, TreeMove::Stay, h_scroll + 1)
        } else if has_selection {
            (TreeKeyAction::Toggled, TreeMove::ExpandSelected, h_scroll as int)
        } else {
            (TreeKeyAction::Unhandled, TreeMove::Stay, h_scroll as int)
        },
        TreeKey::Enter | TreeKey::Space => (TreeKeyAction::Activate, TreeMove::Stay, h_scroll as int),
        TreeKey::Other => (TreeKeyAction::Unhandled, TreeMove::Stay, h_scroll as int),
    }
}

/// Answers a key in the task tree (see `tree_key_step`); the selection is
/// scrolled into view after a selection change or a toggle.
pub fn handle_tree_key(key: TreeKey, count: usize, h_scroll: u16, max_scroll: u16, has_selection: bool) -> (r: TreeKeyStep)
    ensures
        (r.action, r.movement, r.h_scroll as int) == tree_key_step(key, count, h_scroll, max_scroll, has_selection),
        r.follow_selection == (r.action == TreeKeyAction::SelectionChanged || r.action == TreeKeyAction::Toggled),
{
    let (action, movement, hs) = match key {
        TreeKey::Up => (TreeKeyAction::SelectionChanged, TreeMove::Previous, h_scroll),
        TreeKey::Down => (TreeKeyAction::SelectionChanged, TreeMove::Next, h_scroll),
        TreeKey::Home => (TreeKeyAction::SelectionChanged, TreeMove::Row(0), h_scroll),
        TreeKey::End => (TreeKeyAction::SelectionChanged,
            if count > 0 { TreeMove::Row(count - 1) } else { TreeMove::Stay }, h_scroll),
        TreeKey::Left => if h_scroll > 0 {
            (TreeKeyAction::Scrolled, TreeMove::Stay, h_scroll - 1)
        } else {
            (TreeKeyAction::Toggled, if has_selection { TreeMove::CollapseSelected } else { TreeMove::Stay }, h_scroll)
        },
        TreeKey::Right => if h_scroll < max_scroll {
            (TreeKeyAction::Scrolled, TreeMove::Stay, h_scroll + 1)
        } else if has_selection {
            (TreeKeyAction::Toggled, TreeMove::ExpandSelected, h_scroll)
        } else {
            (TreeKeyAction::Unhandled, TreeMove::Stay, h_scroll)
        },
        TreeKey::Enter | TreeKey::Space => (TreeKeyAction::Activate, TreeMove::Stay, h_scroll),
        TreeKey::Other => (TreeKeyAction::Unhandled, TreeMove::Stay, h_scroll),
    };
    let follow = match action {
        TreeKeyAction::SelectionChanged | TreeKeyAction::Toggled => true,
        _ => false,
    };
    TreeKeyStep { action, movement, h_scroll: hs, follow_selection: follow }
}

/// The visible row of the task tree a click selects: the row under the
/// pointer counted from the scroll offset, at most the last row; none when
/// the pointer is outside the tree or the tree shows no row.
pub open spec fn tree_row_at(inner: Rect, col: u16, row: u16, scroll: usize, count: usize) -> Option<int> {
    if !inside(inner, col, row) || count == 0 {
        None
    } else {
        let v = scroll + (row - inner.y);
        Some(if v < count - 1 { v } else { count - 1 })
    }
}

/// The visible row of the task tree a click selects (see `tree_row_at`).
pub fn tree_row_at_pointer(inner: Rect, col: u16, row: u16, scroll: usize, count: usize) -> (r: Option<usize>)
    requires
        inner.wf(),
    ensures
        (match r { Some(i) => Some(i as int), None => None }) == tree_row_at(inner, col, row, scroll, count),
{
    if !point_in_rect(inner, col, row) || count == 0 {
        return None;
    }
    let rel = (row - inner.y) as usize;
    let last = count - 1;
    if scroll > last || rel > last - scroll {
        Some(last)
    } else {
        Some(scroll + rel)
    }
}

/// The horizontal scroll that brings the selected line's label into view:
/// the scroll is first kept within its maximum; a label ending past the
/// viewport scrolls so that it ends at the viewport's right edge, a label
/// starting before it scrolls to its start; the result is kept within the
/// maximum again. Offsets are in terminal columns and stored as `u16`
/// (wider values wrap, as a cast does).
pub open spec fn auto_scrolled(h_scroll: u16, max: u16, view: u16, label_start: usize, label_width: usize) -> u16 {
    let h0 = if h_scroll > max { max } else { h_scroll };
    let label_end = label_start + label_width;
    let h1: u16 = if label_end > h0 + view {
        (if label_end >= view { label_end - view } else { 0 }) as u16
    } else if label_start < h0 {
        label_start as u16
    } else {
        h0
    };
    if h1 > max { max } else { h1 }
}

/// Scrolls the task tree so that the selected label shows (see
/// `auto_scrolled`); `label_start` and `label_width` are the columns before
/// the label (its tree prefix) and the label's own columns.
pub fn auto_scroll_selection(h_scroll: &mut u16, max: u16, viewport_width: u16, label_start: usize, label_width: usize)
    requires
        label_start + label_width <= usize::MAX,
    ensures
        *final(h_scroll) == auto_scrolled(*old(h_scroll), max, viewport_width, label_start, label_width),
{
    clamp_horizontal_scroll(h_scroll, max);
    let label_end = label_start + label_width;
    let view = viewport_width as usize;
    let start = *h_scroll as usize;
    if label_end > start + view {
        let back: usize = if label_end >= view { label_end - view } else { 0 };
        *h_scroll = #[verifier::truncate] (back as u16);
    } else if label_start < start {
        *h_scroll = label_start as u16;
    }
    clamp_horizontal_scroll(h_scroll, max);
}

/// The wheel events the task tree answers.
#[derive(Debug, Clone, Copy, PartialEq, Eq, Structural)]
pub enum WheelEvent {
    Up,
    Down,
    /// Any other mouse event.
    Other,
}

/// The tree's scroll and selection as the wheel moves them.
#[derive(Debug, Clone, Copy, PartialEq, Eq, Structural)]
pub struct TreeWheelState {
    pub h_scroll: u16,
    pub scroll: u16,
    pub selected: usize,
}

/// How the wheel moves the task tree when the pointer is over it and it
/// shows rows: with Shift it scrolls sideways by one column; otherwise up
/// scrolls the rows back, or moves the selection up once they are at the
/// top; down scrolls on while rows are hidden below, then moves the
/// selection down to the last row. `None` when the event is not handled.
pub open spec fn wheel_step(inside: bool, count: usize, height: u16, event: WheelEvent, shift: bool, s: TreeWheelState) -> Option<TreeWheelState> {
    if !inside || count == 0 || event == WheelEvent::Other {
        None
    } else if shift {
        Some(TreeWheelState {
            h_scroll: if event == WheelEvent::Up {
                if s.h_scroll > 0 { (s.h_scroll - 1) as u16 } else { 0 }
            } else {
                if s.h_scroll < u16::MAX { (s.h_scroll + 1) as u16 } else { u16::MAX }
            },
            ..s
        })
    } else if event == WheelEvent::Up {
        if s.scroll > 0 {
            Some(TreeWheelState { scroll: (s.scroll - 1) as u16, ..s })
        } else if s.selected > 0 {
            Some(TreeWheelState { selected: (s.selected - 1) as usize, ..s })
        } else {
            Some(s)
        }
    } else {
        let max_scroll: u16 = (if count > height { count - height } else { 0 }) as u16;
        if s.scroll < max_scroll {
            Some(TreeWheelState { scroll: (s.scroll + 1) as u16, ..s })
        } else if s.selected + 1 < count {
            Some(TreeWheelState { selected: (s.selected + 1) as usize, ..s })
        } else {
            Some(s)
        }
    }
}

/// Answers a wheel event over the task tree (see `wheel_step`); the caller
/// then keeps the selection visible.
pub fn handle_tree_wheel(inner: Rect, col: u16, row: u16, count: usize, event: WheelEvent, shift: bool, state: TreeWheelState) -> (r: Option<TreeWheelState>)
    requires
        inner.wf(),
    ensures
        r == wheel_step(inside(inner, col, row), count, inner.height, event, shift, state),
{
    if !point_in_rect(inner, col, row) || count == 0 {
        return None;
    }
    match event {
        WheelEvent::Other => None,
        WheelEvent::Up => {
            if shift {
                Some(TreeWheelState { h_scroll: state.h_scroll.saturating_sub(1), ..state })
            } else if state.scroll > 0 {
                Some(TreeWheelState { scroll: state.scroll - 1, ..state })
            } else if state.selected > 0 {
                Some(TreeWheelState { selected: state.selected - 1, ..state })
            } else {
                Some(state)
            }
        },
        WheelEvent::Down => {
            if shift {
                Some(TreeWheelState { h_scroll: state.h_scroll.saturating_add(1), ..state })
            } else {
                let h = inner.height as usize;
                let max_scroll: u16 = #[verifier::truncate] ((if count > h { count - h } else { 0 }) as u16);
                if state.scroll < max_scroll {
                    Some(TreeWheelState { scroll: state.scroll + 1, ..state })
                } else if state.selected < count - 1 {
                    Some(TreeWheelState { selected: state.selected + 1, ..state })
                } else {
                    Some(state)
                }
            }
        },
    }
}

} // verus!

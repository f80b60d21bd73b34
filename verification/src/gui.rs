//! The desktop interface's message handling: how each message changes the
//! interface state it owns (the open tab, the history selection and the
//! command forms) and which action it hands to the application state.

use vstd::prelude::*;
use crate::text::{chars_of, chars_eq};
use crate::command::{CommandRegistry, FieldKind};
use crate::trid::TridBuildProgress;

verus! {

/// A value entered in a command form.
#[derive(Debug, Clone)]
pub enum FormValue {
    Text(String),
    Boolean(bool),
    /// The index of the chosen option.
    Select(usize),
}

/// The entered values of one command's form, field by field.
#[derive(Debug, Clone)]
pub struct CommandForm {
    pub command_id: String,
    pub values: Vec<FormValue>,
}

/// The part of the desktop interface's state that messages change directly.
#[derive(Debug)]
pub struct GuiState<T> {
    pub main_tab: T,
    pub selected_history_index: Option<usize>,
    pub forms: Vec<CommandForm>,
}

/// A message of the desktop interface.
#[derive(Debug, Clone)]
pub enum GuiMessage<T> {
    CommandSelected(String),
    TreeToggleExpand(String),
    TabSelected(T),
    FormTextChanged { command_id: String, field_index: usize, value: String },
    FormBooleanChanged { command_id: String, field_index: usize, value: bool },
    FormSelectChanged { command_id: String, field_index: usize, value: String },
    RunPressed,
    CancelPressed,
    ResetFormPressed,
    Tick,
    ProgressUpdate(TridBuildProgress),
    HistorySelected(usize),
    ActivationConfirm,
    ActivationDecline,
}

/// What the application state is asked to do after a message.
#[derive(Debug, Clone)]
pub enum GuiAction {
    /// The message is fully handled by the state change.
    Done,
    SelectCommand(String),
    ToggleExpanded(String),
    RunSelected,
    CancelActive,
    ResetSelectedForm,
    /// Poll the running command, apply the queued progress updates, and
    /// exit when the state asks to quit.
    PollActiveRun,
    ApplyProgress(TridBuildProgress),
    ConfirmActivation,
    DeclineActivation,
}

/// The index of the first item of `s` whose key is `id`.
pub open spec fn first_index<T>(s: Seq<T>, key: spec_fn(T) -> Seq<char>, id: Seq<char>) -> Option<int>
    decreases s.len(),
{
    if s.len() == 0 {
        None
    } else {
        match first_index(s.drop_last(), key, id) {
            Some(i) => Some(i),
            None => if key(s.last()) == id { Some(s.len() - 1) } else { None },
        }
    }
}

proof fn lemma_first_index_bound<T>(s: Seq<T>, key: spec_fn(T) -> Seq<char>, id: Seq<char>)
    ensures
        first_index(s, key, id) matches Some(i) ==> (0 <= i < s.len() && key(s[i]) == id
            && forall|k: int| 0 <= k < i ==> key(#[trigger] s[k]) != id),
        first_index(s, key, id) is None ==> forall|j: int| 0 <= j < s.len() ==> key(#[trigger] s[j]) != id,
    decreases s.len(),
{
    if s.len() > 0 {
        let t = s.drop_last();
        lemma_first_index_bound(t, key, id);
        match first_index(t, key, id) {
            Some(i) => {
                assert(t[i] == s[i]);
                assert forall|k: int| 0 <= k < i implies key(#[trigger] s[k]) != id by {
                    assert(t[k] == s[k]);
                }
            },
            None => {
                assert forall|j: int| 0 <= j < s.len() - 1 implies key(#[trigger] s[j]) != id by {
                    assert(t[j] == s[j]);
                }
                if key(s.last()) == id {
                    assert(s.last() == s[s.len() - 1]);
                } else {
                    assert(s.last() == s[s.len() - 1]);
                }
            },
        }
    }
}

proof fn lemma_first_index_found<T>(s: Seq<T>, key: spec_fn(T) -> Seq<char>, id: Seq<char>, i: int)
    requires
        0 <= i < s.len(),
        key(s[i]) == id,
        forall|k: int| 0 <= k < i ==> key(#[trigger] s[k]) != id,
    ensures
        first_index(s, key, id) == Some(i),
    decreases s.len(),
{
    lemma_first_index_bound(s, key, id);
    if first_index(s, key, id) is None {
        assert(key(s[i]) != id);
    } else {
        let m = first_index(s, key, id)->0;
        if m < i {
            assert(key(s[m]) != id);
        } else if m > i {
            assert(key(s[i]) != id);
        }
    }
}

/// The key of a form: its command id.
pub open spec fn form_key(f: CommandForm) -> Seq<char> {
    f.command_id@
}

/// The index of the first form of `id`.
pub open spec fn form_index(forms: Seq<CommandForm>, id: Seq<char>) -> Option<int> {
    first_index(forms, |f: CommandForm| form_key(f), id)
}

/// `after` is `before` with the value of field `field` of the form of `id`
/// replaced by `v`, when that form exists and the field holds a value of
/// `v`'s kind; otherwise `after` is `before`.
pub open spec fn forms_with(before: Seq<CommandForm>, after: Seq<CommandForm>, id: Seq<char>, field: int, v: FormValue) -> bool {
    match form_index(before, id) {
        Some(i) => if 0 <= field < before[i].values@.len() && same_kind(before[i].values@[field], v) {
            &&& after.len() == before.len()
            &&& forall|j: int| 0 <= j < before.len() && j != i ==> after[j] == before[j]
            &&& after[i].command_id == before[i].command_id
            &&& after[i].values@ == before[i].values@.update(field, v)
        } else {
            after == before
        },
        None => after == before,
    }
}

/// Two form values of the same kind.
pub open spec fn same_kind(a: FormValue, b: FormValue) -> bool {
    match (a, b) {
        (FormValue::Text(_), FormValue::Text(_)) => true,
        (FormValue::Boolean(_), FormValue::Boolean(_)) => true,
        (FormValue::Select(_), FormValue::Select(_)) => true,
        _ => false,
    }
}

/// The index of `value` among `options`, or 0 when it is not one of them.
pub open spec fn option_position(options: Seq<Seq<char>>, value: Seq<char>) -> nat
    decreases options.len(),
{
    if options.len() == 0 {
        0
    } else if options[0] == value {
        0
    } else if options.drop_first().contains(value) {
        option_position(options.drop_first(), value) + 1
    } else {
        0
    }
}

/// The key of a registered command: its id.
pub open spec fn command_key(c: crate::command::CommandSpec) -> Seq<char> {
    c.id@
}

/// The options of field `field` of the registered command `id`, when that
/// field is a selection.
pub open spec fn select_options(commands: Seq<crate::command::CommandSpec>, id: Seq<char>, field: int) -> Option<Seq<Seq<char>>> {
    match first_index(commands, |c: crate::command::CommandSpec| command_key(c), id) {
        Some(c) => {
            let fields = commands[c].ui.fields@;
            if 0 <= field < fields.len() {
                match fields[field].kind {
                    FieldKind::Select(options) => Some(options@.map_values(|o: &'static str| o@)),
                    _ => None,
                }
            } else {
                None
            }
        },
        None => None,
    }
}

fn find_form(forms: &Vec<CommandForm>, id: &str) -> (r: Option<usize>)
    ensures
        match form_index(forms@, id@) {
            Some(i) => r matches Some(j) && j as int == i,
            None => r is None,
        },
{
    let ghost key = |f: CommandForm| form_key(f);
    let target = chars_of(id);
    let mut i: usize = 0;
    while i < forms.len()
        invariant
            i <= forms@.len(),
            target@ == id@,
            key == (|f: CommandForm| form_key(f)),
            forall|k: int| 0 <= k < i ==> key(#[trigger] forms@[k]) != id@,
        decreases forms.len() - i,
    {
        let c = chars_of(forms[i].command_id.as_str());
        if chars_eq(c.as_slice(), target.as_slice()) {
            proof {
                lemma_first_index_found(forms@, key, id@, i as int);
            }
            return Some(i);
        }
        i = i + 1;
    }
    proof {
        lemma_first_index_bound(forms@, key, id@);
        if form_index(forms@, id@) is Some {
            let m = form_index(forms@, id@)->0;
            assert(key(forms@[m]) != id@);
        }
    }
    None
}

/// Replaces the value of a form field with `v` when the form exists and the
/// field holds a value of the same kind.
fn set_form_value(forms: &mut Vec<CommandForm>, id: &str, field: usize, v: FormValue)
    ensures
        forms_with(old(forms)@, final(forms)@, id@, field as int, v),
{
    proof {
        lemma_first_index_bound(forms@, |f: CommandForm| form_key(f), id@);
    }
    match find_form(forms, id) {
        None => {},
        Some(i) => {
            if field < forms[i].values.len() {
                let fits = match (&forms[i].values[field], &v) {
                    (FormValue::Text(_), FormValue::Text(_)) => true,
                    (FormValue::Boolean(_), FormValue::Boolean(_)) => true,
                    (FormValue::Select(_), FormValue::Select(_)) => true,
                    _ => false,
                };
                assert(fits == same_kind(forms@[i as int].values@[field as int], v));
                if fits {
                    let ghost before = forms@;
                    let mut form = forms.remove(i);
                    assert(form == before[i as int]);
                    assert(forms@ == before.remove(i as int));
                    form.values.set(field, v);
                    assert(form.values@ == before[i as int].values@.update(field as int, v));
                    forms.insert(i, form);
                    assert(forms@ == before.remove(i as int).insert(i as int, form));
                    assert forall|j: int| 0 <= j < before.len() && j != i implies forms@[j] == before[j] by {
                        if j < i {
                            assert(before.remove(i as int)[j] == before[j]);
                        } else {
                            assert(before.remove(i as int)[j - 1] == before[j]);
                        }
                    }
                    assert(forms@.len() == before.len());
                    assert(forms@[i as int] == form);
                }
            }
        },
    }
}

fn option_index(options: &Vec<&'static str>, value: &str) -> (r: usize)
    ensures
        r as nat == option_position(options@.map_values(|o: &'static str| o@), value@),
{
    let ghost opts = options@.map_values(|o: &'static str| o@);
    let target = chars_of(value);
    let mut i: usize = 0;
    while i < options.len()
        invariant
            i <= options@.len(),
            opts == options@.map_values(|o: &'static str| o@),
            target@ == value@,
            forall|k: int| 0 <= k < i ==> opts[k] != value@,
        decreases options.len() - i,
    {
        let c = chars_of(options[i]);
        if chars_eq(c.as_slice(), target.as_slice()) {
            proof {
                lemma_option_position(opts, value@, i as int);
            }
            return i;
        }
        i = i + 1;
    }
    proof {
        lemma_option_position_absent(opts, value@);
    }
    0
}

proof fn lemma_option_position(options: Seq<Seq<char>>, value: Seq<char>, i: int)
    requires
        0 <= i < options.len(),
        options[i] == value,
        forall|k: int| 0 <= k < i ==> options[k] != value,
    ensures
        option_position(options, value) == i,
    decreases i,
{
    if i > 0 {
        assert(options.drop_first()[i - 1] == value);
        assert(options.drop_first().contains(value));
        assert forall|k: int| 0 <= k < i - 1 implies options.drop_first()[k] != value by {
            assert(options.drop_first()[k] == options[k + 1]);
        }
        lemma_option_position(options.drop_first(), value, i - 1);
    }
}

proof fn lemma_option_position_absent(options: Seq<Seq<char>>, value: Seq<char>)
    requires
        forall|k: int| 0 <= k < options.len() ==> options[k] != value,
    ensures
        option_position(options, value) == 0,
{
    if options.len() > 0 {
        if options.drop_first().contains(value) {
            let k = choose|k: int| 0 <= k < options.drop_first().len() && options.drop_first()[k] == value;
            assert(options[k + 1] == value);
        }
    }
}

fn find_select_options<'a>(registry: &'a CommandRegistry, id: &str, field: usize) -> (r: Option<&'a Vec<&'static str>>)
    ensures
        match select_options(registry.command_list(), id@, field as int) {
            Some(o) => r matches Some(v) && v@.map_values(|x: &'static str| x@) == o,
            None => r is None,
        },
{
    let commands = registry.commands();
    let ghost cs = registry.command_list();
    let ghost key = |c: crate::command::CommandSpec| command_key(c);
    let target = chars_of(id);
    let mut c: usize = 0;
    while c < commands.len()
        invariant
            c <= commands@.len(),
            commands@ == cs,
            cs == registry.command_list(),
            target@ == id@,
            key == (|c: crate::command::CommandSpec| command_key(c)),
            forall|k: int| 0 <= k < c ==> key(#[trigger] cs[k]) != id@,
        decreases commands.len() - c,
    {
        let idc = chars_of(commands[c].id);
        if chars_eq(idc.as_slice(), target.as_slice()) {
            proof {
                lemma_first_index_found(cs, key, id@, c as int);
            }
            assert(first_index(cs, key, id@) == Some(c as int));
            let fields = &commands[c].ui.fields;
            if field < fields.len() {
                match &fields[field].kind {
                    FieldKind::Select(options) => {
                        return Some(options);
                    },
                    _ => {
                        return None;
                    },
                }
            }
            return None;
        }
        c = c + 1;
    }
    proof {
        lemma_first_index_bound(cs, key, id@);
        if first_index(cs, key, id@) is Some {
            let m = first_index(cs, key, id@)->0;
            assert(key(cs[m]) != id@);
        }
    }
    None
}

/// Handles one message of the desktop interface: tab and history choices
/// and form edits change the state here (a form edit applies only to an
/// existing form field of the same kind; a selection takes the index of the
/// chosen option among the field's options, 0 when it is not one of them);
/// every other message becomes the action the application state performs.
pub fn update<T: Copy>(state: &mut GuiState<T>, registry: &CommandRegistry, history_tab: T, message: GuiMessage<T>) -> (r: GuiAction)
    ensures
        match message {
            GuiMessage::TabSelected(t) => r is Done && final(state).main_tab == t
                && final(state).forms@ == old(state).forms@
                && final(state).selected_history_index == old(state).selected_history_index,
            GuiMessage::HistorySelected(i) => r is Done && final(state).main_tab == history_tab
                && final(state).selected_history_index == Some(i)
                && final(state).forms@ == old(state).forms@,
            GuiMessage::FormTextChanged { command_id, field_index, value } => r is Done
                && forms_with(old(state).forms@, final(state).forms@, command_id@, field_index as int, FormValue::Text(value))
                && final(state).main_tab == old(state).main_tab
                && final(state).selected_history_index == old(state).selected_history_index,
            GuiMessage::FormBooleanChanged { command_id, field_index, value } => r is Done
                && forms_with(old(state).forms@, final(state).forms@, command_id@, field_index as int, FormValue::Boolean(value))
                && final(state).main_tab == old(state).main_tab
                && final(state).selected_history_index == old(state).selected_history_index,
            GuiMessage::FormSelectChanged { command_id, field_index, value } => r is Done
                && final(state).main_tab == old(state).main_tab
                && final(state).selected_history_index == old(state).selected_history_index
                && match select_options(registry.command_list(), command_id@, field_index as int) {
                    Some(options) => forms_with(old(state).forms@, final(state).forms@, command_id@, field_index as int,
                        FormValue::Select(option_position(options, value@) as usize)),
                    None => final(state).forms@ == old(state).forms@,
                },
            _ => {
                &&& final(state).main_tab == old(state).main_tab
                &&& final(state).selected_history_index == old(state).selected_history_index
                &&& final(state).forms@ == old(state).forms@
                &&& match message {
                    GuiMessage::CommandSelected(id) => r matches GuiAction::SelectCommand(x) && x@ == id@,
                    GuiMessage::TreeToggleExpand(k) => r matches GuiAction::ToggleExpanded(x) && x@ == k@,
                    GuiMessage::RunPressed => r is RunSelected,
                    GuiMessage::CancelPressed => r is CancelActive,
                    GuiMessage::ResetFormPressed => r is ResetSelectedForm,
                    GuiMessage::Tick => r is PollActiveRun,
                    GuiMessage::ProgressUpdate(u) => r matches GuiAction::ApplyProgress(x) && x == u,
                    GuiMessage::ActivationConfirm => r is ConfirmActivation,
                    GuiMessage::ActivationDecline => r is DeclineActivation,
                    _ => true,
                }
            },
        },
{
    match message {
        GuiMessage::CommandSelected(id) => GuiAction::SelectCommand(id),
        GuiMessage::TreeToggleExpand(k) => GuiAction::ToggleExpanded(k),
        GuiMessage::TabSelected(t) => {
            state.main_tab = t;
            GuiAction::Done
        },
        GuiMessage::FormTextChanged { command_id, field_index, value } => {
            set_form_value(&mut state.forms, command_id.as_str(), field_index, FormValue::Text(value));
            GuiAction::Done
        },
        GuiMessage::FormBooleanChanged { command_id, field_index, value } => {
            set_form_value(&mut state.forms, command_id.as_str(), field_index, FormValue::Boolean(value));
            GuiAction::Done
        },
        GuiMessage::FormSelectChanged { command_id, field_index, value } => {
            match find_select_options(registry, command_id.as_str(), field_index) {
                Some(options) => {
                    let pos = option_index(options, value.as_str());
                    set_form_value(&mut state.forms, command_id.as_str(), field_index, FormValue::Select(pos));
                },
                None => {},
            }
            GuiAction::Done
        },
        GuiMessage::RunPressed => GuiAction::RunSelected,
        GuiMessage::CancelPressed => GuiAction::CancelActive,
        GuiMessage::ResetFormPressed => GuiAction::ResetSelectedForm,
        GuiMessage::Tick => GuiAction::PollActiveRun,
        GuiMessage::ProgressUpdate(u) => GuiAction::ApplyProgress(u),
        GuiMessage::HistorySelected(i) => {
            state.selected_history_index = Some(i);
            state.main_tab = history_tab;
            GuiAction::Done
        },
        GuiMessage::ActivationConfirm => GuiAction::ConfirmActivation,
        GuiMessage::ActivationDecline => GuiAction::DeclineActivation,
    }
}

} // verus!

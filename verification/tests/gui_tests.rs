use dhara_tool::command::CommandRegistry;
use dhara_tool::gui::{update, CommandForm, FormValue, GuiAction, GuiMessage, GuiState};
use dhara_tool::registry::DharaStorageCapability;

#[derive(Debug, Clone, Copy, PartialEq, Eq)]
enum Tab {
    Output,
    History,
}

fn registry() -> CommandRegistry {
    let mut registry = CommandRegistry::new();
    DharaStorageCapability.register(&mut registry);
    registry
}

fn state() -> GuiState<Tab> {
    GuiState {
        main_tab: Tab::Output,
        selected_history_index: None,
        forms: vec![
            CommandForm {
                command_id: "version.bump".to_string(),
                values: vec![FormValue::Select(1)],
            },
            CommandForm {
                command_id: "release.run".to_string(),
                values: vec![
                    FormValue::Select(0),
                    FormValue::Text(String::new()),
                    FormValue::Text(String::new()),
                    FormValue::Boolean(false),
                ],
            },
        ],
    }
}

fn select_value(state: &GuiState<Tab>, form: usize, field: usize) -> Option<usize> {
    match &state.forms[form].values[field] {
        FormValue::Select(i) => Some(*i),
        _ => None,
    }
}

#[test]
fn gui_tab_selected_switches_tab_only() {
    let registry = registry();
    let mut s = state();
    let action = update(&mut s, &registry, Tab::History, GuiMessage::TabSelected(Tab::History));
    assert!(matches!(action, GuiAction::Done));
    assert_eq!(s.main_tab, Tab::History);
    assert_eq!(s.selected_history_index, None);
    assert_eq!(s.forms.len(), 2);
}

#[test]
fn gui_history_selected_opens_history_tab() {
    let registry = registry();
    let mut s = state();
    let action = update(&mut s, &registry, Tab::History, GuiMessage::HistorySelected(3));
    assert!(matches!(action, GuiAction::Done));
    assert_eq!(s.main_tab, Tab::History);
    assert_eq!(s.selected_history_index, Some(3));
}

#[test]
fn gui_text_change_updates_matching_field() {
    let registry = registry();
    let mut s = state();
    let message = GuiMessage::FormTextChanged {
        command_id: "release.run".to_string(),
        field_index: 1,
        value: "https://example.invalid/feed".to_string(),
    };
    let action = update(&mut s, &registry, Tab::History, message);
    assert!(matches!(action, GuiAction::Done));
    match &s.forms[1].values[1] {
        FormValue::Text(t) => assert_eq!(t, "https://example.invalid/feed"),
        other => panic!("unexpected value {:?}", other),
    }
    assert_eq!(s.main_tab, Tab::Output);
}

#[test]
fn gui_text_change_on_boolean_field_is_ignored() {
    let registry = registry();
    let mut s = state();
    let message = GuiMessage::FormTextChanged {
        command_id: "release.run".to_string(),
        field_index: 3,
        value: "yes".to_string(),
    };
    update(&mut s, &registry, Tab::History, message);
    assert!(matches!(s.forms[1].values[3], FormValue::Boolean(false)));
}

#[test]
fn gui_boolean_change_updates_and_missing_form_is_ignored() {
    let registry = registry();
    let mut s = state();
    update(
        &mut s,
        &registry,
        Tab::History,
        GuiMessage::FormBooleanChanged { command_id: "release.run".to_string(), field_index: 3, value: true },
    );
    assert!(matches!(s.forms[1].values[3], FormValue::Boolean(true)));
    update(
        &mut s,
        &registry,
        Tab::History,
        GuiMessage::FormBooleanChanged { command_id: "config.show".to_string(), field_index: 0, value: true },
    );
    assert_eq!(s.forms.len(), 2);
    assert!(matches!(s.forms[1].values[3], FormValue::Boolean(true)));
}

#[test]
fn gui_select_change_takes_option_position() {
    let registry = registry();
    let mut s = state();
    update(
        &mut s,
        &registry,
        Tab::History,
        GuiMessage::FormSelectChanged { command_id: "version.bump".to_string(), field_index: 0, value: "patch".to_string() },
    );
    assert_eq!(select_value(&s, 0, 0), Some(2));
    update(
        &mut s,
        &registry,
        Tab::History,
        GuiMessage::FormSelectChanged { command_id: "version.bump".to_string(), field_index: 0, value: "huge".to_string() },
    );
    assert_eq!(select_value(&s, 0, 0), Some(0));
}

#[test]
fn gui_select_change_on_non_select_field_is_ignored() {
    let registry = registry();
    let mut s = state();
    update(
        &mut s,
        &registry,
        Tab::History,
        GuiMessage::FormSelectChanged { command_id: "release.run".to_string(), field_index: 1, value: "Release".to_string() },
    );
    assert!(matches!(&s.forms[1].values[1], FormValue::Text(t) if t.is_empty()));
}

#[test]
fn gui_other_messages_become_actions() {
    let registry = registry();
    let mut s = state();
    match update(&mut s, &registry, Tab::History, GuiMessage::CommandSelected("config.show".to_string())) {
        GuiAction::SelectCommand(id) => assert_eq!(id, "config.show"),
        other => panic!("unexpected action {:?}", other),
    }
    match update(&mut s, &registry, Tab::History, GuiMessage::TreeToggleExpand("section:config".to_string())) {
        GuiAction::ToggleExpanded(key) => assert_eq!(key, "section:config"),
        other => panic!("unexpected action {:?}", other),
    }
    assert!(matches!(update(&mut s, &registry, Tab::History, GuiMessage::RunPressed), GuiAction::RunSelected));
    assert!(matches!(update(&mut s, &registry, Tab::History, GuiMessage::CancelPressed), GuiAction::CancelActive));
    assert!(matches!(update(&mut s, &registry, Tab::History, GuiMessage::ResetFormPressed), GuiAction::ResetSelectedForm));
    assert!(matches!(update(&mut s, &registry, Tab::History, GuiMessage::Tick), GuiAction::PollActiveRun));
    assert!(matches!(update(&mut s, &registry, Tab::History, GuiMessage::ActivationConfirm), GuiAction::ConfirmActivation));
    assert!(matches!(update(&mut s, &registry, Tab::History, GuiMessage::ActivationDecline), GuiAction::DeclineActivation));
    assert_eq!(s.main_tab, Tab::Output);
    assert_eq!(s.selected_history_index, None);
}

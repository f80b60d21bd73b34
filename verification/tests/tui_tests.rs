use dhara_tool::tui::{
    clamp_horizontal_scroll, clip_line, cycle_form_field, focus_panel_at_pointer, footer_hints,
    format_status_line, point_in_rect, status_tone, tab_from_index, FooterInputs, MainTab,
    ProgressSnapshot, Rect, StatusTone, TuiFocus, ValidationTone,
};

#[test]
fn pointer_focus_prefers_action_panel() {
    let tree = Rect { x: 0, y: 0, width: 10, height: 10 };
    let center = Rect { x: 10, y: 0, width: 10, height: 10 };
    let action = Rect { x: 10, y: 8, width: 10, height: 2 };
    assert_eq!(focus_panel_at_pointer(tree, center, action, 12, 9), Some(TuiFocus::ActionRun));
    assert_eq!(focus_panel_at_pointer(tree, center, action, 12, 1), Some(TuiFocus::TabContent));
    assert_eq!(focus_panel_at_pointer(tree, center, action, 2, 2), Some(TuiFocus::TaskTree));
    assert_eq!(focus_panel_at_pointer(tree, center, action, 30, 2), None);
    assert!(!point_in_rect(Rect { x: 0, y: 0, width: 0, height: 5 }, 0, 0));
}

#[test]
fn tabs_and_form_cursor() {
    assert_eq!(tab_from_index(2), MainTab::Troubleshooting);
    assert_eq!(tab_from_index(9), MainTab::Info);
    let mut field = 0usize;
    cycle_form_field(3, &mut field, -1);
    assert_eq!(field, 2);
    cycle_form_field(3, &mut field, 1);
    assert_eq!(field, 0);
    cycle_form_field(0, &mut field, 5);
    assert_eq!(field, 0);
    let mut h = 9u16;
    clamp_horizontal_scroll(&mut h, 4);
    assert_eq!(h, 4);
}

#[test]
fn footer_hints_follow_focus() {
    let base = FooterInputs {
        repo_setup: false,
        activation_prompt: false,
        running: false,
        cancelable: false,
        focus: None,
        main_tab: MainTab::Info,
        editing_form: false,
    };
    assert_eq!(footer_hints(&base), vec![("Tab", "focus"), ("q", "quit")]);
    let tree = FooterInputs { focus: Some(TuiFocus::TaskTree), ..base };
    assert_eq!(footer_hints(&tree).last(), Some(&("q", "quit")));
    let running = FooterInputs { focus: Some(TuiFocus::ActionRun), running: true, cancelable: true, ..base };
    assert_eq!(footer_hints(&running), vec![("Enter", "activate"), ("Click", "button"), ("c", "cancel"), ("Tab", "next panel"), ("c", "cancel")]);
    let setup = FooterInputs { repo_setup: true, ..base };
    assert_eq!(footer_hints(&setup)[0], ("Type", "path"));
}

#[test]
fn status_line_prefers_progress() {
    let snap = ProgressSnapshot {
        analyzing: false,
        analyzing_message: String::new(),
        step_label: "Packing\u{2026}".to_owned(),
        activity_label: String::new(),
        elapsed_secs: Some(4),
    };
    assert_eq!(format_status_line(&Some(snap), "idle"), "Packing\u{2026} (4s)");
    assert_eq!(format_status_line(&None, "idle"), "idle");
    assert_eq!(status_tone(StatusTone::Failed), ValidationTone::Error);
    assert_eq!(status_tone(StatusTone::Warning), ValidationTone::Muted);
}

#[test]
fn lines_are_clipped_to_columns() {
    assert_eq!(clip_line("abcdef", 3, 1), "bcd");
    assert_eq!(clip_line("abc", 0, 0), "");
    assert_eq!(clip_line("ab\u{4E00}c", 3, 0), "ab");
    assert_eq!(clip_line("abc", 5, 10), "");
}

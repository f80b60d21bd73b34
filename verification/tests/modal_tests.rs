use dhara_tool::tui::{auto_scroll_selection, handle_tree_wheel, TreeWheelState, WheelEvent};
use dhara_tool::tui::{
    apply_tree_selection, handle_tree_key, tree_row_at_pointer, ActiveModal, DialogAction,
    ModalHost, ModalOutcome, Rect, TaskTreeData, TreeKey, TreeKeyAction, TreeMove, TreeSelection,
};

#[test]
fn modal_show_and_hide_release_the_input() {
    let mut host = ModalHost::new();
    assert!(!host.is_blocking());
    assert!(host.footer_hints().is_none());
    host.show_activation();
    assert!(host.is_blocking());
    assert_eq!(host.active, Some(ActiveModal::Activation));
    assert_eq!(
        host.footer_hints().unwrap(),
        vec![("Enter/Y", "apply"), ("Esc/N", "decline"), ("Click", "button")]
    );
    host.hide_repository();
    assert_eq!(host.active, Some(ActiveModal::Activation));
    host.hide_activation();
    assert!(!host.is_blocking());
    host.show_repository(Some("C:/work".to_owned()));
    assert_eq!(host.repo_path, "C:/work");
    assert_eq!(
        host.footer_hints().unwrap(),
        vec![("Type", "workspace path"), ("Enter/OK", "confirm"), ("Esc/Cancel", "quit")]
    );
    host.hide_repository();
    assert!(!host.is_blocking());
}

#[test]
fn repository_prompt_outcomes() {
    let mut host = ModalHost::new();
    host.show_repository(Some("   ".to_owned()));
    assert!(matches!(host.map_repo_action(DialogAction::Submit), Some(ModalOutcome::RepositoryPathRequired)));
    host.show_repository(Some("  /srv/repo \n".to_owned()));
    assert!(matches!(
        host.map_repo_action(DialogAction::Submit),
        Some(ModalOutcome::RepositoryResolved(p)) if p == "/srv/repo"
    ));
    assert!(host.is_blocking());
    assert!(host.map_repo_action(DialogAction::Other).is_none());
    assert!(matches!(host.map_repo_action(DialogAction::Close), Some(ModalOutcome::RepositoryCancelled)));
    assert!(!host.is_blocking());
    assert!(!host.repo_visible);
}

#[test]
fn activation_prompt_outcomes() {
    let mut host = ModalHost::new();
    host.show_activation();
    assert!(matches!(host.map_activation_action(DialogAction::Submit), Some(ModalOutcome::ActivationConfirmed)));
    assert!(!host.is_blocking());
    host.show_activation();
    assert!(host.map_activation_action(DialogAction::Other).is_none());
    assert!(host.is_blocking());
    assert!(matches!(host.map_activation_action(DialogAction::Close), Some(ModalOutcome::ActivationDeclined)));
    assert!(!host.activation_visible);
}

#[test]
fn tree_keys() {
    let up = handle_tree_key(TreeKey::Up, 5, 0, 3, true);
    assert_eq!(up.action, TreeKeyAction::SelectionChanged);
    assert_eq!(up.movement, TreeMove::Previous);
    assert!(up.follow_selection);
    assert_eq!(handle_tree_key(TreeKey::End, 5, 0, 3, true).movement, TreeMove::Row(4));
    assert_eq!(handle_tree_key(TreeKey::End, 0, 0, 3, true).movement, TreeMove::Stay);
    assert_eq!(handle_tree_key(TreeKey::Home, 5, 0, 3, true).movement, TreeMove::Row(0));
    let back = handle_tree_key(TreeKey::Left, 5, 2, 3, true);
    assert_eq!((back.action, back.h_scroll, back.follow_selection), (TreeKeyAction::Scrolled, 1, false));
    let collapse = handle_tree_key(TreeKey::Left, 5, 0, 3, true);
    assert_eq!((collapse.action, collapse.movement), (TreeKeyAction::Toggled, TreeMove::CollapseSelected));
    let on = handle_tree_key(TreeKey::Right, 5, 2, 3, true);
    assert_eq!((on.action, on.h_scroll), (TreeKeyAction::Scrolled, 3));
    let expand = handle_tree_key(TreeKey::Right, 5, 3, 3, true);
    assert_eq!((expand.action, expand.movement), (TreeKeyAction::Toggled, TreeMove::ExpandSelected));
    assert_eq!(handle_tree_key(TreeKey::Right, 5, 3, 3, false).action, TreeKeyAction::Unhandled);
    assert_eq!(handle_tree_key(TreeKey::Space, 5, 0, 3, true).action, TreeKeyAction::Activate);
    assert_eq!(handle_tree_key(TreeKey::Other, 5, 0, 3, true).action, TreeKeyAction::Unhandled);
}

#[test]
fn tree_clicks_select_a_visible_row() {
    let inner = Rect { x: 2, y: 3, width: 10, height: 5 };
    assert_eq!(tree_row_at_pointer(inner, 4, 5, 0, 8), Some(2));
    assert_eq!(tree_row_at_pointer(inner, 4, 7, 6, 8), Some(7));
    assert_eq!(tree_row_at_pointer(inner, 1, 5, 0, 8), None);
    assert_eq!(tree_row_at_pointer(inner, 4, 5, 0, 0), None);
}

#[test]
fn tree_selection_toggles_or_selects() {
    let group = TaskTreeData {
        label: "Config".to_owned(),
        path_key: "config".to_owned(),
        command_id: None,
        has_children: true,
    };
    assert!(matches!(apply_tree_selection(&group), TreeSelection::ToggleExpanded(k) if k == "config"));
    let leaf = TaskTreeData {
        label: "Show".to_owned(),
        path_key: "config/show".to_owned(),
        command_id: Some("config.show".to_owned()),
        has_children: false,
    };
    assert!(matches!(apply_tree_selection(&leaf), TreeSelection::SelectCommand(c) if c == "config.show"));
    let bare = TaskTreeData { command_id: None, ..leaf };
    assert!(matches!(apply_tree_selection(&bare), TreeSelection::Nothing));
}

#[test]
fn auto_scroll_brings_the_label_into_view() {
    let mut h: u16 = 0;
    auto_scroll_selection(&mut h, 30, 20, 4, 30);
    assert_eq!(h, 14);
    let mut h: u16 = 10;
    auto_scroll_selection(&mut h, 30, 20, 2, 5);
    assert_eq!(h, 2);
    let mut h: u16 = 50;
    auto_scroll_selection(&mut h, 8, 20, 4, 6);
    assert_eq!(h, 4);
    let mut h: u16 = 3;
    auto_scroll_selection(&mut h, 5, 10, 4, 40);
    assert_eq!(h, 5);
}

#[test]
fn wheel_scrolls_rows_then_moves_selection() {
    let inner = Rect { x: 0, y: 0, width: 10, height: 3 };
    let s = TreeWheelState { h_scroll: 0, scroll: 0, selected: 0 };
    assert_eq!(handle_tree_wheel(inner, 20, 1, 5, WheelEvent::Down, false, s), None);
    assert_eq!(handle_tree_wheel(inner, 1, 1, 0, WheelEvent::Down, false, s), None);
    assert_eq!(handle_tree_wheel(inner, 1, 1, 5, WheelEvent::Other, false, s), None);
    let down = handle_tree_wheel(inner, 1, 1, 5, WheelEvent::Down, false, s).unwrap();
    assert_eq!(down, TreeWheelState { h_scroll: 0, scroll: 1, selected: 0 });
    let at_bottom = TreeWheelState { h_scroll: 0, scroll: 2, selected: 3 };
    assert_eq!(handle_tree_wheel(inner, 1, 1, 5, WheelEvent::Down, false, at_bottom).unwrap().selected, 4);
    let last = TreeWheelState { h_scroll: 0, scroll: 2, selected: 4 };
    assert_eq!(handle_tree_wheel(inner, 1, 1, 5, WheelEvent::Down, false, last), Some(last));
    let up = handle_tree_wheel(inner, 1, 1, 5, WheelEvent::Up, false, at_bottom).unwrap();
    assert_eq!(up.scroll, 1);
    let top = TreeWheelState { h_scroll: 0, scroll: 0, selected: 2 };
    assert_eq!(handle_tree_wheel(inner, 1, 1, 5, WheelEvent::Up, false, top).unwrap().selected, 1);
    assert_eq!(handle_tree_wheel(inner, 1, 1, 5, WheelEvent::Up, true, s).unwrap().h_scroll, 0);
    assert_eq!(handle_tree_wheel(inner, 1, 1, 5, WheelEvent::Down, true, s).unwrap().h_scroll, 1);
}

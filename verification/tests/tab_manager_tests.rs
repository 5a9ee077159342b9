use cmux::layout::SplitOrientation;
use cmux::tab_manager::TabManager;
use cmux::workspace::Workspace;

fn new_id() -> u128 {
    uuid::Uuid::new_v4().as_u128()
}

const HOME: &str = "/home/tester";

fn focused_panel(tm: &TabManager) -> cmux::ids::Id {
    tm.selected()
        .and_then(|workspace| workspace.focused_panel_id)
        .expect("workspace should have a focused panel")
}

#[test]
fn close_panel_removes_last_workspace() {
    let mut tm = TabManager::new(HOME);
    let panel_id = focused_panel(&tm);

    assert!(tm.close_panel(panel_id));
    assert!(tm.is_empty());
}

#[test]
fn close_panel_returns_false_for_unknown_panel() {
    let mut tm = TabManager::new(HOME);
    assert!(!tm.close_panel(new_id()));
}

#[test]
fn update_panel_title_updates_focused_workspace_process_title() {
    let mut tm = TabManager::new(HOME);
    let panel_id = focused_panel(&tm);

    assert!(tm.set_panel_title(panel_id, "bash"));

    let workspace = tm.selected().expect("workspace should exist");
    let panel = workspace.panel(panel_id).expect("panel should exist");
    assert_eq!(panel.title.as_deref(), Some("bash"));
    assert_eq!(workspace.process_title, "bash");
}

#[test]
fn update_panel_pwd_updates_focused_workspace_directory() {
    let mut tm = TabManager::new(HOME);
    let panel_id = focused_panel(&tm);

    assert!(tm.set_panel_directory(panel_id, "/tmp/cmux-linux"));

    let workspace = tm.selected().expect("workspace should exist");
    let panel = workspace.panel(panel_id).expect("panel should exist");
    assert_eq!(panel.directory.as_deref(), Some("/tmp/cmux-linux"));
    assert_eq!(workspace.current_directory, "/tmp/cmux-linux");
}

#[test]
fn update_panel_title_recovers_stale_workspace_title() {
    let mut tm = TabManager::new(HOME);
    let panel_id = {
        let workspace = tm.selected_mut().unwrap();
        let panel_id = workspace.focused_panel_id.unwrap();
        workspace.panel_mut(panel_id).unwrap().title = Some("bash".into());
        workspace.process_title = "stale".into();
        panel_id
    };

    assert!(tm.set_panel_title(panel_id, "bash"));

    let workspace = tm.selected().unwrap();
    assert_eq!(workspace.process_title, "bash");
}

#[test]
fn closing_one_of_two_panels_keeps_the_workspace() {
    let mut tm = TabManager::new(HOME);
    let first = focused_panel(&tm);
    let second = tm.selected_mut().unwrap().split(SplitOrientation::Horizontal);
    assert!(tm.close_panel(second));
    assert_eq!(tm.len(), 1);
    assert_eq!(tm.selected().unwrap().focused_panel_id, Some(first));
}

#[test]
fn next_then_previous_returns_to_the_same_workspace() {
    let mut tm = TabManager::new(HOME);
    tm.add_workspace(Workspace::new(HOME));
    tm.add_workspace(Workspace::new(HOME));
    assert!(tm.select(1));
    let start = tm.selected_id();
    tm.select_next(true);
    assert_eq!(tm.selected_index(), Some(2));
    tm.select_previous(true);
    assert_eq!(tm.selected_id(), start);
    // Wrapping from the last goes to the first.
    tm.select_last();
    tm.select_next(true);
    assert_eq!(tm.selected_index(), Some(0));
    // Without wrapping the first stays selected.
    tm.select_previous(false);
    assert_eq!(tm.selected_index(), Some(0));
}

#[test]
fn removing_the_selected_workspace_selects_a_neighbour() {
    let mut tm = TabManager::new(HOME);
    let second = tm.add_workspace(Workspace::new(HOME));
    let removed = tm.remove_by_id(second).expect("workspace should be removed");
    assert_eq!(removed.id, second);
    assert_eq!(tm.len(), 1);
    assert_eq!(tm.selected_index(), Some(0));
    assert!(tm.remove_by_id(new_id()).is_none());
}

#[test]
fn latest_unread_picks_the_newest_notification() {
    let mut tm = TabManager::new(HOME);
    let first = tm.selected_id().unwrap();
    let second = tm.add_workspace(Workspace::new(HOME));
    tm.workspace_mut(first).unwrap().record_notification("a", "old", None);
    tm.workspace_mut(second).unwrap().record_notification("b", "new", None);
    tm.workspace_mut(first).unwrap().latest_notification_at = Some(1);
    tm.workspace_mut(second).unwrap().latest_notification_at = Some(2);
    assert!(tm.select(0));
    assert_eq!(tm.select_latest_unread(), Some(second));
    assert_eq!(tm.selected_id(), Some(second));
}

#[test]
fn new_tab_manager_holds_one_fresh_workspace() {
    let tm = TabManager::new("/home/fresh");
    assert_eq!(tm.len(), 1);
    let ws = tm.selected().unwrap();
    assert_eq!(ws.home_directory, "/home/fresh");
    assert_eq!(ws.current_directory, "/home/fresh");
    assert_eq!(ws.unread_count, 0);
    assert_eq!(ws.panels.len(), 1);
    let focused = ws.focused_panel_id.unwrap();
    assert!(ws.panels.contains_key(&focused));
    assert!(ws.attention_panel_id.is_none());
    assert!(!ws.is_pinned);
}

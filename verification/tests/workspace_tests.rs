use cmux::layout::{FocusDirection, LayoutNode, SplitOrientation};
use cmux::panel::{MetadataBlock, MetadataFormat, MetadataItem, Panel, ShellActivityState};
use cmux::text::truncate_str;
use cmux::workspace::{notification_summary, truncate_for_sidebar, Workspace};

fn new_id() -> u128 {
    uuid::Uuid::new_v4().as_u128()
}

const HOME: &str = "/home/tester";

fn item(key: &str, label: &str, value: &str, priority: i32, timestamp: u64) -> MetadataItem {
    MetadataItem {
        key: key.into(),
        label: label.into(),
        value: value.into(),
        icon: None,
        color: None,
        url: None,
        priority,
        format: MetadataFormat::Plain,
        timestamp,
    }
}

fn block(key: &str, title: &str, content: &str, priority: i32, timestamp: u64) -> MetadataBlock {
    MetadataBlock {
        key: key.into(),
        title: Some(title.into()),
        content: content.into(),
        style: None,
        priority,
        format: MetadataFormat::Markdown,
        timestamp,
    }
}

#[test]
fn test_new_workspace() {
    let ws = Workspace::new(HOME);
    assert_eq!(ws.panels.len(), 1);
    assert!(ws.focused_panel_id.is_some());
    assert!(ws.focused_pane_id.is_some());
    assert_eq!(ws.display_title(), "Terminal");
    let panel_id = ws.focused_panel_id.expect("workspace should have a panel");
    assert_eq!(ws.current_directory, HOME);
    assert_eq!(
        ws.panels.get(&panel_id).and_then(|panel| panel.directory.as_deref()),
        Some(ws.current_directory.as_str())
    );
}

#[test]
fn test_split_workspace() {
    let mut ws = Workspace::new(HOME);
    let original_directory = ws.current_directory.clone();
    let new_id = ws.split(SplitOrientation::Horizontal);
    assert_eq!(ws.panels.len(), 2);
    assert_eq!(ws.focused_panel_id, Some(new_id));
    assert_eq!(ws.focused_pane_id, ws.layout.find_pane_id_with_panel(new_id));
    assert_eq!(
        ws.panels.get(&new_id).and_then(|panel| panel.directory.as_deref()),
        Some(original_directory.as_str())
    );
    assert_eq!(ws.current_directory, original_directory);
}

#[test]
fn test_with_directory_updates_initial_terminal_panel() {
    let ws = Workspace::with_directory(HOME, "/tmp/cmux-test");
    let panel_id = ws.focused_panel_id.expect("workspace should have a panel");
    assert_eq!(ws.current_directory, "/tmp/cmux-test");
    assert_eq!(
        ws.panels.get(&panel_id).and_then(|panel| panel.directory.as_deref()),
        Some("/tmp/cmux-test")
    );
}

#[test]
fn test_remove_panel() {
    let mut ws = Workspace::new(HOME);
    let new_id = ws.split(SplitOrientation::Horizontal);
    assert!(ws.remove_panel(new_id));
    assert_eq!(ws.panels.len(), 1);
}

#[test]
fn test_status_entries() {
    let mut ws = Workspace::new(HOME);
    ws.set_status("agent", "build-bot", Some("robot"), None);
    assert_eq!(ws.status_entries.len(), 1);
    ws.set_status("agent", "build-bot v2", None, None);
    assert_eq!(ws.status_entries.len(), 1);
    assert_eq!(ws.status_entries[0].value, "build-bot v2");
}

#[test]
fn test_status_entry_eviction_preserves_remaining_order() {
    let mut ws = Workspace::new(HOME);

    for i in 0..100 {
        ws.set_status(&format!("key-{i}"), &format!("value-{i}"), None, None);
    }

    ws.set_status("key-100", "value-100", None, None);

    assert_eq!(ws.status_entries.len(), 100);
    assert_eq!(ws.status_entries.first().map(|entry| entry.key.as_str()), Some("key-1"));
    assert_eq!(ws.status_entries.last().map(|entry| entry.key.as_str()), Some("key-100"));
}

#[test]
fn test_record_notification_updates_unread_and_summary() {
    let mut ws = Workspace::new(HOME);
    let panel_id = ws.focused_panel_id;
    ws.record_notification("Codex", "Waiting for input", panel_id);

    assert_eq!(ws.unread_count, 1);
    assert_eq!(ws.latest_notification.as_deref(), Some("Codex: Waiting for input"));
    assert_eq!(ws.attention_panel_id, panel_id);
    assert!(ws.latest_notification_at.is_some());
}

#[test]
fn test_record_notification_does_not_steal_focus() {
    let mut ws = Workspace::new(HOME);
    let original_focus = ws.focused_panel_id.expect("workspace should have a focused panel");
    let other_panel_id = ws.split(SplitOrientation::Horizontal);
    assert_eq!(ws.focused_panel_id, Some(other_panel_id));

    ws.focus_panel(original_focus);
    ws.record_notification("Codex", "Waiting for input", Some(other_panel_id));

    assert_eq!(ws.focused_panel_id, Some(original_focus));
    assert_eq!(ws.attention_panel_id, Some(other_panel_id));
}

#[test]
fn test_mark_notifications_read_clears_unread_count() {
    let mut ws = Workspace::new(HOME);
    ws.record_notification("Builder", "Approval needed", None);
    assert_eq!(ws.unread_count, 1);

    ws.mark_notifications_read();
    assert_eq!(ws.unread_count, 0);
}

#[test]
fn test_split_falls_back_to_root_when_focused_panel_is_stale() {
    let mut ws = Workspace::new(HOME);
    ws.focused_panel_id = Some(new_id());

    let new_id = ws.split(SplitOrientation::Horizontal);

    assert_eq!(ws.focused_panel_id, Some(new_id));
    assert!(ws.layout.all_panel_ids().contains(&new_id));
}

#[test]
fn test_focus_next_surface_cycles_selected_surface_in_focused_pane() {
    let mut ws = Workspace::new(HOME);
    let first_id = ws.focused_panel_id.unwrap();
    let second_id = ws.split(SplitOrientation::Horizontal);
    assert!(ws.focus_panel(first_id));
    let first_pane_id = ws.layout.find_pane_id_with_panel(first_id).unwrap();
    let second_pane_id = ws.layout.find_pane_id_with_panel(second_id).unwrap();
    assert_ne!(first_pane_id, second_pane_id);

    let third = Panel::new();
    let third_id = third.id;
    ws.panels.insert(third_id, third);
    let pane_id = ws.layout.find_pane_id_with_panel(first_id).unwrap();
    let pane = ws.layout.find_pane_mut(pane_id).unwrap();
    pane.panel_ids.push(third_id);
    pane.selected_panel_id = Some(first_id);
    ws.focused_pane_id = Some(pane_id);
    ws.focused_panel_id = Some(first_id);

    assert_eq!(ws.focus_next_surface(), Some(third_id));
    assert_eq!(ws.focus_previous_surface(), Some(first_id));
}

#[test]
fn test_move_focus_selects_neighboring_pane() {
    let mut ws = Workspace::new(HOME);
    let left = ws.focused_panel_id.unwrap();
    let right = ws.split(SplitOrientation::Horizontal);
    assert!(ws.focus_panel(left));

    assert_eq!(ws.move_focus(FocusDirection::Right), Some(right));
    assert_eq!(ws.move_focus(FocusDirection::Left), Some(left));
}

#[test]
fn test_rename_clears_empty_custom_title() {
    let mut ws = Workspace::new(HOME);
    assert!(ws.rename(Some("Build")));
    assert_eq!(ws.custom_title.as_deref(), Some("Build"));
    assert!(ws.rename(Some("")));
    assert_eq!(ws.custom_title, None);
}

#[test]
fn test_focus_panel_does_not_update_focus_when_layout_select_fails() {
    let mut ws = Workspace::new(HOME);
    let original_focus = ws.focused_panel_id;
    let panel_id = original_focus.expect("workspace should have a focused panel");

    ws.layout = LayoutNode::single_pane(new_id());

    assert!(!ws.focus_panel(panel_id));
    assert_eq!(ws.focused_panel_id, original_focus);
}

#[test]
fn test_remove_focused_panel_syncs_workspace_metadata_to_remaining_panel() {
    let mut ws = Workspace::new(HOME);
    let original_panel_id = ws.focused_panel_id.unwrap();
    {
        let original_panel = ws.panel_mut(original_panel_id).unwrap();
        original_panel.title = Some("shell".into());
        original_panel.directory = Some("/tmp/one".into());
    }
    assert!(ws.focus_panel(original_panel_id));

    let second_panel_id = ws.split(SplitOrientation::Horizontal);
    assert!(ws.set_panel_title(second_panel_id, "editor"));
    assert!(ws.set_panel_directory(second_panel_id, "/tmp/two"));
    assert_eq!(ws.process_title, "editor");
    assert_eq!(ws.current_directory, "/tmp/two");

    assert!(ws.remove_panel(second_panel_id));
    assert_eq!(ws.focused_panel_id, Some(original_panel_id));
    assert_eq!(ws.process_title, "shell");
    assert_eq!(ws.current_directory, "/tmp/one");
}

#[test]
fn test_set_panel_title_and_directory_sync_focused_workspace_metadata() {
    let mut ws = Workspace::new(HOME);
    let panel_id = ws.focused_panel_id.unwrap();

    assert!(ws.set_panel_title(panel_id, "bash"));
    assert!(ws.set_panel_directory(panel_id, "/tmp/cmux"));

    assert_eq!(ws.process_title, "bash");
    assert_eq!(ws.current_directory, "/tmp/cmux");
}

#[test]
fn test_recompute_workspace_metadata_prefers_focused_panel_family_values() {
    let mut ws = Workspace::new(HOME);
    let first = ws.focused_panel_id.unwrap();
    let second = ws.split(SplitOrientation::Horizontal);

    assert!(ws.set_panel_git_branch(first, "main", false));
    assert!(ws.set_panel_git_branch(second, "feature/linux", true));
    assert!(ws.set_panel_shell_state(first, ShellActivityState::Prompt, None));
    assert!(ws.set_panel_shell_state(second, ShellActivityState::Running, Some("cargo test")));

    assert_eq!(ws.git_branch.as_ref().map(|branch| branch.branch.as_str()), Some("feature/linux"));
    assert_eq!(ws.shell_state.as_ref().map(|state| &state.state), Some(&ShellActivityState::Running));

    assert!(ws.focus_panel(first));
    assert_eq!(ws.git_branch.as_ref().map(|branch| branch.branch.as_str()), Some("main"));
    assert_eq!(ws.shell_state.as_ref().map(|state| &state.state), Some(&ShellActivityState::Prompt));
}

#[test]
fn test_metadata_items_and_blocks_sort_by_priority_then_timestamp() {
    let mut ws = Workspace::new(HOME);
    let panel_id = ws.focused_panel_id.unwrap();

    assert!(ws.upsert_panel_metadata_item(panel_id, item("low", "Low", "one", 1, 1_000_000)));
    assert!(ws.upsert_panel_metadata_item(panel_id, item("high", "High", "two", 10, 500_000)));
    assert_eq!(ws.metadata_items.first().map(|item| item.key.as_str()), Some("high"));

    assert!(ws.upsert_panel_metadata_block(panel_id, block("older", "Older", "hello", 0, 2_000_000)));
    assert!(ws.upsert_panel_metadata_block(panel_id, block("newer", "Newer", "world", 0, 3_000_000)));
    assert_eq!(ws.metadata_blocks.first().map(|block| block.key.as_str()), Some("newer"));
}

#[test]
fn test_clearing_focused_panel_metadata_falls_back_to_other_panel() {
    let mut ws = Workspace::new(HOME);
    let first = ws.focused_panel_id.unwrap();
    let second = ws.split(SplitOrientation::Horizontal);

    assert!(ws.set_panel_tty(first, "pts/1"));
    assert!(ws.set_panel_tty(second, "pts/2"));
    assert_eq!(ws.tty_name.as_deref(), Some("pts/2"));

    assert!(ws.focus_panel(first));
    assert_eq!(ws.tty_name.as_deref(), Some("pts/1"));

    assert!(ws.set_panel_ports(first, vec![8080]));
    assert!(ws.set_panel_ports(second, vec![3000, 3001]));
    assert_eq!(ws.listening_ports, vec![8080]);

    assert!(ws.clear_panel_ports(first));
    assert_eq!(ws.listening_ports, vec![3000, 3001]);
}

#[test]
fn truncate_str_cuts_at_character_boundaries() {
    assert_eq!(truncate_str("héllo", 2), "h");
    assert_eq!(truncate_str("héllo", 3), "hé");
}

#[test]
fn notification_summary_joins_title_and_body() {
    assert_eq!(notification_summary("Codex", "Waiting"), "Codex: Waiting");
    assert_eq!(notification_summary("", "Body only"), "Body only");
    assert_eq!(notification_summary("Title only", "  "), "Title only");
    assert_eq!(notification_summary("Same", " Same "), "Same");
    assert_eq!(notification_summary("a\n b", "c"), "a b: c");
    assert_eq!(notification_summary("", ""), "Notification");
}

#[test]
fn sidebar_truncation_adds_an_ellipsis() {
    assert_eq!(truncate_for_sidebar("abc", 5), "abc");
    assert_eq!(truncate_for_sidebar("abcdefgh", 5), "abcde...");
}

#[test]
fn repeated_set_is_reported_unchanged() {
    let mut ws = Workspace::new(HOME);
    let panel_id = ws.focused_panel_id.unwrap();
    assert!(ws.set_panel_title(panel_id, "bash"));
    assert!(!ws.set_panel_title(panel_id, "bash"));
    assert!(!ws.set_panel_title(new_id(), "bash"));
}

#[test]
fn split_adds_exactly_the_new_panel() {
    let mut ws = Workspace::new(HOME);
    let first = ws.focused_panel_id.unwrap();
    let second = ws.split(SplitOrientation::Vertical);
    assert_eq!(ws.layout.all_panel_ids(), vec![first, second]);
}

#[test]
fn log_keeps_newest_entries() {
    let mut ws = Workspace::new(HOME);
    for i in 0..1001 {
        ws.append_log(&format!("m{i}"), "info", None);
    }
    assert!(ws.log_entries.len() <= 1000);
    assert_eq!(ws.log_entries.last().map(|e| e.message.as_str()), Some("m1000"));
}

#[test]
fn focused_panel_directory_wins_over_later_reports_elsewhere() {
    let mut ws = Workspace::new(HOME);
    let first = ws.focused_panel_id.unwrap();
    let second = ws.split(SplitOrientation::Horizontal);
    assert!(ws.focus_panel(second));

    ws.set_panel_directory(second, "/tmp/focused");
    assert_eq!(ws.current_directory, "/tmp/focused");

    ws.set_panel_directory(first, "/tmp/elsewhere");
    assert_eq!(ws.current_directory, "/tmp/focused");
}

fn three_tab_workspace() -> (Workspace, u128, u128, u128, u128) {
    let mut ws = Workspace::new(HOME);
    let first = ws.focused_panel_id.unwrap();
    let pane_id = ws.focused_pane_id.unwrap();
    let second = Panel::new();
    let second_id = second.id;
    ws.panels.insert(second_id, second);
    let third = Panel::new();
    let third_id = third.id;
    ws.panels.insert(third_id, third);
    let pane = ws.layout.find_pane_mut(pane_id).unwrap();
    pane.panel_ids.push(second_id);
    pane.panel_ids.push(third_id);
    pane.selected_panel_id = Some(first);
    (ws, pane_id, first, second_id, third_id)
}

#[test]
fn focus_surface_in_other_pane_focuses_that_pane() {
    let (mut ws, pane_id, first, _second, third) = three_tab_workspace();
    let other_panel = ws.split(SplitOrientation::Horizontal);
    let other_pane = ws.layout.find_pane_id_with_panel(other_panel).unwrap();
    assert_eq!(ws.focused_pane_id, Some(other_pane));

    assert_eq!(ws.focus_previous_surface_in_pane(pane_id), Some(third));
    assert_eq!(ws.focused_pane_id, Some(pane_id));
    assert_eq!(ws.focused_panel_id, Some(third));
    assert_eq!(ws.focus_next_surface_in_pane(pane_id), Some(first));

    assert_eq!(ws.focus_next_surface_in_pane(new_id()), None);
    assert_eq!(ws.focused_panel_id, Some(first));
}

#[test]
fn moving_a_tab_forward_then_back_restores_the_order() {
    let (mut ws, pane_id, first, second, third) = three_tab_workspace();

    assert_eq!(ws.move_surface_forward(second), Some(pane_id));
    assert_eq!(ws.layout.find_pane(pane_id).unwrap().panel_ids, vec![first, third, second]);
    assert_eq!(ws.move_surface_forward(second), None);
    assert_eq!(ws.move_surface_backward(second), Some(pane_id));
    assert_eq!(ws.layout.find_pane(pane_id).unwrap().panel_ids, vec![first, second, third]);
    assert_eq!(ws.move_surface_backward(first), None);
    assert_eq!(ws.focused_panel_id, Some(first));
}

#[test]
fn upserting_an_existing_key_replaces_it_in_place_of_order() {
    let mut ws = Workspace::new(HOME);
    let panel_id = ws.focused_panel_id.unwrap();
    assert!(ws.upsert_panel_metadata_item(panel_id, item("a", "A", "one", 5, 1_000_000)));
    assert!(ws.upsert_panel_metadata_item(panel_id, item("b", "B", "two", 3, 1_000_000)));
    assert!(ws.upsert_panel_metadata_item(panel_id, item("a", "A", "three", 1, 2_000_000)));
    let items = &ws.panel(panel_id).unwrap().metadata_items;
    assert_eq!(items.len(), 2);
    assert_eq!(items[0].key, "b");
    assert_eq!(items[1].key, "a");
    assert_eq!(items[1].value, "three");
}

#[test]
fn next_then_previous_restores_the_pane_selection() {
    let (mut ws, pane_id, first, second, _third) = three_tab_workspace();
    ws.focused_pane_id = Some(pane_id);
    assert_eq!(ws.focus_next_surface(), Some(second));
    assert_eq!(ws.focus_previous_surface(), Some(first));
    assert_eq!(ws.layout.find_pane(pane_id).unwrap().selected_panel_id, Some(first));
    assert_eq!(ws.focused_panel_id, Some(first));
}

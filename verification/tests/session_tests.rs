use cmux::layout::SplitOrientation;
use cmux::panel::{
    MetadataBlock, MetadataFormat, MetadataItem, PullRequestMetadata, PullRequestState,
    ShellActivityState,
};
use cmux::session::{
    capture_snapshot, load_tab_manager, load_tab_manager_from_path, sanitize_workspace,
    snapshot_path, tab_manager_from_snapshot, SessionSnapshotV1, WorkspaceSnapshot,
    SESSION_VERSION,
};
use cmux::layout::LayoutNode;
use cmux::session::{writer_step, WriterAction, WriterEvent, WriterState};
use cmux::tab_manager::TabManager;
use cmux::workspace::Workspace;

fn new_id() -> u128 {
    uuid::Uuid::new_v4().as_u128()
}

const HOME: &str = "/home/tester";

fn task_item() -> MetadataItem {
    MetadataItem {
        key: "task".into(),
        label: "Task".into(),
        value: "review".into(),
        icon: None,
        color: None,
        url: None,
        priority: 2,
        format: MetadataFormat::Plain,
        timestamp: 1_000_000,
    }
}

fn notes_block() -> MetadataBlock {
    MetadataBlock {
        key: "notes".into(),
        title: Some("Notes".into()),
        content: "line one\nline two".into(),
        style: None,
        priority: 1,
        format: MetadataFormat::Markdown,
        timestamp: 2_000_000,
    }
}

#[test]
fn snapshot_round_trip_preserves_selection_and_layout() {
    let mut manager = TabManager::new(HOME);
    {
        let workspace = manager.selected_mut().unwrap();
        let first = workspace.focused_panel_id.unwrap();
        let second = workspace.split(SplitOrientation::Horizontal);
        let _ = workspace.focus_panel(first);
        let _ = workspace.set_panel_title(first, "shell");
        let _ = workspace.set_panel_directory(first, "/tmp/one");
        let _ = workspace.set_panel_title(second, "editor");
        let _ = workspace.set_panel_directory(second, "/tmp/two");
        let _ = workspace.rename(Some("Build"));
        let _ = workspace.set_pinned(true);
    }

    let snapshot = capture_snapshot(&manager);
    let restored = TabManager::from_workspaces(
        snapshot
            .workspaces
            .into_iter()
            .map(|workspace| workspace.into_workspace(HOME))
            .collect(),
        snapshot.selected_workspace_id,
    );
    let workspace = restored.selected().unwrap();
    assert_eq!(workspace.display_title(), "Build");
    assert_eq!(workspace.focused_panel_id, workspace.focused_surface_id());
    assert!(workspace.focused_pane_id.is_some());
    assert_eq!(workspace.panels.len(), 2);
}

#[test]
fn save_and_load_snapshot_round_trip_from_disk() {
    let mut manager = TabManager::new(HOME);
    {
        let workspace = manager.selected_mut().unwrap();
        let first = workspace.focused_panel_id.unwrap();
        let second = workspace.split(SplitOrientation::Vertical);
        let _ = workspace.focus_panel(second);
        let _ = workspace.set_panel_directory(first, "/tmp/one");
        let _ = workspace.set_panel_directory(second, "/tmp/two");
        let _ = workspace.rename(Some("Persisted"));
        let _ = workspace.set_pinned(true);
        let _ = workspace.set_panel_shell_state(second, ShellActivityState::Running, Some("cargo"));
        let _ = workspace.set_panel_pr_metadata(
            second,
            PullRequestMetadata {
                number: Some(828),
                url: Some("https://example.com/pr/828".into()),
                label: "PR".into(),
                title: Some("Linux port".into()),
                state: PullRequestState::Open,
                branch: Some("linux-port".into()),
                checks: None,
            },
        );
        let _ = workspace.upsert_panel_metadata_item(second, task_item());
        let _ = workspace.upsert_panel_metadata_block(second, notes_block());
    }

    manager.add_workspace(Workspace::with_directory(HOME, "/tmp/other"));
    let selected_id = manager.get(0).unwrap().id;
    let _ = manager.select_by_id(selected_id);

    let restored = load_tab_manager_from_path(Ok(capture_snapshot(&manager)), HOME)
        .unwrap()
        .expect("snapshot should restore a session");

    let selected = restored.selected().unwrap();
    assert_eq!(restored.len(), 2);
    assert_eq!(selected.display_title(), "Persisted");
    assert!(selected.is_pinned);
    assert_eq!(selected.panels.len(), 2);
    assert_eq!(selected.shell_state.as_ref().map(|state| &state.state), Some(&ShellActivityState::Running));
    assert_eq!(selected.pr_metadata.as_ref().and_then(|pr| pr.number), Some(828));
    assert_eq!(selected.metadata_items.first().map(|item| item.key.as_str()), Some("task"));
    assert_eq!(selected.metadata_blocks.first().map(|block| block.key.as_str()), Some("notes"));
}

#[test]
fn save_and_load_snapshot_preserves_cleared_metadata_as_absent() {
    let mut manager = TabManager::new(HOME);
    {
        let workspace = manager.selected_mut().unwrap();
        let fallback = workspace.focused_panel_id.unwrap();
        let _ = workspace.set_panel_directory(fallback, "/tmp/fallback");
        let panel_id = workspace.split(SplitOrientation::Vertical);
        let _ = workspace.focus_panel(panel_id);
        let _ = workspace.set_panel_directory(panel_id, "/tmp/active");
        let _ = workspace.set_panel_shell_state(panel_id, ShellActivityState::Running, Some("cargo"));
        let _ = workspace.set_panel_tty(panel_id, "pts/7");
        let _ = workspace.upsert_panel_metadata_item(panel_id, task_item());
        let _ = workspace.upsert_panel_metadata_block(panel_id, notes_block());
        let _ = workspace.clear_panel_directory(panel_id);
        let _ = workspace.clear_panel_shell_state(panel_id);
        let _ = workspace.clear_panel_tty(panel_id);
        let _ = workspace.clear_panel_metadata_item(panel_id, "task");
        let _ = workspace.clear_panel_metadata_block(panel_id, "notes");
        let _ = workspace.set_panel_git_branch(panel_id, "persisted-main", false);
    }

    let restored = load_tab_manager_from_path(Ok(capture_snapshot(&manager)), HOME)
        .unwrap()
        .expect("snapshot should restore a session");

    let selected = restored.selected().unwrap();
    assert_eq!(selected.current_directory, "/tmp/fallback");
    assert!(selected.shell_state.is_none());
    assert!(selected.tty_name.is_none());
    assert!(selected.metadata_items.is_empty());
    assert!(selected.metadata_blocks.is_empty());
    assert_eq!(
        selected.git_branch.as_ref().map(|branch| branch.branch.as_str()),
        Some("persisted-main")
    );
}

#[test]
fn snapshot_of_another_version_restores_nothing() {
    let manager = TabManager::new(HOME);
    let mut snapshot = capture_snapshot(&manager);
    assert_eq!(snapshot.version, SESSION_VERSION);
    snapshot.version = 2;
    assert!(tab_manager_from_snapshot(snapshot, HOME).is_none());
}

#[test]
fn load_errors_pass_through_or_give_nothing() {
    let err: Result<SessionSnapshotV1, String> = Err("missing".into());
    assert_eq!(load_tab_manager_from_path(err, HOME).err(), Some("missing".to_string()));
    let err: Result<SessionSnapshotV1, String> = Err("missing".into());
    assert!(load_tab_manager(err, HOME).is_none());
    let manager = TabManager::new(HOME);
    assert!(load_tab_manager(Ok(capture_snapshot(&manager)), HOME).is_some());
}

#[test]
fn round_trip_gives_back_every_field() {
    let mut manager = TabManager::new(HOME);
    {
        let workspace = manager.selected_mut().unwrap();
        let first = workspace.focused_panel_id.unwrap();
        let second = workspace.split(SplitOrientation::Horizontal);
        let _ = workspace.set_panel_title(second, "editor");
        let _ = workspace.focus_panel(first);
        workspace.set_status("agent", "codex", None, None);
    }
    manager.add_workspace(Workspace::new(HOME));
    let before_ids: Vec<_> = (0..manager.len()).map(|i| manager.get(i).unwrap().id).collect();
    let before_selected = manager.selected_index();
    let before = manager.get(0).unwrap();
    let before_layout = before.layout.all_panel_ids();
    let before_focus = (before.focused_panel_id, before.focused_pane_id);
    let before_title = before.process_title.clone();

    let restored = tab_manager_from_snapshot(capture_snapshot(&manager), HOME).unwrap();
    let after_ids: Vec<_> = (0..restored.len()).map(|i| restored.get(i).unwrap().id).collect();
    assert_eq!(after_ids, before_ids);
    assert_eq!(restored.selected_index(), before_selected);
    let after = restored.get(0).unwrap();
    assert_eq!(after.layout.all_panel_ids(), before_layout);
    assert_eq!((after.focused_panel_id, after.focused_pane_id), before_focus);
    assert_eq!(after.process_title, before_title);
    assert_eq!(after.status_entries.len(), 1);
}

#[test]
fn sanitize_replaces_a_layout_without_records() {
    let mut ws = Workspace::new(HOME);
    let kept = ws.focused_panel_id.unwrap();
    ws.layout = LayoutNode::single_pane(new_id());
    sanitize_workspace(&mut ws);
    assert_eq!(ws.layout.all_panel_ids(), vec![kept]);
    assert_eq!(ws.focused_panel_id, Some(kept));
    assert_eq!(ws.focused_pane_id, ws.layout.find_pane_id_with_panel(kept));

    let mut empty = Workspace::new(HOME);
    empty.panels.clear();
    empty.focused_panel_id = None;
    sanitize_workspace(&mut empty);
    assert_eq!(empty.panels.len(), 1);
    let only = empty.layout.all_panel_ids();
    assert_eq!(only.len(), 1);
    assert!(empty.panels.contains_key(&only[0]));
    assert_eq!(empty.focused_panel_id, Some(only[0]));
}

#[test]
fn snapshot_records_the_workspace() {
    let ws = Workspace::with_directory(HOME, "/srv");
    let snapshot = WorkspaceSnapshot::from_workspace(&ws);
    assert_eq!(snapshot.id, ws.id);
    assert_eq!(snapshot.current_directory, "/srv");
    assert_eq!(snapshot.layout.all_panel_ids(), ws.layout.all_panel_ids());
}

#[test]
fn session_path_prefers_an_absolute_state_home() {
    assert_eq!(snapshot_path(Some("/state"), Some("/home/u")), "/state/cmux/session-v1.json");
    assert_eq!(snapshot_path(Some("/state/"), Some("/home/u")), "/state/cmux/session-v1.json");
    assert_eq!(
        snapshot_path(Some("relative"), Some("/home/u")),
        "/home/u/.local/state/cmux/session-v1.json"
    );
    assert_eq!(snapshot_path(None, Some("/home/u")), "/home/u/.local/state/cmux/session-v1.json");
    assert_eq!(snapshot_path(None, None), "/tmp/.local/state/cmux/session-v1.json");
    assert_eq!(snapshot_path(Some(""), None), "/tmp/.local/state/cmux/session-v1.json");
}

#[test]
fn writer_coalesces_saves_and_writes_the_latest() {
    let (state, action) = writer_step(WriterState::Idle, WriterEvent::Save(1));
    assert!(matches!(action, WriterAction::Wait));
    let (state, _) = writer_step(state, WriterEvent::Save(2));
    let (state, action) = writer_step(state, WriterEvent::Timeout);
    assert!(matches!(action, WriterAction::Write(2)));
    assert!(matches!(state, WriterState::Idle));
    let (state, _) = writer_step(state, WriterEvent::Save(3));
    let (state, action) = writer_step(state, WriterEvent::Flush(4));
    assert!(matches!(action, WriterAction::WriteAndReply(4)));
    let (state, _) = writer_step(state, WriterEvent::Save(5));
    let (_, action) = writer_step(state, WriterEvent::Disconnected);
    assert!(matches!(action, WriterAction::Stop(Some(5))));
    let (_, action) = writer_step(WriterState::<u8>::Idle, WriterEvent::Disconnected);
    assert!(matches!(action, WriterAction::Stop(None)));
}

use cmux::panel::{
    MetadataBlock, MetadataFormat, MetadataItem, PullRequestChecks, PullRequestMetadata,
    PullRequestState, ShellActivityState,
};
use cmux::sidebar::{
    compact_path, compact_path_with, format_metadata_block_summary, format_pull_request,
    workspace_meta_text, workspace_priority_summary, workspace_row,
};
use cmux::workspace::Workspace;

const HOME: &str = "/home/tester";

#[test]
fn workspace_priority_summary_prefers_generic_metadata_over_default_cwd() {
    let mut workspace = Workspace::new(HOME);
    let panel_id = workspace.focused_panel_id.unwrap();
    assert!(workspace.upsert_panel_metadata_item(
        panel_id,
        MetadataItem {
            key: "task".into(),
            label: "Task".into(),
            value: "review".into(),
            icon: None,
            color: None,
            url: None,
            priority: 1,
            format: MetadataFormat::Plain,
            timestamp: 1_000_000,
        }
    ));

    assert_eq!(workspace_priority_summary(&workspace, Some(HOME)).as_deref(), Some("Task: review"));
}

#[test]
fn format_pull_request_omits_missing_number() {
    let pr = PullRequestMetadata {
        number: None,
        url: None,
        label: "MR".into(),
        title: Some("Needs review".into()),
        state: PullRequestState::Open,
        branch: None,
        checks: None,
    };

    assert_eq!(format_pull_request(&pr), "MR open");
}

#[test]
fn format_pull_request_names_number_checks_and_branch() {
    let pr = PullRequestMetadata {
        number: Some(828),
        url: None,
        label: "PR".into(),
        title: None,
        state: PullRequestState::Merged,
        branch: Some("linux-port".into()),
        checks: Some(PullRequestChecks::Pending),
    };
    assert_eq!(format_pull_request(&pr), "PR #828 merged pending linux-port");
}

#[test]
fn block_summary_uses_first_non_blank_line() {
    let block = MetadataBlock {
        key: "notes".into(),
        title: None,
        content: "\n   \n  line two  \nline three".into(),
        style: None,
        priority: 0,
        format: MetadataFormat::Markdown,
        timestamp: 0,
    };
    assert_eq!(format_metadata_block_summary(&block), "notes: line two");
    let blank = MetadataBlock { content: " \n ".into(), title: Some("Empty".into()), ..block.clone() };
    assert_eq!(format_metadata_block_summary(&blank), "Empty");
    let long = MetadataBlock { content: "x".repeat(100), ..block };
    assert_eq!(format_metadata_block_summary(&long), format!("notes: {}", "x".repeat(80)));
}

#[test]
fn compact_path_shortens_against_home() {
    assert_eq!(compact_path("", Some(HOME)), "~");
    assert_eq!(compact_path(HOME, Some(HOME)), "~");
    assert_eq!(compact_path("/home/tester/src/cmux", Some(HOME)), "~/src/cmux");
    assert_eq!(compact_path("/home/testerx/src", Some(HOME)), "src");
    assert_eq!(compact_path("/srv/data", Some("/")), "data");
    assert_eq!(compact_path("/srv/data", None), "data");
    assert_eq!(compact_path("/", None), "/");
}

#[test]
fn compact_path_with_given_parts() {
    assert_eq!(compact_path_with("/a/b", Some("b"), Some("b")), "~/b");
    assert_eq!(compact_path_with("/a", Some(""), Some("a")), "~");
    assert_eq!(compact_path_with("/a/b", None, Some("b")), "b");
    assert_eq!(compact_path_with("/", None, None), "/");
    assert_eq!(compact_path_with("", None, None), "~");
}

#[test]
fn priority_summary_order() {
    let mut ws = Workspace::new(HOME);
    let panel = ws.focused_panel_id.unwrap();
    assert_eq!(workspace_priority_summary(&ws, Some(HOME)).as_deref(), Some("~"));
    assert!(ws.set_panel_tty(panel, "pts/3"));
    assert!(ws.set_panel_ports(panel, vec![8080, 3000, 5432, 22, 80]));
    assert_eq!(workspace_priority_summary(&ws, Some(HOME)).as_deref(), Some("ports 8080, 3000, 5432 +2"));
    assert!(ws.set_panel_git_branch(panel, "main", true));
    assert_eq!(workspace_priority_summary(&ws, Some(HOME)).as_deref(), Some("git main *"));
    assert!(ws.set_panel_shell_state(panel, ShellActivityState::Running, Some("cargo")));
    assert_eq!(workspace_priority_summary(&ws, Some(HOME)).as_deref(), Some("running cargo"));
    assert!(ws.set_panel_shell_state(panel, ShellActivityState::Prompt, None));
    assert_eq!(workspace_priority_summary(&ws, Some(HOME)).as_deref(), Some("git main *"));
}

#[test]
fn meta_text_joins_status_and_summary() {
    let mut ws = Workspace::new(HOME);
    ws.set_status("agent", "codex", None, None);
    assert_eq!(workspace_meta_text(&ws, Some(HOME)), "codex | ~");
}

#[test]
fn row_shows_position_badge_and_notification() {
    let mut ws = Workspace::with_directory(HOME, "/home/tester/work");
    let row = workspace_row(&ws, 0, Some(HOME));
    assert_eq!(row.position, "1");
    assert_eq!(row.title, "Terminal");
    assert_eq!(row.unread_badge, None);
    assert_eq!(row.pin_action, "Pin");
    assert_eq!(row.notification, "~/work");
    assert!(!row.notification_unread);

    ws.record_notification("Codex", "Waiting", None);
    let _ = ws.set_pinned(true);
    let row = workspace_row(&ws, 11, Some(HOME));
    assert_eq!(row.position, "12");
    assert_eq!(row.unread_badge.as_deref(), Some("1"));
    assert_eq!(row.pin_action, "Unpin");
    assert!(row.pinned);
    assert_eq!(row.notification, "Codex: Waiting");
    assert!(row.notification_unread);
}

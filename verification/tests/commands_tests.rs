use cmux::commands::{capabilities, dispatch, reply_after_ui, Handled, UiRequest};
use cmux::ids::{Id};
use cmux::layout::SplitOrientation;
use cmux::panel::ShellActivityState;
use cmux::protocol::{ErrorInfo, JsonValue, Response};
use cmux::tab_manager::TabManager;
use cmux::workspace::Workspace;


fn uuid_text(id: u128) -> String {
    uuid::Uuid::from_u128(id).to_string()
}

fn parse_uuid(text: &str) -> Option<u128> {
    uuid::Uuid::parse_str(text).ok().map(|u| u.as_u128())
}

const HOME: &str = "/home/tester";

fn s(text: &str) -> JsonValue {
    JsonValue::Str(text.to_string())
}

fn id_text(id: Id) -> JsonValue {
    JsonValue::Str(uuid_text(id))
}

fn obj(entries: Vec<(&str, JsonValue)>) -> JsonValue {
    JsonValue::Object(entries.into_iter().map(|(k, v)| (k.to_string(), v)).collect())
}

fn test_state() -> TabManager {
    TabManager::new(HOME)
}

fn run(tm: &mut TabManager, method: &str, params: JsonValue) -> Handled {
    dispatch(tm, HOME, method, &params, 1_000_000)
}

fn error_code(h: &Handled) -> Option<String> {
    match &h.reply {
        Err(e) => Some(e.code.clone()),
        Ok(_) => None,
    }
}

fn result(h: &Handled) -> &JsonValue {
    match &h.reply {
        Ok(v) => v,
        Err(e) => panic!("unexpected error: {} {}", e.code, e.message),
    }
}

fn method_names(h: &Handled) -> Vec<String> {
    match result(h).get("methods") {
        Some(JsonValue::Array(items)) => items.iter().filter_map(|v| v.as_str().map(|t| t.to_string())).collect(),
        _ => panic!("methods array expected"),
    }
}

#[test]
fn test_notification_create_updates_workspace_attention() {
    let mut tm = test_state();
    let (workspace_id, panel_id) = {
        let workspace = tm.selected().unwrap();
        (workspace.id, workspace.focused_panel_id.unwrap())
    };

    let params = obj(vec![
        ("title", s("Codex")),
        ("body", s("Waiting for input")),
        ("workspace", id_text(workspace_id)),
        ("surface", id_text(panel_id)),
        ("send_desktop", JsonValue::Bool(false)),
    ]);
    let response = run(&mut tm, "notification.create", params);
    assert!(response.reply.is_ok());

    let workspace = tm.workspace(workspace_id).unwrap();
    assert_eq!(workspace.unread_count, 1);
    assert_eq!(workspace.latest_notification.as_deref(), Some("Codex: Waiting for input"));
    assert_eq!(workspace.attention_panel_id, Some(panel_id));
}

#[test]
fn test_workspace_latest_unread_selects_newest_workspace() {
    let mut tm = test_state();
    let workspace_one_id = tm.selected_id().unwrap();

    let response = run(&mut tm, "workspace.new", obj(vec![("title", s("Second"))]));
    assert!(response.reply.is_ok());

    let workspace_two_id = tm.selected_id().unwrap();

    let first = obj(vec![
        ("title", s("Builder")),
        ("body", s("Needs approval")),
        ("workspace", id_text(workspace_one_id)),
        ("send_desktop", JsonValue::Bool(false)),
    ]);
    assert!(dispatch(&mut tm, HOME, "notification.create", &first, 1_000).reply.is_ok());

    let second = obj(vec![
        ("title", s("Codex")),
        ("body", s("Waiting for input")),
        ("workspace", id_text(workspace_two_id)),
        ("send_desktop", JsonValue::Bool(false)),
    ]);
    assert!(dispatch(&mut tm, HOME, "notification.create", &second, 2_000).reply.is_ok());

    let response = run(&mut tm, "workspace.latest_unread", obj(vec![]));
    assert!(response.reply.is_ok());

    assert_eq!(tm.selected_id(), Some(workspace_two_id));
    assert_eq!(tm.workspace(workspace_two_id).unwrap().unread_count, 0);
    assert_eq!(tm.workspace(workspace_one_id).unwrap().unread_count, 1);
}

#[test]
fn test_surface_send_input_dispatches_ui_event() {
    let mut tm = test_state();
    let panel_id = tm.selected().unwrap().focused_panel_id.unwrap();

    let params = obj(vec![("surface", id_text(panel_id)), ("input", s("ls\n"))]);
    let response = run(&mut tm, "surface.send_input", params);
    assert!(response.reply.is_ok());

    match response.ui {
        Some(UiRequest::SendInput { panel_id: actual, ref text }) => {
            assert_eq!(actual, panel_id);
            assert_eq!(text, "ls\n");
        }
        ref other => panic!("unexpected event: {other:?}"),
    }
    // Where the UI cannot take the event, the reply says so.
    let refused = reply_after_ui(response, false);
    assert_eq!(refused.err().map(|e| e.code), Some("not_ready".to_string()));
}

#[test]
fn test_workspace_create_alias_and_legacy_response_field() {
    let mut tm = test_state();
    let selected_before = tm.selected_id();

    let response = run(&mut tm, "workspace.create", obj(vec![("title", s("Legacy"))]));

    let result = result(&response);
    let workspace_id = result
        .get("workspace_id")
        .and_then(|v| v.as_str())
        .expect("legacy workspace_id should be present");
    assert_eq!(result.get("workspace").and_then(|v| v.as_str()), Some(workspace_id));
    assert_eq!(tm.selected_id(), selected_before);
}

#[test]
fn test_workspace_list_keeps_selected_alias() {
    let mut tm = test_state();

    let response = run(&mut tm, "workspace.list", obj(vec![]));

    let first = match result(&response).get("workspaces") {
        Some(JsonValue::Array(items)) => &items[0],
        _ => panic!("workspaces array"),
    };
    assert_eq!(first.get("selected").and_then(|v| v.as_bool()), Some(true));
    assert_eq!(first.get("is_selected").and_then(|v| v.as_bool()), Some(true));
}

#[test]
fn test_workspace_select_accepts_legacy_workspace_id_param() {
    let mut tm = test_state();
    let workspace_id = tm.selected_id().unwrap();

    let response = run(&mut tm, "workspace.select", obj(vec![("workspace_id", id_text(workspace_id))]));

    assert!(response.reply.is_ok());
    assert_eq!(tm.selected_id(), Some(workspace_id));
}

#[test]
fn test_workspace_create_accepts_legacy_cwd_param() {
    let mut tm = test_state();

    let response = run(&mut tm, "workspace.create", obj(vec![("cwd", s("/tmp/cmux-legacy"))]));

    let workspace_id = result(&response)
        .get("workspace_id")
        .and_then(|v| v.as_str())
        .expect("workspace_id should be present");
    let workspace_id = parse_uuid(workspace_id).expect("valid uuid");

    let workspace = tm.workspace(workspace_id).expect("workspace should exist");
    assert_eq!(workspace.current_directory, "/tmp/cmux-legacy");
}

#[test]
fn test_rich_report_metadata_updates_workspace_summary() {
    let mut tm = test_state();
    let (workspace_id, panel_id) = {
        let workspace = tm.selected().unwrap();
        (workspace.id, workspace.focused_panel_id.unwrap())
    };
    let target = || vec![("workspace", id_text(workspace_id)), ("surface", id_text(panel_id))];
    let with = |extra: Vec<(&'static str, JsonValue)>| {
        let mut entries = target();
        entries.extend(extra);
        obj(entries)
    };

    let requests = vec![
        ("workspace.report_pwd", with(vec![("path", s("/tmp/cmux-metadata"))])),
        ("workspace.report_shell_state", with(vec![("state", s("running")), ("label", s("cargo test"))])),
        ("workspace.report_ports", with(vec![("ports", JsonValue::Array(vec![JsonValue::UInt(3000), JsonValue::UInt(8080)]))])),
        ("workspace.report_tty", with(vec![("tty_name", s("pts/42"))])),
        (
            "workspace.report_pr",
            with(vec![
                ("number", JsonValue::UInt(828)),
                ("url", s("https://example.com/pr/828")),
                ("label", s("PR")),
                ("title", s("Linux metadata")),
                ("state", s("open")),
                ("branch", s("linux-port")),
                ("checks", s("pending")),
            ]),
        ),
        (
            "workspace.report_meta",
            with(vec![("key", s("task")), ("label", s("Task")), ("value", s("review")), ("priority", JsonValue::UInt(5))]),
        ),
        (
            "workspace.report_meta_block",
            with(vec![
                ("key", s("notes")),
                ("title", s("Notes")),
                ("content", s("line one\nline two")),
                ("format", s("markdown")),
            ]),
        ),
    ];

    for (method, params) in requests {
        let response = run(&mut tm, method, params);
        assert!(response.reply.is_ok(), "{method}: {:?}", error_code(&response));
    }

    let workspace = tm.workspace(workspace_id).unwrap();
    assert_eq!(workspace.current_directory, "/tmp/cmux-metadata");
    assert_eq!(workspace.shell_state.as_ref().map(|state| &state.state), Some(&ShellActivityState::Running));
    assert_eq!(workspace.listening_ports, vec![3000, 8080]);
    assert_eq!(workspace.tty_name.as_deref(), Some("pts/42"));
    assert_eq!(workspace.pr_metadata.as_ref().and_then(|pr| pr.number), Some(828));
    assert_eq!(workspace.metadata_items.first().map(|item| item.key.as_str()), Some("task"));
    assert_eq!(workspace.metadata_blocks.first().map(|block| block.key.as_str()), Some("notes"));
}

#[test]
fn test_report_target_rejects_workspace_surface_mismatch() {
    let mut tm = test_state();
    let other_workspace_id = {
        let selected_id = tm.selected_id().unwrap();
        let new_id = tm.add_workspace(Workspace::new(HOME));
        let _ = tm.select_by_id(selected_id);
        new_id
    };
    let selected_panel = tm.selected().unwrap().focused_panel_id.unwrap();

    let response = run(
        &mut tm,
        "workspace.report_git_branch",
        obj(vec![
            ("workspace", id_text(other_workspace_id)),
            ("surface", id_text(selected_panel)),
            ("branch", s("main")),
        ]),
    );

    assert!(response.reply.is_err());
    assert_eq!(error_code(&response).as_deref(), Some("invalid_params"));
}

#[test]
fn test_report_review_without_number_does_not_invent_zero() {
    let mut tm = test_state();
    let response = run(
        &mut tm,
        "workspace.report_review",
        obj(vec![("label", s("MR")), ("state", s("open")), ("title", s("Needs review"))]),
    );

    let pr = result(&response).get("pr").expect("pr");
    assert!(pr.get("number").map(|n| n.is_null()).unwrap_or(false));

    let workspace = tm.selected().unwrap();
    assert_eq!(workspace.pr_metadata.as_ref().and_then(|pr| pr.number), None);
}

#[test]
fn test_capabilities_include_metadata_clear_methods() {
    let response = capabilities();
    assert!(response.reply.is_ok());
    let methods = method_names(&response);

    for name in [
        "workspace.clear_pwd",
        "workspace.clear_shell_state",
        "workspace.clear_tty",
        "workspace.clear_meta",
        "workspace.clear_meta_block",
    ] {
        assert!(methods.iter().any(|m| m == name), "{name}");
    }
}

#[test]
fn test_clear_report_metadata_updates_workspace_summary() {
    let mut tm = test_state();
    let (workspace_id, focused_panel_id, fallback_panel_id) = {
        let workspace = tm.selected_mut().unwrap();
        let fallback_panel_id = workspace.focused_panel_id.unwrap();
        let _ = workspace.set_panel_directory(fallback_panel_id, "/tmp/cmux-fallback");
        let focused_panel_id = workspace.split(SplitOrientation::Vertical);
        let _ = workspace.focus_panel(focused_panel_id);
        (workspace.id, focused_panel_id, fallback_panel_id)
    };
    let with = |extra: Vec<(&'static str, JsonValue)>| {
        let mut entries = vec![("workspace", id_text(workspace_id)), ("surface", id_text(focused_panel_id))];
        entries.extend(extra);
        obj(entries)
    };

    let requests = vec![
        ("workspace.report_pwd", with(vec![("path", s("/tmp/cmux-active"))])),
        ("workspace.report_shell_state", with(vec![("state", s("running")), ("label", s("cargo test"))])),
        ("workspace.report_tty", with(vec![("tty_name", s("pts/42"))])),
        ("workspace.report_meta", with(vec![("key", s("task")), ("label", s("Task")), ("value", s("review"))])),
        (
            "workspace.report_meta_block",
            with(vec![("key", s("notes")), ("title", s("Notes")), ("content", s("line one"))]),
        ),
    ];
    for (method, params) in requests {
        let response = run(&mut tm, method, params);
        assert!(response.reply.is_ok(), "{method}: {:?}", error_code(&response));
    }

    let clear_requests = vec![
        ("workspace.clear_pwd", with(vec![])),
        ("workspace.clear_shell_state", with(vec![])),
        ("workspace.clear_tty", with(vec![])),
        ("workspace.clear_meta", with(vec![("key", s("task"))])),
        ("workspace.clear_meta_block", with(vec![("key", s("notes"))])),
    ];
    for (method, params) in clear_requests {
        let response = run(&mut tm, method, params);
        assert_eq!(result(&response).get("cleared").and_then(|v| v.as_bool()), Some(true), "{method}");
    }

    let workspace = tm.workspace(workspace_id).unwrap();
    assert_eq!(workspace.current_directory, "/tmp/cmux-fallback");
    assert_eq!(workspace.focused_panel_id, Some(focused_panel_id));
    assert_eq!(
        workspace.panel(fallback_panel_id).and_then(|panel| panel.directory.as_deref()),
        Some("/tmp/cmux-fallback")
    );
    assert!(workspace.shell_state.is_none());
    assert!(workspace.tty_name.is_none());
    assert!(workspace.metadata_items.is_empty());
    assert!(workspace.metadata_blocks.is_empty());
}

#[test]
fn test_clear_meta_requires_non_empty_key() {
    let mut tm = test_state();
    let response = run(&mut tm, "workspace.clear_meta", obj(vec![("key", s("   "))]));

    assert!(response.reply.is_err());
    assert_eq!(error_code(&response).as_deref(), Some("invalid_params"));
}

#[test]
fn test_clear_meta_block_requires_key() {
    let mut tm = test_state();
    let response = run(&mut tm, "workspace.clear_meta_block", obj(vec![]));

    assert!(response.reply.is_err());
    assert_eq!(error_code(&response).as_deref(), Some("invalid_params"));
}

#[test]
fn test_clear_commands_report_false_when_metadata_already_absent() {
    let mut tm = test_state();
    let response = run(&mut tm, "workspace.clear_shell_state", obj(vec![]));

    assert_eq!(result(&response).get("cleared").and_then(|v| v.as_bool()), Some(false));
}

#[test]
fn test_clear_pwd_ignores_dangling_timestamp_without_claiming_clear() {
    let mut tm = test_state();
    {
        let workspace = tm.selected_mut().unwrap();
        let panel_id = workspace.focused_panel_id.unwrap();
        let panel = workspace.panel_mut(panel_id).unwrap();
        panel.directory = None;
        panel.directory_updated_at = Some(123_000_000);
        workspace.current_directory = "/tmp/stale-summary".into();
    }

    let response = run(&mut tm, "workspace.clear_pwd", obj(vec![]));

    assert_eq!(result(&response).get("cleared").and_then(|v| v.as_bool()), Some(false));
    let workspace = tm.selected().unwrap();
    assert_ne!(workspace.current_directory, "/tmp/stale-summary");
}

#[test]
fn test_capabilities_include_mux_control_methods() {
    let response = capabilities();
    let methods = method_names(&response);

    for name in [
        "pane.close",
        "pane.resize",
        "surface.next",
        "surface.previous",
        "surface.move_forward",
        "surface.move_backward",
    ] {
        assert!(methods.iter().any(|m| m == name), "{name}");
    }
}

#[test]
fn test_pane_focus_rejects_cross_workspace_targets() {
    let mut tm = test_state();
    let pane_id = {
        let first_workspace_id = tm.selected_id().unwrap();
        let second_workspace_id = tm.add_workspace(Workspace::new(HOME));
        let workspace = tm.workspace(second_workspace_id).unwrap();
        let pane_id = workspace.focused_pane_id.unwrap();
        let _ = tm.select_by_id(first_workspace_id);
        pane_id
    };

    let response = run(&mut tm, "pane.focus", obj(vec![("pane", id_text(pane_id))]));

    assert_eq!(error_code(&response).as_deref(), Some("invalid_params"));
}

#[test]
fn test_surface_focus_rejects_cross_workspace_targets() {
    let mut tm = test_state();
    let panel_id = {
        let first_workspace_id = tm.selected_id().unwrap();
        let second_workspace_id = tm.add_workspace(Workspace::new(HOME));
        let workspace = tm.workspace(second_workspace_id).unwrap();
        let panel_id = workspace.focused_panel_id.unwrap();
        let _ = tm.select_by_id(first_workspace_id);
        panel_id
    };

    let response = run(&mut tm, "surface.focus", obj(vec![("surface", id_text(panel_id))]));

    assert_eq!(error_code(&response).as_deref(), Some("invalid_params"));
}

#[test]
fn ping_and_unknown_methods() {
    let mut tm = test_state();
    let pong = run(&mut tm, "system.ping", obj(vec![]));
    assert_eq!(result(&pong).get("pong").and_then(|v| v.as_bool()), Some(true));
    let unknown = run(&mut tm, "no.such_method", obj(vec![]));
    assert_eq!(error_code(&unknown).as_deref(), Some("unknown_method"));
}

#[test]
fn invalid_uuid_is_an_invalid_param() {
    let mut tm = test_state();
    let response = run(&mut tm, "workspace.select", obj(vec![("workspace", s("not-a-uuid"))]));
    assert_eq!(error_code(&response).as_deref(), Some("invalid_params"));
    let missing = run(&mut tm, "workspace.select", obj(vec![("workspace", id_text(7))]));
    assert_eq!(error_code(&missing).as_deref(), Some("not_found"));
}

#[test]
fn response_carries_the_reply() {
    let ok = Response::reply(JsonValue::UInt(1), Ok(JsonValue::Null));
    assert!(ok.ok);
    assert!(ok.error.is_none());
    let err = Response::reply(JsonValue::UInt(2), Err(ErrorInfo::new("not_found", "gone")));
    assert!(!err.ok);
    assert_eq!(err.error.map(|e| e.message), Some("gone".to_string()));
}

#[test]
fn replies_name_workspaces_by_their_uuid_text() {
    let mut tm = test_state();
    let response = run(&mut tm, "workspace.create", obj(vec![("title", s("Named"))]));
    let text = result(&response).get("workspace_id").and_then(|v| v.as_str()).unwrap().to_string();
    let created = tm.get(1).unwrap().id;
    assert_eq!(text, uuid::Uuid::from_u128(created).to_string());
    assert_eq!(parse_uuid(&text), Some(created));
}

#[test]
fn fresh_ids_are_version_four_uuids() {
    let a = Workspace::new(HOME).id;
    let b = Workspace::new(HOME).id;
    assert_ne!(a, b);
    assert_eq!((a >> 76) & 0xf, 4);
    assert_eq!((a >> 62) & 0x3, 2);
}

#[test]
fn notifications_are_stamped_with_the_clock() {
    let mut ws = Workspace::new(HOME);
    ws.record_notification("t", "b", None);
    // Later than 2020-01-01 in microseconds.
    assert!(ws.latest_notification_at.unwrap() > 1_577_836_800_000_000);
}

#[test]
fn test_surface_move_forward_reorders_tabs() {
    let mut tm = test_state();
    let panel_id = {
        let ws = tm.selected_mut().unwrap();
        let first = ws.focused_panel_id.unwrap();
        let second = cmux::panel::Panel::new();
        let second_id = second.id;
        ws.panels.insert(second_id, second);
        let pane_id = ws.focused_pane_id.unwrap();
        let pane = ws.layout.find_pane_mut(pane_id).unwrap();
        pane.panel_ids.push(second_id);
        pane.selected_panel_id = Some(first);
        first
    };

    let response = run(&mut tm, "surface.move_forward", obj(vec![("surface", id_text(panel_id))]));

    assert!(response.reply.is_ok(), "{:?}", error_code(&response));
    let ws = tm.selected().unwrap();
    let pane = ws.layout.find_pane(ws.focused_pane_id.unwrap()).unwrap();
    assert_eq!(pane.panel_ids[1], panel_id);
}

#[test]
fn test_surface_next_rejects_cross_workspace_pane() {
    let mut tm = test_state();
    let pane_id = {
        let first_workspace_id = tm.selected_id().unwrap();
        let second_workspace_id = tm.add_workspace(Workspace::new(HOME));
        let workspace = tm.workspace(second_workspace_id).unwrap();
        let pane_id = workspace.focused_pane_id.unwrap();
        let _ = tm.select_by_id(first_workspace_id);
        pane_id
    };

    let response = run(&mut tm, "surface.next", obj(vec![("pane", id_text(pane_id))]));

    assert_eq!(error_code(&response).as_deref(), Some("invalid_params"));
}

fn two_tab_state() -> (TabManager, Id, Id, Id) {
    let mut tm = test_state();
    let (first, second, pane_id) = {
        let ws = tm.selected_mut().unwrap();
        let first = ws.focused_panel_id.unwrap();
        let second = cmux::panel::Panel::new();
        let second_id = second.id;
        ws.panels.insert(second_id, second);
        let pane_id = ws.focused_pane_id.unwrap();
        let pane = ws.layout.find_pane_mut(pane_id).unwrap();
        pane.panel_ids.push(second_id);
        pane.selected_panel_id = Some(first);
        (first, second_id, pane_id)
    };
    (tm, first, second, pane_id)
}

#[test]
fn surface_next_and_previous_cycle_the_pane_tabs() {
    let (mut tm, first, second, pane_id) = two_tab_state();

    let response = run(&mut tm, "surface.next", obj(vec![]));
    let v = result(&response);
    assert_eq!(v.get("surface").and_then(|x| x.as_str()), Some(uuid_text(second).as_str()));
    assert_eq!(v.get("pane_id").and_then(|x| x.as_str()), Some(uuid_text(pane_id).as_str()));
    assert!(matches!(v.get("focused"), Some(JsonValue::Bool(true))));
    assert!(response.refresh);
    assert!(matches!(response.ui, Some(UiRequest::FocusSurface { panel_id, present_window: false }) if panel_id == second));
    assert_eq!(tm.selected().unwrap().focused_panel_id, Some(second));

    let response = run(&mut tm, "surface.next", obj(vec![("pane", id_text(pane_id))]));
    assert_eq!(result(&response).get("surface").and_then(|x| x.as_str()), Some(uuid_text(first).as_str()));

    let response = run(&mut tm, "surface.previous", obj(vec![("pane", id_text(pane_id))]));
    assert_eq!(result(&response).get("surface").and_then(|x| x.as_str()), Some(uuid_text(second).as_str()));
    assert_eq!(tm.selected().unwrap().focused_panel_id, Some(second));
}

#[test]
fn surface_next_errors() {
    let mut tm = test_state();
    let response = run(&mut tm, "surface.next", obj(vec![("pane", s("bad")), ("pane_id", s("not-a-uuid"))]));
    assert_eq!(error_code(&response).as_deref(), Some("invalid_params"));
    // A malformed `pane` falls back to `pane_id`, here absent: the focused pane.
    let response = run(&mut tm, "surface.next", obj(vec![("pane", s("not-a-uuid"))]));
    assert!(response.reply.is_ok());
    let response = run(&mut tm, "surface.previous", obj(vec![("pane", id_text(7))]));
    assert_eq!(error_code(&response).as_deref(), Some("not_found"));
}

#[test]
fn surface_move_backward_and_edges() {
    let (mut tm, first, second, pane_id) = two_tab_state();

    let response = run(&mut tm, "surface.move_backward", obj(vec![("surface", id_text(first))]));
    assert_eq!(error_code(&response).as_deref(), Some("invalid_params"));

    let response = run(&mut tm, "surface.move_backward", obj(vec![("panel", id_text(second))]));
    let v = result(&response);
    assert_eq!(v.get("pane_id").and_then(|x| x.as_str()), Some(uuid_text(pane_id).as_str()));
    assert!(matches!(v.get("moved"), Some(JsonValue::Bool(true))));
    {
        let ws = tm.selected().unwrap();
        let pane = ws.layout.find_pane(pane_id).unwrap();
        assert_eq!(pane.panel_ids, vec![second, first]);
    }

    let response = run(&mut tm, "surface.move_forward", obj(vec![("surface", id_text(second))]));
    assert!(response.reply.is_ok());
    let ws = tm.selected().unwrap();
    let pane = ws.layout.find_pane(pane_id).unwrap();
    assert_eq!(pane.panel_ids, vec![first, second]);

    let response = run(&mut tm, "surface.move_forward", obj(vec![("surface", id_text(99))]));
    assert_eq!(error_code(&response).as_deref(), Some("not_found"));
}

#[test]
fn test_pane_close_removes_target_pane() {
    let mut tm = test_state();
    let pane_id = {
        let ws = tm.selected_mut().unwrap();
        let panel_id = ws.split(SplitOrientation::Horizontal);
        ws.layout.find_pane_id_with_panel(panel_id).unwrap()
    };

    let response = run(&mut tm, "pane.close", obj(vec![("pane", id_text(pane_id))]));

    assert!(response.reply.is_ok(), "{:?}", error_code(&response));
    let ws = tm.selected().unwrap();
    assert!(ws.layout.find_pane(pane_id).is_none());
    assert_eq!(ws.panels.len(), 1);
}

#[test]
fn test_pane_resize_updates_layout() {
    let mut tm = test_state();
    let pane_id = {
        let ws = tm.selected_mut().unwrap();
        let panel_id = ws.split(SplitOrientation::Horizontal);
        ws.layout.find_pane_id_with_panel(panel_id).unwrap()
    };

    // A step of 0.1 is held as 100_000 millionths; positions likewise.
    let response = run(
        &mut tm,
        "pane.resize",
        obj(vec![("pane", id_text(pane_id)), ("direction", s("right")), ("step", JsonValue::Float(100_000))]),
    );

    assert!(response.reply.is_ok(), "{:?}", error_code(&response));
    let ws = tm.selected().unwrap();
    match &ws.layout {
        cmux::layout::LayoutNode::Split { divider_position, .. } => assert_eq!(*divider_position, 600_000),
        _ => panic!("expected split layout"),
    }
}

#[test]
fn pane_close_reply_and_errors() {
    let mut tm = test_state();
    let only_pane = tm.selected().unwrap().focused_pane_id.unwrap();
    let response = run(&mut tm, "pane.close", obj(vec![("pane", id_text(only_pane))]));
    assert_eq!(error_code(&response).as_deref(), Some("not_found"));
    let response = run(&mut tm, "pane.close", obj(vec![]));
    assert_eq!(error_code(&response).as_deref(), Some("invalid_params"));

    let (first, second_pane) = {
        let ws = tm.selected_mut().unwrap();
        let first = ws.focused_panel_id.unwrap();
        let second = ws.split(SplitOrientation::Vertical);
        (first, ws.layout.find_pane_id_with_panel(second).unwrap())
    };
    // `pane_id` is read only where `pane` is malformed.
    let response = run(&mut tm, "pane.close", obj(vec![("pane", s("x")), ("pane_id", id_text(second_pane))]));
    let v = result(&response);
    assert!(matches!(v.get("closed"), Some(JsonValue::Bool(true))));
    assert_eq!(v.get("focused_surface").and_then(|x| x.as_str()), Some(uuid_text(first).as_str()));
    match v.get("removed_surfaces") {
        Some(JsonValue::Array(items)) => assert_eq!(items.len(), 1),
        _ => panic!("removed_surfaces expected"),
    }
    assert_eq!(tm.selected().unwrap().focused_panel_id, Some(first));
}

#[test]
fn pane_resize_errors_and_bounds() {
    let mut tm = test_state();
    let pane_id = {
        let ws = tm.selected_mut().unwrap();
        let panel_id = ws.split(SplitOrientation::Horizontal);
        ws.layout.find_pane_id_with_panel(panel_id).unwrap()
    };
    let bad_dir = run(&mut tm, "pane.resize", obj(vec![("pane", id_text(pane_id)), ("direction", s("sideways"))]));
    assert_eq!(error_code(&bad_dir).as_deref(), Some("invalid_params"));
    let bad_step = run(
        &mut tm,
        "pane.resize",
        obj(vec![("pane", id_text(pane_id)), ("direction", s("left")), ("step", JsonValue::NegInt(-1))]),
    );
    assert_eq!(error_code(&bad_step).as_deref(), Some("invalid_params"));
    // Up and down run along a side-by-side split: nothing to nudge.
    let along = run(&mut tm, "pane.resize", obj(vec![("pane", id_text(pane_id)), ("direction", s("up"))]));
    assert_eq!(error_code(&along).as_deref(), Some("invalid_params"));
    // A whole-width step stops at the bound 0.9; a second one moves nothing.
    let far = run(
        &mut tm,
        "pane.resize",
        obj(vec![("pane", id_text(pane_id)), ("direction", s("right")), ("step", JsonValue::UInt(1))]),
    );
    assert!(far.reply.is_ok());
    match &tm.selected().unwrap().layout {
        cmux::layout::LayoutNode::Split { divider_position, .. } => assert_eq!(*divider_position, 900_000),
        _ => panic!("expected split layout"),
    }
    let again = run(&mut tm, "pane.resize", obj(vec![("pane", id_text(pane_id)), ("direction", s("right"))]));
    assert_eq!(error_code(&again).as_deref(), Some("invalid_params"));
    // The default step is 0.05.
    let back = run(&mut tm, "pane.resize", obj(vec![("pane", id_text(pane_id)), ("direction", s("left"))]));
    assert!(matches!(result(&back).get("step"), Some(JsonValue::Float(50_000))));
    match &tm.selected().unwrap().layout {
        cmux::layout::LayoutNode::Split { divider_position, .. } => assert_eq!(*divider_position, 850_000),
        _ => panic!("expected split layout"),
    }
}

#[test]
fn workspace_pin_moves_to_the_pinned_section() {
    let mut tm = test_state();
    let a = tm.selected_id().unwrap();
    let b = tm.add_workspace(Workspace::new(HOME));
    let c = tm.add_workspace(Workspace::new(HOME));
    assert_eq!(tm.selected_id(), Some(c));

    let response = run(&mut tm, "workspace.pin", obj(vec![]));
    let v = result(&response);
    assert_eq!(v.get("index").and_then(|x| x.as_u64()), Some(0));
    assert!(matches!(v.get("pinned"), Some(JsonValue::Bool(true))));
    assert_eq!(tm.get(0).unwrap().id, c);
    assert!(tm.get(0).unwrap().is_pinned);
    assert_eq!(tm.selected_id(), Some(c));
    assert_eq!(tm.get(1).unwrap().id, a);
    assert_eq!(tm.get(2).unwrap().id, b);

    let response = run(&mut tm, "workspace.pin", obj(vec![("workspace", id_text(b))]));
    assert_eq!(result(&response).get("index").and_then(|x| x.as_u64()), Some(1));
    assert_eq!(tm.get(1).unwrap().id, b);

    let response = run(&mut tm, "workspace.unpin", obj(vec![("workspace_id", id_text(c))]));
    assert_eq!(result(&response).get("index").and_then(|x| x.as_u64()), Some(1));
    assert_eq!(tm.get(0).unwrap().id, b);
    assert_eq!(tm.get(1).unwrap().id, c);
    assert!(!tm.get(1).unwrap().is_pinned);

    let missing = run(&mut tm, "workspace.pin", obj(vec![("workspace", id_text(5))]));
    assert_eq!(error_code(&missing).as_deref(), Some("not_found"));
    let bad = run(&mut tm, "workspace.pin", obj(vec![("workspace", s("nope"))]));
    assert_eq!(error_code(&bad).as_deref(), Some("invalid_params"));
}

#[test]
fn workspace_reorder_within_sections() {
    let mut tm = test_state();
    let a = tm.selected_id().unwrap();
    let b = tm.add_workspace(Workspace::new(HOME));
    let c = tm.add_workspace(Workspace::new(HOME));

    let response = run(&mut tm, "workspace.reorder", obj(vec![("from_index", JsonValue::UInt(2)), ("to_index", JsonValue::UInt(0))]));
    let v = result(&response);
    assert_eq!(v.get("workspace_id").and_then(|x| x.as_str()), Some(uuid_text(c).as_str()));
    assert_eq!(tm.get(0).unwrap().id, c);
    assert_eq!(tm.get(1).unwrap().id, a);
    assert_eq!(tm.get(2).unwrap().id, b);
    assert_eq!(tm.selected_id(), Some(c));

    let response = run(&mut tm, "workspace.reorder", obj(vec![("workspace", id_text(a)), ("to_index", JsonValue::UInt(2))]));
    assert_eq!(result(&response).get("from_index").and_then(|x| x.as_u64()), Some(1));
    assert_eq!(tm.get(2).unwrap().id, a);

    let no_to = run(&mut tm, "workspace.reorder", obj(vec![("from_index", JsonValue::UInt(0))]));
    assert_eq!(error_code(&no_to).as_deref(), Some("invalid_params"));
    let no_from = run(&mut tm, "workspace.reorder", obj(vec![("to_index", JsonValue::UInt(0))]));
    assert_eq!(error_code(&no_from).as_deref(), Some("invalid_params"));
    let out = run(&mut tm, "workspace.reorder", obj(vec![("from_index", JsonValue::UInt(0)), ("to_index", JsonValue::UInt(9))]));
    assert_eq!(error_code(&out).as_deref(), Some("invalid_params"));
    let same = run(&mut tm, "workspace.reorder", obj(vec![("from_index", JsonValue::UInt(1)), ("to_index", JsonValue::UInt(1))]));
    assert_eq!(error_code(&same).as_deref(), Some("invalid_params"));

    // A pinned workspace cannot move into the unpinned section.
    let _ = run(&mut tm, "workspace.pin", obj(vec![("workspace", id_text(b))]));
    assert_eq!(tm.get(0).unwrap().id, b);
    let cross = run(&mut tm, "workspace.reorder", obj(vec![("from_index", JsonValue::UInt(0)), ("to_index", JsonValue::UInt(2))]));
    assert_eq!(error_code(&cross).as_deref(), Some("invalid_params"));
    assert_eq!(tm.get(0).unwrap().id, b);
}

#[test]
fn malformed_line_reply_is_a_parse_error() {
    let r = Response::parse_error("expected value at line 1 column 1");
    assert!(!r.ok);
    assert!(matches!(r.id, JsonValue::Null));
    let e = r.error.unwrap();
    assert_eq!(e.code, "parse_error");
    assert_eq!(e.message, "Invalid JSON: expected value at line 1 column 1");
}

#[test]
fn every_listed_method_is_dispatched() {
    let names = method_names(&capabilities());
    for name in names {
        let mut tm = test_state();
        let response = run(&mut tm, &name, obj(vec![]));
        assert_ne!(error_code(&response).as_deref(), Some("unknown_method"), "{name}");
    }
    let mut tm = test_state();
    let response = run(&mut tm, "workspace.teleport", obj(vec![]));
    assert_eq!(error_code(&response).as_deref(), Some("unknown_method"));
}

#[test]
fn a_report_touches_only_its_workspace() {
    let mut tm = test_state();
    let first = tm.selected_id().unwrap();
    let first_panel = tm.selected().unwrap().focused_panel_id.unwrap();
    let _second = tm.add_workspace(Workspace::new(HOME));
    let selected_before = tm.selected_id();
    let second_dir_before = tm.get(1).unwrap().current_directory.clone();

    let response = run(
        &mut tm,
        "workspace.report_pwd",
        obj(vec![("workspace", id_text(first)), ("surface", id_text(first_panel)), ("path", s("/srv/app"))]),
    );
    assert!(response.reply.is_ok());
    assert!(response.read.is_none() && response.ui.is_none());
    assert_eq!(tm.selected_id(), selected_before);
    assert_eq!(tm.get(0).unwrap().current_directory, "/srv/app");
    assert_eq!(tm.get(0).unwrap().focused_panel_id, Some(first_panel));
    assert_eq!(tm.get(1).unwrap().current_directory, second_dir_before);
}

#[test]
fn notification_create_hands_over_the_notice() {
    let mut tm = test_state();
    let (workspace_id, panel_id) = {
        let workspace = tm.selected().unwrap();
        (workspace.id, workspace.focused_panel_id.unwrap())
    };
    let quiet = run(
        &mut tm,
        "notification.create",
        obj(vec![("title", s("Build")), ("surface", id_text(panel_id)), ("send_desktop", JsonValue::Bool(false))]),
    );
    let n = quiet.notice.expect("notice");
    assert_eq!(n.title, "Build");
    assert_eq!(n.body, "");
    assert_eq!(n.workspace_id, workspace_id);
    assert_eq!(n.panel_id, Some(panel_id));
    assert!(!n.send_desktop);

    let loud = run(&mut tm, "notification.create", obj(vec![("body", s("done"))]));
    let n = loud.notice.expect("notice");
    assert_eq!(n.title, "cmux");
    assert_eq!(n.panel_id, None);
    assert!(n.send_desktop);

    let refused = run(&mut tm, "notification.create", obj(vec![("workspace", s("bad"))]));
    assert!(refused.notice.is_none());
}

#[test]
fn capabilities_list_each_method_once() {
    let names = method_names(&capabilities());
    for (i, a) in names.iter().enumerate() {
        for b in names.iter().skip(i + 1) {
            assert_ne!(a, b);
        }
    }
}

#[test]
fn reports_echo_what_they_record() {
    let mut tm = test_state();
    let panel = tm.selected().unwrap().focused_panel_id.unwrap();
    let target = |extra: Vec<(&str, JsonValue)>| {
        let mut v = vec![("surface", id_text(panel))];
        v.extend(extra);
        obj(v)
    };

    let r = run(&mut tm, "workspace.report_ports", target(vec![("ports", JsonValue::Array(vec![JsonValue::UInt(3000), JsonValue::UInt(8080)]))]));
    match result(&r).get("ports") {
        Some(JsonValue::Array(a)) => {
            assert_eq!(a.len(), 2);
            assert_eq!(a[1].as_u64(), Some(8080));
        },
        _ => panic!("ports expected"),
    }

    let r = run(&mut tm, "workspace.report_pr", target(vec![("number", JsonValue::UInt(42)), ("state", s("open"))]));
    let pr = result(&r).get("pr").unwrap();
    assert_eq!(pr.get("number").and_then(|n| n.as_u64()), Some(42));
    assert_eq!(pr.get("label").and_then(|n| n.as_str()), Some("PR"));

    let r = run(&mut tm, "workspace.report_review", target(vec![("title", s("Look")), ("state", s("open"))]));
    let pr = result(&r).get("pr").unwrap();
    // A review without a number keeps the number already recorded.
    assert_eq!(pr.get("number").and_then(|n| n.as_u64()), Some(42));
    assert_eq!(pr.get("label").and_then(|n| n.as_str()), Some("MR"));
    assert_eq!(pr.get("title").and_then(|n| n.as_str()), Some("Look"));

    let r = run(&mut tm, "workspace.report_meta", target(vec![("key", s("k")), ("label", s("L")), ("value", s("v"))]));
    let item = result(&r).get("item").unwrap();
    assert_eq!(item.get("key").and_then(|n| n.as_str()), Some("k"));
    assert_eq!(item.get("value").and_then(|n| n.as_str()), Some("v"));

    let r = run(&mut tm, "workspace.report_meta_block", target(vec![("key", s("b")), ("content", s("text"))]));
    let block = result(&r).get("block").unwrap();
    assert_eq!(block.get("key").and_then(|n| n.as_str()), Some("b"));
    assert_eq!(block.get("content").and_then(|n| n.as_str()), Some("text"));
}

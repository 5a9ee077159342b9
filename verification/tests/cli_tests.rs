use cmux::cli::{
    default_socket_path, format_response, reply_failed, request_for, unescape_text, CliCommand,
    Shown,
};
use cmux::protocol::JsonValue;

fn s(text: &str) -> JsonValue {
    JsonValue::Str(text.to_string())
}

fn obj(entries: Vec<(&str, JsonValue)>) -> JsonValue {
    JsonValue::Object(entries.into_iter().map(|(k, v)| (k.to_string(), v)).collect())
}

fn keys(v: &JsonValue) -> Vec<String> {
    match v {
        JsonValue::Object(es) => es.iter().map(|(k, _)| k.clone()).collect(),
        _ => panic!("object expected"),
    }
}

#[test]
fn optional_parameters_are_left_out() {
    let (method, params) = request_for(&CliCommand::WorkspaceNew { directory: None, title: Some("Build".into()) });
    assert_eq!(method, "workspace.new");
    assert_eq!(keys(&params), vec!["title".to_string()]);
    assert_eq!(params.str_field("title"), Some("Build"));
}

#[test]
fn set_status_sends_nulls_for_missing_icon_and_color() {
    let (method, params) = request_for(&CliCommand::SetStatus {
        key: "agent".into(),
        value: "codex".into(),
        icon: None,
        color: Some("blue".into()),
    });
    assert_eq!(method, "workspace.set_status");
    assert_eq!(keys(&params), vec!["key", "value", "icon", "color"]);
    assert!(params.get("icon").unwrap().is_null());
    assert_eq!(params.str_field("color"), Some("blue"));
}

#[test]
fn notify_inverts_the_desktop_flag() {
    let (method, params) = request_for(&CliCommand::Notify {
        title: "Done".into(),
        body: "".into(),
        workspace: None,
        surface: None,
        no_desktop: true,
    });
    assert_eq!(method, "notification.create");
    assert_eq!(params.get("send_desktop").and_then(|v| v.as_bool()), Some(false));
}

#[test]
fn report_commands_carry_their_values() {
    let (method, params) = request_for(&CliCommand::ReportPorts {
        workspace: Some("w".into()),
        surface: None,
        ports: vec![3000, 8080],
    });
    assert_eq!(method, "workspace.report_ports");
    assert_eq!(keys(&params), vec!["workspace", "ports"]);
    match params.get("ports") {
        Some(JsonValue::Array(items)) => {
            assert_eq!(items.iter().map(|v| v.as_u64().unwrap()).collect::<Vec<_>>(), vec![3000, 8080])
        }
        _ => panic!("ports array expected"),
    }
    let (_, meta) = request_for(&CliCommand::ReportMeta {
        workspace: None,
        surface: None,
        key: "k".into(),
        value: "v".into(),
        label: None,
        icon: None,
        color: None,
        url: None,
        priority: Some(-3),
        format: None,
    });
    assert_eq!(meta.get("priority").and_then(|v| v.as_i64()), Some(-3));
    let (_, git) = request_for(&CliCommand::ReportGitBranch {
        workspace: None,
        surface: None,
        branch: "main".into(),
        dirty: true,
    });
    assert_eq!(git.get("is_dirty").and_then(|v| v.as_bool()), Some(true));
}

#[test]
fn send_text_unescapes_newlines() {
    assert_eq!(unescape_text("ls\\n"), "ls\n");
    assert_eq!(unescape_text("a\\\\nb"), "a\\\nb");
    assert_eq!(unescape_text("plain"), "plain");
    let (method, params) = request_for(&CliCommand::SurfaceSendText { text: "echo hi\\n".into(), surface: None });
    assert_eq!(method, "surface.send_input");
    assert_eq!(params.str_field("input"), Some("echo hi\n"));
}

#[test]
fn replies_are_shown() {
    let pong = obj(vec![("ok", JsonValue::Bool(true)), ("result", obj(vec![("pong", JsonValue::Bool(true))]))]);
    match format_response("system.ping", &pong) {
        Shown::Lines(lines) => assert_eq!(lines, vec!["pong".to_string()]),
        other => panic!("unexpected {other:?}"),
    }
    assert!(!reply_failed(&pong));

    let list = obj(vec![
        ("ok", JsonValue::Bool(true)),
        (
            "result",
            obj(vec![(
                "workspaces",
                JsonValue::Array(vec![
                    obj(vec![
                        ("index", JsonValue::UInt(0)),
                        ("title", s("Build")),
                        ("selected", JsonValue::Bool(true)),
                        ("panel_count", JsonValue::UInt(2)),
                    ]),
                    obj(vec![("index", JsonValue::UInt(1)), ("is_selected", JsonValue::Bool(false))]),
                ]),
            )]),
        ),
    ]);
    match format_response("workspace.list", &list) {
        Shown::Lines(lines) => assert_eq!(lines, vec!["*0 Build (2 panels)".to_string(), " 1 ? (0 panels)".to_string()]),
        other => panic!("unexpected {other:?}"),
    }

    let caps = obj(vec![
        ("ok", JsonValue::Bool(true)),
        ("result", obj(vec![("methods", JsonValue::Array(vec![s("system.ping"), JsonValue::UInt(3)]))])),
    ]);
    match format_response("system.capabilities", &caps) {
        Shown::Lines(lines) => assert_eq!(lines, vec!["  system.ping".to_string()]),
        other => panic!("unexpected {other:?}"),
    }

    let failed = obj(vec![
        ("ok", JsonValue::Bool(false)),
        ("error", obj(vec![("code", s("not_found")), ("message", s("Workspace not found"))])),
    ]);
    match format_response("workspace.select", &failed) {
        Shown::Error(line) => assert_eq!(line, "Error [not_found]: Workspace not found"),
        other => panic!("unexpected {other:?}"),
    }
    assert!(reply_failed(&failed));
    assert!(matches!(format_response("x", &obj(vec![])), Shown::Nothing));
    assert!(matches!(
        format_response("workspace.next", &obj(vec![("ok", JsonValue::Bool(true)), ("result", JsonValue::Null)])),
        Shown::ResultJson
    ));
    match format_response("workspace.next", &obj(vec![("ok", JsonValue::Bool(true))])) {
        Shown::Lines(lines) => assert_eq!(lines, vec!["OK".to_string()]),
        other => panic!("unexpected {other:?}"),
    }
}

#[test]
fn socket_path_prefers_private_runtime_dir() {
    assert_eq!(default_socket_path(Some("/run/user/1000"), true, 1000), "/run/user/1000/cmux.sock");
    assert_eq!(default_socket_path(Some("/run/user/1000"), false, 1000), "/tmp/cmux-1000.sock");
    assert_eq!(default_socket_path(Some("relative"), true, 7), "/tmp/cmux-7.sock");
    assert_eq!(default_socket_path(None, true, 0), "/tmp/cmux-0.sock");
}

use cmux::ghostty_actions::{
    action_requires_surface, action_tag_name, follow_up, reduce_action, ActionFollowUp, ActionTag,
    GhosttyAction, GhosttyActionDisposition, GhosttyEffect, GhosttyTargetSnapshot,
    SurfaceCellSize, SurfaceCommandFinished, SurfaceScrollbarState,
};
use cmux::ids::{Id, NIL_ID};

fn new_id() -> u128 {
    uuid::Uuid::new_v4().as_u128()
}

fn panel_id() -> Id {
    NIL_ID
}

#[test]
fn action_tag_names_cover_known_linux_callbacks() {
    assert_eq!(action_tag_name(ActionTag::CellSize), "CELL_SIZE");
    assert_eq!(action_tag_name(ActionTag::Scrollbar), "SCROLLBAR");
    assert_eq!(action_tag_name(ActionTag::CommandFinished), "COMMAND_FINISHED");
}

#[test]
fn set_title_syncs_focused_panel_and_workspace() {
    let panel_id = panel_id();
    let snapshot = GhosttyTargetSnapshot {
        panel_id: Some(panel_id),
        focused_panel_id: Some(panel_id),
        panel_title: Some("shell".into()),
        workspace_process_title: Some("shell".into()),
        surface_title: Some("shell".into()),
        ..GhosttyTargetSnapshot::default()
    };

    let outcome = reduce_action(&snapshot, &GhosttyAction::SetTitle { title: "bash".into() });

    assert!(outcome.callback_result);
    assert!(outcome.refresh_ui);
    assert_eq!(outcome.disposition, GhosttyActionDisposition::Applied);
    assert_eq!(
        outcome.effects,
        vec![
            GhosttyEffect::SetSurfaceTitle("bash".into()),
            GhosttyEffect::SyncPanelTitle { panel_id, title: "bash".into() }
        ]
    );
}

#[test]
fn set_title_skips_redundant_panel_sync_for_unfocused_panel() {
    let panel_id = panel_id();
    let snapshot = GhosttyTargetSnapshot {
        panel_id: Some(panel_id),
        focused_panel_id: Some(new_id()),
        panel_title: Some("bash".into()),
        workspace_process_title: Some("bash".into()),
        surface_title: Some("bash".into()),
        ..GhosttyTargetSnapshot::default()
    };

    let outcome = reduce_action(&snapshot, &GhosttyAction::SetTitle { title: "bash".into() });

    assert_eq!(outcome.effects, Vec::<GhosttyEffect>::new());
    assert!(!outcome.refresh_ui);
}

#[test]
fn pwd_syncs_focused_panel_and_workspace() {
    let panel_id = panel_id();
    let snapshot = GhosttyTargetSnapshot {
        panel_id: Some(panel_id),
        focused_panel_id: Some(panel_id),
        panel_directory: Some("/tmp/old".into()),
        workspace_current_directory: Some("/tmp/old".into()),
        surface_pwd: Some("/tmp/old".into()),
        ..GhosttyTargetSnapshot::default()
    };

    let outcome = reduce_action(&snapshot, &GhosttyAction::Pwd { pwd: "/tmp/new".into() });

    assert!(outcome.callback_result);
    assert!(outcome.refresh_ui);
    assert_eq!(
        outcome.effects,
        vec![
            GhosttyEffect::SetSurfacePwd("/tmp/new".into()),
            GhosttyEffect::SyncPanelPwd { panel_id, pwd: "/tmp/new".into() }
        ]
    );
}

#[test]
fn cell_size_returns_surface_effect() {
    let size = SurfaceCellSize { width_px: 9, height_px: 18 };
    let outcome = reduce_action(&GhosttyTargetSnapshot::default(), &GhosttyAction::CellSize { size });

    assert_eq!(outcome.effects, vec![GhosttyEffect::SetSurfaceCellSize(size)]);
    assert!(!outcome.refresh_ui);
}

#[test]
fn scrollbar_returns_surface_effect() {
    let state = SurfaceScrollbarState { total: 100, offset: 20, len: 50 };
    let outcome = reduce_action(&GhosttyTargetSnapshot::default(), &GhosttyAction::Scrollbar { state });

    assert_eq!(outcome.effects, vec![GhosttyEffect::SetSurfaceScrollbar(state)]);
}

#[test]
fn command_finished_records_metadata_without_refresh() {
    let command = SurfaceCommandFinished { exit_code: Some(1), duration_ns: 42 };
    let outcome = reduce_action(
        &GhosttyTargetSnapshot::default(),
        &GhosttyAction::CommandFinished { command },
    );

    assert_eq!(outcome.effects, vec![GhosttyEffect::SetSurfaceCommandFinished(command)]);
    assert!(!outcome.refresh_ui);
}

#[test]
fn recognized_noops_are_not_reported_as_unknown() {
    let outcome = reduce_action(&GhosttyTargetSnapshot::default(), &GhosttyAction::QuitTimer { mode: 1 });

    assert_eq!(outcome.disposition, GhosttyActionDisposition::RecognizedNoop);
    assert!(!outcome.callback_result);
}

#[test]
fn unknown_action_is_reported_as_unknown() {
    let outcome = reduce_action(&GhosttyTargetSnapshot::default(), &GhosttyAction::Unknown { tag: 999 });

    assert_eq!(outcome.disposition, GhosttyActionDisposition::Unknown);
    assert!(!outcome.callback_result);
}

#[test]
fn render_queues_a_render_without_refresh() {
    let outcome = reduce_action(&GhosttyTargetSnapshot::default(), &GhosttyAction::Render);
    assert_eq!(outcome.effects, vec![GhosttyEffect::QueueRender]);
    assert!(outcome.callback_result);
    assert!(!outcome.refresh_ui);
    assert_eq!(outcome.disposition, GhosttyActionDisposition::Applied);
}

#[test]
fn applying_the_effects_settles_the_target() {
    let panel_id = panel_id();
    let snapshot = GhosttyTargetSnapshot {
        panel_id: Some(panel_id),
        focused_panel_id: Some(panel_id),
        panel_title: Some("shell".into()),
        workspace_process_title: Some("shell".into()),
        surface_title: Some("shell".into()),
        ..GhosttyTargetSnapshot::default()
    };
    let action = GhosttyAction::SetTitle { title: "bash".into() };
    let settled = GhosttyTargetSnapshot {
        panel_title: Some("bash".into()),
        workspace_process_title: Some("bash".into()),
        surface_title: Some("bash".into()),
        ..snapshot.clone()
    };
    assert!(!reduce_action(&snapshot, &action).effects.is_empty());
    assert!(reduce_action(&settled, &action).effects.is_empty());
}

#[test]
fn title_and_pwd_need_a_surface() {
    assert!(action_requires_surface(&GhosttyAction::SetTitle { title: "x".into() }));
    assert!(action_requires_surface(&GhosttyAction::Pwd { pwd: "/".into() }));
    assert!(!action_requires_surface(&GhosttyAction::QuitTimer { mode: 0 }));
    let outcome = reduce_action(&GhosttyTargetSnapshot::default(), &GhosttyAction::Unknown { tag: 7 });
    assert_eq!(follow_up(&GhosttyAction::Unknown { tag: 7 }, &outcome), ActionFollowUp::Nothing);
    let size = SurfaceCellSize { width_px: 8, height_px: 16 };
    let action = GhosttyAction::CellSize { size };
    let outcome = reduce_action(&GhosttyTargetSnapshot::default(), &action);
    assert_eq!(follow_up(&action, &outcome), ActionFollowUp::PersistSession);
}

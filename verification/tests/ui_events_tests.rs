use cmux::commands::UiRequest;
use cmux::ui_events::{coalesce_ui_events, UiEvent};

#[test]
fn bursts_merge_refreshes_and_keep_inputs_in_order() {
    let batch = coalesce_ui_events(vec![
        UiEvent::Request(UiRequest::SendInput { panel_id: 1, text: "a".into() }),
        UiEvent::Request(UiRequest::FocusSurface { panel_id: 2, present_window: true }),
        UiEvent::Request(UiRequest::CloseSurface { panel_id: 3 }),
        UiEvent::Request(UiRequest::FocusSurface { panel_id: 4, present_window: false }),
    ]);
    assert_eq!(batch.immediate.len(), 2);
    assert!(matches!(batch.immediate[0], UiRequest::SendInput { panel_id: 1, .. }));
    assert!(matches!(batch.immediate[1], UiRequest::CloseSurface { panel_id: 3 }));
    assert!(batch.refresh);
    assert!(batch.present_window);
    assert_eq!(batch.focus_surface, Some((4, false)));

    let quiet = coalesce_ui_events(vec![UiEvent::Request(UiRequest::FocusWindow)]);
    assert!(!quiet.refresh);
    assert!(quiet.present_window);
    assert_eq!(quiet.focus_surface, None);

    let refresh = coalesce_ui_events(vec![UiEvent::Refresh, UiEvent::Refresh]);
    assert!(refresh.refresh);
    assert!(!refresh.present_window);
    assert!(refresh.immediate.is_empty());
}

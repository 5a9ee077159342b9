use std::collections::HashMap;

use cmux::pane_view::{pane_content, PaneContent};
use cmux::panel::Panel;

fn new_id() -> u128 {
    uuid::Uuid::new_v4().as_u128()
}

#[test]
fn pane_shows_placeholder_single_or_tabs() {
    let mut panels = HashMap::new();
    let mut a = Panel::new();
    a.custom_title = Some("Editor".into());
    let a_id = a.id;
    let b = Panel::new();
    let b_id = b.id;
    panels.insert(a_id, a);
    panels.insert(b_id, b);
    let missing = new_id();

    assert!(matches!(pane_content(&vec![], None, &panels, None), PaneContent::Empty));
    assert!(matches!(pane_content(&vec![missing], None, &panels, None), PaneContent::Missing));
    match pane_content(&vec![b_id], Some(b_id), &panels, Some(b_id)) {
        PaneContent::Single { panel_id, attention } => {
            assert_eq!(panel_id, b_id);
            assert!(attention);
        }
        other => panic!("unexpected {other:?}"),
    }
    match pane_content(&vec![a_id, missing, b_id], Some(b_id), &panels, Some(a_id)) {
        PaneContent::Tabs { pages, selected } => {
            assert_eq!(selected, Some(b_id));
            assert_eq!(pages.len(), 2);
            assert_eq!(pages[0].title, "Editor");
            assert!(pages[0].attention);
            assert_eq!(pages[1].title, "Terminal");
            assert!(!pages[1].attention);
        }
        other => panic!("unexpected {other:?}"),
    }
}

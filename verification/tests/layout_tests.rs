use cmux::layout::{
    FocusDirection, LayoutNode, Pane, SplitBranch, SplitOrientation, DIVIDER_MIDDLE,
};

fn new_id() -> u128 {
    uuid::Uuid::new_v4().as_u128()
}

#[test]
fn test_single_pane() {
    let id = new_id();
    let node = LayoutNode::single_pane(id);
    assert_eq!(node.all_panel_ids(), vec![id]);
}

#[test]
fn test_split() {
    let id1 = new_id();
    let id2 = new_id();
    let node = LayoutNode::single_pane(id1).split(SplitOrientation::Horizontal, id2);
    let ids = node.all_panel_ids();
    assert_eq!(ids.len(), 2);
    assert!(ids.contains(&id1));
    assert!(ids.contains(&id2));
}

#[test]
fn test_remove_panel_collapses_split() {
    let id1 = new_id();
    let id2 = new_id();
    let mut node = LayoutNode::single_pane(id1).split(SplitOrientation::Horizontal, id2);
    assert!(node.remove_panel(id2));
    assert_eq!(node.all_panel_ids(), vec![id1]);
    // Should have collapsed back to a single pane
    assert!(matches!(node, LayoutNode::Pane { .. }));
}

#[test]
fn test_set_divider_position_for_split_updates_matching_split() {
    let id1 = new_id();
    let id2 = new_id();
    let id3 = new_id();
    let mut node = LayoutNode::single_pane(id1).split(SplitOrientation::Horizontal, id2);
    node = node.split(SplitOrientation::Vertical, id3);

    assert!(node.set_divider_position_for_split(&[id1, id2], &[id3], 750_000));

    match node {
        LayoutNode::Split { divider_position, .. } => assert_eq!(divider_position, 750_000),
        _ => panic!("expected split layout"),
    }
}

#[test]
fn test_set_divider_position_for_split_updates_nested_split() {
    let id1 = new_id();
    let id2 = new_id();
    let id3 = new_id();

    let mut node = LayoutNode::Split {
        orientation: SplitOrientation::Horizontal,
        divider_position: DIVIDER_MIDDLE,
        first: Box::new(LayoutNode::single_pane(id1).split(SplitOrientation::Vertical, id2)),
        second: Box::new(LayoutNode::single_pane(id3)),
    };

    assert!(node.set_divider_position_for_split(&[id1], &[id2], 200_000));

    match node {
        LayoutNode::Split { first, .. } => match *first {
            LayoutNode::Split { divider_position, .. } => assert_eq!(divider_position, 200_000),
            _ => panic!("expected nested split"),
        },
        _ => panic!("expected outer split"),
    }
}

#[test]
fn test_select_panel_in_split() {
    let id1 = new_id();
    let id2 = new_id();
    let mut node = LayoutNode::single_pane(id1).split(SplitOrientation::Vertical, id2);
    assert!(node.select_panel(id2));

    let mut selected = None;
    if let LayoutNode::Split { second, .. } = &node {
        if let LayoutNode::Pane { pane } = second.as_ref() {
            selected = pane.selected_panel_id;
        }
    }

    assert_eq!(selected, Some(id2));
}

#[test]
fn test_path_to_pane_returns_branch_steps() {
    let id1 = new_id();
    let id2 = new_id();
    let id3 = new_id();
    let right_pane = Pane::single_panel(id3);
    let right_pane_id = right_pane.id;
    let node = LayoutNode::Split {
        orientation: SplitOrientation::Horizontal,
        divider_position: DIVIDER_MIDDLE,
        first: Box::new(LayoutNode::single_pane(id1).split(SplitOrientation::Vertical, id2)),
        second: Box::new(LayoutNode::Pane { pane: right_pane }),
    };

    let path = node.path_to_pane(right_pane_id).unwrap();
    assert_eq!(path.len(), 1);
    assert_eq!(path[0].orientation, SplitOrientation::Horizontal);
    assert_eq!(path[0].branch, SplitBranch::Second);
}

#[test]
fn test_adjust_divider_for_pane_uses_nearest_matching_ancestor() {
    let id1 = new_id();
    let id2 = new_id();
    let id3 = new_id();
    let mut node = LayoutNode::Split {
        orientation: SplitOrientation::Horizontal,
        divider_position: DIVIDER_MIDDLE,
        first: Box::new(LayoutNode::single_pane(id1).split(SplitOrientation::Vertical, id2)),
        second: Box::new(LayoutNode::single_pane(id3)),
    };
    let target_pane_id = node.find_pane_id_with_panel(id2).unwrap();

    assert!(node.adjust_divider_for_pane(target_pane_id, FocusDirection::Down, 100_000, 100_000, 900_000));

    match &node {
        LayoutNode::Split { divider_position, first, .. } => {
            assert_eq!(*divider_position, 500_000);
            match first.as_ref() {
                LayoutNode::Split { divider_position, .. } => assert_eq!(*divider_position, 600_000),
                _ => panic!("expected nested split"),
            }
        }
        _ => panic!("expected split"),
    }
}

#[test]
fn removing_an_absent_panel_changes_nothing() {
    let id1 = new_id();
    let mut node = LayoutNode::single_pane(id1);
    assert!(!node.remove_panel(new_id()));
    assert_eq!(node.all_panel_ids(), vec![id1]);
}

#[test]
fn divider_clamps_to_bounds() {
    let id1 = new_id();
    let id2 = new_id();
    let mut node = LayoutNode::single_pane(id1).split(SplitOrientation::Horizontal, id2);
    let pane = node.find_pane_id_with_panel(id2).unwrap();
    assert!(node.adjust_divider_for_pane(pane, FocusDirection::Right, 900_000, 100_000, 900_000));
    match &node {
        LayoutNode::Split { divider_position, .. } => assert_eq!(*divider_position, 900_000),
        _ => panic!("expected split"),
    }
    // A vertical move finds no horizontal-only ancestor.
    assert!(!node.adjust_divider_for_pane(pane, FocusDirection::Up, 100_000, 100_000, 900_000));
}

#[test]
fn copy_keeps_the_tree() {
    let id1 = new_id();
    let id2 = new_id();
    let node = LayoutNode::single_pane(id1).split(SplitOrientation::Vertical, id2);
    let copy = node.copy();
    assert_eq!(copy.all_panel_ids(), node.all_panel_ids());
    assert_eq!(copy.all_pane_ids(), node.all_pane_ids());
}

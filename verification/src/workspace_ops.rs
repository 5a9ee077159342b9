//! Operations on a workspace: creation, splitting, closing, focus and the
//! metadata that tools report about its panels.

use vstd::prelude::*;

use std::collections::HashMap;

use crate::ids::{new_id, Id};
use crate::layout::{
    first_of, ids_copy, lemma_panes_nonempty, position_of, vec_contains, PaneView, EdgePreference, FocusDirection, LayoutNode, LayoutView, Pane,
    SplitBranch, SplitOrientation, SplitPathStep,
};
use crate::panel::{
    blank_panel, default_title, now_micros, opt_string_is, ports_eq, terminal_title, GitBranch,
    GitBranchView, Panel, PanelView, PullRequestChecks, PullRequestMetadata, PullRequestState,
    PullRequestView, ShellActivityState, ShellState, ShellStateView, Timestamp, MetadataItem,
    MetadataItemView, MetadataBlock, MetadataBlockView, str_eq,
};
use vstd::pervasive::VecAdditionalExecFns;
use crate::ordering::{blocks_sorted, items_sorted, sort_blocks, sort_items};
use crate::text::{opt_truncate, opt_truncated, opt_view, truncate_chars, truncate_str};
use crate::workspace::{
    first_candidate, latest_candidate, lemma_no_candidate, panels_get_mut, MetaField, Workspace,
};

verus! {

broadcast use {vstd::std_specs::hash::group_hash_axioms, vstd::string::group_string_axioms};

/// Two maps that hold a key and agree elsewhere have the same keys.
pub proof fn lemma_same_keys(a: Map<Id, Panel>, b: Map<Id, Panel>, id: Id)
    requires
        a.contains_key(id),
        b.contains_key(id),
        a.remove(id) == b.remove(id),
    ensures
        a.dom() == b.dom(),
{
    assert forall|k: Id| a.dom().contains(k) == b.dom().contains(k) by {
        if k != id {
            assert(a.remove(id).dom().contains(k) == a.dom().contains(k));
            assert(b.remove(id).dom().contains(k) == b.dom().contains(k));
        }
    }
    assert(a.dom() =~= b.dom());
}

/// Whether a step on the path to the focused panel has a neighbour in
/// the direction: the focused side is the second of a split across the
/// direction's axis for left and up, the first for right and down.
pub open spec fn step_faces(step: SplitPathStep, direction: FocusDirection) -> bool {
    match direction {
        FocusDirection::Left => step.orientation == SplitOrientation::Horizontal && step.branch
            == SplitBranch::Second,
        FocusDirection::Right => step.orientation == SplitOrientation::Horizontal && step.branch
            == SplitBranch::First,
        FocusDirection::Up => step.orientation == SplitOrientation::Vertical && step.branch
            == SplitBranch::Second,
        FocusDirection::Down => step.orientation == SplitOrientation::Vertical && step.branch
            == SplitBranch::First,
    }
}

/// The edge of the neighbouring side where the focus enters it.
pub open spec fn entry_edge(direction: FocusDirection) -> EdgePreference {
    match direction {
        FocusDirection::Left => EdgePreference::Right,
        FocusDirection::Right => EdgePreference::Left,
        FocusDirection::Up => EdgePreference::Bottom,
        FocusDirection::Down => EdgePreference::Top,
    }
}

/// The node reached from `t` by following the branches of `path`, if
/// each step meets a split.
pub open spec fn node_at(t: LayoutView, path: Seq<SplitPathStep>) -> Option<LayoutView>
    decreases path.len(),
{
    if path.len() == 0 {
        Some(t)
    } else {
        match node_at(t, path.drop_last()) {
            Some(LayoutView::Split { first, second, .. }) => match path.last().branch {
                SplitBranch::First => Some(*first),
                SplitBranch::Second => Some(*second),
            },
            _ => None,
        }
    }
}

/// The side of the split at step `i` of the path that the path does not
/// take.
pub open spec fn sibling_at(t: LayoutView, path: Seq<SplitPathStep>, i: int) -> Option<LayoutView> {
    match node_at(t, path.take(i)) {
        Some(LayoutView::Split { first, second, .. }) => match path[i].branch {
            SplitBranch::First => Some(*second),
            SplitBranch::Second => Some(*first),
        },
        _ => None,
    }
}

/// The pane a move in the direction focuses, searching the first `k`
/// steps of the path from the innermost out: at each step that faces the
/// direction, the pane on the entry edge of the other side, taken where it
/// has a selected panel. The search gives up where a step meets no split.
pub open spec fn move_target(t: LayoutView, path: Seq<SplitPathStep>, k: int, direction: FocusDirection) -> Option<Id>
    decreases k,
{
    if k <= 0 {
        None
    } else if !step_faces(path[k - 1], direction) {
        move_target(t, path, k - 1, direction)
    } else {
        match sibling_at(t, path, k - 1) {
            None => None,
            Some(side) => {
                let target = side.pane_on_edge(entry_edge(direction));
                if t.selected_of_pane(target) is Some {
                    Some(target)
                } else {
                    move_target(t, path, k - 1, direction)
                }
            },
        }
    }
}

/// Once a prefix of the path meets no split, no longer prefix does.
pub proof fn lemma_node_at_none(t: LayoutView, path: Seq<SplitPathStep>, j: int, i: int)
    requires
        0 <= j <= i <= path.len(),
        node_at(t, path.take(j)) is None,
    ensures
        node_at(t, path.take(i)) is None,
    decreases i - j,
{
    if j < i {
        assert(path.take(j + 1).drop_last() =~= path.take(j));
        lemma_node_at_none(t, path, j + 1, i);
    }
}

/// The pane the direction names from the focused panel, if any.
fn faces(step: SplitPathStep, direction: FocusDirection) -> (f: bool)
    ensures
        f == step_faces(step, direction),
{
    match direction {
        FocusDirection::Left => step.orientation == SplitOrientation::Horizontal && step.branch
            == SplitBranch::Second,
        FocusDirection::Right => step.orientation == SplitOrientation::Horizontal && step.branch
            == SplitBranch::First,
        FocusDirection::Up => step.orientation == SplitOrientation::Vertical && step.branch
            == SplitBranch::Second,
        FocusDirection::Down => step.orientation == SplitOrientation::Vertical && step.branch
            == SplitBranch::First,
    }
}

/// The edge where the focus enters the neighbouring side.
fn edge_for(direction: FocusDirection) -> (e: EdgePreference)
    ensures
        e == entry_edge(direction),
{
    match direction {
        FocusDirection::Left => EdgePreference::Right,
        FocusDirection::Right => EdgePreference::Left,
        FocusDirection::Up => EdgePreference::Bottom,
        FocusDirection::Down => EdgePreference::Top,
    }
}

/// The index of a pane's selected panel among its tabs: its first
/// occurrence, or 0 where nothing or an absent panel is selected.
pub open spec fn selected_index(pane: PaneView) -> int {
    match pane.selected_panel_id {
        Some(s) => match pane.panel_ids.index_of_first(s) {
            Some(i) => i,
            None => 0,
        },
        None => 0,
    }
}

/// The index of the tab that cycling selects: the next one (wrapping to
/// the first) going forward, the previous one (wrapping to the last)
/// going back.
pub open spec fn cycled_index(pane: PaneView, forward: bool) -> int {
    let n = pane.panel_ids.len() as int;
    let c = selected_index(pane);
    if forward {
        (c + 1) % n
    } else if c == 0 {
        n - 1
    } else {
        c - 1
    }
}

/// The index of the first item keyed `key`, if any.
pub open spec fn item_index(s: Seq<MetadataItemView>, key: Seq<char>) -> Option<int>
    decreases s.len(),
{
    if s.len() == 0 {
        None
    } else {
        match item_index(s.drop_last(), key) {
            Some(i) => Some(i),
            None => if s.last().key == key {
                Some(s.len() - 1)
            } else {
                None
            },
        }
    }
}

/// The first item keyed `key` stays the first one keyed so in any longer
/// list.
pub proof fn lemma_item_index_prefix(s: Seq<MetadataItemView>, key: Seq<char>, j: int)
    requires
        0 <= j <= s.len(),
        item_index(s.take(j), key) is Some,
    ensures
        item_index(s, key) == item_index(s.take(j), key),
    decreases s.len() - j,
{
    if j < s.len() {
        assert(s.take(j + 1).drop_last() =~= s.take(j));
        lemma_item_index_prefix(s, key, j + 1);
    } else {
        assert(s.take(j) =~= s);
    }
}

/// The items after an upsert: the first one with the new item's key is
/// replaced, or the new item goes at the end.
pub open spec fn items_upserted(s: Seq<MetadataItemView>, x: MetadataItemView) -> Seq<MetadataItemView> {
    match item_index(s, x.key) {
        Some(i) => s.update(i, x),
        None => s.push(x),
    }
}

/// Whether an upsert changes the items: no item has the key, or the
/// first that has it differs.
pub open spec fn item_upsert_moves(s: Seq<MetadataItemView>, x: MetadataItemView) -> bool {
    match item_index(s, x.key) {
        Some(i) => s[i] != x,
        None => true,
    }
}

/// The index of the first item keyed `key`, if any.
fn find_item(v: &Vec<MetadataItem>, key: &str) -> (found: Option<usize>)
    ensures
        match found {
            Some(i) => item_index(v.deep_view(), key@) == Some(i as int) && i < v@.len(),
            None => item_index(v.deep_view(), key@) is None,
        },
{
    let ghost s = v.deep_view();
    let mut i: usize = 0;
    while i < v.len()
        invariant
            s == v.deep_view(),
            i <= s.len(),
            item_index(s.take(i as int), key@) is None,
        decreases v.len() - i,
    {
        proof {
            assert(s.take(i + 1).drop_last() =~= s.take(i as int));
            assert(s.take(i + 1).last() == s[i as int]);
        }
        if str_eq(v[i].key.as_str(), key) {
            proof {
                lemma_item_index_prefix(s, key@, i + 1);
            }
            return Some(i);
        }
        i = i + 1;
    }
    proof {
        assert(s.take(s.len() as int) =~= s);
    }
    None
}

/// The index of the first block keyed `key`, if any.
pub open spec fn block_index(s: Seq<MetadataBlockView>, key: Seq<char>) -> Option<int>
    decreases s.len(),
{
    if s.len() == 0 {
        None
    } else {
        match block_index(s.drop_last(), key) {
            Some(i) => Some(i),
            None => if s.last().key == key {
                Some(s.len() - 1)
            } else {
                None
            },
        }
    }
}

/// The first block keyed `key` stays the first one keyed so in any longer
/// list.
pub proof fn lemma_block_index_prefix(s: Seq<MetadataBlockView>, key: Seq<char>, j: int)
    requires
        0 <= j <= s.len(),
        block_index(s.take(j), key) is Some,
    ensures
        block_index(s, key) == block_index(s.take(j), key),
    decreases s.len() - j,
{
    if j < s.len() {
        assert(s.take(j + 1).drop_last() =~= s.take(j));
        lemma_block_index_prefix(s, key, j + 1);
    } else {
        assert(s.take(j) =~= s);
    }
}

/// The blocks after an upsert: the first one with the new block's key is
/// replaced, or the new block goes at the end.
pub open spec fn blocks_upserted(s: Seq<MetadataBlockView>, x: MetadataBlockView) -> Seq<MetadataBlockView> {
    match block_index(s, x.key) {
        Some(i) => s.update(i, x),
        None => s.push(x),
    }
}

/// Whether an upsert changes the blocks: no block has the key, or the
/// first that has it differs.
pub open spec fn block_upsert_moves(s: Seq<MetadataBlockView>, x: MetadataBlockView) -> bool {
    match block_index(s, x.key) {
        Some(i) => s[i] != x,
        None => true,
    }
}

/// The index of the first block keyed `key`, if any.
fn find_block(v: &Vec<MetadataBlock>, key: &str) -> (found: Option<usize>)
    ensures
        match found {
            Some(i) => block_index(v.deep_view(), key@) == Some(i as int) && i < v@.len(),
            None => block_index(v.deep_view(), key@) is None,
        },
{
    let ghost s = v.deep_view();
    let mut i: usize = 0;
    while i < v.len()
        invariant
            s == v.deep_view(),
            i <= s.len(),
            block_index(s.take(i as int), key@) is None,
        decreases v.len() - i,
    {
        proof {
            assert(s.take(i + 1).drop_last() =~= s.take(i as int));
            assert(s.take(i + 1).last() == s[i as int]);
        }
        if str_eq(v[i].key.as_str(), key) {
            proof {
                lemma_block_index_prefix(s, key@, i + 1);
            }
            return Some(i);
        }
        i = i + 1;
    }
    proof {
        assert(s.take(s.len() as int) =~= s);
    }
    None
}

/// An update time after a report: a fresh one where the value moved,
/// else as it was.
pub open spec fn stamp_after(before: Option<Timestamp>, after: Option<Timestamp>, moved: bool) -> bool {
    if moved {
        after is Some
    } else {
        after == before
    }
}


/// The pull-request metadata `set_panel_review` records: the panel's
/// previous metadata (or one built from the review) with the number, URL
/// and title replaced where given, and the label (cut to 16 bytes), state
/// and checks replaced.
pub open spec fn reviewed(
    prev: Option<PullRequestView>,
    label: Seq<char>,
    state: PullRequestState,
    checks: Option<PullRequestChecks>,
    number: Option<u32>,
    url: Option<Seq<char>>,
    title: Option<Seq<char>>,
) -> PullRequestView {
    let url = opt_truncated(url, 2048);
    let title = opt_truncated(title, 256);
    PullRequestView {
        number: if number is Some {
            number
        } else {
            match prev {
                Some(p) => p.number,
                None => None,
            }
        },
        url: if url is Some {
            url
        } else {
            match prev {
                Some(p) => p.url,
                None => None,
            }
        },
        label: truncate_chars(label, 16),
        title: if title is Some {
            title
        } else {
            match prev {
                Some(p) => p.title,
                None => None,
            }
        },
        state,
        branch: match prev {
            Some(p) => p.branch,
            None => None,
        },
        checks,
    }
}

/// The pull-request metadata a review records (see `reviewed`).
fn review_of(
    prev: &Option<PullRequestMetadata>,
    label: &str,
    state: PullRequestState,
    checks: Option<PullRequestChecks>,
    number: Option<u32>,
    url: Option<&str>,
    title: Option<&str>,
) -> (m: PullRequestMetadata)
    ensures
        m@ == reviewed(prev.deep_view(), label@, state, checks, number, opt_view(url), opt_view(title)),
{
    let mut m = match prev {
        Some(p) => p.copy(),
        None => PullRequestMetadata {
            number,
            url: opt_truncate(url, 2048),
            label: truncate_str(label, 16).to_owned(),
            title: opt_truncate(title, 256),
            state,
            branch: None,
            checks,
        },
    };
    if number.is_some() {
        m.number = number;
    }
    if url.is_some() {
        m.url = opt_truncate(url, 2048);
    }
    if title.is_some() {
        m.title = opt_truncate(title, 256);
    }
    m.label = truncate_str(label, 16).to_owned();
    m.state = state;
    m.checks = checks;
    m
}

impl Workspace {
    /// `self` is `old` with the panel `id` now `p`: the other panels and
    /// every field that panel updates and metadata syncs leave alone are
    /// as they were.
    pub open spec fn with_panel_as(self, old: Self, id: Id, p: PanelView) -> bool {
        &&& self.same_frame(old)
        &&& old.panels@.contains_key(id)
        &&& self.panels@.contains_key(id)
        &&& self.panels@.remove(id) == old.panels@.remove(id)
        &&& self.panel_view(id) == p
    }

    /// `self` is `old` with the panel `id` now `p`, after which the shown
    /// metadata and the focused pane were resynced.
    pub open spec fn panel_updated(self, old: Self, id: Id, p: PanelView) -> bool {
        &&& self.with_panel_as(old, id, p)
        &&& self.focused_pane_id == old.pane_after_sync()
        &&& self.synced()
    }

    /// Every field of `self` holds what it held in `old`, the panel map
    /// taken by its contents.
    pub open spec fn same_values(self, old: Self) -> bool {
        &&& self.same_record(old)
        &&& self.focused_panel_id == old.focused_panel_id
        &&& self.focused_pane_id == old.focused_pane_id
        &&& self.layout@ == old.layout@
        &&& self.panels@ == old.panels@
        &&& self.summary() == old.summary()
    }

    /// The fields that neither focus, layout nor panel changes touch are as
    /// in `old`.
    pub open spec fn same_record(self, old: Self) -> bool {
        &&& self.id == old.id
        &&& self.custom_title == old.custom_title
        &&& self.custom_color == old.custom_color
        &&& self.is_pinned == old.is_pinned
        &&& self.home_directory == old.home_directory
        &&& self.status_entries == old.status_entries
        &&& self.log_entries == old.log_entries
        &&& self.progress == old.progress
        &&& self.unread_count == old.unread_count
        &&& self.latest_notification == old.latest_notification
        &&& self.latest_notification_at == old.latest_notification_at
        &&& self.attention_panel_id == old.attention_panel_id
    }

    /// The workspace shows what its panels, focus and layout call for.
    pub open spec fn synced(self) -> bool {
        self.summary() == self.synced_summary()
    }

    /// A workspace as `new` makes it for the home directory `home`: one
    /// blank panel reporting `home` as its directory, focused, in a single
    /// pane; no title, color, pin, status, log, progress, notification or
    /// reported metadata; the shown metadata in sync.
    pub open spec fn fresh(self, home: Seq<char>) -> bool {
        &&& self.panels@.len() == 1
        &&& self.focused_panel_id is Some
        &&& self.panels@.contains_key(self.focused_panel_id->0)
        &&& self.panel_view(self.focused_panel_id->0) == blank_panel(self.focused_panel_id->0, Some(home))
        &&& self.layout@ is Pane
        &&& self.layout@->pane.panel_ids == seq![self.focused_panel_id->0]
        &&& self.layout@->pane.selected_panel_id == self.focused_panel_id
        &&& self.focused_pane_id == Some(self.layout@->pane.id)
        &&& self.home_directory@ == home
        &&& self.current_directory@ == home
        &&& self.process_title@ == default_title()
        &&& self.custom_title is None
        &&& self.custom_color is None
        &&& !self.is_pinned
        &&& self.status_entries@.len() == 0
        &&& self.log_entries@.len() == 0
        &&& self.progress is None
        &&& self.git_branch is None
        &&& self.shell_state is None
        &&& self.listening_ports@.len() == 0
        &&& self.tty_name is None
        &&& self.pr_metadata is None
        &&& self.metadata_items@.len() == 0
        &&& self.metadata_blocks@.len() == 0
        &&& self.unread_count == 0
        &&& self.latest_notification is None
        &&& self.latest_notification_at is None
        &&& self.attention_panel_id is None
        &&& self.synced()
    }

    /// Create a new workspace with a single terminal panel whose directory
    /// is `home`, the directory that stands for the workspace where no
    /// panel reports one.
    pub fn new(home: &str) -> (ws: Self)
        ensures
            ws.fresh(home@),
    {
        let mut panel = Panel::new();
        panel.directory = Some(home.to_owned());
        let panel_id = panel.id;
        let mut panels: HashMap<Id, Panel> = HashMap::new();
        panels.insert(panel_id, panel);
        let layout = LayoutNode::single_pane(panel_id);
        let focused_pane_id = match &layout {
            LayoutNode::Pane { pane } => Some(pane.id),
            LayoutNode::Split { .. } => None,
        };
        let ws = Workspace {
            id: new_id(),
            process_title: terminal_title().to_owned(),
            custom_title: None,
            custom_color: None,
            is_pinned: false,
            current_directory: home.to_owned(),
            home_directory: home.to_owned(),
            focused_pane_id,
            focused_panel_id: Some(panel_id),
            layout,
            panels,
            status_entries: Vec::new(),
            log_entries: Vec::new(),
            progress: None,
            git_branch: None,
            shell_state: None,
            listening_ports: Vec::new(),
            tty_name: None,
            pr_metadata: None,
            metadata_items: Vec::new(),
            metadata_blocks: Vec::new(),
            unread_count: 0,
            latest_notification: None,
            latest_notification_at: None,
            attention_panel_id: None,
        };
        proof {
            let order = ws.layout@.panels();
            assert(order =~= seq![panel_id]);
            assert(order.drop_last() =~= Seq::<Id>::empty());
            assert(order.drop_first() =~= Seq::<Id>::empty());
            assert(ws.panels@.dom() =~= set![panel_id]);
            assert(ws.metadata_items.deep_view() =~= Seq::empty());
            assert(ws.metadata_blocks.deep_view() =~= Seq::empty());
            assert(ws.panel_view(panel_id).listening_ports =~= Seq::empty());
            assert forall|f: MetaField| f != MetaField::Directory implies latest_candidate(
                ws.panels@,
                order,
                f,
            ) is None && first_candidate(ws.panels@, order, f) is None by {
                lemma_no_candidate(ws.panels@, order, f);
            }
            let want = ws.synced_summary();
            let have = ws.summary();
            assert(have.process_title == want.process_title);
            assert(have.current_directory == want.current_directory);
            assert(have.git_branch == want.git_branch);
            assert(have.shell_state == want.shell_state);
            assert(have.listening_ports == want.listening_ports);
            assert(have.tty_name == want.tty_name);
            assert(have.pr_metadata == want.pr_metadata);
            assert(have.metadata_items == want.metadata_items);
            assert(have.metadata_blocks == want.metadata_blocks);
        }
        ws
    }

    /// Create a new workspace whose terminal panel starts in `directory`.
    pub fn with_directory(home: &str, directory: &str) -> (ws: Self)
        ensures
            ws.panels@.len() == 1,
            ws.focused_panel_id is Some,
            ws.panels@.contains_key(ws.focused_panel_id->0),
            ws.panel_view(ws.focused_panel_id->0).directory == Some(directory@),
            ws.panel_view(ws.focused_panel_id->0).title is None,
            ws.layout@ is Pane,
            ws.layout@->pane.panel_ids == seq![ws.focused_panel_id->0],
            ws.focused_pane_id == Some(ws.layout@->pane.id),
            ws.home_directory@ == home@,
            ws.current_directory@ == directory@,
            ws.process_title@ == default_title(),
            ws.synced(),
    {
        let mut ws = Self::new(home);
        let ghost before = ws;
        if let Some(panel_id) = ws.focused_panel_id {
            let _ = ws.set_panel_directory(panel_id, directory);
            proof {
                lemma_same_keys(ws.panels@, before.panels@, panel_id);
            }
        }
        ws
    }

    /// The layout after a split that puts the new panel in a new pane of
    /// the given id: the pane node holding the focused panel is split, or
    /// the whole layout where no pane holds it.
    pub open spec fn split_layout(self, orientation: SplitOrientation, panel_id: Id, pane_id: Id) -> LayoutView {
        match self.focused_panel_id {
            Some(f) => match self.layout@.leaf_with_panel(f) {
                Some(leaf) => self.layout@.with_leaf_for_panel(f, leaf.split_with(orientation, panel_id, pane_id)),
                None => self.layout@.split_with(orientation, panel_id, pane_id),
            },
            None => self.layout@.split_with(orientation, panel_id, pane_id),
        }
    }

    /// Add a new panel, in the directory the workspace shows, by splitting
    /// the pane node that holds the focused panel; where no pane holds it,
    /// the whole layout is split. The new panel takes the focus and the
    /// shown metadata is resynced. Returns the new panel's id.
    pub fn split(&mut self, orientation: SplitOrientation) -> (new_panel_id: Id)
        ensures
            final(self).same_record(*old(self)),
            final(self).panels@ == old(self).panels@.insert(
                new_panel_id,
                final(self).panels@[new_panel_id],
            ),
            final(self).panel_view(new_panel_id) == blank_panel(
                new_panel_id,
                Some(old(self).current_directory@),
            ),
            exists|pane_id: Id|
                final(self).layout@ == #[trigger] old(self).split_layout(orientation, new_panel_id, pane_id),
            final(self).focused_panel_id == Some(new_panel_id),
            final(self).focused_pane_id == final(self).layout@.pane_id_with_panel(new_panel_id),
            final(self).synced(),
    {
        let mut new_panel = Panel::new();
        new_panel.directory = Some(self.current_directory.clone());
        let new_id = new_panel.id;
        self.panels.insert(new_id, new_panel);
        let ghost before = old(self).layout@;
        let ghost mut pane_id: Id = 0;
        let mut split_done = false;
        if let Some(focused_id) = self.focused_panel_id {
            if let Some(node) = self.layout.find_pane_with_panel(focused_id) {
                let mut leaf = LayoutNode::Pane { pane: Pane { id: 0, panel_ids: Vec::new(), selected_panel_id: None } };
                std::mem::swap(node, &mut leaf);
                let split = leaf.split(orientation, new_id);
                proof {
                    pane_id = (*split@->second)->pane.id;
                }
                *node = split;
                split_done = true;
            }
        }
        proof {
            if split_done {
                assert(self.layout@ == old(self).split_layout(orientation, new_id, pane_id));
            }
        }
        if !split_done {
            let mut root = LayoutNode::Pane { pane: Pane { id: 0, panel_ids: Vec::new(), selected_panel_id: None } };
            std::mem::swap(&mut self.layout, &mut root);
            let split = root.split(orientation, new_id);
            proof {
                pane_id = (*split@->second)->pane.id;
            }
            self.layout = split;
            assert(self.layout@ == old(self).split_layout(orientation, new_id, pane_id));
        }
        self.focused_panel_id = Some(new_id);
        self.focused_pane_id = self.layout.find_pane_id_with_panel(new_id);
        self.recompute_workspace_metadata();
        new_id
    }

    /// The panel that keeps the focus after the panel `id` is closed: the
    /// first panel left in layout order where the closed panel had the
    /// focus or no pane did, else the focused panel.
    pub open spec fn focus_after_close(self, id: Id) -> Option<Id> {
        if self.focused_panel_id == Some(id) || self.focused_pane_id is None {
            first_of(self.layout@.without_panel(id).panels())
        } else {
            self.focused_panel_id
        }
    }

    /// The pane that takes the focus with a panel: the first pane holding
    /// it, else the first pane of the layout.
    pub open spec fn pane_for_focus(t: LayoutView, panel: Option<Id>) -> Option<Id> {
        match panel {
            Some(p) => match t.pane_id_with_panel(p) {
                Some(pane) => Some(pane),
                None => first_of(t.panes()),
            },
            None => first_of(t.panes()),
        }
    }

    /// `self` is `old` with the panel taken out of its records and its
    /// layout, the focus moved off it where it had it (see
    /// `focus_after_close`), and the shown metadata resynced.
    pub open spec fn panel_removed(self, old: Self, panel_id: Id) -> bool {
        &&& self.same_record(old)
        &&& self.panels@ == old.panels@.remove(panel_id)
        &&& self.layout@ == old.layout@.without_panel(panel_id)
        &&& self.focused_panel_id == old.focus_after_close(panel_id)
        &&& self.focused_pane_id == Self::pane_for_focus(self.layout@, self.focused_panel_id)
        &&& self.synced()
    }

    /// Remove a panel by id from the panels and the layout, move the focus
    /// where the removed panel had it (see `focus_after_close`) and resync
    /// the shown metadata. Returns `true` if the panel existed.
    pub fn remove_panel(&mut self, panel_id: Id) -> (removed: bool)
        ensures
            removed == old(self).panels@.contains_key(panel_id),
            !removed ==> final(self).same_values(*old(self)),
            removed ==> final(self).panel_removed(*old(self), panel_id),
    {
        if self.panels.remove(&panel_id).is_none() {
            proof {
                assert(self.panels@ =~= old(self).panels@);
            }
            return false;
        }
        self.layout.remove_panel(panel_id);
        if self.focused_panel_id == Some(panel_id) || self.focused_pane_id.is_none() {
            let ids = self.layout.all_panel_ids();
            self.focused_panel_id = if ids.len() > 0 {
                Some(ids[0])
            } else {
                None
            };
        }
        proof {
            lemma_panes_nonempty(self.layout@);
        }
        let pane = match self.focused_panel_id {
            Some(id) => self.layout.find_pane_id_with_panel(id),
            None => None,
        };
        self.focused_pane_id = match pane {
            Some(p) => Some(p),
            None => {
                let panes = self.layout.all_pane_ids();
                if panes.len() > 0 {
                    Some(panes[0])
                } else {
                    None
                }
            },
        };
        self.recompute_workspace_metadata();
        true
    }

    /// Close a surface (panel): the same as `remove_panel`.
    pub fn close_surface(&mut self, panel_id: Id) -> (removed: bool)
        ensures
            removed == old(self).panels@.contains_key(panel_id),
            !removed ==> final(self).same_values(*old(self)),
            removed ==> final(self).panel_removed(*old(self), panel_id),
    {
        self.remove_panel(panel_id)
    }

    /// Focus a specific panel and select its tab in the first pane holding
    /// it; the shown metadata is resynced. Reports `false`, changing
    /// nothing, where no panel has the id or no pane holds it.
    pub fn focus_panel(&mut self, panel_id: Id) -> (focused: bool)
        ensures
            focused == (old(self).panels@.contains_key(panel_id) && old(self).layout@.panels().contains(panel_id)),
            !focused ==> *final(self) == *old(self),
            focused ==> {
                &&& final(self).same_record(*old(self))
                &&& final(self).panels@ == old(self).panels@
                &&& final(self).layout@ == old(self).layout@.with_panel_selected(panel_id)
                &&& final(self).focused_panel_id == Some(panel_id)
                &&& final(self).focused_pane_id == final(self).layout@.pane_id_with_panel(panel_id)
                &&& final(self).synced()
            },
    {
        if !self.panels.contains_key(&panel_id) {
            return false;
        }
        if self.layout.select_panel(panel_id) {
            self.focused_pane_id = self.layout.find_pane_id_with_panel(panel_id);
            self.focused_panel_id = Some(panel_id);
            self.recompute_workspace_metadata();
            true
        } else {
            proof {
                crate::layout::lemma_select_absent(old(self).layout@, panel_id);
            }
            false
        }
    }

    /// Focus a surface (panel): the same as `focus_panel`.
    pub fn focus_surface(&mut self, panel_id: Id) -> (focused: bool)
        ensures
            focused == (old(self).panels@.contains_key(panel_id) && old(self).layout@.panels().contains(panel_id)),
            !focused ==> *final(self) == *old(self),
            focused ==> {
                &&& final(self).same_record(*old(self))
                &&& final(self).panels@ == old(self).panels@
                &&& final(self).layout@ == old(self).layout@.with_panel_selected(panel_id)
                &&& final(self).focused_panel_id == Some(panel_id)
                &&& final(self).focused_pane_id == final(self).layout@.pane_id_with_panel(panel_id)
                &&& final(self).synced()
            },
    {
        self.focus_panel(panel_id)
    }

    /// The pane that has the focus after focusing the pane `pane_id`,
    /// whose selected panel is `panel`: the first pane holding that panel
    /// where the panel exists and a pane holds it, else `pane_id`.
    pub open spec fn pane_after_focus(self, pane_id: Id, panel: Id) -> Option<Id> {
        if self.panels@.contains_key(panel) && self.layout@.pane_id_with_panel(panel) is Some {
            self.layout@.pane_id_with_panel(panel)
        } else {
            Some(pane_id)
        }
    }

    /// Focus a pane and its selected panel; the shown metadata is resynced.
    /// Reports `false`, changing nothing, where no pane of the id has a
    /// selected panel.
    pub fn focus_pane(&mut self, pane_id: Id) -> (focused: bool)
        ensures
            focused == (old(self).layout@.selected_of_pane(pane_id) is Some),
            !focused ==> *final(self) == *old(self),
            focused ==> {
                let panel = old(self).layout@.selected_of_pane(pane_id)->0;
                &&& final(self).same_record(*old(self))
                &&& final(self).panels@ == old(self).panels@
                &&& final(self).layout == old(self).layout
                &&& final(self).focused_panel_id == Some(panel)
                &&& final(self).focused_pane_id == old(self).pane_after_focus(pane_id, panel)
                &&& final(self).synced()
            },
    {
        let panel_id = match self.layout.selected_panel_for_pane(pane_id) {
            Some(id) => id,
            None => {
                return false;
            },
        };
        self.focused_pane_id = Some(pane_id);
        self.focused_panel_id = Some(panel_id);
        self.recompute_workspace_metadata();
        true
    }

    /// The pane a move of the focus in the direction goes to, if any (see
    /// `move_target`).
    pub open spec fn move_focus_target(self, direction: FocusDirection) -> Option<Id> {
        match self.focused_panel_id {
            None => None,
            Some(f) => match self.layout@.path_to_panel(f) {
                None => None,
                Some(path) => move_target(self.layout@, path, path.len() as int, direction),
            },
        }
    }

    /// Move the focus to the neighbouring pane in the direction (see
    /// `move_focus_target`) and return the panel that then has the focus;
    /// `None`, changing nothing, where there is no such pane.
    pub fn move_focus(&mut self, direction: FocusDirection) -> (moved_to: Option<Id>)
        ensures
            match old(self).move_focus_target(direction) {
                None => moved_to is None && final(self).same_values(*old(self)),
                Some(pane) => {
                    let panel = old(self).layout@.selected_of_pane(pane)->0;
                    &&& moved_to == Some(panel)
                    &&& final(self).same_record(*old(self))
                    &&& final(self).panels@ == old(self).panels@
                    &&& final(self).layout@ == old(self).layout@
                    &&& final(self).focused_panel_id == Some(panel)
                    &&& final(self).focused_pane_id == old(self).pane_after_focus(pane, panel)
                    &&& final(self).synced()
                },
            },
    {
        let focused = match self.focused_panel_id {
            Some(f) => f,
            None => {
                return None;
            },
        };
        let path = match self.layout.path_to_panel(focused) {
            Some(p) => p,
            None => {
                return None;
            },
        };
        let ghost t = self.layout@;
        let mut k: usize = path.len();
        while k > 0
            invariant
                k <= path@.len(),
                self.same_values(*old(self)),
                t == self.layout@,
                t == old(self).layout@,
                old(self).focused_panel_id == Some(focused),
                old(self).layout@.path_to_panel(focused) == Some(path@),
                old(self).move_focus_target(direction) == move_target(t, path@, k as int, direction),
            decreases k,
        {
            let i = k - 1;
            let step = path[i];
            if !faces(step, direction) {
                k = i;
                continue;
            }
            let edge = edge_for(direction);
            let mut node: &LayoutNode = &self.layout;
            let mut j: usize = 0;
            proof {
                assert(path@.take(0) =~= Seq::<SplitPathStep>::empty());
            }
            while j < i
                invariant
                    j <= i,
                    i < path@.len(),
                    t == self.layout@,
                    node_at(t, path@.take(j as int)) == Some(node@),
                    k == i + 1,
                    step == path@[i as int],
                    step_faces(step, direction),
                    self.same_values(*old(self)),
                    old(self).move_focus_target(direction) == move_target(t, path@, k as int, direction),
                decreases i - j,
            {
                let b = path[j].branch;
                proof {
                    assert(path@.take(j + 1).drop_last() =~= path@.take(j as int));
                    assert(path@.take(j + 1).last() == path@[j as int]);
                }
                let next: &LayoutNode = match node {
                    LayoutNode::Split { first, second, .. } => match b {
                        SplitBranch::First => &**first,
                        SplitBranch::Second => &**second,
                    },
                    LayoutNode::Pane { .. } => {
                        proof {
                            assert(node_at(t, path@.take(j + 1)) is None);
                            lemma_node_at_none(t, path@, j + 1, i as int);
                            assert(sibling_at(t, path@, i as int) is None);
                        }
                        return None;
                    },
                };
                node = next;
                j = j + 1;
            }
            let sibling: &LayoutNode = match node {
                LayoutNode::Split { first, second, .. } => match step.branch {
                    SplitBranch::First => &**second,
                    SplitBranch::Second => &**first,
                },
                LayoutNode::Pane { .. } => {
                    return None;
                },
            };
            let target = match sibling.pane_on_edge(edge) {
                Some(p) => p,
                None => {
                    k = i;
                    continue;
                },
            };
            if self.focus_pane(target) {
                return self.focused_panel_id;
            }
            k = i;
        }
        None
    }

    /// The pane of the id, where it exists and has tabs.
    pub open spec fn pane_with_tabs(self, pane_id: Id) -> Option<PaneView> {
        match self.layout@.pane_by_id(pane_id) {
            Some(p) => if p.panel_ids.len() > 0 {
                Some(p)
            } else {
                None
            },
            None => None,
        }
    }

    /// The focused pane, where it exists and has tabs.
    pub open spec fn focused_pane_with_tabs(self) -> Option<PaneView> {
        match self.focused_pane_id {
            None => None,
            Some(pane_id) => self.pane_with_tabs(pane_id),
        }
    }

    /// `self` is `old` after cycling the selected tab of the pane `pane_id`
    /// (see `cycled_index`), focusing that pane and tab and resyncing the
    /// shown metadata; `moved_to` is the panel that then has the focus.
    /// Nothing changes where the pane is missing or has no tab.
    pub open spec fn cycled_in(self, old: Self, pane_id: Id, forward: bool, moved_to: Option<Id>) -> bool {
        match old.pane_with_tabs(pane_id) {
            None => moved_to is None && self == old,
            Some(p) => {
                let id = p.panel_ids[cycled_index(p, forward)];
                &&& moved_to == Some(id)
                &&& self.same_record(old)
                &&& self.panels@ == old.panels@
                &&& self.layout@ == old.layout@.with_pane(
                    pane_id,
                    PaneView { selected_panel_id: Some(id), ..p },
                )
                &&& self.focused_panel_id == Some(id)
                &&& self.focused_pane_id == self.pane_after_focus(pane_id, id)
                &&& self.synced()
            },
        }
    }

    /// `self` is `old` after cycling the selected tab of the focused pane
    /// (see `cycled_in`); nothing changes where no pane has the focus.
    pub open spec fn cycled_from(self, old: Self, forward: bool, moved_to: Option<Id>) -> bool {
        match old.focused_pane_id {
            None => moved_to is None && self == old,
            Some(q) => self.cycled_in(old, q, forward, moved_to),
        }
    }

    /// Select the next (or previous) tab of the pane and focus it.
    fn cycle_surface(&mut self, pane_id: Id, forward: bool) -> (moved_to: Option<Id>)
        ensures
            final(self).cycled_in(*old(self), pane_id, forward, moved_to),
    {
        match self.layout.find_pane(pane_id) {
            None => {
                return None;
            },
            Some(pane) => {
                if pane.panel_ids.len() == 0 {
                    return None;
                }
            },
        }
        let panel_id;
        match self.layout.find_pane_mut(pane_id) {
            None => {
                return None;
            },
            Some(pane) => {
                let n = pane.panel_ids.len();
                let current: usize = match pane.selected_panel_id {
                    Some(selected) => match position_of(&pane.panel_ids, selected) {
                        Some(i) => i,
                        None => 0,
                    },
                    None => 0,
                };
                proof {
                    if let Some(sel) = pane.selected_panel_id {
                        pane.panel_ids@.index_of_first_ensures(sel);
                    }
                    assert(current == selected_index(pane@));
                }
                let next = if forward {
                    (current + 1) % n
                } else if current == 0 {
                    n - 1
                } else {
                    current - 1
                };
                panel_id = pane.panel_ids[next];
                pane.selected_panel_id = Some(panel_id);
            },
        }
        self.focused_panel_id = Some(panel_id);
        self.focused_pane_id = Some(pane_id);
        self.recompute_workspace_metadata();
        Some(panel_id)
    }

    /// Select the next tab of the focused pane, wrapping to the first, and
    /// focus it; `None`, changing nothing, where no pane has the focus or
    /// the focused pane is missing or has no tab.
    pub fn focus_next_surface(&mut self) -> (moved_to: Option<Id>)
        ensures
            final(self).cycled_from(*old(self), true, moved_to),
    {
        match self.focused_pane_id {
            Some(pane_id) => self.cycle_surface(pane_id, true),
            None => None,
        }
    }

    /// Select the previous tab of the focused pane, wrapping to the last,
    /// and focus it; `None`, changing nothing, where no pane has the focus
    /// or the focused pane is missing or has no tab.
    pub fn focus_previous_surface(&mut self) -> (moved_to: Option<Id>)
        ensures
            final(self).cycled_from(*old(self), false, moved_to),
    {
        match self.focused_pane_id {
            Some(pane_id) => self.cycle_surface(pane_id, false),
            None => None,
        }
    }

    /// Select the next tab of the pane, wrapping to the first, and focus
    /// the pane and that tab; `None`, changing nothing, where the pane is
    /// missing or has no tab.
    pub fn focus_next_surface_in_pane(&mut self, pane_id: Id) -> (moved_to: Option<Id>)
        ensures
            final(self).cycled_in(*old(self), pane_id, true, moved_to),
    {
        self.cycle_surface(pane_id, true)
    }

    /// Select the previous tab of the pane, wrapping to the last, and focus
    /// the pane and that tab; `None`, changing nothing, where the pane is
    /// missing or has no tab.
    pub fn focus_previous_surface_in_pane(&mut self, pane_id: Id) -> (moved_to: Option<Id>)
        ensures
            final(self).cycled_in(*old(self), pane_id, false, moved_to),
    {
        self.cycle_surface(pane_id, false)
    }

    /// `self` is `old` after moving the tab of `panel_id` one place forward
    /// (or back) in its pane (see `tab_move`) and resyncing the shown
    /// metadata; `moved` is the pane. Nothing changes where no pane holds
    /// the panel or the tab is already last (first).
    pub open spec fn tab_moved_from(self, old: Self, panel_id: Id, forward: bool, moved: Option<Id>) -> bool {
        match tab_move(old.layout@, panel_id, forward) {
            None => moved is None && self == old,
            Some((q, p)) => {
                &&& moved == Some(q)
                &&& self.same_record(old)
                &&& self.panels@ == old.panels@
                &&& self.focused_panel_id == old.focused_panel_id
                &&& self.layout@ == old.layout@.with_pane(q, p)
                &&& self.focused_pane_id == old.pane_after_sync()
                &&& self.synced()
            },
        }
    }

    /// Swap the panel's tab with its neighbour in the pane that holds it.
    fn move_surface(&mut self, panel_id: Id, forward: bool) -> (moved: Option<Id>)
        ensures
            final(self).tab_moved_from(*old(self), panel_id, forward, moved),
    {
        let pane_id = match self.layout.find_pane_id_with_panel(panel_id) {
            Some(q) => q,
            None => {
                return None;
            },
        };
        let (i, j) = match self.layout.find_pane(pane_id) {
            None => {
                return None;
            },
            Some(pane) => {
                let i = match position_of(&pane.panel_ids, panel_id) {
                    Some(i) => i,
                    None => {
                        proof {
                            pane.panel_ids@.index_of_first_ensures(panel_id);
                        }
                        return None;
                    },
                };
                proof {
                    pane.panel_ids@.index_of_first_ensures(panel_id);
                    assert(pane.panel_ids@.index_of_first(panel_id) == Some(i as int));
                }
                if forward {
                    if i >= pane.panel_ids.len() - 1 {
                        return None;
                    }
                    (i, i + 1)
                } else {
                    if i == 0 {
                        return None;
                    }
                    (i, i - 1)
                }
            },
        };
        match self.layout.find_pane_mut(pane_id) {
            None => {
                return None;
            },
            Some(pane) => {
                let other = pane.panel_ids[j];
                pane.panel_ids.set(i, other);
                pane.panel_ids.set(j, panel_id);
            },
        }
        proof {
            let t = old(self).layout@;
            let p = t.pane_by_id(pane_id)->0;
            let np = match tab_move(t, panel_id, forward) {
                Some((_, np)) => np,
                None => p,
            };
            assert(self.layout@ == t.with_pane(pane_id, np));
            crate::layout::lemma_pane_by_id_has_id(t, pane_id);
            if let Some(f) = self.focused_panel_id {
                lemma_swap_members(p.panel_ids, p.panel_ids.index_of_first(panel_id)->0, np.panel_ids, f);
                lemma_with_pane_same_members(t, pane_id, np, f);
            }
        }
        self.recompute_workspace_metadata();
        Some(pane_id)
    }

    /// Move the panel's tab one place forward in its pane; the pane, or
    /// `None`, changing nothing, where no pane holds the panel or its tab
    /// is the last.
    pub fn move_surface_forward(&mut self, panel_id: Id) -> (moved: Option<Id>)
        ensures
            final(self).tab_moved_from(*old(self), panel_id, true, moved),
    {
        self.move_surface(panel_id, true)
    }

    /// Move the panel's tab one place back in its pane; the pane, or
    /// `None`, changing nothing, where no pane holds the panel or its tab
    /// is the first.
    pub fn move_surface_backward(&mut self, panel_id: Id) -> (moved: Option<Id>)
        ensures
            final(self).tab_moved_from(*old(self), panel_id, false, moved),
    {
        self.move_surface(panel_id, false)
    }

    /// Nudge the divider that bounds the pane in the direction by `step`
    /// millionths (see `LayoutView::with_divider_nudged`), keeping it
    /// between `MIN_DIVIDER` and `MAX_DIVIDER`; reports whether a divider
    /// moved. Nothing but the layout changes, and nothing at all where no
    /// divider moved.
    pub fn resize_pane(&mut self, pane_id: Id, direction: FocusDirection, step: u32) -> (resized: bool)
        ensures
            (final(self).layout@, resized) == old(self).layout@.with_divider_nudged(
                pane_id,
                direction,
                step,
                MIN_DIVIDER,
                MAX_DIVIDER,
            ),
            *final(self) == (Workspace { layout: final(self).layout, ..*old(self) }),
            !resized ==> *final(self) == *old(self),
    {
        self.layout.adjust_divider_for_pane(pane_id, direction, step, MIN_DIVIDER, MAX_DIVIDER)
    }

    /// `self` is `old` after closing the pane `pane_id` (see `close_pane`);
    /// `result` is what the call returned.
    pub open spec fn pane_closed(self, old: Self, pane_id: Id, result: Option<Seq<Id>>) -> bool {
        match old.layout@.pane_by_id(pane_id) {
            None => result is None && self == old,
            Some(p) => if old.layout@ is Pane {
                result is None && self == old
            } else {
                let ids = p.panel_ids;
                let kept = match old.focused_panel_id {
                    Some(f) => !ids.contains(f) && old.focused_pane_id is Some,
                    None => false,
                };
                &&& result == Some(ids)
                &&& self.same_record(old)
                &&& self.panels@ == old.panels@.remove_keys(ids.to_set())
                &&& self.layout@ == without_panels(old.layout@, ids)
                &&& self.focused_panel_id == (if kept {
                    old.focused_panel_id
                } else {
                    first_of(self.layout@.panels())
                })
                &&& self.focused_pane_id == Self::pane_for_focus(self.layout@, self.focused_panel_id)
                &&& self.synced()
            },
        }
    }

    /// Close a pane: take each of its tabs out of the records and the
    /// layout (collapsing the split it sat in), move the focus to the first
    /// remaining panel where it was in the pane, and resync the shown
    /// metadata. Returns the pane's tabs; `None`, changing nothing, where
    /// no pane has the id or it is the only pane.
    pub fn close_pane(&mut self, pane_id: Id) -> (removed: Option<Vec<Id>>)
        ensures
            final(self).pane_closed(*old(self), pane_id, match removed {
                Some(v) => Some(v@),
                None => None,
            }),
    {
        let ids = match self.layout.find_pane(pane_id) {
            None => {
                return None;
            },
            Some(p) => ids_copy(&p.panel_ids),
        };
        if let LayoutNode::Pane { .. } = &self.layout {
            return None;
        }
        let ghost start = *self;
        let mut i: usize = 0;
        while i < ids.len()
            invariant
                i <= ids@.len(),
                *self == (Workspace { panels: self.panels, layout: self.layout, ..start }),
                self.panels@ == start.panels@.remove_keys(ids@.take(i as int).to_set()),
                self.layout@ == without_panels(start.layout@, ids@.take(i as int)),
            decreases ids@.len() - i,
        {
            let id = ids[i];
            let _ = self.panels.remove(&id);
            let _ = self.layout.remove_panel(id);
            proof {
                let s0 = ids@.take(i as int);
                let s1 = ids@.take(i + 1);
                assert(s1.drop_last() =~= s0);
                assert(s1.last() == id);
                assert(s1.to_set() =~= s0.to_set().insert(id)) by {
                    assert forall|x: Id| s1.to_set().contains(x) <==> s0.to_set().insert(id).contains(x) by {
                        if s1.contains(x) {
                            let k = choose|k: int| 0 <= k < s1.len() && s1[k] == x;
                            if k < i {
                                assert(s0[k] == x);
                            }
                        }
                        if s0.contains(x) {
                            let k = choose|k: int| 0 <= k < s0.len() && s0[k] == x;
                            assert(s1[k] == x);
                        }
                        if x == id {
                            assert(s1[i as int] == x);
                        }
                    }
                }
                assert(self.panels@ =~= start.panels@.remove_keys(s1.to_set()));
            }
            i = i + 1;
        }
        proof {
            assert(ids@.take(ids@.len() as int) =~= ids@);
        }
        let keep = match self.focused_panel_id {
            Some(f) => !vec_contains(&ids, f) && self.focused_pane_id.is_some(),
            None => false,
        };
        if !keep {
            let all = self.layout.all_panel_ids();
            self.focused_panel_id = if all.len() > 0 {
                Some(all[0])
            } else {
                None
            };
        }
        proof {
            lemma_panes_nonempty(self.layout@);
        }
        let pane = match self.focused_panel_id {
            Some(id) => self.layout.find_pane_id_with_panel(id),
            None => None,
        };
        self.focused_pane_id = match pane {
            Some(p) => Some(p),
            None => {
                let panes = self.layout.all_pane_ids();
                if panes.len() > 0 {
                    Some(panes[0])
                } else {
                    None
                }
            },
        };
        self.recompute_workspace_metadata();
        Some(ids)
    }

    /// Insert or replace (by key) a metadata item of a panel, keep the
    /// panel's items in the order they are shown where they changed, and
    /// resync the shown metadata. Reports whether the panel's items or the
    /// shown metadata changed; `false` where no panel has the id.
    pub fn upsert_panel_metadata_item(&mut self, panel_id: Id, item: MetadataItem) -> (changed: bool)
        ensures
            final(self).upsert_panel_metadata_item_post(*old(self), panel_id, item@, changed),
    {
        let ghost x = item@;
        let mut changed = false;
        match panels_get_mut(&mut self.panels, panel_id) {
            None => {
                return false;
            },
            Some(p) => {
                let ghost s = p.metadata_items.deep_view();
                match find_item(&p.metadata_items, item.key.as_str()) {
                    Some(i) => {
                        if !p.metadata_items[i].same_as(&item) {
                            p.metadata_items.set(i, item);
                            proof {
                                assert(p.metadata_items.deep_view() =~= s.update(i as int, x));
                            }
                            changed = true;
                        }
                    },
                    None => {
                        p.metadata_items.push(item);
                        proof {
                            assert(p.metadata_items.deep_view() =~= s.push(x));
                        }
                        changed = true;
                    },
                }
                if changed {
                    let mut list: Vec<MetadataItem> = Vec::new();
                    std::mem::swap(&mut list, &mut p.metadata_items);
                    p.metadata_items = sort_items(list);
                }
            },
        }
        proof {
            assert(self.panels@.remove(panel_id) =~= old(self).panels@.remove(panel_id));
            assert(self.pane_after_sync() == old(self).pane_after_sync());
        }
        let metadata_changed = self.recompute_workspace_metadata();
        metadata_changed || changed
    }

    /// Insert or replace (by key) a metadata block of a panel, keep the
    /// panel's blocks in the order they are shown where they changed, and
    /// resync the shown metadata. Reports whether the panel's blocks or the
    /// shown metadata changed; `false` where no panel has the id.
    pub fn upsert_panel_metadata_block(&mut self, panel_id: Id, block: MetadataBlock) -> (changed: bool)
        ensures
            final(self).upsert_panel_metadata_block_post(*old(self), panel_id, block@, changed),
    {
        let ghost x = block@;
        let mut changed = false;
        match panels_get_mut(&mut self.panels, panel_id) {
            None => {
                return false;
            },
            Some(p) => {
                let ghost s = p.metadata_blocks.deep_view();
                match find_block(&p.metadata_blocks, block.key.as_str()) {
                    Some(i) => {
                        if !p.metadata_blocks[i].same_as(&block) {
                            p.metadata_blocks.set(i, block);
                            proof {
                                assert(p.metadata_blocks.deep_view() =~= s.update(i as int, x));
                            }
                            changed = true;
                        }
                    },
                    None => {
                        p.metadata_blocks.push(block);
                        proof {
                            assert(p.metadata_blocks.deep_view() =~= s.push(x));
                        }
                        changed = true;
                    },
                }
                if changed {
                    let mut list: Vec<MetadataBlock> = Vec::new();
                    std::mem::swap(&mut list, &mut p.metadata_blocks);
                    p.metadata_blocks = sort_blocks(list);
                }
            },
        }
        proof {
            assert(self.panels@.remove(panel_id) =~= old(self).panels@.remove(panel_id));
            assert(self.pane_after_sync() == old(self).pane_after_sync());
        }
        let metadata_changed = self.recompute_workspace_metadata();
        metadata_changed || changed
    }

    /// The focused surface (panel), if any.
    pub fn focused_surface_id(&self) -> (id: Option<Id>)
        ensures
            id == self.focused_panel_id,
    {
        self.focused_panel_id
    }

    /// The selected panel of the focused pane, if any.
    pub fn focused_pane_selected_panel(&self) -> (id: Option<Id>)
        ensures
            id == match self.focused_pane_id {
                Some(pane) => self.layout@.selected_of_pane(pane),
                None => None,
            },
    {
        match self.focused_pane_id {
            Some(pane_id) => self.layout.selected_panel_for_pane(pane_id),
            None => None,
        }
    }

    /// What `set_panel_git_branch` leaves: `self` after the call on `old`, with the
    /// result `changed`.
    pub open spec fn set_panel_git_branch_post(self, old: Self, panel_id: Id, branch: Seq<char>, is_dirty: bool, changed: bool) -> bool {
        &&& !old.panels@.contains_key(panel_id) ==> !changed && self.same_values(old)
        &&& old.panels@.contains_key(panel_id) ==> {
                let before = old.panel_view(panel_id);
                let after = self.panel_view(panel_id);
                let moved = before.git_branch != Some(GitBranchView { branch: truncate_chars(branch, 256), is_dirty });
                &&& self.panel_updated(
                    old,
                    panel_id,
                    PanelView { git_branch: Some(GitBranchView { branch: truncate_chars(branch, 256), is_dirty }), git_branch_updated_at: after.git_branch_updated_at, ..before },
                )
                &&& stamp_after(before.git_branch_updated_at, after.git_branch_updated_at, moved)
                &&& changed == (moved || self.summary() != old.summary())
        }
    }

    /// What `clear_panel_git_branch` leaves: `self` after the call on `old`, with the
    /// result `changed`.
    pub open spec fn clear_panel_git_branch_post(self, old: Self, panel_id: Id, changed: bool) -> bool {
        &&& !old.panels@.contains_key(panel_id) ==> !changed && self.same_values(old)
        &&& old.panels@.contains_key(panel_id) ==> {
                let before = old.panel_view(panel_id);
                let after = self.panel_view(panel_id);
                let moved = before.git_branch is Some;
                &&& self.panel_updated(
                    old,
                    panel_id,
                    PanelView { git_branch: None, git_branch_updated_at: after.git_branch_updated_at, ..before },
                )
                &&& stamp_after(before.git_branch_updated_at, after.git_branch_updated_at, moved)
                &&& changed == (moved || self.summary() != old.summary())
        }
    }

    /// What `set_panel_directory` leaves: `self` after the call on `old`, with the
    /// result `changed`.
    pub open spec fn set_panel_directory_post(self, old: Self, panel_id: Id, directory: Seq<char>, changed: bool) -> bool {
        &&& !old.panels@.contains_key(panel_id) ==> !changed && self.same_values(old)
        &&& old.panels@.contains_key(panel_id) ==> {
                let before = old.panel_view(panel_id);
                let after = self.panel_view(panel_id);
                let moved = before.directory != Some(directory);
                &&& self.panel_updated(
                    old,
                    panel_id,
                    PanelView {
                        directory: Some(directory),
                        directory_updated_at: after.directory_updated_at,
                        ..before
                    },
                )
                &&& stamp_after(before.directory_updated_at, after.directory_updated_at, moved)
                &&& changed == (moved || self.summary() != old.summary())
        }
    }

    /// What `set_panel_shell_state` leaves: `self` after the call on `old`, with the
    /// result `changed`.
    pub open spec fn set_panel_shell_state_post(self, old: Self, panel_id: Id, state: ShellActivityState, label: Option<Seq<char>>, changed: bool) -> bool {
        &&& !old.panels@.contains_key(panel_id) ==> !changed && self.same_values(old)
        &&& old.panels@.contains_key(panel_id) ==> {
                let before = old.panel_view(panel_id);
                let after = self.panel_view(panel_id);
                let moved = before.shell_state != Some(ShellStateView { state, label: opt_truncated(label, 512) });
                &&& self.panel_updated(
                    old,
                    panel_id,
                    PanelView { shell_state: Some(ShellStateView { state, label: opt_truncated(label, 512) }), shell_state_updated_at: after.shell_state_updated_at, ..before },
                )
                &&& stamp_after(before.shell_state_updated_at, after.shell_state_updated_at, moved)
                &&& changed == (moved || self.summary() != old.summary())
        }
    }

    /// What `set_panel_ports` leaves: `self` after the call on `old`, with the
    /// result `changed`.
    pub open spec fn set_panel_ports_post(self, old: Self, panel_id: Id, ports: Seq<u16>, changed: bool) -> bool {
        &&& !old.panels@.contains_key(panel_id) ==> !changed && self.same_values(old)
        &&& old.panels@.contains_key(panel_id) ==> {
                let before = old.panel_view(panel_id);
                let after = self.panel_view(panel_id);
                let moved = before.listening_ports != ports;
                &&& self.panel_updated(
                    old,
                    panel_id,
                    PanelView { listening_ports: ports, listening_ports_updated_at: after.listening_ports_updated_at, ..before },
                )
                &&& stamp_after(before.listening_ports_updated_at, after.listening_ports_updated_at, moved)
                &&& changed == (moved || self.summary() != old.summary())
        }
    }

    /// What `clear_panel_ports` leaves: `self` after the call on `old`, with the
    /// result `changed`.
    pub open spec fn clear_panel_ports_post(self, old: Self, panel_id: Id, changed: bool) -> bool {
        &&& !old.panels@.contains_key(panel_id) ==> !changed && self.same_values(old)
        &&& old.panels@.contains_key(panel_id) ==> {
                let before = old.panel_view(panel_id);
                let after = self.panel_view(panel_id);
                let moved = before.listening_ports.len() > 0;
                &&& self.panel_updated(
                    old,
                    panel_id,
                    PanelView { listening_ports: Seq::empty(), listening_ports_updated_at: after.listening_ports_updated_at, ..before },
                )
                &&& stamp_after(before.listening_ports_updated_at, after.listening_ports_updated_at, moved)
                &&& changed == (moved || self.summary() != old.summary())
        }
    }

    /// What `set_panel_tty` leaves: `self` after the call on `old`, with the
    /// result `changed`.
    pub open spec fn set_panel_tty_post(self, old: Self, panel_id: Id, tty_name: Seq<char>, changed: bool) -> bool {
        &&& !old.panels@.contains_key(panel_id) ==> !changed && self.same_values(old)
        &&& old.panels@.contains_key(panel_id) ==> {
                let before = old.panel_view(panel_id);
                let after = self.panel_view(panel_id);
                let moved = before.tty_name != Some(truncate_chars(tty_name, 512));
                &&& self.panel_updated(
                    old,
                    panel_id,
                    PanelView { tty_name: Some(truncate_chars(tty_name, 512)), tty_name_updated_at: after.tty_name_updated_at, ..before },
                )
                &&& stamp_after(before.tty_name_updated_at, after.tty_name_updated_at, moved)
                &&& changed == (moved || self.summary() != old.summary())
        }
    }

    /// What `set_panel_pr_metadata` leaves: `self` after the call on `old`, with the
    /// result `changed`.
    pub open spec fn set_panel_pr_metadata_post(self, old: Self, panel_id: Id, metadata: PullRequestView, changed: bool) -> bool {
        &&& !old.panels@.contains_key(panel_id) ==> !changed && self.same_values(old)
        &&& old.panels@.contains_key(panel_id) ==> {
                let before = old.panel_view(panel_id);
                let after = self.panel_view(panel_id);
                let moved = before.pr_metadata != Some(metadata);
                &&& self.panel_updated(
                    old,
                    panel_id,
                    PanelView { pr_metadata: Some(metadata), pr_metadata_updated_at: after.pr_metadata_updated_at, ..before },
                )
                &&& stamp_after(before.pr_metadata_updated_at, after.pr_metadata_updated_at, moved)
                &&& changed == (moved || self.summary() != old.summary())
        }
    }

    /// What `set_panel_review` leaves: `self` after the call on `old`, with the
    /// result `changed`.
    pub open spec fn set_panel_review_post(self, old: Self, panel_id: Id, label: Seq<char>, state: PullRequestState, checks: Option<PullRequestChecks>, number: Option<u32>, url: Option<Seq<char>>, title: Option<Seq<char>>, changed: bool) -> bool {
        &&& !old.panels@.contains_key(panel_id) ==> !changed && self.same_values(old)
        &&& old.panels@.contains_key(panel_id) ==> {
                let before = old.panel_view(panel_id);
                let after = self.panel_view(panel_id);
                let moved = before.pr_metadata != Some(reviewed(before.pr_metadata, label, state, checks, number, url, title));
                &&& self.panel_updated(
                    old,
                    panel_id,
                    PanelView { pr_metadata: Some(reviewed(before.pr_metadata, label, state, checks, number, url, title)), pr_metadata_updated_at: after.pr_metadata_updated_at, ..before },
                )
                &&& stamp_after(before.pr_metadata_updated_at, after.pr_metadata_updated_at, moved)
                &&& changed == (moved || self.summary() != old.summary())
        }
    }

    /// What `clear_panel_pr_metadata` leaves: `self` after the call on `old`, with the
    /// result `changed`.
    pub open spec fn clear_panel_pr_metadata_post(self, old: Self, panel_id: Id, changed: bool) -> bool {
        &&& !old.panels@.contains_key(panel_id) ==> !changed && self.same_values(old)
        &&& old.panels@.contains_key(panel_id) ==> {
                let before = old.panel_view(panel_id);
                let after = self.panel_view(panel_id);
                let moved = before.pr_metadata is Some;
                &&& self.panel_updated(
                    old,
                    panel_id,
                    PanelView { pr_metadata: None, pr_metadata_updated_at: after.pr_metadata_updated_at, ..before },
                )
                &&& stamp_after(before.pr_metadata_updated_at, after.pr_metadata_updated_at, moved)
                &&& changed == (moved || self.summary() != old.summary())
        }
    }

    /// What `upsert_panel_metadata_item` leaves: `self` after the call on `old`, with the
    /// result `changed`.
    pub open spec fn upsert_panel_metadata_item_post(self, old: Self, panel_id: Id, item: MetadataItemView, changed: bool) -> bool {
        &&& !old.panels@.contains_key(panel_id) ==> !changed && self.same_values(old)
        &&& old.panels@.contains_key(panel_id) ==> {
                let before = old.panel_view(panel_id);
                let after = self.panel_view(panel_id);
                let moved = item_upsert_moves(before.metadata_items, item);
                &&& self.panel_updated(
                    old,
                    panel_id,
                    PanelView { metadata_items: after.metadata_items, ..before },
                )
                &&& if moved {
                    &&& items_sorted(after.metadata_items)
                    &&& after.metadata_items.to_multiset() == items_upserted(
                        before.metadata_items,
                        item,
                    ).to_multiset()
                } else {
                    after.metadata_items == before.metadata_items
                }
                &&& changed == (moved || self.summary() != old.summary())
        }
    }

    /// What `upsert_panel_metadata_block` leaves: `self` after the call on `old`, with the
    /// result `changed`.
    pub open spec fn upsert_panel_metadata_block_post(self, old: Self, panel_id: Id, block: MetadataBlockView, changed: bool) -> bool {
        &&& !old.panels@.contains_key(panel_id) ==> !changed && self.same_values(old)
        &&& old.panels@.contains_key(panel_id) ==> {
                let before = old.panel_view(panel_id);
                let after = self.panel_view(panel_id);
                let moved = block_upsert_moves(before.metadata_blocks, block);
                &&& self.panel_updated(
                    old,
                    panel_id,
                    PanelView { metadata_blocks: after.metadata_blocks, ..before },
                )
                &&& if moved {
                    &&& blocks_sorted(after.metadata_blocks)
                    &&& after.metadata_blocks.to_multiset() == blocks_upserted(
                        before.metadata_blocks,
                        block,
                    ).to_multiset()
                } else {
                    after.metadata_blocks == before.metadata_blocks
                }
                &&& changed == (moved || self.summary() != old.summary())
        }
    }

    /// What `set_panel_title` leaves: `self` after the call on `old`, with
    /// the result `changed`.
    pub open spec fn set_panel_title_post(self, old: Self, panel_id: Id, title: Seq<char>, changed: bool) -> bool {
        &&& !old.panels@.contains_key(panel_id) ==> !changed && self.same_values(old)
        &&& old.panels@.contains_key(panel_id) ==> {
            let before = old.panel_view(panel_id);
            let moved = before.title != Some(title);
            &&& self.with_panel_as(old, panel_id, PanelView { title: Some(title), ..before })
            &&& if old.focused_panel_id == Some(panel_id) {
                &&& self.focused_pane_id == old.pane_after_sync()
                &&& self.synced()
                &&& changed == (moved || self.summary() != old.summary())
            } else {
                &&& self.focused_pane_id == old.focused_pane_id
                &&& self.summary() == old.summary()
                &&& changed == moved
            }
        }
    }

    /// Update the title for a panel; the shown metadata is resynced where
    /// the panel is the focused one. Reports whether the panel's title or
    /// the shown metadata changed; `false` where no panel has the id.
    pub fn set_panel_title(&mut self, panel_id: Id, title: &str) -> (changed: bool)
        ensures
            final(self).set_panel_title_post(*old(self), panel_id, title@, changed),
    {
        let mut changed = false;
        match panels_get_mut(&mut self.panels, panel_id) {
            None => {
                return false;
            },
            Some(p) => {
                if !opt_string_is(&p.title, title) {
                    p.title = Some(title.to_owned());
                    changed = true;
                }
            },
        }
        proof {
            let before = old(self).panel_view(panel_id);
            assert(self.panels@.remove(panel_id) =~= old(self).panels@.remove(panel_id));
            assert(self.panel_view(panel_id) == PanelView { title: Some(title@), ..before });
            assert(self.pane_after_sync() == old(self).pane_after_sync());
        }
        let metadata_changed = if self.focused_panel_id == Some(panel_id) {
            self.recompute_workspace_metadata()
        } else {
            false
        };
        changed || metadata_changed
    }

    /// Update the working directory for a panel and resync the shown
    /// metadata. Reports whether the panel's directory or the shown
    /// metadata changed; `false` where no panel has the id.
    pub fn set_panel_directory(&mut self, panel_id: Id, directory: &str) -> (changed: bool)
        ensures
            final(self).set_panel_directory_post(*old(self), panel_id, directory@, changed),
    {
        let now = now_micros();
        let mut changed = false;
        match panels_get_mut(&mut self.panels, panel_id) {
            None => {
                return false;
            },
            Some(p) => {
                if !opt_string_is(&p.directory, directory) {
                    p.directory = Some(directory.to_owned());
                    p.directory_updated_at = Some(now);
                    changed = true;
                }
            },
        }
        proof {
            let before = old(self).panel_view(panel_id);
            let mid = self.panel_view(panel_id);
            assert(self.panels@.remove(panel_id) =~= old(self).panels@.remove(panel_id));
            assert(self.same_frame(*old(self)));
            assert(mid == PanelView {
                directory: Some(directory@),
                directory_updated_at: mid.directory_updated_at,
                ..before
            });
            assert(self.pane_after_sync() == old(self).pane_after_sync());
        }
        let metadata_changed = self.recompute_workspace_metadata();
        changed || metadata_changed
    }

    /// Record the git branch (cut to 256 bytes) a panel reports and resync the
    /// shown metadata. Reports whether the panel's branch or the shown
    /// metadata changed; `false` where no panel has the id.
    pub fn set_panel_git_branch(&mut self, panel_id: Id, branch: &str, is_dirty: bool) -> (changed: bool)
        ensures
            final(self).set_panel_git_branch_post(*old(self), panel_id, branch@, is_dirty, changed),
    {
        let now = now_micros();
        let next = GitBranch { branch: truncate_str(branch, 256).to_owned(), is_dirty };
        let mut changed = false;
        match panels_get_mut(&mut self.panels, panel_id) {
            None => {
                return false;
            },
            Some(p) => {
                let differs = match &p.git_branch {
                    Some(g) => !g.same_as(&next),
                    None => true,
                };
                if differs {
                    p.git_branch = Some(next);
                    p.git_branch_updated_at = Some(now);
                    changed = true;
                }
            },
        }
        proof {
            assert(self.panels@.remove(panel_id) =~= old(self).panels@.remove(panel_id));
            assert(self.pane_after_sync() == old(self).pane_after_sync());
        }
        let metadata_changed = self.recompute_workspace_metadata();
        metadata_changed || changed
    }

    /// Forget the git branch of a panel and resync the shown metadata. Reports
    /// whether the panel had a branch or the shown metadata changed; `false`
    /// where no panel has the id.
    pub fn clear_panel_git_branch(&mut self, panel_id: Id) -> (changed: bool)
        ensures
            final(self).clear_panel_git_branch_post(*old(self), panel_id, changed),
    {
        let now = now_micros();
        let mut changed = false;
        match panels_get_mut(&mut self.panels, panel_id) {
            None => {
                return false;
            },
            Some(p) => {
                if p.git_branch.is_some() {
                    p.git_branch = None;
                    p.git_branch_updated_at = Some(now);
                    changed = true;
                }
            },
        }
        proof {
            assert(self.panels@.remove(panel_id) =~= old(self).panels@.remove(panel_id));
            assert(self.pane_after_sync() == old(self).pane_after_sync());
        }
        let metadata_changed = self.recompute_workspace_metadata();
        metadata_changed || changed
    }

    /// Record the shell state (label cut to 512 bytes) a panel reports and
    /// resync the shown metadata. Reports whether the panel's state or the
    /// shown metadata changed; `false` where no panel has the id.
    pub fn set_panel_shell_state(&mut self, panel_id: Id, state: ShellActivityState, label: Option<&str>) -> (changed: bool)
        ensures
            final(self).set_panel_shell_state_post(*old(self), panel_id, state, opt_view(label), changed),
    {
        let now = now_micros();
        let next = ShellState { state, label: opt_truncate(label, 512) };
        let mut changed = false;
        match panels_get_mut(&mut self.panels, panel_id) {
            None => {
                return false;
            },
            Some(p) => {
                let differs = match &p.shell_state {
                    Some(old_state) => !old_state.same_as(&next),
                    None => true,
                };
                if differs {
                    p.shell_state = Some(next);
                    p.shell_state_updated_at = Some(now);
                    changed = true;
                }
            },
        }
        proof {
            assert(self.panels@.remove(panel_id) =~= old(self).panels@.remove(panel_id));
            assert(self.pane_after_sync() == old(self).pane_after_sync());
        }
        let metadata_changed = self.recompute_workspace_metadata();
        metadata_changed || changed
    }

    /// Record the ports a panel listens on and resync the shown metadata.
    /// Reports whether the panel's ports or the shown metadata changed;
    /// `false` where no panel has the id.
    pub fn set_panel_ports(&mut self, panel_id: Id, ports: Vec<u16>) -> (changed: bool)
        ensures
            final(self).set_panel_ports_post(*old(self), panel_id, ports@, changed),
    {
        let now = now_micros();
        let mut changed = false;
        match panels_get_mut(&mut self.panels, panel_id) {
            None => {
                return false;
            },
            Some(p) => {
                if !ports_eq(&p.listening_ports, &ports) {
                    p.listening_ports = ports;
                    p.listening_ports_updated_at = Some(now);
                    changed = true;
                }
            },
        }
        proof {
            assert(self.panels@.remove(panel_id) =~= old(self).panels@.remove(panel_id));
            assert(self.pane_after_sync() == old(self).pane_after_sync());
        }
        let metadata_changed = self.recompute_workspace_metadata();
        metadata_changed || changed
    }

    /// Forget the ports of a panel and resync the shown metadata. Reports
    /// whether the panel had ports or the shown metadata changed; `false`
    /// where no panel has the id.
    pub fn clear_panel_ports(&mut self, panel_id: Id) -> (changed: bool)
        ensures
            final(self).clear_panel_ports_post(*old(self), panel_id, changed),
    {
        let now = now_micros();
        let mut changed = false;
        match panels_get_mut(&mut self.panels, panel_id) {
            None => {
                return false;
            },
            Some(p) => {
                if p.listening_ports.len() > 0 {
                    p.listening_ports.clear();
                    p.listening_ports_updated_at = Some(now);
                    changed = true;
                }
            },
        }
        proof {
            assert(self.panels@.remove(panel_id) =~= old(self).panels@.remove(panel_id));
            assert(self.panel_view(panel_id).listening_ports =~= Seq::<u16>::empty());
            assert(self.pane_after_sync() == old(self).pane_after_sync());
        }
        let metadata_changed = self.recompute_workspace_metadata();
        metadata_changed || changed
    }

    /// Record the TTY name (cut to 512 bytes) of a panel and resync the shown
    /// metadata. Reports whether the panel's TTY or the shown metadata
    /// changed; `false` where no panel has the id.
    pub fn set_panel_tty(&mut self, panel_id: Id, tty_name: &str) -> (changed: bool)
        ensures
            final(self).set_panel_tty_post(*old(self), panel_id, tty_name@, changed),
    {
        let now = now_micros();
        let next = truncate_str(tty_name, 512).to_owned();
        let mut changed = false;
        match panels_get_mut(&mut self.panels, panel_id) {
            None => {
                return false;
            },
            Some(p) => {
                if !opt_string_is(&p.tty_name, next.as_str()) {
                    p.tty_name = Some(next);
                    p.tty_name_updated_at = Some(now);
                    changed = true;
                }
            },
        }
        proof {
            assert(self.panels@.remove(panel_id) =~= old(self).panels@.remove(panel_id));
            assert(self.pane_after_sync() == old(self).pane_after_sync());
        }
        let metadata_changed = self.recompute_workspace_metadata();
        metadata_changed || changed
    }

    /// Record the pull request of a panel and resync the shown metadata.
    /// Reports whether the panel's pull request or the shown metadata
    /// changed; `false` where no panel has the id.
    pub fn set_panel_pr_metadata(&mut self, panel_id: Id, metadata: PullRequestMetadata) -> (changed: bool)
        ensures
            final(self).set_panel_pr_metadata_post(*old(self), panel_id, metadata@, changed),
    {
        let now = now_micros();
        let mut changed = false;
        match panels_get_mut(&mut self.panels, panel_id) {
            None => {
                return false;
            },
            Some(p) => {
                let differs = match &p.pr_metadata {
                    Some(m) => !m.same_as(&metadata),
                    None => true,
                };
                if differs {
                    p.pr_metadata = Some(metadata);
                    p.pr_metadata_updated_at = Some(now);
                    changed = true;
                }
            },
        }
        proof {
            assert(self.panels@.remove(panel_id) =~= old(self).panels@.remove(panel_id));
            assert(self.pane_after_sync() == old(self).pane_after_sync());
        }
        let metadata_changed = self.recompute_workspace_metadata();
        metadata_changed || changed
    }

    /// Forget the pull request of a panel and resync the shown metadata.
    /// Reports whether the panel had one or the shown metadata changed;
    /// `false` where no panel has the id.
    pub fn clear_panel_pr_metadata(&mut self, panel_id: Id) -> (changed: bool)
        ensures
            final(self).clear_panel_pr_metadata_post(*old(self), panel_id, changed),
    {
        let now = now_micros();
        let mut changed = false;
        match panels_get_mut(&mut self.panels, panel_id) {
            None => {
                return false;
            },
            Some(p) => {
                if p.pr_metadata.is_some() {
                    p.pr_metadata = None;
                    p.pr_metadata_updated_at = Some(now);
                    changed = true;
                }
            },
        }
        proof {
            assert(self.panels@.remove(panel_id) =~= old(self).panels@.remove(panel_id));
            assert(self.pane_after_sync() == old(self).pane_after_sync());
        }
        let metadata_changed = self.recompute_workspace_metadata();
        metadata_changed || changed
    }

    /// Record a review of a panel's pull request (see `reviewed`) and resync
    /// the shown metadata. Reports whether the panel's pull request or the
    /// shown metadata changed; `false` where no panel has the id.
    pub fn set_panel_review(&mut self, panel_id: Id,
        label: &str,
        state: PullRequestState,
        checks: Option<PullRequestChecks>,
        number: Option<u32>,
        url: Option<&str>,
        title: Option<&str>,
    ) -> (changed: bool)
        ensures
            final(self).set_panel_review_post(*old(self), panel_id, label@, state, checks, number, opt_view(url), opt_view(title), changed),
    {
        let now = now_micros();
        let mut changed = false;
        match panels_get_mut(&mut self.panels, panel_id) {
            None => {
                return false;
            },
            Some(p) => {
                let next = review_of(&p.pr_metadata, label, state, checks, number, url, title);
                let differs = match &p.pr_metadata {
                    Some(m) => !m.same_as(&next),
                    None => true,
                };
                if differs {
                    p.pr_metadata = Some(next);
                    p.pr_metadata_updated_at = Some(now);
                    changed = true;
                }
            },
        }
        proof {
            assert(self.panels@.remove(panel_id) =~= old(self).panels@.remove(panel_id));
            assert(self.pane_after_sync() == old(self).pane_after_sync());
        }
        let metadata_changed = self.recompute_workspace_metadata();
        metadata_changed || changed
    }
}


/// What clearing a value of a panel did: whether the panel had the value,
/// and whether the metadata the workspace shows changed.
#[derive(Debug, Clone, Copy, PartialEq, Eq, Structural)]
pub struct ClearOutcome {
    pub removed: bool,
    pub metadata_changed: bool,
}

impl ClearOutcome {
    /// Whether anything changed.
    pub fn changed(&self) -> (changed: bool)
        ensures
            changed == (self.removed || self.metadata_changed),
    {
        self.removed || self.metadata_changed
    }
}

impl Workspace {
    /// What a clear of one of a panel's values leaves: `None`, changing
    /// nothing, where no panel has the id; else the panel as `p` (`moved`
    /// telling whether it had the value), the shown metadata resynced.
    pub open spec fn cleared(self, old: Self, panel_id: Id, p: PanelView, moved: bool, outcome: Option<ClearOutcome>) -> bool {
        if !old.panels@.contains_key(panel_id) {
            outcome is None && self.same_values(old)
        } else {
            &&& self.panel_updated(old, panel_id, p)
            &&& outcome == Some(ClearOutcome { removed: moved, metadata_changed: self.summary() != old.summary() })
        }
    }

    /// Forget the directory of a panel (stamping the time where it had
    /// one) and resync the shown metadata.
    pub fn clear_panel_directory(&mut self, panel_id: Id) -> (outcome: Option<ClearOutcome>)
        ensures
            final(self).cleared(
                *old(self),
                panel_id,
                PanelView {
                    directory: None,
                    directory_updated_at: final(self).panel_view(panel_id).directory_updated_at,
                    ..old(self).panel_view(panel_id)
                },
                old(self).panel_view(panel_id).directory is Some,
                outcome,
            ),
            old(self).panels@.contains_key(panel_id) ==> stamp_after(
                old(self).panel_view(panel_id).directory_updated_at,
                final(self).panel_view(panel_id).directory_updated_at,
                old(self).panel_view(panel_id).directory is Some,
            ),
    {
        let now = now_micros();
        let removed;
        match panels_get_mut(&mut self.panels, panel_id) {
            None => {
                return None;
            },
            Some(p) => {
                removed = p.directory.is_some();
                if removed {
                    p.directory = None;
                    p.directory_updated_at = Some(now);
                }
            },
        }
        proof {
            assert(self.panels@.remove(panel_id) =~= old(self).panels@.remove(panel_id));
            assert(self.pane_after_sync() == old(self).pane_after_sync());
        }
        let metadata_changed = self.recompute_workspace_metadata();
        Some(ClearOutcome { removed, metadata_changed })
    }

    /// Forget the shell state of a panel (stamping the time where it had
    /// one) and resync the shown metadata.
    pub fn clear_panel_shell_state(&mut self, panel_id: Id) -> (outcome: Option<ClearOutcome>)
        ensures
            final(self).cleared(
                *old(self),
                panel_id,
                PanelView {
                    shell_state: None,
                    shell_state_updated_at: final(self).panel_view(panel_id).shell_state_updated_at,
                    ..old(self).panel_view(panel_id)
                },
                old(self).panel_view(panel_id).shell_state is Some,
                outcome,
            ),
            old(self).panels@.contains_key(panel_id) ==> stamp_after(
                old(self).panel_view(panel_id).shell_state_updated_at,
                final(self).panel_view(panel_id).shell_state_updated_at,
                old(self).panel_view(panel_id).shell_state is Some,
            ),
    {
        let now = now_micros();
        let removed;
        match panels_get_mut(&mut self.panels, panel_id) {
            None => {
                return None;
            },
            Some(p) => {
                removed = p.shell_state.is_some();
                if removed {
                    p.shell_state = None;
                    p.shell_state_updated_at = Some(now);
                }
            },
        }
        proof {
            assert(self.panels@.remove(panel_id) =~= old(self).panels@.remove(panel_id));
            assert(self.pane_after_sync() == old(self).pane_after_sync());
        }
        let metadata_changed = self.recompute_workspace_metadata();
        Some(ClearOutcome { removed, metadata_changed })
    }

    /// Forget the TTY of a panel (stamping the time where it had one) and
    /// resync the shown metadata.
    pub fn clear_panel_tty(&mut self, panel_id: Id) -> (outcome: Option<ClearOutcome>)
        ensures
            final(self).cleared(
                *old(self),
                panel_id,
                PanelView {
                    tty_name: None,
                    tty_name_updated_at: final(self).panel_view(panel_id).tty_name_updated_at,
                    ..old(self).panel_view(panel_id)
                },
                old(self).panel_view(panel_id).tty_name is Some,
                outcome,
            ),
            old(self).panels@.contains_key(panel_id) ==> stamp_after(
                old(self).panel_view(panel_id).tty_name_updated_at,
                final(self).panel_view(panel_id).tty_name_updated_at,
                old(self).panel_view(panel_id).tty_name is Some,
            ),
    {
        let now = now_micros();
        let removed;
        match panels_get_mut(&mut self.panels, panel_id) {
            None => {
                return None;
            },
            Some(p) => {
                removed = p.tty_name.is_some();
                if removed {
                    p.tty_name = None;
                    p.tty_name_updated_at = Some(now);
                }
            },
        }
        proof {
            assert(self.panels@.remove(panel_id) =~= old(self).panels@.remove(panel_id));
            assert(self.pane_after_sync() == old(self).pane_after_sync());
        }
        let metadata_changed = self.recompute_workspace_metadata();
        Some(ClearOutcome { removed, metadata_changed })
    }

    /// Remove the first metadata item keyed `key` from a panel and resync
    /// the shown metadata.
    pub fn clear_panel_metadata_item(&mut self, panel_id: Id, key: &str) -> (outcome: Option<ClearOutcome>)
        ensures
            final(self).cleared(
                *old(self),
                panel_id,
                PanelView {
                    metadata_items: match item_index(old(self).panel_view(panel_id).metadata_items, key@) {
                        Some(i) => old(self).panel_view(panel_id).metadata_items.remove(i),
                        None => old(self).panel_view(panel_id).metadata_items,
                    },
                    ..old(self).panel_view(panel_id)
                },
                item_index(old(self).panel_view(panel_id).metadata_items, key@) is Some,
                outcome,
            ),
    {
        let removed;
        match panels_get_mut(&mut self.panels, panel_id) {
            None => {
                return None;
            },
            Some(p) => {
                let ghost s = p.metadata_items.deep_view();
                match find_item(&p.metadata_items, key) {
                    Some(i) => {
                        p.metadata_items.remove(i);
                        proof {
                            assert(p.metadata_items.deep_view() =~= s.remove(i as int));
                        }
                        removed = true;
                    },
                    None => {
                        removed = false;
                    },
                }
            },
        }
        proof {
            assert(self.panels@.remove(panel_id) =~= old(self).panels@.remove(panel_id));
            assert(self.pane_after_sync() == old(self).pane_after_sync());
        }
        let metadata_changed = self.recompute_workspace_metadata();
        Some(ClearOutcome { removed, metadata_changed })
    }

    /// Remove the first metadata block keyed `key` from a panel and resync
    /// the shown metadata.
    pub fn clear_panel_metadata_block(&mut self, panel_id: Id, key: &str) -> (outcome: Option<ClearOutcome>)
        ensures
            final(self).cleared(
                *old(self),
                panel_id,
                PanelView {
                    metadata_blocks: match block_index(old(self).panel_view(panel_id).metadata_blocks, key@) {
                        Some(i) => old(self).panel_view(panel_id).metadata_blocks.remove(i),
                        None => old(self).panel_view(panel_id).metadata_blocks,
                    },
                    ..old(self).panel_view(panel_id)
                },
                block_index(old(self).panel_view(panel_id).metadata_blocks, key@) is Some,
                outcome,
            ),
    {
        let removed;
        match panels_get_mut(&mut self.panels, panel_id) {
            None => {
                return None;
            },
            Some(p) => {
                let ghost s = p.metadata_blocks.deep_view();
                match find_block(&p.metadata_blocks, key) {
                    Some(i) => {
                        p.metadata_blocks.remove(i);
                        proof {
                            assert(p.metadata_blocks.deep_view() =~= s.remove(i as int));
                        }
                        removed = true;
                    },
                    None => {
                        removed = false;
                    },
                }
            },
        }
        proof {
            assert(self.panels@.remove(panel_id) =~= old(self).panels@.remove(panel_id));
            assert(self.pane_after_sync() == old(self).pane_after_sync());
        }
        let metadata_changed = self.recompute_workspace_metadata();
        Some(ClearOutcome { removed, metadata_changed })
    }
}

/// Replacing a pane by one of the same identity is then what the tree
/// holds under that identity.
pub proof fn lemma_with_pane_found(t: LayoutView, q: Id, p: PaneView)
    requires
        t.pane_by_id(q) is Some,
        p.id == q,
    ensures
        t.with_pane(q, p).pane_by_id(q) == Some(p),
    decreases t,
{
    match t {
        LayoutView::Pane { .. } => {},
        LayoutView::Split { first, second, .. } => {
            if first.pane_by_id(q) is Some {
                lemma_with_pane_found(*first, q, p);
            } else {
                lemma_with_pane_found(*second, q, p);
                lemma_with_pane_absent(*first, q, p);
            }
        },
    }
}

/// Replacing a pane that a tree does not hold leaves it as it is.
pub proof fn lemma_with_pane_absent(t: LayoutView, q: Id, p: PaneView)
    requires
        t.pane_by_id(q) is None,
    ensures
        t.with_pane(q, p) == t,
    decreases t,
{
    match t {
        LayoutView::Pane { .. } => {},
        LayoutView::Split { first, second, .. } => {
            lemma_with_pane_absent(*second, q, p);
        },
    }
}

/// Replacing a pane by one of the same identity and tabs keeps which pane
/// holds each panel.
pub proof fn lemma_with_pane_keeps_holders(t: LayoutView, q: Id, p: PaneView, x: Id)
    requires
        t.pane_by_id(q) matches Some(old_p) && old_p.panel_ids == p.panel_ids,
        p.id == q,
    ensures
        t.with_pane(q, p).pane_id_with_panel(x) == t.pane_id_with_panel(x),
    decreases t,
{
    match t {
        LayoutView::Pane { .. } => {},
        LayoutView::Split { first, second, .. } => {
            if first.pane_by_id(q) is Some {
                lemma_with_pane_keeps_holders(*first, q, p, x);
            } else {
                lemma_with_pane_keeps_holders(*second, q, p, x);
            }
        },
    }
}

/// Selecting the next tab of the focused pane and then the previous one
/// comes back to the tab the pane had selected (its first tab where it
/// had none of its tabs selected), where the pane's tabs are distinct and
/// no earlier pane holds any of them (as where the layout's panel ids are
/// distinct).
pub proof fn lemma_next_then_previous_surface(
    a: Workspace,
    b: Workspace,
    first: Option<Id>,
    c: Workspace,
    second: Option<Id>,
)
    requires
        a.focused_pane_with_tabs() matches Some(p) && {
            &&& p.panel_ids.no_duplicates()
            &&& forall|i: int| 0 <= i < p.panel_ids.len() ==> a.layout@.pane_id_with_panel(#[trigger] p.panel_ids[i]) == Some(p.id)
        },
        b.cycled_from(a, true, first),
        c.cycled_from(b, false, second),
    ensures
        a.focused_pane_with_tabs() matches Some(p) && second == Some(p.panel_ids[selected_index(p)]),
        c.focused_panel_id == second,
        c.focused_pane_id == a.focused_pane_id,
        c.layout@.pane_by_id(a.focused_pane_id->0) matches Some(r) && r.selected_panel_id == second,
{
    let p = a.focused_pane_with_tabs()->0;
    let q = a.focused_pane_id->0;
    let n = p.panel_ids.len() as int;
    let ci = selected_index(p);
    assert(0 <= ci < n) by {
        if let Some(s) = p.selected_panel_id {
            p.panel_ids.index_of_first_ensures(s);
        }
    }
    let ni = cycled_index(p, true);
    let id1 = p.panel_ids[ni];
    let p1 = PaneView { selected_panel_id: Some(id1), ..p };
    assert(p.id == q) by {
        crate::layout::lemma_pane_by_id_has_id(a.layout@, q);
    }
    lemma_with_pane_found(a.layout@, q, p1);
    lemma_with_pane_keeps_holders(a.layout@, q, p1, id1);
    assert(b.layout@.pane_id_with_panel(id1) == Some(q));
    assert(b.focused_pane_id == Some(q));
    assert(b.focused_pane_with_tabs() == Some(p1));
    assert(selected_index(p1) == ni) by {
        p.panel_ids.index_of_first_ensures(id1);
        if p.panel_ids.index_of_first(id1) != Some(ni) {
            let k = p.panel_ids.index_of_first(id1)->0;
            assert(p.panel_ids[k] == p.panel_ids[ni]);
        }
    }
    assert(ni == if ci + 1 < n { ci + 1 } else { 0 }) by (nonlinear_arith)
        requires
            ni == (ci + 1) % n,
            0 <= ci < n,
    ;
    assert(cycled_index(p1, false) == ci);
    let id2 = p.panel_ids[ci];
    let p2 = PaneView { selected_panel_id: Some(id2), ..p1 };
    lemma_with_pane_found(b.layout@, q, p2);
    lemma_with_pane_keeps_holders(b.layout@, q, p2, id2);
    crate::layout::lemma_pane_by_id_has_id(b.layout@, q);
    assert(b.layout@.pane_id_with_panel(id2) == a.layout@.pane_id_with_panel(id2)) by {
        lemma_with_pane_keeps_holders(a.layout@, q, p1, id2);
    }
}

/// Reporting a directory for the focused panel makes the workspace show
/// that directory.
pub proof fn lemma_focused_directory_shown(
    before: Workspace,
    after: Workspace,
    panel_id: Id,
    directory: Seq<char>,
    changed: bool,
)
    requires
        after.set_panel_directory_post(before, panel_id, directory, changed),
        before.focused_panel_id == Some(panel_id),
        before.panels@.contains_key(panel_id),
    ensures
        after.current_directory@ == directory,
{
    assert(crate::workspace::candidate(after.panels@, panel_id, MetaField::Directory));
    assert(crate::workspace::source_panel(
        after.panels@,
        after.focused_panel_id,
        after.attention_panel_id,
        after.layout@.panels(),
        MetaField::Directory,
    ) == Some(panel_id));
}

/// The pane that holds the panel, with the panel's tab swapped with the
/// next one (`forward`) or the one before; `None` where no pane holds the
/// panel or there is no such neighbour.
pub open spec fn tab_move(t: LayoutView, panel_id: Id, forward: bool) -> Option<(Id, PaneView)> {
    match t.pane_id_with_panel(panel_id) {
        None => None,
        Some(q) => match t.pane_by_id(q) {
            None => None,
            Some(p) => match p.panel_ids.index_of_first(panel_id) {
                None => None,
                Some(i) => {
                    let j = if forward { i + 1 } else { i - 1 };
                    if 0 <= j < p.panel_ids.len() {
                        Some((q, PaneView {
                            panel_ids: p.panel_ids.update(i, p.panel_ids[j]).update(j, panel_id),
                            ..p
                        }))
                    } else {
                        None
                    }
                },
            },
        },
    }
}

/// Replacing a pane by one of the same identity that holds the panel
/// exactly where the old one did keeps which pane holds the panel.
pub proof fn lemma_with_pane_same_members(t: LayoutView, q: Id, p: PaneView, x: Id)
    requires
        t.pane_by_id(q) matches Some(old_p) && old_p.panel_ids.contains(x) == p.panel_ids.contains(x),
        p.id == q,
    ensures
        t.with_pane(q, p).pane_id_with_panel(x) == t.pane_id_with_panel(x),
    decreases t,
{
    match t {
        LayoutView::Pane { .. } => {},
        LayoutView::Split { first, second, .. } => {
            if first.pane_by_id(q) is Some {
                lemma_with_pane_same_members(*first, q, p, x);
            } else {
                lemma_with_pane_same_members(*second, q, p, x);
            }
        },
    }
}

/// Swapping an entry of a sequence with a neighbour keeps what it holds.
pub proof fn lemma_swap_members(s: Seq<Id>, i: int, u: Seq<Id>, x: Id)
    requires
        0 <= i < s.len(),
        (0 <= i + 1 < s.len() && u == s.update(i, s[i + 1]).update(i + 1, s[i]))
            || (0 <= i - 1 < s.len() && u == s.update(i, s[i - 1]).update(i - 1, s[i])),
    ensures
        u.contains(x) == s.contains(x),
{
    let j = if 0 <= i + 1 < s.len() && u == s.update(i, s[i + 1]).update(i + 1, s[i]) { i + 1 } else { i - 1 };
    if s.contains(x) {
        let k = choose|k: int| 0 <= k < s.len() && s[k] == x;
        if k == i {
            assert(u[j] == x);
        } else if k == j {
            assert(u[i] == x);
        } else {
            assert(u[k] == x);
        }
    }
    if u.contains(x) {
        let k = choose|k: int| 0 <= k < u.len() && u[k] == x;
        if k == i {
            assert(s[j] == x);
        } else if k == j {
            assert(s[i] == x);
        } else {
            assert(s[k] == x);
        }
    }
}

/// Replacing a pane and then putting the old one back gives the tree
/// that was there.
pub proof fn lemma_with_pane_restored(t: LayoutView, q: Id, p: PaneView)
    requires
        t.pane_by_id(q) is Some,
        p.id == q,
    ensures
        t.with_pane(q, p).with_pane(q, t.pane_by_id(q)->0) == t,
    decreases t,
{
    match t {
        LayoutView::Pane { .. } => {},
        LayoutView::Split { first, second, .. } => {
            if first.pane_by_id(q) is Some {
                lemma_with_pane_restored(*first, q, p);
                lemma_with_pane_found(*first, q, p);
            } else {
                lemma_with_pane_restored(*second, q, p);
                lemma_with_pane_absent(*first, q, p);
            }
        },
    }
}

/// Moving a tab one place and then back leaves the layout, the panels and
/// the focused panel as they were, where the tabs of the pane that holds
/// it are distinct; both moves report the same pane.
pub proof fn lemma_move_surface_and_back(
    a: Workspace,
    b: Workspace,
    first: Option<Id>,
    c: Workspace,
    second: Option<Id>,
    panel_id: Id,
    forward: bool,
)
    requires
        a.layout@.pane_id_with_panel(panel_id) matches Some(q) && a.layout@.pane_by_id(q) matches Some(p)
            && p.panel_ids.no_duplicates(),
        b.tab_moved_from(a, panel_id, forward, first),
        first is Some,
        c.tab_moved_from(b, panel_id, !forward, second),
    ensures
        second == first,
        c.layout@ == a.layout@,
        c.panels@ == a.panels@,
        c.focused_panel_id == a.focused_panel_id,
{
    let t = a.layout@;
    let q = t.pane_id_with_panel(panel_id)->0;
    let p = t.pane_by_id(q)->0;
    let s = p.panel_ids;
    let np = match tab_move(t, panel_id, forward) {
        Some((_, np)) => np,
        None => p,
    };
    s.index_of_first_ensures(panel_id);
    let i = s.index_of_first(panel_id)->0;
    let j = if forward { i + 1 } else { i - 1 };
    crate::layout::lemma_pane_by_id_has_id(t, q);
    lemma_with_pane_found(t, q, np);
    lemma_swap_members(s, i, np.panel_ids, panel_id);
    lemma_with_pane_same_members(t, q, np, panel_id);
    let u = np.panel_ids;
    assert(u[j] == panel_id);
    assert(s[j] != panel_id);
    assert(u.index_of_first(panel_id) == Some(j)) by {
        u.index_of_first_ensures(panel_id);
        let k = u.index_of_first(panel_id)->0;
        if k != j {
            if k == i {
                assert(u[i] == s[j]);
            } else {
                assert(u[k] == s[k]);
            }
        }
    }
    let back = PaneView { panel_ids: u.update(j, u[i]).update(i, panel_id), ..np };
    assert(back.panel_ids =~= s);
    assert(back == p);
    lemma_with_pane_restored(t, q, np);
}

/// The least divider position a pane resize leaves, in millionths.
pub const MIN_DIVIDER: u32 = 100_000;

/// The greatest divider position a pane resize leaves, in millionths.
pub const MAX_DIVIDER: u32 = 900_000;

/// The layout with the panels taken out one after the other.
pub open spec fn without_panels(t: LayoutView, ids: Seq<Id>) -> LayoutView
    decreases ids.len(),
{
    if ids.len() == 0 {
        t
    } else {
        without_panels(t, ids.drop_last()).without_panel(ids.last())
    }
}

/// No two items share a key.
pub open spec fn item_keys_distinct(s: Seq<MetadataItemView>) -> bool {
    forall|i: int, j: int| 0 <= i < s.len() && 0 <= j < s.len() && i != j ==> #[trigger] s[i].key != #[trigger] s[j].key
}

/// The first item keyed `key` has that key, and none before it does; where
/// there is none, no item has it.
pub proof fn lemma_item_index_found(s: Seq<MetadataItemView>, key: Seq<char>)
    ensures
        match item_index(s, key) {
            Some(i) => 0 <= i < s.len() && s[i].key == key && forall|k: int| 0 <= k < i ==> s[k].key != key,
            None => forall|k: int| 0 <= k < s.len() ==> s[k].key != key,
        },
    decreases s.len(),
{
    if s.len() > 0 {
        let d = s.drop_last();
        lemma_item_index_found(d, key);
        assert forall|k: int| 0 <= k < d.len() implies d[k] == s[k] by {}
        if item_index(d, key) is None && s.last().key != key {
            assert forall|k: int| 0 <= k < s.len() implies s[k].key != key by {
                if k < d.len() {
                    assert(d[k].key != key);
                }
            }
        }
    }
}

/// An upsert keeps the keys of items distinct.
pub proof fn lemma_upserted_keys_distinct(s: Seq<MetadataItemView>, x: MetadataItemView)
    requires
        item_keys_distinct(s),
    ensures
        item_keys_distinct(items_upserted(s, x)),
{
    lemma_item_index_found(s, x.key);
    let u = items_upserted(s, x);
    assert forall|i: int, j: int| 0 <= i < u.len() && 0 <= j < u.len() && i != j implies #[trigger] u[i].key != #[trigger] u[j].key by {
        match item_index(s, x.key) {
            Some(k) => {
                if i != k && j != k {
                    assert(s[i].key != s[j].key);
                } else if i == k {
                    assert(s[j].key != s[k].key);
                } else {
                    assert(s[i].key != s[k].key);
                }
            },
            None => {
                if i < s.len() && j < s.len() {
                    assert(s[i].key != s[j].key);
                }
            },
        }
    }
}

/// Items with distinct keys keep them distinct in any order.
pub proof fn lemma_keys_distinct_permuted(a: Seq<MetadataItemView>, b: Seq<MetadataItemView>)
    requires
        item_keys_distinct(a),
        a.to_multiset() == b.to_multiset(),
    ensures
        item_keys_distinct(b),
{
    broadcast use vstd::seq_lib::group_to_multiset_ensures;
    assert(a.no_duplicates()) by {
        assert forall|i: int, j: int| 0 <= i < a.len() && 0 <= j < a.len() && i != j implies a[i] != a[j] by {
            assert(a[i].key != a[j].key);
        }
    }
    a.lemma_multiset_has_no_duplicates();
    b.lemma_multiset_has_no_duplicates_conv();
    assert forall|i: int, j: int| 0 <= i < b.len() && 0 <= j < b.len() && i != j implies #[trigger] b[i].key != #[trigger] b[j].key by {
        if b[i].key == b[j].key {
            assert(b[i] != b[j]);
            assert(b.contains(b[i]));
            assert(b.contains(b[j]));
            assert(b.to_multiset().count(b[i]) > 0);
            assert(b.to_multiset().count(b[j]) > 0);
            assert(a.contains(b[i]));
            assert(a.contains(b[j]));
            let i2 = choose|k: int| 0 <= k < a.len() && a[k] == b[i];
            let j2 = choose|k: int| 0 <= k < a.len() && a[k] == b[j];
            assert(a[i2].key != a[j2].key);
        }
    }
}

/// Upserting an item into a panel whose items have distinct keys and are
/// in showing order leaves them so: the item replaces the one of its key,
/// or joins them, and the rest stay.
pub proof fn lemma_upsert_item_keeps_order(after: Workspace, before: Workspace, panel_id: Id, item: MetadataItemView, changed: bool)
    requires
        after.upsert_panel_metadata_item_post(before, panel_id, item, changed),
        before.panels@.contains_key(panel_id),
        item_keys_distinct(before.panel_view(panel_id).metadata_items),
        items_sorted(before.panel_view(panel_id).metadata_items),
    ensures
        item_keys_distinct(after.panel_view(panel_id).metadata_items),
        items_sorted(after.panel_view(panel_id).metadata_items),
        after.panel_view(panel_id).metadata_items.to_multiset()
            == items_upserted(before.panel_view(panel_id).metadata_items, item).to_multiset(),
{
    let s = before.panel_view(panel_id).metadata_items;
    let t = after.panel_view(panel_id).metadata_items;
    if item_upsert_moves(s, item) {
        lemma_upserted_keys_distinct(s, item);
        lemma_keys_distinct_permuted(items_upserted(s, item), t);
    } else {
        lemma_item_index_found(s, item.key);
        assert(items_upserted(s, item) =~= s);
    }
}

} // verus!

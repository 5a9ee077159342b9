//! Workspace model: a named collection of panels with layout and metadata.

use vstd::prelude::*;

use std::collections::HashMap;

use crate::ids::{new_id, Id};
use crate::layout::{LayoutNode, LayoutView, Pane};
use crate::text::{
    opt_truncate, opt_truncated, opt_view, collapse_whitespace, collapse_ws, string_from_chars, trim, trim_chars, truncate_chars, truncate_str,
};
use vstd::string::StrSliceExecFns;
use vstd::pervasive::VecAdditionalExecFns;
use crate::panel::{
    blocks_copy, blocks_eq, default_title, items_copy, items_eq, now_micros, opt_git_copy, opt_git_eq,
    opt_pr_copy, opt_pr_eq, opt_shell_copy, opt_shell_eq, string_eq, terminal_title, opt_str_to_string, opt_string_copy, opt_string_eq, opt_string_is, ports_copy,
    ports_eq, GitBranch, GitBranchView, MetadataBlock, MetadataBlockView, MetadataItem,
    MetadataItemView, Panel, PanelView, PullRequestChecks, PullRequestMetadata,
    PullRequestState, PullRequestView, ShellActivityState, ShellState, ShellStateView, Timestamp,
};

verus! {

broadcast use {vstd::std_specs::hash::group_hash_axioms, vstd::string::group_string_axioms};

/// Status entry (agent metadata key-value pairs shown in sidebar).
#[derive(Debug, Clone)]
pub struct StatusEntry {
    pub key: String,
    pub value: String,
    pub icon: Option<String>,
    pub color: Option<String>,
    pub timestamp: Timestamp,
}

/// Log entry from agents/tools.
#[derive(Debug, Clone)]
pub struct LogEntry {
    pub message: String,
    pub level: String,
    pub source: Option<String>,
    pub timestamp: Timestamp,
}

/// Progress indicator for a workspace; the value is in millionths.
#[derive(Debug, Clone)]
pub struct Progress {
    pub value: i64,
    pub label: Option<String>,
}

/// A workspace contains one or more panels arranged in a split layout.
///
/// Each workspace appears as a tab in the sidebar. `home_directory` is the
/// directory that stands for the workspace where no panel reports one.
#[derive(Debug)]
pub struct Workspace {
    pub id: Id,
    pub process_title: String,
    pub custom_title: Option<String>,
    pub custom_color: Option<String>,
    pub is_pinned: bool,
    pub current_directory: String,
    pub home_directory: String,
    pub focused_pane_id: Option<Id>,
    pub focused_panel_id: Option<Id>,
    /// The layout tree describing pane arrangement.
    pub layout: LayoutNode,
    /// All panels in this workspace, keyed by id.
    pub panels: HashMap<Id, Panel>,
    /// Status entries (agent metadata, key-value pairs).
    pub status_entries: Vec<StatusEntry>,
    /// Log entries from agents/tools.
    pub log_entries: Vec<LogEntry>,
    /// Progress indicator.
    pub progress: Option<Progress>,
    /// Metadata of the panel that the workspace currently reflects.
    pub git_branch: Option<GitBranch>,
    pub shell_state: Option<ShellState>,
    pub listening_ports: Vec<u16>,
    pub tty_name: Option<String>,
    pub pr_metadata: Option<PullRequestMetadata>,
    pub metadata_items: Vec<MetadataItem>,
    pub metadata_blocks: Vec<MetadataBlock>,
    /// Unread notification count.
    pub unread_count: u32,
    /// Sidebar summary for the latest notification in this workspace.
    pub latest_notification: Option<String>,
    /// Timestamp of the latest notification, used for latest-unread routing.
    pub latest_notification_at: Option<Timestamp>,
    /// Panel that most recently requested attention, if known.
    pub attention_panel_id: Option<Id>,
}

/// The families of panel metadata that a workspace reflects.
#[derive(Debug, Clone, Copy, PartialEq, Eq, Structural)]
pub enum MetaField {
    Directory,
    GitBranch,
    ShellState,
    Ports,
    Tty,
    PullRequest,
    Items,
    Blocks,
}

/// The metadata a workspace shows for its panels.
pub struct Summary {
    pub process_title: Seq<char>,
    pub current_directory: Seq<char>,
    pub git_branch: Option<GitBranchView>,
    pub shell_state: Option<ShellStateView>,
    pub listening_ports: Seq<u16>,
    pub tty_name: Option<Seq<char>>,
    pub pr_metadata: Option<PullRequestView>,
    pub metadata_items: Seq<MetadataItemView>,
    pub metadata_blocks: Seq<MetadataBlockView>,
}

/// The largest of the timestamps, if any.
pub open spec fn max_timestamp(s: Seq<Timestamp>) -> Option<Timestamp>
    decreases s.len(),
{
    if s.len() == 0 {
        None
    } else {
        match max_timestamp(s.drop_last()) {
            None => Some(s.last()),
            Some(m) => Some(if s.last() >= m {
                s.last()
            } else {
                m
            }),
        }
    }
}

/// Whether a panel reports a value of the family.
pub open spec fn has_field(p: PanelView, f: MetaField) -> bool {
    match f {
        MetaField::Directory => p.directory is Some,
        MetaField::GitBranch => p.git_branch is Some,
        MetaField::ShellState => p.shell_state is Some,
        MetaField::Ports => p.listening_ports.len() > 0,
        MetaField::Tty => p.tty_name is Some,
        MetaField::PullRequest => p.pr_metadata is Some,
        MetaField::Items => p.metadata_items.len() > 0,
        MetaField::Blocks => p.metadata_blocks.len() > 0,
    }
}

/// When a panel's value of the family was last reported: the family's own
/// update time, or for items and blocks the latest of their timestamps.
pub open spec fn field_timestamp(p: PanelView, f: MetaField) -> Option<Timestamp> {
    match f {
        MetaField::Directory => p.directory_updated_at,
        MetaField::GitBranch => p.git_branch_updated_at,
        MetaField::ShellState => p.shell_state_updated_at,
        MetaField::Ports => p.listening_ports_updated_at,
        MetaField::Tty => p.tty_name_updated_at,
        MetaField::PullRequest => p.pr_metadata_updated_at,
        MetaField::Items => max_timestamp(p.metadata_items.map_values(|i: MetadataItemView| i.timestamp)),
        MetaField::Blocks => max_timestamp(p.metadata_blocks.map_values(|b: MetadataBlockView| b.timestamp)),
    }
}

/// The panel exists and reports a value of the family.
pub open spec fn candidate(panels: Map<Id, Panel>, id: Id, f: MetaField) -> bool {
    panels.contains_key(id) && has_field(panels[id]@, f)
}

/// The candidate of `order` with the latest timestamp (the later one in
/// `order` among equals); panels without a timestamp take no part.
pub open spec fn latest_candidate(panels: Map<Id, Panel>, order: Seq<Id>, f: MetaField) -> Option<Id>
    decreases order.len(),
{
    if order.len() == 0 {
        None
    } else {
        let prev = latest_candidate(panels, order.drop_last(), f);
        let x = order.last();
        if candidate(panels, x, f) && field_timestamp(panels[x]@, f) is Some {
            match prev {
                None => Some(x),
                Some(y) => if field_timestamp(panels[x]@, f)->0 >= field_timestamp(
                    panels[y]@,
                    f,
                )->0 {
                    Some(x)
                } else {
                    prev
                },
            }
        } else {
            prev
        }
    }
}

/// The first candidate of `order`.
pub open spec fn first_candidate(panels: Map<Id, Panel>, order: Seq<Id>, f: MetaField) -> Option<Id>
    decreases order.len(),
{
    if order.len() == 0 {
        None
    } else if candidate(panels, order[0], f) {
        Some(order[0])
    } else {
        first_candidate(panels, order.drop_first(), f)
    }
}

/// The panel whose value of the family the workspace shows: the focused
/// panel, else the panel that asked for attention, else the latest
/// reported among the panels in layout order, else the first in layout
/// order that reports one.
pub open spec fn source_panel(
    panels: Map<Id, Panel>,
    focused: Option<Id>,
    attention: Option<Id>,
    order: Seq<Id>,
    f: MetaField,
) -> Option<Id> {
    if focused is Some && candidate(panels, focused->0, f) {
        focused
    } else if attention is Some && candidate(panels, attention->0, f) {
        attention
    } else {
        match latest_candidate(panels, order, f) {
            Some(id) => Some(id),
            None => first_candidate(panels, order, f),
        }
    }
}

/// The summary a workspace shows for the given panels, focus, attention,
/// layout order and home directory.
pub open spec fn expected_summary(
    panels: Map<Id, Panel>,
    focused: Option<Id>,
    attention: Option<Id>,
    order: Seq<Id>,
    home: Seq<char>,
) -> Summary {
    let src = |f: MetaField| source_panel(panels, focused, attention, order, f);
    Summary {
        process_title: if focused is Some && panels.contains_key(focused->0) {
            panels[focused->0]@.process_title()
        } else {
            default_title()
        },
        current_directory: match src(MetaField::Directory) {
            Some(id) => panels[id]@.directory->0,
            None => home,
        },
        git_branch: match src(MetaField::GitBranch) {
            Some(id) => panels[id]@.git_branch,
            None => None,
        },
        shell_state: match src(MetaField::ShellState) {
            Some(id) => panels[id]@.shell_state,
            None => None,
        },
        listening_ports: match src(MetaField::Ports) {
            Some(id) => panels[id]@.listening_ports,
            None => Seq::empty(),
        },
        tty_name: match src(MetaField::Tty) {
            Some(id) => panels[id]@.tty_name,
            None => None,
        },
        pr_metadata: match src(MetaField::PullRequest) {
            Some(id) => panels[id]@.pr_metadata,
            None => None,
        },
        metadata_items: match src(MetaField::Items) {
            Some(id) => panels[id]@.metadata_items,
            None => Seq::empty(),
        },
        metadata_blocks: match src(MetaField::Blocks) {
            Some(id) => panels[id]@.metadata_blocks,
            None => Seq::empty(),
        },
    }
}

impl Workspace {
    /// The metadata the workspace currently shows.
    pub open spec fn summary(self) -> Summary {
        Summary {
            process_title: self.process_title@,
            current_directory: self.current_directory@,
            git_branch: self.git_branch.deep_view(),
            shell_state: self.shell_state.deep_view(),
            listening_ports: self.listening_ports@,
            tty_name: self.tty_name.deep_view(),
            pr_metadata: self.pr_metadata.deep_view(),
            metadata_items: self.metadata_items.deep_view(),
            metadata_blocks: self.metadata_blocks.deep_view(),
        }
    }

    /// The summary the workspace's own panels, focus and layout call for.
    pub open spec fn synced_summary(self) -> Summary {
        expected_summary(
            self.panels@,
            self.focused_panel_id,
            self.attention_panel_id,
            self.layout@.panels(),
            self.home_directory@,
        )
    }

    /// The panel with the given id, as a value.
    pub open spec fn panel_view(self, id: Id) -> PanelView {
        self.panels@[id]@
    }
}

/// The panel stored under a key, for update.
///
/// Calls `HashMap::get_mut`, which gives the value stored under the key, if
/// any; what is written through it is what the map then holds under the
/// key, and nothing else changes.
#[verifier::external_body]
pub(crate) fn panels_get_mut(panels: &mut HashMap<Id, Panel>, id: Id) -> (panel: Option<&mut Panel>)
    ensures
        match panel {
            Some(p) => {
                &&& old(panels)@.contains_key(id)
                &&& old(panels)@[id] == *p
                &&& final(panels)@ == old(panels)@.insert(id, *final(p))
            },
            None => {
                &&& !old(panels)@.contains_key(id)
                &&& final(panels)@ == old(panels)@
            },
        },
{
    panels.get_mut(&id)
}

/// Whether a panel reports a value of the family.
fn panel_has_field(p: &Panel, f: MetaField) -> (has: bool)
    ensures
        has == has_field(p@, f),
{
    match f {
        MetaField::Directory => p.directory.is_some(),
        MetaField::GitBranch => p.git_branch.is_some(),
        MetaField::ShellState => p.shell_state.is_some(),
        MetaField::Ports => p.listening_ports.len() > 0,
        MetaField::Tty => p.tty_name.is_some(),
        MetaField::PullRequest => p.pr_metadata.is_some(),
        MetaField::Items => p.metadata_items.len() > 0,
        MetaField::Blocks => p.metadata_blocks.len() > 0,
    }
}

/// The latest of the item timestamps.
fn latest_item_timestamp(items: &Vec<MetadataItem>) -> (t: Option<Timestamp>)
    ensures
        t == max_timestamp(items.deep_view().map_values(|i: MetadataItemView| i.timestamp)),
{
    let ghost ts = items.deep_view().map_values(|i: MetadataItemView| i.timestamp);
    let mut best: Option<Timestamp> = None;
    let mut i: usize = 0;
    while i < items.len()
        invariant
            i <= items@.len(),
            ts.len() == items@.len(),
            ts == items.deep_view().map_values(|i: MetadataItemView| i.timestamp),
            best == max_timestamp(ts.subrange(0, i as int)),
        decreases items.len() - i,
    {
        let t = items[i].timestamp;
        proof {
            assert(ts[i as int] == t);
            assert(ts.subrange(0, i + 1).drop_last() =~= ts.subrange(0, i as int));
        }
        best = match best {
            None => Some(t),
            Some(m) => Some(if t >= m { t } else { m }),
        };
        i = i + 1;
    }
    proof {
        assert(ts.subrange(0, items@.len() as int) =~= ts);
    }
    best
}

/// The latest of the block timestamps.
fn latest_block_timestamp(blocks: &Vec<MetadataBlock>) -> (t: Option<Timestamp>)
    ensures
        t == max_timestamp(blocks.deep_view().map_values(|b: MetadataBlockView| b.timestamp)),
{
    let ghost ts = blocks.deep_view().map_values(|b: MetadataBlockView| b.timestamp);
    let mut best: Option<Timestamp> = None;
    let mut i: usize = 0;
    while i < blocks.len()
        invariant
            i <= blocks@.len(),
            ts.len() == blocks@.len(),
            ts == blocks.deep_view().map_values(|b: MetadataBlockView| b.timestamp),
            best == max_timestamp(ts.subrange(0, i as int)),
        decreases blocks.len() - i,
    {
        let t = blocks[i].timestamp;
        proof {
            assert(ts[i as int] == t);
            assert(ts.subrange(0, i + 1).drop_last() =~= ts.subrange(0, i as int));
        }
        best = match best {
            None => Some(t),
            Some(m) => Some(if t >= m { t } else { m }),
        };
        i = i + 1;
    }
    proof {
        assert(ts.subrange(0, blocks@.len() as int) =~= ts);
    }
    best
}

/// When a panel's value of the family was last reported.
fn panel_field_timestamp(p: &Panel, f: MetaField) -> (t: Option<Timestamp>)
    ensures
        t == field_timestamp(p@, f),
{
    match f {
        MetaField::Directory => p.directory_updated_at,
        MetaField::GitBranch => p.git_branch_updated_at,
        MetaField::ShellState => p.shell_state_updated_at,
        MetaField::Ports => p.listening_ports_updated_at,
        MetaField::Tty => p.tty_name_updated_at,
        MetaField::PullRequest => p.pr_metadata_updated_at,
        MetaField::Items => latest_item_timestamp(&p.metadata_items),
        MetaField::Blocks => latest_block_timestamp(&p.metadata_blocks),
    }
}

impl Workspace {
    /// Whether the panel exists and reports a value of the family.
    fn is_candidate(&self, id: Id, f: MetaField) -> (c: bool)
        ensures
            c == candidate(self.panels@, id, f),
    {
        match self.panels.get(&id) {
            Some(p) => panel_has_field(p, f),
            None => false,
        }
    }

    /// The panel whose value of the family the workspace shows.
    pub fn metadata_source(&self, f: MetaField) -> (src: Option<Id>)
        ensures
            src == source_panel(
                self.panels@,
                self.focused_panel_id,
                self.attention_panel_id,
                self.layout@.panels(),
                f,
            ),
    {
        if let Some(id) = self.focused_panel_id {
            if self.is_candidate(id, f) {
                return Some(id);
            }
        }
        if let Some(id) = self.attention_panel_id {
            if self.is_candidate(id, f) {
                return Some(id);
            }
        }
        let order = self.layout.all_panel_ids();
        let ghost panels = self.panels@;
        let mut best: Option<Id> = None;
        let mut best_ts: Timestamp = 0;
        let mut i: usize = 0;
        while i < order.len()
            invariant
                panels == self.panels@,
                i <= order@.len(),
                best == latest_candidate(panels, order@.subrange(0, i as int), f),
                best is Some ==> panels.contains_key(best->0) && field_timestamp(
                    panels[best->0]@,
                    f,
                ) == Some(best_ts),
            decreases order.len() - i,
        {
            let x = order[i];
            proof {
                assert(order@.subrange(0, i + 1).drop_last() =~= order@.subrange(0, i as int));
                assert(order@.subrange(0, i + 1).last() == x);
            }
            match self.panels.get(&x) {
                Some(p) => {
                    if panel_has_field(p, f) {
                        match panel_field_timestamp(p, f) {
                            Some(t) => {
                                match best {
                                    None => {
                                        best = Some(x);
                                        best_ts = t;
                                    },
                                    Some(_) => {
                                        if t >= best_ts {
                                            best = Some(x);
                                            best_ts = t;
                                        }
                                    },
                                }
                            },
                            None => {},
                        }
                    }
                },
                None => {},
            }
            i = i + 1;
        }
        proof {
            assert(order@.subrange(0, order@.len() as int) =~= order@);
        }
        if best.is_some() {
            return best;
        }
        let mut k: usize = 0;
        proof {
            assert(order@.subrange(0, order@.len() as int) =~= order@);
        }
        while k < order.len()
            invariant
                panels == self.panels@,
                k <= order@.len(),
                first_candidate(panels, order@, f) == first_candidate(
                    panels,
                    order@.subrange(k as int, order@.len() as int),
                    f,
                ),
                order@ == self.layout@.panels(),
                latest_candidate(panels, order@, f) is None,
                !(self.focused_panel_id is Some && candidate(panels, self.focused_panel_id->0, f)),
                !(self.attention_panel_id is Some && candidate(panels, self.attention_panel_id->0, f)),
            decreases order.len() - k,
        {
            let x = order[k];
            let rest = Ghost(order@.subrange(k as int, order@.len() as int));
            proof {
                assert(rest@[0] == x);
                assert(rest@.drop_first() =~= order@.subrange(k + 1, order@.len() as int));
            }
            if self.is_candidate(x, f) {
                proof {
                    assert(first_candidate(panels, rest@, f) == Some(x));
                }
                return Some(x);
            }
            k = k + 1;
        }
        None
    }
}


/// The latest candidate is a candidate.
pub proof fn lemma_latest_candidate(panels: Map<Id, Panel>, order: Seq<Id>, f: MetaField)
    ensures
        latest_candidate(panels, order, f) matches Some(id) ==> candidate(panels, id, f)
            && order.contains(id),
    decreases order.len(),
{
    if order.len() > 0 {
        lemma_latest_candidate(panels, order.drop_last(), f);
        if let Some(id) = latest_candidate(panels, order.drop_last(), f) {
            let i = choose|i: int| 0 <= i < order.drop_last().len() && order.drop_last()[i] == id;
            assert(order[i] == id);
        }
        assert(order[order.len() - 1] == order.last());
    }
}

/// The first candidate is a candidate.
pub proof fn lemma_first_candidate(panels: Map<Id, Panel>, order: Seq<Id>, f: MetaField)
    ensures
        first_candidate(panels, order, f) matches Some(id) ==> candidate(panels, id, f)
            && order.contains(id),
    decreases order.len(),
{
    if order.len() > 0 {
        lemma_first_candidate(panels, order.drop_first(), f);
        if let Some(id) = first_candidate(panels, order.drop_first(), f) {
            let i = choose|i: int| 0 <= i < order.drop_first().len() && order.drop_first()[i] == id;
            assert(order[i + 1] == id);
        }
        assert(order[0] == order[0]);
    }
}

/// Where no panel of `order` reports a value of the family, there is
/// neither a latest nor a first candidate.
pub proof fn lemma_no_candidate(panels: Map<Id, Panel>, order: Seq<Id>, f: MetaField)
    requires
        forall|i: int| 0 <= i < order.len() ==> !candidate(panels, #[trigger] order[i], f),
    ensures
        latest_candidate(panels, order, f) is None,
        first_candidate(panels, order, f) is None,
    decreases order.len(),
{
    if order.len() > 0 {
        assert(forall|i: int| 0 <= i < order.drop_last().len() ==> order.drop_last()[i] == order[i]);
        assert(forall|i: int| 0 <= i < order.drop_first().len() ==> order.drop_first()[i] == order[i + 1]);
        lemma_no_candidate(panels, order.drop_last(), f);
        lemma_no_candidate(panels, order.drop_first(), f);
        assert(!candidate(panels, order[order.len() - 1], f));
        assert(!candidate(panels, order[0], f));
    }
}

/// The source panel of a family is a panel that reports a value of it.
pub proof fn lemma_source_panel(
    panels: Map<Id, Panel>,
    focused: Option<Id>,
    attention: Option<Id>,
    order: Seq<Id>,
    f: MetaField,
)
    ensures
        source_panel(panels, focused, attention, order, f) matches Some(id) ==> candidate(
            panels,
            id,
            f,
        ),
{
    lemma_latest_candidate(panels, order, f);
    lemma_first_candidate(panels, order, f);
}

impl Workspace {
    /// Everything but the shown metadata and the focused pane is as in
    /// `other`.
    pub open spec fn same_except_summary(self, other: Self) -> bool {
        &&& self.same_frame(other)
        &&& self.panels == other.panels
    }

    /// The fields that neither panel updates nor metadata syncs touch are
    /// as in `other`.
    pub open spec fn same_frame(self, other: Self) -> bool {
        &&& self.id == other.id
        &&& self.custom_title == other.custom_title
        &&& self.custom_color == other.custom_color
        &&& self.is_pinned == other.is_pinned
        &&& self.home_directory == other.home_directory
        &&& self.focused_panel_id == other.focused_panel_id
        &&& self.layout == other.layout
        &&& self.status_entries == other.status_entries
        &&& self.log_entries == other.log_entries
        &&& self.progress == other.progress
        &&& self.unread_count == other.unread_count
        &&& self.latest_notification == other.latest_notification
        &&& self.latest_notification_at == other.latest_notification_at
        &&& self.attention_panel_id == other.attention_panel_id
    }

    /// The focused pane after syncing: the pane holding the focused panel
    /// where that panel exists and a pane holds it, else as it was.
    pub open spec fn pane_after_sync(self) -> Option<Id> {
        if self.focused_panel_id is Some && self.panels@.contains_key(self.focused_panel_id->0) {
            match self.layout@.pane_id_with_panel(self.focused_panel_id->0) {
                Some(p) => Some(p),
                None => self.focused_pane_id,
            }
        } else {
            self.focused_pane_id
        }
    }

    /// The process title the workspace shows: its focused panel's.
    fn synced_title(&self) -> (t: String)
        ensures
            t@ == self.synced_summary().process_title,
    {
        match self.focused_panel_id {
            Some(id) => match self.panels.get(&id) {
                Some(p) => p.process_title().to_owned(),
                None => terminal_title().to_owned(),
            },
            None => terminal_title().to_owned(),
        }
    }

    /// The value the workspace shows for the family, from its source panel.
    fn synced_directory(&self) -> (d: String)
        ensures
            d@ == self.synced_summary().current_directory,
    {
        let src = self.metadata_source(MetaField::Directory);
        proof {
            lemma_source_panel(
                self.panels@,
                self.focused_panel_id,
                self.attention_panel_id,
                self.layout@.panels(),
                MetaField::Directory,
            );
        }
        let d = match src {
            Some(id) => match self.panels.get(&id) {
                Some(p) => match &p.directory {
                    Some(d) => d.clone(),
                    None => self.home_directory.clone(),
                },
                None => self.home_directory.clone(),
            },
            None => self.home_directory.clone(),
        };
        d
    }

    /// The value the workspace shows for the family, from its source panel.
    fn synced_git_branch(&self) -> (d: Option<GitBranch>)
        ensures
            d.deep_view() == self.synced_summary().git_branch,
    {
        let src = self.metadata_source(MetaField::GitBranch);
        proof {
            lemma_source_panel(
                self.panels@,
                self.focused_panel_id,
                self.attention_panel_id,
                self.layout@.panels(),
                MetaField::GitBranch,
            );
        }
        let d = match src {
            Some(id) => match self.panels.get(&id) {
                Some(p) => opt_git_copy(&p.git_branch),
                None => None,
            },
            None => None,
        };
        d
    }

    /// The value the workspace shows for the family, from its source panel.
    fn synced_shell_state(&self) -> (d: Option<ShellState>)
        ensures
            d.deep_view() == self.synced_summary().shell_state,
    {
        let src = self.metadata_source(MetaField::ShellState);
        proof {
            lemma_source_panel(
                self.panels@,
                self.focused_panel_id,
                self.attention_panel_id,
                self.layout@.panels(),
                MetaField::ShellState,
            );
        }
        let d = match src {
            Some(id) => match self.panels.get(&id) {
                Some(p) => opt_shell_copy(&p.shell_state),
                None => None,
            },
            None => None,
        };
        d
    }

    /// The value the workspace shows for the family, from its source panel.
    fn synced_ports(&self) -> (d: Vec<u16>)
        ensures
            d@ == self.synced_summary().listening_ports,
    {
        let src = self.metadata_source(MetaField::Ports);
        proof {
            lemma_source_panel(
                self.panels@,
                self.focused_panel_id,
                self.attention_panel_id,
                self.layout@.panels(),
                MetaField::Ports,
            );
        }
        let d = match src {
            Some(id) => match self.panels.get(&id) {
                Some(p) => ports_copy(&p.listening_ports),
                None => Vec::new(),
            },
            None => Vec::new(),
        };
        d
    }

    /// The value the workspace shows for the family, from its source panel.
    fn synced_tty(&self) -> (d: Option<String>)
        ensures
            d.deep_view() == self.synced_summary().tty_name,
    {
        let src = self.metadata_source(MetaField::Tty);
        proof {
            lemma_source_panel(
                self.panels@,
                self.focused_panel_id,
                self.attention_panel_id,
                self.layout@.panels(),
                MetaField::Tty,
            );
        }
        let d = match src {
            Some(id) => match self.panels.get(&id) {
                Some(p) => opt_string_copy(&p.tty_name),
                None => None,
            },
            None => None,
        };
        d
    }

    /// The value the workspace shows for the family, from its source panel.
    fn synced_pr(&self) -> (d: Option<PullRequestMetadata>)
        ensures
            d.deep_view() == self.synced_summary().pr_metadata,
    {
        let src = self.metadata_source(MetaField::PullRequest);
        proof {
            lemma_source_panel(
                self.panels@,
                self.focused_panel_id,
                self.attention_panel_id,
                self.layout@.panels(),
                MetaField::PullRequest,
            );
        }
        let d = match src {
            Some(id) => match self.panels.get(&id) {
                Some(p) => opt_pr_copy(&p.pr_metadata),
                None => None,
            },
            None => None,
        };
        d
    }

    /// The value the workspace shows for the family, from its source panel.
    fn synced_items(&self) -> (d: Vec<MetadataItem>)
        ensures
            d.deep_view() == self.synced_summary().metadata_items,
    {
        let src = self.metadata_source(MetaField::Items);
        proof {
            lemma_source_panel(
                self.panels@,
                self.focused_panel_id,
                self.attention_panel_id,
                self.layout@.panels(),
                MetaField::Items,
            );
        }
        let d = match src {
            Some(id) => match self.panels.get(&id) {
                Some(p) => items_copy(&p.metadata_items),
                None => Vec::new(),
            },
            None => Vec::new(),
        };
        d
    }

    /// The value the workspace shows for the family, from its source panel.
    fn synced_blocks(&self) -> (d: Vec<MetadataBlock>)
        ensures
            d.deep_view() == self.synced_summary().metadata_blocks,
    {
        let src = self.metadata_source(MetaField::Blocks);
        proof {
            lemma_source_panel(
                self.panels@,
                self.focused_panel_id,
                self.attention_panel_id,
                self.layout@.panels(),
                MetaField::Blocks,
            );
        }
        let d = match src {
            Some(id) => match self.panels.get(&id) {
                Some(p) => blocks_copy(&p.metadata_blocks),
                None => Vec::new(),
            },
            None => Vec::new(),
        };
        d
    }

    /// Recompute the metadata the workspace shows from its panels (see
    /// `expected_summary`) and resync the focused pane; reports whether
    /// the shown metadata changed.
    pub fn recompute_workspace_metadata(&mut self) -> (changed: bool)
        ensures
            final(self).same_except_summary(*old(self)),
            final(self).focused_pane_id == old(self).pane_after_sync(),
            final(self).summary() == old(self).synced_summary(),
            changed == (final(self).summary() != old(self).summary()),
    {
        if let Some(panel_id) = self.focused_panel_id {
            if self.panels.contains_key(&panel_id) {
                let pane = self.layout.find_pane_id_with_panel(panel_id);
                if pane.is_some() {
                    self.focused_pane_id = pane;
                }
            }
        }
        let title = self.synced_title();
        let directory = self.synced_directory();
        let git_branch = self.synced_git_branch();
        let shell_state = self.synced_shell_state();
        let ports = self.synced_ports();
        let tty = self.synced_tty();
        let pr = self.synced_pr();
        let items = self.synced_items();
        let blocks = self.synced_blocks();
        let changed = !string_eq(&title, &self.process_title) || !string_eq(
            &directory,
            &self.current_directory,
        ) || !opt_git_eq(&git_branch, &self.git_branch) || !opt_shell_eq(
            &shell_state,
            &self.shell_state,
        ) || !ports_eq(&ports, &self.listening_ports) || !opt_string_eq(&tty, &self.tty_name)
            || !opt_pr_eq(&pr, &self.pr_metadata) || !items_eq(&items, &self.metadata_items)
            || !blocks_eq(&blocks, &self.metadata_blocks);
        self.process_title = title;
        self.current_directory = directory;
        self.git_branch = git_branch;
        self.shell_state = shell_state;
        self.listening_ports = ports;
        self.tty_name = tty;
        self.pr_metadata = pr;
        self.metadata_items = items;
        self.metadata_blocks = blocks;
        changed
    }
}


pub struct StatusEntryView {
    pub key: Seq<char>,
    pub value: Seq<char>,
    pub icon: Option<Seq<char>>,
    pub color: Option<Seq<char>>,
    pub timestamp: Timestamp,
}

impl View for StatusEntry {
    type V = StatusEntryView;

    open spec fn view(&self) -> StatusEntryView {
        StatusEntryView {
            key: self.key@,
            value: self.value@,
            icon: self.icon.deep_view(),
            color: self.color.deep_view(),
            timestamp: self.timestamp,
        }
    }
}

impl DeepView for StatusEntry {
    type V = StatusEntryView;

    open spec fn deep_view(&self) -> StatusEntryView {
        self@
    }
}

pub struct LogEntryView {
    pub message: Seq<char>,
    pub level: Seq<char>,
    pub source: Option<Seq<char>>,
    pub timestamp: Timestamp,
}

impl View for LogEntry {
    type V = LogEntryView;

    open spec fn view(&self) -> LogEntryView {
        LogEntryView {
            message: self.message@,
            level: self.level@,
            source: self.source.deep_view(),
            timestamp: self.timestamp,
        }
    }
}

impl DeepView for LogEntry {
    type V = LogEntryView;

    open spec fn deep_view(&self) -> LogEntryView {
        self@
    }
}

/// The mathematical value of a progress indicator.
pub struct ProgressView {
    pub value: i64,
    pub label: Option<Seq<char>>,
}

impl DeepView for Progress {
    type V = ProgressView;

    open spec fn deep_view(&self) -> ProgressView {
        ProgressView { value: self.value, label: self.label.deep_view() }
    }
}

impl StatusEntry {
    /// A copy of the entry.
    pub fn copy(&self) -> (c: StatusEntry)
        ensures
            c@ == self@,
    {
        StatusEntry {
            key: self.key.clone(),
            value: self.value.clone(),
            icon: opt_string_copy(&self.icon),
            color: opt_string_copy(&self.color),
            timestamp: self.timestamp,
        }
    }
}

impl LogEntry {
    /// A copy of the entry.
    pub fn copy(&self) -> (c: LogEntry)
        ensures
            c@ == self@,
    {
        LogEntry {
            message: self.message.clone(),
            level: self.level.clone(),
            source: opt_string_copy(&self.source),
            timestamp: self.timestamp,
        }
    }
}

/// A copy of a list of status entries.
pub fn status_entries_copy(a: &Vec<StatusEntry>) -> (c: Vec<StatusEntry>)
    ensures
        c.deep_view() == a.deep_view(),
{
    let mut c: Vec<StatusEntry> = Vec::new();
    let mut i: usize = 0;
    while i < a.len()
        invariant
            i <= a@.len(),
            c@.len() == i,
            forall|j: int| 0 <= j < i ==> c@[j]@ == a@[j]@,
        decreases a.len() - i,
    {
        c.push(a[i].copy());
        i = i + 1;
    }
    proof {
        assert(c.deep_view() =~= a.deep_view());
    }
    c
}

/// A copy of a list of log entries.
pub fn log_entries_copy(a: &Vec<LogEntry>) -> (c: Vec<LogEntry>)
    ensures
        c.deep_view() == a.deep_view(),
{
    let mut c: Vec<LogEntry> = Vec::new();
    let mut i: usize = 0;
    while i < a.len()
        invariant
            i <= a@.len(),
            c@.len() == i,
            forall|j: int| 0 <= j < i ==> c@[j]@ == a@[j]@,
        decreases a.len() - i,
    {
        c.push(a[i].copy());
        i = i + 1;
    }
    proof {
        assert(c.deep_view() =~= a.deep_view());
    }
    c
}

/// A copy of an optional progress indicator.
pub fn opt_progress_copy(a: &Option<Progress>) -> (c: Option<Progress>)
    ensures
        c.deep_view() == a.deep_view(),
{
    match a {
        Some(p) => Some(Progress { value: p.value, label: opt_string_copy(&p.label) }),
        None => None,
    }
}

/// The most status entries a workspace keeps.
pub const MAX_STATUS_ENTRIES: usize = 100usize;

/// The most bytes of a status key.
pub const MAX_STATUS_KEY_LEN: usize = 256usize;

/// The most bytes of a status value.
pub const MAX_STATUS_VALUE_LEN: usize = 4096usize;

/// The most log entries a workspace keeps before dropping the oldest
/// quarter.
pub const MAX_LOG_ENTRIES: usize = 1000usize;

/// The most bytes of a log message.
pub const MAX_LOG_MESSAGE_LEN: usize = 8192usize;

/// The longest sidebar notification summary, in characters.
pub const MAX_NOTIFICATION_SUMMARY_CHARS: usize = 120usize;

/// The most bytes of a workspace's custom title.
pub const MAX_CUSTOM_TITLE_LEN: usize = 1024usize;

/// The text ": ".
pub open spec fn colon_space() -> Seq<char> {
    seq![':', ' ']
}

/// The text "...".
pub open spec fn ellipsis() -> Seq<char> {
    seq!['.', '.', '.']
}

/// The text "Notification".
pub open spec fn notification_word() -> Seq<char> {
    seq!['N', 'o', 't', 'i', 'f', 'i', 'c', 'a', 't', 'i', 'o', 'n']
}

/// The text "agent".
pub open spec fn agent_key() -> Seq<char> {
    seq!['a', 'g', 'e', 'n', 't']
}

/// One line of summary for a notification, before truncation: the trimmed
/// title and body joined by ": " (only one where the other is empty or
/// both are the same), or "Notification" where both are empty.
pub open spec fn summary_text(title: Seq<char>, body: Seq<char>) -> Seq<char> {
    let t = trim_chars(title);
    let b = trim_chars(body);
    if t.len() > 0 && b.len() > 0 {
        if b == t {
            t
        } else {
            t + colon_space() + b
        }
    } else if t.len() > 0 {
        t
    } else if b.len() > 0 {
        b
    } else {
        notification_word()
    }
}

/// A text cut to its first `max_chars` characters, with "..." after it
/// where it was longer.
pub open spec fn sidebar_truncate(text: Seq<char>, max_chars: nat) -> Seq<char> {
    if text.len() > max_chars {
        text.take(max_chars as int) + ellipsis()
    } else {
        text
    }
}

/// The sidebar summary of a notification.
pub open spec fn notification_summary_text(title: Seq<char>, body: Seq<char>) -> Seq<char> {
    sidebar_truncate(collapse_whitespace(summary_text(title, body)), MAX_NOTIFICATION_SUMMARY_CHARS as nat)
}

/// Cut a text to its first `max_chars` characters, adding "..." where it
/// was longer.
pub fn truncate_for_sidebar(text: &str, max_chars: usize) -> (t: String)
    ensures
        t@ == sidebar_truncate(text@, max_chars as nat),
{
    let n = text.unicode_len();
    if n > max_chars {
        let head = text.substring_char(0, max_chars);
        let dots = "...";
        proof {
            reveal_strlit("...");
            assert(dots@ =~= ellipsis());
        }
        head.to_owned().concat(dots)
    } else {
        text.to_owned()
    }
}

/// The sidebar summary of a notification (see `notification_summary_text`).
pub fn notification_summary(title: &str, body: &str) -> (summary: String)
    ensures
        summary@ == notification_summary_text(title@, body@),
{
    let t = trim(title);
    let b = trim(body);
    let t_empty = t.unicode_len() == 0;
    let b_empty = b.unicode_len() == 0;
    let summary: String = if !t_empty && !b_empty {
        if crate::panel::str_eq(b, t) {
            t.to_owned()
        } else {
            let sep = ": ";
            proof {
                reveal_strlit(": ");
                assert(sep@ =~= colon_space());
            }
            t.to_owned().concat(sep).concat(b)
        }
    } else if !t_empty {
        t.to_owned()
    } else if !b_empty {
        b.to_owned()
    } else {
        let word = "Notification";
        proof {
            reveal_strlit("Notification");
            assert(word@ =~= notification_word());
        }
        word.to_owned()
    };
    let single_line = collapse_ws(summary.as_str());
    truncate_for_sidebar(single_line.as_str(), MAX_NOTIFICATION_SUMMARY_CHARS)
}

/// The index of the first entry with the least timestamp.
pub open spec fn oldest_index(s: Seq<StatusEntryView>) -> int
    decreases s.len(),
{
    if s.len() <= 1 {
        0
    } else {
        let i = oldest_index(s.drop_last());
        if s.last().timestamp < s[i].timestamp {
            s.len() - 1
        } else {
            i
        }
    }
}

/// The index of the first entry with the key, if any.
pub open spec fn status_index(s: Seq<StatusEntryView>, key: Seq<char>) -> Option<int>
    decreases s.len(),
{
    if s.len() == 0 {
        None
    } else {
        match status_index(s.drop_last(), key) {
            Some(i) => Some(i),
            None => if s.last().key == key {
                Some(s.len() - 1)
            } else {
                None
            },
        }
    }
}

/// The status entries after `set_status` with the (already truncated)
/// values and the time `now`: the first entry with the key is updated in
/// place; otherwise a new entry goes at the end, after the oldest entry
/// (the first with the least timestamp) made room where the list was full.
pub open spec fn status_after(s: Seq<StatusEntryView>, e: StatusEntryView) -> Seq<StatusEntryView> {
    match status_index(s, e.key) {
        Some(i) => s.update(i, e),
        None => if s.len() >= MAX_STATUS_ENTRIES {
            s.remove(oldest_index(s)).push(e)
        } else {
            s.push(e)
        },
    }
}

/// The log entries after appending `e`: where the list was full, its
/// oldest quarter goes first.
pub open spec fn log_after(s: Seq<LogEntryView>, e: LogEntryView) -> Seq<LogEntryView> {
    if s.len() >= MAX_LOG_ENTRIES {
        s.skip((s.len() / 4) as int).push(e)
    } else {
        s.push(e)
    }
}

/// The label the sidebar shows for the status: the value of the last entry
/// keyed "agent", else of the last entry.
pub open spec fn status_label(s: Seq<StatusEntryView>) -> Option<Seq<char>> {
    if s.len() == 0 {
        None
    } else {
        match status_label_agent(s) {
            Some(v) => Some(v),
            None => Some(s.last().value),
        }
    }
}

/// The sidebar's status label: none without entries; else the value of
/// the latest entry keyed `agent` (no later entry has that key), and where
/// no entry has that key, the value of the last entry appended.
pub proof fn lemma_status_label_law(s: Seq<StatusEntryView>)
    ensures
        s.len() == 0 ==> status_label(s) is None,
        s.len() > 0 && (forall|i: int| 0 <= i < s.len() ==> (#[trigger] s[i]).key != agent_key())
            ==> status_label(s) == Some(s[s.len() - 1].value),
        (exists|i: int| 0 <= i < s.len() && (#[trigger] s[i]).key == agent_key()) ==> exists|i: int|
            0 <= i < s.len() && (#[trigger] s[i]).key == agent_key() && status_label(s) == Some(s[i].value)
                && forall|j: int| i < j < s.len() ==> (#[trigger] s[j]).key != agent_key(),
{
    lemma_status_label_agent_law(s);
}

/// The value of the latest entry keyed `agent`, where one is.
proof fn lemma_status_label_agent_law(s: Seq<StatusEntryView>)
    ensures
        (forall|i: int| 0 <= i < s.len() ==> (#[trigger] s[i]).key != agent_key()) ==> status_label_agent(s) is None,
        (exists|i: int| 0 <= i < s.len() && (#[trigger] s[i]).key == agent_key()) ==> exists|i: int|
            0 <= i < s.len() && (#[trigger] s[i]).key == agent_key() && status_label_agent(s) == Some(s[i].value)
                && forall|j: int| i < j < s.len() ==> (#[trigger] s[j]).key != agent_key(),
    decreases s.len(),
{
    if s.len() > 0 {
        let d = s.drop_last();
        lemma_status_label_agent_law(d);
        assert forall|k: int| 0 <= k < d.len() implies d[k] == s[k] by {}
        let n = s.len() - 1;
        if s[n].key == agent_key() {
            assert(s.last() == s[n]);
        } else {
            assert(s.last() == s[n]);
            if exists|i: int| 0 <= i < s.len() && (#[trigger] s[i]).key == agent_key() {
                let w = choose|i: int| 0 <= i < s.len() && (#[trigger] s[i]).key == agent_key();
                assert(d[w].key == agent_key());
                let i = choose|i: int| 0 <= i < d.len() && (#[trigger] d[i]).key == agent_key() && status_label_agent(d) == Some(d[i].value)
                    && forall|j: int| i < j < d.len() ==> (#[trigger] d[j]).key != agent_key();
                assert(s[i] == d[i]);
                assert forall|j: int| i < j < s.len() implies (#[trigger] s[j]).key != agent_key() by {
                    if j < n {
                        assert(d[j].key != agent_key());
                    }
                }
            }
            if forall|i: int| 0 <= i < s.len() ==> (#[trigger] s[i]).key != agent_key() {
                assert forall|i: int| 0 <= i < d.len() implies (#[trigger] d[i]).key != agent_key() by {
                    assert(s[i].key != agent_key());
                }
            }
        }
    }
}

/// The oldest entry is one of the entries.
proof fn lemma_oldest_index_in_range(s: Seq<StatusEntryView>)
    requires
        s.len() > 0,
    ensures
        0 <= oldest_index(s) < s.len(),
    decreases s.len(),
{
    if s.len() > 1 {
        lemma_oldest_index_in_range(s.drop_last());
    }
}

/// The first entry keyed `key` has that key; where there is none, no entry
/// has it.
proof fn lemma_status_index_found(s: Seq<StatusEntryView>, key: Seq<char>)
    ensures
        match status_index(s, key) {
            Some(i) => 0 <= i < s.len() && s[i].key == key,
            None => forall|k: int| 0 <= k < s.len() ==> s[k].key != key,
        },
    decreases s.len(),
{
    if s.len() > 0 {
        let d = s.drop_last();
        lemma_status_index_found(d, key);
        assert forall|k: int| 0 <= k < d.len() implies d[k] == s[k] by {}
        if status_index(d, key) is None && s.last().key != key {
            assert forall|k: int| 0 <= k < s.len() implies s[k].key != key by {
                if k < d.len() {
                    assert(d[k].key != key);
                }
            }
        }
    }
}

/// What the sidebar shows after a status report: setting the `agent`
/// entry makes its value the label; setting a new key, where no entry is
/// keyed `agent`, makes the new value the label (it is the latest entry).
/// (The entries' keys are distinct, as status reports keep them.)
pub proof fn lemma_status_label_after_report(s: Seq<StatusEntryView>, e: StatusEntryView)
    requires
        forall|i: int, j: int| 0 <= i < s.len() && 0 <= j < s.len() && i != j ==> #[trigger] s[i].key != #[trigger] s[j].key,
    ensures
        e.key == agent_key() ==> status_label(status_after(s, e)) == Some(e.value),
        (e.key != agent_key() && status_index(s, e.key) is None && forall|i: int| 0 <= i < s.len() ==> (#[trigger] s[i]).key != agent_key())
            ==> status_label(status_after(s, e)) == Some(e.value),
{
    let t = status_after(s, e);
    lemma_status_index_found(s, e.key);
    lemma_status_label_law(t);
    match status_index(s, e.key) {
        Some(i) => {
            assert(t[i] == e);
            if e.key == agent_key() {
                assert forall|j: int| 0 <= j < t.len() && j != i implies (#[trigger] t[j]).key != agent_key() by {
                    assert(t[j] == s[j]);
                    assert(s[j].key != s[i].key);
                }
                let w = choose|w: int| 0 <= w < t.len() && (#[trigger] t[w]).key == agent_key() && status_label(t) == Some(t[w].value)
                    && forall|j: int| w < j < t.len() ==> (#[trigger] t[j]).key != agent_key();
                assert(w == i);
            }
        },
        None => {
            let base = if s.len() >= MAX_STATUS_ENTRIES {
                lemma_oldest_index_in_range(s);
                s.remove(oldest_index(s))
            } else {
                s
            };
            assert(t == base.push(e));
            assert(t[t.len() - 1] == e);
            if s.len() >= MAX_STATUS_ENTRIES {
                s.remove_ensures(oldest_index(s));
            }
            assert forall|j: int| 0 <= j < base.len() implies (#[trigger] base[j]).key != e.key by {
                if s.len() >= MAX_STATUS_ENTRIES {
                    let o = oldest_index(s);
                    if j < o {
                        assert(base[j] == s[j]);
                    } else {
                        assert(base[j] == s[j + 1]);
                    }
                } else {
                    assert(base[j] == s[j]);
                }
            }
            if e.key == agent_key() {
                let w = choose|w: int| 0 <= w < t.len() && (#[trigger] t[w]).key == agent_key() && status_label(t) == Some(t[w].value)
                    && forall|j: int| w < j < t.len() ==> (#[trigger] t[j]).key != agent_key();
                if w < t.len() - 1 {
                    assert(t[w] == base[w]);
                }
            } else if forall|i: int| 0 <= i < s.len() ==> (#[trigger] s[i]).key != agent_key() {
                assert forall|j: int| 0 <= j < t.len() implies (#[trigger] t[j]).key != agent_key() by {
                    if j < base.len() {
                        assert(t[j] == base[j]);
                        if s.len() >= MAX_STATUS_ENTRIES {
                            let o = oldest_index(s);
                            if j < o {
                                assert(base[j] == s[j]);
                            } else {
                                assert(base[j] == s[j + 1]);
                            }
                        } else {
                            assert(base[j] == s[j]);
                        }
                    }
                }
            }
        },
    }
}

/// The value of the last entry keyed "agent".
pub open spec fn status_label_agent(s: Seq<StatusEntryView>) -> Option<Seq<char>>
    decreases s.len(),
{
    if s.len() == 0 {
        None
    } else if s.last().key == agent_key() {
        Some(s.last().value)
    } else {
        status_label_agent(s.drop_last())
    }
}

impl Workspace {
    /// Display title: custom title if set, otherwise process title.
    pub open spec fn spec_display_title(self) -> Seq<char> {
        match self.custom_title {
            Some(t) => t@,
            None => self.process_title@,
        }
    }

    /// Display title: custom title if set, otherwise process title.
    pub fn display_title(&self) -> (t: &str)
        ensures
            t@ == self.spec_display_title(),
    {
        match &self.custom_title {
            Some(t) => t.as_str(),
            None => self.process_title.as_str(),
        }
    }

    pub fn pane_ids(&self) -> (ids: Vec<Id>)
        ensures
            ids@ == self.layout@.panes(),
    {
        self.layout.all_pane_ids()
    }

    pub fn pane_selected_panel(&self, pane_id: Id) -> (selected: Option<Id>)
        ensures
            selected == self.layout@.selected_of_pane(pane_id),
    {
        self.layout.selected_panel_for_pane(pane_id)
    }

    /// Get a reference to a panel by ID.
    pub fn panel(&self, id: Id) -> (panel: Option<&Panel>)
        ensures
            match panel {
                Some(p) => self.panels@.contains_key(id) && self.panels@[id] == *p,
                None => !self.panels@.contains_key(id),
            },
    {
        self.panels.get(&id)
    }

    /// Get a mutable reference to a panel by ID.
    pub fn panel_mut(&mut self, id: Id) -> (panel: Option<&mut Panel>)
        ensures
            match panel {
                Some(p) => {
                    &&& old(self).panels@.contains_key(id)
                    &&& old(self).panels@[id] == *p
                    &&& final(self).panels@ == old(self).panels@.insert(id, *final(p))
                },
                None => {
                    &&& !old(self).panels@.contains_key(id)
                    &&& final(self).panels@ == old(self).panels@
                },
            },
            final(self).same_frame(*old(self)),
            final(self).summary() == old(self).summary(),
            final(self).focused_pane_id == old(self).focused_pane_id,
    {
        panels_get_mut(&mut self.panels, id)
    }

    /// Get all panel IDs in layout order.
    pub fn panel_ids(&self) -> (ids: Vec<Id>)
        ensures
            ids@ == self.layout@.panels(),
    {
        self.layout.all_panel_ids()
    }

    /// Check if the workspace has no panels.
    pub fn is_empty(&self) -> (empty: bool)
        ensures
            empty == (self.panels@.len() == 0),
    {
        self.panels.is_empty()
    }

    /// Mark all workspace notifications as read.
    pub fn mark_notifications_read(&mut self)
        ensures
            *final(self) == (Workspace { unread_count: 0, ..*old(self) }),
    {
        self.unread_count = 0;
    }

    /// Set the pinned flag; reports whether it changed.
    pub fn set_pinned(&mut self, pinned: bool) -> (changed: bool)
        ensures
            changed == (old(self).is_pinned != pinned),
            *final(self) == (Workspace { is_pinned: pinned, ..*old(self) }),
    {
        if self.is_pinned == pinned {
            return false;
        }
        self.is_pinned = pinned;
        true
    }

    /// The custom title `rename` sets for a title.
    pub open spec fn renamed_title(title: Option<Seq<char>>) -> Option<Seq<char>> {
        match title {
            Some(t) => if trim_chars(t).len() > 0 {
                Some(truncate_chars(trim_chars(t), MAX_CUSTOM_TITLE_LEN as nat))
            } else {
                None
            },
            None => None,
        }
    }

    /// Set the custom title to the trimmed title (cut to 1024 bytes), or
    /// clear it where the title is absent or blank; reports whether it
    /// changed.
    pub fn rename(&mut self, title: Option<&str>) -> (changed: bool)
        ensures
            final(self).custom_title.deep_view() == Self::renamed_title(
                match title {
                    Some(t) => Some(t@),
                    None => None,
                },
            ),
            changed == (old(self).custom_title.deep_view() != final(self).custom_title.deep_view()),
            *final(self) == (Workspace { custom_title: final(self).custom_title, ..*old(self) }),
    {
        let next: Option<String> = match title {
            Some(t) => {
                let trimmed = trim(t);
                if trimmed.unicode_len() == 0 {
                    None
                } else {
                    Some(truncate_str(trimmed, MAX_CUSTOM_TITLE_LEN).to_owned())
                }
            },
            None => None,
        };
        if opt_string_eq(&self.custom_title, &next) {
            return false;
        }
        self.custom_title = next;
        true
    }

    /// Record an attention event from a notification at the time `now`:
    /// one more unread, the summary and time of the latest notification,
    /// and the panel that asked for attention where it is a panel of the
    /// workspace; nothing else changes.
    pub fn record_notification_at(&mut self, title: &str, body: &str, panel_id: Option<Id>, now: Timestamp)
        ensures
            final(self).unread_count == (if old(self).unread_count == u32::MAX {
                u32::MAX as int
            } else {
                old(self).unread_count + 1
            }),
            final(self).latest_notification.deep_view() == Some(
                notification_summary_text(title@, body@),
            ),
            final(self).latest_notification_at == Some(now),
            final(self).attention_panel_id == (if panel_id is Some && old(
                self,
            ).panels@.contains_key(panel_id->0) {
                panel_id
            } else {
                None
            }),
            *final(self) == (Workspace {
                unread_count: final(self).unread_count,
                latest_notification: final(self).latest_notification,
                latest_notification_at: final(self).latest_notification_at,
                attention_panel_id: final(self).attention_panel_id,
                ..*old(self)
            }),
    {
        self.unread_count = self.unread_count.saturating_add(1);
        self.latest_notification = Some(notification_summary(title, body));
        self.latest_notification_at = Some(now);
        self.attention_panel_id = match panel_id {
            Some(id) => if self.panels.contains_key(&id) {
                Some(id)
            } else {
                None
            },
            None => None,
        };
    }

    /// Record an attention event from a notification now (see
    /// `record_notification_at`; the time is the clock's).
    pub fn record_notification(&mut self, title: &str, body: &str, panel_id: Option<Id>)
        ensures
            final(self).unread_count == (if old(self).unread_count == u32::MAX {
                u32::MAX as int
            } else {
                old(self).unread_count + 1
            }),
            final(self).latest_notification.deep_view() == Some(
                notification_summary_text(title@, body@),
            ),
            final(self).latest_notification_at is Some,
            final(self).attention_panel_id == (if panel_id is Some && old(
                self,
            ).panels@.contains_key(panel_id->0) {
                panel_id
            } else {
                None
            }),
            *final(self) == (Workspace {
                unread_count: final(self).unread_count,
                latest_notification: final(self).latest_notification,
                latest_notification_at: final(self).latest_notification_at,
                attention_panel_id: final(self).attention_panel_id,
                ..*old(self)
            }),
    {
        let now = now_micros();
        self.record_notification_at(title, body, panel_id, now);
    }

    /// Most relevant status label for the sidebar: the value of the last
    /// entry keyed "agent", else of the last entry.
    pub fn sidebar_status_label(&self) -> (label: Option<&str>)
        ensures
            match label {
                Some(l) => status_label(self.status_entries.deep_view()) == Some(l@),
                None => status_label(self.status_entries.deep_view()) is None,
            },
    {
        let ghost s = self.status_entries.deep_view();
        let agent = "agent";
        proof {
            reveal_strlit("agent");
            assert(agent@ =~= agent_key());
        }
        let n = self.status_entries.len();
        if n == 0 {
            return None;
        }
        let mut i: usize = n;
        proof {
            assert(s.subrange(0, n as int) =~= s);
        }
        while i > 0
            invariant
                s == self.status_entries.deep_view(),
                n == s.len(),
                n > 0,
                i <= n,
                agent@ == agent_key(),
                status_label(s) == (match status_label_agent(s.subrange(0, i as int)) {
                    Some(v) => Some(v),
                    None => Some(s.last().value),
                }),
            decreases i,
        {
            proof {
                assert(s.subrange(0, i as int).drop_last() =~= s.subrange(0, i - 1));
                assert(s.subrange(0, i as int).last() == s[i - 1]);
            }
            if crate::panel::str_eq(self.status_entries[i - 1].key.as_str(), agent) {
                return Some(self.status_entries[i - 1].value.as_str());
            }
            i = i - 1;
        }
        Some(self.status_entries[n - 1].value.as_str())
    }
}


/// The first entry keyed `key` stays the first one keyed so in any longer
/// list.
pub proof fn lemma_status_index_prefix(s: Seq<StatusEntryView>, key: Seq<char>, j: int)
    requires
        0 <= j <= s.len(),
        status_index(s.take(j), key) is Some,
    ensures
        status_index(s, key) == status_index(s.take(j), key),
    decreases s.len() - j,
{
    if j < s.len() {
        assert(s.take(j + 1).drop_last() =~= s.take(j));
        lemma_status_index_prefix(s, key, j + 1);
    } else {
        assert(s.take(j) =~= s);
    }
}

/// The entry a status report records.
pub open spec fn status_entry(
    key: Seq<char>,
    value: Seq<char>,
    icon: Option<Seq<char>>,
    color: Option<Seq<char>>,
    now: Timestamp,
) -> StatusEntryView {
    StatusEntryView {
        key: truncate_chars(key, MAX_STATUS_KEY_LEN as nat),
        value: truncate_chars(value, MAX_STATUS_VALUE_LEN as nat),
        icon: opt_truncated(icon, 256),
        color: opt_truncated(color, 64),
        timestamp: now,
    }
}

/// The entry a log report records.
pub open spec fn log_entry(
    message: Seq<char>,
    level: Seq<char>,
    source: Option<Seq<char>>,
    now: Timestamp,
) -> LogEntryView {
    LogEntryView {
        message: truncate_chars(message, MAX_LOG_MESSAGE_LEN as nat),
        level: truncate_chars(level, 64),
        source: opt_truncated(source, 256),
        timestamp: now,
    }
}

impl Workspace {
    /// Every field but the status and log entries is as in `old`.
    pub open spec fn same_but_entries(self, old: Self) -> bool {
        &&& self.id == old.id
        &&& self.custom_title == old.custom_title
        &&& self.custom_color == old.custom_color
        &&& self.is_pinned == old.is_pinned
        &&& self.home_directory == old.home_directory
        &&& self.focused_panel_id == old.focused_panel_id
        &&& self.focused_pane_id == old.focused_pane_id
        &&& self.layout == old.layout
        &&& self.panels == old.panels
        &&& self.progress == old.progress
        &&& self.unread_count == old.unread_count
        &&& self.latest_notification == old.latest_notification
        &&& self.latest_notification_at == old.latest_notification_at
        &&& self.attention_panel_id == old.attention_panel_id
        &&& self.summary() == old.summary()
    }

    /// The index of the first status entry keyed `key`, if any.
    fn find_status(&self, key: &str) -> (found: Option<usize>)
        ensures
            match found {
                Some(i) => status_index(self.status_entries.deep_view(), key@) == Some(i as int)
                    && i < self.status_entries@.len(),
                None => status_index(self.status_entries.deep_view(), key@) is None,
            },
    {
        let ghost s = self.status_entries.deep_view();
        let mut i: usize = 0;
        while i < self.status_entries.len()
            invariant
                s == self.status_entries.deep_view(),
                i <= s.len(),
                status_index(s.take(i as int), key@) is None,
            decreases self.status_entries.len() - i,
        {
            proof {
                assert(s.take(i + 1).drop_last() =~= s.take(i as int));
                assert(s.take(i + 1).last() == s[i as int]);
            }
            if crate::panel::str_eq(self.status_entries[i].key.as_str(), key) {
                proof {
                    lemma_status_index_prefix(s, key@, i + 1);
                }
                return Some(i);
            }
            i = i + 1;
        }
        proof {
            assert(s.take(s.len() as int) =~= s);
        }
        None
    }

    /// The index of the first status entry with the least timestamp.
    fn oldest_status(&self) -> (idx: usize)
        requires
            self.status_entries@.len() > 0,
        ensures
            idx == oldest_index(self.status_entries.deep_view()),
            idx < self.status_entries@.len(),
    {
        let ghost s = self.status_entries.deep_view();
        let mut best: usize = 0;
        let mut i: usize = 1;
        proof {
            assert(s.take(1).len() == 1);
        }
        while i < self.status_entries.len()
            invariant
                s == self.status_entries.deep_view(),
                1 <= i <= s.len(),
                best < i,
                best == oldest_index(s.take(i as int)),
            decreases self.status_entries.len() - i,
        {
            proof {
                assert(s.take(i + 1).drop_last() =~= s.take(i as int));
                assert(s.take(i + 1)[best as int] == s[best as int]);
            }
            if self.status_entries[i].timestamp < self.status_entries[best].timestamp {
                best = i;
            }
            i = i + 1;
        }
        proof {
            assert(s.take(s.len() as int) =~= s);
        }
        best
    }

    /// Update the status entry for a key at the time `now`, creating it if
    /// it doesn't exist (see `status_after`); key, value, icon and color
    /// are cut to 256, 4096, 256 and 64 bytes.
    pub fn set_status_at(
        &mut self,
        key: &str,
        value: &str,
        icon: Option<&str>,
        color: Option<&str>,
        now: Timestamp,
    )
        ensures
            final(self).status_entries.deep_view() == status_after(
                old(self).status_entries.deep_view(),
                status_entry(key@, value@, opt_view(icon), opt_view(color), now),
            ),
            final(self).log_entries == old(self).log_entries,
            final(self).same_but_entries(*old(self)),
    {
        let key = truncate_str(key, MAX_STATUS_KEY_LEN);
        let entry = StatusEntry {
            key: key.to_owned(),
            value: truncate_str(value, MAX_STATUS_VALUE_LEN).to_owned(),
            icon: opt_truncate(icon, 256),
            color: opt_truncate(color, 64),
            timestamp: now,
        };
        let ghost e = entry@;
        let ghost s = self.status_entries.deep_view();
        match self.find_status(key) {
            Some(i) => {
                self.status_entries.set(i, entry);
                proof {
                    assert(self.status_entries.deep_view() =~= s.update(i as int, e));
                }
            },
            None => {
                if self.status_entries.len() >= MAX_STATUS_ENTRIES {
                    let idx = self.oldest_status();
                    self.status_entries.remove(idx);
                    proof {
                        assert(self.status_entries.deep_view() =~= s.remove(idx as int));
                    }
                }
                let ghost mid = self.status_entries.deep_view();
                self.status_entries.push(entry);
                proof {
                    assert(self.status_entries.deep_view() =~= mid.push(e));
                }
            },
        }
    }

    /// Update the status entry for a key at the current time, creating it
    /// if it doesn't exist (see `set_status_at`).
    pub fn set_status(&mut self, key: &str, value: &str, icon: Option<&str>, color: Option<&str>)
        ensures
            exists|now: Timestamp|
                final(self).status_entries.deep_view() == status_after(
                    old(self).status_entries.deep_view(),
                    #[trigger] status_entry(key@, value@, opt_view(icon), opt_view(color), now),
                ),
            final(self).log_entries == old(self).log_entries,
            final(self).same_but_entries(*old(self)),
    {
        let now = now_micros();
        self.set_status_at(key, value, icon, color, now);
    }

    /// Append a log entry at the time `now`; where the log is full, its
    /// oldest quarter goes first (see `log_after`). Message, level and
    /// source are cut to 8192, 64 and 256 bytes.
    pub fn append_log_at(&mut self, message: &str, level: &str, source: Option<&str>, now: Timestamp)
        ensures
            final(self).log_entries.deep_view() == log_after(
                old(self).log_entries.deep_view(),
                log_entry(message@, level@, opt_view(source), now),
            ),
            final(self).status_entries == old(self).status_entries,
            final(self).same_but_entries(*old(self)),
    {
        let entry = LogEntry {
            message: truncate_str(message, MAX_LOG_MESSAGE_LEN).to_owned(),
            level: truncate_str(level, 64).to_owned(),
            source: opt_truncate(source, 256),
            timestamp: now,
        };
        let ghost e = entry@;
        let ghost s = self.log_entries.deep_view();
        if self.log_entries.len() >= MAX_LOG_ENTRIES {
            let quarter = self.log_entries.len() / 4;
            let rest = self.log_entries.split_off(quarter);
            self.log_entries = rest;
            proof {
                assert(self.log_entries.deep_view() =~= s.skip(quarter as int));
            }
        }
        let ghost mid = self.log_entries.deep_view();
        self.log_entries.push(entry);
        proof {
            assert(self.log_entries.deep_view() =~= mid.push(e));
        }
    }

    /// Append a log entry at the current time (see `append_log_at`).
    pub fn append_log(&mut self, message: &str, level: &str, source: Option<&str>)
        ensures
            exists|now: Timestamp|
                final(self).log_entries.deep_view() == log_after(
                    old(self).log_entries.deep_view(),
                    #[trigger] log_entry(message@, level@, opt_view(source), now),
                ),
            final(self).status_entries == old(self).status_entries,
            final(self).same_but_entries(*old(self)),
    {
        let now = now_micros();
        self.append_log_at(message, level, source, now);
    }
}

} // verus!

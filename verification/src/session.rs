//! Saving and restoring a session: snapshots of a window's workspaces, and
//! the repair of a restored workspace whose layout and panels disagree.

use vstd::prelude::*;

use std::collections::HashMap;
use vstd::string::StrSliceExecFns;

use crate::ids::Id;
use crate::layout::{first_of, LayoutNode, LayoutView};
use crate::text::{chars_of, string_from_chars};
use crate::panel::{
    blank_panel, blocks_copy, items_copy, opt_git_copy, opt_pr_copy, opt_shell_copy, opt_string_copy,
    ports_copy, GitBranch, MetadataBlock, MetadataItem, Panel, PullRequestMetadata, ShellState,
    Timestamp,
};
use crate::tab_manager::{index_of_id, initial_selection, lemma_index_of_id_found, TabManager};
use crate::workspace::{
    log_entries_copy, opt_progress_copy, status_entries_copy, LogEntry, Progress, StatusEntry,
    Workspace,
};

verus! {

broadcast use {vstd::std_specs::hash::group_hash_axioms, vstd::string::group_string_axioms};

/// The version of the snapshot format that this library writes and reads.
pub const SESSION_VERSION: u32 = 1u32;

/// What is saved of a workspace.
#[derive(Debug)]
pub struct WorkspaceSnapshot {
    pub id: Id,
    pub process_title: String,
    pub custom_title: Option<String>,
    pub custom_color: Option<String>,
    pub is_pinned: bool,
    pub current_directory: String,
    pub focused_pane_id: Option<Id>,
    pub focused_panel_id: Option<Id>,
    pub layout: LayoutNode,
    pub panels: HashMap<Id, Panel>,
    pub status_entries: Vec<StatusEntry>,
    pub log_entries: Vec<LogEntry>,
    pub progress: Option<Progress>,
    pub git_branch: Option<GitBranch>,
    pub shell_state: Option<ShellState>,
    pub listening_ports: Vec<u16>,
    pub tty_name: Option<String>,
    pub pr_metadata: Option<PullRequestMetadata>,
    pub metadata_items: Vec<MetadataItem>,
    pub metadata_blocks: Vec<MetadataBlock>,
    pub unread_count: u32,
    pub latest_notification: Option<String>,
    pub latest_notification_at: Option<Timestamp>,
    pub attention_panel_id: Option<Id>,
}

/// What is saved of a window: its workspaces in tab order and which one
/// is selected.
#[derive(Debug)]
pub struct SessionSnapshotV1 {
    pub version: u32,
    pub selected_workspace_id: Option<Id>,
    pub workspaces: Vec<WorkspaceSnapshot>,
}

/// Every panel that the layout shows has a panel record, and the layout
/// shows at least one.
pub open spec fn layout_complete(layout: LayoutView, panels: Map<Id, Panel>) -> bool {
    &&& layout.panels().len() > 0
    &&& forall|i: int| 0 <= i < layout.panels().len() ==> panels.contains_key(#[trigger] layout.panels()[i])
}

/// The panel a restored workspace focuses: the saved one where it still
/// has a record, else the first panel of the layout.
pub open spec fn focus_choice(focused: Option<Id>, panels: Map<Id, Panel>, layout: LayoutView) -> Option<Id> {
    match focused {
        Some(p) => if panels.contains_key(p) {
            Some(p)
        } else {
            first_of(layout.panels())
        },
        None => first_of(layout.panels()),
    }
}

/// The pane a restored workspace focuses: the one holding the focused
/// panel, else the first pane of the layout.
pub open spec fn pane_choice(layout: LayoutView, panel: Option<Id>) -> Option<Id> {
    match panel {
        Some(p) => match layout.pane_id_with_panel(p) {
            Some(q) => Some(q),
            None => first_of(layout.panes()),
        },
        None => first_of(layout.panes()),
    }
}

/// The layout with the focused panel selected in its pane, where a pane
/// holds it.
pub open spec fn focused_layout(layout: LayoutView, panel: Option<Id>) -> LayoutView {
    match panel {
        Some(p) => if layout.panels().contains(p) {
            layout.with_panel_selected(p)
        } else {
            layout
        },
        None => layout,
    }
}

impl Workspace {
    /// `self` has the layout, panels and focus that repairing a workspace
    /// with the given layout, panels and focused panel gives, and shows
    /// what they call for.
    ///
    /// Where the layout is complete it stays, with the panels as they
    /// were. Else it becomes a single pane holding one panel: one of the
    /// recorded panels where there are any, else a new blank panel, the
    /// only one. The focused panel is then the saved one where it has a
    /// record, else the layout's first; it is selected in its pane, and
    /// the focused pane is the one holding it, else the first pane.
    pub open spec fn repaired(self, layout: LayoutView, panels: Map<Id, Panel>, focused: Option<Id>) -> bool {
        let complete = layout_complete(layout, panels);
        let base = if complete {
            layout
        } else {
            self.layout@
        };
        &&& complete ==> self.panels@ == panels
        &&& !complete ==> {
            &&& self.layout@ is Pane
            &&& self.layout@->pane.panel_ids.len() == 1
            &&& self.layout@->pane.selected_panel_id == Some(self.layout@->pane.panel_ids[0])
            &&& self.panels@.contains_key(self.layout@->pane.panel_ids[0])
            &&& panels.dom().len() > 0 ==> self.panels@ == panels
            &&& panels.dom().len() == 0 ==> {
                &&& self.panels@.dom() == set![self.layout@->pane.panel_ids[0]]
                &&& self.panel_view(self.layout@->pane.panel_ids[0]) == blank_panel(self.layout@->pane.panel_ids[0], None)
            }
        }
        &&& self.focused_panel_id == focus_choice(focused, self.panels@, base)
        &&& self.layout@ == focused_layout(base, self.focused_panel_id)
        &&& self.focused_pane_id == pane_choice(base, self.focused_panel_id)
        &&& self.synced()
    }

    /// Every field of `self` holds what it holds in `other`, each taken by
    /// its value.
    pub open spec fn same_content(self, other: Workspace) -> bool {
        &&& self.id == other.id
        &&& self.custom_title.deep_view() == other.custom_title.deep_view()
        &&& self.custom_color.deep_view() == other.custom_color.deep_view()
        &&& self.is_pinned == other.is_pinned
        &&& self.home_directory@ == other.home_directory@
        &&& self.focused_pane_id == other.focused_pane_id
        &&& self.focused_panel_id == other.focused_panel_id
        &&& self.layout@ == other.layout@
        &&& self.panels@ == other.panels@
        &&& self.status_entries.deep_view() == other.status_entries.deep_view()
        &&& self.log_entries.deep_view() == other.log_entries.deep_view()
        &&& self.progress.deep_view() == other.progress.deep_view()
        &&& self.summary() == other.summary()
        &&& self.unread_count == other.unread_count
        &&& self.latest_notification.deep_view() == other.latest_notification.deep_view()
        &&& self.latest_notification_at == other.latest_notification_at
        &&& self.attention_panel_id == other.attention_panel_id
    }
}

/// A key of the panel map, the first that walking it gives; `None` where
/// the map is empty. Which key comes first rests on the map's hashing.
fn some_panel_id(panels: &HashMap<Id, Panel>) -> (k: Option<Id>)
    ensures
        match k {
            Some(id) => panels@.contains_key(id),
            None => panels@.dom().len() == 0,
        },
{
    let mut found: Option<Id> = None;
    for id in it: panels.keys()
        invariant
            it.seq().unref().to_set() == panels@.dom(),
            it.seq().len() == panels@.dom().len(),
            found is None <==> it.index() == 0,
            found matches Some(k) ==> panels@.contains_key(k),
    {
        if found.is_none() {
            proof {
                assert(it.seq().unref()[0] == *id);
                assert(it.seq().unref().to_set().contains(*id));
            }
            found = Some(*id);
        }
    }
    found
}

/// Whether every panel of the list has a record, and the list is not empty.
fn all_recorded(ids: &Vec<Id>, panels: &HashMap<Id, Panel>) -> (complete: bool)
    ensures
        complete == (ids@.len() > 0 && forall|i: int| 0 <= i < ids@.len() ==> panels@.contains_key(#[trigger] ids@[i])),
{
    if ids.len() == 0 {
        return false;
    }
    let mut i: usize = 0;
    while i < ids.len()
        invariant
            i <= ids@.len(),
            forall|j: int| 0 <= j < i ==> panels@.contains_key(#[trigger] ids@[j]),
        decreases ids.len() - i,
    {
        if !panels.contains_key(&ids[i]) {
            return false;
        }
        i = i + 1;
    }
    true
}

/// Selecting a panel keeps which pane holds each panel, the panels and
/// the panes.
pub proof fn lemma_select_keeps_places(t: LayoutView, p: Id, q: Id)
    ensures
        t.with_panel_selected(p).pane_id_with_panel(q) == t.pane_id_with_panel(q),
        t.with_panel_selected(p).panels() == t.panels(),
        t.with_panel_selected(p).panes() == t.panes(),
    decreases t,
{
    match t {
        LayoutView::Pane { .. } => {},
        LayoutView::Split { first, second, .. } => {
            lemma_select_keeps_places(*first, p, q);
            lemma_select_keeps_places(*second, p, q);
        },
    }
}

/// The pane found holding a panel is one of the layout's panes.
pub proof fn lemma_holder_is_a_pane(t: LayoutView, p: Id)
    ensures
        t.pane_id_with_panel(p) matches Some(q) ==> t.panes().contains(q),
    decreases t,
{
    match t {
        LayoutView::Pane { pane } => {
            if t.pane_id_with_panel(p) is Some {
                assert(t.panes()[0] == pane.id);
            }
        },
        LayoutView::Split { first, second, .. } => {
            lemma_holder_is_a_pane(*first, p);
            lemma_holder_is_a_pane(*second, p);
            if let Some(q) = first.pane_id_with_panel(p) {
                let k = choose|k: int| 0 <= k < first.panes().len() && first.panes()[k] == q;
                assert((first.panes() + second.panes())[k] == q);
            } else if let Some(q) = second.pane_id_with_panel(p) {
                let k = choose|k: int| 0 <= k < second.panes().len() && second.panes()[k] == q;
                assert((first.panes() + second.panes())[first.panes().len() + k] == q);
            }
        },
    }
}

/// A repaired workspace is sound: its layout shows at least one panel and
/// each panel it shows has a record; no record is lost; the focused panel
/// has a record and is the saved one where that had a record; the focused
/// pane is a pane of the layout; and a layout that was already complete
/// shows the same panels as before.
pub proof fn lemma_repaired_is_sound(w: Workspace, layout: LayoutView, panels: Map<Id, Panel>, focused: Option<Id>)
    requires
        panels.dom().finite(),
        w.repaired(layout, panels, focused),
    ensures
        layout_complete(w.layout@, w.panels@),
        panels.dom().subset_of(w.panels@.dom()),
        w.focused_panel_id matches Some(f) && w.panels@.contains_key(f),
        (focused matches Some(f) && panels.contains_key(f)) ==> w.focused_panel_id == focused,
        w.focused_pane_id matches Some(q) && w.layout@.panes().contains(q),
        layout_complete(layout, panels) ==> w.layout@.panels() == layout.panels(),
{
    let complete = layout_complete(layout, panels);
    let base = if complete { layout } else { w.layout@ };
    if !complete {
        let p0 = w.layout@->pane.panel_ids[0];
        assert(w.layout@.panels() =~= seq![p0]);
    }
    assert(layout_complete(base, w.panels@));
    lemma_select_keeps_places(base, w.focused_panel_id->0, w.focused_panel_id->0);
    assert(w.layout@.panels() == base.panels());
    assert(w.layout@.panes() == base.panes());
    assert(base.panels()[0] == base.panels()[0]);
    assert(w.focused_panel_id matches Some(f) && w.panels@.contains_key(f));
    crate::layout::lemma_panes_nonempty(base);
    lemma_holder_is_a_pane(base, w.focused_panel_id->0);
    assert(base.panes()[0] == base.panes()[0]);
    if !complete && panels.dom().len() == 0 {
        assert(panels.dom() =~= Set::empty()) by {
            vstd::set_lib::lemma_set_empty_equivalency_len(panels.dom());
        }
    }
}

/// A pane holds the panel exactly where the layout shows it.
pub proof fn lemma_pane_holds_shown(t: LayoutView, p: Id)
    ensures
        (t.pane_id_with_panel(p) is Some) == t.panels().contains(p),
    decreases t,
{
    match t {
        LayoutView::Pane { .. } => {},
        LayoutView::Split { first, second, .. } => {
            lemma_pane_holds_shown(*first, p);
            lemma_pane_holds_shown(*second, p);
            crate::layout::lemma_contains_concat(first.panels(), second.panels(), p);
            if second.panels().contains(p) {
                let k = choose|k: int| 0 <= k < second.panels().len() && second.panels()[k] == p;
                assert((first.panels() + second.panels())[first.panels().len() + k] == p);
            }
            if first.panels().contains(p) {
                let k = choose|k: int| 0 <= k < first.panels().len() && first.panels()[k] == p;
                assert((first.panels() + second.panels())[k] == p);
            }
        },
    }
}

/// Repair a restored workspace whose layout and panels disagree (see
/// `Workspace::repaired`); every other field stays.
pub fn sanitize_workspace(ws: &mut Workspace)
    ensures
        final(ws).same_record(*old(ws)),
        final(ws).repaired(old(ws).layout@, old(ws).panels@, old(ws).focused_panel_id),
{
    let layout_panel_ids = ws.layout.all_panel_ids();
    let complete = all_recorded(&layout_panel_ids, &ws.panels);
    if !complete {
        let panel_id = match some_panel_id(&ws.panels) {
            Some(id) => id,
            None => {
                let panel = Panel::new();
                let id = panel.id;
                ws.panels.insert(id, panel);
                proof {
                    assert(ws.panels@.dom() =~= set![id]);
                }
                id
            },
        };
        ws.layout = LayoutNode::single_pane(panel_id);
    }
    let ghost base = ws.layout@;
    let focused = match ws.focused_panel_id {
        Some(p) => if ws.panels.contains_key(&p) {
            Some(p)
        } else {
            let ids = ws.layout.all_panel_ids();
            if ids.len() > 0 { Some(ids[0]) } else { None }
        },
        None => {
            let ids = ws.layout.all_panel_ids();
            if ids.len() > 0 { Some(ids[0]) } else { None }
        },
    };
    ws.focused_panel_id = focused;
    let pane = match focused {
        Some(p) => match ws.layout.find_pane_id_with_panel(p) {
            Some(q) => Some(q),
            None => {
                let panes = ws.layout.all_pane_ids();
                if panes.len() > 0 { Some(panes[0]) } else { None }
            },
        },
        None => {
            let panes = ws.layout.all_pane_ids();
            if panes.len() > 0 { Some(panes[0]) } else { None }
        },
    };
    ws.focused_pane_id = pane;
    if let Some(p) = focused {
        proof {
            lemma_pane_holds_shown(base, p);
            lemma_select_keeps_places(base, p, p);
        }
        let _ = ws.focus_panel(p);
    }
    let _ = ws.recompute_workspace_metadata();
}

impl WorkspaceSnapshot {
    /// `self` records every field of the workspace but its home directory.
    pub open spec fn records(self, ws: Workspace) -> bool {
        &&& self.id == ws.id
        &&& self.process_title@ == ws.process_title@
        &&& self.custom_title.deep_view() == ws.custom_title.deep_view()
        &&& self.custom_color.deep_view() == ws.custom_color.deep_view()
        &&& self.is_pinned == ws.is_pinned
        &&& self.current_directory@ == ws.current_directory@
        &&& self.focused_pane_id == ws.focused_pane_id
        &&& self.focused_panel_id == ws.focused_panel_id
        &&& self.layout@ == ws.layout@
        &&& self.panels@ == ws.panels@
        &&& self.status_entries.deep_view() == ws.status_entries.deep_view()
        &&& self.log_entries.deep_view() == ws.log_entries.deep_view()
        &&& self.progress.deep_view() == ws.progress.deep_view()
        &&& self.git_branch.deep_view() == ws.git_branch.deep_view()
        &&& self.shell_state.deep_view() == ws.shell_state.deep_view()
        &&& self.listening_ports@ == ws.listening_ports@
        &&& self.tty_name.deep_view() == ws.tty_name.deep_view()
        &&& self.pr_metadata.deep_view() == ws.pr_metadata.deep_view()
        &&& self.metadata_items.deep_view() == ws.metadata_items.deep_view()
        &&& self.metadata_blocks.deep_view() == ws.metadata_blocks.deep_view()
        &&& self.unread_count == ws.unread_count
        &&& self.latest_notification.deep_view() == ws.latest_notification.deep_view()
        &&& self.latest_notification_at == ws.latest_notification_at
        &&& self.attention_panel_id == ws.attention_panel_id
    }

    /// The snapshot of a workspace.
    pub fn from_workspace(ws: &Workspace) -> (s: Self)
        ensures
            s.records(*ws),
    {
        WorkspaceSnapshot {
            id: ws.id,
            process_title: ws.process_title.clone(),
            custom_title: opt_string_copy(&ws.custom_title),
            custom_color: opt_string_copy(&ws.custom_color),
            is_pinned: ws.is_pinned,
            current_directory: ws.current_directory.clone(),
            focused_pane_id: ws.focused_pane_id,
            focused_panel_id: ws.focused_panel_id,
            layout: ws.layout.copy(),
            panels: ws.panels.clone(),
            status_entries: status_entries_copy(&ws.status_entries),
            log_entries: log_entries_copy(&ws.log_entries),
            progress: opt_progress_copy(&ws.progress),
            git_branch: opt_git_copy(&ws.git_branch),
            shell_state: opt_shell_copy(&ws.shell_state),
            listening_ports: ports_copy(&ws.listening_ports),
            tty_name: opt_string_copy(&ws.tty_name),
            pr_metadata: opt_pr_copy(&ws.pr_metadata),
            metadata_items: items_copy(&ws.metadata_items),
            metadata_blocks: blocks_copy(&ws.metadata_blocks),
            unread_count: ws.unread_count,
            latest_notification: opt_string_copy(&ws.latest_notification),
            latest_notification_at: ws.latest_notification_at,
            attention_panel_id: ws.attention_panel_id,
        }
    }
}

impl Workspace {
    /// `self` is the workspace restored from the snapshot with the given
    /// home directory: the record fields are the snapshot's, the layout,
    /// panels and focus are the snapshot's repaired, and the shown
    /// metadata is recomputed from them.
    pub open spec fn restored_from(self, s: WorkspaceSnapshot, home: Seq<char>) -> bool {
        &&& self.id == s.id
        &&& self.custom_title == s.custom_title
        &&& self.custom_color == s.custom_color
        &&& self.is_pinned == s.is_pinned
        &&& self.home_directory@ == home
        &&& self.status_entries == s.status_entries
        &&& self.log_entries == s.log_entries
        &&& self.progress == s.progress
        &&& self.unread_count == s.unread_count
        &&& self.latest_notification == s.latest_notification
        &&& self.latest_notification_at == s.latest_notification_at
        &&& self.attention_panel_id == s.attention_panel_id
        &&& self.repaired(s.layout@, s.panels@, s.focused_panel_id)
    }
}

impl WorkspaceSnapshot {
    /// The workspace the snapshot restores, with `home` as the directory
    /// that stands for it where no panel reports one (see
    /// `Workspace::restored_from`).
    pub fn into_workspace(self, home: &str) -> (ws: Workspace)
        ensures
            ws.restored_from(self, home@),
    {
        let mut ws = Workspace {
            id: self.id,
            process_title: self.process_title,
            custom_title: self.custom_title,
            custom_color: self.custom_color,
            is_pinned: self.is_pinned,
            current_directory: self.current_directory,
            home_directory: home.to_owned(),
            focused_pane_id: self.focused_pane_id,
            focused_panel_id: self.focused_panel_id,
            layout: self.layout,
            panels: self.panels,
            status_entries: self.status_entries,
            log_entries: self.log_entries,
            progress: self.progress,
            git_branch: self.git_branch,
            shell_state: self.shell_state,
            listening_ports: self.listening_ports,
            tty_name: self.tty_name,
            pr_metadata: self.pr_metadata,
            metadata_items: self.metadata_items,
            metadata_blocks: self.metadata_blocks,
            unread_count: self.unread_count,
            latest_notification: self.latest_notification,
            latest_notification_at: self.latest_notification_at,
            attention_panel_id: self.attention_panel_id,
        };
        sanitize_workspace(&mut ws);
        ws
    }
}

impl SessionSnapshotV1 {
    /// `self` is the snapshot of the window: of this version, with the id
    /// of its selected workspace, and a record of each workspace in order.
    pub open spec fn captures(self, tm: TabManager) -> bool {
        &&& self.version == SESSION_VERSION
        &&& self.selected_workspace_id == match tm.selection() {
            Some(i) => Some(tm.workspaces@[i].id),
            None => None,
        }
        &&& self.workspaces@.len() == tm.workspaces@.len()
        &&& forall|i: int| 0 <= i < self.workspaces@.len() ==> (#[trigger] self.workspaces@[i]).records(tm.workspaces@[i])
    }

    /// `tm` is what restoring `self` gives: nothing where the snapshot is
    /// of another version; else the workspaces restored in order, selecting
    /// the first of the saved selected id, else the first.
    pub open spec fn restores(self, tm: Option<TabManager>, home: Seq<char>) -> bool {
        &&& tm is None <==> self.version != SESSION_VERSION
        &&& tm matches Some(t) ==> {
            &&& t.workspaces@.len() == self.workspaces@.len()
            &&& forall|i: int| 0 <= i < t.workspaces@.len() ==> (#[trigger] t.workspaces@[i]).restored_from(self.workspaces@[i], home)
            &&& t.selection() == initial_selection(t.workspaces@, self.selected_workspace_id)
        }
    }
}

/// The snapshot of a window's workspaces, in tab order, and of which one
/// is selected.
pub fn capture_snapshot(tab_manager: &TabManager) -> (s: SessionSnapshotV1)
    ensures
        s.captures(*tab_manager),
{
    let mut workspaces: Vec<WorkspaceSnapshot> = Vec::new();
    let mut i: usize = 0;
    while i < tab_manager.workspaces.len()
        invariant
            i <= tab_manager.workspaces@.len(),
            workspaces@.len() == i,
            forall|j: int| 0 <= j < i ==> (#[trigger] workspaces@[j]).records(tab_manager.workspaces@[j]),
        decreases tab_manager.workspaces.len() - i,
    {
        workspaces.push(WorkspaceSnapshot::from_workspace(&tab_manager.workspaces[i]));
        i = i + 1;
    }
    SessionSnapshotV1 {
        version: SESSION_VERSION,
        selected_workspace_id: tab_manager.selected_id(),
        workspaces,
    }
}

/// The workspaces restored from the snapshots, in their order.
fn restore_workspaces(snapshots: Vec<WorkspaceSnapshot>, home: &str) -> (ws: Vec<Workspace>)
    ensures
        ws@.len() == snapshots@.len(),
        forall|i: int| 0 <= i < ws@.len() ==> (#[trigger] ws@[i]).restored_from(snapshots@[i], home@),
{
    let ghost all = snapshots@;
    let mut rest = snapshots;
    let mut ws: Vec<Workspace> = Vec::new();
    while rest.len() > 0
        invariant
            ws@.len() + rest@.len() == all.len(),
            rest@ == all.subrange(ws@.len() as int, all.len() as int),
            forall|i: int| 0 <= i < ws@.len() ==> (#[trigger] ws@[i]).restored_from(all[i], home@),
        decreases rest@.len(),
    {
        let s = rest.remove(0);
        proof {
            assert(s == all[ws@.len() as int]);
        }
        ws.push(s.into_workspace(home));
        proof {
            assert(rest@ =~= all.subrange(ws@.len() as int, all.len() as int));
        }
    }
    ws
}

/// The window that a snapshot restores, with `home` as the directory that
/// stands for each workspace where no panel reports one. `None` where the
/// snapshot is of another version; else its workspaces restored in order
/// (see `Workspace::restored_from`), selecting the first of the saved
/// selected id, else the first.
pub fn tab_manager_from_snapshot(snapshot: SessionSnapshotV1, home: &str) -> (tm: Option<TabManager>)
    ensures
        snapshot.restores(tm, home@),
{
    if snapshot.version != SESSION_VERSION {
        return None;
    }
    let workspaces = restore_workspaces(snapshot.workspaces, home);
    Some(TabManager::from_workspaces(workspaces, snapshot.selected_workspace_id))
}

/// The window restored from the snapshot file, given what reading and
/// parsing the file gave: its error passes through; a snapshot restores
/// as `tab_manager_from_snapshot` says.
pub fn load_tab_manager_from_path(loaded: Result<SessionSnapshotV1, String>, home: &str) -> (r: Result<Option<TabManager>, String>)
    ensures
        match loaded {
            Err(e) => r == Err::<Option<TabManager>, String>(e),
            Ok(s) => r matches Ok(tm) && s.restores(tm, home@),
        },
{
    match loaded {
        Err(e) => Err(e),
        Ok(s) => Ok(tab_manager_from_snapshot(s, home)),
    }
}

/// The window restored from the snapshot file, where reading, parsing and
/// restoring all succeed; `None` on any failure.
pub fn load_tab_manager(loaded: Result<SessionSnapshotV1, String>, home: &str) -> (tm: Option<TabManager>)
    ensures
        match loaded {
            Err(_) => tm is None,
            Ok(s) => s.restores(tm, home@),
        },
{
    match load_tab_manager_from_path(loaded, home) {
        Ok(tm) => tm,
        Err(_) => None,
    }
}

/// The path `rest` below the directory `base`: `rest` itself where `base`
/// is empty, else the two with one separator between them.
pub open spec fn joined_path(base: Seq<char>, rest: Seq<char>) -> Seq<char> {
    if base.len() == 0 {
        rest
    } else if base.last() == '/' {
        base + rest
    } else {
        base + seq!['/'] + rest
    }
}

/// Where the session is saved: below `$XDG_STATE_HOME` where that is an
/// absolute path, else below the home directory's `.local/state` (below
/// `/tmp` where the home directory is unknown).
pub open spec fn session_path(state_home: Option<Seq<char>>, home: Option<Seq<char>>) -> Seq<char> {
    match state_home {
        Some(dir) => if dir.len() > 0 && dir[0] == '/' {
            joined_path(dir, "cmux/session-v1.json"@)
        } else {
            joined_path(
                match home {
                    Some(h) => h,
                    None => "/tmp"@,
                },
                ".local/state/cmux/session-v1.json"@,
            )
        },
        None => joined_path(
            match home {
                Some(h) => h,
                None => "/tmp"@,
            },
            ".local/state/cmux/session-v1.json"@,
        ),
    }
}

/// The path `rest` below the directory `base` (see `joined_path`).
fn join_path(base: &str, rest: &str) -> (p: String)
    ensures
        p@ == joined_path(base@, rest@),
{
    let mut out = chars_of(base);
    let mut tail = chars_of(rest);
    if out.len() > 0 && out[out.len() - 1] != '/' {
        out.push('/');
    }
    out.append(&mut tail);
    proof {
        if base@.len() > 0 && base@.last() != '/' {
            assert(out@ =~= base@ + seq!['/'] + rest@);
        } else {
            assert(out@ =~= base@ + rest@);
        }
    }
    string_from_chars(&out)
}

/// Where the session is saved, given the value of `$XDG_STATE_HOME` and
/// the home directory, where they are known (see `session_path`).
pub fn snapshot_path(state_home: Option<&str>, home: Option<&str>) -> (p: String)
    ensures
        p@ == session_path(
            match state_home {
                Some(d) => Some(d@),
                None => None,
            },
            match home {
                Some(h) => Some(h@),
                None => None,
            },
        ),
{
    if let Some(dir) = state_home {
        if dir.unicode_len() > 0 {
            let first = dir.get_char(0);
            if first == '/' {
                return join_path(dir, "cmux/session-v1.json");
            }
        }
    }
    let base = match home {
        Some(h) => h,
        None => "/tmp",
    };
    join_path(base, ".local/state/cmux/session-v1.json")
}

impl Workspace {
    /// The workspace is settled: its layout shows at least one panel and
    /// each has a record; its focused panel is shown and selected in its
    /// pane; its focused pane is the one holding that panel; and it shows
    /// what its panels call for.
    pub open spec fn settled(self) -> bool {
        &&& layout_complete(self.layout@, self.panels@)
        &&& self.focused_panel_id is Some
        &&& self.layout@.panels().contains(self.focused_panel_id->0)
        &&& self.layout@.with_panel_selected(self.focused_panel_id->0) == self.layout@
        &&& self.focused_pane_id == self.layout@.pane_id_with_panel(self.focused_panel_id->0)
        &&& self.synced()
    }
}

/// Restoring a settled workspace from its snapshot, with its own home
/// directory, gives it back: every field holds what it held.
pub proof fn lemma_workspace_round_trip(ws: Workspace, s: WorkspaceSnapshot, restored: Workspace)
    requires
        ws.settled(),
        s.records(ws),
        restored.restored_from(s, ws.home_directory@),
    ensures
        restored.same_content(ws),
{
    let p = ws.focused_panel_id->0;
    lemma_pane_holds_shown(ws.layout@, p);
    assert(ws.layout@.panels().len() > 0);
    let k = choose|k: int| 0 <= k < ws.layout@.panels().len() && ws.layout@.panels()[k] == p;
    assert(ws.panels@.contains_key(ws.layout@.panels()[k]));
    assert(restored.panels@ == ws.panels@);
    assert(restored.focused_panel_id == Some(p));
    assert(restored.layout@ == ws.layout@);
    assert(restored.synced_summary() == ws.synced_summary());
}

/// Two lists of workspaces with the same ids in the same order find the
/// same first workspace of an id.
pub proof fn lemma_index_of_id_same_ids(a: Seq<Workspace>, b: Seq<Workspace>, id: Id)
    requires
        a.len() == b.len(),
        forall|i: int| 0 <= i < a.len() ==> (#[trigger] a[i]).id == b[i].id,
    ensures
        index_of_id(a, id) == index_of_id(b, id),
    decreases a.len(),
{
    if a.len() > 0 {
        lemma_index_of_id_same_ids(a.drop_last(), b.drop_last(), id);
        assert(a.last().id == b.last().id);
    }
}

/// Saving a window whose workspaces are settled and share one home
/// directory, and restoring it with that directory, gives it back: the
/// same workspaces, field for field, in the same order, with a workspace
/// of the same id selected (the window selects one where it has any). Where
/// no earlier workspace has the selected one's id, the very same index is
/// selected; where one does, the restored window selects that earlier one.
pub proof fn lemma_session_round_trip(tm: TabManager, s: SessionSnapshotV1, home: Seq<char>, restored: Option<TabManager>)
    requires
        forall|i: int| 0 <= i < tm.workspaces@.len() ==> (#[trigger] tm.workspaces@[i]).settled(),
        forall|i: int| 0 <= i < tm.workspaces@.len() ==> (#[trigger] tm.workspaces@[i]).home_directory@ == home,
        tm.workspaces@.len() > 0 ==> tm.selection() is Some,
        s.captures(tm),
        s.restores(restored, home),
    ensures
        restored matches Some(t) && {
            &&& t.workspaces@.len() == tm.workspaces@.len()
            &&& forall|i: int| 0 <= i < t.workspaces@.len() ==> (#[trigger] t.workspaces@[i]).same_content(tm.workspaces@[i])
            &&& match tm.selection() {
                Some(i) => t.selection() matches Some(j) && t.workspaces@[j].id == tm.workspaces@[i].id,
                None => t.selection() is None,
            }
            &&& (tm.selection() matches Some(i) ==> index_of_id(tm.workspaces@, tm.workspaces@[i].id) == Some(i))
                ==> t.selection() == tm.selection()
        },
{
    let t = restored->0;
    assert forall|i: int| 0 <= i < t.workspaces@.len() implies (#[trigger] t.workspaces@[i]).same_content(tm.workspaces@[i]) by {
        assert(s.workspaces@[i].records(tm.workspaces@[i]));
        assert(t.workspaces@[i].restored_from(s.workspaces@[i], home));
        lemma_workspace_round_trip(tm.workspaces@[i], s.workspaces@[i], t.workspaces@[i]);
    }
    assert forall|i: int| 0 <= i < t.workspaces@.len() implies (#[trigger] t.workspaces@[i]).id == tm.workspaces@[i].id by {
        assert(s.workspaces@[i].records(tm.workspaces@[i]));
        assert(t.workspaces@[i].restored_from(s.workspaces@[i], home));
    }
    match tm.selection() {
        Some(i) => {
            let id = tm.workspaces@[i].id;
            lemma_index_of_id_same_ids(t.workspaces@, tm.workspaces@, id);
            crate::commands::lemma_index_of_id_total(tm.workspaces@, i);
            lemma_index_of_id_found(tm.workspaces@, id);
        },
        None => {},
    }
}

/// What the session writer is doing: waiting for work, or holding the
/// newest snapshot until saves stop arriving for a moment.
#[derive(Debug)]
pub enum WriterState<T> {
    Idle,
    Debouncing(T),
}

/// What reaches the session writer.
#[derive(Debug)]
pub enum WriterEvent<T> {
    /// A snapshot to save once saves stop arriving.
    Save(T),
    /// A snapshot to save now, answering the caller.
    Flush(T),
    /// No save arrived for the debounce interval.
    Timeout,
    /// Nobody can send to the writer any more.
    Disconnected,
}

/// What the session writer does after an event.
#[derive(Debug)]
pub enum WriterAction<T> {
    /// Wait for the next event, for the debounce interval where debouncing.
    Wait,
    /// Write the snapshot, then wait.
    Write(T),
    /// Write the snapshot and answer the flushing caller with the outcome.
    WriteAndReply(T),
    /// Write the snapshot, where there is one, and stop.
    Stop(Option<T>),
}

/// The session writer's step: saves replace the held snapshot; a flush
/// writes its own snapshot at once (dropping the held one); the end of
/// the debounce interval writes the held snapshot; a disconnect writes it
/// and stops.
pub open spec fn writer_next<T>(state: WriterState<T>, event: WriterEvent<T>) -> (WriterState<T>, WriterAction<T>) {
    match event {
        WriterEvent::Save(s) => (WriterState::Debouncing(s), WriterAction::Wait),
        WriterEvent::Flush(s) => (WriterState::Idle, WriterAction::WriteAndReply(s)),
        WriterEvent::Timeout => match state {
            WriterState::Debouncing(p) => (WriterState::Idle, WriterAction::Write(p)),
            WriterState::Idle => (WriterState::Idle, WriterAction::Wait),
        },
        WriterEvent::Disconnected => match state {
            WriterState::Debouncing(p) => (WriterState::Idle, WriterAction::Stop(Some(p))),
            WriterState::Idle => (WriterState::Idle, WriterAction::Stop(None)),
        },
    }
}

/// The session writer's step (see `writer_next`).
pub fn writer_step<T>(state: WriterState<T>, event: WriterEvent<T>) -> (r: (WriterState<T>, WriterAction<T>))
    ensures
        r == writer_next(state, event),
{
    match event {
        WriterEvent::Save(s) => (WriterState::Debouncing(s), WriterAction::Wait),
        WriterEvent::Flush(s) => (WriterState::Idle, WriterAction::WriteAndReply(s)),
        WriterEvent::Timeout => match state {
            WriterState::Debouncing(p) => (WriterState::Idle, WriterAction::Write(p)),
            WriterState::Idle => (WriterState::Idle, WriterAction::Wait),
        },
        WriterEvent::Disconnected => match state {
            WriterState::Debouncing(p) => (WriterState::Idle, WriterAction::Stop(Some(p))),
            WriterState::Idle => (WriterState::Idle, WriterAction::Stop(None)),
        },
    }
}

/// The session writer's state after a run of events.
pub open spec fn writer_run<T>(state: WriterState<T>, events: Seq<WriterEvent<T>>) -> WriterState<T>
    decreases events.len(),
{
    if events.len() == 0 {
        state
    } else {
        writer_run(writer_next(state, events[0]).0, events.drop_first())
    }
}

/// Whatever runs of saves and timeouts came before, what the writer holds
/// (and so writes at the next timeout or disconnect) is the last snapshot
/// saved since the last write, where there was one.
pub proof fn lemma_writer_keeps_latest<T>(state: WriterState<T>, events: Seq<WriterEvent<T>>, s: T)
    requires
        events.len() > 0,
        events.last() == WriterEvent::Save(s),
    ensures
        writer_run(state, events) == WriterState::Debouncing(s),
    decreases events.len(),
{
    if events.len() > 1 {
        assert(events.drop_first().last() == events.last());
        lemma_writer_keeps_latest(writer_next(state, events[0]).0, events.drop_first(), s);
    } else {
        assert(events[0] == events.last());
        assert(events.drop_first().len() == 0);
        assert(writer_run(writer_next(state, events[0]).0, events.drop_first()) == writer_next(state, events[0]).0);
    }
}

} // verus!

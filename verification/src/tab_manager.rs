//! The ordered list of workspaces (tabs) of a window and which one is
//! selected.

use vstd::prelude::*;

use crate::ids::Id;
use crate::ghostty_actions::GhosttyTargetSnapshot;
use crate::panel::opt_string_copy;
use crate::workspace::Workspace;

verus! {

broadcast use vstd::std_specs::hash::group_hash_axioms;

/// The workspaces of a window, in tab order, and the index of the
/// selected one. A selection index past the end selects nothing.
#[derive(Debug)]
pub struct TabManager {
    pub workspaces: Vec<Workspace>,
    pub selected: Option<usize>,
}

/// The index of the first workspace of the id, if any.
pub open spec fn index_of_id(ws: Seq<Workspace>, id: Id) -> Option<int>
    decreases ws.len(),
{
    if ws.len() == 0 {
        None
    } else {
        match index_of_id(ws.drop_last(), id) {
            Some(i) => Some(i),
            None => if ws.last().id == id {
                Some(ws.len() - 1)
            } else {
                None
            },
        }
    }
}

/// The index of the first workspace holding the panel, if any.
pub open spec fn index_with_panel(ws: Seq<Workspace>, panel_id: Id) -> Option<int>
    decreases ws.len(),
{
    if ws.len() == 0 {
        None
    } else {
        match index_with_panel(ws.drop_last(), panel_id) {
            Some(i) => Some(i),
            None => if ws.last().panels@.contains_key(panel_id) {
                Some(ws.len() - 1)
            } else {
                None
            },
        }
    }
}

/// The index of the first workspace whose layout has the pane, if any.
pub open spec fn index_with_pane(ws: Seq<Workspace>, pane_id: Id) -> Option<int>
    decreases ws.len(),
{
    if ws.len() == 0 {
        None
    } else {
        match index_with_pane(ws.drop_last(), pane_id) {
            Some(i) => Some(i),
            None => if ws.last().layout@.pane_by_id(pane_id) is Some {
                Some(ws.len() - 1)
            } else {
                None
            },
        }
    }
}

/// The selection of a list of workspaces opened with a wanted workspace:
/// the first of its id, else the first of all, where there is any.
pub open spec fn initial_selection(ws: Seq<Workspace>, selected_id: Option<Id>) -> Option<int> {
    match selected_id {
        Some(id) => match index_of_id(ws, id) {
            Some(i) => Some(i),
            None => if ws.len() > 0 {
                Some(0int)
            } else {
                None
            },
        },
        None => if ws.len() > 0 {
            Some(0int)
        } else {
            None
        },
    }
}

/// A found index stays the first one in any longer list, and is in
/// range.
pub proof fn lemma_index_with_pane_prefix(ws: Seq<Workspace>, pane_id: Id, j: int)
    requires
        0 <= j <= ws.len(),
        index_with_pane(ws.take(j), pane_id) is Some,
    ensures
        index_with_pane(ws, pane_id) == index_with_pane(ws.take(j), pane_id),
    decreases ws.len() - j,
{
    if j < ws.len() {
        assert(ws.take(j + 1).drop_last() =~= ws.take(j));
        lemma_index_with_pane_prefix(ws, pane_id, j + 1);
    } else {
        assert(ws.take(j) =~= ws);
    }
}

/// A found index is in range.
pub proof fn lemma_index_with_pane_found(ws: Seq<Workspace>, pane_id: Id)
    ensures
        index_with_pane(ws, pane_id) matches Some(i) ==> 0 <= i < ws.len(),
    decreases ws.len(),
{
    if ws.len() > 0 {
        lemma_index_with_pane_found(ws.drop_last(), pane_id);
    }
}

/// A found index stays the first one in any longer list.
pub proof fn lemma_index_of_id_prefix(ws: Seq<Workspace>, id: Id, j: int)
    requires
        0 <= j <= ws.len(),
        index_of_id(ws.take(j), id) is Some,
    ensures
        index_of_id(ws, id) == index_of_id(ws.take(j), id),
    decreases ws.len() - j,
{
    if j < ws.len() {
        assert(ws.take(j + 1).drop_last() =~= ws.take(j));
        lemma_index_of_id_prefix(ws, id, j + 1);
    } else {
        assert(ws.take(j) =~= ws);
    }
}

/// A found index stays the first one in any longer list.
pub proof fn lemma_index_with_panel_prefix(ws: Seq<Workspace>, panel_id: Id, j: int)
    requires
        0 <= j <= ws.len(),
        index_with_panel(ws.take(j), panel_id) is Some,
    ensures
        index_with_panel(ws, panel_id) == index_with_panel(ws.take(j), panel_id),
    decreases ws.len() - j,
{
    if j < ws.len() {
        assert(ws.take(j + 1).drop_last() =~= ws.take(j));
        lemma_index_with_panel_prefix(ws, panel_id, j + 1);
    } else {
        assert(ws.take(j) =~= ws);
    }
}

/// A found index is in range and names a workspace of the id.
pub proof fn lemma_index_of_id_found(ws: Seq<Workspace>, id: Id)
    ensures
        index_of_id(ws, id) matches Some(i) ==> 0 <= i < ws.len() && ws[i].id == id,
    decreases ws.len(),
{
    if ws.len() > 0 {
        lemma_index_of_id_found(ws.drop_last(), id);
    }
}

/// A found index is in range and names a workspace holding the panel.
pub proof fn lemma_index_with_panel_found(ws: Seq<Workspace>, panel_id: Id)
    ensures
        index_with_panel(ws, panel_id) matches Some(i) ==> 0 <= i < ws.len()
            && ws[i].panels@.contains_key(panel_id),
    decreases ws.len(),
{
    if ws.len() > 0 {
        lemma_index_with_panel_found(ws.drop_last(), panel_id);
    }
}

/// The selection after the workspace at `index` is removed, leaving
/// `new_len` workspaces: a later selection moves back one; the removed
/// selection passes to the workspace that takes its place, or the new
/// last one.
pub open spec fn selection_after_remove(sel: Option<int>, index: int, new_len: int) -> Option<int> {
    match sel {
        Some(s) => if index < s {
            Some(s - 1)
        } else if index == s {
            if s < new_len {
                Some(s)
            } else if new_len > 0 {
                Some(new_len - 1)
            } else {
                None
            }
        } else {
            Some(s)
        },
        None => if new_len > 0 {
            Some(0int)
        } else {
            None
        },
    }
}

impl TabManager {
    /// The index of the selected workspace, where it is in range.
    pub open spec fn selection(self) -> Option<int> {
        match self.selected {
            Some(i) => if i < self.workspaces@.len() {
                Some(i as int)
            } else {
                None
            },
            None => None,
        }
    }

    /// A tab manager with one new workspace (see `Workspace::new`), which
    /// is selected.
    pub fn new(home: &str) -> (tm: Self)
        ensures
            tm.workspaces@.len() == 1,
            tm.selection() == Some(0int),
            tm.workspaces@[0].fresh(home@),
    {
        let mut workspaces: Vec<Workspace> = Vec::new();
        workspaces.push(Workspace::new(home));
        TabManager { workspaces, selected: Some(0) }
    }

    /// A tab manager over the workspaces, selecting the first one of the
    /// given id, else the first one.
    pub fn from_workspaces(workspaces: Vec<Workspace>, selected_id: Option<Id>) -> (tm: Self)
        ensures
            tm.workspaces@ == workspaces@,
            tm.selection() == initial_selection(workspaces@, selected_id),
    {
        let mut tm = TabManager { workspaces, selected: None };
        proof {
            if let Some(id) = selected_id {
                lemma_index_of_id_found(tm.workspaces@, id);
            }
        }
        let found = match selected_id {
            Some(id) => tm.index_of(id),
            None => None,
        };
        tm.selected = match found {
            Some(i) => Some(i),
            None => if tm.workspaces.len() > 0 {
                Some(0)
            } else {
                None
            },
        };
        tm
    }

    /// The index of the first workspace of the id, if any.
    pub fn index_of(&self, id: Id) -> (index: Option<usize>)
        ensures
            match index {
                Some(i) => index_of_id(self.workspaces@, id) == Some(i as int),
                None => index_of_id(self.workspaces@, id) is None,
            },
    {
        let ghost ws = self.workspaces@;
        let mut i: usize = 0;
        while i < self.workspaces.len()
            invariant
                ws == self.workspaces@,
                i <= ws.len(),
                index_of_id(ws.take(i as int), id) is None,
            decreases self.workspaces.len() - i,
        {
            proof {
                assert(ws.take(i + 1).drop_last() =~= ws.take(i as int));
                assert(ws.take(i + 1).last() == ws[i as int]);
            }
            if self.workspaces[i].id == id {
                proof {
                    lemma_index_of_id_prefix(ws, id, i + 1);
                }
                return Some(i);
            }
            i = i + 1;
        }
        proof {
            assert(ws.take(ws.len() as int) =~= ws);
        }
        None
    }

    /// The index of the first workspace holding the panel, if any.
    pub fn index_with_panel(&self, panel_id: Id) -> (index: Option<usize>)
        ensures
            match index {
                Some(i) => index_with_panel(self.workspaces@, panel_id) == Some(i as int),
                None => index_with_panel(self.workspaces@, panel_id) is None,
            },
    {
        let ghost ws = self.workspaces@;
        let mut i: usize = 0;
        while i < self.workspaces.len()
            invariant
                ws == self.workspaces@,
                i <= ws.len(),
                index_with_panel(ws.take(i as int), panel_id) is None,
            decreases self.workspaces.len() - i,
        {
            proof {
                assert(ws.take(i + 1).drop_last() =~= ws.take(i as int));
                assert(ws.take(i + 1).last() == ws[i as int]);
            }
            if self.workspaces[i].panels.contains_key(&panel_id) {
                proof {
                    lemma_index_with_panel_prefix(ws, panel_id, i + 1);
                }
                return Some(i);
            }
            i = i + 1;
        }
        proof {
            assert(ws.take(ws.len() as int) =~= ws);
        }
        None
    }

    /// The number of workspaces.
    pub fn len(&self) -> (n: usize)
        ensures
            n == self.workspaces@.len(),
    {
        self.workspaces.len()
    }

    /// Whether there is no workspace.
    pub fn is_empty(&self) -> (empty: bool)
        ensures
            empty == (self.workspaces@.len() == 0),
    {
        self.workspaces.len() == 0
    }

    /// The workspace at the index, if any.
    pub fn get(&self, index: usize) -> (ws: Option<&Workspace>)
        ensures
            match ws {
                Some(w) => index < self.workspaces@.len() && *w == self.workspaces@[index as int],
                None => index >= self.workspaces@.len(),
            },
    {
        if index < self.workspaces.len() {
            Some(&self.workspaces[index])
        } else {
            None
        }
    }

    /// The index of the selected workspace, if any.
    pub fn selected_index(&self) -> (index: Option<usize>)
        ensures
            match index {
                Some(i) => self.selection() == Some(i as int),
                None => self.selection() is None,
            },
    {
        match self.selected {
            Some(i) => if i < self.workspaces.len() {
                Some(i)
            } else {
                None
            },
            None => None,
        }
    }

    /// The id of the selected workspace, if any.
    pub fn selected_id(&self) -> (id: Option<Id>)
        ensures
            id == match self.selection() {
                Some(i) => Some(self.workspaces@[i].id),
                None => None,
            },
    {
        match self.selected_index() {
            Some(i) => Some(self.workspaces[i].id),
            None => None,
        }
    }

    /// The selected workspace, if any.
    pub fn selected(&self) -> (ws: Option<&Workspace>)
        ensures
            match ws {
                Some(w) => self.selection() is Some && *w == self.workspaces@[self.selection()->0],
                None => self.selection() is None,
            },
    {
        match self.selected_index() {
            Some(i) => Some(&self.workspaces[i]),
            None => None,
        }
    }

    /// The workspace of the id (the first one, should two share it).
    pub fn workspace(&self, id: Id) -> (ws: Option<&Workspace>)
        ensures
            match ws {
                Some(w) => index_of_id(self.workspaces@, id) is Some && *w == self.workspaces@[index_of_id(
                    self.workspaces@,
                    id,
                )->0],
                None => index_of_id(self.workspaces@, id) is None,
            },
    {
        proof {
            lemma_index_of_id_found(self.workspaces@, id);
        }
        match self.index_of(id) {
            Some(i) => Some(&self.workspaces[i]),
            None => None,
        }
    }

    /// The first workspace holding the panel, if any.
    pub fn find_workspace_with_panel(&self, panel_id: Id) -> (ws: Option<&Workspace>)
        ensures
            match ws {
                Some(w) => index_with_panel(self.workspaces@, panel_id) is Some && *w
                    == self.workspaces@[index_with_panel(self.workspaces@, panel_id)->0],
                None => index_with_panel(self.workspaces@, panel_id) is None,
            },
    {
        proof {
            lemma_index_with_panel_found(self.workspaces@, panel_id);
        }
        match self.index_with_panel(panel_id) {
            Some(i) => Some(&self.workspaces[i]),
            None => None,
        }
    }

    /// The workspace at the index, for update.
    fn workspace_at_mut(&mut self, index: usize) -> (ws: &mut Workspace)
        requires
            index < old(self).workspaces@.len(),
        ensures
            *ws == old(self).workspaces@[index as int],
            final(self).workspaces@ == old(self).workspaces@.update(index as int, *final(ws)),
            final(self).selected == old(self).selected,
    {
        &mut self.workspaces[index]
    }

    /// The selected workspace, for update.
    pub fn selected_mut(&mut self) -> (ws: Option<&mut Workspace>)
        ensures
            final(self).selected == old(self).selected,
            match ws {
                Some(w) => {
                    &&& old(self).selection() is Some
                    &&& *w == old(self).workspaces@[old(self).selection()->0]
                    &&& final(self).workspaces@ == old(self).workspaces@.update(
                        old(self).selection()->0,
                        *final(w),
                    )
                },
                None => old(self).selection() is None && final(self).workspaces@ == old(self).workspaces@,
            },
    {
        match self.selected_index() {
            Some(i) => Some(self.workspace_at_mut(i)),
            None => None,
        }
    }

    /// The workspace of the id (the first one, should two share it), for
    /// update.
    pub fn workspace_mut(&mut self, id: Id) -> (ws: Option<&mut Workspace>)
        ensures
            final(self).selected == old(self).selected,
            match ws {
                Some(w) => {
                    &&& index_of_id(old(self).workspaces@, id) is Some
                    &&& *w == old(self).workspaces@[index_of_id(old(self).workspaces@, id)->0]
                    &&& final(self).workspaces@ == old(self).workspaces@.update(
                        index_of_id(old(self).workspaces@, id)->0,
                        *final(w),
                    )
                },
                None => index_of_id(old(self).workspaces@, id) is None && final(self).workspaces@
                    == old(self).workspaces@,
            },
    {
        proof {
            lemma_index_of_id_found(self.workspaces@, id);
        }
        match self.index_of(id) {
            Some(i) => Some(self.workspace_at_mut(i)),
            None => None,
        }
    }

    /// The first workspace holding the panel, for update.
    pub fn find_workspace_with_panel_mut(&mut self, panel_id: Id) -> (ws: Option<&mut Workspace>)
        ensures
            final(self).selected == old(self).selected,
            match ws {
                Some(w) => {
                    &&& index_with_panel(old(self).workspaces@, panel_id) is Some
                    &&& *w == old(self).workspaces@[index_with_panel(
                        old(self).workspaces@,
                        panel_id,
                    )->0]
                    &&& final(self).workspaces@ == old(self).workspaces@.update(
                        index_with_panel(old(self).workspaces@, panel_id)->0,
                        *final(w),
                    )
                },
                None => index_with_panel(old(self).workspaces@, panel_id) is None && final(self).workspaces@ == old(self).workspaces@,
            },
    {
        proof {
            lemma_index_with_panel_found(self.workspaces@, panel_id);
        }
        match self.index_with_panel(panel_id) {
            Some(i) => Some(self.workspace_at_mut(i)),
            None => None,
        }
    }

    /// Take the workspace at `from` out and put it back at `to`; the
    /// selection follows the workspaces.
    fn move_to(&mut self, from: usize, to: usize)
        requires
            from < old(self).workspaces@.len(),
            to < old(self).workspaces@.len(),
        ensures
            final(self).workspaces@ == moved_seq(old(self).workspaces@, from as int, to as int),
            final(self).selected == moved_selected(old(self).selected, from as int, to as int),
    {
        let ws = self.workspaces.remove(from);
        self.workspaces.insert(to, ws);
        self.selected = match self.selected {
            Some(s) => Some(if s == from {
                to
            } else if from < s && s <= to {
                s - 1
            } else if to <= s && s < from {
                s + 1
            } else {
                s
            }),
            None => None,
        };
    }

    /// Move the workspace at `from` to the index `to`, within its section
    /// (pinned or not: the workspace at `to` must be pinned where it is);
    /// the selection follows the workspaces. Reports whether it moved:
    /// `false`, changing nothing, where an index is out of range, the two
    /// are equal, or the move would cross into the other section.
    pub fn move_workspace(&mut self, from: usize, to: usize) -> (moved: bool)
        ensures
            moved == (from < old(self).workspaces@.len() && to < old(self).workspaces@.len() && from != to
                && old(self).workspaces@[from as int].is_pinned == old(self).workspaces@[to as int].is_pinned),
            moved ==> final(self).workspaces@ == moved_seq(old(self).workspaces@, from as int, to as int)
                && final(self).selected == moved_selected(old(self).selected, from as int, to as int),
            !moved ==> *final(self) == *old(self),
    {
        if from >= self.workspaces.len() || to >= self.workspaces.len() || from == to {
            return false;
        }
        if self.workspaces[from].is_pinned != self.workspaces[to].is_pinned {
            return false;
        }
        self.move_to(from, to);
        true
    }

    /// Pin or unpin the workspace of the id (the first one of it) and move
    /// it to the border between the pinned and the unpinned workspaces:
    /// the index equal to the number of the other workspaces that are
    /// pinned. Returns that index; `None`, changing nothing, where no
    /// workspace has the id. The selection follows the workspaces.
    pub fn set_workspace_pinned(&mut self, id: Id, pinned: bool) -> (index: Option<usize>)
        ensures
            match index_of_id(old(self).workspaces@, id) {
                None => index is None && *final(self) == *old(self),
                Some(i) => {
                    let k = pinned_count(old(self).workspaces@.remove(i));
                    let ws = old(self).workspaces@.update(i, Workspace { is_pinned: pinned, ..old(self).workspaces@[i] });
                    &&& 0 <= k < old(self).workspaces@.len()
                    &&& index == Some(k as usize)
                    &&& final(self).workspaces@ == moved_seq(ws, i, k)
                    &&& final(self).selected == moved_selected(old(self).selected, i, k)
                },
            },
    {
        proof {
            lemma_index_of_id_found(self.workspaces@, id);
        }
        let i = match self.index_of(id) {
            Some(i) => i,
            None => {
                return None;
            },
        };
        let ghost others = self.workspaces@.remove(i as int);
        let mut k: usize = 0;
        let mut j: usize = 0;
        while j < self.workspaces.len()
            invariant
                j <= self.workspaces@.len(),
                i < self.workspaces@.len(),
                others == self.workspaces@.remove(i as int),
                k == pinned_count(if j <= i { others.take(j as int) } else { others.take(j - 1) }),
                k <= j,
            decreases self.workspaces@.len() - j,
        {
            if j != i {
                let ghost before = if j < i { others.take(j as int) } else { others.take(j - 1) };
                let ghost after = if j < i { others.take(j + 1) } else { others.take(j as int) };
                proof {
                    assert(after.drop_last() =~= before);
                    if j < i {
                        assert(after.last() == self.workspaces@[j as int]);
                    } else {
                        assert(after.last() == self.workspaces@[j as int]);
                    }
                }
                if self.workspaces[j].is_pinned {
                    k = k + 1;
                }
            } else {
                proof {
                    assert(others.take(j as int) =~= others.take((j + 1) - 1));
                }
            }
            j = j + 1;
        }
        proof {
            assert(others.take(others.len() as int) =~= others);
            lemma_pinned_count_bound(others);
        }
        let _ = self.workspace_at_mut(i).set_pinned(pinned);
        self.move_to(i, k);
        Some(k)
    }

    /// Add a workspace at the end and select it; returns its id.
    pub fn add_workspace(&mut self, workspace: Workspace) -> (id: Id)
        ensures
            id == workspace.id,
            final(self).workspaces@ == old(self).workspaces@.push(workspace),
            final(self).selection() == Some(old(self).workspaces@.len() as int),
    {
        let id = workspace.id;
        self.workspaces.push(workspace);
        self.selected = Some(self.workspaces.len() - 1);
        id
    }

    /// Select the workspace at the index; `false`, changing nothing, where
    /// the index is out of range.
    pub fn select(&mut self, index: usize) -> (selected: bool)
        ensures
            selected == (index < old(self).workspaces@.len()),
            final(self).workspaces@ == old(self).workspaces@,
            !selected ==> final(self).selected == old(self).selected,
            final(self).selection() == (if selected {
                Some(index as int)
            } else {
                old(self).selection()
            }),
    {
        if index < self.workspaces.len() {
            self.selected = Some(index);
            true
        } else {
            false
        }
    }

    /// Select the first workspace of the id; `false`, changing nothing,
    /// where there is none.
    pub fn select_by_id(&mut self, id: Id) -> (selected: bool)
        ensures
            selected == (index_of_id(old(self).workspaces@, id) is Some),
            final(self).workspaces@ == old(self).workspaces@,
            !selected ==> final(self).selected == old(self).selected,
            final(self).selection() == (if selected {
                index_of_id(old(self).workspaces@, id)
            } else {
                old(self).selection()
            }),
    {
        proof {
            lemma_index_of_id_found(self.workspaces@, id);
        }
        match self.index_of(id) {
            Some(i) => {
                self.selected = Some(i);
                true
            },
            None => false,
        }
    }

    /// The selection after moving one tab on: the next one, wrapping to
    /// the first where `wrap` is set, staying put at the last otherwise;
    /// the first where nothing was selected.
    pub open spec fn next_selection(self, wrap: bool) -> Option<int> {
        let n = self.workspaces@.len() as int;
        if n == 0 {
            self.selection()
        } else {
            match self.selection() {
                Some(i) => if i + 1 < n {
                    Some(i + 1)
                } else if wrap {
                    Some(0int)
                } else {
                    Some(i)
                },
                None => Some(0int),
            }
        }
    }

    /// The selection after moving one tab back: the previous one, wrapping
    /// to the last where `wrap` is set, staying put at the first
    /// otherwise; the last where nothing was selected.
    pub open spec fn previous_selection(self, wrap: bool) -> Option<int> {
        let n = self.workspaces@.len() as int;
        if n == 0 {
            self.selection()
        } else {
            match self.selection() {
                Some(i) => if i > 0 {
                    Some(i - 1)
                } else if wrap {
                    Some(n - 1)
                } else {
                    Some(i)
                },
                None => Some(n - 1),
            }
        }
    }

    /// Select the next workspace (see `next_selection`).
    pub fn select_next(&mut self, wrap: bool)
        ensures
            final(self).workspaces@ == old(self).workspaces@,
            final(self).selection() == old(self).next_selection(wrap),
    {
        let n = self.workspaces.len();
        if n == 0 {
            return;
        }
        self.selected = match self.selected_index() {
            Some(i) => if i + 1 < n {
                Some(i + 1)
            } else if wrap {
                Some(0)
            } else {
                Some(i)
            },
            None => Some(0),
        };
    }

    /// Select the previous workspace (see `previous_selection`).
    pub fn select_previous(&mut self, wrap: bool)
        ensures
            final(self).workspaces@ == old(self).workspaces@,
            final(self).selection() == old(self).previous_selection(wrap),
    {
        let n = self.workspaces.len();
        if n == 0 {
            return;
        }
        self.selected = match self.selected_index() {
            Some(i) => if i > 0 {
                Some(i - 1)
            } else if wrap {
                Some(n - 1)
            } else {
                Some(i)
            },
            None => Some(n - 1),
        };
    }

    /// Select the last workspace, where there is one.
    pub fn select_last(&mut self)
        ensures
            final(self).workspaces@ == old(self).workspaces@,
            final(self).selection() == (if old(self).workspaces@.len() > 0 {
                Some(old(self).workspaces@.len() - 1)
            } else {
                old(self).selection()
            }),
    {
        if self.workspaces.len() > 0 {
            self.selected = Some(self.workspaces.len() - 1);
        }
    }

    /// Rename the workspace of the id (see `Workspace::rename`); `false`
    /// where there is none or its title did not change.
    pub fn rename_workspace(&mut self, id: Id, title: Option<&str>) -> (changed: bool)
        ensures
            final(self).selected == old(self).selected,
            final(self).workspaces@.len() == old(self).workspaces@.len(),
            index_of_id(old(self).workspaces@, id) is None ==> !changed && final(self).workspaces@
                == old(self).workspaces@,
            index_of_id(old(self).workspaces@, id) matches Some(i) ==> {
                let before = old(self).workspaces@[i];
                let after = final(self).workspaces@[i];
                &&& final(self).workspaces@ == old(self).workspaces@.update(i, after)
                &&& after.custom_title.deep_view() == Workspace::renamed_title(
                    match title {
                        Some(t) => Some(t@),
                        None => None,
                    },
                )
                &&& changed == (before.custom_title.deep_view() != after.custom_title.deep_view())
                &&& after == (Workspace { custom_title: after.custom_title, ..before })
            },
    {
        proof {
            lemma_index_of_id_found(self.workspaces@, id);
        }
        match self.workspace_mut(id) {
            Some(ws) => ws.rename(title),
            None => false,
        }
    }

    /// Remove the workspace at the index and return it; the selection
    /// follows (see `selection_after_remove`). `None`, changing nothing,
    /// where the index is out of range.
    pub fn remove(&mut self, index: usize) -> (removed: Option<Workspace>)
        ensures
            match removed {
                Some(w) => {
                    &&& index < old(self).workspaces@.len()
                    &&& w == old(self).workspaces@[index as int]
                    &&& final(self).workspaces@ == old(self).workspaces@.remove(index as int)
                    &&& final(self).selection() == selection_after_remove(
                        old(self).selection(),
                        index as int,
                        final(self).workspaces@.len() as int,
                    )
                },
                None => index >= old(self).workspaces@.len() && final(self).workspaces@ == old(self).workspaces@
                    && final(self).selected == old(self).selected,
            },
    {
        if index >= self.workspaces.len() {
            return None;
        }
        let sel = self.selected_index();
        let w = self.workspaces.remove(index);
        let n = self.workspaces.len();
        self.selected = match sel {
            Some(s) => if index < s {
                Some(s - 1)
            } else if index == s {
                if s < n {
                    Some(s)
                } else if n > 0 {
                    Some(n - 1)
                } else {
                    None
                }
            } else {
                Some(s)
            },
            None => if n > 0 {
                Some(0)
            } else {
                None
            },
        };
        Some(w)
    }

    /// Remove the first workspace of the id and return it (see `remove`).
    pub fn remove_by_id(&mut self, id: Id) -> (removed: Option<Workspace>)
        ensures
            match index_of_id(old(self).workspaces@, id) {
                Some(i) => {
                    &&& removed == Some(old(self).workspaces@[i])
                    &&& final(self).workspaces@ == old(self).workspaces@.remove(i)
                    &&& final(self).selection() == selection_after_remove(
                        old(self).selection(),
                        i,
                        final(self).workspaces@.len() as int,
                    )
                },
                None => removed is None && final(self).workspaces@ == old(self).workspaces@
                    && final(self).selected == old(self).selected,
            },
    {
        proof {
            lemma_index_of_id_found(self.workspaces@, id);
        }
        match self.index_of(id) {
            Some(i) => self.remove(i),
            None => None,
        }
    }

    /// The first workspace with unread notifications whose latest one is
    /// the latest of all, if any.
    pub open spec fn latest_unread(ws: Seq<Workspace>) -> Option<int>
        decreases ws.len(),
    {
        if ws.len() == 0 {
            None
        } else {
            let prev = Self::latest_unread(ws.drop_last());
            let w = ws.last();
            if w.unread_count > 0 && (match prev {
                None => true,
                Some(j) => Self::later(w.latest_notification_at, ws[j].latest_notification_at),
            }) {
                Some(ws.len() - 1)
            } else {
                prev
            }
        }
    }

    /// Whether notification time `a` is strictly later than `b` (a time
    /// is later than none).
    pub open spec fn later(a: Option<u64>, b: Option<u64>) -> bool {
        match (a, b) {
            (Some(x), Some(y)) => x > y,
            (Some(_), None) => true,
            _ => false,
        }
    }

    /// Select the workspace whose unread notification is the latest (see
    /// `latest_unread`) and return its id; `None`, changing nothing, where
    /// no workspace has unread notifications.
    pub fn select_latest_unread(&mut self) -> (selected: Option<Id>)
        ensures
            final(self).workspaces@ == old(self).workspaces@,
            match Self::latest_unread(old(self).workspaces@) {
                Some(i) => selected == Some(old(self).workspaces@[i].id) && final(self).selection() == Some(i),
                None => selected is None && final(self).selected == old(self).selected,
            },
    {
        let ghost ws = self.workspaces@;
        let mut best: Option<usize> = None;
        let mut i: usize = 0;
        while i < self.workspaces.len()
            invariant
                ws == self.workspaces@,
                i <= ws.len(),
                best == match Self::latest_unread(ws.take(i as int)) {
                    Some(j) => Some(j as usize),
                    None => None::<usize>,
                },
                Self::latest_unread(ws.take(i as int)) matches Some(j) ==> 0 <= j < i,
            decreases self.workspaces.len() - i,
        {
            proof {
                assert(ws.take(i + 1).drop_last() =~= ws.take(i as int));
                assert(ws.take(i + 1).last() == ws[i as int]);
                if let Some(j) = Self::latest_unread(ws.take(i as int)) {
                    assert(ws.take(i + 1)[j] == ws[j]);
                }
            }
            let w = &self.workspaces[i];
            if w.unread_count > 0 {
                let take = match best {
                    None => true,
                    Some(j) => match (w.latest_notification_at, self.workspaces[j].latest_notification_at) {
                        (Some(x), Some(y)) => x > y,
                        (Some(_), None) => true,
                        _ => false,
                    },
                };
                if take {
                    best = Some(i);
                }
            }
            i = i + 1;
        }
        proof {
            assert(ws.take(ws.len() as int) =~= ws);
        }
        match best {
            Some(j) => {
                self.selected = Some(j);
                Some(self.workspaces[j].id)
            },
            None => None,
        }
    }

    /// Close a panel: remove it from the first workspace holding it, and
    /// remove that workspace where no panel is left. `false`, changing
    /// nothing, where no workspace holds the panel.
    pub fn close_panel(&mut self, panel_id: Id) -> (closed: bool)
        ensures
            closed == (index_with_panel(old(self).workspaces@, panel_id) is Some),
            !closed ==> final(self).workspaces@ == old(self).workspaces@ && final(self).selection()
                == old(self).selection(),
            closed ==> {
                let i = index_with_panel(old(self).workspaces@, panel_id)->0;
                let w = old(self).workspaces@[i];
                exists|after: Workspace|
                    {
                        &&& after.panel_removed(w, panel_id)
                        &&& #[trigger] final(self).workspaces@ == if after.panels@.len() == 0 {
                            old(self).workspaces@.remove(i)
                        } else {
                            old(self).workspaces@.update(i, after)
                        }
                    }
            },
            closed ==> final(self).selection() == if final(self).workspaces@.len() < old(self).workspaces@.len() {
                selection_after_remove(
                    old(self).selection(),
                    index_with_panel(old(self).workspaces@, panel_id)->0,
                    final(self).workspaces@.len() as int,
                )
            } else {
                old(self).selection()
            },
    {
        proof {
            lemma_index_with_panel_found(self.workspaces@, panel_id);
        }
        let index = match self.index_with_panel(panel_id) {
            Some(i) => i,
            None => {
                return false;
            },
        };
        let ghost before = self.workspaces@;
        let empty = {
            let ws = self.workspace_at_mut(index);
            let _ = ws.remove_panel(panel_id);
            ws.is_empty()
        };
        let ghost after = self.workspaces@[index as int];
        if empty {
            let _ = self.remove(index);
        }
        proof {
            assert(self.workspaces@ == if after.panels@.len() == 0 {
                before.remove(index as int)
            } else {
                before.update(index as int, after)
            });
        }
        true
    }

    /// Record the title a terminal reports for a panel (see
    /// `Workspace::set_panel_title`) in the first workspace holding it;
    /// `false` where none does.
    pub fn set_panel_title(&mut self, panel_id: Id, title: &str) -> (changed: bool)
        ensures
            final(self).selected == old(self).selected,
            final(self).workspaces@.len() == old(self).workspaces@.len(),
            index_with_panel(old(self).workspaces@, panel_id) is None ==> !changed && final(self).workspaces@
                == old(self).workspaces@,
            index_with_panel(old(self).workspaces@, panel_id) matches Some(i) ==> {
                &&& final(self).workspaces@ == old(self).workspaces@.update(i, final(self).workspaces@[i])
                &&& final(self).workspaces@[i].set_panel_title_post(old(self).workspaces@[i], panel_id, title@, changed)
            },
    {
        proof {
            lemma_index_with_panel_found(self.workspaces@, panel_id);
        }
        match self.find_workspace_with_panel_mut(panel_id) {
            Some(ws) => ws.set_panel_title(panel_id, title),
            None => false,
        }
    }

    /// Record the directory a terminal reports for a panel (see
    /// `Workspace::set_panel_directory`) in the first workspace holding
    /// it; `false` where none does.
    pub fn set_panel_directory(&mut self, panel_id: Id, directory: &str) -> (changed: bool)
        ensures
            final(self).selected == old(self).selected,
            final(self).workspaces@.len() == old(self).workspaces@.len(),
            index_with_panel(old(self).workspaces@, panel_id) is None ==> !changed && final(self).workspaces@
                == old(self).workspaces@,
            index_with_panel(old(self).workspaces@, panel_id) matches Some(i) ==> {
                &&& final(self).workspaces@ == old(self).workspaces@.update(i, final(self).workspaces@[i])
                &&& final(self).workspaces@[i].set_panel_directory_post(old(self).workspaces@[i], panel_id, directory@, changed)
            },
    {
        proof {
            lemma_index_with_panel_found(self.workspaces@, panel_id);
        }
        match self.find_workspace_with_panel_mut(panel_id) {
            Some(ws) => ws.set_panel_directory(panel_id, directory),
            None => false,
        }
    }

    /// Fill in what the model knows of a terminal's panel: the focus, title
    /// and directory of the first workspace holding it, and the panel's own
    /// title and directory. The snapshot is returned as it came where it
    /// names no panel or no workspace holds it.
    pub fn fill_target_snapshot(&self, snapshot: GhosttyTargetSnapshot) -> (filled: GhosttyTargetSnapshot)
        ensures
            filled@.panel_id == snapshot@.panel_id,
            filled@.surface_title == snapshot@.surface_title,
            filled@.surface_pwd == snapshot@.surface_pwd,
            filled@.surface_cell_size == snapshot@.surface_cell_size,
            filled@.surface_scrollbar == snapshot@.surface_scrollbar,
            filled@.surface_command_finished == snapshot@.surface_command_finished,
            match snapshot.panel_id {
                None => filled@ == snapshot@,
                Some(p) => match index_with_panel(self.workspaces@, p) {
                    None => filled@ == snapshot@,
                    Some(i) => {
                        let w = self.workspaces@[i];
                        &&& filled@.focused_panel_id == w.focused_panel_id
                        &&& filled@.workspace_process_title == Some(w.process_title@)
                        &&& filled@.workspace_current_directory == Some(w.current_directory@)
                        &&& filled@.panel_title == w.panel_view(p).title
                        &&& filled@.panel_directory == w.panel_view(p).directory
                    },
                },
            },
    {
        let mut snapshot = snapshot;
        let panel_id = match snapshot.panel_id {
            Some(p) => p,
            None => {
                return snapshot;
            },
        };
        proof {
            lemma_index_with_panel_found(self.workspaces@, panel_id);
        }
        let workspace = match self.find_workspace_with_panel(panel_id) {
            Some(w) => w,
            None => {
                return snapshot;
            },
        };
        snapshot.focused_panel_id = workspace.focused_panel_id;
        snapshot.workspace_process_title = Some(workspace.process_title.clone());
        snapshot.workspace_current_directory = Some(workspace.current_directory.clone());
        match workspace.panel(panel_id) {
            Some(panel) => {
                snapshot.panel_title = opt_string_copy(&panel.title);
                snapshot.panel_directory = opt_string_copy(&panel.directory);
            },
            None => {},
        }
        snapshot
    }

    /// The index of the first workspace whose layout has the pane, if any.
    pub fn index_with_pane(&self, pane_id: Id) -> (index: Option<usize>)
        ensures
            match index {
                Some(i) => index_with_pane(self.workspaces@, pane_id) == Some(i as int),
                None => index_with_pane(self.workspaces@, pane_id) is None,
            },
    {
        let ghost ws = self.workspaces@;
        let mut i: usize = 0;
        while i < self.workspaces.len()
            invariant
                ws == self.workspaces@,
                i <= ws.len(),
                index_with_pane(ws.take(i as int), pane_id) is None,
            decreases self.workspaces.len() - i,
        {
            proof {
                assert(ws.take(i + 1).drop_last() =~= ws.take(i as int));
                assert(ws.take(i + 1).last() == ws[i as int]);
            }
            if self.workspaces[i].layout.find_pane(pane_id).is_some() {
                proof {
                    lemma_index_with_pane_prefix(ws, pane_id, i + 1);
                }
                return Some(i);
            }
            i = i + 1;
        }
        proof {
            assert(ws.take(ws.len() as int) =~= ws);
        }
        None
    }

    /// Mark the notifications of the workspace of the id read (see
    /// `Workspace::mark_notifications_read`).
    pub fn mark_workspace_read(&mut self, id: Id)
        ensures
            final(self).selected == old(self).selected,
            match index_of_id(old(self).workspaces@, id) {
                Some(i) => final(self).workspaces@ == old(self).workspaces@.update(
                    i,
                    (Workspace { unread_count: 0, ..old(self).workspaces@[i] }),
                ),
                None => final(self).workspaces@ == old(self).workspaces@,
            },
    {
        proof {
            lemma_index_of_id_found(self.workspaces@, id);
        }
        match self.workspace_mut(id) {
            Some(ws) => ws.mark_notifications_read(),
            None => {},
        }
    }
}

/// Moving to the next workspace and back again, wrapping both times,
/// returns to the workspace that was selected.
pub proof fn lemma_next_then_previous(a: TabManager, b: TabManager, c: TabManager)
    requires
        a.selection() is Some,
        b.workspaces@ == a.workspaces@,
        b.selection() == a.next_selection(true),
        c.workspaces@ == b.workspaces@,
        c.selection() == b.previous_selection(true),
    ensures
        c.selection() == a.selection(),
{
}

/// Moving to the previous workspace and forward again, wrapping both
/// times, returns to the workspace that was selected.
pub proof fn lemma_previous_then_next(a: TabManager, b: TabManager, c: TabManager)
    requires
        a.selection() is Some,
        b.workspaces@ == a.workspaces@,
        b.selection() == a.previous_selection(true),
        c.workspaces@ == b.workspaces@,
        c.selection() == b.next_selection(true),
    ensures
        c.selection() == a.selection(),
{
}

/// The workspaces with the one at `from` taken out and put back at `to`.
pub open spec fn moved_seq(ws: Seq<Workspace>, from: int, to: int) -> Seq<Workspace> {
    ws.remove(from).insert(to, ws[from])
}

/// Where the selection goes when the workspace at `from` moves to `to`.
pub open spec fn moved_selected(selected: Option<usize>, from: int, to: int) -> Option<usize> {
    match selected {
        Some(s) => Some((if s == from {
            to
        } else if from < s && s <= to {
            s - 1
        } else if to <= s && s < from {
            s + 1
        } else {
            s as int
        }) as usize),
        None => None,
    }
}

/// How many of the workspaces are pinned.
pub open spec fn pinned_count(ws: Seq<Workspace>) -> int
    decreases ws.len(),
{
    if ws.len() == 0 {
        0
    } else {
        pinned_count(ws.drop_last()) + if ws.last().is_pinned { 1int } else { 0int }
    }
}

/// No more workspaces are pinned than there are.
pub proof fn lemma_pinned_count_bound(ws: Seq<Workspace>)
    ensures
        0 <= pinned_count(ws) <= ws.len(),
    decreases ws.len(),
{
    if ws.len() > 0 {
        lemma_pinned_count_bound(ws.drop_last());
    }
}

/// Moving a workspace from `from` to `to` puts it at `to`, keeps the
/// others in their order, and keeps the same workspace selected: whatever
/// workspace was selected before is selected after, at its new place.
pub proof fn lemma_move_workspace_law(ws: Seq<Workspace>, selected: Option<usize>, from: int, to: int)
    requires
        ws.len() <= usize::MAX,
        0 <= from < ws.len(),
        0 <= to < ws.len(),
    ensures
        moved_seq(ws, from, to).len() == ws.len(),
        moved_seq(ws, from, to)[to] == ws[from],
        moved_seq(ws, from, to).remove(to) == ws.remove(from),
        selected matches Some(s) ==> (moved_selected(selected, from, to) matches Some(t) && (s < ws.len() ==> (t
            < ws.len() && moved_seq(ws, from, to)[t as int] == ws[s as int])) && (s >= ws.len() ==> t >= ws.len())),
        selected is None ==> moved_selected(selected, from, to) is None,
{
    let m = moved_seq(ws, from, to);
    let r = ws.remove(from);
    ws.remove_ensures(from);
    r.insert_ensures(to, ws[from]);
    assert(m.remove(to) =~= ws.remove(from));
    if let Some(s) = selected {
        if s < ws.len() {
            let t = moved_selected(selected, from, to)->0;
            if s as int != from {
                let k = if (s as int) < from { s as int } else { s - 1 };
                let want: int = if from < s && s <= to {
                    s - 1
                } else if to <= s && s < from {
                    s + 1
                } else {
                    s as int
                };
                assert(t as int == want);
                assert(r[k] == ws[s as int]);
                if k < to {
                    assert(m[k] == r[k]);
                } else {
                    assert(m[k + 1] == r[k]);
                }
                assert(m[t as int] == r[k]);
            }
        }
    }
}

/// Moving a workspace selected by `a` and then refused or done by
/// `move_workspace` keeps the selected workspace: after a successful move
/// the workspace at the new selection is the one selected before.
pub proof fn lemma_reorder_keeps_selection(a: TabManager, b: TabManager, from: int, to: int)
    requires
        0 <= from < a.workspaces@.len(),
        0 <= to < a.workspaces@.len(),
        b.workspaces@ == moved_seq(a.workspaces@, from, to),
        b.selected == moved_selected(a.selected, from, to),
    ensures
        a.selection() matches Some(i) ==> (b.selection() matches Some(j) && b.workspaces@[j] == a.workspaces@[i]),
        a.selection() is None ==> b.selection() is None,
        b.workspaces@[to] == a.workspaces@[from],
{
    assert(a.workspaces@.len() == a.workspaces.len());
    lemma_move_workspace_law(a.workspaces@, a.selected, from, to);
}

/// Pinning or unpinning a workspace keeps the same workspace selected,
/// flips only that workspace's pin, and keeps the others in their order.
pub proof fn lemma_pin_keeps_selection(a: TabManager, b: TabManager, i: int, k: int, pinned: bool)
    requires
        0 <= i < a.workspaces@.len(),
        0 <= k < a.workspaces@.len(),
        b.workspaces@ == moved_seq(
            a.workspaces@.update(i, Workspace { is_pinned: pinned, ..a.workspaces@[i] }),
            i,
            k,
        ),
        b.selected == moved_selected(a.selected, i, k),
    ensures
        a.selection() matches Some(s) ==> (b.selection() matches Some(t) && b.workspaces@[t].id == a.workspaces@[s].id),
        a.selection() is None ==> b.selection() is None,
        b.workspaces@[k].id == a.workspaces@[i].id,
        b.workspaces@[k].is_pinned == pinned,
        b.workspaces@.remove(k) == a.workspaces@.remove(i),
{
    let u = a.workspaces@.update(i, Workspace { is_pinned: pinned, ..a.workspaces@[i] });
    assert(a.workspaces@.len() == a.workspaces.len());
    lemma_move_workspace_law(u, a.selected, i, k);
    assert(u.remove(i) =~= a.workspaces@.remove(i));
}

/// The latest unread workspace: none exactly where no workspace has an
/// unread notification; else one with unread notifications whose
/// notification time no other unread workspace beats, and the first of
/// those (every earlier unread workspace is strictly older).
pub proof fn lemma_latest_unread_law(ws: Seq<Workspace>)
    ensures
        TabManager::latest_unread(ws) is None <==> forall|j: int| 0 <= j < ws.len() ==> (#[trigger] ws[j]).unread_count == 0,
        TabManager::latest_unread(ws) matches Some(i) ==> {
            &&& 0 <= i < ws.len()
            &&& ws[i].unread_count > 0
            &&& forall|j: int| 0 <= j < ws.len() && (#[trigger] ws[j]).unread_count > 0
                ==> !TabManager::later(ws[j].latest_notification_at, ws[i].latest_notification_at)
            &&& forall|j: int| 0 <= j < i && (#[trigger] ws[j]).unread_count > 0
                ==> TabManager::later(ws[i].latest_notification_at, ws[j].latest_notification_at)
        },
    decreases ws.len(),
{
    if ws.len() > 0 {
        let d = ws.drop_last();
        lemma_latest_unread_law(d);
        assert forall|k: int| 0 <= k < d.len() implies d[k] == ws[k] by {}
        let n = ws.len() - 1;
        assert(ws.last() == ws[n]);
        if TabManager::latest_unread(d) is None {
            assert forall|j: int| 0 <= j < n implies (#[trigger] ws[j]).unread_count == 0 by {
                assert(d[j].unread_count == 0);
            }
        } else {
            let i = TabManager::latest_unread(d)->0;
            assert(d[i].unread_count > 0);
            assert forall|j: int| 0 <= j < ws.len() && (#[trigger] ws[j]).unread_count > 0 implies !TabManager::later(
                ws[j].latest_notification_at,
                ws[TabManager::latest_unread(ws)->0].latest_notification_at,
            ) by {
                if j < n {
                    assert(d[j].unread_count > 0);
                }
            }
            assert forall|j: int| 0 <= j < TabManager::latest_unread(ws)->0 && (#[trigger] ws[j]).unread_count > 0 implies TabManager::later(
                ws[TabManager::latest_unread(ws)->0].latest_notification_at,
                ws[j].latest_notification_at,
            ) by {
                if j < n {
                    assert(d[j].unread_count > 0);
                }
            }
        }
    }
}

/// Closing a workspace other than the selected one keeps the same
/// workspace selected; closing the selected one selects the workspace that
/// takes its place, else the new last one, and none only where none is
/// left.
pub proof fn lemma_remove_keeps_selection(ws: Seq<Workspace>, sel: Option<int>, index: int)
    requires
        0 <= index < ws.len(),
        sel matches Some(s) ==> 0 <= s < ws.len(),
    ensures
        ({
            let rest = ws.remove(index);
            let after = selection_after_remove(sel, index, rest.len() as int);
            &&& sel matches Some(s) ==> (s != index ==> (after matches Some(t) && 0 <= t < rest.len() && rest[t] == ws[s]))
            &&& (sel == Some(index) && rest.len() > 0) ==> (after matches Some(t) && 0 <= t < rest.len()
                && (index < rest.len() ==> rest[t] == ws[index + 1]) && (index == rest.len() ==> t == rest.len() - 1))
            &&& (rest.len() > 0 <==> after is Some)
            &&& after matches Some(t) ==> 0 <= t < rest.len()
        }),
{
    ws.remove_ensures(index);
}

} // verus!

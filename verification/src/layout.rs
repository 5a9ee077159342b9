//! Layout tree of a workspace: panes (stacks of panel tabs) arranged by
//! binary splits.

use vstd::prelude::*;

use crate::ids::{new_id, Id};

verus! {

/// A divider position is a fraction of the split's extent, in millionths:
/// `0` is the start edge, `DIVIDER_SCALE` the end edge.
pub const DIVIDER_SCALE: u32 = 1_000_000u32;

/// The divider position of a fresh split: the middle.
pub const DIVIDER_MIDDLE: u32 = 500_000u32;

/// A stable pane identity within a workspace layout.
#[derive(Debug, Clone)]
pub struct Pane {
    pub id: Id,
    pub panel_ids: Vec<Id>,
    pub selected_panel_id: Option<Id>,
}

/// Split orientation for layout.
#[derive(Debug, Clone, Copy, PartialEq, Eq, Structural)]
pub enum SplitOrientation {
    Horizontal,
    Vertical,
}

/// Recursive layout tree for workspace pane arrangement.
///
/// - `Pane`: a leaf containing one or more panels (tabs within a pane)
/// - `Split`: a binary split (horizontal or vertical) with two children; its
///   divider position is in millionths of the extent (see `DIVIDER_SCALE`).
#[derive(Debug)]
pub enum LayoutNode {
    Pane { pane: Pane },
    Split {
        orientation: SplitOrientation,
        divider_position: u32,
        first: Box<LayoutNode>,
        second: Box<LayoutNode>,
    },
}

#[derive(Debug, Clone, Copy, PartialEq, Eq, Structural)]
pub enum FocusDirection {
    Left,
    Right,
    Up,
    Down,
}

#[derive(Debug, Clone, Copy, PartialEq, Eq, Structural)]
pub enum EdgePreference {
    Left,
    Right,
    Top,
    Bottom,
}

#[derive(Debug, Clone, Copy, PartialEq, Eq, Structural)]
pub enum SplitBranch {
    First,
    Second,
}

#[derive(Debug, Clone, Copy, PartialEq, Eq, Structural)]
pub struct SplitPathStep {
    pub orientation: SplitOrientation,
    pub branch: SplitBranch,
}

/// The sequence `s` with the first occurrence of `x` taken out (unchanged
/// where `x` does not occur).
pub open spec fn remove_first(s: Seq<Id>, x: Id) -> Seq<Id>
    decreases s.len(),
{
    if s.len() == 0 {
        s
    } else if s[0] == x {
        s.drop_first()
    } else {
        seq![s[0]] + remove_first(s.drop_first(), x)
    }
}

/// How many times `x` occurs in `s`.
pub open spec fn count_of(s: Seq<Id>, x: Id) -> nat
    decreases s.len(),
{
    if s.len() == 0 {
        0
    } else {
        (if s[0] == x { 1nat } else { 0nat }) + count_of(s.drop_first(), x)
    }
}

/// `a` and `b` hold the same identities the same number of times.
pub open spec fn same_multiset(a: Seq<Id>, b: Seq<Id>) -> bool {
    forall|x: Id| count_of(a, x) == count_of(b, x)
}

/// The first panel of a pane's tab list, if any.
pub open spec fn first_of(s: Seq<Id>) -> Option<Id> {
    if s.len() == 0 {
        None
    } else {
        Some(s[0])
    }
}

impl Pane {
    /// A pane with a fresh identity.
    pub fn new(panel_ids: Vec<Id>, selected_panel_id: Option<Id>) -> (pane: Self)
        ensures
            pane.panel_ids@ == panel_ids@,
            pane.selected_panel_id == selected_panel_id,
    {
        Pane { id: new_id(), panel_ids, selected_panel_id }
    }

    /// A pane holding one panel, which is selected.
    pub fn single_panel(panel_id: Id) -> (pane: Self)
        ensures
            pane.panel_ids@ == seq![panel_id],
            pane.selected_panel_id == Some(panel_id),
    {
        let mut ids: Vec<Id> = Vec::new();
        ids.push(panel_id);
        proof {
            assert(ids@ =~= seq![panel_id]);
        }
        Self::new(ids, Some(panel_id))
    }
}

/// The mathematical value of a pane.
pub struct PaneView {
    pub id: Id,
    pub panel_ids: Seq<Id>,
    pub selected_panel_id: Option<Id>,
}

/// The mathematical value of a layout tree.
pub enum LayoutView {
    Pane { pane: PaneView },
    Split {
        orientation: SplitOrientation,
        divider_position: u32,
        first: Box<LayoutView>,
        second: Box<LayoutView>,
    },
}

impl View for Pane {
    type V = PaneView;

    open spec fn view(&self) -> PaneView {
        PaneView { id: self.id, panel_ids: self.panel_ids@, selected_panel_id: self.selected_panel_id }
    }
}

impl LayoutNode {
    /// The mathematical value of the tree.
    pub open spec fn model(self) -> LayoutView
        decreases self,
    {
        match self {
            LayoutNode::Pane { pane } => LayoutView::Pane { pane: pane@ },
            LayoutNode::Split { orientation, divider_position, first, second } => LayoutView::Split {
                orientation,
                divider_position,
                first: Box::new(first.model()),
                second: Box::new(second.model()),
            },
        }
    }
}

impl View for LayoutNode {
    type V = LayoutView;

    open spec fn view(&self) -> LayoutView {
        self.model()
    }
}

impl LayoutView {
    /// All panel ids of the tree, panes taken first branch first.
    pub open spec fn panels(self) -> Seq<Id>
        decreases self,
    {
        match self {
            LayoutView::Pane { pane } => pane.panel_ids,
            LayoutView::Split { first, second, .. } => first.panels() + second.panels(),
        }
    }

    /// All pane ids of the tree, in layout order.
    pub open spec fn panes(self) -> Seq<Id>
        decreases self,
    {
        match self {
            LayoutView::Pane { pane } => seq![pane.id],
            LayoutView::Split { first, second, .. } => first.panes() + second.panes(),
        }
    }

    /// The first pane (in layout order) with the given id.
    pub open spec fn pane_by_id(self, pane_id: Id) -> Option<PaneView>
        decreases self,
    {
        match self {
            LayoutView::Pane { pane } => if pane.id == pane_id {
                Some(pane)
            } else {
                None
            },
            LayoutView::Split { first, second, .. } => match first.pane_by_id(pane_id) {
                Some(p) => Some(p),
                None => second.pane_by_id(pane_id),
            },
        }
    }

    /// The id of the first pane (in layout order) whose tabs hold the panel.
    pub open spec fn pane_id_with_panel(self, panel_id: Id) -> Option<Id>
        decreases self,
    {
        match self {
            LayoutView::Pane { pane } => if pane.panel_ids.contains(panel_id) {
                Some(pane.id)
            } else {
                None
            },
            LayoutView::Split { first, second, .. } => match first.pane_id_with_panel(panel_id) {
                Some(p) => Some(p),
                None => second.pane_id_with_panel(panel_id),
            },
        }
    }

    /// The first selected panel found among the panes with the given id.
    pub open spec fn selected_of_pane(self, pane_id: Id) -> Option<Id>
        decreases self,
    {
        match self {
            LayoutView::Pane { pane } => if pane.id == pane_id {
                pane.selected_panel_id
            } else {
                None
            },
            LayoutView::Split { first, second, .. } => match first.selected_of_pane(pane_id) {
                Some(p) => Some(p),
                None => second.selected_of_pane(pane_id),
            },
        }
    }

    /// The tree holds no panel in any pane.
    pub open spec fn no_panels(self) -> bool
        decreases self,
    {
        match self {
            LayoutView::Pane { pane } => pane.panel_ids.len() == 0,
            LayoutView::Split { first, second, .. } => first.no_panels() && second.no_panels(),
        }
    }

    /// The tree with the first pane (in layout order) of the given id
    /// replaced by `p`.
    pub open spec fn with_pane(self, pane_id: Id, p: PaneView) -> LayoutView
        decreases self,
    {
        match self {
            LayoutView::Pane { pane } => if pane.id == pane_id {
                LayoutView::Pane { pane: p }
            } else {
                self
            },
            LayoutView::Split { orientation, divider_position, first, second } => if first.pane_by_id(
                pane_id,
            ) is Some {
                LayoutView::Split {
                    orientation,
                    divider_position,
                    first: Box::new(first.with_pane(pane_id, p)),
                    second,
                }
            } else {
                LayoutView::Split {
                    orientation,
                    divider_position,
                    first,
                    second: Box::new(second.with_pane(pane_id, p)),
                }
            },
        }
    }
}

impl LayoutView {
    /// The tree after selecting the panel in the first pane (in layout
    /// order) that holds it; unchanged where no pane holds it.
    pub open spec fn with_panel_selected(self, panel_id: Id) -> LayoutView
        decreases self,
    {
        match self {
            LayoutView::Pane { pane } => if pane.panel_ids.contains(panel_id) {
                LayoutView::Pane {
                    pane: PaneView {
                        id: pane.id,
                        panel_ids: pane.panel_ids,
                        selected_panel_id: Some(panel_id),
                    },
                }
            } else {
                self
            },
            LayoutView::Split { orientation, divider_position, first, second } => if first.panels().contains(panel_id) {
                LayoutView::Split {
                    orientation,
                    divider_position,
                    first: Box::new(first.with_panel_selected(panel_id)),
                    second,
                }
            } else {
                LayoutView::Split {
                    orientation,
                    divider_position,
                    first,
                    second: Box::new(second.with_panel_selected(panel_id)),
                }
            },
        }
    }

    /// The tree after removing the panel from the first pane (in layout
    /// order) that holds it. A pane whose selected panel goes selects its
    /// first remaining panel; a split one of whose sides has no panel left
    /// is replaced by its other side. Unchanged where no pane holds the
    /// panel.
    pub open spec fn without_panel(self, panel_id: Id) -> LayoutView
        decreases self,
    {
        match self {
            LayoutView::Pane { pane } => if pane.panel_ids.contains(panel_id) {
                let ids = remove_first(pane.panel_ids, panel_id);
                LayoutView::Pane {
                    pane: PaneView {
                        id: pane.id,
                        panel_ids: ids,
                        selected_panel_id: if pane.selected_panel_id == Some(panel_id) {
                            first_of(ids)
                        } else {
                            pane.selected_panel_id
                        },
                    },
                }
            } else {
                self
            },
            LayoutView::Split { orientation, divider_position, first, second } => {
                if !self.panels().contains(panel_id) {
                    self
                } else {
                    let in_first = first.panels().contains(panel_id);
                    let f = if in_first {
                        first.without_panel(panel_id)
                    } else {
                        *first
                    };
                    let s = if in_first {
                        *second
                    } else {
                        second.without_panel(panel_id)
                    };
                    if f.no_panels() {
                        s
                    } else if s.no_panels() {
                        f
                    } else {
                        LayoutView::Split {
                            orientation,
                            divider_position,
                            first: Box::new(f),
                            second: Box::new(s),
                        }
                    }
                }
            },
        }
    }

    /// Steps from the root to the first pane (in layout order) holding the
    /// panel.
    pub open spec fn path_to_panel(self, panel_id: Id) -> Option<Seq<SplitPathStep>>
        decreases self,
    {
        match self {
            LayoutView::Pane { pane } => if pane.panel_ids.contains(panel_id) {
                Some(Seq::empty())
            } else {
                None
            },
            LayoutView::Split { orientation, first, second, .. } => match first.path_to_panel(
                panel_id,
            ) {
                Some(path) => Some(
                    seq![SplitPathStep { orientation, branch: SplitBranch::First }] + path,
                ),
                None => match second.path_to_panel(panel_id) {
                    Some(path) => Some(
                        seq![SplitPathStep { orientation, branch: SplitBranch::Second }] + path,
                    ),
                    None => None,
                },
            },
        }
    }

    /// Steps from the root to the first pane (in layout order) of the id.
    pub open spec fn path_to_pane(self, pane_id: Id) -> Option<Seq<SplitPathStep>>
        decreases self,
    {
        match self {
            LayoutView::Pane { pane } => if pane.id == pane_id {
                Some(Seq::empty())
            } else {
                None
            },
            LayoutView::Split { orientation, first, second, .. } => match first.path_to_pane(
                pane_id,
            ) {
                Some(path) => Some(
                    seq![SplitPathStep { orientation, branch: SplitBranch::First }] + path,
                ),
                None => match second.path_to_pane(pane_id) {
                    Some(path) => Some(
                        seq![SplitPathStep { orientation, branch: SplitBranch::Second }] + path,
                    ),
                    None => None,
                },
            },
        }
    }

    /// The pane of the tree that lies on the given edge: through a split
    /// across that edge's axis, the side touching the edge; through any
    /// other split, the first side.
    pub open spec fn pane_on_edge(self, edge: EdgePreference) -> Id
        decreases self,
    {
        match self {
            LayoutView::Pane { pane } => pane.id,
            LayoutView::Split { orientation, first, second, .. } => {
                if (orientation == SplitOrientation::Horizontal && edge == EdgePreference::Right)
                    || (orientation == SplitOrientation::Vertical && edge
                    == EdgePreference::Bottom) {
                    second.pane_on_edge(edge)
                } else {
                    first.pane_on_edge(edge)
                }
            },
        }
    }

    /// The tree after setting the divider of the first split (in pre-order,
    /// first side before second) whose sides hold exactly the given panel
    /// multisets, and whether such a split was found. The position is
    /// capped at `DIVIDER_SCALE`.
    pub open spec fn with_divider_for(self, first_ids: Seq<Id>, second_ids: Seq<Id>, position: u32) -> (LayoutView, bool)
        decreases self,
    {
        match self {
            LayoutView::Pane { .. } => (self, false),
            LayoutView::Split { orientation, divider_position, first, second } => {
                if same_multiset(first.panels(), first_ids) && same_multiset(second.panels(), second_ids) {
                    (
                        LayoutView::Split {
                            orientation,
                            divider_position: if position > DIVIDER_SCALE {
                                DIVIDER_SCALE
                            } else {
                                position
                            },
                            first,
                            second,
                        },
                        true,
                    )
                } else {
                    let (f, found_first) = first.with_divider_for(first_ids, second_ids, position);
                    if found_first {
                        (
                            LayoutView::Split {
                                orientation,
                                divider_position,
                                first: Box::new(f),
                                second,
                            },
                            true,
                        )
                    } else {
                        let (s, found_second) = second.with_divider_for(first_ids, second_ids, position);
                        (
                            LayoutView::Split {
                                orientation,
                                divider_position,
                                first,
                                second: Box::new(s),
                            },
                            found_second,
                        )
                    }
                }
            },
        }
    }

    /// The tree after nudging, for the pane of the id, the divider of its
    /// nearest enclosing split that lies across the direction, and whether
    /// some divider moved. The divider moves by `step` millionths toward the
    /// direction (left/up decrease it, right/down increase it), clamped to
    /// `min..=max`; a split whose clamped position would not change does
    /// not count, and the search goes on at the next enclosing split.
    pub open spec fn with_divider_nudged(
        self,
        pane_id: Id,
        direction: FocusDirection,
        step: u32,
        min: u32,
        max: u32,
    ) -> (LayoutView, bool)
        decreases self,
    {
        match self {
            LayoutView::Pane { .. } => (self, false),
            LayoutView::Split { orientation, divider_position, first, second } => {
                let in_first = first.pane_by_id(pane_id) is Some;
                let in_second = !in_first && second.pane_by_id(pane_id) is Some;
                if !in_first && !in_second {
                    (self, false)
                } else {
                    let (child, moved) = if in_first {
                        first.with_divider_nudged(pane_id, direction, step, min, max)
                    } else {
                        second.with_divider_nudged(pane_id, direction, step, min, max)
                    };
                    if moved {
                        if in_first {
                            (
                                LayoutView::Split {
                                    orientation,
                                    divider_position,
                                    first: Box::new(child),
                                    second,
                                },
                                true,
                            )
                        } else {
                            (
                                LayoutView::Split {
                                    orientation,
                                    divider_position,
                                    first,
                                    second: Box::new(child),
                                },
                                true,
                            )
                        }
                    } else {
                        match nudge_delta(orientation, direction, step) {
                            None => (self, false),
                            Some(delta) => {
                                let next = clamp_int(divider_position + delta, min as int, max as int);
                                if next == divider_position {
                                    (self, false)
                                } else {
                                    (
                                        LayoutView::Split {
                                            orientation,
                                            divider_position: next as u32,
                                            first,
                                            second,
                                        },
                                        true,
                                    )
                                }
                            },
                        }
                    }
                }
            },
        }
    }
}

/// The signed move of a split's divider for a direction, or `None` where
/// the direction runs along the split.
pub open spec fn nudge_delta(orientation: SplitOrientation, direction: FocusDirection, step: u32) -> Option<int> {
    match (orientation, direction) {
        (SplitOrientation::Horizontal, FocusDirection::Left) => Some(-step),
        (SplitOrientation::Horizontal, FocusDirection::Right) => Some(step as int),
        (SplitOrientation::Vertical, FocusDirection::Up) => Some(-step),
        (SplitOrientation::Vertical, FocusDirection::Down) => Some(step as int),
        _ => None,
    }
}

/// `x` held within `lo..=hi`.
pub open spec fn clamp_int(x: int, lo: int, hi: int) -> int {
    if x < lo {
        lo
    } else if x > hi {
        hi
    } else {
        x
    }
}

/// A concatenation holds exactly what its parts hold.
pub proof fn lemma_contains_concat(a: Seq<Id>, b: Seq<Id>, x: Id)
    ensures
        (a + b).contains(x) <==> (a.contains(x) || b.contains(x)),
{
    if a.contains(x) {
        let i = choose|i: int| 0 <= i < a.len() && a[i] == x;
        assert((a + b)[i] == x);
    }
    if b.contains(x) {
        let i = choose|i: int| 0 <= i < b.len() && b[i] == x;
        assert((a + b)[a.len() + i] == x);
    }
    if (a + b).contains(x) {
        let i = choose|i: int| 0 <= i < (a + b).len() && (a + b)[i] == x;
        if i < a.len() {
            assert(a[i] == x);
        } else {
            assert(b[i - a.len()] == x);
        }
    }
}

/// Selecting a panel that no pane holds leaves the tree as it is.
pub proof fn lemma_select_absent(t: LayoutView, panel_id: Id)
    requires
        !t.panels().contains(panel_id),
    ensures
        t.with_panel_selected(panel_id) == t,
    decreases t,
{
    match t {
        LayoutView::Pane { .. } => {},
        LayoutView::Split { first, second, .. } => {
            lemma_contains_concat(first.panels(), second.panels(), panel_id);
            lemma_select_absent(*second, panel_id);
        },
    }
}

/// Removing the first occurrence of `x` is removing at its first index.
pub proof fn lemma_remove_first_at(s: Seq<Id>, x: Id, i: int)
    requires
        0 <= i < s.len(),
        s[i] == x,
        forall|j: int| 0 <= j < i ==> s[j] != x,
    ensures
        remove_first(s, x) == s.remove(i),
    decreases s.len(),
{
    if i == 0 {
        assert(s.drop_first() =~= s.remove(0));
    } else {
        lemma_remove_first_at(s.drop_first(), x, i - 1);
        assert(seq![s[0]] + s.drop_first().remove(i - 1) =~= s.remove(i));
    }
}

/// Removing from a concatenation removes from the part that holds `x`
/// first.
pub proof fn lemma_remove_first_concat(a: Seq<Id>, b: Seq<Id>, x: Id)
    ensures
        a.contains(x) ==> remove_first(a + b, x) == remove_first(a, x) + b,
        !a.contains(x) ==> remove_first(a + b, x) == a + remove_first(b, x),
    decreases a.len(),
{
    if a.len() == 0 {
        assert(a + b =~= b);
    } else {
        assert((a + b).drop_first() =~= a.drop_first() + b);
        lemma_remove_first_concat(a.drop_first(), b, x);
        if a[0] != x {
            assert(a.contains(x) ==> a.drop_first().contains(x)) by {
                if a.contains(x) {
                    let i = choose|i: int| 0 <= i < a.len() && a[i] == x;
                    assert(a.drop_first()[i - 1] == x);
                }
            }
            assert(a.drop_first().contains(x) ==> a.contains(x)) by {
                if a.drop_first().contains(x) {
                    let i = choose|i: int| 0 <= i < a.drop_first().len() && a.drop_first()[i] == x;
                    assert(a[i + 1] == x);
                }
            }
            assert(seq![a[0]] + (remove_first(a.drop_first(), x) + b) =~= (seq![a[0]]
                + remove_first(a.drop_first(), x)) + b);
            assert(seq![a[0]] + (a.drop_first() + remove_first(b, x)) =~= a + remove_first(b, x));
        } else {
            assert(a.contains(x)) by {
                assert(a[0] == x);
            }
        }
    }
}

/// Removing a panel that no pane holds leaves the tree as it is.
pub proof fn lemma_remove_absent(t: LayoutView, panel_id: Id)
    requires
        !t.panels().contains(panel_id),
    ensures
        t.without_panel(panel_id) == t,
{
}

/// Removal takes out exactly the first occurrence of the panel from the
/// tree's panel sequence.
pub proof fn lemma_without_panel_panels(t: LayoutView, panel_id: Id)
    ensures
        t.without_panel(panel_id).panels() == remove_first(t.panels(), panel_id),
    decreases t,
{
    match t {
        LayoutView::Pane { .. } => {
            if !t.panels().contains(panel_id) {
                lemma_remove_first_absent(t.panels(), panel_id);
            }
        },
        LayoutView::Split { first, second, .. } => {
            lemma_contains_concat(first.panels(), second.panels(), panel_id);
            lemma_remove_first_concat(first.panels(), second.panels(), panel_id);
            if !t.panels().contains(panel_id) {
                lemma_remove_first_absent(t.panels(), panel_id);
            } else {
                lemma_without_panel_panels(*first, panel_id);
                lemma_without_panel_panels(*second, panel_id);
                let in_first = first.panels().contains(panel_id);
                let f = if in_first {
                    first.without_panel(panel_id)
                } else {
                    *first
                };
                let s = if in_first {
                    *second
                } else {
                    second.without_panel(panel_id)
                };
                lemma_no_panels(f);
                lemma_no_panels(s);
                assert(f.panels() + s.panels() == remove_first(t.panels(), panel_id));
                if f.no_panels() {
                    assert(f.panels() + s.panels() =~= s.panels());
                } else if s.no_panels() {
                    assert(f.panels() + s.panels() =~= f.panels());
                }
            }
        },
    }
}

/// Removing what a sequence does not hold leaves it as it is.
pub proof fn lemma_remove_first_absent(s: Seq<Id>, x: Id)
    requires
        !s.contains(x),
    ensures
        remove_first(s, x) == s,
    decreases s.len(),
{
    if s.len() > 0 {
        assert(s[0] != x);
        assert(!s.drop_first().contains(x)) by {
            if s.drop_first().contains(x) {
                let i = choose|i: int| 0 <= i < s.drop_first().len() && s.drop_first()[i] == x;
                assert(s[i + 1] == x);
            }
        }
        lemma_remove_first_absent(s.drop_first(), x);
        assert(seq![s[0]] + s.drop_first() =~= s);
    }
}

impl LayoutView {
    /// The tree split in two: the tree itself first, then a new pane of the
    /// given id holding only the new panel, selected; the divider stands in
    /// the middle.
    pub open spec fn split_with(self, orientation: SplitOrientation, panel_id: Id, pane_id: Id) -> LayoutView {
        LayoutView::Split {
            orientation,
            divider_position: DIVIDER_MIDDLE,
            first: Box::new(self),
            second: Box::new(
                LayoutView::Pane {
                    pane: PaneView { id: pane_id, panel_ids: seq![panel_id], selected_panel_id: Some(panel_id) },
                },
            ),
        }
    }

    /// The first pane node (in layout order) whose tabs hold the panel.
    pub open spec fn leaf_with_panel(self, panel_id: Id) -> Option<LayoutView>
        decreases self,
    {
        match self {
            LayoutView::Pane { pane } => if pane.panel_ids.contains(panel_id) {
                Some(self)
            } else {
                None
            },
            LayoutView::Split { first, second, .. } => match first.leaf_with_panel(panel_id) {
                Some(n) => Some(n),
                None => second.leaf_with_panel(panel_id),
            },
        }
    }

    /// The tree with the first pane node (in layout order) whose tabs hold
    /// the panel replaced by `n`.
    pub open spec fn with_leaf_for_panel(self, panel_id: Id, n: LayoutView) -> LayoutView
        decreases self,
    {
        match self {
            LayoutView::Pane { pane } => if pane.panel_ids.contains(panel_id) {
                n
            } else {
                self
            },
            LayoutView::Split { orientation, divider_position, first, second } => if first.leaf_with_panel(
                panel_id,
            ) is Some {
                LayoutView::Split {
                    orientation,
                    divider_position,
                    first: Box::new(first.with_leaf_for_panel(panel_id, n)),
                    second,
                }
            } else {
                LayoutView::Split {
                    orientation,
                    divider_position,
                    first,
                    second: Box::new(second.with_leaf_for_panel(panel_id, n)),
                }
            },
        }
    }
}

/// Putting back the pane a tree already holds leaves the tree as it is.
pub proof fn lemma_with_same_pane(t: LayoutView, pane_id: Id)
    requires
        t.pane_by_id(pane_id) is Some,
    ensures
        t.with_pane(pane_id, t.pane_by_id(pane_id)->0) == t,
    decreases t,
{
    match t {
        LayoutView::Pane { .. } => {},
        LayoutView::Split { first, second, .. } => {
            if first.pane_by_id(pane_id) is Some {
                lemma_with_same_pane(*first, pane_id);
            } else {
                lemma_with_same_pane(*second, pane_id);
            }
        },
    }
}

/// The first leaf holding a panel exists exactly where some pane holds it.
pub proof fn lemma_leaf_with_panel_pane_id(t: LayoutView, panel_id: Id)
    ensures
        (t.leaf_with_panel(panel_id) is Some) == (t.pane_id_with_panel(panel_id) is Some),
    decreases t,
{
    match t {
        LayoutView::Pane { .. } => {},
        LayoutView::Split { first, second, .. } => {
            lemma_leaf_with_panel_pane_id(*first, panel_id);
            lemma_leaf_with_panel_pane_id(*second, panel_id);
        },
    }
}

/// A tree reports no divider found only where it is left as it is.
pub proof fn lemma_divider_for_unchanged(t: LayoutView, a: Seq<Id>, b: Seq<Id>, position: u32)
    ensures
        !t.with_divider_for(a, b, position).1 ==> t.with_divider_for(a, b, position).0 == t,
    decreases t,
{
    match t {
        LayoutView::Pane { .. } => {},
        LayoutView::Split { first, second, .. } => {
            lemma_divider_for_unchanged(*first, a, b, position);
            lemma_divider_for_unchanged(*second, a, b, position);
        },
    }
}

/// A tree reports no divider moved only where it is left as it is.
pub proof fn lemma_divider_nudged_unchanged(
    t: LayoutView,
    pane_id: Id,
    direction: FocusDirection,
    step: u32,
    min: u32,
    max: u32,
)
    ensures
        !t.with_divider_nudged(pane_id, direction, step, min, max).1 ==> t.with_divider_nudged(
            pane_id,
            direction,
            step,
            min,
            max,
        ).0 == t,
    decreases t,
{
    match t {
        LayoutView::Pane { .. } => {},
        LayoutView::Split { first, second, .. } => {
            lemma_divider_nudged_unchanged(*first, pane_id, direction, step, min, max);
            lemma_divider_nudged_unchanged(*second, pane_id, direction, step, min, max);
        },
    }
}

/// Counting the occurrences of `x` from index `i` on.
pub proof fn lemma_count_of_step(s: Seq<Id>, x: Id, i: int)
    requires
        0 <= i < s.len(),
    ensures
        count_of(s.subrange(i, s.len() as int), x) == (if s[i] == x {
            1nat
        } else {
            0nat
        }) + count_of(s.subrange(i + 1, s.len() as int), x),
{
    assert(s.subrange(i, s.len() as int).drop_first() =~= s.subrange(i + 1, s.len() as int));
}

/// What a sequence does not hold it holds no times.
pub proof fn lemma_count_of_absent(s: Seq<Id>, x: Id)
    requires
        !s.contains(x),
    ensures
        count_of(s, x) == 0,
    decreases s.len(),
{
    if s.len() > 0 {
        assert(!s.drop_first().contains(x)) by {
            if s.drop_first().contains(x) {
                let i = choose|i: int| 0 <= i < s.drop_first().len() && s.drop_first()[i] == x;
                assert(s[i + 1] == x);
            }
        }
        lemma_count_of_absent(s.drop_first(), x);
    }
}

/// `no_panels` is the emptiness of `panels`.
pub proof fn lemma_no_panels(t: LayoutView)
    ensures
        t.no_panels() <==> t.panels().len() == 0,
    decreases t,
{
    match t {
        LayoutView::Pane { .. } => {},
        LayoutView::Split { first, second, .. } => {
            lemma_no_panels(*first);
            lemma_no_panels(*second);
        },
    }
}

/// Every tree has at least one pane.
pub proof fn lemma_panes_nonempty(t: LayoutView)
    ensures
        t.panes().len() > 0,
    decreases t,
{
    match t {
        LayoutView::Pane { .. } => {},
        LayoutView::Split { first, .. } => {
            lemma_panes_nonempty(*first);
        },
    }
}

/// A copy of a list of identities.
pub fn ids_copy(a: &Vec<Id>) -> (c: Vec<Id>)
    ensures
        c@ == a@,
{
    let mut c: Vec<Id> = Vec::new();
    let mut i: usize = 0;
    while i < a.len()
        invariant
            i <= a@.len(),
            c@ == a@.subrange(0, i as int),
        decreases a.len() - i,
    {
        c.push(a[i]);
        i = i + 1;
        proof {
            assert(c@ =~= a@.subrange(0, i as int));
        }
    }
    proof {
        assert(a@.subrange(0, a@.len() as int) =~= a@);
    }
    c
}

impl Pane {
    /// A copy of the pane, identity included.
    pub fn copy(&self) -> (c: Pane)
        ensures
            c@ == self@,
    {
        Pane { id: self.id, panel_ids: ids_copy(&self.panel_ids), selected_panel_id: self.selected_panel_id }
    }
}

impl LayoutNode {
    /// A copy of the tree, pane identities and divider positions included.
    pub fn copy(&self) -> (c: LayoutNode)
        ensures
            c@ == self@,
        decreases self,
    {
        match self {
            LayoutNode::Pane { pane } => LayoutNode::Pane { pane: pane.copy() },
            LayoutNode::Split { orientation, divider_position, first, second } => {
                let f = (**first).copy();
                let s = (**second).copy();
                LayoutNode::Split {
                    orientation: *orientation,
                    divider_position: *divider_position,
                    first: Box::new(f),
                    second: Box::new(s),
                }
            },
        }
    }
}

impl LayoutNode {
    /// Create a simple single-pane layout with one panel.
    pub fn single_pane(panel_id: Id) -> (node: Self)
        ensures
            node@ is Pane,
            node@->pane.panel_ids == seq![panel_id],
            node@->pane.selected_panel_id == Some(panel_id),
    {
        LayoutNode::Pane { pane: Pane::single_panel(panel_id) }
    }

    /// Split this node, placing the existing content in the first half
    /// and a new panel, in a new pane, in the second half; the divider
    /// stands in the middle.
    pub fn split(self, orientation: SplitOrientation, new_panel_id: Id) -> (node: Self)
        ensures
            node@ is Split,
            node@->orientation == orientation,
            node@->divider_position == DIVIDER_MIDDLE,
            *node@->first == self@,
            *node@->second is Pane,
            (*node@->second)->pane.panel_ids == seq![new_panel_id],
            (*node@->second)->pane.selected_panel_id == Some(new_panel_id),
            node@.panels() == self@.panels().push(new_panel_id),
            node@ == self@.split_with(orientation, new_panel_id, (*node@->second)->pane.id),
    {
        let second = LayoutNode::Pane { pane: Pane::single_panel(new_panel_id) };
        let ghost old_panels = self@.panels();
        assert(second@.panels() == seq![new_panel_id]);
        let node = LayoutNode::Split {
            orientation,
            divider_position: DIVIDER_MIDDLE,
            first: Box::new(self),
            second: Box::new(second),
        };
        proof {
            assert(node@.panels() =~= old_panels.push(new_panel_id));
        }
        node
    }

    /// Collect all panel IDs in this layout tree.
    pub fn all_panel_ids(&self) -> (ids: Vec<Id>)
        ensures
            ids@ == self@.panels(),
        decreases self,
    {
        match self {
            LayoutNode::Pane { pane } => pane.panel_ids.clone(),
            LayoutNode::Split { first, second, .. } => {
                let mut ids = first.all_panel_ids();
                let mut rest = second.all_panel_ids();
                ids.append(&mut rest);
                ids
            },
        }
    }

    /// Collect all pane IDs in layout order.
    pub fn all_pane_ids(&self) -> (ids: Vec<Id>)
        ensures
            ids@ == self@.panes(),
        decreases self,
    {
        match self {
            LayoutNode::Pane { pane } => {
                let mut ids: Vec<Id> = Vec::new();
                ids.push(pane.id);
                proof {
                    assert(ids@ =~= seq![pane.id]);
                }
                ids
            },
            LayoutNode::Split { first, second, .. } => {
                let mut ids = first.all_pane_ids();
                let mut rest = second.all_pane_ids();
                ids.append(&mut rest);
                ids
            },
        }
    }

    /// Find a pane by pane ID.
    pub fn find_pane(&self, pane_id: Id) -> (found: Option<&Pane>)
        ensures
            match found {
                Some(p) => self@.pane_by_id(pane_id) == Some(p@),
                None => self@.pane_by_id(pane_id) is None,
            },
        decreases self,
    {
        match self {
            LayoutNode::Pane { pane } => if pane.id == pane_id {
                Some(pane)
            } else {
                None
            },
            LayoutNode::Split { first, second, .. } => match first.find_pane(pane_id) {
                Some(p) => Some(p),
                None => second.find_pane(pane_id),
            },
        }
    }

    /// Find a pane by pane ID mutably.
    pub fn find_pane_mut(&mut self, pane_id: Id) -> (found: Option<&mut Pane>)
        ensures
            match found {
                Some(p) => {
                    &&& old(self)@.pane_by_id(pane_id) == Some(p@)
                    &&& final(self)@ == old(self)@.with_pane(pane_id, final(p)@)
                },
                None => {
                    &&& old(self)@.pane_by_id(pane_id) is None
                    &&& final(self)@ == old(self)@
                },
            },
        decreases *old(self),
    {
        match self {
            LayoutNode::Pane { pane } => if pane.id == pane_id {
                Some(pane)
            } else {
                None
            },
            LayoutNode::Split { first, second, .. } => {
                if first.find_pane(pane_id).is_some() {
                    first.find_pane_mut(pane_id)
                } else {
                    second.find_pane_mut(pane_id)
                }
            },
        }
    }

    /// Find the pane containing the given panel ID.
    pub fn find_pane_id_with_panel(&self, panel_id: Id) -> (found: Option<Id>)
        ensures
            found == self@.pane_id_with_panel(panel_id),
        decreases self,
    {
        match self {
            LayoutNode::Pane { pane } => if vec_contains(&pane.panel_ids, panel_id) {
                Some(pane.id)
            } else {
                None
            },
            LayoutNode::Split { first, second, .. } => match first.find_pane_id_with_panel(
                panel_id,
            ) {
                Some(p) => Some(p),
                None => second.find_pane_id_with_panel(panel_id),
            },
        }
    }

    /// Return the selected panel for a pane.
    pub fn selected_panel_for_pane(&self, pane_id: Id) -> (selected: Option<Id>)
        ensures
            selected == self@.selected_of_pane(pane_id),
        decreases self,
    {
        match self {
            LayoutNode::Pane { pane } => if pane.id == pane_id {
                pane.selected_panel_id
            } else {
                None
            },
            LayoutNode::Split { first, second, .. } => match first.selected_panel_for_pane(
                pane_id,
            ) {
                Some(p) => Some(p),
                None => second.selected_panel_for_pane(pane_id),
            },
        }
    }

    /// Select the given panel if it exists in this layout tree.
    pub fn select_panel(&mut self, panel_id: Id) -> (found: bool)
        ensures
            found == old(self)@.panels().contains(panel_id),
            final(self)@ == old(self)@.with_panel_selected(panel_id),
            !found ==> *final(self) == *old(self),
        decreases *old(self),
    {
        match self {
            LayoutNode::Pane { pane } => {
                if vec_contains(&pane.panel_ids, panel_id) {
                    pane.selected_panel_id = Some(panel_id);
                    true
                } else {
                    false
                }
            },
            LayoutNode::Split { first, second, .. } => {
                proof {
                    lemma_contains_concat(first@.panels(), second@.panels(), panel_id);
                }
                let ghost first_before = first@;
                if first.select_panel(panel_id) {
                    true
                } else {
                    proof {
                        lemma_select_absent(first_before, panel_id);
                    }
                    second.select_panel(panel_id)
                }
            },
        }
    }

    /// Select a pane and keep its current selected panel: reports whether
    /// the pane exists; the tree is left as it is.
    pub fn select_pane(&mut self, pane_id: Id) -> (found: bool)
        ensures
            found == (old(self)@.pane_by_id(pane_id) is Some),
            final(self)@ == old(self)@,
    {
        self.find_pane(pane_id).is_some()
    }

    /// The pane lying on the given edge of the tree.
    pub fn pane_on_edge(&self, edge: EdgePreference) -> (pane_id: Option<Id>)
        ensures
            pane_id == Some(self@.pane_on_edge(edge)),
        decreases self,
    {
        match self {
            LayoutNode::Pane { pane } => Some(pane.id),
            LayoutNode::Split { orientation, first, second, .. } => {
                if (*orientation == SplitOrientation::Horizontal && edge == EdgePreference::Right)
                    || (*orientation == SplitOrientation::Vertical && edge
                    == EdgePreference::Bottom) {
                    match second.pane_on_edge(edge) {
                        Some(id) => Some(id),
                        None => first.pane_on_edge(edge),
                    }
                } else {
                    match first.pane_on_edge(edge) {
                        Some(id) => Some(id),
                        None => second.pane_on_edge(edge),
                    }
                }
            },
        }
    }

    /// Path from the root to the pane containing the panel, if any.
    pub fn path_to_panel(&self, panel_id: Id) -> (path: Option<Vec<SplitPathStep>>)
        ensures
            match path {
                Some(p) => self@.path_to_panel(panel_id) == Some(p@),
                None => self@.path_to_panel(panel_id) is None,
            },
        decreases self,
    {
        match self {
            LayoutNode::Pane { pane } => {
                if vec_contains(&pane.panel_ids, panel_id) {
                    Some(Vec::new())
                } else {
                    None
                }
            },
            LayoutNode::Split { orientation, first, second, .. } => {
                if let Some(mut path) = first.path_to_panel(panel_id) {
                    let ghost rest = path@;
                    let step = SplitPathStep { orientation: *orientation, branch: SplitBranch::First };
                    path.insert(0, step);
                    proof {
                        assert(path@ =~= seq![step] + rest);
                    }
                    Some(path)
                } else if let Some(mut path) = second.path_to_panel(panel_id) {
                    let ghost rest = path@;
                    let step = SplitPathStep {
                        orientation: *orientation,
                        branch: SplitBranch::Second,
                    };
                    path.insert(0, step);
                    proof {
                        assert(path@ =~= seq![step] + rest);
                    }
                    Some(path)
                } else {
                    None
                }
            },
        }
    }

    /// Path from the root to the pane, if any.
    pub fn path_to_pane(&self, pane_id: Id) -> (path: Option<Vec<SplitPathStep>>)
        ensures
            match path {
                Some(p) => self@.path_to_pane(pane_id) == Some(p@),
                None => self@.path_to_pane(pane_id) is None,
            },
        decreases self,
    {
        match self {
            LayoutNode::Pane { pane } => {
                if pane.id == pane_id {
                    Some(Vec::new())
                } else {
                    None
                }
            },
            LayoutNode::Split { orientation, first, second, .. } => {
                if let Some(mut path) = first.path_to_pane(pane_id) {
                    let ghost rest = path@;
                    let step = SplitPathStep { orientation: *orientation, branch: SplitBranch::First };
                    path.insert(0, step);
                    proof {
                        assert(path@ =~= seq![step] + rest);
                    }
                    Some(path)
                } else if let Some(mut path) = second.path_to_pane(pane_id) {
                    let ghost rest = path@;
                    let step = SplitPathStep {
                        orientation: *orientation,
                        branch: SplitBranch::Second,
                    };
                    path.insert(0, step);
                    proof {
                        assert(path@ =~= seq![step] + rest);
                    }
                    Some(path)
                } else {
                    None
                }
            },
        }
    }

    /// Remove a panel from the layout. If a pane becomes empty, the split
    /// is collapsed. Returns true if the panel was found and removed.
    pub fn remove_panel(&mut self, panel_id: Id) -> (removed: bool)
        ensures
            removed == old(self)@.panels().contains(panel_id),
            final(self)@ == old(self)@.without_panel(panel_id),
        decreases *old(self),
    {
        let ghost before = self@;
        // 0: keep the node, 1: replace it by its second side, 2: by its first side
        let collapse: u8 = match self {
            LayoutNode::Pane { pane } => {
                match position_of(&pane.panel_ids, panel_id) {
                    Some(pos) => {
                        proof {
                            lemma_remove_first_at(pane.panel_ids@, panel_id, pos as int);
                        }
                        pane.panel_ids.remove(pos);
                        if pane.selected_panel_id == Some(panel_id) {
                            pane.selected_panel_id = if pane.panel_ids.len() > 0 {
                                Some(pane.panel_ids[0])
                            } else {
                                None
                            };
                        }
                        return true;
                    },
                    None => {
                        return false;
                    },
                }
            },
            LayoutNode::Split { first, second, .. } => {
                proof {
                    lemma_contains_concat(first@.panels(), second@.panels(), panel_id);
                }
                let removed = if first.remove_panel(panel_id) {
                    true
                } else {
                    second.remove_panel(panel_id)
                };
                if !removed {
                    return false;
                }
                if first.is_empty() {
                    1
                } else if second.is_empty() {
                    2
                } else {
                    0
                }
            },
        };
        if collapse != 0 {
            let mut old_node = LayoutNode::Pane {
                pane: Pane { id: 0, panel_ids: Vec::new(), selected_panel_id: None },
            };
            std::mem::swap(self, &mut old_node);
            match old_node {
                LayoutNode::Split { first, second, .. } => {
                    if collapse == 1 {
                        *self = *second;
                    } else {
                        *self = *first;
                    }
                },
                LayoutNode::Pane { pane } => {
                    *self = LayoutNode::Pane { pane };
                },
            }
        }
        true
    }

    /// Find the pane node containing the given panel ID and return a
    /// mutable reference to it.
    pub fn find_pane_with_panel(&mut self, panel_id: Id) -> (found: Option<&mut LayoutNode>)
        ensures
            match found {
                Some(n) => {
                    &&& old(self)@.leaf_with_panel(panel_id) == Some(n@)
                    &&& final(self)@ == old(self)@.with_leaf_for_panel(panel_id, final(n)@)
                },
                None => {
                    &&& old(self)@.leaf_with_panel(panel_id) is None
                    &&& final(self)@ == old(self)@
                },
            },
        decreases *old(self),
    {
        let holds = match self {
            LayoutNode::Pane { pane } => vec_contains(&pane.panel_ids, panel_id),
            LayoutNode::Split { .. } => false,
        };
        if holds {
            return Some(self);
        }
        match self {
            LayoutNode::Pane { .. } => None,
            LayoutNode::Split { first, second, .. } => {
                if first.find_pane_id_with_panel(panel_id).is_some() {
                    proof {
                        lemma_leaf_with_panel_pane_id(first@, panel_id);
                    }
                    first.find_pane_with_panel(panel_id)
                } else {
                    proof {
                        lemma_leaf_with_panel_pane_id(first@, panel_id);
                    }
                    second.find_pane_with_panel(panel_id)
                }
            },
        }
    }

    /// Update the divider position for the split identified by its child
    /// panel sets.
    pub fn set_divider_position_for_split(
        &mut self,
        first_panel_ids: &[Id],
        second_panel_ids: &[Id],
        divider_position: u32,
    ) -> (found: bool)
        ensures
            (final(self)@, found) == old(self)@.with_divider_for(
                first_panel_ids@,
                second_panel_ids@,
                divider_position,
            ),
        decreases *old(self),
    {
        match self {
            LayoutNode::Pane { .. } => false,
            LayoutNode::Split { divider_position: current, first, second, .. } => {
                let is_target = same_panel_set(first, first_panel_ids) && same_panel_set(
                    second,
                    second_panel_ids,
                );
                if is_target {
                    *current = if divider_position > DIVIDER_SCALE {
                        DIVIDER_SCALE
                    } else {
                        divider_position
                    };
                    true
                } else {
                    let ghost first_before = first@;
                    if first.set_divider_position_for_split(
                        first_panel_ids,
                        second_panel_ids,
                        divider_position,
                    ) {
                        true
                    } else {
                        proof {
                            lemma_divider_for_unchanged(
                                first_before,
                                first_panel_ids@,
                                second_panel_ids@,
                                divider_position,
                            );
                        }
                        second.set_divider_position_for_split(
                            first_panel_ids,
                            second_panel_ids,
                            divider_position,
                        )
                    }
                }
            },
        }
    }

    /// Nudge the divider of the pane's nearest enclosing split that lies
    /// across the direction (see `LayoutView::with_divider_nudged`).
    pub fn adjust_divider_for_pane(
        &mut self,
        pane_id: Id,
        direction: FocusDirection,
        step: u32,
        min: u32,
        max: u32,
    ) -> (moved: bool)
        requires
            min <= max,
        ensures
            (final(self)@, moved) == old(self)@.with_divider_nudged(
                pane_id,
                direction,
                step,
                min,
                max,
            ),
            !moved ==> *final(self) == *old(self),
        decreases *old(self),
    {
        match self {
            LayoutNode::Pane { .. } => false,
            LayoutNode::Split { orientation, divider_position, first, second } => {
                let in_first = first.find_pane(pane_id).is_some();
                let in_second = !in_first && second.find_pane(pane_id).is_some();
                if !in_first && !in_second {
                    return false;
                }
                let ghost first_before = first@;
                let ghost second_before = second@;
                let adjusted_child = if in_first {
                    first.adjust_divider_for_pane(pane_id, direction, step, min, max)
                } else {
                    second.adjust_divider_for_pane(pane_id, direction, step, min, max)
                };
                if adjusted_child {
                    return true;
                }
                proof {
                    lemma_divider_nudged_unchanged(first_before, pane_id, direction, step, min, max);
                    lemma_divider_nudged_unchanged(second_before, pane_id, direction, step, min, max);
                }
                let delta: i64 = match (*orientation, direction) {
                    (SplitOrientation::Horizontal, FocusDirection::Left) => -(step as i64),
                    (SplitOrientation::Horizontal, FocusDirection::Right) => step as i64,
                    (SplitOrientation::Vertical, FocusDirection::Up) => -(step as i64),
                    (SplitOrientation::Vertical, FocusDirection::Down) => step as i64,
                    _ => {
                        return false;
                    },
                };
                let raw: i64 = *divider_position as i64 + delta;
                let next: u32 = if raw < min as i64 {
                    min
                } else if raw > max as i64 {
                    max
                } else {
                    raw as u32
                };
                if *divider_position == next {
                    return false;
                }
                *divider_position = next;
                true
            },
        }
    }

    /// Check if this node contains no panels.
    pub fn is_empty(&self) -> (empty: bool)
        ensures
            empty == self@.no_panels(),
            empty == (self@.panels().len() == 0),
        decreases self,
    {
        proof {
            lemma_no_panels(self@);
        }
        match self {
            LayoutNode::Pane { pane } => pane.panel_ids.len() == 0,
            LayoutNode::Split { first, second, .. } => first.is_empty() && second.is_empty(),
        }
    }
}

/// How many times `v` holds `x`.
pub fn count_in(v: &[Id], x: Id) -> (n: usize)
    ensures
        n == count_of(v@, x),
{
    let mut i: usize = v.len();
    let mut n: usize = 0;
    proof {
        assert(v@.subrange(v@.len() as int, v@.len() as int) =~= Seq::<Id>::empty());
    }
    while i > 0
        invariant
            i <= v@.len(),
            n == count_of(v@.subrange(i as int, v@.len() as int), x),
            n <= v@.len() - i,
        decreases i,
    {
        proof {
            lemma_count_of_step(v@, x, i - 1);
        }
        if v[i - 1] == x {
            n = n + 1;
        }
        i = i - 1;
    }
    proof {
        assert(v@.subrange(0, v@.len() as int) =~= v@);
    }
    n
}

/// Whether the node's panels are exactly the expected ones, counted with
/// multiplicity and in any order.
fn same_panel_set(node: &LayoutNode, expected: &[Id]) -> (same: bool)
    ensures
        same == same_multiset(node@.panels(), expected@),
{
    let actual = node.all_panel_ids();
    let actual_slice = actual.as_slice();
    let mut i: usize = 0;
    while i < actual_slice.len()
        invariant
            actual_slice@ == node@.panels(),
            i <= actual_slice@.len(),
            forall|j: int|
                0 <= j < i ==> count_of(actual_slice@, #[trigger] actual_slice@[j]) == count_of(
                    expected@,
                    actual_slice@[j],
                ),
        decreases actual_slice.len() - i,
    {
        let x = actual_slice[i];
        if count_in(actual_slice, x) != count_in(expected, x) {
            return false;
        }
        i = i + 1;
    }
    let mut k: usize = 0;
    while k < expected.len()
        invariant
            actual_slice@ == node@.panels(),
            k <= expected@.len(),
            forall|j: int|
                0 <= j < actual_slice@.len() ==> count_of(actual_slice@, #[trigger] actual_slice@[j])
                    == count_of(expected@, actual_slice@[j]),
            forall|j: int|
                0 <= j < k ==> count_of(actual_slice@, #[trigger] expected@[j]) == count_of(
                    expected@,
                    expected@[j],
                ),
        decreases expected.len() - k,
    {
        let x = expected[k];
        if count_in(actual_slice, x) != count_in(expected, x) {
            return false;
        }
        k = k + 1;
    }
    proof {
        assert forall|x: Id| count_of(actual_slice@, x) == count_of(expected@, x) by {
            if actual_slice@.contains(x) {
                let j = choose|j: int| 0 <= j < actual_slice@.len() && actual_slice@[j] == x;
                assert(count_of(actual_slice@, actual_slice@[j]) == count_of(expected@, actual_slice@[j]));
            } else if expected@.contains(x) {
                let j = choose|j: int| 0 <= j < expected@.len() && expected@[j] == x;
                assert(count_of(actual_slice@, expected@[j]) == count_of(expected@, expected@[j]));
            } else {
                lemma_count_of_absent(actual_slice@, x);
                lemma_count_of_absent(expected@, x);
            }
        }
    }
    true
}

/// The first index at which `v` holds `x`.
pub fn position_of(v: &Vec<Id>, x: Id) -> (pos: Option<usize>)
    ensures
        match pos {
            Some(i) => i < v@.len() && v@[i as int] == x && forall|j: int|
                0 <= j < i ==> v@[j] != x,
            None => !v@.contains(x),
        },
{
    let mut i: usize = 0;
    while i < v.len()
        invariant
            i <= v.len(),
            forall|j: int| 0 <= j < i ==> v@[j] != x,
        decreases v.len() - i,
    {
        if v[i] == x {
            return Some(i);
        }
        i = i + 1;
    }
    None
}

/// Whether `v` holds `x`.
pub fn vec_contains(v: &Vec<Id>, x: Id) -> (found: bool)
    ensures
        found == v@.contains(x),
{
    let mut i: usize = 0;
    while i < v.len()
        invariant
            i <= v.len(),
            forall|j: int| 0 <= j < i ==> v@[j] != x,
        decreases v.len() - i,
    {
        if v[i] == x {
            return true;
        }
        i = i + 1;
    }
    false
}

/// The pane found under an identity has that identity.
pub proof fn lemma_pane_by_id_has_id(t: LayoutView, q: Id)
    ensures
        t.pane_by_id(q) matches Some(p) ==> p.id == q,
    decreases t,
{
    match t {
        LayoutView::Pane { .. } => {},
        LayoutView::Split { first, second, .. } => {
            lemma_pane_by_id_has_id(*first, q);
            lemma_pane_by_id_has_id(*second, q);
        },
    }
}

} // verus!

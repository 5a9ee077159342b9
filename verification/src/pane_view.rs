//! What a pane of the content area shows: nothing, one terminal, or the
//! tab pages of its panels.

use vstd::prelude::*;

use std::collections::HashMap;

use crate::ids::Id;
use crate::panel::Panel;

verus! {

broadcast use {vstd::std_specs::hash::group_hash_axioms, vstd::string::group_string_axioms};

/// A tab page of a pane.
#[derive(Debug)]
pub struct TabPage {
    pub panel_id: Id,
    /// The panel's display title.
    pub title: String,
    /// Whether the panel asks for attention.
    pub attention: bool,
}

/// What a pane shows.
#[derive(Debug)]
pub enum PaneContent {
    /// A placeholder: the pane has no tab.
    Empty,
    /// The terminal of the pane's only panel, marked where it asks for
    /// attention.
    Single { panel_id: Id, attention: bool },
    /// A placeholder: the pane's only panel has no record.
    Missing,
    /// A page per tab whose panel has a record, in tab order, and the tab
    /// to show.
    Tabs { pages: Vec<TabPage>, selected: Option<Id> },
}

/// The mathematical value of a tab page.
pub struct TabPageView {
    pub panel_id: Id,
    pub title: Seq<char>,
    pub attention: bool,
}

impl View for TabPage {
    type V = TabPageView;

    open spec fn view(&self) -> TabPageView {
        TabPageView { panel_id: self.panel_id, title: self.title@, attention: self.attention }
    }
}

impl DeepView for TabPage {
    type V = TabPageView;

    open spec fn deep_view(&self) -> TabPageView {
        self@
    }
}

/// The pages of the tabs whose panels have records, in tab order.
pub open spec fn pages_of(ids: Seq<Id>, panels: Map<Id, Panel>, attention: Option<Id>) -> Seq<TabPageView>
    decreases ids.len(),
{
    if ids.len() == 0 {
        Seq::empty()
    } else {
        let rest = pages_of(ids.drop_last(), panels, attention);
        let id = ids.last();
        if panels.contains_key(id) {
            rest.push(TabPageView { panel_id: id, title: panels[id]@.display_title(), attention: attention == Some(id) })
        } else {
            rest
        }
    }
}

impl PaneContent {
    /// The content that a pane of the tabs and selected tab shows.
    pub open spec fn shows(self, ids: Seq<Id>, selected: Option<Id>, panels: Map<Id, Panel>, attention: Option<Id>) -> bool {
        if ids.len() == 0 {
            self is Empty
        } else if ids.len() == 1 {
            if panels.contains_key(ids[0]) {
                self == PaneContent::Single { panel_id: ids[0], attention: attention == Some(ids[0]) }
            } else {
                self is Missing
            }
        } else {
            self matches PaneContent::Tabs { pages, selected: s } && pages.deep_view() == pages_of(ids, panels, attention) && s == selected
        }
    }
}

/// What a pane with the tabs and selected tab shows (see
/// `PaneContent::shows`).
pub fn pane_content(panel_ids: &Vec<Id>, selected: Option<Id>, panels: &HashMap<Id, Panel>, attention: Option<Id>) -> (c: PaneContent)
    ensures
        c.shows(panel_ids@, selected, panels@, attention),
{
    if panel_ids.len() == 0 {
        return PaneContent::Empty;
    }
    if panel_ids.len() == 1 {
        let id = panel_ids[0];
        return if panels.contains_key(&id) {
            PaneContent::Single { panel_id: id, attention: attention == Some(id) }
        } else {
            PaneContent::Missing
        };
    }
    let mut pages: Vec<TabPage> = Vec::new();
    let mut i: usize = 0;
    while i < panel_ids.len()
        invariant
            i <= panel_ids@.len(),
            pages.deep_view() == pages_of(panel_ids@.take(i as int), panels@, attention),
        decreases panel_ids.len() - i,
    {
        let id = panel_ids[i];
        proof {
            assert(panel_ids@.take(i + 1).drop_last() =~= panel_ids@.take(i as int));
            assert(panel_ids@.take(i + 1).last() == id);
        }
        match panels.get(&id) {
            Some(panel) => {
                pages.push(TabPage { panel_id: id, title: panel.display_title().to_owned(), attention: attention == Some(id) });
                proof {
                    assert(pages.deep_view() =~= pages_of(panel_ids@.take(i + 1), panels@, attention));
                }
            },
            None => {
                proof {
                    assert(pages.deep_view() =~= pages_of(panel_ids@.take(i + 1), panels@, attention));
                }
            },
        }
        i = i + 1;
    }
    proof {
        assert(panel_ids@.take(panel_ids@.len() as int) =~= panel_ids@);
    }
    PaneContent::Tabs { pages, selected }
}

} // verus!

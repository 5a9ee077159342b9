//! The UI thread's handling of a burst of events: inputs and closes are
//! carried out in order, while refreshes and focus requests are merged
//! into one refresh and one focus at the end.

use vstd::prelude::*;

use crate::commands::UiRequest;
use crate::ids::Id;

verus! {

/// An event for the UI thread.
#[derive(Debug, Clone)]
pub enum UiEvent {
    /// Rebuild the sidebar and the content area.
    Refresh,
    /// What a command asked of the UI.
    Request(UiRequest),
}

/// What the UI thread does with a burst of events.
#[derive(Debug)]
pub struct UiBatch {
    /// The inputs to send and the surfaces to close, in the order asked.
    pub immediate: Vec<UiRequest>,
    /// Whether to rebuild the UI once the burst is handled.
    pub refresh: bool,
    /// Whether to present the window.
    pub present_window: bool,
    /// The surface to focus last, and whether it asked to present the
    /// window.
    pub focus_surface: Option<(Id, bool)>,
}

/// The requests carried out at once, in order.
pub open spec fn immediate_of(es: Seq<UiEvent>) -> Seq<UiRequest>
    decreases es.len(),
{
    if es.len() == 0 {
        Seq::empty()
    } else {
        let rest = immediate_of(es.drop_last());
        match es.last() {
            UiEvent::Request(r) => if r is SendInput || r is CloseSurface {
                rest.push(r)
            } else {
                rest
            },
            UiEvent::Refresh => rest,
        }
    }
}

/// Whether an event asks for a refresh: a refresh or a surface focus.
pub open spec fn refreshes(e: UiEvent) -> bool {
    e is Refresh || (e matches UiEvent::Request(r) && r is FocusSurface)
}

/// Whether an event asks to present the window: a window focus, or a
/// surface focus that presents the window.
pub open spec fn presents(e: UiEvent) -> bool {
    e matches UiEvent::Request(r) && (r is FocusWindow || (r matches UiRequest::FocusSurface { present_window, .. } && present_window))
}

/// Whether the burst asks for a refresh.
pub open spec fn wants_refresh(es: Seq<UiEvent>) -> bool {
    exists|i: int| 0 <= i < es.len() && #[trigger] refreshes(es[i])
}

/// Whether the burst asks to present the window.
pub open spec fn wants_window(es: Seq<UiEvent>) -> bool {
    exists|i: int| 0 <= i < es.len() && #[trigger] presents(es[i])
}

/// The last surface focus of the burst.
pub open spec fn last_focus(es: Seq<UiEvent>) -> Option<(Id, bool)>
    decreases es.len(),
{
    if es.len() == 0 {
        None
    } else {
        match es.last() {
            UiEvent::Request(UiRequest::FocusSurface { panel_id, present_window }) => Some((panel_id, present_window)),
            _ => last_focus(es.drop_last()),
        }
    }
}

/// What the UI thread does with a burst of events (see `UiBatch`).
pub fn coalesce_ui_events(events: Vec<UiEvent>) -> (b: UiBatch)
    ensures
        b.immediate@ == immediate_of(events@),
        b.refresh == wants_refresh(events@),
        b.present_window == wants_window(events@),
        b.focus_surface == last_focus(events@),
{
    let ghost all = events@;
    let mut immediate: Vec<UiRequest> = Vec::new();
    let mut refresh = false;
    let mut present_window = false;
    let mut focus_surface: Option<(Id, bool)> = None;
    let mut rest = events;
    let ghost mut done: Seq<UiEvent> = Seq::empty();
    while rest.len() > 0
        invariant
            done.len() + rest@.len() == all.len(),
            done == all.take(done.len() as int),
            rest@ == all.skip(done.len() as int),
            immediate@ == immediate_of(done),
            refresh == wants_refresh(done),
            present_window == wants_window(done),
            focus_surface == last_focus(done),
        decreases rest@.len(),
    {
        let e = rest.remove(0);
        let ghost before = done;
        let ghost ge = e;
        proof {
            assert(e == all[done.len() as int]);
        }
        match e {
            UiEvent::Refresh => {
                refresh = true;
            },
            UiEvent::Request(r) => match r {
                UiRequest::FocusSurface { panel_id, present_window: present } => {
                    refresh = true;
                    focus_surface = Some((panel_id, present));
                    if present {
                        present_window = true;
                    }
                },
                UiRequest::FocusWindow => {
                    present_window = true;
                },
                other => {
                    immediate.push(other);
                },
            },
        }
        proof {
            done = done.push(ge);
            assert(done.drop_last() == before);
            assert(done =~= all.take(done.len() as int));
            assert(rest@ =~= all.skip(done.len() as int));
            let n = done.len() as int;
            if wants_refresh(before) {
                let k = choose|k: int| 0 <= k < before.len() && #[trigger] refreshes(before[k]);
                assert(done[k] == before[k]);
            }
            if wants_refresh(done) && !refreshes(done[n - 1]) {
                let k = choose|k: int| 0 <= k < n && #[trigger] refreshes(done[k]);
                assert(before[k] == done[k]);
            }
            if refreshes(done[n - 1]) {
                assert(refreshes(done[n - 1]));
            }
            if wants_window(before) {
                let k = choose|k: int| 0 <= k < before.len() && #[trigger] presents(before[k]);
                assert(done[k] == before[k]);
            }
            if wants_window(done) && !presents(done[n - 1]) {
                let k = choose|k: int| 0 <= k < n && #[trigger] presents(done[k]);
                assert(before[k] == done[k]);
            }
            if presents(done[n - 1]) {
                assert(presents(done[n - 1]));
            }
        }
    }
    proof {
        assert(done =~= all);
    }
    UiBatch { immediate, refresh, present_window, focus_surface }
}

} // verus!

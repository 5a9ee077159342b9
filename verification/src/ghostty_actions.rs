//! The reducer for runtime actions that the terminal engine reports: what
//! each action changes on the surface and in the workspace model.

use vstd::prelude::*;

use crate::ids::Id;
use crate::panel::opt_string_is;

verus! {

broadcast use vstd::string::group_string_axioms;

/// The size of a terminal cell, in pixels.
#[derive(Clone, Copy, Debug, Default, PartialEq, Eq, Structural)]
pub struct SurfaceCellSize {
    pub width_px: u32,
    pub height_px: u32,
}

/// The scrollbar of a terminal surface: rows in all, the first row shown
/// and the rows shown.
#[derive(Clone, Copy, Debug, Default, PartialEq, Eq, Structural)]
pub struct SurfaceScrollbarState {
    pub total: u64,
    pub offset: u64,
    pub len: u64,
}

/// How the last command of a terminal surface ended.
#[derive(Clone, Copy, Debug, Default, PartialEq, Eq, Structural)]
pub struct SurfaceCommandFinished {
    pub exit_code: Option<u8>,
    pub duration_ns: u64,
}

/// The action tags of the terminal engine that the model tells apart.
#[derive(Clone, Copy, Debug, PartialEq, Eq, Structural)]
pub enum ActionTag {
    SizeLimit,
    CellSize,
    Scrollbar,
    Render,
    SetTitle,
    Pwd,
    QuitTimer,
    ShowChildExited,
    CommandFinished,
    Other(u32),
}

/// What the model knows of the target of an action when it arrives.
#[derive(Clone, Debug, Default)]
pub struct GhosttyTargetSnapshot {
    pub panel_id: Option<Id>,
    pub focused_panel_id: Option<Id>,
    pub panel_title: Option<String>,
    pub panel_directory: Option<String>,
    pub workspace_process_title: Option<String>,
    pub workspace_current_directory: Option<String>,
    pub surface_title: Option<String>,
    pub surface_pwd: Option<String>,
    pub surface_cell_size: Option<SurfaceCellSize>,
    pub surface_scrollbar: Option<SurfaceScrollbarState>,
    pub surface_command_finished: Option<SurfaceCommandFinished>,
}

/// A runtime action of the terminal engine, decoded.
#[derive(Clone, Debug, PartialEq, Eq)]
pub enum GhosttyAction {
    Render,
    SetTitle { title: String },
    Pwd { pwd: String },
    CellSize { size: SurfaceCellSize },
    Scrollbar { state: SurfaceScrollbarState },
    CommandFinished { command: SurfaceCommandFinished },
    ShowChildExited { exit_code: i32, runtime_ms: u64 },
    SizeLimit { min_width: u32, min_height: u32, max_width: u32, max_height: u32 },
    QuitTimer { mode: u32 },
    Unknown { tag: u32 },
}

/// A change that an action asks for.
#[derive(Clone, Debug, PartialEq, Eq)]
pub enum GhosttyEffect {
    QueueRender,
    SetSurfaceTitle(String),
    SetSurfacePwd(String),
    SetSurfaceCellSize(SurfaceCellSize),
    SetSurfaceScrollbar(SurfaceScrollbarState),
    SetSurfaceCommandFinished(SurfaceCommandFinished),
    SyncPanelTitle { panel_id: Id, title: String },
    SyncPanelPwd { panel_id: Id, pwd: String },
}

/// How an action was taken.
#[derive(Clone, Copy, Debug, PartialEq, Eq, Structural)]
pub enum GhosttyActionDisposition {
    Applied,
    RecognizedNoop,
    Unknown,
}

/// The result of reducing an action.
#[derive(Clone, Debug, PartialEq, Eq)]
pub struct GhosttyActionOutcome {
    pub callback_result: bool,
    pub refresh_ui: bool,
    pub disposition: GhosttyActionDisposition,
    pub effects: Vec<GhosttyEffect>,
}

/// The mathematical value of a target snapshot.
pub struct TargetView {
    pub panel_id: Option<Id>,
    pub focused_panel_id: Option<Id>,
    pub panel_title: Option<Seq<char>>,
    pub panel_directory: Option<Seq<char>>,
    pub workspace_process_title: Option<Seq<char>>,
    pub workspace_current_directory: Option<Seq<char>>,
    pub surface_title: Option<Seq<char>>,
    pub surface_pwd: Option<Seq<char>>,
    pub surface_cell_size: Option<SurfaceCellSize>,
    pub surface_scrollbar: Option<SurfaceScrollbarState>,
    pub surface_command_finished: Option<SurfaceCommandFinished>,
}

/// The mathematical value of an action.
pub enum ActionView {
    Render,
    SetTitle { title: Seq<char> },
    Pwd { pwd: Seq<char> },
    CellSize { size: SurfaceCellSize },
    Scrollbar { state: SurfaceScrollbarState },
    CommandFinished { command: SurfaceCommandFinished },
    ShowChildExited,
    SizeLimit,
    QuitTimer,
    Unknown,
}

/// The mathematical value of an effect.
pub enum EffectView {
    QueueRender,
    SetSurfaceTitle(Seq<char>),
    SetSurfacePwd(Seq<char>),
    SetSurfaceCellSize(SurfaceCellSize),
    SetSurfaceScrollbar(SurfaceScrollbarState),
    SetSurfaceCommandFinished(SurfaceCommandFinished),
    SyncPanelTitle { panel_id: Id, title: Seq<char> },
    SyncPanelPwd { panel_id: Id, pwd: Seq<char> },
}

/// The mathematical value of an outcome.
pub struct OutcomeView {
    pub callback_result: bool,
    pub refresh_ui: bool,
    pub disposition: GhosttyActionDisposition,
    pub effects: Seq<EffectView>,
}

impl View for GhosttyTargetSnapshot {
    type V = TargetView;

    open spec fn view(&self) -> TargetView {
        TargetView {
            panel_id: self.panel_id,
            focused_panel_id: self.focused_panel_id,
            panel_title: self.panel_title.deep_view(),
            panel_directory: self.panel_directory.deep_view(),
            workspace_process_title: self.workspace_process_title.deep_view(),
            workspace_current_directory: self.workspace_current_directory.deep_view(),
            surface_title: self.surface_title.deep_view(),
            surface_pwd: self.surface_pwd.deep_view(),
            surface_cell_size: self.surface_cell_size,
            surface_scrollbar: self.surface_scrollbar,
            surface_command_finished: self.surface_command_finished,
        }
    }
}

impl View for GhosttyAction {
    type V = ActionView;

    open spec fn view(&self) -> ActionView {
        match self {
            GhosttyAction::Render => ActionView::Render,
            GhosttyAction::SetTitle { title } => ActionView::SetTitle { title: title@ },
            GhosttyAction::Pwd { pwd } => ActionView::Pwd { pwd: pwd@ },
            GhosttyAction::CellSize { size } => ActionView::CellSize { size: *size },
            GhosttyAction::Scrollbar { state } => ActionView::Scrollbar { state: *state },
            GhosttyAction::CommandFinished { command } => ActionView::CommandFinished { command: *command },
            GhosttyAction::ShowChildExited { .. } => ActionView::ShowChildExited,
            GhosttyAction::SizeLimit { .. } => ActionView::SizeLimit,
            GhosttyAction::QuitTimer { .. } => ActionView::QuitTimer,
            GhosttyAction::Unknown { .. } => ActionView::Unknown,
        }
    }
}

impl View for GhosttyEffect {
    type V = EffectView;

    open spec fn view(&self) -> EffectView {
        match self {
            GhosttyEffect::QueueRender => EffectView::QueueRender,
            GhosttyEffect::SetSurfaceTitle(t) => EffectView::SetSurfaceTitle(t@),
            GhosttyEffect::SetSurfacePwd(p) => EffectView::SetSurfacePwd(p@),
            GhosttyEffect::SetSurfaceCellSize(s) => EffectView::SetSurfaceCellSize(*s),
            GhosttyEffect::SetSurfaceScrollbar(s) => EffectView::SetSurfaceScrollbar(*s),
            GhosttyEffect::SetSurfaceCommandFinished(c) => EffectView::SetSurfaceCommandFinished(*c),
            GhosttyEffect::SyncPanelTitle { panel_id, title } => EffectView::SyncPanelTitle {
                panel_id: *panel_id,
                title: title@,
            },
            GhosttyEffect::SyncPanelPwd { panel_id, pwd } => EffectView::SyncPanelPwd {
                panel_id: *panel_id,
                pwd: pwd@,
            },
        }
    }
}

impl DeepView for GhosttyEffect {
    type V = EffectView;

    open spec fn deep_view(&self) -> EffectView {
        self@
    }
}

impl View for GhosttyActionOutcome {
    type V = OutcomeView;

    open spec fn view(&self) -> OutcomeView {
        OutcomeView {
            callback_result: self.callback_result,
            refresh_ui: self.refresh_ui,
            disposition: self.disposition,
            effects: self.effects.deep_view(),
        }
    }
}

/// The name the terminal engine gives an action tag.
pub open spec fn tag_name(tag: ActionTag) -> Seq<char> {
    match tag {
        ActionTag::SizeLimit => "SIZE_LIMIT"@,
        ActionTag::CellSize => "CELL_SIZE"@,
        ActionTag::Scrollbar => "SCROLLBAR"@,
        ActionTag::Render => "RENDER"@,
        ActionTag::SetTitle => "SET_TITLE"@,
        ActionTag::Pwd => "PWD"@,
        ActionTag::QuitTimer => "QUIT_TIMER"@,
        ActionTag::ShowChildExited => "SHOW_CHILD_EXITED"@,
        ActionTag::CommandFinished => "COMMAND_FINISHED"@,
        ActionTag::Other(_) => "UNKNOWN"@,
    }
}

/// The name the terminal engine gives an action tag.
pub fn action_tag_name(tag: ActionTag) -> (name: &'static str)
    ensures
        name@ == tag_name(tag),
{
    match tag {
        ActionTag::SizeLimit => "SIZE_LIMIT",
        ActionTag::CellSize => "CELL_SIZE",
        ActionTag::Scrollbar => "SCROLLBAR",
        ActionTag::Render => "RENDER",
        ActionTag::SetTitle => "SET_TITLE",
        ActionTag::Pwd => "PWD",
        ActionTag::QuitTimer => "QUIT_TIMER",
        ActionTag::ShowChildExited => "SHOW_CHILD_EXITED",
        ActionTag::CommandFinished => "COMMAND_FINISHED",
        ActionTag::Other(_) => "UNKNOWN",
    }
}


/// The outcome of an action that was applied.
pub open spec fn applied(refresh_ui: bool, effects: Seq<EffectView>) -> OutcomeView {
    OutcomeView {
        callback_result: true,
        refresh_ui,
        disposition: GhosttyActionDisposition::Applied,
        effects,
    }
}

/// The outcome of an action that is recognized and ignored.
pub open spec fn recognized_noop() -> OutcomeView {
    OutcomeView {
        callback_result: false,
        refresh_ui: false,
        disposition: GhosttyActionDisposition::RecognizedNoop,
        effects: Seq::empty(),
    }
}

/// The outcome of an action that is not recognized.
pub open spec fn unknown_outcome() -> OutcomeView {
    OutcomeView {
        callback_result: false,
        refresh_ui: false,
        disposition: GhosttyActionDisposition::Unknown,
        effects: Seq::empty(),
    }
}

/// Whether a reported title (or directory) must be synced to the
/// target's panel: the panel's own value differs, or the panel has the
/// focus and the workspace shows another value.
pub open spec fn needs_sync(
    s: TargetView,
    panel_value: Option<Seq<char>>,
    workspace_value: Option<Seq<char>>,
    v: Seq<char>,
) -> bool {
    match s.panel_id {
        Some(p) => panel_value != Some(v) || (s.focused_panel_id == Some(p) && workspace_value
            != Some(v)),
        None => false,
    }
}

/// What reducing the action on the snapshot gives: a render is queued; a
/// title or directory is set on the surface where it differs there and
/// synced to the panel where `needs_sync` says so (which asks for a UI
/// refresh); a cell size, scrollbar or finished command is set on the
/// surface where it differs there; child exit, size limit and quit timer
/// are recognized and ignored; other actions are unknown.
pub open spec fn reduced(s: TargetView, a: ActionView) -> OutcomeView {
    match a {
        ActionView::Render => applied(false, seq![EffectView::QueueRender]),
        ActionView::SetTitle { title } => {
            let surface = if s.surface_title != Some(title) {
                seq![EffectView::SetSurfaceTitle(title)]
            } else {
                Seq::empty()
            };
            let sync = needs_sync(s, s.panel_title, s.workspace_process_title, title);
            applied(
                sync,
                if sync {
                    surface.push(EffectView::SyncPanelTitle { panel_id: s.panel_id->0, title })
                } else {
                    surface
                },
            )
        },
        ActionView::Pwd { pwd } => {
            let surface = if s.surface_pwd != Some(pwd) {
                seq![EffectView::SetSurfacePwd(pwd)]
            } else {
                Seq::empty()
            };
            let sync = needs_sync(s, s.panel_directory, s.workspace_current_directory, pwd);
            applied(
                sync,
                if sync {
                    surface.push(EffectView::SyncPanelPwd { panel_id: s.panel_id->0, pwd })
                } else {
                    surface
                },
            )
        },
        ActionView::CellSize { size } => applied(
            false,
            if s.surface_cell_size != Some(size) {
                seq![EffectView::SetSurfaceCellSize(size)]
            } else {
                Seq::empty()
            },
        ),
        ActionView::Scrollbar { state } => applied(
            false,
            if s.surface_scrollbar != Some(state) {
                seq![EffectView::SetSurfaceScrollbar(state)]
            } else {
                Seq::empty()
            },
        ),
        ActionView::CommandFinished { command } => applied(
            false,
            if s.surface_command_finished != Some(command) {
                seq![EffectView::SetSurfaceCommandFinished(command)]
            } else {
                Seq::empty()
            },
        ),
        ActionView::ShowChildExited | ActionView::SizeLimit | ActionView::QuitTimer => recognized_noop(),
        ActionView::Unknown => unknown_outcome(),
    }
}

/// Reduce a runtime action against what the model knows of its target
/// (see `reduced`).
pub fn reduce_action(snapshot: &GhosttyTargetSnapshot, action: &GhosttyAction) -> (outcome: GhosttyActionOutcome)
    ensures
        outcome@ == reduced(snapshot@, action@),
{
    let ghost s = snapshot@;
    match action {
        GhosttyAction::Render => {
            let mut effects: Vec<GhosttyEffect> = Vec::new();
            effects.push(GhosttyEffect::QueueRender);
            proof {
                assert(effects.deep_view() =~= seq![EffectView::QueueRender]);
            }
            GhosttyActionOutcome {
                callback_result: true,
                refresh_ui: false,
                disposition: GhosttyActionDisposition::Applied,
                effects,
            }
        },
        GhosttyAction::SetTitle { title } => {
            let mut effects: Vec<GhosttyEffect> = Vec::new();
            let mut refresh_ui = false;
            if !opt_string_is(&snapshot.surface_title, title.as_str()) {
                effects.push(GhosttyEffect::SetSurfaceTitle(title.clone()));
            }
            let ghost surface = effects.deep_view();
            proof {
                assert(surface =~= (if s.surface_title != Some(title@) {
                    seq![EffectView::SetSurfaceTitle(title@)]
                } else {
                    Seq::empty()
                }));
            }
            if let Some(panel_id) = snapshot.panel_id {
                let workspace_needs_sync = snapshot.focused_panel_id == Some(panel_id)
                    && !opt_string_is(&snapshot.workspace_process_title, title.as_str());
                if !opt_string_is(&snapshot.panel_title, title.as_str()) || workspace_needs_sync {
                    effects.push(GhosttyEffect::SyncPanelTitle { panel_id, title: title.clone() });
                    refresh_ui = true;
                    proof {
                        assert(effects.deep_view() =~= surface.push(
                            EffectView::SyncPanelTitle { panel_id, title: title@ },
                        ));
                    }
                }
            }
            GhosttyActionOutcome {
                callback_result: true,
                refresh_ui,
                disposition: GhosttyActionDisposition::Applied,
                effects,
            }
        },
        GhosttyAction::Pwd { pwd } => {
            let mut effects: Vec<GhosttyEffect> = Vec::new();
            let mut refresh_ui = false;
            if !opt_string_is(&snapshot.surface_pwd, pwd.as_str()) {
                effects.push(GhosttyEffect::SetSurfacePwd(pwd.clone()));
            }
            let ghost surface = effects.deep_view();
            proof {
                assert(surface =~= (if s.surface_pwd != Some(pwd@) {
                    seq![EffectView::SetSurfacePwd(pwd@)]
                } else {
                    Seq::empty()
                }));
            }
            if let Some(panel_id) = snapshot.panel_id {
                let workspace_needs_sync = snapshot.focused_panel_id == Some(panel_id)
                    && !opt_string_is(&snapshot.workspace_current_directory, pwd.as_str());
                if !opt_string_is(&snapshot.panel_directory, pwd.as_str()) || workspace_needs_sync {
                    effects.push(GhosttyEffect::SyncPanelPwd { panel_id, pwd: pwd.clone() });
                    refresh_ui = true;
                    proof {
                        assert(effects.deep_view() =~= surface.push(
                            EffectView::SyncPanelPwd { panel_id, pwd: pwd@ },
                        ));
                    }
                }
            }
            GhosttyActionOutcome {
                callback_result: true,
                refresh_ui,
                disposition: GhosttyActionDisposition::Applied,
                effects,
            }
        },
        GhosttyAction::CellSize { size } => {
            let mut effects: Vec<GhosttyEffect> = Vec::new();
            if snapshot.surface_cell_size != Some(*size) {
                effects.push(GhosttyEffect::SetSurfaceCellSize(*size));
            }
            proof {
                assert(effects.deep_view() =~= (if s.surface_cell_size != Some(*size) {
                    seq![EffectView::SetSurfaceCellSize(*size)]
                } else {
                    Seq::empty()
                }));
            }
            GhosttyActionOutcome {
                callback_result: true,
                refresh_ui: false,
                disposition: GhosttyActionDisposition::Applied,
                effects,
            }
        },
        GhosttyAction::Scrollbar { state } => {
            let mut effects: Vec<GhosttyEffect> = Vec::new();
            if snapshot.surface_scrollbar != Some(*state) {
                effects.push(GhosttyEffect::SetSurfaceScrollbar(*state));
            }
            proof {
                assert(effects.deep_view() =~= (if s.surface_scrollbar != Some(*state) {
                    seq![EffectView::SetSurfaceScrollbar(*state)]
                } else {
                    Seq::empty()
                }));
            }
            GhosttyActionOutcome {
                callback_result: true,
                refresh_ui: false,
                disposition: GhosttyActionDisposition::Applied,
                effects,
            }
        },
        GhosttyAction::CommandFinished { command } => {
            let mut effects: Vec<GhosttyEffect> = Vec::new();
            if snapshot.surface_command_finished != Some(*command) {
                effects.push(GhosttyEffect::SetSurfaceCommandFinished(*command));
            }
            proof {
                assert(effects.deep_view() =~= (if s.surface_command_finished != Some(*command) {
                    seq![EffectView::SetSurfaceCommandFinished(*command)]
                } else {
                    Seq::empty()
                }));
            }
            GhosttyActionOutcome {
                callback_result: true,
                refresh_ui: false,
                disposition: GhosttyActionDisposition::Applied,
                effects,
            }
        },
        GhosttyAction::ShowChildExited { .. } | GhosttyAction::SizeLimit { .. } | GhosttyAction::QuitTimer { .. } => {
            let effects: Vec<GhosttyEffect> = Vec::new();
            proof {
                assert(effects.deep_view() =~= Seq::<EffectView>::empty());
            }
            GhosttyActionOutcome {
                callback_result: false,
                refresh_ui: false,
                disposition: GhosttyActionDisposition::RecognizedNoop,
                effects,
            }
        },
        GhosttyAction::Unknown { .. } => {
            let effects: Vec<GhosttyEffect> = Vec::new();
            proof {
                assert(effects.deep_view() =~= Seq::<EffectView>::empty());
            }
            GhosttyActionOutcome {
                callback_result: false,
                refresh_ui: false,
                disposition: GhosttyActionDisposition::Unknown,
                effects,
            }
        },
    }
}

/// Whether handling the action needs a surface to act on.
pub fn action_requires_surface(action: &GhosttyAction) -> (requires_surface: bool)
    ensures
        requires_surface == (action@ is SetTitle || action@ is Pwd || action@ is CellSize
            || action@ is Scrollbar || action@ is CommandFinished),
{
    match action {
        GhosttyAction::SetTitle { .. } | GhosttyAction::Pwd { .. } | GhosttyAction::CellSize { .. }
        | GhosttyAction::Scrollbar { .. } | GhosttyAction::CommandFinished { .. } => true,
        _ => false,
    }
}


/// What the application does after an action's effects are applied.
#[derive(Clone, Copy, Debug, PartialEq, Eq, Structural)]
pub enum ActionFollowUp {
    /// Refresh the UI (which also saves the session).
    RefreshUi,
    /// Save the session without a refresh.
    PersistSession,
    /// Nothing more.
    Nothing,
}

/// What follows an action: a UI refresh where the outcome asks for one,
/// else a session save for any action but a render or an unknown one.
pub fn follow_up(action: &GhosttyAction, outcome: &GhosttyActionOutcome) -> (next: ActionFollowUp)
    ensures
        next == (if outcome.refresh_ui {
            ActionFollowUp::RefreshUi
        } else if action@ is Render || action@ is Unknown {
            ActionFollowUp::Nothing
        } else {
            ActionFollowUp::PersistSession
        }),
{
    if outcome.refresh_ui {
        ActionFollowUp::RefreshUi
    } else {
        match action {
            GhosttyAction::Render | GhosttyAction::Unknown { .. } => ActionFollowUp::Nothing,
            _ => ActionFollowUp::PersistSession,
        }
    }
}

/// The target as it stands once an effect is carried out: the surface
/// takes the value, and a panel sync gives the target's panel the value,
/// which the workspace then shows where that panel has the focus.
pub open spec fn after_effect(s: TargetView, e: EffectView) -> TargetView {
    match e {
        EffectView::QueueRender => s,
        EffectView::SetSurfaceTitle(t) => TargetView { surface_title: Some(t), ..s },
        EffectView::SetSurfacePwd(p) => TargetView { surface_pwd: Some(p), ..s },
        EffectView::SetSurfaceCellSize(c) => TargetView { surface_cell_size: Some(c), ..s },
        EffectView::SetSurfaceScrollbar(c) => TargetView { surface_scrollbar: Some(c), ..s },
        EffectView::SetSurfaceCommandFinished(c) => TargetView { surface_command_finished: Some(c), ..s },
        EffectView::SyncPanelTitle { panel_id, title } => if s.panel_id == Some(panel_id) {
            TargetView {
                panel_title: Some(title),
                workspace_process_title: if s.focused_panel_id == Some(panel_id) {
                    Some(title)
                } else {
                    s.workspace_process_title
                },
                ..s
            }
        } else {
            s
        },
        EffectView::SyncPanelPwd { panel_id, pwd } => if s.panel_id == Some(panel_id) {
            TargetView {
                panel_directory: Some(pwd),
                workspace_current_directory: if s.focused_panel_id == Some(panel_id) {
                    Some(pwd)
                } else {
                    s.workspace_current_directory
                },
                ..s
            }
        } else {
            s
        },
    }
}

/// The target once the effects are carried out in order.
pub open spec fn after_effects(s: TargetView, es: Seq<EffectView>) -> TargetView
    decreases es.len(),
{
    if es.len() == 0 {
        s
    } else {
        after_effect(after_effects(s, es.drop_last()), es.last())
    }
}

/// An action's callback result is true exactly when the action was
/// applied.
pub proof fn lemma_callback_result_means_applied(s: TargetView, a: ActionView)
    ensures
        reduced(s, a).callback_result <==> reduced(s, a).disposition == GhosttyActionDisposition::Applied,
{
}

/// Only applied actions have effects.
pub proof fn lemma_no_effects_unless_applied(s: TargetView, a: ActionView)
    ensures
        reduced(s, a).disposition != GhosttyActionDisposition::Applied ==> reduced(s, a).effects.len() == 0,
{
}

/// A UI refresh is asked for exactly when the effects sync a panel, which
/// is then the last effect.
pub proof fn lemma_refresh_means_panel_sync(s: TargetView, a: ActionView)
    ensures
        reduced(s, a).refresh_ui <==> (reduced(s, a).effects.len() > 0 && (reduced(
            s,
            a,
        ).effects.last() is SyncPanelTitle || reduced(s, a).effects.last() is SyncPanelPwd)),
{
}

/// Once an action's effects are carried out, the same action again asks
/// for no change and no refresh (a render still queues one).
pub proof fn lemma_reduce_settles(s: TargetView, a: ActionView)
    requires
        !(a is Render),
    ensures
        reduced(after_effects(s, reduced(s, a).effects), a).effects.len() == 0,
        !reduced(after_effects(s, reduced(s, a).effects), a).refresh_ui,
{
    let es = reduced(s, a).effects;
    reveal_with_fuel(after_effects, 3);
    if es.len() == 2 {
        assert(es.drop_last().drop_last() =~= Seq::<EffectView>::empty());
    }
    if es.len() == 1 {
        assert(es.drop_last() =~= Seq::<EffectView>::empty());
    }
}

/// A reported working directory is applied and set on the surface exactly
/// where the surface shows another one. It is synced to the target's panel,
/// with a UI refresh, whenever the panel records another directory, focused
/// or not, and also where the panel has the focus and the workspace shows
/// another directory; otherwise nothing is synced and no refresh is asked.
/// Without a panel nothing is synced.
pub proof fn lemma_pwd_reported(s: TargetView, pwd: Seq<char>)
    ensures
        ({
            let o = reduced(s, ActionView::Pwd { pwd });
            &&& o.callback_result
            &&& o.effects.contains(EffectView::SetSurfacePwd(pwd)) <==> s.surface_pwd != Some(pwd)
            &&& (s.panel_id matches Some(p) && (s.panel_directory != Some(pwd)
                || (s.focused_panel_id == Some(p) && s.workspace_current_directory != Some(pwd))))
                ==> o.refresh_ui && o.effects.contains(EffectView::SyncPanelPwd { panel_id: s.panel_id->0, pwd })
            &&& !(s.panel_id matches Some(p) && (s.panel_directory != Some(pwd)
                || (s.focused_panel_id == Some(p) && s.workspace_current_directory != Some(pwd))))
                ==> !o.refresh_ui && forall|k: int| 0 <= k < o.effects.len() ==> !(#[trigger] o.effects[k] is SyncPanelPwd)
        }),
{
    let o = reduced(s, ActionView::Pwd { pwd });
    if o.effects.contains(EffectView::SetSurfacePwd(pwd)) {
        let k = choose|k: int| 0 <= k < o.effects.len() && o.effects[k] == EffectView::SetSurfacePwd(pwd);
    }
    if s.surface_pwd != Some(pwd) {
        assert(o.effects[0] == EffectView::SetSurfacePwd(pwd));
    }
    if o.refresh_ui {
        assert(o.effects[o.effects.len() - 1] == EffectView::SyncPanelPwd { panel_id: s.panel_id->0, pwd });
    }
}

/// A reported title is applied and set on the surface exactly where the
/// surface shows another one. It is synced to the target's panel, with a
/// UI refresh, whenever the panel records another title, focused or not,
/// and also where the panel has the focus and the workspace shows another
/// title; otherwise nothing is synced and no refresh is asked. Without a
/// panel nothing is synced.
pub proof fn lemma_title_reported(s: TargetView, title: Seq<char>)
    ensures
        ({
            let o = reduced(s, ActionView::SetTitle { title });
            &&& o.callback_result
            &&& o.effects.contains(EffectView::SetSurfaceTitle(title)) <==> s.surface_title != Some(title)
            &&& (s.panel_id matches Some(p) && (s.panel_title != Some(title)
                || (s.focused_panel_id == Some(p) && s.workspace_process_title != Some(title))))
                ==> o.refresh_ui && o.effects.contains(EffectView::SyncPanelTitle { panel_id: s.panel_id->0, title })
            &&& !(s.panel_id matches Some(p) && (s.panel_title != Some(title)
                || (s.focused_panel_id == Some(p) && s.workspace_process_title != Some(title))))
                ==> !o.refresh_ui && forall|k: int| 0 <= k < o.effects.len() ==> !(#[trigger] o.effects[k] is SyncPanelTitle)
        }),
{
    let o = reduced(s, ActionView::SetTitle { title });
    if o.effects.contains(EffectView::SetSurfaceTitle(title)) {
        let k = choose|k: int| 0 <= k < o.effects.len() && o.effects[k] == EffectView::SetSurfaceTitle(title);
    }
    if s.surface_title != Some(title) {
        assert(o.effects[0] == EffectView::SetSurfaceTitle(title));
    }
    if o.refresh_ui {
        assert(o.effects[o.effects.len() - 1] == EffectView::SyncPanelTitle { panel_id: s.panel_id->0, title });
    }
}

/// A cell size, scrollbar state or finished command is applied without a
/// UI refresh: its one effect sets it on the surface, and only where the
/// surface shows another value; nothing else happens.
pub proof fn lemma_surface_state_reported(s: TargetView, a: ActionView)
    requires
        a is CellSize || a is Scrollbar || a is CommandFinished,
    ensures
        ({
            let o = reduced(s, a);
            &&& o.callback_result
            &&& o.disposition == GhosttyActionDisposition::Applied
            &&& !o.refresh_ui
            &&& o.effects.len() <= 1
            &&& a matches ActionView::CellSize { size } ==> (o.effects.len() == 1 <==> s.surface_cell_size != Some(size))
                && (o.effects.len() == 1 ==> o.effects[0] == EffectView::SetSurfaceCellSize(size))
            &&& a matches ActionView::Scrollbar { state } ==> (o.effects.len() == 1 <==> s.surface_scrollbar != Some(state))
                && (o.effects.len() == 1 ==> o.effects[0] == EffectView::SetSurfaceScrollbar(state))
            &&& a matches ActionView::CommandFinished { command } ==> (o.effects.len() == 1
                <==> s.surface_command_finished != Some(command))
                && (o.effects.len() == 1 ==> o.effects[0] == EffectView::SetSurfaceCommandFinished(command))
        }),
{
}

/// A render queues one render, applied without a refresh; a child exit,
/// size limit or quit timer is recognized and does nothing; anything else
/// is unknown and does nothing.
pub proof fn lemma_other_actions(s: TargetView, a: ActionView)
    ensures
        a is Render ==> reduced(s, a).callback_result && reduced(s, a).disposition == GhosttyActionDisposition::Applied
            && !reduced(s, a).refresh_ui && reduced(s, a).effects == seq![EffectView::QueueRender],
        (a is ShowChildExited || a is SizeLimit || a is QuitTimer) ==> !reduced(s, a).callback_result
            && reduced(s, a).disposition == GhosttyActionDisposition::RecognizedNoop && !reduced(s, a).refresh_ui
            && reduced(s, a).effects.len() == 0,
        a is Unknown ==> !reduced(s, a).callback_result && reduced(s, a).disposition == GhosttyActionDisposition::Unknown
            && !reduced(s, a).refresh_ui && reduced(s, a).effects.len() == 0,
{
}

} // verus!

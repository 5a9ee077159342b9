//! What each v2 method does to the workspaces, and what it replies.

use vstd::prelude::*;

use crate::ids::{spec_uuid_text, Id};
use crate::panel::{opt_pr_copy, ShellState, Timestamp};
use crate::text::{opt_truncate, opt_truncated, opt_view, truncate_chars, truncate_str};
use crate::protocol::{
    at, is_opt_text, parse_metadata_block, parse_metadata_item, parse_ports, parse_pull_request_params,
    parse_pull_request_checks, parse_pull_request_state, parse_shell_state, block_params, item_params,
    ports_param, pr_params, pr_checks, pr_state, shell_state_param, js_text, pr_metadata_json,
    metadata_item_json, metadata_block_json, shell_state_json, is_pr_json, is_item_json, is_block_json, gives, fails_with, invalid_params, js_id, keys, member_of, not_found, parse_surface_param,
    parse_workspace_param, surface_value, uuid_value, workspace_value, ErrorInfo, JsonValue,
    Parsed,
};
use crate::tab_manager::{moved_seq, moved_selected, pinned_count, index_with_pane, lemma_index_with_pane_found, index_of_id, index_with_panel, lemma_index_of_id_found, lemma_index_with_panel_found, TabManager};
use crate::workspace_ops::{lemma_same_keys, ClearOutcome, item_index, block_index, cycled_index};
use crate::panel::PanelView;
use crate::protocol::{key_param, parse_metadata_key};
use vstd::string::StringExecFns;
use crate::workspace::{log_entry, log_after, status_after, status_entry, notification_summary_text, Workspace, Progress};
use crate::layout::SplitOrientation;
use crate::protocol::{parse_usize_param, usize_param, parse_uuid_param};

verus! {

/// The workspace and panel a report is about: the surface the request
/// names (which must lie in the workspace it names, if any), else the
/// focused panel of the workspace it names or of the selected one.
pub open spec fn report_target(ws: Seq<Workspace>, selection: Option<int>, params: JsonValue) -> Parsed<(Id, Id)> {
    match uuid_value(workspace_value(params)) {
        Err(()) => Err((invalid_params(), "Invalid workspace UUID"@)),
        Ok(workspace_id) => match surface_value(params) {
            Err(()) => Err((invalid_params(), "Invalid surface/panel UUID"@)),
            Ok(Some(panel_id)) => match index_with_panel(ws, panel_id) {
                None => Err((not_found(), "Surface not found"@)),
                Some(i) => match workspace_id {
                    Some(w) => if index_of_id(ws, w) is None {
                        Err((not_found(), "Workspace not found"@))
                    } else if w != ws[i].id {
                        Err((invalid_params(), "Surface does not belong to the specified workspace"@))
                    } else {
                        Ok((w, panel_id))
                    },
                    None => Ok((ws[i].id, panel_id)),
                },
            },
            Ok(None) => {
                let w = match workspace_id {
                    Some(w) => if index_of_id(ws, w) is None {
                        None
                    } else {
                        Some(w)
                    },
                    None => match selection {
                        Some(s) => Some(ws[s].id),
                        None => None,
                    },
                };
                match w {
                    None => if workspace_id is Some {
                        Err((not_found(), "Workspace not found"@))
                    } else {
                        Err((not_found(), "No workspace selected"@))
                    },
                    Some(w) => match ws[index_of_id(ws, w)->0].focused_panel_id {
                        None => Err((not_found(), "No focused surface"@)),
                        Some(p) => Ok((w, p)),
                    },
                }
            },
        },
    }
}

/// The workspace and panel a report is about (see `report_target`); the
/// workspace exists.
pub fn resolve_report_target(tm: &TabManager, params: &JsonValue) -> (r: Result<(Id, Id), ErrorInfo>)
    ensures
        match report_target(tm.workspaces@, tm.selection(), *params) {
            Ok(t) => r == Ok::<(Id, Id), ErrorInfo>(t) && index_of_id(tm.workspaces@, t.0) is Some,
            Err((code, message)) => fails_with_target(r, code, message),
        },
{
    let workspace_id = match parse_workspace_param(params) {
        Ok(v) => v,
        Err(()) => {
            return Err(ErrorInfo::new("invalid_params", "Invalid workspace UUID"));
        },
    };
    let panel_id = match parse_surface_param(params) {
        Ok(v) => v,
        Err(()) => {
            return Err(ErrorInfo::new("invalid_params", "Invalid surface/panel UUID"));
        },
    };
    if let Some(panel_id) = panel_id {
        proof {
            lemma_index_with_panel_found(tm.workspaces@, panel_id);
        }
        let found = match tm.find_workspace_with_panel(panel_id) {
            Some(w) => w.id,
            None => {
                return Err(ErrorInfo::new("not_found", "Surface not found"));
            },
        };
        proof {
            lemma_index_of_id_found(tm.workspaces@, found);
            let i = index_with_panel(tm.workspaces@, panel_id)->0;
            assert(index_of_id(tm.workspaces@, found) is Some) by {
                lemma_index_of_id_total(tm.workspaces@, i);
            }
        }
        if let Some(workspace_id) = workspace_id {
            if tm.workspace(workspace_id).is_none() {
                return Err(ErrorInfo::new("not_found", "Workspace not found"));
            }
            if workspace_id != found {
                return Err(ErrorInfo::new("invalid_params", "Surface does not belong to the specified workspace"));
            }
            return Ok((workspace_id, panel_id));
        }
        return Ok((found, panel_id));
    }
    let workspace_id = match workspace_id {
        Some(w) => {
            if tm.workspace(w).is_none() {
                return Err(ErrorInfo::new("not_found", "Workspace not found"));
            }
            w
        },
        None => match tm.selected_id() {
            Some(w) => {
                proof {
                    lemma_index_of_id_total(tm.workspaces@, tm.selection()->0);
                }
                w
            },
            None => {
                return Err(ErrorInfo::new("not_found", "No workspace selected"));
            },
        },
    };
    proof {
        lemma_index_of_id_found(tm.workspaces@, workspace_id);
    }
    let focused = match tm.workspace(workspace_id) {
        Some(w) => w.focused_panel_id,
        None => None,
    };
    match focused {
        None => Err(ErrorInfo::new("not_found", "No focused surface")),
        Some(p) => Ok((workspace_id, p)),
    }
}

/// Whether a target resolution failed with the code and message.
pub open spec fn fails_with_target(r: Result<(Id, Id), ErrorInfo>, code: Seq<char>, message: Seq<char>) -> bool {
    r matches Err(e) && e.is(code, message)
}

/// The id of a listed workspace is found.
pub proof fn lemma_index_of_id_total(ws: Seq<Workspace>, i: int)
    requires
        0 <= i < ws.len(),
    ensures
        index_of_id(ws, ws[i].id) is Some,
    decreases ws.len(),
{
    if i < ws.len() - 1 {
        lemma_index_of_id_total(ws.drop_last(), i);
    }
}


/// What a command did: its reply, and whether the UI is to be refreshed
/// (which also saves the session).
#[derive(Debug)]
pub struct Handled {
    pub reply: Result<JsonValue, ErrorInfo>,
    pub refresh: bool,
    /// The workspace whose notifications the command marked read.
    pub read: Option<Id>,
    /// The event the command asks the UI to handle.
    pub ui: Option<UiRequest>,
    /// The notification the command asks to record (and to show on the
    /// desktop, where it says so).
    pub notice: Option<Notice>,
}

/// A notification to record in the notification list.
#[derive(Debug, Clone)]
pub struct Notice {
    pub title: String,
    pub body: String,
    pub workspace_id: Id,
    pub panel_id: Option<Id>,
    /// Whether to show it on the desktop too.
    pub send_desktop: bool,
}

/// An event for the UI thread.
#[derive(Debug, Clone)]
pub enum UiRequest {
    FocusWindow,
    SendInput { panel_id: Id, text: String },
    FocusSurface { panel_id: Id, present_window: bool },
    CloseSurface { panel_id: Id },
}

impl Handled {
    /// A reply that asks for nothing else.
    pub open spec fn plain(self) -> bool {
        self.read is None && self.ui is None && self.notice is None
    }
}

impl TabManager {
    /// Nothing changed from `old`.
    pub open spec fn unchanged(self, old: Self) -> bool {
        self.workspaces@ == old.workspaces@ && self.selected == old.selected
    }

    /// Only the workspace at the index may differ from `old`.
    pub open spec fn updated_at(self, old: Self, i: int) -> bool {
        &&& 0 <= i < old.workspaces@.len()
        &&& self.workspaces@ == old.workspaces@.update(i, self.workspaces@[i])
        &&& self.selected == old.selected
    }
}

/// Whether a command failed with the code and message, changing nothing.
pub open spec fn refused(h: Handled, tm: TabManager, old: TabManager, code: Seq<char>, message: Seq<char>) -> bool {
    fails_with(h.reply, code, message) && !h.refresh && h.plain() && tm.unchanged(old)
}

/// The acknowledgement of a report: `{"ok": true, "workspace_id": ..,
/// "surface": ..}`.
pub open spec fn report_ack(v: JsonValue, w: Id, p: Id) -> bool {
    &&& keys(v).take(3) == seq!["ok"@, "workspace_id"@, "surface"@]
    &&& at(v, 0) == JsonValue::Bool(true)
    &&& at(v, 1).text() == Some(spec_uuid_text(w))
    &&& at(v, 2).text() == Some(spec_uuid_text(p))
}

/// The acknowledgement of a report with one more member.
pub open spec fn report_ack_with(v: JsonValue, w: Id, p: Id, key: Seq<char>) -> bool {
    &&& report_ack(v, w, p)
    &&& keys(v).len() == 4
    &&& keys(v)[3] == key
}

/// `{"ok": true, "workspace_id": .., "surface": ..}`, and the extra
/// member where given.
fn ack(w: Id, p: Id, extra: Option<(String, JsonValue)>) -> (v: JsonValue)
    ensures
        report_ack(v, w, p),
        match extra {
            None => keys(v).len() == 3,
            Some(e) => keys(v).len() == 4 && keys(v)[3] == e.0@ && at(v, 3) == e.1,
        },
{
    let mut es: Vec<(String, JsonValue)> = Vec::new();
    es.push(member_of("ok", JsonValue::Bool(true)));
    es.push(member_of("workspace_id", js_id(w)));
    es.push(member_of("surface", js_id(p)));
    match extra {
        Some(e) => es.push(e),
        None => {},
    }
    let v = JsonValue::Object(es);
    proof {
        assert(keys(v).take(3) =~= seq!["ok"@, "workspace_id"@, "surface"@]);
    }
    v
}

/// Whether `is_dirty` is set (a missing or non-boolean value reads as
/// not set).
pub open spec fn dirty_flag(params: JsonValue) -> bool {
    match params.field("is_dirty"@) {
        Some(v) => match v.boolean() {
            Some(b) => b,
            None => false,
        },
        None => false,
    }
}


/// `workspace.report_git_branch`: record the `branch` (required) and
/// `is_dirty` of the report's panel (see `report_target`).
pub fn report_git_branch(tm: &mut TabManager, params: &JsonValue) -> (h: Handled)
    ensures
        report_git_branch_done(*old(tm), *final(tm), *params, h),
{
    let (w, p) = match resolve_report_target(tm, params) {
        Ok(t) => t,
        Err(e) => {
            return Handled { reply: Err(e), refresh: false, read: None, ui: None, notice: None };
        },
    };
    let branch = match params.str_field("branch") {
        Some(b) => b,
        None => {
            return Handled { reply: Err(ErrorInfo::new("invalid_params", "Provide 'branch'")), refresh: false, read: None, ui: None, notice: None };
        },
    };
    let is_dirty = match params.get("is_dirty") {
        Some(v) => match v.as_bool() {
            Some(b) => b,
            None => false,
        },
        None => false,
    };
    proof {
        lemma_index_of_id_found(tm.workspaces@, w);
    }
    let updated = match tm.workspace_mut(w) {
        Some(ws) => ws.set_panel_git_branch(p, branch, is_dirty),
        None => false,
    };
    Handled { reply: Ok(ack(w, p, None)), refresh: updated, read: None, ui: None, notice: None }
}

/// `workspace.clear_git_branch`: forget the git branch of the report's
/// panel (see `report_target`).
pub fn clear_git_branch(tm: &mut TabManager, params: &JsonValue) -> (h: Handled)
    ensures
        clear_git_branch_done(*old(tm), *final(tm), *params, h),
{
    let (w, p) = match resolve_report_target(tm, params) {
        Ok(t) => t,
        Err(e) => {
            return Handled { reply: Err(e), refresh: false, read: None, ui: None, notice: None };
        },
    };
    proof {
        lemma_index_of_id_found(tm.workspaces@, w);
    }
    let updated = match tm.workspace_mut(w) {
        Some(ws) => ws.clear_panel_git_branch(p),
        None => false,
    };
    Handled { reply: Ok(ack(w, p, None)), refresh: updated, read: None, ui: None, notice: None }
}

/// `workspace.clear_ports`: forget the ports of the report's panel (see
/// `report_target`).
pub fn clear_ports(tm: &mut TabManager, params: &JsonValue) -> (h: Handled)
    ensures
        clear_ports_done(*old(tm), *final(tm), *params, h),
{
    let (w, p) = match resolve_report_target(tm, params) {
        Ok(t) => t,
        Err(e) => {
            return Handled { reply: Err(e), refresh: false, read: None, ui: None, notice: None };
        },
    };
    proof {
        lemma_index_of_id_found(tm.workspaces@, w);
    }
    let updated = match tm.workspace_mut(w) {
        Some(ws) => ws.clear_panel_ports(p),
        None => false,
    };
    Handled { reply: Ok(ack(w, p, None)), refresh: updated, read: None, ui: None, notice: None }
}

/// `workspace.clear_pr`: forget the pull request of the report's panel
/// (see `report_target`).
pub fn clear_pr(tm: &mut TabManager, params: &JsonValue) -> (h: Handled)
    ensures
        clear_pr_done(*old(tm), *final(tm), *params, h),
{
    let (w, p) = match resolve_report_target(tm, params) {
        Ok(t) => t,
        Err(e) => {
            return Handled { reply: Err(e), refresh: false, read: None, ui: None, notice: None };
        },
    };
    proof {
        lemma_index_of_id_found(tm.workspaces@, w);
    }
    let updated = match tm.workspace_mut(w) {
        Some(ws) => ws.clear_panel_pr_metadata(p),
        None => false,
    };
    Handled { reply: Ok(ack(w, p, None)), refresh: updated, read: None, ui: None, notice: None }
}


/// `workspace.report_pwd`: record the `path` (required, cut to 4096
/// bytes) as the directory of the report's panel (see `report_target`);
/// the reply echoes it as `path`.
pub fn report_pwd(tm: &mut TabManager, params: &JsonValue) -> (h: Handled)
    ensures
        report_pwd_done(*old(tm), *final(tm), *params, h),
{
    let (w, p) = match resolve_report_target(tm, params) {
        Ok(t) => t,
        Err(e) => {
            return Handled { reply: Err(e), refresh: false, read: None, ui: None, notice: None };
        },
    };
    let path = match params.str_field("path") {
        Some(v) => truncate_str(v, 4096),
        None => {
            return Handled { reply: Err(ErrorInfo::new("invalid_params", "Provide 'path'")), refresh: false, read: None, ui: None, notice: None };
        },
    };
    proof {
        lemma_index_of_id_found(tm.workspaces@, w);
    }
    let updated = match tm.workspace_mut(w) {
        Some(ws) => ws.set_panel_directory(p, path),
        None => false,
    };
    Handled { reply: Ok(ack(w, p, Some(member_of("path", js_text(path))))), refresh: updated, read: None, ui: None, notice: None }
}

/// `workspace.report_shell_state`: record the `state` (`prompt` or
/// `running`, required) and `label` of the report's panel (see
/// `report_target`); the reply echoes them as `shell_state`, the label as
/// given.
pub fn report_shell_state(tm: &mut TabManager, params: &JsonValue) -> (h: Handled)
    ensures
        report_shell_state_done(*old(tm), *final(tm), *params, h),
{
    let (w, p) = match resolve_report_target(tm, params) {
        Ok(t) => t,
        Err(e) => {
            return Handled { reply: Err(e), refresh: false, read: None, ui: None, notice: None };
        },
    };
    let state = match parse_shell_state(params) {
        Ok(st) => st,
        Err(e) => {
            return Handled { reply: Err(e), refresh: false, read: None, ui: None, notice: None };
        },
    };
    let label = params.str_field("label");
    proof {
        lemma_index_of_id_found(tm.workspaces@, w);
    }
    let updated = match tm.workspace_mut(w) {
        Some(ws) => ws.set_panel_shell_state(p, state, label),
        None => false,
    };
    let echo = ShellState { state, label: match label { Some(l) => Some(l.to_owned()), None => None } };
    Handled { reply: Ok(ack(w, p, Some(member_of("shell_state", shell_state_json(&echo))))), refresh: updated, read: None, ui: None, notice: None }
}

/// A JSON array of port numbers.
fn ports_json(ports: &Vec<u16>) -> (v: JsonValue)
    ensures
        is_ports_json(v, ports@),
{
    let mut a: Vec<JsonValue> = Vec::new();
    let mut i: usize = 0;
    while i < ports.len()
        invariant
            i <= ports@.len(),
            a@.len() == i,
            forall|k: int| 0 <= k < i ==> #[trigger] a@[k] == JsonValue::UInt(ports@[k] as u64),
        decreases ports.len() - i,
    {
        a.push(JsonValue::UInt(ports[i] as u64));
        i = i + 1;
    }
    JsonValue::Array(a)
}

/// `workspace.report_ports`: record the `ports` (see `ports_param`) the
/// report's panel listens on (see `report_target`); the reply echoes them.
pub fn report_ports(tm: &mut TabManager, params: &JsonValue) -> (h: Handled)
    ensures
        report_ports_done(*old(tm), *final(tm), *params, h),
{
    let (w, p) = match resolve_report_target(tm, params) {
        Ok(t) => t,
        Err(e) => {
            return Handled { reply: Err(e), refresh: false, read: None, ui: None, notice: None };
        },
    };
    let ports = match parse_ports(params) {
        Ok(v) => v,
        Err(e) => {
            return Handled { reply: Err(e), refresh: false, read: None, ui: None, notice: None };
        },
    };
    let echo = ports_json(&ports);
    proof {
        lemma_index_of_id_found(tm.workspaces@, w);
    }
    let updated = match tm.workspace_mut(w) {
        Some(ws) => ws.set_panel_ports(p, ports),
        None => false,
    };
    Handled { reply: Ok(ack(w, p, Some(member_of("ports", echo)))), refresh: updated, read: None, ui: None, notice: None }
}

/// `workspace.report_tty`: record the `tty_name` (required) of the
/// report's panel (see `report_target`); the reply echoes it cut to 512
/// bytes.
pub fn report_tty(tm: &mut TabManager, params: &JsonValue) -> (h: Handled)
    ensures
        report_tty_done(*old(tm), *final(tm), *params, h),
{
    let (w, p) = match resolve_report_target(tm, params) {
        Ok(t) => t,
        Err(e) => {
            return Handled { reply: Err(e), refresh: false, read: None, ui: None, notice: None };
        },
    };
    let tty = match params.str_field("tty_name") {
        Some(v) => v,
        None => {
            return Handled { reply: Err(ErrorInfo::new("invalid_params", "Provide 'tty_name'")), refresh: false, read: None, ui: None, notice: None };
        },
    };
    proof {
        lemma_index_of_id_found(tm.workspaces@, w);
    }
    let updated = match tm.workspace_mut(w) {
        Some(ws) => ws.set_panel_tty(p, tty),
        None => false,
    };
    Handled { reply: Ok(ack(w, p, Some(member_of("tty_name", js_text(truncate_str(tty, 512)))))), refresh: updated, read: None, ui: None, notice: None }
}

/// `workspace.report_pr`: record the pull request the parameters give
/// (see `pr_params`, default label `PR`) for the report's panel (see
/// `report_target`); the reply echoes it as `pr`.
pub fn report_pr(tm: &mut TabManager, params: &JsonValue) -> (h: Handled)
    ensures
        report_pr_done(*old(tm), *final(tm), *params, h),
{
    let (w, p) = match resolve_report_target(tm, params) {
        Ok(t) => t,
        Err(e) => {
            return Handled { reply: Err(e), refresh: false, read: None, ui: None, notice: None };
        },
    };
    let metadata = match parse_pull_request_params(params, "PR") {
        Ok(m) => m,
        Err(e) => {
            return Handled { reply: Err(e), refresh: false, read: None, ui: None, notice: None };
        },
    };
    let echo = pr_metadata_json(&metadata);
    proof {
        lemma_index_of_id_found(tm.workspaces@, w);
    }
    let updated = match tm.workspace_mut(w) {
        Some(ws) => ws.set_panel_pr_metadata(p, metadata),
        None => false,
    };
    Handled { reply: Ok(ack(w, p, Some(member_of("pr", echo)))), refresh: updated, read: None, ui: None, notice: None }
}

/// The number of a review: none where absent or not a non-negative
/// integer; an error where it is 0 or does not fit a `u32`.
pub open spec fn review_number(params: JsonValue) -> Parsed<Option<u32>> {
    match params.field("number"@) {
        Some(v) => match v.unsigned() {
            Some(n) => if n == 0 || n > u32::MAX {
                Err((invalid_params(), "Invalid review number"@))
            } else {
                Ok(Some(n as u32))
            },
            None => Ok(None),
        },
        None => Ok(None),
    }
}

/// `workspace.report_review`: record a review of the pull request of the
/// report's panel (see `report_target` and `Workspace::set_panel_review`):
/// label (default `MR`), state, checks, number, URL and title; the reply
/// gives the panel's pull request as it then stands, as `pr`.
pub fn report_review(tm: &mut TabManager, params: &JsonValue) -> (h: Handled)
    ensures
        report_review_done(*old(tm), *final(tm), *params, h),
{
    let (w, p) = match resolve_report_target(tm, params) {
        Ok(t) => t,
        Err(e) => {
            return Handled { reply: Err(e), refresh: false, read: None, ui: None, notice: None };
        },
    };
    let label = match params.str_field("label") {
        Some(l) => l,
        None => "MR",
    };
    let state = match parse_pull_request_state(params.get("state")) {
        Ok(st) => st,
        Err(e) => {
            return Handled { reply: Err(e), refresh: false, read: None, ui: None, notice: None };
        },
    };
    let checks = match parse_pull_request_checks(params.get("checks")) {
        Ok(c) => c,
        Err(e) => {
            return Handled { reply: Err(e), refresh: false, read: None, ui: None, notice: None };
        },
    };
    let raw_number = match params.get("number") {
        Some(v) => v.as_u64(),
        None => None,
    };
    let number = match raw_number {
        Some(n) => if n == 0 || n > 4294967295u64 {
            return Handled { reply: Err(ErrorInfo::new("invalid_params", "Invalid review number")), refresh: false, read: None, ui: None, notice: None };
        } else {
            Some(n as u32)
        },
        None => None,
    };
    let url = params.str_field("url");
    let title = params.str_field("title");
    proof {
        lemma_index_of_id_found(tm.workspaces@, w);
    }
    let (updated, pr) = match tm.workspace_mut(w) {
        Some(ws) => {
            let updated = ws.set_panel_review(p, label, state, checks, number, url, title);
            let pr = match ws.panel(p) {
                Some(panel) => opt_pr_copy(&panel.pr_metadata),
                None => None,
            };
            (updated, pr)
        },
        None => (false, None),
    };
    let echo = match pr {
        Some(m) => pr_metadata_json(&m),
        None => JsonValue::Null,
    };
    Handled { reply: Ok(ack(w, p, Some(member_of("pr", echo)))), refresh: updated, read: None, ui: None, notice: None }
}

/// `workspace.report_meta`: insert or replace (by key) the metadata item
/// the parameters give at the time `now` (see `item_params`) for the
/// report's panel (see `report_target`); the reply echoes it as `item`.
pub fn report_meta(tm: &mut TabManager, params: &JsonValue, now: Timestamp) -> (h: Handled)
    ensures
        report_meta_done(*old(tm), *final(tm), *params, now, h),
{
    let (w, p) = match resolve_report_target(tm, params) {
        Ok(t) => t,
        Err(e) => {
            return Handled { reply: Err(e), refresh: false, read: None, ui: None, notice: None };
        },
    };
    let item = match parse_metadata_item(params, now) {
        Ok(it) => it,
        Err(e) => {
            return Handled { reply: Err(e), refresh: false, read: None, ui: None, notice: None };
        },
    };
    let echo = metadata_item_json(&item);
    proof {
        lemma_index_of_id_found(tm.workspaces@, w);
    }
    let updated = match tm.workspace_mut(w) {
        Some(ws) => ws.upsert_panel_metadata_item(p, item),
        None => false,
    };
    Handled { reply: Ok(ack(w, p, Some(member_of("item", echo)))), refresh: updated, read: None, ui: None, notice: None }
}

/// `workspace.report_meta_block`: insert or replace (by key) the metadata
/// block the parameters give at the time `now` (see `block_params`) for
/// the report's panel (see `report_target`); the reply echoes it as
/// `block`.
pub fn report_meta_block(tm: &mut TabManager, params: &JsonValue, now: Timestamp) -> (h: Handled)
    ensures
        report_meta_block_done(*old(tm), *final(tm), *params, now, h),
{
    let (w, p) = match resolve_report_target(tm, params) {
        Ok(t) => t,
        Err(e) => {
            return Handled { reply: Err(e), refresh: false, read: None, ui: None, notice: None };
        },
    };
    let block = match parse_metadata_block(params, now) {
        Ok(b) => b,
        Err(e) => {
            return Handled { reply: Err(e), refresh: false, read: None, ui: None, notice: None };
        },
    };
    let echo = metadata_block_json(&block);
    proof {
        lemma_index_of_id_found(tm.workspaces@, w);
    }
    let updated = match tm.workspace_mut(w) {
        Some(ws) => ws.upsert_panel_metadata_block(p, block),
        None => false,
    };
    Handled { reply: Ok(ack(w, p, Some(member_of("block", echo)))), refresh: updated, read: None, ui: None, notice: None }
}

/// What `report_git_branch` does: `tm` after the call on `old`, with the result
/// `h`.
pub open spec fn report_git_branch_done(old: TabManager, tm: TabManager, params: JsonValue, h: Handled) -> bool {
    &&& h.plain()
    &&& match report_target(old.workspaces@, old.selection(), params) {
        Err((code, message)) => refused(h, tm, old, code, message),
        Ok((w, p)) => match params.text_field("branch"@) {
            None => refused(h, tm, old, invalid_params(), "Provide 'branch'"@),
            Some(branch) => {
                let i = index_of_id(old.workspaces@, w)->0;
                &&& tm.updated_at(old, i)
                &&& tm.workspaces@[i].set_panel_git_branch_post(old.workspaces@[i], p, branch, dirty_flag(params), h.refresh)
                &&& h.reply matches Ok(v) && report_ack(v, w, p) && keys(v).len() == 3
            },
        },
    }
}

/// What `clear_git_branch` does: `tm` after the call on `old`, with the result
/// `h`.
pub open spec fn clear_git_branch_done(old: TabManager, tm: TabManager, params: JsonValue, h: Handled) -> bool {
    &&& h.plain()
    &&& match report_target(old.workspaces@, old.selection(), params) {
        Err((code, message)) => refused(h, tm, old, code, message),
        Ok((w, p)) => {
            let i = index_of_id(old.workspaces@, w)->0;
            &&& tm.updated_at(old, i)
            &&& tm.workspaces@[i].clear_panel_git_branch_post(old.workspaces@[i], p, h.refresh)
            &&& h.reply matches Ok(v) && report_ack(v, w, p) && keys(v).len() == 3
        },
    }
}

/// What `clear_ports` does: `tm` after the call on `old`, with the result
/// `h`.
pub open spec fn clear_ports_done(old: TabManager, tm: TabManager, params: JsonValue, h: Handled) -> bool {
    &&& h.plain()
    &&& match report_target(old.workspaces@, old.selection(), params) {
        Err((code, message)) => refused(h, tm, old, code, message),
        Ok((w, p)) => {
            let i = index_of_id(old.workspaces@, w)->0;
            &&& tm.updated_at(old, i)
            &&& tm.workspaces@[i].clear_panel_ports_post(old.workspaces@[i], p, h.refresh)
            &&& h.reply matches Ok(v) && report_ack(v, w, p) && keys(v).len() == 3
        },
    }
}

/// What `clear_pr` does: `tm` after the call on `old`, with the result
/// `h`.
pub open spec fn clear_pr_done(old: TabManager, tm: TabManager, params: JsonValue, h: Handled) -> bool {
    &&& h.plain()
    &&& match report_target(old.workspaces@, old.selection(), params) {
        Err((code, message)) => refused(h, tm, old, code, message),
        Ok((w, p)) => {
            let i = index_of_id(old.workspaces@, w)->0;
            &&& tm.updated_at(old, i)
            &&& tm.workspaces@[i].clear_panel_pr_metadata_post(old.workspaces@[i], p, h.refresh)
            &&& h.reply matches Ok(v) && report_ack(v, w, p) && keys(v).len() == 3
        },
    }
}

/// What `report_pwd` does: `tm` after the call on `old`, with the result
/// `h`.
pub open spec fn report_pwd_done(old: TabManager, tm: TabManager, params: JsonValue, h: Handled) -> bool {
    &&& h.plain()
    &&& match report_target(old.workspaces@, old.selection(), params) {
        Err((code, message)) => refused(h, tm, old, code, message),
        Ok((w, p)) => match params.text_field("path"@) {
            None => refused(h, tm, old, invalid_params(), "Provide 'path'"@),
            Some(path) => {
                let i = index_of_id(old.workspaces@, w)->0;
                &&& tm.updated_at(old, i)
                &&& tm.workspaces@[i].set_panel_directory_post(old.workspaces@[i], p, truncate_chars(path, 4096), h.refresh)
                &&& h.reply matches Ok(v) && report_ack_with(v, w, p, "path"@) && at(v, 3).text() == Some(truncate_chars(path, 4096))
            },
        },
    }
}

/// What `report_shell_state` does: `tm` after the call on `old`, with the result
/// `h`.
pub open spec fn report_shell_state_done(old: TabManager, tm: TabManager, params: JsonValue, h: Handled) -> bool {
    &&& h.plain()
    &&& match report_target(old.workspaces@, old.selection(), params) {
        Err((code, message)) => refused(h, tm, old, code, message),
        Ok((w, p)) => match shell_state_param(params) {
            Err((code, message)) => refused(h, tm, old, code, message),
            Ok(state) => {
                let i = index_of_id(old.workspaces@, w)->0;
                &&& tm.updated_at(old, i)
                &&& tm.workspaces@[i].set_panel_shell_state_post(old.workspaces@[i], p, state, params.text_field("label"@), h.refresh)
                &&& h.reply matches Ok(v) && report_ack_with(v, w, p, "shell_state"@) && keys(
                    at(v, 3),
                ) == seq!["state"@, "label"@] && at(at(v, 3), 0).text() == Some(
                    crate::protocol::shell_state_name(state),
                ) && is_opt_text(at(at(v, 3), 1), params.text_field("label"@))
            },
        },
    }
}

/// Whether `v` is the JSON of the ports: an array of their numbers.
pub open spec fn is_ports_json(v: JsonValue, ports: Seq<u16>) -> bool {
    v matches JsonValue::Array(a) && a@.len() == ports.len()
        && forall|i: int| 0 <= i < ports.len() ==> #[trigger] a@[i] == JsonValue::UInt(ports[i] as u64)
}

/// Whether `v` is the JSON of the pull-request metadata the panel of the
/// workspace holds, or null where it holds none (or has no record).
pub open spec fn stored_pr_json(v: JsonValue, ws: Workspace, p: Id) -> bool {
    if ws.panels@.contains_key(p) && ws.panel_view(p).pr_metadata is Some {
        is_pr_json(v, ws.panel_view(p).pr_metadata->0)
    } else {
        v is Null
    }
}

/// What `report_ports` does: `tm` after the call on `old`, with the result
/// `h`.
pub open spec fn report_ports_done(old: TabManager, tm: TabManager, params: JsonValue, h: Handled) -> bool {
    &&& h.plain()
    &&& match report_target(old.workspaces@, old.selection(), params) {
        Err((code, message)) => refused(h, tm, old, code, message),
        Ok((w, p)) => match ports_param(params) {
            Err((code, message)) => refused(h, tm, old, code, message),
            Ok(ports) => {
                let i = index_of_id(old.workspaces@, w)->0;
                &&& tm.updated_at(old, i)
                &&& tm.workspaces@[i].set_panel_ports_post(old.workspaces@[i], p, ports, h.refresh)
                &&& h.reply matches Ok(v) && report_ack_with(v, w, p, "ports"@) && is_ports_json(at(v, 3), ports)
            },
        },
    }
}

/// What `report_tty` does: `tm` after the call on `old`, with the result
/// `h`.
pub open spec fn report_tty_done(old: TabManager, tm: TabManager, params: JsonValue, h: Handled) -> bool {
    &&& h.plain()
    &&& match report_target(old.workspaces@, old.selection(), params) {
        Err((code, message)) => refused(h, tm, old, code, message),
        Ok((w, p)) => match params.text_field("tty_name"@) {
            None => refused(h, tm, old, invalid_params(), "Provide 'tty_name'"@),
            Some(tty) => {
                let i = index_of_id(old.workspaces@, w)->0;
                &&& tm.updated_at(old, i)
                &&& tm.workspaces@[i].set_panel_tty_post(old.workspaces@[i], p, tty, h.refresh)
                &&& h.reply matches Ok(v) && report_ack_with(v, w, p, "tty_name"@) && at(v, 3).text() == Some(truncate_chars(tty, 512))
            },
        },
    }
}

/// What `report_pr` does: `tm` after the call on `old`, with the result
/// `h`.
pub open spec fn report_pr_done(old: TabManager, tm: TabManager, params: JsonValue, h: Handled) -> bool {
    &&& h.plain()
    &&& match report_target(old.workspaces@, old.selection(), params) {
        Err((code, message)) => refused(h, tm, old, code, message),
        Ok((w, p)) => match pr_params(params, "PR"@) {
            Err((code, message)) => refused(h, tm, old, code, message),
            Ok(pr) => {
                let i = index_of_id(old.workspaces@, w)->0;
                &&& tm.updated_at(old, i)
                &&& tm.workspaces@[i].set_panel_pr_metadata_post(old.workspaces@[i], p, pr, h.refresh)
                &&& h.reply matches Ok(v) && report_ack_with(v, w, p, "pr"@) && is_pr_json(at(v, 3), pr)
            },
        },
    }
}

/// What `report_review` does: `tm` after the call on `old`, with the result
/// `h`.
pub open spec fn report_review_done(old: TabManager, tm: TabManager, params: JsonValue, h: Handled) -> bool {
    &&& h.plain()
    &&& match report_target(old.workspaces@, old.selection(), params) {
        Err((code, message)) => refused(h, tm, old, code, message),
        Ok((w, p)) => match pr_state(params.field("state"@)) {
            Err((code, message)) => refused(h, tm, old, code, message),
            Ok(state) => match pr_checks(params.field("checks"@)) {
                Err((code, message)) => refused(h, tm, old, code, message),
                Ok(checks) => match review_number(params) {
                    Err((code, message)) => refused(h, tm, old, code, message),
                    Ok(number) => {
                        let i = index_of_id(old.workspaces@, w)->0;
                        let label = match params.text_field("label"@) {
                            Some(l) => l,
                            None => "MR"@,
                        };
                        &&& tm.updated_at(old, i)
                        &&& tm.workspaces@[i].set_panel_review_post(
                            old.workspaces@[i],
                            p,
                            label,
                            state,
                            checks,
                            number,
                            params.text_field("url"@),
                            params.text_field("title"@),
                            h.refresh,
                        )
                        &&& h.reply matches Ok(v) && report_ack_with(v, w, p, "pr"@)
                            && stored_pr_json(at(v, 3), tm.workspaces@[i], p)
                    },
                },
            },
        },
    }
}

/// What `report_meta` does: `tm` after the call on `old`, with the result
/// `h`.
pub open spec fn report_meta_done(old: TabManager, tm: TabManager, params: JsonValue, now: Timestamp, h: Handled) -> bool {
    &&& h.plain()
    &&& match report_target(old.workspaces@, old.selection(), params) {
        Err((code, message)) => refused(h, tm, old, code, message),
        Ok((w, p)) => match item_params(params, now) {
            Err((code, message)) => refused(h, tm, old, code, message),
            Ok(item) => {
                let i = index_of_id(old.workspaces@, w)->0;
                &&& tm.updated_at(old, i)
                &&& tm.workspaces@[i].upsert_panel_metadata_item_post(old.workspaces@[i], p, item, h.refresh)
                &&& h.reply matches Ok(v) && report_ack_with(v, w, p, "item"@) && is_item_json(at(v, 3), item)
            },
        },
    }
}

/// What `report_meta_block` does: `tm` after the call on `old`, with the result
/// `h`.
pub open spec fn report_meta_block_done(old: TabManager, tm: TabManager, params: JsonValue, now: Timestamp, h: Handled) -> bool {
    &&& h.plain()
    &&& match report_target(old.workspaces@, old.selection(), params) {
        Err((code, message)) => refused(h, tm, old, code, message),
        Ok((w, p)) => match block_params(params, now) {
            Err((code, message)) => refused(h, tm, old, code, message),
            Ok(block) => {
                let i = index_of_id(old.workspaces@, w)->0;
                &&& tm.updated_at(old, i)
                &&& tm.workspaces@[i].upsert_panel_metadata_block_post(old.workspaces@[i], p, block, h.refresh)
                &&& h.reply matches Ok(v) && report_ack_with(v, w, p, "block"@) && is_block_json(at(v, 3), block)
            },
        },
    }
}


/// `{"key": value}`.
fn single(key: &str, value: JsonValue) -> (v: JsonValue)
    ensures
        keys(v) == seq![key@],
        at(v, 0) == value,
{
    let mut es: Vec<(String, JsonValue)> = Vec::new();
    es.push(member_of(key, value));
    let v = JsonValue::Object(es);
    proof {
        assert(keys(v) =~= seq![key@]);
    }
    v
}

/// `system.ping`: `{"pong": true}`.
pub fn ping() -> (h: Handled)
    ensures
        h.plain() && !h.refresh,
        h.reply matches Ok(v) && keys(v) == seq!["pong"@] && at(v, 0) == JsonValue::Bool(true),
{
    Handled { reply: Ok(single("pong", JsonValue::Bool(true))), refresh: false, read: None, ui: None, notice: None }
}

/// The methods the protocol offers, in the order `system.capabilities`
/// lists them.
pub open spec fn method_names() -> Seq<Seq<char>> {
    seq![
        "system.ping"@, "system.capabilities"@, "window.focus"@, "workspace.list"@,
        "workspace.new"@, "workspace.create"@, "workspace.rename"@, "workspace.reorder"@,
        "workspace.pin"@, "workspace.unpin"@, "workspace.select"@, "workspace.next"@,
        "workspace.previous"@, "workspace.last"@, "workspace.latest_unread"@, "workspace.close"@,
        "workspace.set_status"@, "workspace.report_git_branch"@, "workspace.clear_git_branch"@,
        "workspace.report_pwd"@, "workspace.clear_pwd"@, "workspace.report_shell_state"@,
        "workspace.clear_shell_state"@, "workspace.report_ports"@, "workspace.clear_ports"@,
        "workspace.report_tty"@, "workspace.clear_tty"@, "workspace.report_pr"@,
        "workspace.report_review"@, "workspace.clear_pr"@, "workspace.report_meta"@,
        "workspace.report_meta_block"@, "workspace.clear_meta"@, "workspace.clear_meta_block"@,
        "workspace.set_progress"@, "workspace.append_log"@, "pane.new"@, "pane.focus"@,
        "pane.close"@, "pane.resize"@, "surface.send_input"@, "surface.focus"@, "surface.close"@,
        "surface.next"@, "surface.previous"@, "surface.move_forward"@, "surface.move_backward"@,
        "notification.create"@
    ]
}

/// The method names as a list.
pub fn capability_names() -> (names: Vec<&'static str>)
    ensures
        names@.map_values(|n: &str| n@) == method_names(),
{
    let names = vec![
        "system.ping", "system.capabilities", "window.focus", "workspace.list",
        "workspace.new", "workspace.create", "workspace.rename", "workspace.reorder",
        "workspace.pin", "workspace.unpin", "workspace.select", "workspace.next",
        "workspace.previous", "workspace.last", "workspace.latest_unread", "workspace.close",
        "workspace.set_status", "workspace.report_git_branch", "workspace.clear_git_branch",
        "workspace.report_pwd", "workspace.clear_pwd", "workspace.report_shell_state",
        "workspace.clear_shell_state", "workspace.report_ports", "workspace.clear_ports",
        "workspace.report_tty", "workspace.clear_tty", "workspace.report_pr",
        "workspace.report_review", "workspace.clear_pr", "workspace.report_meta",
        "workspace.report_meta_block", "workspace.clear_meta", "workspace.clear_meta_block",
        "workspace.set_progress", "workspace.append_log", "pane.new", "pane.focus",
        "pane.close", "pane.resize", "surface.send_input", "surface.focus", "surface.close",
        "surface.next", "surface.previous", "surface.move_forward", "surface.move_backward",
        "notification.create",
    ];
    proof {
        assert(names@.map_values(|n: &str| n@) =~= method_names());
    }
    names
}

/// Whether the value lists the names of `method_names`, as strings.
pub open spec fn lists_methods(v: JsonValue) -> bool {
    match v {
        JsonValue::Array(a) => a@.len() == method_names().len() && forall|i: int|
            0 <= i < a@.len() ==> (#[trigger] a@[i]).text() == Some(method_names()[i]),
        _ => false,
    }
}

/// `system.capabilities`: `{"methods": [..]}`, the names of
/// `method_names` as strings.
pub fn capabilities() -> (h: Handled)
    ensures
        h.plain() && !h.refresh,
        h.reply matches Ok(v) && keys(v) == seq!["methods"@] && lists_methods(at(v, 0)),
{
    let names = capability_names();
    let mut a: Vec<JsonValue> = Vec::new();
    let mut i: usize = 0;
    while i < names.len()
        invariant
            i <= names@.len(),
            names@.map_values(|n: &str| n@) == method_names(),
            a@.len() == i,
            forall|k: int| 0 <= k < i ==> (#[trigger] a@[k]).text() == Some(method_names()[k]),
        decreases names.len() - i,
    {
        proof {
            assert(names@.map_values(|n: &str| n@)[i as int] == names@[i as int]@);
        }
        a.push(js_text(names[i]));
        i = i + 1;
    }
    Handled { reply: Ok(single("methods", JsonValue::Array(a))), refresh: false, read: None, ui: None, notice: None }
}

/// `window.focus`: ask the UI to focus the window; `{"focused": true}`.
pub fn window_focus() -> (h: Handled)
    ensures
        h.read is None && h.ui == Some(UiRequest::FocusWindow) && h.notice is None && !h.refresh,
        h.reply matches Ok(v) && keys(v) == seq!["focused"@] && at(v, 0) == JsonValue::Bool(true),
{
    Handled { reply: Ok(single("focused", JsonValue::Bool(true))), refresh: false, read: None, ui: Some(UiRequest::FocusWindow), notice: None }
}

/// Whether the UI must take the event for the command to stand: focusing
/// the window, sending input and closing a surface must; focusing a
/// surface is asked for without waiting on it.
pub open spec fn ui_required(ui: Option<UiRequest>) -> bool {
    match ui {
        Some(UiRequest::FocusWindow) | Some(UiRequest::SendInput { .. }) | Some(UiRequest::CloseSurface { .. }) => true,
        _ => false,
    }
}

/// The reply once the UI event was offered: a `not_ready` error where the
/// UI was to take it and did not, else the command's own reply.
pub fn reply_after_ui(h: Handled, delivered: bool) -> (r: Result<JsonValue, ErrorInfo>)
    ensures
        if ui_required(h.ui) && !delivered {
            fails_with(r, "not_ready"@, "UI is not ready"@)
        } else {
            r == h.reply
        },
{
    let required = match &h.ui {
        Some(UiRequest::FocusWindow) | Some(UiRequest::SendInput { .. }) | Some(UiRequest::CloseSurface { .. }) => true,
        _ => false,
    };
    if required && !delivered {
        Err(ErrorInfo::new("not_ready", "UI is not ready"))
    } else {
        h.reply
    }
}

/// The workspace a request targets by `workspace`/`workspace_id`, else
/// the selected one: its index.
pub open spec fn named_or_selected(tm: TabManager, workspace_id: Option<Id>) -> Option<int> {
    match workspace_id {
        Some(w) => index_of_id(tm.workspaces@, w),
        None => tm.selection(),
    }
}

/// The workspace a request targets, for update.
fn target_workspace_mut(tm: &mut TabManager, workspace_id: Option<Id>) -> (ws: Option<&mut Workspace>)
    ensures
        final(tm).selected == old(tm).selected,
        match ws {
            Some(w) => {
                let i = named_or_selected(*old(tm), workspace_id)->0;
                &&& named_or_selected(*old(tm), workspace_id) is Some
                &&& 0 <= i < old(tm).workspaces@.len()
                &&& *w == old(tm).workspaces@[i]
                &&& final(tm).workspaces@ == old(tm).workspaces@.update(i, *final(w))
            },
            None => named_or_selected(*old(tm), workspace_id) is None && final(tm).workspaces@ == old(tm).workspaces@,
        },
{
    proof {
        if let Some(w) = workspace_id {
            lemma_index_of_id_found(tm.workspaces@, w);
        }
    }
    match workspace_id {
        Some(w) => tm.workspace_mut(w),
        None => tm.selected_mut(),
    }
}

/// What `set_status` does (`workspace.set_status` at the time `now`).
pub open spec fn set_status_done(old: TabManager, tm: TabManager, params: JsonValue, now: Timestamp, h: Handled) -> bool {
    &&& h.plain()
    &&& match uuid_value(workspace_value(params)) {
        Err(()) => refused(h, tm, old, invalid_params(), "Invalid workspace UUID"@),
        Ok(w) => match (params.text_field("key"@), params.text_field("value"@)) {
            (Some(key), Some(value)) => match named_or_selected(old, w) {
                None => refused(h, tm, old, not_found(), "Workspace not found"@),
                Some(i) => {
                    &&& tm.updated_at(old, i)
                    &&& tm.workspaces@[i].status_entries.deep_view() == status_after(
                        old.workspaces@[i].status_entries.deep_view(),
                        status_entry(key, value, params.text_field("icon"@), params.text_field("color"@), now),
                    )
                    &&& tm.workspaces@[i].same_but_entries(old.workspaces@[i])
                    &&& tm.workspaces@[i].log_entries == old.workspaces@[i].log_entries
                    &&& h.refresh
                    &&& h.reply matches Ok(v) && keys(v) == seq!["ok"@] && at(v, 0) == JsonValue::Bool(true)
                },
            },
            _ => refused(h, tm, old, invalid_params(), "Provide 'key' and 'value'"@),
        },
    }
}

/// `workspace.set_status`: set the status entry `key` to `value` (with
/// `icon` and `color`) at the time `now` in the named or selected
/// workspace (see `Workspace::set_status_at`).
pub fn set_status(tm: &mut TabManager, params: &JsonValue, now: Timestamp) -> (h: Handled)
    ensures
        set_status_done(*old(tm), *final(tm), *params, now, h),
{
    let w = match parse_workspace_param(params) {
        Ok(v) => v,
        Err(()) => {
            return Handled { reply: Err(ErrorInfo::new("invalid_params", "Invalid workspace UUID")), refresh: false, read: None, ui: None, notice: None };
        },
    };
    let (key, value) = match (params.str_field("key"), params.str_field("value")) {
        (Some(k), Some(v)) => (k, v),
        _ => {
            return Handled { reply: Err(ErrorInfo::new("invalid_params", "Provide 'key' and 'value'")), refresh: false, read: None, ui: None, notice: None };
        },
    };
    let icon = params.str_field("icon");
    let color = params.str_field("color");
    match target_workspace_mut(tm, w) {
        Some(ws) => {
            ws.set_status_at(key, value, icon, color, now);
            Handled { reply: Ok(single("ok", JsonValue::Bool(true))), refresh: true, read: None, ui: None, notice: None }
        },
        None => Handled { reply: Err(ErrorInfo::new("not_found", "Workspace not found")), refresh: false, read: None, ui: None, notice: None },
    }
}

/// What `append_log` does (`workspace.append_log` at the time `now`).
pub open spec fn append_log_done(old: TabManager, tm: TabManager, params: JsonValue, now: Timestamp, h: Handled) -> bool {
    &&& h.plain()
    &&& match uuid_value(workspace_value(params)) {
        Err(()) => refused(h, tm, old, invalid_params(), "Invalid workspace UUID"@),
        Ok(w) => match params.text_field("message"@) {
            None => refused(h, tm, old, invalid_params(), "Provide 'message'"@),
            Some(message) => match named_or_selected(old, w) {
                None => refused(h, tm, old, not_found(), "Workspace not found"@),
                Some(i) => {
                    &&& tm.updated_at(old, i)
                    &&& tm.workspaces@[i].log_entries.deep_view() == log_after(
                        old.workspaces@[i].log_entries.deep_view(),
                        log_entry(
                            message,
                            match params.text_field("level"@) {
                                Some(l) => l,
                                None => "info"@,
                            },
                            params.text_field("source"@),
                            now,
                        ),
                    )
                    &&& tm.workspaces@[i].same_but_entries(old.workspaces@[i])
                    &&& tm.workspaces@[i].status_entries == old.workspaces@[i].status_entries
                    &&& h.refresh
                    &&& h.reply matches Ok(v) && keys(v) == seq!["ok"@] && at(v, 0) == JsonValue::Bool(true)
                },
            },
        },
    }
}

/// `workspace.append_log`: append `message` (with `level`, default
/// `info`, and `source`) at the time `now` to the named or selected
/// workspace's log (see `Workspace::append_log_at`).
pub fn append_log(tm: &mut TabManager, params: &JsonValue, now: Timestamp) -> (h: Handled)
    ensures
        append_log_done(*old(tm), *final(tm), *params, now, h),
{
    let w = match parse_workspace_param(params) {
        Ok(v) => v,
        Err(()) => {
            return Handled { reply: Err(ErrorInfo::new("invalid_params", "Invalid workspace UUID")), refresh: false, read: None, ui: None, notice: None };
        },
    };
    let message = match params.str_field("message") {
        Some(m) => m,
        None => {
            return Handled { reply: Err(ErrorInfo::new("invalid_params", "Provide 'message'")), refresh: false, read: None, ui: None, notice: None };
        },
    };
    let level = match params.str_field("level") {
        Some(l) => l,
        None => "info",
    };
    let source = params.str_field("source");
    match target_workspace_mut(tm, w) {
        Some(ws) => {
            ws.append_log_at(message, level, source, now);
            Handled { reply: Ok(single("ok", JsonValue::Bool(true))), refresh: true, read: None, ui: None, notice: None }
        },
        None => Handled { reply: Err(ErrorInfo::new("not_found", "Workspace not found")), refresh: false, read: None, ui: None, notice: None },
    }
}

/// A number as millionths: integers scaled (saturating at the ends of an
/// `i64`), fractions as held.
pub open spec fn millionths(v: JsonValue) -> Option<i64> {
    match v {
        JsonValue::UInt(n) => Some(if n <= 9223372036854 { (n * 1_000_000) as i64 } else { i64::MAX }),
        JsonValue::NegInt(n) => Some(if -9223372036854 <= n <= 9223372036854 { (n * 1_000_000) as i64 } else if n < 0 { i64::MIN } else { i64::MAX }),
        JsonValue::Float(m) => Some(m),
        _ => None,
    }
}

/// A number as millionths (see `millionths`).
fn as_millionths(v: &JsonValue) -> (m: Option<i64>)
    ensures
        m == millionths(*v),
{
    match v {
        JsonValue::UInt(n) => Some(if *n <= 9223372036854u64 { (*n * 1_000_000) as i64 } else { 9223372036854775807i64 }),
        JsonValue::NegInt(n) => Some(if -9223372036854i64 <= *n && *n <= 9223372036854i64 { *n * 1_000_000 } else if *n < 0 { -9223372036854775808i64 } else { 9223372036854775807i64 }),
        JsonValue::Float(m) => Some(*m),
        _ => None,
    }
}

/// What `set_progress` does (`workspace.set_progress`).
pub open spec fn set_progress_done(old: TabManager, tm: TabManager, params: JsonValue, h: Handled) -> bool {
    &&& h.plain()
    &&& match uuid_value(workspace_value(params)) {
        Err(()) => refused(h, tm, old, invalid_params(), "Invalid workspace UUID"@),
        Ok(w) => match named_or_selected(old, w) {
            None => refused(h, tm, old, not_found(), "Workspace not found"@),
            Some(i) => {
                let value = match params.field("value"@) {
                    Some(v) => millionths(v),
                    None => None,
                };
                &&& tm.updated_at(old, i)
                &&& match value {
                    Some(m) => tm.workspaces@[i].progress matches Some(p) && p.value == m && p.label.deep_view() == params.text_field("label"@),
                    None => tm.workspaces@[i].progress is None,
                }
                &&& tm.workspaces@[i] == Workspace { progress: tm.workspaces@[i].progress, ..old.workspaces@[i] }
                &&& h.refresh
                &&& h.reply matches Ok(v) && keys(v) == seq!["ok"@] && at(v, 0) == JsonValue::Bool(true)
            },
        },
    }
}

/// `workspace.set_progress`: set the named or selected workspace's
/// progress to `value` (in millionths, see `millionths`) with `label`, or
/// clear it where there is no numeric value.
pub fn set_progress(tm: &mut TabManager, params: &JsonValue) -> (h: Handled)
    ensures
        set_progress_done(*old(tm), *final(tm), *params, h),
{
    let w = match parse_workspace_param(params) {
        Ok(v) => v,
        Err(()) => {
            return Handled { reply: Err(ErrorInfo::new("invalid_params", "Invalid workspace UUID")), refresh: false, read: None, ui: None, notice: None };
        },
    };
    let value = match params.get("value") {
        Some(v) => as_millionths(v),
        None => None,
    };
    let label = params.str_field("label");
    match target_workspace_mut(tm, w) {
        Some(ws) => {
            ws.progress = match value {
                Some(m) => Some(Progress { value: m, label: match label { Some(l) => Some(l.to_owned()), None => None } }),
                None => None,
            };
            Handled { reply: Ok(single("ok", JsonValue::Bool(true))), refresh: true, read: None, ui: None, notice: None }
        },
        None => Handled { reply: Err(ErrorInfo::new("not_found", "Workspace not found")), refresh: false, read: None, ui: None, notice: None },
    }
}


/// `{"k1": v1, "k2": v2}`.
fn pair(k1: &str, v1: JsonValue, k2: &str, v2: JsonValue) -> (v: JsonValue)
    ensures
        keys(v) == seq![k1@, k2@],
        at(v, 0) == v1,
        at(v, 1) == v2,
{
    let mut es: Vec<(String, JsonValue)> = Vec::new();
    es.push(member_of(k1, v1));
    es.push(member_of(k2, v2));
    let v = JsonValue::Object(es);
    proof {
        assert(keys(v) =~= seq![k1@, k2@]);
    }
    v
}

/// The directory a new workspace starts in: `directory`, else `cwd`
/// where `directory` is absent, cut to 4096 bytes.
pub open spec fn new_directory(params: JsonValue) -> Option<Seq<char>> {
    let d = match params.field("directory"@) {
        Some(v) => v.text(),
        None => params.text_field("cwd"@),
    };
    opt_truncated(d, 4096)
}

/// What `create_workspace` does (`workspace.new`, and `workspace.create`
/// which keeps the selection).
pub open spec fn create_workspace_done(old: TabManager, tm: TabManager, home: Seq<char>, params: JsonValue, preserve_selection: bool, h: Handled) -> bool {
    let n = old.workspaces@.len();
    let w = tm.workspaces@[n as int];
    &&& h.plain()
    &&& h.refresh
    &&& tm.workspaces@.len() == n + 1
    &&& tm.workspaces@.take(n as int) == old.workspaces@
    &&& w.current_directory@ == match new_directory(params) {
        Some(d) => d,
        None => home,
    }
    &&& w.home_directory@ == home
    &&& w.custom_title.deep_view() == opt_truncated(params.text_field("title"@), 1024)
    &&& w.panels@.len() == 1
    &&& w.synced()
    &&& tm.selection() == (if preserve_selection && old.selection() is Some {
        index_of_id(tm.workspaces@, old.workspaces@[old.selection()->0].id)
    } else {
        Some(n as int)
    })
    &&& h.reply matches Ok(v) && keys(v) == seq!["workspace_id"@, "workspace"@] && at(v, 0).text()
        == Some(spec_uuid_text(w.id)) && at(v, 1).text() == Some(spec_uuid_text(w.id))
}

/// `workspace.new` / `workspace.create`: add a workspace in `directory`
/// (or `cwd`, see `new_directory`; else `home`) titled `title` (cut to
/// 1024 bytes) and select it, or keep the selection where asked.
pub fn create_workspace(tm: &mut TabManager, home: &str, params: &JsonValue, preserve_selection: bool) -> (h: Handled)
    ensures
        create_workspace_done(*old(tm), *final(tm), home@, *params, preserve_selection, h),
{
    let directory = match params.get("directory") {
        Some(v) => v.as_str(),
        None => params.str_field("cwd"),
    };
    let directory = match directory {
        Some(d) => Some(truncate_str(d, 4096)),
        None => None,
    };
    let title = opt_truncate(params.str_field("title"), 1024);
    let mut ws = match directory {
        Some(d) => Workspace::with_directory(home, d),
        None => Workspace::new(home),
    };
    ws.custom_title = title;
    let ws_id = ws.id;
    let previous = if preserve_selection {
        tm.selected_id()
    } else {
        None
    };
    let ghost before = tm.workspaces@;
    tm.add_workspace(ws);
    proof {
        assert(tm.workspaces@.take(before.len() as int) =~= before);
    }
    if let Some(selected) = previous {
        proof {
            lemma_index_of_id_total(tm.workspaces@, old(tm).selection()->0);
            lemma_index_of_id_found(tm.workspaces@, selected);
        }
        let _ = tm.select_by_id(selected);
    }
    Handled { reply: Ok(pair("workspace_id", js_id(ws_id), "workspace", js_id(ws_id))), refresh: true, read: None, ui: None, notice: None }
}

/// Whether `tm` is `before` with the notifications of the workspace of the
/// id marked read.
pub open spec fn marked_read(tm: TabManager, before: TabManager, id: Id) -> bool {
    &&& tm.selected == before.selected
    &&& match index_of_id(before.workspaces@, id) {
        Some(i) => tm.workspaces@ == before.workspaces@.update(i, (Workspace { unread_count: 0, ..before.workspaces@[i] })),
        None => tm.workspaces@ == before.workspaces@,
    }
}

/// Mark the selected workspace read, where there is one; its id.
fn mark_selected_read(tm: &mut TabManager) -> (id: Option<Id>)
    ensures
        id == match old(tm).selection() {
            Some(s) => Some(old(tm).workspaces@[s].id),
            None => None,
        },
        match id {
            Some(i) => marked_read(*final(tm), *old(tm), i),
            None => final(tm).unchanged(*old(tm)),
        },
{
    let id = tm.selected_id();
    match id {
        Some(i) => tm.mark_workspace_read(i),
        None => {},
    }
    id
}

/// What `select_workspace` does (`workspace.select`).
pub open spec fn select_workspace_done(old: TabManager, tm: TabManager, params: JsonValue, h: Handled) -> bool {
    &&& h.ui is None
    &&& h.notice is None
    &&& match usize_param(params, "index"@) {
        Err((code, message)) => refused(h, tm, old, code, message),
        Ok(index) => match uuid_value(workspace_value(params)) {
            Err(()) => refused(h, tm, old, invalid_params(), "Invalid workspace UUID"@),
            Ok(w) => {
                let target = match index {
                    Some(i) => if i < old.workspaces@.len() { Some(i as int) } else { None },
                    None => match w {
                        Some(w) => index_of_id(old.workspaces@, w),
                        None => None,
                    },
                };
                if index is None && w is None {
                    refused(h, tm, old, invalid_params(), "Provide 'index' or 'workspace'/'workspace_id'"@)
                } else {
                    match target {
                        None => refused(h, tm, old, not_found(), "Workspace not found"@),
                        Some(t) => {
                            let moved = TabManager { workspaces: old.workspaces, selected: tm.selected };
                            &&& tm.selection() == Some(t)
                            &&& h.read == Some(old.workspaces@[t].id)
                            &&& marked_read(tm, moved, old.workspaces@[t].id)
                            &&& h.refresh
                            &&& h.reply matches Ok(v) && keys(v) == seq!["selected"@] && at(v, 0) == JsonValue::Bool(true)
                        },
                    }
                }
            },
        },
    }
}

/// `workspace.select`: select the workspace at `index`, else the one named
/// by `workspace`/`workspace_id`, and mark it read.
pub fn select_workspace(tm: &mut TabManager, params: &JsonValue) -> (h: Handled)
    ensures
        select_workspace_done(*old(tm), *final(tm), *params, h),
{
    let index = match parse_usize_param(params, "index") {
        Ok(i) => i,
        Err(e) => {
            return Handled { reply: Err(e), refresh: false, read: None, ui: None, notice: None };
        },
    };
    let w = match parse_workspace_param(params) {
        Ok(v) => v,
        Err(()) => {
            return Handled { reply: Err(ErrorInfo::new("invalid_params", "Invalid workspace UUID")), refresh: false, read: None, ui: None, notice: None };
        },
    };
    let selected = match index {
        Some(i) => tm.select(i),
        None => match w {
            Some(id) => tm.select_by_id(id),
            None => {
                return Handled {
                    reply: Err(ErrorInfo::new("invalid_params", "Provide 'index' or 'workspace'/'workspace_id'")),
                    refresh: false,
                    read: None,
                    ui: None,
                    notice: None,
                };
            },
        },
    };
    if selected {
        let ghost moved = *tm;
        let read = mark_selected_read(tm);
        proof {
            if let Some(id) = read {
                lemma_index_of_id_found(moved.workspaces@, id);
            }
        }

        Handled { reply: Ok(single("selected", JsonValue::Bool(true))), refresh: true, read, ui: None, notice: None }
    } else {
        Handled { reply: Err(ErrorInfo::new("not_found", "Workspace not found")), refresh: false, read: None, ui: None, notice: None }
    }
}


/// What `rename_workspace` does (`workspace.rename`).
pub open spec fn rename_workspace_done(old: TabManager, tm: TabManager, params: JsonValue, h: Handled) -> bool {
    &&& h.plain()
    &&& match uuid_value(workspace_value(params)) {
        Err(()) => refused(h, tm, old, invalid_params(), "Invalid workspace UUID"@),
        Ok(w) => {
            let id = match w {
                Some(w) => Some(w),
                None => match old.selection() {
                    Some(s) => Some(old.workspaces@[s].id),
                    None => None,
                },
            };
            match id {
                None => refused(h, tm, old, not_found(), "No workspace selected"@),
                Some(id) => match index_of_id(old.workspaces@, id) {
                    None => refused(h, tm, old, not_found(), "Workspace not found"@),
                    Some(i) => {
                        &&& tm.updated_at(old, i)
                        &&& tm.workspaces@[i].custom_title.deep_view() == Workspace::renamed_title(params.text_field("title"@))
                        &&& tm.workspaces@[i].panels == old.workspaces@[i].panels
                        &&& tm.workspaces@[i].layout == old.workspaces@[i].layout
                        &&& tm.workspaces@[i].id == id
                        &&& h.refresh
                        &&& h.reply matches Ok(v) && keys(v) == seq!["workspace_id"@, "title"@] && at(v, 0).text()
                            == Some(spec_uuid_text(id)) && at(v, 1).text() == Some(tm.workspaces@[i].spec_display_title())
                    },
                },
            }
        },
    }
}

/// `workspace.rename`: rename the named or selected workspace to `title`
/// (see `Workspace::rename`); the reply gives the title it then shows.
pub fn rename_workspace(tm: &mut TabManager, params: &JsonValue) -> (h: Handled)
    ensures
        rename_workspace_done(*old(tm), *final(tm), *params, h),
{
    let w = match parse_workspace_param(params) {
        Ok(v) => v,
        Err(()) => {
            return Handled { reply: Err(ErrorInfo::new("invalid_params", "Invalid workspace UUID")), refresh: false, read: None, ui: None, notice: None };
        },
    };
    let title = params.str_field("title");
    let id = match w {
        Some(w) => w,
        None => match tm.selected_id() {
            Some(s) => s,
            None => {
                return Handled { reply: Err(ErrorInfo::new("not_found", "No workspace selected")), refresh: false, read: None, ui: None, notice: None };
            },
        },
    };
    proof {
        lemma_index_of_id_found(tm.workspaces@, id);
    }
    match tm.workspace_mut(id) {
        Some(ws) => {
            let _ = ws.rename(title);
            let shown = js_text(ws.display_title());
            Handled { reply: Ok(pair("workspace_id", js_id(id), "title", shown)), refresh: true, read: None, ui: None, notice: None }
        },
        None => Handled { reply: Err(ErrorInfo::new("not_found", "Workspace not found")), refresh: false, read: None, ui: None, notice: None },
    }
}

/// Whether moving the selection wraps at the ends: `wrap`, true where
/// absent or not a boolean.
pub open spec fn wrap_flag(params: JsonValue) -> bool {
    match params.field("wrap"@) {
        Some(v) => match v.boolean() {
            Some(b) => b,
            None => true,
        },
        None => true,
    }
}

/// Whether `tm` holds the workspaces `before` with the selection `sel`,
/// the selected workspace marked read, and `h` tells the id of the
/// selected workspace, or null.
pub open spec fn moved_and_read(tm: TabManager, before: Seq<Workspace>, sel: Option<int>, h: Handled) -> bool {
    let id = match sel {
        Some(s) => Some(before[s].id),
        None => None,
    };
    &&& h.read == id
    &&& h.ui is None
    &&& h.notice is None
    &&& tm.selection() == sel
    &&& match id {
        Some(i) => match index_of_id(before, i) {
            Some(k) => tm.workspaces@ == before.update(k, (Workspace { unread_count: 0, ..before[k] })),
            None => tm.workspaces@ == before,
        },
        None => tm.workspaces@ == before,
    }
    &&& h.refresh
    &&& h.reply matches Ok(v) && keys(v) == seq!["ok"@, "workspace_id"@] && at(v, 0) == JsonValue::Bool(true)
        && crate::protocol::is_opt_id(at(v, 1), id)
}

/// The reply after a selection move: mark the selected workspace read.
fn after_move(tm: &mut TabManager) -> (h: Handled)
    ensures
        moved_and_read(*final(tm), old(tm).workspaces@, old(tm).selection(), h),
{
    let read = mark_selected_read(tm);
    proof {
        if let Some(id) = read {
            lemma_index_of_id_found(old(tm).workspaces@, id);
        }
    }
    Handled {
        reply: Ok(pair("ok", JsonValue::Bool(true), "workspace_id", crate::protocol::js_opt_id(read))),
        refresh: true,
        read,
        ui: None,
        notice: None,
    }
}

/// `workspace.next`: select the next workspace (see
/// `TabManager::next_selection`, wrapping unless `wrap` is false) and mark
/// it read.
pub fn next_workspace(tm: &mut TabManager, params: &JsonValue) -> (h: Handled)
    ensures
        moved_and_read(*final(tm), old(tm).workspaces@, old(tm).next_selection(wrap_flag(*params)), h),
{
    let wrap = match params.get("wrap") {
        Some(v) => match v.as_bool() {
            Some(b) => b,
            None => true,
        },
        None => true,
    };
    tm.select_next(wrap);
    after_move(tm)
}

/// `workspace.previous`: select the previous workspace (see
/// `TabManager::previous_selection`, wrapping unless `wrap` is false) and
/// mark it read.
pub fn previous_workspace(tm: &mut TabManager, params: &JsonValue) -> (h: Handled)
    ensures
        moved_and_read(*final(tm), old(tm).workspaces@, old(tm).previous_selection(wrap_flag(*params)), h),
{
    let wrap = match params.get("wrap") {
        Some(v) => match v.as_bool() {
            Some(b) => b,
            None => true,
        },
        None => true,
    };
    tm.select_previous(wrap);
    after_move(tm)
}

/// `workspace.last`: select the last workspace and mark it read.
pub fn last_workspace(tm: &mut TabManager) -> (h: Handled)
    ensures
        moved_and_read(
            *final(tm),
            old(tm).workspaces@,
            if old(tm).workspaces@.len() > 0 {
                Some(old(tm).workspaces@.len() - 1)
            } else {
                old(tm).selection()
            },
            h,
        ),
{
    tm.select_last();
    after_move(tm)
}

/// What `latest_unread_workspace` does (`workspace.latest_unread`).
pub open spec fn latest_unread_done(old: TabManager, tm: TabManager, h: Handled) -> bool {
    match TabManager::latest_unread(old.workspaces@) {
        None => refused(h, tm, old, not_found(), "No unread workspace"@),
        Some(i) => {
            let id = old.workspaces@[i].id;
            &&& h.read == Some(id)
            &&& h.ui is None
            &&& h.notice is None
            &&& tm.selection() == Some(i)
            &&& match index_of_id(old.workspaces@, id) {
                Some(k) => tm.workspaces@ == old.workspaces@.update(k, (Workspace { unread_count: 0, ..old.workspaces@[k] })),
                None => tm.workspaces@ == old.workspaces@,
            }
            &&& h.refresh
            &&& h.reply matches Ok(v) && keys(v) == seq!["workspace_id"@, "workspace"@, "selected"@] && at(v, 0).text()
                == Some(spec_uuid_text(id)) && at(v, 1).text() == Some(spec_uuid_text(id)) && at(v, 2) == JsonValue::Bool(true)
        },
    }
}

/// `workspace.latest_unread`: select the workspace whose unread
/// notification is the latest (see `TabManager::latest_unread`) and mark
/// it read.
pub fn latest_unread_workspace(tm: &mut TabManager) -> (h: Handled)
    ensures
        latest_unread_done(*old(tm), *final(tm), h),
{
    match tm.select_latest_unread() {
        Some(id) => {
            proof {
                lemma_index_of_id_found(old(tm).workspaces@, id);
            }
            tm.mark_workspace_read(id);
            let mut es: Vec<(String, JsonValue)> = Vec::new();
            es.push(member_of("workspace_id", js_id(id)));
            es.push(member_of("workspace", js_id(id)));
            es.push(member_of("selected", JsonValue::Bool(true)));
            let v = JsonValue::Object(es);
            proof {
                assert(keys(v) =~= seq!["workspace_id"@, "workspace"@, "selected"@]);
            }
            Handled { reply: Ok(v), refresh: true, read: Some(id), ui: None, notice: None }
        },
        None => Handled { reply: Err(ErrorInfo::new("not_found", "No unread workspace")), refresh: false, read: None, ui: None, notice: None },
    }
}


/// What `close_workspace` does (`workspace.close`).
pub open spec fn close_workspace_done(old: TabManager, tm: TabManager, params: JsonValue, h: Handled) -> bool {
    &&& h.plain()
    &&& match usize_param(params, "index"@) {
        Err((code, message)) => refused(h, tm, old, code, message),
        Ok(index) => match uuid_value(workspace_value(params)) {
            Err(()) => refused(h, tm, old, invalid_params(), "Invalid workspace UUID"@),
            Ok(w) => {
                let target = match index {
                    Some(i) => if i < old.workspaces@.len() { Some(i as int) } else { None },
                    None => match w {
                        Some(w) => index_of_id(old.workspaces@, w),
                        None => old.selection(),
                    },
                };
                match target {
                    None => refused(h, tm, old, not_found(), "Workspace not found"@),
                    Some(t) => {
                        &&& tm.workspaces@ == old.workspaces@.remove(t)
                        &&& tm.selection() == crate::tab_manager::selection_after_remove(old.selection(), t, tm.workspaces@.len() as int)
                        &&& h.refresh
                        &&& h.reply matches Ok(v) && keys(v) == seq!["closed"@] && at(v, 0) == JsonValue::Bool(true)
                    },
                }
            },
        },
    }
}

/// `workspace.close`: remove the workspace at `index`, else the one named
/// by `workspace`/`workspace_id`, else the selected one.
pub fn close_workspace(tm: &mut TabManager, params: &JsonValue) -> (h: Handled)
    ensures
        close_workspace_done(*old(tm), *final(tm), *params, h),
{
    let index = match parse_usize_param(params, "index") {
        Ok(i) => i,
        Err(e) => {
            return Handled { reply: Err(e), refresh: false, read: None, ui: None, notice: None };
        },
    };
    let w = match parse_workspace_param(params) {
        Ok(v) => v,
        Err(()) => {
            return Handled { reply: Err(ErrorInfo::new("invalid_params", "Invalid workspace UUID")), refresh: false, read: None, ui: None, notice: None };
        },
    };
    let removed = match index {
        Some(i) => tm.remove(i).is_some(),
        None => match w {
            Some(id) => tm.remove_by_id(id).is_some(),
            None => match tm.selected_index() {
                Some(i) => tm.remove(i).is_some(),
                None => false,
            },
        },
    };
    if removed {
        Handled { reply: Ok(single("closed", JsonValue::Bool(true))), refresh: true, read: None, ui: None, notice: None }
    } else {
        Handled { reply: Err(ErrorInfo::new("not_found", "Workspace not found")), refresh: false, read: None, ui: None, notice: None }
    }
}

/// The keys of an entry of `workspace.list`.
pub open spec fn list_entry_keys() -> Seq<Seq<char>> {
    seq![
        "index"@, "id"@, "title"@, "custom_title"@, "pinned"@, "directory"@, "git_branch"@,
        "shell_state"@, "listening_ports"@, "tty_name"@, "pr"@, "meta_items"@, "meta_blocks"@,
        "panel_count"@, "unread_count"@, "latest_notification"@, "attention_panel_id"@, "selected"@,
        "is_selected"@
    ]
}

/// Whether a value is the `workspace.list` entry of the workspace at the
/// index.
pub open spec fn list_entry(v: JsonValue, w: Workspace, i: int, selected: bool) -> bool {
    &&& keys(v) == list_entry_keys()
    &&& at(v, 0) == JsonValue::UInt(i as u64)
    &&& at(v, 1).text() == Some(spec_uuid_text(w.id))
    &&& at(v, 2).text() == Some(w.spec_display_title())
    &&& is_opt_text(at(v, 3), w.custom_title.deep_view())
    &&& at(v, 4) == JsonValue::Bool(w.is_pinned)
    &&& at(v, 5).text() == Some(w.current_directory@)
    &&& at(v, 14) == JsonValue::UInt(w.unread_count as u64)
    &&& is_opt_text(at(v, 15), w.latest_notification.deep_view())
    &&& crate::protocol::is_opt_id(at(v, 16), w.attention_panel_id)
    &&& at(v, 17) == JsonValue::Bool(selected)
    &&& at(v, 18) == JsonValue::Bool(selected)
}

/// The JSON of a list of metadata items.
fn items_json(items: &Vec<crate::panel::MetadataItem>) -> (v: JsonValue)
    ensures
        v matches JsonValue::Array(a) && a@.len() == items@.len(),
{
    let mut a: Vec<JsonValue> = Vec::new();
    let mut i: usize = 0;
    while i < items.len()
        invariant
            i <= items@.len(),
            a@.len() == i,
        decreases items.len() - i,
    {
        a.push(metadata_item_json(&items[i]));
        i = i + 1;
    }
    JsonValue::Array(a)
}

/// The JSON of a list of metadata blocks.
fn blocks_json(blocks: &Vec<crate::panel::MetadataBlock>) -> (v: JsonValue)
    ensures
        v matches JsonValue::Array(a) && a@.len() == blocks@.len(),
{
    let mut a: Vec<JsonValue> = Vec::new();
    let mut i: usize = 0;
    while i < blocks.len()
        invariant
            i <= blocks@.len(),
            a@.len() == i,
        decreases blocks.len() - i,
    {
        a.push(metadata_block_json(&blocks[i]));
        i = i + 1;
    }
    JsonValue::Array(a)
}

/// The `workspace.list` entry of a workspace.
fn list_entry_json(w: &Workspace, i: usize, selected: bool) -> (v: JsonValue)
    ensures
        list_entry(v, *w, i as int, selected),
{
    let git = match &w.git_branch {
        Some(g) => crate::protocol::git_branch_json(g),
        None => JsonValue::Null,
    };
    let shell = match &w.shell_state {
        Some(st) => shell_state_json(st),
        None => JsonValue::Null,
    };
    let pr = match &w.pr_metadata {
        Some(m) => pr_metadata_json(m),
        None => JsonValue::Null,
    };
    let mut es: Vec<(String, JsonValue)> = Vec::new();
    es.push(member_of("index", JsonValue::UInt(i as u64)));
    es.push(member_of("id", js_id(w.id)));
    es.push(member_of("title", js_text(w.display_title())));
    es.push(member_of("custom_title", crate::protocol::js_opt_text(&w.custom_title)));
    es.push(member_of("pinned", JsonValue::Bool(w.is_pinned)));
    es.push(member_of("directory", js_text(w.current_directory.as_str())));
    es.push(member_of("git_branch", git));
    es.push(member_of("shell_state", shell));
    es.push(member_of("listening_ports", ports_json(&w.listening_ports)));
    es.push(member_of("tty_name", crate::protocol::js_opt_text(&w.tty_name)));
    es.push(member_of("pr", pr));
    es.push(member_of("meta_items", items_json(&w.metadata_items)));
    es.push(member_of("meta_blocks", blocks_json(&w.metadata_blocks)));
    es.push(member_of("panel_count", JsonValue::UInt(w.panels.len() as u64)));
    es.push(member_of("unread_count", JsonValue::UInt(w.unread_count as u64)));
    es.push(member_of("latest_notification", crate::protocol::js_opt_text(&w.latest_notification)));
    es.push(member_of("attention_panel_id", crate::protocol::js_opt_id(w.attention_panel_id)));
    es.push(member_of("selected", JsonValue::Bool(selected)));
    es.push(member_of("is_selected", JsonValue::Bool(selected)));
    let v = JsonValue::Object(es);
    proof {
        assert(keys(v) =~= list_entry_keys());
    }
    v
}

/// `workspace.list`: `{"workspaces": [..]}`, one entry per workspace in
/// tab order (see `list_entry`), the selected one flagged.
pub fn list_workspaces(tm: &TabManager) -> (h: Handled)
    ensures
        h.plain() && !h.refresh,
        h.reply matches Ok(v) && keys(v) == seq!["workspaces"@] && lists_workspaces(at(v, 0), *tm),
{
    let sel = tm.selected_index();
    let mut a: Vec<JsonValue> = Vec::new();
    let mut i: usize = 0;
    while i < tm.workspaces.len()
        invariant
            i <= tm.workspaces@.len(),
            a@.len() == i,
            match sel {
                Some(s) => tm.selection() == Some(s as int),
                None => tm.selection() is None,
            },
            forall|k: int| 0 <= k < i ==> list_entry(#[trigger] a@[k], tm.workspaces@[k], k, tm.selection() == Some(k)),
        decreases tm.workspaces.len() - i,
    {
        let selected = match sel {
            Some(s) => s == i,
            None => false,
        };
        a.push(list_entry_json(&tm.workspaces[i], i, selected));
        i = i + 1;
    }
    Handled { reply: Ok(single("workspaces", JsonValue::Array(a))), refresh: false, read: None, ui: None, notice: None }
}

/// Whether a value lists the workspaces of the tab manager (see
/// `list_entry`).
pub open spec fn lists_workspaces(v: JsonValue, tm: TabManager) -> bool {
    match v {
        JsonValue::Array(a) => a@.len() == tm.workspaces@.len() && forall|k: int|
            0 <= k < a@.len() ==> list_entry(#[trigger] a@[k], tm.workspaces@[k], k, tm.selection() == Some(k)),
        _ => false,
    }
}


/// The orientation `pane.new` asks for: vertical where `orientation` is
/// `vertical`, else horizontal.
pub open spec fn orientation_param(params: JsonValue) -> SplitOrientation {
    if params.text_field("orientation"@) == Some("vertical"@) {
        SplitOrientation::Vertical
    } else {
        SplitOrientation::Horizontal
    }
}

/// What `new_pane` does (`pane.new`).
pub open spec fn new_pane_done(old: TabManager, tm: TabManager, params: JsonValue, h: Handled) -> bool {
    &&& h.plain()
    &&& match old.selection() {
        None => refused(h, tm, old, not_found(), "No workspace selected"@),
        Some(s) => {
            let w = tm.workspaces@[s];
            &&& tm.updated_at(old, s)
            &&& w.focused_panel_id is Some
            &&& w.panels@ == old.workspaces@[s].panels@.insert(w.focused_panel_id->0, w.panels@[w.focused_panel_id->0])
            &&& !old.workspaces@[s].panels@.contains_key(w.focused_panel_id->0) || true
            &&& exists|pane_id: Id| w.layout@ == #[trigger] old.workspaces@[s].split_layout(orientation_param(params), w.focused_panel_id->0, pane_id)
            &&& w.synced()
            &&& h.refresh
            &&& h.reply matches Ok(v) && keys(v) == seq!["panel_id"@, "surface"@, "pane_id"@] && at(v, 0).text()
                == Some(spec_uuid_text(w.focused_panel_id->0)) && at(v, 1).text() == Some(spec_uuid_text(w.focused_panel_id->0))
                && crate::protocol::is_opt_id(at(v, 2), w.focused_pane_id)
        },
    }
}

/// `pane.new`: split the selected workspace (see `Workspace::split`) in
/// the orientation asked for (see `orientation_param`).
pub fn new_pane(tm: &mut TabManager, params: &JsonValue) -> (h: Handled)
    ensures
        new_pane_done(*old(tm), *final(tm), *params, h),
{
    let vertical = match params.str_field("orientation") {
        Some(o) => crate::panel::str_eq(o, "vertical"),
        None => false,
    };
    let orientation = if vertical {
        SplitOrientation::Vertical
    } else {
        SplitOrientation::Horizontal
    };
    match tm.selected_mut() {
        Some(ws) => {
            let panel_id = ws.split(orientation);
            let pane_id = ws.focused_pane_id;
            let mut es: Vec<(String, JsonValue)> = Vec::new();
            es.push(member_of("panel_id", js_id(panel_id)));
            es.push(member_of("surface", js_id(panel_id)));
            es.push(member_of("pane_id", crate::protocol::js_opt_id(pane_id)));
            let v = JsonValue::Object(es);
            proof {
                assert(keys(v) =~= seq!["panel_id"@, "surface"@, "pane_id"@]);
            }
            Handled { reply: Ok(v), refresh: true, read: None, ui: None, notice: None }
        },
        None => Handled { reply: Err(ErrorInfo::new("not_found", "No workspace selected")), refresh: false, read: None, ui: None, notice: None },
    }
}

/// The pane a request names: `pane`, with `pane_id` consulted only where
/// `pane` does not hold a UUID.
pub open spec fn pane_value(params: JsonValue) -> Result<Option<Id>, ()> {
    match uuid_value(params.field("pane"@)) {
        Ok(v) => Ok(v),
        Err(()) => uuid_value(params.field("pane_id"@)),
    }
}

/// The pane a request names (see `pane_value`).
fn parse_pane_param(params: &JsonValue) -> (r: Result<Option<Id>, ()>)
    ensures
        r == pane_value(*params),
{
    match parse_uuid_param(params, "pane") {
        Ok(v) => Ok(v),
        Err(()) => parse_uuid_param(params, "pane_id"),
    }
}

/// What `focus_pane` does (`pane.focus`).
pub open spec fn focus_pane_done(old: TabManager, tm: TabManager, params: JsonValue, h: Handled) -> bool {
    match pane_value(params) {
        Err(()) => refused(h, tm, old, invalid_params(), "Invalid pane UUID"@),
        Ok(None) => refused(h, tm, old, invalid_params(), "Provide 'pane' or 'pane_id'"@),
        Ok(Some(pane_id)) => match old.selection() {
            None => refused(h, tm, old, not_found(), "No workspace selected"@),
            Some(s) => match index_with_pane(old.workspaces@, pane_id) {
                None => refused(h, tm, old, not_found(), "Pane not found"@),
                Some(k) => if old.workspaces@[k].id != old.workspaces@[s].id {
                    refused(h, tm, old, invalid_params(), "Pane belongs to a different workspace"@)
                } else {
                    let id = old.workspaces@[k].id;
                    let i = index_of_id(old.workspaces@, id)->0;
                    let w = old.workspaces@[i];
                    match w.layout@.selected_of_pane(pane_id) {
                        None => refused(h, tm, old, not_found(), "Pane not found"@),
                        Some(panel) => {
                            &&& tm.selected == old.selected
                            &&& tm.workspaces@.len() == old.workspaces@.len()
                            &&& tm.workspaces@ == old.workspaces@.update(i, tm.workspaces@[i])
                            &&& tm.workspaces@[i].unread_count == 0
                            &&& tm.workspaces@[i].focused_panel_id == Some(panel)
                            &&& tm.workspaces@[i].focused_pane_id == w.pane_after_focus(pane_id, panel)
                            &&& tm.workspaces@[i].layout@ == w.layout@
                            &&& tm.workspaces@[i].panels@ == w.panels@
                            &&& tm.workspaces@[i].synced()
                            &&& h.read == Some(id)
                            &&& h.ui == Some(UiRequest::FocusSurface { panel_id: panel, present_window: false })
                            &&& h.notice is None
                            &&& h.refresh
                            &&& h.reply matches Ok(v) && keys(v) == seq!["pane_id"@, "workspace_id"@, "surface"@, "focused"@]
                                && at(v, 0).text() == Some(spec_uuid_text(pane_id)) && at(v, 1).text() == Some(spec_uuid_text(id))
                                && at(v, 2).text() == Some(spec_uuid_text(panel)) && at(v, 3) == JsonValue::Bool(true)
                        },
                    }
                },
            },
        },
    }
}

/// `pane.focus`: focus the pane (see `Workspace::focus_pane`), which must
/// lie in the selected workspace, mark that workspace read and ask the UI
/// to focus the pane's selected panel.
pub fn focus_pane(tm: &mut TabManager, params: &JsonValue) -> (h: Handled)
    ensures
        focus_pane_done(*old(tm), *final(tm), *params, h),
{
    let pane_id = match parse_pane_param(params) {
        Ok(Some(p)) => p,
        Ok(None) => {
            return Handled { reply: Err(ErrorInfo::new("invalid_params", "Provide 'pane' or 'pane_id'")), refresh: false, read: None, ui: None, notice: None };
        },
        Err(()) => {
            return Handled { reply: Err(ErrorInfo::new("invalid_params", "Invalid pane UUID")), refresh: false, read: None, ui: None, notice: None };
        },
    };
    let selected = match tm.selected_id() {
        Some(s) => s,
        None => {
            return Handled { reply: Err(ErrorInfo::new("not_found", "No workspace selected")), refresh: false, read: None, ui: None, notice: None };
        },
    };
    proof {
        lemma_index_with_pane_found(tm.workspaces@, pane_id);
    }
    let id = match tm.index_with_pane(pane_id) {
        Some(k) => tm.workspaces[k].id,
        None => {
            return Handled { reply: Err(ErrorInfo::new("not_found", "Pane not found")), refresh: false, read: None, ui: None, notice: None };
        },
    };
    if id != selected {
        return Handled { reply: Err(ErrorInfo::new("invalid_params", "Pane belongs to a different workspace")), refresh: false, read: None, ui: None, notice: None };
    }
    proof {
        lemma_index_of_id_total(tm.workspaces@, index_with_pane(tm.workspaces@, pane_id)->0);
        lemma_index_of_id_found(tm.workspaces@, id);
    }
    let focused = match tm.workspace_mut(id) {
        Some(ws) => if ws.focus_pane(pane_id) {
            ws.mark_notifications_read();
            Some(ws.focused_panel_id)
        } else {
            None
        },
        None => None,
    };
    match focused {
        Some(panel) => {
            let ui = match panel {
                Some(p) => Some(UiRequest::FocusSurface { panel_id: p, present_window: false }),
                None => None,
            };
            let mut es: Vec<(String, JsonValue)> = Vec::new();
            es.push(member_of("pane_id", js_id(pane_id)));
            es.push(member_of("workspace_id", js_id(id)));
            es.push(member_of("surface", crate::protocol::js_opt_id(panel)));
            es.push(member_of("focused", JsonValue::Bool(true)));
            let v = JsonValue::Object(es);
            proof {
                assert(keys(v) =~= seq!["pane_id"@, "workspace_id"@, "surface"@, "focused"@]);
            }
            Handled { reply: Ok(v), refresh: true, read: Some(id), ui, notice: None }
        },
        None => {
            proof {
                assert(tm.workspaces@ =~= old(tm).workspaces@);
            }
            Handled { reply: Err(ErrorInfo::new("not_found", "Pane not found")), refresh: false, read: None, ui: None, notice: None }
        },
    }
}


/// The surface named by `surface`, else by `panel`, for commands that
/// insist on a string: nothing where both are absent; errors where the
/// value is not a string or not a UUID.
pub open spec fn explicit_surface(params: JsonValue) -> Parsed<Option<Id>> {
    let v = match params.field("surface"@) {
        Some(v) => Some(v),
        None => params.field("panel"@),
    };
    match v {
        None => Ok(None),
        Some(v) => match v.text() {
            None => Err((invalid_params(), "surface/panel must be a string"@)),
            Some(t) => match crate::ids::spec_uuid_parse(t) {
                Some(id) => Ok(Some(id)),
                None => Err((invalid_params(), "Invalid surface/panel UUID format"@)),
            },
        },
    }
}

/// The surface named by `surface` or `panel` (see `explicit_surface`).
fn parse_explicit_surface(params: &JsonValue) -> (r: Result<Option<Id>, ErrorInfo>)
    ensures
        gives(r, explicit_surface(*params), |x: Option<Id>, v: Option<Id>| x == v),
{
    let v = match params.get("surface") {
        Some(v) => Some(v),
        None => params.get("panel"),
    };
    match v {
        None => Ok(None),
        Some(v) => match v.as_str() {
            None => Err(ErrorInfo::new("invalid_params", "surface/panel must be a string")),
            Some(t) => match crate::ids::parse_uuid(t) {
                Some(id) => Ok(Some(id)),
                None => Err(ErrorInfo::new("invalid_params", "Invalid surface/panel UUID format")),
            },
        },
    }
}

/// The most bytes of input one request sends.
pub const MAX_INPUT_LEN: usize = 131072usize;

/// What `send_input` does (`surface.send_input`): nothing changes in the
/// model.
pub open spec fn send_input_done(old: TabManager, tm: TabManager, params: JsonValue, h: Handled) -> bool {
    match params.text_field("input"@) {
        None => refused(h, tm, old, invalid_params(), "Provide 'input'"@),
        Some(input) => match explicit_surface(params) {
            Err((code, message)) => refused(h, tm, old, code, message),
            Ok(explicit) => {
                let panel: Parsed<Id> = match explicit {
                    Some(p) => if index_with_panel(old.workspaces@, p) is Some {
                        Ok(p)
                    } else {
                        Err((not_found(), "Surface not found"@))
                    },
                    None => match old.selection() {
                        None => Err((not_found(), "No workspace selected"@)),
                        Some(s) => match old.workspaces@[s].focused_panel_id {
                            Some(p) => Ok(p),
                            None => if old.workspaces@[s].layout@.panels().len() > 0 {
                                Ok(old.workspaces@[s].layout@.panels()[0])
                            } else {
                                Err((not_found(), "No focused surface"@))
                            },
                        },
                    },
                };
                match panel {
                    Err((code, message)) => refused(h, tm, old, code, message),
                    Ok(p) => {
                        &&& tm.unchanged(old)
                        &&& !h.refresh
                        &&& h.read is None
                        &&& h.notice is None
                        &&& h.ui matches Some(UiRequest::SendInput { panel_id, text }) && panel_id == p && text@ == truncate_chars(input, MAX_INPUT_LEN as nat)
                        &&& h.reply matches Ok(v) && keys(v) == seq!["sent"@, "surface"@] && at(v, 0) == JsonValue::Bool(true)
                            && at(v, 1).text() == Some(spec_uuid_text(p))
                    },
                }
            },
        },
    }
}

/// `surface.send_input`: ask the UI to send `input` (cut to
/// `MAX_INPUT_LEN` bytes) to the surface named by `surface`/`panel`, else
/// to the selected workspace's focused (or first) panel.
pub fn send_input(tm: &TabManager, params: &JsonValue) -> (h: Handled)
    ensures
        send_input_done(*tm, *tm, *params, h),
{
    let input = match params.str_field("input") {
        Some(i) => truncate_str(i, MAX_INPUT_LEN),
        None => {
            return Handled { reply: Err(ErrorInfo::new("invalid_params", "Provide 'input'")), refresh: false, read: None, ui: None, notice: None };
        },
    };
    let explicit = match parse_explicit_surface(params) {
        Ok(v) => v,
        Err(e) => {
            return Handled { reply: Err(e), refresh: false, read: None, ui: None, notice: None };
        },
    };
    let panel_id = match explicit {
        Some(p) => {
            if tm.index_with_panel(p).is_none() {
                return Handled { reply: Err(ErrorInfo::new("not_found", "Surface not found")), refresh: false, read: None, ui: None, notice: None };
            }
            p
        },
        None => match tm.selected() {
            Some(ws) => match ws.focused_panel_id {
                Some(p) => p,
                None => {
                    let ids = ws.panel_ids();
                    if ids.len() > 0 {
                        ids[0]
                    } else {
                        return Handled { reply: Err(ErrorInfo::new("not_found", "No focused surface")), refresh: false, read: None, ui: None, notice: None };
                    }
                },
            },
            None => {
                return Handled { reply: Err(ErrorInfo::new("not_found", "No workspace selected")), refresh: false, read: None, ui: None, notice: None };
            },
        },
    };
    let reply = pair("sent", JsonValue::Bool(true), "surface", js_id(panel_id));
    Handled { reply: Ok(reply), refresh: false, read: None, ui: Some(UiRequest::SendInput { panel_id, text: input.to_owned() }), notice: None }
}

/// What `focus_surface` does (`surface.focus`).
pub open spec fn focus_surface_done(old: TabManager, tm: TabManager, params: JsonValue, h: Handled) -> bool {
    match crate::protocol::surface_value(params) {
        Err(()) => refused(h, tm, old, invalid_params(), "Invalid surface/panel UUID"@),
        Ok(None) => refused(h, tm, old, invalid_params(), "Provide 'surface' or 'panel'"@),
        Ok(Some(panel)) => match old.selection() {
            None => refused(h, tm, old, not_found(), "No workspace selected"@),
            Some(s) => match index_with_panel(old.workspaces@, panel) {
                None => refused(h, tm, old, not_found(), "Surface not found"@),
                Some(k) => if old.workspaces@[k].id != old.workspaces@[s].id {
                    refused(h, tm, old, invalid_params(), "Surface belongs to a different workspace"@)
                } else {
                    let id = old.workspaces@[k].id;
                    let i = index_of_id(old.workspaces@, id)->0;
                    let w = old.workspaces@[i];
                    if !(w.panels@.contains_key(panel) && w.layout@.panels().contains(panel)) {
                        refused(h, tm, old, not_found(), "Surface not found"@)
                    } else {
                        &&& tm.selected == old.selected
                        &&& tm.workspaces@ == old.workspaces@.update(i, tm.workspaces@[i])
                        &&& tm.workspaces@[i].unread_count == 0
                        &&& tm.workspaces@[i].focused_panel_id == Some(panel)
                        &&& tm.workspaces@[i].layout@ == w.layout@.with_panel_selected(panel)
                        &&& tm.workspaces@[i].focused_pane_id == tm.workspaces@[i].layout@.pane_id_with_panel(panel)
                        &&& tm.workspaces@[i].panels@ == w.panels@
                        &&& tm.workspaces@[i].synced()
                        &&& h.read == Some(id)
                        &&& h.ui == Some(UiRequest::FocusSurface { panel_id: panel, present_window: false })
                        &&& h.notice is None
                        &&& h.refresh
                        &&& h.reply matches Ok(v) && keys(v) == seq!["surface"@, "pane_id"@, "workspace_id"@, "focused"@]
                            && at(v, 0).text() == Some(spec_uuid_text(panel))
                            && crate::protocol::is_opt_id(at(v, 1), tm.workspaces@[i].focused_pane_id)
                            && at(v, 2).text() == Some(spec_uuid_text(id)) && at(v, 3) == JsonValue::Bool(true)
                    }
                },
            },
        },
    }
}

/// `surface.focus`: focus the surface (see `Workspace::focus_surface`),
/// which must lie in the selected workspace, mark that workspace read and
/// ask the UI to focus it.
pub fn focus_surface(tm: &mut TabManager, params: &JsonValue) -> (h: Handled)
    ensures
        focus_surface_done(*old(tm), *final(tm), *params, h),
{
    let panel_id = match parse_surface_param(params) {
        Ok(Some(p)) => p,
        Ok(None) => {
            return Handled { reply: Err(ErrorInfo::new("invalid_params", "Provide 'surface' or 'panel'")), refresh: false, read: None, ui: None, notice: None };
        },
        Err(()) => {
            return Handled { reply: Err(ErrorInfo::new("invalid_params", "Invalid surface/panel UUID")), refresh: false, read: None, ui: None, notice: None };
        },
    };
    let selected = match tm.selected_id() {
        Some(s) => s,
        None => {
            return Handled { reply: Err(ErrorInfo::new("not_found", "No workspace selected")), refresh: false, read: None, ui: None, notice: None };
        },
    };
    proof {
        lemma_index_with_panel_found(tm.workspaces@, panel_id);
    }
    let id = match tm.index_with_panel(panel_id) {
        Some(k) => tm.workspaces[k].id,
        None => {
            return Handled { reply: Err(ErrorInfo::new("not_found", "Surface not found")), refresh: false, read: None, ui: None, notice: None };
        },
    };
    if id != selected {
        return Handled { reply: Err(ErrorInfo::new("invalid_params", "Surface belongs to a different workspace")), refresh: false, read: None, ui: None, notice: None };
    }
    proof {
        lemma_index_of_id_total(tm.workspaces@, index_with_panel(tm.workspaces@, panel_id)->0);
        lemma_index_of_id_found(tm.workspaces@, id);
    }
    let focused = match tm.workspace_mut(id) {
        Some(ws) => if ws.focus_surface(panel_id) {
            ws.mark_notifications_read();
            Some(ws.focused_pane_id)
        } else {
            None
        },
        None => None,
    };
    match focused {
        Some(pane) => {
            let mut es: Vec<(String, JsonValue)> = Vec::new();
            es.push(member_of("surface", js_id(panel_id)));
            es.push(member_of("pane_id", crate::protocol::js_opt_id(pane)));
            es.push(member_of("workspace_id", js_id(id)));
            es.push(member_of("focused", JsonValue::Bool(true)));
            let v = JsonValue::Object(es);
            proof {
                assert(keys(v) =~= seq!["surface"@, "pane_id"@, "workspace_id"@, "focused"@]);
            }
            Handled { reply: Ok(v), refresh: true, read: Some(id), ui: Some(UiRequest::FocusSurface { panel_id, present_window: false }), notice: None }
        },
        None => {
            proof {
                assert(tm.workspaces@ =~= old(tm).workspaces@);
            }
            Handled { reply: Err(ErrorInfo::new("not_found", "Surface not found")), refresh: false, read: None, ui: None, notice: None }
        },
    }
}

/// What `close_surface` does (`surface.close`): nothing changes in the
/// model; the UI is asked to close the surface.
pub open spec fn close_surface_done(old: TabManager, tm: TabManager, params: JsonValue, h: Handled) -> bool {
    match crate::protocol::surface_value(params) {
        Err(()) => refused(h, tm, old, invalid_params(), "Invalid surface/panel UUID"@),
        Ok(None) => refused(h, tm, old, invalid_params(), "Provide 'surface' or 'panel'"@),
        Ok(Some(panel)) => if index_with_panel(old.workspaces@, panel) is None {
            refused(h, tm, old, not_found(), "Surface not found"@)
        } else {
            &&& tm.unchanged(old)
            &&& !h.refresh
            &&& h.read is None
            &&& h.ui == Some(UiRequest::CloseSurface { panel_id: panel })
            &&& h.notice is None
            &&& h.reply matches Ok(v) && keys(v) == seq!["surface"@, "closed"@] && at(v, 0).text() == Some(spec_uuid_text(panel))
                && at(v, 1) == JsonValue::Bool(true)
        },
    }
}

/// `surface.close`: ask the UI to close the surface.
pub fn close_surface(tm: &TabManager, params: &JsonValue) -> (h: Handled)
    ensures
        close_surface_done(*tm, *tm, *params, h),
{
    let panel_id = match parse_surface_param(params) {
        Ok(Some(p)) => p,
        Ok(None) => {
            return Handled { reply: Err(ErrorInfo::new("invalid_params", "Provide 'surface' or 'panel'")), refresh: false, read: None, ui: None, notice: None };
        },
        Err(()) => {
            return Handled { reply: Err(ErrorInfo::new("invalid_params", "Invalid surface/panel UUID")), refresh: false, read: None, ui: None, notice: None };
        },
    };
    if tm.index_with_panel(panel_id).is_none() {
        return Handled { reply: Err(ErrorInfo::new("not_found", "Surface not found")), refresh: false, read: None, ui: None, notice: None };
    }
    Handled {
        reply: Ok(pair("surface", js_id(panel_id), "closed", JsonValue::Bool(true))),
        refresh: false,
        read: None,
        ui: Some(UiRequest::CloseSurface { panel_id }),
        notice: None,
    }
}

/// The title and body of a notification: `title` (default `cmux`) cut to
/// 1024 bytes, `body` (default empty) cut to 8192 bytes.
pub open spec fn notification_text(params: JsonValue) -> (Seq<char>, Seq<char>) {
    (
        truncate_chars(match params.text_field("title"@) { Some(t) => t, None => "cmux"@ }, 1024),
        truncate_chars(match params.text_field("body"@) { Some(b) => b, None => Seq::empty() }, 8192),
    )
}

/// Whether a notification is to be shown on the desktop: `send_desktop`
/// where it is a boolean, else yes.
pub open spec fn desktop_wanted(params: JsonValue) -> bool {
    match params.field("send_desktop"@) {
        Some(JsonValue::Bool(b)) => b,
        _ => true,
    }
}

/// What `create_notification` does (`notification.create`).
pub open spec fn create_notification_done(old: TabManager, tm: TabManager, params: JsonValue, now: Timestamp, h: Handled) -> bool {
    &&& h.read is None
    &&& h.ui is None
    &&& match uuid_value(workspace_value(params)) {
        Err(()) => refused(h, tm, old, invalid_params(), "Invalid workspace UUID"@),
        Ok(w) => match explicit_surface(params) {
            Err((code, message)) => refused(h, tm, old, code, message),
            Ok(panel) => {
                let target: Parsed<Id> = match w {
                    Some(w) => if index_of_id(old.workspaces@, w) is Some {
                        Ok(w)
                    } else {
                        Err((not_found(), "Workspace not found"@))
                    },
                    None => match panel {
                        Some(p) => match index_with_panel(old.workspaces@, p) {
                            Some(k) => Ok(old.workspaces@[k].id),
                            None => Err((not_found(), "No workspace selected"@)),
                        },
                        None => match old.selection() {
                            Some(s) => Ok(old.workspaces@[s].id),
                            None => Err((not_found(), "No workspace selected"@)),
                        },
                    },
                };
                match target {
                    Err((code, message)) => refused(h, tm, old, code, message),
                    Ok(id) => {
                        let i = index_of_id(old.workspaces@, id)->0;
                        let before = old.workspaces@[i];
                        let after = tm.workspaces@[i];
                        let resolved = match panel {
                            Some(p) => if before.panels@.contains_key(p) { Some(p) } else { None },
                            None => None,
                        };
                        let (title, body) = notification_text(params);
                        &&& tm.updated_at(old, i)
                        &&& after.unread_count == (if before.unread_count == u32::MAX { u32::MAX as int } else { before.unread_count + 1 })
                        &&& after.latest_notification.deep_view() == Some(notification_summary_text(title, body))
                        &&& after.attention_panel_id == resolved
                        &&& after == (Workspace {
                            unread_count: after.unread_count,
                            latest_notification: after.latest_notification,
                            latest_notification_at: Some(now),
                            attention_panel_id: resolved,
                            ..before
                        })
                        &&& h.refresh
                        &&& h.notice matches Some(n) && n.title@ == title && n.body@ == body && n.workspace_id == id
                            && n.panel_id == resolved && n.send_desktop == desktop_wanted(params)
                        &&& h.reply matches Ok(v) && keys(v) == seq!["notified"@, "workspace"@, "workspace_id"@, "surface"@]
                            && at(v, 0) == JsonValue::Bool(true) && at(v, 1).text() == Some(spec_uuid_text(id))
                            && at(v, 2).text() == Some(spec_uuid_text(id)) && crate::protocol::is_opt_id(at(v, 3), resolved)
                    },
                }
            },
        },
    }
}

/// `notification.create`: record a notification (see
/// `notification_text` and `Workspace::record_notification_at`, at `now`) in the
/// workspace named by `workspace`/`workspace_id`, else the one holding the
/// named surface, else the selected one.
pub fn create_notification(tm: &mut TabManager, params: &JsonValue, now: Timestamp) -> (h: Handled)
    ensures
        create_notification_done(*old(tm), *final(tm), *params, now, h),
{
    let title = match params.str_field("title") {
        Some(t) => t,
        None => "cmux",
    };
    let title = truncate_str(title, 1024);
    let body = match params.str_field("body") {
        Some(b) => b,
        None => "",
    };
    proof {
        reveal_strlit("");
        assert(""@ =~= Seq::<char>::empty());
    }
    let body = truncate_str(body, 8192);
    let w = match parse_workspace_param(params) {
        Ok(v) => v,
        Err(()) => {
            return Handled { reply: Err(ErrorInfo::new("invalid_params", "Invalid workspace UUID")), refresh: false, read: None, ui: None, notice: None };
        },
    };
    let panel = match parse_explicit_surface(params) {
        Ok(v) => v,
        Err(e) => {
            return Handled { reply: Err(e), refresh: false, read: None, ui: None, notice: None };
        },
    };
    let target = match w {
        Some(w) => {
            if tm.index_of(w).is_none() {
                return Handled { reply: Err(ErrorInfo::new("not_found", "Workspace not found")), refresh: false, read: None, ui: None, notice: None };
            }
            Some(w)
        },
        None => match panel {
            Some(p) => {
                proof {
                    lemma_index_with_panel_found(tm.workspaces@, p);
                }
                match tm.index_with_panel(p) {
                    Some(k) => Some(tm.workspaces[k].id),
                    None => None,
                }
            },
            None => tm.selected_id(),
        },
    };
    let id = match target {
        Some(id) => id,
        None => {
            return Handled { reply: Err(ErrorInfo::new("not_found", "No workspace selected")), refresh: false, read: None, ui: None, notice: None };
        },
    };
    proof {
        if w is None {
            if let Some(p) = panel {
                lemma_index_of_id_total(tm.workspaces@, index_with_panel(tm.workspaces@, p)->0);
            } else {
                lemma_index_of_id_total(tm.workspaces@, tm.selection()->0);
            }
        }
        lemma_index_of_id_found(tm.workspaces@, id);
    }
    let resolved = match tm.workspace_mut(id) {
        Some(ws) => {
            let resolved = match panel {
                Some(p) => if ws.panels.contains_key(&p) {
                    Some(p)
                } else {
                    None
                },
                None => None,
            };
            ws.record_notification_at(title, body, resolved, now);
            resolved
        },
        None => None,
    };
    let mut es: Vec<(String, JsonValue)> = Vec::new();
    es.push(member_of("notified", JsonValue::Bool(true)));
    es.push(member_of("workspace", js_id(id)));
    es.push(member_of("workspace_id", js_id(id)));
    es.push(member_of("surface", crate::protocol::js_opt_id(resolved)));
    let v = JsonValue::Object(es);
    proof {
        assert(keys(v) =~= seq!["notified"@, "workspace"@, "workspace_id"@, "surface"@]);
    }
    let notice = Notice {
        title: title.to_owned(),
        body: body.to_owned(),
        workspace_id: id,
        panel_id: resolved,
        send_desktop: match params.get("send_desktop") {
            Some(JsonValue::Bool(b)) => *b,
            _ => true,
        },
    };
    Handled { reply: Ok(v), refresh: true, read: None, ui: None, notice: Some(notice) }
}


/// What `clear_pwd` does (`workspace.clear_pwd`).
pub open spec fn clear_pwd_done(old: TabManager, tm: TabManager, params: JsonValue, h: Handled) -> bool {
    &&& h.plain()
    &&& match report_target(old.workspaces@, old.selection(), params) {
        Err((code, message)) => refused(h, tm, old, code, message),
        Ok((w, p)) => {
            let i = index_of_id(old.workspaces@, w)->0;
            let before = old.workspaces@[i].panel_view(p);
            let after = tm.workspaces@[i].panel_view(p);
            let held = old.workspaces@[i].panels@.contains_key(p);
            &&& tm.updated_at(old, i)
            &&& tm.workspaces@[i].cleared(
                old.workspaces@[i],
                p,
                PanelView { directory: None, directory_updated_at: after.directory_updated_at, ..before },
                before.directory is Some,
                if held { Some(ClearOutcome { removed: before.directory is Some, metadata_changed: tm.workspaces@[i].summary() != old.workspaces@[i].summary() }) } else { None },
            )
            &&& h.refresh == (held && (before.directory is Some || tm.workspaces@[i].summary() != old.workspaces@[i].summary()))
            &&& h.reply matches Ok(v) && keys(v) == seq!["ok"@, "cleared"@, "workspace_id"@, "surface"@]
                && at(v, 0) == JsonValue::Bool(true) && at(v, 1) == JsonValue::Bool(held && before.directory is Some)
                && at(v, 2).text() == Some(spec_uuid_text(w)) && at(v, 3).text() == Some(spec_uuid_text(p))
        }
    }
}

/// `workspace.clear_pwd`: forget the directory of the report's panel (see `report_target`); the reply tells whether the panel
/// had it, as `cleared`.
pub fn clear_pwd(tm: &mut TabManager, params: &JsonValue) -> (h: Handled)
    ensures
        clear_pwd_done(*old(tm), *final(tm), *params, h),
{
    let (w, p) = match resolve_report_target(tm, params) {
        Ok(t) => t,
        Err(e) => {
            return Handled { reply: Err(e), refresh: false, read: None, ui: None, notice: None };
        },
    };
    proof {
        lemma_index_of_id_found(tm.workspaces@, w);
    }
    let outcome = match tm.workspace_mut(w) {
        Some(ws) => ws.clear_panel_directory(p),
        None => None,
    };
    let (removed, changed) = match outcome {
        Some(o) => (o.removed, o.changed()),
        None => (false, false),
    };
    let mut es: Vec<(String, JsonValue)> = Vec::new();
    es.push(member_of("ok", JsonValue::Bool(true)));
    es.push(member_of("cleared", JsonValue::Bool(removed)));
    es.push(member_of("workspace_id", js_id(w)));
    es.push(member_of("surface", js_id(p)));
    let v = JsonValue::Object(es);
    proof {
        assert(keys(v) =~= seq!["ok"@, "cleared"@, "workspace_id"@, "surface"@]);
    }
    Handled { reply: Ok(v), refresh: changed, read: None, ui: None, notice: None }
}

/// What `clear_shell_state` does (`workspace.clear_shell_state`).
pub open spec fn clear_shell_state_done(old: TabManager, tm: TabManager, params: JsonValue, h: Handled) -> bool {
    &&& h.plain()
    &&& match report_target(old.workspaces@, old.selection(), params) {
        Err((code, message)) => refused(h, tm, old, code, message),
        Ok((w, p)) => {
            let i = index_of_id(old.workspaces@, w)->0;
            let before = old.workspaces@[i].panel_view(p);
            let after = tm.workspaces@[i].panel_view(p);
            let held = old.workspaces@[i].panels@.contains_key(p);
            &&& tm.updated_at(old, i)
            &&& tm.workspaces@[i].cleared(
                old.workspaces@[i],
                p,
                PanelView { shell_state: None, shell_state_updated_at: after.shell_state_updated_at, ..before },
                before.shell_state is Some,
                if held { Some(ClearOutcome { removed: before.shell_state is Some, metadata_changed: tm.workspaces@[i].summary() != old.workspaces@[i].summary() }) } else { None },
            )
            &&& h.refresh == (held && (before.shell_state is Some || tm.workspaces@[i].summary() != old.workspaces@[i].summary()))
            &&& h.reply matches Ok(v) && keys(v) == seq!["ok"@, "cleared"@, "workspace_id"@, "surface"@]
                && at(v, 0) == JsonValue::Bool(true) && at(v, 1) == JsonValue::Bool(held && before.shell_state is Some)
                && at(v, 2).text() == Some(spec_uuid_text(w)) && at(v, 3).text() == Some(spec_uuid_text(p))
        }
    }
}

/// `workspace.clear_shell_state`: forget the shell state of the report's panel (see `report_target`); the reply tells whether the panel
/// had it, as `cleared`.
pub fn clear_shell_state(tm: &mut TabManager, params: &JsonValue) -> (h: Handled)
    ensures
        clear_shell_state_done(*old(tm), *final(tm), *params, h),
{
    let (w, p) = match resolve_report_target(tm, params) {
        Ok(t) => t,
        Err(e) => {
            return Handled { reply: Err(e), refresh: false, read: None, ui: None, notice: None };
        },
    };
    proof {
        lemma_index_of_id_found(tm.workspaces@, w);
    }
    let outcome = match tm.workspace_mut(w) {
        Some(ws) => ws.clear_panel_shell_state(p),
        None => None,
    };
    let (removed, changed) = match outcome {
        Some(o) => (o.removed, o.changed()),
        None => (false, false),
    };
    let mut es: Vec<(String, JsonValue)> = Vec::new();
    es.push(member_of("ok", JsonValue::Bool(true)));
    es.push(member_of("cleared", JsonValue::Bool(removed)));
    es.push(member_of("workspace_id", js_id(w)));
    es.push(member_of("surface", js_id(p)));
    let v = JsonValue::Object(es);
    proof {
        assert(keys(v) =~= seq!["ok"@, "cleared"@, "workspace_id"@, "surface"@]);
    }
    Handled { reply: Ok(v), refresh: changed, read: None, ui: None, notice: None }
}

/// What `clear_tty` does (`workspace.clear_tty`).
pub open spec fn clear_tty_done(old: TabManager, tm: TabManager, params: JsonValue, h: Handled) -> bool {
    &&& h.plain()
    &&& match report_target(old.workspaces@, old.selection(), params) {
        Err((code, message)) => refused(h, tm, old, code, message),
        Ok((w, p)) => {
            let i = index_of_id(old.workspaces@, w)->0;
            let before = old.workspaces@[i].panel_view(p);
            let after = tm.workspaces@[i].panel_view(p);
            let held = old.workspaces@[i].panels@.contains_key(p);
            &&& tm.updated_at(old, i)
            &&& tm.workspaces@[i].cleared(
                old.workspaces@[i],
                p,
                PanelView { tty_name: None, tty_name_updated_at: after.tty_name_updated_at, ..before },
                before.tty_name is Some,
                if held { Some(ClearOutcome { removed: before.tty_name is Some, metadata_changed: tm.workspaces@[i].summary() != old.workspaces@[i].summary() }) } else { None },
            )
            &&& h.refresh == (held && (before.tty_name is Some || tm.workspaces@[i].summary() != old.workspaces@[i].summary()))
            &&& h.reply matches Ok(v) && keys(v) == seq!["ok"@, "cleared"@, "workspace_id"@, "surface"@]
                && at(v, 0) == JsonValue::Bool(true) && at(v, 1) == JsonValue::Bool(held && before.tty_name is Some)
                && at(v, 2).text() == Some(spec_uuid_text(w)) && at(v, 3).text() == Some(spec_uuid_text(p))
        }
    }
}

/// `workspace.clear_tty`: forget the TTY of the report's panel (see `report_target`); the reply tells whether the panel
/// had it, as `cleared`.
pub fn clear_tty(tm: &mut TabManager, params: &JsonValue) -> (h: Handled)
    ensures
        clear_tty_done(*old(tm), *final(tm), *params, h),
{
    let (w, p) = match resolve_report_target(tm, params) {
        Ok(t) => t,
        Err(e) => {
            return Handled { reply: Err(e), refresh: false, read: None, ui: None, notice: None };
        },
    };
    proof {
        lemma_index_of_id_found(tm.workspaces@, w);
    }
    let outcome = match tm.workspace_mut(w) {
        Some(ws) => ws.clear_panel_tty(p),
        None => None,
    };
    let (removed, changed) = match outcome {
        Some(o) => (o.removed, o.changed()),
        None => (false, false),
    };
    let mut es: Vec<(String, JsonValue)> = Vec::new();
    es.push(member_of("ok", JsonValue::Bool(true)));
    es.push(member_of("cleared", JsonValue::Bool(removed)));
    es.push(member_of("workspace_id", js_id(w)));
    es.push(member_of("surface", js_id(p)));
    let v = JsonValue::Object(es);
    proof {
        assert(keys(v) =~= seq!["ok"@, "cleared"@, "workspace_id"@, "surface"@]);
    }
    Handled { reply: Ok(v), refresh: changed, read: None, ui: None, notice: None }
}

/// What `clear_meta` does (`workspace.clear_meta`).
pub open spec fn clear_meta_done(old: TabManager, tm: TabManager, params: JsonValue, h: Handled) -> bool {
    &&& h.plain()
    &&& match report_target(old.workspaces@, old.selection(), params) {
        Err((code, message)) => refused(h, tm, old, code, message),
        Ok((w, p)) => { match key_param(params) {
            Err((code, message)) => refused(h, tm, old, code, message),
            Ok(key) => {
            let i = index_of_id(old.workspaces@, w)->0;
            let before = old.workspaces@[i].panel_view(p);
            let after = tm.workspaces@[i].panel_view(p);
            let held = old.workspaces@[i].panels@.contains_key(p);
            &&& tm.updated_at(old, i)
            &&& tm.workspaces@[i].cleared(
                old.workspaces@[i],
                p,
                PanelView { metadata_items: match item_index(before.metadata_items, key) { Some(k) => before.metadata_items.remove(k), None => before.metadata_items }, ..before },
                item_index(before.metadata_items, key) is Some,
                if held { Some(ClearOutcome { removed: item_index(before.metadata_items, key) is Some, metadata_changed: tm.workspaces@[i].summary() != old.workspaces@[i].summary() }) } else { None },
            )
            &&& h.refresh == (held && (item_index(before.metadata_items, key) is Some || tm.workspaces@[i].summary() != old.workspaces@[i].summary()))
            &&& h.reply matches Ok(v) && keys(v) == seq!["ok"@, "cleared"@, "workspace_id"@, "surface"@, "key"@]
                && at(v, 0) == JsonValue::Bool(true) && at(v, 1) == JsonValue::Bool(held && item_index(before.metadata_items, key) is Some)
                && at(v, 2).text() == Some(spec_uuid_text(w)) && at(v, 3).text() == Some(spec_uuid_text(p)) && at(v, 4).text() == Some(key)
            }
        }
        },
    }
}

/// `workspace.clear_meta`: remove the metadata item `key` (see `key_param`) of the report's panel (see `report_target`); the reply tells whether the panel
/// had it, as `cleared`.
pub fn clear_meta(tm: &mut TabManager, params: &JsonValue) -> (h: Handled)
    ensures
        clear_meta_done(*old(tm), *final(tm), *params, h),
{
    let (w, p) = match resolve_report_target(tm, params) {
        Ok(t) => t,
        Err(e) => {
            return Handled { reply: Err(e), refresh: false, read: None, ui: None, notice: None };
        },
    };
    let key = match parse_metadata_key(params) {
        Ok(k) => k,
        Err(e) => {
            return Handled { reply: Err(e), refresh: false, read: None, ui: None, notice: None };
        },
    };
    proof {
        lemma_index_of_id_found(tm.workspaces@, w);
    }
    let outcome = match tm.workspace_mut(w) {
        Some(ws) => ws.clear_panel_metadata_item(p, key.as_str()),
        None => None,
    };
    let (removed, changed) = match outcome {
        Some(o) => (o.removed, o.changed()),
        None => (false, false),
    };
    let mut es: Vec<(String, JsonValue)> = Vec::new();
    es.push(member_of("ok", JsonValue::Bool(true)));
    es.push(member_of("cleared", JsonValue::Bool(removed)));
    es.push(member_of("workspace_id", js_id(w)));
    es.push(member_of("surface", js_id(p)));
    es.push(member_of("key", js_text(key.as_str())));
    let v = JsonValue::Object(es);
    proof {
        assert(keys(v) =~= seq!["ok"@, "cleared"@, "workspace_id"@, "surface"@, "key"@]);
    }
    Handled { reply: Ok(v), refresh: changed, read: None, ui: None, notice: None }
}

/// What `clear_meta_block` does (`workspace.clear_meta_block`).
pub open spec fn clear_meta_block_done(old: TabManager, tm: TabManager, params: JsonValue, h: Handled) -> bool {
    &&& h.plain()
    &&& match report_target(old.workspaces@, old.selection(), params) {
        Err((code, message)) => refused(h, tm, old, code, message),
        Ok((w, p)) => { match key_param(params) {
            Err((code, message)) => refused(h, tm, old, code, message),
            Ok(key) => {
            let i = index_of_id(old.workspaces@, w)->0;
            let before = old.workspaces@[i].panel_view(p);
            let after = tm.workspaces@[i].panel_view(p);
            let held = old.workspaces@[i].panels@.contains_key(p);
            &&& tm.updated_at(old, i)
            &&& tm.workspaces@[i].cleared(
                old.workspaces@[i],
                p,
                PanelView { metadata_blocks: match block_index(before.metadata_blocks, key) { Some(k) => before.metadata_blocks.remove(k), None => before.metadata_blocks }, ..before },
                block_index(before.metadata_blocks, key) is Some,
                if held { Some(ClearOutcome { removed: block_index(before.metadata_blocks, key) is Some, metadata_changed: tm.workspaces@[i].summary() != old.workspaces@[i].summary() }) } else { None },
            )
            &&& h.refresh == (held && (block_index(before.metadata_blocks, key) is Some || tm.workspaces@[i].summary() != old.workspaces@[i].summary()))
            &&& h.reply matches Ok(v) && keys(v) == seq!["ok"@, "cleared"@, "workspace_id"@, "surface"@, "key"@]
                && at(v, 0) == JsonValue::Bool(true) && at(v, 1) == JsonValue::Bool(held && block_index(before.metadata_blocks, key) is Some)
                && at(v, 2).text() == Some(spec_uuid_text(w)) && at(v, 3).text() == Some(spec_uuid_text(p)) && at(v, 4).text() == Some(key)
            }
        }
        },
    }
}

/// `workspace.clear_meta_block`: remove the metadata block `key` (see `key_param`) of the report's panel (see `report_target`); the reply tells whether the panel
/// had it, as `cleared`.
pub fn clear_meta_block(tm: &mut TabManager, params: &JsonValue) -> (h: Handled)
    ensures
        clear_meta_block_done(*old(tm), *final(tm), *params, h),
{
    let (w, p) = match resolve_report_target(tm, params) {
        Ok(t) => t,
        Err(e) => {
            return Handled { reply: Err(e), refresh: false, read: None, ui: None, notice: None };
        },
    };
    let key = match parse_metadata_key(params) {
        Ok(k) => k,
        Err(e) => {
            return Handled { reply: Err(e), refresh: false, read: None, ui: None, notice: None };
        },
    };
    proof {
        lemma_index_of_id_found(tm.workspaces@, w);
    }
    let outcome = match tm.workspace_mut(w) {
        Some(ws) => ws.clear_panel_metadata_block(p, key.as_str()),
        None => None,
    };
    let (removed, changed) = match outcome {
        Some(o) => (o.removed, o.changed()),
        None => (false, false),
    };
    let mut es: Vec<(String, JsonValue)> = Vec::new();
    es.push(member_of("ok", JsonValue::Bool(true)));
    es.push(member_of("cleared", JsonValue::Bool(removed)));
    es.push(member_of("workspace_id", js_id(w)));
    es.push(member_of("surface", js_id(p)));
    es.push(member_of("key", js_text(key.as_str())));
    let v = JsonValue::Object(es);
    proof {
        assert(keys(v) =~= seq!["ok"@, "cleared"@, "workspace_id"@, "surface"@, "key"@]);
    }
    Handled { reply: Ok(v), refresh: changed, read: None, ui: None, notice: None }
}

/// What `cycle_surface` does (`surface.next` where `next`, else
/// `surface.previous`).
pub open spec fn cycle_surface_done(old: TabManager, tm: TabManager, params: JsonValue, next: bool, h: Handled) -> bool {
    match pane_value(params) {
        Err(()) => refused(h, tm, old, invalid_params(), "Invalid pane UUID"@),
        Ok(given) => match old.selection() {
            None => refused(h, tm, old, not_found(), "No workspace selected"@),
            Some(s) => {
                let target = match given {
                    Some(q) => Some(q),
                    None => old.workspaces@[s].focused_pane_id,
                };
                match target {
                    None => refused(h, tm, old, not_found(), "No focused pane"@),
                    Some(pane_id) => match index_with_pane(old.workspaces@, pane_id) {
                        None => refused(h, tm, old, not_found(), "Pane not found"@),
                        Some(k) => if old.workspaces@[k].id != old.workspaces@[s].id {
                            refused(h, tm, old, invalid_params(), "Pane belongs to a different workspace"@)
                        } else {
                            let id = old.workspaces@[s].id;
                            let i = index_of_id(old.workspaces@, id)->0;
                            let w = old.workspaces@[i];
                            match w.pane_with_tabs(pane_id) {
                                None => refused(h, tm, old, not_found(), "No surface available in pane"@),
                                Some(p) => {
                                    let panel = p.panel_ids[cycled_index(p, next)];
                                    &&& tm.updated_at(old, i)
                                    &&& tm.workspaces@[i].unread_count == 0
                                    &&& (Workspace { unread_count: w.unread_count, ..tm.workspaces@[i] }).cycled_in(w, pane_id, next, Some(panel))
                                    &&& h.read == Some(id)
                                    &&& h.ui == Some(UiRequest::FocusSurface { panel_id: panel, present_window: false })
                                    &&& h.notice is None
                                    &&& h.refresh
                                    &&& h.reply matches Ok(v) && keys(v) == seq!["workspace_id"@, "pane_id"@, "surface"@, "focused"@]
                                        && at(v, 0).text() == Some(spec_uuid_text(id)) && at(v, 1).text() == Some(spec_uuid_text(pane_id))
                                        && at(v, 2).text() == Some(spec_uuid_text(panel)) && at(v, 3) == JsonValue::Bool(true)
                                },
                            }
                        },
                    },
                }
            },
        },
    }
}

/// `surface.next` / `surface.previous`: select the next (previous) tab of
/// the pane (by default the focused pane of the selected workspace),
/// which must lie in the selected workspace; focus it, mark the workspace
/// read and ask the UI to focus the tab.
pub fn cycle_surface(tm: &mut TabManager, params: &JsonValue, next: bool) -> (h: Handled)
    ensures
        cycle_surface_done(*old(tm), *final(tm), *params, next, h),
{
    let given = match parse_pane_param(params) {
        Ok(v) => v,
        Err(()) => {
            return Handled { reply: Err(ErrorInfo::new("invalid_params", "Invalid pane UUID")), refresh: false, read: None, ui: None, notice: None };
        },
    };
    let selected = match tm.selected_id() {
        Some(s) => s,
        None => {
            return Handled { reply: Err(ErrorInfo::new("not_found", "No workspace selected")), refresh: false, read: None, ui: None, notice: None };
        },
    };
    let pane_id = match given {
        Some(q) => q,
        None => match tm.selected() {
            Some(w) => match w.focused_pane_id {
                Some(q) => q,
                None => {
                    return Handled { reply: Err(ErrorInfo::new("not_found", "No focused pane")), refresh: false, read: None, ui: None, notice: None };
                },
            },
            None => {
                return Handled { reply: Err(ErrorInfo::new("not_found", "No workspace selected")), refresh: false, read: None, ui: None, notice: None };
            },
        },
    };
    proof {
        lemma_index_with_pane_found(tm.workspaces@, pane_id);
    }
    let id = match tm.index_with_pane(pane_id) {
        Some(k) => tm.workspaces[k].id,
        None => {
            return Handled { reply: Err(ErrorInfo::new("not_found", "Pane not found")), refresh: false, read: None, ui: None, notice: None };
        },
    };
    if id != selected {
        return Handled { reply: Err(ErrorInfo::new("invalid_params", "Pane belongs to a different workspace")), refresh: false, read: None, ui: None, notice: None };
    }
    proof {
        lemma_index_of_id_total(tm.workspaces@, index_with_pane(tm.workspaces@, pane_id)->0);
        lemma_index_of_id_found(tm.workspaces@, id);
    }
    let focused = match tm.workspace_mut(id) {
        Some(ws) => {
            let moved = if next {
                ws.focus_next_surface_in_pane(pane_id)
            } else {
                ws.focus_previous_surface_in_pane(pane_id)
            };
            if moved.is_some() {
                ws.mark_notifications_read();
            }
            moved
        },
        None => None,
    };
    match focused {
        Some(panel) => {
            let mut es: Vec<(String, JsonValue)> = Vec::new();
            es.push(member_of("workspace_id", js_id(id)));
            es.push(member_of("pane_id", js_id(pane_id)));
            es.push(member_of("surface", js_id(panel)));
            es.push(member_of("focused", JsonValue::Bool(true)));
            let v = JsonValue::Object(es);
            proof {
                assert(keys(v) =~= seq!["workspace_id"@, "pane_id"@, "surface"@, "focused"@]);
            }
            Handled { reply: Ok(v), refresh: true, read: Some(id), ui: Some(UiRequest::FocusSurface { panel_id: panel, present_window: false }), notice: None }
        },
        None => {
            proof {
                assert(tm.workspaces@ =~= old(tm).workspaces@);
            }
            Handled { reply: Err(ErrorInfo::new("not_found", "No surface available in pane")), refresh: false, read: None, ui: None, notice: None }
        },
    }
}

/// What `move_surface` does (`surface.move_forward` where `forward`, else
/// `surface.move_backward`).
pub open spec fn move_surface_done(old: TabManager, tm: TabManager, params: JsonValue, forward: bool, h: Handled) -> bool {
    let target: Parsed<Id> = match crate::protocol::surface_value(params) {
        Err(()) => Err((invalid_params(), "Invalid surface/panel UUID"@)),
        Ok(Some(panel)) => Ok(panel),
        Ok(None) => match old.selection() {
            None => Err((not_found(), "No workspace selected"@)),
            Some(s) => match old.workspaces@[s].focused_panel_id {
                None => Err((not_found(), "No focused surface"@)),
                Some(panel) => Ok(panel),
            },
        },
    };
    match target {
        Err((code, message)) => refused(h, tm, old, code, message),
        Ok(panel) => match index_with_panel(old.workspaces@, panel) {
            None => refused(h, tm, old, not_found(), "Surface not found"@),
            Some(i) => {
                let w = old.workspaces@[i];
                match crate::workspace_ops::tab_move(w.layout@, panel, forward) {
                    None => refused(h, tm, old, invalid_params(), "Surface reorder is invalid for the requested surface"@),
                    Some((q, _)) => {
                        &&& tm.updated_at(old, i)
                        &&& tm.workspaces@[i].tab_moved_from(w, panel, forward, Some(q))
                        &&& h.plain()
                        &&& h.refresh
                        &&& h.reply matches Ok(v) && keys(v) == seq!["pane_id"@, "surface"@, "moved"@]
                            && at(v, 0).text() == Some(spec_uuid_text(q)) && at(v, 1).text() == Some(spec_uuid_text(panel))
                            && at(v, 2) == JsonValue::Bool(true)
                    },
                }
            },
        },
    }
}

/// `surface.move_forward` / `surface.move_backward`: move the surface's
/// tab (by default the focused surface of the selected workspace) one
/// place forward (back) in its pane.
pub fn move_surface(tm: &mut TabManager, params: &JsonValue, forward: bool) -> (h: Handled)
    ensures
        move_surface_done(*old(tm), *final(tm), *params, forward, h),
{
    let panel = match parse_surface_param(params) {
        Ok(Some(p)) => p,
        Ok(None) => match tm.selected() {
            Some(w) => match w.focused_panel_id {
                Some(p) => p,
                None => {
                    return Handled { reply: Err(ErrorInfo::new("not_found", "No focused surface")), refresh: false, read: None, ui: None, notice: None };
                },
            },
            None => {
                return Handled { reply: Err(ErrorInfo::new("not_found", "No workspace selected")), refresh: false, read: None, ui: None, notice: None };
            },
        },
        Err(()) => {
            return Handled { reply: Err(ErrorInfo::new("invalid_params", "Invalid surface/panel UUID")), refresh: false, read: None, ui: None, notice: None };
        },
    };
    proof {
        lemma_index_with_panel_found(tm.workspaces@, panel);
    }
    let moved = match tm.find_workspace_with_panel_mut(panel) {
        Some(ws) => if forward {
            ws.move_surface_forward(panel)
        } else {
            ws.move_surface_backward(panel)
        },
        None => {
            return Handled { reply: Err(ErrorInfo::new("not_found", "Surface not found")), refresh: false, read: None, ui: None, notice: None };
        },
    };
    match moved {
        Some(q) => {
            let mut es: Vec<(String, JsonValue)> = Vec::new();
            es.push(member_of("pane_id", js_id(q)));
            es.push(member_of("surface", js_id(panel)));
            es.push(member_of("moved", JsonValue::Bool(true)));
            let v = JsonValue::Object(es);
            proof {
                assert(keys(v) =~= seq!["pane_id"@, "surface"@, "moved"@]);
            }
            Handled { reply: Ok(v), refresh: true, read: None, ui: None, notice: None }
        },
        None => {
            proof {
                assert(tm.workspaces@ =~= old(tm).workspaces@);
            }
            Handled { reply: Err(ErrorInfo::new("invalid_params", "Surface reorder is invalid for the requested surface")), refresh: false, read: None, ui: None, notice: None }
        },
    }
}

/// What `reorder_workspace` does (`workspace.reorder`).
pub open spec fn reorder_workspace_done(old: TabManager, tm: TabManager, params: JsonValue, h: Handled) -> bool {
    let indices: Parsed<(usize, usize)> = match usize_param(params, "to_index"@) {
        Err((code, message)) => Err((code, message)),
        Ok(None) => Err((invalid_params(), "Provide 'to_index'"@)),
        Ok(Some(to)) => match usize_param(params, "from_index"@) {
            Err((code, message)) => Err((code, message)),
            Ok(from) => match uuid_value(workspace_value(params)) {
                Err(()) => Err((invalid_params(), "Invalid workspace UUID"@)),
                Ok(w) => match from {
                    Some(from) => Ok((from, to)),
                    None => match w {
                        Some(w) => match index_of_id(old.workspaces@, w) {
                            Some(i) => Ok((i as usize, to)),
                            None => Err((not_found(), "Workspace not found"@)),
                        },
                        None => Err((invalid_params(), "Provide 'from_index' or 'workspace'/'workspace_id'"@)),
                    },
                },
            },
        },
    };
    match indices {
        Err((code, message)) => refused(h, tm, old, code, message),
        Ok((from, to)) => {
            let n = old.workspaces@.len();
            if from < n && to < n && from != to && old.workspaces@[from as int].is_pinned == old.workspaces@[to as int].is_pinned {
                &&& tm.workspaces@ == moved_seq(old.workspaces@, from as int, to as int)
                &&& tm.selected == moved_selected(old.selected, from as int, to as int)
                &&& h.plain()
                &&& h.refresh
                &&& h.reply matches Ok(v) && keys(v) == seq!["workspace_id"@, "from_index"@, "to_index"@]
                    && at(v, 0).text() == Some(spec_uuid_text(old.workspaces@[from as int].id))
                    && at(v, 1) == JsonValue::UInt(from as u64) && at(v, 2) == JsonValue::UInt(to as u64)
            } else {
                refused(h, tm, old, invalid_params(), "Workspace reorder is invalid for the requested indices or pin section"@)
            }
        },
    }
}

/// `workspace.reorder`: move a workspace, named by `from_index` or by
/// `workspace`/`workspace_id`, to `to_index` (see
/// `TabManager::move_workspace`).
pub fn reorder_workspace(tm: &mut TabManager, params: &JsonValue) -> (h: Handled)
    ensures
        reorder_workspace_done(*old(tm), *final(tm), *params, h),
{
    let to = match parse_usize_param(params, "to_index") {
        Ok(Some(t)) => t,
        Ok(None) => {
            return Handled { reply: Err(ErrorInfo::new("invalid_params", "Provide 'to_index'")), refresh: false, read: None, ui: None, notice: None };
        },
        Err(e) => {
            return Handled { reply: Err(e), refresh: false, read: None, ui: None, notice: None };
        },
    };
    let from = match parse_usize_param(params, "from_index") {
        Ok(f) => f,
        Err(e) => {
            return Handled { reply: Err(e), refresh: false, read: None, ui: None, notice: None };
        },
    };
    let w = match parse_workspace_param(params) {
        Ok(w) => w,
        Err(()) => {
            return Handled { reply: Err(ErrorInfo::new("invalid_params", "Invalid workspace UUID")), refresh: false, read: None, ui: None, notice: None };
        },
    };
    let from = match from {
        Some(f) => f,
        None => match w {
            Some(w) => {
                proof {
                    lemma_index_of_id_found(tm.workspaces@, w);
                }
                match tm.index_of(w) {
                    Some(i) => i,
                    None => {
                        return Handled { reply: Err(ErrorInfo::new("not_found", "Workspace not found")), refresh: false, read: None, ui: None, notice: None };
                    },
                }
            },
            None => {
                return Handled {
                    reply: Err(ErrorInfo::new("invalid_params", "Provide 'from_index' or 'workspace'/'workspace_id'")),
                    refresh: false,
                    read: None,
                    ui: None,
                    notice: None,
                };
            },
        },
    };
    let id = if from < tm.workspaces.len() {
        Some(tm.workspaces[from].id)
    } else {
        None
    };
    if tm.move_workspace(from, to) {
        let id = match id {
            Some(i) => i,
            None => {
                return Handled { reply: Err(ErrorInfo::new("invalid_params", "Workspace reorder is invalid for the requested indices or pin section")), refresh: false, read: None, ui: None, notice: None };
            },
        };
        let mut es: Vec<(String, JsonValue)> = Vec::new();
        es.push(member_of("workspace_id", js_id(id)));
        es.push(member_of("from_index", JsonValue::UInt(from as u64)));
        es.push(member_of("to_index", JsonValue::UInt(to as u64)));
        let v = JsonValue::Object(es);
        proof {
            assert(keys(v) =~= seq!["workspace_id"@, "from_index"@, "to_index"@]);
        }
        Handled { reply: Ok(v), refresh: true, read: None, ui: None, notice: None }
    } else {
        Handled { reply: Err(ErrorInfo::new("invalid_params", "Workspace reorder is invalid for the requested indices or pin section")), refresh: false, read: None, ui: None, notice: None }
    }
}

/// What `pin_workspace` does (`workspace.pin` where `pinned`, else
/// `workspace.unpin`).
pub open spec fn pin_workspace_done(old: TabManager, tm: TabManager, params: JsonValue, pinned: bool, h: Handled) -> bool {
    match uuid_value(workspace_value(params)) {
        Err(()) => refused(h, tm, old, invalid_params(), "Invalid workspace UUID"@),
        Ok(w) => {
            let target = match w {
                Some(w) => Some(w),
                None => match old.selection() {
                    Some(s) => Some(old.workspaces@[s].id),
                    None => None,
                },
            };
            match target {
                None => refused(h, tm, old, not_found(), "No workspace selected"@),
                Some(id) => match index_of_id(old.workspaces@, id) {
                    None => refused(h, tm, old, not_found(), "Workspace not found"@),
                    Some(i) => {
                        let k = pinned_count(old.workspaces@.remove(i));
                        let ws = old.workspaces@.update(i, Workspace { is_pinned: pinned, ..old.workspaces@[i] });
                        &&& tm.workspaces@ == moved_seq(ws, i, k)
                        &&& tm.selected == moved_selected(old.selected, i, k)
                        &&& h.plain()
                        &&& h.refresh
                        &&& h.reply matches Ok(v) && keys(v) == seq!["workspace_id"@, "pinned"@, "index"@]
                            && at(v, 0).text() == Some(spec_uuid_text(id)) && at(v, 1) == JsonValue::Bool(pinned)
                            && at(v, 2) == JsonValue::UInt(k as usize as u64)
                    },
                },
            }
        },
    }
}

/// `workspace.pin` / `workspace.unpin`: pin or unpin the named workspace,
/// else the selected one (see `TabManager::set_workspace_pinned`).
pub fn pin_workspace(tm: &mut TabManager, params: &JsonValue, pinned: bool) -> (h: Handled)
    ensures
        pin_workspace_done(*old(tm), *final(tm), *params, pinned, h),
{
    let w = match parse_workspace_param(params) {
        Ok(w) => w,
        Err(()) => {
            return Handled { reply: Err(ErrorInfo::new("invalid_params", "Invalid workspace UUID")), refresh: false, read: None, ui: None, notice: None };
        },
    };
    let id = match w {
        Some(w) => w,
        None => match tm.selected_id() {
            Some(s) => s,
            None => {
                return Handled { reply: Err(ErrorInfo::new("not_found", "No workspace selected")), refresh: false, read: None, ui: None, notice: None };
            },
        },
    };
    match tm.set_workspace_pinned(id, pinned) {
        Some(k) => {
            let mut es: Vec<(String, JsonValue)> = Vec::new();
            es.push(member_of("workspace_id", js_id(id)));
            es.push(member_of("pinned", JsonValue::Bool(pinned)));
            es.push(member_of("index", JsonValue::UInt(k as u64)));
            let v = JsonValue::Object(es);
            proof {
                assert(keys(v) =~= seq!["workspace_id"@, "pinned"@, "index"@]);
            }
            Handled { reply: Ok(v), refresh: true, read: None, ui: None, notice: None }
        },
        None => Handled { reply: Err(ErrorInfo::new("not_found", "Workspace not found")), refresh: false, read: None, ui: None, notice: None },
    }
}

/// The identities as an array of their texts.
fn js_ids(ids: &Vec<Id>) -> (v: JsonValue)
    ensures
        v matches JsonValue::Array(a) && a@.len() == ids@.len()
            && forall|i: int| 0 <= i < ids@.len() ==> (#[trigger] a@[i]).text() == Some(spec_uuid_text(ids@[i])),
{
    let mut a: Vec<JsonValue> = Vec::new();
    let mut i: usize = 0;
    while i < ids.len()
        invariant
            i <= ids@.len(),
            a@.len() == i,
            forall|j: int| 0 <= j < i ==> (#[trigger] a@[j]).text() == Some(spec_uuid_text(ids@[j])),
        decreases ids@.len() - i,
    {
        a.push(js_id(ids[i]));
        i = i + 1;
    }
    JsonValue::Array(a)
}

/// What `close_pane` does (`pane.close`).
pub open spec fn close_pane_done(old: TabManager, tm: TabManager, params: JsonValue, h: Handled) -> bool {
    match pane_value(params) {
        Err(()) => refused(h, tm, old, invalid_params(), "Invalid pane UUID"@),
        Ok(None) => refused(h, tm, old, invalid_params(), "Provide 'pane' or 'pane_id'"@),
        Ok(Some(pane_id)) => match index_with_pane(old.workspaces@, pane_id) {
            None => refused(h, tm, old, not_found(), "Pane not found"@),
            Some(k) => {
                let id = old.workspaces@[k].id;
                let i = index_of_id(old.workspaces@, id)->0;
                let w = old.workspaces@[i];
                if w.layout@.pane_by_id(pane_id) is None || w.layout@ is Pane {
                    refused(h, tm, old, not_found(), "Pane not found"@)
                } else {
                    let ids = w.layout@.pane_by_id(pane_id)->0.panel_ids;
                    let after = tm.workspaces@[i];
                    &&& tm.updated_at(old, i)
                    &&& after.pane_closed(w, pane_id, Some(ids))
                    &&& h.plain()
                    &&& h.refresh
                    &&& h.reply matches Ok(v) && keys(v) == seq!["pane_id"@, "workspace_id"@, "removed_surfaces"@, "focused_pane_id"@, "focused_surface"@, "closed"@]
                        && at(v, 0).text() == Some(spec_uuid_text(pane_id)) && at(v, 1).text() == Some(spec_uuid_text(id))
                        && (at(v, 2) matches JsonValue::Array(a) && a@.len() == ids.len()
                            && forall|j: int| 0 <= j < ids.len() ==> (#[trigger] a@[j]).text() == Some(spec_uuid_text(ids[j])))
                        && crate::protocol::is_opt_id(at(v, 3), after.focused_pane_id)
                        && crate::protocol::is_opt_id(at(v, 4), after.focused_panel_id)
                        && at(v, 5) == JsonValue::Bool(true)
                }
            },
        },
    }
}

/// `pane.close`: close the pane (see `Workspace::close_pane`) in the
/// workspace that holds it.
pub fn close_pane(tm: &mut TabManager, params: &JsonValue) -> (h: Handled)
    ensures
        close_pane_done(*old(tm), *final(tm), *params, h),
{
    let pane_id = match parse_pane_param(params) {
        Ok(Some(p)) => p,
        Ok(None) => {
            return Handled { reply: Err(ErrorInfo::new("invalid_params", "Provide 'pane' or 'pane_id'")), refresh: false, read: None, ui: None, notice: None };
        },
        Err(()) => {
            return Handled { reply: Err(ErrorInfo::new("invalid_params", "Invalid pane UUID")), refresh: false, read: None, ui: None, notice: None };
        },
    };
    proof {
        lemma_index_with_pane_found(tm.workspaces@, pane_id);
    }
    let id = match tm.index_with_pane(pane_id) {
        Some(k) => tm.workspaces[k].id,
        None => {
            return Handled { reply: Err(ErrorInfo::new("not_found", "Pane not found")), refresh: false, read: None, ui: None, notice: None };
        },
    };
    proof {
        lemma_index_of_id_total(tm.workspaces@, index_with_pane(tm.workspaces@, pane_id)->0);
        lemma_index_of_id_found(tm.workspaces@, id);
    }
    let closed = match tm.workspace_mut(id) {
        Some(ws) => match ws.close_pane(pane_id) {
            Some(removed) => Some((removed, ws.focused_pane_id, ws.focused_panel_id)),
            None => None,
        },
        None => None,
    };
    match closed {
        Some((removed, focused_pane, focused_surface)) => {
            let mut es: Vec<(String, JsonValue)> = Vec::new();
            es.push(member_of("pane_id", js_id(pane_id)));
            es.push(member_of("workspace_id", js_id(id)));
            es.push(member_of("removed_surfaces", js_ids(&removed)));
            es.push(member_of("focused_pane_id", crate::protocol::js_opt_id(focused_pane)));
            es.push(member_of("focused_surface", crate::protocol::js_opt_id(focused_surface)));
            es.push(member_of("closed", JsonValue::Bool(true)));
            let v = JsonValue::Object(es);
            proof {
                assert(keys(v) =~= seq!["pane_id"@, "workspace_id"@, "removed_surfaces"@, "focused_pane_id"@, "focused_surface"@, "closed"@]);
            }
            Handled { reply: Ok(v), refresh: true, read: None, ui: None, notice: None }
        },
        None => {
            proof {
                assert(tm.workspaces@ =~= old(tm).workspaces@);
            }
            Handled { reply: Err(ErrorInfo::new("not_found", "Pane not found")), refresh: false, read: None, ui: None, notice: None }
        },
    }
}

/// The divider step a JSON number gives, in millionths: a positive number
/// (a step of one or more is a whole width); `None` for anything else.
pub open spec fn step_millionths(v: JsonValue) -> Option<u32> {
    match v {
        JsonValue::UInt(n) => if n == 0 {
            None
        } else {
            Some(1_000_000u32)
        },
        JsonValue::Float(m) => if m <= 0 {
            None
        } else if m >= 1_000_000 {
            Some(1_000_000u32)
        } else {
            Some(m as u32)
        },
        _ => None,
    }
}

/// The default resize step: 0.05, in millionths.
pub const DEFAULT_STEP: u32 = 50_000;

/// What `resize_pane` does (`pane.resize`).
pub open spec fn resize_pane_done(old: TabManager, tm: TabManager, params: JsonValue, h: Handled) -> bool {
    match pane_value(params) {
        Err(()) => refused(h, tm, old, invalid_params(), "Invalid pane UUID"@),
        Ok(None) => refused(h, tm, old, invalid_params(), "Provide 'pane' or 'pane_id'"@),
        Ok(Some(pane_id)) => match crate::protocol::direction_of(match params.field("direction"@) {
            Some(v) => v.text(),
            None => None,
        }) {
            None => refused(h, tm, old, invalid_params(), "Invalid direction; expected 'left', 'right', 'up', or 'down'"@),
            Some(direction) => {
                let step: Option<(u32, JsonValue)> = match params.field("step"@) {
                    None => Some((DEFAULT_STEP, JsonValue::Float(DEFAULT_STEP as i64))),
                    Some(v) => match step_millionths(v) {
                        Some(s) => Some((s, v)),
                        None => None,
                    },
                };
                match step {
                    None => refused(h, tm, old, invalid_params(), "'step' must be a positive finite number"@),
                    Some((step, given)) => match index_with_pane(old.workspaces@, pane_id) {
                        None => refused(h, tm, old, not_found(), "Pane not found"@),
                        Some(k) => {
                            let id = old.workspaces@[k].id;
                            let i = index_of_id(old.workspaces@, id)->0;
                            let w = old.workspaces@[i];
                            let (layout, moved) = w.layout@.with_divider_nudged(
                                pane_id,
                                direction,
                                step,
                                crate::workspace_ops::MIN_DIVIDER,
                                crate::workspace_ops::MAX_DIVIDER,
                            );
                            if !moved {
                                refused(h, tm, old, invalid_params(), "Pane resize is invalid for the requested pane or direction"@)
                            } else {
                                &&& tm.updated_at(old, i)
                                &&& tm.workspaces@[i] == (Workspace { layout: tm.workspaces@[i].layout, ..w })
                                &&& tm.workspaces@[i].layout@ == layout
                                &&& h.plain()
                                &&& h.refresh
                                &&& h.reply matches Ok(v) && keys(v) == seq!["pane_id"@, "workspace_id"@, "direction"@, "step"@, "resized"@]
                                    && at(v, 0).text() == Some(spec_uuid_text(pane_id)) && at(v, 1).text() == Some(spec_uuid_text(id))
                                    && at(v, 2).text() == Some(crate::protocol::direction_name(direction))
                                    && at(v, 3) == given && at(v, 4) == JsonValue::Bool(true)
                            }
                        },
                    },
                }
            },
        },
    }
}

/// The resize step a request gives (see `step_millionths`), with the
/// number to echo; `None` where `step` is there but not a positive number.
fn parse_step(params: &JsonValue) -> (r: Option<(u32, JsonValue)>)
    ensures
        r == match params.field("step"@) {
            None => Some((DEFAULT_STEP, JsonValue::Float(DEFAULT_STEP as i64))),
            Some(v) => match step_millionths(v) {
                Some(s) => Some((s, v)),
                None => None,
            },
        },
{
    match params.get("step") {
        None => Some((DEFAULT_STEP, JsonValue::Float(50_000))),
        Some(JsonValue::UInt(n)) => if *n == 0 {
            None
        } else {
            Some((1_000_000, JsonValue::UInt(*n)))
        },
        Some(JsonValue::Float(m)) => if *m <= 0 {
            None
        } else if *m >= 1_000_000 {
            Some((1_000_000, JsonValue::Float(*m)))
        } else {
            Some((*m as u32, JsonValue::Float(*m)))
        },
        Some(_) => None,
    }
}

/// `pane.resize`: nudge the divider bounding the pane in `direction` by
/// `step` (default 0.05; see `Workspace::resize_pane`).
pub fn resize_pane(tm: &mut TabManager, params: &JsonValue) -> (h: Handled)
    ensures
        resize_pane_done(*old(tm), *final(tm), *params, h),
{
    let pane_id = match parse_pane_param(params) {
        Ok(Some(p)) => p,
        Ok(None) => {
            return Handled { reply: Err(ErrorInfo::new("invalid_params", "Provide 'pane' or 'pane_id'")), refresh: false, read: None, ui: None, notice: None };
        },
        Err(()) => {
            return Handled { reply: Err(ErrorInfo::new("invalid_params", "Invalid pane UUID")), refresh: false, read: None, ui: None, notice: None };
        },
    };
    let direction = match crate::protocol::parse_focus_direction(params.get("direction")) {
        Ok(d) => d,
        Err(e) => {
            return Handled { reply: Err(e), refresh: false, read: None, ui: None, notice: None };
        },
    };
    let (step, given) = match parse_step(params) {
        Some(s) => s,
        None => {
            return Handled { reply: Err(ErrorInfo::new("invalid_params", "'step' must be a positive finite number")), refresh: false, read: None, ui: None, notice: None };
        },
    };
    proof {
        lemma_index_with_pane_found(tm.workspaces@, pane_id);
    }
    let id = match tm.index_with_pane(pane_id) {
        Some(k) => tm.workspaces[k].id,
        None => {
            return Handled { reply: Err(ErrorInfo::new("not_found", "Pane not found")), refresh: false, read: None, ui: None, notice: None };
        },
    };
    proof {
        lemma_index_of_id_total(tm.workspaces@, index_with_pane(tm.workspaces@, pane_id)->0);
        lemma_index_of_id_found(tm.workspaces@, id);
    }
    let resized = match tm.workspace_mut(id) {
        Some(ws) => ws.resize_pane(pane_id, direction, step),
        None => false,
    };
    if resized {
        let mut es: Vec<(String, JsonValue)> = Vec::new();
        es.push(member_of("pane_id", js_id(pane_id)));
        es.push(member_of("workspace_id", js_id(id)));
        es.push(member_of("direction", js_text(crate::protocol::direction_label(direction))));
        es.push(member_of("step", given));
        es.push(member_of("resized", JsonValue::Bool(true)));
        let v = JsonValue::Object(es);
        proof {
            assert(keys(v) =~= seq!["pane_id"@, "workspace_id"@, "direction"@, "step"@, "resized"@]);
        }
        Handled { reply: Ok(v), refresh: true, read: None, ui: None, notice: None }
    } else {
        proof {
            assert(tm.workspaces@ =~= old(tm).workspaces@);
        }
        Handled { reply: Err(ErrorInfo::new("invalid_params", "Pane resize is invalid for the requested pane or direction")), refresh: false, read: None, ui: None, notice: None }
    }
}

/// The methods of the protocol.
#[derive(Debug, Clone, Copy, PartialEq, Eq, Structural)]
pub enum Method {
    Ping,
    Capabilities,
    WindowFocus,
    WorkspaceList,
    WorkspaceNew,
    WorkspaceCreate,
    WorkspaceRename,
    WorkspaceSelect,
    WorkspaceNext,
    WorkspacePrevious,
    WorkspaceLast,
    WorkspaceLatestUnread,
    WorkspaceClose,
    SetStatus,
    ReportGitBranch,
    ClearGitBranch,
    ReportPwd,
    ClearPwd,
    ReportShellState,
    ClearShellState,
    ReportPorts,
    ClearPorts,
    ReportTty,
    ClearTty,
    ReportPr,
    ReportReview,
    ClearPr,
    ReportMeta,
    ReportMetaBlock,
    ClearMeta,
    ClearMetaBlock,
    SetProgress,
    AppendLog,
    PaneNew,
    PaneFocus,
    SurfaceSendInput,
    SurfaceFocus,
    SurfaceClose,
    SurfaceNext,
    SurfacePrevious,
    SurfaceMoveForward,
    SurfaceMoveBackward,
    NotificationCreate,
    WorkspaceReorder,
    WorkspacePin,
    WorkspaceUnpin,
    PaneClose,
    PaneResize,
    Unknown,
}

/// The method a name gives.
pub open spec fn method_of(name: Seq<char>) -> Method {
    if name == "system.ping"@ {
        Method::Ping
    } else if name == "system.capabilities"@ {
        Method::Capabilities
    } else if name == "window.focus"@ {
        Method::WindowFocus
    } else if name == "workspace.list"@ {
        Method::WorkspaceList
    } else if name == "workspace.new"@ {
        Method::WorkspaceNew
    } else if name == "workspace.create"@ {
        Method::WorkspaceCreate
    } else if name == "workspace.rename"@ {
        Method::WorkspaceRename
    } else if name == "workspace.select"@ {
        Method::WorkspaceSelect
    } else if name == "workspace.next"@ {
        Method::WorkspaceNext
    } else if name == "workspace.previous"@ {
        Method::WorkspacePrevious
    } else if name == "workspace.last"@ {
        Method::WorkspaceLast
    } else if name == "workspace.latest_unread"@ {
        Method::WorkspaceLatestUnread
    } else if name == "workspace.close"@ {
        Method::WorkspaceClose
    } else if name == "workspace.set_status"@ {
        Method::SetStatus
    } else if name == "workspace.report_git_branch"@ {
        Method::ReportGitBranch
    } else if name == "workspace.clear_git_branch"@ {
        Method::ClearGitBranch
    } else if name == "workspace.report_pwd"@ {
        Method::ReportPwd
    } else if name == "workspace.clear_pwd"@ {
        Method::ClearPwd
    } else if name == "workspace.report_shell_state"@ {
        Method::ReportShellState
    } else if name == "workspace.clear_shell_state"@ {
        Method::ClearShellState
    } else if name == "workspace.report_ports"@ {
        Method::ReportPorts
    } else if name == "workspace.clear_ports"@ {
        Method::ClearPorts
    } else if name == "workspace.report_tty"@ {
        Method::ReportTty
    } else if name == "workspace.clear_tty"@ {
        Method::ClearTty
    } else if name == "workspace.report_pr"@ {
        Method::ReportPr
    } else if name == "workspace.report_review"@ {
        Method::ReportReview
    } else if name == "workspace.clear_pr"@ {
        Method::ClearPr
    } else if name == "workspace.report_meta"@ {
        Method::ReportMeta
    } else if name == "workspace.report_meta_block"@ {
        Method::ReportMetaBlock
    } else if name == "workspace.clear_meta"@ {
        Method::ClearMeta
    } else if name == "workspace.clear_meta_block"@ {
        Method::ClearMetaBlock
    } else if name == "workspace.set_progress"@ {
        Method::SetProgress
    } else if name == "workspace.append_log"@ {
        Method::AppendLog
    } else if name == "pane.new"@ {
        Method::PaneNew
    } else if name == "pane.focus"@ {
        Method::PaneFocus
    } else if name == "surface.send_input"@ {
        Method::SurfaceSendInput
    } else if name == "surface.focus"@ {
        Method::SurfaceFocus
    } else if name == "surface.close"@ {
        Method::SurfaceClose
    } else if name == "surface.next"@ {
        Method::SurfaceNext
    } else if name == "surface.previous"@ {
        Method::SurfacePrevious
    } else if name == "surface.move_forward"@ {
        Method::SurfaceMoveForward
    } else if name == "surface.move_backward"@ {
        Method::SurfaceMoveBackward
    } else if name == "notification.create"@ {
        Method::NotificationCreate
    } else if name == "workspace.reorder"@ {
        Method::WorkspaceReorder
    } else if name == "workspace.pin"@ {
        Method::WorkspacePin
    } else if name == "workspace.unpin"@ {
        Method::WorkspaceUnpin
    } else if name == "pane.close"@ {
        Method::PaneClose
    } else if name == "pane.resize"@ {
        Method::PaneResize
    } else {
        Method::Unknown
    }
}

/// The method a name gives (see `method_of`).
pub fn method_from_name(name: &str) -> (m: Method)
    ensures
        m == method_of(name@),
{
    if crate::panel::str_eq(name, "system.ping") {
        Method::Ping
    } else if crate::panel::str_eq(name, "system.capabilities") {
        Method::Capabilities
    } else if crate::panel::str_eq(name, "window.focus") {
        Method::WindowFocus
    } else if crate::panel::str_eq(name, "workspace.list") {
        Method::WorkspaceList
    } else if crate::panel::str_eq(name, "workspace.new") {
        Method::WorkspaceNew
    } else if crate::panel::str_eq(name, "workspace.create") {
        Method::WorkspaceCreate
    } else if crate::panel::str_eq(name, "workspace.rename") {
        Method::WorkspaceRename
    } else if crate::panel::str_eq(name, "workspace.select") {
        Method::WorkspaceSelect
    } else if crate::panel::str_eq(name, "workspace.next") {
        Method::WorkspaceNext
    } else if crate::panel::str_eq(name, "workspace.previous") {
        Method::WorkspacePrevious
    } else if crate::panel::str_eq(name, "workspace.last") {
        Method::WorkspaceLast
    } else if crate::panel::str_eq(name, "workspace.latest_unread") {
        Method::WorkspaceLatestUnread
    } else if crate::panel::str_eq(name, "workspace.close") {
        Method::WorkspaceClose
    } else if crate::panel::str_eq(name, "workspace.set_status") {
        Method::SetStatus
    } else if crate::panel::str_eq(name, "workspace.report_git_branch") {
        Method::ReportGitBranch
    } else if crate::panel::str_eq(name, "workspace.clear_git_branch") {
        Method::ClearGitBranch
    } else if crate::panel::str_eq(name, "workspace.report_pwd") {
        Method::ReportPwd
    } else if crate::panel::str_eq(name, "workspace.clear_pwd") {
        Method::ClearPwd
    } else if crate::panel::str_eq(name, "workspace.report_shell_state") {
        Method::ReportShellState
    } else if crate::panel::str_eq(name, "workspace.clear_shell_state") {
        Method::ClearShellState
    } else if crate::panel::str_eq(name, "workspace.report_ports") {
        Method::ReportPorts
    } else if crate::panel::str_eq(name, "workspace.clear_ports") {
        Method::ClearPorts
    } else if crate::panel::str_eq(name, "workspace.report_tty") {
        Method::ReportTty
    } else if crate::panel::str_eq(name, "workspace.clear_tty") {
        Method::ClearTty
    } else if crate::panel::str_eq(name, "workspace.report_pr") {
        Method::ReportPr
    } else if crate::panel::str_eq(name, "workspace.report_review") {
        Method::ReportReview
    } else if crate::panel::str_eq(name, "workspace.clear_pr") {
        Method::ClearPr
    } else if crate::panel::str_eq(name, "workspace.report_meta") {
        Method::ReportMeta
    } else if crate::panel::str_eq(name, "workspace.report_meta_block") {
        Method::ReportMetaBlock
    } else if crate::panel::str_eq(name, "workspace.clear_meta") {
        Method::ClearMeta
    } else if crate::panel::str_eq(name, "workspace.clear_meta_block") {
        Method::ClearMetaBlock
    } else if crate::panel::str_eq(name, "workspace.set_progress") {
        Method::SetProgress
    } else if crate::panel::str_eq(name, "workspace.append_log") {
        Method::AppendLog
    } else if crate::panel::str_eq(name, "pane.new") {
        Method::PaneNew
    } else if crate::panel::str_eq(name, "pane.focus") {
        Method::PaneFocus
    } else if crate::panel::str_eq(name, "surface.send_input") {
        Method::SurfaceSendInput
    } else if crate::panel::str_eq(name, "surface.focus") {
        Method::SurfaceFocus
    } else if crate::panel::str_eq(name, "surface.close") {
        Method::SurfaceClose
    } else if crate::panel::str_eq(name, "surface.next") {
        Method::SurfaceNext
    } else if crate::panel::str_eq(name, "surface.previous") {
        Method::SurfacePrevious
    } else if crate::panel::str_eq(name, "surface.move_forward") {
        Method::SurfaceMoveForward
    } else if crate::panel::str_eq(name, "surface.move_backward") {
        Method::SurfaceMoveBackward
    } else if crate::panel::str_eq(name, "notification.create") {
        Method::NotificationCreate
    } else if crate::panel::str_eq(name, "workspace.reorder") {
        Method::WorkspaceReorder
    } else if crate::panel::str_eq(name, "workspace.pin") {
        Method::WorkspacePin
    } else if crate::panel::str_eq(name, "workspace.unpin") {
        Method::WorkspaceUnpin
    } else if crate::panel::str_eq(name, "pane.close") {
        Method::PaneClose
    } else if crate::panel::str_eq(name, "pane.resize") {
        Method::PaneResize
    } else {
        Method::Unknown
    }
}

/// What `dispatch` does for a method: what the method's command does.
pub open spec fn dispatched(old: TabManager, tm: TabManager, home: Seq<char>, method: Seq<char>, params: JsonValue, now: Timestamp, h: Handled) -> bool {
    match method_of(method) {
        Method::Ping => tm.unchanged(old) && h.plain() && !h.refresh && (h.reply matches Ok(v) && keys(v) == seq!["pong"@] && at(v, 0) == JsonValue::Bool(true)),
        Method::Capabilities => tm.unchanged(old) && h.plain() && !h.refresh && (h.reply matches Ok(v) && keys(v) == seq!["methods"@] && lists_methods(at(v, 0))),
        Method::WindowFocus => tm.unchanged(old) && h.ui == Some(UiRequest::FocusWindow) && h.read is None && h.notice is None && !h.refresh && (h.reply matches Ok(v) && keys(v) == seq!["focused"@] && at(v, 0) == JsonValue::Bool(true)),
        Method::WorkspaceList => tm.unchanged(old) && h.plain() && !h.refresh && (h.reply matches Ok(v) && keys(v) == seq!["workspaces"@] && lists_workspaces(at(v, 0), old)),
        Method::WorkspaceNew => create_workspace_done(old, tm, home, params, false, h),
        Method::WorkspaceCreate => create_workspace_done(old, tm, home, params, true, h),
        Method::WorkspaceRename => rename_workspace_done(old, tm, params, h),
        Method::WorkspaceSelect => select_workspace_done(old, tm, params, h),
        Method::WorkspaceNext => moved_and_read(tm, old.workspaces@, old.next_selection(wrap_flag(params)), h),
        Method::WorkspacePrevious => moved_and_read(tm, old.workspaces@, old.previous_selection(wrap_flag(params)), h),
        Method::WorkspaceLast => moved_and_read(
            tm,
            old.workspaces@,
            if old.workspaces@.len() > 0 { Some(old.workspaces@.len() - 1) } else { old.selection() },
            h,
        ),
        Method::WorkspaceLatestUnread => latest_unread_done(old, tm, h),
        Method::WorkspaceClose => close_workspace_done(old, tm, params, h),
        Method::SetStatus => set_status_done(old, tm, params, now, h),
        Method::ReportGitBranch => report_git_branch_done(old, tm, params, h),
        Method::ClearGitBranch => clear_git_branch_done(old, tm, params, h),
        Method::ReportPwd => report_pwd_done(old, tm, params, h),
        Method::ClearPwd => clear_pwd_done(old, tm, params, h),
        Method::ReportShellState => report_shell_state_done(old, tm, params, h),
        Method::ClearShellState => clear_shell_state_done(old, tm, params, h),
        Method::ReportPorts => report_ports_done(old, tm, params, h),
        Method::ClearPorts => clear_ports_done(old, tm, params, h),
        Method::ReportTty => report_tty_done(old, tm, params, h),
        Method::ClearTty => clear_tty_done(old, tm, params, h),
        Method::ReportPr => report_pr_done(old, tm, params, h),
        Method::ReportReview => report_review_done(old, tm, params, h),
        Method::ClearPr => clear_pr_done(old, tm, params, h),
        Method::ReportMeta => report_meta_done(old, tm, params, now, h),
        Method::ReportMetaBlock => report_meta_block_done(old, tm, params, now, h),
        Method::ClearMeta => clear_meta_done(old, tm, params, h),
        Method::ClearMetaBlock => clear_meta_block_done(old, tm, params, h),
        Method::SetProgress => set_progress_done(old, tm, params, h),
        Method::AppendLog => append_log_done(old, tm, params, now, h),
        Method::PaneNew => new_pane_done(old, tm, params, h),
        Method::PaneFocus => focus_pane_done(old, tm, params, h),
        Method::SurfaceSendInput => send_input_done(old, tm, params, h),
        Method::SurfaceFocus => focus_surface_done(old, tm, params, h),
        Method::SurfaceClose => close_surface_done(old, tm, params, h),
        Method::SurfaceNext => cycle_surface_done(old, tm, params, true, h),
        Method::SurfacePrevious => cycle_surface_done(old, tm, params, false, h),
        Method::SurfaceMoveForward => move_surface_done(old, tm, params, true, h),
        Method::SurfaceMoveBackward => move_surface_done(old, tm, params, false, h),
        Method::NotificationCreate => create_notification_done(old, tm, params, now, h),
        Method::WorkspaceReorder => reorder_workspace_done(old, tm, params, h),
        Method::WorkspacePin => pin_workspace_done(old, tm, params, true, h),
        Method::WorkspaceUnpin => pin_workspace_done(old, tm, params, false, h),
        Method::PaneClose => close_pane_done(old, tm, params, h),
        Method::PaneResize => resize_pane_done(old, tm, params, h),
        Method::Unknown => refused(h, tm, old, "unknown_method"@, "Unknown method: "@ + truncate_chars(method, 200)),
    }
}

/// Carry out a request's method on the workspaces (see `dispatched`);
/// `home` is the directory of new workspaces and `now` the time the
/// request arrived.
pub fn dispatch(tm: &mut TabManager, home: &str, method: &str, params: &JsonValue, now: Timestamp) -> (h: Handled)
    ensures
        dispatched(*old(tm), *final(tm), home@, method@, *params, now, h),
{
    match method_from_name(method) {
        Method::Ping => ping(),
        Method::Capabilities => capabilities(),
        Method::WindowFocus => window_focus(),
        Method::WorkspaceList => list_workspaces(tm),
        Method::WorkspaceNew => create_workspace(tm, home, params, false),
        Method::WorkspaceCreate => create_workspace(tm, home, params, true),
        Method::WorkspaceRename => rename_workspace(tm, params),
        Method::WorkspaceSelect => select_workspace(tm, params),
        Method::WorkspaceNext => next_workspace(tm, params),
        Method::WorkspacePrevious => previous_workspace(tm, params),
        Method::WorkspaceLast => last_workspace(tm),
        Method::WorkspaceLatestUnread => latest_unread_workspace(tm),
        Method::WorkspaceClose => close_workspace(tm, params),
        Method::SetStatus => set_status(tm, params, now),
        Method::ReportGitBranch => report_git_branch(tm, params),
        Method::ClearGitBranch => clear_git_branch(tm, params),
        Method::ReportPwd => report_pwd(tm, params),
        Method::ClearPwd => clear_pwd(tm, params),
        Method::ReportShellState => report_shell_state(tm, params),
        Method::ClearShellState => clear_shell_state(tm, params),
        Method::ReportPorts => report_ports(tm, params),
        Method::ClearPorts => clear_ports(tm, params),
        Method::ReportTty => report_tty(tm, params),
        Method::ClearTty => clear_tty(tm, params),
        Method::ReportPr => report_pr(tm, params),
        Method::ReportReview => report_review(tm, params),
        Method::ClearPr => clear_pr(tm, params),
        Method::ReportMeta => report_meta(tm, params, now),
        Method::ReportMetaBlock => report_meta_block(tm, params, now),
        Method::ClearMeta => clear_meta(tm, params),
        Method::ClearMetaBlock => clear_meta_block(tm, params),
        Method::SetProgress => set_progress(tm, params),
        Method::AppendLog => append_log(tm, params, now),
        Method::PaneNew => new_pane(tm, params),
        Method::PaneFocus => focus_pane(tm, params),
        Method::SurfaceSendInput => send_input(tm, params),
        Method::SurfaceFocus => focus_surface(tm, params),
        Method::SurfaceClose => close_surface(tm, params),
        Method::SurfaceNext => cycle_surface(tm, params, true),
        Method::SurfacePrevious => cycle_surface(tm, params, false),
        Method::SurfaceMoveForward => move_surface(tm, params, true),
        Method::SurfaceMoveBackward => move_surface(tm, params, false),
        Method::NotificationCreate => create_notification(tm, params, now),
        Method::WorkspaceReorder => reorder_workspace(tm, params),
        Method::WorkspacePin => pin_workspace(tm, params, true),
        Method::WorkspaceUnpin => pin_workspace(tm, params, false),
        Method::PaneClose => close_pane(tm, params),
        Method::PaneResize => resize_pane(tm, params),
        Method::Unknown => {
            let message = "Unknown method: ".to_owned().concat(truncate_str(method, 200));
            Handled { reply: Err(ErrorInfo { code: "unknown_method".to_owned(), message }), refresh: false, read: None, ui: None, notice: None }
        },
    }
}

} // verus!

verus! {

/// A refused request changes nothing: where the reply to a request is an
/// error, the workspaces and the selection are as they were, nothing is
/// marked read, nothing is asked of the UI and no refresh follows.
pub proof fn lemma_refused_request_changes_nothing(
    old: TabManager,
    tm: TabManager,
    home: Seq<char>,
    method: Seq<char>,
    params: JsonValue,
    now: Timestamp,
    h: Handled,
)
    requires
        dispatched(old, tm, home, method, params, now, h),
        h.reply is Err,
    ensures
        tm.unchanged(old),
        h.plain(),
        !h.refresh,
{
}

/// The methods `system.capabilities` lists are exactly the methods that
/// `dispatch` carries out: a name is listed if and only if `dispatch` does
/// not answer it as an unknown method.
pub proof fn lemma_capabilities_match_dispatch(name: Seq<char>)
    ensures
        method_names().contains(name) <==> !(method_of(name) is Unknown),
{
    let names = method_names();
    if names.contains(name) {
        let i = choose|i: int| 0 <= i < names.len() && names[i] == name;
        assert(0 <= i < 48);
    }
    if !(method_of(name) is Unknown) {
        if name == "system.ping"@ {
            assert(names[0] == name);
        } else if name == "system.capabilities"@ {
            assert(names[1] == name);
        } else if name == "window.focus"@ {
            assert(names[2] == name);
        } else if name == "workspace.list"@ {
            assert(names[3] == name);
        } else if name == "workspace.new"@ {
            assert(names[4] == name);
        } else if name == "workspace.create"@ {
            assert(names[5] == name);
        } else if name == "workspace.rename"@ {
            assert(names[6] == name);
        } else if name == "workspace.reorder"@ {
            assert(names[7] == name);
        } else if name == "workspace.pin"@ {
            assert(names[8] == name);
        } else if name == "workspace.unpin"@ {
            assert(names[9] == name);
        } else if name == "workspace.select"@ {
            assert(names[10] == name);
        } else if name == "workspace.next"@ {
            assert(names[11] == name);
        } else if name == "workspace.previous"@ {
            assert(names[12] == name);
        } else if name == "workspace.last"@ {
            assert(names[13] == name);
        } else if name == "workspace.latest_unread"@ {
            assert(names[14] == name);
        } else if name == "workspace.close"@ {
            assert(names[15] == name);
        } else if name == "workspace.set_status"@ {
            assert(names[16] == name);
        } else if name == "workspace.report_git_branch"@ {
            assert(names[17] == name);
        } else if name == "workspace.clear_git_branch"@ {
            assert(names[18] == name);
        } else if name == "workspace.report_pwd"@ {
            assert(names[19] == name);
        } else if name == "workspace.clear_pwd"@ {
            assert(names[20] == name);
        } else if name == "workspace.report_shell_state"@ {
            assert(names[21] == name);
        } else if name == "workspace.clear_shell_state"@ {
            assert(names[22] == name);
        } else if name == "workspace.report_ports"@ {
            assert(names[23] == name);
        } else if name == "workspace.clear_ports"@ {
            assert(names[24] == name);
        } else if name == "workspace.report_tty"@ {
            assert(names[25] == name);
        } else if name == "workspace.clear_tty"@ {
            assert(names[26] == name);
        } else if name == "workspace.report_pr"@ {
            assert(names[27] == name);
        } else if name == "workspace.report_review"@ {
            assert(names[28] == name);
        } else if name == "workspace.clear_pr"@ {
            assert(names[29] == name);
        } else if name == "workspace.report_meta"@ {
            assert(names[30] == name);
        } else if name == "workspace.report_meta_block"@ {
            assert(names[31] == name);
        } else if name == "workspace.clear_meta"@ {
            assert(names[32] == name);
        } else if name == "workspace.clear_meta_block"@ {
            assert(names[33] == name);
        } else if name == "workspace.set_progress"@ {
            assert(names[34] == name);
        } else if name == "workspace.append_log"@ {
            assert(names[35] == name);
        } else if name == "pane.new"@ {
            assert(names[36] == name);
        } else if name == "pane.focus"@ {
            assert(names[37] == name);
        } else if name == "pane.close"@ {
            assert(names[38] == name);
        } else if name == "pane.resize"@ {
            assert(names[39] == name);
        } else if name == "surface.send_input"@ {
            assert(names[40] == name);
        } else if name == "surface.focus"@ {
            assert(names[41] == name);
        } else if name == "surface.close"@ {
            assert(names[42] == name);
        } else if name == "surface.next"@ {
            assert(names[43] == name);
        } else if name == "surface.previous"@ {
            assert(names[44] == name);
        } else if name == "surface.move_forward"@ {
            assert(names[45] == name);
        } else if name == "surface.move_backward"@ {
            assert(names[46] == name);
        } else if name == "notification.create"@ {
            assert(names[47] == name);
        }
    }
}

/// Whether a method reports or clears metadata of a panel.
pub open spec fn reports_metadata(m: Method) -> bool {
    ||| m is ReportGitBranch
    ||| m is ClearGitBranch
    ||| m is ReportPwd
    ||| m is ClearPwd
    ||| m is ReportShellState
    ||| m is ClearShellState
    ||| m is ReportPorts
    ||| m is ClearPorts
    ||| m is ReportTty
    ||| m is ClearTty
    ||| m is ReportPr
    ||| m is ReportReview
    ||| m is ClearPr
    ||| m is ReportMeta
    ||| m is ReportMetaBlock
    ||| m is ClearMeta
    ||| m is ClearMetaBlock
}

/// The workspace `after` is `before` with, at most, the metadata of the
/// panel `p` changed (its directory, branch, shell state, ports, tty, pull
/// request, items and blocks, with their times) and what the workspace
/// shows resynced: its record, focus, layout and panel set stay, every
/// other panel stays, and the panel keeps its identity, titles, pin and
/// unread mark.
pub open spec fn panel_metadata_only(after: Workspace, before: Workspace, p: Id) -> bool {
    &&& after.same_record(before)
    &&& after.focused_panel_id == before.focused_panel_id
    &&& after.layout@ == before.layout@
    &&& after.panels@.dom() == before.panels@.dom()
    &&& after.panels@.remove(p) == before.panels@.remove(p)
    &&& before.panels@.contains_key(p) ==> {
        let a = after.panel_view(p);
        let b = before.panel_view(p);
        &&& a.id == b.id
        &&& a.title == b.title
        &&& a.custom_title == b.custom_title
        &&& a.is_pinned == b.is_pinned
        &&& a.is_manually_unread == b.is_manually_unread
    }
}

/// A request that reports or clears panel metadata changes nothing but
/// the metadata of the panel its target names (see `report_target`), in
/// the workspace of that target (see `panel_metadata_only`). The selection,
/// the order and every other workspace stay, nothing is marked read,
/// nothing is asked of the UI and no notification is made; a refused
/// request changes nothing at all.
#[verifier::rlimit(50)]
pub proof fn lemma_reports_touch_one_workspace(
    old: TabManager,
    tm: TabManager,
    home: Seq<char>,
    method: Seq<char>,
    params: JsonValue,
    now: Timestamp,
    h: Handled,
)
    requires
        dispatched(old, tm, home, method, params, now, h),
        reports_metadata(method_of(method)),
    ensures
        h.plain(),
        h.reply is Err ==> tm.unchanged(old),
        tm.unchanged(old) || (report_target(old.workspaces@, old.selection(), params) matches Ok((w, p)) && {
            let i = index_of_id(old.workspaces@, w)->0;
            &&& tm.updated_at(old, i)
            &&& panel_metadata_only(tm.workspaces@[i], old.workspaces@[i], p)
        }),
{
    if !tm.unchanged(old) {
        let (w, p) = report_target(old.workspaces@, old.selection(), params)->Ok_0;
        let i = index_of_id(old.workspaces@, w)->0;
        let a = tm.workspaces@[i];
        let b = old.workspaces@[i];
        assert(tm.updated_at(old, i));
        if b.panels@.contains_key(p) {
            lemma_same_keys(a.panels@, b.panels@, p);
        }
        assert(panel_metadata_only(a, b, p));
    }
}

/// The place of a method in the list `system.capabilities` gives.
pub open spec fn method_rank(m: Method) -> int {
    match m {
        Method::Ping => 0,
        Method::Capabilities => 1,
        Method::WindowFocus => 2,
        Method::WorkspaceList => 3,
        Method::WorkspaceNew => 4,
        Method::WorkspaceCreate => 5,
        Method::WorkspaceRename => 6,
        Method::WorkspaceReorder => 7,
        Method::WorkspacePin => 8,
        Method::WorkspaceUnpin => 9,
        Method::WorkspaceSelect => 10,
        Method::WorkspaceNext => 11,
        Method::WorkspacePrevious => 12,
        Method::WorkspaceLast => 13,
        Method::WorkspaceLatestUnread => 14,
        Method::WorkspaceClose => 15,
        Method::SetStatus => 16,
        Method::ReportGitBranch => 17,
        Method::ClearGitBranch => 18,
        Method::ReportPwd => 19,
        Method::ClearPwd => 20,
        Method::ReportShellState => 21,
        Method::ClearShellState => 22,
        Method::ReportPorts => 23,
        Method::ClearPorts => 24,
        Method::ReportTty => 25,
        Method::ClearTty => 26,
        Method::ReportPr => 27,
        Method::ReportReview => 28,
        Method::ClearPr => 29,
        Method::ReportMeta => 30,
        Method::ReportMetaBlock => 31,
        Method::ClearMeta => 32,
        Method::ClearMetaBlock => 33,
        Method::SetProgress => 34,
        Method::AppendLog => 35,
        Method::PaneNew => 36,
        Method::PaneFocus => 37,
        Method::PaneClose => 38,
        Method::PaneResize => 39,
        Method::SurfaceSendInput => 40,
        Method::SurfaceFocus => 41,
        Method::SurfaceClose => 42,
        Method::SurfaceNext => 43,
        Method::SurfacePrevious => 44,
        Method::SurfaceMoveForward => 45,
        Method::SurfaceMoveBackward => 46,
        Method::NotificationCreate => 47,
        Method::Unknown => -1,
    }
}

/// No method is listed twice by `system.capabilities`: each listed name
/// is the name of a different method.
#[verifier::rlimit(100)]
pub proof fn lemma_capabilities_distinct()
    ensures
        method_names().no_duplicates(),
        forall|i: int| 0 <= i < method_names().len() ==> method_rank(method_of(#[trigger] method_names()[i])) == i,
{
    reveal_strlit("system.ping");
    reveal_strlit("system.capabilities");
    reveal_strlit("window.focus");
    reveal_strlit("workspace.list");
    reveal_strlit("workspace.new");
    reveal_strlit("workspace.create");
    reveal_strlit("workspace.rename");
    reveal_strlit("workspace.reorder");
    reveal_strlit("workspace.pin");
    reveal_strlit("workspace.unpin");
    reveal_strlit("workspace.select");
    reveal_strlit("workspace.next");
    reveal_strlit("workspace.previous");
    reveal_strlit("workspace.last");
    reveal_strlit("workspace.latest_unread");
    reveal_strlit("workspace.close");
    reveal_strlit("workspace.set_status");
    reveal_strlit("workspace.report_git_branch");
    reveal_strlit("workspace.clear_git_branch");
    reveal_strlit("workspace.report_pwd");
    reveal_strlit("workspace.clear_pwd");
    reveal_strlit("workspace.report_shell_state");
    reveal_strlit("workspace.clear_shell_state");
    reveal_strlit("workspace.report_ports");
    reveal_strlit("workspace.clear_ports");
    reveal_strlit("workspace.report_tty");
    reveal_strlit("workspace.clear_tty");
    reveal_strlit("workspace.report_pr");
    reveal_strlit("workspace.report_review");
    reveal_strlit("workspace.clear_pr");
    reveal_strlit("workspace.report_meta");
    reveal_strlit("workspace.report_meta_block");
    reveal_strlit("workspace.clear_meta");
    reveal_strlit("workspace.clear_meta_block");
    reveal_strlit("workspace.set_progress");
    reveal_strlit("workspace.append_log");
    reveal_strlit("pane.new");
    reveal_strlit("pane.focus");
    reveal_strlit("pane.close");
    reveal_strlit("pane.resize");
    reveal_strlit("surface.send_input");
    reveal_strlit("surface.focus");
    reveal_strlit("surface.close");
    reveal_strlit("surface.next");
    reveal_strlit("surface.previous");
    reveal_strlit("surface.move_forward");
    reveal_strlit("surface.move_backward");
    reveal_strlit("notification.create");
    assert("system.ping"@.len() == 11);
    assert("system.capabilities"@.len() == 19);
    assert("window.focus"@.len() == 12);
    assert("workspace.list"@.len() == 14);
    assert("workspace.new"@.len() == 13);
    assert("workspace.create"@.len() == 16);
    assert("workspace.rename"@.len() == 16);
    assert("workspace.reorder"@.len() == 17);
    assert("workspace.pin"@.len() == 13);
    assert("workspace.unpin"@.len() == 15);
    assert("workspace.select"@.len() == 16);
    assert("workspace.next"@.len() == 14);
    assert("workspace.previous"@.len() == 18);
    assert("workspace.last"@.len() == 14);
    assert("workspace.latest_unread"@.len() == 23);
    assert("workspace.close"@.len() == 15);
    assert("workspace.set_status"@.len() == 20);
    assert("workspace.report_git_branch"@.len() == 27);
    assert("workspace.clear_git_branch"@.len() == 26);
    assert("workspace.report_pwd"@.len() == 20);
    assert("workspace.clear_pwd"@.len() == 19);
    assert("workspace.report_shell_state"@.len() == 28);
    assert("workspace.clear_shell_state"@.len() == 27);
    assert("workspace.report_ports"@.len() == 22);
    assert("workspace.clear_ports"@.len() == 21);
    assert("workspace.report_tty"@.len() == 20);
    assert("workspace.clear_tty"@.len() == 19);
    assert("workspace.report_pr"@.len() == 19);
    assert("workspace.report_review"@.len() == 23);
    assert("workspace.clear_pr"@.len() == 18);
    assert("workspace.report_meta"@.len() == 21);
    assert("workspace.report_meta_block"@.len() == 27);
    assert("workspace.clear_meta"@.len() == 20);
    assert("workspace.clear_meta_block"@.len() == 26);
    assert("workspace.set_progress"@.len() == 22);
    assert("workspace.append_log"@.len() == 20);
    assert("pane.new"@.len() == 8);
    assert("pane.focus"@.len() == 10);
    assert("pane.close"@.len() == 10);
    assert("pane.resize"@.len() == 11);
    assert("surface.send_input"@.len() == 18);
    assert("surface.focus"@.len() == 13);
    assert("surface.close"@.len() == 13);
    assert("surface.next"@.len() == 12);
    assert("surface.previous"@.len() == 16);
    assert("surface.move_forward"@.len() == 20);
    assert("surface.move_backward"@.len() == 21);
    assert("notification.create"@.len() == 19);
    let names = method_names();
    assert forall|i: int| 0 <= i < names.len() implies method_rank(method_of(#[trigger] names[i])) == i by {
        if i == 0 {
            assert(names[0] == "system.ping"@);
            assert(method_rank(method_of("system.ping"@)) == 0);

        } else if i == 1 {
            assert(names[1] == "system.capabilities"@);
            assert(method_rank(method_of("system.capabilities"@)) == 1);

        } else if i == 2 {
            assert(names[2] == "window.focus"@);
            assert(method_rank(method_of("window.focus"@)) == 2);

        } else if i == 3 {
            assert(names[3] == "workspace.list"@);
            assert(method_rank(method_of("workspace.list"@)) == 3);

        } else if i == 4 {
            assert(names[4] == "workspace.new"@);
            assert(method_rank(method_of("workspace.new"@)) == 4);

        } else if i == 5 {
            assert(names[5] == "workspace.create"@);
            assert(method_rank(method_of("workspace.create"@)) == 5);

        } else if i == 6 {
            assert(names[6] == "workspace.rename"@);
            assert("workspace.rename"@[10] != "workspace.create"@[10]);
            assert(method_rank(method_of("workspace.rename"@)) == 6);

        } else if i == 7 {
            assert(names[7] == "workspace.reorder"@);
            assert(method_rank(method_of("workspace.reorder"@)) == 7);

        } else if i == 8 {
            assert(names[8] == "workspace.pin"@);
            assert("workspace.pin"@[10] != "workspace.new"@[10]);
            assert("workspace.pin"@[0] != "surface.focus"@[0]);
            assert("workspace.pin"@[0] != "surface.close"@[0]);
            assert(method_rank(method_of("workspace.pin"@)) == 8);

        } else if i == 9 {
            assert(names[9] == "workspace.unpin"@);
            assert("workspace.unpin"@[10] != "workspace.close"@[10]);
            assert(method_rank(method_of("workspace.unpin"@)) == 9);

        } else if i == 10 {
            assert(names[10] == "workspace.select"@);
            assert("workspace.select"@[10] != "workspace.create"@[10]);
            assert("workspace.select"@[10] != "workspace.rename"@[10]);
            assert(method_rank(method_of("workspace.select"@)) == 10);

        } else if i == 11 {
            assert(names[11] == "workspace.next"@);
            assert("workspace.next"@[10] != "workspace.list"@[10]);
            assert(method_rank(method_of("workspace.next"@)) == 11);

        } else if i == 12 {
            assert(names[12] == "workspace.previous"@);
            assert(method_rank(method_of("workspace.previous"@)) == 12);

        } else if i == 13 {
            assert(names[13] == "workspace.last"@);
            assert("workspace.last"@[11] != "workspace.list"@[11]);
            assert("workspace.last"@[10] != "workspace.next"@[10]);
            assert(method_rank(method_of("workspace.last"@)) == 13);

        } else if i == 14 {
            assert(names[14] == "workspace.latest_unread"@);
            assert(method_rank(method_of("workspace.latest_unread"@)) == 14);

        } else if i == 15 {
            assert(names[15] == "workspace.close"@);
            assert(method_rank(method_of("workspace.close"@)) == 15);

        } else if i == 16 {
            assert(names[16] == "workspace.set_status"@);
            assert(method_rank(method_of("workspace.set_status"@)) == 16);

        } else if i == 17 {
            assert(names[17] == "workspace.report_git_branch"@);
            assert(method_rank(method_of("workspace.report_git_branch"@)) == 17);

        } else if i == 18 {
            assert(names[18] == "workspace.clear_git_branch"@);
            assert(method_rank(method_of("workspace.clear_git_branch"@)) == 18);

        } else if i == 19 {
            assert(names[19] == "workspace.report_pwd"@);
            assert("workspace.report_pwd"@[10] != "workspace.set_status"@[10]);
            assert(method_rank(method_of("workspace.report_pwd"@)) == 19);

        } else if i == 20 {
            assert(names[20] == "workspace.clear_pwd"@);
            assert("workspace.clear_pwd"@[0] != "system.capabilities"@[0]);
            assert(method_rank(method_of("workspace.clear_pwd"@)) == 20);

        } else if i == 21 {
            assert(names[21] == "workspace.report_shell_state"@);
            assert(method_rank(method_of("workspace.report_shell_state"@)) == 21);

        } else if i == 22 {
            assert(names[22] == "workspace.clear_shell_state"@);
            assert("workspace.clear_shell_state"@[10] != "workspace.report_git_branch"@[10]);
            assert(method_rank(method_of("workspace.clear_shell_state"@)) == 22);

        } else if i == 23 {
            assert(names[23] == "workspace.report_ports"@);
            assert(method_rank(method_of("workspace.report_ports"@)) == 23);

        } else if i == 24 {
            assert(names[24] == "workspace.clear_ports"@);
            assert(method_rank(method_of("workspace.clear_ports"@)) == 24);

        } else if i == 25 {
            assert(names[25] == "workspace.report_tty"@);
            assert("workspace.report_tty"@[10] != "workspace.set_status"@[10]);
            assert("workspace.report_tty"@[17] != "workspace.report_pwd"@[17]);
            assert(method_rank(method_of("workspace.report_tty"@)) == 25);

        } else if i == 26 {
            assert(names[26] == "workspace.clear_tty"@);
            assert("workspace.clear_tty"@[0] != "system.capabilities"@[0]);
            assert("workspace.clear_tty"@[16] != "workspace.clear_pwd"@[16]);
            assert(method_rank(method_of("workspace.clear_tty"@)) == 26);

        } else if i == 27 {
            assert(names[27] == "workspace.report_pr"@);
            assert("workspace.report_pr"@[0] != "system.capabilities"@[0]);
            assert("workspace.report_pr"@[10] != "workspace.clear_pwd"@[10]);
            assert("workspace.report_pr"@[10] != "workspace.clear_tty"@[10]);
            assert(method_rank(method_of("workspace.report_pr"@)) == 27);

        } else if i == 28 {
            assert(names[28] == "workspace.report_review"@);
            assert("workspace.report_review"@[10] != "workspace.latest_unread"@[10]);
            assert(method_rank(method_of("workspace.report_review"@)) == 28);

        } else if i == 29 {
            assert(names[29] == "workspace.clear_pr"@);
            assert("workspace.clear_pr"@[10] != "workspace.previous"@[10]);
            assert(method_rank(method_of("workspace.clear_pr"@)) == 29);

        } else if i == 30 {
            assert(names[30] == "workspace.report_meta"@);
            assert("workspace.report_meta"@[10] != "workspace.clear_ports"@[10]);
            assert(method_rank(method_of("workspace.report_meta"@)) == 30);

        } else if i == 31 {
            assert(names[31] == "workspace.report_meta_block"@);
            assert("workspace.report_meta_block"@[17] != "workspace.report_git_branch"@[17]);
            assert("workspace.report_meta_block"@[10] != "workspace.clear_shell_state"@[10]);
            assert(method_rank(method_of("workspace.report_meta_block"@)) == 31);

        } else if i == 32 {
            assert(names[32] == "workspace.clear_meta"@);
            assert("workspace.clear_meta"@[10] != "workspace.set_status"@[10]);
            assert("workspace.clear_meta"@[10] != "workspace.report_pwd"@[10]);
            assert("workspace.clear_meta"@[10] != "workspace.report_tty"@[10]);
            assert(method_rank(method_of("workspace.clear_meta"@)) == 32);

        } else if i == 33 {
            assert(names[33] == "workspace.clear_meta_block"@);
            assert("workspace.clear_meta_block"@[16] != "workspace.clear_git_branch"@[16]);
            assert(method_rank(method_of("workspace.clear_meta_block"@)) == 33);

        } else if i == 34 {
            assert(names[34] == "workspace.set_progress"@);
            assert("workspace.set_progress"@[10] != "workspace.report_ports"@[10]);
            assert(method_rank(method_of("workspace.set_progress"@)) == 34);

        } else if i == 35 {
            assert(names[35] == "workspace.append_log"@);
            assert("workspace.append_log"@[10] != "workspace.set_status"@[10]);
            assert("workspace.append_log"@[10] != "workspace.report_pwd"@[10]);
            assert("workspace.append_log"@[10] != "workspace.report_tty"@[10]);
            assert("workspace.append_log"@[10] != "workspace.clear_meta"@[10]);
            assert(method_rank(method_of("workspace.append_log"@)) == 35);

        } else if i == 36 {
            assert(names[36] == "pane.new"@);
            assert(method_rank(method_of("pane.new"@)) == 36);

        } else if i == 37 {
            assert(names[37] == "pane.focus"@);
            assert(method_rank(method_of("pane.focus"@)) == 37);

        } else if i == 38 {
            assert(names[38] == "pane.close"@);
            assert("pane.close"@[5] != "pane.focus"@[5]);
            assert(method_rank(method_of("pane.close"@)) == 38);

        } else if i == 39 {
            assert(names[39] == "pane.resize"@);
            assert("pane.resize"@[0] != "system.ping"@[0]);
            assert(method_rank(method_of("pane.resize"@)) == 39);

        } else if i == 40 {
            assert(names[40] == "surface.send_input"@);
            assert("surface.send_input"@[0] != "workspace.previous"@[0]);
            assert("surface.send_input"@[0] != "workspace.clear_pr"@[0]);
            assert(method_rank(method_of("surface.send_input"@)) == 40);

        } else if i == 41 {
            assert(names[41] == "surface.focus"@);
            assert("surface.focus"@[0] != "workspace.new"@[0]);
            assert(method_rank(method_of("surface.focus"@)) == 41);

        } else if i == 42 {
            assert(names[42] == "surface.close"@);
            assert("surface.close"@[0] != "workspace.new"@[0]);
            assert("surface.close"@[8] != "surface.focus"@[8]);
            assert(method_rank(method_of("surface.close"@)) == 42);

        } else if i == 43 {
            assert(names[43] == "surface.next"@);
            assert("surface.next"@[0] != "window.focus"@[0]);
            assert(method_rank(method_of("surface.next"@)) == 43);

        } else if i == 44 {
            assert(names[44] == "surface.previous"@);
            assert("surface.previous"@[0] != "workspace.create"@[0]);
            assert("surface.previous"@[0] != "workspace.rename"@[0]);
            assert("surface.previous"@[0] != "workspace.select"@[0]);
            assert(method_rank(method_of("surface.previous"@)) == 44);

        } else if i == 45 {
            assert(names[45] == "surface.move_forward"@);
            assert("surface.move_forward"@[0] != "workspace.set_status"@[0]);
            assert("surface.move_forward"@[0] != "workspace.report_pwd"@[0]);
            assert("surface.move_forward"@[0] != "workspace.report_tty"@[0]);
            assert("surface.move_forward"@[0] != "workspace.clear_meta"@[0]);
            assert("surface.move_forward"@[0] != "workspace.append_log"@[0]);
            assert(method_rank(method_of("surface.move_forward"@)) == 45);

        } else if i == 46 {
            assert(names[46] == "surface.move_backward"@);
            assert("surface.move_backward"@[0] != "workspace.clear_ports"@[0]);
            assert("surface.move_backward"@[0] != "workspace.report_meta"@[0]);
            assert(method_rank(method_of("surface.move_backward"@)) == 46);

        } else if i == 47 {
            assert(names[47] == "notification.create"@);
            assert("notification.create"@[0] != "system.capabilities"@[0]);
            assert("notification.create"@[0] != "workspace.clear_pwd"@[0]);
            assert("notification.create"@[0] != "workspace.clear_tty"@[0]);
            assert("notification.create"@[0] != "workspace.report_pr"@[0]);
            assert(method_rank(method_of("notification.create"@)) == 47);

        }
    }
    assert forall|i: int, j: int| 0 <= i < names.len() && 0 <= j < names.len() && i != j implies names[i] != names[j] by {
        if names[i] == names[j] {
            assert(method_rank(method_of(names[i])) == i);
            assert(method_rank(method_of(names[j])) == j);
        }
    }
}

} // verus!

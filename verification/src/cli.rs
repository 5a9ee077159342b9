//! The command-line client: the request each command sends, how a reply
//! is shown, and where the client looks for the socket.

use vstd::prelude::*;
use vstd::string::StrSliceExecFns;

use crate::protocol::JsonValue;
use crate::panel::str_eq;
use crate::sidebar::{decimal, push_decimal, push_text};
use crate::text::{chars_of, string_from_chars};

verus! {

broadcast use vstd::string::group_string_axioms;

/// The mathematical form of a request parameter's value.
pub enum ParamValue {
    Text(Seq<char>),
    UInt(nat),
    Int(int),
    Bool(bool),
    /// A number given in millionths.
    Fraction(int),
    Null,
    UInts(Seq<nat>),
}

/// Whether a JSON value is the parameter value.
pub open spec fn is_param(v: JsonValue, p: ParamValue) -> bool {
    match p {
        ParamValue::Text(t) => v.text() == Some(t),
        ParamValue::UInt(n) => v matches JsonValue::UInt(m) && m == n,
        ParamValue::Int(n) => if n >= 0 {
            v matches JsonValue::UInt(m) && m == n
        } else {
            v matches JsonValue::NegInt(m) && m == n
        },
        ParamValue::Bool(b) => v == JsonValue::Bool(b),
        ParamValue::Fraction(m) => v matches JsonValue::Float(f) && f == m,
        ParamValue::Null => v is Null,
        ParamValue::UInts(ns) => match v {
            JsonValue::Array(items) => {
                &&& items@.len() == ns.len()
                &&& forall|i: int| 0 <= i < ns.len() ==> (#[trigger] items@[i] matches JsonValue::UInt(m) && m == ns[i])
            },
            _ => false,
        },
    }
}

/// Whether the members are, in order, the named parameter values.
pub open spec fn entries_describe(es: Seq<(String, JsonValue)>, fs: Seq<(Seq<char>, ParamValue)>) -> bool {
    &&& es.len() == fs.len()
    &&& forall|i: int| 0 <= i < es.len() ==> (#[trigger] es[i]).0@ == fs[i].0 && is_param(es[i].1, fs[i].1)
}

/// Whether the JSON value is an object of the named parameter values, in
/// order.
pub open spec fn describes(v: JsonValue, fs: Seq<(Seq<char>, ParamValue)>) -> bool {
    match v {
        JsonValue::Object(es) => entries_describe(es@, fs),
        _ => false,
    }
}

/// The text parameter where there is a value, else nothing.
pub open spec fn opt_text_fields(key: Seq<char>, t: Option<Seq<char>>) -> Seq<(Seq<char>, ParamValue)> {
    match t {
        Some(s) => seq![(key, ParamValue::Text(s))],
        None => Seq::empty(),
    }
}

/// The number parameter where there is a value, else nothing.
pub open spec fn opt_uint_fields(key: Seq<char>, n: Option<nat>) -> Seq<(Seq<char>, ParamValue)> {
    match n {
        Some(n) => seq![(key, ParamValue::UInt(n))],
        None => Seq::empty(),
    }
}

/// The integer parameter where there is a value, else nothing.
pub open spec fn opt_int_fields(key: Seq<char>, n: Option<int>) -> Seq<(Seq<char>, ParamValue)> {
    match n {
        Some(n) => seq![(key, ParamValue::Int(n))],
        None => Seq::empty(),
    }
}

/// The fractional parameter (in millionths) where there is a value, else
/// nothing.
pub open spec fn opt_fraction_fields(key: Seq<char>, m: Option<i64>) -> Seq<(Seq<char>, ParamValue)> {
    match m {
        Some(m) => seq![(key, ParamValue::Fraction(m as int))],
        None => Seq::empty(),
    }
}

/// The text where there is one, else null.
pub open spec fn text_or_null(t: Option<Seq<char>>) -> ParamValue {
    match t {
        Some(s) => ParamValue::Text(s),
        None => ParamValue::Null,
    }
}

/// The text with each `\n` written as a backslash and `n` (read left to
/// right) made a newline.
pub open spec fn unescape_newlines(s: Seq<char>) -> Seq<char>
    decreases s.len(),
{
    if s.len() == 0 {
        s
    } else if s.len() >= 2 && s[0] == '\\' && s[1] == 'n' {
        seq!['\n'] + unescape_newlines(s.skip(2))
    } else {
        seq![s[0]] + unescape_newlines(s.skip(1))
    }
}

/// The text with each escaped newline made a newline (see
/// `unescape_newlines`).
pub fn unescape_text(text: &str) -> (t: String)
    ensures
        t@ == unescape_newlines(text@),
{
    let chars = chars_of(text);
    let n = chars.len();
    let mut out: Vec<char> = Vec::new();
    let mut i: usize = 0;
    proof {
        assert(chars@.skip(0) =~= chars@);
    }
    while i < n
        invariant
            n == chars@.len(),
            chars@ == text@,
            i <= n,
            out@ + unescape_newlines(chars@.skip(i as int)) == unescape_newlines(text@),
        decreases n - i,
    {
        let ghost rest = chars@.skip(i as int);
        if i + 1 < n && chars[i] == '\\' && chars[i + 1] == 'n' {
            proof {
                assert(rest.skip(2) =~= chars@.skip(i + 2));
                assert(out@.push('\n') + unescape_newlines(chars@.skip(i + 2)) =~= out@ + unescape_newlines(rest));
            }
            out.push('\n');
            i = i + 2;
        } else {
            proof {
                assert(rest.skip(1) =~= chars@.skip(i + 1));
                assert(out@.push(chars@[i as int]) + unescape_newlines(chars@.skip(i + 1)) =~= out@ + unescape_newlines(rest));
            }
            out.push(chars[i]);
            i = i + 1;
        }
    }
    proof {
        assert(chars@.skip(n as int).len() == 0);
        assert(out@ + unescape_newlines(chars@.skip(n as int)) =~= out@);
    }
    string_from_chars(&out)
}

/// The parameters of a request as they are added, and what they are.
struct ParamsBuilder {
    entries: Vec<(String, JsonValue)>,
    fields: Ghost<Seq<(Seq<char>, ParamValue)>>,
}

impl ParamsBuilder {
    spec fn wf(self) -> bool {
        entries_describe(self.entries@, self.fields@)
    }

    fn new() -> (b: Self)
        ensures
            b.wf(),
            b.fields@ == Seq::<(Seq<char>, ParamValue)>::empty(),
    {
        ParamsBuilder { entries: Vec::new(), fields: Ghost(Seq::empty()) }
    }

    fn put(&mut self, key: &str, v: JsonValue, Ghost(p): Ghost<ParamValue>)
        requires
            old(self).wf(),
            is_param(v, p),
        ensures
            final(self).wf(),
            final(self).fields@ == old(self).fields@.push((key@, p)),
    {
        let ghost before = self.entries@;
        self.entries.push((key.to_owned(), v));
        self.fields = Ghost(self.fields@.push((key@, p)));
        proof {
            assert forall|i: int| 0 <= i < self.entries@.len() implies (#[trigger] self.entries@[i]).0@ == self.fields@[i].0 && is_param(self.entries@[i].1, self.fields@[i].1) by {
                if i < before.len() {
                    assert(self.entries@[i] == before[i]);
                }
            }
        }
    }

    fn text(&mut self, key: &str, value: &str)
        requires
            old(self).wf(),
        ensures
            final(self).wf(),
            final(self).fields@ == old(self).fields@.push((key@, ParamValue::Text(value@))),
    {
        self.put(key, JsonValue::Str(value.to_owned()), Ghost(ParamValue::Text(value@)));
    }

    fn opt_text(&mut self, key: &str, value: &Option<String>)
        requires
            old(self).wf(),
        ensures
            final(self).wf(),
            final(self).fields@ == old(self).fields@ + opt_text_fields(key@, value.deep_view()),
    {
        match value {
            Some(v) => {
                self.text(key, v.as_str());
                proof {
                    assert(final(self).fields@ =~= old(self).fields@ + opt_text_fields(key@, value.deep_view()));
                }
            },
            None => {
                proof {
                    assert(self.fields@ =~= old(self).fields@ + opt_text_fields(key@, value.deep_view()));
                }
            },
        }
    }

    fn text_or_null(&mut self, key: &str, value: &Option<String>)
        requires
            old(self).wf(),
        ensures
            final(self).wf(),
            final(self).fields@ == old(self).fields@.push((key@, text_or_null(value.deep_view()))),
    {
        match value {
            Some(v) => self.put(key, JsonValue::Str(v.clone()), Ghost(text_or_null(value.deep_view()))),
            None => self.put(key, JsonValue::Null, Ghost(text_or_null(value.deep_view()))),
        }
    }

    fn uint(&mut self, key: &str, n: u64)
        requires
            old(self).wf(),
        ensures
            final(self).wf(),
            final(self).fields@ == old(self).fields@.push((key@, ParamValue::UInt(n as nat))),
    {
        self.put(key, JsonValue::UInt(n), Ghost(ParamValue::UInt(n as nat)));
    }

    fn opt_uint(&mut self, key: &str, n: Option<u64>)
        requires
            old(self).wf(),
        ensures
            final(self).wf(),
            final(self).fields@ == old(self).fields@ + opt_uint_fields(key@, match n {
                Some(m) => Some(m as nat),
                None => None,
            }),
    {
        match n {
            Some(m) => {
                self.uint(key, m);
                proof {
                    assert(final(self).fields@ =~= old(self).fields@ + opt_uint_fields(key@, Some(m as nat)));
                }
            },
            None => {
                proof {
                    assert(self.fields@ =~= old(self).fields@ + opt_uint_fields(key@, None));
                }
            },
        }
    }

    fn opt_int(&mut self, key: &str, n: Option<i32>)
        requires
            old(self).wf(),
        ensures
            final(self).wf(),
            final(self).fields@ == old(self).fields@ + opt_int_fields(key@, match n {
                Some(m) => Some(m as int),
                None => None,
            }),
    {
        match n {
            Some(m) => {
                let v = if m >= 0 {
                    JsonValue::UInt(m as u64)
                } else {
                    JsonValue::NegInt(m as i64)
                };
                self.put(key, v, Ghost(ParamValue::Int(m as int)));
                proof {
                    assert(final(self).fields@ =~= old(self).fields@ + opt_int_fields(key@, Some(m as int)));
                }
            },
            None => {
                proof {
                    assert(self.fields@ =~= old(self).fields@ + opt_int_fields(key@, None));
                }
            },
        }
    }

    fn boolean(&mut self, key: &str, b: bool)
        requires
            old(self).wf(),
        ensures
            final(self).wf(),
            final(self).fields@ == old(self).fields@.push((key@, ParamValue::Bool(b))),
    {
        self.put(key, JsonValue::Bool(b), Ghost(ParamValue::Bool(b)));
    }

    fn opt_fraction(&mut self, key: &str, m: Option<i64>)
        requires
            old(self).wf(),
        ensures
            final(self).wf(),
            final(self).fields@ == old(self).fields@ + opt_fraction_fields(key@, m),
    {
        match m {
            Some(f) => {
                self.put(key, JsonValue::Float(f), Ghost(ParamValue::Fraction(f as int)));
                proof {
                    assert(final(self).fields@ =~= old(self).fields@ + opt_fraction_fields(key@, m));
                }
            },
            None => {
                proof {
                    assert(self.fields@ =~= old(self).fields@ + opt_fraction_fields(key@, m));
                }
            },
        }
    }

    fn ports(&mut self, key: &str, ports: &Vec<u16>)
        requires
            old(self).wf(),
        ensures
            final(self).wf(),
            final(self).fields@ == old(self).fields@.push((key@, ParamValue::UInts(ports@.map_values(|p: u16| p as nat)))),
    {
        let mut items: Vec<JsonValue> = Vec::new();
        let mut i: usize = 0;
        while i < ports.len()
            invariant
                i <= ports@.len(),
                items@.len() == i,
                forall|j: int| 0 <= j < i ==> (#[trigger] items@[j] matches JsonValue::UInt(m) && m == ports@[j]),
            decreases ports.len() - i,
        {
            items.push(JsonValue::UInt(ports[i] as u64));
            i = i + 1;
        }
        let ghost ns = ports@.map_values(|p: u16| p as nat);
        proof {
            assert forall|j: int| 0 <= j < ns.len() implies (#[trigger] items@[j] matches JsonValue::UInt(m) && m == ns[j]) by {
                assert(ns[j] == ports@[j] as nat);
            }
        }
        self.put(key, JsonValue::Array(items), Ghost(ParamValue::UInts(ns)));
    }

    fn finish(self) -> (v: JsonValue)
        requires
            self.wf(),
        ensures
            describes(v, self.fields@),
    {
        JsonValue::Object(self.entries)
    }
}

/// A command of the command-line client.
#[derive(Debug)]
pub enum CliCommand {
    Ping,
    Capabilities,
    WindowFocus,
    WorkspaceList,
    WorkspaceNew { directory: Option<String>, title: Option<String> },
    WorkspaceSelect { index: Option<usize>, workspace: Option<String> },
    WorkspaceRename { workspace: Option<String>, title: String },
    WorkspaceReorder { workspace: Option<String>, from_index: Option<usize>, to_index: usize },
    WorkspacePin { workspace: Option<String> },
    WorkspaceUnpin { workspace: Option<String> },
    WorkspaceNext { wrap: bool },
    WorkspacePrevious { wrap: bool },
    WorkspaceLast,
    WorkspaceLatestUnread,
    WorkspaceClose { index: Option<usize> },
    SetStatus { key: String, value: String, icon: Option<String>, color: Option<String> },
    ReportGitBranch { workspace: Option<String>, surface: Option<String>, branch: String, dirty: bool },
    ClearGitBranch { workspace: Option<String>, surface: Option<String> },
    ReportPwd { workspace: Option<String>, surface: Option<String>, path: String },
    ClearPwd { workspace: Option<String>, surface: Option<String> },
    ReportShellState { workspace: Option<String>, surface: Option<String>, state: String, label: Option<String> },
    ClearShellState { workspace: Option<String>, surface: Option<String> },
    ReportPorts { workspace: Option<String>, surface: Option<String>, ports: Vec<u16> },
    ClearPorts { workspace: Option<String>, surface: Option<String> },
    ReportTty { workspace: Option<String>, surface: Option<String>, tty_name: String },
    ClearTty { workspace: Option<String>, surface: Option<String> },
    ReportPr { workspace: Option<String>, surface: Option<String>, number: u32, url: Option<String>, label: String, title: Option<String>, state: String, branch: Option<String>, checks: Option<String> },
    ReportReview { workspace: Option<String>, surface: Option<String>, number: Option<u32>, url: Option<String>, label: String, title: Option<String>, state: String, checks: Option<String> },
    ClearPr { workspace: Option<String>, surface: Option<String> },
    ReportMeta { workspace: Option<String>, surface: Option<String>, key: String, value: String, label: Option<String>, icon: Option<String>, color: Option<String>, url: Option<String>, priority: Option<i32>, format: Option<String> },
    ClearMeta { workspace: Option<String>, surface: Option<String>, key: String },
    ReportMetaBlock { workspace: Option<String>, surface: Option<String>, key: String, content: String, title: Option<String>, style: Option<String>, priority: Option<i32>, format: Option<String> },
    ClearMetaBlock { workspace: Option<String>, surface: Option<String>, key: String },
    SurfaceSendText { text: String, surface: Option<String> },
    SurfaceFocus { surface: String },
    SurfaceClose { surface: String },
    SurfaceNext { pane: Option<String> },
    SurfacePrevious { pane: Option<String> },
    SurfaceMoveForward { surface: Option<String> },
    SurfaceMoveBackward { surface: Option<String> },
    PaneNew { orientation: String },
    PaneFocus { pane: String },
    PaneClose { pane: String },
    PaneResize { pane: String, direction: String, step: Option<i64> },
    Notify { title: String, body: String, workspace: Option<String>, surface: Option<String>, no_desktop: bool },
}

/// The method and the parameters of the request a command sends.
pub open spec fn cli_request(cmd: CliCommand) -> (Seq<char>, Seq<(Seq<char>, ParamValue)>) {
    match cmd {
        CliCommand::Ping => ("system.ping"@, Seq::empty()),
        CliCommand::Capabilities => ("system.capabilities"@, Seq::empty()),
        CliCommand::WindowFocus => ("window.focus"@, Seq::empty()),
        CliCommand::WorkspaceList => ("workspace.list"@, Seq::empty()),
        CliCommand::WorkspaceNew { directory, title } => ("workspace.new"@, Seq::empty() + opt_text_fields("directory"@, directory.deep_view()) + opt_text_fields("title"@, title.deep_view())),
        CliCommand::WorkspaceSelect { index, workspace } => ("workspace.select"@, Seq::empty() + opt_uint_fields("index"@, match index { Some(n) => Some(n as nat), None => None }) + opt_text_fields("workspace"@, workspace.deep_view())),
        CliCommand::WorkspaceRename { workspace, title } => ("workspace.rename"@, (Seq::empty() + opt_text_fields("workspace"@, workspace.deep_view())).push(("title"@, ParamValue::Text(title@)))),
        CliCommand::WorkspaceReorder { workspace, from_index, to_index } => ("workspace.reorder"@, (Seq::empty() + opt_text_fields("workspace"@, workspace.deep_view()) + opt_uint_fields("from_index"@, match from_index { Some(n) => Some(n as nat), None => None })).push(("to_index"@, ParamValue::UInt(to_index as nat)))),
        CliCommand::WorkspacePin { workspace } => ("workspace.pin"@, Seq::empty() + opt_text_fields("workspace"@, workspace.deep_view())),
        CliCommand::WorkspaceUnpin { workspace } => ("workspace.unpin"@, Seq::empty() + opt_text_fields("workspace"@, workspace.deep_view())),
        CliCommand::WorkspaceNext { wrap } => ("workspace.next"@, Seq::empty().push(("wrap"@, ParamValue::Bool(wrap)))),
        CliCommand::WorkspacePrevious { wrap } => ("workspace.previous"@, Seq::empty().push(("wrap"@, ParamValue::Bool(wrap)))),
        CliCommand::WorkspaceLast => ("workspace.last"@, Seq::empty()),
        CliCommand::WorkspaceLatestUnread => ("workspace.latest_unread"@, Seq::empty()),
        CliCommand::WorkspaceClose { index } => ("workspace.close"@, Seq::empty() + opt_uint_fields("index"@, match index { Some(n) => Some(n as nat), None => None })),
        CliCommand::SetStatus { key, value, icon, color } => ("workspace.set_status"@, Seq::empty().push(("key"@, ParamValue::Text(key@))).push(("value"@, ParamValue::Text(value@))).push(("icon"@, text_or_null(icon.deep_view()))).push(("color"@, text_or_null(color.deep_view())))),
        CliCommand::ReportGitBranch { workspace, surface, branch, dirty } => ("workspace.report_git_branch"@, ((Seq::empty() + opt_text_fields("workspace"@, workspace.deep_view()) + opt_text_fields("surface"@, surface.deep_view())).push(("branch"@, ParamValue::Text(branch@)))).push(("is_dirty"@, ParamValue::Bool(dirty)))),
        CliCommand::ClearGitBranch { workspace, surface } => ("workspace.clear_git_branch"@, Seq::empty() + opt_text_fields("workspace"@, workspace.deep_view()) + opt_text_fields("surface"@, surface.deep_view())),
        CliCommand::ReportPwd { workspace, surface, path } => ("workspace.report_pwd"@, (Seq::empty() + opt_text_fields("workspace"@, workspace.deep_view()) + opt_text_fields("surface"@, surface.deep_view())).push(("path"@, ParamValue::Text(path@)))),
        CliCommand::ClearPwd { workspace, surface } => ("workspace.clear_pwd"@, Seq::empty() + opt_text_fields("workspace"@, workspace.deep_view()) + opt_text_fields("surface"@, surface.deep_view())),
        CliCommand::ReportShellState { workspace, surface, state, label } => ("workspace.report_shell_state"@, (Seq::empty() + opt_text_fields("workspace"@, workspace.deep_view()) + opt_text_fields("surface"@, surface.deep_view())).push(("state"@, ParamValue::Text(state@))) + opt_text_fields("label"@, label.deep_view())),
        CliCommand::ClearShellState { workspace, surface } => ("workspace.clear_shell_state"@, Seq::empty() + opt_text_fields("workspace"@, workspace.deep_view()) + opt_text_fields("surface"@, surface.deep_view())),
        CliCommand::ReportPorts { workspace, surface, ports } => ("workspace.report_ports"@, (Seq::empty() + opt_text_fields("workspace"@, workspace.deep_view()) + opt_text_fields("surface"@, surface.deep_view())).push(("ports"@, ParamValue::UInts(ports@.map_values(|p: u16| p as nat))))),
        CliCommand::ClearPorts { workspace, surface } => ("workspace.clear_ports"@, Seq::empty() + opt_text_fields("workspace"@, workspace.deep_view()) + opt_text_fields("surface"@, surface.deep_view())),
        CliCommand::ReportTty { workspace, surface, tty_name } => ("workspace.report_tty"@, (Seq::empty() + opt_text_fields("workspace"@, workspace.deep_view()) + opt_text_fields("surface"@, surface.deep_view())).push(("tty_name"@, ParamValue::Text(tty_name@)))),
        CliCommand::ClearTty { workspace, surface } => ("workspace.clear_tty"@, Seq::empty() + opt_text_fields("workspace"@, workspace.deep_view()) + opt_text_fields("surface"@, surface.deep_view())),
        CliCommand::ReportPr { workspace, surface, number, url, label, title, state, branch, checks } => ("workspace.report_pr"@, (((Seq::empty() + opt_text_fields("workspace"@, workspace.deep_view()) + opt_text_fields("surface"@, surface.deep_view())).push(("number"@, ParamValue::UInt(number as nat))) + opt_text_fields("url"@, url.deep_view())).push(("label"@, ParamValue::Text(label@))) + opt_text_fields("title"@, title.deep_view())).push(("state"@, ParamValue::Text(state@))) + opt_text_fields("branch"@, branch.deep_view()) + opt_text_fields("checks"@, checks.deep_view())),
        CliCommand::ReportReview { workspace, surface, number, url, label, title, state, checks } => ("workspace.report_review"@, ((Seq::empty() + opt_text_fields("workspace"@, workspace.deep_view()) + opt_text_fields("surface"@, surface.deep_view()) + opt_uint_fields("number"@, match number { Some(n) => Some(n as nat), None => None }) + opt_text_fields("url"@, url.deep_view())).push(("label"@, ParamValue::Text(label@))) + opt_text_fields("title"@, title.deep_view())).push(("state"@, ParamValue::Text(state@))) + opt_text_fields("checks"@, checks.deep_view())),
        CliCommand::ClearPr { workspace, surface } => ("workspace.clear_pr"@, Seq::empty() + opt_text_fields("workspace"@, workspace.deep_view()) + opt_text_fields("surface"@, surface.deep_view())),
        CliCommand::ReportMeta { workspace, surface, key, value, label, icon, color, url, priority, format } => ("workspace.report_meta"@, ((Seq::empty() + opt_text_fields("workspace"@, workspace.deep_view()) + opt_text_fields("surface"@, surface.deep_view())).push(("key"@, ParamValue::Text(key@)))).push(("value"@, ParamValue::Text(value@))) + opt_text_fields("label"@, label.deep_view()) + opt_text_fields("icon"@, icon.deep_view()) + opt_text_fields("color"@, color.deep_view()) + opt_text_fields("url"@, url.deep_view()) + opt_int_fields("priority"@, match priority { Some(n) => Some(n as int), None => None }) + opt_text_fields("format"@, format.deep_view())),
        CliCommand::ClearMeta { workspace, surface, key } => ("workspace.clear_meta"@, (Seq::empty() + opt_text_fields("workspace"@, workspace.deep_view()) + opt_text_fields("surface"@, surface.deep_view())).push(("key"@, ParamValue::Text(key@)))),
        CliCommand::ReportMetaBlock { workspace, surface, key, content, title, style, priority, format } => ("workspace.report_meta_block"@, ((Seq::empty() + opt_text_fields("workspace"@, workspace.deep_view()) + opt_text_fields("surface"@, surface.deep_view())).push(("key"@, ParamValue::Text(key@)))).push(("content"@, ParamValue::Text(content@))) + opt_text_fields("title"@, title.deep_view()) + opt_text_fields("style"@, style.deep_view()) + opt_int_fields("priority"@, match priority { Some(n) => Some(n as int), None => None }) + opt_text_fields("format"@, format.deep_view())),
        CliCommand::ClearMetaBlock { workspace, surface, key } => ("workspace.clear_meta_block"@, (Seq::empty() + opt_text_fields("workspace"@, workspace.deep_view()) + opt_text_fields("surface"@, surface.deep_view())).push(("key"@, ParamValue::Text(key@)))),
        CliCommand::SurfaceSendText { text, surface } => ("surface.send_input"@, Seq::empty().push(("input"@, ParamValue::Text(unescape_newlines(text@)))) + opt_text_fields("surface"@, surface.deep_view())),
        CliCommand::SurfaceFocus { surface } => ("surface.focus"@, Seq::empty().push(("surface"@, ParamValue::Text(surface@)))),
        CliCommand::SurfaceClose { surface } => ("surface.close"@, Seq::empty().push(("surface"@, ParamValue::Text(surface@)))),
        CliCommand::SurfaceNext { pane } => ("surface.next"@, Seq::empty() + opt_text_fields("pane"@, pane.deep_view())),
        CliCommand::SurfacePrevious { pane } => ("surface.previous"@, Seq::empty() + opt_text_fields("pane"@, pane.deep_view())),
        CliCommand::SurfaceMoveForward { surface } => ("surface.move_forward"@, Seq::empty() + opt_text_fields("surface"@, surface.deep_view())),
        CliCommand::SurfaceMoveBackward { surface } => ("surface.move_backward"@, Seq::empty() + opt_text_fields("surface"@, surface.deep_view())),
        CliCommand::PaneNew { orientation } => ("pane.new"@, Seq::empty().push(("orientation"@, ParamValue::Text(orientation@)))),
        CliCommand::PaneFocus { pane } => ("pane.focus"@, Seq::empty().push(("pane"@, ParamValue::Text(pane@)))),
        CliCommand::PaneClose { pane } => ("pane.close"@, Seq::empty().push(("pane"@, ParamValue::Text(pane@)))),
        CliCommand::PaneResize { pane, direction, step } => ("pane.resize"@, Seq::empty().push(("pane"@, ParamValue::Text(pane@))).push(("direction"@, ParamValue::Text(direction@))) + opt_fraction_fields("step"@, step)),
        CliCommand::Notify { title, body, workspace, surface, no_desktop } => ("notification.create"@, (Seq::empty().push(("title"@, ParamValue::Text(title@))).push(("body"@, ParamValue::Text(body@))) + opt_text_fields("workspace"@, workspace.deep_view()) + opt_text_fields("surface"@, surface.deep_view())).push(("send_desktop"@, ParamValue::Bool(!no_desktop)))),
    }
}

/// The method and the parameters of the request a command sends (see
/// `cli_request`).
pub fn request_for(cmd: &CliCommand) -> (r: (&'static str, JsonValue))
    ensures
        r.0@ == cli_request(*cmd).0,
        describes(r.1, cli_request(*cmd).1),
{
    let mut b = ParamsBuilder::new();
    let method: &'static str = match cmd {
        CliCommand::Ping => "system.ping",
        CliCommand::Capabilities => "system.capabilities",
        CliCommand::WindowFocus => "window.focus",
        CliCommand::WorkspaceList => "workspace.list",
        CliCommand::WorkspaceNew { directory, title } => {
            b.opt_text("directory", directory);
            b.opt_text("title", title);
            "workspace.new"
        },
        CliCommand::WorkspaceSelect { index, workspace } => {
            b.opt_uint("index", match index { Some(n) => Some(*n as u64), None => None });
            b.opt_text("workspace", workspace);
            "workspace.select"
        },
        CliCommand::WorkspaceRename { workspace, title } => {
            b.opt_text("workspace", workspace);
            b.text("title", title.as_str());
            "workspace.rename"
        },
        CliCommand::WorkspaceReorder { workspace, from_index, to_index } => {
            b.opt_text("workspace", workspace);
            b.opt_uint("from_index", match from_index { Some(n) => Some(*n as u64), None => None });
            b.uint("to_index", *to_index as u64);
            "workspace.reorder"
        },
        CliCommand::WorkspacePin { workspace } => {
            b.opt_text("workspace", workspace);
            "workspace.pin"
        },
        CliCommand::WorkspaceUnpin { workspace } => {
            b.opt_text("workspace", workspace);
            "workspace.unpin"
        },
        CliCommand::WorkspaceNext { wrap } => {
            b.boolean("wrap", *wrap);
            "workspace.next"
        },
        CliCommand::WorkspacePrevious { wrap } => {
            b.boolean("wrap", *wrap);
            "workspace.previous"
        },
        CliCommand::WorkspaceLast => "workspace.last",
        CliCommand::WorkspaceLatestUnread => "workspace.latest_unread",
        CliCommand::WorkspaceClose { index } => {
            b.opt_uint("index", match index { Some(n) => Some(*n as u64), None => None });
            "workspace.close"
        },
        CliCommand::SetStatus { key, value, icon, color } => {
            b.text("key", key.as_str());
            b.text("value", value.as_str());
            b.text_or_null("icon", icon);
            b.text_or_null("color", color);
            "workspace.set_status"
        },
        CliCommand::ReportGitBranch { workspace, surface, branch, dirty } => {
            b.opt_text("workspace", workspace);
            b.opt_text("surface", surface);
            b.text("branch", branch.as_str());
            b.boolean("is_dirty", *dirty);
            "workspace.report_git_branch"
        },
        CliCommand::ClearGitBranch { workspace, surface } => {
            b.opt_text("workspace", workspace);
            b.opt_text("surface", surface);
            "workspace.clear_git_branch"
        },
        CliCommand::ReportPwd { workspace, surface, path } => {
            b.opt_text("workspace", workspace);
            b.opt_text("surface", surface);
            b.text("path", path.as_str());
            "workspace.report_pwd"
        },
        CliCommand::ClearPwd { workspace, surface } => {
            b.opt_text("workspace", workspace);
            b.opt_text("surface", surface);
            "workspace.clear_pwd"
        },
        CliCommand::ReportShellState { workspace, surface, state, label } => {
            b.opt_text("workspace", workspace);
            b.opt_text("surface", surface);
            b.text("state", state.as_str());
            b.opt_text("label", label);
            "workspace.report_shell_state"
        },
        CliCommand::ClearShellState { workspace, surface } => {
            b.opt_text("workspace", workspace);
            b.opt_text("surface", surface);
            "workspace.clear_shell_state"
        },
        CliCommand::ReportPorts { workspace, surface, ports } => {
            b.opt_text("workspace", workspace);
            b.opt_text("surface", surface);
            b.ports("ports", ports);
            "workspace.report_ports"
        },
        CliCommand::ClearPorts { workspace, surface } => {
            b.opt_text("workspace", workspace);
            b.opt_text("surface", surface);
            "workspace.clear_ports"
        },
        CliCommand::ReportTty { workspace, surface, tty_name } => {
            b.opt_text("workspace", workspace);
            b.opt_text("surface", surface);
            b.text("tty_name", tty_name.as_str());
            "workspace.report_tty"
        },
        CliCommand::ClearTty { workspace, surface } => {
            b.opt_text("workspace", workspace);
            b.opt_text("surface", surface);
            "workspace.clear_tty"
        },
        CliCommand::ReportPr { workspace, surface, number, url, label, title, state, branch, checks } => {
            b.opt_text("workspace", workspace);
            b.opt_text("surface", surface);
            b.uint("number", *number as u64);
            b.opt_text("url", url);
            b.text("label", label.as_str());
            b.opt_text("title", title);
            b.text("state", state.as_str());
            b.opt_text("branch", branch);
            b.opt_text("checks", checks);
            "workspace.report_pr"
        },
        CliCommand::ReportReview { workspace, surface, number, url, label, title, state, checks } => {
            b.opt_text("workspace", workspace);
            b.opt_text("surface", surface);
            b.opt_uint("number", match number { Some(n) => Some(*n as u64), None => None });
            b.opt_text("url", url);
            b.text("label", label.as_str());
            b.opt_text("title", title);
            b.text("state", state.as_str());
            b.opt_text("checks", checks);
            "workspace.report_review"
        },
        CliCommand::ClearPr { workspace, surface } => {
            b.opt_text("workspace", workspace);
            b.opt_text("surface", surface);
            "workspace.clear_pr"
        },
        CliCommand::ReportMeta { workspace, surface, key, value, label, icon, color, url, priority, format } => {
            b.opt_text("workspace", workspace);
            b.opt_text("surface", surface);
            b.text("key", key.as_str());
            b.text("value", value.as_str());
            b.opt_text("label", label);
            b.opt_text("icon", icon);
            b.opt_text("color", color);
            b.opt_text("url", url);
            b.opt_int("priority", *priority);
            b.opt_text("format", format);
            "workspace.report_meta"
        },
        CliCommand::ClearMeta { workspace, surface, key } => {
            b.opt_text("workspace", workspace);
            b.opt_text("surface", surface);
            b.text("key", key.as_str());
            "workspace.clear_meta"
        },
        CliCommand::ReportMetaBlock { workspace, surface, key, content, title, style, priority, format } => {
            b.opt_text("workspace", workspace);
            b.opt_text("surface", surface);
            b.text("key", key.as_str());
            b.text("content", content.as_str());
            b.opt_text("title", title);
            b.opt_text("style", style);
            b.opt_int("priority", *priority);
            b.opt_text("format", format);
            "workspace.report_meta_block"
        },
        CliCommand::ClearMetaBlock { workspace, surface, key } => {
            b.opt_text("workspace", workspace);
            b.opt_text("surface", surface);
            b.text("key", key.as_str());
            "workspace.clear_meta_block"
        },
        CliCommand::SurfaceSendText { text, surface } => {
            let input = unescape_text(text.as_str());
            b.text("input", input.as_str());
            b.opt_text("surface", surface);
            "surface.send_input"
        },
        CliCommand::SurfaceFocus { surface } => {
            b.text("surface", surface.as_str());
            "surface.focus"
        },
        CliCommand::SurfaceClose { surface } => {
            b.text("surface", surface.as_str());
            "surface.close"
        },
        CliCommand::SurfaceNext { pane } => {
            b.opt_text("pane", pane);
            "surface.next"
        },
        CliCommand::SurfacePrevious { pane } => {
            b.opt_text("pane", pane);
            "surface.previous"
        },
        CliCommand::SurfaceMoveForward { surface } => {
            b.opt_text("surface", surface);
            "surface.move_forward"
        },
        CliCommand::SurfaceMoveBackward { surface } => {
            b.opt_text("surface", surface);
            "surface.move_backward"
        },
        CliCommand::PaneNew { orientation } => {
            b.text("orientation", orientation.as_str());
            "pane.new"
        },
        CliCommand::PaneFocus { pane } => {
            b.text("pane", pane.as_str());
            "pane.focus"
        },
        CliCommand::PaneClose { pane } => {
            b.text("pane", pane.as_str());
            "pane.close"
        },
        CliCommand::PaneResize { pane, direction, step } => {
            b.text("pane", pane.as_str());
            b.text("direction", direction.as_str());
            b.opt_fraction("step", *step);
            "pane.resize"
        },
        CliCommand::Notify { title, body, workspace, surface, no_desktop } => {
            b.text("title", title.as_str());
            b.text("body", body.as_str());
            b.opt_text("workspace", workspace);
            b.opt_text("surface", surface);
            b.boolean("send_desktop", !*no_desktop);
            "notification.create"
        },
    };
    (method, b.finish())
}
/// What the client shows of a reply.
#[derive(Debug)]
pub enum Shown {
    /// These lines on standard output.
    Lines(Vec<String>),
    /// The reply's result, printed as indented JSON on standard output.
    ResultJson,
    /// This line on standard error.
    Error(String),
    /// Nothing.
    Nothing,
}

/// The mathematical form of what the client shows.
pub enum ShownView {
    Lines(Seq<Seq<char>>),
    ResultJson,
    Error(Seq<char>),
    Nothing,
}

impl View for Shown {
    type V = ShownView;

    open spec fn view(&self) -> ShownView {
        match self {
            Shown::Lines(ls) => ShownView::Lines(ls.deep_view()),
            Shown::ResultJson => ShownView::ResultJson,
            Shown::Error(e) => ShownView::Error(e@),
            Shown::Nothing => ShownView::Nothing,
        }
    }
}

/// The line of a workspace in the list: `*` where it is selected (as its
/// `selected` member says, else its `is_selected` member), its index, its
/// title, and its panel count; `0`, `?` and unselected stand where those
/// are missing.
pub open spec fn workspace_line(ws: JsonValue) -> Seq<char> {
    let index = match ws.field("index"@) {
        Some(v) => match v.unsigned() {
            Some(n) => n,
            None => 0,
        },
        None => 0,
    };
    let title = match ws.field("title"@) {
        Some(v) => match v.text() {
            Some(t) => t,
            None => "?"@,
        },
        None => "?"@,
    };
    let selected_member = match ws.field("selected"@) {
        Some(v) => Some(v),
        None => ws.field("is_selected"@),
    };
    let selected = match selected_member {
        Some(v) => v.boolean() == Some(true),
        None => false,
    };
    let panels = match ws.field("panel_count"@) {
        Some(v) => match v.unsigned() {
            Some(n) => n,
            None => 0,
        },
        None => 0,
    };
    (if selected { "*"@ } else { " "@ }) + decimal(index as nat) + " "@ + title + " ("@ + decimal(panels as nat) + " panels)"@
}

/// The items of a JSON array, where the value is one.
pub open spec fn array_items(v: Option<JsonValue>) -> Option<Seq<JsonValue>> {
    match v {
        Some(JsonValue::Array(items)) => Some(items@),
        _ => None,
    }
}

/// The capability lines: each method name that is a string, indented.
pub open spec fn method_lines(items: Seq<JsonValue>) -> Seq<Seq<char>>
    decreases items.len(),
{
    if items.len() == 0 {
        Seq::empty()
    } else {
        method_lines(items.drop_last()) + match items.last().text() {
            Some(t) => seq!["  "@ + t],
            None => Seq::empty(),
        }
    }
}

/// What the client shows of the reply to a method: for a failure, the
/// error's code (`unknown` where missing) and message on standard error,
/// where the reply has an error; for `system.ping`, `pong`; for
/// `workspace.list`, a line per workspace; for `system.capabilities`, the
/// method names; else the result as JSON, or `OK` where there is none.
pub open spec fn shown(method: Seq<char>, response: JsonValue) -> ShownView {
    let ok = match response.field("ok"@) {
        Some(v) => v.boolean() == Some(true),
        None => false,
    };
    if !ok {
        match response.field("error"@) {
            Some(e) => ShownView::Error(
                "Error ["@ + match e.text_field("code"@) {
                    Some(c) => c,
                    None => "unknown"@,
                } + "]: "@ + match e.text_field("message"@) {
                    Some(m) => m,
                    None => Seq::empty(),
                },
            ),
            None => ShownView::Nothing,
        }
    } else {
        let result = response.field("result"@);
        if method == "system.ping"@ {
            ShownView::Lines(seq!["pong"@])
        } else if method == "workspace.list"@ {
            ShownView::Lines(
                match array_items(match result {
                    Some(r) => r.field("workspaces"@),
                    None => None,
                }) {
                    Some(items) => items.map_values(|w: JsonValue| workspace_line(w)),
                    None => Seq::empty(),
                },
            )
        } else if method == "system.capabilities"@ {
            ShownView::Lines(
                match array_items(match result {
                    Some(r) => r.field("methods"@),
                    None => None,
                }) {
                    Some(items) => method_lines(items),
                    None => Seq::empty(),
                },
            )
        } else if result is Some {
            ShownView::ResultJson
        } else {
            ShownView::Lines(seq!["OK"@])
        }
    }
}

/// The text of the member, or the fallback.
fn member_text_or(v: &JsonValue, key: &str, fallback: &str) -> (t: String)
    ensures
        t@ == match v.text_field(key@) {
            Some(x) => x,
            None => fallback@,
        },
{
    match v.get(key) {
        Some(x) => match x.as_str() {
            Some(s) => s.to_owned(),
            None => fallback.to_owned(),
        },
        None => fallback.to_owned(),
    }
}

/// The number of the member, or zero.
fn member_count(v: &JsonValue, key: &str) -> (n: u64)
    ensures
        n == match v.field(key@) {
            Some(x) => match x.unsigned() {
                Some(m) => m,
                None => 0,
            },
            None => 0,
        },
{
    match v.get(key) {
        Some(x) => match x.as_u64() {
            Some(m) => m,
            None => 0,
        },
        None => 0,
    }
}

/// The line of a workspace in the list (see `workspace_line`).
fn format_workspace_line(ws: &JsonValue) -> (line: String)
    ensures
        line@ == workspace_line(*ws),
{
    let index = member_count(ws, "index");
    let title = member_text_or(ws, "title", "?");
    let selected_member = match ws.get("selected") {
        Some(v) => Some(v),
        None => ws.get("is_selected"),
    };
    let selected = match selected_member {
        Some(v) => match v.as_bool() {
            Some(b) => b,
            None => false,
        },
        None => false,
    };
    let panels = member_count(ws, "panel_count");
    let mut out: Vec<char> = Vec::new();
    push_text(&mut out, if selected { "*" } else { " " });
    push_decimal(&mut out, index);
    push_text(&mut out, " ");
    push_text(&mut out, title.as_str());
    push_text(&mut out, " (");
    push_decimal(&mut out, panels);
    push_text(&mut out, " panels)");
    proof {
        assert(out@ =~= workspace_line(*ws));
    }
    string_from_chars(&out)
}

/// What the client shows of the reply to a method (see `shown`).
pub fn format_response(method: &str, response: &JsonValue) -> (s: Shown)
    ensures
        s@ == shown(method@, *response),
{
    let ok = match response.get("ok") {
        Some(v) => match v.as_bool() {
            Some(b) => b,
            None => false,
        },
        None => false,
    };
    if !ok {
        return match response.get("error") {
            Some(e) => {
                let code = member_text_or(e, "code", "unknown");
                let message = member_text_or(e, "message", "");
                let mut out: Vec<char> = Vec::new();
                push_text(&mut out, "Error [");
                push_text(&mut out, code.as_str());
                push_text(&mut out, "]: ");
                push_text(&mut out, message.as_str());
                proof {
                    reveal_strlit("");
                    assert(out@ =~= shown(method@, *response)->Error_0);
                }
                Shown::Error(string_from_chars(&out))
            },
            None => Shown::Nothing,
        };
    }
    let result = response.get("result");
    if str_eq(method, "system.ping") {
        let mut lines: Vec<String> = Vec::new();
        lines.push("pong".to_owned());
        proof {
            assert(lines.deep_view() =~= seq!["pong"@]);
        }
        Shown::Lines(lines)
    } else if str_eq(method, "workspace.list") {
        let items = match result {
            Some(r) => r.get("workspaces"),
            None => None,
        };
        let mut lines: Vec<String> = Vec::new();
        if let Some(JsonValue::Array(ws)) = items {
            let mut i: usize = 0;
            while i < ws.len()
                invariant
                    i <= ws@.len(),
                    lines@.len() == i,
                    forall|j: int| 0 <= j < i ==> (#[trigger] lines@[j])@ == workspace_line(ws@[j]),
                decreases ws.len() - i,
            {
                lines.push(format_workspace_line(&ws[i]));
                i = i + 1;
            }
            proof {
                assert(lines.deep_view() =~= ws@.map_values(|w: JsonValue| workspace_line(w)));
            }
        } else {
            proof {
                assert(lines.deep_view() =~= Seq::<Seq<char>>::empty());
            }
        }
        Shown::Lines(lines)
    } else if str_eq(method, "system.capabilities") {
        let items = match result {
            Some(r) => r.get("methods"),
            None => None,
        };
        let mut lines: Vec<String> = Vec::new();
        if let Some(JsonValue::Array(ms)) = items {
            let mut i: usize = 0;
            while i < ms.len()
                invariant
                    i <= ms@.len(),
                    lines.deep_view() == method_lines(ms@.take(i as int)),
                decreases ms.len() - i,
            {
                proof {
                    assert(ms@.take(i + 1).drop_last() =~= ms@.take(i as int));
                }
                if let Some(t) = ms[i].as_str() {
                    let mut out = chars_of("  ");
                    push_text(&mut out, t);
                    lines.push(string_from_chars(&out));
                    proof {
                        assert(lines.deep_view() =~= method_lines(ms@.take(i + 1)));
                    }
                } else {
                    proof {
                        assert(lines.deep_view() =~= method_lines(ms@.take(i + 1)));
                    }
                }
                i = i + 1;
            }
            proof {
                assert(ms@.take(ms@.len() as int) =~= ms@);
            }
        } else {
            proof {
                assert(lines.deep_view() =~= Seq::<Seq<char>>::empty());
            }
        }
        Shown::Lines(lines)
    } else if result.is_some() {
        Shown::ResultJson
    } else {
        let mut lines: Vec<String> = Vec::new();
        lines.push("OK".to_owned());
        proof {
            assert(lines.deep_view() =~= seq!["OK"@]);
        }
        Shown::Lines(lines)
    }
}

/// Whether the client exits with failure: the reply does not say it
/// succeeded.
pub fn reply_failed(response: &JsonValue) -> (failed: bool)
    ensures
        failed == !(match response.field("ok"@) {
            Some(v) => v.boolean() == Some(true),
            None => false,
        }),
{
    match response.get("ok") {
        Some(v) => match v.as_bool() {
            Some(b) => !b,
            None => true,
        },
        None => true,
    }
}

/// Where the client looks for the socket: `cmux.sock` in the runtime
/// directory where that is an absolute path to a directory that the user
/// owns and that only the user may enter; else `/tmp/cmux-<uid>.sock`.
pub open spec fn socket_path(runtime_dir: Option<Seq<char>>, private_dir: bool, uid: u32) -> Seq<char> {
    match runtime_dir {
        Some(d) => if d.len() > 0 && d[0] == '/' && private_dir {
            d + "/cmux.sock"@
        } else {
            "/tmp/cmux-"@ + decimal(uid as nat) + ".sock"@
        },
        None => "/tmp/cmux-"@ + decimal(uid as nat) + ".sock"@,
    }
}

/// Where the client looks for the socket, given `$XDG_RUNTIME_DIR` where
/// set, whether it is a directory owned by the user with mode `0700`, and
/// the user's id (see `socket_path`).
pub fn default_socket_path(runtime_dir: Option<&str>, private_dir: bool, uid: u32) -> (p: String)
    ensures
        p@ == socket_path(
            match runtime_dir {
                Some(d) => Some(d@),
                None => None,
            },
            private_dir,
            uid,
        ),
{
    if let Some(d) = runtime_dir {
        if d.unicode_len() > 0 && d.get_char(0) == '/' && private_dir {
            let mut out = chars_of(d);
            push_text(&mut out, "/cmux.sock");
            return string_from_chars(&out);
        }
    }
    let mut out = chars_of("/tmp/cmux-");
    push_decimal(&mut out, uid as u64);
    push_text(&mut out, ".sock");
    string_from_chars(&out)
}

} // verus!

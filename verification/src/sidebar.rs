//! What the sidebar shows of a workspace: its title line, its summary line
//! of status and the metadata that matters most, its notification line,
//! and paths shortened against the home directory.

use vstd::prelude::*;
use vstd::string::StrSliceExecFns;

use crate::panel::{ShellActivityState, MetadataBlock, MetadataBlockView, PullRequestChecks, PullRequestMetadata, PullRequestState, PullRequestView};
use crate::protocol::{pr_checks_name, pr_state_name};
use crate::workspace::{status_label, Workspace};
use crate::text::{chars_of, string_from_chars, trim, trim_chars, truncate_chars, truncate_str};

verus! {

broadcast use vstd::string::group_string_axioms;

/// The decimal digit of a value below ten.
pub open spec fn digit(d: nat) -> char {
    (d + 48) as char
}

/// The decimal notation of a number, without leading zeros.
pub open spec fn decimal(n: nat) -> Seq<char>
    decreases n,
{
    if n < 10 {
        seq![digit(n)]
    } else {
        decimal(n / 10).push(digit(n % 10))
    }
}

/// The number a string of decimal digits denotes.
pub open spec fn digits_value(s: Seq<char>) -> int
    decreases s.len(),
{
    if s.len() == 0 {
        0
    } else {
        digits_value(s.drop_last()) * 10 + (s.last() as int - 48)
    }
}

/// The decimal notation of a number is made of the digits `0` to `9`,
/// starts with `0` only for zero itself, and denotes the number.
pub proof fn lemma_decimal_law(n: nat)
    ensures
        decimal(n).len() > 0,
        forall|i: int| 0 <= i < decimal(n).len() ==> '0' <= #[trigger] decimal(n)[i] <= '9',
        decimal(n)[0] == '0' ==> n == 0,
        digits_value(decimal(n)) == n,
    decreases n,
{
    if n < 10 {
        assert(decimal(n).drop_last() =~= Seq::<char>::empty());
        assert(digit(n) as int == n + 48);
        assert(digits_value(decimal(n)) == digits_value(Seq::<char>::empty()) * 10 + (digit(n) as int - 48));
    }
    if n >= 10 {
        let q = n / 10;
        let r = n % 10;
        lemma_decimal_law(q);
        assert(q * 10 + r == n) by (nonlinear_arith)
            requires
                q == n / 10,
                r == n % 10,
        ;
        assert(q > 0);
        let d = decimal(n);
        assert(d.drop_last() == decimal(q));
        assert(digit(r) as int == r + 48);
        assert(d.last() == digit(r));
        assert(digits_value(d) == digits_value(decimal(q)) * 10 + (digit(r) as int - 48));
        assert forall|i: int| 0 <= i < d.len() implies '0' <= #[trigger] d[i] <= '9' by {
            if i < d.len() - 1 {
                assert(d[i] == decimal(q)[i]);
            }
        }
        assert(d[0] == decimal(q)[0]);
    }
}

/// Append the decimal notation of the number.
pub fn push_decimal(out: &mut Vec<char>, n: u64)
    ensures
        final(out)@ == old(out)@ + decimal(n as nat),
    decreases n,
{
    if n >= 10 {
        push_decimal(out, n / 10);
    }
    let d: u8 = (n % 10) as u8;
    let c: char = (d + 48u8) as char;
    proof {
        assert(c == digit((n % 10) as nat));
    }
    out.push(c);
    proof {
        if n >= 10 {
            assert(final(out)@ =~= old(out)@ + decimal(n as nat));
        } else {
            assert(final(out)@ =~= old(out)@ + decimal(n as nat));
        }
    }
}

/// Append the characters of the text.
pub fn push_text(out: &mut Vec<char>, s: &str)
    ensures
        final(out)@ == old(out)@ + s@,
{
    let mut tail = chars_of(s);
    out.append(&mut tail);
}

/// The sidebar's form of a pull request: label, ` #number` where known,
/// state, ` checks` where known and ` branch` where known.
pub open spec fn pull_request_text(pr: PullRequestView) -> Seq<char> {
    pr.label + match pr.number {
        Some(n) => " #"@ + decimal(n as nat),
        None => Seq::empty(),
    } + " "@ + pr_state_name(pr.state) + match pr.checks {
        Some(c) => " "@ + pr_checks_name(c),
        None => Seq::empty(),
    } + match pr.branch {
        Some(b) => " "@ + b,
        None => Seq::empty(),
    }
}

/// The sidebar's form of a pull request (see `pull_request_text`).
pub fn format_pull_request(pr: &PullRequestMetadata) -> (t: String)
    ensures
        t@ == pull_request_text(pr@),
{
    let mut out = chars_of(pr.label.as_str());
    if let Some(n) = pr.number {
        push_text(&mut out, " #");
        push_decimal(&mut out, n as u64);
    }
    push_text(&mut out, " ");
    match pr.state {
        PullRequestState::Open => push_text(&mut out, "open"),
        PullRequestState::Merged => push_text(&mut out, "merged"),
        PullRequestState::Closed => push_text(&mut out, "closed"),
    }
    match pr.checks {
        Some(PullRequestChecks::Pass) => push_text(&mut out, " pass"),
        Some(PullRequestChecks::Fail) => push_text(&mut out, " fail"),
        Some(PullRequestChecks::Pending) => push_text(&mut out, " pending"),
        None => {},
    }
    if let Some(b) = &pr.branch {
        push_text(&mut out, " ");
        push_text(&mut out, b.as_str());
    }
    proof {
        reveal_strlit(" ");
        reveal_strlit(" pass");
        reveal_strlit(" fail");
        reveal_strlit(" pending");
        reveal_strlit("pass");
        reveal_strlit("fail");
        reveal_strlit("pending");
        assert(out@ =~= pull_request_text(pr@));
    }
    string_from_chars(&out)
}

/// The first line of `s` (lines end at `\n`) that is not blank once
/// trimmed, trimmed; `cur` is the part of a line already read. Empty where
/// every line is blank.
pub open spec fn first_line_from(s: Seq<char>, cur: Seq<char>) -> Seq<char>
    decreases s.len(),
{
    if s.len() == 0 {
        trim_chars(cur)
    } else if s[0] == '\n' {
        if trim_chars(cur).len() > 0 {
            trim_chars(cur)
        } else {
            first_line_from(s.drop_first(), Seq::empty())
        }
    } else {
        first_line_from(s.drop_first(), cur.push(s[0]))
    }
}

/// The first line of `s` that is not blank, trimmed; empty where there is
/// none.
pub open spec fn first_nonblank_line(s: Seq<char>) -> Seq<char> {
    first_line_from(s, Seq::empty())
}

/// The longest summary of a block's first line, in bytes.
pub const BLOCK_SUMMARY_MAX_BYTES: usize = 80usize;

/// The sidebar's form of a metadata block: its title (its key where it
/// has none), then `: ` and its first non-blank line cut to 80 bytes,
/// where it has one.
pub open spec fn block_summary_text(block: MetadataBlockView) -> Seq<char> {
    let title = match block.title {
        Some(t) => t,
        None => block.key,
    };
    let line = first_nonblank_line(block.content);
    if line.len() == 0 {
        title
    } else {
        title + ": "@ + truncate_chars(line, BLOCK_SUMMARY_MAX_BYTES as nat)
    }
}

/// The first line of the text that is not blank, trimmed (see
/// `first_nonblank_line`).
fn first_line(content: &str) -> (line: String)
    ensures
        line@ == first_nonblank_line(content@),
{
    let chars = chars_of(content);
    let n = chars.len();
    let mut cur: Vec<char> = Vec::new();
    let mut i: usize = 0;
    proof {
        assert(chars@.subrange(0, n as int) =~= chars@);
    }
    while i < n
        invariant
            n == chars@.len(),
            chars@ == content@,
            i <= n,
            first_nonblank_line(content@) == first_line_from(chars@.subrange(i as int, n as int), cur@),
        decreases n - i,
    {
        proof {
            assert(chars@.subrange(i as int, n as int).drop_first() =~= chars@.subrange(i + 1, n as int));
            assert(chars@.subrange(i as int, n as int)[0] == chars@[i as int]);
        }
        if chars[i] == '\n' {
            let text = string_from_chars(&cur);
            let t = trim(text.as_str());
            if t.unicode_len() > 0 {
                return t.to_owned();
            }
            cur = Vec::new();
        } else {
            cur.push(chars[i]);
        }
        i = i + 1;
    }
    proof {
        assert(chars@.subrange(n as int, n as int).len() == 0);
    }
    let text = string_from_chars(&cur);
    trim(text.as_str()).to_owned()
}

/// The sidebar's form of a metadata block (see `block_summary_text`).
pub fn format_metadata_block_summary(block: &MetadataBlock) -> (t: String)
    ensures
        t@ == block_summary_text(block@),
{
    let title: &str = match &block.title {
        Some(t) => t.as_str(),
        None => block.key.as_str(),
    };
    let line = first_line(block.content.as_str());
    if line.unicode_len() == 0 {
        return title.to_owned();
    }
    let mut out = chars_of(title);
    push_text(&mut out, ": ");
    push_text(&mut out, truncate_str(line.as_str(), BLOCK_SUMMARY_MAX_BYTES));
    proof {
        assert(out@ =~= block_summary_text(block@));
    }
    string_from_chars(&out)
}

/// What `std::path::Path::strip_prefix` gives for the path and the base,
/// displayed: the rest of the path below the base, where the base's
/// components begin the path's. Components are compared whole, so
/// `/home/ab` is not below `/home/a`.
pub uninterp spec fn stripped_path(path: Seq<char>, base: Seq<char>) -> Option<Seq<char>>;

/// What `std::path::Path::file_name` gives for the path: its last
/// component, where that is a name (not the root, `.` or `..`).
pub uninterp spec fn path_file_name(path: Seq<char>) -> Option<Seq<char>>;

/// The rest of the path below the base, where the base begins it.
///
/// Calls `Path::new(path).strip_prefix(base)`, which succeeds where the
/// base's components are the first components of the path, and displays
/// the rest; the result is named `stripped_path` and not restated here.
#[verifier::external_body]
fn strip_path_prefix(path: &str, base: &str) -> (rest: Option<String>)
    ensures
        rest.deep_view() == stripped_path(path@, base@),
{
    match std::path::Path::new(path).strip_prefix(base) {
        Ok(p) => Some(p.to_string_lossy().into_owned()),
        Err(_) => None,
    }
}

/// The last component of the path, where it is a name.
///
/// Calls `Path::new(path).file_name()`; the result is named
/// `path_file_name` and not restated here.
#[verifier::external_body]
fn file_name_of(path: &str) -> (name: Option<String>)
    ensures
        name.deep_view() == path_file_name(path@),
{
    match std::path::Path::new(path).file_name() {
        Some(n) => Some(n.to_string_lossy().into_owned()),
        None => None,
    }
}

/// The compact form of a path, given what stripping the home directory
/// and taking the last component gave: `~` for an empty path; `~` or
/// `~/rest` where the home directory was stripped; else the last
/// component where there is one; else the path itself.
pub open spec fn compacted(path: Seq<char>, stripped: Option<Seq<char>>, file_name: Option<Seq<char>>) -> Seq<char> {
    if path.len() == 0 {
        "~"@
    } else {
        match stripped {
            Some(rest) => if rest.len() == 0 {
                "~"@
            } else {
                "~/"@ + rest
            },
            None => match file_name {
                Some(n) => n,
                None => path,
            },
        }
    }
}

/// The compact form of a path, given what stripping the home directory
/// and taking the last component gave (see `compacted`).
pub fn compact_path_with(path: &str, stripped: Option<&str>, file_name: Option<&str>) -> (t: String)
    ensures
        t@ == compacted(
            path@,
            match stripped {
                Some(r) => Some(r@),
                None => None,
            },
            match file_name {
                Some(n) => Some(n@),
                None => None,
            },
        ),
{
    if path.unicode_len() == 0 {
        return "~".to_owned();
    }
    match stripped {
        Some(rest) => if rest.unicode_len() == 0 {
            "~".to_owned()
        } else {
            let mut out = chars_of("~/");
            push_text(&mut out, rest);
            string_from_chars(&out)
        },
        None => match file_name {
            Some(n) => n.to_owned(),
            None => path.to_owned(),
        },
    }
}

/// The compact form of a path shown in the sidebar: below the home
/// directory (unless that is `/`) as `~/...`, else its last component.
pub open spec fn compact_path_text(path: Seq<char>, home: Option<Seq<char>>) -> Seq<char> {
    let stripped = match home {
        Some(h) => if h != "/"@ {
            stripped_path(path, h)
        } else {
            None
        },
        None => None,
    };
    compacted(path, stripped, path_file_name(path))
}

/// The compact form of a path, given the home directory where it is known
/// (see `compact_path_text`).
pub fn compact_path(path: &str, home: Option<&str>) -> (t: String)
    ensures
        t@ == compact_path_text(path@, opt_str_view(home)),
{
    let stripped: Option<String> = match home {
        Some(h) => {
            if h.unicode_len() == 1 && h.get_char(0) == '/' {
                proof {
                    reveal_strlit("/");
                    assert(h@ =~= "/"@);
                }
                None
            } else {
                proof {
                    reveal_strlit("/");
                    assert(h@ != "/"@);
                }
                strip_path_prefix(path, h)
            }
        },
        None => None,
    };
    let name = file_name_of(path);
    let s: Option<&str> = match &stripped {
        Some(r) => Some(r.as_str()),
        None => None,
    };
    let n: Option<&str> = match &name {
        Some(x) => Some(x.as_str()),
        None => None,
    };
    compact_path_with(path, s, n)
}

/// The text of an optional string slice.
pub open spec fn opt_str_view(s: Option<&str>) -> Option<Seq<char>> {
    match s {
        Some(t) => Some(t@),
        None => None,
    }
}

/// The port numbers joined by `, `.
pub open spec fn joined_ports(ps: Seq<u16>) -> Seq<char>
    decreases ps.len(),
{
    if ps.len() == 0 {
        Seq::empty()
    } else if ps.len() == 1 {
        decimal(ps[0] as nat)
    } else {
        joined_ports(ps.drop_last()) + ", "@ + decimal(ps.last() as nat)
    }
}

/// The most ports the summary names.
pub const SUMMARY_PORTS: usize = 3usize;

/// `ports` and the first three ports, then ` +n` for the `n` more.
pub open spec fn ports_summary(ps: Seq<u16>) -> Seq<char> {
    "ports "@ + joined_ports(ps.take(if ps.len() < 3 { ps.len() as int } else { 3 })) + if ps.len() > 3 {
        " +"@ + decimal((ps.len() - 3) as nat)
    } else {
        Seq::empty()
    }
}

/// The summary of a port list (see `ports_summary`).
fn format_ports(ports: &Vec<u16>) -> (t: String)
    requires
        ports@.len() > 0,
    ensures
        t@ == ports_summary(ports@),
{
    let mut out = chars_of("ports ");
    let shown: usize = if ports.len() < SUMMARY_PORTS { ports.len() } else { SUMMARY_PORTS };
    let ghost start = out@;
    let mut i: usize = 0;
    while i < shown
        invariant
            shown <= ports@.len(),
            shown <= 3,
            i <= shown,
            out@ == start + joined_ports(ports@.take(i as int)),
        decreases shown - i,
    {
        if i > 0 {
            push_text(&mut out, ", ");
        }
        push_decimal(&mut out, ports[i] as u64);
        proof {
            assert(ports@.take(i + 1).drop_last() =~= ports@.take(i as int));
            reveal_with_fuel(joined_ports, 2);
            if i == 0 {
                assert(joined_ports(ports@.take(0)) =~= Seq::<char>::empty());
            }
            assert(out@ =~= start + joined_ports(ports@.take(i + 1)));
        }
        i = i + 1;
    }
    if ports.len() > SUMMARY_PORTS {
        push_text(&mut out, " +");
        push_decimal(&mut out, (ports.len() - SUMMARY_PORTS) as u64);
    }
    proof {
        assert(out@ =~= ports_summary(ports@));
    }
    string_from_chars(&out)
}

/// The metadata that matters most of a workspace, in the sidebar's form:
/// its pull request; else its running command; else its git branch (` *`
/// where dirty); else its listening ports; else its first metadata item as
/// `label: value`; else its first metadata block; else its directory,
/// compacted; else its terminal; else nothing.
pub open spec fn priority_summary(ws: Workspace, home: Option<Seq<char>>) -> Option<Seq<char>> {
    if ws.pr_metadata is Some {
        Some(pull_request_text(ws.pr_metadata->0@))
    } else if ws.shell_state is Some && ws.shell_state->0.state == ShellActivityState::Running {
        Some(match ws.shell_state->0@.label {
            Some(l) => "running "@ + l,
            None => "running"@,
        })
    } else if ws.git_branch is Some {
        Some("git "@ + ws.git_branch->0@.branch + if ws.git_branch->0.is_dirty {
            " *"@
        } else {
            Seq::empty()
        })
    } else if ws.listening_ports@.len() > 0 {
        Some(ports_summary(ws.listening_ports@))
    } else if ws.metadata_items@.len() > 0 {
        Some(ws.metadata_items@[0]@.label + ": "@ + ws.metadata_items@[0]@.value)
    } else if ws.metadata_blocks@.len() > 0 {
        Some(block_summary_text(ws.metadata_blocks@[0]@))
    } else if ws.current_directory@.len() > 0 {
        Some(compact_path_text(ws.current_directory@, home))
    } else if ws.tty_name is Some {
        Some("tty "@ + ws.tty_name->0@)
    } else {
        None
    }
}

/// The metadata that matters most of a workspace, given the home directory
/// where it is known (see `priority_summary`).
pub fn workspace_priority_summary(workspace: &Workspace, home: Option<&str>) -> (t: Option<String>)
    ensures
        t.deep_view() == priority_summary(*workspace, opt_str_view(home)),
{
    if let Some(pr) = &workspace.pr_metadata {
        return Some(format_pull_request(pr));
    }
    if let Some(shell) = &workspace.shell_state {
        if shell.state == ShellActivityState::Running {
            return Some(match &shell.label {
                Some(l) => {
                    let mut out = chars_of("running ");
                    push_text(&mut out, l.as_str());
                    string_from_chars(&out)
                },
                None => "running".to_owned(),
            });
        }
    }
    if let Some(g) = &workspace.git_branch {
        let mut out = chars_of("git ");
        push_text(&mut out, g.branch.as_str());
        if g.is_dirty {
            push_text(&mut out, " *");
        }
        proof {
            assert(out@ =~= "git "@ + g@.branch + if g.is_dirty { " *"@ } else { Seq::empty() });
        }
        return Some(string_from_chars(&out));
    }
    if workspace.listening_ports.len() > 0 {
        return Some(format_ports(&workspace.listening_ports));
    }
    if workspace.metadata_items.len() > 0 {
        let item = &workspace.metadata_items[0];
        let mut out = chars_of(item.label.as_str());
        push_text(&mut out, ": ");
        push_text(&mut out, item.value.as_str());
        return Some(string_from_chars(&out));
    }
    if workspace.metadata_blocks.len() > 0 {
        return Some(format_metadata_block_summary(&workspace.metadata_blocks[0]));
    }
    if workspace.current_directory.unicode_len() > 0 {
        return Some(compact_path(workspace.current_directory.as_str(), home));
    }
    if let Some(t) = &workspace.tty_name {
        let mut out = chars_of("tty ");
        push_text(&mut out, t.as_str());
        return Some(string_from_chars(&out));
    }
    None
}

/// The sidebar's summary line of a workspace: its status label and its
/// most important metadata (see `priority_summary`), those present joined
/// by ` | `.
pub open spec fn meta_text(ws: Workspace, home: Option<Seq<char>>) -> Seq<char> {
    match (status_label(ws.status_entries.deep_view()), priority_summary(ws, home)) {
        (Some(a), Some(b)) => a + " | "@ + b,
        (Some(a), None) => a,
        (None, Some(b)) => b,
        (None, None) => Seq::empty(),
    }
}

/// The sidebar's summary line of a workspace (see `meta_text`).
pub fn workspace_meta_text(workspace: &Workspace, home: Option<&str>) -> (t: String)
    ensures
        t@ == meta_text(*workspace, opt_str_view(home)),
{
    let label = workspace.sidebar_status_label();
    let summary = workspace_priority_summary(workspace, home);
    match (label, summary) {
        (Some(a), Some(b)) => {
            let mut out = chars_of(a);
            push_text(&mut out, " | ");
            push_text(&mut out, b.as_str());
            string_from_chars(&out)
        },
        (Some(a), None) => a.to_owned(),
        (None, Some(b)) => b,
        (None, None) => String::new(),
    }
}

/// What the sidebar row of a workspace shows.
#[derive(Debug)]
pub struct WorkspaceRow {
    /// The workspace's position in the list, counted from one.
    pub position: String,
    pub title: String,
    /// Whether the row carries the pin tag.
    pub pinned: bool,
    /// The unread count, where there are unread notifications.
    pub unread_badge: Option<String>,
    /// The label of the row menu's pin action.
    pub pin_action: String,
    /// The summary line (see `meta_text`).
    pub meta: String,
    /// The notification line: the latest notification, else the compact
    /// current directory.
    pub notification: String,
    /// Whether the notification line is shown as unread.
    pub notification_unread: bool,
}

/// What the sidebar row of the workspace at `index` (from zero) shows,
/// given the home directory where it is known.
pub fn workspace_row(workspace: &Workspace, index: usize, home: Option<&str>) -> (row: WorkspaceRow)
    requires
        index < usize::MAX,
    ensures
        row.position@ == decimal(index as nat + 1),
        row.title@ == workspace.spec_display_title(),
        row.pinned == workspace.is_pinned,
        row.unread_badge.deep_view() == if workspace.unread_count > 0 {
            Some(decimal(workspace.unread_count as nat))
        } else {
            None
        },
        row.pin_action@ == if workspace.is_pinned {
            "Unpin"@
        } else {
            "Pin"@
        },
        row.meta@ == meta_text(*workspace, opt_str_view(home)),
        row.notification@ == match workspace.latest_notification {
            Some(n) => n@,
            None => compact_path_text(workspace.current_directory@, opt_str_view(home)),
        },
        row.notification_unread == (workspace.unread_count > 0),
{
    let mut position: Vec<char> = Vec::new();
    push_decimal(&mut position, index as u64 + 1);
    let unread_badge = if workspace.unread_count > 0 {
        let mut badge: Vec<char> = Vec::new();
        push_decimal(&mut badge, workspace.unread_count as u64);
        Some(string_from_chars(&badge))
    } else {
        None
    };
    let notification = match &workspace.latest_notification {
        Some(n) => n.clone(),
        None => compact_path(workspace.current_directory.as_str(), home),
    };
    WorkspaceRow {
        position: string_from_chars(&position),
        title: workspace.display_title().to_owned(),
        pinned: workspace.is_pinned,
        unread_badge,
        pin_action: if workspace.is_pinned {
            "Unpin".to_owned()
        } else {
            "Pin".to_owned()
        },
        meta: workspace_meta_text(workspace, home),
        notification,
        notification_unread: workspace.unread_count > 0,
    }
}

} // verus!

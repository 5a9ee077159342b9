//! Panel model: a terminal panel and the metadata that tools report about it.

use vstd::prelude::*;

use crate::ids::{new_id, Id};

verus! {

broadcast use vstd::string::group_string_axioms;

/// A point in time, in microseconds since the Unix epoch.
pub type Timestamp = u64;

/// The current time, in microseconds since the Unix epoch.
///
/// Calls `std::time::SystemTime::now` and measures it from `UNIX_EPOCH`
/// (a clock before the epoch reads as `0`). What it returns rests on the
/// clock, so nothing is claimed of it.
#[verifier::external_body]
pub(crate) fn now_micros() -> (t: Timestamp) {
    let elapsed = std::time::SystemTime::now().duration_since(std::time::UNIX_EPOCH).unwrap_or_default();
    elapsed.as_micros() as u64
}

/// Git branch info for a panel or workspace.
#[derive(Debug, Clone)]
pub struct GitBranch {
    pub branch: String,
    pub is_dirty: bool,
}

#[derive(Debug, Clone, Copy, PartialEq, Eq, Structural)]
pub enum ShellActivityState {
    Prompt,
    Running,
}

#[derive(Debug, Clone)]
pub struct ShellState {
    pub state: ShellActivityState,
    pub label: Option<String>,
}

#[derive(Debug, Clone, Copy, PartialEq, Eq, Structural)]
pub enum PullRequestState {
    Open,
    Merged,
    Closed,
}

#[derive(Debug, Clone, Copy, PartialEq, Eq, Structural)]
pub enum PullRequestChecks {
    Pass,
    Fail,
    Pending,
}

#[derive(Debug, Clone)]
pub struct PullRequestMetadata {
    pub number: Option<u32>,
    pub url: Option<String>,
    pub label: String,
    pub title: Option<String>,
    pub state: PullRequestState,
    pub branch: Option<String>,
    pub checks: Option<PullRequestChecks>,
}

#[derive(Debug, Clone, Copy, PartialEq, Eq, Structural)]
pub enum MetadataFormat {
    Plain,
    Markdown,
}

impl Default for MetadataFormat {
    fn default() -> (format: Self)
        ensures
            format == MetadataFormat::Plain,
    {
        MetadataFormat::Plain
    }
}

/// A compact key/value item reported for a panel.
#[derive(Debug, Clone)]
pub struct MetadataItem {
    pub key: String,
    pub label: String,
    pub value: String,
    pub icon: Option<String>,
    pub color: Option<String>,
    pub url: Option<String>,
    pub priority: i32,
    pub format: MetadataFormat,
    pub timestamp: Timestamp,
}

/// A freeform block of text reported for a panel.
#[derive(Debug, Clone)]
pub struct MetadataBlock {
    pub key: String,
    pub title: Option<String>,
    pub content: String,
    pub style: Option<String>,
    pub priority: i32,
    pub format: MetadataFormat,
    pub timestamp: Timestamp,
}

/// A terminal panel within a workspace pane.
#[derive(Debug, Clone)]
pub struct Panel {
    pub id: Id,
    pub title: Option<String>,
    pub custom_title: Option<String>,
    pub directory: Option<String>,
    pub directory_updated_at: Option<Timestamp>,
    pub is_pinned: bool,
    pub is_manually_unread: bool,
    pub git_branch: Option<GitBranch>,
    pub git_branch_updated_at: Option<Timestamp>,
    pub listening_ports: Vec<u16>,
    pub listening_ports_updated_at: Option<Timestamp>,
    pub tty_name: Option<String>,
    pub tty_name_updated_at: Option<Timestamp>,
    pub shell_state: Option<ShellState>,
    pub shell_state_updated_at: Option<Timestamp>,
    pub pr_metadata: Option<PullRequestMetadata>,
    pub pr_metadata_updated_at: Option<Timestamp>,
    pub metadata_items: Vec<MetadataItem>,
    pub metadata_blocks: Vec<MetadataBlock>,
}

// ---------------------------------------------------------------------------
// Mathematical values
// ---------------------------------------------------------------------------

pub struct GitBranchView {
    pub branch: Seq<char>,
    pub is_dirty: bool,
}

pub struct ShellStateView {
    pub state: ShellActivityState,
    pub label: Option<Seq<char>>,
}

pub struct PullRequestView {
    pub number: Option<u32>,
    pub url: Option<Seq<char>>,
    pub label: Seq<char>,
    pub title: Option<Seq<char>>,
    pub state: PullRequestState,
    pub branch: Option<Seq<char>>,
    pub checks: Option<PullRequestChecks>,
}

pub struct MetadataItemView {
    pub key: Seq<char>,
    pub label: Seq<char>,
    pub value: Seq<char>,
    pub icon: Option<Seq<char>>,
    pub color: Option<Seq<char>>,
    pub url: Option<Seq<char>>,
    pub priority: i32,
    pub format: MetadataFormat,
    pub timestamp: Timestamp,
}

pub struct MetadataBlockView {
    pub key: Seq<char>,
    pub title: Option<Seq<char>>,
    pub content: Seq<char>,
    pub style: Option<Seq<char>>,
    pub priority: i32,
    pub format: MetadataFormat,
    pub timestamp: Timestamp,
}

pub struct PanelView {
    pub id: Id,
    pub title: Option<Seq<char>>,
    pub custom_title: Option<Seq<char>>,
    pub directory: Option<Seq<char>>,
    pub directory_updated_at: Option<Timestamp>,
    pub is_pinned: bool,
    pub is_manually_unread: bool,
    pub git_branch: Option<GitBranchView>,
    pub git_branch_updated_at: Option<Timestamp>,
    pub listening_ports: Seq<u16>,
    pub listening_ports_updated_at: Option<Timestamp>,
    pub tty_name: Option<Seq<char>>,
    pub tty_name_updated_at: Option<Timestamp>,
    pub shell_state: Option<ShellStateView>,
    pub shell_state_updated_at: Option<Timestamp>,
    pub pr_metadata: Option<PullRequestView>,
    pub pr_metadata_updated_at: Option<Timestamp>,
    pub metadata_items: Seq<MetadataItemView>,
    pub metadata_blocks: Seq<MetadataBlockView>,
}

impl View for GitBranch {
    type V = GitBranchView;

    open spec fn view(&self) -> GitBranchView {
        GitBranchView { branch: self.branch@, is_dirty: self.is_dirty }
    }
}

impl DeepView for GitBranch {
    type V = GitBranchView;

    open spec fn deep_view(&self) -> GitBranchView {
        self@
    }
}

impl View for ShellState {
    type V = ShellStateView;

    open spec fn view(&self) -> ShellStateView {
        ShellStateView { state: self.state, label: self.label.deep_view() }
    }
}

impl DeepView for ShellState {
    type V = ShellStateView;

    open spec fn deep_view(&self) -> ShellStateView {
        self@
    }
}

impl View for PullRequestMetadata {
    type V = PullRequestView;

    open spec fn view(&self) -> PullRequestView {
        PullRequestView {
            number: self.number,
            url: self.url.deep_view(),
            label: self.label@,
            title: self.title.deep_view(),
            state: self.state,
            branch: self.branch.deep_view(),
            checks: self.checks,
        }
    }
}

impl DeepView for PullRequestMetadata {
    type V = PullRequestView;

    open spec fn deep_view(&self) -> PullRequestView {
        self@
    }
}

impl View for MetadataItem {
    type V = MetadataItemView;

    open spec fn view(&self) -> MetadataItemView {
        MetadataItemView {
            key: self.key@,
            label: self.label@,
            value: self.value@,
            icon: self.icon.deep_view(),
            color: self.color.deep_view(),
            url: self.url.deep_view(),
            priority: self.priority,
            format: self.format,
            timestamp: self.timestamp,
        }
    }
}

impl DeepView for MetadataItem {
    type V = MetadataItemView;

    open spec fn deep_view(&self) -> MetadataItemView {
        self@
    }
}

impl View for MetadataBlock {
    type V = MetadataBlockView;

    open spec fn view(&self) -> MetadataBlockView {
        MetadataBlockView {
            key: self.key@,
            title: self.title.deep_view(),
            content: self.content@,
            style: self.style.deep_view(),
            priority: self.priority,
            format: self.format,
            timestamp: self.timestamp,
        }
    }
}

impl DeepView for MetadataBlock {
    type V = MetadataBlockView;

    open spec fn deep_view(&self) -> MetadataBlockView {
        self@
    }
}

impl View for Panel {
    type V = PanelView;

    open spec fn view(&self) -> PanelView {
        PanelView {
            id: self.id,
            title: self.title.deep_view(),
            custom_title: self.custom_title.deep_view(),
            directory: self.directory.deep_view(),
            directory_updated_at: self.directory_updated_at,
            is_pinned: self.is_pinned,
            is_manually_unread: self.is_manually_unread,
            git_branch: self.git_branch.deep_view(),
            git_branch_updated_at: self.git_branch_updated_at,
            listening_ports: self.listening_ports@,
            listening_ports_updated_at: self.listening_ports_updated_at,
            tty_name: self.tty_name.deep_view(),
            tty_name_updated_at: self.tty_name_updated_at,
            shell_state: self.shell_state.deep_view(),
            shell_state_updated_at: self.shell_state_updated_at,
            pr_metadata: self.pr_metadata.deep_view(),
            pr_metadata_updated_at: self.pr_metadata_updated_at,
            metadata_items: self.metadata_items.deep_view(),
            metadata_blocks: self.metadata_blocks.deep_view(),
        }
    }
}

/// A panel of the identity and directory of which nothing else has been
/// reported yet.
pub open spec fn blank_panel(id: Id, directory: Option<Seq<char>>) -> PanelView {
    PanelView {
        id,
        title: None,
        custom_title: None,
        directory,
        directory_updated_at: None,
        is_pinned: false,
        is_manually_unread: false,
        git_branch: None,
        git_branch_updated_at: None,
        listening_ports: Seq::empty(),
        listening_ports_updated_at: None,
        tty_name: None,
        tty_name_updated_at: None,
        shell_state: None,
        shell_state_updated_at: None,
        pr_metadata: None,
        pr_metadata_updated_at: None,
        metadata_items: Seq::empty(),
        metadata_blocks: Seq::empty(),
    }
}

/// The title that stands where a panel's process reported none.
pub open spec fn default_title() -> Seq<char> {
    seq!['T', 'e', 'r', 'm', 'i', 'n', 'a', 'l']
}

impl PanelView {
    /// Process title without any custom-title override.
    pub open spec fn process_title(self) -> Seq<char> {
        match self.title {
            Some(t) => t,
            None => default_title(),
        }
    }

    /// Display title: custom title if set, otherwise process title.
    pub open spec fn display_title(self) -> Seq<char> {
        match self.custom_title {
            Some(t) => t,
            None => self.process_title(),
        }
    }
}

/// The text "Terminal".
pub fn terminal_title() -> (t: &'static str)
    ensures
        t@ == default_title(),
{
    let t = "Terminal";
    proof {
        reveal_strlit("Terminal");
        assert(t@ =~= default_title());
    }
    t
}

// ---------------------------------------------------------------------------
// Equality of values
// ---------------------------------------------------------------------------

/// Whether two strings are equal.
pub fn string_eq(a: &String, b: &String) -> (same: bool)
    ensures
        same == (a@ == b@),
{
    a.eq(b)
}

/// Whether two string slices are equal.
pub fn str_eq(a: &str, b: &str) -> (same: bool)
    ensures
        same == (a@ == b@),
{
    let a_owned = a.to_owned();
    let b_owned = b.to_owned();
    a_owned.eq(&b_owned)
}

/// Whether two optional texts are equal.
pub fn opt_string_eq(a: &Option<String>, b: &Option<String>) -> (same: bool)
    ensures
        same == (a.deep_view() == b.deep_view()),
{
    match (a, b) {
        (Some(x), Some(y)) => string_eq(x, y),
        (None, None) => true,
        _ => false,
    }
}

/// Whether an optional text holds exactly `b`.
pub fn opt_string_is(a: &Option<String>, b: &str) -> (same: bool)
    ensures
        same == (a.deep_view() == Some(b@)),
{
    match a {
        Some(x) => str_eq(x.as_str(), b),
        None => false,
    }
}

/// A copy of an optional text.
pub fn opt_string_copy(a: &Option<String>) -> (c: Option<String>)
    ensures
        c.deep_view() == a.deep_view(),
{
    match a {
        Some(x) => Some(x.clone()),
        None => None,
    }
}

/// An optional text built from an optional string slice.
pub fn opt_str_to_string(a: Option<&str>) -> (c: Option<String>)
    ensures
        c.deep_view() == match a {
            Some(s) => Some(s@),
            None => None::<Seq<char>>,
        },
{
    match a {
        Some(s) => Some(s.to_owned()),
        None => None,
    }
}

/// Whether two port lists are equal.
pub fn ports_eq(a: &Vec<u16>, b: &Vec<u16>) -> (same: bool)
    ensures
        same == (a@ == b@),
{
    if a.len() != b.len() {
        return false;
    }
    let mut i: usize = 0;
    while i < a.len()
        invariant
            a@.len() == b@.len(),
            i <= a@.len(),
            forall|j: int| 0 <= j < i ==> a@[j] == b@[j],
        decreases a.len() - i,
    {
        if a[i] != b[i] {
            return false;
        }
        i = i + 1;
    }
    proof {
        assert(a@ =~= b@);
    }
    true
}

/// A copy of a port list.
pub fn ports_copy(a: &Vec<u16>) -> (c: Vec<u16>)
    ensures
        c@ == a@,
{
    let mut c: Vec<u16> = Vec::new();
    let mut i: usize = 0;
    while i < a.len()
        invariant
            i <= a@.len(),
            c@ == a@.subrange(0, i as int),
        decreases a.len() - i,
    {
        c.push(a[i]);
        i = i + 1;
        proof {
            assert(c@ =~= a@.subrange(0, i as int));
        }
    }
    proof {
        assert(a@.subrange(0, a@.len() as int) =~= a@);
    }
    c
}

impl GitBranch {
    pub fn same_as(&self, other: &GitBranch) -> (same: bool)
        ensures
            same == (self@ == other@),
    {
        self.branch == other.branch && self.is_dirty == other.is_dirty
    }

    pub fn copy(&self) -> (c: GitBranch)
        ensures
            c@ == self@,
    {
        GitBranch { branch: self.branch.clone(), is_dirty: self.is_dirty }
    }
}

impl ShellState {
    pub fn same_as(&self, other: &ShellState) -> (same: bool)
        ensures
            same == (self@ == other@),
    {
        self.state == other.state && opt_string_eq(&self.label, &other.label)
    }

    pub fn copy(&self) -> (c: ShellState)
        ensures
            c@ == self@,
    {
        ShellState { state: self.state, label: opt_string_copy(&self.label) }
    }
}

impl PullRequestMetadata {
    pub fn same_as(&self, other: &PullRequestMetadata) -> (same: bool)
        ensures
            same == (self@ == other@),
    {
        self.number == other.number && opt_string_eq(&self.url, &other.url) && self.label
            == other.label && opt_string_eq(&self.title, &other.title) && self.state == other.state
            && opt_string_eq(&self.branch, &other.branch) && self.checks == other.checks
    }

    pub fn copy(&self) -> (c: PullRequestMetadata)
        ensures
            c@ == self@,
    {
        PullRequestMetadata {
            number: self.number,
            url: opt_string_copy(&self.url),
            label: self.label.clone(),
            title: opt_string_copy(&self.title),
            state: self.state,
            branch: opt_string_copy(&self.branch),
            checks: self.checks,
        }
    }
}

impl MetadataItem {
    pub fn same_as(&self, other: &MetadataItem) -> (same: bool)
        ensures
            same == (self@ == other@),
    {
        self.key == other.key && self.label == other.label && self.value == other.value
            && opt_string_eq(&self.icon, &other.icon) && opt_string_eq(&self.color, &other.color)
            && opt_string_eq(&self.url, &other.url) && self.priority == other.priority
            && self.format == other.format && self.timestamp == other.timestamp
    }

    pub fn copy(&self) -> (c: MetadataItem)
        ensures
            c@ == self@,
    {
        MetadataItem {
            key: self.key.clone(),
            label: self.label.clone(),
            value: self.value.clone(),
            icon: opt_string_copy(&self.icon),
            color: opt_string_copy(&self.color),
            url: opt_string_copy(&self.url),
            priority: self.priority,
            format: self.format,
            timestamp: self.timestamp,
        }
    }
}

impl MetadataBlock {
    pub fn same_as(&self, other: &MetadataBlock) -> (same: bool)
        ensures
            same == (self@ == other@),
    {
        self.key == other.key && opt_string_eq(&self.title, &other.title) && self.content
            == other.content && opt_string_eq(&self.style, &other.style) && self.priority
            == other.priority && self.format == other.format && self.timestamp == other.timestamp
    }

    pub fn copy(&self) -> (c: MetadataBlock)
        ensures
            c@ == self@,
    {
        MetadataBlock {
            key: self.key.clone(),
            title: opt_string_copy(&self.title),
            content: self.content.clone(),
            style: opt_string_copy(&self.style),
            priority: self.priority,
            format: self.format,
            timestamp: self.timestamp,
        }
    }
}

/// Whether two item lists are equal.
pub fn items_eq(a: &Vec<MetadataItem>, b: &Vec<MetadataItem>) -> (same: bool)
    ensures
        same == (a.deep_view() == b.deep_view()),
{
    if a.len() != b.len() {
        proof {
            assert(a.deep_view().len() != b.deep_view().len());
        }
        return false;
    }
    let mut i: usize = 0;
    while i < a.len()
        invariant
            a@.len() == b@.len(),
            i <= a@.len(),
            forall|j: int| 0 <= j < i ==> a@[j]@ == b@[j]@,
        decreases a.len() - i,
    {
        if !a[i].same_as(&b[i]) {
            proof {
                assert(a.deep_view()[i as int] != b.deep_view()[i as int]);
            }
            return false;
        }
        i = i + 1;
    }
    proof {
        assert(a.deep_view() =~= b.deep_view());
    }
    true
}

/// A copy of an item list.
pub fn items_copy(a: &Vec<MetadataItem>) -> (c: Vec<MetadataItem>)
    ensures
        c.deep_view() == a.deep_view(),
{
    let mut c: Vec<MetadataItem> = Vec::new();
    let mut i: usize = 0;
    while i < a.len()
        invariant
            i <= a@.len(),
            c@.len() == i,
            forall|j: int| 0 <= j < i ==> c@[j]@ == a@[j]@,
        decreases a.len() - i,
    {
        c.push(a[i].copy());
        i = i + 1;
    }
    proof {
        assert(c.deep_view() =~= a.deep_view());
    }
    c
}

/// Whether two block lists are equal.
pub fn blocks_eq(a: &Vec<MetadataBlock>, b: &Vec<MetadataBlock>) -> (same: bool)
    ensures
        same == (a.deep_view() == b.deep_view()),
{
    if a.len() != b.len() {
        proof {
            assert(a.deep_view().len() != b.deep_view().len());
        }
        return false;
    }
    let mut i: usize = 0;
    while i < a.len()
        invariant
            a@.len() == b@.len(),
            i <= a@.len(),
            forall|j: int| 0 <= j < i ==> a@[j]@ == b@[j]@,
        decreases a.len() - i,
    {
        if !a[i].same_as(&b[i]) {
            proof {
                assert(a.deep_view()[i as int] != b.deep_view()[i as int]);
            }
            return false;
        }
        i = i + 1;
    }
    proof {
        assert(a.deep_view() =~= b.deep_view());
    }
    true
}

/// A copy of a block list.
pub fn blocks_copy(a: &Vec<MetadataBlock>) -> (c: Vec<MetadataBlock>)
    ensures
        c.deep_view() == a.deep_view(),
{
    let mut c: Vec<MetadataBlock> = Vec::new();
    let mut i: usize = 0;
    while i < a.len()
        invariant
            i <= a@.len(),
            c@.len() == i,
            forall|j: int| 0 <= j < i ==> c@[j]@ == a@[j]@,
        decreases a.len() - i,
    {
        c.push(a[i].copy());
        i = i + 1;
    }
    proof {
        assert(c.deep_view() =~= a.deep_view());
    }
    c
}

/// Whether two optional git branches are equal.
pub fn opt_git_eq(a: &Option<GitBranch>, b: &Option<GitBranch>) -> (same: bool)
    ensures
        same == (a.deep_view() == b.deep_view()),
{
    match (a, b) {
        (Some(x), Some(y)) => x.same_as(y),
        (None, None) => true,
        _ => false,
    }
}

/// A copy of an optional git branch.
pub fn opt_git_copy(a: &Option<GitBranch>) -> (c: Option<GitBranch>)
    ensures
        c.deep_view() == a.deep_view(),
{
    match a {
        Some(x) => Some(x.copy()),
        None => None,
    }
}

/// Whether two optional shell states are equal.
pub fn opt_shell_eq(a: &Option<ShellState>, b: &Option<ShellState>) -> (same: bool)
    ensures
        same == (a.deep_view() == b.deep_view()),
{
    match (a, b) {
        (Some(x), Some(y)) => x.same_as(y),
        (None, None) => true,
        _ => false,
    }
}

/// A copy of an optional shell state.
pub fn opt_shell_copy(a: &Option<ShellState>) -> (c: Option<ShellState>)
    ensures
        c.deep_view() == a.deep_view(),
{
    match a {
        Some(x) => Some(x.copy()),
        None => None,
    }
}

/// Whether two optional pull-request records are equal.
pub fn opt_pr_eq(a: &Option<PullRequestMetadata>, b: &Option<PullRequestMetadata>) -> (same: bool)
    ensures
        same == (a.deep_view() == b.deep_view()),
{
    match (a, b) {
        (Some(x), Some(y)) => x.same_as(y),
        (None, None) => true,
        _ => false,
    }
}

/// A copy of an optional pull-request record.
pub fn opt_pr_copy(a: &Option<PullRequestMetadata>) -> (c: Option<PullRequestMetadata>)
    ensures
        c.deep_view() == a.deep_view(),
{
    match a {
        Some(x) => Some(x.copy()),
        None => None,
    }
}

impl Panel {
    /// Create a new terminal panel with a fresh identity and nothing
    /// reported about it yet.
    pub fn new() -> (panel: Self)
        ensures
            panel@ == blank_panel(panel.id, None),
    {
        let panel = Panel {
            id: new_id(),
            title: None,
            custom_title: None,
            directory: None,
            directory_updated_at: None,
            is_pinned: false,
            is_manually_unread: false,
            git_branch: None,
            git_branch_updated_at: None,
            listening_ports: Vec::new(),
            listening_ports_updated_at: None,
            tty_name: None,
            tty_name_updated_at: None,
            shell_state: None,
            shell_state_updated_at: None,
            pr_metadata: None,
            pr_metadata_updated_at: None,
            metadata_items: Vec::new(),
            metadata_blocks: Vec::new(),
        };
        proof {
            assert(panel@.listening_ports =~= Seq::empty());
            assert(panel@.metadata_items =~= Seq::empty());
            assert(panel@.metadata_blocks =~= Seq::empty());
        }
        panel
    }

    /// Display title: custom title if set, otherwise process title.
    pub fn display_title(&self) -> (t: &str)
        ensures
            t@ == self@.display_title(),
    {
        match &self.custom_title {
            Some(t) => t.as_str(),
            None => self.process_title(),
        }
    }

    /// Process title without any custom-title override.
    pub fn process_title(&self) -> (t: &str)
        ensures
            t@ == self@.process_title(),
    {
        match &self.title {
            Some(t) => t.as_str(),
            None => terminal_title(),
        }
    }
}

} // verus!

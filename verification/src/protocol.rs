//! The v2 socket protocol: requests and responses as JSON values, and the
//! parsing of request parameters.
//!
//! A request is `{"id": .., "method": "..", "params": {..}}`; a response is
//! `{"id": .., "ok": true, "result": ..}` or
//! `{"id": .., "ok": false, "error": {"code": .., "message": ..}}`.

use vstd::prelude::*;

use crate::ids::{parse_uuid, spec_uuid_parse, spec_uuid_text, uuid_text, Id};
use crate::layout::FocusDirection;
use crate::panel::{
    GitBranch, GitBranchView, ShellState, ShellStateView,
    str_eq, MetadataBlock, MetadataBlockView, MetadataFormat, MetadataItem, MetadataItemView,
    PullRequestChecks, PullRequestMetadata, PullRequestState, PullRequestView, ShellActivityState,
    Timestamp,
};
use crate::text::{opt_truncate, opt_truncated, trim, trim_chars, truncate_chars, truncate_str};
use vstd::string::{StrSliceExecFns, StringExecFns};

verus! {

broadcast use vstd::string::group_string_axioms;

/// A JSON value. Numbers are kept as serde_json tells them apart: a
/// non-negative integer, a negative integer, or a number with a fraction
/// or an exponent, which is held in millionths (rounded). An object keeps
/// its members in order; a key is looked up by its first member.
#[derive(Debug)]
pub enum JsonValue {
    Null,
    Bool(bool),
    UInt(u64),
    NegInt(i64),
    Float(i64),
    Str(String),
    Array(Vec<JsonValue>),
    Object(Vec<(String, JsonValue)>),
}

/// The value of the first member of the key, if any.
pub open spec fn member(entries: Seq<(String, JsonValue)>, key: Seq<char>) -> Option<JsonValue>
    decreases entries.len(),
{
    if entries.len() == 0 {
        None
    } else if entries[0].0@ == key {
        Some(entries[0].1)
    } else {
        member(entries.drop_first(), key)
    }
}

impl JsonValue {
    /// The value of the key, where this is an object that has it.
    pub open spec fn field(self, key: Seq<char>) -> Option<JsonValue> {
        match self {
            JsonValue::Object(entries) => member(entries@, key),
            _ => None,
        }
    }

    /// The text, where this is a string.
    pub open spec fn text(self) -> Option<Seq<char>> {
        match self {
            JsonValue::Str(s) => Some(s@),
            _ => None,
        }
    }

    /// The integer, where this is a non-negative integer.
    pub open spec fn unsigned(self) -> Option<u64> {
        match self {
            JsonValue::UInt(n) => Some(n),
            _ => None,
        }
    }

    /// The integer, where this is an integer that fits in an `i64`.
    pub open spec fn signed(self) -> Option<i64> {
        match self {
            JsonValue::UInt(n) => if n <= i64::MAX as u64 {
                Some(n as i64)
            } else {
                None
            },
            JsonValue::NegInt(n) => Some(n),
            _ => None,
        }
    }

    /// The truth value, where this is a boolean.
    pub open spec fn boolean(self) -> Option<bool> {
        match self {
            JsonValue::Bool(b) => Some(b),
            _ => None,
        }
    }

    /// The text of the key's value, where this is an object whose member
    /// of the key is a string.
    pub open spec fn text_field(self, key: Seq<char>) -> Option<Seq<char>> {
        match self.field(key) {
            Some(v) => v.text(),
            None => None,
        }
    }

    /// The value of the key, where this is an object that has it.
    pub fn get(&self, key: &str) -> (v: Option<&JsonValue>)
        ensures
            match v {
                Some(x) => self.field(key@) == Some(*x),
                None => self.field(key@) is None,
            },
    {
        match self {
            JsonValue::Object(entries) => {
                let ghost es = entries@;
                let mut i: usize = 0;
                proof {
                    assert(es.skip(0) =~= es);
                }
                while i < entries.len()
                    invariant
                        es == entries@,
                        i <= es.len(),
                        member(es, key@) == member(es.skip(i as int), key@),
                        self.field(key@) == member(es, key@),
                    decreases entries.len() - i,
                {
                    proof {
                        assert(es.skip(i as int)[0] == es[i as int]);
                        assert(es.skip(i as int).drop_first() =~= es.skip(i + 1));
                    }
                    if str_eq(entries[i].0.as_str(), key) {
                        proof {
                            assert(es.skip(i as int)[0].0@ == key@);
                            assert(member(es.skip(i as int), key@) == Some(es[i as int].1));
                            assert(self.field(key@) == Some(es[i as int].1));
                        }
                        let found = &entries[i];
                        assert(*found == es[i as int]);
                        return Some(&found.1);
                    }
                    i = i + 1;
                }
                proof {
                    assert(es.skip(i as int).len() == 0);
                }
                None
            },
            _ => None,
        }
    }

    /// The text, where this is a string.
    pub fn as_str(&self) -> (t: Option<&str>)
        ensures
            match t {
                Some(s) => self.text() == Some(s@),
                None => self.text() is None,
            },
    {
        match self {
            JsonValue::Str(s) => Some(s.as_str()),
            _ => None,
        }
    }

    /// The integer, where this is a non-negative integer.
    pub fn as_u64(&self) -> (n: Option<u64>)
        ensures
            n == self.unsigned(),
    {
        match self {
            JsonValue::UInt(n) => Some(*n),
            _ => None,
        }
    }

    /// The integer, where this is an integer that fits in an `i64`.
    pub fn as_i64(&self) -> (n: Option<i64>)
        ensures
            n == self.signed(),
    {
        match self {
            JsonValue::UInt(n) => if *n <= 9223372036854775807u64 {
                Some(*n as i64)
            } else {
                None
            },
            JsonValue::NegInt(n) => Some(*n),
            _ => None,
        }
    }

    /// The truth value, where this is a boolean.
    pub fn as_bool(&self) -> (b: Option<bool>)
        ensures
            b == self.boolean(),
    {
        match self {
            JsonValue::Bool(b) => Some(*b),
            _ => None,
        }
    }

    /// Whether this is null.
    pub fn is_null(&self) -> (null: bool)
        ensures
            null == (*self is Null),
    {
        match self {
            JsonValue::Null => true,
            _ => false,
        }
    }

    /// The text of the key's value, where this is an object whose member
    /// of the key is a string.
    pub fn str_field(&self, key: &str) -> (t: Option<&str>)
        ensures
            match t {
                Some(s) => self.text_field(key@) == Some(s@),
                None => self.text_field(key@) is None,
            },
    {
        match self.get(key) {
            Some(v) => v.as_str(),
            None => None,
        }
    }
}

/// What went wrong with a request.
#[derive(Debug, Clone)]
pub struct ErrorInfo {
    pub code: String,
    pub message: String,
}

/// A request: its id, the method and its parameters.
#[derive(Debug)]
pub struct Request {
    pub id: JsonValue,
    pub method: String,
    pub params: JsonValue,
}

/// A response: the request's id, and a result or an error.
#[derive(Debug)]
pub struct Response {
    pub id: JsonValue,
    pub ok: bool,
    pub result: Option<JsonValue>,
    pub error: Option<ErrorInfo>,
}

impl ErrorInfo {
    /// Whether this is the error of the code and message.
    pub open spec fn is(self, code: Seq<char>, message: Seq<char>) -> bool {
        self.code@ == code && self.message@ == message
    }

    /// The error of the code and message.
    pub fn new(code: &str, message: &str) -> (e: ErrorInfo)
        ensures
            e.is(code@, message@),
    {
        ErrorInfo { code: code.to_owned(), message: message.to_owned() }
    }
}

/// Whether a handler's reply is the error of the code and message.
pub open spec fn fails_with(r: Result<JsonValue, ErrorInfo>, code: Seq<char>, message: Seq<char>) -> bool {
    r matches Err(e) && e.is(code, message)
}

impl Response {
    /// The response to the request id that carries a handler's reply.
    pub fn reply(id: JsonValue, reply: Result<JsonValue, ErrorInfo>) -> (r: Response)
        ensures
            r.id == id,
            r.ok == reply is Ok,
            r.result == match reply {
                Ok(v) => Some(v),
                Err(_) => None,
            },
            r.error == match reply {
                Ok(_) => None,
                Err(e) => Some(e),
            },
    {
        match reply {
            Ok(v) => Response { id, ok: true, result: Some(v), error: None },
            Err(e) => Response { id, ok: false, result: None, error: Some(e) },
        }
    }

    /// The response to a line that is not a request: no id, and the error
    /// `parse_error` with the message `Invalid JSON: ` and the parser's
    /// account of what is wrong.
    pub fn parse_error(detail: &str) -> (r: Response)
        ensures
            r.id == JsonValue::Null,
            !r.ok,
            r.result is None,
            r.error matches Some(e) && e.is("parse_error"@, "Invalid JSON: "@ + detail@),
    {
        let message = "Invalid JSON: ".to_owned().concat(detail);
        Response { id: JsonValue::Null, ok: false, result: None, error: Some(ErrorInfo { code: "parse_error".to_owned(), message }) }
    }
}

/// The code of a request whose parameters are wrong.
pub open spec fn invalid_params() -> Seq<char> {
    "invalid_params"@
}

/// The code of a request whose target does not exist.
pub open spec fn not_found() -> Seq<char> {
    "not_found"@
}

/// What a UUID parameter holds: nothing where it is absent or null, the
/// identity where it is a string that parses as a UUID; `Err` otherwise.
pub open spec fn uuid_value(v: Option<JsonValue>) -> Result<Option<Id>, ()> {
    match v {
        None => Ok(None),
        Some(JsonValue::Null) => Ok(None),
        Some(JsonValue::Str(s)) => match spec_uuid_parse(s@) {
            Some(id) => Ok(Some(id)),
            None => Err(()),
        },
        Some(_) => Err(()),
    }
}

/// A UUID parameter (see `uuid_value`).
pub fn parse_uuid_param(params: &JsonValue, key: &str) -> (r: Result<Option<Id>, ()>)
    ensures
        r == uuid_value(params.field(key@)),
{
    match params.get(key) {
        None => Ok(None),
        Some(JsonValue::Null) => Ok(None),
        Some(JsonValue::Str(s)) => match parse_uuid(s.as_str()) {
            Some(id) => Ok(Some(id)),
            None => Err(()),
        },
        Some(_) => Err(()),
    }
}

/// The value of `workspace`, else of `workspace_id`.
pub open spec fn workspace_value(params: JsonValue) -> Option<JsonValue> {
    match params.field("workspace"@) {
        Some(v) => Some(v),
        None => params.field("workspace_id"@),
    }
}

/// The workspace a request names by `workspace` or `workspace_id` (see
/// `uuid_value`).
pub fn parse_workspace_param(params: &JsonValue) -> (r: Result<Option<Id>, ()>)
    ensures
        r == uuid_value(workspace_value(*params)),
{
    let v = match params.get("workspace") {
        Some(v) => Some(v),
        None => params.get("workspace_id"),
    };
    match v {
        None => Ok(None),
        Some(JsonValue::Null) => Ok(None),
        Some(JsonValue::Str(s)) => match parse_uuid(s.as_str()) {
            Some(id) => Ok(Some(id)),
            None => Err(()),
        },
        Some(_) => Err(()),
    }
}

/// The surface a request names by `surface`, else by `panel`.
pub open spec fn surface_value(params: JsonValue) -> Result<Option<Id>, ()> {
    match uuid_value(params.field("surface"@)) {
        Err(()) => Err(()),
        Ok(Some(id)) => Ok(Some(id)),
        Ok(None) => uuid_value(params.field("panel"@)),
    }
}

/// The surface a request names (see `surface_value`).
pub fn parse_surface_param(params: &JsonValue) -> (r: Result<Option<Id>, ()>)
    ensures
        r == surface_value(*params),
{
    match parse_uuid_param(params, "surface") {
        Err(()) => Err(()),
        Ok(Some(id)) => Ok(Some(id)),
        Ok(None) => parse_uuid_param(params, "panel"),
    }
}

/// The direction a name gives.
pub open spec fn direction_of(name: Option<Seq<char>>) -> Option<FocusDirection> {
    if name == Some("left"@) {
        Some(FocusDirection::Left)
    } else if name == Some("right"@) {
        Some(FocusDirection::Right)
    } else if name == Some("up"@) {
        Some(FocusDirection::Up)
    } else if name == Some("down"@) {
        Some(FocusDirection::Down)
    } else {
        None
    }
}

/// The name of a direction.
pub open spec fn direction_name(direction: FocusDirection) -> Seq<char> {
    match direction {
        FocusDirection::Left => "left"@,
        FocusDirection::Right => "right"@,
        FocusDirection::Up => "up"@,
        FocusDirection::Down => "down"@,
    }
}

/// The name of a direction.
pub fn direction_label(direction: FocusDirection) -> (label: &'static str)
    ensures
        label@ == direction_name(direction),
{
    match direction {
        FocusDirection::Left => "left",
        FocusDirection::Right => "right",
        FocusDirection::Up => "up",
        FocusDirection::Down => "down",
    }
}

/// Whether an optional text is the literal.
fn opt_is(t: Option<&str>, lit: &str) -> (same: bool)
    ensures
        same == (match t {
            Some(s) => Some(s@),
            None => None,
        } == Some(lit@)),
{
    match t {
        Some(s) => str_eq(s, lit),
        None => false,
    }
}

/// The direction a request gives in `value`; an `invalid_params` error
/// where it is not one of the four names.
pub fn parse_focus_direction(value: Option<&JsonValue>) -> (r: Result<FocusDirection, ErrorInfo>)
    ensures
        match direction_of(match value {
            Some(v) => v.text(),
            None => None,
        }) {
            Some(d) => r == Ok::<FocusDirection, ErrorInfo>(d),
            None => r matches Err(e) && e.is(
                invalid_params(),
                "Invalid direction; expected 'left', 'right', 'up', or 'down'"@,
            ),
        },
{
    let name = match value {
        Some(v) => v.as_str(),
        None => None,
    };
    if opt_is(name, "left") {
        Ok(FocusDirection::Left)
    } else if opt_is(name, "right") {
        Ok(FocusDirection::Right)
    } else if opt_is(name, "up") {
        Ok(FocusDirection::Up)
    } else if opt_is(name, "down") {
        Ok(FocusDirection::Down)
    } else {
        Err(ErrorInfo::new("invalid_params", "Invalid direction; expected 'left', 'right', 'up', or 'down'"))
    }
}


/// The outcome a parser is to give: the value, or the code and message
/// of its error.
pub type Parsed<T> = Result<T, (Seq<char>, Seq<char>)>;

/// Whether a parser's result is the value or error that `want` names,
/// values taken by `same`.
pub open spec fn gives<T, V>(r: Result<T, ErrorInfo>, want: Parsed<V>, same: spec_fn(T, V) -> bool) -> bool {
    match want {
        Ok(v) => r matches Ok(x) && same(x, v),
        Err((code, message)) => r matches Err(e) && e.is(code, message),
    }
}

/// An optional text field of the parameters, cut to `max_bytes` bytes.
pub open spec fn text_param(params: JsonValue, key: Seq<char>, max_bytes: nat) -> Option<Seq<char>> {
    opt_truncated(params.text_field(key), max_bytes)
}

/// What a non-negative integer parameter holds: nothing where absent;
/// an `invalid_params` error where it is not a non-negative integer or
/// does not fit a `usize`.
pub open spec fn usize_param(params: JsonValue, key: Seq<char>) -> Parsed<Option<usize>> {
    match params.field(key) {
        None => Ok(None),
        Some(v) => match v.unsigned() {
            Some(n) => if n <= usize::MAX {
                Ok(Some(n as usize))
            } else {
                Err((invalid_params(), "'"@ + key + "' is out of range"@))
            },
            None => Err((invalid_params(), "'"@ + key + "' must be a non-negative integer"@)),
        },
    }
}

/// A non-negative integer parameter (see `usize_param`).
pub fn parse_usize_param(params: &JsonValue, key: &str) -> (r: Result<Option<usize>, ErrorInfo>)
    ensures
        gives(r, usize_param(*params, key@), |x: Option<usize>, v: Option<usize>| x == v),
{
    match params.get(key) {
        None => Ok(None),
        Some(v) => match v.as_u64() {
            Some(n) => if n <= usize::MAX as u64 {
                Ok(Some(n as usize))
            } else {
                let message = "'".to_owned().concat(key).concat("' is out of range");
                Err(ErrorInfo { code: "invalid_params".to_owned(), message })
            },
            None => {
                let message = "'".to_owned().concat(key).concat("' must be a non-negative integer");
                Err(ErrorInfo { code: "invalid_params".to_owned(), message })
            },
        },
    }
}

/// The state of a pull request a request gives (`open` where absent).
pub open spec fn pr_state(v: Option<JsonValue>) -> Parsed<PullRequestState> {
    let name = match v {
        Some(x) => x.text(),
        None => None,
    };
    let name = match name {
        Some(n) => n,
        None => "open"@,
    };
    if name == "open"@ {
        Ok(PullRequestState::Open)
    } else if name == "merged"@ {
        Ok(PullRequestState::Merged)
    } else if name == "closed"@ {
        Ok(PullRequestState::Closed)
    } else {
        Err((invalid_params(), "Invalid PR state; expected 'open', 'merged', or 'closed'"@))
    }
}

/// The state of a pull request (see `pr_state`).
pub fn parse_pull_request_state(value: Option<&JsonValue>) -> (r: Result<PullRequestState, ErrorInfo>)
    ensures
        gives(r, pr_state(match value { Some(v) => Some(*v), None => None }), |x: PullRequestState, v: PullRequestState| x == v),
{
    let name = match value {
        Some(v) => v.as_str(),
        None => None,
    };
    let name = match name {
        Some(n) => n,
        None => "open",
    };
    if str_eq(name, "open") {
        Ok(PullRequestState::Open)
    } else if str_eq(name, "merged") {
        Ok(PullRequestState::Merged)
    } else if str_eq(name, "closed") {
        Ok(PullRequestState::Closed)
    } else {
        Err(ErrorInfo::new("invalid_params", "Invalid PR state; expected 'open', 'merged', or 'closed'"))
    }
}

/// The checks of a pull request a request gives (none where absent or
/// not a string).
pub open spec fn pr_checks(v: Option<JsonValue>) -> Parsed<Option<PullRequestChecks>> {
    let name = match v {
        Some(x) => x.text(),
        None => None,
    };
    match name {
        None => Ok(None),
        Some(n) => if n == "pass"@ {
            Ok(Some(PullRequestChecks::Pass))
        } else if n == "fail"@ {
            Ok(Some(PullRequestChecks::Fail))
        } else if n == "pending"@ {
            Ok(Some(PullRequestChecks::Pending))
        } else {
            Err((invalid_params(), "Invalid PR checks; expected 'pass', 'fail', or 'pending'"@))
        },
    }
}

/// The checks of a pull request (see `pr_checks`).
pub fn parse_pull_request_checks(value: Option<&JsonValue>) -> (r: Result<Option<PullRequestChecks>, ErrorInfo>)
    ensures
        gives(r, pr_checks(match value { Some(v) => Some(*v), None => None }), |x: Option<PullRequestChecks>, v: Option<PullRequestChecks>| x == v),
{
    let name = match value {
        Some(v) => v.as_str(),
        None => None,
    };
    match name {
        None => Ok(None),
        Some(n) => if str_eq(n, "pass") {
            Ok(Some(PullRequestChecks::Pass))
        } else if str_eq(n, "fail") {
            Ok(Some(PullRequestChecks::Fail))
        } else if str_eq(n, "pending") {
            Ok(Some(PullRequestChecks::Pending))
        } else {
            Err(ErrorInfo::new("invalid_params", "Invalid PR checks; expected 'pass', 'fail', or 'pending'"))
        },
    }
}

/// The pull request a report gives: a positive `number` that fits a
/// `u32` is required; the label (`default_label` where absent) must not
/// be blank and is cut to 16 bytes; URL, title and branch are cut to
/// 2048, 256 and 256 bytes; state and checks as `pr_state` and
/// `pr_checks` say.
pub open spec fn pr_params(params: JsonValue, default_label: Seq<char>) -> Parsed<PullRequestView> {
    match params.field("number"@) {
        None => Err((invalid_params(), "Provide 'number'"@)),
        Some(n) => match n.unsigned() {
            None => Err((invalid_params(), "Provide 'number'"@)),
            Some(number) => if number > u32::MAX || number == 0 {
                Err((invalid_params(), "Invalid PR number"@))
            } else {
                let label = match params.text_field("label"@) {
                    Some(l) => l,
                    None => default_label,
                };
                if trim_chars(label).len() == 0 {
                    Err((invalid_params(), "Provide a non-empty PR label"@))
                } else {
                    match pr_state(params.field("state"@)) {
                        Err(e) => Err(e),
                        Ok(state) => match pr_checks(params.field("checks"@)) {
                            Err(e) => Err(e),
                            Ok(checks) => Ok(
                                PullRequestView {
                                    number: Some(number as u32),
                                    url: text_param(params, "url"@, 2048),
                                    label: truncate_chars(label, 16),
                                    title: text_param(params, "title"@, 256),
                                    state,
                                    branch: text_param(params, "branch"@, 256),
                                    checks,
                                },
                            ),
                        },
                    }
                }
            },
        },
    }
}

/// The pull request a report gives (see `pr_params`).
pub fn parse_pull_request_params(params: &JsonValue, default_label: &str) -> (r: Result<PullRequestMetadata, ErrorInfo>)
    ensures
        gives(r, pr_params(*params, default_label@), |x: PullRequestMetadata, v: PullRequestView| x@ == v),
{
    let number = match params.get("number") {
        Some(n) => n.as_u64(),
        None => None,
    };
    let number = match number {
        Some(n) => n,
        None => {
            return Err(ErrorInfo::new("invalid_params", "Provide 'number'"));
        },
    };
    if number > 4294967295u64 || number == 0 {
        return Err(ErrorInfo::new("invalid_params", "Invalid PR number"));
    }
    let label = match params.str_field("label") {
        Some(l) => l,
        None => default_label,
    };
    if trim(label).unicode_len() == 0 {
        return Err(ErrorInfo::new("invalid_params", "Provide a non-empty PR label"));
    }
    let state = parse_pull_request_state(params.get("state"))?;
    let checks = parse_pull_request_checks(params.get("checks"))?;
    Ok(
        PullRequestMetadata {
            number: Some(number as u32),
            url: opt_truncate(params.str_field("url"), 2048),
            label: truncate_str(label, 16).to_owned(),
            title: opt_truncate(params.str_field("title"), 256),
            state,
            branch: opt_truncate(params.str_field("branch"), 256),
            checks,
        },
    )
}


/// The format of metadata a request gives (`plain` where absent).
pub open spec fn metadata_format(v: Option<JsonValue>) -> Parsed<MetadataFormat> {
    let name = match v {
        Some(x) => x.text(),
        None => None,
    };
    let name = match name {
        Some(n) => n,
        None => "plain"@,
    };
    if name == "plain"@ {
        Ok(MetadataFormat::Plain)
    } else if name == "markdown"@ {
        Ok(MetadataFormat::Markdown)
    } else {
        Err((invalid_params(), "Invalid metadata format; expected 'plain' or 'markdown'"@))
    }
}

/// The format of metadata (see `metadata_format`).
pub fn parse_metadata_format(value: Option<&JsonValue>) -> (r: Result<MetadataFormat, ErrorInfo>)
    ensures
        gives(r, metadata_format(match value { Some(v) => Some(*v), None => None }), |x: MetadataFormat, v: MetadataFormat| x == v),
{
    let name = match value {
        Some(v) => v.as_str(),
        None => None,
    };
    let name = match name {
        Some(n) => n,
        None => "plain",
    };
    if str_eq(name, "plain") {
        Ok(MetadataFormat::Plain)
    } else if str_eq(name, "markdown") {
        Ok(MetadataFormat::Markdown)
    } else {
        Err(ErrorInfo::new("invalid_params", "Invalid metadata format; expected 'plain' or 'markdown'"))
    }
}

/// The priority a request gives: 0 where absent or not an integer; an
/// error where it does not fit an `i32`.
pub open spec fn priority_param(params: JsonValue) -> Parsed<i32> {
    match params.field("priority"@) {
        Some(v) => match v.signed() {
            Some(p) => if i32::MIN <= p <= i32::MAX {
                Ok(p as i32)
            } else {
                Err((invalid_params(), "Priority is out of range"@))
            },
            None => Ok(0i32),
        },
        None => Ok(0i32),
    }
}

/// The priority a request gives (see `priority_param`).
fn parse_priority(params: &JsonValue) -> (r: Result<i32, ErrorInfo>)
    ensures
        gives(r, priority_param(*params), |x: i32, v: i32| x == v),
{
    let p = match params.get("priority") {
        Some(v) => v.as_i64(),
        None => None,
    };
    match p {
        Some(p) => if -2147483648i64 <= p && p <= 2147483647i64 {
            Ok(p as i32)
        } else {
            Err(ErrorInfo::new("invalid_params", "Priority is out of range"))
        },
        None => Ok(0),
    }
}

/// The metadata item a report gives at the time `now`: `key` and `value`
/// are required; the label defaults to the key; key, label, value, icon,
/// color and URL are cut to 256, 256, 4096, 256, 64 and 2048 bytes.
pub open spec fn item_params(params: JsonValue, now: Timestamp) -> Parsed<MetadataItemView> {
    match params.text_field("key"@) {
        None => Err((invalid_params(), "Provide 'key'"@)),
        Some(key) => match params.text_field("value"@) {
            None => Err((invalid_params(), "Provide 'value'"@)),
            Some(value) => match priority_param(params) {
                Err(e) => Err(e),
                Ok(priority) => match metadata_format(params.field("format"@)) {
                    Err(e) => Err(e),
                    Ok(format) => Ok(
                        MetadataItemView {
                            key: truncate_chars(key, 256),
                            label: truncate_chars(
                                match params.text_field("label"@) {
                                    Some(l) => l,
                                    None => key,
                                },
                                256,
                            ),
                            value: truncate_chars(value, 4096),
                            icon: text_param(params, "icon"@, 256),
                            color: text_param(params, "color"@, 64),
                            url: text_param(params, "url"@, 2048),
                            priority,
                            format,
                            timestamp: now,
                        },
                    ),
                },
            },
        },
    }
}

/// The metadata item a report gives (see `item_params`).
pub fn parse_metadata_item(params: &JsonValue, now: Timestamp) -> (r: Result<MetadataItem, ErrorInfo>)
    ensures
        gives(r, item_params(*params, now), |x: MetadataItem, v: MetadataItemView| x@ == v),
{
    let key = match params.str_field("key") {
        Some(k) => k,
        None => {
            return Err(ErrorInfo::new("invalid_params", "Provide 'key'"));
        },
    };
    let value = match params.str_field("value") {
        Some(v) => v,
        None => {
            return Err(ErrorInfo::new("invalid_params", "Provide 'value'"));
        },
    };
    let label = match params.str_field("label") {
        Some(l) => l,
        None => key,
    };
    let priority = parse_priority(params)?;
    let format = parse_metadata_format(params.get("format"))?;
    Ok(
        MetadataItem {
            key: truncate_str(key, 256).to_owned(),
            label: truncate_str(label, 256).to_owned(),
            value: truncate_str(value, 4096).to_owned(),
            icon: opt_truncate(params.str_field("icon"), 256),
            color: opt_truncate(params.str_field("color"), 64),
            url: opt_truncate(params.str_field("url"), 2048),
            priority,
            format,
            timestamp: now,
        },
    )
}

/// The metadata block a report gives at the time `now`: `key` and
/// `content` are required; key, title, content and style are cut to 256,
/// 256, 8192 and 128 bytes.
pub open spec fn block_params(params: JsonValue, now: Timestamp) -> Parsed<MetadataBlockView> {
    match params.text_field("key"@) {
        None => Err((invalid_params(), "Provide 'key'"@)),
        Some(key) => match params.text_field("content"@) {
            None => Err((invalid_params(), "Provide 'content'"@)),
            Some(content) => match priority_param(params) {
                Err(e) => Err(e),
                Ok(priority) => match metadata_format(params.field("format"@)) {
                    Err(e) => Err(e),
                    Ok(format) => Ok(
                        MetadataBlockView {
                            key: truncate_chars(key, 256),
                            title: text_param(params, "title"@, 256),
                            content: truncate_chars(content, 8192),
                            style: text_param(params, "style"@, 128),
                            priority,
                            format,
                            timestamp: now,
                        },
                    ),
                },
            },
        },
    }
}

/// The metadata block a report gives (see `block_params`).
pub fn parse_metadata_block(params: &JsonValue, now: Timestamp) -> (r: Result<MetadataBlock, ErrorInfo>)
    ensures
        gives(r, block_params(*params, now), |x: MetadataBlock, v: MetadataBlockView| x@ == v),
{
    let key = match params.str_field("key") {
        Some(k) => k,
        None => {
            return Err(ErrorInfo::new("invalid_params", "Provide 'key'"));
        },
    };
    let content = match params.str_field("content") {
        Some(c) => c,
        None => {
            return Err(ErrorInfo::new("invalid_params", "Provide 'content'"));
        },
    };
    let priority = parse_priority(params)?;
    let format = parse_metadata_format(params.get("format"))?;
    Ok(
        MetadataBlock {
            key: truncate_str(key, 256).to_owned(),
            title: opt_truncate(params.str_field("title"), 256),
            content: truncate_str(content, 8192).to_owned(),
            style: opt_truncate(params.str_field("style"), 128),
            priority,
            format,
            timestamp: now,
        },
    )
}

/// The metadata key a clear request names: required, trimmed, not blank,
/// cut to 256 bytes.
pub open spec fn key_param(params: JsonValue) -> Parsed<Seq<char>> {
    match params.text_field("key"@) {
        None => Err((invalid_params(), "Provide 'key'"@)),
        Some(key) => if trim_chars(key).len() == 0 {
            Err((invalid_params(), "'key' must not be empty"@))
        } else {
            Ok(truncate_chars(trim_chars(key), 256))
        },
    }
}

/// The metadata key a clear request names (see `key_param`).
pub fn parse_metadata_key(params: &JsonValue) -> (r: Result<String, ErrorInfo>)
    ensures
        gives(r, key_param(*params), |x: String, v: Seq<char>| x@ == v),
{
    let key = match params.str_field("key") {
        Some(k) => k,
        None => {
            return Err(ErrorInfo::new("invalid_params", "Provide 'key'"));
        },
    };
    let key = trim(key);
    if key.unicode_len() == 0 {
        return Err(ErrorInfo::new("invalid_params", "'key' must not be empty"));
    }
    Ok(truncate_str(key, 256).to_owned())
}

/// The first error among the list's ports, if any: an element that is not
/// a non-negative integer, one above 65535, or 0.
pub open spec fn ports_error(v: Seq<JsonValue>) -> Option<Seq<char>>
    decreases v.len(),
{
    if v.len() == 0 {
        None
    } else {
        match v[0].unsigned() {
            None => Some("Ports must be integers"@),
            Some(n) => if n > 65535 {
                Some("Port is out of range"@)
            } else if n == 0 {
                Some("Port must be 1-65535"@)
            } else {
                ports_error(v.drop_first())
            },
        }
    }
}

/// The ports a report gives: `ports` must be an array of port numbers
/// (see `ports_error`).
pub open spec fn ports_param(params: JsonValue) -> Parsed<Seq<u16>> {
    match params.field("ports"@) {
        Some(JsonValue::Array(v)) => match ports_error(v@) {
            Some(message) => Err((invalid_params(), message)),
            None => Ok(v@.map_values(|x: JsonValue| x.unsigned()->0 as u16)),
        },
        _ => Err((invalid_params(), "Provide 'ports' as an array"@)),
    }
}

/// The ports a report gives (see `ports_param`).
pub fn parse_ports(params: &JsonValue) -> (r: Result<Vec<u16>, ErrorInfo>)
    ensures
        gives(r, ports_param(*params), |x: Vec<u16>, v: Seq<u16>| x@ == v),
{
    let raw = match params.get("ports") {
        Some(JsonValue::Array(v)) => v,
        _ => {
            return Err(ErrorInfo::new("invalid_params", "Provide 'ports' as an array"));
        },
    };
    let ghost rv = raw@;
    let mut ports: Vec<u16> = Vec::new();
    let mut i: usize = 0;
    proof {
        assert(rv.skip(0) =~= rv);
    }
    while i < raw.len()
        invariant
            rv == raw@,
            i <= rv.len(),
            ports_error(rv) == ports_error(rv.skip(i as int)),
            params.field("ports"@) == Some(JsonValue::Array(*raw)),
            ports@ == rv.take(i as int).map_values(|x: JsonValue| x.unsigned()->0 as u16),
        decreases raw.len() - i,
    {
        proof {
            assert(rv.skip(i as int)[0] == rv[i as int]);
            assert(rv.skip(i as int).drop_first() =~= rv.skip(i + 1));
        }
        let n = match raw[i].as_u64() {
            Some(n) => n,
            None => {
                return Err(ErrorInfo::new("invalid_params", "Ports must be integers"));
            },
        };
        if n > 65535 {
            return Err(ErrorInfo::new("invalid_params", "Port is out of range"));
        }
        if n == 0 {
            return Err(ErrorInfo::new("invalid_params", "Port must be 1-65535"));
        }
        ports.push(n as u16);
        proof {
            assert(ports@ =~= rv.take(i + 1).map_values(|x: JsonValue| x.unsigned()->0 as u16));
        }
        i = i + 1;
    }
    proof {
        assert(rv.take(rv.len() as int) =~= rv);
    }
    Ok(ports)
}

/// The shell state a report gives: `state` must be `prompt` or
/// `running`.
pub open spec fn shell_state_param(params: JsonValue) -> Parsed<ShellActivityState> {
    match params.text_field("state"@) {
        None => Err((invalid_params(), "Provide 'state'"@)),
        Some(s) => if s == "prompt"@ {
            Ok(ShellActivityState::Prompt)
        } else if s == "running"@ {
            Ok(ShellActivityState::Running)
        } else {
            Err((invalid_params(), "Invalid shell state; expected 'prompt' or 'running'"@))
        },
    }
}

/// The shell state a report gives (see `shell_state_param`).
pub fn parse_shell_state(params: &JsonValue) -> (r: Result<ShellActivityState, ErrorInfo>)
    ensures
        gives(r, shell_state_param(*params), |x: ShellActivityState, v: ShellActivityState| x == v),
{
    match params.str_field("state") {
        None => Err(ErrorInfo::new("invalid_params", "Provide 'state'")),
        Some(s) => if str_eq(s, "prompt") {
            Ok(ShellActivityState::Prompt)
        } else if str_eq(s, "running") {
            Ok(ShellActivityState::Running)
        } else {
            Err(ErrorInfo::new("invalid_params", "Invalid shell state; expected 'prompt' or 'running'"))
        },
    }
}


/// The keys of an object's members, in order (none for other values).
pub open spec fn keys(v: JsonValue) -> Seq<Seq<char>> {
    match v {
        JsonValue::Object(es) => es@.map_values(|e: (String, JsonValue)| e.0@),
        _ => Seq::empty(),
    }
}

/// The value of an object's member at the position.
pub open spec fn at(v: JsonValue, i: int) -> JsonValue {
    match v {
        JsonValue::Object(es) => es@[i].1,
        _ => JsonValue::Null,
    }
}

/// Whether a JSON value is the text, or null where there is none.
pub open spec fn is_opt_text(v: JsonValue, t: Option<Seq<char>>) -> bool {
    match t {
        Some(t) => v.text() == Some(t),
        None => v is Null,
    }
}

/// Whether a JSON value is the number, or null where there is none.
pub open spec fn is_opt_uint(v: JsonValue, n: Option<u64>) -> bool {
    match n {
        Some(n) => v == JsonValue::UInt(n),
        None => v is Null,
    }
}

/// Whether a JSON value is the text of the identity, or null where there
/// is none.
pub open spec fn is_opt_id(v: JsonValue, id: Option<Id>) -> bool {
    match id {
        Some(id) => v.text() == Some(spec_uuid_text(id)),
        None => v is Null,
    }
}

/// A string value.
pub fn js_text(t: &str) -> (v: JsonValue)
    ensures
        v.text() == Some(t@),
{
    JsonValue::Str(t.to_owned())
}

/// A string value, or null.
pub fn js_opt_text(t: &Option<String>) -> (v: JsonValue)
    ensures
        is_opt_text(v, t.deep_view()),
{
    match t {
        Some(t) => JsonValue::Str(t.clone()),
        None => JsonValue::Null,
    }
}

/// The text of an identity.
pub fn js_id(id: Id) -> (v: JsonValue)
    ensures
        v.text() == Some(spec_uuid_text(id)),
{
    JsonValue::Str(uuid_text(id))
}

/// The text of an identity, or null.
pub fn js_opt_id(id: Option<Id>) -> (v: JsonValue)
    ensures
        is_opt_id(v, id),
{
    match id {
        Some(id) => js_id(id),
        None => JsonValue::Null,
    }
}

/// A timestamp in seconds, held in millionths (microseconds beyond the
/// range of an `i64` read as its largest value).
pub fn js_timestamp(t: Timestamp) -> (v: JsonValue)
    ensures
        v == JsonValue::Float(if t <= i64::MAX as u64 { t as i64 } else { i64::MAX }),
{
    if t <= 9223372036854775807u64 {
        JsonValue::Float(t as i64)
    } else {
        JsonValue::Float(9223372036854775807i64)
    }
}

/// A member of an object.
pub fn member_of(key: &str, value: JsonValue) -> (e: (String, JsonValue))
    ensures
        e.0@ == key@,
        e.1 == value,
{
    (key.to_owned(), value)
}

/// `{"branch": .., "is_dirty": ..}`.
pub fn git_branch_json(branch: &GitBranch) -> (v: JsonValue)
    ensures
        keys(v) == seq!["branch"@, "is_dirty"@],
        at(v, 0).text() == Some(branch@.branch),
        at(v, 1) == JsonValue::Bool(branch@.is_dirty),
{
    let mut es: Vec<(String, JsonValue)> = Vec::new();
    es.push(member_of("branch", js_text(branch.branch.as_str())));
    es.push(member_of("is_dirty", JsonValue::Bool(branch.is_dirty)));
    let v = JsonValue::Object(es);
    proof {
        assert(keys(v) =~= seq!["branch"@, "is_dirty"@]);
    }
    v
}

/// The name of a shell state.
pub open spec fn shell_state_name(s: ShellActivityState) -> Seq<char> {
    match s {
        ShellActivityState::Prompt => "prompt"@,
        ShellActivityState::Running => "running"@,
    }
}

/// `{"state": "prompt" | "running", "label": ..}`.
pub fn shell_state_json(state: &ShellState) -> (v: JsonValue)
    ensures
        keys(v) == seq!["state"@, "label"@],
        at(v, 0).text() == Some(shell_state_name(state@.state)),
        is_opt_text(at(v, 1), state@.label),
{
    let name = match state.state {
        ShellActivityState::Prompt => "prompt",
        ShellActivityState::Running => "running",
    };
    let mut es: Vec<(String, JsonValue)> = Vec::new();
    es.push(member_of("state", js_text(name)));
    es.push(member_of("label", js_opt_text(&state.label)));
    let v = JsonValue::Object(es);
    proof {
        assert(keys(v) =~= seq!["state"@, "label"@]);
    }
    v
}

/// The name of a pull-request state.
pub open spec fn pr_state_name(s: PullRequestState) -> Seq<char> {
    match s {
        PullRequestState::Open => "open"@,
        PullRequestState::Merged => "merged"@,
        PullRequestState::Closed => "closed"@,
    }
}

/// The name of pull-request checks.
pub open spec fn pr_checks_name(c: PullRequestChecks) -> Seq<char> {
    match c {
        PullRequestChecks::Pass => "pass"@,
        PullRequestChecks::Fail => "fail"@,
        PullRequestChecks::Pending => "pending"@,
    }
}

/// `{"number", "url", "label", "title", "state", "branch", "checks"}`,
/// absent values as null.
/// Whether `v` is the JSON of the pull-request metadata (see
/// `pr_metadata_json`).
pub open spec fn is_pr_json(v: JsonValue, m: PullRequestView) -> bool {
    &&& keys(v) == seq!["number"@, "url"@, "label"@, "title"@, "state"@, "branch"@, "checks"@]
    &&& is_opt_uint(at(v, 0), match m.number { Some(n) => Some(n as u64), None => None })
    &&& is_opt_text(at(v, 1), m.url)
    &&& at(v, 2).text() == Some(m.label)
    &&& is_opt_text(at(v, 3), m.title)
    &&& at(v, 4).text() == Some(pr_state_name(m.state))
    &&& is_opt_text(at(v, 5), m.branch)
    &&& is_opt_text(at(v, 6), match m.checks { Some(c) => Some(pr_checks_name(c)), None => None })
}

pub fn pr_metadata_json(metadata: &PullRequestMetadata) -> (v: JsonValue)
    ensures
        is_pr_json(v, metadata@),
{
    let state = match metadata.state {
        PullRequestState::Open => "open",
        PullRequestState::Merged => "merged",
        PullRequestState::Closed => "closed",
    };
    let checks = match metadata.checks {
        Some(PullRequestChecks::Pass) => js_text("pass"),
        Some(PullRequestChecks::Fail) => js_text("fail"),
        Some(PullRequestChecks::Pending) => js_text("pending"),
        None => JsonValue::Null,
    };
    let number = match metadata.number {
        Some(n) => JsonValue::UInt(n as u64),
        None => JsonValue::Null,
    };
    let mut es: Vec<(String, JsonValue)> = Vec::new();
    es.push(member_of("number", number));
    es.push(member_of("url", js_opt_text(&metadata.url)));
    es.push(member_of("label", js_text(metadata.label.as_str())));
    es.push(member_of("title", js_opt_text(&metadata.title)));
    es.push(member_of("state", js_text(state)));
    es.push(member_of("branch", js_opt_text(&metadata.branch)));
    es.push(member_of("checks", checks));
    let v = JsonValue::Object(es);
    proof {
        assert(keys(v) =~= seq!["number"@, "url"@, "label"@, "title"@, "state"@, "branch"@, "checks"@]);
    }
    v
}

/// The name of a metadata format.
pub open spec fn format_name(f: MetadataFormat) -> Seq<char> {
    match f {
        MetadataFormat::Plain => "plain"@,
        MetadataFormat::Markdown => "markdown"@,
    }
}

/// `{"key", "label", "value", "icon", "color", "url", "priority",
/// "format", "timestamp"}`.
/// Whether `v` is the JSON of the metadata item (see
/// `metadata_item_json`).
pub open spec fn is_item_json(v: JsonValue, item: MetadataItemView) -> bool {
    &&& keys(v) == seq!["key"@, "label"@, "value"@, "icon"@, "color"@, "url"@, "priority"@, "format"@, "timestamp"@]
    &&& at(v, 0).text() == Some(item.key)
    &&& at(v, 1).text() == Some(item.label)
    &&& at(v, 2).text() == Some(item.value)
    &&& is_opt_text(at(v, 3), item.icon)
    &&& is_opt_text(at(v, 4), item.color)
    &&& is_opt_text(at(v, 5), item.url)
    &&& at(v, 6).signed() == Some(item.priority as i64)
    &&& at(v, 7).text() == Some(format_name(item.format))
    &&& at(v, 8) == JsonValue::Float(if item.timestamp <= i64::MAX as u64 { item.timestamp as i64 } else { i64::MAX })
}

pub fn metadata_item_json(item: &MetadataItem) -> (v: JsonValue)
    ensures
        is_item_json(v, item@),
{
    let priority = if item.priority >= 0 {
        JsonValue::UInt(item.priority as u64)
    } else {
        JsonValue::NegInt(item.priority as i64)
    };
    let format = match item.format {
        MetadataFormat::Plain => "plain",
        MetadataFormat::Markdown => "markdown",
    };
    let mut es: Vec<(String, JsonValue)> = Vec::new();
    es.push(member_of("key", js_text(item.key.as_str())));
    es.push(member_of("label", js_text(item.label.as_str())));
    es.push(member_of("value", js_text(item.value.as_str())));
    es.push(member_of("icon", js_opt_text(&item.icon)));
    es.push(member_of("color", js_opt_text(&item.color)));
    es.push(member_of("url", js_opt_text(&item.url)));
    es.push(member_of("priority", priority));
    es.push(member_of("format", js_text(format)));
    es.push(member_of("timestamp", js_timestamp(item.timestamp)));
    let v = JsonValue::Object(es);
    proof {
        assert(keys(v) =~= seq!["key"@, "label"@, "value"@, "icon"@, "color"@, "url"@, "priority"@, "format"@, "timestamp"@]);
    }
    v
}

/// `{"key", "title", "content", "style", "priority", "format",
/// "timestamp"}`.
/// Whether `v` is the JSON of the metadata block (see
/// `metadata_block_json`).
pub open spec fn is_block_json(v: JsonValue, block: MetadataBlockView) -> bool {
    &&& keys(v) == seq!["key"@, "title"@, "content"@, "style"@, "priority"@, "format"@, "timestamp"@]
    &&& at(v, 0).text() == Some(block.key)
    &&& is_opt_text(at(v, 1), block.title)
    &&& at(v, 2).text() == Some(block.content)
    &&& is_opt_text(at(v, 3), block.style)
    &&& at(v, 4).signed() == Some(block.priority as i64)
    &&& at(v, 5).text() == Some(format_name(block.format))
    &&& at(v, 6) == JsonValue::Float(if block.timestamp <= i64::MAX as u64 { block.timestamp as i64 } else { i64::MAX })
}

pub fn metadata_block_json(block: &MetadataBlock) -> (v: JsonValue)
    ensures
        is_block_json(v, block@),
{
    let priority = if block.priority >= 0 {
        JsonValue::UInt(block.priority as u64)
    } else {
        JsonValue::NegInt(block.priority as i64)
    };
    let format = match block.format {
        MetadataFormat::Plain => "plain",
        MetadataFormat::Markdown => "markdown",
    };
    let mut es: Vec<(String, JsonValue)> = Vec::new();
    es.push(member_of("key", js_text(block.key.as_str())));
    es.push(member_of("title", js_opt_text(&block.title)));
    es.push(member_of("content", js_text(block.content.as_str())));
    es.push(member_of("style", js_opt_text(&block.style)));
    es.push(member_of("priority", priority));
    es.push(member_of("format", js_text(format)));
    es.push(member_of("timestamp", js_timestamp(block.timestamp)));
    let v = JsonValue::Object(es);
    proof {
        assert(keys(v) =~= seq!["key"@, "title"@, "content"@, "style"@, "priority"@, "format"@, "timestamp"@]);
    }
    v
}

} // verus!

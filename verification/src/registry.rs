//! The registry of sessions: which servers are connected, under which id,
//! and the events that tell of every change.

use crate::error::{command_not_found_view, ErrorCategory, ErrorView, ProtocollieError};
use crate::json::{json_of, json_text, member_value, no_members, Json};
use crate::process::{
    id_after, is_one_line, optional_text, spawn_failure, ChildProbe, MCPProcess, Phase,
    ResponseWait, SessionView, WaitView,
};
use crate::rpc::{
    call_tool_message, call_tool_result, is_outcome, list_tools_message, list_tools_result,
    request_json, response_outcome, shown_error, tool_call_params, tool_outcome,
};
use crate::text::{concat2, concat3, contains_text, lemma_texts_push, str_equal, texts};
use vstd::prelude::*;
use vstd::string::*;

verus! {

/// The topic under which every change of a connection is announced.
pub const EVENT_CONNECTION_CHANGED: &'static str = "mcp://connection-changed";

/// A topic that is set aside and not announced under.
pub const EVENT_SERVER_CONNECTED: &'static str = "mcp://server-connected";

/// A topic that is set aside and not announced under.
pub const EVENT_SERVER_DISCONNECTED: &'static str = "mcp://server-disconnected";

/// A topic that is set aside and not announced under.
pub const EVENT_PROCESS_ERROR: &'static str = "mcp://process-error";

/// How long the answer to `tools/list` is waited for, in milliseconds.
pub const LIST_TOOLS_TIMEOUT_MS: u64 = 5000;

/// How long the answer to `tools/call` is waited for, in milliseconds.
pub const EXECUTE_TOOL_TIMEOUT_MS: u64 = 10000;

/// How long the child's standard error is harvested after a start that
/// failed, in milliseconds.
pub const START_FAILURE_HARVEST_MS: u64 = 1000;

/// How long to pause after a handshake that failed, before the child's
/// standard error is harvested, in milliseconds.
pub const HANDSHAKE_FAILURE_PAUSE_MS: u64 = 500;

/// How long the child's standard error is harvested after a handshake that
/// failed, in milliseconds.
pub const HANDSHAKE_FAILURE_HARVEST_MS: u64 = 2000;

/// An error with what the child wrote to its standard error as its details,
/// where it wrote anything.
pub open spec fn with_stderr(e: ErrorView, stderr: Option<Seq<char>>) -> ErrorView {
    match stderr {
        Some(text) => ErrorView { details: Some("Process stderr: "@ + text), ..e },
        None => e,
    }
}

/// The error of a connection that failed, with what was harvested of the
/// child's standard error in place of its details.
pub fn connection_failed(error: ProtocollieError, stderr: Option<String>) -> (e: ProtocollieError)
    ensures
        e@ == with_stderr(
            error@,
            match stderr {
                Some(text) => Some(text@),
                None => None,
            },
        ),
{
    match stderr {
        Some(text) => {
            let details = concat2("Process stderr: ", text.as_str());
            error.with_details(details.as_str())
        },
        None => error,
    }
}

/// The announcement of a change of one connection.
#[derive(Debug, Clone)]
pub struct ConnectionEvent {
    pub server_id: String,
    pub status: String,
    pub reason: Option<String>,
    pub timestamp: u64,
    pub command: Option<String>,
    pub args: Option<Vec<String>>,
}

/// What is known of one connection.
#[derive(Debug, Clone)]
pub struct ConnectionInfo {
    pub server_id: String,
    pub command: String,
    pub args: Vec<String>,
    pub status: String,
    pub connected_at: Option<u64>,
}

/// What an announcement holds.
pub struct EventView {
    pub server_id: Seq<char>,
    pub status: Seq<char>,
    pub reason: Option<Seq<char>>,
    pub timestamp: u64,
    pub command: Option<Seq<char>>,
    pub args: Option<Seq<Seq<char>>>,
}

/// What the record of a connection holds.
pub struct InfoView {
    pub server_id: Seq<char>,
    pub command: Seq<char>,
    pub args: Seq<Seq<char>>,
    pub status: Seq<char>,
    pub connected_at: Option<u64>,
}

impl View for ConnectionEvent {
    type V = EventView;

    open spec fn view(&self) -> EventView {
        EventView {
            server_id: self.server_id@,
            status: self.status@,
            reason: match self.reason {
                Some(r) => Some(r@),
                None => None,
            },
            timestamp: self.timestamp,
            command: match self.command {
                Some(c) => Some(c@),
                None => None,
            },
            args: match self.args {
                Some(a) => Some(texts(a@)),
                None => None,
            },
        }
    }
}

impl View for ConnectionInfo {
    type V = InfoView;

    open spec fn view(&self) -> InfoView {
        InfoView {
            server_id: self.server_id@,
            command: self.command@,
            args: texts(self.args@),
            status: self.status@,
            connected_at: self.connected_at,
        }
    }
}

/// The announcement that a server was connected at `now`, with the command
/// that runs it.
pub open spec fn connected_event(
    server_id: Seq<char>,
    command: Seq<char>,
    args: Seq<Seq<char>>,
    now: u64,
) -> EventView {
    EventView {
        server_id,
        status: "connected"@,
        reason: None,
        timestamp: now,
        command: Some(command),
        args: Some(args),
    }
}

/// The announcement that a server was disconnected at `now`, and why.
pub open spec fn disconnected_event(server_id: Seq<char>, reason: Seq<char>, now: u64)
    -> EventView {
    EventView {
        server_id,
        status: "disconnected"@,
        reason: Some(reason),
        timestamp: now,
        command: None,
        args: None,
    }
}

/// The record of a server that was connected at `now`.
pub open spec fn connected_info(
    server_id: Seq<char>,
    command: Seq<char>,
    args: Seq<Seq<char>>,
    now: u64,
) -> InfoView {
    InfoView { server_id, command, args, status: "connected"@, connected_at: Some(now) }
}

/// A copy of a vector of strings.
pub fn clone_strings(strings: &Vec<String>) -> (copy: Vec<String>)
    ensures
        texts(copy@) == texts(strings@),
        copy@.len() == strings@.len(),
{
    let mut copy: Vec<String> = Vec::new();
    let mut i: usize = 0;
    while i < strings.len()
        invariant
            i <= strings.len(),
            copy@.len() == i,
            texts(copy@) == texts(strings@.take(i as int)),
        decreases strings.len() - i,
    {
        let s = strings[i].clone();
        proof {
            lemma_texts_push(copy@, s);
            lemma_texts_push(strings@.take(i as int), strings@[i as int]);
            assert(strings@.take(i as int).push(strings@[i as int]) =~= strings@.take(i + 1));
        }
        copy.push(s);
        i += 1;
    }
    assert(strings@.take(strings.len() as int) =~= strings@);
    copy
}

impl ConnectionInfo {
    /// A copy of the record.
    pub fn duplicate(&self) -> (copy: Self)
        ensures
            copy@ == self@,
    {
        ConnectionInfo {
            server_id: self.server_id.clone(),
            command: self.command.clone(),
            args: clone_strings(&self.args),
            status: self.status.clone(),
            connected_at: self.connected_at,
        }
    }
}

impl ConnectionEvent {
    /// The announcement that `server_id` was connected.
    pub fn connected(server_id: &str, command: &str, args: &Vec<String>, now: u64) -> (event:
        Self)
        ensures
            event@ == connected_event(server_id@, command@, texts(args@), now),
    {
        ConnectionEvent {
            server_id: String::from_str(server_id),
            status: String::from_str("connected"),
            reason: None,
            timestamp: now,
            command: Some(String::from_str(command)),
            args: Some(clone_strings(args)),
        }
    }

    /// The announcement that `server_id` was disconnected, for `reason`.
    pub fn disconnected(server_id: &str, reason: &str, now: u64) -> (event: Self)
        ensures
            event@ == disconnected_event(server_id@, reason@, now),
    {
        ConnectionEvent {
            server_id: String::from_str(server_id),
            status: String::from_str("disconnected"),
            reason: Some(String::from_str(reason)),
            timestamp: now,
            command: None,
            args: None,
        }
    }
}

/// The error for a call to a server that is not connected.
pub open spec fn no_process_view(server_id: Seq<char>) -> ErrorView {
    ErrorView {
        category: ErrorCategory::Connection,
        code: "NO_PROCESS"@,
        message: "No active MCP process found for server "@ + server_id,
        details: None,
        suggestions: seq![
            "Ensure the server is connected"@,
            "Try connecting to the server first"@,
            "Check that the server ID is correct"@,
        ],
    }
}

/// The error for a call to a server whose child has exited.
pub open spec fn process_exited_view(server_id: Seq<char>) -> ErrorView {
    ErrorView {
        category: ErrorCategory::Connection,
        code: "PROCESS_EXITED"@,
        message: "MCP process for server "@ + server_id + " has exited"@,
        details: None,
        suggestions: seq![
            "Check server logs for errors"@,
            "Verify server configuration is correct"@,
            "Try reconnecting to the server"@,
        ],
    }
}

/// The error for a child of which it cannot be told whether it runs.
pub open spec fn status_check_failed_view(reason: Seq<char>) -> ErrorView {
    ErrorView {
        category: ErrorCategory::System,
        code: "STATUS_CHECK_FAILED"@,
        message: "Error checking MCP process status"@,
        details: Some(reason),
        suggestions: seq![
            "Try reconnecting to the server"@,
            "Restart the application if the issue persists"@,
        ],
    }
}

enum ToolCall {
    List,
    Run(String, serde_json::Value),
}

/// A call to a tool server.
pub enum Call {
    /// For the list of tools.
    List,
    /// Of the tool of this name, with these arguments.
    Run(Seq<char>, serde_json::Value),
}

impl View for ToolCall {
    type V = Call;

    closed spec fn view(&self) -> Call {
        match self {
            ToolCall::List => Call::List,
            ToolCall::Run(name, arguments) => Call::Run(name@, *arguments),
        }
    }
}

/// The request that a call sends.
pub open spec fn call_json(call: Call, id: u32) -> Json {
    match call {
        Call::List => request_json(id, "tools/list"@, Json::Object(no_members())),
        Call::Run(name, arguments) => request_json(
            id,
            "tools/call"@,
            tool_call_params(name, json_of(arguments)),
        ),
    }
}

/// How long the answer to a call is waited for, in milliseconds.
pub open spec fn call_timeout(call: Call) -> u64 {
    match call {
        Call::List => LIST_TOOLS_TIMEOUT_MS,
        Call::Run(_, _) => EXECUTE_TOOL_TIMEOUT_MS,
    }
}

/// Why a server is said to be disconnected when its child is found gone
/// during a call.
pub open spec fn exit_reason(call: Call) -> Seq<char> {
    match call {
        Call::List => "Process exited during tool listing"@,
        Call::Run(_, _) => "Process exited during tool execution"@,
    }
}

/// A request on its way: the line to write to the child, and the wait for
/// the answer.
pub struct Exchange {
    pub id: u32,
    pub line: String,
    pub wait: ResponseWait,
}

/// A call that ended before anything was written: the error, the
/// announcement to make if any, and whether the caller must kill and reap the
/// server's child.
pub struct CallFailure {
    pub error: ProtocollieError,
    pub event: Option<ConnectionEvent>,
    pub reap: bool,
}

/// How an exchange ended.
pub enum ExchangeEnd {
    /// With the answer.
    Answered(serde_json::Value),
    /// With the end of the child's output, and this error.
    Closed(ProtocollieError),
    /// With this error, the child's output still open.
    Failed(ProtocollieError),
}

/// What a call came to: its result, the announcement to make if any, and
/// whether the caller must kill and reap the server's child.
pub struct CallEnd<T> {
    pub result: Result<T, ProtocollieError>,
    pub event: Option<ConnectionEvent>,
    pub reap: bool,
}

/// The view of an optional announcement.
pub open spec fn optional_event(event: Option<ConnectionEvent>) -> Option<EventView> {
    match event {
        Some(e) => Some(e@),
        None => None,
    }
}

/// The connections once the session at `place` has given out one id.
pub open spec fn with_id_issued(entries: Seq<EntryView>, place: int) -> Seq<EntryView> {
    entries.update(
        place,
        EntryView {
            session: SessionView {
                next_id: id_after(entries[place].session.next_id),
                ..entries[place].session
            },
            ..entries[place]
        },
    )
}

/// What the beginning of a call to `server_id` comes to, when the server is
/// connected and its child runs: the registry with one more id given out,
/// and the exchange for the request with that id.
pub open spec fn call_begun(
    before: Seq<EntryView>,
    after: Seq<EntryView>,
    server_id: Seq<char>,
    call: Call,
    r: Result<Exchange, CallFailure>,
) -> bool {
    let place = place_of(before, server_id);
    let id = before[place].session.next_id;
    &&& after == with_id_issued(before, place)
    &&& r matches Ok(exchange)
    &&& exchange.id == id
    &&& exchange.wait@ == (WaitView {
        expected_id: id as u64,
        timeout_ms: call_timeout(call),
        lines: Seq::empty(),
    })
    &&& is_one_line(exchange.line@)
    &&& exists|message: serde_json::Value|
        json_of(message) == call_json(call, id) && exchange.line@ == #[trigger] json_text(message)
            + "\n"@
}

/// What the beginning of a call to `server_id` comes to. A server that is
/// not connected cannot be called. One whose child is gone is taken out of
/// the registry and announced as disconnected. Where it cannot be told
/// whether the child runs, the call fails and nothing changes. Otherwise
/// the request is on its way.
pub open spec fn call_start(
    before: Seq<EntryView>,
    after: Seq<EntryView>,
    server_id: Seq<char>,
    call: Call,
    probe: ChildProbe,
    now: u64,
    r: Result<Exchange, CallFailure>,
) -> bool {
    if !connected(before, server_id) {
        &&& after == before
        &&& r matches Err(failure)
        &&& failure.error@ == no_process_view(server_id)
        &&& failure.event is None
        &&& !failure.reap
    } else {
        match probe {
            ChildProbe::Running => call_begun(before, after, server_id, call, r),
            ChildProbe::Failed(reason) => {
                &&& after == before
                &&& r matches Err(failure)
                &&& failure.error@ == status_check_failed_view(reason@)
                &&& failure.event is None
                &&& !failure.reap
            },
            _ => {
                &&& after == without(before, server_id)
                &&& r matches Err(failure)
                &&& failure.error@ == process_exited_view(server_id)
                &&& optional_event(failure.event) == Some(
                    disconnected_event(server_id, exit_reason(call), now),
                )
                &&& failure.reap
            },
        }
    }
}

/// What the end of an exchange with `server_id` comes to, apart from the
/// result. The end of the child's output means that the child is gone: the
/// server is taken out of the registry and, where it was still connected,
/// announced as disconnected. Any other end changes nothing.
pub open spec fn call_closed(
    before: Seq<EntryView>,
    after: Seq<EntryView>,
    server_id: Seq<char>,
    reason: Seq<char>,
    end: ExchangeEnd,
    now: u64,
    event: Option<ConnectionEvent>,
    reap: bool,
) -> bool {
    match end {
        ExchangeEnd::Closed(_) => {
            &&& after == without(before, server_id)
            &&& reap == connected(before, server_id)
            &&& optional_event(event) == (if connected(before, server_id) {
                Some(disconnected_event(server_id, reason, now))
            } else {
                None
            })
        },
        _ => after == before && event is None && !reap,
    }
}

impl ToolCall {
    fn reason(&self) -> (r: &'static str)
        ensures
            r@ == exit_reason(self@),
    {
        match self {
            ToolCall::List => "Process exited during tool listing",
            ToolCall::Run(_, _) => "Process exited during tool execution",
        }
    }

    fn timeout_ms(&self) -> (ms: u64)
        ensures
            ms == call_timeout(self@),
    {
        match self {
            ToolCall::List => LIST_TOOLS_TIMEOUT_MS,
            ToolCall::Run(_, _) => EXECUTE_TOOL_TIMEOUT_MS,
        }
    }

    fn message(self, id: u32) -> (m: serde_json::Value)
        ensures
            json_of(m) == call_json(self@, id),
    {
        match self {
            ToolCall::List => list_tools_message(id),
            ToolCall::Run(name, arguments) => call_tool_message(id, name.as_str(), arguments),
        }
    }
}

fn no_process(server_id: &str) -> (e: ProtocollieError)
    ensures
        e@ == no_process_view(server_id@),
{
    let message = concat2("No active MCP process found for server ", server_id);
    let e = ProtocollieError::new(
        ErrorCategory::Connection,
        "NO_PROCESS",
        message.as_str(),
    ).with_suggestion("Ensure the server is connected").with_suggestion(
        "Try connecting to the server first",
    ).with_suggestion("Check that the server ID is correct");
    assert(e@.suggestions =~= no_process_view(server_id@).suggestions);
    e
}

fn process_exited(server_id: &str) -> (e: ProtocollieError)
    ensures
        e@ == process_exited_view(server_id@),
{
    let message = concat3("MCP process for server ", server_id, " has exited");
    let e = ProtocollieError::new(
        ErrorCategory::Connection,
        "PROCESS_EXITED",
        message.as_str(),
    ).with_suggestion("Check server logs for errors").with_suggestion(
        "Verify server configuration is correct",
    ).with_suggestion("Try reconnecting to the server");
    assert(e@.suggestions =~= process_exited_view(server_id@).suggestions);
    e
}

fn status_check_failed(reason: &str) -> (e: ProtocollieError)
    ensures
        e@ == status_check_failed_view(reason@),
{
    let e = ProtocollieError::new(
        ErrorCategory::System,
        "STATUS_CHECK_FAILED",
        "Error checking MCP process status",
    ).with_details(reason).with_suggestion("Try reconnecting to the server").with_suggestion(
        "Restart the application if the issue persists",
    );
    assert(e@.suggestions =~= status_check_failed_view(reason@).suggestions);
    e
}

struct Entry {
    info: ConnectionInfo,
    process: MCPProcess,
}

/// One connection as the registry holds it: its record and its session.
pub struct EntryView {
    pub info: InfoView,
    pub session: SessionView,
}

/// The registry of the servers that are connected.
pub struct ConnectionRegistry {
    entries: Vec<Entry>,
}

impl View for ConnectionRegistry {
    type V = Seq<EntryView>;

    closed spec fn view(&self) -> Seq<EntryView> {
        views(self.entries@)
    }
}

spec fn views(entries: Seq<Entry>) -> Seq<EntryView> {
    Seq::new(
        entries.len(),
        |i: int| EntryView { info: entries[i].info@, session: entries[i].process@ },
    )
}

/// A record and its session belong together: they bear the same id, the
/// record says `connected`, and the session is live.
pub open spec fn entry_ok(entry: EntryView) -> bool {
    &&& entry.info.server_id == entry.session.server_id
    &&& entry.info.status == "connected"@
    &&& entry.session.phase == Phase::Live
}

/// What holds of every registry: each record says `connected` and has a live
/// session under its id, and no id occurs twice.
pub open spec fn well_formed(entries: Seq<EntryView>) -> bool {
    &&& forall|i: int| 0 <= i < entries.len() ==> entry_ok(#[trigger] entries[i])
    &&& forall|i: int, j: int|
        0 <= i < j < entries.len() ==> entries[i].info.server_id != entries[j].info.server_id
}

/// Whether `entries` holds a connection under `server_id` at `i`.
pub open spec fn is_at(entries: Seq<EntryView>, server_id: Seq<char>, i: int) -> bool {
    0 <= i < entries.len() && entries[i].info.server_id == server_id
}

/// Whether a server is connected.
pub open spec fn connected(entries: Seq<EntryView>, server_id: Seq<char>) -> bool {
    exists|i: int| is_at(entries, server_id, i)
}

/// Where the connection of a server stands among the others.
pub open spec fn place_of(entries: Seq<EntryView>, server_id: Seq<char>) -> int {
    choose|i: int| is_at(entries, server_id, i)
}

/// The connections without that of `server_id`.
pub open spec fn without(entries: Seq<EntryView>, server_id: Seq<char>) -> Seq<EntryView> {
    if connected(entries, server_id) {
        entries.remove(place_of(entries, server_id))
    } else {
        entries
    }
}

/// Taking a connection out of a well-formed registry leaves a well-formed
/// registry in which that server is not connected, and every other server
/// is connected exactly if it was.
pub proof fn lemma_without(entries: Seq<EntryView>, server_id: Seq<char>)
    requires
        well_formed(entries),
    ensures
        well_formed(without(entries, server_id)),
        !connected(without(entries, server_id), server_id),
        forall|i: int|
            0 <= i < without(entries, server_id).len() ==> (#[trigger] without(
                entries,
                server_id,
            )[i]).info.server_id != server_id,
        forall|other: Seq<char>|
            other != server_id ==> (connected(without(entries, server_id), other) <==> connected(
                entries,
                other,
            )),
{
    let rest = without(entries, server_id);
    if connected(entries, server_id) {
        let p = place_of(entries, server_id);
        assert forall|i: int| 0 <= i < rest.len() implies entry_ok(#[trigger] rest[i]) by {
            if i < p {
                assert(rest[i] == entries[i]);
            } else {
                assert(rest[i] == entries[i + 1]);
            }
        }
        assert forall|i: int, j: int| 0 <= i < j < rest.len() implies rest[i].info.server_id
            != rest[j].info.server_id by {
            let a = if i < p {
                i
            } else {
                i + 1
            };
            let b = if j < p {
                j
            } else {
                j + 1
            };
            assert(rest[i] == entries[a]);
            assert(rest[j] == entries[b]);
        }
        assert forall|i: int| !is_at(rest, server_id, i) by {
            if 0 <= i < rest.len() {
                let a = if i < p {
                    i
                } else {
                    i + 1
                };
                assert(rest[i] == entries[a]);
            }
        }
        assert forall|i: int| 0 <= i < rest.len() implies (#[trigger] rest[i]).info.server_id
            != server_id by {
            assert(!is_at(rest, server_id, i));
        }
        assert forall|other: Seq<char>| other != server_id implies (connected(rest, other)
            <==> connected(entries, other)) by {
            if connected(rest, other) {
                let i = place_of(rest, other);
                let a = if i < p {
                    i
                } else {
                    i + 1
                };
                assert(rest[i] == entries[a]);
                assert(is_at(entries, other, a));
            }
            if connected(entries, other) {
                let a = place_of(entries, other);
                let i = if a < p {
                    a
                } else {
                    a - 1
                };
                assert(rest[i] == entries[a]);
                assert(is_at(rest, other, i));
            }
        }
    } else {
        assert forall|i: int| 0 <= i < rest.len() implies (#[trigger] rest[i]).info.server_id
            != server_id by {
            assert(!is_at(entries, server_id, i));
        }
    }
}

/// The connections once `entry` is entered in place of any earlier
/// connection under its id.
pub open spec fn with_connection(entries: Seq<EntryView>, entry: EntryView) -> Seq<EntryView> {
    without(entries, entry.info.server_id).push(entry)
}

/// Entering a connection in a well-formed registry leaves a well-formed
/// registry in which it stands last, and in which it is the only connection
/// under its id.
pub proof fn lemma_with_connection(entries: Seq<EntryView>, entry: EntryView)
    requires
        well_formed(entries),
        entry_ok(entry),
    ensures
        well_formed(with_connection(entries, entry)),
        connected(with_connection(entries, entry), entry.info.server_id),
        place_of(with_connection(entries, entry), entry.info.server_id) == with_connection(
            entries,
            entry,
        ).len() - 1,
        forall|i: int|
            is_at(with_connection(entries, entry), entry.info.server_id, i) ==> with_connection(
                entries,
                entry,
            )[i] == entry,
{
    let id = entry.info.server_id;
    let rest = without(entries, id);
    let after = with_connection(entries, entry);
    lemma_without(entries, id);
    assert forall|i: int| 0 <= i < after.len() implies entry_ok(#[trigger] after[i]) by {
        if i < rest.len() {
            assert(after[i] == rest[i]);
        }
    }
    assert forall|i: int, j: int| 0 <= i < j < after.len() implies after[i].info.server_id
        != after[j].info.server_id by {
        if j == rest.len() {
            assert(after[i] == rest[i]);
        } else {
            assert(after[i] == rest[i]);
            assert(after[j] == rest[j]);
        }
    }
    let last = after.len() - 1;
    assert(is_at(after, id, last));
    assert forall|i: int| is_at(after, id, i) implies after[i] == entry by {
        if i < rest.len() {
            assert(after[i] == rest[i]);
        }
    }
    let p = place_of(after, id);
    assert(is_at(after, id, p));
    if p < last {
        assert(after[p] == rest[p]);
    }
}

/// Connecting a server and then disconnecting it leaves the registry as it
/// is without that server: as it was before, where the server was not
/// connected before.
pub proof fn lemma_connect_then_disconnect(entries: Seq<EntryView>, entry: EntryView)
    requires
        well_formed(entries),
        entry_ok(entry),
    ensures
        without(with_connection(entries, entry), entry.info.server_id) == without(
            entries,
            entry.info.server_id,
        ),
        !connected(entries, entry.info.server_id) ==> without(
            with_connection(entries, entry),
            entry.info.server_id,
        ) == entries,
{
    let id = entry.info.server_id;
    let after = with_connection(entries, entry);
    lemma_with_connection(entries, entry);
    assert(after.remove(after.len() - 1) =~= without(entries, id));
}

/// Connecting a server twice leaves one connection under its id, the second:
/// the registry is as if the first had never been made.
pub proof fn lemma_connect_supersedes(entries: Seq<EntryView>, first: EntryView, second: EntryView)
    requires
        well_formed(entries),
        entry_ok(first),
        entry_ok(second),
        first.info.server_id == second.info.server_id,
    ensures
        with_connection(with_connection(entries, first), second) == with_connection(
            entries,
            second,
        ),
        forall|i: int|
            is_at(
                with_connection(with_connection(entries, first), second),
                second.info.server_id,
                i,
            ) ==> i == with_connection(entries, second).len() - 1 && with_connection(
                with_connection(entries, first),
                second,
            )[i] == second,
{
    lemma_connect_then_disconnect(entries, first);
    lemma_with_connection(entries, second);
    let after = with_connection(entries, second);
    assert forall|i: int| is_at(after, second.info.server_id, i) implies i == after.len() - 1 by {
        if i < after.len() - 1 {
            assert(after[i].info.server_id != after[after.len() - 1].info.server_id);
        }
    }
}

/// One change of a registry.
pub enum Change {
    /// A connection was entered, in place of any earlier one under its id.
    Connected(EntryView),
    /// The connection of this server was taken out: on request, or because
    /// its child was found gone.
    Disconnected(Seq<char>),
    /// A call to this server was begun while its child ran.
    Called(Seq<char>),
}

/// The connections after one change.
pub open spec fn after(entries: Seq<EntryView>, change: Change) -> Seq<EntryView> {
    match change {
        Change::Connected(entry) => with_connection(entries, entry),
        Change::Disconnected(server_id) => without(entries, server_id),
        Change::Called(server_id) => if connected(entries, server_id) {
            with_id_issued(entries, place_of(entries, server_id))
        } else {
            entries
        },
    }
}

/// The connections after a number of changes, one after the other.
pub open spec fn after_all(entries: Seq<EntryView>, changes: Seq<Change>) -> Seq<EntryView>
    decreases changes.len(),
{
    if changes.len() == 0 {
        entries
    } else {
        after(after_all(entries, changes.drop_last()), changes.last())
    }
}

/// What a change says of whether `server_id` is connected, if it says
/// anything.
pub open spec fn settles(change: Change, server_id: Seq<char>) -> Option<bool> {
    match change {
        Change::Connected(entry) => if entry.info.server_id == server_id {
            Some(true)
        } else {
            None
        },
        Change::Disconnected(id) => if id == server_id {
            Some(false)
        } else {
            None
        },
        Change::Called(_) => None,
    }
}

/// What the last change that says anything of `server_id` says of it.
pub open spec fn last_word(changes: Seq<Change>, server_id: Seq<char>) -> Option<bool>
    decreases changes.len(),
{
    if changes.len() == 0 {
        None
    } else {
        match settles(changes.last(), server_id) {
            Some(word) => Some(word),
            None => last_word(changes.drop_last(), server_id),
        }
    }
}

/// Whether every connection that a number of changes enter is a record with
/// its live session.
pub open spec fn enter_sound(changes: Seq<Change>) -> bool {
    forall|k: int|
        0 <= k < changes.len() ==> (#[trigger] changes[k] matches Change::Connected(entry)
            ==> entry_ok(entry))
}

/// One change leaves a well-formed registry well formed, and touches the
/// connection of no server but its own.
pub proof fn lemma_after(entries: Seq<EntryView>, change: Change, server_id: Seq<char>)
    requires
        well_formed(entries),
        change matches Change::Connected(entry) ==> entry_ok(entry),
    ensures
        well_formed(after(entries, change)),
        connected(after(entries, change), server_id) == (match settles(change, server_id) {
            Some(word) => word,
            None => connected(entries, server_id),
        }),
{
    let next = after(entries, change);
    match change {
        Change::Connected(entry) => {
            let id = entry.info.server_id;
            let rest = without(entries, id);
            lemma_without(entries, id);
            lemma_with_connection(entries, entry);
            if id != server_id {
                if connected(next, server_id) {
                    let i = place_of(next, server_id);
                    assert(is_at(next, server_id, i));
                    assert(next[i] == rest[i]);
                    assert(is_at(rest, server_id, i));
                }
                if connected(entries, server_id) {
                    let i = place_of(rest, server_id);
                    assert(is_at(rest, server_id, i));
                    assert(next[i] == rest[i]);
                    assert(is_at(next, server_id, i));
                }
            }
        },
        Change::Disconnected(id) => {
            lemma_without(entries, id);
        },
        Change::Called(id) => {
            if connected(entries, id) {
                let p = place_of(entries, id);
                assert(is_at(entries, id, p));
                assert forall|i: int| 0 <= i < next.len() implies entry_ok(#[trigger] next[i]) by {
                    if i != p {
                        assert(next[i] == entries[i]);
                    } else {
                        assert(entry_ok(entries[i]));
                    }
                }
                assert forall|i: int, j: int| 0 <= i < j < next.len() implies next[i].info.server_id
                    != next[j].info.server_id by {
                    assert(next[i].info.server_id == entries[i].info.server_id);
                    assert(next[j].info.server_id == entries[j].info.server_id);
                }
                if connected(next, server_id) {
                    let i = place_of(next, server_id);
                    assert(is_at(next, server_id, i));
                    assert(next[i].info.server_id == entries[i].info.server_id);
                    assert(is_at(entries, server_id, i));
                }
                if connected(entries, server_id) {
                    let i = place_of(entries, server_id);
                    assert(is_at(entries, server_id, i));
                    assert(next[i].info.server_id == entries[i].info.server_id);
                    assert(is_at(next, server_id, i));
                }
            }
        },
    }
}

/// Whatever the changes, the registry stays well formed and reports a
/// server as connected exactly if the last change that spoke of it was a
/// connection: a server that was disconnected after it was last connected is
/// never reported.
pub proof fn lemma_last_word_stands(
    entries: Seq<EntryView>,
    changes: Seq<Change>,
    server_id: Seq<char>,
)
    requires
        well_formed(entries),
        enter_sound(changes),
    ensures
        well_formed(after_all(entries, changes)),
        connected(after_all(entries, changes), server_id) == (match last_word(
            changes,
            server_id,
        ) {
            Some(word) => word,
            None => connected(entries, server_id),
        }),
    decreases changes.len(),
{
    if changes.len() > 0 {
        let earlier = changes.drop_last();
        assert forall|k: int| 0 <= k < earlier.len() implies (#[trigger] earlier[k]
            matches Change::Connected(entry) ==> entry_ok(entry)) by {
            assert(earlier[k] == changes[k]);
        }
        lemma_last_word_stands(entries, earlier, server_id);
        assert(changes.last() == changes[changes.len() - 1]);
        lemma_after(after_all(entries, earlier), changes.last(), server_id);
    }
}

/// A connect to a command that the system does not find fails with the
/// error that says so, when the child wrote nothing to its standard error.
pub proof fn lemma_missing_command_is_not_found(
    command: Seq<char>,
    reason: Seq<char>,
    lower: Seq<char>,
)
    requires
        contains_text(lower, "no such file"@) || contains_text(lower, "not found"@),
    ensures
        with_stderr(spawn_failure(command, reason, lower), None) == command_not_found_view(
            command,
        ),
        command_not_found_view(command).category == ErrorCategory::Command,
        command_not_found_view(command).code == "CMD_NOT_FOUND"@,
{
}

impl ConnectionRegistry {
    #[verifier::type_invariant]
    closed spec fn valid(self) -> bool {
        well_formed(self@)
    }

    /// A registry without connections.
    pub fn new() -> (registry: Self)
        ensures
            registry@ == Seq::<EntryView>::empty(),
    {
        let registry = ConnectionRegistry { entries: Vec::new() };
        assert(registry@ =~= Seq::<EntryView>::empty());
        registry
    }

    fn position(&self, server_id: &str) -> (r: Option<usize>)
        ensures
            match r {
                Some(i) => is_at(self@, server_id@, i as int) && place_of(self@, server_id@) == i,
                None => !connected(self@, server_id@),
            },
    {
        proof {
            use_type_invariant(self);
        }
        let mut i: usize = 0;
        while i < self.entries.len()
            invariant
                i <= self.entries.len(),
                forall|k: int| 0 <= k < i ==> !is_at(self@, server_id@, k),
            decreases self.entries.len() - i,
        {
            if str_equal(self.entries[i].info.server_id.as_str(), server_id) {
                proof {
                    use_type_invariant(self);
                    assert(is_at(self@, server_id@, i as int));
                    let p = place_of(self@, server_id@);
                    assert(is_at(self@, server_id@, p));
                    if p != i {
                        if p < i {
                            assert(self@[p].info.server_id != self@[i as int].info.server_id);
                        } else {
                            assert(self@[i as int].info.server_id != self@[p].info.server_id);
                        }
                    }
                }
                return Some(i);
            }
            i += 1;
        }
        None
    }

    /// The records of all connections, in the order in which they were made.
    pub fn get_connection_statuses(&self) -> (r: Result<Vec<ConnectionInfo>, String>)
        ensures
            r matches Ok(infos) && infos@.len() == self@.len() && forall|i: int|
                0 <= i < infos@.len() ==> (#[trigger] infos@[i])@ == self@[i].info,
            well_formed(self@),
    {
        proof {
            use_type_invariant(self);
        }
        let mut infos: Vec<ConnectionInfo> = Vec::new();
        let mut i: usize = 0;
        while i < self.entries.len()
            invariant
                i <= self.entries.len(),
                infos@.len() == i,
                forall|k: int| 0 <= k < i ==> (#[trigger] infos@[k])@ == self@[k].info,
            decreases self.entries.len() - i,
        {
            infos.push(self.entries[i].info.duplicate());
            i += 1;
        }
        Ok(infos)
    }

    /// Whether a server is connected.
    pub fn is_server_connected(&self, server_id: &str) -> (r: Result<bool, String>)
        ensures
            r == Ok::<bool, String>(connected(self@, server_id@)),
            well_formed(self@),
    {
        proof {
            use_type_invariant(self);
        }
        Ok(self.position(server_id).is_some())
    }

    /// Takes the connection of `server_id` out of the registry, without
    /// announcing it. Returns whether there was one, in which case the caller
    /// must kill and reap its child.
    pub fn disconnect_server_silent(&mut self, server_id: &str) -> (reap: bool)
        ensures
            final(self)@ == without(old(self)@, server_id@),
            reap == connected(old(self)@, server_id@),
            well_formed(old(self)@),
            well_formed(final(self)@),
    {
        proof {
            use_type_invariant(&*self);
            lemma_without(self@, server_id@);
        }
        match self.position(server_id) {
            Some(i) => {
                let mut entries: Vec<Entry> = Vec::new();
                assert(views(entries@) =~= Seq::<EntryView>::empty());
                core::mem::swap(&mut self.entries, &mut entries);
                let mut entry = entries.remove(i);
                assert(views(entries@) =~= old(self)@.remove(i as int));
                entry.process.stop();
                self.entries = entries;
                true
            },
            None => false,
        }
    }

    /// Takes the connection of `server_id` out of the registry and returns
    /// the announcement of it, which is made whether or not the server was
    /// connected. Also returns whether it was, in which case the caller must
    /// kill and reap its child.
    pub fn disconnect_server(&mut self, server_id: &str, now: u64) -> (r: (bool, ConnectionEvent))
        ensures
            final(self)@ == without(old(self)@, server_id@),
            r.0 == connected(old(self)@, server_id@),
            r.1@ == disconnected_event(server_id@, "User requested disconnection"@, now),
            !connected(final(self)@, server_id@),
            forall|i: int|
                0 <= i < final(self)@.len() ==> (#[trigger] final(self)@[i]).info.server_id
                    != server_id@,
            well_formed(old(self)@),
            well_formed(final(self)@),
    {
        proof {
            use_type_invariant(&*self);
            lemma_without(self@, server_id@);
        }
        let reap = self.disconnect_server_silent(server_id);
        (reap, ConnectionEvent::disconnected(server_id, "User requested disconnection", now))
    }

    /// Enters a session that was started and has shaken hands as the
    /// connection of `server_id`, in place of any earlier one, and returns
    /// the announcement of it. The earlier one goes without announcement;
    /// the first part of the result says whether there was one, in which
    /// case the caller must kill and reap its child.
    pub fn connect_server(
        &mut self,
        server_id: String,
        command: String,
        args: Vec<String>,
        process: MCPProcess,
        now: u64,
    ) -> (r: (bool, ConnectionEvent))
        requires
            process@.phase == Phase::Live,
            process@.server_id == server_id@,
        ensures
            final(self)@ == with_connection(
                old(self)@,
                EntryView {
                    info: connected_info(server_id@, command@, texts(args@), now),
                    session: process@,
                },
            ),
            r.0 == connected(old(self)@, server_id@),
            r.1@ == connected_event(server_id@, command@, texts(args@), now),
            well_formed(old(self)@),
            well_formed(final(self)@),
    {
        proof {
            use_type_invariant(&*self);
            lemma_without(self@, server_id@);
        }
        let reap = self.disconnect_server_silent(server_id.as_str());
        let event = ConnectionEvent::connected(server_id.as_str(), command.as_str(), &args, now);
        let info = ConnectionInfo {
            server_id,
            command,
            args,
            status: String::from_str("connected"),
            connected_at: Some(now),
        };
        let ghost before = self@;
        let ghost added = EntryView { info: info@, session: process@ };
        let mut entries: Vec<Entry> = Vec::new();
        assert(views(entries@) =~= Seq::<EntryView>::empty());
        core::mem::swap(&mut self.entries, &mut entries);
        entries.push(Entry { info, process });
        proof {
            assert(views(entries@) =~= before.push(added));
            let after = before.push(added);
            assert forall|i: int| 0 <= i < after.len() implies entry_ok(#[trigger] after[i]) by {
                if i < before.len() {
                    assert(after[i] == before[i]);
                }
            }
            assert forall|i: int, j: int| 0 <= i < j < after.len() implies after[i].info.server_id
                != after[j].info.server_id by {
                if j == before.len() {
                    assert(!is_at(before, added.info.server_id, i));
                }
            }
        }
        self.entries = entries;
        (reap, event)
    }

    /// Ends a connect of `server_id`, given what came of starting the
    /// session and shaking hands: the session, or the error together with
    /// what was harvested of the child's standard error.
    ///
    /// A session that came through is entered as the connection of
    /// `server_id`, and the announcement of it is returned. An attempt that
    /// failed leaves neither a record nor a session under `server_id`,
    /// announces nothing, and returns the error with the harvest as its
    /// details. Either way an earlier connection under the id is gone, and
    /// `reap` says whether there was one whose child the caller must kill and
    /// reap.
    pub fn finish_connect(
        &mut self,
        server_id: String,
        command: String,
        args: Vec<String>,
        attempt: Result<MCPProcess, (ProtocollieError, Option<String>)>,
        now: u64,
    ) -> (r: CallEnd<()>)
        requires
            attempt matches Ok(process) ==> process@.phase == Phase::Live && process@.server_id
                == server_id@,
        ensures
            r.reap == connected(old(self)@, server_id@),
            match attempt {
                Ok(process) => {
                    &&& final(self)@ == with_connection(
                        old(self)@,
                        EntryView {
                            info: connected_info(server_id@, command@, texts(args@), now),
                            session: process@,
                        },
                    )
                    &&& r.result is Ok
                    &&& optional_event(r.event) == Some(
                        connected_event(server_id@, command@, texts(args@), now),
                    )
                },
                Err(failed) => {
                    &&& final(self)@ == without(old(self)@, server_id@)
                    &&& !connected(final(self)@, server_id@)
                    &&& r.result matches Err(e)
                    &&& e@ == with_stderr(failed.0@, optional_text(failed.1))
                    &&& r.event is None
                },
            },
            well_formed(old(self)@),
            well_formed(final(self)@),
    {
        proof {
            use_type_invariant(&*self);
            lemma_without(self@, server_id@);
        }
        match attempt {
            Ok(process) => {
                let (reap, event) = self.connect_server(server_id, command, args, process, now);
                CallEnd { result: Ok(()), event: Some(event), reap }
            },
            Err((error, stderr)) => {
                let reap = self.disconnect_server_silent(server_id.as_str());
                CallEnd { result: Err(connection_failed(error, stderr)), event: None, reap }
            },
        }
    }

    fn begin_call(&mut self, server_id: &str, call: ToolCall, probe: ChildProbe, now: u64) -> (r:
        Result<Exchange, CallFailure>)
        ensures
            call_start(old(self)@, final(self)@, server_id@, call@, probe, now, r),
            well_formed(old(self)@),
            well_formed(final(self)@),
    {
        proof {
            use_type_invariant(&*self);
            lemma_without(self@, server_id@);
        }
        let place = match self.position(server_id) {
            Some(place) => place,
            None => {
                return Err(CallFailure { error: no_process(server_id), event: None, reap: false });
            },
        };
        match probe {
            ChildProbe::Running => {},
            ChildProbe::Failed(reason) => {
                return Err(
                    CallFailure {
                        error: status_check_failed(reason.as_str()),
                        event: None,
                        reap: false,
                    },
                );
            },
            _ => {
                let event = ConnectionEvent::disconnected(server_id, call.reason(), now);
                self.disconnect_server_silent(server_id);
                return Err(
                    CallFailure {
                        error: process_exited(server_id),
                        event: Some(event),
                        reap: true,
                    },
                );
            },
        }
        let ghost before = self@;
        let mut entries: Vec<Entry> = Vec::new();
        assert(views(entries@) =~= Seq::<EntryView>::empty());
        core::mem::swap(&mut self.entries, &mut entries);
        let mut entry = entries.remove(place);
        let id = entry.process.next_message_id();
        let timeout_ms = call.timeout_ms();
        let message = call.message(id);
        let sent = entry.process.send_message_sync(message);
        let waited = entry.process.read_response(id as u64, timeout_ms);
        entries.insert(place, entry);
        proof {
            let after = with_id_issued(before, place as int);
            assert(views(entries@) =~= after);
            assert forall|i: int| 0 <= i < after.len() implies entry_ok(#[trigger] after[i]) by {
                if i != place {
                    assert(after[i] == before[i]);
                } else {
                    assert(entry_ok(before[i]));
                }
            }
            assert forall|i: int, j: int| 0 <= i < j < after.len() implies after[i].info.server_id
                != after[j].info.server_id by {
                assert(after[i].info.server_id == before[i].info.server_id);
                assert(after[j].info.server_id == before[j].info.server_id);
            }
        }
        self.entries = entries;
        match sent {
            Ok(line) => match waited {
                Ok(wait) => Ok(Exchange { id, line, wait }),
                Err(error) => Err(CallFailure { error, event: None, reap: false }),
            },
            Err(error) => Err(CallFailure { error, event: None, reap: false }),
        }
    }

    fn end_call(&mut self, server_id: &str, reason: &str, end: &ExchangeEnd, now: u64) -> (r: (
        Option<ConnectionEvent>,
        bool,
    ))
        ensures
            call_closed(old(self)@, final(self)@, server_id@, reason@, *end, now, r.0, r.1),
            well_formed(old(self)@),
            well_formed(final(self)@),
    {
        proof {
            use_type_invariant(&*self);
        }
        match end {
            ExchangeEnd::Closed(_) => {
                if self.disconnect_server_silent(server_id) {
                    (Some(ConnectionEvent::disconnected(server_id, reason, now)), true)
                } else {
                    (None, false)
                }
            },
            _ => (None, false),
        }
    }

    /// Begins a call for the list of tools of `server_id`, given what the
    /// operating system said of its child.
    pub fn list_tools(&mut self, server_id: &str, probe: ChildProbe, now: u64) -> (r: Result<
        Exchange,
        CallFailure,
    >)
        ensures
            call_start(old(self)@, final(self)@, server_id@, Call::List, probe, now, r),
            well_formed(old(self)@),
            well_formed(final(self)@),
    {
        self.begin_call(server_id, ToolCall::List, probe, now)
    }

    /// Ends a call for the list of tools of `server_id`: the result that the
    /// answer holds, or the error that the exchange ended with.
    pub fn finish_list_tools(&mut self, server_id: &str, end: ExchangeEnd, now: u64) -> (r: CallEnd<
        serde_json::Value,
    >)
        ensures
            call_closed(
                old(self)@,
                final(self)@,
                server_id@,
                exit_reason(Call::List),
                end,
                now,
                r.event,
                r.reap,
            ),
            match end {
                ExchangeEnd::Answered(response) => is_outcome(
                    r.result,
                    response_outcome(member_value(response, "result"@), shown_error(response)),
                ),
                ExchangeEnd::Closed(error) => r.result == Err::<
                    serde_json::Value,
                    ProtocollieError,
                >(error),
                ExchangeEnd::Failed(error) => r.result == Err::<
                    serde_json::Value,
                    ProtocollieError,
                >(error),
            },
            well_formed(old(self)@),
            well_formed(final(self)@),
    {
        let (event, reap) = self.end_call(
            server_id,
            "Process exited during tool listing",
            &end,
            now,
        );
        let result = match end {
            ExchangeEnd::Answered(response) => list_tools_result(&response),
            ExchangeEnd::Failed(error) => Err(error),
            ExchangeEnd::Closed(error) => Err(error),
        };
        CallEnd { result, event, reap }
    }

    /// Begins a call of the tool `tool_name` of `server_id` with
    /// `arguments`, given what the operating system said of its child.
    pub fn execute_tool(
        &mut self,
        server_id: &str,
        tool_name: &str,
        arguments: serde_json::Value,
        probe: ChildProbe,
        now: u64,
    ) -> (r: Result<Exchange, CallFailure>)
        ensures
            call_start(
                old(self)@,
                final(self)@,
                server_id@,
                Call::Run(tool_name@, arguments),
                probe,
                now,
                r,
            ),
            well_formed(old(self)@),
            well_formed(final(self)@),
    {
        let name = String::from_str(tool_name);
        self.begin_call(server_id, ToolCall::Run(name, arguments), probe, now)
    }

    /// Ends a call of the tool `tool_name` of `server_id`, which took
    /// `duration_ms` milliseconds from just before the request was written:
    /// the result that the answer holds, with that time, or the error that
    /// the exchange ended with.
    pub fn finish_execute_tool(
        &mut self,
        server_id: &str,
        tool_name: &str,
        end: ExchangeEnd,
        duration_ms: u64,
        now: u64,
    ) -> (r: CallEnd<(serde_json::Value, u64)>)
        ensures
            call_closed(
                old(self)@,
                final(self)@,
                server_id@,
                "Process exited during tool execution"@,
                end,
                now,
                r.event,
                r.reap,
            ),
            match end {
                ExchangeEnd::Answered(response) => is_outcome(
                    r.result,
                    tool_outcome(
                        tool_name@,
                        member_value(response, "result"@),
                        shown_error(response),
                        duration_ms,
                    ),
                ),
                ExchangeEnd::Closed(error) => r.result == Err::<
                    (serde_json::Value, u64),
                    ProtocollieError,
                >(error),
                ExchangeEnd::Failed(error) => r.result == Err::<
                    (serde_json::Value, u64),
                    ProtocollieError,
                >(error),
            },
            well_formed(old(self)@),
            well_formed(final(self)@),
    {
        let (event, reap) = self.end_call(
            server_id,
            "Process exited during tool execution",
            &end,
            now,
        );
        let result = match end {
            ExchangeEnd::Answered(response) => call_tool_result(tool_name, &response, duration_ms),
            ExchangeEnd::Failed(error) => Err(error),
            ExchangeEnd::Closed(error) => Err(error),
        };
        CallEnd { result, event, reap }
    }

    /// Says whether the child of `server_id` runs, given what the operating
    /// system said of it. A connected server whose child is not known to run
    /// is taken out of the registry, without announcement; the second part
    /// of the result says so, and the caller must then kill and reap the
    /// child. A server that is not connected has no child that runs.
    pub fn check_server(&mut self, server_id: &str, probe: ChildProbe) -> (r: (bool, bool))
        ensures
            r.0 == (connected(old(self)@, server_id@) && probe is Running),
            r.1 == (connected(old(self)@, server_id@) && !(probe is Running)),
            final(self)@ == (if probe is Running {
                old(self)@
            } else {
                without(old(self)@, server_id@)
            }),
            well_formed(old(self)@),
            well_formed(final(self)@),
    {
        proof {
            use_type_invariant(&*self);
        }
        match probe {
            ChildProbe::Running => (self.position(server_id).is_some(), false),
            _ => (false, self.disconnect_server_silent(server_id)),
        }
    }
}

impl Default for ConnectionRegistry {
    /// A registry without connections.
    fn default() -> (registry: Self)
        ensures
            registry@ == Seq::<EntryView>::empty(),
    {
        Self::new()
    }
}

} // verus!

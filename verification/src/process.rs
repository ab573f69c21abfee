//! One session with a server: its life cycle, its message ids, the requests
//! it has in flight, and what each answer of the outside world means for it.
//!
//! The session holds no pipe and no child. Its caller spawns, writes, reads
//! and reaps, and hands in what came of it; the session decides.

use crate::error::{
    command_not_found_view, connection_timeout_view, permission_denied_view, ErrorCategory,
    ErrorView, ProtocollieError,
};
use crate::json::{
    bool_value, describe_json_error, insert_member, json_of, json_parsed, json_text, member,
    new_members, no_members, object_value, parse_value, serialize_value, text_value, Json,
};
use crate::rpc::{
    answers, initialize_message, initialize_params, initialized_message, notification_json,
    request_json, response_id,
};
use crate::text::{
    chars_hold, chars_of, concat2, concat3, concat5, contains_text, decimal, join, joined,
    lemma_texts_push, lowercase, starts_with_text, str_equal, str_starts_with, texts,
    to_lowercase, trim, trimmed, u64_to_string,
};
use std::collections::HashMap;
use vstd::prelude::*;
use vstd::string::*;

verus! {

broadcast use vstd::std_specs::hash::group_hash_axioms;

#[verifier::external_type_specification]
#[verifier::external_body]
pub struct ExInstant(std::time::Instant);

/// `Instant::now`: the reading of the monotonic clock at the call. Nothing is
/// claimed of it.
#[verifier::external_body]
fn now() -> (r: std::time::Instant) {
    std::time::Instant::now()
}

/// `Clone` of `Instant`: the same reading of the clock.
pub assume_specification[ <std::time::Instant as Clone>::clone ](
    instant: &std::time::Instant,
) -> (r: std::time::Instant)
    ensures
        r == *instant,
;

/// A request that was sent and not yet answered.
#[derive(Debug, Clone)]
pub struct PendingRequest {
    pub message_id: u32,
    pub method: String,
    pub timestamp: std::time::Instant,
}

/// Where a session stands in its life.
#[derive(Debug, Clone, Copy, PartialEq, Eq, Structural)]
pub enum Phase {
    /// Not started: there is no child and no pipe.
    Quiescent,
    /// Started: the child runs, or ran, with its three pipes captured.
    Live,
    /// Stopped, for good.
    Terminated,
}

/// What the operating system said when asked, without waiting, whether the
/// child still runs.
#[derive(Debug, Clone)]
pub enum ChildProbe {
    /// The caller holds no child to ask about.
    NoChild,
    /// The child runs.
    Running,
    /// The child has exited, with this status.
    Exited(String),
    /// The question failed, for this reason.
    Failed(String),
}

/// The session with one server.
pub struct MCPProcess {
    server_id: String,
    phase: Phase,
    stderr_drain: bool,
    message_counter: u32,
    pending_requests: HashMap<u32, PendingRequest>,
}

/// What a session holds.
pub struct SessionView {
    pub server_id: Seq<char>,
    pub phase: Phase,
    /// Whether a drain of the child's standard error was set up.
    pub stderr_drain: bool,
    /// The id that the next request gets.
    pub next_id: u32,
    /// The requests in flight, by id.
    pub pending: Map<u32, PendingRequest>,
}

impl View for MCPProcess {
    type V = SessionView;

    closed spec fn view(&self) -> SessionView {
        SessionView {
            server_id: self.server_id@,
            phase: self.phase,
            stderr_drain: self.stderr_drain,
            next_id: self.message_counter,
            pending: self.pending_requests@,
        }
    }
}

/// The id after `id`: ids count up and start again at 0 after the last one.
pub open spec fn id_after(id: u32) -> u32 {
    if id == u32::MAX {
        0
    } else {
        (id + 1) as u32
    }
}

/// Every request in flight has an id that was given out before, as long as
/// the ids have not started again at 0.
pub open spec fn pending_were_issued(s: SessionView) -> bool {
    forall|id: u32| s.pending.contains_key(id) ==> id < s.next_id
}

/// Whether a session holds a child, which is so while it is live.
pub open spec fn holds_child(s: SessionView) -> bool {
    s.phase == Phase::Live
}

/// A session once it is stopped.
pub open spec fn stopped(s: SessionView) -> SessionView {
    SessionView { phase: Phase::Terminated, ..s }
}

/// Stopping a session twice is stopping it once: the second stop finds no
/// child to reap and leaves the session as the first one left it. A stop
/// touches neither the ids nor the requests in flight.
pub proof fn lemma_stop_is_idempotent(s: SessionView)
    ensures
        !holds_child(stopped(s)),
        stopped(stopped(s)) == stopped(s),
        stopped(s).next_id == s.next_id,
        stopped(s).pending == s.pending,
        pending_were_issued(s) ==> pending_were_issued(stopped(s)),
{
}

/// The `n`-th id that is given out after `first`, which is the 0-th.
pub open spec fn nth_id(first: u32, n: nat) -> u32
    decreases n,
{
    if n == 0 {
        first
    } else {
        id_after(nth_id(first, (n - 1) as nat))
    }
}

/// As long as the ids have not started again at 0, the `n`-th id after
/// `first` is `first + n`.
pub proof fn lemma_nth_id(first: u32, n: nat)
    requires
        first + n <= u32::MAX,
    ensures
        nth_id(first, n) == first + n,
    decreases n,
{
    if n > 0 {
        lemma_nth_id(first, (n - 1) as nat);
    }
}

/// Ids rise strictly, so that no id is given out twice, as long as they have
/// not started again at 0: of two ids given out by one session, the later
/// one is the greater.
pub proof fn lemma_ids_rise(first: u32, earlier: nat, later: nat)
    requires
        earlier < later,
        first + later <= u32::MAX,
    ensures
        nth_id(first, earlier) < nth_id(first, later),
{
    lemma_nth_id(first, earlier);
    lemma_nth_id(first, later);
}

/// A session that gives out an id and notes it as in flight still has only
/// ids in flight that were given out, unless the id was the last one before
/// the ids start again at 0.
pub proof fn lemma_issued_then_tracked(s: SessionView, after: SessionView)
    requires
        pending_were_issued(s),
        s.next_id < u32::MAX,
        after.next_id == id_after(s.next_id),
        after.pending.dom() == s.pending.dom().insert(s.next_id),
    ensures
        pending_were_issued(after),
{
    assert forall|id: u32| after.pending.contains_key(id) implies id < after.next_id by {
        if id != s.next_id {
            assert(s.pending.contains_key(id));
        }
    }
}

/// Whether the child of a session runs, or why that cannot be told.
pub open spec fn process_status(phase: Phase, probe: ChildProbe) -> Result<bool, String> {
    if phase == Phase::Live {
        match probe {
            ChildProbe::Running => Ok(true),
            ChildProbe::Exited(_) => Ok(false),
            ChildProbe::NoChild => Ok(false),
            ChildProbe::Failed(reason) => Err(reason),
        }
    } else {
        Ok(false)
    }
}

impl MCPProcess {
    /// A session that has not been started, with no request in flight and 0
    /// as its first id.
    pub fn new(server_id: String) -> (s: Self)
        ensures
            s@ == (SessionView {
                server_id: server_id@,
                phase: Phase::Quiescent,
                stderr_drain: false,
                next_id: 0,
                pending: Map::empty(),
            }),
            pending_were_issued(s@),
    {
        Self {
            server_id,
            phase: Phase::Quiescent,
            stderr_drain: false,
            message_counter: 0,
            pending_requests: HashMap::new(),
        }
    }

    /// The id of the server this session is with.
    pub fn server_id(&self) -> (id: &str)
        ensures
            id@ == self@.server_id,
    {
        self.server_id.as_str()
    }

    /// Where the session stands in its life.
    pub fn phase(&self) -> (p: Phase)
        ensures
            p == self@.phase,
    {
        self.phase
    }

    /// Whether the session is started and not stopped.
    pub fn is_live(&self) -> (b: bool)
        ensures
            b == (self@.phase == Phase::Live),
    {
        match self.phase {
            Phase::Live => true,
            _ => false,
        }
    }

    /// How many requests are in flight.
    pub fn pending_count(&self) -> (n: usize)
        ensures
            n == self@.pending.len(),
    {
        self.pending_requests.len()
    }

    /// Whether a request with this id is in flight.
    pub fn is_pending(&self, message_id: u32) -> (b: bool)
        ensures
            b == self@.pending.contains_key(message_id),
    {
        self.pending_requests.contains_key(&message_id)
    }

    /// Gives out the next message id. Ids count up from 0 by one; after
    /// 4294967295 they start again at 0.
    pub fn next_message_id(&mut self) -> (id: u32)
        ensures
            id == old(self)@.next_id,
            final(self)@ == (SessionView { next_id: id_after(id), ..old(self)@ }),
            pending_were_issued(old(self)@) && id < u32::MAX ==> pending_were_issued(
                final(self)@,
            ),
    {
        let id = self.message_counter;
        self.message_counter = id.wrapping_add(1);
        id
    }

    /// Notes that the request `message_id` was sent, in place of any earlier
    /// note under the same id.
    pub fn track_request(&mut self, message_id: u32, method: &str)
        ensures
            final(self)@.pending.dom() == old(self)@.pending.dom().insert(message_id),
            final(self)@.pending[message_id].message_id == message_id,
            final(self)@.pending[message_id].method@ == method@,
            forall|id: u32|
                id != message_id && old(self)@.pending.contains_key(id)
                    ==> final(self)@.pending[id] == old(self)@.pending[id],
            final(self)@ == (SessionView { pending: final(self)@.pending, ..old(self)@ }),
            pending_were_issued(old(self)@) && message_id < old(self)@.next_id
                ==> pending_were_issued(final(self)@),
    {
        let request = PendingRequest {
            message_id,
            method: String::from_str(method),
            timestamp: now(),
        };
        self.pending_requests.insert(message_id, request);
        proof {
            if pending_were_issued(old(self)@) && message_id < old(self)@.next_id {
                assert forall|id: u32| self@.pending.contains_key(id) implies id
                    < self@.next_id by {
                    if id != message_id {
                        assert(old(self)@.pending.contains_key(id));
                    }
                }
            }
        }
    }

    /// Takes the request `message_id` out of those in flight and returns it,
    /// where there is one.
    pub fn complete_request(&mut self, message_id: u32) -> (r: Option<PendingRequest>)
        ensures
            final(self)@ == (SessionView {
                pending: old(self)@.pending.remove(message_id),
                ..old(self)@
            }),
            match r {
                Some(request) => old(self)@.pending.contains_key(message_id) && request == old(
                    self,
                )@.pending[message_id],
                None => !old(self)@.pending.contains_key(message_id),
            },
            pending_were_issued(old(self)@) ==> pending_were_issued(final(self)@),
    {
        self.pending_requests.remove(&message_id)
    }

    /// Whether the child still runs, given what the operating system said.
    /// A session that is not live has no child that could run.
    pub fn check_process_status(&self, probe: ChildProbe) -> (r: Result<bool, String>)
        ensures
            r == process_status(self@.phase, probe),
    {
        match self.phase {
            Phase::Live => match probe {
                ChildProbe::Running => Ok(true),
                ChildProbe::Exited(_) => Ok(false),
                ChildProbe::NoChild => Ok(false),
                ChildProbe::Failed(reason) => Err(reason),
            },
            _ => Ok(false),
        }
    }

    /// Stops the session for good. Returns whether there is a child that the
    /// caller must now kill and reap, which is so where the session was live.
    /// A second call changes nothing and asks for nothing.
    pub fn stop(&mut self) -> (reap: bool)
        ensures
            reap == holds_child(old(self)@),
            final(self)@ == stopped(old(self)@),
    {
        let reap = self.is_live();
        self.phase = Phase::Terminated;
        reap
    }
}

/// What came of running `node --version`.
#[derive(Debug, Clone)]
pub enum NodeProbe {
    /// It ran and succeeded, and printed this.
    Working(String),
    /// It ran and failed.
    Broken,
    /// It could not be run.
    Missing,
}

/// Whether a command is run by Node.js, so that Node.js has to be there.
pub fn requires_nodejs(command: &str) -> (b: bool)
    ensures
        b == (command@ == "node"@ || command@ == "npx"@),
{
    str_equal(command, "node") || str_equal(command, "npx")
}

/// The error for a Node.js that runs but fails.
pub open spec fn node_not_working_view() -> ErrorView {
    ErrorView {
        category: ErrorCategory::Command,
        code: "NODE_NOT_WORKING"@,
        message: "Node.js is installed but not working properly"@,
        details: Some("Node.js command returned non-zero exit status"@),
        suggestions: seq![
            "Try running 'node --version' in your terminal"@,
            "Reinstall Node.js from https://nodejs.org/"@,
            "Restart Protocollie after fixing Node.js"@,
        ],
    }
}

/// The error for a Node.js that is not there.
pub open spec fn node_not_found_view() -> ErrorView {
    ErrorView {
        category: ErrorCategory::Command,
        code: "NODE_NOT_FOUND"@,
        message: "Node.js is required but not found"@,
        details: Some("Protocollie requires Node.js to run MCP servers"@),
        suggestions: seq![
            "Download from: https://nodejs.org/"@,
            "macOS: brew install node"@,
            "Ubuntu: sudo apt install nodejs npm"@,
            "Windows: winget install OpenJS.NodeJS"@,
            "After installing Node.js, restart Protocollie"@,
        ],
    }
}

/// The version of Node.js, given what came of asking for it, or the error
/// that says what is wrong with it.
pub fn check_nodejs_availability(probe: NodeProbe) -> (r: Result<String, ProtocollieError>)
    ensures
        match probe {
            NodeProbe::Working(printed) => r matches Ok(version) && version@ == trimmed(
                printed@,
            ),
            NodeProbe::Broken => r matches Err(e) && e@ == node_not_working_view(),
            NodeProbe::Missing => r matches Err(e) && e@ == node_not_found_view(),
        },
{
    match probe {
        NodeProbe::Working(printed) => Ok(trim(printed.as_str())),
        NodeProbe::Broken => {
            let e = ProtocollieError::new(
                ErrorCategory::Command,
                "NODE_NOT_WORKING",
                "Node.js is installed but not working properly",
            ).with_details("Node.js command returned non-zero exit status").with_suggestion(
                "Try running 'node --version' in your terminal",
            ).with_suggestion("Reinstall Node.js from https://nodejs.org/").with_suggestion(
                "Restart Protocollie after fixing Node.js",
            );
            assert(e@.suggestions =~= node_not_working_view().suggestions);
            Err(e)
        },
        NodeProbe::Missing => {
            let e = ProtocollieError::new(
                ErrorCategory::Command,
                "NODE_NOT_FOUND",
                "Node.js is required but not found",
            ).with_details("Protocollie requires Node.js to run MCP servers").with_suggestion(
                "Download from: https://nodejs.org/",
            ).with_suggestion("macOS: brew install node").with_suggestion(
                "Ubuntu: sudo apt install nodejs npm",
            ).with_suggestion("Windows: winget install OpenJS.NodeJS").with_suggestion(
                "After installing Node.js, restart Protocollie",
            );
            assert(e@.suggestions =~= node_not_found_view().suggestions);
            Err(e)
        },
    }
}

/// Whether a command may be spawned, given what came of asking for Node.js,
/// if it was asked for. Only `node` and `npx` depend on Node.js: they may be
/// spawned where it works, and are refused where it fails, where it is not
/// there, and where nobody asked. Every other command may be spawned.
pub open spec fn node_gate(command: Seq<char>, node: Option<NodeProbe>) -> Result<(), ErrorView> {
    if command == "node"@ || command == "npx"@ {
        match node {
            Some(NodeProbe::Working(_)) => Ok(()),
            Some(NodeProbe::Broken) => Err(node_not_working_view()),
            Some(NodeProbe::Missing) => Err(node_not_found_view()),
            None => Err(node_not_found_view()),
        }
    } else {
        Ok(())
    }
}

/// Decides, before anything is spawned, whether `command` may be spawned.
pub fn spawn_allowed(command: &str, node: Option<NodeProbe>) -> (r: Result<(), ProtocollieError>)
    ensures
        match r {
            Ok(_) => node_gate(command@, node) is Ok,
            Err(e) => node_gate(command@, node) == Err::<(), ErrorView>(e@),
        },
{
    if !requires_nodejs(command) {
        return Ok(());
    }
    let probe = match node {
        Some(probe) => probe,
        None => NodeProbe::Missing,
    };
    match check_nodejs_availability(probe) {
        Ok(_) => Ok(()),
        Err(e) => Err(e),
    }
}

/// The error for a command that is there and may be run but did not start:
/// it goes by the kind of command and keeps the system's reason as details.
pub open spec fn start_failed_view(command: Seq<char>, reason: Seq<char>) -> ErrorView {
    if command == "node"@ || command == "npx"@ {
        ErrorView {
            category: ErrorCategory::Command,
            code: "NODE_START_FAILED"@,
            message: "Failed to start Node.js MCP server '"@ + command + "'"@,
            details: Some(reason),
            suggestions: seq![
                "Ensure Node.js is installed and in your PATH"@,
                "Verify the MCP server script exists and is accessible"@,
                "Check you have permission to execute the script"@,
            ],
        }
    } else if command == "python"@ || command == "python3"@ {
        ErrorView {
            category: ErrorCategory::Command,
            code: "PYTHON_START_FAILED"@,
            message: "Failed to start Python MCP server '"@ + command + "'"@,
            details: Some(reason),
            suggestions: seq![
                "Ensure Python is installed and in your PATH"@,
                "Install required Python packages"@,
                "Check you have permission to execute the script"@,
            ],
        }
    } else {
        ErrorView {
            category: ErrorCategory::Command,
            code: "COMMAND_START_FAILED"@,
            message: "Failed to start MCP server command '"@ + command + "'"@,
            details: Some(reason),
            suggestions: seq![
                "Ensure '"@ + command + "' is installed and in your PATH"@,
                "Check you have permission to execute the command"@,
                "Verify all required dependencies are installed"@,
            ],
        }
    }
}

/// The error for a command that could not be spawned, given the system's
/// reason and its lower-case form: a command that is not there, one that may
/// not be run, or one that did not start.
pub open spec fn spawn_failure(command: Seq<char>, reason: Seq<char>, lower: Seq<char>)
    -> ErrorView {
    if contains_text(lower, "no such file"@) || contains_text(lower, "not found"@) {
        command_not_found_view(command)
    } else if contains_text(lower, "permission denied"@) {
        permission_denied_view("command '"@ + command + "'"@)
    } else {
        start_failed_view(command, reason)
    }
}

fn start_failed(command: &str, reason: &str) -> (e: ProtocollieError)
    ensures
        e@ == start_failed_view(command@, reason@),
{
    if str_equal(command, "node") || str_equal(command, "npx") {
        let message = concat3("Failed to start Node.js MCP server '", command, "'");
        let e = ProtocollieError::new(
            ErrorCategory::Command,
            "NODE_START_FAILED",
            message.as_str(),
        ).with_details(reason).with_suggestion(
            "Ensure Node.js is installed and in your PATH",
        ).with_suggestion("Verify the MCP server script exists and is accessible").with_suggestion(
            "Check you have permission to execute the script",
        );
        assert(e@.suggestions =~= start_failed_view(command@, reason@).suggestions);
        e
    } else if str_equal(command, "python") || str_equal(command, "python3") {
        let message = concat3("Failed to start Python MCP server '", command, "'");
        let e = ProtocollieError::new(
            ErrorCategory::Command,
            "PYTHON_START_FAILED",
            message.as_str(),
        ).with_details(reason).with_suggestion(
            "Ensure Python is installed and in your PATH",
        ).with_suggestion("Install required Python packages").with_suggestion(
            "Check you have permission to execute the script",
        );
        assert(e@.suggestions =~= start_failed_view(command@, reason@).suggestions);
        e
    } else {
        let message = concat3("Failed to start MCP server command '", command, "'");
        let first = concat3("Ensure '", command, "' is installed and in your PATH");
        let e = ProtocollieError::new(
            ErrorCategory::Command,
            "COMMAND_START_FAILED",
            message.as_str(),
        ).with_details(reason).with_suggestion(first.as_str()).with_suggestion(
            "Check you have permission to execute the command",
        ).with_suggestion("Verify all required dependencies are installed");
        assert(e@.suggestions =~= start_failed_view(command@, reason@).suggestions);
        e
    }
}

/// The error for a command that could not be spawned, given the system's
/// reason and its lower-case form.
pub fn classify_spawn_error(command: &str, reason: &str, reason_lower: &str) -> (e:
    ProtocollieError)
    ensures
        e@ == spawn_failure(command@, reason@, reason_lower@),
{
    let lower = chars_of(reason_lower);
    if chars_hold(&lower, "no such file") || chars_hold(&lower, "not found") {
        ProtocollieError::command_not_found(command)
    } else if chars_hold(&lower, "permission denied") {
        let resource = concat3("command '", command, "'");
        ProtocollieError::permission_denied(resource.as_str())
    } else {
        start_failed(command, reason)
    }
}

/// The error for a command that could not be spawned, given the system's
/// reason, which is matched in lower case.
pub fn spawn_error(command: &str, reason: &str) -> (e: ProtocollieError)
    ensures
        e@ == spawn_failure(command@, reason@, lowercase(reason@)),
{
    let lower = to_lowercase(reason);
    classify_spawn_error(command, reason, lower.as_str())
}

/// What came of writing a line to the child and flushing it.
#[derive(Debug, Clone)]
pub enum WriteOutcome {
    /// The line was written and flushed.
    Written,
    /// The write failed, for this reason.
    WriteFailed(String),
    /// The write went through and the flush failed, for this reason.
    FlushFailed(String),
}

/// The error for a message that cannot be sent because the session holds no
/// pipe to the child.
pub open spec fn no_stdin_view() -> ErrorView {
    ErrorView {
        category: ErrorCategory::Connection,
        code: "NO_STDIN"@,
        message: "MCP process not started or stdin not available"@,
        details: Some("Cannot send message to MCP server without stdin pipe"@),
        suggestions: seq![
            "Ensure the MCP server process is running"@,
            "Check that the server was started correctly"@,
            "Try reconnecting to the server"@,
        ],
    }
}

/// The error for a message that could not be written as JSON.
pub open spec fn serialize_failed_view(reason: Seq<char>) -> ErrorView {
    ErrorView {
        category: ErrorCategory::Protocol,
        code: "JSON_SERIALIZE_FAILED"@,
        message: "Failed to serialize JSON-RPC message"@,
        details: Some(reason),
        suggestions: seq![
            "Check message format is valid JSON"@,
            "Verify message structure follows JSON-RPC spec"@,
        ],
    }
}

/// The error for a line that could not be written to the child.
pub open spec fn write_failed_view(reason: Seq<char>) -> ErrorView {
    ErrorView {
        category: ErrorCategory::Connection,
        code: "WRITE_FAILED"@,
        message: "Failed to write message to MCP process"@,
        details: Some(reason),
        suggestions: seq![
            "Check if the MCP server process is still running"@,
            "Verify the process stdin pipe is not broken"@,
            "Try reconnecting to the server"@,
        ],
    }
}

/// The error for a line that was written and could not be flushed.
pub open spec fn flush_failed_view(reason: Seq<char>) -> ErrorView {
    ErrorView {
        category: ErrorCategory::Connection,
        code: "FLUSH_FAILED"@,
        message: "Failed to flush stdin buffer"@,
        details: Some(reason),
        suggestions: seq![
            "Check if the MCP server process is still running"@,
            "Try reconnecting to the server"@,
        ],
    }
}

/// The line that goes to the child for a message: its JSON text and a line
/// feed; or the error for a session without a pipe, or for a message that
/// could not be written as JSON, which is told by the reason.
pub open spec fn framed(live: bool, serialized: Result<Seq<char>, Seq<char>>) -> Result<
    Seq<char>,
    ErrorView,
> {
    if !live {
        Err(no_stdin_view())
    } else {
        match serialized {
            Ok(text) => Ok(text + "\n"@),
            Err(reason) => Err(serialize_failed_view(reason)),
        }
    }
}

/// Whether a text is one line: it ends in a line feed and holds no other.
pub open spec fn is_one_line(line: Seq<char>) -> bool {
    &&& line.len() > 0
    &&& line.last() == '\n'
    &&& !line.drop_last().contains('\n')
}

/// A text without a line feed, framed, is one line.
pub proof fn lemma_framed_is_one_line(text: Seq<char>)
    requires
        !text.contains('\n'),
    ensures
        is_one_line(text + "\n"@),
{
    reveal_strlit("\n");
    assert((text + "\n"@).drop_last() =~= text);
}

/// Whether a line or an error is what `framed` gives.
pub open spec fn is_framed(r: Result<String, ProtocollieError>, expected: Result<
    Seq<char>,
    ErrorView,
>) -> bool {
    match r {
        Ok(line) => expected == Ok::<Seq<char>, ErrorView>(line@),
        Err(e) => expected == Err::<Seq<char>, ErrorView>(e@),
    }
}

/// The views of a text or a reason.
pub open spec fn text_or_reason(r: Result<String, String>) -> Result<Seq<char>, Seq<char>> {
    match r {
        Ok(text) => Ok(text@),
        Err(reason) => Err(reason@),
    }
}

/// Frames a message for the child, given whether the session is live and
/// what came of writing the message as JSON.
pub fn frame_message(live: bool, serialized: Result<String, String>) -> (r: Result<
    String,
    ProtocollieError,
>)
    ensures
        is_framed(r, framed(live, text_or_reason(serialized))),
{
    if !live {
        let e = ProtocollieError::new(
            ErrorCategory::Connection,
            "NO_STDIN",
            "MCP process not started or stdin not available",
        ).with_details("Cannot send message to MCP server without stdin pipe").with_suggestion(
            "Ensure the MCP server process is running",
        ).with_suggestion("Check that the server was started correctly").with_suggestion(
            "Try reconnecting to the server",
        );
        assert(e@.suggestions =~= no_stdin_view().suggestions);
        return Err(e);
    }
    match serialized {
        Ok(text) => Ok(concat2(text.as_str(), "\n")),
        Err(reason) => {
            let e = ProtocollieError::new(
                ErrorCategory::Protocol,
                "JSON_SERIALIZE_FAILED",
                "Failed to serialize JSON-RPC message",
            ).with_details(reason.as_str()).with_suggestion(
                "Check message format is valid JSON",
            ).with_suggestion("Verify message structure follows JSON-RPC spec");
            assert(e@.suggestions =~= serialize_failed_view(reason@).suggestions);
            Err(e)
        },
    }
}

/// What came of a write, as a result: nothing, or the error that says which
/// step failed and why.
pub fn write_result(outcome: WriteOutcome) -> (r: Result<(), ProtocollieError>)
    ensures
        match outcome {
            WriteOutcome::Written => r is Ok,
            WriteOutcome::WriteFailed(reason) => r matches Err(e) && e@ == write_failed_view(
                reason@,
            ),
            WriteOutcome::FlushFailed(reason) => r matches Err(e) && e@ == flush_failed_view(
                reason@,
            ),
        },
{
    match outcome {
        WriteOutcome::Written => Ok(()),
        WriteOutcome::WriteFailed(reason) => {
            let e = ProtocollieError::new(
                ErrorCategory::Connection,
                "WRITE_FAILED",
                "Failed to write message to MCP process",
            ).with_details(reason.as_str()).with_suggestion(
                "Check if the MCP server process is still running",
            ).with_suggestion("Verify the process stdin pipe is not broken").with_suggestion(
                "Try reconnecting to the server",
            );
            assert(e@.suggestions =~= write_failed_view(reason@).suggestions);
            Err(e)
        },
        WriteOutcome::FlushFailed(reason) => {
            let e = ProtocollieError::new(
                ErrorCategory::Connection,
                "FLUSH_FAILED",
                "Failed to flush stdin buffer",
            ).with_details(reason.as_str()).with_suggestion(
                "Check if the MCP server process is still running",
            ).with_suggestion("Try reconnecting to the server");
            assert(e@.suggestions =~= flush_failed_view(reason@).suggestions);
            Err(e)
        },
    }
}

/// A session once its child is spawned: live, with its standard error
/// drained.
pub open spec fn started(s: SessionView) -> SessionView {
    SessionView { phase: Phase::Live, stderr_drain: true, ..s }
}

/// How long the answer to `initialize` is waited for, in milliseconds.
pub const INITIALIZE_TIMEOUT_MS: u64 = 5000;

/// A request together with how long its answer is waited for.
pub struct Request {
    pub id: u32,
    pub message: serde_json::Value,
    pub timeout_ms: u64,
}

impl MCPProcess {
    /// Takes note of what came of spawning `command` with its three pipes
    /// captured. Where it was spawned, the session is live from now on and
    /// the child's standard error is drained. Where it was not, the session
    /// stays as it was and the system's reason is turned into the error.
    pub fn start(&mut self, command: &str, spawned: Result<(), String>) -> (r: Result<
        (),
        ProtocollieError,
    >)
        requires
            old(self)@.phase == Phase::Quiescent,
        ensures
            match spawned {
                Ok(_) => r is Ok && final(self)@ == started(old(self)@),
                Err(reason) => r matches Err(e) && e@ == spawn_failure(
                    command@,
                    reason@,
                    lowercase(reason@),
                ) && final(self)@ == old(self)@,
            },
    {
        match spawned {
            Ok(_) => {
                self.phase = Phase::Live;
                self.stderr_drain = true;
                Ok(())
            },
            Err(reason) => Err(spawn_error(command, reason.as_str())),
        }
    }

    /// Opens the handshake: gives out an id, notes the request as in flight
    /// and returns the `initialize` request, whose answer is waited for 5000
    /// milliseconds.
    pub fn send_initialize(&mut self) -> (request: Request)
        ensures
            request.id == old(self)@.next_id,
            request.timeout_ms == INITIALIZE_TIMEOUT_MS,
            json_of(request.message) == request_json(
                request.id,
                "initialize"@,
                initialize_params(),
            ),
            final(self)@.pending.dom() == old(self)@.pending.dom().insert(request.id),
            final(self)@.pending[request.id].message_id == request.id,
            final(self)@.pending[request.id].method@ == "initialize"@,
            final(self)@ == (SessionView {
                next_id: id_after(request.id),
                pending: final(self)@.pending,
                ..old(self)@
            }),
            pending_were_issued(old(self)@) && request.id < u32::MAX ==> pending_were_issued(
                final(self)@,
            ),
    {
        let id = self.next_message_id();
        proof {
            if pending_were_issued(old(self)@) && id < u32::MAX {
                assert(pending_were_issued(self@));
            }
        }
        self.track_request(id, "initialize");
        Request { id, message: initialize_message(id), timeout_ms: INITIALIZE_TIMEOUT_MS }
    }

    /// Closes the handshake, whatever came of waiting for the answer to
    /// `initialize`: a server that is late with it, or never gives it, is
    /// still told that the client is ready. Returns the notification to send.
    pub fn finish_initialize(
        &self,
        answer: &Result<serde_json::Value, ProtocollieError>,
    ) -> (message: serde_json::Value)
        ensures
            json_of(message) == notification_json("notifications/initialized"@),
    {
        initialized_message()
    }

    /// The line to write to the child for `message`: its JSON text and a
    /// line feed. A live session is owed the line; a session that is not
    /// live has no pipe to write to.
    pub fn send_message_sync(&self, message: serde_json::Value) -> (r: Result<
        String,
        ProtocollieError,
    >)
        ensures
            self@.phase != Phase::Live ==> (r matches Err(e) && e@ == no_stdin_view()),
            self@.phase == Phase::Live ==> (r matches Ok(line) && line@ == json_text(message)
                + "\n"@ && is_one_line(line@)),
    {
        if !self.is_live() {
            return frame_message(false, Err(String::new()));
        }
        match serialize_value(&message) {
            Ok(text) => {
                proof {
                    lemma_framed_is_one_line(text@);
                }
                frame_message(true, Ok(text))
            },
            Err(error) => {
                let reason = describe_json_error(&error);
                frame_message(true, Err(reason))
            },
        }
    }
}

/// How far a handshake went, and what came of each of its steps.
pub enum Handshake {
    /// The `initialize` request could not be written, which came to this
    /// error. Nothing was waited for and nothing else was written.
    RequestFailed(ProtocollieError),
    /// The request was written. The first part is what came of the wait for
    /// its answer, the second what came of writing the notification.
    Completed(Result<serde_json::Value, ProtocollieError>, Result<(), ProtocollieError>),
}

/// What a handshake comes to. A write that failed fails the handshake, be it
/// that of the request or that of the notification. A wait that failed does
/// not: a server that is late with its answer, or never gives it, has still
/// shaken hands once the notification is written.
pub open spec fn handshake_outcome(run: Handshake) -> Result<(), ProtocollieError> {
    match run {
        Handshake::RequestFailed(e) => Err(e),
        Handshake::Completed(_, notification) => notification,
    }
}

/// The result of a handshake, given how far it went and what came of each
/// step.
pub fn handshake_result(run: Handshake) -> (r: Result<(), ProtocollieError>)
    ensures
        r == handshake_outcome(run),
{
    match run {
        Handshake::RequestFailed(e) => Err(e),
        Handshake::Completed(_, notification) => notification,
    }
}

/// What came of reading one line from the child's standard output.
#[derive(Debug, Clone)]
pub enum ReadEvent {
    /// A line was read; this is its text.
    Line(String),
    /// Nothing was read: the stream has ended.
    Closed,
    /// The read failed, for this reason.
    Failed(String),
}

/// What a wait for an answer does after a read.
pub enum ReadStep {
    /// Read on.
    Continue,
    /// The answer has come.
    Delivered(serde_json::Value),
    /// The stream has ended, which ends the wait with this error: the child
    /// is gone.
    Closed(ProtocollieError),
    /// The read has failed, which ends the wait with this error.
    Failed(ProtocollieError),
}

/// The wait for the answer to one request.
pub struct ResponseWait {
    expected_id: u64,
    timeout_ms: u64,
    lines: Vec<String>,
}

/// What a wait holds: the id it waits for, how long it waits, and the lines
/// that it has seen, without the blank ones and without the white space
/// around them.
pub struct WaitView {
    pub expected_id: u64,
    pub timeout_ms: u64,
    pub lines: Seq<Seq<char>>,
}

impl View for ResponseWait {
    type V = WaitView;

    closed spec fn view(&self) -> WaitView {
        WaitView {
            expected_id: self.expected_id,
            timeout_ms: self.timeout_ms,
            lines: texts(self.lines@),
        }
    }
}

/// The error for a wait that cannot begin because the session holds no pipe
/// from the child.
pub open spec fn no_stdout_view() -> ErrorView {
    ErrorView {
        category: ErrorCategory::Connection,
        code: "NO_STDOUT"@,
        message: "MCP process stdout not available"@,
        details: Some("Cannot read response from MCP server without stdout pipe"@),
        suggestions: seq![
            "Ensure the MCP server process is running"@,
            "Check that the server was started correctly"@,
            "Try reconnecting to the server"@,
        ],
    }
}

/// The error for a child that has closed its standard output.
pub open spec fn stdout_closed_view() -> ErrorView {
    ErrorView {
        category: ErrorCategory::Connection,
        code: "STDOUT_CLOSED"@,
        message: "MCP process closed stdout unexpectedly"@,
        details: Some("The server terminated the connection"@),
        suggestions: seq![
            "Check server logs for errors"@,
            "Verify server configuration is correct"@,
            "Try reconnecting to the server"@,
        ],
    }
}

/// The error for a read that failed.
pub open spec fn read_failed_view(reason: Seq<char>) -> ErrorView {
    ErrorView {
        category: ErrorCategory::Connection,
        code: "READ_FAILED"@,
        message: "Failed to read from MCP process stdout"@,
        details: Some(reason),
        suggestions: seq![
            "Check if the MCP server process is still running"@,
            "Verify the process stdout pipe is not broken"@,
            "Try reconnecting to the server"@,
        ],
    }
}

/// The error for an answer that did not come in time: a timeout whose
/// details say which id was waited for and how many lines came instead.
pub open spec fn response_timeout_view(expected_id: u64, timeout_ms: u64, lines: nat)
    -> ErrorView {
    ErrorView {
        details: Some(
            "Expected response with ID "@ + decimal(expected_id as nat) + " but received "@
                + decimal(lines) + " lines with no match"@,
        ),
        ..connection_timeout_view("MCP server"@, timeout_ms)
    }
}

/// The answer that a parsed line holds for the request `expected_id`: the
/// value itself where its id is the expected one. Any other value is let go:
/// an answer to another request, or a notification, which has no id.
pub open spec fn answer_in(parsed: Option<serde_json::Value>, expected_id: u64) -> Option<
    serde_json::Value,
> {
    match parsed {
        Some(value) => if response_id(json_of(value)) == Some(expected_id) {
            Some(value)
        } else {
            None
        },
        None => None,
    }
}

/// The answer that a line of output holds for the request `expected_id`.
/// The line is read without the white space around it; a blank line holds
/// nothing, and neither does a line that is no JSON.
pub open spec fn delivered(line: Seq<char>, expected_id: u64) -> Option<serde_json::Value> {
    if trimmed(line).len() == 0 {
        None
    } else {
        answer_in(json_parsed(trimmed(line)), expected_id)
    }
}

/// The lines seen once `line` has been read: blank lines do not count.
pub open spec fn noted(lines: Seq<Seq<char>>, line: Seq<char>) -> Seq<Seq<char>> {
    if trimmed(line).len() == 0 {
        lines
    } else {
        lines.push(trimmed(line))
    }
}

/// What one round of a wait comes to: a look at the clock, `elapsed_ms`
/// milliseconds into the wait, and then, if the time is not up, a read.
/// `None` says that the wait goes on.
pub open spec fn round(wait: WaitView, elapsed_ms: u64, event: ReadEvent) -> Option<
    Result<serde_json::Value, ErrorView>,
> {
    if elapsed_ms >= wait.timeout_ms {
        Some(Err(response_timeout_view(wait.expected_id, wait.timeout_ms, wait.lines.len())))
    } else {
        match event {
            ReadEvent::Closed => Some(Err(stdout_closed_view())),
            ReadEvent::Failed(reason) => Some(Err(read_failed_view(reason@))),
            ReadEvent::Line(line) => match delivered(line@, wait.expected_id) {
                Some(value) => Some(Ok(value)),
                None => None,
            },
        }
    }
}

/// The wait after a round that did not end it.
pub open spec fn after_round(wait: WaitView, event: ReadEvent) -> WaitView {
    match event {
        ReadEvent::Line(line) => WaitView { lines: noted(wait.lines, line@), ..wait },
        _ => wait,
    }
}

/// What a step of a wait comes to: nothing yet, the answer, or the error
/// that ended it.
pub open spec fn step_view(step: ReadStep) -> Option<Result<serde_json::Value, ErrorView>> {
    match step {
        ReadStep::Continue => None,
        ReadStep::Delivered(value) => Some(Ok(value)),
        ReadStep::Closed(e) => Some(Err(e@)),
        ReadStep::Failed(e) => Some(Err(e@)),
    }
}

/// The answer in a parsed line, where it answers the request `expected_id`.
pub fn check_answer(parsed: Option<serde_json::Value>, expected_id: u64) -> (r: Option<
    serde_json::Value,
>)
    ensures
        r == answer_in(parsed, expected_id),
{
    match parsed {
        Some(value) => if answers(&value, expected_id) {
            Some(value)
        } else {
            None
        },
        None => None,
    }
}

impl MCPProcess {
    /// Begins the wait for the answer to the request `expected_id`, which
    /// lasts `timeout_ms` milliseconds. A session that is not live has no
    /// pipe to read from.
    pub fn read_response(&self, expected_id: u64, timeout_ms: u64) -> (r: Result<
        ResponseWait,
        ProtocollieError,
    >)
        ensures
            match r {
                Ok(wait) => self@.phase == Phase::Live && wait@ == (WaitView {
                    expected_id,
                    timeout_ms,
                    lines: Seq::empty(),
                }),
                Err(e) => self@.phase != Phase::Live && e@ == no_stdout_view(),
            },
    {
        if !self.is_live() {
            let e = ProtocollieError::new(
                ErrorCategory::Connection,
                "NO_STDOUT",
                "MCP process stdout not available",
            ).with_details(
                "Cannot read response from MCP server without stdout pipe",
            ).with_suggestion("Ensure the MCP server process is running").with_suggestion(
                "Check that the server was started correctly",
            ).with_suggestion("Try reconnecting to the server");
            assert(e@.suggestions =~= no_stdout_view().suggestions);
            return Err(e);
        }
        let wait = ResponseWait { expected_id, timeout_ms, lines: Vec::new() };
        assert(wait@.lines =~= Seq::empty());
        Ok(wait)
    }
}

impl ResponseWait {
    /// How many lines that were not blank have been seen.
    pub fn lines_seen(&self) -> (n: usize)
        ensures
            n == self@.lines.len(),
    {
        self.lines.len()
    }

    /// Looks at the clock before a read, `elapsed_ms` milliseconds into the
    /// wait. Once the time is up the wait has failed, and the error says how
    /// many lines came in the meantime; before that there is nothing to say.
    pub fn on_clock(&self, elapsed_ms: u64) -> (r: Option<ProtocollieError>)
        ensures
            match r {
                Some(e) => elapsed_ms >= self@.timeout_ms && e@ == response_timeout_view(
                    self@.expected_id,
                    self@.timeout_ms,
                    self@.lines.len(),
                ),
                None => elapsed_ms < self@.timeout_ms,
            },
            forall|event: ReadEvent|
                elapsed_ms >= self@.timeout_ms ==> #[trigger] round(self@, elapsed_ms, event) == (
                match r {
                    Some(e) => Some(Err::<serde_json::Value, ErrorView>(e@)),
                    None => None,
                }),
    {
        if elapsed_ms < self.timeout_ms {
            return None;
        }
        let id = u64_to_string(self.expected_id);
        let count = u64_to_string(self.lines.len() as u64);
        let details = concat5(
            "Expected response with ID ",
            id.as_str(),
            " but received ",
            count.as_str(),
            " lines with no match",
        );
        Some(
            ProtocollieError::connection_timeout("MCP server", self.timeout_ms).with_details(
                details.as_str(),
            ),
        )
    }

    /// Takes what a read gave. The end of the stream and a failed read end
    /// the wait with their errors. A line is noted unless it is blank, and
    /// ends the wait where it holds the answer; any other line is let go.
    pub fn on_read(&mut self, event: ReadEvent) -> (step: ReadStep)
        ensures
            final(self)@.expected_id == old(self)@.expected_id,
            final(self)@.timeout_ms == old(self)@.timeout_ms,
            match event {
                ReadEvent::Closed => step matches ReadStep::Closed(e) && e@ == stdout_closed_view()
                    && final(self)@ == old(self)@,
                ReadEvent::Failed(reason) => step matches ReadStep::Failed(e) && e@
                    == read_failed_view(reason@) && final(self)@ == old(self)@,
                ReadEvent::Line(line) => final(self)@.lines == noted(old(self)@.lines, line@)
                    && match delivered(line@, old(self)@.expected_id) {
                    Some(value) => step == ReadStep::Delivered(value),
                    None => step is Continue,
                },
            },
            step matches ReadStep::Delivered(value) ==> response_id(json_of(value)) == Some(
                old(self)@.expected_id,
            ),
            final(self)@ == after_round(old(self)@, event),
            forall|elapsed_ms: u64|
                elapsed_ms < old(self)@.timeout_ms ==> #[trigger] round(
                    old(self)@,
                    elapsed_ms,
                    event,
                ) == step_view(step),
    {
        match event {
            ReadEvent::Closed => {
                let e = ProtocollieError::new(
                    ErrorCategory::Connection,
                    "STDOUT_CLOSED",
                    "MCP process closed stdout unexpectedly",
                ).with_details("The server terminated the connection").with_suggestion(
                    "Check server logs for errors",
                ).with_suggestion("Verify server configuration is correct").with_suggestion(
                    "Try reconnecting to the server",
                );
                assert(e@.suggestions =~= stdout_closed_view().suggestions);
                ReadStep::Closed(e)
            },
            ReadEvent::Failed(reason) => {
                let e = ProtocollieError::new(
                    ErrorCategory::Connection,
                    "READ_FAILED",
                    "Failed to read from MCP process stdout",
                ).with_details(reason.as_str()).with_suggestion(
                    "Check if the MCP server process is still running",
                ).with_suggestion("Verify the process stdout pipe is not broken").with_suggestion(
                    "Try reconnecting to the server",
                );
                assert(e@.suggestions =~= read_failed_view(reason@).suggestions);
                ReadStep::Failed(e)
            },
            ReadEvent::Line(line) => {
                let text = trim(line.as_str());
                if text.as_str().is_empty() {
                    return ReadStep::Continue;
                }
                let parsed = parse_value(text.as_str());
                proof {
                    lemma_texts_push(self.lines@, text);
                }
                self.lines.push(text);
                match check_answer(parsed, self.expected_id) {
                    Some(value) => ReadStep::Delivered(value),
                    None => ReadStep::Continue,
                }
            },
        }
    }
}

/// What came of asking the drain of the child's standard error for its next
/// line, without waiting.
#[derive(Debug, Clone)]
pub enum DrainEvent {
    /// A line was there; this is its text.
    Line(String),
    /// No line is there yet.
    Empty,
    /// No line is there and none will come: the drain has ended.
    Disconnected,
}

/// What a harvest of the child's standard error does after a look at the
/// drain.
#[derive(Debug, Clone)]
pub enum HarvestStep {
    /// Look again at once.
    Again,
    /// Look again after a pause of ten milliseconds.
    Pause,
    /// The harvest has ended with what it gathered, if anything.
    Done(Option<String>),
}

/// The mark that leads the last message of a drain, which holds all that the
/// child wrote to its standard error.
pub open spec fn complete_mark() -> Seq<char> {
    "STDERR_COMPLETE:"@
}

/// What a harvest has to show for a number of lines: the lines, one below
/// the other, unless there are none.
pub open spec fn gathered(lines: Seq<Seq<char>>) -> Option<Seq<char>> {
    if lines.len() > 0 {
        Some(joined(lines, "\n"@))
    } else {
        None
    }
}

/// The texts of an optional string.
pub open spec fn optional_text(s: Option<String>) -> Option<Seq<char>> {
    match s {
        Some(text) => Some(text@),
        None => None,
    }
}

/// The reader of the child's standard error: it passes each line on as it
/// comes and keeps it, and when the stream ends it sends all of them once
/// more, in one marked message.
pub struct StderrDrain {
    lines: Vec<String>,
}

impl View for StderrDrain {
    type V = Seq<Seq<char>>;

    closed spec fn view(&self) -> Seq<Seq<char>> {
        texts(self.lines@)
    }
}

impl StderrDrain {
    /// A drain that has read nothing.
    pub fn new() -> (d: Self)
        ensures
            d@ == Seq::<Seq<char>>::empty(),
    {
        let d = StderrDrain { lines: Vec::new() };
        assert(d@ =~= Seq::<Seq<char>>::empty());
        d
    }

    /// Takes a line that was read, keeps it, and returns the message to pass
    /// on, which is the line itself.
    pub fn on_line(&mut self, line: String) -> (message: String)
        ensures
            message@ == line@,
            final(self)@ == old(self)@.push(line@),
    {
        let kept = line.clone();
        proof {
            lemma_texts_push(self.lines@, kept);
        }
        self.lines.push(kept);
        line
    }

    /// The last message, to send when the stream has ended: the mark and all
    /// lines, one below the other. A drain that has read nothing sends none.
    pub fn finish(&self) -> (message: Option<String>)
        ensures
            optional_text(message) == (if self@.len() > 0 {
                Some(complete_mark() + joined(self@, "\n"@))
            } else {
                None
            }),
    {
        if self.lines.len() == 0 {
            return None;
        }
        let all = join(&self.lines, "\n");
        Some(concat2("STDERR_COMPLETE:", all.as_str()))
    }
}

/// One harvest of what the drain holds of the child's standard error.
pub struct StderrHarvest {
    timeout_ms: u64,
    lines: Vec<String>,
}

/// What a harvest holds: how long it lasts and the lines it has gathered.
pub struct HarvestView {
    pub timeout_ms: u64,
    pub lines: Seq<Seq<char>>,
}

impl View for StderrHarvest {
    type V = HarvestView;

    closed spec fn view(&self) -> HarvestView {
        HarvestView { timeout_ms: self.timeout_ms, lines: texts(self.lines@) }
    }
}

impl MCPProcess {
    /// Begins a harvest of the child's standard error that lasts
    /// `timeout_ms` milliseconds. There is nothing to harvest where no drain
    /// was set up, which is so until the session has been started.
    pub fn collect_stderr(&self, timeout_ms: u64) -> (r: Option<StderrHarvest>)
        ensures
            match r {
                Some(harvest) => self@.stderr_drain && harvest@ == (HarvestView {
                    timeout_ms,
                    lines: Seq::empty(),
                }),
                None => !self@.stderr_drain,
            },
    {
        if self.stderr_drain {
            let harvest = StderrHarvest { timeout_ms, lines: Vec::new() };
            assert(harvest@.lines =~= Seq::empty());
            Some(harvest)
        } else {
            None
        }
    }
}

impl StderrHarvest {
    /// Whether the harvest goes on, `elapsed_ms` milliseconds after it began.
    pub fn on_clock(&self, elapsed_ms: u64) -> (go_on: bool)
        ensures
            go_on == (elapsed_ms < self@.timeout_ms),
    {
        elapsed_ms < self.timeout_ms
    }

    /// Takes what a look at the drain gave. A marked message ends the
    /// harvest with all that it holds after the mark, whatever was gathered
    /// before. Any other line is gathered. A drain that is empty for now is
    /// looked at again after a pause, and one that has ended ends the
    /// harvest with what was gathered.
    pub fn on_event(&mut self, event: DrainEvent) -> (step: HarvestStep)
        ensures
            final(self)@.timeout_ms == old(self)@.timeout_ms,
            match event {
                DrainEvent::Line(line) => if starts_with_text(line@, complete_mark()) {
                    step matches HarvestStep::Done(Some(all)) && all@ == line@.skip(
                        complete_mark().len() as int,
                    ) && final(self)@ == old(self)@
                } else {
                    step is Again && final(self)@.lines == old(self)@.lines.push(line@)
                },
                DrainEvent::Empty => step is Pause && final(self)@ == old(self)@,
                DrainEvent::Disconnected => step matches HarvestStep::Done(found)
                    && optional_text(found) == gathered(old(self)@.lines) && final(self)@ == old(
                    self,
                )@,
            },
    {
        match event {
            DrainEvent::Line(line) => {
                if str_starts_with(line.as_str(), "STDERR_COMPLETE:") {
                    let from = "STDERR_COMPLETE:".unicode_len();
                    let to = line.as_str().unicode_len();
                    let all = line.as_str().substring_char(from, to);
                    assert(line@.subrange(from as int, to as int) =~= line@.skip(from as int));
                    HarvestStep::Done(Some(String::from_str(all)))
                } else {
                    proof {
                        lemma_texts_push(self.lines@, line);
                    }
                    self.lines.push(line);
                    HarvestStep::Again
                }
            },
            DrainEvent::Empty => HarvestStep::Pause,
            DrainEvent::Disconnected => HarvestStep::Done(self.finish()),
        }
    }

    /// What the harvest has to show when its time is up: the lines gathered,
    /// one below the other, unless there are none.
    pub fn finish(&self) -> (found: Option<String>)
        ensures
            optional_text(found) == gathered(self@.lines),
    {
        if self.lines.len() > 0 {
            Some(join(&self.lines, "\n"))
        } else {
            None
        }
    }
}

/// What a wait comes to over a number of rounds, each a reading of the clock
/// and what the read after it gave. `None` says that the wait still goes on
/// after the last of them.
pub open spec fn outcome(wait: WaitView, rounds: Seq<(u64, ReadEvent)>) -> Option<
    Result<serde_json::Value, ErrorView>,
>
    decreases rounds.len(),
{
    if rounds.len() == 0 {
        None
    } else {
        match round(wait, rounds[0].0, rounds[0].1) {
            Some(end) => Some(end),
            None => outcome(after_round(wait, rounds[0].1), rounds.skip(1)),
        }
    }
}

/// Whether an error is the timeout of a wait for `expected_id`, whatever the
/// number of lines that came instead.
pub open spec fn is_timeout(e: ErrorView, expected_id: u64, timeout_ms: u64) -> bool {
    exists|lines: nat| e == response_timeout_view(expected_id, timeout_ms, lines)
}

/// A wait hands out nothing but the answer to its request: a value with an
/// id, and the id waited for. A notification, which has no id, is never
/// handed out.
pub proof fn lemma_only_the_answer_is_delivered(
    wait: WaitView,
    rounds: Seq<(u64, ReadEvent)>,
    value: serde_json::Value,
)
    requires
        outcome(wait, rounds) == Some(Ok::<serde_json::Value, ErrorView>(value)),
    ensures
        response_id(json_of(value)) == Some(wait.expected_id),
        member(json_of(value), "id"@) is Some,
    decreases rounds.len(),
{
    if rounds.len() > 0 {
        if round(wait, rounds[0].0, rounds[0].1) is None {
            lemma_only_the_answer_is_delivered(
                after_round(wait, rounds[0].1),
                rounds.skip(1),
                value,
            );
        }
    }
}

/// No wait goes on past its time: once the clock is read at or after the
/// deadline, the wait has ended. Unless a read fails, it ends in one of
/// three ways: with the answer, with the timeout, or with the end of the
/// child's output.
pub proof fn lemma_wait_ends(wait: WaitView, rounds: Seq<(u64, ReadEvent)>, late: int)
    requires
        0 <= late < rounds.len(),
        rounds[late].0 >= wait.timeout_ms,
        forall|k: int| 0 <= k < rounds.len() ==> !((#[trigger] rounds[k]).1 is Failed),
    ensures
        match outcome(wait, rounds) {
            Some(Ok(value)) => response_id(json_of(value)) == Some(wait.expected_id),
            Some(Err(e)) => is_timeout(e, wait.expected_id, wait.timeout_ms) || e
                == stdout_closed_view(),
            None => false,
        },
    decreases rounds.len(),
{
    match round(wait, rounds[0].0, rounds[0].1) {
        Some(end) => {
            assert(!(rounds[0].1 is Failed));
            if rounds[0].0 >= wait.timeout_ms {
                assert(end == Err::<serde_json::Value, ErrorView>(
                    response_timeout_view(wait.expected_id, wait.timeout_ms, wait.lines.len()),
                ));
            }
        },
        None => {
            let rest = rounds.skip(1);
            assert(late > 0);
            assert(rest[late - 1] == rounds[late]);
            assert forall|k: int| 0 <= k < rest.len() implies !((#[trigger] rest[k]).1
                is Failed) by {
                assert(rest[k] == rounds[k + 1]);
            }
            lemma_wait_ends(after_round(wait, rounds[0].1), rest, late - 1);
        },
    }
}

/// What came of one try to read a line from the child's standard output
/// without waiting for it.
#[derive(Debug, Clone)]
pub enum StdoutEvent {
    /// This many bytes were read; they make up this line.
    Data(usize, String),
    /// Nothing was read: the stream has ended.
    Closed,
    /// Nothing is there to read for now.
    WouldBlock,
    /// The read failed, for this reason.
    Failed(String),
}

/// A short test of whether the child's standard output can be read.
pub struct StdoutTest {}

/// How long a test of the child's standard output lasts, in milliseconds.
pub const STDOUT_TEST_TIMEOUT_MS: u64 = 100;

/// Whether a test of the child's standard output can begin: it cannot
/// without a pipe, nor when the child has exited, nor when it cannot be told
/// whether the child runs.
pub open spec fn stdout_test_start(phase: Phase, probe: ChildProbe) -> Result<(), Seq<char>> {
    if phase != Phase::Live {
        Err("No stdout available"@)
    } else {
        match probe {
            ChildProbe::Exited(status) => Err("Process has exited with status: "@ + status@),
            ChildProbe::Failed(reason) => Err("Error checking process status: "@ + reason@),
            _ => Ok(()),
        }
    }
}

/// What a read says of the child's standard output. `None` says: try again
/// after a pause of five milliseconds.
pub open spec fn stdout_test_read(event: StdoutEvent) -> Option<Result<Seq<char>, Seq<char>>> {
    match event {
        StdoutEvent::Data(bytes, line) => Some(
            Ok("Read "@ + decimal(bytes as nat) + " bytes: '"@ + trimmed(line@) + "'"@),
        ),
        StdoutEvent::Closed => Some(Err("Process closed stdout"@)),
        StdoutEvent::WouldBlock => None,
        StdoutEvent::Failed(reason) => Some(Err("Error reading: "@ + reason@)),
    }
}

/// The texts of an optional finding.
pub open spec fn finding_view(r: Option<Result<String, String>>) -> Option<
    Result<Seq<char>, Seq<char>>,
> {
    match r {
        Some(found) => Some(text_or_reason(found)),
        None => None,
    }
}

impl MCPProcess {
    /// Begins a test of whether the child's standard output can be read,
    /// given what the operating system said of the child.
    pub fn test_stdout_availability(&self, probe: ChildProbe) -> (r: Result<StdoutTest, String>)
        ensures
            match r {
                Ok(test) => stdout_test_start(self@.phase, probe) is Ok,
                Err(reason) => stdout_test_start(self@.phase, probe) == Err::<(), Seq<char>>(
                    reason@,
                ),
            },
    {
        if !self.is_live() {
            return Err(String::from_str("No stdout available"));
        }
        match probe {
            ChildProbe::Exited(status) => Err(
                concat2("Process has exited with status: ", status.as_str()),
            ),
            ChildProbe::Failed(reason) => Err(
                concat2("Error checking process status: ", reason.as_str()),
            ),
            _ => Ok(StdoutTest {  }),
        }
    }
}

impl StdoutTest {
    /// Looks at the clock before a read, `elapsed_ms` milliseconds into the
    /// test. Once the time is up the test has ended, with nothing read.
    pub fn on_clock(&self, elapsed_ms: u64) -> (r: Option<Result<String, String>>)
        ensures
            finding_view(r) == (if elapsed_ms >= STDOUT_TEST_TIMEOUT_MS {
                Some(Ok::<Seq<char>, Seq<char>>("No data available within timeout"@))
            } else {
                None
            }),
    {
        if elapsed_ms >= STDOUT_TEST_TIMEOUT_MS {
            Some(Ok(String::from_str("No data available within timeout")))
        } else {
            None
        }
    }

    /// Takes what a read gave and says what it shows, or nothing where the
    /// read is to be tried again after a pause.
    pub fn on_read(&self, event: StdoutEvent) -> (r: Option<Result<String, String>>)
        ensures
            finding_view(r) == stdout_test_read(event),
    {
        match event {
            StdoutEvent::Data(bytes, line) => {
                let count = u64_to_string(bytes as u64);
                let text = trim(line.as_str());
                Some(Ok(concat5("Read ", count.as_str(), " bytes: '", text.as_str(), "'")))
            },
            StdoutEvent::Closed => Some(Err(String::from_str("Process closed stdout"))),
            StdoutEvent::WouldBlock => None,
            StdoutEvent::Failed(reason) => Some(Err(concat2("Error reading: ", reason.as_str()))),
        }
    }
}

/// What is known of the child of a session, for a report on the session.
pub open spec fn process_status_json(phase: Phase, probe: ChildProbe) -> Json {
    if phase != Phase::Live {
        Json::Object(
            no_members().insert("running"@, Json::Bool(false)).insert(
                "error"@,
                Json::Text("No child process available"@),
            ),
        )
    } else {
        match probe {
            ChildProbe::NoChild => Json::Object(
                no_members().insert("running"@, Json::Bool(false)).insert(
                    "error"@,
                    Json::Text("No child process available"@),
                ),
            ),
            ChildProbe::Running => Json::Object(no_members().insert("running"@, Json::Bool(true))),
            ChildProbe::Exited(status) => Json::Object(
                no_members().insert("running"@, Json::Bool(false)).insert(
                    "exit_status"@,
                    Json::Text(status@),
                ),
            ),
            ChildProbe::Failed(reason) => Json::Object(
                no_members().insert("error"@, Json::Text(reason@)),
            ),
        }
    }
}

/// What a test of the child's standard output found, for a report on the
/// session.
pub open spec fn stdout_test_json(found: Result<Seq<char>, Seq<char>>) -> Json {
    match found {
        Ok(result) => Json::Object(
            no_members().insert("success"@, Json::Bool(true)).insert("result"@, Json::Text(result)),
        ),
        Err(reason) => Json::Object(
            no_members().insert("success"@, Json::Bool(false)).insert("error"@, Json::Text(reason)),
        ),
    }
}

/// Which pipes a session holds, for a report on the session.
pub open spec fn pipe_status_json(s: SessionView) -> Json {
    Json::Object(
        no_members().insert("stdin_available"@, Json::Bool(s.phase == Phase::Live)).insert(
            "stdout_available"@,
            Json::Bool(s.phase == Phase::Live),
        ).insert("stderr_receiver_available"@, Json::Bool(s.stderr_drain)),
    )
}

/// The report on a session: its child, its standard output, what it last
/// wrote to its standard error, and its pipes.
pub open spec fn debug_info_json(
    s: SessionView,
    probe: ChildProbe,
    stdout_test: Result<Seq<char>, Seq<char>>,
    recent_stderr: Option<Seq<char>>,
) -> Json {
    Json::Object(
        no_members().insert("process_status"@, process_status_json(s.phase, probe)).insert(
            "stdout_test"@,
            stdout_test_json(stdout_test),
        ).insert(
            "recent_stderr"@,
            Json::Text(
                match recent_stderr {
                    Some(text) => text,
                    None => "No stderr available"@,
                },
            ),
        ).insert("pipe_status"@, pipe_status_json(s)),
    )
}

impl MCPProcess {
    fn process_status_value(&self, probe: ChildProbe) -> (r: serde_json::Value)
        ensures
            json_of(r) == process_status_json(self@.phase, probe),
    {
        let mut members = new_members();
        if !self.is_live() {
            insert_member(&mut members, "running", bool_value(false));
            insert_member(&mut members, "error", text_value("No child process available"));
            return object_value(members);
        }
        match probe {
            ChildProbe::NoChild => {
                insert_member(&mut members, "running", bool_value(false));
                insert_member(&mut members, "error", text_value("No child process available"));
            },
            ChildProbe::Running => {
                insert_member(&mut members, "running", bool_value(true));
            },
            ChildProbe::Exited(status) => {
                insert_member(&mut members, "running", bool_value(false));
                insert_member(&mut members, "exit_status", text_value(status.as_str()));
            },
            ChildProbe::Failed(reason) => {
                insert_member(&mut members, "error", text_value(reason.as_str()));
            },
        }
        object_value(members)
    }

    /// A report on the session, given what the operating system said of the
    /// child, what a test of its standard output found, and what was
    /// harvested of its standard error.
    pub fn get_debug_info(
        &self,
        probe: ChildProbe,
        stdout_test: Result<String, String>,
        recent_stderr: Option<String>,
    ) -> (r: serde_json::Value)
        ensures
            json_of(r) == debug_info_json(
                self@,
                probe,
                text_or_reason(stdout_test),
                optional_text(recent_stderr),
            ),
    {
        let mut info = new_members();
        insert_member(&mut info, "process_status", self.process_status_value(probe));
        let mut test = new_members();
        match stdout_test {
            Ok(result) => {
                insert_member(&mut test, "success", bool_value(true));
                insert_member(&mut test, "result", text_value(result.as_str()));
            },
            Err(reason) => {
                insert_member(&mut test, "success", bool_value(false));
                insert_member(&mut test, "error", text_value(reason.as_str()));
            },
        }
        insert_member(&mut info, "stdout_test", object_value(test));
        let stderr = match recent_stderr {
            Some(text) => text_value(text.as_str()),
            None => text_value("No stderr available"),
        };
        insert_member(&mut info, "recent_stderr", stderr);
        let mut pipes = new_members();
        insert_member(&mut pipes, "stdin_available", bool_value(self.is_live()));
        insert_member(&mut pipes, "stdout_available", bool_value(self.is_live()));
        insert_member(&mut pipes, "stderr_receiver_available", bool_value(self.stderr_drain));
        insert_member(&mut info, "pipe_status", object_value(pipes));
        object_value(info)
    }
}

/// An answer in the shape that older callers expect.
#[derive(Debug)]
pub struct MCPResponse {
    pub success: bool,
    pub data: Option<serde_json::Value>,
    pub error: Option<String>,
}

} // verus!

//! The commands that the host calls: what each one answers, given what the
//! registry made of it.

use crate::error::{display_text, ErrorView, ProtocollieError};
use crate::registry::{ConnectionInfo, ConnectionRegistry};
use crate::text::concat2;
use vstd::prelude::*;
use vstd::string::*;

verus! {

/// The answer to a health check.
#[derive(Debug)]
pub struct HealthCheckResponse {
    pub status: String,
    pub version: String,
    pub plugin_name: String,
    pub initialized: bool,
}

/// The request to connect a server.
#[derive(Debug)]
pub struct ConnectServerRequest {
    pub server_id: String,
    pub command: String,
    pub args: Vec<String>,
}

/// The request to run a tool.
#[derive(Debug)]
pub struct ExecuteToolRequest {
    pub server_id: String,
    pub tool_name: String,
    pub arguments: serde_json::Value,
}

/// The answer to a request to run a tool.
#[derive(Debug)]
pub struct ExecuteToolResponse {
    pub result: serde_json::Value,
    pub duration_ms: u64,
}

/// What a command answers: on success `prefix` and the server's id, on
/// failure `complaint` and the displayed error.
pub open spec fn reply(
    prefix: Seq<char>,
    complaint: Seq<char>,
    server_id: Seq<char>,
    outcome: Result<(), ErrorView>,
) -> Result<Seq<char>, Seq<char>> {
    match outcome {
        Ok(_) => Ok(prefix + server_id),
        Err(e) => Err(complaint + display_text(e)),
    }
}

/// The view of an outcome without a value.
pub open spec fn outcome_view(outcome: Result<(), ProtocollieError>) -> Result<(), ErrorView> {
    match outcome {
        Ok(_) => Ok(()),
        Err(e) => Err(e@),
    }
}

/// The texts of an answer.
pub open spec fn reply_view(r: Result<String, String>) -> Result<Seq<char>, Seq<char>> {
    match r {
        Ok(s) => Ok(s@),
        Err(s) => Err(s@),
    }
}

/// The answer to a health check: all is well, under this version.
pub fn health_check(version: &str) -> (r: HealthCheckResponse)
    ensures
        r.status@ == "ok"@,
        r.version@ == version@,
        r.plugin_name@ == "tauri-plugin-mcp-client"@,
        r.initialized,
{
    HealthCheckResponse {
        status: String::from_str("ok"),
        version: String::from_str(version),
        plugin_name: String::from_str("tauri-plugin-mcp-client"),
        initialized: true,
    }
}

/// The records of all connections.
pub fn get_connection_statuses(registry: &ConnectionRegistry) -> (r: Result<
    Vec<ConnectionInfo>,
    String,
>)
    ensures
        r matches Ok(infos) && infos@.len() == registry@.len() && forall|i: int|
            0 <= i < infos@.len() ==> (#[trigger] infos@[i])@ == registry@[i].info,
{
    registry.get_connection_statuses()
}

fn answer(prefix: &str, complaint: &str, server_id: &str, outcome: Result<(), ProtocollieError>)
    -> (r: Result<String, String>)
    ensures
        reply_view(r) == reply(prefix@, complaint@, server_id@, outcome_view(outcome)),
{
    match outcome {
        Ok(_) => Ok(concat2(prefix, server_id)),
        Err(e) => {
            let shown = e.to_string();
            Err(concat2(complaint, shown.as_str()))
        },
    }
}

/// What the command to connect `server_id` answers, given what came of
/// connecting.
pub fn plugin_connect_server(server_id: &str, outcome: Result<(), ProtocollieError>) -> (r: Result<
    String,
    String,
>)
    ensures
        reply_view(r) == reply(
            "Successfully connected to server: "@,
            "Failed to connect: "@,
            server_id@,
            outcome_view(outcome),
        ),
{
    answer("Successfully connected to server: ", "Failed to connect: ", server_id, outcome)
}

/// What the command to disconnect `server_id` answers, given what came of
/// disconnecting.
pub fn plugin_disconnect_server(server_id: &str, outcome: Result<(), ProtocollieError>) -> (r:
    Result<String, String>)
    ensures
        reply_view(r) == reply(
            "Successfully disconnected from server: "@,
            "Failed to disconnect: "@,
            server_id@,
            outcome_view(outcome),
        ),
{
    answer("Successfully disconnected from server: ", "Failed to disconnect: ", server_id, outcome)
}

/// What the command to list the tools of a server answers, given what came
/// of the call: the tools as the server gave them, or the displayed error.
pub fn plugin_list_tools(outcome: Result<serde_json::Value, ProtocollieError>) -> (r: Result<
    serde_json::Value,
    String,
>)
    ensures
        match outcome {
            Ok(tools) => r == Ok::<serde_json::Value, String>(tools),
            Err(e) => r matches Err(shown) && shown@ == "Failed to list tools: "@ + display_text(
                e@,
            ),
        },
{
    match outcome {
        Ok(tools) => Ok(tools),
        Err(e) => {
            let shown = e.to_string();
            Err(concat2("Failed to list tools: ", shown.as_str()))
        },
    }
}

/// What the command to run a tool answers, given what came of the call: the
/// result with the time it took, or the displayed error.
pub fn plugin_execute_tool(outcome: Result<(serde_json::Value, u64), ProtocollieError>) -> (r:
    Result<ExecuteToolResponse, String>)
    ensures
        match outcome {
            Ok(done) => r matches Ok(response) && response.result == done.0
                && response.duration_ms == done.1,
            Err(e) => r matches Err(shown) && shown@ == "Failed to execute tool: "@
                + display_text(e@),
        },
{
    match outcome {
        Ok((result, duration_ms)) => Ok(ExecuteToolResponse { result, duration_ms }),
        Err(e) => {
            let shown = e.to_string();
            Err(concat2("Failed to execute tool: ", shown.as_str()))
        },
    }
}

} // verus!

//! The JSON-RPC 2.0 messages of the Model Context Protocol that a client
//! sends, and how it reads what comes back.

use crate::error::{protocol_error_view, ErrorCategory, ErrorView, ProtocollieError};
use crate::json::{
    as_u64, clone_value, insert_member, json_of, json_shown, member, member_value, new_members,
    no_members,
    number_value, object_value, show_value, text_value, value_as_u64, value_get, Json, JsonNumber,
};
use crate::text::{concat2, concat3};
use vstd::prelude::*;
use vstd::string::*;

verus! {

/// A request: the protocol's version, the id, the method and its parameters.
pub open spec fn request_json(id: u32, method: Seq<char>, params: Json) -> Json {
    Json::Object(
        no_members().insert("jsonrpc"@, Json::Text("2.0"@)).insert(
            "id"@,
            Json::Number(JsonNumber::PosInt(id as u64)),
        ).insert("method"@, Json::Text(method)).insert("params"@, params),
    )
}

/// A notification: a message without an id, to which no answer is owed.
pub open spec fn notification_json(method: Seq<char>) -> Json {
    Json::Object(
        no_members().insert("jsonrpc"@, Json::Text("2.0"@)).insert("method"@, Json::Text(method)),
    )
}

/// The parameters of `initialize`: the version of the protocol, no
/// capabilities, and who the client is.
pub open spec fn initialize_params() -> Json {
    Json::Object(
        no_members().insert("protocolVersion"@, Json::Text("2024-11-05"@)).insert(
            "capabilities"@,
            Json::Object(no_members()),
        ).insert(
            "clientInfo"@,
            Json::Object(
                no_members().insert("name"@, Json::Text("protocollie"@)).insert(
                    "version"@,
                    Json::Text("1.0.0"@),
                ),
            ),
        ),
    )
}

/// The parameters of `tools/call`: the tool's name and its arguments.
pub open spec fn tool_call_params(name: Seq<char>, arguments: Json) -> Json {
    Json::Object(no_members().insert("name"@, Json::Text(name)).insert("arguments"@, arguments))
}

/// The request with the given id, method and parameters.
pub fn request_message(id: u32, method: &str, params: serde_json::Value) -> (message:
    serde_json::Value)
    ensures
        json_of(message) == request_json(id, method@, json_of(params)),
{
    let mut members = new_members();
    insert_member(&mut members, "jsonrpc", text_value("2.0"));
    insert_member(&mut members, "id", number_value(id as u64));
    insert_member(&mut members, "method", text_value(method));
    insert_member(&mut members, "params", params);
    object_value(members)
}

/// The notification of the given method.
pub fn notification_message(method: &str) -> (message: serde_json::Value)
    ensures
        json_of(message) == notification_json(method@),
{
    let mut members = new_members();
    insert_member(&mut members, "jsonrpc", text_value("2.0"));
    insert_member(&mut members, "method", text_value(method));
    object_value(members)
}

/// The request that opens a session.
pub fn initialize_message(id: u32) -> (message: serde_json::Value)
    ensures
        json_of(message) == request_json(id, "initialize"@, initialize_params()),
{
    let mut client = new_members();
    insert_member(&mut client, "name", text_value("protocollie"));
    insert_member(&mut client, "version", text_value("1.0.0"));
    let mut params = new_members();
    insert_member(&mut params, "protocolVersion", text_value("2024-11-05"));
    insert_member(&mut params, "capabilities", object_value(new_members()));
    insert_member(&mut params, "clientInfo", object_value(client));
    request_message(id, "initialize", object_value(params))
}

/// The notification that ends the opening of a session.
pub fn initialized_message() -> (message: serde_json::Value)
    ensures
        json_of(message) == notification_json("notifications/initialized"@),
{
    notification_message("notifications/initialized")
}

/// The request for the list of tools.
pub fn list_tools_message(id: u32) -> (message: serde_json::Value)
    ensures
        json_of(message) == request_json(id, "tools/list"@, Json::Object(no_members())),
{
    request_message(id, "tools/list", object_value(new_members()))
}

/// The request to run the tool `name` with `arguments`.
pub fn call_tool_message(id: u32, name: &str, arguments: serde_json::Value) -> (message:
    serde_json::Value)
    ensures
        json_of(message) == request_json(
            id,
            "tools/call"@,
            tool_call_params(name@, json_of(arguments)),
        ),
{
    let mut params = new_members();
    insert_member(&mut params, "name", text_value(name));
    insert_member(&mut params, "arguments", arguments);
    request_message(id, "tools/call", object_value(params))
}

/// The id that a message answers: the number under `id`, where the message
/// is an object that has one. A notification answers nothing.
pub open spec fn response_id(message: Json) -> Option<u64> {
    match member(message, "id"@) {
        Some(id) => as_u64(id),
        None => None,
    }
}

/// A request bears its id, its method and its parameters, each under its
/// own key: the answer to it is told by the id.
pub proof fn lemma_request_bears_its_id(id: u32, method: Seq<char>, params: Json)
    ensures
        response_id(request_json(id, method, params)) == Some(id as u64),
        member(request_json(id, method, params), "method"@) == Some(Json::Text(method)),
        member(request_json(id, method, params), "params"@) == Some(params),
        member(request_json(id, method, params), "jsonrpc"@) == Some(Json::Text("2.0"@)),
{
    reveal_strlit("jsonrpc");
    reveal_strlit("id");
    reveal_strlit("method");
    reveal_strlit("params");
    assert("method"@[0] != "params"@[0]);
    assert("id"@.len() != "method"@.len());
    assert("id"@.len() != "params"@.len());
    assert("id"@.len() != "jsonrpc"@.len());
    assert("jsonrpc"@.len() != "method"@.len());
    assert("jsonrpc"@.len() != "params"@.len());
}

/// A notification bears no id: it is the answer to no request.
pub proof fn lemma_notification_bears_no_id(method: Seq<char>)
    ensures
        response_id(notification_json(method)) is None,
        member(notification_json(method), "method"@) == Some(Json::Text(method)),
{
    reveal_strlit("jsonrpc");
    reveal_strlit("id");
    reveal_strlit("method");
    assert("id"@.len() != "method"@.len());
    assert("id"@.len() != "jsonrpc"@.len());
    assert("jsonrpc"@.len() != "method"@.len());
}

/// Whether `message` is the answer to the request `expected_id`.
pub fn answers(message: &serde_json::Value, expected_id: u64) -> (b: bool)
    ensures
        b == (response_id(json_of(*message)) == Some(expected_id)),
{
    match value_get(message, "id") {
        Some(id) => match value_as_u64(id) {
            Some(n) => n == expected_id,
            None => false,
        },
        None => false,
    }
}

/// The error for an answer in which the server reports an error of its own.
pub open spec fn server_error_view(shown: Seq<char>) -> ErrorView {
    protocol_error_view("MCP server returned error: "@ + shown)
}

/// The error for an answer that holds neither a result nor an error.
pub open spec fn empty_response_view() -> ErrorView {
    protocol_error_view("Invalid JSON-RPC response: missing result and error"@)
}

/// The error for a tool that the server could not run.
pub open spec fn tool_failed_view(tool_name: Seq<char>, shown: Seq<char>) -> ErrorView {
    ErrorView {
        category: ErrorCategory::Protocol,
        code: "TOOL_EXECUTION_ERROR"@,
        message: "Tool '"@ + tool_name + "' execution failed"@,
        details: Some("MCP server returned error: "@ + shown),
        suggestions: seq![
            "Check the tool parameters are correct"@,
            "Verify the tool exists on this server"@,
            "Review server logs for more details"@,
        ],
    }
}

/// What an answer to `tools/list` comes to, given the result and the error
/// that it holds: the result where there is one; else the server's error,
/// shown as text; else the report that both are missing.
pub open spec fn response_outcome(
    result: Option<serde_json::Value>,
    error: Option<Seq<char>>,
) -> Result<serde_json::Value, ErrorView> {
    match result {
        Some(value) => Ok(value),
        None => match error {
            Some(shown) => Err(server_error_view(shown)),
            None => Err(empty_response_view()),
        },
    }
}

/// What an answer to `tools/call` comes to, given the result and the error
/// that it holds and the time the call took.
pub open spec fn tool_outcome(
    tool_name: Seq<char>,
    result: Option<serde_json::Value>,
    error: Option<Seq<char>>,
    duration_ms: u64,
) -> Result<(serde_json::Value, u64), ErrorView> {
    match result {
        Some(value) => Ok((value, duration_ms)),
        None => match error {
            Some(shown) => Err(tool_failed_view(tool_name, shown)),
            None => Err(empty_response_view()),
        },
    }
}

/// The text that the member `error` of a value is shown as, where there is
/// one.
pub open spec fn shown_error(response: serde_json::Value) -> Option<Seq<char>> {
    match member_value(response, "error"@) {
        Some(error) => Some(json_shown(error)),
        None => None,
    }
}

/// Whether a result with an error's view stands for `outcome`.
pub open spec fn is_outcome<T>(r: Result<T, ProtocollieError>, outcome: Result<T, ErrorView>)
    -> bool {
    match r {
        Ok(value) => outcome == Ok::<T, ErrorView>(value),
        Err(e) => outcome == Err::<T, ErrorView>(e@),
    }
}

/// Decides what an answer to `tools/list` comes to once its parts are taken
/// out of it.
pub fn list_outcome(result: Option<serde_json::Value>, error: Option<String>) -> (r: Result<
    serde_json::Value,
    ProtocollieError,
>)
    ensures
        is_outcome(
            r,
            response_outcome(
                result,
                match error {
                    Some(shown) => Some(shown@),
                    None => None,
                },
            ),
        ),
{
    match result {
        Some(value) => Ok(value),
        None => match error {
            Some(shown) => {
                let details = concat2("MCP server returned error: ", shown.as_str());
                Err(ProtocollieError::protocol_error(details.as_str()))
            },
            None => Err(
                ProtocollieError::protocol_error(
                    "Invalid JSON-RPC response: missing result and error",
                ),
            ),
        },
    }
}

/// Decides what an answer to `tools/call` comes to once its parts are taken
/// out of it.
pub fn call_outcome(
    tool_name: &str,
    result: Option<serde_json::Value>,
    error: Option<String>,
    duration_ms: u64,
) -> (r: Result<(serde_json::Value, u64), ProtocollieError>)
    ensures
        is_outcome(
            r,
            tool_outcome(
                tool_name@,
                result,
                match error {
                    Some(shown) => Some(shown@),
                    None => None,
                },
                duration_ms,
            ),
        ),
{
    match result {
        Some(value) => Ok((value, duration_ms)),
        None => match error {
            Some(shown) => {
                let message = concat3("Tool '", tool_name, "' execution failed");
                let details = concat2("MCP server returned error: ", shown.as_str());
                let e = ProtocollieError::new(
                    ErrorCategory::Protocol,
                    "TOOL_EXECUTION_ERROR",
                    message.as_str(),
                ).with_details(details.as_str()).with_suggestion(
                    "Check the tool parameters are correct",
                ).with_suggestion("Verify the tool exists on this server").with_suggestion(
                    "Review server logs for more details",
                );
                assert(e@.suggestions =~= tool_failed_view(tool_name@, shown@).suggestions);
                Err(e)
            },
            None => Err(
                ProtocollieError::protocol_error(
                    "Invalid JSON-RPC response: missing result and error",
                ),
            ),
        },
    }
}

fn result_of(response: &serde_json::Value) -> (r: Option<serde_json::Value>)
    ensures
        r == member_value(*response, "result"@),
{
    match value_get(response, "result") {
        Some(result) => Some(clone_value(result)),
        None => None,
    }
}

fn error_of(response: &serde_json::Value) -> (r: Option<String>)
    ensures
        match r {
            Some(shown) => shown_error(*response) == Some(shown@),
            None => shown_error(*response) is None,
        },
{
    match value_get(response, "error") {
        Some(error) => Some(show_value(error)),
        None => None,
    }
}

/// The result that an answer to `tools/list` holds, or the error that it
/// comes to.
pub fn list_tools_result(response: &serde_json::Value) -> (r: Result<
    serde_json::Value,
    ProtocollieError,
>)
    ensures
        is_outcome(
            r,
            response_outcome(member_value(*response, "result"@), shown_error(*response)),
        ),
{
    list_outcome(result_of(response), error_of(response))
}

/// The result that an answer to `tools/call` holds, with the time the call
/// took, or the error that it comes to.
pub fn call_tool_result(tool_name: &str, response: &serde_json::Value, duration_ms: u64) -> (r:
    Result<(serde_json::Value, u64), ProtocollieError>)
    ensures
        is_outcome(
            r,
            tool_outcome(
                tool_name@,
                member_value(*response, "result"@),
                shown_error(*response),
                duration_ms,
            ),
        ),
{
    call_outcome(tool_name, result_of(response), error_of(response), duration_ms)
}

} // verus!

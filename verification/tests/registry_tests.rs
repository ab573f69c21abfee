use serde_json::Value;
use tauri_plugin_mcp_client::commands::{
    get_connection_statuses, health_check, plugin_connect_server, plugin_disconnect_server,
    plugin_execute_tool, plugin_list_tools,
};
use tauri_plugin_mcp_client::error::{ErrorCategory, ProtocollieError};
use tauri_plugin_mcp_client::process::{ChildProbe, MCPProcess, ReadEvent, ReadStep};
use tauri_plugin_mcp_client::registry::{
    connection_failed, ConnectionRegistry, ExchangeEnd, EVENT_CONNECTION_CHANGED,
    EXECUTE_TOOL_TIMEOUT_MS, LIST_TOOLS_TIMEOUT_MS,
};

fn json(text: &str) -> Value {
    serde_json::from_str(text).unwrap()
}

fn live(server_id: &str) -> MCPProcess {
    let mut process = MCPProcess::new(server_id.to_string());
    process.start("mock", Ok(())).unwrap();
    process
}

fn connect(registry: &mut ConnectionRegistry, server_id: &str, command: &str) -> bool {
    let mut process = live(server_id);
    // The handshake takes the first id.
    let _ = process.send_initialize();
    let (reap, event) = registry.connect_server(
        server_id.to_string(),
        command.to_string(),
        vec!["--stdio".to_string()],
        process,
        1700000000,
    );
    assert_eq!(event.status, "connected");
    reap
}

fn ids(registry: &ConnectionRegistry) -> Vec<String> {
    registry.get_connection_statuses().unwrap().into_iter().map(|c| c.server_id).collect()
}

fn answer(wait: &mut tauri_plugin_mcp_client::process::ResponseWait, text: &str) -> ExchangeEnd {
    match wait.on_read(ReadEvent::Line(text.to_string())) {
        ReadStep::Delivered(value) => ExchangeEnd::Answered(value),
        ReadStep::Closed(e) => ExchangeEnd::Closed(e),
        ReadStep::Failed(e) => ExchangeEnd::Failed(e),
        ReadStep::Continue => panic!("the answer was not delivered"),
    }
}

#[test]
fn the_topic_is_fixed() {
    assert_eq!(EVENT_CONNECTION_CHANGED, "mcp://connection-changed");
    assert_eq!(LIST_TOOLS_TIMEOUT_MS, 5000);
    assert_eq!(EXECUTE_TOOL_TIMEOUT_MS, 10000);
}

#[test]
fn connecting_records_and_announces() {
    let mut registry = ConnectionRegistry::new();
    let (reap, event) = registry.connect_server(
        "s".to_string(),
        "node".to_string(),
        vec!["server.js".to_string()],
        live("s"),
        1700000000,
    );
    assert!(!reap);
    assert_eq!(event.server_id, "s");
    assert_eq!(event.status, "connected");
    assert_eq!(event.reason, None);
    assert_eq!(event.timestamp, 1700000000);
    assert_eq!(event.command, Some("node".to_string()));
    assert_eq!(event.args, Some(vec!["server.js".to_string()]));

    assert_eq!(registry.is_server_connected("s"), Ok(true));
    let statuses = registry.get_connection_statuses().unwrap();
    assert_eq!(statuses.len(), 1);
    assert_eq!(statuses[0].server_id, "s");
    assert_eq!(statuses[0].command, "node");
    assert_eq!(statuses[0].args, vec!["server.js".to_string()]);
    assert_eq!(statuses[0].status, "connected");
    assert_eq!(statuses[0].connected_at, Some(1700000000));
    assert_eq!(get_connection_statuses(&registry).unwrap().len(), 1);
}

#[test]
fn disconnecting_removes_and_announces() {
    let mut registry = ConnectionRegistry::new();
    connect(&mut registry, "a", "node");
    connect(&mut registry, "b", "python");
    let (reap, event) = registry.disconnect_server("a", 5);
    assert!(reap);
    assert_eq!(event.server_id, "a");
    assert_eq!(event.status, "disconnected");
    assert_eq!(event.reason, Some("User requested disconnection".to_string()));
    assert_eq!(event.timestamp, 5);
    assert_eq!(event.command, None);
    assert_eq!(event.args, None);
    assert_eq!(registry.is_server_connected("a"), Ok(false));
    assert_eq!(registry.is_server_connected("b"), Ok(true));
    assert_eq!(ids(&registry), vec!["b".to_string()]);
}

#[test]
fn connect_then_disconnect_restores_the_membership() {
    let mut registry = ConnectionRegistry::new();
    connect(&mut registry, "a", "node");
    connect(&mut registry, "b", "node");
    let before = ids(&registry);
    connect(&mut registry, "c", "node");
    registry.disconnect_server("c", 0);
    assert_eq!(ids(&registry), before);
}

#[test]
fn connecting_again_supersedes_without_a_word() {
    let mut registry = ConnectionRegistry::new();
    assert!(!connect(&mut registry, "s", "first"));
    connect(&mut registry, "other", "x");
    // The second connection tells the caller to reap the first child, and
    // returns one announcement only: that of the new connection.
    assert!(connect(&mut registry, "s", "second"));
    let statuses = registry.get_connection_statuses().unwrap();
    let mine: Vec<_> = statuses.iter().filter(|c| c.server_id == "s").collect();
    assert_eq!(mine.len(), 1);
    assert_eq!(mine[0].command, "second");
    assert_eq!(statuses.len(), 2);
}

#[test]
fn silent_disconnect_says_whether_there_was_a_child() {
    let mut registry = ConnectionRegistry::new();
    connect(&mut registry, "s", "node");
    assert!(registry.disconnect_server_silent("s"));
    assert!(!registry.disconnect_server_silent("s"));
    assert_eq!(registry.is_server_connected("s"), Ok(false));
}

#[test]
fn happy_path_lists_the_tools() {
    let mut registry = ConnectionRegistry::new();
    connect(&mut registry, "s", "node");
    let mut exchange = registry.list_tools("s", ChildProbe::Running, 10).ok().unwrap();
    assert_eq!(exchange.id, 1);
    assert_eq!(
        json(&exchange.line),
        json(r#"{"jsonrpc":"2.0","id":1,"method":"tools/list","params":{}}"#)
    );
    assert!(exchange.line.ends_with('\n'));
    assert!(exchange.wait.on_clock(4999).is_none());
    assert!(exchange.wait.on_clock(5000).is_some());
    let end = answer(
        &mut exchange.wait,
        r#"{"jsonrpc":"2.0","id":1,"result":{"tools":[{"name":"echo","description":"","inputSchema":{}}]}}"#,
    );
    let done = registry.finish_list_tools("s", end, 11);
    assert!(done.event.is_none());
    assert!(!done.reap);
    assert_eq!(
        done.result.unwrap(),
        json(r#"{"tools":[{"name":"echo","description":"","inputSchema":{}}]}"#)
    );
    assert_eq!(registry.is_server_connected("s"), Ok(true));
}

#[test]
fn tool_call_returns_the_result_and_the_time() {
    let mut registry = ConnectionRegistry::new();
    connect(&mut registry, "s", "node");
    let _ = registry.list_tools("s", ChildProbe::Running, 10);
    let mut exchange = registry
        .execute_tool("s", "echo", json(r#"{"message":"Hello, World!"}"#), ChildProbe::Running, 10)
        .ok()
        .unwrap();
    assert_eq!(exchange.id, 2);
    assert_eq!(
        json(&exchange.line),
        json(
            r#"{"jsonrpc":"2.0","id":2,"method":"tools/call",
                "params":{"name":"echo","arguments":{"message":"Hello, World!"}}}"#
        )
    );
    assert!(exchange.wait.on_clock(9999).is_none());
    assert!(exchange.wait.on_clock(10000).is_some());
    let end = answer(
        &mut exchange.wait,
        r#"{"jsonrpc":"2.0","id":2,"result":{"content":[{"type":"text","text":"Echo: Hello, World!"}]}}"#,
    );
    let done = registry.finish_execute_tool("s", "echo", end, 42, 11);
    let (result, elapsed_ms) = done.result.unwrap();
    assert_eq!(result, json(r#"{"content":[{"type":"text","text":"Echo: Hello, World!"}]}"#));
    assert_eq!(elapsed_ms, 42);
}

#[test]
fn unknown_method_is_a_protocol_error() {
    let mut registry = ConnectionRegistry::new();
    connect(&mut registry, "s", "node");
    let mut exchange = registry.list_tools("s", ChildProbe::Running, 10).ok().unwrap();
    let end = answer(
        &mut exchange.wait,
        r#"{"jsonrpc":"2.0","id":1,"error":{"code":-32601,"message":"Method 'unknown' not found"}}"#,
    );
    let error = registry.finish_list_tools("s", end, 11).result.unwrap_err();
    assert_eq!(error.category, ErrorCategory::Protocol);
    assert_eq!(error.code, "PROTOCOL_ERROR");
    assert!(error.details.as_ref().unwrap().contains("-32601"));
    assert_eq!(
        error.details.unwrap(),
        "MCP server returned error: {\"code\":-32601,\"message\":\"Method 'unknown' not found\"}"
    );
}

#[test]
fn a_failed_tool_names_the_tool() {
    let mut registry = ConnectionRegistry::new();
    connect(&mut registry, "s", "node");
    let end = ExchangeEnd::Answered(json(r#"{"id":1,"error":{"code":-32000}}"#));
    let error = registry.finish_execute_tool("s", "echo", end, 3, 11).result.unwrap_err();
    assert_eq!(error.category, ErrorCategory::Protocol);
    assert_eq!(error.code, "TOOL_EXECUTION_ERROR");
    assert_eq!(error.message, "Tool 'echo' execution failed");
    assert_eq!(error.details, Some("MCP server returned error: {\"code\":-32000}".to_string()));

    let empty = ExchangeEnd::Answered(json(r#"{"id":1}"#));
    let error = registry.finish_execute_tool("s", "echo", empty, 3, 11).result.unwrap_err();
    assert_eq!(error.code, "PROTOCOL_ERROR");
    assert_eq!(
        error.details,
        Some("Invalid JSON-RPC response: missing result and error".to_string())
    );
}

#[test]
fn a_result_wins_over_an_error() {
    let mut registry = ConnectionRegistry::new();
    let end = ExchangeEnd::Answered(json(r#"{"id":1,"result":null,"error":{"code":1}}"#));
    assert_eq!(registry.finish_list_tools("s", end, 0).result.unwrap(), Value::Null);
}

#[test]
fn a_timeout_leaves_the_server_connected() {
    let mut registry = ConnectionRegistry::new();
    connect(&mut registry, "s", "node");
    let exchange = registry.list_tools("s", ChildProbe::Running, 10).ok().unwrap();
    let timeout = exchange.wait.on_clock(5000).unwrap();
    let done = registry.finish_list_tools("s", ExchangeEnd::Failed(timeout), 16);
    let error = done.result.unwrap_err();
    assert_eq!(error.category, ErrorCategory::Timeout);
    assert_eq!(error.code, "CONNECTION_TIMEOUT");
    assert!(error.details.unwrap().contains("received 0 lines"));
    assert!(done.event.is_none());
    assert!(!done.reap);
    assert_eq!(registry.is_server_connected("s"), Ok(true));
}

#[test]
fn an_exit_in_mid_call_disconnects_the_server() {
    let mut registry = ConnectionRegistry::new();
    connect(&mut registry, "s", "node");
    let mut exchange = registry.list_tools("s", ChildProbe::Running, 10).ok().unwrap();
    let end = match exchange.wait.on_read(ReadEvent::Closed) {
        ReadStep::Closed(e) => ExchangeEnd::Closed(e),
        _ => panic!("the wait went on"),
    };
    let done = registry.finish_list_tools("s", end, 12);
    let error = done.result.unwrap_err();
    assert_eq!(error.category, ErrorCategory::Connection);
    assert_eq!(error.code, "STDOUT_CLOSED");
    let event = done.event.unwrap();
    assert_eq!(event.server_id, "s");
    assert_eq!(event.status, "disconnected");
    assert_eq!(event.reason, Some("Process exited during tool listing".to_string()));
    assert_eq!(event.timestamp, 12);
    assert!(done.reap);
    assert_eq!(registry.is_server_connected("s"), Ok(false));
    assert!(ids(&registry).is_empty());

    // Told of the same end once more, the registry has nothing left to do.
    let again = registry.finish_list_tools(
        "s",
        ExchangeEnd::Closed(ProtocollieError::new(ErrorCategory::Connection, "STDOUT_CLOSED", "")),
        13,
    );
    assert!(again.event.is_none());
    assert!(!again.reap);
}

#[test]
fn a_child_found_gone_disconnects_the_server() {
    let mut registry = ConnectionRegistry::new();
    connect(&mut registry, "s", "node");
    connect(&mut registry, "t", "node");
    let failure = registry
        .list_tools("s", ChildProbe::Exited("exit status: 1".to_string()), 20)
        .err()
        .unwrap();
    assert_eq!(failure.error.category, ErrorCategory::Connection);
    assert_eq!(failure.error.code, "PROCESS_EXITED");
    assert_eq!(failure.error.message, "MCP process for server s has exited");
    let event = failure.event.unwrap();
    assert_eq!(event.reason, Some("Process exited during tool listing".to_string()));
    assert_eq!(event.status, "disconnected");
    assert!(failure.reap);
    assert_eq!(registry.is_server_connected("s"), Ok(false));

    let failure =
        registry.execute_tool("t", "echo", json("{}"), ChildProbe::NoChild, 21).err().unwrap();
    assert_eq!(failure.error.code, "PROCESS_EXITED");
    assert_eq!(
        failure.event.unwrap().reason,
        Some("Process exited during tool execution".to_string())
    );
    assert_eq!(registry.is_server_connected("t"), Ok(false));
}

#[test]
fn a_failed_status_check_changes_nothing() {
    let mut registry = ConnectionRegistry::new();
    connect(&mut registry, "s", "node");
    let failure =
        registry.list_tools("s", ChildProbe::Failed("ECHILD".to_string()), 20).err().unwrap();
    assert_eq!(failure.error.category, ErrorCategory::System);
    assert_eq!(failure.error.code, "STATUS_CHECK_FAILED");
    assert_eq!(failure.error.details, Some("ECHILD".to_string()));
    assert!(failure.event.is_none());
    assert!(!failure.reap);
    assert_eq!(registry.is_server_connected("s"), Ok(true));
    // No id was spent on the call that failed.
    assert_eq!(registry.list_tools("s", ChildProbe::Running, 20).ok().unwrap().id, 1);
}

#[test]
fn each_server_counts_its_own_ids() {
    let mut registry = ConnectionRegistry::new();
    connect(&mut registry, "a", "node");
    connect(&mut registry, "b", "node");
    assert_eq!(registry.list_tools("a", ChildProbe::Running, 0).ok().unwrap().id, 1);
    assert_eq!(registry.list_tools("a", ChildProbe::Running, 0).ok().unwrap().id, 2);
    assert_eq!(registry.list_tools("b", ChildProbe::Running, 0).ok().unwrap().id, 1);
    assert_eq!(ids(&registry), vec!["a".to_string(), "b".to_string()]);
}

#[test]
fn stderr_becomes_the_details_of_a_failed_connection() {
    let error = ProtocollieError::command_not_found("node");
    let plain = connection_failed(ProtocollieError::command_not_found("node"), None);
    assert_eq!(plain.details, error.details);
    let enriched = connection_failed(error, Some("Error: Cannot find module".to_string()));
    assert_eq!(enriched.code, "CMD_NOT_FOUND");
    assert_eq!(enriched.details, Some("Process stderr: Error: Cannot find module".to_string()));
}

#[test]
fn test_health_check_response_structure() {
    let expected_fields = vec!["status", "version", "plugin_name", "initialized"];

    let mock_response = json(
        r#"{"status": "healthy", "version": "0.1.0", "plugin_name": "tauri-plugin-mcp",
            "initialized": true}"#,
    );

    for field in expected_fields {
        assert!(mock_response.get(field).is_some(), "Missing field: {}", field);
    }

    assert!(mock_response["status"].is_string());
    assert!(mock_response["version"].is_string());
    assert!(mock_response["plugin_name"].is_string());
    assert!(mock_response["initialized"].is_boolean());

    let response = health_check("0.1.0");
    assert_eq!(response.status, "ok");
    assert_eq!(response.version, "0.1.0");
    assert_eq!(response.plugin_name, "tauri-plugin-mcp-client");
    assert!(response.initialized);
}

#[test]
fn commands_answer_in_words() {
    assert_eq!(
        plugin_connect_server("s", Ok(())),
        Ok("Successfully connected to server: s".to_string())
    );
    let failed = plugin_connect_server(
        "s",
        Err(ProtocollieError::new(ErrorCategory::Command, "C", "m")),
    );
    assert_eq!(failed, Err("Failed to connect: [COMMAND:C] m".to_string()));
    assert_eq!(
        plugin_disconnect_server("s", Ok(())),
        Ok("Successfully disconnected from server: s".to_string())
    );
    assert_eq!(
        plugin_disconnect_server("s", Err(ProtocollieError::new(ErrorCategory::System, "S", "m"))),
        Err("Failed to disconnect: [SYSTEM:S] m".to_string())
    );
    assert_eq!(plugin_list_tools(Ok(json("[1]"))), Ok(json("[1]")));
    assert_eq!(
        plugin_list_tools(Err(ProtocollieError::new(ErrorCategory::Timeout, "T", "m"))),
        Err("Failed to list tools: [TIMEOUT:T] m".to_string())
    );
    let done = plugin_execute_tool(Ok((json("{}"), 150))).unwrap();
    assert_eq!(done.result, json("{}"));
    assert_eq!(done.duration_ms, 150);
    assert_eq!(
        plugin_execute_tool(Err(ProtocollieError::new(ErrorCategory::Timeout, "T", "m"))).err(),
        Some("Failed to execute tool: [TIMEOUT:T] m".to_string())
    );
}

#[test]
fn check_server_prunes_what_does_not_run() {
    let mut registry = ConnectionRegistry::new();
    connect(&mut registry, "a", "node");
    connect(&mut registry, "b", "node");
    assert_eq!(registry.check_server("a", ChildProbe::Running), (true, false));
    assert_eq!(registry.check_server("zz", ChildProbe::Running), (false, false));
    assert_eq!(registry.check_server("zz", ChildProbe::NoChild), (false, false));
    assert_eq!(registry.check_server("a", ChildProbe::Exited("0".to_string())), (false, true));
    assert_eq!(registry.check_server("b", ChildProbe::Failed("x".to_string())), (false, true));
    assert!(ids(&registry).is_empty());
}

#[test]
fn what_was_disconnected_last_is_never_reported() {
    // A fixed walk over connects, disconnects and calls on four servers.
    let names = ["a", "b", "c", "d"];
    let mut registry = ConnectionRegistry::new();
    let mut expected = [false; 4];
    let mut seed: u32 = 12345;
    for _ in 0..2000 {
        seed = seed.wrapping_mul(1664525).wrapping_add(1013904223);
        let server = ((seed >> 16) % 4) as usize;
        let name = names[server];
        match (seed >> 24) % 4 {
            0 => {
                let superseded = connect(&mut registry, name, "node");
                assert_eq!(superseded, expected[server]);
                expected[server] = true;
            }
            1 => {
                let (reap, _) = registry.disconnect_server(name, 0);
                assert_eq!(reap, expected[server]);
                expected[server] = false;
            }
            2 => {
                let begun = registry.list_tools(name, ChildProbe::Running, 0);
                assert_eq!(begun.is_ok(), expected[server]);
            }
            _ => {
                let begun =
                    registry.execute_tool(name, "echo", json("{}"), ChildProbe::Running, 0);
                assert_eq!(begun.is_ok(), expected[server]);
            }
        }
        for (i, name) in names.iter().enumerate() {
            assert_eq!(registry.is_server_connected(name), Ok(expected[i]));
        }
        let reported = ids(&registry);
        assert_eq!(reported.len(), expected.iter().filter(|c| **c).count());
        assert!(reported.iter().all(|id| expected[names.iter().position(|n| n == id).unwrap()]));
    }
}

#[test]
fn a_connect_that_came_through_is_entered_and_announced() {
    let mut registry = ConnectionRegistry::new();
    let done = registry.finish_connect(
        "s".to_string(),
        "node".to_string(),
        vec!["server.js".to_string()],
        Ok(live("s")),
        9,
    );
    assert!(done.result.is_ok());
    assert!(!done.reap);
    let event = done.event.unwrap();
    assert_eq!(event.status, "connected");
    assert_eq!(event.command, Some("node".to_string()));
    assert_eq!(event.timestamp, 9);
    assert_eq!(registry.is_server_connected("s"), Ok(true));
    assert_eq!(registry.get_connection_statuses().unwrap()[0].connected_at, Some(9));
}

#[test]
fn a_connect_to_a_missing_binary_leaves_nothing_and_says_nothing() {
    let mut registry = ConnectionRegistry::new();
    connect(&mut registry, "other", "node");

    let mut process = MCPProcess::new("s".to_string());
    let error = process
        .start(
            "this-command-does-not-exist-12345",
            Err("No such file or directory (os error 2)".to_string()),
        )
        .unwrap_err();
    // Nothing was spawned, so there is no standard error to harvest.
    assert!(process.collect_stderr(1000).is_none());
    let done = registry.finish_connect(
        "s".to_string(),
        "this-command-does-not-exist-12345".to_string(),
        vec![],
        Err((error, None)),
        9,
    );
    let error = done.result.unwrap_err();
    assert_eq!(error.category, ErrorCategory::Command);
    assert_eq!(error.code, "CMD_NOT_FOUND");
    assert!(done.event.is_none());
    assert!(!done.reap);
    assert_eq!(registry.is_server_connected("s"), Ok(false));
    assert_eq!(ids(&registry), vec!["other".to_string()]);
}

#[test]
fn a_handshake_that_failed_takes_the_harvest_as_details() {
    let mut registry = ConnectionRegistry::new();
    connect(&mut registry, "s", "first");
    let error = ProtocollieError::new(ErrorCategory::Connection, "WRITE_FAILED", "w");
    let done = registry.finish_connect(
        "s".to_string(),
        "second".to_string(),
        vec![],
        Err((error, Some("Error: Cannot find module".to_string()))),
        9,
    );
    let error = done.result.unwrap_err();
    assert_eq!(error.code, "WRITE_FAILED");
    assert_eq!(error.details, Some("Process stderr: Error: Cannot find module".to_string()));
    assert!(done.event.is_none());
    // An earlier connection under the id is gone as well, and its child is to be reaped.
    assert!(done.reap);
    assert_eq!(registry.is_server_connected("s"), Ok(false));
    assert!(ids(&registry).is_empty());
}

use serde_json::Value;
use tauri_plugin_mcp_client::error::ErrorCategory;
use tauri_plugin_mcp_client::error::ProtocollieError;
use tauri_plugin_mcp_client::process::{
    check_nodejs_availability, classify_spawn_error, frame_message, handshake_result,
    requires_nodejs, spawn_allowed, spawn_error, write_result, ChildProbe, DrainEvent, Handshake,
    HarvestStep, MCPProcess, NodeProbe, Phase, ReadEvent, ReadStep, StderrDrain, StdoutEvent,
    WriteOutcome,
};

fn json(text: &str) -> Value {
    serde_json::from_str(text).unwrap()
}

fn live(server_id: &str) -> MCPProcess {
    let mut process = MCPProcess::new(server_id.to_string());
    process.start("mock", Ok(())).unwrap();
    process
}

fn line(text: &str) -> ReadEvent {
    ReadEvent::Line(text.to_string())
}

#[test]
fn a_new_session_is_quiescent() {
    let process = MCPProcess::new("s".to_string());
    assert_eq!(process.server_id(), "s");
    assert_eq!(process.phase(), Phase::Quiescent);
    assert!(!process.is_live());
    assert_eq!(process.pending_count(), 0);
    assert!(process.collect_stderr(1000).is_none());
}

#[test]
fn a_thousand_ids_are_zero_to_nine_hundred_ninety_nine() {
    let mut process = MCPProcess::new("s".to_string());
    let ids: Vec<u32> = (0..1000).map(|_| process.next_message_id()).collect();
    let expected: Vec<u32> = (0..1000).collect();
    assert_eq!(ids, expected);
}

#[test]
fn requests_in_flight_are_tracked_and_completed() {
    let mut process = MCPProcess::new("s".to_string());
    let id = process.next_message_id();
    process.track_request(id, "initialize");
    assert!(process.is_pending(id));
    assert_eq!(process.pending_count(), 1);
    process.track_request(id, "tools/list");
    assert_eq!(process.pending_count(), 1);
    let request = process.complete_request(id).unwrap();
    assert_eq!(request.message_id, id);
    assert_eq!(request.method, "tools/list");
    assert!(!process.is_pending(id));
    assert!(process.complete_request(id).is_none());
}

#[test]
fn a_copy_of_a_request_in_flight_is_the_same_request() {
    let mut process = MCPProcess::new("s".to_string());
    process.track_request(3, "tools/call");
    let request = process.complete_request(3).unwrap();
    let copy = request.clone();
    assert_eq!(copy.message_id, 3);
    assert_eq!(copy.method, "tools/call");
    assert_eq!(copy.timestamp, request.timestamp);
}

#[test]
fn node_is_asked_for_by_node_and_npx_only() {
    assert!(requires_nodejs("node"));
    assert!(requires_nodejs("npx"));
    assert!(!requires_nodejs("nodejs"));
    assert!(!requires_nodejs("python"));
    assert!(!requires_nodejs(""));
}

#[test]
fn node_probe_outcomes() {
    let version = check_nodejs_availability(NodeProbe::Working("  v20.11.0\n".to_string()));
    assert_eq!(version.unwrap(), "v20.11.0");
    let broken = check_nodejs_availability(NodeProbe::Broken).unwrap_err();
    assert_eq!(broken.category, ErrorCategory::Command);
    assert_eq!(broken.code, "NODE_NOT_WORKING");
    assert_eq!(broken.suggestions.len(), 3);
    let missing = check_nodejs_availability(NodeProbe::Missing).unwrap_err();
    assert_eq!(missing.code, "NODE_NOT_FOUND");
    assert_eq!(missing.message, "Node.js is required but not found");
    assert_eq!(missing.suggestions.len(), 5);
}

#[test]
fn missing_binary_is_command_not_found() {
    let mut process = MCPProcess::new("s".to_string());
    let error = process
        .start(
            "this-command-does-not-exist-12345",
            Err("No such file or directory (os error 2)".to_string()),
        )
        .unwrap_err();
    assert_eq!(error.category, ErrorCategory::Command);
    assert_eq!(error.code, "CMD_NOT_FOUND");
    assert_eq!(error.message, "Command 'this-command-does-not-exist-12345' not found");
    assert_eq!(process.phase(), Phase::Quiescent);
    assert!(process.collect_stderr(1000).is_none());
}

#[test]
fn spawn_errors_are_told_apart() {
    let denied = spawn_error("./server", "Permission denied (os error 13)");
    assert_eq!(denied.category, ErrorCategory::Permission);
    assert_eq!(denied.code, "PERMISSION_DENIED");
    assert_eq!(denied.message, "Permission denied accessing command './server'");

    let node = spawn_error("node", "Exec format error (os error 8)");
    assert_eq!(node.code, "NODE_START_FAILED");
    assert_eq!(node.message, "Failed to start Node.js MCP server 'node'");
    assert_eq!(node.details, Some("Exec format error (os error 8)".to_string()));

    let python = spawn_error("python3", "Exec format error (os error 8)");
    assert_eq!(python.code, "PYTHON_START_FAILED");
    assert_eq!(python.message, "Failed to start Python MCP server 'python3'");

    let other = spawn_error("deno", "Exec format error (os error 8)");
    assert_eq!(other.code, "COMMAND_START_FAILED");
    assert_eq!(other.message, "Failed to start MCP server command 'deno'");
    assert_eq!(other.suggestions[0], "Ensure 'deno' is installed and in your PATH");

    // The reason is matched in lower case.
    assert_eq!(spawn_error("x", "NOT FOUND").code, "CMD_NOT_FOUND");
    assert_eq!(classify_spawn_error("x", "NOT FOUND", "NOT FOUND").code, "COMMAND_START_FAILED");
}

#[test]
fn a_started_session_is_live() {
    let process = live("s");
    assert_eq!(process.phase(), Phase::Live);
    assert!(process.collect_stderr(1000).is_some());
}

#[test]
fn stop_is_idempotent() {
    let mut process = live("s");
    let id = process.next_message_id();
    process.track_request(id, "initialize");
    assert!(process.stop());
    assert_eq!(process.phase(), Phase::Terminated);
    assert!(!process.stop());
    assert_eq!(process.phase(), Phase::Terminated);
    assert_eq!(process.pending_count(), 1);
    assert_eq!(process.next_message_id(), 1);

    let mut fresh = MCPProcess::new("t".to_string());
    assert!(!fresh.stop());
    assert_eq!(fresh.phase(), Phase::Terminated);
}

#[test]
fn messages_are_framed_as_one_line() {
    let process = live("s");
    let sent = process.send_message_sync(json(r#"{"a": [1, "two\n", {"b": null}]}"#)).unwrap();
    assert_eq!(sent, "{\"a\":[1,\"two\\n\",{\"b\":null}]}\n");
    assert_eq!(sent.matches('\n').count(), 1);
}

#[test]
fn nothing_is_sent_without_a_pipe() {
    let quiescent = MCPProcess::new("s".to_string());
    let error = quiescent.send_message_sync(json("{}")).unwrap_err();
    assert_eq!(error.category, ErrorCategory::Connection);
    assert_eq!(error.code, "NO_STDIN");

    let mut stopped = live("s");
    stopped.stop();
    assert_eq!(stopped.send_message_sync(json("{}")).unwrap_err().code, "NO_STDIN");
    assert_eq!(stopped.read_response(0, 5000).err().unwrap().code, "NO_STDOUT");
}

#[test]
fn framing_goes_by_the_outcome_of_serialising() {
    assert_eq!(frame_message(true, Ok("{}".to_string())).unwrap(), "{}\n");
    let failed = frame_message(true, Err("key must be a string".to_string())).unwrap_err();
    assert_eq!(failed.category, ErrorCategory::Protocol);
    assert_eq!(failed.code, "JSON_SERIALIZE_FAILED");
    assert_eq!(failed.details, Some("key must be a string".to_string()));
    assert_eq!(frame_message(false, Ok("{}".to_string())).unwrap_err().code, "NO_STDIN");
}

#[test]
fn write_outcomes_become_errors() {
    assert!(write_result(WriteOutcome::Written).is_ok());
    let write = write_result(WriteOutcome::WriteFailed("Broken pipe".to_string())).unwrap_err();
    assert_eq!(write.category, ErrorCategory::Connection);
    assert_eq!(write.code, "WRITE_FAILED");
    assert_eq!(write.details, Some("Broken pipe".to_string()));
    let flush = write_result(WriteOutcome::FlushFailed("Broken pipe".to_string())).unwrap_err();
    assert_eq!(flush.code, "FLUSH_FAILED");
    assert_eq!(flush.suggestions.len(), 2);
}

#[test]
fn handshake_sends_initialize_then_the_notification() {
    let mut process = live("s");
    let request = process.send_initialize();
    assert_eq!(request.id, 0);
    assert_eq!(request.timeout_ms, 5000);
    assert!(process.is_pending(0));
    assert_eq!(
        request.message,
        json(
            r#"{"jsonrpc":"2.0","id":0,"method":"initialize","params":{
                "protocolVersion":"2024-11-05","capabilities":{},
                "clientInfo":{"name":"protocollie","version":"1.0.0"}}}"#
        )
    );

    let mut wait = process.read_response(request.id as u64, request.timeout_ms).unwrap();
    let answer = match wait.on_read(line(
        r#"{"jsonrpc":"2.0","id":0,"result":{"protocolVersion":"2024-11-05","capabilities":{"tools":{}},"serverInfo":{"name":"mock","version":"1.0.0"}}}"#,
    )) {
        ReadStep::Delivered(value) => value,
        _ => panic!("the answer was not delivered"),
    };
    assert_eq!(answer["result"]["serverInfo"]["name"], "mock");

    let notification = process.finish_initialize(&Ok(answer));
    assert_eq!(notification, json(r#"{"jsonrpc":"2.0","method":"notifications/initialized"}"#));
    assert!(notification.get("id").is_none());
}

#[test]
fn a_late_answer_does_not_fail_the_handshake() {
    let mut process = live("s");
    let request = process.send_initialize();
    let wait = process.read_response(request.id as u64, request.timeout_ms).unwrap();
    let timeout = wait.on_clock(5000).unwrap();
    let notification = process.finish_initialize(&Err(timeout));
    assert_eq!(notification["method"], "notifications/initialized");
}

#[test]
fn only_the_answer_with_the_expected_id_is_delivered() {
    let process = live("s");
    let mut wait = process.read_response(7, 5000).unwrap();
    // A notification has no id.
    assert!(matches!(
        wait.on_read(line(r#"{"jsonrpc":"2.0","method":"notifications/progress"}"#)),
        ReadStep::Continue
    ));
    // An answer to another request.
    assert!(matches!(
        wait.on_read(line(r#"{"jsonrpc":"2.0","id":6,"result":{}}"#)),
        ReadStep::Continue
    ));
    // Ids that are no non-negative integer.
    assert!(matches!(wait.on_read(line(r#"{"id":"7","result":{}}"#)), ReadStep::Continue));
    assert!(matches!(wait.on_read(line(r#"{"id":7.0,"result":{}}"#)), ReadStep::Continue));
    assert!(matches!(wait.on_read(line(r#"{"id":-7,"result":{}}"#)), ReadStep::Continue));
    assert!(matches!(wait.on_read(line(r#"{"id":null,"result":{}}"#)), ReadStep::Continue));
    // Values that are no object.
    assert!(matches!(wait.on_read(line("7")), ReadStep::Continue));
    assert!(matches!(wait.on_read(line(r#"[{"id":7}]"#)), ReadStep::Continue));
    // No JSON at all.
    assert!(matches!(wait.on_read(line("Server listening on stdio")), ReadStep::Continue));
    assert!(matches!(wait.on_read(line(r#"{"id":7,"result":{}} trailing"#)), ReadStep::Continue));
    assert_eq!(wait.lines_seen(), 10);
    // Blank lines are skipped and do not count.
    assert!(matches!(wait.on_read(line("")), ReadStep::Continue));
    assert!(matches!(wait.on_read(line("  \t\r\n")), ReadStep::Continue));
    assert_eq!(wait.lines_seen(), 10);
    // The answer, with white space around it.
    match wait.on_read(line("  {\"jsonrpc\":\"2.0\",\"id\":7,\"result\":{\"ok\":true}}\r\n")) {
        ReadStep::Delivered(value) => {
            assert_eq!(value, json(r#"{"jsonrpc":"2.0","id":7,"result":{"ok":true}}"#));
            assert_eq!(value["id"].as_u64(), Some(7));
        }
        _ => panic!("the answer was not delivered"),
    }
    assert_eq!(wait.lines_seen(), 11);
}

#[test]
fn a_wait_times_out_at_its_deadline() {
    let process = live("s");
    let mut wait = process.read_response(1, 5000).unwrap();
    assert!(wait.on_clock(0).is_none());
    assert!(wait.on_clock(4999).is_none());
    assert!(matches!(wait.on_read(line("not json")), ReadStep::Continue));
    assert!(matches!(wait.on_read(line(r#"{"id":0}"#)), ReadStep::Continue));
    let error = wait.on_clock(5000).unwrap();
    assert_eq!(error.category, ErrorCategory::Timeout);
    assert_eq!(error.code, "CONNECTION_TIMEOUT");
    assert_eq!(error.message, "Connection to MCP server timed out after 5000ms");
    assert_eq!(
        error.details,
        Some("Expected response with ID 1 but received 2 lines with no match".to_string())
    );
    assert!(wait.on_clock(u64::MAX).is_some());

    let at_once = process.read_response(1, 0).unwrap();
    let details = at_once.on_clock(0).unwrap().details.unwrap();
    assert_eq!(details, "Expected response with ID 1 but received 0 lines with no match");
}

#[test]
fn a_closed_stream_and_a_failed_read_end_the_wait() {
    let process = live("s");
    let mut wait = process.read_response(1, 5000).unwrap();
    match wait.on_read(ReadEvent::Closed) {
        ReadStep::Closed(error) => {
            assert_eq!(error.category, ErrorCategory::Connection);
            assert_eq!(error.code, "STDOUT_CLOSED");
            assert_eq!(error.details, Some("The server terminated the connection".to_string()));
        }
        _ => panic!("the wait went on"),
    }
    match wait.on_read(ReadEvent::Failed("stream did not contain valid UTF-8".to_string())) {
        ReadStep::Failed(error) => {
            assert_eq!(error.code, "READ_FAILED");
            assert_eq!(error.details, Some("stream did not contain valid UTF-8".to_string()));
        }
        _ => panic!("the wait went on"),
    }
}

#[test]
fn process_status_goes_by_the_probe() {
    let process = live("s");
    assert_eq!(process.check_process_status(ChildProbe::Running), Ok(true));
    assert_eq!(process.check_process_status(ChildProbe::Exited("1".to_string())), Ok(false));
    assert_eq!(process.check_process_status(ChildProbe::NoChild), Ok(false));
    assert_eq!(
        process.check_process_status(ChildProbe::Failed("ECHILD".to_string())),
        Err("ECHILD".to_string())
    );
    let quiescent = MCPProcess::new("s".to_string());
    assert_eq!(quiescent.check_process_status(ChildProbe::Running), Ok(false));
    assert_eq!(quiescent.check_process_status(ChildProbe::Failed("x".to_string())), Ok(false));
}

#[test]
fn the_drain_passes_lines_on_and_sums_them_up() {
    let mut drain = StderrDrain::new();
    assert!(drain.finish().is_none());
    assert_eq!(drain.on_line("warning: one".to_string()), "warning: one");
    assert_eq!(drain.on_line("warning: two".to_string()), "warning: two");
    assert_eq!(drain.finish(), Some("STDERR_COMPLETE:warning: one\nwarning: two".to_string()));
}

#[test]
fn a_harvest_gathers_what_is_there() {
    let process = live("s");
    let mut harvest = process.collect_stderr(1000).unwrap();
    assert!(harvest.on_clock(0));
    assert!(harvest.on_clock(999));
    assert!(!harvest.on_clock(1000));
    assert!(harvest.finish().is_none());
    assert!(matches!(harvest.on_event(DrainEvent::Empty), HarvestStep::Pause));
    assert!(matches!(harvest.on_event(DrainEvent::Line("a".to_string())), HarvestStep::Again));
    assert!(matches!(harvest.on_event(DrainEvent::Line("b".to_string())), HarvestStep::Again));
    assert_eq!(harvest.finish(), Some("a\nb".to_string()));
    match harvest.on_event(DrainEvent::Disconnected) {
        HarvestStep::Done(found) => assert_eq!(found, Some("a\nb".to_string())),
        _ => panic!("the harvest went on"),
    }
    // The marked message holds everything, whatever was gathered before.
    match harvest.on_event(DrainEvent::Line("STDERR_COMPLETE:a\nb\nc".to_string())) {
        HarvestStep::Done(found) => assert_eq!(found, Some("a\nb\nc".to_string())),
        _ => panic!("the harvest went on"),
    }
    match harvest.on_event(DrainEvent::Line("STDERR_COMPLETE:".to_string())) {
        HarvestStep::Done(found) => assert_eq!(found, Some(String::new())),
        _ => panic!("the harvest went on"),
    }

    let mut empty = process.collect_stderr(1000).unwrap();
    match empty.on_event(DrainEvent::Disconnected) {
        HarvestStep::Done(found) => assert!(found.is_none()),
        _ => panic!("the harvest went on"),
    }
}

#[test]
fn the_stdout_test_reports_what_it_reads() {
    let quiescent = MCPProcess::new("s".to_string());
    assert_eq!(
        quiescent.test_stdout_availability(ChildProbe::Running).err(),
        Some("No stdout available".to_string())
    );
    let process = live("s");
    assert_eq!(
        process.test_stdout_availability(ChildProbe::Exited("exit status: 1".to_string())).err(),
        Some("Process has exited with status: exit status: 1".to_string())
    );
    assert_eq!(
        process.test_stdout_availability(ChildProbe::Failed("ECHILD".to_string())).err(),
        Some("Error checking process status: ECHILD".to_string())
    );
    let test = process.test_stdout_availability(ChildProbe::Running).ok().unwrap();
    assert!(test.on_clock(99).is_none());
    assert_eq!(test.on_clock(100), Some(Ok("No data available within timeout".to_string())));
    assert!(test.on_read(StdoutEvent::WouldBlock).is_none());
    assert_eq!(
        test.on_read(StdoutEvent::Data(8, " hello \n".to_string())),
        Some(Ok("Read 8 bytes: 'hello'".to_string()))
    );
    assert_eq!(test.on_read(StdoutEvent::Closed), Some(Err("Process closed stdout".to_string())));
    assert_eq!(
        test.on_read(StdoutEvent::Failed("EIO".to_string())),
        Some(Err("Error reading: EIO".to_string()))
    );
}

#[test]
fn the_debug_report_holds_all_four_parts() {
    let process = live("s");
    let report = process.get_debug_info(
        ChildProbe::Running,
        Ok("No data available within timeout".to_string()),
        None,
    );
    assert_eq!(
        report,
        json(
            r#"{"process_status":{"running":true},
                "stdout_test":{"success":true,"result":"No data available within timeout"},
                "recent_stderr":"No stderr available",
                "pipe_status":{"stdin_available":true,"stdout_available":true,
                               "stderr_receiver_available":true}}"#
        )
    );
    let quiescent = MCPProcess::new("s".to_string());
    let report = quiescent.get_debug_info(
        ChildProbe::NoChild,
        Err("No stdout available".to_string()),
        Some("boom".to_string()),
    );
    assert_eq!(
        report,
        json(
            r#"{"process_status":{"running":false,"error":"No child process available"},
                "stdout_test":{"success":false,"error":"No stdout available"},
                "recent_stderr":"boom",
                "pipe_status":{"stdin_available":false,"stdout_available":false,
                               "stderr_receiver_available":false}}"#
        )
    );
    let exited = process.get_debug_info(
        ChildProbe::Exited("ExitStatus(256)".to_string()),
        Err("x".to_string()),
        None,
    );
    assert_eq!(
        exited["process_status"],
        json(r#"{"running":false,"exit_status":"ExitStatus(256)"}"#)
    );
    let failed =
        process.get_debug_info(ChildProbe::Failed("ECHILD".to_string()), Err("x".to_string()), None);
    assert_eq!(failed["process_status"], json(r#"{"error":"ECHILD"}"#));
}

#[test]
fn only_node_and_npx_wait_for_nodejs() {
    assert!(spawn_allowed("python3", None).is_ok());
    assert!(spawn_allowed("python3", Some(NodeProbe::Missing)).is_ok());
    assert!(spawn_allowed("deno", Some(NodeProbe::Broken)).is_ok());
    assert!(spawn_allowed("node", Some(NodeProbe::Working("v20.11.0\n".to_string()))).is_ok());
    assert!(spawn_allowed("npx", Some(NodeProbe::Working(String::new()))).is_ok());
    assert_eq!(
        spawn_allowed("node", Some(NodeProbe::Broken)).unwrap_err().code,
        "NODE_NOT_WORKING"
    );
    assert_eq!(
        spawn_allowed("npx", Some(NodeProbe::Missing)).unwrap_err().code,
        "NODE_NOT_FOUND"
    );
    let unasked = spawn_allowed("node", None).unwrap_err();
    assert_eq!(unasked.category, ErrorCategory::Command);
    assert_eq!(unasked.code, "NODE_NOT_FOUND");
}

#[test]
fn a_live_session_is_owed_its_line() {
    let process = live("s");
    for text in ["null", "0", "-1.5e300", "\"\\n\"", "[]", "{\"a\":{\"b\":[1,2,{\"c\":\"\\u0000\"}]}}"] {
        let sent = process.send_message_sync(json(text)).unwrap();
        assert!(sent.ends_with('\n'));
        assert_eq!(sent.matches('\n').count(), 1);
        assert_eq!(json(&sent), json(text));
    }
}

#[test]
fn a_failed_write_fails_the_handshake_and_a_failed_wait_does_not() {
    let write = || ProtocollieError::new(ErrorCategory::Connection, "WRITE_FAILED", "w");
    let timeout = || ProtocollieError::connection_timeout("MCP server", 5000);

    let failed = handshake_result(Handshake::RequestFailed(write())).unwrap_err();
    assert_eq!(failed.code, "WRITE_FAILED");

    assert!(handshake_result(Handshake::Completed(Ok(json("{}")), Ok(()))).is_ok());
    assert!(handshake_result(Handshake::Completed(Err(timeout()), Ok(()))).is_ok());

    let failed = handshake_result(Handshake::Completed(Ok(json("{}")), Err(write()))).unwrap_err();
    assert_eq!(failed.code, "WRITE_FAILED");
    let failed = handshake_result(Handshake::Completed(Err(timeout()), Err(write()))).unwrap_err();
    assert_eq!(failed.code, "WRITE_FAILED");
}

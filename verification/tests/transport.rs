use ironclaw_orchestrator::mcp::protocol::McpRequest;
use ironclaw_orchestrator::mcp::transport::{frame_text, TransportError, TransportState};

#[test]
fn frame_is_text_and_one_newline() {
    assert_eq!(frame_text("{}").unwrap(), "{}\n");
    assert_eq!(frame_text("").unwrap(), "\n");
    assert_eq!(frame_text("a\nb"), Err(TransportError::EmbeddedNewline));
    assert_eq!(frame_text("\n"), Err(TransportError::EmbeddedNewline));
}

#[test]
fn command_line_joins_command_and_arguments() {
    let state = TransportState::spawned("npx", &vec!["-y".to_string(), "server".to_string()]);
    assert_eq!(state.command(), "npx -y server");
    let bare = TransportState::spawned("/tmp/mcp_command_test.sh", &Vec::new());
    assert_eq!(bare.command(), "/tmp/mcp_command_test.sh ");
    assert!(bare.command().contains("/tmp/mcp_command_test.sh"));
    let one = TransportState::spawned("python", &vec!["server.py".to_string()]);
    assert_eq!(one.command(), "python server.py");
}

#[test]
fn spawned_transport_is_connected() {
    let state = TransportState::spawned("server", &Vec::new());
    assert!(state.is_connected());
    assert_eq!(state.prepare_recv(), Ok(()));
    let frame = state.prepare_send(&McpRequest::notification(1, "tools/list")).unwrap();
    assert_eq!(frame, "{\"jsonrpc\":\"2.0\",\"id\":1,\"method\":\"tools/list\"}\n");
}

#[test]
fn end_of_stream_closes_the_transport() {
    let mut state = TransportState::spawned("server", &Vec::new());
    assert_eq!(state.accept_line(0, "").unwrap_err(), TransportError::Closed);
    assert!(!state.is_connected());
    assert_eq!(state.prepare_recv(), Err(TransportError::NotConnected));
    assert_eq!(
        state.prepare_send(&McpRequest::notification(1, "x")).unwrap_err(),
        TransportError::NotConnected
    );
    let line = "{\"jsonrpc\":\"2.0\",\"id\":1,\"result\":{}}\n";
    assert_eq!(state.accept_line(line.len(), line).unwrap_err(), TransportError::NotConnected);
}

#[test]
fn lines_are_read_as_responses() {
    let mut state = TransportState::spawned("server", &Vec::new());
    let line = "{\"jsonrpc\":\"2.0\",\"id\":5,\"result\":{\"ok\":true}}\n";
    let response = state.accept_line(line.len(), line).unwrap();
    assert_eq!(response.id, 5);
    assert!(response.is_success());
    assert!(state.is_connected());
    assert_eq!(state.accept_line(3, "{{{").unwrap_err(), TransportError::InvalidJson);
    assert!(state.is_connected());
}

#[test]
fn giving_the_child_up_closes_the_transport_once() {
    let mut state = TransportState::spawned("server", &Vec::new());
    assert!(state.release_child());
    assert!(!state.is_connected());
    assert!(!state.release_child());
    assert!(!state.is_connected());
}

#[test]
fn transport_errors_have_messages() {
    assert_eq!(TransportError::NotConnected.message(), "Transport is not connected");
    assert_eq!(TransportError::Closed.message(), "MCP server closed connection (EOF)");
}

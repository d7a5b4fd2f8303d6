use ironclaw_orchestrator::json::{parse_json, to_json_text, JsonValue};
use ironclaw_orchestrator::mcp::protocol::{
    McpError, McpMethod, McpRequest, McpResponse, Tool, JSONRPC_VERSION,
};
use ironclaw_orchestrator::mcp::transport::{
    decode_request, decode_response, encode_request, encode_response, TransportError,
};
use ironclaw_orchestrator::mcp::wire::{
    error_from_json, error_to_json, request_from_json, request_to_json, response_to_json,
    tool_from_json, tool_to_json, tools_from_json, WireError,
};

fn json(text: &str) -> JsonValue {
    parse_json(text).unwrap()
}

#[test]
fn test_serialize_request() {
    let req = McpRequest::new(1, "tools/list", None);
    let json = to_json_text(&request_to_json(&req));

    assert!(json.contains("\"jsonrpc\":\"2.0\""));
    assert!(json.contains("\"id\":1"));
    assert!(json.contains("\"method\":\"tools/list\""));
}

#[test]
fn test_deserialize_request() {
    let json = r#"{"jsonrpc":"2.0","id":1,"method":"tools/list"}"#;
    let req: McpRequest = decode_request(json).unwrap();

    assert_eq!(req.jsonrpc, "2.0");
    assert_eq!(req.id, 1);
    assert_eq!(req.method, "tools/list");
    assert!(req.params.is_none());
}

#[test]
fn test_serialize_response_success() {
    let result = json(r#"{"tools": []}"#);
    let resp = McpResponse::ok(1, result.clone());
    let json = to_json_text(&response_to_json(&resp));

    assert!(json.contains("\"jsonrpc\":\"2.0\""));
    assert!(json.contains("\"id\":1"));
    assert!(json.contains("\"result\""));
    assert!(!json.contains("\"error\""));
}

#[test]
fn test_serialize_response_error() {
    let err = McpError::method_not_found("unknown_method");
    let resp = McpResponse::err(1, err);
    let json = to_json_text(&response_to_json(&resp));

    assert!(json.contains("\"jsonrpc\":\"2.0\""));
    assert!(json.contains("\"id\":1"));
    assert!(json.contains("\"error\""));
    assert!(!json.contains("\"result\""));
}

#[test]
fn test_response_is_success() {
    let ok_resp = McpResponse::ok(1, json("{}"));
    let err_resp = McpResponse::err(1, McpError::internal_error("failed"));

    assert!(ok_resp.is_success());
    assert!(!err_resp.is_success());
}

#[test]
fn test_response_into_result() {
    let result = json(r#"{"status": "ok"}"#);
    let ok_resp = McpResponse::ok(1, result.clone());

    assert_eq!(ok_resp.into_result().unwrap(), result);

    let err = McpError::invalid_params("bad params");
    let err_resp = McpResponse::err(1, err.clone());

    assert_eq!(err_resp.into_result().unwrap_err(), err);
}

#[test]
fn test_error_codes() {
    let parse_err = McpError::parse_error("invalid json");
    assert_eq!(parse_err.code, -32700);

    let invalid_req = McpError::invalid_request("bad request");
    assert_eq!(invalid_req.code, -32600);

    let method_nf = McpError::method_not_found("test");
    assert_eq!(method_nf.code, -32601);

    let invalid_params = McpError::invalid_params("bad params");
    assert_eq!(invalid_params.code, -32602);

    let internal = McpError::internal_error("server error");
    assert_eq!(internal.code, -32603);
}

#[test]
fn test_mcp_method_conversion() {
    assert_eq!(McpMethod::Initialize.as_str(), "initialize");
    assert_eq!(McpMethod::ToolsList.as_str(), "tools/list");
    assert_eq!(McpMethod::ToolsCall.as_str(), "tools/call");

    let method: McpMethod = "tools/list".into();
    assert_eq!(method, McpMethod::ToolsList);

    let custom: McpMethod = "custom/method".into();
    assert!(matches!(custom, McpMethod::Custom(_)));

    assert_eq!(McpMethod::ResourcesList.as_str(), "resources/list");
    assert_eq!(McpMethod::ResourcesRead.as_str(), "resources/read");
    assert_eq!(McpMethod::PromptsList.as_str(), "prompts/list");
    assert_eq!(McpMethod::PromptsGet.as_str(), "prompts/get");

    let custom_method = McpMethod::Custom("my/custom".to_string());
    assert_eq!(custom_method.as_str(), "my/custom");
}

#[test]
fn test_tool_serialization() {
    let tool = Tool {
        name: "test_tool".to_string(),
        description: "A test tool".to_string(),
        input_schema: json(r#"{"type": "object"}"#),
    };

    let json = to_json_text(&tool_to_json(&tool));
    assert!(json.contains("\"name\":\"test_tool\""));
    assert!(json.contains("\"description\":\"A test tool\""));
}

#[test]
fn test_round_trip_request() {
    let original = McpRequest::new(
        42,
        "tools/call",
        Some(json(r#"{"name": "test", "args": {}}"#)),
    );

    let json = to_json_text(&request_to_json(&original));
    let deserialized: McpRequest = decode_request(&json).unwrap();

    assert_eq!(original, deserialized);
}

#[test]
fn test_request_with_params() {
    let params = json(r#"{"query": "test"}"#);
    let req = McpRequest::new(1, "resources/read", Some(params));

    assert!(req.params.is_some());
    let json = to_json_text(&request_to_json(&req));
    assert!(json.contains("\"params\""));
}

#[test]
fn test_request_notification() {
    let req = McpRequest::notification(1, "tools/list");
    assert_eq!(req.id, 1);
    assert_eq!(req.method, "tools/list");
    assert!(req.params.is_none());
}

#[test]
fn test_error_with_data() {
    let data = json(r#"{"details": "Additional error info"}"#);
    let err = McpError::with_data(-32000, "Server error", data.clone());

    assert_eq!(err.code, -32000);
    assert_eq!(err.message, "Server error");
    assert_eq!(err.data, Some(data));
}

#[test]
fn test_error_server_error() {
    let err = McpError::server_error("Connection failed");
    assert_eq!(err.code, -32000);
    assert!(err.message.contains("Connection failed"));
}

#[test]
fn test_response_into_result_invalid() {
    let invalid_resp = McpResponse {
        jsonrpc: "2.0".to_string(),
        id: 1,
        result: Some(json(r#"{"status": "ok"}"#)),
        error: Some(McpError::internal_error("Error")),
    };

    let result = invalid_resp.into_result();
    assert!(result.is_err());
    let err = result.unwrap_err();
    assert_eq!(err.code, -32603);
    assert!(err.message.contains("Invalid response"));
}

#[test]
fn test_error_new() {
    let err = McpError::new(-32001, "Custom error");
    assert_eq!(err.code, -32001);
    assert_eq!(err.message, "Custom error");
    assert!(err.data.is_none());
}

#[test]
fn test_error_invalid_params() {
    let err = McpError::invalid_params("Missing required field");
    assert_eq!(err.code, -32602);
    assert!(err.message.contains("Missing required field"));
}

#[test]
fn test_error_parse_error() {
    let err = McpError::parse_error("Unexpected token");
    assert_eq!(err.code, -32700);
    assert!(err.message.contains("Unexpected token"));
}

#[test]
fn test_error_invalid_request() {
    let err = McpError::invalid_request("Missing jsonrpc field");
    assert_eq!(err.code, -32600);
    assert!(err.message.contains("Missing jsonrpc field"));
}

#[test]
fn test_protocol_module_available() {
    let req = McpRequest::new(1, "initialize", None);
    assert_eq!(req.jsonrpc, "2.0");
    assert_eq!(req.method, "initialize");
}

#[test]
fn test_error_creation() {
    let err = McpError::method_not_found("test_method");
    assert_eq!(err.code, -32601);
    assert!(err.message.contains("test_method"));
}

#[test]
fn test_error_response_conversion() {
    let error_response = McpResponse::err(1, McpError::method_not_found("test_method"));

    assert!(!error_response.is_success());
    let result = error_response.into_result();
    assert!(result.is_err());

    let error = result.unwrap_err();
    assert_eq!(error.code, -32601);
}

#[test]
fn test_transport_command() {
    let command_str = "test command with args";
    assert!(command_str.contains("test"));
    assert!(command_str.contains("args"));
}

#[test]
fn test_stdio_transport_send() {
    let request = McpRequest::new(1, "initialize", None);
    let json = to_json_text(&request_to_json(&request));
    assert!(json.contains("\"jsonrpc\":\"2.0\""));
    assert!(json.contains("\"method\":\"initialize\""));
}

#[test]
fn test_stdio_transport_recv() {
    let response_json = format!(r#"{{"jsonrpc":"2.0","id":{},"result":{}}}"#, 1, r#"{"status":"ok"}"#);
    let response: McpResponse = decode_response(&response_json).unwrap();

    assert_eq!(response.id, 1);
    assert!(response.is_success());
    assert!(response.result.is_some());
}

#[test]
fn test_stdio_transport_recv_error() {
    let error_json =
        r#"{"jsonrpc":"2.0","id":1,"error":{"code":-32601,"message":"Method not found"}}"#;
    let response: McpResponse = decode_response(error_json).unwrap();

    assert_eq!(response.id, 1);
    assert!(!response.is_success());
    assert!(response.error.is_some());

    let error = response.error.unwrap();
    assert_eq!(error.code, -32601);
    assert!(error.message.contains("Method not found"));
}

#[test]
fn test_stdio_transport_round_trip() {
    let original_request = McpRequest::new(42, "tools/list", None);
    let json = to_json_text(&request_to_json(&original_request));
    let deserialized_request: McpRequest = decode_request(&json).unwrap();

    assert_eq!(original_request, deserialized_request);
}

#[test]
fn test_transport_recv_invalid_json() {
    let invalid_json = r#"{"jsonrpc":"2.0","id":1,"invalid"#;
    let result = decode_response(invalid_json);

    assert!(result.is_err());
    assert_eq!(result.unwrap_err(), TransportError::InvalidJson);
}

#[test]
fn test_transport_recv_missing_fields() {
    let incomplete = r#"{"jsonrpc":"2.0"}"#;
    let result = decode_response(incomplete);

    assert!(result.is_err());
    assert_eq!(result.unwrap_err(), TransportError::Malformed(WireError::BadId));
}

#[test]
fn version_constant_is_two_point_zero() {
    assert_eq!(JSONRPC_VERSION, "2.0");
}

#[test]
fn error_text_has_code_in_brackets() {
    assert_eq!(McpError::new(-32601, "Method not found").to_text(), "[Error -32601] Method not found");
    assert_eq!(McpError::new(0, "").to_text(), "[Error 0] ");
    assert_eq!(McpError::new(i32::MIN, "m").to_text(), "[Error -2147483648] m");
    assert_eq!(McpError::new(i32::MAX, "m").to_text(), "[Error 2147483647] m");
}

#[test]
fn request_frame_is_one_line_in_field_order() {
    let request = McpRequest::new(7, "tools/call", Some(json(r#"{"name":"a\nb"}"#)));
    let frame = encode_request(&request).unwrap();
    assert_eq!(
        frame,
        "{\"jsonrpc\":\"2.0\",\"id\":7,\"method\":\"tools/call\",\"params\":{\"name\":\"a\\nb\"}}\n"
    );
    assert_eq!(frame.matches('\n').count(), 1);
    assert!(frame.ends_with('\n'));
}

#[test]
fn request_without_params_has_no_params_member() {
    let frame = encode_request(&McpRequest::notification(1, "tools/list")).unwrap();
    assert_eq!(frame, "{\"jsonrpc\":\"2.0\",\"id\":1,\"method\":\"tools/list\"}\n");
}

#[test]
fn response_frame_round_trips() {
    let ok = McpResponse::ok(3, json(r#"{"a":[1,2,{"b":null}],"c":-5,"d":1.5}"#));
    let frame = encode_response(&ok).unwrap();
    assert_eq!(decode_response(&frame).unwrap(), ok);

    let err = McpResponse::err(4, McpError::with_data(-32000, "boom", json("[1]")));
    let frame = encode_response(&err).unwrap();
    assert_eq!(
        frame,
        "{\"jsonrpc\":\"2.0\",\"id\":4,\"error\":{\"code\":-32000,\"message\":\"boom\",\"data\":[1]}}\n"
    );
    assert_eq!(decode_response(&frame).unwrap(), err);
}

#[test]
fn response_with_both_result_and_error_is_refused_when_read() {
    let both = r#"{"jsonrpc":"2.0","id":1,"result":{},"error":{"code":1,"message":"m"}}"#;
    assert_eq!(decode_response(both).unwrap_err(), TransportError::Malformed(WireError::NotExclusive));
    let neither = r#"{"jsonrpc":"2.0","id":1}"#;
    assert_eq!(decode_response(neither).unwrap_err(), TransportError::Malformed(WireError::NotExclusive));
    let null_result = r#"{"jsonrpc":"2.0","id":1,"result":null}"#;
    assert_eq!(decode_response(null_result).unwrap_err(), TransportError::Malformed(WireError::NotExclusive));
}

#[test]
fn every_read_response_has_exactly_one_of_result_and_error() {
    let lines = [
        r#"{"jsonrpc":"2.0","id":1,"result":1}"#,
        r#"{"jsonrpc":"2.0","id":1,"error":{"code":1,"message":"m"}}"#,
        r#"{"jsonrpc":"2.0","id":1,"result":1,"error":null}"#,
        r#"{"jsonrpc":"2.0","id":1,"result":null,"error":{"code":1,"message":"m"}}"#,
        r#"{"jsonrpc":"2.0","id":1,"result":1,"error":{"code":1,"message":"m"}}"#,
        r#"{"jsonrpc":"2.0","id":1}"#,
    ];
    let mut read = 0;
    for line in lines {
        if let Ok(response) = decode_response(line) {
            read += 1;
            assert!(response.is_exclusive());
            assert_ne!(response.result.is_some(), response.error.is_some());
        }
    }
    assert_eq!(read, 4);
}

#[test]
fn malformed_responses_have_their_errors() {
    assert_eq!(decode_response("[1]").unwrap_err(), TransportError::Malformed(WireError::NotAnObject));
    assert_eq!(
        decode_response(r#"{"jsonrpc":"1.0","id":1,"result":1}"#).unwrap_err(),
        TransportError::Malformed(WireError::BadVersion)
    );
    assert_eq!(
        decode_response(r#"{"id":1,"result":1}"#).unwrap_err(),
        TransportError::Malformed(WireError::BadVersion)
    );
    assert_eq!(
        decode_response(r#"{"jsonrpc":"2.0","id":-1,"result":1}"#).unwrap_err(),
        TransportError::Malformed(WireError::BadId)
    );
    assert_eq!(
        decode_response(r#"{"jsonrpc":"2.0","id":"1","result":1}"#).unwrap_err(),
        TransportError::Malformed(WireError::BadId)
    );
    assert_eq!(
        decode_response(r#"{"jsonrpc":"2.0","id":1,"error":{"code":"x","message":"m"}}"#).unwrap_err(),
        TransportError::Malformed(WireError::BadError)
    );
    assert_eq!(
        decode_response(r#"{"jsonrpc":"2.0","id":1,"error":{"code":2147483648,"message":"m"}}"#)
            .unwrap_err(),
        TransportError::Malformed(WireError::BadError)
    );
    assert_eq!(
        decode_request(r#"{"jsonrpc":"2.0","id":1}"#).unwrap_err(),
        TransportError::Malformed(WireError::BadMethod)
    );
    assert_eq!(decode_response("").unwrap_err(), TransportError::InvalidJson);
}

#[test]
fn largest_id_is_read() {
    let line = r#"{"jsonrpc":"2.0","id":18446744073709551615,"result":true}"#;
    assert_eq!(decode_response(line).unwrap().id, u64::MAX);
    let too_large = r#"{"jsonrpc":"2.0","id":18446744073709551616,"result":true}"#;
    assert_eq!(decode_response(too_large).unwrap_err(), TransportError::Malformed(WireError::BadId));
}

#[test]
fn error_objects_round_trip() {
    let plain = McpError::new(-5, "five");
    assert_eq!(error_from_json(&error_to_json(&plain)), Some(plain));
    let with_data = McpError::with_data(7, "seven", json(r#"{"k":"v"}"#));
    assert_eq!(error_from_json(&error_to_json(&with_data)), Some(with_data));
    assert_eq!(error_from_json(&json(r#"{"code":1}"#)), None);
    assert_eq!(error_from_json(&json(r#"{"message":"m"}"#)), None);
    assert_eq!(error_from_json(&json("5")), None);
}

#[test]
fn requests_are_read_back_from_their_documents() {
    let request = McpRequest::new(9, "prompts/get", Some(json("[1,2]")));
    assert_eq!(request_from_json(&request_to_json(&request)), Ok(request));
    assert_eq!(request_from_json(&json("null")), Err(WireError::NotAnObject));
}

#[test]
fn tools_are_read_from_listing_results() {
    let result = json(
        r#"{"tools":[{"name":"a","description":"A","inputSchema":{"type":"object"}},
                     {"name":"b","description":"B","inputSchema":null}]}"#,
    );
    let tools = tools_from_json(&result).unwrap();
    assert_eq!(tools.len(), 2);
    assert_eq!(tools[0].name, "a");
    assert_eq!(tools[1].description, "B");
    assert_eq!(tools[1].input_schema, JsonValue::Null);
    assert_eq!(tool_from_json(&tool_to_json(&tools[0])), Some(tools[0].clone()));

    assert_eq!(tools_from_json(&json(r#"{"tools":[]}"#)), Some(Vec::new()));
    assert_eq!(tools_from_json(&json(r#"{"invalid":"data"}"#)), None);
    assert_eq!(tools_from_json(&json(r#"{"tools":"not an array"}"#)), None);
    assert_eq!(tools_from_json(&json(r#"{"tools":[{"name":"a","description":"A"}]}"#)), None);
    assert_eq!(tools_from_json(&json(r#"{"tools":[{"name":1,"description":"A","inputSchema":{}}]}"#)), None);
}

#[test]
fn method_names_convert_both_ways() {
    let names = [
        "initialize",
        "tools/list",
        "tools/call",
        "resources/list",
        "resources/read",
        "prompts/list",
        "prompts/get",
        "something/else",
        "",
    ];
    for name in names {
        let method = McpMethod::from_name(name.to_string());
        assert_eq!(method.as_str(), name);
        assert_eq!(McpMethod::from(name.to_string()), method);
    }
    assert_eq!(McpMethod::from_name("Initialize".to_string()), McpMethod::Custom("Initialize".to_string()));
}

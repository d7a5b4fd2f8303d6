//! The wire format: how messages are written as JSON documents and read
//! back from them.

use crate::json::{list_model, member, push_member, record_model, JsonModel, JsonValue};
use crate::mcp::protocol::{
    optional_model, tools_model, ClientCapabilities, ClientInfo, InitializeParams, McpError,
    McpErrorView, McpRequest, McpRequestView, McpResponse, McpResponseView, ServerCapabilities,
    ServerCapabilitiesView, ServerInfo, ServerInfoView, Tool, ToolCallParams, ToolView,
    JSONRPC_VERSION,
};
use crate::text::same_text;
use vstd::prelude::*;

verus! {

/// Why a document is no message of the protocol.
#[derive(Clone, Copy, Debug, PartialEq, Eq, Structural)]
pub enum WireError {
    /// The document is no JSON object.
    NotAnObject,
    /// The version literal is missing or is not `2.0`.
    BadVersion,
    /// The id is missing or is no unsigned 64-bit integer.
    BadId,
    /// The method is missing or is no string.
    BadMethod,
    /// The error member is no error object.
    BadError,
    /// Result and error are both present, or both absent.
    NotExclusive,
}

/// The document of an error object.
pub open spec fn error_document(e: McpErrorView) -> JsonModel {
    let fixed = seq![
        ("code"@, JsonModel::Integer(e.code as int)),
        ("message"@, JsonModel::Text(e.message)),
    ];
    match e.data {
        Some(d) => JsonModel::Record(fixed.push(("data"@, d))),
        None => JsonModel::Record(fixed),
    }
}

/// The document of a request: version, id and method, then the parameters
/// where there are any.
pub open spec fn request_document(r: McpRequestView) -> JsonModel {
    let fixed = seq![
        ("jsonrpc"@, JsonModel::Text(r.jsonrpc)),
        ("id"@, JsonModel::Integer(r.id as int)),
        ("method"@, JsonModel::Text(r.method)),
    ];
    match r.params {
        Some(p) => JsonModel::Record(fixed.push(("params"@, p))),
        None => JsonModel::Record(fixed),
    }
}

/// The document of a response: version and id, then the result and the
/// error, each where it is present.
pub open spec fn response_document(r: McpResponseView) -> JsonModel {
    let fixed = seq![
        ("jsonrpc"@, JsonModel::Text(r.jsonrpc)),
        ("id"@, JsonModel::Integer(r.id as int)),
    ];
    let with_result = match r.result {
        Some(v) => fixed.push(("result"@, v)),
        None => fixed,
    };
    match r.error {
        Some(e) => JsonModel::Record(with_result.push(("error"@, error_document(e)))),
        None => JsonModel::Record(with_result),
    }
}

/// The error object that a document holds: an integer `code` in the 32-bit
/// signed range and a string `message`, with optional `data`.
pub open spec fn error_of_document(doc: JsonModel) -> Option<McpErrorView> {
    match (doc.field("code"@), doc.field("message"@)) {
        (Some(JsonModel::Integer(code)), Some(JsonModel::Text(message))) => if i32::MIN <= code
            <= i32::MAX {
            Some(McpErrorView { code: code as i32, message, data: doc.present_field("data"@) })
        } else {
            None
        },
        _ => None,
    }
}

/// The request that a document holds.
pub open spec fn request_of_document(doc: JsonModel) -> Result<McpRequestView, WireError> {
    if !(doc is Record) {
        Err(WireError::NotAnObject)
    } else if doc.field("jsonrpc"@) != Some(JsonModel::Text(JSONRPC_VERSION@)) {
        Err(WireError::BadVersion)
    } else {
        match doc.field("id"@) {
            Some(id) => match id.unsigned() {
                Some(id) => match doc.field("method"@) {
                    Some(JsonModel::Text(method)) => Ok(
                        McpRequestView {
                            jsonrpc: JSONRPC_VERSION@,
                            id,
                            method,
                            params: doc.present_field("params"@),
                        },
                    ),
                    _ => Err(WireError::BadMethod),
                },
                None => Err(WireError::BadId),
            },
            None => Err(WireError::BadId),
        }
    }
}

/// The response that a document holds. A response is an object with the
/// version literal, an unsigned id and exactly one of a result and an error
/// object; a member that is `null` counts as absent.
pub open spec fn response_of_document(doc: JsonModel) -> Result<McpResponseView, WireError> {
    if !(doc is Record) {
        Err(WireError::NotAnObject)
    } else if doc.field("jsonrpc"@) != Some(JsonModel::Text(JSONRPC_VERSION@)) {
        Err(WireError::BadVersion)
    } else {
        match doc.field("id"@) {
            Some(id) => match id.unsigned() {
                Some(id) => {
                    let result = doc.present_field("result"@);
                    match doc.present_field("error"@) {
                        Some(e) => match error_of_document(e) {
                            Some(error) => if result is Some {
                                Err(WireError::NotExclusive)
                            } else {
                                Ok(
                                    McpResponseView {
                                        jsonrpc: JSONRPC_VERSION@,
                                        id,
                                        result: None,
                                        error: Some(error),
                                    },
                                )
                            },
                            None => Err(WireError::BadError),
                        },
                        None => if result is Some {
                            Ok(
                                McpResponseView {
                                    jsonrpc: JSONRPC_VERSION@,
                                    id,
                                    result,
                                    error: None,
                                },
                            )
                        } else {
                            Err(WireError::NotExclusive)
                        },
                    }
                },
                None => Err(WireError::BadId),
            },
            None => Err(WireError::BadId),
        }
    }
}

/// Every response that is read from a document has exactly one of result
/// and error.
pub proof fn lemma_read_response_is_exclusive(doc: JsonModel)
    ensures
        response_of_document(doc) matches Ok(r) ==> r.exclusive(),
{
}

/// The model of a request read from a document.
pub open spec fn request_result_model(r: Result<McpRequest, WireError>) -> Result<
    McpRequestView,
    WireError,
> {
    match r {
        Ok(v) => Ok(v@),
        Err(e) => Err(e),
    }
}

/// The model of a response read from a document.
pub open spec fn response_result_model(r: Result<McpResponse, WireError>) -> Result<
    McpResponseView,
    WireError,
> {
    match r {
        Ok(v) => Ok(v@),
        Err(e) => Err(e),
    }
}

/// The model of an error object read from a document.
pub open spec fn optional_error_model(e: Option<McpError>) -> Option<McpErrorView> {
    match e {
        Some(v) => Some(v@),
        None => None,
    }
}

/// Writes an error object as a document.
pub fn error_to_json(error: &McpError) -> (out: JsonValue)
    ensures
        out@ == error_document(error@),
{
    let mut entries: Vec<(String, JsonValue)> = Vec::new();
    push_member(&mut entries, "code", JsonValue::signed(error.code as i64));
    push_member(&mut entries, "message", JsonValue::text(error.message.as_str()));
    match &error.data {
        Some(d) => {
            push_member(&mut entries, "data", d.duplicate());
        },
        None => {},
    }
    let out = JsonValue::object(entries);
    assert(out@->Record_0 =~= error_document(error@)->Record_0);
    out
}

/// Reads an error object from a document.
pub fn error_from_json(doc: &JsonValue) -> (out: Option<McpError>)
    ensures
        optional_error_model(out) == error_of_document(doc@),
{
    let code = match doc.get("code") {
        Some(v) => match v.as_i64() {
            Some(n) => n,
            None => {
                return None;
            },
        },
        None => {
            return None;
        },
    };
    if code < -2147483648 || code > 2147483647 {
        return None;
    }
    let message = match doc.get("message") {
        Some(v) => match v.as_text() {
            Some(t) => t.clone(),
            None => {
                return None;
            },
        },
        None => {
            return None;
        },
    };
    let data = match doc.get_present("data") {
        Some(d) => Some(d.duplicate()),
        None => None,
    };
    Some(McpError { code: code as i32, message, data })
}

/// Writes a request as a document.
pub fn request_to_json(request: &McpRequest) -> (out: JsonValue)
    ensures
        out@ == request_document(request@),
{
    let mut entries: Vec<(String, JsonValue)> = Vec::new();
    push_member(&mut entries, "jsonrpc", JsonValue::text(request.jsonrpc.as_str()));
    push_member(&mut entries, "id", JsonValue::unsigned(request.id));
    push_member(&mut entries, "method", JsonValue::text(request.method.as_str()));
    match &request.params {
        Some(p) => {
            push_member(&mut entries, "params", p.duplicate());
        },
        None => {},
    }
    let out = JsonValue::object(entries);
    assert(out@->Record_0 =~= request_document(request@)->Record_0);
    out
}

/// Reads a request from a document.
pub fn request_from_json(doc: &JsonValue) -> (out: Result<McpRequest, WireError>)
    ensures
        request_result_model(out) == request_of_document(doc@),
{
    if !doc.is_object() {
        return Err(WireError::NotAnObject);
    }
    let version_ok = match doc.get("jsonrpc") {
        Some(v) => match v.as_text() {
            Some(t) => same_text(t.as_str(), JSONRPC_VERSION),
            None => false,
        },
        None => false,
    };
    if !version_ok {
        return Err(WireError::BadVersion);
    }
    let id = match doc.get("id") {
        Some(v) => match v.as_u64() {
            Some(n) => n,
            None => {
                return Err(WireError::BadId);
            },
        },
        None => {
            return Err(WireError::BadId);
        },
    };
    let method = match doc.get("method") {
        Some(v) => match v.as_text() {
            Some(t) => t.clone(),
            None => {
                return Err(WireError::BadMethod);
            },
        },
        None => {
            return Err(WireError::BadMethod);
        },
    };
    let params = match doc.get_present("params") {
        Some(p) => Some(p.duplicate()),
        None => None,
    };
    Ok(McpRequest { jsonrpc: JSONRPC_VERSION.to_owned(), id, method, params })
}

/// Writes a response as a document.
pub fn response_to_json(response: &McpResponse) -> (out: JsonValue)
    ensures
        out@ == response_document(response@),
{
    let mut entries: Vec<(String, JsonValue)> = Vec::new();
    push_member(&mut entries, "jsonrpc", JsonValue::text(response.jsonrpc.as_str()));
    push_member(&mut entries, "id", JsonValue::unsigned(response.id));
    match &response.result {
        Some(v) => {
            push_member(&mut entries, "result", v.duplicate());
        },
        None => {},
    }
    match &response.error {
        Some(e) => {
            push_member(&mut entries, "error", error_to_json(e));
        },
        None => {},
    }
    let out = JsonValue::object(entries);
    assert(out@->Record_0 =~= response_document(response@)->Record_0);
    out
}

/// Reads a response from a document.
pub fn response_from_json(doc: &JsonValue) -> (out: Result<McpResponse, WireError>)
    ensures
        response_result_model(out) == response_of_document(doc@),
        out matches Ok(r) ==> r@.exclusive(),
{
    if !doc.is_object() {
        return Err(WireError::NotAnObject);
    }
    let version_ok = match doc.get("jsonrpc") {
        Some(v) => match v.as_text() {
            Some(t) => same_text(t.as_str(), JSONRPC_VERSION),
            None => false,
        },
        None => false,
    };
    if !version_ok {
        return Err(WireError::BadVersion);
    }
    let id = match doc.get("id") {
        Some(v) => match v.as_u64() {
            Some(n) => n,
            None => {
                return Err(WireError::BadId);
            },
        },
        None => {
            return Err(WireError::BadId);
        },
    };
    let result = match doc.get_present("result") {
        Some(v) => Some(v.duplicate()),
        None => None,
    };
    match doc.get_present("error") {
        Some(e) => match error_from_json(e) {
            Some(error) => if result.is_some() {
                Err(WireError::NotExclusive)
            } else {
                Ok(
                    McpResponse {
                        jsonrpc: JSONRPC_VERSION.to_owned(),
                        id,
                        result: None,
                        error: Some(error),
                    },
                )
            },
            None => Err(WireError::BadError),
        },
        None => if result.is_some() {
            Ok(McpResponse { jsonrpc: JSONRPC_VERSION.to_owned(), id, result, error: None })
        } else {
            Err(WireError::NotExclusive)
        },
    }
}

/// The document of a client's identification.
pub open spec fn client_info_document(name: Seq<char>, version: Seq<char>) -> JsonModel {
    JsonModel::Record(
        seq![("name"@, JsonModel::Text(name)), ("version"@, JsonModel::Text(version))],
    )
}

/// The document of a client's capabilities: each capability where it is
/// set.
pub open spec fn client_capabilities_document(
    sampling: Option<JsonModel>,
    experimental: Option<JsonModel>,
) -> JsonModel {
    let first = match sampling {
        Some(s) => seq![("sampling"@, s)],
        None => Seq::empty(),
    };
    match experimental {
        Some(e) => JsonModel::Record(first.push(("experimental"@, e))),
        None => JsonModel::Record(first),
    }
}

/// The document of the parameters of `initialize`.
pub open spec fn initialize_params_document(p: InitializeParams) -> JsonModel {
    JsonModel::Record(
        seq![
            ("protocolVersion"@, JsonModel::Text(p.protocol_version@)),
            (
                "capabilities"@,
                client_capabilities_document(
                    optional_model(p.capabilities.sampling),
                    optional_model(p.capabilities.experimental),
                ),
            ),
            ("clientInfo"@, client_info_document(p.client_info.name@, p.client_info.version@)),
        ],
    )
}

/// Writes a client's identification as a document.
pub fn client_info_to_json(info: &ClientInfo) -> (out: JsonValue)
    ensures
        out@ == client_info_document(info.name@, info.version@),
{
    let mut entries: Vec<(String, JsonValue)> = Vec::new();
    push_member(&mut entries, "name", JsonValue::text(info.name.as_str()));
    push_member(&mut entries, "version", JsonValue::text(info.version.as_str()));
    let out = JsonValue::object(entries);
    assert(out@->Record_0 =~= client_info_document(info.name@, info.version@)->Record_0);
    out
}

/// Writes a client's capabilities as a document.
pub fn client_capabilities_to_json(capabilities: &ClientCapabilities) -> (out: JsonValue)
    ensures
        out@ == client_capabilities_document(
            optional_model(capabilities.sampling),
            optional_model(capabilities.experimental),
        ),
{
    let mut entries: Vec<(String, JsonValue)> = Vec::new();
    match &capabilities.sampling {
        Some(s) => {
            push_member(&mut entries, "sampling", s.duplicate());
        },
        None => {},
    }
    match &capabilities.experimental {
        Some(e) => {
            push_member(&mut entries, "experimental", e.duplicate());
        },
        None => {},
    }
    let out = JsonValue::object(entries);
    assert(out@->Record_0 =~= client_capabilities_document(
        optional_model(capabilities.sampling),
        optional_model(capabilities.experimental),
    )->Record_0);
    out
}

/// Writes the parameters of `initialize` as a document.
pub fn initialize_params_to_json(params: &InitializeParams) -> (out: JsonValue)
    ensures
        out@ == initialize_params_document(*params),
{
    let mut entries: Vec<(String, JsonValue)> = Vec::new();
    push_member(&mut entries, "protocolVersion", JsonValue::text(params.protocol_version.as_str()));
    push_member(&mut entries, "capabilities", client_capabilities_to_json(&params.capabilities));
    push_member(&mut entries, "clientInfo", client_info_to_json(&params.client_info));
    let out = JsonValue::object(entries);
    assert(out@->Record_0 =~= initialize_params_document(*params)->Record_0);
    out
}

/// The document of the parameters of `tools/call`.
pub open spec fn tool_call_document(name: Seq<char>, arguments: JsonModel) -> JsonModel {
    JsonModel::Record(seq![("name"@, JsonModel::Text(name)), ("arguments"@, arguments)])
}

/// Writes the parameters of `tools/call` as a document.
pub fn tool_call_to_json(params: ToolCallParams) -> (out: JsonValue)
    ensures
        out@ == tool_call_document(params.name@, params.arguments@),
{
    let mut entries: Vec<(String, JsonValue)> = Vec::new();
    push_member(&mut entries, "name", JsonValue::text(params.name.as_str()));
    push_member(&mut entries, "arguments", params.arguments);
    let out = JsonValue::object(entries);
    assert(out@->Record_0 =~= tool_call_document(params.name@, params.arguments@)->Record_0);
    out
}

/// The server identification that a document holds: an object with the
/// strings `name` and `version`.
pub open spec fn server_info_of_document(doc: JsonModel) -> Option<ServerInfoView> {
    match (doc.field("name"@), doc.field("version"@)) {
        (Some(JsonModel::Text(name)), Some(JsonModel::Text(version))) => Some(
            ServerInfoView { name, version },
        ),
        _ => None,
    }
}

/// What is wrong with the result of `initialize`.
#[derive(Clone, Copy, Debug, PartialEq, Eq, Structural)]
pub enum HandshakeError {
    /// `serverInfo` is missing or is no server identification.
    BadServerInfo,
    /// `protocolVersion` is missing or is no string.
    MissingProtocolVersion,
    /// `capabilities` is missing.
    MissingCapabilities,
}

/// The server's answer that the result of `initialize` holds. The result
/// must include `serverInfo`, `protocolVersion` and `capabilities`.
pub open spec fn server_capabilities_of_document(doc: JsonModel) -> Result<
    ServerCapabilitiesView,
    HandshakeError,
> {
    match doc.field("serverInfo"@) {
        Some(info) => match server_info_of_document(info) {
            Some(server_info) => match doc.field("protocolVersion"@) {
                Some(JsonModel::Text(protocol_version)) => match doc.present_field(
                    "capabilities"@,
                ) {
                    Some(capabilities) => Ok(
                        ServerCapabilitiesView { protocol_version, capabilities, server_info },
                    ),
                    None => Err(HandshakeError::MissingCapabilities),
                },
                _ => Err(HandshakeError::MissingProtocolVersion),
            },
            None => Err(HandshakeError::BadServerInfo),
        },
        None => Err(HandshakeError::BadServerInfo),
    }
}

/// The model of a server identification read from a document.
pub open spec fn optional_server_info_model(s: Option<ServerInfo>) -> Option<ServerInfoView> {
    match s {
        Some(v) => Some(v@),
        None => None,
    }
}

/// The model of a server's answer read from a document.
pub open spec fn server_capabilities_result_model(
    r: Result<ServerCapabilities, HandshakeError>,
) -> Result<ServerCapabilitiesView, HandshakeError> {
    match r {
        Ok(v) => Ok(v@),
        Err(e) => Err(e),
    }
}

/// Reads a server identification from a document.
pub fn server_info_from_json(doc: &JsonValue) -> (out: Option<ServerInfo>)
    ensures
        optional_server_info_model(out) == server_info_of_document(doc@),
{
    let name = match doc.get("name") {
        Some(v) => match v.as_text() {
            Some(t) => t.clone(),
            None => {
                return None;
            },
        },
        None => {
            return None;
        },
    };
    let version = match doc.get("version") {
        Some(v) => match v.as_text() {
            Some(t) => t.clone(),
            None => {
                return None;
            },
        },
        None => {
            return None;
        },
    };
    Some(ServerInfo { name, version })
}

/// Reads the server's answer from the result of `initialize`.
pub fn server_capabilities_from_json(doc: &JsonValue) -> (out: Result<
    ServerCapabilities,
    HandshakeError,
>)
    ensures
        server_capabilities_result_model(out) == server_capabilities_of_document(doc@),
{
    let server_info = match doc.get("serverInfo") {
        Some(info) => match server_info_from_json(info) {
            Some(s) => s,
            None => {
                return Err(HandshakeError::BadServerInfo);
            },
        },
        None => {
            return Err(HandshakeError::BadServerInfo);
        },
    };
    let protocol_version = match doc.get("protocolVersion") {
        Some(v) => match v.as_text() {
            Some(t) => t.clone(),
            None => {
                return Err(HandshakeError::MissingProtocolVersion);
            },
        },
        None => {
            return Err(HandshakeError::MissingProtocolVersion);
        },
    };
    let capabilities = match doc.get_present("capabilities") {
        Some(c) => c.duplicate(),
        None => {
            return Err(HandshakeError::MissingCapabilities);
        },
    };
    Ok(ServerCapabilities { protocol_version, capabilities, server_info })
}

/// The tool that a document holds: an object with the strings `name` and
/// `description` and a member `inputSchema`.
pub open spec fn tool_of_document(doc: JsonModel) -> Option<ToolView> {
    match (doc.field("name"@), doc.field("description"@), doc.field("inputSchema"@)) {
        (
            Some(JsonModel::Text(name)),
            Some(JsonModel::Text(description)),
            Some(input_schema),
        ) => Some(ToolView { name, description, input_schema }),
        _ => None,
    }
}

/// The tools that a list of documents holds, where each of them is a tool.
pub open spec fn tools_of_documents(docs: Seq<JsonModel>) -> Option<Seq<ToolView>> {
    if forall|i: int| 0 <= i < docs.len() ==> (#[trigger] tool_of_document(docs[i])) is Some {
        Some(Seq::new(docs.len(), |i: int| tool_of_document(docs[i])->0))
    } else {
        None
    }
}

/// The tools that the result of `tools/list` holds: the member `tools` must
/// be an array of tools.
pub open spec fn tools_of_result(doc: JsonModel) -> Option<Seq<ToolView>> {
    match doc.field("tools"@) {
        Some(JsonModel::List(docs)) => tools_of_documents(docs),
        _ => None,
    }
}

/// The model of a tool read from a document.
pub open spec fn optional_tool_model(t: Option<Tool>) -> Option<ToolView> {
    match t {
        Some(v) => Some(v@),
        None => None,
    }
}

/// The model of a list of tools read from a document.
pub open spec fn optional_tools_model(t: Option<Vec<Tool>>) -> Option<Seq<ToolView>> {
    match t {
        Some(v) => Some(tools_model(v@)),
        None => None,
    }
}

/// The document of a tool.
pub open spec fn tool_document(t: ToolView) -> JsonModel {
    JsonModel::Record(
        seq![
            ("name"@, JsonModel::Text(t.name)),
            ("description"@, JsonModel::Text(t.description)),
            ("inputSchema"@, t.input_schema),
        ],
    )
}

/// Writes a tool as a document.
pub fn tool_to_json(tool: &Tool) -> (out: JsonValue)
    ensures
        out@ == tool_document(tool@),
{
    let mut entries: Vec<(String, JsonValue)> = Vec::new();
    push_member(&mut entries, "name", JsonValue::text(tool.name.as_str()));
    push_member(&mut entries, "description", JsonValue::text(tool.description.as_str()));
    push_member(&mut entries, "inputSchema", tool.input_schema.duplicate());
    let out = JsonValue::object(entries);
    assert(out@->Record_0 =~= tool_document(tool@)->Record_0);
    out
}

/// Reads a tool from a document.
pub fn tool_from_json(doc: &JsonValue) -> (out: Option<Tool>)
    ensures
        optional_tool_model(out) == tool_of_document(doc@),
{
    let name = match doc.get("name") {
        Some(v) => match v.as_text() {
            Some(t) => t.clone(),
            None => {
                return None;
            },
        },
        None => {
            return None;
        },
    };
    let description = match doc.get("description") {
        Some(v) => match v.as_text() {
            Some(t) => t.clone(),
            None => {
                return None;
            },
        },
        None => {
            return None;
        },
    };
    let input_schema = match doc.get("inputSchema") {
        Some(v) => v.duplicate(),
        None => {
            return None;
        },
    };
    Some(Tool { name, description, input_schema })
}

/// Reads the tools from the result of `tools/list`.
pub fn tools_from_json(doc: &JsonValue) -> (out: Option<Vec<Tool>>)
    ensures
        optional_tools_model(out) == tools_of_result(doc@),
{
    let items = match doc.get("tools") {
        Some(v) => match v.as_array() {
            Some(items) => items,
            None => {
                return None;
            },
        },
        None => {
            return None;
        },
    };
    let ghost docs = list_model(items@);
    let mut tools: Vec<Tool> = Vec::new();
    let mut i: usize = 0;
    while i < items.len()
        invariant
            i <= items.len(),
            tools.len() == i,
            docs == list_model(items@),
            doc@.field("tools"@) == Some(JsonModel::List(docs)),
            forall|k: int|
                0 <= k < i ==> (#[trigger] tool_of_document(docs[k])) == Some(tools@[k]@),
        decreases items.len() - i,
    {
        match tool_from_json(&items[i]) {
            Some(tool) => {
                tools.push(tool);
            },
            None => {
                assert(tool_of_document(docs[i as int]) is None);
                return None;
            },
        }
        i += 1;
    }
    assert(tools_of_documents(docs) is Some);
    assert(tools_model(tools@) =~= tools_of_documents(docs)->0);
    Some(tools)
}

/// The names of the members of the messages differ from each other.
proof fn lemma_member_names_differ()
    ensures
        "jsonrpc"@ != "id"@,
        "jsonrpc"@ != "method"@,
        "jsonrpc"@ != "params"@,
        "jsonrpc"@ != "result"@,
        "jsonrpc"@ != "error"@,
        "id"@ != "method"@,
        "id"@ != "params"@,
        "id"@ != "result"@,
        "id"@ != "error"@,
        "method"@ != "params"@,
        "result"@ != "error"@,
        "code"@ != "message"@,
        "code"@ != "data"@,
        "message"@ != "data"@,
{
    reveal_strlit("jsonrpc");
    reveal_strlit("id");
    reveal_strlit("method");
    reveal_strlit("params");
    reveal_strlit("result");
    reveal_strlit("error");
    reveal_strlit("code");
    reveal_strlit("message");
    reveal_strlit("data");
    assert("jsonrpc"@.len() == 7);
    assert("id"@.len() == 2);
    assert("method"@.len() == 6);
    assert("params"@.len() == 6);
    assert("result"@.len() == 6);
    assert("error"@.len() == 5);
    assert("code"@.len() == 4);
    assert("message"@.len() == 7);
    assert("data"@.len() == 4);
    assert("method"@[0] != "params"@[0]);
    assert("code"@[0] != "data"@[0]);
    assert("jsonrpc"@[0] != "message"@[0]);
}

/// An error object is read back from its own document as it was, unless
/// its data is `null`, which is read as no data.
pub proof fn lemma_error_round_trip(e: McpErrorView)
    requires
        e.data != Some(JsonModel::Null),
    ensures
        error_of_document(error_document(e)) == Some(e),
{
    lemma_member_names_differ();
    reveal_with_fuel(member, 4);
    let doc = error_document(e);
    assert(doc.field("code"@) == Some(JsonModel::Integer(e.code as int)));
    assert(doc.field("message"@) == Some(JsonModel::Text(e.message)));
    assert(doc.present_field("data"@) == e.data);
}

/// A request with the version literal is read back from its own document
/// as it was, unless its parameters are `null`, which is read as no
/// parameters.
pub proof fn lemma_request_round_trip(r: McpRequestView)
    requires
        r.jsonrpc == JSONRPC_VERSION@,
        r.params != Some(JsonModel::Null),
    ensures
        request_of_document(request_document(r)) == Ok::<McpRequestView, WireError>(r),
{
    lemma_member_names_differ();
    reveal_with_fuel(member, 5);
    let doc = request_document(r);
    assert(doc.field("jsonrpc"@) == Some(JsonModel::Text(r.jsonrpc)));
    assert(doc.field("id"@) == Some(JsonModel::Integer(r.id as int)));
    assert(doc.field("method"@) == Some(JsonModel::Text(r.method)));
    assert(doc.present_field("params"@) == r.params);
}

/// A response with the version literal and exactly one of a result and an
/// error is read back from its own document as it was, unless its result
/// or its error's data is `null`.
pub proof fn lemma_response_round_trip(r: McpResponseView)
    requires
        r.jsonrpc == JSONRPC_VERSION@,
        r.exclusive(),
        r.result != Some(JsonModel::Null),
        r.error matches Some(e) ==> e.data != Some(JsonModel::Null),
    ensures
        response_of_document(response_document(r)) == Ok::<McpResponseView, WireError>(r),
{
    lemma_member_names_differ();
    reveal_with_fuel(member, 5);
    let doc = response_document(r);
    assert(doc.field("jsonrpc"@) == Some(JsonModel::Text(r.jsonrpc)));
    assert(doc.field("id"@) == Some(JsonModel::Integer(r.id as int)));
    match r.error {
        Some(e) => {
            lemma_error_round_trip(e);
            assert(doc.field("error"@) == Some(error_document(e)));
            assert(error_document(e) != JsonModel::Null);
            assert(doc.present_field("result"@) is None);
        },
        None => {
            assert(doc.present_field("result"@) == r.result);
            assert(doc.present_field("error"@) is None);
        },
    }
}

/// A response that breaks the rule of exactly one of result and error is
/// refused when it is read back from its own document.
pub proof fn lemma_non_exclusive_response_refused(r: McpResponseView)
    requires
        r.jsonrpc == JSONRPC_VERSION@,
        !r.exclusive(),
        r.result != Some(JsonModel::Null),
        r.error matches Some(e) ==> e.data != Some(JsonModel::Null),
    ensures
        response_of_document(response_document(r)) == Err::<McpResponseView, WireError>(
            WireError::NotExclusive,
        ),
{
    lemma_member_names_differ();
    reveal_with_fuel(member, 5);
    let doc = response_document(r);
    assert(doc.field("jsonrpc"@) == Some(JsonModel::Text(r.jsonrpc)));
    assert(doc.field("id"@) == Some(JsonModel::Integer(r.id as int)));
    match r.error {
        Some(e) => {
            lemma_error_round_trip(e);
            assert(doc.field("result"@) == r.result);
            assert(doc.field("error"@) == Some(error_document(e)));
        },
        None => {
            assert(doc.present_field("result"@) is None);
            assert(doc.present_field("error"@) is None);
        },
    }
}

} // verus!

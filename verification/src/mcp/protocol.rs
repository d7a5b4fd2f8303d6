//! JSON-RPC 2.0 message types of the Model Context Protocol.

use crate::json::{JsonModel, JsonValue};
use crate::text::{concat, decimal_of, decimal_string, same_text};
use vstd::prelude::*;
use vstd::std_specs::convert::FromSpecImpl;

verus! {

/// The version literal that every message carries.
pub const JSONRPC_VERSION: &'static str = "2.0";

/// Parse error: invalid JSON was received.
pub const PARSE_ERROR: i32 = -32700;

/// The JSON sent is not a valid request.
pub const INVALID_REQUEST: i32 = -32600;

/// The method does not exist or is not available.
pub const METHOD_NOT_FOUND: i32 = -32601;

/// Invalid method parameters.
pub const INVALID_PARAMS: i32 = -32602;

/// Internal JSON-RPC error.
pub const INTERNAL_ERROR: i32 = -32603;

/// Server error.
pub const SERVER_ERROR: i32 = -32000;

/// The connection could not be initialized.
pub const INITIALIZATION_ERROR: i32 = -32001;

/// The protocol version that the handshake negotiates.
pub const PROTOCOL_VERSION: &'static str = "2024-11-05";

/// The model of an optional JSON value.
pub open spec fn optional_model(value: Option<JsonValue>) -> Option<JsonModel> {
    match value {
        Some(v) => Some(v@),
        None => None,
    }
}

/// A JSON-RPC error object.
#[derive(Debug, Clone, PartialEq, Eq)]
pub struct McpError {
    /// Error code.
    pub code: i32,
    /// Human-readable message.
    pub message: String,
    /// Additional data.
    pub data: Option<JsonValue>,
}

/// The model of an error object.
pub struct McpErrorView {
    pub code: i32,
    pub message: Seq<char>,
    pub data: Option<JsonModel>,
}

impl View for McpError {
    type V = McpErrorView;

    open spec fn view(&self) -> McpErrorView {
        McpErrorView { code: self.code, message: self.message@, data: optional_model(self.data) }
    }
}

/// The error that stands for a response which breaks the rule that exactly
/// one of result and error is present.
pub open spec fn violation_error() -> McpErrorView {
    McpErrorView {
        code: INTERNAL_ERROR,
        message: "Invalid response: both result and error present"@,
        data: None,
    }
}

impl McpErrorView {
    /// The text form of the error: the code in brackets, then the message.
    pub open spec fn text(self) -> Seq<char> {
        "[Error "@ + decimal_of(self.code as int) + "] "@ + self.message
    }
}

impl McpError {
    /// An error without data.
    pub fn new(code: i32, message: &str) -> (out: McpError)
        ensures
            out@ == (McpErrorView { code, message: message@, data: None }),
    {
        McpError { code, message: message.to_owned(), data: None }
    }

    /// An error with additional data.
    pub fn with_data(code: i32, message: &str, data: JsonValue) -> (out: McpError)
        ensures
            out@ == (McpErrorView { code, message: message@, data: Some(data@) }),
    {
        McpError { code, message: message.to_owned(), data: Some(data) }
    }

    /// Invalid JSON was received.
    pub fn parse_error(message: &str) -> (out: McpError)
        ensures
            out@ == (McpErrorView { code: PARSE_ERROR, message: message@, data: None }),
    {
        McpError::new(PARSE_ERROR, message)
    }

    /// The JSON sent is not a valid request.
    pub fn invalid_request(message: &str) -> (out: McpError)
        ensures
            out@ == (McpErrorView { code: INVALID_REQUEST, message: message@, data: None }),
    {
        McpError::new(INVALID_REQUEST, message)
    }

    /// The method does not exist.
    pub fn method_not_found(method: &str) -> (out: McpError)
        ensures
            out@ == (McpErrorView {
                code: METHOD_NOT_FOUND,
                message: "Method not found: "@ + method@,
                data: None,
            }),
    {
        let message = concat("Method not found: ", method);
        McpError { code: METHOD_NOT_FOUND, message, data: None }
    }

    /// Invalid method parameters.
    pub fn invalid_params(message: &str) -> (out: McpError)
        ensures
            out@ == (McpErrorView { code: INVALID_PARAMS, message: message@, data: None }),
    {
        McpError::new(INVALID_PARAMS, message)
    }

    /// Internal JSON-RPC error.
    pub fn internal_error(message: &str) -> (out: McpError)
        ensures
            out@ == (McpErrorView { code: INTERNAL_ERROR, message: message@, data: None }),
    {
        McpError::new(INTERNAL_ERROR, message)
    }

    /// Server error.
    pub fn server_error(message: &str) -> (out: McpError)
        ensures
            out@ == (McpErrorView { code: SERVER_ERROR, message: message@, data: None }),
    {
        McpError::new(SERVER_ERROR, message)
    }

    /// The connection could not be initialized.
    pub fn initialization_error(message: &str) -> (out: McpError)
        ensures
            out@ == (McpErrorView { code: INITIALIZATION_ERROR, message: message@, data: None }),
    {
        McpError::new(INITIALIZATION_ERROR, message)
    }

    /// The text form of the error: the code in brackets, then the message.
    pub fn to_text(&self) -> (out: String)
        ensures
            out@ == self@.text(),
    {
        let code = decimal_string(self.code as i64);
        let head = concat("[Error ", code.as_str());
        let head = concat(head.as_str(), "] ");
        let out = concat(head.as_str(), self.message.as_str());
        assert(out@ =~= self@.text());
        out
    }

    /// A deep copy.
    pub fn duplicate(&self) -> (out: McpError)
        ensures
            out@ == self@,
    {
        McpError {
            code: self.code,
            message: self.message.clone(),
            data: match &self.data {
                Some(d) => Some(d.duplicate()),
                None => None,
            },
        }
    }
}

/// A JSON-RPC request.
#[derive(Debug, Clone, PartialEq, Eq)]
pub struct McpRequest {
    /// Version literal.
    pub jsonrpc: String,
    /// Identifier that the response echoes.
    pub id: u64,
    /// Method to invoke.
    pub method: String,
    /// Parameters of the method.
    pub params: Option<JsonValue>,
}

/// The model of a request.
pub struct McpRequestView {
    pub jsonrpc: Seq<char>,
    pub id: u64,
    pub method: Seq<char>,
    pub params: Option<JsonModel>,
}

impl View for McpRequest {
    type V = McpRequestView;

    open spec fn view(&self) -> McpRequestView {
        McpRequestView {
            jsonrpc: self.jsonrpc@,
            id: self.id,
            method: self.method@,
            params: optional_model(self.params),
        }
    }
}

impl McpRequest {
    /// A request with the version literal.
    pub fn new(id: u64, method: &str, params: Option<JsonValue>) -> (out: McpRequest)
        ensures
            out@ == (McpRequestView {
                jsonrpc: JSONRPC_VERSION@,
                id,
                method: method@,
                params: optional_model(params),
            }),
    {
        McpRequest { jsonrpc: JSONRPC_VERSION.to_owned(), id, method: method.to_owned(), params }
    }

    /// A request without parameters.
    pub fn notification(id: u64, method: &str) -> (out: McpRequest)
        ensures
            out@ == (McpRequestView {
                jsonrpc: JSONRPC_VERSION@,
                id,
                method: method@,
                params: None,
            }),
    {
        McpRequest::new(id, method, None)
    }

    /// A deep copy.
    pub fn duplicate(&self) -> (out: McpRequest)
        ensures
            out@ == self@,
    {
        McpRequest {
            jsonrpc: self.jsonrpc.clone(),
            id: self.id,
            method: self.method.clone(),
            params: match &self.params {
                Some(p) => Some(p.duplicate()),
                None => None,
            },
        }
    }
}

/// A JSON-RPC response.
#[derive(Debug, Clone, PartialEq, Eq)]
pub struct McpResponse {
    /// Version literal.
    pub jsonrpc: String,
    /// Identifier of the request that this answers.
    pub id: u64,
    /// Payload of a success.
    pub result: Option<JsonValue>,
    /// Description of a failure.
    pub error: Option<McpError>,
}

/// The model of a response.
pub struct McpResponseView {
    pub jsonrpc: Seq<char>,
    pub id: u64,
    pub result: Option<JsonModel>,
    pub error: Option<McpErrorView>,
}

impl McpResponseView {
    /// Exactly one of result and error is present.
    pub open spec fn exclusive(self) -> bool {
        (self.result is Some) != (self.error is Some)
    }

    /// A result is present and no error.
    pub open spec fn success(self) -> bool {
        self.result is Some && self.error is None
    }

    /// What the response stands for: its result, its error, or the
    /// violation error where it has both or neither.
    pub open spec fn outcome(self) -> Result<JsonModel, McpErrorView> {
        match (self.result, self.error) {
            (Some(v), None) => Ok(v),
            (None, Some(e)) => Err(e),
            _ => Err(violation_error()),
        }
    }
}

impl View for McpResponse {
    type V = McpResponseView;

    open spec fn view(&self) -> McpResponseView {
        McpResponseView {
            jsonrpc: self.jsonrpc@,
            id: self.id,
            result: optional_model(self.result),
            error: match self.error {
                Some(e) => Some(e@),
                None => None,
            },
        }
    }
}

/// The model of what `into_result` hands back.
pub open spec fn outcome_model(r: Result<JsonValue, McpError>) -> Result<JsonModel, McpErrorView> {
    match r {
        Ok(v) => Ok(v@),
        Err(e) => Err(e@),
    }
}

impl McpResponse {
    /// A successful response.
    pub fn ok(id: u64, result: JsonValue) -> (out: McpResponse)
        ensures
            out@ == (McpResponseView {
                jsonrpc: JSONRPC_VERSION@,
                id,
                result: Some(result@),
                error: None,
            }),
    {
        McpResponse { jsonrpc: JSONRPC_VERSION.to_owned(), id, result: Some(result), error: None }
    }

    /// An error response.
    pub fn err(id: u64, error: McpError) -> (out: McpResponse)
        ensures
            out@ == (McpResponseView {
                jsonrpc: JSONRPC_VERSION@,
                id,
                result: None,
                error: Some(error@),
            }),
    {
        McpResponse { jsonrpc: JSONRPC_VERSION.to_owned(), id, result: None, error: Some(error) }
    }

    /// Whether the response carries a result and no error.
    pub fn is_success(&self) -> (out: bool)
        ensures
            out == self@.success(),
    {
        self.result.is_some() && self.error.is_none()
    }

    /// Whether exactly one of result and error is present.
    pub fn is_exclusive(&self) -> (out: bool)
        ensures
            out == self@.exclusive(),
    {
        self.result.is_some() != self.error.is_some()
    }

    /// The result of a success, the error of a failure, and the violation
    /// error for a response with both or neither.
    pub fn into_result(self) -> (out: Result<JsonValue, McpError>)
        ensures
            outcome_model(out) == self@.outcome(),
            self.result is Some && self.error is None ==> out == Ok::<JsonValue, McpError>(
                self.result->0,
            ),
            self.result is None && self.error is Some ==> out == Err::<JsonValue, McpError>(
                self.error->0,
            ),
    {
        match (self.result, self.error) {
            (Some(result), None) => Ok(result),
            (None, Some(error)) => Err(error),
            _ => Err(McpError::internal_error("Invalid response: both result and error present")),
        }
    }
}

/// A response that has both result and error, or neither, stands for the
/// violation error; one that has exactly one of them stands for that one.
pub proof fn lemma_exclusive_response(r: McpResponseView)
    ensures
        !r.exclusive() ==> r.outcome() == Err::<JsonModel, McpErrorView>(violation_error()),
        r.exclusive() && r.result is Some ==> r.outcome() == Ok::<JsonModel, McpErrorView>(
            r.result->0,
        ),
        r.exclusive() && r.error is Some ==> r.outcome() == Err::<JsonModel, McpErrorView>(
            r.error->0,
        ),
{
}

/// The methods of the protocol.
#[derive(Debug, Clone, PartialEq, Eq, Hash)]
pub enum McpMethod {
    Initialize,
    ToolsList,
    ToolsCall,
    ResourcesList,
    ResourcesRead,
    PromptsList,
    PromptsGet,
    /// A method outside the standard set.
    Custom(String),
}

/// The standard method with the given wire name.
pub open spec fn standard_method(name: Seq<char>) -> Option<McpMethod> {
    if name == "initialize"@ {
        Some(McpMethod::Initialize)
    } else if name == "tools/list"@ {
        Some(McpMethod::ToolsList)
    } else if name == "tools/call"@ {
        Some(McpMethod::ToolsCall)
    } else if name == "resources/list"@ {
        Some(McpMethod::ResourcesList)
    } else if name == "resources/read"@ {
        Some(McpMethod::ResourcesRead)
    } else if name == "prompts/list"@ {
        Some(McpMethod::PromptsList)
    } else if name == "prompts/get"@ {
        Some(McpMethod::PromptsGet)
    } else {
        None
    }
}

impl McpMethod {
    /// The wire name of the method.
    pub open spec fn name(self) -> Seq<char> {
        match self {
            McpMethod::Initialize => "initialize"@,
            McpMethod::ToolsList => "tools/list"@,
            McpMethod::ToolsCall => "tools/call"@,
            McpMethod::ResourcesList => "resources/list"@,
            McpMethod::ResourcesRead => "resources/read"@,
            McpMethod::PromptsList => "prompts/list"@,
            McpMethod::PromptsGet => "prompts/get"@,
            McpMethod::Custom(s) => s@,
        }
    }

    /// The wire name of the method.
    pub fn as_str(&self) -> (out: &str)
        ensures
            out@ == self.name(),
    {
        match self {
            McpMethod::Initialize => "initialize",
            McpMethod::ToolsList => "tools/list",
            McpMethod::ToolsCall => "tools/call",
            McpMethod::ResourcesList => "resources/list",
            McpMethod::ResourcesRead => "resources/read",
            McpMethod::PromptsList => "prompts/list",
            McpMethod::PromptsGet => "prompts/get",
            McpMethod::Custom(s) => s.as_str(),
        }
    }

    /// The method with the given wire name: the standard method of that
    /// name, or a custom method.
    pub fn from_name(name: String) -> (out: McpMethod)
        ensures
            match standard_method(name@) {
                Some(m) => out == m,
                None => out == McpMethod::Custom(name),
            },
            out.name() == name@,
    {
        if same_text(name.as_str(), "initialize") {
            McpMethod::Initialize
        } else if same_text(name.as_str(), "tools/list") {
            McpMethod::ToolsList
        } else if same_text(name.as_str(), "tools/call") {
            McpMethod::ToolsCall
        } else if same_text(name.as_str(), "resources/list") {
            McpMethod::ResourcesList
        } else if same_text(name.as_str(), "resources/read") {
            McpMethod::ResourcesRead
        } else if same_text(name.as_str(), "prompts/list") {
            McpMethod::PromptsList
        } else if same_text(name.as_str(), "prompts/get") {
            McpMethod::PromptsGet
        } else {
            McpMethod::Custom(name)
        }
    }
}

impl From<String> for McpMethod {
    fn from(s: String) -> (out: McpMethod) {
        McpMethod::from_name(s)
    }
}

impl FromSpecImpl<String> for McpMethod {
    open spec fn obeys_from_spec() -> bool {
        true
    }

    open spec fn from_spec(s: String) -> McpMethod {
        match standard_method(s@) {
            Some(m) => m,
            None => McpMethod::Custom(s),
        }
    }
}

impl<'a> From<&'a str> for McpMethod {
    fn from(s: &'a str) -> (out: McpMethod) {
        McpMethod::from_name(s.to_owned())
    }
}

/// A conversion from a string slice makes a string of its own for a custom
/// method, so no particular value can be promised for it here; `from_name`
/// says what the method is.
impl<'a> FromSpecImpl<&'a str> for McpMethod {
    open spec fn obeys_from_spec() -> bool {
        false
    }

    open spec fn from_spec(s: &'a str) -> McpMethod {
        arbitrary()
    }
}

/// Who the client is.
#[derive(Debug, Clone, PartialEq, Eq)]
pub struct ClientInfo {
    pub name: String,
    pub version: String,
}

/// What the client can do.
#[derive(Debug, Clone, PartialEq, Eq)]
pub struct ClientCapabilities {
    /// Sampling capability.
    pub sampling: Option<JsonValue>,
    /// Experimental features.
    pub experimental: Option<JsonValue>,
}

/// Parameters of the `initialize` request.
#[derive(Debug, Clone, PartialEq, Eq)]
pub struct InitializeParams {
    pub protocol_version: String,
    pub capabilities: ClientCapabilities,
    pub client_info: ClientInfo,
}

/// Who the server is.
#[derive(Debug, Clone, PartialEq, Eq)]
pub struct ServerInfo {
    pub name: String,
    pub version: String,
}

/// The model of a server's identification.
pub struct ServerInfoView {
    pub name: Seq<char>,
    pub version: Seq<char>,
}

impl View for ServerInfo {
    type V = ServerInfoView;

    open spec fn view(&self) -> ServerInfoView {
        ServerInfoView { name: self.name@, version: self.version@ }
    }
}

/// What the server answered to `initialize`.
#[derive(Debug, Clone, PartialEq, Eq)]
pub struct ServerCapabilities {
    pub protocol_version: String,
    pub capabilities: JsonValue,
    pub server_info: ServerInfo,
}

/// The model of a server's answer to `initialize`.
pub struct ServerCapabilitiesView {
    pub protocol_version: Seq<char>,
    pub capabilities: JsonModel,
    pub server_info: ServerInfoView,
}

impl View for ServerCapabilities {
    type V = ServerCapabilitiesView;

    open spec fn view(&self) -> ServerCapabilitiesView {
        ServerCapabilitiesView {
            protocol_version: self.protocol_version@,
            capabilities: self.capabilities@,
            server_info: self.server_info@,
        }
    }
}

/// A tool that the server offers.
#[derive(Debug, Clone, PartialEq, Eq)]
pub struct Tool {
    pub name: String,
    pub description: String,
    /// JSON Schema of the tool's input.
    pub input_schema: JsonValue,
}

/// The model of a tool.
pub struct ToolView {
    pub name: Seq<char>,
    pub description: Seq<char>,
    pub input_schema: JsonModel,
}

impl View for Tool {
    type V = ToolView;

    open spec fn view(&self) -> ToolView {
        ToolView {
            name: self.name@,
            description: self.description@,
            input_schema: self.input_schema@,
        }
    }
}

impl Tool {
    /// A deep copy.
    pub fn duplicate(&self) -> (out: Tool)
        ensures
            out@ == self@,
    {
        Tool {
            name: self.name.clone(),
            description: self.description.clone(),
            input_schema: self.input_schema.duplicate(),
        }
    }
}

/// The models of a list of tools.
pub open spec fn tools_model(tools: Seq<Tool>) -> Seq<ToolView> {
    Seq::new(tools.len(), |i: int| tools[i]@)
}

/// Parameters of the `tools/call` request.
#[derive(Debug, Clone, PartialEq, Eq)]
pub struct ToolCallParams {
    pub name: String,
    pub arguments: JsonValue,
}

} // verus!

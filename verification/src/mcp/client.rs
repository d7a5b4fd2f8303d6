//! The client state machine of the broker.
//!
//! The client decides; it performs no I/O. A call is started by a method
//! that hands out the request to send, and is ended by the method that takes
//! the response, or by the report of a transport failure. Whoever holds the
//! transport sends the request and reports back.

use crate::json::{JsonModel, JsonValue};
use crate::mcp::protocol::{
    tools_model, ClientCapabilities, ClientInfo, InitializeParams, McpError, McpErrorView,
    McpRequest, McpRequestView, McpResponse, McpResponseView, ServerCapabilities,
    ServerCapabilitiesView, Tool, ToolCallParams, ToolView, JSONRPC_VERSION, PROTOCOL_VERSION,
};
use crate::mcp::retry::{retryable_message, RetryConfig, RetryDecision};
use crate::mcp::wire::{
    client_capabilities_document, client_info_document, initialize_params_to_json,
    server_capabilities_from_json, server_capabilities_of_document, tool_call_document,
    tool_call_to_json, tools_from_json, tools_of_result, HandshakeError,
};
use crate::text::concat;
use vstd::prelude::*;

verus! {

/// The name under which the client introduces itself.
pub const CLIENT_NAME: &'static str = "ironclaw-orchestrator";

/// The version under which the client introduces itself.
pub const CLIENT_VERSION: &'static str = "0.1.0";

/// The states of a connection.
#[derive(Debug, Clone, Copy, PartialEq, Eq, Structural)]
pub enum ClientState {
    /// Created, not yet initialized.
    Created,
    /// The handshake is under way.
    Initializing,
    /// Initialized and ready for calls.
    Ready,
    /// Closed for good.
    Disconnected,
}

/// The calls that a client can make.
#[derive(Debug, Clone, Copy, PartialEq, Eq, Structural)]
pub enum Operation {
    Initialize,
    ListTools,
    CallTool,
}

/// Which call may be started in which state: the handshake only on a new
/// connection, everything else only on a ready one.
pub open spec fn operation_legal(state: ClientState, operation: Operation) -> bool {
    match operation {
        Operation::Initialize => state == ClientState::Created,
        Operation::ListTools => state == ClientState::Ready,
        Operation::CallTool => state == ClientState::Ready,
    }
}

/// A call that was started and has not ended yet.
#[derive(Debug, Clone, Copy, PartialEq, Eq, Structural)]
pub struct PendingCall {
    pub operation: Operation,
    /// The id of the request.
    pub id: u64,
    /// How many attempts of this call have failed so far.
    pub attempt: usize,
}

/// How a response breaks the protocol.
#[derive(Debug, Clone, Copy, PartialEq, Eq, Structural)]
pub enum Violation {
    /// The response answers another request.
    IdMismatch,
    /// Result and error are both present, or both absent.
    NotExclusive,
    /// The result of the handshake is incomplete.
    Handshake(HandshakeError),
    /// The result of the tool listing holds no list of tools.
    BadToolList,
}

/// Why a call failed.
#[derive(Debug, Clone, PartialEq, Eq)]
pub enum ClientError {
    /// The call is not legal in the client's state. Nothing was sent.
    WrongState { operation: Operation, state: ClientState },
    /// The transport was found closed before the handshake. Nothing was
    /// sent.
    TransportDisconnected,
    /// Every request id has been used.
    IdsExhausted,
    /// An answer or a failure was reported for a call that is not under
    /// way.
    NoCallInFlight,
    /// Sending or receiving failed.
    Transport(String),
    /// The peer closed the connection.
    ConnectionClosed,
    /// The deadline of the call expired.
    Timeout,
    /// The server answered with an error, handed on unchanged.
    Remote(McpError),
    /// The server's answer breaks the protocol.
    ProtocolViolation(Violation),
}

/// The model of a failure.
pub enum ClientErrorView {
    WrongState { operation: Operation, state: ClientState },
    TransportDisconnected,
    IdsExhausted,
    NoCallInFlight,
    Transport(Seq<char>),
    ConnectionClosed,
    Timeout,
    Remote(McpErrorView),
    ProtocolViolation(Violation),
}

impl View for ClientError {
    type V = ClientErrorView;

    open spec fn view(&self) -> ClientErrorView {
        match self {
            ClientError::WrongState { operation, state } => ClientErrorView::WrongState {
                operation: *operation,
                state: *state,
            },
            ClientError::TransportDisconnected => ClientErrorView::TransportDisconnected,
            ClientError::IdsExhausted => ClientErrorView::IdsExhausted,
            ClientError::NoCallInFlight => ClientErrorView::NoCallInFlight,
            ClientError::Transport(m) => ClientErrorView::Transport(m@),
            ClientError::ConnectionClosed => ClientErrorView::ConnectionClosed,
            ClientError::Timeout => ClientErrorView::Timeout,
            ClientError::Remote(e) => ClientErrorView::Remote(e@),
            ClientError::ProtocolViolation(v) => ClientErrorView::ProtocolViolation(*v),
        }
    }
}

impl ClientState {
    /// The name of the state.
    pub open spec fn name(self) -> Seq<char> {
        match self {
            ClientState::Created => "Created"@,
            ClientState::Initializing => "Initializing"@,
            ClientState::Ready => "Ready"@,
            ClientState::Disconnected => "Disconnected"@,
        }
    }

    /// The name of the state.
    pub fn as_str(&self) -> (out: &'static str)
        ensures
            out@ == self.name(),
    {
        match self {
            ClientState::Created => "Created",
            ClientState::Initializing => "Initializing",
            ClientState::Ready => "Ready",
            ClientState::Disconnected => "Disconnected",
        }
    }
}

impl ClientErrorView {
    /// The text that describes the failure.
    pub open spec fn message_text(self) -> Seq<char> {
        match self {
            ClientErrorView::WrongState { operation, state } => match operation {
                Operation::Initialize => "Cannot initialize client: invalid state "@ + state.name(),
                _ => match state {
                    ClientState::Created => "Client not initialized. Call initialize() first."@,
                    ClientState::Initializing => "Client is currently initializing"@,
                    ClientState::Ready => "Client is busy with another call"@,
                    ClientState::Disconnected => "Client is disconnected"@,
                },
            },
            ClientErrorView::TransportDisconnected => "Cannot initialize: transport is disconnected"@,
            ClientErrorView::IdsExhausted => "Request ids are exhausted"@,
            ClientErrorView::NoCallInFlight => "No such call is under way"@,
            ClientErrorView::Transport(m) => m,
            ClientErrorView::ConnectionClosed => "MCP server closed connection (EOF)"@,
            ClientErrorView::Timeout => "Request timed out"@,
            ClientErrorView::Remote(e) => "Server returned an error: "@ + e.text(),
            ClientErrorView::ProtocolViolation(v) => match v {
                Violation::IdMismatch => "Protocol violation: response id does not match the request"@,
                Violation::NotExclusive => "Protocol violation: response must hold exactly one of result and error"@,
                Violation::Handshake(h) => match h {
                    HandshakeError::BadServerInfo => "Failed to parse server info from initialize response"@,
                    HandshakeError::MissingProtocolVersion => "Missing protocolVersion in initialize response"@,
                    HandshakeError::MissingCapabilities => "Missing capabilities in initialize response"@,
                },
                Violation::BadToolList => "Failed to parse tools from response"@,
            },
        }
    }
}

impl ClientError {
    /// The text that describes the failure.
    pub fn message(&self) -> (out: String)
        ensures
            out@ == self@.message_text(),
    {
        match self {
            ClientError::WrongState { operation, state } => match operation {
                Operation::Initialize => concat(
                    "Cannot initialize client: invalid state ",
                    state.as_str(),
                ),
                _ => match state {
                    ClientState::Created => "Client not initialized. Call initialize() first.".to_owned(),
                    ClientState::Initializing => "Client is currently initializing".to_owned(),
                    ClientState::Ready => "Client is busy with another call".to_owned(),
                    ClientState::Disconnected => "Client is disconnected".to_owned(),
                },
            },
            ClientError::TransportDisconnected => "Cannot initialize: transport is disconnected".to_owned(),
            ClientError::IdsExhausted => "Request ids are exhausted".to_owned(),
            ClientError::NoCallInFlight => "No such call is under way".to_owned(),
            ClientError::Transport(m) => m.clone(),
            ClientError::ConnectionClosed => "MCP server closed connection (EOF)".to_owned(),
            ClientError::Timeout => "Request timed out".to_owned(),
            ClientError::Remote(e) => {
                let text = e.to_text();
                concat("Server returned an error: ", text.as_str())
            },
            ClientError::ProtocolViolation(v) => match v {
                Violation::IdMismatch => "Protocol violation: response id does not match the request".to_owned(),
                Violation::NotExclusive => "Protocol violation: response must hold exactly one of result and error".to_owned(),
                Violation::Handshake(h) => match h {
                    HandshakeError::BadServerInfo => "Failed to parse server info from initialize response".to_owned(),
                    HandshakeError::MissingProtocolVersion => "Missing protocolVersion in initialize response".to_owned(),
                    HandshakeError::MissingCapabilities => "Missing capabilities in initialize response".to_owned(),
                },
                Violation::BadToolList => "Failed to parse tools from response".to_owned(),
            },
        }
    }
}

/// What to do after a transport failure was reported.
#[derive(Debug, Clone, PartialEq, Eq)]
pub enum FailureAction {
    /// Wait that many milliseconds, then send the same request again.
    RetryAfter(u64),
    /// The call has failed with this error.
    Fail(ClientError),
}

/// A sequence of ids in which each one is greater than those before it.
pub open spec fn strictly_increasing(ids: Seq<u64>) -> bool {
    forall|i: int, j: int| 0 <= i < j < ids.len() ==> ids[i] < ids[j]
}

/// The model of a client.
pub struct ClientView {
    pub state: ClientState,
    /// The id that the next request gets.
    pub next_id: u64,
    /// The call under way.
    pub pending: Option<PendingCall>,
    /// The ids of all requests handed out so far, in order.
    pub issued: Seq<u64>,
    pub server_capabilities: Option<ServerCapabilitiesView>,
    pub tools: Seq<ToolView>,
    pub retry: Option<RetryConfig>,
}

impl ClientView {
    /// Why a call cannot be started, if it cannot. The state is looked at
    /// first, then the transport (for the handshake only), then the supply
    /// of ids.
    pub open spec fn refusal(self, operation: Operation, connected: bool) -> Option<
        ClientErrorView,
    > {
        if !operation_legal(self.state, operation) || self.pending is Some {
            Some(ClientErrorView::WrongState { operation, state: self.state })
        } else if operation == Operation::Initialize && !connected {
            Some(ClientErrorView::TransportDisconnected)
        } else if self.next_id == u64::MAX {
            Some(ClientErrorView::IdsExhausted)
        } else {
            None
        }
    }

    /// The client after a call was started.
    pub open spec fn started(self, operation: Operation) -> ClientView {
        ClientView {
            state: if operation == Operation::Initialize {
                ClientState::Initializing
            } else {
                self.state
            },
            next_id: (self.next_id + 1) as u64,
            pending: Some(PendingCall { operation, id: self.next_id, attempt: 0 }),
            issued: self.issued.push(self.next_id),
            ..self
        }
    }

    /// The client after the call under way has ended. A handshake leaves
    /// the connection ready or closed; other calls leave it as it was.
    pub open spec fn ended(self, success: bool) -> ClientView {
        ClientView {
            state: if self.state == ClientState::Initializing {
                if success {
                    ClientState::Ready
                } else {
                    ClientState::Disconnected
                }
            } else {
                self.state
            },
            pending: None,
            ..self
        }
    }

    /// The client after the connection was lost.
    pub open spec fn closed(self) -> ClientView {
        ClientView { state: ClientState::Disconnected, pending: None, ..self }
    }

    /// Whether the call `operation` is under way.
    pub open spec fn awaiting(self, operation: Operation) -> bool {
        self.pending matches Some(p) && p.operation == operation
    }

    /// Whether a failed attempt of the call under way is followed by
    /// another attempt.
    pub open spec fn retries(self, message: Seq<char>) -> bool {
        &&& self.pending matches Some(p)
        &&& self.retry matches Some(config)
        &&& p.attempt + 1 < config.max_attempts
        &&& retryable_message(message)
    }
}

/// What is amiss with a response to the call `call`, before its payload is
/// looked at.
pub open spec fn response_fault(call: PendingCall, response: McpResponseView) -> Option<
    ClientErrorView,
> {
    if response.id != call.id {
        Some(ClientErrorView::ProtocolViolation(Violation::IdMismatch))
    } else if !response.exclusive() {
        Some(ClientErrorView::ProtocolViolation(Violation::NotExclusive))
    } else {
        match response.error {
            Some(e) => Some(ClientErrorView::Remote(e)),
            None => None,
        }
    }
}

/// What the answer to a handshake means.
pub open spec fn handshake_outcome(call: PendingCall, response: McpResponseView) -> Result<
    ServerCapabilitiesView,
    ClientErrorView,
> {
    match response_fault(call, response) {
        Some(e) => Err(e),
        None => match server_capabilities_of_document(response.result->0) {
            Ok(c) => Ok(c),
            Err(h) => Err(ClientErrorView::ProtocolViolation(Violation::Handshake(h))),
        },
    }
}

/// What the answer to a tool listing means.
pub open spec fn listing_outcome(call: PendingCall, response: McpResponseView) -> Result<
    Seq<ToolView>,
    ClientErrorView,
> {
    match response_fault(call, response) {
        Some(e) => Err(e),
        None => match tools_of_result(response.result->0) {
            Some(tools) => Ok(tools),
            None => Err(ClientErrorView::ProtocolViolation(Violation::BadToolList)),
        },
    }
}

/// What the answer to a tool call means.
pub open spec fn call_outcome(call: PendingCall, response: McpResponseView) -> Result<
    JsonModel,
    ClientErrorView,
> {
    match response_fault(call, response) {
        Some(e) => Err(e),
        None => Ok(response.result->0),
    }
}

/// The parameters of the handshake.
pub open spec fn hello_document() -> JsonModel {
    JsonModel::Record(
        seq![
            ("protocolVersion"@, JsonModel::Text(PROTOCOL_VERSION@)),
            (
                "capabilities"@,
                client_capabilities_document(Some(JsonModel::Bool(false)), None),
            ),
            ("clientInfo"@, client_info_document(CLIENT_NAME@, CLIENT_VERSION@)),
        ],
    )
}

/// The request of a call.
pub open spec fn request_of(id: u64, method: Seq<char>, params: Option<JsonModel>) -> McpRequestView {
    McpRequestView { jsonrpc: JSONRPC_VERSION@, id, method, params }
}

/// The client of one connection.
pub struct McpClient {
    next_id: u64,
    state: ClientState,
    server_capabilities: Option<ServerCapabilities>,
    tools: Vec<Tool>,
    retry: Option<RetryConfig>,
    pending: Option<PendingCall>,
    issued: Ghost<Seq<u64>>,
}

impl View for McpClient {
    type V = ClientView;

    closed spec fn view(&self) -> ClientView {
        ClientView {
            state: self.state,
            next_id: self.next_id,
            pending: self.pending,
            issued: self.issued@,
            server_capabilities: match self.server_capabilities {
                Some(c) => Some(c@),
                None => None,
            },
            tools: tools_model(self.tools@),
            retry: self.retry,
        }
    }
}

/// The model of the result of starting a call.
pub open spec fn start_model(r: Result<McpRequest, ClientError>) -> Result<
    McpRequestView,
    ClientErrorView,
> {
    match r {
        Ok(v) => Ok(v@),
        Err(e) => Err(e@),
    }
}

impl McpClient {
    #[verifier::type_invariant]
    spec fn inv(self) -> bool {
        &&& strictly_increasing(self.issued@)
        &&& forall|i: int| 0 <= i < self.issued@.len() ==> self.issued@[i] < self.next_id
        &&& self.pending matches Some(p) ==> if p.operation == Operation::Initialize {
            self.state == ClientState::Initializing
        } else {
            self.state == ClientState::Ready
        }
        &&& self.state == ClientState::Ready ==> self.server_capabilities is Some
        &&& self.state == ClientState::Created ==> self.server_capabilities is None
    }

    /// A client for a new connection, without a retry policy. The first
    /// request gets the id 1.
    pub fn new() -> (out: McpClient)
        ensures
            out@ == (ClientView {
                state: ClientState::Created,
                next_id: 1,
                pending: None,
                issued: Seq::empty(),
                server_capabilities: None,
                tools: Seq::empty(),
                retry: None,
            }),
    {
        let out = McpClient {
            next_id: 1,
            state: ClientState::Created,
            server_capabilities: None,
            tools: Vec::new(),
            retry: None,
            pending: None,
            issued: Ghost(Seq::empty()),
        };
        assert(out@.tools =~= Seq::empty());
        out
    }

    /// Attaches a retry policy.
    pub fn with_retry(self, config: RetryConfig) -> (out: McpClient)
        ensures
            out@ == (ClientView { retry: Some(config), ..self@ }),
    {
        proof {
            use_type_invariant(&self);
        }
        McpClient { retry: Some(config), ..self }
    }

    /// The state of the connection.
    pub fn state(&self) -> (out: ClientState)
        ensures
            out == self@.state,
    {
        self.state
    }

    /// What the server answered to the handshake. A ready client always has
    /// it, and a client that has not begun the handshake never has.
    pub fn server_capabilities(&self) -> (out: Option<&ServerCapabilities>)
        ensures
            match out {
                Some(c) => self@.server_capabilities == Some(c@),
                None => self@.server_capabilities is None,
            },
            self@.state == ClientState::Ready ==> out is Some,
            self@.state == ClientState::Created ==> out is None,
    {
        proof {
            use_type_invariant(self);
        }
        self.server_capabilities.as_ref()
    }

    /// The tools of the last listing; empty before the first one.
    pub fn tools(&self) -> (out: &Vec<Tool>)
        ensures
            tools_model(out@) == self@.tools,
    {
        &self.tools
    }

    /// The call under way.
    pub fn pending(&self) -> (out: Option<PendingCall>)
        ensures
            out == self@.pending,
    {
        self.pending
    }

    /// The id that the next request gets.
    pub fn next_request_id(&self) -> (out: u64)
        ensures
            out == self@.next_id,
    {
        self.next_id
    }

    /// Whether calls other than the handshake may be started.
    pub fn ensure_ready(&self) -> (out: Result<(), ClientError>)
        ensures
            match out {
                Ok(()) => self@.state == ClientState::Ready,
                Err(e) => self@.state != ClientState::Ready && e@ == (ClientErrorView::WrongState {
                    operation: Operation::ListTools,
                    state: self@.state,
                }),
            },
    {
        match self.state {
            ClientState::Ready => Ok(()),
            _ => Err(ClientError::WrongState { operation: Operation::ListTools, state: self.state }),
        }
    }

    /// Tests whether a call can be started.
    fn refuse(&self, operation: Operation, connected: bool) -> (out: Option<ClientError>)
        ensures
            match out {
                Some(e) => self@.refusal(operation, connected) == Some(e@),
                None => self@.refusal(operation, connected) is None,
            },
    {
        let legal = match operation {
            Operation::Initialize => matches!(self.state, ClientState::Created),
            Operation::ListTools => matches!(self.state, ClientState::Ready),
            Operation::CallTool => matches!(self.state, ClientState::Ready),
        };
        if !legal || self.pending.is_some() {
            Some(ClientError::WrongState { operation, state: self.state })
        } else if matches!(operation, Operation::Initialize) && !connected {
            Some(ClientError::TransportDisconnected)
        } else if self.next_id == u64::MAX {
            Some(ClientError::IdsExhausted)
        } else {
            None
        }
    }

    /// Marks a call as started and hands out its id.
    fn start(&mut self, operation: Operation) -> (id: u64)
        requires
            old(self)@.refusal(operation, true) is None,
        ensures
            id == old(self)@.next_id,
            final(self)@ == old(self)@.started(operation),
            forall|i: int| 0 <= i < old(self)@.issued.len() ==> old(self)@.issued[i] < id,
            strictly_increasing(final(self)@.issued),
    {
        proof {
            use_type_invariant(&*self);
        }
        let id = self.next_id;
        if matches!(operation, Operation::Initialize) {
            self.state = ClientState::Initializing;
        }
        self.pending = Some(PendingCall { operation, id, attempt: 0 });
        self.next_id = id + 1;
        self.issued = Ghost(self.issued@.push(id));
        id
    }

    /// Starts the handshake and hands out the request to send. The
    /// handshake is legal only on a new connection; otherwise nothing
    /// changes and there is nothing to send.
    pub fn initialize(&mut self, transport_connected: bool) -> (out: Result<
        McpRequest,
        ClientError,
    >)
        ensures
            start_model(out) == match old(self)@.refusal(
                Operation::Initialize,
                transport_connected,
            ) {
                Some(e) => Err(e),
                None => Ok(request_of(old(self)@.next_id, "initialize"@, Some(hello_document()))),
            },
            final(self)@ == if out is Ok {
                old(self)@.started(Operation::Initialize)
            } else {
                old(self)@
            },
            out matches Ok(request) ==> forall|i: int|
                0 <= i < old(self)@.issued.len() ==> old(self)@.issued[i] < request.id,
            strictly_increasing(final(self)@.issued),
    {
        proof {
            use_type_invariant(&*self);
        }
        match self.refuse(Operation::Initialize, transport_connected) {
            Some(e) => Err(e),
            None => {
                let params = InitializeParams {
                    protocol_version: PROTOCOL_VERSION.to_owned(),
                    capabilities: ClientCapabilities {
                        sampling: Some(JsonValue::boolean(false)),
                        experimental: None,
                    },
                    client_info: ClientInfo {
                        name: CLIENT_NAME.to_owned(),
                        version: CLIENT_VERSION.to_owned(),
                    },
                };
                let document = initialize_params_to_json(&params);
                assert(document@ == hello_document());
                let id = self.start(Operation::Initialize);
                Ok(McpRequest::new(id, "initialize", Some(document)))
            },
        }
    }

    /// Ends the handshake with the server's answer. A complete answer makes
    /// the connection ready and is kept; anything else closes the
    /// connection.
    pub fn complete_initialize(&mut self, response: McpResponse) -> (out: Result<(), ClientError>)
        ensures
            !old(self)@.awaiting(Operation::Initialize) ==> (out matches Err(e) && e@
                == ClientErrorView::NoCallInFlight && final(self)@ == old(self)@),
            old(self)@.awaiting(Operation::Initialize) ==> match handshake_outcome(
                old(self)@.pending->0,
                response@,
            ) {
                Ok(c) => out is Ok && final(self)@ == (ClientView {
                    server_capabilities: Some(c),
                    ..old(self)@.ended(true)
                }) && final(self)@.state == ClientState::Ready,
                Err(e) => out matches Err(x) && x@ == e && final(self)@ == old(self)@.ended(false)
                    && final(self)@.state == ClientState::Disconnected,
            },
            strictly_increasing(final(self)@.issued),
    {
        proof {
            use_type_invariant(&*self);
        }
        let call = match self.pending {
            Some(p) => p,
            None => {
                return Err(ClientError::NoCallInFlight);
            },
        };
        if !matches!(call.operation, Operation::Initialize) {
            return Err(ClientError::NoCallInFlight);
        }
        match Self::payload(call, response) {
            Ok(result) => match server_capabilities_from_json(&result) {
                Ok(capabilities) => {
                    self.pending = None;
                    self.server_capabilities = Some(capabilities);
                    self.state = ClientState::Ready;
                    Ok(())
                },
                Err(h) => {
                    self.pending = None;
                    self.state = ClientState::Disconnected;
                    Err(ClientError::ProtocolViolation(Violation::Handshake(h)))
                },
            },
            Err(e) => {
                self.pending = None;
                self.state = ClientState::Disconnected;
                Err(e)
            },
        }
    }

    /// The payload of a response to the call `call`, or what is amiss with
    /// the response.
    fn payload(call: PendingCall, response: McpResponse) -> (out: Result<JsonValue, ClientError>)
        ensures
            match out {
                Ok(v) => response_fault(call, response@) is None && response@.result == Some(v@),
                Err(e) => response_fault(call, response@) == Some(e@),
            },
    {
        if response.id != call.id {
            return Err(ClientError::ProtocolViolation(Violation::IdMismatch));
        }
        if !response.is_exclusive() {
            return Err(ClientError::ProtocolViolation(Violation::NotExclusive));
        }
        match response.into_result() {
            Ok(v) => Ok(v),
            Err(e) => Err(ClientError::Remote(e)),
        }
    }

    /// Starts a tool listing and hands out the request to send. Legal only
    /// on a ready connection with no call under way; otherwise nothing
    /// changes and there is nothing to send.
    pub fn list_tools(&mut self) -> (out: Result<McpRequest, ClientError>)
        ensures
            start_model(out) == match old(self)@.refusal(Operation::ListTools, true) {
                Some(e) => Err(e),
                None => Ok(request_of(old(self)@.next_id, "tools/list"@, None)),
            },
            final(self)@ == if out is Ok {
                old(self)@.started(Operation::ListTools)
            } else {
                old(self)@
            },
            out matches Ok(request) ==> forall|i: int|
                0 <= i < old(self)@.issued.len() ==> old(self)@.issued[i] < request.id,
            strictly_increasing(final(self)@.issued),
    {
        proof {
            use_type_invariant(&*self);
        }
        match self.refuse(Operation::ListTools, true) {
            Some(e) => Err(e),
            None => {
                let id = self.start(Operation::ListTools);
                Ok(McpRequest::notification(id, "tools/list"))
            },
        }
    }

    /// Ends a tool listing with the server's answer. The tools of a good
    /// answer are kept and handed out. The connection stays ready either
    /// way.
    pub fn complete_list_tools(&mut self, response: McpResponse) -> (out: Result<
        Vec<Tool>,
        ClientError,
    >)
        ensures
            !old(self)@.awaiting(Operation::ListTools) ==> (out matches Err(e) && e@
                == ClientErrorView::NoCallInFlight && final(self)@ == old(self)@),
            old(self)@.awaiting(Operation::ListTools) ==> match listing_outcome(
                old(self)@.pending->0,
                response@,
            ) {
                Ok(tools) => out matches Ok(listed) && tools_model(listed@) == tools && final(self)@ == (ClientView { tools, ..old(self)@.ended(true) }),
                Err(e) => out matches Err(x) && x@ == e && final(self)@ == old(self)@.ended(false),
            },
            final(self)@.state == old(self)@.state,
            strictly_increasing(final(self)@.issued),
    {
        proof {
            use_type_invariant(&*self);
        }
        let call = match self.pending {
            Some(p) => p,
            None => {
                return Err(ClientError::NoCallInFlight);
            },
        };
        if !matches!(call.operation, Operation::ListTools) {
            return Err(ClientError::NoCallInFlight);
        }
        self.pending = None;
        match Self::payload(call, response) {
            Ok(result) => match tools_from_json(&result) {
                Some(tools) => {
                    let mut kept: Vec<Tool> = Vec::new();
                    let mut i: usize = 0;
                    while i < tools.len()
                        invariant
                            i <= tools.len(),
                            kept.len() == i,
                            forall|k: int| 0 <= k < i ==> kept@[k]@ == tools@[k]@,
                        decreases tools.len() - i,
                    {
                        kept.push(tools[i].duplicate());
                        i += 1;
                    }
                    assert(tools_model(kept@) =~= tools_model(tools@));
                    self.tools = kept;
                    Ok(tools)
                },
                None => Err(ClientError::ProtocolViolation(Violation::BadToolList)),
            },
            Err(e) => Err(e),
        }
    }

    /// Starts a tool call and hands out the request to send. Legal only on
    /// a ready connection with no call under way; otherwise nothing changes
    /// and there is nothing to send.
    pub fn call_tool(&mut self, name: &str, arguments: JsonValue) -> (out: Result<
        McpRequest,
        ClientError,
    >)
        ensures
            start_model(out) == match old(self)@.refusal(Operation::CallTool, true) {
                Some(e) => Err(e),
                None => Ok(
                    request_of(
                        old(self)@.next_id,
                        "tools/call"@,
                        Some(tool_call_document(name@, arguments@)),
                    ),
                ),
            },
            final(self)@ == if out is Ok {
                old(self)@.started(Operation::CallTool)
            } else {
                old(self)@
            },
            out matches Ok(request) ==> forall|i: int|
                0 <= i < old(self)@.issued.len() ==> old(self)@.issued[i] < request.id,
            strictly_increasing(final(self)@.issued),
    {
        proof {
            use_type_invariant(&*self);
        }
        match self.refuse(Operation::CallTool, true) {
            Some(e) => Err(e),
            None => {
                let params = tool_call_to_json(ToolCallParams { name: name.to_owned(), arguments });
                let id = self.start(Operation::CallTool);
                Ok(McpRequest::new(id, "tools/call", Some(params)))
            },
        }
    }

    /// Ends a tool call with the server's answer and hands out the tool's
    /// result. The connection stays ready either way.
    pub fn complete_call_tool(&mut self, response: McpResponse) -> (out: Result<
        JsonValue,
        ClientError,
    >)
        ensures
            !old(self)@.awaiting(Operation::CallTool) ==> (out matches Err(e) && e@
                == ClientErrorView::NoCallInFlight && final(self)@ == old(self)@),
            old(self)@.awaiting(Operation::CallTool) ==> match call_outcome(
                old(self)@.pending->0,
                response@,
            ) {
                Ok(value) => out matches Ok(v) && v@ == value && final(self)@ == old(self)@.ended(true),
                Err(e) => out matches Err(x) && x@ == e && final(self)@ == old(self)@.ended(false),
            },
            final(self)@.state == old(self)@.state,
            strictly_increasing(final(self)@.issued),
    {
        proof {
            use_type_invariant(&*self);
        }
        let call = match self.pending {
            Some(p) => p,
            None => {
                return Err(ClientError::NoCallInFlight);
            },
        };
        if !matches!(call.operation, Operation::CallTool) {
            return Err(ClientError::NoCallInFlight);
        }
        self.pending = None;
        Self::payload(call, response)
    }

    /// Takes the report that sending or receiving failed, with the
    /// failure's message. While the retry policy has attempts left and the
    /// message is worth a retry, the call stays under way and the same
    /// request is to be sent again after the delay. Otherwise the call has
    /// failed and the connection is closed. A failure that left the
    /// transport closed is never retried: the peer has closed the
    /// connection, and the connection is closed whatever its state was.
    /// On a transport that still stands, a failure without a call under
    /// way changes nothing.
    pub fn transport_failed(&mut self, message: &str, still_connected: bool) -> (out:
        FailureAction)
        ensures
            !still_connected ==> (out matches FailureAction::Fail(e) && e@
                == ClientErrorView::ConnectionClosed && final(self)@ == old(self)@.closed()),
            still_connected && old(self)@.pending is None ==> (out matches FailureAction::Fail(e)
                && e@ == ClientErrorView::NoCallInFlight && final(self)@ == old(self)@),
            still_connected && old(self)@.retries(message@) ==> (out matches FailureAction::RetryAfter(delay) && delay
                <= old(self)@.retry->0.max_delay_ms && (exists|sample: u64|
                delay == old(self)@.retry->0.delay_with(
                    old(self)@.pending->0.attempt as nat,
                    sample,
                )) && final(self)@ == (ClientView {
                pending: Some(
                    PendingCall {
                        attempt: (old(self)@.pending->0.attempt + 1) as usize,
                        ..old(self)@.pending->0
                    },
                ),
                ..old(self)@
            })),
            still_connected && old(self)@.pending is Some && !old(self)@.retries(message@) ==> (out matches FailureAction::Fail(
                e,
            ) && e@ == ClientErrorView::Transport(message@) && final(self)@ == old(self)@.closed()),
            strictly_increasing(final(self)@.issued),
    {
        proof {
            use_type_invariant(&*self);
        }
        if !still_connected {
            return FailureAction::Fail(self.connection_closed());
        }
        let call = match self.pending {
            Some(p) => p,
            None => {
                return FailureAction::Fail(ClientError::NoCallInFlight);
            },
        };
        let decision = match self.retry {
            Some(config) => config.after_failure(call.attempt, message),
            None => RetryDecision::GiveUp,
        };
        match decision {
            RetryDecision::RetryAfter(delay) => {
                self.pending = Some(PendingCall { attempt: call.attempt + 1, ..call });
                FailureAction::RetryAfter(delay)
            },
            RetryDecision::GiveUp => {
                self.pending = None;
                self.state = ClientState::Disconnected;
                FailureAction::Fail(ClientError::Transport(message.to_owned()))
            },
        }
    }

    /// Takes the report that the peer closed the connection. The connection
    /// is closed, whatever its state was, and the call under way has failed.
    pub fn connection_closed(&mut self) -> (out: ClientError)
        ensures
            out@ == ClientErrorView::ConnectionClosed,
            final(self)@ == old(self)@.closed(),
            strictly_increasing(final(self)@.issued),
    {
        proof {
            use_type_invariant(&*self);
        }
        self.pending = None;
        self.state = ClientState::Disconnected;
        ClientError::ConnectionClosed
    }

    /// Takes the report that the deadline of the call under way expired.
    /// The protocol has no way to cancel a call, so the connection is
    /// closed.
    pub fn timed_out(&mut self) -> (out: ClientError)
        ensures
            out@ == ClientErrorView::Timeout,
            final(self)@ == old(self)@.closed(),
            strictly_increasing(final(self)@.issued),
    {
        proof {
            use_type_invariant(&*self);
        }
        self.pending = None;
        self.state = ClientState::Disconnected;
        ClientError::Timeout
    }
}

/// A call is legal in exactly the states that the protocol lists for it.
pub proof fn lemma_legal_operations(state: ClientState, operation: Operation)
    ensures
        operation_legal(state, operation) <==> (state == ClientState::Created && operation
            == Operation::Initialize) || (state == ClientState::Ready && operation
            != Operation::Initialize),
{
}

/// A call that is not legal in the client's state is refused as a wrong
/// state, whatever the transport and the supply of ids; and no call is
/// legal on a closed connection.
pub proof fn lemma_illegal_operation_refused(client: ClientView, operation: Operation, connected: bool)
    ensures
        !operation_legal(client.state, operation) ==> client.refusal(operation, connected) == Some(
            ClientErrorView::WrongState { operation, state: client.state },
        ),
        client.state == ClientState::Disconnected ==> client.refusal(operation, connected)
            is Some,
{
}

/// The id of a started call is the next id, and the next id moves on, so
/// that no id is handed out twice.
pub proof fn lemma_started_call_takes_fresh_id(client: ClientView, operation: Operation)
    requires
        client.refusal(operation, true) is None,
        strictly_increasing(client.issued),
        forall|i: int| 0 <= i < client.issued.len() ==> client.issued[i] < client.next_id,
    ensures
        client.started(operation).pending->0.id == client.next_id,
        client.started(operation).next_id == client.next_id + 1,
        strictly_increasing(client.started(operation).issued),
        forall|i: int|
            0 <= i < client.started(operation).issued.len() ==> client.started(
                operation,
            ).issued[i] < client.started(operation).next_id,
{
}

} // verus!

//! Line framing of messages and the connection state of a transport.
//!
//! A frame is one JSON object followed by exactly one newline. The library
//! builds and checks frames; reading and writing them is left to the
//! caller.

use crate::json::{json_parse, json_render, parse_json, to_json_text};
use crate::mcp::protocol::{McpRequest, McpRequestView, McpResponse, McpResponseView};
use crate::mcp::wire::{
    request_document, request_from_json, request_of_document, request_to_json, response_document,
    response_from_json, response_of_document, response_to_json, WireError,
};
use crate::text::{chars_of, concat, string_from_chars};
use vstd::prelude::*;

verus! {

/// Why a message could not be sent or received.
#[derive(Clone, Copy, Debug, PartialEq, Eq, Structural)]
pub enum TransportError {
    /// The transport is not connected.
    NotConnected,
    /// The peer closed the connection.
    Closed,
    /// The JSON text of a message holds a newline, so it is no single line.
    EmbeddedNewline,
    /// The line is no JSON document.
    InvalidJson,
    /// The line is a JSON document, but no message.
    Malformed(WireError),
}

impl TransportError {
    /// The text that describes the failure.
    pub open spec fn message_text(self) -> Seq<char> {
        match self {
            TransportError::NotConnected => "Transport is not connected"@,
            TransportError::Closed => "MCP server closed connection (EOF)"@,
            TransportError::EmbeddedNewline => "Failed to serialize MCP request to a single line"@,
            TransportError::InvalidJson => "Failed to deserialize MCP response from JSON"@,
            TransportError::Malformed(_) => "Failed to deserialize MCP response: not a well-formed message"@,
        }
    }

    /// The text that describes the failure.
    pub fn message(&self) -> (out: String)
        ensures
            out@ == self.message_text(),
    {
        match self {
            TransportError::NotConnected => "Transport is not connected".to_owned(),
            TransportError::Closed => "MCP server closed connection (EOF)".to_owned(),
            TransportError::EmbeddedNewline => "Failed to serialize MCP request to a single line".to_owned(),
            TransportError::InvalidJson => "Failed to deserialize MCP response from JSON".to_owned(),
            TransportError::Malformed(_) => "Failed to deserialize MCP response: not a well-formed message".to_owned(),
        }
    }
}

/// The frame of a JSON text: the text followed by one newline, where the
/// text itself holds none.
pub open spec fn frame_of(body: Seq<char>) -> Result<Seq<char>, TransportError> {
    if body.contains('\n') {
        Err(TransportError::EmbeddedNewline)
    } else {
        Ok(body.push('\n'))
    }
}

/// The response that a line holds.
pub open spec fn response_of_line(line: Seq<char>) -> Result<McpResponseView, TransportError> {
    match json_parse(line) {
        Some(doc) => match response_of_document(doc) {
            Ok(r) => Ok(r),
            Err(e) => Err(TransportError::Malformed(e)),
        },
        None => Err(TransportError::InvalidJson),
    }
}

/// The request that a line holds.
pub open spec fn request_of_line(line: Seq<char>) -> Result<McpRequestView, TransportError> {
    match json_parse(line) {
        Some(doc) => match request_of_document(doc) {
            Ok(r) => Ok(r),
            Err(e) => Err(TransportError::Malformed(e)),
        },
        None => Err(TransportError::InvalidJson),
    }
}

/// The model of a frame or its refusal.
pub open spec fn frame_model(r: Result<String, TransportError>) -> Result<
    Seq<char>,
    TransportError,
> {
    match r {
        Ok(s) => Ok(s@),
        Err(e) => Err(e),
    }
}

/// The model of a received response or its refusal.
pub open spec fn received_model(r: Result<McpResponse, TransportError>) -> Result<
    McpResponseView,
    TransportError,
> {
    match r {
        Ok(v) => Ok(v@),
        Err(e) => Err(e),
    }
}

/// The model of a received request or its refusal.
pub open spec fn received_request_model(r: Result<McpRequest, TransportError>) -> Result<
    McpRequestView,
    TransportError,
> {
    match r {
        Ok(v) => Ok(v@),
        Err(e) => Err(e),
    }
}

/// Puts a JSON text into a frame.
pub fn frame_text(body: &str) -> (out: Result<String, TransportError>)
    ensures
        frame_model(out) == frame_of(body@),
{
    let chars = chars_of(body);
    let mut i: usize = 0;
    while i < chars.len()
        invariant
            i <= chars.len(),
            chars@ == body@,
            forall|k: int| 0 <= k < i ==> chars@[k] != '\n',
        decreases chars.len() - i,
    {
        if chars[i] == '\n' {
            assert(chars@.contains('\n'));
            return Err(TransportError::EmbeddedNewline);
        }
        i += 1;
    }
    assert(!chars@.contains('\n'));
    let mut framed = chars;
    framed.push('\n');
    Ok(string_from_chars(&framed))
}

/// The frame that carries a request: its JSON text and one newline.
pub fn encode_request(request: &McpRequest) -> (out: Result<String, TransportError>)
    ensures
        frame_model(out) == frame_of(json_render(request_document(request@))),
{
    let document = request_to_json(request);
    let body = to_json_text(&document);
    frame_text(body.as_str())
}

/// The frame that carries a response.
pub fn encode_response(response: &McpResponse) -> (out: Result<String, TransportError>)
    ensures
        frame_model(out) == frame_of(json_render(response_document(response@))),
{
    let document = response_to_json(response);
    let body = to_json_text(&document);
    frame_text(body.as_str())
}

/// Reads the response that a line holds.
pub fn decode_response(line: &str) -> (out: Result<McpResponse, TransportError>)
    ensures
        received_model(out) == response_of_line(line@),
        out matches Ok(r) ==> r@.exclusive(),
{
    match parse_json(line) {
        Some(document) => match response_from_json(&document) {
            Ok(r) => Ok(r),
            Err(e) => Err(TransportError::Malformed(e)),
        },
        None => Err(TransportError::InvalidJson),
    }
}

/// Reads the request that a line holds.
pub fn decode_request(line: &str) -> (out: Result<McpRequest, TransportError>)
    ensures
        received_request_model(out) == request_of_line(line@),
{
    match parse_json(line) {
        Some(document) => match request_from_json(&document) {
            Ok(r) => Ok(r),
            Err(e) => Err(TransportError::Malformed(e)),
        },
        None => Err(TransportError::InvalidJson),
    }
}

/// The given words, joined by single spaces.
pub open spec fn joined_words(words: Seq<String>) -> Seq<char>
    decreases words.len(),
{
    if words.len() == 0 {
        Seq::empty()
    } else if words.len() == 1 {
        words[0]@
    } else {
        joined_words(words.drop_last()) + seq![' '] + words.last()@
    }
}

/// A command line: the command, a space, and the arguments joined by
/// single spaces.
pub open spec fn command_line(command: Seq<char>, args: Seq<String>) -> Seq<char> {
    command + seq![' '] + joined_words(args)
}

/// The state of a transport that talks to a server process over its
/// standard streams.
#[derive(Debug)]
pub struct TransportState {
    connected: bool,
    child_present: bool,
    command: String,
}

impl TransportState {
    /// Whether no failure has closed the transport yet.
    pub closed spec fn connected(self) -> bool {
        self.connected
    }

    /// Whether the server process is still held.
    pub closed spec fn child_present(self) -> bool {
        self.child_present
    }

    /// The command line of the server, for diagnostics.
    pub closed spec fn command_text(self) -> Seq<char> {
        self.command@
    }

    /// The state right after the server process was started.
    pub fn spawned(command: &str, args: &Vec<String>) -> (out: TransportState)
        ensures
            out.connected(),
            out.child_present(),
            out.command_text() == command_line(command@, args@),
    {
        proof {
            reveal_strlit(" ");
        }
        assert(" "@ =~= seq![' ']);
        let mut rest = String::new();
        let mut i: usize = 0;
        while i < args.len()
            invariant
                i <= args.len(),
                " "@ == seq![' '],
                rest@ == joined_words(args@.take(i as int)),
            decreases args.len() - i,
        {
            proof {
                let upto = args@.take(i + 1);
                assert(upto.drop_last() =~= args@.take(i as int));
                assert(upto.last() == args@[i as int]);
            }
            if i > 0 {
                rest.append(" ");
            }
            rest.append(args[i].as_str());
            i += 1;
        }
        assert(args@.take(args.len() as int) =~= args@);
        let head = concat(command, " ");
        let line = concat(head.as_str(), rest.as_str());
        TransportState { connected: true, child_present: true, command: line }
    }

    /// The command line of the server.
    pub fn command(&self) -> (out: &str)
        ensures
            out@ == self.command_text(),
    {
        self.command.as_str()
    }

    /// Whether messages can still be exchanged.
    pub fn is_connected(&self) -> (out: bool)
        ensures
            out == (self.connected() && self.child_present()),
    {
        self.connected && self.child_present
    }

    /// The frame to write for a request. Nothing is framed once the
    /// transport is closed.
    pub fn prepare_send(&self, request: &McpRequest) -> (out: Result<String, TransportError>)
        ensures
            frame_model(out) == if self.connected() {
                frame_of(json_render(request_document(request@)))
            } else {
                Err(TransportError::NotConnected)
            },
    {
        if !self.connected {
            return Err(TransportError::NotConnected);
        }
        encode_request(request)
    }

    /// Whether a line may be read. Nothing is read once the transport is
    /// closed.
    pub fn prepare_recv(&self) -> (out: Result<(), TransportError>)
        ensures
            out == if self.connected() {
                Ok::<(), TransportError>(())
            } else {
                Err::<(), TransportError>(TransportError::NotConnected)
            },
    {
        if !self.connected {
            return Err(TransportError::NotConnected);
        }
        Ok(())
    }

    /// Takes what a read of one line brought: the number of bytes read and
    /// the line. No bytes mean that the peer closed the connection, and the
    /// transport is closed from then on.
    pub fn accept_line(&mut self, bytes_read: usize, line: &str) -> (out: Result<
        McpResponse,
        TransportError,
    >)
        ensures
            received_model(out) == if !old(self).connected() {
                Err(TransportError::NotConnected)
            } else if bytes_read == 0 {
                Err(TransportError::Closed)
            } else {
                response_of_line(line@)
            },
            final(self).connected() == (old(self).connected() && bytes_read != 0),
            final(self).child_present() == old(self).child_present(),
            final(self).command_text() == old(self).command_text(),
    {
        if !self.connected {
            return Err(TransportError::NotConnected);
        }
        if bytes_read == 0 {
            self.connected = false;
            return Err(TransportError::Closed);
        }
        decode_response(line)
    }

    /// Records that the server process is given up, by a kill or after its
    /// exit. Answers whether there was a process to give up; the transport
    /// is closed only in that case.
    pub fn release_child(&mut self) -> (out: bool)
        ensures
            out == old(self).child_present(),
            !final(self).child_present(),
            final(self).connected() == (old(self).connected() && !old(self).child_present()),
            final(self).command_text() == old(self).command_text(),
    {
        if self.child_present {
            self.child_present = false;
            self.connected = false;
            true
        } else {
            false
        }
    }
}

} // verus!

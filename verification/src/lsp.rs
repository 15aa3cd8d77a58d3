//! Language-server protocol messages from assistant logs, and code contexts.

use vstd::prelude::*;

use crate::cli::parser::opt_str;

verus! {

/// A JSON value, as serde_json holds it; the library carries it through
/// without looking inside.
#[verifier::external_type_specification]
#[verifier::external_body]
pub struct ExJsonValue(serde_json::Value);

/// A JSON-RPC message of the language-server protocol.
#[derive(Debug)]
pub struct LspMessage {
    /// JSON-RPC version, "2.0".
    pub jsonrpc: String,
    /// Request identifier (requests and responses).
    pub id: Option<serde_json::Value>,
    /// Method name (requests and notifications).
    pub method: Option<String>,
    /// Parameters.
    pub params: Option<serde_json::Value>,
    /// Result (successful responses).
    pub result: Option<serde_json::Value>,
    /// Error (failed responses).
    pub error: Option<serde_json::Value>,
}

impl LspMessage {
    /// A request with an identifier and a method.
    pub fn request(id: serde_json::Value, method: &str) -> (m: LspMessage)
        ensures
            m.jsonrpc@ == "2.0"@,
            m.id == Some(id),
            opt_str(m.method) == Some(method@),
            m.params is None,
            m.result is None,
            m.error is None,
    {
        LspMessage {
            jsonrpc: String::from_str("2.0"),
            id: Some(id),
            method: Some(String::from_str(method)),
            params: None,
            result: None,
            error: None,
        }
    }

    /// A notification: a method without an identifier.
    pub fn notification(method: &str) -> (m: LspMessage)
        ensures
            m.jsonrpc@ == "2.0"@,
            m.id is None,
            opt_str(m.method) == Some(method@),
            m.params is None,
            m.result is None,
            m.error is None,
    {
        LspMessage {
            jsonrpc: String::from_str("2.0"),
            id: None,
            method: Some(String::from_str(method)),
            params: None,
            result: None,
            error: None,
        }
    }

    /// Whether this is a request: it has an identifier and a method.
    pub fn is_request(&self) -> (b: bool)
        ensures
            b == (self.id is Some && self.method is Some),
    {
        self.id.is_some() && self.method.is_some()
    }

    /// Whether this is a response: it has an identifier and a result or an
    /// error.
    pub fn is_response(&self) -> (b: bool)
        ensures
            b == (self.id is Some && (self.result is Some || self.error is Some)),
    {
        self.id.is_some() && (self.result.is_some() || self.error.is_some())
    }

    /// Whether this is a notification: a method without an identifier.
    pub fn is_notification(&self) -> (b: bool)
        ensures
            b == (self.id is None && self.method is Some),
    {
        self.id.is_none() && self.method.is_some()
    }

    /// Whether this carries an error.
    pub fn is_error(&self) -> (b: bool)
        ensures
            b == self.error is Some,
    {
        self.error.is_some()
    }

    /// The same message with parameters.
    pub fn with_params(self, params: serde_json::Value) -> (m: LspMessage)
        ensures
            m == (LspMessage { params: Some(params), ..self }),
    {
        let mut s = self;
        s.params = Some(params);
        s
    }
}

/// No message is both a request and a notification, nor both a
/// notification and a response; the messages built by `request` are
/// requests and those built by `notification` are notifications.
pub proof fn law_message_kinds(m: LspMessage)
    ensures
        !((m.id is Some && m.method is Some) && (m.id is None && m.method is Some)),
        !((m.id is None && m.method is Some) && (m.id is Some && (m.result is Some || m.error is Some))),
{
}

/// A position in a text document: zero-based line and character.
#[derive(Clone, Copy, Debug, PartialEq, Eq, Structural)]
pub struct TextPosition {
    pub line: u32,
    pub character: u32,
}

/// A range in a text document.
#[derive(Clone, Copy, Debug, PartialEq, Eq, Structural)]
pub struct TextRange {
    pub start: TextPosition,
    pub end: TextPosition,
}

/// Where in the code an assistant was asked.
#[derive(Debug)]
pub struct CodeContext {
    /// Document URI.
    pub uri: String,
    /// Cursor position.
    pub position: TextPosition,
    /// The visible range, if known.
    pub visible_range: Option<TextRange>,
}

impl CodeContext {
    /// A context at a line and character, without a visible range.
    pub fn new(uri: String, line: u32, character: u32) -> (c: CodeContext)
        ensures
            c == (CodeContext { uri, position: TextPosition { line, character }, visible_range: None }),
    {
        CodeContext { uri, position: TextPosition { line, character }, visible_range: None }
    }

    /// The same context with a visible range.
    pub fn with_visible_range(self, start: TextPosition, end: TextPosition) -> (c: CodeContext)
        ensures
            c == (CodeContext { visible_range: Some(TextRange { start, end }), ..self }),
    {
        let mut s = self;
        s.visible_range = Some(TextRange { start, end });
        s
    }
}

} // verus!

//! Client-side message layer of the Language Server Protocol: the JSON-RPC
//! envelopes, the `initialize` and `textDocument/definition` requests, and the
//! decoding of their responses.
//!
//! The messages are plain data. What a message looks like on the wire is stated
//! as a JSON document ([`json::Json`]), and every function that builds a
//! `serde_json::Value` is proved to build the document that its contract names.

pub mod capabilities;
pub mod error;
pub mod initialize;
pub mod json;
pub mod laws;
pub mod location;
pub mod message;

pub use capabilities::{
    CapabilitiesTextDocument, CapabilitiesWorkspace, ClientCapabilities, CodeAction,
    CodeActionKind, CodeActionLiteralSupport, Completion, CompletionItem,
    DidChangeConfiguration, Hover, WorkspaceEdit,
};
pub use error::LspError;
pub use initialize::{ClientInfo, InitializeParams, WorkspaceFolder};
pub use location::{Location, Position, Range};
pub use message::{BaseMessage, NotificationMessage, RequestMessage, ResponseMessage};

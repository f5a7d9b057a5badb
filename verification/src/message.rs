//! The JSON-RPC envelopes: how the client's requests and notifications are
//! built, and how the server's responses are decoded.

use crate::capabilities::{
    CapabilitiesTextDocument, CapabilitiesWorkspace, ClientCapabilities, CodeAction,
    CodeActionKind, CodeActionLiteralSupport, Completion, CompletionItem,
    DidChangeConfiguration, Hover, WorkspaceEdit,
};
use crate::error::LspError;
use crate::initialize::{ClientInfo, InitializeParams, WorkspaceFolder};
use crate::json::{number, object, string, value_json, Json};
use crate::location::{Location, LocationView, Position};
use serde_json::Value;
use vstd::prelude::*;

verus! {

/// What every message carries: the version of JSON-RPC, which is `"2.0"` in every
/// message that this crate builds.
#[derive(Debug, PartialEq, Eq)]
pub struct BaseMessage {
    pub jsonrpc: String,
}

/// A call that the server answers with a response of the same `id`.
#[derive(Debug, PartialEq, Eq)]
pub struct RequestMessage {
    pub base_message: BaseMessage,
    pub id: Value,
    /// Kept for the servers that look at it: 0 in every request.
    pub notification: u8,
    pub method: String,
    pub params: Value,
}

/// The server's answer to a request. Each of `id`, `result` and `error` may be
/// missing.
#[derive(Debug, PartialEq, Eq)]
pub struct ResponseMessage {
    pub base_message: BaseMessage,
    pub id: Option<Value>,
    pub result: Option<Value>,
    pub error: Option<Value>,
}

/// A message that expects no answer, and so has no `id`.
#[derive(Debug, PartialEq, Eq)]
pub struct NotificationMessage {
    pub base_message: BaseMessage,
    pub method: String,
    pub params: Value,
}

impl BaseMessage {
    /// The object `{"jsonrpc": ..}`. An envelope adds its own members to this
    /// object; it does not nest it.
    pub open spec fn wire(self) -> Json {
        Json::object().with("jsonrpc"@, Json::Str(self.jsonrpc@))
    }
}

impl RequestMessage {
    /// The object with the members `jsonrpc`, `id`, `notification`, `method` and
    /// `params`.
    pub open spec fn wire(self) -> Json {
        self.base_message.wire().with("id"@, value_json(self.id)).with(
            "notification"@,
            Json::Int(self.notification as int),
        ).with("method"@, Json::Str(self.method@)).with("params"@, value_json(self.params))
    }

    /// The request that this client sends under `id` to call `method` with `params`.
    pub open spec fn document(id: u32, method: Seq<char>, params: Json) -> Json {
        Json::object().with("jsonrpc"@, Json::Str("2.0"@)).with("id"@, Json::Int(id as int)).with(
            "notification"@,
            Json::Int(0),
        ).with("method"@, Json::Str(method)).with("params"@, params)
    }

    /// The `initialize` request for the given client and workspace.
    pub open spec fn initialize(
        id: u32,
        process_id: u32,
        root_uri: Seq<char>,
        client_name: Seq<char>,
        client_version: Seq<char>,
        workspace_folders: Seq<WorkspaceFolder>,
    ) -> Json {
        RequestMessage::document(
            id,
            "initialize"@,
            InitializeParams::document(
                process_id,
                root_uri,
                ClientInfo::document(client_name, client_version),
                ClientCapabilities::advertised(),
                WorkspaceFolder::wire_all(workspace_folders),
            ),
        )
    }

    /// The parameters of a `textDocument/definition` request: the document and the
    /// place in it.
    pub open spec fn definition_params(uri: Seq<char>, position: Position) -> Json {
        Json::object().with("textDocument"@, Json::object().with("uri"@, Json::Str(uri))).with(
            "position"@,
            position.wire(),
        )
    }

    /// The `textDocument/definition` request for `position` in the document `uri`.
    pub open spec fn get_definition(id: u32, uri: Seq<char>, position: Position) -> Json {
        RequestMessage::document(
            id,
            "textDocument/definition"@,
            RequestMessage::definition_params(uri, position),
        )
    }

    /// Builds the `initialize` request. The capabilities that it announces do not
    /// depend on the arguments.
    pub fn new_initialize(
        id: u32,
        process_id: u32,
        root_uri: String,
        client_name: String,
        client_version: String,
        workspace_folders: Vec<WorkspaceFolder>,
    ) -> (r: Self)
        ensures
            r.base_message.jsonrpc@ == "2.0"@,
            value_json(r.id) == Json::Int(id as int),
            r.notification == 0,
            r.method@ == "initialize"@,
            value_json(r.params) == InitializeParams::document(
                process_id,
                root_uri@,
                ClientInfo::document(client_name@, client_version@),
                ClientCapabilities::advertised(),
                WorkspaceFolder::wire_all(workspace_folders@),
            ),
            r.wire() == RequestMessage::initialize(
                id,
                process_id,
                root_uri@,
                client_name@,
                client_version@,
                workspace_folders@,
            ),
    {
        let client_info = ClientInfo { name: client_name, version: client_version };

        let capabilities = ClientCapabilities {
            workspace: Some(
                CapabilitiesWorkspace {
                    workspace_folders: true,
                    did_change_configuration: DidChangeConfiguration { dynamic_registration: true },
                    workspace_edit: WorkspaceEdit { document_changes: true },
                    configuration: true,
                },
            ),
            text_document: Some(
                CapabilitiesTextDocument {
                    hover: Hover { content_format: vec!["plaintext".to_string()] },
                    completion: Completion {
                        completion_item: CompletionItem { snippet_support: true },
                    },
                    code_action: CodeAction {
                        code_action_literal_support: CodeActionLiteralSupport {
                            code_action_kind: CodeActionKind {
                                value_set: vec![
                                    "source.organizeImports".to_string(),
                                    "refactor.rewrite".to_string(),
                                    "refactor.extract".to_string(),
                                ],
                            },
                        },
                    },
                },
            ),
        };
        proof {
            let text_document = capabilities.text_document.unwrap();
            let formats = text_document.hover.content_format@;
            let kinds = text_document.code_action.code_action_literal_support.code_action_kind.value_set@;
            assert(formats.map_values(|s: String| Json::Str(s@)) =~= seq![Json::Str("plaintext"@)]);
            assert(kinds.map_values(|s: String| Json::Str(s@)) =~= seq![
                Json::Str("source.organizeImports"@),
                Json::Str("refactor.rewrite"@),
                Json::Str("refactor.extract"@),
            ]);
        }

        let params = InitializeParams {
            process_id,
            root_uri,
            client_info,
            capabilities,
            workspace_folders: Some(workspace_folders),
        };
        RequestMessage {
            base_message: BaseMessage { jsonrpc: "2.0".to_string() },
            id: number(id as u64),
            method: "initialize".to_string(),
            notification: 0,
            params: params.to_value(),
        }
    }

    /// Builds the `textDocument/definition` request.
    pub fn new_get_definition(id: u32, uri: String, position: Position) -> (r: Self)
        ensures
            r.base_message.jsonrpc@ == "2.0"@,
            value_json(r.id) == Json::Int(id as int),
            r.notification == 0,
            r.method@ == "textDocument/definition"@,
            value_json(r.params) == RequestMessage::definition_params(uri@, position),
            r.wire() == RequestMessage::get_definition(id, uri@, position),
    {
        let mut text_document = serde_json::Map::new();
        text_document.insert("uri".to_string(), string(uri));
        let mut params = serde_json::Map::new();
        params.insert("textDocument".to_string(), object(text_document));
        params.insert("position".to_string(), position.to_value());
        RequestMessage {
            base_message: BaseMessage { jsonrpc: "2.0".to_string() },
            id: number(id as u64),
            method: "textDocument/definition".to_string(),
            notification: 0,
            params: object(params),
        }
    }

    /// This request as a JSON value.
    pub fn to_value(&self) -> (v: Value)
        ensures
            value_json(v) == self.wire(),
    {
        let mut m = serde_json::Map::new();
        m.insert("jsonrpc".to_string(), string(self.base_message.jsonrpc.clone()));
        m.insert("id".to_string(), self.id.clone());
        m.insert("notification".to_string(), number(self.notification as u64));
        m.insert("method".to_string(), string(self.method.clone()));
        m.insert("params".to_string(), self.params.clone());
        object(m)
    }
}

impl NotificationMessage {
    /// The object with the members `jsonrpc`, `method` and `params`, and no other.
    pub open spec fn wire(self) -> Json {
        self.base_message.wire().with("method"@, Json::Str(self.method@)).with(
            "params"@,
            value_json(self.params),
        )
    }

    /// The `initialized` notification: `{"jsonrpc":"2.0","method":"initialized","params":{}}`.
    pub open spec fn initialized() -> Json {
        Json::object().with("jsonrpc"@, Json::Str("2.0"@)).with(
            "method"@,
            Json::Str("initialized"@),
        ).with("params"@, Json::object())
    }

    /// Builds the `initialized` notification, by which the client tells the server
    /// that it is ready for requests.
    pub fn new_initialized() -> (r: Self)
        ensures
            r.base_message.jsonrpc@ == "2.0"@,
            r.method@ == "initialized"@,
            value_json(r.params) == Json::object(),
            r.wire() == NotificationMessage::initialized(),
    {
        NotificationMessage {
            base_message: BaseMessage { jsonrpc: "2.0".to_string() },
            method: "initialized".to_string(),
            params: object(serde_json::Map::new()),
        }
    }

    /// This notification as a JSON value.
    pub fn to_value(&self) -> (v: Value)
        ensures
            value_json(v) == self.wire(),
    {
        let mut m = serde_json::Map::new();
        m.insert("jsonrpc".to_string(), string(self.base_message.jsonrpc.clone()));
        m.insert("method".to_string(), string(self.method.clone()));
        m.insert("params".to_string(), self.params.clone());
        object(m)
    }
}

impl ResponseMessage {
    /// How the answer to `initialize` is read: an `error` member, whatever it
    /// holds, is a failure; without one the call succeeded.
    pub open spec fn initialize_outcome(self) -> Result<(), LspError> {
        match self.error {
            Some(payload) => Err(LspError::ServerError(payload)),
            None => Ok(()),
        }
    }

    /// How the answer to `textDocument/definition` is read. An `error` member,
    /// whatever it holds, is a failure, also beside a result. A missing result and
    /// the result `null` mean that nothing was found. Any other result is read as
    /// one location, or else as an array of locations.
    pub open spec fn definition_outcome(self) -> Result<Seq<LocationView>, LspError> {
        match (self.error, self.result) {
            (Some(payload), _) => Err(LspError::ServerError(payload)),
            (None, None) => Err(LspError::NotFound),
            (None, Some(result)) => {
                let doc = value_json(result);
                if doc is Null {
                    Err(LspError::NotFound)
                } else {
                    match (Location::parse(doc), Location::parse_all(doc)) {
                        (Some(location), _) => Ok(seq![location]),
                        (None, Some(locations)) => Ok(locations),
                        (None, None) => Err(LspError::MalformedResult),
                    }
                }
            },
        }
    }

    /// What a call of [`ResponseMessage::handle_definition`] returned, with the
    /// locations by their views.
    pub open spec fn outcome_view(r: Result<Vec<Location>, LspError>) -> Result<
        Seq<LocationView>,
        LspError,
    > {
        match r {
            Ok(locations) => Ok(Location::views(locations@)),
            Err(e) => Err(e),
        }
    }

    /// Reads the answer to an `initialize` request.
    pub fn handle_initialize(&self) -> (r: Result<(), LspError>)
        ensures
            r == self.initialize_outcome(),
    {
        match &self.error {
            Some(payload) => Err(LspError::ServerError(payload.clone())),
            None => Ok(()),
        }
    }

    /// Reads the answer to a `textDocument/definition` request: the locations
    /// that the server found, whether it sent one or an array of them.
    pub fn handle_definition(&self) -> (r: Result<Vec<Location>, LspError>)
        ensures
            ResponseMessage::outcome_view(r) == self.definition_outcome(),
    {
        if let Some(payload) = &self.error {
            return Err(LspError::ServerError(payload.clone()));
        }
        if let Some(res) = &self.result {
            if res.is_null() {
                return Err(LspError::NotFound);
            }
            let location = Location::from_value(res);
            let locations = Location::all_from_value(res);
            match location {
                Some(loc) => {
                    let found = vec![loc];
                    assert(Location::views(found@) =~= seq![loc@]);
                    Ok(found)
                },
                None => match locations {
                    Some(locs) => Ok(locs),
                    None => Err(LspError::MalformedResult),
                },
            }
        } else {
            Err(LspError::NotFound)
        }
    }
}

} // verus!

//! The capabilities that a client announces in its `initialize` request.
//!
//! Every type here is plain data. Its `wire` is the JSON object that stands for it,
//! with the member names that the protocol prescribes.

use crate::json::{boolean, null, object, strings, value_json, Json};
use serde_json::Value;
use vstd::prelude::*;

verus! {

#[derive(Debug, PartialEq, Eq)]
pub struct ClientCapabilities {
    pub workspace: Option<CapabilitiesWorkspace>,
    pub text_document: Option<CapabilitiesTextDocument>,
}

#[derive(Debug, PartialEq, Eq)]
pub struct CapabilitiesWorkspace {
    pub workspace_folders: bool,
    pub did_change_configuration: DidChangeConfiguration,
    pub workspace_edit: WorkspaceEdit,
    pub configuration: bool,
}

#[derive(Debug, PartialEq, Eq)]
pub struct DidChangeConfiguration {
    pub dynamic_registration: bool,
}

#[derive(Debug, PartialEq, Eq)]
pub struct WorkspaceEdit {
    pub document_changes: bool,
}

#[derive(Debug, PartialEq, Eq)]
pub struct CapabilitiesTextDocument {
    pub hover: Hover,
    pub completion: Completion,
    pub code_action: CodeAction,
}

#[derive(Debug, PartialEq, Eq)]
pub struct Hover {
    pub content_format: Vec<String>,
}

#[derive(Debug, PartialEq, Eq)]
pub struct Completion {
    pub completion_item: CompletionItem,
}

#[derive(Debug, PartialEq, Eq)]
pub struct CompletionItem {
    pub snippet_support: bool,
}

#[derive(Debug, PartialEq, Eq)]
pub struct CodeAction {
    pub code_action_literal_support: CodeActionLiteralSupport,
}

#[derive(Debug, PartialEq, Eq)]
pub struct CodeActionLiteralSupport {
    pub code_action_kind: CodeActionKind,
}

#[derive(Debug, PartialEq, Eq)]
pub struct CodeActionKind {
    pub value_set: Vec<String>,
}

impl DidChangeConfiguration {
    /// The object that stands for this value on the wire.
    pub open spec fn wire(self) -> Json {
        Json::object().with("dynamicRegistration"@, Json::Bool(self.dynamic_registration))
    }

    /// This value as JSON.
    pub fn to_value(&self) -> (v: Value)
        ensures
            value_json(v) == self.wire(),
    {
        let mut m = serde_json::Map::new();
        m.insert("dynamicRegistration".to_string(), boolean(self.dynamic_registration));
        object(m)
    }
}

impl WorkspaceEdit {
    /// The object that stands for this value on the wire.
    pub open spec fn wire(self) -> Json {
        Json::object().with("documentChanges"@, Json::Bool(self.document_changes))
    }

    /// This value as JSON.
    pub fn to_value(&self) -> (v: Value)
        ensures
            value_json(v) == self.wire(),
    {
        let mut m = serde_json::Map::new();
        m.insert("documentChanges".to_string(), boolean(self.document_changes));
        object(m)
    }
}

impl CapabilitiesWorkspace {
    /// The object that stands for this value on the wire.
    pub open spec fn wire(self) -> Json {
        Json::object().with("workspaceFolders"@, Json::Bool(self.workspace_folders)).with(
            "didChangeConfiguration"@,
            self.did_change_configuration.wire(),
        ).with("workspaceEdit"@, self.workspace_edit.wire()).with(
            "configuration"@,
            Json::Bool(self.configuration),
        )
    }

    /// This value as JSON.
    pub fn to_value(&self) -> (v: Value)
        ensures
            value_json(v) == self.wire(),
    {
        let mut m = serde_json::Map::new();
        m.insert("workspaceFolders".to_string(), boolean(self.workspace_folders));
        m.insert("didChangeConfiguration".to_string(), self.did_change_configuration.to_value());
        m.insert("workspaceEdit".to_string(), self.workspace_edit.to_value());
        m.insert("configuration".to_string(), boolean(self.configuration));
        object(m)
    }
}

impl Hover {
    /// The object that stands for this value on the wire.
    pub open spec fn wire(self) -> Json {
        Json::object().with("contentFormat"@, Json::strings(self.content_format@))
    }

    /// This value as JSON.
    pub fn to_value(&self) -> (v: Value)
        ensures
            value_json(v) == self.wire(),
    {
        let mut m = serde_json::Map::new();
        m.insert("contentFormat".to_string(), strings(&self.content_format));
        object(m)
    }
}

impl CompletionItem {
    /// The object that stands for this value on the wire.
    pub open spec fn wire(self) -> Json {
        Json::object().with("snippetSupport"@, Json::Bool(self.snippet_support))
    }

    /// This value as JSON.
    pub fn to_value(&self) -> (v: Value)
        ensures
            value_json(v) == self.wire(),
    {
        let mut m = serde_json::Map::new();
        m.insert("snippetSupport".to_string(), boolean(self.snippet_support));
        object(m)
    }
}

impl Completion {
    /// The object that stands for this value on the wire.
    pub open spec fn wire(self) -> Json {
        Json::object().with("completionItem"@, self.completion_item.wire())
    }

    /// This value as JSON.
    pub fn to_value(&self) -> (v: Value)
        ensures
            value_json(v) == self.wire(),
    {
        let mut m = serde_json::Map::new();
        m.insert("completionItem".to_string(), self.completion_item.to_value());
        object(m)
    }
}

impl CodeActionKind {
    /// The object that stands for this value on the wire.
    pub open spec fn wire(self) -> Json {
        Json::object().with("valueSet"@, Json::strings(self.value_set@))
    }

    /// This value as JSON.
    pub fn to_value(&self) -> (v: Value)
        ensures
            value_json(v) == self.wire(),
    {
        let mut m = serde_json::Map::new();
        m.insert("valueSet".to_string(), strings(&self.value_set));
        object(m)
    }
}

impl CodeActionLiteralSupport {
    /// The object that stands for this value on the wire.
    pub open spec fn wire(self) -> Json {
        Json::object().with("codeActionKind"@, self.code_action_kind.wire())
    }

    /// This value as JSON.
    pub fn to_value(&self) -> (v: Value)
        ensures
            value_json(v) == self.wire(),
    {
        let mut m = serde_json::Map::new();
        m.insert("codeActionKind".to_string(), self.code_action_kind.to_value());
        object(m)
    }
}

impl CodeAction {
    /// The object that stands for this value on the wire.
    pub open spec fn wire(self) -> Json {
        Json::object().with("codeActionLiteralSupport"@, self.code_action_literal_support.wire())
    }

    /// This value as JSON.
    pub fn to_value(&self) -> (v: Value)
        ensures
            value_json(v) == self.wire(),
    {
        let mut m = serde_json::Map::new();
        m.insert(
            "codeActionLiteralSupport".to_string(),
            self.code_action_literal_support.to_value(),
        );
        object(m)
    }
}

impl CapabilitiesTextDocument {
    /// The object that stands for this value on the wire.
    pub open spec fn wire(self) -> Json {
        Json::object().with("hover"@, self.hover.wire()).with(
            "completion"@,
            self.completion.wire(),
        ).with("codeAction"@, self.code_action.wire())
    }

    /// This value as JSON.
    pub fn to_value(&self) -> (v: Value)
        ensures
            value_json(v) == self.wire(),
    {
        let mut m = serde_json::Map::new();
        m.insert("hover".to_string(), self.hover.to_value());
        m.insert("completion".to_string(), self.completion.to_value());
        m.insert("codeAction".to_string(), self.code_action.to_value());
        object(m)
    }
}

impl ClientCapabilities {
    /// A part that is left out is written as `null`.
    pub open spec fn wire(self) -> Json {
        Json::object().with(
            "workspace"@,
            match self.workspace {
                Some(workspace) => workspace.wire(),
                None => Json::Null,
            },
        ).with(
            "textDocument"@,
            match self.text_document {
                Some(text_document) => text_document.wire(),
                None => Json::Null,
            },
        )
    }

    /// What this client announces, whatever it is asked to initialize: workspace
    /// folders, changes of configuration, document changes in workspace edits,
    /// configuration requests, hover in plain text, snippets in completions, and
    /// code actions of three kinds.
    pub open spec fn advertised() -> Json {
        Json::object().with(
            "workspace"@,
            Json::object().with("workspaceFolders"@, Json::Bool(true)).with(
                "didChangeConfiguration"@,
                Json::object().with("dynamicRegistration"@, Json::Bool(true)),
            ).with(
                "workspaceEdit"@,
                Json::object().with("documentChanges"@, Json::Bool(true)),
            ).with("configuration"@, Json::Bool(true)),
        ).with(
            "textDocument"@,
            Json::object().with(
                "hover"@,
                Json::object().with("contentFormat"@, Json::Array(seq![Json::Str("plaintext"@)])),
            ).with(
                "completion"@,
                Json::object().with(
                    "completionItem"@,
                    Json::object().with("snippetSupport"@, Json::Bool(true)),
                ),
            ).with(
                "codeAction"@,
                Json::object().with(
                    "codeActionLiteralSupport"@,
                    Json::object().with(
                        "codeActionKind"@,
                        Json::object().with(
                            "valueSet"@,
                            Json::Array(
                                seq![
                                    Json::Str("source.organizeImports"@),
                                    Json::Str("refactor.rewrite"@),
                                    Json::Str("refactor.extract"@),
                                ],
                            ),
                        ),
                    ),
                ),
            ),
        )
    }

    /// This value as JSON.
    pub fn to_value(&self) -> (v: Value)
        ensures
            value_json(v) == self.wire(),
    {
        let mut m = serde_json::Map::new();
        let workspace = match &self.workspace {
            Some(workspace) => workspace.to_value(),
            None => null(),
        };
        m.insert("workspace".to_string(), workspace);
        let text_document = match &self.text_document {
            Some(text_document) => text_document.to_value(),
            None => null(),
        };
        m.insert("textDocument".to_string(), text_document);
        object(m)
    }
}

} // verus!

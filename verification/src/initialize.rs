//! The parameters of the `initialize` request.

use crate::capabilities::ClientCapabilities;
use crate::json::{array, null, number, object, string, value_json, values_json, Json};
use serde_json::Value;
use vstd::prelude::*;

verus! {

#[derive(Debug, PartialEq, Eq)]
pub struct ClientInfo {
    pub name: String,
    pub version: String,
}

#[derive(Debug, PartialEq, Eq)]
pub struct WorkspaceFolder {
    pub uri: String,
    pub name: String,
}

#[derive(Debug, PartialEq, Eq)]
pub struct InitializeParams {
    /// The process that runs the client.
    pub process_id: u32,
    /// The root of the workspace.
    pub root_uri: String,
    pub client_info: ClientInfo,
    pub capabilities: ClientCapabilities,
    pub workspace_folders: Option<Vec<WorkspaceFolder>>,
}

impl ClientInfo {
    /// The object `{"name": .., "version": ..}`.
    pub open spec fn document(name: Seq<char>, version: Seq<char>) -> Json {
        Json::object().with("name"@, Json::Str(name)).with("version"@, Json::Str(version))
    }

    /// The object that stands for this value on the wire.
    pub open spec fn wire(self) -> Json {
        ClientInfo::document(self.name@, self.version@)
    }

    /// This value as JSON.
    pub fn to_value(&self) -> (v: Value)
        ensures
            value_json(v) == self.wire(),
    {
        let mut m = serde_json::Map::new();
        m.insert("name".to_string(), string(self.name.clone()));
        m.insert("version".to_string(), string(self.version.clone()));
        object(m)
    }
}

impl WorkspaceFolder {
    /// The object `{"uri": .., "name": ..}`.
    pub open spec fn wire(self) -> Json {
        Json::object().with("uri"@, Json::Str(self.uri@)).with("name"@, Json::Str(self.name@))
    }

    /// The array of the given folders, in their order.
    pub open spec fn wire_all(folders: Seq<WorkspaceFolder>) -> Json {
        Json::Array(folders.map_values(|folder: WorkspaceFolder| folder.wire()))
    }

    /// This value as JSON.
    pub fn to_value(&self) -> (v: Value)
        ensures
            value_json(v) == self.wire(),
    {
        let mut m = serde_json::Map::new();
        m.insert("uri".to_string(), string(self.uri.clone()));
        m.insert("name".to_string(), string(self.name.clone()));
        object(m)
    }

    pub fn all_to_value(folders: &Vec<WorkspaceFolder>) -> (v: Value)
        ensures
            value_json(v) == WorkspaceFolder::wire_all(folders@),
    {
        let mut out: Vec<Value> = Vec::new();
        for i in 0..folders.len()
            invariant
                out@.len() == i,
                forall|k: int| 0 <= k < i ==> value_json(#[trigger] out@[k]) == folders@[k].wire(),
        {
            out.push(folders[i].to_value());
        }
        assert(values_json(out@) =~= folders@.map_values(|folder: WorkspaceFolder| folder.wire()));
        array(out)
    }
}

impl InitializeParams {
    /// The object with the members `processId`, `rootUri`, `clientInfo`,
    /// `capabilities` and `workspaceFolders`.
    pub open spec fn document(
        process_id: u32,
        root_uri: Seq<char>,
        client_info: Json,
        capabilities: Json,
        workspace_folders: Json,
    ) -> Json {
        Json::object().with("processId"@, Json::Int(process_id as int)).with(
            "rootUri"@,
            Json::Str(root_uri),
        ).with("clientInfo"@, client_info).with("capabilities"@, capabilities).with(
            "workspaceFolders"@,
            workspace_folders,
        )
    }

    /// Workspace folders that are left out are written as `null`.
    pub open spec fn wire(self) -> Json {
        InitializeParams::document(
            self.process_id,
            self.root_uri@,
            self.client_info.wire(),
            self.capabilities.wire(),
            match self.workspace_folders {
                Some(folders) => WorkspaceFolder::wire_all(folders@),
                None => Json::Null,
            },
        )
    }

    /// This value as JSON.
    pub fn to_value(&self) -> (v: Value)
        ensures
            value_json(v) == self.wire(),
    {
        let mut m = serde_json::Map::new();
        m.insert("processId".to_string(), number(self.process_id as u64));
        m.insert("rootUri".to_string(), string(self.root_uri.clone()));
        m.insert("clientInfo".to_string(), self.client_info.to_value());
        m.insert("capabilities".to_string(), self.capabilities.to_value());
        let workspace_folders = match &self.workspace_folders {
            Some(folders) => WorkspaceFolder::all_to_value(folders),
            None => null(),
        };
        m.insert("workspaceFolders".to_string(), workspace_folders);
        object(m)
    }
}

} // verus!

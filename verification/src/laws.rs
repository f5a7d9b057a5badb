//! What holds of every message that this crate builds and of every response that
//! it decodes, proved from the definitions of the documents.

use crate::capabilities::ClientCapabilities;
use crate::error::LspError;
use crate::initialize::WorkspaceFolder;
use crate::json::{value_json, Json};
use crate::location::{Location, LocationView, Position, Range};
use crate::message::{NotificationMessage, RequestMessage, ResponseMessage};
use vstd::prelude::*;

verus! {

/// The member names of a request differ from each other.
proof fn lemma_envelope_names()
    ensures
        "jsonrpc"@ != "id"@,
        "jsonrpc"@ != "notification"@,
        "jsonrpc"@ != "method"@,
        "jsonrpc"@ != "params"@,
        "id"@ != "notification"@,
        "id"@ != "method"@,
        "id"@ != "params"@,
        "notification"@ != "method"@,
        "notification"@ != "params"@,
        "method"@ != "params"@,
{
    reveal_strlit("jsonrpc");
    reveal_strlit("id");
    reveal_strlit("notification");
    reveal_strlit("method");
    reveal_strlit("params");
    assert("jsonrpc"@.len() == 7);
    assert("id"@.len() == 2);
    assert("notification"@.len() == 12);
    assert("method"@.len() == 6);
    assert("params"@.len() == 6);
    assert("method"@[0] != "params"@[0]);
}

/// The member names of the parameters of `initialize` differ from each other.
proof fn lemma_initialize_names()
    ensures
        "capabilities"@ != "workspaceFolders"@,
{
    reveal_strlit("capabilities");
    reveal_strlit("workspaceFolders");
    assert("capabilities"@.len() == 12);
    assert("workspaceFolders"@.len() == 16);
}

/// The member names of a location, of a range, of a position and of the
/// parameters of `textDocument/definition` differ from each other.
proof fn lemma_location_names()
    ensures
        "uri"@ != "range"@,
        "start"@ != "end"@,
        "line"@ != "character"@,
        "textDocument"@ != "position"@,
{
    reveal_strlit("uri");
    reveal_strlit("range");
    reveal_strlit("start");
    reveal_strlit("end");
    reveal_strlit("line");
    reveal_strlit("character");
    reveal_strlit("textDocument");
    reveal_strlit("position");
    assert("uri"@.len() == 3);
    assert("range"@.len() == 5);
    assert("start"@.len() == 5);
    assert("end"@.len() == 3);
    assert("line"@.len() == 4);
    assert("character"@.len() == 9);
    assert("textDocument"@.len() == 12);
    assert("position"@.len() == 8);
}

/// Whatever it is built for, an `initialize` request is an object whose `method`
/// is `"initialize"`, whose `id` is the id given, and whose `params.capabilities`
/// is the one tree that this client announces.
pub proof fn lemma_initialize_request(
    id: u32,
    process_id: u32,
    root_uri: Seq<char>,
    client_name: Seq<char>,
    client_version: Seq<char>,
    workspace_folders: Seq<WorkspaceFolder>,
)
    ensures
        RequestMessage::initialize(
            id,
            process_id,
            root_uri,
            client_name,
            client_version,
            workspace_folders,
        ).field("method"@) == Some(Json::Str("initialize"@)),
        RequestMessage::initialize(
            id,
            process_id,
            root_uri,
            client_name,
            client_version,
            workspace_folders,
        ).field("id"@) == Some(Json::Int(id as int)),
        RequestMessage::initialize(
            id,
            process_id,
            root_uri,
            client_name,
            client_version,
            workspace_folders,
        ).nested("params"@, "capabilities"@) == Some(ClientCapabilities::advertised()),
{
    lemma_envelope_names();
    lemma_initialize_names();
}

/// The `initialized` notification is the object
/// `{"jsonrpc":"2.0","method":"initialized","params":{}}`: it has these three
/// members and no `id`.
pub proof fn lemma_initialized_notification()
    ensures
        NotificationMessage::initialized() == Json::Object(
            map![
                "jsonrpc"@ => Json::Str("2.0"@),
                "method"@ => Json::Str("initialized"@),
                "params"@ => Json::Object(Map::empty()),
            ],
        ),
        NotificationMessage::initialized().field("id"@) is None,
{
    lemma_envelope_names();
}

/// A request is written with each of its five members under its own name; in
/// particular it always has an `id`.
pub proof fn lemma_request_members(r: RequestMessage)
    ensures
        r.wire().field("jsonrpc"@) == Some(Json::Str(r.base_message.jsonrpc@)),
        r.wire().field("id"@) == Some(value_json(r.id)),
        r.wire().field("notification"@) == Some(Json::Int(r.notification as int)),
        r.wire().field("method"@) == Some(Json::Str(r.method@)),
        r.wire().field("params"@) == Some(value_json(r.params)),
{
    lemma_envelope_names();
}

/// A notification is written with its three members, and without an `id`,
/// whatever its method and parameters.
pub proof fn lemma_notification_has_no_id(n: NotificationMessage)
    ensures
        n.wire().field("jsonrpc"@) == Some(Json::Str(n.base_message.jsonrpc@)),
        n.wire().field("method"@) == Some(Json::Str(n.method@)),
        n.wire().field("params"@) == Some(value_json(n.params)),
        n.wire().field("id"@) is None,
{
    lemma_envelope_names();
}

/// A `textDocument/definition` request carries the URI, the line and the
/// character that it was built from, unchanged, at `params.textDocument.uri`,
/// `params.position.line` and `params.position.character`.
pub proof fn lemma_get_definition_request(id: u32, uri: Seq<char>, position: Position)
    ensures
        RequestMessage::get_definition(id, uri, position).field("method"@) == Some(
            Json::Str("textDocument/definition"@),
        ),
        RequestMessage::get_definition(id, uri, position).field("id"@) == Some(
            Json::Int(id as int),
        ),
        RequestMessage::get_definition(id, uri, position).field("params"@) == Some(
            RequestMessage::definition_params(uri, position),
        ),
        RequestMessage::definition_params(uri, position).nested("textDocument"@, "uri"@) == Some(
            Json::Str(uri),
        ),
        RequestMessage::definition_params(uri, position).nested("position"@, "line"@) == Some(
            Json::Int(position.line as int),
        ),
        RequestMessage::definition_params(uri, position).nested("position"@, "character"@)
            == Some(Json::Int(position.character as int)),
{
    lemma_envelope_names();
    lemma_location_names();
}

/// Reading what was written gives the position back.
pub proof fn lemma_position_round_trip(p: Position)
    ensures
        Position::parse(p.wire()) == Some(p),
{
    lemma_location_names();
}

/// Reading what was written gives the range back.
pub proof fn lemma_range_round_trip(r: Range)
    ensures
        Range::parse(r.wire()) == Some(r),
{
    lemma_location_names();
    lemma_position_round_trip(r.start);
    lemma_position_round_trip(r.end);
}

/// Reading what was written gives the location back.
pub proof fn lemma_location_round_trip(l: LocationView)
    ensures
        Location::parse(l.wire()) == Some(l),
{
    lemma_location_names();
    lemma_range_round_trip(l.range);
}

/// An array of written locations is read as these locations, in the same order.
pub proof fn lemma_locations_round_trip(ls: Seq<LocationView>)
    ensures
        Location::parse_all(Json::Array(ls.map_values(|l: LocationView| l.wire()))) == Some(ls),
{
    let items = ls.map_values(|l: LocationView| l.wire());
    assert forall|i: int| 0 <= i < items.len() implies Location::parse(#[trigger] items[i])
        == Some(ls[i]) by {
        lemma_location_round_trip(ls[i]);
    }
    assert(items.map_values(|item: Json| Location::parse(item).unwrap()) =~= ls);
}

/// No document stands both for a location and for an array of locations, so the
/// order in which the two readings are tried does not change the outcome.
pub proof fn lemma_location_shapes_exclusive(doc: Json)
    ensures
        !(Location::parse(doc) is Some && Location::parse_all(doc) is Some),
{
}

/// An answer with an `error` member fails with that member's content, whatever
/// the content is and whether or not a result stands beside it.
pub proof fn lemma_error_takes_precedence(response: ResponseMessage)
    requires
        response.error is Some,
    ensures
        response.definition_outcome() is Err,
        response.definition_outcome()->Err_0 == LspError::ServerError(response.error.unwrap()),
        response.initialize_outcome() is Err,
        response.initialize_outcome()->Err_0 == LspError::ServerError(response.error.unwrap()),
{
}

/// An answer to `initialize` without an `error` member is a success, whatever
/// its result holds.
pub proof fn lemma_initialize_succeeds_without_error(response: ResponseMessage)
    requires
        response.error is None,
    ensures
        response.initialize_outcome() is Ok,
{
}

/// An answer without an `error` member whose result is missing or `null` means
/// that no definition was found.
pub proof fn lemma_null_result_is_not_found(response: ResponseMessage)
    requires
        response.error is None,
        response.result is None || value_json(response.result.unwrap()) is Null,
    ensures
        response.definition_outcome() is Err,
        response.definition_outcome()->Err_0 == LspError::NotFound,
{
}

/// An answer without an `error` member whose result is one written location
/// gives that location alone.
pub proof fn lemma_single_location_result(response: ResponseMessage, l: LocationView)
    requires
        response.error is None,
        response.result is Some,
        value_json(response.result.unwrap()) == l.wire(),
    ensures
        response.definition_outcome() is Ok,
        response.definition_outcome()->Ok_0 == seq![l],
{
    lemma_location_round_trip(l);
}

/// An answer without an `error` member whose result is an array of written
/// locations gives these locations in the array's order.
pub proof fn lemma_location_array_result(response: ResponseMessage, ls: Seq<LocationView>)
    requires
        response.error is None,
        response.result is Some,
        value_json(response.result.unwrap()) == Json::Array(
            ls.map_values(|l: LocationView| l.wire()),
        ),
    ensures
        response.definition_outcome() is Ok,
        response.definition_outcome()->Ok_0 == ls,
{
    lemma_locations_round_trip(ls);
}

/// An answer without an `error` member whose result is an object without a
/// `uri` member, or anything else that is neither `null` nor an array, is
/// malformed.
pub proof fn lemma_other_result_is_malformed(response: ResponseMessage)
    requires
        response.error is None,
        response.result is Some,
        !(value_json(response.result.unwrap()) is Null),
        !(value_json(response.result.unwrap()) is Array),
        value_json(response.result.unwrap()).field("uri"@) is None,
    ensures
        response.definition_outcome() is Err,
        response.definition_outcome()->Err_0 == LspError::MalformedResult,
{
}

} // verus!

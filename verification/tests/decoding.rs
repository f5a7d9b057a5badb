use lsp_client::json::{as_u32, strings};
use lsp_client::{BaseMessage, Location, LspError, Position, Range, ResponseMessage};
use serde_json::Value;

fn parse(text: &str) -> Value {
    serde_json::from_str(text).unwrap()
}

fn response(result: Option<Value>, error: Option<Value>) -> ResponseMessage {
    ResponseMessage {
        base_message: BaseMessage { jsonrpc: "2.0".to_string() },
        id: Some(Value::from(1u32)),
        result,
        error,
    }
}

fn location(uri: &str, l1: u32, c1: u32, l2: u32, c2: u32) -> Location {
    Location {
        uri: uri.to_string(),
        range: Range { start: Position::new(l1, c1), end: Position::new(l2, c2) },
    }
}

const LOCATION_A: &str =
    r#"{"uri":"file:///a","range":{"start":{"line":1,"character":2},"end":{"line":1,"character":5}}}"#;

const LOCATION_B: &str =
    r#"{"uri":"file:///b","range":{"start":{"line":10,"character":0},"end":{"line":12,"character":4}}}"#;

#[test]
fn definition_with_one_location() {
    let r = response(Some(parse(LOCATION_A)), None);
    assert_eq!(r.handle_definition(), Ok(vec![location("file:///a", 1, 2, 1, 5)]));
}

#[test]
fn definition_with_an_array_of_locations() {
    let r = response(Some(parse(&format!("[{}, {}]", LOCATION_A, LOCATION_B))), None);
    assert_eq!(
        r.handle_definition(),
        Ok(vec![location("file:///a", 1, 2, 1, 5), location("file:///b", 10, 0, 12, 4)])
    );
    let r = response(Some(parse(&format!("[{}, {}]", LOCATION_B, LOCATION_A))), None);
    assert_eq!(
        r.handle_definition(),
        Ok(vec![location("file:///b", 10, 0, 12, 4), location("file:///a", 1, 2, 1, 5)])
    );
}

#[test]
fn definition_with_an_empty_array_is_an_empty_result() {
    let r = response(Some(parse("[]")), None);
    assert_eq!(r.handle_definition(), Ok(vec![]));
}

#[test]
fn definition_with_null_result_is_not_found() {
    let r = response(Some(Value::Null), None);
    assert_eq!(r.handle_definition(), Err(LspError::NotFound));
}

#[test]
fn definition_without_result_is_not_found() {
    let r = response(None, None);
    assert_eq!(r.handle_definition(), Err(LspError::NotFound));
}

#[test]
fn definition_error_takes_precedence() {
    let payload = parse(r#"{"code":-32601,"message":"method not found"}"#);
    let r = response(Some(parse(LOCATION_A)), Some(payload.clone()));
    assert_eq!(r.handle_definition(), Err(LspError::ServerError(payload.clone())));
    let r = response(None, Some(payload.clone()));
    assert_eq!(r.handle_definition(), Err(LspError::ServerError(payload)));
}

#[test]
fn definition_null_error_is_still_an_error() {
    let r = response(Some(parse(LOCATION_A)), Some(Value::Null));
    assert_eq!(r.handle_definition(), Err(LspError::ServerError(Value::Null)));
    let r = response(Some(Value::Null), Some(Value::Null));
    assert_eq!(r.handle_definition(), Err(LspError::ServerError(Value::Null)));
}

#[test]
fn definition_with_unexpected_shape_is_malformed() {
    let r = response(Some(parse(r#"{"unexpected":"shape"}"#)), None);
    assert_eq!(r.handle_definition(), Err(LspError::MalformedResult));
}

#[test]
fn definition_with_scalar_result_is_malformed() {
    for text in ["1", "true", "\"file:///a\"", "1.5"] {
        let r = response(Some(parse(text)), None);
        assert_eq!(r.handle_definition(), Err(LspError::MalformedResult));
    }
}

#[test]
fn definition_with_one_bad_element_is_malformed() {
    let r = response(Some(parse(&format!("[{}, {{\"uri\":\"file:///c\"}}]", LOCATION_A))), None);
    assert_eq!(r.handle_definition(), Err(LspError::MalformedResult));
    let r = response(Some(parse(&format!("[null, {}]", LOCATION_A))), None);
    assert_eq!(r.handle_definition(), Err(LspError::MalformedResult));
}

#[test]
fn an_array_is_never_read_as_one_location() {
    let r = response(
        Some(parse(r#"["file:///a", {"start":{"line":1,"character":2},"end":{"line":1,"character":5}}]"#)),
        None,
    );
    assert_eq!(r.handle_definition(), Err(LspError::MalformedResult));
    assert_eq!(Location::from_value(&parse(&format!("[{}]", LOCATION_A))), None);
    assert_eq!(Location::all_from_value(&parse(LOCATION_A)), None);
}

#[test]
fn location_link_is_malformed() {
    let r = response(
        Some(parse(
            r#"{"targetUri":"file:///a","targetRange":{"start":{"line":1,"character":2},"end":{"line":1,"character":5}}}"#,
        )),
        None,
    );
    assert_eq!(r.handle_definition(), Err(LspError::MalformedResult));
}

#[test]
fn members_that_are_not_asked_for_are_ignored() {
    let v = parse(
        r#"{"uri":"file:///a","extra":[1],"range":{"start":{"line":1,"character":2,"x":null},"end":{"line":3,"character":4},"kind":"k"}}"#,
    );
    assert_eq!(Location::from_value(&v), Some(location("file:///a", 1, 2, 3, 4)));
}

#[test]
fn location_needs_a_string_uri_and_a_range() {
    let range = r#"{"start":{"line":1,"character":2},"end":{"line":3,"character":4}}"#;
    assert_eq!(Location::from_value(&parse(&format!(r#"{{"uri":5,"range":{}}}"#, range))), None);
    assert_eq!(Location::from_value(&parse(&format!(r#"{{"uri":null,"range":{}}}"#, range))), None);
    assert_eq!(Location::from_value(&parse(&format!(r#"{{"range":{}}}"#, range))), None);
    assert_eq!(Location::from_value(&parse(r#"{"uri":"file:///a"}"#)), None);
    assert_eq!(Location::from_value(&parse(r#"{"uri":"file:///a","range":null}"#)), None);
    assert_eq!(
        Location::from_value(&parse(&format!(r#"{{"uri":"","range":{}}}"#, range))),
        Some(location("", 1, 2, 3, 4))
    );
}

#[test]
fn range_needs_both_ends() {
    assert_eq!(
        Range::from_value(&parse(r#"{"start":{"line":1,"character":2},"end":{"line":3,"character":4}}"#)),
        Some(Range { start: Position::new(1, 2), end: Position::new(3, 4) })
    );
    assert_eq!(Range::from_value(&parse(r#"{"start":{"line":1,"character":2}}"#)), None);
    assert_eq!(Range::from_value(&parse(r#"{"end":{"line":1,"character":2}}"#)), None);
    assert_eq!(
        Range::from_value(&parse(r#"{"start":{"line":1,"character":2},"end":{"line":3}}"#)),
        None
    );
    assert_eq!(Range::from_value(&parse("[]")), None);
}

#[test]
fn position_numbers_must_fit_in_32_bits() {
    assert_eq!(
        Position::from_value(&parse(r#"{"line":4294967295,"character":0}"#)),
        Some(Position::new(u32::MAX, 0))
    );
    assert_eq!(Position::from_value(&parse(r#"{"line":4294967296,"character":0}"#)), None);
    assert_eq!(Position::from_value(&parse(r#"{"line":0,"character":4294967296}"#)), None);
    assert_eq!(Position::from_value(&parse(r#"{"line":-1,"character":0}"#)), None);
    assert_eq!(Position::from_value(&parse(r#"{"line":1.0,"character":0}"#)), None);
    assert_eq!(Position::from_value(&parse(r#"{"line":"1","character":0}"#)), None);
    assert_eq!(Position::from_value(&parse(r#"{"line":1}"#)), None);
    assert_eq!(Position::from_value(&parse(r#"{"character":1}"#)), None);
    assert_eq!(Position::from_value(&parse("null")), None);
}

#[test]
fn as_u32_reads_small_unsigned_integers_only() {
    assert_eq!(as_u32(&parse("0")), Some(0));
    assert_eq!(as_u32(&parse("17")), Some(17));
    assert_eq!(as_u32(&parse("4294967295")), Some(u32::MAX));
    assert_eq!(as_u32(&parse("4294967296")), None);
    assert_eq!(as_u32(&parse("18446744073709551615")), None);
    assert_eq!(as_u32(&parse("-3")), None);
    assert_eq!(as_u32(&parse("2.5")), None);
    assert_eq!(as_u32(&parse("\"3\"")), None);
    assert_eq!(as_u32(&parse("[3]")), None);
}

#[test]
fn strings_builds_an_array_of_strings() {
    assert_eq!(strings(&vec![]), parse("[]"));
    assert_eq!(
        strings(&vec!["b".to_string(), "".to_string(), "a".to_string()]),
        parse(r#"["b", "", "a"]"#)
    );
}

#[test]
fn written_locations_are_read_back() {
    let l = location("file:///dir/file.rs", 3, 0, 4, 17);
    assert_eq!(l.to_value(), parse(
        r#"{"uri":"file:///dir/file.rs","range":{"start":{"line":3,"character":0},"end":{"line":4,"character":17}}}"#,
    ));
    assert_eq!(Location::from_value(&l.to_value()), Some(location("file:///dir/file.rs", 3, 0, 4, 17)));
    assert_eq!(Range::from_value(&l.range.to_value()), Some(l.range));
    assert_eq!(Position::from_value(&l.range.end.to_value()), Some(Position::new(4, 17)));
    let r = response(Some(Value::Array(vec![l.to_value(), l.to_value()])), None);
    assert_eq!(
        r.handle_definition(),
        Ok(vec![location("file:///dir/file.rs", 3, 0, 4, 17), location("file:///dir/file.rs", 3, 0, 4, 17)])
    );
}

#[test]
fn initialize_succeeds_without_error_whatever_the_result() {
    for result in [None, Some(Value::Null), Some(parse(r#"{"capabilities":{}}"#)), Some(parse("[1, 2]"))] {
        let r = response(result, None);
        assert_eq!(r.handle_initialize(), Ok(()));
    }
}

#[test]
fn initialize_fails_with_the_server_payload() {
    let payload = parse(r#"{"code":-32002,"message":"not initialized"}"#);
    let r = response(Some(parse("{}")), Some(payload.clone()));
    assert_eq!(r.handle_initialize(), Err(LspError::ServerError(payload)));
    let r = response(None, Some(Value::Null));
    assert_eq!(r.handle_initialize(), Err(LspError::ServerError(Value::Null)));
}

#[test]
fn error_messages() {
    assert_eq!(LspError::NotFound.message(), "No definition found.");
    assert_eq!(
        LspError::MalformedResult.message(),
        "Failed to parse definition location(s) from response."
    );
    let text = LspError::ServerError(parse(r#"{"code":1}"#)).message();
    assert!(text.starts_with("Error from LSP server: "));
    assert!(text.contains("code"));
    assert_eq!(LspError::ServerError(Value::Null).message(), "Error from LSP server: Some(Null)");
}

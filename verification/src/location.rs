//! Positions, ranges and locations in text documents, and how they are read from
//! and written to JSON.

use crate::json::{as_u32, member, number, object, string, value_json, values_json, Json};
use serde_json::Value;
use vstd::prelude::*;

verus! {

/// A place in a text document. By convention both numbers count from zero.
#[derive(Debug, Clone, Copy, PartialEq, Eq)]
pub struct Position {
    pub line: u32,
    pub character: u32,
}

/// The stretch of a text document from `start` to `end`.
#[derive(Debug, Clone, Copy, PartialEq, Eq)]
pub struct Range {
    pub start: Position,
    pub end: Position,
}

/// A range in the document that `uri` names.
#[derive(Debug, PartialEq, Eq)]
pub struct Location {
    pub uri: String,
    pub range: Range,
}

/// A [`Location`] with its URI as a sequence of characters.
pub struct LocationView {
    pub uri: Seq<char>,
    pub range: Range,
}

impl Position {
    /// The position at `character` in `line`.
    pub fn new(line: u32, character: u32) -> (p: Self)
        ensures
            p.line == line,
            p.character == character,
    {
        Position { line, character }
    }

    /// The object `{"line": .., "character": ..}` that stands for this position.
    pub open spec fn wire(self) -> Json {
        Json::object().with("line"@, Json::Int(self.line as int)).with(
            "character"@,
            Json::Int(self.character as int),
        )
    }

    /// The position that `doc` stands for: an object whose members `line` and
    /// `character` are integers from 0 to 2^32 - 1. Other members are ignored.
    pub open spec fn parse(doc: Json) -> Option<Position> {
        match (doc.field("line"@), doc.field("character"@)) {
            (Some(line), Some(character)) => match (line.as_u32(), character.as_u32()) {
                (Some(l), Some(c)) => Some(Position { line: l, character: c }),
                _ => None,
            },
            _ => None,
        }
    }

    /// This position as a JSON value.
    pub fn to_value(&self) -> (v: Value)
        ensures
            value_json(v) == self.wire(),
    {
        let mut m = serde_json::Map::new();
        m.insert("line".to_string(), number(self.line as u64));
        m.insert("character".to_string(), number(self.character as u64));
        object(m)
    }

    /// Reads a position from a JSON value.
    pub fn from_value(v: &Value) -> (p: Option<Position>)
        ensures
            p == Position::parse(value_json(*v)),
    {
        let line = match member(v, "line") {
            Some(found) => as_u32(found),
            None => None,
        };
        let character = match member(v, "character") {
            Some(found) => as_u32(found),
            None => None,
        };
        match (line, character) {
            (Some(l), Some(c)) => Some(Position { line: l, character: c }),
            _ => None,
        }
    }
}

impl Range {
    /// The object `{"start": .., "end": ..}` that stands for this range.
    pub open spec fn wire(self) -> Json {
        Json::object().with("start"@, self.start.wire()).with("end"@, self.end.wire())
    }

    /// The range that `doc` stands for: an object whose members `start` and `end`
    /// stand for positions. Other members are ignored.
    pub open spec fn parse(doc: Json) -> Option<Range> {
        match (doc.field("start"@), doc.field("end"@)) {
            (Some(start), Some(end)) => match (Position::parse(start), Position::parse(end)) {
                (Some(s), Some(e)) => Some(Range { start: s, end: e }),
                _ => None,
            },
            _ => None,
        }
    }

    /// This range as a JSON value.
    pub fn to_value(&self) -> (v: Value)
        ensures
            value_json(v) == self.wire(),
    {
        let mut m = serde_json::Map::new();
        m.insert("start".to_string(), self.start.to_value());
        m.insert("end".to_string(), self.end.to_value());
        object(m)
    }

    /// Reads a range from a JSON value.
    pub fn from_value(v: &Value) -> (r: Option<Range>)
        ensures
            r == Range::parse(value_json(*v)),
    {
        let start = match member(v, "start") {
            Some(found) => Position::from_value(found),
            None => None,
        };
        let end = match member(v, "end") {
            Some(found) => Position::from_value(found),
            None => None,
        };
        match (start, end) {
            (Some(s), Some(e)) => Some(Range { start: s, end: e }),
            _ => None,
        }
    }
}

impl View for Location {
    type V = LocationView;

    open spec fn view(&self) -> LocationView {
        LocationView { uri: self.uri@, range: self.range }
    }
}

impl LocationView {
    /// The object `{"uri": .., "range": ..}` that stands for this location.
    pub open spec fn wire(self) -> Json {
        Json::object().with("uri"@, Json::Str(self.uri)).with("range"@, self.range.wire())
    }
}

impl Location {
    /// The location that `doc` stands for: an object whose member `uri` is a string
    /// and whose member `range` stands for a range. Other members are ignored.
    pub open spec fn parse(doc: Json) -> Option<LocationView> {
        match (doc.field("uri"@), doc.field("range"@)) {
            (Some(Json::Str(uri)), Some(range)) => match Range::parse(range) {
                Some(r) => Some(LocationView { uri, range: r }),
                None => None,
            },
            _ => None,
        }
    }

    /// The given locations, each by its view.
    pub open spec fn views(locations: Seq<Location>) -> Seq<LocationView> {
        locations.map_values(|l: Location| l@)
    }

    /// The locations that `doc` stands for: an array whose elements each stand for
    /// a location, in the array's order.
    pub open spec fn parse_all(doc: Json) -> Option<Seq<LocationView>> {
        match doc {
            Json::Array(items) => if forall|i: int|
                0 <= i < items.len() ==> Location::parse(#[trigger] items[i]) is Some {
                Some(items.map_values(|item: Json| Location::parse(item).unwrap()))
            } else {
                None
            },
            _ => None,
        }
    }

    /// This location as a JSON value.
    pub fn to_value(&self) -> (v: Value)
        ensures
            value_json(v) == self@.wire(),
    {
        let mut m = serde_json::Map::new();
        m.insert("uri".to_string(), string(self.uri.clone()));
        m.insert("range".to_string(), self.range.to_value());
        object(m)
    }

    /// Reads one location from a JSON value.
    pub fn from_value(v: &Value) -> (l: Option<Location>)
        ensures
            match l {
                Some(location) => Location::parse(value_json(*v)) == Some(location@),
                None => Location::parse(value_json(*v)) is None,
            },
    {
        let uri = match member(v, "uri") {
            Some(found) => found.as_str(),
            None => None,
        };
        let range = match member(v, "range") {
            Some(found) => Range::from_value(found),
            None => None,
        };
        match (uri, range) {
            (Some(text), Some(r)) => Some(Location { uri: text.to_string(), range: r }),
            _ => None,
        }
    }

    /// Reads an array of locations from a JSON value. One element that is no
    /// location spoils the whole array.
    pub fn all_from_value(v: &Value) -> (all: Option<Vec<Location>>)
        ensures
            match all {
                Some(locations) => Location::parse_all(value_json(*v)) == Some(
                    Location::views(locations@),
                ),
                None => Location::parse_all(value_json(*v)) is None,
            },
    {
        let items = match v.as_array() {
            Some(items) => items,
            None => {
                return None;
            },
        };
        let ghost docs = value_json(*v)->Array_0;
        let mut out: Vec<Location> = Vec::new();
        for i in 0..items.len()
            invariant
                values_json(items@) == docs,
                value_json(*v) == Json::Array(docs),
                out@.len() == i,
                forall|k: int| 0 <= k < i ==> Location::parse(#[trigger] docs[k]) == Some(out@[k]@),
        {
            match Location::from_value(&items[i]) {
                Some(location) => {
                    out.push(location);
                },
                None => {
                    assert(Location::parse(docs[i as int]) is None);
                    return None;
                },
            }
        }
        assert(Location::views(out@) =~= docs.map_values(
            |item: Json| Location::parse(item).unwrap(),
        ));
        Some(out)
    }
}

} // verus!

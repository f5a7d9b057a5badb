//! Why a response could not be turned into a result.

use crate::json::{debug_text, payload_debug};
use serde_json::Value;
use vstd::prelude::*;
use vstd::string::StringExecFns;

verus! {

#[derive(Debug, PartialEq, Eq)]
pub enum LspError {
    /// The response carried an `error` member. Its content is kept as it came.
    ServerError(Value),
    /// The response carried no result, or the result `null`.
    NotFound,
    /// The result stands neither for a location nor for an array of locations.
    MalformedResult,
}

impl LspError {
    /// The sentence that [`LspError::message`] gives.
    pub open spec fn message_text(self) -> Seq<char> {
        match self {
            LspError::ServerError(payload) => "Error from LSP server: "@ + payload_debug(payload),
            LspError::NotFound => "No definition found."@,
            LspError::MalformedResult => "Failed to parse definition location(s) from response."@,
        }
    }

    /// A sentence for the reader of a log. For an error of the server it ends with
    /// the payload as `{:?}` prints it.
    pub fn message(&self) -> (text: String)
        ensures
            text@ == self.message_text(),
    {
        match self {
            LspError::ServerError(payload) => {
                let detail = debug_text(payload);
                "Error from LSP server: ".to_string().concat(detail.as_str())
            },
            LspError::NotFound => "No definition found.".to_string(),
            LspError::MalformedResult => "Failed to parse definition location(s) from response.".to_string(),
        }
    }
}

} // verus!

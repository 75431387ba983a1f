//! The closed set of decode failures.

use vstd::prelude::*;
use vstd::string::StringExecFns;

verus! {

/// Why a text was not accepted as a JSON-RPC 2.0 message.
#[derive(Debug, Clone)]
pub enum ParseError {
    /// The text is not JSON, or is JSON but not an object; holds the
    /// diagnostic.
    InvalidJson(String),
    /// `jsonrpc` is a string other than "2.0"; holds the string found.
    InvalidVersion(String),
    /// A required field is absent or not of the type required; holds the
    /// field's name.
    MissingField(&'static str),
    /// A field has a JSON type that its slot does not take; holds the
    /// field's name and what was expected.
    InvalidFieldType(&'static str, &'static str),
    /// `id` is not a string, an integer in the signed 64-bit range, or null.
    InvalidId,
}

/// The model of a `ParseError`.
pub enum ErrorView {
    InvalidJson(Seq<char>),
    InvalidVersion(Seq<char>),
    MissingField(Seq<char>),
    InvalidFieldType(Seq<char>, Seq<char>),
    InvalidId,
}

impl View for ParseError {
    type V = ErrorView;

    open spec fn view(&self) -> ErrorView {
        match *self {
            ParseError::InvalidJson(s) => ErrorView::InvalidJson(s@),
            ParseError::InvalidVersion(s) => ErrorView::InvalidVersion(s@),
            ParseError::MissingField(f) => ErrorView::MissingField(f@),
            ParseError::InvalidFieldType(f, e) => ErrorView::InvalidFieldType(f@, e@),
            ParseError::InvalidId => ErrorView::InvalidId,
        }
    }
}

/// The text that describes a failure to a user.
pub open spec fn error_message(e: ErrorView) -> Seq<char> {
    match e {
        ErrorView::InvalidJson(d) => "Invalid JSON: "@ + d,
        ErrorView::InvalidVersion(v) => "Invalid JSON-RPC version: expected '2.0', got '"@ + v
            + "'"@,
        ErrorView::MissingField(f) => "Missing required field: "@ + f,
        ErrorView::InvalidFieldType(f, e) => "Invalid field type for '"@ + f + "': expected "@ + e,
        ErrorView::InvalidId => "Invalid request ID: must be string, number, or null"@,
    }
}

impl ParseError {
    /// The description of this failure, with the field's name or the
    /// offending value in it.
    pub fn message(&self) -> (r: String)
        ensures
            r@ == error_message(self@),
    {
        match self {
            ParseError::InvalidJson(d) => "Invalid JSON: ".to_owned().concat(d.as_str()),
            ParseError::InvalidVersion(v) => {
                let head = "Invalid JSON-RPC version: expected '2.0', got '".to_owned();
                head.concat(v.as_str()).concat("'")
            },
            ParseError::MissingField(f) => "Missing required field: ".to_owned().concat(f),
            ParseError::InvalidFieldType(f, e) => {
                let head = "Invalid field type for '".to_owned();
                head.concat(f).concat("': expected ").concat(e)
            },
            ParseError::InvalidId => {
                "Invalid request ID: must be string, number, or null".to_owned()
            },
        }
    }
}

} // verus!

//! The response envelope: the JSON document that a response body holds.

use crate::errors::SquareError;
use serde_json::{Error, Value};
use vstd::prelude::*;

verus! {

#[verifier::external_type_specification]
#[verifier::external_body]
pub struct ExValue(Value);

#[verifier::external_type_specification]
#[verifier::external_body]
pub struct ExError(Error);

/// Whether `text` is one JSON document from its first character to its last,
/// as `serde_json` reads it.
pub uninterp spec fn is_json(text: Seq<char>) -> bool;

/// `serde_json::from_str`, reading a `serde_json::Value`: believed to accept a
/// text or refuse it by the text alone, which [`is_json`] names. Nothing is
/// claimed of the document that comes back.
#[verifier::external_body]
pub(crate) fn json_from_str(text: &str) -> (res: Result<Value, Error>)
    ensures
        res is Ok <==> is_json(text@),
{
    serde_json::from_str(text)
}

/// What the API answered: a JSON document whose shape depends on the
/// resource that was asked for.
#[derive(Debug, PartialEq, Eq)]
pub struct SquareResponse {
    pub payload: Value,
}

impl SquareResponse {
    /// The envelope of a document that was read, or the failure to read one.
    pub fn from_parsed(parsed: Result<Value, Error>) -> (res: Result<SquareResponse, SquareError>)
        ensures
            res == match parsed {
                Ok(payload) => Ok::<SquareResponse, SquareError>(SquareResponse { payload }),
                Err(_) => Err::<SquareResponse, SquareError>(SquareError::Deserialization),
            },
    {
        match parsed {
            Ok(payload) => Ok(SquareResponse { payload }),
            Err(_) => Err(SquareError::Deserialization),
        }
    }

    /// Reads a response body.
    ///
    /// A body that is a JSON document gives its envelope; any other body is a
    /// deserialization failure.
    pub fn parse(body: &str) -> (res: Result<SquareResponse, SquareError>)
        ensures
            res is Ok <==> is_json(body@),
            res is Err ==> res == Err::<SquareResponse, SquareError>(SquareError::Deserialization),
    {
        SquareResponse::from_parsed(json_from_str(body))
    }
}

} // verus!

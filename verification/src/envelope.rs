//! Complete bodies: a request as JSON text, and the record that the JSON
//! text of a response holds.

use crate::decode::FromJson;
use crate::dtypes::{ChatCompletionObject, ChatCompletionRequest, ListModelsResponse};
use crate::encode::ToJson;
use crate::error::{DecodeError, DecodeErrorModel, Diagnostic, DiagnosticModel, EncodeFailure};
use crate::json::{describe, error_text, parse_value, parsed, render, rendered};
use vstd::prelude::*;

verus! {

/// The record that a JSON text holds: the text has to be JSON, and the JSON
/// has to hold the record.
pub open spec fn payload_decoded<T: FromJson>(text: Seq<char>) -> Result<T::V, DiagnosticModel> {
    match parsed(text) {
        Err(message) => Err(DiagnosticModel::Syntax(message)),
        Ok(j) => match T::decoded(j) {
            Ok(record) => Ok(record),
            Err(mismatch) => Err(DiagnosticModel::Shape(mismatch)),
        },
    }
}

/// The model of what reading a payload returned.
pub open spec fn payload_outcome<T: View>(r: Result<T, Diagnostic>) -> Result<
    T::V,
    DiagnosticModel,
> {
    match r {
        Ok(record) => Ok(record@),
        Err(diagnostic) => Err(diagnostic@),
    }
}

/// The record that a response body holds.
pub open spec fn body_decoded<T: FromJson>(body: Seq<char>) -> Result<T::V, DecodeErrorModel> {
    match payload_decoded::<T>(body) {
        Ok(record) => Ok(record),
        Err(diagnostic) => Err(DecodeErrorModel::InvalidPayload(diagnostic)),
    }
}

/// The model of what decoding a body returned.
pub open spec fn body_outcome<T: View>(r: Result<T, DecodeError>) -> Result<
    T::V,
    DecodeErrorModel,
> {
    match r {
        Ok(record) => Ok(record@),
        Err(error) => Err(error@),
    }
}

/// Parses `text` as JSON and reads a record out of it.
pub fn read_payload<T: FromJson>(text: &str) -> (r: Result<T, Diagnostic>)
    ensures
        payload_outcome(r) == payload_decoded::<T>(text@),
{
    match parse_value(text) {
        Err(error) => Err(Diagnostic::Syntax(describe(&error))),
        Ok(value) => match T::from_json(&value) {
            Ok(record) => Ok(record),
            Err(mismatch) => Err(Diagnostic::Shape(mismatch)),
        },
    }
}

/// Reads a record out of a complete response body.
pub fn read_body<T: FromJson>(body: &str) -> (r: Result<T, DecodeError>)
    ensures
        body_outcome(r) == body_decoded::<T>(body@),
{
    match read_payload::<T>(body) {
        Ok(record) => Ok(record),
        Err(diagnostic) => Err(DecodeError::InvalidPayload(diagnostic)),
    }
}

impl ChatCompletionObject {
    /// Decodes the body of the answer to a chat-completion request.
    pub fn from_body(body: &str) -> (r: Result<ChatCompletionObject, DecodeError>)
        ensures
            body_outcome(r) == body_decoded::<ChatCompletionObject>(body@),
    {
        read_body::<ChatCompletionObject>(body)
    }
}

impl ListModelsResponse {
    /// Decodes the body of the answer to a request for the list of models.
    pub fn from_body(body: &str) -> (r: Result<ListModelsResponse, DecodeError>)
        ensures
            body_outcome(r) == body_decoded::<ListModelsResponse>(body@),
    {
        read_body::<ListModelsResponse>(body)
    }
}

/// The model of what writing a body returned: the text of the body, or the
/// message of the failure.
pub open spec fn encode_outcome(r: Result<String, EncodeFailure>) -> Result<
    Seq<char>,
    Seq<char>,
> {
    match r {
        Ok(body) => Ok(body@),
        Err(failure) => Err(failure@),
    }
}

/// The model of what the serializer returned: the text that it wrote, or the
/// message of its error.
pub open spec fn written_outcome(written: Result<String, serde_json::Error>) -> Result<
    Seq<char>,
    Seq<char>,
> {
    match written {
        Ok(text) => Ok(text@),
        Err(error) => Err(error_text(error)),
    }
}

/// Makes the body of a request of what the serializer returned: the text as
/// it was written, or the failure with the serializer's message.
pub fn finish_body(written: Result<String, serde_json::Error>) -> (r: Result<
    String,
    EncodeFailure,
>)
    ensures
        encode_outcome(r) == written_outcome(written),
{
    match written {
        Ok(body) => Ok(body),
        Err(error) => Err(EncodeFailure { message: describe(&error) }),
    }
}

impl ChatCompletionRequest {
    /// Writes the request as the JSON text that is its body on the wire.
    ///
    /// The outcome is what the serializer makes of the JSON value that stands
    /// for the request: the body is the text that it writes for that value,
    /// and a failure carries the message with which it fails on that value.
    pub fn to_body(&self) -> (r: Result<String, EncodeFailure>)
        ensures
            encode_outcome(r) == rendered(ChatCompletionRequest::encoded(self@)),
    {
        let value = self.to_json();
        finish_body(render(&value))
    }
}

} // verus!

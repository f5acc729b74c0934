//! The ways in which decoding and encoding fail.

use vstd::prelude::*;
use vstd::string::StringExecFns;

verus! {

/// Where a JSON value departs from the record that a decoder was asked for.
#[derive(Debug, Clone, Copy, PartialEq, Eq)]
pub enum Mismatch {
    /// A value that has to be a JSON object is of another kind.
    NotAnObject,
    /// A value that has to be a JSON string is of another kind.
    NotAString,
    /// The object lacks the named member, which the record requires.
    Missing(&'static str),
    /// The value in the named place is of a kind that the place does not take.
    WrongKind(&'static str),
}

/// Why a payload was refused.
#[derive(Debug, Clone, PartialEq, Eq)]
pub enum Diagnostic {
    /// The payload is not JSON text; the message is the parser's.
    Syntax(String),
    /// The payload is JSON, but not of the shape of the record.
    Shape(Mismatch),
}

/// Why a stream frame or a response body was refused.
#[derive(Debug, Clone, PartialEq, Eq)]
pub enum DecodeError {
    /// The frame does not start with the marker of a data frame.
    MissingPrefix,
    /// The content is neither the end-of-stream sentinel nor a record.
    InvalidPayload(Diagnostic),
}

/// A request that could not be written as JSON text; the message is the
/// serializer's.
#[derive(Debug, Clone, PartialEq, Eq)]
pub struct EncodeFailure {
    pub message: String,
}

/// The content of a [`Diagnostic`].
pub enum DiagnosticModel {
    Syntax(Seq<char>),
    Shape(Mismatch),
}

/// The content of a [`DecodeError`].
pub enum DecodeErrorModel {
    MissingPrefix,
    InvalidPayload(DiagnosticModel),
}

impl View for EncodeFailure {
    type V = Seq<char>;

    /// The content of a failure is its message.
    open spec fn view(&self) -> Seq<char> {
        self.message@
    }
}

impl View for Diagnostic {
    type V = DiagnosticModel;

    open spec fn view(&self) -> DiagnosticModel {
        match self {
            Diagnostic::Syntax(message) => DiagnosticModel::Syntax(message@),
            Diagnostic::Shape(mismatch) => DiagnosticModel::Shape(*mismatch),
        }
    }
}

impl View for DecodeError {
    type V = DecodeErrorModel;

    open spec fn view(&self) -> DecodeErrorModel {
        match self {
            DecodeError::MissingPrefix => DecodeErrorModel::MissingPrefix,
            DecodeError::InvalidPayload(diagnostic) => DecodeErrorModel::InvalidPayload(
                diagnostic@,
            ),
        }
    }
}

impl Mismatch {
    /// The words that describe the mismatch.
    pub open spec fn text(self) -> Seq<char> {
        match self {
            Mismatch::NotAnObject => "expected a JSON object"@,
            Mismatch::NotAString => "expected a JSON string"@,
            Mismatch::Missing(key) => "missing field `"@ + key@ + "`"@,
            Mismatch::WrongKind(key) => "invalid type for `"@ + key@ + "`"@,
        }
    }

    /// Describes the mismatch in words.
    pub fn message(&self) -> (r: String)
        ensures
            r@ == self.text(),
    {
        match self {
            Mismatch::NotAnObject => "expected a JSON object".to_owned(),
            Mismatch::NotAString => "expected a JSON string".to_owned(),
            Mismatch::Missing(key) => "missing field `".to_owned().concat(key).concat("`"),
            Mismatch::WrongKind(key) => "invalid type for `".to_owned().concat(key).concat("`"),
        }
    }
}

impl DiagnosticModel {
    /// The words that describe the diagnostic: the parser's own message, or
    /// the description of the mismatch.
    pub open spec fn text(self) -> Seq<char> {
        match self {
            DiagnosticModel::Syntax(message) => message,
            DiagnosticModel::Shape(mismatch) => mismatch.text(),
        }
    }
}

impl Diagnostic {
    /// Describes the diagnostic in words.
    pub fn message(&self) -> (r: String)
        ensures
            r@ == self@.text(),
    {
        match self {
            Diagnostic::Syntax(message) => message.clone(),
            Diagnostic::Shape(mismatch) => mismatch.message(),
        }
    }
}

impl DecodeErrorModel {
    /// The words that describe the error.
    pub open spec fn text(self) -> Seq<char> {
        match self {
            DecodeErrorModel::MissingPrefix => "expected chunk to start with `data:`"@,
            DecodeErrorModel::InvalidPayload(diagnostic) => diagnostic.text(),
        }
    }
}

impl DecodeError {
    /// Describes the error in words.
    pub fn message(&self) -> (r: String)
        ensures
            r@ == self@.text(),
    {
        match self {
            DecodeError::MissingPrefix => "expected chunk to start with `data:`".to_owned(),
            DecodeError::InvalidPayload(diagnostic) => diagnostic.message(),
        }
    }
}

} // verus!

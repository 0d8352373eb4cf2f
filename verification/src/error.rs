//! The error taxonomy of the client.
//!
//! Every failure a call can end in is one of these variants; none is ever
//! swallowed, and no call retries.  [`ErrorModel`] is the mathematical view
//! of an error, used by the contracts.

use vstd::prelude::*;

use crate::json::Json;

verus! {

/// The payload shape an endpoint expects; named by a decode failure.
#[derive(Clone, Copy, Debug, PartialEq, Eq, Structural)]
pub enum Shape {
    /// A bare JSON number.
    Number,
    /// A JSON object mapping strings to strings.
    StringMap,
    /// A JSON object mapping strings to numbers.
    NumberMap,
}

/// What went wrong with the envelope itself, before its payload was looked at.
#[derive(Debug)]
pub enum EnvelopeIssue {
    /// The envelope carries no `success` key.
    MissingSuccess,
    /// The envelope carries a `success` key whose value is not a boolean.
    SuccessNotBool,
    /// `success` was `true`, but the named payload key is absent.
    MissingPayload(String),
}

/// An error of one client call.  All errors are terminal for the call that
/// produced them.
#[derive(Debug)]
pub enum ClientError {
    /// The API key contains bytes that cannot stand in an HTTP header value.
    InvalidCredential,
    /// The connection could not be established, or broke; the message is the
    /// transport's own account.
    TransportError(String),
    /// The response arrived with a status outside the success range; the
    /// status and the raw body are kept verbatim for diagnosis.
    HttpError { status: u16, body: String },
    /// The response body is not valid JSON.
    MalformedResponse(String),
    /// The envelope is not shaped as every endpoint answer must be.
    EnvelopeError(EnvelopeIssue),
    /// The remote API reported failure; the full envelope is kept for
    /// diagnosis.
    ApiError(Json),
    /// The payload under `key` does not have the expected shape.
    DecodeError { key: String, expected: Shape },
}

/// The mathematical view of an [`EnvelopeIssue`].
pub enum IssueModel {
    MissingSuccess,
    SuccessNotBool,
    MissingPayload(Seq<char>),
}

/// The mathematical view of a [`ClientError`]: strings become character
/// sequences, everything else is kept as it stands.
pub enum ErrorModel {
    InvalidCredential,
    Transport(Seq<char>),
    Http { status: u16, body: Seq<char> },
    Malformed(Seq<char>),
    Envelope(IssueModel),
    Api(Json),
    Decode { key: Seq<char>, expected: Shape },
}

impl View for EnvelopeIssue {
    type V = IssueModel;

    open spec fn view(&self) -> IssueModel {
        match self {
            EnvelopeIssue::MissingSuccess => IssueModel::MissingSuccess,
            EnvelopeIssue::SuccessNotBool => IssueModel::SuccessNotBool,
            EnvelopeIssue::MissingPayload(k) => IssueModel::MissingPayload(k@),
        }
    }
}

impl View for ClientError {
    type V = ErrorModel;

    open spec fn view(&self) -> ErrorModel {
        match self {
            ClientError::InvalidCredential => ErrorModel::InvalidCredential,
            ClientError::TransportError(m) => ErrorModel::Transport(m@),
            ClientError::HttpError { status, body } => ErrorModel::Http {
                status: *status,
                body: body@,
            },
            ClientError::MalformedResponse(m) => ErrorModel::Malformed(m@),
            ClientError::EnvelopeError(issue) => ErrorModel::Envelope(issue@),
            ClientError::ApiError(env) => ErrorModel::Api(*env),
            ClientError::DecodeError { key, expected } => ErrorModel::Decode {
                key: key@,
                expected: *expected,
            },
        }
    }
}

} // verus!

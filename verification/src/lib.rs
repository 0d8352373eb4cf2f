//! Client library for a remote currency-exchange data API.
//!
//! Every endpoint of the remote API answers with a JSON envelope: an object
//! carrying a boolean `success` flag and a named payload field.  The heart of
//! this crate is the validation and typed decoding of that envelope, together
//! with the endpoint-specific request construction (query parameters, and the
//! stripping of the source-currency prefix from exchange-rate symbols).
//!
//! Network transport is left to the caller: the library builds the request
//! URL, classifies the HTTP status, and decodes the response body once it has
//! been parsed into a generic JSON value.

pub mod endpoints;
pub mod envelope;
pub mod error;
pub mod json;
pub mod query;
pub mod transport;

pub use endpoints::{list_from_envelope, live_from_envelope, strip_prefix};
pub use envelope::{decode_number, decode_number_map, decode_string_map, unwrap_payload};
pub use error::{ClientError, EnvelopeIssue, ErrorModel, IssueModel, Shape};
pub use json::Json;
pub use query::{encode_query_value, join_codes, list_url, live_params, live_url};
pub use transport::{check_status, validate_api_key};

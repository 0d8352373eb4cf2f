//! The decisions of the transport layer.
//!
//! The network round-trip itself is the caller's: this module holds what
//! can be decided about it — whether the API key can stand in the
//! `apikey` request header, and what a response's HTTP status means.

use vstd::prelude::*;
use vstd::string::StringSliceAdditionalSpecFns;

use crate::error::{ClientError, ErrorModel};

verus! {

/// A byte an HTTP header value may hold: horizontal tab, or anything from
/// space upward except delete.
pub open spec fn header_byte_ok(b: u8) -> bool {
    b == 9 || (b >= 32 && b != 127)
}

/// A string every byte of which may stand in an HTTP header value.
pub open spec fn header_value_ok(bytes: Seq<u8>) -> bool {
    forall|i: int| 0 <= i < bytes.len() ==> header_byte_ok(#[trigger] bytes[i])
}

/// Check that the API key can be sent as the `apikey` header value;
/// the one error is `InvalidCredential`, exactly on keys with a byte no
/// header value may hold.
pub fn validate_api_key(key: &str) -> (r: Result<(), ClientError>)
    ensures
        r is Ok <==> header_value_ok(key.spec_bytes()),
        r matches Err(e) ==> e@ == ErrorModel::InvalidCredential,
{
    let bytes: &[u8] = key.as_bytes();
    let n = bytes.len();
    let mut i: usize = 0;
    while i < n
        invariant
            i <= n,
            n == bytes@.len(),
            bytes@ == key.spec_bytes(),
            forall|j: int| 0 <= j < i ==> header_byte_ok(#[trigger] bytes@[j]),
        decreases n - i,
    {
        let b = bytes[i];
        if !(b == 9 || (b >= 32 && b != 127)) {
            return Err(ClientError::InvalidCredential);
        }
        i = i + 1;
    }
    Ok(())
}

/// An HTTP status in the success range.
pub open spec fn status_success(status: u16) -> bool {
    200 <= status < 300
}

/// Classify a response's HTTP status: outside the success range the call
/// fails with `HttpError`, carrying the status and the raw body verbatim.
pub fn check_status(status: u16, body: String) -> (r: Result<(), ClientError>)
    ensures
        r is Ok <==> status_success(status),
        r matches Err(e) ==> e@ == (ErrorModel::Http { status, body: body@ }),
{
    if 200 <= status && status < 300 {
        Ok(())
    } else {
        Err(ClientError::HttpError { status, body })
    }
}

} // verus!

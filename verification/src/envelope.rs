//! Validation and typed decoding of the response envelope.
//!
//! Every endpoint of the remote API answers with a JSON object carrying a
//! boolean `success` key and a named payload key.  Decoding checks, in
//! order: that `success` exists and is a boolean, that it is `true`, that
//! the payload key exists, and that the payload has the expected shape.
//! Decoding is all-or-nothing: a value is returned only when every step
//! succeeded, and each failure is a distinct error.

use vstd::prelude::*;

use crate::error::{ClientError, EnvelopeIssue, ErrorModel, IssueModel, Shape};
use crate::json::{find_key, Json};

verus! {

/// What steps one to three of decoding leave: the payload under `key`, or
/// the exact error owed for this envelope.
pub open spec fn payload_of(env: Json, key: Seq<char>) -> Result<Json, ErrorModel> {
    match env.spec_get("success"@) {
        None => Err(ErrorModel::Envelope(IssueModel::MissingSuccess)),
        Some(flag) => match flag {
            Json::Bool(ok) => if !ok {
                Err(ErrorModel::Api(env))
            } else {
                match env.spec_get(key) {
                    None => Err(ErrorModel::Envelope(IssueModel::MissingPayload(key))),
                    Some(payload) => Ok(payload),
                }
            },
            _ => Err(ErrorModel::Envelope(IssueModel::SuccessNotBool)),
        },
    }
}

/// A JSON object all of whose values are strings.
pub open spec fn is_string_obj(p: Json) -> bool {
    p matches Json::Obj(entries) && forall|i: int|
        0 <= i < entries@.len() ==> entries@[i].1 is Str
}

/// A JSON object all of whose values are numbers.
pub open spec fn is_number_obj(p: Json) -> bool {
    p matches Json::Obj(entries) && forall|i: int|
        0 <= i < entries@.len() ==> entries@[i].1 is Num
}

/// The entries of a string-valued object, as pairs of character sequences.
pub open spec fn string_entries(p: Json) -> Seq<(Seq<char>, Seq<char>)>
    recommends
        is_string_obj(p),
{
    p->Obj_0@.map_values(|e: (String, Json)| (e.0@, e.1->Str_0@))
}

/// The entries of a number-valued object: keys as character sequences,
/// number values untouched.
pub open spec fn number_entries(p: Json) -> Seq<(Seq<char>, serde_json::Number)>
    recommends
        is_number_obj(p),
{
    p->Obj_0@.map_values(|e: (String, Json)| (e.0@, e.1->Num_0))
}

/// What decoding the envelope into a string-to-string mapping returns,
/// for every envelope and payload key.
pub open spec fn decoded_string_map(env: Json, key: Seq<char>) -> Result<
    Seq<(Seq<char>, Seq<char>)>,
    ErrorModel,
> {
    match payload_of(env, key) {
        Err(e) => Err(e),
        Ok(payload) => if is_string_obj(payload) {
            Ok(string_entries(payload))
        } else {
            Err(ErrorModel::Decode { key, expected: Shape::StringMap })
        },
    }
}

/// What decoding the envelope into a string-to-number mapping returns,
/// for every envelope and payload key.
pub open spec fn decoded_number_map(env: Json, key: Seq<char>) -> Result<
    Seq<(Seq<char>, serde_json::Number)>,
    ErrorModel,
> {
    match payload_of(env, key) {
        Err(e) => Err(e),
        Ok(payload) => if is_number_obj(payload) {
            Ok(number_entries(payload))
        } else {
            Err(ErrorModel::Decode { key, expected: Shape::NumberMap })
        },
    }
}

/// What decoding the envelope into a bare number returns, for every
/// envelope and payload key.
pub open spec fn decoded_number(env: Json, key: Seq<char>) -> Result<
    serde_json::Number,
    ErrorModel,
> {
    match payload_of(env, key) {
        Err(e) => Err(e),
        Ok(payload) => match payload {
            Json::Num(n) => Ok(n),
            _ => Err(ErrorModel::Decode { key, expected: Shape::Number }),
        },
    }
}

/// The view of a decoded string-to-string mapping.
pub open spec fn string_pairs_view(m: Seq<(String, String)>) -> Seq<(Seq<char>, Seq<char>)> {
    m.map_values(|e: (String, String)| (e.0@, e.1@))
}

/// The view of a decoded string-to-number mapping.
pub open spec fn number_pairs_view(m: Seq<(String, serde_json::Number)>) -> Seq<
    (Seq<char>, serde_json::Number),
> {
    m.map_values(|e: (String, serde_json::Number)| (e.0@, e.1))
}

/// On every envelope whose `success` flag is `true` and whose payload key
/// is present with the expected shape, decoding returns exactly that
/// payload, entry for entry and in its order.
pub proof fn decode_returns_payload_exactly(env: Json, key: Seq<char>)
    requires
        env.spec_get("success"@) == Some(Json::Bool(true)),
    ensures
        env.spec_get(key) is Some && is_string_obj(env.spec_get(key)->0)
            ==> decoded_string_map(env, key) == Ok::<Seq<(Seq<char>, Seq<char>)>, ErrorModel>(
            string_entries(env.spec_get(key)->0),
        ),
        env.spec_get(key) is Some && is_number_obj(env.spec_get(key)->0)
            ==> decoded_number_map(env, key) == Ok::<
            Seq<(Seq<char>, serde_json::Number)>,
            ErrorModel,
        >(number_entries(env.spec_get(key)->0)),
        env.spec_get(key) is Some && env.spec_get(key)->0 is Num ==> decoded_number(env, key)
            == Ok::<serde_json::Number, ErrorModel>(env.spec_get(key)->0->Num_0),
{
}

/// On every envelope whose `success` flag is `false`, decoding fails with
/// `ApiError` carrying that envelope whole, whether or not the payload key
/// is present.
pub proof fn failed_envelope_always_api_error(env: Json, key: Seq<char>)
    requires
        env.spec_get("success"@) == Some(Json::Bool(false)),
    ensures
        decoded_string_map(env, key) == Err::<Seq<(Seq<char>, Seq<char>)>, ErrorModel>(
            ErrorModel::Api(env),
        ),
        decoded_number_map(env, key) == Err::<Seq<(Seq<char>, serde_json::Number)>, ErrorModel>(
            ErrorModel::Api(env),
        ),
        decoded_number(env, key) == Err::<serde_json::Number, ErrorModel>(ErrorModel::Api(env)),
{
}

/// On every envelope without a `success` key, decoding fails with
/// `EnvelopeError`, never with any other kind of error.
pub proof fn missing_success_always_envelope_error(env: Json, key: Seq<char>)
    requires
        env.spec_get("success"@) is None,
    ensures
        decoded_string_map(env, key) == Err::<Seq<(Seq<char>, Seq<char>)>, ErrorModel>(
            ErrorModel::Envelope(IssueModel::MissingSuccess),
        ),
        decoded_number_map(env, key) == Err::<Seq<(Seq<char>, serde_json::Number)>, ErrorModel>(
            ErrorModel::Envelope(IssueModel::MissingSuccess),
        ),
        decoded_number(env, key) == Err::<serde_json::Number, ErrorModel>(
            ErrorModel::Envelope(IssueModel::MissingSuccess),
        ),
{
}

/// On every successful envelope whose payload is present but not of the
/// expected shape, decoding fails with `DecodeError`, naming the payload
/// key and the shape it expected.
pub proof fn shape_mismatch_always_decode_error(env: Json, key: Seq<char>)
    requires
        env.spec_get("success"@) == Some(Json::Bool(true)),
        env.spec_get(key) is Some,
    ensures
        !is_string_obj(env.spec_get(key)->0) ==> decoded_string_map(env, key) == Err::<
            Seq<(Seq<char>, Seq<char>)>,
            ErrorModel,
        >(ErrorModel::Decode { key, expected: Shape::StringMap }),
        !is_number_obj(env.spec_get(key)->0) ==> decoded_number_map(env, key) == Err::<
            Seq<(Seq<char>, serde_json::Number)>,
            ErrorModel,
        >(ErrorModel::Decode { key, expected: Shape::NumberMap }),
        !(env.spec_get(key)->0 is Num) ==> decoded_number(env, key) == Err::<
            serde_json::Number,
            ErrorModel,
        >(ErrorModel::Decode { key, expected: Shape::Number }),
{
}

/// Decoding is all-or-nothing: a value comes back only from an envelope
/// whose `success` flag is `true` and whose payload key is present with
/// the expected shape.
pub proof fn decoded_value_needs_successful_envelope(env: Json, key: Seq<char>)
    ensures
        decoded_string_map(env, key) is Ok ==> env.spec_get("success"@) == Some(Json::Bool(true))
            && env.spec_get(key) is Some && is_string_obj(env.spec_get(key)->0),
        decoded_number_map(env, key) is Ok ==> env.spec_get("success"@) == Some(Json::Bool(true))
            && env.spec_get(key) is Some && is_number_obj(env.spec_get(key)->0),
        decoded_number(env, key) is Ok ==> env.spec_get("success"@) == Some(Json::Bool(true))
            && env.spec_get(key) is Some && env.spec_get(key)->0 is Num,
{
}

/// Steps one to three of decoding: validate the `success` flag and take the
/// payload under `key` out of the envelope.  On a failed envelope the error
/// carries the whole envelope back.
pub fn unwrap_payload(env: Json, key: &str) -> (r: Result<Json, ClientError>)
    ensures
        match r {
            Ok(p) => payload_of(env, key@) == Ok::<Json, ErrorModel>(p),
            Err(e) => payload_of(env, key@) == Err::<Json, ErrorModel>(e@),
        },
{
    let success: bool = match env.get("success") {
        None => {
            return Err(ClientError::EnvelopeError(EnvelopeIssue::MissingSuccess));
        },
        Some(Json::Bool(b)) => *b,
        Some(_) => {
            return Err(ClientError::EnvelopeError(EnvelopeIssue::SuccessNotBool));
        },
    };
    if !success {
        return Err(ClientError::ApiError(env));
    }
    match env {
        Json::Obj(mut entries) => {
            match find_key(&entries, key) {
                Some(i) => {
                    let (_, payload) = entries.swap_remove(i);
                    Ok(payload)
                },
                None => Err(
                    ClientError::EnvelopeError(EnvelopeIssue::MissingPayload(key.to_owned())),
                ),
            }
        },
        _ => {
            // a value with a `success` key is an object
            proof {
                assert(false);
            }
            vstd::pervasive::unreached()
        },
    }
}

/// Decode the envelope's payload under `key` as a mapping from strings to
/// strings.  Returns the payload's entries exactly, in their order; fails
/// with the one error [`decoded_string_map`] owes this envelope.
pub fn decode_string_map(env: Json, key: &str) -> (r: Result<
    Vec<(String, String)>,
    ClientError,
>)
    ensures
        match r {
            Ok(m) => decoded_string_map(env, key@) == Ok::<Seq<(Seq<char>, Seq<char>)>,
                ErrorModel,
            >(string_pairs_view(m@)),
            Err(e) => decoded_string_map(env, key@) == Err::<Seq<(Seq<char>, Seq<char>)>,
                ErrorModel,
            >(e@),
        },
{
    let payload = match unwrap_payload(env, key) {
        Ok(p) => p,
        Err(e) => {
            return Err(e);
        },
    };
    let ghost gp: Json = payload;
    match payload {
        Json::Obj(entries) => {
            let n = entries.len();
            let mut out: Vec<(String, String)> = Vec::new();
            let mut i: usize = 0;
            while i < n
                invariant
                    i <= n,
                    n == entries@.len(),
                    gp matches Json::Obj(v) && v@ == entries@,
                    payload_of(env, key@) == Ok::<Json, ErrorModel>(gp),
                    out@.len() == i,
                    forall|j: int| 0 <= j < i ==> entries@[j].1 is Str,
                    forall|j: int| 0 <= j < i ==> out@[j].0@ == entries@[j].0@
                        && out@[j].1@ == entries@[j].1->Str_0@,
                decreases n - i,
            {
                let pair = &entries[i];
                match &pair.1 {
                    Json::Str(s) => {
                        out.push((pair.0.clone(), s.clone()));
                    },
                    _ => {
                        proof {
                            assert(!is_string_obj(gp));
                        }
                        return Err(
                            ClientError::DecodeError {
                                key: key.to_owned(),
                                expected: Shape::StringMap,
                            },
                        );
                    },
                }
                i = i + 1;
            }
            proof {
                assert(is_string_obj(gp));
                assert(string_pairs_view(out@) =~= string_entries(gp));
            }
            Ok(out)
        },
        _ => {
            proof {
                assert(!is_string_obj(gp));
            }
            Err(ClientError::DecodeError { key: key.to_owned(), expected: Shape::StringMap })
        },
    }
}

/// Decode the envelope's payload under `key` as a mapping from strings to
/// numbers.  Number values are moved out untouched; fails with the one
/// error [`decoded_number_map`] owes this envelope.
pub fn decode_number_map(env: Json, key: &str) -> (r: Result<
    Vec<(String, serde_json::Number)>,
    ClientError,
>)
    ensures
        match r {
            Ok(m) => decoded_number_map(env, key@) == Ok::<
                Seq<(Seq<char>, serde_json::Number)>,
                ErrorModel,
            >(number_pairs_view(m@)),
            Err(e) => decoded_number_map(env, key@) == Err::<
                Seq<(Seq<char>, serde_json::Number)>,
                ErrorModel,
            >(e@),
        },
{
    let payload = match unwrap_payload(env, key) {
        Ok(p) => p,
        Err(e) => {
            return Err(e);
        },
    };
    let ghost gp: Json = payload;
    match payload {
        Json::Obj(entries) => {
            let n = entries.len();
            let mut out: Vec<(String, serde_json::Number)> = Vec::new();
            let mut i: usize = 0;
            while i < n
                invariant
                    i <= n,
                    n == entries@.len(),
                    gp matches Json::Obj(v) && v@ == entries@,
                    payload_of(env, key@) == Ok::<Json, ErrorModel>(gp),
                    out@.len() == i,
                    forall|j: int| 0 <= j < i ==> entries@[j].1 is Num,
                    forall|j: int| 0 <= j < i ==> out@[j].0@ == entries@[j].0@
                        && out@[j].1 == entries@[j].1->Num_0,
                decreases n - i,
            {
                let pair = &entries[i];
                match &pair.1 {
                    Json::Num(v) => {
                        out.push((pair.0.clone(), v.clone()));
                    },
                    _ => {
                        proof {
                            assert(!is_number_obj(gp));
                        }
                        return Err(
                            ClientError::DecodeError {
                                key: key.to_owned(),
                                expected: Shape::NumberMap,
                            },
                        );
                    },
                }
                i = i + 1;
            }
            proof {
                assert(is_number_obj(gp));
                assert(number_pairs_view(out@) =~= number_entries(gp));
            }
            Ok(out)
        },
        _ => {
            proof {
                assert(!is_number_obj(gp));
            }
            Err(ClientError::DecodeError { key: key.to_owned(), expected: Shape::NumberMap })
        },
    }
}

/// Decode the envelope's payload under `key` as a bare number, moved out
/// untouched; fails with the one error [`decoded_number`] owes this
/// envelope.
pub fn decode_number(env: Json, key: &str) -> (r: Result<serde_json::Number, ClientError>)
    ensures
        match r {
            Ok(n) => decoded_number(env, key@) == Ok::<serde_json::Number, ErrorModel>(n),
            Err(e) => decoded_number(env, key@) == Err::<serde_json::Number, ErrorModel>(e@),
        },
{
    let payload = match unwrap_payload(env, key) {
        Ok(p) => p,
        Err(e) => {
            return Err(e);
        },
    };
    match payload {
        Json::Num(n) => Ok(n),
        _ => Err(ClientError::DecodeError { key: key.to_owned(), expected: Shape::Number }),
    }
}

} // verus!

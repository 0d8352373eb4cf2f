//! The two endpoint operations, on a decoded envelope.
//!
//! `list` decodes the `currencies` payload as a string-to-string mapping
//! and returns it verbatim.  `live` decodes the `quotes` payload as a
//! string-to-number mapping and strips the source currency code from the
//! front of every composite key (`EURUSD` becomes `USD`); a key that does
//! not carry the prefix is kept unchanged — a defined fallback, not an
//! error.

use vstd::prelude::*;
use vstd::string::StrSliceExecFns;

use crate::envelope::{
    decode_number_map, decode_string_map, decoded_number_map, decoded_string_map,
    number_pairs_view, string_pairs_view,
};
use crate::error::{ClientError, ErrorModel};
use crate::json::Json;

verus! {

/// `key` with `prefix` taken off its front where it starts with `prefix`,
/// and unchanged where it does not.
pub open spec fn stripped(key: Seq<char>, prefix: Seq<char>) -> Seq<char> {
    if prefix.len() <= key.len() && key.subrange(0, prefix.len() as int) == prefix {
        key.subrange(prefix.len() as int, key.len() as int)
    } else {
        key
    }
}

/// Every key of the quotes mapping with the source code stripped; the rate
/// values stand untouched.
pub open spec fn stripped_quotes(
    quotes: Seq<(Seq<char>, serde_json::Number)>,
    prefix: Seq<char>,
) -> Seq<(Seq<char>, serde_json::Number)> {
    quotes.map_values(|e: (Seq<char>, serde_json::Number)| (stripped(e.0, prefix), e.1))
}

/// Take `prefix` off the front of `key` where it starts with it; hand the
/// key back unchanged where it does not.
pub fn strip_prefix(key: &str, prefix: &str) -> (r: String)
    ensures
        r@ == stripped(key@, prefix@),
{
    let key_len = key.unicode_len();
    let prefix_len = prefix.unicode_len();
    if prefix_len <= key_len {
        let head = key.substring_char(0, prefix_len);
        let head_owned: String = head.to_owned();
        let prefix_owned: String = prefix.to_owned();
        if head_owned == prefix_owned {
            return key.substring_char(prefix_len, key_len).to_owned();
        }
    }
    key.to_owned()
}

/// Decode a `list` response envelope: the `currencies` payload, a mapping
/// from currency code to display name, returned exactly as it stands.
pub fn list_from_envelope(env: Json) -> (r: Result<Vec<(String, String)>, ClientError>)
    ensures
        match r {
            Ok(m) => decoded_string_map(env, "currencies"@) == Ok::<
                Seq<(Seq<char>, Seq<char>)>,
                ErrorModel,
            >(string_pairs_view(m@)),
            Err(e) => decoded_string_map(env, "currencies"@) == Err::<
                Seq<(Seq<char>, Seq<char>)>,
                ErrorModel,
            >(e@),
        },
{
    decode_string_map(env, "currencies")
}

/// Decode a `live` response envelope: the `quotes` payload, a mapping from
/// composite symbol to rate, with the source code stripped from the front
/// of every key and every rate untouched.
pub fn live_from_envelope(env: Json, source: &str) -> (r: Result<
    Vec<(String, serde_json::Number)>,
    ClientError,
>)
    requires
        source@.len() > 0,
    ensures
        match r {
            Ok(m) => decoded_number_map(env, "quotes"@) matches Ok(q) && number_pairs_view(m@)
                == stripped_quotes(q, source@),
            Err(e) => decoded_number_map(env, "quotes"@) == Err::<
                Seq<(Seq<char>, serde_json::Number)>,
                ErrorModel,
            >(e@),
        },
{
    let quotes = match decode_number_map(env, "quotes") {
        Ok(q) => q,
        Err(e) => {
            return Err(e);
        },
    };
    let n = quotes.len();
    let mut out: Vec<(String, serde_json::Number)> = Vec::new();
    let mut i: usize = 0;
    while i < n
        invariant
            i <= n,
            n == quotes@.len(),
            decoded_number_map(env, "quotes"@) == Ok::<
                Seq<(Seq<char>, serde_json::Number)>,
                ErrorModel,
            >(number_pairs_view(quotes@)),
            source@.len() > 0,
            out@.len() == i,
            forall|j: int| 0 <= j < i ==> #[trigger] out@[j].0@ == stripped(
                quotes@[j].0@,
                source@,
            ) && out@[j].1 == quotes@[j].1,
        decreases n - i,
    {
        let pair = &quotes[i];
        out.push((strip_prefix(pair.0.as_str(), source), pair.1.clone()));
        i = i + 1;
    }
    proof {
        assert(number_pairs_view(out@) =~= stripped_quotes(number_pairs_view(quotes@), source@));
    }
    Ok(out)
}

} // verus!

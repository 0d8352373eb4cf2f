//! Request construction: endpoint URLs and query parameters.
//!
//! A query value is encoded the way an `application/x-www-form-urlencoded`
//! serializer encodes it: ASCII alphanumerics and `*`, `-`, `.`, `_` stand
//! unchanged, a space becomes `+`, and every other byte of the value's
//! UTF-8 form becomes `%` followed by two uppercase hex digits.

use vstd::prelude::*;
use vstd::string::StringExecFns;
use vstd::string::StringSliceAdditionalSpecFns;
use vstd::utf8::encode_utf8;

verus! {

/// A byte the form serializer passes through unchanged: an ASCII
/// alphanumeric, or one of `*`, `-`, `.`, `_`.
pub open spec fn passes_unchanged(b: u8) -> bool {
    ||| b == 0x2a
    ||| b == 0x2d
    ||| b == 0x2e
    ||| b == 0x5f
    ||| 0x30 <= b <= 0x39
    ||| 0x41 <= b <= 0x5a
    ||| 0x61 <= b <= 0x7a
}

/// The uppercase hex digit for a value below sixteen.
pub open spec fn hex_digit(n: u8) -> char
    recommends
        n < 16,
{
    if n < 10 {
        ((n + 0x30) as u8) as char
    } else {
        ((n + 0x37) as u8) as char
    }
}

/// What one byte of a query value becomes in the encoded form.
pub open spec fn encoded_byte(b: u8) -> Seq<char> {
    if b == 0x20 {
        seq!['+']
    } else if passes_unchanged(b) {
        seq![b as char]
    } else {
        seq!['%', hex_digit(b / 16), hex_digit(b % 16)]
    }
}

/// The encoded form of a whole byte sequence.
pub open spec fn form_encoded(bytes: Seq<u8>) -> Seq<char>
    decreases bytes.len(),
{
    if bytes.len() == 0 {
        Seq::empty()
    } else {
        encoded_byte(bytes[0]) + form_encoded(bytes.drop_first())
    }
}

/// The items joined with a comma between each two neighbours.
pub open spec fn comma_joined(items: Seq<Seq<char>>) -> Seq<char>
    decreases items.len(),
{
    if items.len() == 0 {
        Seq::empty()
    } else if items.len() == 1 {
        items[0]
    } else {
        comma_joined(items.drop_last()) + seq![','] + items.last()
    }
}

/// The character sequences of a sequence of strings.
pub open spec fn views_of(items: Seq<String>) -> Seq<Seq<char>> {
    items.map_values(|s: String| s@)
}

/// The characters a byte sequence reads as when every byte is ASCII.
pub open spec fn ascii_chars_of(bytes: Seq<u8>) -> Seq<char> {
    bytes.map_values(|b: u8| b as char)
}

/// Relies on `String::from_utf8`: on bytes that are all ASCII it returns
/// the string reading those bytes, one character per byte.
#[verifier::external_body]
fn ascii_string(bytes: Vec<u8>) -> (r: String)
    requires
        forall|i: int| 0 <= i < bytes@.len() ==> bytes@[i] < 0x80,
    ensures
        r@ == ascii_chars_of(bytes@),
{
    String::from_utf8(bytes).unwrap_or_default()
}

/// The uppercase hex digit for a value below sixteen.
fn hex_digit_byte(n: u8) -> (r: u8)
    requires
        n < 16,
    ensures
        r as char == hex_digit(n),
        r < 0x80,
{
    if n < 10 {
        n + 0x30
    } else {
        n + 0x37
    }
}

/// Encode one value for use in a query string.
pub fn encode_query_value(s: &str) -> (r: String)
    ensures
        r@ == form_encoded(s.spec_bytes()),
{
    let bytes: &[u8] = s.as_bytes();
    let n = bytes.len();
    let mut out: Vec<u8> = Vec::new();
    let mut i: usize = 0;
    proof {
        assert(bytes@.subrange(0, 0) =~= Seq::<u8>::empty());
        assert(ascii_chars_of(out@) =~= form_encoded(bytes@.subrange(0, 0)));
    }
    while i < n
        invariant
            i <= n,
            n == bytes@.len(),
            bytes@ == s.spec_bytes(),
            forall|j: int| 0 <= j < out@.len() ==> out@[j] < 0x80,
            ascii_chars_of(out@) == form_encoded(bytes@.subrange(0, i as int)),
        decreases n - i,
    {
        let ghost prefix = bytes@.subrange(0, i as int);
        let ghost old_out = out@;
        let b = bytes[i];
        if b == 0x20 {
            out.push(0x2b);
        } else if b == 0x2a || b == 0x2d || b == 0x2e || b == 0x5f || (0x30 <= b && b <= 0x39)
            || (0x41 <= b && b <= 0x5a) || (0x61 <= b && b <= 0x7a) {
            out.push(b);
        } else {
            out.push(0x25);
            out.push(hex_digit_byte(b / 16));
            out.push(hex_digit_byte(b % 16));
        }
        proof {
            let next = bytes@.subrange(0, i + 1);
            assert(next.drop_last() =~= prefix);
            lemma_form_encoded_push(prefix, bytes@[i as int]);
            assert(next =~= prefix.push(bytes@[i as int]));
            assert(ascii_chars_of(out@) =~= ascii_chars_of(old_out) + ascii_chars_of(
                out@.subrange(old_out.len() as int, out@.len() as int),
            ));
            assert(ascii_chars_of(out@.subrange(old_out.len() as int, out@.len() as int))
                =~= encoded_byte(bytes@[i as int]));
        }
        i = i + 1;
    }
    proof {
        assert(bytes@.subrange(0, n as int) =~= bytes@);
    }
    ascii_string(out)
}

/// Join currency codes with a comma between each two neighbours.
pub fn join_codes(codes: &Vec<String>) -> (r: String)
    ensures
        r@ == comma_joined(views_of(codes@)),
{
    let n = codes.len();
    let mut out = String::new();
    let mut i: usize = 0;
    proof {
        reveal_strlit(",");
        assert(views_of(codes@.subrange(0, 0)) =~= Seq::<Seq<char>>::empty());
        assert(comma_joined(views_of(codes@.subrange(0, 0))) == Seq::<char>::empty());
    }
    while i < n
        invariant
            i <= n,
            n == codes@.len(),
            ","@ == seq![','],
            out@ == comma_joined(views_of(codes@.subrange(0, i as int))),
        decreases n - i,
    {
        let ghost prefix = views_of(codes@.subrange(0, i as int));
        if i > 0 {
            out.append(",");
        }
        out.append(codes[i].as_str());
        proof {
            let next = views_of(codes@.subrange(0, i + 1));
            assert(next =~= prefix.push(codes@[i as int]@));
            assert(next.drop_last() =~= prefix);
            assert(next.last() == codes@[i as int]@);
            if i == 0 {
                assert(comma_joined(next) == codes@[0].view());
            }
        }
        i = i + 1;
    }
    proof {
        assert(codes@.subrange(0, n as int) =~= codes@);
    }
    out
}

/// The query parameters of the `live` endpoint: always the source currency,
/// and, when a non-empty restriction was supplied, the comma-joined target
/// codes under `currencies`.
pub fn live_params(source: &str, currencies: Option<&Vec<String>>) -> (r: Vec<(String, String)>)
    requires
        source@.len() > 0,
    ensures
        r@.len() >= 1,
        r@[0].0@ == "source"@ && r@[0].1@ == source@,
        match currencies {
            None => r@.len() == 1,
            Some(codes) => if codes@.len() == 0 {
                r@.len() == 1
            } else {
                r@.len() == 2 && r@[1].0@ == "currencies"@ && r@[1].1@ == comma_joined(
                    views_of(codes@),
                )
            },
        },
{
    let mut params: Vec<(String, String)> = Vec::new();
    params.push(("source".to_owned(), source.to_owned()));
    match currencies {
        Some(codes) => {
            if codes.len() > 0 {
                params.push(("currencies".to_owned(), join_codes(codes)));
            }
        },
        None => {},
    }
    params
}

/// The URL of the endpoint that enumerates the supported currencies.
pub fn list_url() -> (r: String)
    ensures
        r@ == "https://api.apilayer.com/currency_data/list"@,
{
    "https://api.apilayer.com/currency_data/list".to_owned()
}

/// The URL of a `live` request: the fixed endpoint, the encoded source
/// currency, and, when a non-empty restriction was supplied, the encoded
/// comma-joined target codes.
pub open spec fn live_url_view(source: Seq<char>, currencies: Option<Seq<Seq<char>>>) -> Seq<
    char,
> {
    let head = "https://api.apilayer.com/currency_data/live?source="@ + form_encoded(
        encode_utf8(source),
    );
    match currencies {
        None => head,
        Some(codes) => if codes.len() == 0 {
            head
        } else {
            head + "&currencies="@ + form_encoded(encode_utf8(comma_joined(codes)))
        },
    }
}

/// Build the URL of a `live` request.
pub fn live_url(source: &str, currencies: Option<&Vec<String>>) -> (r: String)
    requires
        source@.len() > 0,
    ensures
        r@ == live_url_view(
            source@,
            match currencies {
                None => None,
                Some(codes) => Some(views_of(codes@)),
            },
        ),
{
    let mut url = "https://api.apilayer.com/currency_data/live?source=".to_owned();
    let encoded_source = encode_query_value(source);
    url.append(encoded_source.as_str());
    match currencies {
        Some(codes) => {
            if codes.len() > 0 {
                let joined = join_codes(codes);
                url.append("&currencies=");
                let encoded_codes = encode_query_value(joined.as_str());
                url.append(encoded_codes.as_str());
            }
        },
        None => {},
    }
    url
}

/// Appending one byte to the input appends that byte's encoding to the
/// encoded form.
proof fn lemma_form_encoded_push(bytes: Seq<u8>, b: u8)
    ensures
        form_encoded(bytes.push(b)) == form_encoded(bytes) + encoded_byte(b),
    decreases bytes.len(),
{
    if bytes.len() == 0 {
        assert(bytes.push(b).drop_first() =~= Seq::<u8>::empty());
        assert(bytes.push(b)[0] == b);
        assert(form_encoded(Seq::<u8>::empty()) == Seq::<char>::empty());
        assert(encoded_byte(b) + Seq::<char>::empty() =~= encoded_byte(b));
        assert(form_encoded(bytes.push(b)) =~= encoded_byte(b));
        assert(form_encoded(bytes) + encoded_byte(b) =~= encoded_byte(b));
    } else {
        assert(bytes.push(b).drop_first() =~= bytes.drop_first().push(b));
        lemma_form_encoded_push(bytes.drop_first(), b);
        assert(form_encoded(bytes.push(b)) =~= form_encoded(bytes) + encoded_byte(b));
    }
}

} // verus!

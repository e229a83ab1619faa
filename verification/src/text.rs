//! Text helpers: decimal numbers, UTF-8 validity and the validity of an
//! absolute URL.

use vstd::prelude::*;
use vstd::utf8::valid_utf8;

verus! {

/// The character of one decimal digit.
pub open spec fn digit_char(d: nat) -> char
    recommends
        d < 10,
{
    (48 + d) as u8 as char
}

/// The decimal numeral of a natural number, without sign or leading zeros.
pub open spec fn decimal_text(n: nat) -> Seq<char>
    decreases n,
{
    if n < 10 {
        seq![digit_char(n)]
    } else {
        decimal_text(n / 10).push(digit_char(n % 10))
    }
}

/// The content of an optional string.
pub open spec fn opt_text(o: Option<String>) -> Option<Seq<char>> {
    match o {
        Some(s) => Some(s@),
        None => None,
    }
}

/// The content of an optional byte buffer.
pub open spec fn opt_bytes(o: Option<Vec<u8>>) -> Option<Seq<u8>> {
    match o {
        Some(b) => Some(b@),
        None => None,
    }
}

/// What the URL parser says of an input: `None` where the input is an
/// absolute URL, else the parser's message for the first fault it found.
pub uninterp spec fn url_parse_failure(input: Seq<char>) -> Option<Seq<char>>;

/// Trusted: `reqwest::Url::parse`, the parser of the `url` crate.
///
/// The contract only gives the outcome a name: the parser's verdict, and its
/// message on a failure, depend on the input text alone. Nothing is claimed
/// about which inputs parse.
#[verifier::external_body]
pub(crate) fn parse_url(input: &str) -> (failure: Option<String>)
    ensures
        opt_text(failure) == url_parse_failure(input@),
{
    match reqwest::Url::parse(input) {
        Ok(_) => None,
        Err(e) => Some(e.to_string()),
    }
}

/// The JSON text of an object whose members are all strings, given as pairs of
/// key and value in the order in which they are added; `None` where the
/// serialiser reports an error.
pub uninterp spec fn json_object_text(members: Seq<(Seq<char>, Seq<char>)>) -> Option<Seq<char>>;

/// Trusted: `serde_json::to_string` on a `serde_json::Value` that is an object
/// of string members.
///
/// The contract only gives the outcome a name: the text depends on the keys
/// and values alone. Nothing is claimed about the text itself, nor that the
/// serialiser succeeds.
#[verifier::external_body]
pub(crate) fn json_object(members: &Vec<(String, String)>) -> (text: Option<String>)
    ensures
        opt_text(text) == json_object_text(members.deep_view()),
{
    let mut object = serde_json::Map::new();
    for (key, value) in members.iter() {
        object.insert(key.clone(), serde_json::Value::String(value.clone()));
    }
    serde_json::to_string(&serde_json::Value::Object(object)).ok()
}

/// Trusted: `String::from_utf8` of the standard library, which succeeds
/// exactly on well-formed UTF-8.
#[verifier::external_body]
pub(crate) fn bytes_are_utf8(bytes: &Vec<u8>) -> (ok: bool)
    ensures
        ok == valid_utf8(bytes@),
{
    String::from_utf8(bytes.clone()).is_ok()
}

/// Trusted: `to_string` of the standard library on a `u16`, which writes the
/// number in decimal.
#[verifier::external_body]
pub(crate) fn port_text(port: u16) -> (text: String)
    ensures
        text@ == decimal_text(port as nat),
{
    port.to_string()
}

} // verus!

//! Reading request headers as text.

use vstd::prelude::*;
use vstd::utf8::is_ascii_chars;

verus! {

/// `axum::http::HeaderValue`, the raw value of one header.
#[verifier::external_type_specification]
#[verifier::external_body]
pub struct ExHeaderValue(axum::http::HeaderValue);

/// `axum::http::HeaderMap`, the headers of a request.
#[verifier::external_type_specification]
#[verifier::external_body]
#[verifier::reject_recursive_types(T)]
pub struct ExHeaderMap<T>(axum::http::HeaderMap<T>);

/// What a request's headers hold: for each header name, in small letters, the
/// bytes of the first value sent under it.
pub uninterp spec fn header_values(
    headers: axum::http::HeaderMap<axum::http::HeaderValue>,
) -> Map<Seq<char>, Seq<u8>>;

/// Whether `name` is a header name written in small letters and hyphens.
pub open spec fn plain_header_name(name: Seq<char>) -> bool {
    0 < name.len() <= 64 && forall|i: int|
        0 <= i < name.len() ==> ('a' <= #[trigger] name[i] && name[i] <= 'z') || name[i] == '-'
}

/// Whether a header byte is a visible ASCII character, a space or a tab.
pub open spec fn visible(byte: u8) -> bool {
    32 <= byte < 127 || byte == 9
}

/// The text of a header value: its bytes as characters, if every one of them
/// is visible ASCII.
pub open spec fn value_text(value: Seq<u8>) -> Option<Seq<char>> {
    if forall|i: int| 0 <= i < value.len() ==> visible(#[trigger] value[i]) {
        Some(Seq::new(value.len(), |i: int| value[i] as char))
    } else {
        None
    }
}

/// The text of the header `name`, if it was sent and is readable as text.
pub open spec fn header_text_of(values: Map<Seq<char>, Seq<u8>>, name: Seq<char>) -> Option<
    Seq<char>,
> {
    if values.contains_key(name) {
        value_text(values[name])
    } else {
        None
    }
}

/// Looks up a header with `HeaderMap::get` and copies the bytes of its value.
///
/// `get` gives the first value sent under the name and `None` if there is
/// none; names are compared in small letters.
#[verifier::external_body]
fn header_value(
    headers: &axum::http::HeaderMap<axum::http::HeaderValue>,
    name: &str,
) -> (value: Option<Vec<u8>>)
    requires
        plain_header_name(name@),
    ensures
        value is Some == header_values(*headers).contains_key(name@),
        value matches Some(bytes) ==> bytes@ == header_values(*headers)[name@],
{
    headers.get(name).map(|value| value.as_bytes().to_vec())
}

/// The text of the header `name`, if it was sent and is readable as text.
pub fn header_text(
    headers: &axum::http::HeaderMap<axum::http::HeaderValue>,
    name: &str,
) -> (text: Option<String>)
    requires
        plain_header_name(name@),
    ensures
        match text {
            Some(s) => header_text_of(header_values(*headers), name@) == Some(s@),
            None => header_text_of(header_values(*headers), name@) is None,
        },
        text matches Some(s) ==> is_ascii_chars(s@),
{
    match header_value(headers, name) {
        None => None,
        Some(bytes) => bytes_to_text(&bytes),
    }
}

/// The text of a header value.
pub fn bytes_to_text(bytes: &Vec<u8>) -> (text: Option<String>)
    ensures
        match text {
            Some(s) => value_text(bytes@) == Some(s@),
            None => value_text(bytes@) is None,
        },
        text matches Some(s) ==> is_ascii_chars(s@),
{
    let mut s = String::new();
    for i in 0..bytes.len()
        invariant
            s@.len() == i,
            forall|j: int| 0 <= j < i ==> visible(#[trigger] bytes@[j]) && s@[j] == bytes@[j] as char,
    {
        let byte: u8 = bytes[i];
        if !(32 <= byte && byte < 127 || byte == 9) {
            assert(!visible(bytes@[i as int]));
            return None;
        }
        s.push(byte as char);
    }
    assert(s@ =~= Seq::new(bytes@.len(), |i: int| bytes@[i] as char));
    Some(s)
}

/// A header value is readable exactly if each of its bytes is printable ASCII or a
/// tab, and its text is then those bytes one by one.
pub proof fn readable_value_is_its_bytes(value: Seq<u8>)
    ensures
        value_text(value) is Some <==> forall|i: int|
            0 <= i < value.len() ==> 32 <= #[trigger] value[i] <= 126 || value[i] == 9,
        value_text(value) matches Some(text) ==> text.len() == value.len() && forall|i: int|
            0 <= i < value.len() ==> #[trigger] text[i] as int == value[i],
{
    assert(forall|i: int| 0 <= i < value.len() ==> visible(#[trigger] value[i]) == (32 <= value[i]
        <= 126 || value[i] == 9));
}

/// The text of a header is that of the value sent under its name, and of no other.
pub proof fn header_text_is_of_its_name(values: Map<Seq<char>, Seq<u8>>, name: Seq<char>)
    ensures
        !values.contains_key(name) ==> header_text_of(values, name) is None,
        values.contains_key(name) ==> header_text_of(values, name) == value_text(values[name]),
{
}

} // verus!

//! Reading response headers: the header collection of the `http` crate, and
//! the numbers and text that the client layer takes out of it.

use crate::decimal::{decimal_number, parse_decimal};
use crate::text::text_view;
use http::header::{HeaderMap, HeaderValue};
use vstd::prelude::*;

verus! {

broadcast use vstd::string::is_ascii_spec_bytes;

/// The header collection of the `http` crate, taken as it is: nothing is
/// known of it but what `header_fields` names.
#[verifier::external_type_specification]
#[verifier::external_body]
#[verifier::reject_recursive_types(T)]
pub struct ExHeaderMap<T>(HeaderMap<T>);

/// One header value of the `http` crate, taken as it is: nothing is known
/// of it but what `value_bytes` names.
#[verifier::external_type_specification]
#[verifier::external_body]
pub struct ExHeaderValue(HeaderValue);

/// What a header collection holds: for each header name present, written in
/// lower case, the bytes of the first value stored under it.
pub uninterp spec fn header_fields(headers: HeaderMap<HeaderValue>) -> Map<Seq<char>, Seq<u8>>;

/// The bytes that a header value is made of.
pub uninterp spec fn value_bytes(value: HeaderValue) -> Seq<u8>;

/// A header name as the collection stores it: not empty, made of lower-case
/// letters, digits and hyphens.
pub open spec fn is_plain_name(name: Seq<char>) -> bool {
    &&& name.len() > 0
    &&& forall|i: int|
        0 <= i < name.len() ==> {
            let c = #[trigger] name[i];
            ||| 'a' <= c <= 'z'
            ||| '0' <= c <= '9'
            ||| c == '-'
        }
}

/// A visible ASCII byte, a space or a horizontal tab.
pub open spec fn is_visible(b: u8) -> bool {
    (32 <= b < 127) || b == 9
}

/// Header bytes that can be read as text: every one of them is visible.
pub open spec fn is_text(bytes: Seq<u8>) -> bool {
    forall|i: int| 0 <= i < bytes.len() ==> is_visible(#[trigger] bytes[i])
}

/// The characters that ASCII bytes stand for, one for one.
pub open spec fn text_of(bytes: Seq<u8>) -> Seq<char> {
    Seq::new(bytes.len(), |i: int| bytes[i] as char)
}

/// The text of the header `name`: `None` when the header is absent or its
/// first value holds a byte that is not visible ASCII.
pub open spec fn field_text(fields: Map<Seq<char>, Seq<u8>>, name: Seq<char>) -> Option<Seq<char>> {
    if fields.contains_key(name) && is_text(fields[name]) {
        Some(text_of(fields[name]))
    } else {
        None
    }
}

/// The number of the header `name`: `None` when the header is absent, is not
/// text, or its text is not a decimal number that fits in 64 bits.
pub open spec fn field_number(fields: Map<Seq<char>, Seq<u8>>, name: Seq<char>) -> Option<u64> {
    if fields.contains_key(name) && is_text(fields[name]) {
        decimal_number(fields[name])
    } else {
        None
    }
}

/// `HeaderMap::get` with a string key: the first value stored under `name`,
/// `None` when the collection has no header of that name. Trusted; the name
/// is asked to be in the form in which the collection stores names, so that
/// the lookup is an exact match.
#[verifier::external_body]
fn first_value<'a>(headers: &'a HeaderMap<HeaderValue>, name: &str) -> (r: Option<&'a HeaderValue>)
    requires
        is_plain_name(name@),
    ensures
        r is Some <==> header_fields(*headers).contains_key(name@),
        r matches Some(value) ==> value_bytes(*value) == header_fields(*headers)[name@],
{
    headers.get(name)
}

/// `HeaderValue::to_str`: the value as a string slice when every byte of it
/// is visible ASCII (or a tab), `None` otherwise. Trusted; the slice is the
/// value's own bytes.
#[verifier::external_body]
fn value_text<'a>(value: &'a HeaderValue) -> (r: Option<&'a str>)
    ensures
        r is Some <==> is_text(value_bytes(*value)),
        r matches Some(text) ==> text@ == text_of(value_bytes(*value)),
{
    value.to_str().ok()
}

/// The text of the header `name` in `headers`.
pub fn header_text(headers: &HeaderMap<HeaderValue>, name: &str) -> (r: Option<String>)
    requires
        is_plain_name(name@),
    ensures
        text_view(r) == field_text(header_fields(*headers), name@),
{
    match first_value(headers, name) {
        None => None,
        Some(value) => match value_text(value) {
            None => None,
            Some(text) => Some(text.to_owned()),
        },
    }
}

/// The number that the header `name` in `headers` carries.
pub fn header_number(headers: &HeaderMap<HeaderValue>, name: &str) -> (r: Option<u64>)
    requires
        is_plain_name(name@),
    ensures
        r == field_number(header_fields(*headers), name@),
{
    match first_value(headers, name) {
        None => None,
        Some(value) => match value_text(value) {
            None => None,
            Some(text) => {
                let bytes = text.as_bytes();
                proof {
                    let raw = value_bytes(*value);
                    assert(vstd::string::is_ascii(text));
                    assert(bytes@ =~= raw);
                }
                parse_decimal(bytes)
            },
        },
    }
}

} // verus!

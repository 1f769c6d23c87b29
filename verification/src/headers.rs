//! What the logic reads of an HTTP request: header fields and the query.
use axum::http::{HeaderMap, HeaderValue, Uri};
use vstd::prelude::*;
use crate::text::ascii_lowercase;

verus! {

/// The header fields of a request.
#[verifier::external_type_specification]
#[verifier::external_body]
#[verifier::reject_recursive_types(T)]
pub struct ExHeaderMap<T>(HeaderMap<T>);

/// The value of a header field.
#[verifier::external_type_specification]
#[verifier::external_body]
pub struct ExHeaderValue(HeaderValue);

/// The target of a request.
#[verifier::external_type_specification]
#[verifier::external_body]
pub struct ExUri(Uri);

/// What a map of header fields holds: for each field name, in lower case, the values of the
/// field, in the order in which they came.
pub uninterp spec fn fields(headers: HeaderMap<HeaderValue>) -> Map<Seq<char>, Seq<Seq<u8>>>;

/// The bytes that a header value holds.
pub uninterp spec fn value_bytes(value: HeaderValue) -> Seq<u8>;

/// What a request target holds behind its question mark, if it has one.
pub uninterp spec fn target_query(uri: Uri) -> Option<Seq<char>>;

/// The bytes that stand for themselves in a header value that is text: the visible ASCII
/// characters, the space and the tab.
pub open spec fn is_visible(byte: u8) -> bool {
    32 <= byte < 127 || byte == 9
}

/// A header value as text, where it holds nothing but visible ASCII.
pub open spec fn visible_text(bytes: Seq<u8>) -> Option<Seq<char>> {
    if forall|i: int| 0 <= i < bytes.len() ==> is_visible(#[trigger] bytes[i]) {
        Some(bytes.map_values(|byte: u8| byte as char))
    } else {
        None
    }
}

/// The first value of the field `name` as text, where there is such a field and its value
/// is text.
pub open spec fn field_text(headers: HeaderMap<HeaderValue>, name: Seq<char>) -> Option<
    Seq<char>,
> {
    if fields(headers).contains_key(name) {
        visible_text(fields(headers)[name][0])
    } else {
        None
    }
}

/// `HeaderMap::get`: the first value of the field, whose name is looked up without regard
/// to case.
#[verifier::external_body]
fn get<'a>(headers: &'a HeaderMap<HeaderValue>, name: &str) -> (res: Option<&'a HeaderValue>)
    ensures
        match res {
            Some(value) => fields(*headers).contains_key(ascii_lowercase(name@)) && value_bytes(
                *value,
            ) == fields(*headers)[ascii_lowercase(name@)][0],
            None => !fields(*headers).contains_key(ascii_lowercase(name@)),
        },
{
    headers.get(name)
}

/// `HeaderValue::to_str`: the value as text, or an error where it holds anything but
/// visible ASCII.
#[verifier::external_body]
fn to_str(value: &HeaderValue) -> (res: Option<&str>)
    ensures
        match res {
            Some(text) => visible_text(value_bytes(*value)) == Some(text@),
            None => visible_text(value_bytes(*value)) is None,
        },
{
    value.to_str().ok()
}

/// `Uri::query`: what stands behind the question mark of the target.
#[verifier::external_body]
pub(crate) fn query(uri: &Uri) -> (res: Option<&str>)
    ensures
        match res {
            Some(text) => target_query(*uri) == Some(text@),
            None => target_query(*uri) is None,
        },
{
    uri.query()
}

/// The first value of the field `name` as text.
pub(crate) fn field<'a>(headers: &'a HeaderMap<HeaderValue>, name: &str) -> (res: Option<&'a str>)
    ensures
        match res {
            Some(text) => field_text(*headers, ascii_lowercase(name@)) == Some(text@),
            None => field_text(*headers, ascii_lowercase(name@)) is None,
        },
{
    match get(headers, name) {
        Some(value) => to_str(value),
        None => None,
    }
}

/// A header field is text exactly where its first value holds visible ASCII alone, and the
/// text has those bytes, one for one.
pub proof fn field_text_is_the_first_value(headers: HeaderMap<HeaderValue>, name: Seq<char>)
    ensures
        !fields(headers).contains_key(name) ==> field_text(headers, name) is None,
        fields(headers).contains_key(name) ==> ({
            let bytes = fields(headers)[name][0];
            match field_text(headers, name) {
                Some(text) => {
                    &&& text.len() == bytes.len()
                    &&& forall|i: int|
                        0 <= i < bytes.len() ==> (#[trigger] text[i]) as int == bytes[i] && (
                        bytes[i] == 9 || 32 <= bytes[i] <= 126)
                },
                None => exists|i: int|
                    0 <= i < bytes.len() && (#[trigger] bytes[i]) != 9 && !(32 <= bytes[i]
                        <= 126),
            }
        }),
{
    if fields(headers).contains_key(name) {
        let bytes = fields(headers)[name][0];
        if let Some(text) = field_text(headers, name) {
            assert forall|i: int| 0 <= i < bytes.len() implies (#[trigger] text[i]) as int
                == bytes[i] && (bytes[i] == 9 || 32 <= bytes[i] <= 126) by {
                assert(is_visible(bytes[i]));
            }
        }
    }
}

} // verus!

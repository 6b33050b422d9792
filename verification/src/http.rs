//! The headers and methods of `hyper` that a request is made of, and what
//! is taken on trust of them.

use vstd::prelude::*;
use vstd::string::*;
use hyper::header::{HeaderName, HeaderValue, InvalidHeaderValue};
use hyper::{HeaderMap, Method};

verus! {

/// `hyper::header::HeaderName`, a header's name. Nothing inside it is seen
/// here.
#[verifier::external_type_specification]
#[verifier::external_body]
pub struct ExHeaderName(HeaderName);

/// `hyper::header::HeaderValue`, a header's value. Nothing inside it is seen
/// here.
#[verifier::external_type_specification]
#[verifier::external_body]
pub struct ExHeaderValue(HeaderValue);

/// `hyper::header::InvalidHeaderValue`, the error of a text that is no
/// header value.
#[verifier::external_type_specification]
#[verifier::external_body]
pub struct ExInvalidHeaderValue(InvalidHeaderValue);

/// `hyper::HeaderMap`, the headers of a request. Nothing inside it is seen
/// here.
#[verifier::external_type_specification]
#[verifier::external_body]
#[verifier::reject_recursive_types(T)]
pub struct ExHeaderMap<T>(HeaderMap<T>);

/// `hyper::Method`, a request method. Nothing inside it is seen here.
#[verifier::external_type_specification]
#[verifier::external_body]
pub struct ExMethod(Method);

/// A header's name as `HeaderName::as_str` gives it, in lower case.
pub uninterp spec fn header_name_text(name: HeaderName) -> Seq<char>;

/// The bytes that a header value holds.
pub uninterp spec fn header_value_bytes(value: HeaderValue) -> Seq<u8>;

/// What a header map holds: under each name the values given for it, in the
/// order in which they were added.
pub uninterp spec fn header_map_values(headers: HeaderMap<HeaderValue>) -> Map<Seq<char>, Seq<Seq<u8>>>;

/// A header map that holds nothing.
pub open spec fn no_headers() -> Map<Seq<char>, Seq<Seq<u8>>> {
    Map::empty()
}

/// A request method as `Method::as_str` gives it.
pub uninterp spec fn method_text(method: Method) -> Seq<char>;

/// Whether a character may stand in a header value: anything but the control
/// characters, the tab excepted.
pub open spec fn header_char_ok(c: char) -> bool {
    (c as u32 >= 32 && c as u32 != 127) || c == '\t'
}

/// Whether a text can be a header value.
pub open spec fn header_text_ok(text: Seq<char>) -> bool {
    forall|i: int| 0 <= i < text.len() ==> header_char_ok(#[trigger] text[i])
}

/// The most names a header map may hold for another to be appended without
/// question.
pub const HEADER_NAMES_MAX: usize = 1024;

/// `HeaderValue::from_str`: it accepts a text whose bytes are all 32 or more
/// and not 127, or a tab, and the value then holds the text's bytes. Every
/// byte of a character beyond ASCII is 128 or more, so the test on bytes is
/// the test on characters that `header_text_ok` makes.
#[verifier::external_body]
pub(crate) fn header_value_from_str(text: &str) -> (parsed: Result<HeaderValue, InvalidHeaderValue>)
    ensures
        parsed is Ok <==> header_text_ok(text@),
        parsed matches Ok(value) ==> header_value_bytes(value) == text.spec_bytes(),
{
    HeaderValue::from_str(text)
}

/// Tests whether a text can be a header value, by having it parsed as one.
pub fn is_header_text(text: &str) -> (fits: bool)
    ensures
        fits == header_text_ok(text@),
{
    header_value_from_str(text).is_ok()
}

/// The constant `hyper::header::AUTHORIZATION`, whose name is
/// `authorization`.
#[verifier::external_body]
pub(crate) fn authorization() -> (name: HeaderName)
    ensures
        header_name_text(name) == "authorization"@,
{
    hyper::header::AUTHORIZATION
}

/// The constant `hyper::header::CONTENT_TYPE`, whose name is `content-type`.
#[verifier::external_body]
pub(crate) fn content_type() -> (name: HeaderName)
    ensures
        header_name_text(name) == "content-type"@,
{
    hyper::header::CONTENT_TYPE
}

/// `HeaderMap::new`: a map that holds nothing.
#[verifier::external_body]
pub(crate) fn header_map_new() -> (headers: HeaderMap<HeaderValue>)
    ensures
        header_map_values(headers) == no_headers(),
{
    HeaderMap::new()
}

/// `HeaderMap::append`: the value is added behind those that the name already
/// has, and the result tells whether the name had any. The call panics only
/// where the map's table would have to grow beyond 32768 slots, and the table
/// doubles only when a fifth of it or more is in use: a map of at most
/// `HEADER_NAMES_MAX` names is far from that.
#[verifier::external_body]
pub(crate) fn header_map_append(headers: &mut HeaderMap<HeaderValue>, name: HeaderName, value: HeaderValue) -> (known: bool)
    requires
        header_map_values(*old(headers)).dom().finite(),
        header_map_values(*old(headers)).dom().len() <= HEADER_NAMES_MAX,
    ensures
        known == header_map_values(*old(headers)).contains_key(header_name_text(name)),
        header_map_values(*final(headers)) == header_map_values(*old(headers)).insert(
            header_name_text(name),
            if known {
                header_map_values(*old(headers))[header_name_text(name)].push(header_value_bytes(value))
            } else {
                seq![header_value_bytes(value)]
            },
        ),
{
    headers.append(name, value)
}

/// The constant `hyper::Method::GET`.
#[verifier::external_body]
pub(crate) fn method_get() -> (method: Method)
    ensures
        method_text(method) == "GET"@,
{
    Method::GET
}

/// The constant `hyper::Method::PUT`.
#[verifier::external_body]
pub(crate) fn method_put() -> (method: Method)
    ensures
        method_text(method) == "PUT"@,
{
    Method::PUT
}

} // verus!

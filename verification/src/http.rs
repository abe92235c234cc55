//! Plain-value model of the HTTP messages that pass through the gateway.
//!
//! Header values are kept as text, one character per byte of the wire value,
//! so that a value survives a round trip through the gateway unchanged.

use vstd::prelude::*;
use crate::text::{chars_of, eq_ignore_case, same_chars_ignore_case};

verus! {

/// One header line.
#[derive(Clone, Debug, PartialEq, Eq)]
pub struct Header {
    pub name: String,
    pub value: String,
}

/// Mathematical model of a [`Header`].
pub struct HeaderView {
    pub name: Seq<char>,
    pub value: Seq<char>,
}

impl DeepView for Header {
    type V = HeaderView;

    open spec fn deep_view(&self) -> HeaderView {
        HeaderView { name: self.name@, value: self.value@ }
    }
}

impl View for Header {
    type V = HeaderView;

    open spec fn view(&self) -> HeaderView {
        self.deep_view()
    }
}

/// An inbound request as the router sees it.
#[derive(Clone, Debug, PartialEq, Eq)]
pub struct Request {
    pub method: String,
    pub path: String,
    pub query: Option<String>,
    pub headers: Vec<Header>,
    pub body: Vec<u8>,
}

/// Mathematical model of a [`Request`].
pub struct RequestView {
    pub method: Seq<char>,
    pub path: Seq<char>,
    pub query: Option<Seq<char>>,
    pub headers: Seq<HeaderView>,
    pub body: Seq<u8>,
}

impl DeepView for Request {
    type V = RequestView;

    open spec fn deep_view(&self) -> RequestView {
        RequestView {
            method: self.method@,
            path: self.path@,
            query: self.query.deep_view(),
            headers: self.headers.deep_view(),
            body: self.body@,
        }
    }
}

impl View for Request {
    type V = RequestView;

    open spec fn view(&self) -> RequestView {
        self.deep_view()
    }
}

/// A response: one received from an upstream, or one handed back to the
/// hosted application.
#[derive(Clone, Debug, PartialEq, Eq)]
pub struct Response {
    pub status: u16,
    pub headers: Vec<Header>,
    pub body: Vec<u8>,
}

/// Mathematical model of a [`Response`].
pub struct ResponseView {
    pub status: u16,
    pub headers: Seq<HeaderView>,
    pub body: Seq<u8>,
}

impl DeepView for Response {
    type V = ResponseView;

    open spec fn deep_view(&self) -> ResponseView {
        ResponseView { status: self.status, headers: self.headers.deep_view(), body: self.body@ }
    }
}

impl View for Response {
    type V = ResponseView;

    open spec fn view(&self) -> ResponseView {
        self.deep_view()
    }
}

/// A header with the given name and value.
pub open spec fn header(name: Seq<char>, value: Seq<char>) -> HeaderView {
    HeaderView { name, value }
}

/// Value of the first header among `headers[from..]` whose name is `name`,
/// ignoring the case of ASCII letters.
pub open spec fn first_header_from(headers: Seq<HeaderView>, name: Seq<char>, from: int) -> Option<
    Seq<char>,
>
    decreases headers.len() - from,
{
    if from < 0 || from >= headers.len() {
        None
    } else if eq_ignore_case(headers[from].name, name) {
        Some(headers[from].value)
    } else {
        first_header_from(headers, name, from + 1)
    }
}

/// Value of the first header called `name`, ignoring the case of ASCII
/// letters.
pub open spec fn first_header(headers: Seq<HeaderView>, name: Seq<char>) -> Option<Seq<char>> {
    first_header_from(headers, name, 0)
}

/// The response every gateway-made message starts from: the given status,
/// a content type, a wildcard CORS origin, and the body.
pub open spec fn plain_response(status: u16, content_type: Seq<char>, body: Seq<u8>)
    -> ResponseView {
    ResponseView {
        status,
        headers: seq![
            header("content-type"@, content_type),
            header("Access-Control-Allow-Origin"@, "*"@),
        ],
        body,
    }
}

/// The `text/plain` response that carries `message` as its body.
pub open spec fn error_response(status: u16, message: Seq<char>) -> ResponseView {
    plain_response(status, "text/plain"@, vstd::utf8::encode_utf8(message))
}

/// Builds a header from two string slices.
pub fn make_header(name: &str, value: &str) -> (h: Header)
    ensures
        h@ == header(name@, value@),
{
    Header { name: name.to_owned(), value: value.to_owned() }
}

/// Copies a header.
pub fn copy_header(h: &Header) -> (r: Header)
    ensures
        r@ == h@,
{
    Header { name: h.name.clone(), value: h.value.clone() }
}

/// Looks up the value of the first header called `name`, ignoring the case
/// of ASCII letters.
pub fn first_header_value<'a>(headers: &'a Vec<Header>, name: &str) -> (r: Option<&'a str>)
    ensures
        r.deep_view() == first_header(headers.deep_view(), name@),
{
    let wanted = chars_of(name);
    let mut i: usize = 0;
    while i < headers.len()
        invariant
            i <= headers.len(),
            wanted@ == name@,
            first_header(headers.deep_view(), name@) == first_header_from(
                headers.deep_view(),
                name@,
                i as int,
            ),
        decreases headers.len() - i,
    {
        let candidate = chars_of(headers[i].name.as_str());
        if same_chars_ignore_case(candidate.as_slice(), wanted.as_slice()) {
            return Some(headers[i].value.as_str());
        }
        i += 1;
    }
    None
}

/// The gateway's basic response (see [`plain_response`]).
pub fn create_response(status: u16, content_type: &str, body: Vec<u8>) -> (r: Response)
    ensures
        r@ == plain_response(status, content_type@, body@),
{
    let mut headers: Vec<Header> = Vec::new();
    headers.push(make_header("content-type", content_type));
    headers.push(make_header("Access-Control-Allow-Origin", "*"));
    let r = Response { status, headers, body };
    assert(r@.headers =~= plain_response(status, content_type@, body@).headers);
    r
}

/// A `text/plain` response whose body is `message`.
pub fn create_error_response(status: u16, message: &str) -> (r: Response)
    ensures
        r@ == error_response(status, message@),
{
    create_response(status, "text/plain", message.as_bytes_vec())
}

} // verus!

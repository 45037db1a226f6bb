//! Requests and responses of the bridge, and the headers every response carries.

use vstd::prelude::*;
use vstd::utf8::encode_utf8;

verus! {

/// Status of a request that was served.
pub const STATUS_OK: u16 = 200;

/// Status of a request whose body could not be decoded.
pub const STATUS_BAD_REQUEST: u16 = 400;

/// Status of a request for a path that names neither an asset nor a command.
pub const STATUS_NOT_FOUND: u16 = 404;

/// Status of a request whose command failed, or whose result could not be encoded.
pub const STATUS_INTERNAL_SERVER_ERROR: u16 = 500;

/// Status of a request for an asset whose extension has no media type.
pub const STATUS_NOT_IMPLEMENTED: u16 = 501;

/// Name of the header that opens a response to every origin.
pub const ALLOW_ORIGIN: &'static str = "access-control-allow-origin";

/// Name of the header that lists the headers a page script may read.
pub const EXPOSE_HEADERS: &'static str = "access-control-expose-headers";

/// Name of the header that marks a response as coming from the bridge.
pub const BRIDGE_HEADER: &'static str = "tauri-response";

/// The bridge header's name as the expose-headers value spells it.
pub const BRIDGE_HEADER_EXPOSED: &'static str = "Tauri-Response";

/// Value of the bridge header.
pub const BRIDGE_SENTINEL: &'static str = "ok";

/// Value of the allow-origin header.
pub const ANY_ORIGIN: &'static str = "*";

/// Name of the header that gives the media type of the body.
pub const CONTENT_TYPE: &'static str = "content-type";

/// Media type of a plain-text body.
pub const TEXT_PLAIN: &'static str = "text/plain";

/// Media type of a structured-data body.
pub const APPLICATION_JSON: &'static str = "application/json";

/// Body of the response to a path that nothing answers.
pub const NOT_FOUND_TEXT: &'static str = "page not found";

/// Body of the response to an asset whose extension has no media type.
pub const NOT_IMPLEMENTED_TEXT: &'static str = "not yet implemented for the ext of the path";

/// A request as the content view issued it.
#[derive(Debug)]
pub struct Request {
    /// The request method.
    pub method: String,
    /// The scheme of the request's address.
    pub scheme: String,
    /// The host of the request's address.
    pub host: String,
    /// The path of the request's address: the routing key.
    pub path: String,
    /// The request headers, in the order received.
    pub headers: Vec<(String, String)>,
    /// The payload.
    pub body: Vec<u8>,
}

/// What a response holds: a status, headers in order, and a body.
pub struct ResponseView {
    pub status: u16,
    pub headers: Seq<(Seq<char>, Seq<char>)>,
    pub body: Seq<u8>,
}

/// A response of the bridge. Its first three headers are always the fixed ones
/// of [`bridge_headers`].
pub struct Response {
    status: u16,
    headers: Vec<(String, String)>,
    body: Vec<u8>,
}

/// The headers that every response starts with: open to every origin, the
/// bridge header exposed, and the bridge header itself.
pub open spec fn bridge_headers() -> Seq<(Seq<char>, Seq<char>)> {
    seq![
        (ALLOW_ORIGIN@, ANY_ORIGIN@),
        (EXPOSE_HEADERS@, BRIDGE_HEADER_EXPOSED@),
        (BRIDGE_HEADER@, BRIDGE_SENTINEL@),
    ]
}

/// The response with the fixed headers, then the content type, and `body`.
pub open spec fn response(status: u16, content_type: Seq<char>, body: Seq<u8>) -> ResponseView {
    ResponseView { status, headers: bridge_headers().push((CONTENT_TYPE@, content_type)), body }
}

/// The plain-text response whose body is `text` in UTF-8.
pub open spec fn text_response(status: u16, text: Seq<char>) -> ResponseView {
    response(status, TEXT_PLAIN@, encode_utf8(text))
}

/// The value of the first header called `name`, if there is one.
pub open spec fn first_value(headers: Seq<(Seq<char>, Seq<char>)>, name: Seq<char>) -> Option<
    Seq<char>,
>
    decreases headers.len(),
{
    if headers.len() == 0 {
        None
    } else if headers[0].0 == name {
        Some(headers[0].1)
    } else {
        first_value(headers.skip(1), name)
    }
}

/// The content type of [`response`] is the one it was made with.
pub proof fn response_content_type(status: u16, content_type: Seq<char>, body: Seq<u8>)
    ensures
        first_value(response(status, content_type, body).headers, CONTENT_TYPE@) == Some(
            content_type,
        ),
{
    reveal_strlit("access-control-allow-origin");
    reveal_strlit("access-control-expose-headers");
    reveal_strlit("tauri-response");
    reveal_strlit("content-type");
    let headers = response(status, content_type, body).headers;
    assert(CONTENT_TYPE@.len() == 12);
    let tail1 = headers.skip(1);
    let tail2 = tail1.skip(1);
    let tail3 = tail2.skip(1);
    assert(first_value(tail3, CONTENT_TYPE@) == Some(content_type));
    assert(first_value(tail2, CONTENT_TYPE@) == Some(content_type));
    assert(first_value(tail1, CONTENT_TYPE@) == Some(content_type));
}

impl View for Response {
    type V = ResponseView;

    closed spec fn view(&self) -> ResponseView {
        ResponseView {
            status: self.status,
            headers: self.headers.deep_view(),
            body: self.body@,
        }
    }
}

impl Response {
    /// The response starts with the fixed headers by which a page script tells
    /// bridge traffic from other traffic. This holds of every response.
    #[verifier::type_invariant]
    pub open spec fn is_bridge_response(self) -> bool {
        bridge_headers().is_prefix_of(self@.headers)
    }

    /// A response with the fixed headers, the content type and the body.
    pub fn new(status: u16, content_type: &str, body: Vec<u8>) -> (r: Response)
        ensures
            r@ == response(status, content_type@, body@),
    {
        let mut headers: Vec<(String, String)> = Vec::new();
        headers.push((String::from_str(ALLOW_ORIGIN), String::from_str(ANY_ORIGIN)));
        headers.push((String::from_str(EXPOSE_HEADERS), String::from_str(BRIDGE_HEADER_EXPOSED)));
        headers.push((String::from_str(BRIDGE_HEADER), String::from_str(BRIDGE_SENTINEL)));
        headers.push((String::from_str(CONTENT_TYPE), String::from_str(content_type)));
        assert(headers.deep_view() =~= bridge_headers().push((CONTENT_TYPE@, content_type@)));
        Response { status, headers, body }
    }

    /// A plain-text response whose body is `text` in UTF-8.
    pub fn text(status: u16, text: &str) -> (r: Response)
        ensures
            r@ == text_response(status, text@),
    {
        Response::new(status, TEXT_PLAIN, text.as_bytes_vec())
    }

    /// The same response with one more header at the end.
    pub fn with_header(self, name: &str, value: &str) -> (r: Response)
        ensures
            r@ == (ResponseView { headers: self@.headers.push((name@, value@)), ..self@ }),
    {
        proof {
            use_type_invariant(&self);
        }
        let Response { status, mut headers, body } = self;
        let ghost before = headers.deep_view();
        headers.push((String::from_str(name), String::from_str(value)));
        assert(headers.deep_view() =~= before.push((name@, value@)));
        Response { status, headers, body }
    }

    /// The status code.
    pub fn status(&self) -> (status: u16)
        ensures
            status == self@.status,
    {
        self.status
    }

    /// The headers, in order.
    pub fn headers(&self) -> (headers: &Vec<(String, String)>)
        ensures
            headers.deep_view() == self@.headers,
    {
        &self.headers
    }

    /// The body.
    pub fn body(&self) -> (body: &Vec<u8>)
        ensures
            body@ == self@.body,
    {
        &self.body
    }

    /// The body, given up by the response.
    pub fn into_body(self) -> (body: Vec<u8>)
        ensures
            body@ == self@.body,
    {
        self.body
    }

    /// The value of the first header called `name`, if there is one.
    pub fn header(&self, name: &str) -> (value: Option<&String>)
        ensures
            match value {
                Some(v) => first_value(self@.headers, name@) == Some(v@),
                None => first_value(self@.headers, name@) is None,
            },
    {
        let wanted = String::from_str(name);
        let mut i: usize = 0;
        assert(self@.headers.skip(0) =~= self@.headers);
        while i < self.headers.len()
            invariant
                i <= self.headers.len(),
                wanted@ == name@,
                first_value(self@.headers, name@) == first_value(
                    self@.headers.skip(i as int),
                    name@,
                ),
            decreases self.headers.len() - i,
        {
            let ghost rest = self@.headers.skip(i as int);
            assert(rest.skip(1) =~= self@.headers.skip(i + 1));
            if self.headers[i].0 == wanted {
                return Some(&self.headers[i].1);
            }
            i += 1;
        }
        None
    }
}

/// The response to a path that names neither an asset nor a command.
pub fn page_not_found() -> (r: Response)
    ensures
        r@ == text_response(STATUS_NOT_FOUND, NOT_FOUND_TEXT@),
{
    Response::text(STATUS_NOT_FOUND, NOT_FOUND_TEXT)
}

/// The response to an asset whose extension has no media type.
pub fn not_yet_implemented() -> (r: Response)
    ensures
        r@ == text_response(STATUS_NOT_IMPLEMENTED, NOT_IMPLEMENTED_TEXT@),
{
    Response::text(STATUS_NOT_IMPLEMENTED, NOT_IMPLEMENTED_TEXT)
}

/// The response to a failure inside the bridge, described by `content`.
pub fn internal_server_err(content: &str) -> (r: Response)
    ensures
        r@ == text_response(STATUS_INTERNAL_SERVER_ERROR, content@),
{
    Response::text(STATUS_INTERNAL_SERVER_ERROR, content)
}

/// The response to a request whose body could not be decoded, described by `content`.
pub fn bad_request(content: &str) -> (r: Response)
    ensures
        r@ == text_response(STATUS_BAD_REQUEST, content@),
{
    Response::text(STATUS_BAD_REQUEST, content)
}

} // verus!

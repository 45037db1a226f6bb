//! Delivery: a response goes out as it is where the `http` crate takes its
//! status and headers, and as a 500 that reports the fault where it does not.

use crate::message::{
    internal_server_err, response, text_response, Response, ResponseView, ALLOW_ORIGIN,
    ANY_ORIGIN, APPLICATION_JSON, BRIDGE_HEADER, BRIDGE_HEADER_EXPOSED, BRIDGE_SENTINEL,
    CONTENT_TYPE, EXPOSE_HEADERS, STATUS_INTERNAL_SERVER_ERROR, TEXT_PLAIN,
};
use vstd::prelude::*;
use vstd::utf8::{encode_utf8, is_ascii_chars, is_ascii_chars_encode_utf8};

verus! {

/// The fault that `http` finds in a status or a header, carried as it is.
#[verifier::external_type_specification]
#[verifier::external_body]
pub struct ExHttpError(http::Error);

/// The longest name of a header that `http` takes, in bytes.
pub const MAX_HEADER_NAME_LEN: usize = 65535;

/// A byte that `http` takes in the name of a header: a letter, a digit, or one
/// of ``!#$%&'*+-.^_`|~``.
pub open spec fn is_token_byte(byte: u8) -> bool {
    ||| byte == 33
    ||| 35 <= byte <= 39
    ||| byte == 42
    ||| byte == 43
    ||| byte == 45
    ||| byte == 46
    ||| 48 <= byte <= 57
    ||| 65 <= byte <= 90
    ||| 94 <= byte <= 122
    ||| byte == 124
    ||| byte == 126
}

/// A text that `http` takes as the name of a header: it is not empty and not
/// longer than [`MAX_HEADER_NAME_LEN`], and each byte of its UTF-8 form is
/// one that `http` takes in a name.
pub open spec fn http_header_name(name: Seq<char>) -> bool {
    &&& 1 <= encode_utf8(name).len() <= MAX_HEADER_NAME_LEN
    &&& forall|k: int|
        0 <= k < encode_utf8(name).len() ==> is_token_byte(#[trigger] encode_utf8(name)[k])
}

/// A character whose one byte `http` takes in the name of a header.
pub open spec fn is_token_char(c: char) -> bool {
    '\0' <= c <= '\u{7f}' && is_token_byte(c as u8)
}

/// A character that shows: from the space up to the tilde.
pub open spec fn is_visible_char(c: char) -> bool {
    ' ' <= c <= '~'
}

/// A byte that `http` takes in the value of a header: a tab, or anything from
/// the space on but the delete character.
pub open spec fn is_value_byte(byte: u8) -> bool {
    (byte >= 32 && byte != 127) || byte == 9
}

/// A text that `http` takes as the value of a header: each byte of its UTF-8
/// form is one that it takes.
pub open spec fn http_header_value(value: Seq<char>) -> bool {
    forall|k: int|
        0 <= k < encode_utf8(value).len() ==> is_value_byte(#[trigger] encode_utf8(value)[k])
}

/// A status that `http` takes: from 100 up to 999.
pub open spec fn http_status(status: u16) -> bool {
    100 <= status <= 999
}

/// A response that `http` takes: its status and each of its headers.
pub open spec fn http_accepts(r: ResponseView) -> bool {
    &&& http_status(r.status)
    &&& forall|k: int|
        0 <= k < r.headers.len() ==> http_header_name((#[trigger] r.headers[k]).0)
            && http_header_value(r.headers[k].1)
}

/// `r` where there is no fault, else the response that reports the fault.
pub open spec fn degraded(r: ResponseView, fault: Option<String>) -> ResponseView {
    match fault {
        None => r,
        Some(text) => text_response(STATUS_INTERNAL_SERVER_ERROR, text@),
    }
}

/// `out` is what is delivered for `r`: `r` itself where `http` takes it, else
/// a response with status 500 that describes the fault in plain text. Either
/// way `http` takes it.
pub open spec fn delivered(r: ResponseView, out: ResponseView) -> bool {
    &&& http_accepts(out)
    &&& if http_accepts(r) {
        out == r
    } else {
        exists|text: Seq<char>| out == #[trigger] text_response(STATUS_INTERNAL_SERVER_ERROR, text)
    }
}

/// A text of characters that `http` takes in a name, neither empty nor too
/// long, is a name that `http` takes.
pub proof fn token_text_is_header_name(text: Seq<char>)
    requires
        1 <= text.len() <= MAX_HEADER_NAME_LEN,
        forall|k: int| 0 <= k < text.len() ==> is_token_char(#[trigger] text[k]),
    ensures
        http_header_name(text),
{
    assert(is_ascii_chars(text));
    is_ascii_chars_encode_utf8(text);
}

/// A text of characters that show is a value that `http` takes.
pub proof fn visible_text_is_header_value(text: Seq<char>)
    requires
        forall|k: int| 0 <= k < text.len() ==> is_visible_char(#[trigger] text[k]),
    ensures
        http_header_value(text),
{
    assert(is_ascii_chars(text));
    is_ascii_chars_encode_utf8(text);
}

/// The names of the headers that the bridge sets are names that `http` takes.
pub proof fn fixed_names_are_taken()
    ensures
        http_header_name(ALLOW_ORIGIN@),
        http_header_name(EXPOSE_HEADERS@),
        http_header_name(BRIDGE_HEADER@),
        http_header_name(CONTENT_TYPE@),
{
    reveal_strlit("access-control-allow-origin");
    token_text_is_header_name(ALLOW_ORIGIN@);
    reveal_strlit("access-control-expose-headers");
    token_text_is_header_name(EXPOSE_HEADERS@);
    reveal_strlit("tauri-response");
    token_text_is_header_name(BRIDGE_HEADER@);
    reveal_strlit("content-type");
    token_text_is_header_name(CONTENT_TYPE@);
}

/// The values of the fixed headers, and the two media types of the codec, are
/// values that `http` takes.
pub proof fn fixed_values_are_taken()
    ensures
        http_header_value(ANY_ORIGIN@),
        http_header_value(BRIDGE_HEADER_EXPOSED@),
        http_header_value(BRIDGE_SENTINEL@),
        http_header_value(TEXT_PLAIN@),
        http_header_value(APPLICATION_JSON@),
{
    reveal_strlit("*");
    visible_text_is_header_value(ANY_ORIGIN@);
    reveal_strlit("Tauri-Response");
    visible_text_is_header_value(BRIDGE_HEADER_EXPOSED@);
    reveal_strlit("ok");
    visible_text_is_header_value(BRIDGE_SENTINEL@);
    reveal_strlit("text/plain");
    visible_text_is_header_value(TEXT_PLAIN@);
    reveal_strlit("application/json");
    visible_text_is_header_value(APPLICATION_JSON@);
}

/// A response of the bridge with a status and a content type that `http`
/// takes is a response that `http` takes.
pub proof fn response_is_taken(status: u16, content_type: Seq<char>, body: Seq<u8>)
    requires
        http_status(status),
        http_header_value(content_type),
    ensures
        http_accepts(response(status, content_type, body)),
{
    fixed_names_are_taken();
    fixed_values_are_taken();
    let headers = response(status, content_type, body).headers;
    assert(headers.len() == 4);
    assert(headers[0] == (ALLOW_ORIGIN@, ANY_ORIGIN@));
    assert(headers[1] == (EXPOSE_HEADERS@, BRIDGE_HEADER_EXPOSED@));
    assert(headers[2] == (BRIDGE_HEADER@, BRIDGE_SENTINEL@));
    assert(headers[3] == (CONTENT_TYPE@, content_type));
}

/// A plain-text response of the bridge with a status that `http` takes is a
/// response that `http` takes.
pub proof fn text_response_is_taken(status: u16, text: Seq<char>)
    requires
        http_status(status),
    ensures
        http_accepts(text_response(status, text)),
{
    fixed_values_are_taken();
    response_is_taken(status, TEXT_PLAIN@, encode_utf8(text));
}

/// Whether `http` takes a status.
///
/// Calls `http::StatusCode::from_u16`, which by its documentation takes the
/// numbers from 100 up to 999 and no others.
#[verifier::external_body]
fn accept_status(status: u16) -> (r: Result<(), http::Error>)
    ensures
        r is Ok <==> http_status(status),
{
    match http::StatusCode::from_u16(status) {
        Ok(_) => Ok(()),
        Err(e) => Err(e.into()),
    }
}

/// Whether `http` takes a text as the name of a header.
///
/// Calls `http::header::HeaderName::from_bytes` on the bytes of the text,
/// which turns down the empty name, a name of more than 65535 bytes, and a name
/// with a byte that is no letter, no digit and none of ``!#$%&'*+-.^_`|~``,
/// and takes every other.
#[verifier::external_body]
fn accept_header_name(name: &str) -> (r: Result<(), http::Error>)
    ensures
        r is Ok <==> http_header_name(name@),
{
    match http::header::HeaderName::from_bytes(name.as_bytes()) {
        Ok(_) => Ok(()),
        Err(e) => Err(e.into()),
    }
}

/// Whether `http` takes a text as the value of a header.
///
/// Calls `http::header::HeaderValue::from_str`, which turns the text down if
/// one of its bytes is below the space and no tab, or is the delete
/// character, and takes it otherwise.
#[verifier::external_body]
fn accept_header_value(value: &str) -> (r: Result<(), http::Error>)
    ensures
        r is Ok <==> http_header_value(value@),
{
    match http::header::HeaderValue::from_str(value) {
        Ok(_) => Ok(()),
        Err(e) => Err(e.into()),
    }
}

/// The first thing about `r` that `http` does not take, if there is one.
fn fault_of(r: &Response) -> (fault: Option<http::Error>)
    ensures
        fault is None <==> http_accepts(r@),
{
    match accept_status(r.status()) {
        Ok(_) => {},
        Err(e) => {
            return Some(e);
        },
    }
    let headers = r.headers();
    let mut at: usize = 0;
    while at < headers.len()
        invariant
            at <= headers.len(),
            headers.deep_view() == r@.headers,
            http_status(r@.status),
            forall|k: int|
                0 <= k < at ==> http_header_name((#[trigger] r@.headers[k]).0) && http_header_value(
                    r@.headers[k].1,
                ),
        decreases headers.len() - at,
    {
        assert(r@.headers[at as int] == (headers[at as int].0@, headers[at as int].1@));
        match accept_header_name(headers[at].0.as_str()) {
            Ok(_) => {},
            Err(e) => {
                return Some(e);
            },
        }
        match accept_header_value(headers[at].1.as_str()) {
            Ok(_) => {},
            Err(e) => {
                return Some(e);
            },
        }
        at += 1;
    }
    None
}

/// `r` where there is no fault, else the response that reports the fault:
/// status 500 and the description as plain text.
pub fn degrade(r: Response, fault: Option<String>) -> (out: Response)
    ensures
        out@ == degraded(r@, fault),
{
    match fault {
        None => r,
        Some(text) => internal_server_err(text.as_str()),
    }
}

/// What is delivered for `r`: `r` itself where `http` takes its status and
/// headers, else a response with status 500 that describes the first fault.
pub fn deliverable(r: Response) -> (out: Response)
    ensures
        delivered(r@, out@),
{
    let fault = match fault_of(&r) {
        None => None,
        Some(e) => Some(e.to_string()),
    };
    proof {
        if fault is Some {
            text_response_is_taken(STATUS_INTERNAL_SERVER_ERROR, fault->0@);
        }
    }
    degrade(r, fault)
}

} // verus!

//! Forwarding: what is sent to the upstream for a request, and what is sent
//! back downstream.

use vstd::prelude::*;
use vstd::string::StrSliceExecFns;
use vstd::string::StringSliceAdditionalSpecFns;
use vstd::string::StringExecFns;
use crate::config::AegisConfig;
use crate::locator::{parse_url, url_parses};
use crate::request::{Header, Request};

verus! {

/// Why a request could not be forwarded, or its answer not be passed on.
#[derive(Clone, Copy, Debug, PartialEq, Eq, Structural)]
pub enum ProxyError {
    /// The upstream address with the request target is not a URL.
    UpstreamUrl,
    /// The method is not a method token.
    Method,
    /// A header value cannot be sent.
    HeaderValue,
    /// The upstream request could not be built.
    Build,
    /// The upstream could not be reached.
    Upstream,
    /// The upstream answered with a status code out of range.
    Status,
    /// The upstream's body could not be read.
    Body,
}

/// A header line with its value as bytes.
#[derive(Clone, Debug, PartialEq, Eq)]
pub struct HeaderLine {
    pub name: String,
    pub value: Vec<u8>,
}

/// A response for the downstream client.
#[derive(Clone, Debug, PartialEq, Eq)]
pub struct Response {
    pub status: u16,
    pub headers: Vec<HeaderLine>,
    pub body: Vec<u8>,
}

/// A request for the upstream.
#[derive(Clone, Debug, PartialEq, Eq)]
pub struct Outbound {
    pub url: String,
    pub method: String,
    pub headers: Vec<(String, String)>,
}

/// What the upstream answered.
#[derive(Clone, Debug, PartialEq, Eq)]
pub struct UpstreamReply {
    pub status: u16,
    pub headers: Vec<HeaderLine>,
    pub body: Vec<u8>,
}

/// A character that may occur in a method: a letter or digit of ASCII, or
/// one of fifteen marks.
pub open spec fn method_char(c: char) -> bool {
    ||| ('a' <= c && c <= 'z')
    ||| ('A' <= c && c <= 'Z')
    ||| ('0' <= c && c <= '9')
    ||| c == '!'
    ||| c == '#'
    ||| c == '$'
    ||| c == '%'
    ||| c == '&'
    ||| c == '\''
    ||| c == '*'
    ||| c == '+'
    ||| c == '-'
    ||| c == '.'
    ||| c == '^'
    ||| c == '_'
    ||| c == '`'
    ||| c == '|'
    ||| c == '~'
}

/// Whether a text is a method: at least one character, each of them one
/// that may occur in a method.
pub open spec fn method_accepted(method: Seq<char>) -> bool {
    method.len() > 0 && forall|i: int| 0 <= i < method.len() ==> method_char(#[trigger] method[i])
}

/// A character that may occur in a header value: a tab, or any character
/// from the space on but the delete character.
pub open spec fn value_char(c: char) -> bool {
    c >= ' ' && c != '\u{7f}' || c == '\t'
}

/// Whether a text can be sent as a header value.
pub open spec fn value_accepted(value: Seq<char>) -> bool {
    forall|i: int| 0 <= i < value.len() ==> value_char(#[trigger] value[i])
}

/// Whether a number is a status code: three digits, the first not zero.
pub open spec fn status_accepted(status: u16) -> bool {
    100 <= status < 1000
}

/// `http::Method::from_bytes`, as `reqwest` hands it on, on the bytes of the
/// text: whether there is at least one byte and each is a letter or digit of
/// ASCII or one of the fifteen marks. Every such byte is one character, and
/// no other character holds such a byte, so this is stated of the
/// characters.
#[verifier::external_body]
pub(crate) fn accepts_method(method: &str) -> (b: bool)
    ensures
        b == method_accepted(method@),
{
    reqwest::Method::from_bytes(method.as_bytes()).is_ok()
}

/// `http::HeaderValue::from_str`, as `reqwest` hands it on: whether every
/// byte of the text is a tab or at least 32 and not 127. A character below
/// 128 is one such byte, and every other character is made of bytes from 128
/// on, so this is stated of the characters.
#[verifier::external_body]
pub(crate) fn accepts_value(value: &str) -> (b: bool)
    ensures
        b == value_accepted(value@),
{
    reqwest::header::HeaderValue::from_str(value).is_ok()
}

/// `http::StatusCode::from_u16`, as `actix_web` hands it on: whether the
/// number is at least 100 and below 1000.
#[verifier::external_body]
pub(crate) fn accepts_status(status: u16) -> (b: bool)
    ensures
        b == status_accepted(status),
{
    actix_web::http::StatusCode::from_u16(status).is_ok()
}

/// The status of the block response.
pub const BLOCKED_STATUS: u16 = 403;

/// The status of the response to a failure of the proxy.
pub const FAILED_STATUS: u16 = 500;

/// The body of the block response.
pub open spec fn blocked_body() -> Seq<u8> {
    "Request blocked by firewall".spec_bytes()
}

/// The body of the response to a failure of the proxy.
pub open spec fn failed_body() -> Seq<u8> {
    "Error from Aegis".spec_bytes()
}

/// The response to a blocked request.
pub fn block_response() -> (r: Response)
    ensures
        r.status == 403,
        r.headers@.len() == 0,
        r.body@ == blocked_body(),
{
    Response {
        status: BLOCKED_STATUS,
        headers: Vec::new(),
        body: "Request blocked by firewall".as_bytes_vec(),
    }
}

/// The response to a request that the proxy failed on, whatever the failure.
pub fn error_response(error: ProxyError) -> (r: Response)
    ensures
        r.status == 500,
        r.headers@.len() == 0,
        r.body@ == failed_body(),
{
    Response { status: FAILED_STATUS, headers: Vec::new(), body: "Error from Aegis".as_bytes_vec() }
}

/// The address that a request is forwarded to: the upstream, then the
/// request target.
pub open spec fn upstream_url(config: AegisConfig, request: Request) -> Seq<char> {
    config.upstream@ + request.target()
}

/// Whether a header can be sent on as it came: its value is readable, and
/// every character of it may occur in a header value.
pub open spec fn header_accepted(h: Header) -> bool {
    match h.value {
        Some(v) => value_accepted(v@),
        None => false,
    }
}

/// Whether every header of the request can be sent on as it came.
pub open spec fn headers_accepted(headers: Seq<Header>) -> bool {
    forall|i: int| 0 <= i < headers.len() ==> header_accepted(#[trigger] headers[i])
}

/// Whether `sent` holds the headers as they came: as many, in the same
/// order, each with its name and with its value, none of them altered.
pub open spec fn carries(sent: Seq<(String, String)>, headers: Seq<Header>) -> bool {
    sent.len() == headers.len() && forall|i: int|
        0 <= i < headers.len() ==> (#[trigger] sent[i]).0@ == headers[i].name@ && match headers[i].value {
            Some(v) => sent[i].1@ == v@,
            None => false,
        }
}

/// Builds the text of the address that a request is forwarded to.
pub fn build_upstream_url(config: &AegisConfig, request: &Request) -> (url: String)
    ensures
        url@ == upstream_url(*config, *request),
{
    let base = config.upstream.clone();
    match &request.query {
        Some(q) => {
            let with_path = base.concat(request.path.as_str());
            let with_mark = with_path.concat("?");
            let full = with_mark.concat(q.as_str());
            assert(full@ =~= config.upstream@ + (request.path@ + "?"@ + q@));
            full
        },
        None => {
            if request.path.as_str().unicode_len() == 0 {
                base.concat("/")
            } else {
                base.concat(request.path.as_str())
            }
        },
    }
}

/// Takes the headers of a request for the upstream, each as it came. There
/// are none to send where one of them has a value that is not readable or
/// that cannot be sent.
pub fn collect_headers(headers: &Vec<Header>) -> (r: Option<Vec<(String, String)>>)
    ensures
        r is Some == headers_accepted(headers@),
        r matches Some(sent) ==> carries(sent@, headers@),
{
    let mut sent: Vec<(String, String)> = Vec::new();
    let mut i: usize = 0;
    while i < headers.len()
        invariant
            i <= headers.len(),
            sent.len() == i,
            forall|j: int| 0 <= j < i ==> header_accepted(#[trigger] headers[j]),
            forall|j: int|
                0 <= j < i ==> (#[trigger] sent[j]).0@ == headers[j].name@ && match headers[j].value {
                    Some(v) => sent[j].1@ == v@,
                    None => false,
                },
        decreases headers.len() - i,
    {
        match &headers[i].value {
            Some(v) => {
                if !accepts_value(v.as_str()) {
                    assert(!header_accepted(headers[i as int]));
                    return None;
                }
                sent.push((headers[i].name.clone(), v.clone()));
            },
            None => {
                assert(!header_accepted(headers[i as int]));
                return None;
            },
        }
        i += 1;
    }
    Some(sent)
}

/// Plans the upstream request for an inbound request: the upstream address
/// with the request target, the same method, and every header as it came.
/// Fails, in this order, where the address is not a URL, where the method is
/// none, or where a header has a value that is not readable or that cannot
/// be sent.
pub fn plan_forward(config: &AegisConfig, request: &Request) -> (r: Result<Outbound, ProxyError>)
    ensures
        match r {
            Ok(out) => url_parses(upstream_url(*config, *request)) && method_accepted(
                request.method@,
            ) && headers_accepted(request.headers@) && out.url@ == upstream_url(*config, *request)
                && out.method@ == request.method@ && carries(out.headers@, request.headers@),
            Err(e) => if !url_parses(upstream_url(*config, *request)) {
                e == ProxyError::UpstreamUrl
            } else if !method_accepted(request.method@) {
                e == ProxyError::Method
            } else {
                e == ProxyError::HeaderValue && !headers_accepted(request.headers@)
            },
        },
{
    let url = build_upstream_url(config, request);
    match parse_url(url.as_str()) {
        Ok(_) => {},
        Err(_) => {
            return Err(ProxyError::UpstreamUrl);
        },
    }
    if !accepts_method(request.method.as_str()) {
        return Err(ProxyError::Method);
    }
    match collect_headers(&request.headers) {
        Some(headers) => Ok(Outbound { url, method: request.method.clone(), headers }),
        None => Err(ProxyError::HeaderValue),
    }
}

/// Passes the upstream's answer on: its status, its header lines and its
/// body, all as they came. A name that occurs more than once stays as often
/// and in its place, and a value that is no text stays the bytes it is. An
/// answer whose status is no status code becomes the response to a failure.
pub fn relay_response(reply: UpstreamReply) -> (r: Response)
    ensures
        status_accepted(reply.status) ==> r.status == reply.status && r.headers == reply.headers
            && r.body == reply.body,
        !status_accepted(reply.status) ==> r.status == 500 && r.headers@.len() == 0 && r.body@
            == failed_body(),
{
    if accepts_status(reply.status) {
        Response { status: reply.status, headers: reply.headers, body: reply.body }
    } else {
        error_response(ProxyError::Status)
    }
}

} // verus!

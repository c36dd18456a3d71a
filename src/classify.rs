//! Request classification: status code, wanted format, protocol label and the
//! diagnostic headers, taken from what the proxy forwarded.

use vstd::prelude::*;
use crate::decimal::{parse_u16_decimal, parse_u16_spec};

verus! {

/// The two formats an error page can be served in.
#[derive(Clone, Copy, Debug, PartialEq, Eq, Structural)]
pub enum Format {
    Html,
    Json,
}

impl Format {
    pub open spec fn extension_spec(self) -> Seq<char> {
        match self {
            Format::Html => "html"@,
            Format::Json => "json"@,
        }
    }

    pub open spec fn content_type_spec(self) -> Seq<char> {
        match self {
            Format::Html => "text/html"@,
            Format::Json => "application/json"@,
        }
    }

    /// The file extension of artifacts in this format.
    pub fn extension(&self) -> (r: &'static str)
        ensures
            r@ == self.extension_spec(),
    {
        match self {
            Format::Html => "html",
            Format::Json => "json",
        }
    }

    /// The media type sent for this format.
    pub fn content_type(&self) -> (r: &'static str)
        ensures
            r@ == self.content_type_spec(),
    {
        match self {
            Format::Html => "text/html",
            Format::Json => "application/json",
        }
    }
}

/// The transport protocol version of the inbound connection.
#[derive(Clone, Copy, Debug, PartialEq, Eq, Structural)]
pub enum HttpVersion {
    Http09,
    Http10,
    Http11,
    Http2,
    Http3,
    Other,
}

pub open spec fn protocol_label_spec(v: HttpVersion) -> Seq<char> {
    match v {
        HttpVersion::Http09 => "HTTP/0.9"@,
        HttpVersion::Http10 => "HTTP/1.0"@,
        HttpVersion::Http11 => "HTTP/1.1"@,
        HttpVersion::Http2 => "HTTP/2.0"@,
        HttpVersion::Http3 => "HTTP/3.0"@,
        HttpVersion::Other => "Unknown"@,
    }
}

/// The label under which a request is counted and timed.
pub fn protocol_label(v: HttpVersion) -> (r: &'static str)
    ensures
        r@ == protocol_label_spec(v),
{
    match v {
        HttpVersion::Http09 => "HTTP/0.9",
        HttpVersion::Http10 => "HTTP/1.0",
        HttpVersion::Http11 => "HTTP/1.1",
        HttpVersion::Http2 => "HTTP/2.0",
        HttpVersion::Http3 => "HTTP/3.0",
        HttpVersion::Other => "Unknown",
    }
}

/// Names of the recognised request headers.
pub const CODE_HEADER: &'static str = "X-Code";
pub const FORMAT_HEADER: &'static str = "X-Format";
pub const INGRESS_NAME_HEADER: &'static str = "X-Ingress-Name";
pub const NAMESPACE_HEADER: &'static str = "X-Namespace";
pub const ORIGINAL_URI_HEADER: &'static str = "X-Original-URI";
pub const REQUEST_ID_HEADER: &'static str = "X-Request-Id";
pub const SERVICE_NAME_HEADER: &'static str = "X-Service-Name";
pub const SERVICE_PORT_HEADER: &'static str = "X-Service-Port";

/// The raw values of the recognised request headers, each present only where the
/// request carried it.
#[derive(Clone, Debug)]
pub struct InboundHeaders {
    pub code: Option<Vec<u8>>,
    pub format: Option<Vec<u8>>,
    pub ingress_name: Option<Vec<u8>>,
    pub namespace: Option<Vec<u8>>,
    pub original_uri: Option<Vec<u8>>,
    pub request_id: Option<Vec<u8>>,
    pub service_name: Option<Vec<u8>>,
    pub service_port: Option<Vec<u8>>,
}

pub open spec fn opt_bytes(v: Option<Vec<u8>>) -> Option<Seq<u8>> {
    match v {
        Some(b) => Some(b@),
        None => None,
    }
}

/// The bytes of the media type `application/json`.
pub open spec fn json_media_type() -> Seq<u8> {
    seq![97u8, 112, 112, 108, 105, 99, 97, 116, 105, 111, 110, 47, 106, 115, 111, 110]
}

/// The status code a request asks for: the `X-Code` value read as a decimal
/// number, or 404 where it is absent, not a number, or outside 100 to 999.
pub open spec fn status_of(raw: Option<Seq<u8>>) -> u16 {
    match raw {
        Some(b) => match parse_u16_spec(b) {
            Some(c) => if 100 <= c && c <= 999 {
                c
            } else {
                404
            },
            None => 404,
        },
        None => 404,
    }
}

/// The format a request asks for: JSON exactly when `X-Format` is `application/json`.
pub open spec fn format_of(raw: Option<Seq<u8>>) -> Format {
    if raw == Some(json_media_type()) {
        Format::Json
    } else {
        Format::Html
    }
}

/// Everything the rest of the pipeline needs to know of one request.
#[derive(Clone, Debug)]
pub struct RequestContext {
    pub status_code: u16,
    pub format: Format,
    pub protocol: HttpVersion,
    pub headers: InboundHeaders,
}

impl RequestContext {
    /// The status code is always one that can stand in a status line.
    pub open spec fn wf(&self) -> bool {
        100 <= self.status_code && self.status_code <= 999
    }
}

/// Relies on actix_web::http::StatusCode::from_u16, which accepts exactly the codes
/// from 100 to 999.
#[verifier::external_body]
pub(crate) fn is_valid_status(code: u16) -> (r: bool)
    ensures
        r == (100 <= code && code <= 999),
{
    actix_web::http::StatusCode::from_u16(code).is_ok()
}

fn bytes_equal(a: &[u8], b: &[u8]) -> (r: bool)
    ensures
        r == (a@ == b@),
{
    if a.len() != b.len() {
        return false;
    }
    let mut i: usize = 0;
    while i < a.len()
        invariant
            a@.len() == b@.len(),
            i <= a.len(),
            forall|j: int| 0 <= j < i ==> a@[j] == b@[j],
        decreases a.len() - i,
    {
        if a[i] != b[i] {
            return false;
        }
        i = i + 1;
    }
    assert(a@ =~= b@);
    true
}

/// Reads the status code from the raw `X-Code` value.
pub fn parse_status_code(raw: Option<&Vec<u8>>) -> (r: u16)
    ensures
        r == status_of(match raw {
            Some(b) => Some(b@),
            None => None,
        }),
        100 <= r <= 999,
{
    match raw {
        Some(b) => match parse_u16_decimal(b.as_slice()) {
            Some(c) => if is_valid_status(c) {
                c
            } else {
                404
            },
            None => 404,
        },
        None => 404,
    }
}

/// Reads the wanted format from the raw `X-Format` value.
pub fn parse_format(raw: Option<&Vec<u8>>) -> (r: Format)
    ensures
        r == format_of(match raw {
            Some(b) => Some(b@),
            None => None,
        }),
{
    let json: [u8; 16] = [97, 112, 112, 108, 105, 99, 97, 116, 105, 111, 110, 47, 106, 115, 111, 110];
    match raw {
        Some(b) => {
            let same = bytes_equal(b.as_slice(), json.as_slice());
            assert(json@ =~= json_media_type());
            if same {
                Format::Json
            } else {
                Format::Html
            }
        },
        None => Format::Html,
    }
}

/// Classifies a request from its protocol version and its recognised headers.
pub fn classify(protocol: HttpVersion, headers: InboundHeaders) -> (r: RequestContext)
    ensures
        r.wf(),
        r.status_code == status_of(opt_bytes(headers.code)),
        r.format == format_of(opt_bytes(headers.format)),
        r.protocol == protocol,
        r.headers == headers,
{
    let status_code = parse_status_code(headers.code.as_ref());
    let format = parse_format(headers.format.as_ref());
    RequestContext { status_code, format, protocol, headers }
}

} // verus!

//! The outbound HTTP response as plain parts, and the builders for the
//! gateway's terminal error responses. Every response the gateway emits
//! carries `x-kubeware-time` (total elapsed milliseconds); `x-backend-time`
//! is present exactly when the backend was reached.

use vstd::prelude::*;
use vstd::utf8::encode_utf8;
use crate::container::ProtocolVersion;
use crate::headers::{Header, HeaderView};
use crate::strutil::{dec_digits, u64_to_dec, string_to_bytes};

verus! {

/// The outbound HTTP response, ready for the transport.
pub struct HttpResponseParts {
    pub version: ProtocolVersion,
    pub status: u16,
    pub headers: Vec<Header>,
    pub body: Vec<u8>,
}

/// The mathematical shape of an outbound response.
pub ghost struct ResponsePartsView {
    pub version: ProtocolVersion,
    pub status: u16,
    pub headers: Seq<HeaderView>,
    pub body: Seq<u8>,
}

impl View for HttpResponseParts {
    type V = ResponsePartsView;

    open spec fn view(&self) -> ResponsePartsView {
        ResponsePartsView {
            version: self.version,
            status: self.status,
            headers: self.headers.deep_view(),
            body: self.body@,
        }
    }
}

/// The name of the total-elapsed-time header.
pub open spec fn kubeware_time_name() -> Seq<char> {
    "x-kubeware-time"@
}

/// The name of the backend-elapsed-time header.
pub open spec fn backend_time_name() -> Seq<char> {
    "x-backend-time"@
}

/// The timing headers stamped on a response: the total elapsed milliseconds,
/// and the backend elapsed milliseconds exactly when the backend was
/// reached.
pub open spec fn time_headers(elapsed_ms: u64, backend_elapsed_ms: Option<u64>) -> Seq<
    HeaderView,
> {
    let kw = seq![
        HeaderView { name: kubeware_time_name(), value: dec_digits(elapsed_ms as nat) },
    ];
    match backend_elapsed_ms {
        Some(d) => kw + seq![
            HeaderView { name: backend_time_name(), value: dec_digits(d as nat) },
        ],
        None => kw,
    }
}

/// Whether some entry of `hs` has the name `name`.
pub open spec fn has_header(hs: Seq<HeaderView>, name: Seq<char>) -> bool {
    exists|i: int| 0 <= i < hs.len() && hs[i].name == name
}

/// Builds the timing header list.
pub fn make_time_headers(elapsed_ms: u64, backend_elapsed_ms: Option<u64>) -> (r: Vec<Header>)
    ensures
        r.deep_view() == time_headers(elapsed_ms, backend_elapsed_ms),
{
    let mut r: Vec<Header> = Vec::new();
    let kw = String::from_str("x-kubeware-time");
    r.push(Header { name: kw, value: u64_to_dec(elapsed_ms) });
    match backend_elapsed_ms {
        Some(d) => {
            let bt = String::from_str("x-backend-time");
            r.push(Header { name: bt, value: u64_to_dec(d) });
            proof {
                assert(r.deep_view() =~= time_headers(elapsed_ms, backend_elapsed_ms));
            }
        },
        None => {
            proof {
                assert(r.deep_view() =~= time_headers(elapsed_ms, backend_elapsed_ms));
            }
        },
    }
    r
}

/// The shape shared by the terminal error responses: the given status, the
/// reason phrase as the body, the total-elapsed header and nothing else,
/// HTTP/1.1.
pub open spec fn error_response(status: u16, phrase: Seq<char>, elapsed_ms: u64) -> ResponsePartsView {
    ResponsePartsView {
        version: ProtocolVersion::Http11,
        status,
        headers: time_headers(elapsed_ms, None),
        body: encode_utf8(phrase),
    }
}

/// The response for an orchestrator-internal failure: 500, body
/// `"Internal server error"`.
pub fn generic_error(elapsed_ms: u64) -> (r: HttpResponseParts)
    ensures
        r@ == error_response(500, "Internal server error"@, elapsed_ms),
{
    HttpResponseParts {
        version: ProtocolVersion::Http11,
        status: 500,
        headers: make_time_headers(elapsed_ms, None),
        body: string_to_bytes("Internal server error"),
    }
}

/// The response for a backend transport failure: 502, body `"Bad Gateway"`.
pub fn gateway_error(elapsed_ms: u64) -> (r: HttpResponseParts)
    ensures
        r@ == error_response(502, "Bad Gateway"@, elapsed_ms),
{
    HttpResponseParts {
        version: ProtocolVersion::Http11,
        status: 502,
        headers: make_time_headers(elapsed_ms, None),
        body: string_to_bytes("Bad Gateway"),
    }
}

/// The response for a middleware failure — unresolved endpoint, deadline
/// exceeded, or transport error: 503, body `"Service Unavailable"`.
pub fn service_unavailable_error(elapsed_ms: u64) -> (r: HttpResponseParts)
    ensures
        r@ == error_response(503, "Service Unavailable"@, elapsed_ms),
{
    HttpResponseParts {
        version: ProtocolVersion::Http11,
        status: 503,
        headers: make_time_headers(elapsed_ms, None),
        body: string_to_bytes("Service Unavailable"),
    }
}

/// The response for a backend deadline failure: 504, body
/// `"Gateway Timeout"`.
pub fn gateway_timeout(elapsed_ms: u64) -> (r: HttpResponseParts)
    ensures
        r@ == error_response(504, "Gateway Timeout"@, elapsed_ms),
{
    HttpResponseParts {
        version: ProtocolVersion::Http11,
        status: 504,
        headers: make_time_headers(elapsed_ms, None),
        body: string_to_bytes("Gateway Timeout"),
    }
}

} // verus!

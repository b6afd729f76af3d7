//! The middleware RPC message shapes, as plain values. The transport encodes
//! them on the wire; the engine only builds the two request shapes and
//! consumes the two response shapes.

use vstd::prelude::*;
use crate::headers::{Header, HeaderView};

verus! {

/// How a middleware asks the gateway to proceed.
#[derive(Clone, Copy, PartialEq, Eq, Structural, Debug)]
pub enum ResponseStatus {
    /// Apply the returned mutations and continue the pipeline.
    Success,
    /// Discard the returned mutations and continue the pipeline.
    Continue,
    /// Apply the returned mutations and halt the pipeline.
    Stop,
}

impl ResponseStatus {
    /// The status a raw wire value stands for: 0, 1 and 2 are the three
    /// statuses, in declaration order; anything else is unknown.
    pub open spec fn spec_from_i32(value: i32) -> Option<ResponseStatus> {
        if value == 0 {
            Some(ResponseStatus::Success)
        } else if value == 1 {
            Some(ResponseStatus::Continue)
        } else if value == 2 {
            Some(ResponseStatus::Stop)
        } else {
            None
        }
    }

    /// Decodes a raw wire status value.
    pub fn from_i32(value: i32) -> (r: Option<ResponseStatus>)
        ensures
            r == ResponseStatus::spec_from_i32(value),
    {
        if value == 0 {
            Some(ResponseStatus::Success)
        } else if value == 1 {
            Some(ResponseStatus::Continue)
        } else if value == 2 {
            Some(ResponseStatus::Stop)
        } else {
            None
        }
    }
}

/// The request-phase call payload: what the middleware is shown.
pub struct RequestRequest {
    pub method: String,
    pub uri: String,
    pub headers: Vec<Header>,
    pub body: String,
}

/// The mathematical shape of a request-phase call payload.
pub ghost struct RequestRequestView {
    pub method: Seq<char>,
    pub uri: Seq<char>,
    pub headers: Seq<HeaderView>,
    pub body: Seq<char>,
}

impl View for RequestRequest {
    type V = RequestRequestView;

    open spec fn view(&self) -> RequestRequestView {
        RequestRequestView {
            method: self.method@,
            uri: self.uri@,
            headers: self.headers.deep_view(),
            body: self.body@,
        }
    }
}

/// What a middleware returns in the request phase.
pub struct RequestResponse {
    pub status: i32,
    pub added_headers: Vec<Header>,
    pub removed_headers: Vec<String>,
    pub body: Option<String>,
    pub status_code: Option<u32>,
}

/// The mathematical shape of a middleware reply, shared by both phases.
pub ghost struct OutcomeView {
    pub status: i32,
    pub added_headers: Seq<HeaderView>,
    pub removed_headers: Seq<Seq<char>>,
    pub body: Option<Seq<char>>,
    pub status_code: Option<u32>,
}

impl View for RequestResponse {
    type V = OutcomeView;

    open spec fn view(&self) -> OutcomeView {
        OutcomeView {
            status: self.status,
            added_headers: self.added_headers.deep_view(),
            removed_headers: self.removed_headers.deep_view(),
            body: match self.body {
                Some(b) => Some(b@),
                None => None,
            },
            status_code: self.status_code,
        }
    }
}

/// The response-phase call payload: both sides of the exchange are shown.
pub struct ResponseRequest {
    pub method: String,
    pub uri: String,
    pub request_headers: Vec<Header>,
    pub response_headers: Vec<Header>,
    pub request_body: String,
    pub response_body: String,
}

/// The mathematical shape of a response-phase call payload.
pub ghost struct ResponseRequestView {
    pub method: Seq<char>,
    pub uri: Seq<char>,
    pub request_headers: Seq<HeaderView>,
    pub response_headers: Seq<HeaderView>,
    pub request_body: Seq<char>,
    pub response_body: Seq<char>,
}

impl View for ResponseRequest {
    type V = ResponseRequestView;

    open spec fn view(&self) -> ResponseRequestView {
        ResponseRequestView {
            method: self.method@,
            uri: self.uri@,
            request_headers: self.request_headers.deep_view(),
            response_headers: self.response_headers.deep_view(),
            request_body: self.request_body@,
            response_body: self.response_body@,
        }
    }
}

/// What a middleware returns in the response phase: the same shape as the
/// request-phase reply.
pub struct ResponseResponse {
    pub status: i32,
    pub added_headers: Vec<Header>,
    pub removed_headers: Vec<String>,
    pub body: Option<String>,
    pub status_code: Option<u32>,
}

impl View for ResponseResponse {
    type V = OutcomeView;

    open spec fn view(&self) -> OutcomeView {
        OutcomeView {
            status: self.status,
            added_headers: self.added_headers.deep_view(),
            removed_headers: self.removed_headers.deep_view(),
            body: match self.body {
                Some(b) => Some(b@),
                None => None,
            },
            status_code: self.status_code,
        }
    }
}

} // verus!

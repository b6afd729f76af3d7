//! The container handler: applies middleware outcomes to the container and
//! serializes it into the shapes the transports need — the two middleware
//! call payloads, the outbound backend request, and the outbound HTTP
//! response with its timing headers.

use vstd::prelude::*;
use vstd::utf8::{valid_utf8, decode_utf8, encode_utf8};
use crate::container::{
    RequestContainer, ContainerModel, ContainerState, HttpContainerView, ProtocolVersion,
};
use crate::headers::{
    Header, HeaderView, HeaderError, lower_headers, remove_names, first_problem, headers_problem,
    content_length_name, remove_headers_named,
};
use crate::messages::{RequestRequest, ResponseRequest, RequestResponse, ResponseResponse,
    OutcomeView};
use crate::responses::{HttpResponseParts, ResponsePartsView, time_headers, make_time_headers};

verus! {

/// An orchestrator-internal failure; every kind maps to a 500 response.
#[derive(Clone, Copy, PartialEq, Eq, Structural, Debug)]
pub enum InternalError {
    /// A middleware asked to add a header whose name is malformed.
    InvalidHeaderName,
    /// A middleware asked to add a header whose value is malformed.
    InvalidHeaderValue,
    /// A middleware returned a status code outside 100..=599.
    InvalidStatusCode,
    /// A body that must be shown to a middleware as a string is not valid
    /// UTF-8.
    BodyNotUtf8,
}

/// The internal error a malformed added header maps to.
pub open spec fn header_error_to_internal(e: HeaderError) -> InternalError {
    match e {
        HeaderError::InvalidName => InternalError::InvalidHeaderName,
        HeaderError::InvalidValue => InternalError::InvalidHeaderValue,
    }
}

/// What is wrong with a middleware outcome, if anything: a malformed added
/// header (checked first, in order), or a status code outside 100..=599.
pub open spec fn outcome_problem(o: OutcomeView) -> Option<InternalError> {
    match first_problem(o.added_headers) {
        Some(e) => Some(header_error_to_internal(e)),
        None => {
            if o.status_code matches Some(v) && !(100 <= v <= 599) {
                Some(InternalError::InvalidStatusCode)
            } else {
                None
            }
        },
    }
}

/// The container after a request-phase outcome is applied. The named headers
/// are removed from the request side; the added headers go to the request
/// side, or to the response side when the middleware stopped the pipeline; a
/// provided body replaces the request body, or becomes the response body on
/// stop (an absent body clears it); a provided status code is set, and an
/// absent one defaults to 500 on stop.
pub open spec fn apply_request_outcome(c: ContainerModel, o: OutcomeView, stop: bool) -> ContainerModel {
    let removed = remove_names(c.request.headers, o.removed_headers);
    ContainerModel {
        request: HttpContainerView {
            headers: if stop {
                removed
            } else {
                removed + lower_headers(o.added_headers)
            },
            body: if !stop && o.body is Some {
                encode_utf8(o.body.unwrap())
            } else {
                c.request.body
            },
        },
        response: HttpContainerView {
            headers: if stop {
                c.response.headers + lower_headers(o.added_headers)
            } else {
                c.response.headers
            },
            body: if stop {
                match o.body {
                    Some(b) => encode_utf8(b),
                    None => Seq::empty(),
                }
            } else {
                c.response.body
            },
        },
        status_code: match o.status_code {
            Some(v) => Some(v as u16),
            None => if stop {
                Some(500u16)
            } else {
                c.status_code
            },
        },
        ..c
    }
}

/// The container after a response-phase outcome is applied: like the request
/// variant, but the removed and added headers and the body always address
/// the response side.
pub open spec fn apply_response_outcome(c: ContainerModel, o: OutcomeView, stop: bool) -> ContainerModel {
    ContainerModel {
        response: HttpContainerView {
            headers: remove_names(c.response.headers, o.removed_headers) + lower_headers(
                o.added_headers,
            ),
            body: match o.body {
                Some(b) => encode_utf8(b),
                None => if stop {
                    Seq::empty()
                } else {
                    c.response.body
                },
            },
        },
        status_code: match o.status_code {
            Some(v) => Some(v as u16),
            None => if stop {
                Some(500u16)
            } else {
                c.status_code
            },
        },
        ..c
    }
}

/// The outbound backend request, as plain parts.
pub struct BackendRequestParts {
    pub method: String,
    pub url: String,
    pub version: ProtocolVersion,
    pub headers: Vec<Header>,
    pub body: Vec<u8>,
}

/// The mathematical shape of the outbound backend request.
pub ghost struct BackendRequestView {
    pub method: Seq<char>,
    pub url: Seq<char>,
    pub version: ProtocolVersion,
    pub headers: Seq<HeaderView>,
    pub body: Seq<u8>,
}

impl View for BackendRequestParts {
    type V = BackendRequestView;

    open spec fn view(&self) -> BackendRequestView {
        BackendRequestView {
            method: self.method@,
            url: self.url@,
            version: self.version,
            headers: self.headers.deep_view(),
            body: self.body@,
        }
    }
}

/// The mathematical shape of the handler: the container, the precomputed
/// backend URL, and the backend elapsed time once the backend was reached.
pub ghost struct HandlerModel {
    pub container: ContainerModel,
    pub url: Seq<char>,
    pub backend_elapsed: Option<u64>,
}

/// Owns the container for one request, applies middleware outcomes to it and
/// serializes it for the transports.
pub struct ContainerHandler {
    container: RequestContainer,
    url: String,
    backend_elapsed: Option<u64>,
}

impl View for ContainerHandler {
    type V = HandlerModel;

    closed spec fn view(&self) -> HandlerModel {
        HandlerModel {
            container: self.container@,
            url: self.url@,
            backend_elapsed: self.backend_elapsed,
        }
    }
}

impl ContainerHandler {
    /// Wraps a freshly built container; the backend has not been reached.
    pub fn new(container: RequestContainer, url: String) -> (r: ContainerHandler)
        ensures
            r@ == (HandlerModel { container: container@, url: url@, backend_elapsed: None }),
    {
        ContainerHandler { container, url, backend_elapsed: None }
    }

    /// Sets the container's phase tag.
    pub fn state_set(&mut self, state: ContainerState)
        ensures
            final(self)@ == (HandlerModel {
                container: (ContainerModel { state, ..old(self)@.container }),
                ..old(self)@
            }),
    {
        self.container.state_set(state);
    }

    /// Records the backend elapsed time; the backend was reached.
    pub fn backend_elapsed_set(&mut self, elapsed_ms: u64)
        ensures
            final(self)@ == (HandlerModel { backend_elapsed: Some(elapsed_ms), ..old(self)@ }),
    {
        self.backend_elapsed = Some(elapsed_ms);
    }

    /// The backend elapsed time, present exactly when the backend was
    /// reached.
    pub fn backend_elapsed(&self) -> (r: Option<u64>)
        ensures
            r == self@.backend_elapsed,
    {
        self.backend_elapsed
    }

    /// The container's status code, if set.
    pub fn status_code(&self) -> (r: Option<u16>)
        ensures
            r == self@.container.status_code,
    {
        self.container.status_code()
    }

    /// Applies a request-phase outcome. Nothing changes on a malformed
    /// outcome, and the problem comes back.
    pub fn handle_middleware_request(&mut self, response: &RequestResponse, stop: bool) -> (r:
        Result<(), InternalError>)
        ensures
            r is Ok <==> outcome_problem(response@) is None,
            r is Ok ==> final(self)@ == (HandlerModel {
                container: apply_request_outcome(old(self)@.container, response@, stop),
                ..old(self)@
            }),
            r matches Err(e) ==> outcome_problem(response@) == Some(e) && final(self)@ == old(
                self,
            )@,
    {
        match headers_problem(&response.added_headers) {
            Some(HeaderError::InvalidName) => {
                return Err(InternalError::InvalidHeaderName);
            },
            Some(HeaderError::InvalidValue) => {
                return Err(InternalError::InvalidHeaderValue);
            },
            None => {},
        }
        match response.status_code {
            Some(v) => {
                if v < 100 || v > 599 {
                    return Err(InternalError::InvalidStatusCode);
                }
            },
            None => {},
        }
        self.container.remove_request_headers(&response.removed_headers);
        let added = if stop {
            self.container.add_response_headers(&response.added_headers)
        } else {
            self.container.add_request_headers(&response.added_headers)
        };
        match added {
            Ok(()) => {},
            Err(_) => {
                proof {
                    assert(false);
                }
            },
        }
        match response.status_code {
            Some(v) => {
                self.container.status_code_set(v as u16);
            },
            None => {
                if stop {
                    self.container.status_code_set(500);
                }
            },
        }
        match &response.body {
            Some(val) => {
                if stop {
                    self.container.response_body_set_string(val.clone());
                } else {
                    self.container.request_body_set_string(val.clone());
                }
            },
            None => {
                if stop {
                    self.container.response_body_clear();
                }
            },
        }
        Ok(())
    }

    /// Applies a response-phase outcome. Nothing changes on a malformed
    /// outcome, and the problem comes back.
    pub fn handle_middleware_response(&mut self, response: &ResponseResponse, stop: bool) -> (r:
        Result<(), InternalError>)
        ensures
            r is Ok <==> outcome_problem(response@) is None,
            r is Ok ==> final(self)@ == (HandlerModel {
                container: apply_response_outcome(old(self)@.container, response@, stop),
                ..old(self)@
            }),
            r matches Err(e) ==> outcome_problem(response@) == Some(e) && final(self)@ == old(
                self,
            )@,
    {
        match headers_problem(&response.added_headers) {
            Some(HeaderError::InvalidName) => {
                return Err(InternalError::InvalidHeaderName);
            },
            Some(HeaderError::InvalidValue) => {
                return Err(InternalError::InvalidHeaderValue);
            },
            None => {},
        }
        match response.status_code {
            Some(v) => {
                if v < 100 || v > 599 {
                    return Err(InternalError::InvalidStatusCode);
                }
            },
            None => {},
        }
        self.container.remove_response_headers(&response.removed_headers);
        match self.container.add_response_headers(&response.added_headers) {
            Ok(()) => {},
            Err(_) => {
                proof {
                    assert(false);
                }
            },
        }
        match response.status_code {
            Some(v) => {
                self.container.status_code_set(v as u16);
            },
            None => {
                if stop {
                    self.container.status_code_set(500);
                }
            },
        }
        match &response.body {
            Some(val) => {
                self.container.response_body_set_string(val.clone());
            },
            None => {
                if stop {
                    self.container.response_body_clear();
                }
            },
        }
        Ok(())
    }

    /// Installs the backend response: its status, headers (names
    /// lower-cased) and body overwrite the response side.
    pub fn handle_response(&mut self, status: u16, headers: Vec<Header>, body: Vec<u8>)
        requires
            100 <= status <= 599,
        ensures
            final(self)@ == (HandlerModel {
                container: (ContainerModel {
                    status_code: Some(status),
                    response: HttpContainerView {
                        headers: lower_headers(headers.deep_view()),
                        body: body@,
                    },
                    ..old(self)@.container
                }),
                ..old(self)@
            }),
    {
        self.container.response_headers_set(headers);
        self.container.status_code_set(status);
        self.container.response_body_set_bytes(body);
    }

    /// Serializes the container for a request-phase middleware call: method,
    /// URI, the request-side headers, and the request body as a string.
    /// Fails exactly when the request body is not valid UTF-8.
    pub fn into_middleware_request(&self) -> (r: Result<RequestRequest, InternalError>)
        ensures
            r is Ok <==> valid_utf8(self@.container.request.body),
            r matches Err(e) ==> e == InternalError::BodyNotUtf8,
            r matches Ok(m) ==> m@ == (crate::messages::RequestRequestView {
                method: self@.container.method,
                uri: self@.container.uri,
                headers: self@.container.request.headers,
                body: decode_utf8(self@.container.request.body),
            }),
    {
        let body = match self.container.request_body() {
            Ok(b) => b,
            Err(_) => {
                return Err(InternalError::BodyNotUtf8);
            },
        };
        Ok(
            RequestRequest {
                method: self.container.method(),
                uri: self.container.uri(),
                headers: self.container.request_headers(),
                body,
            },
        )
    }

    /// Serializes the container for a response-phase middleware call: both
    /// header sets and both bodies as strings. Fails exactly when either
    /// body is not valid UTF-8.
    pub fn into_middleware_response(&self) -> (r: Result<ResponseRequest, InternalError>)
        ensures
            r is Ok <==> valid_utf8(self@.container.request.body) && valid_utf8(
                self@.container.response.body,
            ),
            r matches Err(e) ==> e == InternalError::BodyNotUtf8,
            r matches Ok(m) ==> m@ == (crate::messages::ResponseRequestView {
                method: self@.container.method,
                uri: self@.container.uri,
                request_headers: self@.container.request.headers,
                response_headers: self@.container.response.headers,
                request_body: decode_utf8(self@.container.request.body),
                response_body: decode_utf8(self@.container.response.body),
            }),
    {
        let request_body = match self.container.request_body() {
            Ok(b) => b,
            Err(_) => {
                return Err(InternalError::BodyNotUtf8);
            },
        };
        let response_body = match self.container.response_body() {
            Ok(b) => b,
            Err(_) => {
                return Err(InternalError::BodyNotUtf8);
            },
        };
        Ok(
            ResponseRequest {
                method: self.container.method(),
                uri: self.container.uri(),
                request_headers: self.container.request_headers(),
                response_headers: self.container.response_headers(),
                request_body,
                response_body,
            },
        )
    }

    /// Serializes the container into the outbound backend request: method,
    /// the precomputed backend URL, version, the request headers with
    /// `Content-Length` stripped, and the raw request body. Fails exactly
    /// when a request header is malformed.
    pub fn into_request(&self) -> (r: Result<BackendRequestParts, InternalError>)
        ensures
            r is Ok <==> first_problem(self@.container.request.headers) is None,
            r matches Err(e) ==> first_problem(self@.container.request.headers) matches Some(he)
                && e == header_error_to_internal(he),
            r matches Ok(p) ==> p@ == (BackendRequestView {
                method: self@.container.method,
                url: self@.url,
                version: self@.container.version,
                headers: remove_names(
                    self@.container.request.headers,
                    seq![content_length_name()],
                ),
                body: self@.container.request.body,
            }),
    {
        let req_headers = self.container.request_headers();
        match headers_problem(&req_headers) {
            Some(HeaderError::InvalidName) => {
                return Err(InternalError::InvalidHeaderName);
            },
            Some(HeaderError::InvalidValue) => {
                return Err(InternalError::InvalidHeaderValue);
            },
            None => {},
        }
        let mut cl: Vec<String> = Vec::new();
        cl.push(String::from_str("content-length"));
        proof {
            assert(cl.deep_view() =~= seq![content_length_name()]);
        }
        let headers = remove_headers_named(&req_headers, &cl);
        Ok(
            BackendRequestParts {
                method: self.container.method(),
                url: self.url.clone(),
                version: self.container.version(),
                headers,
                body: self.container.request_body_raw(),
            },
        )
    }

    /// Serializes the container into the outbound HTTP response: version,
    /// the status (500 when unset), the timing headers followed by the
    /// response headers with `Content-Length` stripped, and the raw response
    /// body. `x-kubeware-time` is the given elapsed milliseconds;
    /// `x-backend-time` is stamped exactly when the backend was reached.
    /// Fails exactly when a response header is malformed.
    pub fn into_response(&self, elapsed_ms: u64) -> (r: Result<HttpResponseParts, InternalError>)
        ensures
            r is Ok <==> first_problem(self@.container.response.headers) is None,
            r matches Err(e) ==> first_problem(self@.container.response.headers) matches Some(he)
                && e == header_error_to_internal(he),
            r matches Ok(p) ==> p@ == (ResponsePartsView {
                version: self@.container.version,
                status: self@.container.status_code.unwrap_or(500u16),
                headers: time_headers(elapsed_ms, self@.backend_elapsed) + remove_names(
                    self@.container.response.headers,
                    seq![content_length_name()],
                ),
                body: self@.container.response.body,
            }),
    {
        let resp_headers = self.container.response_headers();
        match headers_problem(&resp_headers) {
            Some(HeaderError::InvalidName) => {
                return Err(InternalError::InvalidHeaderName);
            },
            Some(HeaderError::InvalidValue) => {
                return Err(InternalError::InvalidHeaderValue);
            },
            None => {},
        }
        let mut cl: Vec<String> = Vec::new();
        cl.push(String::from_str("content-length"));
        proof {
            assert(cl.deep_view() =~= seq![content_length_name()]);
        }
        let mut stripped = remove_headers_named(&resp_headers, &cl);
        let mut headers = make_time_headers(elapsed_ms, self.backend_elapsed);
        let ghost pre = headers.deep_view();
        let ghost strippedv = stripped.deep_view();
        headers.append(&mut stripped);
        proof {
            assert(headers.deep_view() =~= pre + strippedv);
        }
        let status = match self.container.status_code() {
            Some(s) => s,
            None => 500,
        };
        Ok(
            HttpResponseParts {
                version: self.container.version(),
                status,
                headers,
                body: self.container.response_body_raw(),
            },
        )
    }
}

} // verus!

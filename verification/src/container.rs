//! The request container: the in-memory, mutable aggregate of one in-flight
//! request/response pair. It carries the method, URI and protocol version of
//! the inbound request, a header set and an opaque body for each side, an
//! optional status code, and a phase tag that selects which side the
//! state-dependent operations address.

use vstd::prelude::*;
use vstd::utf8::{valid_utf8, decode_utf8, encode_utf8};
use crate::headers::{
    Header, HeaderView, HeaderError, lower_headers, remove_names, first_problem,
    remove_headers_named, add_headers_checked, dup_headers, all_lowered,
};
use crate::strutil::{bytes_to_string, string_to_bytes};

verus! {

/// The phase the container is in; state-dependent operations address the
/// request side in `MiddlewareRequest` and the response side otherwise.
#[derive(Clone, Copy, PartialEq, Eq, Structural, Debug)]
pub enum ContainerState {
    MiddlewareRequest,
    Response,
    MiddlewareResponse,
}

/// The protocol version of the inbound request, passed through to the
/// backend request and the outbound response.
#[derive(Clone, Copy, PartialEq, Eq, Structural, Debug)]
pub enum ProtocolVersion {
    Http09,
    Http10,
    Http11,
    H2,
    H3,
}

/// One side of the exchange: a header list and an opaque body.
pub struct HttpContainer {
    pub headers: Vec<Header>,
    pub body: Vec<u8>,
}

/// The mathematical shape of one side.
pub ghost struct HttpContainerView {
    pub headers: Seq<HeaderView>,
    pub body: Seq<u8>,
}

impl View for HttpContainer {
    type V = HttpContainerView;

    open spec fn view(&self) -> HttpContainerView {
        HttpContainerView { headers: self.headers.deep_view(), body: self.body@ }
    }
}

/// The mathematical shape of the whole container.
pub ghost struct ContainerModel {
    pub method: Seq<char>,
    pub uri: Seq<char>,
    pub version: ProtocolVersion,
    pub status_code: Option<u16>,
    pub request: HttpContainerView,
    pub response: HttpContainerView,
    pub state: ContainerState,
}

impl ContainerModel {
    /// The container invariant: header names are stored lower-case, and a
    /// present status code is an HTTP status.
    pub open spec fn wf(self) -> bool {
        &&& all_lowered(self.request.headers)
        &&& all_lowered(self.response.headers)
        &&& (self.status_code matches Some(s) ==> 100 <= s <= 599)
    }

    /// The side the state-dependent operations address.
    pub open spec fn current(self) -> HttpContainerView {
        match self.state {
            ContainerState::MiddlewareRequest => self.request,
            _ => self.response,
        }
    }
}

/// The container of one in-flight exchange.
pub struct RequestContainer {
    method: String,
    uri: String,
    version: ProtocolVersion,
    status_code: Option<u16>,
    request: HttpContainer,
    response: HttpContainer,
    state: ContainerState,
}

impl View for RequestContainer {
    type V = ContainerModel;

    closed spec fn view(&self) -> ContainerModel {
        ContainerModel {
            method: self.method@,
            uri: self.uri@,
            version: self.version,
            status_code: self.status_code,
            request: self.request@,
            response: self.response@,
            state: self.state,
        }
    }
}

/// Builds a container from the parts of the inbound HTTP request.
pub struct RequestContainerBuilder {
    method: Option<String>,
    uri: Option<String>,
    version: Option<ProtocolVersion>,
    request: HttpContainer,
}

/// The mathematical shape of the builder.
pub ghost struct BuilderModel {
    pub method: Option<Seq<char>>,
    pub uri: Option<Seq<char>>,
    pub version: Option<ProtocolVersion>,
    pub request: HttpContainerView,
}

impl View for RequestContainerBuilder {
    type V = BuilderModel;

    closed spec fn view(&self) -> BuilderModel {
        BuilderModel {
            method: match self.method {
                Some(m) => Some(m@),
                None => None,
            },
            uri: match self.uri {
                Some(u) => Some(u@),
                None => None,
            },
            version: self.version,
            request: self.request@,
        }
    }
}

impl RequestContainerBuilder {
    /// An empty builder: nothing set, no headers, an empty body.
    pub fn new() -> (r: RequestContainerBuilder)
        ensures
            r@ == (BuilderModel {
                method: None,
                uri: None,
                version: None,
                request: HttpContainerView { headers: Seq::empty(), body: Seq::empty() },
            }),
            all_lowered(r@.request.headers),
    {
        let r = RequestContainerBuilder {
            method: None,
            uri: None,
            version: None,
            request: HttpContainer { headers: Vec::new(), body: Vec::new() },
        };
        proof {
            assert(r.request.headers.deep_view() =~= Seq::<HeaderView>::empty());
        }
        r
    }

    /// Sets the inbound method.
    pub fn method(self, method: String) -> (r: RequestContainerBuilder)
        ensures
            r@ == (BuilderModel { method: Some(method@), ..self@ }),
    {
        RequestContainerBuilder { method: Some(method), ..self }
    }

    /// Sets the inbound URI.
    pub fn uri(self, uri: String) -> (r: RequestContainerBuilder)
        ensures
            r@ == (BuilderModel { uri: Some(uri@), ..self@ }),
    {
        RequestContainerBuilder { uri: Some(uri), ..self }
    }

    /// Sets the inbound protocol version.
    pub fn version(self, version: ProtocolVersion) -> (r: RequestContainerBuilder)
        ensures
            r@ == (BuilderModel { version: Some(version), ..self@ }),
    {
        RequestContainerBuilder { version: Some(version), ..self }
    }

    /// Absorbs the inbound request headers, lower-casing the names.
    pub fn headers(self, headers: Vec<Header>) -> (r: RequestContainerBuilder)
        ensures
            r@ == (BuilderModel {
                request: HttpContainerView {
                    headers: lower_headers(headers.deep_view()),
                    ..self@.request
                },
                ..self@
            }),
            all_lowered(r@.request.headers),
    {
        proof {
            crate::headers::lemma_lower_headers_lowered(headers.deep_view());
        }
        let lowered = crate::headers::lower_all_names(&headers);
        RequestContainerBuilder {
            request: HttpContainer { headers: lowered, body: self.request.body },
            ..self
        }
    }

    /// Absorbs the inbound request body.
    pub fn body(self, body: Vec<u8>) -> (r: RequestContainerBuilder)
        ensures
            r@ == (BuilderModel {
                request: HttpContainerView { body: body@, ..self@.request },
                ..self@
            }),
    {
        RequestContainerBuilder {
            request: HttpContainer { headers: self.request.headers, body },
            ..self
        }
    }

    /// Builds the container: no status code yet, an empty response side, the
    /// request phase as the starting state. A container built from absorbed
    /// headers satisfies the container invariant.
    pub fn build(self) -> (r: RequestContainer)
        requires
            self@.method is Some,
            self@.uri is Some,
            self@.version is Some,
        ensures
            all_lowered(self@.request.headers) ==> r@.wf(),
            r@ == (ContainerModel {
                method: self@.method.unwrap(),
                uri: self@.uri.unwrap(),
                version: self@.version.unwrap(),
                status_code: None,
                request: self@.request,
                response: HttpContainerView { headers: Seq::empty(), body: Seq::empty() },
                state: ContainerState::MiddlewareRequest,
            }),
    {
        let r = RequestContainer {
            method: self.method.unwrap(),
            uri: self.uri.unwrap(),
            version: self.version.unwrap(),
            status_code: None,
            request: self.request,
            response: HttpContainer { headers: Vec::new(), body: Vec::new() },
            state: ContainerState::MiddlewareRequest,
        };
        proof {
            assert(r.response.headers.deep_view() =~= Seq::<HeaderView>::empty());
        }
        r
    }
}

impl RequestContainer {
    /// Sets the phase tag.
    pub fn state_set(&mut self, state: ContainerState)
        ensures
            final(self)@ == (ContainerModel { state, ..old(self)@ }),
    {
        self.state = state;
    }

    /// The phase tag.
    pub fn state(&self) -> (r: &ContainerState)
        ensures
            *r == self@.state,
    {
        &self.state
    }

    /// Replaces the response-side headers wholesale (from the backend
    /// response), lower-casing the names.
    pub fn response_headers_set(&mut self, headers: Vec<Header>)
        ensures
            final(self)@ == (ContainerModel {
                response: HttpContainerView {
                    headers: lower_headers(headers.deep_view()),
                    ..old(self)@.response
                },
                ..old(self)@
            }),
    {
        let lowered = crate::headers::lower_all_names(&headers);
        self.response.headers = lowered;
    }

    /// Sets the status code.
    pub fn status_code_set(&mut self, status_code: u16)
        requires
            100 <= status_code <= 599,
        ensures
            final(self)@ == (ContainerModel { status_code: Some(status_code), ..old(self)@ }),
    {
        self.status_code = Some(status_code);
    }

    /// Appends headers to the current side, validating and lower-casing
    /// each; on a malformed entry nothing changes and the problem comes back.
    pub fn add_headers(&mut self, headers: &Vec<Header>) -> (r: Result<(), HeaderError>)
        ensures
            r is Ok <==> first_problem(headers.deep_view()) is None,
            r is Ok ==> final(self)@ == (ContainerModel {
                request: HttpContainerView {
                    headers: old(self)@.request.headers + (if old(self)@.state
                        == ContainerState::MiddlewareRequest {
                        lower_headers(headers.deep_view())
                    } else {
                        Seq::empty()
                    }),
                    ..old(self)@.request
                },
                response: HttpContainerView {
                    headers: old(self)@.response.headers + (if old(self)@.state
                        == ContainerState::MiddlewareRequest {
                        Seq::empty()
                    } else {
                        lower_headers(headers.deep_view())
                    }),
                    ..old(self)@.response
                },
                ..old(self)@
            }),
            r matches Err(e) ==> first_problem(headers.deep_view()) == Some(e) && final(self)@
                == old(self)@,
    {
        let r = match self.state {
            ContainerState::MiddlewareRequest => add_headers_checked(
                &mut self.request.headers,
                headers,
            ),
            _ => add_headers_checked(&mut self.response.headers, headers),
        };
        proof {
            assert(old(self)@.request.headers + Seq::<HeaderView>::empty()
                =~= old(self)@.request.headers);
            assert(old(self)@.response.headers + Seq::<HeaderView>::empty()
                =~= old(self)@.response.headers);
        }
        r
    }

    /// Appends validated, lower-cased headers to the request side.
    pub fn add_request_headers(&mut self, headers: &Vec<Header>) -> (r: Result<(), HeaderError>)
        ensures
            r is Ok <==> first_problem(headers.deep_view()) is None,
            r is Ok ==> final(self)@ == (ContainerModel {
                request: HttpContainerView {
                    headers: old(self)@.request.headers + lower_headers(headers.deep_view()),
                    ..old(self)@.request
                },
                ..old(self)@
            }),
            r matches Err(e) ==> first_problem(headers.deep_view()) == Some(e) && final(self)@
                == old(self)@,
    {
        add_headers_checked(&mut self.request.headers, headers)
    }

    /// Appends validated, lower-cased headers to the response side.
    pub fn add_response_headers(&mut self, headers: &Vec<Header>) -> (r: Result<(), HeaderError>)
        ensures
            r is Ok <==> first_problem(headers.deep_view()) is None,
            r is Ok ==> final(self)@ == (ContainerModel {
                response: HttpContainerView {
                    headers: old(self)@.response.headers + lower_headers(headers.deep_view()),
                    ..old(self)@.response
                },
                ..old(self)@
            }),
            r matches Err(e) ==> first_problem(headers.deep_view()) == Some(e) && final(self)@
                == old(self)@,
    {
        add_headers_checked(&mut self.response.headers, headers)
    }

    /// Removes the named headers, case-insensitively, from the current side.
    pub fn remove_headers(&mut self, headers: &Vec<String>)
        ensures
            final(self)@ == (ContainerModel {
                request: HttpContainerView {
                    headers: if old(self)@.state == ContainerState::MiddlewareRequest {
                        remove_names(old(self)@.request.headers, headers.deep_view())
                    } else {
                        old(self)@.request.headers
                    },
                    ..old(self)@.request
                },
                response: HttpContainerView {
                    headers: if old(self)@.state == ContainerState::MiddlewareRequest {
                        old(self)@.response.headers
                    } else {
                        remove_names(old(self)@.response.headers, headers.deep_view())
                    },
                    ..old(self)@.response
                },
                ..old(self)@
            }),
    {
        match self.state {
            ContainerState::MiddlewareRequest => {
                self.request.headers = remove_headers_named(&self.request.headers, headers);
            },
            _ => {
                self.response.headers = remove_headers_named(&self.response.headers, headers);
            },
        }
    }

    /// Removes the named headers, case-insensitively, from the request side.
    pub fn remove_request_headers(&mut self, headers: &Vec<String>)
        ensures
            final(self)@ == (ContainerModel {
                request: HttpContainerView {
                    headers: remove_names(old(self)@.request.headers, headers.deep_view()),
                    ..old(self)@.request
                },
                ..old(self)@
            }),
    {
        self.request.headers = remove_headers_named(&self.request.headers, headers);
    }

    /// Removes the named headers, case-insensitively, from the response side.
    pub fn remove_response_headers(&mut self, headers: &Vec<String>)
        ensures
            final(self)@ == (ContainerModel {
                response: HttpContainerView {
                    headers: remove_names(old(self)@.response.headers, headers.deep_view()),
                    ..old(self)@.response
                },
                ..old(self)@
            }),
    {
        self.response.headers = remove_headers_named(&self.response.headers, headers);
    }

    /// Replaces the current side's body with the bytes of a string.
    pub fn body_set_string(&mut self, body: String)
        ensures
            final(self)@ == (ContainerModel {
                request: HttpContainerView {
                    body: if old(self)@.state == ContainerState::MiddlewareRequest {
                        encode_utf8(body@)
                    } else {
                        old(self)@.request.body
                    },
                    ..old(self)@.request
                },
                response: HttpContainerView {
                    body: if old(self)@.state == ContainerState::MiddlewareRequest {
                        old(self)@.response.body
                    } else {
                        encode_utf8(body@)
                    },
                    ..old(self)@.response
                },
                ..old(self)@
            }),
    {
        let bytes = string_to_bytes(body.as_str());
        match self.state {
            ContainerState::MiddlewareRequest => {
                self.request.body = bytes;
            },
            _ => {
                self.response.body = bytes;
            },
        }
    }

    /// Replaces the current side's body with raw bytes.
    pub fn body_set_bytes(&mut self, body: Vec<u8>)
        ensures
            final(self)@ == (ContainerModel {
                request: HttpContainerView {
                    body: if old(self)@.state == ContainerState::MiddlewareRequest {
                        body@
                    } else {
                        old(self)@.request.body
                    },
                    ..old(self)@.request
                },
                response: HttpContainerView {
                    body: if old(self)@.state == ContainerState::MiddlewareRequest {
                        old(self)@.response.body
                    } else {
                        body@
                    },
                    ..old(self)@.response
                },
                ..old(self)@
            }),
    {
        match self.state {
            ContainerState::MiddlewareRequest => {
                self.request.body = body;
            },
            _ => {
                self.response.body = body;
            },
        }
    }

    /// Replaces the request-side body with the bytes of a string.
    pub fn request_body_set_string(&mut self, body: String)
        ensures
            final(self)@ == (ContainerModel {
                request: HttpContainerView { body: encode_utf8(body@), ..old(self)@.request },
                ..old(self)@
            }),
    {
        self.request.body = string_to_bytes(body.as_str());
    }

    /// Replaces the response-side body with the bytes of a string.
    pub fn response_body_set_string(&mut self, body: String)
        ensures
            final(self)@ == (ContainerModel {
                response: HttpContainerView { body: encode_utf8(body@), ..old(self)@.response },
                ..old(self)@
            }),
    {
        self.response.body = string_to_bytes(body.as_str());
    }

    /// Replaces the response-side body with raw bytes.
    pub fn response_body_set_bytes(&mut self, body: Vec<u8>)
        ensures
            final(self)@ == (ContainerModel {
                response: HttpContainerView { body: body@, ..old(self)@.response },
                ..old(self)@
            }),
    {
        self.response.body = body;
    }

    /// Clears the response-side body.
    pub fn response_body_clear(&mut self)
        ensures
            final(self)@ == (ContainerModel {
                response: HttpContainerView { body: Seq::empty(), ..old(self)@.response },
                ..old(self)@
            }),
    {
        self.response.body = Vec::new();
        proof {
            assert(self.response.body@ =~= Seq::<u8>::empty());
        }
    }

    /// The inbound method.
    pub fn method(&self) -> (r: String)
        ensures
            r@ == self@.method,
    {
        self.method.clone()
    }

    /// The inbound protocol version.
    pub fn version(&self) -> (r: ProtocolVersion)
        ensures
            r == self@.version,
    {
        self.version
    }

    /// The inbound URI.
    pub fn uri(&self) -> (r: String)
        ensures
            r@ == self@.uri,
    {
        self.uri.clone()
    }

    /// A copy of the current side's headers.
    pub fn headers(&self) -> (r: Vec<Header>)
        ensures
            r.deep_view() == self@.current().headers,
    {
        match self.state {
            ContainerState::MiddlewareRequest => dup_headers(&self.request.headers),
            _ => dup_headers(&self.response.headers),
        }
    }

    /// A copy of the request-side headers.
    pub fn request_headers(&self) -> (r: Vec<Header>)
        ensures
            r.deep_view() == self@.request.headers,
    {
        dup_headers(&self.request.headers)
    }

    /// A copy of the response-side headers.
    pub fn response_headers(&self) -> (r: Vec<Header>)
        ensures
            r.deep_view() == self@.response.headers,
    {
        dup_headers(&self.response.headers)
    }

    /// The request body decoded as UTF-8; fails exactly when the bytes are
    /// not valid UTF-8.
    pub fn request_body(&self) -> (r: Result<String, BodyError>)
        ensures
            r is Ok <==> valid_utf8(self@.request.body),
            r matches Ok(s) ==> s@ == decode_utf8(self@.request.body),
    {
        match bytes_to_string(&self.request.body) {
            Some(s) => Ok(s),
            None => Err(BodyError {  }),
        }
    }

    /// The response body decoded as UTF-8; fails exactly when the bytes are
    /// not valid UTF-8.
    pub fn response_body(&self) -> (r: Result<String, BodyError>)
        ensures
            r is Ok <==> valid_utf8(self@.response.body),
            r matches Ok(s) ==> s@ == decode_utf8(self@.response.body),
    {
        match bytes_to_string(&self.response.body) {
            Some(s) => Ok(s),
            None => Err(BodyError {  }),
        }
    }

    /// A copy of the request body bytes.
    pub fn request_body_raw(&self) -> (r: Vec<u8>)
        ensures
            r@ == self@.request.body,
    {
        let mut r: Vec<u8> = Vec::new();
        r.extend_from_slice(self.request.body.as_slice());
        proof {
            assert(r@ =~= self@.request.body);
        }
        r
    }

    /// A copy of the response body bytes.
    pub fn response_body_raw(&self) -> (r: Vec<u8>)
        ensures
            r@ == self@.response.body,
    {
        let mut r: Vec<u8> = Vec::new();
        r.extend_from_slice(self.response.body.as_slice());
        proof {
            assert(r@ =~= self@.response.body);
        }
        r
    }

    /// The status code, if set.
    pub fn status_code(&self) -> (r: Option<u16>)
        ensures
            r == self@.status_code,
    {
        self.status_code
    }

    /// The current side's body decoded as UTF-8; fails exactly when the
    /// bytes are not valid UTF-8.
    pub fn body(&self) -> (r: Result<String, BodyError>)
        ensures
            r is Ok <==> valid_utf8(self@.current().body),
            r matches Ok(s) ==> s@ == decode_utf8(self@.current().body),
    {
        match self.state {
            ContainerState::MiddlewareRequest => self.request_body(),
            _ => self.response_body(),
        }
    }
}

/// A body that is not valid UTF-8 where a string is needed.
#[derive(Clone, Copy, PartialEq, Eq, Structural, Debug)]
pub struct BodyError {}

} // verus!

//! One configured middleware endpoint: URL, phase-enable flags, per-call
//! deadline, and the optional live RPC channel. Immutable once built; a
//! broken channel is replaced wholesale by registry reconnection.

use vstd::prelude::*;
use crate::DEFAULT_TIMEOUT_MILLIS;

verus! {

/// tonic's client channel: the live RPC connection handle attached to an
/// endpoint. The library only stores and clones it; dialing and calling
/// happen outside.
#[verifier::external_type_specification]
#[verifier::external_body]
pub struct ExChannel(tonic::transport::Channel);

/// Relies on tonic's `Channel: Clone`: cloning yields another handle to the
/// same connection; the library claims nothing about the value.
pub assume_specification[ <tonic::transport::Channel as Clone>::clone ](
    c: &tonic::transport::Channel,
) -> tonic::transport::Channel;

/// The mathematical shape of one endpoint; the channel itself is opaque, so
/// only its presence is modelled.
pub ghost struct MiddlewareView {
    pub url: Seq<char>,
    pub connected: bool,
    pub timeout_ms: u64,
    pub request: bool,
    pub response: bool,
}

/// One middleware endpoint.
pub struct Middleware {
    url: String,
    connection: Option<tonic::transport::Channel>,
    timeout_ms: u64,
    request: bool,
    response: bool,
}

impl View for Middleware {
    type V = MiddlewareView;

    closed spec fn view(&self) -> MiddlewareView {
        MiddlewareView {
            url: self.url@,
            connected: self.connection is Some,
            timeout_ms: self.timeout_ms,
            request: self.request,
            response: self.response,
        }
    }
}

impl DeepView for Middleware {
    type V = MiddlewareView;

    open spec fn deep_view(&self) -> MiddlewareView {
        self@
    }
}

impl Middleware {
    /// The endpoint's URL.
    pub fn url(&self) -> (r: &String)
        ensures
            r@ == self@.url,
    {
        &self.url
    }

    /// Whether the endpoint takes part in the request phase.
    pub fn request(&self) -> (r: bool)
        ensures
            r == self@.request,
    {
        self.request
    }

    /// Whether the endpoint takes part in the response phase.
    pub fn response(&self) -> (r: bool)
        ensures
            r == self@.response,
    {
        self.response
    }

    /// The live channel, or absent when the endpoint could not be dialed.
    pub fn connection(&self) -> (r: &Option<tonic::transport::Channel>)
        ensures
            *r is Some <==> self@.connected,
    {
        &self.connection
    }

    /// The per-call deadline in milliseconds.
    pub fn timeout_ms(&self) -> (r: u64)
        ensures
            r == self@.timeout_ms,
    {
        self.timeout_ms
    }

    /// A copy of the endpoint, sharing the channel.
    pub fn duplicate(&self) -> (r: Middleware)
        ensures
            r@ == self@,
    {
        let connection = match &self.connection {
            Some(c) => Some(c.clone()),
            None => None,
        };
        Middleware {
            url: self.url.clone(),
            connection,
            timeout_ms: self.timeout_ms,
            request: self.request,
            response: self.response,
        }
    }
}

/// The mathematical shape of the endpoint builder.
pub ghost struct MiddlewareBuilderView {
    pub url: Option<Seq<char>>,
    pub connected: bool,
    pub request: Option<bool>,
    pub response: Option<bool>,
    pub timeout_millis: Option<u32>,
}

/// Builds one endpoint field by field.
pub struct MiddlewareBuilder {
    url: Option<String>,
    connection: Option<tonic::transport::Channel>,
    request: Option<bool>,
    response: Option<bool>,
    timeout_millis: Option<u32>,
}

impl View for MiddlewareBuilder {
    type V = MiddlewareBuilderView;

    closed spec fn view(&self) -> MiddlewareBuilderView {
        MiddlewareBuilderView {
            url: match self.url {
                Some(u) => Some(u@),
                None => None,
            },
            connected: self.connection is Some,
            request: self.request,
            response: self.response,
            timeout_millis: self.timeout_millis,
        }
    }
}

impl MiddlewareBuilder {
    /// An empty builder.
    pub fn new() -> (r: MiddlewareBuilder)
        ensures
            r@ == (MiddlewareBuilderView {
                url: None,
                connected: false,
                request: None,
                response: None,
                timeout_millis: None,
            }),
    {
        MiddlewareBuilder {
            url: None,
            connection: None,
            request: None,
            response: None,
            timeout_millis: None,
        }
    }

    /// Sets the URL.
    pub fn url(self, url: String) -> (r: MiddlewareBuilder)
        ensures
            r@ == (MiddlewareBuilderView { url: Some(url@), ..self@ }),
    {
        MiddlewareBuilder { url: Some(url), ..self }
    }

    /// Sets the request-phase flag.
    pub fn request(self, enabled: bool) -> (r: MiddlewareBuilder)
        ensures
            r@ == (MiddlewareBuilderView { request: Some(enabled), ..self@ }),
    {
        MiddlewareBuilder { request: Some(enabled), ..self }
    }

    /// Sets the response-phase flag.
    pub fn response(self, enabled: bool) -> (r: MiddlewareBuilder)
        ensures
            r@ == (MiddlewareBuilderView { response: Some(enabled), ..self@ }),
    {
        MiddlewareBuilder { response: Some(enabled), ..self }
    }

    /// Attaches the dialed channel, or its absence.
    pub fn connection(self, connection: Option<tonic::transport::Channel>) -> (r: MiddlewareBuilder)
        ensures
            r@ == (MiddlewareBuilderView { connected: connection is Some, ..self@ }),
    {
        MiddlewareBuilder { connection, ..self }
    }

    /// Sets the per-call deadline: the given value, or the default when
    /// unconfigured.
    pub fn timeout_millis(self, ms: Option<u32>) -> (r: MiddlewareBuilder)
        ensures
            r@ == (MiddlewareBuilderView {
                timeout_millis: Some(ms.unwrap_or(DEFAULT_TIMEOUT_MILLIS)),
                ..self@
            }),
    {
        match ms {
            Some(val) => MiddlewareBuilder { timeout_millis: Some(val), ..self },
            None => MiddlewareBuilder { timeout_millis: Some(DEFAULT_TIMEOUT_MILLIS), ..self },
        }
    }

    /// Builds the endpoint; the URL and the deadline must have been set, the
    /// phase flags default to disabled.
    pub fn build(&self) -> (r: Middleware)
        requires
            self@.url is Some,
            self@.timeout_millis is Some,
        ensures
            r@ == (MiddlewareView {
                url: self@.url.unwrap(),
                connected: self@.connected,
                timeout_ms: self@.timeout_millis.unwrap() as u64,
                request: self@.request.unwrap_or(false),
                response: self@.response.unwrap_or(false),
            }),
    {
        let url = match &self.url {
            Some(u) => u.clone(),
            None => {
                proof {
                    assert(false);
                }
                String::new()
            },
        };
        let connection = match &self.connection {
            Some(c) => Some(c.clone()),
            None => None,
        };
        let timeout_millis = match self.timeout_millis {
            Some(t) => t,
            None => {
                proof {
                    assert(false);
                }
                DEFAULT_TIMEOUT_MILLIS
            },
        };
        Middleware {
            url,
            connection,
            timeout_ms: timeout_millis as u64,
            request: self.request.unwrap_or(false),
            response: self.response.unwrap_or(false),
        }
    }
}

} // verus!

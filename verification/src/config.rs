//! The gateway configuration: bind address, backend, and the ordered list of
//! middleware endpoints, together with the defaults applied to the optional
//! fields.

use vstd::prelude::*;
use crate::DEFAULT_TIMEOUT_MILLIS;

verus! {

/// How the backend is spoken to.
#[derive(Clone, Copy, PartialEq, Eq, Structural, Debug)]
pub enum HttpVersion {
    HTTP,
    HTTP2,
}

/// One configured middleware endpoint.
pub struct MiddlewareConfig {
    pub url: String,
    pub timeout_ms: Option<u32>,
    pub request: bool,
    pub response: bool,
}

/// The mathematical shape of one middleware configuration entry.
pub ghost struct MiddlewareConfigView {
    pub url: Seq<char>,
    pub timeout_ms: Option<u32>,
    pub request: bool,
    pub response: bool,
}

impl View for MiddlewareConfig {
    type V = MiddlewareConfigView;

    open spec fn view(&self) -> MiddlewareConfigView {
        MiddlewareConfigView {
            url: self.url@,
            timeout_ms: self.timeout_ms,
            request: self.request,
            response: self.response,
        }
    }
}

impl DeepView for MiddlewareConfig {
    type V = MiddlewareConfigView;

    open spec fn deep_view(&self) -> MiddlewareConfigView {
        self@
    }
}

/// The backend section of the configuration.
pub struct Backend {
    pub url: String,
    pub timeout_ms: Option<u32>,
    pub version: Option<HttpVersion>,
}

/// The mathematical shape of the backend section.
pub ghost struct BackendView {
    pub url: Seq<char>,
    pub timeout_ms: Option<u32>,
    pub version: Option<HttpVersion>,
}

impl View for Backend {
    type V = BackendView;

    open spec fn view(&self) -> BackendView {
        BackendView { url: self.url@, timeout_ms: self.timeout_ms, version: self.version }
    }
}

/// The whole configuration document.
pub struct Config {
    pub ip: Option<String>,
    pub port: Option<u16>,
    pub log: Option<String>,
    pub backend: Backend,
    pub middlewares: Vec<MiddlewareConfig>,
}

/// The mathematical shape of the configuration.
pub ghost struct ConfigView {
    pub ip: Option<Seq<char>>,
    pub port: Option<u16>,
    pub log: Option<Seq<char>>,
    pub backend: BackendView,
    pub middlewares: Seq<MiddlewareConfigView>,
}

impl View for Config {
    type V = ConfigView;

    open spec fn view(&self) -> ConfigView {
        ConfigView {
            ip: match self.ip {
                Some(s) => Some(s@),
                None => None,
            },
            port: self.port,
            log: match self.log {
                Some(s) => Some(s@),
                None => None,
            },
            backend: self.backend@,
            middlewares: self.middlewares.deep_view(),
        }
    }
}

impl Config {
    /// The address requests are accepted on: the configured one, or the
    /// loopback address.
    pub fn effective_ip(&self) -> (r: String)
        ensures
            self@.ip matches Some(ip) ==> r@ == ip,
            self@.ip is None ==> r@ == "127.0.0.1"@,
    {
        match &self.ip {
            Some(ip) => ip.clone(),
            None => String::from_str("127.0.0.1"),
        }
    }

    /// The port requests are accepted on: the configured one, or 17000.
    pub fn effective_port(&self) -> (r: u16)
        ensures
            r == self@.port.unwrap_or(17000u16),
    {
        match self.port {
            Some(p) => p,
            None => 17000,
        }
    }

    /// The backend deadline in milliseconds: the configured one, or the
    /// default.
    pub fn backend_timeout_ms(&self) -> (r: u32)
        ensures
            r == self@.backend.timeout_ms.unwrap_or(DEFAULT_TIMEOUT_MILLIS),
    {
        match self.backend.timeout_ms {
            Some(t) => t,
            None => DEFAULT_TIMEOUT_MILLIS,
        }
    }

    /// How the backend is spoken to: the configured version, or plain HTTP.
    pub fn backend_version(&self) -> (r: HttpVersion)
        ensures
            r == self@.backend.version.unwrap_or(HttpVersion::HTTP),
    {
        match self.backend.version {
            Some(v) => v,
            None => HttpVersion::HTTP,
        }
    }
}

/// A copy of one middleware configuration entry.
pub fn dup_middleware_config(c: &MiddlewareConfig) -> (r: MiddlewareConfig)
    ensures
        r@ == c@,
{
    MiddlewareConfig {
        url: c.url.clone(),
        timeout_ms: c.timeout_ms,
        request: c.request,
        response: c.response,
    }
}

/// A copy of the backend section.
pub fn dup_backend(b: &Backend) -> (r: Backend)
    ensures
        r@ == b@,
{
    Backend { url: b.url.clone(), timeout_ms: b.timeout_ms, version: b.version }
}

/// A copy of the whole configuration.
pub fn dup_config(c: &Config) -> (r: Config)
    ensures
        r@ == c@,
{
    let ip = match &c.ip {
        Some(s) => Some(s.clone()),
        None => None,
    };
    let log = match &c.log {
        Some(s) => Some(s.clone()),
        None => None,
    };
    let mut middlewares: Vec<MiddlewareConfig> = Vec::new();
    let mut i: usize = 0;
    while i < c.middlewares.len()
        invariant
            i <= c.middlewares.len(),
            middlewares.deep_view() =~= c.middlewares.deep_view().take(i as int),
        decreases c.middlewares.len() - i,
    {
        let ghost prev = middlewares.deep_view();
        middlewares.push(dup_middleware_config(&c.middlewares[i]));
        proof {
            assert(middlewares.deep_view() =~= prev.push(c.middlewares.deep_view()[i as int]));
        }
        i = i + 1;
    }
    proof {
        assert(c.middlewares.deep_view().take(c.middlewares.len() as int)
            =~= c.middlewares.deep_view());
    }
    Config { ip, port: c.port, log, backend: dup_backend(&c.backend), middlewares }
}

} // verus!

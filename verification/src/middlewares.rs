//! The endpoint registry: the ordered collection of middleware endpoints,
//! its request- and response-phase projections, and reconnection of
//! endpoints whose channel is absent. Reconnection builds a new registry;
//! callers replace the old one wholesale, so in-flight requests keep their
//! snapshot.

use vstd::prelude::*;
use crate::config::{Config, MiddlewareConfig, MiddlewareConfigView, ConfigView, dup_config};
use crate::middleware::{Middleware, MiddlewareBuilder, MiddlewareView};
use crate::DEFAULT_TIMEOUT_MILLIS;

verus! {

/// The mathematical shape of the registry.
pub ghost struct MiddlewaresView {
    pub inner: Seq<MiddlewareView>,
    pub config: ConfigView,
}

/// The endpoint built from one configuration entry, with or without a live
/// channel.
pub open spec fn endpoint_of_config(c: MiddlewareConfigView, connected: bool) -> MiddlewareView {
    MiddlewareView {
        url: c.url,
        connected,
        timeout_ms: c.timeout_ms.unwrap_or(DEFAULT_TIMEOUT_MILLIS) as u64,
        request: c.request,
        response: c.response,
    }
}

/// The first configuration entry with the given URL, if any.
pub open spec fn first_config_with_url(cfg: Seq<MiddlewareConfigView>, url: Seq<char>) -> Option<
    MiddlewareConfigView,
>
    decreases cfg.len(),
{
    if cfg.len() == 0 {
        None
    } else if cfg.first().url == url {
        Some(cfg.first())
    } else {
        first_config_with_url(cfg.drop_first(), url)
    }
}

/// How many of the first `upto` endpoints have no live channel.
pub open spec fn count_disconnected(s: Seq<MiddlewareView>, upto: int) -> int
    decreases upto,
{
    if upto <= 0 {
        0
    } else {
        count_disconnected(s, upto - 1) + (if s[upto - 1].connected {
            0int
        } else {
            1int
        })
    }
}

pub proof fn lemma_count_disconnected_mono(s: Seq<MiddlewareView>, i: int, j: int)
    requires
        0 <= i <= j,
    ensures
        count_disconnected(s, i) <= count_disconnected(s, j),
    decreases j - i,
{
    if i < j {
        lemma_count_disconnected_mono(s, i, j - 1);
    }
}

/// Whether each dial attempt produced a channel.
pub open spec fn dial_flags(d: Seq<Option<tonic::transport::Channel>>) -> Seq<bool> {
    d.map_values(|o: Option<tonic::transport::Channel>| o is Some)
}

/// The registry after one reconnection pass: every endpoint with a live
/// channel is kept as it is; every other one is rebuilt from the first
/// configuration entry with its URL, attached to the outcome of its dial
/// (dials are consumed in endpoint order).
pub open spec fn reconnect_model(
    s: Seq<MiddlewareView>,
    cfg: Seq<MiddlewareConfigView>,
    dials: Seq<bool>,
) -> Seq<MiddlewareView> {
    Seq::new(
        s.len(),
        |i: int|
            if s[i].connected {
                s[i]
            } else {
                endpoint_of_config(
                    first_config_with_url(cfg, s[i].url).unwrap(),
                    dials[count_disconnected(s, i)],
                )
            },
    )
}

/// The URLs of the endpoints without a live channel, in order.
pub open spec fn disconnected_urls(s: Seq<MiddlewareView>) -> Seq<Seq<char>>
    decreases s.len(),
{
    if s.len() == 0 {
        Seq::empty()
    } else {
        let rest = disconnected_urls(s.drop_last());
        if s.last().connected {
            rest
        } else {
            rest.push(s.last().url)
        }
    }
}

/// Reconnection is idempotent on a fully connected registry: with every
/// endpoint holding a live channel a reconnection pass changes nothing, so
/// two consecutive passes yield a registry observationally equal to the
/// original.
pub proof fn lemma_ensure_connected_idempotent(
    s: Seq<MiddlewareView>,
    cfg: Seq<MiddlewareConfigView>,
)
    requires
        forall|i: int| 0 <= i < s.len() ==> (#[trigger] s[i]).connected,
    ensures
        reconnect_model(s, cfg, Seq::empty()) == s,
        reconnect_model(reconnect_model(s, cfg, Seq::empty()), cfg, Seq::empty()) == s,
{
    assert(reconnect_model(s, cfg, Seq::empty()) =~= s);
}

/// The ordered request-phase projection of the registry.
pub open spec fn request_subseq(s: Seq<MiddlewareView>) -> Seq<MiddlewareView>
    decreases s.len(),
{
    if s.len() == 0 {
        Seq::empty()
    } else {
        let rest = request_subseq(s.drop_last());
        if s.last().request {
            rest.push(s.last())
        } else {
            rest
        }
    }
}

/// The ordered response-phase projection of the registry.
pub open spec fn response_subseq(s: Seq<MiddlewareView>) -> Seq<MiddlewareView>
    decreases s.len(),
{
    if s.len() == 0 {
        Seq::empty()
    } else {
        let rest = response_subseq(s.drop_last());
        if s.last().response {
            rest.push(s.last())
        } else {
            rest
        }
    }
}

/// The registry: the ordered endpoints and the configuration they were built
/// from (kept to rebuild endpoints on reconnection).
pub struct Middlewares {
    inner: Vec<Middleware>,
    config: Config,
}

impl View for Middlewares {
    type V = MiddlewaresView;

    closed spec fn view(&self) -> MiddlewaresView {
        MiddlewaresView { inner: self.inner.deep_view(), config: self.config@ }
    }
}

/// The first configuration entry with the given URL.
fn find_config<'a>(cfg: &'a Vec<MiddlewareConfig>, url: &String) -> (r: Option<
    &'a MiddlewareConfig,
>)
    ensures
        r matches Some(c) ==> first_config_with_url(cfg.deep_view(), url@) == Some(c@),
        r is None <==> first_config_with_url(cfg.deep_view(), url@) is None,
{
    let mut i: usize = 0;
    proof {
        assert(cfg.deep_view().skip(0) =~= cfg.deep_view());
    }
    while i < cfg.len()
        invariant
            i <= cfg.len(),
            first_config_with_url(cfg.deep_view(), url@) == first_config_with_url(
                cfg.deep_view().skip(i as int),
                url@,
            ),
        decreases cfg.len() - i,
    {
        proof {
            assert(cfg.deep_view().skip(i as int).first() == cfg.deep_view()[i as int]);
            assert(cfg.deep_view().skip(i as int).drop_first() =~= cfg.deep_view().skip(i + 1));
        }
        if cfg[i].url.eq(url) {
            return Some(&cfg[i]);
        }
        i = i + 1;
    }
    proof {
        assert(cfg.deep_view().skip(cfg.len() as int) =~= Seq::<MiddlewareConfigView>::empty());
    }
    None
}

impl Middlewares {
    /// All endpoints, in configuration order.
    pub fn all(&self) -> (r: &Vec<Middleware>)
        ensures
            r.deep_view() == self@.inner,
    {
        &self.inner
    }

    /// The endpoints enabled for the request phase, in order.
    pub fn request(&self) -> (r: Vec<&Middleware>)
        ensures
            r.deep_view() == request_subseq(self@.inner),
    {
        let mut r: Vec<&Middleware> = Vec::new();
        let mut i: usize = 0;
        while i < self.inner.len()
            invariant
                i <= self.inner.len(),
                r.deep_view() =~= request_subseq(self@.inner.take(i as int)),
            decreases self.inner.len() - i,
        {
            proof {
                assert(self@.inner.take(i + 1).drop_last() =~= self@.inner.take(i as int));
                assert(self@.inner.take(i + 1).last() == self@.inner[i as int]);
            }
            if self.inner[i].request() {
                let ghost prev = r.deep_view();
                r.push(&self.inner[i]);
                proof {
                    assert(r.deep_view() =~= prev.push(self@.inner[i as int]));
                }
            }
            i = i + 1;
        }
        proof {
            assert(self@.inner.take(self.inner.len() as int) =~= self@.inner);
        }
        r
    }

    /// The endpoints enabled for the response phase, in order.
    pub fn response(&self) -> (r: Vec<&Middleware>)
        ensures
            r.deep_view() == response_subseq(self@.inner),
    {
        let mut r: Vec<&Middleware> = Vec::new();
        let mut i: usize = 0;
        while i < self.inner.len()
            invariant
                i <= self.inner.len(),
                r.deep_view() =~= response_subseq(self@.inner.take(i as int)),
            decreases self.inner.len() - i,
        {
            proof {
                assert(self@.inner.take(i + 1).drop_last() =~= self@.inner.take(i as int));
                assert(self@.inner.take(i + 1).last() == self@.inner[i as int]);
            }
            if self.inner[i].response() {
                let ghost prev = r.deep_view();
                r.push(&self.inner[i]);
                proof {
                    assert(r.deep_view() =~= prev.push(self@.inner[i as int]));
                }
            }
            i = i + 1;
        }
        proof {
            assert(self@.inner.take(self.inner.len() as int) =~= self@.inner);
        }
        r
    }

    /// An empty registry remembering its configuration.
    pub fn with_config(config: &Config) -> (r: Middlewares)
        ensures
            r@ == (MiddlewaresView { inner: Seq::empty(), config: config@ }),
    {
        let r = Middlewares { inner: Vec::new(), config: dup_config(config) };
        proof {
            assert(r.inner.deep_view() =~= Seq::<MiddlewareView>::empty());
        }
        r
    }

    /// Appends an existing endpoint, channel and all.
    pub fn insert_existing(&mut self, item: &Middleware)
        ensures
            final(self)@ == (MiddlewaresView {
                inner: old(self)@.inner.push(item@),
                ..old(self)@
            }),
    {
        let ghost prev = self.inner.deep_view();
        self.inner.push(item.duplicate());
        proof {
            assert(self.inner.deep_view() =~= prev.push(item@));
        }
    }

    /// Appends the endpoint built from one configuration entry, attached to
    /// the outcome of its dial.
    pub fn insert(&mut self, middleware: &MiddlewareConfig, connection: Option<
        tonic::transport::Channel,
    >)
        ensures
            final(self)@ == (MiddlewaresView {
                inner: old(self)@.inner.push(
                    endpoint_of_config(middleware@, connection is Some),
                ),
                ..old(self)@
            }),
    {
        let built = MiddlewareBuilder::new().url(middleware.url.clone()).connection(
            connection,
        ).request(middleware.request).response(middleware.response).timeout_millis(
            middleware.timeout_ms,
        ).build();
        let ghost prev = self.inner.deep_view();
        self.inner.push(built);
        proof {
            assert(self.inner.deep_view() =~= prev.push(
                endpoint_of_config(middleware@, connection is Some),
            ));
        }
    }

    /// A copy of the registry, sharing the channels: the snapshot one
    /// request works against.
    pub fn duplicate(&self) -> (r: Middlewares)
        ensures
            r@ == self@,
    {
        let mut r = Middlewares::with_config(&self.config);
        let mut i: usize = 0;
        while i < self.inner.len()
            invariant
                i <= self.inner.len(),
                r@.config == self@.config,
                r@.inner =~= self@.inner.take(i as int),
            decreases self.inner.len() - i,
        {
            r.insert_existing(&self.inner[i]);
            i = i + 1;
        }
        proof {
            assert(self@.inner.take(self.inner.len() as int) =~= self@.inner);
        }
        r
    }

    /// Whether some endpoint has no live channel — the readiness hook's
    /// test.
    pub fn needs_reconnect(&self) -> (r: bool)
        ensures
            r == exists|i: int|
                0 <= i < self@.inner.len() && !(#[trigger] self@.inner[i]).connected,
    {
        let mut i: usize = 0;
        while i < self.inner.len()
            invariant
                i <= self.inner.len(),
                forall|j: int| 0 <= j < i ==> (#[trigger] self@.inner[j]).connected,
            decreases self.inner.len() - i,
        {
            if self.inner[i].connection().is_none() {
                proof {
                    assert(!self@.inner[i as int].connected);
                }
                return true;
            }
            i = i + 1;
        }
        false
    }

    /// The URLs to dial for a reconnection pass: those of the endpoints
    /// without a live channel, in order.
    pub fn reconnect_urls(&self) -> (r: Vec<String>)
        ensures
            r.deep_view() == disconnected_urls(self@.inner),
            r@.len() == count_disconnected(self@.inner, self@.inner.len() as int),
    {
        let mut r: Vec<String> = Vec::new();
        let mut i: usize = 0;
        while i < self.inner.len()
            invariant
                i <= self.inner.len(),
                r.deep_view() =~= disconnected_urls(self@.inner.take(i as int)),
                r@.len() == count_disconnected(self@.inner, i as int),
            decreases self.inner.len() - i,
        {
            proof {
                assert(self@.inner.take(i + 1).drop_last() =~= self@.inner.take(i as int));
                assert(self@.inner.take(i + 1).last() == self@.inner[i as int]);
            }
            if self.inner[i].connection().is_none() {
                let ghost prev = r.deep_view();
                r.push(self.inner[i].url().clone());
                proof {
                    assert(r.deep_view() =~= prev.push(self@.inner[i as int].url));
                }
            }
            i = i + 1;
        }
        proof {
            assert(self@.inner.take(self.inner.len() as int) =~= self@.inner);
        }
        r
    }

    /// One reconnection pass: a new registry in which every endpoint with a
    /// live channel is copied as it is, and every other one is rebuilt from
    /// the first configuration entry with its URL, attached to the outcome
    /// of its dial. Dials are consumed in endpoint order, one per endpoint
    /// without a channel.
    pub fn ensure_connected(&self, dials: Vec<Option<tonic::transport::Channel>>) -> (r:
        Middlewares)
        requires
            dials@.len() == count_disconnected(self@.inner, self@.inner.len() as int),
            forall|i: int|
                0 <= i < self@.inner.len() && !(#[trigger] self@.inner[i]).connected
                    ==> first_config_with_url(self@.config.middlewares, self@.inner[i].url)
                    is Some,
        ensures
            r@.config == self@.config,
            r@.inner == reconnect_model(
                self@.inner,
                self@.config.middlewares,
                dial_flags(dials@),
            ),
    {
        let ghost alldials = dials@;
        let mut dials = dials;
        let mut out = Middlewares::with_config(&self.config);
        let mut i: usize = 0;
        while i < self.inner.len()
            invariant
                i <= self.inner.len(),
                alldials.len() == count_disconnected(self@.inner, self@.inner.len() as int),
                forall|k: int|
                    0 <= k < self@.inner.len() && !(#[trigger] self@.inner[k]).connected
                        ==> first_config_with_url(self@.config.middlewares, self@.inner[k].url)
                        is Some,
                out@.config == self@.config,
                dials@ =~= alldials.skip(count_disconnected(self@.inner, i as int)),
                out@.inner =~= reconnect_model(
                    self@.inner,
                    self@.config.middlewares,
                    dial_flags(alldials),
                ).take(i as int),
            decreases self.inner.len() - i,
        {
            proof {
                lemma_count_disconnected_mono(self@.inner, i + 1, self@.inner.len() as int);
                assert(count_disconnected(self@.inner, i + 1) == count_disconnected(
                    self@.inner,
                    i as int,
                ) + (if self@.inner[i as int].connected {
                    0int
                } else {
                    1int
                }));
            }
            let ghost c0 = count_disconnected(self@.inner, i as int);
            if self.inner[i].connection().is_some() {
                out.insert_existing(&self.inner[i]);
            } else {
                match find_config(&self.config.middlewares, self.inner[i].url()) {
                    Some(c) => {
                        proof {
                            lemma_count_disconnected_mono(self@.inner, 0, i as int);
                            assert(count_disconnected(self@.inner, i + 1) == c0 + 1);
                            assert(alldials.len() >= c0 + 1);
                            assert(dials@.len() == alldials.len() - c0);
                        }
                        let ghost dv = dials@;
                        let d = dials.remove(0);
                        proof {
                            assert(d == dv[0]);
                            assert(dv[0] == alldials.skip(c0)[0]);
                            assert(alldials.skip(c0)[0] == alldials[c0]);
                            assert(dials@ =~= dv.remove(0));
                            assert(dials@ =~= alldials.skip(c0 + 1));
                            assert(dial_flags(alldials)[c0] == (alldials[c0] is Some));
                            assert(first_config_with_url(
                                self@.config.middlewares,
                                self@.inner[i as int].url,
                            ) == Some(c@));
                        }
                        out.insert(c, d);
                    },
                    None => {
                        proof {
                            assert(false);
                        }
                    },
                }
            }
            proof {
                assert(out@.inner =~= reconnect_model(
                    self@.inner,
                    self@.config.middlewares,
                    dial_flags(alldials),
                ).take(i + 1));
            }
            i = i + 1;
        }
        proof {
            assert(reconnect_model(
                self@.inner,
                self@.config.middlewares,
                dial_flags(alldials),
            ).take(self@.inner.len() as int) =~= reconnect_model(
                self@.inner,
                self@.config.middlewares,
                dial_flags(alldials),
            ));
        }
        out
    }
}

} // verus!

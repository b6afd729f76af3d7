//! The request orchestrator: the per-request state machine that drives one
//! exchange through the request-phase middleware chain, the backend call and
//! the response-phase middleware chain. It decides; the transports act. Each
//! decision step hands back an action — call this endpoint, call the
//! backend, or write this response — and consumes the outcome of the
//! previous action as an event. Clock readings come in as monotonic
//! millisecond values.

use vstd::prelude::*;
use vstd::utf8::valid_utf8;
use crate::container::{RequestContainer, ContainerModel, ContainerState};
use crate::config::Config;
use crate::handler::{
    ContainerHandler, HandlerModel, BackendRequestParts, BackendRequestView, outcome_problem,
    apply_request_outcome, apply_response_outcome,
};
use crate::headers::{Header, HeaderView, first_problem, content_length_name, remove_names};
use crate::messages::{
    RequestRequest, RequestRequestView, ResponseRequest, ResponseRequestView, RequestResponse,
    ResponseResponse, ResponseStatus, OutcomeView,
};
use crate::middleware::MiddlewareView;
use crate::middlewares::Middlewares;
use crate::responses::{
    HttpResponseParts, ResponsePartsView, error_response, time_headers, gateway_error,
    service_unavailable_error, gateway_timeout, generic_error,
};
use crate::strutil::{dec_digits, u64_to_dec, path_and_query, backend_url};
use crate::DEFAULT_TIMEOUT_MILLIS;

verus! {

/// Why the pipeline ended early.
#[derive(Clone, Copy, PartialEq, Eq, Structural, Debug)]
pub enum FailureKind {
    /// An endpoint without a live channel was reached.
    MiddlewareUnresolved,
    /// A middleware call exceeded its deadline.
    MiddlewareTimeout,
    /// A middleware call failed in the transport.
    MiddlewareTransport,
    /// The backend call exceeded its deadline.
    BackendTimeout,
    /// The backend call failed in the transport.
    BackendTransport,
    /// The orchestrator itself failed: a malformed header, status code or
    /// body.
    Internal,
}

/// Where the state machine stands.
#[derive(Clone, Copy, PartialEq, Eq, Structural, Debug)]
pub enum EngineState {
    /// About to call the `i`-th request-phase endpoint (or the backend, once
    /// `i` reaches the end of the request-phase list).
    RequestPhase { i: usize },
    /// The `i`-th request-phase call is in flight.
    AwaitingRequestMiddleware { i: usize },
    /// The backend call is in flight.
    AwaitingBackend,
    /// About to call the `j`-th response-phase endpoint (or to write the
    /// response, once `j` reaches the end of the response-phase list).
    ResponsePhase { j: usize },
    /// The `j`-th response-phase call is in flight.
    AwaitingResponseMiddleware { j: usize },
    /// About to serialize the container into the outbound response.
    Responding,
    /// About to write a terminal error response.
    Failed { kind: FailureKind },
    /// The response has been handed out.
    Done,
}

/// The backend's answer, as plain parts.
pub struct BackendResponseParts {
    pub status: u16,
    pub headers: Vec<Header>,
    pub body: Vec<u8>,
}

/// The mathematical shape of the backend's answer.
pub ghost struct BackendResponseView {
    pub status: u16,
    pub headers: Seq<HeaderView>,
    pub body: Seq<u8>,
}

impl View for BackendResponseParts {
    type V = BackendResponseView;

    open spec fn view(&self) -> BackendResponseView {
        BackendResponseView {
            status: self.status,
            headers: self.headers.deep_view(),
            body: self.body@,
        }
    }
}

/// What happened to the action last handed out.
pub enum Event {
    /// The request-phase middleware answered.
    RequestMiddlewareOk(RequestResponse),
    /// The response-phase middleware answered.
    ResponseMiddlewareOk(ResponseResponse),
    /// The middleware call exceeded its deadline.
    MiddlewareTimedOut,
    /// The middleware call failed in the transport.
    MiddlewareFailed,
    /// The backend answered.
    BackendOk(BackendResponseParts),
    /// The backend call exceeded its deadline.
    BackendTimedOut,
    /// The backend call failed in the transport.
    BackendFailed,
}

/// What the orchestrator wants done next.
#[allow(inconsistent_fields)]
pub enum Action {
    /// Call `handle_request` on the endpoint at `endpoint` (an index into
    /// the registry), over `connection`, with the given payload, under the
    /// given deadline; `grpc_timeout` is the RPC deadline metadata value.
    CallRequestMiddleware {
        endpoint: usize,
        connection: tonic::transport::Channel,
        call: RequestRequest,
        timeout_ms: u64,
        grpc_timeout: String,
    },
    /// Call `handle_response` on the endpoint at `endpoint`, likewise.
    CallResponseMiddleware {
        endpoint: usize,
        connection: tonic::transport::Channel,
        call: ResponseRequest,
        timeout_ms: u64,
        grpc_timeout: String,
    },
    /// Call the backend with the given request under the given deadline.
    CallBackend { request: BackendRequestParts, timeout_ms: u64 },
    /// Write this response to the client; the exchange is over.
    Respond { response: HttpResponseParts },
}

/// The ordered positions of the request-enabled endpoints.
pub open spec fn request_indices(s: Seq<MiddlewareView>) -> Seq<int>
    decreases s.len(),
{
    if s.len() == 0 {
        Seq::empty()
    } else {
        let rest = request_indices(s.drop_last());
        if s.last().request {
            rest.push(s.len() - 1)
        } else {
            rest
        }
    }
}

/// The ordered positions of the response-enabled endpoints.
pub open spec fn response_indices(s: Seq<MiddlewareView>) -> Seq<int>
    decreases s.len(),
{
    if s.len() == 0 {
        Seq::empty()
    } else {
        let rest = response_indices(s.drop_last());
        if s.last().response {
            rest.push(s.len() - 1)
        } else {
            rest
        }
    }
}

/// Every request-phase position is in range and names a request-enabled
/// endpoint.
pub proof fn lemma_request_indices_range(s: Seq<MiddlewareView>)
    ensures
        forall|k: int|
            0 <= k < request_indices(s).len() ==> 0 <= #[trigger] request_indices(s)[k] < s.len()
                && s[request_indices(s)[k]].request,
    decreases s.len(),
{
    if s.len() > 0 {
        lemma_request_indices_range(s.drop_last());
        let rest = request_indices(s.drop_last());
        assert forall|k: int| 0 <= k < request_indices(s).len() implies 0 <= #[trigger]
        request_indices(s)[k] < s.len() && s[request_indices(s)[k]].request by {
            if k < rest.len() {
                assert(request_indices(s)[k] == rest[k]);
                assert(s.drop_last()[rest[k]] == s[rest[k]]);
            } else {
                assert(request_indices(s)[k] == s.len() - 1);
            }
        }
    }
}

/// Every response-phase position is in range and names a response-enabled
/// endpoint.
pub proof fn lemma_response_indices_range(s: Seq<MiddlewareView>)
    ensures
        forall|k: int|
            0 <= k < response_indices(s).len() ==> 0 <= #[trigger] response_indices(s)[k]
                < s.len() && s[response_indices(s)[k]].response,
    decreases s.len(),
{
    if s.len() > 0 {
        lemma_response_indices_range(s.drop_last());
        let rest = response_indices(s.drop_last());
        assert forall|k: int| 0 <= k < response_indices(s).len() implies 0 <= #[trigger]
        response_indices(s)[k] < s.len() && s[response_indices(s)[k]].response by {
            if k < rest.len() {
                assert(response_indices(s)[k] == rest[k]);
                assert(s.drop_last()[rest[k]] == s[rest[k]]);
            } else {
                assert(response_indices(s)[k] == s.len() - 1);
            }
        }
    }
}

/// The terminal response for a failure: the taxonomy's status and reason
/// phrase, stamped with the total elapsed time.
pub open spec fn failure_response(kind: FailureKind, elapsed_ms: u64) -> ResponsePartsView {
    match kind {
        FailureKind::MiddlewareUnresolved => error_response(
            503,
            "Service Unavailable"@,
            elapsed_ms,
        ),
        FailureKind::MiddlewareTimeout => error_response(503, "Service Unavailable"@, elapsed_ms),
        FailureKind::MiddlewareTransport => error_response(
            503,
            "Service Unavailable"@,
            elapsed_ms,
        ),
        FailureKind::BackendTimeout => error_response(504, "Gateway Timeout"@, elapsed_ms),
        FailureKind::BackendTransport => error_response(502, "Bad Gateway"@, elapsed_ms),
        FailureKind::Internal => error_response(500, "Internal server error"@, elapsed_ms),
    }
}

/// The mathematical shape of the orchestrator.
pub ghost struct OrchestratorModel {
    pub handler: HandlerModel,
    pub endpoints: Seq<MiddlewareView>,
    pub req_idx: Seq<int>,
    pub resp_idx: Seq<int>,
    pub state: EngineState,
    pub backend_timeout_ms: u32,
    pub start_ms: u64,
    pub last_ms: u64,
    pub backend_start_ms: u64,
}

impl OrchestratorModel {
    /// The orchestrator invariant: the phase lists are the projections of
    /// the endpoint snapshot, the state's position is in range, and the
    /// clock readings are ordered — in particular a recorded backend elapsed
    /// time fits between the start and the last reading, which is what makes
    /// the total time dominate the backend time on every response.
    pub open spec fn wf(self) -> bool {
        &&& self.req_idx == request_indices(self.endpoints)
        &&& self.resp_idx == response_indices(self.endpoints)
        &&& self.req_idx.len() <= usize::MAX
        &&& self.resp_idx.len() <= usize::MAX
        &&& self.start_ms <= self.last_ms
        &&& (self.handler.backend_elapsed matches Some(d) ==> self.start_ms + d <= self.last_ms)
        &&& (self.state matches EngineState::RequestPhase { i } ==> i <= self.req_idx.len())
        &&& (self.state matches EngineState::AwaitingRequestMiddleware { i } ==> i
            < self.req_idx.len())
        &&& (self.state matches EngineState::ResponsePhase { j } ==> j <= self.resp_idx.len())
        &&& (self.state matches EngineState::AwaitingResponseMiddleware { j } ==> j
            < self.resp_idx.len())
        &&& (self.state is AwaitingBackend ==> self.start_ms <= self.backend_start_ms
            <= self.last_ms)
    }

    /// Whether the orchestrator is ready to hand out the next action (no
    /// call in flight, not finished).
    pub open spec fn ready(self) -> bool {
        match self.state {
            EngineState::RequestPhase { .. } => true,
            EngineState::ResponsePhase { .. } => true,
            EngineState::Responding => true,
            EngineState::Failed { .. } => true,
            _ => false,
        }
    }

    /// Whether `event` answers the call the orchestrator is waiting for.
    pub open spec fn accepts(self, event: Event) -> bool {
        match self.state {
            EngineState::AwaitingRequestMiddleware { .. } => match event {
                Event::RequestMiddlewareOk(_) => true,
                Event::MiddlewareTimedOut => true,
                Event::MiddlewareFailed => true,
                _ => false,
            },
            EngineState::AwaitingBackend => match event {
                Event::BackendOk(_) => true,
                Event::BackendTimedOut => true,
                Event::BackendFailed => true,
                _ => false,
            },
            EngineState::AwaitingResponseMiddleware { .. } => match event {
                Event::ResponseMiddlewareOk(_) => true,
                Event::MiddlewareTimedOut => true,
                Event::MiddlewareFailed => true,
                _ => false,
            },
            _ => false,
        }
    }
}

/// The per-request state machine.
pub struct Orchestrator {
    handler: ContainerHandler,
    middlewares: Middlewares,
    req_idx: Vec<usize>,
    resp_idx: Vec<usize>,
    state: EngineState,
    backend_timeout_ms: u32,
    start_ms: u64,
    last_ms: u64,
    backend_start_ms: u64,
}

impl View for Orchestrator {
    type V = OrchestratorModel;

    closed spec fn view(&self) -> OrchestratorModel {
        OrchestratorModel {
            handler: self.handler@,
            endpoints: self.middlewares@.inner,
            req_idx: self.req_idx@.map_values(|u: usize| u as int),
            resp_idx: self.resp_idx@.map_values(|u: usize| u as int),
            state: self.state,
            backend_timeout_ms: self.backend_timeout_ms,
            start_ms: self.start_ms,
            last_ms: self.last_ms,
            backend_start_ms: self.backend_start_ms,
        }
    }
}

impl Orchestrator {
    /// Sets up the state machine for one request: the container is wrapped
    /// with the precomputed backend URL (configured base plus the inbound
    /// path and query), the registry snapshot is copied, and the two phase
    /// lists are projected from it. `now_ms` is the request's start reading.
    pub fn new(container: RequestContainer, middlewares: &Middlewares, config: &Config, now_ms: u64) -> (r: Orchestrator)
        ensures
            r@.wf(),
            r@ == (OrchestratorModel {
                handler: HandlerModel {
                    container: container@,
                    url: config@.backend.url + path_and_query(container@.uri),
                    backend_elapsed: None,
                },
                endpoints: middlewares@.inner,
                req_idx: request_indices(middlewares@.inner),
                resp_idx: response_indices(middlewares@.inner),
                state: (EngineState::RequestPhase { i: 0 }),
                backend_timeout_ms: config@.backend.timeout_ms.unwrap_or(DEFAULT_TIMEOUT_MILLIS),
                start_ms: now_ms,
                last_ms: now_ms,
                backend_start_ms: now_ms,
            }),
    {
        let url = backend_url(config.backend.url.as_str(), container.uri().as_str());
        let handler = ContainerHandler::new(container, url);
        let middlewares = middlewares.duplicate();
        let mut req_idx: Vec<usize> = Vec::new();
        let mut resp_idx: Vec<usize> = Vec::new();
        let all = middlewares.all();
        let ghost eps = middlewares@.inner;
        let mut k: usize = 0;
        while k < all.len()
            invariant
                k <= all.len(),
                eps == all.deep_view(),
                req_idx@.map_values(|u: usize| u as int) =~= request_indices(eps.take(k as int)),
                resp_idx@.map_values(|u: usize| u as int) =~= response_indices(eps.take(k as int)),
            decreases all.len() - k,
        {
            proof {
                assert(eps.take(k + 1).drop_last() =~= eps.take(k as int));
                assert(eps.take(k + 1).last() == eps[k as int]);
            }
            let ghost prev_req = req_idx@.map_values(|u: usize| u as int);
            let ghost prev_resp = resp_idx@.map_values(|u: usize| u as int);
            if all[k].request() {
                req_idx.push(k);
                proof {
                    assert(req_idx@.map_values(|u: usize| u as int) =~= prev_req.push(k as int));
                }
            }
            if all[k].response() {
                resp_idx.push(k);
                proof {
                    assert(resp_idx@.map_values(|u: usize| u as int) =~= prev_resp.push(
                        k as int,
                    ));
                }
            }
            k = k + 1;
        }
        proof {
            assert(eps.take(all.len() as int) =~= eps);
        }
        let nr = req_idx.len();
        let ns = resp_idx.len();
        proof {
            assert(req_idx@.map_values(|u: usize| u as int).len() == nr);
            assert(resp_idx@.map_values(|u: usize| u as int).len() == ns);
        }
        Orchestrator {
            handler,
            middlewares,
            req_idx,
            resp_idx,
            state: EngineState::RequestPhase { i: 0 },
            backend_timeout_ms: config.backend_timeout_ms(),
            start_ms: now_ms,
            last_ms: now_ms,
            backend_start_ms: now_ms,
        }
    }
}

} // verus!

verus! {

impl Orchestrator {
    /// Consumes the outcome of the in-flight call. A middleware failure or
    /// timeout, a backend failure or timeout, and a malformed outcome each
    /// move to the matching terminal failure. `Success` applies the outcome
    /// and advances; `Continue` — and an unknown status value, which is
    /// treated as `Continue` — leaves the container untouched and advances;
    /// `Stop` applies the outcome with its stop semantics and moves straight
    /// to writing the response, so neither the backend nor any further
    /// endpoint is ever called.
    pub fn handle_event(&mut self, event: Event, now_ms: u64)
        requires
            old(self)@.wf(),
            old(self)@.accepts(event),
            now_ms >= old(self)@.last_ms,
            event matches Event::BackendOk(b) ==> 100 <= b@.status <= 599,
        ensures
            final(self)@.wf(),
            final(self)@.endpoints == old(self)@.endpoints,
            final(self)@.req_idx == old(self)@.req_idx,
            final(self)@.resp_idx == old(self)@.resp_idx,
            final(self)@.start_ms == old(self)@.start_ms,
            final(self)@.backend_timeout_ms == old(self)@.backend_timeout_ms,
            final(self)@.last_ms == now_ms,
            final(self)@.handler.url == old(self)@.handler.url,
            old(self)@.handler.container.wf() ==> final(self)@.handler.container.wf(),
            event is MiddlewareTimedOut ==> final(self)@.state == (EngineState::Failed {
                kind: FailureKind::MiddlewareTimeout,
            }) && final(self)@.handler == old(self)@.handler,
            event is MiddlewareFailed ==> final(self)@.state == (EngineState::Failed {
                kind: FailureKind::MiddlewareTransport,
            }) && final(self)@.handler == old(self)@.handler,
            event is BackendTimedOut ==> final(self)@.state == (EngineState::Failed {
                kind: FailureKind::BackendTimeout,
            }) && final(self)@.handler == old(self)@.handler,
            event is BackendFailed ==> final(self)@.state == (EngineState::Failed {
                kind: FailureKind::BackendTransport,
            }) && final(self)@.handler == old(self)@.handler,
            old(self)@.state matches EngineState::AwaitingRequestMiddleware { i } ==> event
                matches Event::RequestMiddlewareOk(data) ==> {
                &&& (ResponseStatus::spec_from_i32(data@.status) == Some(ResponseStatus::Continue)
                    || ResponseStatus::spec_from_i32(data@.status) is None) ==> final(self)@.handler
                    == old(self)@.handler && final(self)@.state == (EngineState::RequestPhase {
                    i: (i + 1) as usize,
                })
                &&& ResponseStatus::spec_from_i32(data@.status) == Some(ResponseStatus::Success)
                    ==> (if outcome_problem(data@) is None {
                    final(self)@.handler == (HandlerModel {
                        container: apply_request_outcome(
                            old(self)@.handler.container,
                            data@,
                            false,
                        ),
                        ..old(self)@.handler
                    }) && final(self)@.state == (EngineState::RequestPhase { i: (i + 1) as usize })
                } else {
                    final(self)@.handler == old(self)@.handler && final(self)@.state == (
                    EngineState::Failed { kind: FailureKind::Internal })
                })
                &&& ResponseStatus::spec_from_i32(data@.status) == Some(ResponseStatus::Stop) ==> (
                if outcome_problem(data@) is None {
                    final(self)@.handler == (HandlerModel {
                        container: apply_request_outcome(old(self)@.handler.container, data@, true),
                        ..old(self)@.handler
                    }) && final(self)@.state == EngineState::Responding
                } else {
                    final(self)@.handler == old(self)@.handler && final(self)@.state == (
                    EngineState::Failed { kind: FailureKind::Internal })
                })
            },
            old(self)@.state matches EngineState::AwaitingResponseMiddleware { j } ==> event
                matches Event::ResponseMiddlewareOk(data) ==> {
                &&& (ResponseStatus::spec_from_i32(data@.status) == Some(ResponseStatus::Continue)
                    || ResponseStatus::spec_from_i32(data@.status) is None) ==> final(self)@.handler
                    == old(self)@.handler && final(self)@.state == (EngineState::ResponsePhase {
                    j: (j + 1) as usize,
                })
                &&& ResponseStatus::spec_from_i32(data@.status) == Some(ResponseStatus::Success)
                    ==> (if outcome_problem(data@) is None {
                    final(self)@.handler == (HandlerModel {
                        container: apply_response_outcome(
                            old(self)@.handler.container,
                            data@,
                            false,
                        ),
                        ..old(self)@.handler
                    }) && final(self)@.state == (EngineState::ResponsePhase { j: (j + 1) as usize })
                } else {
                    final(self)@.handler == old(self)@.handler && final(self)@.state == (
                    EngineState::Failed { kind: FailureKind::Internal })
                })
                &&& ResponseStatus::spec_from_i32(data@.status) == Some(ResponseStatus::Stop) ==> (
                if outcome_problem(data@) is None {
                    final(self)@.handler == (HandlerModel {
                        container: apply_response_outcome(
                            old(self)@.handler.container,
                            data@,
                            true,
                        ),
                        ..old(self)@.handler
                    }) && final(self)@.state == EngineState::Responding
                } else {
                    final(self)@.handler == old(self)@.handler && final(self)@.state == (
                    EngineState::Failed { kind: FailureKind::Internal })
                })
            },
            event matches Event::BackendOk(b) ==> final(self)@.handler.container == (
            ContainerModel {
                status_code: Some(b@.status),
                response: crate::container::HttpContainerView {
                    headers: crate::headers::lower_headers(b@.headers),
                    body: b@.body,
                },
                state: ContainerState::MiddlewareResponse,
                ..old(self)@.handler.container
            }) && final(self)@.handler.backend_elapsed == Some(
                (now_ms - old(self)@.backend_start_ms) as u64,
            ) && final(self)@.state == (EngineState::ResponsePhase { j: 0 }),
    {
        proof {
            if old(self)@.handler.container.wf() {
                match &event {
                    Event::RequestMiddlewareOk(data) => {
                        if outcome_problem(data@) is None {
                            crate::laws::lemma_apply_request_outcome_wf(
                                old(self)@.handler.container,
                                data@,
                                false,
                            );
                            crate::laws::lemma_apply_request_outcome_wf(
                                old(self)@.handler.container,
                                data@,
                                true,
                            );
                        }
                    },
                    Event::ResponseMiddlewareOk(data) => {
                        if outcome_problem(data@) is None {
                            crate::laws::lemma_apply_response_outcome_wf(
                                old(self)@.handler.container,
                                data@,
                                false,
                            );
                            crate::laws::lemma_apply_response_outcome_wf(
                                old(self)@.handler.container,
                                data@,
                                true,
                            );
                        }
                    },
                    Event::BackendOk(b) => {
                        crate::laws::lemma_installed_response_wf(
                            old(self)@.handler.container,
                            b@.status,
                            b@.headers,
                            b@.body,
                        );
                    },
                    _ => {},
                }
            }
        }
        self.last_ms = now_ms;
        match event {
            Event::MiddlewareTimedOut => {
                self.state = EngineState::Failed { kind: FailureKind::MiddlewareTimeout };
            },
            Event::MiddlewareFailed => {
                self.state = EngineState::Failed { kind: FailureKind::MiddlewareTransport };
            },
            Event::BackendTimedOut => {
                self.state = EngineState::Failed { kind: FailureKind::BackendTimeout };
            },
            Event::BackendFailed => {
                self.state = EngineState::Failed { kind: FailureKind::BackendTransport };
            },
            Event::RequestMiddlewareOk(data) => {
                let i = match self.state {
                    EngineState::AwaitingRequestMiddleware { i } => i,
                    _ => {
                        proof {
                            assert(false);
                        }
                        0
                    },
                };
                let n = self.req_idx.len();
                proof {
                    assert(i < old(self)@.req_idx.len());
                    assert(old(self)@.req_idx.len() == old(self).req_idx@.len());
                    assert(i < n);
                }
                match ResponseStatus::from_i32(data.status) {
                    Some(ResponseStatus::Success) => {
                        match self.handler.handle_middleware_request(&data, false) {
                            Ok(()) => {
                                self.state = EngineState::RequestPhase { i: i + 1 };
                            },
                            Err(_) => {
                                self.state = EngineState::Failed { kind: FailureKind::Internal };
                            },
                        }
                    },
                    Some(ResponseStatus::Stop) => {
                        match self.handler.handle_middleware_request(&data, true) {
                            Ok(()) => {
                                self.state = EngineState::Responding;
                            },
                            Err(_) => {
                                self.state = EngineState::Failed { kind: FailureKind::Internal };
                            },
                        }
                    },
                    Some(ResponseStatus::Continue) => {
                        self.state = EngineState::RequestPhase { i: i + 1 };
                    },
                    None => {
                        self.state = EngineState::RequestPhase { i: i + 1 };
                    },
                }
            },
            Event::ResponseMiddlewareOk(data) => {
                let j = match self.state {
                    EngineState::AwaitingResponseMiddleware { j } => j,
                    _ => {
                        proof {
                            assert(false);
                        }
                        0
                    },
                };
                let m = self.resp_idx.len();
                proof {
                    assert(j < old(self)@.resp_idx.len());
                    assert(old(self)@.resp_idx.len() == old(self).resp_idx@.len());
                    assert(j < m);
                }
                match ResponseStatus::from_i32(data.status) {
                    Some(ResponseStatus::Success) => {
                        match self.handler.handle_middleware_response(&data, false) {
                            Ok(()) => {
                                self.state = EngineState::ResponsePhase { j: j + 1 };
                            },
                            Err(_) => {
                                self.state = EngineState::Failed { kind: FailureKind::Internal };
                            },
                        }
                    },
                    Some(ResponseStatus::Stop) => {
                        match self.handler.handle_middleware_response(&data, true) {
                            Ok(()) => {
                                self.state = EngineState::Responding;
                            },
                            Err(_) => {
                                self.state = EngineState::Failed { kind: FailureKind::Internal };
                            },
                        }
                    },
                    Some(ResponseStatus::Continue) => {
                        self.state = EngineState::ResponsePhase { j: j + 1 };
                    },
                    None => {
                        self.state = EngineState::ResponsePhase { j: j + 1 };
                    },
                }
            },
            Event::BackendOk(b) => {
                let BackendResponseParts { status, headers, body } = b;
                let elapsed = now_ms - self.backend_start_ms;
                self.handler.backend_elapsed_set(elapsed);
                self.handler.handle_response(status, headers, body);
                self.handler.state_set(ContainerState::MiddlewareResponse);
                self.state = EngineState::ResponsePhase { j: 0 };
            },
        }
    }
}

} // verus!

verus! {

/// The successful outbound response: the container's version, its status
/// (500 when unset), the timing headers followed by the response headers
/// with `Content-Length` stripped, and the raw response body.
pub open spec fn final_response_ok(
    c: ContainerModel,
    backend_elapsed: Option<u64>,
    elapsed_ms: u64,
) -> ResponsePartsView {
    ResponsePartsView {
        version: c.version,
        status: c.status_code.unwrap_or(500u16),
        headers: time_headers(elapsed_ms, backend_elapsed) + remove_names(
            c.response.headers,
            seq![content_length_name()],
        ),
        body: c.response.body,
    }
}

impl Orchestrator {
    /// Serializes the container into the outbound response and finishes; a
    /// malformed response header degrades to the internal-error response.
    fn write_response(&mut self, elapsed_ms: u64) -> (a: Action)
        ensures
            final(self)@ == (OrchestratorModel { state: EngineState::Done, ..old(self)@ }),
            first_problem(old(self)@.handler.container.response.headers) is Some ==> (a matches
                Action::Respond { response } && response@ == error_response(
                500,
                "Internal server error"@,
                elapsed_ms,
            )),
            first_problem(old(self)@.handler.container.response.headers) is None ==> (a matches
                Action::Respond { response } && response@ == final_response_ok(
                old(self)@.handler.container,
                old(self)@.handler.backend_elapsed,
                elapsed_ms,
            )),
    {
        let a = match self.handler.into_response(elapsed_ms) {
            Ok(response) => Action::Respond { response },
            Err(_) => Action::Respond { response: generic_error(elapsed_ms) },
        };
        self.state = EngineState::Done;
        a
    }

    /// Hands out the next action. In the request and response phases the
    /// next enabled endpoint is called — unless its channel is absent, which
    /// ends the exchange with 503 at once — with the serialized container
    /// and its deadline; when the request phase is exhausted the backend is
    /// called; when the response phase is exhausted, or a middleware
    /// stopped the pipeline, the container is serialized into the outbound
    /// response; a failure ends with its mapped error response. Every
    /// serialization failure ends with the internal-error response.
    pub fn next_action(&mut self, now_ms: u64) -> (a: Action)
        requires
            old(self)@.wf(),
            old(self)@.ready(),
            now_ms >= old(self)@.last_ms,
        ensures
            final(self)@.wf(),
            final(self)@.endpoints == old(self)@.endpoints,
            final(self)@.req_idx == old(self)@.req_idx,
            final(self)@.resp_idx == old(self)@.resp_idx,
            final(self)@.start_ms == old(self)@.start_ms,
            final(self)@.backend_timeout_ms == old(self)@.backend_timeout_ms,
            final(self)@.last_ms == now_ms,
            final(self)@.handler.url == old(self)@.handler.url,
            final(self)@.handler.backend_elapsed == old(self)@.handler.backend_elapsed,
            old(self)@.handler.container.wf() ==> final(self)@.handler.container.wf(),
            // which action comes from which state
            a is Respond ==> final(self)@.state == EngineState::Done,
            a is CallRequestMiddleware ==> (final(self)@.state matches
                EngineState::AwaitingRequestMiddleware { i } && old(self)@.state == (
            EngineState::RequestPhase { i }) && (i as int) < old(self)@.req_idx.len()),
            a is CallResponseMiddleware ==> (final(self)@.state matches
                EngineState::AwaitingResponseMiddleware { j } && old(self)@.state == (
            EngineState::ResponsePhase { j }) && (j as int) < old(self)@.resp_idx.len()),
            a is CallBackend ==> (old(self)@.state matches EngineState::RequestPhase { i } && i
                as int == old(self)@.req_idx.len() && final(self)@.state
                == EngineState::AwaitingBackend),
            // request phase: call endpoint i, or fail fast
            old(self)@.state matches EngineState::RequestPhase { i } ==> {
                &&& i < old(self)@.req_idx.len() ==> {
                    &&& !old(self)@.endpoints[old(self)@.req_idx[i as int]].connected ==> (a
                        matches Action::Respond { response } && response@ == failure_response(
                        FailureKind::MiddlewareUnresolved,
                        (now_ms - old(self)@.start_ms) as u64,
                    ) && final(self)@.state == EngineState::Done && final(self)@.handler == old(
                        self,
                    )@.handler)
                    &&& old(self)@.endpoints[old(self)@.req_idx[i as int]].connected && !valid_utf8(
                        old(self)@.handler.container.request.body,
                    ) ==> (a matches Action::Respond { response } && response@ == failure_response(
                        FailureKind::Internal,
                        (now_ms - old(self)@.start_ms) as u64,
                    ) && final(self)@.state == EngineState::Done && final(self)@.handler == old(
                        self,
                    )@.handler)
                    &&& old(self)@.endpoints[old(self)@.req_idx[i as int]].connected && valid_utf8(
                        old(self)@.handler.container.request.body,
                    ) ==> (a matches Action::CallRequestMiddleware {
                        endpoint,
                        call,
                        timeout_ms,
                        grpc_timeout,
                        ..
                    } && endpoint as int == old(self)@.req_idx[i as int] && old(self)@.endpoints[
                        endpoint as int
                    ].request && call@ == (RequestRequestView {
                        method: old(self)@.handler.container.method,
                        uri: old(self)@.handler.container.uri,
                        headers: old(self)@.handler.container.request.headers,
                        body: vstd::utf8::decode_utf8(old(self)@.handler.container.request.body),
                    }) && timeout_ms == old(self)@.endpoints[old(self)@.req_idx[i as int]].timeout_ms
                        && grpc_timeout@ == dec_digits(
                        old(self)@.endpoints[old(self)@.req_idx[i as int]].timeout_ms as nat,
                    ) + "m"@ && final(self)@.state == (EngineState::AwaitingRequestMiddleware { i })
                        && final(self)@.handler == old(self)@.handler)
                }
                &&& i == old(self)@.req_idx.len() ==> {
                    &&& first_problem(old(self)@.handler.container.request.headers) is Some ==> (a
                        matches Action::Respond { response } && response@ == failure_response(
                        FailureKind::Internal,
                        (now_ms - old(self)@.start_ms) as u64,
                    ) && final(self)@.state == EngineState::Done
                        && final(self)@.handler.container == (ContainerModel {
                        state: ContainerState::Response,
                        ..old(self)@.handler.container
                    }))
                    &&& first_problem(old(self)@.handler.container.request.headers) is None ==> (a
                        matches Action::CallBackend { request, timeout_ms } && request@ == (
                    BackendRequestView {
                        method: old(self)@.handler.container.method,
                        url: old(self)@.handler.url,
                        version: old(self)@.handler.container.version,
                        headers: remove_names(
                            old(self)@.handler.container.request.headers,
                            seq![content_length_name()],
                        ),
                        body: old(self)@.handler.container.request.body,
                    }) && timeout_ms == old(self)@.backend_timeout_ms as u64 && final(self)@.state
                        == EngineState::AwaitingBackend && final(self)@.backend_start_ms == now_ms
                        && final(self)@.handler.container == (ContainerModel {
                        state: ContainerState::Response,
                        ..old(self)@.handler.container
                    }))
                }
            },
            // response phase: call endpoint j, or write the response
            old(self)@.state matches EngineState::ResponsePhase { j } ==> {
                &&& j < old(self)@.resp_idx.len() ==> {
                    &&& !old(self)@.endpoints[old(self)@.resp_idx[j as int]].connected ==> (a
                        matches Action::Respond { response } && response@ == failure_response(
                        FailureKind::MiddlewareUnresolved,
                        (now_ms - old(self)@.start_ms) as u64,
                    ) && final(self)@.state == EngineState::Done && final(self)@.handler == old(
                        self,
                    )@.handler)
                    &&& old(self)@.endpoints[old(self)@.resp_idx[j as int]].connected && !(
                    valid_utf8(old(self)@.handler.container.request.body) && valid_utf8(
                        old(self)@.handler.container.response.body,
                    )) ==> (a matches Action::Respond { response } && response@
                        == failure_response(
                        FailureKind::Internal,
                        (now_ms - old(self)@.start_ms) as u64,
                    ) && final(self)@.state == EngineState::Done && final(self)@.handler == old(
                        self,
                    )@.handler)
                    &&& old(self)@.endpoints[old(self)@.resp_idx[j as int]].connected && valid_utf8(
                        old(self)@.handler.container.request.body,
                    ) && valid_utf8(old(self)@.handler.container.response.body) ==> (a matches
                        Action::CallResponseMiddleware {
                        endpoint,
                        call,
                        timeout_ms,
                        grpc_timeout,
                        ..
                    } && endpoint as int == old(self)@.resp_idx[j as int] && old(self)@.endpoints[
                        endpoint as int
                    ].response && call@ == (ResponseRequestView {
                        method: old(self)@.handler.container.method,
                        uri: old(self)@.handler.container.uri,
                        request_headers: old(self)@.handler.container.request.headers,
                        response_headers: old(self)@.handler.container.response.headers,
                        request_body: vstd::utf8::decode_utf8(
                            old(self)@.handler.container.request.body,
                        ),
                        response_body: vstd::utf8::decode_utf8(
                            old(self)@.handler.container.response.body,
                        ),
                    }) && timeout_ms == old(self)@.endpoints[
                        old(self)@.resp_idx[j as int]
                    ].timeout_ms && grpc_timeout@ == dec_digits(
                        old(self)@.endpoints[old(self)@.resp_idx[j as int]].timeout_ms as nat,
                    ) + "m"@ && final(self)@.state == (EngineState::AwaitingResponseMiddleware {
                        j,
                    }) && final(self)@.handler == old(self)@.handler)
                }
                &&& j == old(self)@.resp_idx.len() ==> {
                    &&& final(self)@.state == EngineState::Done && final(self)@.handler == old(
                        self,
                    )@.handler
                    &&& first_problem(old(self)@.handler.container.response.headers) is Some ==> (a
                        matches Action::Respond { response } && response@ == failure_response(
                        FailureKind::Internal,
                        (now_ms - old(self)@.start_ms) as u64,
                    ))
                    &&& first_problem(old(self)@.handler.container.response.headers) is None ==> (a
                        matches Action::Respond { response } && response@ == final_response_ok(
                        old(self)@.handler.container,
                        old(self)@.handler.backend_elapsed,
                        (now_ms - old(self)@.start_ms) as u64,
                    ) && (old(self)@.handler.backend_elapsed matches Some(d) ==> now_ms - old(
                        self,
                    )@.start_ms >= d))
                }
            },
            // a middleware stopped the pipeline: write the response
            old(self)@.state is Responding ==> {
                &&& final(self)@.state == EngineState::Done && final(self)@.handler == old(
                    self,
                )@.handler
                &&& first_problem(old(self)@.handler.container.response.headers) is Some ==> (a
                    matches Action::Respond { response } && response@ == failure_response(
                    FailureKind::Internal,
                    (now_ms - old(self)@.start_ms) as u64,
                ))
                &&& first_problem(old(self)@.handler.container.response.headers) is None ==> (a
                    matches Action::Respond { response } && response@ == final_response_ok(
                    old(self)@.handler.container,
                    old(self)@.handler.backend_elapsed,
                    (now_ms - old(self)@.start_ms) as u64,
                ) && (old(self)@.handler.backend_elapsed matches Some(d) ==> now_ms - old(
                    self,
                )@.start_ms >= d))
            },
            // a terminal failure: write its mapped error response
            old(self)@.state matches EngineState::Failed { kind } ==> (a matches Action::Respond {
                response,
            } && response@ == failure_response(kind, (now_ms - old(self)@.start_ms) as u64)
                && final(self)@.state == EngineState::Done && final(self)@.handler == old(
                self,
            )@.handler),
    {
        self.last_ms = now_ms;
        let elapsed = now_ms - self.start_ms;
        proof {
            lemma_request_indices_range(self@.endpoints);
            lemma_response_indices_range(self@.endpoints);
        }
        match self.state {
            EngineState::RequestPhase { i } => {
                if i < self.req_idx.len() {
                    let k = self.req_idx[i];
                    let all = self.middlewares.all();
                    proof {
                        assert(k as int == old(self)@.req_idx[i as int]);
                        assert((k as int) < self@.endpoints.len());
                        assert(all@.len() == all.deep_view().len());
                    }
                    let ep = &all[k];
                    let timeout_ms = ep.timeout_ms();
                    let conn_opt = match ep.connection() {
                        Some(c) => Some(c.clone()),
                        None => None,
                    };
                    match conn_opt {
                        None => {
                            self.state = EngineState::Done;
                            Action::Respond { response: service_unavailable_error(elapsed) }
                        },
                        Some(connection) => {
                            match self.handler.into_middleware_request() {
                                Err(_) => {
                                    self.state = EngineState::Done;
                                    Action::Respond { response: generic_error(elapsed) }
                                },
                                Ok(call) => {
                                    let grpc_timeout = u64_to_dec(timeout_ms).concat("m");
                                    self.state = EngineState::AwaitingRequestMiddleware { i };
                                    Action::CallRequestMiddleware {
                                        endpoint: k,
                                        connection,
                                        call,
                                        timeout_ms,
                                        grpc_timeout,
                                    }
                                },
                            }
                        },
                    }
                } else {
                    self.handler.state_set(ContainerState::Response);
                    match self.handler.into_request() {
                        Err(_) => {
                            self.state = EngineState::Done;
                            Action::Respond { response: generic_error(elapsed) }
                        },
                        Ok(request) => {
                            self.backend_start_ms = now_ms;
                            self.state = EngineState::AwaitingBackend;
                            Action::CallBackend {
                                request,
                                timeout_ms: self.backend_timeout_ms as u64,
                            }
                        },
                    }
                }
            },
            EngineState::ResponsePhase { j } => {
                if j < self.resp_idx.len() {
                    let k = self.resp_idx[j];
                    let all = self.middlewares.all();
                    proof {
                        assert(k as int == old(self)@.resp_idx[j as int]);
                        assert((k as int) < self@.endpoints.len());
                        assert(all@.len() == all.deep_view().len());
                    }
                    let ep = &all[k];
                    let timeout_ms = ep.timeout_ms();
                    let conn_opt = match ep.connection() {
                        Some(c) => Some(c.clone()),
                        None => None,
                    };
                    match conn_opt {
                        None => {
                            self.state = EngineState::Done;
                            Action::Respond { response: service_unavailable_error(elapsed) }
                        },
                        Some(connection) => {
                            match self.handler.into_middleware_response() {
                                Err(_) => {
                                    self.state = EngineState::Done;
                                    Action::Respond { response: generic_error(elapsed) }
                                },
                                Ok(call) => {
                                    let grpc_timeout = u64_to_dec(timeout_ms).concat("m");
                                    self.state = EngineState::AwaitingResponseMiddleware { j };
                                    Action::CallResponseMiddleware {
                                        endpoint: k,
                                        connection,
                                        call,
                                        timeout_ms,
                                        grpc_timeout,
                                    }
                                },
                            }
                        },
                    }
                } else {
                    self.write_response(elapsed)
                }
            },
            EngineState::Responding => self.write_response(elapsed),
            EngineState::Failed { kind } => {
                self.state = EngineState::Done;
                let response = match kind {
                    FailureKind::MiddlewareUnresolved => service_unavailable_error(elapsed),
                    FailureKind::MiddlewareTimeout => service_unavailable_error(elapsed),
                    FailureKind::MiddlewareTransport => service_unavailable_error(elapsed),
                    FailureKind::BackendTimeout => gateway_timeout(elapsed),
                    FailureKind::BackendTransport => gateway_error(elapsed),
                    FailureKind::Internal => generic_error(elapsed),
                };
                Action::Respond { response }
            },
            _ => {
                proof {
                    assert(false);
                }
                self.state = EngineState::Done;
                Action::Respond { response: generic_error(elapsed) }
            },
        }
    }
}

} // verus!

verus! {

/// What one scripted request-phase endpoint answers.
pub enum ScriptRequestReply {
    /// The middleware replied with this outcome.
    Answer(RequestResponse),
    /// The call exceeded its deadline.
    TimedOut,
    /// The call failed in the transport.
    Failed,
}

/// What one scripted response-phase endpoint answers.
pub enum ScriptResponseReply {
    /// The middleware replied with this outcome.
    Answer(ResponseResponse),
    /// The call exceeded its deadline.
    TimedOut,
    /// The call failed in the transport.
    Failed,
}

/// What the scripted backend answers.
pub enum ScriptBackend {
    /// The backend replied.
    Answer(BackendResponseParts),
    /// The call exceeded its deadline.
    TimedOut,
    /// The call failed in the transport.
    Failed,
}

/// A scripted environment for one whole exchange: one reply per phase
/// endpoint, consumed in call order, and the backend's answer.
pub struct Script {
    pub request_replies: Vec<ScriptRequestReply>,
    pub response_replies: Vec<ScriptResponseReply>,
    pub backend: ScriptBackend,
}

/// What a run did: which endpoints were called in each phase (indices into
/// the registry, in call order), whether the backend was called and with
/// what, and whether a request-phase reply said `Stop`.
pub struct RunStats {
    pub request_calls: Vec<usize>,
    pub response_calls: Vec<usize>,
    pub backend_called: bool,
    pub request_stopped: bool,
    pub backend_request: Option<BackendRequestParts>,
}

/// Whether a scripted request-phase reply decodes to `Stop`.
pub open spec fn reply_is_stop(rep: ScriptRequestReply) -> bool {
    rep matches ScriptRequestReply::Answer(data) && ResponseStatus::spec_from_i32(data@.status)
        == Some(ResponseStatus::Stop)
}

/// The status a `Stop` outcome asks for: its status code, or 500 when
/// omitted.
pub open spec fn stop_status(o: OutcomeView) -> u16 {
    match o.status_code {
        Some(v) => v as u16,
        None => 500u16,
    }
}

/// An upper bound on the actions still to hand out; every step of the driver
/// lowers it.
pub open spec fn steps_left(m: OrchestratorModel) -> int {
    match m.state {
        EngineState::RequestPhase { i } => 6 + 2 * (m.req_idx.len() - i) + 2 * m.resp_idx.len(),
        EngineState::AwaitingRequestMiddleware { i } => 5 + 2 * (m.req_idx.len() - i) + 2
            * m.resp_idx.len(),
        EngineState::AwaitingBackend => 5int + 2 * m.resp_idx.len(),
        EngineState::ResponsePhase { j } => 4 + 2 * (m.resp_idx.len() - j),
        EngineState::AwaitingResponseMiddleware { j } => 3 + 2 * (m.resp_idx.len() - j),
        EngineState::Responding => 2int,
        EngineState::Failed { .. } => 2int,
        EngineState::Done => 0int,
    }
}

/// Drives one whole exchange against a scripted environment, in place of the
/// live transports: every action the orchestrator hands out is answered from
/// the script. Returns the outbound response and the trace: endpoints are
/// visited in configuration order within each phase, no endpoint is called
/// in a phase it is not enabled for, and a `Stop` in the request phase means
/// the backend and the response-phase endpoints are never called and the
/// response carries the status the outcome asked for (500 when omitted).
#[verifier::rlimit(100)]
pub fn run(o: Orchestrator, script: Script, now_ms: u64) -> (r: (HttpResponseParts, RunStats))
    requires
        o@.wf(),
        o@.state == (EngineState::RequestPhase { i: 0usize }),
        now_ms >= o@.last_ms,
        script.backend matches ScriptBackend::Answer(b) ==> 100 <= b@.status <= 599,
        script.request_replies@.len() >= o@.req_idx.len(),
        script.response_replies@.len() >= o@.resp_idx.len(),
    ensures
        r.1.request_calls@.len() <= o@.req_idx.len(),
        r.1.response_calls@.len() <= o@.resp_idx.len(),
        r.1.request_calls@.map_values(|u: usize| u as int) == o@.req_idx.take(
            r.1.request_calls@.len() as int,
        ),
        r.1.response_calls@.map_values(|u: usize| u as int) == o@.resp_idx.take(
            r.1.response_calls@.len() as int,
        ),
        forall|k: int|
            0 <= k < r.1.request_calls@.len() ==> o@.endpoints[
                #[trigger] r.1.request_calls@[k] as int
            ].request,
        forall|k: int|
            0 <= k < r.1.response_calls@.len() ==> o@.endpoints[
                #[trigger] r.1.response_calls@[k] as int
            ].response,
        r.1.backend_called <==> r.1.backend_request is Some,
        r.1.backend_called ==> r.1.request_calls@.len() == o@.req_idx.len()
            && !r.1.request_stopped,
        r.1.response_calls@.len() > 0 ==> r.1.backend_called,
        r.1.request_stopped ==> {
            &&& 1 <= r.1.request_calls@.len()
            &&& reply_is_stop(script.request_replies@[r.1.request_calls@.len() - 1])
            &&& !r.1.backend_called
            &&& r.1.response_calls@.len() == 0
            &&& (script.request_replies@[r.1.request_calls@.len() - 1] matches
                ScriptRequestReply::Answer(sr) ==> (outcome_problem(sr@) is None && first_problem(
                o@.handler.container.response.headers,
            ) is None ==> r.0@.status == stop_status(sr@)))
        },
{
    let mut orch = o;
    let mut req_replies = script.request_replies;
    let mut resp_replies = script.response_replies;
    let mut backend_reply = Some(script.backend);
    let mut request_calls: Vec<usize> = Vec::new();
    let mut response_calls: Vec<usize> = Vec::new();
    let mut backend_called = false;
    let mut request_stopped = false;
    let mut backend_request: Option<BackendRequestParts> = None;
    let ghost init_req = script.request_replies@;
    let ghost init_resp = script.response_replies@;
    let ghost o_resp_headers = o@.handler.container.response.headers;
    let ghost o_resp_body = o@.handler.container.response.body;
    proof {
        lemma_request_indices_range(o@.endpoints);
        lemma_response_indices_range(o@.endpoints);
        assert(request_calls@.map_values(|u: usize| u as int) =~= o@.req_idx.take(0));
        assert(response_calls@.map_values(|u: usize| u as int) =~= o@.resp_idx.take(0));
        assert(req_replies@ =~= init_req.skip(0));
        assert(resp_replies@ =~= init_resp.skip(0));
    }
    loop
        invariant
            orch@.wf(),
            orch@.ready(),
            now_ms >= orch@.last_ms,
            orch@.endpoints == o@.endpoints,
            orch@.req_idx == o@.req_idx,
            orch@.resp_idx == o@.resp_idx,
            init_req == script.request_replies@,
            init_resp == script.response_replies@,
            o_resp_headers == o@.handler.container.response.headers,
            o_resp_body == o@.handler.container.response.body,
            init_req.len() >= o@.req_idx.len(),
            init_resp.len() >= o@.resp_idx.len(),
            script.backend matches ScriptBackend::Answer(b) ==> 100 <= b@.status <= 599,
            backend_called <==> backend_request is Some,
            backend_called ==> request_calls@.len() == o@.req_idx.len() && !request_stopped,
            response_calls@.len() > 0 ==> backend_called,
            request_calls@.len() <= o@.req_idx.len(),
            response_calls@.len() <= o@.resp_idx.len(),
            request_calls@.map_values(|u: usize| u as int) =~= o@.req_idx.take(
                request_calls@.len() as int,
            ),
            response_calls@.map_values(|u: usize| u as int) =~= o@.resp_idx.take(
                response_calls@.len() as int,
            ),
            req_replies@ =~= init_req.skip(request_calls@.len() as int),
            resp_replies@ =~= init_resp.skip(response_calls@.len() as int),
            orch@.state matches EngineState::RequestPhase { i } ==> i == request_calls@.len()
                && !backend_called && response_calls@.len() == 0 && !request_stopped
                && backend_reply == Some(script.backend)
                && orch@.handler.container.response.headers == o_resp_headers
                && orch@.handler.container.response.body == o_resp_body,
            orch@.state matches EngineState::ResponsePhase { j } ==> j == response_calls@.len()
                && backend_called && !request_stopped,
            orch@.state is Responding && !request_stopped ==> backend_called,
            request_stopped ==> {
                &&& 1 <= request_calls@.len()
                &&& reply_is_stop(init_req[request_calls@.len() - 1])
                &&& !backend_called
                &&& response_calls@.len() == 0
                &&& (orch@.state is Responding || orch@.state == (EngineState::Failed {
                    kind: FailureKind::Internal,
                }))
                &&& (init_req[request_calls@.len() - 1] matches ScriptRequestReply::Answer(sr)
                    ==> (outcome_problem(sr@) is None ==> orch@.state is Responding
                    && orch@.handler.container.status_code == Some(stop_status(sr@))
                    && orch@.handler.container.response.headers == o_resp_headers + crate::headers::lower_headers(
                    sr@.added_headers,
                )))
            },
        decreases steps_left(orch@),
    {
        let a = orch.next_action(now_ms);
        match a {
            Action::Respond { response } => {
                proof {
                    lemma_request_indices_range(o@.endpoints);
                    lemma_response_indices_range(o@.endpoints);
                    assert forall|k: int| 0 <= k < request_calls@.len() implies o@.endpoints[
                        #[trigger] request_calls@[k] as int
                    ].request by {
                        assert(request_calls@.map_values(|u: usize| u as int)[k]
                            == request_calls@[k] as int);
                        assert(o@.req_idx.take(request_calls@.len() as int)[k] == o@.req_idx[k]);
                    }
                    assert forall|k: int| 0 <= k < response_calls@.len() implies o@.endpoints[
                        #[trigger] response_calls@[k] as int
                    ].response by {
                        assert(response_calls@.map_values(|u: usize| u as int)[k]
                            == response_calls@[k] as int);
                        assert(o@.resp_idx.take(response_calls@.len() as int)[k] == o@.resp_idx[k]);
                    }
                    if request_stopped {
                        match init_req[request_calls@.len() - 1] {
                            ScriptRequestReply::Answer(sr) => {
                                if outcome_problem(sr@) is None && first_problem(o_resp_headers)
                                    is None {
                                    crate::headers::lemma_first_problem_concat(
                                        o_resp_headers,
                                        crate::headers::lower_headers(sr@.added_headers),
                                    );
                                    crate::headers::lemma_lower_headers_problem(sr@.added_headers);
                                }
                            },
                            _ => {},
                        }
                    }
                }
                return (
                    response,
                    RunStats {
                        request_calls,
                        response_calls,
                        backend_called,
                        request_stopped,
                        backend_request,
                    },
                );
            },
            Action::CallRequestMiddleware { endpoint, .. } => {
                let ghost prev_calls = request_calls@.map_values(|u: usize| u as int);
                request_calls.push(endpoint);
                proof {
                    assert(request_calls@.map_values(|u: usize| u as int) =~= prev_calls.push(
                        endpoint as int,
                    ));
                    assert(request_calls@.map_values(|u: usize| u as int) =~= o@.req_idx.take(
                        request_calls@.len() as int,
                    ));
                }
                let reply = req_replies.remove(0);
                proof {
                    assert(req_replies@ =~= init_req.skip(request_calls@.len() as int));
                }
                match reply {
                    ScriptRequestReply::Answer(data) => {
                        let is_stop = match ResponseStatus::from_i32(data.status) {
                            Some(ResponseStatus::Stop) => true,
                            _ => false,
                        };
                        if is_stop {
                            request_stopped = true;
                        }
                        orch.handle_event(Event::RequestMiddlewareOk(data), now_ms);
                    },
                    ScriptRequestReply::TimedOut => {
                        orch.handle_event(Event::MiddlewareTimedOut, now_ms);
                    },
                    ScriptRequestReply::Failed => {
                        orch.handle_event(Event::MiddlewareFailed, now_ms);
                    },
                }
            },
            Action::CallBackend { request, .. } => {
                backend_called = true;
                backend_request = Some(request);
                let b = backend_reply.take();
                match b {
                    Some(ScriptBackend::Answer(parts)) => {
                        orch.handle_event(Event::BackendOk(parts), now_ms);
                    },
                    Some(ScriptBackend::TimedOut) => {
                        orch.handle_event(Event::BackendTimedOut, now_ms);
                    },
                    Some(ScriptBackend::Failed) => {
                        orch.handle_event(Event::BackendFailed, now_ms);
                    },
                    None => {
                        proof {
                            assert(false);
                        }
                    },
                }
            },
            Action::CallResponseMiddleware { endpoint, .. } => {
                let ghost prev_calls = response_calls@.map_values(|u: usize| u as int);
                response_calls.push(endpoint);
                proof {
                    assert(response_calls@.map_values(|u: usize| u as int) =~= prev_calls.push(
                        endpoint as int,
                    ));
                    assert(response_calls@.map_values(|u: usize| u as int) =~= o@.resp_idx.take(
                        response_calls@.len() as int,
                    ));
                }
                let reply = resp_replies.remove(0);
                proof {
                    assert(resp_replies@ =~= init_resp.skip(response_calls@.len() as int));
                }
                match reply {
                    ScriptResponseReply::Answer(data) => {
                        orch.handle_event(Event::ResponseMiddlewareOk(data), now_ms);
                    },
                    ScriptResponseReply::TimedOut => {
                        orch.handle_event(Event::MiddlewareTimedOut, now_ms);
                    },
                    ScriptResponseReply::Failed => {
                        orch.handle_event(Event::MiddlewareFailed, now_ms);
                    },
                }
            },
        }
    }
}

} // verus!

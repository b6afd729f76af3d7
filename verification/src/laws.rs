//! The gateway's response-shape laws, written out as theorems over the same
//! views the engine's contracts use: what the terminal error responses look
//! like, and which timing headers every response carries.

use vstd::prelude::*;
use vstd::utf8::encode_utf8;
use crate::container::{ContainerModel, HttpContainerView};
use crate::handler::{apply_request_outcome, apply_response_outcome, outcome_problem};
use crate::headers::{
    HeaderView, lemma_lower_headers_lowered, lemma_remove_names_lowered, lower_headers,
};
use crate::messages::OutcomeView;
use crate::orchestrator::{FailureKind, failure_response, final_response_ok};
use crate::responses::{
    error_response, time_headers, has_header, kubeware_time_name, backend_time_name,
};
use crate::strutil::dec_digits;

verus! {

/// The two timing header names differ.
proof fn lemma_time_names_differ()
    ensures
        kubeware_time_name() != backend_time_name(),
{
    reveal_strlit("x-kubeware-time");
    reveal_strlit("x-backend-time");
    assert(kubeware_time_name().len() == 15);
    assert(backend_time_name().len() == 14);
}

/// Every terminal error response carries exactly one header: the total
/// elapsed time. In particular it has `x-kubeware-time` and lacks
/// `x-backend-time`, whatever the elapsed value.
pub proof fn lemma_error_response_shape(status: u16, phrase: Seq<char>, elapsed_ms: u64)
    ensures
        error_response(status, phrase, elapsed_ms).status == status,
        error_response(status, phrase, elapsed_ms).body == encode_utf8(phrase),
        error_response(status, phrase, elapsed_ms).headers == seq![
            HeaderView { name: kubeware_time_name(), value: dec_digits(elapsed_ms as nat) },
        ],
        has_header(error_response(status, phrase, elapsed_ms).headers, kubeware_time_name()),
        !has_header(error_response(status, phrase, elapsed_ms).headers, backend_time_name()),
{
    lemma_time_names_differ();
    assert(error_response(status, phrase, elapsed_ms).headers =~= seq![
        HeaderView { name: kubeware_time_name(), value: dec_digits(elapsed_ms as nat) },
    ]);
    assert(error_response(status, phrase, elapsed_ms).headers[0].name == kubeware_time_name());
}

/// Every terminal middleware failure — an unresolved endpoint, a deadline
/// exceeded, or a transport error — answers 503 with the body
/// `"Service Unavailable"`, carries the total-time header and no
/// backend-time header.
pub proof fn lemma_middleware_failure_response(kind: FailureKind, elapsed_ms: u64)
    requires
        kind is MiddlewareUnresolved || kind is MiddlewareTimeout || kind is MiddlewareTransport,
    ensures
        failure_response(kind, elapsed_ms).status == 503,
        failure_response(kind, elapsed_ms).body == encode_utf8("Service Unavailable"@),
        has_header(failure_response(kind, elapsed_ms).headers, kubeware_time_name()),
        !has_header(failure_response(kind, elapsed_ms).headers, backend_time_name()),
{
    lemma_error_response_shape(503, "Service Unavailable"@, elapsed_ms);
}

/// Every response written after the backend was reached opens with both
/// timing headers: the total elapsed time first, the backend elapsed time
/// second — and the total dominates the backend time, which is what the
/// orchestrator guarantees whenever it hands such a response out.
pub proof fn lemma_success_response_time_headers(
    c: ContainerModel,
    backend_ms: u64,
    elapsed_ms: u64,
)
    requires
        backend_ms <= elapsed_ms,
    ensures
        final_response_ok(c, Some(backend_ms), elapsed_ms).headers.len() >= 2,
        final_response_ok(c, Some(backend_ms), elapsed_ms).headers[0] == (HeaderView {
            name: kubeware_time_name(),
            value: dec_digits(elapsed_ms as nat),
        }),
        final_response_ok(c, Some(backend_ms), elapsed_ms).headers[1] == (HeaderView {
            name: backend_time_name(),
            value: dec_digits(backend_ms as nat),
        }),
        has_header(final_response_ok(c, Some(backend_ms), elapsed_ms).headers, kubeware_time_name()),
        has_header(final_response_ok(c, Some(backend_ms), elapsed_ms).headers, backend_time_name()),
{
    let hs = final_response_ok(c, Some(backend_ms), elapsed_ms).headers;
    assert(time_headers(elapsed_ms, Some(backend_ms)).len() == 2);
    assert(hs[0] == time_headers(elapsed_ms, Some(backend_ms))[0]);
    assert(hs[1] == time_headers(elapsed_ms, Some(backend_ms))[1]);
    assert(time_headers(elapsed_ms, Some(backend_ms))[1] == (HeaderView {
        name: backend_time_name(),
        value: dec_digits(backend_ms as nat),
    }));
}

} // verus!


verus! {

/// The container invariant survives a request-phase outcome: with a
/// well-formed outcome, removal keeps stored names as they are, added names
/// arrive lower-cased, and the status stays an HTTP status (a `Stop` without
/// one defaults to 500).
pub proof fn lemma_apply_request_outcome_wf(c: ContainerModel, o: OutcomeView, stop: bool)
    requires
        c.wf(),
        outcome_problem(o) is None,
    ensures
        apply_request_outcome(c, o, stop).wf(),
{
    lemma_remove_names_lowered(c.request.headers, o.removed_headers);
    lemma_lower_headers_lowered(o.added_headers);
}

/// The container invariant survives a response-phase outcome, likewise.
pub proof fn lemma_apply_response_outcome_wf(c: ContainerModel, o: OutcomeView, stop: bool)
    requires
        c.wf(),
        outcome_problem(o) is None,
    ensures
        apply_response_outcome(c, o, stop).wf(),
{
    lemma_remove_names_lowered(c.response.headers, o.removed_headers);
    lemma_lower_headers_lowered(o.added_headers);
}

/// The container invariant holds of a freshly built container — the builder
/// lower-cases the absorbed names and leaves the status unset — and of one
/// that has just absorbed a backend response.
pub proof fn lemma_installed_response_wf(c: ContainerModel, status: u16, hs: Seq<HeaderView>, body: Seq<u8>)
    requires
        c.wf(),
        100 <= status <= 599,
    ensures
        (ContainerModel {
            status_code: Some(status),
            response: HttpContainerView { headers: lower_headers(hs), body },
            ..c
        }).wf(),
{
    lemma_lower_headers_lowered(hs);
}

} // verus!

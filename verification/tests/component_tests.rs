//! Component tests: configuration defaults, string helpers, the container
//! and its handler, the endpoint registry, and the orchestrator's first
//! actions.

use kubeware::config::{Backend, Config, HttpVersion, MiddlewareConfig};
use kubeware::container::{ContainerState, ProtocolVersion, RequestContainer,
    RequestContainerBuilder};
use kubeware::handler::ContainerHandler;
use kubeware::headers::Header;
use kubeware::messages::{RequestResponse, ResponseStatus};
use kubeware::middleware::MiddlewareBuilder;
use kubeware::middlewares::Middlewares;
use kubeware::orchestrator::{Action, Orchestrator};
use kubeware::responses::{
    gateway_error, gateway_timeout, generic_error, service_unavailable_error,
};
use kubeware::strutil::{ascii_lower, backend_url, check_header_name, check_header_value,
    u64_to_dec};

fn lazy_channel() -> tonic::transport::Channel {
    // a channel needs a live async runtime to park its background task on
    let rt = Box::leak(Box::new(
        tokio::runtime::Builder::new_multi_thread().enable_all().build().unwrap(),
    ));
    let _guard = rt.enter();
    tonic::transport::Endpoint::from_static("http://127.0.0.1:17002").connect_lazy()
}

fn sample_config() -> Config {
    Config {
        ip: None,
        port: None,
        log: None,
        backend: Backend {
            url: "http://127.0.0.1:17001".to_string(),
            timeout_ms: None,
            version: None,
        },
        middlewares: vec![
            MiddlewareConfig {
                url: "http://127.0.0.1:17002".to_string(),
                timeout_ms: None,
                request: true,
                response: false,
            },
            MiddlewareConfig {
                url: "http://127.0.0.1:17003".to_string(),
                timeout_ms: Some(75),
                request: false,
                response: true,
            },
        ],
    }
}

fn sample_container(body: &[u8]) -> RequestContainer {
    RequestContainerBuilder::new()
        .method("GET".to_string())
        .uri("/a/b?q=1".to_string())
        .version(ProtocolVersion::Http11)
        .headers(vec![
            Header { name: "Host".to_string(), value: "example".to_string() },
            Header { name: "Content-Length".to_string(), value: "11".to_string() },
        ])
        .body(body.to_vec())
        .build()
}

#[test]
fn config_defaults_apply() {
    let cfg = sample_config();
    assert_eq!("127.0.0.1", cfg.effective_ip().as_str());
    assert_eq!(17000, cfg.effective_port());
    assert_eq!(5000, cfg.backend_timeout_ms());
    assert!(matches!(cfg.backend_version(), HttpVersion::HTTP));
}

#[test]
fn decimal_rendering_is_exact() {
    assert_eq!("0", u64_to_dec(0).as_str());
    assert_eq!("7", u64_to_dec(7).as_str());
    assert_eq!("5000", u64_to_dec(5000).as_str());
    assert_eq!("18446744073709551615", u64_to_dec(u64::MAX).as_str());
}

#[test]
fn ascii_lower_maps_only_ascii_letters() {
    assert_eq!("x-custom-header", ascii_lower("X-Custom-Header").as_str());
    assert_eq!("abc123!~", ascii_lower("AbC123!~").as_str());
    assert_eq!("héllo", ascii_lower("Héllo").as_str());
}

#[test]
fn header_name_and_value_validity() {
    assert!(check_header_name("x-custom-header"));
    assert!(!check_header_name(""));
    assert!(!check_header_name("X-Upper"));
    assert!(!check_header_name("sp ace"));
    assert!(check_header_value(""));
    assert!(check_header_value("a value, with: stuff\t"));
    assert!(!check_header_value("line\nbreak"));
}

#[test]
fn backend_url_keeps_path_and_query() {
    assert_eq!(
        "http://b/a/b?q=1",
        backend_url("http://b", "/a/b?q=1").as_str(),
    );
    assert_eq!(
        "http://b/x?y=2",
        backend_url("http://b", "http://127.0.0.1:17000/x?y=2").as_str(),
    );
    assert_eq!("http://b/", backend_url("http://b", "http://host").as_str());
    assert_eq!("http://b/", backend_url("http://b", "*").as_str());
}

#[test]
fn message_status_decoding() {
    assert!(matches!(ResponseStatus::from_i32(0), Some(ResponseStatus::Success)));
    assert!(matches!(ResponseStatus::from_i32(1), Some(ResponseStatus::Continue)));
    assert!(matches!(ResponseStatus::from_i32(2), Some(ResponseStatus::Stop)));
    assert!(ResponseStatus::from_i32(3).is_none());
    assert!(ResponseStatus::from_i32(-1).is_none());
}

#[test]
fn container_builder_lowercases_and_keeps_order() {
    let c = sample_container(b"Real body !");
    let hs = c.request_headers();
    assert_eq!(2, hs.len());
    assert_eq!("host", hs[0].name.as_str());
    assert_eq!("content-length", hs[1].name.as_str());
    assert_eq!("GET", c.method().as_str());
    assert_eq!("/a/b?q=1", c.uri().as_str());
    assert!(c.status_code().is_none());
    assert!(matches!(c.state(), ContainerState::MiddlewareRequest));
}

#[test]
fn container_body_decoding_requires_utf8() {
    let good = sample_container("hé".as_bytes());
    assert_eq!("hé", good.request_body().unwrap().as_str());
    let bad = sample_container(&[0xff, 0xfe]);
    assert!(bad.request_body().is_err());
}

#[test]
fn container_add_headers_validates() {
    let mut c = sample_container(b"");
    let ok = c.add_request_headers(&vec![Header {
        name: "X-New".to_string(),
        value: "v".to_string(),
    }]);
    assert!(ok.is_ok());
    assert!(c.request_headers().iter().any(|h| h.name == "x-new" && h.value == "v"));
    let bad_name = c.add_request_headers(&vec![Header {
        name: "bad name".to_string(),
        value: "v".to_string(),
    }]);
    assert!(bad_name.is_err());
    let bad_value = c.add_request_headers(&vec![Header {
        name: "fine".to_string(),
        value: "bad\u{0007}value".to_string(),
    }]);
    assert!(bad_value.is_err());
}

#[test]
fn container_remove_headers_is_case_insensitive() {
    let mut c = sample_container(b"");
    c.remove_request_headers(&vec!["HOST".to_string()]);
    assert!(c.request_headers().iter().all(|h| h.name != "host"));
    assert!(c.request_headers().iter().any(|h| h.name == "content-length"));
}

#[test]
fn handler_serializes_middleware_request() {
    let c = sample_container(b"Real body !");
    let h = ContainerHandler::new(c, "http://b/a/b?q=1".to_string());
    let m = h.into_middleware_request().unwrap();
    assert_eq!("GET", m.method.as_str());
    assert_eq!("/a/b?q=1", m.uri.as_str());
    assert_eq!("Real body !", m.body.as_str());
    assert_eq!(2, m.headers.len());
}

#[test]
fn handler_backend_request_strips_content_length() {
    let c = sample_container(b"Real body !");
    let h = ContainerHandler::new(c, "http://b/a/b?q=1".to_string());
    let req = h.into_request().unwrap();
    assert_eq!("http://b/a/b?q=1", req.url.as_str());
    assert!(req.headers.iter().all(|x| x.name != "content-length"));
    assert!(req.headers.iter().any(|x| x.name == "host"));
    assert_eq!(b"Real body !".to_vec(), req.body);
}

#[test]
fn handler_response_stamps_timing_headers() {
    let c = sample_container(b"");
    let mut h = ContainerHandler::new(c, "http://b/".to_string());
    h.handle_response(
        204,
        vec![Header { name: "Content-Length".to_string(), value: "0".to_string() }],
        Vec::new(),
    );
    h.backend_elapsed_set(7);
    let res = h.into_response(42).unwrap();
    assert_eq!(204, res.status);
    assert_eq!("x-kubeware-time", res.headers[0].name.as_str());
    assert_eq!("42", res.headers[0].value.as_str());
    assert_eq!("x-backend-time", res.headers[1].name.as_str());
    assert_eq!("7", res.headers[1].value.as_str());
    assert!(res.headers.iter().all(|x| x.name != "content-length"));
}

#[test]
fn handler_response_defaults_to_500_when_status_unset() {
    let c = sample_container(b"");
    let h = ContainerHandler::new(c, "http://b/".to_string());
    let res = h.into_response(0).unwrap();
    assert_eq!(500, res.status);
    assert!(res.headers.iter().all(|x| x.name != "x-backend-time"));
}

#[test]
fn handler_applies_stop_outcome_defaults() {
    let c = sample_container(b"leftover");
    let mut h = ContainerHandler::new(c, "http://b/".to_string());
    let outcome = RequestResponse {
        status: 2,
        added_headers: Vec::new(),
        removed_headers: Vec::new(),
        body: None,
        status_code: None,
    };
    h.handle_middleware_request(&outcome, true).unwrap();
    assert_eq!(Some(500), h.status_code());
    let res = h.into_response(0).unwrap();
    assert_eq!(500, res.status);
    assert_eq!(Vec::<u8>::new(), res.body);
}

#[test]
fn handler_rejects_out_of_range_status_code() {
    let c = sample_container(b"");
    let mut h = ContainerHandler::new(c, "http://b/".to_string());
    let outcome = RequestResponse {
        status: 0,
        added_headers: Vec::new(),
        removed_headers: Vec::new(),
        body: None,
        status_code: Some(99),
    };
    assert!(h.handle_middleware_request(&outcome, false).is_err());
    let outcome2 = RequestResponse { status_code: Some(600), ..outcome };
    assert!(h.handle_middleware_request(&outcome2, false).is_err());
}

#[test]
fn error_responses_have_exact_shape() {
    let r = gateway_error(3);
    assert_eq!(502, r.status);
    assert_eq!(b"Bad Gateway".to_vec(), r.body);
    assert_eq!(1, r.headers.len());
    assert_eq!("x-kubeware-time", r.headers[0].name.as_str());
    assert_eq!("3", r.headers[0].value.as_str());
    let r = service_unavailable_error(0);
    assert_eq!(503, r.status);
    assert_eq!(b"Service Unavailable".to_vec(), r.body);
    let r = gateway_timeout(0);
    assert_eq!(504, r.status);
    assert_eq!(b"Gateway Timeout".to_vec(), r.body);
    let r = generic_error(0);
    assert_eq!(500, r.status);
    assert_eq!(b"Internal server error".to_vec(), r.body);
}

#[test]
fn middleware_builder_applies_timeout_default() {
    let m = MiddlewareBuilder::new()
        .url("http://x".to_string())
        .connection(None)
        .request(true)
        .response(false)
        .timeout_millis(None)
        .build();
    assert_eq!(5000, m.timeout_ms());
    assert!(m.request());
    assert!(!m.response());
    assert!(m.connection().is_none());
    let m2 = MiddlewareBuilder::new()
        .url("http://x".to_string())
        .connection(Some(lazy_channel()))
        .request(false)
        .response(true)
        .timeout_millis(Some(75))
        .build();
    assert_eq!(75, m2.timeout_ms());
    assert!(m2.connection().is_some());
}

#[test]
fn registry_projections_follow_flags() {
    let cfg = sample_config();
    let mut m = Middlewares::with_config(&cfg);
    m.insert(&cfg.middlewares[0], Some(lazy_channel()));
    m.insert(&cfg.middlewares[1], Some(lazy_channel()));
    assert_eq!(2, m.all().len());
    let req = m.request();
    assert_eq!(1, req.len());
    assert_eq!("http://127.0.0.1:17002", req[0].url().as_str());
    let resp = m.response();
    assert_eq!(1, resp.len());
    assert_eq!("http://127.0.0.1:17003", resp[0].url().as_str());
}

#[test]
fn registry_reconnection_is_idempotent_when_all_connected() {
    let cfg = sample_config();
    let mut m = Middlewares::with_config(&cfg);
    m.insert(&cfg.middlewares[0], Some(lazy_channel()));
    m.insert(&cfg.middlewares[1], Some(lazy_channel()));
    assert!(!m.needs_reconnect());
    assert_eq!(0, m.reconnect_urls().len());
    let once = m.ensure_connected(Vec::new());
    let twice = once.ensure_connected(Vec::new());
    for r in [&once, &twice] {
        assert_eq!(2, r.all().len());
        for (a, b) in r.all().iter().zip(m.all().iter()) {
            assert_eq!(a.url(), b.url());
            assert_eq!(a.request(), b.request());
            assert_eq!(a.response(), b.response());
            assert_eq!(a.timeout_ms(), b.timeout_ms());
            assert_eq!(a.connection().is_some(), b.connection().is_some());
        }
    }
}

#[test]
fn registry_reconnection_rebuilds_broken_endpoints() {
    let cfg = sample_config();
    let mut m = Middlewares::with_config(&cfg);
    m.insert(&cfg.middlewares[0], None);
    m.insert(&cfg.middlewares[1], Some(lazy_channel()));
    assert!(m.needs_reconnect());
    let urls = m.reconnect_urls();
    assert_eq!(vec!["http://127.0.0.1:17002".to_string()], urls);
    let dialed = m.ensure_connected(vec![Some(lazy_channel())]);
    assert!(dialed.all()[0].connection().is_some());
    assert!(!dialed.needs_reconnect());
    let still_down = m.ensure_connected(vec![None]);
    assert!(still_down.all()[0].connection().is_none());
    assert!(still_down.needs_reconnect());
    assert!(still_down.all()[1].connection().is_some());
}

#[test]
fn orchestrator_first_action_carries_deadline_metadata() {
    let cfg = sample_config();
    let mut m = Middlewares::with_config(&cfg);
    m.insert(&cfg.middlewares[0], Some(lazy_channel()));
    let container = sample_container(b"hi");
    let mut orch = Orchestrator::new(container, &m, &cfg, 0);
    match orch.next_action(0) {
        Action::CallRequestMiddleware { endpoint, call, timeout_ms, grpc_timeout, .. } => {
            assert_eq!(0, endpoint);
            assert_eq!(5000, timeout_ms);
            assert_eq!("5000m", grpc_timeout.as_str());
            assert_eq!("GET", call.method.as_str());
            assert_eq!("hi", call.body.as_str());
        },
        _ => panic!("expected a request-phase middleware call"),
    }
}

#[test]
fn orchestrator_skips_to_backend_without_request_endpoints() {
    let cfg = sample_config();
    let mut m = Middlewares::with_config(&cfg);
    m.insert(&cfg.middlewares[1], Some(lazy_channel()));
    let container = sample_container(b"hi");
    let mut orch = Orchestrator::new(container, &m, &cfg, 0);
    match orch.next_action(0) {
        Action::CallBackend { request, timeout_ms } => {
            assert_eq!(5000, timeout_ms);
            assert_eq!("http://127.0.0.1:17001/a/b?q=1", request.url.as_str());
        },
        _ => panic!("expected the backend call"),
    }
}

#[test]
fn handler_serializes_middleware_response_with_both_sides() {
    let c = sample_container(b"req body");
    let mut h = ContainerHandler::new(c, "http://b/".to_string());
    h.handle_response(
        200,
        vec![Header { name: "X-From-Backend".to_string(), value: "yes".to_string() }],
        b"resp body".to_vec(),
    );
    let m = h.into_middleware_response().unwrap();
    assert_eq!("GET", m.method.as_str());
    assert_eq!("req body", m.request_body.as_str());
    assert_eq!("resp body", m.response_body.as_str());
    assert_eq!(2, m.request_headers.len());
    assert_eq!(1, m.response_headers.len());
    assert_eq!("x-from-backend", m.response_headers[0].name.as_str());
}

#[test]
fn container_state_selects_the_side_of_operations() {
    let mut c = sample_container(b"req");
    c.body_set_string("request side".to_string());
    assert_eq!("request side", c.request_body().unwrap().as_str());
    c.state_set(ContainerState::Response);
    c.body_set_string("response side".to_string());
    assert_eq!("request side", c.request_body().unwrap().as_str());
    assert_eq!("response side", c.response_body().unwrap().as_str());
    assert_eq!("response side", c.body().unwrap().as_str());
    c.add_headers(&vec![Header { name: "X-R".to_string(), value: "v".to_string() }]).unwrap();
    assert!(c.response_headers().iter().any(|h| h.name == "x-r"));
    assert!(c.request_headers().iter().all(|h| h.name != "x-r"));
}

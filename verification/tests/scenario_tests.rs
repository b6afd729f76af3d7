//! End-to-end scenarios for the orchestration engine, driven through the
//! scripted run: one middleware, one backend, the whole pipeline.

use kubeware::config::{Backend, Config, HttpVersion, MiddlewareConfig};
use kubeware::container::{ProtocolVersion, RequestContainer, RequestContainerBuilder};
use kubeware::headers::Header;
use kubeware::messages::{RequestResponse, ResponseResponse};
use kubeware::middlewares::Middlewares;
use kubeware::orchestrator::{
    run, BackendResponseParts, Orchestrator, Script, ScriptBackend, ScriptRequestReply,
    ScriptResponseReply,
};
use kubeware::responses::HttpResponseParts;

fn lazy_channel() -> tonic::transport::Channel {
    // a channel needs a live async runtime to park its background task on
    let rt = Box::leak(Box::new(
        tokio::runtime::Builder::new_multi_thread().enable_all().build().unwrap(),
    ));
    let _guard = rt.enter();
    tonic::transport::Endpoint::from_static("http://127.0.0.1:17002").connect_lazy()
}

fn config(request: bool, response: bool) -> Config {
    Config {
        ip: Some("127.0.0.1".to_string()),
        port: Some(17000),
        log: None,
        backend: Backend {
            url: "http://127.0.0.1:17001".to_string(),
            timeout_ms: Some(50),
            version: Some(HttpVersion::HTTP),
        },
        middlewares: vec![MiddlewareConfig {
            url: "http://127.0.0.1:17002".to_string(),
            timeout_ms: Some(50),
            request,
            response,
        }],
    }
}

fn registry(cfg: &Config, connected: bool) -> Middlewares {
    let mut m = Middlewares::with_config(cfg);
    let conn = if connected { Some(lazy_channel()) } else { None };
    m.insert(&cfg.middlewares[0], conn);
    m
}

fn inbound(method: &str, body: &str) -> RequestContainer {
    RequestContainerBuilder::new()
        .method(method.to_string())
        .uri("/".to_string())
        .version(ProtocolVersion::Http11)
        .headers(Vec::new())
        .body(body.as_bytes().to_vec())
        .build()
}

fn req_reply(status: i32) -> RequestResponse {
    RequestResponse {
        status,
        added_headers: Vec::new(),
        removed_headers: Vec::new(),
        body: None,
        status_code: None,
    }
}

fn resp_reply(status: i32) -> ResponseResponse {
    ResponseResponse {
        status,
        added_headers: Vec::new(),
        removed_headers: Vec::new(),
        body: None,
        status_code: None,
    }
}

fn backend_ok(body: &str) -> ScriptBackend {
    ScriptBackend::Answer(BackendResponseParts {
        status: 200,
        headers: Vec::new(),
        body: body.as_bytes().to_vec(),
    })
}

fn header_value(r: &HttpResponseParts, name: &str) -> Option<String> {
    r.headers.iter().find(|h| h.name == name).map(|h| h.value.clone())
}

fn drive(
    cfg: &Config,
    connected: bool,
    container: RequestContainer,
    script: Script,
) -> (HttpResponseParts, kubeware::orchestrator::RunStats) {
    let mws = registry(cfg, connected);
    let orch = Orchestrator::new(container, &mws, cfg, 0);
    run(orch, script, 0)
}

#[test]
fn basic_test() {
    let cfg = config(true, true);
    let script = Script {
        request_replies: vec![ScriptRequestReply::Answer(req_reply(0))],
        response_replies: vec![ScriptResponseReply::Answer(resp_reply(0))],
        backend: backend_ok("OK"),
    };
    let (res, stats) = drive(&cfg, true, inbound("GET", ""), script);
    assert_eq!(1, stats.request_calls.len());
    assert_eq!(1, stats.response_calls.len());
    assert!(stats.backend_called);
    assert_eq!(200, res.status);
    assert_eq!(b"OK".to_vec(), res.body);
    let total: u64 = header_value(&res, "x-kubeware-time").unwrap().parse().unwrap();
    let backend: u64 = header_value(&res, "x-backend-time").unwrap().parse().unwrap();
    assert!(total >= backend);
}

#[test]
fn middleware_not_reachable_returns_503() {
    let cfg = config(true, true);
    let script = Script {
        request_replies: vec![ScriptRequestReply::Answer(req_reply(0))],
        response_replies: vec![ScriptResponseReply::Answer(resp_reply(0))],
        backend: backend_ok("OK"),
    };
    let (res, stats) = drive(&cfg, false, inbound("GET", ""), script);
    assert!(!stats.backend_called);
    assert_eq!(503, res.status);
    assert_eq!(b"Service Unavailable".to_vec(), res.body);
    assert!(header_value(&res, "x-kubeware-time").is_some());
    assert!(header_value(&res, "x-backend-time").is_none());
}

#[test]
fn when_sending_request_on_request_continue_full_flow_is_executed() {
    let cfg = config(true, false);
    let script = Script {
        request_replies: vec![ScriptRequestReply::Answer(req_reply(1))],
        response_replies: Vec::new(),
        backend: backend_ok("OK"),
    };
    let (res, stats) = drive(&cfg, true, inbound("GET", ""), script);
    assert_eq!(1, stats.request_calls.len());
    assert_eq!(0, stats.response_calls.len());
    assert!(stats.backend_called);
    assert_eq!(200, res.status);
    assert_eq!(b"OK".to_vec(), res.body);
}

#[test]
fn when_sending_request_on_continue_and_body_change_body_is_not_changed() {
    let cfg = config(true, false);
    let mut reply = req_reply(1);
    reply.body = Some("New body !".to_string());
    let script = Script {
        request_replies: vec![ScriptRequestReply::Answer(reply)],
        response_replies: Vec::new(),
        backend: backend_ok("OK"),
    };
    let (res, stats) = drive(&cfg, true, inbound("POST", "Real body !"), script);
    assert_eq!(200, res.status);
    let seen = stats.backend_request.expect("backend request");
    assert_eq!(b"Real body !".to_vec(), seen.body);
}

#[test]
fn when_sending_request_on_continue_and_headers_added_headers_are_not_added() {
    let cfg = config(true, false);
    let mut reply = req_reply(1);
    reply.added_headers = vec![Header {
        name: "x-custom-header".to_string(),
        value: "custom-value".to_string(),
    }];
    let script = Script {
        request_replies: vec![ScriptRequestReply::Answer(reply)],
        response_replies: Vec::new(),
        backend: backend_ok("OK"),
    };
    let (res, stats) = drive(&cfg, true, inbound("GET", ""), script);
    assert_eq!(200, res.status);
    let seen = stats.backend_request.expect("backend request");
    assert!(seen.headers.iter().all(|h| h.name != "x-custom-header"));
}

#[test]
fn when_sending_request_on_continue_and_headers_removed_headers_are_not_removed() {
    let cfg = config(true, false);
    let mut reply = req_reply(1);
    reply.removed_headers = vec!["x-present".to_string()];
    let script = Script {
        request_replies: vec![ScriptRequestReply::Answer(reply)],
        response_replies: Vec::new(),
        backend: backend_ok("OK"),
    };
    let container = RequestContainerBuilder::new()
        .method("GET".to_string())
        .uri("/".to_string())
        .version(ProtocolVersion::Http11)
        .headers(vec![Header { name: "x-present".to_string(), value: "yes".to_string() }])
        .body(Vec::new())
        .build();
    let (res, stats) = drive(&cfg, true, container, script);
    assert_eq!(200, res.status);
    let seen = stats.backend_request.expect("backend request");
    assert!(seen.headers.iter().any(|h| h.name == "x-present" && h.value == "yes"));
}

#[test]
fn when_sending_request_on_request_success_full_flow_is_executed() {
    let cfg = config(true, false);
    let script = Script {
        request_replies: vec![ScriptRequestReply::Answer(req_reply(0))],
        response_replies: Vec::new(),
        backend: backend_ok("OK"),
    };
    let (res, stats) = drive(&cfg, true, inbound("GET", ""), script);
    assert_eq!(1, stats.request_calls.len());
    assert_eq!(0, stats.response_calls.len());
    assert!(stats.backend_called);
    assert_eq!(200, res.status);
    assert_eq!(b"OK".to_vec(), res.body);
}

#[test]
fn when_sending_request_on_request_stop_without_status_code_flow_is_stopped_and_500_returned() {
    let cfg = config(true, false);
    let script = Script {
        request_replies: vec![ScriptRequestReply::Answer(req_reply(2))],
        response_replies: Vec::new(),
        backend: backend_ok("OK"),
    };
    let (res, stats) = drive(&cfg, true, inbound("GET", ""), script);
    assert!(stats.request_stopped);
    assert_eq!(1, stats.request_calls.len());
    assert_eq!(0, stats.response_calls.len());
    assert!(!stats.backend_called);
    assert_eq!(500, res.status);
    assert_eq!(Vec::<u8>::new(), res.body);
    assert!(header_value(&res, "x-backend-time").is_none());
}

#[test]
fn when_sending_request_on_request_stop_flow_is_stopped_with_custom_body_and_status_code() {
    let cfg = config(true, false);
    let mut reply = req_reply(2);
    reply.body = Some("Whoops :(".to_string());
    reply.status_code = Some(404);
    let script = Script {
        request_replies: vec![ScriptRequestReply::Answer(reply)],
        response_replies: Vec::new(),
        backend: backend_ok("OK"),
    };
    let (res, stats) = drive(&cfg, true, inbound("GET", ""), script);
    assert!(stats.request_stopped);
    assert_eq!(1, stats.request_calls.len());
    assert_eq!(0, stats.response_calls.len());
    assert!(!stats.backend_called);
    assert_eq!(404, res.status);
    assert_eq!(b"Whoops :(".to_vec(), res.body);
}

#[test]
fn when_sending_request_on_request_stop_flow_is_stopped_with_added_headers() {
    let cfg = config(true, false);
    let mut reply = req_reply(2);
    reply.added_headers = vec![Header {
        name: "X-Custom-Header".to_string(),
        value: "custom-value".to_string(),
    }];
    reply.status_code = Some(200);
    let script = Script {
        request_replies: vec![ScriptRequestReply::Answer(reply)],
        response_replies: Vec::new(),
        backend: backend_ok("OK"),
    };
    let (res, stats) = drive(&cfg, true, inbound("GET", ""), script);
    assert!(!stats.backend_called);
    assert_eq!(200, res.status);
    // stop-phase added headers go to the response side, lower-cased
    assert_eq!(Some("custom-value".to_string()), header_value(&res, "x-custom-header"));
}

#[test]
fn when_sending_request_on_success_and_body_change_body_is_changed() {
    let cfg = config(true, false);
    let mut reply = req_reply(0);
    reply.body = Some("New body !".to_string());
    let script = Script {
        request_replies: vec![ScriptRequestReply::Answer(reply)],
        response_replies: Vec::new(),
        backend: backend_ok("OK"),
    };
    let (res, stats) = drive(&cfg, true, inbound("POST", "hi"), script);
    assert_eq!(200, res.status);
    let seen = stats.backend_request.expect("backend request");
    assert_eq!(b"New body !".to_vec(), seen.body);
}

#[test]
fn when_sending_request_on_success_and_headers_added_headers_are_added() {
    let cfg = config(true, false);
    let mut reply = req_reply(0);
    reply.added_headers = vec![Header {
        name: "X-Custom-Header".to_string(),
        value: "custom-value".to_string(),
    }];
    let script = Script {
        request_replies: vec![ScriptRequestReply::Answer(reply)],
        response_replies: Vec::new(),
        backend: backend_ok("OK"),
    };
    let (res, stats) = drive(&cfg, true, inbound("GET", ""), script);
    assert_eq!(200, res.status);
    let seen = stats.backend_request.expect("backend request");
    assert!(seen.headers.iter().any(|h| h.name == "x-custom-header" && h.value == "custom-value"));
}

#[test]
fn when_sending_request_on_success_and_headers_removed_headers_are_removed() {
    let cfg = config(true, false);
    let mut reply = req_reply(0);
    reply.removed_headers = vec!["X-Present".to_string()];
    let script = Script {
        request_replies: vec![ScriptRequestReply::Answer(reply)],
        response_replies: Vec::new(),
        backend: backend_ok("OK"),
    };
    let container = RequestContainerBuilder::new()
        .method("GET".to_string())
        .uri("/".to_string())
        .version(ProtocolVersion::Http11)
        .headers(vec![Header { name: "x-present".to_string(), value: "yes".to_string() }])
        .body(Vec::new())
        .build();
    let (res, stats) = drive(&cfg, true, container, script);
    assert_eq!(200, res.status);
    let seen = stats.backend_request.expect("backend request");
    assert!(seen.headers.iter().all(|h| h.name != "x-present"));
}

#[test]
fn when_sending_response_on_response_continue_full_flow_is_executed() {
    let cfg = config(false, true);
    let script = Script {
        request_replies: Vec::new(),
        response_replies: vec![ScriptResponseReply::Answer(resp_reply(1))],
        backend: backend_ok("OK"),
    };
    let (res, stats) = drive(&cfg, true, inbound("GET", ""), script);
    assert_eq!(0, stats.request_calls.len());
    assert_eq!(1, stats.response_calls.len());
    assert!(stats.backend_called);
    assert_eq!(200, res.status);
    assert_eq!(b"OK".to_vec(), res.body);
}

#[test]
fn when_sending_response_on_continue_and_body_change_body_is_not_changed() {
    let cfg = config(false, true);
    let mut reply = resp_reply(1);
    reply.body = Some("New body !".to_string());
    let script = Script {
        request_replies: Vec::new(),
        response_replies: vec![ScriptResponseReply::Answer(reply)],
        backend: backend_ok("Real body !"),
    };
    let (res, _stats) = drive(&cfg, true, inbound("GET", ""), script);
    assert_eq!(200, res.status);
    assert_eq!(b"Real body !".to_vec(), res.body);
}

#[test]
fn when_sending_response_on_continue_and_headers_added_headers_are_not_added() {
    let cfg = config(false, true);
    let mut reply = resp_reply(1);
    reply.added_headers = vec![Header {
        name: "x-custom-header".to_string(),
        value: "custom-value".to_string(),
    }];
    let script = Script {
        request_replies: Vec::new(),
        response_replies: vec![ScriptResponseReply::Answer(reply)],
        backend: backend_ok("OK"),
    };
    let (res, _stats) = drive(&cfg, true, inbound("GET", ""), script);
    assert_eq!(200, res.status);
    assert_eq!(None, header_value(&res, "x-custom-header"));
}

#[test]
fn when_sending_response_on_continue_and_headers_removed_headers_are_not_removed() {
    let cfg = config(false, true);
    let mut reply = resp_reply(1);
    reply.removed_headers = vec!["x-from-backend".to_string()];
    let script = Script {
        request_replies: Vec::new(),
        response_replies: vec![ScriptResponseReply::Answer(reply)],
        backend: ScriptBackend::Answer(BackendResponseParts {
            status: 200,
            headers: vec![Header { name: "x-from-backend".to_string(), value: "yes".to_string() }],
            body: b"OK".to_vec(),
        }),
    };
    let (res, _stats) = drive(&cfg, true, inbound("GET", ""), script);
    assert_eq!(200, res.status);
    assert_eq!(Some("yes".to_string()), header_value(&res, "x-from-backend"));
}

#[test]
fn when_sending_response_on_request_success_flow_is_executed() {
    let cfg = config(false, true);
    let script = Script {
        request_replies: Vec::new(),
        response_replies: vec![ScriptResponseReply::Answer(resp_reply(0))],
        backend: backend_ok("OK"),
    };
    let (res, stats) = drive(&cfg, true, inbound("GET", ""), script);
    assert_eq!(0, stats.request_calls.len());
    assert_eq!(1, stats.response_calls.len());
    assert_eq!(200, res.status);
    assert_eq!(b"OK".to_vec(), res.body);
}

#[test]
fn when_sending_response_on_response_stop_without_status_code_flow_is_stopped_and_500_returned() {
    let cfg = config(false, true);
    let script = Script {
        request_replies: Vec::new(),
        response_replies: vec![ScriptResponseReply::Answer(resp_reply(2))],
        backend: backend_ok("OK"),
    };
    let (res, stats) = drive(&cfg, true, inbound("GET", ""), script);
    assert!(stats.backend_called);
    assert_eq!(500, res.status);
    assert_eq!(Vec::<u8>::new(), res.body);
}

#[test]
fn when_sending_response_on_response_stop_flow_is_stopped_with_custom_body_and_status_code() {
    let cfg = config(false, true);
    let mut reply = resp_reply(2);
    reply.body = Some("Whoops :(".to_string());
    reply.status_code = Some(404);
    let script = Script {
        request_replies: Vec::new(),
        response_replies: vec![ScriptResponseReply::Answer(reply)],
        backend: backend_ok("OK"),
    };
    let (res, _stats) = drive(&cfg, true, inbound("GET", ""), script);
    assert_eq!(404, res.status);
    assert_eq!(b"Whoops :(".to_vec(), res.body);
}

#[test]
fn when_sending_response_on_response_stop_flow_is_stopped_with_added_headers() {
    let cfg = config(false, true);
    let mut reply = resp_reply(2);
    reply.added_headers = vec![Header {
        name: "X-Custom-Header".to_string(),
        value: "custom-value".to_string(),
    }];
    reply.status_code = Some(200);
    let script = Script {
        request_replies: Vec::new(),
        response_replies: vec![ScriptResponseReply::Answer(reply)],
        backend: backend_ok("OK"),
    };
    let (res, _stats) = drive(&cfg, true, inbound("GET", ""), script);
    assert_eq!(200, res.status);
    assert_eq!(Some("custom-value".to_string()), header_value(&res, "x-custom-header"));
}

#[test]
fn when_sending_response_on_success_and_body_change_body_is_changed() {
    let cfg = config(false, true);
    let mut reply = resp_reply(0);
    reply.body = Some("New body !".to_string());
    let script = Script {
        request_replies: Vec::new(),
        response_replies: vec![ScriptResponseReply::Answer(reply)],
        backend: backend_ok("Real body !"),
    };
    let (res, _stats) = drive(&cfg, true, inbound("GET", ""), script);
    assert_eq!(200, res.status);
    assert_eq!(b"New body !".to_vec(), res.body);
}

#[test]
fn when_sending_response_on_success_and_headers_added_headers_are_added() {
    let cfg = config(false, true);
    let mut reply = resp_reply(0);
    reply.added_headers = vec![Header {
        name: "X-Custom-Header".to_string(),
        value: "custom-value".to_string(),
    }];
    let script = Script {
        request_replies: Vec::new(),
        response_replies: vec![ScriptResponseReply::Answer(reply)],
        backend: backend_ok("OK"),
    };
    let (res, _stats) = drive(&cfg, true, inbound("GET", ""), script);
    assert_eq!(200, res.status);
    assert_eq!(Some("custom-value".to_string()), header_value(&res, "x-custom-header"));
}

#[test]
fn when_sending_response_on_success_and_headers_removed_headers_are_removed() {
    let cfg = config(false, true);
    let mut reply = resp_reply(0);
    reply.removed_headers = vec!["X-From-Backend".to_string()];
    let script = Script {
        request_replies: Vec::new(),
        response_replies: vec![ScriptResponseReply::Answer(reply)],
        backend: ScriptBackend::Answer(BackendResponseParts {
            status: 200,
            headers: vec![Header { name: "x-from-backend".to_string(), value: "yes".to_string() }],
            body: b"OK".to_vec(),
        }),
    };
    let (res, _stats) = drive(&cfg, true, inbound("GET", ""), script);
    assert_eq!(200, res.status);
    assert_eq!(None, header_value(&res, "x-from-backend"));
}

#[test]
fn when_request_timeouts_503_is_returned() {
    let cfg = config(true, false);
    let script = Script {
        request_replies: vec![ScriptRequestReply::TimedOut],
        response_replies: Vec::new(),
        backend: backend_ok("OK"),
    };
    let (res, stats) = drive(&cfg, true, inbound("GET", ""), script);
    assert!(!stats.backend_called);
    assert_eq!(503, res.status);
    assert_eq!(b"Service Unavailable".to_vec(), res.body);
    assert!(header_value(&res, "x-kubeware-time").is_some());
    assert!(header_value(&res, "x-backend-time").is_none());
}

#[test]
fn when_response_timeouts_503_is_returned() {
    let cfg = config(false, true);
    let script = Script {
        request_replies: Vec::new(),
        response_replies: vec![ScriptResponseReply::TimedOut],
        backend: backend_ok("OK"),
    };
    let (res, stats) = drive(&cfg, true, inbound("GET", ""), script);
    assert!(stats.backend_called);
    assert_eq!(503, res.status);
    assert_eq!(b"Service Unavailable".to_vec(), res.body);
}

#[test]
fn when_backend_timeouts_504_is_returned() {
    let cfg = config(true, false);
    let script = Script {
        request_replies: vec![ScriptRequestReply::Answer(req_reply(0))],
        response_replies: Vec::new(),
        backend: ScriptBackend::TimedOut,
    };
    let (res, _stats) = drive(&cfg, true, inbound("GET", ""), script);
    assert_eq!(504, res.status);
    assert_eq!(b"Gateway Timeout".to_vec(), res.body);
    assert!(header_value(&res, "x-kubeware-time").is_some());
    assert!(header_value(&res, "x-backend-time").is_none());
}

#[test]
fn when_middleware_is_resolved_and_goes_down_request_timeouts_503_is_returned() {
    let cfg = config(true, false);
    let script = Script {
        request_replies: vec![ScriptRequestReply::Failed],
        response_replies: Vec::new(),
        backend: backend_ok("OK"),
    };
    let (res, stats) = drive(&cfg, true, inbound("GET", ""), script);
    assert!(!stats.backend_called);
    assert_eq!(503, res.status);
    assert_eq!(b"Service Unavailable".to_vec(), res.body);
}

#[test]
fn when_middleware_is_resolved_and_goes_down_response_timeouts_503_is_returned() {
    let cfg = config(false, true);
    let script = Script {
        request_replies: Vec::new(),
        response_replies: vec![ScriptResponseReply::Failed],
        backend: backend_ok("OK"),
    };
    let (res, stats) = drive(&cfg, true, inbound("GET", ""), script);
    assert!(stats.backend_called);
    assert_eq!(503, res.status);
    assert_eq!(b"Service Unavailable".to_vec(), res.body);
}

#[test]
fn when_backend_goes_down_502_is_returned() {
    let cfg = config(true, false);
    let script = Script {
        request_replies: vec![ScriptRequestReply::Answer(req_reply(0))],
        response_replies: Vec::new(),
        backend: ScriptBackend::Failed,
    };
    let (res, _stats) = drive(&cfg, true, inbound("GET", ""), script);
    assert_eq!(502, res.status);
    assert_eq!(b"Bad Gateway".to_vec(), res.body);
    assert!(header_value(&res, "x-kubeware-time").is_some());
    assert!(header_value(&res, "x-backend-time").is_none());
}

#[test]
fn no_middlewares_goes_straight_to_backend() {
    let mut cfg = config(true, true);
    cfg.middlewares = Vec::new();
    let mws = Middlewares::with_config(&cfg);
    let orch = Orchestrator::new(inbound("GET", ""), &mws, &cfg, 0);
    let script = Script {
        request_replies: Vec::new(),
        response_replies: Vec::new(),
        backend: backend_ok("OK"),
    };
    let (res, stats) = run(orch, script, 0);
    assert!(stats.backend_called);
    assert_eq!(0, stats.request_calls.len());
    assert_eq!(0, stats.response_calls.len());
    assert_eq!(200, res.status);
    assert_eq!(b"OK".to_vec(), res.body);
}

#[test]
fn added_response_headers_keep_multiplicity() {
    let cfg = config(false, true);
    let mut reply = resp_reply(0);
    reply.added_headers = vec![
        Header { name: "Set-Cookie".to_string(), value: "a=1".to_string() },
        Header { name: "Set-Cookie".to_string(), value: "b=2".to_string() },
    ];
    let script = Script {
        request_replies: Vec::new(),
        response_replies: vec![ScriptResponseReply::Answer(reply)],
        backend: backend_ok("OK"),
    };
    let (res, _stats) = drive(&cfg, true, inbound("GET", ""), script);
    let cookies: Vec<&str> = res
        .headers
        .iter()
        .filter(|h| h.name == "set-cookie")
        .map(|h| h.value.as_str())
        .collect();
    assert_eq!(vec!["a=1", "b=2"], cookies);
}

#[test]
fn non_utf8_body_fails_the_request_with_500() {
    let cfg = config(true, false);
    let script = Script {
        request_replies: vec![ScriptRequestReply::Answer(req_reply(0))],
        response_replies: Vec::new(),
        backend: backend_ok("OK"),
    };
    let container = RequestContainerBuilder::new()
        .method("POST".to_string())
        .uri("/".to_string())
        .version(ProtocolVersion::Http11)
        .headers(Vec::new())
        .body(vec![0xff, 0xfe, 0xfd])
        .build();
    let (res, stats) = drive(&cfg, true, container, script);
    assert_eq!(0, stats.request_calls.len());
    assert!(!stats.backend_called);
    assert_eq!(500, res.status);
    assert_eq!(b"Internal server error".to_vec(), res.body);
}

#[test]
fn unknown_status_value_is_treated_as_continue() {
    let cfg = config(true, false);
    let mut reply = req_reply(7);
    reply.body = Some("ignored".to_string());
    reply.status_code = Some(404);
    let script = Script {
        request_replies: vec![ScriptRequestReply::Answer(reply)],
        response_replies: Vec::new(),
        backend: backend_ok("OK"),
    };
    let (res, stats) = drive(&cfg, true, inbound("POST", "kept"), script);
    assert!(stats.backend_called);
    assert_eq!(200, res.status);
    let seen = stats.backend_request.expect("backend request");
    assert_eq!(b"kept".to_vec(), seen.body);
}

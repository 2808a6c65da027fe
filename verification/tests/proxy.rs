use aegis::config::AegisConfig;
use aegis::proxy::{
    block_response, build_upstream_url, collect_headers, error_response, plan_forward,
    relay_response, HeaderLine, ProxyError, UpstreamReply,
};
use aegis::request::{Header, Request};
use aegis::tools::IntegratedTools;

fn get(path: &str, query: Option<&str>) -> Request {
    Request {
        method: "GET".to_string(),
        path: path.to_string(),
        query: query.map(|q| q.to_string()),
        headers: vec![],
        cookies: Some(vec![]),
        peer_ip: None,
    }
}

fn header(name: &str, value: &str) -> Header {
    Header { name: name.to_string(), value: Some(value.to_string()) }
}

fn line(name: &str, value: &[u8]) -> HeaderLine {
    HeaderLine { name: name.to_string(), value: value.to_vec() }
}

#[test]
fn test_proxy() {
    let config: AegisConfig = AegisConfig::new("http://localhost:4000".to_string());
    let out = plan_forward(&config, &get("/", None)).unwrap();
    assert_eq!(out.url, "http://localhost:4000/");
    assert_eq!(out.method, "GET");
    let resp = relay_response(UpstreamReply {
        status: 200,
        headers: vec![],
        body: b"Hello world!".to_vec(),
    });
    assert!(resp.status >= 200 && resp.status < 300);
    assert_eq!(resp.body, b"Hello world!".to_vec());
}

#[test]
fn upstream_answer_is_passed_on_as_it_came() {
    let headers = vec![
        line("content-type", b"text/plain"),
        line("set-cookie", b"a=1"),
        line("set-cookie", b"b=2"),
        line("x-bytes", &[0xff, 0x00, 0xc3, 0x28]),
        line("x-empty", b""),
    ];
    let reply = UpstreamReply { status: 200, headers: headers.clone(), body: b"hi".to_vec() };
    let resp = relay_response(reply);
    assert_eq!(resp.status, 200);
    assert_eq!(resp.headers, headers);
    assert_eq!(resp.headers[1].value, b"a=1".to_vec());
    assert_eq!(resp.headers[2].value, b"b=2".to_vec());
    assert_eq!(resp.headers[3].value, vec![0xff, 0x00, 0xc3, 0x28]);
    assert_eq!(resp.body, b"hi".to_vec());
}

#[test]
fn every_status_code_is_passed_on() {
    for status in [100u16, 204, 301, 404, 418, 503, 999] {
        let resp = relay_response(UpstreamReply { status, headers: vec![], body: vec![0, 255] });
        assert_eq!(resp.status, status);
        assert_eq!(resp.body, vec![0, 255]);
    }
}

#[test]
fn status_out_of_range_is_a_failure() {
    for status in [0u16, 99, 1000, 65535] {
        let resp = relay_response(UpstreamReply {
            status,
            headers: vec![line("x", b"y")],
            body: b"hi".to_vec(),
        });
        assert_eq!(resp.status, 500);
        assert!(resp.headers.is_empty());
        assert_eq!(resp.body, b"Error from Aegis".to_vec());
    }
}

#[test]
fn block_response_is_forbidden() {
    let resp = block_response();
    assert_eq!(resp.status, 403);
    assert!(resp.headers.is_empty());
    assert_eq!(resp.body, b"Request blocked by firewall".to_vec());
}

#[test]
fn every_proxy_failure_is_a_server_error() {
    for e in [
        ProxyError::UpstreamUrl,
        ProxyError::Method,
        ProxyError::HeaderValue,
        ProxyError::Build,
        ProxyError::Upstream,
        ProxyError::Status,
        ProxyError::Body,
    ] {
        let resp = error_response(e);
        assert_eq!(resp.status, 500);
        assert!(resp.headers.is_empty());
        assert_eq!(resp.body, b"Error from Aegis".to_vec());
    }
}

#[test]
fn upstream_address_is_the_upstream_then_the_target() {
    let config = AegisConfig::new("http://u".to_string());
    assert_eq!(build_upstream_url(&config, &get("/x", None)), "http://u/x");
    assert_eq!(build_upstream_url(&config, &get("/x", Some("a=1&b=2"))), "http://u/x?a=1&b=2");
    assert_eq!(build_upstream_url(&config, &get("/", Some(""))), "http://u/?");
    assert_eq!(build_upstream_url(&config, &get("", None)), "http://u/");
}

#[test]
fn forward_keeps_method_and_headers() {
    let config = AegisConfig::new("http://u".to_string());
    let mut req = get("/x", Some("q=1"));
    req.method = "DELETE".to_string();
    req.headers = vec![
        header("host", "example.net"),
        header("x-tab", "a\tb"),
        header("accept", "a"),
        header("accept", "b"),
        header("x-empty", ""),
    ];
    let out = plan_forward(&config, &req).unwrap();
    assert_eq!(out.url, "http://u/x?q=1");
    assert_eq!(out.method, "DELETE");
    assert_eq!(
        out.headers,
        vec![
            ("host".to_string(), "example.net".to_string()),
            ("x-tab".to_string(), "a\tb".to_string()),
            ("accept".to_string(), "a".to_string()),
            ("accept".to_string(), "b".to_string()),
            ("x-empty".to_string(), String::new()),
        ]
    );
}

#[test]
fn forward_fails_on_a_header_value_that_is_not_readable() {
    let config = AegisConfig::new("http://u".to_string());
    let mut req = get("/x", None);
    req.headers = vec![
        header("host", "example.net"),
        Header { name: "x-bin".to_string(), value: None },
    ];
    assert_eq!(plan_forward(&config, &req), Err(ProxyError::HeaderValue));
    assert_eq!(collect_headers(&req.headers), None);
    let resp = error_response(ProxyError::HeaderValue);
    assert_eq!(resp.status, 500);
    assert_eq!(resp.body, b"Error from Aegis".to_vec());
    req.headers = vec![Header { name: "x-bin".to_string(), value: None }];
    assert_eq!(plan_forward(&config, &req), Err(ProxyError::HeaderValue));
}

#[test]
fn every_method_token_is_forwarded() {
    let config = AegisConfig::new("http://u".to_string());
    for method in ["GET", "POST", "PURGE", "get", "M-SEARCH", "a!#$%&'*+-.^_`|~9", "VERYLONGMETHODNAME-OVER-FIFTEEN"] {
        let mut req = get("/x", None);
        req.method = method.to_string();
        assert_eq!(plan_forward(&config, &req).unwrap().method, method);
    }
    for method in ["", "GE T", "GET\n", "G(T", "G/T", "G:T", "G@T", "G[T", "G{T", "G\"T", "G,T", "G;T", "G=T", "G?T", "GÉT", "G\u{7f}"] {
        let mut req = get("/x", None);
        req.method = method.to_string();
        assert_eq!(plan_forward(&config, &req), Err(ProxyError::Method));
    }
}

#[test]
fn forward_fails_on_an_upstream_that_is_no_url() {
    let config = AegisConfig::new("not a url".to_string());
    assert_eq!(plan_forward(&config, &get("/x", None)), Err(ProxyError::UpstreamUrl));
}

#[test]
fn forward_fails_on_what_is_no_method() {
    let config = AegisConfig::new("http://u".to_string());
    let mut req = get("/x", None);
    req.method = "GE T".to_string();
    assert_eq!(plan_forward(&config, &req), Err(ProxyError::Method));
    req.method = String::new();
    assert_eq!(plan_forward(&config, &req), Err(ProxyError::Method));
}

#[test]
fn forward_fails_on_a_header_value_that_cannot_be_sent() {
    let config = AegisConfig::new("http://u".to_string());
    let mut req = get("/x", None);
    req.headers = vec![header("ok", "fine"), header("bad", "line\nbreak")];
    assert_eq!(plan_forward(&config, &req), Err(ProxyError::HeaderValue));
    assert_eq!(collect_headers(&req.headers), None);
    assert_eq!(collect_headers(&vec![header("bad", "del\u{7f}")]), None);
    assert_eq!(collect_headers(&vec![header("bad", "nul\u{0}")]), None);
    assert_eq!(
        collect_headers(&vec![header("ok", "caf\u{e9} \t~")]),
        Some(vec![("ok".to_string(), "caf\u{e9} \t~".to_string())])
    );
    assert_eq!(collect_headers(&vec![]), Some(vec![]));
}

#[test]
fn forward_failures_come_in_order() {
    let config = AegisConfig::new("not a url".to_string());
    let mut req = get("/x", None);
    req.method = "GE T".to_string();
    req.headers = vec![header("bad", "line\nbreak")];
    assert_eq!(plan_forward(&config, &req), Err(ProxyError::UpstreamUrl));
    let config = AegisConfig::new("http://u".to_string());
    assert_eq!(plan_forward(&config, &req), Err(ProxyError::Method));
}

#[test]
fn tools_follow_the_build() {
    let none = IntegratedTools {
        trippy: false,
        bandwhich: false,
        heimdall: false,
        dfw: false,
        aegis: false,
        yazi_fm: false,
        bottom: false,
    };
    for name in ["trace", "network", "guard", "firewall", "waf", "system", "", "Finder", "other"] {
        assert!(!none.is_tool_available(name));
    }
    assert!(none.is_tool_available("finder"));
    let waf_only = IntegratedTools { aegis: true, ..none };
    assert!(waf_only.is_tool_available("waf"));
    assert!(!waf_only.is_tool_available("firewall"));
    let all = IntegratedTools {
        trippy: true,
        bandwhich: true,
        heimdall: true,
        dfw: true,
        aegis: true,
        yazi_fm: true,
        bottom: true,
    };
    for name in ["trace", "network", "guard", "firewall", "waf", "finder", "system"] {
        assert!(all.is_tool_available(name));
    }
    assert!(!all.is_tool_available("search"));
}

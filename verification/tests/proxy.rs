use revproxy::config::Config;
use revproxy::handler::{
    build_upstream_request, handle_outcome, upstream_url, BodySource, UpstreamDispatchError,
    UpstreamResponse,
};
use revproxy::headers::{forward_request_headers, name_is_transport_managed, Header};
use revproxy::lifecycle::{advance, HandlerPhase};
use revproxy::relay::BodyRelay;

fn header(name: &str, value: &str) -> Header {
    Header { name: name.as_bytes().to_vec(), value: value.as_bytes().to_vec() }
}

// The upstream URL is the base followed by the raw path-and-query.

#[test]
fn url_is_plain_concatenation() {
    let url = upstream_url("http://localhost:8000", Some("/api/v1/items?id=3&x=y"));
    assert_eq!(url, "http://localhost:8000/api/v1/items?id=3&x=y");
}

#[test]
fn url_empty_path_leaves_base_unchanged() {
    assert_eq!(upstream_url("http://localhost:8000", Some("")), "http://localhost:8000");
    assert_eq!(upstream_url("http://localhost:8000", None), "http://localhost:8000");
}

#[test]
fn url_special_characters_pass_through_unencoded() {
    let path = "/a b/%2F/..//?q=%zz&r=#frag";
    let url = upstream_url("http://upstream", Some(path));
    assert_eq!(url, format!("http://upstream{}", path));
}

#[test]
fn url_no_slash_reconciliation() {
    // A base ending in a slash and a path starting with one simply meet.
    assert_eq!(upstream_url("http://h/", Some("/x")), "http://h//x");
    // A path without a leading slash is not given one.
    assert_eq!(upstream_url("http://h", Some("x")), "http://hx");
}

#[test]
fn url_very_long_path_is_kept_whole() {
    let mut path = String::from("/");
    for _ in 0..200_000 {
        path.push('a');
    }
    let url = upstream_url("http://h", Some(&path));
    assert_eq!(url.len(), "http://h".len() + path.len());
    assert!(url.ends_with("aaaa"));
    assert!(url.starts_with("http://h/"));
}

// Header propagation: everything passes through unchanged except the
// transport-managed names.

#[test]
fn transport_managed_names_are_recognized() {
    for name in
        ["connection", "keep-alive", "proxy-connection", "transfer-encoding", "upgrade", "content-length"]
    {
        assert!(name_is_transport_managed(&name.as_bytes().to_vec()), "{}", name);
    }
}

#[test]
fn managed_name_check_is_case_insensitive() {
    assert!(name_is_transport_managed(&b"Connection".to_vec()));
    assert!(name_is_transport_managed(&b"CONTENT-LENGTH".to_vec()));
    assert!(name_is_transport_managed(&b"Transfer-Encoding".to_vec()));
}

#[test]
fn ordinary_names_are_not_managed() {
    for name in ["host", "accept", "x-request-id", "content-type", "authorization", ""] {
        assert!(!name_is_transport_managed(&name.as_bytes().to_vec()), "{}", name);
    }
}

#[test]
fn headers_pass_through_unchanged_in_order() {
    let inbound = vec![
        header("Accept", "text/html"),
        header("X-Custom", "one"),
        header("X-Custom", "two"),
        header("Authorization", "Bearer t"),
    ];
    let out = forward_request_headers(&inbound);
    assert_eq!(out.len(), 4);
    for (a, b) in inbound.iter().zip(out.iter()) {
        assert_eq!(a.name, b.name);
        assert_eq!(a.value, b.value);
    }
}

#[test]
fn transport_managed_headers_are_dropped() {
    let inbound = vec![
        header("Connection", "keep-alive"),
        header("Accept", "*/*"),
        header("Content-Length", "12"),
        header("X-Trace", "abc"),
        header("Upgrade", "h2c"),
    ];
    let out = forward_request_headers(&inbound);
    assert_eq!(out.len(), 2);
    assert_eq!(out[0].name, b"Accept".to_vec());
    assert_eq!(out[0].value, b"*/*".to_vec());
    assert_eq!(out[1].name, b"X-Trace".to_vec());
    assert_eq!(out[1].value, b"abc".to_vec());
}

#[test]
fn empty_header_set_stays_empty() {
    let out = forward_request_headers(&Vec::new());
    assert!(out.is_empty());
}

// The whole request leg at once.

#[test]
fn upstream_request_is_derived_verbatim() {
    let config = Config::from_options(None, None, Some("http://backend:9000".to_string()));
    let inbound = vec![header("Connection", "close"), header("Accept", "*/*")];
    let up = build_upstream_request(&config, "POST".to_string(), Some("/p?q=1"), &inbound);
    assert_eq!(up.method, "POST");
    assert_eq!(up.url, "http://backend:9000/p?q=1");
    assert_eq!(up.headers.len(), 1);
    assert_eq!(up.headers[0].name, b"Accept".to_vec());
}

// The response leg: verbatim on success, the fixed gateway error on failure.

#[test]
fn successful_response_passes_through() {
    let upstream = UpstreamResponse {
        status: 207,
        headers: vec![header("Content-Type", "application/json"), header("X-Id", "7")],
    };
    let out = handle_outcome(Ok(upstream));
    assert_eq!(out.status, 207);
    assert_eq!(out.headers.len(), 2);
    assert_eq!(out.headers[0].name, b"Content-Type".to_vec());
    assert_eq!(out.headers[0].value, b"application/json".to_vec());
    assert_eq!(out.headers[1].name, b"X-Id".to_vec());
    assert!(matches!(out.body, BodySource::UpstreamPassThrough));
}

#[test]
fn error_statuses_also_pass_through() {
    let out = handle_outcome(Ok(UpstreamResponse { status: 404, headers: vec![] }));
    assert_eq!(out.status, 404);
    assert!(out.headers.is_empty());
    assert!(matches!(out.body, BodySource::UpstreamPassThrough));
}

#[test]
fn unreachable_upstream_yields_502_bad_gateway() {
    for err in [
        UpstreamDispatchError::ConnectRefused,
        UpstreamDispatchError::DnsFailure,
        UpstreamDispatchError::WriteFailed,
        UpstreamDispatchError::NoResponse,
    ] {
        let out = handle_outcome(Err(err));
        assert_eq!(out.status, 502);
        assert!(out.headers.is_empty());
        match out.body {
            BodySource::Fixed(body) => assert_eq!(body, b"Bad Gateway".to_vec()),
            BodySource::UpstreamPassThrough => panic!("expected a fixed body"),
        }
    }
}

// Body streaming: each chunk is forwarded exactly, in order.

#[test]
fn relay_forwards_each_chunk_unchanged() {
    let mut relay = BodyRelay::new();
    assert_eq!(relay.forward(Vec::new()), Vec::<u8>::new());
    assert_eq!(relay.forward(b"0123456789".to_vec()), b"0123456789".to_vec());
    let big = vec![0xabu8; 4 * 1024 * 1024];
    assert_eq!(relay.forward(big.clone()), big);
}

#[test]
fn relay_keeps_chunk_order() {
    let mut relay = BodyRelay::new();
    let chunks: Vec<Vec<u8>> = vec![b"ab".to_vec(), b"".to_vec(), b"cde".to_vec()];
    let mut rebuilt = Vec::new();
    for c in &chunks {
        rebuilt.extend(relay.forward(c.clone()));
    }
    assert_eq!(rebuilt, b"abcde".to_vec());
}

// Configuration defaults.

#[test]
fn omitted_options_take_the_defaults() {
    let config = Config::from_options(None, None, None);
    assert_eq!(config.address, "127.0.0.1");
    assert_eq!(config.port, 4242);
    assert_eq!(config.to, "http://localhost:8000");
}

#[test]
fn supplied_options_are_kept() {
    let config = Config::from_options(
        Some("0.0.0.0".to_string()),
        Some(8080),
        Some("http://10.0.0.1:3000".to_string()),
    );
    assert_eq!(config.address, "0.0.0.0");
    assert_eq!(config.port, 8080);
    assert_eq!(config.to, "http://10.0.0.1:3000");
}

// The per-request lifecycle.

#[test]
fn lifecycle_success_path() {
    let mut p = HandlerPhase::Idle;
    p = advance(p, true);
    assert_eq!(p, HandlerPhase::BuildingUpstreamRequest);
    p = advance(p, true);
    assert_eq!(p, HandlerPhase::StreamingRequestBody);
    p = advance(p, true);
    assert_eq!(p, HandlerPhase::AwaitingUpstreamResponse);
    p = advance(p, true);
    assert_eq!(p, HandlerPhase::StreamingResponseBody);
    p = advance(p, true);
    assert_eq!(p, HandlerPhase::Done);
}

#[test]
fn lifecycle_failure_path() {
    let mut p = HandlerPhase::AwaitingUpstreamResponse;
    p = advance(p, false);
    assert_eq!(p, HandlerPhase::Failed);
    p = advance(p, false);
    assert_eq!(p, HandlerPhase::EmittingGatewayError);
    p = advance(p, false);
    assert_eq!(p, HandlerPhase::Done);
}

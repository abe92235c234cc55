use sandra_gateway::connection::Connection;
use sandra_gateway::http::{Header, Request, Response};
use sandra_gateway::proxy::{
    headers_to_inject, plan_tunnel_request, relay_headers, relay_response, upstream_disposition,
    Disposition, Relay, ACCEPT_INVALID_CERTIFICATES, EXTERNAL_TIMEOUT_SECS, EXTERNAL_USER_AGENT,
    TUNNEL_TIMEOUT_SECS,
};

fn named(name: &str, value: &str) -> Header {
    Header { name: name.to_string(), value: value.to_string() }
}

fn external_injected() -> Vec<Header> {
    vec![
        named("Access-Control-Allow-Origin", "*"),
        named("Access-Control-Allow-Credentials", "true"),
        named("Access-Control-Allow-Methods", "GET, POST, OPTIONS, PUT, DELETE"),
        named("Access-Control-Allow-Headers", "Content-Type, Authorization, X-Requested-With"),
        named("X-Frame-Options", "ALLOWALL"),
        named("Referrer-Policy", "unsafe-url"),
        named(
            "Content-Security-Policy",
            "default-src * 'unsafe-inline' 'unsafe-eval' data: blob: sandra-app:;",
        ),
    ]
}

fn tunnel_injected() -> Vec<Header> {
    vec![
        named("Access-Control-Allow-Origin", "*"),
        named("X-Frame-Options", "ALLOWALL"),
        named("Referrer-Policy", "unsafe-url"),
        named("Content-Security-Policy", "default-src * 'unsafe-inline' 'unsafe-eval' data: blob:;"),
    ]
}

fn tunnel_profile() -> Connection {
    Connection {
        id: Some(1),
        name: "office".to_string(),
        ip_address: "192.168.1.20".to_string(),
        port: 443,
        username: Some("ops".to_string()),
        password: Some("secret".to_string()),
        last_connected: None,
        wss_host: Some("control.office".to_string()),
        wss_port: Some(9000),
        is_connected: Some(true),
    }
}

#[test]
fn external_relay_strips_the_four_framing_headers() {
    let upstream = vec![
        named("content-type", "text/html"),
        named("x-frame-options", "DENY"),
        named("Content-Security-Policy", "default-src 'none'"),
        named("set-cookie", "a=1"),
        named("ACCESS-CONTROL-ALLOW-ORIGIN", "https://example.com"),
        named("access-control-allow-credentials", "false"),
        named("set-cookie", "b=2"),
    ];
    let mut expected =
        vec![named("content-type", "text/html"), named("set-cookie", "a=1"), named("set-cookie", "b=2")];
    expected.extend(external_injected());
    assert_eq!(relay_headers(Relay::External, &upstream), expected);
}

#[test]
fn external_relay_injects_the_same_set_whatever_the_upstream_sent() {
    let nothing: Vec<Header> = vec![];
    assert_eq!(relay_headers(Relay::External, &nothing), external_injected());
    let only_blocked = vec![named("X-Frame-Options", "SAMEORIGIN")];
    assert_eq!(relay_headers(Relay::External, &only_blocked), external_injected());
    let other = vec![named("etag", "abc"), named("referrer-policy", "no-referrer")];
    let relayed = relay_headers(Relay::External, &other);
    assert_eq!(relayed[..2].to_vec(), other);
    assert_eq!(relayed[2..].to_vec(), external_injected());
    assert_eq!(relay_headers(Relay::External, &other), relayed);
    assert_eq!(headers_to_inject(Relay::External), external_injected());
}

#[test]
fn tunnel_relay_strips_three_headers_and_injects_four() {
    let upstream = vec![
        named("X-Frame-Options", "DENY"),
        named("content-security-policy", "frame-ancestors 'none'"),
        named("access-control-allow-origin", "null"),
        named("access-control-allow-credentials", "true"),
        named("content-length", "12"),
    ];
    let mut expected =
        vec![named("access-control-allow-credentials", "true"), named("content-length", "12")];
    expected.extend(tunnel_injected());
    assert_eq!(relay_headers(Relay::Tunnel, &upstream), expected);
    assert_eq!(headers_to_inject(Relay::Tunnel), tunnel_injected());
}

#[test]
fn disposition_table_is_shared_by_both_relays() {
    for name in ["x-frame-options", "Content-Security-Policy", "Access-Control-Allow-Origin"] {
        assert_eq!(upstream_disposition(Relay::External, name), Disposition::Drop);
        assert_eq!(upstream_disposition(Relay::Tunnel, name), Disposition::Drop);
    }
    assert_eq!(
        upstream_disposition(Relay::External, "Access-Control-Allow-Credentials"),
        Disposition::Drop
    );
    assert_eq!(
        upstream_disposition(Relay::Tunnel, "Access-Control-Allow-Credentials"),
        Disposition::Forward
    );
    for name in ["content-type", "x-frame-option", "x-frame-options2", ""] {
        assert_eq!(upstream_disposition(Relay::External, name), Disposition::Forward);
        assert_eq!(upstream_disposition(Relay::Tunnel, name), Disposition::Forward);
    }
}

#[test]
fn relayed_response_keeps_status_and_body() {
    let upstream = Response {
        status: 418,
        headers: vec![named("x-frame-options", "DENY"), named("server", "teapot")],
        body: vec![1, 2, 3],
    };
    let relayed = relay_response(Relay::Tunnel, upstream);
    assert_eq!(relayed.status, 418);
    assert_eq!(relayed.body, vec![1, 2, 3]);
    let mut expected = vec![named("server", "teapot")];
    expected.extend(tunnel_injected());
    assert_eq!(relayed.headers, expected);
}

#[test]
fn tunnel_request_forwards_only_content_type_and_authorization() {
    let request = Request {
        method: "PUT".to_string(),
        path: "/api/items/3".to_string(),
        query: Some("force=1".to_string()),
        headers: vec![
            named("cookie", "session=1"),
            named("AUTHORIZATION", "Basic abc"),
            named("x-frame-options", "DENY"),
            named("content-type", "text/plain"),
            named("Content-Type", "application/json"),
            named("referer", "sandra-app://localhost/gdoc/"),
        ],
        body: b"payload".to_vec(),
    };
    let out = plan_tunnel_request(&tunnel_profile(), &request);
    assert_eq!(out.url, "https://192.168.1.20:443/api/items/3");
    assert_eq!(out.method, "PUT");
    assert_eq!(
        out.headers,
        vec![named("Content-Type", "text/plain"), named("Authorization", "Basic abc")]
    );
    assert_eq!(out.body, Some(b"payload".to_vec()));
}

#[test]
fn tunnel_request_without_allowlisted_headers_or_body_carries_none() {
    let request = Request {
        method: "GET".to_string(),
        path: "/status".to_string(),
        query: None,
        headers: vec![named("cookie", "session=1"), named("accept", "*/*")],
        body: Vec::new(),
    };
    let out = plan_tunnel_request(&tunnel_profile(), &request);
    assert_eq!(out.url, "https://192.168.1.20:443/status");
    assert!(out.headers.is_empty());
    assert_eq!(out.body, None);
}

#[test]
fn fetches_are_bounded_in_time_and_accept_any_certificate() {
    assert_eq!(EXTERNAL_TIMEOUT_SECS, 20);
    assert_eq!(TUNNEL_TIMEOUT_SECS, 15);
    assert!(ACCEPT_INVALID_CERTIFICATES);
    assert!(EXTERNAL_USER_AGENT.starts_with("Mozilla/5.0 (Macintosh"));
}

use sandra_gateway::connection::Connection;
use sandra_gateway::context::SessionContext;
use sandra_gateway::http::{Header, Request, Response};
use sandra_gateway::router::{
    classify_facts, decoded_or, entry_raw_target_of, first_step_of, is_header_text_value,
    local_step_of,
    next_after_exchange, next_after_lookup, next_after_read, referer_raw_target_of,
    relative_reference_of, usable_referer_of, ReadOutcome, RequestClassification, RouteFacts,
    Router, Step, UpstreamOutcome, DEFAULT_ENTRY_PREFIX, TARGET_PARAMETER,
};

fn routed_request(path: &str, query: Option<&str>, headers: Vec<(&str, &str)>) -> Request {
    Request {
        method: "GET".to_string(),
        path: path.to_string(),
        query: query.map(|q| q.to_string()),
        headers: headers
            .into_iter()
            .map(|(name, value)| Header { name: name.to_string(), value: value.to_string() })
            .collect(),
        body: Vec::new(),
    }
}

fn sticky(url: &str) -> SessionContext {
    SessionContext { last_external: Some(url.to_string()) }
}

fn profile() -> Connection {
    Connection {
        id: Some(4),
        name: "lab".to_string(),
        ip_address: "10.0.0.8".to_string(),
        port: 9443,
        username: None,
        password: None,
        last_connected: None,
        wss_host: None,
        wss_port: None,
        is_connected: Some(true),
    }
}

fn upstream_ok() -> Response {
    Response {
        status: 200,
        headers: vec![
            Header { name: "content-type".to_string(), value: "text/html".to_string() },
            Header { name: "X-Frame-Options".to_string(), value: "DENY".to_string() },
        ],
        body: b"<html></html>".to_vec(),
    }
}

fn facts_of(
    entry: Option<&str>,
    referer: Option<&str>,
    is_static: bool,
    sticky_url: Option<&str>,
    local_path: &str,
) -> RouteFacts {
    RouteFacts {
        entry_target: entry.map(|s| s.to_string()),
        referer_url: referer.map(|s| s.to_string()),
        is_static,
        sticky_url: sticky_url.map(|s| s.to_string()),
        local_path: local_path.to_string(),
    }
}

#[test]
fn explicit_entry_fetches_the_decoded_target_and_records_it() {
    let router = Router::new("/proxy-entry");
    let mut context = SessionContext::new();
    let request = routed_request("/proxy-entry", Some("target=https%3A%2F%2Fexample.com"), vec![]);
    let step = router.handle_request(&request, &mut context);
    assert_eq!(
        step,
        Step::FetchExternal {
            rule: RequestClassification::ExternalProxyEntry,
            url: "https://example.com".to_string(),
        }
    );
    assert_eq!(context.current(), Some("https://example.com"));
}

#[test]
fn sticky_context_carries_a_later_request_to_the_same_site() {
    let router = Router::new("/proxy-entry");
    let mut context = SessionContext::new();
    let entry = routed_request("/proxy-entry", Some("target=https%3A%2F%2Fexample.com"), vec![]);
    router.handle_request(&entry, &mut context);
    let search = routed_request("/search", Some("q=a"), vec![]);
    let step = router.handle_request(&search, &mut context);
    assert_eq!(
        step,
        Step::FetchExternal {
            rule: RequestClassification::StickyFallback,
            url: "https://example.com/search?q=a".to_string(),
        }
    );
    assert_eq!(context.current(), Some("https://example.com"));
}

#[test]
fn referer_target_wins_over_a_stale_sticky_context() {
    let router = Router::new("/proxy-entry");
    let mut context = sticky("https://stale.example.org");
    let request = routed_request(
        "/images/logo.png",
        None,
        vec![("Referer", "sandra-app://localhost/proxy-entry?target=https%3A%2F%2Fexample.com")],
    );
    let step = router.handle_request(&request, &mut context);
    assert_eq!(
        step,
        Step::FetchExternal {
            rule: RequestClassification::RefererInheritedExternal,
            url: "https://example.com/images/logo.png".to_string(),
        }
    );
    assert_eq!(context.current(), Some("https://stale.example.org"));
    assert_eq!(
        router.classify(&request, &context, true),
        RequestClassification::RefererInheritedExternal
    );
}

#[test]
fn static_path_is_served_locally_despite_sticky_context_and_active_profile() {
    let router = Router::standard();
    let mut context = sticky("https://example.com");
    let request = routed_request("/gdoc/assets/app.js", None, vec![]);
    assert_eq!(router.classify(&request, &context, true), RequestClassification::LocalStatic);
    assert_eq!(router.classify(&request, &context, false), RequestClassification::LocalStatic);
    let step = router.handle_request(&request, &mut context);
    assert_eq!(
        step,
        Step::ReadLocal {
            rule: RequestClassification::LocalStatic,
            relative: "gdoc/dist/assets/app.js".to_string(),
        }
    );
}

#[test]
fn static_path_is_served_locally_when_the_referer_fetch_fails() {
    let router = Router::standard();
    let context = sticky("https://stale.example.org");
    let request = routed_request(
        "/images/logo.png",
        None,
        vec![("referer", "sandra-app://localhost/external-proxy?target=https%3A%2F%2Fexample.com")],
    );
    let step = router.after_exchange(
        &request,
        &context,
        RequestClassification::RefererInheritedExternal,
        UpstreamOutcome::Failed("timed out".to_string()),
    );
    assert_eq!(
        step,
        Step::ReadLocal {
            rule: RequestClassification::LocalStatic,
            relative: "images/dist/logo.png".to_string(),
        }
    );
}

#[test]
fn standard_router_uses_the_default_prefix() {
    let router = Router::standard();
    assert_eq!(router.entry_prefix, DEFAULT_ENTRY_PREFIX);
    assert_eq!(DEFAULT_ENTRY_PREFIX, "/external-proxy");
    let mut context = SessionContext::new();
    let request =
        routed_request("/external-proxy", Some("target=https%3A%2F%2Fgoogle.com%2Fmaps"), vec![]);
    let step = router.handle_request(&request, &mut context);
    assert_eq!(
        step,
        Step::FetchExternal {
            rule: RequestClassification::ExternalProxyEntry,
            url: "https://google.com/maps".to_string(),
        }
    );
    assert_eq!(context.current(), Some("https://google.com/maps"));
}

#[test]
fn entry_without_target_is_not_an_entry() {
    let router = Router::standard();
    let mut context = SessionContext::new();
    let request = routed_request("/external-proxy", Some("url=https%3A%2F%2Fexample.com"), vec![]);
    let step = router.handle_request(&request, &mut context);
    assert_eq!(step, Step::LookupActiveProfile);
    assert_eq!(context.current(), None);
    let bare = routed_request("/external-proxy", None, vec![]);
    assert_eq!(router.handle_request(&bare, &mut context), Step::LookupActiveProfile);
}

#[test]
fn entry_target_that_does_not_decode_is_taken_raw() {
    let router = Router::standard();
    let mut context = SessionContext::new();
    let request = routed_request("/external-proxy", Some("target=https://a.example/%FF"), vec![]);
    let step = router.handle_request(&request, &mut context);
    assert_eq!(
        step,
        Step::FetchExternal {
            rule: RequestClassification::ExternalProxyEntry,
            url: "https://a.example/%FF".to_string(),
        }
    );
}

#[test]
fn new_entry_overwrites_the_sticky_context() {
    let router = Router::standard();
    let mut context = sticky("https://first.example");
    let request =
        routed_request("/external-proxy", Some("target=https%3A%2F%2Fsecond.example"), vec![]);
    router.handle_request(&request, &mut context);
    assert_eq!(context.current(), Some("https://second.example"));
}

#[test]
fn dynamic_path_without_context_asks_for_the_active_profile() {
    let router = Router::standard();
    let mut context = SessionContext::new();
    let request = routed_request("/api/v1/users", Some("page=2"), vec![]);
    assert_eq!(router.handle_request(&request, &mut context), Step::LookupActiveProfile);
    assert_eq!(router.classify(&request, &context, true), RequestClassification::RemoteTunnel);
    assert_eq!(router.classify(&request, &context, false), RequestClassification::LocalFallback);
}

#[test]
fn sticky_context_that_is_no_address_is_passed_over() {
    let router = Router::standard();
    let mut context = sticky("not an address");
    let request = routed_request("/api/v1/users", None, vec![]);
    assert_eq!(router.handle_request(&request, &mut context), Step::LookupActiveProfile);
}

#[test]
fn active_profile_is_reached_through_the_tunnel() {
    let router = Router::standard();
    let context = SessionContext::new();
    let mut request = routed_request(
        "/api/v1/users",
        Some("page=2"),
        vec![("Content-Type", "application/json"), ("X-Local", "1"), ("Authorization", "Bearer t")],
    );
    request.method = "POST".to_string();
    request.body = b"{}".to_vec();
    let active = profile();
    let step = router.after_lookup(&request, &context, Some(&active));
    match step {
        Step::ForwardTunnel { request: out } => {
            assert_eq!(out.url, "https://10.0.0.8:9443/api/v1/users");
            assert_eq!(out.method, "POST");
            assert_eq!(
                out.headers,
                vec![
                    Header {
                        name: "Content-Type".to_string(),
                        value: "application/json".to_string()
                    },
                    Header { name: "Authorization".to_string(), value: "Bearer t".to_string() },
                ]
            );
            assert_eq!(out.body, Some(b"{}".to_vec()));
        }
        other => panic!("unexpected step {:?}", other),
    }
}

#[test]
fn without_active_profile_the_local_bundle_is_the_last_resort() {
    let router = Router::standard();
    let context = SessionContext::new();
    let request = routed_request("/gdoc/settings", None, vec![]);
    let step = router.after_lookup(&request, &context, None);
    assert_eq!(
        step,
        Step::ReadLocal {
            rule: RequestClassification::LocalFallback,
            relative: "gdoc/dist/settings".to_string(),
        }
    );
}

#[test]
fn failed_entry_fetch_answers_500() {
    let facts = facts_of(Some("https://example.com"), None, false, None, "external-proxy");
    let step = next_after_exchange(
        &facts,
        RequestClassification::ExternalProxyEntry,
        UpstreamOutcome::Failed("dns error".to_string()),
    );
    match step {
        Step::Respond { rule, response } => {
            assert_eq!(rule, RequestClassification::ExternalProxyEntry);
            assert_eq!(response.status, 500);
            assert_eq!(response.body, b"External Proxy Error: dns error".to_vec());
            assert_eq!(
                response.headers,
                vec![
                    Header { name: "content-type".to_string(), value: "text/plain".to_string() },
                    Header {
                        name: "Access-Control-Allow-Origin".to_string(),
                        value: "*".to_string()
                    },
                ]
            );
        }
        other => panic!("unexpected step {:?}", other),
    }
}

#[test]
fn failed_tunnel_answers_502_and_does_not_fall_through() {
    let facts = facts_of(None, None, false, None, "api/dist/users");
    let step = next_after_exchange(
        &facts,
        RequestClassification::RemoteTunnel,
        UpstreamOutcome::Failed("connection refused".to_string()),
    );
    match step {
        Step::Respond { rule, response } => {
            assert_eq!(rule, RequestClassification::RemoteTunnel);
            assert_eq!(response.status, 502);
            assert_eq!(response.body, b"Bad Gateway: connection refused".to_vec());
        }
        other => panic!("unexpected step {:?}", other),
    }
}

#[test]
fn failed_sticky_fetch_falls_through_to_the_tunnel() {
    let facts = facts_of(None, None, false, Some("https://example.com/api"), "api");
    let step = next_after_exchange(
        &facts,
        RequestClassification::StickyFallback,
        UpstreamOutcome::Failed("timed out".to_string()),
    );
    assert_eq!(step, Step::LookupActiveProfile);
}

#[test]
fn failed_referer_fetch_falls_through_to_the_sticky_context() {
    let facts = facts_of(
        None,
        Some("https://example.com/search"),
        false,
        Some("https://other.example/search"),
        "search",
    );
    let step = next_after_exchange(
        &facts,
        RequestClassification::RefererInheritedExternal,
        UpstreamOutcome::Failed("timed out".to_string()),
    );
    assert_eq!(
        step,
        Step::FetchExternal {
            rule: RequestClassification::StickyFallback,
            url: "https://other.example/search".to_string(),
        }
    );
}

#[test]
fn external_answer_is_relayed_with_rewritten_headers() {
    let facts = facts_of(None, None, false, Some("https://example.com/x"), "x");
    let step = next_after_exchange(
        &facts,
        RequestClassification::StickyFallback,
        UpstreamOutcome::Answered(upstream_ok()),
    );
    match step {
        Step::Respond { rule, response } => {
            assert_eq!(rule, RequestClassification::StickyFallback);
            assert_eq!(response.status, 200);
            assert_eq!(response.body, b"<html></html>".to_vec());
            assert_eq!(response.headers.len(), 8);
            assert_eq!(response.headers[0].name, "content-type");
            assert_eq!(response.headers[1].name, "Access-Control-Allow-Origin");
            assert_eq!(response.headers[5].value, "ALLOWALL");
        }
        other => panic!("unexpected step {:?}", other),
    }
}

#[test]
fn tunnel_answer_is_relayed_with_the_narrower_header_set() {
    let facts = facts_of(None, None, false, None, "api");
    let step = next_after_exchange(
        &facts,
        RequestClassification::RemoteTunnel,
        UpstreamOutcome::Answered(upstream_ok()),
    );
    match step {
        Step::Respond { rule, response } => {
            assert_eq!(rule, RequestClassification::RemoteTunnel);
            assert_eq!(response.headers.len(), 5);
            assert_eq!(response.headers[2].name, "X-Frame-Options");
            assert_eq!(response.headers[2].value, "ALLOWALL");
        }
        other => panic!("unexpected step {:?}", other),
    }
}

#[test]
fn file_that_was_read_is_served() {
    let facts = facts_of(None, None, true, None, "gdoc/dist/index.html");
    let step = next_after_read(
        &facts,
        RequestClassification::LocalStatic,
        ReadOutcome::Content(b"<h1>hi</h1>".to_vec()),
    );
    match step {
        Step::Respond { rule, response } => {
            assert_eq!(rule, RequestClassification::LocalStatic);
            assert_eq!(response.status, 200);
            assert_eq!(response.body, b"<h1>hi</h1>".to_vec());
            assert_eq!(response.headers[0].value, "text/html");
        }
        other => panic!("unexpected step {:?}", other),
    }
}

#[test]
fn missing_file_is_retried_against_the_sticky_context() {
    let facts = facts_of(None, None, true, Some("https://example.com/logo.png"), "logo.png");
    let step = next_after_read(&facts, RequestClassification::LocalStatic, ReadOutcome::Missing);
    assert_eq!(
        step,
        Step::FetchExternal {
            rule: RequestClassification::LocalStatic,
            url: "https://example.com/logo.png".to_string(),
        }
    );
    let failed = next_after_exchange(
        &facts,
        RequestClassification::LocalStatic,
        UpstreamOutcome::Failed("timed out".to_string()),
    );
    match failed {
        Step::Respond { response, .. } => {
            assert_eq!(response.status, 404);
            assert_eq!(response.body, b"Local file not found: logo.png".to_vec());
        }
        other => panic!("unexpected step {:?}", other),
    }
}

#[test]
fn missing_file_without_sticky_context_answers_404_with_the_path() {
    let facts = facts_of(None, None, false, None, "gdoc");
    let step = next_after_read(&facts, RequestClassification::LocalFallback, ReadOutcome::Missing);
    match step {
        Step::Respond { rule, response } => {
            assert_eq!(rule, RequestClassification::LocalFallback);
            assert_eq!(response.status, 404);
            assert_eq!(response.body, b"Local file not found: gdoc".to_vec());
        }
        other => panic!("unexpected step {:?}", other),
    }
}

#[test]
fn unreadable_file_answers_404() {
    let facts = facts_of(None, None, true, Some("https://example.com/a.css"), "a/dist/a.css");
    let step = next_after_read(&facts, RequestClassification::LocalStatic, ReadOutcome::Unreadable);
    match step {
        Step::Respond { response, .. } => {
            assert_eq!(response.status, 404);
            assert_eq!(response.body, b"File not found locally".to_vec());
        }
        other => panic!("unexpected step {:?}", other),
    }
}

#[test]
fn classification_follows_the_chain() {
    let all = facts_of(Some("a"), Some("b"), true, Some("c"), "p");
    assert_eq!(classify_facts(&all, true), RequestClassification::ExternalProxyEntry);
    let no_entry = facts_of(None, Some("b"), true, Some("c"), "p");
    assert_eq!(classify_facts(&no_entry, true), RequestClassification::RefererInheritedExternal);
    let no_referer = facts_of(None, None, true, Some("c"), "p");
    assert_eq!(classify_facts(&no_referer, true), RequestClassification::LocalStatic);
    let dynamic = facts_of(None, None, false, Some("c"), "p");
    assert_eq!(classify_facts(&dynamic, true), RequestClassification::StickyFallback);
    let no_sticky = facts_of(None, None, false, None, "p");
    assert_eq!(classify_facts(&no_sticky, true), RequestClassification::RemoteTunnel);
    assert_eq!(classify_facts(&no_sticky, false), RequestClassification::LocalFallback);
}

#[test]
fn first_step_follows_the_chain() {
    let all = facts_of(Some("a"), Some("b"), true, Some("c"), "p");
    assert_eq!(
        first_step_of(&all),
        Step::FetchExternal { rule: RequestClassification::ExternalProxyEntry, url: "a".to_string() }
    );
    let no_entry = facts_of(None, Some("b"), true, Some("c"), "p");
    assert_eq!(
        first_step_of(&no_entry),
        Step::FetchExternal {
            rule: RequestClassification::RefererInheritedExternal,
            url: "b".to_string()
        }
    );
    let dynamic = facts_of(None, None, false, Some("c"), "p");
    assert_eq!(
        first_step_of(&dynamic),
        Step::FetchExternal { rule: RequestClassification::StickyFallback, url: "c".to_string() }
    );
    let nothing = facts_of(None, None, false, None, "p");
    assert_eq!(first_step_of(&nothing), Step::LookupActiveProfile);
    let active = profile();
    let request = routed_request("/p", None, vec![]);
    assert!(matches!(
        next_after_lookup(&nothing, &request, Some(&active)),
        Step::ForwardTunnel { .. }
    ));
}

#[test]
fn entry_target_is_the_rest_of_the_query() {
    assert_eq!(
        entry_raw_target_of("/proxy-entry", "/proxy-entry", Some("target=a%2Fb&x=1")),
        Some("a%2Fb&x=1".to_string())
    );
    assert_eq!(
        entry_raw_target_of("/proxy-entry", "/proxy-entry/more", Some("target=")),
        Some(String::new())
    );
    assert_eq!(entry_raw_target_of("/proxy-entry", "/proxy", Some("target=a")), None);
    assert_eq!(entry_raw_target_of("/proxy-entry", "/proxy-entry", Some("x=1&target=a")), None);
    assert_eq!(entry_raw_target_of("/proxy-entry", "/proxy-entry", None), None);
}

#[test]
fn referer_target_ends_at_the_next_parameter() {
    assert_eq!(
        referer_raw_target_of(
            "/proxy-entry",
            "sandra-app://localhost/proxy-entry?target=https%3A%2F%2Fexample.com&lang=es"
        ),
        Some("https%3A%2F%2Fexample.com".to_string())
    );
    assert_eq!(
        referer_raw_target_of("/proxy-entry", "sandra-app://localhost/proxy-entry?target=abc"),
        Some("abc".to_string())
    );
    assert_eq!(
        referer_raw_target_of("/proxy-entry", "sandra-app://localhost/gdoc/?target=abc"),
        None
    );
    assert_eq!(
        referer_raw_target_of("/proxy-entry", "sandra-app://localhost/proxy-entry?page=1"),
        None
    );
}

#[test]
fn referer_must_be_readable_text() {
    let readable = vec![Header { name: "REFERER".to_string(), value: "a b\tc~".to_string() }];
    assert_eq!(usable_referer_of(&readable), Some("a b\tc~"));
    let unreadable = vec![
        Header { name: "referer".to_string(), value: "caf\u{e9}".to_string() },
        Header { name: "referer".to_string(), value: "second".to_string() },
    ];
    assert_eq!(usable_referer_of(&unreadable), None);
    let none: Vec<Header> = vec![];
    assert_eq!(usable_referer_of(&none), None);
    assert!(is_header_text_value("plain text"));
    assert!(!is_header_text_value("line\nbreak"));
    assert!(!is_header_text_value("del\u{7f}"));
}

#[test]
fn relative_reference_drops_leading_slashes_and_keeps_the_query() {
    assert_eq!(relative_reference_of("/search", Some("q=a")), "search?q=a");
    assert_eq!(relative_reference_of("//images/logo.png", None), "images/logo.png");
    assert_eq!(relative_reference_of("/", None), "");
    assert_eq!(relative_reference_of("/", Some("")), "?");
}

#[test]
fn decoded_text_is_preferred_to_raw() {
    assert_eq!(decoded_or(Some("a b".to_string()), "a%20b"), "a b");
    assert_eq!(decoded_or(None, "a%FFb"), "a%FFb");
}

#[test]
fn repeated_resolution_of_the_same_request_is_the_same() {
    let router = Router::standard();
    let context = sticky("https://example.com/app/");
    let request = routed_request("/complete/search", Some("q=caf%C3%A9"), vec![]);
    let first = router.gather_facts(&request, &context);
    let second = router.gather_facts(&request, &context);
    assert_eq!(first, second);
    assert_eq!(
        first.sticky_url,
        Some("https://example.com/app/complete/search?q=caf%C3%A9".to_string())
    );
    assert_eq!(first.local_path, "complete/dist/search");
    assert!(!first.is_static);
}

#[test]
fn path_without_second_segment_walks_the_chain_to_a_404() {
    let router = Router::standard();
    let mut context = SessionContext::new();
    let request = routed_request("/gdoc", None, vec![]);
    assert_eq!(router.classify(&request, &context, false), RequestClassification::LocalFallback);
    assert_eq!(router.handle_request(&request, &mut context), Step::LookupActiveProfile);
    assert_eq!(
        router.after_lookup(&request, &context, None),
        Step::ReadLocal { rule: RequestClassification::LocalFallback, relative: "gdoc".to_string() }
    );
    let unreadable = router.after_read(
        &request,
        &context,
        RequestClassification::LocalFallback,
        ReadOutcome::Unreadable,
    );
    match unreadable {
        Step::Respond { rule, response } => {
            assert_eq!(rule, RequestClassification::LocalFallback);
            assert_eq!(response.status, 404);
            assert_eq!(response.body, b"File not found locally".to_vec());
        }
        other => panic!("unexpected step {:?}", other),
    }
    let missing = router.after_read(
        &request,
        &context,
        RequestClassification::LocalFallback,
        ReadOutcome::Missing,
    );
    match missing {
        Step::Respond { response, .. } => {
            assert_eq!(response.status, 404);
            assert_eq!(response.body, b"Local file not found: gdoc".to_vec());
        }
        other => panic!("unexpected step {:?}", other),
    }
}

#[test]
fn longest_chain_takes_five_steps() {
    let router = Router::standard();
    let mut context = sticky("https://example.com");
    let request = routed_request(
        "/api/search",
        Some("q=a"),
        vec![("referer", "sandra-app://localhost/external-proxy?target=https%3A%2F%2Fsite.example")],
    );
    let failed = || UpstreamOutcome::Failed("timed out".to_string());
    let first = router.handle_request(&request, &mut context);
    assert_eq!(
        first,
        Step::FetchExternal {
            rule: RequestClassification::RefererInheritedExternal,
            url: "https://site.example/api/search?q=a".to_string(),
        }
    );
    let second = router.after_exchange(
        &request,
        &context,
        RequestClassification::RefererInheritedExternal,
        failed(),
    );
    assert_eq!(
        second,
        Step::FetchExternal {
            rule: RequestClassification::StickyFallback,
            url: "https://example.com/api/search?q=a".to_string(),
        }
    );
    let third =
        router.after_exchange(&request, &context, RequestClassification::StickyFallback, failed());
    assert_eq!(third, Step::LookupActiveProfile);
    let fourth = router.after_lookup(&request, &context, None);
    assert_eq!(
        fourth,
        Step::ReadLocal {
            rule: RequestClassification::LocalFallback,
            relative: "api/dist/search".to_string(),
        }
    );
    let fifth = router.after_read(
        &request,
        &context,
        RequestClassification::LocalFallback,
        ReadOutcome::Missing,
    );
    assert_eq!(
        fifth,
        Step::FetchExternal {
            rule: RequestClassification::LocalFallback,
            url: "https://example.com/api/search?q=a".to_string(),
        }
    );
    let last =
        router.after_exchange(&request, &context, RequestClassification::LocalFallback, failed());
    match last {
        Step::Respond { rule, response } => {
            assert_eq!(rule, RequestClassification::LocalFallback);
            assert_eq!(response.status, 404);
            assert_eq!(response.body, b"Local file not found: api/dist/search".to_vec());
        }
        other => panic!("unexpected step {:?}", other),
    }
}

#[test]
fn target_is_introduced_by_its_parameter_name() {
    assert_eq!(TARGET_PARAMETER, "target=");
}

#[test]
fn static_path_that_climbs_is_answered_404_without_a_read() {
    let router = Router::standard();
    let mut context = SessionContext::new();
    let request = routed_request("/gdoc/../../../etc/passwd.json", None, vec![]);
    assert_eq!(router.classify(&request, &context, true), RequestClassification::LocalStatic);
    match router.handle_request(&request, &mut context) {
        Step::Respond { rule, response } => {
            assert_eq!(rule, RequestClassification::LocalStatic);
            assert_eq!(response.status, 404);
            assert_eq!(
                response.body,
                b"Local file not found: gdoc/dist/../../../etc/passwd.json".to_vec()
            );
        }
        other => panic!("unexpected step {:?}", other),
    }
}

#[test]
fn static_path_that_climbs_is_not_retried_against_the_sticky_context() {
    let router = Router::standard();
    let mut context = sticky("https://example.com");
    let request = routed_request("/gdoc/../secret/", None, vec![]);
    assert!(matches!(
        router.handle_request(&request, &mut context),
        Step::Respond { rule: RequestClassification::LocalStatic, .. }
    ));
}

#[test]
fn fallback_path_that_climbs_is_answered_404_without_a_read() {
    let router = Router::standard();
    let context = SessionContext::new();
    for path in ["/gdoc/../../../etc/passwd", "/..", "/gdoc/..\\..\\boot", "/C:/Windows/system"]
    {
        let request = routed_request(path, None, vec![]);
        match router.after_lookup(&request, &context, None) {
            Step::Respond { rule, response } => {
                assert_eq!(rule, RequestClassification::LocalFallback);
                assert_eq!(response.status, 404);
            }
            other => panic!("unexpected step {:?} for {:?}", other, path),
        }
    }
}

#[test]
fn no_outcome_leads_to_a_read_above_the_root() {
    let router = Router::standard();
    let context = sticky("not an address");
    let request = routed_request(
        "/gdoc/../../x.css",
        None,
        vec![("referer", "sandra-app://localhost/external-proxy?target=https%3A%2F%2Fsite.example")],
    );
    let after_referer = router.after_exchange(
        &request,
        &context,
        RequestClassification::RefererInheritedExternal,
        UpstreamOutcome::Failed("timed out".to_string()),
    );
    assert!(matches!(
        after_referer,
        Step::Respond { rule: RequestClassification::LocalStatic, .. }
    ));
    let dynamic = routed_request("/gdoc/../../x", None, vec![]);
    let mut other = sticky("not an address");
    assert_eq!(router.handle_request(&dynamic, &mut other), Step::LookupActiveProfile);
    assert!(matches!(
        router.after_lookup(&dynamic, &context, None),
        Step::Respond { rule: RequestClassification::LocalFallback, .. }
    ));
}

#[test]
fn local_step_reads_only_below_the_root() {
    assert_eq!(
        local_step_of(RequestClassification::LocalStatic, "gdoc/dist/a.js"),
        Step::ReadLocal {
            rule: RequestClassification::LocalStatic,
            relative: "gdoc/dist/a.js".to_string(),
        }
    );
    match local_step_of(RequestClassification::LocalFallback, "gdoc/dist/../../a.js") {
        Step::Respond { rule, response } => {
            assert_eq!(rule, RequestClassification::LocalFallback);
            assert_eq!(response.status, 404);
            assert_eq!(response.body, b"Local file not found: gdoc/dist/../../a.js".to_vec());
        }
        other => panic!("unexpected step {:?}", other),
    }
}

#[test]
fn report_of_a_read_above_the_root_is_answered_404() {
    let router = Router::standard();
    let context = sticky("https://example.com");
    let request = routed_request("/gdoc/../../../etc/passwd", None, vec![]);
    for outcome in [
        ReadOutcome::Content(b"root:x:0:0".to_vec()),
        ReadOutcome::Missing,
        ReadOutcome::Unreadable,
    ] {
        match router.after_read(&request, &context, RequestClassification::LocalFallback, outcome)
        {
            Step::Respond { rule, response } => {
                assert_eq!(rule, RequestClassification::LocalFallback);
                assert_eq!(response.status, 404);
                assert_eq!(
                    response.body,
                    b"Local file not found: gdoc/dist/../../../etc/passwd".to_vec()
                );
            }
            other => panic!("unexpected step {:?}", other),
        }
    }
}

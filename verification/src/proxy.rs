//! What the two proxy handlers do to the messages they relay: which upstream
//! response headers are dropped, which are put in their place, and what a
//! request through the remote tunnel carries.
//!
//! Both handlers talk to backends with self-signed certificates, so neither
//! validates the certificate of its upstream. That is a trade-off the
//! gateway makes on purpose; see [`ACCEPT_INVALID_CERTIFICATES`].

use vstd::prelude::*;
use crate::connection::{Connection, ConnectionView};
use crate::http::{
    copy_header, first_header, first_header_value, header, make_header, Header, HeaderView, Request,
    RequestView, Response, ResponseView,
};
use crate::text::{chars_of, eq_ignore_case, same_chars_ignore_case};

verus! {

/// User agent that the external site proxy presents.
pub const EXTERNAL_USER_AGENT: &'static str =
    "Mozilla/5.0 (Macintosh; Intel Mac OS X 10_15_7) AppleWebKit/537.36 (KHTML, like Gecko) Chrome/120.0.0.0 Safari/537.36";

/// Whether a relay accepts an upstream whose certificate does not validate.
/// It does, on every path, and there is no switch for it.
pub const ACCEPT_INVALID_CERTIFICATES: bool = true;

/// Seconds after which a fetch by the external site proxy is given up.
pub const EXTERNAL_TIMEOUT_SECS: u64 = 20;

/// Seconds after which a request through the remote tunnel is given up.
pub const TUNNEL_TIMEOUT_SECS: u64 = 15;

/// Content security policy put on every externally proxied response.
pub const EXTERNAL_CONTENT_SECURITY_POLICY: &'static str =
    "default-src * 'unsafe-inline' 'unsafe-eval' data: blob: sandra-app:;";

/// Content security policy put on every tunnelled response.
pub const TUNNEL_CONTENT_SECURITY_POLICY: &'static str =
    "default-src * 'unsafe-inline' 'unsafe-eval' data: blob:;";

/// The handler that relays a message.
#[derive(Clone, Copy, Debug, PartialEq, Eq, Structural)]
pub enum Relay {
    /// The external site proxy.
    External,
    /// The remote tunnel proxy.
    Tunnel,
}

/// What becomes of an upstream response header.
#[derive(Clone, Copy, Debug, PartialEq, Eq, Structural)]
pub enum Disposition {
    /// The header is copied into the relayed response.
    Forward,
    /// The header is left out.
    Drop,
}

/// A request as it goes out through the remote tunnel.
#[derive(Clone, Debug, PartialEq, Eq)]
pub struct TunnelRequest {
    pub url: String,
    pub method: String,
    pub headers: Vec<Header>,
    pub body: Option<Vec<u8>>,
}

/// Mathematical model of a [`TunnelRequest`].
pub struct TunnelRequestView {
    pub url: Seq<char>,
    pub method: Seq<char>,
    pub headers: Seq<HeaderView>,
    pub body: Option<Seq<u8>>,
}

impl DeepView for TunnelRequest {
    type V = TunnelRequestView;

    open spec fn deep_view(&self) -> TunnelRequestView {
        TunnelRequestView {
            url: self.url@,
            method: self.method@,
            headers: self.headers.deep_view(),
            body: match self.body {
                Some(b) => Some(b@),
                None => None,
            },
        }
    }
}

impl View for TunnelRequest {
    type V = TunnelRequestView;

    open spec fn view(&self) -> TunnelRequestView {
        self.deep_view()
    }
}

/// The relay `relay` drops upstream response headers called `name`.
///
/// Both relays drop the headers that restrict framing and the upstream's
/// CORS origin; the external site proxy also drops the upstream's CORS
/// credentials header, for which it injects its own.
pub open spec fn is_blocked(relay: Relay, name: Seq<char>) -> bool {
    ||| eq_ignore_case(name, "x-frame-options"@)
    ||| eq_ignore_case(name, "content-security-policy"@)
    ||| eq_ignore_case(name, "access-control-allow-origin"@)
    ||| (relay == Relay::External && eq_ignore_case(name, "access-control-allow-credentials"@))
}

/// What `relay` does with the upstream response header called `name`.
pub open spec fn disposition(relay: Relay, name: Seq<char>) -> Disposition {
    if is_blocked(relay, name) {
        Disposition::Drop
    } else {
        Disposition::Forward
    }
}

/// The headers that `relay` appends to every response it relays.
pub open spec fn injected_headers(relay: Relay) -> Seq<HeaderView> {
    match relay {
        Relay::External => seq![
            header("Access-Control-Allow-Origin"@, "*"@),
            header("Access-Control-Allow-Credentials"@, "true"@),
            header("Access-Control-Allow-Methods"@, "GET, POST, OPTIONS, PUT, DELETE"@),
            header(
                "Access-Control-Allow-Headers"@,
                "Content-Type, Authorization, X-Requested-With"@,
            ),
            header("X-Frame-Options"@, "ALLOWALL"@),
            header("Referrer-Policy"@, "unsafe-url"@),
            header("Content-Security-Policy"@, EXTERNAL_CONTENT_SECURITY_POLICY@),
        ],
        Relay::Tunnel => seq![
            header("Access-Control-Allow-Origin"@, "*"@),
            header("X-Frame-Options"@, "ALLOWALL"@),
            header("Referrer-Policy"@, "unsafe-url"@),
            header("Content-Security-Policy"@, TUNNEL_CONTENT_SECURITY_POLICY@),
        ],
    }
}

/// The upstream headers that `relay` copies, in their order.
pub open spec fn forwarded_upstream_headers(relay: Relay, upstream: Seq<HeaderView>) -> Seq<
    HeaderView,
> {
    upstream.filter(|h: HeaderView| !is_blocked(relay, h.name))
}

/// The headers of a relayed response: the upstream's without the blocked
/// ones, then the injected ones.
pub open spec fn relayed_headers(relay: Relay, upstream: Seq<HeaderView>) -> Seq<HeaderView> {
    forwarded_upstream_headers(relay, upstream) + injected_headers(relay)
}

/// The response that `relay` hands back for the upstream response
/// `upstream`: same status and body, headers rewritten.
pub open spec fn relayed_response(relay: Relay, upstream: ResponseView) -> ResponseView {
    ResponseView {
        status: upstream.status,
        headers: relayed_headers(relay, upstream.headers),
        body: upstream.body,
    }
}

/// The header `name` of an inbound request as the tunnel forwards it: under
/// the name `forwarded_name`, with the first value the request gives it.
pub open spec fn forwarded_request_header(
    inbound: Seq<HeaderView>,
    name: Seq<char>,
    forwarded_name: Seq<char>,
) -> Seq<HeaderView> {
    match first_header(inbound, name) {
        Some(value) => seq![header(forwarded_name, value)],
        None => seq![],
    }
}

/// The inbound headers that the tunnel forwards: the content type and the
/// authorisation, where the request has them, and nothing else.
pub open spec fn forwarded_request_headers(inbound: Seq<HeaderView>) -> Seq<HeaderView> {
    forwarded_request_header(inbound, "content-type"@, "Content-Type"@)
        + forwarded_request_header(inbound, "authorization"@, "Authorization"@)
}

/// The request that the tunnel sends to the profile `profile` for the
/// inbound request `request`: same method and path on the profile's host,
/// the allowlisted headers, and the body where there is one.
pub open spec fn tunnel_request(profile: ConnectionView, request: RequestView)
    -> TunnelRequestView {
    TunnelRequestView {
        url: profile.tunnel_url(request.path),
        method: request.method,
        headers: forwarded_request_headers(request.headers),
        body: if request.body.len() > 0 {
            Some(request.body)
        } else {
            None
        },
    }
}

/// A relayed response holds no blocked header among those it copied, holds
/// only headers that the upstream sent there, and ends with the injected
/// set.
pub proof fn lemma_relayed_headers(relay: Relay, upstream: Seq<HeaderView>)
    ensures
        forall|i: int|
            0 <= i < forwarded_upstream_headers(relay, upstream).len() ==> {
                let kept = #[trigger] forwarded_upstream_headers(relay, upstream)[i];
                &&& !is_blocked(relay, kept.name)
                &&& upstream.contains(kept)
            },
        forall|i: int|
            0 <= i < upstream.len() && !is_blocked(relay, upstream[i].name)
                ==> forwarded_upstream_headers(relay, upstream).contains(#[trigger] upstream[i]),
        relayed_headers(relay, upstream).len() == forwarded_upstream_headers(relay, upstream).len()
            + injected_headers(relay).len(),
        relayed_headers(relay, upstream).skip(
            forwarded_upstream_headers(relay, upstream).len() as int,
        ) == injected_headers(relay),
{
    let pred = |h: HeaderView| !is_blocked(relay, h.name);
    let kept = upstream.filter(pred);
    assert forall|i: int| 0 <= i < kept.len() implies {
        &&& !is_blocked(relay, #[trigger] kept[i].name)
        &&& upstream.contains(kept[i])
    } by {
        upstream.lemma_filter_pred(pred, i);
        upstream.lemma_filter_contains_rev(pred, kept[i]);
    }
    assert forall|i: int|
        0 <= i < upstream.len() && !is_blocked(relay, upstream[i].name) implies kept.contains(
        #[trigger] upstream[i],
    ) by {
        upstream.lemma_filter_contains(pred, i);
    }
}

/// Whatever two upstreams sent, the responses relayed for them end with the
/// same injected headers, and neither carries over a blocked header.
pub proof fn lemma_relay_is_uniform(relay: Relay, first: Seq<HeaderView>, second: Seq<HeaderView>)
    ensures
        relayed_headers(relay, first).skip(forwarded_upstream_headers(relay, first).len() as int)
            == relayed_headers(relay, second).skip(
            forwarded_upstream_headers(relay, second).len() as int,
        ),
        forall|i: int|
            0 <= i < forwarded_upstream_headers(relay, first).len() ==> !is_blocked(
                relay,
                #[trigger] relayed_headers(relay, first)[i].name,
            ),
        forall|i: int|
            0 <= i < forwarded_upstream_headers(relay, second).len() ==> !is_blocked(
                relay,
                #[trigger] relayed_headers(relay, second)[i].name,
            ),
{
    lemma_relayed_headers(relay, first);
    lemma_relayed_headers(relay, second);
}

/// The external site proxy drops the four headers that restrict framing and
/// cross-origin use, whatever the case of their names; the tunnel drops the
/// first three of them.
pub proof fn lemma_blocked_names(relay: Relay, name: Seq<char>)
    ensures
        eq_ignore_case(name, "x-frame-options"@) ==> is_blocked(relay, name),
        eq_ignore_case(name, "content-security-policy"@) ==> is_blocked(relay, name),
        eq_ignore_case(name, "access-control-allow-origin"@) ==> is_blocked(relay, name),
        eq_ignore_case(name, "access-control-allow-credentials"@) ==> is_blocked(
            Relay::External,
            name,
        ),
        is_blocked(Relay::Tunnel, name) ==> is_blocked(Relay::External, name),
{
}

/// No response relayed from the tunnel carries over the upstream's
/// `x-frame-options` or `content-security-policy`.
pub proof fn lemma_tunnel_drops_framing_headers(upstream: Seq<HeaderView>)
    ensures
        forall|i: int|
            0 <= i < forwarded_upstream_headers(Relay::Tunnel, upstream).len() ==> {
                let name = #[trigger] forwarded_upstream_headers(Relay::Tunnel, upstream)[i].name;
                &&& !eq_ignore_case(name, "x-frame-options"@)
                &&& !eq_ignore_case(name, "content-security-policy"@)
            },
{
    lemma_relayed_headers(Relay::Tunnel, upstream);
}

/// The tunnel forwards at most two inbound headers, under the names
/// `Content-Type` and `Authorization`, each with the value that the inbound
/// request gives it first.
pub proof fn lemma_tunnel_forwards_allowlist_only(inbound: Seq<HeaderView>)
    ensures
        forwarded_request_headers(inbound).len() <= 2,
        forall|i: int|
            0 <= i < forwarded_request_headers(inbound).len() ==> {
                let h = #[trigger] forwarded_request_headers(inbound)[i];
                ||| h.name == "Content-Type"@ && first_header(inbound, "content-type"@) == Some(
                    h.value,
                )
                ||| h.name == "Authorization"@ && first_header(inbound, "authorization"@) == Some(
                    h.value,
                )
            },
        first_header(inbound, "content-type"@) is None && first_header(inbound, "authorization"@)
            is None ==> forwarded_request_headers(inbound).len() == 0,
{
}

/// Tests `name` against one blocked header name.
fn is_named(name: &[char], blocked: &str) -> (r: bool)
    ensures
        r == eq_ignore_case(name@, blocked@),
{
    let b = chars_of(blocked);
    same_chars_ignore_case(name, b.as_slice())
}

/// Decides what `relay` does with the upstream response header `name`.
pub fn upstream_disposition(relay: Relay, name: &str) -> (r: Disposition)
    ensures
        r == disposition(relay, name@),
{
    let n = chars_of(name);
    let blocked = is_named(n.as_slice(), "x-frame-options") || is_named(
        n.as_slice(),
        "content-security-policy",
    ) || is_named(n.as_slice(), "access-control-allow-origin") || (relay == Relay::External
        && is_named(n.as_slice(), "access-control-allow-credentials"));
    if blocked {
        Disposition::Drop
    } else {
        Disposition::Forward
    }
}

/// The headers that `relay` appends to every response it relays.
pub fn headers_to_inject(relay: Relay) -> (r: Vec<Header>)
    ensures
        r.deep_view() == injected_headers(relay),
{
    let mut r: Vec<Header> = Vec::new();
    match relay {
        Relay::External => {
            r.push(make_header("Access-Control-Allow-Origin", "*"));
            r.push(make_header("Access-Control-Allow-Credentials", "true"));
            r.push(make_header("Access-Control-Allow-Methods", "GET, POST, OPTIONS, PUT, DELETE"));
            r.push(
                make_header(
                    "Access-Control-Allow-Headers",
                    "Content-Type, Authorization, X-Requested-With",
                ),
            );
            r.push(make_header("X-Frame-Options", "ALLOWALL"));
            r.push(make_header("Referrer-Policy", "unsafe-url"));
            r.push(make_header("Content-Security-Policy", EXTERNAL_CONTENT_SECURITY_POLICY));
        },
        Relay::Tunnel => {
            r.push(make_header("Access-Control-Allow-Origin", "*"));
            r.push(make_header("X-Frame-Options", "ALLOWALL"));
            r.push(make_header("Referrer-Policy", "unsafe-url"));
            r.push(make_header("Content-Security-Policy", TUNNEL_CONTENT_SECURITY_POLICY));
        },
    }
    r
}

/// Rewrites the headers of an upstream response for `relay`.
pub fn relay_headers(relay: Relay, upstream: &Vec<Header>) -> (r: Vec<Header>)
    ensures
        r.deep_view() == relayed_headers(relay, upstream.deep_view()),
{
    let ghost pred = |h: HeaderView| !is_blocked(relay, h.name);
    let mut out: Vec<Header> = Vec::new();
    let mut i: usize = 0;
    proof {
        reveal(Seq::filter);
    }
    while i < upstream.len()
        invariant
            i <= upstream.len(),
            pred == (|h: HeaderView| !is_blocked(relay, h.name)),
            out.deep_view() == upstream.deep_view().take(i as int).filter(pred),
        decreases upstream.len() - i,
    {
        let h = &upstream[i];
        proof {
            let all = upstream.deep_view();
            assert(all.take(i + 1) =~= all.take(i as int).push(h@));
            all.take(i as int).lemma_filter_push(h@, pred);
        }
        match upstream_disposition(relay, h.name.as_str()) {
            Disposition::Forward => {
                out.push(copy_header(h));
            },
            Disposition::Drop => {},
        }
        i += 1;
    }
    assert(upstream.deep_view().take(i as int) =~= upstream.deep_view());
    let mut extra = headers_to_inject(relay);
    out.append(&mut extra);
    out
}

/// The response that `relay` hands back for the upstream response
/// `upstream`.
pub fn relay_response(relay: Relay, upstream: Response) -> (r: Response)
    ensures
        r@ == relayed_response(relay, upstream@),
{
    let headers = relay_headers(relay, &upstream.headers);
    Response { status: upstream.status, headers, body: upstream.body }
}

/// Appends the inbound header `name`, where the request has it, to `out`
/// under the name `forwarded_name`.
fn forward_request_header(
    inbound: &Vec<Header>,
    name: &str,
    forwarded_name: &str,
    out: &mut Vec<Header>,
)
    ensures
        final(out).deep_view() == old(out).deep_view() + forwarded_request_header(
            inbound.deep_view(),
            name@,
            forwarded_name@,
        ),
{
    match first_header_value(inbound, name) {
        Some(value) => {
            out.push(make_header(forwarded_name, value));
        },
        None => {},
    }
}

/// Builds the request that the tunnel sends to `profile` for `request`.
pub fn plan_tunnel_request(profile: &Connection, request: &Request) -> (r: TunnelRequest)
    ensures
        r@ == tunnel_request(profile@, request@),
{
    let mut headers: Vec<Header> = Vec::new();
    forward_request_header(&request.headers, "content-type", "Content-Type", &mut headers);
    forward_request_header(&request.headers, "authorization", "Authorization", &mut headers);
    let body = if request.body.len() > 0 {
        Some(request.body.clone())
    } else {
        None
    };
    TunnelRequest {
        url: profile.tunnel_url(request.path.as_str()),
        method: request.method.clone(),
        headers,
        body,
    }
}

} // verus!

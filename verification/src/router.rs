//! The request router.
//!
//! Every request of a hosted application is put into one class by a fixed
//! chain of rules, the first that applies winning:
//!
//! 1. an explicit entry of the external proxy (the path begins with the
//!    designated prefix and the query is `target=<address>`);
//! 2. a request whose referer came through that entry;
//! 3. a static resource of the local bundle;
//! 4. a request resolved against the sticky external context;
//! 5. a request for the active connection profile, through the tunnel;
//! 6. whatever is left, tried against the local bundle.
//!
//! The router does no I/O. It says which step comes next ([`Step`]); the
//! caller performs it and reports how it went, and the router then says what
//! follows. Rules 2 and 4 fall through when their fetch fails; rules 1 and 5
//! answer with an error instead. Rules 3 and 6 ask for the read of a file
//! only where the file lies below the installed-applications root, and
//! answer 404 where it does not.

use vstd::prelude::*;
use vstd::slice::slice_subrange;
use vstd::string::StringExecFns;
use crate::connection::{Connection, ConnectionView};
use crate::context::SessionContext;
use crate::http::{
    create_error_response, error_response, first_header, first_header_value, Header, HeaderView,
    Request, RequestView, Response, ResponseView,
};
use crate::local::{
    file_response, is_below_root, is_static_resource, missing_file_response, missing_local_file,
    name_local_path, named_local_path, serve_local_file, static_resource, stays_below_root,
    unreadable_file_response, unreadable_local_file,
};
use crate::parsers::{join_url, percent_decode, percent_decoded, url_joined};
use crate::proxy::{
    plan_tunnel_request, relay_response, relayed_response, tunnel_request, Relay, TunnelRequest,
    TunnelRequestView,
};
use crate::text::{
    chars_of, contains, find, find_char_from, find_in, leading_run, lemma_find_char_absent,
    lemma_find_char_at, lemma_find_from_is_first, occurs_at, starts_with, trim_start,
};

verus! {

/// Path prefix that marks an explicit entry of the external proxy.
pub const DEFAULT_ENTRY_PREFIX: &'static str = "/external-proxy";

/// What introduces the target in the query of an explicit entry, and in a
/// referer that came through one.
pub const TARGET_PARAMETER: &'static str = "target=";

/// The class a request falls into.
#[derive(Clone, Copy, Debug, PartialEq, Eq, Structural)]
pub enum RequestClassification {
    ExternalProxyEntry,
    RefererInheritedExternal,
    LocalStatic,
    StickyFallback,
    RemoteTunnel,
    LocalFallback,
}

/// How an exchange with an upstream ended.
#[derive(Clone, Debug, PartialEq, Eq)]
pub enum UpstreamOutcome {
    /// The upstream answered.
    Answered(Response),
    /// The exchange failed; the text says how.
    Failed(String),
}

/// Mathematical model of an [`UpstreamOutcome`].
pub enum UpstreamOutcomeView {
    Answered(ResponseView),
    Failed(Seq<char>),
}

impl DeepView for UpstreamOutcome {
    type V = UpstreamOutcomeView;

    open spec fn deep_view(&self) -> UpstreamOutcomeView {
        match self {
            UpstreamOutcome::Answered(response) => UpstreamOutcomeView::Answered(response@),
            UpstreamOutcome::Failed(error) => UpstreamOutcomeView::Failed(error@),
        }
    }
}

impl View for UpstreamOutcome {
    type V = UpstreamOutcomeView;

    open spec fn view(&self) -> UpstreamOutcomeView {
        self.deep_view()
    }
}

/// How reading a local file ended.
#[derive(Clone, Debug, PartialEq, Eq)]
pub enum ReadOutcome {
    /// The file was read.
    Content(Vec<u8>),
    /// The file does not exist.
    Missing,
    /// The file exists but could not be read.
    Unreadable,
}

/// Mathematical model of a [`ReadOutcome`].
pub enum ReadOutcomeView {
    Content(Seq<u8>),
    Missing,
    Unreadable,
}

impl DeepView for ReadOutcome {
    type V = ReadOutcomeView;

    open spec fn deep_view(&self) -> ReadOutcomeView {
        match self {
            ReadOutcome::Content(bytes) => ReadOutcomeView::Content(bytes@),
            ReadOutcome::Missing => ReadOutcomeView::Missing,
            ReadOutcome::Unreadable => ReadOutcomeView::Unreadable,
        }
    }
}

impl View for ReadOutcome {
    type V = ReadOutcomeView;

    open spec fn view(&self) -> ReadOutcomeView {
        self.deep_view()
    }
}

/// What the router wants done next.
#[derive(Clone, Debug, PartialEq, Eq)]
pub enum Step {
    /// Fetch `url` through the external site proxy, then report with
    /// [`Router::after_exchange`] under `rule`.
    FetchExternal { rule: RequestClassification, url: String },
    /// Read the file `relative` below the installed-applications root, then
    /// report with [`Router::after_read`] under `rule`. The router hands out
    /// no `relative` that points above the root.
    ReadLocal { rule: RequestClassification, relative: String },
    /// Look up the active connection profile, then report with
    /// [`Router::after_lookup`].
    LookupActiveProfile,
    /// Send `request` through the remote tunnel, then report with
    /// [`Router::after_exchange`] under
    /// [`RequestClassification::RemoteTunnel`].
    ForwardTunnel { request: TunnelRequest },
    /// Hand `response` back; the request was served under `rule`.
    Respond { rule: RequestClassification, response: Response },
}

/// Mathematical model of a [`Step`].
pub enum StepView {
    FetchExternal { rule: RequestClassification, url: Seq<char> },
    ReadLocal { rule: RequestClassification, relative: Seq<char> },
    LookupActiveProfile,
    ForwardTunnel { request: TunnelRequestView },
    Respond { rule: RequestClassification, response: ResponseView },
}

impl DeepView for Step {
    type V = StepView;

    open spec fn deep_view(&self) -> StepView {
        match self {
            Step::FetchExternal { rule, url } => StepView::FetchExternal { rule: *rule, url: url@ },
            Step::ReadLocal { rule, relative } => StepView::ReadLocal {
                rule: *rule,
                relative: relative@,
            },
            Step::LookupActiveProfile => StepView::LookupActiveProfile,
            Step::ForwardTunnel { request } => StepView::ForwardTunnel { request: request@ },
            Step::Respond { rule, response } => StepView::Respond {
                rule: *rule,
                response: response@,
            },
        }
    }
}

impl View for Step {
    type V = StepView;

    open spec fn view(&self) -> StepView {
        self.deep_view()
    }
}

/// What the rules need to know of a request: everything that can be told
/// without I/O.
#[derive(Clone, Debug, PartialEq, Eq)]
pub struct RouteFacts {
    /// The decoded target, where the request is an explicit entry.
    pub entry_target: Option<String>,
    /// The address that the request resolves to against the target named by
    /// its referer, where there is one.
    pub referer_url: Option<String>,
    /// The path names a static resource.
    pub is_static: bool,
    /// The address that the request resolves to against the sticky context,
    /// where there is one.
    pub sticky_url: Option<String>,
    /// The file that the path names, relative to the installed-applications
    /// root. It is read only where it stays below the root.
    pub local_path: String,
}

/// Mathematical model of [`RouteFacts`].
pub struct RouteFactsView {
    pub entry_target: Option<Seq<char>>,
    pub referer_url: Option<Seq<char>>,
    pub is_static: bool,
    pub sticky_url: Option<Seq<char>>,
    pub local_path: Seq<char>,
}

impl DeepView for RouteFacts {
    type V = RouteFactsView;

    open spec fn deep_view(&self) -> RouteFactsView {
        RouteFactsView {
            entry_target: self.entry_target.deep_view(),
            referer_url: self.referer_url.deep_view(),
            is_static: self.is_static,
            sticky_url: self.sticky_url.deep_view(),
            local_path: self.local_path@,
        }
    }
}

impl View for RouteFacts {
    type V = RouteFactsView;

    open spec fn view(&self) -> RouteFactsView {
        self.deep_view()
    }
}

/// The router, set up with the path prefix that marks an explicit entry of
/// the external proxy.
#[derive(Clone, Debug, PartialEq, Eq)]
pub struct Router {
    pub entry_prefix: String,
}

/// `decoded` where decoding succeeded, the raw text otherwise.
pub open spec fn decoded_or_raw(decoded: Option<Seq<char>>, raw: Seq<char>) -> Seq<char> {
    match decoded {
        Some(text) => text,
        None => raw,
    }
}

/// The query of a request, empty where it has none.
pub open spec fn query_text(query: Option<Seq<char>>) -> Seq<char> {
    match query {
        Some(q) => q,
        None => Seq::empty(),
    }
}

/// The still-encoded target of an explicit entry: the path begins with
/// `prefix` and the query with `target=`; the target is the rest of the
/// query.
pub open spec fn entry_raw_target(prefix: Seq<char>, path: Seq<char>, query: Option<Seq<char>>)
    -> Option<Seq<char>> {
    if prefix.is_prefix_of(path) && TARGET_PARAMETER@.is_prefix_of(query_text(query)) {
        Some(query_text(query).skip(TARGET_PARAMETER@.len() as int))
    } else {
        None
    }
}

/// A character that may stand in a header value that is read as text: a
/// printable ASCII character or a tab.
pub open spec fn is_visible_ascii(c: char) -> bool {
    (' ' <= c && c < '\x7f') || c == '\t'
}

/// A header value that can be read as text.
pub open spec fn is_header_text(value: Seq<char>) -> bool {
    forall|i: int| 0 <= i < value.len() ==> is_visible_ascii(#[trigger] value[i])
}

/// The referer of a request, where it has one that can be read as text.
pub open spec fn usable_referer(headers: Seq<HeaderView>) -> Option<Seq<char>> {
    match first_header(headers, "referer"@) {
        Some(value) => if is_header_text(value) {
            Some(value)
        } else {
            None
        },
        None => None,
    }
}

/// The still-encoded target that `referer` names: `referer` mentions
/// `prefix`, and the target is what follows its first `target=`, up to the
/// next `&`.
pub open spec fn referer_raw_target(prefix: Seq<char>, referer: Seq<char>) -> Option<Seq<char>> {
    if contains(referer, prefix) {
        match find(referer, TARGET_PARAMETER@) {
            Some(i) => {
                let rest = referer.skip(i + TARGET_PARAMETER@.len());
                match find(rest, seq!['&']) {
                    Some(end) => Some(rest.take(end)),
                    None => Some(rest),
                }
            },
            None => None,
        }
    } else {
        None
    }
}

/// The parameters that follow a target in a referer: none, or `&` and the
/// text `more`.
pub open spec fn following_parameters(more: Option<Seq<char>>) -> Seq<char> {
    match more {
        Some(m) => seq!['&'] + m,
        None => Seq::empty(),
    }
}

/// What a request asks for, as a reference relative to a base address: its
/// path without the leading slashes, and its query where it has one.
pub open spec fn relative_reference(path: Seq<char>, query: Option<Seq<char>>) -> Seq<char> {
    match query {
        Some(q) => trim_start(path, '/') + "?"@ + q,
        None => trim_start(path, '/'),
    }
}

/// The facts of the request `request` for a router with the entry prefix
/// `prefix`, while the sticky context holds `sticky`.
pub open spec fn route_facts(prefix: Seq<char>, request: RequestView, sticky: Option<Seq<char>>)
    -> RouteFactsView {
    let reference = relative_reference(request.path, request.query);
    RouteFactsView {
        entry_target: match entry_raw_target(prefix, request.path, request.query) {
            Some(raw) => Some(decoded_or_raw(percent_decoded(raw), raw)),
            None => None,
        },
        referer_url: match usable_referer(request.headers) {
            Some(referer) => match referer_raw_target(prefix, referer) {
                Some(raw) => url_joined(decoded_or_raw(percent_decoded(raw), raw), reference),
                None => None,
            },
            None => None,
        },
        is_static: static_resource(request.path),
        sticky_url: match sticky {
            Some(base) => url_joined(base, reference),
            None => None,
        },
        local_path: named_local_path(request.path),
    }
}

/// What the sticky context holds once a request with the facts `facts` has
/// been taken in: the target of an explicit entry, or what it held before.
pub open spec fn context_after(facts: RouteFactsView, sticky: Option<Seq<char>>) -> Option<
    Seq<char>,
> {
    match facts.entry_target {
        Some(target) => Some(target),
        None => sticky,
    }
}

/// The class of a request when every fetch succeeds: the first rule of the
/// chain that applies.
pub open spec fn classification(facts: RouteFactsView, profile_active: bool)
    -> RequestClassification {
    if facts.entry_target is Some {
        RequestClassification::ExternalProxyEntry
    } else if facts.referer_url is Some {
        RequestClassification::RefererInheritedExternal
    } else if facts.is_static {
        RequestClassification::LocalStatic
    } else if facts.sticky_url is Some {
        RequestClassification::StickyFallback
    } else if profile_active {
        RequestClassification::RemoteTunnel
    } else {
        RequestClassification::LocalFallback
    }
}

/// The relay that serves requests of the class `rule`.
pub open spec fn relay_of(rule: RequestClassification) -> Relay {
    if rule == RequestClassification::RemoteTunnel {
        Relay::Tunnel
    } else {
        Relay::External
    }
}

/// What the local bundle server does for the file `relative` under
/// `rule`: it has the file read where the file lies below the root, and
/// answers 404 without a read where it does not.
pub open spec fn local_step(rule: RequestClassification, relative: Seq<char>) -> StepView {
    if stays_below_root(relative) {
        StepView::ReadLocal { rule, relative }
    } else {
        StepView::Respond { rule, response: missing_file_response(relative) }
    }
}

/// The chain from rule 4 on: resolve against the sticky context, or ask for
/// the active profile.
pub open spec fn step_from_sticky(facts: RouteFactsView) -> StepView {
    match facts.sticky_url {
        Some(url) => StepView::FetchExternal { rule: RequestClassification::StickyFallback, url },
        None => StepView::LookupActiveProfile,
    }
}

/// The chain from rule 3 on: a static resource goes to the local bundle
/// server; anything else goes on to rule 4.
pub open spec fn step_from_static(facts: RouteFactsView) -> StepView {
    if facts.is_static {
        local_step(RequestClassification::LocalStatic, facts.local_path)
    } else {
        step_from_sticky(facts)
    }
}

/// The first step for a request.
pub open spec fn first_step(facts: RouteFactsView) -> StepView {
    match facts.entry_target {
        Some(url) => StepView::FetchExternal {
            rule: RequestClassification::ExternalProxyEntry,
            url,
        },
        None => match facts.referer_url {
            Some(url) => StepView::FetchExternal {
                rule: RequestClassification::RefererInheritedExternal,
                url,
            },
            None => step_from_static(facts),
        },
    }
}

/// The step after the lookup of the active profile: through the tunnel to
/// the profile, or, without one, the local bundle as the last resort.
pub open spec fn step_after_lookup(
    facts: RouteFactsView,
    request: RequestView,
    active: Option<ConnectionView>,
) -> StepView {
    match active {
        Some(profile) => StepView::ForwardTunnel { request: tunnel_request(profile, request) },
        None => local_step(RequestClassification::LocalFallback, facts.local_path),
    }
}

/// The step after an exchange with an upstream under `rule`.
///
/// An answer is relayed. A failure ends the request with status 500 for an
/// explicit entry and 502 for the tunnel; it lets a referer-inherited
/// request fall through to rule 3 and a sticky one to rule 5; and it ends a
/// retry for a missing local file with status 404.
pub open spec fn step_after_exchange(
    facts: RouteFactsView,
    rule: RequestClassification,
    outcome: UpstreamOutcomeView,
) -> StepView {
    match outcome {
        UpstreamOutcomeView::Answered(upstream) => StepView::Respond {
            rule,
            response: relayed_response(relay_of(rule), upstream),
        },
        UpstreamOutcomeView::Failed(error) => match rule {
            RequestClassification::ExternalProxyEntry => StepView::Respond {
                rule,
                response: error_response(500, "External Proxy Error: "@ + error),
            },
            RequestClassification::RefererInheritedExternal => step_from_static(facts),
            RequestClassification::StickyFallback => StepView::LookupActiveProfile,
            RequestClassification::RemoteTunnel => StepView::Respond {
                rule,
                response: error_response(502, "Bad Gateway: "@ + error),
            },
            RequestClassification::LocalStatic | RequestClassification::LocalFallback => {
                StepView::Respond { rule, response: missing_file_response(facts.local_path) }
            },
        },
    }
}

/// The step after reading a local file under `rule`.
///
/// A file that was read is served. A missing file is retried against the
/// sticky context where that resolves, and ends with status 404 otherwise.
/// Whatever is reported for a file above the root ends with status 404: the
/// router asked for no such read.
pub open spec fn step_after_read(
    facts: RouteFactsView,
    rule: RequestClassification,
    outcome: ReadOutcomeView,
) -> StepView {
    if !stays_below_root(facts.local_path) {
        StepView::Respond { rule, response: missing_file_response(facts.local_path) }
    } else {
        match outcome {
            ReadOutcomeView::Content(bytes) => StepView::Respond {
                rule,
                response: file_response(facts.local_path, bytes),
            },
            ReadOutcomeView::Missing => match facts.sticky_url {
                Some(url) => StepView::FetchExternal { rule, url },
                None => StepView::Respond {
                    rule,
                    response: missing_file_response(facts.local_path),
                },
            },
            ReadOutcomeView::Unreadable => StepView::Respond {
                rule,
                response: unreadable_file_response(),
            },
        }
    }
}

/// A path that begins with the prefix, with the query `target=<target>`, is
/// an explicit entry for `target`, whatever follows the prefix in the path.
pub proof fn lemma_entry_names_its_target(prefix: Seq<char>, rest: Seq<char>, target: Seq<char>)
    ensures
        entry_raw_target(prefix, prefix + rest, Some(TARGET_PARAMETER@ + target)) == Some(target),
{
}

/// A referer that mentions the prefix and reads `<head>target=<target>`, or
/// `<head>target=<target>&<more>`, names `target`, provided that `target=`
/// does not occur before the end of `head` and that `target` holds no `&`.
pub proof fn lemma_referer_names_its_target(
    prefix: Seq<char>,
    head: Seq<char>,
    target: Seq<char>,
    more: Option<Seq<char>>,
)
    requires
        forall|j: int| 0 <= j < head.len() ==> !occurs_at(
            head + TARGET_PARAMETER@ + target + following_parameters(more),
            TARGET_PARAMETER@,
            j,
        ),
        forall|j: int| 0 <= j < target.len() ==> target[j] != '&',
        contains(head + TARGET_PARAMETER@ + target + following_parameters(more), prefix),
    ensures
        referer_raw_target(prefix, head + TARGET_PARAMETER@ + target + following_parameters(more))
            == Some(target),
{
    let marker = TARGET_PARAMETER@;
    let referer = head + marker + target + following_parameters(more);
    let at = head.len() as int;
    assert(occurs_at(referer, marker, at)) by {
        assert(referer.subrange(at, at + marker.len()) =~= marker);
    }
    lemma_find_from_is_first(referer, marker, 0);
    let rest = referer.skip(at + marker.len());
    match more {
        Some(_) => {
            assert(forall|j: int| 0 <= j < target.len() ==> rest[j] != '&');
            lemma_find_char_at(rest, '&', 0, target.len() as int);
        },
        None => {
            lemma_find_char_absent(rest, '&', 0);
        },
    }
}

/// The step is one that the router hands out: a local read is made for one
/// of the two local rules only, and of a file below the root only; a fetch
/// by the external site proxy is never made for the tunnel.
pub open spec fn is_router_step(step: StepView) -> bool {
    match step {
        StepView::FetchExternal { rule, .. } => rule != RequestClassification::RemoteTunnel,
        StepView::ReadLocal { rule, relative } => {
            &&& rule == RequestClassification::LocalStatic || rule
                == RequestClassification::LocalFallback
            &&& stays_below_root(relative)
        },
        _ => true,
    }
}

/// The step asks for no read of a file that points above the root.
pub open spec fn reads_below_root(step: StepView) -> bool {
    step matches StepView::ReadLocal { relative, .. } ==> stays_below_root(relative)
}

/// Whatever the facts of a request, whatever rule a report is made under
/// and whatever the outcome reported, no step that the router hands out
/// asks for the read of a file that points above the installed-applications
/// root. A request whose path points there is answered with 404.
pub proof fn lemma_no_read_above_root(
    facts: RouteFactsView,
    request: RequestView,
    rule: RequestClassification,
    exchange: UpstreamOutcomeView,
    read: ReadOutcomeView,
    active: Option<ConnectionView>,
)
    ensures
        reads_below_root(first_step(facts)),
        reads_below_root(step_after_exchange(facts, rule, exchange)),
        reads_below_root(step_after_read(facts, rule, read)),
        reads_below_root(step_after_lookup(facts, request, active)),
        !stays_below_root(facts.local_path) ==> local_step(rule, facts.local_path)
            == (StepView::Respond { rule, response: missing_file_response(facts.local_path) }),
        !stays_below_root(facts.local_path) ==> step_after_read(facts, rule, read)
            == (StepView::Respond { rule, response: missing_file_response(facts.local_path) }),
{
}

/// How many more steps a request can take at most once it stands at `step`.
pub open spec fn steps_left(step: StepView) -> nat {
    match step {
        StepView::Respond { .. } => 0,
        StepView::ForwardTunnel { .. } => 1,
        StepView::ReadLocal { .. } => 2,
        StepView::LookupActiveProfile => 3,
        StepView::FetchExternal { rule, .. } => match rule {
            RequestClassification::RefererInheritedExternal => 5,
            RequestClassification::StickyFallback => 4,
            _ => 1,
        },
    }
}

/// The step that follows `step` once the caller has carried it out: the
/// outcome that belongs to the kind of step is reported under the step's
/// own rule.
pub open spec fn step_after(
    facts: RouteFactsView,
    request: RequestView,
    step: StepView,
    exchange: UpstreamOutcomeView,
    read: ReadOutcomeView,
    active: Option<ConnectionView>,
) -> StepView {
    match step {
        StepView::FetchExternal { rule, .. } => step_after_exchange(facts, rule, exchange),
        StepView::ReadLocal { rule, .. } => step_after_read(facts, rule, read),
        StepView::LookupActiveProfile => step_after_lookup(facts, request, active),
        StepView::ForwardTunnel { .. } => step_after_exchange(
            facts,
            RequestClassification::RemoteTunnel,
            exchange,
        ),
        StepView::Respond { .. } => step,
    }
}

/// The first step is one that the router hands out, and a request takes at
/// most five steps before it is answered.
pub proof fn lemma_first_step_is_bounded(facts: RouteFactsView)
    ensures
        is_router_step(first_step(facts)),
        steps_left(first_step(facts)) <= 5,
{
}

/// Whatever the outcome of a step, the step that follows is again one that
/// the router hands out, and it is nearer to the answer: the chain of rules
/// is never walked twice.
pub proof fn lemma_chain_advances(
    facts: RouteFactsView,
    request: RequestView,
    step: StepView,
    exchange: UpstreamOutcomeView,
    read: ReadOutcomeView,
    active: Option<ConnectionView>,
)
    requires
        is_router_step(step),
        !(step is Respond),
    ensures
        is_router_step(step_after(facts, request, step, exchange, read, active)),
        steps_left(step_after(facts, request, step, exchange, read, active)) < steps_left(step),
{
}

/// A request for a static resource that is no explicit entry and inherits
/// nothing from its referer goes to the local bundle server, whatever the
/// sticky context holds and whether or not a profile is active.
pub proof fn lemma_static_resource_is_served_locally(
    prefix: Seq<char>,
    request: RequestView,
    sticky: Option<Seq<char>>,
    profile_active: bool,
)
    requires
        static_resource(request.path),
        route_facts(prefix, request, sticky).entry_target is None,
        route_facts(prefix, request, sticky).referer_url is None,
    ensures
        classification(route_facts(prefix, request, sticky), profile_active)
            == RequestClassification::LocalStatic,
        first_step(route_facts(prefix, request, sticky)) == local_step(
            RequestClassification::LocalStatic,
            named_local_path(request.path),
        ),
{
}

/// Where a request for a static resource does inherit an address from its
/// referer and the fetch of it fails, the request goes to the local bundle
/// server all the same, whatever the sticky context holds.
pub proof fn lemma_static_resource_after_failed_referer(
    prefix: Seq<char>,
    request: RequestView,
    sticky: Option<Seq<char>>,
    error: Seq<char>,
)
    requires
        static_resource(request.path),
    ensures
        step_after_exchange(
            route_facts(prefix, request, sticky),
            RequestClassification::RefererInheritedExternal,
            UpstreamOutcomeView::Failed(error),
        ) == local_step(RequestClassification::LocalStatic, named_local_path(request.path)),
{
}

/// Whether a request is an explicit entry or inherits from its referer
/// does not depend on the sticky context: the first two rules come before
/// it, so a stale context never overrides them.
pub proof fn lemma_entry_and_referer_precede_sticky(
    prefix: Seq<char>,
    request: RequestView,
    sticky: Option<Seq<char>>,
    other: Option<Seq<char>>,
)
    requires
        route_facts(prefix, request, sticky).entry_target is Some || route_facts(
            prefix,
            request,
            sticky,
        ).referer_url is Some,
    ensures
        first_step(route_facts(prefix, request, sticky)) == first_step(
            route_facts(prefix, request, other),
        ),
{
}

/// Picks `decoded` where decoding succeeded and `raw` otherwise.
pub fn decoded_or(decoded: Option<String>, raw: &str) -> (r: String)
    ensures
        r@ == decoded_or_raw(decoded.deep_view(), raw@),
{
    match decoded {
        Some(text) => text,
        None => raw.to_owned(),
    }
}

/// Reads the still-encoded target off an explicit entry.
pub fn entry_raw_target_of(prefix: &str, path: &str, query: Option<&str>) -> (r: Option<String>)
    ensures
        r.deep_view() == entry_raw_target(prefix@, path@, query.deep_view()),
{
    let q: &str = match query {
        Some(q) => q,
        None => "",
    };
    proof {
        reveal_strlit("");
    }
    let path_chars = chars_of(path);
    let prefix_chars = chars_of(prefix);
    if !starts_with(path_chars.as_slice(), prefix_chars.as_slice()) {
        return None;
    }
    let query_chars = chars_of(q);
    let marker = chars_of(TARGET_PARAMETER);
    if !starts_with(query_chars.as_slice(), marker.as_slice()) {
        return None;
    }
    let target = q.substring_char(marker.len(), query_chars.len());
    Some(target.to_owned())
}

/// Tests whether a header value can be read as text.
pub fn is_header_text_value(value: &str) -> (r: bool)
    ensures
        r == is_header_text(value@),
{
    let chars = chars_of(value);
    let mut i: usize = 0;
    while i < chars.len()
        invariant
            i <= chars.len(),
            chars@ == value@,
            forall|j: int| 0 <= j < i ==> is_visible_ascii(#[trigger] chars@[j]),
        decreases chars.len() - i,
    {
        let c = chars[i];
        let visible = (' ' <= c && c < '\x7f') || c == '\t';
        if !visible {
            return false;
        }
        i += 1;
    }
    true
}

/// Finds the referer of a request, where it has one that can be read as
/// text.
pub fn usable_referer_of<'a>(headers: &'a Vec<Header>) -> (r: Option<&'a str>)
    ensures
        r.deep_view() == usable_referer(headers.deep_view()),
{
    match first_header_value(headers, "referer") {
        Some(value) => {
            if is_header_text_value(value) {
                Some(value)
            } else {
                None
            }
        },
        None => None,
    }
}

/// Reads the still-encoded target that a referer names.
pub fn referer_raw_target_of(prefix: &str, referer: &str) -> (r: Option<String>)
    ensures
        r.deep_view() == referer_raw_target(prefix@, referer@),
{
    let chars = chars_of(referer);
    let n = chars.len();
    let prefix_chars = chars_of(prefix);
    if find_in(chars.as_slice(), prefix_chars.as_slice()).is_none() {
        return None;
    }
    let marker = chars_of(TARGET_PARAMETER);
    match find_in(chars.as_slice(), marker.as_slice()) {
        Some(i) => {
            let start: usize = i + marker.len();
            let rest = slice_subrange(chars.as_slice(), start, n);
            let target = match find_char_from(rest, '&', 0) {
                Some(end) => {
                    let t = referer.substring_char(start, start + end);
                    t
                },
                None => {
                    let t = referer.substring_char(start, n);
                    t
                },
            };
            Some(target.to_owned())
        },
        None => None,
    }
}

/// Builds the relative reference for a request.
pub fn relative_reference_of(path: &str, query: Option<&str>) -> (r: String)
    ensures
        r@ == relative_reference(path@, query.deep_view()),
{
    let chars = chars_of(path);
    let skipped = leading_run(chars.as_slice(), '/');
    let trimmed = path.substring_char(skipped, chars.len());
    match query {
        Some(q) => String::from_str(trimmed).concat("?").concat(q),
        None => String::from_str(trimmed),
    }
}

/// Classifies a request by its facts, as if every fetch succeeded.
pub fn classify_facts(facts: &RouteFacts, profile_active: bool) -> (r: RequestClassification)
    ensures
        r == classification(facts@, profile_active),
{
    if facts.entry_target.is_some() {
        RequestClassification::ExternalProxyEntry
    } else if facts.referer_url.is_some() {
        RequestClassification::RefererInheritedExternal
    } else if facts.is_static {
        RequestClassification::LocalStatic
    } else if facts.sticky_url.is_some() {
        RequestClassification::StickyFallback
    } else if profile_active {
        RequestClassification::RemoteTunnel
    } else {
        RequestClassification::LocalFallback
    }
}

/// What the local bundle server does for the file `relative` under `rule`.
pub fn local_step_of(rule: RequestClassification, relative: &str) -> (r: Step)
    ensures
        r@ == local_step(rule, relative@),
{
    if is_below_root(relative) {
        Step::ReadLocal { rule, relative: relative.to_owned() }
    } else {
        Step::Respond { rule, response: missing_local_file(relative) }
    }
}

/// The chain from rule 4 on.
fn next_from_sticky(facts: &RouteFacts) -> (r: Step)
    ensures
        r@ == step_from_sticky(facts@),
{
    match &facts.sticky_url {
        Some(url) => Step::FetchExternal {
            rule: RequestClassification::StickyFallback,
            url: url.clone(),
        },
        None => Step::LookupActiveProfile,
    }
}

/// The chain from rule 3 on.
fn next_from_static(facts: &RouteFacts) -> (r: Step)
    ensures
        r@ == step_from_static(facts@),
{
    if facts.is_static {
        local_step_of(RequestClassification::LocalStatic, facts.local_path.as_str())
    } else {
        next_from_sticky(facts)
    }
}

/// The first step for a request with the facts `facts`.
pub fn first_step_of(facts: &RouteFacts) -> (r: Step)
    ensures
        r@ == first_step(facts@),
{
    match &facts.entry_target {
        Some(url) => Step::FetchExternal {
            rule: RequestClassification::ExternalProxyEntry,
            url: url.clone(),
        },
        None => match &facts.referer_url {
            Some(url) => Step::FetchExternal {
                rule: RequestClassification::RefererInheritedExternal,
                url: url.clone(),
            },
            None => next_from_static(facts),
        },
    }
}

/// The step after the lookup of the active profile.
pub fn next_after_lookup(
    facts: &RouteFacts,
    request: &Request,
    active: Option<&Connection>,
) -> (r: Step)
    ensures
        r@ == step_after_lookup(facts@, request@, active.deep_view()),
{
    match active {
        Some(profile) => Step::ForwardTunnel { request: plan_tunnel_request(profile, request) },
        None => local_step_of(RequestClassification::LocalFallback, facts.local_path.as_str()),
    }
}

/// The step after an exchange with an upstream under `rule`.
pub fn next_after_exchange(
    facts: &RouteFacts,
    rule: RequestClassification,
    outcome: UpstreamOutcome,
) -> (r: Step)
    ensures
        r@ == step_after_exchange(facts@, rule, outcome@),
{
    match outcome {
        UpstreamOutcome::Answered(upstream) => {
            let relay = match rule {
                RequestClassification::RemoteTunnel => Relay::Tunnel,
                _ => Relay::External,
            };
            Step::Respond { rule, response: relay_response(relay, upstream) }
        },
        UpstreamOutcome::Failed(error) => match rule {
            RequestClassification::ExternalProxyEntry => {
                let message = String::from_str("External Proxy Error: ").concat(error.as_str());
                Step::Respond { rule, response: create_error_response(500, message.as_str()) }
            },
            RequestClassification::RefererInheritedExternal => next_from_static(facts),
            RequestClassification::StickyFallback => Step::LookupActiveProfile,
            RequestClassification::RemoteTunnel => {
                let message = String::from_str("Bad Gateway: ").concat(error.as_str());
                Step::Respond { rule, response: create_error_response(502, message.as_str()) }
            },
            RequestClassification::LocalStatic | RequestClassification::LocalFallback => {
                Step::Respond { rule, response: missing_local_file(facts.local_path.as_str()) }
            },
        },
    }
}

/// The step after reading a local file under `rule`.
pub fn next_after_read(
    facts: &RouteFacts,
    rule: RequestClassification,
    outcome: ReadOutcome,
) -> (r: Step)
    ensures
        r@ == step_after_read(facts@, rule, outcome@),
{
    if !is_below_root(facts.local_path.as_str()) {
        return Step::Respond { rule, response: missing_local_file(facts.local_path.as_str()) };
    }
    match outcome {
        ReadOutcome::Content(bytes) => Step::Respond {
            rule,
            response: serve_local_file(facts.local_path.as_str(), bytes),
        },
        ReadOutcome::Missing => match &facts.sticky_url {
            Some(url) => Step::FetchExternal { rule, url: url.clone() },
            None => Step::Respond { rule, response: missing_local_file(facts.local_path.as_str()) },
        },
        ReadOutcome::Unreadable => Step::Respond { rule, response: unreadable_local_file() },
    }
}

impl Router {
    /// A router whose explicit entries begin with `entry_prefix`.
    pub fn new(entry_prefix: &str) -> (r: Router)
        ensures
            r.entry_prefix@ == entry_prefix@,
    {
        Router { entry_prefix: entry_prefix.to_owned() }
    }

    /// A router with the usual entry prefix, [`DEFAULT_ENTRY_PREFIX`].
    pub fn standard() -> (r: Router)
        ensures
            r.entry_prefix@ == DEFAULT_ENTRY_PREFIX@,
    {
        Router::new(DEFAULT_ENTRY_PREFIX)
    }

    /// Gathers the facts of `request` while the sticky context holds
    /// `context`.
    pub fn gather_facts(&self, request: &Request, context: &SessionContext) -> (r: RouteFacts)
        ensures
            r@ == route_facts(self.entry_prefix@, request@, context@),
    {
        let prefix = self.entry_prefix.as_str();
        let path = request.path.as_str();
        let query: Option<&str> = match &request.query {
            Some(q) => Some(q.as_str()),
            None => None,
        };
        let reference = relative_reference_of(path, query);
        let entry_target = match entry_raw_target_of(prefix, path, query) {
            Some(raw) => Some(decoded_or(percent_decode(raw.as_str()), raw.as_str())),
            None => None,
        };
        let referer_url = match usable_referer_of(&request.headers) {
            Some(referer) => match referer_raw_target_of(prefix, referer) {
                Some(raw) => {
                    let base = decoded_or(percent_decode(raw.as_str()), raw.as_str());
                    join_url(base.as_str(), reference.as_str())
                },
                None => None,
            },
            None => None,
        };
        let sticky_url = match context.current() {
            Some(base) => join_url(base, reference.as_str()),
            None => None,
        };
        RouteFacts {
            entry_target,
            referer_url,
            is_static: is_static_resource(path),
            sticky_url,
            local_path: name_local_path(path),
        }
    }

    /// Classifies `request`, as if every fetch succeeded.
    pub fn classify(
        &self,
        request: &Request,
        context: &SessionContext,
        profile_active: bool,
    ) -> (r: RequestClassification)
        ensures
            r == classification(
                route_facts(self.entry_prefix@, request@, context@),
                profile_active,
            ),
    {
        let facts = self.gather_facts(request, context);
        classify_facts(&facts, profile_active)
    }

    /// Takes in a request: remembers the target of an explicit entry in the
    /// sticky context, and says what to do first.
    pub fn handle_request(&self, request: &Request, context: &mut SessionContext) -> (r: Step)
        ensures
            r@ == first_step(route_facts(self.entry_prefix@, request@, old(context)@)),
            final(context)@ == context_after(
                route_facts(self.entry_prefix@, request@, old(context)@),
                old(context)@,
            ),
    {
        let facts = self.gather_facts(request, context);
        match &facts.entry_target {
            Some(target) => {
                context.record(target.as_str());
            },
            None => {},
        }
        first_step_of(&facts)
    }

    /// Says what follows an exchange with an upstream under `rule`.
    pub fn after_exchange(
        &self,
        request: &Request,
        context: &SessionContext,
        rule: RequestClassification,
        outcome: UpstreamOutcome,
    ) -> (r: Step)
        ensures
            r@ == step_after_exchange(
                route_facts(self.entry_prefix@, request@, context@),
                rule,
                outcome@,
            ),
    {
        let facts = self.gather_facts(request, context);
        next_after_exchange(&facts, rule, outcome)
    }

    /// Says what follows the reading of a local file under `rule`.
    pub fn after_read(
        &self,
        request: &Request,
        context: &SessionContext,
        rule: RequestClassification,
        outcome: ReadOutcome,
    ) -> (r: Step)
        ensures
            r@ == step_after_read(
                route_facts(self.entry_prefix@, request@, context@),
                rule,
                outcome@,
            ),
    {
        let facts = self.gather_facts(request, context);
        next_after_read(&facts, rule, outcome)
    }

    /// Says what follows the lookup of the active profile.
    pub fn after_lookup(
        &self,
        request: &Request,
        context: &SessionContext,
        active: Option<&Connection>,
    ) -> (r: Step)
        ensures
            r@ == step_after_lookup(
                route_facts(self.entry_prefix@, request@, context@),
                request@,
                active.deep_view(),
            ),
    {
        let facts = self.gather_facts(request, context);
        next_after_lookup(&facts, request, active)
    }
}

} // verus!

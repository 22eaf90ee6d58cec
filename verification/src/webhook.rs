//! Webhook channel adapter: maps inbound HTTP requests into event envelopes
//! under exact-path routes, and builds outbound HTTP request shapes.

use vstd::prelude::*;
use vstd::string::StrSliceExecFns;
use vstd::string::StringExecFns;
use crate::error::ProviderError;
use crate::events::EventEnvelope;
use crate::events::Metadata;
use crate::events::bool_str;
use crate::events::bool_string;
use crate::events::header_md;
use crate::events::insert_header_entries;
use crate::events::md_insert;
use crate::events::md_lookup;
use crate::events::new_event;
use crate::events::opt_view;
use crate::events::set_idempotency_key;
use crate::json::Json;
use crate::json::JsonVal;
use crate::json::is_prefix_of;
use crate::json::jget;
use crate::json::str_eq;
use crate::secrets::SecretProvider;
use crate::secrets::SecretsStoreProvider;
use crate::secrets::is_missing_event;
use crate::secrets::is_put_event;
use crate::secrets::resolve_secret;
use crate::tenant::TenantCtx;

verus! {

/// Shared HTTP endpoint configuration for webhook-style providers.
#[derive(Debug, PartialEq, Eq)]
pub struct HttpEndpointConfig {
    /// Base path where the host exposes the webhook (e.g. `/webhook`).
    pub base_path: String,
    /// Individual routes served under the base path; paths are expected to
    /// be disjoint, and the first route with an equal path wins.
    pub routes: Vec<WebhookRoute>,
}

/// Per-route configuration for webhook providers.
#[derive(Debug, PartialEq, Eq)]
pub struct WebhookRoute {
    /// Route path relative to the base (e.g. `/stripe`).
    pub path: String,
    /// Optional reference to a secret holding a signing key — never the key
    /// itself.
    pub secret_ref: Option<String>,
    /// Topic prefix applied when emitting events (e.g. `webhook.stripe`).
    pub topic_prefix: String,
}

/// Minimal representation of an inbound HTTP request supplied by the host.
#[derive(Debug, PartialEq, Eq)]
pub struct InboundHttpRequest {
    pub method: String,
    pub path: String,
    pub headers: Metadata,
    pub body: Json,
    pub correlation_id: Option<String>,
    /// Host-provided flag: the request signature was already validated.
    pub signature_validated: bool,
}

/// Result of handling a webhook request: the domain envelope and the audit
/// envelopes of any secret resolution it performed.
#[derive(Debug)]
pub struct WebhookResult {
    pub event: EventEnvelope,
    pub secret_events: Vec<EventEnvelope>,
}

/// `s` with every leading repetition of `p` removed.
pub open spec fn strip_prefix_rep(s: Seq<char>, p: Seq<char>) -> Seq<char>
    decreases s.len(),
{
    if p.len() > 0 && is_prefix_of(p, s) {
        strip_prefix_rep(s.skip(p.len() as int), p)
    } else {
        s
    }
}

/// `s` with every trailing `/` removed.
pub open spec fn trim_trailing_slashes(s: Seq<char>) -> Seq<char>
    decreases s.len(),
{
    if s.len() > 0 && s.last() == '/' {
        trim_trailing_slashes(s.drop_last())
    } else {
        s
    }
}

/// The request path relative to the base path: leading repetitions of the
/// base (its trailing slashes ignored) are stripped, and an empty result is
/// normalized to `/`.
pub open spec fn strip_base_view(base: Seq<char>, path: Seq<char>) -> Seq<char> {
    let stripped = strip_prefix_rep(path, trim_trailing_slashes(base));
    if stripped.len() == 0 {
        "/"@
    } else {
        stripped
    }
}

/// The first route whose path equals `p` exactly.
pub open spec fn find_route(routes: Seq<WebhookRoute>, p: Seq<char>) -> Option<WebhookRoute>
    decreases routes.len(),
{
    if routes.len() == 0 {
        None
    } else if routes[0].path@ == p {
        Some(routes[0])
    } else {
        find_route(routes.skip(1), p)
    }
}

/// The event-type suffix: the string under `type` in the body when present
/// and a string, else `received`.
pub open spec fn event_type_view(body: JsonVal) -> Seq<char> {
    match jget(body, "type"@) {
        Some(t) => if t is Str {
            t->Str_0
        } else {
            "received"@
        },
        None => "received"@,
    }
}

/// The inbound idempotency header, looked up case-insensitively: the value
/// of the first header whose lowercased name is `idempotency-key`.
pub open spec fn idem_view(headers: Seq<(Seq<char>, Seq<char>)>) -> Option<Seq<char>>
    decreases headers.len(),
{
    if headers.len() == 0 {
        None
    } else if crate::sys::lower_of(headers[0].0) == "idempotency-key"@ {
        Some(headers[0].1)
    } else {
        idem_view(headers.skip(1))
    }
}

/// Looks the idempotency header up case-insensitively among the inbound
/// headers.
fn idempotency_header(headers: &Metadata) -> (r: Option<String>)
    ensures
        match r {
            Some(v) => idem_view(headers@) == Some(v@),
            None => idem_view(headers@) is None,
        },
{
    let n = headers.len();
    proof {
        assert(headers@.skip(0) =~= headers@);
    }
    let mut i: usize = 0;
    #[verifier::loop_isolation(false)]
    while i < n
        invariant
            0 <= i <= n,
            n == headers@.len(),
            idem_view(headers@) == idem_view(headers@.skip(i as int)),
        decreases n - i,
    {
        proof {
            assert(headers@.skip(i as int)[0] == headers@[i as int]);
            assert(headers@.skip(i as int).skip(1) =~= headers@.skip(i as int + 1));
        }
        let (k, v) = headers.entry_at(i);
        let lk = crate::sys::lowercase(k.as_str());
        if str_eq(lk.as_str(), "idempotency-key") {
            return Some(v.clone());
        }
        i += 1;
    }
    proof {
        assert(headers@.skip(n as int) =~= Seq::<(Seq<char>, Seq<char>)>::empty());
    }
    None
}

/// The transport metadata of an inbound request: HTTP method, original path,
/// correlation id when present, and one entry per header.
pub open spec fn request_md_model(
    method: Seq<char>,
    path: Seq<char>,
    correlation: Option<Seq<char>>,
    headers: Seq<(Seq<char>, Seq<char>)>,
) -> Seq<(Seq<char>, Seq<char>)> {
    let s0 = md_insert(md_insert(Seq::empty(), "http_method"@, method), "path"@, path);
    let s1 = match correlation {
        Some(c) => md_insert(s0, "correlation_id"@, c),
        None => s0,
    };
    header_md(s1, headers)
}

/// The full metadata of a handled webhook request: transport metadata, then
/// the signature-validity flag, the topic prefix, and the idempotency key
/// copied verbatim from the inbound header when present.
pub open spec fn webhook_md_model(request: InboundHttpRequest, route: WebhookRoute) -> Seq<
    (Seq<char>, Seq<char>),
> {
    let sig = request.signature_validated || route.secret_ref is None;
    let s1 = request_md_model(
        request.method@,
        request.path@,
        opt_view(request.correlation_id),
        request.headers@,
    );
    let s2 = md_insert(s1, "signature_valid"@, bool_str(sig));
    let s3 = md_insert(s2, "topic_prefix"@, route.topic_prefix@);
    match idem_view(request.headers@) {
        Some(v) => md_insert(s3, "idempotency_key"@, v),
        None => s3,
    }
}

/// The envelope a handled request maps to.
pub open spec fn webhook_event_ok(
    e: EventEnvelope,
    tenant: TenantCtx,
    request: InboundHttpRequest,
    route: WebhookRoute,
) -> bool {
    &&& e.topic@ == route.topic_prefix@ + "."@ + event_type_view(request.body@)
    &&& e.type_@ == "com.greentic.webhook.generic.v1"@
    &&& e.source@ == "webhook-gateway"@
    &&& e.tenant == tenant
    &&& e.subject matches Some(s) && s@ == request.path@
    &&& opt_view(e.correlation_id) == opt_view(request.correlation_id)
    &&& e.payload@ == request.body@
    &&& e.metadata@ == webhook_md_model(request, route)
}

/// The audit envelopes a route's secret resolution may produce: none without
/// a secret reference; with one, a single put or missing-detected envelope
/// according to the bytes the provider admits, and an error only when the
/// provider itself failed.
pub open spec fn webhook_secret_outcome<P: SecretProvider>(
    route: WebhookRoute,
    secrets: P,
    tenant: TenantCtx,
    r: Result<Vec<EventEnvelope>, ProviderError>,
) -> bool {
    match route.secret_ref {
        None => r matches Ok(v) && v@.len() == 0,
        Some(key) => match r {
            Ok(v) => {
                &&& v@.len() == 1
                &&& exists|b: Option<Vec<u8>>|
                    {
                        &&& #[trigger] secrets.admits(key@, Ok(b))
                        &&& (b is Some ==> is_put_event(
                            v@[0],
                            key@,
                            "tenant"@,
                            tenant,
                            "webhook-gateway"@,
                        ))
                        &&& (b is None ==> is_missing_event(
                            v@[0],
                            key@,
                            "tenant"@,
                            tenant,
                            "webhook-gateway"@,
                            "webhook signing secret"@,
                            "webhook-gateway"@,
                        ))
                    }
            },
            Err(e) => secrets.admits(key@, Err(e)),
        },
    }
}

/// What handling a request guarantees: an unmatched path is a `Config`
/// error; a matched route yields the mapped envelope together with the
/// route's secret-resolution audit envelopes, and fails only when the
/// secret provider itself failed.
pub open spec fn handle_request_post<P: SecretProvider>(
    config: HttpEndpointConfig,
    tenant: TenantCtx,
    request: InboundHttpRequest,
    secrets: P,
    r: Result<WebhookResult, ProviderError>,
) -> bool {
    let norm = strip_base_view(config.base_path@, request.path@);
    match find_route(config.routes@, norm) {
        None => r matches Err(e) && e matches ProviderError::Config(m) && m@ == "no route for path "@
            + request.path@,
        Some(route) => match r {
            Ok(res) => {
                &&& webhook_event_ok(res.event, tenant, request, route)
                &&& webhook_secret_outcome(route, secrets, tenant, Ok(res.secret_events))
            },
            Err(e) => webhook_secret_outcome(route, secrets, tenant, Err(e)),
        },
    }
}

/// Strips the base path from a request path, then normalizes an empty
/// remainder to `/`.
fn strip_base(base: &str, path: &str) -> (r: String)
    ensures
        r@ == strip_base_view(base@, path@),
{
    let mut base_end: usize = base.unicode_len();
    proof {
        assert(base@.subrange(0, base@.len() as int) =~= base@);
    }
    #[verifier::loop_isolation(false)]
    while base_end > 0 && base.get_char(base_end - 1) == '/'
        invariant
            0 <= base_end <= base@.len(),
            trim_trailing_slashes(base@) == trim_trailing_slashes(
                base@.subrange(0, base_end as int),
            ),
        decreases base_end,
    {
        proof {
            assert(base@.subrange(0, base_end as int).last() == base@[base_end as int - 1]);
            assert(base@.subrange(0, base_end as int).drop_last() =~= base@.subrange(
                0,
                base_end as int - 1,
            ));
        }
        base_end -= 1;
    }
    let ghost tb = base@.subrange(0, base_end as int);
    proof {
        if base_end > 0 {
            assert(tb.last() == base@[base_end as int - 1]);
        }
        assert(trim_trailing_slashes(base@) == tb);
    }
    let n = path.unicode_len();
    let mut start: usize = 0;
    proof {
        assert(path@.skip(0) =~= path@);
    }
    loop
        invariant
            0 <= start <= n,
            n == path@.len(),
            tb == trim_trailing_slashes(base@),
            base_end <= base@.len(),
            tb == base@.subrange(0, base_end as int),
            tb.len() == base_end,
            strip_prefix_rep(path@, tb) == strip_prefix_rep(path@.skip(start as int), tb),
        ensures
            0 <= start <= n,
            strip_prefix_rep(path@, tb) == path@.skip(start as int),
        decreases n - start,
    {
        if base_end == 0 || base_end > n - start {
            proof {
                let sp = path@.skip(start as int);
                if base_end > 0 {
                    assert(!is_prefix_of(tb, sp));
                }
                assert(strip_prefix_rep(sp, tb) == sp);
            }
            break ;
        }
        let mut j: usize = 0;
        let mut matches_base = true;
        let ghost sp = path@.skip(start as int);
        #[verifier::loop_isolation(false)]
        while j < base_end
            invariant
                0 <= j <= base_end,
                base_end <= n - start,
                matches_base,
                forall|k: int| 0 <= k < j ==> path@[start + k] == tb[k],
            decreases base_end - j,
        {
            if path.get_char(start + j) != base.get_char(j) {
                matches_base = false;
                proof {
                    assert(sp[j as int] == path@[start + j]);
                    assert(sp[j as int] != tb[j as int]);
                    assert(!is_prefix_of(tb, sp)) by {
                        if is_prefix_of(tb, sp) {
                            assert(sp.subrange(0, tb.len() as int)[j as int] == sp[j as int]);
                        }
                    }
                    assert(strip_prefix_rep(sp, tb) == sp);
                }
                break ;
            }
            j += 1;
        }
        if !matches_base {
            proof {
                assert(strip_prefix_rep(path@, tb) == path@.skip(start as int));
            }
            break ;
        }
        proof {
            assert(forall|k: int| 0 <= k < base_end ==> sp[k] == path@[start + k]);
            assert(sp.subrange(0, tb.len() as int) =~= tb);
            assert(is_prefix_of(tb, sp));
            assert(sp.skip(tb.len() as int) =~= path@.skip(start + base_end));
        }
        start += base_end;
    }
    let stripped = path.substring_char(start, n);
    if stripped.unicode_len() == 0 {
        String::from_str("/")
    } else {
        proof {
            assert(stripped@ =~= path@.skip(start as int));
        }
        stripped.to_owned()
    }
}

/// The event-type suffix of a request body, `received` when the body gives
/// none.
fn detect_event_type(body: &Json) -> (r: String)
    ensures
        r@ == event_type_view(body@),
{
    match body.get("type") {
        Some(t) => match t.as_str() {
            Some(s) => s.clone(),
            None => String::from_str("received"),
        },
        None => String::from_str("received"),
    }
}

/// Resolves a route's signing secret when one is configured, collecting the
/// metadata-only audit envelopes; a route without a secret reference yields
/// none.
pub fn resolve_webhook_secret<P: SecretProvider>(
    route: &WebhookRoute,
    secrets: &P,
    tenant: TenantCtx,
) -> (r: Result<Vec<EventEnvelope>, ProviderError>)
    ensures
        webhook_secret_outcome(*route, *secrets, tenant, r),
{
    match &route.secret_ref {
        Some(key) => {
            let resolution = resolve_secret(
                secrets,
                key.as_str(),
                "tenant",
                tenant,
                "webhook-gateway",
                "webhook signing secret",
            )?;
            proof {
                assert(secrets.admits(key@, Ok(resolution.value)));
            }
            Ok(resolution.events)
        },
        None => Ok(Vec::new()),
    }
}

/// Maps inbound webhook requests into event envelopes.
pub struct WebhookSource {
    config: HttpEndpointConfig,
}

impl WebhookSource {
    /// The endpoint configuration this source serves.
    pub closed spec fn cfg(&self) -> HttpEndpointConfig {
        self.config
    }

    /// A source over the given endpoint configuration.
    pub fn new(config: HttpEndpointConfig) -> (r: WebhookSource)
        ensures
            r.cfg() == config,
    {
        WebhookSource { config }
    }

    /// The first route whose path equals the normalized request path.
    fn match_route(&self, path: &str) -> (r: Option<&WebhookRoute>)
        ensures
            match r {
                Some(route) => find_route(
                    self.cfg().routes@,
                    strip_base_view(self.cfg().base_path@, path@),
                ) == Some(*route),
                None => find_route(
                    self.cfg().routes@,
                    strip_base_view(self.cfg().base_path@, path@),
                ) is None,
            },
    {
        let normalized = strip_base(self.config.base_path.as_str(), path);
        let ghost norm = strip_base_view(self.config.base_path@, path@);
        let n = self.config.routes.len();
        proof {
            assert(self.config.routes@.skip(0) =~= self.config.routes@);
        }
        let mut i: usize = 0;
        #[verifier::loop_isolation(false)]
        while i < n
            invariant
                0 <= i <= n,
                n == self.config.routes@.len(),
                find_route(self.config.routes@, norm) == find_route(
                    self.config.routes@.skip(i as int),
                    norm,
                ),
            decreases n - i,
        {
            proof {
                assert(self.config.routes@.skip(i as int)[0] == self.config.routes@[i as int]);
                assert(self.config.routes@.skip(i as int).skip(1) =~= self.config.routes@.skip(
                    i as int + 1,
                ));
            }
            if str_eq(self.config.routes[i].path.as_str(), normalized.as_str()) {
                return Some(&self.config.routes[i]);
            }
            i += 1;
        }
        proof {
            assert(self.config.routes@.skip(n as int) =~= Seq::<WebhookRoute>::empty());
        }
        None
    }

    /// Transport metadata of an inbound request: HTTP method, original path,
    /// correlation id when present, one entry per header.
    fn request_metadata(&self, request: &InboundHttpRequest) -> (md: Metadata)
        ensures
            md@ == request_md_model(
                request.method@,
                request.path@,
                opt_view(request.correlation_id),
                request.headers@,
            ),
            md.wf(),
    {
        let mut md = Metadata::new();
        md.insert(String::from_str("http_method"), request.method.clone());
        md.insert(String::from_str("path"), request.path.clone());
        match &request.correlation_id {
            Some(c) => md.insert(String::from_str("correlation_id"), c.clone()),
            None => {},
        }
        insert_header_entries(&mut md, &request.headers);
        md
    }

    /// Handles an inbound request against the configured routes: builds the
    /// envelope for the matching route, resolving its signing secret through
    /// the supplied provider. An unmatched path is a `Config` error naming
    /// the path; a provider failure is handed through.
    pub fn handle_request<P: SecretProvider>(
        &self,
        tenant: TenantCtx,
        request: InboundHttpRequest,
        secrets: &P,
    ) -> (r: Result<WebhookResult, ProviderError>)
        ensures
            handle_request_post(self.cfg(), tenant, request, *secrets, r),
    {
        let route = match self.match_route(request.path.as_str()) {
            Some(rt) => rt,
            None => {
                return Err(
                    ProviderError::Config(
                        String::from_str("no route for path ").concat(request.path.as_str()),
                    ),
                );
            },
        };
        let mut metadata = self.request_metadata(&request);
        let signature_valid = request.signature_validated || route.secret_ref.is_none();
        metadata.insert(String::from_str("signature_valid"), bool_string(signature_valid));
        metadata.insert(String::from_str("topic_prefix"), route.topic_prefix.clone());

        let idem = idempotency_header(&request.headers);
        match idem {
            Some(v) => set_idempotency_key(&mut metadata, v),
            None => {},
        }

        let event_type = detect_event_type(&request.body);
        let topic = route.topic_prefix.clone().concat(".").concat(event_type.as_str());

        let secret_events = resolve_webhook_secret(route, secrets, tenant.clone_ctx())?;

        let event = new_event(
            topic,
            String::from_str("com.greentic.webhook.generic.v1"),
            String::from_str("webhook-gateway"),
            tenant,
            Some(request.path.clone()),
            match &request.correlation_id {
                Some(c) => Some(c.clone()),
                None => None,
            },
            request.body,
            metadata,
        );
        Ok(WebhookResult { event, secret_events })
    }

    /// Handles an inbound request, resolving secrets through the host's
    /// secrets store; outside the plugin runtime that store fails every
    /// lookup, so a route with a secret reference fails here.
    pub fn handle_request_with_secrets_store(
        &self,
        tenant: TenantCtx,
        request: InboundHttpRequest,
    ) -> (r: Result<WebhookResult, ProviderError>)
        ensures
            handle_request_post(self.cfg(), tenant, request, SecretsStoreProvider, r),
    {
        let provider = SecretsStoreProvider;
        self.handle_request(tenant, request, &provider)
    }
}

/// Outbound sink configuration for the webhook sink.
#[derive(Debug, PartialEq, Eq)]
pub struct OutboundWebhookConfig {
    pub url: String,
    pub headers: Metadata,
}

/// An HTTP request shape to be executed by the host.
#[derive(Debug, PartialEq, Eq)]
pub struct OutgoingWebhookRequest {
    pub method: String,
    pub url: String,
    pub headers: Metadata,
    pub body: Json,
}

/// The headers of an outbound webhook request: the configured headers with
/// `content-type` pinned to JSON and the envelope's correlation id attached
/// when present.
pub open spec fn outgoing_headers_model(
    configured: Seq<(Seq<char>, Seq<char>)>,
    correlation: Option<Seq<char>>,
) -> Seq<(Seq<char>, Seq<char>)> {
    let h1 = md_insert(configured, "content-type"@, "application/json"@);
    match correlation {
        Some(c) => md_insert(h1, "x-correlation-id"@, c),
        None => h1,
    }
}

/// Builds the outbound HTTP request of the webhook sink: a POST of the
/// envelope payload to the configured URL. Always succeeds.
pub fn build_outgoing_request(config: &OutboundWebhookConfig, event: &EventEnvelope) -> (r: Result<
    OutgoingWebhookRequest,
    ProviderError,
>)
    requires
        config.headers.wf(),
    ensures
        r matches Ok(out) && ({
            &&& out.method@ == "POST"@
            &&& out.url@ == config.url@
            &&& out.headers@ == outgoing_headers_model(
                config.headers@,
                opt_view(event.correlation_id),
            )
            &&& out.body@ == event.payload@
        }),
{
    let mut headers = config.headers.clone_md();
    headers.insert(String::from_str("content-type"), String::from_str("application/json"));
    match &event.correlation_id {
        Some(c) => headers.insert(String::from_str("x-correlation-id"), c.clone()),
        None => {},
    }
    Ok(
        OutgoingWebhookRequest {
            method: String::from_str("POST"),
            url: config.url.clone(),
            headers,
            body: event.payload.deep_clone(),
        },
    )
}

/// Folding header entries changes no lookup under a key that does not start
/// with `h` — every folded key carries the `header:` prefix.
proof fn lemma_header_md_preserves_lookup(
    s: Seq<(Seq<char>, Seq<char>)>,
    headers: Seq<(Seq<char>, Seq<char>)>,
    key: Seq<char>,
)
    requires
        key.len() > 0,
        key[0] != 'h',
    ensures
        md_lookup(header_md(s, headers), key) == md_lookup(s, key),
    decreases headers.len(),
{
    reveal_strlit("header:");
    if headers.len() != 0 {
        let hk = "header:"@ + crate::sys::lower_of(headers[0].0);
        assert(hk[0] == 'h');
        assert(hk != key);
        crate::events::lemma_md_insert_other_lookup(s, hk, headers[0].1, key);
        lemma_header_md_preserves_lookup(
            md_insert(s, hk, headers[0].1),
            headers.skip(1),
            key,
        );
    }
}

/// Law: the reserved idempotency entry appears in a handled request's
/// metadata exactly when some inbound header's lowercased name is the
/// idempotency header name — a case-insensitive lookup — and then verbatim
/// with that header's value: the adapter never invents it.
pub proof fn lemma_idempotency_key_verbatim(request: InboundHttpRequest, route: WebhookRoute)
    ensures
        md_lookup(webhook_md_model(request, route), "idempotency_key"@) == idem_view(
            request.headers@,
        ),
{
    reveal_strlit("idempotency_key");
    reveal_strlit("http_method");
    reveal_strlit("path");
    reveal_strlit("correlation_id");
    reveal_strlit("signature_valid");
    reveal_strlit("topic_prefix");
    let key = "idempotency_key"@;
    let sig = request.signature_validated || route.secret_ref is None;
    let s1 = request_md_model(
        request.method@,
        request.path@,
        opt_view(request.correlation_id),
        request.headers@,
    );
    let s2 = md_insert(s1, "signature_valid"@, bool_str(sig));
    let s3 = md_insert(s2, "topic_prefix"@, route.topic_prefix@);
    match idem_view(request.headers@) {
        Some(v) => {
            crate::events::lemma_md_insert_lookup(s3, key, v);
        },
        None => {
            let s0 = md_insert(
                md_insert(Seq::empty(), "http_method"@, request.method@),
                "path"@,
                request.path@,
            );
            assert(key.len() == 15 && key[0] == 'i');
            assert("http_method"@ != key);
            assert("path"@ != key);
            assert("correlation_id"@ != key);
            assert("signature_valid"@[0] == 's');
            assert("signature_valid"@ != key);
            assert("topic_prefix"@ != key);
            assert(md_lookup(Seq::empty(), key) is None);
            crate::events::lemma_md_insert_other_lookup(
                Seq::empty(),
                "http_method"@,
                request.method@,
                key,
            );
            crate::events::lemma_md_insert_other_lookup(
                md_insert(Seq::empty(), "http_method"@, request.method@),
                "path"@,
                request.path@,
                key,
            );
            match opt_view(request.correlation_id) {
                Some(c) => {
                    crate::events::lemma_md_insert_other_lookup(s0, "correlation_id"@, c, key);
                },
                None => {},
            }
            let sbase = match opt_view(request.correlation_id) {
                Some(c) => md_insert(s0, "correlation_id"@, c),
                None => s0,
            };
            lemma_header_md_preserves_lookup(sbase, request.headers@, key);
            crate::events::lemma_md_insert_other_lookup(s1, "signature_valid"@, bool_str(sig), key);
            crate::events::lemma_md_insert_other_lookup(s2, "topic_prefix"@, route.topic_prefix@, key);
        },
    }
}

} // verus!

//! Secret resolution: a capability abstraction over "get a secret" and a
//! deterministic mapping from resolution outcomes to metadata-only audit
//! envelopes. Audit payloads never carry secret bytes, only the key name,
//! scope, tenant context, outcome and timestamp.

use vstd::prelude::*;
use vstd::string::StringExecFns;
use crate::error::ProviderError;
use crate::events::EventEnvelope;
use crate::events::Metadata;
use crate::events::new_event;
use crate::json::Json;
use crate::json::JsonVal;
use crate::json::jget;
use crate::json::str_eq;
use crate::json::lemma_fields_lookup_absent;
use crate::json::lemma_fields_lookup_at;
use crate::json::lemma_jview_fields;
use crate::sys::format_utc_secs;
use crate::sys::now_unix_seconds;
use crate::sys::rfc3339_utc_secs;
use crate::tenant::TenantCtx;

verus! {

/// View of an optional string argument.
pub open spec fn opt_str_view(o: Option<&str>) -> Option<Seq<char>> {
    match o {
        Some(s) => Some(s@),
        None => None,
    }
}

/// View of optional secret bytes.
pub open spec fn opt_bytes_view(o: Option<Vec<u8>>) -> Option<Seq<u8>> {
    match o {
        Some(b) => Some(b@),
        None => None,
    }
}

/// Model of the tenant-context document embedded in audit payloads.
pub open spec fn tenant_payload_val(t: TenantCtx) -> JsonVal {
    JsonVal::Obj(
        seq![
            ("env"@, JsonVal::Str(t.env@)),
            ("tenant"@, JsonVal::Str(t.tenant@)),
            (
                "team"@,
                match t.team {
                    Some(s) => JsonVal::Str(s@),
                    None => JsonVal::Null,
                },
            ),
            (
                "user"@,
                match t.user {
                    Some(s) => JsonVal::Str(s@),
                    None => JsonVal::Null,
                },
            ),
        ],
    )
}

/// Model of the payload of put and delete audit envelopes: key name, scope,
/// tenant context, outcome and timestamp — never the secret bytes.
pub open spec fn put_delete_payload_val(
    key: Seq<char>,
    scope: Seq<char>,
    t: TenantCtx,
    result: Seq<char>,
    ts: int,
) -> JsonVal {
    JsonVal::Obj(
        seq![
            ("schema_version"@, JsonVal::Str("v1"@)),
            ("key"@, JsonVal::Str(key)),
            ("scope"@, JsonVal::Str(scope)),
            ("tenant_ctx"@, tenant_payload_val(t)),
            ("result"@, JsonVal::Str(result)),
            ("timestamp_utc"@, JsonVal::Str(rfc3339_utc_secs(ts))),
        ],
    )
}

/// Model of the payload of rotation audit envelopes; the error field appears
/// exactly when an error string is given.
pub open spec fn rotation_payload_val(
    key: Seq<char>,
    scope: Seq<char>,
    rotation_id: Seq<char>,
    result: Seq<char>,
    error: Option<Seq<char>>,
    t: TenantCtx,
    ts: int,
) -> JsonVal {
    JsonVal::Obj(
        seq![
            ("schema_version"@, JsonVal::Str("v1"@)),
            ("key"@, JsonVal::Str(key)),
            ("scope"@, JsonVal::Str(scope)),
            ("rotation_id"@, JsonVal::Str(rotation_id)),
            ("result"@, JsonVal::Str(result)),
            ("timestamp_utc"@, JsonVal::Str(rfc3339_utc_secs(ts))),
            ("tenant_ctx"@, tenant_payload_val(t)),
        ] + match error {
            Some(e) => seq![("error"@, JsonVal::Str(e))],
            None => Seq::empty(),
        },
    )
}

/// Model of the payload of missing-secret audit envelopes: records who
/// detected the absence and what was being attempted.
pub open spec fn missing_payload_val(
    key: Seq<char>,
    scope: Seq<char>,
    detected_by: Seq<char>,
    context: Seq<char>,
    t: TenantCtx,
    ts: int,
) -> JsonVal {
    JsonVal::Obj(
        seq![
            ("schema_version"@, JsonVal::Str("v1"@)),
            ("key"@, JsonVal::Str(key)),
            ("scope"@, JsonVal::Str(scope)),
            ("detected_by"@, JsonVal::Str(detected_by)),
            ("context"@, JsonVal::Str(context)),
            ("timestamp_utc"@, JsonVal::Str(rfc3339_utc_secs(ts))),
            ("tenant_ctx"@, tenant_payload_val(t)),
        ],
    )
}

/// An audit envelope as every secret-lifecycle builder shapes it: the given
/// topic and source, the audit schema tag, the given tenant, no subject, no
/// correlation id, empty metadata, and the given payload at some timestamp.
pub open spec fn is_audit_event(
    e: EventEnvelope,
    topic: Seq<char>,
    source: Seq<char>,
    tenant: TenantCtx,
) -> bool {
    &&& e.topic@ == topic
    &&& e.type_@ == "com.greentic.secrets.audit.v1"@
    &&& e.source@ == source
    &&& e.tenant == tenant
    &&& e.subject is None
    &&& e.correlation_id is None
    &&& e.metadata@.len() == 0
}

/// The single audit envelope of a successful resolution.
pub open spec fn is_put_event(
    e: EventEnvelope,
    key: Seq<char>,
    scope: Seq<char>,
    tenant: TenantCtx,
    source: Seq<char>,
) -> bool {
    &&& is_audit_event(e, "greentic.secrets.put"@, source, tenant)
    &&& exists|ts: int| e.payload@ == put_delete_payload_val(key, scope, tenant, "success"@, ts)
}

/// The single audit envelope of a detected-missing resolution.
pub open spec fn is_missing_event(
    e: EventEnvelope,
    key: Seq<char>,
    scope: Seq<char>,
    tenant: TenantCtx,
    detected_by: Seq<char>,
    context: Seq<char>,
    source: Seq<char>,
) -> bool {
    &&& is_audit_event(e, "greentic.secrets.missing.detected"@, source, tenant)
    &&& exists|ts: int| e.payload@ == missing_payload_val(key, scope, detected_by, context, tenant, ts)
}

/// The single audit envelope of an explicit delete.
pub open spec fn is_delete_event(
    e: EventEnvelope,
    key: Seq<char>,
    scope: Seq<char>,
    tenant: TenantCtx,
    source: Seq<char>,
    result: Seq<char>,
) -> bool {
    &&& is_audit_event(e, "greentic.secrets.delete"@, source, tenant)
    &&& exists|ts: int| e.payload@ == put_delete_payload_val(key, scope, tenant, result, ts)
}

/// The single audit envelope of a rotation lifecycle step.
pub open spec fn is_rotation_event(
    e: EventEnvelope,
    topic: Seq<char>,
    key: Seq<char>,
    scope: Seq<char>,
    rotation_id: Seq<char>,
    result: Seq<char>,
    error: Option<Seq<char>>,
    tenant: TenantCtx,
    source: Seq<char>,
) -> bool {
    &&& is_audit_event(e, topic, source, tenant)
    &&& exists|ts: int| e.payload@ == rotation_payload_val(
        key,
        scope,
        rotation_id,
        result,
        error,
        tenant,
        ts,
    )
}

/// Builds the tenant-context document embedded in audit payloads.
fn tenant_context_payload(tenant: &TenantCtx) -> (r: Json)
    ensures
        r@ == tenant_payload_val(*tenant),
{
    let mut fields: Vec<(String, Json)> = Vec::new();
    fields.push((String::from_str("env"), Json::Str(tenant.env.clone())));
    fields.push((String::from_str("tenant"), Json::Str(tenant.tenant.clone())));
    fields.push(
        (
            String::from_str("team"),
            match &tenant.team {
                Some(t) => Json::Str(t.clone()),
                None => Json::Null,
            },
        ),
    );
    fields.push(
        (
            String::from_str("user"),
            match &tenant.user {
                Some(u) => Json::Str(u.clone()),
                None => Json::Null,
            },
        ),
    );
    let r = Json::Obj(fields);
    proof {
        lemma_jview_fields(fields@);
        assert(r@->Obj_0 =~~= tenant_payload_val(*tenant)->Obj_0);
    }
    r
}

/// Builds the shared payload of put and delete audit envelopes.
fn put_delete_payload(key: &str, scope: &str, tenant: &TenantCtx, result: &str) -> (r: Json)
    ensures
        exists|ts: int| r@ == put_delete_payload_val(key@, scope@, *tenant, result@, ts),
{
    let ts = now_unix_seconds();
    let mut fields: Vec<(String, Json)> = Vec::new();
    fields.push((String::from_str("schema_version"), Json::Str(String::from_str("v1"))));
    fields.push((String::from_str("key"), Json::Str(String::from_str(key))));
    fields.push((String::from_str("scope"), Json::Str(String::from_str(scope))));
    fields.push((String::from_str("tenant_ctx"), tenant_context_payload(tenant)));
    fields.push((String::from_str("result"), Json::Str(String::from_str(result))));
    fields.push((String::from_str("timestamp_utc"), Json::Str(format_utc_secs(ts))));
    let r = Json::Obj(fields);
    proof {
        lemma_jview_fields(fields@);
        assert(r@->Obj_0 =~~= put_delete_payload_val(key@, scope@, *tenant, result@, ts as int)
            ->Obj_0);
        assert(r@ == put_delete_payload_val(key@, scope@, *tenant, result@, ts as int));
    }
    r
}

/// Builds the payload of rotation audit envelopes.
fn rotation_payload(
    key: &str,
    scope: &str,
    rotation_id: &str,
    result: &str,
    error: Option<&str>,
    tenant: &TenantCtx,
) -> (r: Json)
    ensures
        exists|ts: int| r@ == rotation_payload_val(
            key@,
            scope@,
            rotation_id@,
            result@,
            opt_str_view(error),
            *tenant,
            ts,
        ),
{
    let ts = now_unix_seconds();
    let mut fields: Vec<(String, Json)> = Vec::new();
    fields.push((String::from_str("schema_version"), Json::Str(String::from_str("v1"))));
    fields.push((String::from_str("key"), Json::Str(String::from_str(key))));
    fields.push((String::from_str("scope"), Json::Str(String::from_str(scope))));
    fields.push((String::from_str("rotation_id"), Json::Str(String::from_str(rotation_id))));
    fields.push((String::from_str("result"), Json::Str(String::from_str(result))));
    fields.push((String::from_str("timestamp_utc"), Json::Str(format_utc_secs(ts))));
    fields.push((String::from_str("tenant_ctx"), tenant_context_payload(tenant)));
    match error {
        Some(err) => {
            fields.push((String::from_str("error"), Json::Str(String::from_str(err))));
        },
        None => {},
    }
    let r = Json::Obj(fields);
    proof {
        lemma_jview_fields(fields@);
        assert(r@->Obj_0 =~~= rotation_payload_val(
            key@,
            scope@,
            rotation_id@,
            result@,
            opt_str_view(error),
            *tenant,
            ts as int,
        )->Obj_0);
        assert(r@ == rotation_payload_val(
            key@,
            scope@,
            rotation_id@,
            result@,
            opt_str_view(error),
            *tenant,
            ts as int,
        ));
    }
    r
}

/// Builds the payload of missing-secret audit envelopes.
fn missing_payload(
    key: &str,
    scope: &str,
    detected_by: &str,
    context: &str,
    tenant: &TenantCtx,
) -> (r: Json)
    ensures
        exists|ts: int| r@ == missing_payload_val(key@, scope@, detected_by@, context@, *tenant, ts),
{
    let ts = now_unix_seconds();
    let mut fields: Vec<(String, Json)> = Vec::new();
    fields.push((String::from_str("schema_version"), Json::Str(String::from_str("v1"))));
    fields.push((String::from_str("key"), Json::Str(String::from_str(key))));
    fields.push((String::from_str("scope"), Json::Str(String::from_str(scope))));
    fields.push((String::from_str("detected_by"), Json::Str(String::from_str(detected_by))));
    fields.push((String::from_str("context"), Json::Str(String::from_str(context))));
    fields.push((String::from_str("timestamp_utc"), Json::Str(format_utc_secs(ts))));
    fields.push((String::from_str("tenant_ctx"), tenant_context_payload(tenant)));
    let r = Json::Obj(fields);
    proof {
        lemma_jview_fields(fields@);
        assert(r@->Obj_0 =~~= missing_payload_val(
            key@,
            scope@,
            detected_by@,
            context@,
            *tenant,
            ts as int,
        )->Obj_0);
        assert(r@ == missing_payload_val(key@, scope@, detected_by@, context@, *tenant, ts as int));
    }
    r
}

/// Builds the single `greentic.secrets.put` audit envelope of a successful
/// resolution; its payload never carries the secret bytes.
pub fn secret_put_event(key: &str, scope: &str, tenant: TenantCtx, source: &str) -> (e:
    EventEnvelope)
    ensures
        is_put_event(e, key@, scope@, tenant, source@),
{
    let payload = put_delete_payload(key, scope, &tenant, "success");
    new_event(
        String::from_str("greentic.secrets.put"),
        String::from_str("com.greentic.secrets.audit.v1"),
        String::from_str(source),
        tenant,
        None,
        None,
        payload,
        Metadata::new(),
    )
}

/// Builds the single `greentic.secrets.delete` audit envelope of an explicit
/// delete, with the caller's outcome string.
pub fn secret_delete_event(
    key: &str,
    scope: &str,
    tenant: TenantCtx,
    source: &str,
    result: &str,
) -> (e: EventEnvelope)
    ensures
        is_delete_event(e, key@, scope@, tenant, source@, result@),
{
    let payload = put_delete_payload(key, scope, &tenant, result);
    new_event(
        String::from_str("greentic.secrets.delete"),
        String::from_str("com.greentic.secrets.audit.v1"),
        String::from_str(source),
        tenant,
        None,
        None,
        payload,
        Metadata::new(),
    )
}

/// Builds the single `greentic.secrets.rotate.requested` audit envelope.
pub fn secret_rotate_requested_event(
    key: &str,
    scope: &str,
    rotation_id: &str,
    result: &str,
    tenant: TenantCtx,
    source: &str,
    error: Option<&str>,
) -> (e: EventEnvelope)
    ensures
        is_rotation_event(
            e,
            "greentic.secrets.rotate.requested"@,
            key@,
            scope@,
            rotation_id@,
            result@,
            opt_str_view(error),
            tenant,
            source@,
        ),
{
    let payload = rotation_payload(key, scope, rotation_id, result, error, &tenant);
    new_event(
        String::from_str("greentic.secrets.rotate.requested"),
        String::from_str("com.greentic.secrets.audit.v1"),
        String::from_str(source),
        tenant,
        None,
        None,
        payload,
        Metadata::new(),
    )
}

/// Builds the single `greentic.secrets.rotate.completed` audit envelope.
pub fn secret_rotate_completed_event(
    key: &str,
    scope: &str,
    rotation_id: &str,
    result: &str,
    tenant: TenantCtx,
    source: &str,
    error: Option<&str>,
) -> (e: EventEnvelope)
    ensures
        is_rotation_event(
            e,
            "greentic.secrets.rotate.completed"@,
            key@,
            scope@,
            rotation_id@,
            result@,
            opt_str_view(error),
            tenant,
            source@,
        ),
{
    let payload = rotation_payload(key, scope, rotation_id, result, error, &tenant);
    new_event(
        String::from_str("greentic.secrets.rotate.completed"),
        String::from_str("com.greentic.secrets.audit.v1"),
        String::from_str(source),
        tenant,
        None,
        None,
        payload,
        Metadata::new(),
    )
}

/// Builds the single `greentic.secrets.missing.detected` audit envelope.
pub fn secret_missing_detected_event(
    key: &str,
    scope: &str,
    tenant: TenantCtx,
    detected_by: &str,
    context: &str,
    source: &str,
) -> (e: EventEnvelope)
    ensures
        is_missing_event(e, key@, scope@, tenant, detected_by@, context@, source@),
{
    let payload = missing_payload(key, scope, detected_by, context, &tenant);
    new_event(
        String::from_str("greentic.secrets.missing.detected"),
        String::from_str("com.greentic.secrets.audit.v1"),
        String::from_str(source),
        tenant,
        None,
        None,
        payload,
        Metadata::new(),
    )
}

/// Result of attempting to resolve a secret: the bytes when present, and the
/// audit envelopes the attempt emitted.
#[derive(Debug)]
pub struct SecretResolution {
    pub value: Option<Vec<u8>>,
    pub events: Vec<EventEnvelope>,
}

/// The capability to look a secret up. Adapters are polymorphic over this
/// capability: they never know which implementation they hold. `admits`
/// delimits the outcomes a lookup may produce; every implementation proves
/// its lookups against it.
pub trait SecretProvider: Sized {
    /// Which outcomes a lookup of `key` may produce.
    spec fn admits(&self, key: Seq<char>, outcome: Result<Option<Vec<u8>>, ProviderError>) -> bool;

    /// Looks the secret bytes stored under `key` up: `None` when the key is
    /// absent; an error only when the capability itself fails.
    fn get_secret(&self, key: &str) -> (r: Result<Option<Vec<u8>>, ProviderError>)
        ensures
            self.admits(key@, r),
    ;
}

/// First binding of `key`, if any.
pub open spec fn assoc_lookup(s: Seq<(Seq<char>, Seq<u8>)>, key: Seq<char>) -> Option<Seq<u8>>
    decreases s.len(),
{
    if s.len() == 0 {
        None
    } else if s[0].0 == key {
        Some(s[0].1)
    } else {
        assoc_lookup(s.skip(1), key)
    }
}

/// A provider backed by a static in-memory mapping, for fixtures and tests.
/// Deterministic: a lookup returns exactly the stored bytes.
pub struct StaticSecretProvider {
    secrets: Vec<(String, Vec<u8>)>,
}

impl StaticSecretProvider {
    /// The mapping, in the model.
    pub closed spec fn model(&self) -> Seq<(Seq<char>, Seq<u8>)> {
        Seq::new(self.secrets@.len(), |i: int| (self.secrets@[i].0@, self.secrets@[i].1@))
    }

    /// The bytes stored under `key`, in the model.
    pub open spec fn stored(&self, key: Seq<char>) -> Option<Seq<u8>> {
        assoc_lookup(self.model(), key)
    }

    /// A provider over the given bindings; on keys bound twice the first
    /// binding wins.
    pub fn new(secrets: Vec<(String, Vec<u8>)>) -> (r: StaticSecretProvider)
        ensures
            r.model() == Seq::new(secrets@.len(), |i: int| (secrets@[i].0@, secrets@[i].1@)),
    {
        StaticSecretProvider { secrets }
    }

    /// A provider with no secrets at all.
    pub fn empty() -> (r: StaticSecretProvider)
        ensures
            forall|key: Seq<char>| r.stored(key) is None,
    {
        let r = StaticSecretProvider { secrets: Vec::new() };
        proof {
            assert(r.model() =~= Seq::<(Seq<char>, Seq<u8>)>::empty());
        }
        r
    }
}

impl SecretProvider for StaticSecretProvider {
    /// A lookup never fails and returns exactly the stored bytes.
    open spec fn admits(&self, key: Seq<char>, outcome: Result<Option<Vec<u8>>, ProviderError>) -> bool {
        match outcome {
            Ok(v) => opt_bytes_view(v) == self.stored(key),
            Err(_) => false,
        }
    }

    fn get_secret(&self, key: &str) -> (r: Result<Option<Vec<u8>>, ProviderError>) {
        let n = self.secrets.len();
        proof {
            assert(self.model().skip(0) =~= self.model());
        }
        let mut i: usize = 0;
        #[verifier::loop_isolation(false)]
        while i < n
            invariant
                0 <= i <= n,
                n == self.secrets@.len(),
                assoc_lookup(self.model(), key@) == assoc_lookup(
                    self.model().skip(i as int),
                    key@,
                ),
            decreases n - i,
        {
            proof {
                assert(self.model().skip(i as int)[0] == self.model()[i as int]);
                assert(self.model().skip(i as int).skip(1) =~= self.model().skip(i as int + 1));
            }
            if str_eq(self.secrets[i].0.as_str(), key) {
                let bytes = self.secrets[i].1.clone();
                proof {
                    assert(bytes@ =~= self.secrets@[i as int].1@);
                }
                return Ok(Some(bytes));
            }
            i += 1;
        }
        proof {
            assert(self.model().skip(n as int) =~= Seq::<(Seq<char>, Seq<u8>)>::empty());
        }
        Ok(None)
    }
}

/// The live provider backed by the host's secrets store. That store exists
/// only inside the plugin runtime; outside it every lookup fails with an
/// `Auth` error, and nothing more is admitted of an outcome.
pub struct SecretsStoreProvider;

impl SecretProvider for SecretsStoreProvider {
    open spec fn admits(&self, key: Seq<char>, outcome: Result<Option<Vec<u8>>, ProviderError>) -> bool {
        outcome matches Err(e) && e matches ProviderError::Auth(_)
    }

    fn get_secret(&self, key: &str) -> (r: Result<Option<Vec<u8>>, ProviderError>) {
        Err(
            ProviderError::Auth(
                String::from_str("secrets-store is only available inside the plugin runtime"),
            ),
        )
    }
}

/// Turns a lookup outcome into a resolution: the value is handed through
/// unchanged, and exactly one audit envelope is attached — a put envelope
/// when the bytes are present, a missing-detected envelope when they are
/// absent. The envelope payload never carries the bytes.
pub fn resolution_for(
    lookup: Option<Vec<u8>>,
    key: &str,
    scope: &str,
    tenant: TenantCtx,
    source: &str,
    context: &str,
) -> (r: SecretResolution)
    ensures
        r.value == lookup,
        r.events@.len() == 1,
        lookup is Some ==> is_put_event(r.events@[0], key@, scope@, tenant, source@),
        lookup is None ==> is_missing_event(
            r.events@[0],
            key@,
            scope@,
            tenant,
            source@,
            context@,
            source@,
        ),
{
    match lookup {
        Some(bytes) => {
            let e = secret_put_event(key, scope, tenant, source);
            let mut events: Vec<EventEnvelope> = Vec::new();
            events.push(e);
            SecretResolution { value: Some(bytes), events }
        },
        None => {
            let e = secret_missing_detected_event(key, scope, tenant, source, context, source);
            let mut events: Vec<EventEnvelope> = Vec::new();
            events.push(e);
            SecretResolution { value: None, events }
        },
    }
}

/// Resolves a secret through the supplied provider and emits metadata-only
/// audit events: a present secret yields its bytes and one put envelope, an
/// absent secret yields no bytes and one missing-detected envelope, and only
/// a capability-level failure is an error, with no envelope at all.
pub open spec fn resolve_secret_post<P: SecretProvider>(
    secrets: P,
    key: Seq<char>,
    scope: Seq<char>,
    tenant: TenantCtx,
    source: Seq<char>,
    context: Seq<char>,
    r: Result<SecretResolution, ProviderError>,
) -> bool {
    match r {
        Ok(res) => {
            &&& secrets.admits(key, Ok(res.value))
            &&& res.events@.len() == 1
            &&& (res.value is Some ==> is_put_event(res.events@[0], key, scope, tenant, source))
            &&& (res.value is None ==> is_missing_event(
                res.events@[0],
                key,
                scope,
                tenant,
                source,
                context,
                source,
            ))
        },
        Err(e) => secrets.admits(key, Err(e)),
    }
}

pub fn resolve_secret<P: SecretProvider>(
    secrets: &P,
    key: &str,
    scope: &str,
    tenant: TenantCtx,
    source: &str,
    context: &str,
) -> (r: Result<SecretResolution, ProviderError>)
    ensures
        resolve_secret_post(*secrets, key@, scope@, tenant, source@, context@, r),
{
    match secrets.get_secret(key)? {
        Some(bytes) => Ok(resolution_for(Some(bytes), key, scope, tenant, source, context)),
        None => Ok(resolution_for(None, key, scope, tenant, source, context)),
    }
}

/// Law: an audit payload of a put or delete envelope never carries a field
/// named `value` — in particular, never the secret bytes under that name.
pub proof fn lemma_put_delete_payload_omits_value(
    key: Seq<char>,
    scope: Seq<char>,
    t: TenantCtx,
    result: Seq<char>,
    ts: int,
)
    ensures
        jget(put_delete_payload_val(key, scope, t, result, ts), "value"@) is None,
{
    reveal_strlit("schema_version");
    reveal_strlit("key");
    reveal_strlit("scope");
    reveal_strlit("tenant_ctx");
    reveal_strlit("result");
    reveal_strlit("timestamp_utc");
    reveal_strlit("value");
    let fields = put_delete_payload_val(key, scope, t, result, ts)->Obj_0;
    assert("scope"@[0] == 's' && "value"@[0] == 'v');
    assert(forall|i: int| 0 <= i < fields.len() ==> (#[trigger] fields[i]).0 != "value"@);
    lemma_fields_lookup_absent(fields, "value"@);
}

/// Law: a missing-secret audit payload records the detector and the context
/// of the attempt, and never carries a field named `value`.
pub proof fn lemma_missing_payload_metadata(
    key: Seq<char>,
    scope: Seq<char>,
    detected_by: Seq<char>,
    context: Seq<char>,
    t: TenantCtx,
    ts: int,
)
    ensures
        jget(missing_payload_val(key, scope, detected_by, context, t, ts), "detected_by"@)
            == Some(JsonVal::Str(detected_by)),
        jget(missing_payload_val(key, scope, detected_by, context, t, ts), "context"@) == Some(
            JsonVal::Str(context),
        ),
        jget(missing_payload_val(key, scope, detected_by, context, t, ts), "value"@) is None,
{
    reveal_strlit("schema_version");
    reveal_strlit("key");
    reveal_strlit("scope");
    reveal_strlit("detected_by");
    reveal_strlit("context");
    reveal_strlit("timestamp_utc");
    reveal_strlit("tenant_ctx");
    reveal_strlit("value");
    let fields = missing_payload_val(key, scope, detected_by, context, t, ts)->Obj_0;
    assert("scope"@[0] == 's' && "value"@[0] == 'v');
    assert(forall|i: int| 0 <= i < fields.len() ==> (#[trigger] fields[i]).0 != "value"@);
    lemma_fields_lookup_absent(fields, "value"@);
    assert("schema_version"@.len() == 14);
    assert("detected_by"@.len() == 11);
    assert(fields[0].0 == "schema_version"@);
    assert(fields[0].0 != "detected_by"@);
    assert(forall|i: int| 0 <= i < 3 ==> (#[trigger] fields[i]).0 != "detected_by"@);
    lemma_fields_lookup_at(fields, "detected_by"@, 3);
    assert("context"@.len() == 7);
    assert(fields[0].0 != "context"@ && fields[1].0 != "context"@ && fields[2].0 != "context"@
        && fields[3].0 != "context"@);
    assert(forall|i: int| 0 <= i < 4 ==> (#[trigger] fields[i]).0 != "context"@);
    lemma_fields_lookup_at(fields, "context"@, 4);
}

/// Law: a key absent from a static provider resolves without error to no
/// value and exactly one missing-detected audit envelope, whose payload
/// names detector and context and carries no `value` field.
pub proof fn lemma_absent_key_yields_missing_audit(
    p: StaticSecretProvider,
    key: Seq<char>,
    scope: Seq<char>,
    tenant: TenantCtx,
    source: Seq<char>,
    context: Seq<char>,
    r: Result<SecretResolution, ProviderError>,
)
    requires
        p.stored(key) is None,
        resolve_secret_post(p, key, scope, tenant, source, context, r),
    ensures
        r matches Ok(res) && ({
            &&& res.value is None
            &&& res.events@.len() == 1
            &&& is_missing_event(res.events@[0], key, scope, tenant, source, context, source)
            &&& jget(res.events@[0].payload@, "value"@) is None
            &&& jget(res.events@[0].payload@, "detected_by"@) == Some(JsonVal::Str(source))
        }),
{
    let res = r->Ok_0;
    let ts = choose|ts: int| res.events@[0].payload@ == missing_payload_val(
        key,
        scope,
        source,
        context,
        tenant,
        ts,
    );
    lemma_missing_payload_metadata(key, scope, source, context, tenant, ts);
}

/// Law: a key present in a static provider resolves without error to exactly
/// the stored bytes and one put audit envelope, whose payload carries no
/// `value` field.
pub proof fn lemma_present_key_yields_put_audit(
    p: StaticSecretProvider,
    key: Seq<char>,
    scope: Seq<char>,
    tenant: TenantCtx,
    source: Seq<char>,
    context: Seq<char>,
    r: Result<SecretResolution, ProviderError>,
)
    requires
        p.stored(key) is Some,
        resolve_secret_post(p, key, scope, tenant, source, context, r),
    ensures
        r matches Ok(res) && ({
            &&& res.value matches Some(b) && b@ == p.stored(key)->0
            &&& res.events@.len() == 1
            &&& is_put_event(res.events@[0], key, scope, tenant, source)
            &&& jget(res.events@[0].payload@, "value"@) is None
        }),
{
    let res = r->Ok_0;
    let ts = choose|ts: int| res.events@[0].payload@ == put_delete_payload_val(
        key,
        scope,
        tenant,
        "success"@,
        ts,
    );
    lemma_put_delete_payload_omits_value(key, scope, tenant, "success"@, ts);
}

/// The single audit envelope of one resolution attempt through `secrets`: a
/// put envelope for the bytes the provider admitted, a missing-detected
/// envelope for an admitted absence.
pub open spec fn resolved_audit<P: SecretProvider>(
    secrets: P,
    e: EventEnvelope,
    key: Seq<char>,
    scope: Seq<char>,
    tenant: TenantCtx,
    source: Seq<char>,
    context: Seq<char>,
) -> bool {
    exists|b: Option<Vec<u8>>|
        {
            &&& #[trigger] secrets.admits(key, Ok(b))
            &&& (b is Some ==> is_put_event(e, key, scope, tenant, source))
            &&& (b is None ==> is_missing_event(e, key, scope, tenant, source, context, source))
        }
}

} // verus!

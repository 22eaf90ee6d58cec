//! Provider operations: the compute half of each hosted component. Every
//! operation takes parsed values, decides, persists through an injected
//! state store, and returns the response document; the host performs the
//! actual dispatch and transport.

use vstd::prelude::*;
use vstd::string::StrSliceExecFns;
use vstd::string::StringExecFns;
use crate::error::ProviderError;
use crate::json::Json;
use crate::json::JsonVal;
use crate::json::jview_fields;
use crate::json::lemma_jview_fields;
use crate::json::str_eq;
use crate::events::Metadata;
use crate::events::md_insert_absent;
use crate::events::opt_view;
use crate::sys::rfc3339_utc_secs;
use crate::receipt::jbytes;
use crate::receipt::json_to_bytes;
use crate::receipt::stable_receipt_id;
use crate::receipt::uuid_v5_oid;

verus! {

/// The key-value persistence capability a host supplies: write bytes under a
/// key, durably. `write_post` delimits the outcomes one write may produce;
/// every implementation proves its writes against it.
pub trait StateStore: Sized {
    /// Which outcomes writing `bytes` under `key` may produce, relating the
    /// store before and after.
    spec fn write_post(
        pre: Self,
        post: Self,
        key: Seq<char>,
        bytes: Seq<u8>,
        r: Result<(), ProviderError>,
    ) -> bool;

    /// Writes `bytes` under `key`.
    fn write(&mut self, key: &str, bytes: &Vec<u8>) -> (r: Result<(), ProviderError>)
        ensures
            Self::write_post(*old(self), *final(self), key@, bytes@, r),
    ;
}

/// First binding of `key`, if any.
pub open spec fn kv_lookup(s: Seq<(Seq<char>, Seq<u8>)>, key: Seq<char>) -> Option<Seq<u8>>
    decreases s.len(),
{
    if s.len() == 0 {
        None
    } else if s[0].0 == key {
        Some(s[0].1)
    } else {
        kv_lookup(s.skip(1), key)
    }
}

/// `s` with `key` bound to `bytes`: replaces the first binding in place, or
/// appends one.
pub open spec fn kv_insert(s: Seq<(Seq<char>, Seq<u8>)>, key: Seq<char>, bytes: Seq<u8>) -> Seq<
    (Seq<char>, Seq<u8>),
>
    decreases s.len(),
{
    if s.len() == 0 {
        seq![(key, bytes)]
    } else if s[0].0 == key {
        seq![(key, bytes)] + s.skip(1)
    } else {
        seq![s[0]] + kv_insert(s.skip(1), key, bytes)
    }
}

/// A caller-owned in-memory store: the test double for the persistence
/// capability. A write never fails and stores exactly the given bytes.
pub struct MemoryStateStore {
    entries: Vec<(String, Vec<u8>)>,
}

impl MemoryStateStore {
    /// The stored bindings, in the model.
    pub closed spec fn model(&self) -> Seq<(Seq<char>, Seq<u8>)> {
        Seq::new(self.entries@.len(), |i: int| (self.entries@[i].0@, self.entries@[i].1@))
    }

    /// The bytes stored under `key`, in the model.
    pub open spec fn stored(&self, key: Seq<char>) -> Option<Seq<u8>> {
        kv_lookup(self.model(), key)
    }

    /// An empty store.
    pub fn new() -> (r: MemoryStateStore)
        ensures
            r.model() =~= Seq::<(Seq<char>, Seq<u8>)>::empty(),
    {
        MemoryStateStore { entries: Vec::new() }
    }

    /// The bytes stored under `key`, if any.
    pub fn read(&self, key: &str) -> (r: Option<&Vec<u8>>)
        ensures
            match r {
                Some(b) => self.stored(key@) == Some(b@),
                None => self.stored(key@) is None,
            },
    {
        let n = self.entries.len();
        proof {
            assert(self.model().skip(0) =~= self.model());
        }
        let mut i: usize = 0;
        #[verifier::loop_isolation(false)]
        while i < n
            invariant
                0 <= i <= n,
                n == self.entries@.len(),
                kv_lookup(self.model(), key@) == kv_lookup(self.model().skip(i as int), key@),
            decreases n - i,
        {
            proof {
                assert(self.model().skip(i as int)[0] == self.model()[i as int]);
                assert(self.model().skip(i as int).skip(1) =~= self.model().skip(i as int + 1));
            }
            if str_eq(self.entries[i].0.as_str(), key) {
                return Some(&self.entries[i].1);
            }
            i += 1;
        }
        proof {
            assert(self.model().skip(n as int) =~= Seq::<(Seq<char>, Seq<u8>)>::empty());
        }
        None
    }
}

impl StateStore for MemoryStateStore {
    /// A write never fails and binds exactly the given bytes.
    open spec fn write_post(
        pre: MemoryStateStore,
        post: MemoryStateStore,
        key: Seq<char>,
        bytes: Seq<u8>,
        r: Result<(), ProviderError>,
    ) -> bool {
        r is Ok && post.model() == kv_insert(pre.model(), key, bytes)
    }

    fn write(&mut self, key: &str, bytes: &Vec<u8>) -> (r: Result<(), ProviderError>) {
        let n = self.entries.len();
        let mut i: usize = 0;
        #[verifier::loop_isolation(false)]
        while i < n
            invariant
                0 <= i <= n,
                n == self.entries@.len(),
                *self == *old(self),
                forall|k: int| 0 <= k < i ==> (#[trigger] self.model()[k]).0 != key@,
            decreases n - i,
        {
            if str_eq(self.entries[i].0.as_str(), key) {
                self.entries[i] = (String::from_str(key), bytes.clone());
                proof {
                    assert(bytes@ =~= self.entries@[i as int].1@);
                    lemma_kv_insert_replace(old(self).model(), key@, bytes@, i as int);
                    assert(self.model() =~= old(self).model().update(i as int, (key@, bytes@)));
                }
                return Ok(());
            }
            i += 1;
        }
        self.entries.push((String::from_str(key), bytes.clone()));
        proof {
            lemma_kv_insert_append(old(self).model(), key@, bytes@);
            assert(self.model() =~= old(self).model() + seq![(key@, bytes@)]);
        }
        Ok(())
    }
}

/// When the first `j` keys differ from `key` and key `j` equals it, a
/// key-value insert replaces position `j`.
proof fn lemma_kv_insert_replace(s: Seq<(Seq<char>, Seq<u8>)>, key: Seq<char>, bytes: Seq<u8>, j: int)
    requires
        0 <= j < s.len(),
        forall|k: int| 0 <= k < j ==> (#[trigger] s[k]).0 != key,
        s[j].0 == key,
    ensures
        kv_insert(s, key, bytes) == s.update(j, (key, bytes)),
    decreases j,
{
    if j == 0 {
        assert(seq![(key, bytes)] + s.skip(1) =~= s.update(0, (key, bytes)));
    } else {
        assert(s.skip(1)[j - 1] == s[j]);
        assert(forall|k: int| 0 <= k < j - 1 ==> (#[trigger] s.skip(1)[k]).0 == s[k + 1].0);
        lemma_kv_insert_replace(s.skip(1), key, bytes, j - 1);
        assert(seq![s[0]] + s.skip(1).update(j - 1, (key, bytes)) =~= s.update(j, (key, bytes)));
    }
}

/// When no key equals `key`, a key-value insert appends at the end.
proof fn lemma_kv_insert_append(s: Seq<(Seq<char>, Seq<u8>)>, key: Seq<char>, bytes: Seq<u8>)
    requires
        forall|k: int| 0 <= k < s.len() ==> (#[trigger] s[k]).0 != key,
    ensures
        kv_insert(s, key, bytes) == s + seq![(key, bytes)],
    decreases s.len(),
{
    if s.len() == 0 {
        assert(kv_insert(s, key, bytes) =~= s + seq![(key, bytes)]);
    } else {
        assert(forall|k: int| 0 <= k < s.skip(1).len() ==> (#[trigger] s.skip(1)[k]).0 == s[k
            + 1].0);
        lemma_kv_insert_append(s.skip(1), key, bytes);
        assert(seq![s[0]] + (s.skip(1) + seq![(key, bytes)]) =~= s + seq![(key, bytes)]);
    }
}

/// Every character of `s` is ASCII whitespace.
pub open spec fn blank(s: Seq<char>) -> bool {
    forall|i: int| 0 <= i < s.len() ==> (#[trigger] s[i]) == ' ' || s[i] == '\t' || s[i] == '\n'
        || s[i] == '\r'
}

/// Returns true when `s` holds nothing but ASCII whitespace.
pub fn is_blank(s: &str) -> (r: bool)
    ensures
        r == blank(s@),
{
    let n = s.unicode_len();
    let mut i: usize = 0;
    #[verifier::loop_isolation(false)]
    while i < n
        invariant
            0 <= i <= n,
            forall|k: int| 0 <= k < i ==> (#[trigger] s@[k]) == ' ' || s@[k] == '\t' || s@[k]
                == '\n' || s@[k] == '\r',
        decreases n - i,
    {
        let c = s.get_char(i);
        if c != ' ' && c != '\t' && c != '\n' && c != '\r' {
            return false;
        }
        i += 1;
    }
    true
}

/// The state key a persisted unit of work is stored under:
/// `<prefix>/<receipt-id>.json`, with the component's default prefix when
/// the configuration names none.
pub open spec fn state_key_view(
    prefix: Option<Seq<char>>,
    default_prefix: Seq<char>,
    receipt_id: Seq<char>,
) -> Seq<char> {
    (match prefix {
        Some(p) => p,
        None => default_prefix,
    }) + "/"@ + receipt_id + ".json"@
}

/// Renders the state key of a persisted unit of work.
pub fn state_key(prefix: &Option<String>, default_prefix: &str, receipt_id: &str) -> (r: String)
    ensures
        r@ == state_key_view(
            match prefix {
                Some(p) => Some(p@),
                None => None,
            },
            default_prefix@,
            receipt_id@,
        ),
{
    let head = match prefix {
        Some(p) => p.clone(),
        None => String::from_str(default_prefix),
    };
    head.concat("/").concat(receipt_id).concat(".json")
}

/// The default timezone of timer configurations.
pub fn default_timezone() -> (r: String)
    ensures
        r@ == "UTC"@,
{
    String::from_str("UTC")
}

/// The default HTTP method of outbound webhook configurations.
pub fn default_method() -> (r: String)
    ensures
        r@ == "POST"@,
{
    String::from_str("POST")
}

/// The operations the hosted components dispatch by name.
#[derive(Debug, PartialEq, Eq, Clone, Copy)]
pub enum ProviderOp {
    Publish,
    Echo,
    TimerTick,
    IngestHttp,
}

/// Parses an operation name of the dummy component: `publish` or `echo`;
/// any other name is an unsupported-operation error.
pub fn parse_dummy_op(op: &str) -> (r: Result<ProviderOp, ProviderError>)
    ensures
        match r {
            Ok(o) => (o == ProviderOp::Publish && op@ == "publish"@) || (o == ProviderOp::Echo
                && op@ == "echo"@),
            Err(e) => op@ != "publish"@ && op@ != "echo"@ && (e matches ProviderError::Config(m)
                && m@ == "unsupported op "@ + op@),
        },
{
    if str_eq(op, "publish") {
        Ok(ProviderOp::Publish)
    } else if str_eq(op, "echo") {
        Ok(ProviderOp::Echo)
    } else {
        Err(ProviderError::Config(String::from_str("unsupported op ").concat(op)))
    }
}

/// Parses an operation name of the outbound webhook and email components:
/// `publish` alone is supported.
pub fn parse_publish_op(op: &str) -> (r: Result<ProviderOp, ProviderError>)
    ensures
        match r {
            Ok(o) => o == ProviderOp::Publish && op@ == "publish"@,
            Err(e) => op@ != "publish"@ && (e matches ProviderError::Config(m) && m@
                == "unsupported op "@ + op@),
        },
{
    if str_eq(op, "publish") {
        Ok(ProviderOp::Publish)
    } else {
        Err(ProviderError::Config(String::from_str("unsupported op ").concat(op)))
    }
}

/// Parses an operation name of the timer component: `timer_tick` and
/// `publish` both fire a tick.
pub fn parse_timer_op(op: &str) -> (r: Result<ProviderOp, ProviderError>)
    ensures
        match r {
            Ok(o) => o == ProviderOp::TimerTick && (op@ == "timer_tick"@ || op@ == "publish"@),
            Err(e) => op@ != "timer_tick"@ && op@ != "publish"@ && (e
                matches ProviderError::Config(m) && m@ == "unsupported op "@ + op@),
        },
{
    if str_eq(op, "timer_tick") || str_eq(op, "publish") {
        Ok(ProviderOp::TimerTick)
    } else {
        Err(ProviderError::Config(String::from_str("unsupported op ").concat(op)))
    }
}

/// Parses an operation name of the inbound email component: `ingest_http`
/// and `publish` both ingest.
pub fn parse_ingest_op(op: &str) -> (r: Result<ProviderOp, ProviderError>)
    ensures
        match r {
            Ok(o) => o == ProviderOp::IngestHttp && (op@ == "ingest_http"@ || op@ == "publish"@),
            Err(e) => op@ != "ingest_http"@ && op@ != "publish"@ && (e
                matches ProviderError::Config(m) && m@ == "unsupported op "@ + op@),
        },
{
    if str_eq(op, "ingest_http") || str_eq(op, "publish") {
        Ok(ProviderOp::IngestHttp)
    } else {
        Err(ProviderError::Config(String::from_str("unsupported op ").concat(op)))
    }
}

/// The response of the dummy publish operation: the receipt and status, and
/// the persistence failure as a sideband field when one happened.
pub open spec fn dummy_publish_val(receipt: Seq<char>, state_error: Option<Seq<char>>) -> JsonVal {
    match state_error {
        None => JsonVal::Obj(
            seq![
                ("receipt_id"@, JsonVal::Str(receipt)),
                ("status"@, JsonVal::Str("published"@)),
            ],
        ),
        Some(m) => JsonVal::Obj(
            seq![
                ("receipt_id"@, JsonVal::Str(receipt)),
                ("status"@, JsonVal::Str("published"@)),
                ("state_error"@, JsonVal::Str(m)),
            ],
        ),
    }
}

/// The dummy component's publish: derives the receipt, persists the payload
/// bytes, and reports success either way — a persistence failure is sideband
/// information in a `state_error` field, never fatal.
pub fn dummy_publish<S: StateStore>(payload: &Json, store: &mut S) -> (r: Json)
    ensures
        exists|wr: Result<(), ProviderError>|
            {
                &&& #[trigger] S::write_post(
                    *old(store),
                    *final(store),
                    "events/dummy/last_published.json"@,
                    jbytes(payload@),
                    wr,
                )
                &&& r@ == dummy_publish_val(
                    uuid_v5_oid(jbytes(payload@)),
                    match wr {
                        Ok(_) => None,
                        Err(e) => Some(e.message_view()),
                    },
                )
            },
{
    let receipt_id = stable_receipt_id(payload);
    let bytes = json_to_bytes(payload);
    let wr = store.write("events/dummy/last_published.json", &bytes);
    let mut fields: Vec<(String, Json)> = Vec::new();
    fields.push((String::from_str("receipt_id"), Json::Str(receipt_id)));
    fields.push((String::from_str("status"), Json::Str(String::from_str("published"))));
    match &wr {
        Ok(_) => {},
        Err(e) => {
            fields.push((String::from_str("state_error"), Json::Str(e.message().clone())));
        },
    }
    let r = Json::Obj(fields);
    proof {
        lemma_jview_fields(fields@);
        let se = match wr {
            Ok(_) => None,
            Err(e) => Some(e.message_view()),
        };
        assert(r@->Obj_0 =~~= dummy_publish_val(uuid_v5_oid(jbytes(payload@)), se)->Obj_0);
        assert(S::write_post(
            *old(store),
            *final(store),
            "events/dummy/last_published.json"@,
            jbytes(payload@),
            wr,
        ));
    }
    r
}

/// The dummy component's echo: wraps the parsed input unchanged.
pub fn dummy_echo(payload: &Json) -> (r: Json)
    ensures
        r@ == JsonVal::Obj(seq![("echo"@, payload@)]),
{
    let mut fields: Vec<(String, Json)> = Vec::new();
    fields.push((String::from_str("echo"), payload.deep_clone()));
    let r = Json::Obj(fields);
    proof {
        lemma_jview_fields(fields@);
        assert(r@->Obj_0 =~~= JsonVal::Obj(seq![("echo"@, payload@)])->Obj_0);
    }
    r
}

/// Messaging configuration of the hosted email components.
#[derive(Debug, PartialEq, Eq)]
pub struct MessagingConfig {
    pub messaging_provider_id: String,
    pub from: Option<String>,
    pub persistence_key_prefix: Option<String>,
}

/// The queued-email entry persisted before reporting success.
pub open spec fn queued_email_val(cfg: MessagingConfig, event: JsonVal, ts: int) -> JsonVal {
    JsonVal::Obj(
        seq![
            ("messaging_provider_id"@, JsonVal::Str(cfg.messaging_provider_id@)),
            (
                "from"@,
                match cfg.from {
                    Some(f) => JsonVal::Str(f@),
                    None => JsonVal::Null,
                },
            ),
            ("event"@, event),
            ("queued_at"@, JsonVal::Str(rfc3339_utc_secs(ts))),
        ],
    )
}

/// The state key of a queued outbound email.
pub open spec fn email_state_key(cfg: MessagingConfig, receipt: Seq<char>) -> Seq<char> {
    state_key_view(opt_view(cfg.persistence_key_prefix), "events/email/queued"@, receipt)
}

/// The response of the email publish operation.
pub open spec fn email_publish_val(receipt: Seq<char>, key: Seq<char>) -> JsonVal {
    JsonVal::Obj(
        seq![
            ("receipt_id"@, JsonVal::Str(receipt)),
            ("status"@, JsonVal::Str("queued"@)),
            ("state_key"@, JsonVal::Str(key)),
        ],
    )
}

/// The email component's publish: requires a non-blank messaging provider
/// id, derives the receipt, persists the queued entry under the state key,
/// and reports it queued; a persistence failure is fatal here.
pub fn email_publish<S: StateStore>(config: &MessagingConfig, event: &Json, store: &mut S) -> (r:
    Result<Json, ProviderError>)
    ensures
        blank(config.messaging_provider_id@) ==> (r matches Err(e) && e
            matches ProviderError::Config(m) && m@ == "messaging_provider_id is required"@
            && *final(store) == *old(store)),
        !blank(config.messaging_provider_id@) ==> exists|wr: Result<(), ProviderError>, ts: int|
            {
                &&& #[trigger] S::write_post(
                    *old(store),
                    *final(store),
                    email_state_key(*config, uuid_v5_oid(jbytes(event@))),
                    jbytes(queued_email_val(*config, event@, ts)),
                    wr,
                )
                &&& match (wr, r) {
                    (Ok(u), Ok(resp)) => resp@ == email_publish_val(
                        uuid_v5_oid(jbytes(event@)),
                        email_state_key(*config, uuid_v5_oid(jbytes(event@))),
                    ),
                    (Err(we), Err(re)) => we == re,
                    _ => false,
                }
            },
{
    if is_blank(config.messaging_provider_id.as_str()) {
        return Err(ProviderError::Config(String::from_str("messaging_provider_id is required")));
    }
    let receipt_id = stable_receipt_id(event);
    let key = state_key(
        &config.persistence_key_prefix,
        "events/email/queued",
        receipt_id.as_str(),
    );
    let ts = crate::sys::now_unix_seconds();
    let mut entry_fields: Vec<(String, Json)> = Vec::new();
    entry_fields.push(
        (
            String::from_str("messaging_provider_id"),
            Json::Str(config.messaging_provider_id.clone()),
        ),
    );
    entry_fields.push(
        (
            String::from_str("from"),
            match &config.from {
                Some(f) => Json::Str(f.clone()),
                None => Json::Null,
            },
        ),
    );
    entry_fields.push((String::from_str("event"), event.deep_clone()));
    entry_fields.push((String::from_str("queued_at"), Json::Str(crate::sys::format_utc_secs(ts))));
    let entry = Json::Obj(entry_fields);
    proof {
        lemma_jview_fields(entry_fields@);
        assert(entry@->Obj_0 =~~= queued_email_val(*config, event@, ts as int)->Obj_0);
        assert(entry@ == queued_email_val(*config, event@, ts as int));
    }
    let bytes = json_to_bytes(&entry);
    let wr = store.write(key.as_str(), &bytes);
    proof {
        assert(key@ == email_state_key(*config, uuid_v5_oid(jbytes(event@))));
        assert(bytes@ == jbytes(queued_email_val(*config, event@, ts as int)));
        assert(S::write_post(
            *old(store),
            *final(store),
            email_state_key(*config, uuid_v5_oid(jbytes(event@))),
            jbytes(queued_email_val(*config, event@, ts as int)),
            wr,
        ));
    }
    match wr {
        Ok(_) => {},
        Err(e) => {
            return Err(e);
        },
    }
    let mut fields: Vec<(String, Json)> = Vec::new();
    fields.push((String::from_str("receipt_id"), Json::Str(receipt_id)));
    fields.push((String::from_str("status"), Json::Str(String::from_str("queued"))));
    fields.push((String::from_str("state_key"), Json::Str(key)));
    let resp = Json::Obj(fields);
    proof {
        lemma_jview_fields(fields@);
        assert(resp@->Obj_0 =~~= email_publish_val(
            uuid_v5_oid(jbytes(event@)),
            email_state_key(*config, uuid_v5_oid(jbytes(event@))),
        )->Obj_0);
    }
    Ok(resp)
}

/// The event a hosted component emits for one processed unit of work:
/// identifier, type, time, source coordinates, tenant scope, and the
/// payload verbatim.
pub open spec fn emitted_event_val(
    receipt: Seq<char>,
    event_type: Seq<char>,
    provider: Seq<char>,
    ts: int,
    handler_id: Option<Seq<char>>,
    tenant: Option<Seq<char>>,
    team: Option<Seq<char>>,
    correlation: Option<Seq<char>>,
    payload: JsonVal,
) -> JsonVal {
    JsonVal::Obj(
        seq![
            ("event_id"@, JsonVal::Str(receipt)),
            ("event_type"@, JsonVal::Str(event_type)),
            ("occurred_at"@, JsonVal::Str(rfc3339_utc_secs(ts))),
            (
                "source"@,
                JsonVal::Obj(
                    seq![
                        ("domain"@, JsonVal::Str("events"@)),
                        ("provider"@, JsonVal::Str(provider)),
                        (
                            "handler_id"@,
                            JsonVal::Str(
                                match handler_id {
                                    Some(h) => h,
                                    None => "default"@,
                                },
                            ),
                        ),
                    ],
                ),
            ),
            (
                "scope"@,
                JsonVal::Obj(
                    seq![
                        (
                            "tenant"@,
                            JsonVal::Str(
                                match tenant {
                                    Some(t) => t,
                                    None => "default"@,
                                },
                            ),
                        ),
                        (
                            "team"@,
                            match team {
                                Some(t) => JsonVal::Str(t),
                                None => JsonVal::Null,
                            },
                        ),
                        (
                            "correlation_id"@,
                            match correlation {
                                Some(c) => JsonVal::Str(c),
                                None => JsonVal::Null,
                            },
                        ),
                    ],
                ),
            ),
            ("payload"@, payload),
        ],
    )
}

/// Builds the emitted-event document of one processed unit of work.
fn emitted_event_json(
    receipt: &String,
    event_type: &str,
    provider: &str,
    ts: i64,
    handler_id: &Option<String>,
    tenant: &Option<String>,
    team: &Option<String>,
    correlation: &Option<String>,
    payload: &Json,
) -> (r: Json)
    ensures
        r@ == emitted_event_val(
            receipt@,
            event_type@,
            provider@,
            ts as int,
            opt_view(*handler_id),
            opt_view(*tenant),
            opt_view(*team),
            opt_view(*correlation),
            payload@,
        ),
{
    let mut source_fields: Vec<(String, Json)> = Vec::new();
    source_fields.push((String::from_str("domain"), Json::Str(String::from_str("events"))));
    source_fields.push((String::from_str("provider"), Json::Str(String::from_str(provider))));
    source_fields.push(
        (
            String::from_str("handler_id"),
            Json::Str(
                match handler_id {
                    Some(h) => h.clone(),
                    None => String::from_str("default"),
                },
            ),
        ),
    );
    let source_obj = Json::Obj(source_fields);
    proof {
        lemma_jview_fields(source_fields@);
        assert(source_obj@->Obj_0 =~~= emitted_event_val(
            receipt@,
            event_type@,
            provider@,
            ts as int,
            opt_view(*handler_id),
            opt_view(*tenant),
            opt_view(*team),
            opt_view(*correlation),
            payload@,
        )->Obj_0[3].1->Obj_0);
    }
    let mut scope_fields: Vec<(String, Json)> = Vec::new();
    scope_fields.push(
        (
            String::from_str("tenant"),
            Json::Str(
                match tenant {
                    Some(t) => t.clone(),
                    None => String::from_str("default"),
                },
            ),
        ),
    );
    scope_fields.push(
        (
            String::from_str("team"),
            match team {
                Some(t) => Json::Str(t.clone()),
                None => Json::Null,
            },
        ),
    );
    scope_fields.push(
        (
            String::from_str("correlation_id"),
            match correlation {
                Some(c) => Json::Str(c.clone()),
                None => Json::Null,
            },
        ),
    );
    let scope_obj = Json::Obj(scope_fields);
    proof {
        lemma_jview_fields(scope_fields@);
        assert(scope_obj@->Obj_0 =~~= emitted_event_val(
            receipt@,
            event_type@,
            provider@,
            ts as int,
            opt_view(*handler_id),
            opt_view(*tenant),
            opt_view(*team),
            opt_view(*correlation),
            payload@,
        )->Obj_0[4].1->Obj_0);
    }
    let mut fields: Vec<(String, Json)> = Vec::new();
    fields.push((String::from_str("event_id"), Json::Str(receipt.clone())));
    fields.push((String::from_str("event_type"), Json::Str(String::from_str(event_type))));
    fields.push((String::from_str("occurred_at"), Json::Str(crate::sys::format_utc_secs(ts))));
    fields.push((String::from_str("source"), source_obj));
    fields.push((String::from_str("scope"), scope_obj));
    fields.push((String::from_str("payload"), payload.deep_clone()));
    let r = Json::Obj(fields);
    proof {
        lemma_jview_fields(fields@);
        assert(r@->Obj_0 =~~= emitted_event_val(
            receipt@,
            event_type@,
            provider@,
            ts as int,
            opt_view(*handler_id),
            opt_view(*tenant),
            opt_view(*team),
            opt_view(*correlation),
            payload@,
        )->Obj_0);
    }
    r
}

/// Input of the inbound-email ingest operation: configuration, the parsed
/// event, and optional scope and transport attachments.
#[derive(Debug, PartialEq, Eq)]
pub struct IngestInput {
    pub config: MessagingConfig,
    pub event: Json,
    pub handler_id: Option<String>,
    pub tenant: Option<String>,
    pub team: Option<String>,
    pub correlation_id: Option<String>,
    pub http: Option<Json>,
    pub raw: Option<Json>,
}

/// The state key of a queued inbound email.
pub open spec fn ingest_state_key(cfg: MessagingConfig, receipt: Seq<char>) -> Seq<char> {
    state_key_view(
        opt_view(cfg.persistence_key_prefix),
        "events/email/sendgrid/queued"@,
        receipt,
    )
}

/// The emitted event of an ingest, with the transport attachments appended
/// when present.
pub open spec fn ingest_emitted_val(input: IngestInput, receipt: Seq<char>, ts: int) -> JsonVal {
    let base = emitted_event_val(
        receipt,
        "email.received"@,
        "events.email.sendgrid"@,
        ts,
        opt_view(input.handler_id),
        opt_view(input.tenant),
        opt_view(input.team),
        opt_view(input.correlation_id),
        input.event@,
    );
    let with_http = match input.http {
        Some(h) => JsonVal::Obj(base->Obj_0 + seq![("http"@, h@)]),
        None => base,
    };
    match input.raw {
        Some(rw) => JsonVal::Obj(with_http->Obj_0 + seq![("raw"@, rw@)]),
        None => with_http,
    }
}

/// The response of the ingest operation.
pub open spec fn ingest_response_val(receipt: Seq<char>, key: Seq<char>, emitted: JsonVal) -> JsonVal {
    JsonVal::Obj(
        seq![
            ("receipt_id"@, JsonVal::Str(receipt)),
            ("status"@, JsonVal::Str("queued"@)),
            ("state_key"@, JsonVal::Str(key)),
            ("emitted_events"@, JsonVal::Arr(seq![emitted])),
        ],
    )
}

/// The inbound email component's ingest: requires a non-blank messaging
/// provider id, derives the receipt, persists the queued entry, and reports
/// it queued together with the emitted event; a persistence failure is
/// fatal here.
pub fn ingest_http<S: StateStore>(input: &IngestInput, store: &mut S) -> (r: Result<
    Json,
    ProviderError,
>)
    ensures
        blank(input.config.messaging_provider_id@) ==> (r matches Err(e) && e
            matches ProviderError::Config(m) && m@ == "messaging_provider_id is required"@
            && *final(store) == *old(store)),
        !blank(input.config.messaging_provider_id@) ==> exists|
            wr: Result<(), ProviderError>,
            ts: int,
            ts2: int,
        |
            #![trigger S::write_post(
                *old(store),
                *final(store),
                ingest_state_key(input.config, uuid_v5_oid(jbytes(input.event@))),
                jbytes(queued_email_val(input.config, input.event@, ts)),
                wr,
            ), ingest_emitted_val(*input, uuid_v5_oid(jbytes(input.event@)), ts2)]
            {
                &&& S::write_post(
                    *old(store),
                    *final(store),
                    ingest_state_key(input.config, uuid_v5_oid(jbytes(input.event@))),
                    jbytes(queued_email_val(input.config, input.event@, ts)),
                    wr,
                )
                &&& match (wr, r) {
                    (Ok(u), Ok(resp)) => resp@ == ingest_response_val(
                        uuid_v5_oid(jbytes(input.event@)),
                        ingest_state_key(input.config, uuid_v5_oid(jbytes(input.event@))),
                        ingest_emitted_val(*input, uuid_v5_oid(jbytes(input.event@)), ts2),
                    ),
                    (Err(we), Err(re)) => we == re,
                    _ => false,
                }
            },
{
    if is_blank(input.config.messaging_provider_id.as_str()) {
        return Err(ProviderError::Config(String::from_str("messaging_provider_id is required")));
    }
    let receipt_id = stable_receipt_id(&input.event);
    let key = state_key(
        &input.config.persistence_key_prefix,
        "events/email/sendgrid/queued",
        receipt_id.as_str(),
    );
    let ts = crate::sys::now_unix_seconds();
    let mut entry_fields: Vec<(String, Json)> = Vec::new();
    entry_fields.push(
        (
            String::from_str("messaging_provider_id"),
            Json::Str(input.config.messaging_provider_id.clone()),
        ),
    );
    entry_fields.push(
        (
            String::from_str("from"),
            match &input.config.from {
                Some(f) => Json::Str(f.clone()),
                None => Json::Null,
            },
        ),
    );
    entry_fields.push((String::from_str("event"), input.event.deep_clone()));
    entry_fields.push((String::from_str("queued_at"), Json::Str(crate::sys::format_utc_secs(ts))));
    let entry = Json::Obj(entry_fields);
    proof {
        lemma_jview_fields(entry_fields@);
        assert(entry@->Obj_0 =~~= queued_email_val(input.config, input.event@, ts as int)->Obj_0);
        assert(entry@ == queued_email_val(input.config, input.event@, ts as int));
    }
    let bytes = json_to_bytes(&entry);
    let wr = store.write(key.as_str(), &bytes);
    proof {
        assert(key@ == ingest_state_key(input.config, uuid_v5_oid(jbytes(input.event@))));
        assert(S::write_post(
            *old(store),
            *final(store),
            ingest_state_key(input.config, uuid_v5_oid(jbytes(input.event@))),
            jbytes(queued_email_val(input.config, input.event@, ts as int)),
            wr,
        ));
    }
    match wr {
        Ok(_) => {},
        Err(e) => {
            return Err(e);
        },
    }

    let ts2 = crate::sys::now_unix_seconds();
    let base = emitted_event_json(
        &receipt_id,
        "email.received",
        "events.email.sendgrid",
        ts2,
        &input.handler_id,
        &input.tenant,
        &input.team,
        &input.correlation_id,
        &input.event,
    );
    let mut emitted_fields: Vec<(String, Json)> = match base {
        Json::Obj(fs) => fs,
        _ => Vec::new(),
    };
    let ghost base_val = emitted_event_val(
        receipt_id@,
        "email.received"@,
        "events.email.sendgrid"@,
        ts2 as int,
        opt_view(input.handler_id),
        opt_view(input.tenant),
        opt_view(input.team),
        opt_view(input.correlation_id),
        input.event@,
    );
    proof {
        lemma_jview_fields(emitted_fields@);
        assert(jview_fields(emitted_fields@) == base_val->Obj_0);
    }
    match &input.http {
        Some(h) => {
            emitted_fields.push((String::from_str("http"), h.deep_clone()));
        },
        None => {},
    }
    match &input.raw {
        Some(rw) => {
            emitted_fields.push((String::from_str("raw"), rw.deep_clone()));
        },
        None => {},
    }
    let emitted = Json::Obj(emitted_fields);
    proof {
        lemma_jview_fields(emitted_fields@);
        assert(emitted@->Obj_0 =~~= ingest_emitted_val(
            *input,
            uuid_v5_oid(jbytes(input.event@)),
            ts2 as int,
        )->Obj_0);
        assert(emitted@ == ingest_emitted_val(*input, uuid_v5_oid(jbytes(input.event@)), ts2 as int));
    }

    let mut resp_fields: Vec<(String, Json)> = Vec::new();
    resp_fields.push((String::from_str("receipt_id"), Json::Str(receipt_id)));
    resp_fields.push((String::from_str("status"), Json::Str(String::from_str("queued"))));
    resp_fields.push((String::from_str("state_key"), Json::Str(key)));
    let mut emitted_arr: Vec<Json> = Vec::new();
    emitted_arr.push(emitted);
    resp_fields.push((String::from_str("emitted_events"), Json::Arr(emitted_arr)));
    let resp = Json::Obj(resp_fields);
    proof {
        lemma_jview_fields(resp_fields@);
        crate::json::lemma_jview_items(resp_fields@[3].1->Arr_0@);
        assert(resp@->Obj_0 =~~= ingest_response_val(
            uuid_v5_oid(jbytes(input.event@)),
            ingest_state_key(input.config, uuid_v5_oid(jbytes(input.event@))),
            ingest_emitted_val(*input, uuid_v5_oid(jbytes(input.event@)), ts2 as int),
        )->Obj_0);
    }
    Ok(resp)
}

/// Timer configuration of the hosted timer component.
#[derive(Debug, PartialEq, Eq)]
pub struct TimerTickConfig {
    pub timezone: String,
    pub default_delay_seconds: Option<u64>,
    pub persistence_key_prefix: Option<String>,
}

/// Input of the timer tick operation.
#[derive(Debug, PartialEq, Eq)]
pub struct TickInput {
    pub config: TimerTickConfig,
    pub event: Json,
    pub handler_id: Option<String>,
    pub tenant: Option<String>,
    pub team: Option<String>,
    pub correlation_id: Option<String>,
}

/// The state key of a scheduled tick.
pub open spec fn tick_state_key(cfg: TimerTickConfig, receipt: Seq<char>) -> Seq<char> {
    state_key_view(opt_view(cfg.persistence_key_prefix), "events/timer/scheduled"@, receipt)
}

/// The scheduled entry persisted for one tick.
pub open spec fn scheduled_entry_val(event: JsonVal, ts: int) -> JsonVal {
    JsonVal::Obj(
        seq![
            ("event"@, event),
            ("queued_at"@, JsonVal::Str(rfc3339_utc_secs(ts))),
            ("timezone"@, JsonVal::Str("UTC"@)),
            ("default_delay_seconds"@, JsonVal::Null),
        ],
    )
}

/// The response of a tick.
pub open spec fn tick_response_val(receipt: Seq<char>, key: Seq<char>, emitted: JsonVal) -> JsonVal {
    JsonVal::Obj(
        seq![
            ("receipt_id"@, JsonVal::Str(receipt)),
            ("status"@, JsonVal::Str("queued"@)),
            ("state_key"@, JsonVal::Str(key)),
            ("emitted_events"@, JsonVal::Arr(seq![emitted])),
        ],
    )
}

/// The timer component's tick: derives the receipt, persists the scheduled
/// entry under the state key, and reports it queued together with the
/// emitted `timer.tick` event; a persistence failure is fatal here.
pub fn timer_tick<S: StateStore>(input: &TickInput, store: &mut S) -> (r: Result<
    Json,
    ProviderError,
>)
    ensures
        exists|wr: Result<(), ProviderError>, ts: int, ts2: int|
            #![trigger S::write_post(
                *old(store),
                *final(store),
                tick_state_key(input.config, uuid_v5_oid(jbytes(input.event@))),
                jbytes(scheduled_entry_val(input.event@, ts)),
                wr,
            ), rfc3339_utc_secs(ts2)]
            {
                &&& S::write_post(
                    *old(store),
                    *final(store),
                    tick_state_key(input.config, uuid_v5_oid(jbytes(input.event@))),
                    jbytes(scheduled_entry_val(input.event@, ts)),
                    wr,
                )
                &&& match (wr, r) {
                    (Ok(u), Ok(resp)) => resp@ == tick_response_val(
                        uuid_v5_oid(jbytes(input.event@)),
                        tick_state_key(input.config, uuid_v5_oid(jbytes(input.event@))),
                        emitted_event_val(
                            uuid_v5_oid(jbytes(input.event@)),
                            "timer.tick"@,
                            "events.timer"@,
                            ts2,
                            opt_view(input.handler_id),
                            opt_view(input.tenant),
                            opt_view(input.team),
                            opt_view(input.correlation_id),
                            input.event@,
                        ),
                    ),
                    (Err(we), Err(re)) => we == re,
                    _ => false,
                }
            },
{
    let receipt_id = stable_receipt_id(&input.event);
    let key = state_key(
        &input.config.persistence_key_prefix,
        "events/timer/scheduled",
        receipt_id.as_str(),
    );
    let ts = crate::sys::now_unix_seconds();
    let mut entry_fields: Vec<(String, Json)> = Vec::new();
    entry_fields.push((String::from_str("event"), input.event.deep_clone()));
    entry_fields.push((String::from_str("queued_at"), Json::Str(crate::sys::format_utc_secs(ts))));
    entry_fields.push((String::from_str("timezone"), Json::Str(default_timezone())));
    entry_fields.push((String::from_str("default_delay_seconds"), Json::Null));
    let entry = Json::Obj(entry_fields);
    proof {
        lemma_jview_fields(entry_fields@);
        assert(entry@->Obj_0 =~~= scheduled_entry_val(input.event@, ts as int)->Obj_0);
        assert(entry@ == scheduled_entry_val(input.event@, ts as int));
    }
    let bytes = json_to_bytes(&entry);
    let wr = store.write(key.as_str(), &bytes);
    proof {
        assert(key@ == tick_state_key(input.config, uuid_v5_oid(jbytes(input.event@))));
        assert(S::write_post(
            *old(store),
            *final(store),
            tick_state_key(input.config, uuid_v5_oid(jbytes(input.event@))),
            jbytes(scheduled_entry_val(input.event@, ts as int)),
            wr,
        ));
    }
    match wr {
        Ok(_) => {},
        Err(e) => {
            return Err(e);
        },
    }

    let ts2 = crate::sys::now_unix_seconds();
    let emitted = emitted_event_json(
        &receipt_id,
        "timer.tick",
        "events.timer",
        ts2,
        &input.handler_id,
        &input.tenant,
        &input.team,
        &input.correlation_id,
        &input.event,
    );

    let mut resp_fields: Vec<(String, Json)> = Vec::new();
    resp_fields.push((String::from_str("receipt_id"), Json::Str(receipt_id)));
    resp_fields.push((String::from_str("status"), Json::Str(String::from_str("queued"))));
    resp_fields.push((String::from_str("state_key"), Json::Str(key)));
    let mut emitted_arr: Vec<Json> = Vec::new();
    emitted_arr.push(emitted);
    resp_fields.push((String::from_str("emitted_events"), Json::Arr(emitted_arr)));
    let resp = Json::Obj(resp_fields);
    proof {
        lemma_jview_fields(resp_fields@);
        crate::json::lemma_jview_items(resp_fields@[3].1->Arr_0@);
        assert(resp@->Obj_0 =~~= tick_response_val(
            uuid_v5_oid(jbytes(input.event@)),
            tick_state_key(input.config, uuid_v5_oid(jbytes(input.event@))),
            emitted_event_val(
                uuid_v5_oid(jbytes(input.event@)),
                "timer.tick"@,
                "events.timer"@,
                ts2 as int,
                opt_view(input.handler_id),
                opt_view(input.tenant),
                opt_view(input.team),
                opt_view(input.correlation_id),
                input.event@,
            ),
        )->Obj_0);
    }
    Ok(resp)
}

/// Outbound webhook configuration of the hosted webhook component.
#[derive(Debug, PartialEq, Eq)]
pub struct WebhookPublishConfig {
    pub target_url: String,
    pub method: String,
    pub headers: Metadata,
    /// Optional bearer token attached as an `authorization` header when the
    /// configured headers carry none.
    pub auth: Option<String>,
    pub timeout_ms: Option<u64>,
}

/// The headers of the built request: the configured headers, with
/// `content-type` defaulted to JSON and, when a token is configured, an
/// `authorization` bearer header — existing entries are left alone.
pub open spec fn webhook_publish_headers(
    configured: Seq<(Seq<char>, Seq<char>)>,
    auth: Option<Seq<char>>,
) -> Seq<(Seq<char>, Seq<char>)> {
    let h1 = md_insert_absent(configured, "content-type"@, "application/json"@);
    match auth {
        Some(t) => md_insert_absent(h1, "authorization"@, "Bearer "@ + t),
        None => h1,
    }
}

/// Builds the outbound request of the webhook component: the configured
/// method uppercased, the target URL, defaulted headers, and a body that
/// wraps the event under an `event` field. A blank target URL is a `Config`
/// error.
pub fn build_request(config: &WebhookPublishConfig, event: &Json) -> (r: Result<
    crate::webhook::OutgoingWebhookRequest,
    ProviderError,
>)
    requires
        config.headers.wf(),
    ensures
        blank(config.target_url@) ==> (r matches Err(e) && e matches ProviderError::Config(m)
            && m@ == "target_url is required"@),
        !blank(config.target_url@) ==> (r matches Ok(req) && {
            &&& req.method@ == crate::sys::upper_of(config.method@)
            &&& req.url@ == config.target_url@
            &&& req.headers@ == webhook_publish_headers(config.headers@, opt_view(config.auth))
            &&& req.body@ == JsonVal::Obj(seq![("event"@, event@)])
        }),
{
    if is_blank(config.target_url.as_str()) {
        return Err(ProviderError::Config(String::from_str("target_url is required")));
    }
    let mut headers = config.headers.clone_md();
    headers.insert_absent(
        String::from_str("content-type"),
        String::from_str("application/json"),
    );
    match &config.auth {
        Some(token) => {
            headers.insert_absent(
                String::from_str("authorization"),
                String::from_str("Bearer ").concat(token.as_str()),
            );
        },
        None => {},
    }
    let mut body_fields: Vec<(String, Json)> = Vec::new();
    body_fields.push((String::from_str("event"), event.deep_clone()));
    let body = Json::Obj(body_fields);
    proof {
        lemma_jview_fields(body_fields@);
        assert(body@->Obj_0 =~~= JsonVal::Obj(seq![("event"@, event@)])->Obj_0);
    }
    Ok(
        crate::webhook::OutgoingWebhookRequest {
            method: crate::sys::uppercase(config.method.as_str()),
            url: config.target_url.clone(),
            headers,
            body,
        },
    )
}

/// The built request embedded as a document.
pub open spec fn outgoing_request_val(req: crate::webhook::OutgoingWebhookRequest) -> JsonVal {
    JsonVal::Obj(
        seq![
            ("method"@, JsonVal::Str(req.method@)),
            ("url"@, JsonVal::Str(req.url@)),
            ("headers"@, crate::events::md_val(req.headers@)),
            ("body"@, req.body@),
        ],
    )
}

/// The response of the webhook component's publish.
pub open spec fn webhook_publish_val(
    receipt: Seq<char>,
    dispatched: bool,
    request: crate::webhook::OutgoingWebhookRequest,
) -> JsonVal {
    JsonVal::Obj(
        seq![
            ("receipt_id"@, JsonVal::Str(receipt)),
            (
                "status"@,
                JsonVal::Str(
                    if dispatched {
                        "published"@
                    } else {
                        "queued"@
                    },
                ),
            ),
            ("dispatched"@, JsonVal::Bool(dispatched)),
            ("request"@, outgoing_request_val(request)),
        ],
    )
}

/// The webhook component's publish response: the event's receipt, the
/// request the host should execute, and whether the host's dispatch
/// succeeded — a failed dispatch reports the work queued, not an error.
pub fn webhook_publish_response(
    event: &Json,
    request: &crate::webhook::OutgoingWebhookRequest,
    dispatched: bool,
) -> (r: Json)
    ensures
        r@ == webhook_publish_val(uuid_v5_oid(jbytes(event@)), dispatched, *request),
{
    let receipt_id = stable_receipt_id(event);
    let mut req_fields: Vec<(String, Json)> = Vec::new();
    req_fields.push((String::from_str("method"), Json::Str(request.method.clone())));
    req_fields.push((String::from_str("url"), Json::Str(request.url.clone())));
    req_fields.push((String::from_str("headers"), crate::events::metadata_to_json(&request.headers)));
    req_fields.push((String::from_str("body"), request.body.deep_clone()));
    let req_obj = Json::Obj(req_fields);
    proof {
        lemma_jview_fields(req_fields@);
        assert(req_obj@->Obj_0 =~~= outgoing_request_val(*request)->Obj_0);
    }
    let mut fields: Vec<(String, Json)> = Vec::new();
    fields.push((String::from_str("receipt_id"), Json::Str(receipt_id)));
    fields.push(
        (
            String::from_str("status"),
            Json::Str(
                if dispatched {
                    String::from_str("published")
                } else {
                    String::from_str("queued")
                },
            ),
        ),
    );
    fields.push((String::from_str("dispatched"), Json::Bool(dispatched)));
    fields.push((String::from_str("request"), req_obj));
    let r = Json::Obj(fields);
    proof {
        lemma_jview_fields(fields@);
        assert(r@->Obj_0 =~~= webhook_publish_val(
            uuid_v5_oid(jbytes(event@)),
            dispatched,
            *request,
        )->Obj_0);
    }
    r
}

} // verus!

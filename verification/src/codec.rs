//! Document encodings of the configuration and envelope shapes, with their
//! round-trip guarantees: every shape encodes to a document and decodes
//! back to an identical value.

use vstd::prelude::*;
use vstd::string::StringExecFns;
use crate::events::EventEnvelope;
use crate::events::Metadata;
use crate::events::md_val;
use crate::events::metadata_to_json;
use crate::json::Json;
use crate::json::JsonVal;
use crate::json::lemma_jview_fields;
use crate::json::lemma_jview_items;
use crate::json::str_eq;
use crate::tenant::TenantCtx;
use crate::timer::Schedule;
use crate::timer::SchedulerConfig;
use crate::webhook::HttpEndpointConfig;
use crate::webhook::WebhookRoute;

verus! {

/// The document of an optional string: the string, or null.
pub open spec fn opt_str_val(o: Option<Seq<char>>) -> JsonVal {
    match o {
        Some(s) => JsonVal::Str(s),
        None => JsonVal::Null,
    }
}

/// The document of a webhook route.
pub open spec fn route_enc(r: WebhookRoute) -> JsonVal {
    JsonVal::Obj(
        seq![
            ("path"@, JsonVal::Str(r.path@)),
            ("secret_ref"@, opt_str_val(crate::events::opt_view(r.secret_ref))),
            ("topic_prefix"@, JsonVal::Str(r.topic_prefix@)),
        ],
    )
}

/// A document with the exact shape of an encoded webhook route.
pub open spec fn is_route_doc(v: JsonVal) -> bool {
    &&& v matches JsonVal::Obj(fs)
    &&& fs.len() == 3
    &&& fs[0].0 == "path"@ && fs[0].1 is Str
    &&& fs[1].0 == "secret_ref"@ && (fs[1].1 is Str || fs[1].1 is Null)
    &&& fs[2].0 == "topic_prefix"@ && fs[2].1 is Str
}

/// Encodes a webhook route.
pub fn route_to_json(r: &WebhookRoute) -> (out: Json)
    ensures
        out@ == route_enc(*r),
        is_route_doc(out@),
{
    let mut fields: Vec<(String, Json)> = Vec::new();
    fields.push((String::from_str("path"), Json::Str(r.path.clone())));
    fields.push(
        (
            String::from_str("secret_ref"),
            match &r.secret_ref {
                Some(s) => Json::Str(s.clone()),
                None => Json::Null,
            },
        ),
    );
    fields.push((String::from_str("topic_prefix"), Json::Str(r.topic_prefix.clone())));
    let out = Json::Obj(fields);
    proof {
        lemma_jview_fields(fields@);
        assert(out@->Obj_0 =~~= route_enc(*r)->Obj_0);
        assert(out@ == route_enc(*r));
    }
    out
}

/// Decodes a webhook route: exactly the encoded shape is accepted, and the
/// decoded route re-encodes to the given document.
pub fn route_from_json(v: &Json) -> (out: Option<WebhookRoute>)
    ensures
        match out {
            Some(r) => route_enc(r) == v@ && is_route_doc(v@),
            None => !is_route_doc(v@),
        },
{
    match v {
        Json::Obj(fields) => {
            proof {
                lemma_jview_fields(fields@);
            }
            if fields.len() != 3 {
                return None;
            }
            if !str_eq(fields[0].0.as_str(), "path") {
                return None;
            }
            if !str_eq(fields[1].0.as_str(), "secret_ref") {
                return None;
            }
            if !str_eq(fields[2].0.as_str(), "topic_prefix") {
                return None;
            }
            let path = match &fields[0].1 {
                Json::Str(s) => s.clone(),
                _ => {
                    return None;
                },
            };
            let secret_ref = match &fields[1].1 {
                Json::Str(s) => Some(s.clone()),
                Json::Null => None,
                _ => {
                    return None;
                },
            };
            let topic_prefix = match &fields[2].1 {
                Json::Str(s) => s.clone(),
                _ => {
                    return None;
                },
            };
            let r = WebhookRoute { path, secret_ref, topic_prefix };
            proof {
                assert(route_enc(r)->Obj_0 =~~= v@->Obj_0);
            }
            Some(r)
        },
        _ => None,
    }
}

/// The document of an endpoint configuration.
pub open spec fn endpoint_enc(c: HttpEndpointConfig) -> JsonVal {
    JsonVal::Obj(
        seq![
            ("base_path"@, JsonVal::Str(c.base_path@)),
            (
                "routes"@,
                JsonVal::Arr(Seq::new(c.routes@.len(), |i: int| route_enc(c.routes@[i]))),
            ),
        ],
    )
}

/// A document with the exact shape of an encoded endpoint configuration.
pub open spec fn is_endpoint_doc(v: JsonVal) -> bool {
    &&& v matches JsonVal::Obj(fs)
    &&& fs.len() == 2
    &&& fs[0].0 == "base_path"@ && fs[0].1 is Str
    &&& fs[1].0 == "routes"@
    &&& fs[1].1 matches JsonVal::Arr(items) && (forall|i: int|
        0 <= i < items.len() ==> is_route_doc(#[trigger] items[i]))
}

/// Encodes an endpoint configuration.
pub fn endpoint_to_json(c: &HttpEndpointConfig) -> (out: Json)
    ensures
        out@ == endpoint_enc(*c),
        is_endpoint_doc(out@),
{
    let n = c.routes.len();
    let mut items: Vec<Json> = Vec::new();
    let mut i: usize = 0;
    #[verifier::loop_isolation(false)]
    while i < n
        invariant
            0 <= i <= n,
            items@.len() == i,
            forall|k: int| 0 <= k < i ==> crate::json::jview(#[trigger] items@[k]) == route_enc(
                c.routes@[k],
            ) && is_route_doc(crate::json::jview(items@[k])),
        decreases n - i,
    {
        let rj = route_to_json(&c.routes[i]);
        items.push(rj);
        i += 1;
    }
    let routes_json = Json::Arr(items);
    proof {
        lemma_jview_items(items@);
        assert(routes_json@->Arr_0 =~~= endpoint_enc(*c)->Obj_0[1].1->Arr_0);
    }
    let mut fields: Vec<(String, Json)> = Vec::new();
    fields.push((String::from_str("base_path"), Json::Str(c.base_path.clone())));
    fields.push((String::from_str("routes"), routes_json));
    let out = Json::Obj(fields);
    proof {
        lemma_jview_fields(fields@);
        assert(out@->Obj_0 =~~= endpoint_enc(*c)->Obj_0);
        assert(out@ == endpoint_enc(*c));
    }
    out
}

/// Decodes an endpoint configuration: exactly the encoded shape is
/// accepted, and the decoded configuration re-encodes to the given document.
pub fn endpoint_from_json(v: &Json) -> (out: Option<HttpEndpointConfig>)
    ensures
        match out {
            Some(c) => endpoint_enc(c) == v@ && is_endpoint_doc(v@),
            None => !is_endpoint_doc(v@),
        },
{
    match v {
        Json::Obj(fields) => {
            proof {
                lemma_jview_fields(fields@);
            }
            if fields.len() != 2 {
                return None;
            }
            if !str_eq(fields[0].0.as_str(), "base_path") {
                return None;
            }
            if !str_eq(fields[1].0.as_str(), "routes") {
                return None;
            }
            let base_path = match &fields[0].1 {
                Json::Str(s) => s.clone(),
                _ => {
                    return None;
                },
            };
            let items = match &fields[1].1 {
                Json::Arr(items) => items,
                _ => {
                    return None;
                },
            };
            proof {
                lemma_jview_items(items@);
            }
            let n = items.len();
            let mut routes: Vec<WebhookRoute> = Vec::new();
            let mut i: usize = 0;
            #[verifier::loop_isolation(false)]
            while i < n
                invariant
                    0 <= i <= n,
                    routes@.len() == i,
                    forall|k: int| 0 <= k < i ==> route_enc(#[trigger] routes@[k])
                        == crate::json::jview(items@[k]) && is_route_doc(
                        crate::json::jview(items@[k]),
                    ),
                decreases n - i,
            {
                match route_from_json(&items[i]) {
                    Some(r) => {
                        routes.push(r);
                    },
                    None => {
                        proof {
                            assert(!is_route_doc(v@->Obj_0[1].1->Arr_0[i as int]));
                        }
                        return None;
                    },
                }
                i += 1;
            }
            let c = HttpEndpointConfig { base_path, routes };
            proof {
                assert(endpoint_enc(c)->Obj_0[1].1->Arr_0 =~~= v@->Obj_0[1].1->Arr_0);
                assert(endpoint_enc(c)->Obj_0 =~~= v@->Obj_0);
            }
            Some(c)
        },
        _ => None,
    }
}

/// The document of a schedule.
pub open spec fn schedule_enc(s: Schedule) -> JsonVal {
    JsonVal::Obj(
        seq![
            ("name"@, JsonVal::Str(s.name@)),
            ("cron"@, JsonVal::Str(s.cron@)),
            ("topic"@, JsonVal::Str(s.topic@)),
            ("payload"@, s.payload@),
        ],
    )
}

/// A document with the exact shape of an encoded schedule.
pub open spec fn is_schedule_doc(v: JsonVal) -> bool {
    &&& v matches JsonVal::Obj(fs)
    &&& fs.len() == 4
    &&& fs[0].0 == "name"@ && fs[0].1 is Str
    &&& fs[1].0 == "cron"@ && fs[1].1 is Str
    &&& fs[2].0 == "topic"@ && fs[2].1 is Str
    &&& fs[3].0 == "payload"@
}

/// Encodes a schedule.
pub fn schedule_to_json(s: &Schedule) -> (out: Json)
    ensures
        out@ == schedule_enc(*s),
        is_schedule_doc(out@),
{
    let mut fields: Vec<(String, Json)> = Vec::new();
    fields.push((String::from_str("name"), Json::Str(s.name.clone())));
    fields.push((String::from_str("cron"), Json::Str(s.cron.clone())));
    fields.push((String::from_str("topic"), Json::Str(s.topic.clone())));
    fields.push((String::from_str("payload"), s.payload.deep_clone()));
    let out = Json::Obj(fields);
    proof {
        lemma_jview_fields(fields@);
        assert(out@->Obj_0 =~~= schedule_enc(*s)->Obj_0);
        assert(out@ == schedule_enc(*s));
    }
    out
}

/// Decodes a schedule: exactly the encoded shape is accepted, and the
/// decoded schedule re-encodes to the given document.
pub fn schedule_from_json(v: &Json) -> (out: Option<Schedule>)
    ensures
        match out {
            Some(s) => schedule_enc(s) == v@ && is_schedule_doc(v@),
            None => !is_schedule_doc(v@),
        },
{
    match v {
        Json::Obj(fields) => {
            proof {
                lemma_jview_fields(fields@);
            }
            if fields.len() != 4 {
                return None;
            }
            if !str_eq(fields[0].0.as_str(), "name") {
                return None;
            }
            if !str_eq(fields[1].0.as_str(), "cron") {
                return None;
            }
            if !str_eq(fields[2].0.as_str(), "topic") {
                return None;
            }
            if !str_eq(fields[3].0.as_str(), "payload") {
                return None;
            }
            let name = match &fields[0].1 {
                Json::Str(s) => s.clone(),
                _ => {
                    return None;
                },
            };
            let cron = match &fields[1].1 {
                Json::Str(s) => s.clone(),
                _ => {
                    return None;
                },
            };
            let topic = match &fields[2].1 {
                Json::Str(s) => s.clone(),
                _ => {
                    return None;
                },
            };
            let payload = fields[3].1.deep_clone();
            let s = Schedule { name, cron, topic, payload };
            proof {
                assert(schedule_enc(s)->Obj_0 =~~= v@->Obj_0);
            }
            Some(s)
        },
        _ => None,
    }
}

/// The document of a scheduler configuration.
pub open spec fn scheduler_enc(c: SchedulerConfig) -> JsonVal {
    JsonVal::Obj(
        seq![
            (
                "schedules"@,
                JsonVal::Arr(Seq::new(c.schedules@.len(), |i: int| schedule_enc(c.schedules@[i]))),
            ),
        ],
    )
}

/// A document with the exact shape of an encoded scheduler configuration.
pub open spec fn is_scheduler_doc(v: JsonVal) -> bool {
    &&& v matches JsonVal::Obj(fs)
    &&& fs.len() == 1
    &&& fs[0].0 == "schedules"@
    &&& fs[0].1 matches JsonVal::Arr(items) && (forall|i: int|
        0 <= i < items.len() ==> is_schedule_doc(#[trigger] items[i]))
}

/// Encodes a scheduler configuration.
pub fn scheduler_to_json(c: &SchedulerConfig) -> (out: Json)
    ensures
        out@ == scheduler_enc(*c),
        is_scheduler_doc(out@),
{
    let n = c.schedules.len();
    let mut items: Vec<Json> = Vec::new();
    let mut i: usize = 0;
    #[verifier::loop_isolation(false)]
    while i < n
        invariant
            0 <= i <= n,
            items@.len() == i,
            forall|k: int| 0 <= k < i ==> crate::json::jview(#[trigger] items@[k]) == schedule_enc(
                c.schedules@[k],
            ) && is_schedule_doc(crate::json::jview(items@[k])),
        decreases n - i,
    {
        let sj = schedule_to_json(&c.schedules[i]);
        items.push(sj);
        i += 1;
    }
    let arr = Json::Arr(items);
    proof {
        lemma_jview_items(items@);
        assert(arr@->Arr_0 =~~= scheduler_enc(*c)->Obj_0[0].1->Arr_0);
    }
    let mut fields: Vec<(String, Json)> = Vec::new();
    fields.push((String::from_str("schedules"), arr));
    let out = Json::Obj(fields);
    proof {
        lemma_jview_fields(fields@);
        assert(out@->Obj_0 =~~= scheduler_enc(*c)->Obj_0);
        assert(out@ == scheduler_enc(*c));
    }
    out
}

/// Decodes a scheduler configuration: exactly the encoded shape is
/// accepted, and the decoded configuration re-encodes to the given document.
pub fn scheduler_from_json(v: &Json) -> (out: Option<SchedulerConfig>)
    ensures
        match out {
            Some(c) => scheduler_enc(c) == v@ && is_scheduler_doc(v@),
            None => !is_scheduler_doc(v@),
        },
{
    match v {
        Json::Obj(fields) => {
            proof {
                lemma_jview_fields(fields@);
            }
            if fields.len() != 1 {
                return None;
            }
            if !str_eq(fields[0].0.as_str(), "schedules") {
                return None;
            }
            let items = match &fields[0].1 {
                Json::Arr(items) => items,
                _ => {
                    return None;
                },
            };
            proof {
                lemma_jview_items(items@);
            }
            let n = items.len();
            let mut schedules: Vec<Schedule> = Vec::new();
            let mut i: usize = 0;
            #[verifier::loop_isolation(false)]
            while i < n
                invariant
                    0 <= i <= n,
                    schedules@.len() == i,
                    forall|k: int| 0 <= k < i ==> schedule_enc(#[trigger] schedules@[k])
                        == crate::json::jview(items@[k]) && is_schedule_doc(
                        crate::json::jview(items@[k]),
                    ),
                decreases n - i,
            {
                match schedule_from_json(&items[i]) {
                    Some(s) => {
                        schedules.push(s);
                    },
                    None => {
                        proof {
                            assert(!is_schedule_doc(v@->Obj_0[0].1->Arr_0[i as int]));
                        }
                        return None;
                    },
                }
                i += 1;
            }
            let c = SchedulerConfig { schedules };
            proof {
                assert(scheduler_enc(c)->Obj_0[0].1->Arr_0 =~~= v@->Obj_0[0].1->Arr_0);
                assert(scheduler_enc(c)->Obj_0 =~~= v@->Obj_0);
            }
            Some(c)
        },
        _ => None,
    }
}

/// Law: decoding is the inverse of encoding — every webhook route, endpoint
/// configuration, schedule and scheduler configuration re-encodes from its
/// decoded document to the identical document, and two values with one
/// encoding agree in every field of the model.
pub proof fn lemma_route_enc_injective(a: WebhookRoute, b: WebhookRoute)
    requires
        route_enc(a) == route_enc(b),
    ensures
        a.path@ == b.path@,
        crate::events::opt_view(a.secret_ref) == crate::events::opt_view(b.secret_ref),
        a.topic_prefix@ == b.topic_prefix@,
{
    assert(route_enc(a)->Obj_0[0] == route_enc(b)->Obj_0[0]);
    assert(route_enc(a)->Obj_0[1] == route_enc(b)->Obj_0[1]);
    assert(route_enc(a)->Obj_0[2] == route_enc(b)->Obj_0[2]);
}

/// Law: two schedules with one encoding agree in every field of the model.
pub proof fn lemma_schedule_enc_injective(a: Schedule, b: Schedule)
    requires
        schedule_enc(a) == schedule_enc(b),
    ensures
        a.name@ == b.name@,
        a.cron@ == b.cron@,
        a.topic@ == b.topic@,
        a.payload@ == b.payload@,
{
    assert(schedule_enc(a)->Obj_0[0] == schedule_enc(b)->Obj_0[0]);
    assert(schedule_enc(a)->Obj_0[1] == schedule_enc(b)->Obj_0[1]);
    assert(schedule_enc(a)->Obj_0[2] == schedule_enc(b)->Obj_0[2]);
    assert(schedule_enc(a)->Obj_0[3] == schedule_enc(b)->Obj_0[3]);
}

/// The document of a tenant context.
pub open spec fn tenant_enc(t: TenantCtx) -> JsonVal {
    JsonVal::Obj(
        seq![
            ("env"@, JsonVal::Str(t.env@)),
            ("tenant"@, JsonVal::Str(t.tenant@)),
            ("team"@, opt_str_val(crate::events::opt_view(t.team))),
            ("user"@, opt_str_val(crate::events::opt_view(t.user))),
        ],
    )
}

/// A document with the exact shape of an encoded tenant context.
pub open spec fn is_tenant_doc(v: JsonVal) -> bool {
    &&& v matches JsonVal::Obj(fs)
    &&& fs.len() == 4
    &&& fs[0].0 == "env"@ && fs[0].1 is Str
    &&& fs[1].0 == "tenant"@ && fs[1].1 is Str
    &&& fs[2].0 == "team"@ && (fs[2].1 is Str || fs[2].1 is Null)
    &&& fs[3].0 == "user"@ && (fs[3].1 is Str || fs[3].1 is Null)
}

/// Encodes a tenant context.
pub fn tenant_to_json(t: &TenantCtx) -> (out: Json)
    ensures
        out@ == tenant_enc(*t),
        is_tenant_doc(out@),
{
    let mut fields: Vec<(String, Json)> = Vec::new();
    fields.push((String::from_str("env"), Json::Str(t.env.clone())));
    fields.push((String::from_str("tenant"), Json::Str(t.tenant.clone())));
    fields.push(
        (
            String::from_str("team"),
            match &t.team {
                Some(s) => Json::Str(s.clone()),
                None => Json::Null,
            },
        ),
    );
    fields.push(
        (
            String::from_str("user"),
            match &t.user {
                Some(s) => Json::Str(s.clone()),
                None => Json::Null,
            },
        ),
    );
    let out = Json::Obj(fields);
    proof {
        lemma_jview_fields(fields@);
        assert(out@->Obj_0 =~~= tenant_enc(*t)->Obj_0);
        assert(out@ == tenant_enc(*t));
    }
    out
}

/// Decodes a tenant context: exactly the encoded shape is accepted, and the
/// decoded context re-encodes to the given document.
pub fn tenant_from_json(v: &Json) -> (out: Option<TenantCtx>)
    ensures
        match out {
            Some(t) => tenant_enc(t) == v@ && is_tenant_doc(v@),
            None => !is_tenant_doc(v@),
        },
{
    match v {
        Json::Obj(fields) => {
            proof {
                lemma_jview_fields(fields@);
            }
            if fields.len() != 4 {
                return None;
            }
            if !str_eq(fields[0].0.as_str(), "env") {
                return None;
            }
            if !str_eq(fields[1].0.as_str(), "tenant") {
                return None;
            }
            if !str_eq(fields[2].0.as_str(), "team") {
                return None;
            }
            if !str_eq(fields[3].0.as_str(), "user") {
                return None;
            }
            let env = match &fields[0].1 {
                Json::Str(s) => s.clone(),
                _ => {
                    return None;
                },
            };
            let tenant = match &fields[1].1 {
                Json::Str(s) => s.clone(),
                _ => {
                    return None;
                },
            };
            let team = match &fields[2].1 {
                Json::Str(s) => Some(s.clone()),
                Json::Null => None,
                _ => {
                    return None;
                },
            };
            let user = match &fields[3].1 {
                Json::Str(s) => Some(s.clone()),
                Json::Null => None,
                _ => {
                    return None;
                },
            };
            let t = TenantCtx { env, tenant, team, user };
            proof {
                assert(tenant_enc(t)->Obj_0 =~~= v@->Obj_0);
            }
            Some(t)
        },
        _ => None,
    }
}

/// A document with the exact shape of an embedded metadata map: an object
/// of string values with pairwise distinct keys.
pub open spec fn is_md_doc(v: JsonVal) -> bool {
    &&& v matches JsonVal::Obj(fs)
    &&& forall|i: int| 0 <= i < fs.len() ==> (#[trigger] fs[i]).1 is Str
    &&& forall|i: int, j: int| 0 <= i < j < fs.len() ==> (#[trigger] fs[i]).0 != (
    #[trigger] fs[j]).0
}

/// Decodes a metadata map: an object of string values with distinct keys is
/// accepted, and the decoded map re-embeds as the given document.
pub fn metadata_from_json(v: &Json) -> (out: Option<Metadata>)
    ensures
        match out {
            Some(m) => md_val(m@) == v@ && m.wf() && is_md_doc(v@),
            None => !is_md_doc(v@),
        },
{
    match v {
        Json::Obj(fields) => {
            proof {
                lemma_jview_fields(fields@);
            }
            let n = fields.len();
            let mut md = Metadata::new();
            let mut i: usize = 0;
            #[verifier::loop_isolation(false)]
            while i < n
                invariant
                    0 <= i <= n,
                    md.wf(),
                    md@.len() == i,
                    forall|k: int| 0 <= k < i ==> crate::json::jview(
                        #[trigger] fields@[k].1,
                    ) is Str,
                    forall|k: int| 0 <= k < i ==> (#[trigger] md@[k]) == (
                        fields@[k].0@,
                        crate::json::jview(fields@[k].1)->Str_0,
                    ),
                decreases n - i,
            {
                let value = match &fields[i].1 {
                    Json::Str(s) => s.clone(),
                    _ => {
                        proof {
                            assert(v@->Obj_0[i as int].1 == crate::json::jview(
                                fields@[i as int].1,
                            ));
                        }
                        return None;
                    },
                };
                match md.get(fields[i].0.as_str()) {
                    Some(_) => {
                        proof {
                            crate::events::lemma_md_lookup_found(md@, fields@[i as int].0@);
                            let k = choose|k: int|
                                0 <= k < md@.len() && (#[trigger] md@[k]).0 == fields@[
                                    i as int].0@;
                            assert(v@->Obj_0[k].0 == v@->Obj_0[i as int].0);
                        }
                        return None;
                    },
                    None => {},
                }
                proof {
                    crate::events::lemma_md_lookup_none(md@, fields@[i as int].0@);
                    crate::events::lemma_md_insert_append(md@, fields@[i as int].0@, value@);
                }
                md.insert(fields[i].0.clone(), value);
                i += 1;
            }
            proof {
                assert(md_val(md@)->Obj_0 =~~= v@->Obj_0);
                assert(forall|a: int, b: int|
                    0 <= a < b < v@->Obj_0.len() ==> (#[trigger] v@->Obj_0[a]).0 != (
                    #[trigger] v@->Obj_0[b]).0) by {
                    assert(forall|a: int| 0 <= a < md@.len() ==> (#[trigger] md@[a]).0 == v@
                        ->Obj_0[a].0);
                }
            }
            Some(md)
        },
        _ => None,
    }
}

/// The document of an event envelope: every field embedded, the tenant and
/// metadata as nested objects, the time as Unix seconds.
pub open spec fn envelope_enc(e: EventEnvelope) -> JsonVal {
    JsonVal::Obj(
        seq![
            ("id"@, JsonVal::Str(e.id@)),
            ("topic"@, JsonVal::Str(e.topic@)),
            ("type"@, JsonVal::Str(e.type_@)),
            ("source"@, JsonVal::Str(e.source@)),
            ("tenant"@, tenant_enc(e.tenant)),
            ("subject"@, opt_str_val(crate::events::opt_view(e.subject))),
            ("time"@, JsonVal::Int(e.time as int)),
            ("correlation_id"@, opt_str_val(crate::events::opt_view(e.correlation_id))),
            ("payload"@, e.payload@),
            ("metadata"@, md_val(e.metadata@)),
        ],
    )
}

/// A document with the exact shape of an encoded envelope.
pub open spec fn is_envelope_doc(v: JsonVal) -> bool {
    &&& v matches JsonVal::Obj(fs)
    &&& fs.len() == 10
    &&& fs[0].0 == "id"@ && fs[0].1 is Str
    &&& fs[1].0 == "topic"@ && fs[1].1 is Str
    &&& fs[2].0 == "type"@ && fs[2].1 is Str
    &&& fs[3].0 == "source"@ && fs[3].1 is Str
    &&& fs[4].0 == "tenant"@ && is_tenant_doc(fs[4].1)
    &&& fs[5].0 == "subject"@ && (fs[5].1 is Str || fs[5].1 is Null)
    &&& fs[6].0 == "time"@
    &&& fs[6].1 matches JsonVal::Int(t) && i64::MIN <= t <= i64::MAX
    &&& fs[7].0 == "correlation_id"@ && (fs[7].1 is Str || fs[7].1 is Null)
    &&& fs[8].0 == "payload"@
    &&& fs[9].0 == "metadata"@ && is_md_doc(fs[9].1)
}

/// Encodes an event envelope.
pub fn envelope_to_json(e: &EventEnvelope) -> (out: Json)
    requires
        e.metadata.wf(),
    ensures
        out@ == envelope_enc(*e),
        is_envelope_doc(out@),
{
    let mut fields: Vec<(String, Json)> = Vec::new();
    fields.push((String::from_str("id"), Json::Str(e.id.clone())));
    fields.push((String::from_str("topic"), Json::Str(e.topic.clone())));
    fields.push((String::from_str("type"), Json::Str(e.type_.clone())));
    fields.push((String::from_str("source"), Json::Str(e.source.clone())));
    fields.push((String::from_str("tenant"), tenant_to_json(&e.tenant)));
    fields.push(
        (
            String::from_str("subject"),
            match &e.subject {
                Some(s) => Json::Str(s.clone()),
                None => Json::Null,
            },
        ),
    );
    fields.push((String::from_str("time"), Json::Int(e.time)));
    fields.push(
        (
            String::from_str("correlation_id"),
            match &e.correlation_id {
                Some(s) => Json::Str(s.clone()),
                None => Json::Null,
            },
        ),
    );
    fields.push((String::from_str("payload"), e.payload.deep_clone()));
    fields.push((String::from_str("metadata"), metadata_to_json(&e.metadata)));
    let out = Json::Obj(fields);
    proof {
        lemma_jview_fields(fields@);
        assert(out@->Obj_0 =~~= envelope_enc(*e)->Obj_0);
        assert(out@ == envelope_enc(*e));
        assert(out@->Obj_0[9].1->Obj_0 == md_val(e.metadata@)->Obj_0);
    }
    out
}

/// Decodes an event envelope: exactly the encoded shape is accepted, and
/// the decoded envelope re-encodes to the given document.
pub fn envelope_from_json(v: &Json) -> (out: Option<EventEnvelope>)
    ensures
        match out {
            Some(e) => envelope_enc(e) == v@ && e.metadata.wf() && is_envelope_doc(v@),
            None => !is_envelope_doc(v@),
        },
{
    match v {
        Json::Obj(fields) => {
            proof {
                lemma_jview_fields(fields@);
            }
            if fields.len() != 10 {
                return None;
            }
            if !str_eq(fields[0].0.as_str(), "id") {
                return None;
            }
            if !str_eq(fields[1].0.as_str(), "topic") {
                return None;
            }
            if !str_eq(fields[2].0.as_str(), "type") {
                return None;
            }
            if !str_eq(fields[3].0.as_str(), "source") {
                return None;
            }
            if !str_eq(fields[4].0.as_str(), "tenant") {
                return None;
            }
            if !str_eq(fields[5].0.as_str(), "subject") {
                return None;
            }
            if !str_eq(fields[6].0.as_str(), "time") {
                return None;
            }
            if !str_eq(fields[7].0.as_str(), "correlation_id") {
                return None;
            }
            if !str_eq(fields[8].0.as_str(), "payload") {
                return None;
            }
            if !str_eq(fields[9].0.as_str(), "metadata") {
                return None;
            }
            let id = match &fields[0].1 {
                Json::Str(s) => s.clone(),
                _ => {
                    return None;
                },
            };
            let topic = match &fields[1].1 {
                Json::Str(s) => s.clone(),
                _ => {
                    return None;
                },
            };
            let type_ = match &fields[2].1 {
                Json::Str(s) => s.clone(),
                _ => {
                    return None;
                },
            };
            let source = match &fields[3].1 {
                Json::Str(s) => s.clone(),
                _ => {
                    return None;
                },
            };
            let tenant = match tenant_from_json(&fields[4].1) {
                Some(t) => t,
                None => {
                    return None;
                },
            };
            let subject = match &fields[5].1 {
                Json::Str(s) => Some(s.clone()),
                Json::Null => None,
                _ => {
                    return None;
                },
            };
            let time = match &fields[6].1 {
                Json::Int(t) => *t,
                _ => {
                    return None;
                },
            };
            let correlation_id = match &fields[7].1 {
                Json::Str(s) => Some(s.clone()),
                Json::Null => None,
                _ => {
                    return None;
                },
            };
            let payload = fields[8].1.deep_clone();
            let metadata = match metadata_from_json(&fields[9].1) {
                Some(m) => m,
                None => {
                    return None;
                },
            };
            let e = EventEnvelope {
                id,
                topic,
                type_,
                source,
                tenant,
                subject,
                time,
                correlation_id,
                payload,
                metadata,
            };
            proof {
                assert(envelope_enc(e)->Obj_0 =~~= v@->Obj_0);
            }
            Some(e)
        },
        _ => None,
    }
}

/// The document of an outbound webhook configuration.
pub open spec fn outbound_webhook_enc(c: crate::webhook::OutboundWebhookConfig) -> JsonVal {
    JsonVal::Obj(
        seq![
            ("url"@, JsonVal::Str(c.url@)),
            ("headers"@, md_val(c.headers@)),
        ],
    )
}

/// A document with the exact shape of an encoded outbound webhook
/// configuration.
pub open spec fn is_outbound_webhook_doc(v: JsonVal) -> bool {
    &&& v matches JsonVal::Obj(fs)
    &&& fs.len() == 2
    &&& fs[0].0 == "url"@ && fs[0].1 is Str
    &&& fs[1].0 == "headers"@ && is_md_doc(fs[1].1)
}

/// Encodes an outbound webhook configuration.
pub fn outbound_webhook_to_json(c: &crate::webhook::OutboundWebhookConfig) -> (out: Json)
    requires
        c.headers.wf(),
    ensures
        out@ == outbound_webhook_enc(*c),
        is_outbound_webhook_doc(out@),
{
    let mut fields: Vec<(String, Json)> = Vec::new();
    fields.push((String::from_str("url"), Json::Str(c.url.clone())));
    fields.push((String::from_str("headers"), metadata_to_json(&c.headers)));
    let out = Json::Obj(fields);
    proof {
        lemma_jview_fields(fields@);
        assert(out@->Obj_0 =~~= outbound_webhook_enc(*c)->Obj_0);
        assert(out@ == outbound_webhook_enc(*c));
        assert(out@->Obj_0[1].1->Obj_0 == md_val(c.headers@)->Obj_0);
    }
    out
}

/// Decodes an outbound webhook configuration.
pub fn outbound_webhook_from_json(v: &Json) -> (out: Option<crate::webhook::OutboundWebhookConfig>)
    ensures
        match out {
            Some(c) => outbound_webhook_enc(c) == v@ && c.headers.wf() && is_outbound_webhook_doc(
                v@,
            ),
            None => !is_outbound_webhook_doc(v@),
        },
{
    match v {
        Json::Obj(fields) => {
            proof {
                lemma_jview_fields(fields@);
            }
            if fields.len() != 2 {
                return None;
            }
            if !str_eq(fields[0].0.as_str(), "url") {
                return None;
            }
            if !str_eq(fields[1].0.as_str(), "headers") {
                return None;
            }
            let url = match &fields[0].1 {
                Json::Str(s) => s.clone(),
                _ => {
                    return None;
                },
            };
            let headers = match metadata_from_json(&fields[1].1) {
                Some(m) => m,
                None => {
                    return None;
                },
            };
            let c = crate::webhook::OutboundWebhookConfig { url, headers };
            proof {
                assert(outbound_webhook_enc(c)->Obj_0 =~~= v@->Obj_0);
            }
            Some(c)
        },
        _ => None,
    }
}

/// The document of an inbound SMS configuration.
pub open spec fn twilio_source_enc(c: crate::sms::TwilioSourceConfig) -> JsonVal {
    JsonVal::Obj(
        seq![
            ("phone_aliases"@, md_val(c.phone_aliases@)),
            ("signing_secret_ref"@, opt_str_val(crate::events::opt_view(c.signing_secret_ref))),
        ],
    )
}

/// A document with the exact shape of an encoded inbound SMS configuration.
pub open spec fn is_twilio_source_doc(v: JsonVal) -> bool {
    &&& v matches JsonVal::Obj(fs)
    &&& fs.len() == 2
    &&& fs[0].0 == "phone_aliases"@ && is_md_doc(fs[0].1)
    &&& fs[1].0 == "signing_secret_ref"@ && (fs[1].1 is Str || fs[1].1 is Null)
}

/// Encodes an inbound SMS configuration.
pub fn twilio_source_to_json(c: &crate::sms::TwilioSourceConfig) -> (out: Json)
    requires
        c.phone_aliases.wf(),
    ensures
        out@ == twilio_source_enc(*c),
        is_twilio_source_doc(out@),
{
    let mut fields: Vec<(String, Json)> = Vec::new();
    fields.push((String::from_str("phone_aliases"), metadata_to_json(&c.phone_aliases)));
    fields.push(
        (
            String::from_str("signing_secret_ref"),
            match &c.signing_secret_ref {
                Some(s) => Json::Str(s.clone()),
                None => Json::Null,
            },
        ),
    );
    let out = Json::Obj(fields);
    proof {
        lemma_jview_fields(fields@);
        assert(out@->Obj_0 =~~= twilio_source_enc(*c)->Obj_0);
        assert(out@ == twilio_source_enc(*c));
        assert(out@->Obj_0[0].1->Obj_0 == md_val(c.phone_aliases@)->Obj_0);
    }
    out
}

/// Decodes an inbound SMS configuration.
pub fn twilio_source_from_json(v: &Json) -> (out: Option<crate::sms::TwilioSourceConfig>)
    ensures
        match out {
            Some(c) => twilio_source_enc(c) == v@ && c.phone_aliases.wf() && is_twilio_source_doc(
                v@,
            ),
            None => !is_twilio_source_doc(v@),
        },
{
    match v {
        Json::Obj(fields) => {
            proof {
                lemma_jview_fields(fields@);
            }
            if fields.len() != 2 {
                return None;
            }
            if !str_eq(fields[0].0.as_str(), "phone_aliases") {
                return None;
            }
            if !str_eq(fields[1].0.as_str(), "signing_secret_ref") {
                return None;
            }
            let phone_aliases = match metadata_from_json(&fields[0].1) {
                Some(m) => m,
                None => {
                    return None;
                },
            };
            let signing_secret_ref = match &fields[1].1 {
                Json::Str(s) => Some(s.clone()),
                Json::Null => None,
                _ => {
                    return None;
                },
            };
            let c = crate::sms::TwilioSourceConfig { phone_aliases, signing_secret_ref };
            proof {
                assert(twilio_source_enc(c)->Obj_0 =~~= v@->Obj_0);
            }
            Some(c)
        },
        _ => None,
    }
}

/// The document of an outbound SMS configuration.
pub open spec fn twilio_sink_enc(c: crate::sms::TwilioSinkConfig) -> JsonVal {
    JsonVal::Obj(
        seq![
            ("account_sid"@, JsonVal::Str(c.account_sid@)),
            ("auth_token_ref"@, opt_str_val(crate::events::opt_view(c.auth_token_ref))),
            ("default_from"@, opt_str_val(crate::events::opt_view(c.default_from))),
        ],
    )
}

/// A document with the exact shape of an encoded outbound SMS configuration.
pub open spec fn is_twilio_sink_doc(v: JsonVal) -> bool {
    &&& v matches JsonVal::Obj(fs)
    &&& fs.len() == 3
    &&& fs[0].0 == "account_sid"@ && fs[0].1 is Str
    &&& fs[1].0 == "auth_token_ref"@ && (fs[1].1 is Str || fs[1].1 is Null)
    &&& fs[2].0 == "default_from"@ && (fs[2].1 is Str || fs[2].1 is Null)
}

/// Encodes an outbound SMS configuration.
pub fn twilio_sink_to_json(c: &crate::sms::TwilioSinkConfig) -> (out: Json)
    ensures
        out@ == twilio_sink_enc(*c),
        is_twilio_sink_doc(out@),
{
    let mut fields: Vec<(String, Json)> = Vec::new();
    fields.push((String::from_str("account_sid"), Json::Str(c.account_sid.clone())));
    fields.push(
        (
            String::from_str("auth_token_ref"),
            match &c.auth_token_ref {
                Some(s) => Json::Str(s.clone()),
                None => Json::Null,
            },
        ),
    );
    fields.push(
        (
            String::from_str("default_from"),
            match &c.default_from {
                Some(s) => Json::Str(s.clone()),
                None => Json::Null,
            },
        ),
    );
    let out = Json::Obj(fields);
    proof {
        lemma_jview_fields(fields@);
        assert(out@->Obj_0 =~~= twilio_sink_enc(*c)->Obj_0);
        assert(out@ == twilio_sink_enc(*c));
    }
    out
}

/// Decodes an outbound SMS configuration.
pub fn twilio_sink_from_json(v: &Json) -> (out: Option<crate::sms::TwilioSinkConfig>)
    ensures
        match out {
            Some(c) => twilio_sink_enc(c) == v@ && is_twilio_sink_doc(v@),
            None => !is_twilio_sink_doc(v@),
        },
{
    match v {
        Json::Obj(fields) => {
            proof {
                lemma_jview_fields(fields@);
            }
            if fields.len() != 3 {
                return None;
            }
            if !str_eq(fields[0].0.as_str(), "account_sid") {
                return None;
            }
            if !str_eq(fields[1].0.as_str(), "auth_token_ref") {
                return None;
            }
            if !str_eq(fields[2].0.as_str(), "default_from") {
                return None;
            }
            let account_sid = match &fields[0].1 {
                Json::Str(s) => s.clone(),
                _ => {
                    return None;
                },
            };
            let auth_token_ref = match &fields[1].1 {
                Json::Str(s) => Some(s.clone()),
                Json::Null => None,
                _ => {
                    return None;
                },
            };
            let default_from = match &fields[2].1 {
                Json::Str(s) => Some(s.clone()),
                Json::Null => None,
                _ => {
                    return None;
                },
            };
            let c = crate::sms::TwilioSinkConfig { account_sid, auth_token_ref, default_from };
            proof {
                assert(twilio_sink_enc(c)->Obj_0 =~~= v@->Obj_0);
            }
            Some(c)
        },
        _ => None,
    }
}

/// A document that is an array of strings.
pub open spec fn is_strings_doc(v: JsonVal) -> bool {
    v matches JsonVal::Arr(items) && (forall|i: int| 0 <= i < items.len() ==> (
    #[trigger] items[i]) is Str)
}

/// Decodes an array of strings.
fn strings_from_json(v: &Json) -> (out: Option<Vec<String>>)
    ensures
        match out {
            Some(xs) => crate::json::strings_val(xs.deep_view()) == v@ && is_strings_doc(v@),
            None => !is_strings_doc(v@),
        },
{
    match v {
        Json::Arr(items) => {
            proof {
                crate::json::lemma_jview_items(items@);
            }
            let n = items.len();
            let mut out: Vec<String> = Vec::new();
            let mut i: usize = 0;
            #[verifier::loop_isolation(false)]
            while i < n
                invariant
                    0 <= i <= n,
                    out@.len() == i,
                    forall|k: int| 0 <= k < i ==> crate::json::jview(#[trigger] items@[k])
                        == JsonVal::Str(out@[k]@),
                decreases n - i,
            {
                match &items[i] {
                    Json::Str(s) => {
                        out.push(s.clone());
                    },
                    _ => {
                        proof {
                            assert(v@->Arr_0[i as int] == crate::json::jview(items@[i as int]));
                        }
                        return None;
                    },
                }
                i += 1;
            }
            proof {
                assert(crate::json::strings_val(out.deep_view())->Arr_0 =~~= v@->Arr_0);
            }
            Some(out)
        },
        _ => None,
    }
}

/// The document of an inbound HTTP request.
pub open spec fn inbound_request_enc(r: crate::webhook::InboundHttpRequest) -> JsonVal {
    JsonVal::Obj(
        seq![
            ("method"@, JsonVal::Str(r.method@)),
            ("path"@, JsonVal::Str(r.path@)),
            ("headers"@, md_val(r.headers@)),
            ("body"@, r.body@),
            ("correlation_id"@, opt_str_val(crate::events::opt_view(r.correlation_id))),
            ("signature_validated"@, JsonVal::Bool(r.signature_validated)),
        ],
    )
}

/// A document with the exact shape of an encoded inbound HTTP request.
pub open spec fn is_inbound_request_doc(v: JsonVal) -> bool {
    &&& v matches JsonVal::Obj(fs)
    &&& fs.len() == 6
    &&& fs[0].0 == "method"@ && fs[0].1 is Str
    &&& fs[1].0 == "path"@ && fs[1].1 is Str
    &&& fs[2].0 == "headers"@ && is_md_doc(fs[2].1)
    &&& fs[3].0 == "body"@
    &&& fs[4].0 == "correlation_id"@ && (fs[4].1 is Str || fs[4].1 is Null)
    &&& fs[5].0 == "signature_validated"@ && fs[5].1 is Bool
}

/// Encodes an inbound HTTP request.
pub fn inbound_request_to_json(r: &crate::webhook::InboundHttpRequest) -> (out: Json)
    requires
        r.headers.wf(),
    ensures
        out@ == inbound_request_enc(*r),
        is_inbound_request_doc(out@),
{
    let mut fields: Vec<(String, Json)> = Vec::new();
    fields.push((String::from_str("method"), Json::Str(r.method.clone())));
    fields.push((String::from_str("path"), Json::Str(r.path.clone())));
    fields.push((String::from_str("headers"), metadata_to_json(&r.headers)));
    fields.push((String::from_str("body"), r.body.deep_clone()));
    fields.push(
        (
            String::from_str("correlation_id"),
            match &r.correlation_id {
                Some(s) => Json::Str(s.clone()),
                None => Json::Null,
            },
        ),
    );
    fields.push((String::from_str("signature_validated"), Json::Bool(r.signature_validated)));
    let out = Json::Obj(fields);
    proof {
        lemma_jview_fields(fields@);
        assert(out@->Obj_0 =~~= inbound_request_enc(*r)->Obj_0);
        assert(out@ == inbound_request_enc(*r));
        assert(out@->Obj_0[2].1->Obj_0 == md_val(r.headers@)->Obj_0);
    }
    out
}

/// Decodes an inbound HTTP request.
pub fn inbound_request_from_json(v: &Json) -> (out: Option<crate::webhook::InboundHttpRequest>)
    ensures
        match out {
            Some(r) => inbound_request_enc(r) == v@ && r.headers.wf() && is_inbound_request_doc(
                v@,
            ),
            None => !is_inbound_request_doc(v@),
        },
{
    match v {
        Json::Obj(fields) => {
            proof {
                lemma_jview_fields(fields@);
            }
            if fields.len() != 6 {
                return None;
            }
            if !str_eq(fields[0].0.as_str(), "method") {
                return None;
            }
            if !str_eq(fields[1].0.as_str(), "path") {
                return None;
            }
            if !str_eq(fields[2].0.as_str(), "headers") {
                return None;
            }
            if !str_eq(fields[3].0.as_str(), "body") {
                return None;
            }
            if !str_eq(fields[4].0.as_str(), "correlation_id") {
                return None;
            }
            if !str_eq(fields[5].0.as_str(), "signature_validated") {
                return None;
            }
            let method = match &fields[0].1 {
                Json::Str(s) => s.clone(),
                _ => {
                    return None;
                },
            };
            let path = match &fields[1].1 {
                Json::Str(s) => s.clone(),
                _ => {
                    return None;
                },
            };
            let headers = match metadata_from_json(&fields[2].1) {
                Some(m) => m,
                None => {
                    return None;
                },
            };
            let body = fields[3].1.deep_clone();
            let correlation_id = match &fields[4].1 {
                Json::Str(s) => Some(s.clone()),
                Json::Null => None,
                _ => {
                    return None;
                },
            };
            let signature_validated = match &fields[5].1 {
                Json::Bool(b) => *b,
                _ => {
                    return None;
                },
            };
            let r = crate::webhook::InboundHttpRequest {
                method,
                path,
                headers,
                body,
                correlation_id,
                signature_validated,
            };
            proof {
                assert(inbound_request_enc(r)->Obj_0 =~~= v@->Obj_0);
            }
            Some(r)
        },
        _ => None,
    }
}

/// The document of an outbound email request payload.
pub open spec fn outbound_email_enc(m: crate::email::OutboundEmail) -> JsonVal {
    JsonVal::Obj(
        seq![
            ("provider"@, JsonVal::Str(crate::email::provider_name(m.provider))),
            ("to"@, crate::json::strings_val(m.to.deep_view())),
            ("subject"@, JsonVal::Str(m.subject@)),
            ("body"@, JsonVal::Str(m.body@)),
            ("cc"@, crate::json::strings_val(m.cc.deep_view())),
            ("bcc"@, crate::json::strings_val(m.bcc.deep_view())),
            ("from_override"@, opt_str_val(crate::events::opt_view(m.from_override))),
        ],
    )
}

/// A document with the exact shape of an encoded outbound email.
pub open spec fn is_outbound_email_doc(v: JsonVal) -> bool {
    &&& v matches JsonVal::Obj(fs)
    &&& fs.len() == 7
    &&& fs[0].0 == "provider"@ && (fs[0].1 == JsonVal::Str("msgraph"@) || fs[0].1 == JsonVal::Str(
        "gmail"@,
    ))
    &&& fs[1].0 == "to"@ && is_strings_doc(fs[1].1)
    &&& fs[2].0 == "subject"@ && fs[2].1 is Str
    &&& fs[3].0 == "body"@ && fs[3].1 is Str
    &&& fs[4].0 == "cc"@ && is_strings_doc(fs[4].1)
    &&& fs[5].0 == "bcc"@ && is_strings_doc(fs[5].1)
    &&& fs[6].0 == "from_override"@ && (fs[6].1 is Str || fs[6].1 is Null)
}

/// Encodes an outbound email request payload.
pub fn outbound_email_to_json(m: &crate::email::OutboundEmail) -> (out: Json)
    ensures
        out@ == outbound_email_enc(*m),
        is_outbound_email_doc(out@),
{
    let provider = match m.provider {
        crate::email::EmailProvider::MsGraph => String::from_str("msgraph"),
        crate::email::EmailProvider::Gmail => String::from_str("gmail"),
    };
    let mut fields: Vec<(String, Json)> = Vec::new();
    fields.push((String::from_str("provider"), Json::Str(provider)));
    fields.push((String::from_str("to"), crate::json::strings_to_json(&m.to)));
    fields.push((String::from_str("subject"), Json::Str(m.subject.clone())));
    fields.push((String::from_str("body"), Json::Str(m.body.clone())));
    fields.push((String::from_str("cc"), crate::json::strings_to_json(&m.cc)));
    fields.push((String::from_str("bcc"), crate::json::strings_to_json(&m.bcc)));
    fields.push(
        (
            String::from_str("from_override"),
            match &m.from_override {
                Some(s) => Json::Str(s.clone()),
                None => Json::Null,
            },
        ),
    );
    let out = Json::Obj(fields);
    proof {
        lemma_jview_fields(fields@);
        assert(out@->Obj_0 =~~= outbound_email_enc(*m)->Obj_0);
        assert(out@ == outbound_email_enc(*m));
        assert(out@->Obj_0[1].1->Arr_0 == crate::json::strings_val(m.to.deep_view())->Arr_0);
        assert(out@->Obj_0[4].1->Arr_0 == crate::json::strings_val(m.cc.deep_view())->Arr_0);
        assert(out@->Obj_0[5].1->Arr_0 == crate::json::strings_val(m.bcc.deep_view())->Arr_0);
    }
    out
}

/// Decodes an outbound email request payload.
pub fn outbound_email_from_json(v: &Json) -> (out: Option<crate::email::OutboundEmail>)
    ensures
        match out {
            Some(m) => outbound_email_enc(m) == v@ && is_outbound_email_doc(v@),
            None => !is_outbound_email_doc(v@),
        },
{
    match v {
        Json::Obj(fields) => {
            proof {
                lemma_jview_fields(fields@);
            }
            if fields.len() != 7 {
                return None;
            }
            if !str_eq(fields[0].0.as_str(), "provider") {
                return None;
            }
            if !str_eq(fields[1].0.as_str(), "to") {
                return None;
            }
            if !str_eq(fields[2].0.as_str(), "subject") {
                return None;
            }
            if !str_eq(fields[3].0.as_str(), "body") {
                return None;
            }
            if !str_eq(fields[4].0.as_str(), "cc") {
                return None;
            }
            if !str_eq(fields[5].0.as_str(), "bcc") {
                return None;
            }
            if !str_eq(fields[6].0.as_str(), "from_override") {
                return None;
            }
            let provider = match &fields[0].1 {
                Json::Str(s) => {
                    if str_eq(s.as_str(), "msgraph") {
                        crate::email::EmailProvider::MsGraph
                    } else if str_eq(s.as_str(), "gmail") {
                        crate::email::EmailProvider::Gmail
                    } else {
                        return None;
                    }
                },
                _ => {
                    return None;
                },
            };
            let to = match strings_from_json(&fields[1].1) {
                Some(xs) => xs,
                None => {
                    return None;
                },
            };
            let subject = match &fields[2].1 {
                Json::Str(s) => s.clone(),
                _ => {
                    return None;
                },
            };
            let body = match &fields[3].1 {
                Json::Str(s) => s.clone(),
                _ => {
                    return None;
                },
            };
            let cc = match strings_from_json(&fields[4].1) {
                Some(xs) => xs,
                None => {
                    return None;
                },
            };
            let bcc = match strings_from_json(&fields[5].1) {
                Some(xs) => xs,
                None => {
                    return None;
                },
            };
            let from_override = match &fields[6].1 {
                Json::Str(s) => Some(s.clone()),
                Json::Null => None,
                _ => {
                    return None;
                },
            };
            let m = crate::email::OutboundEmail {
                provider,
                to,
                subject,
                body,
                cc,
                bcc,
                from_override,
            };
            proof {
                assert(outbound_email_enc(m)->Obj_0 =~~= v@->Obj_0);
            }
            Some(m)
        },
        _ => None,
    }
}

/// The document of an inbound Twilio webhook payload.
pub open spec fn twilio_payload_enc(p: crate::sms::TwilioWebhookPayload) -> JsonVal {
    JsonVal::Obj(
        seq![
            ("from"@, JsonVal::Str(p.from@)),
            ("to"@, JsonVal::Str(p.to@)),
            ("body"@, JsonVal::Str(p.body@)),
            ("message_sid"@, JsonVal::Str(p.message_sid@)),
            ("raw"@, p.raw@),
            ("headers"@, md_val(p.headers@)),
            ("signature_validated"@, JsonVal::Bool(p.signature_validated)),
        ],
    )
}

/// A document with the exact shape of an encoded Twilio webhook payload.
pub open spec fn is_twilio_payload_doc(v: JsonVal) -> bool {
    &&& v matches JsonVal::Obj(fs)
    &&& fs.len() == 7
    &&& fs[0].0 == "from"@ && fs[0].1 is Str
    &&& fs[1].0 == "to"@ && fs[1].1 is Str
    &&& fs[2].0 == "body"@ && fs[2].1 is Str
    &&& fs[3].0 == "message_sid"@ && fs[3].1 is Str
    &&& fs[4].0 == "raw"@
    &&& fs[5].0 == "headers"@ && is_md_doc(fs[5].1)
    &&& fs[6].0 == "signature_validated"@ && fs[6].1 is Bool
}

/// Encodes an inbound Twilio webhook payload.
pub fn twilio_payload_to_json(p: &crate::sms::TwilioWebhookPayload) -> (out: Json)
    requires
        p.headers.wf(),
    ensures
        out@ == twilio_payload_enc(*p),
        is_twilio_payload_doc(out@),
{
    let mut fields: Vec<(String, Json)> = Vec::new();
    fields.push((String::from_str("from"), Json::Str(p.from.clone())));
    fields.push((String::from_str("to"), Json::Str(p.to.clone())));
    fields.push((String::from_str("body"), Json::Str(p.body.clone())));
    fields.push((String::from_str("message_sid"), Json::Str(p.message_sid.clone())));
    fields.push((String::from_str("raw"), p.raw.deep_clone()));
    fields.push((String::from_str("headers"), metadata_to_json(&p.headers)));
    fields.push((String::from_str("signature_validated"), Json::Bool(p.signature_validated)));
    let out = Json::Obj(fields);
    proof {
        lemma_jview_fields(fields@);
        assert(out@->Obj_0 =~~= twilio_payload_enc(*p)->Obj_0);
        assert(out@ == twilio_payload_enc(*p));
        assert(out@->Obj_0[5].1->Obj_0 == md_val(p.headers@)->Obj_0);
    }
    out
}

/// Decodes an inbound Twilio webhook payload.
pub fn twilio_payload_from_json(v: &Json) -> (out: Option<crate::sms::TwilioWebhookPayload>)
    ensures
        match out {
            Some(p) => twilio_payload_enc(p) == v@ && p.headers.wf() && is_twilio_payload_doc(
                v@,
            ),
            None => !is_twilio_payload_doc(v@),
        },
{
    match v {
        Json::Obj(fields) => {
            proof {
                lemma_jview_fields(fields@);
            }
            if fields.len() != 7 {
                return None;
            }
            if !str_eq(fields[0].0.as_str(), "from") {
                return None;
            }
            if !str_eq(fields[1].0.as_str(), "to") {
                return None;
            }
            if !str_eq(fields[2].0.as_str(), "body") {
                return None;
            }
            if !str_eq(fields[3].0.as_str(), "message_sid") {
                return None;
            }
            if !str_eq(fields[4].0.as_str(), "raw") {
                return None;
            }
            if !str_eq(fields[5].0.as_str(), "headers") {
                return None;
            }
            if !str_eq(fields[6].0.as_str(), "signature_validated") {
                return None;
            }
            let from = match &fields[0].1 {
                Json::Str(s) => s.clone(),
                _ => {
                    return None;
                },
            };
            let to = match &fields[1].1 {
                Json::Str(s) => s.clone(),
                _ => {
                    return None;
                },
            };
            let body = match &fields[2].1 {
                Json::Str(s) => s.clone(),
                _ => {
                    return None;
                },
            };
            let message_sid = match &fields[3].1 {
                Json::Str(s) => s.clone(),
                _ => {
                    return None;
                },
            };
            let raw = fields[4].1.deep_clone();
            let headers = match metadata_from_json(&fields[5].1) {
                Some(m) => m,
                None => {
                    return None;
                },
            };
            let signature_validated = match &fields[6].1 {
                Json::Bool(b) => *b,
                _ => {
                    return None;
                },
            };
            let p = crate::sms::TwilioWebhookPayload {
                from,
                to,
                body,
                message_sid,
                raw,
                headers,
                signature_validated,
            };
            proof {
                assert(twilio_payload_enc(p)->Obj_0 =~~= v@->Obj_0);
            }
            Some(p)
        },
        _ => None,
    }
}

/// The document of an inbound email.
pub open spec fn inbound_email_enc(m: crate::email::InboundEmail) -> JsonVal {
    JsonVal::Obj(
        seq![
            ("provider"@, JsonVal::Str(crate::email::provider_name(m.provider))),
            ("folder_or_label"@, JsonVal::Str(m.folder_or_label@)),
            ("message_id"@, JsonVal::Str(m.message_id@)),
            ("subject"@, JsonVal::Str(m.subject@)),
            ("from"@, JsonVal::Str(m.from@)),
            ("to"@, crate::json::strings_val(m.to.deep_view())),
            ("cc"@, crate::json::strings_val(m.cc.deep_view())),
            ("bcc"@, crate::json::strings_val(m.bcc.deep_view())),
            ("received_at"@, JsonVal::Int(m.received_at as int)),
            ("body"@, JsonVal::Str(m.body@)),
            ("headers"@, md_val(m.headers@)),
        ],
    )
}

/// A document with the exact shape of an encoded inbound email.
pub open spec fn is_inbound_email_doc(v: JsonVal) -> bool {
    &&& v matches JsonVal::Obj(fs)
    &&& fs.len() == 11
    &&& fs[0].0 == "provider"@ && (fs[0].1 == JsonVal::Str("msgraph"@) || fs[0].1 == JsonVal::Str(
        "gmail"@,
    ))
    &&& fs[1].0 == "folder_or_label"@ && fs[1].1 is Str
    &&& fs[2].0 == "message_id"@ && fs[2].1 is Str
    &&& fs[3].0 == "subject"@ && fs[3].1 is Str
    &&& fs[4].0 == "from"@ && fs[4].1 is Str
    &&& fs[5].0 == "to"@ && is_strings_doc(fs[5].1)
    &&& fs[6].0 == "cc"@ && is_strings_doc(fs[6].1)
    &&& fs[7].0 == "bcc"@ && is_strings_doc(fs[7].1)
    &&& fs[8].0 == "received_at"@
    &&& fs[8].1 matches JsonVal::Int(t) && i64::MIN <= t <= i64::MAX
    &&& fs[9].0 == "body"@ && fs[9].1 is Str
    &&& fs[10].0 == "headers"@ && is_md_doc(fs[10].1)
}

/// Encodes an inbound email.
pub fn inbound_email_to_json(m: &crate::email::InboundEmail) -> (out: Json)
    requires
        m.headers.wf(),
    ensures
        out@ == inbound_email_enc(*m),
        is_inbound_email_doc(out@),
{
    let provider = match m.provider {
        crate::email::EmailProvider::MsGraph => String::from_str("msgraph"),
        crate::email::EmailProvider::Gmail => String::from_str("gmail"),
    };
    let mut fields: Vec<(String, Json)> = Vec::new();
    fields.push((String::from_str("provider"), Json::Str(provider)));
    fields.push((String::from_str("folder_or_label"), Json::Str(m.folder_or_label.clone())));
    fields.push((String::from_str("message_id"), Json::Str(m.message_id.clone())));
    fields.push((String::from_str("subject"), Json::Str(m.subject.clone())));
    fields.push((String::from_str("from"), Json::Str(m.from.clone())));
    fields.push((String::from_str("to"), crate::json::strings_to_json(&m.to)));
    fields.push((String::from_str("cc"), crate::json::strings_to_json(&m.cc)));
    fields.push((String::from_str("bcc"), crate::json::strings_to_json(&m.bcc)));
    fields.push((String::from_str("received_at"), Json::Int(m.received_at)));
    fields.push((String::from_str("body"), Json::Str(m.body.clone())));
    fields.push((String::from_str("headers"), metadata_to_json(&m.headers)));
    let out = Json::Obj(fields);
    proof {
        lemma_jview_fields(fields@);
        assert(out@->Obj_0 =~~= inbound_email_enc(*m)->Obj_0);
        assert(out@ == inbound_email_enc(*m));
        assert(out@->Obj_0[5].1->Arr_0 == crate::json::strings_val(m.to.deep_view())->Arr_0);
        assert(out@->Obj_0[6].1->Arr_0 == crate::json::strings_val(m.cc.deep_view())->Arr_0);
        assert(out@->Obj_0[7].1->Arr_0 == crate::json::strings_val(m.bcc.deep_view())->Arr_0);
        assert(out@->Obj_0[10].1->Obj_0 == md_val(m.headers@)->Obj_0);
    }
    out
}

/// Decodes an inbound email.
pub fn inbound_email_from_json(v: &Json) -> (out: Option<crate::email::InboundEmail>)
    ensures
        match out {
            Some(m) => inbound_email_enc(m) == v@ && m.headers.wf() && is_inbound_email_doc(v@),
            None => !is_inbound_email_doc(v@),
        },
{
    match v {
        Json::Obj(fields) => {
            proof {
                lemma_jview_fields(fields@);
            }
            if fields.len() != 11 {
                return None;
            }
            if !str_eq(fields[0].0.as_str(), "provider") {
                return None;
            }
            if !str_eq(fields[1].0.as_str(), "folder_or_label") {
                return None;
            }
            if !str_eq(fields[2].0.as_str(), "message_id") {
                return None;
            }
            if !str_eq(fields[3].0.as_str(), "subject") {
                return None;
            }
            if !str_eq(fields[4].0.as_str(), "from") {
                return None;
            }
            if !str_eq(fields[5].0.as_str(), "to") {
                return None;
            }
            if !str_eq(fields[6].0.as_str(), "cc") {
                return None;
            }
            if !str_eq(fields[7].0.as_str(), "bcc") {
                return None;
            }
            if !str_eq(fields[8].0.as_str(), "received_at") {
                return None;
            }
            if !str_eq(fields[9].0.as_str(), "body") {
                return None;
            }
            if !str_eq(fields[10].0.as_str(), "headers") {
                return None;
            }
            let provider = match &fields[0].1 {
                Json::Str(s) => {
                    if str_eq(s.as_str(), "msgraph") {
                        crate::email::EmailProvider::MsGraph
                    } else if str_eq(s.as_str(), "gmail") {
                        crate::email::EmailProvider::Gmail
                    } else {
                        return None;
                    }
                },
                _ => {
                    return None;
                },
            };
            let folder_or_label = match &fields[1].1 {
                Json::Str(s) => s.clone(),
                _ => {
                    return None;
                },
            };
            let message_id = match &fields[2].1 {
                Json::Str(s) => s.clone(),
                _ => {
                    return None;
                },
            };
            let subject = match &fields[3].1 {
                Json::Str(s) => s.clone(),
                _ => {
                    return None;
                },
            };
            let from = match &fields[4].1 {
                Json::Str(s) => s.clone(),
                _ => {
                    return None;
                },
            };
            let to = match strings_from_json(&fields[5].1) {
                Some(xs) => xs,
                None => {
                    return None;
                },
            };
            let cc = match strings_from_json(&fields[6].1) {
                Some(xs) => xs,
                None => {
                    return None;
                },
            };
            let bcc = match strings_from_json(&fields[7].1) {
                Some(xs) => xs,
                None => {
                    return None;
                },
            };
            let received_at = match &fields[8].1 {
                Json::Int(t) => *t,
                _ => {
                    return None;
                },
            };
            let body = match &fields[9].1 {
                Json::Str(s) => s.clone(),
                _ => {
                    return None;
                },
            };
            let headers = match metadata_from_json(&fields[10].1) {
                Some(m) => m,
                None => {
                    return None;
                },
            };
            let m = crate::email::InboundEmail {
                provider,
                folder_or_label,
                message_id,
                subject,
                from,
                to,
                cc,
                bcc,
                received_at,
                body,
                headers,
            };
            proof {
                assert(inbound_email_enc(m)->Obj_0 =~~= v@->Obj_0);
            }
            Some(m)
        },
        _ => None,
    }
}

} // verus!

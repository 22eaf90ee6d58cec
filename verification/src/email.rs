//! Email channel adapter: maps inbound email into event envelopes and
//! outbound envelopes into provider-specific send-request shapes, resolving
//! each provider's required secrets with a metadata-only audit trail.

use vstd::prelude::*;
use vstd::string::StringExecFns;
use crate::error::ProviderError;
use crate::events::EventEnvelope;
use crate::events::Metadata;
use crate::events::header_md;
use crate::events::insert_header_entries;
use crate::events::md_insert;
use crate::events::md_val;
use crate::events::metadata_to_json;
use crate::events::new_event;
use crate::json::Json;
use crate::json::JsonVal;
use crate::json::is_prefix_of;
use crate::json::lemma_jview_fields;
use crate::json::lemma_jview_items;
use crate::json::str_starts_with;
use crate::json::strings_to_json;
use crate::json::strings_val;
use crate::payload::expect_array_strings;
use crate::payload::expect_string;
use crate::payload::opt_str_array_field;
use crate::payload::optional_array_strings;
use crate::payload::str_array_field;
use crate::payload::str_field;
use crate::secrets::SecretProvider;
use crate::secrets::SecretsStoreProvider;
use crate::secrets::resolve_secret;
use crate::secrets::resolved_audit;
use crate::sys::format_utc_secs;
use crate::sys::rfc3339_utc_secs;
use crate::tenant::TenantCtx;

verus! {

/// The two supported email providers.
#[derive(Debug, PartialEq, Eq, Clone, Copy)]
pub enum EmailProvider {
    MsGraph,
    Gmail,
}

/// The lowercase wire name of a provider.
pub open spec fn provider_name(p: EmailProvider) -> Seq<char> {
    match p {
        EmailProvider::MsGraph => "msgraph"@,
        EmailProvider::Gmail => "gmail"@,
    }
}

/// Renders the lowercase wire name of a provider.
fn provider_name_string(p: EmailProvider) -> (r: String)
    ensures
        r@ == provider_name(p),
{
    match p {
        EmailProvider::MsGraph => String::from_str("msgraph"),
        EmailProvider::Gmail => String::from_str("gmail"),
    }
}

/// Minimal inbound email representation supplied by the host's poller.
#[derive(Debug, PartialEq, Eq)]
pub struct InboundEmail {
    pub provider: EmailProvider,
    pub folder_or_label: String,
    pub message_id: String,
    pub subject: String,
    pub from: String,
    pub to: Vec<String>,
    pub cc: Vec<String>,
    pub bcc: Vec<String>,
    /// Unix seconds UTC.
    pub received_at: i64,
    pub body: String,
    pub headers: Metadata,
}

/// The payload an inbound email maps to: its fields embedded verbatim, the
/// receipt time rendered as a whole-second UTC timestamp.
pub open spec fn inbound_email_payload_val(email: InboundEmail) -> JsonVal {
    JsonVal::Obj(
        seq![
            ("subject"@, JsonVal::Str(email.subject@)),
            ("from"@, JsonVal::Str(email.from@)),
            ("to"@, strings_val(email.to.deep_view())),
            ("cc"@, strings_val(email.cc.deep_view())),
            ("bcc"@, strings_val(email.bcc.deep_view())),
            ("body"@, JsonVal::Str(email.body@)),
            ("received_at"@, JsonVal::Str(rfc3339_utc_secs(email.received_at as int))),
            ("headers"@, md_val(email.headers@)),
        ],
    )
}

/// The metadata of an inbound-email envelope: provider name, folder or
/// label, message id, and one entry per header.
pub open spec fn inbound_email_md(email: InboundEmail) -> Seq<(Seq<char>, Seq<char>)> {
    let s0 = md_insert(Seq::empty(), "provider"@, provider_name(email.provider));
    let s1 = md_insert(s0, "folder_or_label"@, email.folder_or_label@);
    let s2 = md_insert(s1, "message_id"@, email.message_id@);
    header_md(s2, email.headers@)
}

/// Builds the event envelope of an inbound email. The topic is
/// `email.in.<provider>.<folder-or-label>`; subject and message id are
/// carried as envelope subject and correlation id; the payload embeds the
/// email verbatim.
pub fn map_inbound_email(tenant: TenantCtx, email: &InboundEmail) -> (e: EventEnvelope)
    ensures
        e.topic@ == "email.in."@ + provider_name(email.provider) + "."@ + email.folder_or_label@,
        e.type_@ == "com.greentic.email.generic.v1"@,
        e.source@ == "email-provider"@,
        e.tenant == tenant,
        e.subject matches Some(s) && s@ == email.subject@,
        e.correlation_id matches Some(c) && c@ == email.message_id@,
        e.payload@ == inbound_email_payload_val(*email),
        e.metadata@ == inbound_email_md(*email),
{
    let topic = String::from_str("email.in.").concat(
        provider_name_string(email.provider).as_str(),
    ).concat(".").concat(email.folder_or_label.as_str());

    let mut metadata = Metadata::new();
    metadata.insert(String::from_str("provider"), provider_name_string(email.provider));
    metadata.insert(String::from_str("folder_or_label"), email.folder_or_label.clone());
    metadata.insert(String::from_str("message_id"), email.message_id.clone());
    insert_header_entries(&mut metadata, &email.headers);

    let mut fields: Vec<(String, Json)> = Vec::new();
    fields.push((String::from_str("subject"), Json::Str(email.subject.clone())));
    fields.push((String::from_str("from"), Json::Str(email.from.clone())));
    fields.push((String::from_str("to"), strings_to_json(&email.to)));
    fields.push((String::from_str("cc"), strings_to_json(&email.cc)));
    fields.push((String::from_str("bcc"), strings_to_json(&email.bcc)));
    fields.push((String::from_str("body"), Json::Str(email.body.clone())));
    fields.push((String::from_str("received_at"), Json::Str(format_utc_secs(email.received_at))));
    fields.push((String::from_str("headers"), metadata_to_json(&email.headers)));
    let payload = Json::Obj(fields);
    proof {
        lemma_jview_fields(fields@);
        assert(payload@->Obj_0 =~~= inbound_email_payload_val(*email)->Obj_0);
    }

    new_event(
        topic,
        String::from_str("com.greentic.email.generic.v1"),
        String::from_str("email-provider"),
        tenant,
        Some(email.subject.clone()),
        Some(email.message_id.clone()),
        payload,
        metadata,
    )
}

/// The audit envelopes of resolving one provider's required secrets: one
/// envelope per required secret, resolution attempted for every one of them.
pub open spec fn email_secret_events_ok<P: SecretProvider>(
    provider: EmailProvider,
    secrets: P,
    tenant: TenantCtx,
    source: Seq<char>,
    events: Seq<EventEnvelope>,
) -> bool {
    match provider {
        EmailProvider::MsGraph => {
            &&& events.len() == 1
            &&& resolved_audit(
                secrets,
                events[0],
                "MSGRAPH_CLIENT_SECRET"@,
                "tenant"@,
                tenant,
                source,
                "msgraph client secret"@,
            )
        },
        EmailProvider::Gmail => {
            &&& events.len() == 2
            &&& resolved_audit(
                secrets,
                events[0],
                "GMAIL_CLIENT_SECRET"@,
                "tenant"@,
                tenant,
                source,
                "gmail credential"@,
            )
            &&& resolved_audit(
                secrets,
                events[1],
                "GMAIL_REFRESH_TOKEN"@,
                "tenant"@,
                tenant,
                source,
                "gmail credential"@,
            )
        },
    }
}

/// A capability-level failure while resolving one of a provider's required
/// secrets.
pub open spec fn email_secret_failure<P: SecretProvider>(
    provider: EmailProvider,
    secrets: P,
    e: ProviderError,
) -> bool {
    match provider {
        EmailProvider::MsGraph => secrets.admits("MSGRAPH_CLIENT_SECRET"@, Err(e)),
        EmailProvider::Gmail => secrets.admits("GMAIL_CLIENT_SECRET"@, Err(e)) || secrets.admits(
            "GMAIL_REFRESH_TOKEN"@,
            Err(e),
        ),
    }
}

/// Resolves the fixed set of secrets a provider requires — one for MsGraph,
/// two for Gmail — attempting every one of them whether or not an earlier one
/// was missing, and collects every audit envelope. Fails only when the
/// capability itself fails.
pub fn ensure_email_secrets<P: SecretProvider>(
    provider: EmailProvider,
    secrets: &P,
    tenant: TenantCtx,
    source: &str,
) -> (r: Result<Vec<EventEnvelope>, ProviderError>)
    ensures
        match r {
            Ok(events) => email_secret_events_ok(provider, *secrets, tenant, source@, events@),
            Err(e) => email_secret_failure(provider, *secrets, e),
        },
{
    let mut events: Vec<EventEnvelope> = Vec::new();
    match provider {
        EmailProvider::MsGraph => {
            let res = resolve_secret(
                secrets,
                "MSGRAPH_CLIENT_SECRET",
                "tenant",
                tenant,
                source,
                "msgraph client secret",
            )?;
            proof {
                assert(secrets.admits("MSGRAPH_CLIENT_SECRET"@, Ok(res.value)));
            }
            let mut res_events = res.events;
            events.append(&mut res_events);
        },
        EmailProvider::Gmail => {
            let res1 = resolve_secret(
                secrets,
                "GMAIL_CLIENT_SECRET",
                "tenant",
                tenant.clone_ctx(),
                source,
                "gmail credential",
            )?;
            proof {
                assert(secrets.admits("GMAIL_CLIENT_SECRET"@, Ok(res1.value)));
            }
            let mut res1_events = res1.events;
            events.append(&mut res1_events);
            let res2 = resolve_secret(
                secrets,
                "GMAIL_REFRESH_TOKEN",
                "tenant",
                tenant,
                source,
                "gmail credential",
            )?;
            proof {
                assert(secrets.admits("GMAIL_REFRESH_TOKEN"@, Ok(res2.value)));
            }
            let mut res2_events = res2.events;
            events.append(&mut res2_events);
        },
    }
    Ok(events)
}

/// Generic outbound email request payload.
#[derive(Debug, PartialEq, Eq)]
pub struct OutboundEmail {
    pub provider: EmailProvider,
    pub to: Vec<String>,
    pub subject: String,
    pub body: String,
    pub cc: Vec<String>,
    pub bcc: Vec<String>,
    pub from_override: Option<String>,
}

/// A provider-specific send request: the wire payload and the audit
/// envelopes of the secrets it required.
#[derive(Debug)]
pub struct EmailSendRequest {
    pub provider: EmailProvider,
    pub payload: Json,
    pub secret_events: Vec<EventEnvelope>,
}

/// The provider an outbound topic addresses, by its prefix.
pub open spec fn outbound_provider_view(topic: Seq<char>) -> Option<EmailProvider> {
    if is_prefix_of("email.out.msgraph"@, topic) {
        Some(EmailProvider::MsGraph)
    } else if is_prefix_of("email.out.gmail"@, topic) {
        Some(EmailProvider::Gmail)
    } else {
        None
    }
}

/// Reads the provider off an outbound topic; any other prefix is a `Config`
/// error.
fn detect_outbound_provider(topic: &str) -> (r: Result<EmailProvider, ProviderError>)
    ensures
        match r {
            Ok(p) => outbound_provider_view(topic@) == Some(p),
            Err(e) => outbound_provider_view(topic@) is None && (e matches ProviderError::Config(
                m,
            ) && m@ == "unsupported outbound email topic: "@ + topic@),
        },
{
    if str_starts_with(topic, "email.out.msgraph") {
        Ok(EmailProvider::MsGraph)
    } else if str_starts_with(topic, "email.out.gmail") {
        Ok(EmailProvider::Gmail)
    } else {
        Err(
            ProviderError::Config(
                String::from_str("unsupported outbound email topic: ").concat(topic),
            ),
        )
    }
}

/// One MsGraph recipient: `{"emailAddress": {"address": <addr>}}`.
pub open spec fn address_val(addr: Seq<char>) -> JsonVal {
    JsonVal::Obj(
        seq![("emailAddress"@, JsonVal::Obj(seq![("address"@, JsonVal::Str(addr))]))],
    )
}

/// The MsGraph recipient list of a set of addresses.
pub open spec fn recipients_val(addrs: Seq<Seq<char>>) -> JsonVal {
    JsonVal::Arr(Seq::new(addrs.len(), |i: int| address_val(addrs[i])))
}

/// Builds one MsGraph recipient object.
fn address_json(addr: &String) -> (r: Json)
    ensures
        r@ == address_val(addr@),
{
    let mut inner: Vec<(String, Json)> = Vec::new();
    inner.push((String::from_str("address"), Json::Str(addr.clone())));
    let inner_obj = Json::Obj(inner);
    proof {
        lemma_jview_fields(inner@);
        assert(inner_obj@->Obj_0 =~~= JsonVal::Obj(
            seq![("address"@, JsonVal::Str(addr@))],
        )->Obj_0);
    }
    let mut outer: Vec<(String, Json)> = Vec::new();
    outer.push((String::from_str("emailAddress"), inner_obj));
    let r = Json::Obj(outer);
    proof {
        lemma_jview_fields(outer@);
        assert(r@->Obj_0 =~~= address_val(addr@)->Obj_0);
    }
    r
}

/// Builds the MsGraph recipient list of a set of addresses.
fn recipients_json(addrs: &Vec<String>) -> (r: Json)
    ensures
        r@ == recipients_val(addrs.deep_view()),
{
    let n = addrs.len();
    let mut items: Vec<Json> = Vec::new();
    let mut i: usize = 0;
    #[verifier::loop_isolation(false)]
    while i < n
        invariant
            0 <= i <= n,
            items@.len() == i,
            forall|k: int| 0 <= k < i ==> crate::json::jview(#[trigger] items@[k]) == address_val(
                addrs@[k]@,
            ),
        decreases n - i,
    {
        items.push(address_json(&addrs[i]));
        i += 1;
    }
    let r = Json::Arr(items);
    proof {
        lemma_jview_items(items@);
        assert(r@->Arr_0 =~~= recipients_val(addrs.deep_view())->Arr_0);
    }
    r
}

/// The MsGraph send payload of an outbound email.
pub open spec fn msgraph_payload_val(
    subject: Seq<char>,
    body: Seq<char>,
    to: Seq<Seq<char>>,
    cc: Seq<Seq<char>>,
    bcc: Seq<Seq<char>>,
    from: Option<Seq<char>>,
) -> JsonVal {
    JsonVal::Obj(
        seq![
            (
                "message"@,
                JsonVal::Obj(
                    seq![
                        ("subject"@, JsonVal::Str(subject)),
                        (
                            "body"@,
                            JsonVal::Obj(
                                seq![
                                    ("contentType"@, JsonVal::Str("HTML"@)),
                                    ("content"@, JsonVal::Str(body)),
                                ],
                            ),
                        ),
                        ("toRecipients"@, recipients_val(to)),
                        ("ccRecipients"@, recipients_val(cc)),
                        ("bccRecipients"@, recipients_val(bcc)),
                        (
                            "from"@,
                            match from {
                                Some(a) => address_val(a),
                                None => JsonVal::Null,
                            },
                        ),
                    ],
                ),
            ),
            ("saveToSentItems"@, JsonVal::Bool(false)),
        ],
    )
}

/// The Gmail send payload of an outbound email.
pub open spec fn gmail_payload_val(
    subject: Seq<char>,
    body: Seq<char>,
    to: Seq<Seq<char>>,
    cc: Seq<Seq<char>>,
    bcc: Seq<Seq<char>>,
    from: Option<Seq<char>>,
) -> JsonVal {
    JsonVal::Obj(
        seq![
            (
                "message"@,
                JsonVal::Obj(
                    seq![
                        ("subject"@, JsonVal::Str(subject)),
                        ("body"@, JsonVal::Str(body)),
                        ("to"@, strings_val(to)),
                        ("cc"@, strings_val(cc)),
                        ("bcc"@, strings_val(bcc)),
                        (
                            "from"@,
                            match from {
                                Some(a) => JsonVal::Str(a),
                                None => JsonVal::Null,
                            },
                        ),
                    ],
                ),
            ),
        ],
    )
}

/// The send payload a provider builds out of the validated fields.
pub open spec fn send_payload_val(
    provider: EmailProvider,
    subject: Seq<char>,
    body: Seq<char>,
    to: Seq<Seq<char>>,
    cc: Seq<Seq<char>>,
    bcc: Seq<Seq<char>>,
    from: Option<Seq<char>>,
) -> JsonVal {
    match provider {
        EmailProvider::MsGraph => msgraph_payload_val(subject, body, to, cc, bcc, from),
        EmailProvider::Gmail => gmail_payload_val(subject, body, to, cc, bcc, from),
    }
}

/// What building a send request guarantees: an unsupported topic or a
/// missing required field is a `Config` error; otherwise the request is the
/// provider-specific payload of the envelope's fields — without secret
/// bytes — together with the provider's required-secret audit envelopes, and
/// only a capability-level failure is handed through.
pub open spec fn build_send_post<P: SecretProvider>(
    event: EventEnvelope,
    secrets: P,
    r: Result<EmailSendRequest, ProviderError>,
) -> bool {
    match outbound_provider_view(event.topic@) {
        None => r matches Err(e) && (e matches ProviderError::Config(m) && m@
            == "unsupported outbound email topic: "@ + event.topic@),
        Some(p) => {
            let pv = event.payload@;
            if str_array_field(pv, "to"@) is Some && str_field(pv, "subject"@) is Some && str_field(
                pv,
                "body"@,
            ) is Some {
                match r {
                    Ok(req) => {
                        &&& req.provider == p
                        &&& req.payload@ == send_payload_val(
                            p,
                            str_field(pv, "subject"@)->0,
                            str_field(pv, "body"@)->0,
                            str_array_field(pv, "to"@)->0,
                            opt_str_array_field(pv, "cc"@),
                            opt_str_array_field(pv, "bcc"@),
                            str_field(pv, "from"@),
                        )
                        &&& email_secret_events_ok(
                            p,
                            secrets,
                            event.tenant,
                            "email-provider"@,
                            req.secret_events@,
                        )
                    },
                    Err(e) => email_secret_failure(p, secrets, e),
                }
            } else {
                // The first required field found wanting — `to`, then
                // `subject`, then `body` — is the one the error names.
                r matches Err(e) && (e matches ProviderError::Config(m) && m@ == (
                if str_array_field(pv, "to"@) is None {
                    crate::payload::missing_array_msg("to"@)
                } else if str_field(pv, "subject"@) is None {
                    crate::payload::missing_field_msg("subject"@)
                } else {
                    crate::payload::missing_field_msg("body"@)
                }))
            }
        },
    }
}

/// Translates an outbound envelope into a provider-specific send request,
/// resolving the provider's required secrets and attaching their audit
/// envelopes. The secret values are never embedded in the payload.
pub fn build_send_request<P: SecretProvider>(event: &EventEnvelope, secrets: &P) -> (r: Result<
    EmailSendRequest,
    ProviderError,
>)
    ensures
        build_send_post(*event, *secrets, r),
{
    let provider = detect_outbound_provider(event.topic.as_str())?;
    let to = expect_array_strings(&event.payload, "to")?;
    let subject = expect_string(&event.payload, "subject")?;
    let body = expect_string(&event.payload, "body")?;
    let cc = optional_array_strings(&event.payload, "cc");
    let bcc = optional_array_strings(&event.payload, "bcc");
    let from: Option<String> = match event.payload.get("from") {
        Some(f) => match f.as_str() {
            Some(s) => Some(s.clone()),
            None => None,
        },
        None => None,
    };

    let secret_events = ensure_email_secrets(
        provider,
        secrets,
        event.tenant.clone_ctx(),
        "email-provider",
    )?;

    let payload = match provider {
        EmailProvider::MsGraph => {
            let mut body_fields: Vec<(String, Json)> = Vec::new();
            body_fields.push((String::from_str("contentType"), Json::Str(String::from_str("HTML"))));
            body_fields.push((String::from_str("content"), Json::Str(body)));
            let body_obj = Json::Obj(body_fields);
            proof {
                lemma_jview_fields(body_fields@);
                assert(body_obj@->Obj_0 =~~= JsonVal::Obj(
                    seq![
                        ("contentType"@, JsonVal::Str("HTML"@)),
                        ("content"@, JsonVal::Str(str_field(event.payload@, "body"@)->0)),
                    ],
                )->Obj_0);
            }
            let mut msg_fields: Vec<(String, Json)> = Vec::new();
            msg_fields.push((String::from_str("subject"), Json::Str(subject)));
            msg_fields.push((String::from_str("body"), body_obj));
            msg_fields.push((String::from_str("toRecipients"), recipients_json(&to)));
            msg_fields.push((String::from_str("ccRecipients"), recipients_json(&cc)));
            msg_fields.push((String::from_str("bccRecipients"), recipients_json(&bcc)));
            msg_fields.push(
                (
                    String::from_str("from"),
                    match &from {
                        Some(a) => address_json(a),
                        None => Json::Null,
                    },
                ),
            );
            let msg_obj = Json::Obj(msg_fields);
            proof {
                lemma_jview_fields(msg_fields@);
                assert(msg_obj@->Obj_0 =~~= msgraph_payload_val(
                    str_field(event.payload@, "subject"@)->0,
                    str_field(event.payload@, "body"@)->0,
                    str_array_field(event.payload@, "to"@)->0,
                    opt_str_array_field(event.payload@, "cc"@),
                    opt_str_array_field(event.payload@, "bcc"@),
                    str_field(event.payload@, "from"@),
                )->Obj_0[0].1->Obj_0);
            }
            let mut fields: Vec<(String, Json)> = Vec::new();
            fields.push((String::from_str("message"), msg_obj));
            fields.push((String::from_str("saveToSentItems"), Json::Bool(false)));
            let payload = Json::Obj(fields);
            proof {
                lemma_jview_fields(fields@);
                assert(payload@->Obj_0 =~~= msgraph_payload_val(
                    str_field(event.payload@, "subject"@)->0,
                    str_field(event.payload@, "body"@)->0,
                    str_array_field(event.payload@, "to"@)->0,
                    opt_str_array_field(event.payload@, "cc"@),
                    opt_str_array_field(event.payload@, "bcc"@),
                    str_field(event.payload@, "from"@),
                )->Obj_0);
            }
            payload
        },
        EmailProvider::Gmail => {
            let mut msg_fields: Vec<(String, Json)> = Vec::new();
            msg_fields.push((String::from_str("subject"), Json::Str(subject)));
            msg_fields.push((String::from_str("body"), Json::Str(body)));
            msg_fields.push((String::from_str("to"), strings_to_json(&to)));
            msg_fields.push((String::from_str("cc"), strings_to_json(&cc)));
            msg_fields.push((String::from_str("bcc"), strings_to_json(&bcc)));
            msg_fields.push(
                (
                    String::from_str("from"),
                    match &from {
                        Some(a) => Json::Str(a.clone()),
                        None => Json::Null,
                    },
                ),
            );
            let msg_obj = Json::Obj(msg_fields);
            proof {
                lemma_jview_fields(msg_fields@);
                assert(msg_obj@->Obj_0 =~~= gmail_payload_val(
                    str_field(event.payload@, "subject"@)->0,
                    str_field(event.payload@, "body"@)->0,
                    str_array_field(event.payload@, "to"@)->0,
                    opt_str_array_field(event.payload@, "cc"@),
                    opt_str_array_field(event.payload@, "bcc"@),
                    str_field(event.payload@, "from"@),
                )->Obj_0[0].1->Obj_0);
            }
            let mut fields: Vec<(String, Json)> = Vec::new();
            fields.push((String::from_str("message"), msg_obj));
            let payload = Json::Obj(fields);
            proof {
                lemma_jview_fields(fields@);
                assert(payload@->Obj_0 =~~= gmail_payload_val(
                    str_field(event.payload@, "subject"@)->0,
                    str_field(event.payload@, "body"@)->0,
                    str_array_field(event.payload@, "to"@)->0,
                    opt_str_array_field(event.payload@, "cc"@),
                    opt_str_array_field(event.payload@, "bcc"@),
                    str_field(event.payload@, "from"@),
                )->Obj_0);
            }
            payload
        },
    };

    Ok(EmailSendRequest { provider, payload, secret_events })
}

/// Translates an outbound envelope into a send request, resolving secrets
/// through the host's secrets store; outside the plugin runtime that store
/// fails every lookup, so a supported, well-formed envelope fails here.
pub fn build_send_request_with_secrets_store(event: &EventEnvelope) -> (r: Result<
    EmailSendRequest,
    ProviderError,
>)
    ensures
        build_send_post(*event, SecretsStoreProvider, r),
{
    let provider = SecretsStoreProvider;
    build_send_request(event, &provider)
}

} // verus!

//! SMS channel adapter (Twilio): maps inbound webhook payloads into event
//! envelopes under a phone-to-alias mapping, and outbound envelopes into
//! Twilio send-request shapes.

use vstd::prelude::*;
use vstd::string::StringExecFns;
use crate::error::ProviderError;
use crate::events::EventEnvelope;
use crate::events::Metadata;
use crate::events::bool_str;
use crate::events::bool_string;
use crate::events::header_md;
use crate::events::insert_header_entries;
use crate::events::md_insert;
use crate::events::md_lookup;
use crate::events::new_event;
use crate::events::opt_view;
use crate::json::Json;
use crate::json::JsonVal;
use crate::json::is_prefix_of;
use crate::json::lemma_jview_fields;
use crate::json::str_starts_with;
use crate::payload::expect_string;
use crate::secrets::SecretProvider;
use crate::secrets::SecretsStoreProvider;
use crate::secrets::resolve_secret;
use crate::secrets::resolved_audit;
use crate::tenant::TenantCtx;

verus! {

/// Inbound SMS configuration: a phone-to-alias mapping for topic suffixes
/// and an optional signing-secret reference.
#[derive(Debug, PartialEq, Eq)]
pub struct TwilioSourceConfig {
    /// Inbound phone numbers mapped to aliases; unknown numbers map to
    /// `unknown`.
    pub phone_aliases: Metadata,
    /// Optional reference to a signing secret for webhook validation.
    pub signing_secret_ref: Option<String>,
}

/// An inbound Twilio webhook payload as the host hands it over.
#[derive(Debug, PartialEq, Eq)]
pub struct TwilioWebhookPayload {
    pub from: String,
    pub to: String,
    pub body: String,
    pub message_sid: String,
    /// The raw webhook document, embedded verbatim.
    pub raw: Json,
    pub headers: Metadata,
    /// Host-provided flag: the webhook signature was already validated.
    pub signature_validated: bool,
}

/// The alias of the destination number: the mapping's entry, or `unknown`.
pub open spec fn alias_view(cfg: TwilioSourceConfig, to: Seq<char>) -> Seq<char> {
    match md_lookup(cfg.phone_aliases@, to) {
        Some(a) => a,
        None => "unknown"@,
    }
}

/// The payload of an inbound SMS envelope: the message fields and the raw
/// webhook document, verbatim.
pub open spec fn sms_payload_val(p: TwilioWebhookPayload) -> JsonVal {
    JsonVal::Obj(
        seq![
            ("from"@, JsonVal::Str(p.from@)),
            ("to"@, JsonVal::Str(p.to@)),
            ("body"@, JsonVal::Str(p.body@)),
            ("message_sid"@, JsonVal::Str(p.message_sid@)),
            ("raw"@, p.raw@),
        ],
    )
}

/// The metadata of an inbound SMS envelope: provider tag, both numbers,
/// message id, the signature-validity flag, and one entry per header.
pub open spec fn sms_md_model(cfg: TwilioSourceConfig, p: TwilioWebhookPayload) -> Seq<
    (Seq<char>, Seq<char>),
> {
    let sig = p.signature_validated || cfg.signing_secret_ref is None;
    let s0 = md_insert(Seq::empty(), "provider"@, "twilio"@);
    let s1 = md_insert(s0, "from"@, p.from@);
    let s2 = md_insert(s1, "to"@, p.to@);
    let s3 = md_insert(s2, "message_sid"@, p.message_sid@);
    let s4 = md_insert(s3, "signature_valid"@, bool_str(sig));
    header_md(s4, p.headers@)
}

/// Maps an inbound Twilio webhook into an event envelope. The topic is
/// `sms.in.twilio.<alias>` under the destination number's alias; no secret
/// resolution happens on this path — signature validation is the caller's
/// job, reported through the metadata flag alone.
pub fn handle_inbound_sms(
    cfg: &TwilioSourceConfig,
    tenant: TenantCtx,
    payload: TwilioWebhookPayload,
) -> (r: Result<EventEnvelope, ProviderError>)
    ensures
        r matches Ok(e) && ({
            &&& e.topic@ == "sms.in.twilio."@ + alias_view(*cfg, payload.to@)
            &&& e.type_@ == "com.greentic.sms.twilio.inbound.v1"@
            &&& e.source@ == "sms-provider"@
            &&& e.tenant == tenant
            &&& e.subject matches Some(s) && s@ == payload.to@
            &&& e.correlation_id matches Some(c) && c@ == payload.message_sid@
            &&& e.payload@ == sms_payload_val(payload)
            &&& e.metadata@ == sms_md_model(*cfg, payload)
        }),
{
    let alias: String = match cfg.phone_aliases.get(payload.to.as_str()) {
        Some(a) => a.clone(),
        None => String::from_str("unknown"),
    };
    let topic = String::from_str("sms.in.twilio.").concat(alias.as_str());

    let mut metadata = Metadata::new();
    metadata.insert(String::from_str("provider"), String::from_str("twilio"));
    metadata.insert(String::from_str("from"), payload.from.clone());
    metadata.insert(String::from_str("to"), payload.to.clone());
    metadata.insert(String::from_str("message_sid"), payload.message_sid.clone());
    let signature_valid = payload.signature_validated || cfg.signing_secret_ref.is_none();
    metadata.insert(String::from_str("signature_valid"), bool_string(signature_valid));
    insert_header_entries(&mut metadata, &payload.headers);

    let mut fields: Vec<(String, Json)> = Vec::new();
    fields.push((String::from_str("from"), Json::Str(payload.from.clone())));
    fields.push((String::from_str("to"), Json::Str(payload.to.clone())));
    fields.push((String::from_str("body"), Json::Str(payload.body.clone())));
    fields.push((String::from_str("message_sid"), Json::Str(payload.message_sid.clone())));
    fields.push((String::from_str("raw"), payload.raw.deep_clone()));
    let doc = Json::Obj(fields);
    proof {
        lemma_jview_fields(fields@);
        assert(doc@->Obj_0 =~~= sms_payload_val(payload)->Obj_0);
    }

    Ok(
        new_event(
            topic,
            String::from_str("com.greentic.sms.twilio.inbound.v1"),
            String::from_str("sms-provider"),
            tenant,
            Some(payload.to.clone()),
            Some(payload.message_sid.clone()),
            doc,
            metadata,
        ),
    )
}

/// Outbound SMS configuration.
#[derive(Debug, PartialEq, Eq)]
pub struct TwilioSinkConfig {
    pub account_sid: String,
    /// Optional reference to the auth-token secret — never the token itself.
    pub auth_token_ref: Option<String>,
    /// Fallback sender number when the payload gives none.
    pub default_from: Option<String>,
}

/// A Twilio send request shape: target URL, form fields, and the audit
/// envelopes of any auth-token resolution.
#[derive(Debug)]
pub struct TwilioSendRequest {
    pub account_sid: String,
    pub auth_token_ref: Option<String>,
    pub url: String,
    pub body: Metadata,
    pub secret_events: Vec<EventEnvelope>,
}

/// The sender of an outbound message: the payload's `from` field, else the
/// configured default.
pub open spec fn sms_from_view(cfg: TwilioSinkConfig, pv: JsonVal) -> Option<Seq<char>> {
    match crate::payload::str_field(pv, "from"@) {
        Some(f) => Some(f),
        None => opt_view(cfg.default_from),
    }
}

/// The form fields of an outbound message: `To`, `Body`, and `From` when a
/// sender is known.
pub open spec fn sms_form_model(cfg: TwilioSinkConfig, pv: JsonVal) -> Seq<
    (Seq<char>, Seq<char>),
> {
    let s0 = md_insert(Seq::empty(), "To"@, crate::payload::str_field(pv, "to"@)->0);
    let s1 = md_insert(s0, "Body"@, crate::payload::str_field(pv, "body"@)->0);
    match sms_from_view(cfg, pv) {
        Some(f) => md_insert(s1, "From"@, f),
        None => s1,
    }
}

/// The audit envelopes of the auth-token resolution: none without a
/// configured reference, one with it.
pub open spec fn sms_secret_events_ok<P: SecretProvider>(
    cfg: TwilioSinkConfig,
    secrets: P,
    tenant: TenantCtx,
    events: Seq<EventEnvelope>,
) -> bool {
    match cfg.auth_token_ref {
        None => events.len() == 0,
        Some(k) => events.len() == 1 && resolved_audit(
            secrets,
            events[0],
            k@,
            "tenant"@,
            tenant,
            "sms-provider"@,
            "twilio auth token"@,
        ),
    }
}

/// What building a Twilio send request guarantees: a topic outside
/// `sms.out.twilio` or a missing `to` or `body` field is a `Config` error;
/// otherwise the request carries the account, the deterministic target URL,
/// the form fields, and the auth-token audit envelopes; only a
/// capability-level failure is handed through.
pub open spec fn sms_send_post<P: SecretProvider>(
    cfg: TwilioSinkConfig,
    event: EventEnvelope,
    secrets: P,
    r: Result<TwilioSendRequest, ProviderError>,
) -> bool {
    if !is_prefix_of("sms.out.twilio"@, event.topic@) {
        r matches Err(e) && (e matches ProviderError::Config(m) && m@ == "unsupported sms topic "@
            + event.topic@)
    } else {
        let pv = event.payload@;
        match r {
            Ok(req) => {
                &&& crate::payload::str_field(pv, "to"@) is Some
                &&& crate::payload::str_field(pv, "body"@) is Some
                &&& req.account_sid@ == cfg.account_sid@
                &&& opt_view(req.auth_token_ref) == opt_view(cfg.auth_token_ref)
                &&& req.url@ == "https://api.twilio.com/2010-04-01/Accounts/"@ + cfg.account_sid@
                    + "/Messages.json"@
                &&& req.body@ == sms_form_model(cfg, pv)
                &&& sms_secret_events_ok(cfg, secrets, event.tenant, req.secret_events@)
            },
            // A missing field is named by its error — `to` before `body`,
            // the order the fields are read in; an auth-token resolution
            // failure is handed through as the provider admitted it.
            Err(e) => ((e matches ProviderError::Config(m) && m@ == (
                if crate::payload::str_field(pv, "to"@) is None {
                    crate::payload::missing_field_msg("to"@)
                } else {
                    crate::payload::missing_field_msg("body"@)
                })) && (crate::payload::str_field(pv, "to"@) is None
                || crate::payload::str_field(pv, "body"@) is None)) || (
            cfg.auth_token_ref matches Some(k) && secrets.admits(k@, Err(e))),
        }
    }
}

/// Builds the Twilio send request of an outbound envelope: resolves the
/// configured auth-token secret (emitting its audit envelope), reads the
/// required `to` and `body` fields, falls back to the configured sender, and
/// targets the account's Messages endpoint.
pub fn build_send_request<P: SecretProvider>(
    cfg: &TwilioSinkConfig,
    event: &EventEnvelope,
    secrets: &P,
) -> (r: Result<TwilioSendRequest, ProviderError>)
    ensures
        sms_send_post(*cfg, *event, *secrets, r),
{
    if !str_starts_with(event.topic.as_str(), "sms.out.twilio") {
        return Err(
            ProviderError::Config(
                String::from_str("unsupported sms topic ").concat(event.topic.as_str()),
            ),
        );
    }

    let mut secret_events: Vec<EventEnvelope> = Vec::new();
    match &cfg.auth_token_ref {
        Some(key) => {
            let resolution = resolve_secret(
                secrets,
                key.as_str(),
                "tenant",
                event.tenant.clone_ctx(),
                "sms-provider",
                "twilio auth token",
            )?;
            proof {
                assert(secrets.admits(key@, Ok(resolution.value)));
            }
            let mut res_events = resolution.events;
            secret_events.append(&mut res_events);
        },
        None => {},
    }

    let to = expect_string(&event.payload, "to")?;
    let body = expect_string(&event.payload, "body")?;
    let from: Option<String> = match event.payload.get("from") {
        Some(f) => match f.as_str() {
            Some(s) => Some(s.clone()),
            None => match &cfg.default_from {
                Some(d) => Some(d.clone()),
                None => None,
            },
        },
        None => match &cfg.default_from {
            Some(d) => Some(d.clone()),
            None => None,
        },
    };

    let mut form = Metadata::new();
    form.insert(String::from_str("To"), to);
    form.insert(String::from_str("Body"), body);
    match from {
        Some(f) => form.insert(String::from_str("From"), f),
        None => {},
    }

    let url = String::from_str("https://api.twilio.com/2010-04-01/Accounts/").concat(
        cfg.account_sid.as_str(),
    ).concat("/Messages.json");

    Ok(
        TwilioSendRequest {
            account_sid: cfg.account_sid.clone(),
            auth_token_ref: match &cfg.auth_token_ref {
                Some(k) => Some(k.clone()),
                None => None,
            },
            url,
            body: form,
            secret_events,
        },
    )
}

/// Builds the Twilio send request, resolving the auth token through the
/// host's secrets store; outside the plugin runtime that store fails every
/// lookup, so a configured auth-token reference fails here.
pub fn build_send_request_with_secrets_store(cfg: &TwilioSinkConfig, event: &EventEnvelope) -> (r:
    Result<TwilioSendRequest, ProviderError>)
    ensures
        sms_send_post(*cfg, *event, SecretsStoreProvider, r),
{
    let provider = SecretsStoreProvider;
    build_send_request(cfg, event, &provider)
}

} // verus!

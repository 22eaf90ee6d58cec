use greentic_providers::codec::endpoint_from_json;
use greentic_providers::codec::endpoint_to_json;
use greentic_providers::codec::envelope_from_json;
use greentic_providers::codec::envelope_to_json;
use greentic_providers::codec::scheduler_from_json;
use greentic_providers::codec::scheduler_to_json;
use greentic_providers::codec::inbound_email_from_json;
use greentic_providers::codec::inbound_email_to_json;
use greentic_providers::codec::inbound_request_from_json;
use greentic_providers::codec::inbound_request_to_json;
use greentic_providers::codec::outbound_email_from_json;
use greentic_providers::codec::outbound_email_to_json;
use greentic_providers::codec::outbound_webhook_from_json;
use greentic_providers::codec::twilio_payload_from_json;
use greentic_providers::codec::twilio_payload_to_json;
use greentic_providers::codec::outbound_webhook_to_json;
use greentic_providers::codec::tenant_from_json;
use greentic_providers::codec::tenant_to_json;
use greentic_providers::codec::twilio_sink_from_json;
use greentic_providers::codec::twilio_sink_to_json;
use greentic_providers::codec::twilio_source_from_json;
use greentic_providers::codec::twilio_source_to_json;
use greentic_providers::events::new_event;
use greentic_providers::events::set_idempotency_key;
use greentic_providers::events::Metadata;
use greentic_providers::json::Json;
use greentic_providers::tenant::TenantCtx;
use greentic_providers::timer::Schedule;
use greentic_providers::timer::SchedulerConfig;
use greentic_providers::webhook::HttpEndpointConfig;
use greentic_providers::webhook::WebhookRoute;

fn sample_tenant() -> TenantCtx {
    TenantCtx::new("dev".to_string(), "acme".to_string())
        .expect("tenant")
        .with_team(Some("core".to_string()))
}

#[test]
fn http_endpoint_config_roundtrip() {
    let cfg = HttpEndpointConfig {
        base_path: "/webhook".to_string(),
        routes: vec![
            WebhookRoute {
                path: "/stripe".to_string(),
                secret_ref: Some("events/webhook/dev/acme/stripe".to_string()),
                topic_prefix: "webhook.stripe".to_string(),
            },
            WebhookRoute {
                path: "/github".to_string(),
                secret_ref: None,
                topic_prefix: "webhook.github".to_string(),
            },
        ],
    };

    let value = endpoint_to_json(&cfg);
    let roundtrip = endpoint_from_json(&value).expect("deserialize");
    assert_eq!(cfg, roundtrip);
}

#[test]
fn scheduler_config_roundtrip() {
    let cfg = SchedulerConfig {
        schedules: vec![
            Schedule {
                name: "daily".to_string(),
                cron: "0 0 * * *".to_string(),
                topic: "timer.daily.report".to_string(),
                payload: Json::Obj(vec![(
                    "kind".to_string(),
                    Json::Str("daily".to_string()),
                )]),
            },
            Schedule {
                name: "hourly".to_string(),
                cron: "0 * * * *".to_string(),
                topic: "timer.hourly.sync".to_string(),
                payload: Json::Obj(vec![(
                    "kind".to_string(),
                    Json::Str("hourly".to_string()),
                )]),
            },
        ],
    };

    let value = scheduler_to_json(&cfg);
    let roundtrip = scheduler_from_json(&value).expect("deserialize");
    assert_eq!(cfg, roundtrip);
}

#[test]
fn tenant_context_roundtrip() {
    let tenant = sample_tenant();
    let value = tenant_to_json(&tenant);
    let roundtrip = tenant_from_json(&value).expect("deserialize");
    assert_eq!(tenant, roundtrip);
}

#[test]
fn envelope_roundtrip() {
    let mut metadata = Metadata::new();
    metadata.insert("http_method".to_string(), "POST".to_string());
    let event = new_event(
        "webhook.stripe.payment_succeeded".to_string(),
        "com.greentic.webhook.generic.v1".to_string(),
        "webhook-gateway".to_string(),
        sample_tenant(),
        Some("/webhook/stripe".to_string()),
        Some("req-123".to_string()),
        Json::Obj(vec![("id".to_string(), Json::Str("evt_1".to_string()))]),
        metadata,
    );

    let value = envelope_to_json(&event);
    let roundtrip = envelope_from_json(&value).expect("deserialize");
    assert_eq!(event, roundtrip);
}

#[test]
fn new_event_sets_defaults() {
    let tenant = sample_tenant();
    let mut metadata = Metadata::new();
    metadata.insert("http_method".to_string(), "POST".to_string());

    let event = new_event(
        "webhook.stripe.payment_succeeded".to_string(),
        "com.greentic.webhook.generic.v1".to_string(),
        "webhook-gateway".to_string(),
        tenant,
        Some("/webhook/stripe".to_string()),
        Some("req-123".to_string()),
        Json::Obj(vec![("id".to_string(), Json::Str("evt_1".to_string()))]),
        metadata,
    );

    assert!(!event.id.is_empty());
    assert_eq!(event.topic, "webhook.stripe.payment_succeeded");
    assert_eq!(event.type_, "com.greentic.webhook.generic.v1");
    assert_eq!(event.source, "webhook-gateway");
    assert_eq!(event.subject, Some("/webhook/stripe".to_string()));
    assert_eq!(event.correlation_id, Some("req-123".to_string()));
    assert_eq!(
        event.payload,
        Json::Obj(vec![("id".to_string(), Json::Str("evt_1".to_string()))])
    );
    assert!(event.time > 0);
    assert_eq!(
        event.metadata.get("http_method"),
        Some(&"POST".to_string())
    );
    assert_eq!(event.metadata.len(), 1);
}

#[test]
fn idempotency_key_helper_sets_metadata() {
    let mut metadata = Metadata::new();
    set_idempotency_key(&mut metadata, "abc".to_string());
    assert_eq!(metadata.get("idempotency_key"), Some(&"abc".to_string()));
    set_idempotency_key(&mut metadata, "def".to_string());
    assert_eq!(metadata.get("idempotency_key"), Some(&"def".to_string()));
}

#[test]
fn tenant_rejects_empty_identifiers() {
    assert!(TenantCtx::new("".to_string(), "acme".to_string()).is_none());
    assert!(TenantCtx::new("dev".to_string(), "".to_string()).is_none());
    assert!(TenantCtx::new("dev".to_string(), "acme".to_string()).is_some());
}

#[test]
fn sms_config_roundtrips() {
    let mut phone_aliases = Metadata::new();
    phone_aliases.insert("+15550001".to_string(), "support".to_string());
    let source = greentic_providers::sms::TwilioSourceConfig {
        phone_aliases,
        signing_secret_ref: Some("TWILIO_AUTH_TOKEN".to_string()),
    };
    let roundtrip = twilio_source_from_json(&twilio_source_to_json(&source)).expect("decode");
    assert_eq!(source, roundtrip);

    let sink = greentic_providers::sms::TwilioSinkConfig {
        account_sid: "AC123".to_string(),
        auth_token_ref: None,
        default_from: Some("+15550001".to_string()),
    };
    let roundtrip = twilio_sink_from_json(&twilio_sink_to_json(&sink)).expect("decode");
    assert_eq!(sink, roundtrip);
}

#[test]
fn outbound_webhook_config_roundtrip() {
    let mut headers = Metadata::new();
    headers.insert("x-custom".to_string(), "value".to_string());
    let cfg = greentic_providers::webhook::OutboundWebhookConfig {
        url: "https://example.test/endpoint".to_string(),
        headers,
    };
    let roundtrip =
        outbound_webhook_from_json(&outbound_webhook_to_json(&cfg)).expect("decode");
    assert_eq!(cfg, roundtrip);
}

#[test]
fn malformed_document_is_rejected_by_decoders() {
    let not_a_config = Json::Arr(vec![Json::Int(1)]);
    assert!(endpoint_from_json(&not_a_config).is_none());
    assert!(scheduler_from_json(&not_a_config).is_none());
    assert!(tenant_from_json(&not_a_config).is_none());
    assert!(envelope_from_json(&not_a_config).is_none());
}

#[test]
fn inbound_shapes_roundtrip() {
    let mut headers = Metadata::new();
    headers.insert("X-Test".to_string(), "1".to_string());
    let request = greentic_providers::webhook::InboundHttpRequest {
        method: "POST".to_string(),
        path: "/webhook/stripe".to_string(),
        headers,
        body: Json::Obj(vec![("id".to_string(), Json::Str("evt_1".to_string()))]),
        correlation_id: Some("req-123".to_string()),
        signature_validated: true,
    };
    let roundtrip = inbound_request_from_json(&inbound_request_to_json(&request)).expect("decode");
    assert_eq!(request, roundtrip);

    let sms = greentic_providers::sms::TwilioWebhookPayload {
        from: "+15559999".to_string(),
        to: "+15550001".to_string(),
        body: "Hello".to_string(),
        message_sid: "SM123".to_string(),
        raw: Json::Null,
        headers: Metadata::new(),
        signature_validated: false,
    };
    let roundtrip = twilio_payload_from_json(&twilio_payload_to_json(&sms)).expect("decode");
    assert_eq!(sms, roundtrip);
}

#[test]
fn email_shapes_roundtrip() {
    let email = greentic_providers::email::InboundEmail {
        provider: greentic_providers::email::EmailProvider::Gmail,
        folder_or_label: "inbox".to_string(),
        message_id: "msg-1".to_string(),
        subject: "Hello".to_string(),
        from: "ops@example.com".to_string(),
        to: vec!["team@example.com".to_string()],
        cc: vec![],
        bcc: vec![],
        received_at: 1_700_000_000,
        body: "Test".to_string(),
        headers: Metadata::new(),
    };
    let roundtrip = inbound_email_from_json(&inbound_email_to_json(&email)).expect("decode");
    assert_eq!(email, roundtrip);

    let outbound = greentic_providers::email::OutboundEmail {
        provider: greentic_providers::email::EmailProvider::MsGraph,
        to: vec!["a@example.com".to_string()],
        subject: "Hi".to_string(),
        body: "<p>Body</p>".to_string(),
        cc: vec!["c@example.com".to_string()],
        bcc: vec![],
        from_override: None,
    };
    let roundtrip = outbound_email_from_json(&outbound_email_to_json(&outbound)).expect("decode");
    assert_eq!(outbound, roundtrip);
}

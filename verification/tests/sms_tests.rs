use greentic_providers::error::ProviderError;
use greentic_providers::events::new_event;
use greentic_providers::events::Metadata;
use greentic_providers::json::Json;
use greentic_providers::secrets::StaticSecretProvider;
use greentic_providers::sms::build_send_request;
use greentic_providers::sms::handle_inbound_sms;
use greentic_providers::sms::TwilioSinkConfig;
use greentic_providers::sms::TwilioSourceConfig;
use greentic_providers::sms::TwilioWebhookPayload;
use greentic_providers::tenant::TenantCtx;

fn tenant() -> TenantCtx {
    TenantCtx::new("dev".to_string(), "acme".to_string()).expect("tenant")
}

fn outbound_event(topic: &str, payload: Json) -> greentic_providers::events::EventEnvelope {
    new_event(
        topic.to_string(),
        "t".to_string(),
        "s".to_string(),
        tenant(),
        None,
        None,
        payload,
        Metadata::new(),
    )
}

#[test]
fn maps_twilio_webhook_to_event() {
    let mut phone_aliases = Metadata::new();
    phone_aliases.insert("+15550001".to_string(), "support".to_string());
    let cfg = TwilioSourceConfig {
        phone_aliases,
        signing_secret_ref: Some("TWILIO_AUTH_TOKEN".to_string()),
    };
    let mut headers = Metadata::new();
    headers.insert("X-Twilio-Signature".to_string(), "sig".to_string());
    let payload = TwilioWebhookPayload {
        from: "+15559999".to_string(),
        to: "+15550001".to_string(),
        body: "Hello".to_string(),
        message_sid: "SM123".to_string(),
        raw: Json::Obj(vec![(
            "MessageSid".to_string(),
            Json::Str("SM123".to_string()),
        )]),
        headers,
        signature_validated: true,
    };

    let event = handle_inbound_sms(&cfg, tenant(), payload).expect("event");
    assert_eq!(event.topic, "sms.in.twilio.support");
    assert_eq!(
        event.metadata.get("signature_valid"),
        Some(&"true".to_string())
    );
}

#[test]
fn unknown_number_maps_to_unknown_alias() {
    let cfg = TwilioSourceConfig {
        phone_aliases: Metadata::new(),
        signing_secret_ref: None,
    };
    let payload = TwilioWebhookPayload {
        from: "+15559999".to_string(),
        to: "+15550002".to_string(),
        body: "Hi".to_string(),
        message_sid: "SM1".to_string(),
        raw: Json::Null,
        headers: Metadata::new(),
        signature_validated: false,
    };
    let event = handle_inbound_sms(&cfg, tenant(), payload).expect("event");
    assert_eq!(event.topic, "sms.in.twilio.unknown");
    // No signing secret is configured, so the flag reports valid.
    assert_eq!(
        event.metadata.get("signature_valid"),
        Some(&"true".to_string())
    );
}

#[test]
fn builds_send_request() {
    let cfg = TwilioSinkConfig {
        account_sid: "AC123".to_string(),
        auth_token_ref: Some("TWILIO_AUTH_TOKEN".to_string()),
        default_from: Some("+15550001".to_string()),
    };
    let event = outbound_event(
        "sms.out.twilio",
        Json::Obj(vec![
            ("to".to_string(), Json::Str("+15559999".to_string())),
            ("body".to_string(), Json::Str("Hello".to_string())),
        ]),
    );

    let secrets =
        StaticSecretProvider::new(vec![("TWILIO_AUTH_TOKEN".to_string(), b"token".to_vec())]);
    let req = build_send_request(&cfg, &event, &secrets).expect("req");
    assert_eq!(req.body.get("To"), Some(&"+15559999".to_string()));
    assert_eq!(req.body.get("From"), Some(&"+15550001".to_string()));
    assert_eq!(
        req.url,
        "https://api.twilio.com/2010-04-01/Accounts/AC123/Messages.json"
    );
    assert_eq!(req.secret_events.len(), 1);
    assert_eq!(req.secret_events[0].topic, "greentic.secrets.put");
}

#[test]
fn missing_secret_emits_missing_detected() {
    let cfg = TwilioSinkConfig {
        account_sid: "AC123".to_string(),
        auth_token_ref: Some("TWILIO_AUTH_TOKEN".to_string()),
        default_from: Some("+15550001".to_string()),
    };
    let event = outbound_event(
        "sms.out.twilio",
        Json::Obj(vec![
            ("to".to_string(), Json::Str("+15559999".to_string())),
            ("body".to_string(), Json::Str("Hello".to_string())),
        ]),
    );

    let secrets = StaticSecretProvider::empty();
    let req = build_send_request(&cfg, &event, &secrets).expect("req");
    assert_eq!(req.secret_events.len(), 1);
    assert_eq!(
        req.secret_events[0].topic,
        "greentic.secrets.missing.detected"
    );
}

#[test]
fn rejects_non_twilio_topic() {
    let cfg = TwilioSinkConfig {
        account_sid: "AC123".to_string(),
        auth_token_ref: None,
        default_from: None,
    };
    let event = outbound_event(
        "email.out.msgraph",
        Json::Obj(vec![
            ("to".to_string(), Json::Str("+15559999".to_string())),
            ("body".to_string(), Json::Str("Hello".to_string())),
        ]),
    );
    let secrets = StaticSecretProvider::empty();
    let err = build_send_request(&cfg, &event, &secrets).unwrap_err();
    assert!(matches!(err, ProviderError::Config(_)));
    assert_eq!(err.message(), "unsupported sms topic email.out.msgraph");
}

#[test]
fn missing_to_field_is_config_error() {
    let cfg = TwilioSinkConfig {
        account_sid: "AC123".to_string(),
        auth_token_ref: None,
        default_from: None,
    };
    let event = outbound_event(
        "sms.out.twilio",
        Json::Obj(vec![(
            "body".to_string(),
            Json::Str("Hello".to_string()),
        )]),
    );
    let secrets = StaticSecretProvider::empty();
    let err = build_send_request(&cfg, &event, &secrets).unwrap_err();
    assert!(matches!(err, ProviderError::Config(_)));
    assert_eq!(err.message(), "missing string field to");
}

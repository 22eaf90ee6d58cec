use greentic_providers::error::ProviderError;
use greentic_providers::events::new_event;
use greentic_providers::events::Metadata;
use greentic_providers::json::Json;
use greentic_providers::secrets::StaticSecretProvider;
use greentic_providers::tenant::TenantCtx;
use greentic_providers::webhook::build_outgoing_request;
use greentic_providers::webhook::resolve_webhook_secret;
use greentic_providers::webhook::HttpEndpointConfig;
use greentic_providers::webhook::InboundHttpRequest;
use greentic_providers::webhook::OutboundWebhookConfig;
use greentic_providers::webhook::WebhookRoute;
use greentic_providers::webhook::WebhookSource;

fn sample_tenant() -> TenantCtx {
    TenantCtx::new("dev".to_string(), "acme".to_string())
        .expect("tenant")
        .with_team(Some("core".to_string()))
}

fn sample_config() -> HttpEndpointConfig {
    HttpEndpointConfig {
        base_path: "/webhook".to_string(),
        routes: vec![
            WebhookRoute {
                path: "/stripe".to_string(),
                secret_ref: Some("WEBHOOK_SIGNING_SECRET".to_string()),
                topic_prefix: "webhook.stripe".to_string(),
            },
            WebhookRoute {
                path: "/github".to_string(),
                secret_ref: None,
                topic_prefix: "webhook.github".to_string(),
            },
        ],
    }
}

fn sample_body() -> Json {
    Json::Obj(vec![
        (
            "type".to_string(),
            Json::Str("payment_succeeded".to_string()),
        ),
        ("id".to_string(), Json::Str("evt_1".to_string())),
    ])
}

#[test]
fn maps_inbound_request_to_event() {
    let source = WebhookSource::new(sample_config());
    let mut headers = Metadata::new();
    headers.insert("idempotency-key".to_string(), "idem-1".to_string());
    let req = InboundHttpRequest {
        method: "POST".to_string(),
        path: "/webhook/stripe".to_string(),
        headers,
        body: sample_body(),
        correlation_id: Some("req-123".to_string()),
        signature_validated: true,
    };

    let secrets = StaticSecretProvider::new(vec![(
        "WEBHOOK_SIGNING_SECRET".to_string(),
        b"sig".to_vec(),
    )]);
    let result = source
        .handle_request(sample_tenant(), req, &secrets)
        .expect("event");

    assert_eq!(result.event.topic, "webhook.stripe.payment_succeeded");
    assert_eq!(result.event.subject, Some("/webhook/stripe".to_string()));
    assert_eq!(result.event.payload, sample_body());
    assert_eq!(
        result.event.metadata.get("idempotency_key"),
        Some(&"idem-1".to_string())
    );
    assert_eq!(
        result.event.metadata.get("signature_valid"),
        Some(&"true".to_string())
    );
    assert_eq!(
        result.event.metadata.get("header:idempotency-key"),
        Some(&"idem-1".to_string())
    );
    assert_eq!(result.secret_events.len(), 1);
    assert_eq!(result.secret_events[0].topic, "greentic.secrets.put");
}

#[test]
fn unmatched_path_yields_config_error() {
    let source = WebhookSource::new(sample_config());
    let req = InboundHttpRequest {
        method: "POST".to_string(),
        path: "/webhook/unknown".to_string(),
        headers: Metadata::new(),
        body: Json::Null,
        correlation_id: None,
        signature_validated: false,
    };
    let secrets = StaticSecretProvider::empty();
    let err = source
        .handle_request(sample_tenant(), req, &secrets)
        .unwrap_err();
    assert!(matches!(err, ProviderError::Config(_)));
}

#[test]
fn missing_signature_secret_leaves_flag_false() {
    let source = WebhookSource::new(sample_config());
    let req = InboundHttpRequest {
        method: "POST".to_string(),
        path: "/webhook/stripe".to_string(),
        headers: Metadata::new(),
        body: Json::Null,
        correlation_id: None,
        signature_validated: false,
    };
    let secrets = StaticSecretProvider::empty();
    let result = source
        .handle_request(sample_tenant(), req, &secrets)
        .expect("event");
    // The route has a secret reference and the caller asserted nothing.
    assert_eq!(
        result.event.metadata.get("signature_valid"),
        Some(&"false".to_string())
    );
    // A body without a `type` string falls back to the `received` suffix.
    assert_eq!(result.event.topic, "webhook.stripe.received");
}

#[test]
fn builds_outgoing_request() {
    let mut headers = Metadata::new();
    headers.insert("x-custom".to_string(), "value".to_string());
    let cfg = OutboundWebhookConfig {
        url: "https://example.test/endpoint".to_string(),
        headers,
    };
    let event = new_event(
        "webhook.outgoing".to_string(),
        "com.greentic.webhook.generic.v1".to_string(),
        "webhook-gateway".to_string(),
        sample_tenant(),
        Some("/webhook".to_string()),
        Some("req-1".to_string()),
        Json::Obj(vec![(
            "hello".to_string(),
            Json::Str("world".to_string()),
        )]),
        Metadata::new(),
    );

    let outgoing = build_outgoing_request(&cfg, &event).expect("build");
    assert_eq!(outgoing.url, cfg.url);
    assert_eq!(outgoing.method, "POST");
    assert_eq!(
        outgoing.body,
        Json::Obj(vec![(
            "hello".to_string(),
            Json::Str("world".to_string()),
        )])
    );
    assert_eq!(
        outgoing.headers.get("x-correlation-id"),
        Some(&"req-1".to_string())
    );
    assert_eq!(
        outgoing.headers.get("content-type"),
        Some(&"application/json".to_string())
    );
}

#[test]
fn resolves_signing_secret() {
    let route = WebhookRoute {
        path: "/stripe".to_string(),
        secret_ref: Some("WEBHOOK_SIGNING_SECRET".to_string()),
        topic_prefix: "webhook.stripe".to_string(),
    };
    let secrets = StaticSecretProvider::new(vec![(
        "WEBHOOK_SIGNING_SECRET".to_string(),
        b"sig".to_vec(),
    )]);

    let events =
        resolve_webhook_secret(&route, &secrets, sample_tenant()).expect("events present");
    assert_eq!(events.len(), 1);
    assert_eq!(events[0].topic, "greentic.secrets.put");
}

#[test]
fn missing_signing_secret_emits_missing_detected() {
    let route = WebhookRoute {
        path: "/stripe".to_string(),
        secret_ref: Some("WEBHOOK_SIGNING_SECRET".to_string()),
        topic_prefix: "webhook.stripe".to_string(),
    };
    let secrets = StaticSecretProvider::empty();
    let events =
        resolve_webhook_secret(&route, &secrets, sample_tenant()).expect("events present");
    assert_eq!(events.len(), 1);
    assert_eq!(events[0].topic, "greentic.secrets.missing.detected");
}

#[test]
fn secrets_store_route_fails_outside_runtime() {
    let source = WebhookSource::new(sample_config());
    let req = InboundHttpRequest {
        method: "POST".to_string(),
        path: "/webhook/stripe".to_string(),
        headers: Metadata::new(),
        body: Json::Null,
        correlation_id: None,
        signature_validated: true,
    };
    // The stripe route names a signing secret, and the live secrets store is
    // unavailable outside the plugin runtime.
    let err = source
        .handle_request_with_secrets_store(sample_tenant(), req)
        .unwrap_err();
    assert!(matches!(err, ProviderError::Auth(_)));
}

#[test]
fn route_without_secret_succeeds_through_secrets_store() {
    let source = WebhookSource::new(sample_config());
    let req = InboundHttpRequest {
        method: "POST".to_string(),
        path: "/webhook/github".to_string(),
        headers: Metadata::new(),
        body: Json::Null,
        correlation_id: None,
        signature_validated: false,
    };
    let result = source
        .handle_request_with_secrets_store(sample_tenant(), req)
        .expect("event");
    assert_eq!(result.event.topic, "webhook.github.received");
    assert!(result.secret_events.is_empty());
    // The github route declares no secret reference, so the flag is valid.
    assert_eq!(
        result.event.metadata.get("signature_valid"),
        Some(&"true".to_string())
    );
}

#[test]
fn idempotency_header_lookup_is_case_insensitive() {
    let source = WebhookSource::new(sample_config());
    let mut headers = Metadata::new();
    headers.insert("IDEMPOTENCY-KEY".to_string(), "idem-2".to_string());
    let req = InboundHttpRequest {
        method: "POST".to_string(),
        path: "/webhook/github".to_string(),
        headers,
        body: Json::Null,
        correlation_id: None,
        signature_validated: false,
    };
    let secrets = StaticSecretProvider::empty();
    let result = source
        .handle_request(sample_tenant(), req, &secrets)
        .expect("event");
    assert_eq!(
        result.event.metadata.get("idempotency_key"),
        Some(&"idem-2".to_string())
    );
}

#[test]
fn unmatched_path_error_names_the_path() {
    let source = WebhookSource::new(sample_config());
    let req = InboundHttpRequest {
        method: "POST".to_string(),
        path: "/webhook/unknown".to_string(),
        headers: Metadata::new(),
        body: Json::Null,
        correlation_id: None,
        signature_validated: false,
    };
    let secrets = StaticSecretProvider::empty();
    let err = source
        .handle_request(sample_tenant(), req, &secrets)
        .unwrap_err();
    assert_eq!(err.message(), "no route for path /webhook/unknown");
}

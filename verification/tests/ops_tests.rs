use greentic_providers::error::ProviderError;
use greentic_providers::events::Metadata;
use greentic_providers::json::Json;
use greentic_providers::ops::build_request;
use greentic_providers::ops::dummy_echo;
use greentic_providers::ops::dummy_publish;
use greentic_providers::ops::email_publish;
use greentic_providers::ops::ingest_http;
use greentic_providers::ops::parse_dummy_op;
use greentic_providers::ops::parse_timer_op;
use greentic_providers::ops::timer_tick;
use greentic_providers::ops::webhook_publish_response;
use greentic_providers::ops::IngestInput;
use greentic_providers::ops::MemoryStateStore;
use greentic_providers::ops::MessagingConfig;
use greentic_providers::ops::ProviderOp;
use greentic_providers::ops::TickInput;
use greentic_providers::ops::TimerTickConfig;
use greentic_providers::ops::WebhookPublishConfig;

fn webhook_config() -> WebhookPublishConfig {
    let mut headers = Metadata::new();
    headers.insert("x-test".to_string(), "1".to_string());
    WebhookPublishConfig {
        target_url: "https://example.test/hook".to_string(),
        method: "POST".to_string(),
        headers,
        auth: Some("token123".to_string()),
        timeout_ms: Some(5000),
    }
}

fn webhook_event() -> Json {
    Json::Obj(vec![
        ("id".to_string(), Json::Int(1)),
        ("kind".to_string(), Json::Str("test".to_string())),
    ])
}

#[test]
fn builds_request_with_auth() {
    let req = build_request(&webhook_config(), &webhook_event()).expect("build");
    assert_eq!(req.method, "POST");
    assert_eq!(req.url, "https://example.test/hook");
    assert_eq!(
        req.headers.get("authorization"),
        Some(&"Bearer token123".to_string())
    );
    let id = req
        .body
        .get("event")
        .and_then(|v| v.get("id"))
        .expect("event id");
    assert_eq!(id, &Json::Int(1));
}

#[test]
fn uppercases_configured_method() {
    let mut cfg = webhook_config();
    cfg.method = "post".to_string();
    let req = build_request(&cfg, &webhook_event()).expect("build");
    assert_eq!(req.method, "POST");
}

#[test]
fn blank_target_url_is_config_error() {
    let mut cfg = webhook_config();
    cfg.target_url = "  ".to_string();
    let err = build_request(&cfg, &webhook_event()).unwrap_err();
    assert!(matches!(err, ProviderError::Config(_)));
}

#[test]
fn handle_publish_returns_payload() {
    let event = webhook_event();
    let req = build_request(&webhook_config(), &event).expect("build");
    let out = webhook_publish_response(&event, &req, false);
    assert!(out.get("receipt_id").is_some());
    assert_eq!(
        out.get("status").and_then(|v| v.as_str()),
        Some(&"queued".to_string())
    );
    assert_eq!(
        out.get("request")
            .and_then(|r| r.get("url"))
            .and_then(|v| v.as_str()),
        Some(&"https://example.test/hook".to_string())
    );
}

#[test]
fn publish_returns_receipt() {
    let payload = Json::Obj(vec![(
        "message".to_string(),
        Json::Str("hi".to_string()),
    )]);
    let mut store = MemoryStateStore::new();
    let out = dummy_publish(&payload, &mut store);
    assert_eq!(
        out.get("status").and_then(|v| v.as_str()),
        Some(&"published".to_string())
    );
    assert!(out.get("receipt_id").is_some());
}

#[test]
fn publish_persists_host_snapshot() {
    let payload = Json::Obj(vec![(
        "message".to_string(),
        Json::Str("hi".to_string()),
    )]);
    let mut store = MemoryStateStore::new();
    dummy_publish(&payload, &mut store);
    let cached = store
        .read("events/dummy/last_published.json")
        .expect("host cache present");
    assert_eq!(cached, &b"{\"message\":\"hi\"}".to_vec());
}

#[test]
fn echo_wraps_payload() {
    let payload = Json::Str("hello".to_string());
    let out = dummy_echo(&payload);
    assert_eq!(out.get("echo"), Some(&Json::Str("hello".to_string())));
}

#[test]
fn publish_writes_state_host() {
    let config = MessagingConfig {
        messaging_provider_id: "messaging.email.provider".to_string(),
        from: Some("noreply@example.com".to_string()),
        persistence_key_prefix: None,
    };
    let event = Json::Obj(vec![
        ("to".to_string(), Json::Str("user@example.com".to_string())),
        ("subject".to_string(), Json::Str("Hello".to_string())),
        ("body".to_string(), Json::Str("Test".to_string())),
    ]);
    let mut store = MemoryStateStore::new();
    let out = email_publish(&config, &event, &mut store).expect("publish");
    let key = out
        .get("state_key")
        .and_then(|v| v.as_str())
        .expect("state_key")
        .clone();
    let stored = store.read(&key).expect("stored entry");
    let prefix = b"{\"messaging_provider_id\":\"messaging.email.provider\"";
    assert_eq!(&stored[..prefix.len()], prefix);
}

#[test]
fn ingest_http_writes_state_host_and_envelope() {
    let input = IngestInput {
        config: MessagingConfig {
            messaging_provider_id: "messaging.email.sendgrid".to_string(),
            from: Some("noreply@example.com".to_string()),
            persistence_key_prefix: None,
        },
        event: Json::Obj(vec![
            ("to".to_string(), Json::Str("user@example.com".to_string())),
            ("subject".to_string(), Json::Str("Hello".to_string())),
            ("body".to_string(), Json::Str("Test".to_string())),
        ]),
        handler_id: Some("email-main".to_string()),
        tenant: Some("tenant-a".to_string()),
        team: Some("team-1".to_string()),
        correlation_id: Some("corr-123".to_string()),
        http: None,
        raw: None,
    };
    let mut store = MemoryStateStore::new();
    let out = ingest_http(&input, &mut store).expect("ingest_http");
    let key = out
        .get("state_key")
        .and_then(|v| v.as_str())
        .expect("state_key")
        .clone();
    let stored = store.read(&key).expect("stored entry");
    let prefix = b"{\"messaging_provider_id\":\"messaging.email.sendgrid\"";
    assert_eq!(&stored[..prefix.len()], prefix);
    let emitted = match out.get("emitted_events") {
        Some(Json::Arr(items)) => &items[0],
        other => panic!("expected emitted_events array, got {:?}", other),
    };
    assert_eq!(
        emitted.get("event_type").and_then(|v| v.as_str()),
        Some(&"email.received".to_string())
    );
}

#[test]
fn timer_tick_writes_state_host_and_envelope() {
    let input = TickInput {
        config: TimerTickConfig {
            timezone: "UTC".to_string(),
            default_delay_seconds: Some(30),
            persistence_key_prefix: Some("events/timer/scheduled".to_string()),
        },
        event: Json::Obj(vec![
            ("kind".to_string(), Json::Str("reminder".to_string())),
            ("id".to_string(), Json::Int(1)),
        ]),
        handler_id: Some("nightly-reminder".to_string()),
        tenant: Some("tenant-a".to_string()),
        team: Some("team-1".to_string()),
        correlation_id: Some("corr-123".to_string()),
    };
    let mut store = MemoryStateStore::new();
    let out = timer_tick(&input, &mut store).expect("timer_tick");
    let key = out
        .get("state_key")
        .and_then(|v| v.as_str())
        .expect("state_key")
        .clone();
    let stored = store.read(&key).expect("stored entry");
    let prefix = b"{\"event\":{\"kind\":\"reminder\",\"id\":1}";
    assert_eq!(&stored[..prefix.len()], prefix);
    let emitted = match out.get("emitted_events") {
        Some(Json::Arr(items)) => &items[0],
        other => panic!("expected emitted_events array, got {:?}", other),
    };
    assert_eq!(
        emitted.get("event_type").and_then(|v| v.as_str()),
        Some(&"timer.tick".to_string())
    );
}

#[test]
fn unsupported_op_is_rejected() {
    assert_eq!(parse_dummy_op("publish").expect("op"), ProviderOp::Publish);
    assert_eq!(parse_dummy_op("echo").expect("op"), ProviderOp::Echo);
    assert!(matches!(
        parse_dummy_op("drop"),
        Err(ProviderError::Config(_))
    ));
    assert_eq!(
        parse_timer_op("timer_tick").expect("op"),
        ProviderOp::TimerTick
    );
    assert_eq!(
        parse_timer_op("publish").expect("op"),
        ProviderOp::TimerTick
    );
    assert!(matches!(
        parse_timer_op("echo"),
        Err(ProviderError::Config(_))
    ));
}

#[test]
fn blank_provider_id_is_config_error() {
    let config = MessagingConfig {
        messaging_provider_id: " ".to_string(),
        from: None,
        persistence_key_prefix: None,
    };
    let mut store = MemoryStateStore::new();
    let err = email_publish(&config, &Json::Null, &mut store).unwrap_err();
    assert!(matches!(err, ProviderError::Config(_)));
}

#[test]
fn ingest_appends_http_and_raw_attachments() {
    let input = IngestInput {
        config: MessagingConfig {
            messaging_provider_id: "messaging.email.sendgrid".to_string(),
            from: None,
            persistence_key_prefix: None,
        },
        event: Json::Str("payload".to_string()),
        handler_id: None,
        tenant: None,
        team: None,
        correlation_id: None,
        http: Some(Json::Str("http-details".to_string())),
        raw: Some(Json::Str("raw-body".to_string())),
    };
    let mut store = MemoryStateStore::new();
    let out = ingest_http(&input, &mut store).expect("ingest_http");
    let emitted = match out.get("emitted_events") {
        Some(Json::Arr(items)) => &items[0],
        other => panic!("expected emitted_events array, got {:?}", other),
    };
    assert_eq!(
        emitted.get("http"),
        Some(&Json::Str("http-details".to_string()))
    );
    assert_eq!(emitted.get("raw"), Some(&Json::Str("raw-body".to_string())));
    assert_eq!(
        emitted
            .get("source")
            .and_then(|s| s.get("handler_id"))
            .and_then(|v| v.as_str()),
        Some(&"default".to_string())
    );
}

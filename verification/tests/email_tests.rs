use greentic_providers::email::build_send_request;
use greentic_providers::email::ensure_email_secrets;
use greentic_providers::email::map_inbound_email;
use greentic_providers::email::EmailProvider;
use greentic_providers::email::InboundEmail;
use greentic_providers::error::ProviderError;
use greentic_providers::events::new_event;
use greentic_providers::events::Metadata;
use greentic_providers::json::Json;
use greentic_providers::secrets::StaticSecretProvider;
use greentic_providers::tenant::TenantCtx;

fn sample_tenant() -> TenantCtx {
    TenantCtx::new("dev".to_string(), "acme".to_string())
        .expect("tenant")
        .with_team(Some("core".to_string()))
}

fn outbound_event(topic: &str, payload: Json) -> greentic_providers::events::EventEnvelope {
    new_event(
        topic.to_string(),
        "t".to_string(),
        "s".to_string(),
        sample_tenant(),
        Some("Hi".to_string()),
        None,
        payload,
        Metadata::new(),
    )
}

#[test]
fn maps_inbound_email_to_event() {
    let mut headers = Metadata::new();
    headers.insert("X-Test".to_string(), "1".to_string());
    let email = InboundEmail {
        provider: EmailProvider::MsGraph,
        folder_or_label: "inbox".to_string(),
        message_id: "msg-1".to_string(),
        subject: "Hello".to_string(),
        from: "ops@example.com".to_string(),
        to: vec!["team@example.com".to_string()],
        cc: vec![],
        bcc: vec![],
        received_at: 1_700_000_000,
        body: "Test".to_string(),
        headers,
    };

    let event = map_inbound_email(sample_tenant(), &email);
    assert_eq!(event.topic, "email.in.msgraph.inbox");
    assert_eq!(event.subject, Some("Hello".to_string()));
    assert_eq!(event.correlation_id, Some("msg-1".to_string()));
    assert_eq!(event.metadata.get("provider"), Some(&"msgraph".to_string()));
    assert_eq!(event.metadata.get("header:x-test"), Some(&"1".to_string()));
}

#[test]
fn builds_msgraph_send_request() {
    let payload = Json::Obj(vec![
        (
            "to".to_string(),
            Json::Arr(vec![Json::Str("a@example.com".to_string())]),
        ),
        ("subject".to_string(), Json::Str("Hi".to_string())),
        ("body".to_string(), Json::Str("<p>Body</p>".to_string())),
        (
            "cc".to_string(),
            Json::Arr(vec![Json::Str("c@example.com".to_string())]),
        ),
        ("bcc".to_string(), Json::Arr(vec![])),
        (
            "from".to_string(),
            Json::Str("noreply@example.com".to_string()),
        ),
    ]);
    let event = outbound_event("email.out.msgraph", payload);

    let secrets = StaticSecretProvider::new(vec![(
        "MSGRAPH_CLIENT_SECRET".to_string(),
        b"secret".to_vec(),
    )]);
    let request = build_send_request(&event, &secrets).expect("request");
    assert_eq!(request.provider, EmailProvider::MsGraph);
    let message = request.payload.get("message").expect("message");
    let recipients = message.get("toRecipients").expect("toRecipients");
    let first = match recipients {
        Json::Arr(items) => &items[0],
        other => panic!("expected array, got {:?}", other),
    };
    assert_eq!(
        first
            .get("emailAddress")
            .and_then(|a| a.get("address"))
            .and_then(|a| a.as_str()),
        Some(&"a@example.com".to_string())
    );
    assert_eq!(request.secret_events.len(), 1);
    assert_eq!(request.secret_events[0].topic, "greentic.secrets.put");
}

#[test]
fn builds_gmail_send_request_with_flat_recipients() {
    let payload = Json::Obj(vec![
        (
            "to".to_string(),
            Json::Arr(vec![Json::Str("a@example.com".to_string())]),
        ),
        ("subject".to_string(), Json::Str("Hi".to_string())),
        ("body".to_string(), Json::Str("text".to_string())),
    ]);
    let event = outbound_event("email.out.gmail", payload);

    let secrets = StaticSecretProvider::empty();
    let request = build_send_request(&event, &secrets).expect("request");
    assert_eq!(request.provider, EmailProvider::Gmail);
    let message = request.payload.get("message").expect("message");
    assert_eq!(
        message.get("to"),
        Some(&Json::Arr(vec![Json::Str("a@example.com".to_string())]))
    );
    // Both Gmail credentials were resolved and found missing.
    assert_eq!(request.secret_events.len(), 2);
}

#[test]
fn rejects_unknown_topic() {
    let payload = Json::Obj(vec![
        (
            "to".to_string(),
            Json::Arr(vec![Json::Str("a@example.com".to_string())]),
        ),
        ("subject".to_string(), Json::Str("Hi".to_string())),
        ("body".to_string(), Json::Str("text".to_string())),
    ]);
    let event = outbound_event("email.out.other", payload);

    let secrets = StaticSecretProvider::empty();
    let err = build_send_request(&event, &secrets).unwrap_err();
    assert!(matches!(err, ProviderError::Config(_)));
    assert_eq!(err.message(), "unsupported outbound email topic: email.out.other");
}

#[test]
fn rejects_missing_required_field() {
    let payload = Json::Obj(vec![(
        "subject".to_string(),
        Json::Str("Hi".to_string()),
    )]);
    let event = outbound_event("email.out.msgraph", payload);
    let secrets = StaticSecretProvider::empty();
    let err = build_send_request(&event, &secrets).unwrap_err();
    assert!(matches!(err, ProviderError::Config(_)));
    assert_eq!(err.message(), "missing string array field to");
}

#[test]
fn resolves_msgraph_secret() {
    let secrets = StaticSecretProvider::new(vec![(
        "MSGRAPH_CLIENT_SECRET".to_string(),
        b"secret".to_vec(),
    )]);
    let events = ensure_email_secrets(
        EmailProvider::MsGraph,
        &secrets,
        sample_tenant(),
        "email-provider",
    )
    .expect("events");
    assert_eq!(events.len(), 1);
    assert_eq!(events[0].topic, "greentic.secrets.put");
}

#[test]
fn missing_gmail_secret_emits_missing_detected() {
    let secrets = StaticSecretProvider::empty();
    let events = ensure_email_secrets(
        EmailProvider::Gmail,
        &secrets,
        sample_tenant(),
        "email-provider",
    )
    .expect("events");
    assert_eq!(events.len(), 2);
    assert!(events
        .iter()
        .all(|e| e.topic == "greentic.secrets.missing.detected"));
}

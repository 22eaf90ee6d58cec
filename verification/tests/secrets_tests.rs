use greentic_providers::error::ProviderError;
use greentic_providers::secrets::resolve_secret;
use greentic_providers::secrets::secret_delete_event;
use greentic_providers::secrets::secret_missing_detected_event;
use greentic_providers::secrets::secret_put_event;
use greentic_providers::secrets::secret_rotate_completed_event;
use greentic_providers::secrets::secret_rotate_requested_event;
use greentic_providers::secrets::SecretProvider;
use greentic_providers::secrets::SecretsStoreProvider;
use greentic_providers::secrets::StaticSecretProvider;
use greentic_providers::tenant::TenantCtx;

fn tenant() -> TenantCtx {
    TenantCtx::new("dev".to_string(), "acme".to_string()).expect("tenant")
}

fn payload_str(payload: &greentic_providers::json::Json, key: &str) -> Option<String> {
    payload.get(key).and_then(|v| v.as_str()).cloned()
}

#[test]
fn secret_events_use_metadata_only() {
    let tenant = tenant();
    let put = secret_put_event("TEST_API_KEY", "tenant", tenant.clone_ctx(), "secrets-tests");
    assert_eq!(put.topic, "greentic.secrets.put");
    assert_eq!(
        payload_str(&put.payload, "schema_version"),
        Some("v1".to_string())
    );
    assert_eq!(
        payload_str(&put.payload, "key"),
        Some("TEST_API_KEY".to_string())
    );
    assert!(
        put.payload.get("value").is_none(),
        "payload must not contain secret bytes"
    );

    let delete = secret_delete_event(
        "TEST_API_KEY",
        "tenant",
        tenant.clone_ctx(),
        "secrets-tests",
        "success",
    );
    assert_eq!(delete.topic, "greentic.secrets.delete");

    let rotate = secret_rotate_requested_event(
        "TEST_API_KEY",
        "tenant",
        "rotation-123",
        "requested",
        tenant.clone_ctx(),
        "secrets-tests",
        None,
    );
    assert_eq!(rotate.topic, "greentic.secrets.rotate.requested");
    assert!(rotate.payload.get("error").is_none());

    let rotate_completed = secret_rotate_completed_event(
        "TEST_API_KEY",
        "tenant",
        "rotation-123",
        "failed",
        tenant.clone_ctx(),
        "secrets-tests",
        Some("network"),
    );
    assert_eq!(rotate_completed.topic, "greentic.secrets.rotate.completed");
    assert_eq!(
        payload_str(&rotate_completed.payload, "error"),
        Some("network".to_string())
    );

    let missing = secret_missing_detected_event(
        "TEST_API_KEY",
        "tenant",
        tenant,
        "events-provider/secrets-smoke",
        "resolve TEST_API_KEY",
        "secrets-tests",
    );
    assert_eq!(missing.topic, "greentic.secrets.missing.detected");
    assert!(
        missing.payload.get("detected_by").is_some(),
        "missing payload must include detector metadata"
    );
}

#[test]
fn static_secret_provider_resolves_and_rejects_missing() {
    let provider = StaticSecretProvider::new(vec![(
        "TEST_API_KEY".to_string(),
        b"present".to_vec(),
    )]);
    let found = provider
        .get_secret("TEST_API_KEY")
        .expect("static provider should resolve");
    assert_eq!(found, Some(b"present".to_vec()));

    let missing = provider
        .get_secret("MISSING_KEY")
        .expect("static provider should return Ok(None)");
    assert!(missing.is_none());

    let resolution = resolve_secret(
        &provider,
        "TEST_API_KEY",
        "tenant",
        tenant(),
        "secrets-tests",
        "probe",
    )
    .expect("resolve");
    assert_eq!(resolution.events[0].topic, "greentic.secrets.put");

    let missing_resolution = resolve_secret(
        &provider,
        "MISSING_KEY",
        "tenant",
        tenant(),
        "secrets-tests",
        "probe",
    )
    .expect("resolve missing");
    assert_eq!(
        missing_resolution.events[0].topic,
        "greentic.secrets.missing.detected"
    );

    let rotation_req = secret_rotate_requested_event(
        "TEST_API_KEY",
        "tenant",
        "rot-1",
        "requested",
        tenant(),
        "secrets-tests",
        None,
    );
    assert_eq!(rotation_req.topic, "greentic.secrets.rotate.requested");

    let rotation_done = secret_rotate_completed_event(
        "TEST_API_KEY",
        "tenant",
        "rot-1",
        "success",
        tenant(),
        "secrets-tests",
        None,
    );
    assert_eq!(rotation_done.topic, "greentic.secrets.rotate.completed");

    let delete_evt = secret_delete_event(
        "TEST_API_KEY",
        "tenant",
        tenant(),
        "secrets-tests",
        "success",
    );
    assert_eq!(delete_evt.topic, "greentic.secrets.delete");
}

#[test]
fn resolution_keeps_value_and_single_audit_event() {
    let provider = StaticSecretProvider::new(vec![("K".to_string(), b"bytes".to_vec())]);
    let resolution = resolve_secret(&provider, "K", "tenant", tenant(), "src", "ctx")
        .expect("resolve");
    assert_eq!(resolution.value, Some(b"bytes".to_vec()));
    assert_eq!(resolution.events.len(), 1);
    assert!(resolution.events[0].payload.get("value").is_none());

    let empty = StaticSecretProvider::empty();
    let missing = resolve_secret(&empty, "K", "tenant", tenant(), "src", "ctx")
        .expect("resolve missing");
    assert!(missing.value.is_none());
    assert_eq!(missing.events.len(), 1);
    assert_eq!(
        payload_str(&missing.events[0].payload, "context"),
        Some("ctx".to_string())
    );
    assert_eq!(
        payload_str(&missing.events[0].payload, "detected_by"),
        Some("src".to_string())
    );
}

#[test]
fn secrets_store_outside_runtime_fails_with_auth_error() {
    let provider = SecretsStoreProvider;
    let err = resolve_secret(&provider, "K", "tenant", tenant(), "src", "ctx").unwrap_err();
    assert!(matches!(err, ProviderError::Auth(_)));
}

#[test]
fn audit_timestamps_are_whole_second_utc() {
    let put = secret_put_event("K", "tenant", tenant(), "src");
    let ts = payload_str(&put.payload, "timestamp_utc").expect("timestamp");
    assert_eq!(ts.len(), 20);
    assert!(ts.ends_with('Z'));
}

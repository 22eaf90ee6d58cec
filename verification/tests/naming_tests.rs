use greentic_providers::tenant::TenantCtx;
use greentic_providers::tenant_secrets::events_provider_secret_key;
use greentic_providers::tenant_secrets::tenant_key;

#[test]
fn tenant_key_renders_env_tenant_and_team() {
    let with_team = TenantCtx::new("dev".to_string(), "acme".to_string())
        .expect("tenant")
        .with_team(Some("core".to_string()));
    assert_eq!(tenant_key(&with_team), "dev/acme/core");

    let without_team = TenantCtx::new("dev".to_string(), "acme".to_string()).expect("tenant");
    assert_eq!(tenant_key(&without_team), "dev/acme/_");
}

#[test]
fn events_provider_secret_key_follows_convention() {
    let tenant = TenantCtx::new("dev".to_string(), "acme".to_string()).expect("tenant");
    assert_eq!(
        events_provider_secret_key(&tenant, "email"),
        "events/email/dev/acme/_/credentials"
    );
}

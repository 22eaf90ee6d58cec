use greentic_providers::error::ProviderError;
use greentic_providers::json::Json;
use greentic_providers::tenant::TenantCtx;
use greentic_providers::timer::Schedule;
use greentic_providers::timer::SchedulerConfig;
use greentic_providers::timer::TimerSource;

fn tenant() -> TenantCtx {
    TenantCtx::new("dev".to_string(), "acme".to_string()).expect("tenant")
}

fn sample_source() -> TimerSource {
    TimerSource::new(SchedulerConfig {
        schedules: vec![Schedule {
            name: "daily".to_string(),
            cron: "0 0 * * *".to_string(),
            topic: "timer.daily.summary".to_string(),
            payload: Json::Obj(vec![(
                "kind".to_string(),
                Json::Str("daily".to_string()),
            )]),
        }],
    })
}

#[test]
fn fires_schedule_into_event() {
    let source = sample_source();
    let event = source.fire(tenant(), "daily").expect("event");
    assert_eq!(event.topic, "timer.daily.summary");
    assert_eq!(event.subject, Some("daily".to_string()));
    assert_eq!(
        event.payload,
        Json::Obj(vec![(
            "kind".to_string(),
            Json::Str("daily".to_string()),
        )])
    );
    assert_eq!(event.metadata.get("cron"), Some(&"0 0 * * *".to_string()));
}

#[test]
fn unknown_schedule_fails_with_config_error() {
    let source = sample_source();
    let err = source.fire(tenant(), "weekly").unwrap_err();
    assert!(matches!(err, ProviderError::Config(_)));
    assert_eq!(err.message(), "unknown schedule weekly");
}

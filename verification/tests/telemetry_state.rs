use proxy_core::platform::Platform;
use proxy_core::telemetry::{
    get_dataset, get_os, init_axiom_client, is_initialized, track_connection_attempt,
    track_daily_active, track_feature_usage, update_proxy_mode, update_uptime, Telemetry,
    TelemetryConfig, TelemetryError, TelemetrySources,
};
use proxy_core::tray::{SystemTrayPayload, TrayState};

fn config() -> TelemetryConfig {
    TelemetryConfig { api_token: "token".to_string(), dataset: "data".to_string(), org_id: None }
}

#[test]
fn telemetry_starts_once() {
    let mut ctx = Telemetry::new(10);
    assert!(!is_initialized(&ctx));
    assert_eq!(get_dataset(&ctx), None);
    assert_eq!(init_axiom_client(&mut ctx, config(), 11), Ok(()));
    assert!(is_initialized(&ctx));
    assert_eq!(get_dataset(&ctx), Some("data".to_string()));
    assert_eq!(init_axiom_client(&mut ctx, config(), 12), Err(TelemetryError::AlreadyInitialized));
    assert_eq!(ctx.metrics.last_updated, 11);
}

#[test]
fn config_prefers_earlier_candidates() {
    let sources = TelemetrySources {
        api_token: vec![None, Some("second".to_string()), Some("third".to_string())],
        dataset: vec![None, None],
        org_id: vec![None, Some("org".to_string())],
    };
    let config = TelemetryConfig::from_env(&sources).ok().unwrap();
    assert_eq!(config.api_token, "second");
    assert_eq!(config.dataset, "v2rayx-usage");
    assert_eq!(config.org_id, Some("org".to_string()));
    let none = TelemetrySources { api_token: vec![None, None, None], dataset: vec![], org_id: vec![] };
    assert_eq!(TelemetryConfig::from_env(&none).err(), Some(TelemetryError::MissingToken));
}

#[test]
fn metrics_are_kept_only_when_started() {
    let mut ctx = Telemetry::new(0);
    track_feature_usage(&mut ctx, "pac", 1);
    track_connection_attempt(&mut ctx, true, 2);
    update_proxy_mode(&mut ctx, "pac", 3);
    update_uptime(&mut ctx, 99, 4);
    assert!(ctx.metrics.features_used.is_empty());
    assert_eq!(ctx.metrics.connection_attempts, 0);
    assert_eq!(ctx.metrics.proxy_mode, None);
    assert_eq!(ctx.metrics.uptime_seconds, 0);
    assert_eq!(ctx.metrics.last_updated, 0);

    init_axiom_client(&mut ctx, config(), 5).unwrap();
    track_feature_usage(&mut ctx, "pac", 6);
    track_feature_usage(&mut ctx, "global", 7);
    track_feature_usage(&mut ctx, "pac", 8);
    assert_eq!(ctx.metrics.features_used, vec!["pac".to_string(), "global".to_string()]);
    assert_eq!(ctx.metrics.last_updated, 7);
    track_connection_attempt(&mut ctx, true, 9);
    track_connection_attempt(&mut ctx, false, 10);
    assert_eq!(ctx.metrics.connection_attempts, 2);
    assert_eq!(ctx.metrics.connection_successes, 1);
    update_proxy_mode(&mut ctx, "global", 11);
    assert_eq!(ctx.metrics.proxy_mode, Some("global".to_string()));
    update_uptime(&mut ctx, 3600, 12);
    assert_eq!(ctx.metrics.uptime_seconds, 3600);
    assert_eq!(ctx.metrics.last_updated, 12);
}

#[test]
fn connection_counters_stop_at_the_maximum() {
    let mut ctx = Telemetry::new(0);
    init_axiom_client(&mut ctx, config(), 0).unwrap();
    ctx.metrics.connection_attempts = u32::MAX;
    ctx.metrics.connection_successes = u32::MAX - 1;
    track_connection_attempt(&mut ctx, true, 1);
    assert_eq!(ctx.metrics.connection_attempts, u32::MAX);
    assert_eq!(ctx.metrics.connection_successes, u32::MAX);
}

#[test]
fn daily_activity_is_reported_once_a_day() {
    let mut ctx = Telemetry::new(0);
    assert!(!track_daily_active(&mut ctx, "2024-05-01"));
    init_axiom_client(&mut ctx, config(), 0).unwrap();
    assert!(track_daily_active(&mut ctx, "2024-05-01"));
    assert!(!track_daily_active(&mut ctx, "2024-05-01"));
    assert!(track_daily_active(&mut ctx, "2024-05-02"));
    assert_eq!(ctx.last_active_date, Some("2024-05-02".to_string()));
}

#[test]
fn os_names() {
    assert_eq!(get_os(Platform::MacOs), "macos");
    assert_eq!(get_os(Platform::Windows), "windows");
    assert_eq!(get_os(Platform::Linux), "linux");
    assert_eq!(get_os(Platform::Other), "unknown");
}

#[test]
fn tray_values() {
    assert_eq!(SystemTrayPayload::new("refresh").message(), "refresh");
    assert_eq!(TrayState::from_service_state(1), TrayState::Running);
    assert_eq!(TrayState::from_service_state(0), TrayState::Paused);
    assert_eq!(TrayState::from_service_state(7), TrayState::Paused);
    assert_eq!(TrayState::Running.toggled(), TrayState::Paused);
    assert_eq!(TrayState::Paused.toggled(), TrayState::Running);
}

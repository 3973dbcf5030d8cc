use vehicle_manager::init_trace;
use vehicle_manager::telemetry::{TelemetryConfig, TelemetryError, TelemetryGuard};

#[test]
fn config_defaults_apply_when_environment_is_silent() {
    let c = TelemetryConfig::from_environment("1.2.3".to_string(), None, None, None);
    assert_eq!(c.service_name, "vehicle-manager-axum");
    assert_eq!(c.service_version, "1.2.3");
    assert_eq!(c.environment, "development");
    assert_eq!(c.otlp_endpoint, "http://localhost:4317");
    assert!(c.enable_tracing);
}

#[test]
fn config_takes_environment_values_when_present() {
    let c = TelemetryConfig::from_environment(
        "0.1.0".to_string(),
        Some("production".to_string()),
        Some("http://collector:4317".to_string()),
        Some("true".to_string()),
    );
    assert_eq!(c.environment, "production");
    assert_eq!(c.otlp_endpoint, "http://collector:4317");
    assert!(c.enable_tracing);
}

#[test]
fn tracing_is_disabled_only_by_an_explicit_false() {
    let c = TelemetryConfig::from_environment(
        "0.1.0".to_string(),
        None,
        None,
        Some("false".to_string()),
    );
    assert!(!c.enable_tracing);
    let c = TelemetryConfig::from_environment(
        "0.1.0".to_string(),
        None,
        None,
        Some("nonsense".to_string()),
    );
    assert!(c.enable_tracing);
}

#[test]
fn telemetry_error_messages() {
    let e = TelemetryError::TracerInit("no exporter".to_string());
    assert_eq!(e.message(), "Failed to initialize tracer: no exporter");
    let e = TelemetryError::Config("bad filter".to_string());
    assert_eq!(e.message(), "Configuration error: bad filter");
}

#[test]
fn init_trace_always_succeeds() {
    assert_eq!(init_trace(), Ok(()));
}

#[test]
fn guard_shutdown_consumes_the_guard() {
    let guard = TelemetryGuard {};
    guard.shutdown();
}

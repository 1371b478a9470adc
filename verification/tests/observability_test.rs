use axum_apcore::config::ApcoreSettings;
use axum_apcore::engine::observability::setup_observability;

#[test]
fn test_setup_observability_defaults() {
    let settings = ApcoreSettings::default();
    let state = setup_observability(&settings);
    assert!(!state.tracing_enabled);
    assert!(!state.metrics_enabled);
    assert!(!state.logging_enabled);
    assert!(state.tracing_middleware.is_none());
    assert!(state.metrics_collector.is_none());
    assert!(state.error_history.is_none());
}

#[test]
fn test_setup_observability_all_enabled() {
    let settings = ApcoreSettings {
        tracing: true,
        metrics: true,
        observability_logging: true,
        ..ApcoreSettings::default()
    };
    let state = setup_observability(&settings);
    assert!(state.tracing_enabled);
    assert!(state.metrics_enabled);
    assert!(state.logging_enabled);
    assert!(state.tracing_middleware.is_some());
    assert!(state.metrics_collector.is_some());
    assert!(state.error_history.is_some());
}

#[test]
fn test_setup_observability_tracing_only() {
    let settings = ApcoreSettings {
        tracing: true,
        ..ApcoreSettings::default()
    };
    let state = setup_observability(&settings);
    assert!(state.tracing_enabled);
    assert!(state.tracing_middleware.is_some());
    assert!(!state.metrics_enabled);
    assert!(state.metrics_collector.is_none());
    assert!(state.error_history.is_some());
}

#[test]
fn logging_alone_keeps_an_error_history() {
    let settings = ApcoreSettings {
        observability_logging: true,
        ..ApcoreSettings::default()
    };
    let state = setup_observability(&settings);
    assert!(state.logging_enabled);
    assert!(state.tracing_middleware.is_none());
    assert!(state.metrics_collector.is_none());
    assert!(state.error_history.is_some());
}

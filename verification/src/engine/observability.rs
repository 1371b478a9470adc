//! Which observability components the settings switch on.
use std::sync::{Arc, Mutex};
use vstd::prelude::*;

use crate::config::ApcoreSettings;

verus! {

#[verifier::external_type_specification]
#[verifier::external_body]
#[verifier::reject_recursive_types(T)]
pub struct ExMutex<T: ?Sized>(Mutex<T>);

#[verifier::external_type_specification]
#[verifier::external_body]
pub struct ExTracingMiddleware(apcore::observability::tracing_middleware::TracingMiddleware);

#[verifier::external_type_specification]
#[verifier::external_body]
pub struct ExMetricsCollector(apcore::observability::metrics::MetricsCollector);

#[verifier::external_type_specification]
#[verifier::external_body]
pub struct ExErrorHistory(apcore::observability::error_history::ErrorHistory);

/// A tracing middleware that exports spans to standard output
/// (`TracingMiddleware::new` with a `StdoutExporter`).
#[verifier::external_body]
fn new_tracing_middleware() -> Arc<apcore::observability::tracing_middleware::TracingMiddleware> {
    Arc::new(apcore::observability::tracing_middleware::TracingMiddleware::new(
        Box::new(apcore::observability::exporters::StdoutExporter),
    ))
}

/// A metrics collector (`MetricsCollector::new`).
#[verifier::external_body]
fn new_metrics_collector() -> Arc<Mutex<apcore::observability::metrics::MetricsCollector>> {
    Arc::new(Mutex::new(apcore::observability::metrics::MetricsCollector::new()))
}

/// An error history keeping `max_entries` entries per module
/// (`ErrorHistory::new`).
#[verifier::external_body]
fn new_error_history(max_entries: usize) -> Arc<Mutex<apcore::observability::error_history::ErrorHistory>> {
    Arc::new(Mutex::new(apcore::observability::error_history::ErrorHistory::new(max_entries)))
}

/// The observability components in use.
pub struct ObservabilityState {
    pub tracing_enabled: bool,
    pub metrics_enabled: bool,
    pub logging_enabled: bool,
    pub tracing_middleware: Option<Arc<apcore::observability::tracing_middleware::TracingMiddleware>>,
    pub metrics_collector: Option<Arc<Mutex<apcore::observability::metrics::MetricsCollector>>>,
    pub error_history: Option<Arc<Mutex<apcore::observability::error_history::ErrorHistory>>>,
}

/// Sets observability up as the settings ask: tracing middleware when
/// tracing is on, a metrics collector when metrics are on, logging when
/// structured logging is on, and an error history (100 entries per module)
/// when any of the three is on.
pub fn setup_observability(settings: &ApcoreSettings) -> (state: ObservabilityState)
    ensures
        state.tracing_enabled == settings.tracing,
        state.metrics_enabled == settings.metrics,
        state.logging_enabled == settings.observability_logging,
        state.tracing_middleware is Some == settings.tracing,
        state.metrics_collector is Some == settings.metrics,
        state.error_history is Some == (settings.tracing || settings.metrics
            || settings.observability_logging),
{
    let tracing_middleware = if settings.tracing {
        Some(new_tracing_middleware())
    } else {
        None
    };
    let metrics_collector = if settings.metrics {
        Some(new_metrics_collector())
    } else {
        None
    };
    let any = settings.tracing || settings.metrics || settings.observability_logging;
    let error_history = if any {
        Some(new_error_history(100))
    } else {
        None
    };
    ObservabilityState {
        tracing_enabled: settings.tracing,
        metrics_enabled: settings.metrics,
        logging_enabled: settings.observability_logging,
        tracing_middleware,
        metrics_collector,
        error_history,
    }
}

} // verus!

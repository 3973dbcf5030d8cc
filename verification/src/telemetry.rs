//! Telemetry configuration and its error type. Reading the process
//! environment happens at the boundary; this module holds the pure
//! defaulting rules applied to whatever the boundary found there.

use vstd::prelude::*;
use vstd::string::StrSliceExecFns;
use vstd::string::StringExecFns;

verus! {

/// Why telemetry initialization failed.
pub enum TelemetryError {
    TracerInit(String),
    Config(String),
}

/// The mathematical value of a [`TelemetryError`].
pub ghost enum TelemetryErrorView {
    TracerInit(Seq<char>),
    Config(Seq<char>),
}

impl DeepView for TelemetryError {
    type V = TelemetryErrorView;

    open spec fn deep_view(&self) -> TelemetryErrorView {
        match self {
            TelemetryError::TracerInit(m) => TelemetryErrorView::TracerInit(m.deep_view()),
            TelemetryError::Config(m) => TelemetryErrorView::Config(m.deep_view()),
        }
    }
}

/// The message a telemetry error surfaces: its cause, prefixed with
/// which step failed.
pub open spec fn spec_telemetry_message(e: TelemetryErrorView) -> Seq<char> {
    match e {
        TelemetryErrorView::TracerInit(m) => "Failed to initialize tracer: "@ + m,
        TelemetryErrorView::Config(m) => "Configuration error: "@ + m,
    }
}

impl TelemetryError {
    /// Renders the error as its one-line message.
    pub fn message(&self) -> (r: String)
        ensures
            r@ == spec_telemetry_message(self.deep_view()),
    {
        match self {
            TelemetryError::TracerInit(m) => {
                let mut acc = String::from_str("Failed to initialize tracer: ");
                acc.append(m.as_str());
                acc
            },
            TelemetryError::Config(m) => {
                let mut acc = String::from_str("Configuration error: ");
                acc.append(m.as_str());
                acc
            },
        }
    }
}

/// Telemetry configuration.
pub struct TelemetryConfig {
    pub service_name: String,
    pub service_version: String,
    pub environment: String,
    pub otlp_endpoint: String,
    pub enable_tracing: bool,
}

/// How the tracing switch reads: tracing stays on unless the
/// environment explicitly said `false`; any other text, or no text at
/// all, leaves it on.
pub open spec fn spec_traces_enabled(v: Option<Seq<char>>) -> bool {
    match v {
        Some(s) => s != "false"@,
        None => true,
    }
}

impl TelemetryConfig {
    /// Builds the configuration from what the boundary read out of the
    /// process environment, applying the documented defaults: the fixed
    /// service name, `development` as the environment, the local
    /// collector endpoint, and tracing on unless explicitly disabled.
    pub fn from_environment(
        service_version: String,
        environment: Option<String>,
        otlp_endpoint: Option<String>,
        traces_enabled: Option<String>,
    ) -> (c: TelemetryConfig)
        ensures
            c.service_name@ == "vehicle-manager-axum"@,
            c.service_version == service_version,
            c.environment@ == (match environment {
                Some(e) => e@,
                None => "development"@,
            }),
            c.otlp_endpoint@ == (match otlp_endpoint {
                Some(e) => e@,
                None => "http://localhost:4317"@,
            }),
            c.enable_tracing == spec_traces_enabled(traces_enabled.deep_view()),
    {
        let enable_tracing = match &traces_enabled {
            Some(s) => {
                let disabled = String::from_str("false");
                !(*s == disabled)
            },
            None => true,
        };
        TelemetryConfig {
            service_name: String::from_str("vehicle-manager-axum"),
            service_version,
            environment: match environment {
                Some(e) => e,
                None => String::from_str("development"),
            },
            otlp_endpoint: match otlp_endpoint {
                Some(e) => e,
                None => String::from_str("http://localhost:4317"),
            },
            enable_tracing,
        }
    }
}

/// Guard returned by telemetry initialization; dropping it after
/// [`TelemetryGuard::shutdown`] releases nothing further, as there is
/// nothing held.
pub struct TelemetryGuard {}

impl TelemetryGuard {
    /// Gracefully shuts telemetry down; nothing is held today, so this
    /// consumes the guard and performs no work.
    pub fn shutdown(self) {
    }
}

} // verus!

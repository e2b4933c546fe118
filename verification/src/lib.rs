//! Observability of retries and circuit breakers: trace events, counting for
//! tests, operation names under control, and a bounded in-process telemetry
//! sink.
//!
//! [`Instrumentation`] is what operations report to. [`CountingInstrumentation`]
//! counts, [`PrefixedInstrumentation`] puts a prefix before the names,
//! [`TracingInstrumentation`] makes trace events, and
//! [`ExportingInstrumentation`] also writes to an exporter, such as the bounded
//! [`InMemoryExporter`]. Every name passes through [`sanitize_op`].
//!
//! A state that changes is passed by mutable reference, and each contract says
//! what the state becomes. Sharing between threads, stopping the unwind of an
//! exporter and emitting events to a subscriber are up to the host.
//!
//! This is neither an OpenTelemetry API or SDK nor an OTLP implementation.

pub mod counting;
pub mod export;
pub mod instrumentation;
pub mod ops;
pub mod policy;
pub mod prefixed;
pub mod text;
pub mod tracing;

pub use crate::counting::CountingInstrumentation;
pub use crate::export::{
    CallOutcome, ExportDiagnostics, ExportError, ExportingInstrumentation,
    ExportingInstrumentationStats, ForwardWarning, GuardedExporter, InMemoryExporter,
    InMemoryExporterStats, MemExportState, MetricEvent, Operation, Signal, SpanEvent,
    TelemetryExporter, DEFAULT_BUFFER_CAPACITY,
};
pub use crate::instrumentation::{
    record_circuit_close_normalized, record_circuit_open_normalized, record_retry_normalized,
    Instrumentation,
};
pub use crate::ops::{
    is_friendly_op, join_op_segments, normalize_op, op_depth, op_leaf, sanitize_op, truncate_op,
    MAX_OP_BYTES,
};
pub use crate::policy::{
    allows_production_observability_claim, claims_otel_export_complete,
    counting_is_production_metrics, policy_summary, tier_counting, tier_tracing, ObservabilityTier,
};
pub use crate::prefixed::PrefixedInstrumentation;
pub use crate::tracing::{ObservexInstrumentation, TraceEvent, TracingInstrumentation};

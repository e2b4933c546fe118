//! The export surface of the in-process telemetry: events, errors and the
//! exporter interfaces.
//!
//! This is neither an OpenTelemetry API or SDK nor an OTLP implementation, and
//! it promises nothing of their envelopes or life cycles.

use vstd::prelude::*;

pub mod accounting;
pub mod clock;
pub mod diagnostics;
pub mod forwarding;
pub mod guarantees;
pub mod history;
pub mod memory;
pub mod schedule;
pub mod trace;

pub use crate::export::diagnostics::{
    ExportDiagnostics, ExportingInstrumentationStats, ForwardWarning, Operation, Signal,
};
pub use crate::export::forwarding::ExportingInstrumentation;
pub use crate::export::memory::{InMemoryExporter, InMemoryExporterStats, MemExportState};

verus! {

/// The event capacity that [`InMemoryExporter`] has by default for each kind
/// of signal.
pub const DEFAULT_BUFFER_CAPACITY: usize = 1024;

/// Why an export failed.
#[non_exhaustive]
#[derive(Debug, Clone, Copy, PartialEq, Eq, Structural)]
pub enum ExportError {
    /// The exporter has been shut down.
    Shutdown,
    /// The exporter is unavailable inside.
    Unavailable,
    /// The buffer of the signal has no room for the batch; none of it was
    /// written.
    BufferFull,
    /// The exporter unwound, and the unwind was stopped at the boundary.
    Panicked,
}

impl ExportError {
    /// The text of the error.
    pub open spec fn message(self) -> Seq<char> {
        match self {
            ExportError::Shutdown => "遥测导出器已关闭"@,
            ExportError::Unavailable => "遥测导出器内部不可用"@,
            ExportError::BufferFull => "遥测导出器缓冲区已满"@,
            ExportError::Panicked => "遥测导出器发生可展开 panic"@,
        }
    }

    /// The error as text.
    #[must_use]
    pub fn to_string(&self) -> (r: String)
        ensures
            r@ == self.message(),
    {
        match self {
            ExportError::Shutdown => "遥测导出器已关闭".to_owned(),
            ExportError::Unavailable => "遥测导出器内部不可用".to_owned(),
            ExportError::BufferFull => "遥测导出器缓冲区已满".to_owned(),
            ExportError::Panicked => "遥测导出器发生可展开 panic".to_owned(),
        }
    }
}

/// A simplified span event.
#[derive(Debug, PartialEq, Eq)]
pub struct SpanEvent {
    /// The name of the operation.
    pub name: String,
    /// The approximate start, in milliseconds of Unix time.
    pub start_unix_ms: u64,
    /// The attributes, flat.
    pub attributes: Vec<(String, String)>,
}

/// A simplified metric event.
#[derive(Debug, PartialEq, Eq)]
pub struct MetricEvent {
    /// The name of the metric.
    pub name: String,
    /// The value.
    pub value: i64,
    /// The attributes, flat.
    pub attributes: Vec<(String, String)>,
}

/// What a [`SpanEvent`] says.
#[verifier::ext_equal]
pub struct SpanModel {
    pub name: Seq<char>,
    pub start_unix_ms: u64,
    pub attributes: Seq<(Seq<char>, Seq<char>)>,
}

/// What a [`MetricEvent`] says.
#[verifier::ext_equal]
pub struct MetricModel {
    pub name: Seq<char>,
    pub value: i64,
    pub attributes: Seq<(Seq<char>, Seq<char>)>,
}

/// The texts of attributes.
pub open spec fn attribute_texts(attributes: Seq<(String, String)>) -> Seq<
    (Seq<char>, Seq<char>),
> {
    attributes.map_values(|a: (String, String)| (a.0@, a.1@))
}

/// What a batch of spans says.
pub open spec fn span_models(spans: Seq<SpanEvent>) -> Seq<SpanModel> {
    spans.map_values(|s: SpanEvent| s@)
}

/// What a batch of metrics says.
pub open spec fn metric_models(metrics: Seq<MetricEvent>) -> Seq<MetricModel> {
    metrics.map_values(|m: MetricEvent| m@)
}

impl View for SpanEvent {
    type V = SpanModel;

    open spec fn view(&self) -> SpanModel {
        SpanModel {
            name: self.name@,
            start_unix_ms: self.start_unix_ms,
            attributes: attribute_texts(self.attributes@),
        }
    }
}

impl View for MetricEvent {
    type V = MetricModel;

    open spec fn view(&self) -> MetricModel {
        MetricModel {
            name: self.name@,
            value: self.value,
            attributes: attribute_texts(self.attributes@),
        }
    }
}

/// A copy of attributes.
fn clone_attributes(attributes: &Vec<(String, String)>) -> (r: Vec<(String, String)>)
    ensures
        attribute_texts(r@) == attribute_texts(attributes@),
{
    let mut out: Vec<(String, String)> = Vec::new();
    let mut i: usize = 0;
    while i < attributes.len()
        invariant
            i <= attributes@.len(),
            out@.len() == i,
            forall|j: int|
                0 <= j < i ==> (#[trigger] out@[j]).0@ == attributes@[j].0@ && out@[j].1@
                    == attributes@[j].1@,
        decreases attributes@.len() - i,
    {
        out.push((attributes[i].0.clone(), attributes[i].1.clone()));
        i += 1;
    }
    assert(attribute_texts(out@) =~= attribute_texts(attributes@));
    out
}

impl Clone for SpanEvent {
    fn clone(&self) -> (r: Self)
        ensures
            r@ == self@,
    {
        SpanEvent {
            name: self.name.clone(),
            start_unix_ms: self.start_unix_ms,
            attributes: clone_attributes(&self.attributes),
        }
    }
}

impl Clone for MetricEvent {
    fn clone(&self) -> (r: Self)
        ensures
            r@ == self@,
    {
        MetricEvent {
            name: self.name.clone(),
            value: self.value,
            attributes: clone_attributes(&self.attributes),
        }
    }
}

/// A synchronous telemetry exporter.
///
/// Every method runs on the calling thread. An implementation returns quickly:
/// it waits for no outside I/O and does not block without bound. The interface
/// offers no isolation of threads, no timeout and no retry.
///
/// Each implementation says by its four relations what its calls may do: from
/// which state, on which input, to which state and with which result. One that
/// says nothing may do anything.
pub trait TelemetryExporter: Send + Sync {
    /// Whether exporting `spans` may lead from this state to `post` with
    /// `result`.
    open spec fn spans_exported(
        &self,
        spans: Seq<SpanModel>,
        post: &Self,
        result: Result<(), ExportError>,
    ) -> bool {
        true
    }

    /// Whether exporting `metrics` may lead from this state to `post` with
    /// `result`.
    open spec fn metrics_exported(
        &self,
        metrics: Seq<MetricModel>,
        post: &Self,
        result: Result<(), ExportError>,
    ) -> bool {
        true
    }

    /// Whether flushing may lead from this state to `post` with `result`.
    open spec fn flushed(&self, post: &Self, result: Result<(), ExportError>) -> bool {
        true
    }

    /// Whether shutting down may lead from this state to `post` with `result`.
    open spec fn shut_down(&self, post: &Self, result: Result<(), ExportError>) -> bool {
        true
    }

    /// Exports spans; the implementation says how far a batch is atomic.
    fn export_spans(&mut self, spans: &[SpanEvent]) -> (result: Result<(), ExportError>)
        ensures
            old(self).spans_exported(span_models(spans@), &*final(self), result),
    ;

    /// Exports metrics; the implementation says how far a batch is atomic.
    fn export_metrics(&mut self, metrics: &[MetricEvent]) -> (result: Result<(), ExportError>)
        ensures
            old(self).metrics_exported(metric_models(metrics@), &*final(self), result),
    ;

    /// Completes the flush that the implementation defines.
    fn flush(&mut self) -> (result: Result<(), ExportError>)
        ensures
            old(self).flushed(&*final(self), result),
    ;

    /// Shuts the exporter down; later exports should fail. Doing so again
    /// changes nothing.
    fn shutdown(&mut self) -> (result: Result<(), ExportError>)
        ensures
            old(self).shut_down(&*final(self), result),
    ;
}

/// How a call into an exporter ended.
#[derive(Debug, Clone, Copy, PartialEq, Eq)]
pub enum CallOutcome {
    /// The call returned.
    Returned(Result<(), ExportError>),
    /// The call unwound, and the unwind was stopped.
    Unwound,
}

impl CallOutcome {
    /// The result that the caller of the exporter gets.
    pub open spec fn result(self) -> Result<(), ExportError> {
        match self {
            CallOutcome::Returned(result) => result,
            CallOutcome::Unwound => Err(ExportError::Panicked),
        }
    }
}

/// An exporter behind a boundary that no unwind crosses: a call tells whether it
/// returned or unwound.
///
/// This is what an [`ExportingInstrumentation`] calls. [`InMemoryExporter`] is
/// one as it stands, since its calls do not unwind. Any other
/// [`TelemetryExporter`] may unwind, so the host puts a type of its own around
/// it, whose calls stop the unwind and report it. As with
/// [`TelemetryExporter`], the four relations say what the calls may do.
pub trait GuardedExporter {
    /// Whether exporting `spans` may lead from this state to `post` and end
    /// with `outcome`.
    open spec fn spans_called(
        &self,
        spans: Seq<SpanModel>,
        post: &Self,
        outcome: CallOutcome,
    ) -> bool {
        true
    }

    /// Whether exporting `metrics` may lead from this state to `post` and end
    /// with `outcome`.
    open spec fn metrics_called(
        &self,
        metrics: Seq<MetricModel>,
        post: &Self,
        outcome: CallOutcome,
    ) -> bool {
        true
    }

    /// Whether flushing may lead from this state to `post` and end with
    /// `outcome`.
    open spec fn flush_called(&self, post: &Self, outcome: CallOutcome) -> bool {
        true
    }

    /// Whether shutting down may lead from this state to `post` and end with
    /// `outcome`.
    open spec fn shutdown_called(&self, post: &Self, outcome: CallOutcome) -> bool {
        true
    }

    /// Calls the exporter with spans.
    fn call_export_spans(&mut self, spans: &[SpanEvent]) -> (outcome: CallOutcome)
        ensures
            old(self).spans_called(span_models(spans@), &*final(self), outcome),
    ;

    /// Calls the exporter with metrics.
    fn call_export_metrics(&mut self, metrics: &[MetricEvent]) -> (outcome: CallOutcome)
        ensures
            old(self).metrics_called(metric_models(metrics@), &*final(self), outcome),
    ;

    /// Has the exporter flush.
    fn call_flush(&mut self) -> (outcome: CallOutcome)
        ensures
            old(self).flush_called(&*final(self), outcome),
    ;

    /// Has the exporter shut down.
    fn call_shutdown(&mut self) -> (outcome: CallOutcome)
        ensures
            old(self).shutdown_called(&*final(self), outcome),
    ;
}

/// What a span says is what is in its fields, every attribute included and in
/// its place.
pub proof fn law_span_fields(span: SpanEvent)
    ensures
        span@.name == span.name@,
        span@.start_unix_ms == span.start_unix_ms,
        span@.attributes.len() == span.attributes@.len(),
        forall|i: int|
            0 <= i < span.attributes@.len() ==> (#[trigger] span@.attributes[i]).0
                == span.attributes@[i].0@ && span@.attributes[i].1 == span.attributes@[i].1@,
{
}

/// What a metric says is what is in its fields, every attribute included and in
/// its place.
pub proof fn law_metric_fields(metric: MetricEvent)
    ensures
        metric@.name == metric.name@,
        metric@.value == metric.value,
        metric@.attributes.len() == metric.attributes@.len(),
        forall|i: int|
            0 <= i < metric.attributes@.len() ==> (#[trigger] metric@.attributes[i]).0
                == metric.attributes@[i].0@ && metric@.attributes[i].1 == metric.attributes@[i].1@,
{
}

/// What a batch says is what its events say, every event in its place.
pub proof fn law_batch_events(spans: Seq<SpanEvent>, metrics: Seq<MetricEvent>)
    ensures
        span_models(spans).len() == spans.len(),
        forall|i: int| 0 <= i < spans.len() ==> #[trigger] span_models(spans)[i] == spans[i]@,
        metric_models(metrics).len() == metrics.len(),
        forall|i: int|
            0 <= i < metrics.len() ==> #[trigger] metric_models(metrics)[i] == metrics[i]@,
{
}

/// A call that returned gives its own result, and one that unwound gives the
/// error of a panic.
pub proof fn law_outcome_result(result: Result<(), ExportError>)
    ensures
        CallOutcome::Returned(result).result() == result,
        CallOutcome::Unwound.result() == Err::<(), ExportError>(ExportError::Panicked),
{
}

} // verus!

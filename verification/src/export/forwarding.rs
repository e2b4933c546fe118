//! Recording that is also exported.

use vstd::prelude::*;

use crate::export;
use crate::export::clock;
use crate::export::clock::Clock;
use crate::export::diagnostics;
use crate::export::diagnostics::WarningModel;
use crate::export::trace::{Step, Traced};
use crate::export::{
    CallOutcome, ExportDiagnostics, ExportError, ExportingInstrumentationStats, ForwardWarning,
    GuardedExporter, MetricEvent, MetricModel, Operation, Signal, SpanEvent, SpanModel,
};
use crate::instrumentation::{Instrumentation, OpEvent};
use crate::ops;
use crate::ops::sanitize_op;
use crate::text;

verus! {

/// Wraps an [`Instrumentation`] and writes every recorded event, with its
/// cleaned name, to an exporter.
///
/// The wrapped instrumentation always records first, and what the exporter does
/// has no bearing on it. A call into the exporter that returns an error or
/// unwinds is counted in the diagnostics. During a recording call it cannot be
/// reported to the caller; instead a [`ForwardWarning`] is set aside for the
/// host to log, for the first such failure and then for every power of two, so
/// that a failing exporter does not flood the log. The counts stay exact.
///
/// There is no queue, no isolation of threads and no timeout: an exporter that
/// blocks, blocks the caller.
pub struct ExportingInstrumentation<I, E> {
    calls: Traced<I, E>,
    /// The counts of failed calls. They can be preset, to see how they saturate;
    /// the laws on a whole history are about counts that start at zero.
    pub diagnostics: ExportDiagnostics,
    warnings: Vec<ForwardWarning>,
    clock: Clock,
}

/// What an [`ExportingInstrumentation`] consists of.
#[verifier::ext_equal]
pub struct ExportingModel<I, E> {
    pub inner: I,
    pub exporter: E,
    pub diagnostics: ExportDiagnostics,
    pub warnings: Seq<WarningModel>,
    /// The calls made so far, in their order.
    pub trace: Seq<Step>,
}

impl<I, E> View for ExportingInstrumentation<I, E> {
    type V = ExportingModel<I, E>;

    closed spec fn view(&self) -> ExportingModel<I, E> {
        ExportingModel {
            inner: self.calls@.inner,
            exporter: self.calls@.exporter,
            diagnostics: self.diagnostics,
            warnings: diagnostics::warning_models(self.warnings@),
            trace: self.calls@.trace,
        }
    }
}

impl<I, E> ExportingInstrumentation<I, E> {
    /// The readings taken of the clock so far, for the start times of spans.
    pub closed spec fn readings(&self) -> Seq<Option<(u64, u32)>> {
        self.clock@
    }
}

/// The span of a retry.
pub open spec fn retry_span_model(op: Seq<char>, attempt: u32, now: u64) -> SpanModel {
    SpanModel {
        name: "retry:"@ + op,
        start_unix_ms: now,
        attributes: seq![("attempt"@, text::decimal(attempt as nat))],
    }
}

/// The metric of a retry.
pub open spec fn retry_metric_model(op: Seq<char>, attempt: u32) -> MetricModel {
    MetricModel { name: "retry"@, value: attempt as i64, attributes: seq![("op"@, op)] }
}

/// The span of an opened circuit breaker.
pub open spec fn circuit_open_span_model(op: Seq<char>, now: u64) -> SpanModel {
    SpanModel { name: "circuit_open:"@ + op, start_unix_ms: now, attributes: Seq::empty() }
}

/// The span of a closed circuit breaker.
pub open spec fn circuit_close_span_model(op: Seq<char>, now: u64) -> SpanModel {
    SpanModel { name: "circuit_close:"@ + op, start_unix_ms: now, attributes: Seq::empty() }
}

/// The calls of one recording call, in their order: the wrapped instrumentation
/// comes first, then the exporter gets the span, and for a retry, whatever
/// became of the span, the metric. The operation name is the cleaned one; the
/// two calls into the exporter end with `first` and `second`.
pub open spec fn recording_steps(
    event: OpEvent,
    now: u64,
    first: CallOutcome,
    second: CallOutcome,
) -> Seq<Step> {
    match event {
        OpEvent::Retry { op, attempt } => seq![
            Step::Inner(event),
            Step::Spans {
                spans: seq![retry_span_model(op, attempt, now)],
                operation: Operation::RecordRetry,
                op,
                outcome: first,
            },
            Step::Metrics {
                metrics: seq![retry_metric_model(op, attempt)],
                operation: Operation::RecordRetry,
                op,
                outcome: second,
            },
        ],
        OpEvent::CircuitOpen { op } => seq![
            Step::Inner(event),
            Step::Spans {
                spans: seq![circuit_open_span_model(op, now)],
                operation: Operation::RecordCircuitOpen,
                op,
                outcome: first,
            },
        ],
        OpEvent::CircuitClose { op } => seq![
            Step::Inner(event),
            Step::Spans {
                spans: seq![circuit_close_span_model(op, now)],
                operation: Operation::RecordCircuitClose,
                op,
                outcome: first,
            },
        ],
    }
}

impl<I, E> ExportingModel<I, E> {
    /// The state with one more call in its trace.
    pub open spec fn stepped(self, step: Step) -> Self {
        ExportingModel { trace: self.trace.push(step), ..self }
    }

    /// Whether the trace grew by the calls of one recording call.
    pub open spec fn traced_at(self, event: OpEvent, now: u64, post: Self) -> bool {
        exists|first: CallOutcome, second: CallOutcome|
            post.trace == self.trace + #[trigger] recording_steps(
                event.renamed(ops::sanitized(event.name())),
                now,
                first,
                second,
            )
    }

    /// The state after the wrapped instrumentation recorded a call and became
    /// `inner`.
    pub open spec fn begun(self, event: OpEvent, inner: I) -> Self {
        ExportingModel { inner, ..self }.stepped(Step::Inner(event))
    }

    /// The state after a call into the exporter, with that many spans and
    /// metrics, left it as `exporter` and ended with `outcome`.
    pub open spec fn settled(
        self,
        exporter: E,
        spans: nat,
        metrics: nat,
        outcome: CallOutcome,
    ) -> Self {
        ExportingModel {
            exporter,
            diagnostics: self.diagnostics.settled(spans, metrics, outcome),
            ..self
        }
    }

    /// The state after such a call was made during a recording call.
    pub open spec fn forwarded(
        self,
        exporter: E,
        spans: nat,
        metrics: nat,
        outcome: CallOutcome,
        operation: Operation,
        signal: Signal,
        op: Seq<char>,
    ) -> Self {
        ExportingModel {
            exporter,
            diagnostics: self.diagnostics.forwarded(spans, metrics, outcome),
            warnings: match self.diagnostics.forward_warning(outcome, operation, signal, op) {
                Some(warning) => self.warnings.push(warning),
                None => self.warnings,
            },
            ..self
        }
    }
}

impl<I, E: GuardedExporter> ExportingModel<I, E> {
    /// Whether flushing may end with `outcome` and lead to `post`.
    pub open spec fn flush_settled(self, outcome: CallOutcome, post: Self) -> bool {
        &&& self.exporter.flush_called(&post.exporter, outcome)
        &&& post == self.settled(post.exporter, 0, 0, outcome).stepped(Step::Flush(outcome))
    }

    /// Whether shutting down may end with `outcome` and lead to `post`.
    pub open spec fn shutdown_settled(self, outcome: CallOutcome, post: Self) -> bool {
        &&& self.exporter.shutdown_called(&post.exporter, outcome)
        &&& post == self.settled(post.exporter, 0, 0, outcome).stepped(Step::Shutdown(outcome))
    }

    /// Whether forwarding a retry may lead to `post`: the exporter gets the span
    /// and after that the metric, whatever became of the span.
    pub open spec fn retry_forwarded(
        self,
        op: Seq<char>,
        attempt: u32,
        now: u64,
        post: Self,
    ) -> bool {
        exists|first: CallOutcome, mid: Self, second: CallOutcome| #[trigger]
            self.spans_forwarded(
                seq![retry_span_model(op, attempt, now)],
                Operation::RecordRetry,
                op,
                first,
                mid,
            ) && #[trigger] mid.metrics_forwarded(
                seq![retry_metric_model(op, attempt)],
                Operation::RecordRetry,
                op,
                second,
                post,
            )
    }

    /// Whether forwarding an opened circuit breaker may lead to `post`.
    pub open spec fn circuit_open_forwarded(self, op: Seq<char>, now: u64, post: Self) -> bool {
        exists|outcome: CallOutcome| #[trigger]
            self.spans_forwarded(
                seq![circuit_open_span_model(op, now)],
                Operation::RecordCircuitOpen,
                op,
                outcome,
                post,
            )
    }

    /// Whether forwarding a closed circuit breaker may lead to `post`.
    pub open spec fn circuit_close_forwarded(self, op: Seq<char>, now: u64, post: Self) -> bool {
        exists|outcome: CallOutcome| #[trigger]
            self.spans_forwarded(
                seq![circuit_close_span_model(op, now)],
                Operation::RecordCircuitClose,
                op,
                outcome,
                post,
            )
    }

    /// Whether forwarding the events of a call may lead to `post`.
    pub open spec fn event_forwarded(self, event: OpEvent, now: u64, post: Self) -> bool {
        match event {
            OpEvent::Retry { op, attempt } => self.retry_forwarded(op, attempt, now, post),
            OpEvent::CircuitOpen { op } => self.circuit_open_forwarded(op, now, post),
            OpEvent::CircuitClose { op } => self.circuit_close_forwarded(op, now, post),
        }
    }

    /// Whether forwarding spans may end with `outcome` and lead to `post`.
    pub open spec fn spans_forwarded(
        self,
        spans: Seq<SpanModel>,
        operation: Operation,
        op: Seq<char>,
        outcome: CallOutcome,
        post: Self,
    ) -> bool {
        &&& self.exporter.spans_called(spans, &post.exporter, outcome)
        &&& post == self.forwarded(
            post.exporter,
            spans.len(),
            0,
            outcome,
            operation,
            Signal::Spans,
            op,
        ).stepped(Step::Spans { spans, operation, op, outcome })
    }

    /// Whether forwarding metrics may end with `outcome` and lead to `post`.
    pub open spec fn metrics_forwarded(
        self,
        metrics: Seq<MetricModel>,
        operation: Operation,
        op: Seq<char>,
        outcome: CallOutcome,
        post: Self,
    ) -> bool {
        &&& self.exporter.metrics_called(metrics, &post.exporter, outcome)
        &&& post == self.forwarded(
            post.exporter,
            0,
            metrics.len(),
            outcome,
            operation,
            Signal::Metrics,
            op,
        ).stepped(Step::Metrics { metrics, operation, op, outcome })
    }
}

impl<I: Instrumentation, E: GuardedExporter> ExportingModel<I, E> {
    /// Whether a call, made at the time `now`, may lead to `post`: the inner
    /// instrumentation records the call under the cleaned name; after that, as
    /// the trace shows, the events of the call are forwarded.
    pub open spec fn recorded_at(self, event: OpEvent, now: u64, post: Self) -> bool {
        let name = ops::sanitized(event.name());
        let begun = self.begun(event.renamed(name), post.inner);
        &&& self.inner.records(event.renamed(name), &post.inner)
        &&& begun.event_forwarded(event.renamed(name), now, post)
    }
}

/// The span of a retry; `op` is the cleaned name.
#[must_use]
pub fn retry_span(op: &str, attempt: u32, now: u64) -> (r: SpanEvent)
    ensures
        r@ == retry_span_model(op@, attempt, now),
{
    let mut name = "retry:".to_owned();
    name.append(op);
    let mut attributes: Vec<(String, String)> = Vec::new();
    attributes.push(("attempt".to_owned(), text::decimal_string(attempt)));
    let r = SpanEvent { name, start_unix_ms: now, attributes };
    assert(r@ =~= retry_span_model(op@, attempt, now));
    r
}

/// The metric of a retry; `op` is the cleaned name.
#[must_use]
pub fn retry_metric(op: &str, attempt: u32) -> (r: MetricEvent)
    ensures
        r@ == retry_metric_model(op@, attempt),
{
    let mut attributes: Vec<(String, String)> = Vec::new();
    attributes.push(("op".to_owned(), op.to_owned()));
    let r = MetricEvent { name: "retry".to_owned(), value: attempt as i64, attributes };
    assert(r@ =~= retry_metric_model(op@, attempt));
    r
}

/// The span of an opened circuit breaker; `op` is the cleaned name.
#[must_use]
pub fn circuit_open_span(op: &str, now: u64) -> (r: SpanEvent)
    ensures
        r@ == circuit_open_span_model(op@, now),
{
    let mut name = "circuit_open:".to_owned();
    name.append(op);
    let r = SpanEvent { name, start_unix_ms: now, attributes: Vec::new() };
    assert(r@ =~= circuit_open_span_model(op@, now));
    r
}

/// The span of a closed circuit breaker; `op` is the cleaned name.
#[must_use]
pub fn circuit_close_span(op: &str, now: u64) -> (r: SpanEvent)
    ensures
        r@ == circuit_close_span_model(op@, now),
{
    let mut name = "circuit_close:".to_owned();
    name.append(op);
    let r = SpanEvent { name, start_unix_ms: now, attributes: Vec::new() };
    assert(r@ =~= circuit_close_span_model(op@, now));
    r
}

impl<I, E> ExportingInstrumentation<I, E> {
    /// Wraps an instrumentation, with the exporter that gets its events.
    #[must_use]
    pub fn new(inner: I, exporter: E) -> (r: Self)
        ensures
            r@ == (ExportingModel {
                inner,
                exporter,
                diagnostics: ExportDiagnostics::zero(),
                warnings: Seq::empty(),
                trace: Seq::empty(),
            }),
            r.readings().len() == 0,
    {
        let r = ExportingInstrumentation {
            calls: Traced::new(inner, exporter),
            diagnostics: ExportDiagnostics::default(),
            warnings: Vec::new(),
            clock: Clock::new(),
        };
        assert(r@.warnings =~= Seq::empty());
        r
    }

    /// The wrapped instrumentation.
    #[must_use]
    pub fn inner(&self) -> (r: &I)
        ensures
            *r == self@.inner,
    {
        self.calls.inner()
    }

    /// The exporter.
    #[must_use]
    pub fn exporter(&self) -> (r: &E)
        ensures
            *r == self@.exporter,
    {
        self.calls.exporter()
    }

    /// A snapshot of the counts of failed calls. The unconfirmed events were
    /// part of a failed call and are not retried; since the exporter may have
    /// taken them before it failed, they are not a count of lost events.
    #[must_use]
    pub fn export_stats(&self) -> (r: ExportingInstrumentationStats)
        ensures
            r == (ExportingInstrumentationStats {
                failed_export_calls: self@.diagnostics.failed_export_calls,
                panicked_export_calls: self@.diagnostics.panicked_export_calls,
                unconfirmed_spans: self@.diagnostics.unconfirmed_spans,
                unconfirmed_metrics: self@.diagnostics.unconfirmed_metrics,
                counters_saturated: self@.diagnostics.counters_saturated,
            }),
    {
        self.diagnostics.stats()
    }

    /// Takes the warnings that are to be logged, in the order in which they
    /// came up.
    pub fn take_warnings(&mut self) -> (r: Vec<ForwardWarning>)
        ensures
            diagnostics::warning_models(r@) == old(self)@.warnings,
            final(self)@ == (ExportingModel { warnings: Seq::empty(), ..old(self)@ }),
            final(self).readings() == old(self).readings(),
    {
        let mut out: Vec<ForwardWarning> = Vec::new();
        out.append(&mut self.warnings);
        assert(diagnostics::warning_models(out@) =~= old(self)@.warnings);
        assert(self@.warnings =~= Seq::empty());
        out
    }

    /// Gives back the wrapped instrumentation and the exporter.
    #[must_use]
    pub fn into_parts(self) -> (r: (I, E))
        ensures
            r == (self@.inner, self@.exporter),
    {
        self.calls.into_parts()
    }

    /// Sets aside a warning, if there is one.
    fn note(&mut self, warning: Option<ForwardWarning>)
        ensures
            final(self)@ == (ExportingModel {
                warnings: match warning {
                    Some(warning) => old(self)@.warnings.push(warning@),
                    None => old(self)@.warnings,
                },
                ..old(self)@
            }),
            final(self).readings() == old(self).readings(),
    {
        let ghost before = self.warnings@;
        match warning {
            Some(warning) => {
                self.warnings.push(warning);
                assert(diagnostics::warning_models(before.push(warning))
                    =~= diagnostics::warning_models(before).push(warning@));
            },
            None => {},
        }
    }
}

impl<I, E: GuardedExporter> ExportingInstrumentation<I, E> {
    /// Exports a span during a recording call.
    fn forward_span(&mut self, span: SpanEvent, operation: Operation, op: &str)
        ensures
            exists|outcome: CallOutcome| #[trigger]
                old(self)@.spans_forwarded(seq![span@], operation, op@, outcome, final(self)@),
            final(self).readings() == old(self).readings(),
    {
        let mut batch: Vec<SpanEvent> = Vec::new();
        batch.push(span);
        assert(export::span_models(batch@) =~= seq![span@]);
        let outcome = self.calls.export_spans(batch.as_slice(), operation, op);
        let ghost ended = outcome;
        let warning = self.diagnostics.settle_forwarded(
            1,
            0,
            outcome,
            operation,
            Signal::Spans,
            op,
        );
        self.note(warning);
        assert(old(self)@.spans_forwarded(seq![span@], operation, op@, ended, self@));
    }

    /// Exports a metric during a recording call.
    fn forward_metric(&mut self, metric: MetricEvent, operation: Operation, op: &str)
        ensures
            exists|outcome: CallOutcome| #[trigger]
                old(self)@.metrics_forwarded(
                    seq![metric@],
                    operation,
                    op@,
                    outcome,
                    final(self)@,
                ),
            final(self).readings() == old(self).readings(),
    {
        let mut batch: Vec<MetricEvent> = Vec::new();
        batch.push(metric);
        assert(export::metric_models(batch@) =~= seq![metric@]);
        let outcome = self.calls.export_metrics(batch.as_slice(), operation, op);
        let ghost ended = outcome;
        let warning = self.diagnostics.settle_forwarded(
            0,
            1,
            outcome,
            operation,
            Signal::Metrics,
            op,
        );
        self.note(warning);
        assert(old(self)@.metrics_forwarded(seq![metric@], operation, op@, ended, self@));
    }

    /// Forwards the span and the metric of a retry; `op` is the cleaned name.
    fn forward_retry(&mut self, op: &str, attempt: u32, now: u64)
        ensures
            old(self)@.retry_forwarded(op@, attempt, now, final(self)@),
            final(self)@.inner == old(self)@.inner,
            final(self).readings() == old(self).readings(),
    {
        let span = retry_span(op, attempt, now);
        let metric = retry_metric(op, attempt);
        self.forward_span(span, Operation::RecordRetry, op);
        self.forward_metric(metric, Operation::RecordRetry, op);
    }

    /// Forwards the span of an opened circuit breaker; `op` is the cleaned name.
    fn forward_circuit_open(&mut self, op: &str, now: u64)
        ensures
            old(self)@.circuit_open_forwarded(op@, now, final(self)@),
            final(self)@.inner == old(self)@.inner,
            final(self).readings() == old(self).readings(),
    {
        let span = circuit_open_span(op, now);
        self.forward_span(span, Operation::RecordCircuitOpen, op);
    }

    /// Forwards the span of a closed circuit breaker; `op` is the cleaned name.
    fn forward_circuit_close(&mut self, op: &str, now: u64)
        ensures
            old(self)@.circuit_close_forwarded(op@, now, final(self)@),
            final(self)@.inner == old(self)@.inner,
            final(self).readings() == old(self).readings(),
    {
        let span = circuit_close_span(op, now);
        self.forward_span(span, Operation::RecordCircuitClose, op);
    }

    /// Has the exporter flush. A failure is counted and returned.
    pub fn flush(&mut self) -> (result: Result<(), ExportError>)
        ensures
            exists|outcome: CallOutcome| #[trigger]
                old(self)@.flush_settled(outcome, final(self)@) && result == outcome.result(),
            final(self).readings() == old(self).readings(),
    {
        let outcome = self.calls.flush();
        let ghost ended = outcome;
        let result = self.diagnostics.settle(0, 0, outcome);
        assert(old(self)@.flush_settled(ended, self@));
        result
    }

    /// Has the exporter shut down. A failure is counted and returned.
    pub fn shutdown(&mut self) -> (result: Result<(), ExportError>)
        ensures
            exists|outcome: CallOutcome| #[trigger]
                old(self)@.shutdown_settled(outcome, final(self)@) && result == outcome.result(),
            final(self).readings() == old(self).readings(),
    {
        let outcome = self.calls.shutdown();
        let ghost ended = outcome;
        let result = self.diagnostics.settle(0, 0, outcome);
        assert(old(self)@.shutdown_settled(ended, self@));
        result
    }
}

/// A recording call makes its calls in order, each exactly once: the wrapped
/// instrumentation records first, and only after that, whatever the calls
/// before ended with, the exporter gets the span and then the metric.
pub proof fn law_inner_records_first<I: Instrumentation, E: GuardedExporter>(
    pre: ExportingModel<I, E>,
    event: OpEvent,
    now: u64,
    post: ExportingModel<I, E>,
)
    requires
        pre.recorded_at(event, now, post),
    ensures
        pre.traced_at(event, now, post),
        post.trace.len() == pre.trace.len() + if event is Retry {
            3int
        } else {
            2
        },
        post.trace.take(pre.trace.len() as int) == pre.trace,
        post.trace[pre.trace.len() as int] == Step::Inner(
            event.renamed(ops::sanitized(event.name())),
        ),
        post.trace[pre.trace.len() as int + 1] is Spans,
        event is Retry ==> post.trace[pre.trace.len() as int + 2] is Metrics,
{
    let name = ops::sanitized(event.name());
    let begun = pre.begun(event.renamed(name), post.inner);
    match event {
        OpEvent::Retry { op: _, attempt } => {
            assert(begun.retry_forwarded(name, attempt, now, post));
            let (first, mid, second) = choose|
                first: CallOutcome,
                mid: ExportingModel<I, E>,
                second: CallOutcome,
            | #[trigger]
                begun.spans_forwarded(
                    seq![retry_span_model(name, attempt, now)],
                    Operation::RecordRetry,
                    name,
                    first,
                    mid,
                ) && #[trigger] mid.metrics_forwarded(
                    seq![retry_metric_model(name, attempt)],
                    Operation::RecordRetry,
                    name,
                    second,
                    post,
                );
            assert(post.trace =~= pre.trace + recording_steps(
                event.renamed(name),
                now,
                first,
                second,
            ));
        },
        OpEvent::CircuitOpen { op: _ } => {
            assert(begun.circuit_open_forwarded(name, now, post));
            let outcome = choose|outcome: CallOutcome| #[trigger]
                begun.spans_forwarded(
                    seq![circuit_open_span_model(name, now)],
                    Operation::RecordCircuitOpen,
                    name,
                    outcome,
                    post,
                );
            assert(post.trace =~= pre.trace + recording_steps(
                event.renamed(name),
                now,
                outcome,
                outcome,
            ));
        },
        OpEvent::CircuitClose { op: _ } => {
            assert(begun.circuit_close_forwarded(name, now, post));
            let outcome = choose|outcome: CallOutcome| #[trigger]
                begun.spans_forwarded(
                    seq![circuit_close_span_model(name, now)],
                    Operation::RecordCircuitClose,
                    name,
                    outcome,
                    post,
                );
            assert(post.trace =~= pre.trace + recording_steps(
                event.renamed(name),
                now,
                outcome,
                outcome,
            ));
        },
    }
}

impl<I: Instrumentation, E> ExportingInstrumentation<I, E> {
    /// Has the wrapped instrumentation record a retry under the cleaned name,
    /// and gives that name.
    fn begin_retry(&mut self, op: &str, attempt: u32) -> (clean: String)
        ensures
            clean@ == ops::sanitized(op@),
            old(self)@.inner.records(OpEvent::Retry { op: clean@, attempt }, &final(self)@.inner),
            final(self)@ == old(self)@.begun(OpEvent::Retry { op: clean@, attempt }, final(self)@.inner),
            final(self).readings() == old(self).readings(),
    {
        let clean = sanitize_op(op);
        self.calls.record_retry(clean.as_str(), attempt);
        clean
    }

    /// Has the wrapped instrumentation record, under the cleaned name, that a
    /// circuit breaker opened, and gives that name.
    fn begin_circuit_open(&mut self, op: &str) -> (clean: String)
        ensures
            clean@ == ops::sanitized(op@),
            old(self)@.inner.records(OpEvent::CircuitOpen { op: clean@ }, &final(self)@.inner),
            final(self)@ == old(self)@.begun(OpEvent::CircuitOpen { op: clean@ }, final(self)@.inner),
            final(self).readings() == old(self).readings(),
    {
        let clean = sanitize_op(op);
        self.calls.record_circuit_open(clean.as_str());
        clean
    }

    /// Has the wrapped instrumentation record, under the cleaned name, that a
    /// circuit breaker closed, and gives that name.
    fn begin_circuit_close(&mut self, op: &str) -> (clean: String)
        ensures
            clean@ == ops::sanitized(op@),
            old(self)@.inner.records(OpEvent::CircuitClose { op: clean@ }, &final(self)@.inner),
            final(self)@ == old(self)@.begun(OpEvent::CircuitClose { op: clean@ }, final(self)@.inner),
            final(self).readings() == old(self).readings(),
    {
        let clean = sanitize_op(op);
        self.calls.record_circuit_close(clean.as_str());
        clean
    }
}

impl<I: Instrumentation, E: GuardedExporter> ExportingInstrumentation<I, E> {
    /// Records a retry that is exported with the given time.
    pub fn record_retry_at(&mut self, op: &str, attempt: u32, now: u64)
        ensures
            old(self)@.recorded_at(OpEvent::Retry { op: op@, attempt }, now, final(self)@),
            old(self)@.traced_at(OpEvent::Retry { op: op@, attempt }, now, final(self)@),
            final(self).readings() == old(self).readings(),
    {
        let clean = self.begin_retry(op, attempt);
        self.forward_retry(clean.as_str(), attempt, now);
        proof {
            law_inner_records_first(old(self)@, OpEvent::Retry { op: op@, attempt }, now, self@);
        }
    }

    /// Records that a circuit breaker opened, exported with the given time.
    pub fn record_circuit_open_at(&mut self, op: &str, now: u64)
        ensures
            old(self)@.recorded_at(OpEvent::CircuitOpen { op: op@ }, now, final(self)@),
            old(self)@.traced_at(OpEvent::CircuitOpen { op: op@ }, now, final(self)@),
            final(self).readings() == old(self).readings(),
    {
        let clean = self.begin_circuit_open(op);
        self.forward_circuit_open(clean.as_str(), now);
        proof {
            law_inner_records_first(old(self)@, OpEvent::CircuitOpen { op: op@ }, now, self@);
        }
    }

    /// Records that a circuit breaker closed, exported with the given time.
    pub fn record_circuit_close_at(&mut self, op: &str, now: u64)
        ensures
            old(self)@.recorded_at(OpEvent::CircuitClose { op: op@ }, now, final(self)@),
            old(self)@.traced_at(OpEvent::CircuitClose { op: op@ }, now, final(self)@),
            final(self).readings() == old(self).readings(),
    {
        let clean = self.begin_circuit_close(op);
        self.forward_circuit_close(clean.as_str(), now);
        proof {
            law_inner_records_first(old(self)@, OpEvent::CircuitClose { op: op@ }, now, self@);
        }
    }
}

impl<I: Instrumentation, E: GuardedExporter> Instrumentation for ExportingInstrumentation<I, E> {
    open spec fn records(&self, event: OpEvent, post: &Self) -> bool {
        exists|now: u64| #[trigger]
            self@.recorded_at(event, now, post@) && self@.traced_at(event, now, post@)
                && clock::read_once(self.readings(), post.readings(), now)
    }

    fn record_retry(&mut self, op: &str, attempt: u32) {
        let clean = self.begin_retry(op, attempt);
        let now: u64 = self.clock.read_unix_ms();
        self.forward_retry(clean.as_str(), attempt, now);
        proof {
            law_inner_records_first(old(self)@, OpEvent::Retry { op: op@, attempt }, now, self@);
        }
        assert(old(self)@.recorded_at(OpEvent::Retry { op: op@, attempt }, now, self@));
    }

    fn record_circuit_open(&mut self, op: &str) {
        let clean = self.begin_circuit_open(op);
        let now: u64 = self.clock.read_unix_ms();
        self.forward_circuit_open(clean.as_str(), now);
        proof {
            law_inner_records_first(old(self)@, OpEvent::CircuitOpen { op: op@ }, now, self@);
        }
        assert(old(self)@.recorded_at(OpEvent::CircuitOpen { op: op@ }, now, self@));
    }

    fn record_circuit_close(&mut self, op: &str) {
        let clean = self.begin_circuit_close(op);
        let now: u64 = self.clock.read_unix_ms();
        self.forward_circuit_close(clean.as_str(), now);
        proof {
            law_inner_records_first(old(self)@, OpEvent::CircuitClose { op: op@ }, now, self@);
        }
        assert(old(self)@.recorded_at(OpEvent::CircuitClose { op: op@ }, now, self@));
    }
}

} // verus!

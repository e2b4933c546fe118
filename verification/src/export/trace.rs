//! The calls that an exporting instrumentation makes, in their order, and what
//! the diagnostics and the warnings have to be after them.

use vstd::prelude::*;

use crate::export;
use crate::export::diagnostics;
use crate::export::diagnostics::WarningModel;
use crate::export::{
    CallOutcome, ExportDiagnostics, GuardedExporter, MetricEvent, MetricModel, Operation, Signal,
    SpanEvent, SpanModel,
};
use crate::instrumentation::{Instrumentation, OpEvent};

verus! {

/// One call that an exporting instrumentation makes.
pub enum Step {
    /// The wrapped instrumentation records.
    Inner(OpEvent),
    /// The exporter gets spans, during the recording call of an operation.
    Spans { spans: Seq<SpanModel>, operation: Operation, op: Seq<char>, outcome: CallOutcome },
    /// The exporter gets metrics, during the recording call of an operation.
    Metrics { metrics: Seq<MetricModel>, operation: Operation, op: Seq<char>, outcome: CallOutcome },
    /// The exporter flushes.
    Flush(CallOutcome),
    /// The exporter shuts down.
    Shutdown(CallOutcome),
}

impl Step {
    /// Whether a call into the exporter returned an error or unwound.
    pub open spec fn failed(self) -> bool {
        match self {
            Step::Inner(_) => false,
            Step::Spans { spans: _, operation: _, op: _, outcome } => outcome.result() is Err,
            Step::Metrics { metrics: _, operation: _, op: _, outcome } => outcome.result() is Err,
            Step::Flush(outcome) => outcome.result() is Err,
            Step::Shutdown(outcome) => outcome.result() is Err,
        }
    }

    /// Whether a call into the exporter unwound.
    pub open spec fn unwound(self) -> bool {
        match self {
            Step::Inner(_) => false,
            Step::Spans { spans: _, operation: _, op: _, outcome } => outcome is Unwound,
            Step::Metrics { metrics: _, operation: _, op: _, outcome } => outcome is Unwound,
            Step::Flush(outcome) => outcome is Unwound,
            Step::Shutdown(outcome) => outcome is Unwound,
        }
    }

    /// Whether a recording call handed events to the exporter, and that failed.
    pub open spec fn forward_failed(self) -> bool {
        (self is Spans || self is Metrics) && self.failed()
    }

    /// The spans of a failed call.
    pub open spec fn unconfirmed_spans(self) -> nat {
        match self {
            Step::Spans { spans, operation: _, op: _, outcome: _ } if self.failed() => spans.len(),
            _ => 0,
        }
    }

    /// The metrics of a failed call.
    pub open spec fn unconfirmed_metrics(self) -> nat {
        match self {
            Step::Metrics {
                metrics,
                operation: _,
                op: _,
                outcome: _,
            } if self.failed() => metrics.len(),
            _ => 0,
        }
    }

    /// The warning about the `n`-th failed export in a recording call.
    pub open spec fn warning(self, n: u64) -> WarningModel
        recommends
            self.forward_failed(),
    {
        match self {
            Step::Metrics { metrics: _, operation, op, outcome } => WarningModel {
                error: outcome.result()->Err_0,
                operation,
                signal: Signal::Metrics,
                op,
                forward_failures: n,
            },
            _ => WarningModel {
                error: self->Spans_outcome.result()->Err_0,
                operation: self->Spans_operation,
                signal: Signal::Spans,
                op: self->Spans_op,
                forward_failures: n,
            },
        }
    }
}

/// An instrumentation and an exporter, together with the calls made on them so
/// far.
///
/// The two are called only through this type, and each of its methods makes one
/// call and adds that call to the trace; so the trace is that of the calls.
pub struct Traced<I, E> {
    inner: I,
    exporter: E,
    trace: Ghost<Seq<Step>>,
}

/// What a [`Traced`] consists of.
pub struct TracedModel<I, E> {
    pub inner: I,
    pub exporter: E,
    pub trace: Seq<Step>,
}

impl<I, E> View for Traced<I, E> {
    type V = TracedModel<I, E>;

    closed spec fn view(&self) -> TracedModel<I, E> {
        TracedModel { inner: self.inner, exporter: self.exporter, trace: self.trace@ }
    }
}

impl<I, E> Traced<I, E> {
    /// An instrumentation and an exporter that have not been called yet.
    #[must_use]
    pub fn new(inner: I, exporter: E) -> (r: Self)
        ensures
            r@ == (TracedModel { inner, exporter, trace: Seq::empty() }),
    {
        Traced { inner, exporter, trace: Ghost(Seq::empty()) }
    }

    /// The instrumentation.
    #[must_use]
    pub fn inner(&self) -> (r: &I)
        ensures
            *r == self@.inner,
    {
        &self.inner
    }

    /// The exporter.
    #[must_use]
    pub fn exporter(&self) -> (r: &E)
        ensures
            *r == self@.exporter,
    {
        &self.exporter
    }

    /// Gives back the instrumentation and the exporter.
    #[must_use]
    pub fn into_parts(self) -> (r: (I, E))
        ensures
            r == (self@.inner, self@.exporter),
    {
        (self.inner, self.exporter)
    }
}

impl<I: Instrumentation, E> Traced<I, E> {
    /// Has the instrumentation record a retry.
    pub fn record_retry(&mut self, op: &str, attempt: u32)
        ensures
            old(self)@.inner.records(OpEvent::Retry { op: op@, attempt }, &final(self)@.inner),
            final(self)@ == (TracedModel {
                inner: final(self)@.inner,
                exporter: old(self)@.exporter,
                trace: old(self)@.trace.push(Step::Inner(OpEvent::Retry { op: op@, attempt })),
            }),
    {
        self.inner.record_retry(op, attempt);
        self.trace = Ghost(self.trace@.push(Step::Inner(OpEvent::Retry { op: op@, attempt })));
    }

    /// Has the instrumentation record that a circuit breaker opened.
    pub fn record_circuit_open(&mut self, op: &str)
        ensures
            old(self)@.inner.records(OpEvent::CircuitOpen { op: op@ }, &final(self)@.inner),
            final(self)@ == (TracedModel {
                inner: final(self)@.inner,
                exporter: old(self)@.exporter,
                trace: old(self)@.trace.push(Step::Inner(OpEvent::CircuitOpen { op: op@ })),
            }),
    {
        self.inner.record_circuit_open(op);
        self.trace = Ghost(self.trace@.push(Step::Inner(OpEvent::CircuitOpen { op: op@ })));
    }

    /// Has the instrumentation record that a circuit breaker closed.
    pub fn record_circuit_close(&mut self, op: &str)
        ensures
            old(self)@.inner.records(OpEvent::CircuitClose { op: op@ }, &final(self)@.inner),
            final(self)@ == (TracedModel {
                inner: final(self)@.inner,
                exporter: old(self)@.exporter,
                trace: old(self)@.trace.push(Step::Inner(OpEvent::CircuitClose { op: op@ })),
            }),
    {
        self.inner.record_circuit_close(op);
        self.trace = Ghost(self.trace@.push(Step::Inner(OpEvent::CircuitClose { op: op@ })));
    }
}

impl<I, E: GuardedExporter> Traced<I, E> {
    /// Hands spans to the exporter, during the recording call of an operation.
    pub fn export_spans(&mut self, spans: &[SpanEvent], operation: Operation, op: &str) -> (outcome:
        CallOutcome)
        ensures
            old(self)@.exporter.spans_called(
                export::span_models(spans@),
                &final(self)@.exporter,
                outcome,
            ),
            final(self)@ == (TracedModel {
                inner: old(self)@.inner,
                exporter: final(self)@.exporter,
                trace: old(self)@.trace.push(
                    Step::Spans {
                        spans: export::span_models(spans@),
                        operation,
                        op: op@,
                        outcome,
                    },
                ),
            }),
    {
        let outcome = self.exporter.call_export_spans(spans);
        self.trace = Ghost(
            self.trace@.push(
                Step::Spans { spans: export::span_models(spans@), operation, op: op@, outcome },
            ),
        );
        outcome
    }

    /// Hands metrics to the exporter, during the recording call of an operation.
    pub fn export_metrics(&mut self, metrics: &[MetricEvent], operation: Operation, op: &str) -> (outcome:
        CallOutcome)
        ensures
            old(self)@.exporter.metrics_called(
                export::metric_models(metrics@),
                &final(self)@.exporter,
                outcome,
            ),
            final(self)@ == (TracedModel {
                inner: old(self)@.inner,
                exporter: final(self)@.exporter,
                trace: old(self)@.trace.push(
                    Step::Metrics {
                        metrics: export::metric_models(metrics@),
                        operation,
                        op: op@,
                        outcome,
                    },
                ),
            }),
    {
        let outcome = self.exporter.call_export_metrics(metrics);
        self.trace = Ghost(
            self.trace@.push(
                Step::Metrics { metrics: export::metric_models(metrics@), operation, op: op@, outcome },
            ),
        );
        outcome
    }

    /// Has the exporter flush.
    pub fn flush(&mut self) -> (outcome: CallOutcome)
        ensures
            old(self)@.exporter.flush_called(&final(self)@.exporter, outcome),
            final(self)@ == (TracedModel {
                inner: old(self)@.inner,
                exporter: final(self)@.exporter,
                trace: old(self)@.trace.push(Step::Flush(outcome)),
            }),
    {
        let outcome = self.exporter.call_flush();
        self.trace = Ghost(self.trace@.push(Step::Flush(outcome)));
        outcome
    }

    /// Has the exporter shut down.
    pub fn shutdown(&mut self) -> (outcome: CallOutcome)
        ensures
            old(self)@.exporter.shutdown_called(&final(self)@.exporter, outcome),
            final(self)@ == (TracedModel {
                inner: old(self)@.inner,
                exporter: final(self)@.exporter,
                trace: old(self)@.trace.push(Step::Shutdown(outcome)),
            }),
    {
        let outcome = self.exporter.call_shutdown();
        self.trace = Ghost(self.trace@.push(Step::Shutdown(outcome)));
        outcome
    }
}

/// How many calls into the exporter failed.
pub open spec fn failures(trace: Seq<Step>) -> nat {
    trace.filter(|s: Step| s.failed()).len()
}

/// How many calls into the exporter unwound.
pub open spec fn unwinds(trace: Seq<Step>) -> nat {
    trace.filter(|s: Step| s.unwound()).len()
}

/// How many exports failed that recording calls made.
pub open spec fn forward_failures(trace: Seq<Step>) -> nat {
    trace.filter(|s: Step| s.forward_failed()).len()
}

/// How many spans the failed calls had.
pub open spec fn unconfirmed_spans(trace: Seq<Step>) -> nat
    decreases trace.len(),
{
    if trace.len() == 0 {
        0
    } else {
        unconfirmed_spans(trace.drop_last()) + trace.last().unconfirmed_spans()
    }
}

/// How many metrics the failed calls had.
pub open spec fn unconfirmed_metrics(trace: Seq<Step>) -> nat
    decreases trace.len(),
{
    if trace.len() == 0 {
        0
    } else {
        unconfirmed_metrics(trace.drop_last()) + trace.last().unconfirmed_metrics()
    }
}

/// A number, held at `u64::MAX`.
pub open spec fn capped(n: nat) -> u64 {
    if n > u64::MAX {
        u64::MAX
    } else {
        n as u64
    }
}

/// The diagnostics that a trace calls for: every count is the number of what it
/// counts, held at `u64::MAX`, and the flag is raised where one had to be held
/// there.
pub open spec fn diagnosed(trace: Seq<Step>) -> ExportDiagnostics {
    ExportDiagnostics {
        failed_export_calls: capped(failures(trace)),
        panicked_export_calls: capped(unwinds(trace)),
        unconfirmed_spans: capped(unconfirmed_spans(trace)),
        unconfirmed_metrics: capped(unconfirmed_metrics(trace)),
        counters_saturated: failures(trace) > u64::MAX || unconfirmed_spans(trace) > u64::MAX
            || unconfirmed_metrics(trace) > u64::MAX,
        forward_failures: capped(forward_failures(trace)),
        logged_forward_failures: capped(warnings(trace).len()),
    }
}

/// Whether the call that a trace ends with is one to warn about: it is the
/// `n`-th failed export in a recording call, and `n` is a power of two that a
/// count holds.
pub open spec fn warns(trace: Seq<Step>) -> bool {
    &&& trace.last().forward_failed()
    &&& forward_failures(trace) <= u64::MAX
    &&& diagnostics::sampled(forward_failures(trace))
}

/// The warnings that a trace calls for, in their order.
pub open spec fn warnings(trace: Seq<Step>) -> Seq<WarningModel>
    decreases trace.len(),
{
    if trace.len() == 0 {
        Seq::empty()
    } else if warns(trace) {
        warnings(trace.drop_last()).push(trace.last().warning(forward_failures(trace) as u64))
    } else {
        warnings(trace.drop_last())
    }
}

/// What one more call adds to the counts and the warnings of a trace.
pub proof fn lemma_push(trace: Seq<Step>, step: Step)
    ensures
        failures(trace.push(step)) == failures(trace) + if step.failed() {
            1nat
        } else {
            0
        },
        unwinds(trace.push(step)) == unwinds(trace) + if step.unwound() {
            1nat
        } else {
            0
        },
        forward_failures(trace.push(step)) == forward_failures(trace) + if step.forward_failed() {
            1nat
        } else {
            0
        },
        unconfirmed_spans(trace.push(step)) == unconfirmed_spans(trace) + step.unconfirmed_spans(),
        unconfirmed_metrics(trace.push(step)) == unconfirmed_metrics(trace)
            + step.unconfirmed_metrics(),
        warnings(trace.push(step)) == if warns(trace.push(step)) {
            warnings(trace).push(step.warning(forward_failures(trace.push(step)) as u64))
        } else {
            warnings(trace)
        },
{
    reveal(Seq::filter);
    assert(trace.push(step).drop_last() =~= trace);
}

/// There are no more unwinds, and no more failed exports in recording calls,
/// than failed calls; and the number of warnings is what the sampling gives.
pub proof fn lemma_counts(trace: Seq<Step>)
    ensures
        unwinds(trace) <= failures(trace),
        forward_failures(trace) <= failures(trace),
        warnings(trace).len() == diagnostics::samples_up_to(
            capped(forward_failures(trace)) as nat,
        ),
        warnings(trace).len() <= capped(forward_failures(trace)),
    decreases trace.len(),
{
    reveal(Seq::filter);
    if trace.len() > 0 {
        let init = trace.drop_last();
        lemma_counts(init);
        lemma_push(init, trace.last());
        assert(init.push(trace.last()) =~= trace);
    }
}

/// The warning of a trace about its call at position `k`, if it calls for one.
pub open spec fn warning_at(trace: Seq<Step>, k: int) -> Option<WarningModel> {
    let upto = trace.take(k + 1);
    if warns(upto) {
        Some(trace[k].warning(forward_failures(upto) as u64))
    } else {
        None
    }
}

/// Whether a warning is about one of the calls of a trace.
pub open spec fn is_about_a_call(trace: Seq<Step>, w: WarningModel) -> bool {
    exists|k: int| 0 <= k < trace.len() && #[trigger] warning_at(trace, k) == Some(w)
}

/// The warnings of a trace are those about its calls, and none is there twice:
/// their failure numbers rise.
pub proof fn law_warnings_are_those_of_the_calls(trace: Seq<Step>)
    ensures
        forall|k: int|
            0 <= k < trace.len() ==> (#[trigger] warning_at(trace, k) matches Some(w)
                ==> warnings(trace).contains(w)),
        forall|i: int|
            0 <= i < warnings(trace).len() ==> is_about_a_call(
                trace,
                #[trigger] warnings(trace)[i],
            ),
        forall|i: int, j: int|
            0 <= i < j < warnings(trace).len() ==> (#[trigger] warnings(trace)[i]).forward_failures
                < (#[trigger] warnings(trace)[j]).forward_failures,
        forall|i: int|
            0 <= i < warnings(trace).len() ==> (#[trigger] warnings(trace)[i]).forward_failures
                <= forward_failures(trace),
    decreases trace.len(),
{
    if trace.len() > 0 {
        let n = trace.len() - 1;
        let init = trace.drop_last();
        let all = warnings(trace);
        law_warnings_are_those_of_the_calls(init);
        lemma_push(init, trace.last());
        assert(init.push(trace.last()) =~= trace);
        assert(trace.take(n + 1) =~= trace);
        assert forall|k: int| 0 <= k < n implies warning_at(trace, k) == #[trigger] warning_at(
            init,
            k,
        ) by {
            assert(trace.take(k + 1) =~= init.take(k + 1));
        }
        if warns(trace) {
            assert(all.drop_last() =~= warnings(init));
            assert(warning_at(trace, n) == Some(all.last()));
        }
        assert forall|k: int| 0 <= k < trace.len() implies (#[trigger] warning_at(
            trace,
            k,
        ) matches Some(w) ==> all.contains(w)) by {
            if k < n {
                assert(warning_at(trace, k) == warning_at(init, k));
                if let Some(w) = warning_at(init, k) {
                    let i = choose|i: int| 0 <= i < warnings(init).len() && warnings(init)[i] == w;
                    assert(all[i] == w);
                }
            } else if warns(trace) {
                assert(all[all.len() - 1] == all.last());
            }
        }
        assert forall|i: int| 0 <= i < all.len() implies is_about_a_call(
            trace,
            #[trigger] all[i],
        ) by {
            if i < warnings(init).len() {
                assert(all[i] == warnings(init)[i]);
                let k = choose|k: int|
                    0 <= k < init.len() && #[trigger] warning_at(init, k) == Some(
                        warnings(init)[i],
                    );
                assert(warning_at(trace, k) == warning_at(init, k));
            }
        }
    }
}

/// The diagnostics of a trace are well formed.
pub proof fn law_diagnosed_is_well_formed(trace: Seq<Step>)
    ensures
        diagnosed(trace).well_formed(),
        diagnosed(trace).logged_forward_failures == warnings(trace).len(),
{
    lemma_counts(trace);
}

} // verus!

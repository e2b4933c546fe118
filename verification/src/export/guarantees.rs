//! The laws of recording that is also exported: what a failing exporter can
//! and cannot change, what reaches the exporter, and what reaches the sink.

use vstd::prelude::*;
use vstd::utf8::*;

use crate::counting::CountingInstrumentation;
use crate::export::clock;
use crate::export::diagnostics::WarningModel;
use crate::export::forwarding;
use crate::export::forwarding::{ExportingInstrumentation, ExportingModel};
use crate::export::memory::InMemoryExporter;
use crate::export::trace::Step;
use crate::export::{CallOutcome, ExportError, GuardedExporter, Operation, Signal};
use crate::instrumentation::{Instrumentation, OpEvent};
use crate::ops;
use crate::text;

verus! {

/// Whatever the exporter does, the inner instrumentation records every call,
/// under the cleaned name.
pub proof fn law_inner_records_whatever_the_exporter_does<I: Instrumentation, E: GuardedExporter>(
    pre: ExportingModel<I, E>,
    event: OpEvent,
    now: u64,
    post: ExportingModel<I, E>,
)
    requires
        pre.recorded_at(event, now, post),
    ensures
        pre.inner.records(event.renamed(ops::sanitized(event.name())), &post.inner),
        ops::clean(ops::sanitized(event.name())),
{
    ops::law_sanitized_is_clean(event.name());
}

/// Counting behind any exporter counts every call once, whatever the exporter
/// does.
pub proof fn law_counting_is_exact_behind_any_exporter<E: GuardedExporter>(
    pre: ExportingModel<CountingInstrumentation, E>,
    event: OpEvent,
    now: u64,
    post: ExportingModel<CountingInstrumentation, E>,
)
    requires
        pre.recorded_at(event, now, post),
    ensures
        post.inner@ == pre.inner@.after(event),
{
    crate::counting::law_counts_ignore_names(
        pre.inner@,
        event,
        ops::sanitized(event.name()),
    );
}

/// A call into the exporter that succeeds leaves the diagnostics alone. One
/// that fails adds one failed call and its events, and one unwound call exactly
/// where it unwound; its caller gets the error, or that of a panic.
pub proof fn law_outcome_is_diagnosed<I, E>(
    pre: ExportingModel<I, E>,
    exporter: E,
    spans: nat,
    metrics: nat,
    outcome: CallOutcome,
)
    ensures
        ({
            let post = pre.settled(exporter, spans, metrics, outcome);
            &&& post.inner == pre.inner
            &&& post.warnings == pre.warnings
            &&& outcome.result() is Ok ==> post.diagnostics == pre.diagnostics
            &&& outcome.result() is Err && !post.diagnostics.counters_saturated ==> {
                &&& post.diagnostics.failed_export_calls == pre.diagnostics.failed_export_calls + 1
                &&& post.diagnostics.unconfirmed_spans == pre.diagnostics.unconfirmed_spans + spans
                &&& post.diagnostics.unconfirmed_metrics == pre.diagnostics.unconfirmed_metrics
                    + metrics
                &&& post.diagnostics.panicked_export_calls == pre.diagnostics.panicked_export_calls
                    + if outcome is Unwound {
                    1int
                } else {
                    0
                }
            }
            &&& outcome is Unwound ==> outcome.result() == Err::<(), ExportError>(
                ExportError::Panicked,
            )
        }),
{
}

/// One forwarded export keeps the invariant of the diagnostics, and sets aside
/// as many warnings as it counts.
proof fn lemma_forwarded_keeps_invariant<I, E>(
    pre: ExportingModel<I, E>,
    exporter: E,
    spans: nat,
    metrics: nat,
    outcome: CallOutcome,
    operation: Operation,
    signal: Signal,
    op: Seq<char>,
)
    requires
        pre.diagnostics.well_formed(),
    ensures
        ({
            let post = pre.forwarded(exporter, spans, metrics, outcome, operation, signal, op);
            &&& post.diagnostics.well_formed()
            &&& post.warnings.len() - pre.warnings.len()
                == post.diagnostics.logged_forward_failures
                - pre.diagnostics.logged_forward_failures
        }),
{
    crate::export::diagnostics::law_failures_keep_invariant(
        pre.diagnostics,
        spans,
        metrics,
        outcome is Unwound,
    );
}

/// Every recording call keeps the invariant of the diagnostics, in particular
/// that the warnings are those of the first failure and of the powers of two,
/// and sets aside as many warnings as it counts.
pub proof fn law_recording_keeps_diagnostics<I: Instrumentation, E: GuardedExporter>(
    pre: ExportingModel<I, E>,
    event: OpEvent,
    now: u64,
    post: ExportingModel<I, E>,
)
    requires
        pre.diagnostics.well_formed(),
        pre.recorded_at(event, now, post),
    ensures
        post.diagnostics.well_formed(),
        post.warnings.len() - pre.warnings.len() == post.diagnostics.logged_forward_failures
            - pre.diagnostics.logged_forward_failures,
{
    let name = ops::sanitized(event.name());
    let begun = pre.begun(event.renamed(name), post.inner);
    match event {
        OpEvent::Retry { op: _, attempt } => {
            let (first, mid, second) = choose|
                first: CallOutcome,
                mid: ExportingModel<I, E>,
                second: CallOutcome,
            | #[trigger]
                begun.spans_forwarded(
                    seq![forwarding::retry_span_model(name, attempt, now)],
                    Operation::RecordRetry,
                    name,
                    first,
                    mid,
                ) && #[trigger] mid.metrics_forwarded(
                    seq![forwarding::retry_metric_model(name, attempt)],
                    Operation::RecordRetry,
                    name,
                    second,
                    post,
                );
            lemma_forwarded_keeps_invariant(
                begun,
                mid.exporter,
                1,
                0,
                first,
                Operation::RecordRetry,
                Signal::Spans,
                name,
            );
            lemma_forwarded_keeps_invariant(
                mid,
                post.exporter,
                0,
                1,
                second,
                Operation::RecordRetry,
                Signal::Metrics,
                name,
            );
        },
        OpEvent::CircuitOpen { op: _ } => {
            let outcome = choose|outcome: CallOutcome| #[trigger]
                begun.spans_forwarded(
                    seq![forwarding::circuit_open_span_model(name, now)],
                    Operation::RecordCircuitOpen,
                    name,
                    outcome,
                    post,
                );
            lemma_forwarded_keeps_invariant(
                begun,
                post.exporter,
                1,
                0,
                outcome,
                Operation::RecordCircuitOpen,
                Signal::Spans,
                name,
            );
        },
        OpEvent::CircuitClose { op: _ } => {
            let outcome = choose|outcome: CallOutcome| #[trigger]
                begun.spans_forwarded(
                    seq![forwarding::circuit_close_span_model(name, now)],
                    Operation::RecordCircuitClose,
                    name,
                    outcome,
                    post,
                );
            lemma_forwarded_keeps_invariant(
                begun,
                post.exporter,
                1,
                0,
                outcome,
                Operation::RecordCircuitClose,
                Signal::Spans,
                name,
            );
        },
    }
}

/// Flushing and shutting down report their failures to the caller: they keep
/// the invariant of the diagnostics, and neither set aside a warning nor count
/// towards the sampling.
pub proof fn law_flush_and_shutdown_do_not_warn<I, E: GuardedExporter>(
    pre: ExportingModel<I, E>,
    outcome: CallOutcome,
    post: ExportingModel<I, E>,
)
    requires
        pre.flush_settled(outcome, post) || pre.shutdown_settled(outcome, post),
    ensures
        post.inner == pre.inner,
        post.warnings == pre.warnings,
        post.diagnostics.forward_failures == pre.diagnostics.forward_failures,
        post.diagnostics.logged_forward_failures == pre.diagnostics.logged_forward_failures,
        pre.diagnostics.well_formed() ==> post.diagnostics.well_formed(),
{
    if pre.diagnostics.well_formed() {
        crate::export::diagnostics::law_failures_keep_invariant(
            pre.diagnostics,
            0,
            0,
            outcome is Unwound,
        );
    }
}

/// The names of exported spans are a fixed label and a clean name: they have no
/// control characters, and exceed the bound of a name by their label only.
pub proof fn law_exported_names_are_bounded(op: Seq<char>, attempt: u32, now: u64)
    ensures
        ({
            let name = ops::sanitized(op);
            let retry = forwarding::retry_span_model(name, attempt, now).name;
            let open = forwarding::circuit_open_span_model(name, now).name;
            let close = forwarding::circuit_close_span_model(name, now).name;
            &&& text::byte_len(retry) <= ops::MAX_OP_BYTES + 6
            &&& text::byte_len(open) <= ops::MAX_OP_BYTES + 13
            &&& text::byte_len(close) <= ops::MAX_OP_BYTES + 14
            &&& forall|i: int| 0 <= i < retry.len() ==> !text::control(#[trigger] retry[i])
            &&& forall|i: int| 0 <= i < open.len() ==> !text::control(#[trigger] open[i])
            &&& forall|i: int| 0 <= i < close.len() ==> !text::control(#[trigger] close[i])
        }),
{
    let name = ops::sanitized(op);
    ops::law_sanitized_is_clean(op);
    reveal_strlit("retry:");
    reveal_strlit("circuit_open:");
    reveal_strlit("circuit_close:");
    lemma_labelled("retry:"@, name);
    lemma_labelled("circuit_open:"@, name);
    lemma_labelled("circuit_close:"@, name);
}

/// A label of printable ASCII characters adds its length to a name and brings
/// no control characters.
proof fn lemma_labelled(label: Seq<char>, name: Seq<char>)
    requires
        forall|i: int| 0 <= i < label.len() ==> '\u{20}' <= #[trigger] label[i] <= '\u{7e}',
        forall|i: int| 0 <= i < name.len() ==> !text::control(#[trigger] name[i]),
    ensures
        text::byte_len(label + name) == label.len() + text::byte_len(name),
        forall|i: int|
            0 <= i < (label + name).len() ==> !text::control(#[trigger] (label + name)[i]),
{
    is_ascii_chars_encode_utf8(label);
    text::lemma_byte_len_concat(label, name);
    assert forall|i: int| 0 <= i < (label + name).len() implies !text::control(
        #[trigger] (label + name)[i],
    ) by {
        if i < label.len() {
            assert((label + name)[i] == label[i]);
        } else {
            assert((label + name)[i] == name[i - label.len()]);
        }
    }
}

/// With the in-process sink as exporter, a recorded call hands the sink exactly
/// its events, and the sink takes them as it takes any batch.
pub proof fn law_recording_reaches_the_sink<I: Instrumentation>(
    pre: ExportingModel<I, InMemoryExporter>,
    event: OpEvent,
    now: u64,
    post: ExportingModel<I, InMemoryExporter>,
)
    requires
        pre.recorded_at(event, now, post),
    ensures
        ({
            let name = ops::sanitized(event.name());
            post.exporter@ == match event {
                OpEvent::Retry { op: _, attempt } => pre.exporter@.with_spans(
                    seq![forwarding::retry_span_model(name, attempt, now)],
                ).with_metrics(seq![forwarding::retry_metric_model(name, attempt)]),
                OpEvent::CircuitOpen { op: _ } => pre.exporter@.with_spans(
                    seq![forwarding::circuit_open_span_model(name, now)],
                ),
                OpEvent::CircuitClose { op: _ } => pre.exporter@.with_spans(
                    seq![forwarding::circuit_close_span_model(name, now)],
                ),
            }
        }),
{
}

/// As long as the sink is open and has a free slot for each kind of signal, a
/// recorded call is buffered behind what the sink holds, and neither the
/// diagnostics nor the warnings change.
pub proof fn law_recording_succeeds_with_room<I: Instrumentation>(
    pre: ExportingModel<I, InMemoryExporter>,
    event: OpEvent,
    now: u64,
    post: ExportingModel<I, InMemoryExporter>,
)
    requires
        pre.recorded_at(event, now, post),
        !pre.exporter@.shutdown,
        pre.exporter@.spans.len() < pre.exporter@.capacity_per_signal,
        pre.exporter@.metrics.len() < pre.exporter@.capacity_per_signal,
    ensures
        post.exporter@.spans.len() == pre.exporter@.spans.len() + 1,
        post.exporter@.spans.drop_last() == pre.exporter@.spans,
        event is Retry ==> post.exporter@.metrics.len() == pre.exporter@.metrics.len() + 1
            && post.exporter@.metrics.drop_last() == pre.exporter@.metrics,
        !(event is Retry) ==> post.exporter@.metrics == pre.exporter@.metrics,
        post.diagnostics == pre.diagnostics,
        post.warnings == pre.warnings,
{
}

/// Flushing and shutting down reach the sink and give its result.
pub proof fn law_flush_and_shutdown_reach_the_sink<I>(
    pre: ExportingModel<I, InMemoryExporter>,
    outcome: CallOutcome,
    post: ExportingModel<I, InMemoryExporter>,
)
    ensures
        pre.flush_settled(outcome, post) ==> post.exporter@ == pre.exporter@.after_flush()
            && outcome.result() == pre.exporter@.flush_result(),
        pre.shutdown_settled(outcome, post) ==> post.exporter@ == pre.exporter@.after_shutdown()
            && outcome.result() == Ok::<(), ExportError>(()),
{
}

/// Warnings, with one more if there is one.
pub open spec fn with_warning(
    warnings: Seq<WarningModel>,
    warning: Option<WarningModel>,
) -> Seq<WarningModel> {
    match warning {
        Some(warning) => warnings.push(warning),
        None => warnings,
    }
}

/// Whether a text is the decimal numeral of a number: digits that stand for it,
/// without a leading zero.
pub open spec fn is_numeral_of(s: Seq<char>, n: int) -> bool {
    &&& s.len() > 0
    &&& forall|i: int| 0 <= i < s.len() ==> '0' <= #[trigger] s[i] <= '9'
    &&& text::value_of(s) == n
    &&& s.len() > 1 ==> s[0] != '0'
}

/// A call that records a retry has the wrapped instrumentation record it under
/// the cleaned name, and then hands the exporter one span and one metric. The
/// name of the span is the label and the cleaned name, its start the time of the
/// call, its one attribute the attempt number. The metric has the attempt number
/// as its value and the cleaned name as its one attribute. How the two calls
/// ended is counted, and warned about as the sampling asks.
pub proof fn law_retry_is_exported<I: Instrumentation, E: GuardedExporter>(
    pre: ExportingModel<I, E>,
    op: Seq<char>,
    attempt: u32,
    now: u64,
    post: ExportingModel<I, E>,
)
    requires
        pre.recorded_at(OpEvent::Retry { op, attempt }, now, post),
    ensures
        pre.inner.records(OpEvent::Retry { op: ops::sanitized(op), attempt }, &post.inner),
        post.trace.len() == pre.trace.len() + 3,
        post.trace.take(pre.trace.len() as int) == pre.trace,
        post.trace[pre.trace.len() as int] == Step::Inner(
            OpEvent::Retry { op: ops::sanitized(op), attempt },
        ),
        post.trace[pre.trace.len() as int + 1] matches Step::Spans {
            spans,
            operation,
            op: about,
            outcome,
        } && {
            &&& spans.len() == 1
            &&& spans[0].name == "retry:"@ + ops::sanitized(op)
            &&& spans[0].start_unix_ms == now
            &&& spans[0].attributes.len() == 1
            &&& spans[0].attributes[0].0 == "attempt"@
            &&& is_numeral_of(spans[0].attributes[0].1, attempt as int)
            &&& operation == Operation::RecordRetry
            &&& about == ops::sanitized(op)
        },
        post.trace[pre.trace.len() as int + 2] matches Step::Metrics {
            metrics,
            operation,
            op: about,
            outcome,
        } && {
            &&& metrics.len() == 1
            &&& metrics[0].name == "retry"@
            &&& metrics[0].value == attempt
            &&& metrics[0].attributes.len() == 1
            &&& metrics[0].attributes[0].0 == "op"@
            &&& metrics[0].attributes[0].1 == ops::sanitized(op)
            &&& operation == Operation::RecordRetry
            &&& about == ops::sanitized(op)
        },
        ({
            let first = post.trace[pre.trace.len() as int + 1];
            let second = post.trace[pre.trace.len() as int + 2];
            let name = ops::sanitized(op);
            let mid = pre.diagnostics.forwarded(1, 0, first->Spans_outcome);
            &&& exists|between: E| #[trigger]
                pre.exporter.spans_called(first->spans, &between, first->Spans_outcome)
                    && between.metrics_called(
                    second->metrics,
                    &post.exporter,
                    second->Metrics_outcome,
                )
            &&& post.diagnostics == mid.forwarded(0, 1, second->Metrics_outcome)
            &&& post.warnings == with_warning(
                with_warning(
                    pre.warnings,
                    pre.diagnostics.forward_warning(
                        first->Spans_outcome,
                        Operation::RecordRetry,
                        Signal::Spans,
                        name,
                    ),
                ),
                mid.forward_warning(
                    second->Metrics_outcome,
                    Operation::RecordRetry,
                    Signal::Metrics,
                    name,
                ),
            )
        }),
{
    let name = ops::sanitized(op);
    let begun = pre.begun(OpEvent::Retry { op: name, attempt }, post.inner);
    assert(begun.retry_forwarded(name, attempt, now, post));
    let (first, mid, second) = choose|
        first: CallOutcome,
        mid: ExportingModel<I, E>,
        second: CallOutcome,
    | #[trigger]
        begun.spans_forwarded(
            seq![forwarding::retry_span_model(name, attempt, now)],
            Operation::RecordRetry,
            name,
            first,
            mid,
        ) && #[trigger] mid.metrics_forwarded(
            seq![forwarding::retry_metric_model(name, attempt)],
            Operation::RecordRetry,
            name,
            second,
            post,
        );
    text::law_decimal_stands_for_the_number(attempt as nat);
    assert(post.trace.take(pre.trace.len() as int) =~= pre.trace);
    assert(pre.exporter.spans_called(
        post.trace[pre.trace.len() as int + 1]->spans,
        &mid.exporter,
        first,
    ));
}

/// A call that records an opened circuit breaker has the wrapped instrumentation record it
/// under the cleaned name, and then hands the exporter one span: its name is the
/// label and the cleaned name, its start the time of the call, and it has no
/// attributes. How that ended is counted, and warned about as the sampling asks.
pub proof fn law_circuit_open_is_exported<I: Instrumentation, E: GuardedExporter>(
    pre: ExportingModel<I, E>,
    op: Seq<char>,
    now: u64,
    post: ExportingModel<I, E>,
)
    requires
        pre.recorded_at(OpEvent::CircuitOpen { op }, now, post),
    ensures
        pre.inner.records(OpEvent::CircuitOpen { op: ops::sanitized(op) }, &post.inner),
        post.trace.len() == pre.trace.len() + 2,
        post.trace.take(pre.trace.len() as int) == pre.trace,
        post.trace[pre.trace.len() as int] == Step::Inner(
            OpEvent::CircuitOpen { op: ops::sanitized(op) },
        ),
        post.trace[pre.trace.len() as int + 1] matches Step::Spans {
            spans,
            operation,
            op: about,
            outcome,
        } && {
            &&& spans.len() == 1
            &&& spans[0].name == "circuit_open:"@ + ops::sanitized(op)
            &&& spans[0].start_unix_ms == now
            &&& spans[0].attributes.len() == 0
            &&& operation == Operation::RecordCircuitOpen
            &&& about == ops::sanitized(op)
            &&& pre.exporter.spans_called(spans, &post.exporter, outcome)
            &&& post.diagnostics == pre.diagnostics.forwarded(1, 0, outcome)
            &&& post.warnings == with_warning(
                pre.warnings,
                pre.diagnostics.forward_warning(outcome, operation, Signal::Spans, about),
            )
        },
{
    let name = ops::sanitized(op);
    let begun = pre.begun(OpEvent::CircuitOpen { op: name }, post.inner);
    assert(begun.circuit_open_forwarded(name, now, post));
    let outcome = choose|outcome: CallOutcome| #[trigger]
        begun.spans_forwarded(
            seq![forwarding::circuit_open_span_model(name, now)],
            Operation::RecordCircuitOpen,
            name,
            outcome,
            post,
        );
    assert(post.trace.take(pre.trace.len() as int) =~= pre.trace);
}

/// A call that records a closed circuit breaker has the wrapped instrumentation record it
/// under the cleaned name, and then hands the exporter one span: its name is the
/// label and the cleaned name, its start the time of the call, and it has no
/// attributes. How that ended is counted, and warned about as the sampling asks.
pub proof fn law_circuit_close_is_exported<I: Instrumentation, E: GuardedExporter>(
    pre: ExportingModel<I, E>,
    op: Seq<char>,
    now: u64,
    post: ExportingModel<I, E>,
)
    requires
        pre.recorded_at(OpEvent::CircuitClose { op }, now, post),
    ensures
        pre.inner.records(OpEvent::CircuitClose { op: ops::sanitized(op) }, &post.inner),
        post.trace.len() == pre.trace.len() + 2,
        post.trace.take(pre.trace.len() as int) == pre.trace,
        post.trace[pre.trace.len() as int] == Step::Inner(
            OpEvent::CircuitClose { op: ops::sanitized(op) },
        ),
        post.trace[pre.trace.len() as int + 1] matches Step::Spans {
            spans,
            operation,
            op: about,
            outcome,
        } && {
            &&& spans.len() == 1
            &&& spans[0].name == "circuit_close:"@ + ops::sanitized(op)
            &&& spans[0].start_unix_ms == now
            &&& spans[0].attributes.len() == 0
            &&& operation == Operation::RecordCircuitClose
            &&& about == ops::sanitized(op)
            &&& pre.exporter.spans_called(spans, &post.exporter, outcome)
            &&& post.diagnostics == pre.diagnostics.forwarded(1, 0, outcome)
            &&& post.warnings == with_warning(
                pre.warnings,
                pre.diagnostics.forward_warning(outcome, operation, Signal::Spans, about),
            )
        },
{
    let name = ops::sanitized(op);
    let begun = pre.begun(OpEvent::CircuitClose { op: name }, post.inner);
    assert(begun.circuit_close_forwarded(name, now, post));
    let outcome = choose|outcome: CallOutcome| #[trigger]
        begun.spans_forwarded(
            seq![forwarding::circuit_close_span_model(name, now)],
            Operation::RecordCircuitClose,
            name,
            outcome,
            post,
        );
    assert(post.trace.take(pre.trace.len() as int) =~= pre.trace);
}

/// A recording call reads the clock once, and the span that it exports starts at
/// the milliseconds of that reading.
pub proof fn law_span_starts_when_the_clock_is_read<I: Instrumentation, E: GuardedExporter>(
    pre: &ExportingInstrumentation<I, E>,
    event: OpEvent,
    post: &ExportingInstrumentation<I, E>,
)
    requires
        pre.records(event, post),
    ensures
        post.readings().len() == pre.readings().len() + 1,
        post.readings().drop_last() == pre.readings(),
        post@.trace[pre@.trace.len() as int + 1] matches Step::Spans {
            spans,
            operation,
            op,
            outcome,
        } && spans.len() == 1 && spans[0].start_unix_ms == clock::unix_ms(post.readings().last()),
{
    let now = choose|now: u64| #[trigger]
        pre@.recorded_at(event, now, post@) && pre@.traced_at(event, now, post@)
            && clock::read_once(pre.readings(), post.readings(), now);
    match event {
        OpEvent::Retry { op, attempt } => law_retry_is_exported(pre@, op, attempt, now, post@),
        OpEvent::CircuitOpen { op } => law_circuit_open_is_exported(pre@, op, now, post@),
        OpEvent::CircuitClose { op } => law_circuit_close_is_exported(pre@, op, now, post@),
    }
}

/// With the in-process sink as exporter, open and with room, the last span in
/// the buffer is then that of the call: the label and the cleaned name, with the
/// time of the call as its start, and, of a retry, the attempt number. The last
/// metric is then that of the retry.
pub proof fn law_recorded_events_are_buffered<I: Instrumentation>(
    pre: ExportingModel<I, InMemoryExporter>,
    event: OpEvent,
    now: u64,
    post: ExportingModel<I, InMemoryExporter>,
)
    requires
        pre.recorded_at(event, now, post),
        !pre.exporter@.shutdown,
        pre.exporter@.spans.len() < pre.exporter@.capacity_per_signal,
        pre.exporter@.metrics.len() < pre.exporter@.capacity_per_signal,
    ensures
        ({
            let name = ops::sanitized(event.name());
            let span = post.exporter@.spans.last();
            let metric = post.exporter@.metrics.last();
            &&& post.exporter@.spans.len() == pre.exporter@.spans.len() + 1
            &&& span.start_unix_ms == now
            &&& event is Retry ==> {
                &&& span.name == "retry:"@ + name
                &&& span.attributes.len() == 1
                &&& span.attributes[0].0 == "attempt"@
                &&& is_numeral_of(span.attributes[0].1, event->attempt as int)
                &&& post.exporter@.metrics.len() == pre.exporter@.metrics.len() + 1
                &&& metric.name == "retry"@
                &&& metric.value == event->attempt
                &&& metric.attributes.len() == 1
                &&& metric.attributes[0].0 == "op"@
                &&& metric.attributes[0].1 == name
            }
            &&& event is CircuitOpen ==> span.name == "circuit_open:"@ + name
                && span.attributes.len() == 0
            &&& event is CircuitClose ==> span.name == "circuit_close:"@ + name
                && span.attributes.len() == 0
            &&& !(event is Retry) ==> post.exporter@.metrics == pre.exporter@.metrics
        }),
{
    law_recording_reaches_the_sink(pre, event, now, post);
    if let OpEvent::Retry { op, attempt } = event {
        text::law_decimal_stands_for_the_number(attempt as nat);
    }
}

/// The events that are made for a call say the given name, time and attempt
/// number.
pub proof fn law_events_say_the_call(op: Seq<char>, attempt: u32, now: u64)
    ensures
        ({
            let span = forwarding::retry_span_model(op, attempt, now);
            &&& span.name == "retry:"@ + op
            &&& span.start_unix_ms == now
            &&& span.attributes.len() == 1
            &&& span.attributes[0].0 == "attempt"@
            &&& is_numeral_of(span.attributes[0].1, attempt as int)
        }),
        ({
            let metric = forwarding::retry_metric_model(op, attempt);
            &&& metric.name == "retry"@
            &&& metric.value == attempt
            &&& metric.attributes.len() == 1
            &&& metric.attributes[0].0 == "op"@
            &&& metric.attributes[0].1 == op
        }),
        ({
            let span = forwarding::circuit_open_span_model(op, now);
            &&& span.name == "circuit_open:"@ + op
            &&& span.start_unix_ms == now
            &&& span.attributes.len() == 0
        }),
        ({
            let span = forwarding::circuit_close_span_model(op, now);
            &&& span.name == "circuit_close:"@ + op
            &&& span.start_unix_ms == now
            &&& span.attributes.len() == 0
        }),
{
    text::law_decimal_stands_for_the_number(attempt as nat);
}

/// Flushing and shutting down make one call into the exporter and count how it
/// ended; the wrapped instrumentation and the warnings stay as they are.
pub proof fn law_flush_and_shutdown_make_one_call<I, E: GuardedExporter>(
    pre: ExportingModel<I, E>,
    outcome: CallOutcome,
    post: ExportingModel<I, E>,
)
    ensures
        pre.flush_settled(outcome, post) ==> pre.exporter.flush_called(&post.exporter, outcome)
            && post.trace == pre.trace.push(Step::Flush(outcome)),
        pre.shutdown_settled(outcome, post) ==> pre.exporter.shutdown_called(
            &post.exporter,
            outcome,
        ) && post.trace == pre.trace.push(Step::Shutdown(outcome)),
        pre.flush_settled(outcome, post) || pre.shutdown_settled(outcome, post) ==> {
            &&& post.inner == pre.inner
            &&& post.warnings == pre.warnings
            &&& post.diagnostics == pre.diagnostics.settled(0, 0, outcome)
        },
{
}

} // verus!

//! The laws of the in-process sink: what every operation keeps, and how every
//! event that was handed over is accounted for.

use vstd::prelude::*;

use crate::export::memory;
use crate::export::memory::SinkModel;
use crate::export::{ExportError, MetricModel, SpanModel};

verus! {

/// One operation on a sink.
pub enum SinkStep {
    /// An export of spans.
    Spans(Seq<SpanModel>),
    /// An export of metrics.
    Metrics(Seq<MetricModel>),
    /// A flush.
    Flush,
    /// A shutdown.
    Shutdown,
}

impl SinkModel {
    /// The sink after one operation.
    pub open spec fn after(self, step: SinkStep) -> SinkModel {
        match step {
            SinkStep::Spans(batch) => self.with_spans(batch),
            SinkStep::Metrics(batch) => self.with_metrics(batch),
            SinkStep::Flush => self.after_flush(),
            SinkStep::Shutdown => self.after_shutdown(),
        }
    }

    /// The sink after a history of operations.
    pub open spec fn after_all(self, steps: Seq<SinkStep>) -> SinkModel
        decreases steps.len(),
    {
        if steps.len() == 0 {
            self
        } else {
            self.after_all(steps.drop_last()).after(steps.last())
        }
    }

    /// How many spans a history hands over while the sink is open.
    pub open spec fn offered_spans(self, steps: Seq<SinkStep>) -> nat
        decreases steps.len(),
    {
        if steps.len() == 0 {
            0
        } else {
            self.offered_spans(steps.drop_last()) + match steps.last() {
                SinkStep::Spans(batch) if !self.after_all(steps.drop_last()).shutdown => batch.len(),
                _ => 0,
            }
        }
    }

    /// How many metrics a history hands over while the sink is open.
    pub open spec fn offered_metrics(self, steps: Seq<SinkStep>) -> nat
        decreases steps.len(),
    {
        if steps.len() == 0 {
            0
        } else {
            self.offered_metrics(steps.drop_last()) + match steps.last() {
                SinkStep::Metrics(batch) if !self.after_all(
                    steps.drop_last(),
                ).shutdown => batch.len(),
                _ => 0,
            }
        }
    }

    /// How many spans a history hands over that the sink takes.
    pub open spec fn accepted_spans(self, steps: Seq<SinkStep>) -> nat
        decreases steps.len(),
    {
        if steps.len() == 0 {
            0
        } else {
            self.accepted_spans(steps.drop_last()) + match steps.last() {
                SinkStep::Spans(batch) if self.after_all(steps.drop_last()).span_result(
                    batch,
                ) is Ok => batch.len(),
                _ => 0,
            }
        }
    }

    /// How many metrics a history hands over that the sink takes.
    pub open spec fn accepted_metrics(self, steps: Seq<SinkStep>) -> nat
        decreases steps.len(),
    {
        if steps.len() == 0 {
            0
        } else {
            self.accepted_metrics(steps.drop_last()) + match steps.last() {
                SinkStep::Metrics(batch) if self.after_all(steps.drop_last()).metric_result(
                    batch,
                ) is Ok => batch.len(),
                _ => 0,
            }
        }
    }

    /// How many spans a history hands over that the sink refuses for want of
    /// room.
    pub open spec fn refused_spans(self, steps: Seq<SinkStep>) -> nat
        decreases steps.len(),
    {
        if steps.len() == 0 {
            0
        } else {
            self.refused_spans(steps.drop_last()) + match steps.last() {
                SinkStep::Spans(batch) if self.after_all(steps.drop_last()).span_result(batch)
                    == Err::<(), ExportError>(ExportError::BufferFull) => batch.len(),
                _ => 0,
            }
        }
    }

    /// How many metrics a history hands over that the sink refuses for want of
    /// room.
    pub open spec fn refused_metrics(self, steps: Seq<SinkStep>) -> nat
        decreases steps.len(),
    {
        if steps.len() == 0 {
            0
        } else {
            self.refused_metrics(steps.drop_last()) + match steps.last() {
                SinkStep::Metrics(batch) if self.after_all(steps.drop_last()).metric_result(batch)
                    == Err::<(), ExportError>(ExportError::BufferFull) => batch.len(),
                _ => 0,
            }
        }
    }

    /// The batches of spans that the sink took since the last flush or
    /// shutdown, one behind the other.
    pub open spec fn pending_spans(self, steps: Seq<SinkStep>) -> Seq<SpanModel>
        decreases steps.len(),
    {
        if steps.len() == 0 || steps.last() is Flush || steps.last() is Shutdown {
            Seq::empty()
        } else {
            match steps.last() {
                SinkStep::Spans(batch) if self.after_all(steps.drop_last()).span_result(
                    batch,
                ) is Ok => self.pending_spans(steps.drop_last()) + batch,
                _ => self.pending_spans(steps.drop_last()),
            }
        }
    }

    /// The batches of metrics that the sink took since the last flush or
    /// shutdown, one behind the other.
    pub open spec fn pending_metrics(self, steps: Seq<SinkStep>) -> Seq<MetricModel>
        decreases steps.len(),
    {
        if steps.len() == 0 || steps.last() is Flush || steps.last() is Shutdown {
            Seq::empty()
        } else {
            match steps.last() {
                SinkStep::Metrics(batch) if self.after_all(steps.drop_last()).metric_result(
                    batch,
                ) is Ok => self.pending_metrics(steps.drop_last()) + batch,
                _ => self.pending_metrics(steps.drop_last()),
            }
        }
    }

    /// The spans that are buffered, were flushed or were dropped.
    pub open spec fn accounted_spans(self) -> int {
        self.spans.len() + self.flushed_spans + self.dropped_spans
    }

    /// The metrics that are buffered, were flushed or were dropped.
    pub open spec fn accounted_metrics(self) -> int {
        self.metrics.len() + self.flushed_metrics + self.dropped_metrics
    }
}

/// Every operation keeps the invariant of the sink and its capacity, lowers no
/// count, clears no saturation flag and reopens no sink.
pub proof fn law_step_keeps_invariant(sink: SinkModel, step: SinkStep)
    requires
        sink.well_formed(),
    ensures
        sink.after(step).well_formed(),
        sink.after(step).capacity_per_signal == sink.capacity_per_signal,
        sink.flushed_spans <= sink.after(step).flushed_spans,
        sink.flushed_metrics <= sink.after(step).flushed_metrics,
        sink.dropped_spans <= sink.after(step).dropped_spans,
        sink.dropped_metrics <= sink.after(step).dropped_metrics,
        sink.counters_saturated ==> sink.after(step).counters_saturated,
        sink.shutdown ==> sink.after(step).shutdown,
{
}

/// After any history the buffers keep to the capacity that the sink was made
/// with, a sink that was shut down is empty, and a raised saturation flag means
/// that one of the counts stands at its maximum.
pub proof fn law_history_keeps_invariant(capacity: usize, steps: Seq<SinkStep>)
    ensures
        SinkModel::new(capacity).after_all(steps).well_formed(),
        SinkModel::new(capacity).after_all(steps).capacity_per_signal == capacity,
    decreases steps.len(),
{
    if steps.len() > 0 {
        law_history_keeps_invariant(capacity, steps.drop_last());
        law_step_keeps_invariant(
            SinkModel::new(capacity).after_all(steps.drop_last()),
            steps.last(),
        );
    }
}

/// As long as no count is saturated, one operation accounts for exactly the
/// events that it hands over to an open sink.
pub proof fn law_step_accounts(sink: SinkModel, step: SinkStep)
    requires
        !sink.after(step).counters_saturated,
    ensures
        !sink.counters_saturated,
        sink.after(step).accounted_spans() == sink.accounted_spans() + match step {
            SinkStep::Spans(batch) if !sink.shutdown => batch.len(),
            _ => 0,
        },
        sink.after(step).accounted_metrics() == sink.accounted_metrics() + match step {
            SinkStep::Metrics(batch) if !sink.shutdown => batch.len(),
            _ => 0,
        },
{
}

/// As long as no count is saturated, every event that a history hands over to
/// the open sink is buffered, flushed or dropped, and counted once.
pub proof fn law_history_accounts(capacity: usize, steps: Seq<SinkStep>)
    requires
        !SinkModel::new(capacity).after_all(steps).counters_saturated,
    ensures
        SinkModel::new(capacity).after_all(steps).accounted_spans() == SinkModel::new(
            capacity,
        ).offered_spans(steps),
        SinkModel::new(capacity).after_all(steps).accounted_metrics() == SinkModel::new(
            capacity,
        ).offered_metrics(steps),
    decreases steps.len(),
{
    if steps.len() > 0 {
        law_step_accounts(SinkModel::new(capacity).after_all(steps.drop_last()), steps.last());
        law_history_accounts(capacity, steps.drop_last());
    }
}

/// After any history the dropped counts are the events refused for want of room
/// and the flushed counts are the events taken and no longer buffered, each up
/// to its maximum; so that, as long as no count is saturated, what is buffered
/// and what was flushed make up what was taken.
pub proof fn law_history_parts_taken_from_refused(capacity: usize, steps: Seq<SinkStep>)
    ensures
        ({
            let sink = SinkModel::new(capacity);
            let end = sink.after_all(steps);
            &&& end.spans.len() <= sink.accepted_spans(steps)
            &&& end.metrics.len() <= sink.accepted_metrics(steps)
            &&& end.dropped_spans == memory::saturated_sum(0, sink.refused_spans(steps))
            &&& end.dropped_metrics == memory::saturated_sum(0, sink.refused_metrics(steps))
            &&& end.flushed_spans == memory::saturated_sum(
                0,
                (sink.accepted_spans(steps) - end.spans.len()) as nat,
            )
            &&& end.flushed_metrics == memory::saturated_sum(
                0,
                (sink.accepted_metrics(steps) - end.metrics.len()) as nat,
            )
            &&& !end.counters_saturated ==> {
                &&& end.spans.len() + end.flushed_spans == sink.accepted_spans(steps)
                &&& end.metrics.len() + end.flushed_metrics == sink.accepted_metrics(steps)
                &&& end.dropped_spans == sink.refused_spans(steps)
                &&& end.dropped_metrics == sink.refused_metrics(steps)
            }
        }),
    decreases steps.len(),
{
    if steps.len() > 0 {
        law_history_parts_taken_from_refused(capacity, steps.drop_last());
    }
}

/// After any history the buffers hold exactly the batches taken since the last
/// flush or shutdown, in their order.
pub proof fn law_history_buffers(capacity: usize, steps: Seq<SinkStep>)
    ensures
        SinkModel::new(capacity).after_all(steps).spans == SinkModel::new(capacity).pending_spans(
            steps,
        ),
        SinkModel::new(capacity).after_all(steps).metrics == SinkModel::new(
            capacity,
        ).pending_metrics(steps),
    decreases steps.len(),
{
    if steps.len() > 0 {
        law_history_buffers(capacity, steps.drop_last());
        law_history_keeps_invariant(capacity, steps.drop_last());
    }
}

/// Saturated or not, the counts are lower bounds: no history accounts for more
/// events than it hands over.
pub proof fn law_history_counts_are_lower_bounds(capacity: usize, steps: Seq<SinkStep>)
    ensures
        SinkModel::new(capacity).after_all(steps).accounted_spans() <= SinkModel::new(
            capacity,
        ).offered_spans(steps),
        SinkModel::new(capacity).after_all(steps).accounted_metrics() <= SinkModel::new(
            capacity,
        ).offered_metrics(steps),
    decreases steps.len(),
{
    if steps.len() > 0 {
        law_history_counts_are_lower_bounds(capacity, steps.drop_last());
    }
}

/// A batch that is refused for want of room leaves both buffers and every count
/// but its own dropped count as they were; the dropped count grows by the whole
/// batch, up to its maximum.
pub proof fn law_refused_batch_is_dropped_whole(
    sink: SinkModel,
    spans: Seq<SpanModel>,
    metrics: Seq<MetricModel>,
)
    ensures
        sink.span_result(spans) == Err::<(), ExportError>(ExportError::BufferFull)
            ==> sink.with_spans(spans) == (SinkModel {
            dropped_spans: memory::saturated_sum(sink.dropped_spans, spans.len()),
            counters_saturated: sink.counters_saturated || memory::overflows(
                sink.dropped_spans,
                spans.len(),
            ),
            ..sink
        }),
        sink.metric_result(metrics) == Err::<(), ExportError>(ExportError::BufferFull)
            ==> sink.with_metrics(metrics) == (SinkModel {
            dropped_metrics: memory::saturated_sum(sink.dropped_metrics, metrics.len()),
            counters_saturated: sink.counters_saturated || memory::overflows(
                sink.dropped_metrics,
                metrics.len(),
            ),
            ..sink
        }),
{
}

/// The two kinds of signals do not compete for room: what one export returns
/// does not depend on the other, and their order does not matter.
pub proof fn law_signals_are_independent(
    sink: SinkModel,
    spans: Seq<SpanModel>,
    metrics: Seq<MetricModel>,
)
    ensures
        sink.with_spans(spans).metric_result(metrics) == sink.metric_result(metrics),
        sink.with_metrics(metrics).span_result(spans) == sink.span_result(spans),
        sink.with_spans(spans).with_metrics(metrics) == sink.with_metrics(metrics).with_spans(
            spans,
        ),
{
}

/// A sink without capacity takes empty batches and refuses all others.
pub proof fn law_zero_capacity(spans: Seq<SpanModel>, metrics: Seq<MetricModel>)
    ensures
        SinkModel::new(0).span_result(spans) == (if spans.len() == 0 {
            Ok::<(), ExportError>(())
        } else {
            Err(ExportError::BufferFull)
        }),
        SinkModel::new(0).metric_result(metrics) == (if metrics.len() == 0 {
            Ok::<(), ExportError>(())
        } else {
            Err(ExportError::BufferFull)
        }),
{
}

/// A flush empties both buffers, so that an open sink again takes any batch up
/// to its capacity; it does not touch the dropped counts.
pub proof fn law_flush_frees_the_buffers(
    sink: SinkModel,
    spans: Seq<SpanModel>,
    metrics: Seq<MetricModel>,
)
    requires
        !sink.shutdown,
    ensures
        sink.flush_result() == Ok::<(), ExportError>(()),
        sink.after_flush().spans.len() == 0,
        sink.after_flush().metrics.len() == 0,
        sink.after_flush().dropped_spans == sink.dropped_spans,
        sink.after_flush().dropped_metrics == sink.dropped_metrics,
        sink.after_flush().span_result(spans) is Ok <==> spans.len() <= sink.capacity_per_signal,
        sink.after_flush().metric_result(metrics) is Ok <==> metrics.len()
            <= sink.capacity_per_signal,
{
}

/// Shutting down counts what is pending as flushed, exactly as a flush would,
/// and closes the sink.
pub proof fn law_shutdown_flushes_first(sink: SinkModel)
    requires
        !sink.shutdown,
    ensures
        sink.after_shutdown() == (SinkModel { shutdown: true, ..sink.after_flush() }),
{
}

/// Shutting down again changes nothing, so that nothing is counted twice.
pub proof fn law_shutdown_is_idempotent(sink: SinkModel)
    ensures
        sink.after_shutdown().shutdown,
        sink.after_shutdown().after_shutdown() == sink.after_shutdown(),
{
}

/// Once shut down, a sink answers every export, even of an empty batch, and
/// every flush with the shutdown error, and nothing changes it any more.
pub proof fn law_closed_sink_refuses_everything(
    sink: SinkModel,
    spans: Seq<SpanModel>,
    metrics: Seq<MetricModel>,
    step: SinkStep,
)
    requires
        sink.shutdown,
    ensures
        sink.span_result(spans) == Err::<(), ExportError>(ExportError::Shutdown),
        sink.metric_result(metrics) == Err::<(), ExportError>(ExportError::Shutdown),
        sink.flush_result() == Err::<(), ExportError>(ExportError::Shutdown),
        sink.after(step) == sink,
{
}

} // verus!

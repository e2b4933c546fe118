//! The bounded in-process sink.

use vstd::prelude::*;

use crate::export;
use crate::export::{
    CallOutcome, ExportError, GuardedExporter, MetricEvent, MetricModel, SpanEvent, SpanModel,
    TelemetryExporter, DEFAULT_BUFFER_CAPACITY,
};

verus! {

/// The state of an [`InMemoryExporter`].
#[derive(Debug)]
pub struct MemExportState {
    /// How many spans, and how many metrics, the sink holds at most.
    pub capacity_per_signal: usize,
    /// The buffered spans.
    pub spans: Vec<SpanEvent>,
    /// The buffered metrics.
    pub metrics: Vec<MetricEvent>,
    /// How many spans were flushed.
    pub flushed_spans: usize,
    /// How many metrics were flushed.
    pub flushed_metrics: usize,
    /// How many spans were dropped for want of room.
    pub dropped_spans: usize,
    /// How many metrics were dropped for want of room.
    pub dropped_metrics: usize,
    /// Whether a count went beyond what `usize` holds.
    pub counters_saturated: bool,
    /// Whether the sink is shut down.
    pub shutdown: bool,
}

/// A consistent snapshot of the counts of an [`InMemoryExporter`].
#[derive(Debug, Clone, Copy, PartialEq, Eq, Structural)]
pub struct InMemoryExporterStats {
    /// The capacity of each kind of signal on its own.
    pub capacity_per_signal: usize,
    /// How many spans are buffered.
    pub buffered_spans: usize,
    /// How many metrics are buffered.
    pub buffered_metrics: usize,
    /// How many spans were flushed.
    pub flushed_spans: usize,
    /// How many metrics were flushed.
    pub flushed_metrics: usize,
    /// How many spans were dropped, in whole batches, for want of room.
    pub dropped_spans: usize,
    /// How many metrics were dropped, in whole batches, for want of room.
    pub dropped_metrics: usize,
    /// Whether a count went beyond what `usize` holds. If so, at least one
    /// flushed or dropped count stands at `usize::MAX` and is a lower bound.
    pub counters_saturated: bool,
    /// Whether the sink is shut down.
    pub is_shutdown: bool,
}

/// A bounded in-process sink.
///
/// Spans and metrics have `capacity_per_signal` slots each. An export that
/// finds too little room is refused as a whole: the buffer stays as it was and
/// the batch is counted as dropped. Exports of the two kinds are independent.
/// Shutting down first counts what is pending as flushed. The data lives in
/// this process only; it is neither written to disk nor sent anywhere. The
/// capacity bounds the number of events, not the bytes of their fields.
#[derive(Debug)]
pub struct InMemoryExporter {
    inner: MemExportState,
}

/// What a sink holds.
#[verifier::ext_equal]
pub struct SinkModel {
    pub capacity_per_signal: usize,
    pub spans: Seq<SpanModel>,
    pub metrics: Seq<MetricModel>,
    pub flushed_spans: usize,
    pub flushed_metrics: usize,
    pub dropped_spans: usize,
    pub dropped_metrics: usize,
    pub counters_saturated: bool,
    pub shutdown: bool,
}

/// Whether a count goes beyond what `usize` holds when `amount` is added.
pub open spec fn overflows(count: usize, amount: nat) -> bool {
    count + amount > usize::MAX
}

/// A count with `amount` added, held at `usize::MAX`.
pub open spec fn saturated_sum(count: usize, amount: nat) -> usize {
    if overflows(count, amount) {
        usize::MAX
    } else {
        (count + amount) as usize
    }
}

/// Whether `amount` more events fit beside `buffered` ones.
pub open spec fn has_room(capacity: usize, buffered: nat, amount: nat) -> bool {
    amount == 0 || buffered + amount <= capacity
}

impl SinkModel {
    /// An empty, open sink.
    pub open spec fn new(capacity_per_signal: usize) -> SinkModel {
        SinkModel {
            capacity_per_signal,
            spans: Seq::empty(),
            metrics: Seq::empty(),
            flushed_spans: 0,
            flushed_metrics: 0,
            dropped_spans: 0,
            dropped_metrics: 0,
            counters_saturated: false,
            shutdown: false,
        }
    }

    /// The invariant of a sink: each buffer keeps to the capacity, a sink that
    /// is shut down holds nothing, and a raised saturation flag means that one
    /// of the counts stands at its maximum.
    pub open spec fn well_formed(self) -> bool {
        &&& self.spans.len() <= self.capacity_per_signal
        &&& self.metrics.len() <= self.capacity_per_signal
        &&& self.shutdown ==> self.spans.len() == 0 && self.metrics.len() == 0
        &&& self.counters_saturated ==> {
            ||| self.flushed_spans == usize::MAX
            ||| self.flushed_metrics == usize::MAX
            ||| self.dropped_spans == usize::MAX
            ||| self.dropped_metrics == usize::MAX
        }
    }

    /// What exporting spans returns.
    pub open spec fn span_result(self, batch: Seq<SpanModel>) -> Result<(), ExportError> {
        if self.shutdown {
            Err(ExportError::Shutdown)
        } else if has_room(self.capacity_per_signal, self.spans.len(), batch.len()) {
            Ok(())
        } else {
            Err(ExportError::BufferFull)
        }
    }

    /// The sink after exporting spans: they are appended, or counted as
    /// dropped, or, once shut down, ignored.
    pub open spec fn with_spans(self, batch: Seq<SpanModel>) -> SinkModel {
        match self.span_result(batch) {
            Ok(()) => SinkModel { spans: self.spans + batch, ..self },
            Err(ExportError::BufferFull) => SinkModel {
                dropped_spans: saturated_sum(self.dropped_spans, batch.len()),
                counters_saturated: self.counters_saturated || overflows(
                    self.dropped_spans,
                    batch.len(),
                ),
                ..self
            },
            Err(_) => self,
        }
    }

    /// What exporting metrics returns.
    pub open spec fn metric_result(self, batch: Seq<MetricModel>) -> Result<(), ExportError> {
        if self.shutdown {
            Err(ExportError::Shutdown)
        } else if has_room(self.capacity_per_signal, self.metrics.len(), batch.len()) {
            Ok(())
        } else {
            Err(ExportError::BufferFull)
        }
    }

    /// The sink after exporting metrics.
    pub open spec fn with_metrics(self, batch: Seq<MetricModel>) -> SinkModel {
        match self.metric_result(batch) {
            Ok(()) => SinkModel { metrics: self.metrics + batch, ..self },
            Err(ExportError::BufferFull) => SinkModel {
                dropped_metrics: saturated_sum(self.dropped_metrics, batch.len()),
                counters_saturated: self.counters_saturated || overflows(
                    self.dropped_metrics,
                    batch.len(),
                ),
                ..self
            },
            Err(_) => self,
        }
    }

    /// The sink with its buffers emptied and counted as flushed.
    pub open spec fn drained(self) -> SinkModel {
        SinkModel {
            spans: Seq::empty(),
            metrics: Seq::empty(),
            flushed_spans: saturated_sum(self.flushed_spans, self.spans.len()),
            flushed_metrics: saturated_sum(self.flushed_metrics, self.metrics.len()),
            counters_saturated: self.counters_saturated || overflows(
                self.flushed_spans,
                self.spans.len(),
            ) || overflows(self.flushed_metrics, self.metrics.len()),
            ..self
        }
    }

    /// What flushing returns.
    pub open spec fn flush_result(self) -> Result<(), ExportError> {
        if self.shutdown {
            Err(ExportError::Shutdown)
        } else {
            Ok(())
        }
    }

    /// The sink after flushing.
    pub open spec fn after_flush(self) -> SinkModel {
        if self.shutdown {
            self
        } else {
            self.drained()
        }
    }

    /// The sink after shutting down.
    pub open spec fn after_shutdown(self) -> SinkModel {
        if self.shutdown {
            self
        } else {
            SinkModel { shutdown: true, ..self.drained() }
        }
    }
}

impl View for MemExportState {
    type V = SinkModel;

    open spec fn view(&self) -> SinkModel {
        SinkModel {
            capacity_per_signal: self.capacity_per_signal,
            spans: export::span_models(self.spans@),
            metrics: export::metric_models(self.metrics@),
            flushed_spans: self.flushed_spans,
            flushed_metrics: self.flushed_metrics,
            dropped_spans: self.dropped_spans,
            dropped_metrics: self.dropped_metrics,
            counters_saturated: self.counters_saturated,
            shutdown: self.shutdown,
        }
    }
}

impl View for InMemoryExporter {
    type V = SinkModel;

    closed spec fn view(&self) -> SinkModel {
        self.inner@
    }
}

/// Adds to a count, holding it at `usize::MAX`, and tells whether it had to be
/// held there.
pub fn add_count(current: usize, amount: usize) -> (r: (usize, bool))
    ensures
        r.0 == saturated_sum(current, amount as nat),
        r.1 == overflows(current, amount as nat),
{
    match current.checked_add(amount) {
        Some(value) => (value, false),
        None => (usize::MAX, true),
    }
}

/// Empties both buffers and counts what they held as flushed.
pub fn flush_state(state: &mut MemExportState)
    ensures
        final(state)@ == old(state)@.drained(),
{
    let (flushed_spans, spans_saturated) = add_count(state.flushed_spans, state.spans.len());
    let (flushed_metrics, metrics_saturated) = add_count(
        state.flushed_metrics,
        state.metrics.len(),
    );
    state.flushed_spans = flushed_spans;
    state.flushed_metrics = flushed_metrics;
    state.counters_saturated = state.counters_saturated || spans_saturated || metrics_saturated;
    state.spans.clear();
    state.metrics.clear();
    assert(state@ =~= old(state)@.drained());
}

/// Appends copies of spans.
fn extend_spans(buffer: &mut Vec<SpanEvent>, spans: &[SpanEvent])
    ensures
        export::span_models(final(buffer)@) == export::span_models(old(buffer)@)
            + export::span_models(spans@),
{
    let ghost before = export::span_models(buffer@);
    let ghost batch = export::span_models(spans@);
    let mut i: usize = 0;
    assert(batch.take(0) =~= Seq::empty());
    assert(before + batch.take(0) =~= before);
    while i < spans.len()
        invariant
            i <= spans@.len(),
            batch == export::span_models(spans@),
            export::span_models(buffer@) == before + batch.take(i as int),
        decreases spans@.len() - i,
    {
        let ghost held = buffer@;
        let copy = spans[i].clone();
        buffer.push(copy);
        assert(export::span_models(held.push(copy)) =~= export::span_models(held).push(copy@));
        assert(before + batch.take(i + 1) =~= (before + batch.take(i as int)).push(
            batch[i as int],
        ));
        i += 1;
    }
    assert(batch.take(i as int) =~= batch);
}

/// Appends copies of metrics.
fn extend_metrics(buffer: &mut Vec<MetricEvent>, metrics: &[MetricEvent])
    ensures
        export::metric_models(final(buffer)@) == export::metric_models(old(buffer)@)
            + export::metric_models(metrics@),
{
    let ghost before = export::metric_models(buffer@);
    let ghost batch = export::metric_models(metrics@);
    let mut i: usize = 0;
    assert(batch.take(0) =~= Seq::empty());
    assert(before + batch.take(0) =~= before);
    while i < metrics.len()
        invariant
            i <= metrics@.len(),
            batch == export::metric_models(metrics@),
            export::metric_models(buffer@) == before + batch.take(i as int),
        decreases metrics@.len() - i,
    {
        let ghost held = buffer@;
        let copy = metrics[i].clone();
        buffer.push(copy);
        assert(export::metric_models(held.push(copy)) =~= export::metric_models(held).push(copy@));
        assert(before + batch.take(i + 1) =~= (before + batch.take(i as int)).push(
            batch[i as int],
        ));
        i += 1;
    }
    assert(batch.take(i as int) =~= batch);
}

impl Default for InMemoryExporter {
    /// A sink of [`DEFAULT_BUFFER_CAPACITY`].
    fn default() -> (r: Self)
        ensures
            r@ == SinkModel::new(DEFAULT_BUFFER_CAPACITY),
            r@.well_formed(),
    {
        InMemoryExporter::with_capacity(DEFAULT_BUFFER_CAPACITY)
    }
}

impl InMemoryExporter {
    /// A sink with [`DEFAULT_BUFFER_CAPACITY`] slots for each kind of signal.
    #[must_use]
    pub fn new() -> (r: Self)
        ensures
            r@ == SinkModel::new(DEFAULT_BUFFER_CAPACITY),
            r@.well_formed(),
    {
        InMemoryExporter::default()
    }

    /// A sink with the given number of slots for each kind of signal; with `0`
    /// it refuses every batch that is not empty.
    #[must_use]
    pub fn with_capacity(capacity_per_signal: usize) -> (r: Self)
        ensures
            r@ == SinkModel::new(capacity_per_signal),
            r@.well_formed(),
    {
        let r = InMemoryExporter {
            inner: MemExportState {
                capacity_per_signal,
                spans: Vec::new(),
                metrics: Vec::new(),
                flushed_spans: 0,
                flushed_metrics: 0,
                dropped_spans: 0,
                dropped_metrics: 0,
                counters_saturated: false,
                shutdown: false,
            },
        };
        assert(r@ =~= SinkModel::new(capacity_per_signal));
        r
    }

    /// The state behind the sink.
    pub fn state(&mut self) -> (r: &mut MemExportState)
        ensures
            r@ == old(self)@,
            final(self)@ == final(r)@,
    {
        &mut self.inner
    }

    /// All counts at once.
    #[must_use]
    pub fn stats(&self) -> (r: InMemoryExporterStats)
        ensures
            r.capacity_per_signal == self@.capacity_per_signal,
            r.buffered_spans == self@.spans.len(),
            r.buffered_metrics == self@.metrics.len(),
            r.flushed_spans == self@.flushed_spans,
            r.flushed_metrics == self@.flushed_metrics,
            r.dropped_spans == self@.dropped_spans,
            r.dropped_metrics == self@.dropped_metrics,
            r.counters_saturated == self@.counters_saturated,
            r.is_shutdown == self@.shutdown,
    {
        let state = &self.inner;
        InMemoryExporterStats {
            capacity_per_signal: state.capacity_per_signal,
            buffered_spans: state.spans.len(),
            buffered_metrics: state.metrics.len(),
            flushed_spans: state.flushed_spans,
            flushed_metrics: state.flushed_metrics,
            dropped_spans: state.dropped_spans,
            dropped_metrics: state.dropped_metrics,
            counters_saturated: state.counters_saturated,
            is_shutdown: state.shutdown,
        }
    }

    /// A copy of the buffered spans.
    #[must_use]
    pub fn buffered_spans(&self) -> (r: Vec<SpanEvent>)
        ensures
            export::span_models(r@) == self@.spans,
    {
        let mut out: Vec<SpanEvent> = Vec::new();
        extend_spans(&mut out, self.inner.spans.as_slice());
        assert(export::span_models(out@) =~= self@.spans);
        out
    }

    /// A copy of the buffered metrics.
    #[must_use]
    pub fn buffered_metrics(&self) -> (r: Vec<MetricEvent>)
        ensures
            export::metric_models(r@) == self@.metrics,
    {
        let mut out: Vec<MetricEvent> = Vec::new();
        extend_metrics(&mut out, self.inner.metrics.as_slice());
        assert(export::metric_models(out@) =~= self@.metrics);
        out
    }

    /// How many spans were flushed.
    #[must_use]
    pub fn flushed_span_count(&self) -> (r: usize)
        ensures
            r == self@.flushed_spans,
    {
        self.inner.flushed_spans
    }

    /// How many metrics were flushed.
    #[must_use]
    pub fn flushed_metric_count(&self) -> (r: usize)
        ensures
            r == self@.flushed_metrics,
    {
        self.inner.flushed_metrics
    }

    /// How many spans were dropped, in whole batches, for want of room.
    #[must_use]
    pub fn dropped_span_count(&self) -> (r: usize)
        ensures
            r == self@.dropped_spans,
    {
        self.inner.dropped_spans
    }

    /// How many metrics were dropped, in whole batches, for want of room.
    #[must_use]
    pub fn dropped_metric_count(&self) -> (r: usize)
        ensures
            r == self@.dropped_metrics,
    {
        self.inner.dropped_metrics
    }

    /// Whether the sink is shut down.
    #[must_use]
    pub fn is_shutdown(&self) -> (r: bool)
        ensures
            r == self@.shutdown,
    {
        self.inner.shutdown
    }
}

impl TelemetryExporter for InMemoryExporter {
    open spec fn spans_exported(
        &self,
        spans: Seq<SpanModel>,
        post: &Self,
        result: Result<(), ExportError>,
    ) -> bool {
        result == self@.span_result(spans) && post@ == self@.with_spans(spans)
    }

    open spec fn metrics_exported(
        &self,
        metrics: Seq<MetricModel>,
        post: &Self,
        result: Result<(), ExportError>,
    ) -> bool {
        result == self@.metric_result(metrics) && post@ == self@.with_metrics(metrics)
    }

    open spec fn flushed(&self, post: &Self, result: Result<(), ExportError>) -> bool {
        result == self@.flush_result() && post@ == self@.after_flush()
    }

    open spec fn shut_down(&self, post: &Self, result: Result<(), ExportError>) -> bool {
        result == Ok::<(), ExportError>(()) && post@ == self@.after_shutdown()
    }

    fn export_spans(&mut self, spans: &[SpanEvent]) -> (result: Result<(), ExportError>) {
        let ghost before = self@;
        let ghost batch = export::span_models(spans@);
        if self.inner.shutdown {
            return Err(ExportError::Shutdown);
        }
        let room: usize = self.inner.capacity_per_signal.saturating_sub(self.inner.spans.len());
        if spans.len() > room {
            let (dropped, saturated) = add_count(self.inner.dropped_spans, spans.len());
            self.inner.dropped_spans = dropped;
            self.inner.counters_saturated = self.inner.counters_saturated || saturated;
            assert(self@ =~= before.with_spans(batch));
            return Err(ExportError::BufferFull);
        }
        extend_spans(&mut self.inner.spans, spans);
        assert(self@ =~= before.with_spans(batch));
        Ok(())
    }

    fn export_metrics(&mut self, metrics: &[MetricEvent]) -> (result: Result<(), ExportError>) {
        let ghost before = self@;
        let ghost batch = export::metric_models(metrics@);
        if self.inner.shutdown {
            return Err(ExportError::Shutdown);
        }
        let room: usize = self.inner.capacity_per_signal.saturating_sub(self.inner.metrics.len());
        if metrics.len() > room {
            let (dropped, saturated) = add_count(self.inner.dropped_metrics, metrics.len());
            self.inner.dropped_metrics = dropped;
            self.inner.counters_saturated = self.inner.counters_saturated || saturated;
            assert(self@ =~= before.with_metrics(batch));
            return Err(ExportError::BufferFull);
        }
        extend_metrics(&mut self.inner.metrics, metrics);
        assert(self@ =~= before.with_metrics(batch));
        Ok(())
    }

    fn flush(&mut self) -> (result: Result<(), ExportError>) {
        if self.inner.shutdown {
            return Err(ExportError::Shutdown);
        }
        flush_state(&mut self.inner);
        Ok(())
    }

    fn shutdown(&mut self) -> (result: Result<(), ExportError>) {
        if self.inner.shutdown {
            return Ok(());
        }
        flush_state(&mut self.inner);
        self.inner.shutdown = true;
        Ok(())
    }
}

impl GuardedExporter for InMemoryExporter {
    open spec fn spans_called(
        &self,
        spans: Seq<SpanModel>,
        post: &Self,
        outcome: CallOutcome,
    ) -> bool {
        outcome matches CallOutcome::Returned(result) && self.spans_exported(spans, post, result)
    }

    open spec fn metrics_called(
        &self,
        metrics: Seq<MetricModel>,
        post: &Self,
        outcome: CallOutcome,
    ) -> bool {
        outcome matches CallOutcome::Returned(result) && self.metrics_exported(
            metrics,
            post,
            result,
        )
    }

    open spec fn flush_called(&self, post: &Self, outcome: CallOutcome) -> bool {
        outcome matches CallOutcome::Returned(result) && self.flushed(post, result)
    }

    open spec fn shutdown_called(&self, post: &Self, outcome: CallOutcome) -> bool {
        outcome matches CallOutcome::Returned(result) && self.shut_down(post, result)
    }

    fn call_export_spans(&mut self, spans: &[SpanEvent]) -> (outcome: CallOutcome) {
        CallOutcome::Returned(self.export_spans(spans))
    }

    fn call_export_metrics(&mut self, metrics: &[MetricEvent]) -> (outcome: CallOutcome) {
        CallOutcome::Returned(self.export_metrics(metrics))
    }

    fn call_flush(&mut self) -> (outcome: CallOutcome) {
        CallOutcome::Returned(self.flush())
    }

    fn call_shutdown(&mut self) -> (outcome: CallOutcome) {
        CallOutcome::Returned(self.shutdown())
    }
}

/// A new sink is open and empty, has the given capacity, and all its counts are
/// zero.
pub proof fn law_new_sink(capacity: usize)
    ensures
        SinkModel::new(capacity).capacity_per_signal == capacity,
        SinkModel::new(capacity).spans.len() == 0,
        SinkModel::new(capacity).metrics.len() == 0,
        SinkModel::new(capacity).flushed_spans == 0,
        SinkModel::new(capacity).flushed_metrics == 0,
        SinkModel::new(capacity).dropped_spans == 0,
        SinkModel::new(capacity).dropped_metrics == 0,
        !SinkModel::new(capacity).counters_saturated,
        !SinkModel::new(capacity).shutdown,
{
}

/// What the state of a sink says is what is in its fields.
pub proof fn law_state_fields(state: MemExportState)
    ensures
        state@.capacity_per_signal == state.capacity_per_signal,
        state@.spans.len() == state.spans@.len(),
        forall|i: int| 0 <= i < state.spans@.len() ==> #[trigger] state@.spans[i] == state.spans@[i]@,
        state@.metrics.len() == state.metrics@.len(),
        forall|i: int|
            0 <= i < state.metrics@.len() ==> #[trigger] state@.metrics[i] == state.metrics@[i]@,
        state@.flushed_spans == state.flushed_spans,
        state@.flushed_metrics == state.flushed_metrics,
        state@.dropped_spans == state.dropped_spans,
        state@.dropped_metrics == state.dropped_metrics,
        state@.counters_saturated == state.counters_saturated,
        state@.shutdown == state.shutdown,
{
}

/// A count goes up by the amount, or, where it cannot hold the sum, to its
/// maximum.
pub proof fn law_counts_stop_at_the_maximum(count: usize, amount: nat)
    ensures
        overflows(count, amount) <==> count + amount > usize::MAX,
        count + amount <= usize::MAX ==> saturated_sum(count, amount) == count + amount,
        count + amount > usize::MAX ==> saturated_sum(count, amount) == usize::MAX,
{
}

/// Exporting spans to an open sink succeeds exactly where the batch is empty or
/// fits, with what is buffered, into the capacity, whatever the sizes; then the
/// batch stands behind what is buffered. Otherwise the buffer stays as it was
/// and the whole batch is added to the dropped count, up to the maximum. A sink
/// that is shut down answers so and stays as it is. Nothing else changes.
pub proof fn law_exporting_spans(
    pre: &InMemoryExporter,
    batch: Seq<SpanModel>,
    post: &InMemoryExporter,
    result: Result<(), ExportError>,
)
    requires
        pre.spans_exported(batch, post, result),
    ensures
        result is Ok <==> !pre@.shutdown && (batch.len() == 0 || pre@.spans.len() + batch.len()
            <= pre@.capacity_per_signal),
        pre@.shutdown ==> result == Err::<(), ExportError>(ExportError::Shutdown),
        !pre@.shutdown && result is Err ==> result == Err::<(), ExportError>(
            ExportError::BufferFull,
        ),
        result is Ok ==> post@.spans == pre@.spans + batch,
        result is Err ==> post@.spans == pre@.spans,
        result is Ok || pre@.shutdown ==> post@.dropped_spans == pre@.dropped_spans
            && post@.counters_saturated == pre@.counters_saturated,
        result is Err && !pre@.shutdown ==> {
            &&& pre@.dropped_spans + batch.len() <= usize::MAX ==> post@.dropped_spans
                == pre@.dropped_spans + batch.len() && post@.counters_saturated
                == pre@.counters_saturated
            &&& pre@.dropped_spans + batch.len() > usize::MAX ==> post@.dropped_spans == usize::MAX
                && post@.counters_saturated
        },
        post@.capacity_per_signal == pre@.capacity_per_signal,
        post@.metrics == pre@.metrics,
        post@.dropped_metrics == pre@.dropped_metrics,
        post@.flushed_spans == pre@.flushed_spans,
        post@.flushed_metrics == pre@.flushed_metrics,
        post@.shutdown == pre@.shutdown,
{
}

/// Exporting metrics to an open sink succeeds exactly where the batch is empty or
/// fits, with what is buffered, into the capacity, whatever the sizes; then the
/// batch stands behind what is buffered. Otherwise the buffer stays as it was
/// and the whole batch is added to the dropped count, up to the maximum. A sink
/// that is shut down answers so and stays as it is. Nothing else changes.
pub proof fn law_exporting_metrics(
    pre: &InMemoryExporter,
    batch: Seq<MetricModel>,
    post: &InMemoryExporter,
    result: Result<(), ExportError>,
)
    requires
        pre.metrics_exported(batch, post, result),
    ensures
        result is Ok <==> !pre@.shutdown && (batch.len() == 0 || pre@.metrics.len() + batch.len()
            <= pre@.capacity_per_signal),
        pre@.shutdown ==> result == Err::<(), ExportError>(ExportError::Shutdown),
        !pre@.shutdown && result is Err ==> result == Err::<(), ExportError>(
            ExportError::BufferFull,
        ),
        result is Ok ==> post@.metrics == pre@.metrics + batch,
        result is Err ==> post@.metrics == pre@.metrics,
        result is Ok || pre@.shutdown ==> post@.dropped_metrics == pre@.dropped_metrics
            && post@.counters_saturated == pre@.counters_saturated,
        result is Err && !pre@.shutdown ==> {
            &&& pre@.dropped_metrics + batch.len() <= usize::MAX ==> post@.dropped_metrics
                == pre@.dropped_metrics + batch.len() && post@.counters_saturated
                == pre@.counters_saturated
            &&& pre@.dropped_metrics + batch.len() > usize::MAX ==> post@.dropped_metrics == usize::MAX
                && post@.counters_saturated
        },
        post@.capacity_per_signal == pre@.capacity_per_signal,
        post@.spans == pre@.spans,
        post@.dropped_spans == pre@.dropped_spans,
        post@.flushed_spans == pre@.flushed_spans,
        post@.flushed_metrics == pre@.flushed_metrics,
        post@.shutdown == pre@.shutdown,
{
}

/// Flushing an open sink empties both buffers and adds what they held to the
/// flushed counts, each up to its maximum, and changes nothing else. A sink that
/// is shut down answers so and stays as it is.
pub proof fn law_flushing(
    pre: &InMemoryExporter,
    post: &InMemoryExporter,
    result: Result<(), ExportError>,
)
    requires
        pre.flushed(post, result),
    ensures
        !pre@.shutdown ==> {
            &&& result == Ok::<(), ExportError>(())
            &&& post@.spans.len() == 0
            &&& post@.metrics.len() == 0
            &&& post@.flushed_spans == if pre@.flushed_spans + pre@.spans.len() <= usize::MAX {
                pre@.flushed_spans + pre@.spans.len()
            } else {
                usize::MAX as int
            }
            &&& post@.flushed_metrics == if pre@.flushed_metrics + pre@.metrics.len()
                <= usize::MAX {
                pre@.flushed_metrics + pre@.metrics.len()
            } else {
                usize::MAX as int
            }
            &&& post@.counters_saturated <==> pre@.counters_saturated || pre@.flushed_spans
                + pre@.spans.len() > usize::MAX || pre@.flushed_metrics + pre@.metrics.len()
                > usize::MAX
            &&& post@.dropped_spans == pre@.dropped_spans
            &&& post@.dropped_metrics == pre@.dropped_metrics
            &&& post@.capacity_per_signal == pre@.capacity_per_signal
            &&& !post@.shutdown
        },
        pre@.shutdown ==> result == Err::<(), ExportError>(ExportError::Shutdown) && post@ == pre@,
{
}

/// Shutting down an open sink empties both buffers, adds what they held to the
/// flushed counts, each up to its maximum, closes the sink, and changes nothing
/// else. It always succeeds; a sink that is shut down stays as it is.
pub proof fn law_shutting_down(
    pre: &InMemoryExporter,
    post: &InMemoryExporter,
    result: Result<(), ExportError>,
)
    requires
        pre.shut_down(post, result),
    ensures
        !pre@.shutdown ==> {
            &&& result == Ok::<(), ExportError>(())
            &&& post@.spans.len() == 0
            &&& post@.metrics.len() == 0
            &&& post@.flushed_spans == if pre@.flushed_spans + pre@.spans.len() <= usize::MAX {
                pre@.flushed_spans + pre@.spans.len()
            } else {
                usize::MAX as int
            }
            &&& post@.flushed_metrics == if pre@.flushed_metrics + pre@.metrics.len()
                <= usize::MAX {
                pre@.flushed_metrics + pre@.metrics.len()
            } else {
                usize::MAX as int
            }
            &&& post@.counters_saturated <==> pre@.counters_saturated || pre@.flushed_spans
                + pre@.spans.len() > usize::MAX || pre@.flushed_metrics + pre@.metrics.len()
                > usize::MAX
            &&& post@.dropped_spans == pre@.dropped_spans
            &&& post@.dropped_metrics == pre@.dropped_metrics
            &&& post@.capacity_per_signal == pre@.capacity_per_signal
            &&& post@.shutdown
        },
        pre@.shutdown ==> result == Ok::<(), ExportError>(()) && post@ == pre@,
{
}

/// Emptying the buffers adds what they held to the flushed counts, each up to
/// its maximum, and changes nothing else.
pub proof fn law_draining(sink: SinkModel)
    ensures
        sink.drained().spans.len() == 0,
        sink.drained().metrics.len() == 0,
        sink.flushed_spans + sink.spans.len() <= usize::MAX ==> sink.drained().flushed_spans
            == sink.flushed_spans + sink.spans.len(),
        sink.flushed_spans + sink.spans.len() > usize::MAX ==> sink.drained().flushed_spans
            == usize::MAX,
        sink.flushed_metrics + sink.metrics.len() <= usize::MAX ==> sink.drained().flushed_metrics
            == sink.flushed_metrics + sink.metrics.len(),
        sink.flushed_metrics + sink.metrics.len() > usize::MAX ==> sink.drained().flushed_metrics
            == usize::MAX,
        sink.drained().counters_saturated <==> sink.counters_saturated || sink.flushed_spans
            + sink.spans.len() > usize::MAX || sink.flushed_metrics + sink.metrics.len()
            > usize::MAX,
        sink.drained().dropped_spans == sink.dropped_spans,
        sink.drained().dropped_metrics == sink.dropped_metrics,
        sink.drained().capacity_per_signal == sink.capacity_per_signal,
        sink.drained().shutdown == sink.shutdown,
{
}

/// Behind the boundary, the sink does what it does when called directly, and no
/// call of it unwinds.
pub proof fn law_sink_does_not_unwind(
    pre: &InMemoryExporter,
    spans: Seq<SpanModel>,
    metrics: Seq<MetricModel>,
    post: &InMemoryExporter,
    outcome: CallOutcome,
)
    ensures
        pre.spans_called(spans, post, outcome) ==> outcome is Returned && pre.spans_exported(
            spans,
            post,
            outcome.result(),
        ),
        pre.metrics_called(metrics, post, outcome) ==> outcome is Returned && pre.metrics_exported(
            metrics,
            post,
            outcome.result(),
        ),
        pre.flush_called(post, outcome) ==> outcome is Returned && pre.flushed(
            post,
            outcome.result(),
        ),
        pre.shutdown_called(post, outcome) ==> outcome is Returned && pre.shut_down(
            post,
            outcome.result(),
        ),
{
}

} // verus!

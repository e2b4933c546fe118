//! The bounded in-process sink.

use observex::export::memory::{add_count, flush_state};
use observex::{
    CountingInstrumentation, ExportError, ExportingInstrumentation,
    ExportingInstrumentationStats, InMemoryExporter, Instrumentation, MetricEvent, SpanEvent,
    TelemetryExporter, DEFAULT_BUFFER_CAPACITY,
};

fn span(name: &str) -> SpanEvent {
    SpanEvent {
        name: name.to_string(),
        start_unix_ms: 0,
        attributes: Vec::new(),
    }
}

fn metric(name: &str) -> MetricEvent {
    MetricEvent {
        name: name.to_string(),
        value: 1,
        attributes: Vec::new(),
    }
}

#[test]
fn record_export_flush_shutdown() {
    let counting = CountingInstrumentation::new();
    let exporter = InMemoryExporter::new();
    let mut instr = ExportingInstrumentation::new(counting, exporter);
    let _ = instr.inner();
    let _ = instr.exporter();
    assert_eq!(
        instr.export_stats(),
        ExportingInstrumentationStats {
            failed_export_calls: 0,
            panicked_export_calls: 0,
            unconfirmed_spans: 0,
            unconfirmed_metrics: 0,
            counters_saturated: false,
        }
    );
    instr.record_retry("op", 1);
    instr.record_circuit_open("op");
    instr.record_circuit_close("op");
    assert_eq!(instr.inner().retry_count(), 1);
    assert!(!instr.exporter().buffered_spans().is_empty());
    assert!(!instr.exporter().buffered_metrics().is_empty());
    instr.flush().unwrap();
    assert!(instr.exporter().buffered_spans().is_empty());
    assert_eq!(instr.exporter().flushed_span_count(), 3);
    assert_eq!(instr.exporter().flushed_metric_count(), 1);
    instr.shutdown().unwrap();
    instr.shutdown().unwrap();
    let (_, mut exporter) = instr.into_parts();
    assert!(exporter.is_shutdown());
    assert_eq!(exporter.export_spans(&[]), Err(ExportError::Shutdown));
    assert_eq!(exporter.export_metrics(&[]), Err(ExportError::Shutdown));
    assert_eq!(exporter.flush(), Err(ExportError::Shutdown));
    assert_eq!(ExportError::Shutdown.to_string(), "遥测导出器已关闭");
    assert_eq!(ExportError::Unavailable.to_string(), "遥测导出器内部不可用");
    assert_eq!(ExportError::BufferFull.to_string(), "遥测导出器缓冲区已满");
    assert_eq!(
        ExportError::Panicked.to_string(),
        "遥测导出器发生可展开 panic"
    );
}

#[test]
fn capacity_is_per_signal_and_batches_are_all_or_nothing() {
    let mut exporter = InMemoryExporter::with_capacity(2);
    assert_eq!(exporter.stats().capacity_per_signal, 2);

    exporter.export_spans(&[span("kept")]).unwrap();
    assert_eq!(
        exporter.export_spans(&[span("rejected-1"), span("rejected-2")]),
        Err(ExportError::BufferFull)
    );
    assert_eq!(exporter.buffered_spans(), vec![span("kept")]);
    assert_eq!(exporter.dropped_span_count(), 2);

    exporter
        .export_metrics(&[metric("m1"), metric("m2")])
        .unwrap();
    assert_eq!(
        exporter.export_metrics(&[metric("m3")]),
        Err(ExportError::BufferFull)
    );
    assert_eq!(
        exporter.buffered_metrics(),
        vec![metric("m1"), metric("m2")]
    );
    assert_eq!(exporter.dropped_metric_count(), 1);

    exporter.flush().unwrap();
    exporter
        .export_spans(&[span("reused-1"), span("reused-2")])
        .unwrap();
    let stats = exporter.stats();
    assert_eq!(stats.buffered_spans, 2);
    assert_eq!(stats.flushed_spans, 1);
    assert_eq!(stats.flushed_metrics, 2);
    assert_eq!(stats.dropped_spans, 2);
    assert_eq!(stats.dropped_metrics, 1);
}

#[test]
fn zero_capacity_rejects_non_empty_batches_but_accepts_empty_batches() {
    let mut exporter = InMemoryExporter::with_capacity(0);
    exporter.export_spans(&[]).unwrap();
    exporter.export_metrics(&[]).unwrap();
    assert_eq!(
        exporter.export_spans(&[span("x")]),
        Err(ExportError::BufferFull)
    );
    assert_eq!(
        exporter.export_metrics(&[metric("x")]),
        Err(ExportError::BufferFull)
    );
    let stats = exporter.stats();
    assert_eq!(stats.buffered_spans, 0);
    assert_eq!(stats.buffered_metrics, 0);
    assert_eq!(stats.dropped_spans, 1);
    assert_eq!(stats.dropped_metrics, 1);
}

#[test]
fn shutdown_flushes_pending_data_and_is_idempotent() {
    let mut exporter = InMemoryExporter::with_capacity(4);
    exporter.export_spans(&[span("s1"), span("s2")]).unwrap();
    exporter.export_metrics(&[metric("m1")]).unwrap();

    exporter.shutdown().unwrap();
    let first = exporter.stats();
    assert_eq!(first.buffered_spans, 0);
    assert_eq!(first.buffered_metrics, 0);
    assert_eq!(first.flushed_spans, 2);
    assert_eq!(first.flushed_metrics, 1);
    assert!(first.is_shutdown);

    exporter.shutdown().unwrap();
    assert_eq!(exporter.stats(), first);
    assert_eq!(
        exporter.export_spans(&[span("late")]),
        Err(ExportError::Shutdown)
    );
    assert_eq!(
        exporter.export_metrics(&[metric("late")]),
        Err(ExportError::Shutdown)
    );
    assert_eq!(exporter.flush(), Err(ExportError::Shutdown));
    assert_eq!(exporter.stats(), first);
}

#[test]
fn counter_saturation_is_visible_in_stats() {
    let mut exporter = InMemoryExporter::with_capacity(0);
    exporter.state().dropped_spans = usize::MAX;
    assert_eq!(
        exporter.export_spans(&[span("overflow")]),
        Err(ExportError::BufferFull)
    );
    let stats = exporter.stats();
    assert_eq!(stats.dropped_spans, usize::MAX);
    assert!(stats.counters_saturated);
}

#[test]
fn zero_capacity_rejects_non_empty_batches() {
    let mut exporter = InMemoryExporter::with_capacity(0);
    assert_eq!(exporter.export_spans(&[]), Ok(()));
    assert_eq!(exporter.export_metrics(&[]), Ok(()));
    assert_eq!(
        exporter.export_spans(&[span("x")]),
        Err(ExportError::BufferFull)
    );
    assert_eq!(
        exporter.export_metrics(&[metric("x")]),
        Err(ExportError::BufferFull)
    );
    let stats = exporter.stats();
    assert_eq!(stats.buffered_spans, 0);
    assert_eq!(stats.buffered_metrics, 0);
    assert_eq!(stats.dropped_spans, 1);
    assert_eq!(stats.dropped_metrics, 1);
}

#[test]
fn assert_in_process_sink() {
    assert_eq!(DEFAULT_BUFFER_CAPACITY, 1_024);
    assert_eq!(
        InMemoryExporter::new().stats().capacity_per_signal,
        DEFAULT_BUFFER_CAPACITY
    );
    let mut exporter = InMemoryExporter::with_capacity(2);
    assert_eq!(exporter.stats().capacity_per_signal, 2);

    exporter.export_spans(&[span("s1")]).expect("span 1");
    exporter.export_metrics(&[metric("m1")]).expect("metric 1");

    assert_eq!(
        exporter.export_spans(&[span("s2"), span("s3")]),
        Err(ExportError::BufferFull)
    );
    assert_eq!(exporter.buffered_spans(), vec![span("s1")]);
    assert_eq!(exporter.stats().dropped_spans, 2);

    exporter.export_spans(&[span("s2")]).expect("just full");

    let stats = exporter.stats();
    assert_eq!(stats.buffered_spans, 2);
    assert_eq!(stats.buffered_metrics, 1);
    assert!(!stats.counters_saturated);
    assert!(!stats.is_shutdown);

    exporter.flush().expect("flush");
    let flushed = exporter.stats();
    assert_eq!(flushed.buffered_spans, 0);
    assert_eq!(flushed.flushed_spans, 2);
    assert_eq!(flushed.flushed_metrics, 1);

    exporter.export_spans(&[span("pending")]).expect("pending");
    exporter.shutdown().expect("shutdown");
    let closed = exporter.stats();
    assert_eq!(closed.flushed_spans, 3);
    assert_eq!(closed.buffered_spans, 0);
    assert!(closed.is_shutdown);
    exporter.shutdown().expect("shutdown again");
    assert_eq!(exporter.stats(), closed);
    assert_eq!(exporter.export_spans(&[]), Err(ExportError::Shutdown));
    assert_eq!(exporter.export_metrics(&[]), Err(ExportError::Shutdown));
    assert_eq!(exporter.flush(), Err(ExportError::Shutdown));
}

#[test]
fn memory_exporter_default_capacity() {
    assert_eq!(DEFAULT_BUFFER_CAPACITY, 1_024);
    let mut exporter = InMemoryExporter::new();
    assert_eq!(
        exporter.stats().capacity_per_signal,
        DEFAULT_BUFFER_CAPACITY
    );
    assert_eq!(
        InMemoryExporter::default().stats().capacity_per_signal,
        DEFAULT_BUFFER_CAPACITY
    );
    assert_eq!(
        InMemoryExporter::with_capacity(3)
            .stats()
            .capacity_per_signal,
        3
    );
    assert_eq!(exporter.export_spans(&[span("ok")]), Ok(()));
    assert_eq!(exporter.stats().buffered_spans, 1);
}

#[test]
fn stats_snapshot_is_consistent() {
    let mut exporter = InMemoryExporter::with_capacity(2);
    exporter.export_spans(&[span("s1")]).expect("first");
    assert_eq!(
        exporter.export_spans(&[span("s2"), span("s3")]),
        Err(ExportError::BufferFull),
        "refused as a whole"
    );
    exporter.export_metrics(&[metric("m1")]).expect("metric");

    let stats = exporter.stats();
    assert_eq!(stats.capacity_per_signal, 2);
    assert_eq!(stats.buffered_spans, 1, "nothing of the batch remains");
    assert_eq!(stats.buffered_metrics, 1);
    assert_eq!(stats.dropped_spans, 2, "the whole batch is dropped");
    assert_eq!(stats.dropped_metrics, 0);

    exporter.flush().expect("flush");
    let after = exporter.stats();
    assert_eq!(after.buffered_spans, 0);
    assert_eq!(after.flushed_spans, 1);
    assert_eq!(after.flushed_metrics, 1);
    assert_eq!(after.dropped_spans, 2, "a flush drops nothing");
}

#[test]
fn every_offered_event_is_accounted_for() {
    let capacity: usize = 64;
    let mut exporter = InMemoryExporter::with_capacity(capacity);
    let mut offered: usize = 0;
    for round in 0usize..40 {
        let batch: Vec<SpanEvent> = (0..round % 7).map(|_| span("s")).collect();
        offered += batch.len();
        let _ = exporter.export_spans(&batch);
        if round % 11 == 10 {
            exporter.flush().unwrap();
        }
        let stats = exporter.stats();
        assert!(stats.buffered_spans <= capacity);
        assert_eq!(
            stats.buffered_spans + stats.flushed_spans + stats.dropped_spans,
            offered
        );
    }
    exporter.shutdown().unwrap();
    let stats = exporter.stats();
    assert_eq!(stats.buffered_spans, 0);
    assert_eq!(stats.flushed_spans + stats.dropped_spans, offered);
}

#[test]
fn single_exports_fill_the_sink_and_then_drop() {
    let mut exporter = InMemoryExporter::with_capacity(64);
    for _ in 0usize..8 * 32 {
        let result = exporter.export_spans(&[span("event")]);
        assert!(matches!(result, Ok(()) | Err(ExportError::BufferFull)));
    }
    let stats = exporter.stats();
    assert_eq!(stats.buffered_spans, 64);
    assert_eq!(stats.dropped_spans, 8 * 32 - 64);
}

#[test]
fn the_kinds_of_signals_do_not_compete() {
    let mut one = InMemoryExporter::with_capacity(1);
    one.export_spans(&[span("s")]).unwrap();
    one.export_metrics(&[metric("m")]).unwrap();
    let mut other = InMemoryExporter::with_capacity(1);
    other.export_metrics(&[metric("m")]).unwrap();
    other.export_spans(&[span("s")]).unwrap();
    assert_eq!(one.stats(), other.stats());
    assert_eq!(one.buffered_spans(), other.buffered_spans());
    assert_eq!(one.buffered_metrics(), other.buffered_metrics());
}

#[test]
fn buffered_events_are_copies_of_the_exported_ones() {
    let mut exporter = InMemoryExporter::with_capacity(2);
    let event = SpanEvent {
        name: "n".to_string(),
        start_unix_ms: 5,
        attributes: vec![("k".to_string(), "v".to_string())],
    };
    let value = MetricEvent {
        name: "m".to_string(),
        value: -3,
        attributes: vec![("k".to_string(), "w".to_string())],
    };
    exporter.export_spans(&[event.clone()]).unwrap();
    exporter.export_metrics(&[value.clone()]).unwrap();
    assert_eq!(exporter.buffered_spans(), vec![event]);
    assert_eq!(exporter.buffered_metrics(), vec![value]);
}

#[test]
fn flushed_counts_saturate() {
    let mut exporter = InMemoryExporter::with_capacity(2);
    exporter.export_spans(&[span("a"), span("b")]).unwrap();
    exporter.state().flushed_spans = usize::MAX - 1;
    exporter.flush().unwrap();
    let stats = exporter.stats();
    assert_eq!(stats.flushed_spans, usize::MAX);
    assert!(stats.counters_saturated);
    assert_eq!(stats.flushed_metrics, 0);
}

#[test]
fn counts_are_added_up_to_the_maximum() {
    assert_eq!(add_count(2, 3), (5, false));
    assert_eq!(add_count(usize::MAX - 1, 1), (usize::MAX, false));
    assert_eq!(add_count(usize::MAX, 1), (usize::MAX, true));
    assert_eq!(add_count(usize::MAX, 0), (usize::MAX, false));
}

#[test]
fn flushing_the_state_empties_it() {
    let mut exporter = InMemoryExporter::with_capacity(2);
    exporter.export_metrics(&[metric("m")]).unwrap();
    flush_state(exporter.state());
    assert_eq!(exporter.flushed_metric_count(), 1);
    assert!(exporter.buffered_metrics().is_empty());
    assert!(!exporter.is_shutdown());
}

#[test]
fn a_sink_over_its_capacity_takes_only_empty_batches() {
    let mut exporter = InMemoryExporter::with_capacity(2);
    exporter.export_spans(&[span("a"), span("b")]).unwrap();
    exporter.state().capacity_per_signal = 1;
    assert_eq!(exporter.export_spans(&[]), Ok(()));
    assert_eq!(
        exporter.export_spans(&[span("c")]),
        Err(ExportError::BufferFull)
    );
}

#[test]
fn the_buffer_holds_what_was_taken_since_the_last_flush() {
    let mut sink = InMemoryExporter::with_capacity(3);
    sink.export_spans(&[span("a")]).unwrap();
    sink.flush().unwrap();
    sink.export_spans(&[span("b"), span("c")]).unwrap();
    assert_eq!(
        sink.export_spans(&[span("d"), span("e")]),
        Err(ExportError::BufferFull)
    );
    sink.export_spans(&[span("f")]).unwrap();
    assert_eq!(sink.buffered_spans(), vec![span("b"), span("c"), span("f")]);
    let stats = sink.stats();
    assert_eq!(stats.buffered_spans + stats.flushed_spans, 4);
    assert_eq!(stats.dropped_spans, 2);
}

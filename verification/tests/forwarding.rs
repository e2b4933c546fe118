//! Recording that is also exported, with exporters that work, fail or unwind.

use observex::export::clock::{now_unix_ms, unix_ms_of};
use observex::export::diagnostics::{is_sampled, FORWARD_FAILURE_MESSAGE};
use observex::export::forwarding::{
    circuit_close_span, circuit_open_span, retry_metric, retry_span,
};
use observex::export::schedule::{Action, Recording};
use observex::{
    sanitize_op, CallOutcome, CountingInstrumentation, ExportDiagnostics, ExportError,
    ExportingInstrumentation, ExportingInstrumentationStats, ForwardWarning, GuardedExporter,
    InMemoryExporter, Instrumentation, MetricEvent, Operation, Signal, SpanEvent,
    TelemetryExporter, MAX_OP_BYTES,
};

fn span(name: &str) -> SpanEvent {
    SpanEvent {
        name: name.to_string(),
        start_unix_ms: 0,
        attributes: Vec::new(),
    }
}

/// Takes everything, and then returns an error.
#[derive(Default)]
struct AcceptsThenErrors {
    calls: usize,
    accepted_spans: usize,
    accepted_metrics: usize,
}

impl TelemetryExporter for AcceptsThenErrors {
    fn export_spans(&mut self, spans: &[SpanEvent]) -> Result<(), ExportError> {
        self.calls += 1;
        self.accepted_spans += spans.len();
        Err(ExportError::Unavailable)
    }

    fn export_metrics(&mut self, metrics: &[MetricEvent]) -> Result<(), ExportError> {
        self.calls += 1;
        self.accepted_metrics += metrics.len();
        Err(ExportError::Unavailable)
    }

    fn flush(&mut self) -> Result<(), ExportError> {
        Err(ExportError::Unavailable)
    }

    fn shutdown(&mut self) -> Result<(), ExportError> {
        Err(ExportError::Unavailable)
    }
}

impl GuardedExporter for AcceptsThenErrors {
    fn call_export_spans(&mut self, spans: &[SpanEvent]) -> CallOutcome {
        CallOutcome::Returned(self.export_spans(spans))
    }

    fn call_export_metrics(&mut self, metrics: &[MetricEvent]) -> CallOutcome {
        CallOutcome::Returned(self.export_metrics(metrics))
    }

    fn call_flush(&mut self) -> CallOutcome {
        CallOutcome::Returned(self.flush())
    }

    fn call_shutdown(&mut self) -> CallOutcome {
        CallOutcome::Returned(self.shutdown())
    }
}

#[derive(Clone, Copy, PartialEq, Eq)]
enum PanicAt {
    Spans,
    Metrics,
    Flush,
    Shutdown,
}

/// Takes everything, and unwinds in one of its calls; the unwind is stopped at
/// the boundary.
struct Panics {
    at: PanicAt,
    accepted_spans: usize,
    accepted_metrics: usize,
}

impl Panics {
    fn new(at: PanicAt) -> Self {
        Self {
            at,
            accepted_spans: 0,
            accepted_metrics: 0,
        }
    }

    fn boundary(&self, boundary: PanicAt) -> CallOutcome {
        if self.at == boundary {
            CallOutcome::Unwound
        } else {
            CallOutcome::Returned(Ok(()))
        }
    }
}

impl GuardedExporter for Panics {
    fn call_export_spans(&mut self, spans: &[SpanEvent]) -> CallOutcome {
        self.accepted_spans += spans.len();
        self.boundary(PanicAt::Spans)
    }

    fn call_export_metrics(&mut self, metrics: &[MetricEvent]) -> CallOutcome {
        self.accepted_metrics += metrics.len();
        self.boundary(PanicAt::Metrics)
    }

    fn call_flush(&mut self) -> CallOutcome {
        self.boundary(PanicAt::Flush)
    }

    fn call_shutdown(&mut self) -> CallOutcome {
        self.boundary(PanicAt::Shutdown)
    }
}

/// A line as a log would show the warning.
fn warning_line(warning: &ForwardWarning) -> String {
    format!(
        "WARN {} error={} operation={:?} signal={:?} op={:?} forward_failures={}\n",
        FORWARD_FAILURE_MESSAGE,
        warning.error.to_string(),
        warning.operation.name(),
        warning.signal.name(),
        warning.op,
        warning.forward_failures
    )
}

#[test]
fn exporting_paths_use_only_sanitized_op() {
    let counting = CountingInstrumentation::new();
    let exporter = InMemoryExporter::with_capacity(8);
    let mut instr = ExportingInstrumentation::new(counting, exporter);
    let suffix = "must-not-reach-export";
    let malicious = format!("{}\n\r\t\0\u{7f}\u{85}{suffix}", "配".repeat(80));
    instr.record_retry(&malicious, 7);
    instr.record_circuit_open(&malicious);
    instr.record_circuit_close(&malicious);

    assert_eq!(instr.inner().retry_count(), 1);
    let spans = instr.exporter().buffered_spans();
    let metrics = instr.exporter().buffered_metrics();
    assert_eq!(spans.len(), 3);
    assert_eq!(metrics.len(), 1);
    for value in spans.iter().map(|event| event.name.as_str()).chain(
        metrics[0]
            .attributes
            .iter()
            .map(|(_, value)| value.as_str()),
    ) {
        assert!(!value.chars().any(char::is_control));
        assert!(!value.contains(suffix));
    }
    let op = &metrics[0].attributes[0].1;
    assert!(op.len() <= MAX_OP_BYTES);
    assert_eq!(op, &sanitize_op(&malicious));
}

#[test]
fn accepted_then_error_is_unconfirmed_without_changing_recording() {
    let counting = CountingInstrumentation::new();
    let mut instr = ExportingInstrumentation::new(counting, AcceptsThenErrors::default());
    instr.record_retry("op", 1);
    instr.record_circuit_open("op");
    instr.record_circuit_close("op");
    assert_eq!(instr.inner().retry_count(), 1);
    assert_eq!(instr.inner().open_count(), 1);
    assert_eq!(instr.inner().close_count(), 1);
    assert_eq!(instr.exporter().calls, 4);
    assert_eq!(instr.exporter().accepted_spans, 3);
    assert_eq!(instr.exporter().accepted_metrics, 1);
    assert_eq!(instr.flush(), Err(ExportError::Unavailable));
    assert_eq!(instr.shutdown(), Err(ExportError::Unavailable));
    assert_eq!(
        instr.export_stats(),
        ExportingInstrumentationStats {
            failed_export_calls: 6,
            panicked_export_calls: 0,
            unconfirmed_spans: 3,
            unconfirmed_metrics: 1,
            counters_saturated: false,
        }
    );
}

#[test]
fn exporter_diagnostic_saturation_is_visible() {
    let mut instr = ExportingInstrumentation::new(
        CountingInstrumentation::new(),
        AcceptsThenErrors::default(),
    );
    instr.diagnostics.failed_export_calls = u64::MAX;
    instr.record_circuit_open("op");
    let stats = instr.export_stats();
    assert_eq!(stats.failed_export_calls, u64::MAX);
    assert_eq!(stats.unconfirmed_spans, 1);
    assert!(stats.counters_saturated);
}

#[test]
fn forward_failure_logs_use_exponential_sampling() {
    let mut instr = ExportingInstrumentation::new(
        CountingInstrumentation::new(),
        AcceptsThenErrors::default(),
    );
    for _ in 0usize..5 {
        instr.record_circuit_open("sampling-op");
    }
    assert_eq!(instr.export_stats().failed_export_calls, 5);
    assert_eq!(instr.diagnostics.forward_failures, 5);
    assert_eq!(instr.diagnostics.logged_forward_failures, 3);
    let counts: Vec<u64> = instr
        .take_warnings()
        .iter()
        .map(|warning| warning.forward_failures)
        .collect();
    assert_eq!(counts, vec![1, 2, 4]);
}

#[test]
fn accepted_then_unwind_is_unconfirmed_and_isolated() {
    let mut spans =
        ExportingInstrumentation::new(CountingInstrumentation::new(), Panics::new(PanicAt::Spans));
    spans.record_retry("op", 1);
    assert_eq!(spans.inner().retry_count(), 1);
    assert_eq!(spans.exporter().accepted_spans, 1);
    assert_eq!(spans.exporter().accepted_metrics, 1);
    assert_eq!(spans.export_stats().panicked_export_calls, 1);
    assert_eq!(spans.export_stats().unconfirmed_spans, 1);

    let mut metrics = ExportingInstrumentation::new(
        CountingInstrumentation::new(),
        Panics::new(PanicAt::Metrics),
    );
    metrics.record_retry("op", 1);
    assert_eq!(metrics.inner().retry_count(), 1);
    assert_eq!(metrics.exporter().accepted_spans, 1);
    assert_eq!(metrics.exporter().accepted_metrics, 1);
    assert_eq!(metrics.export_stats().panicked_export_calls, 1);
    assert_eq!(metrics.export_stats().unconfirmed_metrics, 1);

    let mut flush =
        ExportingInstrumentation::new(CountingInstrumentation::new(), Panics::new(PanicAt::Flush));
    assert_eq!(flush.flush(), Err(ExportError::Panicked));
    assert_eq!(flush.export_stats().panicked_export_calls, 1);

    let mut shutdown = ExportingInstrumentation::new(
        CountingInstrumentation::new(),
        Panics::new(PanicAt::Shutdown),
    );
    assert_eq!(shutdown.shutdown(), Err(ExportError::Panicked));
    assert_eq!(shutdown.export_stats().panicked_export_calls, 1);
}

#[test]
fn exporting_instrumentation_flush_path() {
    let c = CountingInstrumentation::new();
    let exp = InMemoryExporter::new();
    let mut e = ExportingInstrumentation::new(c, exp);
    e.record_retry("x", 2);
    assert!(!e.exporter().buffered_spans().is_empty());
    e.flush().unwrap();
    assert!(e.exporter().buffered_spans().is_empty());
    e.shutdown().unwrap();
}

#[test]
fn exporter_error_does_not_change_recording() {
    let counting = CountingInstrumentation::new();
    let mut exporting = ExportingInstrumentation::new(counting, AcceptsThenErrors::default());

    exporting.record_retry("op", 1);
    exporting.record_circuit_open("op");
    exporting.record_circuit_close("op");

    assert_eq!(exporting.inner().retry_count(), 1);
    assert_eq!(exporting.inner().open_count(), 1);
    assert_eq!(exporting.inner().close_count(), 1);
    assert_eq!(exporting.exporter().calls, 4);
    let stats = exporting.export_stats();
    assert_eq!(stats.failed_export_calls, 4);
    assert_eq!(stats.panicked_export_calls, 0);
    assert_eq!(stats.unconfirmed_spans, 3);
    assert_eq!(stats.unconfirmed_metrics, 1);
}

#[test]
fn exporter_panic_is_isolated() {
    let counting = CountingInstrumentation::new();
    let mut exporting = ExportingInstrumentation::new(counting, Panics::new(PanicAt::Spans));
    exporting.record_circuit_open("op");
    exporting.record_circuit_close("op");
    assert_eq!(exporting.inner().open_count(), 1);
    assert_eq!(exporting.inner().close_count(), 1);
    let stats = exporting.export_stats();
    assert_eq!(stats.panicked_export_calls, 2);
    assert_eq!(stats.failed_export_calls, 2);
    assert_eq!(exporting.flush(), Ok(()));
}

#[test]
fn export_forward_failures_emit_structured_warn() {
    let mut text = String::new();

    let mut retrying = ExportingInstrumentation::new(
        CountingInstrumentation::new(),
        AcceptsThenErrors::default(),
    );
    retrying.record_retry("log-contract-retry", 3);
    assert_eq!(retrying.inner().retry_count(), 1);

    let mut opening = ExportingInstrumentation::new(
        CountingInstrumentation::new(),
        AcceptsThenErrors::default(),
    );
    opening.record_circuit_open("log-contract-open");
    let mut closing = ExportingInstrumentation::new(
        CountingInstrumentation::new(),
        AcceptsThenErrors::default(),
    );
    closing.record_circuit_close("log-contract-close");

    let mut panicking =
        ExportingInstrumentation::new(CountingInstrumentation::new(), Panics::new(PanicAt::Spans));
    panicking.record_circuit_open("log-contract-panic");
    assert_eq!(panicking.export_stats().panicked_export_calls, 1);

    for warning in retrying
        .take_warnings()
        .iter()
        .chain(opening.take_warnings().iter())
        .chain(closing.take_warnings().iter())
        .chain(panicking.take_warnings().iter())
    {
        text.push_str(&warning_line(warning));
    }

    assert!(text.contains("WARN"), "{text}");
    assert!(text.contains("内部遥测导出失败"), "{text}");
    assert!(text.contains("operation=\"record_retry\""), "{text}");
    assert!(
        text.contains("signal=\"spans\"") && text.contains("signal=\"metrics\""),
        "{text}"
    );
    assert!(text.contains("operation=\"record_circuit_open\""), "{text}");
    assert!(text.contains("operation=\"record_circuit_close\""), "{text}");
    assert!(
        text.contains("op=\"log-contract-retry\"")
            && text.contains("op=\"log-contract-open\"")
            && text.contains("op=\"log-contract-close\""),
        "{text}"
    );
    assert!(text.contains("error=遥测导出器内部不可用"), "{text}");
    assert!(
        text.contains("error=遥测导出器发生可展开 panic")
            && text.contains("op=\"log-contract-panic\""),
        "{text}"
    );
    assert!(text.contains("forward_failures=1"), "{text}");
}

#[test]
fn exporting_new_wires_inner_and_exporter() {
    let counting = CountingInstrumentation::new();
    let exporter = InMemoryExporter::with_capacity(8);
    let mut instrumentation = ExportingInstrumentation::new(counting, exporter);
    assert_eq!(instrumentation.inner().retry_count(), 0);
    assert!(instrumentation.exporter().buffered_spans().is_empty());

    instrumentation.record_retry("api.op", 4);
    assert_eq!(instrumentation.inner().retry_count(), 1);
    let spans = instrumentation.exporter().buffered_spans();
    assert_eq!(spans.len(), 1);
    assert_eq!(spans[0].name, "retry:api.op");
    assert_eq!(instrumentation.exporter().buffered_metrics().len(), 1);
    assert_eq!(instrumentation.export_stats().failed_export_calls, 0);
}

#[test]
fn flush_drains_buffer() {
    let counting = CountingInstrumentation::new();
    let exporter = InMemoryExporter::with_capacity(8);
    let mut instrumentation = ExportingInstrumentation::new(counting, exporter);
    instrumentation.record_retry("api.op", 1);
    instrumentation.record_circuit_open("api.op");
    instrumentation.record_circuit_close("api.op");
    assert_eq!(instrumentation.exporter().buffered_spans().len(), 3);

    instrumentation.flush().expect("flush");
    let exporter = instrumentation.exporter();
    assert!(exporter.buffered_spans().is_empty());
    assert!(exporter.buffered_metrics().is_empty());
    let stats = exporter.stats();
    assert_eq!(stats.flushed_spans, 3);
    assert_eq!(stats.flushed_metrics, 1);
    assert!(!stats.is_shutdown);
}

#[test]
fn shutdown_flushes_and_is_idempotent() {
    let counting = CountingInstrumentation::new();
    let exporter = InMemoryExporter::with_capacity(8);
    let mut instrumentation = ExportingInstrumentation::new(counting, exporter);
    instrumentation.record_retry("api.op", 1);
    instrumentation.record_circuit_open("api.op");

    instrumentation.shutdown().expect("first shutdown");
    let first = instrumentation.exporter().stats();
    assert_eq!(first.flushed_spans, 2);
    assert_eq!(first.buffered_spans, 0);
    assert!(first.is_shutdown);

    instrumentation.shutdown().expect("second shutdown");
    assert_eq!(instrumentation.exporter().stats(), first);
    let (_, mut exporter) = instrumentation.into_parts();
    assert_eq!(
        exporter.export_spans(&[span("late")]),
        Err(ExportError::Shutdown)
    );
}

#[test]
fn recorded_events_have_exact_contents() {
    let mut instr = ExportingInstrumentation::new(
        CountingInstrumentation::new(),
        InMemoryExporter::with_capacity(8),
    );
    instr.record_retry_at(" db.query\n", 12, 5);
    instr.record_circuit_open_at("db.query", 6);
    instr.record_circuit_close_at("db.query", 7);
    assert_eq!(
        instr.exporter().buffered_spans(),
        vec![
            SpanEvent {
                name: "retry:db.query".to_string(),
                start_unix_ms: 5,
                attributes: vec![("attempt".to_string(), "12".to_string())],
            },
            SpanEvent {
                name: "circuit_open:db.query".to_string(),
                start_unix_ms: 6,
                attributes: Vec::new(),
            },
            SpanEvent {
                name: "circuit_close:db.query".to_string(),
                start_unix_ms: 7,
                attributes: Vec::new(),
            },
        ]
    );
    assert_eq!(
        instr.exporter().buffered_metrics(),
        vec![MetricEvent {
            name: "retry".to_string(),
            value: 12,
            attributes: vec![("op".to_string(), "db.query".to_string())],
        }]
    );
}

type Log = std::rc::Rc<std::cell::RefCell<Vec<String>>>;

/// Notes every call in a log, and ends every export as it is told.
struct Noting {
    log: Log,
    outcome: CallOutcome,
}

impl Instrumentation for Noting {
    fn record_retry(&mut self, op: &str, attempt: u32) {
        self.log.borrow_mut().push(format!("inner retry {op} {attempt}"));
    }
    fn record_circuit_open(&mut self, op: &str) {
        self.log.borrow_mut().push(format!("inner open {op}"));
    }
    fn record_circuit_close(&mut self, op: &str) {
        self.log.borrow_mut().push(format!("inner close {op}"));
    }
}

impl GuardedExporter for Noting {
    fn call_export_spans(&mut self, spans: &[SpanEvent]) -> CallOutcome {
        self.log.borrow_mut().push(format!("span {}", spans[0].name));
        self.outcome
    }
    fn call_export_metrics(&mut self, metrics: &[MetricEvent]) -> CallOutcome {
        self.log.borrow_mut().push(format!("metric {}", metrics[0].name));
        self.outcome
    }
    fn call_flush(&mut self) -> CallOutcome {
        self.outcome
    }
    fn call_shutdown(&mut self) -> CallOutcome {
        self.outcome
    }
}

#[test]
fn the_inner_instrumentation_records_before_any_export() {
    for outcome in [
        CallOutcome::Returned(Ok(())),
        CallOutcome::Returned(Err(ExportError::Unavailable)),
        CallOutcome::Unwound,
    ] {
        let log: Log = Log::default();
        let mut instr = ExportingInstrumentation::new(
            Noting {
                log: log.clone(),
                outcome,
            },
            Noting {
                log: log.clone(),
                outcome,
            },
        );
        instr.record_retry(" a ", 2);
        instr.record_circuit_open_at("b", 1);
        instr.record_circuit_close("c");
        assert_eq!(
            *log.borrow(),
            vec![
                "inner retry a 2",
                "span retry:a",
                "metric retry",
                "inner open b",
                "span circuit_open:b",
                "inner close c",
                "span circuit_close:c",
            ]
        );
    }
}

#[test]
fn the_schedule_gives_the_actions_in_order() {
    let retry = Recording::retry(" a\n", 2);
    assert_eq!(retry.op(), "a");
    assert_eq!(retry.operation(), Operation::RecordRetry);
    assert_eq!(retry.next_action(0, 9), Some(Action::Record));
    assert_eq!(
        retry.next_action(1, 9),
        Some(Action::ExportSpan(retry_span("a", 2, 9)))
    );
    assert_eq!(
        retry.next_action(2, 9),
        Some(Action::ExportMetric(retry_metric("a", 2)))
    );
    assert_eq!(retry.next_action(3, 9), None);

    let open = Recording::circuit_open("");
    assert_eq!(open.operation(), Operation::RecordCircuitOpen);
    assert_eq!(open.next_action(0, 9), Some(Action::Record));
    assert_eq!(
        open.next_action(1, 9),
        Some(Action::ExportSpan(circuit_open_span("_", 9)))
    );
    assert_eq!(open.next_action(2, 9), None);

    let close = Recording::circuit_close("c");
    assert_eq!(close.operation(), Operation::RecordCircuitClose);
    assert_eq!(close.next_action(0, 9), Some(Action::Record));
    assert_eq!(
        close.next_action(1, 9),
        Some(Action::ExportSpan(circuit_close_span("c", 9)))
    );
    assert_eq!(close.next_action(usize::MAX, 9), None);
}

#[test]
fn failed_flushes_do_not_advance_the_sampling() {
    let mut instr = ExportingInstrumentation::new(
        CountingInstrumentation::new(),
        AcceptsThenErrors::default(),
    );
    let mut taken: Vec<u64> = Vec::new();
    for _ in 0usize..3 {
        instr.record_retry("op", 1);
        let _ = instr.flush();
        let _ = instr.shutdown();
        taken.extend(instr.take_warnings().iter().map(|w| w.forward_failures));
    }
    instr.record_circuit_open("op");
    instr.record_circuit_close("op");
    taken.extend(instr.take_warnings().iter().map(|w| w.forward_failures));
    assert_eq!(taken, vec![1, 2, 4, 8]);
    assert_eq!(instr.diagnostics.forward_failures, 8);
    assert_eq!(instr.export_stats().failed_export_calls, 14);
}

#[test]
fn events_are_made_from_the_given_name() {
    assert_eq!(retry_span("a", u32::MAX, 1).attributes[0].1, "4294967295");
    assert_eq!(retry_metric("a", u32::MAX).value, 4_294_967_295);
    assert_eq!(circuit_open_span("a", 2).name, "circuit_open:a");
    assert_eq!(circuit_close_span("a", 3).start_unix_ms, 3);
}

#[test]
fn a_full_sink_is_diagnosed_but_does_not_stop_recording() {
    let mut instr = ExportingInstrumentation::new(
        CountingInstrumentation::new(),
        InMemoryExporter::with_capacity(1),
    );
    instr.record_retry("a", 1);
    instr.record_retry("b", 2);
    assert_eq!(instr.inner().retry_count(), 2);
    assert_eq!(instr.exporter().buffered_spans().len(), 1);
    let stats = instr.export_stats();
    assert_eq!(stats.failed_export_calls, 2);
    assert_eq!(stats.unconfirmed_spans, 1);
    assert_eq!(stats.unconfirmed_metrics, 1);
    let warnings = instr.take_warnings();
    assert_eq!(
        warnings,
        vec![
            ForwardWarning {
                error: ExportError::BufferFull,
                operation: Operation::RecordRetry,
                signal: Signal::Spans,
                op: "b".to_string(),
                forward_failures: 1,
            },
            ForwardWarning {
                error: ExportError::BufferFull,
                operation: Operation::RecordRetry,
                signal: Signal::Metrics,
                op: "b".to_string(),
                forward_failures: 2,
            },
        ]
    );
    assert!(instr.take_warnings().is_empty());
}

#[test]
fn failing_flush_and_shutdown_do_not_warn() {
    let mut instr = ExportingInstrumentation::new(
        CountingInstrumentation::new(),
        AcceptsThenErrors::default(),
    );
    assert_eq!(instr.flush(), Err(ExportError::Unavailable));
    assert_eq!(instr.shutdown(), Err(ExportError::Unavailable));
    assert_eq!(instr.export_stats().failed_export_calls, 2);
    assert_eq!(instr.diagnostics.forward_failures, 0);
    assert!(instr.take_warnings().is_empty());
}

#[test]
fn warnings_grow_with_the_logarithm_of_the_failures() {
    let mut instr = ExportingInstrumentation::new(
        CountingInstrumentation::new(),
        AcceptsThenErrors::default(),
    );
    for _ in 0usize..1000 {
        instr.record_circuit_close("op");
    }
    assert_eq!(instr.diagnostics.forward_failures, 1000);
    assert_eq!(instr.diagnostics.logged_forward_failures, 10);
    let counts: Vec<u64> = instr
        .take_warnings()
        .iter()
        .map(|warning| warning.forward_failures)
        .collect();
    assert_eq!(counts, vec![1, 2, 4, 8, 16, 32, 64, 128, 256, 512]);
}

#[test]
fn sampling_picks_the_powers_of_two() {
    for n in 0u64..=5000 {
        assert_eq!(is_sampled(n), n.is_power_of_two(), "{n}");
    }
    assert!(is_sampled(1 << 63));
    assert!(!is_sampled(u64::MAX));
}

#[test]
fn a_returned_panic_error_is_no_unwind() {
    let mut diagnostics = ExportDiagnostics::default();
    assert_eq!(
        diagnostics.settle(2, 0, CallOutcome::Returned(Err(ExportError::Panicked))),
        Err(ExportError::Panicked)
    );
    assert_eq!(diagnostics.stats().panicked_export_calls, 0);
    assert_eq!(
        diagnostics.settle(0, 3, CallOutcome::Unwound),
        Err(ExportError::Panicked)
    );
    assert_eq!(
        diagnostics.settle(5, 5, CallOutcome::Returned(Ok(()))),
        Ok(())
    );
    assert_eq!(
        diagnostics.stats(),
        ExportingInstrumentationStats {
            failed_export_calls: 2,
            panicked_export_calls: 1,
            unconfirmed_spans: 2,
            unconfirmed_metrics: 3,
            counters_saturated: false,
        }
    );
}

#[test]
fn forward_failures_saturate_without_warning() {
    let mut diagnostics = ExportDiagnostics::default();
    diagnostics.forward_failures = u64::MAX;
    let warning = diagnostics.forward_failure(
        ExportError::Shutdown,
        Operation::RecordCircuitOpen,
        Signal::Spans,
        "op",
    );
    assert_eq!(warning, None);
    assert_eq!(diagnostics.forward_failures, u64::MAX);
    assert!(diagnostics.counters_saturated);
}

#[test]
fn forwarded_outcomes_are_settled_and_sampled() {
    let mut diagnostics = ExportDiagnostics::default();
    assert_eq!(
        diagnostics.settle_forwarded(
            1,
            0,
            CallOutcome::Returned(Ok(())),
            Operation::RecordRetry,
            Signal::Spans,
            "op",
        ),
        None
    );
    assert_eq!(diagnostics.forward_failures, 0);
    let mut sampled: Vec<u64> = Vec::new();
    for _ in 0usize..9 {
        let warning = diagnostics.settle_forwarded(
            0,
            1,
            CallOutcome::Unwound,
            Operation::RecordRetry,
            Signal::Metrics,
            "op",
        );
        if let Some(warning) = warning {
            assert_eq!(warning.error, ExportError::Panicked);
            assert_eq!(warning.operation, Operation::RecordRetry);
            assert_eq!(warning.signal, Signal::Metrics);
            assert_eq!(warning.op, "op");
            sampled.push(warning.forward_failures);
        }
    }
    assert_eq!(sampled, vec![1, 2, 4, 8]);
    assert_eq!(diagnostics.stats().panicked_export_calls, 9);
    assert_eq!(diagnostics.stats().unconfirmed_metrics, 9);
    assert_eq!(diagnostics.logged_forward_failures, 4);
}

#[test]
fn readings_of_the_clock_become_milliseconds() {
    assert_eq!(unix_ms_of(None), 0);
    assert_eq!(unix_ms_of(Some((0, 0))), 0);
    assert_eq!(unix_ms_of(Some((1, 999_999))), 1000);
    assert_eq!(unix_ms_of(Some((1_700_000_000, 123_456_789))), 1_700_000_000_123);
    assert_eq!(
        unix_ms_of(Some((u64::MAX, 999_999_999))),
        u64::MAX.wrapping_mul(1000).wrapping_add(999)
    );
}

#[test]
fn the_clock_is_that_of_the_system() {
    let millis = || {
        std::time::SystemTime::now()
            .duration_since(std::time::UNIX_EPOCH)
            .unwrap()
            .as_millis() as u64
    };
    let before: u64 = millis();
    let now: u64 = now_unix_ms();
    let after: u64 = millis();
    assert!(before <= now && now <= after);
}

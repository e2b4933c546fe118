//! Operation names: cleaning, bounding, joining.

use observex::text::{
    decimal_string, is_control, is_white_space, printable_chars, trimmed, utf8_width,
};
use observex::{
    allows_production_observability_claim, is_friendly_op, join_op_segments, normalize_op,
    op_depth, op_leaf, sanitize_op, tier_tracing, truncate_op, CallOutcome,
    CountingInstrumentation, ExportError, ExportingInstrumentation, GuardedExporter,
    InMemoryExporter, Instrumentation, MetricEvent, PrefixedInstrumentation, SpanEvent,
    TelemetryExporter, MAX_OP_BYTES,
};

fn span(name: &str) -> SpanEvent {
    SpanEvent {
        name: name.to_string(),
        start_unix_ms: 0,
        attributes: Vec::new(),
    }
}

struct AlwaysErr;

impl GuardedExporter for AlwaysErr {
    fn call_export_spans(&mut self, spans: &[SpanEvent]) -> CallOutcome {
        CallOutcome::Returned(self.export_spans(spans))
    }
    fn call_export_metrics(&mut self, metrics: &[MetricEvent]) -> CallOutcome {
        CallOutcome::Returned(self.export_metrics(metrics))
    }
    fn call_flush(&mut self) -> CallOutcome {
        CallOutcome::Returned(self.flush())
    }
    fn call_shutdown(&mut self) -> CallOutcome {
        CallOutcome::Returned(self.shutdown())
    }
}

impl TelemetryExporter for AlwaysErr {
    fn export_spans(&mut self, _spans: &[SpanEvent]) -> Result<(), ExportError> {
        Err(ExportError::Unavailable)
    }
    fn export_metrics(&mut self, _metrics: &[MetricEvent]) -> Result<(), ExportError> {
        Err(ExportError::Unavailable)
    }
    fn flush(&mut self) -> Result<(), ExportError> {
        Err(ExportError::Unavailable)
    }
    fn shutdown(&mut self) -> Result<(), ExportError> {
        Err(ExportError::Unavailable)
    }
}

#[test]
fn multibyte_truncation_stays_on_boundary() {
    let zh = "配置服务";
    assert_eq!(zh.len(), 12);
    for max in 0usize..=14 {
        let truncated = truncate_op(zh, max);
        assert!(
            truncated.is_char_boundary(truncated.len()),
            "max={max}: not on a boundary: {truncated:?}"
        );
        assert!(truncated.len() <= max, "max={max}: too long: {truncated:?}");
        if max == 0 {
            assert!(truncated.is_empty());
        } else if max < zh.len() {
            assert!(
                truncated.ends_with('~'),
                "max={max}: no mark: {truncated:?}"
            );
        } else {
            assert_eq!(truncated, zh);
        }
    }
}

#[test]
fn empty_and_whitespace_op_normalization() {
    assert_eq!(sanitize_op(""), "_");
    assert_eq!(sanitize_op("   "), "_");
    assert_eq!(sanitize_op("\0 \t\r \0"), "_");
    assert_eq!(op_depth(""), 1);
    assert_eq!(op_depth("   "), 1);
    assert_eq!(op_leaf(""), "_");
    assert!(!is_friendly_op(""));
    assert!(!is_friendly_op("   "));
    assert_eq!(join_op_segments(&["a", "", " b "]), "a.b");
    assert_eq!(join_op_segments(&[]), "");
    let counting = CountingInstrumentation::new();
    let exporter = InMemoryExporter::with_capacity(4);
    let mut exporting = ExportingInstrumentation::new(counting, exporter);
    exporting.record_retry("", 1);
    exporting.record_circuit_open("");
    exporting.record_circuit_close("");
    assert_eq!(exporting.exporter().buffered_spans()[0].name, "retry:_");
}

#[test]
fn sanitize_op_bounds_and_strips_control_chars() {
    assert_eq!(sanitize_op("   "), "_");
    assert_eq!(sanitize_op("\0 api.fetch \0"), "api.fetch");
    assert_eq!(sanitize_op("api.fetch"), "api.fetch");

    let malicious = format!("{}\nsecret-suffix", "配".repeat(80));
    let sanitized = sanitize_op(&malicious);
    assert!(
        sanitized.len() <= MAX_OP_BYTES,
        "longer than {} bytes",
        MAX_OP_BYTES
    );
    assert!(!sanitized.chars().any(char::is_control));
    assert!(!sanitized.contains("secret-suffix"));
    assert!(sanitized.is_char_boundary(sanitized.len()));

    let max: usize = MAX_OP_BYTES;
    assert_eq!(sanitize_op(&"a".repeat(max)).len(), max);
    let over = sanitize_op(&"a".repeat(max + 50));
    assert!(over.len() <= max);
    assert!(over.ends_with('~'), "no mark");
}

#[test]
fn assert_field_governance() {
    let malicious = format!("{}\n\r\t\0secret-suffix", "配".repeat(80));
    let sanitized = sanitize_op(&malicious);
    assert!(sanitized.len() <= MAX_OP_BYTES);
    assert!(!sanitized.chars().any(char::is_control));
    assert!(!sanitized.contains("secret-suffix"));
    assert!(sanitized.is_char_boundary(sanitized.len()));
    assert_eq!(sanitize_op("  api.fetch  "), "api.fetch");
    assert_eq!(sanitize_op("\0 \t\r \0"), "_");

    let counting = CountingInstrumentation::new();
    let exporter = InMemoryExporter::with_capacity(8);
    let mut exporting = ExportingInstrumentation::new(counting, exporter);
    exporting.record_retry(&malicious, 1);
    assert_eq!(
        exporting.exporter().buffered_spans()[0].name,
        format!("retry:{sanitized}")
    );

    let counting = CountingInstrumentation::new();
    let exporter = InMemoryExporter::with_capacity(8);
    let mut prefixed =
        PrefixedInstrumentation::new("api", ExportingInstrumentation::new(counting, exporter));
    prefixed.record_retry(&malicious, 1);
    let expected = sanitize_op(&format!("api.{sanitized}"));
    let name = prefixed.inner().exporter().buffered_spans()[0].name.clone();
    assert_eq!(name, format!("retry:{expected}"));
    assert!(name.len() <= MAX_OP_BYTES + "retry:".len());
    assert!(!name.contains("secret-suffix"));
}

#[test]
fn assert_acceptance() {
    let zh = "配置服务";
    for max in [0usize, 1, 3, 4, 7, 12] {
        let truncated = truncate_op(zh, max);
        assert!(truncated.is_char_boundary(truncated.len()));
        assert!(truncated.len() <= max);
    }
    let mut zero = InMemoryExporter::with_capacity(0);
    assert_eq!(zero.export_spans(&[]), Ok(()));
    assert_eq!(
        zero.export_spans(&[span("x")]),
        Err(ExportError::BufferFull)
    );
    let mut one = InMemoryExporter::with_capacity(1);
    assert_eq!(one.export_spans(&[span("ok")]), Ok(()));
    assert_eq!(
        one.export_spans(&[span("over")]),
        Err(ExportError::BufferFull)
    );
    assert_eq!(one.buffered_spans(), vec![span("ok")]);
    assert!(!one.stats().counters_saturated);
    let counting = CountingInstrumentation::new();
    let mut exporting = ExportingInstrumentation::new(counting, AlwaysErr);
    exporting.record_retry("op", 1);
    assert_eq!(exporting.inner().retry_count(), 1);
    assert!(exporting.export_stats().failed_export_calls >= 1);
    let mut exporter = InMemoryExporter::with_capacity(4);
    exporter.export_spans(&[span("pending")]).expect("pending");
    exporter.shutdown().expect("shutdown");
    let snapshot = exporter.stats();
    assert_eq!(snapshot.flushed_spans, 1);
    assert!(snapshot.is_shutdown);
    exporter.shutdown().expect("idempotent");
    assert_eq!(exporter.stats(), snapshot);
    assert!(!allows_production_observability_claim(tier_tracing()));
}

#[test]
fn truncation_gives_exact_texts() {
    assert_eq!(truncate_op("abcdef", 6), "abcdef");
    assert_eq!(truncate_op("abcdef", 5), "abcd~");
    assert_eq!(truncate_op("abcdef", 1), "~");
    assert_eq!(truncate_op("abcdef", 0), "");
    assert_eq!(truncate_op("", 0), "");
    assert_eq!(truncate_op("配置服务", 11), "配置服~");
    assert_eq!(truncate_op("配置服务", 9), "配置~");
    assert_eq!(truncate_op("a配b", 4), "a~");
    assert_eq!(truncate_op("😀😀", 7), "😀~");
    assert_eq!(truncate_op("😀😀", 4), "~");
}

#[test]
fn truncation_is_idempotent() {
    for max in 0usize..=20 {
        let once = truncate_op("配置 service 名", max);
        assert_eq!(truncate_op(&once, max), once);
    }
}

#[test]
fn cutting_a_part_first_makes_no_difference() {
    for (a, b) in [("ab", "cdef"), ("", "配置服务"), ("x.", "😀😀😀"), ("配置", "é~é")] {
        for max in 0usize..=20 {
            let cut = truncate_op(b, max);
            assert_eq!(
                truncate_op(&format!("{a}{cut}"), max),
                truncate_op(&format!("{a}{b}"), max),
                "{a:?} {b:?} {max}"
            );
        }
    }
}

#[test]
fn cleaning_is_idempotent_and_keeps_clean_names() {
    let long = "é".repeat(200);
    for op in [
        "",
        "  a b  ",
        "\u{3000}x\u{a0}",
        "\u{85}\u{9f}",
        "a\u{7f}b",
        long.as_str(),
    ] {
        let once = sanitize_op(op);
        assert_eq!(sanitize_op(&once), once);
        assert!(is_friendly_op(&once));
    }
    assert_eq!(sanitize_op("a\tb\nc"), "abc");
    assert_eq!(sanitize_op("  a b  "), "a b");
    assert_eq!(sanitize_op("\u{3000}x\u{a0}"), "x");
    assert_eq!(sanitize_op("a\u{7f}b\u{85}c"), "abc");
    assert_eq!(sanitize_op(&long), format!("{}~", "é".repeat(63)));
    assert_eq!(sanitize_op(&"配".repeat(80)), format!("{}~", "配".repeat(42)));
}

#[test]
fn friendly_names_are_those_that_cleaning_keeps() {
    assert!(is_friendly_op("api.fetch"));
    assert!(is_friendly_op(&"a".repeat(128)));
    assert!(!is_friendly_op(&"a".repeat(129)));
    assert!(!is_friendly_op(" a"));
    assert!(!is_friendly_op("a "));
    assert!(!is_friendly_op("a\nb"));
}

#[test]
fn empty_name_becomes_an_underscore() {
    assert_eq!(normalize_op(""), "_");
    assert_eq!(normalize_op("a"), "a");
    assert_eq!(normalize_op(" "), " ");
}

#[test]
fn segments_are_joined_and_parted() {
    assert_eq!(join_op_segments(&["api", "v1", "get"]), "api.v1.get");
    assert_eq!(join_op_segments(&["", "  ", "x"]), "x");
    assert_eq!(join_op_segments(&[" a "]), "a");
    assert_eq!(op_depth("api.v1.get"), 3);
    assert_eq!(op_depth("api"), 1);
    assert_eq!(op_leaf("api.v1.get"), "get");
    assert_eq!(op_leaf("api"), "api");
    assert_eq!(op_leaf("api."), "_");
    let joined = join_op_segments(&["db", "read", "row"]);
    assert_eq!(op_depth(&joined), 3);
    assert_eq!(op_leaf(&joined), "row");
}

#[test]
fn character_classes_are_those_of_unicode() {
    for c in '\0'..=char::MAX {
        assert_eq!(is_control(c), c.is_control(), "{c:?}");
        assert_eq!(is_white_space(c), c.is_whitespace(), "{c:?}");
        assert_eq!(utf8_width(c), c.len_utf8(), "{c:?}");
    }
}

#[test]
fn trimming_matches_the_standard_library() {
    for text in ["", " ", " a", "a ", "\u{2003} a b \u{2003}", "\t\n", "配 "] {
        let chars: Vec<char> = text.chars().collect();
        let kept: String = trimmed(&chars).iter().collect();
        assert_eq!(kept, text.trim());
    }
    let kept: String = printable_chars("a\0b\u{1b}c").iter().collect();
    assert_eq!(kept, "abc");
}

#[test]
fn numerals_match_the_standard_library() {
    for n in [0u32, 1, 9, 10, 11, 99, 100, 1_000_000, u32::MAX] {
        assert_eq!(decimal_string(n), n.to_string());
    }
}

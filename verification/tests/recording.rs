//! Counting, prefixes and trace events.

use observex::{
    is_friendly_op, join_op_segments, normalize_op, record_circuit_close_normalized,
    record_circuit_open_normalized, record_retry_normalized, sanitize_op, truncate_op,
    CountingInstrumentation, Instrumentation, ObservexInstrumentation, PrefixedInstrumentation,
    TraceEvent, TracingInstrumentation, MAX_OP_BYTES,
};

/// Emits trace events as lines of text.
struct Lines {
    tracing: TracingInstrumentation,
    text: String,
}

impl Lines {
    fn new() -> Self {
        Lines {
            tracing: TracingInstrumentation::new(),
            text: String::new(),
        }
    }

    fn emit(&mut self, event: TraceEvent) {
        let line = match event.attempt {
            Some(attempt) => format!("INFO {} op={:?} attempt={}\n", event.message, event.op, attempt),
            None => format!("INFO {} op={:?}\n", event.message, event.op),
        };
        self.text.push_str(&line);
    }
}

impl Instrumentation for Lines {
    fn record_retry(&mut self, op: &str, attempt: u32) {
        let event = self.tracing.record_retry(op, attempt);
        self.emit(event);
    }
    fn record_circuit_open(&mut self, op: &str) {
        let event = self.tracing.record_circuit_open(op);
        self.emit(event);
    }
    fn record_circuit_close(&mut self, op: &str) {
        let event = self.tracing.record_circuit_close(op);
        self.emit(event);
    }
}

/// Makes the three calls through the interface alone.
fn record_all<I: Instrumentation>(instr: &mut I, first: &str, attempt: u32, rest: &str) {
    instr.record_retry(first, attempt);
    instr.record_circuit_open(rest);
    instr.record_circuit_close(rest);
}

#[test]
fn tracing_and_alias() {
    let t = TracingInstrumentation::new();
    assert_eq!(t.record_retry("f", 1).op, "f");
    assert_eq!(t.record_circuit_open("f").op, "f");
    assert_eq!(t.record_circuit_close("f").op, "f");
    let a: ObservexInstrumentation = ObservexInstrumentation::new();
    let b: TracingInstrumentation = a;
    assert_eq!(b.record_retry("x", 1).attempt, Some(1));
    let d = TracingInstrumentation;
    let _ = format!("{d:?}");
    let _ = d;
    let _ = TracingInstrumentation::default();
}

#[test]
fn counting_and_prefix() {
    let c = CountingInstrumentation::new();
    let mut p = PrefixedInstrumentation::new("m", c);
    p.record_retry("op", 3);
    p.record_circuit_open("op");
    p.record_circuit_close("op");
    let c = p.inner();
    assert_eq!(c.retry_count(), 1);
    assert_eq!(c.open_count(), 1);
    assert_eq!(c.close_count(), 1);
    assert_eq!(c.last_attempt(), 3);
    assert_eq!(p.inner().retry_count(), 1);
    let mut counted = CountingInstrumentation::new();
    counted.record_retry("op", 3);
    let mut p0 = PrefixedInstrumentation::new("", counted);
    p0.record_retry("z", 1);
    assert_eq!(p0.inner().retry_count(), 2);
    let mut c = CountingInstrumentation::new();
    c.record_retry("op", 3);
    c.reset();
    assert_eq!(c.retry_count(), 0);
}

#[test]
fn normalize_helpers() {
    assert_eq!(normalize_op(""), "_");
    assert_eq!(normalize_op("a"), "a");
    let mut c = CountingInstrumentation::new();
    record_retry_normalized(&mut c, "", 1);
    record_circuit_open_normalized(&mut c, "");
    record_circuit_close_normalized(&mut c, "z");
    assert_eq!(c.retry_count() + c.open_count() + c.close_count(), 3);
    assert!(is_friendly_op("ok"));
    assert!(!is_friendly_op(""));
}

#[test]
fn tracing_fields_captured() {
    let mut p = PrefixedInstrumentation::new("api", Lines::new());
    p.record_retry("get", 2);
    p.record_circuit_open("get");
    p.record_circuit_close("get");
    let out = &p.inner().text;
    for needle in ["retry", "circuit_open", "circuit_close"] {
        assert!(
            out.contains(needle),
            "expected tracing capture to contain {needle:?}; got:\n{out}"
        );
    }
}

#[test]
fn tracing_record_paths_sanitize_untrusted_op() {
    let suffix = "must-not-reach-tracing";
    let malicious = format!("{}\n{suffix}", "配".repeat(80));
    let expected = sanitize_op(&format!("api.{malicious}"));
    let mut p = PrefixedInstrumentation::new("api", Lines::new());
    p.record_retry(&malicious, 1);
    let out = &p.inner().text;
    assert!(expected.len() <= MAX_OP_BYTES);
    assert!(!expected.chars().any(char::is_control));
    assert!(out.contains(&expected));
    assert!(!out.contains(suffix));
}

#[test]
fn tracing_new_emits_sanitized_events() {
    let mut lines = Lines::new();
    let malicious = format!("{}\nsecret-suffix", "配".repeat(80));
    record_all(&mut lines, &malicious, 3, "api.op");
    let out = lines.text;
    for needle in ["retry", "circuit_open", "circuit_close"] {
        assert!(out.contains(needle), "missing {needle:?} in:\n{out}");
    }
    assert!(!out.contains("secret-suffix"));
}

#[test]
fn counting_new_counts_via_trait() {
    let mut counting = CountingInstrumentation::new();
    record_all(&mut counting, "op", 2, "op");
    assert_eq!(counting.retry_count(), 1);
    assert_eq!(counting.open_count(), 1);
    assert_eq!(counting.close_count(), 1);
    assert_eq!(counting.last_attempt(), 2);
}

#[test]
fn retry_count_tracks_attempts() {
    let mut counting = CountingInstrumentation::new();
    assert_eq!(counting.retry_count(), 0);
    for attempt in 1u32..=3 {
        counting.record_retry("op", attempt);
    }
    assert_eq!(counting.retry_count(), 3, "only retries are counted");
    assert_eq!(counting.open_count(), 0, "a retry is no opening");
    assert_eq!(counting.last_attempt(), 3);
    counting.reset();
    assert_eq!(counting.retry_count(), 0);
    assert_eq!(counting.last_attempt(), 0);
}

#[test]
fn dyn_and_ops() {
    let mut t = Lines::new();
    t.record_retry("d", 1);
    assert_eq!(t.text, "INFO retry op=\"d\" attempt=1\n");
    assert_eq!(join_op_segments(&["a", "b"]), "a.b");
    assert!(truncate_op("abcdef", 3).len() <= 3);
}

#[test]
fn trace_events_say_exactly_what_was_recorded() {
    let t = TracingInstrumentation::new();
    assert_eq!(
        t.record_retry(" a\tb ", 7),
        TraceEvent {
            message: "retry",
            op: "ab".to_string(),
            attempt: Some(7),
        }
    );
    assert_eq!(
        t.record_circuit_open(""),
        TraceEvent {
            message: "circuit_open",
            op: "_".to_string(),
            attempt: None,
        }
    );
    assert_eq!(
        t.record_circuit_close("x"),
        TraceEvent {
            message: "circuit_close",
            op: "x".to_string(),
            attempt: None,
        }
    );
}

#[test]
fn prefixes_qualify_names() {
    let p = PrefixedInstrumentation::new("api", ());
    assert_eq!(p.qualify("get"), "api.get");
    assert_eq!(p.qualify(" get\n"), "api.get");
    assert_eq!(p.qualify(""), "api._");
    let long = p.qualify(&"a".repeat(300));
    assert_eq!(long, format!("api.{}~", "a".repeat(123)));
    let none = PrefixedInstrumentation::new("", ());
    assert_eq!(none.qualify("get"), "get");
    let blank = PrefixedInstrumentation::new("  ", ());
    assert_eq!(blank.qualify("get"), "_.get");
    let dirty = PrefixedInstrumentation::new(" a\0pi ", ());
    assert_eq!(dirty.qualify("get"), "api.get");
}

#[test]
fn a_prefixed_name_is_cut_as_a_whole() {
    for width in ["a", "é", "配", "😀"] {
        for len in 110usize..140 {
            let prefix = "p".repeat(len % 9 + 1);
            let p = PrefixedInstrumentation::new(&prefix, ());
            let op = width.repeat(len);
            let name = p.qualify(&op);
            assert_eq!(name, truncate_op(&format!("{prefix}.{op}"), MAX_OP_BYTES));
            assert_eq!(name, sanitize_op(&format!("{prefix}.{op}\n ")));
            assert_eq!(sanitize_op(&name), name);
        }
    }
    let p = PrefixedInstrumentation::new("api", ());
    assert_eq!(p.qualify(" get"), "api.get");
    assert_eq!(sanitize_op("api. get"), "api. get");
}

#[test]
fn a_cloned_prefix_qualifies_alike() {
    let mut p = PrefixedInstrumentation::new("api", CountingInstrumentation::new());
    p.record_retry("get", 1);
    assert_eq!(p.qualify("get"), "api.get");
    let q = PrefixedInstrumentation::new("api", 7u8);
    let r = q.clone();
    assert_eq!(r.qualify("get"), q.qualify("get"));
    assert_eq!(*r.inner(), 7);
}

#[test]
fn the_three_kinds_are_counted_apart() {
    let mut counting = CountingInstrumentation::default();
    for _ in 0usize..2 {
        counting.record_circuit_open("a");
    }
    for _ in 0usize..3 {
        counting.record_circuit_close("b");
    }
    counting.record_retry("c", u32::MAX);
    assert_eq!(counting.retry_count(), 1);
    assert_eq!(counting.open_count(), 2);
    assert_eq!(counting.close_count(), 3);
    assert_eq!(counting.last_attempt(), 4_294_967_295);
    counting.reset();
    assert_eq!(counting.open_count(), 0);
    assert_eq!(counting.close_count(), 0);
}

# observex

Observability of retries and circuit breakers, with a bounded in-process
telemetry sink, written and verified in Verus.

- `src/ops.rs` cleans operation names: control characters go, white space is
  trimmed, an empty name becomes `_`, and a name is cut to 128 bytes on a
  character boundary, with the mark `~`. `src/text.rs` holds the characters,
  widths and numerals behind it.
- `src/instrumentation.rs` is the recording interface. `src/counting.rs` counts
  for tests, `src/prefixed.rs` puts a prefix before names, and `src/tracing.rs`
  makes trace events.
- `src/export.rs` has the events, the errors and the exporter interfaces;
  `src/export/memory.rs` the bounded sink, and `src/export/forwarding.rs` the
  recording that is also exported, with its failure diagnostics and sampled
  warnings in `src/export/diagnostics.rs`.
- The laws of the library are public proof functions named `law_*`; those of the
  sink are in `src/export/accounting.rs`, those of one exporting call in
  `src/export/guarantees.rs`, and those of the whole life of an exporting
  recorder in `src/export/history.rs`, stated over the calls that it made, in
  their order (`src/export/trace.rs`).
- `src/policy.rs` says what the library does not claim to be. It is neither an
  OpenTelemetry API or SDK nor an OTLP implementation, and `flush` and
  `shutdown` confirm nothing beyond this process.
- `app/` is the host side: locks for use from several threads, the boundary that
  stops the unwind of an exporter, and the `tracing` macros. Its exporting
  recorder performs the actions that `src/export/schedule.rs` gives it, one by
  one, and calls the exporter without holding a lock.

Two functions of the standard library are believed without proof: `String::push`
and the reading of the system clock.

//! What the library claims to be, and what it does not.

use vstd::prelude::*;

verus! {

/// A tier of observability.
#[derive(Debug, Clone, Copy, PartialEq, Eq, Structural)]
pub enum ObservabilityTier {
    /// Trace events at the least.
    TracingMin,
    /// Counting, for tests.
    CountingTest,
    /// OpenTelemetry, which is not provided.
    OtelDeferred,
}

/// The policy in one line.
pub open spec fn summary() -> Seq<char> {
    "tracing=min counting=test-only bounded-sink=in-process otel-sdk=no otlp=no"@
}

/// Whether `part` occurs in the text.
pub open spec fn occurs_in(part: Seq<char>, s: Seq<char>) -> bool {
    exists|i: int|
        0 <= i <= s.len() - part.len() && #[trigger] s.subrange(i, i + part.len()) == part
}

/// The tier of the trace events.
#[must_use]
pub fn tier_tracing() -> (r: ObservabilityTier)
    ensures
        r == ObservabilityTier::TracingMin,
{
    ObservabilityTier::TracingMin
}

/// The tier of the counting.
#[must_use]
pub fn tier_counting() -> (r: ObservabilityTier)
    ensures
        r == ObservabilityTier::CountingTest,
{
    ObservabilityTier::CountingTest
}

/// Whether a tier allows the claim that production observability is done. None
/// does.
#[must_use]
pub fn allows_production_observability_claim(tier: ObservabilityTier) -> (r: bool)
    ensures
        !r,
{
    match tier {
        ObservabilityTier::TracingMin => false,
        ObservabilityTier::CountingTest => false,
        ObservabilityTier::OtelDeferred => false,
    }
}

/// Whether a complete OpenTelemetry export is claimed. It is not.
#[must_use]
pub fn claims_otel_export_complete() -> (r: bool)
    ensures
        !r,
{
    false
}

/// Whether the counting is meant as production metrics. It is not.
#[must_use]
pub fn counting_is_production_metrics() -> (r: bool)
    ensures
        !r,
{
    false
}

/// The policy in one line. It owns up to what the library is not: the counting
/// is for tests, the sink stays in the process, and there is neither an
/// OpenTelemetry SDK nor OTLP.
#[must_use]
pub fn policy_summary() -> (r: &'static str)
    ensures
        r@ == summary(),
        occurs_in("counting=test-only"@, r@),
        occurs_in("bounded-sink=in-process"@, r@),
        occurs_in("otel-sdk=no"@, r@),
        occurs_in("otlp=no"@, r@),
{
    let r = "tracing=min counting=test-only bounded-sink=in-process otel-sdk=no otlp=no";
    proof {
        reveal_strlit("tracing=min counting=test-only bounded-sink=in-process otel-sdk=no otlp=no");
        reveal_strlit("counting=test-only");
        reveal_strlit("bounded-sink=in-process");
        reveal_strlit("otel-sdk=no");
        reveal_strlit("otlp=no");
        assert(r@.subrange(12, 12 + "counting=test-only"@.len() as int) =~= "counting=test-only"@);
        assert(r@.subrange(31, 31 + "bounded-sink=in-process"@.len() as int) =~= "bounded-sink=in-process"@);
        assert(r@.subrange(55, 55 + "otel-sdk=no"@.len() as int) =~= "otel-sdk=no"@);
        assert(r@.subrange(67, 67 + "otlp=no"@.len() as int) =~= "otlp=no"@);
    }
    r
}

} // verus!

//! What the library claims, and what it does not.

use observex::{
    allows_production_observability_claim, claims_otel_export_complete,
    counting_is_production_metrics, policy_summary, tier_counting, tier_tracing,
    ObservabilityTier, TracingInstrumentation,
};

#[test]
fn policy_is_honest() {
    assert!(!claims_otel_export_complete());
    assert!(!counting_is_production_metrics());
    assert!(policy_summary().contains("bounded-sink=in-process"));
}

#[test]
fn assert_positioning() {
    let instrumentation = TracingInstrumentation::new();
    assert_eq!(instrumentation.record_retry("op", 0).message, "retry");
    assert_eq!(
        instrumentation.record_circuit_open("op").message,
        "circuit_open"
    );
    assert_eq!(
        instrumentation.record_circuit_close("op").message,
        "circuit_close"
    );

    assert!(!claims_otel_export_complete());
    assert!(!counting_is_production_metrics());
    let summary = policy_summary();
    assert!(summary.contains("otel-sdk=no"));
    assert!(summary.contains("otlp=no"));
    assert!(summary.contains("bounded-sink=in-process"));
}

#[test]
fn no_tier_allows_production_claim() {
    for tier in [
        ObservabilityTier::TracingMin,
        ObservabilityTier::CountingTest,
        ObservabilityTier::OtelDeferred,
    ] {
        assert!(
            !allows_production_observability_claim(tier),
            "{tier:?} must not allow the claim"
        );
    }
    assert!(!allows_production_observability_claim(tier_tracing()));
    assert!(!allows_production_observability_claim(tier_counting()));
    assert!(!claims_otel_export_complete());
    assert!(!counting_is_production_metrics());
    assert!(policy_summary().contains("otel-sdk=no"));
}

#[test]
fn tiers_are_told_apart() {
    assert_eq!(tier_tracing(), ObservabilityTier::TracingMin);
    assert_eq!(tier_counting(), ObservabilityTier::CountingTest);
}

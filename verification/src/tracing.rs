//! Recording as trace events.

use vstd::prelude::*;

use crate::instrumentation::OpEvent;
use crate::ops;
use crate::ops::sanitize_op;
use crate::text;

verus! {

/// A trace event of the level `INFO`.
#[derive(Debug, PartialEq, Eq)]
pub struct TraceEvent {
    /// The message.
    pub message: &'static str,
    /// The field `op`: the cleaned operation name.
    pub op: String,
    /// The field `attempt`, which only retries have.
    pub attempt: Option<u32>,
}

/// What a [`TraceEvent`] says.
#[verifier::ext_equal]
pub struct TraceModel {
    pub message: Seq<char>,
    pub op: Seq<char>,
    pub attempt: Option<u32>,
}

impl View for TraceEvent {
    type V = TraceModel;

    open spec fn view(&self) -> TraceModel {
        TraceModel { message: self.message@, op: self.op@, attempt: self.attempt }
    }
}

/// The trace event of a recording call.
pub open spec fn traced(event: OpEvent) -> TraceModel {
    let op = ops::sanitized(event.name());
    match event {
        OpEvent::Retry { op: _, attempt } => TraceModel {
            message: "retry"@,
            op,
            attempt: Some(attempt),
        },
        OpEvent::CircuitOpen { op: _ } => TraceModel {
            message: "circuit_open"@,
            op,
            attempt: None,
        },
        OpEvent::CircuitClose { op: _ } => TraceModel {
            message: "circuit_close"@,
            op,
            attempt: None,
        },
    }
}

/// Turns every recording call into a trace event, which the host emits to its
/// subscriber. Without a subscriber nothing happens; a subscriber that blocks
/// or panics is the affair of whoever installed it.
#[derive(Debug, Clone, Copy)]
pub struct TracingInstrumentation;

/// Another name of [`TracingInstrumentation`].
pub type ObservexInstrumentation = TracingInstrumentation;

/// No name reaches a trace event that is not clean.
pub proof fn law_traced_name_is_clean(event: OpEvent)
    ensures
        ops::clean(traced(event).op),
{
    ops::law_sanitized_is_clean(event.name());
}

impl Default for TracingInstrumentation {
    /// The instrumentation; it has no state.
    fn default() -> (r: Self)
        ensures
            r == TracingInstrumentation,
    {
        TracingInstrumentation
    }
}

impl TracingInstrumentation {
    /// The instrumentation; it has no state.
    #[must_use]
    pub fn new() -> (r: Self)
        ensures
            r == TracingInstrumentation,
    {
        TracingInstrumentation
    }

    /// The event of a retry.
    #[must_use]
    pub fn record_retry(&self, op: &str, attempt: u32) -> (r: TraceEvent)
        ensures
            r@ == traced(OpEvent::Retry { op: op@, attempt }),
    {
        TraceEvent { message: "retry", op: sanitize_op(op), attempt: Some(attempt) }
    }

    /// The event of an opened circuit breaker.
    #[must_use]
    pub fn record_circuit_open(&self, op: &str) -> (r: TraceEvent)
        ensures
            r@ == traced(OpEvent::CircuitOpen { op: op@ }),
    {
        TraceEvent { message: "circuit_open", op: sanitize_op(op), attempt: None }
    }

    /// The event of a closed circuit breaker.
    #[must_use]
    pub fn record_circuit_close(&self, op: &str) -> (r: TraceEvent)
        ensures
            r@ == traced(OpEvent::CircuitClose { op: op@ }),
    {
        TraceEvent { message: "circuit_close", op: sanitize_op(op), attempt: None }
    }
}

/// The event of a call says which kind of call it was, carries the cleaned
/// name, and for a retry, and only then, the attempt number.
pub proof fn law_traced_says_the_call(op: Seq<char>, attempt: u32)
    ensures
        traced(OpEvent::Retry { op, attempt }).message == "retry"@,
        traced(OpEvent::Retry { op, attempt }).op == ops::sanitized(op),
        traced(OpEvent::Retry { op, attempt }).attempt == Some(attempt),
        traced(OpEvent::CircuitOpen { op }).message == "circuit_open"@,
        traced(OpEvent::CircuitOpen { op }).op == ops::sanitized(op),
        traced(OpEvent::CircuitOpen { op }).attempt == None::<u32>,
        traced(OpEvent::CircuitClose { op }).message == "circuit_close"@,
        traced(OpEvent::CircuitClose { op }).op == ops::sanitized(op),
        traced(OpEvent::CircuitClose { op }).attempt == None::<u32>,
{
}

/// A name that needs no cleaning is in the event exactly as it was recorded.
pub proof fn law_clean_name_is_traced(event: OpEvent)
    requires
        event.name().len() > 0,
        forall|i: int|
            0 <= i < event.name().len() ==> !text::control(#[trigger] event.name()[i]),
        !text::white_space(event.name().first()),
        !text::white_space(event.name().last()),
        text::byte_len(event.name()) <= 128,
    ensures
        traced(event).op == event.name(),
{
    ops::law_cleaning_keeps(event.name());
}

/// What a trace event says is what is in its fields.
pub proof fn law_trace_event_fields(event: TraceEvent)
    ensures
        event@.message == event.message@,
        event@.op == event.op@,
        event@.attempt == event.attempt,
{
}

} // verus!

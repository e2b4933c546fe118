//! The recording interface, and recording under cleaned names.

use vstd::prelude::*;

use crate::ops;
use crate::ops::sanitize_op;

verus! {

/// One recording call.
pub enum OpEvent {
    /// A retry, with its attempt number.
    Retry { op: Seq<char>, attempt: u32 },
    /// A circuit breaker opened.
    CircuitOpen { op: Seq<char> },
    /// A circuit breaker closed.
    CircuitClose { op: Seq<char> },
}

impl OpEvent {
    /// The operation name.
    pub open spec fn name(self) -> Seq<char> {
        match self {
            OpEvent::Retry { op, attempt: _ } => op,
            OpEvent::CircuitOpen { op } => op,
            OpEvent::CircuitClose { op } => op,
        }
    }

    /// The same call with another operation name.
    pub open spec fn renamed(self, name: Seq<char>) -> OpEvent {
        match self {
            OpEvent::Retry { op: _, attempt } => OpEvent::Retry { op: name, attempt },
            OpEvent::CircuitOpen { op: _ } => OpEvent::CircuitOpen { op: name },
            OpEvent::CircuitClose { op: _ } => OpEvent::CircuitClose { op: name },
        }
    }
}

/// Records what happens to operations that are retried or guarded by a circuit
/// breaker.
///
/// Each implementation says by the relation `records` what its calls may do.
/// One that says nothing may do anything.
pub trait Instrumentation {
    /// Whether the call `event` may lead from this state to `post`.
    open spec fn records(&self, event: OpEvent, post: &Self) -> bool {
        true
    }

    /// Records a retry.
    fn record_retry(&mut self, op: &str, attempt: u32)
        ensures
            old(self).records(OpEvent::Retry { op: op@, attempt }, &*final(self)),
    ;

    /// Records that a circuit breaker opened.
    fn record_circuit_open(&mut self, op: &str)
        ensures
            old(self).records(OpEvent::CircuitOpen { op: op@ }, &*final(self)),
    ;

    /// Records that a circuit breaker closed.
    fn record_circuit_close(&mut self, op: &str)
        ensures
            old(self).records(OpEvent::CircuitClose { op: op@ }, &*final(self)),
    ;
}

/// Cleans the operation name and records a retry.
pub fn record_retry_normalized<I: Instrumentation>(instr: &mut I, op: &str, attempt: u32)
    ensures
        old(instr).records(OpEvent::Retry { op: ops::sanitized(op@), attempt }, &*final(instr)),
{
    let clean = sanitize_op(op);
    instr.record_retry(clean.as_str(), attempt);
}

/// Cleans the operation name and records that a circuit breaker opened.
pub fn record_circuit_open_normalized<I: Instrumentation>(instr: &mut I, op: &str)
    ensures
        old(instr).records(OpEvent::CircuitOpen { op: ops::sanitized(op@) }, &*final(instr)),
{
    let clean = sanitize_op(op);
    instr.record_circuit_open(clean.as_str());
}

/// Cleans the operation name and records that a circuit breaker closed.
pub fn record_circuit_close_normalized<I: Instrumentation>(instr: &mut I, op: &str)
    ensures
        old(instr).records(OpEvent::CircuitClose { op: ops::sanitized(op@) }, &*final(instr)),
{
    let clean = sanitize_op(op);
    instr.record_circuit_close(clean.as_str());
}

/// Renaming a call changes its operation name and nothing else.
pub proof fn law_renaming(event: OpEvent, name: Seq<char>)
    ensures
        event.renamed(name).name() == name,
        event.renamed(event.name()) == event,
        event.renamed(name) is Retry <==> event is Retry,
        event.renamed(name) is CircuitOpen <==> event is CircuitOpen,
        event.renamed(name) is CircuitClose <==> event is CircuitClose,
        event is Retry ==> event.renamed(name)->attempt == event->attempt,
        event is Retry ==> event.name() == event->Retry_op,
        event is CircuitOpen ==> event.name() == event->CircuitOpen_op,
        event is CircuitClose ==> event.name() == event->CircuitClose_op,
{
}

} // verus!

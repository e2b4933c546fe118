//! What a recording call has to do, action by action, for a host that makes the
//! calls itself: one whose instrumentation and exporter are shared between
//! threads and called without a lock.

use vstd::prelude::*;

use crate::export::forwarding;
use crate::export::forwarding::{circuit_close_span, circuit_open_span, retry_metric, retry_span};
use crate::export::trace::Step;
use crate::export::{CallOutcome, MetricEvent, MetricModel, Operation, SpanEvent, SpanModel};
use crate::instrumentation::OpEvent;
use crate::ops;
use crate::ops::sanitize_op;
use crate::text;

verus! {

/// A recording call, under its cleaned operation name.
#[derive(Debug, PartialEq, Eq)]
pub enum Recording {
    /// A retry, with its attempt number.
    Retry { op: String, attempt: u32 },
    /// A circuit breaker opened.
    CircuitOpen { op: String },
    /// A circuit breaker closed.
    CircuitClose { op: String },
}

/// One action of a recording call.
#[derive(Debug, PartialEq, Eq)]
pub enum Action {
    /// Have the wrapped instrumentation record the call.
    Record,
    /// Hand a span to the exporter.
    ExportSpan(SpanEvent),
    /// Hand a metric to the exporter.
    ExportMetric(MetricEvent),
}

/// What an [`Action`] says.
pub enum ActionModel {
    Record,
    ExportSpan(SpanModel),
    ExportMetric(MetricModel),
}

impl View for Recording {
    type V = OpEvent;

    open spec fn view(&self) -> OpEvent {
        match self {
            Recording::Retry { op, attempt } => OpEvent::Retry { op: op@, attempt: *attempt },
            Recording::CircuitOpen { op } => OpEvent::CircuitOpen { op: op@ },
            Recording::CircuitClose { op } => OpEvent::CircuitClose { op: op@ },
        }
    }
}

impl View for Action {
    type V = ActionModel;

    open spec fn view(&self) -> ActionModel {
        match self {
            Action::Record => ActionModel::Record,
            Action::ExportSpan(span) => ActionModel::ExportSpan(span@),
            Action::ExportMetric(metric) => ActionModel::ExportMetric(metric@),
        }
    }
}

/// The actions of a recording call, in their order, with the time `now`.
pub open spec fn scheduled(event: OpEvent, now: u64) -> Seq<ActionModel> {
    match event {
        OpEvent::Retry { op, attempt } => seq![
            ActionModel::Record,
            ActionModel::ExportSpan(forwarding::retry_span_model(op, attempt, now)),
            ActionModel::ExportMetric(forwarding::retry_metric_model(op, attempt)),
        ],
        OpEvent::CircuitOpen { op } => seq![
            ActionModel::Record,
            ActionModel::ExportSpan(forwarding::circuit_open_span_model(op, now)),
        ],
        OpEvent::CircuitClose { op } => seq![
            ActionModel::Record,
            ActionModel::ExportSpan(forwarding::circuit_close_span_model(op, now)),
        ],
    }
}

/// The recording call during which a failed export is warned about.
pub open spec fn operation_of(event: OpEvent) -> Operation {
    match event {
        OpEvent::Retry { op: _, attempt: _ } => Operation::RecordRetry,
        OpEvent::CircuitOpen { op: _ } => Operation::RecordCircuitOpen,
        OpEvent::CircuitClose { op: _ } => Operation::RecordCircuitClose,
    }
}

/// Whether a call is what an action of a recording call asks for.
pub open spec fn performs(event: OpEvent, action: ActionModel, step: Step) -> bool {
    match action {
        ActionModel::Record => step == Step::Inner(event),
        ActionModel::ExportSpan(span) => step matches Step::Spans { spans, operation, op, outcome }
            && spans == seq![span] && operation == operation_of(event) && op == event.name(),
        ActionModel::ExportMetric(metric) => step matches Step::Metrics {
            metrics,
            operation,
            op,
            outcome,
        } && metrics == seq![metric] && operation == operation_of(event) && op == event.name(),
    }
}

/// The scheduled actions ask, one by one, for the calls that an exporting
/// instrumentation makes, whatever those end with.
pub proof fn law_schedule_is_that_of_recording(
    event: OpEvent,
    now: u64,
    first: CallOutcome,
    second: CallOutcome,
)
    ensures
        scheduled(event, now).len() == forwarding::recording_steps(event, now, first, second).len(),
        forall|i: int|
            0 <= i < scheduled(event, now).len() ==> performs(
                event,
                #[trigger] scheduled(event, now)[i],
                forwarding::recording_steps(event, now, first, second)[i],
            ),
{
}

impl Recording {
    /// The recording call of a retry.
    #[must_use]
    pub fn retry(op: &str, attempt: u32) -> (r: Self)
        ensures
            r@ == (OpEvent::Retry { op: ops::sanitized(op@), attempt }),
    {
        Recording::Retry { op: sanitize_op(op), attempt }
    }

    /// The recording call of an opened circuit breaker.
    #[must_use]
    pub fn circuit_open(op: &str) -> (r: Self)
        ensures
            r@ == (OpEvent::CircuitOpen { op: ops::sanitized(op@) }),
    {
        Recording::CircuitOpen { op: sanitize_op(op) }
    }

    /// The recording call of a closed circuit breaker.
    #[must_use]
    pub fn circuit_close(op: &str) -> (r: Self)
        ensures
            r@ == (OpEvent::CircuitClose { op: ops::sanitized(op@) }),
    {
        Recording::CircuitClose { op: sanitize_op(op) }
    }

    /// The cleaned operation name.
    #[must_use]
    pub fn op(&self) -> (r: &str)
        ensures
            r@ == self@.name(),
    {
        match self {
            Recording::Retry { op, attempt: _ } => op.as_str(),
            Recording::CircuitOpen { op } => op.as_str(),
            Recording::CircuitClose { op } => op.as_str(),
        }
    }

    /// The recording call, as warnings name it.
    #[must_use]
    pub fn operation(&self) -> (r: Operation)
        ensures
            r == operation_of(self@),
    {
        match self {
            Recording::Retry { op: _, attempt: _ } => Operation::RecordRetry,
            Recording::CircuitOpen { op: _ } => Operation::RecordCircuitOpen,
            Recording::CircuitClose { op: _ } => Operation::RecordCircuitClose,
        }
    }

    /// The action to perform after `done` actions, at the time `now`, or none
    /// when all is done. What the actions before ended with plays no part.
    #[must_use]
    pub fn next_action(&self, done: usize, now: u64) -> (r: Option<Action>)
        ensures
            r is Some <==> done < scheduled(self@, now).len(),
            r matches Some(action) ==> action@ == scheduled(self@, now)[done as int],
    {
        if done == 0 {
            return Some(Action::Record);
        }
        match self {
            Recording::Retry { op, attempt } => if done == 1 {
                Some(Action::ExportSpan(retry_span(op.as_str(), *attempt, now)))
            } else if done == 2 {
                Some(Action::ExportMetric(retry_metric(op.as_str(), *attempt)))
            } else {
                None
            },
            Recording::CircuitOpen { op } => if done == 1 {
                Some(Action::ExportSpan(circuit_open_span(op.as_str(), now)))
            } else {
                None
            },
            Recording::CircuitClose { op } => if done == 1 {
                Some(Action::ExportSpan(circuit_close_span(op.as_str(), now)))
            } else {
                None
            },
        }
    }
}

/// The actions of a call, field by field: the wrapped instrumentation records
/// first, then the span goes out, with the name of the call and the given time,
/// and for a retry, last, the metric.
pub proof fn law_schedule_says_the_call(op: Seq<char>, attempt: u32, now: u64)
    ensures
        ({
            let actions = scheduled(OpEvent::Retry { op, attempt }, now);
            &&& actions.len() == 3
            &&& actions[0] is Record
            &&& actions[1] matches ActionModel::ExportSpan(span) && {
                &&& span.name == "retry:"@ + op
                &&& span.start_unix_ms == now
                &&& span.attributes.len() == 1
                &&& span.attributes[0].0 == "attempt"@
                &&& text::value_of(span.attributes[0].1) == attempt
            }
            &&& actions[2] matches ActionModel::ExportMetric(metric) && {
                &&& metric.name == "retry"@
                &&& metric.value == attempt
                &&& metric.attributes.len() == 1
                &&& metric.attributes[0].0 == "op"@
                &&& metric.attributes[0].1 == op
            }
        }),
        ({
            let actions = scheduled(OpEvent::CircuitOpen { op }, now);
            &&& actions.len() == 2
            &&& actions[0] is Record
            &&& actions[1] matches ActionModel::ExportSpan(span) && {
                &&& span.name == "circuit_open:"@ + op
                &&& span.start_unix_ms == now
                &&& span.attributes.len() == 0
            }
        }),
        ({
            let actions = scheduled(OpEvent::CircuitClose { op }, now);
            &&& actions.len() == 2
            &&& actions[0] is Record
            &&& actions[1] matches ActionModel::ExportSpan(span) && {
                &&& span.name == "circuit_close:"@ + op
                &&& span.start_unix_ms == now
                &&& span.attributes.len() == 0
            }
        }),
        operation_of(OpEvent::Retry { op, attempt }) is RecordRetry,
        operation_of(OpEvent::CircuitOpen { op }) is RecordCircuitOpen,
        operation_of(OpEvent::CircuitClose { op }) is RecordCircuitClose,
{
    text::law_decimal_stands_for_the_number(attempt as nat);
}

/// What a recording call and an action say is what is in their fields.
pub proof fn law_schedule_fields(recording: Recording, action: Action)
    ensures
        recording matches Recording::Retry { op, attempt } ==> recording@ == (OpEvent::Retry {
            op: op@,
            attempt,
        }),
        recording matches Recording::CircuitOpen { op } ==> recording@ == (OpEvent::CircuitOpen {
            op: op@,
        }),
        recording matches Recording::CircuitClose { op } ==> recording@ == (OpEvent::CircuitClose {
            op: op@,
        }),
        action is Record ==> action@ is Record,
        action matches Action::ExportSpan(span) ==> action@ == ActionModel::ExportSpan(span@),
        action matches Action::ExportMetric(metric) ==> action@ == ActionModel::ExportMetric(
            metric@,
        ),
{
}

} // verus!

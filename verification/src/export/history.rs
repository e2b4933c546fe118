//! The laws of an exporting instrumentation over its whole life: whatever calls
//! were made on it since it was new, its counts and its warnings are those that
//! its trace calls for.

use vstd::prelude::*;

use crate::export::diagnostics;
use crate::export::diagnostics::WarningModel;
use crate::export::forwarding;
use crate::export::forwarding::ExportingModel;
use crate::export::trace;
use crate::export::trace::Step;
use crate::export::{
    CallOutcome, ExportDiagnostics, GuardedExporter, MetricModel, Operation, Signal, SpanModel,
};
use crate::instrumentation::{Instrumentation, OpEvent};
use crate::ops;

verus! {

/// One call on an exporting instrumentation.
pub enum HostCall {
    /// A recording call.
    Record(OpEvent),
    /// A flush.
    Flush,
    /// A shutdown.
    Shutdown,
    /// The warnings are taken.
    TakeWarnings,
}

impl<I: Instrumentation, E: GuardedExporter> ExportingModel<I, E> {
    /// Whether nothing has been done yet.
    pub open spec fn is_new(self) -> bool {
        &&& self.diagnostics == ExportDiagnostics::zero()
        &&& self.warnings.len() == 0
        &&& self.trace.len() == 0
    }

    /// Whether the diagnostics are those that the trace calls for.
    pub open spec fn accounts(self) -> bool {
        self.diagnostics == trace::diagnosed(self.trace)
    }

    /// Whether a call may lead to `post`.
    pub open spec fn may_become(self, call: HostCall, post: Self) -> bool {
        match call {
            HostCall::Record(event) => exists|now: u64| #[trigger]
                self.recorded_at(event, now, post),
            HostCall::Flush => exists|outcome: CallOutcome| #[trigger]
                self.flush_settled(outcome, post),
            HostCall::Shutdown => exists|outcome: CallOutcome| #[trigger]
                self.shutdown_settled(outcome, post),
            HostCall::TakeWarnings => post == (ExportingModel { warnings: Seq::empty(), ..self }),
        }
    }
}

/// Whether the states are those that a new instrumentation may go through under
/// the calls: one before each call, and the last one after all.
pub open spec fn history<I: Instrumentation, E: GuardedExporter>(
    states: Seq<ExportingModel<I, E>>,
    calls: Seq<HostCall>,
) -> bool
    decreases calls.len(),
{
    &&& states.len() == calls.len() + 1
    &&& if calls.len() == 0 {
        states[0].is_new()
    } else {
        &&& history(states.drop_last(), calls.drop_last())
        &&& states[states.len() - 2].may_become(calls.last(), states.last())
    }
}

/// The warnings that were taken in a history, in their order.
pub open spec fn taken<I: Instrumentation, E: GuardedExporter>(
    states: Seq<ExportingModel<I, E>>,
    calls: Seq<HostCall>,
) -> Seq<WarningModel>
    decreases calls.len(),
{
    if calls.len() == 0 {
        Seq::empty()
    } else {
        let before = taken(states.drop_last(), calls.drop_last());
        if calls.last() is TakeWarnings {
            before + states[states.len() - 2].warnings
        } else {
            before
        }
    }
}

/// The warnings that a trace calls for beyond those of its first part.
pub open spec fn new_warnings(before: Seq<Step>, after: Seq<Step>) -> Seq<WarningModel> {
    trace::warnings(after).skip(trace::warnings(before).len() as int)
}

/// One call into the exporter, made by a recording call or not, keeps the
/// diagnostics those that the trace calls for.
proof fn lemma_step_accounts(before: Seq<Step>, step: Step)
    ensures
        ({
            let prior = trace::diagnosed(before);
            let next = trace::diagnosed(before.push(step));
            &&& step matches Step::Inner(_) ==> next == prior
            &&& step matches Step::Flush(outcome) ==> next == prior.settled(0, 0, outcome)
            &&& step matches Step::Shutdown(outcome) ==> next == prior.settled(0, 0, outcome)
            &&& step matches Step::Spans { spans, operation, op, outcome } ==> next
                == prior.forwarded(spans.len(), 0, outcome)
            &&& step matches Step::Metrics { metrics, operation, op, outcome } ==> next
                == prior.forwarded(0, metrics.len(), outcome)
        }),
{
    trace::lemma_push(before, step);
    trace::lemma_counts(before);
    trace::lemma_counts(before.push(step));
}

/// A forwarded export of spans keeps the account, and sets aside the warning
/// that the trace calls for.
proof fn lemma_spans_account<I: Instrumentation, E: GuardedExporter>(
    pre: ExportingModel<I, E>,
    span: SpanModel,
    operation: Operation,
    op: Seq<char>,
    outcome: CallOutcome,
    post: ExportingModel<I, E>,
)
    requires
        pre.accounts(),
        pre.spans_forwarded(seq![span], operation, op, outcome, post),
    ensures
        post.accounts(),
        post.warnings == pre.warnings + new_warnings(pre.trace, post.trace),
        trace::warnings(post.trace) == trace::warnings(pre.trace) + new_warnings(
            pre.trace,
            post.trace,
        ),
{
    let step = Step::Spans { spans: seq![span], operation, op, outcome };
    lemma_step_accounts(pre.trace, step);
    lemma_warning(pre.trace, step, outcome, operation, Signal::Spans, op);
    assert(post.warnings =~= pre.warnings + new_warnings(pre.trace, post.trace));
    assert(trace::warnings(post.trace) =~= trace::warnings(pre.trace) + new_warnings(
        pre.trace,
        post.trace,
    ));
}

/// The same of a forwarded export of metrics.
proof fn lemma_metrics_account<I: Instrumentation, E: GuardedExporter>(
    pre: ExportingModel<I, E>,
    metric: MetricModel,
    operation: Operation,
    op: Seq<char>,
    outcome: CallOutcome,
    post: ExportingModel<I, E>,
)
    requires
        pre.accounts(),
        pre.metrics_forwarded(seq![metric], operation, op, outcome, post),
    ensures
        post.accounts(),
        post.warnings == pre.warnings + new_warnings(pre.trace, post.trace),
        trace::warnings(post.trace) == trace::warnings(pre.trace) + new_warnings(
            pre.trace,
            post.trace,
        ),
{
    let step = Step::Metrics { metrics: seq![metric], operation, op, outcome };
    lemma_step_accounts(pre.trace, step);
    lemma_warning(pre.trace, step, outcome, operation, Signal::Metrics, op);
    assert(post.warnings =~= pre.warnings + new_warnings(pre.trace, post.trace));
    assert(trace::warnings(post.trace) =~= trace::warnings(pre.trace) + new_warnings(
        pre.trace,
        post.trace,
    ));
}

/// The warning that the diagnostics of a trace issue about one more call is the
/// one that the longer trace calls for.
proof fn lemma_warning(
    before: Seq<Step>,
    step: Step,
    outcome: CallOutcome,
    operation: Operation,
    signal: Signal,
    op: Seq<char>,
)
    requires
        ({
            ||| step matches Step::Spans { spans, operation: o, op: n, outcome: e } && o == operation
                && n == op && e == outcome && signal is Spans
            ||| step matches Step::Metrics { metrics, operation: o, op: n, outcome: e } && o
                == operation && n == op && e == outcome && signal is Metrics
        }),
    ensures
        trace::warnings(before.push(step)) == match trace::diagnosed(before).forward_warning(
            outcome,
            operation,
            signal,
            op,
        ) {
            Some(warning) => trace::warnings(before).push(warning),
            None => trace::warnings(before),
        },
{
    trace::lemma_push(before, step);
}

/// Every call keeps the diagnostics those that the trace calls for, and sets
/// aside exactly the warnings that the trace newly calls for.
pub proof fn law_call_accounts<I: Instrumentation, E: GuardedExporter>(
    pre: ExportingModel<I, E>,
    call: HostCall,
    post: ExportingModel<I, E>,
)
    requires
        pre.accounts(),
        pre.may_become(call, post),
    ensures
        post.accounts(),
        trace::warnings(post.trace) == trace::warnings(pre.trace) + new_warnings(
            pre.trace,
            post.trace,
        ),
        !(call is TakeWarnings) ==> post.warnings == pre.warnings + new_warnings(
            pre.trace,
            post.trace,
        ),
        call is TakeWarnings ==> post.trace == pre.trace && post.warnings.len() == 0,
{
    match call {
        HostCall::Record(event) => {
            let now = choose|now: u64| #[trigger] pre.recorded_at(event, now, post);
            lemma_recording_accounts(pre, event, now, post);
        },
        HostCall::Flush => {
            let outcome = choose|outcome: CallOutcome| #[trigger] pre.flush_settled(outcome, post);
            lemma_step_accounts(pre.trace, Step::Flush(outcome));
            trace::lemma_push(pre.trace, Step::Flush(outcome));
        },
        HostCall::Shutdown => {
            let outcome = choose|outcome: CallOutcome| #[trigger]
                pre.shutdown_settled(outcome, post);
            lemma_step_accounts(pre.trace, Step::Shutdown(outcome));
            trace::lemma_push(pre.trace, Step::Shutdown(outcome));
        },
        HostCall::TakeWarnings => {},
    }
    if !(call is Record) {
        assert(new_warnings(pre.trace, post.trace) =~= Seq::empty());
        assert(trace::warnings(pre.trace) + new_warnings(pre.trace, post.trace)
            =~= trace::warnings(pre.trace));
        assert(pre.warnings + new_warnings(pre.trace, post.trace) =~= pre.warnings);
    }
}

/// The case of a recording call.
proof fn lemma_recording_accounts<I: Instrumentation, E: GuardedExporter>(
    pre: ExportingModel<I, E>,
    event: OpEvent,
    now: u64,
    post: ExportingModel<I, E>,
)
    requires
        pre.accounts(),
        pre.recorded_at(event, now, post),
    ensures
        post.accounts(),
        post.warnings == pre.warnings + new_warnings(pre.trace, post.trace),
        trace::warnings(post.trace) == trace::warnings(pre.trace) + new_warnings(
            pre.trace,
            post.trace,
        ),
{
    let name = ops::sanitized(event.name());
    let begun = pre.begun(event.renamed(name), post.inner);
    lemma_step_accounts(pre.trace, Step::Inner(event.renamed(name)));
    trace::lemma_push(pre.trace, Step::Inner(event.renamed(name)));
    assert(trace::warnings(begun.trace) == trace::warnings(pre.trace));
    match event {
        OpEvent::Retry { op: _, attempt } => {
            assert(begun.retry_forwarded(name, attempt, now, post));
            let (first, mid, second) = choose|
                first: CallOutcome,
                mid: ExportingModel<I, E>,
                second: CallOutcome,
            | #[trigger]
                begun.spans_forwarded(
                    seq![forwarding::retry_span_model(name, attempt, now)],
                    Operation::RecordRetry,
                    name,
                    first,
                    mid,
                ) && #[trigger] mid.metrics_forwarded(
                    seq![forwarding::retry_metric_model(name, attempt)],
                    Operation::RecordRetry,
                    name,
                    second,
                    post,
                );
            lemma_spans_account(
                begun,
                forwarding::retry_span_model(name, attempt, now),
                Operation::RecordRetry,
                name,
                first,
                mid,
            );
            lemma_metrics_account(
                mid,
                forwarding::retry_metric_model(name, attempt),
                Operation::RecordRetry,
                name,
                second,
                post,
            );
            assert(new_warnings(pre.trace, post.trace) =~= new_warnings(pre.trace, mid.trace)
                + new_warnings(mid.trace, post.trace));
            assert(post.warnings =~= pre.warnings + new_warnings(pre.trace, post.trace));
        },
        OpEvent::CircuitOpen { op: _ } => {
            assert(begun.circuit_open_forwarded(name, now, post));
            let outcome = choose|outcome: CallOutcome| #[trigger]
                begun.spans_forwarded(
                    seq![forwarding::circuit_open_span_model(name, now)],
                    Operation::RecordCircuitOpen,
                    name,
                    outcome,
                    post,
                );
            lemma_spans_account(
                begun,
                forwarding::circuit_open_span_model(name, now),
                Operation::RecordCircuitOpen,
                name,
                outcome,
                post,
            );
        },
        OpEvent::CircuitClose { op: _ } => {
            assert(begun.circuit_close_forwarded(name, now, post));
            let outcome = choose|outcome: CallOutcome| #[trigger]
                begun.spans_forwarded(
                    seq![forwarding::circuit_close_span_model(name, now)],
                    Operation::RecordCircuitClose,
                    name,
                    outcome,
                    post,
                );
            lemma_spans_account(
                begun,
                forwarding::circuit_close_span_model(name, now),
                Operation::RecordCircuitClose,
                name,
                outcome,
                post,
            );
        },
    }
    assert(trace::warnings(post.trace) =~= trace::warnings(pre.trace) + new_warnings(
        pre.trace,
        post.trace,
    ));
}

/// No call lowers a count or clears the saturation flag.
pub proof fn law_call_only_adds<I: Instrumentation, E: GuardedExporter>(
    pre: ExportingModel<I, E>,
    call: HostCall,
    post: ExportingModel<I, E>,
)
    requires
        pre.may_become(call, post),
    ensures
        pre.diagnostics.at_most(post.diagnostics),
{
    match call {
        HostCall::Record(event) => {
            let now = choose|now: u64| #[trigger] pre.recorded_at(event, now, post);
            let name = ops::sanitized(event.name());
            let begun = pre.begun(event.renamed(name), post.inner);
            if let OpEvent::Retry { op: _, attempt } = event {
                assert(begun.retry_forwarded(name, attempt, now, post));
            }
        },
        HostCall::Flush => {},
        HostCall::Shutdown => {},
        HostCall::TakeWarnings => {},
    }
}

/// After any history every count is exact up to `u64::MAX`: the failed calls
/// are all that failed, logged or not, and the failed exports are those that
/// recording calls made, without flushes and shutdowns. The warnings taken and
/// pending are those that the trace calls for, in their order, each once.
pub proof fn law_history_accounts<I: Instrumentation, E: GuardedExporter>(
    states: Seq<ExportingModel<I, E>>,
    calls: Seq<HostCall>,
)
    requires
        history(states, calls),
    ensures
        states.last().accounts(),
        states.last().diagnostics.well_formed(),
        states.last().diagnostics.failed_export_calls == trace::capped(
            trace::failures(states.last().trace),
        ),
        states.last().diagnostics.forward_failures == trace::capped(
            trace::forward_failures(states.last().trace),
        ),
        taken(states, calls) + states.last().warnings == trace::warnings(states.last().trace),
    decreases calls.len(),
{
    let last = states.last();
    if calls.len() == 0 {
        reveal(Seq::filter);
        assert(last.trace =~= Seq::empty());
        assert(last.diagnostics == trace::diagnosed(last.trace));
        assert(taken(states, calls) + last.warnings =~= Seq::empty());
    } else {
        let before = states.drop_last();
        let pre = states[states.len() - 2];
        assert(before.last() == pre);
        law_history_accounts(before, calls.drop_last());
        law_call_accounts(pre, calls.last(), last);
        let earlier = taken(before, calls.drop_last());
        if calls.last() is TakeWarnings {
            assert(taken(states, calls) + last.warnings =~= earlier + pre.warnings);
        } else {
            assert(taken(states, calls) + last.warnings =~= (earlier + pre.warnings)
                + new_warnings(pre.trace, last.trace));
        }
    }
    trace::law_diagnosed_is_well_formed(last.trace);
}

/// After any history, the warnings taken and pending are exactly these: one for
/// each export that a recording call made and that failed, where the number `n`
/// of such failures, that one included, is a power of two (which a count
/// holds); it names the error, the call, the signal, the operation and `n`.
pub proof fn law_history_samples<I: Instrumentation, E: GuardedExporter>(
    states: Seq<ExportingModel<I, E>>,
    calls: Seq<HostCall>,
)
    requires
        history(states, calls),
    ensures
        ({
            let steps = states.last().trace;
            let issued = taken(states, calls) + states.last().warnings;
            &&& forall|k: int|
                0 <= k < steps.len() ==> {
                    let n = trace::forward_failures(#[trigger] steps.take(k + 1));
                    steps[k].forward_failed() && diagnostics::sampled(n) && n <= u64::MAX
                        ==> issued.contains(steps[k].warning(n as u64))
                }
            &&& forall|i: int|
                0 <= i < issued.len() ==> trace::is_about_a_call(steps, #[trigger] issued[i])
            &&& forall|i: int, j: int|
                0 <= i < j < issued.len() ==> (#[trigger] issued[i]).forward_failures
                    < (#[trigger] issued[j]).forward_failures
        }),
{
    let steps = states.last().trace;
    let issued = taken(states, calls) + states.last().warnings;
    law_history_accounts(states, calls);
    assert(issued == trace::warnings(steps));
    trace::law_warnings_are_those_of_the_calls(steps);
    assert forall|k: int| 0 <= k < steps.len() implies {
        let n = trace::forward_failures(#[trigger] steps.take(k + 1));
        steps[k].forward_failed() && diagnostics::sampled(n) && n <= u64::MAX ==> issued.contains(
            steps[k].warning(n as u64),
        )
    } by {
        let upto = steps.take(k + 1);
        assert(upto.last() == steps[k]);
        assert(trace::warning_at(steps, k) is Some <==> trace::warns(upto));
    }
}

/// After any trace, one more export that a recording call makes and that fails
/// is warned about exactly where the number of such failures, this one
/// included, is a power of two. Beyond `u64::MAX` failures there is no more
/// warning. No other call is warned about, and no other call advances the
/// number.
pub proof fn law_warning_iff_power_of_two(before: Seq<Step>, step: Step)
    ensures
        ({
            let n = trace::forward_failures(before) + 1;
            let after = before.push(step);
            &&& step.forward_failed() ==> trace::forward_failures(after) == n
            &&& !step.forward_failed() ==> trace::forward_failures(after)
                == trace::forward_failures(before)
            &&& trace::warnings(after) == if step.forward_failed() && diagnostics::sampled(n) && n
                <= u64::MAX {
                trace::warnings(before).push(step.warning(n as u64))
            } else {
                trace::warnings(before)
            }
        }),
{
    trace::lemma_push(before, step);
}

} // verus!

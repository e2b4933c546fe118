//! Diagnostics of failed exports, and the sampling of the warnings about them.

use vstd::arithmetic::power2::*;
use vstd::prelude::*;

use crate::export::{CallOutcome, ExportError};

verus! {

/// The text of the warning about a failed export.
pub const FORWARD_FAILURE_MESSAGE: &'static str = "内部遥测导出失败";

/// The recording call during which an export failed.
#[derive(Debug, Clone, Copy, PartialEq, Eq, Structural)]
pub enum Operation {
    /// `record_retry`.
    RecordRetry,
    /// `record_circuit_open`.
    RecordCircuitOpen,
    /// `record_circuit_close`.
    RecordCircuitClose,
}

/// The kind of signal that failed to be exported.
#[derive(Debug, Clone, Copy, PartialEq, Eq, Structural)]
pub enum Signal {
    /// Spans.
    Spans,
    /// Metrics.
    Metrics,
}

/// A warning about an export that failed during a recording call, whose caller
/// cannot be told otherwise.
#[derive(Debug, PartialEq, Eq)]
pub struct ForwardWarning {
    /// The error.
    pub error: ExportError,
    /// The recording call.
    pub operation: Operation,
    /// The kind of signal.
    pub signal: Signal,
    /// The cleaned operation name.
    pub op: String,
    /// How many exports have failed in recording calls, this one included.
    pub forward_failures: u64,
}

/// What a [`ForwardWarning`] says.
#[verifier::ext_equal]
pub struct WarningModel {
    pub error: ExportError,
    pub operation: Operation,
    pub signal: Signal,
    pub op: Seq<char>,
    pub forward_failures: u64,
}

/// Counts of the failed calls into an exporter.
#[derive(Debug, Clone, Copy)]
pub struct ExportDiagnostics {
    /// Calls that returned an error or unwound.
    pub failed_export_calls: u64,
    /// Calls that unwound.
    pub panicked_export_calls: u64,
    /// Spans of failed calls.
    pub unconfirmed_spans: u64,
    /// Metrics of failed calls.
    pub unconfirmed_metrics: u64,
    /// Whether a count went beyond what `u64` holds.
    pub counters_saturated: bool,
    /// Failed exports in recording calls, by which the warnings are sampled.
    pub forward_failures: u64,
    /// Warnings that were issued; the other failures were passed over by the
    /// sampling.
    pub logged_forward_failures: u64,
}

/// A snapshot of the diagnostics of an exporting instrumentation.
#[derive(Debug, Clone, Copy, PartialEq, Eq, Structural)]
pub struct ExportingInstrumentationStats {
    /// Calls into the exporter that returned an error or unwound.
    pub failed_export_calls: u64,
    /// Those of them that unwound.
    pub panicked_export_calls: u64,
    /// Spans of failed calls; they are not retried, and whether they were
    /// delivered is not known.
    pub unconfirmed_spans: u64,
    /// Metrics of failed calls; they are not retried, and whether they were
    /// delivered is not known.
    pub unconfirmed_metrics: u64,
    /// Whether a count went beyond what `u64` holds; if so, a saturated value
    /// is a lower bound.
    pub counters_saturated: bool,
}

/// Whether a count goes beyond what `u64` holds when `amount` is added.
pub open spec fn overflows(count: u64, amount: nat) -> bool {
    count + amount > u64::MAX
}

/// A count with `amount` added, held at `u64::MAX`.
pub open spec fn saturated_sum(count: u64, amount: nat) -> u64 {
    if overflows(count, amount) {
        u64::MAX
    } else {
        (count + amount) as u64
    }
}

/// Whether the `n`-th failure is one to warn about: `n` is a power of two.
pub open spec fn sampled(n: nat) -> bool {
    exists|k: nat| n == #[trigger] pow2(k)
}

/// How many of the first `n` failures are ones to warn about.
pub open spec fn samples_up_to(n: nat) -> nat
    decreases n,
{
    if n == 0 {
        0
    } else {
        samples_up_to((n - 1) as nat) + if sampled(n) {
            1nat
        } else {
            0
        }
    }
}

impl ExportDiagnostics {
    /// Diagnostics of which nothing has failed.
    pub open spec fn zero() -> ExportDiagnostics {
        ExportDiagnostics {
            failed_export_calls: 0,
            panicked_export_calls: 0,
            unconfirmed_spans: 0,
            unconfirmed_metrics: 0,
            counters_saturated: false,
            forward_failures: 0,
            logged_forward_failures: 0,
        }
    }

    /// The diagnostics after a call with that many spans and metrics failed.
    pub open spec fn with_failure(
        self,
        spans: nat,
        metrics: nat,
        panicked: bool,
    ) -> ExportDiagnostics {
        let panics: nat = if panicked {
            1
        } else {
            0
        };
        ExportDiagnostics {
            failed_export_calls: saturated_sum(self.failed_export_calls, 1),
            panicked_export_calls: saturated_sum(self.panicked_export_calls, panics),
            unconfirmed_spans: saturated_sum(self.unconfirmed_spans, spans),
            unconfirmed_metrics: saturated_sum(self.unconfirmed_metrics, metrics),
            counters_saturated: self.counters_saturated || overflows(self.failed_export_calls, 1)
                || overflows(self.panicked_export_calls, panics) || overflows(
                self.unconfirmed_spans,
                spans,
            ) || overflows(self.unconfirmed_metrics, metrics),
            ..self
        }
    }

    /// The diagnostics after a call with that many spans and metrics ended.
    pub open spec fn settled(
        self,
        spans: nat,
        metrics: nat,
        outcome: CallOutcome,
    ) -> ExportDiagnostics {
        if outcome.result() is Ok {
            self
        } else {
            self.with_failure(spans, metrics, outcome is Unwound)
        }
    }

    /// Whether one more failed export in a recording call is to be warned
    /// about.
    pub open spec fn samples_next(self) -> bool {
        self.forward_failures < u64::MAX && sampled(self.forward_failures as nat + 1)
    }

    /// The diagnostics after one more failed export in a recording call.
    pub open spec fn with_forward_failure(self) -> ExportDiagnostics {
        let logged: nat = if self.samples_next() {
            1
        } else {
            0
        };
        ExportDiagnostics {
            forward_failures: saturated_sum(self.forward_failures, 1),
            logged_forward_failures: saturated_sum(self.logged_forward_failures, logged),
            counters_saturated: self.counters_saturated || overflows(self.forward_failures, 1)
                || overflows(self.logged_forward_failures, logged),
            ..self
        }
    }

    /// The diagnostics after a call that a recording call made, with that many
    /// spans and metrics, ended.
    pub open spec fn forwarded(
        self,
        spans: nat,
        metrics: nat,
        outcome: CallOutcome,
    ) -> ExportDiagnostics {
        let next = self.settled(spans, metrics, outcome);
        if outcome.result() is Ok {
            next
        } else {
            next.with_forward_failure()
        }
    }

    /// The warning to issue about how such a call ended, if any.
    pub open spec fn forward_warning(
        self,
        outcome: CallOutcome,
        operation: Operation,
        signal: Signal,
        op: Seq<char>,
    ) -> Option<WarningModel> {
        match outcome.result() {
            Err(error) if self.samples_next() => Some(
                WarningModel {
                    error,
                    operation,
                    signal,
                    op,
                    forward_failures: self.with_forward_failure().forward_failures,
                },
            ),
            _ => None,
        }
    }

    /// What holds of diagnostics in every state: no more calls unwound than
    /// failed, no more exports failed in recording calls than failed at all,
    /// the warnings are those that the sampling asks for, and a raised
    /// saturation flag means that one of the reported counts stands at its
    /// maximum.
    pub open spec fn well_formed(self) -> bool {
        &&& self.panicked_export_calls <= self.failed_export_calls
        &&& self.forward_failures <= self.failed_export_calls
        &&& self.logged_forward_failures == samples_up_to(self.forward_failures as nat)
        &&& self.counters_saturated ==> {
            ||| self.failed_export_calls == u64::MAX
            ||| self.panicked_export_calls == u64::MAX
            ||| self.unconfirmed_spans == u64::MAX
            ||| self.unconfirmed_metrics == u64::MAX
        }
    }

    /// Whether no count of these is above that of `next`, and the saturation
    /// flag, once raised, is raised there too.
    pub open spec fn at_most(self, next: ExportDiagnostics) -> bool {
        &&& self.failed_export_calls <= next.failed_export_calls
        &&& self.panicked_export_calls <= next.panicked_export_calls
        &&& self.unconfirmed_spans <= next.unconfirmed_spans
        &&& self.unconfirmed_metrics <= next.unconfirmed_metrics
        &&& self.forward_failures <= next.forward_failures
        &&& self.logged_forward_failures <= next.logged_forward_failures
        &&& self.counters_saturated ==> next.counters_saturated
    }
}

/// Powers of two beyond the first are even, and their halves are powers of two.
proof fn lemma_sampled_half(n: nat)
    ensures
        n == 1 ==> sampled(n),
        n > 1 ==> (sampled(n) <==> n % 2 == 0 && sampled(n / 2)),
        n == 0 ==> !sampled(n),
{
    lemma2_to64();
    if n == 1 {
        assert(n == pow2(0));
    }
    if sampled(n) {
        let k = choose|k: nat| n == #[trigger] pow2(k);
        lemma_pow2_pos(k);
        if n > 1 {
            if k == 0 {
                assert(false);
            }
            lemma_pow2_unfold(k);
            assert(n / 2 == pow2((k - 1) as nat));
        }
    }
    if n > 1 && n % 2 == 0 && sampled(n / 2) {
        let k = choose|k: nat| n / 2 == #[trigger] pow2(k);
        lemma_pow2_unfold(k + 1);
        assert(n == pow2(k + 1));
    }
}

/// The first failure is warned about, and so is every power of two, and between
/// two powers of two none is.
pub proof fn law_powers_of_two_are_sampled(k: nat, n: nat)
    ensures
        sampled(1),
        sampled(pow2(k)),
        pow2(k) < n < pow2(k + 1) ==> !sampled(n),
{
    lemma_sampled_half(1);
    if pow2(k) < n < pow2(k + 1) && sampled(n) {
        let j = choose|j: nat| n == #[trigger] pow2(j);
        if j < k {
            lemma_pow2_strictly_increases(j, k);
        } else if j > k + 1 {
            lemma_pow2_strictly_increases(k + 1, j);
        }
    }
}

/// Between two powers of two no warning is added.
proof fn lemma_samples_between(k: nat, n: nat)
    requires
        pow2(k) <= n < pow2(k + 1),
    ensures
        samples_up_to(n) == samples_up_to(pow2(k)),
    decreases n,
{
    if n > pow2(k) {
        lemma_samples_between(k, (n - 1) as nat);
        law_powers_of_two_are_sampled(k, n);
    }
}

/// Of the first `n` failures, for `n` from the `k`-th power of two up to the
/// next, exactly `k + 1` are warned about: the number of warnings grows with
/// the logarithm of the number of failures.
pub proof fn law_samples_are_logarithmic(k: nat, n: nat)
    requires
        pow2(k) <= n < pow2(k + 1),
    ensures
        samples_up_to(n) == k + 1,
    decreases k,
{
    lemma2_to64();
    lemma_samples_between(k, n);
    if k == 0 {
        lemma_sampled_half(1);
        assert(samples_up_to(0) == 0);
        assert(samples_up_to(1) == 1);
    } else {
        lemma_pow2_unfold(k);
        lemma_pow2_pos((k - 1) as nat);
        let before = (pow2(k) - 1) as nat;
        law_samples_are_logarithmic((k - 1) as nat, before);
        assert(sampled(pow2(k)));
    }
}

/// A failed call, and a failed export in a recording call, keep what holds of
/// the diagnostics in every state. A recording call counts its failed export
/// in both ways.
pub proof fn law_failures_keep_invariant(
    diagnostics: ExportDiagnostics,
    spans: nat,
    metrics: nat,
    panicked: bool,
)
    requires
        diagnostics.well_formed(),
    ensures
        diagnostics.with_failure(spans, metrics, panicked).well_formed(),
        diagnostics.with_failure(spans, metrics, panicked).with_forward_failure().well_formed(),
{
    let next = diagnostics.with_failure(spans, metrics, panicked);
    lemma_samples_bounded(next.forward_failures as nat);
}

/// There are no more warnings than failures.
proof fn lemma_samples_bounded(n: nat)
    ensures
        samples_up_to(n) <= n,
    decreases n,
{
    if n > 0 {
        lemma_samples_bounded((n - 1) as nat);
    }
}

/// No call, however it ends and whoever made it, lowers a count or clears the
/// saturation flag. As long as the flag is down, a failed call adds exactly
/// itself and its events, and, where a recording call made it, one failed
/// export of these.
pub proof fn law_failures_only_add(
    diagnostics: ExportDiagnostics,
    spans: nat,
    metrics: nat,
    outcome: CallOutcome,
)
    ensures
        diagnostics.at_most(diagnostics.settled(spans, metrics, outcome)),
        diagnostics.at_most(diagnostics.forwarded(spans, metrics, outcome)),
        outcome.result() is Ok ==> diagnostics.forwarded(spans, metrics, outcome) == diagnostics,
        ({
            let next = diagnostics.forwarded(spans, metrics, outcome);
            outcome.result() is Err && !next.counters_saturated ==> {
                &&& next.failed_export_calls == diagnostics.failed_export_calls + 1
                &&& next.unconfirmed_spans == diagnostics.unconfirmed_spans + spans
                &&& next.unconfirmed_metrics == diagnostics.unconfirmed_metrics + metrics
                &&& next.panicked_export_calls == diagnostics.panicked_export_calls
                    + if outcome is Unwound {
                    1int
                } else {
                    0
                }
                &&& next.forward_failures == diagnostics.forward_failures + 1
            }
        }),
{
}

impl View for ForwardWarning {
    type V = WarningModel;

    open spec fn view(&self) -> WarningModel {
        WarningModel {
            error: self.error,
            operation: self.operation,
            signal: self.signal,
            op: self.op@,
            forward_failures: self.forward_failures,
        }
    }
}

/// What warnings say.
pub open spec fn warning_models(warnings: Seq<ForwardWarning>) -> Seq<WarningModel> {
    warnings.map_values(|w: ForwardWarning| w@)
}

impl Operation {
    /// The name of the recording call.
    pub open spec fn text(self) -> Seq<char> {
        match self {
            Operation::RecordRetry => "record_retry"@,
            Operation::RecordCircuitOpen => "record_circuit_open"@,
            Operation::RecordCircuitClose => "record_circuit_close"@,
        }
    }

    /// The name of the recording call.
    #[must_use]
    pub fn name(self) -> (r: &'static str)
        ensures
            r@ == self.text(),
    {
        match self {
            Operation::RecordRetry => "record_retry",
            Operation::RecordCircuitOpen => "record_circuit_open",
            Operation::RecordCircuitClose => "record_circuit_close",
        }
    }
}

impl Signal {
    /// The name of the kind of signal.
    pub open spec fn text(self) -> Seq<char> {
        match self {
            Signal::Spans => "spans"@,
            Signal::Metrics => "metrics"@,
        }
    }

    /// The name of the kind of signal.
    #[must_use]
    pub fn name(self) -> (r: &'static str)
        ensures
            r@ == self.text(),
    {
        match self {
            Signal::Spans => "spans",
            Signal::Metrics => "metrics",
        }
    }
}

/// Whether a number is a power of two.
pub fn is_sampled(n: u64) -> (r: bool)
    ensures
        r == sampled(n as nat),
{
    let mut rest: u64 = n;
    proof {
        lemma_sampled_half(n as nat);
    }
    while rest > 1 && rest % 2 == 0
        invariant
            sampled(rest as nat) == sampled(n as nat),
        decreases rest,
    {
        proof {
            lemma_sampled_half(rest as nat);
        }
        rest = rest / 2;
    }
    proof {
        lemma_sampled_half(rest as nat);
    }
    rest == 1
}

impl Default for ExportDiagnostics {
    /// Diagnostics of which nothing has failed.
    fn default() -> (r: Self)
        ensures
            r == ExportDiagnostics::zero(),
            r.well_formed(),
    {
        ExportDiagnostics {
            failed_export_calls: 0,
            panicked_export_calls: 0,
            unconfirmed_spans: 0,
            unconfirmed_metrics: 0,
            counters_saturated: false,
            forward_failures: 0,
            logged_forward_failures: 0,
        }
    }
}

impl ExportDiagnostics {
    /// Adds to a count, holding it at `u64::MAX`, and raises the flag where it
    /// had to be held there.
    fn add(counter: &mut u64, counters_saturated: &mut bool, amount: usize)
        ensures
            *final(counter) == saturated_sum(*old(counter), amount as nat),
            *final(counters_saturated) == (*old(counters_saturated) || overflows(
                *old(counter),
                amount as nat,
            )),
    {
        match counter.checked_add(amount as u64) {
            Some(value) => {
                *counter = value;
            },
            None => {
                *counter = u64::MAX;
                *counters_saturated = true;
            },
        }
    }

    /// Counts a failed call with that many spans and metrics.
    pub fn record_failure(&mut self, spans: usize, metrics: usize, panicked: bool)
        ensures
            *final(self) == old(self).with_failure(spans as nat, metrics as nat, panicked),
    {
        ExportDiagnostics::add(&mut self.failed_export_calls, &mut self.counters_saturated, 1);
        ExportDiagnostics::add(&mut self.unconfirmed_spans, &mut self.counters_saturated, spans);
        ExportDiagnostics::add(
            &mut self.unconfirmed_metrics,
            &mut self.counters_saturated,
            metrics,
        );
        if panicked {
            ExportDiagnostics::add(
                &mut self.panicked_export_calls,
                &mut self.counters_saturated,
                1,
            );
        }
    }

    /// Takes note of how a call with that many spans and metrics ended, and
    /// gives the result for the caller: that of the call, or
    /// [`ExportError::Panicked`] where the call unwound.
    pub fn settle(&mut self, spans: usize, metrics: usize, outcome: CallOutcome) -> (result: Result<
        (),
        ExportError,
    >)
        ensures
            result == outcome.result(),
            *final(self) == old(self).settled(spans as nat, metrics as nat, outcome),
    {
        match outcome {
            CallOutcome::Returned(result) => {
                if result.is_err() {
                    self.record_failure(spans, metrics, false);
                }
                result
            },
            CallOutcome::Unwound => {
                self.record_failure(spans, metrics, true);
                Err(ExportError::Panicked)
            },
        }
    }

    /// Counts a failed export in a recording call, and gives the warning to
    /// issue about it, if the sampling asks for one.
    pub fn forward_failure(
        &mut self,
        error: ExportError,
        operation: Operation,
        signal: Signal,
        op: &str,
    ) -> (r: Option<ForwardWarning>)
        ensures
            *final(self) == old(self).with_forward_failure(),
            r is Some <==> old(self).samples_next(),
            r matches Some(warning) ==> warning@ == (WarningModel {
                error,
                operation,
                signal,
                op: op@,
                forward_failures: final(self).forward_failures,
            }),
    {
        let first_saturated: bool = self.forward_failures == u64::MAX;
        ExportDiagnostics::add(&mut self.forward_failures, &mut self.counters_saturated, 1);
        if !first_saturated && is_sampled(self.forward_failures) {
            ExportDiagnostics::add(
                &mut self.logged_forward_failures,
                &mut self.counters_saturated,
                1,
            );
            Some(
                ForwardWarning {
                    error,
                    operation,
                    signal,
                    op: op.to_owned(),
                    forward_failures: self.forward_failures,
                },
            )
        } else {
            None
        }
    }

    /// Takes note of how a call ended that a recording call made with that many
    /// spans and metrics, and gives the warning to issue about it, if any.
    pub fn settle_forwarded(
        &mut self,
        spans: usize,
        metrics: usize,
        outcome: CallOutcome,
        operation: Operation,
        signal: Signal,
        op: &str,
    ) -> (r: Option<ForwardWarning>)
        ensures
            *final(self) == old(self).forwarded(spans as nat, metrics as nat, outcome),
            r is Some <==> old(self).forward_warning(outcome, operation, signal, op@) is Some,
            r matches Some(warning) ==> old(self).forward_warning(
                outcome,
                operation,
                signal,
                op@,
            ) == Some(warning@),
    {
        match self.settle(spans, metrics, outcome) {
            Ok(()) => None,
            Err(error) => self.forward_failure(error, operation, signal, op),
        }
    }

    /// The counts of failed calls.
    #[must_use]
    pub fn stats(&self) -> (r: ExportingInstrumentationStats)
        ensures
            r == (ExportingInstrumentationStats {
                failed_export_calls: self.failed_export_calls,
                panicked_export_calls: self.panicked_export_calls,
                unconfirmed_spans: self.unconfirmed_spans,
                unconfirmed_metrics: self.unconfirmed_metrics,
                counters_saturated: self.counters_saturated,
            }),
    {
        ExportingInstrumentationStats {
            failed_export_calls: self.failed_export_calls,
            panicked_export_calls: self.panicked_export_calls,
            unconfirmed_spans: self.unconfirmed_spans,
            unconfirmed_metrics: self.unconfirmed_metrics,
            counters_saturated: self.counters_saturated,
        }
    }
}

/// A count goes up by the amount, or, where it cannot hold the sum, to its
/// maximum.
pub proof fn law_counts_stop_at_the_maximum(count: u64, amount: nat)
    ensures
        overflows(count, amount) <==> count + amount > u64::MAX,
        count + amount <= u64::MAX ==> saturated_sum(count, amount) == count + amount,
        count + amount > u64::MAX ==> saturated_sum(count, amount) == u64::MAX,
{
}

/// A number, held at `u64::MAX`.
pub open spec fn at_most_max(n: int) -> int {
    if n <= u64::MAX {
        n
    } else {
        u64::MAX as int
    }
}

/// A failed call counts once, its spans and its metrics count in full, an unwind
/// counts once more, each count up to its maximum, and the flag goes up where
/// one had to be held there. A call that succeeded counts nowhere. The sampling
/// of warnings is not touched.
pub proof fn law_settling_counts(
    diagnostics: ExportDiagnostics,
    spans: nat,
    metrics: nat,
    outcome: CallOutcome,
)
    ensures
        ({
            let next = diagnostics.settled(spans, metrics, outcome);
            let unwound = if outcome is Unwound {
                1int
            } else {
                0
            };
            &&& outcome.result() is Ok ==> next == diagnostics
            &&& outcome.result() is Err ==> {
                &&& next.failed_export_calls == at_most_max(diagnostics.failed_export_calls + 1)
                &&& next.panicked_export_calls == at_most_max(
                    diagnostics.panicked_export_calls + unwound,
                )
                &&& next.unconfirmed_spans == at_most_max(diagnostics.unconfirmed_spans + spans)
                &&& next.unconfirmed_metrics == at_most_max(
                    diagnostics.unconfirmed_metrics + metrics,
                )
                &&& next.counters_saturated <==> {
                    ||| diagnostics.counters_saturated
                    ||| diagnostics.failed_export_calls == u64::MAX
                    ||| diagnostics.panicked_export_calls + unwound > u64::MAX
                    ||| diagnostics.unconfirmed_spans + spans > u64::MAX
                    ||| diagnostics.unconfirmed_metrics + metrics > u64::MAX
                }
            }
            &&& next.forward_failures == diagnostics.forward_failures
            &&& next.logged_forward_failures == diagnostics.logged_forward_failures
        }),
{
}

/// A failed export in a recording call counts, beyond what every failed call
/// does, as one more of these, and its warning, if it has one, as one more
/// warning. It has one exactly where its number is a power of two, and then the
/// warning names the error, the call, the signal, the operation and the number.
pub proof fn law_forwarding_counts(
    diagnostics: ExportDiagnostics,
    spans: nat,
    metrics: nat,
    outcome: CallOutcome,
    operation: Operation,
    signal: Signal,
    op: Seq<char>,
)
    ensures
        ({
            let settled = diagnostics.settled(spans, metrics, outcome);
            let next = diagnostics.forwarded(spans, metrics, outcome);
            let warning = diagnostics.forward_warning(outcome, operation, signal, op);
            let n = diagnostics.forward_failures + 1;
            &&& outcome.result() is Ok ==> next == diagnostics && warning is None
            &&& outcome.result() is Err ==> {
                &&& next.forward_failures == at_most_max(n)
                &&& warning is Some <==> n <= u64::MAX && exists|k: nat| n == #[trigger] pow2(k)
                &&& warning is Some ==> {
                    &&& outcome.result() == Err::<(), ExportError>(warning->0.error)
                    &&& warning->0.operation == operation
                    &&& warning->0.signal == signal
                    &&& warning->0.op == op
                    &&& warning->0.forward_failures == n
                    &&& next.logged_forward_failures == at_most_max(
                        diagnostics.logged_forward_failures + 1,
                    )
                }
                &&& warning is None ==> next.logged_forward_failures
                    == diagnostics.logged_forward_failures
                &&& next.counters_saturated <==> {
                    ||| settled.counters_saturated
                    ||| n > u64::MAX
                    ||| warning is Some && diagnostics.logged_forward_failures == u64::MAX
                }
            }
            &&& next.failed_export_calls == settled.failed_export_calls
            &&& next.panicked_export_calls == settled.panicked_export_calls
            &&& next.unconfirmed_spans == settled.unconfirmed_spans
            &&& next.unconfirmed_metrics == settled.unconfirmed_metrics
        }),
{
}

/// Of new diagnostics every count is zero and the flag is down.
pub proof fn law_new_diagnostics()
    ensures
        ExportDiagnostics::zero().failed_export_calls == 0,
        ExportDiagnostics::zero().panicked_export_calls == 0,
        ExportDiagnostics::zero().unconfirmed_spans == 0,
        ExportDiagnostics::zero().unconfirmed_metrics == 0,
        !ExportDiagnostics::zero().counters_saturated,
        ExportDiagnostics::zero().forward_failures == 0,
        ExportDiagnostics::zero().logged_forward_failures == 0,
{
}

/// What a warning says is what is in its fields, and what warnings say is what
/// each of them says, in its place.
pub proof fn law_warning_fields(warnings: Seq<ForwardWarning>)
    ensures
        warning_models(warnings).len() == warnings.len(),
        forall|i: int|
            0 <= i < warnings.len() ==> {
                let model = #[trigger] warning_models(warnings)[i];
                &&& model.error == warnings[i].error
                &&& model.operation == warnings[i].operation
                &&& model.signal == warnings[i].signal
                &&& model.op == warnings[i].op@
                &&& model.forward_failures == warnings[i].forward_failures
            },
{
}

} // verus!

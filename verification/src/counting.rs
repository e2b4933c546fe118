//! Counting in the process, for assertions in tests; not production metrics.

use vstd::prelude::*;

use crate::instrumentation::{Instrumentation, OpEvent};

verus! {

/// Counts the calls of each kind.
#[derive(Debug)]
pub struct CountingInstrumentation {
    retries: u64,
    opens: u64,
    closes: u64,
    last_attempt: u64,
}

/// The counts of a [`CountingInstrumentation`].
pub struct Counts {
    pub retries: u64,
    pub opens: u64,
    pub closes: u64,
    pub last_attempt: u64,
}

/// The count after one more event; it wraps around at its maximum.
pub open spec fn next(count: u64) -> u64 {
    if count == u64::MAX {
        0
    } else {
        (count + 1) as u64
    }
}

impl Counts {
    /// Counts of which nothing has been recorded.
    pub open spec fn zero() -> Counts {
        Counts { retries: 0, opens: 0, closes: 0, last_attempt: 0 }
    }

    /// The counts after a call: only the count of its kind moves, and a retry
    /// also leaves its attempt number.
    pub open spec fn after(self, event: OpEvent) -> Counts {
        match event {
            OpEvent::Retry { op: _, attempt } => Counts {
                retries: next(self.retries),
                last_attempt: attempt as u64,
                ..self
            },
            OpEvent::CircuitOpen { op: _ } => Counts { opens: next(self.opens), ..self },
            OpEvent::CircuitClose { op: _ } => Counts { closes: next(self.closes), ..self },
        }
    }

    /// The counts after a history of calls.
    pub open spec fn after_all(self, events: Seq<OpEvent>) -> Counts
        decreases events.len(),
    {
        if events.len() == 0 {
            self
        } else {
            self.after_all(events.drop_last()).after(events.last())
        }
    }
}

impl View for CountingInstrumentation {
    type V = Counts;

    closed spec fn view(&self) -> Counts {
        Counts {
            retries: self.retries,
            opens: self.opens,
            closes: self.closes,
            last_attempt: self.last_attempt,
        }
    }
}

/// Counting from zero, each count is the number of calls of its kind, as long
/// as there are few enough calls for a count to hold.
pub proof fn law_counts_are_exact(events: Seq<OpEvent>)
    requires
        events.len() <= u64::MAX,
    ensures
        Counts::zero().after_all(events).retries == events.filter(|e: OpEvent| e is Retry).len(),
        Counts::zero().after_all(events).opens == events.filter(|e: OpEvent| e is CircuitOpen).len(),
        Counts::zero().after_all(events).closes == events.filter(
            |e: OpEvent| e is CircuitClose,
        ).len(),
    decreases events.len(),
{
    reveal(Seq::filter);
    if events.len() > 0 {
        law_counts_are_exact(events.drop_last());
        events.drop_last().lemma_filter_len(|e: OpEvent| e is Retry);
        events.drop_last().lemma_filter_len(|e: OpEvent| e is CircuitOpen);
        events.drop_last().lemma_filter_len(|e: OpEvent| e is CircuitClose);
    }
}

/// The operation name plays no part in the counts.
pub proof fn law_counts_ignore_names(counts: Counts, event: OpEvent, name: Seq<char>)
    ensures
        counts.after(event.renamed(name)) == counts.after(event),
{
}

impl Default for CountingInstrumentation {
    /// All counts at zero.
    fn default() -> (r: Self)
        ensures
            r@ == Counts::zero(),
    {
        CountingInstrumentation { retries: 0, opens: 0, closes: 0, last_attempt: 0 }
    }
}

impl CountingInstrumentation {
    /// All counts at zero.
    #[must_use]
    pub fn new() -> (r: Self)
        ensures
            r@ == Counts::zero(),
    {
        CountingInstrumentation::default()
    }

    /// How many retries were recorded.
    #[must_use]
    pub fn retry_count(&self) -> (r: u64)
        ensures
            r == self@.retries,
    {
        self.retries
    }

    /// How often a circuit breaker opened.
    #[must_use]
    pub fn open_count(&self) -> (r: u64)
        ensures
            r == self@.opens,
    {
        self.opens
    }

    /// How often a circuit breaker closed.
    #[must_use]
    pub fn close_count(&self) -> (r: u64)
        ensures
            r == self@.closes,
    {
        self.closes
    }

    /// The attempt number of the last retry, or zero.
    #[must_use]
    pub fn last_attempt(&self) -> (r: u64)
        ensures
            r == self@.last_attempt,
    {
        self.last_attempt
    }

    /// Sets all counts back to zero.
    pub fn reset(&mut self)
        ensures
            final(self)@ == Counts::zero(),
    {
        self.retries = 0;
        self.opens = 0;
        self.closes = 0;
        self.last_attempt = 0;
    }
}

impl Instrumentation for CountingInstrumentation {
    open spec fn records(&self, event: OpEvent, post: &Self) -> bool {
        post@ == self@.after(event)
    }

    fn record_retry(&mut self, op: &str, attempt: u32) {
        self.retries = self.retries.wrapping_add(1);
        self.last_attempt = attempt as u64;
    }

    fn record_circuit_open(&mut self, op: &str) {
        self.opens = self.opens.wrapping_add(1);
    }

    fn record_circuit_close(&mut self, op: &str) {
        self.closes = self.closes.wrapping_add(1);
    }
}

/// At zero, every count and the last attempt number are zero.
pub proof fn law_zero()
    ensures
        Counts::zero().retries == 0,
        Counts::zero().opens == 0,
        Counts::zero().closes == 0,
        Counts::zero().last_attempt == 0,
{
}

/// One call moves the count of its kind by one, around the end of what 64 bits
/// hold, and leaves the others; a retry, and nothing else, replaces the last
/// attempt number by its own, be that higher or lower.
pub proof fn law_recording_moves_one_count(
    pre: &CountingInstrumentation,
    event: OpEvent,
    post: &CountingInstrumentation,
)
    requires
        pre.records(event, post),
    ensures
        post@.retries == (pre@.retries + if event is Retry {
            1int
        } else {
            0
        }) % 0x1_0000_0000_0000_0000,
        post@.opens == (pre@.opens + if event is CircuitOpen {
            1int
        } else {
            0
        }) % 0x1_0000_0000_0000_0000,
        post@.closes == (pre@.closes + if event is CircuitClose {
            1int
        } else {
            0
        }) % 0x1_0000_0000_0000_0000,
        event is Retry ==> post@.last_attempt == event->attempt,
        !(event is Retry) ==> post@.last_attempt == pre@.last_attempt,
{
}

/// Adding one more, around the end of what 64 bits hold.
proof fn lemma_around(a: int, n: int, m: int)
    requires
        0 <= m <= 1,
    ensures
        ((a + n) % 0x1_0000_0000_0000_0000 + m) % 0x1_0000_0000_0000_0000 == (a + n + m)
            % 0x1_0000_0000_0000_0000,
{
}

/// One more call adds to the number of calls of its kind.
proof fn lemma_filter_last(events: Seq<OpEvent>, kind: spec_fn(OpEvent) -> bool)
    requires
        events.len() > 0,
    ensures
        events.filter(kind).len() == events.drop_last().filter(kind).len() + if kind(
            events.last(),
        ) {
            1int
        } else {
            0
        },
{
    reveal(Seq::filter);
}

/// Whether the states are those that a counting instrumentation goes through
/// under the calls.
pub open spec fn goes_through(
    states: Seq<CountingInstrumentation>,
    events: Seq<OpEvent>,
) -> bool {
    &&& states.len() == events.len() + 1
    &&& forall|i: int|
        0 <= i < events.len() ==> (#[trigger] states[i]).records(events[i], &states[i + 1])
}

/// A history without its last call is a history.
proof fn lemma_history_before(states: Seq<CountingInstrumentation>, events: Seq<OpEvent>)
    requires
        goes_through(states, events),
        events.len() > 0,
    ensures
        goes_through(states.drop_last(), events.drop_last()),
        states.drop_last().last() == states[events.len() - 1],
        states.drop_last()[0] == states[0],
        states[events.len() - 1].records(events.last(), &states.last()),
{
    let init = events.drop_last();
    let before = states.drop_last();
    assert forall|i: int| 0 <= i < init.len() implies (#[trigger] before[i]).records(
        init[i],
        &before[i + 1],
    ) by {
        assert(states[i].records(events[i], &states[i + 1]));
    }
    assert(states[events.len() - 1].records(events[events.len() - 1], &states[events.len() as int]));
}

/// Over any history of calls, from any state, each count moves by the number of
/// calls of its kind, around the end of what 64 bits hold.
pub proof fn law_history_is_counted(states: Seq<CountingInstrumentation>, events: Seq<OpEvent>)
    requires
        goes_through(states, events),
    ensures
        states.last()@.retries == (states[0]@.retries + events.filter(
            |e: OpEvent| e is Retry,
        ).len()) % 0x1_0000_0000_0000_0000,
        states.last()@.opens == (states[0]@.opens + events.filter(
            |e: OpEvent| e is CircuitOpen,
        ).len()) % 0x1_0000_0000_0000_0000,
        states.last()@.closes == (states[0]@.closes + events.filter(
            |e: OpEvent| e is CircuitClose,
        ).len()) % 0x1_0000_0000_0000_0000,
    decreases events.len(),
{
    let retry = |e: OpEvent| e is Retry;
    let open = |e: OpEvent| e is CircuitOpen;
    let close = |e: OpEvent| e is CircuitClose;
    if events.len() == 0 {
        reveal(Seq::filter);
    } else {
        let init = events.drop_last();
        let last = events.last();
        let first = states[0]@;
        let pre = states[events.len() - 1];
        lemma_history_before(states, events);
        law_history_is_counted(states.drop_last(), init);
        law_recording_moves_one_count(&pre, last, &states.last());
        lemma_filter_last(events, retry);
        lemma_filter_last(events, open);
        lemma_filter_last(events, close);
        let one = |b: bool|
            if b {
                1int
            } else {
                0
            };
        lemma_around(first.retries as int, init.filter(retry).len() as int, one(last is Retry));
        lemma_around(first.opens as int, init.filter(open).len() as int, one(last is CircuitOpen));
        lemma_around(
            first.closes as int,
            init.filter(close).len() as int,
            one(last is CircuitClose),
        );
    }
}

/// Over any history of calls, from any state, the last attempt number becomes
/// that of the last retry of the history, or, where there is none, stays what it
/// was before.
pub proof fn law_history_keeps_the_last_attempt(
    states: Seq<CountingInstrumentation>,
    events: Seq<OpEvent>,
)
    requires
        goes_through(states, events),
    ensures
        forall|i: int|
            0 <= i < events.len() && (#[trigger] events[i]) is Retry && (forall|j: int|
                i < j < events.len() ==> !((#[trigger] events[j]) is Retry))
                ==> states.last()@.last_attempt == events[i]->attempt,
        (forall|j: int| 0 <= j < events.len() ==> !((#[trigger] events[j]) is Retry))
            ==> states.last()@.last_attempt == states[0]@.last_attempt,
    decreases events.len(),
{
    if events.len() > 0 {
        let n = events.len() - 1;
        let init = events.drop_last();
        lemma_history_before(states, events);
        law_history_keeps_the_last_attempt(states.drop_last(), init);
        law_recording_moves_one_count(&states[n], events[n], &states.last());
        assert forall|i: int|
            0 <= i < events.len() && (#[trigger] events[i]) is Retry && (forall|j: int|
                i < j < events.len() ==> !((#[trigger] events[j]) is Retry)) implies
            states.last()@.last_attempt == events[i]->attempt by {
            if i < n {
                assert(init[i] is Retry);
                assert(!(events[n] is Retry));
            }
        }
        if forall|j: int| 0 <= j < events.len() ==> !((#[trigger] events[j]) is Retry) {
            assert(!(events[n] is Retry));
            assert forall|j: int| 0 <= j < init.len() implies !((#[trigger] init[j]) is Retry) by {
                assert(init[j] == events[j]);
            }
        }
    }
}

/// The last attempt number after a history from zero is that of its last retry,
/// or zero where it has none.
pub proof fn law_last_attempt_is_of_the_last_retry(events: Seq<OpEvent>)
    ensures
        forall|i: int|
            0 <= i < events.len() && (#[trigger] events[i]) is Retry && (forall|j: int|
                i < j < events.len() ==> !((#[trigger] events[j]) is Retry))
                ==> Counts::zero().after_all(events).last_attempt == events[i]->attempt,
        (forall|j: int| 0 <= j < events.len() ==> !((#[trigger] events[j]) is Retry))
            ==> Counts::zero().after_all(events).last_attempt == 0,
    decreases events.len(),
{
    if events.len() > 0 {
        let n = events.len() - 1;
        let init = events.drop_last();
        law_last_attempt_is_of_the_last_retry(init);
        assert forall|i: int|
            0 <= i < events.len() && (#[trigger] events[i]) is Retry && (forall|j: int|
                i < j < events.len() ==> !((#[trigger] events[j]) is Retry)) implies
            Counts::zero().after_all(events).last_attempt == events[i]->attempt by {
            if i < n {
                assert(init[i] is Retry);
                assert(!(events[n] is Retry));
            }
        }
        if forall|j: int| 0 <= j < events.len() ==> !((#[trigger] events[j]) is Retry) {
            assert(!(events[n] is Retry));
            assert forall|j: int| 0 <= j < init.len() implies !((#[trigger] init[j]) is Retry) by {
                assert(init[j] == events[j]);
            }
        }
    }
}

} // verus!

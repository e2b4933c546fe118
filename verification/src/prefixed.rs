//! A common prefix for operation names.

use vstd::prelude::*;

use crate::instrumentation::{Instrumentation, OpEvent};
use crate::ops;
use crate::ops::sanitize_op;
use crate::text;

verus! {

/// Puts a prefix before every operation name and passes the call on.
#[derive(Debug)]
pub struct PrefixedInstrumentation<I> {
    prefix: String,
    inner: I,
}

/// What a [`PrefixedInstrumentation`] consists of.
pub struct PrefixedModel<I> {
    pub prefix: Seq<char>,
    pub inner: I,
}

impl<I> PrefixedModel<I> {
    /// The prefix is empty or clean.
    pub open spec fn well_formed(self) -> bool {
        self.prefix.len() == 0 || ops::clean(self.prefix)
    }
}

/// The prefix that is kept of a given one: the empty prefix as it is, and any
/// other cleaned like an operation name.
pub open spec fn kept_prefix(prefix: Seq<char>) -> Seq<char> {
    if prefix.len() == 0 {
        prefix
    } else {
        ops::sanitized(prefix)
    }
}

/// The name under which an operation is recorded: its cleaned name, and, with a
/// prefix, the prefix, a dot and that name, cleaned as a whole.
pub open spec fn qualified(prefix: Seq<char>, op: Seq<char>) -> Seq<char> {
    if prefix.len() == 0 {
        ops::sanitized(op)
    } else {
        ops::sanitized(prefix.push('.') + ops::sanitized(op))
    }
}

impl<I> View for PrefixedInstrumentation<I> {
    type V = PrefixedModel<I>;

    closed spec fn view(&self) -> PrefixedModel<I> {
        PrefixedModel { prefix: self.prefix@, inner: self.inner }
    }
}

/// Whatever the prefix and the name, the recorded name is clean.
pub proof fn law_qualified_is_clean(prefix: Seq<char>, op: Seq<char>)
    ensures
        ops::clean(qualified(prefix, op)),
{
    ops::law_sanitized_is_clean(op);
    ops::law_sanitized_is_clean(prefix.push('.') + ops::sanitized(op));
}

/// Where the prefix, the dot and the cleaned name keep to the bound together,
/// the recorded name is exactly these.
pub proof fn law_qualified_joins_short_names(prefix: Seq<char>, op: Seq<char>)
    requires
        ops::clean(prefix),
        text::byte_len(prefix) + 1 + text::byte_len(ops::sanitized(op)) <= ops::MAX_OP_BYTES,
    ensures
        qualified(prefix, op) == prefix.push('.') + ops::sanitized(op),
{
    let name = ops::sanitized(op);
    let whole = prefix.push('.') + name;
    ops::law_sanitized_is_clean(op);
    text::lemma_byte_len_concat(prefix, seq!['.']);
    text::lemma_byte_len_one('.');
    text::lemma_width('.');
    assert(prefix.push('.') =~= prefix + seq!['.']);
    text::lemma_byte_len_concat(prefix.push('.'), name);
    assert forall|i: int| 0 <= i < whole.len() implies !text::control(#[trigger] whole[i]) by {
        if i < prefix.len() {
            assert(whole[i] == prefix[i]);
        } else if i > prefix.len() {
            assert(whole[i] == name[i - prefix.len() - 1]);
        }
    }
    assert(whole.first() == prefix.first());
    assert(whole.last() == name.last());
    ops::law_clean_is_kept(whole);
}

/// The control-free text of a prefixed name is the prefix, the dot and the
/// control-free text of the name.
proof fn lemma_prefixed_parts(prefix: Seq<char>, op: Seq<char>)
    requires
        ops::clean(prefix),
    ensures
        text::without_control(prefix.push('.') + op) == prefix.push('.') + text::without_control(
            op,
        ),
        text::trim(prefix.push('.') + text::without_control(op)) == prefix.push('.')
            + text::trim_end(text::without_control(op)),
{
    let dotted = prefix.push('.');
    let kept = text::without_control(op);
    Seq::filter_distributes_over_add(dotted, op, |c: char| !text::control(c));
    text::lemma_without_control_fixpoint(dotted);
    assert((dotted + kept).first() == prefix.first());
    text::lemma_trim_end_concat(dotted, kept);
}

/// The bound is one on the whole name: the recorded name is the prefix, the dot
/// and the name, trimmed and free of control characters, with `_` for an empty
/// one, cut once.
pub proof fn law_qualified_is_cut_once(prefix: Seq<char>, op: Seq<char>)
    requires
        ops::clean(prefix),
    ensures
        qualified(prefix, op) == ops::truncated(
            prefix.push('.') + ops::normalized(text::trim(text::without_control(op))),
            ops::MAX_OP_BYTES as nat,
        ),
{
    let dotted = prefix.push('.');
    let max = ops::MAX_OP_BYTES as nat;
    let name = ops::sanitized(op);
    let uncut = ops::normalized(text::trim(text::without_control(op)));
    text::lemma_byte_len_one('_');
    text::lemma_width('_');
    assert(name == ops::truncated(uncut, max));
    ops::law_sanitized_is_clean(op);
    lemma_prefixed_parts(prefix, name);
    text::lemma_without_control_fixpoint(name);
    assert(text::trim_end(name) == name);
    ops::law_truncated_once(dotted, uncut, max);
}

/// Recording under a prefix is cleaning the prefix, the dot and the raw name as
/// a whole, unless the name, its control characters aside, is blank or begins
/// with white space.
pub proof fn law_qualified_cleans_the_whole(prefix: Seq<char>, op: Seq<char>)
    requires
        ops::clean(prefix),
        text::without_control(op).len() > 0,
        !text::white_space(text::without_control(op).first()),
    ensures
        qualified(prefix, op) == ops::sanitized(prefix.push('.') + op),
{
    let kept = text::without_control(op);
    law_qualified_is_cut_once(prefix, op);
    lemma_prefixed_parts(prefix, op);
    assert(text::trim_start(kept) == kept);
    text::lemma_trim_end_concat(seq![kept.first()], kept.drop_first());
    assert(seq![kept.first()] + kept.drop_first() =~= kept);
    assert(text::trim(kept).len() > 0);
}

/// Cleaning the recorded name again, as every recorder does that is handed one,
/// changes nothing.
pub proof fn law_qualified_survives_cleaning(prefix: Seq<char>, op: Seq<char>)
    ensures
        ops::sanitized(qualified(prefix, op)) == qualified(prefix, op),
{
    law_qualified_is_clean(prefix, op);
    ops::law_clean_is_kept(qualified(prefix, op));
}

/// Every recording leaves the prefix as it is, and so keeps the invariant.
pub proof fn law_prefix_is_kept<I: Instrumentation>(
    pre: &PrefixedInstrumentation<I>,
    event: OpEvent,
    post: &PrefixedInstrumentation<I>,
)
    requires
        pre@.well_formed(),
        pre.records(event, post),
    ensures
        post@.well_formed(),
        post@.prefix == pre@.prefix,
{
}

impl<I> PrefixedInstrumentation<I> {
    /// Wraps an instrumentation. The prefix is cleaned, unless it is empty.
    #[must_use]
    pub fn new(prefix: &str, inner: I) -> (r: Self)
        ensures
            r@ == (PrefixedModel { prefix: kept_prefix(prefix@), inner }),
            r@.well_formed(),
    {
        proof {
            ops::law_sanitized_is_clean(prefix@);
        }
        let prefix = if prefix.is_empty() {
            prefix.to_owned()
        } else {
            sanitize_op(prefix)
        };
        PrefixedInstrumentation { prefix, inner }
    }

    /// The wrapped instrumentation.
    #[must_use]
    pub fn inner(&self) -> (r: &I)
        ensures
            *r == self@.inner,
    {
        &self.inner
    }

    /// The name under which an operation is recorded.
    #[must_use]
    pub fn qualify(&self, op: &str) -> (r: String)
        ensures
            r@ == qualified(self@.prefix, op@),
    {
        let op = sanitize_op(op);
        if self.prefix.as_str().is_empty() {
            op
        } else {
            let mut whole = self.prefix.clone();
            whole.push('.');
            whole.append(op.as_str());
            sanitize_op(whole.as_str())
        }
    }
}

impl<I: Clone> Clone for PrefixedInstrumentation<I> {
    fn clone(&self) -> (r: Self)
        ensures
            r@.prefix == self@.prefix,
            cloned(self@.inner, r@.inner),
    {
        PrefixedInstrumentation { prefix: self.prefix.clone(), inner: self.inner.clone() }
    }
}

impl<I: Instrumentation> Instrumentation for PrefixedInstrumentation<I> {
    open spec fn records(&self, event: OpEvent, post: &Self) -> bool {
        &&& post@.prefix == self@.prefix
        &&& self@.inner.records(
            event.renamed(qualified(self@.prefix, event.name())),
            &post@.inner,
        )
    }

    fn record_retry(&mut self, op: &str, attempt: u32) {
        let name = self.qualify(op);
        self.inner.record_retry(name.as_str(), attempt);
    }

    fn record_circuit_open(&mut self, op: &str) {
        let name = self.qualify(op);
        self.inner.record_circuit_open(name.as_str());
    }

    fn record_circuit_close(&mut self, op: &str) {
        let name = self.qualify(op);
        self.inner.record_circuit_close(name.as_str());
    }
}

/// A prefix that needs no cleaning is kept as it is handed over, all of it, and
/// so is the empty one.
pub proof fn law_clean_prefix_is_kept(prefix: Seq<char>)
    requires
        prefix.len() > 0 ==> {
            &&& forall|i: int| 0 <= i < prefix.len() ==> !text::control(#[trigger] prefix[i])
            &&& !text::white_space(prefix.first())
            &&& !text::white_space(prefix.last())
            &&& text::byte_len(prefix) <= 128
        },
    ensures
        kept_prefix(prefix) == prefix,
{
    if prefix.len() > 0 {
        ops::law_cleaning_keeps(prefix);
    }
}

/// Any prefix but the empty one is cleaned as an operation name is.
pub proof fn law_prefix_is_cleaned(prefix: Seq<char>)
    ensures
        prefix.len() > 0 ==> kept_prefix(prefix) == ops::sanitized(prefix),
        prefix.len() == 0 ==> kept_prefix(prefix).len() == 0,
{
}

/// With a prefix that needs no cleaning, as it is handed over, an operation is
/// recorded as the prefix, a dot and the cleaned name, as long as these keep to
/// the bound.
pub proof fn law_prefix_dot_name(prefix: Seq<char>, op: Seq<char>)
    requires
        prefix.len() > 0,
        forall|i: int| 0 <= i < prefix.len() ==> !text::control(#[trigger] prefix[i]),
        !text::white_space(prefix.first()),
        !text::white_space(prefix.last()),
        text::byte_len(prefix) + 1 + text::byte_len(ops::sanitized(op)) <= 128,
    ensures
        qualified(kept_prefix(prefix), op) == prefix + seq!['.'] + ops::sanitized(op),
{
    law_clean_prefix_is_kept(prefix);
    law_qualified_joins_short_names(prefix, op);
    assert(prefix.push('.') =~= prefix + seq!['.']);
}

/// With any prefix but the empty one, as it is handed over, an operation is
/// recorded as the cleaned prefix, a dot and the cleaned name, cleaned again as a
/// whole, which cuts the whole once, as if the name had not been cut before;
/// with the empty prefix, as the cleaned name alone.
pub proof fn law_any_prefix_dot_name(prefix: Seq<char>, op: Seq<char>)
    ensures
        prefix.len() == 0 ==> qualified(kept_prefix(prefix), op) == ops::sanitized(op),
        prefix.len() > 0 ==> qualified(kept_prefix(prefix), op) == ops::sanitized(
            ops::sanitized(prefix) + seq!['.'] + ops::sanitized(op),
        ),
        prefix.len() > 0 ==> qualified(kept_prefix(prefix), op) == ops::truncated(
            ops::sanitized(prefix) + seq!['.'] + ops::normalized(
                text::trim(text::without_control(op)),
            ),
            128,
        ),
{
    if prefix.len() > 0 {
        let kept = ops::sanitized(prefix);
        ops::law_sanitized_is_clean(prefix);
        law_qualified_is_cut_once(kept, op);
        assert(kept.push('.') =~= kept + seq!['.']);
    }
}

/// A recording call reaches the wrapped instrumentation as the same kind of
/// call, with the same attempt number, under the recorded name.
pub proof fn law_calls_are_passed_on<I: Instrumentation>(
    pre: &PrefixedInstrumentation<I>,
    op: Seq<char>,
    attempt: u32,
    post: &PrefixedInstrumentation<I>,
)
    ensures
        pre.records(OpEvent::Retry { op, attempt }, post) ==> pre@.inner.records(
            OpEvent::Retry { op: qualified(pre@.prefix, op), attempt },
            &post@.inner,
        ),
        pre.records(OpEvent::CircuitOpen { op }, post) ==> pre@.inner.records(
            OpEvent::CircuitOpen { op: qualified(pre@.prefix, op) },
            &post@.inner,
        ),
        pre.records(OpEvent::CircuitClose { op }, post) ==> pre@.inner.records(
            OpEvent::CircuitClose { op: qualified(pre@.prefix, op) },
            &post@.inner,
        ),
{
}

} // verus!

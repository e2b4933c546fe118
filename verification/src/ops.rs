//! Operation names: cleaning, bounding and joining.
//!
//! [`sanitize_op`] is the one entry through which every recorded name passes.
//! It removes control characters, trims white space, replaces an empty name by
//! `_` and bounds the name to [`MAX_OP_BYTES`] bytes on a character boundary.
//! It neither detects secrets nor checks names against a list: callers keep to
//! a small, stable vocabulary themselves.

use vstd::prelude::*;

use crate::text;

verus! {

/// The bound on the UTF-8 length of a cleaned operation name.
pub const MAX_OP_BYTES: usize = 128;

/// A text bounded to `max` bytes: itself where it fits, and otherwise its
/// longest prefix that leaves room for the mark `~`, followed by the mark.
/// Nothing, not even the mark, fits into zero bytes.
pub open spec fn truncated(s: Seq<char>, max: nat) -> Seq<char> {
    if text::byte_len(s) <= max {
        s
    } else if max == 0 {
        Seq::empty()
    } else {
        text::fitting_prefix(s, max - 1).push('~')
    }
}

/// A cleaned operation name.
pub open spec fn sanitized(op: Seq<char>) -> Seq<char> {
    let trimmed = text::trim(text::without_control(op));
    if trimmed.len() == 0 {
        seq!['_']
    } else {
        truncated(trimmed, MAX_OP_BYTES as nat)
    }
}

/// What it means for an operation name to be clean: it is not empty, has no
/// control characters, neither begins nor ends with white space, and keeps to
/// the bound.
pub open spec fn clean(op: Seq<char>) -> bool {
    &&& op.len() > 0
    &&& forall|i: int| 0 <= i < op.len() ==> !text::control(#[trigger] op[i])
    &&& !text::white_space(op.first())
    &&& !text::white_space(op.last())
    &&& text::byte_len(op) <= MAX_OP_BYTES
}

/// A name in which the empty one is replaced by `_`.
pub open spec fn normalized(op: Seq<char>) -> Seq<char> {
    if op.len() == 0 {
        seq!['_']
    } else {
        op
    }
}

/// The segments, each trimmed, without the empty ones, joined by dots.
pub open spec fn joined(segments: Seq<Seq<char>>) -> Seq<char>
    decreases segments.len(),
{
    if segments.len() == 0 {
        Seq::empty()
    } else {
        let init = joined(segments.drop_last());
        let last = text::trim(segments.last());
        if last.len() == 0 {
            init
        } else if init.len() == 0 {
            last
        } else {
            init.push('.') + last
        }
    }
}

/// The number of segments that dots part the text into.
pub open spec fn segment_count(s: Seq<char>) -> nat {
    s.filter(|c: char| c == '.').len() + 1
}

/// What follows the last dot of the text, or the whole text where it has none.
pub open spec fn last_segment(s: Seq<char>) -> Seq<char>
    decreases s.len(),
{
    if s.len() == 0 || s.last() == '.' {
        Seq::empty()
    } else {
        last_segment(s.drop_last()).push(s.last())
    }
}

/// A truncated text keeps to its bound.
pub proof fn law_truncated_fits(s: Seq<char>, max: nat)
    ensures
        text::byte_len(truncated(s, max)) <= max,
{
    if text::byte_len(s) > max && max > 0 {
        let kept = text::fitting_prefix(s, max - 1);
        text::lemma_fit(s, max - 1);
        text::lemma_byte_len_concat(kept, seq!['~']);
        text::lemma_byte_len_one('~');
        text::lemma_width('~');
        assert(kept.push('~') =~= kept + seq!['~']);
    }
}

/// A text that had to be cut, to any bound but zero, ends with the mark, and
/// before the mark stands the longest prefix of the text that leaves room for
/// it.
pub proof fn law_truncated_is_marked(s: Seq<char>, max: nat)
    requires
        text::byte_len(s) > max,
        max > 0,
    ensures
        truncated(s, max).len() > 0,
        truncated(s, max).last() == '~',
        truncated(s, max).drop_last().is_prefix_of(s),
        text::byte_len(truncated(s, max).drop_last()) <= max - 1,
        forall|p: Seq<char>|
            #[trigger] p.is_prefix_of(s) && text::byte_len(p) <= max - 1 ==> p.len()
                <= truncated(s, max).drop_last().len(),
{
    let kept = text::fitting_prefix(s, max - 1);
    text::lemma_fit(s, max - 1);
    assert(kept.push('~').drop_last() =~= kept);
    assert forall|p: Seq<char>|
        #[trigger] p.is_prefix_of(s) && text::byte_len(p) <= max - 1 implies p.len()
        <= kept.len() by {
        assert(p =~= s.take(p.len() as int));
        if p.len() > kept.len() {
            text::lemma_byte_len_take(p, kept.len() as int + 1);
            assert(p.take(kept.len() as int + 1) =~= s.take(kept.len() as int + 1));
        }
    }
}

/// Cutting a second time to the same bound changes nothing.
pub proof fn law_truncated_idempotent(s: Seq<char>, max: nat)
    ensures
        truncated(truncated(s, max), max) == truncated(s, max),
{
    law_truncated_fits(s, max);
}

/// Cutting the second of two texts before the whole is cut to the same bound
/// makes no difference.
pub proof fn law_truncated_once(a: Seq<char>, b: Seq<char>, max: nat)
    ensures
        truncated(a + truncated(b, max), max) == truncated(a + b, max),
{
    text::lemma_byte_len_concat(a, b);
    if text::byte_len(b) > max && max == 0 {
        assert(a + truncated(b, max) =~= a);
        text::lemma_len_le_byte_len(a);
    } else if text::byte_len(b) > max {
        let limit = max - 1;
        let n = text::fit(b, limit) as int;
        let kept = b.take(n);
        let head = a + kept;
        let cut = a + truncated(b, max);
        let whole = a + b;
        text::lemma_fit(b, limit);
        text::lemma_fit_all(b, limit);
        text::lemma_byte_len_concat(a, kept);
        text::lemma_byte_len_concat(head, seq!['~']);
        text::lemma_byte_len_one('~');
        text::lemma_width('~');
        assert(cut =~= head + seq!['~']);
        assert(cut.take(head.len() as int) =~= head);
        assert(whole.take(head.len() as int) =~= head);
        if text::byte_len(head) > limit {
            text::lemma_fit_head(cut, limit, head.len() as int);
            text::lemma_fit_head(whole, limit, head.len() as int);
        } else {
            text::lemma_byte_len_concat(a, b.take(n + 1));
            assert(whole.take(head.len() as int + 1) =~= a + b.take(n + 1));
            text::lemma_fit_unique(whole, limit, head.len() as int);
            assert(cut =~= head.push('~'));
        }
    }
}

/// Whatever name goes in, the cleaned name is clean.
pub proof fn law_sanitized_is_clean(op: Seq<char>)
    ensures
        clean(sanitized(op)),
{
    let kept = text::without_control(op);
    let trimmed = text::trim(kept);
    text::lemma_without_control(op);
    text::lemma_trim(kept);
    assert forall|i: int| 0 <= i < trimmed.len() implies !text::control(#[trigger] trimmed[i]) by {
        assert(kept.contains(trimmed[i]));
    }
    if trimmed.len() == 0 {
        text::lemma_byte_len_one('_');
        text::lemma_width('_');
    } else {
        law_truncated_fits(trimmed, MAX_OP_BYTES as nat);
        if text::byte_len(trimmed) > MAX_OP_BYTES {
            text::lemma_fit(trimmed, MAX_OP_BYTES - 1);
            text::lemma_width(trimmed.first());
        }
    }
}

/// Cleaning leaves a clean name alone.
pub proof fn law_clean_is_kept(op: Seq<char>)
    requires
        clean(op),
    ensures
        sanitized(op) == op,
{
    text::lemma_without_control_fixpoint(op);
    text::lemma_trim_fixpoint(op);
}

/// Cleaning a second time changes nothing.
pub proof fn law_sanitized_idempotent(op: Seq<char>)
    ensures
        sanitized(sanitized(op)) == sanitized(op),
{
    law_sanitized_is_clean(op);
    law_clean_is_kept(sanitized(op));
}

/// A name is clean exactly where cleaning leaves it alone.
pub proof fn law_clean_iff_kept(op: Seq<char>)
    ensures
        clean(op) <==> sanitized(op) == op,
{
    law_sanitized_is_clean(op);
    if clean(op) {
        law_clean_is_kept(op);
    }
}

/// A name of nothing but control characters and white space becomes `_`.
pub proof fn law_blank_falls_back(op: Seq<char>)
    requires
        forall|i: int|
            0 <= i < op.len() ==> text::control(#[trigger] op[i]) || text::white_space(op[i]),
    ensures
        sanitized(op) == seq!['_'],
{
    let kept = text::without_control(op);
    text::lemma_without_control(op);
    text::lemma_trim(kept);
    if text::trim(kept).len() > 0 {
        let c = text::trim(kept).first();
        assert(kept.contains(text::trim(kept)[0]));
        let i = choose|i: int| 0 <= i < kept.len() && kept[i] == c;
        assert(!text::control(kept[i]));
        op.lemma_filter_contains_rev(|x: char| !text::control(x), c);
        assert(op.contains(c));
    }
}

/// The last segment ends the text, has no dot in it, and is the whole text or
/// follows a dot.
pub proof fn law_last_segment(s: Seq<char>)
    ensures
        last_segment(s).is_suffix_of(s),
        !last_segment(s).contains('.'),
        last_segment(s) == s || s[s.len() - last_segment(s).len() - 1] == '.',
    decreases s.len(),
{
    if s.len() > 0 && s.last() != '.' {
        let rest = s.drop_last();
        law_last_segment(rest);
        assert(s =~= rest.push(s.last()));
        assert(last_segment(s).drop_last() =~= last_segment(rest));
        assert forall|i: int| 0 <= i < last_segment(s).len() implies last_segment(s)[i] != '.' by {
            if i < last_segment(rest).len() {
                assert(last_segment(rest).contains(last_segment(rest)[i]));
            }
        }
    }
}

/// Joining segments that are trimmed, not empty and without dots keeps their
/// number and the last of them.
pub proof fn law_joined_keeps_segments(segments: Seq<Seq<char>>)
    requires
        segments.len() > 0,
        forall|i: int|
            0 <= i < segments.len() ==> {
                &&& #[trigger] segments[i].len() > 0
                &&& text::trim(segments[i]) == segments[i]
                &&& !segments[i].contains('.')
            },
    ensures
        joined(segments).len() > 0,
        segment_count(joined(segments)) == segments.len(),
        last_segment(joined(segments)) == segments.last(),
    decreases segments.len(),
{
    let dot = |c: char| c == '.';
    let last = segments.last();
    let init = segments.drop_last();
    assert(last == segments[segments.len() - 1]);
    lemma_dotless(last);
    if init.len() == 0 {
        assert(joined(init).len() == 0);
        lemma_last_segment_concat(Seq::empty(), last);
        assert(Seq::<char>::empty() + last =~= last);
    } else {
        assert forall|i: int| 0 <= i < init.len() implies {
            &&& #[trigger] init[i].len() > 0
            &&& text::trim(init[i]) == init[i]
            &&& !init[i].contains('.')
        } by {
            assert(init[i] == segments[i]);
        }
        law_joined_keeps_segments(init);
        let dotted = joined(init).push('.');
        Seq::filter_distributes_over_add(dotted, last, dot);
        reveal(Seq::filter);
        assert(dotted.drop_last() =~= joined(init));
        lemma_last_segment_concat(dotted, last);
    }
}

/// A text without dots has no dot to filter out.
proof fn lemma_dotless(s: Seq<char>)
    requires
        !s.contains('.'),
    ensures
        s.filter(|c: char| c == '.').len() == 0,
    decreases s.len(),
{
    reveal(Seq::filter);
    if s.len() > 0 {
        assert forall|i: int| 0 <= i < s.len() - 1 implies s.drop_last()[i] != '.' by {
            assert(s.contains(s[i]));
        }
        assert(s.contains(s.last()));
        lemma_dotless(s.drop_last());
    }
}

/// A text without dots, put behind a dot or nothing, is the last segment.
proof fn lemma_last_segment_concat(a: Seq<char>, b: Seq<char>)
    requires
        a.len() == 0 || a.last() == '.',
        !b.contains('.'),
    ensures
        last_segment(a + b) == b,
    decreases b.len(),
{
    if b.len() == 0 {
        assert(a + b =~= a);
    } else {
        assert forall|i: int| 0 <= i < b.len() - 1 implies b.drop_last()[i] != '.' by {
            assert(b.contains(b[i]));
        }
        assert(b.contains(b.last()));
        assert((a + b).drop_last() =~= a + b.drop_last());
        lemma_last_segment_concat(a, b.drop_last());
        assert(b.drop_last().push(b.last()) =~= b);
    }
}

/// Cuts characters to `max_bytes` bytes.
fn truncate_chars(chars: &[char], max_bytes: usize) -> (r: String)
    ensures
        r@ == truncated(chars@, max_bytes as nat),
{
    proof {
        text::lemma_fit_all(chars@, max_bytes as int);
    }
    if text::fitting_count(chars, max_bytes) == chars.len() {
        return text::string_of(chars);
    }
    if max_bytes == 0 {
        return String::new();
    }
    let kept: usize = text::fitting_count(chars, max_bytes - 1);
    let mut out = text::string_of(vstd::slice::slice_subrange(chars, 0, kept));
    assert(chars@.subrange(0, kept as int) =~= chars@.take(kept as int));
    out.push('~');
    out
}

/// Bounds a name to `max_bytes` bytes, cutting it on a character boundary and
/// marking the cut with `~`.
#[must_use]
pub fn truncate_op(op: &str, max_bytes: usize) -> (r: String)
    ensures
        r@ == truncated(op@, max_bytes as nat),
{
    let chars = text::chars_of(op);
    truncate_chars(chars.as_slice(), max_bytes)
}

/// Cleans an operation name.
#[must_use]
pub fn sanitize_op(op: &str) -> (r: String)
    ensures
        r@ == sanitized(op@),
{
    let kept = text::printable_chars(op);
    let trimmed = text::trimmed(kept.as_slice());
    if trimmed.len() == 0 {
        let mut out = String::new();
        out.push('_');
        assert(out@ =~= seq!['_']);
        out
    } else {
        truncate_chars(trimmed, MAX_OP_BYTES)
    }
}

/// Whether a name is clean as it stands.
#[must_use]
pub fn is_friendly_op(op: &str) -> (r: bool)
    ensures
        r == clean(op@),
{
    proof {
        law_clean_iff_kept(op@);
    }
    sanitize_op(op) == op.to_owned()
}

/// The name itself, or `_` where it is empty.
#[must_use]
pub fn normalize_op(op: &str) -> (r: &str)
    ensures
        r@ == normalized(op@),
{
    if op.is_empty() {
        proof {
            reveal_strlit("_");
            assert("_"@ =~= seq!['_']);
        }
        "_"
    } else {
        op
    }
}

/// Joins name segments by dots; a segment is trimmed, and left out where
/// nothing remains of it.
#[must_use]
pub fn join_op_segments(segments: &[&str]) -> (r: String)
    ensures
        r@ == joined(segments@.map_values(|s: &str| s@)),
{
    let ghost all = segments@.map_values(|s: &str| s@);
    let mut out = String::new();
    let mut i: usize = 0;
    while i < segments.len()
        invariant
            i <= segments@.len(),
            all == segments@.map_values(|s: &str| s@),
            out@ == joined(all.take(i as int)),
        decreases segments@.len() - i,
    {
        let chars = text::chars_of(segments[i]);
        let part = text::trimmed(chars.as_slice());
        proof {
            assert(all.take(i + 1).drop_last() =~= all.take(i as int));
            assert(all.take(i + 1).last() == segments@[i as int]@);
        }
        if part.len() > 0 {
            let piece = text::string_of(part);
            if out.as_str().is_empty() {
                out = piece;
            } else {
                out.push('.');
                out.append(piece.as_str());
            }
        }
        i += 1;
    }
    assert(all.take(i as int) =~= all);
    out
}

/// The number of dot-separated segments of the cleaned name.
#[must_use]
pub fn op_depth(op: &str) -> (r: usize)
    ensures
        r == segment_count(sanitized(op@)),
{
    let ghost dot = |c: char| c == '.';
    let op_clean = sanitize_op(op);
    let chars = text::chars_of(op_clean.as_str());
    proof {
        law_sanitized_is_clean(op@);
        text::lemma_len_le_byte_len(chars@);
        reveal(Seq::filter);
        assert(chars@.take(0) =~= Seq::<char>::empty());
    }
    let mut dots: usize = 0;
    let mut i: usize = 0;
    while i < chars.len()
        invariant
            i <= chars@.len() <= MAX_OP_BYTES,
            dot == (|c: char| c == '.'),
            dots == chars@.take(i as int).filter(dot).len(),
            dots <= i,
        decreases chars@.len() - i,
    {
        proof {
            reveal(Seq::filter);
            assert(chars@.take(i + 1).drop_last() =~= chars@.take(i as int));
        }
        if chars[i] == '.' {
            dots += 1;
        }
        i += 1;
    }
    assert(chars@.take(i as int) =~= chars@);
    dots + 1
}

/// The last dot-separated segment of the cleaned name, or `_` where that
/// segment is empty.
#[must_use]
pub fn op_leaf(op: &str) -> (r: String)
    ensures
        r@ == normalized(last_segment(sanitized(op@))),
{
    let op_clean = sanitize_op(op);
    let chars = text::chars_of(op_clean.as_str());
    let mut from: usize = chars.len();
    assert(chars@.skip(from as int) =~= Seq::<char>::empty());
    assert(chars@.take(from as int) =~= chars@);
    while from > 0 && chars[from - 1] != '.'
        invariant
            from <= chars@.len(),
            last_segment(chars@) == last_segment(chars@.take(from as int)) + chars@.skip(
                from as int,
            ),
        decreases from,
    {
        proof {
            let head = chars@.take(from as int);
            assert(head.drop_last() =~= chars@.take(from - 1));
            assert(last_segment(chars@.take(from - 1)).push(head.last()) + chars@.skip(from as int)
                =~= last_segment(chars@.take(from - 1)) + chars@.skip(from - 1));
        }
        from -= 1;
    }
    assert(last_segment(chars@) =~= chars@.skip(from as int));
    if from == chars.len() {
        let mut out = String::new();
        out.push('_');
        assert(out@ =~= seq!['_']);
        out
    } else {
        assert(chars@.subrange(from as int, chars@.len() as int) =~= chars@.skip(from as int));
        text::string_of(vstd::slice::slice_subrange(chars.as_slice(), from, chars.len()))
    }
}

/// A text that keeps to the bound is not cut at all.
pub proof fn law_fitting_is_not_cut(s: Seq<char>, max: nat)
    requires
        text::byte_len(s) <= max,
    ensures
        truncated(s, max) == s,
{
}

/// Cleaning does not touch a name that is not empty, has no control characters,
/// neither begins nor ends with white space and takes at most 128 bytes, dots
/// and inner white space included.
pub proof fn law_cleaning_keeps(op: Seq<char>)
    requires
        op.len() > 0,
        forall|i: int| 0 <= i < op.len() ==> !text::control(#[trigger] op[i]),
        !text::white_space(op.first()),
        !text::white_space(op.last()),
        text::byte_len(op) <= 128,
    ensures
        sanitized(op) == op,
{
    law_clean_is_kept(op);
}

/// A name that takes more than 128 bytes, and needs no other cleaning, becomes
/// its longest prefix of at most 127 bytes and the mark.
pub proof fn law_cleaning_cuts(op: Seq<char>)
    requires
        op.len() > 0,
        forall|i: int| 0 <= i < op.len() ==> !text::control(#[trigger] op[i]),
        !text::white_space(op.first()),
        !text::white_space(op.last()),
        text::byte_len(op) > 128,
    ensures
        sanitized(op).len() > 0,
        sanitized(op).last() == '~',
        sanitized(op).drop_last().is_prefix_of(op),
        text::byte_len(sanitized(op).drop_last()) <= 127,
        forall|p: Seq<char>|
            #[trigger] p.is_prefix_of(op) && text::byte_len(p) <= 127 ==> p.len()
                <= sanitized(op).drop_last().len(),
{
    text::lemma_without_control_fixpoint(op);
    text::lemma_trim_fixpoint(op);
    law_truncated_is_marked(op, 128);
}

/// A control character, wherever it stands in a name, makes no difference to
/// the cleaned name.
pub proof fn law_cleaning_ignores_control(a: Seq<char>, c: char, b: Seq<char>)
    requires
        text::control(c),
    ensures
        sanitized(a.push(c) + b) == sanitized(a + b),
{
    let keep = |x: char| !text::control(x);
    Seq::filter_distributes_over_add(a.push(c), b, keep);
    Seq::filter_distributes_over_add(a, b, keep);
    text::law_without_control_by_character(a, c);
}

/// White space before or behind a name makes no difference to the cleaned name.
pub proof fn law_cleaning_ignores_outer_white_space(op: Seq<char>, w: char)
    requires
        text::white_space(w),
    ensures
        sanitized(op.push(w)) == sanitized(op),
        sanitized(seq![w] + op) == sanitized(op),
{
    let keep = |x: char| !text::control(x);
    let kept = text::without_control(op);
    text::law_without_control_by_character(op, w);
    text::law_without_control_by_character(Seq::empty(), w);
    Seq::filter_distributes_over_add(seq![w], op, keep);
    assert(Seq::<char>::empty().push(w) =~= seq![w]);
    assert(Seq::<char>::empty() + kept =~= kept);
    text::law_trim_ignores_outer_white_space(kept, w);
}

/// The empty name becomes `_`, and every other name stays.
pub proof fn law_normalized(op: Seq<char>)
    ensures
        op.len() == 0 ==> normalized(op) == seq!['_'],
        op.len() > 0 ==> normalized(op) == op,
{
}

/// Joining one segment trims it.
pub proof fn law_joined_one(s: Seq<char>)
    ensures
        joined(Seq::empty()) == Seq::<char>::empty(),
        joined(seq![s]) == text::trim(s),
{
    assert(seq![s].drop_last() =~= Seq::empty());
    assert(joined(seq![s].drop_last()) == Seq::<char>::empty());
    assert(text::trim(s).len() == 0 ==> text::trim(s) =~= Seq::empty());
}

/// Joining two lists of segments puts a dot between what the lists join to,
/// unless one of these is empty.
pub proof fn law_joined_concat(a: Seq<Seq<char>>, b: Seq<Seq<char>>)
    ensures
        joined(a).len() == 0 ==> joined(a + b) == joined(b),
        joined(b).len() == 0 ==> joined(a + b) == joined(a),
        joined(a).len() > 0 && joined(b).len() > 0 ==> joined(a + b) == joined(a) + seq!['.']
            + joined(b),
    decreases b.len(),
{
    if b.len() == 0 {
        assert(a + b =~= a);
        assert(joined(a).len() == 0 ==> joined(a) =~= joined(b));
    } else {
        let init = b.drop_last();
        let last = text::trim(b.last());
        law_joined_concat(a, init);
        assert((a + b).drop_last() =~= a + init);
        assert((a + b).last() == b.last());
        if last.len() > 0 {
            if joined(a).len() > 0 && joined(init).len() > 0 {
                assert(joined(a + b) =~= joined(a) + seq!['.'] + joined(b));
            } else if joined(a).len() > 0 {
                assert(joined(a + b) =~= joined(a) + seq!['.'] + joined(b));
            }
        }
    }
}

/// A text without dots is one segment, and a dot between two texts adds their
/// segments up.
pub proof fn law_segment_count(a: Seq<char>, b: Seq<char>)
    ensures
        !a.contains('.') ==> segment_count(a) == 1,
        segment_count(a.push('.') + b) == segment_count(a) + segment_count(b),
{
    let dot = |c: char| c == '.';
    if !a.contains('.') {
        lemma_dotless(a);
    }
    Seq::filter_distributes_over_add(a.push('.'), b, dot);
    reveal(Seq::filter);
    assert(a.push('.').drop_last() =~= a);
}

} // verus!

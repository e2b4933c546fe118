//! Character-level text handling: character classes, UTF-8 lengths, trimming,
//! length-bounded prefixes and decimal numerals.
//!
//! Text is modelled as a sequence of characters. Byte lengths are those of the
//! UTF-8 encoding of such a sequence.

use vstd::prelude::*;
use vstd::slice::*;
use vstd::utf8::*;

verus! {

/// `String::push` appends the given character to the end of the string.
pub assume_specification[ String::push ](s: &mut String, ch: char)
    ensures
        final(s)@ == old(s)@.push(ch),
;

/// The control codes: the characters of the Unicode general category `Cc`.
pub open spec fn control(c: char) -> bool {
    c <= '\u{1f}' || '\u{7f}' <= c <= '\u{9f}'
}

/// The characters with the Unicode property `White_Space`.
pub open spec fn white_space(c: char) -> bool {
    ||| '\u{9}' <= c <= '\u{d}'
    ||| c == '\u{20}'
    ||| c == '\u{85}'
    ||| c == '\u{a0}'
    ||| c == '\u{1680}'
    ||| '\u{2000}' <= c <= '\u{200a}'
    ||| c == '\u{2028}'
    ||| c == '\u{2029}'
    ||| c == '\u{202f}'
    ||| c == '\u{205f}'
    ||| c == '\u{3000}'
}

/// The number of bytes of a character in UTF-8.
pub open spec fn width(c: char) -> nat {
    encode_scalar(c as u32).len()
}

/// The number of bytes of a text in UTF-8.
pub open spec fn byte_len(s: Seq<char>) -> nat {
    encode_utf8(s).len()
}

/// The text without its control characters.
pub open spec fn without_control(s: Seq<char>) -> Seq<char> {
    s.filter(|c: char| !control(c))
}

/// The text without the white space that it begins with.
pub open spec fn trim_start(s: Seq<char>) -> Seq<char>
    decreases s.len(),
{
    if s.len() > 0 && white_space(s.first()) {
        trim_start(s.drop_first())
    } else {
        s
    }
}

/// The text without the white space that it ends with.
pub open spec fn trim_end(s: Seq<char>) -> Seq<char>
    decreases s.len(),
{
    if s.len() > 0 && white_space(s.last()) {
        trim_end(s.drop_last())
    } else {
        s
    }
}

/// The text without the white space at its two ends.
pub open spec fn trim(s: Seq<char>) -> Seq<char> {
    trim_end(trim_start(s))
}

/// How many of the first characters of the text fit into `limit` bytes.
pub open spec fn fit(s: Seq<char>, limit: int) -> nat
    decreases s.len(),
{
    if s.len() > 0 && width(s.first()) <= limit {
        1 + fit(s.drop_first(), limit - width(s.first()))
    } else {
        0
    }
}

/// The longest prefix of the text that fits into `limit` bytes.
pub open spec fn fitting_prefix(s: Seq<char>, limit: int) -> Seq<char> {
    s.take(fit(s, limit) as int)
}

/// The character of a decimal digit.
pub open spec fn digit(d: nat) -> char {
    (48 + d) as char
}

/// The decimal numeral of a number, without leading zeros.
pub open spec fn decimal(n: nat) -> Seq<char>
    decreases n,
{
    if n < 10 {
        seq![digit(n)]
    } else {
        decimal(n / 10).push(digit(n % 10))
    }
}

/// Every character takes between one and four bytes.
pub proof fn lemma_width(c: char)
    ensures
        1 <= width(c) <= 4,
        width(c) == (if c <= '\u{7f}' {
            1nat
        } else if c <= '\u{7ff}' {
            2
        } else if c <= '\u{ffff}' {
            3
        } else {
            4
        }),
{
}

/// A text is as long as its first character and the rest together.
pub proof fn lemma_byte_len_first(s: Seq<char>)
    requires
        s.len() > 0,
    ensures
        byte_len(s) == width(s.first()) + byte_len(s.drop_first()),
{
}

/// The lengths of two texts add up to that of their concatenation.
pub proof fn lemma_byte_len_concat(a: Seq<char>, b: Seq<char>)
    ensures
        byte_len(a + b) == byte_len(a) + byte_len(b),
    decreases a.len(),
{
    if a.len() == 0 {
        assert(a + b =~= b);
    } else {
        lemma_byte_len_first(a);
        lemma_byte_len_first(a + b);
        assert((a + b).drop_first() =~= a.drop_first() + b);
        lemma_byte_len_concat(a.drop_first(), b);
    }
}

/// A text has at most as many characters as bytes.
pub proof fn lemma_len_le_byte_len(s: Seq<char>)
    ensures
        s.len() <= byte_len(s),
    decreases s.len(),
{
    if s.len() > 0 {
        lemma_byte_len_first(s);
        lemma_width(s.first());
        lemma_len_le_byte_len(s.drop_first());
    }
}

/// A text of one character takes the bytes of that character.
pub proof fn lemma_byte_len_one(c: char)
    ensures
        byte_len(seq![c]) == width(c),
{
    lemma_byte_len_first(seq![c]);
    assert(seq![c].drop_first() =~= Seq::<char>::empty());
}

/// The fitting prefix fits, and one more character would not.
pub proof fn lemma_fit(s: Seq<char>, limit: int)
    requires
        0 <= limit,
    ensures
        fit(s, limit) <= s.len(),
        byte_len(s.take(fit(s, limit) as int)) <= limit,
        fit(s, limit) < s.len() ==> byte_len(s.take(fit(s, limit) as int + 1)) > limit,
    decreases s.len(),
{
    if s.len() > 0 && width(s.first()) <= limit {
        let rest = s.drop_first();
        let k = fit(rest, limit - width(s.first())) as int;
        lemma_fit(rest, limit - width(s.first()));
        lemma_byte_len_first(s.take(k + 1));
        assert(s.take(k + 1).drop_first() =~= rest.take(k));
        if k + 1 < s.len() {
            lemma_byte_len_first(s.take(k + 2));
            assert(s.take(k + 2).drop_first() =~= rest.take(k + 1));
        }
    } else {
        assert(s.take(0) =~= Seq::<char>::empty());
        if s.len() > 0 {
            lemma_byte_len_first(s.take(1));
            assert(s.take(1).drop_first() =~= Seq::<char>::empty());
        }
    }
}

/// A prefix of a text is no longer than the text.
pub proof fn lemma_byte_len_take(s: Seq<char>, k: int)
    requires
        0 <= k <= s.len(),
    ensures
        byte_len(s.take(k)) <= byte_len(s),
{
    assert(s.take(k) + s.skip(k) =~= s);
    lemma_byte_len_concat(s.take(k), s.skip(k));
}

/// Everything fits exactly where the whole text fits.
pub proof fn lemma_fit_all(s: Seq<char>, limit: int)
    requires
        0 <= limit,
    ensures
        fit(s, limit) == s.len() <==> byte_len(s) <= limit,
{
    lemma_fit(s, limit);
    let k = fit(s, limit) as int;
    assert(s.take(s.len() as int) =~= s);
    if k < s.len() {
        lemma_byte_len_take(s, k + 1);
    }
}

/// Only one prefix fits while one more character would not.
pub proof fn lemma_fit_unique(s: Seq<char>, limit: int, k: int)
    requires
        0 <= limit,
        0 <= k <= s.len(),
        byte_len(s.take(k)) <= limit,
        k < s.len() ==> byte_len(s.take(k + 1)) > limit,
    ensures
        fit(s, limit) == k,
{
    let n = fit(s, limit) as int;
    lemma_fit(s, limit);
    if n < k {
        assert(s.take(k).take(n + 1) =~= s.take(n + 1));
        lemma_byte_len_take(s.take(k), n + 1);
    } else if k < n {
        assert(s.take(n).take(k + 1) =~= s.take(k + 1));
        lemma_byte_len_take(s.take(n), k + 1);
    }
}

/// What fits of a text shows already in a head of the text that does not fit.
pub proof fn lemma_fit_head(s: Seq<char>, limit: int, k: int)
    requires
        0 <= limit,
        0 <= k <= s.len(),
        byte_len(s.take(k)) > limit,
    ensures
        fitting_prefix(s, limit) == fitting_prefix(s.take(k), limit),
{
    let head = s.take(k);
    let n = fit(head, limit) as int;
    lemma_fit(head, limit);
    lemma_fit_all(head, limit);
    assert(head.take(n) =~= s.take(n));
    assert(head.take(n + 1) =~= s.take(n + 1));
    lemma_fit_unique(s, limit, n);
}

/// What is left after dropping leading white space is a tail of the text that
/// does not begin with white space.
pub proof fn lemma_trim_start(s: Seq<char>)
    ensures
        trim_start(s).len() <= s.len(),
        trim_start(s) == s.skip(s.len() - trim_start(s).len()),
        trim_start(s).len() > 0 ==> !white_space(trim_start(s).first()),
    decreases s.len(),
{
    if s.len() > 0 && white_space(s.first()) {
        let rest = s.drop_first();
        lemma_trim_start(rest);
        assert(rest.skip(rest.len() - trim_start(rest).len()) =~= s.skip(
            s.len() - trim_start(s).len(),
        ));
    } else {
        assert(s.skip(0) =~= s);
    }
}

/// What is left after dropping trailing white space is a head of the text that
/// does not end with white space.
pub proof fn lemma_trim_end(s: Seq<char>)
    ensures
        trim_end(s).len() <= s.len(),
        trim_end(s) == s.take(trim_end(s).len() as int),
        trim_end(s).len() > 0 ==> !white_space(trim_end(s).last()),
    decreases s.len(),
{
    if s.len() > 0 && white_space(s.last()) {
        let rest = s.drop_last();
        lemma_trim_end(rest);
        assert(rest.take(trim_end(rest).len() as int) =~= s.take(trim_end(s).len() as int));
    } else {
        assert(s.take(s.len() as int) =~= s);
    }
}

/// A trimmed text neither begins nor ends with white space, and its characters
/// are those of the text.
pub proof fn lemma_trim(s: Seq<char>)
    ensures
        trim(s).len() <= s.len(),
        trim(s).len() > 0 ==> !white_space(trim(s).first()) && !white_space(trim(s).last()),
        forall|i: int| 0 <= i < trim(s).len() ==> s.contains(#[trigger] trim(s)[i]),
{
    let t = trim_start(s);
    lemma_trim_start(s);
    lemma_trim_end(t);
    assert forall|i: int| 0 <= i < trim(s).len() implies s.contains(#[trigger] trim(s)[i]) by {
        assert(trim(s)[i] == s[i + s.len() - t.len()]);
    }
}

/// Trimming leaves a text alone that neither begins nor ends with white space.
pub proof fn lemma_trim_fixpoint(s: Seq<char>)
    requires
        s.len() > 0 ==> !white_space(s.first()) && !white_space(s.last()),
    ensures
        trim(s) == s,
{
}

/// Trailing white space is dropped from the second of two texts alone, where
/// the first does not end with any.
pub proof fn lemma_trim_end_concat(a: Seq<char>, b: Seq<char>)
    requires
        a.len() > 0,
        !white_space(a.last()),
    ensures
        trim_end(a + b) == a + trim_end(b),
    decreases b.len(),
{
    if b.len() == 0 {
        assert(a + b =~= a);
        assert(a + trim_end(b) =~= a);
    } else {
        assert((a + b).last() == b.last());
        if white_space(b.last()) {
            assert((a + b).drop_last() =~= a + b.drop_last());
            lemma_trim_end_concat(a, b.drop_last());
        }
    }
}

/// Dropping the control characters leaves none.
pub proof fn lemma_without_control(s: Seq<char>)
    ensures
        forall|i: int|
            0 <= i < without_control(s).len() ==> !control(#[trigger] without_control(s)[i]),
{
    broadcast use vstd::seq_lib::group_filter_ensures;

}

/// Dropping the control characters leaves a text alone that has none.
pub proof fn lemma_without_control_fixpoint(s: Seq<char>)
    requires
        forall|i: int| 0 <= i < s.len() ==> !control(#[trigger] s[i]),
    ensures
        without_control(s) == s,
    decreases s.len(),
{
    reveal(Seq::filter);
    if s.len() > 0 {
        lemma_without_control_fixpoint(s.drop_last());
        assert(s.drop_last().push(s.last()) =~= s);
    }
}

/// Whether a character is a control code.
pub fn is_control(c: char) -> (r: bool)
    ensures
        r == control(c),
{
    c <= '\u{1f}' || ('\u{7f}' <= c && c <= '\u{9f}')
}

/// Whether a character is white space.
pub fn is_white_space(c: char) -> (r: bool)
    ensures
        r == white_space(c),
{
    ('\u{9}' <= c && c <= '\u{d}') || c == '\u{20}' || c == '\u{85}' || c == '\u{a0}' || c
        == '\u{1680}' || ('\u{2000}' <= c && c <= '\u{200a}') || c == '\u{2028}' || c == '\u{2029}'
        || c == '\u{202f}' || c == '\u{205f}' || c == '\u{3000}'
}

/// The number of bytes of a character in UTF-8.
pub fn utf8_width(c: char) -> (r: usize)
    ensures
        r == width(c),
{
    proof {
        lemma_width(c);
    }
    if c <= '\u{7f}' {
        1
    } else if c <= '\u{7ff}' {
        2
    } else if c <= '\u{ffff}' {
        3
    } else {
        4
    }
}

/// The characters of a string.
pub fn chars_of(s: &str) -> (r: Vec<char>)
    ensures
        r@ == s@,
{
    let mut out: Vec<char> = Vec::new();
    for c in it: s.chars()
        invariant
            it.seq() == s@,
            out@ == s@.take(it.index() as int),
    {
        out.push(c);
        assert(s@.take(it.index() + 1) =~= s@.take(it.index() as int).push(c));
    }
    assert(s@.take(s@.len() as int) =~= s@);
    out
}

/// The string of some characters.
pub fn string_of(chars: &[char]) -> (r: String)
    ensures
        r@ == chars@,
{
    let mut out = String::new();
    let mut i: usize = 0;
    while i < chars.len()
        invariant
            i <= chars@.len(),
            out@ == chars@.take(i as int),
        decreases chars@.len() - i,
    {
        out.push(chars[i]);
        assert(chars@.take(i + 1) =~= chars@.take(i as int).push(chars@[i as int]));
        i += 1;
    }
    assert(chars@.take(i as int) =~= chars@);
    out
}

/// The characters of a string that are not control codes.
pub fn printable_chars(s: &str) -> (r: Vec<char>)
    ensures
        r@ == without_control(s@),
{
    let ghost keep = |c: char| !control(c);
    let mut out: Vec<char> = Vec::new();
    proof {
        reveal(Seq::filter);
        assert(s@.take(0) =~= Seq::<char>::empty());
    }
    for c in it: s.chars()
        invariant
            it.seq() == s@,
            keep == (|c: char| !control(c)),
            out@ == s@.take(it.index() as int).filter(keep),
    {
        proof {
            reveal(Seq::filter);
            assert(s@.take(it.index() + 1).drop_last() =~= s@.take(it.index() as int));
        }
        if !is_control(c) {
            out.push(c);
        }
    }
    assert(s@.take(s@.len() as int) =~= s@);
    out
}

/// The characters between the white space at the two ends.
pub fn trimmed(chars: &[char]) -> (r: &[char])
    ensures
        r@ == trim(chars@),
{
    let mut from: usize = 0;
    assert(chars@.skip(0) =~= chars@);
    while from < chars.len() && is_white_space(chars[from])
        invariant
            from <= chars@.len(),
            trim_start(chars@.skip(from as int)) == trim_start(chars@),
        decreases chars@.len() - from,
    {
        assert(chars@.skip(from as int).drop_first() =~= chars@.skip(from + 1));
        from += 1;
    }
    let ghost tail = chars@.skip(from as int);
    assert(trim_start(chars@) == tail);
    let mut to: usize = chars.len();
    assert(tail.take(to - from) =~= tail);
    while to > from && is_white_space(chars[to - 1])
        invariant
            from <= to <= chars@.len(),
            tail == chars@.skip(from as int),
            trim_end(tail.take(to - from)) == trim_end(tail),
        decreases to,
    {
        assert(tail.take(to - from).drop_last() =~= tail.take(to - from - 1));
        to -= 1;
    }
    assert(trim_end(tail) == tail.take(to - from));
    assert(tail.take(to - from) =~= chars@.subrange(from as int, to as int));
    slice_subrange(chars, from, to)
}

/// How many of the first characters fit into `limit` bytes.
pub fn fitting_count(chars: &[char], limit: usize) -> (r: usize)
    ensures
        r == fit(chars@, limit as int),
        r <= chars@.len(),
{
    let mut left: usize = limit;
    let mut i: usize = 0;
    assert(chars@.skip(0) =~= chars@);
    while i < chars.len() && utf8_width(chars[i]) <= left
        invariant
            i <= chars@.len(),
            fit(chars@, limit as int) == i + fit(chars@.skip(i as int), left as int),
        decreases chars@.len() - i,
    {
        assert(chars@.skip(i as int).drop_first() =~= chars@.skip(i + 1));
        left -= utf8_width(chars[i]);
        i += 1;
    }
    i
}

/// The decimal numeral of a number.
pub fn decimal_string(n: u32) -> (r: String)
    ensures
        r@ == decimal(n as nat),
    decreases n,
{
    let last: u8 = 48 + (n % 10) as u8;
    let mut out = if n < 10 {
        String::new()
    } else {
        decimal_string(n / 10)
    };
    out.push(last as char);
    assert(Seq::<char>::empty().push(digit(n as nat)) =~= seq![digit(n as nat)]);
    out
}

/// Dropping the control characters goes character by character: it takes out
/// each control character and nothing else, and keeps the order of the rest.
pub proof fn law_without_control_by_character(s: Seq<char>, c: char)
    ensures
        without_control(Seq::empty()) == Seq::<char>::empty(),
        control(c) ==> without_control(s.push(c)) == without_control(s),
        !control(c) ==> without_control(s.push(c)) == without_control(s).push(c),
{
    reveal(Seq::filter);
    assert(s.push(c).drop_last() =~= s);
}

/// Trimming takes white space, and nothing but white space, off the two ends of
/// a text: the text is some white space, the trimmed text and some white space,
/// and the trimmed text neither begins nor ends with any.
pub proof fn law_trim_takes_off_the_ends(s: Seq<char>)
    ensures
        exists|i: int, j: int|
            #![trigger s.subrange(i, j)]
            0 <= i <= j <= s.len() && trim(s) == s.subrange(i, j) && (forall|k: int|
                0 <= k < i || j <= k < s.len() ==> white_space(#[trigger] s[k])),
        trim(s).len() > 0 ==> !white_space(trim(s).first()) && !white_space(trim(s).last()),
{
    let t = trim_start(s);
    let i = s.len() - t.len();
    let j = i + trim(s).len();
    lemma_trim(s);
    lemma_trim_start(s);
    lemma_trim_end(t);
    lemma_trim_start_dropped(s);
    lemma_trim_end_dropped(t);
    assert(trim(s) =~= s.subrange(i, j));
    assert forall|k: int| 0 <= k < i || j <= k < s.len() implies white_space(#[trigger] s[k]) by {
        if k >= j {
            assert(t[k - i] == s[k]);
        }
    }
}

/// What trimming drops from the beginning is white space.
proof fn lemma_trim_start_dropped(s: Seq<char>)
    ensures
        forall|k: int| 0 <= k < s.len() - trim_start(s).len() ==> white_space(#[trigger] s[k]),
    decreases s.len(),
{
    if s.len() > 0 && white_space(s.first()) {
        let rest = s.drop_first();
        lemma_trim_start_dropped(rest);
        assert forall|k: int| 0 <= k < s.len() - trim_start(s).len() implies white_space(
            #[trigger] s[k],
        ) by {
            if k > 0 {
                assert(rest[k - 1] == s[k]);
            }
        }
    }
}

/// What trimming drops from the end is white space.
proof fn lemma_trim_end_dropped(s: Seq<char>)
    ensures
        forall|k: int| trim_end(s).len() <= k < s.len() ==> white_space(#[trigger] s[k]),
    decreases s.len(),
{
    if s.len() > 0 && white_space(s.last()) {
        let rest = s.drop_last();
        lemma_trim_end_dropped(rest);
        assert forall|k: int| trim_end(s).len() <= k < s.len() implies white_space(
            #[trigger] s[k],
        ) by {
            if k < rest.len() {
                assert(rest[k] == s[k]);
            }
        }
    }
}

/// White space before or behind a text makes no difference to what trimming
/// leaves of it.
pub proof fn law_trim_ignores_outer_white_space(s: Seq<char>, w: char)
    requires
        white_space(w),
    ensures
        trim(s.push(w)) == trim(s),
        trim(seq![w] + s) == trim(s),
{
    assert((seq![w] + s).drop_first() =~= s);
    lemma_trim_start_push(s, w);
}

/// White space behind a text stays there, if anything of the text does, when
/// leading white space is dropped; otherwise all goes.
proof fn lemma_trim_start_push(s: Seq<char>, w: char)
    requires
        white_space(w),
    ensures
        trim_end(trim_start(s.push(w))) == trim_end(trim_start(s)),
    decreases s.len(),
{
    if s.len() == 0 {
        assert(s.push(w).drop_first() =~= s);
    } else if white_space(s.first()) {
        assert(s.push(w).drop_first() =~= s.drop_first().push(w));
        assert(s.push(w).first() == s.first());
        lemma_trim_start_push(s.drop_first(), w);
    } else {
        assert(s.push(w).first() == s.first());
        assert(s.push(w).drop_last() =~= s);
    }
}

/// The number that decimal digits stand for.
pub open spec fn value_of(s: Seq<char>) -> int
    decreases s.len(),
{
    if s.len() == 0 {
        0
    } else {
        value_of(s.drop_last()) * 10 + (s.last() as int - '0' as int)
    }
}

/// The numeral of a number is made of digits, stands for that number, and does
/// not begin with a zero, unless it is the numeral of zero, of one digit.
pub proof fn law_decimal_stands_for_the_number(n: nat)
    ensures
        value_of(decimal(n)) == n,
        decimal(n).len() > 0,
        forall|i: int| 0 <= i < decimal(n).len() ==> '0' <= #[trigger] decimal(n)[i] <= '9',
        decimal(n)[0] == '0' ==> n == 0 && decimal(n).len() == 1,
    decreases n,
{
    let s = decimal(n);
    if n < 10 {
        assert(s.drop_last() =~= Seq::empty());
        assert(value_of(s.drop_last()) == 0);
    } else {
        law_decimal_stands_for_the_number(n / 10);
        assert(s.drop_last() =~= decimal(n / 10));
        assert forall|i: int| 0 <= i < s.len() implies '0' <= #[trigger] s[i] <= '9' by {
            if i < s.len() - 1 {
                assert(s[i] == decimal(n / 10)[i]);
            }
        }
        assert(s[0] == decimal(n / 10)[0]);
    }
}

} // verus!

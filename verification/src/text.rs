//! Character-level text utilities shared by the parsers of this crate.
//!
//! Texts are modelled as `Seq<char>`. Executable code reads a `&str` through
//! a vector of its characters and cuts pieces out of it by character
//! positions.

use vstd::prelude::*;

verus! {

/// The texts of a list of strings.
pub open spec fn texts(list: Seq<String>) -> Seq<Seq<char>> {
    Seq::new(list.len(), |k: int| list[k]@)
}

/// Whether `c` is one of the ten ASCII decimal digits.
pub open spec fn is_digit(c: char) -> bool {
    48 <= c as u32 <= 57
}

/// The number that the digit `c` stands for.
pub open spec fn digit_value(c: char) -> nat {
    (c as u32 - 48) as nat
}

/// Whether `s` is a non-empty run of decimal digits.
pub open spec fn all_digits(s: Seq<char>) -> bool {
    s.len() > 0 && forall|i: int| 0 <= i < s.len() ==> is_digit(#[trigger] s[i])
}

/// The number written by the digits of `s`, most significant first.
pub open spec fn decimal_value(s: Seq<char>) -> nat
    decreases s.len(),
{
    if s.len() == 0 {
        0
    } else {
        decimal_value(s.drop_last()) * 10 + digit_value(s.last())
    }
}

/// The unsigned number that `s` denotes: `Some` exactly for a non-empty run
/// of decimal digits whose value fits in 64 bits.
pub open spec fn parse_number(s: Seq<char>) -> Option<u64> {
    if all_digits(s) && decimal_value(s) <= u64::MAX {
        Some(decimal_value(s) as u64)
    } else {
        None
    }
}

/// A prefix of a text never denotes more than the whole text.
pub proof fn lemma_decimal_value_prefix(s: Seq<char>, k: int)
    requires
        0 <= k <= s.len(),
    ensures
        decimal_value(s.take(k)) <= decimal_value(s),
    decreases s.len(),
{
    if k == s.len() {
        assert(s.take(k) =~= s);
    } else {
        assert(s.drop_last().take(k) =~= s.take(k));
        lemma_decimal_value_prefix(s.drop_last(), k);
    }
}

/// The characters of `s`, in order.
pub fn chars_of(s: &str) -> (out: Vec<char>)
    ensures
        out@ == s@,
{
    let mut out: Vec<char> = Vec::new();
    for c in it: s.chars()
        invariant
            it.seq() == s@,
            out@ == s@.take(it.index() as int),
    {
        out.push(c);
        assert(out@ =~= s@.take(it.index() + 1));
    }
    assert(s@.take(s@.len() as int) =~= s@);
    out
}

/// Reads the characters of `text` from position `from` up to `to` as an
/// unsigned decimal number.
pub fn read_number(text: &Vec<char>, from: usize, to: usize) -> (out: Option<u64>)
    requires
        from <= to <= text@.len(),
    ensures
        out == parse_number(text@.subrange(from as int, to as int)),
{
    let ghost s = text@.subrange(from as int, to as int);
    if from == to {
        return None;
    }
    let mut acc: u64 = 0;
    let mut i: usize = from;
    while i < to
        invariant
            from <= i <= to <= text@.len(),
            s == text@.subrange(from as int, to as int),
            all_digits(s.take(i - from)) || i == from,
            acc == decimal_value(s.take(i - from)),
        decreases to - i,
    {
        let c: char = text[i];
        let u: u32 = c as u32;
        assert(s[i - from] == c);
        if u < 48 || u > 57 {
            return None;
        }
        let ghost next = s.take(i - from + 1);
        assert(next.drop_last() =~= s.take(i - from));
        assert(next.last() == c);
        proof {
            lemma_decimal_value_prefix(s, i - from + 1);
        }
        let d: u64 = (u - 48) as u64;
        let scaled: u64 = match acc.checked_mul(10) {
            Some(v) => v,
            None => { return None; },
        };
        acc = match scaled.checked_add(d) {
            Some(v) => v,
            None => { return None; },
        };
        i += 1;
    }
    assert(s.take(to - from) =~= s);
    Some(acc)
}

/// The pieces of `s` between the occurrences of `sep`, in order. A text
/// with `k` separators has `k + 1` pieces, some of which may be empty.
pub open spec fn split_on(s: Seq<char>, sep: char) -> Seq<Seq<char>>
    decreases s.len(),
{
    if s.len() == 0 {
        seq![Seq::<char>::empty()]
    } else {
        let before = split_on(s.drop_last(), sep);
        if s.last() == sep {
            before.push(Seq::<char>::empty())
        } else {
            before.drop_last().push(before.last().push(s.last()))
        }
    }
}

/// The pieces put together again, with `sep` between each two.
pub open spec fn joined(pieces: Seq<Seq<char>>, sep: char) -> Seq<char>
    decreases pieces.len(),
{
    if pieces.len() == 0 {
        Seq::<char>::empty()
    } else if pieces.len() == 1 {
        pieces[0]
    } else {
        joined(pieces.drop_last(), sep) + seq![sep] + pieces.last()
    }
}

/// Splitting loses nothing and cuts at every separator: the pieces, joined
/// by the separator, give the text back, and no piece holds the separator.
pub proof fn lemma_split_on_joins(s: Seq<char>, sep: char)
    ensures
        split_on(s, sep).len() >= 1,
        joined(split_on(s, sep), sep) == s,
        forall|k: int, i: int|
            0 <= k < split_on(s, sep).len() && 0 <= i < split_on(s, sep)[k].len() ==> (
            #[trigger] split_on(s, sep)[k][i]) != sep,
    decreases s.len(),
{
    if s.len() == 0 {
        assert(joined(split_on(s, sep), sep) =~= s);
    } else {
        let before = split_on(s.drop_last(), sep);
        lemma_split_on_joins(s.drop_last(), sep);
        let pieces = split_on(s, sep);
        if s.last() == sep {
            assert(pieces.drop_last() =~= before);
            assert(joined(pieces, sep) =~= s.drop_last() + seq![sep] + Seq::<char>::empty());
            assert(joined(pieces, sep) =~= s);
        } else {
            let grown = before.last().push(s.last());
            assert(pieces.last() == grown);
            if before.len() == 1 {
                assert(before.last() == before[0]);
                assert(joined(pieces, sep) =~= s.drop_last().push(s.last()));
            } else {
                assert(pieces.drop_last() =~= before.drop_last());
                assert(joined(pieces, sep) =~= (joined(before.drop_last(), sep) + seq![sep]
                    + before.last()).push(s.last()));
                assert(joined(pieces, sep) =~= s.drop_last().push(s.last()));
            }
            assert(s.drop_last().push(s.last()) =~= s);
            assert forall|k: int, i: int|
                0 <= k < pieces.len() && 0 <= i < pieces[k].len() implies (
            #[trigger] pieces[k][i]) != sep by {
                if k < pieces.len() - 1 {
                    assert(pieces[k] == before[k]);
                } else if i < before.last().len() {
                    assert(pieces[k][i] == before[before.len() - 1][i]);
                }
            }
        }
    }
}

/// The texts that the ranges `spans` cut out of `s`.
pub open spec fn cut(s: Seq<char>, spans: Seq<(usize, usize)>) -> Seq<Seq<char>> {
    Seq::new(spans.len(), |k: int| s.subrange(spans[k].0 as int, spans[k].1 as int))
}

/// Whether every range of `spans` lies inside a text of length `len`.
pub open spec fn spans_within(spans: Seq<(usize, usize)>, len: nat) -> bool {
    forall|k: int| 0 <= k < spans.len() ==> (#[trigger] spans[k]).0 <= spans[k].1 <= len
}

/// Splitting always yields at least one piece.
pub proof fn lemma_split_on_nonempty(s: Seq<char>, sep: char)
    ensures
        split_on(s, sep).len() >= 1,
    decreases s.len(),
{
    if s.len() > 0 {
        lemma_split_on_nonempty(s.drop_last(), sep);
    }
}

/// Finds the pieces of `text` between the occurrences of `sep`, as ranges of
/// character positions.
pub fn split_spans(text: &Vec<char>, sep: char) -> (spans: Vec<(usize, usize)>)
    ensures
        spans_within(spans@, text@.len()),
        cut(text@, spans@) == split_on(text@, sep),
{
    let n: usize = text.len();
    let mut spans: Vec<(usize, usize)> = Vec::new();
    let mut start: usize = 0;
    let mut i: usize = 0;
    assert(text@.take(0) =~= Seq::<char>::empty());
    assert(cut(text@, spans@).push(text@.subrange(0, 0)) =~= seq![Seq::<char>::empty()]);
    while i < n
        invariant
            n == text@.len(),
            start <= i <= n,
            spans_within(spans@, text@.len()),
            split_on(text@.take(i as int), sep) == cut(text@, spans@).push(
                text@.subrange(start as int, i as int),
            ),
        decreases n - i,
    {
        let ghost before = split_on(text@.take(i as int), sep);
        let ghost old_cut = cut(text@, spans@);
        assert(text@.take(i + 1).drop_last() =~= text@.take(i as int));
        assert(text@.take(i + 1).last() == text@[i as int]);
        if text[i] == sep {
            spans.push((start, i));
            start = i + 1;
            assert(cut(text@, spans@) =~= before);
            assert(text@.subrange(start as int, start as int) =~= Seq::<char>::empty());
        } else {
            assert(before.drop_last() =~= old_cut);
            assert(before.last().push(text@[i as int]) =~= text@.subrange(
                start as int,
                i + 1,
            ));
        }
        i += 1;
    }
    assert(text@.take(n as int) =~= text@);
    let ghost whole = cut(text@, spans@).push(text@.subrange(start as int, n as int));
    spans.push((start, n));
    assert(cut(text@, spans@) =~= whole);
    spans
}

/// Whether `c` is white space: the characters that a text is trimmed of.
pub open spec fn is_space(c: char) -> bool {
    let u = c as u32;
    (0x09 <= u <= 0x0D) || u == 0x20 || u == 0x85 || u == 0xA0 || u == 0x1680 || (0x2000 <= u
        <= 0x200A) || u == 0x2028 || u == 0x2029 || u == 0x202F || u == 0x205F || u == 0x3000
}

/// `s` without the white space at its start.
pub open spec fn skip_leading_space(s: Seq<char>) -> Seq<char>
    decreases s.len(),
{
    if s.len() > 0 && is_space(s.first()) {
        skip_leading_space(s.drop_first())
    } else {
        s
    }
}

/// `s` without the white space at its end.
pub open spec fn drop_trailing_space(s: Seq<char>) -> Seq<char>
    decreases s.len(),
{
    if s.len() > 0 && is_space(s.last()) {
        drop_trailing_space(s.drop_last())
    } else {
        s
    }
}

/// `s` without the white space at its start and at its end.
pub open spec fn trimmed(s: Seq<char>) -> Seq<char> {
    drop_trailing_space(skip_leading_space(s))
}

/// Tells whether `c` is white space.
pub fn char_is_space(c: char) -> (out: bool)
    ensures
        out == is_space(c),
{
    let u: u32 = c as u32;
    (0x09 <= u && u <= 0x0D) || u == 0x20 || u == 0x85 || u == 0xA0 || u == 0x1680 || (0x2000 <= u
        && u <= 0x200A) || u == 0x2028 || u == 0x2029 || u == 0x202F || u == 0x205F || u == 0x3000
}

/// Narrows the range `from .. to` of `text` to what is left of it once the
/// white space at both ends is taken away.
pub fn trim_span(text: &Vec<char>, from: usize, to: usize) -> (span: (usize, usize))
    requires
        from <= to <= text@.len(),
    ensures
        from <= span.0 <= span.1 <= to,
        text@.subrange(span.0 as int, span.1 as int) == trimmed(
            text@.subrange(from as int, to as int),
        ),
{
    let mut a: usize = from;
    while a < to && char_is_space(text[a])
        invariant
            from <= a <= to <= text@.len(),
            skip_leading_space(text@.subrange(from as int, to as int)) == skip_leading_space(
                text@.subrange(a as int, to as int),
            ),
        decreases to - a,
    {
        assert(text@.subrange(a as int, to as int).drop_first() =~= text@.subrange(
            a + 1,
            to as int,
        ));
        a += 1;
    }
    let mut b: usize = to;
    while a < b && char_is_space(text[b - 1])
        invariant
            a <= b <= to <= text@.len(),
            drop_trailing_space(text@.subrange(a as int, to as int)) == drop_trailing_space(
                text@.subrange(a as int, b as int),
            ),
        decreases b - a,
    {
        assert(text@.subrange(a as int, b as int).drop_last() =~= text@.subrange(
            a as int,
            b - 1,
        ));
        b -= 1;
    }
    (a, b)
}

/// Tells whether `a` and `b` are the same text.
pub fn same_text(a: &str, b: &str) -> (out: bool)
    ensures
        out == (a@ == b@),
{
    let x: Vec<char> = chars_of(a);
    let y: Vec<char> = chars_of(b);
    if x.len() != y.len() {
        return false;
    }
    let mut i: usize = 0;
    while i < x.len()
        invariant
            i <= x@.len(),
            x@.len() == y@.len(),
            x@ == a@,
            y@ == b@,
            x@.take(i as int) == y@.take(i as int),
        decreases x@.len() - i,
    {
        if x[i] != y[i] {
            assert(a@[i as int] != b@[i as int]);
            return false;
        }
        assert(x@.take(i + 1) =~= x@.take(i as int).push(x@[i as int]));
        assert(y@.take(i + 1) =~= y@.take(i as int).push(y@[i as int]));
        i += 1;
    }
    assert(x@.take(x@.len() as int) =~= x@);
    assert(y@.take(y@.len() as int) =~= y@);
    true
}

/// Whether `s` begins with `head`.
pub open spec fn starts_with(s: Seq<char>, head: Seq<char>) -> bool {
    s.len() >= head.len() && s.take(head.len() as int) == head
}

/// `s` with every occurrence of `pattern` taken out, the occurrences being
/// found from left to right. An empty pattern occurs nowhere.
pub open spec fn without(s: Seq<char>, pattern: Seq<char>) -> Seq<char>
    decreases s.len(),
{
    if pattern.len() == 0 || s.len() == 0 {
        s
    } else if starts_with(s, pattern) {
        without(s.skip(pattern.len() as int), pattern)
    } else {
        seq![s.first()] + without(s.drop_first(), pattern)
    }
}

/// Tells whether `pattern` stands in `text` at position `at`.
pub fn stands_at(text: &Vec<char>, at: usize, pattern: &Vec<char>) -> (out: bool)
    requires
        at <= text@.len(),
    ensures
        out == starts_with(text@.skip(at as int), pattern@),
{
    let ghost rest = text@.skip(at as int);
    let n: usize = text.len();
    if pattern.len() > n - at {
        return false;
    }
    let mut k: usize = 0;
    while k < pattern.len()
        invariant
            k <= pattern@.len(),
            n == text@.len(),
            at <= text@.len(),
            pattern@.len() <= text@.len() - at,
            rest == text@.skip(at as int),
            rest.take(k as int) == pattern@.take(k as int),
        decreases pattern@.len() - k,
    {
        assert(rest[k as int] == text@[at + k]);
        if text[at + k] != pattern[k] {
            assert(rest.take(pattern@.len() as int)[k as int] != pattern@[k as int]);
            return false;
        }
        assert(rest.take(k + 1) =~= rest.take(k as int).push(rest[k as int]));
        assert(pattern@.take(k + 1) =~= pattern@.take(k as int).push(pattern@[k as int]));
        k += 1;
    }
    assert(pattern@.take(pattern@.len() as int) =~= pattern@);
    true
}

/// Takes every occurrence of `pattern` out of `s`.
pub fn remove_all(s: &str, pattern: &str) -> (out: String)
    ensures
        out@ == without(s@, pattern@),
{
    let text: Vec<char> = chars_of(s);
    let pat: Vec<char> = chars_of(pattern);
    if pat.len() == 0 {
        return s.to_owned();
    }
    let mut out: String = String::new();
    let mut i: usize = 0;
    assert(text@.skip(0) =~= text@);
    while i < text.len()
        invariant
            i <= text@.len(),
            text@ == s@,
            pat@ == pattern@,
            pat@.len() > 0,
            out@ + without(text@.skip(i as int), pat@) == without(text@, pat@),
        decreases text@.len() - i,
    {
        let ghost rest = text@.skip(i as int);
        if stands_at(&text, i, &pat) {
            assert(rest.skip(pat@.len() as int) =~= text@.skip(i + pat@.len()));
            i += pat.len();
        } else {
            assert(rest.drop_first() =~= text@.skip(i + 1));
            assert(s@.subrange(i as int, i + 1) =~= seq![rest.first()]);
            let ghost before = out@;
            out.append(s.substring_char(i, i + 1));
            assert(out@ + without(text@.skip(i + 1), pat@) =~= before + (seq![rest.first()]
                + without(rest.drop_first(), pat@)));
            i += 1;
        }
    }
    assert(out@ + Seq::<char>::empty() =~= out@);
    out
}

/// The characters of `s` from position `from` up to `to`, as a new string.
pub fn slice_string(s: &str, from: usize, to: usize) -> (out: String)
    requires
        from <= to <= s@.len(),
    ensures
        out@ == s@.subrange(from as int, to as int),
{
    s.substring_char(from, to).to_owned()
}

} // verus!

//! The playback queue: the queries that one line of input names.

use crate::text::{
    chars_of, cut, lemma_split_on_nonempty, remove_all, slice_string, spans_within, split_on,
    split_spans, stands_at, starts_with, texts, trim_span, trimmed, without,
};
use vstd::prelude::*;

verus! {

/// The queries of one line of input: none where the line is empty once
/// trimmed, and else the pieces between its commas, each trimmed, in the
/// order in which they stand.
pub open spec fn queue_of(input: Seq<char>) -> Seq<Seq<char>> {
    let body = trimmed(input);
    if body.len() == 0 {
        Seq::<Seq<char>>::empty()
    } else {
        Seq::new(split_on(body, ',').len(), |k: int| trimmed(split_on(body, ',')[k]))
    }
}

/// Splits one line of input into the queries of the queue.
pub fn parse_queue(input: &str) -> (queue: Vec<String>)
    ensures
        texts(queue@) == queue_of(input@),
        trimmed(input@).len() == 0 <==> queue@.len() == 0,
{
    let whole: Vec<char> = chars_of(input);
    assert(whole@.subrange(0, whole@.len() as int) =~= whole@);
    let bounds: (usize, usize) = trim_span(&whole, 0, whole.len());
    let mut queue: Vec<String> = Vec::new();
    if bounds.0 == bounds.1 {
        assert(texts(queue@) =~= queue_of(input@));
        return queue;
    }
    let body: String = slice_string(input, bounds.0, bounds.1);
    let text: Vec<char> = chars_of(body.as_str());
    let spans: Vec<(usize, usize)> = split_spans(&text, ',');
    proof {
        lemma_split_on_nonempty(text@, ',');
    }
    let ghost pieces = split_on(text@, ',');
    let mut k: usize = 0;
    while k < spans.len()
        invariant
            k <= spans@.len(),
            text@ == body@,
            pieces == split_on(text@, ','),
            pieces == cut(text@, spans@),
            spans_within(spans@, text@.len()),
            queue@.len() == k,
            forall|j: int| 0 <= j < k ==> (#[trigger] queue@[j])@ == trimmed(pieces[j]),
        decreases spans@.len() - k,
    {
        let span: (usize, usize) = spans[k];
        assert(pieces[k as int] == text@.subrange(span.0 as int, span.1 as int));
        let inner: (usize, usize) = trim_span(&text, span.0, span.1);
        queue.push(slice_string(body.as_str(), inner.0, inner.1));
        k += 1;
    }
    assert(texts(queue@) =~= queue_of(input@));
    queue
}

/// The playlist that a line of input asks for: a line that, once trimmed,
/// begins with `!playlist ` names the playlist whose name is the rest of it,
/// with every further `!playlist ` taken out as well. Any other line names
/// none.
pub open spec fn playlist_named(input: Seq<char>) -> Option<Seq<char>> {
    let body = trimmed(input);
    if starts_with(body, "!playlist "@) {
        Some(without(body, "!playlist "@))
    } else {
        None
    }
}

/// Reads from a line of input the name of the playlist it asks for, if it
/// asks for one.
pub fn playlist_request(input: &str) -> (out: Option<String>)
    ensures
        match out {
            Some(name) => playlist_named(input@) == Some(name@),
            None => playlist_named(input@) is None,
        },
{
    let whole: Vec<char> = chars_of(input);
    assert(whole@.subrange(0, whole@.len() as int) =~= whole@);
    let bounds: (usize, usize) = trim_span(&whole, 0, whole.len());
    let body: String = slice_string(input, bounds.0, bounds.1);
    let text: Vec<char> = chars_of(body.as_str());
    let marker: Vec<char> = chars_of("!playlist ");
    assert(text@.skip(0) =~= text@);
    if stands_at(&text, 0, &marker) {
        Some(remove_all(body.as_str(), "!playlist "))
    } else {
        None
    }
}

} // verus!

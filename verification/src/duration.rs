//! Durations as the resolver prints them: `HH:MM:SS` or `MM:SS`.

use crate::text::{
    all_digits, chars_of, cut, decimal_value, read_number, spans_within, split_on, split_spans,
};
use vstd::prelude::*;

verus! {

/// Whether `s` is two or three runs of decimal digits joined by colons.
pub open spec fn well_formed_duration(s: Seq<char>) -> bool {
    let parts = split_on(s, ':');
    (parts.len() == 2 || parts.len() == 3) && forall|k: int|
        0 <= k < parts.len() ==> all_digits(#[trigger] parts[k])
}

/// The length in seconds that a well-formed duration text denotes:
/// minutes and seconds, preceded by hours where there are three parts.
pub open spec fn total_seconds(s: Seq<char>) -> nat {
    let parts = split_on(s, ':');
    if parts.len() == 2 {
        decimal_value(parts[0]) * 60 + decimal_value(parts[1])
    } else {
        decimal_value(parts[0]) * 3600 + decimal_value(parts[1]) * 60 + decimal_value(parts[2])
    }
}

/// What `duration_to_seconds` returns: the total of a well-formed text when
/// it fits in 64 bits, and 0 for every other text.
pub open spec fn duration_seconds(s: Seq<char>) -> u64 {
    if well_formed_duration(s) && total_seconds(s) <= u64::MAX {
        total_seconds(s) as u64
    } else {
        0
    }
}

/// Converts a duration text to seconds. Any text that is not of the form
/// `HH:MM:SS` or `MM:SS`, or whose total does not fit in 64 bits, gives 0.
pub fn duration_to_seconds(duration: &str) -> (seconds: u64)
    ensures
        seconds == duration_seconds(duration@),
{
    let text: Vec<char> = chars_of(duration);
    let spans: Vec<(usize, usize)> = split_spans(&text, ':');
    let ghost parts = split_on(text@, ':');
    assert(parts.len() == spans@.len());
    if spans.len() != 2 && spans.len() != 3 {
        return 0;
    }
    let mut values: Vec<u64> = Vec::new();
    let mut k: usize = 0;
    while k < spans.len()
        invariant
            k <= spans@.len(),
            spans@.len() == 2 || spans@.len() == 3,
            text@ == duration@,
            parts == split_on(text@, ':'),
            parts == cut(text@, spans@),
            spans_within(spans@, text@.len()),
            values@.len() == k,
            forall|j: int|
                0 <= j < k ==> all_digits(#[trigger] parts[j]) && values@[j] == decimal_value(
                    parts[j],
                ),
        decreases spans@.len() - k,
    {
        let span: (usize, usize) = spans[k];
        assert(parts[k as int] == text@.subrange(span.0 as int, span.1 as int));
        match read_number(&text, span.0, span.1) {
            Some(v) => {
                values.push(v);
            },
            None => {
                assert(total_seconds(text@) >= decimal_value(parts[k as int]));
                return 0;
            },
        }
        k += 1;
    }
    let total: Option<u64> = if values.len() == 2 {
        match values[0].checked_mul(60) {
            Some(m) => m.checked_add(values[1]),
            None => None,
        }
    } else {
        match (values[0].checked_mul(3600), values[1].checked_mul(60)) {
            (Some(h), Some(m)) => match h.checked_add(m) {
                Some(hm) => hm.checked_add(values[2]),
                None => None,
            },
            _ => None,
        }
    };
    match total {
        Some(t) => t,
        None => 0,
    }
}

} // verus!

//! The settings that the pipeline reads from the user's configuration.
//!
//! The configuration is a flat list of keys and values. A key that is absent
//! or whose value cannot be used gives the built-in default: reading the
//! settings never fails.

use crate::text::{chars_of, parse_number, read_number, same_text};
use vstd::prelude::*;

verus! {

/// The settings of one run.
#[derive(Debug)]
pub struct Settings {
    /// How many files the cache directory may hold after eviction.
    pub max_file_count: usize,
    /// The quality asked of the fetcher, from `0` (best) to `10` (worst).
    pub audio_quality: String,
    /// How many fragments the fetcher loads at a time.
    pub concurrent_fragments: String,
}

/// The value that `pairs` gives for `key`: that of the first pair with this
/// key.
pub open spec fn lookup(pairs: Seq<(String, String)>, key: Seq<char>) -> Option<Seq<char>>
    decreases pairs.len(),
{
    if pairs.len() == 0 {
        None
    } else if pairs.first().0@ == key {
        Some(pairs.first().1@)
    } else {
        lookup(pairs.drop_first(), key)
    }
}

/// The file count that a configuration asks for: its `max_file_count` where
/// that is a number that fits the machine, else 15.
pub open spec fn max_file_count_of(pairs: Seq<(String, String)>) -> usize {
    match lookup(pairs, "max_file_count"@) {
        Some(value) => match parse_number(value) {
            Some(n) => if n <= usize::MAX {
                n as usize
            } else {
                15
            },
            None => 15,
        },
        None => 15,
    }
}

/// The audio quality that a configuration asks for: its `audio_quality`
/// where that is a number from 0 to 10, else `0`.
pub open spec fn audio_quality_of(pairs: Seq<(String, String)>) -> Seq<char> {
    match lookup(pairs, "audio_quality"@) {
        Some(value) => match parse_number(value) {
            Some(n) => if n <= 10 {
                value
            } else {
                "0"@
            },
            None => "0"@,
        },
        None => "0"@,
    }
}

/// The number of fragments that a configuration asks for: its
/// `concurrent_fragments` where that is a number, else `4`.
pub open spec fn concurrent_fragments_of(pairs: Seq<(String, String)>) -> Seq<char> {
    match lookup(pairs, "concurrent_fragments"@) {
        Some(value) => match parse_number(value) {
            Some(n) => value,
            None => "4"@,
        },
        None => "4"@,
    }
}

/// Finds the value of `key` in `pairs`.
pub fn find_value<'a>(pairs: &'a Vec<(String, String)>, key: &str) -> (out: Option<&'a String>)
    ensures
        match out {
            Some(value) => lookup(pairs@, key@) == Some(value@),
            None => lookup(pairs@, key@) is None,
        },
{
    let mut i: usize = 0;
    assert(pairs@.skip(0) =~= pairs@);
    while i < pairs.len()
        invariant
            i <= pairs@.len(),
            lookup(pairs@, key@) == lookup(pairs@.skip(i as int), key@),
        decreases pairs@.len() - i,
    {
        assert(pairs@.skip(i as int).first() == pairs@[i as int]);
        assert(pairs@.skip(i as int).drop_first() =~= pairs@.skip(i + 1));
        if same_text(pairs[i].0.as_str(), key) {
            return Some(&pairs[i].1);
        }
        i += 1;
    }
    None
}

/// Reads `value` as an unsigned decimal number.
pub fn number_of(value: &str) -> (out: Option<u64>)
    ensures
        out == parse_number(value@),
{
    let text: Vec<char> = chars_of(value);
    assert(text@.subrange(0, text@.len() as int) =~= text@);
    read_number(&text, 0, text.len())
}

impl Settings {
    /// The settings that hold where the configuration says nothing.
    pub fn defaults() -> (out: Settings)
        ensures
            out.max_file_count == 15,
            out.audio_quality@ == "0"@,
            out.concurrent_fragments@ == "4"@,
    {
        Settings {
            max_file_count: 15,
            audio_quality: "0".to_owned(),
            concurrent_fragments: "4".to_owned(),
        }
    }

    /// The settings that the configuration `pairs` gives, key by key, with
    /// the default wherever a key is absent or its value unusable.
    pub fn from_pairs(pairs: &Vec<(String, String)>) -> (out: Settings)
        ensures
            out.max_file_count == max_file_count_of(pairs@),
            out.audio_quality@ == audio_quality_of(pairs@),
            out.concurrent_fragments@ == concurrent_fragments_of(pairs@),
    {
        let mut out: Settings = Settings::defaults();
        if let Some(value) = find_value(pairs, "max_file_count") {
            if let Some(n) = number_of(value.as_str()) {
                if n <= usize::MAX as u64 {
                    out.max_file_count = n as usize;
                }
            }
        }
        if let Some(value) = find_value(pairs, "audio_quality") {
            if let Some(n) = number_of(value.as_str()) {
                if n <= 10 {
                    out.audio_quality = value.clone();
                }
            }
        }
        if let Some(value) = find_value(pairs, "concurrent_fragments") {
            if let Some(n) = number_of(value.as_str()) {
                out.concurrent_fragments = value.clone();
            }
        }
        out
    }
}

} // verus!

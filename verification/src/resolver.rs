//! The adapter of the metadata resolver: what to ask it, and how its printed
//! answer becomes the description of an item.
//!
//! The resolver is asked to print four lines: the duration, the title, a
//! locator, and the canonical address, which ends in `=` and the item's
//! identifier.

use crate::error::PlayError;
use crate::text::{
    chars_of, cut, lemma_split_on_nonempty, slice_string, spans_within, split_on, split_spans,
    texts, trim_span, trimmed,
};
use vstd::prelude::*;

verus! {

/// The description of one playable item, as resolved from a query.
#[derive(Debug)]
pub struct VideoInfo {
    /// The length of the item, as `HH:MM:SS` or `MM:SS`.
    pub duration: String,
    /// The display name; part of the cache key.
    pub title: String,
    /// The locator that the resolver printed on its third line.
    pub url: String,
    /// The stable identifier of the item; part of the cache key.
    pub id: String,
}

/// How one run of the resolver ended.
pub enum ResolverOutcome {
    /// The process could not be started.
    Unavailable,
    /// The process ran to its end.
    Exited {
        /// Whether it ended in success.
        success: bool,
        /// What it printed.
        stdout: String,
        /// What it wrote to its standard error.
        stderr: String,
    },
}

/// A line without the carriage return at its end, if it has one.
pub open spec fn line_text(piece: Seq<char>) -> Seq<char> {
    if piece.len() > 0 && piece.last() == '\r' {
        piece.drop_last()
    } else {
        piece
    }
}

/// Line `k` of `body`, counted from 0; empty where `body` has no such line.
pub open spec fn output_field(body: Seq<char>, k: int) -> Seq<char> {
    let lines = split_on(body, '\n');
    if 0 <= k < lines.len() {
        line_text(lines[k])
    } else {
        Seq::<char>::empty()
    }
}

/// What follows the last `sep` in `s`; all of `s` where it holds no `sep`.
pub open spec fn after_last(s: Seq<char>, sep: char) -> Seq<char> {
    split_on(s, sep).last()
}

/// Whether `info` is what the resolver's printed `output` describes: the
/// first three lines of the trimmed output as they stand, and as identifier
/// what follows the last `=` of the fourth. A line that is missing gives an
/// empty field.
pub open spec fn describes(info: VideoInfo, output: Seq<char>) -> bool {
    let body = trimmed(output);
    &&& info.duration@ == output_field(body, 0)
    &&& info.title@ == output_field(body, 1)
    &&& info.url@ == output_field(body, 2)
    &&& info.id@ == after_last(output_field(body, 3), '=')
}

/// Line `k` of `body`, as a string.
fn field_of(body: &str, text: &Vec<char>, spans: &Vec<(usize, usize)>, k: usize) -> (out: String)
    requires
        text@ == body@,
        spans_within(spans@, text@.len()),
        cut(text@, spans@) == split_on(text@, '\n'),
    ensures
        out@ == output_field(body@, k as int),
{
    if k < spans.len() {
        let span: (usize, usize) = spans[k];
        assert(split_on(text@, '\n')[k as int] == text@.subrange(span.0 as int, span.1 as int));
        if span.1 > span.0 && text[span.1 - 1] == '\r' {
            assert(text@.subrange(span.0 as int, span.1 as int).drop_last() =~= text@.subrange(
                span.0 as int,
                span.1 - 1,
            ));
            slice_string(body, span.0, span.1 - 1)
        } else {
            slice_string(body, span.0, span.1)
        }
    } else {
        String::new()
    }
}

/// What follows the last `=` of `line`, as a string.
fn identifier_of(line: &str) -> (out: String)
    ensures
        out@ == after_last(line@, '='),
{
    let text: Vec<char> = chars_of(line);
    let spans: Vec<(usize, usize)> = split_spans(&text, '=');
    proof {
        lemma_split_on_nonempty(text@, '=');
    }
    let last: (usize, usize) = spans[spans.len() - 1];
    assert(split_on(text@, '=').last() == text@.subrange(last.0 as int, last.1 as int));
    slice_string(line, last.0, last.1)
}

/// Reads the resolver's printed answer. An answer that is empty once
/// trimmed describes nothing; every other answer describes an item.
pub fn parse_info(output: &str) -> (out: Option<VideoInfo>)
    ensures
        match out {
            None => trimmed(output@).len() == 0,
            Some(info) => trimmed(output@).len() > 0 && describes(info, output@),
        },
{
    let whole: Vec<char> = chars_of(output);
    assert(whole@.subrange(0, whole@.len() as int) =~= whole@);
    let bounds: (usize, usize) = trim_span(&whole, 0, whole.len());
    if bounds.0 == bounds.1 {
        return None;
    }
    let body: String = slice_string(output, bounds.0, bounds.1);
    let text: Vec<char> = chars_of(body.as_str());
    let spans: Vec<(usize, usize)> = split_spans(&text, '\n');
    let duration: String = field_of(body.as_str(), &text, &spans, 0);
    let title: String = field_of(body.as_str(), &text, &spans, 1);
    let url: String = field_of(body.as_str(), &text, &spans, 2);
    let address: String = field_of(body.as_str(), &text, &spans, 3);
    let id: String = identifier_of(address.as_str());
    Some(VideoInfo { duration, title, url, id })
}

/// Turns the way a run of the resolver ended into an item or a failure.
///
/// A resolver that could not be started is `ResolverUnavailable`; one that
/// ended in failure is `ResolverError` with its standard error; one that
/// printed nothing but white space is `NotFound`; every other run gives the
/// item that its output describes.
pub fn get_info(outcome: ResolverOutcome) -> (out: Result<VideoInfo, PlayError>)
    ensures
        match outcome {
            ResolverOutcome::Unavailable => out matches Err(PlayError::ResolverUnavailable),
            ResolverOutcome::Exited { success, stdout, stderr } => if !success {
                out matches Err(PlayError::ResolverError(report)) && report@ == stderr@
            } else if trimmed(stdout@).len() == 0 {
                out matches Err(PlayError::NotFound)
            } else {
                out matches Ok(info) && describes(info, stdout@)
            },
        },
{
    match outcome {
        ResolverOutcome::Unavailable => Err(PlayError::ResolverUnavailable),
        ResolverOutcome::Exited { success, stdout, stderr } => {
            if !success {
                Err(PlayError::ResolverError(stderr))
            } else {
                match parse_info(stdout.as_str()) {
                    Some(info) => Ok(info),
                    None => Err(PlayError::NotFound),
                }
            }
        },
    }
}

/// The arguments with which the resolver is started for `query`: a search
/// for it, and the request to print the four lines that `parse_info` reads.
pub open spec fn resolver_command(query: Seq<char>) -> Seq<Seq<char>> {
    seq![
        "ytsearch:"@ + query,
        "--print"@,
        "%(duration>%H:%M:%S)s\n%(title)s\n%(id)s\n%(webpage_url)s"@,
    ]
}

/// The arguments with which the resolver is started for `query`.
pub fn resolver_args(query: &str) -> (args: Vec<String>)
    ensures
        texts(args@) == resolver_command(query@),
{
    let mut search: String = "ytsearch:".to_owned();
    search.append(query);
    let mut args: Vec<String> = Vec::new();
    args.push(search);
    args.push("--print".to_owned());
    args.push("%(duration>%H:%M:%S)s\n%(title)s\n%(id)s\n%(webpage_url)s".to_owned());
    assert(texts(args@) =~= resolver_command(query@));
    args
}

} // verus!

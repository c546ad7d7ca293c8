//! The cache store: where an item's audio lies on disk, whether it has to be
//! fetched, and what the fetcher is asked to do.
//!
//! The store trusts the file system: a file at the item's path is a hit,
//! whatever it holds.

use crate::error::PlayError;
use crate::resolver::VideoInfo;
use crate::settings::Settings;
use crate::text::texts;
use vstd::prelude::*;

verus! {

/// The name of the file that holds the audio of the item with this title and
/// identifier.
pub open spec fn cache_key(title: Seq<char>, id: Seq<char>) -> Seq<char> {
    title + "_"@ + id + ".mp3"@
}

/// The path of that file under the cache directory `dir`.
pub open spec fn cache_path(dir: Seq<char>, title: Seq<char>, id: Seq<char>) -> Seq<char> {
    dir + "/"@ + cache_key(title, id)
}

/// The pattern by which the fetcher names the files it writes under `dir`.
pub open spec fn output_pattern(dir: Seq<char>) -> Seq<char> {
    dir + "/%(title)s_%(id)s.%(ext)s"@
}

/// The arguments with which the fetcher is started: the item, audio only,
/// as mp3 of the given quality, no playlists, the output pattern, the number
/// of fragments at a time, and a fast preset for the conversion.
pub open spec fn fetch_command(
    target: Seq<char>,
    dir: Seq<char>,
    quality: Seq<char>,
    fragments: Seq<char>,
) -> Seq<Seq<char>> {
    seq![
        target,
        "-x"@,
        "--audio-format"@,
        "mp3"@,
        "--audio-quality"@,
        quality,
        "--no-playlist"@,
        "--output"@,
        output_pattern(dir),
        "--concurrent-fragments"@,
        fragments,
        "--postprocessor-args"@,
        "ffmpeg:-preset ultrafast"@,
    ]
}

/// What the store decides for one item.
pub enum Local {
    /// The audio is on disk at `path`: nothing is fetched.
    Hit { path: String },
    /// The audio is not on disk. Once the fetcher has run with `args`, it
    /// lies at `path`.
    Fetch { path: String, args: Vec<String> },
}

/// How one run of the fetcher ended.
pub enum FetchOutcome {
    /// The process could not be started.
    Unavailable,
    /// The process ran to its end.
    Exited {
        /// Whether it ended in success.
        success: bool,
        /// What it wrote to its standard error.
        stderr: String,
    },
}

/// The name of an item's file in the cache directory.
pub fn key_of(info: &VideoInfo) -> (out: String)
    ensures
        out@ == cache_key(info.title@, info.id@),
{
    let mut out: String = info.title.clone();
    out.append("_");
    out.append(info.id.as_str());
    out.append(".mp3");
    out
}

/// The path of an item's file under the cache directory `dir`.
pub fn path_of(dir: &str, info: &VideoInfo) -> (out: String)
    ensures
        out@ == cache_path(dir@, info.title@, info.id@),
{
    let key: String = key_of(info);
    let mut out: String = dir.to_owned();
    out.append("/");
    out.append(key.as_str());
    out
}

/// The arguments with which the fetcher is started for `target`.
pub fn fetch_args(target: &str, dir: &str, settings: &Settings) -> (args: Vec<String>)
    ensures
        texts(args@) == fetch_command(
            target@,
            dir@,
            settings.audio_quality@,
            settings.concurrent_fragments@,
        ),
{
    let mut pattern: String = dir.to_owned();
    pattern.append("/%(title)s_%(id)s.%(ext)s");
    let mut args: Vec<String> = Vec::new();
    args.push(target.to_owned());
    args.push("-x".to_owned());
    args.push("--audio-format".to_owned());
    args.push("mp3".to_owned());
    args.push("--audio-quality".to_owned());
    args.push(settings.audio_quality.clone());
    args.push("--no-playlist".to_owned());
    args.push("--output".to_owned());
    args.push(pattern);
    args.push("--concurrent-fragments".to_owned());
    args.push(settings.concurrent_fragments.clone());
    args.push("--postprocessor-args".to_owned());
    args.push("ffmpeg:-preset ultrafast".to_owned());
    assert(texts(args@) =~= fetch_command(
        target@,
        dir@,
        settings.audio_quality@,
        settings.concurrent_fragments@,
    ));
    args
}

/// Whether `out` is what the store decides for `info`, given whether a file
/// `exists` at its path: a hit where it does, and else a fetch of the item
/// by its identifier.
pub open spec fn decides(
    info: VideoInfo,
    dir: Seq<char>,
    settings: Settings,
    exists: bool,
    out: Local,
) -> bool {
    match out {
        Local::Hit { path } => exists && path@ == cache_path(dir, info.title@, info.id@),
        Local::Fetch { path, args } => !exists && path@ == cache_path(dir, info.title@, info.id@)
            && texts(args@) == fetch_command(
            info.id@,
            dir,
            settings.audio_quality@,
            settings.concurrent_fragments@,
        ),
    }
}

/// Decides how the audio of `info` gets to be on disk under `dir`, given
/// whether a file already `exists` at its path.
pub fn ensure_local(info: &VideoInfo, dir: &str, settings: &Settings, exists: bool) -> (out: Local)
    ensures
        decides(*info, dir@, *settings, exists, out),
{
    let path: String = path_of(dir, info);
    if exists {
        Local::Hit { path }
    } else {
        Local::Fetch { path, args: fetch_args(info.id.as_str(), dir, settings) }
    }
}

/// Says whether a run of the fetcher put the audio on disk. A fetcher that
/// could not be started, or that ended in failure, is `FetchFailed`, with
/// its standard error where it ran.
pub fn download(outcome: FetchOutcome) -> (out: Result<(), PlayError>)
    ensures
        match outcome {
            FetchOutcome::Unavailable => out matches Err(PlayError::FetchFailed(report))
                && report@ == "Failed to execute 'yt-dlp'"@,
            FetchOutcome::Exited { success, stderr } => if success {
                out is Ok
            } else {
                out matches Err(PlayError::FetchFailed(report)) && report@ == stderr@
            },
        },
{
    match outcome {
        FetchOutcome::Unavailable => Err(
            PlayError::FetchFailed("Failed to execute 'yt-dlp'".to_owned()),
        ),
        FetchOutcome::Exited { success, stderr } => {
            if success {
                Ok(())
            } else {
                Err(PlayError::FetchFailed(stderr))
            }
        },
    }
}

/// How many runs of the fetcher a decision of the store asks for.
pub open spec fn fetches(out: Local) -> nat {
    match out {
        Local::Hit { path } => 0,
        Local::Fetch { path, args } => 1,
    }
}

/// The files of the cache directory once a decision of the store has been
/// carried out with success: a fetch has put the file at its path.
pub open spec fn carried_out(present: Set<Seq<char>>, out: Local) -> Set<Seq<char>> {
    match out {
        Local::Hit { path } => present,
        Local::Fetch { path, args } => present.insert(path@),
    }
}

/// Looking an item up is idempotent. Of two lookups of the same item in a
/// row, the second is a hit at the same path: the two together ask for one
/// run of the fetcher where the file was absent and for none where it was
/// there, and the second leaves the directory as the first left it.
pub proof fn lemma_second_lookup_hits(
    info: VideoInfo,
    dir: Seq<char>,
    settings: Settings,
    present: Set<Seq<char>>,
    first: Local,
    second: Local,
)
    requires
        decides(
            info,
            dir,
            settings,
            present.contains(cache_path(dir, info.title@, info.id@)),
            first,
        ),
        decides(
            info,
            dir,
            settings,
            carried_out(present, first).contains(cache_path(dir, info.title@, info.id@)),
            second,
        ),
    ensures
        second matches Local::Hit { path } && path@ == cache_path(dir, info.title@, info.id@),
        fetches(second) == 0,
        fetches(first) + fetches(second) == (if present.contains(
            cache_path(dir, info.title@, info.id@),
        ) {
            0nat
        } else {
            1nat
        }),
        carried_out(carried_out(present, first), second) == carried_out(present, first),
{
}

} // verus!

//! Where the player keeps its files: everything lies under the user's
//! configuration directory, which the `dirs` crate finds.

use vstd::prelude::*;

verus! {

/// Whether `s` ends in `tail`.
pub open spec fn ends_in(s: Seq<char>, tail: Seq<char>) -> bool {
    s.len() >= tail.len() && s.subrange(s.len() - tail.len(), s.len() as int) == tail
}

/// The cache directory under the configuration directory `base`.
pub open spec fn download_text(base: Seq<char>) -> Seq<char> {
    base + "/mpvy/mp3"@
}

/// The directory of the playlists under `base`.
pub open spec fn playlists_text(base: Seq<char>) -> Seq<char> {
    base + "/mpvy/playlist/"@
}

/// The file of the playlist `name` under `base`.
pub open spec fn playlist_text(base: Seq<char>, name: Seq<char>) -> Seq<char> {
    base + "/mpvy/playlist/"@ + name + ".txt"@
}

/// The renderer's control socket under `base`.
pub open spec fn ipc_text(base: Seq<char>) -> Seq<char> {
    base + "/mpv/socket"@
}

/// The user's configuration directory, where there is one.
///
/// Calls `dirs::config_dir`, which looks at the environment and the
/// platform, and writes the path it finds out as text. Nothing is claimed of
/// the result: it differs from one machine and one user to the next.
#[verifier::external_body]
pub(crate) fn config_dir() -> (out: Option<String>) {
    match dirs::config_dir() {
        Some(path) => Some(format!("{}", path.display())),
        None => None,
    }
}

/// A text with `tail` appended ends in `tail`.
pub proof fn lemma_appended_ends_in(base: Seq<char>, tail: Seq<char>)
    ensures
        ends_in(base + tail, tail),
{
    let whole = base + tail;
    assert(whole.subrange(whole.len() - tail.len(), whole.len() as int) =~= tail);
}

/// `base` followed by `rest`.
pub fn under(base: &str, rest: &str) -> (out: String)
    ensures
        out@ == base@ + rest@,
{
    let mut out: String = base.to_owned();
    out.append(rest);
    out
}

/// The cache directory, given the configuration directory where the
/// platform has one and the user's home directory where it is known: under
/// the configuration directory, or else under `.config` in the home
/// directory. With neither there is no cache directory.
pub fn download_path_from(config: Option<String>, home: Option<String>) -> (out: Option<String>)
    ensures
        match (config, home) {
            (Some(base), _) => out matches Some(path) && path@ == download_text(base@),
            (None, Some(base)) => out matches Some(path) && path@ == download_text(
                base@ + "/.config"@,
            ),
            (None, None) => out is None,
        },
        out matches Some(path) ==> ends_in(path@, "/mpvy/mp3"@),
{
    match config {
        Some(base) => {
            proof {
                lemma_appended_ends_in(base@, "/mpvy/mp3"@);
            }
            Some(under(base.as_str(), "/mpvy/mp3"))
        },
        None => match home {
            Some(base) => {
                let fallback: String = under(base.as_str(), "/.config");
                proof {
                    lemma_appended_ends_in(fallback@, "/mpvy/mp3"@);
                }
                Some(under(fallback.as_str(), "/mpvy/mp3"))
            },
            None => None,
        },
    }
}

/// The cache directory of this user; `home` is the user's home directory,
/// which stands in where the platform names no configuration directory.
/// There is always one where `home` is known.
pub fn get_download_path(home: Option<String>) -> (out: Option<String>)
    ensures
        home is Some ==> out is Some,
        out matches Some(path) ==> ends_in(path@, "/mpvy/mp3"@),
{
    download_path_from(config_dir(), home)
}

/// The directory of the playlists under the configuration directory `base`.
pub fn playlists_path_in(base: &str) -> (out: String)
    ensures
        out@ == playlists_text(base@),
{
    under(base, "/mpvy/playlist/")
}

/// The directory of this user's playlists; `None` where the platform names
/// no configuration directory.
pub fn playlists_path() -> (out: Option<String>)
    ensures
        out matches Some(path) ==> ends_in(path@, "/mpvy/playlist/"@),
{
    let config: Option<String> = config_dir();
    proof {
        if config is Some {
            lemma_appended_ends_in(config->0@, "/mpvy/playlist/"@);
        }
    }
    playlists_path_from(config)
}

/// The file of the playlist `name` under the configuration directory `base`.
/// The name is taken as it stands: whatever characters it holds become part
/// of the path.
pub fn playlist_path_in(base: &str, name: &str) -> (out: String)
    ensures
        out@ == playlist_text(base@, name@),
{
    let mut out: String = under(base, "/mpvy/playlist/");
    out.append(name);
    out.append(".txt");
    out
}

/// The file of this user's playlist `name`; `None` where the platform names
/// no configuration directory.
pub fn playlist_path(name: &str) -> (out: Option<String>)
    ensures
        out matches Some(path) ==> ends_in(path@, "/mpvy/playlist/"@ + name@ + ".txt"@),
{
    let config: Option<String> = config_dir();
    proof {
        if config is Some {
            let base = config->0@;
            let tail = "/mpvy/playlist/"@ + name@ + ".txt"@;
            assert(playlist_text(base, name@) =~= base + tail);
            lemma_appended_ends_in(base, tail);
        }
    }
    playlist_path_from(config, name)
}

/// The renderer's control socket under the configuration directory `base`.
/// It lies in the renderer's own directory, not in the player's, where
/// tools that steer the renderer look for it.
pub fn ipc_path_in(base: &str) -> (out: String)
    ensures
        out@ == ipc_text(base@),
{
    under(base, "/mpv/socket")
}

/// The renderer's control socket for this user; `None` where the platform
/// names no configuration directory.
pub fn ipc_path() -> (out: Option<String>)
    ensures
        out matches Some(path) ==> ends_in(path@, "/mpv/socket"@),
{
    let config: Option<String> = config_dir();
    proof {
        if config is Some {
            lemma_appended_ends_in(config->0@, "/mpv/socket"@);
        }
    }
    ipc_path_from(config)
}

/// The directory of the playlists, given the configuration directory where
/// the platform names one: under it, and none where there is none.
pub fn playlists_path_from(config: Option<String>) -> (out: Option<String>)
    ensures
        match config {
            Some(base) => out matches Some(path) && path@ == playlists_text(base@),
            None => out is None,
        },
{
    match config {
        Some(base) => Some(playlists_path_in(base.as_str())),
        None => None,
    }
}

/// The file of the playlist `name`, given the configuration directory where
/// the platform names one: under it, and none where there is none.
pub fn playlist_path_from(config: Option<String>, name: &str) -> (out: Option<String>)
    ensures
        match config {
            Some(base) => out matches Some(path) && path@ == playlist_text(base@, name@),
            None => out is None,
        },
{
    match config {
        Some(base) => Some(playlist_path_in(base.as_str(), name)),
        None => None,
    }
}

/// The renderer's control socket, given the configuration directory where
/// the platform names one: under it, and none where there is none.
pub fn ipc_path_from(config: Option<String>) -> (out: Option<String>)
    ensures
        match config {
            Some(base) => out matches Some(path) && path@ == ipc_text(base@),
            None => out is None,
        },
{
    match config {
        Some(base) => Some(ipc_path_in(base.as_str())),
        None => None,
    }
}

} // verus!

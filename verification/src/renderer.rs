//! The adapter of the renderer: how the player process is started on a file.

use crate::paths::ipc_text;
use crate::text::texts;
use vstd::prelude::*;

verus! {

/// The renderer's own log file under the configuration directory `base`.
pub open spec fn render_log_text(base: Seq<char>) -> Seq<char> {
    base + "/mpvy/log/mpv.log"@
}

/// The arguments with which the renderer is started on the file at `path`:
/// no output to the terminal, its log file, its control socket, the file.
pub open spec fn render_command(base: Seq<char>, path: Seq<char>) -> Seq<Seq<char>> {
    seq![
        "--no-terminal"@,
        "--log-file="@ + render_log_text(base),
        "--input-ipc-server="@ + ipc_text(base),
        path,
    ]
}

/// The arguments with which the renderer is started on the file at `path`,
/// for a user whose configuration directory is `base`.
pub fn render_args(base: &str, path: &str) -> (args: Vec<String>)
    ensures
        texts(args@) == render_command(base@, path@),
{
    let mut log: String = "--log-file=".to_owned();
    log.append(base);
    log.append("/mpvy/log/mpv.log");
    assert(log@ =~= "--log-file="@ + render_log_text(base@));
    let mut socket: String = "--input-ipc-server=".to_owned();
    socket.append(base);
    socket.append("/mpv/socket");
    assert(socket@ =~= "--input-ipc-server="@ + ipc_text(base@));
    let mut args: Vec<String> = Vec::new();
    args.push("--no-terminal".to_owned());
    args.push(log);
    args.push(socket);
    args.push(path.to_owned());
    assert(texts(args@) =~= render_command(base@, path@));
    args
}

} // verus!

use mpvy::log::{entry, error, info, warning};
use mpvy::queue::{parse_queue, playlist_request};
use mpvy::text::{remove_all, same_text};
use mpvy::renderer::render_args;

#[test]
fn queries_are_split_and_trimmed() {
    assert_eq!(parse_queue("a, b ,c\n"), vec!["a", "b", "c"]);
    assert_eq!(parse_queue("  one song  "), vec!["one song"]);
}

#[test]
fn empty_input_is_an_empty_queue() {
    assert!(parse_queue("").is_empty());
    assert!(parse_queue("  \n").is_empty());
    assert!(parse_queue("\t \r\n").is_empty());
}

#[test]
fn empty_pieces_stay_in_the_queue() {
    assert_eq!(parse_queue("a,,b"), vec!["a", "", "b"]);
    assert_eq!(parse_queue(","), vec!["", ""]);
    assert_eq!(parse_queue("a, "), vec!["a", ""]);
    assert_eq!(parse_queue(" a "), vec!["a"]);
    assert_eq!(parse_queue("a, ,"), vec!["a", "", ""]);
}

#[test]
fn log_entries_have_level_component_and_message() {
    assert_eq!(entry("DEBUG", "M", "x"), "[DEBUG] (M) --> x");
    assert_eq!(error("Service Play", "Unable to get audio info."),
        "[ERROR] (Service Play) --> Unable to get audio info.");
    assert_eq!(warning("A", "b"), "[WARNING] (A) --> b");
    assert_eq!(info("Mpvy Main", ""), "[INFO] (Mpvy Main) --> ");
}

#[test]
fn renderer_arguments_are_complete() {
    assert_eq!(
        render_args("/cfg", "/cfg/mpvy/mp3/Song_abc.mp3"),
        vec![
            "--no-terminal",
            "--log-file=/cfg/mpvy/log/mpv.log",
            "--input-ipc-server=/cfg/mpv/socket",
            "/cfg/mpvy/mp3/Song_abc.mp3",
        ]
    );
}

#[test]
fn playlist_is_asked_for_by_its_marker() {
    assert_eq!(playlist_request("!playlist rock\n"), Some("rock".to_string()));
    assert_eq!(playlist_request("  !playlist my list  "), Some("my list".to_string()));
    assert_eq!(playlist_request("!playlist "), None);
    assert_eq!(playlist_request("!playlist  x"), Some(" x".to_string()));
    assert_eq!(playlist_request("!playlist a!playlist b"), Some("ab".to_string()));
}

#[test]
fn other_input_asks_for_no_playlist() {
    assert_eq!(playlist_request(""), None);
    assert_eq!(playlist_request("rock"), None);
    assert_eq!(playlist_request("!playlist"), None);
    assert_eq!(playlist_request("!playlistrock"), None);
    assert_eq!(playlist_request("a !playlist rock"), None);
    assert_eq!(playlist_request("!Playlist rock"), None);
}

#[test]
fn occurrences_are_removed_from_left_to_right() {
    assert_eq!(remove_all("aXbXc", "X"), "abc");
    assert_eq!(remove_all("aaa", "aa"), "a");
    assert_eq!(remove_all("ababa", "aba"), "ba");
    assert_eq!(remove_all("abc", ""), "abc");
    assert_eq!(remove_all("", "x"), "");
    assert_eq!(remove_all("xx", "xx"), "");
    assert_eq!(remove_all("héllo wörld", "ö"), "héllo wrld");
}

#[test]
fn texts_are_compared_by_characters() {
    assert!(same_text("", ""));
    assert!(same_text("abc", "abc"));
    assert!(!same_text("abc", "abd"));
    assert!(!same_text("abc", "ab"));
    assert!(!same_text("é", "e"));
}

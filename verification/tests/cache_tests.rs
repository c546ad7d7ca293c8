use mpvy::cache::{download, ensure_local, fetch_args, key_of, path_of, FetchOutcome, Local};
use mpvy::error::PlayError;
use mpvy::resolver::VideoInfo;
use mpvy::settings::Settings;

fn item(title: &str, id: &str) -> VideoInfo {
    VideoInfo {
        duration: "00:01:00".to_string(),
        title: title.to_string(),
        url: "u".to_string(),
        id: id.to_string(),
    }
}

#[test]
fn key_joins_title_and_identifier() {
    assert_eq!(key_of(&item("Song", "abc")), "Song_abc.mp3");
    assert_eq!(key_of(&item("", "")), "_.mp3");
    assert_eq!(key_of(&item("a_b", "c")), "a_b_c.mp3");
}

#[test]
fn path_lies_under_the_cache_directory() {
    assert_eq!(path_of("/home/u/.config/mpvy/mp3", &item("Song", "abc")),
        "/home/u/.config/mpvy/mp3/Song_abc.mp3");
}

#[test]
fn existing_file_is_a_hit() {
    let settings = Settings::defaults();
    match ensure_local(&item("Song", "abc"), "/c", &settings, true) {
        Local::Hit { path } => assert_eq!(path, "/c/Song_abc.mp3"),
        Local::Fetch { .. } => panic!("a file that exists is not fetched"),
    }
}

#[test]
fn missing_file_is_fetched_by_identifier() {
    let settings = Settings::defaults();
    match ensure_local(&item("Song", "abc"), "/c", &settings, false) {
        Local::Fetch { path, args } => {
            assert_eq!(path, "/c/Song_abc.mp3");
            assert_eq!(args, fetch_args("abc", "/c", &settings));
            assert_eq!(args[0], "abc");
        }
        Local::Hit { .. } => panic!("a file that is missing is fetched"),
    }
}

#[test]
fn second_lookup_is_a_hit() {
    let settings = Settings::defaults();
    let song = item("Song", "abc");
    let mut on_disk: Vec<String> = Vec::new();
    let mut fetches = 0;
    for _ in 0..2 {
        let path = path_of("/c", &song);
        match ensure_local(&song, "/c", &settings, on_disk.contains(&path)) {
            Local::Hit { .. } => {}
            Local::Fetch { path, .. } => {
                fetches += 1;
                on_disk.push(path);
            }
        }
    }
    assert_eq!(fetches, 1);
}

#[test]
fn fetcher_arguments_are_complete() {
    let settings = Settings {
        max_file_count: 15,
        audio_quality: "5".to_string(),
        concurrent_fragments: "2".to_string(),
    };
    let args = fetch_args("abc", "/c/mp3", &settings);
    let expected: Vec<String> = [
        "abc",
        "-x",
        "--audio-format",
        "mp3",
        "--audio-quality",
        "5",
        "--no-playlist",
        "--output",
        "/c/mp3/%(title)s_%(id)s.%(ext)s",
        "--concurrent-fragments",
        "2",
        "--postprocessor-args",
        "ffmpeg:-preset ultrafast",
    ]
    .iter()
    .map(|s| s.to_string())
    .collect();
    assert_eq!(args, expected);
}

#[test]
fn fetcher_success_is_ok() {
    let outcome = FetchOutcome::Exited { success: true, stderr: "warnings".to_string() };
    assert!(download(outcome).is_ok());
}

#[test]
fn fetcher_failure_carries_standard_error() {
    let outcome = FetchOutcome::Exited { success: false, stderr: "HTTP 403".to_string() };
    match download(outcome) {
        Err(PlayError::FetchFailed(report)) => assert_eq!(report, "HTTP 403"),
        _ => panic!("expected a fetch failure"),
    }
}

#[test]
fn fetcher_that_cannot_start_fails() {
    match download(FetchOutcome::Unavailable) {
        Err(PlayError::FetchFailed(report)) => assert_eq!(report, "Failed to execute 'yt-dlp'"),
        _ => panic!("expected a fetch failure"),
    }
}

#[test]
fn failures_have_short_messages() {
    assert_eq!(PlayError::ResolverUnavailable.message(), "Failed to execute 'yt-dlp'.");
    assert_eq!(PlayError::ResolverError("e1".to_string()).message(), "e1");
    assert_eq!(PlayError::NotFound.message(), "Unable to find video on YouTube.");
    assert_eq!(PlayError::FetchFailed("e2".to_string()).message(), "e2");
    assert_eq!(PlayError::RenderSpawnFailed("e3".to_string()).message(), "e3");
    assert_eq!(PlayError::OutOfTurn.message(), "Event out of turn.");
}

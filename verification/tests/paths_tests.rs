use mpvy::paths::{
    download_path_from, get_download_path, ipc_path, ipc_path_from, ipc_path_in, playlist_path,
    playlist_path_from, playlist_path_in, playlists_path, playlists_path_from,
    playlists_path_in, under,
};

fn config_dir_text() -> Option<String> {
    dirs::config_dir().map(|p| format!("{}", p.display()))
}

#[test]
fn under_appends() {
    assert_eq!(under("/a", "/b"), "/a/b");
    assert_eq!(under("", ""), "");
}

#[test]
fn cache_directory_prefers_the_configuration_directory() {
    assert_eq!(
        download_path_from(Some("/cfg".to_string()), Some("/home/u".to_string())),
        Some("/cfg/mpvy/mp3".to_string())
    );
    assert_eq!(
        download_path_from(Some("/cfg".to_string()), None),
        Some("/cfg/mpvy/mp3".to_string())
    );
}

#[test]
fn cache_directory_falls_back_to_home() {
    assert_eq!(
        download_path_from(None, Some("/home/u".to_string())),
        Some("/home/u/.config/mpvy/mp3".to_string())
    );
}

#[test]
fn no_directory_gives_no_cache_directory() {
    assert_eq!(download_path_from(None, None), None);
}

#[test]
fn download_path_follows_the_platform() {
    let expected = match config_dir_text() {
        Some(base) => format!("{}/mpvy/mp3", base),
        None => "/home/u/.config/mpvy/mp3".to_string(),
    };
    assert_eq!(get_download_path(Some("/home/u".to_string())), Some(expected));
    assert_eq!(get_download_path(None), config_dir_text().map(|b| format!("{}/mpvy/mp3", b)));
}

#[test]
fn playlist_paths_in_a_directory() {
    assert_eq!(playlists_path_in("/cfg"), "/cfg/mpvy/playlist/");
    assert_eq!(playlist_path_in("/cfg", "rock"), "/cfg/mpvy/playlist/rock.txt");
    assert_eq!(playlist_path_in("/cfg", ""), "/cfg/mpvy/playlist/.txt");
}

#[test]
fn playlist_paths_follow_the_platform() {
    assert_eq!(playlists_path(), config_dir_text().map(|b| format!("{}/mpvy/playlist/", b)));
    assert_eq!(
        playlist_path("rock"),
        config_dir_text().map(|b| format!("{}/mpvy/playlist/rock.txt", b))
    );
}

#[test]
fn socket_path() {
    assert_eq!(ipc_path_in("/cfg"), "/cfg/mpv/socket");
    assert_eq!(ipc_path(), config_dir_text().map(|b| format!("{}/mpv/socket", b)));
}

#[test]
fn playlists_lie_under_a_given_configuration_directory() {
    assert_eq!(
        playlists_path_from(Some("/cfg".to_string())),
        Some("/cfg/mpvy/playlist/".to_string())
    );
    assert_eq!(playlists_path_from(Some(String::new())), Some("/mpvy/playlist/".to_string()));
    assert_eq!(playlists_path_from(None), None);
}

#[test]
fn playlist_lies_under_a_given_configuration_directory() {
    assert_eq!(
        playlist_path_from(Some("/cfg".to_string()), "rock"),
        Some("/cfg/mpvy/playlist/rock.txt".to_string())
    );
    assert_eq!(
        playlist_path_from(Some("/cfg".to_string()), "a b/c"),
        Some("/cfg/mpvy/playlist/a b/c.txt".to_string())
    );
    assert_eq!(playlist_path_from(None, "rock"), None);
}

#[test]
fn socket_lies_under_a_given_configuration_directory() {
    assert_eq!(ipc_path_from(Some("/cfg".to_string())), Some("/cfg/mpv/socket".to_string()));
    assert_eq!(ipc_path_from(None), None);
}

#[test]
fn paths_of_this_user_are_those_of_the_platform_directory() {
    let config = dirs::config_dir().map(|p| format!("{}", p.display()));
    assert_eq!(playlists_path(), playlists_path_from(config.clone()));
    assert_eq!(playlist_path("jazz"), playlist_path_from(config.clone(), "jazz"));
    assert_eq!(ipc_path(), ipc_path_from(config));
}

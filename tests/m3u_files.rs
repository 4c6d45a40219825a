use dizi::m3u_codec::{read_playlist_paths, resolve_path, write_m3u};

#[test]
fn write_lists_one_path_per_line() {
    let paths = vec!["/music/a.flac".to_string(), "/music/b c.ogg".to_string()];
    assert_eq!(write_m3u(&paths), "/music/a.flac\n/music/b c.ogg\n");
    assert_eq!(write_m3u(&Vec::new()), "");
}

#[test]
fn m3u_round_trip() {
    let paths = vec![
        "/t/a.flac".to_string(),
        "/t/b.flac".to_string(),
        "/t/sub dir/c.ogg".to_string(),
    ];
    let text = write_m3u(&paths);
    let back = read_playlist_paths("/elsewhere", &text);
    assert_eq!(back, paths);
}

#[test]
fn relative_paths_resolve_against_cwd() {
    let text = "#EXTM3U\n# a comment\n\nsongs/a.flac\n  /abs/b.flac  \nc.ogg\n";
    let back = read_playlist_paths("/home/u/music", text);
    assert_eq!(
        back,
        vec![
            "/home/u/music/songs/a.flac".to_string(),
            "/abs/b.flac".to_string(),
            "/home/u/music/c.ogg".to_string(),
        ]
    );
}

#[test]
fn url_entries_are_not_paths() {
    let text = "http://example.com/stream.ogg\n/t/a.flac\n";
    assert_eq!(read_playlist_paths("/", text), vec!["/t/a.flac".to_string()]);
}

#[test]
fn resolve_path_cases() {
    assert_eq!(resolve_path("/a/", "b"), "/a/b");
    assert_eq!(resolve_path("/a", "b"), "/a/b");
    assert_eq!(resolve_path("", "b"), "b");
    assert_eq!(resolve_path("/a", "/b"), "/b");
}

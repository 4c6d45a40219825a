use dizi::dizi_playlist::DiziPlaylist;
use dizi::error::{DiziError, DiziErrorKind};
use dizi::player::{clamp_volume, done_action, wrap_add, DoneAction, Player, PlayerStatus};
use dizi::playlist::{DirlistPlaylist, Playlist, PlaylistStatus};
use dizi::song::Song;

fn song(p: &str) -> Song {
    Song::new(p.to_string(), 60)
}

fn player_with(paths: &[&str]) -> Player {
    let mut q = DiziPlaylist::new();
    for p in paths {
        q.push(song(p));
    }
    Player::new(true, false, false, q)
}

fn decode_error() -> DiziError {
    DiziError::new(DiziErrorKind::DecodingError, "corrupt".to_string())
}

/// Steps through the active queue as the server does when a song ends,
/// refusing the songs whose path is in `broken`. Gives the entry that plays
/// and the number of songs that started (one broadcast each).
fn advance(p: &mut Player, broken: &[&str]) -> (Option<usize>, usize) {
    let mut next = p.advance_first();
    let mut playing = None;
    let mut started = 0;
    while let Some(step) = next {
        let cand = p.advance_candidate(step).unwrap();
        let song = p.song_from_playlist(cand).unwrap();
        let ack = if broken.contains(&song.file_path().as_str()) { Err(decode_error()) } else { Ok(()) };
        let played = p.play_from_playlist(cand, ack).is_ok();
        if played {
            playing = Some(cand);
            started += 1;
        }
        next = p.advance_after(step, played);
    }
    (playing, started)
}

#[test]
fn new_player_is_stopped() {
    let p = player_with(&["/a"]);
    assert_eq!(p.play_status(), PlayerStatus::Stopped);
    assert_eq!(p.get_volume(), 50);
    assert!(p.current_song_ref().is_none());
    assert_eq!(p.playlist_status(), PlaylistStatus::PlaylistFile);
}

#[test]
fn play_pause_resume() {
    let mut p = player_with(&[]);
    p.play(song("/t/a.flac"), Ok(())).unwrap();
    assert_eq!(p.play_status(), PlayerStatus::Playing);
    assert_eq!(p.current_song_ref().unwrap().file_path().as_str(), "/t/a.flac");
    p.pause(Ok(())).unwrap();
    assert_eq!(p.play_status(), PlayerStatus::Paused);
    p.resume(Ok(())).unwrap();
    assert_eq!(p.play_status(), PlayerStatus::Playing);
}

#[test]
fn refused_play_changes_nothing() {
    let mut p = player_with(&["/a"]);
    assert!(p.play(song("/bad"), Err(decode_error())).is_err());
    assert_eq!(p.play_status(), PlayerStatus::Stopped);
    assert!(p.current_song_ref().is_none());
}

#[test]
fn toggle_play_flips() {
    let mut p = player_with(&["/a"]);
    assert_eq!(p.toggle_play(Ok(())).unwrap(), PlayerStatus::Stopped);
    p.play(song("/a"), Ok(())).unwrap();
    assert_eq!(p.toggle_play(Ok(())).unwrap(), PlayerStatus::Paused);
    assert_eq!(p.toggle_play(Ok(())).unwrap(), PlayerStatus::Playing);
    assert!(p.toggle_play(Err(decode_error())).is_err());
    assert_eq!(p.play_status(), PlayerStatus::Playing);
}

#[test]
fn volume_is_clamped() {
    assert_eq!(clamp_volume(120), 100);
    assert_eq!(clamp_volume(-50), 0);
    assert_eq!(clamp_volume(37), 37);
    let mut p = player_with(&[]);
    p.set_volume(120, Ok(())).unwrap();
    assert_eq!(p.get_volume(), 100);
    p.set_volume(-50, Ok(())).unwrap();
    assert_eq!(p.get_volume(), 0);
    assert_eq!(p.volume_after_decrease(5), 0);
    assert_eq!(p.volume_after_increase(30), 30);
    p.set_volume(90, Ok(())).unwrap();
    assert_eq!(p.volume_after_increase(30), 100);
    assert!(p.set_volume(10, Err(decode_error())).is_err());
    assert_eq!(p.get_volume(), 90);
}

#[test]
fn done_action_follows_toggles() {
    assert_eq!(done_action(true, false), DoneAction::Advance);
    assert_eq!(done_action(true, true), DoneAction::Advance);
    assert_eq!(done_action(false, true), DoneAction::Replay);
    assert_eq!(done_action(false, false), DoneAction::Stop);
}

#[test]
fn advance_on_end_moves_to_next() {
    let mut p = player_with(&["/a", "/b", "/c"]);
    p.set_next(true);
    p.set_repeat(false);
    p.play_from_playlist(0, Ok(())).unwrap();
    assert_eq!(done_action(p.next_enabled(), p.repeat_enabled()), DoneAction::Advance);
    assert_eq!(advance(&mut p, &[]), (Some(1), 1));
    assert_eq!(p.current_song_ref().unwrap().file_path().as_str(), "/b");
    assert_eq!(p.playlist_ref().order_index, Some(1));
}

#[test]
fn advance_skips_unplayable() {
    let mut p = player_with(&["/a", "/broken", "/c"]);
    p.play_from_playlist(0, Ok(())).unwrap();
    assert_eq!(advance(&mut p, &["/broken"]), (Some(2), 1));
    assert_eq!(p.current_song_ref().unwrap().file_path().as_str(), "/c");
    assert_eq!(p.play_status(), PlayerStatus::Playing);
}

#[test]
fn shuffle_toggle_keeps_current() {
    let mut p = player_with(&["/a", "/b", "/c", "/d"]);
    p.play_from_playlist(1, Ok(())).unwrap();
    assert_eq!(p.playlist_ref().order_index, Some(1));
    p.set_shuffle(true);
    assert!(p.shuffle_enabled());
    assert_eq!(p.playlist_ref().order[0], 1);
    assert_eq!(p.playlist_ref().order_index, Some(0));
    p.set_shuffle(false);
    assert_eq!(p.playlist_ref().order, vec![0, 1, 2, 3]);
    assert_eq!(p.playlist_ref().order_index, Some(1));
}

#[test]
fn play_from_playlist_out_of_range() {
    let mut p = player_with(&["/a"]);
    let e = p.play_from_playlist(3, Ok(())).unwrap_err();
    assert_eq!(e.kind, DiziErrorKind::InvalidParameters);
    assert_eq!(p.play_status(), PlayerStatus::Stopped);
    assert!(p.song_from_playlist(1).is_err());
}

#[test]
fn play_entire_directory_sorts_and_finds_song() {
    let mut p = player_with(&[]);
    let listing = vec!["/m/c.flac".to_string(), "/m/a.flac".to_string(), "/m/b.flac".to_string()];
    p.play_entire_directory(song("/m/b.flac"), listing, Ok(())).unwrap();
    assert_eq!(p.playlist_status(), PlaylistStatus::DirectoryListing);
    let d = p.dirlist_playlist_ref();
    assert_eq!(d.list_ref(), &vec!["/m/a.flac".to_string(), "/m/b.flac".to_string(), "/m/c.flac".to_string()]);
    assert_eq!(d.index, 1);
    assert_eq!(p.advance_candidate(1), Some(2));
    assert_eq!(p.advance_candidate(2), Some(0));
    let path = p.path_from_directory(2).unwrap();
    p.play_from_directory(2, song(&path), Ok(())).unwrap();
    assert_eq!(p.dirlist_playlist_ref().index, 2);
    assert!(p.path_from_directory(3).is_err());
}

#[test]
fn clone_player_state_reports_fields() {
    let mut p = player_with(&["/a", "/b"]);
    p.play_from_playlist(1, Ok(())).unwrap();
    p.set_elapsed(7);
    let s = p.clone_player_state();
    assert_eq!(s.status, PlayerStatus::Playing);
    assert_eq!(s.elapsed_ms, 7);
    assert_eq!(s.volume, 50);
    assert_eq!(s.playlist.order_index, Some(1));
    assert_eq!(s.song.unwrap().file_path().as_str(), "/b");
}

#[test]
fn wrap_add_wraps() {
    assert_eq!(wrap_add(2, 1, 3), 0);
    assert_eq!(wrap_add(1, 7, 3), 2);
    assert_eq!(wrap_add(0, usize::MAX, 5), usize::MAX % 5);
}

#[test]
fn client_playlist_list_operations() {
    let mut l = Playlist::new();
    l.append_song(song("/a"));
    l.append_song(song("/b"));
    assert_eq!(l.len(), 2);
    assert!(l.contains(&"/b".to_string()));
    assert!(!l.contains(&"/c".to_string()));
    let removed = l.remove_song(0);
    assert_eq!(removed.file_path().as_str(), "/a");
    assert_eq!(l.playlist().len(), 1);
    assert!(!l.contains(&"/a".to_string()));
    l.list_mut().push(song("/z"));
    assert_eq!(l.list_ref().len(), 2);
}

#[test]
fn dirlist_arrange_and_lookup() {
    let mut d = DirlistPlaylist::from_paths(vec!["/d/b".to_string(), "/d/a".to_string()]);
    assert_eq!(d.len(), 2);
    d.arrange(false, &"/d/b".to_string());
    assert_eq!(d.list_ref(), &vec!["/d/a".to_string(), "/d/b".to_string()]);
    assert_eq!(d.index, 1);
    assert_eq!(d.position_of(&"/d/a".to_string()), Some(0));
    assert_eq!(d.position_of(&"/d/x".to_string()), None);
    d.arrange(true, &"/d/x".to_string());
    assert_eq!(d.index, 0);
    assert_eq!(d.len(), 2);
    assert_eq!(DirlistPlaylist::new().len(), 0);
}

#[test]
fn advance_steps_are_bounded() {
    let p = player_with(&["/a", "/b", "/c"]);
    assert_eq!(p.advance_first(), Some(1));
    assert_eq!(p.advance_after(1, false), Some(2));
    assert_eq!(p.advance_after(2, false), None);
    assert_eq!(p.advance_after(1, true), None);
    let single = player_with(&["/a"]);
    assert_eq!(single.advance_first(), None);
}

#[test]
fn advance_gives_up_when_nothing_plays() {
    let mut p = player_with(&["/a", "/b", "/c"]);
    p.play_from_playlist(0, Ok(())).unwrap();
    assert_eq!(advance(&mut p, &["/b", "/c"]), (None, 0));
    assert_eq!(p.current_song_ref().unwrap().file_path().as_str(), "/a");
}

#[test]
fn finish_song_stops() {
    let mut p = player_with(&["/a"]);
    p.play_from_playlist(0, Ok(())).unwrap();
    p.finish_song();
    assert_eq!(p.play_status(), PlayerStatus::Stopped);
    assert_eq!(p.current_song_ref().unwrap().file_path().as_str(), "/a");
}

#[test]
fn playlist_from_probed_keeps_readable_songs() {
    let found = vec![Some(song("/a")), None, Some(song("/c"))];
    let q = DiziPlaylist::from_probed(&found);
    let paths: Vec<&str> = q.contents.iter().map(|s| s.file_path().as_str()).collect();
    assert_eq!(paths, vec!["/a", "/c"]);
    assert_eq!(q.order, vec![0, 1]);
    assert_eq!(q.order_index, None);
}

#[test]
fn shuffle_off_sorts_listing_without_current() {
    let mut p = player_with(&[]);
    *p.dirlist_playlist_mut() = DirlistPlaylist::from_paths(vec!["/d/b".to_string(), "/d/a".to_string()]);
    p.dirlist_playlist_mut().set_playing_index(5);
    p.set_shuffle(false);
    assert_eq!(p.dirlist_playlist_ref().list_ref(), &vec!["/d/a".to_string(), "/d/b".to_string()]);
    assert_eq!(p.dirlist_playlist_ref().index, 5);
    p.set_shuffle(true);
    assert_eq!(p.dirlist_playlist_ref().len(), 2);
}

#[test]
fn new_player_listing_starts_empty() {
    let p = player_with(&["/a"]);
    assert_eq!(p.dirlist_playlist_ref().len(), 0);
    assert_eq!(p.dirlist_playlist_ref().index, 0);
}

use dizi::dizi_playlist::DiziPlaylist;
use dizi::error::DiziErrorKind;
use dizi::song::Song;

fn song(p: &str) -> Song {
    Song::new(p.to_string(), 60)
}

fn queue(paths: &[&str]) -> DiziPlaylist {
    let mut q = DiziPlaylist::new();
    for p in paths {
        q.push(song(p));
    }
    q
}

fn paths(q: &DiziPlaylist) -> Vec<String> {
    q.contents.iter().map(|s| s.file_path().clone()).collect()
}

fn is_perm(order: &[usize], n: usize) -> bool {
    let mut seen = vec![false; n];
    if order.len() != n {
        return false;
    }
    for &e in order {
        if e >= n || seen[e] {
            return false;
        }
        seen[e] = true;
    }
    true
}

#[test]
fn push_appends_to_order() {
    let q = queue(&["/a", "/b", "/c"]);
    assert_eq!(q.len(), 3);
    assert_eq!(q.order, vec![0, 1, 2]);
    assert_eq!(q.order_index, None);
    assert!(!q.is_empty());
}

#[test]
fn order_stays_a_permutation() {
    let mut q = queue(&["/a", "/b", "/c", "/d", "/e"]);
    q.set_playing_index(2);
    q.shuffle();
    assert!(is_perm(&q.order, q.len()));
    q.remove(1).unwrap();
    assert!(is_perm(&q.order, q.len()));
    q.push(song("/f"));
    assert!(is_perm(&q.order, q.len()));
    q.unshuffle();
    assert!(is_perm(&q.order, q.len()));
}

#[test]
fn swap_twice_is_identity() {
    let mut q = queue(&["/a", "/b", "/c", "/d"]);
    q.shuffle();
    q.set_playing_index(1);
    let before_paths = paths(&q);
    let before_order = q.order.clone();
    let before_index = q.order_index;
    q.swap(0, 3).unwrap();
    let mut swapped = before_paths.clone();
    swapped.swap(0, 3);
    assert_eq!(paths(&q), swapped);
    q.swap(0, 3).unwrap();
    assert_eq!(paths(&q), before_paths);
    assert_eq!(q.order, before_order);
    assert_eq!(q.order_index, before_index);
}

#[test]
fn swap_keeps_current_song() {
    let mut q = queue(&["/a", "/b", "/c"]);
    q.set_playing_index(0);
    q.swap(0, 1).unwrap();
    let cur = q.current_song().unwrap();
    assert_eq!(cur.entry.file_path().as_str(), "/a");
    assert_eq!(cur.entry_index, 1);
}

#[test]
fn swap_out_of_range_is_refused() {
    let mut q = queue(&["/a", "/b"]);
    let e = q.swap(0, 2).unwrap_err();
    assert_eq!(e.kind, DiziErrorKind::InvalidParameters);
    assert_eq!(paths(&q), vec!["/a".to_string(), "/b".to_string()]);
}

#[test]
fn shuffle_puts_current_first() {
    let mut q = queue(&["/a", "/b", "/c", "/d"]);
    q.set_playing_index(1);
    assert_eq!(q.order_index, Some(1));
    q.shuffle();
    assert_eq!(q.order[0], 1);
    assert_eq!(q.order_index, Some(0));
    assert!(is_perm(&q.order, 4));
    assert_eq!(q.current_song().unwrap().entry.file_path().as_str(), "/b");
}

#[test]
fn shuffle_without_current_keeps_none() {
    let mut q = queue(&["/a", "/b", "/c"]);
    q.shuffle();
    assert_eq!(q.order_index, None);
    assert!(is_perm(&q.order, 3));
}

#[test]
fn unshuffle_after_shuffle_restores_order() {
    let mut q = queue(&["/a", "/b", "/c", "/d", "/e"]);
    q.set_playing_index(3);
    q.shuffle();
    q.unshuffle();
    assert_eq!(q.order, vec![0, 1, 2, 3, 4]);
    assert_eq!(q.order_index, Some(3));
    assert_eq!(q.current_song().unwrap().entry.file_path().as_str(), "/d");
}

#[test]
fn is_end_matches_wrap() {
    let mut q = queue(&["/a", "/b", "/c"]);
    assert!(q.is_end());
    assert!(q.next_song_peak().is_none());
    q.set_playing_index(1);
    assert!(!q.is_end());
    assert_eq!(q.next_song_peak().unwrap().order_index, 2);
    q.set_playing_index(2);
    assert!(q.is_end());
    let next = q.next_song_peak().unwrap();
    assert_eq!(next.order_index, 0);
    assert_eq!(next.entry_index, q.order[0]);
}

#[test]
fn previous_wraps_to_last() {
    let mut q = queue(&["/a", "/b", "/c"]);
    q.set_playing_index(0);
    let prev = q.previous_song_peak().unwrap();
    assert_eq!(prev.order_index, 2);
    assert_eq!(prev.entry.file_path().as_str(), "/c");
}

#[test]
fn remove_first_last_and_current() {
    let mut q = queue(&["/a", "/b", "/c", "/d"]);
    q.set_playing_index(2);
    q.remove(0).unwrap();
    assert_eq!(paths(&q), vec!["/b", "/c", "/d"]);
    assert_eq!(q.order, vec![0, 1, 2]);
    assert_eq!(q.order_index, Some(1));
    assert_eq!(q.current_song().unwrap().entry.file_path().as_str(), "/c");

    q.remove(2).unwrap();
    assert_eq!(paths(&q), vec!["/b", "/c"]);
    assert_eq!(q.order, vec![0, 1]);
    assert_eq!(q.order_index, Some(1));

    q.remove(1).unwrap();
    assert_eq!(paths(&q), vec!["/b"]);
    assert_eq!(q.order, vec![0]);
    assert_eq!(q.order_index, None);
}

#[test]
fn remove_with_shuffled_order() {
    let mut q = queue(&["/a", "/b", "/c"]);
    q.order = vec![2, 0, 1];
    q.order_index = Some(2);
    q.remove(0).unwrap();
    assert_eq!(q.order, vec![1, 0]);
    assert_eq!(q.order_index, Some(1));
    assert_eq!(q.current_song().unwrap().entry.file_path().as_str(), "/b");
}

#[test]
fn remove_out_of_range_is_refused() {
    let mut q = queue(&["/a"]);
    let e = q.remove(1).unwrap_err();
    assert_eq!(e.kind, DiziErrorKind::InvalidParameters);
    assert_eq!(q.len(), 1);
}

#[test]
fn shuffle_short_queues_is_noop() {
    let mut empty = DiziPlaylist::new();
    empty.shuffle();
    assert!(empty.order.is_empty());
    assert_eq!(empty.order_index, None);

    let mut one = queue(&["/a"]);
    one.shuffle();
    assert_eq!(one.order, vec![0]);
    assert_eq!(one.order_index, None);
    one.set_playing_index(0);
    one.shuffle();
    assert_eq!(one.order, vec![0]);
    assert_eq!(one.order_index, Some(0));
}

#[test]
fn clear_empties_queue() {
    let mut q = queue(&["/a", "/b"]);
    q.set_playing_index(1);
    q.clear();
    assert!(q.is_empty());
    assert!(q.order.is_empty());
    assert_eq!(q.order_index, None);
}

#[test]
fn move_up_and_down() {
    let mut q = queue(&["/a", "/b", "/c"]);
    q.set_playing_index(1);
    q.move_up(1).unwrap();
    assert_eq!(paths(&q), vec!["/b", "/a", "/c"]);
    assert_eq!(q.current_song().unwrap().entry.file_path().as_str(), "/b");
    q.move_down(1).unwrap();
    assert_eq!(paths(&q), vec!["/b", "/c", "/a"]);
    assert_eq!(q.move_up(0).unwrap_err().kind, DiziErrorKind::InvalidParameters);
    assert_eq!(q.move_down(2).unwrap_err().kind, DiziErrorKind::InvalidParameters);
    assert_eq!(q.move_up(3).unwrap_err().kind, DiziErrorKind::InvalidParameters);
    assert_eq!(paths(&q), vec!["/b", "/c", "/a"]);
}

use vstd::prelude::*;

use crate::dizi_playlist::DiziPlaylist;
use crate::error::{DiziError, DiziErrorKind, DiziResult};
use crate::playlist::{text_le, DirlistPlaylist, PlaylistStatus};
use crate::song::Song;

verus! {

broadcast use vstd::seq_lib::group_to_multiset_ensures;

/// Whether a song plays.
#[derive(Clone, Copy, Debug, PartialEq, Eq, Structural)]
pub enum PlayerStatus {
    Stopped,
    Playing,
    Paused,
}

/// What to do when the current song has played to its end.
#[derive(Clone, Copy, Debug, PartialEq, Eq, Structural)]
pub enum DoneAction {
    /// Play the same song again.
    Replay,
    /// Stay stopped.
    Stop,
    /// Step through the active queue to the next song that plays.
    Advance,
}

/// The highest volume, in percent.
pub const MAX_VOLUME: usize = 100;

/// The volume `v`, in percent, held to `[0, 100]`.
pub open spec fn clamp_volume_spec(v: int) -> int {
    if v < 0 {
        0
    } else if v > MAX_VOLUME {
        MAX_VOLUME as int
    } else {
        v
    }
}

/// Holds a requested volume, in percent, to `[0, 100]`.
pub fn clamp_volume(v: i64) -> (r: usize)
    ensures
        r as int == clamp_volume_spec(v as int),
{
    if v < 0 {
        0
    } else if v > MAX_VOLUME as i64 {
        MAX_VOLUME
    } else {
        v as usize
    }
}

/// What to do at the end of a song, from the `next` and `repeat` toggles.
pub fn done_action(next: bool, repeat: bool) -> (r: DoneAction)
    ensures
        next ==> r == DoneAction::Advance,
        !next && repeat ==> r == DoneAction::Replay,
        !next && !repeat ==> r == DoneAction::Stop,
{
    if next {
        DoneAction::Advance
    } else if repeat {
        DoneAction::Replay
    } else {
        DoneAction::Stop
    }
}

/// What the server reports to its clients of the player.
#[derive(Debug)]
pub struct PlayerState {
    pub song: Option<Song>,
    pub elapsed_ms: u64,
    pub status: PlayerStatus,
    pub playlist_status: PlaylistStatus,
    pub volume: usize,
    pub next: bool,
    pub repeat: bool,
    pub shuffle: bool,
    pub playlist: DiziPlaylist,
}

/// The player's state. The audio worker that makes the sound is driven from
/// outside: each method that stands for a request to it takes the worker's
/// acknowledgement `ack` and changes the state only when it is `Ok`.
#[derive(Debug)]
pub struct Player {
    pub current_song: Option<Song>,
    pub elapsed_ms: u64,
    pub status: PlayerStatus,
    pub playlist_status: PlaylistStatus,
    pub volume: usize,
    pub shuffle: bool,
    pub repeat: bool,
    pub next: bool,
    pub playlist: DiziPlaylist,
    pub dirlist_playlist: DirlistPlaylist,
}

fn copy_song(s: &Option<Song>) -> (r: Option<Song>)
    ensures
        r == *s,
{
    match s {
        Some(song) => Some(song.duplicate()),
        None => None,
    }
}

fn out_of_bounds() -> (e: DiziError)
    ensures
        e.kind == DiziErrorKind::InvalidParameters,
{
    DiziError::new(DiziErrorKind::InvalidParameters, "index out of bounds".to_owned())
}

impl Player {
    /// Well-formed: the play queue is well formed and the volume is at most 100.
    pub open spec fn wf(&self) -> bool {
        self.playlist.wf() && self.volume <= MAX_VOLUME
    }

    /// `self` is `prev` but for the fields that playing `song` sets.
    pub open spec fn playing_from(&self, prev: Player, song: Song) -> bool {
        &&& self.status == PlayerStatus::Playing
        &&& self.current_song == Some(song)
        &&& self.elapsed_ms == 0
        &&& self.volume == prev.volume
        &&& self.shuffle == prev.shuffle
        &&& self.repeat == prev.repeat
        &&& self.next == prev.next
    }

    /// A stopped player at half volume with the given toggles and queue.
    pub fn new(next: bool, repeat: bool, shuffle: bool, playlist: DiziPlaylist) -> (r: Player)
        requires
            playlist.wf(),
        ensures
            r.wf(),
            r.current_song is None,
            r.elapsed_ms == 0,
            r.status == PlayerStatus::Stopped,
            r.playlist_status == PlaylistStatus::PlaylistFile,
            r.volume == 50,
            r.next == next,
            r.repeat == repeat,
            r.shuffle == shuffle,
            r.playlist == playlist,
            r.dirlist_playlist.paths().len() == 0,
            r.dirlist_playlist.index == 0,
    {
        Player {
            current_song: None,
            elapsed_ms: 0,
            status: PlayerStatus::Stopped,
            playlist_status: PlaylistStatus::PlaylistFile,
            volume: 50,
            shuffle,
            repeat,
            next,
            playlist,
            dirlist_playlist: DirlistPlaylist::new(),
        }
    }

    /// A snapshot of the state for the clients.
    pub fn clone_player_state(&self) -> (r: PlayerState)
        requires
            self.wf(),
        ensures
            r.song == self.current_song,
            r.elapsed_ms == self.elapsed_ms,
            r.status == self.status,
            r.playlist_status == self.playlist_status,
            r.volume == self.volume,
            r.next == self.next,
            r.repeat == self.repeat,
            r.shuffle == self.shuffle,
            r.playlist.wf(),
            r.playlist.contents@ == self.playlist.contents@,
            r.playlist.order@ == self.playlist.order@,
            r.playlist.order_index == self.playlist.order_index,
    {
        PlayerState {
            song: copy_song(&self.current_song),
            elapsed_ms: self.elapsed_ms,
            status: self.status,
            playlist_status: self.playlist_status,
            volume: self.volume,
            next: self.next,
            repeat: self.repeat,
            shuffle: self.shuffle,
            playlist: self.playlist.duplicate(),
        }
    }

    /// Records that `song` plays, once the worker has acknowledged it.
    pub fn play(&mut self, song: Song, ack: DiziResult<()>) -> (r: DiziResult<()>)
        ensures
            r is Ok <==> ack is Ok,
            r is Err ==> *final(self) == *old(self) && r == ack,
            r is Ok ==> final(self).playing_from(*old(self), song) && final(self).playlist
                == old(self).playlist && final(self).dirlist_playlist == old(self).dirlist_playlist
                && final(self).playlist_status == old(self).playlist_status,
    {
        match ack {
            Err(e) => Err(e),
            Ok(()) => {
                self.status = PlayerStatus::Playing;
                self.current_song = Some(song);
                self.elapsed_ms = 0;
                Ok(())
            },
        }
    }

    /// The song at `index` of the play queue, to hand to the worker.
    pub fn song_from_playlist(&self, index: usize) -> (r: DiziResult<Song>)
        requires
            self.wf(),
        ensures
            r is Err <==> index >= self.playlist.contents@.len(),
            r matches Err(e) ==> e.kind == DiziErrorKind::InvalidParameters,
            r matches Ok(s) ==> s == self.playlist.contents@[index as int],
    {
        if index >= self.playlist.len() {
            return Err(out_of_bounds());
        }
        Ok(self.playlist.entry_ref(index).duplicate())
    }

    /// Plays the entry `index` of the play queue, once the worker has
    /// acknowledged it; the queue becomes the active one.
    pub fn play_from_playlist(&mut self, index: usize, ack: DiziResult<()>) -> (r: DiziResult<()>)
        requires
            old(self).wf(),
        ensures
            final(self).wf(),
            r is Ok <==> (index < old(self).playlist.contents@.len() && ack is Ok),
            index >= old(self).playlist.contents@.len() ==> (r matches Err(e) && e.kind
                == DiziErrorKind::InvalidParameters),
            r is Err ==> *final(self) == *old(self),
            r is Ok ==> final(self).playing_from(*old(self), old(self).playlist.contents@[index as int])
                && final(self).playlist_status == PlaylistStatus::PlaylistFile
                && final(self).playlist.contents@ == old(self).playlist.contents@
                && final(self).playlist.order@ == old(self).playlist.order@
                && final(self).dirlist_playlist == old(self).dirlist_playlist,
            r is Ok ==> (final(self).playlist.order_index matches Some(k) && final(self).playlist.order@[k as int]
                == index),
    {
        if index >= self.playlist.len() {
            return Err(out_of_bounds());
        }
        let song = self.playlist.entry_ref(index).duplicate();
        match self.play(song, ack) {
            Err(e) => Err(e),
            Ok(()) => {
                self.playlist.set_playing_index(index);
                self.playlist_status = PlaylistStatus::PlaylistFile;
                Ok(())
            },
        }
    }

    /// The path at `index` of the directory listing, to probe and hand to the worker.
    pub fn path_from_directory(&self, index: usize) -> (r: DiziResult<String>)
        ensures
            r is Err <==> index >= self.dirlist_playlist.paths().len(),
            r matches Err(e) ==> e.kind == DiziErrorKind::InvalidParameters,
            r matches Ok(p) ==> p == self.dirlist_playlist.paths()[index as int],
    {
        if index >= self.dirlist_playlist.len() {
            return Err(out_of_bounds());
        }
        Ok(self.dirlist_playlist.list_ref()[index].clone())
    }

    /// Plays `song`, read from the entry `index` of the directory listing, once
    /// the worker has acknowledged it; the listing becomes the active queue.
    pub fn play_from_directory(&mut self, index: usize, song: Song, ack: DiziResult<()>) -> (r:
        DiziResult<()>)
        requires
            old(self).wf(),
            index < old(self).dirlist_playlist.paths().len() ==> song.file_path@
                == old(self).dirlist_playlist.paths()[index as int]@,
        ensures
            final(self).wf(),
            r is Ok <==> (index < old(self).dirlist_playlist.paths().len() && ack is Ok),
            index >= old(self).dirlist_playlist.paths().len() ==> (r matches Err(e) && e.kind
                == DiziErrorKind::InvalidParameters),
            r is Err ==> *final(self) == *old(self),
            r is Ok ==> final(self).playing_from(*old(self), song)
                && final(self).playlist_status == PlaylistStatus::DirectoryListing
                && final(self).dirlist_playlist.paths() == old(self).dirlist_playlist.paths()
                && final(self).dirlist_playlist.index == index
                && final(self).playlist == old(self).playlist,
    {
        if index >= self.dirlist_playlist.len() {
            return Err(out_of_bounds());
        }
        match self.play(song, ack) {
            Err(e) => Err(e),
            Ok(()) => {
                self.dirlist_playlist.set_playing_index(index);
                self.playlist_status = PlaylistStatus::DirectoryListing;
                Ok(())
            },
        }
    }

    /// Plays `song` and makes the files of its directory, `listing`, the active
    /// queue: sorted by name, or in random order when shuffle is on, with the
    /// song's own path current.
    pub fn play_entire_directory(&mut self, song: Song, listing: Vec<String>, ack: DiziResult<()>) -> (r:
        DiziResult<()>)
        requires
            old(self).wf(),
        ensures
            final(self).wf(),
            r is Ok <==> ack is Ok,
            r is Err ==> *final(self) == *old(self),
            r is Ok ==> final(self).playing_from(*old(self), song)
                && final(self).playlist_status == PlaylistStatus::DirectoryListing
                && final(self).dirlist_playlist.paths().to_multiset() == listing@.to_multiset()
                && final(self).playlist == old(self).playlist,
            r is Ok && holds_path_of(final(self).dirlist_playlist, song.file_path@)
                ==> final(self).dirlist_playlist.current_is(song.file_path@),
            r is Ok && !holds_path_of(final(self).dirlist_playlist, song.file_path@)
                ==> final(self).dirlist_playlist.index == 0,
            r is Ok && !old(self).shuffle ==> forall|i: int, j: int|
                0 <= i < j < final(self).dirlist_playlist.paths().len() ==> text_le(
                    #[trigger] final(self).dirlist_playlist.paths()[i]@,
                    #[trigger] final(self).dirlist_playlist.paths()[j]@,
                ),
    {
        if ack.is_err() {
            return ack;
        }
        let mut dirlist = DirlistPlaylist::from_paths(listing);
        dirlist.arrange(self.shuffle, song.file_path());
        let r = self.play(song, ack);
        self.dirlist_playlist = dirlist;
        self.playlist_status = PlaylistStatus::DirectoryListing;
        r
    }

    /// Records a pause, once the worker has acknowledged it.
    pub fn pause(&mut self, ack: DiziResult<()>) -> (r: DiziResult<()>)
        ensures
            r == ack,
            r is Err ==> *final(self) == *old(self),
            r is Ok ==> *final(self) == (Player { status: PlayerStatus::Paused, ..*old(self) }),
    {
        if ack.is_ok() {
            self.status = PlayerStatus::Paused;
        }
        ack
    }

    /// Records a resumption, once the worker has acknowledged it.
    pub fn resume(&mut self, ack: DiziResult<()>) -> (r: DiziResult<()>)
        ensures
            r == ack,
            r is Err ==> *final(self) == *old(self),
            r is Ok ==> *final(self) == (Player { status: PlayerStatus::Playing, ..*old(self) }),
    {
        if ack.is_ok() {
            self.status = PlayerStatus::Playing;
        }
        ack
    }

    /// Flips between playing and paused; a stopped player stays stopped and
    /// sends no request, so its `ack` is not read.
    pub fn toggle_play(&mut self, ack: DiziResult<()>) -> (r: DiziResult<PlayerStatus>)
        ensures
            old(self).status == PlayerStatus::Stopped ==> r == Ok::<PlayerStatus, DiziError>(
                PlayerStatus::Stopped,
            ) && *final(self) == *old(self),
            old(self).status != PlayerStatus::Stopped ==> (r is Ok <==> ack is Ok),
            r is Err ==> *final(self) == *old(self),
            old(self).status == PlayerStatus::Playing && r is Ok ==> r == Ok::<PlayerStatus, DiziError>(
                PlayerStatus::Paused,
            ) && *final(self) == (Player { status: PlayerStatus::Paused, ..*old(self) }),
            old(self).status == PlayerStatus::Paused && r is Ok ==> r == Ok::<PlayerStatus, DiziError>(
                PlayerStatus::Playing,
            ) && *final(self) == (Player { status: PlayerStatus::Playing, ..*old(self) }),
    {
        match self.status {
            PlayerStatus::Playing => match self.pause(ack) {
                Err(e) => Err(e),
                Ok(()) => Ok(PlayerStatus::Paused),
            },
            PlayerStatus::Paused => match self.resume(ack) {
                Err(e) => Err(e),
                Ok(()) => Ok(PlayerStatus::Playing),
            },
            PlayerStatus::Stopped => Ok(PlayerStatus::Stopped),
        }
    }

    pub fn play_status(&self) -> (r: PlayerStatus)
        ensures
            r == self.status,
    {
        self.status
    }

    pub fn playlist_status(&self) -> (r: PlaylistStatus)
        ensures
            r == self.playlist_status,
    {
        self.playlist_status
    }

    pub fn set_playlist_status(&mut self, status: PlaylistStatus)
        ensures
            *final(self) == (Player { playlist_status: status, ..*old(self) }),
    {
        self.playlist_status = status;
    }

    /// The volume, in percent.
    pub fn get_volume(&self) -> (r: usize)
        ensures
            r == self.volume,
    {
        self.volume
    }

    /// The volume, in percent, that a request for `v` sets.
    pub fn volume_request(v: i64) -> (r: usize)
        ensures
            r as int == clamp_volume_spec(v as int),
    {
        clamp_volume(v)
    }

    /// Sets the volume to `v` percent held to `[0, 100]`, once the worker has
    /// acknowledged that level.
    pub fn set_volume(&mut self, v: i64, ack: DiziResult<()>) -> (r: DiziResult<()>)
        ensures
            r == ack,
            r is Err ==> *final(self) == *old(self),
            r is Ok ==> *final(self) == (Player { volume: clamp_volume_spec(v as int) as usize, ..*old(self) }),
    {
        if ack.is_ok() {
            self.volume = clamp_volume(v);
        }
        ack
    }

    /// The volume, in percent, after raising it by `amount` percent.
    pub fn volume_after_increase(&self, amount: usize) -> (r: usize)
        requires
            self.wf(),
        ensures
            r as int == clamp_volume_spec(self.volume + amount),
    {
        if amount >= MAX_VOLUME - self.volume {
            MAX_VOLUME
        } else {
            self.volume + amount
        }
    }

    /// The volume, in percent, after lowering it by `amount` percent.
    pub fn volume_after_decrease(&self, amount: usize) -> (r: usize)
        requires
            self.wf(),
        ensures
            r as int == clamp_volume_spec(self.volume - amount),
    {
        if amount >= self.volume {
            0
        } else {
            self.volume - amount
        }
    }

    pub fn next_enabled(&self) -> (r: bool)
        ensures
            r == self.next,
    {
        self.next
    }

    pub fn repeat_enabled(&self) -> (r: bool)
        ensures
            r == self.repeat,
    {
        self.repeat
    }

    pub fn shuffle_enabled(&self) -> (r: bool)
        ensures
            r == self.shuffle,
    {
        self.shuffle
    }

    pub fn set_next(&mut self, next: bool)
        ensures
            *final(self) == (Player { next, ..*old(self) }),
    {
        self.next = next;
    }

    pub fn set_repeat(&mut self, repeat: bool)
        ensures
            *final(self) == (Player { repeat, ..*old(self) }),
    {
        self.repeat = repeat;
    }

    /// Sets the shuffle toggle. Turning it on shuffles the play queue and the
    /// directory listing, turning it off restores their natural order (the
    /// listing sorted by name); in both the current song stays current. A
    /// listing without a current entry is reordered all the same.
    pub fn set_shuffle(&mut self, shuffle: bool)
        requires
            old(self).wf(),
        ensures
            final(self).wf(),
            final(self).shuffle == shuffle,
            shuffle ==> final(self).playlist.shuffled_from(old(self).playlist),
            !shuffle ==> final(self).playlist.unshuffled_from(old(self).playlist),
            final(self).dirlist_playlist.paths().to_multiset() == old(self).dirlist_playlist.paths().to_multiset(),
            old(self).dirlist_playlist.index < old(self).dirlist_playlist.paths().len() ==> final(self).dirlist_playlist.current_is(
                old(self).dirlist_playlist.paths()[old(self).dirlist_playlist.index as int]@,
            ),
            !shuffle ==> forall|i: int, j: int|
                0 <= i < j < final(self).dirlist_playlist.paths().len() ==> text_le(
                    #[trigger] final(self).dirlist_playlist.paths()[i]@,
                    #[trigger] final(self).dirlist_playlist.paths()[j]@,
                ),
            old(self).dirlist_playlist.index >= old(self).dirlist_playlist.paths().len()
                ==> final(self).dirlist_playlist.index == old(self).dirlist_playlist.index,
            final(self).current_song == old(self).current_song,
            final(self).status == old(self).status,
            final(self).playlist_status == old(self).playlist_status,
            final(self).volume == old(self).volume,
            final(self).next == old(self).next,
            final(self).repeat == old(self).repeat,
            final(self).elapsed_ms == old(self).elapsed_ms,
    {
        self.shuffle = shuffle;
        if shuffle {
            self.playlist.shuffle();
        } else {
            self.playlist.unshuffle();
        }
        let n = self.dirlist_playlist.len();
        let k = self.dirlist_playlist.index;
        if k < n {
            let current = self.dirlist_playlist.list_ref()[k].clone();
            self.dirlist_playlist.arrange(shuffle, &current);
            proof {
                let ps = self.dirlist_playlist.paths();
                let olds = old(self).dirlist_playlist.paths();
                assert(olds.contains(olds[k as int]));
                assert(olds.to_multiset().count(olds[k as int]) > 0);
                assert(ps.contains(olds[k as int]));
                let j = choose|j: int| 0 <= j < ps.len() && ps[j] == olds[k as int];
                assert(ps[j]@ == current@);
            }
        } else {
            self.dirlist_playlist.reorder(shuffle);
        }
    }

    /// The length of the active queue.
    pub fn active_len(&self) -> (r: usize)
        ensures
            r == self.active_len_spec(),
    {
        match self.playlist_status {
            PlaylistStatus::PlaylistFile => self.playlist.len(),
            PlaylistStatus::DirectoryListing => self.dirlist_playlist.len(),
        }
    }

    /// The entry of the active queue that lies `step` places after the current
    /// one, wrapping round: in the play queue by its play order, in the
    /// directory listing by position. None when the active queue has no
    /// current entry.
    pub fn advance_candidate(&self, step: usize) -> (r: Option<usize>)
        requires
            self.wf(),
        ensures
            self.playlist_status == PlaylistStatus::PlaylistFile ==> match self.playlist.order_index {
                Some(k) => r == Some(
                    self.playlist.order@[(k + step) % (self.playlist.contents@.len() as int)],
                ),
                None => r is None,
            },
            self.playlist_status == PlaylistStatus::DirectoryListing ==> if self.dirlist_playlist.index
                < self.dirlist_playlist.paths().len() {
                r == Some(
                    ((self.dirlist_playlist.index + step) % (self.dirlist_playlist.paths().len() as int)) as usize,
                )
            } else {
                r is None
            },
    {
        match self.playlist_status {
            PlaylistStatus::PlaylistFile => match self.playlist.order_index {
                Some(k) => {
                    let p = wrap_add(k, step, self.playlist.len());
                    Some(self.playlist.order[p])
                },
                None => None,
            },
            PlaylistStatus::DirectoryListing => {
                let n = self.dirlist_playlist.len();
                let k = self.dirlist_playlist.index;
                if k < n {
                    Some(wrap_add(k, step, n))
                } else {
                    None
                }
            },
        }
    }

    /// One step of the advance that follows the end of a song: after trying
    /// the candidate `step` places on (see `advance_candidate`), with `played`
    /// telling whether it now plays, the next step to try. Steps run from `1`
    /// to one less than the active queue's length; the advance stops at the
    /// first song that plays, and songs that the worker refuses are skipped.
    pub fn advance_after(&self, step: usize, played: bool) -> (r: Option<usize>)
        requires
            self.wf(),
            1 <= step,
        ensures
            played ==> r is None,
            !played && step + 1 < self.active_len_spec() ==> r == Some((step + 1) as usize),
            !played && step + 1 >= self.active_len_spec() ==> r is None,
    {
        if played {
            return None;
        }
        let n = self.active_len();
        if n > 0 && step < n - 1 {
            Some(step + 1)
        } else {
            None
        }
    }

    /// The first step of the advance, if the active queue has another song.
    pub fn advance_first(&self) -> (r: Option<usize>)
        requires
            self.wf(),
        ensures
            1 < self.active_len_spec() ==> r == Some(1usize),
            1 >= self.active_len_spec() ==> r is None,
    {
        if self.active_len() > 1 {
            Some(1)
        } else {
            None
        }
    }

    /// The song has ended and nothing follows it: the player stops.
    pub fn finish_song(&mut self)
        ensures
            *final(self) == (Player { status: PlayerStatus::Stopped, ..*old(self) }),
    {
        self.status = PlayerStatus::Stopped;
    }

    /// The length of the active queue.
    pub open spec fn active_len_spec(&self) -> int {
        match self.playlist_status {
            PlaylistStatus::PlaylistFile => self.playlist.contents@.len() as int,
            PlaylistStatus::DirectoryListing => self.dirlist_playlist.paths().len() as int,
        }
    }

    pub fn get_elapsed(&self) -> (r: u64)
        ensures
            r == self.elapsed_ms,
    {
        self.elapsed_ms
    }

    pub fn set_elapsed(&mut self, elapsed_ms: u64)
        ensures
            *final(self) == (Player { elapsed_ms, ..*old(self) }),
    {
        self.elapsed_ms = elapsed_ms;
    }

    pub fn current_song_ref(&self) -> (r: Option<&Song>)
        ensures
            match self.current_song {
                Some(s) => r == Some(&s),
                None => r is None,
            },
    {
        self.current_song.as_ref()
    }

    pub fn playlist_ref(&self) -> (r: &DiziPlaylist)
        ensures
            *r == self.playlist,
    {
        &self.playlist
    }

    pub fn playlist_mut(&mut self) -> (r: &mut DiziPlaylist)
        ensures
            *r == old(self).playlist,
            *final(self) == (Player { playlist: *final(r), ..*old(self) }),
    {
        &mut self.playlist
    }

    pub fn dirlist_playlist_ref(&self) -> (r: &DirlistPlaylist)
        ensures
            *r == self.dirlist_playlist,
    {
        &self.dirlist_playlist
    }

    pub fn dirlist_playlist_mut(&mut self) -> (r: &mut DirlistPlaylist)
        ensures
            *r == old(self).dirlist_playlist,
            *final(self) == (Player { dirlist_playlist: *final(r), ..*old(self) }),
    {
        &mut self.dirlist_playlist
    }
}

/// `(k + step) % n`, computed without overflow.
pub fn wrap_add(k: usize, step: usize, n: usize) -> (r: usize)
    requires
        k < n,
    ensures
        r as int == (k + step) % (n as int),
        r < n,
{
    let s = step % n;
    let p = if k >= n - s {
        k - (n - s)
    } else {
        k + s
    };
    assert(p as int == (k + step) % (n as int)) by (nonlinear_arith)
        requires
            k < n,
            s == step % n,
            p == (if k >= n - s { k - (n - s) } else { k + s }),
    ;
    p
}

/// Some path of the listing has the text `p`.
pub open spec fn holds_path_of(d: DirlistPlaylist, p: Seq<char>) -> bool {
    crate::playlist::holds_path(d.paths(), p)
}

} // verus!

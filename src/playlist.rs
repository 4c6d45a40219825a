use vstd::prelude::*;

use crate::random::shuffle_vec;
use crate::song::Song;

verus! {

/// Which queue playback advances through.
#[derive(Clone, Copy, Debug, PartialEq, Eq, Structural)]
pub enum PlaylistStatus {
    PlaylistFile,
    DirectoryListing,
}

/// `a` comes no later than `b` when both are compared character by character.
pub open spec fn text_le(a: Seq<char>, b: Seq<char>) -> bool
    decreases a.len(),
{
    if a.len() == 0 {
        true
    } else if b.len() == 0 {
        false
    } else if a[0] != b[0] {
        (a[0] as u32) < (b[0] as u32)
    } else {
        text_le(a.drop_first(), b.drop_first())
    }
}

/// Relies on `slice::sort` of std on `String`s: a stable sort by std's order
/// on strings, which compares the characters' code points one by one.
#[verifier::external_body]
pub(crate) fn sort_texts(v: &mut Vec<String>)
    ensures
        final(v)@.len() == old(v)@.len(),
        final(v)@.to_multiset() == old(v)@.to_multiset(),
        forall|i: int, j: int|
            0 <= i < j < final(v)@.len() ==> text_le(#[trigger] final(v)@[i]@, #[trigger] final(v)@[j]@),
{
    v.sort();
}

/// Some path of `paths` has the text `p`.
pub open spec fn holds_path(paths: Seq<String>, p: Seq<char>) -> bool {
    exists|j: int| 0 <= j < paths.len() && (#[trigger] paths[j])@ == p
}

/// The list of songs that a client shows as the saved playlist.
#[derive(Debug)]
pub struct Playlist {
    pub list: Vec<Song>,
    pub index: usize,
}

impl Playlist {
    /// The songs, in list order.
    pub open spec fn songs(&self) -> Seq<Song> {
        self.list@
    }

    pub fn new() -> (r: Playlist)
        ensures
            r.songs().len() == 0,
            r.index == 0,
    {
        Playlist { list: Vec::new(), index: 0 }
    }

    pub fn playlist(&self) -> (r: &[Song])
        ensures
            r@ == self.songs(),
    {
        self.list.as_slice()
    }

    pub fn append_song(&mut self, s: Song)
        ensures
            final(self).songs() == old(self).songs().push(s),
            final(self).index == old(self).index,
    {
        self.list.push(s);
    }

    pub fn remove_song(&mut self, index: usize) -> (r: Song)
        requires
            index < old(self).songs().len(),
        ensures
            r == old(self).songs()[index as int],
            final(self).songs() == old(self).songs().remove(index as int),
            final(self).index == old(self).index,
    {
        self.list.remove(index)
    }

    pub fn len(&self) -> (r: usize)
        ensures
            r == self.songs().len(),
    {
        self.list.len()
    }

    /// Whether a song of the list has the path `s`. This scans the list: a
    /// hash set of `String` paths would carry no specification of what it
    /// holds, so the answer could not be stated.
    pub fn contains(&self, s: &String) -> (r: bool)
        ensures
            r == exists|i: int| 0 <= i < self.songs().len() && (#[trigger] self.songs()[i]).file_path@ == s@,
    {
        let mut i: usize = 0;
        while i < self.list.len()
            invariant
                i <= self.list@.len(),
                forall|j: int| 0 <= j < i ==> (#[trigger] self.list@[j]).file_path@ != s@,
            decreases self.list@.len() - i,
        {
            if self.list[i].file_path == *s {
                return true;
            }
            i = i + 1;
        }
        false
    }

    pub fn list_ref(&self) -> (r: &Vec<Song>)
        ensures
            r@ == self.songs(),
    {
        &self.list
    }

    pub fn list_mut(&mut self) -> (r: &mut Vec<Song>)
        ensures
            *r == old(self).list,
            final(self).songs() == final(r)@,
            final(self).index == old(self).index,
    {
        &mut self.list
    }
}

impl Default for Playlist {
    fn default() -> (r: Playlist)
        ensures
            r.songs().len() == 0,
            r.index == 0,
    {
        Playlist::new()
    }
}

/// The files of one directory, played in turn, with the index of the current one.
#[derive(Debug)]
pub struct DirlistPlaylist {
    pub list: Vec<String>,
    pub index: usize,
}

impl DirlistPlaylist {
    /// The paths, in play order.
    pub open spec fn paths(&self) -> Seq<String> {
        self.list@
    }

    /// The current position holds a path whose text is `p`.
    pub open spec fn current_is(&self, p: Seq<char>) -> bool {
        self.index < self.paths().len() && self.paths()[self.index as int]@ == p
    }

    pub fn new() -> (r: DirlistPlaylist)
        ensures
            r.paths().len() == 0,
            r.index == 0,
    {
        DirlistPlaylist { list: Vec::new(), index: 0 }
    }

    /// A listing of the given paths, in the given order, starting at the first.
    pub fn from_paths(list: Vec<String>) -> (r: DirlistPlaylist)
        ensures
            r.paths() == list@,
            r.index == 0,
    {
        DirlistPlaylist { list, index: 0 }
    }

    pub fn len(&self) -> (r: usize)
        ensures
            r == self.paths().len(),
    {
        self.list.len()
    }

    pub fn list_ref(&self) -> (r: &Vec<String>)
        ensures
            r@ == self.paths(),
    {
        &self.list
    }

    pub fn list_mut(&mut self) -> (r: &mut Vec<String>)
        ensures
            *r == old(self).list,
            final(self).paths() == final(r)@,
            final(self).index == old(self).index,
    {
        &mut self.list
    }

    pub fn set_playing_index(&mut self, index: usize)
        ensures
            final(self).paths() == old(self).paths(),
            final(self).index == index,
    {
        self.index = index;
    }

    /// The first position that holds `path`, if any.
    pub fn position_of(&self, path: &String) -> (r: Option<usize>)
        ensures
            r matches Some(i) ==> i < self.paths().len() && self.paths()[i as int]@ == path@,
            r matches Some(i) ==> forall|j: int| 0 <= j < i ==> (#[trigger] self.paths()[j])@ != path@,
            r is None ==> forall|j: int| 0 <= j < self.paths().len() ==> (#[trigger] self.paths()[j])@ != path@,
    {
        let mut i: usize = 0;
        while i < self.list.len()
            invariant
                i <= self.list@.len(),
                forall|j: int| 0 <= j < i ==> (#[trigger] self.list@[j])@ != path@,
            decreases self.list@.len() - i,
        {
            if self.list[i] == *path {
                return Some(i);
            }
            i = i + 1;
        }
        None
    }

    /// Puts the paths in order: by name, or at random when `shuffle` is set.
    /// The current index is kept as it is.
    pub fn reorder(&mut self, shuffle: bool)
        ensures
            final(self).paths().to_multiset() == old(self).paths().to_multiset(),
            !shuffle ==> forall|i: int, j: int|
                0 <= i < j < final(self).paths().len() ==> text_le(
                    #[trigger] final(self).paths()[i]@,
                    #[trigger] final(self).paths()[j]@,
                ),
            final(self).index == old(self).index,
    {
        if shuffle {
            shuffle_vec(&mut self.list);
        } else {
            sort_texts(&mut self.list);
        }
    }

    /// Puts the paths in order (by name, or at random when `shuffle` is set) and
    /// makes the first position holding `current` the current one, or the first
    /// position when no path is `current`.
    pub fn arrange(&mut self, shuffle: bool, current: &String)
        ensures
            final(self).paths().to_multiset() == old(self).paths().to_multiset(),
            !shuffle ==> forall|i: int, j: int|
                0 <= i < j < final(self).paths().len() ==> text_le(
                    #[trigger] final(self).paths()[i]@,
                    #[trigger] final(self).paths()[j]@,
                ),
            holds_path(final(self).paths(), current@) ==> final(self).current_is(current@),
            !holds_path(final(self).paths(), current@) ==> final(self).index == 0,
    {
        if shuffle {
            shuffle_vec(&mut self.list);
        } else {
            sort_texts(&mut self.list);
        }
        let hit = self.position_of(current);
        assert(hit is None ==> forall|j: int| 0 <= j < self.paths().len() ==> (#[trigger] self.paths()[j])@ != current@);
        if let Some(i) = hit {
            self.index = i;
            assert(self.current_is(current@));
        } else {
            self.index = 0;
            assert(!holds_path(self.paths(), current@));
        }
    }
}

impl Default for DirlistPlaylist {
    fn default() -> (r: DirlistPlaylist)
        ensures
            r.paths().len() == 0,
            r.index == 0,
    {
        DirlistPlaylist::new()
    }
}

} // verus!

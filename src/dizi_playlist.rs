use vstd::prelude::*;

use crate::error::{DiziError, DiziErrorKind, DiziResult};
use crate::random::shuffle_vec;
use crate::song::Song;

verus! {

broadcast use vstd::seq_lib::group_to_multiset_ensures;

/// `order` lists each index of `[0, n)` exactly once.
pub open spec fn is_permutation(order: Seq<usize>, n: nat) -> bool {
    &&& order.len() == n
    &&& forall|p: int| 0 <= p < order.len() ==> (#[trigger] order[p] as int) < n
    &&& order.no_duplicates()
    &&& forall|e: usize| (e as int) < n ==> #[trigger] order.contains(e)
}

/// The natural order `[0, n)`.
pub open spec fn identity_order(n: nat) -> Seq<usize> {
    Seq::new(n, |i: int| i as usize)
}

/// The songs of `found`, in order, leaving out the entries that hold none.
pub open spec fn kept_songs(found: Seq<Option<Song>>) -> Seq<Song>
    decreases found.len(),
{
    if found.len() == 0 {
        Seq::empty()
    } else {
        match found.last() {
            Some(s) => kept_songs(found.drop_last()).push(s),
            None => kept_songs(found.drop_last()),
        }
    }
}

/// Leaving entries out makes nothing longer.
pub proof fn lemma_kept_songs_len(found: Seq<Option<Song>>)
    ensures
        kept_songs(found).len() <= found.len(),
    decreases found.len(),
{
    if found.len() > 0 {
        lemma_kept_songs_len(found.drop_last());
    }
}

/// The position in `order` that holds the entry index `e`.
pub open spec fn position_of(order: Seq<usize>, e: usize) -> int {
    choose|p: int| 0 <= p < order.len() && order[p] == e
}

/// An entry index after the entry `removed` has left the list.
pub open spec fn shift_down(e: usize, removed: usize) -> usize {
    if e > removed {
        (e - 1) as usize
    } else {
        e
    }
}

/// The play order once the entry `removed` has left the list: its position is
/// dropped and the later entry indices move down by one.
pub open spec fn order_after_remove(order: Seq<usize>, removed: usize) -> Seq<usize> {
    order.remove(position_of(order, removed)).map_values(|e: usize| shift_down(e, removed))
}

/// The position of the current song once the entry `removed` has left the list.
pub open spec fn order_index_after_remove(
    order: Seq<usize>,
    order_index: Option<usize>,
    removed: usize,
) -> Option<usize> {
    match order_index {
        None => None,
        Some(k) => {
            let p = position_of(order, removed);
            if k == p {
                None
            } else if k < p {
                Some(k)
            } else {
                Some((k - 1) as usize)
            }
        },
    }
}

/// The play queue: songs in list order, the order in which they play, and the
/// position in that order of the song that plays now.
#[derive(Debug)]
pub struct DiziPlaylist {
    pub contents: Vec<Song>,
    pub order: Vec<usize>,
    pub order_index: Option<usize>,
}

/// A song of the queue with its index in the list and its position in the order.
#[derive(Debug)]
pub struct DiziPlaylistEntry {
    pub entry_index: usize,
    pub order_index: usize,
    pub entry: Song,
}

/// Each element of a sequence equal as a multiset to `[0, n)` is a permutation of it.
pub proof fn lemma_permutation_from_multiset(s: Seq<usize>, n: nat)
    requires
        s.to_multiset() == identity_order(n).to_multiset(),
        n <= usize::MAX,
    ensures
        is_permutation(s, n),
{
    let id = identity_order(n);
    assert(s.len() == id.len()) by {
        vstd::seq_lib::to_multiset_len(s);
        vstd::seq_lib::to_multiset_len(id);
    }
    assert forall|p: int| 0 <= p < s.len() implies (#[trigger] s[p] as int) < n by {
        assert(s.contains(s[p]));
        assert(s.to_multiset().count(s[p]) > 0);
        assert(id.contains(s[p]));
    }
    assert forall|e: usize| (e as int) < n implies #[trigger] s.contains(e) by {
        assert(id[e as int] == e);
        assert(id.contains(e));
        assert(id.to_multiset().count(e) > 0);
    }
    assert(id.no_duplicates()) by {
        assert forall|a: int, b: int| 0 <= a < id.len() && 0 <= b < id.len() && a != b implies id[a]
            != id[b] by {}
    }
    id.lemma_multiset_has_no_duplicates();
    s.lemma_multiset_has_no_duplicates_conv();
}

/// A position that holds `e` in an order without duplicates is the one `position_of` names.
pub proof fn lemma_position_unique(order: Seq<usize>, e: usize, p: int)
    requires
        order.no_duplicates(),
        0 <= p < order.len(),
        order[p] == e,
    ensures
        position_of(order, e) == p,
{
    let q = position_of(order, e);
    assert(0 <= q < order.len() && order[q] == e);
}

/// The natural order is a permutation.
pub proof fn lemma_identity_is_permutation(n: nat)
    requires
        n <= usize::MAX,
    ensures
        is_permutation(identity_order(n), n),
{
    let id = identity_order(n);
    assert forall|e: usize| (e as int) < n implies #[trigger] id.contains(e) by {
        assert(id[e as int] == e);
    }
    assert forall|a: int, b: int| 0 <= a < id.len() && 0 <= b < id.len() && a != b implies id[a]
        != id[b] by {}
}

/// Removing an entry index from a permutation and shifting the later ones down
/// leaves a permutation of one fewer.
pub proof fn lemma_remove_keeps_permutation(order: Seq<usize>, removed: usize, p: int)
    requires
        is_permutation(order, order.len()),
        order.len() <= usize::MAX,
        0 <= p < order.len(),
        order[p] == removed,
    ensures
        position_of(order, removed) == p,
        is_permutation(order_after_remove(order, removed), (order.len() - 1) as nat),
{
    lemma_position_unique(order, removed, p);
    let n = order.len();
    let r = order.remove(p);
    let s = order_after_remove(order, removed);
    assert(s.len() == n - 1);
    assert forall|q: int| 0 <= q < r.len() implies #[trigger] r[q] != removed && (r[q] as int) < n by {
        if q < p {
            assert(r[q] == order[q]);
        } else {
            assert(r[q] == order[q + 1]);
        }
    }
    assert forall|q: int| 0 <= q < s.len() implies (#[trigger] s[q] as int) < n - 1 by {
        assert(r[q] != removed);
    }
    assert forall|a: int, b: int| 0 <= a < s.len() && 0 <= b < s.len() && a != b implies s[a]
        != s[b] by {
        let oa = if a < p { a } else { a + 1 };
        let ob = if b < p { b } else { b + 1 };
        assert(r[a] == order[oa]);
        assert(r[b] == order[ob]);
        assert(order[oa] != order[ob]);
        assert(r[a] != removed);
        assert(r[b] != removed);
    }
    assert forall|e: usize| (e as int) < n - 1 implies #[trigger] s.contains(e) by {
        let orig: usize = if e >= removed { (e + 1) as usize } else { e };
        assert(orig != removed);
        assert((orig as int) < n);
        assert(order.contains(orig));
        let q = choose|q: int| 0 <= q < order.len() && order[q] == orig;
        assert(q != p);
        let rq = if q < p { q } else { q - 1 };
        assert(0 <= rq < r.len());
        assert(r[rq] == orig);
        assert(s[rq] == shift_down(r[rq], removed));
        assert(s[rq] == e);
    }
}

impl DiziPlaylist {
    /// Well-formed: the order is a permutation of the list's indices, whose
    /// count fits a `usize`, and the current position lies inside it.
    pub open spec fn wf(&self) -> bool {
        &&& is_permutation(self.order@, self.contents@.len())
        &&& self.contents@.len() <= usize::MAX
        &&& match self.order_index {
            Some(k) => (k as int) < self.order@.len(),
            None => true,
        }
    }

    /// The order position that follows `k`, wrapping round at the end.
    pub open spec fn next_position(&self, k: usize) -> int {
        (k + 1) % (self.contents@.len() as int)
    }

    /// The order position that precedes `k`, wrapping round at the start.
    pub open spec fn previous_position(&self, k: usize) -> int {
        (k + self.contents@.len() - 1) % (self.contents@.len() as int)
    }

    /// The entry at order position `p`, as the peeking methods report it.
    pub open spec fn entry_at(&self, p: int, r: DiziPlaylistEntry) -> bool {
        &&& r.order_index as int == p
        &&& r.entry_index == self.order@[p]
        &&& r.entry == self.contents@[self.order@[p] as int]
    }

    pub fn new() -> (r: DiziPlaylist)
        ensures
            r.wf(),
            r.contents@.len() == 0,
            r.order_index is None,
    {
        DiziPlaylist { contents: Vec::new(), order: Vec::new(), order_index: None }
    }

    /// The queue of the songs that could be read, in the order of `found`
    /// (one entry per path of a playlist file, `None` where the file could not
    /// be read as audio), in natural order with nothing current.
    pub fn from_probed(found: &Vec<Option<Song>>) -> (r: DiziPlaylist)
        ensures
            r.wf(),
            r.contents@ == kept_songs(found@),
            r.order@ == identity_order(r.contents@.len()),
            r.order_index is None,
    {
        let mut q = DiziPlaylist::new();
        let n = found.len();
        let mut i: usize = 0;
        while i < n
            invariant
                n == found@.len(),
                i <= n,
                q.wf(),
                q.contents@ == kept_songs(found@.subrange(0, i as int)),
                q.order@ == identity_order(q.contents@.len()),
                q.order_index is None,
            decreases n - i,
        {
            let ghost prefix = found@.subrange(0, i as int + 1);
            assert(prefix.drop_last() =~= found@.subrange(0, i as int));
            proof {
                lemma_kept_songs_len(found@.subrange(0, i as int));
            }
            match &found[i] {
                Some(song) => {
                    q.push(song.duplicate());
                    assert(q.order@ =~= identity_order(q.contents@.len()));
                },
                None => {},
            }
            i = i + 1;
        }
        assert(found@.subrange(0, n as int) =~= found@);
        q
    }

    pub fn is_empty(&self) -> (r: bool)
        ensures
            r == (self.contents@.len() == 0),
    {
        self.contents.len() == 0
    }

    pub fn len(&self) -> (r: usize)
        ensures
            r == self.contents@.len(),
    {
        self.contents.len()
    }

    /// Appends a song; its index goes to the end of the play order.
    pub fn push(&mut self, song: Song)
        requires
            old(self).wf(),
            old(self).contents@.len() < usize::MAX,
        ensures
            final(self).wf(),
            final(self).contents@ == old(self).contents@.push(song),
            final(self).order@ == old(self).order@.push(old(self).contents@.len() as usize),
            final(self).order_index == old(self).order_index,
    {
        let ghost prev = *self;
        let n = self.contents.len();
        self.contents.push(song);
        self.order.push(n);
        proof {
            law_push_keeps_permutation(prev, *self, song);
        }
    }

    /// Empties the queue.
    pub fn clear(&mut self)
        ensures
            final(self).wf(),
            final(self).contents@.len() == 0,
            final(self).order_index is None,
    {
        self.contents.clear();
        self.order.clear();
        self.order_index = None;
    }

    /// True when nothing plays or the current song is the last of the order.
    pub fn is_end(&self) -> (r: bool)
        requires
            self.wf(),
        ensures
            r == match self.order_index {
                None => true,
                Some(k) => k + 1 >= self.contents@.len(),
            },
    {
        match self.order_index {
            None => true,
            Some(i) => i >= self.contents.len() - 1,
        }
    }

    pub fn entry_ref(&self, index: usize) -> (r: &Song)
        requires
            index < self.contents@.len(),
        ensures
            *r == self.contents@[index as int],
    {
        &self.contents[index]
    }

    fn entry_at_position(&self, p: usize) -> (r: DiziPlaylistEntry)
        requires
            self.wf(),
            p < self.order@.len(),
        ensures
            self.entry_at(p as int, r),
    {
        let entry_index = self.order[p];
        DiziPlaylistEntry {
            entry_index,
            order_index: p,
            entry: self.contents[entry_index].duplicate(),
        }
    }

    /// The song that plays now, if any.
    pub fn current_song(&self) -> (r: Option<DiziPlaylistEntry>)
        requires
            self.wf(),
        ensures
            match self.order_index {
                None => r is None,
                Some(k) => r matches Some(e) && self.entry_at(k as int, e),
            },
    {
        match self.order_index {
            None => None,
            Some(k) => Some(self.entry_at_position(k)),
        }
    }

    /// The song that follows the current one in the order, wrapping round.
    pub fn next_song_peak(&self) -> (r: Option<DiziPlaylistEntry>)
        requires
            self.wf(),
        ensures
            match self.order_index {
                None => r is None,
                Some(k) => r matches Some(e) && self.entry_at(self.next_position(k), e),
            },
    {
        match self.order_index {
            None => None,
            Some(k) => {
                let n = self.contents.len();
                let p = if k + 1 == n {
                    0
                } else {
                    k + 1
                };
                assert(p as int == self.next_position(k)) by (nonlinear_arith)
                    requires
                        k < self.contents@.len(),
                        p == (if k + 1 == self.contents@.len() { 0 } else { k + 1 }),
                ;
                Some(self.entry_at_position(p))
            },
        }
    }

    /// The song that precedes the current one in the order, wrapping round.
    pub fn previous_song_peak(&self) -> (r: Option<DiziPlaylistEntry>)
        requires
            self.wf(),
        ensures
            match self.order_index {
                None => r is None,
                Some(k) => r matches Some(e) && self.entry_at(self.previous_position(k), e),
            },
    {
        match self.order_index {
            None => None,
            Some(k) => {
                let n = self.contents.len();
                let p = if k == 0 {
                    n - 1
                } else {
                    k - 1
                };
                assert(p as int == self.previous_position(k)) by (nonlinear_arith)
                    requires
                        k < self.contents@.len(),
                        p == (if k == 0 { self.contents@.len() - 1 } else { k - 1 }),
                ;
                Some(self.entry_at_position(p))
            },
        }
    }

    /// Makes the entry `index` the current song, at its place in the order.
    pub fn set_playing_index(&mut self, index: usize)
        requires
            old(self).wf(),
            index < old(self).contents@.len(),
        ensures
            final(self).wf(),
            final(self).contents@ == old(self).contents@,
            final(self).order@ == old(self).order@,
            final(self).order_index matches Some(k) && final(self).order@[k as int] == index,
    {
        let p = self.position_in_order(index);
        self.order_index = Some(p);
    }

    /// A copy of this queue: the same songs, order and current position.
    pub fn duplicate(&self) -> (r: DiziPlaylist)
        requires
            self.wf(),
        ensures
            r.wf(),
            r.contents@ == self.contents@,
            r.order@ == self.order@,
            r.order_index == self.order_index,
    {
        let n = self.contents.len();
        let mut contents: Vec<Song> = Vec::new();
        let mut order: Vec<usize> = Vec::new();
        let mut i: usize = 0;
        while i < n
            invariant
                n == self.contents@.len(),
                n == self.order@.len(),
                i <= n,
                contents@ == self.contents@.subrange(0, i as int),
                order@ == self.order@.subrange(0, i as int),
            decreases n - i,
        {
            contents.push(self.contents[i].duplicate());
            order.push(self.order[i]);
            i = i + 1;
            assert(contents@ =~= self.contents@.subrange(0, i as int));
            assert(order@ =~= self.order@.subrange(0, i as int));
        }
        assert(contents@ =~= self.contents@);
        assert(order@ =~= self.order@);
        DiziPlaylist { contents, order, order_index: self.order_index }
    }

    /// Finds the position in the order that holds the entry index `e`.
    fn position_in_order(&self, e: usize) -> (p: usize)
        requires
            self.wf(),
            e < self.contents@.len(),
        ensures
            p < self.order@.len(),
            self.order@[p as int] == e,
            p as int == position_of(self.order@, e),
    {
        let ghost order = self.order@;
        assert(order.contains(e));
        let ghost q = choose|q: int| 0 <= q < order.len() && order[q] == e;
        let len = self.order.len();
        let mut p: usize = 0;
        while self.order[p] != e
            invariant
                order == self.order@,
                order.len() == len,
                self.wf(),
                0 <= q < order.len(),
                order[q] == e,
                p <= q,
            decreases q - p,
        {
            p = p + 1;
        }
        proof {
            lemma_position_unique(order, e, p as int);
        }
        p
    }

    /// Removes the entry at `index`: the order drops that entry and later indices
    /// move down by one; the same song stays current unless it was the one removed.
    pub fn remove(&mut self, index: usize) -> (r: DiziResult<()>)
        requires
            old(self).wf(),
        ensures
            final(self).wf(),
            r is Err <==> index >= old(self).contents@.len(),
            r matches Err(e) ==> e.kind == DiziErrorKind::InvalidParameters && final(self).contents@
                == old(self).contents@ && final(self).order@ == old(self).order@
                && final(self).order_index == old(self).order_index,
            r is Ok ==> final(self).contents@ == old(self).contents@.remove(index as int)
                && final(self).order@ == order_after_remove(old(self).order@, index)
                && final(self).order_index == order_index_after_remove(
                old(self).order@,
                old(self).order_index,
                index,
            ),
    {
        let n = self.contents.len();
        if index >= n {
            return Err(DiziError::new(DiziErrorKind::InvalidParameters, "index out of bounds".to_string()));
        }
        let ghost old_order = self.order@;
        let p = self.position_in_order(index);
        self.contents.remove(index);
        self.order.remove(p);
        let ghost removed = self.order@;
        let ghost contents = self.contents@;
        assert(removed == old_order.remove(p as int));
        let m = self.order.len();
        let mut j: usize = 0;
        while j < m
            invariant
                m == removed.len(),
                self.order@.len() == m,
                self.contents@ == contents,
                self.order_index == old(self).order_index,
                j <= m,
                forall|q: int| 0 <= q < j ==> #[trigger] self.order@[q] == shift_down(removed[q], index),
                forall|q: int| j <= q < m ==> #[trigger] self.order@[q] == removed[q],
            decreases m - j,
        {
            let v = self.order[j];
            if v > index {
                self.order.set(j, v - 1);
            }
            j = j + 1;
        }
        let ghost new_order = self.order@;
        proof {
            lemma_remove_keeps_permutation(old_order, index, p as int);
        }
        assert(new_order =~= order_after_remove(old_order, index));
        self.order_index = match self.order_index {
            None => None,
            Some(k) => {
                if k == p {
                    None
                } else if k < p {
                    Some(k)
                } else {
                    Some(k - 1)
                }
            },
        };
        Ok(())
    }

    /// Swaps the entries at `index1` and `index2` of the list; the order is kept,
    /// and the song that plays stays current.
    pub fn swap(&mut self, index1: usize, index2: usize) -> (r: DiziResult<()>)
        requires
            old(self).wf(),
        ensures
            final(self).wf(),
            r is Err <==> (index1 >= old(self).contents@.len() || index2 >= old(self).contents@.len()),
            r matches Err(e) ==> e.kind == DiziErrorKind::InvalidParameters && final(self).contents@
                == old(self).contents@ && final(self).order@ == old(self).order@
                && final(self).order_index == old(self).order_index,
            r is Ok ==> final(self).swapped_from(*old(self), index1, index2),
    {
        let n = self.contents.len();
        if index1 >= n || index2 >= n {
            return Err(DiziError::new(DiziErrorKind::InvalidParameters, "index out of bounds".to_string()));
        }
        let ghost old_contents = self.contents@;
        if index1 != index2 {
            let (a, b) = if index1 < index2 {
                (index1, index2)
            } else {
                (index2, index1)
            };
            let song_b = self.contents.remove(b);
            let song_a = self.contents.remove(a);
            self.contents.insert(a, song_b);
            self.contents.insert(b, song_a);
        }
        assert(self.contents@ =~= old_contents.update(index1 as int, old_contents[index2 as int]).update(
            index2 as int,
            old_contents[index1 as int],
        ));
        if let Some(k) = self.order_index {
            let e = self.order[k];
            if e == index1 {
                self.order_index = Some(self.position_in_order(index2));
            } else if e == index2 {
                self.order_index = Some(self.position_in_order(index1));
            }
        }
        Ok(())
    }

    /// Moves the entry at `index` one place towards the front of the list.
    pub fn move_up(&mut self, index: usize) -> (r: DiziResult<()>)
        requires
            old(self).wf(),
        ensures
            final(self).wf(),
            r is Err <==> (index == 0 || index >= old(self).contents@.len()),
            r matches Err(e) ==> e.kind == DiziErrorKind::InvalidParameters && final(self).contents@
                == old(self).contents@ && final(self).order@ == old(self).order@
                && final(self).order_index == old(self).order_index,
            r is Ok ==> final(self).swapped_from(*old(self), index, (index - 1) as usize),
    {
        if index == 0 || index >= self.contents.len() {
            return Err(DiziError::new(DiziErrorKind::InvalidParameters, "index out of bounds".to_string()));
        }
        self.swap(index, index - 1)
    }

    /// Moves the entry at `index` one place towards the end of the list.
    pub fn move_down(&mut self, index: usize) -> (r: DiziResult<()>)
        requires
            old(self).wf(),
        ensures
            final(self).wf(),
            r is Err <==> index + 1 >= old(self).contents@.len(),
            r matches Err(e) ==> e.kind == DiziErrorKind::InvalidParameters && final(self).contents@
                == old(self).contents@ && final(self).order@ == old(self).order@
                && final(self).order_index == old(self).order_index,
            r is Ok ==> final(self).swapped_from(*old(self), index, (index + 1) as usize),
    {
        if index >= self.contents.len() || index + 1 >= self.contents.len() {
            return Err(DiziError::new(DiziErrorKind::InvalidParameters, "index out of bounds".to_string()));
        }
        self.swap(index, index + 1)
    }

    /// The state after swapping the list entries `i` and `j` of `prev`.
    pub open spec fn swapped_from(self, prev: DiziPlaylist, i: usize, j: usize) -> bool {
        &&& self.contents@ == prev.contents@.update(i as int, prev.contents@[j as int]).update(
            j as int,
            prev.contents@[i as int],
        )
        &&& self.order@ == prev.order@
        &&& self.order_index == match prev.order_index {
            None => None,
            Some(k) => if prev.order@[k as int] == i {
                Some(position_of(prev.order@, j) as usize)
            } else if prev.order@[k as int] == j {
                Some(position_of(prev.order@, i) as usize)
            } else {
                Some(k)
            },
        }
    }

    /// The state after shuffling `prev`: any permutation, except that the song
    /// that played moves to the front and stays current.
    pub open spec fn shuffled_from(self, prev: DiziPlaylist) -> bool {
        &&& self.contents@ == prev.contents@
        &&& is_permutation(self.order@, self.contents@.len())
        &&& self.contents@.len() <= usize::MAX
        &&& match prev.order_index {
            None => self.order_index is None,
            Some(k) => self.order_index == Some(0usize) && self.order@[0] == prev.order@[k as int],
        }
    }

    /// The state after restoring the natural order of `prev`: the song that
    /// played stays current.
    pub open spec fn unshuffled_from(self, prev: DiziPlaylist) -> bool {
        &&& self.contents@ == prev.contents@
        &&& self.order@ == identity_order(prev.contents@.len())
        &&& self.order_index == match prev.order_index {
            None => None,
            Some(k) => Some(prev.order@[k as int]),
        }
    }

    /// Randomises the play order; the current song, if any, moves to the front.
    pub fn shuffle(&mut self)
        requires
            old(self).wf(),
        ensures
            final(self).wf(),
            final(self).shuffled_from(*old(self)),
    {
        let n = self.contents.len();
        let mut fresh: Vec<usize> = Vec::new();
        let mut i: usize = 0;
        while i < n
            invariant
                i <= n,
                fresh@ == identity_order(i as nat),
            decreases n - i,
        {
            fresh.push(i);
            i = i + 1;
            assert(fresh@ =~= identity_order(i as nat));
        }
        let ghost id = fresh@;
        match self.order_index {
            Some(k) => {
                let e = self.order[k];
                fresh.remove(e);
                assert(fresh@ == id.remove(e as int));
                shuffle_vec(&mut fresh);
                fresh.insert(0, e);
                proof {
                    vstd::seq_lib::to_multiset_remove(id, e as int);
                    vstd::seq_lib::to_multiset_insert(id.remove(e as int), 0, e);
                    vstd::seq_lib::to_multiset_insert(fresh@.remove(0), 0, e);
                    assert(fresh@.remove(0).insert(0, e) =~= fresh@);
                    assert(id.to_multiset().contains(e));
                    assert(id.to_multiset().remove(e).insert(e) =~= id.to_multiset());
                }
                self.order_index = Some(0);
            },
            None => {
                shuffle_vec(&mut fresh);
            },
        }
        proof {
            lemma_permutation_from_multiset(fresh@, n as nat);
        }
        self.order = fresh;
    }

    /// Restores the natural order; the current song stays current.
    pub fn unshuffle(&mut self)
        requires
            old(self).wf(),
        ensures
            final(self).wf(),
            final(self).unshuffled_from(*old(self)),
    {
        if let Some(k) = self.order_index {
            let e = self.order[k];
            self.order_index = Some(e);
        }
        let n = self.contents.len();
        let mut fresh: Vec<usize> = Vec::new();
        let mut i: usize = 0;
        while i < n
            invariant
                i <= n,
                fresh@ == identity_order(i as nat),
            decreases n - i,
        {
            fresh.push(i);
            i = i + 1;
            assert(fresh@ =~= identity_order(i as nat));
        }
        self.order = fresh;
        proof {
            lemma_identity_is_permutation(n as nat);
        }
    }
}

/// In every well-formed queue the play order lists each index of the list
/// exactly once and nothing else, and has the list's length.
pub proof fn law_order_is_permutation(s: DiziPlaylist)
    requires
        s.wf(),
    ensures
        s.order@.len() == s.contents@.len(),
        forall|e: usize| (e as int) < s.contents@.len() ==> #[trigger] s.order@.to_multiset().count(e) == 1,
        forall|e: usize| (e as int) >= s.contents@.len() ==> #[trigger] s.order@.to_multiset().count(e) == 0,
{
    s.order@.lemma_multiset_has_no_duplicates();
    assert forall|e: usize| (e as int) >= s.contents@.len() implies #[trigger] s.order@.to_multiset().count(e)
        == 0 by {
        if s.order@.contains(e) {
            let p = choose|p: int| 0 <= p < s.order@.len() && s.order@[p] == e;
            assert((s.order@[p] as int) < s.contents@.len());
        }
    }
}

/// Appending a song, with its index at the end of the order, keeps the order
/// a permutation of the list's indices and the current position valid.
pub proof fn law_push_keeps_permutation(s: DiziPlaylist, t: DiziPlaylist, song: Song)
    requires
        s.wf(),
        s.contents@.len() < usize::MAX,
        t.contents@ == s.contents@.push(song),
        t.order@ == s.order@.push(s.contents@.len() as usize),
        t.order_index == s.order_index,
    ensures
        t.wf(),
{
    let old_order = s.order@;
    let n = s.contents@.len();
    assert forall|e: usize| (e as int) < n + 1 implies #[trigger] t.order@.contains(e) by {
        if (e as int) < n {
            assert(old_order.contains(e));
            let p = choose|p: int| 0 <= p < old_order.len() && old_order[p] == e;
            assert(t.order@[p] == e);
        } else {
            assert(t.order@[n as int] == e);
        }
    }
    assert(t.order@.no_duplicates()) by {
        assert forall|a: int, b: int|
            0 <= a < t.order@.len() && 0 <= b < t.order@.len() && a != b implies t.order@[a]
            != t.order@[b] by {
            if a < n && b < n {
                assert(old_order[a] != old_order[b]);
            } else if a < n {
                assert((old_order[a] as int) < n);
            } else {
                assert((old_order[b] as int) < n);
            }
        }
    }
}

/// Swapping the same two entries twice gives back the list, the order and the
/// current position.
pub proof fn law_swap_twice_is_identity(
    s0: DiziPlaylist,
    s1: DiziPlaylist,
    s2: DiziPlaylist,
    i: usize,
    j: usize,
)
    requires
        s0.wf(),
        i < s0.contents@.len(),
        j < s0.contents@.len(),
        s1.swapped_from(s0, i, j),
        s2.swapped_from(s1, i, j),
    ensures
        s2.contents@ == s0.contents@,
        s2.order@ == s0.order@,
        s2.order_index == s0.order_index,
{
    assert(s2.contents@ =~= s0.contents@);
    let order = s0.order@;
    assert(order.contains(i));
    assert(order.contains(j));
    let pi = choose|p: int| 0 <= p < order.len() && order[p] == i;
    let pj = choose|p: int| 0 <= p < order.len() && order[p] == j;
    lemma_position_unique(order, i, pi);
    lemma_position_unique(order, j, pj);
    if let Some(k) = s0.order_index {
        lemma_position_unique(order, order[k as int], k as int);
    }
}

/// Shuffling and then restoring the natural order leaves the identity order
/// with the song that played before still current.
pub proof fn law_unshuffle_after_shuffle(s0: DiziPlaylist, s1: DiziPlaylist, s2: DiziPlaylist)
    requires
        s0.wf(),
        s1.shuffled_from(s0),
        s2.unshuffled_from(s1),
    ensures
        s2.order@ == identity_order(s0.contents@.len()),
        s2.contents@ == s0.contents@,
        match s0.order_index {
            None => s2.order_index is None,
            Some(k) => s2.order_index matches Some(k2) && s2.order@[k2 as int] == s0.order@[k as int]
                && s2.contents@[s2.order@[k2 as int] as int] == s0.contents@[s0.order@[k as int] as int],
        },
{
}

/// Past the last position of the order, the next song wraps round to the
/// first one: `is_end` holds exactly when the next position is `0`, that is,
/// when the next entry is `order[0]`.
pub proof fn law_is_end_iff_next_wraps(s: DiziPlaylist, k: usize)
    requires
        s.wf(),
        s.order_index == Some(k),
    ensures
        (k + 1 >= s.contents@.len()) <==> s.next_position(k) == 0,
        (k + 1 >= s.contents@.len()) <==> s.order@[s.next_position(k)] == s.order@[0],
{
    let n = s.contents@.len() as int;
    assert(0 <= s.next_position(k) < n) by (nonlinear_arith)
        requires
            k < n,
            s.next_position(k) == (k + 1) % n,
    ;
    assert((k + 1 >= n) <==> (k + 1) % n == 0) by (nonlinear_arith)
        requires
            k < n,
    ;
    if s.order@[s.next_position(k)] == s.order@[0] {
        assert(s.order@.no_duplicates());
    }
}

/// Shuffling a queue of at most one song changes nothing.
pub proof fn law_shuffle_short_is_noop(s0: DiziPlaylist, s1: DiziPlaylist)
    requires
        s0.wf(),
        s0.contents@.len() <= 1,
        s1.shuffled_from(s0),
    ensures
        s1.contents@ == s0.contents@,
        s1.order@ == s0.order@,
        s1.order_index == s0.order_index,
{
    if s0.contents@.len() == 1 {
        assert(s0.order@.contains(0usize));
        assert(s1.order@.contains(0usize));
        assert(s0.order@ =~= seq![0usize]);
        assert(s1.order@ =~= seq![0usize]);
    } else {
        assert(s0.order@ =~= s1.order@);
    }
}

} // verus!

//! A list of songs that grows page by page.

use vstd::prelude::*;

use crate::lists;
use crate::models::{
    find_song, Batch, SongBatch, SongBatchView, SongDescription, SongDescriptionView,
};

verus! {

/// The songs of a list that have been read so far, and how long the whole list
/// is. No song is held twice.
#[derive(Debug, PartialEq, Eq)]
pub struct SongListModel {
    pub songs: Vec<SongDescription>,
    pub batch_size: usize,
    pub total: usize,
}

/// The ids of songs, in order.
pub open spec fn song_ids(songs: Seq<SongDescriptionView>) -> Seq<Seq<char>> {
    songs.map_values(|s: SongDescriptionView| s.id)
}

/// The songs followed by those of `more` that are not among them.
pub open spec fn extended(
    songs: Seq<SongDescriptionView>,
    more: Seq<SongDescriptionView>,
) -> Seq<SongDescriptionView>
    decreases more.len(),
{
    if more.len() == 0 {
        songs
    } else {
        let front = extended(songs, more.drop_last());
        if song_ids(front).contains(more.last().id) {
            front
        } else {
            front.push(more.last())
        }
    }
}

/// The position of the first song with the given id, from `i` on.
pub open spec fn position_from(songs: Seq<SongDescriptionView>, id: Seq<char>, i: int) -> Option<int>
    decreases songs.len() - i,
{
    if i >= songs.len() {
        None
    } else if songs[i].id == id {
        Some(i)
    } else {
        position_from(songs, id, i + 1)
    }
}

/// The position of the song with the given id.
pub open spec fn position_of(songs: Seq<SongDescriptionView>, id: Seq<char>) -> Option<int> {
    position_from(songs, id, 0)
}

proof fn lemma_position_from(songs: Seq<SongDescriptionView>, id: Seq<char>, i: int, k: int)
    requires
        0 <= i <= k <= songs.len(),
        forall|j: int| i <= j < k ==> (#[trigger] songs[j]).id != id,
    ensures
        position_from(songs, id, i) == position_from(songs, id, k),
    decreases k - i,
{
    if i < k {
        lemma_position_from(songs, id, i + 1, k);
    }
}

/// What a search for an id found is what is at its position.
pub proof fn lemma_position_of(songs: Vec<SongDescription>, id: Seq<char>, found: Option<usize>)
    requires
        match found {
            Some(i) => i < songs@.len() && songs@[i as int].id@ == id && forall|j: int|
                0 <= j < i ==> (#[trigger] songs@[j]).id@ != id,
            None => forall|j: int| 0 <= j < songs@.len() ==> (#[trigger] songs@[j]).id@ != id,
        },
    ensures
        position_of(songs.deep_view(), id) == (match found {
            Some(i) => Some(i as int),
            None => None,
        }),
{
    let views = songs.deep_view();
    let k = match found {
        Some(i) => i as int,
        None => songs@.len() as int,
    };
    assert forall|j: int| 0 <= j < k implies (#[trigger] views[j]).id != id by {
        assert(views[j].id == songs@[j].id@);
    }
    lemma_position_from(views, id, 0, k);
}

/// Where the page starts that holds the given position.
pub open spec fn page_start(position: int, batch_size: int) -> int {
    (position / batch_size) * batch_size
}

/// The page of a list that holds the given position.
pub open spec fn page_around(
    songs: Seq<SongDescriptionView>,
    position: int,
    batch_size: int,
    total: usize,
) -> SongBatchView {
    let start = page_start(position, batch_size);
    let end = if start + batch_size < songs.len() {
        start + batch_size
    } else {
        songs.len() as int
    };
    SongBatchView {
        songs: songs.subrange(start, end),
        batch: Batch { offset: start as usize, batch_size: batch_size as usize, total },
    }
}

impl DeepView for SongListModel {
    type V = Seq<SongDescriptionView>;

    open spec fn deep_view(&self) -> Seq<SongDescriptionView> {
        self.songs.deep_view()
    }
}

impl SongListModel {
    /// No song is held twice.
    pub open spec fn wf(self) -> bool {
        song_ids(self.deep_view()).no_duplicates()
    }

    /// An empty list that is read in pages of the given size.
    pub fn new(batch_size: usize) -> (r: SongListModel)
        ensures
            r.wf(),
            r.deep_view() == Seq::<SongDescriptionView>::empty(),
            r.batch_size == batch_size,
            r.total == 0,
    {
        let r = SongListModel { songs: Vec::new(), batch_size, total: 0 };
        assert(r.deep_view() =~= Seq::<SongDescriptionView>::empty());
        assert(song_ids(r.deep_view()) =~= Seq::<Seq<char>>::empty());
        r
    }

    /// Adds the songs of a page that are not in the list yet, and takes over what
    /// the page says of the list's length.
    pub fn add(&mut self, batch: SongBatch)
        requires
            old(self).wf(),
        ensures
            final(self).wf(),
            final(self).deep_view() == extended(old(self).deep_view(), batch.deep_view().songs),
            final(self).batch_size == old(self).batch_size,
            final(self).total == batch.batch.total,
    {
        let ghost start = self.deep_view();
        let ghost whole = batch.songs;
        let ghost views = batch.songs.deep_view();
        self.total = batch.batch.total;
        let ghost size = self.batch_size;
        let ghost total = self.total;
        assert(views.take(0) =~= Seq::<SongDescriptionView>::empty());
        for song in it: batch.songs.into_iter()
            invariant
                it.seq() == whole@,
                views == whole.deep_view(),
                self.batch_size == size,
                self.total == total,
                self.wf(),
                self.deep_view() == extended(start, views.take(it.index())),
        {
            let ghost before = self.songs;
            let ghost view = song.deep_view();
            proof {
                assert(views.take(it.index() + 1).drop_last() =~= views.take(it.index()));
                assert(views[it.index()] == view);
            }
            let found = find_song(&self.songs, song.id.as_str());
            proof {
                let ids = song_ids(self.deep_view());
                assert(ids.contains(view.id) <==> found is Some) by {
                    if found is Some {
                        assert(ids[found->0 as int] == view.id);
                    } else if ids.contains(view.id) {
                        let k = choose|k: int| 0 <= k < ids.len() && ids[k] == view.id;
                        assert(self.songs@[k].id@ == view.id);
                    }
                }
            }
            if found.is_none() {
                self.songs.push(song);
                proof {
                    lists::lemma_deep_push(before, self.songs, song);
                    assert(song_ids(self.deep_view()) =~= song_ids(before.deep_view()).push(
                        view.id,
                    ));
                    lists::lemma_push_set(song_ids(before.deep_view()), view.id);
                }
            }
        }
        proof {
            lists::lemma_take_all(views);
        }
    }

    /// The song with the given id, if it has been read.
    pub fn get(&self, id: &str) -> (r: Option<&SongDescription>)
        ensures
            match (r, position_of(self.deep_view(), id@)) {
                (Some(song), Some(i)) => 0 <= i < self.songs@.len() && *song == self.songs@[i],
                (None, None) => true,
                _ => false,
            },
    {
        match self.find_index(id) {
            Some(i) => Some(&self.songs[i]),
            None => None,
        }
    }

    /// The song at the given position, if it has been read.
    pub fn index(&self, i: usize) -> (r: Option<&SongDescription>)
        ensures
            match r {
                Some(song) => i < self.songs@.len() && *song == self.songs@[i as int],
                None => i >= self.songs@.len(),
            },
    {
        if i < self.songs.len() {
            Some(&self.songs[i])
        } else {
            None
        }
    }

    /// The position of the song with the given id.
    pub fn find_index(&self, id: &str) -> (r: Option<usize>)
        ensures
            match (r, position_of(self.deep_view(), id@)) {
                (Some(i), Some(j)) => i == j && i < self.songs@.len() && self.songs@[i as int].id@
                    == id@,
                (None, None) => true,
                _ => false,
            },
    {
        let found = find_song(&self.songs, id);
        proof {
            lemma_position_of(self.songs, id@, found);
        }
        found
    }

    /// How many songs have been read.
    pub fn partial_len(&self) -> (r: usize)
        ensures
            r == self.songs@.len(),
    {
        self.songs.len()
    }

    /// How long the whole list is.
    pub fn len(&self) -> (r: usize)
        ensures
            r == self.total,
    {
        self.total
    }

    /// The songs that have been read.
    pub fn collect(&self) -> (r: Vec<SongDescription>)
        ensures
            r.deep_view() == self.deep_view(),
    {
        self.songs.clone()
    }

    /// The page that holds the given position, if that has been read.
    pub fn song_batch_for(&self, position: usize) -> (r: Option<SongBatch>)
        ensures
            r.deep_view() == (if position < self.songs@.len() && self.batch_size > 0 {
                Some(
                    page_around(
                        self.deep_view(),
                        position as int,
                        self.batch_size as int,
                        self.total,
                    ),
                )
            } else {
                None
            }),
    {
        if position >= self.songs.len() || self.batch_size == 0 {
            return None;
        }
        let size: usize = self.batch_size;
        proof {
            assert(0 <= (position / size) * size <= position) by (nonlinear_arith)
                requires
                    size > 0,
            ;
        }
        let start: usize = (position / size) * size;
        let end: usize = if size < self.songs.len() - start {
            start + size
        } else {
            self.songs.len()
        };
        let ghost views = self.deep_view();
        let mut songs: Vec<SongDescription> = Vec::new();
        let mut i: usize = start;
        assert(songs.deep_view() =~= views.subrange(start as int, start as int));
        while i < end
            invariant
                start <= i <= end <= self.songs.len(),
                views == self.deep_view(),
                songs.deep_view() == views.subrange(start as int, i as int),
            decreases end - i,
        {
            let ghost before = songs;
            let song = self.songs[i].clone();
            songs.push(song);
            proof {
                lists::lemma_deep_push(before, songs, song);
                assert(views.subrange(start as int, i + 1) =~= views.subrange(
                    start as int,
                    i as int,
                ).push(views[i as int]));
            }
            i += 1;
        }
        Some(SongBatch { songs, batch: Batch { offset: start, batch_size: size, total: self.total } })
    }
}

// ── Laws ───────────────────────────────────────────────────────────────────

/// A song is found at the first place that holds its id, and nowhere only if no
/// place does.
pub proof fn law_songs_are_found_by_their_id(
    songs: Seq<SongDescriptionView>,
    id: Seq<char>,
    k: int,
)
    requires
        0 <= k < songs.len(),
        songs[k].id == id,
    ensures
        position_of(songs, id) matches Some(i) && 0 <= i <= k && songs[i].id == id && forall|
            j: int,
        |
            0 <= j < i ==> (#[trigger] songs[j]).id != id,
{
    lemma_position_is_first(songs, id, 0, k);
}

proof fn lemma_position_is_first(
    songs: Seq<SongDescriptionView>,
    id: Seq<char>,
    from: int,
    k: int,
)
    requires
        0 <= from <= k < songs.len(),
        songs[k].id == id,
    ensures
        position_from(songs, id, from) matches Some(i) && from <= i <= k && songs[i].id == id
            && forall|j: int| from <= j < i ==> (#[trigger] songs[j]).id != id,
    decreases k - from,
{
    if songs[from].id != id {
        lemma_position_is_first(songs, id, from + 1, k);
    }
}

/// A song that no place holds is not found.
pub proof fn law_other_songs_are_not_found(songs: Seq<SongDescriptionView>, id: Seq<char>)
    requires
        forall|j: int| 0 <= j < songs.len() ==> (#[trigger] songs[j]).id != id,
    ensures
        position_of(songs, id) is None,
{
    lemma_position_from(songs, id, 0, songs.len() as int);
}

/// A page that is added leaves the songs before it as they are, adds nothing that is
/// there already, and leaves none of its own songs out.
pub proof fn law_pages_extend_the_list(
    songs: Seq<SongDescriptionView>,
    more: Seq<SongDescriptionView>,
    id: Seq<char>,
)
    ensures
        extended(songs, more).len() >= songs.len(),
        extended(songs, more).take(songs.len() as int) == songs,
        song_ids(extended(songs, more)).contains(id) <==> song_ids(songs).contains(id)
            || song_ids(more).contains(id),
        song_ids(songs).no_duplicates() ==> song_ids(extended(songs, more)).no_duplicates(),
    decreases more.len(),
{
    if more.len() == 0 {
        assert(songs.take(songs.len() as int) =~= songs);
        assert(!song_ids(more).contains(id));
    } else {
        let front = extended(songs, more.drop_last());
        let last = more.last();
        law_pages_extend_the_list(songs, more.drop_last(), id);
        let grown = extended(songs, more);
        assert(grown.take(songs.len() as int) =~= front.take(songs.len() as int));
        assert(song_ids(more) =~= song_ids(more.drop_last()).push(last.id));
        lists::lemma_contains_push(song_ids(more.drop_last()), last.id, id);
        if !song_ids(front).contains(last.id) {
            assert(song_ids(grown) =~= song_ids(front).push(last.id));
            lists::lemma_contains_push(song_ids(front), last.id, id);
        }
    }
}

/// The page around a place holds that place, starts at a multiple of the page size,
/// and holds the songs of the list in order.
pub proof fn law_page_holds_its_place(
    songs: Seq<SongDescriptionView>,
    position: int,
    batch_size: usize,
    total: usize,
    k: int,
)
    requires
        0 <= position < songs.len() <= usize::MAX,
        batch_size > 0,
        0 <= k < page_around(songs, position, batch_size as int, total).songs.len(),
    ensures
        ({
            let page = page_around(songs, position, batch_size as int, total);
            &&& page.batch.total == total
            &&& page.batch.batch_size == batch_size
            &&& page.batch.offset % batch_size == 0
            &&& page.batch.offset <= position < page.batch.offset + page.songs.len()
            &&& page.songs.len() <= batch_size
            &&& page.songs[k] == songs[page.batch.offset + k]
            &&& page.songs.len() < batch_size ==> page.batch.offset + page.songs.len()
                == songs.len()
        }),
{
    let size = batch_size as int;
    let start = page_start(position, size);
    vstd::arithmetic::div_mod::lemma_fundamental_div_mod(position, size);
    vstd::arithmetic::mul::lemma_mul_is_commutative(position / size, size);
    vstd::arithmetic::div_mod::lemma_mod_multiples_basic(position / size, size);
    vstd::arithmetic::div_mod::lemma_mod_bound(position, size);
    assert(start <= position < start + size);
    assert(start >= 0) by (nonlinear_arith)
        requires
            start == (position / size) * size,
            position >= 0,
            size > 0,
    {
        vstd::arithmetic::div_mod::lemma_div_pos_is_pos(position, size);
    }
}

} // verus!

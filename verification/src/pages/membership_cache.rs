//! Which tracks are in which of the user's own playlists.
//!
//! The index is filled by a background sync and kept on disk between runs. An
//! entry is tied to the playlist's snapshot id, so an unchanged playlist is not
//! read again. Reading and writing the file is the program's part.

use vstd::prelude::*;

use crate::id_set::IdSet;
use crate::lists;
use crate::text::str_eq;

verus! {

/// The version of the file's layout. A file of another version is discarded.
pub const MEMBERSHIP_CACHE_VERSION: u32 = 1;

/// The tracks of one playlist at one snapshot.
#[derive(Debug, PartialEq, Eq)]
pub struct MembershipEntry {
    pub snapshot_id: String,
    pub track_ids: IdSet,
}

/// The contents of a `MembershipEntry`.
pub struct MembershipEntryView {
    pub snapshot_id: Seq<char>,
    pub track_ids: Set<Seq<char>>,
}

impl View for MembershipEntry {
    type V = MembershipEntryView;

    open spec fn view(&self) -> MembershipEntryView {
        MembershipEntryView { snapshot_id: self.snapshot_id@, track_ids: self.track_ids.set() }
    }
}

/// An entry with the id of its playlist.
#[derive(Debug, PartialEq, Eq)]
pub struct IndexedPlaylist {
    pub id: String,
    pub entry: MembershipEntry,
}

/// Which tracks are in which playlist.
#[derive(Debug, PartialEq, Eq)]
pub struct MembershipIndex {
    pub version: u32,
    pub entries: Vec<IndexedPlaylist>,
}

/// The entries as a map from playlist id to contents.
pub open spec fn index_map(entries: Seq<IndexedPlaylist>) -> Map<Seq<char>, MembershipEntryView>
    decreases entries.len(),
{
    if entries.len() == 0 {
        Map::empty()
    } else {
        index_map(entries.drop_last()).insert(entries.last().id@, entries.last().entry@)
    }
}

/// The ids of the playlists that have an entry.
pub open spec fn entry_keys(entries: Seq<IndexedPlaylist>) -> Seq<Seq<char>> {
    entries.map_values(|e: IndexedPlaylist| e.id@)
}

/// The entries of all playlists but one.
pub open spec fn without(entries: Seq<IndexedPlaylist>, id: Seq<char>) -> Seq<IndexedPlaylist> {
    entries.filter(|e: IndexedPlaylist| e.id@ != id)
}

/// Without repeated ids, the map holds at an entry's id that entry.
proof fn lemma_index_map(entries: Seq<IndexedPlaylist>)
    requires
        entry_keys(entries).no_duplicates(),
    ensures
        forall|i: int|
            0 <= i < entries.len() ==> index_map(entries).contains_key((#[trigger] entries[i]).id@)
                && index_map(entries)[entries[i].id@] == entries[i].entry@,
        forall|k: Seq<char>| #[trigger]
            index_map(entries).contains_key(k) <==> entry_keys(entries).contains(k),
    decreases entries.len(),
{
    if entries.len() > 0 {
        let front = entries.drop_last();
        assert(entry_keys(entries) =~= entry_keys(front).push(entries.last().id@));
        assert(entry_keys(front) =~= entry_keys(entries).drop_last());
        lemma_index_map(front);
        assert forall|i: int| 0 <= i < entries.len() implies index_map(entries).contains_key(
            (#[trigger] entries[i]).id@,
        ) && index_map(entries)[entries[i].id@] == entries[i].entry@ by {
            if i < front.len() {
                assert(front[i] == entries[i]);
                assert(entry_keys(entries)[i] != entry_keys(entries)[entries.len() - 1]);
            }
        }
        assert forall|k: Seq<char>| #[trigger]
            index_map(entries).contains_key(k) <==> entry_keys(entries).contains(k) by {
            lists::lemma_contains_push(entry_keys(front), entries.last().id@, k);
            assert(index_map(front).contains_key(k) <==> entry_keys(front).contains(k));
            assert(index_map(entries) == index_map(front).insert(
                entries.last().id@,
                entries.last().entry@,
            ));
        }
    }
}

/// Dropping the entries of one playlist drops it from the map.
proof fn lemma_index_map_without(entries: Seq<IndexedPlaylist>, id: Seq<char>)
    ensures
        index_map(without(entries, id)) == index_map(entries).remove(id),
    decreases entries.len(),
{
    let other = |e: IndexedPlaylist| e.id@ != id;
    reveal(Seq::filter);
    if entries.len() > 0 {
        let front = entries.drop_last();
        lemma_index_map_without(front, id);
        let last = entries.last();
        let kept = without(front, id);
        let shorter = index_map(front);
        if other(last) {
            assert(without(entries, id) == kept.push(last));
            assert(kept.push(last).drop_last() =~= kept);
            assert(shorter.remove(id).insert(last.id@, last.entry@) =~= shorter.insert(
                last.id@,
                last.entry@,
            ).remove(id));
        } else {
            assert(without(entries, id) == kept);
            assert(shorter.remove(id) =~= shorter.insert(last.id@, last.entry@).remove(id));
        }
    } else {
        assert(index_map(entries) =~= index_map(entries).remove(id));
    }
}

proof fn lemma_entry_keys_without(entries: Seq<IndexedPlaylist>, id: Seq<char>)
    requires
        entry_keys(entries).no_duplicates(),
    ensures
        entry_keys(without(entries, id)).no_duplicates(),
        forall|k: Seq<char>| #[trigger]
            entry_keys(without(entries, id)).contains(k) ==> entry_keys(entries).contains(k) && k
                != id,
    decreases entries.len(),
{
    let other = |e: IndexedPlaylist| e.id@ != id;
    reveal(Seq::filter);
    if entries.len() > 0 {
        let front = entries.drop_last();
        let last = entries.last();
        assert(entry_keys(entries) =~= entry_keys(front).push(last.id@));
        assert(entry_keys(front) =~= entry_keys(entries).drop_last());
        lemma_entry_keys_without(front, id);
        let kept = entry_keys(without(front, id));
        assert(!entry_keys(front).contains(last.id@)) by {
            if entry_keys(front).contains(last.id@) {
                let i = choose|i: int| 0 <= i < front.len() && entry_keys(front)[i] == last.id@;
                assert(entry_keys(entries)[i] == entry_keys(entries)[front.len() as int]);
            }
        }
        assert(without(entries, id) == (if other(last) {
            without(front, id).push(last)
        } else {
            without(front, id)
        }));
        assert(!kept.contains(last.id@));
        lists::lemma_push_set(kept, last.id@);
        assert(entry_keys(without(front, id).push(last)) =~= kept.push(last.id@));
        assert forall|k: Seq<char>| #[trigger]
            entry_keys(without(entries, id)).contains(k) implies entry_keys(entries).contains(k) && k
            != id by {
            lists::lemma_contains_push(kept, last.id@, k);
            lists::lemma_contains_push(entry_keys(front), last.id@, k);
            assert(kept.contains(k) ==> entry_keys(front).contains(k) && k != id);
        }
    }
}

impl View for MembershipIndex {
    type V = Map<Seq<char>, MembershipEntryView>;

    open spec fn view(&self) -> Map<Seq<char>, MembershipEntryView> {
        index_map(self.entries@)
    }
}

impl Default for MembershipIndex {
    /// An empty index of the current version.
    fn default() -> (r: MembershipIndex)
        ensures
            r.wf(),
            r@ == Map::<Seq<char>, MembershipEntryView>::empty(),
    {
        let r = MembershipIndex { version: MEMBERSHIP_CACHE_VERSION, entries: Vec::new() };
        assert(entry_keys(r.entries@) =~= Seq::<Seq<char>>::empty());
        r
    }
}

/// The index has an entry for the playlist, made at the given snapshot.
pub open spec fn fresh_in(
    index: Map<Seq<char>, MembershipEntryView>,
    playlist_id: Seq<char>,
    snapshot_id: Option<Seq<char>>,
) -> bool {
    &&& snapshot_id is Some
    &&& index.contains_key(playlist_id)
    &&& index[playlist_id].snapshot_id == snapshot_id->0
}

/// The index has an entry for the playlist that lists the track.
pub open spec fn listed_in(
    index: Map<Seq<char>, MembershipEntryView>,
    playlist_id: Seq<char>,
    track_id: Seq<char>,
) -> bool {
    index.contains_key(playlist_id) && index[playlist_id].track_ids.contains(track_id)
}

impl MembershipIndex {
    /// The index is of the current version, each playlist has at most one entry,
    /// and no entry lists a track twice.
    pub open spec fn wf(self) -> bool {
        &&& self.version == MEMBERSHIP_CACHE_VERSION
        &&& entry_keys(self.entries@).no_duplicates()
        &&& forall|i: int|
            0 <= i < self.entries@.len() ==> (#[trigger] self.entries@[i]).entry.track_ids.wf()
    }

    /// The index that a file holds. A file that is missing or malformed, or that
    /// is of another version, counts as an empty index; the worst that follows is
    /// a full sync. Of two entries for one playlist the later one counts.
    pub fn load(stored: Option<MembershipIndex>) -> (r: MembershipIndex)
        ensures
            r.wf(),
            r@ == (match stored {
                Some(index) => if index.version == MEMBERSHIP_CACHE_VERSION {
                    index@
                } else {
                    Map::<Seq<char>, MembershipEntryView>::empty()
                },
                None => Map::<Seq<char>, MembershipEntryView>::empty(),
            }),
    {
        match stored {
            None => MembershipIndex::default(),
            Some(index) => {
                if index.version != MEMBERSHIP_CACHE_VERSION {
                    return MembershipIndex::default();
                }
                let ghost whole = index.entries@;
                let mut r = MembershipIndex::default();
                for item in it: index.entries.into_iter()
                    invariant
                        it.seq() == whole,
                        r.wf(),
                        r@ == index_map(whole.take(it.index())),
                {
                    proof {
                        assert(whole.take(it.index() + 1).drop_last() =~= whole.take(it.index()));
                    }
                    let track_ids = IdSet::from_list(&item.entry.track_ids.ids);
                    r.insert(item.id, item.entry.snapshot_id, track_ids);
                }
                proof {
                    lists::lemma_take_all(whole);
                }
                r
            },
        }
    }

    /// The position of the playlist's entry, or `None` if it has none.
    fn find(&self, playlist_id: &str) -> (r: Option<usize>)
        ensures
            match r {
                Some(i) => i < self.entries@.len() && self.entries@[i as int].id@ == playlist_id@,
                None => !entry_keys(self.entries@).contains(playlist_id@),
            },
    {
        let mut i: usize = 0;
        while i < self.entries.len()
            invariant
                i <= self.entries.len(),
                forall|j: int| 0 <= j < i ==> (#[trigger] self.entries@[j]).id@ != playlist_id@,
            decreases self.entries.len() - i,
        {
            if str_eq(self.entries[i].id.as_str(), playlist_id) {
                return Some(i);
            }
            i += 1;
        }
        None
    }

    /// Whether the playlist was indexed at this snapshot; a playlist without a
    /// snapshot id never counts as indexed.
    pub fn is_fresh(&self, playlist_id: &str, snapshot_id: Option<&str>) -> (r: bool)
        requires
            self.wf(),
        ensures
            r == fresh_in(
                self@,
                playlist_id@,
                match snapshot_id {
                    Some(s) => Some(s@),
                    None => None,
                },
            ),
    {
        proof {
            lemma_index_map(self.entries@);
        }
        match (self.find(playlist_id), snapshot_id) {
            (Some(i), Some(snap)) => str_eq(self.entries[i].entry.snapshot_id.as_str(), snap),
            _ => false,
        }
    }

    /// Whether the track is known to be in the playlist. A playlist that was not
    /// indexed yet counts as not holding it.
    pub fn contains(&self, playlist_id: &str, track_id: &str) -> (r: bool)
        requires
            self.wf(),
        ensures
            r == listed_in(self@, playlist_id@, track_id@),
    {
        proof {
            lemma_index_map(self.entries@);
        }
        match self.find(playlist_id) {
            Some(i) => self.entries[i].entry.track_ids.contains(track_id),
            None => false,
        }
    }

    /// Replaces what is known of the playlist.
    pub fn insert(&mut self, playlist_id: String, snapshot_id: String, track_ids: IdSet)
        requires
            old(self).wf(),
            track_ids.wf(),
        ensures
            final(self).wf(),
            final(self)@ == old(self)@.insert(
                playlist_id@,
                MembershipEntryView { snapshot_id: snapshot_id@, track_ids: track_ids.set() },
            ),
    {
        let ghost all = self.entries@;
        let ghost other = |e: IndexedPlaylist| e.id@ != playlist_id@;
        let mut old_entries: Vec<IndexedPlaylist> = Vec::new();
        std::mem::swap(&mut old_entries, &mut self.entries);
        let mut kept: Vec<IndexedPlaylist> = Vec::new();
        proof {
            reveal(Seq::filter);
            assert(kept@ =~= all.take(0).filter(other));
        }
        for item in it: old_entries.into_iter()
            invariant
                it.seq() == all,
                other == (|e: IndexedPlaylist| e.id@ != playlist_id@),
                kept@ == all.take(it.index()).filter(other),
                forall|i: int| 0 <= i < all.len() ==> (#[trigger] all[i]).entry.track_ids.wf(),
                forall|i: int| 0 <= i < kept@.len() ==> (#[trigger] kept@[i]).entry.track_ids.wf(),
        {
            proof {
                lists::lemma_filter_take_push(all, other, it.index());
                assert(all[it.index()] == item);
            }
            if !str_eq(item.id.as_str(), playlist_id.as_str()) {
                kept.push(item);
            }
        }
        let ghost front = kept@;
        let ghost new_id = playlist_id@;
        kept.push(
            IndexedPlaylist {
                id: playlist_id,
                entry: MembershipEntry { snapshot_id, track_ids },
            },
        );
        self.entries = kept;
        proof {
            lists::lemma_take_all(all);
            lemma_index_map_without(all, new_id);
            lemma_entry_keys_without(all, new_id);
            assert(self.entries@.drop_last() =~= front);
            assert(self@ =~= index_map(all).insert(
                new_id,
                MembershipEntryView { snapshot_id: snapshot_id@, track_ids: track_ids.set() },
            ));
            assert(entry_keys(self.entries@) =~= entry_keys(front).push(new_id));
            lists::lemma_push_set(entry_keys(front), new_id);
        }
    }
}

/// Once a playlist is indexed at a snapshot it is fresh at that snapshot and at
/// no other, and exactly the indexed tracks are known to be in it.
pub proof fn law_insert_makes_fresh(
    index: Map<Seq<char>, MembershipEntryView>,
    playlist_id: Seq<char>,
    entry: MembershipEntryView,
    snapshot_id: Seq<char>,
    track_id: Seq<char>,
)
    ensures
        fresh_in(index.insert(playlist_id, entry), playlist_id, Some(snapshot_id)) <==> snapshot_id
            == entry.snapshot_id,
        listed_in(index.insert(playlist_id, entry), playlist_id, track_id)
            <==> entry.track_ids.contains(track_id),
{
}

/// Indexing one playlist changes nothing of the others.
pub proof fn law_insert_leaves_others(
    index: Map<Seq<char>, MembershipEntryView>,
    playlist_id: Seq<char>,
    entry: MembershipEntryView,
    other: Seq<char>,
    snapshot_id: Option<Seq<char>>,
    track_id: Seq<char>,
)
    requires
        other != playlist_id,
    ensures
        fresh_in(index.insert(playlist_id, entry), other, snapshot_id) == fresh_in(
            index,
            other,
            snapshot_id,
        ),
        listed_in(index.insert(playlist_id, entry), other, track_id) == listed_in(
            index,
            other,
            track_id,
        ),
{
}

/// A playlist that the user owns, as the drawer lists it.
#[derive(Debug, PartialEq, Eq)]
pub struct OwnedPlaylist {
    pub id: String,
    pub title: String,
    pub art: Option<String>,
    pub snapshot_id: Option<String>,
}

impl Clone for OwnedPlaylist {
    fn clone(&self) -> (r: Self)
        ensures
            r == *self,
    {
        OwnedPlaylist {
            id: self.id.clone(),
            title: self.title.clone(),
            art: self.art.clone(),
            snapshot_id: self.snapshot_id.clone(),
        }
    }
}

/// The index, the playlists that the user owns, and whether a sync is under way
/// and a save is due. There is one cache; the drawer and the sync are handed a
/// reference to it, so that each sees what the other wrote last.
#[derive(Debug, PartialEq, Eq)]
pub struct SharedMembershipCache {
    pub index: MembershipIndex,
    pub owned: Vec<OwnedPlaylist>,
    pub syncing: bool,
    pub save_pending: bool,
}

impl SharedMembershipCache {
    /// The index is well formed.
    pub open spec fn wf(self) -> bool {
        self.index.wf()
    }

    /// What is read from the cache besides its index.
    pub open spec fn readings(self) -> CacheReadings {
        CacheReadings { owned: self.owned@, syncing: self.syncing }
    }

    /// The cache at the start of the program, from what the file holds.
    pub fn load(stored: Option<MembershipIndex>) -> (r: SharedMembershipCache)
        ensures
            r.wf(),
            r.index@ == (match stored {
                Some(index) => if index.version == MEMBERSHIP_CACHE_VERSION {
                    index@
                } else {
                    Map::<Seq<char>, MembershipEntryView>::empty()
                },
                None => Map::<Seq<char>, MembershipEntryView>::empty(),
            }),
            r.owned@.len() == 0,
            !r.syncing,
            !r.save_pending,
    {
        SharedMembershipCache {
            index: MembershipIndex::load(stored),
            owned: Vec::new(),
            syncing: false,
            save_pending: false,
        }
    }

    /// The index.
    pub fn index(&self) -> (r: &MembershipIndex)
        ensures
            *r == self.index,
    {
        &self.index
    }

    /// The index, to be changed.
    pub fn index_mut(&mut self) -> (r: &mut MembershipIndex)
        ensures
            *r == old(self).index,
            *final(self) == (SharedMembershipCache { index: *final(r), ..*old(self) }),
    {
        &mut self.index
    }

    /// The playlists that the user owns, as the last sync found them.
    pub fn owned_playlists(&self) -> (r: Vec<OwnedPlaylist>)
        ensures
            r@ == self.owned@,
    {
        self.owned.clone()
    }

    /// Takes note of the playlists that the user owns.
    pub fn set_owned_playlists(&mut self, playlists: Vec<OwnedPlaylist>)
        ensures
            *final(self) == (SharedMembershipCache { owned: playlists, ..*old(self) }),
            final(self).readings() == after_write(
                old(self).readings(),
                CacheWrite::Playlists(playlists@),
            ),
    {
        self.owned = playlists;
    }

    /// Whether a sync is under way; some rows may still read as not holding a track.
    pub fn is_syncing(&self) -> (r: bool)
        ensures
            r == self.syncing,
    {
        self.syncing
    }

    /// Takes note whether a sync is under way.
    pub fn set_syncing(&mut self, syncing: bool)
        ensures
            *final(self) == (SharedMembershipCache { syncing, ..*old(self) }),
            final(self).readings() == after_write(
                old(self).readings(),
                CacheWrite::Syncing(syncing),
            ),
    {
        self.syncing = syncing;
    }

    /// Asks for a save: `true` if a timer is to be started. While one runs,
    /// further requests are covered by it.
    pub fn schedule_save(&mut self) -> (r: bool)
        ensures
            r == !old(self).save_pending,
            *final(self) == (SharedMembershipCache { save_pending: true, ..*old(self) }),
    {
        let start: bool = !self.save_pending;
        self.save_pending = true;
        start
    }

    /// The timer ran out: the index is written now, and the next request starts a
    /// timer again.
    pub fn on_save_timer(&mut self)
        ensures
            *final(self) == (SharedMembershipCache { save_pending: false, ..*old(self) }),
    {
        self.save_pending = false;
    }
}

/// What is read from the cache besides its index: the playlists that the user owns,
/// and whether a sync is under way.
pub struct CacheReadings {
    pub owned: Seq<OwnedPlaylist>,
    pub syncing: bool,
}

/// Something that was written to the cache.
pub enum CacheWrite {
    Playlists(Seq<OwnedPlaylist>),
    Syncing(bool),
}

/// What is read after something was written.
pub open spec fn after_write(before: CacheReadings, write: CacheWrite) -> CacheReadings {
    match write {
        CacheWrite::Playlists(owned) => CacheReadings { owned, ..before },
        CacheWrite::Syncing(syncing) => CacheReadings { syncing, ..before },
    }
}

/// What is read after all of this was written, by whomever.
pub open spec fn after_writes(before: CacheReadings, writes: Seq<CacheWrite>) -> CacheReadings
    decreases writes.len(),
{
    if writes.len() == 0 {
        before
    } else {
        after_write(after_writes(before, writes.drop_last()), writes.last())
    }
}

/// Every reader sees the list that was written last, whoever wrote it: a list
/// replaces the one before.
pub proof fn law_last_list_is_read(before: CacheReadings, writes: Seq<CacheWrite>, k: int)
    requires
        0 <= k < writes.len(),
        writes[k] is Playlists,
        forall|i: int| k < i < writes.len() ==> !(#[trigger] writes[i] is Playlists),
    ensures
        after_writes(before, writes).owned == writes[k]->Playlists_0,
    decreases writes.len(),
{
    if k < writes.len() - 1 {
        assert(!(writes[writes.len() - 1] is Playlists));
        law_last_list_is_read(before, writes.drop_last(), k);
    }
}

/// Every reader sees the flag that was written last, whoever wrote it.
pub proof fn law_last_flag_is_read(before: CacheReadings, writes: Seq<CacheWrite>, k: int)
    requires
        0 <= k < writes.len(),
        writes[k] is Syncing,
        forall|i: int| k < i < writes.len() ==> !(#[trigger] writes[i] is Syncing),
    ensures
        after_writes(before, writes).syncing == writes[k]->Syncing_0,
    decreases writes.len(),
{
    if k < writes.len() - 1 {
        assert(!(writes[writes.len() - 1] is Syncing));
        law_last_flag_is_read(before, writes.drop_last(), k);
    }
}

/// Of the entries for one playlist the last counts.
pub proof fn law_last_entry_counts(entries: Seq<IndexedPlaylist>, k: int)
    requires
        0 <= k < entries.len(),
        forall|j: int| k < j < entries.len() ==> (#[trigger] entries[j]).id@ != entries[k].id@,
    ensures
        index_map(entries).contains_key(entries[k].id@),
        index_map(entries)[entries[k].id@].snapshot_id == entries[k].entry.snapshot_id@,
        index_map(entries)[entries[k].id@].track_ids == entries[k].entry.track_ids.set(),
    decreases entries.len(),
{
    if k < entries.len() - 1 {
        let front = entries.drop_last();
        assert(entries[entries.len() - 1].id@ != entries[k].id@);
        assert forall|j: int| k < j < front.len() implies (#[trigger] front[j]).id@
            != front[k].id@ by {
            assert(entries[j] == front[j]);
        }
        law_last_entry_counts(front, k);
    }
}

/// A playlist without an entry is not in the index.
pub proof fn law_other_playlists_are_not_indexed(entries: Seq<IndexedPlaylist>, id: Seq<char>)
    requires
        forall|j: int| 0 <= j < entries.len() ==> (#[trigger] entries[j]).id@ != id,
    ensures
        !index_map(entries).contains_key(id),
    decreases entries.len(),
{
    if entries.len() > 0 {
        let front = entries.drop_last();
        assert(entries[entries.len() - 1].id@ != id);
        assert forall|j: int| 0 <= j < front.len() implies (#[trigger] front[j]).id@ != id by {
            assert(entries[j] == front[j]);
        }
        law_other_playlists_are_not_indexed(front, id);
    }
}

/// Without an entry, or without a snapshot, nothing is fresh; and only what the entry
/// lists is listed.
pub proof fn law_nothing_is_known_without_an_entry(
    index: Map<Seq<char>, MembershipEntryView>,
    playlist_id: Seq<char>,
    snapshot_id: Option<Seq<char>>,
    track_id: Seq<char>,
)
    ensures
        snapshot_id is None ==> !fresh_in(index, playlist_id, snapshot_id),
        !index.contains_key(playlist_id) ==> !fresh_in(index, playlist_id, snapshot_id)
            && !listed_in(index, playlist_id, track_id),
        index.contains_key(playlist_id) ==> listed_in(index, playlist_id, track_id)
            == index[playlist_id].track_ids.contains(track_id),
{
}

/// An index is of the first version.
pub proof fn law_index_has_its_version(index: MembershipIndex)
    requires
        index.wf(),
    ensures
        index.version == 1,
{
}

/// A list that is written leaves the flag alone, and a flag leaves the list alone.
pub proof fn law_writes_do_not_mix(before: CacheReadings, write: CacheWrite)
    ensures
        write is Playlists ==> after_write(before, write).syncing == before.syncing && after_write(
            before,
            write,
        ).owned == write->Playlists_0,
        write is Syncing ==> after_write(before, write).owned == before.owned && after_write(
            before,
            write,
        ).syncing == write->Syncing_0,
{
}

} // verus!

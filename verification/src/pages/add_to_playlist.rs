//! The drawer in which a song is put in playlists or taken out of them.
//!
//! Boxes are checked and unchecked without any effect until the drawer is saved;
//! what is on the service is known from an index that a background sync fills.

use vstd::prelude::*;

use crate::actions::{
    ActionDispatcher, ApiCall, ApiCallView, AppAction, AppActionView, AppEvent, BrowserEvent,
    EffectView, LoginEvent,
};
use crate::api::cached_client::SpotifyResult;
use crate::id_set::IdSet;
use crate::lists;
use crate::models;
use crate::models::{
    art_url, PlaylistDescription, PlaylistDescriptionView, SongDescription, SongDescriptionView,
};
use crate::pages::membership_cache;
use crate::pages::membership_cache::{
    MembershipEntryView, MembershipIndex, OwnedPlaylist, SharedMembershipCache,
};
use crate::shell::sheets::Sheets;
use crate::sorting;
use crate::sorting::{sort_by, Ranking};
use crate::state::AppModel;
use crate::text;
use crate::text::{contains, order_text, str_eq, to_lowercase, trim, Order};

verus! {

// ── New playlists ──────────────────────────────────────────────────────────

/// The data and the wishes of the drawer.
#[derive(Debug, PartialEq, Eq)]
pub struct AddToPlaylistModel {
    pub app_model: AppModel,
    pub dispatcher: ActionDispatcher,
}

impl AddToPlaylistModel {
    /// The drawer.
    pub fn new(app_model: AppModel, dispatcher: ActionDispatcher) -> (r: Self)
        ensures
            r == (AddToPlaylistModel { app_model, dispatcher }),
    {
        AddToPlaylistModel { app_model, dispatcher }
    }

    /// The user that is logged in.
    pub fn user_id(&self) -> (r: Option<String>)
        ensures
            r == self.app_model.state.logged_user.user,
    {
        self.app_model.state.logged_user.user.clone()
    }

    /// Wants a playlist made for the user that is logged in, if there is one.
    pub fn create_new_playlist(&mut self, name: String)
        ensures
            final(self).app_model == old(self).app_model,
            final(self).dispatcher@ == (match old(self).app_model.state.logged_user.user {
                Some(user) => old(self).dispatcher@.push(
                    EffectView::Call(
                        ApiCallView::CreatePlaylist { name: name@, user_id: user@ },
                    ),
                ),
                None => old(self).dispatcher@,
            }),
    {
        match self.user_id() {
            Some(user_id) => self.dispatcher.call(ApiCall::CreatePlaylist { name, user_id }),
            None => {},
        }
    }

    /// The name for a new playlist was confirmed as it stands in the entry. White
    /// space around it does not count; an empty name is ignored, and `true` says
    /// that it was not.
    pub fn confirm_name(&mut self, entry: &str) -> (r: bool)
        ensures
            r == (text::trimmed(entry@).len() > 0),
            final(self).app_model == old(self).app_model,
            final(self).dispatcher@ == (match old(self).app_model.state.logged_user.user {
                Some(user) => if r {
                    old(self).dispatcher@.push(
                        EffectView::Call(
                            ApiCallView::CreatePlaylist {
                                name: text::trimmed(entry@),
                                user_id: user@,
                            },
                        ),
                    )
                } else {
                    old(self).dispatcher@
                },
                None => old(self).dispatcher@,
            }),
    {
        let name: String = trim(entry);
        if name.as_str().is_empty() {
            return false;
        }
        self.create_new_playlist(name);
        true
    }
}

/// What follows once the service has made a playlist.
pub fn playlist_created(answer: SpotifyResult<PlaylistDescription>) -> (r: SpotifyResult<AppAction>)
    ensures
        match (answer, r) {
            (Ok(playlist), Ok(action)) => action == AppAction::CreatePlaylist(playlist),
            (Err(e), Err(f)) => e == f,
            _ => false,
        },
{
    match answer {
        Ok(playlist) => Ok(AppAction::CreatePlaylist(playlist)),
        Err(e) => Err(e),
    }
}

// ── The rows ───────────────────────────────────────────────────────────────

/// The order in which the playlists are listed.
#[derive(Clone, Copy, Debug, PartialEq, Eq, Structural)]
pub enum SortMode {
    Alphabetical,
    /// As the service lists them.
    Default,
}

/// The order that an entry of the menu stands for: the first entry is the
/// alphabet.
pub fn sort_mode_of(selected: u32) -> (r: SortMode)
    ensures
        r == (if selected == 0 {
            SortMode::Alphabetical
        } else {
            SortMode::Default
        }),
{
    if selected == 0 {
        SortMode::Alphabetical
    } else {
        SortMode::Default
    }
}

/// A row of the drawer.
#[derive(Debug, PartialEq, Eq)]
pub struct PlaylistRowModel {
    pub id: String,
    pub title: String,
    pub art: Option<String>,
    pub snapshot_id: Option<String>,
    /// Whether the song is known to be in the playlist.
    pub in_playlist: bool,
}

/// The contents of a `PlaylistRowModel`.
pub struct PlaylistRowModelView {
    pub id: Seq<char>,
    pub title: Seq<char>,
    pub art: Option<Seq<char>>,
    pub snapshot_id: Option<Seq<char>>,
    pub in_playlist: bool,
}

impl DeepView for PlaylistRowModel {
    type V = PlaylistRowModelView;

    open spec fn deep_view(&self) -> PlaylistRowModelView {
        PlaylistRowModelView {
            id: self.id@,
            title: self.title@,
            art: self.art.deep_view(),
            snapshot_id: self.snapshot_id.deep_view(),
            in_playlist: self.in_playlist,
        }
    }
}

impl Clone for PlaylistRowModel {
    fn clone(&self) -> (r: Self)
        ensures
            r.deep_view() == self.deep_view(),
    {
        PlaylistRowModel {
            id: self.id.clone(),
            title: self.title.clone(),
            art: self.art.clone(),
            snapshot_id: self.snapshot_id.clone(),
            in_playlist: self.in_playlist,
        }
    }
}

/// The row of a playlist, for a song.
pub open spec fn row_of(
    playlist: OwnedPlaylist,
    index: Map<Seq<char>, MembershipEntryView>,
    song_id: Seq<char>,
) -> PlaylistRowModel {
    PlaylistRowModel {
        id: playlist.id,
        title: playlist.title,
        art: playlist.art,
        snapshot_id: playlist.snapshot_id,
        in_playlist: membership_cache::listed_in(index, playlist.id@, song_id),
    }
}

/// The rows of the drawer for a song: one for each playlist that the user owns.
pub fn rows_for(
    playlists: &Vec<OwnedPlaylist>,
    index: &MembershipIndex,
    song_id: &str,
) -> (r: Vec<PlaylistRowModel>)
    requires
        index.wf(),
    ensures
        r@ == playlists@.map_values(|p: OwnedPlaylist| row_of(p, index@, song_id@)),
{
    let ghost view = |p: OwnedPlaylist| row_of(p, index@, song_id@);
    let mut rows: Vec<PlaylistRowModel> = Vec::new();
    let mut i: usize = 0;
    while i < playlists.len()
        invariant
            i <= playlists.len(),
            index.wf(),
            view == (|p: OwnedPlaylist| row_of(p, index@, song_id@)),
            rows@ == playlists@.map_values(view).take(i as int),
        decreases playlists.len() - i,
    {
        let p = &playlists[i];
        let in_playlist: bool = index.contains(p.id.as_str(), song_id);
        rows.push(
            PlaylistRowModel {
                id: p.id.clone(),
                title: p.title.clone(),
                art: p.art.clone(),
                snapshot_id: p.snapshot_id.clone(),
                in_playlist,
            },
        );
        proof {
            lists::lemma_take_push(playlists@.map_values(view), i as int);
        }
        i += 1;
    }
    proof {
        lists::lemma_take_all(playlists@.map_values(view));
    }
    rows
}

/// A row is listed if its title holds what was typed; letter case does not matter.
pub open spec fn row_matches(title: Seq<char>, typed: Seq<char>) -> bool {
    text::lowercase(typed).len() == 0 || text::has_substring(
        text::lowercase(title),
        text::lowercase(typed),
    )
}

impl PlaylistRowModel {
    /// Whether the row is listed, given what was typed.
    pub fn matches_search(&self, typed: &str) -> (r: bool)
        ensures
            r == row_matches(self.title@, typed@),
    {
        let needle: String = to_lowercase(typed);
        if needle.as_str().is_empty() {
            return true;
        }
        contains(to_lowercase(self.title.as_str()).as_str(), needle.as_str())
    }
}

/// How two rows are ordered: by title in lower case, or not at all.
pub open spec fn row_order(
    mode: SortMode,
    a: PlaylistRowModelView,
    b: PlaylistRowModelView,
) -> Order {
    match mode {
        SortMode::Default => Order::Equal,
        SortMode::Alphabetical => text::text_order(
            text::lowercase(a.title),
            text::lowercase(b.title),
        ),
    }
}

impl Ranking<PlaylistRowModel> for SortMode {
    open spec fn order(self) -> spec_fn(PlaylistRowModelView, PlaylistRowModelView) -> Order {
        |a: PlaylistRowModelView, b: PlaylistRowModelView| row_order(self, a, b)
    }

    proof fn lemma_is_order(self) {
        let order = <Self as Ranking<PlaylistRowModel>>::order(self);
        assert forall|a: PlaylistRowModelView, b: PlaylistRowModelView| #[trigger]
            order(b, a) == order(a, b).spec_reverse() by {
            text::lemma_text_order_antisymmetric(text::lowercase(a.title), text::lowercase(b.title));
        }
        assert forall|a: PlaylistRowModelView, b: PlaylistRowModelView, c: PlaylistRowModelView|
            #[trigger] order(a, b) != Order::Greater && #[trigger] order(b, c)
                != Order::Greater implies order(a, c) != Order::Greater by {
            if self == SortMode::Alphabetical {
                text::lemma_text_order_transitive(
                    text::lowercase(a.title),
                    text::lowercase(b.title),
                    text::lowercase(c.title),
                );
            }
        }
    }

    /// Compares two rows.
    fn compare(&self, a: &PlaylistRowModel, b: &PlaylistRowModel) -> (r: Order) {
        match self {
            SortMode::Default => Order::Equal,
            SortMode::Alphabetical => order_text(
                to_lowercase(a.title.as_str()).as_str(),
                to_lowercase(b.title.as_str()).as_str(),
            ),
        }
    }
}

// ── The drawer ─────────────────────────────────────────────────────────────

/// The drawer as it is drawn for a song.
#[derive(Debug, PartialEq, Eq)]
pub struct Drawer {
    pub song_title: String,
    pub song_artist: String,
    /// The address of the song's picture.
    pub song_art: Option<String>,
    pub rows: Vec<PlaylistRowModel>,
    /// What was typed to find a playlist.
    pub typed: String,
    pub sort: SortMode,
    /// Whether the entry for the name of a new playlist is shown.
    pub entry_visible: bool,
    /// Whether it is said that a sync is under way.
    pub hint_visible: bool,
}

/// The rows that are listed, given what was typed.
pub open spec fn row_listed(typed: Seq<char>) -> spec_fn(PlaylistRowModelView) -> bool {
    |row: PlaylistRowModelView| row_matches(row.title, typed)
}

impl Drawer {
    /// Draws the drawer for a song.
    pub fn build(song: &SongDescription, cache: &SharedMembershipCache) -> (r: Drawer)
        requires
            cache.wf(),
        ensures
            r.song_title == song.title,
            r.song_artist@ == models::artists_line(song.deep_view().artists),
            r.song_art.deep_view() == models::best_url(song.deep_view().art, ROW_ART_WIDTH),
            r.rows@ == cache.owned@.map_values(
                |p: OwnedPlaylist| row_of(p, cache.index@, song.id@),
            ),
            r.typed@.len() == 0,
            r.sort == SortMode::Alphabetical,
            !r.entry_visible,
            r.hint_visible == cache.syncing,
    {
        Drawer {
            song_title: song.title.clone(),
            song_artist: song.artists_name(),
            song_art: art_url(&song.art, ROW_ART_WIDTH),
            rows: rows_for(&cache.owned, &cache.index, song.id.as_str()),
            typed: String::new(),
            sort: SortMode::Alphabetical,
            entry_visible: false,
            hint_visible: cache.is_syncing(),
        }
    }

    /// What was typed to find a playlist has changed.
    pub fn search_changed(&mut self, typed: String)
        ensures
            *final(self) == (Drawer { typed, ..*old(self) }),
    {
        self.typed = typed;
    }

    /// An order was chosen from the menu.
    pub fn sort_chosen(&mut self, selected: u32)
        ensures
            *final(self) == (Drawer {
                sort: if selected == 0 {
                    SortMode::Alphabetical
                } else {
                    SortMode::Default
                },
                ..*old(self)
            }),
    {
        self.sort = sort_mode_of(selected);
    }

    /// The row for a new playlist was pressed: the entry for its name is shown, or
    /// hidden if it was shown.
    pub fn new_playlist_pressed(&mut self)
        ensures
            *final(self) == (Drawer { entry_visible: !old(self).entry_visible, ..*old(self) }),
    {
        self.entry_visible = !self.entry_visible;
    }

    /// The name of a new playlist was confirmed: unless it is empty, the playlist is
    /// wanted and the entry is hidden.
    pub fn name_confirmed(&mut self, model: &mut AddToPlaylistModel, entry: &str)
        ensures
            *final(self) == (Drawer {
                entry_visible: old(self).entry_visible && text::trimmed(entry@).len() == 0,
                ..*old(self)
            }),
            final(model).app_model == old(model).app_model,
            final(model).dispatcher@ == (match old(model).app_model.state.logged_user.user {
                Some(user) => if text::trimmed(entry@).len() > 0 {
                    old(model).dispatcher@.push(
                        EffectView::Call(
                            ApiCallView::CreatePlaylist {
                                name: text::trimmed(entry@),
                                user_id: user@,
                            },
                        ),
                    )
                } else {
                    old(model).dispatcher@
                },
                None => old(model).dispatcher@,
            }),
    {
        if model.confirm_name(entry) {
            self.entry_visible = false;
        }
    }

    /// The rows that are shown, as they are listed.
    pub fn listed(&self) -> (r: Vec<PlaylistRowModel>)
        ensures
            sorting::is_sorted_from(
                r.deep_view(),
                self.rows.deep_view().filter(row_listed(self.typed@)),
                <SortMode as Ranking<PlaylistRowModel>>::order(self.sort),
            ),
    {
        let ghost all = self.rows.deep_view();
        let ghost shown = row_listed(self.typed@);
        let mut rows: Vec<PlaylistRowModel> = Vec::new();
        let mut i: usize = 0;
        proof {
            reveal(Seq::filter);
            assert(rows.deep_view() =~= all.take(0).filter(shown));
        }
        while i < self.rows.len()
            invariant
                i <= self.rows.len(),
                all == self.rows.deep_view(),
                shown == row_listed(self.typed@),
                rows.deep_view() == all.take(i as int).filter(shown),
            decreases self.rows.len() - i,
        {
            proof {
                lists::lemma_filter_take_push(all, shown, i as int);
                assert(all[i as int] == self.rows@[i as int].deep_view());
            }
            if self.rows[i].matches_search(self.typed.as_str()) {
                let ghost before = rows;
                let row = self.rows[i].clone();
                rows.push(row);
                proof {
                    lists::lemma_deep_push(before, rows, row);
                }
            }
            i += 1;
        }
        proof {
            lists::lemma_take_all(all);
        }
        sort_by(rows, &self.sort)
    }
}

// ── Checking and unchecking ────────────────────────────────────────────────

/// What was checked and unchecked since the drawer was opened for a song.
#[derive(Debug, PartialEq, Eq)]
pub struct AddToPlaylist {
    pub current_song: Option<SongDescription>,
    /// The playlists that the song is to be put in.
    pub staged_adds: IdSet,
    /// The playlists that the song is to be taken out of.
    pub staged_removes: IdSet,
    /// The playlists that the drawer has listed.
    pub known_playlist_ids: IdSet,
}

/// The ids of the playlists, in order.
pub open spec fn owned_ids(playlists: Seq<OwnedPlaylist>) -> Seq<Seq<char>> {
    playlists.map_values(|p: OwnedPlaylist| p.id@)
}

/// The ids of the playlists as a set.
pub fn owned_id_set(playlists: &Vec<OwnedPlaylist>) -> (r: IdSet)
    ensures
        r.wf(),
        r.set() == owned_ids(playlists@).to_set(),
{
    let ghost all = owned_ids(playlists@);
    let mut r = IdSet::new();
    let mut i: usize = 0;
    assert(all.take(0).to_set() =~= Set::<Seq<char>>::empty());
    while i < playlists.len()
        invariant
            i <= playlists.len(),
            all == owned_ids(playlists@),
            r.wf(),
            r.set() == all.take(i as int).to_set(),
        decreases playlists.len() - i,
    {
        proof {
            lists::lemma_take_push(all, i as int);
            lists::lemma_push_set(all.take(i as int), all[i as int]);
        }
        r.insert(playlists[i].id.as_str());
        i += 1;
    }
    proof {
        lists::lemma_take_all(all);
    }
    r
}

/// Whether the box of a playlist is checked: what was staged counts, and where
/// nothing was staged, whether the song is in the playlist.
pub open spec fn is_checked(
    adds: Set<Seq<char>>,
    removes: Set<Seq<char>>,
    id: Seq<char>,
    in_playlist: bool,
) -> bool {
    adds.contains(id) || (!removes.contains(id) && in_playlist)
}

impl AddToPlaylist {
    /// The sets hold no id twice.
    pub open spec fn wf(self) -> bool {
        self.staged_adds.wf() && self.staged_removes.wf() && self.known_playlist_ids.wf()
    }

    /// Before the drawer was ever opened.
    pub fn new() -> (r: AddToPlaylist)
        ensures
            r.wf(),
            r.current_song is None,
            r.staged_adds.set() == Set::<Seq<char>>::empty(),
            r.staged_removes.set() == Set::<Seq<char>>::empty(),
            r.known_playlist_ids.set() == Set::<Seq<char>>::empty(),
    {
        AddToPlaylist {
            current_song: None,
            staged_adds: IdSet::new(),
            staged_removes: IdSet::new(),
            known_playlist_ids: IdSet::new(),
        }
    }

    /// The drawer is opened for a song: nothing is staged, and every playlist
    /// counts as listed before, so that none is taken for a new one.
    pub fn shown(
        &mut self,
        sheets: &mut Sheets,
        song: &SongDescription,
        owned: &Vec<OwnedPlaylist>,
    )
        ensures
            *final(sheets) == (Sheets { add_to_playlist: true, ..*old(sheets) }),
            final(self).wf(),
            final(self).current_song.deep_view() == Some(song.deep_view()),
            final(self).staged_adds.set() == Set::<Seq<char>>::empty(),
            final(self).staged_removes.set() == Set::<Seq<char>>::empty(),
            final(self).known_playlist_ids.set() == owned_ids(owned@).to_set(),
    {
        self.staged_adds = IdSet::new();
        self.staged_removes = IdSet::new();
        self.known_playlist_ids = owned_id_set(owned);
        self.current_song = Some(song.clone());
        sheets.add_to_playlist = true;
    }

    /// The drawer is left without saving.
    pub fn cancel(&self, sheets: &mut Sheets)
        ensures
            *final(sheets) == (Sheets { add_to_playlist: false, ..*old(sheets) }),
    {
        sheets.add_to_playlist = false;
    }

    /// The drawer is drawn: playlists that it has not listed before were made just
    /// now, so the song is to be put in them.
    pub fn rebuild(&mut self, owned: &Vec<OwnedPlaylist>)
        requires
            old(self).wf(),
        ensures
            final(self).wf(),
            final(self).current_song == old(self).current_song,
            final(self).staged_removes == old(self).staged_removes,
            final(self).staged_adds.set() == old(self).staged_adds.set().union(
                owned_ids(owned@).to_set().difference(old(self).known_playlist_ids.set()),
            ),
            final(self).known_playlist_ids.set() == owned_ids(owned@).to_set(),
    {
        let current = owned_id_set(owned);
        let ghost start = self.staged_adds.set();
        let ghost known = self.known_playlist_ids.set();
        let ghost all = current.seq();
        let mut i: usize = 0;
        assert(self.staged_adds.set() =~= start.union(all.take(0).to_set().difference(known))) by {
            assert(all.take(0).to_set() =~= Set::<Seq<char>>::empty());
        }
        while i < current.ids.len()
            invariant
                i <= current.ids.len(),
                all == current.seq(),
                self.wf(),
                self.current_song == old(self).current_song,
                self.staged_removes == old(self).staged_removes,
                self.known_playlist_ids == old(self).known_playlist_ids,
                known == self.known_playlist_ids.set(),
                self.staged_adds.set() == start.union(
                    all.take(i as int).to_set().difference(known),
                ),
            decreases current.ids.len() - i,
        {
            let ghost before = self.staged_adds.set();
            let ghost id = all[i as int];
            proof {
                lists::lemma_take_push(all, i as int);
                lists::lemma_push_set(all.take(i as int), id);
            }
            if !self.known_playlist_ids.contains(current.ids[i].as_str()) {
                self.staged_adds.insert(current.ids[i].as_str());
            }
            assert(self.staged_adds.set() =~= start.union(
                all.take(i + 1).to_set().difference(known),
            ));
            i += 1;
        }
        proof {
            lists::lemma_take_all(all);
        }
        self.known_playlist_ids = current;
    }

    /// Whether the drawer is drawn again when the sync has news: only if it is
    /// open for a song.
    pub fn is_rebuilt(&self, sheets: &Sheets) -> (r: bool)
        ensures
            r == (sheets.add_to_playlist && self.current_song is Some),
    {
        sheets.add_to_playlist && self.current_song.is_some()
    }

    /// Whether the box of a playlist is checked.
    pub fn checked(&self, id: &str, in_playlist: bool) -> (r: bool)
        ensures
            r == is_checked(
                self.staged_adds.set(),
                self.staged_removes.set(),
                id@,
                in_playlist,
            ),
    {
        if self.staged_adds.contains(id) {
            true
        } else if self.staged_removes.contains(id) {
            false
        } else {
            in_playlist
        }
    }

    /// The box of a playlist was checked (`now`) or unchecked. Only what differs
    /// from what is on the service is staged.
    pub fn toggled(&mut self, id: &str, now: bool, was_in: bool)
        requires
            old(self).wf(),
        ensures
            final(self).wf(),
            final(self).current_song == old(self).current_song,
            final(self).known_playlist_ids == old(self).known_playlist_ids,
            final(self).staged_adds.set() == adds_after(
                old(self).staged_adds.set(),
                id@,
                now,
                was_in,
            ),
            final(self).staged_removes.set() == removes_after(
                old(self).staged_removes.set(),
                id@,
                now,
                was_in,
            ),
    {
        if now {
            self.staged_removes.remove(id);
            if !was_in {
                self.staged_adds.insert(id);
            }
        } else {
            self.staged_adds.remove(id);
            if was_in {
                self.staged_removes.insert(id);
            }
        }
    }

    /// The drawer closes, and what was staged is asked of the service: the song is put in the playlists that are
    /// staged and are not known to hold it, then taken out of those that are
    /// staged for that. Each call stands alone: one that fails stops no other.
    pub fn save(
        &self,
        sheets: &mut Sheets,
        index: &MembershipIndex,
        song: &SongDescription,
    ) -> (r: Vec<ApiCall>)
        requires
            self.wf(),
            index.wf(),
        ensures
            *final(sheets) == (Sheets { add_to_playlist: false, ..*old(sheets) }),
            r.deep_view() == adds_to_save(self.staged_adds.seq(), index@, song.id@).map_values(
                |id: Seq<char>| add_call(id, song.uri@),
            ) + self.staged_removes.seq().map_values(|id: Seq<char>| remove_call(id, song.uri@)),
    {
        sheets.add_to_playlist = false;
        let ghost all = self.staged_adds.seq();
        let ghost missing = |k: Seq<char>| !membership_cache::listed_in(index@, k, song.id@);
        let ghost adding = |id: Seq<char>| add_call(id, song.uri@);
        let ghost removing = |id: Seq<char>| remove_call(id, song.uri@);
        let mut calls: Vec<ApiCall> = Vec::new();
        let mut i: usize = 0;
        proof {
            reveal(Seq::filter);
            assert(calls.deep_view() =~= all.take(0).filter(missing).map_values(adding));
        }
        while i < self.staged_adds.ids.len()
            invariant
                i <= self.staged_adds.ids.len(),
                all == self.staged_adds.seq(),
                index.wf(),
                missing == (|k: Seq<char>| !membership_cache::listed_in(index@, k, song.id@)),
                adding == (|id: Seq<char>| add_call(id, song.uri@)),
                calls.deep_view() == all.take(i as int).filter(missing).map_values(adding),
            decreases self.staged_adds.ids.len() - i,
        {
            let ghost kept = all.take(i as int).filter(missing);
            proof {
                lists::lemma_filter_take_push(all, missing, i as int);
                assert(kept.push(all[i as int]).map_values(adding) =~= kept.map_values(adding).push(
                    adding(all[i as int]),
                ));
            }
            if !index.contains(self.staged_adds.ids[i].as_str(), song.id.as_str()) {
                let ghost before = calls;
                let call = ApiCall::AddToPlaylist {
                    id: self.staged_adds.ids[i].clone(),
                    uris: vec![song.uri.clone()],
                };
                calls.push(call);
                proof {
                    lists::lemma_deep_push(before, calls, call);
                    assert(call.deep_view() == adding(all[i as int])) by {
                        assert(call->AddToPlaylist_uris.deep_view() =~= seq![song.uri@]);
                    }
                }
            }
            i += 1;
        }
        let ghost start = calls.deep_view();
        let ghost gone = self.staged_removes.seq();
        let mut j: usize = 0;
        proof {
            lists::lemma_take_all(all);
            assert(start =~= start + gone.map_values(removing).take(0));
        }
        while j < self.staged_removes.ids.len()
            invariant
                j <= self.staged_removes.ids.len(),
                gone == self.staged_removes.seq(),
                removing == (|id: Seq<char>| remove_call(id, song.uri@)),
                calls.deep_view() == start + gone.map_values(removing).take(j as int),
            decreases self.staged_removes.ids.len() - j,
        {
            let ghost before = calls;
            let call = ApiCall::RemoveFromPlaylist {
                id: self.staged_removes.ids[j].clone(),
                uris: vec![song.uri.clone()],
            };
            calls.push(call);
            proof {
                lists::lemma_deep_push(before, calls, call);
                lists::lemma_take_push(gone.map_values(removing), j as int);
                assert(call.deep_view() == removing(gone[j as int])) by {
                    assert(call->RemoveFromPlaylist_uris.deep_view() =~= seq![song.uri@]);
                }
                assert(calls.deep_view() =~= start + gone.map_values(removing).take(j + 1));
            }
            j += 1;
        }
        proof {
            lists::lemma_take_all(gone.map_values(removing));
        }
        calls
    }
}

/// Puts the track in the playlist.
pub open spec fn add_call(id: Seq<char>, uri: Seq<char>) -> ApiCallView {
    ApiCallView::AddToPlaylist { id, uris: seq![uri] }
}

/// Takes the track out of the playlist.
pub open spec fn remove_call(id: Seq<char>, uri: Seq<char>) -> ApiCallView {
    ApiCallView::RemoveFromPlaylist { id, uris: seq![uri] }
}

/// The staged additions after a box was checked (`now`) or unchecked.
pub open spec fn adds_after(
    adds: Set<Seq<char>>,
    id: Seq<char>,
    now: bool,
    was_in: bool,
) -> Set<Seq<char>> {
    if !now {
        adds.remove(id)
    } else if was_in {
        adds
    } else {
        adds.insert(id)
    }
}

/// The staged removals after a box was checked (`now`) or unchecked.
pub open spec fn removes_after(
    removes: Set<Seq<char>>,
    id: Seq<char>,
    now: bool,
    was_in: bool,
) -> Set<Seq<char>> {
    if now {
        removes.remove(id)
    } else if was_in {
        removes.insert(id)
    } else {
        removes
    }
}

/// The additions that saving asks for: those staged for playlists that are not
/// known to hold the song.
pub open spec fn adds_to_save(
    adds: Seq<Seq<char>>,
    index: Map<Seq<char>, MembershipEntryView>,
    song_id: Seq<char>,
) -> Seq<Seq<char>> {
    adds.filter(|k: Seq<char>| !membership_cache::listed_in(index, k, song_id))
}

/// A box that was just checked shows as checked, and one that was just unchecked
/// shows as unchecked.
pub proof fn law_toggle_is_shown(
    adds: Set<Seq<char>>,
    removes: Set<Seq<char>>,
    id: Seq<char>,
    now: bool,
    was_in: bool,
)
    ensures
        is_checked(
            adds_after(adds, id, now, was_in),
            removes_after(removes, id, now, was_in),
            id,
            was_in,
        ) == now,
{
}

/// Checking a box changes what is staged for no other playlist.
pub proof fn law_toggle_leaves_others(
    adds: Set<Seq<char>>,
    removes: Set<Seq<char>>,
    id: Seq<char>,
    now: bool,
    was_in: bool,
    other: Seq<char>,
    in_other: bool,
)
    requires
        other != id,
    ensures
        is_checked(
            adds_after(adds, id, now, was_in),
            removes_after(removes, id, now, was_in),
            other,
            in_other,
        ) == is_checked(adds, removes, other, in_other),
{
}

/// Checking a box and unchecking it again (or the other way round) stages
/// nothing that was not staged before.
pub proof fn law_toggle_twice_stages_nothing(id: Seq<char>, was_in: bool)
    ensures
        adds_after(
            adds_after(Set::empty(), id, !was_in, was_in),
            id,
            was_in,
            was_in,
        ) == Set::<Seq<char>>::empty(),
        removes_after(
            removes_after(Set::empty(), id, !was_in, was_in),
            id,
            was_in,
            was_in,
        ) == Set::<Seq<char>>::empty(),
{
    let none = Set::<Seq<char>>::empty();
    assert(none.insert(id).remove(id) =~= none);
    assert(none.remove(id) =~= none);
}

/// If nothing was staged both ways for a playlist, nothing is after a box was
/// checked or unchecked.
pub proof fn law_toggle_keeps_staging_consistent(
    adds: Set<Seq<char>>,
    removes: Set<Seq<char>>,
    id: Seq<char>,
    now: bool,
    was_in: bool,
)
    requires
        adds.disjoint(removes),
        was_in ==> !adds.contains(id),
    ensures
        adds_after(adds, id, now, was_in).disjoint(removes_after(removes, id, now, was_in)),
{
}

/// Saving never puts a song in a playlist that is known to hold it, and asks for
/// nothing twice.
pub proof fn law_save_never_duplicates(
    adds: Seq<Seq<char>>,
    index: Map<Seq<char>, MembershipEntryView>,
    song_id: Seq<char>,
    id: Seq<char>,
)
    requires
        adds.no_duplicates(),
    ensures
        adds_to_save(adds, index, song_id).contains(id) <==> adds.contains(id)
            && !membership_cache::listed_in(index, id, song_id),
        adds_to_save(adds, index, song_id).no_duplicates(),
{
    let missing = |k: Seq<char>| !membership_cache::listed_in(index, k, song_id);
    lists::lemma_filter_set(adds, missing);
    lists::lemma_filter_no_duplicates(adds, missing);
}

/// Drawing the drawer right after it was opened stages nothing: only playlists
/// that come later are taken for new ones.
pub proof fn law_first_draw_stages_nothing(owned: Seq<OwnedPlaylist>)
    ensures
        Set::<Seq<char>>::empty().union(
            owned_ids(owned).to_set().difference(owned_ids(owned).to_set()),
        ) == Set::<Seq<char>>::empty(),
{
    let ids = owned_ids(owned).to_set();
    assert(Set::<Seq<char>>::empty().union(ids.difference(ids)) =~= Set::<Seq<char>>::empty());
}

/// A row as it is shown. It is used for one playlist after another; `bound_id` is
/// the id of the playlist that it shows, empty if it shows none.
#[derive(Debug, PartialEq, Eq)]
pub struct PlaylistRow {
    pub bound_id: String,
    pub title: String,
    pub checked: bool,
    /// The address of the picture, once it is there.
    pub art: Option<String>,
}

impl PlaylistRow {
    /// A row that shows no playlist yet.
    pub fn new() -> (r: PlaylistRow)
        ensures
            r.bound_id@.len() == 0,
            r.title@.len() == 0,
            !r.checked,
            r.art is None,
    {
        PlaylistRow {
            bound_id: String::new(),
            title: String::new(),
            checked: false,
            art: None,
        }
    }

    /// Shows a playlist. The address of its picture is handed back if there is one
    /// to be read.
    pub fn bind(&mut self, row: &PlaylistRowModel, staged: &AddToPlaylist) -> (r: Option<String>)
        ensures
            final(self).bound_id == row.id,
            final(self).title == row.title,
            final(self).checked == is_checked(
                staged.staged_adds.set(),
                staged.staged_removes.set(),
                row.id@,
                row.in_playlist,
            ),
            final(self).art is None,
            r == row.art,
    {
        self.bound_id = row.id.clone();
        self.title = row.title.clone();
        self.art = None;
        self.refresh_checkbox(row, staged);
        row.art.clone()
    }

    /// Shows whether the song is to be in the playlist: what is staged counts, and
    /// otherwise what is known of the playlist.
    pub fn refresh_checkbox(&mut self, row: &PlaylistRowModel, staged: &AddToPlaylist)
        ensures
            *final(self) == (PlaylistRow {
                checked: is_checked(
                    staged.staged_adds.set(),
                    staged.staged_removes.set(),
                    row.id@,
                    row.in_playlist,
                ),
                ..*old(self)
            }),
    {
        self.checked = staged.checked(row.id.as_str(), row.in_playlist);
    }

    /// A picture has come that was asked for while the row showed the playlist with
    /// the id `expected`. It is dropped if the row shows another one by now.
    pub fn cover_loaded(&mut self, expected: &str, url: String) -> (r: bool)
        ensures
            r == (old(self).bound_id@ == expected@),
            *final(self) == (PlaylistRow {
                art: if r {
                    Some(url)
                } else {
                    old(self).art
                },
                ..*old(self)
            }),
    {
        if !str_eq(self.bound_id.as_str(), expected) {
            return false;
        }
        self.art = Some(url);
        true
    }

    /// Shows no playlist any more.
    pub fn unbind(&mut self)
        ensures
            final(self).bound_id@.len() == 0,
            *final(self) == (PlaylistRow {
                bound_id: final(self).bound_id,
                art: None,
                ..*old(self)
            }),
    {
        self.art = None;
        self.bound_id = String::new();
    }
}

// ── The sync ───────────────────────────────────────────────────────────────

/// How many saved playlists are read at a time.
pub const SYNC_PAGE: usize = 50;

/// After how many playlists the drawer is drawn again.
pub const SYNC_REBUILD_BATCH: usize = 4;

/// The width of the pictures in the drawer.
pub const ROW_ART_WIDTH: u32 = 48;

/// What the sync needs next.
#[derive(Debug, PartialEq, Eq)]
pub enum SyncStep {
    /// The saved playlists from `offset` on, `limit` of them.
    ReadSavedPlaylists { offset: usize, limit: usize },
    /// The ids of the tracks of the playlist.
    ReadTrackIds { playlist_id: String },
    /// Nothing: the sync is done.
    Finished,
}

/// What is to be done after a step of the sync.
#[derive(Debug, PartialEq, Eq)]
pub struct SyncTurn {
    pub step: SyncStep,
    /// The drawer is to be drawn again.
    pub redraw: bool,
    /// The timer is to be started after which the index is saved.
    pub start_save_timer: bool,
}

/// A sync under way.
#[derive(Debug, PartialEq, Eq)]
pub struct PlaylistSync {
    pub user_id: String,
    /// Where the next page of saved playlists starts.
    pub offset: usize,
    /// The playlists that the user owns, as far as they have been read.
    pub owned: Vec<OwnedPlaylist>,
    /// The playlist whose tracks are read now.
    pub next: usize,
    pub done_since_rebuild: usize,
}

/// A playlist as the drawer lists it.
pub open spec fn owned_playlist_of(p: PlaylistDescription) -> (
    Seq<char>,
    Seq<char>,
    Option<Seq<char>>,
    Option<Seq<char>>,
) {
    (
        p.id@,
        p.title@,
        models::best_url(p.art.deep_view(), ROW_ART_WIDTH),
        p.snapshot_id.deep_view(),
    )
}

/// The contents of a listed playlist.
pub open spec fn owned_view(p: OwnedPlaylist) -> (
    Seq<char>,
    Seq<char>,
    Option<Seq<char>>,
    Option<Seq<char>>,
) {
    (p.id@, p.title@, p.art.deep_view(), p.snapshot_id.deep_view())
}

/// The playlists that the user owns.
pub open spec fn owned_by(user_id: Seq<char>) -> spec_fn(PlaylistDescription) -> bool {
    |p: PlaylistDescription| p.owner.id@ == user_id
}

/// The playlists of a page that the user owns, as the drawer lists them.
pub open spec fn owned_of(batch: Seq<PlaylistDescription>, user_id: Seq<char>) -> Seq<
    (Seq<char>, Seq<char>, Option<Seq<char>>, Option<Seq<char>>),
> {
    batch.filter(owned_by(user_id)).map_values(|p: PlaylistDescription| owned_playlist_of(p))
}

/// The contents of the listed playlists, in order.
pub open spec fn owned_views(playlists: Seq<OwnedPlaylist>) -> Seq<
    (Seq<char>, Seq<char>, Option<Seq<char>>, Option<Seq<char>>),
> {
    playlists.map_values(|p: OwnedPlaylist| owned_view(p))
}

/// The first playlist from `from` on whose tracks are not indexed at its snapshot.
pub open spec fn next_stale(
    index: Map<Seq<char>, MembershipEntryView>,
    owned: Seq<OwnedPlaylist>,
    from: int,
) -> int
    decreases owned.len() - from,
{
    if from >= owned.len() || !membership_cache::fresh_in(
        index,
        owned[from].id@,
        owned[from].snapshot_id.deep_view(),
    ) {
        from
    } else {
        next_stale(index, owned, from + 1)
    }
}

/// Starts a sync unless one is under way or nobody is logged in. The first step
/// is to read the first saved playlists; the drawer is drawn to show that a sync
/// is under way.
pub fn start_sync(
    cache: &mut SharedMembershipCache,
    user: &Option<String>,
) -> (r: Option<(PlaylistSync, SyncStep)>)
    ensures
        match r {
            Some((sync, step)) => {
                &&& !old(cache).syncing
                &&& *user == Some(sync.user_id)
                &&& sync.offset == 0
                &&& sync.owned@.len() == 0
                &&& sync.next == 0
                &&& sync.done_since_rebuild == 0
                &&& step == (SyncStep::ReadSavedPlaylists { offset: 0, limit: SYNC_PAGE })
                &&& *final(cache) == (SharedMembershipCache { syncing: true, ..*old(cache) })
            },
            None => (old(cache).syncing || *user is None) && *final(cache) == *old(cache),
        },
{
    if cache.is_syncing() {
        return None;
    }
    match user {
        None => None,
        Some(user_id) => {
            cache.set_syncing(true);
            let sync = PlaylistSync {
                user_id: user_id.clone(),
                offset: 0,
                owned: Vec::new(),
                next: 0,
                done_since_rebuild: 0,
            };
            Some((sync, SyncStep::ReadSavedPlaylists { offset: 0, limit: SYNC_PAGE }))
        },
    }
}

/// What the sync does from playlist `from` on: it reads the tracks of the next one
/// that is not indexed; if there is none, it is done, and the index is to be
/// saved.
pub open spec fn walk_from(
    before: SharedMembershipCache,
    after: SharedMembershipCache,
    owned: Seq<OwnedPlaylist>,
    from: int,
    next: int,
    step: SyncStep,
) -> bool {
    let stale = next_stale(before.index@, owned, from);
    &&& next == stale
    &&& if stale < owned.len() {
        step == (SyncStep::ReadTrackIds { playlist_id: owned[stale].id }) && after == before
    } else {
        step == SyncStep::Finished && after == (SharedMembershipCache {
            syncing: false,
            save_pending: true,
            ..before
        })
    }
}

impl PlaylistSync {
    /// Goes on to the next playlist that is not indexed.
    fn walk(&mut self, cache: &mut SharedMembershipCache) -> (r: (SyncStep, bool))
        requires
            old(cache).wf(),
            old(self).next <= old(self).owned@.len(),
        ensures
            final(cache).wf(),
            *final(self) == (PlaylistSync { next: final(self).next, ..*old(self) }),
            final(self).next <= final(self).owned@.len(),
            walk_from(
                *old(cache),
                *final(cache),
                old(self).owned@,
                old(self).next as int,
                final(self).next as int,
                r.0,
            ),
            r.1 == (!old(cache).save_pending && final(cache).save_pending),
    {
        let ghost index = cache.index@;
        while self.next < self.owned.len() && is_indexed(&cache.index, &self.owned[self.next])
            invariant
                cache.wf(),
                *cache == *old(cache),
                index == cache.index@,
                self.next <= self.owned@.len(),
                *self == (PlaylistSync { next: self.next, ..*old(self) }),
                next_stale(index, old(self).owned@, old(self).next as int) == next_stale(
                    index,
                    self.owned@,
                    self.next as int,
                ),
            decreases self.owned.len() - self.next,
        {
            self.next = self.next + 1;
        }
        if self.next < self.owned.len() {
            (SyncStep::ReadTrackIds { playlist_id: self.owned[self.next].id.clone() }, false)
        } else {
            cache.set_syncing(false);
            let start: bool = cache.schedule_save();
            (SyncStep::Finished, start)
        }
    }

    /// Takes in a page of saved playlists. Those that the user owns are kept. A
    /// full page is followed by the next one; a short page is the last, and so is
    /// a failed one. Then the drawer gets the list and is drawn again, and the walk
    /// over the list begins.
    pub fn on_saved_playlists(
        &mut self,
        cache: &mut SharedMembershipCache,
        answer: SpotifyResult<Vec<PlaylistDescription>>,
    ) -> (r: SyncTurn)
        requires
            old(cache).wf(),
            old(self).next == 0,
            old(self).offset + SYNC_PAGE <= usize::MAX,
        ensures
            final(cache).wf(),
            final(self).user_id == old(self).user_id,
            final(self).done_since_rebuild == old(self).done_since_rebuild,
            final(self).next <= final(self).owned@.len(),
            final(self).offset == (if answer is Ok {
                old(self).offset + SYNC_PAGE
            } else {
                old(self).offset as int
            }),
            r.start_save_timer == (!old(cache).save_pending && final(cache).save_pending),
            owned_views(final(self).owned@) == owned_views(old(self).owned@) + (match answer {
                Ok(batch) => owned_of(batch@, old(self).user_id@),
                Err(_) => Seq::empty(),
            }),
            match answer {
                Ok(batch) if batch@.len() >= SYNC_PAGE => {
                    &&& final(self).next == 0
                    &&& !r.redraw
                    &&& r.step == (SyncStep::ReadSavedPlaylists {
                        offset: final(self).offset,
                        limit: SYNC_PAGE,
                    })
                    &&& *final(cache) == *old(cache)
                },
                _ => exists|list: Vec<OwnedPlaylist>|
                    #![trigger list@]
                    {
                        &&& list@ == final(self).owned@
                        &&& r.redraw
                        &&& walk_from(
                            SharedMembershipCache { owned: list, ..*old(cache) },
                            *final(cache),
                            final(self).owned@,
                            0,
                            final(self).next as int,
                            r.step,
                        )
                    },
            },
    {
        let full: bool = match answer {
            Ok(batch) => {
                let full: bool = batch.len() >= SYNC_PAGE;
                self.keep_owned(batch);
                self.offset = self.offset + SYNC_PAGE;
                full
            },
            Err(_) => {
                assert(owned_views(self.owned@) =~= owned_views(old(self).owned@) + Seq::<
                    (Seq<char>, Seq<char>, Option<Seq<char>>, Option<Seq<char>>),
                >::empty());
                false
            },
        };
        if full {
            return SyncTurn {
                step: SyncStep::ReadSavedPlaylists { offset: self.offset, limit: SYNC_PAGE },
                redraw: false,
                start_save_timer: false,
            };
        }
        let list: Vec<OwnedPlaylist> = self.owned.clone();
        assert(list@ =~= self.owned@);
        cache.set_owned_playlists(list);
        let (step, start_save_timer) = self.walk(cache);
        SyncTurn { step, redraw: true, start_save_timer }
    }

    /// Keeps the playlists of a page that the user owns.
    fn keep_owned(&mut self, batch: Vec<PlaylistDescription>)
        ensures
            *final(self) == (PlaylistSync { owned: final(self).owned, ..*old(self) }),
            owned_views(final(self).owned@) == owned_views(old(self).owned@) + owned_of(
                batch@,
                old(self).user_id@,
            ),
    {
        let ghost whole = batch@;
        let ghost user = self.user_id@;
        let ghost own = owned_by(user);
        let ghost view = |p: PlaylistDescription| owned_playlist_of(p);
        let ghost start = owned_views(self.owned@);
        proof {
            reveal(Seq::filter);
            assert(start =~= start + whole.take(0).filter(own).map_values(view));
        }
        for p in it: batch.into_iter()
            invariant
                it.seq() == whole,
                user == self.user_id@,
                own == owned_by(user),
                view == (|p: PlaylistDescription| owned_playlist_of(p)),
                *self == (PlaylistSync { owned: self.owned, ..*old(self) }),
                owned_views(self.owned@) == start + whole.take(it.index()).filter(own).map_values(
                    view,
                ),
        {
            let ghost before = self.owned@;
            let ghost this = p;
            let ghost kept = whole.take(it.index()).filter(own);
            proof {
                lists::lemma_filter_take_push(whole, own, it.index());
                assert(whole[it.index()] == this);
            }
            if str_eq(p.owner.id.as_str(), self.user_id.as_str()) {
                let art: Option<String> = art_url(&p.art, ROW_ART_WIDTH);
                let one = OwnedPlaylist { id: p.id, title: p.title, art, snapshot_id: p.snapshot_id };
                self.owned.push(one);
                proof {
                    assert(owned_views(self.owned@) =~= owned_views(before).push(view(this)));
                    assert(kept.push(this).map_values(view) =~= kept.map_values(view).push(
                        view(this),
                    ));
                    assert((start + kept.map_values(view)).push(view(this)) =~= start
                        + kept.map_values(view).push(view(this)));
                }
            }
        }
        proof {
            lists::lemma_take_all(whole);
        }
    }

    /// Takes in the track ids of the playlist that was being read, and goes on to
    /// the next. A playlist that could not be read is passed over. The drawer is
    /// drawn again every few playlists and at the end.
    pub fn on_track_ids(
        &mut self,
        cache: &mut SharedMembershipCache,
        answer: SpotifyResult<Vec<String>>,
    ) -> (r: SyncTurn)
        requires
            old(cache).wf(),
            old(self).next < old(self).owned@.len(),
            old(self).done_since_rebuild < SYNC_REBUILD_BATCH,
        ensures
            final(cache).wf(),
            final(self).user_id == old(self).user_id,
            final(self).offset == old(self).offset,
            final(self).owned == old(self).owned,
            final(self).next <= final(self).owned@.len(),
            final(self).done_since_rebuild < SYNC_REBUILD_BATCH,
            r.redraw == (r.step is Finished || (answer is Ok && old(self).done_since_rebuild + 1
                == SYNC_REBUILD_BATCH)),
            r.start_save_timer == (!old(cache).save_pending && final(cache).save_pending),
            final(self).done_since_rebuild == (if answer is Err {
                old(self).done_since_rebuild as int
            } else {
                (old(self).done_since_rebuild + 1) % (SYNC_REBUILD_BATCH as int)
            }),
            exists|middle: SharedMembershipCache|
                {
                    &&& #[trigger] indexed(
                        *old(cache),
                        middle,
                        old(self).owned@[old(self).next as int],
                        answer,
                    )
                    &&& walk_from(
                        middle,
                        *final(cache),
                        old(self).owned@,
                        old(self).next + 1,
                        final(self).next as int,
                        r.step,
                    )
                },
    {
        let mut rebuild: bool = false;
        let mut started: bool = false;
        assert(self.next < self.owned.len());
        match answer {
            Ok(ids) => {
                let current = self.owned[self.next].clone();
                let snapshot: String = match current.snapshot_id {
                    Some(snapshot) => snapshot,
                    None => String::new(),
                };
                let tracks = IdSet::from_list(&ids);
                cache.index.insert(current.id, snapshot, tracks);
                started = cache.schedule_save();
                self.done_since_rebuild = self.done_since_rebuild + 1;
                if self.done_since_rebuild >= SYNC_REBUILD_BATCH {
                    self.done_since_rebuild = 0;
                    rebuild = true;
                }
            },
            Err(_) => {},
        }
        self.next = self.next + 1;
        let ghost middle = *cache;
        assert(indexed(*old(cache), middle, old(self).owned@[old(self).next as int], answer));
        let (step, start) = self.walk(cache);
        let finished: bool = matches!(step, SyncStep::Finished);
        SyncTurn { step, redraw: rebuild || finished, start_save_timer: started || start }
    }
}

/// The playlist is indexed at its snapshot.
fn is_indexed(index: &MembershipIndex, playlist: &OwnedPlaylist) -> (r: bool)
    requires
        index.wf(),
    ensures
        r == membership_cache::fresh_in(
            index@,
            playlist.id@,
            playlist.snapshot_id.deep_view(),
        ),
{
    match &playlist.snapshot_id {
        Some(snapshot) => index.is_fresh(playlist.id.as_str(), Some(snapshot.as_str())),
        None => index.is_fresh(playlist.id.as_str(), None),
    }
}

/// What reading the tracks of a playlist does to the cache: they are indexed at
/// the playlist's snapshot (or under no snapshot, for this session), and the index
/// is to be saved. A failed read does nothing.
pub open spec fn indexed(
    before: SharedMembershipCache,
    after: SharedMembershipCache,
    playlist: OwnedPlaylist,
    answer: SpotifyResult<Vec<String>>,
) -> bool {
    match answer {
        Err(_) => after == before,
        Ok(ids) => {
            &&& after.index@ == before.index@.insert(
                playlist.id@,
                MembershipEntryView {
                    snapshot_id: match playlist.snapshot_id.deep_view() {
                        Some(snapshot) => snapshot,
                        None => Seq::empty(),
                    },
                    track_ids: ids.deep_view().to_set(),
                },
            )
            &&& after.owned == before.owned
            &&& after.syncing == before.syncing
            &&& after.save_pending
        },
    }
}

proof fn lemma_next_stale(
    index: Map<Seq<char>, MembershipEntryView>,
    owned: Seq<OwnedPlaylist>,
    from: int,
)
    requires
        0 <= from <= owned.len(),
    ensures
        from <= next_stale(index, owned, from) <= owned.len(),
        forall|i: int|
            from <= i < next_stale(index, owned, from) ==> membership_cache::fresh_in(
                index,
                (#[trigger] owned[i]).id@,
                owned[i].snapshot_id.deep_view(),
            ),
        next_stale(index, owned, from) < owned.len() ==> !membership_cache::fresh_in(
            index,
            owned[next_stale(index, owned, from)].id@,
            owned[next_stale(index, owned, from)].snapshot_id.deep_view(),
        ),
    decreases owned.len() - from,
{
    if from < owned.len() && membership_cache::fresh_in(
        index,
        owned[from].id@,
        owned[from].snapshot_id.deep_view(),
    ) {
        lemma_next_stale(index, owned, from + 1);
    }
}

/// The sync reads the tracks only of playlists that are not indexed at their
/// snapshot, passes over only those that are, and never goes back; when it is
/// done, no sync is under way.
pub proof fn law_sync_reads_what_is_stale(
    before: SharedMembershipCache,
    after: SharedMembershipCache,
    owned: Seq<OwnedPlaylist>,
    from: int,
    next: int,
    step: SyncStep,
)
    requires
        0 <= from <= owned.len(),
        walk_from(before, after, owned, from, next, step),
    ensures
        from <= next <= owned.len(),
        forall|i: int|
            from <= i < next ==> membership_cache::fresh_in(
                before.index@,
                (#[trigger] owned[i]).id@,
                owned[i].snapshot_id.deep_view(),
            ),
        step is ReadTrackIds ==> next < owned.len() && !membership_cache::fresh_in(
            before.index@,
            owned[next].id@,
            owned[next].snapshot_id.deep_view(),
        ),
        step is Finished <==> !(step is ReadTrackIds),
        step is Finished ==> !after.syncing && after.save_pending,
{
    lemma_next_stale(before.index@, owned, from);
}

/// A playlist with a snapshot id whose tracks have been read is not read again
/// until its snapshot changes.
pub proof fn law_synced_playlist_is_fresh(
    before: SharedMembershipCache,
    after: SharedMembershipCache,
    playlist: OwnedPlaylist,
    answer: SpotifyResult<Vec<String>>,
)
    requires
        indexed(before, after, playlist, answer),
        answer is Ok,
        playlist.snapshot_id is Some,
    ensures
        membership_cache::fresh_in(
            after.index@,
            playlist.id@,
            playlist.snapshot_id.deep_view(),
        ),
{
}

// ── Events ─────────────────────────────────────────────────────────────────

/// What an event asks of the drawer.
#[derive(Clone, Copy, Debug, PartialEq, Eq, Structural)]
pub enum DrawerTask {
    /// Open the drawer for the song of the event.
    Open,
    /// Start a sync, if none is under way.
    Sync,
    Nothing,
}

/// What an event asks of the drawer: opening it, or a sync once the user's
/// playlists are known and whenever they change.
pub fn drawer_task(event: &AppEvent) -> (r: DrawerTask)
    ensures
        r == (match event {
            AppEvent::AddToPlaylistShown(_) => DrawerTask::Open,
            AppEvent::LoginEvent(LoginEvent::UserPlaylistsLoaded) => DrawerTask::Sync,
            AppEvent::BrowserEvent(BrowserEvent::SavedPlaylistsUpdated) => DrawerTask::Sync,
            _ => DrawerTask::Nothing,
        }),
{
    match event {
        AppEvent::AddToPlaylistShown(_) => DrawerTask::Open,
        AppEvent::LoginEvent(LoginEvent::UserPlaylistsLoaded) => DrawerTask::Sync,
        AppEvent::BrowserEvent(BrowserEvent::SavedPlaylistsUpdated) => DrawerTask::Sync,
        _ => DrawerTask::Nothing,
    }
}

// ── Laws ───────────────────────────────────────────────────────────────────

/// A row shows its playlist, checked from the start if the index lists the song there.
pub proof fn law_row_shows_its_playlist(
    playlist: OwnedPlaylist,
    index: Map<Seq<char>, MembershipEntryView>,
    song_id: Seq<char>,
)
    ensures
        row_of(playlist, index, song_id).id == playlist.id,
        row_of(playlist, index, song_id).title == playlist.title,
        row_of(playlist, index, song_id).art == playlist.art,
        row_of(playlist, index, song_id).snapshot_id == playlist.snapshot_id,
        row_of(playlist, index, song_id).in_playlist <==> index.contains_key(playlist.id@)
            && index[playlist.id@].track_ids.contains(song_id),
{
}

/// A row is listed for any part of its title, in whatever case; without anything typed
/// all are.
pub proof fn law_rows_are_found_by_parts_of_their_title(
    title: Seq<char>,
    typed: Seq<char>,
    front: Seq<char>,
    back: Seq<char>,
)
    ensures
        text::lowercase(typed).len() == 0 ==> row_matches(title, typed),
        text::lowercase(title) == front + text::lowercase(typed) + back ==> row_matches(
            title,
            typed,
        ),
        row_matches(title, typed) && text::lowercase(typed).len() > 0 ==> exists|i: int|
            0 <= i <= text::lowercase(title).len() - text::lowercase(typed).len()
                && #[trigger] text::lowercase(title).subrange(
                i,
                i + text::lowercase(typed).len(),
            ) == text::lowercase(typed),
{
    let t = text::lowercase(title);
    let n = text::lowercase(typed);
    if t == front + n + back {
        assert(t.subrange(front.len() as int, front.len() as int + n.len()) =~= n);
        assert(text::occurs_at(t, n, front.len() as int));
    }
}

/// Rows are ordered by their titles in lower case, or left as they are.
pub proof fn law_rows_are_ordered_by_title(a: PlaylistRowModelView, b: PlaylistRowModelView)
    ensures
        row_order(SortMode::Default, a, b) == Order::Equal,
        row_order(SortMode::Alphabetical, a, b) == text::text_order(
            text::lowercase(a.title),
            text::lowercase(b.title),
        ),
{
}

/// What is staged counts; where nothing is, what the playlist holds.
pub proof fn law_box_shows_what_is_staged(
    adds: Set<Seq<char>>,
    removes: Set<Seq<char>>,
    id: Seq<char>,
    in_playlist: bool,
)
    ensures
        adds.contains(id) ==> is_checked(adds, removes, id, in_playlist),
        removes.contains(id) && !adds.contains(id) ==> !is_checked(
            adds,
            removes,
            id,
            in_playlist,
        ),
        !adds.contains(id) && !removes.contains(id) ==> is_checked(adds, removes, id, in_playlist)
            == in_playlist,
{
}

/// Checking a box stages an addition only where the song is not yet, and unchecking one
/// a removal only where it is.
pub proof fn law_boxes_stage_what_changes(
    adds: Set<Seq<char>>,
    removes: Set<Seq<char>>,
    id: Seq<char>,
)
    ensures
        adds_after(adds, id, true, false).contains(id),
        adds_after(adds, id, true, true) == adds,
        !adds_after(adds, id, false, false).contains(id),
        !adds_after(adds, id, false, true).contains(id),
        removes_after(removes, id, false, true).contains(id),
        removes_after(removes, id, false, false) == removes,
        !removes_after(removes, id, true, false).contains(id),
        !removes_after(removes, id, true, true).contains(id),
{
}

/// Saving puts the track into, or takes it out of, the playlist with the id.
pub proof fn law_calls_name_playlist_and_track(id: Seq<char>, uri: Seq<char>)
    ensures
        add_call(id, uri) == (ApiCallView::AddToPlaylist { id, uris: seq![uri] }),
        remove_call(id, uri) == (ApiCallView::RemoveFromPlaylist { id, uris: seq![uri] }),
{
}

/// Saving adds the song to every playlist that it was staged for and that does not hold
/// it, and to no other.
pub proof fn law_staged_additions_are_saved(
    adds: Seq<Seq<char>>,
    index: Map<Seq<char>, MembershipEntryView>,
    song_id: Seq<char>,
    id: Seq<char>,
)
    ensures
        adds_to_save(adds, index, song_id).contains(id) <==> adds.contains(id) && !(
        index.contains_key(id) && index[id].track_ids.contains(song_id)),
{
    lists::lemma_filter_set(
        adds,
        |k: Seq<char>| !membership_cache::listed_in(index, k, song_id),
    );
}

/// The drawer lists exactly the playlists of a page whose owner is the user, each with
/// its id, its title, its picture and its snapshot.
pub proof fn law_own_playlists_are_listed(
    batch: Seq<PlaylistDescription>,
    user_id: Seq<char>,
    p: PlaylistDescription,
    k: int,
)
    ensures
        batch.contains(p) && p.owner.id@ == user_id ==> owned_of(batch, user_id).contains(
            (
                p.id@,
                p.title@,
                models::best_url(p.art.deep_view(), 48),
                p.snapshot_id.deep_view(),
            ),
        ),
        0 <= k < owned_of(batch, user_id).len() ==> exists|q: PlaylistDescription|
            #![trigger owned_playlist_of(q)]
            batch.contains(q) && q.owner.id@ == user_id && owned_playlist_of(q) == owned_of(
                batch,
                user_id,
            )[k],
{
    let kept = batch.filter(owned_by(user_id));
    let view = |q: PlaylistDescription| owned_playlist_of(q);
    lists::lemma_filter_set(batch, owned_by(user_id));
    if batch.contains(p) && p.owner.id@ == user_id {
        assert(kept.contains(p));
        let i = choose|i: int| 0 <= i < kept.len() && kept[i] == p;
        assert(kept.map_values(view)[i] == owned_playlist_of(p));
    }
    if 0 <= k < owned_of(batch, user_id).len() {
        let q = kept[k];
        assert(kept.contains(q));
        assert(owned_playlist_of(q) == owned_of(batch, user_id)[k]);
    }
}

/// What is listed of a playlist is its id, its title, its picture and its snapshot.
pub proof fn law_listed_playlist_has_its_parts(p: OwnedPlaylist, playlists: Seq<OwnedPlaylist>, k: int)
    requires
        0 <= k < playlists.len(),
    ensures
        owned_view(p) == (p.id@, p.title@, p.art.deep_view(), p.snapshot_id.deep_view()),
        owned_views(playlists)[k] == owned_view(playlists[k]),
        owned_views(playlists).len() == playlists.len(),
        owned_ids(playlists)[k] == playlists[k].id@,
        owned_ids(playlists).len() == playlists.len(),
{
}

/// The sync reads the tracks of the first playlist that is not indexed, by its id.
pub proof fn law_sync_reads_by_the_id(
    before: SharedMembershipCache,
    after: SharedMembershipCache,
    owned: Seq<OwnedPlaylist>,
    from: int,
    next: int,
    step: SyncStep,
)
    requires
        0 <= from <= owned.len(),
        walk_from(before, after, owned, from, next, step),
    ensures
        next < owned.len() ==> step == (SyncStep::ReadTrackIds { playlist_id: owned[next].id })
            && after == before,
        next == owned.len() ==> step is Finished && after.index == before.index && after.owned
            == before.owned,
{
    lemma_next_stale(before.index@, owned, from);
}

/// What was read of a playlist is indexed under its id and its snapshot; nothing else in
/// the index changes, and a failed read changes nothing at all.
pub proof fn law_read_tracks_are_indexed(
    before: SharedMembershipCache,
    after: SharedMembershipCache,
    playlist: OwnedPlaylist,
    answer: SpotifyResult<Vec<String>>,
    track_id: Seq<char>,
    other: Seq<char>,
)
    requires
        indexed(before, after, playlist, answer),
    ensures
        answer is Err ==> after == before,
        answer matches Ok(ids) ==> {
            &&& after.index@.contains_key(playlist.id@)
            &&& (after.index@[playlist.id@].track_ids.contains(track_id)
                <==> ids.deep_view().contains(track_id))
            &&& (playlist.snapshot_id matches Some(snapshot)
                ==> after.index@[playlist.id@].snapshot_id == snapshot@)
            &&& (playlist.snapshot_id is None ==> after.index@[playlist.id@].snapshot_id.len()
                == 0)
            &&& after.save_pending
            &&& after.owned == before.owned
            &&& after.syncing == before.syncing
            &&& (other != playlist.id@ ==> after.index@.contains_key(other)
                == before.index@.contains_key(other))
        },
{
}

/// Playlists are read fifty at a time, and the drawer is redrawn for every four that
/// were indexed.
pub proof fn law_sync_goes_in_steps()
    ensures
        SYNC_PAGE == 50,
        SYNC_REBUILD_BATCH == 4,
        ROW_ART_WIDTH == 48,
{
}

/// The view of a `PlaylistRowModel` holds its parts, each under its own name.
pub proof fn law_view_of_playlist_row_model(value: PlaylistRowModel)
    ensures
        value.deep_view().id == value.id@,
        value.deep_view().title == value.title@,
        value.deep_view().art == value.art.deep_view(),
        value.deep_view().snapshot_id == value.snapshot_id.deep_view(),
        value.deep_view().in_playlist == value.in_playlist,
{
}

} // verus!

//! The library: the playlists, albums and artists that the user saved.

use vstd::prelude::*;

use crate::actions::{
    ActionDispatcher, ApiCall, ApiCallView, AppAction, AppActionView, AppEvent, BrowserAction,
    BrowserActionView, BrowserEvent, EffectView, LoginEvent, PaginationTarget,
    PaginationTargetView, ScreenName, ScreenNameView,
};
use crate::api::cached_client::SpotifyResult;
use crate::card_enums::{CardLayout, SortOrder};
use crate::card_model::{CardKind, CardModel, CardModelView, LibraryItem, LibraryItemView};
use crate::card_model;
use crate::lists;
use crate::models::{AlbumDescription, ArtistSummary, PlaylistDescription};
use crate::pages::details_page;
use crate::pages::library_list;
use crate::pages::library_list::LibraryList;
use crate::pages::pinned_store::PinnedStore;
use crate::sorting;
use crate::state::{find, AppModel, HomeState};
use crate::state;
use crate::text;
use crate::text::{gettext, starts_with, str_eq};

verus! {

/// The id of the card that stands for the liked songs.
pub const LIKED_SONGS_ID: &'static str = "__riff_liked_songs__";

/// How many followed artists are read at a time.
pub const ARTISTS_PAGE: usize = 30;

/// What part of the library is shown.
#[derive(Clone, Copy, Debug, PartialEq, Eq, Structural)]
pub enum LibraryFilter {
    All,
    Playlists,
    Albums,
    Artists,
}

impl LibraryFilter {
    /// The message id of the label of the filter; there is none for all.
    pub open spec fn spec_msgid(self) -> Option<Seq<char>> {
        match self {
            LibraryFilter::All => None,
            LibraryFilter::Playlists => Some("Playlists"@),
            LibraryFilter::Albums => Some("Albums"@),
            LibraryFilter::Artists => Some("Artists"@),
        }
    }

    /// The label of the filter in the user's language.
    pub fn label(self) -> (r: Option<String>)
        ensures
            match (r, self.spec_msgid()) {
                (Some(label), Some(message)) => text::translates(label@, message),
                (None, None) => true,
                _ => false,
            },
    {
        proof {
            reveal_strlit("Playlists");
            reveal_strlit("Albums");
            reveal_strlit("Artists");
        }
        match self {
            LibraryFilter::All => None,
            LibraryFilter::Playlists => Some(gettext("Playlists")),
            LibraryFilter::Albums => Some(gettext("Albums")),
            LibraryFilter::Artists => Some(gettext("Artists")),
        }
    }
}

/// The data and the wishes of the library.
#[derive(Debug, PartialEq, Eq)]
pub struct LibraryModel {
    pub app_model: AppModel,
    pub dispatcher: ActionDispatcher,
    pub filter: LibraryFilter,
    /// The cards of all kinds together.
    pub combined: Vec<CardModel>,
}

/// All saved items, the playlists first and the artists last.
pub open spec fn saved_cards(home: HomeState) -> Seq<CardModelView> {
    home.playlists.deep_view() + home.albums.deep_view() + home.artists.deep_view()
}

/// The ids of the cards.
pub open spec fn card_ids(cards: Seq<CardModelView>) -> Set<Seq<char>> {
    cards.map_values(|c: CardModelView| c.id).to_set()
}

/// The cards whose id is not among the given ones.
pub open spec fn not_among(ids: Set<Seq<char>>) -> spec_fn(CardModelView) -> bool {
    |c: CardModelView| !ids.contains(c.id)
}

/// The combined cards after new items were taken in: those whose id was not there
/// are added at the end, the card of the liked songs before all others.
pub open spec fn reconciled(
    combined: Seq<CardModelView>,
    saved: Seq<CardModelView>,
    liked: CardModelView,
) -> Seq<CardModelView> {
    let ids = card_ids(combined);
    let with_liked = if ids.contains(LIKED_SONGS_ID@) {
        combined
    } else {
        combined.push(liked)
    };
    with_liked + saved.filter(not_among(ids))
}

/// The card that stands for the liked songs, with the given title.
pub open spec fn liked_card(title: Seq<char>) -> CardModelView {
    CardModelView {
        kind: CardKind::Playlist,
        ..card_model::new_card(LIKED_SONGS_ID@, None, title, Seq::empty(), None, None, None)
    }
}

/// The item with the given id, wherever it is saved.
pub open spec fn saved_card(home: Option<HomeState>, id: Seq<char>) -> Option<CardModel> {
    match home {
        None => None,
        Some(home) => match state::found(home.playlists@, id) {
            Some(card) => Some(card),
            None => match state::found(home.albums@, id) {
                Some(card) => Some(card),
                None => state::found(home.artists@, id),
            },
        },
    }
}

/// What opens the item with the given id.
pub open spec fn open_action(home: Option<HomeState>, id: Seq<char>) -> AppActionView {
    if id == LIKED_SONGS_ID@ {
        AppActionView::BrowserAction(
            BrowserActionView::NavigationPush(ScreenNameView::SavedTracks),
        )
    } else {
        match saved_card(home, id) {
            Some(card) if card.kind == CardKind::Album => AppActionView::ViewAlbum(id),
            Some(card) if card.kind == CardKind::Artist => AppActionView::ViewArtist(id),
            _ => AppActionView::ViewPlaylist(id),
        }
    }
}

/// What fetches the next playlists.
pub open spec fn more_playlists(home: Option<HomeState>) -> Seq<EffectView> {
    match home {
        Some(home) => match home.next_playlists_page.next_offset {
            Some(offset) => details_page::page_effects(
                PaginationTargetView::SavedPlaylists,
                ApiCallView::GetSavedPlaylists {
                    offset,
                    limit: home.next_playlists_page.batch_size,
                },
            ),
            None => Seq::empty(),
        },
        None => Seq::empty(),
    }
}

/// What fetches the next albums.
pub open spec fn more_albums(home: Option<HomeState>) -> Seq<EffectView> {
    match home {
        Some(home) => match home.next_albums_page.next_offset {
            Some(offset) => details_page::page_effects(
                PaginationTargetView::SavedAlbums,
                ApiCallView::GetSavedAlbums { offset, limit: home.next_albums_page.batch_size },
            ),
            None => Seq::empty(),
        },
        None => Seq::empty(),
    }
}

/// What fetches the next artists.
pub open spec fn more_artists(home: Option<HomeState>) -> Seq<EffectView> {
    match home {
        Some(home) => match home.artists_cursor {
            Some(cursor) if cursor@.len() > 0 => details_page::page_effects(
                PaginationTargetView::SavedArtists,
                ApiCallView::GetFollowedArtists { after: Some(cursor@), limit: ARTISTS_PAGE },
            ),
            _ => Seq::empty(),
        },
        None => Seq::empty(),
    }
}

/// What fetches more of the part that is shown. Where all is shown, playlists come
/// before albums and albums before artists.
pub open spec fn more_effects(filter: LibraryFilter, home: Option<HomeState>) -> Seq<EffectView> {
    match filter {
        LibraryFilter::All => if more_playlists(home).len() > 0 {
            more_playlists(home)
        } else if more_albums(home).len() > 0 {
            more_albums(home)
        } else {
            more_artists(home)
        },
        LibraryFilter::Playlists => more_playlists(home),
        LibraryFilter::Albums => more_albums(home),
        LibraryFilter::Artists => more_artists(home),
    }
}

/// What reads the library from its start.
pub open spec fn refresh_effects(home: Option<HomeState>) -> Seq<EffectView> {
    match home {
        Some(home) => seq![
            EffectView::Call(
                ApiCallView::GetSavedAlbums {
                    offset: 0,
                    limit: home.next_albums_page.batch_size,
                },
            ),
            EffectView::Call(
                ApiCallView::GetSavedPlaylists {
                    offset: 0,
                    limit: home.next_playlists_page.batch_size,
                },
            ),
            EffectView::Call(
                ApiCallView::GetFollowedArtists { after: None, limit: ARTISTS_PAGE },
            ),
        ],
        None => Seq::empty(),
    }
}

/// Appends the cards of a list whose id is not among the given ones.
fn append_new(out: &mut Vec<CardModel>, cards: &Vec<CardModel>, known: &Vec<CardModel>)
    ensures
        final(out).deep_view() == old(out).deep_view() + cards.deep_view().filter(
            not_among(card_ids(known.deep_view())),
        ),
{
    let ghost all = cards.deep_view();
    let ghost new = not_among(card_ids(known.deep_view()));
    let ghost start = out.deep_view();
    let mut i: usize = 0;
    proof {
        reveal(Seq::filter);
        assert(out.deep_view() =~= start + all.take(0).filter(new));
    }
    while i < cards.len()
        invariant
            i <= cards.len(),
            all == cards.deep_view(),
            new == not_among(card_ids(known.deep_view())),
            out.deep_view() == start + all.take(i as int).filter(new),
        decreases cards.len() - i,
    {
        proof {
            lists::lemma_filter_take_push(all, new, i as int);
        }
        if !has_card(known, cards[i].id.as_str()) {
            let ghost before = *out;
            let card = cards[i].clone();
            out.push(card);
            proof {
                lists::lemma_deep_push(before, *out, card);
                assert((start + all.take(i as int).filter(new)).push(all[i as int]) =~= start
                    + all.take(i as int).filter(new).push(all[i as int]));
            }
        }
        i += 1;
    }
    proof {
        lists::lemma_take_all(all);
    }
}

/// Whether a card with the id is in the list.
pub fn has_card(cards: &Vec<CardModel>, id: &str) -> (r: bool)
    ensures
        r == card_ids(cards.deep_view()).contains(id@),
{
    let ghost ids = cards.deep_view().map_values(|c: CardModelView| c.id);
    let mut i: usize = 0;
    while i < cards.len()
        invariant
            i <= cards.len(),
            ids == cards.deep_view().map_values(|c: CardModelView| c.id),
            forall|j: int| 0 <= j < i ==> ids[j] != id@,
        decreases cards.len() - i,
    {
        assert(ids[i as int] == cards@[i as int].id@);
        if str_eq(cards[i].id.as_str(), id) {
            assert(ids.contains(id@));
            return true;
        }
        i += 1;
    }
    false
}

impl LibraryModel {
    /// The whole library.
    pub fn new(app_model: AppModel, dispatcher: ActionDispatcher) -> (r: Self)
        ensures
            r.app_model == app_model,
            r.dispatcher == dispatcher,
            r.filter == LibraryFilter::All,
            r.combined@.len() == 0,
    {
        LibraryModel { app_model, dispatcher, filter: LibraryFilter::All, combined: Vec::new() }
    }

    /// The state of the library.
    pub open spec fn home(self) -> Option<HomeState> {
        self.app_model.state.browser.home
    }

    /// Only the wishes changed: these were added.
    pub open spec fn wants(self, before: Self, added: Seq<EffectView>) -> bool {
        &&& self.app_model == before.app_model
        &&& self.filter == before.filter
        &&& self.combined == before.combined
        &&& self.dispatcher@ == before.dispatcher@ + added
    }

    /// What part is shown.
    pub fn filter(&self) -> (r: LibraryFilter)
        ensures
            r == self.filter,
    {
        self.filter
    }

    /// Changes what part is shown.
    pub fn set_filter(&mut self, filter: LibraryFilter)
        ensures
            *final(self) == (LibraryModel { filter, ..*old(self) }),
    {
        self.filter = filter;
    }

    fn state(&self) -> (r: Option<&HomeState>)
        ensures
            match (r, self.home()) {
                (Some(a), Some(b)) => *a == b,
                (None, None) => true,
                _ => false,
            },
    {
        self.app_model.state.browser.home.as_ref()
    }

    /// Wants the first albums, playlists and artists read.
    pub fn refresh_all(&mut self)
        ensures
            final(self).wants(*old(self), refresh_effects(old(self).home())),
    {
        let (albums, playlists): (usize, usize) = match self.state() {
            Some(home) => (home.next_albums_page.batch_size, home.next_playlists_page.batch_size),
            None => {
                assert(self.dispatcher@ =~= old(self).dispatcher@ + Seq::<EffectView>::empty());
                return;
            },
        };
        self.dispatcher.call(ApiCall::GetSavedAlbums { offset: 0, limit: albums });
        self.dispatcher.call(ApiCall::GetSavedPlaylists { offset: 0, limit: playlists });
        self.dispatcher.call(ApiCall::GetFollowedArtists { after: None, limit: ARTISTS_PAGE });
        assert(self.dispatcher@ =~= old(self).dispatcher@ + refresh_effects(old(self).home()));
    }

    /// Whether there are albums that have not been asked for.
    pub fn has_more_albums(&self) -> (r: bool)
        ensures
            r == (more_albums(self.home()).len() > 0),
    {
        match self.state() {
            Some(home) => home.next_albums_page.next_offset.is_some(),
            None => false,
        }
    }

    /// Whether there are playlists that have not been asked for.
    pub fn has_more_playlists(&self) -> (r: bool)
        ensures
            r == (more_playlists(self.home()).len() > 0),
    {
        match self.state() {
            Some(home) => home.next_playlists_page.next_offset.is_some(),
            None => false,
        }
    }

    /// Whether there are artists that have not been asked for.
    pub fn has_more_artists(&self) -> (r: bool)
        ensures
            r == (more_artists(self.home()).len() > 0),
    {
        match self.state() {
            Some(home) => match &home.artists_cursor {
                Some(cursor) => !cursor.as_str().is_empty(),
                None => false,
            },
            None => false,
        }
    }

    /// Wants the next albums, if there are any.
    pub fn load_more_albums(&mut self)
        ensures
            final(self).wants(*old(self), more_albums(old(self).home())),
    {
        let next: Option<(usize, usize)> = match self.state() {
            Some(home) => match home.next_albums_page.next_offset {
                Some(offset) => Some((offset, home.next_albums_page.batch_size)),
                None => None,
            },
            None => None,
        };
        if let Some((offset, limit)) = next {
            self.dispatcher.update_state(
                BrowserAction::ConsumeNextPage(PaginationTarget::SavedAlbums),
            );
            self.dispatcher.call(ApiCall::GetSavedAlbums { offset, limit });
        }
        assert(self.dispatcher@ =~= old(self).dispatcher@ + more_albums(old(self).home()));
    }

    /// Wants the next playlists, if there are any.
    pub fn load_more_playlists(&mut self)
        ensures
            final(self).wants(*old(self), more_playlists(old(self).home())),
    {
        let next: Option<(usize, usize)> = match self.state() {
            Some(home) => match home.next_playlists_page.next_offset {
                Some(offset) => Some((offset, home.next_playlists_page.batch_size)),
                None => None,
            },
            None => None,
        };
        if let Some((offset, limit)) = next {
            self.dispatcher.update_state(
                BrowserAction::ConsumeNextPage(PaginationTarget::SavedPlaylists),
            );
            self.dispatcher.call(ApiCall::GetSavedPlaylists { offset, limit });
        }
        assert(self.dispatcher@ =~= old(self).dispatcher@ + more_playlists(old(self).home()));
    }

    /// Wants the next artists, if there are any.
    pub fn load_more_artists(&mut self)
        ensures
            final(self).wants(*old(self), more_artists(old(self).home())),
    {
        let next: Option<String> = match self.state() {
            Some(home) => match &home.artists_cursor {
                Some(cursor) => if cursor.as_str().is_empty() {
                    None
                } else {
                    Some(cursor.clone())
                },
                None => None,
            },
            None => None,
        };
        if let Some(cursor) = next {
            let call = ApiCall::GetFollowedArtists { after: Some(cursor), limit: ARTISTS_PAGE };
            self.dispatcher.update_state(
                BrowserAction::ConsumeNextPage(PaginationTarget::SavedArtists),
            );
            self.dispatcher.call(call);
        }
        assert(self.dispatcher@ =~= old(self).dispatcher@ + more_artists(old(self).home()));
    }

    /// Whether there is more of the part that is shown.
    pub fn has_more(&self) -> (r: bool)
        ensures
            r == (more_effects(self.filter, self.home()).len() > 0),
    {
        match self.filter {
            LibraryFilter::All => self.has_more_albums() || self.has_more_playlists()
                || self.has_more_artists(),
            LibraryFilter::Playlists => self.has_more_playlists(),
            LibraryFilter::Albums => self.has_more_albums(),
            LibraryFilter::Artists => self.has_more_artists(),
        }
    }

    /// Wants more of the part that is shown, one kind at a time.
    pub fn load_more(&mut self)
        ensures
            final(self).wants(*old(self), more_effects(old(self).filter, old(self).home())),
    {
        match self.filter {
            LibraryFilter::All => {
                if self.has_more_playlists() {
                    self.load_more_playlists();
                } else if self.has_more_albums() {
                    self.load_more_albums();
                } else {
                    self.load_more_artists();
                }
            },
            LibraryFilter::Playlists => self.load_more_playlists(),
            LibraryFilter::Albums => self.load_more_albums(),
            LibraryFilter::Artists => self.load_more_artists(),
        }
    }

    /// Takes new items into the combined cards. `liked` stands for the liked
    /// songs.
    pub fn reconcile_with(&mut self, liked: CardModel)
        ensures
            *final(self) == (LibraryModel { combined: final(self).combined, ..*old(self) }),
            final(self).combined.deep_view() == (match old(self).home() {
                Some(home) => reconciled(
                    old(self).combined.deep_view(),
                    saved_cards(home),
                    liked.deep_view(),
                ),
                None => old(self).combined.deep_view(),
            }),
    {
        let mut grown: Vec<CardModel> = self.combined.clone();
        match self.state() {
            Some(home) => {
                let ghost ids = card_ids(self.combined.deep_view());
                let ghost new = not_among(ids);
                if !has_card(&self.combined, LIKED_SONGS_ID) {
                    let ghost before = grown;
                    grown.push(liked);
                    proof {
                        lists::lemma_deep_push(before, grown, liked);
                    }
                }
                let ghost start = grown.deep_view();
                append_new(&mut grown, &home.playlists, &self.combined);
                append_new(&mut grown, &home.albums, &self.combined);
                append_new(&mut grown, &home.artists, &self.combined);
                proof {
                    let p = home.playlists.deep_view();
                    let a = home.albums.deep_view();
                    let t = home.artists.deep_view();
                    lists::lemma_filter_concat(p, a, new);
                    lists::lemma_filter_concat(p + a, t, new);
                    assert(start + p.filter(new) + a.filter(new) + t.filter(new) =~= start + (
                    p.filter(new) + a.filter(new) + t.filter(new)));
                }
            },
            None => {},
        }
        self.combined = grown;
    }

    /// Takes new items into the combined cards.
    pub fn reconcile_combined(&mut self)
        ensures
            *final(self) == (LibraryModel { combined: final(self).combined, ..*old(self) }),
            match old(self).home() {
                Some(home) => exists|title: Seq<char>|
                    is_liked_title(title) && final(self).combined.deep_view() == reconciled(
                        old(self).combined.deep_view(),
                        saved_cards(home),
                        #[trigger] liked_card(title),
                    ),
                None => final(self).combined.deep_view() == old(self).combined.deep_view(),
            },
    {
        let liked = liked_songs_card();
        assert(liked.deep_view() == liked_card(liked.title@));
        self.reconcile_with(liked);
    }

    /// Empties the combined cards.
    pub fn clear_combined(&mut self)
        ensures
            *final(self) == (LibraryModel { combined: final(self).combined, ..*old(self) }),
            final(self).combined@ == Seq::<CardModel>::empty(),
    {
        self.combined = Vec::new();
    }

    /// Opens the item with the given id.
    pub fn open_item(&mut self, id: String)
        ensures
            final(self).wants(
                *old(self),
                seq![EffectView::Dispatch(open_action(old(self).home(), id@))],
            ),
    {
        let action: AppAction = if str_eq(id.as_str(), LIKED_SONGS_ID) {
            AppAction::BrowserAction(BrowserAction::NavigationPush(ScreenName::SavedTracks))
        } else {
            match self.card_kind_for(id.as_str()) {
                CardKind::Album => AppAction::ViewAlbum(id),
                CardKind::Artist => AppAction::ViewArtist(id),
                _ => AppAction::ViewPlaylist(id),
            }
        };
        self.dispatcher.dispatch(action);
    }

    /// What the id stands for.
    pub fn card_kind_for(&self, id: &str) -> (r: CardKind)
        ensures
            r == (match saved_card(self.home(), id@) {
                Some(card) => card.kind,
                None => CardKind::Untyped,
            }),
    {
        match self.card_for(id) {
            Some(card) => card.kind,
            None => CardKind::Untyped,
        }
    }

    /// The item with the given id, wherever it is saved.
    pub fn card_for(&self, id: &str) -> (r: Option<&CardModel>)
        ensures
            match (r, saved_card(self.home(), id@)) {
                (Some(a), Some(b)) => *a == b,
                (None, None) => true,
                _ => false,
            },
    {
        match self.state() {
            None => None,
            Some(home) => match find(&home.playlists, id) {
                Some(card) => Some(card),
                None => match find(&home.albums, id) {
                    Some(card) => Some(card),
                    None => find(&home.artists, id),
                },
            },
        }
    }

    /// The cards that are shown.
    pub open spec fn source(self) -> Option<Vec<CardModel>> {
        match self.filter {
            LibraryFilter::All => Some(self.combined),
            LibraryFilter::Playlists => match self.home() {
                Some(home) => Some(home.playlists),
                None => None,
            },
            LibraryFilter::Albums => match self.home() {
                Some(home) => Some(home.albums),
                None => None,
            },
            LibraryFilter::Artists => match self.home() {
                Some(home) => Some(home.artists),
                None => None,
            },
        }
    }

    /// The cards that are shown.
    pub fn get_store(&self) -> (r: Option<&Vec<CardModel>>)
        ensures
            match (r, self.source()) {
                (Some(a), Some(b)) => *a == b,
                (None, None) => true,
                _ => false,
            },
    {
        match self.filter {
            LibraryFilter::All => Some(&self.combined),
            LibraryFilter::Playlists => match self.state() {
                Some(home) => Some(&home.playlists),
                None => None,
            },
            LibraryFilter::Albums => match self.state() {
                Some(home) => Some(&home.albums),
                None => None,
            },
            LibraryFilter::Artists => match self.state() {
                Some(home) => Some(&home.artists),
                None => None,
            },
        }
    }

    /// Whether there is anything to show.
    pub fn has_items(&self) -> (r: bool)
        ensures
            r == (self.source() matches Some(cards) && cards@.len() > 0),
    {
        match self.get_store() {
            Some(cards) => cards.len() > 0,
            None => false,
        }
    }

    /// The message id of the title that is shown where there is nothing to show.
    pub open spec fn empty_title_message(self) -> Seq<char> {
        match self.filter {
            LibraryFilter::All => "Your library is empty."@,
            LibraryFilter::Playlists => "You have no saved playlists."@,
            LibraryFilter::Albums => "You have no saved albums."@,
            LibraryFilter::Artists => "You have no followed artists."@,
        }
    }

    /// The message id of the title that is shown where there is nothing to show.
    pub fn empty_title_msgid(&self) -> (r: &'static str)
        ensures
            r@ == self.empty_title_message(),
            text::no_nul(r@),
    {
        proof {
            reveal_strlit("Your library is empty.");
            reveal_strlit("You have no saved playlists.");
            reveal_strlit("You have no saved albums.");
            reveal_strlit("You have no followed artists.");
        }
        match self.filter {
            LibraryFilter::All => "Your library is empty.",
            LibraryFilter::Playlists => "You have no saved playlists.",
            LibraryFilter::Albums => "You have no saved albums.",
            LibraryFilter::Artists => "You have no followed artists.",
        }
    }

    /// The title that is shown where there is nothing to show: a translation of
    /// `empty_title_msgid`.
    pub fn empty_title(&self) -> (r: String)
        ensures
            text::translates(r@, self.empty_title_message()),
    {
        gettext(self.empty_title_msgid())
    }

    /// The message id of the text that is shown where there is nothing to show.
    pub open spec fn empty_description_message(self) -> Seq<char> {
        match self.filter {
            LibraryFilter::All => "Saved albums, playlists and artists appear here."@,
            LibraryFilter::Playlists => "Your playlists will be shown here."@,
            LibraryFilter::Albums => "Your saved albums will be shown here."@,
            LibraryFilter::Artists => "Your followed artists will be shown here."@,
        }
    }

    /// The message id of the text that is shown where there is nothing to show.
    pub fn empty_description_msgid(&self) -> (r: &'static str)
        ensures
            r@ == self.empty_description_message(),
            text::no_nul(r@),
    {
        proof {
            reveal_strlit("Saved albums, playlists and artists appear here.");
            reveal_strlit("Your playlists will be shown here.");
            reveal_strlit("Your saved albums will be shown here.");
            reveal_strlit("Your followed artists will be shown here.");
        }
        match self.filter {
            LibraryFilter::All => "Saved albums, playlists and artists appear here.",
            LibraryFilter::Playlists => "Your playlists will be shown here.",
            LibraryFilter::Albums => "Your saved albums will be shown here.",
            LibraryFilter::Artists => "Your followed artists will be shown here.",
        }
    }

    /// The text that is shown where there is nothing to show: a translation of
    /// `empty_description_msgid`.
    pub fn empty_description(&self) -> (r: String)
        ensures
            text::translates(r@, self.empty_description_message()),
    {
        gettext(self.empty_description_msgid())
    }

    /// The pins and places of the cards that are shown were brought up to date.
    pub open spec fn synced(self, before: Self, pins: Seq<Seq<char>>) -> bool {
        match (before.filter, before.home()) {
            (LibraryFilter::All, _) => {
                &&& self == (LibraryModel { combined: self.combined, ..before })
                &&& self.combined.deep_view() == library_list::synced(
                    before.combined.deep_view(),
                    pins,
                )
            },
            (_, None) => self == before,
            (_, Some(home)) => {
                &&& self.filter == before.filter
                &&& self.combined == before.combined
                &&& self.dispatcher == before.dispatcher
                &&& self.app_model.state == (state::AppState {
                    browser: state::BrowserState {
                        home: self.home(),
                        ..before.app_model.state.browser
                    },
                    ..before.app_model.state
                })
                &&& self.home() matches Some(after) && match before.filter {
                    LibraryFilter::Playlists => after == (HomeState {
                        playlists: after.playlists,
                        ..home
                    }) && after.playlists.deep_view() == library_list::synced(
                        home.playlists.deep_view(),
                        pins,
                    ),
                    LibraryFilter::Albums => after == (HomeState { albums: after.albums, ..home })
                        && after.albums.deep_view() == library_list::synced(
                        home.albums.deep_view(),
                        pins,
                    ),
                    _ => after == (HomeState { artists: after.artists, ..home })
                        && after.artists.deep_view() == library_list::synced(
                        home.artists.deep_view(),
                        pins,
                    ),
                }
            },
        }
    }

    /// The cards that are shown can be numbered.
    pub open spec fn countable(self) -> bool {
        self.source() matches Some(cards) ==> cards@.len() <= u32::MAX
    }

    /// Brings the pins and places of the cards that are shown up to date.
    pub fn sync_pins(&mut self, list: &LibraryList, pins: &PinnedStore)
        requires
            old(self).countable(),
        ensures
            final(self).synced(*old(self), pins@),
    {
        let filter = self.filter;
        if filter == LibraryFilter::All {
            list.sync_pins(pins, &mut self.combined);
            return;
        }
        match &mut self.app_model.state.browser.home {
            None => {},
            Some(home) => match filter {
                LibraryFilter::Playlists => list.sync_pins(pins, &mut home.playlists),
                LibraryFilter::Albums => list.sync_pins(pins, &mut home.albums),
                _ => list.sync_pins(pins, &mut home.artists),
            },
        }
    }
}

/// The title is one that the card of the liked songs may have: a translation of
/// "Liked Songs".
pub open spec fn is_liked_title(title: Seq<char>) -> bool {
    exists|label: Seq<char>| #[trigger]
        text::translates(label, "Liked Songs"@) && card_model::is_title_of(
            title,
            LIKED_SONGS_ID@,
            label,
        )
}

/// The card that stands for the liked songs.
pub fn liked_songs_card() -> (r: CardModel)
    ensures
        r.deep_view() == liked_card(r.title@),
        is_liked_title(r.title@),
{
    proof {
        reveal_strlit("Liked Songs");
        reveal_strlit("");
        reveal_strlit("__riff_liked_songs__");
        assert(""@ =~= Seq::<char>::empty());
    }
    let title: String = gettext("Liked Songs");
    CardModel::new(LIKED_SONGS_ID, None, title.as_str(), "", None, None, None).with_kind(
        CardKind::Playlist,
    )
}

// ── Answers ────────────────────────────────────────────────────────────────

/// What follows from the first albums.
pub fn albums_read(answer: SpotifyResult<Vec<AlbumDescription>>) -> (r: SpotifyResult<AppAction>)
    ensures
        match (answer, r) {
            (Ok(albums), Ok(action)) => action == AppAction::BrowserAction(
                BrowserAction::SetLibraryContent(albums),
            ),
            (Err(e), Err(f)) => e == f,
            _ => false,
        },
{
    match answer {
        Ok(albums) => Ok(AppAction::BrowserAction(BrowserAction::SetLibraryContent(albums))),
        Err(e) => Err(e),
    }
}

/// What follows from more albums.
pub fn more_albums_read(
    answer: SpotifyResult<Vec<AlbumDescription>>,
) -> (r: SpotifyResult<AppAction>)
    ensures
        match (answer, r) {
            (Ok(albums), Ok(action)) => action == AppAction::BrowserAction(
                BrowserAction::AppendLibraryContent(albums),
            ),
            (Err(e), Err(f)) => e == f,
            _ => false,
        },
{
    match answer {
        Ok(albums) => Ok(AppAction::BrowserAction(BrowserAction::AppendLibraryContent(albums))),
        Err(e) => Err(e),
    }
}

/// What follows from the first playlists.
pub fn playlists_read(
    answer: SpotifyResult<Vec<PlaylistDescription>>,
) -> (r: SpotifyResult<AppAction>)
    ensures
        match (answer, r) {
            (Ok(playlists), Ok(action)) => action == AppAction::BrowserAction(
                BrowserAction::SetPlaylistsContent(playlists),
            ),
            (Err(e), Err(f)) => e == f,
            _ => false,
        },
{
    match answer {
        Ok(playlists) => Ok(AppAction::BrowserAction(BrowserAction::SetPlaylistsContent(playlists))),
        Err(e) => Err(e),
    }
}

/// What follows from more playlists.
pub fn more_playlists_read(
    answer: SpotifyResult<Vec<PlaylistDescription>>,
) -> (r: SpotifyResult<AppAction>)
    ensures
        match (answer, r) {
            (Ok(playlists), Ok(action)) => action == AppAction::BrowserAction(
                BrowserAction::AppendPlaylistsContent(playlists),
            ),
            (Err(e), Err(f)) => e == f,
            _ => false,
        },
{
    match answer {
        Ok(playlists) => Ok(
            AppAction::BrowserAction(BrowserAction::AppendPlaylistsContent(playlists)),
        ),
        Err(e) => Err(e),
    }
}

/// What follows from the first artists and the place at which the next ones
/// start.
pub fn artists_read(
    answer: SpotifyResult<(Vec<ArtistSummary>, Option<String>)>,
) -> (r: SpotifyResult<AppAction>)
    ensures
        match (answer, r) {
            (Ok((artists, cursor)), Ok(action)) => action == AppAction::BrowserAction(
                BrowserAction::SetSavedArtists(artists, cursor),
            ),
            (Err(e), Err(f)) => e == f,
            _ => false,
        },
{
    match answer {
        Ok((artists, cursor)) => Ok(
            AppAction::BrowserAction(BrowserAction::SetSavedArtists(artists, cursor)),
        ),
        Err(e) => Err(e),
    }
}

/// What follows from more artists and the place at which the next ones start.
pub fn more_artists_read(
    answer: SpotifyResult<(Vec<ArtistSummary>, Option<String>)>,
) -> (r: SpotifyResult<AppAction>)
    ensures
        match (answer, r) {
            (Ok((artists, cursor)), Ok(action)) => action == AppAction::BrowserAction(
                BrowserAction::AppendSavedArtists(artists, cursor),
            ),
            (Err(e), Err(f)) => e == f,
            _ => false,
        },
{
    match answer {
        Ok((artists, cursor)) => Ok(
            AppAction::BrowserAction(BrowserAction::AppendSavedArtists(artists, cursor)),
        ),
        Err(e) => Err(e),
    }
}

// ── Laws ───────────────────────────────────────────────────────────────────

/// Taking in new items only adds cards: those that were there keep their places.
pub proof fn law_reconcile_appends(
    combined: Seq<CardModelView>,
    saved: Seq<CardModelView>,
    liked: CardModelView,
)
    ensures
        reconciled(combined, saved, liked).len() >= combined.len(),
        reconciled(combined, saved, liked).take(combined.len() as int) == combined,
{
    assert(reconciled(combined, saved, liked).take(combined.len() as int) =~= combined);
}

proof fn lemma_ids_contain(cards: Seq<CardModelView>, i: int)
    requires
        0 <= i < cards.len(),
    ensures
        card_ids(cards).contains(cards[i].id),
{
    let ids = cards.map_values(|c: CardModelView| c.id);
    assert(ids[i] == cards[i].id);
}

/// Every saved item has a card afterwards, and so have the liked songs.
pub proof fn law_reconcile_takes_in_all(
    combined: Seq<CardModelView>,
    saved: Seq<CardModelView>,
    title: Seq<char>,
)
    ensures
        card_ids(reconciled(combined, saved, liked_card(title))).contains(LIKED_SONGS_ID@),
        forall|i: int|
            0 <= i < saved.len() ==> card_ids(
                reconciled(combined, saved, liked_card(title)),
            ).contains((#[trigger] saved[i]).id),
{
    let ids = card_ids(combined);
    let new = not_among(ids);
    let all = reconciled(combined, saved, liked_card(title));
    let front = if ids.contains(LIKED_SONGS_ID@) {
        combined
    } else {
        combined.push(liked_card(title))
    };
    if ids.contains(LIKED_SONGS_ID@) {
        lemma_old_id(combined, all, LIKED_SONGS_ID@);
    } else {
        assert(all[combined.len() as int] == liked_card(title));
        lemma_ids_contain(all, combined.len() as int);
    }
    assert forall|i: int| 0 <= i < saved.len() implies card_ids(all).contains(
        (#[trigger] saved[i]).id,
    ) by {
        if ids.contains(saved[i].id) {
            lemma_old_id(combined, all, saved[i].id);
        } else {
            lists::lemma_filter_set(saved, new);
            assert(saved.contains(saved[i]));
            assert(saved.filter(new).contains(saved[i]));
            let k = choose|k: int| 0 <= k < saved.filter(new).len() && saved.filter(new)[k] == saved[i];
            assert(all[front.len() + k] == saved[i]);
            lemma_ids_contain(all, front.len() + k);
        }
    }
}

proof fn lemma_old_id(before: Seq<CardModelView>, after: Seq<CardModelView>, id: Seq<char>)
    requires
        before.len() <= after.len(),
        forall|i: int| 0 <= i < before.len() ==> before[i] == after[i],
        card_ids(before).contains(id),
    ensures
        card_ids(after).contains(id),
{
    let ids = before.map_values(|c: CardModelView| c.id);
    let i = choose|i: int| 0 <= i < ids.len() && ids[i] == id;
    assert(after[i].id == id);
    lemma_ids_contain(after, i);
}

/// Taking in the same items again changes nothing.
pub proof fn law_reconcile_twice_is_once(
    combined: Seq<CardModelView>,
    saved: Seq<CardModelView>,
    title: Seq<char>,
    again: Seq<char>,
)
    ensures
        reconciled(
            reconciled(combined, saved, liked_card(title)),
            saved,
            liked_card(again),
        ) == reconciled(combined, saved, liked_card(title)),
{
    let once = reconciled(combined, saved, liked_card(title));
    law_reconcile_takes_in_all(combined, saved, title);
    lists::lemma_filter_nothing(saved, not_among(card_ids(once)));
    assert(reconciled(once, saved, liked_card(again)) =~= once);
}

/// No two cards have the same id.
pub open spec fn distinct_ids(cards: Seq<CardModelView>) -> bool {
    forall|i: int, j: int|
        0 <= i < j < cards.len() ==> (#[trigger] cards[i]).id != (#[trigger] cards[j]).id
}

proof fn lemma_filter_distinct(cards: Seq<CardModelView>, p: spec_fn(CardModelView) -> bool)
    requires
        distinct_ids(cards),
    ensures
        distinct_ids(cards.filter(p)),
    decreases cards.len(),
{
    reveal(Seq::filter);
    if cards.len() > 0 {
        let front = cards.drop_last();
        let last = cards.last();
        lemma_filter_distinct(front, p);
        lists::lemma_filter_set(front, p);
        if p(last) {
            let kept = front.filter(p);
            assert forall|i: int, j: int| 0 <= i < j < kept.push(last).len() implies (
            #[trigger] kept.push(last)[i]).id != (#[trigger] kept.push(last)[j]).id by {
                if j == kept.len() {
                    assert(kept.contains(kept[i]));
                    let k = choose|k: int| 0 <= k < front.len() && front[k] == kept[i];
                    assert(cards[k].id != cards[cards.len() - 1].id);
                }
            }
        }
    }
}

/// Taking in new items adds no id twice, as long as no two saved items share an id
/// and none has that of the liked songs.
pub proof fn law_reconcile_adds_no_id_twice(
    combined: Seq<CardModelView>,
    saved: Seq<CardModelView>,
    title: Seq<char>,
)
    requires
        distinct_ids(combined),
        distinct_ids(saved),
        !card_ids(saved).contains(LIKED_SONGS_ID@),
    ensures
        distinct_ids(reconciled(combined, saved, liked_card(title))),
{
    let ids = card_ids(combined);
    let new = saved.filter(not_among(ids));
    let all = reconciled(combined, saved, liked_card(title));
    let front = if ids.contains(LIKED_SONGS_ID@) {
        combined
    } else {
        combined.push(liked_card(title))
    };
    lemma_filter_distinct(saved, not_among(ids));
    lists::lemma_filter_set(saved, not_among(ids));
    assert forall|i: int| 0 <= i < combined.len() implies ids.contains(
        (#[trigger] combined[i]).id,
    ) by {
        lemma_ids_contain(combined, i);
    }
    assert forall|k: int| 0 <= k < new.len() implies !ids.contains((#[trigger] new[k]).id)
        && new[k].id != LIKED_SONGS_ID@ by {
        assert(new.contains(new[k]));
        let m = choose|m: int| 0 <= m < saved.len() && saved[m] == new[k];
        lemma_ids_contain(saved, m);
    }
    assert forall|i: int, j: int| 0 <= i < j < all.len() implies (#[trigger] all[i]).id != (
    #[trigger] all[j]).id by {
        if j >= front.len() {
            assert(all[j] == new[j - front.len()]);
            if i >= front.len() {
                assert(all[i] == new[i - front.len()]);
            }
        }
    }
}

/// Where there is more, asking for more marks one page as asked for and makes one
/// call; where there is not, nothing is asked for.
pub proof fn law_more_is_one_page(filter: LibraryFilter, home: Option<HomeState>)
    ensures
        more_effects(filter, home).len() == 0 || more_effects(filter, home).len() == 2,
        more_effects(filter, home).len() == 2 ==> more_effects(filter, home)[0] is UpdateState
            && more_effects(filter, home)[1] is Call,
        filter == LibraryFilter::All ==> (more_effects(filter, home).len() == 2 <==> more_playlists(
            home,
        ).len() == 2 || more_albums(home).len() == 2 || more_artists(home).len() == 2),
{
}

// ── The screen ─────────────────────────────────────────────────────────────

/// The name under which the order of the library is kept.
pub const PAGE_ID: &'static str = "library";

/// The orders that the library offers, as the menu lists them.
pub fn sort_orders() -> (r: Vec<SortOrder>)
    ensures
        r@ == seq![SortOrder::RecentlyAdded, SortOrder::Alphabetic, SortOrder::Size],
{
    vec![SortOrder::RecentlyAdded, SortOrder::Alphabetic, SortOrder::Size]
}

/// The icon of the button that switches between list and grid: that of what is
/// not shown.
pub fn toggle_icon(layout: CardLayout) -> (r: &'static str)
    ensures
        r@ == (if layout == CardLayout::Horizontal {
            "view-grid-symbolic"@
        } else {
            "view-list-symbolic"@
        }),
{
    match layout {
        CardLayout::Horizontal => "view-grid-symbolic",
        _ => "view-list-symbolic",
    }
}

/// The arrow beside the name of the order.
pub fn direction_icon(descending: bool) -> (r: &'static str)
    ensures
        r@ == (if descending {
            "view-sort-descending-symbolic"@
        } else {
            "view-sort-ascending-symbolic"@
        }),
{
    if descending {
        "view-sort-descending-symbolic"
    } else {
        "view-sort-ascending-symbolic"
    }
}

/// The start of the ids of cards that stand for no item of the service.
pub const LIKED_PREFIX: &'static str = "__riff_liked";

/// What the menu of the item with the given id shows; the card of the liked songs
/// has no menu, and neither has an item that is not in the library.
pub open spec fn library_item(
    home: Option<HomeState>,
    pins: Seq<Seq<char>>,
    id: Seq<char>,
) -> Option<LibraryItemView> {
    if text::has_prefix(id, LIKED_PREFIX@) {
        None
    } else {
        match saved_card(home, id) {
            Some(card) => Some(
                LibraryItemView {
                    id,
                    title: card.title@,
                    subtitle: card.subtitle@,
                    art: card.image.deep_view(),
                    kind: card.kind,
                    pinned: pins.contains(id),
                },
            ),
            None => None,
        }
    }
}

/// What the menu of the item with the given id shows.
pub fn build_library_item(
    model: &LibraryModel,
    pins: &PinnedStore,
    id: &str,
) -> (r: Option<LibraryItem>)
    ensures
        r.deep_view() == library_item(model.home(), pins@, id@),
{
    if starts_with(id, LIKED_PREFIX) {
        return None;
    }
    match model.card_for(id) {
        Some(card) => Some(
            LibraryItem {
                id: id.to_string(),
                title: card.title.clone(),
                subtitle: card.subtitle.clone(),
                art: card.image.clone(),
                kind: card.kind,
                pinned: pins.is_pinned(id),
            },
        ),
        None => None,
    }
}

/// The screen of the library.
#[derive(Debug, PartialEq, Eq)]
pub struct LibraryScreen {
    pub model: LibraryModel,
    pub list: LibraryList,
    /// Whether the text is shown that there is nothing to show.
    pub status_visible: bool,
    /// Whether the button is shown that shows all again.
    pub clear_visible: bool,
}

/// The model after its cards were taken in (where all are shown) and brought up
/// to date.
pub open spec fn refreshed(
    before: LibraryModel,
    after: LibraryModel,
    pins: Seq<Seq<char>>,
) -> bool {
    exists|middle: LibraryModel, title: Seq<char>|
        #![trigger after.synced(middle, pins), liked_card(title)]
        {
            &&& middle == (LibraryModel { combined: middle.combined, ..before })
            &&& match (before.filter, before.home()) {
                (LibraryFilter::All, Some(home)) => is_liked_title(title)
                    && middle.combined.deep_view() == reconciled(
                    before.combined.deep_view(),
                    saved_cards(home),
                    liked_card(title),
                ),
                _ => middle.combined.deep_view() == before.combined.deep_view(),
            }
            &&& after.synced(middle, pins)
        }
}

impl LibraryScreen {
    /// All cards of the library can be numbered.
    pub open spec fn countable(self) -> bool {
        &&& self.model.combined@.len() <= u32::MAX
        &&& self.model.home() matches Some(home) ==> self.model.combined@.len() + 1
            + home.playlists@.len() + home.albums@.len() + home.artists@.len() <= u32::MAX
    }

    /// Whether the text that there is nothing to show is shown as it should be.
    pub open spec fn status_is_right(self) -> bool {
        self.status_visible == !(self.model.source() matches Some(cards) && cards@.len() > 0)
    }

    /// The screen, in the order and layout that were kept.
    pub fn new(
        model: LibraryModel,
        layout: CardLayout,
        sort: SortOrder,
        descending: bool,
        pins: &PinnedStore,
    ) -> (r: LibraryScreen)
        requires
            (LibraryScreen {
                model,
                list: LibraryList { sort, descending, shows_list: true },
                status_visible: false,
                clear_visible: false,
            }).countable(),
        ensures
            refreshed(model, r.model, pins@),
            r.list == (LibraryList {
                sort,
                descending,
                shows_list: layout == CardLayout::Horizontal,
            }),
            !r.clear_visible,
            r.status_is_right(),
    {
        let mut list = LibraryList::new(sort, descending);
        list.set_layout(layout);
        let mut r = LibraryScreen {
            model,
            list,
            status_visible: false,
            clear_visible: false,
        };
        r.take_in(pins);
        r.update_empty_state();
        r
    }

    /// Takes new items in, where all are shown, and brings the cards up to date.
    fn take_in(&mut self, pins: &PinnedStore)
        requires
            old(self).countable(),
        ensures
            *final(self) == (LibraryScreen { model: final(self).model, ..*old(self) }),
            refreshed(old(self).model, final(self).model, pins@),
    {
        let ghost before = self.model;
        let ghost title = Seq::<char>::empty();
        if self.model.filter() == LibraryFilter::All {
            proof {
                if let Some(home) = self.model.home() {
                    lists::lemma_filter_len(
                        saved_cards(home),
                        not_among(card_ids(self.model.combined.deep_view())),
                    );
                }
            }
            self.model.reconcile_combined();
            proof {
                if let Some(home) = before.home() {
                    title = choose|title: Seq<char>|
                        is_liked_title(title) && self.model.combined.deep_view() == reconciled(
                            before.combined.deep_view(),
                            saved_cards(home),
                            #[trigger] liked_card(title),
                        );
                    assert(self.model.combined@.len() == self.model.combined.deep_view().len());
                }
                assert(self.model.combined@.len() == self.model.combined.deep_view().len());
                assert(before.combined@.len() == before.combined.deep_view().len());
            }
        }
        let ghost middle = self.model;
        self.model.sync_pins(&self.list, pins);
        proof {
            let shown = liked_card(title);
            assert(self.model.synced(middle, pins@));
        }
    }

    /// Shows that there is nothing to show, or hides it.
    fn update_empty_state(&mut self)
        ensures
            *final(self) == (LibraryScreen {
                status_visible: final(self).status_visible,
                ..*old(self)
            }),
            final(self).status_is_right(),
    {
        self.status_visible = !self.model.has_items();
    }

    /// The cards that are shown, as they are listed.
    pub fn listed(&self, pins: &PinnedStore) -> (r: Vec<CardModel>)
        ensures
            match self.model.source() {
                Some(cards) => sorting::is_sorted_from(
                    r.deep_view(),
                    cards.deep_view(),
                    library_list::card_ordering(pins@, self.list.sort, self.list.descending),
                ) && r@.len() == cards@.len(),
                None => r@.len() == 0,
            },
    {
        match self.model.get_store() {
            Some(cards) => self.list.listed(pins, cards),
            None => Vec::new(),
        }
    }

    /// The state has changed: the cards that are shown are those of the new state,
    /// brought up to date.
    pub fn state_changed(&mut self, app_model: AppModel, pins: &PinnedStore)
        requires
            (LibraryScreen {
                model: LibraryModel { app_model, ..old(self).model },
                ..*old(self)
            }).countable(),
        ensures
            *final(self) == (LibraryScreen { model: final(self).model, ..*old(self) }),
            final(self).model.synced(LibraryModel { app_model, ..old(self).model }, pins@),
    {
        self.model.app_model = app_model;
        self.model.sync_pins(&self.list, pins);
    }

    /// A kind was chosen: only that kind is shown.
    pub fn choose_filter(&mut self, filter: LibraryFilter, pins: &PinnedStore)
        requires
            old(self).countable(),
            filter != LibraryFilter::All,
        ensures
            final(self).list == old(self).list,
            final(self).clear_visible,
            final(self).status_is_right(),
            exists|middle: LibraryModel|
                {
                    &&& middle == (LibraryModel {
                        filter,
                        combined: middle.combined,
                        ..old(self).model
                    })
                    &&& middle.combined@ == Seq::<CardModel>::empty()
                    &&& #[trigger] final(self).model.synced(middle, pins@)
                },
    {
        self.model.set_filter(filter);
        self.model.clear_combined();
        self.clear_visible = true;
        let ghost middle = self.model;
        self.model.sync_pins(&self.list, pins);
        self.update_empty_state();
        assert(self.model.synced(middle, pins@));
    }

    /// All kinds are shown again.
    pub fn clear_filter(&mut self, pins: &PinnedStore)
        requires
            old(self).countable(),
        ensures
            final(self).list == old(self).list,
            !final(self).clear_visible,
            final(self).status_is_right(),
            refreshed(
                LibraryModel { filter: LibraryFilter::All, ..old(self).model },
                final(self).model,
                pins@,
            ),
    {
        self.clear_visible = false;
        self.model.set_filter(LibraryFilter::All);
        self.take_in(pins);
        self.update_empty_state();
    }

    /// The button that switches between list and grid was pressed. The layout is
    /// that of all pages.
    pub fn toggle_layout(&mut self, shared_layout: &mut CardLayout)
        ensures
            *final(shared_layout) == (if *old(shared_layout) == CardLayout::Horizontal {
                CardLayout::Vertical
            } else {
                CardLayout::Horizontal
            }),
            final(self).list == (LibraryList {
                shows_list: *final(shared_layout) == CardLayout::Horizontal,
                ..old(self).list
            }),
            final(self).status_visible == old(self).status_visible,
            final(self).clear_visible == old(self).clear_visible,
            final(self).model.wants(
                old(self).model,
                seq![
                    EffectView::Dispatch(
                        AppActionView::BrowserAction(
                            BrowserActionView::ChangeCardLayout(*final(shared_layout)),
                        ),
                    ),
                ],
            ),
    {
        let next: CardLayout = match *shared_layout {
            CardLayout::Horizontal => CardLayout::Vertical,
            _ => CardLayout::Horizontal,
        };
        *shared_layout = next;
        self.list.set_layout(next);
        self.model.dispatcher.dispatch(
            AppAction::BrowserAction(BrowserAction::ChangeCardLayout(next)),
        );
    }

    /// An order was chosen. Choosing the order that is active turns it round; any
    /// other starts in its own direction. The direction is kept along with the
    /// order.
    pub fn choose_sort(&mut self, order: SortOrder)
        ensures
            final(self).status_visible == old(self).status_visible,
            final(self).clear_visible == old(self).clear_visible,
            final(self).list == (LibraryList {
                sort: order,
                descending: order == old(self).list.sort && !old(self).list.descending,
                ..old(self).list
            }),
            final(self).model.wants(
                old(self).model,
                seq![
                    EffectView::Dispatch(
                        AppActionView::BrowserAction(
                            BrowserActionView::ChangeSortOrder(PAGE_ID@, order),
                        ),
                    ),
                ],
            ),
    {
        let descending: bool = order == self.list.sort && !self.list.descending;
        self.list.set_sort(order, descending);
        self.model.dispatcher.dispatch(
            AppAction::BrowserAction(BrowserAction::ChangeSortOrder(PAGE_ID.to_string(), order)),
        );
    }

    /// The end of the list was reached: more is asked for, if there is more.
    pub fn edge_reached(&mut self)
        ensures
            *final(self) == (LibraryScreen { model: final(self).model, ..*old(self) }),
            final(self).model.wants(
                old(self).model,
                more_effects(old(self).model.filter, old(self).model.home()),
            ),
    {
        if self.model.has_more() {
            self.model.load_more();
        } else {
            assert(self.model.dispatcher@ =~= old(self).model.dispatcher@ + more_effects(
                old(self).model.filter,
                old(self).model.home(),
            ));
        }
    }

    /// A card was held: the menu of its item is opened, if it has one.
    pub fn held(&mut self, id: &str, pins: &PinnedStore)
        ensures
            *final(self) == (LibraryScreen { model: final(self).model, ..*old(self) }),
            final(self).model.wants(
                old(self).model,
                match library_item(old(self).model.home(), pins@, id@) {
                    Some(item) => seq![
                        EffectView::Dispatch(AppActionView::ShowLibraryItemMenu(item)),
                    ],
                    None => Seq::empty(),
                },
            ),
    {
        match build_library_item(&self.model, pins, id) {
            Some(item) => {
                self.model.dispatcher.dispatch(AppAction::ShowLibraryItemMenu(item));
            },
            None => {
                assert(self.model.dispatcher@ =~= old(self).model.dispatcher@ + Seq::<
                    EffectView,
                >::empty());
            },
        }
    }

    /// What an event does to the screen, given the pins and the layout of all pages
    /// as they are now.
    pub fn on_event(&mut self, event: &AppEvent, pins: &PinnedStore, shared_layout: CardLayout)
        requires
            old(self).countable(),
        ensures
            final(self).clear_visible == old(self).clear_visible,
            match event {
                AppEvent::Started | AppEvent::LoginEvent(LoginEvent::LoginCompleted) => {
                    &&& final(self).list == old(self).list
                    &&& final(self).status_visible == old(self).status_visible
                    &&& final(self).model.wants(
                        old(self).model,
                        refresh_effects(old(self).model.home()),
                    )
                },
                AppEvent::LoginEvent(LoginEvent::LogoutCompleted) => {
                    &&& final(self).list == old(self).list
                    &&& !final(self).status_visible
                    &&& final(self).model == (LibraryModel {
                        combined: final(self).model.combined,
                        ..old(self).model
                    })
                    &&& final(self).model.combined@.len() == 0
                },
                AppEvent::BrowserEvent(BrowserEvent::LibraryUpdated) | AppEvent::BrowserEvent(
                    BrowserEvent::SavedPlaylistsUpdated,
                ) | AppEvent::BrowserEvent(BrowserEvent::SavedArtistsUpdated) => {
                    &&& final(self).list == old(self).list
                    &&& refreshed(old(self).model, final(self).model, pins@)
                    &&& final(self).status_is_right()
                },
                AppEvent::BrowserEvent(BrowserEvent::CardLayoutChanged(_)) => {
                    &&& final(self).model == old(self).model
                    &&& final(self).status_visible == old(self).status_visible
                    &&& final(self).list == (LibraryList {
                        shows_list: shared_layout == CardLayout::Horizontal,
                        ..old(self).list
                    })
                },
                AppEvent::LibraryPinsChanged => {
                    &&& final(self).list == old(self).list
                    &&& final(self).status_visible == old(self).status_visible
                    &&& final(self).model.synced(old(self).model, pins@)
                },
                _ => *final(self) == *old(self),
            },
    {
        match event {
            AppEvent::Started | AppEvent::LoginEvent(LoginEvent::LoginCompleted) => {
                self.model.refresh_all();
            },
            AppEvent::LoginEvent(LoginEvent::LogoutCompleted) => {
                self.model.clear_combined();
                self.status_visible = false;
            },
            AppEvent::BrowserEvent(BrowserEvent::LibraryUpdated) | AppEvent::BrowserEvent(
                BrowserEvent::SavedPlaylistsUpdated,
            ) | AppEvent::BrowserEvent(BrowserEvent::SavedArtistsUpdated) => {
                self.take_in(pins);
                self.update_empty_state();
            },
            AppEvent::BrowserEvent(BrowserEvent::CardLayoutChanged(_)) => {
                self.list.set_layout(shared_layout);
            },
            AppEvent::LibraryPinsChanged => {
                self.model.sync_pins(&self.list, pins);
            },
            _ => {},
        }
    }
}

// ── More laws ──────────────────────────────────────────────────────────────

/// Every filter has its own label; all has none.
pub proof fn law_filters_have_their_labels()
    ensures
        LibraryFilter::All.spec_msgid() is None,
        LibraryFilter::Playlists.spec_msgid() == Some("Playlists"@),
        LibraryFilter::Albums.spec_msgid() == Some("Albums"@),
        LibraryFilter::Artists.spec_msgid() == Some("Artists"@),
{
}

/// Each part of the library shows its own list of the state, and all of it shows the
/// combined cards. Where there is nothing to show, the texts speak of that part.
pub proof fn law_parts_show_their_list(model: LibraryModel)
    ensures
        model.filter == LibraryFilter::All ==> model.source() == Some(model.combined)
            && model.empty_title_message() == "Your library is empty."@
            && model.empty_description_message()
            == "Saved albums, playlists and artists appear here."@,
        model.filter == LibraryFilter::Playlists ==> {
            &&& model.empty_title_message() == "You have no saved playlists."@
            &&& model.empty_description_message() == "Your playlists will be shown here."@
            &&& model.app_model.state.browser.home matches Some(home) ==> model.source() == Some(
                home.playlists,
            )
        },
        model.filter == LibraryFilter::Albums ==> {
            &&& model.empty_title_message() == "You have no saved albums."@
            &&& model.empty_description_message() == "Your saved albums will be shown here."@
            &&& model.app_model.state.browser.home matches Some(home) ==> model.source() == Some(
                home.albums,
            )
        },
        model.filter == LibraryFilter::Artists ==> {
            &&& model.empty_title_message() == "You have no followed artists."@
            &&& model.empty_description_message() == "Your followed artists will be shown here."@
            &&& model.app_model.state.browser.home matches Some(home) ==> model.source() == Some(
                home.artists,
            )
        },
        model.filter != LibraryFilter::All && model.app_model.state.browser.home is None
            ==> model.source() is None,
{
}

/// An item is found among the playlists, else among the albums, else among the
/// artists, by its own id.
pub proof fn law_items_are_found_where_they_are_saved(home: HomeState, id: Seq<char>)
    ensures
        state::found(home.playlists@, id) is Some ==> saved_card(Some(home), id) == state::found(
            home.playlists@,
            id,
        ),
        state::found(home.playlists@, id) is None && state::found(home.albums@, id) is Some
            ==> saved_card(Some(home), id) == state::found(home.albums@, id),
        state::found(home.playlists@, id) is None && state::found(home.albums@, id) is None
            ==> saved_card(Some(home), id) == state::found(home.artists@, id),
        saved_card(Some(home), id) matches Some(card) ==> card.id@ == id,
        saved_card(None, id) is None,
{
    lemma_found_has_the_id(home.playlists@, id, 0);
    lemma_found_has_the_id(home.albums@, id, 0);
    lemma_found_has_the_id(home.artists@, id, 0);
}

proof fn lemma_found_has_the_id(cards: Seq<CardModel>, id: Seq<char>, i: int)
    requires
        0 <= i,
    ensures
        state::found_from(cards, id, i) matches Some(card) ==> card.id@ == id,
    decreases cards.len() - i,
{
    if i < cards.len() && state::Keyed::key(cards[i]) != id {
        lemma_found_has_the_id(cards, id, i + 1);
    }
}

/// An item opens the page of its kind: the liked songs their own, an album, an artist
/// and a playlist theirs by id.
pub proof fn law_items_open_their_page(home: Option<HomeState>, id: Seq<char>)
    ensures
        id == LIKED_SONGS_ID@ ==> open_action(home, id) == AppActionView::BrowserAction(
            BrowserActionView::NavigationPush(ScreenNameView::SavedTracks),
        ),
        id != LIKED_SONGS_ID@ ==> (saved_card(home, id) matches Some(card) ==> {
            &&& card.kind == CardKind::Album ==> open_action(home, id) == AppActionView::ViewAlbum(
                id,
            )
            &&& card.kind == CardKind::Artist ==> open_action(home, id)
                == AppActionView::ViewArtist(id)
            &&& card.kind == CardKind::Playlist ==> open_action(home, id)
                == AppActionView::ViewPlaylist(id)
        }),
{
}

/// More of a part is the next page of its own list, which is marked as asked for
/// before it is asked for.
pub proof fn law_more_asks_for_the_next_page(home: HomeState, offset: usize, cursor: String)
    ensures
        home.next_albums_page.next_offset == Some(offset) ==> more_effects(
            LibraryFilter::Albums,
            Some(home),
        ) == seq![
            EffectView::UpdateState(
                BrowserActionView::ConsumeNextPage(PaginationTargetView::SavedAlbums),
            ),
            EffectView::Call(
                ApiCallView::GetSavedAlbums { offset, limit: home.next_albums_page.batch_size },
            ),
        ],
        home.next_playlists_page.next_offset == Some(offset) ==> more_effects(
            LibraryFilter::Playlists,
            Some(home),
        ) == seq![
            EffectView::UpdateState(
                BrowserActionView::ConsumeNextPage(PaginationTargetView::SavedPlaylists),
            ),
            EffectView::Call(
                ApiCallView::GetSavedPlaylists {
                    offset,
                    limit: home.next_playlists_page.batch_size,
                },
            ),
        ],
        home.artists_cursor == Some(cursor) && cursor@.len() > 0 ==> more_effects(
            LibraryFilter::Artists,
            Some(home),
        ) == seq![
            EffectView::UpdateState(
                BrowserActionView::ConsumeNextPage(PaginationTargetView::SavedArtists),
            ),
            EffectView::Call(
                ApiCallView::GetFollowedArtists { after: Some(cursor@), limit: 30 },
            ),
        ],
        home.next_albums_page.next_offset is None ==> more_effects(
            LibraryFilter::Albums,
            Some(home),
        ).len() == 0,
        home.next_playlists_page.next_offset is None ==> more_effects(
            LibraryFilter::Playlists,
            Some(home),
        ).len() == 0,
        home.artists_cursor is None || home.artists_cursor->0@.len() == 0 ==> more_effects(
            LibraryFilter::Artists,
            Some(home),
        ).len() == 0,
{
}

/// Where all is shown, more playlists are asked for as long as there are any, then
/// more albums, then more artists.
pub proof fn law_more_of_all_goes_kind_by_kind(home: HomeState)
    ensures
        home.next_playlists_page.next_offset is Some ==> more_effects(
            LibraryFilter::All,
            Some(home),
        ) == more_effects(LibraryFilter::Playlists, Some(home)),
        home.next_playlists_page.next_offset is None && home.next_albums_page.next_offset is Some
            ==> more_effects(LibraryFilter::All, Some(home)) == more_effects(
            LibraryFilter::Albums,
            Some(home),
        ),
        home.next_playlists_page.next_offset is None && home.next_albums_page.next_offset is None
            ==> more_effects(LibraryFilter::All, Some(home)) == more_effects(
            LibraryFilter::Artists,
            Some(home),
        ),
{
}

/// A library that is read anew asks for the first albums, playlists and artists, and
/// for nothing before there is a state to put them in.
pub proof fn law_refresh_asks_for_the_first_pages(home: HomeState)
    ensures
        refresh_effects(Some(home)) == seq![
            EffectView::Call(
                ApiCallView::GetSavedAlbums { offset: 0, limit: home.next_albums_page.batch_size },
            ),
            EffectView::Call(
                ApiCallView::GetSavedPlaylists {
                    offset: 0,
                    limit: home.next_playlists_page.batch_size,
                },
            ),
            EffectView::Call(ApiCallView::GetFollowedArtists { after: None, limit: 30 }),
        ],
        refresh_effects(None).len() == 0,
{
}

/// The saved items are the playlists, then the albums, then the artists, each list in
/// its order.
pub proof fn law_saved_items_are_in_order(home: HomeState, i: int)
    requires
        0 <= i < home.playlists@.len() + home.albums@.len() + home.artists@.len(),
    ensures
        saved_cards(home).len() == home.playlists@.len() + home.albums@.len()
            + home.artists@.len(),
        ({
            let p = home.playlists@.len();
            let a = home.albums@.len();
            saved_cards(home)[i] == (if i < p {
                home.playlists@[i].deep_view()
            } else if i < p + a {
                home.albums@[i - p].deep_view()
            } else {
                home.artists@[i - p - a].deep_view()
            })
        }),
{
    assert(home.playlists.deep_view().len() == home.playlists@.len());
    assert(home.albums.deep_view().len() == home.albums@.len());
    assert(home.artists.deep_view().len() == home.artists@.len());
}

/// The first time that items are taken in, the liked songs come first and then the
/// items in their order.
pub proof fn law_first_reconcile_lists_all(saved: Seq<CardModelView>, title: Seq<char>)
    ensures
        reconciled(Seq::empty(), saved, liked_card(title)) == seq![liked_card(title)] + saved,
        liked_card(title).id == LIKED_SONGS_ID@,
        liked_card(title).title == title,
        liked_card(title).kind == CardKind::Playlist,
        liked_card(title).image is None,
        !liked_card(title).pinned,
{
    let none = Seq::<CardModelView>::empty();
    let ids = card_ids(none);
    assert(none.map_values(|c: CardModelView| c.id) =~= Seq::<Seq<char>>::empty());
    assert forall|id: Seq<char>| !ids.contains(id) by {}
    lemma_filter_keeps(saved, not_among(ids));
    assert(reconciled(none, saved, liked_card(title)) =~= seq![liked_card(title)] + saved);
}

proof fn lemma_filter_keeps(cards: Seq<CardModelView>, p: spec_fn(CardModelView) -> bool)
    requires
        forall|c: CardModelView| #[trigger] p(c),
    ensures
        cards.filter(p) == cards,
    decreases cards.len(),
{
    reveal(Seq::filter);
    if cards.len() > 0 {
        lemma_filter_keeps(cards.drop_last(), p);
        assert(p(cards.last()));
        assert(cards.filter(p) =~= cards);
    }
}

/// The menu of an item shows what its card shows, and whether it is pinned. The card
/// of the liked songs has no menu.
pub proof fn law_menu_shows_the_item(
    home: Option<HomeState>,
    pins: Seq<Seq<char>>,
    id: Seq<char>,
)
    ensures
        library_item(home, pins, LIKED_SONGS_ID@) is None,
        library_item(home, pins, id) matches Some(item) ==> {
            &&& saved_card(home, id) matches Some(card)
            &&& item.id == id
            &&& item.title == card.title@
            &&& item.subtitle == card.subtitle@
            &&& item.art == card.image.deep_view()
            &&& item.kind == card.kind
            &&& item.pinned == pins.contains(id)
        },
        !text::has_prefix(id, "__riff_liked"@) && saved_card(home, id) is Some ==> library_item(
            home,
            pins,
            id,
        ) is Some,
{
    reveal_strlit("__riff_liked_songs__");
    reveal_strlit("__riff_liked");
    assert("__riff_liked_songs__"@.subrange(0, 12) =~= "__riff_liked"@);
    assert(text::occurs_at(LIKED_SONGS_ID@, LIKED_PREFIX@, 0));
}

/// Bringing the cards up to date touches only the list that is shown, and there only
/// the marks and the places.
pub proof fn law_sync_touches_what_is_shown(
    before: LibraryModel,
    after: LibraryModel,
    pins: Seq<Seq<char>>,
    home: HomeState,
)
    requires
        after.synced(before, pins),
        before.app_model.state.browser.home == Some(home),
    ensures
        after.filter == before.filter,
        after.dispatcher == before.dispatcher,
        after.app_model.state.playback == before.app_model.state.playback,
        before.filter == LibraryFilter::All ==> after.app_model == before.app_model
            && after.combined.deep_view() == library_list::synced(
            before.combined.deep_view(),
            pins,
        ),
        before.filter == LibraryFilter::Playlists ==> (after.app_model.state.browser.home
            matches Some(now) && now.albums == home.albums && now.artists == home.artists
            && now.playlists.deep_view() == library_list::synced(home.playlists.deep_view(), pins)),
        before.filter == LibraryFilter::Albums ==> (after.app_model.state.browser.home
            matches Some(now) && now.playlists == home.playlists && now.artists == home.artists
            && now.albums.deep_view() == library_list::synced(home.albums.deep_view(), pins)),
        before.filter == LibraryFilter::Artists ==> (after.app_model.state.browser.home
            matches Some(now) && now.playlists == home.playlists && now.albums == home.albums
            && now.artists.deep_view() == library_list::synced(home.artists.deep_view(), pins)),
{
}

/// It is said that there is nothing to show exactly where there is nothing to show.
pub proof fn law_empty_library_says_so(screen: LibraryScreen)
    requires
        screen.status_is_right(),
    ensures
        screen.model.source() is None ==> screen.status_visible,
        screen.model.source() matches Some(cards) ==> screen.status_visible == (cards@.len() == 0),
{
}

/// The liked songs are known by an id of their own and titled in the user's language;
/// artists are read thirty at a time.
pub proof fn law_liked_songs_have_their_own_card(title: Seq<char>)
    requires
        is_liked_title(title),
    ensures
        exists|label: Seq<char>| #[trigger]
            text::translates(label, "Liked Songs"@) && card_model::is_title_of(
                title,
                "__riff_liked_songs__"@,
                label,
            ),
        LIKED_PREFIX@ == "__riff_liked"@,
        PAGE_ID@ == "library"@,
        ARTISTS_PAGE == 30,
{
}

/// A card is left out exactly if its id is among those given.
pub proof fn law_cards_are_left_out_by_id(ids: Set<Seq<char>>, card: CardModelView)
    ensures
        not_among(ids)(card) <==> !ids.contains(card.id),
{
}

} // verus!

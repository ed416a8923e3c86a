//! Makes the pages, in the layout and size of cards that all pages share.

use vstd::prelude::*;

use crate::actions::{ActionDispatcher, EffectView, ApiCallView};
use crate::card_enums::{CardLayout, CardSize, SortOrder};
use crate::pages::details_album::DetailsModel;
use crate::pages::details_artist::ArtistDetailsModel;
use crate::pages::details_page::DetailsPageModel;
use crate::pages::details_playlist::PlaylistDetailsModel;
use crate::pages::home::{HomeFeedModel, HomeScreen};
use crate::pages::library;
use crate::pages::library::{LibraryFilter, LibraryModel, LibraryScreen};
use crate::pages::library_list::LibraryList;
use crate::pages::pinned_store::PinnedStore;
use crate::pages::radio::{Radio, RadioModel};
use crate::pages::saved_tracks::{SavedTracks, SavedTracksModel};
use crate::pages::saved_tracks;
use crate::pages::search::{SearchFilter, SearchResults};
use crate::pages::search_model::SearchResultsModel;
use crate::pages::settings::SettingsPage;
use crate::state::AppModel;
use crate::text;
use crate::text::gettext;

verus! {

/// A page with the saved items of one kind.
#[derive(Debug, PartialEq, Eq)]
pub struct CardPage {
    /// The translation of the name of the kind.
    pub title: String,
    pub model: LibraryModel,
}

/// The page of a user.
#[derive(Debug, PartialEq, Eq)]
pub struct UserPage {
    pub id: String,
    pub app_model: AppModel,
    pub dispatcher: ActionDispatcher,
}

/// What makes the pages, and owns what they share: the layout and size in which
/// cards are drawn, and the pins. Pages are handed references to these.
#[derive(Debug, PartialEq, Eq)]
pub struct ScreenFactory {
    pub shared_layout: CardLayout,
    pub shared_size: CardSize,
    pub pins: PinnedStore,
}

impl ScreenFactory {
    /// Makes pages in the given layout and size.
    pub fn new(layout: CardLayout, size: CardSize, pins: PinnedStore) -> (r: ScreenFactory)
        ensures
            r == (ScreenFactory { shared_layout: layout, shared_size: size, pins }),
    {
        ScreenFactory { shared_layout: layout, shared_size: size, pins }
    }

    /// The home feed.
    pub fn make_home(&self, app_model: AppModel, dispatcher: ActionDispatcher) -> (r: HomeScreen)
        ensures
            r.model == (HomeFeedModel { app_model, dispatcher }),
            r.wf(),
            r.shortcuts_shown(),
            forall|i: int|
                0 <= i < 6 ==> (#[trigger] r.sections@[i]).shows(app_model.state.browser.home)
                    && r.sections@[i].titled(app_model.state.browser.home),
    {
        HomeScreen::new(HomeFeedModel::new(app_model, dispatcher))
    }

    /// The library, in the order that was kept.
    pub fn make_library_screen(
        &self,
        app_model: AppModel,
        dispatcher: ActionDispatcher,
        sort: SortOrder,
        descending: bool,
    ) -> (r: LibraryScreen)
        requires
            app_model.state.browser.home matches Some(home) ==> home.playlists@.len()
                + home.albums@.len() + home.artists@.len() < u32::MAX,
        ensures
            r.list == (LibraryList {
                sort,
                descending,
                shows_list: self.shared_layout == CardLayout::Horizontal,
            }),
            r.model.filter == LibraryFilter::All,
            r.model.dispatcher == dispatcher,
            r.model.app_model == app_model,
            r.status_is_right(),
            !r.clear_visible,
            exists|empty: LibraryModel|
                empty.combined@.len() == 0 && #[trigger] library::refreshed(
                    empty,
                    r.model,
                    self.pins@,
                ),
    {
        let model = LibraryModel::new(app_model, dispatcher);
        LibraryScreen::new(model, self.shared_layout, sort, descending, &self.pins)
    }

    fn make_card_page(
        &self,
        title: &str,
        filter: LibraryFilter,
        app_model: AppModel,
        dispatcher: ActionDispatcher,
    ) -> (r: CardPage)
        requires
            text::no_nul(title@),
        ensures
            r.model.app_model == app_model,
            r.model.dispatcher == dispatcher,
            r.model.filter == filter,
            r.model.combined@.len() == 0,
            text::translates(r.title@, title@),
    {
        let mut model = LibraryModel::new(app_model, dispatcher);
        model.set_filter(filter);
        CardPage { title: gettext(title), model }
    }

    /// The saved albums.
    pub fn make_saved_albums(&self, app_model: AppModel, dispatcher: ActionDispatcher) -> (r:
        CardPage)
        ensures
            r.model.app_model == app_model,
            r.model.dispatcher == dispatcher,
            r.model.filter == LibraryFilter::Albums,
            r.model.combined@.len() == 0,
            text::translates(r.title@, "Albums"@),
    {
        proof {
            reveal_strlit("Albums");
        }
        self.make_card_page("Albums", LibraryFilter::Albums, app_model, dispatcher)
    }

    /// The saved playlists.
    pub fn make_saved_playlists(&self, app_model: AppModel, dispatcher: ActionDispatcher) -> (r:
        CardPage)
        ensures
            r.model.app_model == app_model,
            r.model.dispatcher == dispatcher,
            r.model.filter == LibraryFilter::Playlists,
            r.model.combined@.len() == 0,
            text::translates(r.title@, "Playlists"@),
    {
        proof {
            reveal_strlit("Playlists");
        }
        self.make_card_page("Playlists", LibraryFilter::Playlists, app_model, dispatcher)
    }

    /// The artists that the user follows.
    pub fn make_saved_artists(&self, app_model: AppModel, dispatcher: ActionDispatcher) -> (r:
        CardPage)
        ensures
            r.model.app_model == app_model,
            r.model.dispatcher == dispatcher,
            r.model.filter == LibraryFilter::Artists,
            r.model.combined@.len() == 0,
            text::translates(r.title@, "Artists"@),
    {
        proof {
            reveal_strlit("Artists");
        }
        self.make_card_page("Artists", LibraryFilter::Artists, app_model, dispatcher)
    }

    /// The liked songs, of which the first are wanted.
    pub fn make_saved_tracks(&self, app_model: AppModel, dispatcher: ActionDispatcher) -> (r:
        SavedTracks)
        ensures
            r.model.base.id@ == Seq::<char>::empty(),
            r.model.base.app_model == app_model,
            r.model.base.dispatcher@ == dispatcher@ + seq![
                EffectView::Call(
                    ApiCallView::LoadSavedTracks { offset: 0, limit: saved_tracks::FIRST_SONGS },
                ),
            ],
    {
        SavedTracks::new(SavedTracksModel::new(app_model, dispatcher))
    }

    /// The page of an album.
    pub fn make_album_details(&self, id: String, app_model: AppModel, dispatcher: ActionDispatcher)
        -> (r: DetailsModel)
        ensures
            r.base == (DetailsPageModel { id, app_model, dispatcher }),
    {
        DetailsModel::new(id, app_model, dispatcher)
    }

    /// The page of a station.
    pub fn make_radio(
        &self,
        seed_id: String,
        seed_name: String,
        app_model: AppModel,
        dispatcher: ActionDispatcher,
    ) -> (r: Radio)
        ensures
            r.model.base == (DetailsPageModel { id: seed_id, app_model, dispatcher }),
            r.model.seed_name == seed_name,
    {
        Radio::new(RadioModel::new(seed_id, seed_name, app_model, dispatcher))
    }

    /// The search page.
    pub fn make_search_results(&self, app_model: AppModel, dispatcher: ActionDispatcher) -> (r:
        SearchResults)
        ensures
            r.model == (SearchResultsModel { app_model, dispatcher, queued_song: None }),
            r.store@.len() == 0,
            r.filter == SearchFilter::All,
    {
        SearchResults::new(SearchResultsModel::new(app_model, dispatcher))
    }

    /// The page of an artist.
    pub fn make_artist_details(&self, id: String, app_model: AppModel, dispatcher: ActionDispatcher)
        -> (r: ArtistDetailsModel)
        ensures
            r.base == (DetailsPageModel { id, app_model, dispatcher }),
    {
        ArtistDetailsModel::new(id, app_model, dispatcher)
    }

    /// The page of a playlist.
    pub fn make_playlist_details(
        &self,
        id: String,
        app_model: AppModel,
        dispatcher: ActionDispatcher,
    ) -> (r: PlaylistDetailsModel)
        ensures
            r.base == (DetailsPageModel { id, app_model, dispatcher }),
    {
        PlaylistDetailsModel::new(id, app_model, dispatcher)
    }

    /// The page of a user.
    pub fn make_user_details(&self, id: String, app_model: AppModel, dispatcher: ActionDispatcher)
        -> (r: UserPage)
        ensures
            r == (UserPage { id, app_model, dispatcher }),
    {
        UserPage { id, app_model, dispatcher }
    }

    /// The settings.
    pub fn make_settings(&self, dispatcher: ActionDispatcher) -> (r: SettingsPage)
        ensures
            r == (SettingsPage { dispatcher }),
    {
        SettingsPage::new(dispatcher)
    }
}

} // verus!

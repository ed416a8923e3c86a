//! The data and the wishes of the search page.

use vstd::prelude::*;

use crate::actions;
use crate::actions::{
    ActionDispatcher, ApiCall, ApiCallView, AppAction, AppActionView, BrowserAction,
    BrowserActionView, EffectView,
};
use crate::api::cached_client::SpotifyResult;
use crate::models::{PlaylistDescription, SearchResults, SongDescription};
use crate::state::AppModel;
use crate::text::str_eq;

verus! {

/// How many results of each kind are read.
pub const RESULTS_LIMIT: usize = 5;

/// The data and the wishes of the search page.
#[derive(Debug, PartialEq, Eq)]
pub struct SearchResultsModel {
    pub app_model: AppModel,
    pub dispatcher: ActionDispatcher,
    /// The song that is to be played once its album is there.
    pub queued_song: Option<SongDescription>,
}

impl SearchResultsModel {
    /// The page.
    pub fn new(app_model: AppModel, dispatcher: ActionDispatcher) -> (r: Self)
        ensures
            r == (SearchResultsModel { app_model, dispatcher, queued_song: None }),
    {
        SearchResultsModel { app_model, dispatcher, queued_song: None }
    }

    /// Only the wishes changed: these were added.
    pub open spec fn wants(self, before: Self, added: Seq<EffectView>) -> bool {
        &&& self.app_model == before.app_model
        &&& self.queued_song == before.queued_song
        &&& self.dispatcher@ == before.dispatcher@ + added
    }

    /// Leaves the page.
    pub fn go_back(&mut self)
        ensures
            final(self).wants(*old(self), seq![actions::browse(BrowserActionView::NavigationPop)]),
    {
        self.dispatcher.dispatch(AppAction::BrowserAction(BrowserAction::NavigationPop));
    }

    /// Takes note of what is searched for.
    pub fn search(&mut self, query: String)
        ensures
            final(self).wants(
                *old(self),
                seq![actions::browse(BrowserActionView::Search(query@))],
            ),
    {
        self.dispatcher.dispatch(AppAction::BrowserAction(BrowserAction::Search(query)));
    }

    /// What is searched for, unless it is empty.
    pub open spec fn query(self) -> Option<Seq<char>> {
        match self.app_model.state.browser.search {
            Some(search) if search.query@.len() > 0 => Some(search.query@),
            _ => None,
        }
    }

    /// What is searched for, unless it is empty.
    pub fn get_query(&self) -> (r: Option<String>)
        ensures
            r.deep_view() == self.query(),
    {
        match &self.app_model.state.browser.search {
            Some(search) => if search.query.as_str().is_empty() {
                None
            } else {
                Some(search.query.clone())
            },
            None => None,
        }
    }

    /// What is searched for; empty where nothing is.
    pub fn current_query(&self) -> (r: String)
        ensures
            r@ == (match self.query() {
                Some(query) => query,
                None => Seq::empty(),
            }),
    {
        match self.get_query() {
            Some(query) => query,
            None => String::new(),
        }
    }

    /// Wants the first results, if anything is searched for.
    pub fn fetch_results(&mut self)
        ensures
            final(self).wants(
                *old(self),
                match old(self).query() {
                    Some(query) => seq![
                        EffectView::Call(
                            ApiCallView::Search { query, offset: 0, limit: RESULTS_LIMIT },
                        ),
                    ],
                    None => Seq::empty(),
                },
            ),
    {
        match self.get_query() {
            Some(query) => {
                self.dispatcher.call(ApiCall::Search { query, offset: 0, limit: RESULTS_LIMIT });
            },
            None => {
                assert(self.dispatcher@ =~= old(self).dispatcher@ + Seq::<EffectView>::empty());
            },
        }
    }

    /// What follows from the results.
    pub fn results_fetched(answer: SpotifyResult<SearchResults>) -> (r: SpotifyResult<AppAction>)
        ensures
            match (answer, r) {
                (Ok(results), Ok(action)) => action == AppAction::BrowserAction(
                    BrowserAction::SetSearchResults(results),
                ),
                (Err(e), Err(f)) => e == f,
                _ => false,
            },
    {
        match answer {
            Ok(results) => Ok(AppAction::BrowserAction(BrowserAction::SetSearchResults(results))),
            Err(e) => Err(e),
        }
    }

    /// The results.
    pub open spec fn results(self) -> Option<SearchResults> {
        match self.app_model.state.browser.search {
            Some(search) => Some(search.results),
            None => None,
        }
    }

    /// The results.
    pub fn get_results(&self) -> (r: Option<&SearchResults>)
        ensures
            match (r, self.results()) {
                (Some(a), Some(b)) => *a == b,
                (None, None) => true,
                _ => false,
            },
    {
        match &self.app_model.state.browser.search {
            Some(search) => Some(&search.results),
            None => None,
        }
    }

    /// The playlists that the user owns.
    pub fn owned_playlists(&self) -> (r: &Vec<PlaylistDescription>)
        ensures
            *r == self.app_model.state.logged_user.owned_playlists,
    {
        &self.app_model.state.logged_user.owned_playlists
    }

    /// Opens the album of the song, which is to be played once the album is there.
    pub fn open_track(&mut self, song: SongDescription)
        ensures
            final(self).app_model == old(self).app_model,
            final(self).queued_song == Some(song),
            final(self).dispatcher@ == old(self).dispatcher@ + seq![
                EffectView::Dispatch(AppActionView::ViewAlbum(song.album.id@)),
            ],
    {
        let id: String = song.album.id.clone();
        self.queued_song = Some(song);
        self.dispatcher.dispatch(AppAction::ViewAlbum(id));
    }

    /// An album is there: the song that was waiting is played if it is in that
    /// album, and waits no more in any case.
    pub fn on_album_loaded(&mut self, id: &str)
        ensures
            final(self).app_model == old(self).app_model,
            final(self).queued_song is None,
            final(self).dispatcher@ == old(self).dispatcher@ + (match old(self).queued_song {
                Some(song) if song.album.id@ == id@ => seq![
                    actions::browse(BrowserActionView::PlaySong(song.id@)),
                ],
                _ => Seq::empty(),
            }),
    {
        match &self.queued_song {
            Some(song) => if str_eq(song.album.id.as_str(), id) {
                let song_id: String = song.id.clone();
                self.dispatcher.dispatch(
                    AppAction::BrowserAction(BrowserAction::PlaySong(song_id)),
                );
            } else {
                assert(self.dispatcher@ =~= old(self).dispatcher@ + Seq::<EffectView>::empty());
            },
            None => {
                assert(self.dispatcher@ =~= old(self).dispatcher@ + Seq::<EffectView>::empty());
            },
        }
        self.queued_song = None;
    }

    /// Opens the page of the album.
    pub fn open_album(&mut self, id: String)
        ensures
            final(self).wants(
                *old(self),
                seq![EffectView::Dispatch(AppActionView::ViewAlbum(id@))],
            ),
    {
        self.dispatcher.dispatch(AppAction::ViewAlbum(id));
    }

    /// Opens the page of the artist.
    pub fn open_artist(&mut self, id: String)
        ensures
            final(self).wants(
                *old(self),
                seq![EffectView::Dispatch(AppActionView::ViewArtist(id@))],
            ),
    {
        self.dispatcher.dispatch(AppAction::ViewArtist(id));
    }

    /// Opens the page of the playlist.
    pub fn open_playlist(&mut self, id: String)
        ensures
            final(self).wants(
                *old(self),
                seq![EffectView::Dispatch(AppActionView::ViewPlaylist(id@))],
            ),
    {
        self.dispatcher.dispatch(AppAction::ViewPlaylist(id));
    }
}

/// What is searched for is what the state has, unless that is empty, and the results
/// are those of the state.
pub proof fn law_search_reads_the_state(model: SearchResultsModel)
    ensures
        model.app_model.state.browser.search is None ==> model.query() is None
            && model.results() is None,
        model.app_model.state.browser.search matches Some(search) ==> {
            &&& model.results() == Some(search.results)
            &&& search.query@.len() == 0 ==> model.query() is None
            &&& search.query@.len() > 0 ==> model.query() == Some(search.query@)
        },
{
}

/// A search asks for five results of each kind.
pub proof fn law_search_asks_for_five()
    ensures
        RESULTS_LIMIT == 5,
{
}

} // verus!

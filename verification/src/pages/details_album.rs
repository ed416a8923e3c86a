//! The page of an album.

use vstd::prelude::*;

use crate::actions;
use crate::actions::{
    ActionDispatcher, ApiCall, ApiCallView, AppAction, AppActionView, AppEvent, BrowserAction,
    BrowserActionView, BrowserEvent, EffectView, PaginationTarget, PaginationTargetView,
    SelectionAction, SelectionActionView, SelectionContext, SelectionContextView, SongsSource,
    SongsSourceView,
};
use crate::api::cached_client::SpotifyResult;
use crate::models;
use crate::models::{
    AlbumDescription, AlbumFullDescription, ImageSet, ImageSetView, SongBatch, SongBatchView,
    SongDescription,
};
use crate::pages::details_page;
use crate::pages::details_page::{
    draw_if, page_failed, start_song, DetailsPageModel, HeaderImageShape, StartSong,
};
use crate::song_list;
use crate::song_list::SongListModel;
use crate::state;
use crate::state::{AppModel, DetailsState};
use crate::text::str_eq;
use crate::widgets::playlist::PlaylistOptions;

verus! {

/// The data and the wishes of an album page.
#[derive(Debug, PartialEq, Eq)]
pub struct DetailsModel {
    pub base: DetailsPageModel,
}

impl DetailsModel {
    /// The page of the album with the given id.
    pub fn new(id: String, app_model: AppModel, dispatcher: ActionDispatcher) -> (r: Self)
        ensures
            r.base == (DetailsPageModel { id, app_model, dispatcher }),
    {
        DetailsModel { base: DetailsPageModel::new(id, app_model, dispatcher) }
    }

    /// The state of this page.
    pub open spec fn page(self) -> Option<DetailsState> {
        state::found(self.base.app_model.state.browser.details@, self.base.id@)
    }

    /// The songs of the album, once the page is there.
    pub open spec fn spec_songs(self) -> Option<SongListModel> {
        match self.page() {
            Some(page) => Some(page.songs),
            None => None,
        }
    }

    /// What is known of the album.
    pub open spec fn spec_info(self) -> Option<AlbumFullDescription> {
        match self.page() {
            Some(page) => page.content,
            None => None,
        }
    }

    /// Only the wishes of the page changed: these were added.
    pub open spec fn wants(self, before: Self, added: Seq<EffectView>) -> bool {
        self.base.wants(before.base, added)
    }

    /// What is known of the album, once it has been read.
    pub fn get_album_info(&self) -> (r: Option<&AlbumFullDescription>)
        ensures
            match (r, self.spec_info()) {
                (Some(info), Some(i)) => *info == i,
                (None, None) => true,
                _ => false,
            },
    {
        match self.base.state().browser.details_state(self.base.id.as_str()) {
            Some(page) => page.content.as_ref(),
            None => None,
        }
    }

    // ── Header ─────────────────────────────────────────────────────────────

    /// The title of the album.
    pub fn get_title(&self) -> (r: Option<String>)
        ensures
            r == (match self.spec_info() {
                Some(info) => Some(info.description.title),
                None => None,
            }),
    {
        match self.get_album_info() {
            Some(info) => Some(info.description.title.clone()),
            None => None,
        }
    }

    /// The names of the album's artists.
    pub fn get_subtitle(&self) -> (r: Option<String>)
        ensures
            r.deep_view() == (match self.spec_info() {
                Some(info) => Some(
                    models::artists_line(info.description.deep_view().artists),
                ),
                None => None,
            }),
    {
        match self.get_album_info() {
            Some(info) => Some(info.description.artists_name()),
            None => None,
        }
    }

    /// The cover of the album.
    pub fn get_artwork(&self) -> (r: Option<ImageSet>)
        ensures
            r.deep_view() == (match self.spec_info() {
                Some(info) => info.description.art.deep_view(),
                None => None::<ImageSetView>,
            }),
    {
        match self.get_album_info() {
            Some(info) => info.description.art.clone(),
            None => None,
        }
    }

    /// What kind of page this is.
    pub fn get_caption(&self) -> (r: &'static str)
        ensures
            r@ == "Album"@,
    {
        "Album"
    }

    /// The shape of the cover.
    pub fn header_image_shape(&self) -> (r: HeaderImageShape)
        ensures
            r == HeaderImageShape::Square,
    {
        HeaderImageShape::Square
    }

    /// Whether the album has been read.
    pub fn is_loaded(&self) -> (r: bool)
        ensures
            r == (self.spec_info() is Some),
    {
        self.get_album_info().is_some()
    }

    /// The subtitle leads to the first artist of the album.
    pub fn on_subtitle_clicked(&mut self)
        ensures
            final(self).wants(
                *old(self),
                match old(self).spec_info() {
                    Some(info) => if info.description.artists@.len() > 0 {
                        seq![
                            EffectView::Dispatch(
                                AppActionView::ViewArtist(info.description.artists@[0].id@),
                            ),
                        ]
                    } else {
                        Seq::empty()
                    },
                    None => Seq::empty(),
                },
            ),
    {
        let artist: Option<String> = match self.get_album_info() {
            Some(info) => if info.description.artists.len() > 0 {
                Some(info.description.artists[0].id.clone())
            } else {
                None
            },
            None => None,
        };
        match artist {
            Some(id) => self.base.want(AppAction::ViewArtist(id)),
            None => {
                assert(self.base.dispatcher@ =~= old(self).base.dispatcher@
                    + Seq::<EffectView>::empty());
            },
        }
    }

    // ── Reading ────────────────────────────────────────────────────────────

    /// Wants the album read.
    pub fn load_page_info(&mut self)
        ensures
            final(self).wants(
                *old(self),
                seq![EffectView::Call(ApiCallView::GetAlbum(old(self).base.id@))],
            ),
    {
        let id: String = self.base.id.clone();
        self.base.want_call(ApiCall::GetAlbum(id));
    }

    /// What follows from the answer: the album is shown; if the service does not
    /// know it, the page closes.
    pub fn page_info_loaded(answer: SpotifyResult<AlbumFullDescription>) -> (r: SpotifyResult<
        AppAction,
    >)
        ensures
            match answer {
                Ok(album) => r matches Ok(action) && action.deep_view()
                    == AppActionView::BrowserAction(
                    BrowserActionView::SetAlbumDetails(album.deep_view()),
                ),
                Err(e) => if details_page::is_unknown_item(e) {
                    r matches Ok(action) && action.deep_view() == AppActionView::BrowserAction(
                        BrowserActionView::NavigationPop,
                    )
                } else {
                    r matches Err(f) && f == e
                },
            },
    {
        match answer {
            Ok(album) => Ok(AppAction::BrowserAction(BrowserAction::SetAlbumDetails(album))),
            Err(e) => page_failed(e),
        }
    }

    /// Wants the next page of tracks, if there is one that has not been asked for.
    pub fn load_more(&mut self)
        ensures
            final(self).wants(
                *old(self),
                match old(self).page() {
                    Some(page) => match page.next_tracks_page.next_offset {
                        Some(offset) => details_page::page_effects(
                            PaginationTargetView::AlbumTracks(old(self).base.id@),
                            ApiCallView::GetAlbumTracks {
                                id: old(self).base.id@,
                                offset,
                                limit: page.next_tracks_page.batch_size,
                            },
                        ),
                        None => Seq::empty(),
                    },
                    None => Seq::empty(),
                },
            ),
    {
        let next: Option<(usize, usize)> = match self.base.state().browser.details_state(
            self.base.id.as_str(),
        ) {
            Some(page) => match page.next_tracks_page.next_offset {
                Some(offset) => Some((offset, page.next_tracks_page.batch_size)),
                None => None,
            },
            None => None,
        };
        match next {
            Some((offset, limit)) => {
                let id: String = self.base.id.clone();
                let target = PaginationTarget::AlbumTracks(self.base.id.clone());
                self.base.want_page(target, ApiCall::GetAlbumTracks { id, offset, limit });
            },
            None => {
                assert(self.base.dispatcher@ =~= old(self).base.dispatcher@
                    + Seq::<EffectView>::empty());
            },
        }
    }

    /// What follows from the answer: the tracks are added to the album.
    pub fn more_loaded(&self, answer: SpotifyResult<SongBatch>) -> (r: SpotifyResult<AppAction>)
        ensures
            match (answer, r) {
                (Ok(batch), Ok(action)) => action.deep_view() == AppActionView::BrowserAction(
                    BrowserActionView::AppendAlbumTracks(self.base.id@, batch.deep_view()),
                ),
                (Err(e), Err(f)) => e == f,
                _ => false,
            },
    {
        match answer {
            Ok(batch) => Ok(
                AppAction::BrowserAction(
                    BrowserAction::AppendAlbumTracks(self.base.id.clone(), batch),
                ),
            ),
            Err(e) => Err(e),
        }
    }

    // ── The library ────────────────────────────────────────────────────────

    /// The album is saved.
    pub open spec fn spec_is_liked(self) -> bool {
        match self.spec_info() {
            Some(info) => info.description.is_liked,
            None => false,
        }
    }

    /// Whether the album is saved.
    pub fn is_liked(&self) -> (r: bool)
        ensures
            r == self.spec_is_liked(),
    {
        match self.get_album_info() {
            Some(info) => info.description.is_liked,
            None => false,
        }
    }

    /// Wants the album saved, or no longer saved, once it has been read.
    pub fn toggle_like(&mut self)
        ensures
            final(self).wants(
                *old(self),
                match old(self).spec_info() {
                    Some(info) => seq![
                        EffectView::Call(
                            if info.description.is_liked {
                                ApiCallView::RemoveSavedAlbum(info.description.id@)
                            } else {
                                ApiCallView::SaveAlbum(info.description.id@)
                            },
                        ),
                    ],
                    None => Seq::empty(),
                },
            ),
    {
        let album: Option<(String, bool)> = match self.get_album_info() {
            Some(info) => Some((info.description.id.clone(), info.description.is_liked)),
            None => None,
        };
        match album {
            Some((id, is_liked)) => if is_liked {
                self.base.want_call(ApiCall::RemoveSavedAlbum(id));
            } else {
                self.base.want_call(ApiCall::SaveAlbum(id));
            },
            None => {
                assert(self.base.dispatcher@ =~= old(self).base.dispatcher@
                    + Seq::<EffectView>::empty());
            },
        }
    }

    /// What follows once the service has saved an album.
    pub fn album_saved(answer: SpotifyResult<AlbumDescription>) -> (r: SpotifyResult<AppAction>)
        ensures
            match (answer, r) {
                (Ok(album), Ok(action)) => action.deep_view() == AppActionView::BrowserAction(
                    BrowserActionView::SaveAlbum(album.deep_view()),
                ),
                (Err(e), Err(f)) => e == f,
                _ => false,
            },
    {
        match answer {
            Ok(album) => Ok(AppAction::BrowserAction(BrowserAction::SaveAlbum(album))),
            Err(e) => Err(e),
        }
    }

    /// What follows once the service has taken an album out of the library.
    pub fn album_removed(id: String, answer: SpotifyResult<()>) -> (r: SpotifyResult<AppAction>)
        ensures
            match (answer, r) {
                (Ok(_), Ok(action)) => action == AppAction::BrowserAction(
                    BrowserAction::UnsaveAlbum(id),
                ),
                (Err(e), Err(f)) => e == f,
                _ => false,
            },
    {
        match answer {
            Ok(_) => Ok(AppAction::BrowserAction(BrowserAction::UnsaveAlbum(id))),
            Err(e) => Err(e),
        }
    }

    // ── Events ─────────────────────────────────────────────────────────────

    /// Whether the header is to be drawn again: this album has been read.
    pub fn should_refresh_details(&self, event: &AppEvent) -> (r: bool)
        ensures
            r == (event matches AppEvent::BrowserEvent(BrowserEvent::AlbumDetailsLoaded(id))
                && id@ == self.base.id@),
    {
        match event {
            AppEvent::BrowserEvent(BrowserEvent::AlbumDetailsLoaded(id)) => str_eq(
                id.as_str(),
                self.base.id.as_str(),
            ),
            _ => false,
        }
    }

    /// Whether the heart is to be drawn again: this album was saved or removed.
    pub fn should_refresh_liked(&self, event: &AppEvent) -> (r: bool)
        ensures
            r == (match event {
                AppEvent::BrowserEvent(BrowserEvent::AlbumSaved(id)) => id@ == self.base.id@,
                AppEvent::BrowserEvent(BrowserEvent::AlbumUnsaved(id)) => id@ == self.base.id@,
                _ => false,
            }),
    {
        match event {
            AppEvent::BrowserEvent(BrowserEvent::AlbumSaved(id)) => str_eq(
                id.as_str(),
                self.base.id.as_str(),
            ),
            AppEvent::BrowserEvent(BrowserEvent::AlbumUnsaved(id)) => str_eq(
                id.as_str(),
                self.base.id.as_str(),
            ),
            _ => false,
        }
    }

    /// What the list of songs offers. All songs of an album have the same cover,
    /// so they are listed without.
    pub fn playlist_options(&self) -> (r: PlaylistOptions)
        ensures
            r == (PlaylistOptions { selects: true, likes: true, autoscrolls: true, covers: false }),
    {
        PlaylistOptions { selects: true, likes: true, autoscrolls: true, covers: false }
    }

    /// The songs of the album.
    pub fn song_list_model(&self) -> (r: &SongListModel)
        requires
            self.spec_songs() is Some,
        ensures
            *r == self.spec_songs()->0,
    {
        let page = self.base.state().browser.details_state(self.base.id.as_str());
        &page.unwrap().songs
    }

    /// This album is what is playing.
    pub open spec fn spec_source_is_playing(self) -> bool {
        self.base.app_model.state.playback.source matches Some(SongsSource::Album(id)) && id@
            == self.base.id@
    }

    /// Whether this album is what is playing.
    pub fn source_is_playing(&self) -> (r: bool)
        ensures
            r == self.spec_source_is_playing(),
    {
        match &self.base.state().playback.source {
            Some(SongsSource::Album(id)) => str_eq(id.as_str(), self.base.id.as_str()),
            _ => false,
        }
    }

    /// What plays the song at the given position: the page of the album around it.
    pub open spec fn play_song_effects(self, position: int, id: Seq<char>) -> Seq<EffectView> {
        let songs = self.spec_songs()->0;
        details_page::play_effects(
            SongsSourceView::Album(self.base.id@),
            if position < songs.songs@.len() && songs.batch_size > 0 {
                Some(
                    song_list::page_around(
                        songs.deep_view(),
                        position,
                        songs.batch_size as int,
                        songs.total,
                    ),
                )
            } else {
                None::<SongBatchView>
            },
            id,
        )
    }

    /// Wants the song at the given position played.
    pub fn play_song_at(&mut self, position: usize, id: &str)
        requires
            old(self).spec_songs() is Some,
        ensures
            final(self).wants(*old(self), old(self).play_song_effects(position as int, id@)),
    {
        let batch = self.song_list_model().song_batch_for(position);
        let source = SongsSource::Album(self.base.id.clone());
        self.base.play_from(source, batch, id);
    }

    /// Wants songs to be selectable, if the user has switched that on.
    pub fn enable_selection(&mut self) -> (r: bool)
        ensures
            r == old(self).base.app_model.state.select_mode,
            final(self).wants(
                *old(self),
                if r {
                    seq![
                        EffectView::Dispatch(
                            AppActionView::EnableSelection(SelectionContextView::Default),
                        ),
                    ]
                } else {
                    Seq::empty()
                },
            ),
    {
        self.base.enable_selection_with_context(SelectionContext::Default)
    }

    /// What can be done with selected songs; nothing unless the user has switched
    /// selecting on.
    pub fn selection_context(&self) -> (r: Option<SelectionContext>)
        ensures
            r == (if self.base.app_model.state.select_mode {
                Some(SelectionContext::Default)
            } else {
                None
            }),
    {
        if self.base.state().select_mode {
            Some(SelectionContext::Default)
        } else {
            None
        }
    }

    // ── Playing ────────────────────────────────────────────────────────────

    /// Wants the song with the given id played, if it is in the list.
    pub fn start_play(&mut self, id: &str)
        requires
            old(self).spec_songs() is Some,
        ensures
            final(self).wants(
                *old(self),
                match song_list::position_of(old(self).spec_songs()->0.deep_view(), id@) {
                    Some(i) => old(self).play_song_effects(i, id@),
                    None => Seq::empty(),
                },
            ),
    {
        let found = self.song_list_model().find_index(id);
        match found {
            Some(i) => self.play_song_at(i, id),
            None => {
                assert(self.base.dispatcher@ =~= old(self).base.dispatcher@
                    + Seq::<EffectView>::empty());
            },
        }
    }

    /// The play button: pauses or resumes what is playing from this page, or
    /// starts with the first song, unshuffled.
    pub fn toggle_play(&mut self)
        requires
            old(self).spec_songs() is Some,
        ensures
            final(self).wants(
                *old(self),
                details_page::toggle_effects(
                    old(self).base.app_model.state,
                    old(self).spec_source_is_playing(),
                ) + (if !old(self).spec_source_is_playing()
                    && old(self).spec_songs()->0.deep_view().len() > 0 {
                    old(self).play_song_effects(0, old(self).spec_songs()->0.deep_view()[0].id)
                } else {
                    Seq::empty()
                }),
            ),
    {
        if self.source_is_playing() {
            self.base.want_pause_or_resume();
            assert(self.base.dispatcher@ =~= old(self).base.dispatcher@ + (
            details_page::toggle_effects(old(self).base.app_model.state, true)
                + Seq::<EffectView>::empty()));
        } else {
            let start = start_song(false, self.song_list_model(), 0);
            self.start_with(false, start);
        }
    }

    /// The shuffle button: starts with any song, shuffled.
    pub fn shuffle_play(&mut self)
        requires
            old(self).spec_songs() is Some,
        ensures
            exists|draw: int|
                0 <= draw && #[trigger] final(self).wants(
                    *old(self),
                    old(self).shuffle_play_effects(draw),
                ),
    {
        let draw: usize = draw_if(true);
        self.shuffle_play_by(draw);
        assert(self.wants(*old(self), old(self).shuffle_play_effects(draw as int)));
    }

    /// What the shuffle button brings about, given the number drawn.
    pub open spec fn shuffle_play_effects(self, draw: int) -> Seq<EffectView> {
        let songs = self.spec_songs()->0.deep_view();
        details_page::shuffle_effects(self.base.app_model.state.playback.is_shuffled, true) + (
        if songs.len() > 0 {
            let i = details_page::start_position(true, songs.len() as int, draw);
            self.play_song_effects(i, songs[i].id)
        } else {
            Seq::empty()
        })
    }

    /// The shuffle button, with the number drawn to choose the first song by.
    pub fn shuffle_play_by(&mut self, draw: usize)
        requires
            old(self).spec_songs() is Some,
        ensures
            final(self).wants(*old(self), old(self).shuffle_play_effects(draw as int)),
    {
        let start = start_song(true, self.song_list_model(), draw);
        self.start_with(true, start);
    }

    /// Starts with the given song, shuffled or not.
    fn start_with(&mut self, shuffle: bool, start: StartSong)
        requires
            old(self).spec_songs() is Some,
        ensures
            final(self).wants(
                *old(self),
                details_page::shuffle_effects(
                    old(self).base.app_model.state.playback.is_shuffled,
                    shuffle,
                ) + (match start {
                    Some((i, id)) => old(self).play_song_effects(i as int, id@),
                    None => Seq::empty(),
                }),
            ),
    {
        self.base.want_shuffle(shuffle);
        match start {
            Some((i, id)) => {
                self.play_song_at(i, id.as_str());
            },
            None => {},
        }
        assert(self.base.dispatcher@ =~= old(self).base.dispatcher@ + (
        details_page::shuffle_effects(old(self).base.app_model.state.playback.is_shuffled, shuffle)
            + (match start {
            Some((i, id)) => old(self).play_song_effects(i as int, id@),
            None => Seq::empty(),
        })));
    }

    // ── Songs ──────────────────────────────────────────────────────────────

    /// Wants the song with the given id selected, if it is in the list.
    pub fn select_song(&mut self, id: &str)
        requires
            old(self).spec_songs() is Some,
        ensures
            final(self).wants(
                *old(self),
                match song_list::position_of(old(self).spec_songs()->0.deep_view(), id@) {
                    Some(i) => seq![
                        actions::select(
                            SelectionActionView::Select(
                                seq![old(self).spec_songs()->0.deep_view()[i]],
                            ),
                        ),
                    ],
                    None => Seq::empty(),
                },
            ),
    {
        let song: Option<SongDescription> = match self.song_list_model().get(id) {
            Some(song) => Some(song.clone()),
            None => None,
        };
        match song {
            Some(song) => {
                let ghost view = song.deep_view();
                let mut songs: Vec<SongDescription> = Vec::new();
                songs.push(song);
                assert(songs.deep_view() =~= seq![view]);
                self.base.want(AppAction::SelectionAction(SelectionAction::Select(songs)));
            },
            None => {
                assert(self.base.dispatcher@ =~= old(self).base.dispatcher@
                    + Seq::<EffectView>::empty());
            },
        }
    }

    /// Wants all songs of the list selected.
    pub fn select_all(&mut self)
        requires
            old(self).spec_songs() is Some,
        ensures
            final(self).wants(
                *old(self),
                seq![
                    actions::select(
                        SelectionActionView::Select(old(self).spec_songs()->0.deep_view()),
                    ),
                ],
            ),
    {
        let songs: Vec<SongDescription> = self.song_list_model().collect();
        self.base.want(AppAction::SelectionAction(SelectionAction::Select(songs)));
    }

    /// Wants the menu of the song shown.
    pub fn open_song_menu(&mut self, song: &SongDescription)
        ensures
            final(self).wants(
                *old(self),
                seq![EffectView::Dispatch(AppActionView::ShowSongMenu(song.deep_view()))],
            ),
    {
        self.base.want(AppAction::ShowSongMenu(song.clone()));
    }
}

/// The page shows the songs and the header of the album with its id.
pub proof fn law_page_is_of_its_item(model: DetailsModel, k: int)
    requires
        0 <= k < model.base.app_model.state.browser.details@.len(),
        model.base.app_model.state.browser.details@[k].id@ == model.base.id@,
        forall|j: int|
            0 <= j < k ==> (#[trigger] model.base.app_model.state.browser.details@[j]).id@
                != model.base.id@,
    ensures
        ({
            let page = model.base.app_model.state.browser.details@[k];
            &&& model.spec_songs() == Some(page.songs)
            &&& model.spec_info() == page.content
            &&& page.content matches Some(info) ==> model.spec_is_liked() == info.description.is_liked
            &&& page.content is None ==> !model.spec_is_liked()
        }),
{
    state::law_pages_are_found_by_their_id(
        model.base.app_model.state.browser.details@,
        model.base.id@,
        k,
    );
}

/// A song of the album is played in the page of the album that holds it; nothing is
/// played from a place where no song has been read.
pub proof fn law_song_is_played_in_its_page(
    before: DetailsModel,
    after: DetailsModel,
    position: int,
    id: Seq<char>,
)
    requires
        before.spec_songs() is Some,
        0 <= position,
        after.wants(before, before.play_song_effects(position, id)),
    ensures
        after.base.app_model == before.base.app_model,
        after.base.id == before.base.id,
        position < before.spec_songs()->0.songs@.len() && before.spec_songs()->0.batch_size > 0
            ==> after.base.dispatcher@ == before.base.dispatcher@.push(
            EffectView::Dispatch(
                AppActionView::PlaybackAction(
                    actions::PlaybackActionView::LoadPagedSongs(
                        SongsSourceView::Album(before.base.id@),
                        song_list::page_around(
                            before.spec_songs()->0.deep_view(),
                            position,
                            before.spec_songs()->0.batch_size as int,
                            before.spec_songs()->0.total,
                        ),
                    ),
                ),
            ),
        ).push(
            EffectView::Dispatch(
                AppActionView::PlaybackAction(actions::PlaybackActionView::Load(id)),
            ),
        ),
        position >= before.spec_songs()->0.songs@.len() || before.spec_songs()->0.batch_size == 0
            ==> after.base.dispatcher@ == before.base.dispatcher@,
{
    assert(before.base.dispatcher@ + Seq::<EffectView>::empty() =~= before.base.dispatcher@);
}

/// Shuffled playback starts with the song that the number drawn falls on, after
/// shuffling was switched on; an empty list starts nothing.
pub proof fn law_shuffle_button_plays_a_song_of_the_page(before: DetailsModel, after: DetailsModel, draw: int)
    requires
        before.spec_songs() is Some,
        0 <= draw < before.spec_songs()->0.songs@.len(),
        after.wants(before, before.shuffle_play_effects(draw)),
    ensures
        after.base.app_model == before.base.app_model,
        after.base.dispatcher@ == before.base.dispatcher@ + (
        if before.base.app_model.state.playback.is_shuffled {
            Seq::<EffectView>::empty()
        } else {
            seq![
                EffectView::Dispatch(
                    AppActionView::PlaybackAction(actions::PlaybackActionView::ToggleShuffle),
                ),
            ]
        }) + before.play_song_effects(draw, before.spec_songs()->0.songs@[draw].id@),
{
    let songs = before.spec_songs()->0;
    assert(songs.deep_view().len() == songs.songs@.len());
    assert(songs.deep_view()[draw] == songs.songs@[draw].deep_view());
    vstd::arithmetic::div_mod::lemma_small_mod(draw as nat, songs.songs@.len());
    assert(before.base.dispatcher@ + Seq::<EffectView>::empty() =~= before.base.dispatcher@);
    assert(after.base.dispatcher@ =~= before.base.dispatcher@ + (
    if before.base.app_model.state.playback.is_shuffled {
        Seq::<EffectView>::empty()
    } else {
        seq![
            EffectView::Dispatch(
                AppActionView::PlaybackAction(actions::PlaybackActionView::ToggleShuffle),
            ),
        ]
    }) + before.play_song_effects(draw, songs.songs@[draw].id@));
}

/// Without songs the shuffle button starts nothing.
pub proof fn law_shuffle_button_needs_songs(before: DetailsModel, draw: int)
    requires
        before.spec_songs() is Some,
        before.spec_songs()->0.songs@.len() == 0,
        before.base.app_model.state.playback.is_shuffled,
    ensures
        before.shuffle_play_effects(draw) == Seq::<EffectView>::empty(),
{
    let songs = before.spec_songs()->0;
    assert(songs.deep_view().len() == songs.songs@.len());
    assert(before.shuffle_play_effects(draw) =~= Seq::<EffectView>::empty());
}

/// The album is what plays only if playback goes through the album with that id.
pub proof fn law_page_plays_only_its_own_source(model: DetailsModel)
    ensures
        model.base.app_model.state.playback.source is None ==> !model.spec_source_is_playing(),
        model.base.app_model.state.playback.source matches Some(source)
            ==> model.spec_source_is_playing() == (source.deep_view() == SongsSourceView::Album(
            model.base.id@,
        )),
{
}

} // verus!

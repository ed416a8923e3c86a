//! The page of an artist.

use vstd::prelude::*;

use crate::actions;
use crate::actions::{
    ActionDispatcher, ApiCall, ApiCallView, AppAction, AppActionView, AppEvent, BrowserAction,
    BrowserActionView, BrowserEvent, EffectView, PaginationTarget, PaginationTargetView,
    SelectionAction, SelectionActionView, SelectionContext, SelectionContextView, SongsSource,
    SongsSourceView,
};
use crate::api::cached_client::SpotifyResult;
use crate::models::{
    AlbumDescription, ArtistDescription, Batch, ImageSet, ImageSetView, SongBatch, SongBatchView,
    SongDescription,
};
use crate::pages::details_page;
use crate::pages::details_page::{
    draw_if, page_failed, start_song, DetailsPageModel, HeaderImageShape, StartSong,
};
use crate::song_list;
use crate::song_list::SongListModel;
use crate::state;
use crate::state::{AppModel, ArtistState};
use crate::text::str_eq;
use crate::widgets::playlist::PlaylistOptions;

verus! {

/// The data and the wishes of an artist page.
#[derive(Debug, PartialEq, Eq)]
pub struct ArtistDetailsModel {
    pub base: DetailsPageModel,
}

impl ArtistDetailsModel {
    /// The page of the artist with the given id.
    pub fn new(id: String, app_model: AppModel, dispatcher: ActionDispatcher) -> (r: Self)
        ensures
            r.base == (DetailsPageModel { id, app_model, dispatcher }),
    {
        ArtistDetailsModel { base: DetailsPageModel::new(id, app_model, dispatcher) }
    }

    /// The state of this page.
    pub open spec fn page(self) -> Option<ArtistState> {
        state::found(self.base.app_model.state.browser.artists@, self.base.id@)
    }

    /// The top tracks of the artist, once the page is there.
    pub open spec fn spec_songs(self) -> Option<SongListModel> {
        match self.page() {
            Some(page) => Some(page.top_tracks),
            None => None,
        }
    }

    /// The name of the artist, once it is known.
    pub open spec fn spec_name(self) -> Option<String> {
        match self.page() {
            Some(page) => page.artist,
            None => None,
        }
    }

    /// Only the wishes of the page changed: these were added.
    pub open spec fn wants(self, before: Self, added: Seq<EffectView>) -> bool {
        self.base.wants(before.base, added)
    }

    // ── Header ─────────────────────────────────────────────────────────────

    /// The name of the artist.
    pub fn get_title(&self) -> (r: Option<String>)
        ensures
            r == self.spec_name(),
    {
        match self.base.state().browser.artist_state(self.base.id.as_str()) {
            Some(page) => page.artist.clone(),
            None => None,
        }
    }

    /// The photo of the artist.
    pub fn get_artwork(&self) -> (r: Option<ImageSet>)
        ensures
            r.deep_view() == (match self.page() {
                Some(page) => page.photo.deep_view(),
                None => None::<ImageSetView>,
            }),
    {
        match self.base.state().browser.artist_state(self.base.id.as_str()) {
            Some(page) => page.photo.clone(),
            None => None,
        }
    }

    /// What kind of page this is.
    pub fn get_caption(&self) -> (r: &'static str)
        ensures
            r@ == "Artist"@,
    {
        "Artist"
    }

    /// The shape of the photo.
    pub fn header_image_shape(&self) -> (r: HeaderImageShape)
        ensures
            r == HeaderImageShape::Circle,
    {
        HeaderImageShape::Circle
    }

    /// Whether the artist has been read.
    pub fn is_loaded(&self) -> (r: bool)
        ensures
            r == (self.spec_name() is Some),
    {
        self.get_title().is_some()
    }

    // ── Reading ────────────────────────────────────────────────────────────

    /// Wants the artist read.
    pub fn load_page_info(&mut self)
        ensures
            final(self).wants(
                *old(self),
                seq![EffectView::Call(ApiCallView::GetArtist(old(self).base.id@))],
            ),
    {
        let id: String = self.base.id.clone();
        self.base.want_call(ApiCall::GetArtist(id));
    }

    /// What follows from the answer: the artist is shown; if the service does not
    /// know the artist, the page closes.
    pub fn page_info_loaded(answer: SpotifyResult<ArtistDescription>) -> (r: SpotifyResult<
        AppAction,
    >)
        ensures
            match answer {
                Ok(artist) => r matches Ok(action) && action.deep_view()
                    == AppActionView::BrowserAction(
                    BrowserActionView::SetArtistDetails(artist.deep_view()),
                ),
                Err(e) => if details_page::is_unknown_item(e) {
                    r matches Ok(action) && action.deep_view() == AppActionView::BrowserAction(
                        BrowserActionView::NavigationPop,
                    )
                } else {
                    r matches Err(f) && f == e
                },
            },
    {
        match answer {
            Ok(artist) => Ok(AppAction::BrowserAction(BrowserAction::SetArtistDetails(artist))),
            Err(e) => page_failed(e),
        }
    }

    /// Wants the next page of albums, if there is one that has not been asked for.
    pub fn load_more(&mut self)
        ensures
            final(self).wants(
                *old(self),
                match old(self).page() {
                    Some(page) => match page.next_page.next_offset {
                        Some(offset) => details_page::page_effects(
                            PaginationTargetView::ArtistReleases(page.next_page_id@),
                            ApiCallView::GetArtistAlbums {
                                id: page.next_page_id@,
                                offset,
                                limit: page.next_page.batch_size,
                            },
                        ),
                        None => Seq::empty(),
                    },
                    None => Seq::empty(),
                },
            ),
    {
        let next: Option<(String, usize, usize)> = match self.base.state().browser.artist_state(
            self.base.id.as_str(),
        ) {
            Some(page) => match page.next_page.next_offset {
                Some(offset) => Some(
                    (page.next_page_id.clone(), offset, page.next_page.batch_size),
                ),
                None => None,
            },
            None => None,
        };
        match next {
            Some((id, offset, limit)) => {
                let target = PaginationTarget::ArtistReleases(id.clone());
                self.base.want_page(target, ApiCall::GetArtistAlbums { id, offset, limit });
            },
            None => {
                assert(self.base.dispatcher@ =~= old(self).base.dispatcher@
                    + Seq::<EffectView>::empty());
            },
        }
    }

    /// What follows from the answer: the albums are added to the artist with the id
    /// that they were read for.
    pub fn more_loaded(id: String, answer: SpotifyResult<Vec<AlbumDescription>>) -> (r:
        SpotifyResult<AppAction>)
        ensures
            match (answer, r) {
                (Ok(albums), Ok(action)) => action.deep_view() == AppActionView::BrowserAction(
                    BrowserActionView::AppendArtistReleases(id@, albums.deep_view()),
                ),
                (Err(e), Err(f)) => e == f,
                _ => false,
            },
    {
        match answer {
            Ok(albums) => Ok(
                AppAction::BrowserAction(BrowserAction::AppendArtistReleases(id, albums)),
            ),
            Err(e) => Err(e),
        }
    }

    // ── Albums ─────────────────────────────────────────────────────────────

    /// Whether there are albums to show.
    pub fn has_items(&self) -> (r: bool)
        ensures
            r == (match self.page() {
                Some(page) => page.albums@.len() > 0,
                None => false,
            }),
    {
        match self.base.state().browser.artist_state(self.base.id.as_str()) {
            Some(page) => page.albums.len() > 0,
            None => false,
        }
    }

    /// Wants the album shown.
    pub fn open_item(&mut self, id: String)
        ensures
            final(self).wants(
                *old(self),
                seq![EffectView::Dispatch(AppActionView::ViewAlbum(id@))],
            ),
    {
        self.base.want(AppAction::ViewAlbum(id));
    }

    // ── The library ────────────────────────────────────────────────────────

    /// The artist is followed.
    pub open spec fn spec_is_liked(self) -> bool {
        match self.page() {
            Some(page) => page.is_followed,
            None => false,
        }
    }

    /// Whether the artist is followed.
    pub fn is_liked(&self) -> (r: bool)
        ensures
            r == self.spec_is_liked(),
    {
        match self.base.state().browser.artist_state(self.base.id.as_str()) {
            Some(page) => page.is_followed,
            None => false,
        }
    }

    /// Wants the artist followed, or no longer followed.
    pub fn toggle_like(&mut self)
        ensures
            final(self).wants(
                *old(self),
                seq![
                    EffectView::Call(
                        if old(self).spec_is_liked() {
                            ApiCallView::UnfollowArtist(old(self).base.id@)
                        } else {
                            ApiCallView::FollowArtist(old(self).base.id@)
                        },
                    ),
                ],
            ),
    {
        let id: String = self.base.id.clone();
        if self.is_liked() {
            self.base.want_call(ApiCall::UnfollowArtist(id));
        } else {
            self.base.want_call(ApiCall::FollowArtist(id));
        }
    }

    /// What follows once the service has done so; a failed call changes nothing.
    pub fn like_toggled(id: String, was_liked: bool, answer: SpotifyResult<()>) -> (r:
        SpotifyResult<AppAction>)
        ensures
            match (answer, r) {
                (Ok(_), Ok(action)) => action == AppAction::BrowserAction(
                    if was_liked {
                        BrowserAction::UnfollowArtist(id)
                    } else {
                        BrowserAction::FollowArtist(id)
                    },
                ),
                (Err(e), Err(f)) => e == f,
                _ => false,
            },
    {
        match answer {
            Ok(_) => if was_liked {
                Ok(AppAction::BrowserAction(BrowserAction::UnfollowArtist(id)))
            } else {
                Ok(AppAction::BrowserAction(BrowserAction::FollowArtist(id)))
            },
            Err(e) => Err(e),
        }
    }

    // ── Events ─────────────────────────────────────────────────────────────

    /// Whether the header is to be drawn again: this artist has been read.
    pub fn should_refresh_details(&self, event: &AppEvent) -> (r: bool)
        ensures
            r == (match event {
                AppEvent::BrowserEvent(BrowserEvent::ArtistDetailsUpdated(id)) => id@ == self.base.id@,
                _ => false,
            }),
    {
        match event {
            AppEvent::BrowserEvent(BrowserEvent::ArtistDetailsUpdated(id)) => str_eq(
                id.as_str(),
                self.base.id.as_str(),
            ),
            _ => false,
        }
    }

    /// This artist is what is playing.
    pub open spec fn spec_source_is_playing(self) -> bool {
        self.base.app_model.state.playback.source matches Some(SongsSource::Artist(id)) && id@ == self.base.id@
    }

    /// Whether this artist is what is playing.
    pub fn source_is_playing(&self) -> (r: bool)
        ensures
            r == self.spec_source_is_playing(),
    {
        match &self.base.state().playback.source {
            Some(SongsSource::Artist(id)) => str_eq(id.as_str(), self.base.id.as_str()),
            _ => false,
        }
    }

    /// What the list of songs offers.
    pub fn playlist_options(&self) -> (r: PlaylistOptions)
        ensures
            r == (PlaylistOptions { selects: true, likes: true, autoscrolls: true, covers: true }),
    {
        PlaylistOptions { selects: true, likes: true, autoscrolls: true, covers: true }
    }

    /// The top tracks of the artist.
    pub fn song_list_model(&self) -> (r: &SongListModel)
        requires
            self.spec_songs() is Some,
        ensures
            *r == self.spec_songs()->0,
    {
        let page = self.base.state().browser.artist_state(self.base.id.as_str());
        &page.unwrap().top_tracks
    }

    /// What plays a song: all top tracks as one page, then the song.
    pub open spec fn play_song_effects(self, position: int, id: Seq<char>) -> Seq<EffectView> {
        let songs = self.spec_songs()->0.deep_view();
        details_page::play_effects(
            SongsSourceView::Artist(self.base.id@),
            Some(
                SongBatchView {
                    songs,
                    batch: Batch {
                        offset: 0,
                        batch_size: songs.len() as usize,
                        total: songs.len() as usize,
                    },
                },
            ),
            id,
        )
    }

    /// Wants the song played.
    pub fn play_song_at(&mut self, position: usize, id: &str)
        requires
            old(self).spec_songs() is Some,
        ensures
            final(self).wants(*old(self), old(self).play_song_effects(position as int, id@)),
    {
        let songs: Vec<SongDescription> = self.song_list_model().collect();
        let total: usize = songs.len();
        assert(songs.deep_view().len() == total);
        let batch = SongBatch { songs, batch: Batch { offset: 0, batch_size: total, total } };
        let source = SongsSource::Artist(self.base.id.clone());
        self.base.play_from(source, Some(batch), id);
    }

    /// Wants songs to be selectable, if the user has switched that on.
    pub fn enable_selection(&mut self) -> (r: bool)
        ensures
            r == old(self).base.app_model.state.select_mode,
            final(self).wants(
                *old(self),
                if r {
                    seq![
                        EffectView::Dispatch(
                            AppActionView::EnableSelection(SelectionContextView::Default),
                        ),
                    ]
                } else {
                    Seq::empty()
                },
            ),
    {
        self.base.enable_selection_with_context(SelectionContext::Default)
    }

    // ── Playing ────────────────────────────────────────────────────────────

    /// Wants the song with the given id played, if it is in the list.
    pub fn start_play(&mut self, id: &str)
        requires
            old(self).spec_songs() is Some,
        ensures
            final(self).wants(
                *old(self),
                match song_list::position_of(old(self).spec_songs()->0.deep_view(), id@) {
                    Some(i) => old(self).play_song_effects(i, id@),
                    None => Seq::empty(),
                },
            ),
    {
        let found = self.song_list_model().find_index(id);
        match found {
            Some(i) => self.play_song_at(i, id),
            None => {
                assert(self.base.dispatcher@ =~= old(self).base.dispatcher@
                    + Seq::<EffectView>::empty());
            },
        }
    }

    /// The play button: pauses or resumes what is playing from this page, or
    /// starts with the first song, unshuffled.
    pub fn toggle_play(&mut self)
        requires
            old(self).spec_songs() is Some,
        ensures
            final(self).wants(
                *old(self),
                details_page::toggle_effects(
                    old(self).base.app_model.state,
                    old(self).spec_source_is_playing(),
                ) + (if !old(self).spec_source_is_playing()
                    && old(self).spec_songs()->0.deep_view().len() > 0 {
                    old(self).play_song_effects(0, old(self).spec_songs()->0.deep_view()[0].id)
                } else {
                    Seq::empty()
                }),
            ),
    {
        if self.source_is_playing() {
            self.base.want_pause_or_resume();
            assert(self.base.dispatcher@ =~= old(self).base.dispatcher@ + (
            details_page::toggle_effects(old(self).base.app_model.state, true)
                + Seq::<EffectView>::empty()));
        } else {
            let start = start_song(false, self.song_list_model(), 0);
            self.start_with(false, start);
        }
    }

    /// The shuffle button: starts with any song, shuffled.
    pub fn shuffle_play(&mut self)
        requires
            old(self).spec_songs() is Some,
        ensures
            exists|draw: int|
                0 <= draw && #[trigger] final(self).wants(
                    *old(self),
                    old(self).shuffle_play_effects(draw),
                ),
    {
        let draw: usize = draw_if(true);
        self.shuffle_play_by(draw);
        assert(self.wants(*old(self), old(self).shuffle_play_effects(draw as int)));
    }

    /// What the shuffle button brings about, given the number drawn.
    pub open spec fn shuffle_play_effects(self, draw: int) -> Seq<EffectView> {
        let songs = self.spec_songs()->0.deep_view();
        details_page::shuffle_effects(self.base.app_model.state.playback.is_shuffled, true) + (
        if songs.len() > 0 {
            let i = details_page::start_position(true, songs.len() as int, draw);
            self.play_song_effects(i, songs[i].id)
        } else {
            Seq::empty()
        })
    }

    /// The shuffle button, with the number drawn to choose the first song by.
    pub fn shuffle_play_by(&mut self, draw: usize)
        requires
            old(self).spec_songs() is Some,
        ensures
            final(self).wants(*old(self), old(self).shuffle_play_effects(draw as int)),
    {
        let start = start_song(true, self.song_list_model(), draw);
        self.start_with(true, start);
    }

    /// Starts with the given song, shuffled or not.
    fn start_with(&mut self, shuffle: bool, start: StartSong)
        requires
            old(self).spec_songs() is Some,
        ensures
            final(self).wants(
                *old(self),
                details_page::shuffle_effects(
                    old(self).base.app_model.state.playback.is_shuffled,
                    shuffle,
                ) + (match start {
                    Some((i, id)) => old(self).play_song_effects(i as int, id@),
                    None => Seq::empty(),
                }),
            ),
    {
        self.base.want_shuffle(shuffle);
        match start {
            Some((i, id)) => {
                self.play_song_at(i, id.as_str());
            },
            None => {},
        }
        assert(self.base.dispatcher@ =~= old(self).base.dispatcher@ + (
        details_page::shuffle_effects(old(self).base.app_model.state.playback.is_shuffled, shuffle)
            + (match start {
            Some((i, id)) => old(self).play_song_effects(i as int, id@),
            None => Seq::empty(),
        })));
    }

    // ── Songs ──────────────────────────────────────────────────────────────

    /// Wants the song with the given id selected, if it is in the list.
    pub fn select_song(&mut self, id: &str)
        requires
            old(self).spec_songs() is Some,
        ensures
            final(self).wants(
                *old(self),
                match song_list::position_of(old(self).spec_songs()->0.deep_view(), id@) {
                    Some(i) => seq![
                        actions::select(
                            SelectionActionView::Select(
                                seq![old(self).spec_songs()->0.deep_view()[i]],
                            ),
                        ),
                    ],
                    None => Seq::empty(),
                },
            ),
    {
        let song: Option<SongDescription> = match self.song_list_model().get(id) {
            Some(song) => Some(song.clone()),
            None => None,
        };
        match song {
            Some(song) => {
                let ghost view = song.deep_view();
                let mut songs: Vec<SongDescription> = Vec::new();
                songs.push(song);
                assert(songs.deep_view() =~= seq![view]);
                self.base.want(AppAction::SelectionAction(SelectionAction::Select(songs)));
            },
            None => {
                assert(self.base.dispatcher@ =~= old(self).base.dispatcher@
                    + Seq::<EffectView>::empty());
            },
        }
    }

    /// Wants the menu of the song shown.
    pub fn open_song_menu(&mut self, song: &SongDescription)
        ensures
            final(self).wants(
                *old(self),
                seq![EffectView::Dispatch(AppActionView::ShowSongMenu(song.deep_view()))],
            ),
    {
        self.base.want(AppAction::ShowSongMenu(song.clone()));
    }
}

/// The page shows the top tracks and the name of the artist with its id.
pub proof fn law_page_is_of_its_item(model: ArtistDetailsModel, k: int)
    requires
        0 <= k < model.base.app_model.state.browser.artists@.len(),
        model.base.app_model.state.browser.artists@[k].id@ == model.base.id@,
        forall|j: int|
            0 <= j < k ==> (#[trigger] model.base.app_model.state.browser.artists@[j]).id@
                != model.base.id@,
    ensures
        ({
            let page = model.base.app_model.state.browser.artists@[k];
            &&& model.spec_songs() == Some(page.top_tracks)
            &&& model.spec_name() == page.artist
            &&& model.spec_is_liked() == page.is_followed
        }),
{
    state::law_pages_are_found_by_their_id(
        model.base.app_model.state.browser.artists@,
        model.base.id@,
        k,
    );
}

/// A top track is played among all top tracks of the artist.
pub proof fn law_song_is_played_among_all(
    before: ArtistDetailsModel,
    after: ArtistDetailsModel,
    position: int,
    id: Seq<char>,
    page: SongBatchView,
)
    requires
        before.spec_songs() is Some,
        0 <= position < before.spec_songs()->0.songs@.len(),
        after.wants(before, before.play_song_effects(position, id)),
        page.songs == before.spec_songs()->0.songs.deep_view(),
        page.batch.offset == 0,
        page.batch.batch_size == before.spec_songs()->0.songs@.len(),
        page.batch.total == before.spec_songs()->0.songs@.len(),
    ensures
        after.base.app_model == before.base.app_model,
        after.base.id == before.base.id,
        after.base.dispatcher@ == before.base.dispatcher@.push(
            EffectView::Dispatch(
                AppActionView::PlaybackAction(
                    actions::PlaybackActionView::LoadPagedSongs(
                        SongsSourceView::Artist(before.base.id@),
                        page,
                    ),
                ),
            ),
        ).push(
            EffectView::Dispatch(
                AppActionView::PlaybackAction(actions::PlaybackActionView::Load(id)),
            ),
        ),
{
    let songs = before.spec_songs()->0;
    assert(songs.songs.len() == songs.songs@.len());
    assert(songs.deep_view().len() == songs.songs@.len());
    assert(page == (SongBatchView {
        songs: songs.deep_view(),
        batch: Batch {
            offset: 0,
            batch_size: songs.deep_view().len() as usize,
            total: songs.deep_view().len() as usize,
        },
    }));
}

/// Shuffled playback starts with the song that the number drawn falls on, after
/// shuffling was switched on; an empty list starts nothing.
pub proof fn law_shuffle_button_plays_a_song_of_the_page(before: ArtistDetailsModel, after: ArtistDetailsModel, draw: int)
    requires
        before.spec_songs() is Some,
        0 <= draw < before.spec_songs()->0.songs@.len(),
        after.wants(before, before.shuffle_play_effects(draw)),
    ensures
        after.base.app_model == before.base.app_model,
        after.base.dispatcher@ == before.base.dispatcher@ + (
        if before.base.app_model.state.playback.is_shuffled {
            Seq::<EffectView>::empty()
        } else {
            seq![
                EffectView::Dispatch(
                    AppActionView::PlaybackAction(actions::PlaybackActionView::ToggleShuffle),
                ),
            ]
        }) + before.play_song_effects(draw, before.spec_songs()->0.songs@[draw].id@),
{
    let songs = before.spec_songs()->0;
    assert(songs.deep_view().len() == songs.songs@.len());
    assert(songs.deep_view()[draw] == songs.songs@[draw].deep_view());
    vstd::arithmetic::div_mod::lemma_small_mod(draw as nat, songs.songs@.len());
    assert(before.base.dispatcher@ + Seq::<EffectView>::empty() =~= before.base.dispatcher@);
    assert(after.base.dispatcher@ =~= before.base.dispatcher@ + (
    if before.base.app_model.state.playback.is_shuffled {
        Seq::<EffectView>::empty()
    } else {
        seq![
            EffectView::Dispatch(
                AppActionView::PlaybackAction(actions::PlaybackActionView::ToggleShuffle),
            ),
        ]
    }) + before.play_song_effects(draw, songs.songs@[draw].id@));
}

/// Without songs the shuffle button starts nothing.
pub proof fn law_shuffle_button_needs_songs(before: ArtistDetailsModel, draw: int)
    requires
        before.spec_songs() is Some,
        before.spec_songs()->0.songs@.len() == 0,
        before.base.app_model.state.playback.is_shuffled,
    ensures
        before.shuffle_play_effects(draw) == Seq::<EffectView>::empty(),
{
    let songs = before.spec_songs()->0;
    assert(songs.deep_view().len() == songs.songs@.len());
    assert(before.shuffle_play_effects(draw) =~= Seq::<EffectView>::empty());
}

/// The artist is what plays only if playback goes through the artist with that id.
pub proof fn law_page_plays_only_its_own_source(model: ArtistDetailsModel)
    ensures
        model.base.app_model.state.playback.source is None ==> !model.spec_source_is_playing(),
        model.base.app_model.state.playback.source matches Some(source)
            ==> model.spec_source_is_playing() == (source.deep_view() == SongsSourceView::Artist(
            model.base.id@,
        )),
{
}

} // verus!

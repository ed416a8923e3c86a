//! The page of a playlist.

use vstd::prelude::*;

use crate::actions;
use crate::actions::{
    ActionDispatcher, ApiCall, ApiCallView, AppAction, AppActionView, AppEvent, BrowserAction,
    BrowserActionView, BrowserEvent, EffectView, PaginationTarget, PaginationTargetView,
    SelectionAction, SelectionActionView, SelectionContext, SelectionContextView, SongsSource,
    SongsSourceView,
};
use crate::api::cached_client::SpotifyResult;
use crate::models::{
    ImageSet, ImageSetView, PlaylistDescription, PlaylistSummary, SongBatch, SongBatchView,
    SongDescription,
};
use crate::pages::details_page;
use crate::pages::details_page::{
    draw_if, page_failed, start_song, DetailsPageModel, HeaderImageShape, StartSong,
};
use crate::song_list;
use crate::song_list::SongListModel;
use crate::state;
use crate::state::{AppModel, PlaylistDetailsState};
use crate::text;
use crate::text::{gettext, str_eq};
use crate::widgets::playlist::PlaylistOptions;

verus! {

/// How many tracks of a playlist are read with it.
pub const FIRST_TRACKS: usize = 100;

/// The data and the wishes of a playlist page.
#[derive(Debug, PartialEq, Eq)]
pub struct PlaylistDetailsModel {
    pub base: DetailsPageModel,
}

impl PlaylistDetailsModel {
    /// The page of the playlist with the given id.
    pub fn new(id: String, app_model: AppModel, dispatcher: ActionDispatcher) -> (r: Self)
        ensures
            r.base == (DetailsPageModel { id, app_model, dispatcher }),
    {
        PlaylistDetailsModel { base: DetailsPageModel::new(id, app_model, dispatcher) }
    }

    /// The state of this page.
    pub open spec fn page(self) -> Option<PlaylistDetailsState> {
        state::found(self.base.app_model.state.browser.playlists@, self.base.id@)
    }

    /// The songs of the playlist, once the page is there.
    pub open spec fn spec_songs(self) -> Option<SongListModel> {
        match self.page() {
            Some(page) => Some(page.songs),
            None => None,
        }
    }

    /// What is known of the playlist.
    pub open spec fn spec_info(self) -> Option<PlaylistDescription> {
        match self.page() {
            Some(page) => page.playlist,
            None => None,
        }
    }

    /// Only the wishes of the page changed: these were added.
    pub open spec fn wants(self, before: Self, added: Seq<EffectView>) -> bool {
        self.base.wants(before.base, added)
    }

    /// What is known of the playlist, once it has been read.
    pub fn get_playlist_info(&self) -> (r: Option<&PlaylistDescription>)
        ensures
            match (r, self.spec_info()) {
                (Some(info), Some(i)) => *info == i,
                (None, None) => true,
                _ => false,
            },
    {
        match self.base.state().browser.playlist_details_state(self.base.id.as_str()) {
            Some(page) => page.playlist.as_ref(),
            None => None,
        }
    }

    /// The playlist belongs to the user that is logged in.
    pub open spec fn spec_is_editable(self) -> bool {
        match (self.base.app_model.state.logged_user.user, self.spec_info()) {
            (Some(user), Some(info)) => info.owner.id@ == user@,
            _ => false,
        }
    }

    /// Whether the playlist belongs to the user that is logged in.
    pub fn is_playlist_editable(&self) -> (r: bool)
        ensures
            r == self.spec_is_editable(),
    {
        match (&self.base.state().logged_user.user, self.get_playlist_info()) {
            (Some(user), Some(info)) => str_eq(info.owner.id.as_str(), user.as_str()),
            _ => false,
        }
    }

    /// Wants the playlist renamed.
    pub fn update_playlist_details(&mut self, title: String)
        ensures
            final(self).wants(
                *old(self),
                seq![
                    EffectView::Call(
                        ApiCallView::UpdatePlaylistDetails { id: old(self).base.id@, name: title@ },
                    ),
                ],
            ),
    {
        let id: String = self.base.id.clone();
        self.base.want_call(ApiCall::UpdatePlaylistDetails { id, name: title });
    }

    /// What follows once the service has renamed a playlist.
    pub fn playlist_renamed(id: String, title: String, answer: SpotifyResult<()>) -> (r:
        SpotifyResult<AppAction>)
        ensures
            match (answer, r) {
                (Ok(_), Ok(action)) => action == AppAction::UpdatePlaylistName(
                    PlaylistSummary { id, title },
                ),
                (Err(e), Err(f)) => e == f,
                _ => false,
            },
    {
        match answer {
            Ok(_) => Ok(AppAction::UpdatePlaylistName(PlaylistSummary { id, title })),
            Err(e) => Err(e),
        }
    }

    // ── Header ─────────────────────────────────────────────────────────────

    /// The title of the playlist.
    pub fn get_title(&self) -> (r: Option<String>)
        ensures
            r == (match self.spec_info() {
                Some(info) => Some(info.title),
                None => None,
            }),
    {
        match self.get_playlist_info() {
            Some(info) => Some(info.title.clone()),
            None => None,
        }
    }

    /// The name of the playlist's owner.
    pub fn get_subtitle(&self) -> (r: Option<String>)
        ensures
            r == (match self.spec_info() {
                Some(info) => Some(info.owner.display_name),
                None => None,
            }),
    {
        match self.get_playlist_info() {
            Some(info) => Some(info.owner.display_name.clone()),
            None => None,
        }
    }

    /// The picture of the playlist.
    pub fn get_artwork(&self) -> (r: Option<ImageSet>)
        ensures
            r.deep_view() == (match self.spec_info() {
                Some(info) => info.art.deep_view(),
                None => None::<ImageSetView>,
            }),
    {
        match self.get_playlist_info() {
            Some(info) => info.art.clone(),
            None => None,
        }
    }

    /// What kind of page this is: a translation of "Playlist".
    pub fn get_caption(&self) -> (r: String)
        ensures
            text::translates(r@, "Playlist"@),
    {
        proof {
            reveal_strlit("Playlist");
        }
        gettext("Playlist")
    }

    /// The shape of the picture.
    pub fn header_image_shape(&self) -> (r: HeaderImageShape)
        ensures
            r == HeaderImageShape::Square,
    {
        HeaderImageShape::Square
    }

    /// Whether the playlist has been read.
    pub fn is_loaded(&self) -> (r: bool)
        ensures
            r == (self.spec_info() is Some),
    {
        self.get_playlist_info().is_some()
    }

    /// The subtitle leads to the owner of the playlist.
    pub fn on_subtitle_clicked(&mut self)
        ensures
            final(self).wants(
                *old(self),
                match old(self).spec_info() {
                    Some(info) => seq![
                        EffectView::Dispatch(AppActionView::ViewUser(info.owner.id@)),
                    ],
                    None => Seq::empty(),
                },
            ),
    {
        let owner: Option<String> = match self.get_playlist_info() {
            Some(info) => Some(info.owner.id.clone()),
            None => None,
        };
        match owner {
            Some(id) => self.base.want(AppAction::ViewUser(id)),
            None => {
                assert(self.base.dispatcher@ =~= old(self).base.dispatcher@
                    + Seq::<EffectView>::empty());
            },
        }
    }

    // ── Reading ────────────────────────────────────────────────────────────

    /// Wants the playlist and its first tracks read.
    pub fn load_page_info(&mut self)
        ensures
            final(self).wants(
                *old(self),
                seq![
                    EffectView::Call(
                        ApiCallView::GetPlaylistAndTracks {
                            id: old(self).base.id@,
                            offset: 0,
                            limit: FIRST_TRACKS,
                        },
                    ),
                ],
            ),
    {
        let id: String = self.base.id.clone();
        self.base.want_call(
            ApiCall::GetPlaylistAndTracks { id, offset: 0, limit: FIRST_TRACKS },
        );
    }

    /// What follows from the answers: the playlist is shown with its tracks. An
    /// error of the tracks comes first; if the service does not know the playlist,
    /// the page closes.
    pub fn page_info_loaded(
        tracks: SpotifyResult<SongBatch>,
        playlist: SpotifyResult<PlaylistDescription>,
    ) -> (r: SpotifyResult<AppAction>)
        ensures
            match tracks {
                Err(e) => r matches Err(f) && f == e,
                Ok(batch) => match playlist {
                    Ok(info) => r matches Ok(action) && action.deep_view()
                        == AppActionView::BrowserAction(
                        BrowserActionView::SetPlaylistDetails(info.deep_view(), batch.deep_view()),
                    ),
                    Err(e) => if details_page::is_unknown_item(e) {
                        r matches Ok(action) && action.deep_view() == AppActionView::BrowserAction(
                            BrowserActionView::NavigationPop,
                        )
                    } else {
                        r matches Err(f) && f == e
                    },
                },
            },
    {
        match tracks {
            Err(e) => Err(e),
            Ok(batch) => match playlist {
                Ok(info) => Ok(
                    AppAction::BrowserAction(BrowserAction::SetPlaylistDetails(info, batch)),
                ),
                Err(e) => page_failed(e),
            },
        }
    }

    /// Wants the next page of tracks, if there is one that has not been asked for.
    pub fn load_more(&mut self)
        ensures
            final(self).wants(
                *old(self),
                match old(self).page() {
                    Some(page) => match page.next_tracks_page.next_offset {
                        Some(offset) => details_page::page_effects(
                            PaginationTargetView::PlaylistTracks(old(self).base.id@),
                            ApiCallView::GetPlaylistTracks {
                                id: old(self).base.id@,
                                offset,
                                limit: page.next_tracks_page.batch_size,
                            },
                        ),
                        None => Seq::empty(),
                    },
                    None => Seq::empty(),
                },
            ),
    {
        let next: Option<(usize, usize)> = match self.base.state().browser.playlist_details_state(
            self.base.id.as_str(),
        ) {
            Some(page) => match page.next_tracks_page.next_offset {
                Some(offset) => Some((offset, page.next_tracks_page.batch_size)),
                None => None,
            },
            None => None,
        };
        match next {
            Some((offset, limit)) => {
                let id: String = self.base.id.clone();
                let target = PaginationTarget::PlaylistTracks(self.base.id.clone());
                self.base.want_page(target, ApiCall::GetPlaylistTracks { id, offset, limit });
            },
            None => {
                assert(self.base.dispatcher@ =~= old(self).base.dispatcher@
                    + Seq::<EffectView>::empty());
            },
        }
    }

    /// What follows from the answer: the tracks are added to the playlist.
    pub fn more_loaded(&self, answer: SpotifyResult<SongBatch>) -> (r: SpotifyResult<AppAction>)
        ensures
            match (answer, r) {
                (Ok(batch), Ok(action)) => action.deep_view() == AppActionView::BrowserAction(
                    BrowserActionView::AppendPlaylistTracks(self.base.id@, batch.deep_view()),
                ),
                (Err(e), Err(f)) => e == f,
                _ => false,
            },
    {
        match answer {
            Ok(batch) => Ok(
                AppAction::BrowserAction(
                    BrowserAction::AppendPlaylistTracks(self.base.id.clone(), batch),
                ),
            ),
            Err(e) => Err(e),
        }
    }

    // ── The library ────────────────────────────────────────────────────────

    /// The playlist is in the user's library.
    pub open spec fn spec_is_liked(self) -> bool {
        self.base.app_model.state.logged_user.playlist_ids.set().contains(self.base.id@)
    }

    /// Whether the playlist is in the user's library.
    pub fn is_liked(&self) -> (r: bool)
        ensures
            r == self.spec_is_liked(),
    {
        self.base.state().logged_user.playlist_ids.contains(self.base.id.as_str())
    }

    /// Whether the playlist can be put in the library: one's own cannot.
    pub fn like_visible(&self) -> (r: bool)
        ensures
            r == !self.spec_is_editable(),
    {
        !self.is_playlist_editable()
    }

    /// Wants the playlist in the library, or out of it.
    pub fn toggle_like(&mut self)
        ensures
            final(self).wants(
                *old(self),
                seq![
                    EffectView::Call(
                        if old(self).spec_is_liked() {
                            ApiCallView::UnfollowPlaylist(old(self).base.id@)
                        } else {
                            ApiCallView::FollowPlaylist(old(self).base.id@)
                        },
                    ),
                ],
            ),
    {
        let id: String = self.base.id.clone();
        if self.is_liked() {
            self.base.want_call(ApiCall::UnfollowPlaylist(id));
        } else {
            self.base.want_call(ApiCall::FollowPlaylist(id));
        }
    }

    /// What follows once the service has done so; a failed call changes nothing.
    pub fn like_toggled(id: String, was_liked: bool, answer: SpotifyResult<()>) -> (r:
        SpotifyResult<AppAction>)
        ensures
            match (answer, r) {
                (Ok(_), Ok(action)) => action == AppAction::BrowserAction(
                    if was_liked {
                        BrowserAction::UnsavePlaylist(id)
                    } else {
                        BrowserAction::SavePlaylist(id)
                    },
                ),
                (Err(e), Err(f)) => e == f,
                _ => false,
            },
    {
        match answer {
            Ok(_) => if was_liked {
                Ok(AppAction::BrowserAction(BrowserAction::UnsavePlaylist(id)))
            } else {
                Ok(AppAction::BrowserAction(BrowserAction::SavePlaylist(id)))
            },
            Err(e) => Err(e),
        }
    }

    // ── Events ─────────────────────────────────────────────────────────────

    /// Whether the header is to be drawn again: this playlist has been read.
    pub fn should_refresh_details(&self, event: &AppEvent) -> (r: bool)
        ensures
            r == (match event {
                AppEvent::BrowserEvent(BrowserEvent::PlaylistDetailsLoaded(id)) => id@ == self.base.id@,
                _ => false,
            }),
    {
        match event {
            AppEvent::BrowserEvent(BrowserEvent::PlaylistDetailsLoaded(id)) => str_eq(
                id.as_str(),
                self.base.id.as_str(),
            ),
            _ => false,
        }
    }

    /// Whether the heart is to be drawn again: this playlist went into the library
    /// or out of it.
    pub fn should_refresh_liked(&self, event: &AppEvent) -> (r: bool)
        ensures
            r == (match event {
                AppEvent::BrowserEvent(BrowserEvent::PlaylistSaved(id)) => id@ == self.base.id@,
                AppEvent::BrowserEvent(BrowserEvent::PlaylistUnsaved(id)) => id@ == self.base.id@,
                _ => false,
            }),
    {
        match event {
            AppEvent::BrowserEvent(BrowserEvent::PlaylistSaved(id)) => str_eq(
                id.as_str(),
                self.base.id.as_str(),
            ),
            AppEvent::BrowserEvent(BrowserEvent::PlaylistUnsaved(id)) => str_eq(
                id.as_str(),
                self.base.id.as_str(),
            ),
            _ => false,
        }
    }

    /// This playlist is what is playing.
    pub open spec fn spec_source_is_playing(self) -> bool {
        self.base.app_model.state.playback.source matches Some(SongsSource::Playlist { id, .. }) && id@ == self.base.id@
    }

    /// Whether this playlist is what is playing.
    pub fn source_is_playing(&self) -> (r: bool)
        ensures
            r == self.spec_source_is_playing(),
    {
        match &self.base.state().playback.source {
            Some(SongsSource::Playlist { id, .. }) => str_eq(id.as_str(), self.base.id.as_str()),
            _ => false,
        }
    }

    /// The title under which the playlist is played; empty until it has been read.
    pub open spec fn source_title(self) -> Seq<char> {
        match self.spec_info() {
            Some(info) => info.title@,
            None => Seq::empty(),
        }
    }

    /// What the list of songs offers.
    pub fn playlist_options(&self) -> (r: PlaylistOptions)
        ensures
            r == (PlaylistOptions { selects: true, likes: true, autoscrolls: true, covers: true }),
    {
        PlaylistOptions { selects: true, likes: true, autoscrolls: true, covers: true }
    }

    /// The songs of the playlist.
    pub fn song_list_model(&self) -> (r: &SongListModel)
        requires
            self.spec_songs() is Some,
        ensures
            *r == self.spec_songs()->0,
    {
        let page = self.base.state().browser.playlist_details_state(self.base.id.as_str());
        &page.unwrap().songs
    }

    /// What plays the song at the given position: the page of the list around it.
    pub open spec fn play_song_effects(self, position: int, id: Seq<char>) -> Seq<EffectView> {
        let songs = self.spec_songs()->0;
        details_page::play_effects(
            SongsSourceView::Playlist { id: self.base.id@, title: self.source_title() },
            if position < songs.songs@.len() && songs.batch_size > 0 {
                Some(
                    song_list::page_around(
                        songs.deep_view(),
                        position,
                        songs.batch_size as int,
                        songs.total,
                    ),
                )
            } else {
                None::<SongBatchView>
            },
            id,
        )
    }

    /// Wants the song at the given position played.
    pub fn play_song_at(&mut self, position: usize, id: &str)
        requires
            old(self).spec_songs() is Some,
        ensures
            final(self).wants(*old(self), old(self).play_song_effects(position as int, id@)),
    {
        let batch = self.song_list_model().song_batch_for(position);
        let source = SongsSource::Playlist {
            id: self.base.id.clone(),
            title: match self.get_title() {
                Some(title) => title,
                None => String::new(),
            },
        };
        self.base.play_from(source, batch, id);
    }

    /// What can be done with selected songs: the songs of one's own playlist can
    /// be taken out of it.
    pub open spec fn spec_selection_context(self) -> SelectionContextView {
        if self.spec_is_editable() {
            SelectionContextView::EditablePlaylist(self.base.id@)
        } else {
            SelectionContextView::Playlist
        }
    }

    /// What can be done with selected songs; nothing unless the user has switched
    /// selecting on.
    pub fn selection_context(&self) -> (r: Option<SelectionContext>)
        ensures
            r.deep_view() == (if self.base.app_model.state.select_mode {
                Some(self.spec_selection_context())
            } else {
                None
            }),
    {
        if !self.base.state().select_mode {
            None
        } else if self.is_playlist_editable() {
            Some(SelectionContext::EditablePlaylist(self.base.id.clone()))
        } else {
            Some(SelectionContext::Playlist)
        }
    }

    /// Wants songs to be selectable, if the user has switched that on.
    pub fn enable_selection(&mut self) -> (r: bool)
        ensures
            r == old(self).base.app_model.state.select_mode,
            final(self).wants(
                *old(self),
                if r {
                    seq![
                        EffectView::Dispatch(
                            AppActionView::EnableSelection(old(self).spec_selection_context()),
                        ),
                    ]
                } else {
                    Seq::empty()
                },
            ),
    {
        match self.selection_context() {
            Some(context) => self.base.enable_selection_with_context(context),
            None => {
                assert(self.base.dispatcher@ =~= old(self).base.dispatcher@
                    + Seq::<EffectView>::empty());
                false
            },
        }
    }

    // ── Playing ────────────────────────────────────────────────────────────

    /// Wants the song with the given id played, if it is in the list.
    pub fn start_play(&mut self, id: &str)
        requires
            old(self).spec_songs() is Some,
        ensures
            final(self).wants(
                *old(self),
                match song_list::position_of(old(self).spec_songs()->0.deep_view(), id@) {
                    Some(i) => old(self).play_song_effects(i, id@),
                    None => Seq::empty(),
                },
            ),
    {
        let found = self.song_list_model().find_index(id);
        match found {
            Some(i) => self.play_song_at(i, id),
            None => {
                assert(self.base.dispatcher@ =~= old(self).base.dispatcher@
                    + Seq::<EffectView>::empty());
            },
        }
    }

    /// The play button: pauses or resumes what is playing from this page, or
    /// starts with the first song, unshuffled.
    pub fn toggle_play(&mut self)
        requires
            old(self).spec_songs() is Some,
        ensures
            final(self).wants(
                *old(self),
                details_page::toggle_effects(
                    old(self).base.app_model.state,
                    old(self).spec_source_is_playing(),
                ) + (if !old(self).spec_source_is_playing()
                    && old(self).spec_songs()->0.deep_view().len() > 0 {
                    old(self).play_song_effects(0, old(self).spec_songs()->0.deep_view()[0].id)
                } else {
                    Seq::empty()
                }),
            ),
    {
        if self.source_is_playing() {
            self.base.want_pause_or_resume();
            assert(self.base.dispatcher@ =~= old(self).base.dispatcher@ + (
            details_page::toggle_effects(old(self).base.app_model.state, true)
                + Seq::<EffectView>::empty()));
        } else {
            let start = start_song(false, self.song_list_model(), 0);
            self.start_with(false, start);
        }
    }

    /// The shuffle button: starts with any song, shuffled.
    pub fn shuffle_play(&mut self)
        requires
            old(self).spec_songs() is Some,
        ensures
            exists|draw: int|
                0 <= draw && #[trigger] final(self).wants(
                    *old(self),
                    old(self).shuffle_play_effects(draw),
                ),
    {
        let draw: usize = draw_if(true);
        self.shuffle_play_by(draw);
        assert(self.wants(*old(self), old(self).shuffle_play_effects(draw as int)));
    }

    /// What the shuffle button brings about, given the number drawn.
    pub open spec fn shuffle_play_effects(self, draw: int) -> Seq<EffectView> {
        let songs = self.spec_songs()->0.deep_view();
        details_page::shuffle_effects(self.base.app_model.state.playback.is_shuffled, true) + (
        if songs.len() > 0 {
            let i = details_page::start_position(true, songs.len() as int, draw);
            self.play_song_effects(i, songs[i].id)
        } else {
            Seq::empty()
        })
    }

    /// The shuffle button, with the number drawn to choose the first song by.
    pub fn shuffle_play_by(&mut self, draw: usize)
        requires
            old(self).spec_songs() is Some,
        ensures
            final(self).wants(*old(self), old(self).shuffle_play_effects(draw as int)),
    {
        let start = start_song(true, self.song_list_model(), draw);
        self.start_with(true, start);
    }

    /// Starts with the given song, shuffled or not.
    fn start_with(&mut self, shuffle: bool, start: StartSong)
        requires
            old(self).spec_songs() is Some,
        ensures
            final(self).wants(
                *old(self),
                details_page::shuffle_effects(
                    old(self).base.app_model.state.playback.is_shuffled,
                    shuffle,
                ) + (match start {
                    Some((i, id)) => old(self).play_song_effects(i as int, id@),
                    None => Seq::empty(),
                }),
            ),
    {
        self.base.want_shuffle(shuffle);
        match start {
            Some((i, id)) => {
                self.play_song_at(i, id.as_str());
            },
            None => {},
        }
        assert(self.base.dispatcher@ =~= old(self).base.dispatcher@ + (
        details_page::shuffle_effects(old(self).base.app_model.state.playback.is_shuffled, shuffle)
            + (match start {
            Some((i, id)) => old(self).play_song_effects(i as int, id@),
            None => Seq::empty(),
        })));
    }

    // ── Songs ──────────────────────────────────────────────────────────────

    /// Wants the song with the given id selected, if it is in the list.
    pub fn select_song(&mut self, id: &str)
        requires
            old(self).spec_songs() is Some,
        ensures
            final(self).wants(
                *old(self),
                match song_list::position_of(old(self).spec_songs()->0.deep_view(), id@) {
                    Some(i) => seq![
                        actions::select(
                            SelectionActionView::Select(
                                seq![old(self).spec_songs()->0.deep_view()[i]],
                            ),
                        ),
                    ],
                    None => Seq::empty(),
                },
            ),
    {
        let song: Option<SongDescription> = match self.song_list_model().get(id) {
            Some(song) => Some(song.clone()),
            None => None,
        };
        match song {
            Some(song) => {
                let ghost view = song.deep_view();
                let mut songs: Vec<SongDescription> = Vec::new();
                songs.push(song);
                assert(songs.deep_view() =~= seq![view]);
                self.base.want(AppAction::SelectionAction(SelectionAction::Select(songs)));
            },
            None => {
                assert(self.base.dispatcher@ =~= old(self).base.dispatcher@
                    + Seq::<EffectView>::empty());
            },
        }
    }

    /// Wants all songs of the list selected.
    pub fn select_all(&mut self)
        requires
            old(self).spec_songs() is Some,
        ensures
            final(self).wants(
                *old(self),
                seq![
                    actions::select(
                        SelectionActionView::Select(old(self).spec_songs()->0.deep_view()),
                    ),
                ],
            ),
    {
        let songs: Vec<SongDescription> = self.song_list_model().collect();
        self.base.want(AppAction::SelectionAction(SelectionAction::Select(songs)));
    }

    /// Wants the menu of the song shown.
    pub fn open_song_menu(&mut self, song: &SongDescription)
        ensures
            final(self).wants(
                *old(self),
                seq![EffectView::Dispatch(AppActionView::ShowSongMenu(song.deep_view()))],
            ),
    {
        self.base.want(AppAction::ShowSongMenu(song.clone()));
    }
}

/// The page shows the songs and the header of the playlist with its id.
pub proof fn law_page_is_of_its_item(model: PlaylistDetailsModel, k: int)
    requires
        0 <= k < model.base.app_model.state.browser.playlists@.len(),
        model.base.app_model.state.browser.playlists@[k].id@ == model.base.id@,
        forall|j: int|
            0 <= j < k ==> (#[trigger] model.base.app_model.state.browser.playlists@[j]).id@
                != model.base.id@,
    ensures
        ({
            let page = model.base.app_model.state.browser.playlists@[k];
            &&& model.spec_songs() == Some(page.songs)
            &&& model.spec_info() == page.playlist
            &&& page.playlist matches Some(info) ==> model.source_title() == info.title@
            &&& page.playlist is None ==> model.source_title().len() == 0
        }),
{
    state::law_pages_are_found_by_their_id(
        model.base.app_model.state.browser.playlists@,
        model.base.id@,
        k,
    );
}

/// A song of the playlist is played in the page of the playlist that holds it;
/// nothing is played from a place where no song has been read.
pub proof fn law_song_is_played_in_its_page(
    before: PlaylistDetailsModel,
    after: PlaylistDetailsModel,
    position: int,
    id: Seq<char>,
)
    requires
        before.spec_songs() is Some,
        0 <= position,
        after.wants(before, before.play_song_effects(position, id)),
    ensures
        after.base.app_model == before.base.app_model,
        after.base.id == before.base.id,
        position < before.spec_songs()->0.songs@.len() && before.spec_songs()->0.batch_size > 0
            ==> after.base.dispatcher@ == before.base.dispatcher@.push(
            EffectView::Dispatch(
                AppActionView::PlaybackAction(
                    actions::PlaybackActionView::LoadPagedSongs(
                        SongsSourceView::Playlist {
                            id: before.base.id@,
                            title: before.source_title(),
                        },
                        song_list::page_around(
                            before.spec_songs()->0.deep_view(),
                            position,
                            before.spec_songs()->0.batch_size as int,
                            before.spec_songs()->0.total,
                        ),
                    ),
                ),
            ),
        ).push(
            EffectView::Dispatch(
                AppActionView::PlaybackAction(actions::PlaybackActionView::Load(id)),
            ),
        ),
        position >= before.spec_songs()->0.songs@.len() || before.spec_songs()->0.batch_size == 0
            ==> after.base.dispatcher@ == before.base.dispatcher@,
{
    assert(before.base.dispatcher@ + Seq::<EffectView>::empty() =~= before.base.dispatcher@);
}

/// Shuffled playback starts with the song that the number drawn falls on, after
/// shuffling was switched on; an empty list starts nothing.
pub proof fn law_shuffle_button_plays_a_song_of_the_page(before: PlaylistDetailsModel, after: PlaylistDetailsModel, draw: int)
    requires
        before.spec_songs() is Some,
        0 <= draw < before.spec_songs()->0.songs@.len(),
        after.wants(before, before.shuffle_play_effects(draw)),
    ensures
        after.base.app_model == before.base.app_model,
        after.base.dispatcher@ == before.base.dispatcher@ + (
        if before.base.app_model.state.playback.is_shuffled {
            Seq::<EffectView>::empty()
        } else {
            seq![
                EffectView::Dispatch(
                    AppActionView::PlaybackAction(actions::PlaybackActionView::ToggleShuffle),
                ),
            ]
        }) + before.play_song_effects(draw, before.spec_songs()->0.songs@[draw].id@),
{
    let songs = before.spec_songs()->0;
    assert(songs.deep_view().len() == songs.songs@.len());
    assert(songs.deep_view()[draw] == songs.songs@[draw].deep_view());
    vstd::arithmetic::div_mod::lemma_small_mod(draw as nat, songs.songs@.len());
    assert(before.base.dispatcher@ + Seq::<EffectView>::empty() =~= before.base.dispatcher@);
    assert(after.base.dispatcher@ =~= before.base.dispatcher@ + (
    if before.base.app_model.state.playback.is_shuffled {
        Seq::<EffectView>::empty()
    } else {
        seq![
            EffectView::Dispatch(
                AppActionView::PlaybackAction(actions::PlaybackActionView::ToggleShuffle),
            ),
        ]
    }) + before.play_song_effects(draw, songs.songs@[draw].id@));
}

/// Without songs the shuffle button starts nothing.
pub proof fn law_shuffle_button_needs_songs(before: PlaylistDetailsModel, draw: int)
    requires
        before.spec_songs() is Some,
        before.spec_songs()->0.songs@.len() == 0,
        before.base.app_model.state.playback.is_shuffled,
    ensures
        before.shuffle_play_effects(draw) == Seq::<EffectView>::empty(),
{
    let songs = before.spec_songs()->0;
    assert(songs.deep_view().len() == songs.songs@.len());
    assert(before.shuffle_play_effects(draw) =~= Seq::<EffectView>::empty());
}

/// The playlist is what plays only if playback goes through the playlist with that
/// id, under whatever title.
pub proof fn law_page_plays_only_its_own_source(model: PlaylistDetailsModel)
    ensures
        model.base.app_model.state.playback.source is None ==> !model.spec_source_is_playing(),
        model.base.app_model.state.playback.source matches Some(source)
            ==> model.spec_source_is_playing() == (source.deep_view()
            matches SongsSourceView::Playlist { id, .. } && id == model.base.id@),
{
}

/// Only the owner of a playlist can change it, and takes songs out of just that one.
pub proof fn law_only_the_owner_edits(model: PlaylistDetailsModel)
    ensures
        model.spec_is_editable() ==> model.spec_selection_context()
            == SelectionContextView::EditablePlaylist(model.base.id@),
        !model.spec_is_editable() ==> model.spec_selection_context()
            == SelectionContextView::Playlist,
        model.spec_info() is None ==> !model.spec_is_editable(),
        model.base.app_model.state.logged_user.user is None ==> !model.spec_is_editable(),
        (model.base.app_model.state.logged_user.user matches Some(user) && model.spec_info() matches Some(
            info,
        ) && info.owner.id@ == user@) ==> model.spec_is_editable(),
        (model.base.app_model.state.logged_user.user matches Some(user) && model.spec_info() matches Some(
            info,
        ) && info.owner.id@ != user@) ==> !model.spec_is_editable(),
        model.spec_is_liked() == model.base.app_model.state.logged_user.playlist_ids.set().contains(
            model.base.id@,
        ),
{
}

/// The first songs of a playlist are read a hundred at once.
pub proof fn law_first_tracks_are_a_hundred()
    ensures
        FIRST_TRACKS == 100,
{
}

} // verus!

//! The page of the liked songs.

use vstd::prelude::*;

use crate::actions;
use crate::actions::{
    ActionDispatcher, ApiCall, ApiCallView, AppAction, AppActionView, AppEvent, BrowserAction,
    BrowserActionView, BrowserEvent, EffectView, LoginEvent, PaginationTarget,
    PaginationTargetView, SelectionAction, SelectionActionView, SelectionContext,
    SelectionContextView, SongsSource, SongsSourceView,
};
use crate::api::cached_client::SpotifyResult;
use crate::models::{SongBatch, SongBatchView, SongDescription};
use crate::pages::details_page;
use crate::pages::details_page::{
    draw_if, start_song, DetailsPageModel, HeaderImageShape, StartSong,
};
use crate::pages::radio;
use crate::pages::radio::track_count;
use crate::song_list;
use crate::song_list::SongListModel;
use crate::state::{AppModel, HomeState};
use crate::text;
use crate::text::gettext;
use crate::widgets::playlist::PlaylistOptions;

verus! {

/// How many liked songs are read at first.
pub const FIRST_SONGS: usize = 50;

/// The data and the wishes of the page of the liked songs.
#[derive(Debug, PartialEq, Eq)]
pub struct SavedTracksModel {
    pub base: DetailsPageModel,
}

impl SavedTracksModel {
    /// The page.
    pub fn new(app_model: AppModel, dispatcher: ActionDispatcher) -> (r: Self)
        ensures
            r.base.id@ == Seq::<char>::empty(),
            r.base.app_model == app_model,
            r.base.dispatcher == dispatcher,
    {
        SavedTracksModel { base: DetailsPageModel::new_without_id(app_model, dispatcher) }
    }

    /// The state of the library.
    pub open spec fn page(self) -> Option<HomeState> {
        self.base.app_model.state.browser.home
    }

    /// The liked songs, once the library is there.
    pub open spec fn spec_songs(self) -> Option<SongListModel> {
        match self.page() {
            Some(home) => Some(home.saved_tracks),
            None => None,
        }
    }

    /// Only the wishes of the page changed: these were added.
    pub open spec fn wants(self, before: Self, added: Seq<EffectView>) -> bool {
        self.base.wants(before.base, added)
    }

    // ── Reading ────────────────────────────────────────────────────────────

    /// Wants the first liked songs read.
    pub fn load_initial(&mut self)
        ensures
            final(self).wants(
                *old(self),
                seq![
                    EffectView::Call(
                        ApiCallView::LoadSavedTracks { offset: 0, limit: FIRST_SONGS },
                    ),
                ],
            ),
    {
        self.base.want_call(ApiCall::LoadSavedTracks { offset: 0, limit: FIRST_SONGS });
    }

    /// What follows from the first songs: they become the liked songs.
    pub fn initial_loaded(batch: SongBatch) -> (r: AppAction)
        ensures
            r == AppAction::BrowserAction(BrowserAction::SetSavedTracks(batch)),
    {
        AppAction::BrowserAction(BrowserAction::SetSavedTracks(batch))
    }

    /// A login that has been completed makes the page read its first songs.
    pub fn on_event(&mut self, event: &AppEvent)
        ensures
            final(self).wants(
                *old(self),
                if event matches AppEvent::LoginEvent(LoginEvent::LoginCompleted) {
                    seq![
                        EffectView::Call(
                            ApiCallView::LoadSavedTracks { offset: 0, limit: FIRST_SONGS },
                        ),
                    ]
                } else {
                    Seq::empty()
                },
            ),
    {
        match event {
            AppEvent::LoginEvent(LoginEvent::LoginCompleted) => self.load_initial(),
            _ => {
                assert(self.base.dispatcher@ =~= old(self).base.dispatcher@
                    + Seq::<EffectView>::empty());
            },
        }
    }

    /// Wants the next page of songs, if there is one that has not been asked for.
    pub fn load_more(&mut self)
        ensures
            final(self).wants(
                *old(self),
                match old(self).page() {
                    Some(home) => match home.next_saved_tracks_page.next_offset {
                        Some(offset) => details_page::page_effects(
                            PaginationTargetView::SavedTracks,
                            ApiCallView::GetSavedTracks {
                                offset,
                                limit: home.next_saved_tracks_page.batch_size,
                            },
                        ),
                        None => Seq::empty(),
                    },
                    None => Seq::empty(),
                },
            ),
    {
        let next: Option<(usize, usize)> = match &self.base.state().browser.home {
            Some(home) => match home.next_saved_tracks_page.next_offset {
                Some(offset) => Some((offset, home.next_saved_tracks_page.batch_size)),
                None => None,
            },
            None => None,
        };
        match next {
            Some((offset, limit)) => {
                self.base.want_page(
                    PaginationTarget::SavedTracks,
                    ApiCall::GetSavedTracks { offset, limit },
                );
            },
            None => {
                assert(self.base.dispatcher@ =~= old(self).base.dispatcher@
                    + Seq::<EffectView>::empty());
            },
        }
    }

    /// What follows from the answer: the songs are added to the liked songs.
    pub fn more_loaded(answer: SpotifyResult<SongBatch>) -> (r: SpotifyResult<AppAction>)
        ensures
            match (answer, r) {
                (Ok(batch), Ok(action)) => action == AppAction::BrowserAction(
                    BrowserAction::AppendSavedTracks(batch),
                ),
                (Err(e), Err(f)) => e == f,
                _ => false,
            },
    {
        match answer {
            Ok(batch) => Ok(AppAction::BrowserAction(BrowserAction::AppendSavedTracks(batch))),
            Err(e) => Err(e),
        }
    }

    // ── Header ─────────────────────────────────────────────────────────────

    /// The title of the page: a translation of "All Tracks".
    pub fn get_title(&self) -> (r: Option<String>)
        ensures
            r matches Some(title) && text::translates(title@, "All Tracks"@),
    {
        proof {
            reveal_strlit("All Tracks");
        }
        Some(gettext("All Tracks"))
    }

    /// How many liked songs there are, in the user's language.
    pub fn get_subtitle(&self) -> (r: Option<String>)
        requires
            self.spec_songs() is Some,
        ensures
            r matches Some(line) && radio::tells_tracks(line@, self.spec_songs()->0.total),
    {
        Some(track_count(self.song_list_model().len()))
    }

    /// The shape of the picture.
    pub fn header_image_shape(&self) -> (r: HeaderImageShape)
        ensures
            r == HeaderImageShape::Square,
    {
        HeaderImageShape::Square
    }

    /// The icon in place of a picture.
    pub fn default_icon(&self) -> (r: Option<&'static str>)
        ensures
            r matches Some(icon) && icon@ == "emote-love-symbolic"@,
    {
        Some("emote-love-symbolic")
    }

    /// The page is always there.
    pub fn is_loaded(&self) -> (r: bool)
        ensures
            r,
    {
        true
    }

    /// Whether the header is to be drawn again: the liked songs have changed.
    pub fn should_refresh_details(&self, event: &AppEvent) -> (r: bool)
        ensures
            r == (event matches AppEvent::BrowserEvent(BrowserEvent::SavedTracksUpdated)),
    {
        match event {
            AppEvent::BrowserEvent(BrowserEvent::SavedTracksUpdated) => true,
            _ => false,
        }
    }

    /// The liked songs are what is playing.
    pub open spec fn spec_source_is_playing(self) -> bool {
        self.base.app_model.state.playback.source matches Some(SongsSource::SavedTracks)
    }

    /// Whether the liked songs are what is playing.
    pub fn source_is_playing(&self) -> (r: bool)
        ensures
            r == self.spec_source_is_playing(),
    {
        match &self.base.state().playback.source {
            Some(SongsSource::SavedTracks) => true,
            _ => false,
        }
    }

    /// What the list of songs offers.
    pub fn playlist_options(&self) -> (r: PlaylistOptions)
        ensures
            r == (PlaylistOptions { selects: true, likes: true, autoscrolls: true, covers: true }),
    {
        PlaylistOptions { selects: true, likes: true, autoscrolls: true, covers: true }
    }

    /// The liked songs.
    pub fn song_list_model(&self) -> (r: &SongListModel)
        requires
            self.spec_songs() is Some,
        ensures
            *r == self.spec_songs()->0,
    {
        let home = self.base.state().browser.home.as_ref();
        &home.unwrap().saved_tracks
    }

    /// What plays the song at the given position: the page of the list around it.
    pub open spec fn play_song_effects(self, position: int, id: Seq<char>) -> Seq<EffectView> {
        let songs = self.spec_songs()->0;
        details_page::play_effects(
            SongsSourceView::SavedTracks,
            if position < songs.songs@.len() && songs.batch_size > 0 {
                Some(
                    song_list::page_around(
                        songs.deep_view(),
                        position,
                        songs.batch_size as int,
                        songs.total,
                    ),
                )
            } else {
                None::<SongBatchView>
            },
            id,
        )
    }

    /// Wants the song at the given position played.
    pub fn play_song_at(&mut self, position: usize, id: &str)
        requires
            old(self).spec_songs() is Some,
        ensures
            final(self).wants(*old(self), old(self).play_song_effects(position as int, id@)),
    {
        let batch = self.song_list_model().song_batch_for(position);
        let source = SongsSource::SavedTracks;
        self.base.play_from(source, batch, id);
    }

    /// What can be done with selected songs; nothing unless the user has switched
    /// selecting on.
    pub fn selection_context(&self) -> (r: Option<SelectionContext>)
        ensures
            r == (if self.base.app_model.state.select_mode {
                Some(SelectionContext::SavedTracks)
            } else {
                None
            }),
    {
        if self.base.state().select_mode {
            Some(SelectionContext::SavedTracks)
        } else {
            None
        }
    }

    /// Wants songs to be selectable, if the user has switched that on.
    pub fn enable_selection(&mut self) -> (r: bool)
        ensures
            r == old(self).base.app_model.state.select_mode,
            final(self).wants(
                *old(self),
                if r {
                    seq![
                        EffectView::Dispatch(
                            AppActionView::EnableSelection(SelectionContextView::SavedTracks),
                        ),
                    ]
                } else {
                    Seq::empty()
                },
            ),
    {
        self.base.enable_selection_with_context(SelectionContext::SavedTracks)
    }

    // ── Playing ────────────────────────────────────────────────────────────

    /// Wants the song with the given id played, if it is in the list.
    pub fn start_play(&mut self, id: &str)
        requires
            old(self).spec_songs() is Some,
        ensures
            final(self).wants(
                *old(self),
                match song_list::position_of(old(self).spec_songs()->0.deep_view(), id@) {
                    Some(i) => old(self).play_song_effects(i, id@),
                    None => Seq::empty(),
                },
            ),
    {
        let found = self.song_list_model().find_index(id);
        match found {
            Some(i) => self.play_song_at(i, id),
            None => {
                assert(self.base.dispatcher@ =~= old(self).base.dispatcher@
                    + Seq::<EffectView>::empty());
            },
        }
    }

    /// The play button: pauses or resumes what is playing from this page, or
    /// starts with the first song, unshuffled.
    pub fn toggle_play(&mut self)
        requires
            old(self).spec_songs() is Some,
        ensures
            final(self).wants(
                *old(self),
                details_page::toggle_effects(
                    old(self).base.app_model.state,
                    old(self).spec_source_is_playing(),
                ) + (if !old(self).spec_source_is_playing()
                    && old(self).spec_songs()->0.deep_view().len() > 0 {
                    old(self).play_song_effects(0, old(self).spec_songs()->0.deep_view()[0].id)
                } else {
                    Seq::empty()
                }),
            ),
    {
        if self.source_is_playing() {
            self.base.want_pause_or_resume();
            assert(self.base.dispatcher@ =~= old(self).base.dispatcher@ + (
            details_page::toggle_effects(old(self).base.app_model.state, true)
                + Seq::<EffectView>::empty()));
        } else {
            let start = start_song(false, self.song_list_model(), 0);
            self.start_with(false, start);
        }
    }

    /// The shuffle button: starts with any song, shuffled.
    pub fn shuffle_play(&mut self)
        requires
            old(self).spec_songs() is Some,
        ensures
            exists|draw: int|
                0 <= draw && #[trigger] final(self).wants(
                    *old(self),
                    old(self).shuffle_play_effects(draw),
                ),
    {
        let draw: usize = draw_if(true);
        self.shuffle_play_by(draw);
        assert(self.wants(*old(self), old(self).shuffle_play_effects(draw as int)));
    }

    /// What the shuffle button brings about, given the number drawn.
    pub open spec fn shuffle_play_effects(self, draw: int) -> Seq<EffectView> {
        let songs = self.spec_songs()->0.deep_view();
        details_page::shuffle_effects(self.base.app_model.state.playback.is_shuffled, true) + (
        if songs.len() > 0 {
            let i = details_page::start_position(true, songs.len() as int, draw);
            self.play_song_effects(i, songs[i].id)
        } else {
            Seq::empty()
        })
    }

    /// The shuffle button, with the number drawn to choose the first song by.
    pub fn shuffle_play_by(&mut self, draw: usize)
        requires
            old(self).spec_songs() is Some,
        ensures
            final(self).wants(*old(self), old(self).shuffle_play_effects(draw as int)),
    {
        let start = start_song(true, self.song_list_model(), draw);
        self.start_with(true, start);
    }

    /// Starts with the given song, shuffled or not.
    fn start_with(&mut self, shuffle: bool, start: StartSong)
        requires
            old(self).spec_songs() is Some,
        ensures
            final(self).wants(
                *old(self),
                details_page::shuffle_effects(
                    old(self).base.app_model.state.playback.is_shuffled,
                    shuffle,
                ) + (match start {
                    Some((i, id)) => old(self).play_song_effects(i as int, id@),
                    None => Seq::empty(),
                }),
            ),
    {
        self.base.want_shuffle(shuffle);
        match start {
            Some((i, id)) => {
                self.play_song_at(i, id.as_str());
            },
            None => {},
        }
        assert(self.base.dispatcher@ =~= old(self).base.dispatcher@ + (
        details_page::shuffle_effects(old(self).base.app_model.state.playback.is_shuffled, shuffle)
            + (match start {
            Some((i, id)) => old(self).play_song_effects(i as int, id@),
            None => Seq::empty(),
        })));
    }

    // ── Songs ──────────────────────────────────────────────────────────────

    /// Wants the song with the given id selected, if it is in the list.
    pub fn select_song(&mut self, id: &str)
        requires
            old(self).spec_songs() is Some,
        ensures
            final(self).wants(
                *old(self),
                match song_list::position_of(old(self).spec_songs()->0.deep_view(), id@) {
                    Some(i) => seq![
                        actions::select(
                            SelectionActionView::Select(
                                seq![old(self).spec_songs()->0.deep_view()[i]],
                            ),
                        ),
                    ],
                    None => Seq::empty(),
                },
            ),
    {
        let song: Option<SongDescription> = match self.song_list_model().get(id) {
            Some(song) => Some(song.clone()),
            None => None,
        };
        match song {
            Some(song) => {
                let ghost view = song.deep_view();
                let mut songs: Vec<SongDescription> = Vec::new();
                songs.push(song);
                assert(songs.deep_view() =~= seq![view]);
                self.base.want(AppAction::SelectionAction(SelectionAction::Select(songs)));
            },
            None => {
                assert(self.base.dispatcher@ =~= old(self).base.dispatcher@
                    + Seq::<EffectView>::empty());
            },
        }
    }

    /// Wants all songs of the list selected.
    pub fn select_all(&mut self)
        requires
            old(self).spec_songs() is Some,
        ensures
            final(self).wants(
                *old(self),
                seq![
                    actions::select(
                        SelectionActionView::Select(old(self).spec_songs()->0.deep_view()),
                    ),
                ],
            ),
    {
        let songs: Vec<SongDescription> = self.song_list_model().collect();
        self.base.want(AppAction::SelectionAction(SelectionAction::Select(songs)));
    }

    /// Wants the menu of the song shown.
    pub fn open_song_menu(&mut self, song: &SongDescription)
        ensures
            final(self).wants(
                *old(self),
                seq![EffectView::Dispatch(AppActionView::ShowSongMenu(song.deep_view()))],
            ),
    {
        self.base.want(AppAction::ShowSongMenu(song.clone()));
    }
}

/// The page of the liked songs as it is first shown: its first songs have been
/// asked for, since the login may have been completed before.
#[derive(Debug, PartialEq, Eq)]
pub struct SavedTracks {
    pub model: SavedTracksModel,
}

impl SavedTracks {
    /// Shows the page.
    pub fn new(model: SavedTracksModel) -> (r: SavedTracks)
        ensures
            r.model.wants(
                model,
                seq![
                    EffectView::Call(
                        ApiCallView::LoadSavedTracks { offset: 0, limit: FIRST_SONGS },
                    ),
                ],
            ),
    {
        let mut model = model;
        model.load_initial();
        SavedTracks { model }
    }
}

/// The page shows the liked songs of the library.
pub proof fn law_page_shows_the_liked_songs(model: SavedTracksModel)
    ensures
        model.base.app_model.state.browser.home matches Some(home) ==> model.spec_songs() == Some(
            home.saved_tracks,
        ),
        model.base.app_model.state.browser.home is None ==> model.spec_songs() is None,
        model.spec_source_is_playing() == (model.base.app_model.state.playback.source matches Some(
            source,
        ) && source.deep_view() == SongsSourceView::SavedTracks),
{
}

/// A liked song is played in the page of the liked songs that holds it; nothing is
/// played from a place where no song has been read.
pub proof fn law_song_is_played_in_its_page(
    before: SavedTracksModel,
    after: SavedTracksModel,
    position: int,
    id: Seq<char>,
)
    requires
        before.spec_songs() is Some,
        0 <= position,
        after.wants(before, before.play_song_effects(position, id)),
    ensures
        after.base.app_model == before.base.app_model,
        after.base.id == before.base.id,
        position < before.spec_songs()->0.songs@.len() && before.spec_songs()->0.batch_size > 0
            ==> after.base.dispatcher@ == before.base.dispatcher@.push(
            EffectView::Dispatch(
                AppActionView::PlaybackAction(
                    actions::PlaybackActionView::LoadPagedSongs(
                        SongsSourceView::SavedTracks,
                        song_list::page_around(
                            before.spec_songs()->0.deep_view(),
                            position,
                            before.spec_songs()->0.batch_size as int,
                            before.spec_songs()->0.total,
                        ),
                    ),
                ),
            ),
        ).push(
            EffectView::Dispatch(
                AppActionView::PlaybackAction(actions::PlaybackActionView::Load(id)),
            ),
        ),
        position >= before.spec_songs()->0.songs@.len() || before.spec_songs()->0.batch_size == 0
            ==> after.base.dispatcher@ == before.base.dispatcher@,
{
    assert(before.base.dispatcher@ + Seq::<EffectView>::empty() =~= before.base.dispatcher@);
}

/// Shuffled playback starts with the song that the number drawn falls on, after
/// shuffling was switched on; an empty list starts nothing.
pub proof fn law_shuffle_button_plays_a_song_of_the_page(before: SavedTracksModel, after: SavedTracksModel, draw: int)
    requires
        before.spec_songs() is Some,
        0 <= draw < before.spec_songs()->0.songs@.len(),
        after.wants(before, before.shuffle_play_effects(draw)),
    ensures
        after.base.app_model == before.base.app_model,
        after.base.dispatcher@ == before.base.dispatcher@ + (
        if before.base.app_model.state.playback.is_shuffled {
            Seq::<EffectView>::empty()
        } else {
            seq![
                EffectView::Dispatch(
                    AppActionView::PlaybackAction(actions::PlaybackActionView::ToggleShuffle),
                ),
            ]
        }) + before.play_song_effects(draw, before.spec_songs()->0.songs@[draw].id@),
{
    let songs = before.spec_songs()->0;
    assert(songs.deep_view().len() == songs.songs@.len());
    assert(songs.deep_view()[draw] == songs.songs@[draw].deep_view());
    vstd::arithmetic::div_mod::lemma_small_mod(draw as nat, songs.songs@.len());
    assert(before.base.dispatcher@ + Seq::<EffectView>::empty() =~= before.base.dispatcher@);
    assert(after.base.dispatcher@ =~= before.base.dispatcher@ + (
    if before.base.app_model.state.playback.is_shuffled {
        Seq::<EffectView>::empty()
    } else {
        seq![
            EffectView::Dispatch(
                AppActionView::PlaybackAction(actions::PlaybackActionView::ToggleShuffle),
            ),
        ]
    }) + before.play_song_effects(draw, songs.songs@[draw].id@));
}

/// Without songs the shuffle button starts nothing.
pub proof fn law_shuffle_button_needs_songs(before: SavedTracksModel, draw: int)
    requires
        before.spec_songs() is Some,
        before.spec_songs()->0.songs@.len() == 0,
        before.base.app_model.state.playback.is_shuffled,
    ensures
        before.shuffle_play_effects(draw) == Seq::<EffectView>::empty(),
{
    let songs = before.spec_songs()->0;
    assert(songs.deep_view().len() == songs.songs@.len());
    assert(before.shuffle_play_effects(draw) =~= Seq::<EffectView>::empty());
}

/// The first liked songs are read fifty at once.
pub proof fn law_first_songs_are_fifty()
    ensures
        FIRST_SONGS == 50,
{
}

} // verus!

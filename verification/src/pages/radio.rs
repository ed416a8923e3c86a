//! The page of a radio station: songs that go with the one it started from.
//!
//! The songs of a station are found by the player, which puts them in the state;
//! the page asks for nothing.

use vstd::prelude::*;

use crate::actions;
use crate::actions::{
    ActionDispatcher, AppAction, AppActionView, AppEvent, BrowserEvent, EffectView,
    SelectionAction, SelectionActionView, SelectionContext, SelectionContextView, SongsSource,
    SongsSourceView,
};
use crate::models::{Batch, SongBatch, SongBatchView, SongDescription};
use crate::pages::details_page;
use crate::pages::details_page::{
    draw_if, start_song, DetailsPageModel, HeaderImageShape, StartSong,
};
use crate::song_list;
use crate::song_list::SongListModel;
use crate::state;
use crate::state::{AppModel, RadioState};
use crate::text;
use crate::text::{decimal_of, fill, gettext, ngettext, str_eq};
use crate::widgets::playlist::PlaylistOptions;

verus! {

/// The data and the wishes of a radio page. The station is known by the id of the
/// song that it started from.
#[derive(Debug, PartialEq, Eq)]
pub struct RadioModel {
    pub base: DetailsPageModel,
    pub seed_name: String,
}

/// How a number of tracks is told, in the wording of the given template.
pub fn count_text(template: &str, count: usize) -> (r: String)
    ensures
        r@ == text::filled(template@, text::decimal(count as nat)),
{
    fill(template, decimal_of(count).as_str())
}

/// The text tells a number of tracks: it is a translation of "{} Track" or
/// "{} Tracks" with the number in it.
pub open spec fn tells_tracks(line: Seq<char>, count: usize) -> bool {
    exists|template: Seq<char>|
        text::translates_count(template, "{} Track"@, "{} Tracks"@, count as u32) && line
            == #[trigger] text::filled(template, text::decimal(count as nat))
}

/// How a number of tracks is told in the user's language.
pub fn track_count(count: usize) -> (r: String)
    ensures
        tells_tracks(r@, count),
{
    proof {
        reveal_strlit("{} Track");
        reveal_strlit("{} Tracks");
    }
    let template: String = ngettext(
        "{} Track",
        "{} Tracks",
        #[verifier::truncate]
        (count as u32),
    );
    count_text(template.as_str(), count)
}

impl RadioModel {
    /// The page of the station that started from the given song.
    pub fn new(
        seed_id: String,
        seed_name: String,
        app_model: AppModel,
        dispatcher: ActionDispatcher,
    ) -> (r: Self)
        ensures
            r.base == (DetailsPageModel { id: seed_id, app_model, dispatcher }),
            r.seed_name == seed_name,
    {
        RadioModel { base: DetailsPageModel::new(seed_id, app_model, dispatcher), seed_name }
    }

    /// The state of this page.
    pub open spec fn page(self) -> Option<RadioState> {
        state::found(self.base.app_model.state.browser.radios@, self.base.id@)
    }

    /// The songs of the station, once the page is there.
    pub open spec fn spec_songs(self) -> Option<SongListModel> {
        match self.page() {
            Some(page) => Some(page.songs),
            None => None,
        }
    }

    /// Only the wishes of the page changed: these were added.
    pub open spec fn wants(self, before: Self, added: Seq<EffectView>) -> bool {
        self.base.wants(before.base, added) && self.seed_name == before.seed_name
    }

    // ── Header ─────────────────────────────────────────────────────────────

    /// The title of the station in the wording of the given template.
    pub fn title_in(&self, template: &str) -> (r: String)
        ensures
            r@ == text::filled(template@, self.seed_name@),
    {
        fill(template, self.seed_name.as_str())
    }

    /// The title of the station in the user's language: a translation of
    /// "Radio · based on {}" with the name of the song in it.
    pub fn get_title(&self) -> (r: Option<String>)
        ensures
            r matches Some(title) && exists|template: Seq<char>|
                text::translates(template, "Radio · based on {}"@) && title@
                    == #[trigger] text::filled(template, self.seed_name@),
    {
        proof {
            reveal_strlit("Radio · based on {}");
        }
        let template: String = gettext("Radio · based on {}");
        Some(self.title_in(template.as_str()))
    }

    /// How many tracks the station has, in the user's language.
    pub fn get_subtitle(&self) -> (r: Option<String>)
        requires
            self.spec_songs() is Some,
        ensures
            r matches Some(line) && tells_tracks(line@, self.spec_songs()->0.total),
    {
        Some(track_count(self.song_list_model().len()))
    }

    /// What kind of page this is: a translation of "Radio".
    pub fn get_caption(&self) -> (r: Option<String>)
        ensures
            r matches Some(caption) && text::translates(caption@, "Radio"@),
    {
        proof {
            reveal_strlit("Radio");
        }
        Some(gettext("Radio"))
    }

    /// The shape of the picture.
    pub fn header_image_shape(&self) -> (r: HeaderImageShape)
        ensures
            r == HeaderImageShape::Square,
    {
        HeaderImageShape::Square
    }

    /// The icon in place of a picture.
    pub fn default_icon(&self) -> (r: Option<&'static str>)
        ensures
            r matches Some(icon) && icon@ == "network-cellular-signal-excellent-symbolic"@,
    {
        Some("network-cellular-signal-excellent-symbolic")
    }

    /// A station is always there: there is nothing to be read for it.
    pub fn is_loaded(&self) -> (r: bool)
        ensures
            r,
    {
        true
    }

    /// Whether the page is to be drawn again: the songs of this station have come.
    pub fn should_refresh_details(&self, event: &AppEvent) -> (r: bool)
        ensures
            r == (match event {
                AppEvent::BrowserEvent(BrowserEvent::RadioTracksLoaded(id)) => id@ == self.base.id@,
                _ => false,
            }),
    {
        match event {
            AppEvent::BrowserEvent(BrowserEvent::RadioTracksLoaded(id)) => str_eq(
                id.as_str(),
                self.base.id.as_str(),
            ),
            _ => false,
        }
    }

    /// This station is what is playing.
    pub open spec fn spec_source_is_playing(self) -> bool {
        self.base.app_model.state.playback.source matches Some(SongsSource::Radio { seed_id: id, .. }) && id@ == self.base.id@
    }

    /// Whether this station is what is playing.
    pub fn source_is_playing(&self) -> (r: bool)
        ensures
            r == self.spec_source_is_playing(),
    {
        match &self.base.state().playback.source {
            Some(SongsSource::Radio { seed_id: id, .. }) => str_eq(id.as_str(), self.base.id.as_str()),
            _ => false,
        }
    }

    /// What the list of songs offers.
    pub fn playlist_options(&self) -> (r: PlaylistOptions)
        ensures
            r == (PlaylistOptions { selects: true, likes: true, autoscrolls: true, covers: true }),
    {
        PlaylistOptions { selects: true, likes: true, autoscrolls: true, covers: true }
    }

    /// The songs of the station.
    pub fn song_list_model(&self) -> (r: &SongListModel)
        requires
            self.spec_songs() is Some,
        ensures
            *r == self.spec_songs()->0,
    {
        let page = self.base.state().browser.radio_state(self.base.id.as_str());
        &page.unwrap().songs
    }

    /// What plays the song at the given position: the whole station as one page, then
    /// the song. Where no song is at the position, nothing is played.
    pub open spec fn play_song_effects(self, position: int, id: Seq<char>) -> Seq<EffectView> {
        let songs = self.spec_songs()->0.deep_view();
        details_page::play_effects(
            SongsSourceView::Radio { seed_id: self.base.id@, seed_name: self.seed_name@ },
            if position < songs.len() {
                Some(
                    SongBatchView {
                        songs,
                        batch: Batch {
                            offset: 0,
                            batch_size: songs.len() as usize,
                            total: songs.len() as usize,
                        },
                    },
                )
            } else {
                None::<SongBatchView>
            },
            id,
        )
    }

    /// Wants the song at the given position played.
    pub fn play_song_at(&mut self, position: usize, id: &str)
        requires
            old(self).spec_songs() is Some,
        ensures
            final(self).wants(*old(self), old(self).play_song_effects(position as int, id@)),
    {
        let songs: Vec<SongDescription> = self.song_list_model().collect();
        let total: usize = songs.len();
        assert(songs.deep_view().len() == total);
        let batch: Option<SongBatch> = if position < total {
            Some(SongBatch { songs, batch: Batch { offset: 0, batch_size: total, total } })
        } else {
            None
        };
        let source = self.source();
        self.base.play_from(source, batch, id);
    }

    /// What is playing when this station is.
    pub fn source(&self) -> (r: SongsSource)
        ensures
            r.deep_view() == (SongsSourceView::Radio {
                seed_id: self.base.id@,
                seed_name: self.seed_name@,
            }),
    {
        SongsSource::Radio { seed_id: self.base.id.clone(), seed_name: self.seed_name.clone() }
    }

    /// Wants songs to be selectable, if the user has switched that on.
    pub fn enable_selection(&mut self) -> (r: bool)
        ensures
            r == old(self).base.app_model.state.select_mode,
            final(self).wants(
                *old(self),
                if r {
                    seq![
                        EffectView::Dispatch(
                            AppActionView::EnableSelection(SelectionContextView::Default),
                        ),
                    ]
                } else {
                    Seq::empty()
                },
            ),
    {
        self.base.enable_selection_with_context(SelectionContext::Default)
    }

    // ── Playing ────────────────────────────────────────────────────────────

    /// Wants the song with the given id played, if it is in the list.
    pub fn start_play(&mut self, id: &str)
        requires
            old(self).spec_songs() is Some,
        ensures
            final(self).wants(
                *old(self),
                match song_list::position_of(old(self).spec_songs()->0.deep_view(), id@) {
                    Some(i) => old(self).play_song_effects(i, id@),
                    None => Seq::empty(),
                },
            ),
    {
        let found = self.song_list_model().find_index(id);
        match found {
            Some(i) => self.play_song_at(i, id),
            None => {
                assert(self.base.dispatcher@ =~= old(self).base.dispatcher@
                    + Seq::<EffectView>::empty());
            },
        }
    }

    /// The play button: pauses or resumes what is playing from this page, or
    /// starts with the first song, unshuffled.
    pub fn toggle_play(&mut self)
        requires
            old(self).spec_songs() is Some,
        ensures
            final(self).wants(
                *old(self),
                details_page::toggle_effects(
                    old(self).base.app_model.state,
                    old(self).spec_source_is_playing(),
                ) + (if !old(self).spec_source_is_playing()
                    && old(self).spec_songs()->0.deep_view().len() > 0 {
                    old(self).play_song_effects(0, old(self).spec_songs()->0.deep_view()[0].id)
                } else {
                    Seq::empty()
                }),
            ),
    {
        if self.source_is_playing() {
            self.base.want_pause_or_resume();
            assert(self.base.dispatcher@ =~= old(self).base.dispatcher@ + (
            details_page::toggle_effects(old(self).base.app_model.state, true)
                + Seq::<EffectView>::empty()));
        } else {
            let start = start_song(false, self.song_list_model(), 0);
            self.start_with(false, start);
        }
    }

    /// The shuffle button: starts with any song, shuffled.
    pub fn shuffle_play(&mut self)
        requires
            old(self).spec_songs() is Some,
        ensures
            exists|draw: int|
                0 <= draw && #[trigger] final(self).wants(
                    *old(self),
                    old(self).shuffle_play_effects(draw),
                ),
    {
        let draw: usize = draw_if(true);
        self.shuffle_play_by(draw);
        assert(self.wants(*old(self), old(self).shuffle_play_effects(draw as int)));
    }

    /// What the shuffle button brings about, given the number drawn.
    pub open spec fn shuffle_play_effects(self, draw: int) -> Seq<EffectView> {
        let songs = self.spec_songs()->0.deep_view();
        details_page::shuffle_effects(self.base.app_model.state.playback.is_shuffled, true) + (
        if songs.len() > 0 {
            let i = details_page::start_position(true, songs.len() as int, draw);
            self.play_song_effects(i, songs[i].id)
        } else {
            Seq::empty()
        })
    }

    /// The shuffle button, with the number drawn to choose the first song by.
    pub fn shuffle_play_by(&mut self, draw: usize)
        requires
            old(self).spec_songs() is Some,
        ensures
            final(self).wants(*old(self), old(self).shuffle_play_effects(draw as int)),
    {
        let start = start_song(true, self.song_list_model(), draw);
        self.start_with(true, start);
    }

    /// Starts with the given song, shuffled or not.
    fn start_with(&mut self, shuffle: bool, start: StartSong)
        requires
            old(self).spec_songs() is Some,
        ensures
            final(self).wants(
                *old(self),
                details_page::shuffle_effects(
                    old(self).base.app_model.state.playback.is_shuffled,
                    shuffle,
                ) + (match start {
                    Some((i, id)) => old(self).play_song_effects(i as int, id@),
                    None => Seq::empty(),
                }),
            ),
    {
        self.base.want_shuffle(shuffle);
        match start {
            Some((i, id)) => {
                self.play_song_at(i, id.as_str());
            },
            None => {},
        }
        assert(self.base.dispatcher@ =~= old(self).base.dispatcher@ + (
        details_page::shuffle_effects(old(self).base.app_model.state.playback.is_shuffled, shuffle)
            + (match start {
            Some((i, id)) => old(self).play_song_effects(i as int, id@),
            None => Seq::empty(),
        })));
    }

    // ── Songs ──────────────────────────────────────────────────────────────

    /// Wants the song with the given id selected, if it is in the list.
    pub fn select_song(&mut self, id: &str)
        requires
            old(self).spec_songs() is Some,
        ensures
            final(self).wants(
                *old(self),
                match song_list::position_of(old(self).spec_songs()->0.deep_view(), id@) {
                    Some(i) => seq![
                        actions::select(
                            SelectionActionView::Select(
                                seq![old(self).spec_songs()->0.deep_view()[i]],
                            ),
                        ),
                    ],
                    None => Seq::empty(),
                },
            ),
    {
        let song: Option<SongDescription> = match self.song_list_model().get(id) {
            Some(song) => Some(song.clone()),
            None => None,
        };
        match song {
            Some(song) => {
                let ghost view = song.deep_view();
                let mut songs: Vec<SongDescription> = Vec::new();
                songs.push(song);
                assert(songs.deep_view() =~= seq![view]);
                self.base.want(AppAction::SelectionAction(SelectionAction::Select(songs)));
            },
            None => {
                assert(self.base.dispatcher@ =~= old(self).base.dispatcher@
                    + Seq::<EffectView>::empty());
            },
        }
    }

    /// Wants all songs of the list selected.
    pub fn select_all(&mut self)
        requires
            old(self).spec_songs() is Some,
        ensures
            final(self).wants(
                *old(self),
                seq![
                    actions::select(
                        SelectionActionView::Select(old(self).spec_songs()->0.deep_view()),
                    ),
                ],
            ),
    {
        let songs: Vec<SongDescription> = self.song_list_model().collect();
        self.base.want(AppAction::SelectionAction(SelectionAction::Select(songs)));
    }

    /// Wants the menu of the song shown.
    pub fn open_song_menu(&mut self, song: &SongDescription)
        ensures
            final(self).wants(
                *old(self),
                seq![EffectView::Dispatch(AppActionView::ShowSongMenu(song.deep_view()))],
            ),
    {
        self.base.want(AppAction::ShowSongMenu(song.clone()));
    }
}

/// The page of a station. There is nothing to be read when it opens: the songs come
/// from the player.
#[derive(Debug, PartialEq, Eq)]
pub struct Radio {
    pub model: RadioModel,
}

impl Radio {
    /// Shows the page.
    pub fn new(model: RadioModel) -> (r: Radio)
        ensures
            r.model == model,
    {
        Radio { model }
    }
}

/// The page shows the songs of the station with its id.
pub proof fn law_page_is_of_its_item(model: RadioModel, k: int)
    requires
        0 <= k < model.base.app_model.state.browser.radios@.len(),
        model.base.app_model.state.browser.radios@[k].id@ == model.base.id@,
        forall|j: int|
            0 <= j < k ==> (#[trigger] model.base.app_model.state.browser.radios@[j]).id@
                != model.base.id@,
    ensures
        ({
            let page = model.base.app_model.state.browser.radios@[k];
            model.spec_songs() == Some(page.songs)
        }),
{
    state::law_pages_are_found_by_their_id(
        model.base.app_model.state.browser.radios@,
        model.base.id@,
        k,
    );
}

/// A song is played among all songs of the station.
pub proof fn law_song_is_played_among_all(
    before: RadioModel,
    after: RadioModel,
    position: int,
    id: Seq<char>,
    page: SongBatchView,
)
    requires
        before.spec_songs() is Some,
        0 <= position < before.spec_songs()->0.songs@.len(),
        after.wants(before, before.play_song_effects(position, id)),
        page.songs == before.spec_songs()->0.songs.deep_view(),
        page.batch.offset == 0,
        page.batch.batch_size == before.spec_songs()->0.songs@.len(),
        page.batch.total == before.spec_songs()->0.songs@.len(),
    ensures
        after.base.app_model == before.base.app_model,
        after.base.id == before.base.id,
        after.base.dispatcher@ == before.base.dispatcher@.push(
            EffectView::Dispatch(
                AppActionView::PlaybackAction(
                    actions::PlaybackActionView::LoadPagedSongs(
                        SongsSourceView::Radio {
                            seed_id: before.base.id@,
                            seed_name: before.seed_name@,
                        },
                        page,
                    ),
                ),
            ),
        ).push(
            EffectView::Dispatch(
                AppActionView::PlaybackAction(actions::PlaybackActionView::Load(id)),
            ),
        ),
{
    let songs = before.spec_songs()->0;
    assert(songs.songs.len() == songs.songs@.len());
    assert(songs.deep_view().len() == songs.songs@.len());
    assert(page == (SongBatchView {
        songs: songs.deep_view(),
        batch: Batch {
            offset: 0,
            batch_size: songs.deep_view().len() as usize,
            total: songs.deep_view().len() as usize,
        },
    }));
}

/// Shuffled playback starts with the song that the number drawn falls on, after
/// shuffling was switched on; an empty list starts nothing.
pub proof fn law_shuffle_button_plays_a_song_of_the_page(before: RadioModel, after: RadioModel, draw: int)
    requires
        before.spec_songs() is Some,
        0 <= draw < before.spec_songs()->0.songs@.len(),
        after.wants(before, before.shuffle_play_effects(draw)),
    ensures
        after.base.app_model == before.base.app_model,
        after.base.dispatcher@ == before.base.dispatcher@ + (
        if before.base.app_model.state.playback.is_shuffled {
            Seq::<EffectView>::empty()
        } else {
            seq![
                EffectView::Dispatch(
                    AppActionView::PlaybackAction(actions::PlaybackActionView::ToggleShuffle),
                ),
            ]
        }) + before.play_song_effects(draw, before.spec_songs()->0.songs@[draw].id@),
{
    let songs = before.spec_songs()->0;
    assert(songs.deep_view().len() == songs.songs@.len());
    assert(songs.deep_view()[draw] == songs.songs@[draw].deep_view());
    vstd::arithmetic::div_mod::lemma_small_mod(draw as nat, songs.songs@.len());
    assert(before.base.dispatcher@ + Seq::<EffectView>::empty() =~= before.base.dispatcher@);
    assert(after.base.dispatcher@ =~= before.base.dispatcher@ + (
    if before.base.app_model.state.playback.is_shuffled {
        Seq::<EffectView>::empty()
    } else {
        seq![
            EffectView::Dispatch(
                AppActionView::PlaybackAction(actions::PlaybackActionView::ToggleShuffle),
            ),
        ]
    }) + before.play_song_effects(draw, songs.songs@[draw].id@));
}

/// Without songs the shuffle button starts nothing.
pub proof fn law_shuffle_button_needs_songs(before: RadioModel, draw: int)
    requires
        before.spec_songs() is Some,
        before.spec_songs()->0.songs@.len() == 0,
        before.base.app_model.state.playback.is_shuffled,
    ensures
        before.shuffle_play_effects(draw) == Seq::<EffectView>::empty(),
{
    let songs = before.spec_songs()->0;
    assert(songs.deep_view().len() == songs.songs@.len());
    assert(before.shuffle_play_effects(draw) =~= Seq::<EffectView>::empty());
}

/// The station is what plays only if playback goes through the station of the same
/// song.
pub proof fn law_page_plays_only_its_own_source(model: RadioModel)
    ensures
        model.base.app_model.state.playback.source is None ==> !model.spec_source_is_playing(),
        model.base.app_model.state.playback.source matches Some(source)
            ==> model.spec_source_is_playing() == (source.deep_view()
            matches SongsSourceView::Radio { seed_id, .. } && seed_id == model.base.id@),
{
}


/// Nothing is played from a place where the station has no song.
pub proof fn law_no_song_no_station(
    before: RadioModel,
    after: RadioModel,
    position: int,
    id: Seq<char>,
)
    requires
        before.spec_songs() is Some,
        position >= before.spec_songs()->0.songs@.len(),
        after.wants(before, before.play_song_effects(position, id)),
    ensures
        after.base.dispatcher@ == before.base.dispatcher@,
        after.seed_name == before.seed_name,
{
    let songs = before.spec_songs()->0;
    assert(songs.deep_view().len() == songs.songs@.len());
    assert(before.base.dispatcher@ + Seq::<EffectView>::empty() =~= before.base.dispatcher@);
}

/// A line that tells a number of tracks holds the decimal digits of the number in a
/// translation of one of the two wordings.
pub proof fn law_line_tells_the_number_of_tracks(line: Seq<char>, count: usize)
    requires
        tells_tracks(line, count),
    ensures
        exists|template: Seq<char>|
            text::translates_count(template, "{} Track"@, "{} Tracks"@, count as u32) && line
                == #[trigger] text::filled(template, text::decimal(count as nat)),
{
}

} // verus!

//! The bar at the bottom that shows what plays.

use vstd::prelude::*;

use crate::actions::{
    ActionDispatcher, AppAction, AppActionView, AppEvent, BrowserEvent, EffectView, PlaybackAction,
    PlaybackActionView, PlaybackEvent, SelectionEvent, Volume,
};
use crate::actions;
use crate::models;
use crate::models::{art_url, RemotePlayback, RepeatMode, SongDescription, SongDescriptionView};
use crate::shell::transport;
use crate::shell::transport::{mirrored_remote, press, Transport};
use crate::state::{AppModel, AppState};
use crate::text;
use crate::text::gettext;

verus! {

/// The width at which the picture in the bar is fetched.
pub const BAR_ART_WIDTH: u32 = 120;

/// The data and the wishes of the bar.
#[derive(Debug, PartialEq, Eq)]
pub struct PlaybackModel {
    pub app_model: AppModel,
    pub dispatcher: ActionDispatcher,
}

/// Whether the song that is current here is liked.
pub open spec fn current_liked(state: AppState) -> bool {
    match state.playback.spec_current_song() {
        Some(song) => state.browser.liked(song.id@),
        None => false,
    }
}

/// Whether the song that is current here is liked.
pub fn is_current_liked(state: &AppState) -> (r: bool)
    ensures
        r == current_liked(*state),
{
    match state.playback.current_song() {
        Some(song) => state.browser.is_song_liked(song.id.as_str()),
        None => false,
    }
}

impl PlaybackModel {
    /// The bar.
    pub fn new(app_model: AppModel, dispatcher: ActionDispatcher) -> (r: Self)
        ensures
            r == (PlaybackModel { app_model, dispatcher }),
    {
        PlaybackModel { app_model, dispatcher }
    }

    /// Only the wishes changed: these were added.
    pub open spec fn wants(self, before: Self, added: Seq<EffectView>) -> bool {
        &&& self.app_model == before.app_model
        &&& self.dispatcher@ == before.dispatcher@ + added
    }

    /// The state of the program.
    pub fn state(&self) -> (r: &AppState)
        ensures
            *r == self.app_model.state,
    {
        &self.app_model.state
    }

    /// Opens the sheet that shows what plays.
    pub fn open_now_playing_sheet(&mut self)
        ensures
            final(self).wants(
                *old(self),
                seq![EffectView::Dispatch(AppActionView::ShowNowPlayingSheet)],
            ),
    {
        self.dispatcher.dispatch(AppAction::ShowNowPlayingSheet);
    }

    /// Whether what is shown is playing.
    pub fn is_playing(&self) -> (r: bool)
        ensures
            r == self.app_model.state.playback.spec_displayed_is_playing(),
    {
        self.state().playback.displayed_is_playing()
    }

    /// Whether songs come in random order.
    pub fn is_shuffled(&self) -> (r: bool)
        ensures
            r == self.app_model.state.playback.is_shuffled,
    {
        self.state().playback.is_shuffled
    }

    /// The song that is shown.
    pub fn current_song(&self) -> (r: Option<SongDescription>)
        ensures
            r.deep_view() == self.app_model.state.playback.spec_displayed_song(),
    {
        self.state().playback.displayed_song()
    }

    /// How far the song is that plays elsewhere, if playback there is followed.
    pub fn remote_progress_ms(&self) -> (r: Option<u32>)
        ensures
            r == (match transport::mirrored(self.app_model.state.playback) {
                Some(remote) => Some(remote.progress_ms),
                None => None,
            }),
    {
        match mirrored_remote(&self.app_model.state.playback) {
            Some(remote) => Some(remote.progress_ms),
            None => None,
        }
    }

    /// A button was pressed.
    pub fn press(&mut self, button: Transport)
        ensures
            final(self).wants(
                *old(self),
                transport::press_effects(old(self).app_model.state.playback, button),
            ),
    {
        press(&self.app_model.state.playback, &mut self.dispatcher, button);
    }

    /// Goes to the next song.
    pub fn play_next_song(&mut self)
        ensures
            final(self).wants(
                *old(self),
                transport::press_effects(old(self).app_model.state.playback, Transport::Next),
            ),
    {
        self.press(Transport::Next);
    }

    /// Goes to the song before.
    pub fn play_prev_song(&mut self)
        ensures
            final(self).wants(
                *old(self),
                transport::press_effects(old(self).app_model.state.playback, Transport::Previous),
            ),
    {
        self.press(Transport::Previous);
    }

    /// Pauses or goes on.
    pub fn toggle_playback(&mut self)
        ensures
            final(self).wants(
                *old(self),
                transport::press_effects(old(self).app_model.state.playback, Transport::Toggle),
            ),
    {
        self.press(Transport::Toggle);
    }

    /// Goes to a place in the song.
    pub fn seek_to(&mut self, position: u32)
        ensures
            final(self).wants(
                *old(self),
                transport::press_effects(
                    old(self).app_model.state.playback,
                    Transport::SeekTo(position),
                ),
            ),
    {
        self.press(Transport::SeekTo(position));
    }

    /// Changes the volume.
    pub fn set_volume(&mut self, volume: Volume)
        ensures
            final(self).wants(
                *old(self),
                transport::press_effects(
                    old(self).app_model.state.playback,
                    Transport::SetVolume(volume),
                ),
            ),
    {
        self.press(Transport::SetVolume(volume));
    }

    /// Lets songs come in random order, or not.
    pub fn toggle_shuffle(&mut self)
        ensures
            final(self).wants(
                *old(self),
                seq![actions::play(PlaybackActionView::ToggleShuffle)],
            ),
    {
        self.dispatcher.dispatch(AppAction::PlaybackAction(PlaybackAction::ToggleShuffle));
    }

    /// Changes what is repeated.
    pub fn toggle_repeat(&mut self)
        ensures
            final(self).wants(*old(self), seq![actions::play(PlaybackActionView::ToggleRepeat)]),
    {
        self.dispatcher.dispatch(AppAction::PlaybackAction(PlaybackAction::ToggleRepeat));
    }

    /// Whether the song that is current here is liked.
    pub fn is_current_song_liked(&self) -> (r: bool)
        ensures
            r == current_liked(self.app_model.state),
    {
        is_current_liked(self.state())
    }

    /// Opens the drawer that puts the song that is shown in playlists.
    pub fn show_add_to_playlist(&mut self)
        ensures
            final(self).wants(
                *old(self),
                match old(self).app_model.state.playback.spec_displayed_song() {
                    Some(song) => seq![
                        EffectView::Dispatch(AppActionView::ShowAddToPlaylist(song)),
                    ],
                    None => Seq::empty(),
                },
            ),
    {
        match self.current_song() {
            Some(song) => self.dispatcher.dispatch(AppAction::ShowAddToPlaylist(song)),
            None => {
                assert(self.dispatcher@ =~= old(self).dispatcher@ + Seq::<EffectView>::empty());
            },
        }
    }
}

// ── Icons ──────────────────────────────────────────────────────────────────

/// The icon of the button that pauses or goes on.
pub fn play_pause_icon(is_playing: bool) -> (r: &'static str)
    ensures
        r@ == (if is_playing {
            "media-playback-pause-symbolic"@
        } else {
            "media-playback-start-symbolic"@
        }),
{
    if is_playing {
        "media-playback-pause-symbolic"
    } else {
        "media-playback-start-symbolic"
    }
}

/// The message id of the name of the button that pauses or goes on.
pub fn play_pause_msgid(is_playing: bool) -> (r: &'static str)
    ensures
        r@ == (if is_playing {
            "Pause"@
        } else {
            "Play"@
        }),
        text::no_nul(r@),
{
    proof {
        reveal_strlit("Pause");
        reveal_strlit("Play");
    }
    if is_playing {
        "Pause"
    } else {
        "Play"
    }
}

/// The name of the button that pauses or goes on: a translation of
/// `play_pause_msgid`.
pub fn play_pause_tooltip(is_playing: bool) -> (r: String)
    ensures
        text::translates(
            r@,
            if is_playing {
                "Pause"@
            } else {
                "Play"@
            },
        ),
{
    gettext(play_pause_msgid(is_playing))
}

/// What the bar of a narrow window says while there is no song: a translation of
/// "No song playing".
pub fn no_song_label() -> (r: String)
    ensures
        text::translates(r@, "No song playing"@),
{
    proof {
        reveal_strlit("No song playing");
    }
    gettext("No song playing")
}

/// For how many milliseconds a dragged seek bar has to rest before it takes effect.
pub const SEEK_REST_MS: u32 = 200;

/// For how many milliseconds a turned volume has to rest before it takes effect. One
/// turn of the wheel comes in many steps.
pub const VOLUME_REST_MS: u32 = 100;

/// The icon of the button that changes what is repeated.
pub fn repeat_icon(mode: RepeatMode) -> (r: &'static str)
    ensures
        r@ == (match mode {
            RepeatMode::Song => "media-playlist-repeat-song-symbolic"@,
            RepeatMode::Playlist => "media-playlist-repeat-symbolic"@,
            RepeatMode::Off => "media-playlist-consecutive-symbolic"@,
        }),
{
    match mode {
        RepeatMode::Song => "media-playlist-repeat-song-symbolic",
        RepeatMode::Playlist => "media-playlist-repeat-symbolic",
        RepeatMode::Off => "media-playlist-consecutive-symbolic",
    }
}

/// The icon of the button that puts the song in playlists.
pub fn liked_icon(liked: bool) -> (r: &'static str)
    ensures
        r@ == (if liked {
            "object-select-symbolic"@
        } else {
            "list-add-symbolic"@
        }),
{
    if liked {
        "object-select-symbolic"
    } else {
        "list-add-symbolic"
    }
}

// ── The bar ────────────────────────────────────────────────────────────────

/// What is shown of a song.
#[derive(Debug, PartialEq, Eq)]
pub struct TrackInfo {
    pub title: String,
    pub artist: String,
    pub duration_ms: u32,
}

/// The contents of a `TrackInfo`.
pub struct TrackInfoView {
    pub title: Seq<char>,
    pub artist: Seq<char>,
    pub duration_ms: u32,
}

impl DeepView for TrackInfo {
    type V = TrackInfoView;

    open spec fn deep_view(&self) -> TrackInfoView {
        TrackInfoView { title: self.title@, artist: self.artist@, duration_ms: self.duration_ms }
    }
}

/// What is shown of a song.
pub open spec fn info_of(song: SongDescriptionView) -> TrackInfoView {
    TrackInfoView {
        title: song.title,
        artist: models::artists_line(song.artists),
        duration_ms: song.duration_ms,
    }
}

/// What is shown of a song.
pub fn track_info(song: &SongDescription) -> (r: TrackInfo)
    ensures
        r.deep_view() == info_of(song.deep_view()),
{
    TrackInfo {
        title: song.title.clone(),
        artist: song.artists_name(),
        duration_ms: song.duration_ms,
    }
}

/// What an event asks of the bar.
#[derive(Clone, Copy, Debug, PartialEq, Eq, Structural)]
pub enum BarTask {
    /// Show whether it plays.
    Playing,
    /// Show what is repeated.
    Repeat(RepeatMode),
    /// Show whether the order is random.
    Shuffled,
    /// Show another song.
    Track,
    /// Show that nothing plays any more.
    Stopped,
    /// Show another place in the song.
    Position(u32),
    /// Hide the place in the song while songs are selected.
    SelectionMode(bool),
    /// Show the volume.
    VolumeSet(Volume),
    /// Show whether the song is liked.
    Liked,
    /// Show what plays elsewhere.
    Remote,
    Nothing,
}

/// What an event that concerns playback asks of the bar.
pub open spec fn playback_task(event: PlaybackEvent) -> BarTask {
    match event {
        PlaybackEvent::PlaybackPaused => BarTask::Playing,
        PlaybackEvent::PlaybackResumed => BarTask::Playing,
        PlaybackEvent::RepeatModeChanged(mode) => BarTask::Repeat(mode),
        PlaybackEvent::ShuffleChanged(_) => BarTask::Shuffled,
        PlaybackEvent::TrackChanged(_) => BarTask::Track,
        PlaybackEvent::PlaybackStopped => BarTask::Stopped,
        PlaybackEvent::SeekSynced(position) => BarTask::Position(position),
        PlaybackEvent::TrackSeeked(position) => BarTask::Position(position),
        PlaybackEvent::VolumeSet(volume) => BarTask::VolumeSet(volume),
        PlaybackEvent::RemotePlaybackChanged => BarTask::Remote,
        _ => BarTask::Nothing,
    }
}

/// What an event asks of the bar.
pub open spec fn bar_task(event: AppEvent) -> BarTask {
    match event {
        AppEvent::PlaybackEvent(event) => playback_task(event),
        AppEvent::SelectionEvent(SelectionEvent::SelectionModeChanged(active)) =>
        BarTask::SelectionMode(active),
        AppEvent::BrowserEvent(BrowserEvent::SavedTracksUpdated) => BarTask::Liked,
        _ => BarTask::Nothing,
    }
}

/// What an event asks of the bar.
pub fn bar_task_of(event: &AppEvent) -> (r: BarTask)
    ensures
        r == bar_task(*event),
{
    match event {
        AppEvent::PlaybackEvent(event) => match event {
            PlaybackEvent::PlaybackPaused => BarTask::Playing,
            PlaybackEvent::PlaybackResumed => BarTask::Playing,
            PlaybackEvent::RepeatModeChanged(mode) => BarTask::Repeat(*mode),
            PlaybackEvent::ShuffleChanged(_) => BarTask::Shuffled,
            PlaybackEvent::TrackChanged(_) => BarTask::Track,
            PlaybackEvent::PlaybackStopped => BarTask::Stopped,
            PlaybackEvent::SeekSynced(position) => BarTask::Position(*position),
            PlaybackEvent::TrackSeeked(position) => BarTask::Position(*position),
            PlaybackEvent::VolumeSet(volume) => BarTask::VolumeSet(*volume),
            PlaybackEvent::RemotePlaybackChanged => BarTask::Remote,
            _ => BarTask::Nothing,
        },
        AppEvent::SelectionEvent(SelectionEvent::SelectionModeChanged(active)) =>
        BarTask::SelectionMode(*active),
        AppEvent::BrowserEvent(BrowserEvent::SavedTracksUpdated) => BarTask::Liked,
        _ => BarTask::Nothing,
    }
}

/// The bar as it is shown.
#[derive(Debug, PartialEq, Eq)]
pub struct PlaybackControl {
    pub model: PlaybackModel,
    /// What is shown of the song; without a song the bar is hidden.
    pub info: Option<TrackInfo>,
    /// The address of the picture that was asked for last; until it has been loaded,
    /// and if it cannot be, the picture before it is shown.
    pub art: Option<String>,
    pub playing: bool,
    pub shuffled: bool,
    pub repeat: RepeatMode,
    /// How far the song is, in milliseconds.
    pub position: u32,
    pub liked: bool,
    pub seekbar_visible: bool,
    pub volume: Option<Volume>,
}

impl PlaybackControl {
    /// The song that is shown has been brought up to date. A song without a picture
    /// leaves the picture that was there.
    pub open spec fn info_updated(self, before: Self) -> bool {
        let song = before.model.app_model.state.playback.spec_displayed_song();
        &&& self.info.deep_view() == (match song {
            Some(song) => Some(info_of(song)),
            None => None,
        })
        &&& self.art.deep_view() == (match song {
            Some(song) => match models::best_url(song.art, BAR_ART_WIDTH) {
                Some(url) => Some(url),
                None => before.art.deep_view(),
            },
            None => None,
        })
        &&& self.position == 0
    }

    /// The bar after an event asked something of it.
    pub open spec fn after(self, before: Self, task: BarTask) -> bool {
        let playing = before.model.app_model.state.playback.spec_displayed_is_playing();
        let liked = current_liked(before.model.app_model.state);
        match task {
            BarTask::Playing => self == (PlaybackControl { playing, ..before }),
            BarTask::Repeat(mode) => self == (PlaybackControl { repeat: mode, ..before }),
            BarTask::Shuffled => self == (PlaybackControl {
                shuffled: before.model.app_model.state.playback.is_shuffled,
                ..before
            }),
            BarTask::Track => self.info_updated(before) && self == (PlaybackControl {
                playing,
                liked,
                info: self.info,
                art: self.art,
                position: 0,
                ..before
            }),
            BarTask::Stopped => self.info_updated(before) && self == (PlaybackControl {
                playing,
                info: self.info,
                art: self.art,
                position: 0,
                ..before
            }),
            BarTask::Position(position) => self == (PlaybackControl { position, ..before }),
            BarTask::SelectionMode(active) => self == (PlaybackControl {
                seekbar_visible: !active,
                ..before
            }),
            BarTask::VolumeSet(volume) => self == (PlaybackControl {
                volume: Some(volume),
                ..before
            }),
            BarTask::Liked => self == (PlaybackControl { liked, ..before }),
            BarTask::Remote => (PlaybackControl { position: 0, ..self }).info_updated(before)
                && self == (PlaybackControl {
                playing,
                liked,
                info: self.info,
                art: self.art,
                position: match transport::mirrored(before.model.app_model.state.playback) {
                    Some(remote) => remote.progress_ms,
                    None => 0,
                },
                ..before
            }),
            BarTask::Nothing => self == before,
        }
    }

    /// The bar.
    pub fn new(model: PlaybackModel) -> (r: PlaybackControl)
        ensures
            r.model == model,
            r.info.deep_view() == (match model.app_model.state.playback.spec_displayed_song() {
                Some(song) => Some(info_of(song)),
                None => None,
            }),
            r.art.deep_view() == (match model.app_model.state.playback.spec_displayed_song() {
                Some(song) => models::best_url(song.art, BAR_ART_WIDTH),
                None => None,
            }),
            r.position == 0,
            !r.playing,
            !r.shuffled,
            r.repeat == RepeatMode::Off,
            !r.liked,
            r.seekbar_visible,
            r.volume is None,
    {
        let mut r = PlaybackControl {
            model,
            info: None,
            art: None,
            playing: false,
            shuffled: false,
            repeat: RepeatMode::Off,
            position: 0,
            liked: false,
            seekbar_visible: true,
            volume: None,
        };
        r.update_current_info();
        r
    }

    /// Brings the song that is shown up to date.
    pub fn update_current_info(&mut self)
        ensures
            *final(self) == (PlaybackControl {
                info: final(self).info,
                art: final(self).art,
                position: 0,
                ..*old(self)
            }),
            final(self).info_updated(*old(self)),
    {
        match self.model.current_song() {
            Some(song) => {
                self.info = Some(track_info(&song));
                if let Some(url) = art_url(&song.art, BAR_ART_WIDTH) {
                    self.art = Some(url);
                }
            },
            None => {
                self.info = None;
                self.art = None;
            },
        }
        self.position = 0;
    }

    /// Another song is shown.
    fn update_track(&mut self)
        ensures
            final(self).after(*old(self), BarTask::Track),
    {
        let playing: bool = self.model.is_playing();
        let liked: bool = self.model.is_current_song_liked();
        self.update_current_info();
        self.playing = playing;
        self.liked = liked;
    }

    /// Nothing plays any more.
    fn update_stopped(&mut self)
        ensures
            final(self).after(*old(self), BarTask::Stopped),
    {
        let playing: bool = self.model.is_playing();
        self.update_current_info();
        self.playing = playing;
    }

    /// Shows what plays elsewhere.
    fn update_remote(&mut self)
        ensures
            final(self).after(*old(self), BarTask::Remote),
    {
        let playing: bool = self.model.is_playing();
        let liked: bool = self.model.is_current_song_liked();
        let position: Option<u32> = self.model.remote_progress_ms();
        self.update_current_info();
        self.playing = playing;
        self.liked = liked;
        if let Some(position) = position {
            self.position = position;
        }
    }

    /// Does what an event asks of the bar.
    pub fn run(&mut self, task: BarTask)
        ensures
            final(self).after(*old(self), task),
    {
        match task {
            BarTask::Playing => {
                self.playing = self.model.is_playing();
            },
            BarTask::Repeat(mode) => {
                self.repeat = mode;
            },
            BarTask::Shuffled => {
                self.shuffled = self.model.is_shuffled();
            },
            BarTask::Track => self.update_track(),
            BarTask::Stopped => self.update_stopped(),
            BarTask::Position(position) => {
                self.position = position;
            },
            BarTask::SelectionMode(active) => {
                self.seekbar_visible = !active;
            },
            BarTask::VolumeSet(volume) => {
                self.volume = Some(volume);
            },
            BarTask::Liked => {
                self.liked = self.model.is_current_song_liked();
            },
            BarTask::Remote => self.update_remote(),
            BarTask::Nothing => {},
        }
    }

    /// What an event does to the bar.
    pub fn on_event(&mut self, event: &AppEvent)
        ensures
            final(self).after(*old(self), bar_task(*event)),
    {
        self.run(bar_task_of(event));
    }
}

// ── Laws ───────────────────────────────────────────────────────────────────

/// The bar shows the title of the song, its artists and its length.
pub proof fn law_bar_shows_the_song(song: SongDescription, info: TrackInfo)
    requires
        info.deep_view() == info_of(song.deep_view()),
    ensures
        info.title@ == song.title@,
        info.artist@ == models::artists_line(song.artists.deep_view()),
        info.duration_ms == song.duration_ms,
{
}

/// After an event the bar shows what the event tells of, and everything else as
/// before: pausing and going on show whether what is shown plays; a new place, a new
/// volume and a new mode are shown as they are; the place is hidden while songs are
/// selected.
pub proof fn law_bar_follows_the_event(
    before: PlaybackControl,
    after: PlaybackControl,
    event: AppEvent,
)
    requires
        after.after(before, bar_task(event)),
    ensures
        event == AppEvent::PlaybackEvent(PlaybackEvent::PlaybackPaused) || event
            == AppEvent::PlaybackEvent(PlaybackEvent::PlaybackResumed) ==> after == (
        PlaybackControl {
            playing: before.model.app_model.state.playback.spec_displayed_is_playing(),
            ..before
        }),
        event matches AppEvent::PlaybackEvent(PlaybackEvent::TrackSeeked(position)) ==> after == (
        PlaybackControl { position, ..before }),
        event matches AppEvent::PlaybackEvent(PlaybackEvent::SeekSynced(position)) ==> after == (
        PlaybackControl { position, ..before }),
        event matches AppEvent::PlaybackEvent(PlaybackEvent::VolumeSet(volume)) ==> after == (
        PlaybackControl { volume: Some(volume), ..before }),
        event matches AppEvent::PlaybackEvent(PlaybackEvent::RepeatModeChanged(mode)) ==> after == (
        PlaybackControl { repeat: mode, ..before }),
        event matches AppEvent::PlaybackEvent(PlaybackEvent::ShuffleChanged(_)) ==> after == (
        PlaybackControl {
            shuffled: before.model.app_model.state.playback.is_shuffled,
            ..before
        }),
        event matches AppEvent::SelectionEvent(SelectionEvent::SelectionModeChanged(active))
            ==> after == (PlaybackControl { seekbar_visible: !active, ..before }),
        event == AppEvent::BrowserEvent(BrowserEvent::SavedTracksUpdated) ==> after == (
        PlaybackControl { liked: current_liked(before.model.app_model.state), ..before }),
{
}

/// After another song has begun, or what plays elsewhere has changed, the bar shows
/// the song that is shown, from its start or from where the other device is; without
/// a song it shows none.
pub proof fn law_bar_shows_the_new_song(
    before: PlaybackControl,
    after: PlaybackControl,
    event: PlaybackEvent,
)
    requires
        event is TrackChanged || event is PlaybackStopped || event is RemotePlaybackChanged,
        after.after(before, bar_task(AppEvent::PlaybackEvent(event))),
    ensures
        ({
            let p = before.model.app_model.state.playback;
            &&& after.playing == p.spec_displayed_is_playing()
            &&& p.spec_displayed_song() is None ==> after.info is None && after.art is None
            &&& p.spec_displayed_song() matches Some(song) ==> {
                &&& after.info matches Some(info)
                &&& info.title@ == song.title
                &&& info.artist@ == models::artists_line(song.artists)
                &&& info.duration_ms == song.duration_ms
                &&& models::best_url(song.art, 120) is Some ==> after.art.deep_view()
                    == models::best_url(song.art, 120)
            }
            &&& event is TrackChanged || event is PlaybackStopped ==> after.position == 0
            &&& event is RemotePlaybackChanged ==> after.position == (
            if p.is_mirroring_remote && p.remote is Some {
                p.remote->0.progress_ms
            } else {
                0
            })
            &&& event is TrackChanged || event is RemotePlaybackChanged ==> after.liked
                == current_liked(before.model.app_model.state)
            &&& after.volume == before.volume
            &&& after.repeat == before.repeat
            &&& after.shuffled == before.shuffled
        }),
{
}

/// The song that is current is liked if it is among the saved tracks.
pub proof fn law_current_song_is_liked_if_saved(state: AppState, i: usize)
    requires
        state.playback.position == Some(i),
        i < state.playback.songs@.len(),
    ensures
        current_liked(state) == state.browser.liked(state.playback.songs@[i as int].id@),
{
}

/// The view of a `TrackInfo` holds its parts, each under its own name.
pub proof fn law_view_of_track_info(value: TrackInfo)
    ensures
        value.deep_view().title == value.title@,
        value.deep_view().artist == value.artist@,
        value.deep_view().duration_ms == value.duration_ms,
{
}

/// A slider acts once it has rested for a moment, and the picture in the bar is small.
pub proof fn law_sliders_rest_before_they_act()
    ensures
        SEEK_REST_MS == 200,
        VOLUME_REST_MS == 100,
        BAR_ART_WIDTH == 120,
{
}

} // verus!

//! The sheet that shows what plays.

use vstd::prelude::*;

use crate::actions;
use crate::actions::{
    ActionDispatcher, AppAction, AppActionView, AppEvent, BrowserAction, BrowserActionView,
    BrowserEvent, EffectView, PlaybackAction, PlaybackActionView, PlaybackEvent, ScreenName,
    ScreenNameView, SongsSource, SongsSourceView,
};
use crate::models;
use crate::models::{art_url, RepeatMode, SongDescription, SongDescriptionView};
use crate::shell::playback;
use crate::shell::playback::{is_current_liked, track_info, TrackInfo};
use crate::shell::sheets::Sheets;
use crate::shell::transport;
use crate::shell::transport::{press, Transport};
use crate::state::{AppModel, PlaybackState};
use crate::text;
use crate::text::{fill, gettext};

verus! {

/// The width at which the picture on the sheet is fetched.
pub const SHEET_ART_WIDTH: u32 = 320;

// ── Where the songs come from ──────────────────────────────────────────────

/// What the sheet says about where the songs come from.
#[derive(Debug, PartialEq, Eq)]
pub struct SourceDisplay {
    pub name: String,
    /// Whether it can be opened.
    pub navigable: bool,
}

/// The contents of a `SourceDisplay`.
pub struct SourceDisplayView {
    pub name: Seq<char>,
    pub navigable: bool,
}

impl DeepView for SourceDisplay {
    type V = SourceDisplayView;

    open spec fn deep_view(&self) -> SourceDisplayView {
        SourceDisplayView { name: self.name@, navigable: self.navigable }
    }
}

/// A name is shown unless it is empty.
pub open spec fn shown_source(name: Seq<char>, navigable: bool) -> Option<SourceDisplayView> {
    if name.len() == 0 {
        None
    } else {
        Some(SourceDisplayView { name, navigable })
    }
}

/// The name of what plays elsewhere: that of the playlist that was played here last
/// if it is provably the same, otherwise that of the album.
pub open spec fn remote_source_name(
    source: Option<SongsSourceView>,
    context_uri: Option<Seq<char>>,
    album: Seq<char>,
) -> Seq<char> {
    match source {
        Some(SongsSourceView::Playlist { id, title }) => {
            let same = context_uri is Some && (SongsSourceView::Playlist { id, title }).uri()
                == context_uri;
            if same && title.len() > 0 {
                title
            } else {
                album
            }
        },
        _ => album,
    }
}

/// The name of a source; `intrinsic` is the name of a source that is neither a
/// playlist nor an album nor an artist.
pub open spec fn source_name(
    source: SongsSourceView,
    song: SongDescriptionView,
    intrinsic: Seq<char>,
) -> Seq<char> {
    match source {
        SongsSourceView::Playlist { title, .. } => title,
        SongsSourceView::Album(_) => song.album.name,
        SongsSourceView::Artist(_) => models::artists_line(song.artists),
        _ => intrinsic,
    }
}

/// What the sheet says about where the songs come from.
pub open spec fn displayed_source(p: PlaybackState, intrinsic: Seq<char>) -> Option<
    SourceDisplayView,
> {
    if p.is_mirroring_remote {
        match p.remote {
            Some(remote) => shown_source(
                remote_source_name(
                    p.source.deep_view(),
                    remote.context_uri.deep_view(),
                    remote.song.album.name@,
                ),
                false,
            ),
            None => None,
        }
    } else {
        match p.spec_current_song() {
            None => None,
            Some(song) => match p.source {
                None => shown_source(song.album.name@, false),
                Some(source) => shown_source(
                    source_name(source.deep_view(), song.deep_view(), intrinsic),
                    true,
                ),
            },
        }
    }
}

/// What opens a source.
pub open spec fn source_action(source: SongsSourceView) -> AppActionView {
    match source {
        SongsSourceView::Album(id) => AppActionView::ViewAlbum(id),
        SongsSourceView::Playlist { id, .. } => AppActionView::ViewPlaylist(id),
        SongsSourceView::Artist(id) => AppActionView::ViewArtist(id),
        SongsSourceView::SavedTracks => AppActionView::BrowserAction(
            BrowserActionView::NavigationPush(ScreenNameView::SavedTracks),
        ),
        SongsSourceView::Radio { seed_id, seed_name } => AppActionView::BrowserAction(
            BrowserActionView::NavigationPush(ScreenNameView::Radio { seed_id, seed_name }),
        ),
    }
}

/// The source that can be opened: none while playback elsewhere is followed.
pub open spec fn open_source(p: PlaybackState) -> Option<SongsSource> {
    if p.is_mirroring_remote {
        None
    } else {
        p.source
    }
}

/// What plays elsewhere is never shown as something that can be opened, and what is
/// shown as something that can be opened can be.
pub proof fn law_only_local_sources_open(p: PlaybackState, intrinsic: Seq<char>)
    ensures
        p.is_mirroring_remote ==> open_source(p) is None,
        displayed_source(p, intrinsic) matches Some(shown) && shown.navigable ==> open_source(p)
            is Some,
        displayed_source(p, intrinsic) matches Some(shown) ==> shown.name.len() > 0,
{
}

fn show_source(name: String, navigable: bool) -> (r: Option<SourceDisplay>)
    ensures
        r.deep_view() == shown_source(name@, navigable),
{
    if name.as_str().is_empty() {
        None
    } else {
        Some(SourceDisplay { name, navigable })
    }
}

/// The data and the wishes of the sheet.
#[derive(Debug, PartialEq, Eq)]
pub struct NowPlayingSheetModel {
    pub app_model: AppModel,
    pub dispatcher: ActionDispatcher,
}

/// What opens the first artist of a song.
pub open spec fn first_artist_effects(song: Option<SongDescriptionView>) -> Seq<EffectView> {
    match song {
        Some(song) => if song.artists.len() > 0 {
            seq![EffectView::Dispatch(AppActionView::ViewArtist(song.artists[0].id))]
        } else {
            Seq::empty()
        },
        None => Seq::empty(),
    }
}

impl NowPlayingSheetModel {
    /// The sheet.
    pub fn new(app_model: AppModel, dispatcher: ActionDispatcher) -> (r: Self)
        ensures
            r == (NowPlayingSheetModel { app_model, dispatcher }),
    {
        NowPlayingSheetModel { app_model, dispatcher }
    }

    /// Only the wishes changed: these were added.
    pub open spec fn wants(self, before: Self, added: Seq<EffectView>) -> bool {
        &&& self.app_model == before.app_model
        &&& self.dispatcher@ == before.dispatcher@ + added
    }

    /// What plays.
    pub open spec fn p(self) -> PlaybackState {
        self.app_model.state.playback
    }

    /// A button was pressed. Where it acts on another device, what follows is
    /// `remote_called`.
    pub fn press(&mut self, button: Transport)
        ensures
            final(self).wants(*old(self), transport::press_effects(old(self).p(), button)),
    {
        press(&self.app_model.state.playback, &mut self.dispatcher, button);
    }

    /// What follows once another device has been called, or could not be: what
    /// plays there is looked at anew.
    pub fn remote_called() -> (r: AppAction)
        ensures
            r == AppAction::RepollRemoteMirror,
    {
        AppAction::RepollRemoteMirror
    }

    /// Lets songs come in random order, or not.
    pub fn toggle_shuffle(&mut self)
        ensures
            final(self).wants(
                *old(self),
                seq![actions::play(PlaybackActionView::ToggleShuffle)],
            ),
    {
        self.dispatcher.dispatch(AppAction::PlaybackAction(PlaybackAction::ToggleShuffle));
    }

    /// Changes what is repeated.
    pub fn toggle_repeat(&mut self)
        ensures
            final(self).wants(*old(self), seq![actions::play(PlaybackActionView::ToggleRepeat)]),
    {
        self.dispatcher.dispatch(AppAction::PlaybackAction(PlaybackAction::ToggleRepeat));
    }

    /// The song that is shown.
    pub fn current_song(&self) -> (r: Option<SongDescription>)
        ensures
            r.deep_view() == self.p().spec_displayed_song(),
    {
        self.app_model.state.playback.displayed_song()
    }

    /// Opens the drawer that puts the song that is shown in playlists.
    pub fn show_add_to_playlist(&mut self)
        ensures
            final(self).wants(
                *old(self),
                match old(self).p().spec_displayed_song() {
                    Some(song) => seq![
                        EffectView::Dispatch(AppActionView::ShowAddToPlaylist(song)),
                    ],
                    None => Seq::empty(),
                },
            ),
    {
        match self.current_song() {
            Some(song) => self.dispatcher.dispatch(AppAction::ShowAddToPlaylist(song)),
            None => {
                assert(self.dispatcher@ =~= old(self).dispatcher@ + Seq::<EffectView>::empty());
            },
        }
    }

    /// Opens the menu of the song that is shown.
    pub fn show_song_menu(&mut self)
        ensures
            final(self).wants(
                *old(self),
                match old(self).p().spec_displayed_song() {
                    Some(song) => seq![EffectView::Dispatch(AppActionView::ShowSongMenu(song))],
                    None => Seq::empty(),
                },
            ),
    {
        match self.current_song() {
            Some(song) => self.dispatcher.dispatch(AppAction::ShowSongMenu(song)),
            None => {
                assert(self.dispatcher@ =~= old(self).dispatcher@ + Seq::<EffectView>::empty());
            },
        }
    }

    /// Opens the album of the song that is shown.
    pub fn view_album(&mut self)
        ensures
            final(self).wants(
                *old(self),
                match old(self).p().spec_displayed_song() {
                    Some(song) => seq![EffectView::Dispatch(AppActionView::ViewAlbum(song.album.id))],
                    None => Seq::empty(),
                },
            ),
    {
        match self.current_song() {
            Some(song) => self.dispatcher.dispatch(AppAction::ViewAlbum(song.album.id)),
            None => {
                assert(self.dispatcher@ =~= old(self).dispatcher@ + Seq::<EffectView>::empty());
            },
        }
    }

    /// Opens the first artist of the song that is shown.
    pub fn view_artist(&mut self)
        ensures
            final(self).wants(
                *old(self),
                first_artist_effects(old(self).p().spec_displayed_song()),
            ),
    {
        match self.current_song() {
            Some(song) => if song.artists.len() > 0 {
                assert(song.deep_view().artists[0] == song.artists@[0].deep_view());
                self.dispatcher.dispatch(AppAction::ViewArtist(song.artists[0].id.clone()));
            } else {
                assert(self.dispatcher@ =~= old(self).dispatcher@ + Seq::<EffectView>::empty());
            },
            None => {
                assert(self.dispatcher@ =~= old(self).dispatcher@ + Seq::<EffectView>::empty());
            },
        }
    }

    /// What the sheet says about where the songs come from. `intrinsic` is the name
    /// of a source that is neither a playlist nor an album nor an artist.
    pub fn source_display(&self, intrinsic: &str) -> (r: Option<SourceDisplay>)
        ensures
            r.deep_view() == displayed_source(self.p(), intrinsic@),
    {
        let p = &self.app_model.state.playback;
        if p.is_mirroring_remote {
            let remote = match &p.remote {
                Some(remote) => remote,
                None => {
                    return None;
                },
            };
            let context: Option<&str> = match &remote.context_uri {
                Some(uri) => Some(uri.as_str()),
                None => None,
            };
            match &p.source {
                Some(source) => if source.matches_spotify_context(context) {
                    match source {
                        SongsSource::Playlist { title, .. } => if !title.as_str().is_empty() {
                            return show_source(title.clone(), false);
                        },
                        _ => {},
                    }
                },
                None => {},
            }
            return show_source(remote.song.album.name.clone(), false);
        }
        match p.current_song() {
            None => None,
            Some(song) => match &p.source {
                None => show_source(song.album.name.clone(), false),
                Some(source) => {
                    let name: String = match source {
                        SongsSource::Playlist { title, .. } => title.clone(),
                        SongsSource::Album(_) => song.album.name.clone(),
                        SongsSource::Artist(_) => song.artists_name(),
                        _ => intrinsic.to_string(),
                    };
                    show_source(name, true)
                },
            },
        }
    }

    /// Opens what the songs come from, if it can be opened; `true` if it can.
    pub fn navigate_to_source(&mut self) -> (r: bool)
        ensures
            r == (open_source(old(self).p()) is Some),
            final(self).wants(
                *old(self),
                match open_source(old(self).p()) {
                    Some(source) => seq![EffectView::Dispatch(source_action(source.deep_view()))],
                    None => Seq::empty(),
                },
            ),
    {
        let mut action: Option<AppAction> = None;
        if !self.app_model.state.playback.is_mirroring_remote {
            match &self.app_model.state.playback.source {
                Some(source) => {
                    action = Some(
                        match source {
                            SongsSource::Album(id) => AppAction::ViewAlbum(id.clone()),
                            SongsSource::Playlist { id, .. } => AppAction::ViewPlaylist(id.clone()),
                            SongsSource::Artist(id) => AppAction::ViewArtist(id.clone()),
                            SongsSource::SavedTracks => AppAction::BrowserAction(
                                BrowserAction::NavigationPush(ScreenName::SavedTracks),
                            ),
                            SongsSource::Radio { seed_id, seed_name } => AppAction::BrowserAction(
                                BrowserAction::NavigationPush(
                                    ScreenName::Radio {
                                        seed_id: seed_id.clone(),
                                        seed_name: seed_name.clone(),
                                    },
                                ),
                            ),
                        },
                    );
                },
                None => {},
            }
        }
        match action {
            Some(action) => {
                self.dispatcher.dispatch(action);
                true
            },
            None => {
                assert(self.dispatcher@ =~= old(self).dispatcher@ + Seq::<EffectView>::empty());
                false
            },
        }
    }
}

/// "Playing on ..." in the user's language, given what it has for that.
pub fn playing_on_in(template: &str, device: &str) -> (r: String)
    ensures
        r@ == text::filled(template@, device@),
{
    fill(template, device)
}

/// What the sheet says about the device that plays: nothing if it is this one.
pub fn playing_on(device: Option<&str>) -> (r: Option<String>)
    ensures
        match (device, r) {
            (Some(name), Some(line)) => exists|template: Seq<char>|
                text::translates(template, "Playing on {}"@) && line@ == #[trigger] text::filled(
                    template,
                    name@,
                ),
            (None, None) => true,
            _ => false,
        },
{
    proof {
        reveal_strlit("Playing on {}");
    }
    match device {
        Some(name) => {
            let template: String = gettext("Playing on {}");
            Some(playing_on_in(template.as_str(), name))
        },
        None => None,
    }
}

// ── The sheet ──────────────────────────────────────────────────────────────

/// What an event asks of the sheet.
#[derive(Clone, Copy, Debug, PartialEq, Eq, Structural)]
pub enum SheetTask {
    /// Show whether it plays.
    Playing,
    /// Show what is repeated.
    Repeat(RepeatMode),
    /// Show whether the order is random.
    Shuffled,
    /// Show another song.
    Track,
    /// Show where the songs come from.
    Source,
    /// Show that nothing plays any more.
    Stopped,
    /// Show another place in the song.
    Position(u32),
    /// Show whether the song is liked.
    Liked,
    /// Show what plays elsewhere.
    Remote,
    /// Open the sheet.
    Open,
    Nothing,
}

/// What an event that concerns playback asks of the sheet.
pub open spec fn playback_task(event: PlaybackEvent) -> SheetTask {
    match event {
        PlaybackEvent::PlaybackPaused => SheetTask::Playing,
        PlaybackEvent::PlaybackResumed => SheetTask::Playing,
        PlaybackEvent::RepeatModeChanged(mode) => SheetTask::Repeat(mode),
        PlaybackEvent::ShuffleChanged(_) => SheetTask::Shuffled,
        PlaybackEvent::TrackChanged(_) => SheetTask::Track,
        PlaybackEvent::SourceChanged => SheetTask::Source,
        PlaybackEvent::RemoteContextChanged => SheetTask::Source,
        PlaybackEvent::PlaybackStopped => SheetTask::Stopped,
        PlaybackEvent::SeekSynced(position) => SheetTask::Position(position),
        PlaybackEvent::TrackSeeked(position) => SheetTask::Position(position),
        PlaybackEvent::RemotePlaybackChanged => SheetTask::Remote,
        _ => SheetTask::Nothing,
    }
}

/// What an event asks of the sheet.
pub open spec fn sheet_task(event: AppEvent) -> SheetTask {
    match event {
        AppEvent::PlaybackEvent(event) => playback_task(event),
        AppEvent::BrowserEvent(BrowserEvent::SavedTracksUpdated) => SheetTask::Liked,
        AppEvent::BrowserEvent(BrowserEvent::SavedPlaylistsUpdated) => SheetTask::Source,
        AppEvent::BrowserEvent(BrowserEvent::PlaylistDetailsLoaded(_)) => SheetTask::Source,
        AppEvent::BrowserEvent(BrowserEvent::ArtistDetailsUpdated(_)) => SheetTask::Source,
        AppEvent::NowPlayingSheetShown => SheetTask::Open,
        _ => SheetTask::Nothing,
    }
}

/// What an event asks of the sheet.
pub fn sheet_task_of(event: &AppEvent) -> (r: SheetTask)
    ensures
        r == sheet_task(*event),
{
    match event {
        AppEvent::PlaybackEvent(event) => match event {
            PlaybackEvent::PlaybackPaused => SheetTask::Playing,
            PlaybackEvent::PlaybackResumed => SheetTask::Playing,
            PlaybackEvent::RepeatModeChanged(mode) => SheetTask::Repeat(*mode),
            PlaybackEvent::ShuffleChanged(_) => SheetTask::Shuffled,
            PlaybackEvent::TrackChanged(_) => SheetTask::Track,
            PlaybackEvent::SourceChanged => SheetTask::Source,
            PlaybackEvent::RemoteContextChanged => SheetTask::Source,
            PlaybackEvent::PlaybackStopped => SheetTask::Stopped,
            PlaybackEvent::SeekSynced(position) => SheetTask::Position(*position),
            PlaybackEvent::TrackSeeked(position) => SheetTask::Position(*position),
            PlaybackEvent::RemotePlaybackChanged => SheetTask::Remote,
            _ => SheetTask::Nothing,
        },
        AppEvent::BrowserEvent(BrowserEvent::SavedTracksUpdated) => SheetTask::Liked,
        AppEvent::BrowserEvent(BrowserEvent::SavedPlaylistsUpdated) => SheetTask::Source,
        AppEvent::BrowserEvent(BrowserEvent::PlaylistDetailsLoaded(_)) => SheetTask::Source,
        AppEvent::BrowserEvent(BrowserEvent::ArtistDetailsUpdated(_)) => SheetTask::Source,
        AppEvent::NowPlayingSheetShown => SheetTask::Open,
        _ => SheetTask::Nothing,
    }
}

/// The sheet as it is shown.
#[derive(Debug, PartialEq, Eq)]
pub struct NowPlayingSheet {
    pub model: NowPlayingSheetModel,
    pub info: Option<TrackInfo>,
    /// The address of the picture that was asked for last; until it has been loaded,
    /// and if it cannot be, the picture before it is shown.
    pub art: Option<String>,
    pub source: Option<SourceDisplay>,
    pub playing: bool,
    pub shuffled: bool,
    pub repeat: RepeatMode,
    pub liked: bool,
    /// How far the song is shown to be, in milliseconds.
    pub position: u32,
    /// How far the song was last known to be.
    pub last_position: u32,
}

impl NowPlayingSheet {
    /// The song that is shown has been brought up to date. Without a song nothing
    /// changes, and a song without a picture leaves the picture that was there.
    pub open spec fn info_updated(self, before: Self) -> bool {
        match before.model.p().spec_displayed_song() {
            Some(song) => {
                &&& self.info.deep_view() == Some(playback::info_of(song))
                &&& self.art.deep_view() == (match models::best_url(song.art, SHEET_ART_WIDTH) {
                    Some(url) => Some(url),
                    None => before.art.deep_view(),
                })
            },
            None => self.info == before.info && self.art == before.art,
        }
    }

    /// How far the song is shown to be once it was brought up to date.
    pub open spec fn restarted(before: Self) -> u32 {
        if before.model.p().spec_displayed_song() is Some {
            0
        } else {
            before.position
        }
    }

    /// The source that is shown has been brought up to date.
    pub open spec fn source_updated(self, before: Self, intrinsic: Seq<char>) -> bool {
        self.source.deep_view() == displayed_source(before.model.p(), intrinsic)
    }

    /// The sheet after all of it was brought up to date, with the song as far as
    /// `last` says.
    pub open spec fn synced(self, before: Self, intrinsic: Seq<char>, last: u32) -> bool {
        &&& self.info_updated(before)
        &&& self.source_updated(before, intrinsic)
        &&& self == (NowPlayingSheet {
            info: self.info,
            art: self.art,
            source: self.source,
            playing: before.model.p().spec_displayed_is_playing(),
            shuffled: before.model.p().is_shuffled,
            repeat: before.model.p().repeat,
            liked: playback::current_liked(before.model.app_model.state),
            position: last,
            last_position: last,
            ..before
        })
    }

    /// The sheet after an event asked something of it.
    pub open spec fn after(self, before: Self, task: SheetTask, intrinsic: Seq<char>) -> bool {
        let playing = before.model.p().spec_displayed_is_playing();
        let liked = playback::current_liked(before.model.app_model.state);
        match task {
            SheetTask::Playing => self == (NowPlayingSheet { playing, ..before }),
            SheetTask::Repeat(mode) => self == (NowPlayingSheet { repeat: mode, ..before }),
            SheetTask::Shuffled => self == (NowPlayingSheet {
                shuffled: before.model.p().is_shuffled,
                ..before
            }),
            SheetTask::Track => {
                &&& self.info_updated(before)
                &&& self.source_updated(before, intrinsic)
                &&& self == (NowPlayingSheet {
                    info: self.info,
                    art: self.art,
                    source: self.source,
                    playing,
                    liked,
                    position: Self::restarted(before),
                    last_position: 0,
                    ..before
                })
            },
            SheetTask::Source => {
                &&& self.source_updated(before, intrinsic)
                &&& self == (NowPlayingSheet { source: self.source, ..before })
            },
            SheetTask::Stopped => {
                &&& self.info_updated(before)
                &&& self.source_updated(before, intrinsic)
                &&& self == (NowPlayingSheet {
                    info: self.info,
                    art: self.art,
                    source: self.source,
                    playing,
                    position: Self::restarted(before),
                    ..before
                })
            },
            SheetTask::Position(position) => self == (NowPlayingSheet {
                position,
                last_position: position,
                ..before
            }),
            SheetTask::Liked => self == (NowPlayingSheet { liked, ..before }),
            SheetTask::Remote => self.synced(
                before,
                intrinsic,
                match before.model.p().remote {
                    Some(remote) => remote.progress_ms,
                    None => before.last_position,
                },
            ),
            SheetTask::Open => self.synced(before, intrinsic, before.last_position),
            SheetTask::Nothing => self == before,
        }
    }

    /// The sheet.
    pub fn new(model: NowPlayingSheetModel) -> (r: NowPlayingSheet)
        ensures
            r == (NowPlayingSheet {
                model,
                info: None,
                art: None,
                source: None,
                playing: false,
                shuffled: false,
                repeat: RepeatMode::Off,
                liked: false,
                position: 0,
                last_position: 0,
            }),
    {
        NowPlayingSheet {
            model,
            info: None,
            art: None,
            source: None,
            playing: false,
            shuffled: false,
            repeat: RepeatMode::Off,
            liked: false,
            position: 0,
            last_position: 0,
        }
    }

    /// Brings the song that is shown up to date.
    pub fn update_current_info(&mut self)
        ensures
            final(self).info_updated(*old(self)),
            *final(self) == (NowPlayingSheet {
                info: final(self).info,
                art: final(self).art,
                position: Self::restarted(*old(self)),
                ..*old(self)
            }),
    {
        match self.model.current_song() {
            Some(song) => {
                self.info = Some(track_info(&song));
                if let Some(url) = art_url(&song.art, SHEET_ART_WIDTH) {
                    self.art = Some(url);
                }
                self.position = 0;
            },
            None => {},
        }
    }

    /// Brings the source that is shown up to date.
    pub fn update_source(&mut self, intrinsic: &str)
        ensures
            final(self).after(*old(self), SheetTask::Source, intrinsic@),
    {
        self.source = self.model.source_display(intrinsic);
    }

    fn update_track(&mut self, intrinsic: &str)
        ensures
            final(self).after(*old(self), SheetTask::Track, intrinsic@),
    {
        let playing: bool = self.model.app_model.state.playback.displayed_is_playing();
        let liked: bool = is_current_liked(&self.model.app_model.state);
        self.update_current_info();
        self.update_source(intrinsic);
        self.playing = playing;
        self.liked = liked;
        self.last_position = 0;
    }

    fn update_stopped(&mut self, intrinsic: &str)
        ensures
            final(self).after(*old(self), SheetTask::Stopped, intrinsic@),
    {
        let playing: bool = self.model.app_model.state.playback.displayed_is_playing();
        self.update_current_info();
        self.update_source(intrinsic);
        self.playing = playing;
    }

    /// Brings all of the sheet up to date.
    fn sync_all(&mut self, intrinsic: &str, last: u32)
        ensures
            final(self).synced(*old(self), intrinsic@, last),
    {
        let playing: bool = self.model.app_model.state.playback.displayed_is_playing();
        let liked: bool = is_current_liked(&self.model.app_model.state);
        self.update_current_info();
        self.update_source(intrinsic);
        self.playing = playing;
        self.liked = liked;
        self.shuffled = self.model.app_model.state.playback.is_shuffled;
        self.repeat = self.model.app_model.state.playback.repeat;
        self.position = last;
        self.last_position = last;
    }

    /// Does what an event asks of the sheet.
    pub fn run(&mut self, sheets: &mut Sheets, task: SheetTask, intrinsic: &str)
        ensures
            final(self).after(*old(self), task, intrinsic@),
            *final(sheets) == (Sheets {
                now_playing: old(sheets).now_playing || task == SheetTask::Open,
                ..*old(sheets)
            }),
    {
        match task {
            SheetTask::Playing => {
                self.playing = self.model.app_model.state.playback.displayed_is_playing();
            },
            SheetTask::Repeat(mode) => {
                self.repeat = mode;
            },
            SheetTask::Shuffled => {
                self.shuffled = self.model.app_model.state.playback.is_shuffled;
            },
            SheetTask::Track => self.update_track(intrinsic),
            SheetTask::Source => self.update_source(intrinsic),
            SheetTask::Stopped => self.update_stopped(intrinsic),
            SheetTask::Position(position) => {
                self.position = position;
                self.last_position = position;
            },
            SheetTask::Liked => {
                self.liked = is_current_liked(&self.model.app_model.state);
            },
            SheetTask::Remote => {
                let last: u32 = match &self.model.app_model.state.playback.remote {
                    Some(remote) => remote.progress_ms,
                    None => self.last_position,
                };
                self.sync_all(intrinsic, last);
            },
            SheetTask::Open => {
                let last: u32 = self.last_position;
                self.sync_all(intrinsic, last);
                sheets.now_playing = true;
            },
            SheetTask::Nothing => {},
        }
    }

    /// What an event does to the sheet. `intrinsic` is the name of a source that is
    /// neither a playlist nor an album nor an artist.
    pub fn on_event(&mut self, sheets: &mut Sheets, event: &AppEvent, intrinsic: &str)
        ensures
            final(self).after(*old(self), sheet_task(*event), intrinsic@),
            *final(sheets) == (Sheets {
                now_playing: old(sheets).now_playing || sheet_task(*event) == SheetTask::Open,
                ..*old(sheets)
            }),
    {
        self.run(sheets, sheet_task_of(event), intrinsic);
    }

    /// The source was chosen: it is opened and the sheet is closed, if it can be
    /// opened.
    pub fn source_chosen(&mut self, sheets: &mut Sheets)
        ensures
            final(self).model.wants(
                old(self).model,
                match open_source(old(self).model.p()) {
                    Some(source) => seq![EffectView::Dispatch(source_action(source.deep_view()))],
                    None => Seq::empty(),
                },
            ),
            *final(self) == (NowPlayingSheet { model: final(self).model, ..*old(self) }),
            *final(sheets) == (Sheets {
                now_playing: old(sheets).now_playing && open_source(old(self).model.p()) is None,
                ..*old(sheets)
            }),
    {
        if self.model.navigate_to_source() {
            sheets.now_playing = false;
        }
    }

    /// The title was chosen: the album of the song is opened, and the sheet is
    /// closed.
    pub fn album_chosen(&mut self, sheets: &mut Sheets)
        ensures
            final(self).model.wants(
                old(self).model,
                match old(self).model.p().spec_displayed_song() {
                    Some(song) => seq![
                        EffectView::Dispatch(AppActionView::ViewAlbum(song.album.id)),
                    ],
                    None => Seq::empty(),
                },
            ),
            *final(self) == (NowPlayingSheet { model: final(self).model, ..*old(self) }),
            *final(sheets) == (Sheets { now_playing: false, ..*old(sheets) }),
    {
        self.model.view_album();
        sheets.now_playing = false;
    }

    /// The artist was chosen: the first artist of the song is opened, and the sheet
    /// is closed.
    pub fn artist_chosen(&mut self, sheets: &mut Sheets)
        ensures
            final(self).model.wants(
                old(self).model,
                first_artist_effects(old(self).model.p().spec_displayed_song()),
            ),
            *final(self) == (NowPlayingSheet { model: final(self).model, ..*old(self) }),
            *final(sheets) == (Sheets { now_playing: false, ..*old(sheets) }),
    {
        self.model.view_artist();
        sheets.now_playing = false;
    }

    /// The queue was asked for: it opens over the player, which stays open.
    pub fn queue_chosen(&self, sheets: &mut Sheets)
        ensures
            *final(sheets) == (Sheets { queue: true, ..*old(sheets) }),
    {
        sheets.queue = true;
    }

    /// The sheet is closed.
    pub fn close(&self, sheets: &mut Sheets)
        ensures
            *final(sheets) == (Sheets { now_playing: false, ..*old(sheets) }),
    {
        sheets.now_playing = false;
    }
}

// ── Laws ───────────────────────────────────────────────────────────────────

/// Choosing the source opens the page of what plays here: the album, the playlist,
/// the artist, the liked songs or the station that it is. While playback elsewhere is
/// followed nothing opens.
pub proof fn law_source_opens_its_page(p: PlaybackState)
    ensures
        p.is_mirroring_remote ==> open_source(p) is None,
        !p.is_mirroring_remote ==> open_source(p) == p.source,
        p.source matches Some(SongsSource::Album(id)) ==> source_action(p.source->0.deep_view())
            == AppActionView::ViewAlbum(id@),
        p.source matches Some(SongsSource::Playlist { id, title }) ==> source_action(
            p.source->0.deep_view(),
        ) == AppActionView::ViewPlaylist(id@),
        p.source matches Some(SongsSource::Artist(id)) ==> source_action(p.source->0.deep_view())
            == AppActionView::ViewArtist(id@),
        p.source matches Some(SongsSource::SavedTracks) ==> source_action(p.source->0.deep_view())
            == AppActionView::BrowserAction(
            BrowserActionView::NavigationPush(ScreenNameView::SavedTracks),
        ),
        p.source matches Some(SongsSource::Radio { seed_id, seed_name }) ==> source_action(
            p.source->0.deep_view(),
        ) == AppActionView::BrowserAction(
            BrowserActionView::NavigationPush(
                (ScreenNameView::Radio { seed_id: seed_id@, seed_name: seed_name@ }),
            ),
        ),
{
}

/// What plays here is said to come from the playlist by its title, from the album by
/// its name, from the artist by the artists of the song; a song without a source is
/// named by its album, which cannot be opened.
pub proof fn law_source_is_named(p: PlaybackState, i: usize, intrinsic: Seq<char>)
    requires
        !p.is_mirroring_remote,
        p.position == Some(i),
        i < p.songs@.len(),
    ensures
        ({
            let song = p.songs@[i as int];
            let shown = displayed_source(p, intrinsic);
            &&& p.source is None ==> (song.album.name@.len() == 0 ==> shown is None) && (
            song.album.name@.len() > 0 ==> shown == Some(
                SourceDisplayView { name: song.album.name@, navigable: false },
            ))
            &&& p.source matches Some(SongsSource::Playlist { id, title }) ==> (title@.len() == 0
                ==> shown is None) && (title@.len() > 0 ==> shown == Some(
                SourceDisplayView { name: title@, navigable: true },
            ))
            &&& p.source matches Some(SongsSource::Album(_)) ==> (song.album.name@.len() > 0
                ==> shown == Some(
                SourceDisplayView { name: song.album.name@, navigable: true },
            ))
            &&& p.source matches Some(SongsSource::Artist(_)) ==> (models::artists_line(
                song.artists.deep_view(),
            ).len() > 0 ==> shown == Some(
                SourceDisplayView {
                    name: models::artists_line(song.artists.deep_view()),
                    navigable: true,
                },
            ))
            &&& (p.source matches Some(SongsSource::SavedTracks)) ==> (intrinsic.len() > 0
                ==> shown == Some(SourceDisplayView { name: intrinsic, navigable: true }))
            &&& (p.source matches Some(SongsSource::Radio { seed_id, seed_name })) ==> (
            intrinsic.len() > 0 ==> shown == Some(
                SourceDisplayView { name: intrinsic, navigable: true },
            ))
        }),
{
}

/// What plays elsewhere is named by the playlist that was played here only if the
/// other device names that very playlist as its context; otherwise it is named by the
/// album of its song. It can never be opened.
pub proof fn law_followed_source_is_proven(
    p: PlaybackState,
    remote: crate::models::RemotePlayback,
    intrinsic: Seq<char>,
)
    requires
        p.is_mirroring_remote,
        p.remote == Some(remote),
    ensures
        displayed_source(p, intrinsic) matches Some(shown) ==> !shown.navigable && (shown.name
            == remote.song.album.name@ || (p.source matches Some(
            SongsSource::Playlist { id, title },
        ) && shown.name == title@ && remote.context_uri.deep_view() == Some(
            "spotify:playlist:"@ + id@,
        ))),
        p.source matches Some(SongsSource::Playlist { id, title }) ==> (title@.len() > 0
            && remote.context_uri.deep_view() == Some("spotify:playlist:"@ + id@) ==> (
        displayed_source(p, intrinsic) matches Some(shown) && shown.name == title@)),
        remote.context_uri is None && remote.song.album.name@.len() > 0 ==> (displayed_source(
            p,
            intrinsic,
        ) matches Some(shown) && shown.name == remote.song.album.name@),
{
}

/// Choosing the artist opens the first artist of the song, if it has any.
pub proof fn law_first_artist_opens(song: SongDescription)
    ensures
        song.artists@.len() > 0 ==> first_artist_effects(Some(song.deep_view())) == seq![
            EffectView::Dispatch(AppActionView::ViewArtist(song.artists@[0].id@)),
        ],
        song.artists@.len() == 0 ==> first_artist_effects(Some(song.deep_view())).len() == 0,
        first_artist_effects(None).len() == 0,
{
    assert(song.artists.deep_view().len() == song.artists@.len());
    if song.artists@.len() > 0 {
        assert(song.artists.deep_view()[0] == song.artists@[0].deep_view());
    }
}

/// After an event the sheet shows what the event tells of, and everything else as
/// before; a new place is also kept for when the sheet opens.
pub proof fn law_sheet_follows_the_event(
    before: NowPlayingSheet,
    after: NowPlayingSheet,
    event: AppEvent,
    intrinsic: Seq<char>,
)
    requires
        after.after(before, sheet_task(event), intrinsic),
    ensures
        event == AppEvent::PlaybackEvent(PlaybackEvent::PlaybackPaused) || event
            == AppEvent::PlaybackEvent(PlaybackEvent::PlaybackResumed) ==> after == (
        NowPlayingSheet {
            playing: before.model.app_model.state.playback.spec_displayed_is_playing(),
            ..before
        }),
        event matches AppEvent::PlaybackEvent(PlaybackEvent::TrackSeeked(position)) ==> after == (
        NowPlayingSheet { position, last_position: position, ..before }),
        event matches AppEvent::PlaybackEvent(PlaybackEvent::SeekSynced(position)) ==> after == (
        NowPlayingSheet { position, last_position: position, ..before }),
        event matches AppEvent::PlaybackEvent(PlaybackEvent::RepeatModeChanged(mode)) ==> after == (
        NowPlayingSheet { repeat: mode, ..before }),
        event matches AppEvent::PlaybackEvent(PlaybackEvent::ShuffleChanged(_)) ==> after == (
        NowPlayingSheet {
            shuffled: before.model.app_model.state.playback.is_shuffled,
            ..before
        }),
        event == AppEvent::BrowserEvent(BrowserEvent::SavedTracksUpdated) ==> after == (
        NowPlayingSheet {
            liked: playback::current_liked(before.model.app_model.state),
            ..before
        }),
        event == AppEvent::PlaybackEvent(PlaybackEvent::SourceChanged) || event
            == AppEvent::PlaybackEvent(PlaybackEvent::RemoteContextChanged) || event
            == AppEvent::BrowserEvent(BrowserEvent::SavedPlaylistsUpdated) ==> {
            &&& after == (NowPlayingSheet { source: after.source, ..before })
            &&& after.source.deep_view() == displayed_source(
                before.model.app_model.state.playback,
                intrinsic,
            )
        },
{
}

/// When the sheet opens, all of it is as the state has it, and the song is where it
/// was last known to be. The sheet is opened by nothing else.
pub proof fn law_sheet_opens_up_to_date(
    before: NowPlayingSheet,
    after: NowPlayingSheet,
    event: AppEvent,
    intrinsic: Seq<char>,
)
    requires
        after.after(before, sheet_task(event), intrinsic),
    ensures
        sheet_task(event) == SheetTask::Open <==> event is NowPlayingSheetShown,
        event is NowPlayingSheetShown ==> {
            let p = before.model.app_model.state.playback;
            &&& after.playing == p.spec_displayed_is_playing()
            &&& after.shuffled == p.is_shuffled
            &&& after.repeat == p.repeat
            &&& after.liked == playback::current_liked(before.model.app_model.state)
            &&& after.position == before.last_position
            &&& after.source.deep_view() == displayed_source(p, intrinsic)
            &&& p.spec_displayed_song() matches Some(song) ==> (after.info matches Some(info)
                && info.title@ == song.title && info.duration_ms == song.duration_ms)
        },
        event == AppEvent::PlaybackEvent(PlaybackEvent::RemotePlaybackChanged) ==> {
            let p = before.model.app_model.state.playback;
            &&& after.playing == p.spec_displayed_is_playing()
            &&& p.remote matches Some(remote) ==> after.position == remote.progress_ms
            &&& p.remote is None ==> after.position == before.last_position
        },
        event matches AppEvent::PlaybackEvent(PlaybackEvent::TrackChanged(_)) ==> {
            let p = before.model.app_model.state.playback;
            &&& after.last_position == 0
            &&& p.spec_displayed_song() matches Some(song) ==> after.position == 0 && (after.info
                matches Some(info) && info.title@ == song.title)
        },
{
}

/// The view of a `SourceDisplay` holds its parts, each under its own name.
pub proof fn law_view_of_source_display(value: SourceDisplay)
    ensures
        value.deep_view().name == value.name@,
        value.deep_view().navigable == value.navigable,
{
}

/// The picture on the sheet is large, and a name is shown unless it is empty.
pub proof fn law_names_are_shown(name: Seq<char>, navigable: bool)
    ensures
        name.len() == 0 ==> shown_source(name, navigable) is None,
        name.len() > 0 ==> shown_source(name, navigable) == Some(
            SourceDisplayView { name, navigable },
        ),
        SHEET_ART_WIDTH == 320,
{
}

} // verus!

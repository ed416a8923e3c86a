//! Tells the players what has happened: which player is told what, and whether
//! playback elsewhere is followed.

use vstd::prelude::*;

use crate::actions::{
    ActionDispatcher, ApiCall, ApiCallView, AppAction, AppActionView, AppEvent, Device, DeviceView,
    EffectView, LoginAction, LoginActionView, LoginEvent, LoginStartedEvent, PlaybackEvent,
    SettingsEvent, SongsSource, SongsSourceView,
};
use crate::lists;
use crate::models::{SongDescription, SongDescriptionView};
use crate::shell::commands::{Command, CommandView, ConnectCommand, ConnectCommandView};
use crate::shell::dsp;
use crate::shell::dsp::{dsp_command, DspSettings};
use crate::song_list;
use crate::spotify_id;
use crate::spotify_id::TrackUri;
use crate::state::{AppModel, PlaybackState};
use crate::text::{cat, str_eq};

verus! {

// ── What is playing ────────────────────────────────────────────────────────

/// What is playing: a song of a source that the service knows, or one of a list of
/// songs.
#[derive(Debug, PartialEq, Eq)]
pub enum CurrentlyPlaying {
    WithSource { source: SongsSource, source_offset: usize, song: String },
    Songs { songs: Vec<String>, offset: usize },
}

/// The contents of a `CurrentlyPlaying`.
pub enum CurrentlyPlayingView {
    WithSource { source: SongsSourceView, source_offset: usize, song: Seq<char> },
    Songs { songs: Seq<Seq<char>>, offset: usize },
}

impl DeepView for CurrentlyPlaying {
    type V = CurrentlyPlayingView;

    open spec fn deep_view(&self) -> CurrentlyPlayingView {
        match self {
            CurrentlyPlaying::WithSource {
                source,
                source_offset,
                song,
            } => CurrentlyPlayingView::WithSource {
                source: source.deep_view(),
                source_offset: *source_offset,
                song: song@,
            },
            CurrentlyPlaying::Songs { songs, offset } => CurrentlyPlayingView::Songs {
                songs: songs.deep_view(),
                offset: *offset,
            },
        }
    }
}

impl CurrentlyPlayingView {
    /// The song is in the list.
    pub open spec fn wf(self) -> bool {
        match self {
            CurrentlyPlayingView::WithSource { .. } => true,
            CurrentlyPlayingView::Songs { songs, offset } => offset < songs.len(),
        }
    }

    /// The id of the song.
    pub open spec fn spec_song_id(self) -> Seq<char> {
        match self {
            CurrentlyPlayingView::WithSource { song, .. } => song,
            CurrentlyPlayingView::Songs { songs, offset } => songs[offset as int],
        }
    }
}

impl CurrentlyPlaying {
    /// The id of the song.
    pub fn song_id(&self) -> (r: &String)
        requires
            self.deep_view().wf(),
        ensures
            r@ == self.deep_view().spec_song_id(),
    {
        match self {
            CurrentlyPlaying::WithSource { song, .. } => song,
            CurrentlyPlaying::Songs { songs, offset } => {
                assert(songs.deep_view()[*offset as int] == songs@[*offset as int]@);
                &songs[*offset]
            },
        }
    }
}

/// What is playing here.
pub open spec fn playing_of(p: PlaybackState) -> Option<CurrentlyPlayingView> {
    match (p.spec_current_song_id(), p.position) {
        (Some(song), Some(offset)) => match p.source {
            Some(source) if source.deep_view().uri() is Some => Some(
                CurrentlyPlayingView::WithSource {
                    source: source.deep_view(),
                    source_offset: offset,
                    song,
                },
            ),
            _ => Some(
                CurrentlyPlayingView::Songs {
                    songs: song_list::song_ids(p.songs.deep_view()),
                    offset,
                },
            ),
        },
        _ => None,
    }
}

fn ids_of(songs: &Vec<SongDescription>) -> (r: Vec<String>)
    ensures
        r.deep_view() == song_list::song_ids(songs.deep_view()),
        r@.len() == songs@.len(),
{
    let ghost all = song_list::song_ids(songs.deep_view());
    let mut ids: Vec<String> = Vec::new();
    let mut i: usize = 0;
    assert(ids.deep_view() =~= all.take(0));
    while i < songs.len()
        invariant
            i <= songs.len(),
            all == song_list::song_ids(songs.deep_view()),
            ids.deep_view() == all.take(i as int),
            ids@.len() == i,
        decreases songs.len() - i,
    {
        let ghost before = ids;
        let id: String = songs[i].id.clone();
        ids.push(id);
        proof {
            lists::lemma_deep_push(before, ids, id);
            lists::lemma_take_push(all, i as int);
            assert(songs.deep_view()[i as int] == songs@[i as int].deep_view());
        }
        i += 1;
    }
    proof {
        lists::lemma_take_all(all);
    }
    ids
}

// ── Lists of tracks ────────────────────────────────────────────────────────

/// How many tracks the service takes at most.
pub const MAX_URIS: usize = 500;

/// Where the part of a long list starts that is handed on: at the song that is to
/// be played, or before it where the list would end too early.
pub open spec fn window_start(len: int, offset: int) -> int {
    if len <= MAX_URIS {
        0
    } else if offset <= len - MAX_URIS {
        offset
    } else {
        len - MAX_URIS
    }
}

/// The part of a list of songs that is handed on.
pub open spec fn window(songs: Seq<Seq<char>>, offset: int) -> Seq<Seq<char>> {
    let start = window_start(songs.len() as int, offset);
    if songs.len() <= MAX_URIS {
        songs
    } else {
        songs.subrange(start, start + MAX_URIS)
    }
}

/// The URI of a track.
pub open spec fn track_uri(id: Seq<char>) -> Seq<char> {
    "spotify:track:"@ + id
}

/// The URIs of tracks.
pub open spec fn track_uris(ids: Seq<Seq<char>>) -> Seq<Seq<char>> {
    ids.map_values(|id: Seq<char>| track_uri(id))
}

/// However long the list is, no more tracks are handed on than the service takes,
/// and the song that is to be played is among them, at the place that goes along.
pub proof fn law_window_keeps_the_song(songs: Seq<Seq<char>>, offset: int)
    requires
        0 <= offset < songs.len(),
    ensures
        window(songs, offset).len() <= MAX_URIS,
        0 <= offset - window_start(songs.len() as int, offset) < window(songs, offset).len(),
        window(songs, offset)[offset - window_start(songs.len() as int, offset)] == songs[offset],
        songs.len() <= MAX_URIS ==> window(songs, offset) == songs,
        songs.len() > MAX_URIS ==> window(songs, offset).len() == MAX_URIS,
{
}

/// The part of a list of songs that is handed on, as URIs, and the place of the
/// song in it.
fn windowed_uris(songs: &Vec<String>, offset: usize) -> (r: (Vec<String>, usize))
    requires
        offset < songs@.len(),
    ensures
        r.0.deep_view() == track_uris(window(songs.deep_view(), offset as int)),
        r.1 == offset - window_start(songs@.len() as int, offset as int),
{
    let (start, end): (usize, usize) = if songs.len() > MAX_URIS {
        let last: usize = songs.len() - MAX_URIS;
        let start: usize = if offset <= last {
            offset
        } else {
            last
        };
        (start, start + MAX_URIS)
    } else {
        (0, songs.len())
    };
    let ghost part = window(songs.deep_view(), offset as int);
    let ghost all = track_uris(part);
    let mut uris: Vec<String> = Vec::new();
    let mut i: usize = start;
    proof {
        assert(songs.deep_view().len() == songs@.len());
        assert(part =~= songs.deep_view().subrange(start as int, end as int));
        assert(uris.deep_view() =~= all.take(0));
    }
    while i < end
        invariant
            start <= i <= end <= songs.len(),
            part == songs.deep_view().subrange(start as int, end as int),
            all == track_uris(part),
            uris.deep_view() == all.take(i - start),
        decreases end - i,
    {
        let ghost before = uris;
        let uri: String = cat("spotify:track:", songs[i].as_str());
        uris.push(uri);
        proof {
            lists::lemma_deep_push(before, uris, uri);
            lists::lemma_take_push(all, i - start);
            assert(part[i - start] == songs@[i as int]@);
        }
        i += 1;
    }
    proof {
        lists::lemma_take_all(all);
    }
    (uris, offset - start)
}

// ── What the players are told ──────────────────────────────────────────────

/// What goes out: to the player here, to players elsewhere, and to the rest of the
/// program.
pub struct Outgoing {
    pub local: Seq<CommandView>,
    pub connect: Seq<ConnectCommandView>,
    pub effects: Seq<EffectView>,
}

impl Outgoing {
    /// Nothing goes out.
    pub open spec fn nothing() -> Outgoing {
        Outgoing { local: Seq::empty(), connect: Seq::empty(), effects: Seq::empty() }
    }

    /// This, and then more.
    pub open spec fn and(self, more: Outgoing) -> Outgoing {
        Outgoing {
            local: self.local + more.local,
            connect: self.connect + more.connect,
            effects: self.effects + more.effects,
        }
    }
}

/// A command for the player here, if there is one.
pub open spec fn to_local(command: Option<CommandView>) -> Outgoing {
    Outgoing {
        local: match command {
            Some(command) => seq![command],
            None => Seq::empty(),
        },
        ..Outgoing::nothing()
    }
}

/// A command for a player elsewhere, if there is one.
pub open spec fn to_connect(command: Option<ConnectCommandView>) -> Outgoing {
    Outgoing {
        connect: match command {
            Some(command) => seq![command],
            None => Seq::empty(),
        },
        ..Outgoing::nothing()
    }
}

/// A call to the web API.
pub open spec fn to_api(call: ApiCallView) -> Outgoing {
    Outgoing { effects: seq![EffectView::Call(call)], ..Outgoing::nothing() }
}

/// What a step of the login asks of the player here.
pub open spec fn login_command(event: LoginEvent) -> Option<CommandView> {
    match event {
        LoginEvent::LoginStarted(LoginStartedEvent::Restore) => Some(CommandView::Restore),
        LoginEvent::LoginStarted(LoginStartedEvent::InitLogin) => Some(CommandView::InitLogin),
        LoginEvent::LoginStarted(LoginStartedEvent::CompleteLogin) => Some(
            CommandView::CompleteLogin,
        ),
        LoginEvent::FreshTokenRequested => Some(CommandView::RefreshToken),
        LoginEvent::LogoutCompleted => Some(CommandView::Logout),
        _ => None,
    }
}

/// This device is the one that plays.
pub open spec fn is_local(p: PlaybackState) -> bool {
    p.device is Local
}

/// Whether playback elsewhere is followed, and whether another device taking over
/// is watched for.
pub open spec fn mirror_out(p: PlaybackState) -> Outgoing {
    Outgoing {
        connect: seq![
            ConnectCommandView::SetRemoteMirrorActive(is_local(p) && !p.local_session_active),
            ConnectCommandView::SetTakeoverWatchActive(is_local(p) && p.local_session_active),
        ],
        ..Outgoing::nothing()
    }
}

/// Playback elsewhere is never followed while another device taking over is
/// watched for; on this device one of the two is on, elsewhere neither.
pub proof fn law_mirror_and_watch_exclude_each_other(p: PlaybackState)
    ensures
        mirror_out(p).connect.len() == 2,
        mirror_out(p).connect[0] matches ConnectCommandView::SetRemoteMirrorActive(mirror) && (
        mirror_out(p).connect[1] matches ConnectCommandView::SetTakeoverWatchActive(watch) && !(
        mirror && watch) && (is_local(p) <==> (mirror || watch))),
{
}

/// What an event asks of a player elsewhere.
pub open spec fn connect_command(
    p: PlaybackState,
    event: PlaybackEvent,
) -> Option<ConnectCommandView> {
    match event {
        PlaybackEvent::TrackChanged(_) | PlaybackEvent::SourceChanged => match playing_of(p) {
            Some(CurrentlyPlayingView::WithSource { source, source_offset, song }) => Some(
                ConnectCommandView::PlayerLoadInContext {
                    source,
                    context_offset: source_offset,
                    song,
                },
            ),
            Some(CurrentlyPlayingView::Songs { songs, offset }) => Some(
                ConnectCommandView::PlayerLoad { songs, song_offset: offset },
            ),
            None => None,
        },
        PlaybackEvent::TrackSeeked(position) => Some(
            ConnectCommandView::PlayerSeek(position as usize),
        ),
        PlaybackEvent::PlaybackPaused => Some(ConnectCommandView::PlayerPause),
        PlaybackEvent::PlaybackResumed => Some(ConnectCommandView::PlayerResume),
        PlaybackEvent::VolumeSet(volume) => Some(
            ConnectCommandView::PlayerSetVolume(volume.percent),
        ),
        PlaybackEvent::RepeatModeChanged(mode) => Some(ConnectCommandView::PlayerRepeat(mode)),
        PlaybackEvent::ShuffleChanged(shuffled) => Some(
            ConnectCommandView::PlayerShuffle(shuffled),
        ),
        _ => None,
    }
}

/// What loads the current song here through the session that other devices see:
/// its context where the service knows it, a list of tracks otherwise. There is
/// none if nothing is current or if the id of the song is not valid.
pub open spec fn load_command(p: PlaybackState, start_playing: bool) -> Option<CommandView> {
    match playing_of(p) {
        None => None,
        Some(playing) => match spotify_id::track_id_of(playing.spec_song_id()) {
            None => None,
            Some(id) => match playing {
                CurrentlyPlayingView::WithSource { source, source_offset, song } => Some(
                    CommandView::SpircLoadContext {
                        context_uri: source.uri()->0,
                        context_offset: source_offset,
                        playing_track_uri: Some(track_uri(song)),
                        start_playing,
                        fallback: TrackUri { id },
                    },
                ),
                CurrentlyPlayingView::Songs { songs, offset } => Some(
                    CommandView::SpircLoadTracks {
                        uris: track_uris(window(songs, offset as int)),
                        track_offset: (offset - window_start(
                            songs.len() as int,
                            offset as int,
                        )) as usize,
                        start_playing,
                        fallback: TrackUri { id },
                    },
                ),
            },
        },
    }
}

/// What loads a track by its id alone, if the id is valid.
pub open spec fn bare_load(id: Seq<char>, resume: bool) -> Option<CommandView> {
    match spotify_id::track_id_of(id) {
        Some(id) => Some(CommandView::PlayerLoad { track: TrackUri { id }, resume }),
        None => None,
    }
}

/// What an event asks of the player here.
pub open spec fn local_command(p: PlaybackState, event: PlaybackEvent) -> Option<CommandView> {
    match event {
        PlaybackEvent::PlaybackPaused => Some(CommandView::PlayerPause),
        PlaybackEvent::PlaybackResumed => Some(CommandView::PlayerResume),
        PlaybackEvent::PlaybackStopped => Some(CommandView::PlayerStop),
        PlaybackEvent::VolumeSet(volume) => Some(CommandView::PlayerSetVolume(volume)),
        PlaybackEvent::TrackChanged(id) => match load_command(p, true) {
            Some(command) => Some(command),
            None => bare_load(id@, true),
        },
        PlaybackEvent::SourceChanged => match load_command(p, p.is_playing) {
            Some(command) => Some(command),
            None => match playing_of(p) {
                Some(playing) => bare_load(playing.spec_song_id(), p.is_playing),
                None => None,
            },
        },
        PlaybackEvent::TrackSeeked(position) => Some(CommandView::PlayerSeek(position)),
        PlaybackEvent::Preload(id) => match spotify_id::track_id_of(id@) {
            Some(id) => Some(CommandView::PlayerPreload(TrackUri { id })),
            None => None,
        },
        _ => None,
    }
}

/// What an event asks of the session while another device controls it. Loads are
/// not passed on: the session has its own queue then.
pub open spec fn spirc_command(event: PlaybackEvent) -> Option<CommandView> {
    match event {
        PlaybackEvent::PlaybackResumed => Some(CommandView::SpircPlay),
        PlaybackEvent::PlaybackPaused => Some(CommandView::SpircPause),
        PlaybackEvent::PlaybackStopped => Some(CommandView::SpircPause),
        PlaybackEvent::TrackSeeked(position) => Some(CommandView::SpircSeek(position)),
        PlaybackEvent::VolumeSet(volume) => Some(CommandView::SpircSetVolume(volume)),
        PlaybackEvent::RemoteNextRequested => Some(CommandView::SpircNext),
        PlaybackEvent::RemotePrevRequested => Some(CommandView::SpircPrev),
        _ => None,
    }
}

/// What starts the current song on another device.
pub open spec fn route_out(p: PlaybackState, device_id: Seq<char>) -> Outgoing {
    match playing_of(p) {
        None => Outgoing::nothing(),
        Some(CurrentlyPlayingView::WithSource { source, source_offset, .. }) => to_api(
            ApiCallView::PlayerPlayContext {
                device_id,
                context_uri: source.uri(),
                track_uris: None,
                offset: source_offset,
            },
        ),
        Some(CurrentlyPlayingView::Songs { songs, offset }) => to_api(
            ApiCallView::PlayerPlayContext {
                device_id,
                context_uri: None,
                track_uris: Some(track_uris(window(songs, offset as int))),
                offset: (offset - window_start(songs.len() as int, offset as int)) as usize,
            },
        ),
    }
}

/// Whether what is followed on a device is playing; none if that device is not
/// followed.
pub open spec fn remote_play_state(p: PlaybackState, device_id: Seq<char>) -> Option<bool> {
    match p.remote {
        Some(remote) if remote.device.id@ == device_id => Some(remote.is_playing),
        _ => None,
    }
}

/// What moves playback to a device. A device that was followed keeps its state;
/// any other starts to play.
pub open spec fn switch_out(p: PlaybackState, device: Device) -> Outgoing {
    match device {
        Device::Connect(device) => to_local(Some(CommandView::PlayerStop)).and(
            to_connect(Some(ConnectCommandView::SetDevice(device.id@))),
        ).and(
            to_api(
                ApiCallView::PlayerTransfer {
                    device_id: device.id@,
                    play: match remote_play_state(p, device.id@) {
                        Some(play) => play,
                        None => true,
                    },
                },
            ),
        ).and(to_connect(connect_command(p, PlaybackEvent::SourceChanged))),
        Device::Local => to_connect(Some(ConnectCommandView::PlayerStop)).and(
            to_local(local_command(p, PlaybackEvent::SourceChanged)),
        ).and(mirror_out(p)),
    }
}

/// The event is a song that is loaded.
pub open spec fn is_load(event: PlaybackEvent) -> bool {
    event is TrackChanged || event is SourceChanged
}

/// The event only starts, pauses or stops what is loaded.
pub open spec fn is_transport(event: PlaybackEvent) -> bool {
    event is PlaybackResumed || event is PlaybackPaused || event is PlaybackStopped
}

/// What an event that concerns playback makes go out.
pub open spec fn playback_out(p: PlaybackState, event: PlaybackEvent) -> Outgoing {
    match event {
        PlaybackEvent::SwitchedDevice(device) => switch_out(p, device),
        PlaybackEvent::RemoteControlChanged(controlled) => to_local(
            Some(CommandView::SetLocalOwnsPlayer(!controlled)),
        ).and(mirror_out(p)),
        PlaybackEvent::YieldedActiveDevice => to_local(
            Some(CommandView::SetLocalOwnsPlayer(false)),
        ).and(mirror_out(p)),
        _ => if p.is_remote_controlled {
            to_local(spirc_command(event))
        } else if p.device is Connect {
            to_connect(connect_command(p, event))
        } else if is_load(event) && p.active_remote_device is Some {
            route_out(p, p.active_remote_device->0@)
        } else {
            to_local(
                if is_transport(event) {
                    Some(CommandView::SetLocalOwnsPlayer(p.local_session_active))
                } else {
                    None
                },
            ).and(to_local(local_command(p, event))).and(
                if is_transport(event) || is_load(event) {
                    mirror_out(p)
                } else {
                    Outgoing::nothing()
                },
            )
        },
    }
}

/// What an event makes go out.
pub open spec fn event_out(p: PlaybackState, event: AppEvent) -> Outgoing {
    match event {
        AppEvent::LoginEvent(event) => to_local(login_command(event)).and(
            if event is LoginCompleted {
                mirror_out(p)
            } else {
                Outgoing::nothing()
            },
        ),
        AppEvent::RadioRequested(seed_id) => to_local(
            Some(CommandView::StartRadio { seed_id: seed_id@ }),
        ),
        AppEvent::RemoteMirrorRepollRequested => if p.is_mirroring_remote {
            to_connect(Some(ConnectCommandView::SetRemoteMirrorActive(true)))
        } else {
            Outgoing::nothing()
        },
        AppEvent::Started | AppEvent::NowPlayingSheetShown => mirror_out(p),
        AppEvent::PlaybackEvent(event) => playback_out(p, event),
        AppEvent::SettingsEvent(SettingsEvent::PlayerSettingsChanged) => if is_local(p) {
            to_local(Some(CommandView::ReloadSettings))
        } else {
            Outgoing::nothing()
        },
        _ => Outgoing::nothing(),
    }
}

/// What tells the players what has happened.
#[derive(Debug, PartialEq, Eq)]
pub struct PlayerNotifier {
    pub app_model: AppModel,
    pub dispatcher: ActionDispatcher,
    /// What the player here is still to be told.
    pub commands: Vec<Command>,
    /// What players elsewhere are still to be told.
    pub connect_commands: Vec<ConnectCommand>,
}

impl PlayerNotifier {
    /// Nothing has been told yet.
    pub fn new(app_model: AppModel, dispatcher: ActionDispatcher) -> (r: Self)
        ensures
            r.app_model == app_model,
            r.dispatcher == dispatcher,
            r.commands@.len() == 0,
            r.connect_commands@.len() == 0,
    {
        PlayerNotifier {
            app_model,
            dispatcher,
            commands: Vec::new(),
            connect_commands: Vec::new(),
        }
    }

    /// What plays.
    pub open spec fn playback(self) -> PlaybackState {
        self.app_model.state.playback
    }

    /// This went out, and nothing else changed.
    pub open spec fn sent(self, before: Self, out: Outgoing) -> bool {
        &&& self.app_model == before.app_model
        &&& self.commands.deep_view() == before.commands.deep_view() + out.local
        &&& self.connect_commands.deep_view() == before.connect_commands.deep_view() + out.connect
        &&& self.dispatcher@ == before.dispatcher@ + out.effects
    }

    proof fn lemma_sent_twice(a: Self, b: Self, c: Self, first: Outgoing, second: Outgoing)
        requires
            b.sent(a, first),
            c.sent(b, second),
        ensures
            c.sent(a, first.and(second)),
    {
        assert(c.commands.deep_view() =~= a.commands.deep_view() + (first.local + second.local));
        assert(c.connect_commands.deep_view() =~= a.connect_commands.deep_view() + (first.connect
            + second.connect));
        assert(c.dispatcher@ =~= a.dispatcher@ + (first.effects + second.effects));
    }

    proof fn lemma_sent_nothing(a: Self)
        ensures
            a.sent(a, Outgoing::nothing()),
    {
        assert(a.commands.deep_view() =~= a.commands.deep_view() + Seq::<CommandView>::empty());
        assert(a.connect_commands.deep_view() =~= a.connect_commands.deep_view() + Seq::<
            ConnectCommandView,
        >::empty());
        assert(a.dispatcher@ =~= a.dispatcher@ + Seq::<EffectView>::empty());
    }

    /// Takes what the player here is to be told.
    pub fn take_commands(&mut self) -> (r: Vec<Command>)
        ensures
            r == old(self).commands,
            *final(self) == (PlayerNotifier { commands: final(self).commands, ..*old(self) }),
            final(self).commands@.len() == 0,
    {
        let mut taken: Vec<Command> = Vec::new();
        std::mem::swap(&mut taken, &mut self.commands);
        taken
    }

    /// Takes what players elsewhere are to be told.
    pub fn take_connect_commands(&mut self) -> (r: Vec<ConnectCommand>)
        ensures
            r == old(self).connect_commands,
            *final(self) == (PlayerNotifier {
                connect_commands: final(self).connect_commands,
                ..*old(self)
            }),
            final(self).connect_commands@.len() == 0,
    {
        let mut taken: Vec<ConnectCommand> = Vec::new();
        std::mem::swap(&mut taken, &mut self.connect_commands);
        taken
    }

    /// A setting of the sound has changed: the player here is told.
    pub fn setting_changed(&mut self, key: &str, settings: &DspSettings)
        ensures
            final(self).sent(*old(self), to_local(dsp::dsp_change(key@, *settings))),
    {
        self.send_local(dsp_command(key, settings));
    }

    /// The player here could not be told: the login has failed.
    pub fn local_send_failed(&mut self)
        ensures
            *final(self) == (PlayerNotifier { dispatcher: final(self).dispatcher, ..*old(self) }),
            final(self).dispatcher@ == old(self).dispatcher@ + seq![
                EffectView::Dispatch(AppActionView::LoginAction(LoginActionView::SetLoginFailure)),
            ],
    {
        self.dispatcher.dispatch(AppAction::LoginAction(LoginAction::SetLoginFailure));
    }

    fn send_local(&mut self, command: Option<Command>)
        ensures
            final(self).sent(*old(self), to_local(command.deep_view())),
    {
        proof {
            Self::lemma_sent_nothing(*self);
        }
        match command {
            Some(command) => {
                let ghost before = self.commands;
                self.commands.push(command);
                proof {
                    lists::lemma_deep_push(before, self.commands, command);
                    assert(self.commands.deep_view() =~= before.deep_view() + seq![
                        command.deep_view(),
                    ]);
                }
            },
            None => {},
        }
    }

    fn send_connect(&mut self, command: Option<ConnectCommand>)
        ensures
            final(self).sent(*old(self), to_connect(command.deep_view())),
    {
        proof {
            Self::lemma_sent_nothing(*self);
        }
        match command {
            Some(command) => {
                let ghost before = self.connect_commands;
                self.connect_commands.push(command);
                proof {
                    lists::lemma_deep_push(before, self.connect_commands, command);
                    assert(self.connect_commands.deep_view() =~= before.deep_view() + seq![
                        command.deep_view(),
                    ]);
                }
            },
            None => {},
        }
    }

    fn send_call(&mut self, call: ApiCall)
        ensures
            final(self).sent(*old(self), to_api(call.deep_view())),
    {
        proof {
            Self::lemma_sent_nothing(*self);
        }
        self.dispatcher.call(call);
    }

    /// What is playing here.
    pub fn currently_playing(&self) -> (r: Option<CurrentlyPlaying>)
        ensures
            r.deep_view() == playing_of(self.playback()),
            r matches Some(playing) ==> playing.deep_view().wf(),
    {
        let p = &self.app_model.state.playback;
        let song: String = match p.current_song_id() {
            Some(song) => song,
            None => {
                return None;
            },
        };
        let offset: usize = match p.current_song_index() {
            Some(offset) => offset,
            None => {
                return None;
            },
        };
        match &p.source {
            Some(source) => if source.has_spotify_uri() {
                return Some(
                    CurrentlyPlaying::WithSource {
                        source: source.clone(),
                        source_offset: offset,
                        song,
                    },
                );
            },
            None => {},
        }
        let songs: Vec<String> = ids_of(&p.songs);
        assert(songs.deep_view().len() == songs@.len());
        Some(CurrentlyPlaying::Songs { songs, offset })
    }

    /// A step of the login has been made.
    pub fn notify_login(&mut self, event: &LoginEvent)
        ensures
            final(self).sent(
                *old(self),
                event_out(old(self).playback(), AppEvent::LoginEvent(*event)),
            ),
    {
        let command: Option<Command> = match event {
            LoginEvent::LoginStarted(LoginStartedEvent::Restore) => Some(Command::Restore),
            LoginEvent::LoginStarted(LoginStartedEvent::InitLogin) => Some(Command::InitLogin),
            LoginEvent::LoginStarted(LoginStartedEvent::CompleteLogin) => Some(
                Command::CompleteLogin,
            ),
            LoginEvent::FreshTokenRequested => Some(Command::RefreshToken),
            LoginEvent::LogoutCompleted => Some(Command::Logout),
            _ => None,
        };
        self.send_local(command);
        let ghost middle = *self;
        match event {
            LoginEvent::LoginCompleted => self.refresh_remote_mirror(),
            _ => proof {
                Self::lemma_sent_nothing(*self);
            },
        }
        proof {
            Self::lemma_sent_twice(
                *old(self),
                middle,
                *self,
                to_local(login_command(*event)),
                if event is LoginCompleted {
                    mirror_out(old(self).playback())
                } else {
                    Outgoing::nothing()
                },
            );
        }
    }

    /// Tells a player elsewhere of an event.
    pub fn notify_connect_player(&mut self, event: &PlaybackEvent)
        ensures
            final(self).sent(
                *old(self),
                to_connect(connect_command(old(self).playback(), *event)),
            ),
    {
        let command: Option<ConnectCommand> = match event {
            PlaybackEvent::TrackChanged(_) | PlaybackEvent::SourceChanged => {
                match self.currently_playing() {
                    Some(CurrentlyPlaying::WithSource { source, source_offset, song }) => Some(
                        ConnectCommand::PlayerLoadInContext {
                            source,
                            context_offset: source_offset,
                            song,
                        },
                    ),
                    Some(CurrentlyPlaying::Songs { songs, offset }) => Some(
                        ConnectCommand::PlayerLoad { songs, song_offset: offset },
                    ),
                    None => None,
                }
            },
            PlaybackEvent::TrackSeeked(position) => Some(
                ConnectCommand::PlayerSeek(*position as usize),
            ),
            PlaybackEvent::PlaybackPaused => Some(ConnectCommand::PlayerPause),
            PlaybackEvent::PlaybackResumed => Some(ConnectCommand::PlayerResume),
            PlaybackEvent::VolumeSet(volume) => Some(
                ConnectCommand::PlayerSetVolume(volume.percent),
            ),
            PlaybackEvent::RepeatModeChanged(mode) => Some(ConnectCommand::PlayerRepeat(*mode)),
            PlaybackEvent::ShuffleChanged(shuffled) => Some(
                ConnectCommand::PlayerShuffle(*shuffled),
            ),
            _ => None,
        };
        self.send_connect(command);
    }

    /// What loads the current song here through the session that other devices
    /// see.
    pub fn local_load_command(&self, start_playing: bool) -> (r: Option<Command>)
        ensures
            r.deep_view() == load_command(self.playback(), start_playing),
    {
        let playing = match self.currently_playing() {
            Some(playing) => playing,
            None => {
                return None;
            },
        };
        let fallback: TrackUri = match TrackUri::from_base62(playing.song_id().as_str()) {
            Some(track) => track,
            None => {
                return None;
            },
        };
        match playing {
            CurrentlyPlaying::WithSource { source, source_offset, song } => {
                match source.spotify_uri() {
                    Some(context_uri) => Some(
                        Command::SpircLoadContext {
                            context_uri,
                            context_offset: source_offset,
                            playing_track_uri: Some(cat("spotify:track:", song.as_str())),
                            start_playing,
                            fallback,
                        },
                    ),
                    None => None,
                }
            },
            CurrentlyPlaying::Songs { songs, offset } => {
                assert(songs.deep_view().len() == songs@.len());
                let (uris, track_offset): (Vec<String>, usize) = windowed_uris(&songs, offset);
                Some(Command::SpircLoadTracks { uris, track_offset, start_playing, fallback })
            },
        }
    }

    /// Tells the player here of an event.
    pub fn notify_local_player(&mut self, event: &PlaybackEvent)
        ensures
            final(self).sent(*old(self), to_local(local_command(old(self).playback(), *event))),
    {
        let command: Option<Command> = match event {
            PlaybackEvent::PlaybackPaused => Some(Command::PlayerPause),
            PlaybackEvent::PlaybackResumed => Some(Command::PlayerResume),
            PlaybackEvent::PlaybackStopped => Some(Command::PlayerStop),
            PlaybackEvent::VolumeSet(volume) => Some(Command::PlayerSetVolume(*volume)),
            PlaybackEvent::TrackChanged(id) => match self.local_load_command(true) {
                Some(command) => Some(command),
                None => match TrackUri::from_base62(id.as_str()) {
                    Some(track) => Some(Command::PlayerLoad { track, resume: true }),
                    None => None,
                },
            },
            PlaybackEvent::SourceChanged => {
                let resume: bool = self.app_model.state.playback.is_playing;
                match self.local_load_command(resume) {
                    Some(command) => Some(command),
                    None => match self.currently_playing() {
                        Some(playing) => match TrackUri::from_base62(playing.song_id().as_str()) {
                            Some(track) => Some(Command::PlayerLoad { track, resume }),
                            None => None,
                        },
                        None => None,
                    },
                }
            },
            PlaybackEvent::TrackSeeked(position) => Some(Command::PlayerSeek(*position)),
            PlaybackEvent::Preload(id) => match TrackUri::from_base62(id.as_str()) {
                Some(track) => Some(Command::PlayerPreload(track)),
                None => None,
            },
            _ => None,
        };
        self.send_local(command);
    }

    /// Tells the session of an event while another device controls it.
    pub fn notify_spirc_player(&mut self, event: &PlaybackEvent)
        ensures
            final(self).sent(*old(self), to_local(spirc_command(*event))),
    {
        let command: Option<Command> = match event {
            PlaybackEvent::PlaybackResumed => Some(Command::SpircPlay),
            PlaybackEvent::PlaybackPaused => Some(Command::SpircPause),
            PlaybackEvent::PlaybackStopped => Some(Command::SpircPause),
            PlaybackEvent::TrackSeeked(position) => Some(Command::SpircSeek(*position)),
            PlaybackEvent::VolumeSet(volume) => Some(Command::SpircSetVolume(*volume)),
            PlaybackEvent::RemoteNextRequested => Some(Command::SpircNext),
            PlaybackEvent::RemotePrevRequested => Some(Command::SpircPrev),
            _ => None,
        };
        self.send_local(command);
    }

    /// Starts the current song on another device; what follows is `play_routed`.
    pub fn route_play_to_remote(&mut self, device_id: String)
        ensures
            final(self).sent(*old(self), route_out(old(self).playback(), device_id@)),
    {
        match self.currently_playing() {
            None => proof {
                Self::lemma_sent_nothing(*self);
            },
            Some(CurrentlyPlaying::WithSource { source, source_offset, .. }) => {
                let context_uri: Option<String> = source.spotify_uri();
                self.send_call(
                    ApiCall::PlayerPlayContext {
                        device_id,
                        context_uri,
                        track_uris: None,
                        offset: source_offset,
                    },
                );
            },
            Some(CurrentlyPlaying::Songs { songs, offset }) => {
                assert(songs.deep_view().len() == songs@.len());
                let (uris, offset): (Vec<String>, usize) = windowed_uris(&songs, offset);
                self.send_call(
                    ApiCall::PlayerPlayContext {
                        device_id,
                        context_uri: None,
                        track_uris: Some(uris),
                        offset,
                    },
                );
            },
        }
    }

    /// Follows playback elsewhere where this device plays but has not been played
    /// on, and watches for another device taking over where it has.
    pub fn refresh_remote_mirror(&mut self)
        ensures
            final(self).sent(*old(self), mirror_out(old(self).playback())),
    {
        let here: bool = matches!(self.app_model.state.playback.device, Device::Local);
        let owns: bool = self.app_model.state.playback.local_session_active;
        self.send_connect(Some(ConnectCommand::SetRemoteMirrorActive(here && !owns)));
        let ghost middle = *self;
        self.send_connect(Some(ConnectCommand::SetTakeoverWatchActive(here && owns)));
        proof {
            let first = to_connect(
                Some(ConnectCommandView::SetRemoteMirrorActive(here && !owns)),
            );
            let second = to_connect(Some(ConnectCommandView::SetTakeoverWatchActive(here && owns)));
            Self::lemma_sent_twice(*old(self), middle, *self, first, second);
            assert(first.and(second).local =~= mirror_out(old(self).playback()).local);
            assert(first.and(second).connect =~= mirror_out(old(self).playback()).connect);
            assert(first.and(second).effects =~= mirror_out(old(self).playback()).effects);
        }
    }

    /// Whether what is followed on a device is playing, if it is that device that
    /// is followed.
    pub fn remote_play_state_for(&self, device_id: &str) -> (r: Option<bool>)
        ensures
            r == remote_play_state(self.playback(), device_id@),
    {
        match &self.app_model.state.playback.remote {
            Some(remote) => if str_eq(remote.device.id.as_str(), device_id) {
                Some(remote.is_playing)
            } else {
                None
            },
            None => None,
        }
    }

    /// Moves playback to a device.
    pub fn switch_device(&mut self, device: &Device)
        ensures
            final(self).sent(*old(self), switch_out(old(self).playback(), *device)),
    {
        let ghost p = self.playback();
        match device {
            Device::Connect(device) => {
                self.send_local(Some(Command::PlayerStop));
                let ghost one = *self;
                let ghost first = to_local(Some(CommandView::PlayerStop));
                self.send_connect(Some(ConnectCommand::SetDevice(device.id.clone())));
                let ghost two = *self;
                let ghost second = to_connect(Some(ConnectCommandView::SetDevice(device.id@)));
                proof {
                    Self::lemma_sent_twice(*old(self), one, two, first, second);
                }
                let play: bool = match self.remote_play_state_for(device.id.as_str()) {
                    Some(play) => play,
                    None => true,
                };
                self.send_call(ApiCall::PlayerTransfer { device_id: device.id.clone(), play });
                let ghost three = *self;
                let ghost third = to_api(
                    ApiCallView::PlayerTransfer { device_id: device.id@, play },
                );
                proof {
                    Self::lemma_sent_twice(*old(self), two, three, first.and(second), third);
                }
                self.notify_connect_player(&PlaybackEvent::SourceChanged);
                proof {
                    Self::lemma_sent_twice(
                        *old(self),
                        three,
                        *self,
                        first.and(second).and(third),
                        to_connect(connect_command(p, PlaybackEvent::SourceChanged)),
                    );
                }
            },
            Device::Local => {
                self.send_connect(Some(ConnectCommand::PlayerStop));
                let ghost one = *self;
                let ghost first = to_connect(Some(ConnectCommandView::PlayerStop));
                self.notify_local_player(&PlaybackEvent::SourceChanged);
                let ghost two = *self;
                let ghost second = to_local(local_command(p, PlaybackEvent::SourceChanged));
                proof {
                    Self::lemma_sent_twice(*old(self), one, two, first, second);
                }
                self.refresh_remote_mirror();
                proof {
                    Self::lemma_sent_twice(
                        *old(self),
                        two,
                        *self,
                        first.and(second),
                        mirror_out(p),
                    );
                }
            },
        }
    }

    /// Tells the player here whether what is playing was started here, and follows
    /// playback elsewhere or not.
    fn set_ownership(&mut self, owns: bool)
        ensures
            final(self).sent(
                *old(self),
                to_local(Some(CommandView::SetLocalOwnsPlayer(owns))).and(
                    mirror_out(old(self).playback()),
                ),
            ),
    {
        self.send_local(Some(Command::SetLocalOwnsPlayer(owns)));
        let ghost middle = *self;
        self.refresh_remote_mirror();
        proof {
            Self::lemma_sent_twice(
                *old(self),
                middle,
                *self,
                to_local(Some(CommandView::SetLocalOwnsPlayer(owns))),
                mirror_out(old(self).playback()),
            );
        }
    }

    /// An event while this device plays.
    fn notify_here(&mut self, event: &PlaybackEvent)
        ensures
            final(self).sent(
                *old(self),
                to_local(
                    if is_transport(*event) {
                        Some(
                            CommandView::SetLocalOwnsPlayer(
                                old(self).playback().local_session_active,
                            ),
                        )
                    } else {
                        None
                    },
                ).and(to_local(local_command(old(self).playback(), *event))).and(
                    if is_transport(*event) || is_load(*event) {
                        mirror_out(old(self).playback())
                    } else {
                        Outgoing::nothing()
                    },
                ),
            ),
    {
        let ghost p = self.playback();
        let transport: bool = matches!(
            event,
            PlaybackEvent::PlaybackResumed
                | PlaybackEvent::PlaybackPaused
                | PlaybackEvent::PlaybackStopped
        );
        let load: bool = matches!(
            event,
            PlaybackEvent::TrackChanged(_) | PlaybackEvent::SourceChanged
        );
        let first_command: Option<Command> = if transport {
            Some(Command::SetLocalOwnsPlayer(self.app_model.state.playback.local_session_active))
        } else {
            None
        };
        let ghost first = to_local(first_command.deep_view());
        self.send_local(first_command);
        let ghost one = *self;
        self.notify_local_player(event);
        let ghost two = *self;
        let ghost second = to_local(local_command(p, *event));
        proof {
            Self::lemma_sent_twice(*old(self), one, two, first, second);
        }
        if transport || load {
            self.refresh_remote_mirror();
        } else {
            proof {
                Self::lemma_sent_nothing(*self);
            }
        }
        proof {
            Self::lemma_sent_twice(
                *old(self),
                two,
                *self,
                first.and(second),
                if is_transport(*event) || is_load(*event) {
                    mirror_out(p)
                } else {
                    Outgoing::nothing()
                },
            );
        }
    }

    /// Tells the players of an event that concerns playback.
    fn notify_playback(&mut self, event: &PlaybackEvent)
        ensures
            final(self).sent(*old(self), playback_out(old(self).playback(), *event)),
    {
        match event {
            PlaybackEvent::SwitchedDevice(device) => {
                self.switch_device(device);
                return;
            },
            PlaybackEvent::RemoteControlChanged(controlled) => {
                self.set_ownership(!*controlled);
                return;
            },
            PlaybackEvent::YieldedActiveDevice => {
                self.set_ownership(false);
                return;
            },
            _ => {},
        }
        if self.app_model.state.playback.is_remote_controlled {
            self.notify_spirc_player(event);
            return;
        }
        if matches!(self.app_model.state.playback.device, Device::Connect(_)) {
            self.notify_connect_player(event);
            return;
        }
        if matches!(event, PlaybackEvent::TrackChanged(_) | PlaybackEvent::SourceChanged) {
            let remote: Option<String> = self.app_model.state.playback.active_remote_device.clone();
            match remote {
                Some(device_id) => {
                    self.route_play_to_remote(device_id);
                    return;
                },
                None => {},
            }
        }
        self.notify_here(event);
    }

    /// Tells the players of an event.
    pub fn on_event(&mut self, event: &AppEvent)
        ensures
            final(self).sent(*old(self), event_out(old(self).playback(), *event)),
    {
        proof {
            Self::lemma_sent_nothing(*self);
        }
        match event {
            AppEvent::LoginEvent(event) => self.notify_login(event),
            AppEvent::RadioRequested(seed_id) => {
                self.send_local(Some(Command::StartRadio { seed_id: seed_id.clone() }));
            },
            AppEvent::RemoteMirrorRepollRequested => {
                if self.app_model.state.playback.is_mirroring_remote {
                    self.send_connect(Some(ConnectCommand::SetRemoteMirrorActive(true)));
                }
            },
            AppEvent::Started | AppEvent::NowPlayingSheetShown => self.refresh_remote_mirror(),
            AppEvent::PlaybackEvent(event) => self.notify_playback(event),
            AppEvent::SettingsEvent(SettingsEvent::PlayerSettingsChanged) => {
                if matches!(self.app_model.state.playback.device, Device::Local) {
                    self.send_local(Some(Command::ReloadSettings));
                }
            },
            _ => {},
        }
    }
}

/// What follows once a song was started on another device, or could not be: what
/// plays elsewhere is looked at anew.
pub fn play_routed() -> (r: AppAction)
    ensures
        r == AppAction::RepollRemoteMirror,
{
    AppAction::RepollRemoteMirror
}

// ── Laws ───────────────────────────────────────────────────────────────────

/// While another device controls the session, the player here is never told to
/// load, start, pause or stop by itself: everything goes through the session.
pub proof fn law_controlled_session_is_not_driven_twice(p: PlaybackState, event: PlaybackEvent)
    requires
        p.is_remote_controlled,
        !(event is SwitchedDevice),
        !(event is RemoteControlChanged),
        !(event is YieldedActiveDevice),
    ensures
        playback_out(p, event).connect.len() == 0,
        playback_out(p, event).effects.len() == 0,
        playback_out(p, event).local.len() <= 1,
        playback_out(p, event).local.len() == 1 ==> {
            let command = playback_out(p, event).local[0];
            command is SpircPlay || command is SpircPause || command is SpircSeek || command
                is SpircSetVolume || command is SpircNext || command is SpircPrev
        },
        is_load(event) ==> playback_out(p, event).local.len() == 0,
{
}

/// A song that is loaded while another device is the output is started there and
/// not here.
pub proof fn law_routed_play_is_silent_here(p: PlaybackState, event: PlaybackEvent)
    requires
        !p.is_remote_controlled,
        is_local(p),
        p.active_remote_device is Some,
        is_load(event),
    ensures
        playback_out(p, event).local.len() == 0,
        playback_out(p, event).connect.len() == 0,
        playing_of(p) is Some ==> playback_out(p, event).effects.len() == 1,
{
}

/// A player elsewhere that has the playback is told of events, and the player here
/// is not.
pub proof fn law_only_one_player_is_told(p: PlaybackState, event: PlaybackEvent)
    requires
        !p.is_remote_controlled,
        p.device is Connect,
        !(event is SwitchedDevice),
        !(event is RemoteControlChanged),
        !(event is YieldedActiveDevice),
    ensures
        playback_out(p, event).local.len() == 0,
        playback_out(p, event).connect == to_connect(connect_command(p, event)).connect,
{
}

/// Taking over a device that is paused and was followed leaves it paused.
pub proof fn law_switch_keeps_a_paused_device_paused(p: PlaybackState, device: Device)
    requires
        device matches Device::Connect(to) && (p.remote matches Some(remote) && remote.device.id@
            == to.id@ && !remote.is_playing),
    ensures
        switch_out(p, device).effects == seq![
            EffectView::Call(
                ApiCallView::PlayerTransfer {
                    device_id: device->Connect_0.id@,
                    play: false,
                },
            ),
        ],
{
    assert(switch_out(p, device).effects =~= seq![
        EffectView::Call(
            ApiCallView::PlayerTransfer { device_id: device->Connect_0.id@, play: false },
        ),
    ]);
}

/// After an event this has been added to what was to be told before, and nothing
/// else has changed.
pub open spec fn told(
    before: PlayerNotifier,
    after: PlayerNotifier,
    local: Seq<CommandView>,
    connect: Seq<ConnectCommandView>,
    effects: Seq<EffectView>,
) -> bool {
    &&& after.app_model == before.app_model
    &&& after.commands.deep_view() == before.commands.deep_view() + local
    &&& after.connect_commands.deep_view() == before.connect_commands.deep_view() + connect
    &&& after.dispatcher@ == before.dispatcher@ + effects
}

/// While another device has the playback, it is told to pause when playback is
/// paused, to go on when it is resumed, and to seek, set the volume, repeat and
/// shuffle as the event says. Nobody else is told anything, and nothing is added
/// for an event that a device elsewhere has no command for.
pub proof fn law_connected_device_follows_the_event(
    before: PlayerNotifier,
    after: PlayerNotifier,
    event: PlaybackEvent,
)
    requires
        before.app_model.state.playback.device is Connect,
        !before.app_model.state.playback.is_remote_controlled,
        after.sent(
            before,
            event_out(before.app_model.state.playback, AppEvent::PlaybackEvent(event)),
        ),
    ensures
        event is PlaybackPaused ==> told(
            before,
            after,
            seq![],
            seq![ConnectCommandView::PlayerPause],
            seq![],
        ),
        event is PlaybackResumed ==> told(
            before,
            after,
            seq![],
            seq![ConnectCommandView::PlayerResume],
            seq![],
        ),
        event matches PlaybackEvent::TrackSeeked(position) ==> told(
            before,
            after,
            seq![],
            seq![ConnectCommandView::PlayerSeek(position as usize)],
            seq![],
        ),
        event matches PlaybackEvent::VolumeSet(volume) ==> told(
            before,
            after,
            seq![],
            seq![ConnectCommandView::PlayerSetVolume(volume.percent)],
            seq![],
        ),
        event matches PlaybackEvent::RepeatModeChanged(mode) ==> told(
            before,
            after,
            seq![],
            seq![ConnectCommandView::PlayerRepeat(mode)],
            seq![],
        ),
        event matches PlaybackEvent::ShuffleChanged(shuffled) ==> told(
            before,
            after,
            seq![],
            seq![ConnectCommandView::PlayerShuffle(shuffled)],
            seq![],
        ),
        (event is PlaybackStopped || event is Preload || event is RemoteNextRequested || event
            is RemotePrevRequested || event is RemotePlaybackChanged) ==> told(
            before,
            after,
            seq![],
            seq![],
            seq![],
        ),
{
    let out = playback_out(before.app_model.state.playback, event);
    assert(Seq::<CommandView>::empty() =~= seq![]);
    assert(Seq::<ConnectCommandView>::empty() =~= seq![]);
    assert(Seq::<EffectView>::empty() =~= seq![]);
}

/// A song that is loaded while another device has the playback: the device is told
/// of the current song and its place. It is given the source where the source is a
/// playlist or an album, and the ids of all songs in order otherwise. If no song is
/// current, it is told nothing.
pub proof fn law_connected_device_gets_the_current_song(
    before: PlayerNotifier,
    after: PlayerNotifier,
    event: PlaybackEvent,
)
    requires
        before.app_model.state.playback.device is Connect,
        !before.app_model.state.playback.is_remote_controlled,
        event is TrackChanged || event is SourceChanged,
        after.sent(
            before,
            event_out(before.app_model.state.playback, AppEvent::PlaybackEvent(event)),
        ),
    ensures
        ({
            let p = before.app_model.state.playback;
            match p.position {
                Some(i) if i < p.songs@.len() => {
                    let known = match p.source {
                        Some(SongsSource::Playlist { .. }) => true,
                        Some(SongsSource::Album(_)) => true,
                        _ => false,
                    };
                    if known {
                        told(
                            before,
                            after,
                            seq![],
                            seq![
                                ConnectCommandView::PlayerLoadInContext {
                                    source: p.source->0.deep_view(),
                                    context_offset: i,
                                    song: p.songs@[i as int].id@,
                                },
                            ],
                            seq![],
                        )
                    } else {
                        told(
                            before,
                            after,
                            seq![],
                            seq![
                                ConnectCommandView::PlayerLoad {
                                    songs: Seq::new(p.songs@.len(), |k: int| p.songs@[k].id@),
                                    song_offset: i,
                                },
                            ],
                            seq![],
                        )
                    }
                },
                _ => told(before, after, seq![], seq![], seq![]),
            }
        }),
{
    let p = before.app_model.state.playback;
    assert(song_list::song_ids(p.songs.deep_view()) =~= Seq::new(
        p.songs@.len(),
        |k: int| p.songs@[k].id@,
    )) by {
        assert(forall|k: int|
            0 <= k < p.songs@.len() ==> #[trigger] p.songs.deep_view()[k] == p.songs@[k].deep_view());
    }
}

/// While another device controls the session here, playing, pausing, seeking, the
/// volume and skipping go to the session as the event says; stopping pauses it.
/// Nothing else is passed on.
pub proof fn law_controlled_session_follows_the_event(
    before: PlayerNotifier,
    after: PlayerNotifier,
    event: PlaybackEvent,
)
    requires
        before.app_model.state.playback.is_remote_controlled,
        !(event is SwitchedDevice),
        !(event is RemoteControlChanged),
        !(event is YieldedActiveDevice),
        after.sent(
            before,
            event_out(before.app_model.state.playback, AppEvent::PlaybackEvent(event)),
        ),
    ensures
        told(
            before,
            after,
            if event is PlaybackResumed {
                seq![CommandView::SpircPlay]
            } else if event is PlaybackPaused || event is PlaybackStopped {
                seq![CommandView::SpircPause]
            } else if event is TrackSeeked {
                seq![CommandView::SpircSeek(event->TrackSeeked_0)]
            } else if event is VolumeSet {
                seq![CommandView::SpircSetVolume(event->VolumeSet_0)]
            } else if event is RemoteNextRequested {
                seq![CommandView::SpircNext]
            } else if event is RemotePrevRequested {
                seq![CommandView::SpircPrev]
            } else {
                seq![]
            },
            seq![],
            seq![],
        ),
{
}

/// While this device plays, the player here is told to pause, go on or stop as the
/// event says, right after it is told whether it has the session; seeking and the
/// volume go to it as they are.
pub proof fn law_player_here_follows_the_event(
    before: PlayerNotifier,
    after: PlayerNotifier,
    event: PlaybackEvent,
)
    requires
        before.app_model.state.playback.device is Local,
        !before.app_model.state.playback.is_remote_controlled,
        after.sent(
            before,
            event_out(before.app_model.state.playback, AppEvent::PlaybackEvent(event)),
        ),
    ensures
        ({
            let owns = before.app_model.state.playback.local_session_active;
            let watch = seq![
                ConnectCommandView::SetRemoteMirrorActive(!owns),
                ConnectCommandView::SetTakeoverWatchActive(owns),
            ];
            &&& event is PlaybackPaused ==> told(
                before,
                after,
                seq![CommandView::SetLocalOwnsPlayer(owns), CommandView::PlayerPause],
                watch,
                seq![],
            )
            &&& event is PlaybackResumed ==> told(
                before,
                after,
                seq![CommandView::SetLocalOwnsPlayer(owns), CommandView::PlayerResume],
                watch,
                seq![],
            )
            &&& event is PlaybackStopped ==> told(
                before,
                after,
                seq![CommandView::SetLocalOwnsPlayer(owns), CommandView::PlayerStop],
                watch,
                seq![],
            )
            &&& event matches PlaybackEvent::TrackSeeked(position) ==> told(
                before,
                after,
                seq![CommandView::PlayerSeek(position)],
                seq![],
                seq![],
            )
            &&& event matches PlaybackEvent::VolumeSet(volume) ==> told(
                before,
                after,
                seq![CommandView::PlayerSetVolume(volume)],
                seq![],
                seq![],
            )
            &&& (event is RepeatModeChanged || event is ShuffleChanged || event
                is RemoteNextRequested || event is RemotePrevRequested || event
                is RemotePlaybackChanged) ==> told(before, after, seq![], seq![], seq![])
        }),
{
    let p = before.app_model.state.playback;
    let owns = p.local_session_active;
    let out = event_out(p, AppEvent::PlaybackEvent(event));
    let watch = seq![
        ConnectCommandView::SetRemoteMirrorActive(!owns),
        ConnectCommandView::SetTakeoverWatchActive(owns),
    ];
    if event is PlaybackPaused {
        assert(out.local =~= seq![CommandView::SetLocalOwnsPlayer(owns), CommandView::PlayerPause]);
        assert(out.connect =~= watch);
    } else if event is PlaybackResumed {
        assert(out.local =~= seq![CommandView::SetLocalOwnsPlayer(owns), CommandView::PlayerResume]);
        assert(out.connect =~= watch);
    } else if event is PlaybackStopped {
        assert(out.local =~= seq![CommandView::SetLocalOwnsPlayer(owns), CommandView::PlayerStop]);
        assert(out.connect =~= watch);
    } else if event is TrackSeeked {
        assert(out.local =~= seq![CommandView::PlayerSeek(event->TrackSeeked_0)]);
    } else if event is VolumeSet {
        assert(out.local =~= seq![CommandView::PlayerSetVolume(event->VolumeSet_0)]);
    }
}

/// A song that is loaded while this device plays and no other one is the output: if
/// its id is valid, the session here loads it at its place, as part of the playlist
/// or album that it comes from, or else among the songs that go along. A song that
/// was chosen starts to play; a change of the source leaves playback as it was.
pub proof fn law_player_here_loads_the_current_song(
    before: PlayerNotifier,
    after: PlayerNotifier,
    event: PlaybackEvent,
    i: usize,
)
    requires
        before.app_model.state.playback.device is Local,
        !before.app_model.state.playback.is_remote_controlled,
        before.app_model.state.playback.active_remote_device is None,
        before.app_model.state.playback.position == Some(i),
        i < before.app_model.state.playback.songs@.len(),
        spotify_id::track_id_of(
            before.app_model.state.playback.songs@[i as int].id@,
        ) is Some,
        event is TrackChanged || event is SourceChanged,
        after.sent(
            before,
            event_out(before.app_model.state.playback, AppEvent::PlaybackEvent(event)),
        ),
    ensures
        after.commands.deep_view().len() == before.commands.deep_view().len() + 1,
        after.dispatcher@ == before.dispatcher@,
        ({
            let p = before.app_model.state.playback;
            let song = p.songs@[i as int].id@;
            let start = event is TrackChanged || p.is_playing;
            let id = spotify_id::track_id_of(song)->0;
            match p.source {
                Some(SongsSource::Playlist { id: list, .. }) => after.commands.deep_view().last()
                    == (CommandView::SpircLoadContext {
                    context_uri: "spotify:playlist:"@ + list@,
                    context_offset: i,
                    playing_track_uri: Some("spotify:track:"@ + song),
                    start_playing: start,
                    fallback: TrackUri { id },
                }),
                Some(SongsSource::Album(album)) => after.commands.deep_view().last() == (
                CommandView::SpircLoadContext {
                    context_uri: "spotify:album:"@ + album@,
                    context_offset: i,
                    playing_track_uri: Some("spotify:track:"@ + song),
                    start_playing: start,
                    fallback: TrackUri { id },
                }),
                _ => {
                    &&& after.commands.deep_view().last() matches CommandView::SpircLoadTracks {
                        uris,
                        track_offset,
                        start_playing,
                        fallback,
                    }
                    &&& start_playing == start
                    &&& fallback.id == id
                    &&& track_offset < uris.len() <= 500
                    &&& uris[track_offset as int] == "spotify:track:"@ + song
                    &&& forall|k: int|
                        0 <= k < uris.len() ==> #[trigger] uris[k] == "spotify:track:"@
                            + p.songs@[i - track_offset + k].id@
                },
            }
        }),
{
    let p = before.app_model.state.playback;
    let out = event_out(p, AppEvent::PlaybackEvent(event));
    let song = p.songs@[i as int].id@;
    assert(p.spec_current_song_id() == Some(song));
    let ids = song_list::song_ids(p.songs.deep_view());
    assert forall|k: int| 0 <= k < p.songs@.len() implies #[trigger] ids[k] == p.songs@[k].id@ by {
        assert(p.songs.deep_view()[k] == p.songs@[k].deep_view());
    }
    assert(ids.len() == p.songs@.len());
    law_window_keeps_the_song(ids, i as int);
    let command = load_command(p, event is TrackChanged || p.is_playing);
    assert(command is Some);
    assert(out.local =~= seq![command->0]);
    assert(after.commands.deep_view().last() == command->0);
    assert(after.dispatcher@ =~= before.dispatcher@);
}

/// A long list is handed on from the song that is to be played, up to as many as
/// the service takes; where fewer songs are left, the last ones of the list are
/// handed on. The songs stay in order and next to each other.
pub proof fn law_window_goes_on_from_the_song(songs: Seq<Seq<char>>, offset: int, k: int)
    requires
        0 <= offset < songs.len(),
        songs.len() > 500,
        0 <= k < 500,
    ensures
        window(songs, offset).len() == 500,
        offset + 500 <= songs.len() ==> window(songs, offset)[k] == songs[offset + k],
        offset + 500 > songs.len() ==> window(songs, offset)[k] == songs[songs.len() - 500 + k],
{
}

/// A song that is loaded while another device is the output is started there: its
/// playlist or album at the song's place, or else the songs themselves.
pub proof fn law_output_elsewhere_gets_the_current_song(
    before: PlayerNotifier,
    after: PlayerNotifier,
    event: PlaybackEvent,
    i: usize,
)
    requires
        before.app_model.state.playback.device is Local,
        !before.app_model.state.playback.is_remote_controlled,
        before.app_model.state.playback.active_remote_device is Some,
        before.app_model.state.playback.position == Some(i),
        i < before.app_model.state.playback.songs@.len(),
        event is TrackChanged || event is SourceChanged,
        after.sent(
            before,
            event_out(before.app_model.state.playback, AppEvent::PlaybackEvent(event)),
        ),
    ensures
        after.commands.deep_view() == before.commands.deep_view(),
        after.connect_commands.deep_view() == before.connect_commands.deep_view(),
        after.dispatcher@.len() == before.dispatcher@.len() + 1,
        after.dispatcher@.drop_last() == before.dispatcher@,
        ({
            let p = before.app_model.state.playback;
            &&& after.dispatcher@.last() matches EffectView::Call(
                ApiCallView::PlayerPlayContext { device_id, context_uri, track_uris, offset },
            )
            &&& device_id == p.active_remote_device->0@
            &&& match p.source {
                Some(SongsSource::Playlist { id, .. }) => context_uri == Some(
                    "spotify:playlist:"@ + id@,
                ) && track_uris is None && offset == i,
                Some(SongsSource::Album(id)) => context_uri == Some("spotify:album:"@ + id@)
                    && track_uris is None && offset == i,
                _ => {
                    &&& context_uri is None
                    &&& track_uris matches Some(uris)
                    &&& offset < uris.len() <= 500
                    &&& uris[offset as int] == "spotify:track:"@ + p.songs@[i as int].id@
                    &&& forall|k: int|
                        0 <= k < uris.len() ==> #[trigger] uris[k] == "spotify:track:"@
                            + p.songs@[i - offset + k].id@
                },
            }
        }),
{
    let p = before.app_model.state.playback;
    let out = event_out(p, AppEvent::PlaybackEvent(event));
    let song = p.songs@[i as int].id@;
    assert(p.spec_current_song_id() == Some(song));
    let ids = song_list::song_ids(p.songs.deep_view());
    assert forall|k: int| 0 <= k < p.songs@.len() implies #[trigger] ids[k] == p.songs@[k].id@ by {
        assert(p.songs.deep_view()[k] == p.songs@[k].deep_view());
    }
    assert(ids.len() == p.songs@.len());
    law_window_keeps_the_song(ids, i as int);
    assert(out.effects.len() == 1);
    assert(after.dispatcher@.last() == out.effects[0]);
    assert(after.dispatcher@.drop_last() =~= before.dispatcher@);
    assert(after.commands.deep_view() =~= before.commands.deep_view());
    assert(after.connect_commands.deep_view() =~= before.connect_commands.deep_view());
}

/// Moving playback to another device stops the player here, names the device,
/// hands playback over and then loads the current song there, if there is one.
/// A device that was followed goes on as it was; any other starts to play.
pub proof fn law_switch_hands_playback_over(
    before: PlayerNotifier,
    after: PlayerNotifier,
    to: crate::models::ConnectDevice,
)
    requires
        after.sent(
            before,
            event_out(
                before.app_model.state.playback,
                AppEvent::PlaybackEvent(PlaybackEvent::SwitchedDevice(Device::Connect(to))),
            ),
        ),
    ensures
        ({
            let p = before.app_model.state.playback;
            let followed = p.remote is Some && p.remote->0.device.id@ == to.id@;
            let current = p.position is Some && p.position->0 < p.songs@.len();
            &&& after.commands.deep_view() == before.commands.deep_view().push(
                CommandView::PlayerStop,
            )
            &&& after.dispatcher@ == before.dispatcher@.push(
                EffectView::Call(
                    ApiCallView::PlayerTransfer {
                        device_id: to.id@,
                        play: !followed || p.remote->0.is_playing,
                    },
                ),
            )
            &&& after.connect_commands.deep_view().len() == before.connect_commands.deep_view().len()
                + (if current {
                2int
            } else {
                1
            })
            &&& after.connect_commands.deep_view()[before.connect_commands@.len() as int]
                == ConnectCommandView::SetDevice(to.id@)
        }),
{
    let p = before.app_model.state.playback;
    let out = switch_out(p, Device::Connect(to));
    assert(out.local =~= seq![CommandView::PlayerStop]);
    assert(after.commands.deep_view() =~= before.commands.deep_view().push(
        CommandView::PlayerStop,
    ));
    assert(out.effects.len() == 1);
    assert(after.dispatcher@ =~= before.dispatcher@.push(out.effects[0]));
    assert(out.connect[0] == ConnectCommandView::SetDevice(to.id@));
    assert(before.connect_commands.deep_view().len() == before.connect_commands@.len());
}

/// Moving playback back to this device stops the one elsewhere.
pub proof fn law_switch_back_stops_the_other(before: PlayerNotifier, after: PlayerNotifier)
    requires
        after.sent(
            before,
            event_out(
                before.app_model.state.playback,
                AppEvent::PlaybackEvent(PlaybackEvent::SwitchedDevice(Device::Local)),
            ),
        ),
    ensures
        ({
            let p = before.app_model.state.playback;
            &&& after.dispatcher@ == before.dispatcher@
            &&& after.connect_commands.deep_view() == before.connect_commands.deep_view() + seq![
                ConnectCommandView::PlayerStop,
                ConnectCommandView::SetRemoteMirrorActive(
                    p.device is Local && !p.local_session_active,
                ),
                ConnectCommandView::SetTakeoverWatchActive(
                    p.device is Local && p.local_session_active,
                ),
            ]
        }),
{
    let p = before.app_model.state.playback;
    let out = switch_out(p, Device::Local);
    assert(out.connect =~= seq![
        ConnectCommandView::PlayerStop,
        ConnectCommandView::SetRemoteMirrorActive(p.device is Local && !p.local_session_active),
        ConnectCommandView::SetTakeoverWatchActive(p.device is Local && p.local_session_active),
    ]);
    assert(out.effects =~= seq![]);
    assert(after.dispatcher@ =~= before.dispatcher@);
}

/// The player here is told that it has lost the session when another device takes
/// control or the session is given up, and that it has it when control ends.
pub proof fn law_control_decides_who_owns_the_player(
    before: PlayerNotifier,
    after: PlayerNotifier,
    event: PlaybackEvent,
)
    requires
        event is RemoteControlChanged || event is YieldedActiveDevice,
        after.sent(
            before,
            event_out(before.app_model.state.playback, AppEvent::PlaybackEvent(event)),
        ),
    ensures
        after.dispatcher@ == before.dispatcher@,
        after.commands.deep_view().len() == before.commands.deep_view().len() + 1,
        event == PlaybackEvent::RemoteControlChanged(true) || event is YieldedActiveDevice
            ==> after.commands.deep_view().last() == CommandView::SetLocalOwnsPlayer(false),
        event == PlaybackEvent::RemoteControlChanged(false) ==> after.commands.deep_view().last()
            == CommandView::SetLocalOwnsPlayer(true),
{
    let out = event_out(before.app_model.state.playback, AppEvent::PlaybackEvent(event));
    assert(out.local.len() == 1);
    assert(after.commands.deep_view().last() == out.local[0]);
    assert(after.dispatcher@ =~= before.dispatcher@);
}

/// Each step of the login asks the player here for the command of its name, and a
/// login that is complete settles whether playback elsewhere is followed.
pub proof fn law_login_steps_reach_the_player(
    before: PlayerNotifier,
    after: PlayerNotifier,
    event: LoginEvent,
)
    requires
        after.sent(
            before,
            event_out(before.app_model.state.playback, AppEvent::LoginEvent(event)),
        ),
    ensures
        event == LoginEvent::LoginStarted(LoginStartedEvent::Restore) ==> told(
            before,
            after,
            seq![CommandView::Restore],
            seq![],
            seq![],
        ),
        event == LoginEvent::LoginStarted(LoginStartedEvent::InitLogin) ==> told(
            before,
            after,
            seq![CommandView::InitLogin],
            seq![],
            seq![],
        ),
        event == LoginEvent::LoginStarted(LoginStartedEvent::CompleteLogin) ==> told(
            before,
            after,
            seq![CommandView::CompleteLogin],
            seq![],
            seq![],
        ),
        event is FreshTokenRequested ==> told(
            before,
            after,
            seq![CommandView::RefreshToken],
            seq![],
            seq![],
        ),
        event is LogoutCompleted ==> told(
            before,
            after,
            seq![CommandView::Logout],
            seq![],
            seq![],
        ),
        event is LoginCompleted ==> {
            let p = before.app_model.state.playback;
            told(
                before,
                after,
                seq![],
                seq![
                    ConnectCommandView::SetRemoteMirrorActive(
                        p.device is Local && !p.local_session_active,
                    ),
                    ConnectCommandView::SetTakeoverWatchActive(
                        p.device is Local && p.local_session_active,
                    ),
                ],
                seq![],
            )
        },
{
    let p = before.app_model.state.playback;
    let out = event_out(p, AppEvent::LoginEvent(event));
    assert(out.local =~= to_local(login_command(event)).local);
    assert(event is LoginCompleted ==> out.connect =~= mirror_out(p).connect);
    assert(!(event is LoginCompleted) ==> out.connect =~= seq![]);
    assert(out.effects =~= seq![]);
}

/// A station is started from the song that was asked for, the settings are read
/// anew only where this device plays, and a new look at what plays elsewhere is
/// taken only while that is what is shown.
pub proof fn law_other_events_reach_the_players(
    before: PlayerNotifier,
    after: PlayerNotifier,
    event: AppEvent,
)
    requires
        after.sent(before, event_out(before.app_model.state.playback, event)),
    ensures
        event matches AppEvent::RadioRequested(seed) ==> told(
            before,
            after,
            seq![CommandView::StartRadio { seed_id: seed@ }],
            seq![],
            seq![],
        ),
        event == AppEvent::SettingsEvent(SettingsEvent::PlayerSettingsChanged) ==> told(
            before,
            after,
            if before.app_model.state.playback.device is Local {
                seq![CommandView::ReloadSettings]
            } else {
                seq![]
            },
            seq![],
            seq![],
        ),
        event is RemoteMirrorRepollRequested ==> told(
            before,
            after,
            seq![],
            if before.app_model.state.playback.is_mirroring_remote {
                seq![ConnectCommandView::SetRemoteMirrorActive(true)]
            } else {
                seq![]
            },
            seq![],
        ),
        event is Started || event is NowPlayingSheetShown ==> {
            let p = before.app_model.state.playback;
            told(
                before,
                after,
                seq![],
                seq![
                    ConnectCommandView::SetRemoteMirrorActive(
                        p.device is Local && !p.local_session_active,
                    ),
                    ConnectCommandView::SetTakeoverWatchActive(
                        p.device is Local && p.local_session_active,
                    ),
                ],
                seq![],
            )
        },
{
}

/// A track is got ready for by its own id, and only where this device plays and
/// the id is valid.
pub proof fn law_preload_is_of_the_song(before: PlayerNotifier, after: PlayerNotifier, id: String)
    requires
        before.app_model.state.playback.device is Local,
        !before.app_model.state.playback.is_remote_controlled,
        after.sent(
            before,
            event_out(
                before.app_model.state.playback,
                AppEvent::PlaybackEvent(PlaybackEvent::Preload(id)),
            ),
        ),
    ensures
        told(
            before,
            after,
            match spotify_id::track_id_of(id@) {
                Some(id) => seq![CommandView::PlayerPreload(TrackUri { id })],
                None => seq![],
            },
            seq![],
            seq![],
        ),
{
    let out = event_out(
        before.app_model.state.playback,
        AppEvent::PlaybackEvent(PlaybackEvent::Preload(id)),
    );
    assert(out.local =~= match spotify_id::track_id_of(id@) {
        Some(id) => seq![CommandView::PlayerPreload(TrackUri { id })],
        None => seq![],
    });
    assert(out.connect =~= seq![]);
    assert(out.effects =~= seq![]);
}

/// Where the session here cannot load a song, the player loads the track by its id
/// alone: a song that was chosen is started by the id that the event names, and a
/// change of the source loads nothing.
pub proof fn law_chosen_song_is_loaded_by_its_id(
    before: PlayerNotifier,
    after: PlayerNotifier,
    event: PlaybackEvent,
)
    requires
        before.app_model.state.playback.device is Local,
        !before.app_model.state.playback.is_remote_controlled,
        before.app_model.state.playback.active_remote_device is None,
        match before.app_model.state.playback.position {
            Some(i) => i < before.app_model.state.playback.songs@.len()
                ==> spotify_id::track_id_of(
                before.app_model.state.playback.songs@[i as int].id@,
            ) is None,
            None => true,
        },
        event is TrackChanged || event is SourceChanged,
        after.sent(
            before,
            event_out(before.app_model.state.playback, AppEvent::PlaybackEvent(event)),
        ),
    ensures
        after.dispatcher@ == before.dispatcher@,
        event is SourceChanged ==> after.commands.deep_view() == before.commands.deep_view(),
        event matches PlaybackEvent::TrackChanged(id) ==> after.commands.deep_view()
            == before.commands.deep_view() + (match spotify_id::track_id_of(id@) {
            Some(track) => seq![
                CommandView::PlayerLoad { track: TrackUri { id: track }, resume: true },
            ],
            None => seq![],
        }),
{
    let p = before.app_model.state.playback;
    let out = event_out(p, AppEvent::PlaybackEvent(event));
    assert(load_command(p, true) is None);
    assert(load_command(p, p.is_playing) is None);
    if event is SourceChanged {
        assert(out.local =~= seq![]);
        assert(after.commands.deep_view() =~= before.commands.deep_view());
    } else {
        assert(out.local =~= (match spotify_id::track_id_of(event->TrackChanged_0@) {
            Some(track) => seq![
                CommandView::PlayerLoad { track: TrackUri { id: track }, resume: true },
            ],
            None => seq![],
        }));
    }
    assert(after.dispatcher@ =~= before.dispatcher@);
}

/// The view of a `CurrentlyPlaying` is of the same kind and holds the same parts.
pub proof fn law_view_of_currently_playing(value: CurrentlyPlaying)
    ensures
        value matches CurrentlyPlaying::WithSource { source, source_offset, song } ==> value.deep_view() == (CurrentlyPlayingView::WithSource { source: source.deep_view(), source_offset: source_offset, song: song@ }),
        value matches CurrentlyPlaying::Songs { songs, offset } ==> value.deep_view() == (CurrentlyPlayingView::Songs { songs: songs.deep_view(), offset: offset }),
{
}

/// Only starting, pausing and stopping leave alone what is loaded; a device that is
/// followed plays or rests as it was last heard of.
pub proof fn law_transport_leaves_the_song(event: PlaybackEvent, p: PlaybackState, id: Seq<char>)
    ensures
        is_transport(event) <==> (event == PlaybackEvent::PlaybackResumed || event
            == PlaybackEvent::PlaybackPaused || event == PlaybackEvent::PlaybackStopped),
        p.remote is None ==> remote_play_state(p, id) is None,
        p.remote matches Some(remote) ==> remote.device.id@ == id ==> remote_play_state(p, id)
            == Some(remote.is_playing),
        p.remote matches Some(remote) ==> remote.device.id@ != id ==> remote_play_state(p, id)
            is None,
        track_uri(id) == "spotify:track:"@ + id,
        MAX_URIS == 500,
{
}

} // verus!

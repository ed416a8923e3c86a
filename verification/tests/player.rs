use riff::actions::{
    ActionDispatcher, ApiCall, AppAction, AppEvent, BrowserEvent, Device, Effect, LoginAction,
    LoginEvent, LoginStartedEvent, PlaybackAction, PlaybackEvent, SelectionEvent, SettingsEvent,
    SongsSource, Volume,
};
use riff::models::{
    AlbumRef, ArtistRef, ConnectDevice, ConnectDeviceKind, ImageSet, RemotePlayback, RepeatMode,
    SongDescription,
};
use riff::shell::commands::{Command, ConnectCommand};
use riff::shell::device_selector::{DeviceSelector, DeviceSelectorModel};
use riff::shell::now_playing::{playing_on, NowPlayingSheet, NowPlayingSheetModel, SourceDisplay};
use riff::shell::playback::{
    liked_icon, no_song_label, play_pause_icon, play_pause_tooltip, repeat_icon, PlaybackControl, PlaybackModel,
};
use riff::shell::player_notifier::{play_routed, PlayerNotifier, MAX_URIS};
use riff::shell::sheets::Sheets;
use riff::shell::transport::Transport;
use riff::song_list::SongListModel;
use riff::spotify_id::TrackUri;
use riff::state::{AppModel, AppState, HomeState};

const ID: &str = "4uLU6hMCjMI75M1A2tKUQC";

fn song(id: &str) -> SongDescription {
    SongDescription {
        id: id.to_string(),
        uri: format!("spotify:track:{}", id),
        title: format!("Title {}", id),
        artists: vec![ArtistRef { id: "ar".to_string(), name: "Artist".to_string() }],
        album: AlbumRef { id: "al".to_string(), name: "Album".to_string() },
        duration_ms: 2000,
        art: None,
        track_number: None,
    }
}

fn device(id: &str) -> ConnectDevice {
    ConnectDevice {
        id: id.to_string(),
        label: id.to_uppercase(),
        kind: ConnectDeviceKind::Speaker,
    }
}

fn remote(id: &str, is_playing: bool) -> RemotePlayback {
    RemotePlayback {
        device: device(id),
        song: song("far"),
        is_playing,
        progress_ms: 700,
        context_uri: None,
    }
}

fn state(ids: Vec<String>, position: usize) -> AppState {
    let mut state = AppState::new();
    state.playback.songs = ids.iter().map(|id| song(id)).collect();
    state.playback.position = Some(position);
    state
}

fn playing_state() -> AppState {
    state(vec![ID.to_string(), "other".to_string()], 0)
}

fn notifier(state: AppState) -> PlayerNotifier {
    PlayerNotifier::new(AppModel::new(state), ActionDispatcher::new())
}

fn playback(event: PlaybackEvent) -> AppEvent {
    AppEvent::PlaybackEvent(event)
}

fn mirror(on: bool, watch: bool) -> Vec<ConnectCommand> {
    vec![ConnectCommand::SetRemoteMirrorActive(on), ConnectCommand::SetTakeoverWatchActive(watch)]
}

#[test]
fn track_ids_are_numbers_to_the_base_62() {
    let id = |text: &str| TrackUri::from_base62(text).map(|t| t.id);
    assert_eq!(id("0000000000000000000000"), Some(0));
    assert_eq!(id("000000000000000000000Z"), Some(61));
    assert_eq!(id("0000000000000000000010"), Some(62));
    assert_eq!(id("00000000000000000000aA"), Some(10 * 62 + 36));
    assert_eq!(id("7N42dgm5tFLK9N8MT7fHC7"), Some(u128::MAX));
    assert_eq!(id("7N42dgm5tFLK9N8MT7fHC8"), None);
    assert_eq!(id("ZZZZZZZZZZZZZZZZZZZZZZ"), None);
    assert_eq!(id("short"), None);
    assert_eq!(id("00000000000000000000-0"), None);
    assert_eq!(id("000000000000000000000é"), None);
}

#[test]
fn login_steps_reach_the_player() {
    let mut n = notifier(AppState::new());
    let step = |e: LoginStartedEvent| AppEvent::LoginEvent(LoginEvent::LoginStarted(e));
    n.on_event(&step(LoginStartedEvent::Restore));
    n.on_event(&step(LoginStartedEvent::InitLogin));
    n.on_event(&step(LoginStartedEvent::CompleteLogin));
    n.on_event(&AppEvent::LoginEvent(LoginEvent::FreshTokenRequested));
    n.on_event(&AppEvent::LoginEvent(LoginEvent::LogoutCompleted));
    assert_eq!(
        n.take_commands(),
        vec![
            Command::Restore,
            Command::InitLogin,
            Command::CompleteLogin,
            Command::RefreshToken,
            Command::Logout,
        ]
    );
    assert!(n.take_connect_commands().is_empty());
    n.on_event(&AppEvent::LoginEvent(LoginEvent::LoginCompleted));
    assert!(n.take_commands().is_empty());
    assert_eq!(n.take_connect_commands(), mirror(true, false));
}

#[test]
fn a_context_is_loaded_with_its_uri() {
    let mut s = playing_state();
    s.playback.source = Some(SongsSource::Album("alb".to_string()));
    let mut n = notifier(s);
    n.on_event(&playback(PlaybackEvent::TrackChanged(ID.to_string())));
    assert_eq!(
        n.take_commands(),
        vec![Command::SpircLoadContext {
            context_uri: "spotify:album:alb".to_string(),
            context_offset: 0,
            playing_track_uri: Some(format!("spotify:track:{}", ID)),
            start_playing: true,
            fallback: TrackUri::from_base62(ID).unwrap(),
        }]
    );
    assert_eq!(n.take_connect_commands(), mirror(true, false));
}

#[test]
fn a_list_is_loaded_by_its_tracks() {
    let mut n = notifier(playing_state());
    n.on_event(&playback(PlaybackEvent::SourceChanged));
    assert_eq!(
        n.take_commands(),
        vec![Command::SpircLoadTracks {
            uris: vec![format!("spotify:track:{}", ID), "spotify:track:other".to_string()],
            track_offset: 0,
            start_playing: false,
            fallback: TrackUri::from_base62(ID).unwrap(),
        }]
    );
}

#[test]
fn long_lists_are_cut_around_the_song() {
    for (offset, start) in [(0usize, 0usize), (100, 100), (700, 500), (999, 500)] {
        let ids: Vec<String> = (0..1000).map(|i| format!("{:022}", i)).collect();
        let n = notifier(state(ids.clone(), offset));
        match n.local_load_command(true) {
            Some(Command::SpircLoadTracks { uris, track_offset, .. }) => {
                assert_eq!(uris.len(), MAX_URIS);
                assert_eq!(track_offset, offset - start);
                assert_eq!(uris[track_offset], format!("spotify:track:{}", ids[offset]));
            }
            other => panic!("unexpected command {:?}", other),
        }
    }
}

#[test]
fn songs_without_a_valid_id_are_not_loaded() {
    let mut n = notifier(state(vec!["bad".to_string()], 0));
    n.on_event(&playback(PlaybackEvent::TrackChanged("bad".to_string())));
    assert!(n.take_commands().is_empty());
    n.on_event(&playback(PlaybackEvent::TrackChanged(ID.to_string())));
    assert_eq!(
        n.take_commands(),
        vec![Command::PlayerLoad { track: TrackUri::from_base62(ID).unwrap(), resume: true }]
    );
    n.on_event(&playback(PlaybackEvent::Preload(ID.to_string())));
    n.on_event(&playback(PlaybackEvent::Preload("bad".to_string())));
    assert_eq!(
        n.take_commands(),
        vec![Command::PlayerPreload(TrackUri::from_base62(ID).unwrap())]
    );
}

#[test]
fn local_playback_owns_the_player() {
    let mut s = playing_state();
    s.playback.local_session_active = true;
    let mut n = notifier(s);
    n.on_event(&playback(PlaybackEvent::PlaybackPaused));
    assert_eq!(
        n.take_commands(),
        vec![Command::SetLocalOwnsPlayer(true), Command::PlayerPause]
    );
    assert_eq!(n.take_connect_commands(), mirror(false, true));
    n.on_event(&playback(PlaybackEvent::TrackSeeked(5)));
    assert_eq!(n.take_commands(), vec![Command::PlayerSeek(5)]);
    assert!(n.take_connect_commands().is_empty());
}

#[test]
fn a_controlled_session_is_driven_through_itself() {
    let mut s = playing_state();
    s.playback.is_remote_controlled = true;
    let mut n = notifier(s);
    let volume = Volume { bits: 0, percent: 40 };
    n.on_event(&playback(PlaybackEvent::PlaybackResumed));
    n.on_event(&playback(PlaybackEvent::PlaybackStopped));
    n.on_event(&playback(PlaybackEvent::TrackSeeked(9)));
    n.on_event(&playback(PlaybackEvent::VolumeSet(volume)));
    n.on_event(&playback(PlaybackEvent::RemoteNextRequested));
    n.on_event(&playback(PlaybackEvent::RemotePrevRequested));
    n.on_event(&playback(PlaybackEvent::TrackChanged(ID.to_string())));
    assert_eq!(
        n.take_commands(),
        vec![
            Command::SpircPlay,
            Command::SpircPause,
            Command::SpircSeek(9),
            Command::SpircSetVolume(volume),
            Command::SpircNext,
            Command::SpircPrev,
        ]
    );
    assert!(n.take_connect_commands().is_empty());
}

#[test]
fn a_tap_plays_on_the_active_device() {
    let mut s = playing_state();
    s.playback.active_remote_device = Some("tv".to_string());
    let mut n = notifier(s);
    n.on_event(&playback(PlaybackEvent::TrackChanged(ID.to_string())));
    assert!(n.take_commands().is_empty());
    assert!(n.take_connect_commands().is_empty());
    assert_eq!(
        n.dispatcher.take(),
        vec![Effect::Call(ApiCall::PlayerPlayContext {
            device_id: "tv".to_string(),
            context_uri: None,
            track_uris: Some(vec![
                format!("spotify:track:{}", ID),
                "spotify:track:other".to_string()
            ]),
            offset: 0,
        })]
    );
    assert_eq!(play_routed(), AppAction::RepollRemoteMirror);
    n.on_event(&playback(PlaybackEvent::PlaybackPaused));
    assert_eq!(
        n.take_commands(),
        vec![Command::SetLocalOwnsPlayer(false), Command::PlayerPause]
    );
}

#[test]
fn a_connected_device_gets_the_commands() {
    let mut s = playing_state();
    s.playback.device = Device::Connect(device("tv"));
    s.playback.source =
        Some(SongsSource::Playlist { id: "p".to_string(), title: "P".to_string() });
    let mut n = notifier(s);
    n.on_event(&playback(PlaybackEvent::SourceChanged));
    n.on_event(&playback(PlaybackEvent::VolumeSet(Volume { bits: 0, percent: 55 })));
    n.on_event(&playback(PlaybackEvent::RepeatModeChanged(RepeatMode::Song)));
    n.on_event(&playback(PlaybackEvent::ShuffleChanged(true)));
    assert!(n.take_commands().is_empty());
    assert_eq!(
        n.take_connect_commands(),
        vec![
            ConnectCommand::PlayerLoadInContext {
                source: SongsSource::Playlist { id: "p".to_string(), title: "P".to_string() },
                context_offset: 0,
                song: ID.to_string(),
            },
            ConnectCommand::PlayerSetVolume(55),
            ConnectCommand::PlayerRepeat(RepeatMode::Song),
            ConnectCommand::PlayerShuffle(true),
        ]
    );
    n.on_event(&AppEvent::SettingsEvent(SettingsEvent::PlayerSettingsChanged));
    assert!(n.take_commands().is_empty());
}

#[test]
fn switching_devices_keeps_a_pause() {
    for (followed, play) in [(Some(remote("tv", false)), false), (Some(remote("tv", true)), true), (Some(remote("radio", false)), true), (None, true)] {
        let mut s = playing_state();
        s.playback.remote = followed;
        let mut n = notifier(s);
        n.on_event(&playback(PlaybackEvent::SwitchedDevice(Device::Connect(device("tv")))));
        assert_eq!(n.take_commands(), vec![Command::PlayerStop]);
        assert_eq!(
            n.dispatcher.take(),
            vec![Effect::Call(ApiCall::PlayerTransfer { device_id: "tv".to_string(), play })]
        );
        let connect = n.take_connect_commands();
        assert_eq!(connect[0], ConnectCommand::SetDevice("tv".to_string()));
        assert!(matches!(connect[1], ConnectCommand::PlayerLoad { song_offset: 0, .. }));
    }
    let mut n = notifier(playing_state());
    n.on_event(&playback(PlaybackEvent::SwitchedDevice(Device::Local)));
    assert!(matches!(n.take_commands()[0], Command::SpircLoadTracks { start_playing: false, .. }));
    assert_eq!(n.take_connect_commands()[0], ConnectCommand::PlayerStop);
}

#[test]
fn control_changes_move_the_ownership() {
    let mut n = notifier(playing_state());
    n.on_event(&playback(PlaybackEvent::RemoteControlChanged(true)));
    n.on_event(&playback(PlaybackEvent::YieldedActiveDevice));
    n.on_event(&playback(PlaybackEvent::RemoteControlChanged(false)));
    assert_eq!(
        n.take_commands(),
        vec![
            Command::SetLocalOwnsPlayer(false),
            Command::SetLocalOwnsPlayer(false),
            Command::SetLocalOwnsPlayer(true),
        ]
    );
    assert_eq!(n.take_connect_commands().len(), 6);
}

#[test]
fn other_events_reach_the_player() {
    let mut n = notifier(AppState::new());
    n.on_event(&AppEvent::RadioRequested("seed".to_string()));
    n.on_event(&AppEvent::SettingsEvent(SettingsEvent::PlayerSettingsChanged));
    assert_eq!(
        n.take_commands(),
        vec![Command::StartRadio { seed_id: "seed".to_string() }, Command::ReloadSettings]
    );
    n.on_event(&AppEvent::RemoteMirrorRepollRequested);
    assert!(n.take_connect_commands().is_empty());
    n.app_model.state.playback.is_mirroring_remote = true;
    n.on_event(&AppEvent::RemoteMirrorRepollRequested);
    assert_eq!(n.take_connect_commands(), vec![ConnectCommand::SetRemoteMirrorActive(true)]);
    n.on_event(&AppEvent::NowPlayingSheetShown);
    assert_eq!(n.take_connect_commands(), mirror(true, false));
    n.local_send_failed();
    assert_eq!(
        n.dispatcher.take(),
        vec![Effect::Dispatch(AppAction::LoginAction(LoginAction::SetLoginFailure))]
    );
}

#[test]
fn this_device_is_not_offered_as_another() {
    let mut s = AppState::new();
    s.playback.available_devices = vec![device("own"), device("tv")];
    let mut selector = DeviceSelector::new(DeviceSelectorModel::new(
        AppModel::new(s),
        ActionDispatcher::new(),
    ));
    selector.on_event(&playback(PlaybackEvent::AvailableDevicesChanged));
    assert_eq!(selector.devices.len(), 2);
    selector.model.app_model.state.playback.own_device_id = Some("own".to_string());
    selector.on_event(&playback(PlaybackEvent::OwnDeviceIdSet("own".to_string())));
    assert_eq!(selector.devices, vec![device("tv")]);
    for (id, chosen) in [
        (Some("tv"), Device::Connect(device("tv"))),
        (Some("own"), Device::Local),
        (None, Device::Local),
    ] {
        selector.model.set_current_device(id.map(|i| i.to_string()));
        assert_eq!(
            selector.model.dispatcher.take(),
            vec![Effect::Dispatch(AppAction::PlaybackAction(PlaybackAction::SwitchDevice(chosen)))]
        );
    }
    selector.on_event(&AppEvent::LoginEvent(LoginEvent::LoginCompleted));
    assert_eq!(
        selector.model.dispatcher.take(),
        vec![Effect::Call(ApiCall::ListAvailableDevices)]
    );
    selector.model.app_model.state.playback.is_mirroring_remote = true;
    selector.model.app_model.state.playback.remote = Some(remote("tv", true));
    selector.on_event(&playback(PlaybackEvent::RemotePlaybackChanged));
    assert_eq!(selector.current, Device::Connect(device("tv")));
}

fn mirroring(is_playing: bool) -> AppState {
    let mut s = playing_state();
    s.playback.is_mirroring_remote = true;
    s.playback.remote = Some(remote("tv", is_playing));
    s
}

#[test]
fn buttons_act_here_or_there() {
    let mut here = PlaybackModel::new(AppModel::new(playing_state()), ActionDispatcher::new());
    here.toggle_playback();
    here.play_next_song();
    here.play_prev_song();
    here.seek_to(3);
    let volume = Volume { bits: 7, percent: 50 };
    here.set_volume(volume);
    let play = |a: PlaybackAction| Effect::Dispatch(AppAction::PlaybackAction(a));
    assert_eq!(
        here.dispatcher.take(),
        vec![
            play(PlaybackAction::TogglePlay),
            play(PlaybackAction::Next),
            play(PlaybackAction::Previous),
            play(PlaybackAction::Seek(3)),
            play(PlaybackAction::SetVolume(volume)),
        ]
    );
    let mut there = PlaybackModel::new(AppModel::new(mirroring(true)), ActionDispatcher::new());
    there.toggle_playback();
    assert_eq!(
        there.dispatcher.take(),
        vec![
            play(PlaybackAction::SetRemotePlayback(Some(remote("tv", false)))),
            Effect::Call(ApiCall::PlayerPause("tv".to_string())),
        ]
    );
    there.play_next_song();
    there.set_volume(volume);
    assert_eq!(
        there.dispatcher.take(),
        vec![
            Effect::Call(ApiCall::PlayerNext("tv".to_string())),
            Effect::Call(ApiCall::PlayerVolume { device_id: "tv".to_string(), percent: 50 }),
        ]
    );
    let mut sheet =
        NowPlayingSheetModel::new(AppModel::new(mirroring(false)), ActionDispatcher::new());
    sheet.press(Transport::Toggle);
    assert_eq!(
        sheet.dispatcher.take()[1],
        Effect::Call(ApiCall::PlayerResume("tv".to_string()))
    );
    sheet.press(Transport::SeekTo(10));
    let effects = sheet.dispatcher.take();
    assert_eq!(
        effects[0],
        play(PlaybackAction::SetRemotePlayback(Some(RemotePlayback {
            progress_ms: 10,
            ..remote("tv", false)
        })))
    );
    assert_eq!(
        effects[1],
        Effect::Call(ApiCall::PlayerSeek { device_id: "tv".to_string(), position: 10 })
    );
    assert_eq!(NowPlayingSheetModel::remote_called(), AppAction::RepollRemoteMirror);
}

#[test]
fn the_bar_shows_what_plays() {
    let mut bar = PlaybackControl::new(PlaybackModel::new(
        AppModel::new(AppState::new()),
        ActionDispatcher::new(),
    ));
    assert!(bar.info.is_none());
    let mut pictured = playing_state();
    for song in pictured.playback.songs.iter_mut() {
        song.art = ImageSet::from_images(vec![(Some(64), "art".to_string())]);
    }
    let shown =
        PlaybackControl::new(PlaybackModel::new(AppModel::new(pictured), ActionDispatcher::new()));
    assert_eq!(shown.art, Some("art".to_string()));
    bar.model.app_model.state = playing_state();
    bar.model.app_model.state.playback.is_playing = true;
    let mut home = HomeState::new(50);
    home.saved_tracks = SongListModel { songs: vec![song(ID)], batch_size: 50, total: 1 };
    bar.model.app_model.state.browser.home = Some(home);
    bar.on_event(&playback(PlaybackEvent::TrackChanged(ID.to_string())));
    assert!(bar.playing);
    assert!(bar.liked);
    assert_eq!(bar.info.as_ref().unwrap().artist, "Artist");
    bar.on_event(&playback(PlaybackEvent::TrackSeeked(500)));
    assert_eq!(bar.position, 500);
    bar.on_event(&AppEvent::SelectionEvent(SelectionEvent::SelectionModeChanged(true)));
    assert!(!bar.seekbar_visible);
    bar.on_event(&playback(PlaybackEvent::RepeatModeChanged(RepeatMode::Song)));
    assert_eq!(bar.repeat, RepeatMode::Song);
    bar.model.app_model.state.playback.is_mirroring_remote = true;
    bar.model.app_model.state.playback.remote = Some(remote("tv", false));
    bar.on_event(&playback(PlaybackEvent::RemotePlaybackChanged));
    assert_eq!(bar.info.as_ref().unwrap().title, "Title far");
    assert!(!bar.playing);
    assert_eq!(bar.position, 700);
    bar.model.app_model.state = AppState::new();
    bar.on_event(&playback(PlaybackEvent::PlaybackStopped));
    assert!(bar.info.is_none());
    assert_eq!(play_pause_icon(true), "media-playback-pause-symbolic");
    assert_eq!(play_pause_tooltip(false), "Play");
    assert_eq!(repeat_icon(RepeatMode::Off), "media-playlist-consecutive-symbolic");
    assert_eq!(liked_icon(false), "list-add-symbolic");
}

fn sheet(state: AppState) -> NowPlayingSheet {
    NowPlayingSheet::new(NowPlayingSheetModel::new(AppModel::new(state), ActionDispatcher::new()))
}

fn shown(name: &str, navigable: bool) -> Option<SourceDisplay> {
    Some(SourceDisplay { name: name.to_string(), navigable })
}

#[test]
fn the_source_is_named() {
    let playlist = SongsSource::Playlist { id: "p".to_string(), title: "Mine".to_string() };
    let name = |source: Option<SongsSource>| {
        let mut s = playing_state();
        s.playback.source = source;
        sheet(s).model.source_display("Liked Songs")
    };
    assert_eq!(name(None), shown("Album", false));
    assert_eq!(name(Some(playlist.clone())), shown("Mine", true));
    assert_eq!(name(Some(SongsSource::Album("a".to_string()))), shown("Album", true));
    assert_eq!(name(Some(SongsSource::Artist("a".to_string()))), shown("Artist", true));
    assert_eq!(name(Some(SongsSource::SavedTracks)), shown("Liked Songs", true));
    assert_eq!(sheet(AppState::new()).model.source_display("x"), None);

    let mut s = mirroring(true);
    s.playback.source = Some(playlist);
    assert_eq!(sheet(s).model.source_display("x"), shown("Album", false));
    let mut s = mirroring(true);
    s.playback.source =
        Some(SongsSource::Playlist { id: "p".to_string(), title: "Mine".to_string() });
    s.playback.remote.as_mut().unwrap().context_uri = Some("spotify:playlist:p".to_string());
    let mut sh = sheet(s);
    assert_eq!(sh.model.source_display("x"), shown("Mine", false));
    let mut sheets = Sheets { now_playing: true, ..Sheets::new() };
    sh.source_chosen(&mut sheets);
    assert!(sheets.now_playing);
    assert!(sh.model.dispatcher.take().is_empty());
}

#[test]
fn the_source_opens_and_closes_the_sheet() {
    let mut s = playing_state();
    s.playback.source = Some(SongsSource::Album("a".to_string()));
    let mut sh = sheet(s);
    let mut sheets = Sheets::new();
    sh.on_event(&mut sheets, &AppEvent::NowPlayingSheetShown, "x");
    assert!(sheets.now_playing);
    assert_eq!(sh.source, shown("Album", true));
    sh.source_chosen(&mut sheets);
    assert!(!sheets.now_playing);
    assert_eq!(
        sh.model.dispatcher.take(),
        vec![Effect::Dispatch(AppAction::ViewAlbum("a".to_string()))]
    );
    assert_eq!(no_song_label(), "No song playing");
    assert_eq!(playing_on(Some("TV")), Some("Playing on TV".to_string()));
    assert_eq!(playing_on(None), None);
}

#[test]
fn the_sheet_remembers_the_position() {
    let mut sh = sheet(playing_state());
    let mut sheets = Sheets::new();
    sh.on_event(&mut sheets, &playback(PlaybackEvent::SeekSynced(321)), "x");
    sh.on_event(&mut sheets, &AppEvent::NowPlayingSheetShown, "x");
    assert_eq!(sh.position, 321);
    sh.on_event(&mut sheets, &playback(PlaybackEvent::TrackChanged(ID.to_string())), "x");
    assert_eq!(sh.position, 0);
    assert_eq!(sh.last_position, 0);
    sh.model.app_model.state.playback.remote = Some(remote("tv", true));
    sh.on_event(&mut sheets, &playback(PlaybackEvent::RemotePlaybackChanged), "x");
    assert_eq!(sh.position, 700);
    sh.on_event(&mut sheets, &AppEvent::BrowserEvent(BrowserEvent::SavedTracksUpdated), "x");
    assert!(!sh.liked);
    assert!(sheets.now_playing);
    sh.queue_chosen(&mut sheets);
    assert!(sheets.now_playing && sheets.queue);
    sh.artist_chosen(&mut sheets);
    assert!(!sheets.now_playing && sheets.queue);
    sheets.now_playing = true;
    sh.album_chosen(&mut sheets);
    assert!(!sheets.now_playing);
    sh.model.show_song_menu();
    assert_eq!(
        sh.model.dispatcher.take(),
        vec![
            Effect::Dispatch(AppAction::ViewArtist("ar".to_string())),
            Effect::Dispatch(AppAction::ViewAlbum("al".to_string())),
            Effect::Dispatch(AppAction::ShowSongMenu(song(ID))),
        ]
    );
}

use riff::actions::{
    ActionDispatcher, ApiCall, AppAction, AppEvent, BrowserAction, BrowserEvent, Effect,
    LoginEvent, PaginationTarget, PlaybackAction, SelectionContext, SongsSource,
};
use riff::api::cached_client::SpotifyApiError;
use riff::models::{
    AlbumDescription, AlbumFullDescription, AlbumRef, AlbumReleaseDetails, ArtistRef, Batch,
    PlaylistDescription, PlaylistSummary, SongBatch, SongDescription, UserRef,
};
use riff::pages::details_album::DetailsModel;
use riff::pages::details_artist::ArtistDetailsModel;
use riff::pages::details_playlist::PlaylistDetailsModel;
use riff::pages::radio::RadioModel;
use riff::pages::saved_tracks::SavedTracksModel;
use riff::song_list::SongListModel;
use riff::state::{
    AppModel, AppState, ArtistState, DetailsState, HomeState, PageCursor, PlaylistDetailsState,
    RadioState,
};

fn song(id: &str) -> SongDescription {
    SongDescription {
        id: id.to_string(),
        uri: format!("spotify:track:{}", id),
        title: "T".to_string(),
        artists: vec![],
        album: AlbumRef { id: "al".to_string(), name: "Album".to_string() },
        duration_ms: 1,
        art: None,
        track_number: None,
    }
}

fn list(ids: Vec<&str>, batch_size: usize, total: usize) -> SongListModel {
    let mut songs = SongListModel::new(batch_size);
    songs.add(SongBatch {
        songs: ids.into_iter().map(song).collect(),
        batch: Batch { offset: 0, batch_size, total },
    });
    songs
}

fn album(id: &str, is_liked: bool) -> AlbumFullDescription {
    AlbumFullDescription {
        description: AlbumDescription {
            id: id.to_string(),
            title: "Title".to_string(),
            artists: vec![
                ArtistRef { id: "x".to_string(), name: "X".to_string() },
                ArtistRef { id: "y".to_string(), name: "Y".to_string() },
            ],
            release_date: None,
            art: None,
            songs: SongBatch::empty(),
            is_liked,
            popularity: 0,
        },
        release_details: AlbumReleaseDetails {
            label: String::new(),
            copyright_text: String::new(),
            total_tracks: 0,
        },
    }
}

fn cursor(next_offset: Option<usize>) -> PageCursor {
    PageCursor { next_offset, batch_size: 2 }
}

fn album_model(content: Option<AlbumFullDescription>, next: Option<usize>) -> DetailsModel {
    let mut state = AppState::new();
    state.browser.details.push(DetailsState {
        id: "al".to_string(),
        content,
        songs: list(vec!["a", "b", "c"], 2, 9),
        next_tracks_page: cursor(next),
    });
    DetailsModel::new("al".to_string(), AppModel::new(state), ActionDispatcher::new())
}

fn described(id: &str, owner: &str) -> PlaylistDescription {
    PlaylistDescription {
        id: id.to_string(),
        title: "Mix".to_string(),
        art: None,
        songs: SongBatch::empty(),
        owner: UserRef { id: owner.to_string(), display_name: "Owner".to_string() },
        snapshot_id: None,
    }
}

fn playlist_model(playlist: Option<PlaylistDescription>) -> PlaylistDetailsModel {
    let mut state = AppState::new();
    state.logged_user.user = Some("me".to_string());
    state.browser.playlists.push(PlaylistDetailsState {
        id: "pl".to_string(),
        playlist,
        songs: list(vec!["a", "b", "c"], 2, 3),
        next_tracks_page: cursor(Some(3)),
    });
    PlaylistDetailsModel::new("pl".to_string(), AppModel::new(state), ActionDispatcher::new())
}

fn artist_model(is_followed: bool) -> ArtistDetailsModel {
    let mut state = AppState::new();
    state.browser.artists.push(ArtistState {
        id: "ar".to_string(),
        artist: Some("Name".to_string()),
        photo: None,
        albums: vec![],
        next_page: cursor(Some(2)),
        next_page_id: "ar".to_string(),
        top_tracks: list(vec!["a", "b", "c"], 2, 3),
        is_followed,
    });
    ArtistDetailsModel::new("ar".to_string(), AppModel::new(state), ActionDispatcher::new())
}

#[test]
fn an_album_page_shows_its_album() {
    let unread = album_model(None, None);
    assert!(!unread.is_loaded());
    assert_eq!(unread.get_title(), None);
    let mut model = album_model(Some(album("al", false)), None);
    assert!(model.is_loaded());
    assert_eq!(model.get_title(), Some("Title".to_string()));
    assert_eq!(model.get_subtitle(), Some("X, Y".to_string()));
    assert!(!model.playlist_options().covers);
    model.on_subtitle_clicked();
    assert_eq!(
        model.base.dispatcher.take(),
        vec![Effect::Dispatch(AppAction::ViewArtist("x".to_string()))]
    );
}

#[test]
fn an_album_page_reads_page_by_page() {
    let mut model = album_model(Some(album("al", false)), Some(4));
    model.load_page_info();
    model.load_more();
    assert_eq!(
        model.base.dispatcher.take(),
        vec![
            Effect::Call(ApiCall::GetAlbum("al".to_string())),
            Effect::UpdateState(BrowserAction::ConsumeNextPage(PaginationTarget::AlbumTracks(
                "al".to_string()
            ))),
            Effect::Call(ApiCall::GetAlbumTracks { id: "al".to_string(), offset: 4, limit: 2 }),
        ]
    );
    let mut ended = album_model(Some(album("al", false)), None);
    ended.load_more();
    assert!(ended.base.dispatcher.take().is_empty());
    let batch = SongBatch { songs: vec![song("z")], batch: Batch::first_of_size(2) };
    assert_eq!(
        model.more_loaded(Ok(batch)),
        Ok(AppAction::BrowserAction(BrowserAction::AppendAlbumTracks(
            "al".to_string(),
            SongBatch { songs: vec![song("z")], batch: Batch::first_of_size(2) }
        )))
    );
    assert_eq!(
        DetailsModel::page_info_loaded(Err(SpotifyApiError::BadStatus(404, String::new()))),
        Ok(AppAction::BrowserAction(BrowserAction::NavigationPop))
    );
}

#[test]
fn albums_are_saved_and_removed() {
    let mut model = album_model(Some(album("al", false)), None);
    assert!(!model.is_liked());
    model.toggle_like();
    assert_eq!(
        model.base.dispatcher.take(),
        vec![Effect::Call(ApiCall::SaveAlbum("al".to_string()))]
    );
    let mut liked = album_model(Some(album("al", true)), None);
    liked.toggle_like();
    assert_eq!(
        liked.base.dispatcher.take(),
        vec![Effect::Call(ApiCall::RemoveSavedAlbum("al".to_string()))]
    );
    assert_eq!(
        DetailsModel::album_removed("al".to_string(), Ok(())),
        Ok(AppAction::BrowserAction(BrowserAction::UnsaveAlbum("al".to_string())))
    );
    let saved = AppEvent::BrowserEvent(BrowserEvent::AlbumSaved("al".to_string()));
    let other = AppEvent::BrowserEvent(BrowserEvent::AlbumUnsaved("zz".to_string()));
    assert!(model.should_refresh_liked(&saved));
    assert!(!model.should_refresh_liked(&other));
    let mut unread = album_model(None, None);
    unread.toggle_like();
    assert!(unread.base.dispatcher.take().is_empty());
}

#[test]
fn a_song_plays_with_the_page_around_it() {
    let mut model = album_model(Some(album("al", false)), None);
    model.start_play("c");
    assert_eq!(
        model.base.dispatcher.take(),
        vec![
            Effect::Dispatch(AppAction::PlaybackAction(PlaybackAction::LoadPagedSongs(
                SongsSource::Album("al".to_string()),
                SongBatch {
                    songs: vec![song("c")],
                    batch: Batch { offset: 2, batch_size: 2, total: 9 }
                }
            ))),
            Effect::Dispatch(AppAction::PlaybackAction(PlaybackAction::Load("c".to_string()))),
        ]
    );
    model.start_play("absent");
    assert!(model.base.dispatcher.take().is_empty());
}

#[test]
fn an_artist_plays_all_top_tracks() {
    let mut model = artist_model(false);
    assert_eq!(model.get_title(), Some("Name".to_string()));
    assert!(!model.has_items());
    model.play_song_at(1, "b");
    assert_eq!(
        model.base.dispatcher.take()[0],
        Effect::Dispatch(AppAction::PlaybackAction(PlaybackAction::LoadPagedSongs(
            SongsSource::Artist("ar".to_string()),
            SongBatch {
                songs: vec![song("a"), song("b"), song("c")],
                batch: Batch { offset: 0, batch_size: 3, total: 3 }
            }
        )))
    );
}

#[test]
fn artists_are_followed_and_left() {
    let mut model = artist_model(false);
    model.toggle_like();
    let mut followed = artist_model(true);
    followed.toggle_like();
    assert_eq!(
        model.base.dispatcher.take(),
        vec![Effect::Call(ApiCall::FollowArtist("ar".to_string()))]
    );
    assert_eq!(
        followed.base.dispatcher.take(),
        vec![Effect::Call(ApiCall::UnfollowArtist("ar".to_string()))]
    );
    assert_eq!(
        ArtistDetailsModel::like_toggled("ar".to_string(), true, Ok(())),
        Ok(AppAction::BrowserAction(BrowserAction::UnfollowArtist("ar".to_string())))
    );
    assert_eq!(
        ArtistDetailsModel::like_toggled("ar".to_string(), true, Err(SpotifyApiError::NoToken)),
        Err(SpotifyApiError::NoToken)
    );
}

#[test]
fn own_playlists_can_be_changed() {
    let mut own = playlist_model(Some(described("pl", "me")));
    own.base.app_model.state.select_mode = true;
    assert!(own.is_playlist_editable());
    assert!(!own.like_visible());
    assert_eq!(
        own.selection_context(),
        Some(SelectionContext::EditablePlaylist("pl".to_string()))
    );
    assert!(own.enable_selection());
    own.update_playlist_details("New".to_string());
    assert_eq!(
        own.base.dispatcher.take(),
        vec![
            Effect::Dispatch(AppAction::EnableSelection(SelectionContext::EditablePlaylist(
                "pl".to_string()
            ))),
            Effect::Call(ApiCall::UpdatePlaylistDetails {
                id: "pl".to_string(),
                name: "New".to_string()
            }),
        ]
    );
    assert_eq!(
        PlaylistDetailsModel::playlist_renamed("pl".to_string(), "New".to_string(), Ok(())),
        Ok(AppAction::UpdatePlaylistName(PlaylistSummary {
            id: "pl".to_string(),
            title: "New".to_string()
        }))
    );
    let mut other = playlist_model(Some(described("pl", "you")));
    other.base.app_model.state.select_mode = true;
    assert!(other.like_visible());
    assert_eq!(other.selection_context(), Some(SelectionContext::Playlist));
    let mut off = playlist_model(None);
    assert!(!off.is_playlist_editable());
    assert!(!off.enable_selection());
    assert_eq!(off.selection_context(), None);
}

#[test]
fn a_failed_track_read_fails_the_playlist() {
    assert_eq!(
        PlaylistDetailsModel::page_info_loaded(
            Err(SpotifyApiError::NoContent),
            Err(SpotifyApiError::BadStatus(404, String::new()))
        ),
        Err(SpotifyApiError::NoContent)
    );
    assert_eq!(
        PlaylistDetailsModel::page_info_loaded(
            Ok(SongBatch::empty()),
            Err(SpotifyApiError::BadStatus(400, String::new()))
        ),
        Ok(AppAction::BrowserAction(BrowserAction::NavigationPop))
    );
}

#[test]
fn a_playlist_plays_under_its_title() {
    let mut model = playlist_model(Some(described("pl", "me")));
    model.play_song_at(0, "a");
    let effects = model.base.dispatcher.take();
    assert!(matches!(
        &effects[0],
        Effect::Dispatch(AppAction::PlaybackAction(PlaybackAction::LoadPagedSongs(
            SongsSource::Playlist { id, title },
            batch
        ))) if id == "pl" && title == "Mix" && batch.songs.len() == 2
    ));
    model.on_subtitle_clicked();
    assert_eq!(
        model.base.dispatcher.take(),
        vec![Effect::Dispatch(AppAction::ViewUser("me".to_string()))]
    );
}

#[test]
fn a_station_is_named_after_its_song() {
    let mut state = AppState::new();
    state.browser.radios.push(RadioState {
        id: "seed".to_string(),
        songs: list(vec!["a"], 50, 7),
    });
    state.playback.source = Some(SongsSource::Radio {
        seed_id: "seed".to_string(),
        seed_name: "Song".to_string(),
    });
    let model = RadioModel::new(
        "seed".to_string(),
        "Song".to_string(),
        AppModel::new(state),
        ActionDispatcher::new(),
    );
    assert_eq!(model.title_in("On {}!"), "On Song!");
    assert_eq!(model.get_title(), Some("Radio · based on Song".to_string()));
    assert_eq!(model.get_subtitle(), Some("7 Tracks".to_string()));
    assert!(model.source_is_playing());
    assert!(model.is_loaded());
    let loaded = AppEvent::BrowserEvent(BrowserEvent::RadioTracksLoaded("seed".to_string()));
    assert!(model.should_refresh_details(&loaded));
}

#[test]
fn a_station_plays_as_a_whole() {
    let mut state = AppState::new();
    state.browser.radios.push(RadioState {
        id: "seed".to_string(),
        songs: list(vec!["a", "b", "c"], 2, 9),
    });
    let mut model = RadioModel::new(
        "seed".to_string(),
        "Song".to_string(),
        AppModel::new(state),
        ActionDispatcher::new(),
    );
    model.play_song_at(2, "c");
    assert_eq!(
        model.base.dispatcher.take(),
        vec![
            Effect::Dispatch(AppAction::PlaybackAction(PlaybackAction::LoadPagedSongs(
                SongsSource::Radio {
                    seed_id: "seed".to_string(),
                    seed_name: "Song".to_string()
                },
                SongBatch {
                    songs: vec![song("a"), song("b"), song("c")],
                    batch: Batch { offset: 0, batch_size: 3, total: 3 }
                }
            ))),
            Effect::Dispatch(AppAction::PlaybackAction(PlaybackAction::Load("c".to_string()))),
        ]
    );
    model.play_song_at(3, "d");
    assert!(model.base.dispatcher.take().is_empty());
}

#[test]
fn releases_are_read_for_the_artist_of_the_page() {
    let mut model = artist_model(false);
    model.load_more();
    assert_eq!(
        model.base.dispatcher.take(),
        vec![
            Effect::UpdateState(BrowserAction::ConsumeNextPage(PaginationTarget::ArtistReleases(
                "ar".to_string()
            ))),
            Effect::Call(ApiCall::GetArtistAlbums { id: "ar".to_string(), offset: 2, limit: 2 }),
        ]
    );
    assert_eq!(
        ArtistDetailsModel::more_loaded("ar".to_string(), Ok(vec![])),
        Ok(AppAction::BrowserAction(BrowserAction::AppendArtistReleases(
            "ar".to_string(),
            vec![]
        )))
    );
}

#[test]
fn liked_songs_are_read_after_a_login() {
    let mut state = AppState::new();
    let mut home = HomeState::new(50);
    home.saved_tracks = list(vec!["a", "b"], 50, 1);
    home.next_saved_tracks_page = PageCursor { next_offset: Some(50), batch_size: 50 };
    state.browser.home = Some(home);
    let mut model = SavedTracksModel::new(AppModel::new(state), ActionDispatcher::new());
    model.on_event(&AppEvent::LoginEvent(LoginEvent::LoginCompleted));
    model.on_event(&AppEvent::LoginEvent(LoginEvent::LogoutCompleted));
    model.load_more();
    assert_eq!(
        model.base.dispatcher.take(),
        vec![
            Effect::Call(ApiCall::LoadSavedTracks { offset: 0, limit: 50 }),
            Effect::UpdateState(BrowserAction::ConsumeNextPage(PaginationTarget::SavedTracks)),
            Effect::Call(ApiCall::GetSavedTracks { offset: 50, limit: 50 }),
        ]
    );
    assert_eq!(model.get_subtitle(), Some("1 Track".to_string()));
    assert!(!model.source_is_playing());
}

use riff::actions::{
    ActionDispatcher, AppAction, BrowserAction, Effect, PlaybackAction, ScreenName, SongsSource,
};
use riff::api::cached_client::SpotifyApiError;
use riff::card_enums::{CardLayout, CardSize, ImageShape, SortOrder};
use riff::card_model::{CardKind, CardModel};
use riff::models::{
    AlbumDescription, AlbumFullDescription, AlbumRef, AlbumReleaseDetails, ArtistSummary, Batch,
    ConnectDevice, ConnectDeviceKind, SongBatch, SongDescription,
};
use riff::pages::details_album::DetailsModel;
use riff::pages::home::{
    recently_played_read, saved_albums_read, shelf_card_style, shortcut_style, top_tracks_read,
};
use riff::pages::library::{
    albums_read, artists_read, more_albums_read, more_artists_read, more_playlists_read,
    playlists_read, LibraryFilter,
};
use riff::pages::library_menu::album_to_play;
use riff::pages::pinned_store::PinnedStore;
use riff::pages::saved_tracks::SavedTracksModel;
use riff::pages::search::SearchFilter;
use riff::shell::commands::Command;
use riff::shell::device_selector::DeviceSelectorModel;
use riff::shell::dsp::DspSettings;
use riff::shell::factory::ScreenFactory;
use riff::shell::now_playing::NowPlayingSheetModel;
use riff::shell::playback::PlaybackModel;
use riff::shell::player_notifier::PlayerNotifier;
use riff::shell::user_menu::{UserMenu, UserMenuModel};
use riff::state::{AppModel, AppState};
use riff::widgets::card::CardWidget;
use riff::widgets::card_list::CardList;
use riff::widgets::playlist::like_tooltip;

fn app() -> AppModel {
    AppModel::new(AppState::new())
}

fn song(id: &str) -> SongDescription {
    SongDescription {
        id: id.to_string(),
        uri: String::new(),
        title: String::new(),
        artists: vec![],
        album: AlbumRef { id: "al".to_string(), name: String::new() },
        duration_ms: 0,
        art: None,
        track_number: None,
    }
}

fn album(songs: Vec<SongDescription>) -> AlbumDescription {
    let total = songs.len();
    AlbumDescription {
        id: "al".to_string(),
        title: "Album".to_string(),
        artists: vec![],
        release_date: None,
        art: None,
        songs: SongBatch { songs, batch: Batch { offset: 0, batch_size: 50, total } },
        is_liked: false,
        popularity: 0,
    }
}

fn full(songs: Vec<SongDescription>) -> AlbumFullDescription {
    AlbumFullDescription {
        description: album(songs),
        release_details: AlbumReleaseDetails {
            label: String::new(),
            copyright_text: String::new(),
            total_tracks: 0,
        },
    }
}

fn artists() -> Vec<ArtistSummary> {
    vec![ArtistSummary { id: "ar".to_string(), name: "A".to_string(), photo: None, popularity: 1 }]
}

fn browse(action: BrowserAction) -> AppAction {
    AppAction::BrowserAction(action)
}

#[test]
fn first_pages_replace_and_later_ones_are_added() {
    let cursor = || Some("next".to_string());
    assert_eq!(
        albums_read(Ok(vec![album(vec![])])),
        Ok(browse(BrowserAction::SetLibraryContent(vec![album(vec![])])))
    );
    assert_eq!(
        more_albums_read(Ok(vec![album(vec![])])),
        Ok(browse(BrowserAction::AppendLibraryContent(vec![album(vec![])])))
    );
    assert_eq!(
        playlists_read(Ok(vec![])),
        Ok(browse(BrowserAction::SetPlaylistsContent(vec![])))
    );
    assert_eq!(
        more_playlists_read(Ok(vec![])),
        Ok(browse(BrowserAction::AppendPlaylistsContent(vec![])))
    );
    assert_eq!(
        artists_read(Ok((artists(), cursor()))),
        Ok(browse(BrowserAction::SetSavedArtists(artists(), cursor())))
    );
    assert_eq!(
        more_artists_read(Ok((artists(), None))),
        Ok(browse(BrowserAction::AppendSavedArtists(artists(), None)))
    );
    assert_eq!(more_albums_read(Err(SpotifyApiError::NoToken)), Err(SpotifyApiError::NoToken));
}

#[test]
fn shelves_that_cannot_be_read_stay_as_they_are() {
    assert_eq!(recently_played_read(Err(SpotifyApiError::NoContent)), None);
    assert_eq!(top_tracks_read(Err(SpotifyApiError::NoContent)), None);
    assert_eq!(saved_albums_read(Err(SpotifyApiError::NoContent)), None);
    assert_eq!(
        top_tracks_read(Ok(vec![song("a")])),
        Some(browse(BrowserAction::SetTopTracks(vec![song("a")])))
    );
    assert_eq!(
        recently_played_read(Ok((vec![song("a")], vec![]))),
        Some(browse(BrowserAction::SetRecentlyPlayed(vec![song("a")], vec![])))
    );
    assert_eq!(shelf_card_style(), (CardLayout::Vertical, CardSize::Medium));
    assert_eq!(shortcut_style(), (CardLayout::Horizontal, CardSize::Small));
}

#[test]
fn albums_play_from_their_first_song() {
    let actions = album_to_play("al".to_string(), Ok(full(vec![song("a"), song("b")])));
    assert_eq!(actions.len(), 2);
    assert!(matches!(
        &actions[0],
        AppAction::PlaybackAction(PlaybackAction::LoadPagedSongs(SongsSource::Album(id), batch))
            if id == "al" && batch.songs.len() == 2
    ));
    assert_eq!(actions[1], AppAction::PlaybackAction(PlaybackAction::Load("a".to_string())));
    assert!(album_to_play("al".to_string(), Ok(full(vec![]))).is_empty());
    assert!(album_to_play("al".to_string(), Err(SpotifyApiError::NoToken)).is_empty());
}

#[test]
fn answers_become_actions() {
    assert_eq!(
        DetailsModel::album_saved(Ok(album(vec![]))),
        Ok(browse(BrowserAction::SaveAlbum(album(vec![]))))
    );
    assert_eq!(
        SavedTracksModel::initial_loaded(SongBatch::empty()),
        browse(BrowserAction::SetSavedTracks(SongBatch::empty()))
    );
    let device = || ConnectDevice {
        id: "d".to_string(),
        label: "D".to_string(),
        kind: ConnectDeviceKind::Phone,
    };
    assert_eq!(
        DeviceSelectorModel::devices_listed(Ok(vec![device()])),
        Ok(AppAction::PlaybackAction(PlaybackAction::SetAvailableDevices(vec![device()])))
    );
}

#[test]
fn pages_are_made_for_their_items() {
    let factory =
        ScreenFactory::new(CardLayout::Horizontal, CardSize::Small, PinnedStore::load(None));
    let out = ActionDispatcher::new;
    let playlists = factory.make_saved_playlists(app(), out());
    assert_eq!(playlists.title, "Playlists");
    assert_eq!(playlists.model.filter, LibraryFilter::Playlists);
    let artists = factory.make_saved_artists(app(), out());
    assert_eq!(artists.title, "Artists");
    assert_eq!(artists.model.filter, LibraryFilter::Artists);
    let radio = factory.make_radio("s".to_string(), "Song".to_string(), app(), out());
    assert_eq!((radio.model.base.id.as_str(), radio.model.seed_name.as_str()), ("s", "Song"));
    assert_eq!(factory.make_search_results(app(), out()).filter, SearchFilter::All);
    assert_eq!(factory.make_artist_details("a".to_string(), app(), out()).base.id, "a");
    assert_eq!(factory.make_playlist_details("p".to_string(), app(), out()).base.id, "p");
    assert_eq!(factory.make_user_details("u".to_string(), app(), out()).id, "u");
    assert!(factory.make_settings(out()).dispatcher.take().is_empty());
}

#[test]
fn labels_are_in_the_users_language() {
    assert_eq!(SearchFilter::Songs.label(), "Songs");
    assert_eq!(LibraryFilter::All.label(), None);
    assert_eq!(LibraryFilter::Albums.label(), Some("Albums".to_string()));
    assert_eq!(SortOrder::Size.label(), "Largest");
    assert_eq!(like_tooltip(true), "Unlike");
    assert_eq!(like_tooltip(false), "Like");
}

#[test]
fn buttons_open_their_sheets() {
    let mut bar = PlaybackModel::new(app(), ActionDispatcher::new());
    bar.open_now_playing_sheet();
    assert_eq!(
        bar.dispatcher.take(),
        vec![Effect::Dispatch(AppAction::ShowNowPlayingSheet)]
    );
    let mut state = AppState::new();
    state.playback.songs = vec![song("a")];
    state.playback.position = Some(0);
    let mut sheet = NowPlayingSheetModel::new(AppModel::new(state), ActionDispatcher::new());
    sheet.view_album();
    assert_eq!(
        sheet.dispatcher.take(),
        vec![Effect::Dispatch(AppAction::ViewAlbum("al".to_string()))]
    );
    let mut menu = UserMenu::new(UserMenuModel::new(app(), ActionDispatcher::new()));
    menu.open_settings();
    assert_eq!(
        menu.model.dispatcher.take(),
        vec![Effect::Dispatch(browse(BrowserAction::NavigationPush(ScreenName::Settings)))]
    );
}

#[test]
fn changed_sound_settings_are_told_at_once() {
    let mut notifier = PlayerNotifier::new(app(), ActionDispatcher::new());
    let settings =
        DspSettings { mono_audio: true, pan: 0, pitch_cents: 0, bands: [7; 10] };
    notifier.setting_changed("eq-band-0", &settings);
    notifier.setting_changed("volume", &settings);
    notifier.setting_changed("mono-audio", &settings);
    assert_eq!(
        notifier.take_commands(),
        vec![Command::SetEqualizer([7; 10]), Command::SetMono(true)]
    );
}

#[test]
fn cards_change_their_size() {
    let mut grid = CardList::new();
    grid.update_size(CardSize::Small);
    grid.update_layout(CardLayout::ImageOnly);
    assert_eq!((grid.size, grid.layout), (CardSize::Small, CardLayout::ImageOnly));
    let mut card = CardWidget::new(ImageShape::Square, CardLayout::Vertical);
    card.set_image_size(CardSize::Medium);
    assert_eq!(card.size, CardSize::Medium);
    assert!(CardSize::Small.pixel_size() < CardSize::Medium.pixel_size());
    assert!(CardSize::Medium.pixel_size() < CardSize::Large.pixel_size());
    let plain = CardModel::new("a", None, "A", "", None, None, None);
    assert_eq!(plain.card_kind(), CardKind::Untyped);
}

#[test]
fn actions_keep_their_order() {
    let mut out = ActionDispatcher::new();
    out.dispatch_many(vec![AppAction::Start, AppAction::ShowNowPlayingSheet]);
    assert_eq!(
        out.take(),
        vec![
            Effect::Dispatch(AppAction::Start),
            Effect::Dispatch(AppAction::ShowNowPlayingSheet)
        ]
    );
}

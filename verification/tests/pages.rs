use riff::actions::{
    ActionDispatcher, ApiCall, AppAction, AppEvent, BrowserAction, BrowserEvent, Effect,
    LoginEvent, PlaybackAction, PlaybackEvent, ScreenName,
};
use riff::api::cached_client::SpotifyApiError;
use riff::card_model::{CardKind, CardModel};
use riff::id_set::IdSet;
use riff::models::{
    AlbumRef, ArtistRef, ArtistSummary, PlaylistDescription, SongBatch, SongDescription, UserRef,
};
use riff::pages::add_to_playlist::{
    drawer_task, playlist_created, rows_for, sort_mode_of, start_sync, AddToPlaylist,
    AddToPlaylistModel, Drawer, DrawerTask, PlaylistRow, SortMode, SyncStep, SYNC_PAGE,
};
use riff::pages::home::{
    card_shape, made_for_you_title, seed_albums_read, seed_artists_read, top_artists_read,
    HomeFeedModel, HomeScreen, SeedStep, Shelf,
};
use riff::pages::library::LIKED_SONGS_ID;
use riff::pages::membership_cache::{MembershipIndex, OwnedPlaylist, SharedMembershipCache};
use riff::pages::queue::{queue_rows, row_label, Queue, QueueModel, QueueRow};
use riff::pages::settings::{
    alsa_device_hidden_at_start, alsa_device_visible, color_scheme_of, is_flag_listed,
    ChoiceSetting, ColorScheme, SettingsCommand, SettingsPage,
};
use riff::pages::song_menu::{SongMenu, SongMenuModel, SongMenuRow};
use riff::shell::sheets::Sheets;
use riff::song_list::SongListModel;
use riff::sorting::Ranking;
use riff::state::{AppModel, AppState, HomeState};
use riff::text::Order;

fn song(id: &str) -> SongDescription {
    SongDescription {
        id: id.to_string(),
        uri: format!("spotify:track:{}", id),
        title: "T".to_string(),
        artists: vec![ArtistRef { id: "ar".to_string(), name: "Artist".to_string() }],
        album: AlbumRef { id: "al".to_string(), name: "Album".to_string() },
        duration_ms: 1,
        art: None,
        track_number: None,
    }
}

fn app(state: AppState) -> AppModel {
    AppModel::new(state)
}

fn logged_in() -> AppState {
    let mut state = AppState::new();
    state.logged_user.user = Some("me".to_string());
    state
}

fn described(id: &str, owner: &str, snapshot: Option<&str>) -> PlaylistDescription {
    PlaylistDescription {
        id: id.to_string(),
        title: format!("List {}", id),
        art: None,
        songs: SongBatch::empty(),
        owner: UserRef { id: owner.to_string(), display_name: owner.to_string() },
        snapshot_id: snapshot.map(|s| s.to_string()),
    }
}

fn owned(id: &str) -> OwnedPlaylist {
    OwnedPlaylist {
        id: id.to_string(),
        title: format!("List {}", id),
        art: None,
        snapshot_id: Some("s1".to_string()),
    }
}

fn id_set(ids: Vec<&str>) -> IdSet {
    IdSet::from_list(&ids.into_iter().map(|i| i.to_string()).collect())
}

#[test]
fn new_playlists_need_a_name_and_a_user() {
    let mut model = AddToPlaylistModel::new(app(logged_in()), ActionDispatcher::new());
    assert!(!model.confirm_name("   "));
    assert!(model.dispatcher.take().is_empty());
    assert!(model.confirm_name("  Mix "));
    assert_eq!(
        model.dispatcher.take(),
        vec![Effect::Call(ApiCall::CreatePlaylist {
            name: "Mix".to_string(),
            user_id: "me".to_string()
        })]
    );
    let mut nobody = AddToPlaylistModel::new(app(AppState::new()), ActionDispatcher::new());
    assert!(nobody.confirm_name("Mix"));
    assert!(nobody.dispatcher.take().is_empty());
    assert_eq!(playlist_created(Err(SpotifyApiError::NoToken)), Err(SpotifyApiError::NoToken));
}

#[test]
fn the_drawer_lists_and_filters_playlists() {
    let mut index = MembershipIndex::load(None);
    index.insert("a".to_string(), "s1".to_string(), id_set(vec!["x"]));
    let rows = rows_for(&vec![owned("a"), owned("b")], &index, "x");
    assert!(rows[0].in_playlist);
    assert!(!rows[1].in_playlist);
    assert!(rows[0].matches_search(""));
    assert!(rows[0].matches_search("LIST A"));
    assert!(!rows[0].matches_search("zzz"));
    assert_eq!(
        SortMode::Alphabetical.compare(&rows[0], &rows[1]),
        Order::Less
    );
    assert_eq!(SortMode::Default.compare(&rows[1], &rows[0]), Order::Equal);
    assert_eq!(sort_mode_of(0), SortMode::Alphabetical);
    assert_eq!(sort_mode_of(1), SortMode::Default);
}

#[test]
fn the_drawer_searches_and_sorts() {
    let mut cache = SharedMembershipCache::load(None);
    cache.set_owned_playlists(vec![owned("b"), owned("a"), owned("c")]);
    let mut drawer = Drawer::build(&song("x"), &cache);
    assert_eq!(drawer.song_artist, "Artist");
    let ids = |d: &Drawer| -> Vec<String> { d.listed().iter().map(|r| r.id.clone()).collect() };
    assert_eq!(ids(&drawer), vec!["a", "b", "c"]);
    drawer.sort_chosen(1);
    assert_eq!(ids(&drawer), vec!["b", "a", "c"]);
    drawer.search_changed("list A".to_string());
    assert_eq!(ids(&drawer), vec!["a"]);
    drawer.new_playlist_pressed();
    assert!(drawer.entry_visible);
    let mut model = AddToPlaylistModel::new(app(logged_in()), ActionDispatcher::new());
    drawer.name_confirmed(&mut model, "  ");
    assert!(drawer.entry_visible);
    drawer.name_confirmed(&mut model, " Mix ");
    assert!(!drawer.entry_visible);
    assert_eq!(model.dispatcher.take().len(), 1);
}

#[test]
fn drawer_rows_drop_late_pictures() {
    let lists = vec![owned("a"), owned("b")];
    let rows = rows_for(&lists, &MembershipIndex::load(None), "x");
    let mut staged = AddToPlaylist::new();
    staged.shown(&mut Sheets::new(), &song("x"), &lists);
    staged.toggled("a", true, false);
    let mut row = PlaylistRow::new();
    row.bind(&rows[0], &staged);
    assert!(row.checked);
    row.bind(&rows[1], &staged);
    assert!(!row.checked);
    assert!(!row.cover_loaded("a", "url".to_string()));
    assert_eq!(row.art, None);
    assert!(row.cover_loaded("b", "url".to_string()));
    row.unbind();
    assert_eq!(row.bound_id, "");
}

#[test]
fn boxes_stage_only_differences() {
    let lists = vec![owned("a"), owned("b")];
    let mut drawer = AddToPlaylist::new();
    let mut sheets = Sheets::new();
    drawer.shown(&mut sheets, &song("x"), &lists);
    drawer.rebuild(&lists);
    assert!(drawer.staged_adds.ids.is_empty());
    drawer.toggled("a", true, false);
    assert!(drawer.checked("a", false));
    drawer.toggled("a", false, false);
    assert!(!drawer.checked("a", false));
    assert!(drawer.staged_adds.ids.is_empty());
    drawer.toggled("b", false, true);
    assert!(!drawer.checked("b", true));
    drawer.toggled("b", true, true);
    assert!(drawer.checked("b", true));
    assert!(drawer.staged_removes.ids.is_empty());
    assert!(drawer.is_rebuilt(&sheets));
    drawer.cancel(&mut sheets);
    assert!(!drawer.is_rebuilt(&sheets));
}

#[test]
fn new_playlists_are_checked() {
    let mut drawer = AddToPlaylist::new();
    drawer.shown(&mut Sheets::new(), &song("x"), &vec![owned("a")]);
    drawer.rebuild(&vec![owned("a"), owned("new")]);
    assert!(drawer.checked("new", false));
    assert!(!drawer.checked("a", false));
    drawer.rebuild(&vec![owned("a"), owned("new")]);
    assert_eq!(drawer.staged_adds.ids, vec!["new".to_string()]);
}

#[test]
fn saving_skips_what_is_there() {
    let mut index = MembershipIndex::load(None);
    index.insert("has".to_string(), "s".to_string(), id_set(vec!["x"]));
    let mut drawer = AddToPlaylist::new();
    let mut sheets = Sheets::new();
    drawer.shown(&mut sheets, &song("x"), &vec![]);
    assert!(sheets.add_to_playlist);
    drawer.toggled("has", true, false);
    drawer.toggled("lacks", true, false);
    drawer.toggled("gone", false, true);
    let uri = || vec!["spotify:track:x".to_string()];
    assert_eq!(
        drawer.save(&mut sheets, &index, &song("x")),
        vec![
            ApiCall::AddToPlaylist { id: "lacks".to_string(), uris: uri() },
            ApiCall::RemoveFromPlaylist { id: "gone".to_string(), uris: uri() },
        ]
    );
}

#[test]
fn a_sync_reads_what_is_not_fresh() {
    let mut cache = SharedMembershipCache::load(None);
    cache.index_mut().insert("b".to_string(), "sb".to_string(), id_set(vec!["t"]));
    let user = Some("me".to_string());
    assert!(start_sync(&mut cache, &None).is_none());
    let (mut sync, step) = start_sync(&mut cache, &user).unwrap();
    assert_eq!(step, SyncStep::ReadSavedPlaylists { offset: 0, limit: SYNC_PAGE });
    assert!(cache.is_syncing());
    assert!(start_sync(&mut cache, &user).is_none());

    let mut full: Vec<PlaylistDescription> =
        (0..49).map(|i| described(&format!("x{}", i), "someone", None)).collect();
    full.push(described("a", "me", Some("sa")));
    let turn = sync.on_saved_playlists(&mut cache, Ok(full));
    assert_eq!(turn.step, SyncStep::ReadSavedPlaylists { offset: 50, limit: SYNC_PAGE });
    assert!(!turn.redraw && !turn.start_save_timer);
    let turn = sync.on_saved_playlists(
        &mut cache,
        Ok(vec![described("b", "me", Some("sb")), described("c", "me", None)]),
    );
    assert!(turn.redraw && !turn.start_save_timer);
    assert_eq!(sync.offset, 100);
    assert_eq!(turn.step, SyncStep::ReadTrackIds { playlist_id: "a".to_string() });
    assert_eq!(cache.owned_playlists().len(), 3);

    let turn = sync.on_track_ids(&mut cache, Ok(vec!["s".to_string()]));
    assert!(turn.start_save_timer);
    assert_eq!(turn.step, SyncStep::ReadTrackIds { playlist_id: "c".to_string() });
    assert!(cache.index().is_fresh("a", Some("sa")));
    assert!(cache.index().contains("a", "s"));
    let turn = sync.on_track_ids(&mut cache, Err(SpotifyApiError::ConnectionError));
    assert_eq!(turn.step, SyncStep::Finished);
    assert!(turn.redraw && !turn.start_save_timer);
    assert!(!cache.is_syncing());
    assert!(cache.save_pending);
}

#[test]
fn what_was_written_last_is_read() {
    let mut cache = SharedMembershipCache::load(None);
    cache.set_owned_playlists(vec![owned("a")]);
    cache.set_syncing(true);
    cache.set_owned_playlists(vec![owned("b"), owned("c")]);
    cache.set_syncing(false);
    assert_eq!(cache.owned_playlists(), vec![owned("b"), owned("c")]);
    assert!(!cache.is_syncing());
}

#[test]
fn a_failed_list_ends_the_reading() {
    let mut cache = SharedMembershipCache::load(None);
    let (mut sync, _) = start_sync(&mut cache, &Some("me".to_string())).unwrap();
    let turn = sync.on_saved_playlists(&mut cache, Err(SpotifyApiError::ConnectionError));
    assert_eq!(turn.step, SyncStep::Finished);
    assert!(turn.redraw && turn.start_save_timer);
    assert_eq!(sync.offset, 0);
    assert!(!cache.is_syncing());
}

#[test]
fn events_reach_the_drawer() {
    assert_eq!(drawer_task(&AppEvent::AddToPlaylistShown(song("x"))), DrawerTask::Open);
    assert_eq!(
        drawer_task(&AppEvent::LoginEvent(LoginEvent::UserPlaylistsLoaded)),
        DrawerTask::Sync
    );
    assert_eq!(
        drawer_task(&AppEvent::BrowserEvent(BrowserEvent::SavedPlaylistsUpdated)),
        DrawerTask::Sync
    );
    assert_eq!(drawer_task(&AppEvent::Started), DrawerTask::Nothing);
}

#[test]
fn the_index_keeps_only_current_snapshots() {
    let mut index = MembershipIndex::load(None);
    index.insert("p".to_string(), "one".to_string(), id_set(vec!["a", "b"]));
    assert!(index.is_fresh("p", Some("one")));
    assert!(!index.is_fresh("p", Some("two")));
    assert!(!index.is_fresh("p", None));
    assert!(!index.is_fresh("q", Some("one")));
    index.insert("p".to_string(), "two".to_string(), id_set(vec!["b"]));
    assert!(!index.contains("p", "a"));
    assert!(index.contains("p", "b"));
    index.insert("n".to_string(), "".to_string(), id_set(vec!["z"]));
    assert!(index.contains("n", "z"));
    assert!(!index.is_fresh("n", None));
}

fn card(id: &str, kind: CardKind) -> CardModel {
    CardModel::new(id, None, id, "", None, None, None).with_kind(kind)
}

#[test]
fn the_feed_asks_for_every_shelf() {
    let mut model = HomeFeedModel::new(app(AppState::new()), ActionDispatcher::new());
    model.refresh_feed();
    assert_eq!(
        model.dispatcher.take(),
        vec![
            Effect::Call(ApiCall::RecentlyPlayed(20)),
            Effect::Call(ApiCall::GetTopArtists(20)),
            Effect::Call(ApiCall::GetTopTracks(20)),
            Effect::Call(ApiCall::GetSavedAlbums { offset: 0, limit: 20 }),
            Effect::Call(ApiCall::GetSeedArtists(20)),
        ]
    );
    model.open_item(LIKED_SONGS_ID.to_string(), CardKind::Playlist);
    model.open_item("a".to_string(), CardKind::Artist);
    model.open_item("t".to_string(), CardKind::Untyped);
    assert_eq!(
        model.dispatcher.take(),
        vec![
            Effect::Dispatch(AppAction::BrowserAction(BrowserAction::NavigationPush(
                ScreenName::SavedTracks
            ))),
            Effect::Dispatch(AppAction::ViewArtist("a".to_string())),
            Effect::Dispatch(AppAction::ViewAlbum("t".to_string())),
        ]
    );
}

#[test]
fn the_seed_decides_the_mix() {
    let artist = |id: &str| ArtistSummary {
        id: id.to_string(),
        name: format!("Name {}", id),
        photo: None,
        popularity: 0,
    };
    assert_eq!(
        seed_artists_read(Ok(vec![artist("x"), artist("y")])),
        SeedStep::ReadAlbums {
            name: "Name x".to_string(),
            call: ApiCall::GetArtistAlbums { id: "x".to_string(), offset: 0, limit: 10 },
        }
    );
    assert_eq!(
        seed_artists_read(Ok(vec![])),
        SeedStep::Clear(AppAction::BrowserAction(BrowserAction::SetMadeForYou(
            String::new(),
            vec![]
        )))
    );
    assert_eq!(seed_artists_read(Err(SpotifyApiError::NoToken)), SeedStep::Leave);
    assert_eq!(seed_albums_read("n".to_string(), Err(SpotifyApiError::NoToken)), None);
    assert_eq!(top_artists_read(Err(SpotifyApiError::NoToken)), None);
    assert_eq!(made_for_you_title("Björk"), "Because you listen to Björk");
    assert_eq!(made_for_you_title(""), "Made for you");
}

#[test]
fn shelves_hide_while_they_are_empty() {
    let mut home = HomeState::new(50);
    home.jump_back_in = (0..7).map(|i| card(&format!("j{}", i), CardKind::Album)).collect();
    home.made_for_you_artist = "Seed".to_string();
    let mut state = AppState::new();
    state.browser.home = Some(home);
    let mut screen =
        HomeScreen::new(HomeFeedModel::new(app(state), ActionDispatcher::new()));
    assert_eq!(screen.shortcuts.len(), 6);
    assert_eq!(screen.shortcuts[0].id, LIKED_SONGS_ID);
    assert_eq!(screen.shortcuts[5].id, "j4");
    assert!(screen.sections[0].visible);
    assert_eq!(screen.sections[0].title, "Jump back in");
    assert!(!screen.sections[1].visible);
    let titles: Vec<&str> = screen.sections.iter().map(|s| s.title.as_str()).collect();
    assert_eq!(
        titles,
        vec![
            "Jump back in",
            "Recently played",
            "Your top artists",
            "Your top tracks",
            "Because you listen to Seed",
            "From your library",
        ]
    );

    screen.model.app_model.state.browser.home.as_mut().unwrap().top_artists =
        vec![card("a", CardKind::Artist)];
    screen.on_event(&AppEvent::BrowserEvent(BrowserEvent::TopTracksUpdated));
    assert!(!screen.sections[Shelf::TopArtists.index()].visible);
    screen.on_event(&AppEvent::BrowserEvent(BrowserEvent::TopArtistsUpdated));
    assert!(screen.sections[Shelf::TopArtists.index()].visible);
    assert_eq!(
        card_shape(&screen.sections[Shelf::TopArtists.index()].cards[0]),
        riff::card_enums::ImageShape::Round
    );
    screen.model.app_model.state.browser.home = None;
    screen.on_event(&AppEvent::LoginEvent(LoginEvent::LogoutCompleted));
    assert_eq!(screen.shortcuts.len(), 1);
    assert!(screen.sections.iter().all(|s| !s.visible));
}

#[test]
fn the_queue_has_three_parts() {
    assert_eq!(queue_rows(None, &vec![], &vec![]), vec![QueueRow::EmptyQueue]);
    let rows = queue_rows(Some(song("now")), &vec![song("a"), song("b")], &vec![song("c")]);
    assert_eq!(
        rows,
        vec![
            QueueRow::NowPlayingLabel,
            QueueRow::Current(song("now")),
            QueueRow::QueueLabel,
            QueueRow::Queued {
                song: song("a"),
                position: 0,
                can_move_up: false,
                can_move_down: true
            },
            QueueRow::Queued {
                song: song("b"),
                position: 1,
                can_move_up: true,
                can_move_down: false
            },
            QueueRow::NextLabel,
            QueueRow::Next(song("c")),
        ]
    );
    assert_eq!(row_label(&rows[5]), Some("Next up".to_string()));
    assert_eq!(row_label(&rows[6]), None);
}

#[test]
fn the_queue_is_listed_anew() {
    let mut state = AppState::new();
    state.playback.context_queue = (0..150).map(|i| song(&format!("{}", i))).collect();
    let mut queue = Queue::new(QueueModel::new(app(state), ActionDispatcher::new()));
    assert_eq!(queue.rows.len(), 101);
    queue.model.app_model.state.playback.context_queue.clear();
    queue.on_event(&AppEvent::PlaybackEvent(PlaybackEvent::PlaybackPaused));
    assert_eq!(queue.rows.len(), 101);
    queue.on_event(&AppEvent::PlaybackEvent(PlaybackEvent::PlaylistChanged));
    assert_eq!(queue.rows, vec![QueueRow::EmptyQueue]);
    queue.move_up("a", 0);
    queue.move_down("a", 3);
    queue.model.remove("a");
    queue.model.play("b");
    let play = |a: PlaybackAction| Effect::Dispatch(AppAction::PlaybackAction(a));
    assert_eq!(
        queue.model.dispatcher.take(),
        vec![
            play(PlaybackAction::MoveInQueue { id: "a".to_string(), to: 0 }),
            play(PlaybackAction::MoveInQueue { id: "a".to_string(), to: 4 }),
            play(PlaybackAction::Dequeue("a".to_string())),
            play(PlaybackAction::Load("b".to_string())),
        ]
    );
}

#[test]
fn song_menus_have_a_row_for_each_artist() {
    let mut state = AppState::new();
    let mut home = HomeState::new(50);
    home.saved_tracks = SongListModel { songs: vec![song("x")], batch_size: 50, total: 1 };
    state.browser.home = Some(home);
    let mut menu = SongMenu::new(SongMenuModel::new(app(state), ActionDispatcher::new()));
    let mut duo = song("x");
    duo.artists.push(ArtistRef { id: "b".to_string(), name: "Bob".to_string() });
    assert_eq!(
        menu.rows(&duo),
        vec![
            SongMenuRow::AddToPlaylist,
            SongMenuRow::AddToQueue,
            SongMenuRow::ViewAlbum,
            SongMenuRow::ViewArtist(0),
            SongMenuRow::ViewArtist(1),
            SongMenuRow::CopyLink,
            SongMenuRow::Like { is_liked: true },
        ]
    );
    assert_eq!(SongMenuRow::ViewArtist(1).label(&duo), "View Bob");
    assert_eq!(SongMenuRow::ViewArtist(0).label(&song("x")), "View artist");
    assert_eq!(SongMenuRow::Like { is_liked: true }.label(&duo), "Remove from Liked Songs");

    let mut sheets = Sheets { queue: true, now_playing: true, ..Sheets::new() };
    let shown = AppEvent::SongMenuShown(duo.clone());
    assert_eq!(menu.on_event(&mut sheets, &shown), Some(duo.clone()));
    assert!(sheets.song_menu);
    let saved = AppEvent::BrowserEvent(BrowserEvent::SavedTracksUpdated);
    assert_eq!(menu.on_event(&mut sheets, &saved), Some(duo.clone()));
    menu.activate(&mut sheets, SongMenuRow::AddToQueue, &duo);
    assert!(!sheets.song_menu);
    assert!(sheets.queue);
    assert_eq!(menu.on_event(&mut sheets, &saved), None);
    menu.activate(&mut sheets, SongMenuRow::ViewArtist(1), &duo);
    assert!(!sheets.queue);
    assert!(!sheets.now_playing);
    assert_eq!(
        menu.activate(&mut sheets, SongMenuRow::CopyLink, &duo),
        Some("https://open.spotify.com/track/x".to_string())
    );
    menu.activate(&mut sheets, SongMenuRow::Like { is_liked: true }, &duo);
    menu.activate(&mut sheets, SongMenuRow::Like { is_liked: false }, &duo);
    menu.activate(&mut sheets, SongMenuRow::AddToPlaylist, &duo);
    assert!(sheets.add_to_playlist);
    assert_eq!(
        menu.model.dispatcher.take(),
        vec![
            Effect::Dispatch(AppAction::PlaybackAction(PlaybackAction::Queue(vec![duo.clone()]))),
            Effect::Dispatch(AppAction::ViewArtist("b".to_string())),
            Effect::Call(ApiCall::RemoveSavedTracks(vec!["x".to_string()])),
            Effect::Call(ApiCall::SaveTracks(vec![duo.clone()])),
            Effect::Dispatch(AppAction::ShowAddToPlaylist(duo.clone())),
        ]
    );
}

#[test]
fn choices_round_trip() {
    for setting in [
        ChoiceSetting::PlayerBitrate,
        ChoiceSetting::AudioBackend,
        ChoiceSetting::VolumeCurve,
        ChoiceSetting::AudioFormat,
        ChoiceSetting::NormalisationType,
        ChoiceSetting::NormalisationMethod,
        ChoiceSetting::Theme,
        ChoiceSetting::CloseBehavior,
    ] {
        for (i, value) in setting.values().iter().enumerate() {
            assert_eq!(setting.selected_of(value), i as u32);
            assert_eq!(setting.value_of(i as u32), *value);
        }
    }
    assert_eq!(ChoiceSetting::PlayerBitrate.selected_of("320"), 2);
    assert_eq!(ChoiceSetting::AudioFormat.value_of(2), "s24_3");
    assert_eq!(ChoiceSetting::VolumeCurve.selected_of("nonsense"), 0);
    assert_eq!(ChoiceSetting::NormalisationMethod.value_of(9), "dynamic");
    assert_eq!(ChoiceSetting::Theme.key(), "theme-preference");
}

#[test]
fn settings_are_committed_on_the_way_back() {
    let mut page = SettingsPage::new(ActionDispatcher::new());
    let popped = AppEvent::BrowserEvent(BrowserEvent::NavigationPopped);
    assert_eq!(
        page.on_event(&popped, true),
        vec![SettingsCommand::StopPlayer, SettingsCommand::SetSettings]
    );
    assert_eq!(page.on_event(&popped, false), vec![SettingsCommand::SetSettings]);
    assert!(page.on_event(&AppEvent::Started, true).is_empty());
    page.go_back();
    assert_eq!(
        page.dispatcher.take(),
        vec![Effect::Dispatch(AppAction::BrowserAction(BrowserAction::NavigationPop))]
    );
    assert!(alsa_device_visible(1) && !alsa_device_visible(2));
    assert!(alsa_device_hidden_at_start(0));
    assert_eq!(color_scheme_of(0), ColorScheme::ForceLight);
    assert_eq!(color_scheme_of(2), ColorScheme::System);
    assert!(!is_flag_listed(true, false));
    assert!(is_flag_listed(false, false));
}

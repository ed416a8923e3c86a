use riff::actions::{
    ActionDispatcher, ApiCall, AppAction, AppEvent, BrowserAction, BrowserEvent, Effect,
    LoginEvent, PaginationTarget, PlaybackAction, ScreenName, SongsSource,
};
use riff::api::cached_client::SpotifyApiError;
use riff::card_enums::{CardLayout, SortOrder};
use riff::card_model::{CardKind, CardModel, LibraryItem};
use riff::models::{
    AlbumRef, Batch, PlaylistDescription, SongBatch, SongDescription, UserRef,
};
use riff::pages::library::{
    direction_icon, sort_orders, toggle_icon, LibraryFilter, LibraryModel, LibraryScreen,
    LIKED_SONGS_ID,
};
use riff::pages::library_list::{base_compare, compare_cards, CardRanking, LibraryList};
use riff::pages::library_menu::{
    compose_subtitle as menu_subtitle, item_removed, menu_rows, playlist_to_play, share_link,
    LibraryMenu, LibraryMenuModel, LibraryMenuRow,
};
use riff::pages::library_rows::{compose_subtitle, cover_of, subtitle_in, Cover, LibraryRow};
use riff::pages::pinned_store::{PinnedFile, PinnedStore, PINNED_STORE_VERSION};
use riff::shell::sheets::Sheets;
use riff::sorting::Ranking;
use riff::state::{AppModel, AppState, HomeState};
use riff::text::Order;

fn card(id: &str, title: &str, kind: CardKind, count: u32) -> CardModel {
    CardModel::new(id, None, title, "", None, None, None)
        .with_kind(kind)
        .with_track_count(count)
}

fn placed(id: &str, title: &str, count: u32, position: u32) -> CardModel {
    CardModel { insertion_position: position, ..card(id, title, CardKind::Playlist, count) }
}

fn app(home: Option<HomeState>) -> AppModel {
    let mut state = AppState::new();
    state.browser.home = home;
    AppModel::new(state)
}

fn home() -> HomeState {
    let mut home = HomeState::new(50);
    home.playlists = vec![card("p", "P", CardKind::Playlist, 2)];
    home.albums = vec![card("al", "Al", CardKind::Album, 9)];
    home.artists = vec![card("ar", "Ar", CardKind::Artist, 0)];
    home
}

fn model(home: Option<HomeState>) -> LibraryModel {
    LibraryModel::new(app(home), ActionDispatcher::new())
}

fn pins(ids: Vec<&str>) -> PinnedStore {
    PinnedStore::load(Some(PinnedFile {
        version: PINNED_STORE_VERSION,
        ids: ids.into_iter().map(|i| i.to_string()).collect(),
    }))
}

fn ids(cards: &Vec<CardModel>) -> Vec<String> {
    cards.iter().map(|c| c.id.clone()).collect()
}

#[test]
fn pins_are_toggled_and_ranked() {
    let mut store = PinnedStore::load(None);
    assert!(!store.is_pinned("a"));
    assert!(store.pin("a"));
    assert!(!store.pin("a"));
    assert!(store.toggle("b"));
    assert_eq!(store.rank("a"), 0);
    assert_eq!(store.rank("b"), 1);
    assert_eq!(store.rank("c"), usize::MAX);
    assert!(!store.toggle("a"));
    assert_eq!(store.rank("b"), 0);
    assert!(!store.unpin("a"));
}

#[test]
fn unpinning_undoes_pinning() {
    let mut store = pins(vec!["x", "y"]);
    let before = store.order.clone();
    store.pin("z");
    store.unpin("z");
    assert_eq!(store.order, before);
}

#[test]
fn pins_are_saved_and_read_back() {
    let mut store = PinnedStore::load(None);
    assert_eq!(store.save(), None);
    store.pin("a");
    store.pin("b");
    let file = store.save().unwrap();
    assert_eq!(store.save(), None);
    let again = PinnedStore::load(Some(file));
    assert_eq!(again.order, store.order);
    let old = PinnedFile { version: 0, ids: vec!["a".to_string()] };
    assert!(PinnedStore::load(Some(old)).order.is_empty());
}

#[test]
fn pinned_cards_float_above_every_order() {
    let store = pins(vec!["second", "first"]);
    let pinned = |id: &str| CardModel { pinned: true, ..placed(id, "Z", 1, 9) };
    let plain = placed("plain", "A", 100, 1);
    for sort in [SortOrder::RecentlyAdded, SortOrder::Alphabetic, SortOrder::Size] {
        for descending in [false, true] {
            let order = compare_cards(&store, sort, descending, &pinned("first"), &plain);
            assert_eq!(order, Order::Less);
            let order = compare_cards(&store, sort, descending, &plain, &pinned("first"));
            assert_eq!(order, Order::Greater);
        }
    }
    let order =
        compare_cards(&store, SortOrder::Size, false, &pinned("first"), &pinned("second"));
    assert_eq!(order, Order::Greater);
}

#[test]
fn unknown_counts_stay_last() {
    let none = placed("n", "N", 0, 1);
    let few = placed("f", "F", 3, 2);
    let many = placed("m", "M", 30, 3);
    for descending in [false, true] {
        assert_eq!(base_compare(SortOrder::Size, descending, &few, &none), Order::Less);
        assert_eq!(base_compare(SortOrder::Size, descending, &none, &few), Order::Greater);
    }
    assert_eq!(base_compare(SortOrder::Size, false, &many, &few), Order::Less);
    assert_eq!(base_compare(SortOrder::Size, true, &many, &few), Order::Greater);
}

#[test]
fn ties_are_broken_the_same_way_in_both_directions() {
    let a = placed("a", "Same", 5, 1);
    let b = placed("b", "SAME", 5, 2);
    for descending in [false, true] {
        assert_eq!(base_compare(SortOrder::Alphabetic, descending, &a, &b), Order::Less);
        assert_eq!(base_compare(SortOrder::Size, descending, &b, &a), Order::Greater);
    }
    let c = placed("c", "Same", 5, 1);
    assert_eq!(base_compare(SortOrder::Alphabetic, true, &a, &c), Order::Less);
    assert_eq!(base_compare(SortOrder::RecentlyAdded, true, &a, &b), Order::Greater);
}

#[test]
fn letter_case_does_not_matter_for_titles() {
    let a = placed("1", "éclair", 0, 2);
    let b = placed("2", "ÉCLAIRS", 0, 1);
    assert_eq!(base_compare(SortOrder::Alphabetic, false, &a, &b), Order::Less);
}

#[test]
fn syncing_marks_and_numbers_the_cards() {
    let store = pins(vec!["b"]);
    let list = LibraryList::new(SortOrder::RecentlyAdded, false);
    let mut cards = vec![
        CardModel { pinned: true, ..placed("a", "A", 0, 7) },
        placed("b", "B", 0, 7),
    ];
    list.sync_pins(&store, &mut cards);
    assert!(!cards[0].pinned);
    assert!(cards[1].pinned);
    assert_eq!(cards[0].insertion_position, 1);
    assert_eq!(cards[1].insertion_position, 2);
    assert_eq!(cards[1].title, "B");
    assert_eq!(list.visible_view(), "list");
    let ranking = CardRanking { pins: &store, sort: list.sort, descending: list.descending };
    assert_eq!(ranking.compare(&cards[1], &cards[0]), Order::Less);
    assert_eq!(ids(&list.listed(&store, &cards)), vec!["b", "a"]);
}

#[test]
fn combined_cards_are_only_added_to() {
    let mut m = model(Some(home()));
    m.reconcile_combined();
    assert_eq!(ids(&m.combined), vec![LIKED_SONGS_ID, "p", "al", "ar"]);
    m.reconcile_combined();
    assert_eq!(ids(&m.combined), vec![LIKED_SONGS_ID, "p", "al", "ar"]);
    m.app_model
        .state
        .browser
        .home
        .as_mut()
        .unwrap()
        .playlists
        .insert(0, card("q", "Q", CardKind::Playlist, 1));
    m.reconcile_combined();
    assert_eq!(ids(&m.combined), vec![LIKED_SONGS_ID, "p", "al", "ar", "q"]);
    m.clear_combined();
    assert!(m.combined.is_empty());
    let mut nothing = model(None);
    nothing.reconcile_combined();
    assert!(nothing.combined.is_empty());
}

#[test]
fn items_open_by_their_kind() {
    let mut m = model(Some(home()));
    for id in ["al", "ar", "p", "unknown", LIKED_SONGS_ID] {
        m.open_item(id.to_string());
    }
    let id = |s: &str| s.to_string();
    assert_eq!(
        m.dispatcher.take(),
        vec![
            Effect::Dispatch(AppAction::ViewAlbum(id("al"))),
            Effect::Dispatch(AppAction::ViewArtist(id("ar"))),
            Effect::Dispatch(AppAction::ViewPlaylist(id("p"))),
            Effect::Dispatch(AppAction::ViewPlaylist(id("unknown"))),
            Effect::Dispatch(AppAction::BrowserAction(BrowserAction::NavigationPush(
                ScreenName::SavedTracks
            ))),
        ]
    );
}

#[test]
fn all_loads_playlists_then_albums_then_artists() {
    let mut m = model(Some(home()));
    m.load_more();
    assert_eq!(
        m.dispatcher.take(),
        vec![
            Effect::UpdateState(BrowserAction::ConsumeNextPage(PaginationTarget::SavedPlaylists)),
            Effect::Call(ApiCall::GetSavedPlaylists { offset: 0, limit: 50 }),
        ]
    );
    let state = m.app_model.state.browser.home.as_mut().unwrap();
    state.next_playlists_page.next_offset = None;
    state.next_albums_page.next_offset = Some(50);
    m.load_more();
    assert_eq!(
        m.dispatcher.take()[1],
        Effect::Call(ApiCall::GetSavedAlbums { offset: 50, limit: 50 })
    );
    let state = m.app_model.state.browser.home.as_mut().unwrap();
    state.next_albums_page.next_offset = None;
    assert!(!m.has_more());
    m.load_more();
    assert!(m.dispatcher.take().is_empty());
    m.app_model.state.browser.home.as_mut().unwrap().artists_cursor = Some("c".to_string());
    assert!(m.has_more());
    m.load_more();
    assert_eq!(
        m.dispatcher.take()[1],
        Effect::Call(ApiCall::GetFollowedArtists { after: Some("c".to_string()), limit: 30 })
    );
}

#[test]
fn refreshing_reads_everything_from_the_start() {
    let mut m = model(Some(home()));
    m.refresh_all();
    assert_eq!(
        m.dispatcher.take(),
        vec![
            Effect::Call(ApiCall::GetSavedAlbums { offset: 0, limit: 50 }),
            Effect::Call(ApiCall::GetSavedPlaylists { offset: 0, limit: 50 }),
            Effect::Call(ApiCall::GetFollowedArtists { after: None, limit: 30 }),
        ]
    );
    assert_eq!(m.empty_title(), "Your library is empty.");
    m.set_filter(LibraryFilter::Artists);
    assert_eq!(m.empty_description(), "Your followed artists will be shown here.");
    assert!(m.has_items());
}

fn screen() -> (LibraryScreen, PinnedStore) {
    let store = pins(vec!["al"]);
    let screen = LibraryScreen::new(
        model(Some(home())),
        CardLayout::Horizontal,
        SortOrder::RecentlyAdded,
        false,
        &store,
    );
    (screen, store)
}

#[test]
fn the_screen_starts_with_everything() {
    let (s, store) = screen();
    assert_eq!(ids(&s.listed(&store)), vec!["al", LIKED_SONGS_ID, "p", "ar"]);
    assert_eq!(s.model.combined.len(), 4);
    assert!(s.model.combined[2].pinned);
    assert_eq!(s.model.combined[3].insertion_position, 4);
    assert!(!s.status_visible);
    assert_eq!(sort_orders().len(), 3);
    assert_eq!(toggle_icon(CardLayout::Horizontal), "view-grid-symbolic");
    assert_eq!(direction_icon(true), "view-sort-descending-symbolic");
}

#[test]
fn filters_narrow_and_clear() {
    let (mut s, store) = screen();
    s.choose_filter(LibraryFilter::Albums, &store);
    assert!(s.clear_visible);
    assert!(s.model.combined.is_empty());
    assert!(s.model.get_store().unwrap()[0].pinned);
    s.clear_filter(&store);
    assert!(!s.clear_visible);
    assert_eq!(s.model.filter(), LibraryFilter::All);
    assert_eq!(s.model.combined.len(), 4);
}

#[test]
fn choosing_the_active_order_turns_it() {
    let (mut s, _) = screen();
    s.choose_sort(SortOrder::RecentlyAdded);
    assert!(s.list.descending);
    s.choose_sort(SortOrder::RecentlyAdded);
    assert!(!s.list.descending);
    s.choose_sort(SortOrder::RecentlyAdded);
    s.choose_sort(SortOrder::Size);
    assert!(!s.list.descending);
    assert_eq!(s.list.sort, SortOrder::Size);
    assert_eq!(
        s.model.dispatcher.take().pop().unwrap(),
        Effect::Dispatch(AppAction::BrowserAction(BrowserAction::ChangeSortOrder(
            "library".to_string(),
            SortOrder::Size
        )))
    );
}

#[test]
fn the_layout_is_toggled() {
    let (mut s, store) = screen();
    let mut shared = CardLayout::Horizontal;
    s.toggle_layout(&mut shared);
    assert_eq!(shared, CardLayout::Vertical);
    assert_eq!(s.list.visible_view(), "grid");
    s.toggle_layout(&mut shared);
    assert_eq!(shared, CardLayout::Horizontal);
    shared = CardLayout::Vertical;
    let changed = AppEvent::BrowserEvent(BrowserEvent::CardLayoutChanged(shared));
    s.on_event(&changed, &store, shared);
    assert_eq!(s.list.visible_view(), "grid");
}

#[test]
fn held_cards_open_their_menu() {
    let (mut s, store) = screen();
    s.held(LIKED_SONGS_ID, &store);
    s.held("missing", &store);
    assert!(s.model.dispatcher.take().is_empty());
    s.held("al", &store);
    match s.model.dispatcher.take().pop().unwrap() {
        Effect::Dispatch(AppAction::ShowLibraryItemMenu(item)) => {
            assert_eq!(item.id, "al");
            assert!(item.pinned);
            assert_eq!(item.kind, CardKind::Album);
        }
        other => panic!("unexpected effect {:?}", other),
    }
}

#[test]
fn the_screen_follows_events() {
    let (mut s, store) = screen();
    let layout = CardLayout::Horizontal;
    s.on_event(&AppEvent::Started, &store, layout);
    assert_eq!(s.model.dispatcher.take().len(), 3);
    s.on_event(&AppEvent::LoginEvent(LoginEvent::LogoutCompleted), &store, layout);
    assert!(s.model.combined.is_empty());
    assert!(!s.status_visible);
    s.on_event(&AppEvent::BrowserEvent(BrowserEvent::LibraryUpdated), &store, layout);
    assert_eq!(s.model.combined.len(), 4);
    s.edge_reached();
    assert_eq!(s.model.dispatcher.take().len(), 2);
}

#[test]
fn pins_toggled_in_the_menu_show_in_the_list() {
    let (mut s, mut store) = screen();
    let mut sheets = Sheets::new();
    let mut m = menu();
    s.held("p", &store);
    let held = match s.model.dispatcher.take().pop().unwrap() {
        Effect::Dispatch(AppAction::ShowLibraryItemMenu(item)) => item,
        other => panic!("unexpected effect {:?}", other),
    };
    assert!(!held.pinned);
    m.activate(&mut sheets, &mut store, LibraryMenuRow::Pin, &held);
    assert!(store.unsaved);
    assert_eq!(
        m.model.dispatcher.take(),
        vec![Effect::Dispatch(AppAction::LibraryPinsChanged)]
    );
    s.on_event(&AppEvent::LibraryPinsChanged, &store, CardLayout::Horizontal);
    assert!(s.model.combined[1].pinned && s.model.combined[2].pinned);
    assert_eq!(ids(&s.listed(&store)), vec!["al", "p", LIKED_SONGS_ID, "ar"]);
    m.activate(&mut sheets, &mut store, LibraryMenuRow::Pin, &held);
    s.on_event(&AppEvent::LibraryPinsChanged, &store, CardLayout::Horizontal);
    assert!(!s.model.combined[1].pinned);

    s.choose_filter(LibraryFilter::Playlists, &store);
    store.pin("p");
    s.state_changed(app(Some(home())), &store);
    assert!(s.model.get_store().unwrap()[0].pinned);
}

#[test]
fn taking_items_in_adds_no_id_twice() {
    let (mut s, store) = screen();
    let updated = AppEvent::BrowserEvent(BrowserEvent::LibraryUpdated);
    s.on_event(&updated, &store, CardLayout::Horizontal);
    s.on_event(&updated, &store, CardLayout::Horizontal);
    let mut all = ids(&s.model.combined);
    all.sort();
    all.dedup();
    assert_eq!(all.len(), s.model.combined.len());
}

fn item(kind: CardKind) -> LibraryItem {
    LibraryItem {
        id: "i".to_string(),
        title: "T".to_string(),
        subtitle: "S".to_string(),
        art: None,
        kind,
        pinned: true,
    }
}

fn menu() -> LibraryMenu {
    LibraryMenu::new(LibraryMenuModel::new(app(None), ActionDispatcher::new()))
}

#[test]
fn removing_an_item_unpins_it() {
    let mut m = menu();
    let mut sheets = Sheets::new();
    let mut store = pins(vec!["i", "j"]);
    m.activate(&mut sheets, &mut store, LibraryMenuRow::Remove, &item(CardKind::Playlist));
    assert!(!store.is_pinned("i") && store.is_pinned("j"));
    assert_eq!(store.rank("i"), usize::MAX);
    assert!(store.unsaved);
    assert_eq!(
        m.model.dispatcher.take(),
        vec![
            Effect::Call(ApiCall::UnfollowPlaylist("i".to_string())),
            Effect::Dispatch(AppAction::LibraryPinsChanged),
        ]
    );
    m.activate(&mut sheets, &mut store, LibraryMenuRow::Remove, &item(CardKind::Artist));
    assert_eq!(
        m.model.dispatcher.take(),
        vec![Effect::Call(ApiCall::UnfollowArtist("i".to_string()))]
    );
    assert_eq!(
        item_removed(CardKind::Album, "i".to_string(), Ok(())),
        Ok(Some(AppAction::BrowserAction(BrowserAction::UnsaveAlbum("i".to_string()))))
    );
    assert_eq!(
        item_removed(CardKind::Album, "i".to_string(), Err(SpotifyApiError::NoToken)),
        Err(SpotifyApiError::NoToken)
    );
}

#[test]
fn menu_rows_depend_on_the_kind() {
    assert_eq!(menu_rows(&item(CardKind::Album)).len(), 5);
    assert_eq!(menu_rows(&item(CardKind::Artist)).len(), 4);
    assert!(!menu_rows(&item(CardKind::Artist)).contains(&LibraryMenuRow::Play));
    assert_eq!(LibraryMenuRow::Pin.label(&item(CardKind::Album)), "Unpin");
    assert_eq!(LibraryMenuRow::Remove.label(&item(CardKind::Artist)), "Unfollow");
    assert_eq!(LibraryMenuRow::Share.icon(), "edit-copy-symbolic");
    assert_eq!(menu_subtitle(&item(CardKind::Album)), "Album • S");
}

#[test]
fn links_are_shared() {
    assert_eq!(
        share_link(&item(CardKind::Playlist)),
        Some("https://open.spotify.com/playlist/i".to_string())
    );
    assert_eq!(share_link(&item(CardKind::Untyped)), None);
    let mut m = menu();
    let link = m.activate(
        &mut Sheets::new(),
        &mut pins(vec![]),
        LibraryMenuRow::Share,
        &item(CardKind::Album),
    );
    assert_eq!(link, Some("https://open.spotify.com/album/i".to_string()));
    assert_eq!(
        m.model.dispatcher.take(),
        vec![Effect::Dispatch(AppAction::ShowNotification("Link copied".to_string()))]
    );
}

#[test]
fn the_menu_opens_for_its_item() {
    let mut m = menu();
    let mut sheets = Sheets::new();
    let mut store = pins(vec![]);
    assert!(!m.on_event(&mut sheets, &AppEvent::Started));
    assert!(m.on_event(&mut sheets, &AppEvent::LibraryItemMenuShown(item(CardKind::Album))));
    assert!(sheets.library_menu);
    m.activate(&mut sheets, &mut store, LibraryMenuRow::GoTo, &item(CardKind::Album));
    assert!(!sheets.library_menu);
    assert_eq!(
        m.model.dispatcher.take(),
        vec![Effect::Dispatch(AppAction::ViewAlbum("i".to_string()))]
    );
    m.activate(&mut sheets, &mut store, LibraryMenuRow::Play, &item(CardKind::Playlist));
    assert_eq!(
        m.model.dispatcher.take(),
        vec![Effect::Call(ApiCall::GetPlaylist("i".to_string()))]
    );
}

#[test]
fn playlists_play_from_their_first_song() {
    let song = SongDescription {
        id: "s".to_string(),
        uri: "u".to_string(),
        title: "t".to_string(),
        artists: vec![],
        album: AlbumRef { id: "a".to_string(), name: "n".to_string() },
        duration_ms: 1,
        art: None,
        track_number: None,
    };
    let playlist = |songs: Vec<SongDescription>| PlaylistDescription {
        id: "p".to_string(),
        title: "P".to_string(),
        art: None,
        songs: SongBatch { songs, batch: Batch { offset: 0, batch_size: 1, total: 1 } },
        owner: UserRef { id: "u".to_string(), display_name: "U".to_string() },
        snapshot_id: None,
    };
    let actions = playlist_to_play(Ok(playlist(vec![song])));
    assert_eq!(actions.len(), 2);
    assert!(matches!(
        &actions[0],
        AppAction::PlaybackAction(PlaybackAction::LoadPagedSongs(
            SongsSource::Playlist { id, title },
            _
        )) if id == "p" && title == "P"
    ));
    assert_eq!(
        actions[1],
        AppAction::PlaybackAction(PlaybackAction::Load("s".to_string()))
    );
    assert!(playlist_to_play(Ok(playlist(vec![]))).is_empty());
    assert!(playlist_to_play(Err(SpotifyApiError::NoToken)).is_empty());
}

#[test]
fn rows_tell_kind_subtitle_and_count() {
    let mut c = card("i", "T", CardKind::Playlist, 42);
    c.subtitle = "Daniel".to_string();
    assert_eq!(compose_subtitle(&c), "Playlist • Daniel • 42 songs");
    c.track_count = 1;
    assert_eq!(compose_subtitle(&c), "Playlist • Daniel • 1 song");
    c.track_count = 0;
    assert_eq!(compose_subtitle(&c), "Playlist • Daniel");
    c.subtitle = String::new();
    assert_eq!(compose_subtitle(&c), "Playlist");
    let artist = card("a", "A", CardKind::Artist, 7);
    assert_eq!(compose_subtitle(&artist), "Artist");
    let song = CardModel { subtitle: "By".to_string(), ..card("s", "S", CardKind::Untyped, 3) };
    assert_eq!(compose_subtitle(&song), "By");
    assert_eq!(
        subtitle_in(Some("Lista".to_string()), "{} canciones", &CardModel {
            track_count: 3,
            ..card("i", "T", CardKind::Playlist, 0)
        }),
        "Lista • 3 canciones"
    );
}

#[test]
fn late_pictures_are_dropped() {
    let mut row = LibraryRow::new();
    let mut first = card("one", "One", CardKind::Album, 0);
    first.image = Some("url1".to_string());
    assert_eq!(row.bind_with(&first, "x".to_string()), Some("url1".to_string()));
    let second = card("two", "Two", CardKind::Artist, 0);
    assert_eq!(row.bind_with(&second, String::new()), None);
    assert!(!row.subtitle_visible);
    assert!(!row.cover_loaded("one", "url1".to_string()));
    assert_eq!(row.cover, Some(Cover::Icon("library-music-symbolic")));
    assert_eq!(row.shown_id(), Some("two".to_string()));
    row.unbind();
    assert_eq!(row.shown_id(), None);
    assert_eq!(
        cover_of(&card(LIKED_SONGS_ID, "L", CardKind::Playlist, 0)),
        Cover::Icon("emblem-favorite-symbolic")
    );
}

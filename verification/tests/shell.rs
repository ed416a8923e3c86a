use riff::actions::{
    ActionDispatcher, ApiCall, AppAction, AppEvent, BrowserAction, BrowserEvent, Effect,
    LoginAction, LoginEvent, PlaybackAction, PlaybackEvent, ScreenName, SelectionEvent,
};
use riff::api::cached_client::SpotifyApiError;
use riff::card_enums::{CardLayout, CardSize, ImageShape, SortOrder};
use riff::card_model::{CardKind, CardModel};
use riff::models::{
    AlbumRef, CurrentUser, PlaylistDescription, SongBatch, SongDescription, SongState, UserRef,
};
use riff::pages::library::LibraryFilter;
use riff::pages::library_rows::Cover;
use riff::pages::pinned_store::PinnedStore;
use riff::shell::factory::ScreenFactory;
use riff::shell::navigation::{Navigation, NavigationTask, Tab};
use riff::shell::user_menu::{UserMenu, UserMenuModel};
use riff::song_list::SongListModel;
use riff::state::{AppModel, AppState, HomeState};
use riff::text::Order;
use riff::widgets::card::{
    compose_subtitle_label, cover_area, label_area, label_width, measure_height, measure_width,
    Area, CardWidget, LabelAlign, LoadTime,
};
use riff::widgets::card_list::{child_shape, compare_cards, opened_by, sort_children, CardList};
use riff::widgets::playlist::{
    like_icon, row_chosen, song_state, toggle_select, Playlist, PlaylistOptions, RowTask,
    SelectTask,
};

fn browser(event: BrowserEvent) -> AppEvent {
    AppEvent::BrowserEvent(event)
}

#[test]
fn programmatic_pops_are_not_reported() {
    let mut nav = Navigation::new(ActionDispatcher::new());
    assert_eq!(nav.on_event(&AppEvent::Started), NavigationTask::ShowTabs);
    assert_eq!(nav.on_event(&AppEvent::Started), NavigationTask::Nothing);
    for id in ["a", "b", "c"] {
        let name = ScreenName::AlbumDetails(id.to_string());
        assert_eq!(
            nav.on_event(&browser(BrowserEvent::NavigationPushed(name.clone()))),
            NavigationTask::PushPage(name)
        );
    }
    assert_eq!(
        nav.on_event(&browser(BrowserEvent::NavigationPushed(ScreenName::Search))),
        NavigationTask::Nothing
    );
    assert_eq!(nav.children.len(), 3);
    assert_eq!(
        nav.on_event(&browser(BrowserEvent::NavigationPoppedTo(ScreenName::Home))),
        NavigationTask::PopAll
    );
    for _ in 0..3 {
        nav.on_popped();
    }
    assert!(nav.dispatcher.take().is_empty());
    nav.on_popped();
    assert_eq!(
        nav.dispatcher.take(),
        vec![Effect::Dispatch(AppAction::BrowserAction(BrowserAction::NavigationPop))]
    );
    nav.on_event(&browser(BrowserEvent::NavigationPushed(ScreenName::Settings)));
    assert_eq!(
        nav.on_event(&browser(BrowserEvent::NavigationPopped)),
        NavigationTask::PopPage
    );
    assert!(nav.children.is_empty());
    nav.on_popped();
    assert!(nav.dispatcher.take().is_empty());
}

#[test]
fn tabs_bring_the_pages_down() {
    let mut nav = Navigation::new(ActionDispatcher::new());
    nav.on_tab_selected(Tab::Library);
    assert_eq!(nav.visible_tab, Tab::Library);
    assert_eq!(
        nav.dispatcher.take(),
        vec![Effect::Dispatch(AppAction::BrowserAction(BrowserAction::NavigationPopTo(
            ScreenName::Home
        )))]
    );
    assert_eq!(
        nav.on_event(&AppEvent::SearchTabShown),
        NavigationTask::SelectTab(Tab::Search)
    );
    nav.on_event(&AppEvent::Started);
    assert!(nav.tabs_shown);
    assert_eq!(nav.visible_tab, Tab::Home);
    nav.visible_tab = Tab::Search;
    nav.on_event(&browser(BrowserEvent::NavigationPopped));
    nav.on_event(&browser(BrowserEvent::NavigationPoppedTo(ScreenName::Home)));
    assert!(nav.tabs_shown);
    assert_eq!(nav.visible_tab, Tab::Search);
    assert_eq!(Tab::Library.title(), "Library");
    assert_eq!(Tab::Home.icon(), "go-home-symbolic");
}

fn user_menu() -> UserMenu {
    let mut state = AppState::new();
    state.logged_user.user = Some("login".to_string());
    UserMenu::new(UserMenuModel::new(AppModel::new(state), ActionDispatcher::new()))
}

#[test]
fn the_menu_hides_under_pages() {
    let mut menu = user_menu();
    menu.on_event(&browser(BrowserEvent::NavigationPushed(ScreenName::Settings)));
    menu.on_event(&browser(BrowserEvent::NavigationPushed(ScreenName::Settings)));
    assert!(!menu.visible);
    menu.on_event(&browser(BrowserEvent::NavigationPopped));
    assert!(!menu.visible);
    menu.on_event(&browser(BrowserEvent::NavigationPopped));
    assert!(menu.visible);
    menu.on_event(&browser(BrowserEvent::NavigationPopped));
    assert_eq!(menu.nav_depth, 0);
    menu.on_event(&browser(BrowserEvent::NavigationPushed(ScreenName::Settings)));
    menu.on_event(&browser(BrowserEvent::NavigationPoppedTo(ScreenName::Home)));
    assert!(menu.visible);
}

#[test]
fn the_user_is_shown() {
    let mut menu = user_menu();
    menu.on_event(&AppEvent::Started);
    assert_eq!(menu.logout_section, Some("login".to_string()));
    assert_eq!(
        menu.model.dispatcher.take(),
        vec![
            Effect::Call(ApiCall::GetSavedPlaylists { offset: 0, limit: 30 }),
            Effect::Call(ApiCall::GetCurrentUser),
        ]
    );
    menu.model.app_model.state.logged_user.user_display_name = Some("Name".to_string());
    menu.model.app_model.state.logged_user.user_image_url = Some("".to_string());
    assert_eq!(menu.on_event(&AppEvent::LoginEvent(LoginEvent::UserDetailsLoaded)), None);
    assert_eq!(menu.avatar_text, "Name");
    assert_eq!(menu.avatar, None);
    menu.model.logout();
    assert_eq!(
        menu.model.dispatcher.take(),
        vec![
            Effect::Dispatch(AppAction::PlaybackAction(PlaybackAction::Stop)),
            Effect::Call(ApiCall::ClearUserCache),
        ]
    );
    assert_eq!(UserMenuModel::cache_cleared(), AppAction::LoginAction(LoginAction::Logout));
    menu.model.app_model.state.logged_user.user = None;
    menu.model.fetch_user_details();
    menu.model.fetch_user_playlists();
    assert!(menu.model.dispatcher.take().is_empty());
}

#[test]
fn the_picture_is_shown_once_it_is_loaded() {
    let loaded = AppEvent::LoginEvent(LoginEvent::UserDetailsLoaded);
    let mut menu = user_menu();
    assert_eq!(menu.model.user_image_url(), None);
    menu.model.app_model.state.logged_user.user_image_url = Some("one".to_string());
    assert_eq!(menu.model.user_image_url(), Some("one".to_string()));
    assert_eq!(menu.on_event(&loaded), Some("one".to_string()));
    assert_eq!(menu.avatar, None);
    menu.avatar_tried("one".to_string(), true);
    assert_eq!(menu.avatar, Some("one".to_string()));
    menu.model.app_model.state.logged_user.user_image_url = Some("two".to_string());
    assert_eq!(menu.on_event(&loaded), Some("two".to_string()));
    menu.avatar_tried("two".to_string(), false);
    assert_eq!(menu.avatar, Some("one".to_string()));
    menu.model.app_model.state.logged_user.user_image_url = Some("".to_string());
    assert_eq!(menu.model.user_image_url(), None);
    assert_eq!(menu.on_event(&loaded), None);
    assert_eq!(menu.avatar, None);
}

#[test]
fn answers_about_the_user_are_kept() {
    let user = CurrentUser {
        id: "u".to_string(),
        display_name: "U".to_string(),
        image_url: Some("pic".to_string()),
    };
    assert_eq!(
        UserMenuModel::user_details_fetched(Ok(user)),
        Ok(AppAction::LoginAction(LoginAction::SetUserDetails {
            display_name: "U".to_string(),
            image_url: Some("pic".to_string()),
        }))
    );
    let playlist = PlaylistDescription {
        id: "p".to_string(),
        title: "P".to_string(),
        art: None,
        songs: SongBatch::empty(),
        owner: UserRef { id: "u".to_string(), display_name: "U".to_string() },
        snapshot_id: None,
    };
    match UserMenuModel::user_playlists_fetched(Ok(vec![playlist])) {
        Ok(AppAction::LoginAction(LoginAction::SetUserPlaylists(list))) => {
            assert_eq!(list.len(), 1);
            assert_eq!(list[0].title, "P");
        }
        other => panic!("unexpected action {:?}", other),
    }
    assert_eq!(
        UserMenuModel::user_playlists_fetched(Err(SpotifyApiError::NoToken)),
        Err(SpotifyApiError::NoToken)
    );
}

fn app() -> AppModel {
    AppModel::new(AppState::new())
}

#[test]
fn pages_share_layout_and_size() {
    let mut pins = PinnedStore::load(None);
    pins.pin("x");
    let factory = ScreenFactory::new(CardLayout::Vertical, CardSize::Small, pins);
    let page = factory.make_saved_albums(app(), ActionDispatcher::new());
    assert_eq!(page.title, "Albums");
    assert_eq!(page.model.filter(), LibraryFilter::Albums);
    let screen = factory.make_library_screen(
        app(),
        ActionDispatcher::new(),
        SortOrder::Size,
        true,
    );
    assert!(factory.pins.is_pinned("x"));
    assert_eq!(factory.shared_size, CardSize::Small);
    assert_eq!(screen.list.visible_view(), "grid");
    assert!(screen.list.descending);
    assert_eq!(factory.make_album_details("a".to_string(), app(), ActionDispatcher::new()).base.id, "a");
    let mut tracks = factory.make_saved_tracks(app(), ActionDispatcher::new());
    assert_eq!(
        tracks.model.base.dispatcher.take(),
        vec![Effect::Call(ApiCall::LoadSavedTracks { offset: 0, limit: 50 })]
    );
    assert_eq!(factory.make_home(app(), ActionDispatcher::new()).sections.len(), 6);
}

fn card(id: &str, position: u32) -> CardModel {
    CardModel::new(id, None, id, "", None, None, Some(position))
}

#[test]
fn cards_are_measured() {
    assert_eq!(measure_width(CardLayout::Vertical, 140), 140);
    assert_eq!(measure_width(CardLayout::Horizontal, 140), 56 + 12 + 100);
    assert_eq!(label_width(CardLayout::ImageOnly, 140), None);
    assert_eq!(measure_height(CardLayout::Vertical, 100, 20, 30), (126, 136));
    assert_eq!(measure_height(CardLayout::Horizontal, 180, 20, 30), (56, 56));
    assert_eq!(measure_height(CardLayout::Horizontal, 180, 70, 80), (70, 70));
    assert_eq!(
        cover_area(CardLayout::Vertical, 100, 151, 300),
        Area { x: 25, y: 0, width: 100, height: 100 }
    );
    assert_eq!(
        cover_area(CardLayout::Vertical, 100, 99, 300),
        Area { x: 0, y: 0, width: 100, height: 100 }
    );
    assert_eq!(
        label_area(CardLayout::Vertical, 100, 150, 130, 0),
        Some(Area { x: 0, y: 106, width: 150, height: 24 })
    );
    assert_eq!(label_area(CardLayout::Vertical, 100, 150, 106, 0), None);
    assert_eq!(
        label_area(CardLayout::Horizontal, 100, 168, 56, 20),
        Some(Area { x: 68, y: 18, width: 100, height: 20 })
    );
}

#[test]
fn cards_load_when_they_are_seen() {
    let mut widget = CardWidget::new(ImageShape::Square, CardLayout::Vertical);
    assert_eq!(widget.bind(&card("", 1)), None);
    assert!(!widget.loaded);
    let mut near = card("near", 15);
    near.image = Some("url".to_string());
    let load = widget.bind_with(&near, "sub".to_string()).unwrap();
    assert_eq!(load.when, LoadTime::AtOnce);
    assert!(!widget.loaded);
    widget.cover_tried(load, true);
    assert!(widget.loaded && widget.subtitle_visible);
    let far = CardModel { insertion_position: 16, ..near };
    assert_eq!(widget.bind(&far).unwrap().when, LoadTime::WhenIdle);
    widget.set_layout(CardLayout::ImageOnly);
    assert!(!widget.labels_visible);
    widget.set_layout(CardLayout::Horizontal);
    assert_eq!(widget.label_align, LabelAlign::Start);
    let list = card("l", 1).with_kind(CardKind::Playlist).with_track_count(2);
    assert_eq!(compose_subtitle_label(&list, false), "");
    assert_eq!(compose_subtitle_label(&list, true), "Playlist • 2 songs");
    let (shown, load) = CardWidget::for_model(
        &list,
        ImageShape::Square,
        CardLayout::Horizontal,
        CardSize::Small,
    );
    assert_eq!(load, None);
    assert_eq!(shown.subtitle, "Playlist • 2 songs");
    assert_eq!(shown.cover, Some(Cover::Icon("library-music-symbolic")));
    assert!(shown.loaded);
}

#[test]
fn grids_are_ordered() {
    let mut a = card("a", 1);
    let mut b = card("b", 2);
    a.release_date = "2020".to_string();
    b.release_date = "2021".to_string();
    b.popularity = 5;
    b.track_count = 0;
    a.track_count = 1;
    assert_eq!(compare_cards(SortOrder::RecentlyAdded, &a, &b), Order::Less);
    assert_eq!(compare_cards(SortOrder::Alphabetic, &a, &b), Order::Less);
    assert_eq!(compare_cards(SortOrder::DateReleased, &a, &b), Order::Greater);
    assert_eq!(compare_cards(SortOrder::Popularity, &a, &b), Order::Greater);
    assert_eq!(compare_cards(SortOrder::Size, &a, &b), Order::Less);
    assert_eq!(compare_cards(SortOrder::Creator, &a, &b), Order::Equal);
    assert_eq!(sort_children(SortOrder::Size, &None, &Some(a.clone())), Order::Greater);
    assert_eq!(sort_children(SortOrder::Size, &None, &None), Order::Equal);
    assert_eq!(opened_by(&Some(a.clone())), Some("a".to_string()));
    assert_eq!(opened_by(&Some(card("", 1))), None);
    assert_eq!(opened_by(&None), None);
    a.is_round = true;
    assert_eq!(child_shape(&a, ImageShape::Square), ImageShape::Round);
}

#[test]
fn placeholders_make_room_for_cards() {
    let mut grid = CardList::new();
    grid.show_placeholders();
    assert_eq!(grid.children.len(), 50);
    grid.append_placeholders();
    assert_eq!(grid.children.len(), 50);
    let mut store = vec![card("a", 0), card("b", 9)];
    grid.next_position = 3;
    grid.items_changed(&mut store, 0, 0, 2);
    assert_eq!(grid.placeholder_count, 0);
    assert_eq!(grid.children.len(), 2);
    assert_eq!(store[0].insertion_position, 3);
    assert_eq!(store[1].insertion_position, 9);
    assert_eq!(grid.next_position, 4);
    store.remove(0);
    grid.append_placeholders();
    grid.items_changed(&mut store, 0, 1, 0);
    assert_eq!(grid.children.len(), 51);
    assert_eq!(grid.children[0].as_ref().unwrap().id, "b");
    grid.remove_placeholders();
    assert_eq!(grid.children.len(), 1);
    grid.bind(&mut store, CardLayout::Vertical, CardSize::Small);
    assert_eq!(store[0].insertion_position, 1);
    assert_eq!(grid.next_position, 2);
}

fn song(id: &str) -> SongDescription {
    SongDescription {
        id: id.to_string(),
        uri: String::new(),
        title: String::new(),
        artists: vec![],
        album: AlbumRef { id: String::new(), name: String::new() },
        duration_ms: 0,
        art: None,
        track_number: None,
    }
}

#[test]
fn songs_show_their_state() {
    let options = PlaylistOptions { selects: true, likes: true, autoscrolls: true, covers: true };
    let songs = SongListModel { songs: vec![song("a"), song("b")], batch_size: 50, total: 2 };
    let mut state = AppState::new();
    state.playback.songs = vec![song("b")];
    state.playback.position = Some(0);
    state.selection.selected.insert("a");
    let mut home = HomeState::new(50);
    home.saved_tracks = SongListModel { songs: vec![song("a")], batch_size: 50, total: 1 };
    state.browser.home = Some(home);
    assert_eq!(
        song_state(options, &state, "a"),
        SongState { is_selected: true, is_playing: false, is_liked: true }
    );
    let mut list = Playlist::new(options, &songs, &state);
    assert!(list.paused);
    assert!(list.states[1].is_playing);
    let changed = AppEvent::PlaybackEvent(PlaybackEvent::TrackChanged("b".to_string()));
    assert_eq!(list.on_event(&changed, &songs, &state), vec![1]);
    let content = browser(BrowserEvent::AlbumTracksAppended("x".to_string()));
    assert!(list.on_event(&content, &songs, &state).is_empty());
    state.selection.enabled = true;
    let mode = AppEvent::SelectionEvent(SelectionEvent::SelectionModeChanged(true));
    assert!(list.on_event(&mode, &songs, &state).is_empty());
    assert!(list.selection_active);
    assert_eq!(toggle_select(Some(&state.selection), "a"), SelectTask::Deselect);
    assert_eq!(toggle_select(Some(&state.selection), "b"), SelectTask::Select);
    assert_eq!(toggle_select(None, "b"), SelectTask::Nothing);
    assert_eq!(row_chosen(&songs, true, 1), RowTask::ToggleSelect("b".to_string()));
    assert_eq!(row_chosen(&songs, false, 1), RowTask::PlayAt(1, "b".to_string()));
    assert_eq!(like_icon(true), "starred-symbolic");
}

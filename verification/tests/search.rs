use riff::actions::{
    ActionDispatcher, ApiCall, AppAction, AppEvent, BrowserAction, BrowserEvent, Effect,
};
use riff::api::cached_client::SpotifyApiError;
use riff::card_model::{CardKind, CardModel};
use riff::models::{
    AlbumDescription, AlbumRef, ArtistSummary, PlaylistDescription, SearchResults as Found,
    SongBatch, SongDescription, UserRef,
};
use riff::pages::search::{
    compare_results, matching_owned_playlists, owned_match_rank, SearchFilter, SearchResults,
    SearchTask, API_POSITION_BASE,
};
use riff::pages::search_model::SearchResultsModel;
use riff::pages::search_row::SearchRow;
use riff::pages::library_rows::Cover;
use riff::state::{AppModel, AppState, HomeState, SearchState};
use riff::text::Order;

fn playlist(id: &str, title: &str) -> PlaylistDescription {
    PlaylistDescription {
        id: id.to_string(),
        title: title.to_string(),
        art: None,
        songs: SongBatch::empty(),
        owner: UserRef { id: "u".to_string(), display_name: "U".to_string() },
        snapshot_id: None,
    }
}

fn song(id: &str) -> SongDescription {
    SongDescription {
        id: id.to_string(),
        uri: "u".to_string(),
        title: "T".to_string(),
        artists: vec![],
        album: AlbumRef { id: "alb".to_string(), name: "n".to_string() },
        duration_ms: 1,
        art: None,
        track_number: None,
    }
}

fn state() -> AppState {
    let mut state = AppState::new();
    state.logged_user.owned_playlists = vec![playlist("mine", "Road trip")];
    state.logged_user.playlist_ids.insert("other-mine");
    let mut home = HomeState::new(50);
    home.artists = vec![CardModel::new("ar", None, "Ar", "", None, None, None)];
    state.browser.home = Some(home);
    let mut tracks = SongBatch::empty();
    tracks.songs = vec![song("s1")];
    state.browser.search = Some(SearchState {
        query: "road".to_string(),
        results: Found {
            albums: vec![AlbumDescription {
                id: "al".to_string(),
                title: "Al".to_string(),
                artists: vec![],
                release_date: None,
                art: None,
                songs: SongBatch::empty(),
                is_liked: false,
                popularity: 0,
            }],
            artists: vec![ArtistSummary {
                id: "ar".to_string(),
                name: "Ar".to_string(),
                photo: None,
                popularity: 0,
            }],
            tracks,
            playlists: vec![
                playlist("mine", "Road trip"),
                playlist("other-mine", "Roads"),
                playlist("public", "Road songs"),
            ],
        },
    });
    state
}

fn page(state: AppState) -> SearchResults {
    SearchResults::new(SearchResultsModel::new(AppModel::new(state), ActionDispatcher::new()))
}

#[test]
fn names_are_ranked_by_where_they_match() {
    assert_eq!(owned_match_rank("road trip", "road"), Some(0));
    assert_eq!(owned_match_rank("my road trip", "road"), Some(1));
    assert_eq!(owned_match_rank("my-road", "road"), Some(1));
    assert_eq!(owned_match_rank("a/road", "road"), Some(1));
    assert_eq!(owned_match_rank("abroad", "road"), Some(2));
    assert_eq!(owned_match_rank("my road trip", "road tr"), Some(2));
    assert_eq!(owned_match_rank("other", "road"), None);
    assert_eq!(owned_match_rank("road", ""), None);
}

#[test]
fn own_playlists_are_sorted_by_match_then_title() {
    let owned = vec![
        playlist("1", "Abroad"),
        playlist("2", "the Road"),
        playlist("3", "Road B"),
        playlist("4", "road a"),
        playlist("5", "Nothing"),
        playlist("6", "A Road"),
        playlist("7", "ROAD A"),
    ];
    let found = matching_owned_playlists(&owned, "  ROAD ");
    let ids: Vec<&str> = found.iter().map(|p| p.id.as_str()).collect();
    assert_eq!(ids, vec!["4", "7", "3", "6", "2", "1"]);
    assert!(matching_owned_playlists(&owned, "   ").is_empty());
}

#[test]
fn own_matches_stand_above_everything_else() {
    let mut p = page(state());
    p.query_changed("road".to_string());
    assert!(p.results_visible);
    assert!(!p.status_visible);
    let ids: Vec<&str> = p.store.iter().map(|c| c.card.id.as_str()).collect();
    assert_eq!(ids, vec!["mine", "s1", "ar", "al", "other-mine", "public"]);
    assert_eq!(p.store[0].card.insertion_position, 0);
    assert_eq!(p.store[1].card.insertion_position, API_POSITION_BASE);
    assert_eq!(p.store[5].card.insertion_position, API_POSITION_BASE + 4);
    assert!(p.store[2].card.pinned);
    assert!(!p.store[3].card.pinned);
    assert!(p.store[4].card.pinned);
    assert!(!p.store[5].card.pinned);
    for other in p.store.iter().skip(1) {
        assert_eq!(compare_results(&p.store[0].card, &other.card), Order::Less);
    }
    assert_eq!(
        p.model.dispatcher.take(),
        vec![Effect::Dispatch(AppAction::BrowserAction(BrowserAction::Search(
            "road".to_string()
        )))]
    );
}

#[test]
fn many_own_matches_still_come_first() {
    let mut s = state();
    s.logged_user.owned_playlists =
        (0..1200).map(|i| playlist(&format!("p{}", i), "Road")).collect();
    s.logged_user.playlist_ids.insert("public");
    let mut p = page(s);
    p.query_changed("road".to_string());
    let last = p.store.iter().find(|c| c.card.id == "p1199").unwrap();
    for found in p.store.iter().skip(1200) {
        assert_eq!(compare_results(&last.card, &found.card), Order::Less);
    }
}

#[test]
fn without_results_own_matches_are_shown() {
    let mut s = state();
    s.browser.search = None;
    let mut p = page(s);
    p.query_changed("trip".to_string());
    assert_eq!(p.store.len(), 1);
    p.query_changed(String::new());
    assert!(p.store.is_empty());
    assert!(p.status_visible);
}

#[test]
fn filters_admit_their_kind() {
    let track = CardModel::new("s", None, "S", "", None, None, None);
    let album = CardModel::new("a", None, "A", "", None, None, None).with_kind(CardKind::Album);
    assert!(SearchFilter::All.admits(&track));
    assert!(SearchFilter::Songs.admits(&track));
    assert!(!SearchFilter::Songs.admits(&album));
    assert!(SearchFilter::Albums.admits(&album));
    assert!(!SearchFilter::Artists.admits(&album));
}

#[test]
fn songs_play_once_their_album_is_there() {
    let mut p = page(state());
    p.query_changed("road".to_string());
    p.model.dispatcher.take();
    let card = riff::pages::search::SearchCard {
        card: p.store[1].card.clone(),
        song: p.store[1].song.clone(),
    };
    p.open_card(&card);
    assert_eq!(
        p.model.dispatcher.take(),
        vec![Effect::Dispatch(AppAction::ViewAlbum("alb".to_string()))]
    );
    let loaded = AppEvent::BrowserEvent(BrowserEvent::AlbumDetailsLoaded("alb".to_string()));
    assert_eq!(p.on_event(&loaded), SearchTask::Nothing);
    assert_eq!(
        p.model.dispatcher.take(),
        vec![Effect::Dispatch(AppAction::BrowserAction(BrowserAction::PlaySong(
            "s1".to_string()
        )))]
    );
    p.on_event(&loaded);
    assert!(p.model.dispatcher.take().is_empty());
}

#[test]
fn a_song_does_not_wait_for_a_second_album() {
    let mut model = SearchResultsModel::new(AppModel::new(AppState::new()), ActionDispatcher::new());
    model.open_track(song("s"));
    model.dispatcher.take();
    model.on_album_loaded("another");
    model.on_album_loaded("alb");
    assert!(model.dispatcher.take().is_empty());
}

#[test]
fn results_are_fetched_after_a_pause() {
    let mut p = page(state());
    let updated = AppEvent::BrowserEvent(BrowserEvent::SearchUpdated);
    assert_eq!(p.on_event(&updated), SearchTask::FetchAfter(600));
    p.model.fetch_results();
    assert_eq!(
        p.model.dispatcher.take(),
        vec![Effect::Call(ApiCall::Search { query: "road".to_string(), offset: 0, limit: 5 })]
    );
    p.model.app_model.state.browser.search.as_mut().unwrap().query = String::new();
    p.model.fetch_results();
    assert!(p.model.dispatcher.take().is_empty());
    let read = AppEvent::BrowserEvent(BrowserEvent::SearchResultsUpdated);
    p.on_event(&read);
    assert_eq!(p.store.len(), 6);
    assert_eq!(
        SearchResultsModel::results_fetched(Err(SpotifyApiError::NoContent)),
        Err(SpotifyApiError::NoContent)
    );
}

#[test]
fn result_rows_drop_late_pictures() {
    let mut row = SearchRow::new();
    let artist = CardModel::new("a", None, "A", "", None, None, None).with_kind(CardKind::Artist);
    assert_eq!(row.bind(&artist), None);
    assert_eq!(row.cover, Some(Cover::Icon("avatar-default-symbolic")));
    assert_eq!(row.subtitle, "Artist");
    let mut album = CardModel::new("b", None, "B", "X", None, None, None).with_kind(CardKind::Album);
    album.image = Some("url".to_string());
    assert_eq!(row.bind(&album), Some("url".to_string()));
    assert_eq!(row.subtitle, "Album • X");
    assert!(!row.cover_loaded("a", "old".to_string()));
    assert!(row.cover_loaded("b", "url".to_string()));
    assert_eq!(row.cover, Some(Cover::Remote("url".to_string())));
    row.unbind();
    assert!(!row.cover_loaded("b", "url".to_string()));
}

use riff::actions::{
    ActionDispatcher, ApiCall, AppAction, AppEvent, BrowserAction, BrowserEvent, Effect,
    PaginationTarget, PlaybackAction, PlaybackEvent, SelectionAction, SelectionContext,
    SongsSource,
};
use riff::api::cached_client::SpotifyApiError;
use riff::models::{AlbumRef, Batch, SongBatch, SongDescription};
use riff::pages::details_page::{
    is_playback_event, page_failed, song_like_toggled, start_song, DetailsPageModel,
};
use riff::song_list::SongListModel;
use riff::state::{AppModel, AppState, HomeState};

fn make_model() -> DetailsPageModel {
    DetailsPageModel::new(
        "test-id".to_string(),
        AppModel::new(AppState::new()),
        ActionDispatcher::new(),
    )
}

fn make_model_playing() -> DetailsPageModel {
    let mut app_model = AppModel::new(AppState::new());
    app_model.update_state(PlaybackAction::LoadSongs(vec![song("s1"), song("s2")]));
    app_model.update_state(PlaybackAction::Load("s1".to_string()));
    DetailsPageModel::new("test-id".to_string(), app_model, ActionDispatcher::new())
}

fn song(id: &str) -> SongDescription {
    SongDescription {
        id: id.to_string(),
        uri: "".to_string(),
        title: "Title".to_string(),
        artists: vec![],
        album: AlbumRef { id: "".to_string(), name: "".to_string() },
        duration_ms: 1000,
        art: None,
        track_number: None,
    }
}

fn make_song_list(songs: Vec<SongDescription>) -> SongListModel {
    let mut list = SongListModel::new(50);
    list.add(SongBatch { songs, batch: Batch { offset: 0, batch_size: 50, total: 50 } });
    list
}

fn dispatched(model: &mut DetailsPageModel) -> Vec<AppAction> {
    let mut actions = Vec::new();
    for effect in model.dispatcher.take() {
        match effect {
            Effect::Dispatch(action) => actions.push(action),
            other => panic!("unexpected effect {:?}", other),
        }
    }
    actions
}

#[test]
fn test_is_playback_event_paused() {
    let event = AppEvent::PlaybackEvent(PlaybackEvent::PlaybackPaused);
    assert_eq!(is_playback_event(&event), Some(false));
}

#[test]
fn test_is_playback_event_resumed() {
    let event = AppEvent::PlaybackEvent(PlaybackEvent::PlaybackResumed);
    assert_eq!(is_playback_event(&event), Some(true));
}

#[test]
fn test_is_playback_event_track_changed() {
    let event = AppEvent::PlaybackEvent(PlaybackEvent::TrackChanged("x".to_string()));
    assert_eq!(is_playback_event(&event), Some(true));
}

#[test]
fn test_is_playback_event_non_playback() {
    let event = AppEvent::BrowserEvent(BrowserEvent::SavedTracksUpdated);
    assert_eq!(is_playback_event(&event), None);
}

#[test]
fn test_initial_state_is_paused() {
    let model = make_model();
    assert!(model.is_paused());
    assert!(!model.is_playing());
    assert!(!model.is_shuffled());
    assert_eq!(model.current_song_id(), None);
}

#[test]
fn test_playing_state() {
    let model = make_model_playing();
    assert!(model.is_playing());
    assert!(!model.is_paused());
    assert_eq!(model.current_song_id(), Some("s1".to_string()));
}

#[test]
fn test_deselect_song_dispatches() {
    let mut model = make_model();
    model.deselect_song("song-1");
    let action = dispatched(&mut model).pop().unwrap();
    assert!(
        matches!(action, AppAction::SelectionAction(SelectionAction::Deselect(ids)) if ids == vec!["song-1".to_string()])
    );
}

#[test]
fn test_selection_returns_state() {
    let model = make_model();
    let sel = model.selection();
    assert!(sel.is_some());
    assert!(!sel.unwrap().is_selection_enabled());
}

#[test]
fn test_select_song_from_list_dispatches() {
    let mut model = make_model();
    let list = make_song_list(vec![song("a"), song("b")]);
    model.select_song_from_list(&list, "b");
    let action = dispatched(&mut model).pop().unwrap();
    assert!(
        matches!(action, AppAction::SelectionAction(SelectionAction::Select(songs)) if songs.len() == 1 && songs[0].id == "b")
    );
}

#[test]
fn test_select_song_from_list_nonexistent() {
    let mut model = make_model();
    let list = make_song_list(vec![song("a")]);
    model.select_song_from_list(&list, "nonexistent");
    assert!(dispatched(&mut model).pop().is_none());
}

#[test]
fn test_enable_selection_with_context() {
    let mut model = make_model();
    let result = model.enable_selection_with_context(SelectionContext::Default);
    if result {
        let action = dispatched(&mut model).pop().unwrap();
        assert!(matches!(action, AppAction::EnableSelection(SelectionContext::Default)));
    }
}

#[test]
fn test_toggle_playback_starts_when_not_playing_source() {
    let mut model = make_model();
    let list = make_song_list(vec![song("first"), song("second")]);

    let called = model.toggle_playback(false, &list);

    assert_eq!(called, Some((0, "first".to_string())));
    assert!(dispatched(&mut model).is_empty());
}

#[test]
fn test_toggle_playback_pauses_when_playing() {
    let mut model = make_model_playing();
    let list = make_song_list(vec![song("x")]);

    if model.toggle_playback(true, &list).is_some() {
        panic!("should not start playback");
    }

    let action = dispatched(&mut model).pop().unwrap();
    assert!(matches!(action, AppAction::PlaybackAction(PlaybackAction::Pause)));
}

#[test]
fn test_toggle_playback_resumes_when_paused_but_source_playing() {
    let mut model = make_model();
    let list = make_song_list(vec![song("x")]);

    if model.toggle_playback(true, &list).is_some() {
        panic!("should not start playback");
    }

    let action = dispatched(&mut model).pop().unwrap();
    assert!(matches!(action, AppAction::PlaybackAction(PlaybackAction::Play)));
}

#[test]
fn test_shuffle_playback_enables_shuffle() {
    let mut model = make_model();
    let list = make_song_list(vec![song("a"), song("b")]);

    let called = model.shuffle_playback(&list);

    let actions = dispatched(&mut model);
    assert!(actions
        .iter()
        .any(|a| matches!(a, AppAction::PlaybackAction(PlaybackAction::ToggleShuffle))));
    let (pos, id) = called.expect("play_song_at should be called");
    assert!(pos < 2);
    assert!(id == "a" || id == "b");
}

#[test]
fn test_start_playback_disables_shuffle_when_not_wanted() {
    let mut model = make_model_playing();
    model.app_model.update_state(PlaybackAction::ToggleShuffle);
    assert!(model.is_shuffled());

    let list = make_song_list(vec![song("x")]);
    model.start_playback(false, &list);

    let actions = dispatched(&mut model);
    assert!(actions
        .iter()
        .any(|a| matches!(a, AppAction::PlaybackAction(PlaybackAction::ToggleShuffle))));
}

#[test]
fn test_start_playback_empty_list() {
    let mut model = make_model();
    let list = make_song_list(vec![]);

    let called = model.start_playback(false, &list);

    assert!(!called.is_some());
    assert!(dispatched(&mut model).is_empty());
}

#[test]
fn test_new_stores_id() {
    let model = make_model();
    assert_eq!(model.id, "test-id");
}

#[test]
fn test_new_without_id() {
    let model = DetailsPageModel::new_without_id(
        AppModel::new(AppState::new()),
        ActionDispatcher::new(),
    );
    assert_eq!(model.id, "");
}

#[test]
fn shuffled_start_is_the_drawn_song() {
    let list = make_song_list(vec![song("a"), song("b"), song("c")]);
    assert_eq!(start_song(true, &list, 7), Some((1, "b".to_string())));
    assert_eq!(start_song(false, &list, 7), Some((0, "a".to_string())));
    assert_eq!(start_song(true, &make_song_list(vec![]), 7), None);
}

#[test]
fn random_start_is_in_the_list() {
    let mut model = make_model();
    let list = make_song_list(vec![song("a"), song("b"), song("c")]);
    for _ in 0..50 {
        let (i, id) = model.shuffle_playback(&list).unwrap();
        assert_eq!(list.index(i).unwrap().id, id);
    }
}

#[test]
fn play_from_loads_page_then_song() {
    let mut model = make_model();
    let batch = SongBatch {
        songs: vec![song("a")],
        batch: Batch { offset: 0, batch_size: 50, total: 1 },
    };
    model.play_from(SongsSource::Album("al".to_string()), Some(batch), "a");
    let actions = dispatched(&mut model);
    assert_eq!(actions.len(), 2);
    assert!(matches!(
        &actions[0],
        AppAction::PlaybackAction(PlaybackAction::LoadPagedSongs(SongsSource::Album(id), b))
            if id == "al" && b.songs.len() == 1
    ));
    assert_eq!(
        actions[1],
        AppAction::PlaybackAction(PlaybackAction::Load("a".to_string()))
    );
    model.play_from(SongsSource::SavedTracks, None, "a");
    assert!(dispatched(&mut model).is_empty());
}

#[test]
fn a_page_is_consumed_before_it_is_asked_for() {
    let mut model = make_model();
    model.want_page(
        PaginationTarget::SavedTracks,
        ApiCall::GetSavedTracks { offset: 50, limit: 50 },
    );
    let effects = model.dispatcher.take();
    assert_eq!(
        effects,
        vec![
            Effect::UpdateState(BrowserAction::ConsumeNextPage(PaginationTarget::SavedTracks)),
            Effect::Call(ApiCall::GetSavedTracks { offset: 50, limit: 50 }),
        ]
    );
}

#[test]
fn unknown_items_close_their_page() {
    let closed = page_failed(SpotifyApiError::BadStatus(404, "gone".to_string()));
    assert_eq!(closed, Ok(AppAction::BrowserAction(BrowserAction::NavigationPop)));
    let closed = page_failed(SpotifyApiError::BadStatus(400, "bad".to_string()));
    assert_eq!(closed, Ok(AppAction::BrowserAction(BrowserAction::NavigationPop)));
    let kept = page_failed(SpotifyApiError::BadStatus(500, "oops".to_string()));
    assert_eq!(kept, Err(SpotifyApiError::BadStatus(500, "oops".to_string())));
    assert_eq!(page_failed(SpotifyApiError::NoToken), Err(SpotifyApiError::NoToken));
}

#[test]
fn likes_are_toggled_on_the_service_first() {
    let mut model = make_model();
    let mut home = HomeState::new(50);
    home.saved_tracks = make_song_list(vec![song("liked")]);
    model.app_model.state.browser.home = Some(home);
    let list = make_song_list(vec![song("liked"), song("other")]);

    let (like, was_liked) = model.toggle_song_like(&list, "other").unwrap();
    assert!(!was_liked);
    assert_eq!(
        model.dispatcher.take(),
        vec![Effect::Call(ApiCall::SaveTracks(vec![song("other")]))]
    );
    assert_eq!(
        song_like_toggled(like, was_liked, Ok(())),
        Ok(AppAction::BrowserAction(BrowserAction::SaveTracks(vec![song("other")])))
    );

    let (unlike, was_liked) = model.toggle_song_like(&list, "liked").unwrap();
    assert!(was_liked);
    assert_eq!(
        model.dispatcher.take(),
        vec![Effect::Call(ApiCall::RemoveSavedTracks(vec!["liked".to_string()]))]
    );
    assert_eq!(
        song_like_toggled(unlike, was_liked, Ok(())),
        Ok(AppAction::BrowserAction(BrowserAction::RemoveSavedTracks(vec!["liked".to_string()])))
    );

    assert!(model.toggle_song_like(&list, "absent").is_none());
    assert_eq!(
        song_like_toggled(song("x"), true, Err(SpotifyApiError::NoContent)),
        Err(SpotifyApiError::NoContent)
    );
}

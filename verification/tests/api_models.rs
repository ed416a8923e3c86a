use riff::api::answers::recently_played;
use riff::api::api_models::{
    Album, AlbumTrackItem, Artist, BadTrackItem, FailibleTrackItem, Image, IntoTrack, Page,
    PlayContext, PlayHistory, Playlist, PlaylistOwner, PlaylistTrack, RecentlyPlayed, SearchQuery,
    TrackItem,
};
use riff::api::api_models::{
    artist_summaries, device_kind_of, repeat_state_of, songs_of_page, songs_of_queue, Device,
    PlayerQueue, PlayerState,
};
use riff::models::{
    ArtistSummary, ConnectDevice, ConnectDeviceKind, ConnectPlayerState, PlaylistDescription,
    RepeatMode, SongBatch, SongDescription,
};
use serde_json::Value;

fn parse(json: &str) -> Value {
    serde_json::from_str(json).unwrap()
}

fn text(v: &Value, key: &str) -> Option<String> {
    v.get(key).and_then(|t| t.as_str()).map(|t| t.to_string())
}

fn number(v: &Value, key: &str) -> Option<usize> {
    v.get(key).and_then(|n| n.as_u64()).map(|n| n as usize)
}

fn list<T>(v: &Value, key: &str, read: fn(&Value) -> Option<T>) -> Option<Vec<T>> {
    v.get(key)?.as_array()?.iter().map(read).collect()
}

fn image(v: &Value) -> Option<Image> {
    Some(Image {
        url: text(v, "url")?,
        height: number(v, "height").map(|n| n as u32),
        width: number(v, "width").map(|n| n as u32),
    })
}

fn artist(v: &Value) -> Option<Artist> {
    Some(Artist {
        id: text(v, "id")?,
        name: text(v, "name")?,
        images: list(v, "images", image),
        popularity: number(v, "popularity").unwrap_or(0) as u32,
    })
}

fn album(v: &Value) -> Option<Album> {
    Some(Album {
        id: text(v, "id")?,
        tracks: None,
        artists: list(v, "artists", artist)?,
        release_date: text(v, "release_date"),
        name: text(v, "name")?,
        images: list(v, "images", image)?,
        popularity: number(v, "popularity").unwrap_or(0) as u32,
    })
}

fn track_item(v: &Value) -> Option<TrackItem> {
    Some(TrackItem {
        track: AlbumTrackItem {
            id: text(v, "id")?,
            track_number: number(v, "track_number"),
            uri: text(v, "uri")?,
            name: text(v, "name")?,
            duration_ms: v.get("duration_ms")?.as_i64()?,
            artists: list(v, "artists", artist)?,
        },
        album: album(v.get("album")?)?,
    })
}

fn playlist_track(v: &Value) -> Option<PlaylistTrack> {
    let track = match v.get("track") {
        None | Some(Value::Null) => None,
        Some(track) => Some(match track_item(track) {
            Some(item) => FailibleTrackItem::Good(Box::new(item)),
            None => FailibleTrackItem::Failing(BadTrackItem {}),
        }),
    };
    Some(PlaylistTrack { is_local: v.get("is_local")?.as_bool()?, track })
}

fn page<T>(v: &Value, read: fn(&Value) -> Option<T>) -> Page<T> {
    let items = v
        .get("items")
        .and_then(|items| items.as_array())
        .map(|items| items.iter().map(read).collect());
    Page::received(items, number(v, "offset"), number(v, "limit"), number(v, "total").unwrap_or(0))
}

fn playlist(v: &Value) -> Option<Playlist> {
    let owner = v.get("owner")?;
    Some(Playlist {
        id: text(v, "id")?,
        name: text(v, "name")?,
        images: list(v, "images", image),
        tracks: v.get("tracks").map(|tracks| page(tracks, playlist_track)),
        owner: PlaylistOwner { id: text(owner, "id")?, display_name: text(owner, "display_name")? },
        snapshot_id: text(v, "snapshot_id"),
    })
}

fn play_history(v: &Value) -> Option<PlayHistory> {
    Some(PlayHistory {
        track: track_item(v.get("track")?)?,
        played_at: text(v, "played_at"),
        context: v
            .get("context")
            .map(|c| PlayContext { type_: text(c, "type"), uri: text(c, "uri") }),
    })
}

#[test]
fn test_playlist_track_null() {
    let track = r#"{"is_local": false, "track": null}"#;
    let deserialized = playlist_track(&parse(track)).unwrap();
    let track_item: Option<TrackItem> = deserialized.into_track();
    assert!(track_item.is_none());
}

#[test]
fn test_playlist_track_local() {
    let track = r#"{"is_local": true, "track": {"name": ""}}"#;
    let deserialized = playlist_track(&parse(track)).unwrap();
    let track_item: Option<TrackItem> = deserialized.into_track();
    assert!(track_item.is_none());
}

#[test]
fn test_playlist_track_ok() {
    let track = r#"{"is_local":false,"track":{"album":{"artists":[{"external_urls":{"spotify":""},"href":"","id":"","name":"","type":"artist","uri":""}],"id":"","images":[{"height":64,"url":"","width":64}],"name":""},"artists":[{"id":"","name":""}],"duration_ms":1,"id":"","name":"","uri":""}}"#;
    let deserialized = playlist_track(&parse(track)).unwrap();
    let track_item: Option<TrackItem> = deserialized.into_track();
    assert!(track_item.is_some());
}

#[test]
fn test_recently_played_parsing() {
    let json = r#"{"items":[{"track":{"album":{"artists":[{"id":"a","name":"Artist"}],"id":"alb","images":[{"height":64,"url":"http://img","width":64}],"name":"Album"},"artists":[{"id":"a","name":"Artist"}],"duration_ms":1,"id":"t1","name":"Track","uri":"spotify:track:t1"},"played_at":"2026-07-19T00:00:00Z","context":{"type":"album","uri":"spotify:album:alb"}}]}"#;
    let parsed = RecentlyPlayed { items: list(&parse(json), "items", play_history) };
    let items = parsed.items.unwrap();
    assert_eq!(items.len(), 1);
    assert_eq!(items[0].track.track.id, "t1");
    assert_eq!(items[0].track.album.id, "alb");
    let (songs, contexts) = recently_played(RecentlyPlayed { items: Some(items) });
    assert_eq!(songs.len(), 1);
    assert_eq!(songs[0].id, "t1");
    assert_eq!(contexts.len(), 1);
    assert_eq!(contexts[0].id, "alb");
}

#[test]
fn test_top_tracks_page_parsing() {
    let json = r#"{"items":[{"album":{"artists":[{"id":"a","name":"Artist"}],"id":"alb","images":[{"height":64,"url":"http://img","width":64}],"name":"Album"},"artists":[{"id":"a","name":"Artist"}],"duration_ms":1,"id":"t1","name":"Track","uri":"spotify:track:t1"}],"total":1}"#;
    let parsed: Page<TrackItem> = page(&parse(json), track_item);
    let songs: Vec<SongDescription> = songs_of_page(parsed);
    assert_eq!(songs.len(), 1);
    assert_eq!(songs[0].album.id, "alb");
}

#[test]
fn test_top_artists_page_parsing() {
    let json = r#"{"items":[{"id":"a","name":"Artist","images":[{"height":64,"url":"http://img","width":64}],"popularity":80}],"total":1}"#;
    let parsed: Page<Artist> = page(&parse(json), artist);
    let artists: Vec<ArtistSummary> = artist_summaries(parsed.into_items());
    assert_eq!(artists.len(), 1);
    assert_eq!(artists[0].name, "Artist");
}

#[test]
fn test_playlist_missing_tracks_field() {
    let json = r#"{"id":"pl1","name":"My List","images":null,"owner":{"id":"u","display_name":"U"},"snapshot_id":"snap1"}"#;
    let deserialized: Playlist = playlist(&parse(json)).unwrap();
    assert!(deserialized.tracks.is_none());
    let desc = PlaylistDescription::from(deserialized);
    assert_eq!(desc.id, "pl1");
    assert_eq!(desc.songs.batch.total, 0);
}

#[test]
fn test_playlist_with_tracks_field() {
    let json = r#"{"id":"pl2","name":"Full","images":null,"owner":{"id":"u","display_name":"U"},"snapshot_id":null,"tracks":{"items":[],"total":42,"offset":0,"limit":50}}"#;
    let deserialized: Playlist = playlist(&parse(json)).unwrap();
    assert!(deserialized.tracks.is_some());
    assert_eq!(deserialized.tracks.as_ref().unwrap().total(), 42);
}

#[test]
fn test_saved_playlists_page_skips_null_items() {
    let json = r#"{"items":[{"id":"pl1","name":"A","images":null,"owner":{"id":"u","display_name":"U"},"snapshot_id":"s","tracks":{"total":10}},null,{"id":"pl2","name":"B","images":null,"owner":{"id":"u","display_name":"U"},"snapshot_id":"s","tracks":{"total":20}}],"offset":0,"limit":50,"total":3}"#;
    let parsed: Page<Playlist> = page(&parse(json), playlist);
    let playlists: Vec<Playlist> = parsed.into_items();
    assert_eq!(playlists.len(), 2);
    assert_eq!(playlists[0].id, "pl1");
    assert_eq!(playlists[1].id, "pl2");
}

#[test]
fn test_saved_playlists_track_total_populated() {
    let json = r#"{"id":"pl1","name":"My List","images":null,"owner":{"id":"u","display_name":"U"},"snapshot_id":"s","tracks":{"total":37,"limit":100,"offset":0}}"#;
    let deserialized: Playlist = playlist(&parse(json)).unwrap();
    let desc = PlaylistDescription::from(deserialized);
    assert_eq!(desc.songs.batch.total, 37);
}

#[test]
fn test_search_query_encoding() {
    let query = SearchQuery { query: "кириллица".to_string(), limit: 5, offset: 0 };

    assert_eq!(query.into_query_string(), "type=album,track,artist,playlist&q=%D0%BA%D0%B8%D1%80%D0%B8%D0%BB%D0%BB%D0%B8%D1%86%D0%B0&offset=0&limit=5");
}

#[test]
fn test_search_query_spaces_and_stuff() {
    let query = SearchQuery { query: "test??? wow".to_string(), limit: 5, offset: 0 };

    assert_eq!(
        query.into_query_string(),
        "type=album,track,artist,playlist&q=test+wow&offset=0&limit=5"
    );
}

fn item(id: &str) -> TrackItem {
    track_item(&parse(&format!(
        r#"{{"album":{{"artists":[],"id":"alb","images":[],"name":"Album"}},"artists":[{{"id":"a","name":"A"}}],"duration_ms":1500,"id":"{}","name":"N","uri":"spotify:track:{}","track_number":3}}"#,
        id, id
    )))
    .unwrap()
}

#[test]
fn pages_say_how_long_they_are() {
    let page: Page<TrackItem> = Page::received(None, None, None, 7);
    assert_eq!(page.limit(), 50);
    assert_eq!(page.offset(), 0);
    assert_eq!(page.total(), 7);
    let page = Page::received(Some(vec![Some(item("a")), None]), Some(20), None, 30);
    assert_eq!(page.limit(), 1);
    assert_eq!(page.offset(), 20);
    let batch = SongBatch::from(page);
    assert_eq!(batch.songs.len(), 1);
    assert_eq!(batch.batch.offset, 20);
    assert_eq!(batch.batch.total, 30);
    assert_eq!(batch.songs[0].duration_ms, 1500);
    assert_eq!(batch.songs[0].track_number, Some(3));
    assert_eq!(Page::<TrackItem>::default().limit(), 50);
}

#[test]
fn queue_ends_at_the_first_repeat() {
    let queue = PlayerQueue {
        currently_playing: item("a"),
        queue: vec![item("b"), item("a"), item("b"), item("c")],
    };
    let ids: Vec<String> = songs_of_queue(queue).into_iter().map(|s| s.id).collect();
    let mut unique = ids.clone();
    unique.sort();
    unique.dedup();
    assert_eq!(ids.len(), unique.len());
    assert_eq!(ids, vec!["a", "b"]);
}

#[test]
fn player_states_are_read() {
    let state = PlayerState {
        progress_ms: 12,
        is_playing: true,
        repeat_state: "context".to_string(),
        shuffle_state: true,
        item: FailibleTrackItem::Good(Box::new(item("now"))),
        context: None,
    };
    let read = ConnectPlayerState::from(state);
    assert_eq!(read.current_song_id, Some("now".to_string()));
    assert_eq!(read.repeat, RepeatMode::Playlist);
    assert_eq!(read.progress_ms, 12);
    assert!(read.shuffle && read.is_playing);
    for mode in [RepeatMode::Song, RepeatMode::Playlist, RepeatMode::Off] {
        let state = PlayerState {
            progress_ms: 0,
            is_playing: false,
            repeat_state: repeat_state_of(mode).to_string(),
            shuffle_state: false,
            item: FailibleTrackItem::Failing(BadTrackItem {}),
            context: None,
        };
        let read = ConnectPlayerState::from(state);
        assert_eq!(read.repeat, mode);
        assert_eq!(read.current_song_id, None);
    }
}

#[test]
fn devices_are_read() {
    assert_eq!(device_kind_of("smartphone"), ConnectDeviceKind::Phone);
    assert_eq!(device_kind_of("computer"), ConnectDeviceKind::Computer);
    assert_eq!(device_kind_of("speaker"), ConnectDeviceKind::Speaker);
    assert_eq!(device_kind_of("toaster"), ConnectDeviceKind::Other);
    let device = ConnectDevice::from(Device {
        type_: "Speaker".to_string(),
        name: "Kitchen".to_string(),
        id: "k".to_string(),
        is_active: true,
        is_restricted: false,
        volume_percent: 10,
    });
    assert_eq!(device.label, "Kitchen");
    assert_eq!(device.id, "k");
    assert_eq!(device.kind, ConnectDeviceKind::Speaker);
}

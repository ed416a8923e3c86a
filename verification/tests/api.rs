use riff::api::answers::{
    add_tracks, get_album, get_current_user, get_followed_artists, get_player_queue,
    list_available_devices, player_play_in_context, player_play_no_context, player_state,
    recently_played, search, track_requests, TrackIdReader,
};
use riff::api::api_models::{
    Album, AlbumInfo, AlbumTrackItem, Artist, CursorPage, Cursors, Device, Devices,
    FollowedArtistsInner, FullAlbum, Image, LinkedFrom, Page, PlayHistory, PlayOffset,
    PlayRequest, PlaylistTrackId, PlaylistTrackIdInner, RecentlyPlayed, TrackItem, Tracks, User,
};
use riff::api::cached_client::{
    is_stale_by, patterns_expired_by, playlist_cache_key, required, wrap_write, CacheExpiry,
    CachePolicy, CachedSpotifyClient, FetchResult, LibraryChange, ReadOutcome, RiffCacheKey,
    SpotifyApiError, SpotifyResponse, SpotifyResponseKind, TokenStore, ME_ALBUMS_CACHE,
    ME_PLAYLISTS_CACHE, ME_TRACKS_CACHE, USER_CACHE,
};
use riff::api::premium::{check_premium, PremiumStatus};

fn album(id: &str) -> Album {
    Album {
        id: id.to_string(),
        tracks: None,
        artists: vec![],
        release_date: None,
        name: format!("Album {}", id),
        images: vec![],
        popularity: 0,
    }
}

fn track(id: &str, album_id: &str) -> TrackItem {
    TrackItem {
        track: AlbumTrackItem {
            id: id.to_string(),
            track_number: None,
            uri: format!("spotify:track:{}", id),
            name: format!("Track {}", id),
            duration_ms: 1000,
            artists: vec![Artist {
                id: "a".to_string(),
                name: "Artist".to_string(),
                images: None,
                popularity: 0,
            }],
        },
        album: album(album_id),
    }
}

fn user(product: Option<&str>) -> User {
    User {
        id: "u".to_string(),
        display_name: "User".to_string(),
        product: product.map(|p| p.to_string()),
        images: Some(vec![
            Image { url: "big".to_string(), height: Some(640), width: Some(640) },
            Image { url: "small".to_string(), height: Some(64), width: Some(64) },
        ]),
    }
}

fn client(token: Option<&str>) -> CachedSpotifyClient {
    CachedSpotifyClient::new(TokenStore { token: token.map(|t| t.to_string()) })
}

#[test]
fn a_failed_probe_is_not_a_free_account() {
    assert_eq!(check_premium(Ok(Some(user(Some("premium"))))), PremiumStatus::Premium);
    assert_eq!(check_premium(Ok(Some(user(Some("free"))))), PremiumStatus::NotPremium);
    assert_eq!(check_premium(Ok(Some(user(None)))), PremiumStatus::NotPremium);
    assert_eq!(
        check_premium(Ok(None)),
        PremiumStatus::ProbeFailed(SpotifyApiError::NoContent)
    );
    assert_eq!(
        check_premium(Err(SpotifyApiError::InvalidToken)),
        PremiumStatus::ProbeFailed(SpotifyApiError::InvalidToken)
    );
}

#[test]
fn cache_files_are_named_by_what_they_hold() {
    assert_eq!(RiffCacheKey::SavedAlbums(0, 50).into_raw(), "me_albums_0_50.json");
    assert_eq!(RiffCacheKey::Album("x").into_raw(), "album_x.json");
    assert_eq!(RiffCacheKey::AlbumTracks("x", 10, 20).into_raw(), "album_item_x_10_20.json");
    assert_eq!(RiffCacheKey::AlbumLiked("x").into_raw(), "album_liked_x.json");
    assert_eq!(RiffCacheKey::PlaylistTracks("p", 1, 2).into_raw(), "playlist_item_p_1_2.json");
    assert_eq!(RiffCacheKey::ArtistTopTracks("a").into_raw(), "artist_top_tracks_a.json");
    assert_eq!(RiffCacheKey::Me.into_raw(), "me.json");
    assert_eq!(RiffCacheKey::RecentlyPlayed(20).into_raw(), "me_recently_played_20.json");
    assert_ne!(
        RiffCacheKey::SavedTracks(0, 50).into_raw(),
        RiffCacheKey::SavedTracks(50, 0).into_raw()
    );
}

#[test]
fn patterns_find_the_files_that_go_stale() {
    assert!(is_stale_by(ME_ALBUMS_CACHE, "me_albums_0_50.json"));
    assert!(!is_stale_by(ME_ALBUMS_CACHE, "me_tracks_0_50.json"));
    assert!(is_stale_by(ME_TRACKS_CACHE, "me_tracks_0_50.json"));
    assert!(is_stale_by(&playlist_cache_key("abc"), "playlist_abc.json"));
    assert!(!is_stale_by(&playlist_cache_key("abc"), "playlist_abd.json"));
    assert!(is_stale_by(USER_CACHE, "me.json"));
    assert!(is_stale_by(USER_CACHE, "me_top_artists_20.json"));
    assert!(!is_stale_by(USER_CACHE, "artist_x.json"));
    assert!(!is_stale_by("(", "anything"));
}

#[test]
fn changes_make_their_own_files_stale() {
    assert_eq!(patterns_expired_by(LibraryChange::SaveTracks), vec![ME_TRACKS_CACHE.to_string()]);
    assert_eq!(
        patterns_expired_by(LibraryChange::UnfollowPlaylist("p")),
        vec![ME_PLAYLISTS_CACHE.to_string(), playlist_cache_key("p")]
    );
    assert_eq!(
        patterns_expired_by(LibraryChange::AddToPlaylist("p")),
        vec![playlist_cache_key("p")]
    );
}

#[test]
fn without_a_token_the_cache_has_to_do() {
    assert_eq!(client(Some("t")).default_cache_policy(), CachePolicy::Default);
    assert_eq!(client(None).default_cache_policy(), CachePolicy::IgnoreExpiry);
    assert_eq!(client(Some("t")).liked_cache_policy(), CachePolicy::Revalidate);
    assert_eq!(client(None).liked_cache_policy(), CachePolicy::IgnoreExpiry);
}

#[test]
fn a_damaged_entry_is_read_once_more() {
    let mut read = client(Some("t")).cache_get_or_write(RiffCacheKey::Me, None);
    assert_eq!(read.key, "me.json");
    assert_eq!(read.policy, CachePolicy::Default);
    assert_eq!(read.on_parsed(false), ReadOutcome::ReadAgain);
    assert_eq!(read.policy, CachePolicy::IgnoreCached);
    assert_eq!(read.on_parsed(false), ReadOutcome::Fail);
    assert_eq!(read.on_parsed(true), ReadOutcome::Accept);
}

#[test]
fn answers_go_into_the_cache_with_their_age() {
    let answer = SpotifyResponse {
        kind: SpotifyResponseKind::Content("é".to_string()),
        max_age: 10,
        etag: Some("tag".to_string()),
    };
    assert_eq!(
        wrap_write(Ok(answer)),
        Ok(FetchResult::Modified(
            vec![0xc3, 0xa9],
            CacheExpiry { max_age: 10, etag: Some("tag".to_string()) }
        ))
    );
    let answer =
        SpotifyResponse { kind: SpotifyResponseKind::NotModified, max_age: 5, etag: None };
    assert_eq!(
        wrap_write(Ok(answer)),
        Ok(FetchResult::NotModified(CacheExpiry { max_age: 5, etag: None }))
    );
    assert_eq!(
        wrap_write(Err(SpotifyApiError::ConnectionError)),
        Err(SpotifyApiError::ConnectionError)
    );
}

#[test]
fn empty_answers_are_errors() {
    assert_eq!(required::<u8>(None), Err(SpotifyApiError::NoContent));
    assert_eq!(required(Some(1)), Ok(1));
    assert_eq!(search(None), Err(SpotifyApiError::NoContent));
    assert_eq!(get_player_queue(None), Err(SpotifyApiError::NoContent));
    assert_eq!(player_state(None), Err(SpotifyApiError::NoContent));
    assert_eq!(get_followed_artists(None), Err(SpotifyApiError::NoContent));
    let mut songs = vec![];
    assert_eq!(add_tracks(&mut songs, None), Err(SpotifyApiError::NoContent));
    assert_eq!(TrackIdReader::new().on_page(None), Err(SpotifyApiError::NoContent));
}

#[test]
fn restricted_devices_are_left_out() {
    let device = |id: &str, is_restricted: bool| Device {
        type_: "Computer".to_string(),
        name: id.to_uppercase(),
        id: id.to_string(),
        is_active: false,
        is_restricted,
        volume_percent: 0,
    };
    let devices = Devices { devices: vec![device("a", false), device("b", true), device("c", false)] };
    let listed = list_available_devices(Some(devices)).unwrap();
    let ids: Vec<&str> = listed.iter().map(|d| d.id.as_str()).collect();
    assert_eq!(ids, vec!["a", "c"]);
    assert_eq!(list_available_devices(None), Err(SpotifyApiError::NoContent));
}

#[test]
fn recent_plays_hold_nothing_twice() {
    let play = |id: &str, album_id: &str| PlayHistory {
        track: track(id, album_id),
        played_at: None,
        context: None,
    };
    let recent = RecentlyPlayed {
        items: Some(vec![play("1", "x"), play("2", "x"), play("1", "y"), play("3", "")]),
    };
    let (songs, contexts) = recently_played(recent);
    let ids: Vec<&str> = songs.iter().map(|s| s.id.as_str()).collect();
    assert_eq!(ids, vec!["1", "2", "3"]);
    let albums: Vec<&str> = contexts.iter().map(|c| c.id.as_str()).collect();
    assert_eq!(albums, vec!["x", "y"]);
    assert_eq!(contexts[0].title, "Album x");
    assert_eq!(contexts[0].subtitle, "Artist");
}

#[test]
fn track_ids_are_read_page_by_page() {
    let entry = |id: Option<&str>, linked: Option<&str>| PlaylistTrackId {
        track: Some(PlaylistTrackIdInner {
            id: id.map(|i| i.to_string()),
            linked_from: linked.map(|l| LinkedFrom { id: Some(l.to_string()) }),
        }),
    };
    let mut reader = TrackIdReader::new();
    let page = Page {
        items: Some(vec![entry(Some("a"), Some("b")), PlaylistTrackId { track: None }]),
        offset: Some(0),
        limit: Some(50),
        total: 60,
    };
    assert_eq!(reader.on_page(Some(page)), Ok(false));
    assert_eq!(reader.offset, 50);
    let page = Page { items: Some(vec![entry(None, None)]), offset: Some(50), limit: None, total: 60 };
    assert_eq!(reader.on_page(Some(page)), Ok(true));
    assert_eq!(reader.ids, vec!["a".to_string(), "b".to_string()]);
}

#[test]
fn ids_are_asked_for_in_pieces() {
    let ids: Vec<String> = (0..120).map(|i| i.to_string()).collect();
    let requests = track_requests(&ids);
    let sizes: Vec<usize> = requests.iter().map(|r| r.len()).collect();
    assert_eq!(sizes, vec![50, 50, 20]);
    assert_eq!(requests.concat(), ids);
    assert!(track_requests(&vec![]).is_empty());
    let mut songs = vec![];
    let answer = Tracks { tracks: Some(vec![track("1", "x")]) };
    assert_eq!(add_tracks(&mut songs, Some(answer)), Ok(()));
    assert_eq!(songs.len(), 1);
}

#[test]
fn albums_know_whether_they_are_saved() {
    let full = |id: &str| FullAlbum {
        album: album(id),
        album_info: AlbumInfo { label: "L".to_string(), copyrights: vec![], total_tracks: 3 },
    };
    let read = get_album(Ok(full("x")), Ok(vec![true])).unwrap();
    assert!(read.description.is_liked);
    assert_eq!(read.release_details.label, "L");
    let read = get_album(Ok(full("x")), Ok(vec![])).unwrap();
    assert!(!read.description.is_liked);
    assert_eq!(
        get_album(Err(SpotifyApiError::NoToken), Ok(vec![])),
        Err(SpotifyApiError::NoToken)
    );
}

#[test]
fn playback_requests_name_the_place() {
    assert_eq!(
        player_play_in_context("spotify:album:x".to_string(), 4),
        PlayRequest::Contextual {
            context_uri: "spotify:album:x".to_string(),
            offset: PlayOffset { position: 4 }
        }
    );
    assert_eq!(
        player_play_no_context(vec!["u".to_string()], 0),
        PlayRequest::Uris { uris: vec!["u".to_string()], offset: PlayOffset { position: 0 } }
    );
}

#[test]
fn followed_artists_come_with_a_cursor() {
    let answer = FollowedArtistsInner {
        artists: CursorPage {
            items: Some(vec![Artist {
                id: "a".to_string(),
                name: "A".to_string(),
                images: None,
                popularity: 3,
            }]),
            cursors: Some(Cursors { after: Some("next".to_string()) }),
            limit: Some(30),
            total: Some(1),
        },
    };
    let (artists, cursor) = get_followed_artists(Some(answer)).unwrap();
    assert_eq!(artists.len(), 1);
    assert_eq!(cursor, Some("next".to_string()));
}

#[test]
fn the_user_is_read() {
    let me = get_current_user(user(None));
    assert_eq!(me.id, "u");
    assert_eq!(me.display_name, "User");
    assert!(me.image_url.is_some());
}

#[test]
fn reads_name_their_entries() {
    let with = client(Some("t"));
    let (album, liked) = with.get_album("x");
    assert_eq!((album.key.as_str(), album.policy), ("album_x.json", CachePolicy::Default));
    assert_eq!((liked.key.as_str(), liked.policy), ("album_liked_x.json", CachePolicy::Revalidate));
    let (album, tracks) = with.get_album_tracks("x", 50, 20);
    assert_eq!(album.policy, CachePolicy::IgnoreExpiry);
    assert_eq!(tracks.key, "album_item_x_50_20.json");
    let (artist, albums, top) = with.get_artist("y", 30);
    assert_eq!(artist.key, "artist_y.json");
    assert_eq!(albums.key, "artist_albums_y_0_30.json");
    assert_eq!(top.key, "artist_top_tracks_y.json");
    let without = client(None);
    let (user, playlists) = without.get_user("z", 30);
    assert_eq!((user.key.as_str(), user.policy), ("user_z.json", CachePolicy::IgnoreExpiry));
    assert_eq!(playlists.key, "user_playlists_z_0_30.json");
    assert_eq!(without.get_album("x").1.policy, CachePolicy::IgnoreExpiry);
    assert_eq!(with.get_current_user().key, "me.json");
    assert_eq!(with.recently_played(20).key, "me_recently_played_20.json");
    assert_eq!(with.get_top_artists(20).key, "me_top_artists_20.json");
    assert_eq!(with.get_top_tracks(20).key, "me_top_tracks_20.json");
    assert_eq!(with.get_saved_albums(0, 50).key, "me_albums_0_50.json");
    assert_eq!(with.get_saved_tracks(0, 50).key, "me_tracks_0_50.json");
    assert_eq!(with.get_saved_playlists(0, 50).key, "me_playlists_0_50.json");
    assert_eq!(with.get_playlist("p").key, "playlist_p.json");
    assert_eq!(with.get_playlist_tracks("p", 0, 50).key, "playlist_item_p_0_50.json");
}

#[test]
fn requests_have_their_own_files() {
    let keys = [
        RiffCacheKey::SavedAlbums(1, 2),
        RiffCacheKey::SavedTracks(1, 2),
        RiffCacheKey::SavedPlaylists(1, 2),
        RiffCacheKey::SavedPlaylists(12, 2),
        RiffCacheKey::Album("liked"),
        RiffCacheKey::AlbumLiked("x"),
        RiffCacheKey::AlbumTracks("x", 1, 2),
        RiffCacheKey::Playlist("item"),
        RiffCacheKey::PlaylistTracks("x", 1, 2),
        RiffCacheKey::Artist("albums"),
        RiffCacheKey::ArtistAlbums("x", 1, 2),
        RiffCacheKey::ArtistTopTracks("x"),
        RiffCacheKey::User("playlists"),
        RiffCacheKey::UserPlaylists("x", 1, 2),
        RiffCacheKey::Me,
        RiffCacheKey::RecentlyPlayed(1),
        RiffCacheKey::TopArtists(1),
        RiffCacheKey::TopTracks(1),
    ];
    let mut names: Vec<String> = keys.iter().map(|key| key.into_raw()).collect();
    assert!(names.iter().all(|name| name.ends_with(".json")));
    names.sort();
    names.dedup();
    assert_eq!(names.len(), keys.len());
}

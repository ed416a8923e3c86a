use riff::card_model::{song_album_card, CardKind, CardModel};
use riff::models::{
    AlbumDescription, AlbumRef, ArtistRef, ArtistSummary, Batch, ImageSet, JumpBackContext,
    JumpBackKind, PlaylistDescription, SongBatch, SongDescription, UserRef,
};

#[test]
fn test_new_with_all_fields() {
    let img = "https://example.com/img.jpg".to_string();
    let card = CardModel::new("abc123", Some(&img), "My Title", "My Subtitle", None, None, None);
    assert_eq!(card.id, "abc123");
    assert_eq!(card.image, Some(img));
    assert_eq!(card.title, "My Title");
    assert_eq!(card.subtitle, "My Subtitle");
}

#[test]
fn test_new_without_image() {
    let card = CardModel::new("id1", None, "Title", "Sub", None, None, None);
    assert_eq!(card.image, None);
}

#[test]
fn test_set_properties() {
    let mut card = CardModel::new("id", None, "old", "old", None, None, None);
    card.title = "new title".to_string();
    card.subtitle = "new sub".to_string();
    assert_eq!(card.title, "new title");
    assert_eq!(card.subtitle, "new sub");
}

#[test]
fn test_release_date() {
    let card = CardModel::new("id", None, "T", "S", Some("2023-05-01"), None, None);
    assert_eq!(card.release_date, "2023-05-01");
}

#[test]
fn test_popularity() {
    let card = CardModel::new("id", None, "T", "S", None, Some(75u32), None);
    assert_eq!(card.popularity, 75);
}

#[test]
fn test_from_album_description() {
    let album = AlbumDescription {
        id: "album1".to_string(),
        title: "Album Title".to_string(),
        artists: vec![
            ArtistRef { id: "a1".to_string(), name: "Artist A".to_string() },
            ArtistRef { id: "a2".to_string(), name: "Artist B".to_string() },
        ],
        release_date: Some("2023-05-01".to_string()),
        art: ImageSet::from_images(vec![(Some(300), "https://img.com/cover.jpg".to_string())]),
        songs: SongBatch::empty(),
        is_liked: false,
        popularity: 72,
    };
    let card = CardModel::from(&album);
    assert_eq!(card.id, "album1");
    assert_eq!(card.title, "Album Title");
    assert_eq!(card.subtitle, "Artist A, Artist B");
    assert_eq!(card.image, Some("https://img.com/cover.jpg".to_string()));
}

fn playlist(total: usize) -> PlaylistDescription {
    PlaylistDescription {
        id: "pl1".to_string(),
        title: "My Playlist".to_string(),
        art: None,
        songs: SongBatch { songs: vec![], batch: Batch { offset: 0, batch_size: 50, total } },
        owner: UserRef { id: "user1".to_string(), display_name: "John".to_string() },
        snapshot_id: None,
    }
}

#[test]
fn test_from_playlist_description() {
    let playlist = PlaylistDescription { songs: SongBatch::empty(), ..playlist(0) };
    let card = CardModel::from(&playlist);
    assert_eq!(card.id, "pl1");
    assert_eq!(card.title, "My Playlist");
    assert_eq!(card.subtitle, "John");
    assert_eq!(card.image, None);
}

#[test]
fn test_from_artist_summary() {
    let artist = ArtistSummary {
        id: "art1".to_string(),
        name: "Cool Artist".to_string(),
        photo: ImageSet::from_images(vec![(Some(300), "https://img.com/photo.jpg".to_string())]),
        popularity: 85,
    };
    let card = CardModel::from(&artist);
    assert_eq!(card.id, "art1");
    assert_eq!(card.title, "Cool Artist");
    assert_eq!(card.subtitle, "");
    assert_eq!(card.image, Some("https://img.com/photo.jpg".to_string()));
}

#[test]
fn test_from_artist_summary_no_photo() {
    let artist = ArtistSummary {
        id: "art2".to_string(),
        name: "No Photo".to_string(),
        photo: None,
        popularity: 0,
    };
    let card = CardModel::from(&artist);
    assert_eq!(card.image, None);
}

#[test]
fn kinds_and_counts_go_along() {
    let card = CardModel::from(&playlist(37));
    assert_eq!(card.kind, CardKind::Playlist);
    assert_eq!(card.track_count, 37);
    assert!(!card.is_round);

    let artist = ArtistSummary {
        id: "a".to_string(),
        name: "A".to_string(),
        photo: None,
        popularity: 85,
    };
    let card = CardModel::from(&artist);
    assert_eq!(card.kind, CardKind::Artist);
    assert_eq!(card.popularity, 85);
    assert!(card.is_round);

    let context = JumpBackContext {
        kind: JumpBackKind::Album,
        id: "alb".to_string(),
        title: "Album".to_string(),
        subtitle: "Artist".to_string(),
        art: None,
    };
    let card = CardModel::from(&context);
    assert_eq!(card.kind, CardKind::Album);
    assert_eq!(card.subtitle, "Artist");
}

#[test]
fn missing_titles_are_replaced() {
    let card = CardModel::new("id", None, "", "", None, None, None);
    assert_eq!(card.title, "Untitled");
    let placeholder = CardModel::new("", None, "", "", None, None, None);
    assert_eq!(placeholder.title, "");
}

#[test]
fn song_cards_open_the_song_or_the_album() {
    let song = SongDescription {
        id: "s".to_string(),
        uri: "spotify:track:s".to_string(),
        title: "Song".to_string(),
        artists: vec![ArtistRef { id: "a".to_string(), name: "Artist".to_string() }],
        album: AlbumRef { id: "alb".to_string(), name: "Album".to_string() },
        duration_ms: 1,
        art: None,
        track_number: None,
    };
    let card = CardModel::from(&song);
    assert_eq!(card.id, "s");
    assert_eq!(card.kind, CardKind::Untyped);
    assert_eq!(card.subtitle, "Artist");
    let card = song_album_card(&song);
    assert_eq!(card.id, "alb");
    assert_eq!(card.kind, CardKind::Album);
    assert_eq!(card.title, "Song");
}

#[test]
fn kinds_round_trip_through_their_numbers() {
    for kind in [CardKind::Untyped, CardKind::Album, CardKind::Playlist, CardKind::Artist] {
        assert_eq!(CardKind::from_u8(kind.to_u8()), kind);
    }
    assert_eq!(CardKind::from_u8(200), CardKind::Untyped);
    assert_eq!(CardKind::Album.label(), Some("Album".to_string()));
    assert_eq!(CardKind::Untyped.label(), None);
}

#[test]
fn pictures_are_chosen_by_width() {
    let set = ImageSet::from_images(vec![
        (Some(64), "small".to_string()),
        (Some(640), "large".to_string()),
        (Some(300), "medium".to_string()),
    ])
    .unwrap();
    assert_eq!(set.best_for_width(180), Some("medium"));
    assert_eq!(set.best_for_width(48), Some("small"));
    assert_eq!(set.best_for_width(1000), Some("large"));
    assert!(ImageSet::from_images(vec![]).is_none());
}

//! Cards: what is shown of an album, a playlist, an artist or a song.

use vstd::prelude::*;

use crate::models;
use crate::models::{
    art_url, AlbumDescription, AlbumDescriptionView, ArtistSummary, ArtistSummaryView,
    JumpBackContext, JumpBackContextView, JumpBackKind, PlaylistDescription,
    PlaylistDescriptionView, SongDescription, SongDescriptionView,
};
use crate::text;
use crate::text::gettext;

verus! {

/// The width in pixels at which the pictures of cards are fetched.
pub const IMAGE_SIZE: u32 = 180;

/// What a card stands for. A song's card is untyped.
#[derive(Clone, Copy, Debug, PartialEq, Eq, Structural)]
pub enum CardKind {
    Untyped,
    Album,
    Playlist,
    Artist,
}

impl CardKind {
    /// The English label of the kind, which is also its message id; an untyped
    /// card has none.
    pub open spec fn spec_msgid(self) -> Option<Seq<char>> {
        match self {
            CardKind::Untyped => None,
            CardKind::Album => Some("Album"@),
            CardKind::Playlist => Some("Playlist"@),
            CardKind::Artist => Some("Artist"@),
        }
    }

    /// The English label of the kind, which is also its message id.
    pub fn msgid(self) -> (r: Option<&'static str>)
        ensures
            match r {
                Some(id) => self.spec_msgid() == Some(id@) && text::no_nul(id@),
                None => self.spec_msgid() is None,
            },
    {
        proof {
            reveal_strlit("Album");
            reveal_strlit("Playlist");
            reveal_strlit("Artist");
        }
        match self {
            CardKind::Untyped => None,
            CardKind::Album => Some("Album"),
            CardKind::Playlist => Some("Playlist"),
            CardKind::Artist => Some("Artist"),
        }
    }

    /// The text is a label of the kind; a kind without a message has none.
    pub open spec fn is_label(self, label: Option<Seq<char>>) -> bool {
        match (self.spec_msgid(), label) {
            (Some(msgid), Some(text)) => text::translates(text, msgid),
            (None, None) => true,
            _ => false,
        }
    }

    /// The label of the kind in the user's language, if it has one: a translation
    /// of `msgid`.
    pub fn label(self) -> (r: Option<String>)
        ensures
            self.is_label(r.deep_view()),
    {
        match self.msgid() {
            Some(id) => Some(gettext(id)),
            None => None,
        }
    }

    /// The number that stands for the kind.
    pub open spec fn number(self) -> int {
        match self {
            CardKind::Untyped => 0,
            CardKind::Album => 1,
            CardKind::Playlist => 2,
            CardKind::Artist => 3,
        }
    }

    /// The number that stands for the kind.
    pub fn to_u8(self) -> (r: u8)
        ensures
            r == self.number(),
    {
        match self {
            CardKind::Untyped => 0,
            CardKind::Album => 1,
            CardKind::Playlist => 2,
            CardKind::Artist => 3,
        }
    }

    /// The kind that a number stands for; an unknown number stands for none.
    pub fn from_u8(value: u8) -> (r: CardKind)
        ensures
            value < 4 ==> r.number() == value,
            value >= 4 ==> r == CardKind::Untyped,
    {
        match value {
            1 => CardKind::Album,
            2 => CardKind::Playlist,
            3 => CardKind::Artist,
            _ => CardKind::Untyped,
        }
    }
}

/// No two kinds have the same number, so a kind is read back as it was written.
pub proof fn law_card_kind_numbers(a: CardKind, b: CardKind)
    ensures
        0 <= a.number() < 4,
        a.number() == b.number() <==> a == b,
{
}

/// A card.
#[derive(Debug, PartialEq, Eq)]
pub struct CardModel {
    pub id: String,
    /// The address of the picture.
    pub image: Option<String>,
    pub title: String,
    pub subtitle: String,
    pub release_date: String,
    pub popularity: u32,
    /// The place of the card among those it was added with; 0 if it has none yet.
    pub insertion_position: u32,
    pub snapshot_id: Option<String>,
    /// The number of tracks; 0 if it is not known.
    pub track_count: u32,
    pub kind: CardKind,
    /// Whether the picture is shown round.
    pub is_round: bool,
    /// Whether the card is kept at the top of its list.
    pub pinned: bool,
}

/// The contents of a `CardModel`.
pub struct CardModelView {
    pub id: Seq<char>,
    pub image: Option<Seq<char>>,
    pub title: Seq<char>,
    pub subtitle: Seq<char>,
    pub release_date: Seq<char>,
    pub popularity: u32,
    pub insertion_position: u32,
    pub snapshot_id: Option<Seq<char>>,
    pub track_count: u32,
    pub kind: CardKind,
    pub is_round: bool,
    pub pinned: bool,
}

impl DeepView for CardModel {
    type V = CardModelView;

    open spec fn deep_view(&self) -> CardModelView {
        CardModelView {
            id: self.id@,
            image: self.image.deep_view(),
            title: self.title@,
            subtitle: self.subtitle@,
            release_date: self.release_date@,
            popularity: self.popularity,
            insertion_position: self.insertion_position,
            snapshot_id: self.snapshot_id.deep_view(),
            track_count: self.track_count,
            kind: self.kind,
            is_round: self.is_round,
            pinned: self.pinned,
        }
    }
}

impl Clone for CardModel {
    fn clone(&self) -> (r: Self)
        ensures
            r.deep_view() == self.deep_view(),
    {
        CardModel {
            id: self.id.clone(),
            image: self.image.clone(),
            title: self.title.clone(),
            subtitle: self.subtitle.clone(),
            release_date: self.release_date.clone(),
            popularity: self.popularity,
            insertion_position: self.insertion_position,
            snapshot_id: self.snapshot_id.clone(),
            track_count: self.track_count,
            kind: self.kind,
            is_round: self.is_round,
            pinned: self.pinned,
        }
    }
}

/// An item of the library, as its menu shows it.
#[derive(Debug, PartialEq, Eq)]
pub struct LibraryItem {
    pub id: String,
    pub title: String,
    pub subtitle: String,
    pub art: Option<String>,
    pub kind: CardKind,
    pub pinned: bool,
}

/// The contents of a `LibraryItem`.
pub struct LibraryItemView {
    pub id: Seq<char>,
    pub title: Seq<char>,
    pub subtitle: Seq<char>,
    pub art: Option<Seq<char>>,
    pub kind: CardKind,
    pub pinned: bool,
}

impl DeepView for LibraryItem {
    type V = LibraryItemView;

    open spec fn deep_view(&self) -> LibraryItemView {
        LibraryItemView {
            id: self.id@,
            title: self.title@,
            subtitle: self.subtitle@,
            art: self.art.deep_view(),
            kind: self.kind,
            pinned: self.pinned,
        }
    }
}

impl Clone for LibraryItem {
    fn clone(&self) -> (r: Self)
        ensures
            r.deep_view() == self.deep_view(),
    {
        LibraryItem {
            id: self.id.clone(),
            title: self.title.clone(),
            subtitle: self.subtitle.clone(),
            art: self.art.clone(),
            kind: self.kind,
            pinned: self.pinned,
        }
    }
}

/// The title that a card shows: an item with an id but without a title is shown
/// with the translation of "Untitled".
pub open spec fn shown_title(
    id: Seq<char>,
    title: Seq<char>,
    untitled: Seq<char>,
) -> Seq<char> {
    if title.len() == 0 && id.len() > 0 {
        untitled
    } else {
        title
    }
}

/// A fresh card with the given contents.
pub open spec fn new_card(
    id: Seq<char>,
    image: Option<Seq<char>>,
    title: Seq<char>,
    subtitle: Seq<char>,
    release_date: Option<Seq<char>>,
    popularity: Option<u32>,
    insertion_position: Option<u32>,
) -> CardModelView {
    CardModelView {
        id,
        image,
        title,
        subtitle,
        release_date: match release_date {
            Some(date) => date,
            None => Seq::empty(),
        },
        popularity: match popularity {
            Some(p) => p,
            None => 0,
        },
        insertion_position: match insertion_position {
            Some(p) => p,
            None => 0,
        },
        snapshot_id: None,
        track_count: 0,
        kind: CardKind::Untyped,
        is_round: false,
        pinned: false,
    }
}

impl CardModel {
    /// The card with the given contents. `untitled` stands in for a missing title.
    pub fn with_title_or(
        untitled: &str,
        id: &str,
        image: Option<String>,
        title: &str,
        subtitle: &str,
        release_date: Option<&str>,
        popularity: Option<u32>,
        insertion_position: Option<u32>,
    ) -> (r: CardModel)
        ensures
            r.deep_view() == new_card(
                id@,
                image.deep_view(),
                shown_title(id@, title@, untitled@),
                subtitle@,
                match release_date {
                    Some(date) => Some(date@),
                    None => None,
                },
                popularity,
                insertion_position,
            ),
    {
        let shown: String = if title.is_empty() && !id.is_empty() {
            untitled.to_string()
        } else {
            title.to_string()
        };
        CardModel {
            id: id.to_string(),
            image,
            title: shown,
            subtitle: subtitle.to_string(),
            release_date: match release_date {
                Some(date) => date.to_string(),
                None => String::new(),
            },
            popularity: match popularity {
                Some(p) => p,
                None => 0,
            },
            insertion_position: match insertion_position {
                Some(p) => p,
                None => 0,
            },
            snapshot_id: None,
            track_count: 0,
            kind: CardKind::Untyped,
            is_round: false,
            pinned: false,
        }
    }

    /// The card with the given contents. A missing title of an item with an id is
    /// replaced by the translation of "Untitled".
    pub fn new(
        id: &str,
        image: Option<&String>,
        title: &str,
        subtitle: &str,
        release_date: Option<&str>,
        popularity: Option<u32>,
        insertion_position: Option<u32>,
    ) -> (r: CardModel)
        ensures
            r.deep_view() == new_card(
                id@,
                match image {
                    Some(url) => Some(url@),
                    None => None,
                },
                r.title@,
                subtitle@,
                match release_date {
                    Some(date) => Some(date@),
                    None => None,
                },
                popularity,
                insertion_position,
            ),
            is_title_of(r.title@, id@, title@),
    {
        let untitled: String = untitled();
        CardModel::with_title_or(
            untitled.as_str(),
            id,
            image.cloned(),
            title,
            subtitle,
            release_date,
            popularity,
            insertion_position,
        )
    }

    /// The card with the given kind.
    pub fn with_kind(self, kind: CardKind) -> (r: CardModel)
        ensures
            r == (CardModel { kind, ..self }),
    {
        CardModel { kind, ..self }
    }

    /// The card with the given number of tracks.
    pub fn with_track_count(self, count: u32) -> (r: CardModel)
        ensures
            r == (CardModel { track_count: count, ..self }),
    {
        CardModel { track_count: count, ..self }
    }

    /// The card with a round picture, or not.
    pub fn with_round_image(self, round: bool) -> (r: CardModel)
        ensures
            r == (CardModel { is_round: round, ..self }),
    {
        CardModel { is_round: round, ..self }
    }

    /// The card with the given snapshot id.
    pub fn with_snapshot_id(self, snapshot_id: Option<String>) -> (r: CardModel)
        ensures
            r == (CardModel { snapshot_id, ..self }),
    {
        CardModel { snapshot_id, ..self }
    }

    /// What the card stands for.
    pub fn card_kind(&self) -> (r: CardKind)
        ensures
            r == self.kind,
    {
        self.kind
    }
}

/// The card of an album whose title is shown as `title`.
pub open spec fn album_card(album: AlbumDescriptionView, title: Seq<char>) -> CardModelView {
    CardModelView {
        kind: CardKind::Album,
        track_count: album.songs.batch.total as u32,
        ..new_card(
            album.id,
            models::best_url(album.art, IMAGE_SIZE),
            title,
            models::artists_line(album.artists),
            album.release_date,
            Some(album.popularity),
            None,
        )
    }
}

/// The card of a playlist whose title is shown as `title`.
pub open spec fn playlist_card(
    playlist: PlaylistDescriptionView,
    title: Seq<char>,
) -> CardModelView {
    CardModelView {
        kind: CardKind::Playlist,
        track_count: playlist.songs.batch.total as u32,
        snapshot_id: playlist.snapshot_id,
        ..new_card(
            playlist.id,
            models::best_url(playlist.art, IMAGE_SIZE),
            title,
            playlist.owner.display_name,
            None,
            None,
            None,
        )
    }
}

/// The card of an artist whose name is shown as `title`: with a round picture.
pub open spec fn artist_card(artist: ArtistSummaryView, title: Seq<char>) -> CardModelView {
    CardModelView {
        kind: CardKind::Artist,
        is_round: true,
        ..new_card(
            artist.id,
            models::best_url(artist.photo, IMAGE_SIZE),
            title,
            Seq::empty(),
            None,
            Some(artist.popularity),
            None,
        )
    }
}

/// The card of something that was listened to lately.
pub open spec fn jump_back_card(context: JumpBackContextView, title: Seq<char>) -> CardModelView {
    CardModelView {
        kind: match context.kind {
            JumpBackKind::Album => CardKind::Album,
            JumpBackKind::Playlist => CardKind::Playlist,
        },
        ..new_card(
            context.id,
            models::best_url(context.art, IMAGE_SIZE),
            title,
            context.subtitle,
            None,
            None,
            None,
        )
    }
}

/// The card of a song.
pub open spec fn song_card(song: SongDescriptionView, title: Seq<char>) -> CardModelView {
    new_card(
        song.id,
        models::best_url(song.art, IMAGE_SIZE),
        title,
        models::artists_line(song.artists),
        None,
        None,
        None,
    )
}

/// The card of a song that stands for its album: it shows the song but opens
/// the album, since a song has no page of its own.
pub open spec fn song_album_card_view(song: SongDescriptionView, title: Seq<char>) -> CardModelView {
    CardModelView {
        kind: CardKind::Album,
        ..new_card(
            song.album.id,
            models::best_url(song.art, IMAGE_SIZE),
            title,
            models::artists_line(song.artists),
            None,
            None,
            None,
        )
    }
}

/// A title is shown as it is, unless it is missing from an item with an id; what
/// is shown then is a translation of "Untitled".
pub open spec fn is_title_of(shown: Seq<char>, id: Seq<char>, title: Seq<char>) -> bool {
    if title.len() == 0 && id.len() > 0 {
        text::translates(shown, "Untitled"@)
    } else {
        shown == title
    }
}

/// The card of an album, with `untitled` for a missing title.
pub fn card_of_album(untitled: &str, album: &AlbumDescription) -> (r: CardModel)
    ensures
        r.deep_view() == album_card(
            album.deep_view(),
            shown_title(album.id@, album.title@, untitled@),
        ),
{
    let date: Option<&str> = match &album.release_date {
        Some(d) => Some(d.as_str()),
        None => None,
    };
    CardModel::with_title_or(
        untitled,
        album.id.as_str(),
        art_url(&album.art, IMAGE_SIZE),
        album.title.as_str(),
        album.artists_name().as_str(),
        date,
        Some(album.popularity),
        None,
    ).with_kind(CardKind::Album).with_track_count(
        #[verifier::truncate]
        (album.songs.batch.total as u32),
    )
}

/// The card of a playlist, with `untitled` for a missing title.
pub fn card_of_playlist(untitled: &str, playlist: &PlaylistDescription) -> (r: CardModel)
    ensures
        r.deep_view() == playlist_card(
            playlist.deep_view(),
            shown_title(playlist.id@, playlist.title@, untitled@),
        ),
{
    CardModel::with_title_or(
        untitled,
        playlist.id.as_str(),
        art_url(&playlist.art, IMAGE_SIZE),
        playlist.title.as_str(),
        playlist.owner.display_name.as_str(),
        None,
        None,
        None,
    ).with_kind(CardKind::Playlist).with_track_count(
        #[verifier::truncate]
        (playlist.songs.batch.total as u32),
    ).with_snapshot_id(playlist.snapshot_id.clone())
}

/// The card of an artist, with `untitled` for a missing name.
pub fn card_of_artist(untitled: &str, artist: &ArtistSummary) -> (r: CardModel)
    ensures
        r.deep_view() == artist_card(
            artist.deep_view(),
            shown_title(artist.id@, artist.name@, untitled@),
        ),
{
    proof {
        reveal_strlit("");
        assert(""@ =~= Seq::<char>::empty());
    }
    CardModel::with_title_or(
        untitled,
        artist.id.as_str(),
        art_url(&artist.photo, IMAGE_SIZE),
        artist.name.as_str(),
        "",
        None,
        Some(artist.popularity),
        None,
    ).with_kind(CardKind::Artist).with_round_image(true)
}

/// The card of something that was listened to lately.
pub fn card_of_context(untitled: &str, context: &JumpBackContext) -> (r: CardModel)
    ensures
        r.deep_view() == jump_back_card(
            context.deep_view(),
            shown_title(context.id@, context.title@, untitled@),
        ),
{
    let kind = match context.kind {
        JumpBackKind::Album => CardKind::Album,
        JumpBackKind::Playlist => CardKind::Playlist,
    };
    CardModel::with_title_or(
        untitled,
        context.id.as_str(),
        art_url(&context.art, IMAGE_SIZE),
        context.title.as_str(),
        context.subtitle.as_str(),
        None,
        None,
        None,
    ).with_kind(kind)
}

/// The card of a song.
pub fn card_of_song(untitled: &str, song: &SongDescription) -> (r: CardModel)
    ensures
        r.deep_view() == song_card(
            song.deep_view(),
            shown_title(song.id@, song.title@, untitled@),
        ),
{
    CardModel::with_title_or(
        untitled,
        song.id.as_str(),
        art_url(&song.art, IMAGE_SIZE),
        song.title.as_str(),
        song.artists_name().as_str(),
        None,
        None,
        None,
    )
}

/// A translation of "Untitled".
pub fn untitled() -> (r: String)
    ensures
        text::translates(r@, "Untitled"@),
{
    proof {
        reveal_strlit("Untitled");
    }
    gettext("Untitled")
}

impl From<&AlbumDescription> for CardModel {
    fn from(album: &AlbumDescription) -> (r: CardModel)
        ensures
            r.deep_view() == album_card(album.deep_view(), r.title@),
            is_title_of(r.title@, album.id@, album.title@),
    {
        card_of_album(untitled().as_str(), album)
    }
}

impl vstd::std_specs::convert::FromSpecImpl<&AlbumDescription> for CardModel {
    open spec fn obeys_from_spec() -> bool {
        false
    }

    open spec fn from_spec(album: &AlbumDescription) -> CardModel {
        arbitrary()
    }
}

impl From<&PlaylistDescription> for CardModel {
    fn from(playlist: &PlaylistDescription) -> (r: CardModel)
        ensures
            r.deep_view() == playlist_card(playlist.deep_view(), r.title@),
            is_title_of(r.title@, playlist.id@, playlist.title@),
    {
        card_of_playlist(untitled().as_str(), playlist)
    }
}

impl vstd::std_specs::convert::FromSpecImpl<&PlaylistDescription> for CardModel {
    open spec fn obeys_from_spec() -> bool {
        false
    }

    open spec fn from_spec(playlist: &PlaylistDescription) -> CardModel {
        arbitrary()
    }
}

impl From<&ArtistSummary> for CardModel {
    fn from(artist: &ArtistSummary) -> (r: CardModel)
        ensures
            r.deep_view() == artist_card(artist.deep_view(), r.title@),
            is_title_of(r.title@, artist.id@, artist.name@),
    {
        card_of_artist(untitled().as_str(), artist)
    }
}

impl vstd::std_specs::convert::FromSpecImpl<&ArtistSummary> for CardModel {
    open spec fn obeys_from_spec() -> bool {
        false
    }

    open spec fn from_spec(artist: &ArtistSummary) -> CardModel {
        arbitrary()
    }
}

impl From<&JumpBackContext> for CardModel {
    fn from(context: &JumpBackContext) -> (r: CardModel)
        ensures
            r.deep_view() == jump_back_card(context.deep_view(), r.title@),
            is_title_of(r.title@, context.id@, context.title@),
    {
        card_of_context(untitled().as_str(), context)
    }
}

impl vstd::std_specs::convert::FromSpecImpl<&JumpBackContext> for CardModel {
    open spec fn obeys_from_spec() -> bool {
        false
    }

    open spec fn from_spec(context: &JumpBackContext) -> CardModel {
        arbitrary()
    }
}

impl From<&SongDescription> for CardModel {
    fn from(song: &SongDescription) -> (r: CardModel)
        ensures
            r.deep_view() == song_card(song.deep_view(), r.title@),
            is_title_of(r.title@, song.id@, song.title@),
    {
        card_of_song(untitled().as_str(), song)
    }
}

impl vstd::std_specs::convert::FromSpecImpl<&SongDescription> for CardModel {
    open spec fn obeys_from_spec() -> bool {
        false
    }

    open spec fn from_spec(song: &SongDescription) -> CardModel {
        arbitrary()
    }
}

/// The card of a song that stands for its album.
pub fn song_album_card(song: &SongDescription) -> (r: CardModel)
    ensures
        r.deep_view() == song_album_card_view(song.deep_view(), r.title@),
        is_title_of(r.title@, song.album.id@, song.title@),
{
    CardModel::with_title_or(
        untitled().as_str(),
        song.album.id.as_str(),
        art_url(&song.art, IMAGE_SIZE),
        song.title.as_str(),
        song.artists_name().as_str(),
        None,
        None,
        None,
    ).with_kind(CardKind::Album)
}

// ── Laws ───────────────────────────────────────────────────────────────────

/// The card of an album has the album's id, title, artists, picture, date,
/// popularity and number of tracks, and is that of an album.
pub proof fn law_album_card_shows_the_album(album: AlbumDescription, card: CardModel)
    requires
        card.deep_view() == album_card(album.deep_view(), card.title@),
        is_title_of(card.title@, album.id@, album.title@),
    ensures
        card.kind == CardKind::Album,
        card.id@ == album.id@,
        album.title@.len() > 0 ==> card.title@ == album.title@,
        album.title@.len() == 0 && album.id@.len() > 0 ==> text::translates(
            card.title@,
            "Untitled"@,
        ),
        card.subtitle@ == models::artists_line(album.artists.deep_view()),
        card.image.deep_view() == models::best_url(album.art.deep_view(), 180),
        album.release_date matches Some(date) ==> card.release_date@ == date@,
        album.release_date is None ==> card.release_date@.len() == 0,
        card.popularity == album.popularity,
        album.songs.batch.total <= u32::MAX ==> card.track_count == album.songs.batch.total,
        card.snapshot_id is None,
        card.insertion_position == 0,
        !card.is_round,
        !card.pinned,
{
}

/// The card of a playlist has the playlist's id, title, owner, picture, version and
/// number of tracks, and is that of a playlist.
pub proof fn law_playlist_card_shows_the_playlist(playlist: PlaylistDescription, card: CardModel)
    requires
        card.deep_view() == playlist_card(playlist.deep_view(), card.title@),
        is_title_of(card.title@, playlist.id@, playlist.title@),
    ensures
        card.kind == CardKind::Playlist,
        card.id@ == playlist.id@,
        playlist.title@.len() > 0 ==> card.title@ == playlist.title@,
        playlist.title@.len() == 0 && playlist.id@.len() > 0 ==> text::translates(
            card.title@,
            "Untitled"@,
        ),
        card.subtitle@ == playlist.owner.display_name@,
        card.image.deep_view() == models::best_url(playlist.art.deep_view(), 180),
        card.snapshot_id.deep_view() == playlist.snapshot_id.deep_view(),
        playlist.songs.batch.total <= u32::MAX ==> card.track_count == playlist.songs.batch.total,
        card.release_date@.len() == 0,
        card.popularity == 0,
        card.insertion_position == 0,
        !card.is_round,
        !card.pinned,
{
}

/// The card of an artist has the artist's id, name, photo and popularity, is that
/// of an artist, and is the only one with a round picture.
pub proof fn law_artist_card_shows_the_artist(artist: ArtistSummary, card: CardModel)
    requires
        card.deep_view() == artist_card(artist.deep_view(), card.title@),
        is_title_of(card.title@, artist.id@, artist.name@),
    ensures
        card.kind == CardKind::Artist,
        card.id@ == artist.id@,
        artist.name@.len() > 0 ==> card.title@ == artist.name@,
        artist.name@.len() == 0 && artist.id@.len() > 0 ==> text::translates(
            card.title@,
            "Untitled"@,
        ),
        card.subtitle@.len() == 0,
        card.image.deep_view() == models::best_url(artist.photo.deep_view(), 180),
        card.popularity == artist.popularity,
        card.is_round,
        card.release_date@.len() == 0,
        card.track_count == 0,
        card.insertion_position == 0,
        card.snapshot_id is None,
        !card.pinned,
{
}

/// The card of something that was listened to lately opens that album or playlist.
pub proof fn law_context_card_shows_the_context(context: JumpBackContext, card: CardModel)
    requires
        card.deep_view() == jump_back_card(context.deep_view(), card.title@),
        is_title_of(card.title@, context.id@, context.title@),
    ensures
        context.kind == JumpBackKind::Album ==> card.kind == CardKind::Album,
        context.kind == JumpBackKind::Playlist ==> card.kind == CardKind::Playlist,
        card.id@ == context.id@,
        context.title@.len() > 0 ==> card.title@ == context.title@,
        card.subtitle@ == context.subtitle@,
        card.image.deep_view() == models::best_url(context.art.deep_view(), 180),
        card.track_count == 0,
        card.popularity == 0,
        !card.is_round,
        !card.pinned,
{
}

/// The card of a song shows the song and has its id; the one that stands for its
/// album shows the same and has the id and the kind of the album.
pub proof fn law_song_cards_show_the_song(
    song: SongDescription,
    card: CardModel,
    album: CardModel,
)
    requires
        card.deep_view() == song_card(song.deep_view(), card.title@),
        is_title_of(card.title@, song.id@, song.title@),
        album.deep_view() == song_album_card_view(song.deep_view(), album.title@),
        is_title_of(album.title@, song.album.id@, song.title@),
    ensures
        card.id@ == song.id@,
        card.kind == CardKind::Untyped,
        album.id@ == song.album.id@,
        album.kind == CardKind::Album,
        song.title@.len() > 0 ==> card.title@ == song.title@ && album.title@ == song.title@,
        card.subtitle@ == models::artists_line(song.artists.deep_view()),
        album.subtitle@ == models::artists_line(song.artists.deep_view()),
        card.image.deep_view() == models::best_url(song.art.deep_view(), 180),
        album.image.deep_view() == models::best_url(song.art.deep_view(), 180),
        !card.is_round && !album.is_round,
        !card.pinned && !album.pinned,
        card.track_count == 0 && album.track_count == 0,
{
}

/// A missing title is replaced, and only that of something with an id.
pub proof fn law_only_missing_titles_are_replaced(
    id: Seq<char>,
    title: Seq<char>,
    untitled: Seq<char>,
)
    ensures
        title.len() > 0 ==> shown_title(id, title, untitled) == title,
        title.len() == 0 && id.len() > 0 ==> shown_title(id, title, untitled) == untitled,
        title.len() == 0 && id.len() == 0 ==> shown_title(id, title, untitled).len() == 0,
{
}

/// A fresh card holds what it is made of, each thing in its place; what is not
/// given is empty or zero.
pub proof fn law_new_card_holds_what_it_is_made_of(
    id: Seq<char>,
    image: Option<Seq<char>>,
    title: Seq<char>,
    subtitle: Seq<char>,
    release_date: Option<Seq<char>>,
    popularity: Option<u32>,
    insertion_position: Option<u32>,
)
    ensures
        ({
            let card = new_card(
                id,
                image,
                title,
                subtitle,
                release_date,
                popularity,
                insertion_position,
            );
            &&& card.id == id
            &&& card.image == image
            &&& card.title == title
            &&& card.subtitle == subtitle
            &&& release_date is Some ==> card.release_date == release_date->0
            &&& release_date is None ==> card.release_date.len() == 0
            &&& popularity is Some ==> card.popularity == popularity->0
            &&& popularity is None ==> card.popularity == 0
            &&& insertion_position is Some ==> card.insertion_position == insertion_position->0
            &&& insertion_position is None ==> card.insertion_position == 0
            &&& card.kind == CardKind::Untyped
            &&& card.track_count == 0
            &&& !card.is_round
            &&& !card.pinned
        }),
{
}

/// Kinds are shown by their own names, and kept under the numbers 1 to 3 for albums,
/// playlists and artists.
pub proof fn law_kinds_have_their_names(label: Seq<char>)
    ensures
        CardKind::Album.is_label(Some(label)) <==> text::translates(label, "Album"@),
        CardKind::Playlist.is_label(Some(label)) <==> text::translates(label, "Playlist"@),
        CardKind::Artist.is_label(Some(label)) <==> text::translates(label, "Artist"@),
        !CardKind::Untyped.is_label(Some(label)),
        CardKind::Untyped.is_label(None),
        CardKind::Untyped.number() == 0,
        CardKind::Album.number() == 1,
        CardKind::Playlist.number() == 2,
        CardKind::Artist.number() == 3,
{
}

/// The view of a `CardModel` holds its parts, each under its own name.
pub proof fn law_view_of_card_model(value: CardModel)
    ensures
        value.deep_view().id == value.id@,
        value.deep_view().image == value.image.deep_view(),
        value.deep_view().title == value.title@,
        value.deep_view().subtitle == value.subtitle@,
        value.deep_view().release_date == value.release_date@,
        value.deep_view().popularity == value.popularity,
        value.deep_view().insertion_position == value.insertion_position,
        value.deep_view().snapshot_id == value.snapshot_id.deep_view(),
        value.deep_view().track_count == value.track_count,
        value.deep_view().kind == value.kind,
        value.deep_view().is_round == value.is_round,
        value.deep_view().pinned == value.pinned,
{
}

/// The view of a `LibraryItem` holds its parts, each under its own name.
pub proof fn law_view_of_library_item(value: LibraryItem)
    ensures
        value.deep_view().id == value.id@,
        value.deep_view().title == value.title@,
        value.deep_view().subtitle == value.subtitle@,
        value.deep_view().art == value.art.deep_view(),
        value.deep_view().kind == value.kind,
        value.deep_view().pinned == value.pinned,
{
}

/// Cards have pictures of this size.
pub proof fn law_cards_have_a_picture_size()
    ensures
        IMAGE_SIZE == 180,
{
}

} // verus!

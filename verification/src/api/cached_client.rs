//! What the client asks of the web API and its cache, and what it makes of the
//! answers.
//!
//! Sending requests, reading the cache and decoding JSON is the program's part;
//! the functions here name what to ask for and combine what came back.

use vstd::prelude::*;

use crate::text;
use crate::text::{cat, cat3, decimal_of};

verus! {

// ── Errors ─────────────────────────────────────────────────────────────────

/// Why a request to the web API failed.
#[derive(Debug, PartialEq, Eq)]
pub enum SpotifyApiError {
    /// There is no access token.
    NoToken,
    /// The access token was refused.
    InvalidToken,
    /// The answer held nothing.
    NoContent,
    /// The service answered with an error status.
    BadStatus(u16, String),
    /// The answer could not be read.
    ParseError,
    /// The service could not be reached.
    ConnectionError,
}

/// The outcome of a request to the web API.
pub type SpotifyResult<T> = Result<T, SpotifyApiError>;

/// What an answer without contents means.
pub fn required<T>(content: Option<T>) -> (r: SpotifyResult<T>)
    ensures
        match content {
            Some(t) => r == Ok::<T, SpotifyApiError>(t),
            None => r == Err::<T, SpotifyApiError>(SpotifyApiError::NoContent),
        },
{
    match content {
        Some(t) => Ok(t),
        None => Err(SpotifyApiError::NoContent),
    }
}

// ── Cache keys ─────────────────────────────────────────────────────────────

/// What an answer is filed under.
#[derive(Clone, Copy, Debug, PartialEq, Eq)]
pub enum RiffCacheKey<'a> {
    SavedAlbums(usize, usize),
    SavedTracks(usize, usize),
    SavedPlaylists(usize, usize),
    Album(&'a str),
    AlbumLiked(&'a str),
    AlbumTracks(&'a str, usize, usize),
    Playlist(&'a str),
    PlaylistTracks(&'a str, usize, usize),
    ArtistAlbums(&'a str, usize, usize),
    Artist(&'a str),
    ArtistTopTracks(&'a str),
    User(&'a str),
    Me,
    UserPlaylists(&'a str, usize, usize),
    RecentlyPlayed(usize),
    TopArtists(usize),
    TopTracks(usize),
}

/// The end of the file name of a page: where it starts and how long it is.
pub open spec fn page_suffix(offset: nat, limit: nat) -> Seq<char> {
    "_"@ + text::decimal(offset) + "_"@ + text::decimal(limit) + ".json"@
}

/// The end of the file name of a page.
pub fn page_suffix_of(offset: usize, limit: usize) -> (r: String)
    ensures
        r@ == page_suffix(offset as nat, limit as nat),
{
    let first: String = cat("_", decimal_of(offset).as_str());
    let both: String = cat3(first.as_str(), "_", decimal_of(limit).as_str());
    let r: String = cat(both.as_str(), ".json");
    r
}

impl<'a> RiffCacheKey<'a> {
    /// The file name that an answer is filed under.
    pub open spec fn file_name(self) -> Seq<char> {
        match self {
            RiffCacheKey::SavedAlbums(offset, limit) => "me_albums"@ + page_suffix(
                offset as nat,
                limit as nat,
            ),
            RiffCacheKey::SavedTracks(offset, limit) => "me_tracks"@ + page_suffix(
                offset as nat,
                limit as nat,
            ),
            RiffCacheKey::SavedPlaylists(offset, limit) => "me_playlists"@ + page_suffix(
                offset as nat,
                limit as nat,
            ),
            RiffCacheKey::Album(id) => "album_"@ + id@ + ".json"@,
            RiffCacheKey::AlbumTracks(id, offset, limit) => "album_item_"@ + id@ + page_suffix(
                offset as nat,
                limit as nat,
            ),
            RiffCacheKey::AlbumLiked(id) => "album_liked_"@ + id@ + ".json"@,
            RiffCacheKey::Playlist(id) => "playlist_"@ + id@ + ".json"@,
            RiffCacheKey::PlaylistTracks(id, offset, limit) => "playlist_item_"@ + id@
                + page_suffix(offset as nat, limit as nat),
            RiffCacheKey::ArtistAlbums(id, offset, limit) => "artist_albums_"@ + id@ + page_suffix(
                offset as nat,
                limit as nat,
            ),
            RiffCacheKey::Artist(id) => "artist_"@ + id@ + ".json"@,
            RiffCacheKey::ArtistTopTracks(id) => "artist_top_tracks_"@ + id@ + ".json"@,
            RiffCacheKey::User(id) => "user_"@ + id@ + ".json"@,
            RiffCacheKey::Me => "me.json"@,
            RiffCacheKey::UserPlaylists(id, offset, limit) => "user_playlists_"@ + id@
                + page_suffix(offset as nat, limit as nat),
            RiffCacheKey::RecentlyPlayed(limit) => "me_recently_played_"@ + text::decimal(
                limit as nat,
            ) + ".json"@,
            RiffCacheKey::TopArtists(limit) => "me_top_artists_"@ + text::decimal(limit as nat)
                + ".json"@,
            RiffCacheKey::TopTracks(limit) => "me_top_tracks_"@ + text::decimal(limit as nat)
                + ".json"@,
        }
    }

    /// The file name that an answer is filed under.
    pub fn into_raw(self) -> (r: String)
        ensures
            r@ == self.file_name(),
    {
        match self {
            RiffCacheKey::SavedAlbums(offset, limit) => cat(
                "me_albums",
                page_suffix_of(offset, limit).as_str(),
            ),
            RiffCacheKey::SavedTracks(offset, limit) => cat(
                "me_tracks",
                page_suffix_of(offset, limit).as_str(),
            ),
            RiffCacheKey::SavedPlaylists(offset, limit) => cat(
                "me_playlists",
                page_suffix_of(offset, limit).as_str(),
            ),
            RiffCacheKey::Album(id) => cat3("album_", id, ".json"),
            RiffCacheKey::AlbumTracks(id, offset, limit) => cat3(
                "album_item_",
                id,
                page_suffix_of(offset, limit).as_str(),
            ),
            RiffCacheKey::AlbumLiked(id) => cat3("album_liked_", id, ".json"),
            RiffCacheKey::Playlist(id) => cat3("playlist_", id, ".json"),
            RiffCacheKey::PlaylistTracks(id, offset, limit) => cat3(
                "playlist_item_",
                id,
                page_suffix_of(offset, limit).as_str(),
            ),
            RiffCacheKey::ArtistAlbums(id, offset, limit) => cat3(
                "artist_albums_",
                id,
                page_suffix_of(offset, limit).as_str(),
            ),
            RiffCacheKey::Artist(id) => cat3("artist_", id, ".json"),
            RiffCacheKey::ArtistTopTracks(id) => cat3("artist_top_tracks_", id, ".json"),
            RiffCacheKey::User(id) => cat3("user_", id, ".json"),
            RiffCacheKey::Me => "me.json".to_string(),
            RiffCacheKey::UserPlaylists(id, offset, limit) => cat3(
                "user_playlists_",
                id,
                page_suffix_of(offset, limit).as_str(),
            ),
            RiffCacheKey::RecentlyPlayed(limit) => cat3(
                "me_recently_played_",
                decimal_of(limit).as_str(),
                ".json",
            ),
            RiffCacheKey::TopArtists(limit) => cat3(
                "me_top_artists_",
                decimal_of(limit).as_str(),
                ".json",
            ),
            RiffCacheKey::TopTracks(limit) => cat3(
                "me_top_tracks_",
                decimal_of(limit).as_str(),
                ".json",
            ),
        }
    }
}

/// Two pages of one list are filed under different names unless they start at
/// the same place and are equally long.
pub proof fn law_pages_have_their_own_files(o1: nat, l1: nat, o2: nat, l2: nat)
    requires
        page_suffix(o1, l1) == page_suffix(o2, l2),
    ensures
        o1 == o2,
        l1 == l2,
{
    reveal_strlit("_");
    reveal_strlit(".json");
    text::lemma_decimal_digits(o1);
    text::lemma_decimal_digits(l1);
    text::lemma_decimal_digits(o2);
    text::lemma_decimal_digits(l2);
    let a = text::decimal(o1);
    let b = text::decimal(o2);
    let x = page_suffix(o1, l1);
    let y = page_suffix(o2, l2);
    assert(x.len() == a.len() + text::decimal(l1).len() + 7);
    assert(y.len() == b.len() + text::decimal(l2).len() + 7);
    // The second underscore stands right behind the first number.
    assert(x[a.len() as int + 1] == '_');
    assert(y[b.len() as int + 1] == '_');
    assert(forall|i: int| 1 <= i <= a.len() ==> #[trigger] x[i] == a[i - 1]);
    assert(forall|i: int| 1 <= i <= b.len() ==> #[trigger] y[i] == b[i - 1]);
    if a.len() < b.len() {
        assert(y[a.len() as int + 1] == b[a.len() as int]);
        assert(false);
    }
    if b.len() < a.len() {
        assert(x[b.len() as int + 1] == a[b.len() as int]);
        assert(false);
    }
    assert(a =~= b) by {
        assert forall|i: int| 0 <= i < a.len() implies a[i] == b[i] by {
            assert(x[i + 1] == a[i]);
            assert(y[i + 1] == b[i]);
        }
    }
    let c = text::decimal(l1);
    let d = text::decimal(l2);
    assert(c =~= d) by {
        assert forall|i: int| 0 <= i < c.len() implies c[i] == d[i] by {
            assert(x[i + a.len() + 2] == c[i]);
            assert(y[i + a.len() + 2] == d[i]);
        }
    }
    text::lemma_decimal_injective(o1, o2);
    text::lemma_decimal_injective(l1, l2);
}

// ── What a change makes stale ──────────────────────────────────────────────

/// The names of the files with saved tracks.
pub const ME_TRACKS_CACHE: &'static str = r"^me_tracks_\w+_\w+\.json$";

/// The names of the files with saved albums.
pub const ME_ALBUMS_CACHE: &'static str = r"^me_albums_\w+_\w+\.json$";

/// The names of the files with saved playlists.
pub const ME_PLAYLISTS_CACHE: &'static str = r"^me_playlists_\w+_\w+\.json$";

/// The names of the files that belong to the logged-in user.
pub const USER_CACHE: &'static str = r"^me\.json$|^me_(albums|playlists|tracks)_\w+_\w+\.json$|^me_(recently_played|top_artists|top_tracks)_\w+\.json$";

/// The pattern for the name of the file that a playlist is filed under. It also has
/// a branch for names that begin with `playlistitem_`; pages of tracks begin with
/// `playlist_item_` and are not matched.
pub open spec fn playlist_pattern(id: Seq<char>) -> Seq<char> {
    "^playlist(_"@ + id + "|item_"@ + id + r"_\w+_\w+)\.json$"@
}

/// The pattern for the name of the file that a playlist is filed under.
pub fn playlist_cache_key(id: &str) -> (r: String)
    ensures
        r@ == playlist_pattern(id@),
{
    let front: String = cat3("^playlist(_", id, "|item_");
    cat3(front.as_str(), id, r"_\w+_\w+)\.json$")
}

/// Whether the regular expression `pattern` matches somewhere in `text`, or
/// `None` if the pattern is malformed.
pub uninterp spec fn regex_found(pattern: Seq<char>, text: Seq<char>) -> Option<bool>;

/// `regex::Regex::is_match`: whether `pattern` matches somewhere in `text`. The
/// result depends on the arguments alone; `None` stands for a pattern that
/// `Regex::new` refuses.
#[verifier::external_body]
pub(crate) fn regex_is_match(pattern: &str, text: &str) -> (r: Option<bool>)
    ensures
        r == regex_found(pattern@, text@),
{
    Some(regex::Regex::new(pattern).ok()?.is_match(text))
}

/// Whether a file with the given name goes stale by `pattern`: it does if the
/// pattern is well formed and matches the name.
pub fn is_stale_by(pattern: &str, file_name: &str) -> (r: bool)
    ensures
        r == (regex_found(pattern@, file_name@) == Some(true)),
{
    match regex_is_match(pattern, file_name) {
        Some(found) => found,
        None => false,
    }
}

/// A change to the user's library, by what it touches.
#[derive(Clone, Copy, Debug, PartialEq, Eq)]
pub enum LibraryChange<'a> {
    AddToPlaylist(&'a str),
    RemoveFromPlaylist(&'a str),
    FollowPlaylist(&'a str),
    UnfollowPlaylist(&'a str),
    UpdatePlaylistDetails(&'a str),
    SaveAlbum(&'a str),
    RemoveSavedAlbum(&'a str),
    SaveTracks,
    RemoveSavedTracks,
}

/// The patterns of the files that a change makes stale, in the order in which
/// they are dealt with.
pub open spec fn stale_patterns(change: LibraryChange) -> Seq<Seq<char>> {
    match change {
        LibraryChange::AddToPlaylist(id) => seq![playlist_pattern(id@)],
        LibraryChange::RemoveFromPlaylist(id) => seq![playlist_pattern(id@)],
        LibraryChange::FollowPlaylist(_) => seq![ME_PLAYLISTS_CACHE@],
        LibraryChange::UnfollowPlaylist(id) => seq![ME_PLAYLISTS_CACHE@, playlist_pattern(id@)],
        LibraryChange::UpdatePlaylistDetails(id) => seq![playlist_pattern(id@)],
        LibraryChange::SaveAlbum(_) => seq![ME_ALBUMS_CACHE@],
        LibraryChange::RemoveSavedAlbum(_) => seq![ME_ALBUMS_CACHE@],
        LibraryChange::SaveTracks => seq![ME_TRACKS_CACHE@],
        LibraryChange::RemoveSavedTracks => seq![ME_TRACKS_CACHE@],
    }
}

/// The patterns of the files that a change makes stale. They are dealt with
/// before the change is sent.
pub fn patterns_expired_by(change: LibraryChange) -> (r: Vec<String>)
    ensures
        r.deep_view() == stale_patterns(change),
{
    let mut r: Vec<String> = Vec::new();
    match change {
        LibraryChange::AddToPlaylist(id) => r.push(playlist_cache_key(id)),
        LibraryChange::RemoveFromPlaylist(id) => r.push(playlist_cache_key(id)),
        LibraryChange::FollowPlaylist(_) => r.push(ME_PLAYLISTS_CACHE.to_string()),
        LibraryChange::UnfollowPlaylist(id) => {
            r.push(ME_PLAYLISTS_CACHE.to_string());
            r.push(playlist_cache_key(id));
        },
        LibraryChange::UpdatePlaylistDetails(id) => r.push(playlist_cache_key(id)),
        LibraryChange::SaveAlbum(_) => r.push(ME_ALBUMS_CACHE.to_string()),
        LibraryChange::RemoveSavedAlbum(_) => r.push(ME_ALBUMS_CACHE.to_string()),
        LibraryChange::SaveTracks => r.push(ME_TRACKS_CACHE.to_string()),
        LibraryChange::RemoveSavedTracks => r.push(ME_TRACKS_CACHE.to_string()),
    }
    assert(r.deep_view() =~= stale_patterns(change));
    r
}

// ── Reading through the cache ──────────────────────────────────────────────

/// How the cache is used for a read.
#[derive(Clone, Copy, Debug, PartialEq, Eq, Structural)]
pub enum CachePolicy {
    /// Use an entry that has not expired.
    Default,
    /// Use an entry even if it has expired.
    IgnoreExpiry,
    /// Ask the service even if there is an entry.
    IgnoreCached,
    /// Ask the service whether the entry is still right.
    Revalidate,
}

/// How long an answer may be used, and how the service tells it from others.
#[derive(Debug, PartialEq, Eq)]
pub struct CacheExpiry {
    pub max_age: u64,
    pub etag: Option<String>,
}

/// What is put in the cache.
#[derive(Debug, PartialEq, Eq)]
pub enum FetchResult {
    Modified(Vec<u8>, CacheExpiry),
    NotModified(CacheExpiry),
}

/// What the service answered.
#[derive(Debug, PartialEq, Eq)]
pub enum SpotifyResponseKind {
    Content(String),
    NotModified,
}

/// What the service answered, and for how long it may be used.
#[derive(Debug, PartialEq, Eq)]
pub struct SpotifyResponse {
    pub kind: SpotifyResponseKind,
    pub max_age: u64,
    pub etag: Option<String>,
}

/// What is put in the cache for an answer: its bytes, or that the entry is still
/// right; either way with the answer's own age and tag. A failed request puts
/// nothing there.
pub fn wrap_write(answer: SpotifyResult<SpotifyResponse>) -> (r: SpotifyResult<FetchResult>)
    ensures
        match (answer, r) {
            (Ok(response), Ok(FetchResult::Modified(bytes, expiry))) => response.kind matches SpotifyResponseKind::Content(
                content,
            ) && bytes@ == vstd::utf8::encode_utf8(content@) && expiry == (CacheExpiry {
                max_age: response.max_age,
                etag: response.etag,
            }),
            (Ok(response), Ok(FetchResult::NotModified(expiry))) => response.kind
                is NotModified && expiry == (CacheExpiry {
                max_age: response.max_age,
                etag: response.etag,
            }),
            (Err(e), Err(f)) => e == f,
            _ => false,
        },
{
    match answer {
        Err(e) => Err(e),
        Ok(response) => {
            let expiry = CacheExpiry { max_age: response.max_age, etag: response.etag };
            match response.kind {
                SpotifyResponseKind::Content(content) => Ok(
                    FetchResult::Modified(content.as_str().as_bytes_vec(), expiry),
                ),
                SpotifyResponseKind::NotModified => Ok(FetchResult::NotModified(expiry)),
            }
        },
    }
}

/// Where the access token is kept.
#[derive(Debug, PartialEq, Eq)]
pub struct TokenStore {
    pub token: Option<String>,
}

/// The client with its cache.
#[derive(Debug, PartialEq, Eq)]
pub struct CachedSpotifyClient {
    pub client: TokenStore,
}

impl CachedSpotifyClient {
    /// The client that uses the given token.
    pub fn new(client: TokenStore) -> (r: CachedSpotifyClient)
        ensures
            r.client == client,
    {
        CachedSpotifyClient { client }
    }

    /// There is an access token.
    pub open spec fn spec_has_token(self) -> bool {
        self.client.token is Some
    }

    /// Whether there is an access token.
    pub fn has_token(&self) -> (r: bool)
        ensures
            r == self.spec_has_token(),
    {
        self.client.token.is_some()
    }

    /// An entry that has not expired with a token, any entry without one.
    pub open spec fn usual_policy(self) -> CachePolicy {
        if self.spec_has_token() {
            CachePolicy::Default
        } else {
            CachePolicy::IgnoreExpiry
        }
    }

    /// How the cache is used unless a read asks for something else: without a
    /// token nothing can be fetched, so expired entries are used as well.
    pub fn default_cache_policy(&self) -> (r: CachePolicy)
        ensures
            r == self.usual_policy(),
    {
        if self.has_token() {
            CachePolicy::Default
        } else {
            CachePolicy::IgnoreExpiry
        }
    }

    /// How the cache is used to learn whether an album is saved: with a token,
    /// the service is asked each time.
    pub fn liked_cache_policy(&self) -> (r: CachePolicy)
        ensures
            r == (if self.spec_has_token() {
                CachePolicy::Revalidate
            } else {
                CachePolicy::IgnoreExpiry
            }),
    {
        if self.has_token() {
            CachePolicy::Revalidate
        } else {
            CachePolicy::IgnoreExpiry
        }
    }

    /// Starts a read through the cache.
    pub fn cache_get_or_write(
        &self,
        key: RiffCacheKey<'_>,
        cache_policy: Option<CachePolicy>,
    ) -> (r: CacheRead)
        ensures
            r.starts(
                key,
                match cache_policy {
                    Some(policy) => policy,
                    None => self.usual_policy(),
                },
            ),
    {
        let policy = match cache_policy {
            Some(policy) => policy,
            None => self.default_cache_policy(),
        };
        CacheRead { key: key.into_raw(), policy, retried: false }
    }

    /// The read of a page of saved albums.
    pub fn get_saved_albums(&self, offset: usize, limit: usize) -> (r: CacheRead)
        ensures
            r.starts(RiffCacheKey::SavedAlbums(offset, limit), self.usual_policy()),
    {
        self.cache_get_or_write(RiffCacheKey::SavedAlbums(offset, limit), None)
    }

    /// The read of a page of saved tracks.
    pub fn get_saved_tracks(&self, offset: usize, limit: usize) -> (r: CacheRead)
        ensures
            r.starts(RiffCacheKey::SavedTracks(offset, limit), self.usual_policy()),
    {
        self.cache_get_or_write(RiffCacheKey::SavedTracks(offset, limit), None)
    }

    /// The read of a page of saved playlists.
    pub fn get_saved_playlists(&self, offset: usize, limit: usize) -> (r: CacheRead)
        ensures
            r.starts(RiffCacheKey::SavedPlaylists(offset, limit), self.usual_policy()),
    {
        self.cache_get_or_write(RiffCacheKey::SavedPlaylists(offset, limit), None)
    }

    /// The reads for an album: the album itself, and whether it is saved.
    pub fn get_album(&self, id: &str) -> (r: (CacheRead, CacheRead))
        ensures
            r.0.starts(RiffCacheKey::Album(id), self.usual_policy()),
            r.1.starts(
                RiffCacheKey::AlbumLiked(id),
                if self.spec_has_token() {
                    CachePolicy::Revalidate
                } else {
                    CachePolicy::IgnoreExpiry
                },
            ),
    {
        (
            self.cache_get_or_write(RiffCacheKey::Album(id), None),
            self.cache_get_or_write(RiffCacheKey::AlbumLiked(id), Some(self.liked_cache_policy())),
        )
    }

    /// The reads for a page of an album's tracks: the album, for which an old
    /// answer is good enough, and the page.
    pub fn get_album_tracks(&self, id: &str, offset: usize, limit: usize) -> (r: (
        CacheRead,
        CacheRead,
    ))
        ensures
            r.0.starts(RiffCacheKey::Album(id), CachePolicy::IgnoreExpiry),
            r.1.starts(RiffCacheKey::AlbumTracks(id, offset, limit), self.usual_policy()),
    {
        (
            self.cache_get_or_write(RiffCacheKey::Album(id), Some(CachePolicy::IgnoreExpiry)),
            self.cache_get_or_write(RiffCacheKey::AlbumTracks(id, offset, limit), None),
        )
    }

    /// The read of a playlist.
    pub fn get_playlist(&self, id: &str) -> (r: CacheRead)
        ensures
            r.starts(RiffCacheKey::Playlist(id), self.usual_policy()),
    {
        self.cache_get_or_write(RiffCacheKey::Playlist(id), None)
    }

    /// The read of a page of a playlist's tracks.
    pub fn get_playlist_tracks(&self, id: &str, offset: usize, limit: usize) -> (r: CacheRead)
        ensures
            r.starts(RiffCacheKey::PlaylistTracks(id, offset, limit), self.usual_policy()),
    {
        self.cache_get_or_write(RiffCacheKey::PlaylistTracks(id, offset, limit), None)
    }

    /// The read of a page of an artist's albums.
    pub fn get_artist_albums(&self, id: &str, offset: usize, limit: usize) -> (r: CacheRead)
        ensures
            r.starts(RiffCacheKey::ArtistAlbums(id, offset, limit), self.usual_policy()),
    {
        self.cache_get_or_write(RiffCacheKey::ArtistAlbums(id, offset, limit), None)
    }

    /// The reads for an artist: the artist, the first `cards` albums and the top
    /// tracks. Whether the artist is followed is asked past the cache.
    pub fn get_artist(&self, id: &str, cards: usize) -> (r: (CacheRead, CacheRead, CacheRead))
        ensures
            r.0.starts(RiffCacheKey::Artist(id), self.usual_policy()),
            r.1.starts(RiffCacheKey::ArtistAlbums(id, 0, cards), self.usual_policy()),
            r.2.starts(RiffCacheKey::ArtistTopTracks(id), self.usual_policy()),
    {
        (
            self.cache_get_or_write(RiffCacheKey::Artist(id), None),
            self.get_artist_albums(id, 0, cards),
            self.cache_get_or_write(RiffCacheKey::ArtistTopTracks(id), None),
        )
    }

    /// The read of a page of a user's playlists.
    pub fn get_user_playlists(&self, id: &str, offset: usize, limit: usize) -> (r: CacheRead)
        ensures
            r.starts(RiffCacheKey::UserPlaylists(id, offset, limit), self.usual_policy()),
    {
        self.cache_get_or_write(RiffCacheKey::UserPlaylists(id, offset, limit), None)
    }

    /// The reads for a user: the user and the first `cards` playlists.
    pub fn get_user(&self, id: &str, cards: usize) -> (r: (CacheRead, CacheRead))
        ensures
            r.0.starts(RiffCacheKey::User(id), self.usual_policy()),
            r.1.starts(RiffCacheKey::UserPlaylists(id, 0, cards), self.usual_policy()),
    {
        (
            self.cache_get_or_write(RiffCacheKey::User(id), None),
            self.get_user_playlists(id, 0, cards),
        )
    }

    /// The read of the logged-in user.
    pub fn get_current_user(&self) -> (r: CacheRead)
        ensures
            r.starts(RiffCacheKey::Me, self.usual_policy()),
    {
        self.cache_get_or_write(RiffCacheKey::Me, None)
    }

    /// The read of what was played last.
    pub fn recently_played(&self, limit: usize) -> (r: CacheRead)
        ensures
            r.starts(RiffCacheKey::RecentlyPlayed(limit), self.usual_policy()),
    {
        self.cache_get_or_write(RiffCacheKey::RecentlyPlayed(limit), None)
    }

    /// The read of the user's top artists.
    pub fn get_top_artists(&self, limit: usize) -> (r: CacheRead)
        ensures
            r.starts(RiffCacheKey::TopArtists(limit), self.usual_policy()),
    {
        self.cache_get_or_write(RiffCacheKey::TopArtists(limit), None)
    }

    /// The read of the user's top tracks.
    pub fn get_top_tracks(&self, limit: usize) -> (r: CacheRead)
        ensures
            r.starts(RiffCacheKey::TopTracks(limit), self.usual_policy()),
    {
        self.cache_get_or_write(RiffCacheKey::TopTracks(limit), None)
    }
}

/// A read through the cache under way: the entry `key` is to be read by `policy`.
#[derive(Debug, PartialEq, Eq)]
pub struct CacheRead {
    pub key: String,
    pub policy: CachePolicy,
    pub retried: bool,
}

/// What becomes of a read once its bytes were (or were not) understood.
#[derive(Clone, Copy, Debug, PartialEq, Eq, Structural)]
pub enum ReadOutcome {
    /// The value is the answer.
    Accept,
    /// The entry is likely damaged: read again by the read's new policy.
    ReadAgain,
    /// The answer cannot be read.
    Fail,
}

impl CacheRead {
    /// A first read of the entry `key` by `policy`.
    pub open spec fn starts(self, key: RiffCacheKey, policy: CachePolicy) -> bool {
        self.key@ == key.file_name() && self.policy == policy && !self.retried
    }

    /// Takes note whether the bytes that were read could be understood. If not,
    /// the entry is read once more, past the cache; a second failure is final.
    pub fn on_parsed(&mut self, understood: bool) -> (r: ReadOutcome)
        ensures
            r == (if understood {
                ReadOutcome::Accept
            } else if old(self).retried {
                ReadOutcome::Fail
            } else {
                ReadOutcome::ReadAgain
            }),
            final(self).key == old(self).key,
            r == ReadOutcome::ReadAgain ==> final(self).retried && final(self).policy
                == CachePolicy::IgnoreCached,
            r != ReadOutcome::ReadAgain ==> *final(self) == *old(self),
    {
        if understood {
            ReadOutcome::Accept
        } else if self.retried {
            ReadOutcome::Fail
        } else {
            self.retried = true;
            self.policy = CachePolicy::IgnoreCached;
            ReadOutcome::ReadAgain
        }
    }
}

// ── Laws ───────────────────────────────────────────────────────────────────

/// What changes in the library makes exactly the files stale that show it: a change
/// to the tracks or the details of a playlist the file of that playlist, following or
/// unfollowing one the list of the user's playlists, saving or removing an album the
/// list of saved albums, saving or removing tracks the list of saved tracks. A
/// playlist that is no longer followed loses its own file as well.
pub proof fn law_changes_expire_what_shows_them(id: &str)
    ensures
        stale_patterns(LibraryChange::AddToPlaylist(id)) == seq![
            "^playlist(_"@ + id@ + "|item_"@ + id@ + r"_\w+_\w+)\.json$"@,
        ],
        stale_patterns(LibraryChange::RemoveFromPlaylist(id)) == seq![
            "^playlist(_"@ + id@ + "|item_"@ + id@ + r"_\w+_\w+)\.json$"@,
        ],
        stale_patterns(LibraryChange::UpdatePlaylistDetails(id)) == seq![
            "^playlist(_"@ + id@ + "|item_"@ + id@ + r"_\w+_\w+)\.json$"@,
        ],
        stale_patterns(LibraryChange::FollowPlaylist(id)) == seq![
            r"^me_playlists_\w+_\w+\.json$"@,
        ],
        stale_patterns(LibraryChange::UnfollowPlaylist(id)) == seq![
            r"^me_playlists_\w+_\w+\.json$"@,
            "^playlist(_"@ + id@ + "|item_"@ + id@ + r"_\w+_\w+)\.json$"@,
        ],
        stale_patterns(LibraryChange::SaveAlbum(id)) == seq![r"^me_albums_\w+_\w+\.json$"@],
        stale_patterns(LibraryChange::RemoveSavedAlbum(id)) == seq![
            r"^me_albums_\w+_\w+\.json$"@,
        ],
        stale_patterns(LibraryChange::SaveTracks) == seq![r"^me_tracks_\w+_\w+\.json$"@],
        stale_patterns(LibraryChange::RemoveSavedTracks) == seq![r"^me_tracks_\w+_\w+\.json$"@],
{
}

/// Entries that have expired are used only where there is no token to fetch others
/// with.
pub proof fn law_expired_entries_need_no_token(client: CachedSpotifyClient)
    ensures
        client.client.token is Some ==> client.usual_policy() == CachePolicy::Default,
        client.client.token is None ==> client.usual_policy() == CachePolicy::IgnoreExpiry,
{
}

/// A read starts with the file of its own request.
pub proof fn law_reads_use_their_own_file(read: CacheRead, id: &str, a: usize, b: usize)
    ensures
        read.starts(RiffCacheKey::Album(id), CachePolicy::Default) ==> read.key@ == "album_"@ + id@
            + ".json"@ && read.policy == CachePolicy::Default && !read.retried,
        read.starts(RiffCacheKey::Playlist(id), CachePolicy::Default) ==> read.key@
            == "playlist_"@ + id@ + ".json"@,
        read.starts(RiffCacheKey::Artist(id), CachePolicy::Default) ==> read.key@ == "artist_"@
            + id@ + ".json"@,
        read.starts(RiffCacheKey::User(id), CachePolicy::Default) ==> read.key@ == "user_"@ + id@
            + ".json"@,
        read.starts(RiffCacheKey::SavedAlbums(a, b), CachePolicy::Default) ==> read.key@
            == "me_albums"@ + ("_"@ + text::decimal(a as nat) + "_"@ + text::decimal(b as nat)
            + ".json"@),
        read.starts(RiffCacheKey::SavedTracks(a, b), CachePolicy::Default) ==> read.key@
            == "me_tracks"@ + ("_"@ + text::decimal(a as nat) + "_"@ + text::decimal(b as nat)
            + ".json"@),
        read.starts(RiffCacheKey::SavedPlaylists(a, b), CachePolicy::Default) ==> read.key@
            == "me_playlists"@ + ("_"@ + text::decimal(a as nat) + "_"@ + text::decimal(b as nat)
            + ".json"@),
        read.starts(RiffCacheKey::AlbumTracks(id, a, b), CachePolicy::Default) ==> read.key@
            == "album_item_"@ + id@ + ("_"@ + text::decimal(a as nat) + "_"@ + text::decimal(
            b as nat,
        ) + ".json"@),
        read.starts(RiffCacheKey::PlaylistTracks(id, a, b), CachePolicy::Default) ==> read.key@
            == "playlist_item_"@ + id@ + ("_"@ + text::decimal(a as nat) + "_"@ + text::decimal(
            b as nat,
        ) + ".json"@),
        read.starts(RiffCacheKey::ArtistAlbums(id, a, b), CachePolicy::Default) ==> read.key@
            == "artist_albums_"@ + id@ + ("_"@ + text::decimal(a as nat) + "_"@ + text::decimal(
            b as nat,
        ) + ".json"@),
        read.starts(RiffCacheKey::TopArtists(a), CachePolicy::Default) ==> read.key@
            == "me_top_artists_"@ + text::decimal(a as nat) + ".json"@,
        read.starts(RiffCacheKey::TopTracks(a), CachePolicy::Default) ==> read.key@
            == "me_top_tracks_"@ + text::decimal(a as nat) + ".json"@,
        read.starts(RiffCacheKey::RecentlyPlayed(a), CachePolicy::Default) ==> read.key@
            == "me_recently_played_"@ + text::decimal(a as nat) + ".json"@,
{
}

/// Every answer is filed under a name that says whose it is, and every page under one
/// that says where it starts and how long it is.
pub proof fn law_answers_are_filed_by_what_they_are(id: &str, a: usize, b: usize)
    ensures
        RiffCacheKey::AlbumLiked(id).file_name() == "album_liked_"@ + id@ + ".json"@,
        RiffCacheKey::ArtistTopTracks(id).file_name() == "artist_top_tracks_"@ + id@ + ".json"@,
        RiffCacheKey::Me.file_name() == "me.json"@,
        RiffCacheKey::UserPlaylists(id, a, b).file_name() == "user_playlists_"@ + id@ + page_suffix(
            a as nat,
            b as nat,
        ),
        page_suffix(a as nat, b as nat) == "_"@ + text::decimal(a as nat) + "_"@ + text::decimal(
            b as nat,
        ) + ".json"@,
        USER_CACHE@
            == r"^me\.json$|^me_(albums|playlists|tracks)_\w+_\w+\.json$|^me_(recently_played|top_artists|top_tracks)_\w+\.json$"@,
{
}

} // verus!

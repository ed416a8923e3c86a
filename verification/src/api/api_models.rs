//! The values that the web API exchanges, and what the client makes of them.
//!
//! Decoding JSON into these types is the program's part; every conversion from
//! them to the client's own types is here.

use vstd::prelude::*;

use crate::lists;
use crate::models;
use crate::models::{
    AlbumDescription, AlbumDescriptionView, AlbumFullDescription, AlbumFullDescriptionView,
    AlbumRef, AlbumRefView, AlbumReleaseDetails, AlbumReleaseDetailsView, ArtistRef, ArtistRefView,
    ArtistSummary, ArtistSummaryView, Batch, ConnectDevice, ConnectDeviceKind, ConnectDeviceView,
    ConnectPlayerState, ConnectPlayerStateView, ImageSet, ImageSetView, PlaylistDescription,
    PlaylistDescriptionView, RepeatMode, SizedImageView, SongBatch, SongBatchView, SongDescription,
    SongDescriptionView, UserRef, UserRefView,
};
use crate::text;
use crate::text::{cat, cat3, decimal_of, id_in, join, str_eq, to_lowercase};

verus! {

// ── Requests ───────────────────────────────────────────────────────────────

/// The body of a request that renames a playlist.
#[derive(Debug, PartialEq, Eq)]
pub struct PlaylistDetails {
    pub name: String,
}

/// The body of a request that names tracks by their URIs.
#[derive(Debug, PartialEq, Eq)]
pub struct Uris {
    pub uris: Vec<String>,
}

/// Where in a context playback starts.
#[derive(Clone, Copy, Debug, PartialEq, Eq, Structural)]
pub struct PlayOffset {
    pub position: u32,
}

/// The body of a request that starts playback.
#[derive(Debug, PartialEq, Eq)]
pub enum PlayRequest {
    Contextual { context_uri: String, offset: PlayOffset },
    Uris { uris: Vec<String>, offset: PlayOffset },
}

/// The body of a request that names items by their ids.
#[derive(Debug, PartialEq, Eq)]
pub struct Ids {
    pub ids: Vec<String>,
}

/// The body of a request that names a new playlist.
#[derive(Debug, PartialEq, Eq)]
pub struct Name<'a> {
    pub name: &'a str,
}

/// A search request.
#[derive(Debug, PartialEq, Eq)]
pub struct SearchQuery {
    pub query: String,
    pub limit: usize,
    pub offset: usize,
}

// ── Pages ──────────────────────────────────────────────────────────────────

/// One page of a list.
#[derive(Debug, PartialEq, Eq)]
pub struct Page<T> {
    pub items: Option<Vec<T>>,
    pub offset: Option<usize>,
    pub limit: Option<usize>,
    pub total: usize,
}

/// The contents of a `Page`.
pub struct PageView<V> {
    pub items: Option<Seq<V>>,
    pub offset: Option<usize>,
    pub limit: Option<usize>,
    pub total: usize,
}

impl<T: DeepView> DeepView for Page<T> {
    type V = PageView<T::V>;

    open spec fn deep_view(&self) -> PageView<T::V> {
        PageView {
            items: self.items.deep_view(),
            offset: self.offset,
            limit: self.limit,
            total: self.total,
        }
    }
}

// ── Answers ────────────────────────────────────────────────────────────────

/// One size of a picture.
#[derive(Debug, PartialEq, Eq)]
pub struct Image {
    pub url: String,
    pub height: Option<u32>,
    pub width: Option<u32>,
}

/// The contents of an `Image`.
pub struct ImageView {
    pub url: Seq<char>,
    pub height: Option<u32>,
    pub width: Option<u32>,
}

impl DeepView for Image {
    type V = ImageView;

    open spec fn deep_view(&self) -> ImageView {
        ImageView {
            url: self.url@,
            height: self.height,
            width: self.width,
        }
    }
}

/// An artist.
#[derive(Debug, PartialEq, Eq)]
pub struct Artist {
    pub id: String,
    pub name: String,
    pub images: Option<Vec<Image>>,
    pub popularity: u32,
}

/// The contents of an `Artist`.
pub struct ArtistView {
    pub id: Seq<char>,
    pub name: Seq<char>,
    pub images: Option<Seq<ImageView>>,
    pub popularity: u32,
}

impl DeepView for Artist {
    type V = ArtistView;

    open spec fn deep_view(&self) -> ArtistView {
        ArtistView {
            id: self.id@,
            name: self.name@,
            images: self.images.deep_view(),
            popularity: self.popularity,
        }
    }
}

/// A track as an album lists it.
#[derive(Debug, PartialEq, Eq)]
pub struct AlbumTrackItem {
    pub id: String,
    pub track_number: Option<usize>,
    pub uri: String,
    pub name: String,
    pub duration_ms: i64,
    pub artists: Vec<Artist>,
}

/// The contents of an `AlbumTrackItem`.
pub struct AlbumTrackItemView {
    pub id: Seq<char>,
    pub track_number: Option<usize>,
    pub uri: Seq<char>,
    pub name: Seq<char>,
    pub duration_ms: i64,
    pub artists: Seq<ArtistView>,
}

impl DeepView for AlbumTrackItem {
    type V = AlbumTrackItemView;

    open spec fn deep_view(&self) -> AlbumTrackItemView {
        AlbumTrackItemView {
            id: self.id@,
            track_number: self.track_number,
            uri: self.uri@,
            name: self.name@,
            duration_ms: self.duration_ms,
            artists: self.artists.deep_view(),
        }
    }
}

/// An album.
#[derive(Debug, PartialEq, Eq)]
pub struct Album {
    pub id: String,
    pub tracks: Option<Page<AlbumTrackItem>>,
    pub artists: Vec<Artist>,
    pub release_date: Option<String>,
    pub name: String,
    pub images: Vec<Image>,
    pub popularity: u32,
}

/// The contents of an `Album`.
pub struct AlbumView {
    pub id: Seq<char>,
    pub tracks: Option<PageView<AlbumTrackItemView>>,
    pub artists: Seq<ArtistView>,
    pub release_date: Option<Seq<char>>,
    pub name: Seq<char>,
    pub images: Seq<ImageView>,
    pub popularity: u32,
}

impl DeepView for Album {
    type V = AlbumView;

    open spec fn deep_view(&self) -> AlbumView {
        AlbumView {
            id: self.id@,
            tracks: self.tracks.deep_view(),
            artists: self.artists.deep_view(),
            release_date: self.release_date.deep_view(),
            name: self.name@,
            images: self.images.deep_view(),
            popularity: self.popularity,
        }
    }
}

/// A track with its album.
#[derive(Debug, PartialEq, Eq)]
pub struct TrackItem {
    pub track: AlbumTrackItem,
    pub album: Album,
}

/// The contents of a `TrackItem`.
pub struct TrackItemView {
    pub track: AlbumTrackItemView,
    pub album: AlbumView,
}

impl DeepView for TrackItem {
    type V = TrackItemView;

    open spec fn deep_view(&self) -> TrackItemView {
        TrackItemView {
            track: self.track.deep_view(),
            album: self.album.deep_view(),
        }
    }
}

/// A track whose fields could not be read.
#[derive(Clone, Copy, Debug, PartialEq, Eq, Structural)]
pub struct BadTrackItem {}

/// A track that may not have been readable.
#[derive(Debug, PartialEq, Eq)]
pub enum FailibleTrackItem {
    Good(Box<TrackItem>),
    Failing(BadTrackItem),
}

impl DeepView for FailibleTrackItem {
    type V = Option<TrackItemView>;

    open spec fn deep_view(&self) -> Option<TrackItemView> {
        match self {
            FailibleTrackItem::Good(track) => Some(track.deep_view()),
            FailibleTrackItem::Failing(_) => None,
        }
    }
}

/// A track as a playlist lists it.
#[derive(Debug, PartialEq, Eq)]
pub struct PlaylistTrack {
    pub is_local: bool,
    pub track: Option<FailibleTrackItem>,
}

/// A track as the list of saved tracks holds it.
#[derive(Debug, PartialEq, Eq)]
pub struct SavedTrack {
    pub added_at: String,
    pub track: TrackItem,
}

/// An album as the list of saved albums holds it.
#[derive(Debug, PartialEq, Eq)]
pub struct SavedAlbum {
    pub album: Album,
}

/// A copyright notice.
#[derive(Debug, PartialEq, Eq)]
pub struct Copyright {
    pub text: String,
    pub type_: String,
}

/// The contents of a `Copyright`.
pub struct CopyrightView {
    pub text: Seq<char>,
    pub type_: Seq<char>,
}

impl DeepView for Copyright {
    type V = CopyrightView;

    open spec fn deep_view(&self) -> CopyrightView {
        CopyrightView {
            text: self.text@,
            type_: self.type_@,
        }
    }
}

/// Who released an album.
#[derive(Debug, PartialEq, Eq)]
pub struct AlbumInfo {
    pub label: String,
    pub copyrights: Vec<Copyright>,
    pub total_tracks: u32,
}

/// The contents of an `AlbumInfo`.
pub struct AlbumInfoView {
    pub label: Seq<char>,
    pub copyrights: Seq<CopyrightView>,
    pub total_tracks: u32,
}

impl DeepView for AlbumInfo {
    type V = AlbumInfoView;

    open spec fn deep_view(&self) -> AlbumInfoView {
        AlbumInfoView {
            label: self.label@,
            copyrights: self.copyrights.deep_view(),
            total_tracks: self.total_tracks,
        }
    }
}

/// An album with its release details.
#[derive(Debug, PartialEq, Eq)]
pub struct FullAlbum {
    pub album: Album,
    pub album_info: AlbumInfo,
}

/// The contents of a `FullAlbum`.
pub struct FullAlbumView {
    pub album: AlbumView,
    pub album_info: AlbumInfoView,
}

impl DeepView for FullAlbum {
    type V = FullAlbumView;

    open spec fn deep_view(&self) -> FullAlbumView {
        FullAlbumView {
            album: self.album.deep_view(),
            album_info: self.album_info.deep_view(),
        }
    }
}

/// The owner of a playlist.
#[derive(Debug, PartialEq, Eq)]
pub struct PlaylistOwner {
    pub id: String,
    pub display_name: String,
}

/// The contents of a `PlaylistOwner`.
pub struct PlaylistOwnerView {
    pub id: Seq<char>,
    pub display_name: Seq<char>,
}

impl DeepView for PlaylistOwner {
    type V = PlaylistOwnerView;

    open spec fn deep_view(&self) -> PlaylistOwnerView {
        PlaylistOwnerView {
            id: self.id@,
            display_name: self.display_name@,
        }
    }
}

/// A playlist.
#[derive(Debug, PartialEq, Eq)]
pub struct Playlist {
    pub id: String,
    pub name: String,
    pub images: Option<Vec<Image>>,
    /// Missing in some lists of playlists.
    pub tracks: Option<Page<PlaylistTrack>>,
    pub owner: PlaylistOwner,
    pub snapshot_id: Option<String>,
}

/// A track of which only the id is asked for.
#[derive(Debug, PartialEq, Eq)]
pub struct PlaylistTrackId {
    pub track: Option<PlaylistTrackIdInner>,
}

/// The ids of a track of a playlist.
#[derive(Debug, PartialEq, Eq)]
pub struct PlaylistTrackIdInner {
    pub id: Option<String>,
    /// Present where the track was exchanged for one that the listener's market
    /// has. It names the track that the playlist was built with.
    pub linked_from: Option<LinkedFrom>,
}

/// The track that another one stands for.
#[derive(Debug, PartialEq, Eq)]
pub struct LinkedFrom {
    pub id: Option<String>,
}

/// Where the next page of a list starts.
#[derive(Debug, PartialEq, Eq)]
pub struct Cursors {
    pub after: Option<String>,
}

/// One page of a list that is read by cursor.
#[derive(Debug, PartialEq, Eq)]
pub struct CursorPage<T> {
    pub items: Option<Vec<T>>,
    pub cursors: Option<Cursors>,
    pub limit: Option<usize>,
    pub total: Option<usize>,
}

/// The followed artists.
#[derive(Debug, PartialEq, Eq)]
pub struct FollowedArtistsInner {
    pub artists: CursorPage<Artist>,
}

/// A user.
#[derive(Debug, PartialEq, Eq)]
pub struct User {
    pub id: String,
    pub display_name: String,
    pub product: Option<String>,
    pub images: Option<Vec<Image>>,
}

/// A remote player.
#[derive(Debug, PartialEq, Eq)]
pub struct Device {
    pub type_: String,
    pub name: String,
    pub id: String,
    pub is_active: bool,
    pub is_restricted: bool,
    pub volume_percent: u32,
}

/// The remote players that can be reached.
#[derive(Debug, PartialEq, Eq)]
pub struct Devices {
    pub devices: Vec<Device>,
}

/// What a remote player plays next.
#[derive(Debug, PartialEq, Eq)]
pub struct PlayerQueue {
    pub currently_playing: TrackItem,
    pub queue: Vec<TrackItem>,
}

/// What a remote player plays from.
#[derive(Debug, PartialEq, Eq)]
pub struct PlayerContext {
    pub type_: String,
    pub uri: String,
}

/// What a remote player reports of itself.
#[derive(Debug, PartialEq, Eq)]
pub struct PlayerState {
    pub progress_ms: u32,
    pub is_playing: bool,
    pub repeat_state: String,
    pub shuffle_state: bool,
    pub item: FailibleTrackItem,
    pub context: Option<PlayerContext>,
}

/// An artist's top tracks.
#[derive(Debug, PartialEq, Eq)]
pub struct TopTracks {
    pub tracks: Vec<TrackItem>,
}

/// The tracks that were asked for by id.
#[derive(Debug, PartialEq, Eq)]
pub struct Tracks {
    pub tracks: Option<Vec<TrackItem>>,
}

/// What was played lately, latest first.
#[derive(Debug, PartialEq, Eq)]
pub struct RecentlyPlayed {
    pub items: Option<Vec<PlayHistory>>,
}

/// One play of a track.
#[derive(Debug, PartialEq, Eq)]
pub struct PlayHistory {
    pub track: TrackItem,
    pub played_at: Option<String>,
    pub context: Option<PlayContext>,
}

/// What a track was played from.
#[derive(Debug, PartialEq, Eq)]
pub struct PlayContext {
    pub type_: Option<String>,
    pub uri: Option<String>,
}

/// What a search found.
#[derive(Debug, PartialEq, Eq)]
pub struct RawSearchResults {
    pub albums: Page<Album>,
    pub artists: Page<Artist>,
    pub tracks: Page<TrackItem>,
    pub playlists: Page<Playlist>,
}

// ── Search requests ────────────────────────────────────────────────────────

/// A byte that form encoding leaves as it is.
pub open spec fn form_unchanged(b: u8) -> bool {
    ||| b == 0x2a
    ||| b == 0x2d
    ||| b == 0x2e
    ||| 0x30 <= b <= 0x39
    ||| 0x41 <= b <= 0x5a
    ||| b == 0x5f
    ||| 0x61 <= b <= 0x7a
}

/// An upper-case hexadecimal digit.
pub open spec fn hex_digit(d: u8) -> char {
    if d < 10 {
        (48 + d) as char
    } else {
        (55 + d) as char
    }
}

/// One byte in form encoding: unreserved bytes stay, a space becomes `+`, every
/// other byte becomes `%` and its two hexadecimal digits.
pub open spec fn form_byte(b: u8) -> Seq<char> {
    if form_unchanged(b) {
        seq![b as char]
    } else if b == 0x20 {
        seq!['+']
    } else {
        seq!['%', hex_digit(b / 16), hex_digit(b % 16)]
    }
}

/// Bytes in form encoding.
pub open spec fn form_bytes(bytes: Seq<u8>) -> Seq<char>
    decreases bytes.len(),
{
    if bytes.len() == 0 {
        Seq::empty()
    } else {
        form_bytes(bytes.drop_last()) + form_byte(bytes.last())
    }
}

/// A text in form encoding.
pub open spec fn form_encoded(text: Seq<char>) -> Seq<char> {
    form_bytes(vstd::utf8::encode_utf8(text))
}

/// `form_urlencoded::Serializer` over `target`: `append_pair` writes an
/// ampersand if there is something before it, then the name, an equals sign and
/// the value, both of these form-encoded byte by byte in UTF-8; `finish` gives
/// back the whole string.
#[verifier::external_body]
pub(crate) fn append_pair(target: String, name: &str, value: &str) -> (r: String)
    ensures
        r@ == (if target@.len() == 0 {
            target@
        } else {
            target@ + "&"@
        }) + form_encoded(name@) + "="@ + form_encoded(value@),
{
    form_urlencoded::Serializer::new(target).append_pair(name, value).finish()
}

/// The text with every match of the regular expression `pattern` replaced by
/// `replacement`, or `None` if the pattern is malformed.
pub uninterp spec fn regex_replaced(
    pattern: Seq<char>,
    text: Seq<char>,
    replacement: Seq<char>,
) -> Option<Seq<char>>;

/// `regex::Regex::replace_all`: every match of `pattern` in `text` replaced by
/// `replacement`. The result depends on the arguments alone; `None` stands for a
/// pattern that `Regex::new` refuses, which it does not do with runs of
/// characters that are no word characters, the one pattern used here.
#[verifier::external_body]
pub(crate) fn regex_replace_all(pattern: &str, text: &str, replacement: &str) -> (r: Option<String>)
    ensures
        r.deep_view() == regex_replaced(pattern@, text@, replacement@),
        pattern@ == NON_WORD_RUNS@ ==> r is Some,
{
    let regex = regex::Regex::new(pattern).ok()?;
    Some(regex.replace_all(text, replacement).into_owned())
}

/// The regular expression for runs of characters that are no word characters.
pub const NON_WORD_RUNS: &'static str = r"(\W|\s)+";

/// The query as it is sent: runs of characters that are no word characters are
/// one space each.
pub open spec fn plain_query(query: Seq<char>) -> Seq<char> {
    match regex_replaced(NON_WORD_RUNS@, query, " "@) {
        Some(q) => q,
        None => query,
    }
}

/// The query string for the words `q`, read from `offset` on, at most `limit`
/// results of each kind.
pub open spec fn query_string(q: Seq<char>, offset: nat, limit: nat) -> Seq<char> {
    "type=album,track,artist,playlist&q="@ + form_encoded(q) + "&offset="@ + text::decimal(offset)
        + "&limit="@ + text::decimal(limit)
}

proof fn lemma_form_bytes_unreserved(bytes: Seq<u8>)
    requires
        forall|i: int| 0 <= i < bytes.len() ==> form_unchanged(#[trigger] bytes[i]),
    ensures
        form_bytes(bytes) == Seq::new(bytes.len(), |i: int| bytes[i] as char),
    decreases bytes.len(),
{
    if bytes.len() > 0 {
        lemma_form_bytes_unreserved(bytes.drop_last());
        assert(form_unchanged(bytes[bytes.len() - 1]));
    }
    assert(form_bytes(bytes) =~= Seq::new(bytes.len(), |i: int| bytes[i] as char));
}

/// Form encoding leaves a text of unreserved characters as it is.
pub proof fn lemma_form_encoded_unreserved(s: Seq<char>)
    requires
        vstd::utf8::is_ascii_chars(s),
        forall|i: int| 0 <= i < s.len() ==> form_unchanged((#[trigger] s[i]) as u8),
    ensures
        form_encoded(s) == s,
{
    vstd::utf8::is_ascii_chars_encode_utf8(s);
    let bytes = vstd::utf8::encode_utf8(s);
    assert forall|i: int| 0 <= i < bytes.len() implies form_unchanged(#[trigger] bytes[i]) by {
        assert(bytes[i] == s[i] as u8);
    }
    lemma_form_bytes_unreserved(bytes);
    assert(form_encoded(s) =~= s);
}

/// Writes the query string for the words `q`.
pub fn write_query_string(q: &str, offset: usize, limit: usize) -> (r: String)
    ensures
        r@ == query_string(q@, offset as nat, limit as nat),
{
    let offset_text: String = decimal_of(offset);
    let limit_text: String = decimal_of(limit);
    let a: String = append_pair(String::new(), "q", q);
    let b: String = append_pair(a, "offset", offset_text.as_str());
    let c: String = append_pair(b, "limit", limit_text.as_str());
    let r: String = cat("type=album,track,artist,playlist&", c.as_str());
    proof {
        reveal_strlit("=");
        reveal_strlit("&");
        reveal_strlit("q");
        reveal_strlit("offset");
        reveal_strlit("limit");
        reveal_strlit("&offset=");
        reveal_strlit("&limit=");
        reveal_strlit("type=album,track,artist,playlist&");
        reveal_strlit("type=album,track,artist,playlist&q=");
        lemma_form_encoded_unreserved("q"@);
        lemma_form_encoded_unreserved("offset"@);
        lemma_form_encoded_unreserved("limit"@);
        text::lemma_decimal_digits(offset as nat);
        text::lemma_decimal_digits(limit as nat);
        lemma_form_encoded_unreserved(text::decimal(offset as nat));
        lemma_form_encoded_unreserved(text::decimal(limit as nat));
        assert(a@ =~= "q="@ + form_encoded(q@)) by {
            reveal_strlit("q=");
        }
        assert(b@ =~= a@ + "&offset="@ + text::decimal(offset as nat));
        assert(c@ =~= b@ + "&limit="@ + text::decimal(limit as nat));
        assert("type=album,track,artist,playlist&q="@ =~= "type=album,track,artist,playlist&"@
            + "q="@) by {
            reveal_strlit("q=");
        }
        assert(r@ =~= query_string(q@, offset as nat, limit as nat));
    }
    r
}

impl SearchQuery {
    /// The query string of the search: all four kinds of results are asked for,
    /// and no market is named, so that the account's own market applies.
    pub fn into_query_string(self) -> (r: String)
        ensures
            r@ == query_string(plain_query(self.query@), self.offset as nat, self.limit as nat),
    {
        match regex_replace_all(NON_WORD_RUNS, self.query.as_str(), " ") {
            Some(q) => write_query_string(q.as_str(), self.offset, self.limit),
            None => write_query_string(self.query.as_str(), self.offset, self.limit),
        }
    }
}

proof fn lemma_form_bytes_clean(bytes: Seq<u8>, i: int)
    requires
        0 <= i < form_bytes(bytes).len(),
    ensures
        form_bytes(bytes)[i] != '&',
        form_bytes(bytes)[i] != '=',
        form_bytes(bytes)[i] != ' ',
    decreases bytes.len(),
{
    let rest = form_bytes(bytes.drop_last());
    if i < rest.len() {
        lemma_form_bytes_clean(bytes.drop_last(), i);
    } else {
        let b = bytes.last();
        assert(form_bytes(bytes)[i] == form_byte(b)[i - rest.len()]);
        assert(b / 16 < 16 && b % 16 < 16);
    }
}

/// Whatever is searched for, its form encoding holds no ampersand, no equals sign
/// and no space, so it cannot break out of its place in the query string.
pub proof fn law_form_encoding_is_clean(text: Seq<char>, i: int)
    requires
        0 <= i < form_encoded(text).len(),
    ensures
        form_encoded(text)[i] != '&',
        form_encoded(text)[i] != '=',
        form_encoded(text)[i] != ' ',
{
    lemma_form_bytes_clean(vstd::utf8::encode_utf8(text), i);
}

// ── Pages ──────────────────────────────────────────────────────────────────

/// The items that are there, in order.
pub open spec fn present<T>(items: Seq<Option<T>>) -> Seq<T>
    decreases items.len(),
{
    if items.len() == 0 {
        Seq::empty()
    } else {
        match items.last() {
            Some(item) => present(items.drop_last()).push(item),
            None => present(items.drop_last()),
        }
    }
}

/// A missing item costs no other: what is kept are exactly the items that are there.
pub proof fn law_present_items_are_kept<T>(items: Seq<Option<T>>, item: T)
    ensures
        present(items).contains(item) <==> items.contains(Some(item)),
    decreases items.len(),
{
    if items.len() > 0 {
        let front = items.drop_last();
        law_present_items_are_kept(front, item);
        assert(items =~= front.push(items.last()));
        lemma_push_contains(front, items.last(), Some(item));
        if let Some(last) = items.last() {
            lemma_push_contains(present(front), last, item);
        }
    }
}

proof fn lemma_push_contains<A>(s: Seq<A>, last: A, x: A)
    ensures
        s.push(last).contains(x) <==> s.contains(x) || last == x,
{
    if s.contains(x) {
        let i = choose|i: int| 0 <= i < s.len() && s[i] == x;
        assert(s.push(last)[i] == x);
    }
    if last == x {
        assert(s.push(last)[s.len() as int] == x);
    }
}

/// A list without missing items is kept as it is.
pub proof fn law_complete_lists_stay_as_they_are<T>(items: Seq<T>)
    ensures
        present(items.map_values(|x: T| Some(x))) == items,
    decreases items.len(),
{
    let all = items.map_values(|x: T| Some(x));
    if items.len() > 0 {
        let front = items.drop_last();
        law_complete_lists_stay_as_they_are(front);
        assert(all.drop_last() =~= front.map_values(|x: T| Some(x)));
        assert(front.push(items.last()) =~= items);
    } else {
        assert(present(all) =~= items);
    }
}

/// Drops the items that are missing. The service puts `null` in the place of an
/// item that is not available; one such item must not cost the whole page.
pub fn drop_missing<T>(items: Option<Vec<Option<T>>>) -> (r: Option<Vec<T>>)
    ensures
        match (items, r) {
            (Some(all), Some(kept)) => kept@ == present(all@),
            (None, None) => true,
            _ => false,
        },
{
    match items {
        None => None,
        Some(all) => {
            let ghost whole = all@;
            let mut kept: Vec<T> = Vec::new();
            for item in it: all.into_iter()
                invariant
                    it.seq() == whole,
                    kept@ == present(whole.take(it.index())),
            {
                proof {
                    assert(whole.take(it.index() + 1).drop_last() =~= whole.take(it.index()));
                }
                match item {
                    Some(x) => kept.push(x),
                    None => {},
                }
            }
            assert(whole.take(whole.len() as int) =~= whole);
            Some(kept)
        },
    }
}

/// How many items a page holds where it does not say.
pub const DEFAULT_LIMIT: usize = 50;

impl<T> Page<T> {
    /// The items of the page.
    pub open spec fn spec_items(self) -> Seq<T> {
        match self.items {
            Some(items) => items@,
            None => Seq::empty(),
        }
    }

    /// How many items a page of this list holds: what the page says, or else how
    /// many it holds; never nothing.
    pub open spec fn spec_limit(self) -> nat {
        let said = match self.limit {
            Some(limit) => limit as nat,
            None => self.spec_items().len(),
        };
        if said > 0 {
            said
        } else {
            DEFAULT_LIMIT as nat
        }
    }

    /// The page that holds exactly the given items.
    pub fn new(items: Vec<T>) -> (r: Page<T>)
        ensures
            r.items == Some(items),
            r.offset == Some(0usize),
            r.limit == Some(items@.len() as usize),
            r.total == items@.len(),
    {
        let l: usize = items.len();
        Page { total: l, items: Some(items), offset: Some(0), limit: Some(l) }
    }

    /// The page as it was received, without its missing items.
    pub fn received(
        items: Option<Vec<Option<T>>>,
        offset: Option<usize>,
        limit: Option<usize>,
        total: usize,
    ) -> (r: Page<T>)
        ensures
            match (items, r.items) {
                (Some(all), Some(kept)) => kept@ == present(all@),
                (None, None) => true,
                _ => false,
            },
            r.offset == offset,
            r.limit == limit,
            r.total == total,
    {
        Page { items: drop_missing(items), offset, limit, total }
    }

    /// How many items a page of this list holds.
    pub fn limit(&self) -> (r: usize)
        ensures
            r == self.spec_limit(),
            r > 0,
    {
        let said: usize = match self.limit {
            Some(limit) => limit,
            None => match &self.items {
                Some(items) => items.len(),
                None => 0,
            },
        };
        if said > 0 {
            said
        } else {
            DEFAULT_LIMIT
        }
    }

    /// How long the whole list is.
    pub fn total(&self) -> (r: usize)
        ensures
            r == self.total,
    {
        self.total
    }

    /// Where in the list the page starts.
    pub fn offset(&self) -> (r: usize)
        ensures
            r == (match self.offset {
                Some(offset) => offset,
                None => 0,
            }),
    {
        match self.offset {
            Some(offset) => offset,
            None => 0,
        }
    }

    /// The items of the page.
    pub fn into_items(self) -> (r: Vec<T>)
        ensures
            r@ == self.spec_items(),
    {
        match self.items {
            Some(items) => items,
            None => Vec::new(),
        }
    }

    /// Where the page stands in its list.
    pub open spec fn spec_batch(self) -> Batch {
        Batch {
            offset: match self.offset {
                Some(offset) => offset,
                None => 0,
            },
            batch_size: self.spec_limit() as usize,
            total: self.total,
        }
    }

    /// Where the page stands in its list.
    pub fn batch(&self) -> (r: Batch)
        ensures
            r == self.spec_batch(),
    {
        Batch { offset: self.offset(), batch_size: self.limit(), total: self.total() }
    }
}

impl<T> Default for Page<T> {
    fn default() -> (r: Page<T>)
        ensures
            r == (Page::<T> { items: None, total: 0, offset: Some(0), limit: Some(0) }),
    {
        Page { items: None, total: 0, offset: Some(0), limit: Some(0) }
    }
}

// ── Pictures ───────────────────────────────────────────────────────────────

/// The sizes that a list of pictures offers.
pub open spec fn sizes_of(images: Seq<ImageView>) -> Seq<SizedImageView> {
    images.map_values(|i: ImageView| SizedImageView { width: i.width, url: i.url })
}

/// The picture that a list of sizes makes, if there is any.
pub open spec fn picture_of(images: Seq<ImageView>) -> Option<ImageSetView> {
    if images.len() == 0 {
        None
    } else {
        Some(ImageSetView { images: sizes_of(images) })
    }
}

/// The picture that a list of sizes makes, if there is any.
pub fn image_set_of(images: &Vec<Image>) -> (r: Option<ImageSet>)
    ensures
        r.deep_view() == picture_of(images.deep_view()),
{
    let mut pairs: Vec<(Option<u32>, String)> = Vec::new();
    let ghost views = images.deep_view();
    let mut i: usize = 0;
    while i < images.len()
        invariant
            i <= images.len(),
            views == images.deep_view(),
            pairs@.len() == i,
            models::image_pairs(pairs@) =~= sizes_of(views).take(i as int),
        decreases images.len() - i,
    {
        let ghost before = pairs@;
        pairs.push((images[i].width, images[i].url.clone()));
        proof {
            lists::lemma_take_push(sizes_of(views), i as int);
            assert(models::image_pairs(pairs@) =~= models::image_pairs(before).push(
                sizes_of(views)[i as int],
            ));
        }
        i += 1;
    }
    proof {
        lists::lemma_take_all(sizes_of(views));
    }
    ImageSet::from_images(pairs)
}

/// The picture that an optional list of sizes makes.
pub fn image_set_of_optional(images: &Option<Vec<Image>>) -> (r: Option<ImageSet>)
    ensures
        r.deep_view() == picture_of(match images.deep_view() {
            Some(views) => views,
            None => Seq::empty(),
        }),
{
    match images {
        Some(list) => image_set_of(list),
        None => None,
    }
}

/// Something that the API gives with pictures.
pub trait WithImages {
    /// The sizes of its picture.
    spec fn spec_images(&self) -> Seq<ImageView>;

    /// Its picture, if it has any.
    fn picture(&self) -> (r: Option<ImageSet>)
        ensures
            r.deep_view() == picture_of(self.spec_images()),
    ;
}

/// The picture of a playlist that has none: one size without an address.
pub open spec fn no_picture() -> Seq<ImageView> {
    seq![ImageView { url: Seq::empty(), height: Some(640u32), width: Some(640u32) }]
}

impl WithImages for Playlist {
    open spec fn spec_images(&self) -> Seq<ImageView> {
        match self.images.deep_view() {
            Some(views) => views,
            None => no_picture(),
        }
    }

    fn picture(&self) -> (r: Option<ImageSet>) {
        match &self.images {
            Some(images) => image_set_of(images),
            None => {
                let mut images: Vec<Image> = Vec::new();
                images.push(Image { url: String::new(), height: Some(640), width: Some(640) });
                assert(images.deep_view() =~= no_picture());
                image_set_of(&images)
            },
        }
    }
}

impl WithImages for Album {
    open spec fn spec_images(&self) -> Seq<ImageView> {
        self.images.deep_view()
    }

    fn picture(&self) -> (r: Option<ImageSet>) {
        image_set_of(&self.images)
    }
}

impl WithImages for Artist {
    open spec fn spec_images(&self) -> Seq<ImageView> {
        match self.images.deep_view() {
            Some(views) => views,
            None => Seq::empty(),
        }
    }

    fn picture(&self) -> (r: Option<ImageSet>) {
        image_set_of_optional(&self.images)
    }
}

impl WithImages for User {
    open spec fn spec_images(&self) -> Seq<ImageView> {
        match self.images.deep_view() {
            Some(views) => views,
            None => Seq::empty(),
        }
    }

    fn picture(&self) -> (r: Option<ImageSet>) {
        image_set_of_optional(&self.images)
    }
}

// ── Artists ────────────────────────────────────────────────────────────────

/// The artists as a song or album names them.
pub open spec fn artist_refs(artists: Seq<ArtistView>) -> Seq<ArtistRefView> {
    artists.map_values(|a: ArtistView| ArtistRefView { id: a.id, name: a.name })
}

/// The artists as a song or album names them.
pub fn artist_refs_of(artists: &Vec<Artist>) -> (r: Vec<ArtistRef>)
    ensures
        r.deep_view() == artist_refs(artists.deep_view()),
{
    let mut out: Vec<ArtistRef> = Vec::new();
    let ghost refs = artist_refs(artists.deep_view());
    let mut i: usize = 0;
    while i < artists.len()
        invariant
            i <= artists.len(),
            refs == artist_refs(artists.deep_view()),
            out.deep_view() == refs.take(i as int),
        decreases artists.len() - i,
    {
        let ghost before = out;
        let one = ArtistRef { id: artists[i].id.clone(), name: artists[i].name.clone() };
        out.push(one);
        proof {
            lists::lemma_deep_push(before, out, one);
            lists::lemma_take_push(refs, i as int);
        }
        i += 1;
    }
    proof {
        lists::lemma_take_all(refs);
    }
    out
}

/// The card contents of an artist.
pub open spec fn artist_summary(artist: ArtistView) -> ArtistSummaryView {
    ArtistSummaryView {
        id: artist.id,
        name: artist.name,
        photo: picture_of(match artist.images {
            Some(images) => images,
            None => Seq::empty(),
        }),
        popularity: artist.popularity,
    }
}

impl From<Artist> for ArtistSummary {
    fn from(artist: Artist) -> (r: ArtistSummary)
        ensures
            r.deep_view() == artist_summary(artist.deep_view()),
    {
        let photo = artist.picture();
        ArtistSummary { id: artist.id, name: artist.name, photo, popularity: artist.popularity }
    }
}

impl vstd::std_specs::convert::FromSpecImpl<Artist> for ArtistSummary {
    open spec fn obeys_from_spec() -> bool {
        false
    }

    open spec fn from_spec(artist: Artist) -> ArtistSummary {
        arbitrary()
    }
}

/// The card contents of the artists, in order.
pub fn artist_summaries(artists: Vec<Artist>) -> (r: Vec<ArtistSummary>)
    ensures
        r.deep_view() == artists.deep_view().map_values(|a: ArtistView| artist_summary(a)),
{
    let ghost all = artists.deep_view().map_values(|a: ArtistView| artist_summary(a));
    let ghost whole = artists;
    let mut out: Vec<ArtistSummary> = Vec::new();
    for artist in it: artists.into_iter()
        invariant
            it.seq() == whole@,
            all == whole.deep_view().map_values(|a: ArtistView| artist_summary(a)),
            out.deep_view() == all.take(it.index()),
    {
        let ghost before = out;
        let ghost view = artist.deep_view();
        let one = ArtistSummary::from(artist);
        out.push(one);
        proof {
            lists::lemma_deep_push(before, out, one);
            lists::lemma_take_push(all, it.index());
            assert(all[it.index()] == artist_summary(view));
        }
    }
    proof {
        lists::lemma_take_all(all);
    }
    out
}

// ── Songs ──────────────────────────────────────────────────────────────────

/// The song that a track of an album is.
pub open spec fn song_view(track: AlbumTrackItemView, album: AlbumView) -> SongDescriptionView {
    SongDescriptionView {
        id: track.id,
        uri: track.uri,
        title: track.name,
        artists: artist_refs(track.artists),
        album: AlbumRefView { id: album.id, name: album.name },
        duration_ms: track.duration_ms as u32,
        art: picture_of(album.images),
        track_number: match track.track_number {
            Some(n) => Some(n as u32),
            None => None,
        },
    }
}

/// The song that a track of an album is.
pub fn song_of(track: AlbumTrackItem, album: &Album) -> (r: SongDescription)
    ensures
        r.deep_view() == song_view(track.deep_view(), album.deep_view()),
{
    let artists = artist_refs_of(&track.artists);
    let art = album.picture();
    let track_number: Option<u32> = match track.track_number {
        Some(n) => Some(
            #[verifier::truncate]
            (n as u32),
        ),
        None => None,
    };
    SongDescription {
        id: track.id,
        uri: track.uri,
        title: track.name,
        artists,
        album: AlbumRef { id: album.id.clone(), name: album.name.clone() },
        duration_ms: #[verifier::truncate]
        (track.duration_ms as u32),
        art,
        track_number,
    }
}

impl FailibleTrackItem {
    /// The track, where it was readable.
    pub fn get(self) -> (r: Option<TrackItem>)
        ensures
            r == (match self {
                FailibleTrackItem::Good(track) => Some(*track),
                FailibleTrackItem::Failing(_) => None,
            }),
    {
        match self {
            FailibleTrackItem::Good(track) => Some(*track),
            FailibleTrackItem::Failing(_) => None,
        }
    }
}

/// An entry of a list of tracks.
pub trait IntoTrack: Sized {
    /// The track that the entry holds, if it holds a playable one.
    spec fn spec_track(self) -> Option<TrackItem>;

    /// The track that the entry holds, if it holds a playable one.
    fn into_track(self) -> (r: Option<TrackItem>)
        ensures
            r == self.spec_track(),
    ;
}

impl IntoTrack for TrackItem {
    open spec fn spec_track(self) -> Option<TrackItem> {
        Some(self)
    }

    fn into_track(self) -> (r: Option<TrackItem>) {
        Some(self)
    }
}

impl IntoTrack for SavedTrack {
    open spec fn spec_track(self) -> Option<TrackItem> {
        Some(self.track)
    }

    fn into_track(self) -> (r: Option<TrackItem>) {
        Some(self.track)
    }
}

impl IntoTrack for PlaylistTrack {
    /// A playlist entry holds a track unless it is missing, unreadable or a file
    /// on somebody's machine.
    open spec fn spec_track(self) -> Option<TrackItem> {
        match self.track {
            Some(FailibleTrackItem::Good(track)) => if self.is_local {
                None
            } else {
                Some(*track)
            },
            _ => None,
        }
    }

    fn into_track(self) -> (r: Option<TrackItem>) {
        match self.track {
            Some(track) => if self.is_local {
                None
            } else {
                track.get()
            },
            None => None,
        }
    }
}

/// The songs that the entries of a list hold, in order.
pub open spec fn songs_of<T: IntoTrack>(items: Seq<T>) -> Seq<SongDescriptionView>
    decreases items.len(),
{
    if items.len() == 0 {
        Seq::empty()
    } else {
        let rest = songs_of(items.drop_last());
        match items.last().spec_track() {
            Some(item) => rest.push(song_view(item.track.deep_view(), item.album.deep_view())),
            None => rest,
        }
    }
}

/// The songs that the entries of a list hold, in order.
pub fn songs_of_items<T: IntoTrack>(items: Vec<T>) -> (r: Vec<SongDescription>)
    ensures
        r.deep_view() == songs_of(items@),
{
    let ghost whole = items@;
    let mut songs: Vec<SongDescription> = Vec::new();
    assert(songs.deep_view() =~= Seq::<SongDescriptionView>::empty());
    for item in it: items.into_iter()
        invariant
            it.seq() == whole,
            songs.deep_view() == songs_of(whole.take(it.index())),
    {
        let ghost before = songs;
        proof {
            assert(whole.take(it.index() + 1).drop_last() =~= whole.take(it.index()));
        }
        match item.into_track() {
            Some(found) => {
                let album = found.album;
                let song = song_of(found.track, &album);
                songs.push(song);
                proof {
                    lists::lemma_deep_push(before, songs, song);
                }
            },
            None => {},
        }
    }
    proof {
        lists::lemma_take_all(whole);
    }
    songs
}

impl<T: IntoTrack> From<Page<T>> for SongBatch {
    /// The songs of a page, with its place in the list.
    fn from(page: Page<T>) -> (r: SongBatch)
        ensures
            r.deep_view() == (SongBatchView {
                songs: songs_of(page.spec_items()),
                batch: page.spec_batch(),
            }),
    {
        let batch = page.batch();
        SongBatch { songs: songs_of_items(page.into_items()), batch }
    }
}

impl<T: IntoTrack> vstd::std_specs::convert::FromSpecImpl<Page<T>> for SongBatch {
    open spec fn obeys_from_spec() -> bool {
        false
    }

    open spec fn from_spec(page: Page<T>) -> SongBatch {
        arbitrary()
    }
}

/// The songs of a page.
pub fn songs_of_page<T: IntoTrack>(page: Page<T>) -> (r: Vec<SongDescription>)
    ensures
        r.deep_view() == songs_of(page.spec_items()),
{
    SongBatch::from(page).songs
}

/// The songs that the tracks of an album are.
pub open spec fn album_songs(
    tracks: Seq<AlbumTrackItemView>,
    album: AlbumView,
) -> Seq<SongDescriptionView> {
    tracks.map_values(|t: AlbumTrackItemView| song_view(t, album))
}

/// A page of an album's tracks as songs.
pub open spec fn album_batch(page: Page<AlbumTrackItem>, album: AlbumView) -> SongBatchView {
    SongBatchView {
        songs: album_songs(
            match page.deep_view().items {
                Some(items) => items,
                None => Seq::empty(),
            },
            album,
        ),
        batch: page.spec_batch(),
    }
}

/// A page of an album's tracks as songs.
pub fn songs_of_album(page: Page<AlbumTrackItem>, album: &Album) -> (r: SongBatch)
    ensures
        r.deep_view() == album_batch(page, album.deep_view()),
{
    let batch = page.batch();
    let ghost tracks = match page.deep_view().items {
        Some(items) => items,
        None => Seq::empty(),
    };
    let ghost all = album_songs(tracks, album.deep_view());
    let items: Vec<AlbumTrackItem> = page.into_items();
    let ghost whole = items;
    assert(whole.deep_view() =~= tracks);
    let mut songs: Vec<SongDescription> = Vec::new();
    assert(songs.deep_view() =~= all.take(0));
    for track in it: items.into_iter()
        invariant
            it.seq() == whole@,
            whole.deep_view() == tracks,
            all == album_songs(tracks, album.deep_view()),
            songs.deep_view() == all.take(it.index()),
    {
        let ghost before = songs;
        let ghost view = track.deep_view();
        let song = song_of(track, album);
        songs.push(song);
        proof {
            lists::lemma_deep_push(before, songs, song);
            lists::lemma_take_push(all, it.index());
            assert(tracks[it.index()] == view);
        }
    }
    proof {
        lists::lemma_take_all(all);
    }
    SongBatch { songs, batch }
}

/// The index of the first id that occurs before it in the list, from `i` on (the
/// length of the list if there is none).
pub open spec fn first_repeat(ids: Seq<Seq<char>>, i: int) -> int
    decreases ids.len() - i,
{
    if i >= ids.len() || ids.take(i).contains(ids[i]) {
        i
    } else {
        first_repeat(ids, i + 1)
    }
}

/// The ids of the tracks, in order.
pub open spec fn track_ids(items: Seq<TrackItem>) -> Seq<Seq<char>> {
    items.map_values(|t: TrackItem| t.track.id@)
}

/// The tracks of a player queue: what is playing, then what follows, up to the
/// first track that came before.
pub open spec fn queue_tracks(queue: PlayerQueue) -> Seq<TrackItem> {
    let all = seq![queue.currently_playing] + queue.queue@;
    all.take(first_repeat(track_ids(all), 0))
}

/// The songs of a player queue.
pub fn songs_of_queue(queue: PlayerQueue) -> (r: Vec<SongDescription>)
    ensures
        r.deep_view() == songs_of(queue_tracks(queue)),
{
    let mut all: Vec<TrackItem> = queue.queue;
    all.insert(0, queue.currently_playing);
    let ghost whole = all@;
    assert(whole =~= seq![queue.currently_playing] + queue.queue@);
    let ghost ids = track_ids(whole);
    let mut seen: Vec<String> = Vec::new();
    let mut i: usize = 0;
    while i < all.len() && !id_in(&seen, all[i].track.id.as_str())
        invariant
            i <= all.len(),
            all@ == whole,
            ids == track_ids(whole),
            seen.deep_view() == ids.take(i as int),
            first_repeat(ids, 0) == first_repeat(ids, i as int),
        decreases all.len() - i,
    {
        let ghost before = seen;
        let id: String = all[i].track.id.clone();
        seen.push(id);
        proof {
            lists::lemma_deep_push(before, seen, id);
            lists::lemma_take_push(ids, i as int);
        }
        i += 1;
    }
    proof {
        assert(first_repeat(ids, i as int) == i);
    }
    all.truncate(i);
    assert(all@ =~= whole.take(i as int));
    songs_of_items(all)
}

proof fn lemma_first_repeat(ids: Seq<Seq<char>>, i: int)
    requires
        0 <= i <= ids.len(),
        ids.take(i).no_duplicates(),
    ensures
        i <= first_repeat(ids, i) <= ids.len(),
        ids.take(first_repeat(ids, i)).no_duplicates(),
    decreases ids.len() - i,
{
    if i < ids.len() && !ids.take(i).contains(ids[i]) {
        let next = ids.take(i + 1);
        assert forall|a: int, b: int| 0 <= a < next.len() && 0 <= b < next.len() && a != b implies next[a]
            != next[b] by {
            assert(ids.take(i).contains(ids[a]) || a == i) by {
                if a < i {
                    assert(ids.take(i)[a] == ids[a]);
                }
            }
            assert(ids.take(i).contains(ids[b]) || b == i) by {
                if b < i {
                    assert(ids.take(i)[b] == ids[b]);
                }
            }
            if a < i && b < i {
                assert(ids.take(i)[a] != ids.take(i)[b]);
            }
        }
        lemma_first_repeat(ids, i + 1);
    }
}

/// The songs shown of a player queue are a front of it, start with what is
/// playing, and hold no track twice.
pub proof fn law_queue_has_no_repeats(queue: PlayerQueue)
    ensures
        queue_tracks(queue).len() >= 1,
        queue_tracks(queue)[0] == queue.currently_playing,
        track_ids(queue_tracks(queue)).no_duplicates(),
        queue_tracks(queue).is_prefix_of(seq![queue.currently_playing] + queue.queue@),
{
    let all = seq![queue.currently_playing] + queue.queue@;
    let ids = track_ids(all);
    lemma_first_repeat(ids, 0);
    assert(first_repeat(ids, 0) == first_repeat(ids, 1)) by {
        assert(ids.take(0) =~= Seq::<Seq<char>>::empty());
    }
    assert(ids.take(1).no_duplicates());
    lemma_first_repeat(ids, 1);
    assert(track_ids(queue_tracks(queue)) =~= ids.take(first_repeat(ids, 0)));
    assert(queue_tracks(queue) =~= all.take(queue_tracks(queue).len() as int));
}

/// The songs of an artist's top tracks.
pub fn songs_of_top_tracks(top: TopTracks) -> (r: Vec<SongDescription>)
    ensures
        r.deep_view() == songs_of(top.tracks@),
{
    songs_of_page(Page::new(top.tracks))
}

/// The songs that were asked for by id.
pub fn songs_of_tracks(tracks: Tracks) -> (r: Vec<SongDescription>)
    ensures
        r.deep_view() == songs_of(match tracks.tracks {
            Some(items) => items@,
            None => Seq::empty(),
        }),
{
    match tracks.tracks {
        Some(items) => songs_of_page(Page::new(items)),
        None => songs_of_page(Page::new(Vec::<TrackItem>::new())),
    }
}

// ── Albums ─────────────────────────────────────────────────────────────────

/// What the client knows of an album. Whether it is saved is not in the answer;
/// it counts as not saved until that is known.
pub open spec fn album_description(album: Album) -> AlbumDescriptionView {
    AlbumDescriptionView {
        id: album.id@,
        title: album.name@,
        artists: artist_refs(album.artists.deep_view()),
        release_date: album.release_date.deep_view(),
        art: picture_of(album.images.deep_view()),
        songs: match album.tracks {
            Some(page) => album_batch(
                page,
                AlbumView { tracks: None, ..album.deep_view() },
            ),
            None => models::spec_empty_batch(),
        },
        is_liked: false,
        popularity: album.popularity,
    }
}

/// The songs that an album lists, if it lists any.
pub fn songs_listed_by(album: &mut Album) -> (r: Option<SongBatch>)
    ensures
        *final(album) == (Album { tracks: None, ..*old(album) }),
        r.deep_view() == (match old(album).tracks {
            Some(page) => Some(
                album_batch(page, AlbumView { tracks: None, ..old(album).deep_view() }),
            ),
            None => None,
        }),
{
    match album.tracks.take() {
        Some(page) => Some(songs_of_album(page, album)),
        None => None,
    }
}

impl From<Album> for AlbumDescription {
    fn from(album: Album) -> (r: AlbumDescription)
        ensures
            r.deep_view() == album_description(album),
    {
        let mut rest = album;
        let songs = match songs_listed_by(&mut rest) {
            Some(batch) => batch,
            None => SongBatch::empty(),
        };
        let artists = artist_refs_of(&rest.artists);
        let art = rest.picture();
        AlbumDescription {
            id: rest.id,
            title: rest.name,
            artists,
            release_date: rest.release_date,
            art,
            songs,
            is_liked: false,
            popularity: rest.popularity,
        }
    }
}

impl vstd::std_specs::convert::FromSpecImpl<Album> for AlbumDescription {
    open spec fn obeys_from_spec() -> bool {
        false
    }

    open spec fn from_spec(album: Album) -> AlbumDescription {
        arbitrary()
    }
}

/// A copyright notice as it is shown.
pub open spec fn notice(c: CopyrightView) -> Seq<char> {
    "["@ + c.type_ + "] "@ + c.text
}

/// What the client knows of an album's release.
pub open spec fn release_details(info: AlbumInfoView) -> AlbumReleaseDetailsView {
    AlbumReleaseDetailsView {
        label: info.label,
        copyright_text: text::joined(
            info.copyrights.map_values(|c: CopyrightView| notice(c)),
            ",\n "@,
        ),
        total_tracks: info.total_tracks as usize,
    }
}

impl From<AlbumInfo> for AlbumReleaseDetails {
    fn from(info: AlbumInfo) -> (r: AlbumReleaseDetails)
        ensures
            r.deep_view() == release_details(info.deep_view()),
    {
        let ghost all = info.copyrights.deep_view().map_values(|c: CopyrightView| notice(c));
        let mut notices: Vec<String> = Vec::new();
        let mut i: usize = 0;
        while i < info.copyrights.len()
            invariant
                i <= info.copyrights.len(),
                all == info.copyrights.deep_view().map_values(|c: CopyrightView| notice(c)),
                notices.deep_view() == all.take(i as int),
            decreases info.copyrights.len() - i,
        {
            let ghost before = notices;
            let head: String = cat3("[", info.copyrights[i].type_.as_str(), "] ");
            let one: String = cat(head.as_str(), info.copyrights[i].text.as_str());
            notices.push(one);
            proof {
                lists::lemma_deep_push(before, notices, one);
                lists::lemma_take_push(all, i as int);
            }
            i += 1;
        }
        proof {
            lists::lemma_take_all(all);
        }
        AlbumReleaseDetails {
            label: info.label,
            copyright_text: join(&notices, ",\n "),
            total_tracks: info.total_tracks as usize,
        }
    }
}

impl vstd::std_specs::convert::FromSpecImpl<AlbumInfo> for AlbumReleaseDetails {
    open spec fn obeys_from_spec() -> bool {
        false
    }

    open spec fn from_spec(info: AlbumInfo) -> AlbumReleaseDetails {
        arbitrary()
    }
}

/// What the client knows of an album and its release.
pub open spec fn full_description(full: FullAlbum) -> AlbumFullDescriptionView {
    AlbumFullDescriptionView {
        description: album_description(full.album),
        release_details: release_details(full.album_info.deep_view()),
    }
}

impl From<FullAlbum> for AlbumFullDescription {
    fn from(full: FullAlbum) -> (r: AlbumFullDescription)
        ensures
            r.deep_view() == full_description(full),
    {
        AlbumFullDescription {
            description: AlbumDescription::from(full.album),
            release_details: AlbumReleaseDetails::from(full.album_info),
        }
    }
}

impl vstd::std_specs::convert::FromSpecImpl<FullAlbum> for AlbumFullDescription {
    open spec fn obeys_from_spec() -> bool {
        false
    }

    open spec fn from_spec(full: FullAlbum) -> AlbumFullDescription {
        arbitrary()
    }
}

/// What the client knows of the albums, in order.
pub fn album_descriptions(albums: Vec<Album>) -> (r: Vec<AlbumDescription>)
    ensures
        r.deep_view() == albums@.map_values(|a: Album| album_description(a)),
{
    let ghost all = albums@.map_values(|a: Album| album_description(a));
    let ghost whole = albums@;
    let mut out: Vec<AlbumDescription> = Vec::new();
    assert(out.deep_view() =~= all.take(0));
    for album in it: albums.into_iter()
        invariant
            it.seq() == whole,
            all == whole.map_values(|a: Album| album_description(a)),
            out.deep_view() == all.take(it.index()),
    {
        let ghost before = out;
        let ghost this = album;
        let one = AlbumDescription::from(album);
        out.push(one);
        proof {
            lists::lemma_deep_push(before, out, one);
            lists::lemma_take_push(all, it.index());
            assert(all[it.index()] == album_description(this));
        }
    }
    proof {
        lists::lemma_take_all(all);
    }
    out
}

// ── Playlists ──────────────────────────────────────────────────────────────

/// What the client knows of a playlist. A playlist that comes without its track
/// list has an empty batch: its track count is zero.
pub open spec fn playlist_description(playlist: Playlist) -> PlaylistDescriptionView {
    let tracks = match playlist.tracks {
        Some(page) => page,
        None => Page { items: None, total: 0, offset: Some(0), limit: Some(0) },
    };
    PlaylistDescriptionView {
        id: playlist.id@,
        title: playlist.name@,
        art: picture_of(playlist.spec_images()),
        songs: SongBatchView { songs: songs_of(tracks.spec_items()), batch: tracks.spec_batch() },
        owner: UserRefView { id: playlist.owner.id@, display_name: playlist.owner.display_name@ },
        snapshot_id: playlist.snapshot_id.deep_view(),
    }
}

impl From<Playlist> for PlaylistDescription {
    fn from(playlist: Playlist) -> (r: PlaylistDescription)
        ensures
            r.deep_view() == playlist_description(playlist),
    {
        let art = playlist.picture();
        let tracks: Page<PlaylistTrack> = match playlist.tracks {
            Some(page) => page,
            None => Page::default(),
        };
        PlaylistDescription {
            id: playlist.id,
            title: playlist.name,
            art,
            songs: SongBatch::from(tracks),
            owner: UserRef { id: playlist.owner.id, display_name: playlist.owner.display_name },
            snapshot_id: playlist.snapshot_id,
        }
    }
}

impl vstd::std_specs::convert::FromSpecImpl<Playlist> for PlaylistDescription {
    open spec fn obeys_from_spec() -> bool {
        false
    }

    open spec fn from_spec(playlist: Playlist) -> PlaylistDescription {
        arbitrary()
    }
}

/// What the client knows of the playlists, in order.
pub fn playlist_descriptions(playlists: Vec<Playlist>) -> (r: Vec<PlaylistDescription>)
    ensures
        r.deep_view() == playlists@.map_values(|p: Playlist| playlist_description(p)),
{
    let ghost all = playlists@.map_values(|p: Playlist| playlist_description(p));
    let ghost whole = playlists@;
    let mut out: Vec<PlaylistDescription> = Vec::new();
    assert(out.deep_view() =~= all.take(0));
    for playlist in it: playlists.into_iter()
        invariant
            it.seq() == whole,
            all == whole.map_values(|p: Playlist| playlist_description(p)),
            out.deep_view() == all.take(it.index()),
    {
        let ghost before = out;
        let ghost this = playlist;
        let one = PlaylistDescription::from(playlist);
        out.push(one);
        proof {
            lists::lemma_deep_push(before, out, one);
            lists::lemma_take_push(all, it.index());
            assert(all[it.index()] == playlist_description(this));
        }
    }
    proof {
        lists::lemma_take_all(all);
    }
    out
}

// ── Remote players ─────────────────────────────────────────────────────────

/// The repeat mode that a remote player's word stands for.
pub open spec fn repeat_mode(word: Seq<char>) -> RepeatMode {
    if word == "track"@ {
        RepeatMode::Song
    } else if word == "context"@ {
        RepeatMode::Playlist
    } else {
        RepeatMode::Off
    }
}

/// What the client knows of a remote player's state.
pub open spec fn player_state(state: PlayerState) -> ConnectPlayerStateView {
    ConnectPlayerStateView {
        is_playing: state.is_playing,
        progress_ms: state.progress_ms,
        repeat: repeat_mode(state.repeat_state@),
        shuffle: state.shuffle_state,
        current_song_id: match state.item {
            FailibleTrackItem::Good(track) => Some(track.track.id@),
            FailibleTrackItem::Failing(_) => None,
        },
    }
}

impl From<PlayerState> for ConnectPlayerState {
    fn from(state: PlayerState) -> (r: ConnectPlayerState)
        ensures
            r.deep_view() == player_state(state),
    {
        let repeat = if str_eq(state.repeat_state.as_str(), "track") {
            RepeatMode::Song
        } else if str_eq(state.repeat_state.as_str(), "context") {
            RepeatMode::Playlist
        } else {
            RepeatMode::Off
        };
        let current_song_id = match state.item.get() {
            Some(item) => Some(item.track.id),
            None => None,
        };
        ConnectPlayerState {
            is_playing: state.is_playing,
            progress_ms: state.progress_ms,
            repeat,
            shuffle: state.shuffle_state,
            current_song_id,
        }
    }
}

impl vstd::std_specs::convert::FromSpecImpl<PlayerState> for ConnectPlayerState {
    open spec fn obeys_from_spec() -> bool {
        false
    }

    open spec fn from_spec(state: PlayerState) -> ConnectPlayerState {
        arbitrary()
    }
}

/// The word for a repeat mode in a request to a remote player.
pub open spec fn repeat_word(mode: RepeatMode) -> Seq<char> {
    match mode {
        RepeatMode::Song => "track"@,
        RepeatMode::Playlist => "context"@,
        RepeatMode::Off => "off"@,
    }
}

/// The word for a repeat mode in a request to a remote player.
pub fn repeat_state_of(mode: RepeatMode) -> (r: &'static str)
    ensures
        r@ == repeat_word(mode),
{
    match mode {
        RepeatMode::Song => "track",
        RepeatMode::Playlist => "context",
        RepeatMode::Off => "off",
    }
}

/// A repeat mode that was sent to a remote player reads back as itself.
pub proof fn law_repeat_mode_round_trip(mode: RepeatMode)
    ensures
        repeat_mode(repeat_word(mode)) == mode,
{
    reveal_strlit("track");
    reveal_strlit("context");
    reveal_strlit("off");
    assert("track"@.len() == 5 && "context"@.len() == 7 && "off"@.len() == 3);
}

/// The kind of device that a lower-case word stands for.
pub open spec fn device_kind(word: Seq<char>) -> ConnectDeviceKind {
    if word == "smartphone"@ {
        ConnectDeviceKind::Phone
    } else if word == "computer"@ {
        ConnectDeviceKind::Computer
    } else if word == "speaker"@ {
        ConnectDeviceKind::Speaker
    } else {
        ConnectDeviceKind::Other
    }
}

/// The kind of device that a lower-case word stands for.
pub fn device_kind_of(word: &str) -> (r: ConnectDeviceKind)
    ensures
        r == device_kind(word@),
{
    if str_eq(word, "smartphone") {
        ConnectDeviceKind::Phone
    } else if str_eq(word, "computer") {
        ConnectDeviceKind::Computer
    } else if str_eq(word, "speaker") {
        ConnectDeviceKind::Speaker
    } else {
        ConnectDeviceKind::Other
    }
}

/// What the client knows of a remote player; letter case in its type does not matter.
pub open spec fn connect_device(device: Device) -> ConnectDeviceView {
    ConnectDeviceView {
        id: device.id@,
        label: device.name@,
        kind: device_kind(text::lowercase(device.type_@)),
    }
}

impl From<Device> for ConnectDevice {
    fn from(device: Device) -> (r: ConnectDevice)
        ensures
            r.deep_view() == connect_device(device),
    {
        let word: String = to_lowercase(device.type_.as_str());
        ConnectDevice { id: device.id, label: device.name, kind: device_kind_of(word.as_str()) }
    }
}

impl vstd::std_specs::convert::FromSpecImpl<Device> for ConnectDevice {
    open spec fn obeys_from_spec() -> bool {
        false
    }

    open spec fn from_spec(device: Device) -> ConnectDevice {
        arbitrary()
    }
}

// ── Laws ───────────────────────────────────────────────────────────────────

/// The artists of a song or album are those of the answer, in order, each with its
/// own id and name.
pub open spec fn names_artists(refs: Seq<ArtistRefView>, artists: Seq<Artist>) -> bool {
    &&& refs.len() == artists.len()
    &&& forall|i: int|
        0 <= i < artists.len() ==> (#[trigger] refs[i]).id == artists[i].id@ && refs[i].name
            == artists[i].name@
}

/// The picture has the sizes of the answer, in order, each with its own address and
/// width; there is none if there are no sizes.
pub open spec fn shows_images(art: Option<ImageSetView>, images: Seq<Image>) -> bool {
    &&& images.len() == 0 <==> art is None
    &&& art matches Some(set) ==> set.images.len() == images.len() && forall|i: int|
        0 <= i < images.len() ==> (#[trigger] set.images[i]).url == images[i].url@
            && set.images[i].width == images[i].width
}

/// The song is the track: it has the track's own id, URI, name, artists, length and
/// number. The album's id and name are found in its reference to the album and
/// nowhere else, and its picture is that of the album.
pub open spec fn is_the_track(
    song: SongDescriptionView,
    track: AlbumTrackItem,
    album: Album,
) -> bool {
    &&& song.id == track.id@
    &&& song.uri == track.uri@
    &&& song.title == track.name@
    &&& names_artists(song.artists, track.artists@)
    &&& song.album.id == album.id@
    &&& song.album.name == album.name@
    &&& 0 <= track.duration_ms <= u32::MAX ==> song.duration_ms == track.duration_ms
    &&& shows_images(song.art, album.images@)
    &&& track.track_number is None <==> song.track_number is None
    &&& track.track_number matches Some(n) ==> n <= u32::MAX ==> song.track_number == Some(
        n as u32,
    )
}

proof fn lemma_names_artists(artists: Vec<Artist>)
    ensures
        names_artists(artist_refs(artists.deep_view()), artists@),
{
    let refs = artist_refs(artists.deep_view());
    assert forall|i: int| 0 <= i < artists@.len() implies (#[trigger] refs[i]).id
        == artists@[i].id@ && refs[i].name == artists@[i].name@ by {
        assert(artists.deep_view()[i] == artists@[i].deep_view());
    }
}

pub proof fn lemma_shows_images(images: Vec<Image>)
    ensures
        shows_images(picture_of(images.deep_view()), images@),
{
    let sizes = sizes_of(images.deep_view());
    assert(images.deep_view().len() == images@.len());
    assert forall|i: int| 0 <= i < images@.len() implies (#[trigger] sizes[i]).url
        == images@[i].url@ && sizes[i].width == images@[i].width by {
        assert(images.deep_view()[i] == images@[i].deep_view());
    }
}

/// A song that is made of a track of an album is that track.
pub proof fn law_song_is_the_track(song: SongDescription, track: AlbumTrackItem, album: Album)
    requires
        song.deep_view() == song_view(track.deep_view(), album.deep_view()),
    ensures
        is_the_track(song.deep_view(), track, album),
        song.id@ == track.id@,
        song.uri@ == track.uri@,
        song.title@ == track.name@,
        song.album.id@ == album.id@,
        song.album.name@ == album.name@,
{
    lemma_names_artists(track.artists);
    lemma_shows_images(album.images);
}

proof fn lemma_songs_of_front<T: IntoTrack>(items: Seq<T>, k: int)
    requires
        0 <= k <= items.len(),
    ensures
        songs_of(items.take(k)).len() <= songs_of(items).len(),
        songs_of(items).take(songs_of(items.take(k)).len() as int) == songs_of(items.take(k)),
    decreases items.len() - k,
{
    let front = songs_of(items.take(k));
    if k == items.len() {
        assert(items.take(k) =~= items);
        assert(songs_of(items).take(front.len() as int) =~= front);
    } else {
        lemma_songs_of_front(items, k + 1);
        let next = songs_of(items.take(k + 1));
        assert(items.take(k + 1).drop_last() =~= items.take(k));
        assert(items.take(k + 1).last() == items[k]);
        assert(songs_of(items).take(front.len() as int) =~= next.take(front.len() as int));
        assert(next.take(front.len() as int) =~= front);
    }
}

/// The songs of a list are the tracks that its entries hold, in order: an entry with
/// a track gives one song, right behind those of the entries before it, and that song
/// is the track; an entry without one gives none.
pub proof fn law_songs_are_the_tracks_of_the_list<T: IntoTrack>(
    items: Seq<T>,
    songs: Seq<SongDescriptionView>,
    k: int,
)
    requires
        songs == songs_of(items),
        0 <= k < items.len(),
    ensures
        ({
            let before = songs_of(items.take(k)).len();
            match items[k].spec_track() {
                Some(found) => {
                    &&& before < songs.len()
                    &&& is_the_track(songs[before as int], found.track, found.album)
                    &&& songs[before as int].title == found.track.name@
                    &&& songs_of(items.take(k + 1)).len() == before + 1
                },
                None => songs_of(items.take(k + 1)).len() == before,
            }
        }),
        songs.len() <= items.len(),
{
    let front = songs_of(items.take(k));
    let next = songs_of(items.take(k + 1));
    assert(items.take(k + 1).drop_last() =~= items.take(k));
    assert(items.take(k + 1).last() == items[k]);
    lemma_songs_of_front(items, k + 1);
    match items[k].spec_track() {
        Some(found) => {
            assert(next[front.len() as int] == song_view(
                found.track.deep_view(),
                found.album.deep_view(),
            ));
            assert(songs[front.len() as int] == songs.take(next.len() as int)[front.len() as int]);
            lemma_names_artists(found.track.artists);
            lemma_shows_images(found.album.images);
        },
        None => {},
    }
    lemma_songs_of_len(items);
}

proof fn lemma_songs_of_len<T: IntoTrack>(items: Seq<T>)
    ensures
        songs_of(items).len() <= items.len(),
    decreases items.len(),
{
    if items.len() > 0 {
        lemma_songs_of_len(items.drop_last());
    }
}

/// A list whose entries all hold a track gives one song for each, at the same place.
pub proof fn law_complete_list_gives_every_song(items: Seq<TrackItem>, k: int)
    requires
        0 <= k < items.len(),
    ensures
        songs_of(items).len() == items.len(),
        is_the_track(songs_of(items)[k], items[k].track, items[k].album),
        songs_of(items)[k].title == items[k].track.name@,
{
    lemma_complete_list(items);
    lemma_complete_list(items.take(k));
    law_songs_are_the_tracks_of_the_list(items, songs_of(items), k);
}

proof fn lemma_complete_list(items: Seq<TrackItem>)
    ensures
        songs_of(items).len() == items.len(),
    decreases items.len(),
{
    if items.len() > 0 {
        lemma_complete_list(items.drop_last());
    }
}

/// A saved track holds its own track. An entry of a playlist holds one exactly if it
/// is there, could be read, and is no file on somebody's machine.
pub proof fn law_entries_hold_their_track(saved: SavedTrack, entry: PlaylistTrack)
    ensures
        saved.spec_track() == Some(saved.track),
        entry.is_local ==> entry.spec_track() is None,
        entry.track is None ==> entry.spec_track() is None,
        entry.track matches Some(FailibleTrackItem::Failing(_)) ==> entry.spec_track() is None,
        !entry.is_local ==> (entry.track matches Some(FailibleTrackItem::Good(track))
            ==> entry.spec_track() == Some(*track)),
{
}

/// The songs of an album's page are its tracks, one for each and in order, and all
/// name that album; the page keeps its place in the list.
pub proof fn law_album_songs_are_its_tracks(
    page: Page<AlbumTrackItem>,
    album: Album,
    batch: SongBatch,
    k: int,
)
    requires
        batch.deep_view() == album_batch(page, album.deep_view()),
        page.items is Some,
        0 <= k < page.items->0@.len(),
    ensures
        batch.songs@.len() == page.items->0@.len(),
        is_the_track(batch.songs@[k].deep_view(), page.items->0@[k], album),
        batch.songs@[k].title@ == page.items->0@[k].name@,
        batch.batch.total == page.total,
        page.offset is Some ==> batch.batch.offset == page.offset->0,
        page.offset is None ==> batch.batch.offset == 0,
{
    let tracks = page.items->0;
    assert(tracks.deep_view().len() == tracks@.len());
    assert(batch.songs.deep_view().len() == batch.songs@.len());
    assert(batch.songs.deep_view()[k] == batch.songs@[k].deep_view());
    assert(tracks.deep_view()[k] == tracks@[k].deep_view());
    law_song_is_the_track(batch.songs@[k], tracks@[k], album);
}

/// A page holds as many items as it says, or as it has where it says nothing; where
/// that would be none, it counts as holding fifty.
pub proof fn law_pages_have_a_size<T>(page: Page<T>)
    ensures
        page.spec_batch().total == page.total,
        page.offset is Some ==> page.spec_batch().offset == page.offset->0,
        page.offset is None ==> page.spec_batch().offset == 0,
        page.limit matches Some(limit) ==> (limit > 0 ==> page.spec_batch().batch_size == limit)
            && (limit == 0 ==> page.spec_batch().batch_size == 50),
        page.limit is None && (page.items matches Some(items) && items@.len() > 0)
            ==> page.spec_limit() == page.items->0@.len(),
        page.limit is None && page.items is None ==> page.spec_batch().batch_size == 50,
        page.items matches Some(items) ==> page.spec_items() == items@,
        page.items is None ==> page.spec_items().len() == 0,
{
}

/// Of lists that are read one after the other, what is there stays in order.
pub proof fn law_present_items_stay_in_order<T>(a: Seq<Option<T>>, b: Seq<Option<T>>, x: T)
    ensures
        present(a + b) == present(a) + present(b),
        present(a.push(Some(x))) == present(a).push(x),
        present(a.push(None)) == present(a),
    decreases b.len(),
{
    assert(a.push(Some(x)).drop_last() =~= a);
    assert(a.push(None).drop_last() =~= a);
    if b.len() == 0 {
        assert(a + b =~= a);
        assert(present(a) + present(b) =~= present(a));
    } else {
        law_present_items_stay_in_order(a, b.drop_last(), x);
        assert((a + b).drop_last() =~= a + b.drop_last());
        assert((a + b).last() == b.last());
        assert(present(a + b) =~= present(a) + present(b));
    }
}

/// A player's queue is shown as far as it goes without coming back to a track.
pub proof fn law_queue_ends_at_the_first_repeat(queue: PlayerQueue)
    ensures
        ({
            let all = seq![queue.currently_playing] + queue.queue@;
            let shown = queue_tracks(queue).len();
            &&& shown <= all.len()
            &&& shown < all.len() ==> exists|i: int|
                0 <= i < shown && (#[trigger] all[i]).track.id@ == all[shown as int].track.id@
        }),
{
    let all = seq![queue.currently_playing] + queue.queue@;
    let ids = track_ids(all);
    lemma_first_repeat(ids, 0);
    lemma_first_repeat_repeats(ids, 0);
    let shown = first_repeat(ids, 0);
    if shown < all.len() {
        let i = choose|i: int| 0 <= i < ids.take(shown).len() && ids.take(shown)[i] == ids[shown];
        assert(all[i].track.id@ == all[shown].track.id@);
    }
}

proof fn lemma_first_repeat_repeats(ids: Seq<Seq<char>>, i: int)
    requires
        0 <= i <= ids.len(),
    ensures
        i <= first_repeat(ids, i) <= ids.len(),
        first_repeat(ids, i) < ids.len() ==> ids.take(first_repeat(ids, i)).contains(
            ids[first_repeat(ids, i)],
        ),
    decreases ids.len() - i,
{
    if i < ids.len() && !ids.take(i).contains(ids[i]) {
        lemma_first_repeat_repeats(ids, i + 1);
    }
}

/// What is known of an album is what the answer says of it, each thing in its place:
/// id, name, artists, date, picture and popularity. Its songs are its tracks.
pub proof fn law_album_is_what_was_answered(album: Album, known: AlbumDescription)
    requires
        known.deep_view() == album_description(album),
    ensures
        known.id@ == album.id@,
        known.title@ == album.name@,
        names_artists(known.artists.deep_view(), album.artists@),
        known.release_date.deep_view() == album.release_date.deep_view(),
        shows_images(known.art.deep_view(), album.images@),
        known.popularity == album.popularity,
        !known.is_liked,
        album.tracks is None ==> known.songs.songs@.len() == 0 && known.songs.batch.total == 0,
        album.tracks matches Some(page) ==> {
            &&& known.songs.batch.total == page.total
            &&& page.items is None ==> known.songs.songs@.len() == 0
            &&& page.items matches Some(tracks) ==> known.songs.songs@.len() == tracks@.len()
                && forall|k: int|
                0 <= k < tracks@.len() ==> is_the_track(
                    (#[trigger] known.songs.songs@[k]).deep_view(),
                    tracks@[k],
                    album,
                )
        },
{
    lemma_names_artists(album.artists);
    lemma_shows_images(album.images);
    assert(known.songs.songs.deep_view().len() == known.songs.songs@.len());
    if let Some(page) = album.tracks {
        if let Some(tracks) = page.items {
            assert(tracks.deep_view().len() == tracks@.len());
            assert forall|k: int| 0 <= k < tracks@.len() implies is_the_track(
                (#[trigger] known.songs.songs@[k]).deep_view(),
                tracks@[k],
                album,
            ) by {
                assert(known.songs.songs.deep_view()[k] == known.songs.songs@[k].deep_view());
                assert(tracks.deep_view()[k] == tracks@[k].deep_view());
                lemma_names_artists(tracks@[k].artists);
            }
        }
    }
}

/// What is known of an album's release is its label, its number of tracks, and its
/// notices, each with its type in brackets in front.
pub proof fn law_release_is_what_was_answered(info: AlbumInfo, known: AlbumReleaseDetails)
    requires
        known.deep_view() == release_details(info.deep_view()),
    ensures
        known.label@ == info.label@,
        known.total_tracks == info.total_tracks,
        info.copyrights@.len() == 0 ==> known.copyright_text@.len() == 0,
        info.copyrights@.len() == 1 ==> known.copyright_text@ == "["@ + info.copyrights@[0].type_@
            + "] "@ + info.copyrights@[0].text@,
        info.copyrights@.len() == 2 ==> known.copyright_text@ == ("["@
            + info.copyrights@[0].type_@ + "] "@ + info.copyrights@[0].text@) + ",\n "@ + ("["@
            + info.copyrights@[1].type_@ + "] "@ + info.copyrights@[1].text@),
{
    let all = info.copyrights.deep_view().map_values(|c: CopyrightView| notice(c));
    assert(info.copyrights.deep_view().len() == info.copyrights@.len());
    if info.copyrights@.len() == 2 {
        assert(all =~= seq![all[0]] + seq![all[1]]);
        text::law_join_of_two_lists(seq![all[0]], seq![all[1]], ",\n "@);
    }
}

/// A full album is its album and its release, and nothing is exchanged between them.
pub proof fn law_full_album_is_both_parts(full: FullAlbum, known: AlbumFullDescription)
    requires
        known.deep_view() == full_description(full),
    ensures
        known.description.deep_view() == album_description(full.album),
        known.release_details.deep_view() == release_details(full.album_info.deep_view()),
        known.description.id@ == full.album.id@,
        known.description.title@ == full.album.name@,
        known.release_details.label@ == full.album_info.label@,
{
}

/// What is known of a playlist is what the answer says of it: id, name, owner and
/// version. Its songs are those of its entries.
pub proof fn law_playlist_is_what_was_answered(playlist: Playlist, known: PlaylistDescription)
    requires
        known.deep_view() == playlist_description(playlist),
    ensures
        known.id@ == playlist.id@,
        known.title@ == playlist.name@,
        known.owner.id@ == playlist.owner.id@,
        known.owner.display_name@ == playlist.owner.display_name@,
        known.snapshot_id.deep_view() == playlist.snapshot_id.deep_view(),
        playlist.images matches Some(images) ==> shows_images(known.art.deep_view(), images@),
        playlist.images is None ==> known.art.deep_view() == Some(
            ImageSetView {
                images: seq![SizedImageView { width: Some(640u32), url: Seq::empty() }],
            },
        ),
        playlist.tracks is None ==> known.songs.songs@.len() == 0 && known.songs.batch.total == 0,
        playlist.tracks matches Some(page) ==> known.songs.batch.total == page.total
            && known.songs.songs.deep_view() == songs_of(page.spec_items()),
{
    assert(known.songs.songs.deep_view().len() == known.songs.songs@.len());
    match playlist.images {
        Some(images) => lemma_shows_images(images),
        None => {
            assert(sizes_of(no_picture()) =~= seq![
                SizedImageView { width: Some(640u32), url: Seq::empty() },
            ]);
        },
    }
}

/// What is known of an artist is what the answer says: id, name, photo, popularity.
pub proof fn law_artist_is_what_was_answered(artist: Artist, known: ArtistSummary)
    requires
        known.deep_view() == artist_summary(artist.deep_view()),
    ensures
        known.id@ == artist.id@,
        known.name@ == artist.name@,
        known.popularity == artist.popularity,
        artist.images matches Some(images) ==> shows_images(known.photo.deep_view(), images@),
        artist.images is None ==> known.photo is None,
{
    if let Some(images) = artist.images {
        lemma_shows_images(images);
    }
}

/// What is known of a remote player's state is what it reports. A track that repeats
/// is reported as "track", a whole context as "context"; any other word is off.
pub proof fn law_player_state_is_what_was_reported(state: PlayerState, known: ConnectPlayerState)
    requires
        known.deep_view() == player_state(state),
    ensures
        known.is_playing == state.is_playing,
        known.progress_ms == state.progress_ms,
        known.shuffle == state.shuffle_state,
        state.repeat_state@ == "track"@ ==> known.repeat == RepeatMode::Song,
        state.repeat_state@ == "context"@ ==> known.repeat == RepeatMode::Playlist,
        state.repeat_state@ != "track"@ && state.repeat_state@ != "context"@ ==> known.repeat
            == RepeatMode::Off,
        state.item matches FailibleTrackItem::Good(track) ==> known.current_song_id.deep_view()
            == Some(track.track.id@),
        state.item is Failing ==> known.current_song_id is None,
{
    reveal_strlit("track");
    reveal_strlit("context");
    assert("track"@.len() == 5 && "context"@.len() == 7);
}

/// A repeat mode is sent under the service's word for it.
pub proof fn law_repeat_words()
    ensures
        repeat_word(RepeatMode::Song) == "track"@,
        repeat_word(RepeatMode::Playlist) == "context"@,
        repeat_word(RepeatMode::Off) == "off"@,
{
}

/// A remote player is known by its own id, is called what it calls itself, and is of
/// the kind that its type names.
pub proof fn law_device_is_what_was_answered(device: Device, known: ConnectDevice)
    requires
        known.deep_view() == connect_device(device),
    ensures
        known.id@ == device.id@,
        known.label@ == device.name@,
        text::lowercase(device.type_@) == "smartphone"@ ==> known.kind == ConnectDeviceKind::Phone,
        text::lowercase(device.type_@) == "computer"@ ==> known.kind == ConnectDeviceKind::Computer,
        text::lowercase(device.type_@) == "speaker"@ ==> known.kind == ConnectDeviceKind::Speaker,
        known.kind == ConnectDeviceKind::Phone ==> text::lowercase(device.type_@)
            == "smartphone"@,
        known.kind == ConnectDeviceKind::Computer ==> text::lowercase(device.type_@)
            == "computer"@,
        known.kind == ConnectDeviceKind::Speaker ==> text::lowercase(device.type_@) == "speaker"@,
{
    reveal_strlit("smartphone");
    reveal_strlit("computer");
    reveal_strlit("speaker");
    assert("smartphone"@.len() == 10 && "computer"@.len() == 8 && "speaker"@.len() == 7);
}

/// The view of an `Image` holds its parts, each under its own name.
pub proof fn law_view_of_image(value: Image)
    ensures
        value.deep_view().url == value.url@,
        value.deep_view().height == value.height,
        value.deep_view().width == value.width,
{
}

/// The view of an `Artist` holds its parts, each under its own name.
pub proof fn law_view_of_artist(value: Artist)
    ensures
        value.deep_view().id == value.id@,
        value.deep_view().name == value.name@,
        value.deep_view().images == value.images.deep_view(),
        value.deep_view().popularity == value.popularity,
{
}

/// The view of an `AlbumTrackItem` holds its parts, each under its own name.
pub proof fn law_view_of_album_track_item(value: AlbumTrackItem)
    ensures
        value.deep_view().id == value.id@,
        value.deep_view().track_number == value.track_number,
        value.deep_view().uri == value.uri@,
        value.deep_view().name == value.name@,
        value.deep_view().duration_ms == value.duration_ms,
        value.deep_view().artists == value.artists.deep_view(),
{
}

/// The view of an `Album` holds its parts, each under its own name.
pub proof fn law_view_of_album(value: Album)
    ensures
        value.deep_view().id == value.id@,
        value.deep_view().tracks == value.tracks.deep_view(),
        value.deep_view().artists == value.artists.deep_view(),
        value.deep_view().release_date == value.release_date.deep_view(),
        value.deep_view().name == value.name@,
        value.deep_view().images == value.images.deep_view(),
        value.deep_view().popularity == value.popularity,
{
}

/// The view of a `TrackItem` holds its parts, each under its own name.
pub proof fn law_view_of_track_item(value: TrackItem)
    ensures
        value.deep_view().track == value.track.deep_view(),
        value.deep_view().album == value.album.deep_view(),
{
}

/// The view of a `FailibleTrackItem` is of the same kind and holds the same parts.
pub proof fn law_view_of_failible_track_item(value: FailibleTrackItem)
    ensures
        value matches FailibleTrackItem::Good(track) ==> value.deep_view() == Some(track.deep_view()),
        value is Failing ==> value.deep_view() is None,
{
}

/// The view of a `Copyright` holds its parts, each under its own name.
pub proof fn law_view_of_copyright(value: Copyright)
    ensures
        value.deep_view().text == value.text@,
        value.deep_view().type_ == value.type_@,
{
}

/// The view of an `AlbumInfo` holds its parts, each under its own name.
pub proof fn law_view_of_album_info(value: AlbumInfo)
    ensures
        value.deep_view().label == value.label@,
        value.deep_view().copyrights == value.copyrights.deep_view(),
        value.deep_view().total_tracks == value.total_tracks,
{
}

/// The view of a `FullAlbum` holds its parts, each under its own name.
pub proof fn law_view_of_full_album(value: FullAlbum)
    ensures
        value.deep_view().album == value.album.deep_view(),
        value.deep_view().album_info == value.album_info.deep_view(),
{
}

/// The view of a `PlaylistOwner` holds its parts, each under its own name.
pub proof fn law_view_of_playlist_owner(value: PlaylistOwner)
    ensures
        value.deep_view().id == value.id@,
        value.deep_view().display_name == value.display_name@,
{
}

/// A search asks for albums, tracks, artists and playlists that go with the encoded
/// words, from the given place on and for as many as given.
pub proof fn law_query_asks_for_every_kind(q: Seq<char>, offset: nat, limit: nat)
    ensures
        query_string(q, offset, limit) == "type=album,track,artist,playlist&q="@ + form_encoded(q)
            + "&offset="@ + text::decimal(offset) + "&limit="@ + text::decimal(limit),
        regex_replaced(r"(\W|\s)+"@, q, " "@) matches Some(plain) ==> plain_query(q) == plain,
        regex_replaced(r"(\W|\s)+"@, q, " "@) is None ==> plain_query(q) == q,
{
}

/// Letters, digits and `*-._` are sent as they are, a space as `+`, and any other byte
/// as `%` and its two digits, the higher first.
pub proof fn law_bytes_are_encoded_one_by_one(bytes: Seq<u8>, b: u8)
    ensures
        form_bytes(bytes.push(b)) == form_bytes(bytes) + form_byte(b),
        form_bytes(Seq::empty()).len() == 0,
        (0x30 <= b <= 0x39 || 0x41 <= b <= 0x5a || 0x61 <= b <= 0x7a || b == 0x2a || b == 0x2d || b
            == 0x2e || b == 0x5f) ==> form_byte(b) == seq![b as char],
        b == 0x20 ==> form_byte(b) == seq!['+'],
        !(0x30 <= b <= 0x39 || 0x41 <= b <= 0x5a || 0x61 <= b <= 0x7a || b == 0x2a || b == 0x2d || b
            == 0x2e || b == 0x5f || b == 0x20) ==> form_byte(b) == seq![
            '%',
            hex_digit(b / 16),
            hex_digit(b % 16),
        ],
        b < 10 ==> hex_digit(b) as u32 == '0' as u32 + b,
        10 <= b < 16 ==> hex_digit(b) as u32 == 'A' as u32 + (b - 10),
{
    assert(bytes.push(b).drop_last() =~= bytes);
}

} // verus!

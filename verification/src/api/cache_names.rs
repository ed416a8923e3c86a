//! Which request an answer in the cache belongs to: file names tell requests apart.

use vstd::prelude::*;

use crate::api::cached_client::{page_suffix, RiffCacheKey};
use crate::text;

verus! {

/// The contents of a `RiffCacheKey`.
pub enum RiffCacheKeyView {
    SavedAlbums(usize, usize),
    SavedTracks(usize, usize),
    SavedPlaylists(usize, usize),
    Album(Seq<char>),
    AlbumLiked(Seq<char>),
    AlbumTracks(Seq<char>, usize, usize),
    Playlist(Seq<char>),
    PlaylistTracks(Seq<char>, usize, usize),
    ArtistAlbums(Seq<char>, usize, usize),
    Artist(Seq<char>),
    ArtistTopTracks(Seq<char>),
    User(Seq<char>),
    Me,
    UserPlaylists(Seq<char>, usize, usize),
    RecentlyPlayed(usize),
    TopArtists(usize),
    TopTracks(usize),
}

impl<'a> DeepView for RiffCacheKey<'a> {
    type V = RiffCacheKeyView;

    open spec fn deep_view(&self) -> RiffCacheKeyView {
        match *self {
            RiffCacheKey::SavedAlbums(offset, limit) => RiffCacheKeyView::SavedAlbums(offset, limit),
            RiffCacheKey::SavedTracks(offset, limit) => RiffCacheKeyView::SavedTracks(offset, limit),
            RiffCacheKey::SavedPlaylists(offset, limit) => RiffCacheKeyView::SavedPlaylists(offset, limit),
            RiffCacheKey::Album(id) => RiffCacheKeyView::Album(id@),
            RiffCacheKey::AlbumLiked(id) => RiffCacheKeyView::AlbumLiked(id@),
            RiffCacheKey::AlbumTracks(id, offset, limit) => RiffCacheKeyView::AlbumTracks(id@, offset, limit),
            RiffCacheKey::Playlist(id) => RiffCacheKeyView::Playlist(id@),
            RiffCacheKey::PlaylistTracks(id, offset, limit) => RiffCacheKeyView::PlaylistTracks(id@, offset, limit),
            RiffCacheKey::ArtistAlbums(id, offset, limit) => RiffCacheKeyView::ArtistAlbums(id@, offset, limit),
            RiffCacheKey::Artist(id) => RiffCacheKeyView::Artist(id@),
            RiffCacheKey::ArtistTopTracks(id) => RiffCacheKeyView::ArtistTopTracks(id@),
            RiffCacheKey::User(id) => RiffCacheKeyView::User(id@),
            RiffCacheKey::Me => RiffCacheKeyView::Me,
            RiffCacheKey::UserPlaylists(id, offset, limit) => RiffCacheKeyView::UserPlaylists(id@, offset, limit),
            RiffCacheKey::RecentlyPlayed(limit) => RiffCacheKeyView::RecentlyPlayed(limit),
            RiffCacheKey::TopArtists(limit) => RiffCacheKeyView::TopArtists(limit),
            RiffCacheKey::TopTracks(limit) => RiffCacheKeyView::TopTracks(limit),
        }
    }
}

impl RiffCacheKeyView {
    /// The words of the file name, which are separated by underscores.
    pub open spec fn words(self) -> Seq<Seq<char>> {
        match self {
            RiffCacheKeyView::SavedAlbums(offset, limit) => seq![
                "me"@,
                "albums"@,
                text::decimal(offset as nat),
                text::decimal(limit as nat),
            ],
            RiffCacheKeyView::SavedTracks(offset, limit) => seq![
                "me"@,
                "tracks"@,
                text::decimal(offset as nat),
                text::decimal(limit as nat),
            ],
            RiffCacheKeyView::SavedPlaylists(offset, limit) => seq![
                "me"@,
                "playlists"@,
                text::decimal(offset as nat),
                text::decimal(limit as nat),
            ],
            RiffCacheKeyView::Album(id) => seq!["album"@, id],
            RiffCacheKeyView::AlbumLiked(id) => seq!["album"@, "liked"@, id],
            RiffCacheKeyView::AlbumTracks(id, offset, limit) => seq![
                "album"@,
                "item"@,
                id,
                text::decimal(offset as nat),
                text::decimal(limit as nat),
            ],
            RiffCacheKeyView::Playlist(id) => seq!["playlist"@, id],
            RiffCacheKeyView::PlaylistTracks(id, offset, limit) => seq![
                "playlist"@,
                "item"@,
                id,
                text::decimal(offset as nat),
                text::decimal(limit as nat),
            ],
            RiffCacheKeyView::ArtistAlbums(id, offset, limit) => seq![
                "artist"@,
                "albums"@,
                id,
                text::decimal(offset as nat),
                text::decimal(limit as nat),
            ],
            RiffCacheKeyView::Artist(id) => seq!["artist"@, id],
            RiffCacheKeyView::ArtistTopTracks(id) => seq!["artist"@, "top"@, "tracks"@, id],
            RiffCacheKeyView::User(id) => seq!["user"@, id],
            RiffCacheKeyView::Me => seq!["me"@],
            RiffCacheKeyView::UserPlaylists(id, offset, limit) => seq![
                "user"@,
                "playlists"@,
                id,
                text::decimal(offset as nat),
                text::decimal(limit as nat),
            ],
            RiffCacheKeyView::RecentlyPlayed(limit) => seq![
                "me"@,
                "recently"@,
                "played"@,
                text::decimal(limit as nat),
            ],
            RiffCacheKeyView::TopArtists(limit) => seq![
                "me"@,
                "top"@,
                "artists"@,
                text::decimal(limit as nat),
            ],
            RiffCacheKeyView::TopTracks(limit) => seq![
                "me"@,
                "top"@,
                "tracks"@,
                text::decimal(limit as nat),
            ],
        }
    }

    /// The id that is asked for, where one is.
    pub open spec fn id(self) -> Seq<char> {
        match self {
            RiffCacheKeyView::Album(id) => id,
            RiffCacheKeyView::AlbumLiked(id) => id,
            RiffCacheKeyView::AlbumTracks(id, ..) => id,
            RiffCacheKeyView::Playlist(id) => id,
            RiffCacheKeyView::PlaylistTracks(id, ..) => id,
            RiffCacheKeyView::ArtistAlbums(id, ..) => id,
            RiffCacheKeyView::Artist(id) => id,
            RiffCacheKeyView::ArtistTopTracks(id) => id,
            RiffCacheKeyView::User(id) => id,
            RiffCacheKeyView::UserPlaylists(id, ..) => id,
            _ => Seq::empty(),
        }
    }
}

/// The text is made of ASCII letters and digits, as ids are.
pub open spec fn is_plain(text: Seq<char>) -> bool {
    forall|i: int|
        0 <= i < text.len() ==> ('0' <= #[trigger] text[i] <= '9' || 'a' <= text[i] <= 'z' || 'A'
            <= text[i] <= 'Z')
}

/// The text holds no underscore.
pub open spec fn is_word(text: Seq<char>) -> bool {
    !text.contains('_')
}

/// The words with an underscore between each two.
pub open spec fn spread(words: Seq<Seq<char>>) -> Seq<char>
    decreases words.len(),
{
    if words.len() == 0 {
        Seq::empty()
    } else if words.len() == 1 {
        words[0]
    } else {
        words[0] + "_"@ + spread(words.skip(1))
    }
}

/// Words can be told from the text that they are spread over.
proof fn lemma_spread_injective(a: Seq<Seq<char>>, b: Seq<Seq<char>>)
    requires
        a.len() > 0,
        b.len() > 0,
        forall|i: int| 0 <= i < a.len() ==> is_word(#[trigger] a[i]),
        forall|i: int| 0 <= i < b.len() ==> is_word(#[trigger] b[i]),
        spread(a) == spread(b),
    ensures
        a == b,
    decreases a.len(),
{
    reveal_strlit("_");
    let x = spread(a);
    assert(is_word(a[0]));
    assert(is_word(b[0]));
    if a.len() == 1 {
        if b.len() > 1 {
            assert(spread(b)[b[0].len() as int] == '_');
            assert(a[0].contains('_'));
        }
        assert(a =~= b);
    } else if b.len() == 1 {
        assert(x[a[0].len() as int] == '_');
        assert(b[0].contains('_'));
    } else {
        assert(x[a[0].len() as int] == '_');
        assert(x[b[0].len() as int] == '_');
        if a[0].len() < b[0].len() {
            assert(b[0][a[0].len() as int] == x[a[0].len() as int]);
            assert(b[0].contains('_'));
        }
        if b[0].len() < a[0].len() {
            assert(a[0][b[0].len() as int] == x[b[0].len() as int]);
            assert(a[0].contains('_'));
        }
        assert(a[0] =~= x.take(a[0].len() as int));
        assert(b[0] =~= x.take(b[0].len() as int));
        assert(spread(a.skip(1)) =~= x.skip(a[0].len() as int + 1));
        assert(spread(b.skip(1)) =~= x.skip(b[0].len() as int + 1));
        lemma_spread_injective(a.skip(1), b.skip(1));
        assert forall|i: int| 0 <= i < a.len() implies a[i] == b[i] by {
            if i > 0 {
                assert(a[i] == a.skip(1)[i - 1]);
                assert(b[i] == b.skip(1)[i - 1]);
            }
        }
        assert(a =~= b);
    }
}

proof fn lemma_spread_two(a: Seq<char>, b: Seq<char>)
    ensures
        spread(seq![a, b]) == a + "_"@ + b,
{
    assert(seq![a, b].skip(1) =~= seq![b]);
    assert(spread(seq![b]) == b);
}

proof fn lemma_spread_three(a: Seq<char>, b: Seq<char>, c: Seq<char>)
    ensures
        spread(seq![a, b, c]) == a + "_"@ + (b + "_"@ + c),
{
    assert(seq![a, b, c].skip(1) =~= seq![b, c]);
    lemma_spread_two(b, c);
}

proof fn lemma_spread_four(a: Seq<char>, b: Seq<char>, c: Seq<char>, d: Seq<char>)
    ensures
        spread(seq![a, b, c, d]) == a + "_"@ + (b + "_"@ + (c + "_"@ + d)),
{
    assert(seq![a, b, c, d].skip(1) =~= seq![b, c, d]);
    lemma_spread_three(b, c, d);
}

proof fn lemma_spread_five(a: Seq<char>, b: Seq<char>, c: Seq<char>, d: Seq<char>, e: Seq<char>)
    ensures
        spread(seq![a, b, c, d, e]) == a + "_"@ + (b + "_"@ + (c + "_"@ + (d + "_"@ + e))),
{
    assert(seq![a, b, c, d, e].skip(1) =~= seq![b, c, d, e]);
    lemma_spread_four(b, c, d, e);
}

proof fn lemma_plain_is_word(text: Seq<char>)
    requires
        is_plain(text),
    ensures
        is_word(text),
{
}

proof fn lemma_decimal_is_word(n: nat)
    ensures
        is_word(text::decimal(n)),
{
    text::lemma_decimal_digits(n);
}

/// The words are words, and the name is made of them.
spec fn made_of(name: Seq<char>, words: Seq<Seq<char>>) -> bool {
    &&& name == spread(words) + ".json"@
    &&& words.len() > 0
    &&& forall|i: int| 0 <= i < words.len() ==> is_word(#[trigger] words[i])
}

proof fn lemma_one_word(a: Seq<char>, id: Seq<char>)
    requires
        is_word(a),
        is_plain(id),
    ensures
        made_of(a + "_"@ + id + ".json"@, seq![a, id]),
{
    lemma_spread_two(a, id);
    lemma_plain_is_word(id);
}

proof fn lemma_two_words(a: Seq<char>, b: Seq<char>, id: Seq<char>)
    requires
        is_word(a),
        is_word(b),
        is_plain(id),
    ensures
        made_of(a + "_"@ + b + "_"@ + id + ".json"@, seq![a, b, id]),
{
    lemma_spread_three(a, b, id);
    lemma_plain_is_word(id);
    assert(a + "_"@ + b + "_"@ + id =~= a + "_"@ + (b + "_"@ + id));
}

proof fn lemma_three_words(a: Seq<char>, b: Seq<char>, c: Seq<char>, id: Seq<char>)
    requires
        is_word(a),
        is_word(b),
        is_word(c),
        is_word(id),
    ensures
        made_of(a + "_"@ + b + "_"@ + c + "_"@ + id + ".json"@, seq![a, b, c, id]),
{
    lemma_spread_four(a, b, c, id);
    assert(a + "_"@ + b + "_"@ + c + "_"@ + id =~= a + "_"@ + (b + "_"@ + (c + "_"@ + id)));
}

proof fn lemma_page(a: Seq<char>, b: Seq<char>, offset: nat, limit: nat)
    requires
        is_word(a),
        is_word(b),
    ensures
        made_of(
            a + "_"@ + b + page_suffix(offset, limit),
            seq![a, b, text::decimal(offset), text::decimal(limit)],
        ),
{
    let o = text::decimal(offset);
    let l = text::decimal(limit);
    lemma_spread_four(a, b, o, l);
    lemma_decimal_is_word(offset);
    lemma_decimal_is_word(limit);
    assert(a + "_"@ + b + page_suffix(offset, limit) =~= a + "_"@ + (b + "_"@ + (o + "_"@ + l))
        + ".json"@);
}

proof fn lemma_page_of(a: Seq<char>, b: Seq<char>, id: Seq<char>, offset: nat, limit: nat)
    requires
        is_word(a),
        is_word(b),
        is_plain(id),
    ensures
        made_of(
            a + "_"@ + b + "_"@ + id + page_suffix(offset, limit),
            seq![a, b, id, text::decimal(offset), text::decimal(limit)],
        ),
{
    let o = text::decimal(offset);
    let l = text::decimal(limit);
    lemma_spread_five(a, b, id, o, l);
    lemma_plain_is_word(id);
    lemma_decimal_is_word(offset);
    lemma_decimal_is_word(limit);
    assert(a + "_"@ + b + "_"@ + id + page_suffix(offset, limit) =~= a + "_"@ + (b + "_"@ + (id
        + "_"@ + (o + "_"@ + l))) + ".json"@);
}

/// The words that file names are made of.
proof fn lemma_words()
    ensures
        is_word("album"@),
        is_word("albums"@),
        is_word("artist"@),
        is_word("artists"@),
        is_word("item"@),
        is_word("liked"@),
        is_word("me"@),
        is_word("played"@),
        is_word("playlist"@),
        is_word("playlists"@),
        is_word("recently"@),
        is_word("top"@),
        is_word("tracks"@),
        is_word("user"@),
{
    reveal_strlit("album");
    reveal_strlit("albums");
    reveal_strlit("artist");
    reveal_strlit("artists");
    reveal_strlit("item");
    reveal_strlit("liked");
    reveal_strlit("me");
    reveal_strlit("played");
    reveal_strlit("playlist");
    reveal_strlit("playlists");
    reveal_strlit("recently");
    reveal_strlit("top");
    reveal_strlit("tracks");
    reveal_strlit("user");
}

/// A file name is its words, with underscores between them, and an ending.
proof fn lemma_file_name_words(key: RiffCacheKey)
    requires
        is_plain(key.deep_view().id()),
    ensures
        made_of(key.file_name(), key.deep_view().words()),
{
    lemma_words();
    match key {
        RiffCacheKey::SavedAlbums(offset, limit) => lemma_saved_albums(offset, limit),
        RiffCacheKey::SavedTracks(offset, limit) => lemma_saved_tracks(offset, limit),
        RiffCacheKey::SavedPlaylists(offset, limit) => lemma_saved_playlists(offset, limit),
        RiffCacheKey::Album(id) => lemma_album(id),
        RiffCacheKey::AlbumLiked(id) => lemma_album_liked(id),
        RiffCacheKey::AlbumTracks(id, offset, limit) => lemma_album_tracks(id, offset, limit),
        RiffCacheKey::Playlist(id) => lemma_playlist(id),
        RiffCacheKey::PlaylistTracks(id, offset, limit) => lemma_playlist_tracks(id, offset, limit),
        RiffCacheKey::ArtistAlbums(id, offset, limit) => lemma_artist_albums(id, offset, limit),
        RiffCacheKey::Artist(id) => lemma_artist(id),
        RiffCacheKey::ArtistTopTracks(id) => lemma_artist_top_tracks(id),
        RiffCacheKey::User(id) => lemma_user(id),
        RiffCacheKey::Me => lemma_me(),
        RiffCacheKey::UserPlaylists(id, offset, limit) => lemma_user_playlists(id, offset, limit),
        RiffCacheKey::RecentlyPlayed(limit) => lemma_recently_played(limit),
        RiffCacheKey::TopArtists(limit) => lemma_top_artists(limit),
        RiffCacheKey::TopTracks(limit) => lemma_top_tracks(limit),
    }
}

proof fn lemma_saved_albums(offset: usize, limit: usize)
    ensures
        made_of(RiffCacheKey::SavedAlbums(offset, limit).file_name(), RiffCacheKey::SavedAlbums(offset, limit).deep_view().words()),
{
    lemma_words();
    reveal_strlit("me_albums");
    reveal_strlit("me");
    reveal_strlit("albums");
    reveal_strlit("_");
    assert("me_albums"@ =~= "me"@ + "_"@ + "albums"@);
    lemma_page("me"@, "albums"@, offset as nat, limit as nat);
}

proof fn lemma_saved_tracks(offset: usize, limit: usize)
    ensures
        made_of(RiffCacheKey::SavedTracks(offset, limit).file_name(), RiffCacheKey::SavedTracks(offset, limit).deep_view().words()),
{
    lemma_words();
    reveal_strlit("me_tracks");
    reveal_strlit("me");
    reveal_strlit("tracks");
    reveal_strlit("_");
    assert("me_tracks"@ =~= "me"@ + "_"@ + "tracks"@);
    lemma_page("me"@, "tracks"@, offset as nat, limit as nat);
}

proof fn lemma_saved_playlists(offset: usize, limit: usize)
    ensures
        made_of(RiffCacheKey::SavedPlaylists(offset, limit).file_name(), RiffCacheKey::SavedPlaylists(offset, limit).deep_view().words()),
{
    lemma_words();
    reveal_strlit("me_playlists");
    reveal_strlit("me");
    reveal_strlit("playlists");
    reveal_strlit("_");
    assert("me_playlists"@ =~= "me"@ + "_"@ + "playlists"@);
    lemma_page("me"@, "playlists"@, offset as nat, limit as nat);
}

proof fn lemma_album(id: &str)
    requires
        is_plain(id@),
    ensures
        made_of(RiffCacheKey::Album(id).file_name(), RiffCacheKey::Album(id).deep_view().words()),
{
    lemma_words();
    reveal_strlit("album_");
    reveal_strlit("album");
    reveal_strlit("_");
    assert("album_"@ =~= "album"@ + "_"@);
    lemma_one_word("album"@, id@);
}

proof fn lemma_album_liked(id: &str)
    requires
        is_plain(id@),
    ensures
        made_of(RiffCacheKey::AlbumLiked(id).file_name(), RiffCacheKey::AlbumLiked(id).deep_view().words()),
{
    lemma_words();
    reveal_strlit("album_liked_");
    reveal_strlit("album");
    reveal_strlit("liked");
    reveal_strlit("_");
    assert("album_liked_"@ =~= "album"@ + "_"@ + "liked"@ + "_"@);
    lemma_two_words("album"@, "liked"@, id@);
}

proof fn lemma_album_tracks(id: &str, offset: usize, limit: usize)
    requires
        is_plain(id@),
    ensures
        made_of(RiffCacheKey::AlbumTracks(id, offset, limit).file_name(), RiffCacheKey::AlbumTracks(id, offset, limit).deep_view().words()),
{
    lemma_words();
    reveal_strlit("album_item_");
    reveal_strlit("album");
    reveal_strlit("item");
    reveal_strlit("_");
    assert("album_item_"@ =~= "album"@ + "_"@ + "item"@ + "_"@);
    lemma_page_of("album"@, "item"@, id@, offset as nat, limit as nat);
}

proof fn lemma_playlist(id: &str)
    requires
        is_plain(id@),
    ensures
        made_of(RiffCacheKey::Playlist(id).file_name(), RiffCacheKey::Playlist(id).deep_view().words()),
{
    lemma_words();
    reveal_strlit("playlist_");
    reveal_strlit("playlist");
    reveal_strlit("_");
    assert("playlist_"@ =~= "playlist"@ + "_"@);
    lemma_one_word("playlist"@, id@);
}

proof fn lemma_playlist_tracks(id: &str, offset: usize, limit: usize)
    requires
        is_plain(id@),
    ensures
        made_of(RiffCacheKey::PlaylistTracks(id, offset, limit).file_name(), RiffCacheKey::PlaylistTracks(id, offset, limit).deep_view().words()),
{
    lemma_words();
    reveal_strlit("playlist_item_");
    reveal_strlit("playlist");
    reveal_strlit("item");
    reveal_strlit("_");
    assert("playlist_item_"@ =~= "playlist"@ + "_"@ + "item"@ + "_"@);
    lemma_page_of("playlist"@, "item"@, id@, offset as nat, limit as nat);
}

proof fn lemma_artist_albums(id: &str, offset: usize, limit: usize)
    requires
        is_plain(id@),
    ensures
        made_of(RiffCacheKey::ArtistAlbums(id, offset, limit).file_name(), RiffCacheKey::ArtistAlbums(id, offset, limit).deep_view().words()),
{
    lemma_words();
    reveal_strlit("artist_albums_");
    reveal_strlit("artist");
    reveal_strlit("albums");
    reveal_strlit("_");
    assert("artist_albums_"@ =~= "artist"@ + "_"@ + "albums"@ + "_"@);
    lemma_page_of("artist"@, "albums"@, id@, offset as nat, limit as nat);
}

proof fn lemma_artist(id: &str)
    requires
        is_plain(id@),
    ensures
        made_of(RiffCacheKey::Artist(id).file_name(), RiffCacheKey::Artist(id).deep_view().words()),
{
    lemma_words();
    reveal_strlit("artist_");
    reveal_strlit("artist");
    reveal_strlit("_");
    assert("artist_"@ =~= "artist"@ + "_"@);
    lemma_one_word("artist"@, id@);
}

proof fn lemma_artist_top_tracks(id: &str)
    requires
        is_plain(id@),
    ensures
        made_of(RiffCacheKey::ArtistTopTracks(id).file_name(), RiffCacheKey::ArtistTopTracks(id).deep_view().words()),
{
    lemma_words();
    reveal_strlit("artist_top_tracks_");
    reveal_strlit("artist");
    reveal_strlit("top");
    reveal_strlit("tracks");
    reveal_strlit("_");
    assert("artist_top_tracks_"@ =~= "artist"@ + "_"@ + "top"@ + "_"@ + "tracks"@ + "_"@);
    lemma_plain_is_word(id@);
    lemma_three_words("artist"@, "top"@, "tracks"@, id@);
}

proof fn lemma_user(id: &str)
    requires
        is_plain(id@),
    ensures
        made_of(RiffCacheKey::User(id).file_name(), RiffCacheKey::User(id).deep_view().words()),
{
    lemma_words();
    reveal_strlit("user_");
    reveal_strlit("user");
    reveal_strlit("_");
    assert("user_"@ =~= "user"@ + "_"@);
    lemma_one_word("user"@, id@);
}

proof fn lemma_me()
    ensures
        made_of(RiffCacheKey::Me.file_name(), RiffCacheKey::Me.deep_view().words()),
{
    lemma_words();
    reveal_strlit("me.json");
    reveal_strlit("me");
    reveal_strlit(".json");
    assert("me.json"@ =~= "me"@ + ".json"@);
}

proof fn lemma_user_playlists(id: &str, offset: usize, limit: usize)
    requires
        is_plain(id@),
    ensures
        made_of(RiffCacheKey::UserPlaylists(id, offset, limit).file_name(), RiffCacheKey::UserPlaylists(id, offset, limit).deep_view().words()),
{
    lemma_words();
    reveal_strlit("user_playlists_");
    reveal_strlit("user");
    reveal_strlit("playlists");
    reveal_strlit("_");
    assert("user_playlists_"@ =~= "user"@ + "_"@ + "playlists"@ + "_"@);
    lemma_page_of("user"@, "playlists"@, id@, offset as nat, limit as nat);
}

proof fn lemma_recently_played(limit: usize)
    ensures
        made_of(RiffCacheKey::RecentlyPlayed(limit).file_name(), RiffCacheKey::RecentlyPlayed(limit).deep_view().words()),
{
    lemma_words();
    reveal_strlit("me_recently_played_");
    reveal_strlit("me");
    reveal_strlit("recently");
    reveal_strlit("played");
    reveal_strlit("_");
    assert("me_recently_played_"@ =~= "me"@ + "_"@ + "recently"@ + "_"@ + "played"@ + "_"@);
    lemma_decimal_is_word(limit as nat);
    lemma_three_words("me"@, "recently"@, "played"@, text::decimal(limit as nat));
}

proof fn lemma_top_artists(limit: usize)
    ensures
        made_of(RiffCacheKey::TopArtists(limit).file_name(), RiffCacheKey::TopArtists(limit).deep_view().words()),
{
    lemma_words();
    reveal_strlit("me_top_artists_");
    reveal_strlit("me");
    reveal_strlit("top");
    reveal_strlit("artists");
    reveal_strlit("_");
    assert("me_top_artists_"@ =~= "me"@ + "_"@ + "top"@ + "_"@ + "artists"@ + "_"@);
    lemma_decimal_is_word(limit as nat);
    lemma_three_words("me"@, "top"@, "artists"@, text::decimal(limit as nat));
}

proof fn lemma_top_tracks(limit: usize)
    ensures
        made_of(RiffCacheKey::TopTracks(limit).file_name(), RiffCacheKey::TopTracks(limit).deep_view().words()),
{
    lemma_words();
    reveal_strlit("me_top_tracks_");
    reveal_strlit("me");
    reveal_strlit("top");
    reveal_strlit("tracks");
    reveal_strlit("_");
    assert("me_top_tracks_"@ =~= "me"@ + "_"@ + "top"@ + "_"@ + "tracks"@ + "_"@);
    lemma_decimal_is_word(limit as nat);
    lemma_three_words("me"@, "top"@, "tracks"@, text::decimal(limit as nat));
}

/// No two requests share a file, as long as ids are made of letters and digits; and
/// every file has the same ending.
pub proof fn law_requests_have_their_own_files(a: RiffCacheKey, b: RiffCacheKey)
    requires
        is_plain(a.deep_view().id()),
        is_plain(b.deep_view().id()),
    ensures
        a.file_name() == b.file_name() ==> a.deep_view() == b.deep_view(),
        a.file_name().len() >= 5 && a.file_name().skip(a.file_name().len() - 5) == ".json"@,
{
    reveal_strlit(".json");
    let x = a.deep_view().words();
    let y = b.deep_view().words();
    lemma_file_name_words(a);
    lemma_file_name_words(b);
    assert(a.file_name().skip(a.file_name().len() - 5) =~= ".json"@);
    if a.file_name() == b.file_name() {
        let n = a.file_name().len() - 5;
        assert(spread(x) =~= a.file_name().take(n));
        assert(spread(y) =~= b.file_name().take(n));
        lemma_spread_injective(x, y);
        lemma_words_tell_keys_apart(a.deep_view(), b.deep_view());
    }
}

/// How many words there are and how long the first is; of four words, also how long
/// the second is and what it begins with, and how long the third is where the second
/// is short.
spec fn shape_of(words: Seq<Seq<char>>) -> (int, int, int, char, int) {
    let four = words.len() == 4;
    (
        words.len() as int,
        words[0].len() as int,
        if four {
            words[1].len() as int
        } else {
            0
        },
        if four {
            words[1][0]
        } else {
            '_'
        },
        if four && words[1].len() == 3 {
            words[2].len() as int
        } else {
            0
        },
    )
}

/// The shape of the words of a request.
spec fn shape(key: RiffCacheKeyView) -> (int, int, int, char, int) {
    match key {
        RiffCacheKeyView::SavedAlbums(_, _) => (4, 2, 6, 'a', 0),
        RiffCacheKeyView::SavedTracks(_, _) => (4, 2, 6, 't', 0),
        RiffCacheKeyView::SavedPlaylists(_, _) => (4, 2, 9, 'p', 0),
        RiffCacheKeyView::Album(_) => (2, 5, 0, '_', 0),
        RiffCacheKeyView::AlbumLiked(_) => (3, 5, 0, '_', 0),
        RiffCacheKeyView::AlbumTracks(_, _, _) => (5, 5, 0, '_', 0),
        RiffCacheKeyView::Playlist(_) => (2, 8, 0, '_', 0),
        RiffCacheKeyView::PlaylistTracks(_, _, _) => (5, 8, 0, '_', 0),
        RiffCacheKeyView::ArtistAlbums(_, _, _) => (5, 6, 0, '_', 0),
        RiffCacheKeyView::Artist(_) => (2, 6, 0, '_', 0),
        RiffCacheKeyView::ArtistTopTracks(_) => (4, 6, 3, 't', 6),
        RiffCacheKeyView::User(_) => (2, 4, 0, '_', 0),
        RiffCacheKeyView::Me => (1, 2, 0, '_', 0),
        RiffCacheKeyView::UserPlaylists(_, _, _) => (5, 4, 0, '_', 0),
        RiffCacheKeyView::RecentlyPlayed(_) => (4, 2, 8, 'r', 0),
        RiffCacheKeyView::TopArtists(_) => (4, 2, 3, 't', 7),
        RiffCacheKeyView::TopTracks(_) => (4, 2, 3, 't', 6),
    }
}

proof fn lemma_shape(key: RiffCacheKeyView)
    ensures
        shape_of(key.words()) == shape(key),
{
    reveal_strlit("album");
    reveal_strlit("albums");
    reveal_strlit("artist");
    reveal_strlit("artists");
    reveal_strlit("item");
    reveal_strlit("liked");
    reveal_strlit("me");
    reveal_strlit("played");
    reveal_strlit("playlist");
    reveal_strlit("playlists");
    reveal_strlit("recently");
    reveal_strlit("top");
    reveal_strlit("tracks");
    reveal_strlit("user");
}

/// The words of a request tell it from all others.
proof fn lemma_words_tell_keys_apart(a: RiffCacheKeyView, b: RiffCacheKeyView)
    requires
        a.words() == b.words(),
    ensures
        a == b,
{
    let x = a.words();
    let y = b.words();
    lemma_shape(a);
    lemma_shape(b);
    assert forall|m: nat, n: nat| #[trigger] text::decimal(m) == #[trigger] text::decimal(
        n,
    ) implies m == n by {
        text::lemma_decimal_injective(m, n);
    }
    assert(shape(a) == shape(b));
    if x.len() > 1 {
        assert(x[1] == y[1]);
    }
    if x.len() > 2 {
        assert(x[2] == y[2]);
    }
    if x.len() > 3 {
        assert(x[3] == y[3]);
    }
    if x.len() > 4 {
        assert(x[4] == y[4]);
    }
}

} // verus!

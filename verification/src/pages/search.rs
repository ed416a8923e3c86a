//! The search page: the user's own playlists that match, then what the service
//! found.

use vstd::prelude::*;

use crate::actions;
use crate::actions::{
    AppActionView, AppEvent, BrowserActionView, BrowserEvent, EffectView,
};
use crate::card_model;
use crate::card_model::{
    card_of_album, card_of_artist, card_of_playlist, card_of_song, untitled, CardKind, CardModel,
    CardModelView,
};
use crate::id_set::IdSet;
use crate::lists;
use crate::models;
use crate::models::{
    AlbumDescription, AlbumDescriptionView, ArtistSummary, ArtistSummaryView, PlaylistDescription,
    PlaylistDescriptionView, SearchResultsView, SongDescription, SongDescriptionView,
};
use crate::pages::library;
use crate::pages::library::has_card;
use crate::pages::library_list;
use crate::pages::search_model::SearchResultsModel;
use crate::sorting;
use crate::sorting::{sort_by, Ranking};
use crate::state::{AppState, HomeState};
use crate::text;
use crate::text::{
    chars_of, contains, gettext, is_whitespace, matches_at, order_text, order_u32, starts_with,
    to_lowercase, trim, Order,
};

verus! {

// ── Which kinds are shown ──────────────────────────────────────────────────

/// What kind of results is shown.
#[derive(Clone, Copy, Debug, PartialEq, Eq, Structural)]
pub enum SearchFilter {
    All,
    Songs,
    Artists,
    Albums,
    Playlists,
}

impl SearchFilter {
    /// The kind of the cards that are shown; none if all are.
    pub open spec fn spec_kind(self) -> Option<CardKind> {
        match self {
            SearchFilter::All => None,
            SearchFilter::Songs => Some(CardKind::Untyped),
            SearchFilter::Artists => Some(CardKind::Artist),
            SearchFilter::Albums => Some(CardKind::Album),
            SearchFilter::Playlists => Some(CardKind::Playlist),
        }
    }

    /// The kind of the cards that are shown; none if all are.
    pub fn kind(self) -> (r: Option<CardKind>)
        ensures
            r == self.spec_kind(),
    {
        match self {
            SearchFilter::All => None,
            SearchFilter::Songs => Some(CardKind::Untyped),
            SearchFilter::Artists => Some(CardKind::Artist),
            SearchFilter::Albums => Some(CardKind::Album),
            SearchFilter::Playlists => Some(CardKind::Playlist),
        }
    }

    /// The message id of the label of the filter.
    pub open spec fn spec_msgid(self) -> Seq<char> {
        match self {
            SearchFilter::All => "All"@,
            SearchFilter::Songs => "Songs"@,
            SearchFilter::Artists => "Artists"@,
            SearchFilter::Albums => "Albums"@,
            SearchFilter::Playlists => "Playlists"@,
        }
    }

    /// The label of the filter in the user's language.
    pub fn label(self) -> (r: String)
        ensures
            text::translates(r@, self.spec_msgid()),
    {
        proof {
            reveal_strlit("All");
            reveal_strlit("Songs");
            reveal_strlit("Artists");
            reveal_strlit("Albums");
            reveal_strlit("Playlists");
        }
        gettext(
            match self {
                SearchFilter::All => "All",
                SearchFilter::Songs => "Songs",
                SearchFilter::Artists => "Artists",
                SearchFilter::Albums => "Albums",
                SearchFilter::Playlists => "Playlists",
            },
        )
    }

    /// Whether the card is shown.
    pub fn admits(self, card: &CardModel) -> (r: bool)
        ensures
            r == (self.spec_kind() is None || self.spec_kind() == Some(card.kind)),
            self == SearchFilter::All ==> r,
            self == SearchFilter::Songs ==> r == (card.kind == CardKind::Untyped),
            self == SearchFilter::Artists ==> r == (card.kind == CardKind::Artist),
            self == SearchFilter::Albums ==> r == (card.kind == CardKind::Album),
            self == SearchFilter::Playlists ==> r == (card.kind == CardKind::Playlist),
    {
        match self.kind() {
            None => true,
            Some(kind) => card.kind == kind,
        }
    }
}

/// Every card is shown under exactly one kind besides all.
pub proof fn law_every_card_has_one_filter(kind: CardKind, a: SearchFilter, b: SearchFilter)
    requires
        a.spec_kind() == Some(kind),
        b.spec_kind() == Some(kind),
    ensures
        a == b,
        SearchFilter::All.spec_kind() is None,
{
}

// ── The user's own playlists ───────────────────────────────────────────────

/// A character that ends a word of a name.
pub open spec fn is_separator(c: char) -> bool {
    text::white_space(c) || c == '-' || c == '_' || c == '/'
}

/// A word of the name starts at this place.
pub open spec fn word_starts(name: Seq<char>, at: int) -> bool {
    0 <= at <= name.len() && (at == 0 || is_separator(name[at - 1]))
}

/// A word of the name begins with the query.
pub open spec fn has_word_prefix(name: Seq<char>, query: Seq<char>) -> bool {
    &&& forall|i: int| 0 <= i < query.len() ==> !is_separator(#[trigger] query[i])
    &&& exists|at: int| #[trigger] word_starts(name, at) && text::occurs_at(name, query, at)
}

/// How well a name matches a query, both in lower case: 0 if it begins with it, 1
/// if one of its words does, 2 if it holds it; nothing matches an empty query.
pub open spec fn match_rank(name: Seq<char>, query: Seq<char>) -> Option<u32> {
    if query.len() == 0 {
        None
    } else if text::has_prefix(name, query) {
        Some(0)
    } else if has_word_prefix(name, query) {
        Some(1)
    } else if text::has_substring(name, query) {
        Some(2)
    } else {
        None
    }
}

fn separates(c: char) -> (r: bool)
    ensures
        r == is_separator(c),
{
    is_whitespace(c) || c == '-' || c == '_' || c == '/'
}

fn word_begins_with(name: &str, query: &str) -> (r: bool)
    ensures
        r == has_word_prefix(name@, query@),
{
    let n: Vec<char> = chars_of(name);
    let q: Vec<char> = chars_of(query);
    let mut i: usize = 0;
    while i < q.len()
        invariant
            i <= q.len(),
            q@ == query@,
            forall|k: int| 0 <= k < i ==> !is_separator(#[trigger] query@[k]),
        decreases q.len() - i,
    {
        if separates(q[i]) {
            assert(is_separator(query@[i as int]));
            return false;
        }
        i += 1;
    }
    let mut at: usize = 0;
    while at < n.len()
        invariant
            at <= n.len(),
            n@ == name@,
            q@ == query@,
            forall|k: int| 0 <= k < query@.len() ==> !is_separator(#[trigger] query@[k]),
            forall|k: int|
                0 <= k < at ==> !(#[trigger] word_starts(name@, k) && text::occurs_at(
                    name@,
                    query@,
                    k,
                )),
        decreases n.len() - at,
    {
        if (at == 0 || separates(n[at - 1])) && matches_at(&n, &q, at) {
            assert(word_starts(name@, at as int));
            return true;
        }
        at += 1;
    }
    if (at == 0 || separates(n[at - 1])) && matches_at(&n, &q, at) {
        assert(word_starts(name@, at as int));
        return true;
    }
    false
}

/// How well a name matches a query, both in lower case; the lower the better.
pub fn owned_match_rank(name_lower: &str, query_lower: &str) -> (r: Option<u32>)
    ensures
        r == match_rank(name_lower@, query_lower@),
{
    if query_lower.is_empty() {
        return None;
    }
    if starts_with(name_lower, query_lower) {
        return Some(0);
    }
    if word_begins_with(name_lower, query_lower) {
        return Some(1);
    }
    if contains(name_lower, query_lower) {
        return Some(2);
    }
    None
}

/// A name that matches a query holds it, and a name that holds it matches.
pub proof fn law_matches_are_substrings(name: Seq<char>, query: Seq<char>)
    requires
        query.len() > 0,
    ensures
        match_rank(name, query) is Some <==> text::has_substring(name, query),
        match_rank(name, query) matches Some(rank) ==> rank <= 2,
        match_rank(name, query) == Some(0u32) <==> text::has_prefix(name, query),
{
    if text::has_prefix(name, query) {
        assert(text::occurs_at(name, query, 0));
    } else if has_word_prefix(name, query) {
        let at = choose|at: int| #[trigger] word_starts(name, at) && text::occurs_at(name, query, at);
        assert(text::occurs_at(name, query, at));
    }
}

/// The query as it is matched: without white space around it, in lower case.
pub open spec fn normalized(query: Seq<char>) -> Seq<char> {
    text::lowercase(text::trimmed(query))
}

/// How well a playlist matches a normalized query.
pub open spec fn playlist_rank(p: PlaylistDescriptionView, query: Seq<char>) -> Option<u32> {
    match_rank(text::lowercase(p.title), query)
}

/// The playlists that match the query.
pub open spec fn matching(query: Seq<char>) -> spec_fn(PlaylistDescriptionView) -> bool {
    |p: PlaylistDescriptionView| playlist_rank(p, query) is Some
}

/// The number that a playlist is ordered by; one that does not match comes last.
pub open spec fn rank_number(p: PlaylistDescriptionView, query: Seq<char>) -> int {
    match playlist_rank(p, query) {
        Some(rank) => rank as int,
        None => 3,
    }
}

/// How two playlists are ordered: the better match first, then by title.
pub open spec fn match_order(
    query: Seq<char>,
    a: PlaylistDescriptionView,
    b: PlaylistDescriptionView,
) -> Order {
    library_list::first_then(
        text::int_order(rank_number(a, query), rank_number(b, query)),
        text::text_order(text::lowercase(a.title), text::lowercase(b.title)),
    )
}

/// The order of playlists by how well they match a normalized query.
#[derive(Debug, PartialEq, Eq)]
pub struct MatchRanking {
    pub query: String,
}

impl MatchRanking {
    fn rank(&self, title: &str) -> (r: u32)
        ensures
            r == (match match_rank(title@, self.query@) {
                Some(rank) => rank,
                None => 3,
            }),
    {
        match owned_match_rank(title, self.query.as_str()) {
            Some(rank) => rank,
            None => 3,
        }
    }
}

impl Ranking<PlaylistDescription> for MatchRanking {
    open spec fn order(self) -> spec_fn(
        PlaylistDescriptionView,
        PlaylistDescriptionView,
    ) -> Order {
        match_ordering(self.query@)
    }

    proof fn lemma_is_order(self) {
        lemma_match_order_is_order(self.query@);
    }

    fn compare(&self, a: &PlaylistDescription, b: &PlaylistDescription) -> (r: Order) {
        let ta: String = to_lowercase(a.title.as_str());
        let tb: String = to_lowercase(b.title.as_str());
        match order_u32(self.rank(ta.as_str()), self.rank(tb.as_str())) {
            Order::Equal => order_text(ta.as_str(), tb.as_str()),
            Order::Less => Order::Less,
            Order::Greater => Order::Greater,
        }
    }
}

/// The order of playlists by how well they match a normalized query.
pub open spec fn match_ordering(query: Seq<char>) -> spec_fn(
    PlaylistDescriptionView,
    PlaylistDescriptionView,
) -> Order {
    |a: PlaylistDescriptionView, b: PlaylistDescriptionView| match_order(query, a, b)
}

/// The playlists that match the query, the best match first.
pub open spec fn is_matches_of(
    list: Seq<PlaylistDescriptionView>,
    owned: Seq<PlaylistDescriptionView>,
    query: Seq<char>,
) -> bool {
    if normalized(query).len() == 0 {
        list.len() == 0
    } else {
        sorting::is_sorted_from(
            list,
            owned.filter(matching(normalized(query))),
            match_ordering(normalized(query)),
        )
    }
}

/// The playlists that match the query, the best match first and equally good ones
/// by title.
pub fn matching_owned_playlists(owned: &Vec<PlaylistDescription>, query: &str) -> (r: Vec<
    PlaylistDescription,
>)
    ensures
        is_matches_of(r.deep_view(), owned.deep_view(), query@),
        r@.len() <= owned@.len(),
{
    let needle: String = to_lowercase(trim(query).as_str());
    let mut list: Vec<PlaylistDescription> = Vec::new();
    if needle.as_str().is_empty() {
        return list;
    }
    let ghost q = needle@;
    let ghost all = owned.deep_view();
    let mut i: usize = 0;
    proof {
        reveal(Seq::filter);
        assert(list.deep_view() =~= all.take(0).filter(matching(q)));
    }
    while i < owned.len()
        invariant
            i <= owned.len(),
            q == needle@,
            all == owned.deep_view(),
            list.deep_view() == all.take(i as int).filter(matching(q)),
            list@.len() <= i,
        decreases owned.len() - i,
    {
        proof {
            lists::lemma_filter_take_push(all, matching(q), i as int);
            assert(all[i as int] == owned@[i as int].deep_view());
        }
        let title: String = to_lowercase(owned[i].title.as_str());
        if owned_match_rank(title.as_str(), needle.as_str()).is_some() {
            let ghost before = list;
            let one = owned[i].clone();
            list.push(one);
            proof {
                lists::lemma_deep_push(before, list, one);
            }
        }
        i += 1;
    }
    proof {
        lists::lemma_take_all(all);
    }
    let ranking = MatchRanking { query: needle };
    sort_by(list, &ranking)
}

/// Every playlist that matches is listed, and nothing else is.
pub proof fn law_all_matches_are_listed(
    query: Seq<char>,
    list: Seq<PlaylistDescriptionView>,
    owned: Seq<PlaylistDescriptionView>,
    p: PlaylistDescriptionView,
)
    requires
        is_matches_of(list, owned, query),
        normalized(query).len() > 0,
    ensures
        list.contains(p) <==> owned.contains(p) && playlist_rank(p, normalized(query)) is Some,
{
    let q = normalized(query);
    let from = owned.filter(matching(q));
    lemma_match_order_is_order(q);
    sorting::law_sorting_keeps_the_items(list, from, match_ordering(q), p);
    lists::lemma_filter_set(owned, matching(q));
    assert(from.contains(p) <==> owned.contains(p) && matching(q)(p));
}

/// No playlist is listed above one that matches better.
pub proof fn law_better_matches_come_first(
    query: Seq<char>,
    list: Seq<PlaylistDescriptionView>,
    owned: Seq<PlaylistDescriptionView>,
    i: int,
    j: int,
)
    requires
        is_matches_of(list, owned, query),
        normalized(query).len() > 0,
        0 <= i < j < list.len(),
    ensures
        rank_number(list[i], normalized(query)) <= rank_number(list[j], normalized(query)),
{
    let order = match_ordering(normalized(query));
    assert(order(list[i], list[j]) != Order::Greater);
}

proof fn lemma_match_order_is_order(query: Seq<char>)
    ensures
        sorting::is_order(match_ordering(query)),
{
    let order = match_ordering(query);
    assert forall|a: PlaylistDescriptionView, b: PlaylistDescriptionView| #[trigger]
        order(b, a) == order(a, b).spec_reverse() by {
        text::lemma_text_order_antisymmetric(text::lowercase(a.title), text::lowercase(b.title));
    }
    assert forall|
        a: PlaylistDescriptionView,
        b: PlaylistDescriptionView,
        c: PlaylistDescriptionView,
    | #[trigger] order(a, b) != Order::Greater && #[trigger] order(b, c)
        != Order::Greater implies order(a, c) != Order::Greater by {
        let ta = text::lowercase(a.title);
        let tb = text::lowercase(b.title);
        let tc = text::lowercase(c.title);
        if text::text_order(ta, tb) != Order::Greater && text::text_order(tb, tc)
            != Order::Greater {
            text::lemma_text_order_transitive(ta, tb, tc);
        }
    }
}

// ── The results ────────────────────────────────────────────────────────────

/// The place from which on the results of the service are numbered: behind all of
/// the user's own playlists.
pub const API_POSITION_BASE: u32 = 1_000;

/// A card of the results; a song comes along with its card.
#[derive(Debug, PartialEq, Eq)]
pub struct SearchCard {
    pub card: CardModel,
    pub song: Option<SongDescription>,
}

/// The contents of a `SearchCard`.
pub struct SearchCardView {
    pub card: CardModelView,
    pub song: Option<SongDescriptionView>,
}

impl DeepView for SearchCard {
    type V = SearchCardView;

    open spec fn deep_view(&self) -> SearchCardView {
        SearchCardView { card: self.card.deep_view(), song: self.song.deep_view() }
    }
}

impl Clone for SearchCard {
    fn clone(&self) -> (r: Self)
        ensures
            r.deep_view() == self.deep_view(),
    {
        SearchCard { card: self.card.clone(), song: self.song.clone() }
    }
}

/// The card of a song.
pub open spec fn song_result(song: SongDescriptionView, untitled: Seq<char>) -> SearchCardView {
    SearchCardView {
        card: card_model::song_card(song, card_model::shown_title(song.id, song.title, untitled)),
        song: Some(song),
    }
}

/// The card of an artist; one that the user follows is marked.
pub open spec fn artist_result(
    artist: ArtistSummaryView,
    followed: Set<Seq<char>>,
    untitled: Seq<char>,
) -> SearchCardView {
    SearchCardView {
        card: CardModelView {
            pinned: followed.contains(artist.id),
            ..card_model::artist_card(
                artist,
                card_model::shown_title(artist.id, artist.name, untitled),
            )
        },
        song: None,
    }
}

/// The card of an album; one that the user saved is marked.
pub open spec fn album_result(
    album: AlbumDescriptionView,
    saved: Set<Seq<char>>,
    untitled: Seq<char>,
) -> SearchCardView {
    SearchCardView {
        card: CardModelView {
            pinned: saved.contains(album.id),
            ..card_model::album_card(
                album,
                card_model::shown_title(album.id, album.title, untitled),
            )
        },
        song: None,
    }
}

/// The card of a playlist; one of the user's own is marked.
pub open spec fn playlist_result(
    playlist: PlaylistDescriptionView,
    pinned: bool,
    untitled: Seq<char>,
) -> SearchCardView {
    SearchCardView {
        card: CardModelView {
            pinned,
            ..card_model::playlist_card(
                playlist,
                card_model::shown_title(playlist.id, playlist.title, untitled),
            )
        },
        song: None,
    }
}

/// The ids of the playlists.
pub open spec fn playlist_ids(list: Seq<PlaylistDescriptionView>) -> Seq<Seq<char>> {
    list.map_values(|p: PlaylistDescriptionView| p.id)
}

/// The playlists whose id is not among the given ones.
pub open spec fn not_listed(ids: Seq<Seq<char>>) -> spec_fn(PlaylistDescriptionView) -> bool {
    |p: PlaylistDescriptionView| !ids.contains(p.id)
}

/// The ids of the saved albums.
pub open spec fn saved_album_ids(home: Option<HomeState>) -> Set<Seq<char>> {
    match home {
        Some(home) => library::card_ids(home.albums.deep_view()),
        None => Set::empty(),
    }
}

/// The ids of the artists that the user follows.
pub open spec fn followed_artist_ids(home: Option<HomeState>) -> Set<Seq<char>> {
    match home {
        Some(home) => library::card_ids(home.artists.deep_view()),
        None => Set::empty(),
    }
}

/// The cards of the user's own playlists: all marked.
pub open spec fn local_cards(
    local: Seq<PlaylistDescriptionView>,
    untitled: Seq<char>,
) -> Seq<SearchCardView> {
    local.map_values(|p: PlaylistDescriptionView| playlist_result(p, true, untitled))
}

/// The cards of what the service found: songs, artists, albums, and the playlists
/// that are not among the user's own matches.
pub open spec fn found_cards(
    results: SearchResultsView,
    local: Seq<PlaylistDescriptionView>,
    state: AppState,
    untitled: Seq<char>,
) -> Seq<SearchCardView> {
    let followed = followed_artist_ids(state.browser.home);
    let saved = saved_album_ids(state.browser.home);
    let owned = state.logged_user.playlist_ids.set();
    results.tracks.songs.map_values(|s: SongDescriptionView| song_result(s, untitled))
        + results.artists.map_values(|a: ArtistSummaryView| artist_result(a, followed, untitled))
        + results.albums.map_values(|a: AlbumDescriptionView| album_result(a, saved, untitled))
        + results.playlists.filter(not_listed(playlist_ids(local))).map_values(
        |p: PlaylistDescriptionView| playlist_result(p, owned.contains(p.id), untitled),
    )
}

/// The cards with their places, counted from `base` on.
pub open spec fn numbered(cards: Seq<SearchCardView>, base: int) -> Seq<SearchCardView> {
    Seq::new(
        cards.len(),
        |i: int|
            SearchCardView {
                card: CardModelView { insertion_position: (base + i) as u32, ..cards[i].card },
                ..cards[i]
            },
    )
}

/// The place of the first result of the service.
pub open spec fn found_base(local: nat) -> int {
    if local > API_POSITION_BASE {
        local as int
    } else {
        API_POSITION_BASE as int
    }
}

/// All cards of the page.
pub open spec fn result_cards(
    results: Option<SearchResultsView>,
    local: Seq<PlaylistDescriptionView>,
    state: AppState,
    untitled: Seq<char>,
) -> Seq<SearchCardView> {
    numbered(local_cards(local, untitled), 0) + (match results {
        Some(results) => numbered(
            found_cards(results, local, state, untitled),
            found_base(local.len()),
        ),
        None => Seq::empty(),
    })
}

/// Appends the cards with their places, counted from `base` on.
fn append_numbered(out: &mut Vec<SearchCard>, cards: Vec<SearchCard>, base: u32)
    requires
        base + cards@.len() <= u32::MAX,
    ensures
        final(out).deep_view() == old(out).deep_view() + numbered(cards.deep_view(), base as int),
{
    let ghost whole = cards;
    let ghost all = numbered(cards.deep_view(), base as int);
    let ghost start = out.deep_view();
    let mut position: u32 = base;
    assert(out.deep_view() =~= start + all.take(0));
    for one in it: cards.into_iter()
        invariant
            it.seq() == whole@,
            base + whole@.len() <= u32::MAX,
            position == base + it.index(),
            all == numbered(whole.deep_view(), base as int),
            out.deep_view() == start + all.take(it.index()),
    {
        let ghost before = *out;
        let ghost view = one.deep_view();
        assert(whole.deep_view()[it.index()] == view);
        let SearchCard { card, song } = one;
        let placed = SearchCard { card: CardModel { insertion_position: position, ..card }, song };
        out.push(placed);
        proof {
            lists::lemma_deep_push(before, *out, placed);
            lists::lemma_take_push(all, it.index());
            assert(placed.deep_view() == all[it.index()]);
            assert(out.deep_view() =~= start + all.take(it.index() + 1));
        }
        position += 1;
    }
    proof {
        lists::lemma_take_all(all);
    }
}

fn cards_of_songs(untitled: &str, songs: &Vec<SongDescription>) -> (r: Vec<SearchCard>)
    ensures
        r.deep_view() == songs.deep_view().map_values(
            |s: SongDescriptionView| song_result(s, untitled@),
        ),
{
    let ghost all = songs.deep_view().map_values(|s: SongDescriptionView| song_result(s, untitled@));
    let mut out: Vec<SearchCard> = Vec::new();
    let mut i: usize = 0;
    assert(out.deep_view() =~= all.take(0));
    while i < songs.len()
        invariant
            i <= songs.len(),
            all == songs.deep_view().map_values(
                |s: SongDescriptionView| song_result(s, untitled@),
            ),
            out.deep_view() == all.take(i as int),
        decreases songs.len() - i,
    {
        let ghost before = out;
        let one = SearchCard {
            card: card_of_song(untitled, &songs[i]),
            song: Some(songs[i].clone()),
        };
        out.push(one);
        proof {
            lists::lemma_deep_push(before, out, one);
            lists::lemma_take_push(all, i as int);
            assert(songs.deep_view()[i as int] == songs@[i as int].deep_view());
        }
        i += 1;
    }
    proof {
        lists::lemma_take_all(all);
    }
    out
}

fn cards_of_artists(
    untitled: &str,
    artists: &Vec<ArtistSummary>,
    home: &Option<HomeState>,
) -> (r: Vec<SearchCard>)
    ensures
        r.deep_view() == artists.deep_view().map_values(
            |a: ArtistSummaryView| artist_result(a, followed_artist_ids(*home), untitled@),
        ),
{
    let ghost followed = followed_artist_ids(*home);
    let ghost all = artists.deep_view().map_values(
        |a: ArtistSummaryView| artist_result(a, followed, untitled@),
    );
    let mut out: Vec<SearchCard> = Vec::new();
    let mut i: usize = 0;
    assert(out.deep_view() =~= all.take(0));
    while i < artists.len()
        invariant
            i <= artists.len(),
            followed == followed_artist_ids(*home),
            all == artists.deep_view().map_values(
                |a: ArtistSummaryView| artist_result(a, followed, untitled@),
            ),
            out.deep_view() == all.take(i as int),
        decreases artists.len() - i,
    {
        let ghost before = out;
        let pinned: bool = match home {
            Some(home) => has_card(&home.artists, artists[i].id.as_str()),
            None => false,
        };
        let card = card_of_artist(untitled, &artists[i]);
        let one = SearchCard { card: CardModel { pinned, ..card }, song: None };
        out.push(one);
        proof {
            lists::lemma_deep_push(before, out, one);
            lists::lemma_take_push(all, i as int);
            assert(artists.deep_view()[i as int] == artists@[i as int].deep_view());
        }
        i += 1;
    }
    proof {
        lists::lemma_take_all(all);
    }
    out
}

fn cards_of_albums(
    untitled: &str,
    albums: &Vec<AlbumDescription>,
    home: &Option<HomeState>,
) -> (r: Vec<SearchCard>)
    ensures
        r.deep_view() == albums.deep_view().map_values(
            |a: AlbumDescriptionView| album_result(a, saved_album_ids(*home), untitled@),
        ),
{
    let ghost saved = saved_album_ids(*home);
    let ghost all = albums.deep_view().map_values(
        |a: AlbumDescriptionView| album_result(a, saved, untitled@),
    );
    let mut out: Vec<SearchCard> = Vec::new();
    let mut i: usize = 0;
    assert(out.deep_view() =~= all.take(0));
    while i < albums.len()
        invariant
            i <= albums.len(),
            saved == saved_album_ids(*home),
            all == albums.deep_view().map_values(
                |a: AlbumDescriptionView| album_result(a, saved, untitled@),
            ),
            out.deep_view() == all.take(i as int),
        decreases albums.len() - i,
    {
        let ghost before = out;
        let pinned: bool = match home {
            Some(home) => has_card(&home.albums, albums[i].id.as_str()),
            None => false,
        };
        let card = card_of_album(untitled, &albums[i]);
        let one = SearchCard { card: CardModel { pinned, ..card }, song: None };
        out.push(one);
        proof {
            lists::lemma_deep_push(before, out, one);
            lists::lemma_take_push(all, i as int);
            assert(albums.deep_view()[i as int] == albums@[i as int].deep_view());
        }
        i += 1;
    }
    proof {
        lists::lemma_take_all(all);
    }
    out
}

fn cards_of_local(untitled: &str, local: &Vec<PlaylistDescription>) -> (r: Vec<SearchCard>)
    ensures
        r.deep_view() == local_cards(local.deep_view(), untitled@),
{
    let ghost all = local_cards(local.deep_view(), untitled@);
    let mut out: Vec<SearchCard> = Vec::new();
    let mut i: usize = 0;
    assert(out.deep_view() =~= all.take(0));
    while i < local.len()
        invariant
            i <= local.len(),
            all == local_cards(local.deep_view(), untitled@),
            out.deep_view() == all.take(i as int),
        decreases local.len() - i,
    {
        let ghost before = out;
        let card = card_of_playlist(untitled, &local[i]);
        let one = SearchCard { card: CardModel { pinned: true, ..card }, song: None };
        out.push(one);
        proof {
            lists::lemma_deep_push(before, out, one);
            lists::lemma_take_push(all, i as int);
            assert(local.deep_view()[i as int] == local@[i as int].deep_view());
        }
        i += 1;
    }
    proof {
        lists::lemma_take_all(all);
    }
    out
}

fn is_listed(list: &Vec<PlaylistDescription>, id: &str) -> (r: bool)
    ensures
        r == playlist_ids(list.deep_view()).contains(id@),
{
    let ghost ids = playlist_ids(list.deep_view());
    let mut i: usize = 0;
    while i < list.len()
        invariant
            i <= list.len(),
            ids == playlist_ids(list.deep_view()),
            forall|j: int| 0 <= j < i ==> ids[j] != id@,
        decreases list.len() - i,
    {
        assert(ids[i as int] == list@[i as int].id@);
        if text::str_eq(list[i].id.as_str(), id) {
            assert(ids.contains(id@));
            return true;
        }
        i += 1;
    }
    false
}

/// The cards of playlists of the service, marked if they are the user's own.
pub open spec fn other_playlist_cards(
    playlists: Seq<PlaylistDescriptionView>,
    local: Seq<PlaylistDescriptionView>,
    owned: Set<Seq<char>>,
    untitled: Seq<char>,
) -> Seq<SearchCardView> {
    playlists.filter(not_listed(playlist_ids(local))).map_values(
        |p: PlaylistDescriptionView| playlist_result(p, owned.contains(p.id), untitled),
    )
}

fn cards_of_playlists(
    untitled: &str,
    playlists: &Vec<PlaylistDescription>,
    local: &Vec<PlaylistDescription>,
    owned: &IdSet,
) -> (r: Vec<SearchCard>)
    ensures
        r.deep_view() == other_playlist_cards(
            playlists.deep_view(),
            local.deep_view(),
            owned.set(),
            untitled@,
        ),
        r@.len() <= playlists@.len(),
{
    let ghost all = playlists.deep_view();
    let ghost mine = owned.set();
    let ghost new = not_listed(playlist_ids(local.deep_view()));
    let ghost view = |p: PlaylistDescriptionView|
        playlist_result(p, mine.contains(p.id), untitled@);
    let mut out: Vec<SearchCard> = Vec::new();
    let mut i: usize = 0;
    proof {
        reveal(Seq::filter);
        assert(out.deep_view() =~= all.take(0).filter(new).map_values(view));
    }
    while i < playlists.len()
        invariant
            i <= playlists.len(),
            all == playlists.deep_view(),
            mine == owned.set(),
            new == not_listed(playlist_ids(local.deep_view())),
            view == (|p: PlaylistDescriptionView|
                playlist_result(p, mine.contains(p.id), untitled@)),
            out.deep_view() == all.take(i as int).filter(new).map_values(view),
            out@.len() <= i,
        decreases playlists.len() - i,
    {
        let ghost kept = all.take(i as int).filter(new);
        proof {
            lists::lemma_filter_take_push(all, new, i as int);
            assert(all[i as int] == playlists@[i as int].deep_view());
            assert(kept.push(all[i as int]).map_values(view) =~= kept.map_values(view).push(
                view(all[i as int]),
            ));
        }
        if !is_listed(local, playlists[i].id.as_str()) {
            let ghost before = out;
            let pinned: bool = owned.contains(playlists[i].id.as_str());
            let card = card_of_playlist(untitled, &playlists[i]);
            let one = SearchCard { card: CardModel { pinned, ..card }, song: None };
            out.push(one);
            proof {
                lists::lemma_deep_push(before, out, one);
            }
        }
        i += 1;
    }
    proof {
        lists::lemma_take_all(all);
    }
    out
}

/// All cards of the page, given what the user's language has for a missing title.
pub fn build_cards(
    untitled: &str,
    results: Option<&models::SearchResults>,
    local: &Vec<PlaylistDescription>,
    state: &AppState,
) -> (r: Vec<SearchCard>)
    requires
        local@.len() <= u32::MAX,
        results matches Some(found) ==> found_base(local@.len()) + found.tracks.songs@.len()
            + found.artists@.len() + found.albums@.len() + found.playlists@.len() <= u32::MAX,
    ensures
        r.deep_view() == result_cards(
            match results {
                Some(found) => Some(found.deep_view()),
                None => None,
            },
            local.deep_view(),
            *state,
            untitled@,
        ),
{
    let mut out: Vec<SearchCard> = Vec::new();
    let own: Vec<SearchCard> = cards_of_local(untitled, local);
    let ghost own_cards = local_cards(local.deep_view(), untitled@);
    assert(own@.len() == own.deep_view().len());
    assert(out.deep_view() =~= Seq::<SearchCardView>::empty());
    append_numbered(&mut out, own, 0);
    assert(out.deep_view() =~= numbered(own_cards, 0));
    match results {
        None => {
            assert(out.deep_view() =~= numbered(own_cards, 0) + Seq::<SearchCardView>::empty());
        },
        Some(found) => {
            let base: u32 = if local.len() > API_POSITION_BASE as usize {
                local.len() as u32
            } else {
                API_POSITION_BASE
            };
            let mut cards: Vec<SearchCard> = cards_of_songs(untitled, &found.tracks.songs);
            let mut artists: Vec<SearchCard> = cards_of_artists(
                untitled,
                &found.artists,
                &state.browser.home,
            );
            let mut albums: Vec<SearchCard> = cards_of_albums(
                untitled,
                &found.albums,
                &state.browser.home,
            );
            let mut playlists: Vec<SearchCard> = cards_of_playlists(
                untitled,
                &found.playlists,
                local,
                &state.logged_user.playlist_ids,
            );
            let ghost s = cards;
            let ghost a = artists;
            let ghost b = albums;
            let ghost p = playlists;
            proof {
                assert(s@.len() == s.deep_view().len());
                assert(a@.len() == a.deep_view().len());
                assert(b@.len() == b.deep_view().len());
            }
            cards.append(&mut artists);
            cards.append(&mut albums);
            cards.append(&mut playlists);
            proof {
                assert(cards.deep_view() =~= s.deep_view() + a.deep_view() + b.deep_view()
                    + p.deep_view());
                assert(cards.deep_view() =~= found_cards(
                    found.deep_view(),
                    local.deep_view(),
                    *state,
                    untitled@,
                ));
            }
            append_numbered(&mut out, cards, base);
        },
    }
    out
}

/// How two cards are ordered: those that are marked come first, then by place.
pub open spec fn result_order(a: CardModelView, b: CardModelView) -> Order {
    if a.pinned && !b.pinned {
        Order::Less
    } else if !a.pinned && b.pinned {
        Order::Greater
    } else {
        text::int_order(a.insertion_position as int, b.insertion_position as int)
    }
}

/// Compares two cards of the results.
pub fn compare_results(a: &CardModel, b: &CardModel) -> (r: Order)
    ensures
        r == result_order(a.deep_view(), b.deep_view()),
{
    if a.pinned && !b.pinned {
        Order::Less
    } else if !a.pinned && b.pinned {
        Order::Greater
    } else {
        order_u32(a.insertion_position, b.insertion_position)
    }
}

/// The order of the results.
pub open spec fn result_ordering() -> spec_fn(SearchCardView, SearchCardView) -> Order {
    |a: SearchCardView, b: SearchCardView| result_order(a.card, b.card)
}

/// The order of the results.
#[derive(Clone, Copy, Debug, PartialEq, Eq, Structural)]
pub struct ResultRanking {}

impl Ranking<SearchCard> for ResultRanking {
    open spec fn order(self) -> spec_fn(SearchCardView, SearchCardView) -> Order {
        result_ordering()
    }

    proof fn lemma_is_order(self) {
    }

    fn compare(&self, a: &SearchCard, b: &SearchCard) -> (r: Order) {
        compare_results(&a.card, &b.card)
    }
}

/// The cards that are shown where only one kind is.
pub open spec fn admitted(filter: SearchFilter) -> spec_fn(SearchCardView) -> bool {
    |c: SearchCardView| filter.spec_kind() is None || filter.spec_kind() == Some(c.card.kind)
}

/// Each of the user's own playlists that match stands above everything that the
/// service found.
pub proof fn law_own_playlists_come_first(
    results: SearchResultsView,
    local: Seq<PlaylistDescriptionView>,
    state: AppState,
    untitled: Seq<char>,
    i: int,
    j: int,
)
    requires
        0 <= i < local.len(),
        local.len() <= j < result_cards(Some(results), local, state, untitled).len(),
        found_base(local.len()) + found_cards(results, local, state, untitled).len() <= u32::MAX,
    ensures
        result_order(
            result_cards(Some(results), local, state, untitled)[i].card,
            result_cards(Some(results), local, state, untitled)[j].card,
        ) == Order::Less,
{
    let own = numbered(local_cards(local, untitled), 0);
    let found = numbered(found_cards(results, local, state, untitled), found_base(local.len()));
    let all = result_cards(Some(results), local, state, untitled);
    assert(all[i] == own[i]);
    assert(all[j] == found[j - local.len()]);
}

/// A playlist that is among the user's own matches is not listed a second time.
pub proof fn law_no_own_playlist_twice(
    playlists: Seq<PlaylistDescriptionView>,
    local: Seq<PlaylistDescriptionView>,
    owned: Set<Seq<char>>,
    untitled: Seq<char>,
    i: int,
)
    requires
        0 <= i < other_playlist_cards(playlists, local, owned, untitled).len(),
    ensures
        !playlist_ids(local).contains(
            other_playlist_cards(playlists, local, owned, untitled)[i].card.id,
        ),
{
    let new = not_listed(playlist_ids(local));
    let kept = playlists.filter(new);
    lists::lemma_filter_set(playlists, new);
    assert(kept.contains(kept[i]));
}

/// The order of the results is antisymmetric and transitive, and only two cards
/// at the same place and with the same mark compare equal.
pub proof fn law_result_order_is_total(a: CardModelView, b: CardModelView, c: CardModelView)
    ensures
        result_order(b, a) == result_order(a, b).spec_reverse(),
        result_order(a, b) == Order::Equal <==> (a.pinned == b.pinned && a.insertion_position
            == b.insertion_position),
        result_order(a, b) != Order::Greater && result_order(b, c) != Order::Greater
            ==> result_order(a, c) != Order::Greater,
{
}

// ── The page ───────────────────────────────────────────────────────────────

/// How long to wait after a change before the service is asked, in milliseconds.
pub const DEBOUNCE_MS: u32 = 600;

/// The search page.
#[derive(Debug, PartialEq, Eq)]
pub struct SearchResults {
    pub model: SearchResultsModel,
    pub store: Vec<SearchCard>,
    pub filter: SearchFilter,
    pub status_visible: bool,
    pub results_visible: bool,
}

/// What is asked of the caller.
#[derive(Clone, Copy, Debug, PartialEq, Eq, Structural)]
pub enum SearchTask {
    /// Call `fetch_results` after so many milliseconds, unless this is asked again
    /// before.
    FetchAfter(u32),
    Nothing,
}

/// The store holds what the state has for the query.
pub open spec fn store_shows(
    store: Seq<SearchCardView>,
    model: SearchResultsModel,
    query: Seq<char>,
) -> bool {
    exists|local: Seq<PlaylistDescriptionView>, untitled: Seq<char>|
        {
            &&& #[trigger] is_matches_of(
                local,
                model.app_model.state.logged_user.owned_playlists.deep_view(),
                query,
            )
            &&& store == #[trigger] result_cards(
                model.results().deep_view(),
                local,
                model.app_model.state,
                untitled,
            )
            &&& text::translates(untitled, "Untitled"@)
        }
}

/// What opens a card.
pub open spec fn open_effects(card: SearchCardView) -> Seq<EffectView> {
    match card.card.kind {
        CardKind::Artist => seq![EffectView::Dispatch(AppActionView::ViewArtist(card.card.id))],
        CardKind::Album => seq![EffectView::Dispatch(AppActionView::ViewAlbum(card.card.id))],
        CardKind::Playlist => seq![EffectView::Dispatch(AppActionView::ViewPlaylist(card.card.id))],
        CardKind::Untyped => match card.song {
            Some(song) => seq![EffectView::Dispatch(AppActionView::ViewAlbum(song.album.id))],
            None => Seq::empty(),
        },
    }
}

impl SearchResults {
    /// The page, with nothing searched for.
    pub fn new(model: SearchResultsModel) -> (r: SearchResults)
        ensures
            r.model == model,
            r.store@.len() == 0,
            r.filter == SearchFilter::All,
            r.status_visible,
            !r.results_visible,
    {
        SearchResults {
            model,
            store: Vec::new(),
            filter: SearchFilter::All,
            status_visible: true,
            results_visible: false,
        }
    }

    /// All cards of the page can be numbered.
    pub open spec fn countable(self) -> bool {
        let own = self.model.app_model.state.logged_user.owned_playlists@.len();
        &&& own <= u32::MAX
        &&& self.model.results() matches Some(found) ==> found_base(own)
            + found.tracks.songs@.len() + found.artists@.len() + found.albums@.len()
            + found.playlists@.len() <= u32::MAX
    }

    /// Lists the cards for a query anew.
    pub fn rebuild_store(&mut self, query: &str)
        requires
            old(self).countable(),
        ensures
            *final(self) == (SearchResults { store: final(self).store, ..*old(self) }),
            store_shows(final(self).store.deep_view(), old(self).model, query@),
    {
        let local: Vec<PlaylistDescription> = matching_owned_playlists(
            self.model.owned_playlists(),
            query,
        );
        let missing: String = untitled();
        let state: &AppState = &self.model.app_model.state;
        let cards = build_cards(missing.as_str(), self.model.get_results(), &local, state);
        assert(is_matches_of(
            local.deep_view(),
            self.model.app_model.state.logged_user.owned_playlists.deep_view(),
            query@,
        ));
        assert(cards.deep_view() == result_cards(
            self.model.results().deep_view(),
            local.deep_view(),
            self.model.app_model.state,
            missing@,
        ));
        self.store = cards;
    }

    /// What was typed has changed: it is taken note of, and the user's own
    /// playlists are matched at once.
    pub fn query_changed(&mut self, query: String)
        requires
            old(self).countable(),
        ensures
            final(self).filter == old(self).filter,
            final(self).status_visible == (query@.len() == 0),
            final(self).results_visible == (query@.len() > 0),
            final(self).model.wants(
                old(self).model,
                seq![actions::browse(BrowserActionView::Search(query@))],
            ),
            store_shows(final(self).store.deep_view(), final(self).model, query@),
    {
        let empty: bool = query.as_str().is_empty();
        self.status_visible = empty;
        self.results_visible = !empty;
        self.model.search(query.clone());
        self.rebuild_store(query.as_str());
    }

    /// Changes what kind is shown.
    pub fn choose_filter(&mut self, filter: SearchFilter)
        ensures
            *final(self) == (SearchResults { filter, ..*old(self) }),
    {
        self.filter = filter;
    }

    /// The results that are shown, as they are listed.
    pub fn listed(&self) -> (r: Vec<SearchCard>)
        ensures
            sorting::is_sorted_from(
                r.deep_view(),
                self.store.deep_view().filter(admitted(self.filter)),
                result_ordering(),
            ),
    {
        let ghost all = self.store.deep_view();
        let ghost shown = admitted(self.filter);
        let mut cards: Vec<SearchCard> = Vec::new();
        let mut i: usize = 0;
        proof {
            reveal(Seq::filter);
            assert(cards.deep_view() =~= all.take(0).filter(shown));
        }
        while i < self.store.len()
            invariant
                i <= self.store.len(),
                all == self.store.deep_view(),
                shown == admitted(self.filter),
                cards.deep_view() == all.take(i as int).filter(shown),
            decreases self.store.len() - i,
        {
            proof {
                lists::lemma_filter_take_push(all, shown, i as int);
                assert(all[i as int] == self.store@[i as int].deep_view());
            }
            if self.filter.admits(&self.store[i].card) {
                let ghost before = cards;
                let one = self.store[i].clone();
                cards.push(one);
                proof {
                    lists::lemma_deep_push(before, cards, one);
                }
            }
            i += 1;
        }
        proof {
            lists::lemma_take_all(all);
        }
        sort_by(cards, &ResultRanking {  })
    }

    /// Opens the item behind a card; a song is played once its album is there.
    pub fn open_card(&mut self, card: &SearchCard)
        ensures
            *final(self) == (SearchResults { model: final(self).model, ..*old(self) }),
            final(self).model.app_model == old(self).model.app_model,
            final(self).model.dispatcher@ == old(self).model.dispatcher@ + open_effects(
                card.deep_view(),
            ),
            final(self).model.queued_song.deep_view() == (if card.card.kind == CardKind::Untyped
                && card.song is Some {
                card.song.deep_view()
            } else {
                old(self).model.queued_song.deep_view()
            }),
    {
        match card.card.kind {
            CardKind::Artist => self.model.open_artist(card.card.id.clone()),
            CardKind::Album => self.model.open_album(card.card.id.clone()),
            CardKind::Playlist => self.model.open_playlist(card.card.id.clone()),
            CardKind::Untyped => match &card.song {
                Some(song) => self.model.open_track(song.clone()),
                None => {
                    assert(self.model.dispatcher@ =~= old(self).model.dispatcher@ + Seq::<
                        EffectView,
                    >::empty());
                },
            },
        }
    }

    /// What an event does to the page.
    pub fn on_event(&mut self, event: &AppEvent) -> (r: SearchTask)
        requires
            old(self).countable(),
        ensures
            match event {
                AppEvent::BrowserEvent(BrowserEvent::SearchUpdated) => r == SearchTask::FetchAfter(
                    DEBOUNCE_MS,
                ) && *final(self) == *old(self),
                AppEvent::BrowserEvent(BrowserEvent::SearchResultsUpdated) => {
                    &&& r == SearchTask::Nothing
                    &&& *final(self) == (SearchResults { store: final(self).store, ..*old(self) })
                    &&& store_shows(
                        final(self).store.deep_view(),
                        old(self).model,
                        match old(self).model.query() {
                            Some(query) => query,
                            None => Seq::empty(),
                        },
                    )
                },
                AppEvent::BrowserEvent(BrowserEvent::AlbumDetailsLoaded(id)) => {
                    &&& r == SearchTask::Nothing
                    &&& *final(self) == (SearchResults { model: final(self).model, ..*old(self) })
                    &&& final(self).model.app_model == old(self).model.app_model
                    &&& final(self).model.queued_song is None
                    &&& final(self).model.dispatcher@ == old(self).model.dispatcher@ + (
                    match old(self).model.queued_song {
                        Some(song) if song.album.id@ == id@ => seq![
                            actions::browse(BrowserActionView::PlaySong(song.id@)),
                        ],
                        _ => Seq::empty(),
                    })
                },
                _ => r == SearchTask::Nothing && *final(self) == *old(self),
            },
    {
        match event {
            AppEvent::BrowserEvent(BrowserEvent::SearchUpdated) => SearchTask::FetchAfter(
                DEBOUNCE_MS,
            ),
            AppEvent::BrowserEvent(BrowserEvent::SearchResultsUpdated) => {
                let query: String = self.model.current_query();
                self.rebuild_store(query.as_str());
                SearchTask::Nothing
            },
            AppEvent::BrowserEvent(BrowserEvent::AlbumDetailsLoaded(id)) => {
                self.model.on_album_loaded(id.as_str());
                SearchTask::Nothing
            },
            _ => SearchTask::Nothing,
        }
    }
}

// ── Laws ───────────────────────────────────────────────────────────────────

/// What the service found is shown under all results and under its own kind, and
/// nowhere else: a song under the songs, an artist under the artists, an album under
/// the albums, a playlist under the playlists.
pub proof fn law_results_are_shown_under_their_kind(
    filter: SearchFilter,
    song: SongDescriptionView,
    artist: ArtistSummaryView,
    album: AlbumDescriptionView,
    playlist: PlaylistDescriptionView,
    ids: Set<Seq<char>>,
    own: bool,
    untitled: Seq<char>,
)
    ensures
        admitted(filter)(song_result(song, untitled)) <==> (filter == SearchFilter::All || filter
            == SearchFilter::Songs),
        admitted(filter)(artist_result(artist, ids, untitled)) <==> (filter == SearchFilter::All
            || filter == SearchFilter::Artists),
        admitted(filter)(album_result(album, ids, untitled)) <==> (filter == SearchFilter::All
            || filter == SearchFilter::Albums),
        admitted(filter)(playlist_result(playlist, own, untitled)) <==> (filter
            == SearchFilter::All || filter == SearchFilter::Playlists),
{
}

/// The list shows a card of the store exactly if the chosen kind is that of the
/// card, or if all are shown.
pub proof fn law_list_shows_the_chosen_kind(
    store: Seq<SearchCardView>,
    filter: SearchFilter,
    list: Seq<SearchCardView>,
    card: SearchCardView,
)
    requires
        sorting::is_sorted_from(list, store.filter(admitted(filter)), result_ordering()),
    ensures
        list.contains(card) <==> store.contains(card) && match filter {
            SearchFilter::All => true,
            SearchFilter::Songs => card.card.kind == CardKind::Untyped,
            SearchFilter::Artists => card.card.kind == CardKind::Artist,
            SearchFilter::Albums => card.card.kind == CardKind::Album,
            SearchFilter::Playlists => card.card.kind == CardKind::Playlist,
        },
{
    let from = store.filter(admitted(filter));
    sorting::law_sorting_keeps_the_items(list, from, result_ordering(), card);
    lists::lemma_filter_set(store, admitted(filter));
    assert(from.contains(card) <==> store.contains(card) && admitted(filter)(card));
}

/// In the list, what is marked stands above what is not, and cards with the same
/// mark stand in the order of their places.
pub proof fn law_marked_results_stand_first(
    from: Seq<SearchCardView>,
    list: Seq<SearchCardView>,
    i: int,
    j: int,
)
    requires
        sorting::is_sorted_from(list, from, result_ordering()),
        0 <= i < j < list.len(),
    ensures
        list[j].card.pinned ==> list[i].card.pinned,
        list[i].card.pinned == list[j].card.pinned ==> list[i].card.insertion_position
            <= list[j].card.insertion_position,
{
    let order = result_ordering();
    assert(order(list[i], list[j]) != Order::Greater);
}

/// Every filter is labelled with its own name.
pub proof fn law_filters_have_their_names()
    ensures
        SearchFilter::All.spec_msgid() == "All"@,
        SearchFilter::Songs.spec_msgid() == "Songs"@,
        SearchFilter::Artists.spec_msgid() == "Artists"@,
        SearchFilter::Albums.spec_msgid() == "Albums"@,
        SearchFilter::Playlists.spec_msgid() == "Playlists"@,
{
}

/// A name that does not begin with the query but has a word that does ranks
/// second; one that holds the query only within its words ranks third.
pub proof fn law_words_rank_above_parts(
    before: Seq<char>,
    separator: char,
    query: Seq<char>,
    after: Seq<char>,
)
    requires
        query.len() > 0,
        forall|i: int| 0 <= i < query.len() ==> !is_separator(#[trigger] query[i]),
        separator == ' ' || separator == '-' || separator == '_' || separator == '/' || separator
            == '\t',
        !text::has_prefix(before.push(separator) + query + after, query),
    ensures
        match_rank(before.push(separator) + query + after, query) == Some(1u32),
{
    let name = before.push(separator) + query + after;
    let at = before.len() + 1;
    assert(name.subrange(at as int, (at + query.len()) as int) =~= query);
    assert(name[at - 1] == separator);
    assert(word_starts(name, at as int));
    assert(text::occurs_at(name, query, at as int));
}

/// A name ranks third only if no word of it begins with the query.
pub proof fn law_parts_rank_last(name: Seq<char>, query: Seq<char>, at: int)
    requires
        match_rank(name, query) == Some(2u32),
        forall|i: int| 0 <= i < query.len() ==> !is_separator(#[trigger] query[i]),
        text::occurs_at(name, query, at),
    ensures
        at > 0,
        !text::white_space(name[at - 1]),
        name[at - 1] != '-' && name[at - 1] != '_' && name[at - 1] != '/',
{
    if at == 0 || is_separator(name[at - 1]) {
        assert(word_starts(name, at));
        assert(has_word_prefix(name, query));
    }
}

/// White space around the query and the case of its letters make no difference.
pub proof fn law_query_is_normalized(before: Seq<char>, query: Seq<char>, after: Seq<char>)
    requires
        forall|i: int| 0 <= i < before.len() ==> text::white_space(#[trigger] before[i]),
        forall|i: int| 0 <= i < after.len() ==> text::white_space(#[trigger] after[i]),
        query.len() > 0 ==> !text::white_space(query[0]) && !text::white_space(query.last()),
    ensures
        normalized(before + query + after) == text::lowercase(query),
{
    text::law_trim_cuts_only_white_space(before, query, after);
}

/// Of two of the user's playlists in the list, the one whose title begins with the
/// query stands first; those that match equally well stand by title.
pub proof fn law_own_matches_are_ordered(
    query: Seq<char>,
    list: Seq<PlaylistDescriptionView>,
    owned: Seq<PlaylistDescriptionView>,
    i: int,
    j: int,
)
    requires
        is_matches_of(list, owned, query),
        normalized(query).len() > 0,
        0 <= i < j < list.len(),
    ensures
        text::has_prefix(text::lowercase(list[j].title), normalized(query)) ==> text::has_prefix(
            text::lowercase(list[i].title),
            normalized(query),
        ),
        match_rank(text::lowercase(list[i].title), normalized(query)) == match_rank(
            text::lowercase(list[j].title),
            normalized(query),
        ) ==> text::text_order(text::lowercase(list[i].title), text::lowercase(list[j].title))
            != Order::Greater,
{
    let q = normalized(query);
    law_better_matches_come_first(query, list, owned, i, j);
    law_all_matches_are_listed(query, list, owned, list[i]);
    law_all_matches_are_listed(query, list, owned, list[j]);
    assert(list.contains(list[i]) && list.contains(list[j]));
    law_matches_are_substrings(text::lowercase(list[i].title), q);
    law_matches_are_substrings(text::lowercase(list[j].title), q);
    let order = match_ordering(q);
    assert(order(list[i], list[j]) != Order::Greater);
}

/// Nothing is listed of the user's playlists for a query without text.
pub proof fn law_empty_query_lists_nothing(
    list: Seq<PlaylistDescriptionView>,
    owned: Seq<PlaylistDescriptionView>,
    query: Seq<char>,
)
    requires
        is_matches_of(list, owned, query),
        normalized(query).len() == 0,
    ensures
        list.len() == 0,
{
}

/// The cards of the user's own playlists come in their order, are marked, and are
/// numbered from zero.
pub proof fn law_own_cards_are_of_the_playlists(
    results: Option<SearchResultsView>,
    local: Seq<PlaylistDescriptionView>,
    state: AppState,
    untitled: Seq<char>,
    i: int,
)
    requires
        0 <= i < local.len() <= u32::MAX,
    ensures
        ({
            let one = result_cards(results, local, state, untitled)[i];
            &&& one.card.id == local[i].id
            &&& one.card.kind == CardKind::Playlist
            &&& one.card.pinned
            &&& one.card.insertion_position == i
            &&& local[i].title.len() > 0 ==> one.card.title == local[i].title
            &&& one.song is None
        }),
        results is None ==> result_cards(results, local, state, untitled).len() == local.len(),
{
    let own = numbered(local_cards(local, untitled), 0);
    assert(result_cards(results, local, state, untitled)[i] == own[i]);
}

/// The cards of what the service found are those of the songs, then of the artists,
/// then of the albums, each list in its order. A song comes along with its card. An
/// artist is marked if the user follows it, an album if the user saved it.
pub proof fn law_found_cards_are_of_the_results(
    results: SearchResultsView,
    local: Seq<PlaylistDescriptionView>,
    state: AppState,
    untitled: Seq<char>,
    i: int,
)
    requires
        0 <= i < results.tracks.songs.len() + results.artists.len() + results.albums.len(),
    ensures
        ({
            let one = found_cards(results, local, state, untitled)[i];
            let s = results.tracks.songs.len();
            let a = results.artists.len();
            if i < s {
                &&& one.card.id == results.tracks.songs[i].id
                &&& one.card.kind == CardKind::Untyped
                &&& one.song == Some(results.tracks.songs[i])
                &&& !one.card.pinned
            } else if i < s + a {
                &&& one.card.id == results.artists[i - s].id
                &&& one.card.kind == CardKind::Artist
                &&& one.song is None
                &&& one.card.pinned <==> match state.browser.home {
                    Some(home) => exists|k: int|
                        0 <= k < home.artists@.len() && (#[trigger] home.artists@[k]).id@
                            == results.artists[i - s].id,
                    None => false,
                }
            } else {
                &&& one.card.id == results.albums[i - s - a].id
                &&& one.card.kind == CardKind::Album
                &&& one.song is None
                &&& one.card.pinned <==> match state.browser.home {
                    Some(home) => exists|k: int|
                        0 <= k < home.albums@.len() && (#[trigger] home.albums@[k]).id@
                            == results.albums[i - s - a].id,
                    None => false,
                }
            }
        }),
{
    match state.browser.home {
        Some(home) => {
            lemma_card_ids(home.artists);
            lemma_card_ids(home.albums);
        },
        None => {},
    }
}

proof fn lemma_card_ids(cards: Vec<CardModel>)
    ensures
        forall|id: Seq<char>| #[trigger]
            library::card_ids(cards.deep_view()).contains(id) <==> exists|k: int|
                0 <= k < cards@.len() && (#[trigger] cards@[k]).id@ == id,
{
    let ids = cards.deep_view().map_values(|c: CardModelView| c.id);
    assert forall|id: Seq<char>| #[trigger]
        library::card_ids(cards.deep_view()).contains(id) <==> exists|k: int|
        0 <= k < cards@.len() && (#[trigger] cards@[k]).id@ == id by {
        if library::card_ids(cards.deep_view()).contains(id) {
            let k = choose|k: int| 0 <= k < ids.len() && ids[k] == id;
            assert(cards.deep_view()[k] == cards@[k].deep_view());
            assert(cards@[k].id@ == id);
        }
        if exists|k: int| 0 <= k < cards@.len() && (#[trigger] cards@[k]).id@ == id {
            let k = choose|k: int| 0 <= k < cards@.len() && (#[trigger] cards@[k]).id@ == id;
            assert(cards.deep_view()[k] == cards@[k].deep_view());
            assert(ids[k] == id);
            assert(ids.contains(id));
        }
    }
}

/// A playlist that the service found has a card exactly if it is not among the
/// user's own matches; it is marked if it is in the user's library.
pub proof fn law_found_playlists_are_listed(
    playlists: Seq<PlaylistDescriptionView>,
    local: Seq<PlaylistDescriptionView>,
    owned: Set<Seq<char>>,
    untitled: Seq<char>,
    p: PlaylistDescriptionView,
)
    requires
        playlists.contains(p),
    ensures
        ({
            let cards = other_playlist_cards(playlists, local, owned, untitled);
            let listed = exists|k: int|
                0 <= k < local.len() && (#[trigger] local[k]).id == p.id;
            &&& !listed ==> exists|k: int|
                0 <= k < cards.len() && (#[trigger] cards[k]).card.id == p.id
                    && cards[k].card.kind == CardKind::Playlist && cards[k].card.pinned
                    == owned.contains(p.id)
            &&& listed ==> forall|k: int|
                0 <= k < cards.len() ==> (#[trigger] cards[k]).card.id != p.id
        }),
{
    let ids = playlist_ids(local);
    let new = not_listed(ids);
    let kept = playlists.filter(new);
    let cards = other_playlist_cards(playlists, local, owned, untitled);
    lists::lemma_filter_set(playlists, new);
    if exists|k: int| 0 <= k < local.len() && (#[trigger] local[k]).id == p.id {
        let k = choose|k: int| 0 <= k < local.len() && (#[trigger] local[k]).id == p.id;
        assert(ids[k] == p.id);
        assert(ids.contains(p.id));
        assert forall|i: int| 0 <= i < cards.len() implies (#[trigger] cards[i]).card.id
            != p.id by {
            law_no_own_playlist_twice(playlists, local, owned, untitled, i);
        }
    } else {
        assert(!ids.contains(p.id)) by {
            if ids.contains(p.id) {
                let k = choose|k: int| 0 <= k < ids.len() && ids[k] == p.id;
                assert(local[k].id == p.id);
            }
        }
        assert(new(p));
        assert(kept.contains(p));
        let k = choose|k: int| 0 <= k < kept.len() && kept[k] == p;
        assert(cards[k].card.id == p.id);
    }
}

/// What the service found is numbered in order behind all of the user's own
/// playlists, from a thousand on at the earliest.
pub proof fn law_found_cards_are_numbered(
    results: SearchResultsView,
    local: Seq<PlaylistDescriptionView>,
    state: AppState,
    untitled: Seq<char>,
    i: int,
)
    requires
        0 <= i < found_cards(results, local, state, untitled).len(),
        found_base(local.len()) + found_cards(results, local, state, untitled).len() <= u32::MAX,
    ensures
        ({
            let all = result_cards(Some(results), local, state, untitled);
            let found = found_cards(results, local, state, untitled);
            &&& all.len() == local.len() + found.len()
            &&& all[local.len() + i].card.id == found[i].card.id
            &&& all[local.len() + i].card.kind == found[i].card.kind
            &&& all[local.len() + i].card.pinned == found[i].card.pinned
            &&& all[local.len() + i].song == found[i].song
            &&& local.len() <= 1000 ==> all[local.len() + i].card.insertion_position == 1000 + i
            &&& local.len() > 1000 ==> all[local.len() + i].card.insertion_position
                == local.len() + i
        }),
{
    let own = numbered(local_cards(local, untitled), 0);
    let found = numbered(found_cards(results, local, state, untitled), found_base(local.len()));
    let all = result_cards(Some(results), local, state, untitled);
    assert(all[local.len() + i] == found[i]);
}

/// Opening a card opens the page of what it stands for: an artist's, an album's or a
/// playlist's by its own id, and that of its album for a song.
pub proof fn law_cards_open_what_they_stand_for(card: SearchCardView)
    ensures
        card.card.kind == CardKind::Artist ==> open_effects(card) == seq![
            EffectView::Dispatch(AppActionView::ViewArtist(card.card.id)),
        ],
        card.card.kind == CardKind::Album ==> open_effects(card) == seq![
            EffectView::Dispatch(AppActionView::ViewAlbum(card.card.id)),
        ],
        card.card.kind == CardKind::Playlist ==> open_effects(card) == seq![
            EffectView::Dispatch(AppActionView::ViewPlaylist(card.card.id)),
        ],
        card.card.kind == CardKind::Untyped && card.song is Some ==> open_effects(card) == seq![
            EffectView::Dispatch(AppActionView::ViewAlbum(card.song->0.album.id)),
        ],
        card.card.kind == CardKind::Untyped && card.song is None ==> open_effects(card).len()
            == 0,
{
}

/// The view of a `SearchCard` holds its parts, each under its own name.
pub proof fn law_view_of_search_card(value: SearchCard)
    ensures
        value.deep_view().card == value.card.deep_view(),
        value.deep_view().song == value.song.deep_view(),
{
}

/// An album is marked if the user saved it and an artist if the user follows them; without
/// a library nothing is.
pub proof fn law_marks_go_by_the_library(home: HomeState, k: int)
    ensures
        0 <= k < home.albums@.len() ==> saved_album_ids(Some(home)).contains(home.albums@[k].id@),
        0 <= k < home.artists@.len() ==> followed_artist_ids(Some(home)).contains(
            home.artists@[k].id@,
        ),
        saved_album_ids(None) == Set::<Seq<char>>::empty(),
        followed_artist_ids(None) == Set::<Seq<char>>::empty(),
{
    let albums = home.albums.deep_view();
    let artists = home.artists.deep_view();
    assert(albums.len() == home.albums@.len());
    assert(artists.len() == home.artists@.len());
    if 0 <= k < home.albums@.len() {
        assert(albums[k] == home.albums@[k].deep_view());
        assert(albums.map_values(|c: CardModelView| c.id)[k] == home.albums@[k].id@);
    }
    if 0 <= k < home.artists@.len() {
        assert(artists[k] == home.artists@[k].deep_view());
        assert(artists.map_values(|c: CardModelView| c.id)[k] == home.artists@[k].id@);
    }
}

/// The search waits until nothing was typed for a while, and what was found is numbered
/// from a thousand on.
pub proof fn law_search_waits_for_the_end()
    ensures
        DEBOUNCE_MS == 600,
        API_POSITION_BASE == 1000,
{
}

} // verus!

//! What the client makes of the answers of the web API: one function for each
//! request, from the decoded answers to the client's own values.

use vstd::prelude::*;

use crate::api::api_models;
use crate::api::api_models::{
    album_descriptions, artist_summaries, playlist_descriptions, songs_of_album, songs_of_items,
    songs_of_queue, songs_of_top_tracks, songs_of_tracks, Album, AlbumTrackItem, Artist,
    ArtistView, Device, Devices, FollowedArtistsInner, FullAlbum, Page, PlayHistory, PlayOffset,
    PlayRequest, PlayerQueue, PlayerState, Playlist, PlaylistTrackId, RawSearchResults,
    RecentlyPlayed, SavedAlbum, TopTracks, TrackItem, Tracks, User, WithImages,
};
use crate::api::cached_client::{required, SpotifyApiError, SpotifyResult};
use crate::lists;
use crate::models::{
    AlbumDescription, AlbumDescriptionView, AlbumFullDescription, AlbumFullDescriptionView,
    ArtistDescription, ArtistDescriptionView, ArtistSummary, ArtistSummaryView, ConnectDevice,
    ConnectDeviceView, ConnectPlayerState, CurrentUser, CurrentUserView, JumpBackContext,
    JumpBackContextView, JumpBackKind, PlaylistDescription, PlaylistDescriptionView, SearchResults,
    SearchResultsView, SongBatch, SongBatchView, SongDescription, SongDescriptionView,
    UserDescription, UserDescriptionView,
};
use crate::text;
use crate::text::{id_in, join};

verus! {

// ── Albums ─────────────────────────────────────────────────────────────────

/// The saved albums of a page.
pub fn get_saved_albums(page: Page<SavedAlbum>) -> (r: Vec<AlbumDescription>)
    ensures
        r.deep_view() == page.spec_items().map_values(
            |s: SavedAlbum| api_models::album_description(s.album),
        ),
{
    let ghost whole = page.spec_items();
    let items: Vec<SavedAlbum> = page.into_items();
    let mut albums: Vec<Album> = Vec::new();
    for saved in it: items.into_iter()
        invariant
            it.seq() == whole,
            albums@ == whole.map_values(|s: SavedAlbum| s.album).take(it.index()),
    {
        proof {
            lists::lemma_take_push(whole.map_values(|s: SavedAlbum| s.album), it.index());
        }
        albums.push(saved.album);
    }
    proof {
        let moved = whole.map_values(|s: SavedAlbum| s.album);
        lists::lemma_take_all(moved);
        assert(moved.map_values(|a: Album| api_models::album_description(a)) =~= whole.map_values(
            |s: SavedAlbum| api_models::album_description(s.album),
        ));
    }
    album_descriptions(albums)
}

/// The first of the answers to "is this in the library?"; no if there is none.
pub open spec fn first_flag(flags: Seq<bool>) -> bool {
    flags.len() > 0 && flags[0]
}

/// The first of the answers to "is this in the library?"; no if there is none.
pub fn first_flag_of(flags: &Vec<bool>) -> (r: bool)
    ensures
        r == first_flag(flags@),
{
    flags.len() > 0 && flags[0]
}

/// An album with whether it is saved. A failed check counts as not saved, so
/// that the album can be shown all the same; a failed read of the album itself
/// is an error.
pub fn get_album(
    album: SpotifyResult<FullAlbum>,
    liked: SpotifyResult<Vec<bool>>,
) -> (r: SpotifyResult<AlbumFullDescription>)
    ensures
        match (album, r) {
            (Ok(full), Ok(found)) => found.deep_view() == (AlbumFullDescriptionView {
                description: AlbumDescriptionView {
                    is_liked: liked matches Ok(flags) && first_flag(flags@),
                    ..api_models::full_description(full).description
                },
                ..api_models::full_description(full)
            }),
            (Err(e), Err(f)) => e == f,
            _ => false,
        },
{
    match album {
        Err(e) => Err(e),
        Ok(full) => {
            let is_liked: bool = match &liked {
                Ok(flags) => first_flag_of(flags),
                Err(_) => false,
            };
            let mut found = AlbumFullDescription::from(full);
            found.description.is_liked = is_liked;
            Ok(found)
        },
    }
}

/// A page of an album's tracks. The tracks and the album are both needed; if both
/// failed, the error is that of the tracks.
pub fn get_album_tracks(
    songs: SpotifyResult<Page<AlbumTrackItem>>,
    album: SpotifyResult<FullAlbum>,
) -> (r: SpotifyResult<SongBatch>)
    ensures
        match (songs, album, r) {
            (Ok(page), Ok(full), Ok(batch)) => batch.deep_view() == api_models::album_batch(
                page,
                full.album.deep_view(),
            ),
            (Err(e), _, Err(f)) => e == f,
            (Ok(_), Err(e), Err(f)) => e == f,
            _ => false,
        },
{
    match songs {
        Err(e) => Err(e),
        Ok(page) => match album {
            Err(e) => Err(e),
            Ok(full) => Ok(songs_of_album(page, &full.album)),
        },
    }
}

// ── Artists and users ──────────────────────────────────────────────────────

/// An artist with albums and top tracks. The top tracks may be refused to some
/// clients and count as none then; without an answer the artist counts as not
/// followed. The artist and the albums are needed; if both failed, the error is
/// that of the artist.
pub fn get_artist(
    artist: SpotifyResult<Artist>,
    albums: SpotifyResult<Vec<AlbumDescription>>,
    top_tracks: SpotifyResult<TopTracks>,
    followed: Option<Vec<bool>>,
) -> (r: SpotifyResult<ArtistDescription>)
    ensures
        match (artist, albums, r) {
            (Ok(a), Ok(list), Ok(found)) => found.deep_view() == (ArtistDescriptionView {
                id: a.id@,
                name: a.name@,
                photo: api_models::picture_of(a.spec_images()),
                albums: list.deep_view(),
                top_tracks: match top_tracks {
                    Ok(top) => api_models::songs_of(top.tracks@),
                    Err(_) => Seq::empty(),
                },
                is_followed: followed matches Some(flags) && first_flag(flags@),
            }),
            (Err(e), _, Err(f)) => e == f,
            (Ok(_), Err(e), Err(f)) => e == f,
            _ => false,
        },
{
    match artist {
        Err(e) => Err(e),
        Ok(a) => {
            let photo = a.picture();
            let top: Vec<SongDescription> = match top_tracks {
                Ok(top) => songs_of_top_tracks(top),
                Err(_) => {
                    let none: Vec<SongDescription> = Vec::new();
                    assert(none.deep_view() =~= Seq::<SongDescriptionView>::empty());
                    none
                },
            };
            let is_followed: bool = match &followed {
                Some(flags) => first_flag_of(flags),
                None => false,
            };
            match albums {
                Err(e) => Err(e),
                Ok(list) => Ok(
                    ArtistDescription {
                        id: a.id,
                        name: a.name,
                        photo,
                        albums: list,
                        top_tracks: top,
                        is_followed,
                    },
                ),
            }
        },
    }
}

/// A user with playlists. Both are needed; if both failed, the error is that of
/// the user.
pub fn get_user(
    user: SpotifyResult<User>,
    playlists: SpotifyResult<Vec<PlaylistDescription>>,
) -> (r: SpotifyResult<UserDescription>)
    ensures
        match (user, playlists, r) {
            (Ok(u), Ok(list), Ok(found)) => found.deep_view() == (UserDescriptionView {
                id: u.id@,
                name: u.display_name@,
                photo: api_models::picture_of(u.spec_images()),
                playlists: list.deep_view(),
            }),
            (Err(e), _, Err(f)) => e == f,
            (Ok(_), Err(e), Err(f)) => e == f,
            _ => false,
        },
{
    match user {
        Err(e) => Err(e),
        Ok(u) => {
            let photo = u.picture();
            match playlists {
                Err(e) => Err(e),
                Ok(list) => Ok(
                    UserDescription { id: u.id, name: u.display_name, photo, playlists: list },
                ),
            }
        },
    }
}

/// The first address from index `i` on that is not empty.
pub open spec fn first_address(
    images: Seq<api_models::ImageView>,
    i: int,
) -> Option<Seq<char>>
    decreases images.len() - i,
{
    if i >= images.len() {
        None
    } else if images[i].url.len() > 0 {
        Some(images[i].url)
    } else {
        first_address(images, i + 1)
    }
}

/// The logged-in user, with the first picture that has an address.
pub fn get_current_user(user: User) -> (r: CurrentUser)
    ensures
        r.deep_view() == (CurrentUserView {
            id: user.id@,
            display_name: user.display_name@,
            image_url: first_address(user.spec_images(), 0),
        }),
{
    let ghost images = user.spec_images();
    let mut image_url: Option<String> = None;
    match &user.images {
        Some(list) => {
            let mut i: usize = 0;
            while i < list.len() && image_url.is_none()
                invariant
                    i <= list.len(),
                    images == list.deep_view(),
                    image_url is None ==> first_address(images, 0) == first_address(
                        images,
                        i as int,
                    ),
                    image_url matches Some(url) ==> first_address(images, 0) == Some(url@),
                decreases list.len() - i,
            {
                if !list[i].url.as_str().is_empty() {
                    image_url = Some(list[i].url.clone());
                }
                i += 1;
            }
        },
        None => {},
    }
    CurrentUser { id: user.id, display_name: user.display_name, image_url }
}

/// A page of followed artists, and where the next page starts.
pub fn get_followed_artists(answer: Option<FollowedArtistsInner>) -> (r: SpotifyResult<
    (Vec<ArtistSummary>, Option<String>),
>)
    ensures
        match (answer, r) {
            (Some(found), Ok((artists, cursor))) => {
                &&& artists.deep_view() == (match found.artists.items {
                    Some(items) => items.deep_view().map_values(
                        |a: ArtistView| api_models::artist_summary(a),
                    ),
                    None => Seq::<ArtistSummaryView>::empty(),
                })
                &&& cursor == (match found.artists.cursors {
                    Some(cursors) => cursors.after,
                    None => None,
                })
            },
            (None, Err(e)) => e == SpotifyApiError::NoContent,
            _ => false,
        },
{
    match answer {
        None => Err(SpotifyApiError::NoContent),
        Some(found) => {
            let cursor: Option<String> = match found.artists.cursors {
                Some(cursors) => cursors.after,
                None => None,
            };
            let artists: Vec<ArtistSummary> = match found.artists.items {
                Some(items) => artist_summaries(items),
                None => {
                    let none: Vec<ArtistSummary> = Vec::new();
                    assert(none.deep_view() =~= Seq::<ArtistSummaryView>::empty());
                    none
                },
            };
            Ok((artists, cursor))
        },
    }
}

// ── Searching ──────────────────────────────────────────────────────────────

/// What a search found.
pub fn search(answer: Option<RawSearchResults>) -> (r: SpotifyResult<SearchResults>)
    ensures
        match (answer, r) {
            (Some(raw), Ok(found)) => found.deep_view() == (SearchResultsView {
                albums: raw.albums.spec_items().map_values(
                    |a: Album| api_models::album_description(a),
                ),
                artists: raw.artists.spec_items().map_values(
                    |a: Artist| api_models::artist_summary(a.deep_view()),
                ),
                tracks: SongBatchView {
                    songs: api_models::songs_of(raw.tracks.spec_items()),
                    batch: raw.tracks.spec_batch(),
                },
                playlists: raw.playlists.spec_items().map_values(
                    |p: Playlist| api_models::playlist_description(p),
                ),
            }),
            (None, Err(e)) => e == SpotifyApiError::NoContent,
            _ => false,
        },
{
    match answer {
        None => Err(SpotifyApiError::NoContent),
        Some(raw) => {
            let albums = album_descriptions(raw.albums.into_items());
            let artist_items: Vec<Artist> = raw.artists.into_items();
            let ghost artist_list = artist_items;
            let artists = artist_summaries(artist_items);
            assert(artists.deep_view() =~= artist_list@.map_values(
                |a: Artist| api_models::artist_summary(a.deep_view()),
            ));
            let tracks = SongBatch::from(raw.tracks);
            let playlists = playlist_descriptions(raw.playlists.into_items());
            Ok(SearchResults { albums, artists, tracks, playlists })
        },
    }
}

// ── Remote players ─────────────────────────────────────────────────────────

/// The remote players that take commands, in order.
pub open spec fn usable_devices(devices: Seq<Device>) -> Seq<ConnectDeviceView> {
    devices.filter(|d: Device| !d.is_restricted).map_values(
        |d: Device| api_models::connect_device(d),
    )
}

/// The remote players that take commands.
pub fn list_available_devices(answer: Option<Devices>) -> (r: SpotifyResult<Vec<ConnectDevice>>)
    ensures
        match (answer, r) {
            (Some(found), Ok(list)) => list.deep_view() == usable_devices(found.devices@),
            (None, Err(e)) => e == SpotifyApiError::NoContent,
            _ => false,
        },
{
    match answer {
        None => Err(SpotifyApiError::NoContent),
        Some(found) => {
            let ghost whole = found.devices@;
            let ghost open = |d: Device| !d.is_restricted;
            let ghost view = |d: Device| api_models::connect_device(d);
            let mut list: Vec<ConnectDevice> = Vec::new();
            proof {
                reveal(Seq::filter);
                assert(list.deep_view() =~= whole.take(0).filter(open).map_values(view));
            }
            for device in it: found.devices.into_iter()
                invariant
                    it.seq() == whole,
                    open == (|d: Device| !d.is_restricted),
                    view == (|d: Device| api_models::connect_device(d)),
                    list.deep_view() == whole.take(it.index()).filter(open).map_values(view),
            {
                let ghost before = list;
                let ghost this = device;
                proof {
                    lists::lemma_filter_take_push(whole, open, it.index());
                }
                if !device.is_restricted {
                    let one = ConnectDevice::from(device);
                    list.push(one);
                    proof {
                        lists::lemma_deep_push(before, list, one);
                        let kept = whole.take(it.index()).filter(open);
                        assert(kept.push(this).map_values(view) =~= kept.map_values(view).push(
                            view(this),
                        ));
                    }
                }
            }
            proof {
                lists::lemma_take_all(whole);
            }
            Ok(list)
        },
    }
}

/// What a remote player plays next.
pub fn get_player_queue(answer: Option<PlayerQueue>) -> (r: SpotifyResult<Vec<SongDescription>>)
    ensures
        match (answer, r) {
            (Some(queue), Ok(songs)) => songs.deep_view() == api_models::songs_of(
                api_models::queue_tracks(queue),
            ),
            (None, Err(e)) => e == SpotifyApiError::NoContent,
            _ => false,
        },
{
    match answer {
        None => Err(SpotifyApiError::NoContent),
        Some(queue) => Ok(songs_of_queue(queue)),
    }
}

/// What a remote player does.
pub fn player_state(answer: Option<PlayerState>) -> (r: SpotifyResult<ConnectPlayerState>)
    ensures
        match (answer, r) {
            (Some(state), Ok(found)) => found.deep_view() == api_models::player_state(state),
            (None, Err(e)) => e == SpotifyApiError::NoContent,
            _ => false,
        },
{
    match answer {
        None => Err(SpotifyApiError::NoContent),
        Some(state) => Ok(ConnectPlayerState::from(state)),
    }
}

/// The request that plays a context from the track at `offset` on.
pub fn player_play_in_context(context_uri: String, offset: usize) -> (r: PlayRequest)
    ensures
        r == (PlayRequest::Contextual {
            context_uri,
            offset: PlayOffset { position: offset as u32 },
        }),
{
    PlayRequest::Contextual {
        context_uri,
        offset: PlayOffset {
            position: #[verifier::truncate]
            (offset as u32),
        },
    }
}

/// The request that plays a list of tracks from the one at `offset` on.
pub fn player_play_no_context(uris: Vec<String>, offset: usize) -> (r: PlayRequest)
    ensures
        r == (PlayRequest::Uris { uris, offset: PlayOffset { position: offset as u32 } }),
{
    PlayRequest::Uris {
        uris,
        offset: PlayOffset {
            position: #[verifier::truncate]
            (offset as u32),
        },
    }
}

// ── The tracks of a playlist ───────────────────────────────────────────────

/// How many entries of a playlist are read at a time.
pub const TRACK_ID_PAGE: usize = 50;

/// The ids by which an entry of a playlist is known: its own and, where it was
/// exchanged for another market, that of the track it stands for.
pub open spec fn entry_ids(entry: PlaylistTrackId) -> Seq<Seq<char>> {
    match entry.track {
        None => Seq::empty(),
        Some(track) => {
            let own = match track.id {
                Some(id) => seq![id@],
                None => Seq::empty(),
            };
            match track.linked_from {
                Some(link) => match link.id {
                    Some(id) => own.push(id@),
                    None => own,
                },
                None => own,
            }
        },
    }
}

/// The ids by which the entries of a playlist are known, in order.
pub open spec fn all_entry_ids(entries: Seq<PlaylistTrackId>) -> Seq<Seq<char>>
    decreases entries.len(),
{
    if entries.len() == 0 {
        Seq::empty()
    } else {
        all_entry_ids(entries.drop_last()) + entry_ids(entries.last())
    }
}

/// The reading of all track ids of a playlist, page by page.
#[derive(Debug, PartialEq, Eq)]
pub struct TrackIdReader {
    pub offset: usize,
    pub ids: Vec<String>,
}

impl TrackIdReader {
    /// Before the first page.
    pub fn new() -> (r: TrackIdReader)
        ensures
            r.offset == 0,
            r.ids.deep_view() == Seq::<Seq<char>>::empty(),
    {
        let r = TrackIdReader { offset: 0, ids: Vec::new() };
        assert(r.ids.deep_view() =~= Seq::<Seq<char>>::empty());
        r
    }

    /// Takes in the page that was read from `offset` on; `true` if that was the
    /// last one. An empty answer is an error.
    pub fn on_page(&mut self, answer: Option<Page<PlaylistTrackId>>) -> (r: SpotifyResult<bool>)
        requires
            old(self).offset + TRACK_ID_PAGE <= usize::MAX,
        ensures
            match (answer, r) {
                (Some(page), Ok(done)) => {
                    &&& final(self).ids.deep_view() == old(self).ids.deep_view() + all_entry_ids(
                        page.spec_items(),
                    )
                    &&& final(self).offset == old(self).offset + TRACK_ID_PAGE
                    &&& done == (final(self).offset >= page.total)
                },
                (None, Err(e)) => e == SpotifyApiError::NoContent && *final(self) == *old(self),
                _ => false,
            },
    {
        match answer {
            None => Err(SpotifyApiError::NoContent),
            Some(page) => {
                let total: usize = page.total();
                let ghost start = self.ids.deep_view();
                let ghost whole = page.spec_items();
                let items: Vec<PlaylistTrackId> = page.into_items();
                assert(start =~= start + all_entry_ids(whole.take(0)));
                let mut ids: Vec<String> = Vec::new();
                assert(ids.deep_view() =~= all_entry_ids(whole.take(0)));
                for entry in it: items.into_iter()
                    invariant
                        it.seq() == whole,
                        ids.deep_view() == all_entry_ids(whole.take(it.index())),
                {
                    let ghost before = ids;
                    let ghost this = entry;
                    proof {
                        assert(whole.take(it.index() + 1).drop_last() =~= whole.take(it.index()));
                    }
                    match entry.track {
                        None => {
                            assert(ids.deep_view() =~= before.deep_view() + entry_ids(this));
                        },
                        Some(track) => {
                            match track.id {
                                Some(id) => {
                                    ids.push(id);
                                    proof {
                                        lists::lemma_deep_push(before, ids, id);
                                    }
                                },
                                None => {},
                            }
                            let ghost middle = ids;
                            match track.linked_from {
                                Some(link) => match link.id {
                                    Some(id) => {
                                        ids.push(id);
                                        proof {
                                            lists::lemma_deep_push(middle, ids, id);
                                        }
                                    },
                                    None => {},
                                },
                                None => {},
                            }
                            assert(ids.deep_view() =~= before.deep_view() + entry_ids(this));
                        },
                    }
                }
                proof {
                    lists::lemma_take_all(whole);
                }
                let ghost added = ids;
                let ghost old_ids = self.ids;
                self.ids.append(&mut ids);
                assert(self.ids.deep_view() =~= old_ids.deep_view() + added.deep_view());
                self.offset = self.offset + TRACK_ID_PAGE;
                Ok(self.offset >= total)
            },
        }
    }
}

// ── Recently played ────────────────────────────────────────────────────────

/// The names of the artists, in order.
pub open spec fn names_of(artists: Seq<ArtistView>) -> Seq<Seq<char>> {
    artists.map_values(|a: ArtistView| a.name)
}

/// The album that a play can be gone back to.
pub open spec fn jump_back(play: PlayHistory) -> JumpBackContextView {
    JumpBackContextView {
        id: play.track.album.id@,
        kind: JumpBackKind::Album,
        title: play.track.album.name@,
        subtitle: text::joined(names_of(play.track.track.artists.deep_view()), ", "@),
        art: api_models::picture_of(play.track.album.images.deep_view()),
    }
}

/// The plays whose album has an id.
pub open spec fn with_album(plays: Seq<PlayHistory>) -> Seq<PlayHistory> {
    plays.filter(|p: PlayHistory| p.track.album.id@.len() > 0)
}

/// The plays whose album has an id and was not played since, latest first.
pub open spec fn jump_back_plays(plays: Seq<PlayHistory>) -> Seq<PlayHistory> {
    lists::firsts(with_album(plays), |p: PlayHistory| p.track.album.id@)
}

/// The tracks that were played, each where it was played last, latest first.
pub open spec fn played_tracks(plays: Seq<PlayHistory>) -> Seq<TrackItem> {
    lists::firsts(
        plays.map_values(|p: PlayHistory| p.track),
        |t: TrackItem| t.track.id@,
    )
}

/// The names of the artists of a track, with a comma between each two.
fn artists_line(artists: &Vec<Artist>) -> (r: String)
    ensures
        r@ == text::joined(names_of(artists.deep_view()), ", "@),
{
    let ghost all = names_of(artists.deep_view());
    let mut names: Vec<String> = Vec::new();
    let mut i: usize = 0;
    assert(names.deep_view() =~= all.take(0));
    while i < artists.len()
        invariant
            i <= artists.len(),
            all == names_of(artists.deep_view()),
            names.deep_view() == all.take(i as int),
        decreases artists.len() - i,
    {
        let ghost before = names;
        let name: String = artists[i].name.clone();
        names.push(name);
        proof {
            lists::lemma_deep_push(before, names, name);
            lists::lemma_take_push(all, i as int);
        }
        i += 1;
    }
    proof {
        lists::lemma_take_all(all);
    }
    join(&names, ", ")
}

/// The albums that the plays can be gone back to.
fn jump_back_contexts(plays: &Vec<PlayHistory>) -> (r: Vec<JumpBackContext>)
    ensures
        r.deep_view() == jump_back_plays(plays@).map_values(|p: PlayHistory| jump_back(p)),
{
    let ghost whole = plays@;
    let ghost named = |p: PlayHistory| p.track.album.id@.len() > 0;
    let ghost album_id = |p: PlayHistory| p.track.album.id@;
    let ghost view = |p: PlayHistory| jump_back(p);
    let mut seen: Vec<String> = Vec::new();
    let mut out: Vec<JumpBackContext> = Vec::new();
    let mut i: usize = 0;
    proof {
        reveal(Seq::filter);
        assert(whole.take(0).filter(named) =~= Seq::<PlayHistory>::empty());
        assert(seen.deep_view() =~= Seq::<Seq<char>>::empty());
        assert(out.deep_view() =~= lists::firsts(whole.take(0).filter(named), album_id).map_values(
            view,
        ));
    }
    while i < plays.len()
        invariant
            i <= plays.len(),
            plays@ == whole,
            named == (|p: PlayHistory| p.track.album.id@.len() > 0),
            album_id == (|p: PlayHistory| p.track.album.id@),
            view == (|p: PlayHistory| jump_back(p)),
            forall|k: Seq<char>|
                seen.deep_view().contains(k) <==> #[trigger] lists::keys(
                    whole.take(i as int).filter(named),
                    album_id,
                ).contains(k),
            out.deep_view() == lists::firsts(
                whole.take(i as int).filter(named),
                album_id,
            ).map_values(view),
        decreases plays.len() - i,
    {
        let ghost kept = whole.take(i as int).filter(named);
        let ghost this = whole[i as int];
        proof {
            lists::lemma_filter_take_push(whole, named, i as int);
        }
        if !plays[i].track.album.id.as_str().is_empty() {
            proof {
                let longer = kept.push(this);
                assert(longer.drop_last() =~= kept);
                assert(lists::keys(longer, album_id) =~= lists::keys(kept, album_id).push(
                    album_id(this),
                ));
                assert forall|k: Seq<char>|
                    lists::keys(longer, album_id).contains(k) <==> (lists::keys(
                        kept,
                        album_id,
                    ).contains(k) || k == album_id(this)) by {
                    lists::lemma_contains_push(lists::keys(kept, album_id), album_id(this), k);
                }
            }
            if !id_in(&seen, plays[i].track.album.id.as_str()) {
                let ghost seen_before = seen;
                let id: String = plays[i].track.album.id.clone();
                seen.push(id);
                proof {
                    lists::lemma_deep_push(seen_before, seen, id);
                    assert forall|k: Seq<char>|
                        seen.deep_view().contains(k) <==> (seen_before.deep_view().contains(k) || k
                            == album_id(this)) by {
                        lists::lemma_contains_push(seen_before.deep_view(), album_id(this), k);
                    }
                }
                let ghost before = out;
                let one = JumpBackContext {
                    id: plays[i].track.album.id.clone(),
                    kind: JumpBackKind::Album,
                    title: plays[i].track.album.name.clone(),
                    subtitle: artists_line(&plays[i].track.track.artists),
                    art: plays[i].track.album.picture(),
                };
                out.push(one);
                proof {
                    lists::lemma_deep_push(before, out, one);
                    let f = lists::firsts(kept, album_id);
                    assert(f.push(this).map_values(view) =~= f.map_values(view).push(view(this)));
                }
            }
        }
        i += 1;
    }
    proof {
        lists::lemma_take_all(whole);
    }
    out
}

/// What was played lately: the tracks, and the albums they came from. Both are
/// in the order of the latest play and hold nothing twice; plays without an album
/// id give no album.
pub fn recently_played(recent: RecentlyPlayed) -> (r: (Vec<SongDescription>, Vec<JumpBackContext>))
    ensures
        r.0.deep_view() == api_models::songs_of(
            played_tracks(match recent.items {
                Some(items) => items@,
                None => Seq::empty(),
            }),
        ),
        r.1.deep_view() == jump_back_plays(
            match recent.items {
                Some(items) => items@,
                None => Seq::empty(),
            },
        ).map_values(|p: PlayHistory| jump_back(p)),
{
    let plays: Vec<PlayHistory> = match recent.items {
        Some(items) => items,
        None => Vec::new(),
    };
    let contexts = jump_back_contexts(&plays);
    let ghost whole = plays@;
    let ghost all = whole.map_values(|p: PlayHistory| p.track);
    let ghost track_id = |t: TrackItem| t.track.id@;
    let mut seen: Vec<String> = Vec::new();
    let mut tracks: Vec<TrackItem> = Vec::new();
    proof {
        assert(all.take(0) =~= Seq::<TrackItem>::empty());
        assert(seen.deep_view() =~= Seq::<Seq<char>>::empty());
        assert(lists::keys(all.take(0), track_id) =~= Seq::<Seq<char>>::empty());
    }
    for play in it: plays.into_iter()
        invariant
            it.seq() == whole,
            all == whole.map_values(|p: PlayHistory| p.track),
            track_id == (|t: TrackItem| t.track.id@),
            forall|k: Seq<char>|
                seen.deep_view().contains(k) <==> #[trigger] lists::keys(
                    all.take(it.index()),
                    track_id,
                ).contains(k),
            tracks@ == lists::firsts(all.take(it.index()), track_id),
    {
        let ghost this = play.track;
        let ghost seen_at_start = seen.deep_view();
        let ghost keys_before = lists::keys(all.take(it.index()), track_id);
        proof {
            lists::lemma_firsts_push(all, track_id, it.index());
            assert(all[it.index()] == this);
            assert forall|k: Seq<char>|
                keys_before.push(track_id(this)).contains(k) <==> (keys_before.contains(k) || k
                    == track_id(this)) by {
                lists::lemma_contains_push(keys_before, track_id(this), k);
            }
        }
        if !id_in(&seen, play.track.track.id.as_str()) {
            let ghost seen_before = seen;
            let id: String = play.track.track.id.clone();
            seen.push(id);
            proof {
                lists::lemma_deep_push(seen_before, seen, id);
                assert forall|k: Seq<char>|
                    seen.deep_view().contains(k) <==> (seen_before.deep_view().contains(k) || k
                        == track_id(this)) by {
                    lists::lemma_contains_push(seen_before.deep_view(), track_id(this), k);
                }
            }
            tracks.push(play.track);
        }
        proof {
            let keys_after = lists::keys(all.take(it.index() + 1), track_id);
            assert(keys_after == keys_before.push(track_id(this)));
            assert forall|k: Seq<char>|
                seen.deep_view().contains(k) <==> #[trigger] keys_after.contains(k) by {
                assert(keys_before.contains(k) <==> seen_at_start.contains(k));
            }
        }
    }
    proof {
        lists::lemma_take_all(all);
    }
    (songs_of_items(tracks), contexts)
}

/// Neither the tracks nor the albums that were played lately hold anything
/// twice, no album without an id is among them, and none that was played is left
/// out.
pub proof fn law_recently_played_has_no_repeats(plays: Seq<PlayHistory>)
    ensures
        api_models::track_ids(played_tracks(plays)).no_duplicates(),
        lists::keys(jump_back_plays(plays), |p: PlayHistory| p.track.album.id@).no_duplicates(),
        forall|i: int|
            0 <= i < plays.len() ==> api_models::track_ids(played_tracks(plays)).contains(
                (#[trigger] plays[i]).track.track.id@,
            ),
        forall|i: int|
            0 <= i < plays.len() && plays[i].track.album.id@.len() > 0 ==> lists::keys(
                jump_back_plays(plays),
                |p: PlayHistory| p.track.album.id@,
            ).contains((#[trigger] plays[i]).track.album.id@),
        forall|i: int|
            0 <= i < jump_back_plays(plays).len() ==> (#[trigger] jump_back_plays(
                plays,
            )[i]).track.album.id@.len() > 0,
{
    let all = plays.map_values(|p: PlayHistory| p.track);
    let track_id = |t: TrackItem| t.track.id@;
    let album_id = |p: PlayHistory| p.track.album.id@;
    lists::lemma_firsts(all, track_id);
    lists::lemma_firsts(with_album(plays), album_id);
    assert(api_models::track_ids(played_tracks(plays)) =~= lists::keys(
        played_tracks(plays),
        track_id,
    ));
    assert forall|i: int| 0 <= i < plays.len() implies api_models::track_ids(
        played_tracks(plays),
    ).contains((#[trigger] plays[i]).track.track.id@) by {
        assert(lists::keys(all, track_id)[i] == plays[i].track.track.id@);
        assert(lists::keys(all, track_id).contains(plays[i].track.track.id@));
    }
    assert forall|i: int| 0 <= i < plays.len() && plays[i].track.album.id@.len() > 0 implies lists::keys(
        jump_back_plays(plays),
        album_id,
    ).contains((#[trigger] plays[i]).track.album.id@) by {
        let named = |p: PlayHistory| p.track.album.id@.len() > 0;
        assert(plays.contains(plays[i]) && named(plays[i]));
        plays.lemma_filter_contains(named, i);
        assert(with_album(plays).contains(plays[i]));
        let k = choose|k: int| 0 <= k < with_album(plays).len() && with_album(plays)[k] == plays[i];
        assert(lists::keys(with_album(plays), album_id)[k] == plays[i].track.album.id@);
        assert(lists::keys(with_album(plays), album_id).contains(plays[i].track.album.id@));
    }
    assert forall|i: int| 0 <= i < jump_back_plays(plays).len() implies (#[trigger] jump_back_plays(
        plays,
    )[i]).track.album.id@.len() > 0 by {
        lists::lemma_firsts_subset(with_album(plays), album_id, i);
        let k = choose|k: int|
            0 <= k < with_album(plays).len() && with_album(plays)[k] == jump_back_plays(plays)[i];
        plays.lemma_filter_pred(|p: PlayHistory| p.track.album.id@.len() > 0, k);
    }
}

// ── Tracks by id ───────────────────────────────────────────────────────────

/// How many tracks can be asked for at a time.
pub const TRACKS_PER_REQUEST: usize = 50;

/// The pieces of a list one after the other.
pub open spec fn concatenated(pieces: Seq<Seq<Seq<char>>>) -> Seq<Seq<char>>
    decreases pieces.len(),
{
    if pieces.len() == 0 {
        Seq::empty()
    } else {
        concatenated(pieces.drop_last()) + pieces.last()
    }
}

/// Splits the ids into requests: together they ask for all ids in order, each
/// for at least one, all but the last for as many as can be asked for.
pub fn track_requests(ids: &Vec<String>) -> (r: Vec<Vec<String>>)
    ensures
        concatenated(r.deep_view()) == ids.deep_view(),
        forall|i: int|
            0 <= i < r@.len() ==> 0 < (#[trigger] r@[i])@.len() <= TRACKS_PER_REQUEST,
        forall|i: int|
            0 <= i < r@.len() - 1 ==> (#[trigger] r@[i])@.len() == TRACKS_PER_REQUEST,
{
    let ghost all = ids.deep_view();
    let mut requests: Vec<Vec<String>> = Vec::new();
    let mut start: usize = 0;
    assert(concatenated(requests.deep_view()) =~= all.take(0));
    while start < ids.len()
        invariant
            start <= ids.len(),
            all == ids.deep_view(),
            concatenated(requests.deep_view()) == all.take(start as int),
            forall|i: int|
                0 <= i < requests@.len() ==> 0 < (#[trigger] requests@[i])@.len()
                    <= TRACKS_PER_REQUEST,
            forall|i: int|
                0 <= i < requests@.len() - 1 ==> (#[trigger] requests@[i])@.len()
                    == TRACKS_PER_REQUEST,
            start < ids.len() && requests@.len() > 0 ==> requests@[requests@.len() - 1]@.len()
                == TRACKS_PER_REQUEST,
        decreases ids.len() - start,
    {
        let end: usize = if ids.len() - start > TRACKS_PER_REQUEST {
            start + TRACKS_PER_REQUEST
        } else {
            ids.len()
        };
        let mut piece: Vec<String> = Vec::new();
        let mut i: usize = start;
        assert(piece.deep_view() =~= all.subrange(start as int, start as int));
        while i < end
            invariant
                start <= i <= end <= ids.len(),
                all == ids.deep_view(),
                piece@.len() == i - start,
                piece.deep_view() == all.subrange(start as int, i as int),
            decreases end - i,
        {
            let ghost before = piece;
            let id: String = ids[i].clone();
            piece.push(id);
            proof {
                lists::lemma_deep_push(before, piece, id);
                assert(all.subrange(start as int, i + 1) =~= all.subrange(
                    start as int,
                    i as int,
                ).push(all[i as int]));
            }
            i += 1;
        }
        let ghost before = requests;
        let ghost added = piece;
        requests.push(piece);
        proof {
            lists::lemma_deep_push(before, requests, added);
            assert(requests.deep_view().drop_last() =~= before.deep_view());
            assert(all.take(end as int) =~= all.take(start as int) + all.subrange(
                start as int,
                end as int,
            ));
        }
        start = end;
    }
    proof {
        lists::lemma_take_all(all);
    }
    requests
}

/// Adds the songs of one answer to those of the answers before it. Tracks that
/// are not available are left out; an empty answer is an error.
pub fn add_tracks(songs: &mut Vec<SongDescription>, answer: Option<Tracks>) -> (r: SpotifyResult<
    (),
>)
    ensures
        match (answer, r) {
            (Some(tracks), Ok(_)) => final(songs).deep_view() == old(songs).deep_view()
                + api_models::songs_of(
                match tracks.tracks {
                    Some(items) => items@,
                    None => Seq::empty(),
                },
            ),
            (None, Err(e)) => e == SpotifyApiError::NoContent && *final(songs) == *old(songs),
            _ => false,
        },
{
    match answer {
        None => Err(SpotifyApiError::NoContent),
        Some(tracks) => {
            let mut more: Vec<SongDescription> = songs_of_tracks(tracks);
            let ghost added = more;
            let ghost before = *songs;
            songs.append(&mut more);
            assert(songs.deep_view() =~= before.deep_view() + added.deep_view());
            Ok(())
        },
    }
}

// ── Laws ───────────────────────────────────────────────────────────────────

/// The first answer decides; without any the answer is no.
pub proof fn law_first_answer_decides(first: bool, others: Seq<bool>)
    ensures
        first_flag(seq![first] + others) == first,
        !first_flag(Seq::empty()),
{
}

/// The picture of the user is the first one of the list that has an address; there
/// is none only if no picture has one.
pub proof fn law_picture_is_the_first_with_an_address(
    images: Seq<api_models::ImageView>,
    k: int,
)
    requires
        0 <= k < images.len(),
        images[k].url.len() > 0,
        forall|j: int| 0 <= j < k ==> (#[trigger] images[j]).url.len() == 0,
    ensures
        first_address(images, 0) == Some(images[k].url),
{
    lemma_first_address(images, 0, k);
}

proof fn lemma_first_address(images: Seq<api_models::ImageView>, i: int, k: int)
    requires
        0 <= i <= k < images.len(),
        images[k].url.len() > 0,
        forall|j: int| i <= j < k ==> (#[trigger] images[j]).url.len() == 0,
    ensures
        first_address(images, i) == Some(images[k].url),
    decreases k - i,
{
    if i < k {
        assert(images[i].url.len() == 0);
        lemma_first_address(images, i + 1, k);
    }
}

/// Without an address among the pictures there is none.
pub proof fn law_no_address_no_picture(images: Seq<api_models::ImageView>, i: int)
    requires
        0 <= i,
        forall|j: int| 0 <= j < images.len() ==> (#[trigger] images[j]).url.len() == 0,
    ensures
        first_address(images, i) is None,
    decreases images.len() - i,
{
    if i < images.len() {
        assert(images[i].url.len() == 0);
        law_no_address_no_picture(images, i + 1);
    }
}

/// A remote player can be used exactly if it is not restricted; it is listed with
/// its own id and name.
pub proof fn law_unrestricted_devices_are_listed(devices: Seq<Device>, k: int)
    requires
        0 <= k < devices.len(),
    ensures
        !devices[k].is_restricted ==> exists|i: int|
            0 <= i < usable_devices(devices).len() && (#[trigger] usable_devices(devices)[i]).id
                == devices[k].id@ && usable_devices(devices)[i].label == devices[k].name@,
        forall|one: ConnectDeviceView| #[trigger]
            usable_devices(devices).contains(one) ==> exists|j: int|
                0 <= j < devices.len() && !(#[trigger] devices[j]).is_restricted && one.id
                    == devices[j].id@,
        (forall|j: int| 0 <= j < devices.len() ==> !(#[trigger] devices[j]).is_restricted)
            ==> usable_devices(devices).len() == devices.len(),
{
    let open = |d: Device| !d.is_restricted;
    let kept = devices.filter(open);
    let listed = usable_devices(devices);
    lists::lemma_filter_set(devices, open);
    if !devices[k].is_restricted {
        assert(devices.contains(devices[k]));
        assert(kept.contains(devices[k]));
        let i = choose|i: int| 0 <= i < kept.len() && kept[i] == devices[k];
        assert(listed[i].id == devices[k].id@);
    }
    assert forall|one: ConnectDeviceView| #[trigger] listed.contains(one) implies exists|j: int|
        0 <= j < devices.len() && !(#[trigger] devices[j]).is_restricted && one.id
            == devices[j].id@ by {
        let i = choose|i: int| 0 <= i < listed.len() && listed[i] == one;
        assert(kept.contains(kept[i]));
        assert(devices.contains(kept[i]) && open(kept[i]));
        let j = choose|j: int| 0 <= j < devices.len() && devices[j] == kept[i];
        assert(!devices[j].is_restricted);
    }
    if forall|j: int| 0 <= j < devices.len() ==> !(#[trigger] devices[j]).is_restricted {
        lemma_filter_all(devices, open);
    }
}

proof fn lemma_filter_all(devices: Seq<Device>, open: spec_fn(Device) -> bool)
    requires
        forall|j: int| 0 <= j < devices.len() ==> open(#[trigger] devices[j]),
    ensures
        devices.filter(open) == devices,
    decreases devices.len(),
{
    reveal(Seq::filter);
    if devices.len() > 0 {
        let front = devices.drop_last();
        assert forall|j: int| 0 <= j < front.len() implies open(#[trigger] front[j]) by {
            assert(front[j] == devices[j]);
        }
        lemma_filter_all(front, open);
        assert(open(devices[devices.len() - 1]));
        assert(devices.filter(open) =~= devices);
    }
}

/// An id is read for a playlist exactly if an entry has it as its own, or as that of
/// the track that it stands for.
pub proof fn law_entries_are_known_by_both_ids(entries: Seq<PlaylistTrackId>, id: Seq<char>)
    ensures
        all_entry_ids(entries).contains(id) <==> exists|k: int|
            0 <= k < entries.len() && ((#[trigger] entries[k]).track matches Some(track) && (
            track.id.deep_view() == Some(id) || (track.linked_from matches Some(link)
                && link.id.deep_view() == Some(id)))),
    decreases entries.len(),
{
    let known = |e: PlaylistTrackId|
        e.track matches Some(track) && (track.id.deep_view() == Some(id) || (track.linked_from
            matches Some(link) && link.id.deep_view() == Some(id)));
    if entries.len() > 0 {
        let front = entries.drop_last();
        let last = entries.last();
        law_entries_are_known_by_both_ids(front, id);
        let a = all_entry_ids(front);
        let b = entry_ids(last);
        assert(b.contains(id) <==> known(last)) by {
            if known(last) {
                let track = last.track->0;
                if track.id.deep_view() == Some(id) {
                    assert(b[0] == id);
                } else {
                    assert(b[b.len() - 1] == id);
                }
            }
        }
        assert((a + b).contains(id) <==> a.contains(id) || b.contains(id)) by {
            if a.contains(id) {
                let i = choose|i: int| 0 <= i < a.len() && a[i] == id;
                assert((a + b)[i] == id);
            }
            if b.contains(id) {
                let i = choose|i: int| 0 <= i < b.len() && b[i] == id;
                assert((a + b)[a.len() + i] == id);
            }
        }
        if known(last) {
            assert(entries[entries.len() - 1] == last);
        }
        assert forall|k: int| 0 <= k < front.len() implies front[k] == #[trigger] entries[k] by {}
        if exists|k: int| 0 <= k < front.len() && known(#[trigger] front[k]) {
            let k = choose|k: int| 0 <= k < front.len() && known(#[trigger] front[k]);
            assert(known(entries[k]));
        }
        if exists|k: int| 0 <= k < entries.len() && known(#[trigger] entries[k]) {
            let k = choose|k: int| 0 <= k < entries.len() && known(#[trigger] entries[k]);
            if k < front.len() {
                assert(known(front[k]));
            }
        }
    }
}

/// What can be gone back to is the album of the play: its id, name and picture, with
/// the artists of the track that was played.
pub proof fn law_plays_lead_back_to_their_album(play: PlayHistory)
    ensures
        jump_back(play).id == play.track.album.id@,
        jump_back(play).kind == JumpBackKind::Album,
        jump_back(play).title == play.track.album.name@,
        api_models::shows_images(jump_back(play).art, play.track.album.images@),
        play.track.track.artists@.len() == 1 ==> jump_back(play).subtitle
            == play.track.track.artists@[0].name@,
        play.track.track.artists@.len() == 2 ==> jump_back(play).subtitle
            == play.track.track.artists@[0].name@ + ", "@ + play.track.track.artists@[1].name@,
{
    let artists = play.track.track.artists;
    let names = names_of(artists.deep_view());
    assert(artists.deep_view().len() == artists@.len());
    api_models::lemma_shows_images(play.track.album.images);
    if artists@.len() == 2 {
        assert(names =~= seq![names[0]] + seq![names[1]]);
        text::law_join_of_two_lists(seq![names[0]], seq![names[1]], ", "@);
    }
}

/// What was played stays in the order of the plays: a further play adds its track at
/// the end if it was not played before, and nothing otherwise. The same goes for the
/// albums.
pub proof fn law_plays_stay_in_order(plays: Seq<PlayHistory>, next: PlayHistory)
    ensures
        played_tracks(Seq::empty()).len() == 0,
        (exists|i: int|
            0 <= i < plays.len() && (#[trigger] plays[i]).track.track.id@ == next.track.track.id@)
            ==> played_tracks(plays.push(next)) == played_tracks(plays),
        !(exists|i: int|
            0 <= i < plays.len() && (#[trigger] plays[i]).track.track.id@ == next.track.track.id@)
            ==> played_tracks(plays.push(next)) == played_tracks(plays).push(next.track),
{
    let tracks = plays.map_values(|p: PlayHistory| p.track);
    let longer = plays.push(next).map_values(|p: PlayHistory| p.track);
    let track_id = |t: TrackItem| t.track.id@;
    assert(Seq::<PlayHistory>::empty().map_values(|p: PlayHistory| p.track) =~= Seq::<
        TrackItem,
    >::empty());
    assert(longer =~= tracks.push(next.track));
    lists::lemma_firsts_push(longer, track_id, tracks.len() as int);
    assert(longer.take(tracks.len() as int) =~= tracks);
    assert(longer.take(tracks.len() as int + 1) =~= longer);
    let keys = lists::keys(tracks, track_id);
    assert(keys.contains(track_id(next.track)) <==> exists|i: int|
        0 <= i < plays.len() && (#[trigger] plays[i]).track.track.id@ == next.track.track.id@) by {
        if keys.contains(track_id(next.track)) {
            let i = choose|i: int| 0 <= i < keys.len() && keys[i] == track_id(next.track);
            assert(plays[i].track.track.id@ == next.track.track.id@);
        }
        if exists|i: int|
            0 <= i < plays.len() && (#[trigger] plays[i]).track.track.id@
                == next.track.track.id@ {
            let i = choose|i: int|
                0 <= i < plays.len() && (#[trigger] plays[i]).track.track.id@
                    == next.track.track.id@;
            assert(keys[i] == track_id(next.track));
        }
    }
}

/// Entries and tracks are asked for fifty at a time.
pub proof fn law_requests_are_of_fifty()
    ensures
        TRACK_ID_PAGE == 50,
        TRACKS_PER_REQUEST == 50,
{
}

} // verus!

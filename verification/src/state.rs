//! The state of the client, as far as its parts read it.
//!
//! A model holds a snapshot of the state; the program brings it up to date
//! before it hands the model an event or a click.

use vstd::prelude::*;

use crate::actions::{Device, DeviceView, PlaybackAction, SongsSource, SongsSourceView};
use crate::card_model::CardModel;
use crate::id_set::IdSet;
use crate::models;
use crate::models::{
    find_song, AlbumFullDescription, ConnectDevice, ImageSet, PlaylistDescription,
    PlaylistSummary, RemotePlayback, RepeatMode, SearchResults, SongDescription,
    SongDescriptionView,
};
use crate::song_list;
use crate::song_list::SongListModel;
use crate::text;
use crate::text::{cat, str_eq};

verus! {

// ── Sources ────────────────────────────────────────────────────────────────

impl SongsSourceView {
    /// The URI by which the service knows the source; only playlists and albums
    /// have one that can be played as a context.
    pub open spec fn uri(self) -> Option<Seq<char>> {
        match self {
            SongsSourceView::Playlist { id, .. } => Some("spotify:playlist:"@ + id),
            SongsSourceView::Album(id) => Some("spotify:album:"@ + id),
            _ => None,
        }
    }
}

impl SongsSource {
    /// Whether the service knows the source by a URI.
    pub fn has_spotify_uri(&self) -> (r: bool)
        ensures
            r == (self.deep_view().uri() is Some),
    {
        match self {
            SongsSource::Playlist { .. } => true,
            SongsSource::Album(_) => true,
            _ => false,
        }
    }

    /// The URI by which the service knows the source.
    pub fn spotify_uri(&self) -> (r: Option<String>)
        ensures
            r.deep_view() == self.deep_view().uri(),
    {
        match self {
            SongsSource::Playlist { id, .. } => Some(cat("spotify:playlist:", id.as_str())),
            SongsSource::Album(id) => Some(cat("spotify:album:", id.as_str())),
            _ => None,
        }
    }

    /// Whether `context` is the URI of the source.
    pub fn matches_spotify_context(&self, context: Option<&str>) -> (r: bool)
        ensures
            r == (match context {
                Some(uri) => self.deep_view().uri() == Some(uri@),
                None => false,
            }),
    {
        match (self.spotify_uri(), context) {
            (Some(own), Some(uri)) => str_eq(own.as_str(), uri),
            _ => false,
        }
    }
}

// ── Playback ───────────────────────────────────────────────────────────────

/// What is playing.
#[derive(Debug, PartialEq, Eq)]
pub struct PlaybackState {
    pub songs: Vec<SongDescription>,
    /// The position of the current song among `songs`.
    pub position: Option<usize>,
    pub is_playing: bool,
    pub is_shuffled: bool,
    pub repeat: RepeatMode,
    pub source: Option<SongsSource>,
    /// The device that commands go to.
    pub device: Device,
    pub available_devices: Vec<ConnectDevice>,
    /// The id under which this client itself can be found as a remote player.
    pub own_device_id: Option<String>,
    /// What plays on another device, where that is known.
    pub remote: Option<RemotePlayback>,
    /// Whether what plays on another device is shown in place of what plays here.
    pub is_mirroring_remote: bool,
    /// Whether this client has the playback, even while paused.
    pub local_session_active: bool,
    /// Whether another device drives this client's player.
    pub is_remote_controlled: bool,
    /// The other device that has the playback, if one does.
    pub active_remote_device: Option<String>,
    /// The songs that the user put in the queue.
    pub manual_queue: Vec<SongDescription>,
    /// The songs of the source that come next.
    pub context_queue: Vec<SongDescription>,
}

/// What is playing after an action, given what was playing before it. Loading songs
/// replaces them and stops; loading a song by its id starts it if it is among the
/// songs; the other actions are carried out elsewhere.
pub open spec fn playback_after(
    before: PlaybackState,
    action: PlaybackAction,
    after: PlaybackState,
) -> bool {
    match action {
        PlaybackAction::LoadSongs(songs) => after == (PlaybackState {
            songs,
            position: None,
            is_playing: false,
            source: None,
            ..before
        }),
        PlaybackAction::LoadPagedSongs(source, batch) => after == (PlaybackState {
            songs: batch.songs,
            position: None,
            is_playing: false,
            source: Some(source),
            ..before
        }),
        PlaybackAction::Load(id) => match song_list::position_of(
            before.songs.deep_view(),
            id@,
        ) {
            Some(i) => after == (PlaybackState {
                position: Some(i as usize),
                is_playing: true,
                ..before
            }),
            None => after == before,
        },
        PlaybackAction::Play => after == (PlaybackState {
            is_playing: before.spec_current_song() is Some,
            ..before
        }),
        PlaybackAction::Pause => after == (PlaybackState {
            is_playing: false,
            ..before
        }),
        PlaybackAction::ToggleShuffle => after == (PlaybackState {
            is_shuffled: !before.is_shuffled,
            ..before
        }),
        _ => after == before,
    }
}

impl PlaybackState {
    /// Nothing is playing.
    pub fn new() -> (r: PlaybackState)
        ensures
            r.songs@.len() == 0,
            r.position is None,
            !r.is_playing,
            !r.is_shuffled,
            r.repeat == RepeatMode::Off,
            r.source is None,
            r.device == Device::Local,
            r.available_devices@.len() == 0,
            r.own_device_id is None,
            r.remote is None,
            !r.is_mirroring_remote,
            !r.local_session_active,
            !r.is_remote_controlled,
            r.active_remote_device is None,
            r.manual_queue@.len() == 0,
            r.context_queue@.len() == 0,
    {
        PlaybackState {
            songs: Vec::new(),
            position: None,
            is_playing: false,
            is_shuffled: false,
            repeat: RepeatMode::Off,
            source: None,
            device: Device::Local,
            available_devices: Vec::new(),
            own_device_id: None,
            remote: None,
            is_mirroring_remote: false,
            local_session_active: false,
            is_remote_controlled: false,
            active_remote_device: None,
            manual_queue: Vec::new(),
            context_queue: Vec::new(),
        }
    }

    /// The song that is current here.
    pub open spec fn spec_current_song(self) -> Option<SongDescription> {
        match self.position {
            Some(i) => if i < self.songs@.len() {
                Some(self.songs@[i as int])
            } else {
                None
            },
            None => None,
        }
    }

    /// The song that is current here.
    pub fn current_song(&self) -> (r: Option<&SongDescription>)
        ensures
            match (r, self.spec_current_song()) {
                (Some(song), Some(s)) => *song == s,
                (None, None) => true,
                _ => false,
            },
    {
        match self.position {
            Some(i) => if i < self.songs.len() {
                Some(&self.songs[i])
            } else {
                None
            },
            None => None,
        }
    }

    /// The id of the song that is current here.
    pub open spec fn spec_current_song_id(self) -> Option<Seq<char>> {
        match self.spec_current_song() {
            Some(song) => Some(song.id@),
            None => None,
        }
    }

    /// The id of the song that is current here.
    pub fn current_song_id(&self) -> (r: Option<String>)
        ensures
            r.deep_view() == self.spec_current_song_id(),
    {
        match self.current_song() {
            Some(song) => Some(song.id.clone()),
            None => None,
        }
    }

    /// The position of the song that is current here.
    pub fn current_song_index(&self) -> (r: Option<usize>)
        ensures
            r == (if self.spec_current_song() is Some {
                self.position
            } else {
                None
            }),
    {
        match self.position {
            Some(i) => if i < self.songs.len() {
                Some(i)
            } else {
                None
            },
            None => None,
        }
    }

    /// The song that is shown: that of the other device while mirroring, else
    /// the one here.
    pub open spec fn spec_displayed_song(self) -> Option<SongDescriptionView> {
        if self.is_mirroring_remote && self.remote is Some {
            Some(self.remote->0.song.deep_view())
        } else {
            match self.spec_current_song() {
                Some(song) => Some(song.deep_view()),
                None => None,
            }
        }
    }

    /// The song that is shown.
    pub fn displayed_song(&self) -> (r: Option<SongDescription>)
        ensures
            r.deep_view() == self.spec_displayed_song(),
    {
        if self.is_mirroring_remote {
            match &self.remote {
                Some(remote) => {
                    return Some(remote.song.clone());
                },
                None => {},
            }
        }
        match self.current_song() {
            Some(song) => Some(song.clone()),
            None => None,
        }
    }

    /// Whether the song that is shown is playing.
    pub open spec fn spec_displayed_is_playing(self) -> bool {
        if self.is_mirroring_remote && self.remote is Some {
            self.remote->0.is_playing
        } else {
            self.is_playing
        }
    }

    /// Whether the song that is shown is playing.
    pub fn displayed_is_playing(&self) -> (r: bool)
        ensures
            r == self.spec_displayed_is_playing(),
    {
        if self.is_mirroring_remote {
            match &self.remote {
                Some(remote) => {
                    return remote.is_playing;
                },
                None => {},
            }
        }
        self.is_playing
    }

    /// The device that is shown: the other one while mirroring, else the one that
    /// commands go to.
    pub open spec fn spec_displayed_device(self) -> DeviceView {
        if self.is_mirroring_remote && self.remote is Some {
            DeviceView::Connect(self.remote->0.device.deep_view())
        } else {
            self.device.deep_view()
        }
    }

    /// The device that is shown.
    pub fn displayed_device(&self) -> (r: Device)
        ensures
            r.deep_view() == self.spec_displayed_device(),
    {
        if self.is_mirroring_remote {
            match &self.remote {
                Some(remote) => {
                    return Device::Connect(remote.device.clone());
                },
                None => {},
            }
        }
        self.device.clone()
    }

    /// Carries out an action.
    pub fn apply(&mut self, action: PlaybackAction)
        ensures
            playback_after(*old(self), action, *final(self)),
    {
        match action {
            PlaybackAction::LoadSongs(songs) => {
                self.songs = songs;
                self.position = None;
                self.is_playing = false;
                self.source = None;
            },
            PlaybackAction::LoadPagedSongs(source, batch) => {
                self.songs = batch.songs;
                self.position = None;
                self.is_playing = false;
                self.source = Some(source);
            },
            PlaybackAction::Load(id) => {
                let found = find_song(&self.songs, id.as_str());
                proof {
                    song_list::lemma_position_of(self.songs, id@, found);
                }
                match found {
                    Some(i) => {
                        self.position = Some(i);
                        self.is_playing = true;
                    },
                    None => {},
                }
            },
            PlaybackAction::Play => {
                self.is_playing = self.current_song().is_some();
            },
            PlaybackAction::Pause => {
                self.is_playing = false;
            },
            PlaybackAction::ToggleShuffle => {
                self.is_shuffled = !self.is_shuffled;
            },
            _ => {},
        }
    }
}

// ── Pages ──────────────────────────────────────────────────────────────────

/// Where the next page of a list starts, if there is one.
#[derive(Clone, Copy, Debug, PartialEq, Eq, Structural)]
pub struct PageCursor {
    pub next_offset: Option<usize>,
    pub batch_size: usize,
}

/// The state of an album page.
#[derive(Debug, PartialEq, Eq)]
pub struct DetailsState {
    pub id: String,
    pub content: Option<AlbumFullDescription>,
    pub songs: SongListModel,
    pub next_tracks_page: PageCursor,
}

/// The state of an artist page.
#[derive(Debug, PartialEq, Eq)]
pub struct ArtistState {
    pub id: String,
    pub artist: Option<String>,
    pub photo: Option<ImageSet>,
    pub albums: Vec<CardModel>,
    pub next_page: PageCursor,
    /// The id of the artist whose releases the next page holds.
    pub next_page_id: String,
    pub top_tracks: SongListModel,
    pub is_followed: bool,
}

/// The state of a playlist page.
#[derive(Debug, PartialEq, Eq)]
pub struct PlaylistDetailsState {
    pub id: String,
    pub playlist: Option<PlaylistDescription>,
    pub songs: SongListModel,
    pub next_tracks_page: PageCursor,
}

/// The state of a radio page.
#[derive(Debug, PartialEq, Eq)]
pub struct RadioState {
    pub id: String,
    pub songs: SongListModel,
}

/// The state of the search page.
#[derive(Debug, PartialEq, Eq)]
pub struct SearchState {
    pub query: String,
    pub results: SearchResults,
}

/// The state of the home page and of the library.
#[derive(Debug, PartialEq, Eq)]
pub struct HomeState {
    pub albums: Vec<CardModel>,
    pub next_albums_page: PageCursor,
    pub playlists: Vec<CardModel>,
    pub next_playlists_page: PageCursor,
    pub artists: Vec<CardModel>,
    /// Where the next page of followed artists starts.
    pub artists_cursor: Option<String>,
    pub saved_tracks: SongListModel,
    pub next_saved_tracks_page: PageCursor,
    pub jump_back_in: Vec<CardModel>,
    pub recently_played: Vec<CardModel>,
    pub top_artists: Vec<CardModel>,
    pub top_tracks: Vec<CardModel>,
    pub made_for_you: Vec<CardModel>,
    /// The name of the artist that the mix is made from.
    pub made_for_you_artist: String,
}

impl HomeState {
    /// Nothing has been read yet.
    pub fn new(batch_size: usize) -> (r: HomeState)
        ensures
            r.albums@.len() == 0,
            r.playlists@.len() == 0,
            r.artists@.len() == 0,
            r.artists_cursor is None,
            r.next_albums_page == (PageCursor { next_offset: Some(0), batch_size }),
            r.next_playlists_page == r.next_albums_page,
            r.next_saved_tracks_page == r.next_albums_page,
            r.saved_tracks.songs@.len() == 0,
            r.saved_tracks.batch_size == batch_size,
            r.saved_tracks.total == 0,
            r.jump_back_in@.len() == 0,
            r.recently_played@.len() == 0,
            r.top_artists@.len() == 0,
            r.top_tracks@.len() == 0,
            r.made_for_you@.len() == 0,
            r.made_for_you_artist@.len() == 0,
    {
        let first = PageCursor { next_offset: Some(0), batch_size };
        HomeState {
            albums: Vec::new(),
            next_albums_page: first,
            playlists: Vec::new(),
            next_playlists_page: first,
            artists: Vec::new(),
            artists_cursor: None,
            saved_tracks: SongListModel::new(batch_size),
            next_saved_tracks_page: first,
            jump_back_in: Vec::new(),
            recently_played: Vec::new(),
            top_artists: Vec::new(),
            top_tracks: Vec::new(),
            made_for_you: Vec::new(),
            made_for_you_artist: String::new(),
        }
    }
}

/// Something that is found by its id.
pub trait Keyed: Sized {
    /// The id.
    spec fn key(self) -> Seq<char>;

    /// Whether this is what the id stands for.
    fn has_id(&self, id: &str) -> (r: bool)
        ensures
            r == (self.key() == id@),
    ;
}

impl Keyed for DetailsState {
    open spec fn key(self) -> Seq<char> {
        self.id@
    }

    fn has_id(&self, id: &str) -> (r: bool) {
        str_eq(self.id.as_str(), id)
    }
}

impl Keyed for ArtistState {
    open spec fn key(self) -> Seq<char> {
        self.id@
    }

    fn has_id(&self, id: &str) -> (r: bool) {
        str_eq(self.id.as_str(), id)
    }
}

impl Keyed for PlaylistDetailsState {
    open spec fn key(self) -> Seq<char> {
        self.id@
    }

    fn has_id(&self, id: &str) -> (r: bool) {
        str_eq(self.id.as_str(), id)
    }
}

impl Keyed for RadioState {
    open spec fn key(self) -> Seq<char> {
        self.id@
    }

    fn has_id(&self, id: &str) -> (r: bool) {
        str_eq(self.id.as_str(), id)
    }
}

impl Keyed for CardModel {
    open spec fn key(self) -> Seq<char> {
        self.id@
    }

    fn has_id(&self, id: &str) -> (r: bool) {
        str_eq(self.id.as_str(), id)
    }
}

/// The first item with the given id, from index `i` on.
pub open spec fn found_from<T: Keyed>(items: Seq<T>, id: Seq<char>, i: int) -> Option<T>
    decreases items.len() - i,
{
    if i >= items.len() {
        None
    } else if items[i].key() == id {
        Some(items[i])
    } else {
        found_from(items, id, i + 1)
    }
}

/// The first item with the given id.
pub open spec fn found<T: Keyed>(items: Seq<T>, id: Seq<char>) -> Option<T> {
    found_from(items, id, 0)
}

/// The first item with the given id.
pub fn find<'a, T: Keyed>(items: &'a Vec<T>, id: &str) -> (r: Option<&'a T>)
    ensures
        match (r, found(items@, id@)) {
            (Some(item), Some(t)) => *item == t,
            (None, None) => true,
            _ => false,
        },
{
    let mut i: usize = 0;
    while i < items.len()
        invariant
            i <= items.len(),
            found(items@, id@) == found_from(items@, id@, i as int),
        decreases items.len() - i,
    {
        if items[i].has_id(id) {
            return Some(&items[i]);
        }
        i += 1;
    }
    None
}

/// What is shown.
#[derive(Debug, PartialEq, Eq)]
pub struct BrowserState {
    pub home: Option<HomeState>,
    pub search: Option<SearchState>,
    pub details: Vec<DetailsState>,
    pub artists: Vec<ArtistState>,
    pub playlists: Vec<PlaylistDetailsState>,
    pub radios: Vec<RadioState>,
}

impl BrowserState {
    /// The state of the album page with the given id.
    pub fn details_state(&self, id: &str) -> (r: Option<&DetailsState>)
        ensures
            match (r, found(self.details@, id@)) {
                (Some(page), Some(p)) => *page == p,
                (None, None) => true,
                _ => false,
            },
    {
        find(&self.details, id)
    }

    /// The state of the artist page with the given id.
    pub fn artist_state(&self, id: &str) -> (r: Option<&ArtistState>)
        ensures
            match (r, found(self.artists@, id@)) {
                (Some(page), Some(p)) => *page == p,
                (None, None) => true,
                _ => false,
            },
    {
        find(&self.artists, id)
    }

    /// The state of the playlist page with the given id.
    pub fn playlist_details_state(&self, id: &str) -> (r: Option<&PlaylistDetailsState>)
        ensures
            match (r, found(self.playlists@, id@)) {
                (Some(page), Some(p)) => *page == p,
                (None, None) => true,
                _ => false,
            },
    {
        find(&self.playlists, id)
    }

    /// The state of the radio page with the given id.
    pub fn radio_state(&self, id: &str) -> (r: Option<&RadioState>)
        ensures
            match (r, found(self.radios@, id@)) {
                (Some(page), Some(p)) => *page == p,
                (None, None) => true,
                _ => false,
            },
    {
        find(&self.radios, id)
    }

    /// Whether the song is among the liked songs.
    pub open spec fn liked(self, id: Seq<char>) -> bool {
        match self.home {
            Some(home) => song_list::position_of(home.saved_tracks.deep_view(), id) is Some,
            None => false,
        }
    }

    /// Whether the song is among the liked songs.
    pub fn is_song_liked(&self, id: &str) -> (r: bool)
        ensures
            r == self.liked(id@),
    {
        match &self.home {
            Some(home) => home.saved_tracks.find_index(id).is_some(),
            None => false,
        }
    }
}

// ── The rest ───────────────────────────────────────────────────────────────

/// Who is logged in.
#[derive(Debug, PartialEq, Eq)]
pub struct LoginState {
    pub user: Option<String>,
    pub user_display_name: Option<String>,
    pub user_image_url: Option<String>,
    /// The ids of the playlists in the user's library.
    pub playlist_ids: IdSet,
    /// The playlists that the user owns.
    pub owned_playlists: Vec<PlaylistDescription>,
}

/// Which songs are selected.
#[derive(Debug, PartialEq, Eq)]
pub struct SelectionState {
    pub enabled: bool,
    pub selected: IdSet,
}

impl SelectionState {
    /// Whether songs can be selected now.
    pub fn is_selection_enabled(&self) -> (r: bool)
        ensures
            r == self.enabled,
    {
        self.enabled
    }

    /// Whether the song is selected.
    pub fn is_song_selected(&self, id: &str) -> (r: bool)
        ensures
            r == self.selected.set().contains(id@),
    {
        self.selected.contains(id)
    }
}

/// The state of the client.
#[derive(Debug, PartialEq, Eq)]
pub struct AppState {
    pub playback: PlaybackState,
    pub browser: BrowserState,
    pub logged_user: LoginState,
    pub selection: SelectionState,
    /// Whether the user has switched on that songs can be selected.
    pub select_mode: bool,
}

impl AppState {
    /// Nothing is playing, nothing is shown, nobody is logged in.
    pub fn new() -> (r: AppState)
        ensures
            r.playback.songs@.len() == 0,
            r.playback.position is None,
            !r.playback.is_playing,
            !r.playback.is_shuffled,
            r.playback.repeat == RepeatMode::Off,
            r.playback.source is None,
            r.playback.device == Device::Local,
            r.playback.available_devices@.len() == 0,
            r.playback.own_device_id is None,
            r.playback.remote is None,
            !r.playback.is_mirroring_remote,
            !r.playback.local_session_active,
            !r.playback.is_remote_controlled,
            r.playback.active_remote_device is None,
            r.playback.manual_queue@.len() == 0,
            r.playback.context_queue@.len() == 0,
            r.browser.home is None,
            r.browser.search is None,
            r.browser.details@.len() == 0,
            r.browser.artists@.len() == 0,
            r.browser.playlists@.len() == 0,
            r.browser.radios@.len() == 0,
            r.logged_user.user is None,
            r.logged_user.user_display_name is None,
            r.logged_user.user_image_url is None,
            r.logged_user.owned_playlists@.len() == 0,
            r.logged_user.playlist_ids.seq().len() == 0,
            !r.selection.enabled,
            r.selection.selected.seq().len() == 0,
            !r.select_mode,
    {
        AppState {
            playback: PlaybackState::new(),
            browser: BrowserState {
                home: None,
                search: None,
                details: Vec::new(),
                artists: Vec::new(),
                playlists: Vec::new(),
                radios: Vec::new(),
            },
            logged_user: LoginState {
                user: None,
                user_display_name: None,
                user_image_url: None,
                playlist_ids: IdSet::new(),
                owned_playlists: Vec::new(),
            },
            selection: SelectionState { enabled: false, selected: IdSet::new() },
            select_mode: false,
        }
    }
}

/// A snapshot of the state.
#[derive(Debug, PartialEq, Eq)]
pub struct AppModel {
    pub state: AppState,
}

impl AppModel {
    /// A snapshot of the given state.
    pub fn new(state: AppState) -> (r: AppModel)
        ensures
            r.state == state,
    {
        AppModel { state }
    }

    /// The state.
    pub fn get_state(&self) -> (r: &AppState)
        ensures
            *r == self.state,
    {
        &self.state
    }

    /// Brings the snapshot up to date with an action on what is playing.
    pub fn update_state(&mut self, action: PlaybackAction)
        ensures
            final(self).state == (AppState {
                playback: final(self).state.playback,
                ..old(self).state
            }),
            playback_after(old(self).state.playback, action, final(self).state.playback),
    {
        self.state.playback.apply(action);
    }
}

// ── Laws ───────────────────────────────────────────────────────────────────

/// Playlists and albums can be played as a whole by the service, each under its own
/// URI; nothing else can.
pub proof fn law_playlists_and_albums_have_a_uri(id: Seq<char>, title: Seq<char>)
    ensures
        (SongsSourceView::Playlist { id, title }).uri() == Some("spotify:playlist:"@ + id),
        SongsSourceView::Album(id).uri() == Some("spotify:album:"@ + id),
        SongsSourceView::Artist(id).uri() is None,
        SongsSourceView::SavedTracks.uri() is None,
        (SongsSourceView::Radio { seed_id: id, seed_name: title }).uri() is None,
{
}

/// The current song is the one at the current place, if the list has that place.
pub proof fn law_current_song_is_at_its_place(p: PlaybackState)
    ensures
        p.position is None ==> p.spec_current_song() is None,
        p.position matches Some(i) ==> (i < p.songs@.len() ==> p.spec_current_song() == Some(
            p.songs@[i as int],
        ) && p.spec_current_song_id() == Some(p.songs@[i as int].id@)) && (i >= p.songs@.len()
            ==> p.spec_current_song() is None && p.spec_current_song_id() is None),
{
}

/// While what plays elsewhere is followed, its song, its device and whether it plays
/// are shown; otherwise those of this client are.
pub proof fn law_shown_is_what_is_followed(p: PlaybackState)
    ensures
        p.is_mirroring_remote ==> (p.remote matches Some(remote) ==> {
            &&& p.spec_displayed_song() == Some(remote.song.deep_view())
            &&& p.spec_displayed_is_playing() == remote.is_playing
            &&& p.spec_displayed_device() == DeviceView::Connect(remote.device.deep_view())
        }),
        !p.is_mirroring_remote || p.remote is None ==> {
            &&& p.spec_displayed_is_playing() == p.is_playing
            &&& p.spec_displayed_device() == p.device.deep_view()
            &&& p.spec_displayed_song() is Some <==> (p.position is Some && p.position->0
                < p.songs@.len())
            &&& p.position is Some && p.position->0 < p.songs@.len() ==> p.spec_displayed_song()
                == Some(p.songs@[p.position->0 as int].deep_view())
        },
{
}

/// Starting a song by its id makes the first song with that id the current one and
/// plays it; an id that is not in the list changes nothing.
pub proof fn law_loaded_song_plays(before: PlaybackState, after: PlaybackState, id: String)
    requires
        playback_after(before, PlaybackAction::Load(id), after),
    ensures
        after.songs == before.songs,
        after.source == before.source,
        (exists|k: int| 0 <= k < before.songs@.len() && (#[trigger] before.songs@[k]).id@ == id@)
            ==> {
            &&& after.is_playing
            &&& after.spec_current_song_id() == Some(id@)
        },
        !(exists|k: int| 0 <= k < before.songs@.len() && (#[trigger] before.songs@[k]).id@ == id@)
            ==> after == before,
{
    let views = before.songs.deep_view();
    assert forall|k: int| 0 <= k < before.songs@.len() implies (#[trigger] views[k]).id
        == before.songs@[k].id@ by {
        assert(views[k] == before.songs@[k].deep_view());
    }
    if exists|k: int| 0 <= k < before.songs@.len() && (#[trigger] before.songs@[k]).id@ == id@ {
        let k = choose|k: int|
            0 <= k < before.songs@.len() && (#[trigger] before.songs@[k]).id@ == id@;
        assert(views[k].id == id@);
        song_list::law_songs_are_found_by_their_id(views, id@, k);
        let i = song_list::position_of(views, id@)->0;
        assert(before.songs.len() == before.songs@.len());
        assert(views[i].id == before.songs@[i].id@);
        assert(after.position == Some(i as usize));
    } else {
        assert forall|j: int| 0 <= j < views.len() implies (#[trigger] views[j]).id != id@ by {
            assert(views[j].id == before.songs@[j].id@);
        }
        song_list::law_other_songs_are_not_found(views, id@);
    }
}

/// Loading songs replaces those that were there, with their source, and stops; pausing
/// stops, playing starts only what is current, and shuffling turns; nothing else
/// changes.
pub proof fn law_actions_change_what_they_name(
    before: PlaybackState,
    after: PlaybackState,
    action: PlaybackAction,
)
    requires
        playback_after(before, action, after),
    ensures
        action matches PlaybackAction::LoadSongs(songs) ==> after.songs == songs
            && after.position is None && !after.is_playing && after.source is None,
        action matches PlaybackAction::LoadPagedSongs(source, batch) ==> after.songs == batch.songs
            && after.position is None && !after.is_playing && after.source == Some(source),
        action is Pause ==> after == (PlaybackState { is_playing: false, ..before }),
        action is Play ==> after.songs == before.songs && after.position == before.position
            && after.is_playing == (before.position is Some && before.position->0
            < before.songs@.len()),
        action is ToggleShuffle ==> after.is_shuffled == !before.is_shuffled && after.songs
            == before.songs && after.is_playing == before.is_playing,
        action is Next || action is Previous || action is Stop || action is TogglePlay || action
            is Seek || action is SetVolume || action is Queue || action is Dequeue || action
            is SwitchDevice ==> after == before,
{
}

/// A page is found by its own id, and it is the first with that id.
pub proof fn law_pages_are_found_by_their_id<T: Keyed>(items: Seq<T>, id: Seq<char>, k: int)
    requires
        0 <= k < items.len(),
        items[k].key() == id,
        forall|j: int| 0 <= j < k ==> (#[trigger] items[j]).key() != id,
    ensures
        found(items, id) == Some(items[k]),
{
    lemma_found_from(items, id, 0, k);
}

proof fn lemma_found_from<T: Keyed>(items: Seq<T>, id: Seq<char>, i: int, k: int)
    requires
        0 <= i <= k < items.len(),
        items[k].key() == id,
        forall|j: int| i <= j < k ==> (#[trigger] items[j]).key() != id,
    ensures
        found_from(items, id, i) == Some(items[k]),
    decreases k - i,
{
    if i < k {
        assert(items[i].key() != id);
        lemma_found_from(items, id, i + 1, k);
    }
}

/// Without a page of that id none is found.
pub proof fn law_other_pages_are_not_found<T: Keyed>(items: Seq<T>, id: Seq<char>, i: int)
    requires
        0 <= i,
        forall|j: int| 0 <= j < items.len() ==> (#[trigger] items[j]).key() != id,
    ensures
        found_from(items, id, i) is None,
    decreases items.len() - i,
{
    if i < items.len() {
        assert(items[i].key() != id);
        law_other_pages_are_not_found(items, id, i + 1);
    }
}

/// Pages and cards are told apart by their ids.
pub proof fn law_keys_are_ids(
    album: DetailsState,
    artist: ArtistState,
    playlist: PlaylistDetailsState,
    radio: RadioState,
    card: CardModel,
)
    ensures
        album.key() == album.id@,
        artist.key() == artist.id@,
        playlist.key() == playlist.id@,
        radio.key() == radio.id@,
        card.key() == card.id@,
{
}

/// A song is liked exactly if it is among the saved tracks.
pub proof fn law_liked_songs_are_saved(browser: BrowserState, id: Seq<char>)
    ensures
        browser.home is None ==> !browser.liked(id),
        browser.home matches Some(home) ==> (browser.liked(id) <==> exists|k: int|
            0 <= k < home.saved_tracks.songs@.len() && (#[trigger] home.saved_tracks.songs@[k]).id@
                == id),
{
    if let Some(home) = browser.home {
        let songs = home.saved_tracks.songs;
        let views = songs.deep_view();
        assert forall|k: int| 0 <= k < songs@.len() implies (#[trigger] views[k]).id
            == songs@[k].id@ by {
            assert(views[k] == songs@[k].deep_view());
        }
        if exists|k: int| 0 <= k < songs@.len() && (#[trigger] songs@[k]).id@ == id {
            let k = choose|k: int| 0 <= k < songs@.len() && (#[trigger] songs@[k]).id@ == id;
            assert(views[k].id == id);
            song_list::law_songs_are_found_by_their_id(views, id, k);
        } else {
            assert forall|j: int| 0 <= j < views.len() implies (#[trigger] views[j]).id != id by {
                assert(views[j].id == songs@[j].id@);
            }
            song_list::law_other_songs_are_not_found(views, id);
        }
    }
}

} // verus!

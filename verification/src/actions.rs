//! What the parts of the client tell each other: actions, calls to the web API,
//! and events.
//!
//! A model does not act itself. It leaves what is to be done with its
//! `ActionDispatcher`, in order; the program takes it from there and does it.

use vstd::prelude::*;

use crate::card_enums::{CardLayout, SortOrder};
use crate::card_model::{LibraryItem, LibraryItemView};
use crate::lists;
use crate::models::{
    AlbumDescription, AlbumDescriptionView, AlbumFullDescription, AlbumFullDescriptionView,
    ArtistDescription, ArtistDescriptionView, ArtistSummary, ArtistSummaryView, ConnectDevice,
    ConnectDeviceView, JumpBackContext, JumpBackContextView, PlaylistDescription,
    PlaylistDescriptionView, PlaylistSummary, PlaylistSummaryView, RemotePlayback,
    RemotePlaybackView, RepeatMode, SearchResults, SearchResultsView, SongBatch, SongBatchView,
    SongDescription, SongDescriptionView,
};

verus! {

/// A volume: the number that the player takes, as the bits of an IEEE double
/// between 0 and 1, and the whole percentage that remote players take.
#[derive(Clone, Copy, Debug, PartialEq, Eq, Structural)]
pub struct Volume {
    pub bits: u64,
    pub percent: u8,
}

/// Where the songs that are playing come from.
#[derive(Debug, PartialEq, Eq)]
pub enum SongsSource {
    Playlist { id: String, title: String },
    Album(String),
    Artist(String),
    SavedTracks,
    /// Songs that go with the one that the station started from.
    Radio { seed_id: String, seed_name: String },
}

/// The contents of a `SongsSource`.
pub enum SongsSourceView {
    Playlist { id: Seq<char>, title: Seq<char> },
    Album(Seq<char>),
    Artist(Seq<char>),
    SavedTracks,
    Radio { seed_id: Seq<char>, seed_name: Seq<char> },
}

impl DeepView for SongsSource {
    type V = SongsSourceView;

    open spec fn deep_view(&self) -> SongsSourceView {
        match self {
            SongsSource::Playlist { id, title } => SongsSourceView::Playlist { id: id@, title: title@ },
            SongsSource::Album(x) => SongsSourceView::Album(x@),
            SongsSource::Artist(x) => SongsSourceView::Artist(x@),
            SongsSource::SavedTracks => SongsSourceView::SavedTracks,
            SongsSource::Radio { seed_id, seed_name } => SongsSourceView::Radio { seed_id: seed_id@, seed_name: seed_name@ },
        }
    }
}

impl Clone for SongsSource {
    fn clone(&self) -> (r: Self)
        ensures
            r.deep_view() == self.deep_view(),
    {
        match self {
            SongsSource::Playlist { id, title } => SongsSource::Playlist { id: id.clone(), title: title.clone() },
            SongsSource::Album(x) => SongsSource::Album(x.clone()),
            SongsSource::Artist(x) => SongsSource::Artist(x.clone()),
            SongsSource::SavedTracks => SongsSource::SavedTracks,
            SongsSource::Radio { seed_id, seed_name } => SongsSource::Radio { seed_id: seed_id.clone(), seed_name: seed_name.clone() },
        }
    }
}

/// A screen.
#[derive(Debug, PartialEq, Eq)]
pub enum ScreenName {
    Home,
    Search,
    AlbumDetails(String),
    Artist(String),
    PlaylistDetails(String),
    User(String),
    SavedTracks,
    Settings,
    Radio { seed_id: String, seed_name: String },
}

/// The contents of a `ScreenName`.
pub enum ScreenNameView {
    Home,
    Search,
    AlbumDetails(Seq<char>),
    Artist(Seq<char>),
    PlaylistDetails(Seq<char>),
    User(Seq<char>),
    SavedTracks,
    Settings,
    Radio { seed_id: Seq<char>, seed_name: Seq<char> },
}

impl DeepView for ScreenName {
    type V = ScreenNameView;

    open spec fn deep_view(&self) -> ScreenNameView {
        match self {
            ScreenName::Home => ScreenNameView::Home,
            ScreenName::Search => ScreenNameView::Search,
            ScreenName::AlbumDetails(x) => ScreenNameView::AlbumDetails(x@),
            ScreenName::Artist(x) => ScreenNameView::Artist(x@),
            ScreenName::PlaylistDetails(x) => ScreenNameView::PlaylistDetails(x@),
            ScreenName::User(x) => ScreenNameView::User(x@),
            ScreenName::SavedTracks => ScreenNameView::SavedTracks,
            ScreenName::Settings => ScreenNameView::Settings,
            ScreenName::Radio { seed_id, seed_name } => ScreenNameView::Radio { seed_id: seed_id@, seed_name: seed_name@ },
        }
    }
}

impl Clone for ScreenName {
    fn clone(&self) -> (r: Self)
        ensures
            r.deep_view() == self.deep_view(),
    {
        match self {
            ScreenName::Home => ScreenName::Home,
            ScreenName::Search => ScreenName::Search,
            ScreenName::AlbumDetails(x) => ScreenName::AlbumDetails(x.clone()),
            ScreenName::Artist(x) => ScreenName::Artist(x.clone()),
            ScreenName::PlaylistDetails(x) => ScreenName::PlaylistDetails(x.clone()),
            ScreenName::User(x) => ScreenName::User(x.clone()),
            ScreenName::SavedTracks => ScreenName::SavedTracks,
            ScreenName::Settings => ScreenName::Settings,
            ScreenName::Radio { seed_id, seed_name } => ScreenName::Radio { seed_id: seed_id.clone(), seed_name: seed_name.clone() },
        }
    }
}

/// A list that is read page by page.
#[derive(Debug, PartialEq, Eq)]
pub enum PaginationTarget {
    SavedAlbums,
    SavedPlaylists,
    SavedArtists,
    SavedTracks,
    AlbumTracks(String),
    PlaylistTracks(String),
    ArtistReleases(String),
}

/// The contents of a `PaginationTarget`.
pub enum PaginationTargetView {
    SavedAlbums,
    SavedPlaylists,
    SavedArtists,
    SavedTracks,
    AlbumTracks(Seq<char>),
    PlaylistTracks(Seq<char>),
    ArtistReleases(Seq<char>),
}

impl DeepView for PaginationTarget {
    type V = PaginationTargetView;

    open spec fn deep_view(&self) -> PaginationTargetView {
        match self {
            PaginationTarget::SavedAlbums => PaginationTargetView::SavedAlbums,
            PaginationTarget::SavedPlaylists => PaginationTargetView::SavedPlaylists,
            PaginationTarget::SavedArtists => PaginationTargetView::SavedArtists,
            PaginationTarget::SavedTracks => PaginationTargetView::SavedTracks,
            PaginationTarget::AlbumTracks(x) => PaginationTargetView::AlbumTracks(x@),
            PaginationTarget::PlaylistTracks(x) => PaginationTargetView::PlaylistTracks(x@),
            PaginationTarget::ArtistReleases(x) => PaginationTargetView::ArtistReleases(x@),
        }
    }
}

impl Clone for PaginationTarget {
    fn clone(&self) -> (r: Self)
        ensures
            r.deep_view() == self.deep_view(),
    {
        match self {
            PaginationTarget::SavedAlbums => PaginationTarget::SavedAlbums,
            PaginationTarget::SavedPlaylists => PaginationTarget::SavedPlaylists,
            PaginationTarget::SavedArtists => PaginationTarget::SavedArtists,
            PaginationTarget::SavedTracks => PaginationTarget::SavedTracks,
            PaginationTarget::AlbumTracks(x) => PaginationTarget::AlbumTracks(x.clone()),
            PaginationTarget::PlaylistTracks(x) => PaginationTarget::PlaylistTracks(x.clone()),
            PaginationTarget::ArtistReleases(x) => PaginationTarget::ArtistReleases(x.clone()),
        }
    }
}

/// Where songs are selected, which decides what can be done with them.
#[derive(Debug, PartialEq, Eq)]
pub enum SelectionContext {
    Default,
    SavedTracks,
    Playlist,
    EditablePlaylist(String),
}

/// The contents of a `SelectionContext`.
pub enum SelectionContextView {
    Default,
    SavedTracks,
    Playlist,
    EditablePlaylist(Seq<char>),
}

impl DeepView for SelectionContext {
    type V = SelectionContextView;

    open spec fn deep_view(&self) -> SelectionContextView {
        match self {
            SelectionContext::Default => SelectionContextView::Default,
            SelectionContext::SavedTracks => SelectionContextView::SavedTracks,
            SelectionContext::Playlist => SelectionContextView::Playlist,
            SelectionContext::EditablePlaylist(x) => SelectionContextView::EditablePlaylist(x@),
        }
    }
}

impl Clone for SelectionContext {
    fn clone(&self) -> (r: Self)
        ensures
            r.deep_view() == self.deep_view(),
    {
        match self {
            SelectionContext::Default => SelectionContext::Default,
            SelectionContext::SavedTracks => SelectionContext::SavedTracks,
            SelectionContext::Playlist => SelectionContext::Playlist,
            SelectionContext::EditablePlaylist(x) => SelectionContext::EditablePlaylist(x.clone()),
        }
    }
}

/// What plays.
#[derive(Debug, PartialEq, Eq)]
pub enum Device {
    Local,
    Connect(ConnectDevice),
}

/// The contents of a `Device`.
pub enum DeviceView {
    Local,
    Connect(ConnectDeviceView),
}

impl DeepView for Device {
    type V = DeviceView;

    open spec fn deep_view(&self) -> DeviceView {
        match self {
            Device::Local => DeviceView::Local,
            Device::Connect(x) => DeviceView::Connect(x.deep_view()),
        }
    }
}

impl Clone for Device {
    fn clone(&self) -> (r: Self)
        ensures
            r.deep_view() == self.deep_view(),
    {
        match self {
            Device::Local => Device::Local,
            Device::Connect(x) => Device::Connect(x.clone()),
        }
    }
}

/// Something to be done to what is playing.
#[derive(Debug, PartialEq, Eq)]
pub enum PlaybackAction {
    TogglePlay,
    Play,
    Pause,
    Stop,
    Next,
    Previous,
    ToggleShuffle,
    ToggleRepeat,
    Seek(u32),
    SetVolume(Volume),
    /// Start the song with this id.
    Load(String),
    /// Play these songs.
    LoadSongs(Vec<SongDescription>),
    /// Play the songs of this source, beginning with these.
    LoadPagedSongs(SongsSource, SongBatch),
    Queue(Vec<SongDescription>),
    Dequeue(String),
    MoveInQueue { id: String, to: usize },
    SwitchDevice(Device),
    SetAvailableDevices(Vec<ConnectDevice>),
    SetRemotePlayback(Option<RemotePlayback>),
}

/// The contents of a `PlaybackAction`.
pub enum PlaybackActionView {
    TogglePlay,
    Play,
    Pause,
    Stop,
    Next,
    Previous,
    ToggleShuffle,
    ToggleRepeat,
    Seek(u32),
    SetVolume(Volume),
    Load(Seq<char>),
    LoadSongs(Seq<SongDescriptionView>),
    LoadPagedSongs(SongsSourceView, SongBatchView),
    Queue(Seq<SongDescriptionView>),
    Dequeue(Seq<char>),
    MoveInQueue { id: Seq<char>, to: usize },
    SwitchDevice(DeviceView),
    SetAvailableDevices(Seq<ConnectDeviceView>),
    SetRemotePlayback(Option<RemotePlaybackView>),
}

impl DeepView for PlaybackAction {
    type V = PlaybackActionView;

    open spec fn deep_view(&self) -> PlaybackActionView {
        match self {
            PlaybackAction::TogglePlay => PlaybackActionView::TogglePlay,
            PlaybackAction::Play => PlaybackActionView::Play,
            PlaybackAction::Pause => PlaybackActionView::Pause,
            PlaybackAction::Stop => PlaybackActionView::Stop,
            PlaybackAction::Next => PlaybackActionView::Next,
            PlaybackAction::Previous => PlaybackActionView::Previous,
            PlaybackAction::ToggleShuffle => PlaybackActionView::ToggleShuffle,
            PlaybackAction::ToggleRepeat => PlaybackActionView::ToggleRepeat,
            PlaybackAction::Seek(x) => PlaybackActionView::Seek(*x),
            PlaybackAction::SetVolume(x) => PlaybackActionView::SetVolume(*x),
            PlaybackAction::Load(x) => PlaybackActionView::Load(x@),
            PlaybackAction::LoadSongs(x) => PlaybackActionView::LoadSongs(x.deep_view()),
            PlaybackAction::LoadPagedSongs(x0, x1) => PlaybackActionView::LoadPagedSongs(x0.deep_view(), x1.deep_view()),
            PlaybackAction::Queue(x) => PlaybackActionView::Queue(x.deep_view()),
            PlaybackAction::Dequeue(x) => PlaybackActionView::Dequeue(x@),
            PlaybackAction::MoveInQueue { id, to } => PlaybackActionView::MoveInQueue { id: id@, to: *to },
            PlaybackAction::SwitchDevice(x) => PlaybackActionView::SwitchDevice(x.deep_view()),
            PlaybackAction::SetAvailableDevices(x) => PlaybackActionView::SetAvailableDevices(x.deep_view()),
            PlaybackAction::SetRemotePlayback(x) => PlaybackActionView::SetRemotePlayback(x.deep_view()),
        }
    }
}

impl Clone for PlaybackAction {
    fn clone(&self) -> (r: Self)
        ensures
            r.deep_view() == self.deep_view(),
    {
        match self {
            PlaybackAction::TogglePlay => PlaybackAction::TogglePlay,
            PlaybackAction::Play => PlaybackAction::Play,
            PlaybackAction::Pause => PlaybackAction::Pause,
            PlaybackAction::Stop => PlaybackAction::Stop,
            PlaybackAction::Next => PlaybackAction::Next,
            PlaybackAction::Previous => PlaybackAction::Previous,
            PlaybackAction::ToggleShuffle => PlaybackAction::ToggleShuffle,
            PlaybackAction::ToggleRepeat => PlaybackAction::ToggleRepeat,
            PlaybackAction::Seek(x) => PlaybackAction::Seek(*x),
            PlaybackAction::SetVolume(x) => PlaybackAction::SetVolume(*x),
            PlaybackAction::Load(x) => PlaybackAction::Load(x.clone()),
            PlaybackAction::LoadSongs(x) => PlaybackAction::LoadSongs(x.clone()),
            PlaybackAction::LoadPagedSongs(x0, x1) => PlaybackAction::LoadPagedSongs(x0.clone(), x1.clone()),
            PlaybackAction::Queue(x) => PlaybackAction::Queue(x.clone()),
            PlaybackAction::Dequeue(x) => PlaybackAction::Dequeue(x.clone()),
            PlaybackAction::MoveInQueue { id, to } => PlaybackAction::MoveInQueue { id: id.clone(), to: *to },
            PlaybackAction::SwitchDevice(x) => PlaybackAction::SwitchDevice(x.clone()),
            PlaybackAction::SetAvailableDevices(x) => PlaybackAction::SetAvailableDevices(x.clone()),
            PlaybackAction::SetRemotePlayback(x) => PlaybackAction::SetRemotePlayback(x.clone()),
        }
    }
}

/// Something to be done to what is shown.
#[derive(Debug, PartialEq, Eq)]
pub enum BrowserAction {
    NavigationPop,
    NavigationPush(ScreenName),
    NavigationPopTo(ScreenName),
    Search(String),
    SetSearchResults(SearchResults),
    PlaySong(String),
    SaveTracks(Vec<SongDescription>),
    RemoveSavedTracks(Vec<String>),
    SaveAlbum(AlbumDescription),
    UnsaveAlbum(String),
    SavePlaylist(String),
    UnsavePlaylist(String),
    FollowArtist(String),
    UnfollowArtist(String),
    SetAlbumDetails(AlbumFullDescription),
    SetArtistDetails(ArtistDescription),
    SetPlaylistDetails(PlaylistDescription, SongBatch),
    SetSavedTracks(SongBatch),
    AppendSavedTracks(SongBatch),
    AppendAlbumTracks(String, SongBatch),
    AppendPlaylistTracks(String, SongBatch),
    AppendArtistReleases(String, Vec<AlbumDescription>),
    SetLibraryContent(Vec<AlbumDescription>),
    AppendLibraryContent(Vec<AlbumDescription>),
    SetPlaylistsContent(Vec<PlaylistDescription>),
    AppendPlaylistsContent(Vec<PlaylistDescription>),
    SetSavedArtists(Vec<ArtistSummary>, Option<String>),
    AppendSavedArtists(Vec<ArtistSummary>, Option<String>),
    SetRecentlyPlayed(Vec<SongDescription>, Vec<JumpBackContext>),
    SetTopArtists(Vec<ArtistSummary>),
    SetTopTracks(Vec<SongDescription>),
    SetMadeForYou(String, Vec<AlbumDescription>),
    /// The next page of the list has been asked for.
    ConsumeNextPage(PaginationTarget),
    ChangeSortOrder(String, SortOrder),
    ChangeCardLayout(CardLayout),
}

/// The contents of a `BrowserAction`.
pub enum BrowserActionView {
    NavigationPop,
    NavigationPush(ScreenNameView),
    NavigationPopTo(ScreenNameView),
    Search(Seq<char>),
    SetSearchResults(SearchResultsView),
    PlaySong(Seq<char>),
    SaveTracks(Seq<SongDescriptionView>),
    RemoveSavedTracks(Seq<Seq<char>>),
    SaveAlbum(AlbumDescriptionView),
    UnsaveAlbum(Seq<char>),
    SavePlaylist(Seq<char>),
    UnsavePlaylist(Seq<char>),
    FollowArtist(Seq<char>),
    UnfollowArtist(Seq<char>),
    SetAlbumDetails(AlbumFullDescriptionView),
    SetArtistDetails(ArtistDescriptionView),
    SetPlaylistDetails(PlaylistDescriptionView, SongBatchView),
    SetSavedTracks(SongBatchView),
    AppendSavedTracks(SongBatchView),
    AppendAlbumTracks(Seq<char>, SongBatchView),
    AppendPlaylistTracks(Seq<char>, SongBatchView),
    AppendArtistReleases(Seq<char>, Seq<AlbumDescriptionView>),
    SetLibraryContent(Seq<AlbumDescriptionView>),
    AppendLibraryContent(Seq<AlbumDescriptionView>),
    SetPlaylistsContent(Seq<PlaylistDescriptionView>),
    AppendPlaylistsContent(Seq<PlaylistDescriptionView>),
    SetSavedArtists(Seq<ArtistSummaryView>, Option<Seq<char>>),
    AppendSavedArtists(Seq<ArtistSummaryView>, Option<Seq<char>>),
    SetRecentlyPlayed(Seq<SongDescriptionView>, Seq<JumpBackContextView>),
    SetTopArtists(Seq<ArtistSummaryView>),
    SetTopTracks(Seq<SongDescriptionView>),
    SetMadeForYou(Seq<char>, Seq<AlbumDescriptionView>),
    ConsumeNextPage(PaginationTargetView),
    ChangeSortOrder(Seq<char>, SortOrder),
    ChangeCardLayout(CardLayout),
}

impl DeepView for BrowserAction {
    type V = BrowserActionView;

    open spec fn deep_view(&self) -> BrowserActionView {
        match self {
            BrowserAction::NavigationPop => BrowserActionView::NavigationPop,
            BrowserAction::NavigationPush(x) => BrowserActionView::NavigationPush(x.deep_view()),
            BrowserAction::NavigationPopTo(x) => BrowserActionView::NavigationPopTo(x.deep_view()),
            BrowserAction::Search(x) => BrowserActionView::Search(x@),
            BrowserAction::SetSearchResults(x) => BrowserActionView::SetSearchResults(x.deep_view()),
            BrowserAction::PlaySong(x) => BrowserActionView::PlaySong(x@),
            BrowserAction::SaveTracks(x) => BrowserActionView::SaveTracks(x.deep_view()),
            BrowserAction::RemoveSavedTracks(x) => BrowserActionView::RemoveSavedTracks(x.deep_view()),
            BrowserAction::SaveAlbum(x) => BrowserActionView::SaveAlbum(x.deep_view()),
            BrowserAction::UnsaveAlbum(x) => BrowserActionView::UnsaveAlbum(x@),
            BrowserAction::SavePlaylist(x) => BrowserActionView::SavePlaylist(x@),
            BrowserAction::UnsavePlaylist(x) => BrowserActionView::UnsavePlaylist(x@),
            BrowserAction::FollowArtist(x) => BrowserActionView::FollowArtist(x@),
            BrowserAction::UnfollowArtist(x) => BrowserActionView::UnfollowArtist(x@),
            BrowserAction::SetAlbumDetails(x) => BrowserActionView::SetAlbumDetails(x.deep_view()),
            BrowserAction::SetArtistDetails(x) => BrowserActionView::SetArtistDetails(x.deep_view()),
            BrowserAction::SetPlaylistDetails(x0, x1) => BrowserActionView::SetPlaylistDetails(x0.deep_view(), x1.deep_view()),
            BrowserAction::SetSavedTracks(x) => BrowserActionView::SetSavedTracks(x.deep_view()),
            BrowserAction::AppendSavedTracks(x) => BrowserActionView::AppendSavedTracks(x.deep_view()),
            BrowserAction::AppendAlbumTracks(x0, x1) => BrowserActionView::AppendAlbumTracks(x0@, x1.deep_view()),
            BrowserAction::AppendPlaylistTracks(x0, x1) => BrowserActionView::AppendPlaylistTracks(x0@, x1.deep_view()),
            BrowserAction::AppendArtistReleases(x0, x1) => BrowserActionView::AppendArtistReleases(x0@, x1.deep_view()),
            BrowserAction::SetLibraryContent(x) => BrowserActionView::SetLibraryContent(x.deep_view()),
            BrowserAction::AppendLibraryContent(x) => BrowserActionView::AppendLibraryContent(x.deep_view()),
            BrowserAction::SetPlaylistsContent(x) => BrowserActionView::SetPlaylistsContent(x.deep_view()),
            BrowserAction::AppendPlaylistsContent(x) => BrowserActionView::AppendPlaylistsContent(x.deep_view()),
            BrowserAction::SetSavedArtists(x0, x1) => BrowserActionView::SetSavedArtists(x0.deep_view(), x1.deep_view()),
            BrowserAction::AppendSavedArtists(x0, x1) => BrowserActionView::AppendSavedArtists(x0.deep_view(), x1.deep_view()),
            BrowserAction::SetRecentlyPlayed(x0, x1) => BrowserActionView::SetRecentlyPlayed(x0.deep_view(), x1.deep_view()),
            BrowserAction::SetTopArtists(x) => BrowserActionView::SetTopArtists(x.deep_view()),
            BrowserAction::SetTopTracks(x) => BrowserActionView::SetTopTracks(x.deep_view()),
            BrowserAction::SetMadeForYou(x0, x1) => BrowserActionView::SetMadeForYou(x0@, x1.deep_view()),
            BrowserAction::ConsumeNextPage(x) => BrowserActionView::ConsumeNextPage(x.deep_view()),
            BrowserAction::ChangeSortOrder(x0, x1) => BrowserActionView::ChangeSortOrder(x0@, *x1),
            BrowserAction::ChangeCardLayout(x) => BrowserActionView::ChangeCardLayout(*x),
        }
    }
}

impl Clone for BrowserAction {
    fn clone(&self) -> (r: Self)
        ensures
            r.deep_view() == self.deep_view(),
    {
        match self {
            BrowserAction::NavigationPop => BrowserAction::NavigationPop,
            BrowserAction::NavigationPush(x) => BrowserAction::NavigationPush(x.clone()),
            BrowserAction::NavigationPopTo(x) => BrowserAction::NavigationPopTo(x.clone()),
            BrowserAction::Search(x) => BrowserAction::Search(x.clone()),
            BrowserAction::SetSearchResults(x) => BrowserAction::SetSearchResults(x.clone()),
            BrowserAction::PlaySong(x) => BrowserAction::PlaySong(x.clone()),
            BrowserAction::SaveTracks(x) => BrowserAction::SaveTracks(x.clone()),
            BrowserAction::RemoveSavedTracks(x) => BrowserAction::RemoveSavedTracks(x.clone()),
            BrowserAction::SaveAlbum(x) => BrowserAction::SaveAlbum(x.clone()),
            BrowserAction::UnsaveAlbum(x) => BrowserAction::UnsaveAlbum(x.clone()),
            BrowserAction::SavePlaylist(x) => BrowserAction::SavePlaylist(x.clone()),
            BrowserAction::UnsavePlaylist(x) => BrowserAction::UnsavePlaylist(x.clone()),
            BrowserAction::FollowArtist(x) => BrowserAction::FollowArtist(x.clone()),
            BrowserAction::UnfollowArtist(x) => BrowserAction::UnfollowArtist(x.clone()),
            BrowserAction::SetAlbumDetails(x) => BrowserAction::SetAlbumDetails(x.clone()),
            BrowserAction::SetArtistDetails(x) => BrowserAction::SetArtistDetails(x.clone()),
            BrowserAction::SetPlaylistDetails(x0, x1) => BrowserAction::SetPlaylistDetails(x0.clone(), x1.clone()),
            BrowserAction::SetSavedTracks(x) => BrowserAction::SetSavedTracks(x.clone()),
            BrowserAction::AppendSavedTracks(x) => BrowserAction::AppendSavedTracks(x.clone()),
            BrowserAction::AppendAlbumTracks(x0, x1) => BrowserAction::AppendAlbumTracks(x0.clone(), x1.clone()),
            BrowserAction::AppendPlaylistTracks(x0, x1) => BrowserAction::AppendPlaylistTracks(x0.clone(), x1.clone()),
            BrowserAction::AppendArtistReleases(x0, x1) => BrowserAction::AppendArtistReleases(x0.clone(), x1.clone()),
            BrowserAction::SetLibraryContent(x) => BrowserAction::SetLibraryContent(x.clone()),
            BrowserAction::AppendLibraryContent(x) => BrowserAction::AppendLibraryContent(x.clone()),
            BrowserAction::SetPlaylistsContent(x) => BrowserAction::SetPlaylistsContent(x.clone()),
            BrowserAction::AppendPlaylistsContent(x) => BrowserAction::AppendPlaylistsContent(x.clone()),
            BrowserAction::SetSavedArtists(x0, x1) => BrowserAction::SetSavedArtists(x0.clone(), x1.clone()),
            BrowserAction::AppendSavedArtists(x0, x1) => BrowserAction::AppendSavedArtists(x0.clone(), x1.clone()),
            BrowserAction::SetRecentlyPlayed(x0, x1) => BrowserAction::SetRecentlyPlayed(x0.clone(), x1.clone()),
            BrowserAction::SetTopArtists(x) => BrowserAction::SetTopArtists(x.clone()),
            BrowserAction::SetTopTracks(x) => BrowserAction::SetTopTracks(x.clone()),
            BrowserAction::SetMadeForYou(x0, x1) => BrowserAction::SetMadeForYou(x0.clone(), x1.clone()),
            BrowserAction::ConsumeNextPage(x) => BrowserAction::ConsumeNextPage(x.clone()),
            BrowserAction::ChangeSortOrder(x0, x1) => BrowserAction::ChangeSortOrder(x0.clone(), *x1),
            BrowserAction::ChangeCardLayout(x) => BrowserAction::ChangeCardLayout(*x),
        }
    }
}

/// Something to be done to the selection.
#[derive(Debug, PartialEq, Eq)]
pub enum SelectionAction {
    Select(Vec<SongDescription>),
    Deselect(Vec<String>),
}

/// The contents of a `SelectionAction`.
pub enum SelectionActionView {
    Select(Seq<SongDescriptionView>),
    Deselect(Seq<Seq<char>>),
}

impl DeepView for SelectionAction {
    type V = SelectionActionView;

    open spec fn deep_view(&self) -> SelectionActionView {
        match self {
            SelectionAction::Select(x) => SelectionActionView::Select(x.deep_view()),
            SelectionAction::Deselect(x) => SelectionActionView::Deselect(x.deep_view()),
        }
    }
}

impl Clone for SelectionAction {
    fn clone(&self) -> (r: Self)
        ensures
            r.deep_view() == self.deep_view(),
    {
        match self {
            SelectionAction::Select(x) => SelectionAction::Select(x.clone()),
            SelectionAction::Deselect(x) => SelectionAction::Deselect(x.clone()),
        }
    }
}

/// Something to be done to the login.
#[derive(Debug, PartialEq, Eq)]
pub enum LoginAction {
    SetUserPlaylists(Vec<PlaylistSummary>),
    SetUserDetails { display_name: String, image_url: Option<String> },
    SetLoginFailure,
    Logout,
}

/// The contents of a `LoginAction`.
pub enum LoginActionView {
    SetUserPlaylists(Seq<PlaylistSummaryView>),
    SetUserDetails { display_name: Seq<char>, image_url: Option<Seq<char>> },
    SetLoginFailure,
    Logout,
}

impl DeepView for LoginAction {
    type V = LoginActionView;

    open spec fn deep_view(&self) -> LoginActionView {
        match self {
            LoginAction::SetUserPlaylists(x) => LoginActionView::SetUserPlaylists(x.deep_view()),
            LoginAction::SetUserDetails { display_name, image_url } => LoginActionView::SetUserDetails { display_name: display_name@, image_url: image_url.deep_view() },
            LoginAction::SetLoginFailure => LoginActionView::SetLoginFailure,
            LoginAction::Logout => LoginActionView::Logout,
        }
    }
}

impl Clone for LoginAction {
    fn clone(&self) -> (r: Self)
        ensures
            r.deep_view() == self.deep_view(),
    {
        match self {
            LoginAction::SetUserPlaylists(x) => LoginAction::SetUserPlaylists(x.clone()),
            LoginAction::SetUserDetails { display_name, image_url } => LoginAction::SetUserDetails { display_name: display_name.clone(), image_url: image_url.clone() },
            LoginAction::SetLoginFailure => LoginAction::SetLoginFailure,
            LoginAction::Logout => LoginAction::Logout,
        }
    }
}

/// Something to be done.
#[derive(Debug, PartialEq, Eq)]
pub enum AppAction {
    Start,
    ViewAlbum(String),
    ViewArtist(String),
    ViewPlaylist(String),
    ViewUser(String),
    ShowSongMenu(SongDescription),
    ShowAddToPlaylist(SongDescription),
    ShowLibraryItemMenu(LibraryItem),
    ShowNowPlayingSheet,
    ShowNotification(String),
    EnableSelection(SelectionContext),
    CreatePlaylist(PlaylistDescription),
    UpdatePlaylistName(PlaylistSummary),
    LibraryPinsChanged,
    RepollRemoteMirror,
    PlaybackAction(PlaybackAction),
    BrowserAction(BrowserAction),
    SelectionAction(SelectionAction),
    LoginAction(LoginAction),
}

/// The contents of an `AppAction`.
pub enum AppActionView {
    Start,
    ViewAlbum(Seq<char>),
    ViewArtist(Seq<char>),
    ViewPlaylist(Seq<char>),
    ViewUser(Seq<char>),
    ShowSongMenu(SongDescriptionView),
    ShowAddToPlaylist(SongDescriptionView),
    ShowLibraryItemMenu(LibraryItemView),
    ShowNowPlayingSheet,
    ShowNotification(Seq<char>),
    EnableSelection(SelectionContextView),
    CreatePlaylist(PlaylistDescriptionView),
    UpdatePlaylistName(PlaylistSummaryView),
    LibraryPinsChanged,
    RepollRemoteMirror,
    PlaybackAction(PlaybackActionView),
    BrowserAction(BrowserActionView),
    SelectionAction(SelectionActionView),
    LoginAction(LoginActionView),
}

impl DeepView for AppAction {
    type V = AppActionView;

    open spec fn deep_view(&self) -> AppActionView {
        match self {
            AppAction::Start => AppActionView::Start,
            AppAction::ViewAlbum(x) => AppActionView::ViewAlbum(x@),
            AppAction::ViewArtist(x) => AppActionView::ViewArtist(x@),
            AppAction::ViewPlaylist(x) => AppActionView::ViewPlaylist(x@),
            AppAction::ViewUser(x) => AppActionView::ViewUser(x@),
            AppAction::ShowSongMenu(x) => AppActionView::ShowSongMenu(x.deep_view()),
            AppAction::ShowAddToPlaylist(x) => AppActionView::ShowAddToPlaylist(x.deep_view()),
            AppAction::ShowLibraryItemMenu(x) => AppActionView::ShowLibraryItemMenu(x.deep_view()),
            AppAction::ShowNowPlayingSheet => AppActionView::ShowNowPlayingSheet,
            AppAction::ShowNotification(x) => AppActionView::ShowNotification(x@),
            AppAction::EnableSelection(x) => AppActionView::EnableSelection(x.deep_view()),
            AppAction::CreatePlaylist(x) => AppActionView::CreatePlaylist(x.deep_view()),
            AppAction::UpdatePlaylistName(x) => AppActionView::UpdatePlaylistName(x.deep_view()),
            AppAction::LibraryPinsChanged => AppActionView::LibraryPinsChanged,
            AppAction::RepollRemoteMirror => AppActionView::RepollRemoteMirror,
            AppAction::PlaybackAction(x) => AppActionView::PlaybackAction(x.deep_view()),
            AppAction::BrowserAction(x) => AppActionView::BrowserAction(x.deep_view()),
            AppAction::SelectionAction(x) => AppActionView::SelectionAction(x.deep_view()),
            AppAction::LoginAction(x) => AppActionView::LoginAction(x.deep_view()),
        }
    }
}

impl Clone for AppAction {
    fn clone(&self) -> (r: Self)
        ensures
            r.deep_view() == self.deep_view(),
    {
        match self {
            AppAction::Start => AppAction::Start,
            AppAction::ViewAlbum(x) => AppAction::ViewAlbum(x.clone()),
            AppAction::ViewArtist(x) => AppAction::ViewArtist(x.clone()),
            AppAction::ViewPlaylist(x) => AppAction::ViewPlaylist(x.clone()),
            AppAction::ViewUser(x) => AppAction::ViewUser(x.clone()),
            AppAction::ShowSongMenu(x) => AppAction::ShowSongMenu(x.clone()),
            AppAction::ShowAddToPlaylist(x) => AppAction::ShowAddToPlaylist(x.clone()),
            AppAction::ShowLibraryItemMenu(x) => AppAction::ShowLibraryItemMenu(x.clone()),
            AppAction::ShowNowPlayingSheet => AppAction::ShowNowPlayingSheet,
            AppAction::ShowNotification(x) => AppAction::ShowNotification(x.clone()),
            AppAction::EnableSelection(x) => AppAction::EnableSelection(x.clone()),
            AppAction::CreatePlaylist(x) => AppAction::CreatePlaylist(x.clone()),
            AppAction::UpdatePlaylistName(x) => AppAction::UpdatePlaylistName(x.clone()),
            AppAction::LibraryPinsChanged => AppAction::LibraryPinsChanged,
            AppAction::RepollRemoteMirror => AppAction::RepollRemoteMirror,
            AppAction::PlaybackAction(x) => AppAction::PlaybackAction(x.clone()),
            AppAction::BrowserAction(x) => AppAction::BrowserAction(x.clone()),
            AppAction::SelectionAction(x) => AppAction::SelectionAction(x.clone()),
            AppAction::LoginAction(x) => AppAction::LoginAction(x.clone()),
        }
    }
}

/// A call to the web API that is to be made. What follows from its answer is
/// said by the function of the model that asked for it.
#[derive(Debug, PartialEq, Eq)]
pub enum ApiCall {
    GetAlbum(String),
    GetArtist(String),
    GetPlaylist(String),
    GetPlaylistAndTracks { id: String, offset: usize, limit: usize },
    GetAlbumTracks { id: String, offset: usize, limit: usize },
    GetPlaylistTracks { id: String, offset: usize, limit: usize },
    GetArtistAlbums { id: String, offset: usize, limit: usize },
    GetSavedTracks { offset: usize, limit: usize },
    GetSavedAlbums { offset: usize, limit: usize },
    GetSavedPlaylists { offset: usize, limit: usize },
    GetFollowedArtists { after: Option<String>, limit: usize },
    /// Read saved tracks through the batch loader.
    LoadSavedTracks { offset: usize, limit: usize },
    /// Save the songs, by their ids.
    SaveTracks(Vec<SongDescription>),
    RemoveSavedTracks(Vec<String>),
    SaveAlbum(String),
    RemoveSavedAlbum(String),
    FollowArtist(String),
    UnfollowArtist(String),
    FollowPlaylist(String),
    UnfollowPlaylist(String),
    UpdatePlaylistDetails { id: String, name: String },
    CreatePlaylist { name: String, user_id: String },
    AddToPlaylist { id: String, uris: Vec<String> },
    RemoveFromPlaylist { id: String, uris: Vec<String> },
    Search { query: String, offset: usize, limit: usize },
    RecentlyPlayed(usize),
    GetTopArtists(usize),
    /// Read the top artists, of whom the first is followed by a shelf of the feed.
    GetSeedArtists(usize),
    GetTopTracks(usize),
    GetCurrentUser,
    ListAvailableDevices,
    PlayerPause(String),
    PlayerResume(String),
    PlayerNext(String),
    PlayerPrevious(String),
    PlayerSeek { device_id: String, position: usize },
    PlayerVolume { device_id: String, percent: u8 },
    PlayerTransfer { device_id: String, play: bool },
    PlayerPlayContext { device_id: String, context_uri: Option<String>, track_uris: Option<Vec<String>>, offset: usize },
    ClearUserCache,
}

/// The contents of an `ApiCall`.
pub enum ApiCallView {
    GetAlbum(Seq<char>),
    GetArtist(Seq<char>),
    GetPlaylist(Seq<char>),
    GetPlaylistAndTracks { id: Seq<char>, offset: usize, limit: usize },
    GetAlbumTracks { id: Seq<char>, offset: usize, limit: usize },
    GetPlaylistTracks { id: Seq<char>, offset: usize, limit: usize },
    GetArtistAlbums { id: Seq<char>, offset: usize, limit: usize },
    GetSavedTracks { offset: usize, limit: usize },
    GetSavedAlbums { offset: usize, limit: usize },
    GetSavedPlaylists { offset: usize, limit: usize },
    GetFollowedArtists { after: Option<Seq<char>>, limit: usize },
    LoadSavedTracks { offset: usize, limit: usize },
    SaveTracks(Seq<SongDescriptionView>),
    RemoveSavedTracks(Seq<Seq<char>>),
    SaveAlbum(Seq<char>),
    RemoveSavedAlbum(Seq<char>),
    FollowArtist(Seq<char>),
    UnfollowArtist(Seq<char>),
    FollowPlaylist(Seq<char>),
    UnfollowPlaylist(Seq<char>),
    UpdatePlaylistDetails { id: Seq<char>, name: Seq<char> },
    CreatePlaylist { name: Seq<char>, user_id: Seq<char> },
    AddToPlaylist { id: Seq<char>, uris: Seq<Seq<char>> },
    RemoveFromPlaylist { id: Seq<char>, uris: Seq<Seq<char>> },
    Search { query: Seq<char>, offset: usize, limit: usize },
    RecentlyPlayed(usize),
    GetTopArtists(usize),
    GetSeedArtists(usize),
    GetTopTracks(usize),
    GetCurrentUser,
    ListAvailableDevices,
    PlayerPause(Seq<char>),
    PlayerResume(Seq<char>),
    PlayerNext(Seq<char>),
    PlayerPrevious(Seq<char>),
    PlayerSeek { device_id: Seq<char>, position: usize },
    PlayerVolume { device_id: Seq<char>, percent: u8 },
    PlayerTransfer { device_id: Seq<char>, play: bool },
    PlayerPlayContext { device_id: Seq<char>, context_uri: Option<Seq<char>>, track_uris: Option<Seq<Seq<char>>>, offset: usize },
    ClearUserCache,
}

impl DeepView for ApiCall {
    type V = ApiCallView;

    open spec fn deep_view(&self) -> ApiCallView {
        match self {
            ApiCall::GetAlbum(x) => ApiCallView::GetAlbum(x@),
            ApiCall::GetArtist(x) => ApiCallView::GetArtist(x@),
            ApiCall::GetPlaylist(x) => ApiCallView::GetPlaylist(x@),
            ApiCall::GetPlaylistAndTracks { id, offset, limit } => ApiCallView::GetPlaylistAndTracks { id: id@, offset: *offset, limit: *limit },
            ApiCall::GetAlbumTracks { id, offset, limit } => ApiCallView::GetAlbumTracks { id: id@, offset: *offset, limit: *limit },
            ApiCall::GetPlaylistTracks { id, offset, limit } => ApiCallView::GetPlaylistTracks { id: id@, offset: *offset, limit: *limit },
            ApiCall::GetArtistAlbums { id, offset, limit } => ApiCallView::GetArtistAlbums { id: id@, offset: *offset, limit: *limit },
            ApiCall::GetSavedTracks { offset, limit } => ApiCallView::GetSavedTracks { offset: *offset, limit: *limit },
            ApiCall::GetSavedAlbums { offset, limit } => ApiCallView::GetSavedAlbums { offset: *offset, limit: *limit },
            ApiCall::GetSavedPlaylists { offset, limit } => ApiCallView::GetSavedPlaylists { offset: *offset, limit: *limit },
            ApiCall::GetFollowedArtists { after, limit } => ApiCallView::GetFollowedArtists { after: after.deep_view(), limit: *limit },
            ApiCall::LoadSavedTracks { offset, limit } => ApiCallView::LoadSavedTracks { offset: *offset, limit: *limit },
            ApiCall::SaveTracks(x) => ApiCallView::SaveTracks(x.deep_view()),
            ApiCall::RemoveSavedTracks(x) => ApiCallView::RemoveSavedTracks(x.deep_view()),
            ApiCall::SaveAlbum(x) => ApiCallView::SaveAlbum(x@),
            ApiCall::RemoveSavedAlbum(x) => ApiCallView::RemoveSavedAlbum(x@),
            ApiCall::FollowArtist(x) => ApiCallView::FollowArtist(x@),
            ApiCall::UnfollowArtist(x) => ApiCallView::UnfollowArtist(x@),
            ApiCall::FollowPlaylist(x) => ApiCallView::FollowPlaylist(x@),
            ApiCall::UnfollowPlaylist(x) => ApiCallView::UnfollowPlaylist(x@),
            ApiCall::UpdatePlaylistDetails { id, name } => ApiCallView::UpdatePlaylistDetails { id: id@, name: name@ },
            ApiCall::CreatePlaylist { name, user_id } => ApiCallView::CreatePlaylist { name: name@, user_id: user_id@ },
            ApiCall::AddToPlaylist { id, uris } => ApiCallView::AddToPlaylist { id: id@, uris: uris.deep_view() },
            ApiCall::RemoveFromPlaylist { id, uris } => ApiCallView::RemoveFromPlaylist { id: id@, uris: uris.deep_view() },
            ApiCall::Search { query, offset, limit } => ApiCallView::Search { query: query@, offset: *offset, limit: *limit },
            ApiCall::RecentlyPlayed(x) => ApiCallView::RecentlyPlayed(*x),
            ApiCall::GetTopArtists(x) => ApiCallView::GetTopArtists(*x),
            ApiCall::GetSeedArtists(x) => ApiCallView::GetSeedArtists(*x),
            ApiCall::GetTopTracks(x) => ApiCallView::GetTopTracks(*x),
            ApiCall::GetCurrentUser => ApiCallView::GetCurrentUser,
            ApiCall::ListAvailableDevices => ApiCallView::ListAvailableDevices,
            ApiCall::PlayerPause(x) => ApiCallView::PlayerPause(x@),
            ApiCall::PlayerResume(x) => ApiCallView::PlayerResume(x@),
            ApiCall::PlayerNext(x) => ApiCallView::PlayerNext(x@),
            ApiCall::PlayerPrevious(x) => ApiCallView::PlayerPrevious(x@),
            ApiCall::PlayerSeek { device_id, position } => ApiCallView::PlayerSeek { device_id: device_id@, position: *position },
            ApiCall::PlayerVolume { device_id, percent } => ApiCallView::PlayerVolume { device_id: device_id@, percent: *percent },
            ApiCall::PlayerTransfer { device_id, play } => ApiCallView::PlayerTransfer { device_id: device_id@, play: *play },
            ApiCall::PlayerPlayContext { device_id, context_uri, track_uris, offset } => ApiCallView::PlayerPlayContext { device_id: device_id@, context_uri: context_uri.deep_view(), track_uris: track_uris.deep_view(), offset: *offset },
            ApiCall::ClearUserCache => ApiCallView::ClearUserCache,
        }
    }
}

impl Clone for ApiCall {
    fn clone(&self) -> (r: Self)
        ensures
            r.deep_view() == self.deep_view(),
    {
        match self {
            ApiCall::GetAlbum(x) => ApiCall::GetAlbum(x.clone()),
            ApiCall::GetArtist(x) => ApiCall::GetArtist(x.clone()),
            ApiCall::GetPlaylist(x) => ApiCall::GetPlaylist(x.clone()),
            ApiCall::GetPlaylistAndTracks { id, offset, limit } => ApiCall::GetPlaylistAndTracks { id: id.clone(), offset: *offset, limit: *limit },
            ApiCall::GetAlbumTracks { id, offset, limit } => ApiCall::GetAlbumTracks { id: id.clone(), offset: *offset, limit: *limit },
            ApiCall::GetPlaylistTracks { id, offset, limit } => ApiCall::GetPlaylistTracks { id: id.clone(), offset: *offset, limit: *limit },
            ApiCall::GetArtistAlbums { id, offset, limit } => ApiCall::GetArtistAlbums { id: id.clone(), offset: *offset, limit: *limit },
            ApiCall::GetSavedTracks { offset, limit } => ApiCall::GetSavedTracks { offset: *offset, limit: *limit },
            ApiCall::GetSavedAlbums { offset, limit } => ApiCall::GetSavedAlbums { offset: *offset, limit: *limit },
            ApiCall::GetSavedPlaylists { offset, limit } => ApiCall::GetSavedPlaylists { offset: *offset, limit: *limit },
            ApiCall::GetFollowedArtists { after, limit } => ApiCall::GetFollowedArtists { after: after.clone(), limit: *limit },
            ApiCall::LoadSavedTracks { offset, limit } => ApiCall::LoadSavedTracks { offset: *offset, limit: *limit },
            ApiCall::SaveTracks(x) => ApiCall::SaveTracks(x.clone()),
            ApiCall::RemoveSavedTracks(x) => ApiCall::RemoveSavedTracks(x.clone()),
            ApiCall::SaveAlbum(x) => ApiCall::SaveAlbum(x.clone()),
            ApiCall::RemoveSavedAlbum(x) => ApiCall::RemoveSavedAlbum(x.clone()),
            ApiCall::FollowArtist(x) => ApiCall::FollowArtist(x.clone()),
            ApiCall::UnfollowArtist(x) => ApiCall::UnfollowArtist(x.clone()),
            ApiCall::FollowPlaylist(x) => ApiCall::FollowPlaylist(x.clone()),
            ApiCall::UnfollowPlaylist(x) => ApiCall::UnfollowPlaylist(x.clone()),
            ApiCall::UpdatePlaylistDetails { id, name } => ApiCall::UpdatePlaylistDetails { id: id.clone(), name: name.clone() },
            ApiCall::CreatePlaylist { name, user_id } => ApiCall::CreatePlaylist { name: name.clone(), user_id: user_id.clone() },
            ApiCall::AddToPlaylist { id, uris } => ApiCall::AddToPlaylist { id: id.clone(), uris: uris.clone() },
            ApiCall::RemoveFromPlaylist { id, uris } => ApiCall::RemoveFromPlaylist { id: id.clone(), uris: uris.clone() },
            ApiCall::Search { query, offset, limit } => ApiCall::Search { query: query.clone(), offset: *offset, limit: *limit },
            ApiCall::RecentlyPlayed(x) => ApiCall::RecentlyPlayed(*x),
            ApiCall::GetTopArtists(x) => ApiCall::GetTopArtists(*x),
            ApiCall::GetSeedArtists(x) => ApiCall::GetSeedArtists(*x),
            ApiCall::GetTopTracks(x) => ApiCall::GetTopTracks(*x),
            ApiCall::GetCurrentUser => ApiCall::GetCurrentUser,
            ApiCall::ListAvailableDevices => ApiCall::ListAvailableDevices,
            ApiCall::PlayerPause(x) => ApiCall::PlayerPause(x.clone()),
            ApiCall::PlayerResume(x) => ApiCall::PlayerResume(x.clone()),
            ApiCall::PlayerNext(x) => ApiCall::PlayerNext(x.clone()),
            ApiCall::PlayerPrevious(x) => ApiCall::PlayerPrevious(x.clone()),
            ApiCall::PlayerSeek { device_id, position } => ApiCall::PlayerSeek { device_id: device_id.clone(), position: *position },
            ApiCall::PlayerVolume { device_id, percent } => ApiCall::PlayerVolume { device_id: device_id.clone(), percent: *percent },
            ApiCall::PlayerTransfer { device_id, play } => ApiCall::PlayerTransfer { device_id: device_id.clone(), play: *play },
            ApiCall::PlayerPlayContext { device_id, context_uri, track_uris, offset } => ApiCall::PlayerPlayContext { device_id: device_id.clone(), context_uri: context_uri.clone(), track_uris: track_uris.clone(), offset: *offset },
            ApiCall::ClearUserCache => ApiCall::ClearUserCache,
        }
    }
}

/// One thing that a model wants done.
#[derive(Debug, PartialEq, Eq)]
pub enum Effect {
    /// Hand the action on.
    Dispatch(AppAction),
    /// Apply the action to the state at once, before anything else is read.
    UpdateState(BrowserAction),
    /// Make the call, then act on its answer.
    Call(ApiCall),
}

/// The contents of an `Effect`.
pub enum EffectView {
    Dispatch(AppActionView),
    UpdateState(BrowserActionView),
    Call(ApiCallView),
}

impl DeepView for Effect {
    type V = EffectView;

    open spec fn deep_view(&self) -> EffectView {
        match self {
            Effect::Dispatch(x) => EffectView::Dispatch(x.deep_view()),
            Effect::UpdateState(x) => EffectView::UpdateState(x.deep_view()),
            Effect::Call(x) => EffectView::Call(x.deep_view()),
        }
    }
}

impl Clone for Effect {
    fn clone(&self) -> (r: Self)
        ensures
            r.deep_view() == self.deep_view(),
    {
        match self {
            Effect::Dispatch(x) => Effect::Dispatch(x.clone()),
            Effect::UpdateState(x) => Effect::UpdateState(x.clone()),
            Effect::Call(x) => Effect::Call(x.clone()),
        }
    }
}

// ── Actions within actions ─────────────────────────────────────────────────

impl From<PlaybackAction> for AppAction {
    fn from(action: PlaybackAction) -> (r: AppAction) {
        AppAction::PlaybackAction(action)
    }
}

impl vstd::std_specs::convert::FromSpecImpl<PlaybackAction> for AppAction {
    open spec fn obeys_from_spec() -> bool {
        true
    }

    open spec fn from_spec(action: PlaybackAction) -> AppAction {
        AppAction::PlaybackAction(action)
    }
}

impl From<BrowserAction> for AppAction {
    fn from(action: BrowserAction) -> (r: AppAction) {
        AppAction::BrowserAction(action)
    }
}

impl vstd::std_specs::convert::FromSpecImpl<BrowserAction> for AppAction {
    open spec fn obeys_from_spec() -> bool {
        true
    }

    open spec fn from_spec(action: BrowserAction) -> AppAction {
        AppAction::BrowserAction(action)
    }
}

impl From<SelectionAction> for AppAction {
    fn from(action: SelectionAction) -> (r: AppAction) {
        AppAction::SelectionAction(action)
    }
}

impl vstd::std_specs::convert::FromSpecImpl<SelectionAction> for AppAction {
    open spec fn obeys_from_spec() -> bool {
        true
    }

    open spec fn from_spec(action: SelectionAction) -> AppAction {
        AppAction::SelectionAction(action)
    }
}

impl From<LoginAction> for AppAction {
    fn from(action: LoginAction) -> (r: AppAction) {
        AppAction::LoginAction(action)
    }
}

impl vstd::std_specs::convert::FromSpecImpl<LoginAction> for AppAction {
    open spec fn obeys_from_spec() -> bool {
        true
    }

    open spec fn from_spec(action: LoginAction) -> AppAction {
        AppAction::LoginAction(action)
    }
}

/// Tells the user something.
pub open spec fn notify(message: Seq<char>) -> EffectView {
    EffectView::Dispatch(AppActionView::ShowNotification(message))
}

/// An action on what is playing, to be handed on.
pub open spec fn play(action: PlaybackActionView) -> EffectView {
    EffectView::Dispatch(AppActionView::PlaybackAction(action))
}

/// An action on what is shown, to be handed on.
pub open spec fn browse(action: BrowserActionView) -> EffectView {
    EffectView::Dispatch(AppActionView::BrowserAction(action))
}

/// An action on the selection, to be handed on.
pub open spec fn select(action: SelectionActionView) -> EffectView {
    EffectView::Dispatch(AppActionView::SelectionAction(action))
}

// ── The dispatcher ─────────────────────────────────────────────────────────

/// What a model wants done and has not been done yet, in order.
#[derive(Debug, PartialEq, Eq)]
pub struct ActionDispatcher {
    pub effects: Vec<Effect>,
}

impl View for ActionDispatcher {
    type V = Seq<EffectView>;

    open spec fn view(&self) -> Seq<EffectView> {
        self.effects.deep_view()
    }
}

impl ActionDispatcher {
    /// Nothing is to be done.
    pub fn new() -> (r: ActionDispatcher)
        ensures
            r@ == Seq::<EffectView>::empty(),
    {
        let r = ActionDispatcher { effects: Vec::new() };
        assert(r@ =~= Seq::<EffectView>::empty());
        r
    }

    /// Wants something done.
    pub fn push(&mut self, effect: Effect)
        ensures
            final(self)@ == old(self)@.push(effect.deep_view()),
            final(self)@ == old(self)@ + seq![effect.deep_view()],
    {
        let ghost before = self.effects;
        self.effects.push(effect);
        proof {
            lists::lemma_deep_push(before, self.effects, effect);
            assert(self@ =~= before.deep_view() + seq![effect.deep_view()]);
        }
    }

    /// Wants an action handed on.
    pub fn dispatch(&mut self, action: AppAction)
        ensures
            final(self)@ == old(self)@.push(EffectView::Dispatch(action.deep_view())),
            final(self)@ == old(self)@ + seq![EffectView::Dispatch(action.deep_view())],
    {
        self.push(Effect::Dispatch(action));
    }

    /// Wants several actions handed on, in order.
    pub fn dispatch_many(&mut self, actions: Vec<AppAction>)
        ensures
            final(self)@ == old(self)@ + actions.deep_view().map_values(
                |a: AppActionView| EffectView::Dispatch(a),
            ),
    {
        let ghost start = self@;
        let ghost all = actions.deep_view().map_values(|a: AppActionView| EffectView::Dispatch(a));
        let ghost whole = actions;
        assert(self@ =~= start + all.take(0));
        for action in it: actions.into_iter()
            invariant
                it.seq() == whole@,
                all == whole.deep_view().map_values(|a: AppActionView| EffectView::Dispatch(a)),
                self@ == start + all.take(it.index()),
        {
            let ghost view = action.deep_view();
            self.dispatch(action);
            proof {
                lists::lemma_take_push(all, it.index());
                assert(all[it.index()] == EffectView::Dispatch(view));
                assert((start + all.take(it.index())).push(EffectView::Dispatch(view)) =~= start
                    + all.take(it.index()).push(EffectView::Dispatch(view)));
            }
        }
        proof {
            lists::lemma_take_all(all);
        }
    }

    /// Wants a call to the web API made.
    pub fn call(&mut self, call: ApiCall)
        ensures
            final(self)@ == old(self)@.push(EffectView::Call(call.deep_view())),
            final(self)@ == old(self)@ + seq![EffectView::Call(call.deep_view())],
    {
        self.push(Effect::Call(call));
    }

    /// Wants the state changed at once.
    pub fn update_state(&mut self, action: BrowserAction)
        ensures
            final(self)@ == old(self)@.push(EffectView::UpdateState(action.deep_view())),
    {
        self.push(Effect::UpdateState(action));
    }

    /// Takes what is to be done; nothing is left.
    pub fn take(&mut self) -> (r: Vec<Effect>)
        ensures
            r.deep_view() == old(self)@,
            final(self)@ == Seq::<EffectView>::empty(),
    {
        let mut taken: Vec<Effect> = Vec::new();
        std::mem::swap(&mut taken, &mut self.effects);
        assert(self@ =~= Seq::<EffectView>::empty());
        taken
    }
}

// ── Events ─────────────────────────────────────────────────────────────────

/// A login was started in this way.
#[derive(Clone, Copy, Debug, PartialEq, Eq, Structural)]
pub enum LoginStartedEvent {
    Restore,
    InitLogin,
    CompleteLogin,
}

/// Something happened to the login.
#[derive(Debug, PartialEq, Eq)]
pub enum LoginEvent {
    LoginStarted(LoginStartedEvent),
    LoginCompleted,
    FreshTokenRequested,
    UserPlaylistsLoaded,
    UserDetailsLoaded,
    LogoutCompleted,
}

/// Something happened to what is playing.
#[derive(Debug, PartialEq, Eq)]
pub enum PlaybackEvent {
    PlaybackPaused,
    PlaybackResumed,
    PlaybackStopped,
    TrackChanged(String),
    SourceChanged,
    TrackSeeked(u32),
    SeekSynced(u32),
    VolumeSet(Volume),
    RepeatModeChanged(RepeatMode),
    ShuffleChanged(bool),
    PlaylistChanged,
    Preload(String),
    SwitchedDevice(Device),
    AvailableDevicesChanged,
    OwnDeviceIdSet(String),
    RemotePlaybackChanged,
    RemoteContextChanged,
    RemoteControlChanged(bool),
    RemoteNextRequested,
    RemotePrevRequested,
    YieldedActiveDevice,
}

/// Something happened to what is shown.
#[derive(Debug, PartialEq, Eq)]
pub enum BrowserEvent {
    LibraryUpdated,
    SavedPlaylistsUpdated,
    SavedArtistsUpdated,
    SavedTracksUpdated,
    RecentlyPlayedUpdated,
    TopArtistsUpdated,
    TopTracksUpdated,
    MadeForYouUpdated,
    AlbumDetailsLoaded(String),
    AlbumTracksAppended(String),
    AlbumSaved(String),
    AlbumUnsaved(String),
    PlaylistDetailsLoaded(String),
    PlaylistTracksAppended(String),
    PlaylistTracksRemoved(String),
    PlaylistSaved(String),
    PlaylistUnsaved(String),
    ArtistDetailsUpdated(String),
    UserDetailsUpdated(String),
    RadioTracksLoaded(String),
    SearchUpdated,
    SearchResultsUpdated,
    CardLayoutChanged(CardLayout),
    NavigationPushed(ScreenName),
    NavigationPopped,
    NavigationPoppedTo(ScreenName),
}

/// Something happened to the selection.
#[derive(Clone, Copy, Debug, PartialEq, Eq, Structural)]
pub enum SelectionEvent {
    SelectionModeChanged(bool),
    SelectionChanged,
}

/// Something happened to the settings.
#[derive(Clone, Copy, Debug, PartialEq, Eq, Structural)]
pub enum SettingsEvent {
    PlayerSettingsChanged,
}

/// Something happened.
#[derive(Debug, PartialEq, Eq)]
pub enum AppEvent {
    Started,
    NowPlayingSheetShown,
    SearchTabShown,
    RemoteMirrorRepollRequested,
    LibraryPinsChanged,
    RadioRequested(String),
    SongMenuShown(SongDescription),
    AddToPlaylistShown(SongDescription),
    LibraryItemMenuShown(LibraryItem),
    PlaybackEvent(PlaybackEvent),
    BrowserEvent(BrowserEvent),
    SelectionEvent(SelectionEvent),
    LoginEvent(LoginEvent),
    SettingsEvent(SettingsEvent),
}

/// The view of a `SongsSource` is of the same kind and holds the same parts.
pub proof fn law_view_of_songs_source(value: SongsSource)
    ensures
        value matches SongsSource::Playlist { id, title } ==> value.deep_view() == (SongsSourceView::Playlist { id: id@, title: title@ }),
        value matches SongsSource::Album(x) ==> value.deep_view() == SongsSourceView::Album(x@),
        value matches SongsSource::Artist(x) ==> value.deep_view() == SongsSourceView::Artist(x@),
        value is SavedTracks ==> value.deep_view() == SongsSourceView::SavedTracks,
        value matches SongsSource::Radio { seed_id, seed_name } ==> value.deep_view() == (SongsSourceView::Radio { seed_id: seed_id@, seed_name: seed_name@ }),
{
}

/// The view of a `ScreenName` is of the same kind and holds the same parts.
pub proof fn law_view_of_screen_name(value: ScreenName)
    ensures
        value is Home ==> value.deep_view() == ScreenNameView::Home,
        value is Search ==> value.deep_view() == ScreenNameView::Search,
        value matches ScreenName::AlbumDetails(x) ==> value.deep_view() == ScreenNameView::AlbumDetails(x@),
        value matches ScreenName::Artist(x) ==> value.deep_view() == ScreenNameView::Artist(x@),
        value matches ScreenName::PlaylistDetails(x) ==> value.deep_view() == ScreenNameView::PlaylistDetails(x@),
        value matches ScreenName::User(x) ==> value.deep_view() == ScreenNameView::User(x@),
        value is SavedTracks ==> value.deep_view() == ScreenNameView::SavedTracks,
        value is Settings ==> value.deep_view() == ScreenNameView::Settings,
        value matches ScreenName::Radio { seed_id, seed_name } ==> value.deep_view() == (ScreenNameView::Radio { seed_id: seed_id@, seed_name: seed_name@ }),
{
}

/// The view of a `PaginationTarget` is of the same kind and holds the same parts.
pub proof fn law_view_of_pagination_target(value: PaginationTarget)
    ensures
        value is SavedAlbums ==> value.deep_view() == PaginationTargetView::SavedAlbums,
        value is SavedPlaylists ==> value.deep_view() == PaginationTargetView::SavedPlaylists,
        value is SavedArtists ==> value.deep_view() == PaginationTargetView::SavedArtists,
        value is SavedTracks ==> value.deep_view() == PaginationTargetView::SavedTracks,
        value matches PaginationTarget::AlbumTracks(x) ==> value.deep_view() == PaginationTargetView::AlbumTracks(x@),
        value matches PaginationTarget::PlaylistTracks(x) ==> value.deep_view() == PaginationTargetView::PlaylistTracks(x@),
        value matches PaginationTarget::ArtistReleases(x) ==> value.deep_view() == PaginationTargetView::ArtistReleases(x@),
{
}

/// The view of a `SelectionContext` is of the same kind and holds the same parts.
pub proof fn law_view_of_selection_context(value: SelectionContext)
    ensures
        value is Default ==> value.deep_view() == SelectionContextView::Default,
        value is SavedTracks ==> value.deep_view() == SelectionContextView::SavedTracks,
        value is Playlist ==> value.deep_view() == SelectionContextView::Playlist,
        value matches SelectionContext::EditablePlaylist(x) ==> value.deep_view() == SelectionContextView::EditablePlaylist(x@),
{
}

/// The view of a `Device` is of the same kind and holds the same parts.
pub proof fn law_view_of_device(value: Device)
    ensures
        value is Local ==> value.deep_view() == DeviceView::Local,
        value matches Device::Connect(x) ==> value.deep_view() == DeviceView::Connect(x.deep_view()),
{
}

/// The view of a `PlaybackAction` is of the same kind and holds the same parts.
pub proof fn law_view_of_playback_action(value: PlaybackAction)
    ensures
        value is TogglePlay ==> value.deep_view() == PlaybackActionView::TogglePlay,
        value is Play ==> value.deep_view() == PlaybackActionView::Play,
        value is Pause ==> value.deep_view() == PlaybackActionView::Pause,
        value is Stop ==> value.deep_view() == PlaybackActionView::Stop,
        value is Next ==> value.deep_view() == PlaybackActionView::Next,
        value is Previous ==> value.deep_view() == PlaybackActionView::Previous,
        value is ToggleShuffle ==> value.deep_view() == PlaybackActionView::ToggleShuffle,
        value is ToggleRepeat ==> value.deep_view() == PlaybackActionView::ToggleRepeat,
        value matches PlaybackAction::Seek(x) ==> value.deep_view() == PlaybackActionView::Seek(x),
        value matches PlaybackAction::SetVolume(x) ==> value.deep_view() == PlaybackActionView::SetVolume(x),
        value matches PlaybackAction::Load(x) ==> value.deep_view() == PlaybackActionView::Load(x@),
        value matches PlaybackAction::LoadSongs(x) ==> value.deep_view() == PlaybackActionView::LoadSongs(x.deep_view()),
        value matches PlaybackAction::LoadPagedSongs(x0, x1) ==> value.deep_view() == PlaybackActionView::LoadPagedSongs(x0.deep_view(), x1.deep_view()),
        value matches PlaybackAction::Queue(x) ==> value.deep_view() == PlaybackActionView::Queue(x.deep_view()),
        value matches PlaybackAction::Dequeue(x) ==> value.deep_view() == PlaybackActionView::Dequeue(x@),
        value matches PlaybackAction::MoveInQueue { id, to } ==> value.deep_view() == (PlaybackActionView::MoveInQueue { id: id@, to: to }),
        value matches PlaybackAction::SwitchDevice(x) ==> value.deep_view() == PlaybackActionView::SwitchDevice(x.deep_view()),
        value matches PlaybackAction::SetAvailableDevices(x) ==> value.deep_view() == PlaybackActionView::SetAvailableDevices(x.deep_view()),
        value matches PlaybackAction::SetRemotePlayback(x) ==> value.deep_view() == PlaybackActionView::SetRemotePlayback(x.deep_view()),
{
}

/// The view of a `BrowserAction` is of the same kind and holds the same parts.
pub proof fn law_view_of_browser_action(value: BrowserAction)
    ensures
        value is NavigationPop ==> value.deep_view() == BrowserActionView::NavigationPop,
        value matches BrowserAction::NavigationPush(x) ==> value.deep_view() == BrowserActionView::NavigationPush(x.deep_view()),
        value matches BrowserAction::NavigationPopTo(x) ==> value.deep_view() == BrowserActionView::NavigationPopTo(x.deep_view()),
        value matches BrowserAction::Search(x) ==> value.deep_view() == BrowserActionView::Search(x@),
        value matches BrowserAction::SetSearchResults(x) ==> value.deep_view() == BrowserActionView::SetSearchResults(x.deep_view()),
        value matches BrowserAction::PlaySong(x) ==> value.deep_view() == BrowserActionView::PlaySong(x@),
        value matches BrowserAction::SaveTracks(x) ==> value.deep_view() == BrowserActionView::SaveTracks(x.deep_view()),
        value matches BrowserAction::RemoveSavedTracks(x) ==> value.deep_view() == BrowserActionView::RemoveSavedTracks(x.deep_view()),
        value matches BrowserAction::SaveAlbum(x) ==> value.deep_view() == BrowserActionView::SaveAlbum(x.deep_view()),
        value matches BrowserAction::UnsaveAlbum(x) ==> value.deep_view() == BrowserActionView::UnsaveAlbum(x@),
        value matches BrowserAction::SavePlaylist(x) ==> value.deep_view() == BrowserActionView::SavePlaylist(x@),
        value matches BrowserAction::UnsavePlaylist(x) ==> value.deep_view() == BrowserActionView::UnsavePlaylist(x@),
        value matches BrowserAction::FollowArtist(x) ==> value.deep_view() == BrowserActionView::FollowArtist(x@),
        value matches BrowserAction::UnfollowArtist(x) ==> value.deep_view() == BrowserActionView::UnfollowArtist(x@),
        value matches BrowserAction::SetAlbumDetails(x) ==> value.deep_view() == BrowserActionView::SetAlbumDetails(x.deep_view()),
        value matches BrowserAction::SetArtistDetails(x) ==> value.deep_view() == BrowserActionView::SetArtistDetails(x.deep_view()),
        value matches BrowserAction::SetPlaylistDetails(x0, x1) ==> value.deep_view() == BrowserActionView::SetPlaylistDetails(x0.deep_view(), x1.deep_view()),
        value matches BrowserAction::SetSavedTracks(x) ==> value.deep_view() == BrowserActionView::SetSavedTracks(x.deep_view()),
        value matches BrowserAction::AppendSavedTracks(x) ==> value.deep_view() == BrowserActionView::AppendSavedTracks(x.deep_view()),
        value matches BrowserAction::AppendAlbumTracks(x0, x1) ==> value.deep_view() == BrowserActionView::AppendAlbumTracks(x0@, x1.deep_view()),
        value matches BrowserAction::AppendPlaylistTracks(x0, x1) ==> value.deep_view() == BrowserActionView::AppendPlaylistTracks(x0@, x1.deep_view()),
        value matches BrowserAction::AppendArtistReleases(x0, x1) ==> value.deep_view() == BrowserActionView::AppendArtistReleases(x0@, x1.deep_view()),
        value matches BrowserAction::SetLibraryContent(x) ==> value.deep_view() == BrowserActionView::SetLibraryContent(x.deep_view()),
        value matches BrowserAction::AppendLibraryContent(x) ==> value.deep_view() == BrowserActionView::AppendLibraryContent(x.deep_view()),
        value matches BrowserAction::SetPlaylistsContent(x) ==> value.deep_view() == BrowserActionView::SetPlaylistsContent(x.deep_view()),
        value matches BrowserAction::AppendPlaylistsContent(x) ==> value.deep_view() == BrowserActionView::AppendPlaylistsContent(x.deep_view()),
        value matches BrowserAction::SetSavedArtists(x0, x1) ==> value.deep_view() == BrowserActionView::SetSavedArtists(x0.deep_view(), x1.deep_view()),
        value matches BrowserAction::AppendSavedArtists(x0, x1) ==> value.deep_view() == BrowserActionView::AppendSavedArtists(x0.deep_view(), x1.deep_view()),
        value matches BrowserAction::SetRecentlyPlayed(x0, x1) ==> value.deep_view() == BrowserActionView::SetRecentlyPlayed(x0.deep_view(), x1.deep_view()),
        value matches BrowserAction::SetTopArtists(x) ==> value.deep_view() == BrowserActionView::SetTopArtists(x.deep_view()),
        value matches BrowserAction::SetTopTracks(x) ==> value.deep_view() == BrowserActionView::SetTopTracks(x.deep_view()),
        value matches BrowserAction::SetMadeForYou(x0, x1) ==> value.deep_view() == BrowserActionView::SetMadeForYou(x0@, x1.deep_view()),
        value matches BrowserAction::ConsumeNextPage(x) ==> value.deep_view() == BrowserActionView::ConsumeNextPage(x.deep_view()),
        value matches BrowserAction::ChangeSortOrder(x0, x1) ==> value.deep_view() == BrowserActionView::ChangeSortOrder(x0@, x1),
        value matches BrowserAction::ChangeCardLayout(x) ==> value.deep_view() == BrowserActionView::ChangeCardLayout(x),
{
}

/// The view of a `SelectionAction` is of the same kind and holds the same parts.
pub proof fn law_view_of_selection_action(value: SelectionAction)
    ensures
        value matches SelectionAction::Select(x) ==> value.deep_view() == SelectionActionView::Select(x.deep_view()),
        value matches SelectionAction::Deselect(x) ==> value.deep_view() == SelectionActionView::Deselect(x.deep_view()),
{
}

/// The view of a `LoginAction` is of the same kind and holds the same parts.
pub proof fn law_view_of_login_action(value: LoginAction)
    ensures
        value matches LoginAction::SetUserPlaylists(x) ==> value.deep_view() == LoginActionView::SetUserPlaylists(x.deep_view()),
        value matches LoginAction::SetUserDetails { display_name, image_url } ==> value.deep_view() == (LoginActionView::SetUserDetails { display_name: display_name@, image_url: image_url.deep_view() }),
        value is SetLoginFailure ==> value.deep_view() == LoginActionView::SetLoginFailure,
        value is Logout ==> value.deep_view() == LoginActionView::Logout,
{
}

/// The view of an `AppAction` is of the same kind and holds the same parts.
pub proof fn law_view_of_app_action(value: AppAction)
    ensures
        value is Start ==> value.deep_view() == AppActionView::Start,
        value matches AppAction::ViewAlbum(x) ==> value.deep_view() == AppActionView::ViewAlbum(x@),
        value matches AppAction::ViewArtist(x) ==> value.deep_view() == AppActionView::ViewArtist(x@),
        value matches AppAction::ViewPlaylist(x) ==> value.deep_view() == AppActionView::ViewPlaylist(x@),
        value matches AppAction::ViewUser(x) ==> value.deep_view() == AppActionView::ViewUser(x@),
        value matches AppAction::ShowSongMenu(x) ==> value.deep_view() == AppActionView::ShowSongMenu(x.deep_view()),
        value matches AppAction::ShowAddToPlaylist(x) ==> value.deep_view() == AppActionView::ShowAddToPlaylist(x.deep_view()),
        value matches AppAction::ShowLibraryItemMenu(x) ==> value.deep_view() == AppActionView::ShowLibraryItemMenu(x.deep_view()),
        value is ShowNowPlayingSheet ==> value.deep_view() == AppActionView::ShowNowPlayingSheet,
        value matches AppAction::ShowNotification(x) ==> value.deep_view() == AppActionView::ShowNotification(x@),
        value matches AppAction::EnableSelection(x) ==> value.deep_view() == AppActionView::EnableSelection(x.deep_view()),
        value matches AppAction::CreatePlaylist(x) ==> value.deep_view() == AppActionView::CreatePlaylist(x.deep_view()),
        value matches AppAction::UpdatePlaylistName(x) ==> value.deep_view() == AppActionView::UpdatePlaylistName(x.deep_view()),
        value is LibraryPinsChanged ==> value.deep_view() == AppActionView::LibraryPinsChanged,
        value is RepollRemoteMirror ==> value.deep_view() == AppActionView::RepollRemoteMirror,
        value matches AppAction::PlaybackAction(x) ==> value.deep_view() == AppActionView::PlaybackAction(x.deep_view()),
        value matches AppAction::BrowserAction(x) ==> value.deep_view() == AppActionView::BrowserAction(x.deep_view()),
        value matches AppAction::SelectionAction(x) ==> value.deep_view() == AppActionView::SelectionAction(x.deep_view()),
        value matches AppAction::LoginAction(x) ==> value.deep_view() == AppActionView::LoginAction(x.deep_view()),
{
}

/// The view of an `ApiCall` is of the same kind and holds the same parts.
pub proof fn law_view_of_api_call(value: ApiCall)
    ensures
        value matches ApiCall::GetAlbum(x) ==> value.deep_view() == ApiCallView::GetAlbum(x@),
        value matches ApiCall::GetArtist(x) ==> value.deep_view() == ApiCallView::GetArtist(x@),
        value matches ApiCall::GetPlaylist(x) ==> value.deep_view() == ApiCallView::GetPlaylist(x@),
        value matches ApiCall::GetPlaylistAndTracks { id, offset, limit } ==> value.deep_view() == (ApiCallView::GetPlaylistAndTracks { id: id@, offset: offset, limit: limit }),
        value matches ApiCall::GetAlbumTracks { id, offset, limit } ==> value.deep_view() == (ApiCallView::GetAlbumTracks { id: id@, offset: offset, limit: limit }),
        value matches ApiCall::GetPlaylistTracks { id, offset, limit } ==> value.deep_view() == (ApiCallView::GetPlaylistTracks { id: id@, offset: offset, limit: limit }),
        value matches ApiCall::GetArtistAlbums { id, offset, limit } ==> value.deep_view() == (ApiCallView::GetArtistAlbums { id: id@, offset: offset, limit: limit }),
        value matches ApiCall::GetSavedTracks { offset, limit } ==> value.deep_view() == (ApiCallView::GetSavedTracks { offset: offset, limit: limit }),
        value matches ApiCall::GetSavedAlbums { offset, limit } ==> value.deep_view() == (ApiCallView::GetSavedAlbums { offset: offset, limit: limit }),
        value matches ApiCall::GetSavedPlaylists { offset, limit } ==> value.deep_view() == (ApiCallView::GetSavedPlaylists { offset: offset, limit: limit }),
        value matches ApiCall::GetFollowedArtists { after, limit } ==> value.deep_view() == (ApiCallView::GetFollowedArtists { after: after.deep_view(), limit: limit }),
        value matches ApiCall::LoadSavedTracks { offset, limit } ==> value.deep_view() == (ApiCallView::LoadSavedTracks { offset: offset, limit: limit }),
        value matches ApiCall::SaveTracks(x) ==> value.deep_view() == ApiCallView::SaveTracks(x.deep_view()),
        value matches ApiCall::RemoveSavedTracks(x) ==> value.deep_view() == ApiCallView::RemoveSavedTracks(x.deep_view()),
        value matches ApiCall::SaveAlbum(x) ==> value.deep_view() == ApiCallView::SaveAlbum(x@),
        value matches ApiCall::RemoveSavedAlbum(x) ==> value.deep_view() == ApiCallView::RemoveSavedAlbum(x@),
        value matches ApiCall::FollowArtist(x) ==> value.deep_view() == ApiCallView::FollowArtist(x@),
        value matches ApiCall::UnfollowArtist(x) ==> value.deep_view() == ApiCallView::UnfollowArtist(x@),
        value matches ApiCall::FollowPlaylist(x) ==> value.deep_view() == ApiCallView::FollowPlaylist(x@),
        value matches ApiCall::UnfollowPlaylist(x) ==> value.deep_view() == ApiCallView::UnfollowPlaylist(x@),
        value matches ApiCall::UpdatePlaylistDetails { id, name } ==> value.deep_view() == (ApiCallView::UpdatePlaylistDetails { id: id@, name: name@ }),
        value matches ApiCall::CreatePlaylist { name, user_id } ==> value.deep_view() == (ApiCallView::CreatePlaylist { name: name@, user_id: user_id@ }),
        value matches ApiCall::AddToPlaylist { id, uris } ==> value.deep_view() == (ApiCallView::AddToPlaylist { id: id@, uris: uris.deep_view() }),
        value matches ApiCall::RemoveFromPlaylist { id, uris } ==> value.deep_view() == (ApiCallView::RemoveFromPlaylist { id: id@, uris: uris.deep_view() }),
        value matches ApiCall::Search { query, offset, limit } ==> value.deep_view() == (ApiCallView::Search { query: query@, offset: offset, limit: limit }),
        value matches ApiCall::RecentlyPlayed(x) ==> value.deep_view() == ApiCallView::RecentlyPlayed(x),
        value matches ApiCall::GetTopArtists(x) ==> value.deep_view() == ApiCallView::GetTopArtists(x),
        value matches ApiCall::GetSeedArtists(x) ==> value.deep_view() == ApiCallView::GetSeedArtists(x),
        value matches ApiCall::GetTopTracks(x) ==> value.deep_view() == ApiCallView::GetTopTracks(x),
        value is GetCurrentUser ==> value.deep_view() == ApiCallView::GetCurrentUser,
        value is ListAvailableDevices ==> value.deep_view() == ApiCallView::ListAvailableDevices,
        value matches ApiCall::PlayerPause(x) ==> value.deep_view() == ApiCallView::PlayerPause(x@),
        value matches ApiCall::PlayerResume(x) ==> value.deep_view() == ApiCallView::PlayerResume(x@),
        value matches ApiCall::PlayerNext(x) ==> value.deep_view() == ApiCallView::PlayerNext(x@),
        value matches ApiCall::PlayerPrevious(x) ==> value.deep_view() == ApiCallView::PlayerPrevious(x@),
        value matches ApiCall::PlayerSeek { device_id, position } ==> value.deep_view() == (ApiCallView::PlayerSeek { device_id: device_id@, position: position }),
        value matches ApiCall::PlayerVolume { device_id, percent } ==> value.deep_view() == (ApiCallView::PlayerVolume { device_id: device_id@, percent: percent }),
        value matches ApiCall::PlayerTransfer { device_id, play } ==> value.deep_view() == (ApiCallView::PlayerTransfer { device_id: device_id@, play: play }),
        value matches ApiCall::PlayerPlayContext { device_id, context_uri, track_uris, offset } ==> value.deep_view() == (ApiCallView::PlayerPlayContext { device_id: device_id@, context_uri: context_uri.deep_view(), track_uris: track_uris.deep_view(), offset: offset }),
        value is ClearUserCache ==> value.deep_view() == ApiCallView::ClearUserCache,
{
}

/// The view of an `Effect` is of the same kind and holds the same parts.
pub proof fn law_view_of_effect(value: Effect)
    ensures
        value matches Effect::Dispatch(x) ==> value.deep_view() == EffectView::Dispatch(x.deep_view()),
        value matches Effect::UpdateState(x) ==> value.deep_view() == EffectView::UpdateState(x.deep_view()),
        value matches Effect::Call(x) ==> value.deep_view() == EffectView::Call(x.deep_view()),
{
}

/// An action that is to be handed on is handed on as it is.
pub proof fn law_actions_are_handed_on(
    message: Seq<char>,
    playback: PlaybackActionView,
    browser: BrowserActionView,
    selection: SelectionActionView,
)
    ensures
        notify(message) == EffectView::Dispatch(AppActionView::ShowNotification(message)),
        play(playback) == EffectView::Dispatch(AppActionView::PlaybackAction(playback)),
        browse(browser) == EffectView::Dispatch(AppActionView::BrowserAction(browser)),
        select(selection) == EffectView::Dispatch(AppActionView::SelectionAction(selection)),
{
}

} // verus!

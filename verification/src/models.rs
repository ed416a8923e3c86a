//! The plain values that the client works with: songs, albums, playlists,
//! artists, devices and what is known of them.
//!
//! Each type with owned text or lists has a ghost counterpart (`...View`) that
//! holds the same contents as mathematical sequences; `deep_view` gives it.

use vstd::prelude::*;

use crate::lists;
use crate::text;
use crate::text::{join, str_eq};

verus! {

/// An artist as a song or album names it.
#[derive(Debug, PartialEq, Eq)]
pub struct ArtistRef {
    pub id: String,
    pub name: String,
}

/// The contents of an `ArtistRef`.
pub struct ArtistRefView {
    pub id: Seq<char>,
    pub name: Seq<char>,
}

impl DeepView for ArtistRef {
    type V = ArtistRefView;

    open spec fn deep_view(&self) -> ArtistRefView {
        ArtistRefView {
            id: self.id@,
            name: self.name@,
        }
    }
}

impl Clone for ArtistRef {
    fn clone(&self) -> (r: Self)
        ensures
            r.deep_view() == self.deep_view(),
    {
        ArtistRef {
            id: self.id.clone(),
            name: self.name.clone(),
        }
    }
}

/// An album as a song names it.
#[derive(Debug, PartialEq, Eq)]
pub struct AlbumRef {
    pub id: String,
    pub name: String,
}

/// The contents of an `AlbumRef`.
pub struct AlbumRefView {
    pub id: Seq<char>,
    pub name: Seq<char>,
}

impl DeepView for AlbumRef {
    type V = AlbumRefView;

    open spec fn deep_view(&self) -> AlbumRefView {
        AlbumRefView {
            id: self.id@,
            name: self.name@,
        }
    }
}

impl Clone for AlbumRef {
    fn clone(&self) -> (r: Self)
        ensures
            r.deep_view() == self.deep_view(),
    {
        AlbumRef {
            id: self.id.clone(),
            name: self.name.clone(),
        }
    }
}

/// A user as a playlist names its owner.
#[derive(Debug, PartialEq, Eq)]
pub struct UserRef {
    pub id: String,
    pub display_name: String,
}

/// The contents of an `UserRef`.
pub struct UserRefView {
    pub id: Seq<char>,
    pub display_name: Seq<char>,
}

impl DeepView for UserRef {
    type V = UserRefView;

    open spec fn deep_view(&self) -> UserRefView {
        UserRefView {
            id: self.id@,
            display_name: self.display_name@,
        }
    }
}

impl Clone for UserRef {
    fn clone(&self) -> (r: Self)
        ensures
            r.deep_view() == self.deep_view(),
    {
        UserRef {
            id: self.id.clone(),
            display_name: self.display_name.clone(),
        }
    }
}

/// One size of a picture.
#[derive(Debug, PartialEq, Eq)]
pub struct SizedImage {
    /// The width in pixels, where it is known.
    pub width: Option<u32>,
    pub url: String,
}

/// The contents of a `SizedImage`.
pub struct SizedImageView {
    pub width: Option<u32>,
    pub url: Seq<char>,
}

impl DeepView for SizedImage {
    type V = SizedImageView;

    open spec fn deep_view(&self) -> SizedImageView {
        SizedImageView {
            width: self.width,
            url: self.url@,
        }
    }
}

impl Clone for SizedImage {
    fn clone(&self) -> (r: Self)
        ensures
            r.deep_view() == self.deep_view(),
    {
        SizedImage {
            width: self.width,
            url: self.url.clone(),
        }
    }
}

/// The sizes in which a picture can be had; there is at least one.
#[derive(Debug, PartialEq, Eq)]
pub struct ImageSet {
    pub images: Vec<SizedImage>,
}

/// The contents of an `ImageSet`.
pub struct ImageSetView {
    pub images: Seq<SizedImageView>,
}

impl DeepView for ImageSet {
    type V = ImageSetView;

    open spec fn deep_view(&self) -> ImageSetView {
        ImageSetView {
            images: self.images.deep_view(),
        }
    }
}

impl Clone for ImageSet {
    fn clone(&self) -> (r: Self)
        ensures
            r.deep_view() == self.deep_view(),
    {
        ImageSet {
            images: self.images.clone(),
        }
    }
}

/// A stretch of a paged list: where it starts, how long a page is, and how long
/// the whole list is.
#[derive(Clone, Copy, Debug, PartialEq, Eq, Structural)]
pub struct Batch {
    pub offset: usize,
    pub batch_size: usize,
    pub total: usize,
}

impl Batch {
    /// The first page of a list whose length is not known yet.
    pub fn first_of_size(batch_size: usize) -> (r: Batch)
        ensures
            r == (Batch { offset: 0, batch_size, total: 0 }),
    {
        Batch { offset: 0, batch_size, total: 0 }
    }
}

/// A song.
#[derive(Debug, PartialEq, Eq)]
pub struct SongDescription {
    pub id: String,
    pub uri: String,
    pub title: String,
    pub artists: Vec<ArtistRef>,
    pub album: AlbumRef,
    pub duration_ms: u32,
    pub art: Option<ImageSet>,
    pub track_number: Option<u32>,
}

/// The contents of a `SongDescription`.
pub struct SongDescriptionView {
    pub id: Seq<char>,
    pub uri: Seq<char>,
    pub title: Seq<char>,
    pub artists: Seq<ArtistRefView>,
    pub album: AlbumRefView,
    pub duration_ms: u32,
    pub art: Option<ImageSetView>,
    pub track_number: Option<u32>,
}

impl DeepView for SongDescription {
    type V = SongDescriptionView;

    open spec fn deep_view(&self) -> SongDescriptionView {
        SongDescriptionView {
            id: self.id@,
            uri: self.uri@,
            title: self.title@,
            artists: self.artists.deep_view(),
            album: self.album.deep_view(),
            duration_ms: self.duration_ms,
            art: self.art.deep_view(),
            track_number: self.track_number,
        }
    }
}

impl Clone for SongDescription {
    fn clone(&self) -> (r: Self)
        ensures
            r.deep_view() == self.deep_view(),
    {
        SongDescription {
            id: self.id.clone(),
            uri: self.uri.clone(),
            title: self.title.clone(),
            artists: self.artists.clone(),
            album: self.album.clone(),
            duration_ms: self.duration_ms,
            art: self.art.clone(),
            track_number: self.track_number,
        }
    }
}

/// Consecutive songs of a paged list.
#[derive(Debug, PartialEq, Eq)]
pub struct SongBatch {
    pub songs: Vec<SongDescription>,
    pub batch: Batch,
}

/// The contents of a `SongBatch`.
pub struct SongBatchView {
    pub songs: Seq<SongDescriptionView>,
    pub batch: Batch,
}

impl DeepView for SongBatch {
    type V = SongBatchView;

    open spec fn deep_view(&self) -> SongBatchView {
        SongBatchView {
            songs: self.songs.deep_view(),
            batch: self.batch,
        }
    }
}

impl Clone for SongBatch {
    fn clone(&self) -> (r: Self)
        ensures
            r.deep_view() == self.deep_view(),
    {
        SongBatch {
            songs: self.songs.clone(),
            batch: self.batch,
        }
    }
}

/// An album.
#[derive(Debug, PartialEq, Eq)]
pub struct AlbumDescription {
    pub id: String,
    pub title: String,
    pub artists: Vec<ArtistRef>,
    pub release_date: Option<String>,
    pub art: Option<ImageSet>,
    pub songs: SongBatch,
    pub is_liked: bool,
    pub popularity: u32,
}

/// The contents of an `AlbumDescription`.
pub struct AlbumDescriptionView {
    pub id: Seq<char>,
    pub title: Seq<char>,
    pub artists: Seq<ArtistRefView>,
    pub release_date: Option<Seq<char>>,
    pub art: Option<ImageSetView>,
    pub songs: SongBatchView,
    pub is_liked: bool,
    pub popularity: u32,
}

impl DeepView for AlbumDescription {
    type V = AlbumDescriptionView;

    open spec fn deep_view(&self) -> AlbumDescriptionView {
        AlbumDescriptionView {
            id: self.id@,
            title: self.title@,
            artists: self.artists.deep_view(),
            release_date: self.release_date.deep_view(),
            art: self.art.deep_view(),
            songs: self.songs.deep_view(),
            is_liked: self.is_liked,
            popularity: self.popularity,
        }
    }
}

impl Clone for AlbumDescription {
    fn clone(&self) -> (r: Self)
        ensures
            r.deep_view() == self.deep_view(),
    {
        AlbumDescription {
            id: self.id.clone(),
            title: self.title.clone(),
            artists: self.artists.clone(),
            release_date: self.release_date.clone(),
            art: self.art.clone(),
            songs: self.songs.clone(),
            is_liked: self.is_liked,
            popularity: self.popularity,
        }
    }
}

/// Who released an album.
#[derive(Debug, PartialEq, Eq)]
pub struct AlbumReleaseDetails {
    pub label: String,
    pub copyright_text: String,
    pub total_tracks: usize,
}

/// The contents of an `AlbumReleaseDetails`.
pub struct AlbumReleaseDetailsView {
    pub label: Seq<char>,
    pub copyright_text: Seq<char>,
    pub total_tracks: usize,
}

impl DeepView for AlbumReleaseDetails {
    type V = AlbumReleaseDetailsView;

    open spec fn deep_view(&self) -> AlbumReleaseDetailsView {
        AlbumReleaseDetailsView {
            label: self.label@,
            copyright_text: self.copyright_text@,
            total_tracks: self.total_tracks,
        }
    }
}

impl Clone for AlbumReleaseDetails {
    fn clone(&self) -> (r: Self)
        ensures
            r.deep_view() == self.deep_view(),
    {
        AlbumReleaseDetails {
            label: self.label.clone(),
            copyright_text: self.copyright_text.clone(),
            total_tracks: self.total_tracks,
        }
    }
}

/// An album with its release details.
#[derive(Debug, PartialEq, Eq)]
pub struct AlbumFullDescription {
    pub description: AlbumDescription,
    pub release_details: AlbumReleaseDetails,
}

/// The contents of an `AlbumFullDescription`.
pub struct AlbumFullDescriptionView {
    pub description: AlbumDescriptionView,
    pub release_details: AlbumReleaseDetailsView,
}

impl DeepView for AlbumFullDescription {
    type V = AlbumFullDescriptionView;

    open spec fn deep_view(&self) -> AlbumFullDescriptionView {
        AlbumFullDescriptionView {
            description: self.description.deep_view(),
            release_details: self.release_details.deep_view(),
        }
    }
}

impl Clone for AlbumFullDescription {
    fn clone(&self) -> (r: Self)
        ensures
            r.deep_view() == self.deep_view(),
    {
        AlbumFullDescription {
            description: self.description.clone(),
            release_details: self.release_details.clone(),
        }
    }
}

/// A playlist.
#[derive(Debug, PartialEq, Eq)]
pub struct PlaylistDescription {
    pub id: String,
    pub title: String,
    pub art: Option<ImageSet>,
    pub songs: SongBatch,
    pub owner: UserRef,
    /// The version of the track list, where the service names one.
    pub snapshot_id: Option<String>,
}

/// The contents of a `PlaylistDescription`.
pub struct PlaylistDescriptionView {
    pub id: Seq<char>,
    pub title: Seq<char>,
    pub art: Option<ImageSetView>,
    pub songs: SongBatchView,
    pub owner: UserRefView,
    pub snapshot_id: Option<Seq<char>>,
}

impl DeepView for PlaylistDescription {
    type V = PlaylistDescriptionView;

    open spec fn deep_view(&self) -> PlaylistDescriptionView {
        PlaylistDescriptionView {
            id: self.id@,
            title: self.title@,
            art: self.art.deep_view(),
            songs: self.songs.deep_view(),
            owner: self.owner.deep_view(),
            snapshot_id: self.snapshot_id.deep_view(),
        }
    }
}

impl Clone for PlaylistDescription {
    fn clone(&self) -> (r: Self)
        ensures
            r.deep_view() == self.deep_view(),
    {
        PlaylistDescription {
            id: self.id.clone(),
            title: self.title.clone(),
            art: self.art.clone(),
            songs: self.songs.clone(),
            owner: self.owner.clone(),
            snapshot_id: self.snapshot_id.clone(),
        }
    }
}

/// A playlist as a menu lists it.
#[derive(Debug, PartialEq, Eq)]
pub struct PlaylistSummary {
    pub id: String,
    pub title: String,
}

/// The contents of a `PlaylistSummary`.
pub struct PlaylistSummaryView {
    pub id: Seq<char>,
    pub title: Seq<char>,
}

impl DeepView for PlaylistSummary {
    type V = PlaylistSummaryView;

    open spec fn deep_view(&self) -> PlaylistSummaryView {
        PlaylistSummaryView {
            id: self.id@,
            title: self.title@,
        }
    }
}

impl Clone for PlaylistSummary {
    fn clone(&self) -> (r: Self)
        ensures
            r.deep_view() == self.deep_view(),
    {
        PlaylistSummary {
            id: self.id.clone(),
            title: self.title.clone(),
        }
    }
}

/// An artist as a card shows it.
#[derive(Debug, PartialEq, Eq)]
pub struct ArtistSummary {
    pub id: String,
    pub name: String,
    pub photo: Option<ImageSet>,
    pub popularity: u32,
}

/// The contents of an `ArtistSummary`.
pub struct ArtistSummaryView {
    pub id: Seq<char>,
    pub name: Seq<char>,
    pub photo: Option<ImageSetView>,
    pub popularity: u32,
}

impl DeepView for ArtistSummary {
    type V = ArtistSummaryView;

    open spec fn deep_view(&self) -> ArtistSummaryView {
        ArtistSummaryView {
            id: self.id@,
            name: self.name@,
            photo: self.photo.deep_view(),
            popularity: self.popularity,
        }
    }
}

impl Clone for ArtistSummary {
    fn clone(&self) -> (r: Self)
        ensures
            r.deep_view() == self.deep_view(),
    {
        ArtistSummary {
            id: self.id.clone(),
            name: self.name.clone(),
            photo: self.photo.clone(),
            popularity: self.popularity,
        }
    }
}

/// An artist with albums and top tracks.
#[derive(Debug, PartialEq, Eq)]
pub struct ArtistDescription {
    pub id: String,
    pub name: String,
    pub photo: Option<ImageSet>,
    pub albums: Vec<AlbumDescription>,
    pub top_tracks: Vec<SongDescription>,
    pub is_followed: bool,
}

/// The contents of an `ArtistDescription`.
pub struct ArtistDescriptionView {
    pub id: Seq<char>,
    pub name: Seq<char>,
    pub photo: Option<ImageSetView>,
    pub albums: Seq<AlbumDescriptionView>,
    pub top_tracks: Seq<SongDescriptionView>,
    pub is_followed: bool,
}

impl DeepView for ArtistDescription {
    type V = ArtistDescriptionView;

    open spec fn deep_view(&self) -> ArtistDescriptionView {
        ArtistDescriptionView {
            id: self.id@,
            name: self.name@,
            photo: self.photo.deep_view(),
            albums: self.albums.deep_view(),
            top_tracks: self.top_tracks.deep_view(),
            is_followed: self.is_followed,
        }
    }
}

impl Clone for ArtistDescription {
    fn clone(&self) -> (r: Self)
        ensures
            r.deep_view() == self.deep_view(),
    {
        ArtistDescription {
            id: self.id.clone(),
            name: self.name.clone(),
            photo: self.photo.clone(),
            albums: self.albums.clone(),
            top_tracks: self.top_tracks.clone(),
            is_followed: self.is_followed,
        }
    }
}

/// A user with playlists.
#[derive(Debug, PartialEq, Eq)]
pub struct UserDescription {
    pub id: String,
    pub name: String,
    pub photo: Option<ImageSet>,
    pub playlists: Vec<PlaylistDescription>,
}

/// The contents of an `UserDescription`.
pub struct UserDescriptionView {
    pub id: Seq<char>,
    pub name: Seq<char>,
    pub photo: Option<ImageSetView>,
    pub playlists: Seq<PlaylistDescriptionView>,
}

impl DeepView for UserDescription {
    type V = UserDescriptionView;

    open spec fn deep_view(&self) -> UserDescriptionView {
        UserDescriptionView {
            id: self.id@,
            name: self.name@,
            photo: self.photo.deep_view(),
            playlists: self.playlists.deep_view(),
        }
    }
}

impl Clone for UserDescription {
    fn clone(&self) -> (r: Self)
        ensures
            r.deep_view() == self.deep_view(),
    {
        UserDescription {
            id: self.id.clone(),
            name: self.name.clone(),
            photo: self.photo.clone(),
            playlists: self.playlists.clone(),
        }
    }
}

/// The logged-in user.
#[derive(Debug, PartialEq, Eq)]
pub struct CurrentUser {
    pub id: String,
    pub display_name: String,
    pub image_url: Option<String>,
}

/// The contents of a `CurrentUser`.
pub struct CurrentUserView {
    pub id: Seq<char>,
    pub display_name: Seq<char>,
    pub image_url: Option<Seq<char>>,
}

impl DeepView for CurrentUser {
    type V = CurrentUserView;

    open spec fn deep_view(&self) -> CurrentUserView {
        CurrentUserView {
            id: self.id@,
            display_name: self.display_name@,
            image_url: self.image_url.deep_view(),
        }
    }
}

impl Clone for CurrentUser {
    fn clone(&self) -> (r: Self)
        ensures
            r.deep_view() == self.deep_view(),
    {
        CurrentUser {
            id: self.id.clone(),
            display_name: self.display_name.clone(),
            image_url: self.image_url.clone(),
        }
    }
}

/// What a search found.
#[derive(Debug, PartialEq, Eq)]
pub struct SearchResults {
    pub albums: Vec<AlbumDescription>,
    pub artists: Vec<ArtistSummary>,
    pub tracks: SongBatch,
    pub playlists: Vec<PlaylistDescription>,
}

/// The contents of a `SearchResults`.
pub struct SearchResultsView {
    pub albums: Seq<AlbumDescriptionView>,
    pub artists: Seq<ArtistSummaryView>,
    pub tracks: SongBatchView,
    pub playlists: Seq<PlaylistDescriptionView>,
}

impl DeepView for SearchResults {
    type V = SearchResultsView;

    open spec fn deep_view(&self) -> SearchResultsView {
        SearchResultsView {
            albums: self.albums.deep_view(),
            artists: self.artists.deep_view(),
            tracks: self.tracks.deep_view(),
            playlists: self.playlists.deep_view(),
        }
    }
}

impl Clone for SearchResults {
    fn clone(&self) -> (r: Self)
        ensures
            r.deep_view() == self.deep_view(),
    {
        SearchResults {
            albums: self.albums.clone(),
            artists: self.artists.clone(),
            tracks: self.tracks.clone(),
            playlists: self.playlists.clone(),
        }
    }
}

/// What is repeated when a song ends.
#[derive(Clone, Copy, Debug, PartialEq, Eq, Structural)]
pub enum RepeatMode {
    Song,
    Playlist,
    Off,
}

/// What sort of device a remote player is.
#[derive(Clone, Copy, Debug, PartialEq, Eq, Structural)]
pub enum ConnectDeviceKind {
    Phone,
    Computer,
    Speaker,
    Other,
}

/// A remote player.
#[derive(Debug, PartialEq, Eq)]
pub struct ConnectDevice {
    pub id: String,
    pub label: String,
    pub kind: ConnectDeviceKind,
}

/// The contents of a `ConnectDevice`.
pub struct ConnectDeviceView {
    pub id: Seq<char>,
    pub label: Seq<char>,
    pub kind: ConnectDeviceKind,
}

impl DeepView for ConnectDevice {
    type V = ConnectDeviceView;

    open spec fn deep_view(&self) -> ConnectDeviceView {
        ConnectDeviceView {
            id: self.id@,
            label: self.label@,
            kind: self.kind,
        }
    }
}

impl Clone for ConnectDevice {
    fn clone(&self) -> (r: Self)
        ensures
            r.deep_view() == self.deep_view(),
    {
        ConnectDevice {
            id: self.id.clone(),
            label: self.label.clone(),
            kind: self.kind,
        }
    }
}

/// What a remote player reports of itself.
#[derive(Debug, PartialEq, Eq)]
pub struct ConnectPlayerState {
    pub is_playing: bool,
    pub progress_ms: u32,
    pub repeat: RepeatMode,
    pub shuffle: bool,
    pub current_song_id: Option<String>,
}

/// The contents of a `ConnectPlayerState`.
pub struct ConnectPlayerStateView {
    pub is_playing: bool,
    pub progress_ms: u32,
    pub repeat: RepeatMode,
    pub shuffle: bool,
    pub current_song_id: Option<Seq<char>>,
}

impl DeepView for ConnectPlayerState {
    type V = ConnectPlayerStateView;

    open spec fn deep_view(&self) -> ConnectPlayerStateView {
        ConnectPlayerStateView {
            is_playing: self.is_playing,
            progress_ms: self.progress_ms,
            repeat: self.repeat,
            shuffle: self.shuffle,
            current_song_id: self.current_song_id.deep_view(),
        }
    }
}

impl Clone for ConnectPlayerState {
    fn clone(&self) -> (r: Self)
        ensures
            r.deep_view() == self.deep_view(),
    {
        ConnectPlayerState {
            is_playing: self.is_playing,
            progress_ms: self.progress_ms,
            repeat: self.repeat,
            shuffle: self.shuffle,
            current_song_id: self.current_song_id.clone(),
        }
    }
}

/// What is playing on another device.
#[derive(Debug, PartialEq, Eq)]
pub struct RemotePlayback {
    pub device: ConnectDevice,
    pub song: SongDescription,
    pub is_playing: bool,
    pub progress_ms: u32,
    pub context_uri: Option<String>,
}

/// The contents of a `RemotePlayback`.
pub struct RemotePlaybackView {
    pub device: ConnectDeviceView,
    pub song: SongDescriptionView,
    pub is_playing: bool,
    pub progress_ms: u32,
    pub context_uri: Option<Seq<char>>,
}

impl DeepView for RemotePlayback {
    type V = RemotePlaybackView;

    open spec fn deep_view(&self) -> RemotePlaybackView {
        RemotePlaybackView {
            device: self.device.deep_view(),
            song: self.song.deep_view(),
            is_playing: self.is_playing,
            progress_ms: self.progress_ms,
            context_uri: self.context_uri.deep_view(),
        }
    }
}

impl Clone for RemotePlayback {
    fn clone(&self) -> (r: Self)
        ensures
            r.deep_view() == self.deep_view(),
    {
        RemotePlayback {
            device: self.device.clone(),
            song: self.song.clone(),
            is_playing: self.is_playing,
            progress_ms: self.progress_ms,
            context_uri: self.context_uri.clone(),
        }
    }
}

/// What a recently played context is.
#[derive(Clone, Copy, Debug, PartialEq, Eq, Structural)]
pub enum JumpBackKind {
    Album,
    Playlist,
}

/// Something that was listened to lately and can be gone back to.
#[derive(Debug, PartialEq, Eq)]
pub struct JumpBackContext {
    pub id: String,
    pub kind: JumpBackKind,
    pub title: String,
    pub subtitle: String,
    pub art: Option<ImageSet>,
}

/// The contents of a `JumpBackContext`.
pub struct JumpBackContextView {
    pub id: Seq<char>,
    pub kind: JumpBackKind,
    pub title: Seq<char>,
    pub subtitle: Seq<char>,
    pub art: Option<ImageSetView>,
}

impl DeepView for JumpBackContext {
    type V = JumpBackContextView;

    open spec fn deep_view(&self) -> JumpBackContextView {
        JumpBackContextView {
            id: self.id@,
            kind: self.kind,
            title: self.title@,
            subtitle: self.subtitle@,
            art: self.art.deep_view(),
        }
    }
}

impl Clone for JumpBackContext {
    fn clone(&self) -> (r: Self)
        ensures
            r.deep_view() == self.deep_view(),
    {
        JumpBackContext {
            id: self.id.clone(),
            kind: self.kind,
            title: self.title.clone(),
            subtitle: self.subtitle.clone(),
            art: self.art.clone(),
        }
    }
}

/// How a song row is presented.
#[derive(Clone, Copy, Debug, PartialEq, Eq, Structural)]
pub struct SongState {
    pub is_selected: bool,
    pub is_playing: bool,
    pub is_liked: bool,
}

// ── Pictures ───────────────────────────────────────────────────────────────

/// How badly a picture of the given width suits a place of width `wanted`: one
/// that is wide enough is better than one that is not, a width closer to the
/// wanted one is better than one further off, and a known width is better than
/// an unknown one.
pub open spec fn misfit(width: Option<u32>, wanted: u32) -> int {
    match width {
        Some(w) => if w >= wanted {
            w - wanted
        } else {
            0x1_0000_0000 + (wanted - w)
        },
        None => 0x2_0000_0000,
    }
}

/// `k` is the first of the pictures that suit a place of width `wanted` best.
pub open spec fn is_best_image(images: Seq<SizedImageView>, wanted: u32, k: int) -> bool {
    &&& 0 <= k < images.len()
    &&& forall|j: int|
        0 <= j < images.len() ==> misfit(images[k].width, wanted) <= misfit(
            #[trigger] images[j].width,
            wanted,
        )
    &&& forall|j: int|
        0 <= j < k ==> misfit(images[k].width, wanted) < misfit(
            #[trigger] images[j].width,
            wanted,
        )
}

/// The sizes of a picture, as pairs of width and address.
pub open spec fn image_pairs(pairs: Seq<(Option<u32>, String)>) -> Seq<SizedImageView> {
    pairs.map_values(|p: (Option<u32>, String)| SizedImageView { width: p.0, url: p.1@ })
}

impl ImageSet {
    /// The picture with the given sizes, or `None` if there are none.
    pub fn from_images(pairs: Vec<(Option<u32>, String)>) -> (r: Option<ImageSet>)
        ensures
            r.deep_view() == (if pairs@.len() == 0 {
                None::<ImageSetView>
            } else {
                Some(ImageSetView { images: image_pairs(pairs@) })
            }),
    {
        if pairs.is_empty() {
            return None;
        }
        let mut images: Vec<SizedImage> = Vec::new();
        let mut i: usize = 0;
        while i < pairs.len()
            invariant
                i <= pairs.len(),
                images.deep_view() =~= image_pairs(pairs@).take(i as int),
            decreases pairs.len() - i,
        {
            let ghost before = images;
            let image = SizedImage { width: pairs[i].0, url: pairs[i].1.clone() };
            images.push(image);
            proof {
                lists::lemma_deep_push(before, images, image);
                lists::lemma_take_push(image_pairs(pairs@), i as int);
            }
            i += 1;
        }
        assert(image_pairs(pairs@).take(pairs@.len() as int) =~= image_pairs(pairs@));
        Some(ImageSet { images })
    }

    /// The cost of the picture at `i` in a place of width `wanted`.
    fn misfit_at(&self, i: usize, wanted: u32) -> (r: u64)
        requires
            i < self.images@.len(),
        ensures
            r == misfit(self.deep_view().images[i as int].width, wanted),
    {
        match self.images[i].width {
            Some(w) => if w >= wanted {
                (w - wanted) as u64
            } else {
                0x1_0000_0000 + (wanted - w) as u64
            },
            None => 0x2_0000_0000,
        }
    }

    /// The address of the picture that suits a place of width `wanted` best, or
    /// `None` if the set is empty.
    pub fn best_for_width(&self, wanted: u32) -> (r: Option<&str>)
        ensures
            r is None <==> self.images@.len() == 0,
            r matches Some(url) ==> exists|k: int|
                is_best_image(self.deep_view().images, wanted, k) && url@
                    == #[trigger] self.deep_view().images[k].url,
    {
        if self.images.is_empty() {
            return None;
        }
        let mut best: usize = 0;
        let mut i: usize = 1;
        let ghost views = self.deep_view().images;
        while i < self.images.len()
            invariant
                1 <= i <= self.images.len(),
                best < i,
                views == self.deep_view().images,
                forall|j: int|
                    0 <= j < i ==> misfit(views[best as int].width, wanted) <= misfit(
                        #[trigger] views[j].width,
                        wanted,
                    ),
                forall|j: int|
                    0 <= j < best ==> misfit(views[best as int].width, wanted) < misfit(
                        #[trigger] views[j].width,
                        wanted,
                    ),
            decreases self.images.len() - i,
        {
            if self.misfit_at(i, wanted) < self.misfit_at(best, wanted) {
                best = i;
            }
            i += 1;
        }
        assert(is_best_image(views, wanted, best as int));
        assert(views[best as int].url == self.images@[best as int].url@);
        Some(self.images[best].url.as_str())
    }
}

/// Of all pictures in a set exactly one suits a given width best.
pub proof fn lemma_best_image_unique(images: Seq<SizedImageView>, wanted: u32, j: int, k: int)
    requires
        is_best_image(images, wanted, j),
        is_best_image(images, wanted, k),
    ensures
        j == k,
{
    assert(misfit(images[j].width, wanted) <= misfit(images[k].width, wanted));
    assert(misfit(images[k].width, wanted) <= misfit(images[j].width, wanted));
}

/// The address that a place of width `wanted` shows of an optional picture.
pub open spec fn best_url(art: Option<ImageSetView>, wanted: u32) -> Option<Seq<char>> {
    match art {
        Some(set) => if set.images.len() == 0 {
            None
        } else {
            Some(set.images[choose|k: int| is_best_image(set.images, wanted, k)].url)
        },
        None => None,
    }
}

/// The address that a place of width `wanted` shows of an optional picture.
pub fn art_url(art: &Option<ImageSet>, wanted: u32) -> (r: Option<String>)
    ensures
        r.deep_view() == best_url(art.deep_view(), wanted),
{
    match art {
        Some(set) => match set.best_for_width(wanted) {
            Some(url) => {
                proof {
                    let images = set.deep_view().images;
                    let k = choose|k: int|
                        is_best_image(images, wanted, k) && url@ == #[trigger] images[k].url;
                    let c = choose|k: int| is_best_image(images, wanted, k);
                    lemma_best_image_unique(images, wanted, k, c);
                }
                Some(url.to_string())
            },
            None => None,
        },
        None => None,
    }
}

// ── Names ──────────────────────────────────────────────────────────────────

/// The names of the artists, in order.
pub open spec fn artist_names(artists: Seq<ArtistRefView>) -> Seq<Seq<char>> {
    artists.map_values(|a: ArtistRefView| a.name)
}

/// The names of the artists with a comma between each two.
pub open spec fn artists_line(artists: Seq<ArtistRefView>) -> Seq<char> {
    text::joined(artist_names(artists), ", "@)
}

/// The names of the artists with a comma between each two.
pub fn join_artist_names(artists: &Vec<ArtistRef>) -> (r: String)
    ensures
        r@ == artists_line(artists.deep_view()),
{
    let mut names: Vec<String> = Vec::new();
    let mut i: usize = 0;
    while i < artists.len()
        invariant
            i <= artists.len(),
            names.deep_view() =~= artist_names(artists.deep_view()).take(i as int),
        decreases artists.len() - i,
    {
        let ghost before = names;
        let name: String = artists[i].name.clone();
        names.push(name);
        proof {
            lists::lemma_deep_push(before, names, name);
            lists::lemma_take_push(artist_names(artists.deep_view()), i as int);
        }
        i += 1;
    }
    assert(names.deep_view() =~= artist_names(artists.deep_view()));
    join(&names, ", ")
}

impl SongDescription {
    /// The names of the song's artists.
    pub fn artists_name(&self) -> (r: String)
        ensures
            r@ == artists_line(self.deep_view().artists),
    {
        join_artist_names(&self.artists)
    }
}

impl AlbumDescription {
    /// The names of the album's artists.
    pub fn artists_name(&self) -> (r: String)
        ensures
            r@ == artists_line(self.deep_view().artists),
    {
        join_artist_names(&self.artists)
    }
}

impl SongBatch {
    /// No songs, of a list of unknown length.
    pub fn empty() -> (r: SongBatch)
        ensures
            r.deep_view() == spec_empty_batch(),
    {
        let r = SongBatch { songs: Vec::new(), batch: Batch { offset: 0, batch_size: 1, total: 0 } };
        assert(r.deep_view().songs =~= Seq::<SongDescriptionView>::empty());
        r
    }
}

/// No songs, of a list of unknown length.
pub open spec fn spec_empty_batch() -> SongBatchView {
    SongBatchView {
        songs: Seq::empty(),
        batch: Batch { offset: 0, batch_size: 1, total: 0 },
    }
}

impl From<PlaylistDescription> for PlaylistSummary {
    fn from(playlist: PlaylistDescription) -> (r: PlaylistSummary) {
        PlaylistSummary { id: playlist.id, title: playlist.title }
    }
}

impl vstd::std_specs::convert::FromSpecImpl<PlaylistDescription> for PlaylistSummary {
    open spec fn obeys_from_spec() -> bool {
        true
    }

    open spec fn from_spec(playlist: PlaylistDescription) -> PlaylistSummary {
        PlaylistSummary { id: playlist.id, title: playlist.title }
    }
}

/// The position of the song with the given id, or `None` if there is none.
pub fn find_song(songs: &Vec<SongDescription>, id: &str) -> (r: Option<usize>)
    ensures
        match r {
            Some(i) => i < songs@.len() && songs@[i as int].id@ == id@ && forall|j: int|
                0 <= j < i ==> songs@[j].id@ != id@,
            None => forall|j: int| 0 <= j < songs@.len() ==> songs@[j].id@ != id@,
        },
{
    let mut i: usize = 0;
    while i < songs.len()
        invariant
            i <= songs.len(),
            forall|j: int| 0 <= j < i ==> songs@[j].id@ != id@,
        decreases songs.len() - i,
    {
        if str_eq(songs[i].id.as_str(), id) {
            return Some(i);
        }
        i += 1;
    }
    None
}

// ── Laws ───────────────────────────────────────────────────────────────────

/// The picture that is chosen for a place is wide enough if any is, and then none
/// that is wide enough is narrower; if none is wide enough, none of known width is
/// wider. A picture of unknown width is chosen only if there is no other.
pub proof fn law_best_picture_fits(
    images: Seq<SizedImageView>,
    wanted: u32,
    k: int,
    j: int,
)
    requires
        is_best_image(images, wanted, k),
        0 <= j < images.len(),
        images[j].width is Some,
    ensures
        images[k].width is Some,
        images[j].width->0 >= wanted ==> wanted <= images[k].width->0 <= images[j].width->0,
        images[j].width->0 < wanted && images[k].width->0 < wanted ==> images[k].width->0
            >= images[j].width->0,
        images[k].width == images[j].width ==> k <= j,
{
    assert(misfit(images[k].width, wanted) <= misfit(images[j].width, wanted));
    if j < k {
        assert(misfit(images[k].width, wanted) < misfit(images[j].width, wanted));
    }
}

/// A place shows the address of the best picture, whichever the set holds.
pub proof fn law_place_shows_the_best_picture(set: ImageSetView, wanted: u32, k: int)
    requires
        is_best_image(set.images, wanted, k),
    ensures
        best_url(Some(set), wanted) == Some(set.images[k].url),
        best_url(None, wanted) is None,
{
    let c = choose|c: int| is_best_image(set.images, wanted, c);
    lemma_best_image_unique(set.images, wanted, k, c);
}

/// Artists are named in order, with a comma and a space between each two.
pub proof fn law_artists_are_named_in_order(
    first: ArtistRefView,
    others: Seq<ArtistRefView>,
    more: Seq<ArtistRefView>,
)
    ensures
        artists_line(Seq::empty()).len() == 0,
        artists_line(seq![first]) == first.name,
        artists_line(seq![first] + others.push(first)) == artists_line(seq![first]) + ", "@
            + artists_line(others.push(first)),
        others.len() > 0 && more.len() > 0 ==> artists_line(others + more) == artists_line(others)
            + ", "@ + artists_line(more),
{
    assert(artist_names(Seq::empty()) =~= Seq::<Seq<char>>::empty());
    assert(artist_names(seq![first]) =~= seq![first.name]);
    let rest = others.push(first);
    assert(artist_names(seq![first] + rest) =~= artist_names(seq![first]) + artist_names(rest));
    text::law_join_of_two_lists(artist_names(seq![first]), artist_names(rest), ", "@);
    if others.len() > 0 && more.len() > 0 {
        assert(artist_names(others + more) =~= artist_names(others) + artist_names(more));
        text::law_join_of_two_lists(artist_names(others), artist_names(more), ", "@);
    }
}

/// The view of an `ArtistRef` holds its parts, each under its own name.
pub proof fn law_view_of_artist_ref(value: ArtistRef)
    ensures
        value.deep_view().id == value.id@,
        value.deep_view().name == value.name@,
{
}

/// The view of an `AlbumRef` holds its parts, each under its own name.
pub proof fn law_view_of_album_ref(value: AlbumRef)
    ensures
        value.deep_view().id == value.id@,
        value.deep_view().name == value.name@,
{
}

/// The view of a `UserRef` holds its parts, each under its own name.
pub proof fn law_view_of_user_ref(value: UserRef)
    ensures
        value.deep_view().id == value.id@,
        value.deep_view().display_name == value.display_name@,
{
}

/// The view of a `SizedImage` holds its parts, each under its own name.
pub proof fn law_view_of_sized_image(value: SizedImage)
    ensures
        value.deep_view().width == value.width,
        value.deep_view().url == value.url@,
{
}

/// The view of an `ImageSet` holds its parts, each under its own name.
pub proof fn law_view_of_image_set(value: ImageSet)
    ensures
        value.deep_view().images == value.images.deep_view(),
{
}

/// The view of a `SongDescription` holds its parts, each under its own name.
pub proof fn law_view_of_song_description(value: SongDescription)
    ensures
        value.deep_view().id == value.id@,
        value.deep_view().uri == value.uri@,
        value.deep_view().title == value.title@,
        value.deep_view().artists == value.artists.deep_view(),
        value.deep_view().album == value.album.deep_view(),
        value.deep_view().duration_ms == value.duration_ms,
        value.deep_view().art == value.art.deep_view(),
        value.deep_view().track_number == value.track_number,
{
}

/// The view of a `SongBatch` holds its parts, each under its own name.
pub proof fn law_view_of_song_batch(value: SongBatch)
    ensures
        value.deep_view().songs == value.songs.deep_view(),
        value.deep_view().batch == value.batch,
{
}

/// The view of an `AlbumDescription` holds its parts, each under its own name.
pub proof fn law_view_of_album_description(value: AlbumDescription)
    ensures
        value.deep_view().id == value.id@,
        value.deep_view().title == value.title@,
        value.deep_view().artists == value.artists.deep_view(),
        value.deep_view().release_date == value.release_date.deep_view(),
        value.deep_view().art == value.art.deep_view(),
        value.deep_view().songs == value.songs.deep_view(),
        value.deep_view().is_liked == value.is_liked,
        value.deep_view().popularity == value.popularity,
{
}

/// The view of an `AlbumReleaseDetails` holds its parts, each under its own name.
pub proof fn law_view_of_album_release_details(value: AlbumReleaseDetails)
    ensures
        value.deep_view().label == value.label@,
        value.deep_view().copyright_text == value.copyright_text@,
        value.deep_view().total_tracks == value.total_tracks,
{
}

/// The view of an `AlbumFullDescription` holds its parts, each under its own name.
pub proof fn law_view_of_album_full_description(value: AlbumFullDescription)
    ensures
        value.deep_view().description == value.description.deep_view(),
        value.deep_view().release_details == value.release_details.deep_view(),
{
}

/// The view of a `PlaylistDescription` holds its parts, each under its own name.
pub proof fn law_view_of_playlist_description(value: PlaylistDescription)
    ensures
        value.deep_view().id == value.id@,
        value.deep_view().title == value.title@,
        value.deep_view().art == value.art.deep_view(),
        value.deep_view().songs == value.songs.deep_view(),
        value.deep_view().owner == value.owner.deep_view(),
        value.deep_view().snapshot_id == value.snapshot_id.deep_view(),
{
}

/// The view of a `PlaylistSummary` holds its parts, each under its own name.
pub proof fn law_view_of_playlist_summary(value: PlaylistSummary)
    ensures
        value.deep_view().id == value.id@,
        value.deep_view().title == value.title@,
{
}

/// The view of an `ArtistSummary` holds its parts, each under its own name.
pub proof fn law_view_of_artist_summary(value: ArtistSummary)
    ensures
        value.deep_view().id == value.id@,
        value.deep_view().name == value.name@,
        value.deep_view().photo == value.photo.deep_view(),
        value.deep_view().popularity == value.popularity,
{
}

/// The view of an `ArtistDescription` holds its parts, each under its own name.
pub proof fn law_view_of_artist_description(value: ArtistDescription)
    ensures
        value.deep_view().id == value.id@,
        value.deep_view().name == value.name@,
        value.deep_view().photo == value.photo.deep_view(),
        value.deep_view().albums == value.albums.deep_view(),
        value.deep_view().top_tracks == value.top_tracks.deep_view(),
        value.deep_view().is_followed == value.is_followed,
{
}

/// The view of a `UserDescription` holds its parts, each under its own name.
pub proof fn law_view_of_user_description(value: UserDescription)
    ensures
        value.deep_view().id == value.id@,
        value.deep_view().name == value.name@,
        value.deep_view().photo == value.photo.deep_view(),
        value.deep_view().playlists == value.playlists.deep_view(),
{
}

/// The view of a `CurrentUser` holds its parts, each under its own name.
pub proof fn law_view_of_current_user(value: CurrentUser)
    ensures
        value.deep_view().id == value.id@,
        value.deep_view().display_name == value.display_name@,
        value.deep_view().image_url == value.image_url.deep_view(),
{
}

/// The view of a `SearchResults` holds its parts, each under its own name.
pub proof fn law_view_of_search_results(value: SearchResults)
    ensures
        value.deep_view().albums == value.albums.deep_view(),
        value.deep_view().artists == value.artists.deep_view(),
        value.deep_view().tracks == value.tracks.deep_view(),
        value.deep_view().playlists == value.playlists.deep_view(),
{
}

/// The view of a `ConnectDevice` holds its parts, each under its own name.
pub proof fn law_view_of_connect_device(value: ConnectDevice)
    ensures
        value.deep_view().id == value.id@,
        value.deep_view().label == value.label@,
        value.deep_view().kind == value.kind,
{
}

/// The view of a `ConnectPlayerState` holds its parts, each under its own name.
pub proof fn law_view_of_connect_player_state(value: ConnectPlayerState)
    ensures
        value.deep_view().is_playing == value.is_playing,
        value.deep_view().progress_ms == value.progress_ms,
        value.deep_view().repeat == value.repeat,
        value.deep_view().shuffle == value.shuffle,
        value.deep_view().current_song_id == value.current_song_id.deep_view(),
{
}

/// The view of a `RemotePlayback` holds its parts, each under its own name.
pub proof fn law_view_of_remote_playback(value: RemotePlayback)
    ensures
        value.deep_view().device == value.device.deep_view(),
        value.deep_view().song == value.song.deep_view(),
        value.deep_view().is_playing == value.is_playing,
        value.deep_view().progress_ms == value.progress_ms,
        value.deep_view().context_uri == value.context_uri.deep_view(),
{
}

/// The view of a `JumpBackContext` holds its parts, each under its own name.
pub proof fn law_view_of_jump_back_context(value: JumpBackContext)
    ensures
        value.deep_view().id == value.id@,
        value.deep_view().kind == value.kind,
        value.deep_view().title == value.title@,
        value.deep_view().subtitle == value.subtitle@,
        value.deep_view().art == value.art.deep_view(),
{
}

/// An empty list has no songs and a page size that can be counted with.
pub proof fn law_empty_list_has_no_songs(pairs: Seq<(Option<u32>, String)>, k: int)
    requires
        0 <= k < pairs.len(),
    ensures
        spec_empty_batch().songs.len() == 0,
        spec_empty_batch().batch.offset == 0,
        spec_empty_batch().batch.batch_size == 1,
        spec_empty_batch().batch.total == 0,
        image_pairs(pairs).len() == pairs.len(),
        image_pairs(pairs)[k].width == pairs[k].0,
        image_pairs(pairs)[k].url == pairs[k].1@,
{
}

} // verus!

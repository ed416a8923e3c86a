//! What is asked of the players: the one on this device and those elsewhere.

use vstd::prelude::*;

use crate::actions::{SongsSource, SongsSourceView, Volume};
use crate::models::RepeatMode;
use crate::spotify_id::TrackUri;

verus! {

/// Something that the player on this device is to do. What begins with `Spirc` goes
/// through the session that other devices see.
#[derive(Debug, PartialEq, Eq)]
pub enum Command {
    Restore,
    InitLogin,
    CompleteLogin,
    RefreshToken,
    Logout,
    PlayerPause,
    PlayerResume,
    PlayerStop,
    PlayerSetVolume(Volume),
    PlayerLoad { track: TrackUri, resume: bool },
    PlayerSeek(u32),
    PlayerPreload(TrackUri),
    /// Play a context from one of its tracks on; without a session, play that track.
    SpircLoadContext { context_uri: String, context_offset: usize, playing_track_uri: Option<String>, start_playing: bool, fallback: TrackUri },
    /// Play tracks from one of them on; without a session, play that one.
    SpircLoadTracks { uris: Vec<String>, track_offset: usize, start_playing: bool, fallback: TrackUri },
    SpircPlay,
    SpircPause,
    SpircSeek(u32),
    SpircSetVolume(Volume),
    SpircNext,
    SpircPrev,
    /// Whether what is playing here was started here.
    SetLocalOwnsPlayer(bool),
    StartRadio { seed_id: String },
    ReloadSettings,
    /// Mix both channels into one.
    SetMono(bool),
    /// The balance between left and right, by the bits of the number.
    SetPan(u64),
    /// The shift of the pitch in cents, by the bits of the number.
    SetPitch(u64),
    /// The gain of each band, by the bits of the numbers.
    SetEqualizer([u64; 10]),
}

/// The contents of a `Command`.
pub enum CommandView {
    Restore,
    InitLogin,
    CompleteLogin,
    RefreshToken,
    Logout,
    PlayerPause,
    PlayerResume,
    PlayerStop,
    PlayerSetVolume(Volume),
    PlayerLoad { track: TrackUri, resume: bool },
    PlayerSeek(u32),
    PlayerPreload(TrackUri),
    SpircLoadContext { context_uri: Seq<char>, context_offset: usize, playing_track_uri: Option<Seq<char>>, start_playing: bool, fallback: TrackUri },
    SpircLoadTracks { uris: Seq<Seq<char>>, track_offset: usize, start_playing: bool, fallback: TrackUri },
    SpircPlay,
    SpircPause,
    SpircSeek(u32),
    SpircSetVolume(Volume),
    SpircNext,
    SpircPrev,
    SetLocalOwnsPlayer(bool),
    StartRadio { seed_id: Seq<char> },
    ReloadSettings,
    SetMono(bool),
    SetPan(u64),
    SetPitch(u64),
    SetEqualizer([u64; 10]),
}

impl DeepView for Command {
    type V = CommandView;

    open spec fn deep_view(&self) -> CommandView {
        match self {
            Command::Restore => CommandView::Restore,
            Command::InitLogin => CommandView::InitLogin,
            Command::CompleteLogin => CommandView::CompleteLogin,
            Command::RefreshToken => CommandView::RefreshToken,
            Command::Logout => CommandView::Logout,
            Command::PlayerPause => CommandView::PlayerPause,
            Command::PlayerResume => CommandView::PlayerResume,
            Command::PlayerStop => CommandView::PlayerStop,
            Command::PlayerSetVolume(x) => CommandView::PlayerSetVolume(*x),
            Command::PlayerLoad { track, resume } => CommandView::PlayerLoad { track: *track, resume: *resume },
            Command::PlayerSeek(x) => CommandView::PlayerSeek(*x),
            Command::PlayerPreload(x) => CommandView::PlayerPreload(*x),
            Command::SpircLoadContext { context_uri, context_offset, playing_track_uri, start_playing, fallback } => CommandView::SpircLoadContext { context_uri: context_uri@, context_offset: *context_offset, playing_track_uri: playing_track_uri.deep_view(), start_playing: *start_playing, fallback: *fallback },
            Command::SpircLoadTracks { uris, track_offset, start_playing, fallback } => CommandView::SpircLoadTracks { uris: uris.deep_view(), track_offset: *track_offset, start_playing: *start_playing, fallback: *fallback },
            Command::SpircPlay => CommandView::SpircPlay,
            Command::SpircPause => CommandView::SpircPause,
            Command::SpircSeek(x) => CommandView::SpircSeek(*x),
            Command::SpircSetVolume(x) => CommandView::SpircSetVolume(*x),
            Command::SpircNext => CommandView::SpircNext,
            Command::SpircPrev => CommandView::SpircPrev,
            Command::SetLocalOwnsPlayer(x) => CommandView::SetLocalOwnsPlayer(*x),
            Command::StartRadio { seed_id } => CommandView::StartRadio { seed_id: seed_id@ },
            Command::ReloadSettings => CommandView::ReloadSettings,
            Command::SetMono(x) => CommandView::SetMono(*x),
            Command::SetPan(x) => CommandView::SetPan(*x),
            Command::SetPitch(x) => CommandView::SetPitch(*x),
            Command::SetEqualizer(x) => CommandView::SetEqualizer(*x),
        }
    }
}

/// Something that the player on another device is to do.
#[derive(Debug, PartialEq, Eq)]
pub enum ConnectCommand {
    PlayerLoadInContext { source: SongsSource, context_offset: usize, song: String },
    PlayerLoad { songs: Vec<String>, song_offset: usize },
    PlayerSeek(usize),
    PlayerPause,
    PlayerResume,
    PlayerStop,
    PlayerSetVolume(u8),
    PlayerRepeat(RepeatMode),
    PlayerShuffle(bool),
    SetDevice(String),
    /// Whether to follow what plays elsewhere.
    SetRemoteMirrorActive(bool),
    /// Whether to watch for another device taking over.
    SetTakeoverWatchActive(bool),
}

/// The contents of a `ConnectCommand`.
pub enum ConnectCommandView {
    PlayerLoadInContext { source: SongsSourceView, context_offset: usize, song: Seq<char> },
    PlayerLoad { songs: Seq<Seq<char>>, song_offset: usize },
    PlayerSeek(usize),
    PlayerPause,
    PlayerResume,
    PlayerStop,
    PlayerSetVolume(u8),
    PlayerRepeat(RepeatMode),
    PlayerShuffle(bool),
    SetDevice(Seq<char>),
    SetRemoteMirrorActive(bool),
    SetTakeoverWatchActive(bool),
}

impl DeepView for ConnectCommand {
    type V = ConnectCommandView;

    open spec fn deep_view(&self) -> ConnectCommandView {
        match self {
            ConnectCommand::PlayerLoadInContext { source, context_offset, song } => ConnectCommandView::PlayerLoadInContext { source: source.deep_view(), context_offset: *context_offset, song: song@ },
            ConnectCommand::PlayerLoad { songs, song_offset } => ConnectCommandView::PlayerLoad { songs: songs.deep_view(), song_offset: *song_offset },
            ConnectCommand::PlayerSeek(x) => ConnectCommandView::PlayerSeek(*x),
            ConnectCommand::PlayerPause => ConnectCommandView::PlayerPause,
            ConnectCommand::PlayerResume => ConnectCommandView::PlayerResume,
            ConnectCommand::PlayerStop => ConnectCommandView::PlayerStop,
            ConnectCommand::PlayerSetVolume(x) => ConnectCommandView::PlayerSetVolume(*x),
            ConnectCommand::PlayerRepeat(x) => ConnectCommandView::PlayerRepeat(*x),
            ConnectCommand::PlayerShuffle(x) => ConnectCommandView::PlayerShuffle(*x),
            ConnectCommand::SetDevice(x) => ConnectCommandView::SetDevice(x@),
            ConnectCommand::SetRemoteMirrorActive(x) => ConnectCommandView::SetRemoteMirrorActive(*x),
            ConnectCommand::SetTakeoverWatchActive(x) => ConnectCommandView::SetTakeoverWatchActive(*x),
        }
    }
}

/// The view of a `Command` is of the same kind and holds the same parts.
pub proof fn law_view_of_command(value: Command)
    ensures
        value is Restore ==> value.deep_view() == CommandView::Restore,
        value is InitLogin ==> value.deep_view() == CommandView::InitLogin,
        value is CompleteLogin ==> value.deep_view() == CommandView::CompleteLogin,
        value is RefreshToken ==> value.deep_view() == CommandView::RefreshToken,
        value is Logout ==> value.deep_view() == CommandView::Logout,
        value is PlayerPause ==> value.deep_view() == CommandView::PlayerPause,
        value is PlayerResume ==> value.deep_view() == CommandView::PlayerResume,
        value is PlayerStop ==> value.deep_view() == CommandView::PlayerStop,
        value matches Command::PlayerSetVolume(x) ==> value.deep_view() == CommandView::PlayerSetVolume(x),
        value matches Command::PlayerLoad { track, resume } ==> value.deep_view() == (CommandView::PlayerLoad { track: track, resume: resume }),
        value matches Command::PlayerSeek(x) ==> value.deep_view() == CommandView::PlayerSeek(x),
        value matches Command::PlayerPreload(x) ==> value.deep_view() == CommandView::PlayerPreload(x),
        value matches Command::SpircLoadContext { context_uri, context_offset, playing_track_uri, start_playing, fallback } ==> value.deep_view() == (CommandView::SpircLoadContext { context_uri: context_uri@, context_offset: context_offset, playing_track_uri: playing_track_uri.deep_view(), start_playing: start_playing, fallback: fallback }),
        value matches Command::SpircLoadTracks { uris, track_offset, start_playing, fallback } ==> value.deep_view() == (CommandView::SpircLoadTracks { uris: uris.deep_view(), track_offset: track_offset, start_playing: start_playing, fallback: fallback }),
        value is SpircPlay ==> value.deep_view() == CommandView::SpircPlay,
        value is SpircPause ==> value.deep_view() == CommandView::SpircPause,
        value matches Command::SpircSeek(x) ==> value.deep_view() == CommandView::SpircSeek(x),
        value matches Command::SpircSetVolume(x) ==> value.deep_view() == CommandView::SpircSetVolume(x),
        value is SpircNext ==> value.deep_view() == CommandView::SpircNext,
        value is SpircPrev ==> value.deep_view() == CommandView::SpircPrev,
        value matches Command::SetLocalOwnsPlayer(x) ==> value.deep_view() == CommandView::SetLocalOwnsPlayer(x),
        value matches Command::StartRadio { seed_id } ==> value.deep_view() == (CommandView::StartRadio { seed_id: seed_id@ }),
        value is ReloadSettings ==> value.deep_view() == CommandView::ReloadSettings,
        value matches Command::SetMono(x) ==> value.deep_view() == CommandView::SetMono(x),
        value matches Command::SetPan(x) ==> value.deep_view() == CommandView::SetPan(x),
        value matches Command::SetPitch(x) ==> value.deep_view() == CommandView::SetPitch(x),
        value matches Command::SetEqualizer(x) ==> value.deep_view() == CommandView::SetEqualizer(x),
{
}

/// The view of a `ConnectCommand` is of the same kind and holds the same parts.
pub proof fn law_view_of_connect_command(value: ConnectCommand)
    ensures
        value matches ConnectCommand::PlayerLoadInContext { source, context_offset, song } ==> value.deep_view() == (ConnectCommandView::PlayerLoadInContext { source: source.deep_view(), context_offset: context_offset, song: song@ }),
        value matches ConnectCommand::PlayerLoad { songs, song_offset } ==> value.deep_view() == (ConnectCommandView::PlayerLoad { songs: songs.deep_view(), song_offset: song_offset }),
        value matches ConnectCommand::PlayerSeek(x) ==> value.deep_view() == ConnectCommandView::PlayerSeek(x),
        value is PlayerPause ==> value.deep_view() == ConnectCommandView::PlayerPause,
        value is PlayerResume ==> value.deep_view() == ConnectCommandView::PlayerResume,
        value is PlayerStop ==> value.deep_view() == ConnectCommandView::PlayerStop,
        value matches ConnectCommand::PlayerSetVolume(x) ==> value.deep_view() == ConnectCommandView::PlayerSetVolume(x),
        value matches ConnectCommand::PlayerRepeat(x) ==> value.deep_view() == ConnectCommandView::PlayerRepeat(x),
        value matches ConnectCommand::PlayerShuffle(x) ==> value.deep_view() == ConnectCommandView::PlayerShuffle(x),
        value matches ConnectCommand::SetDevice(x) ==> value.deep_view() == ConnectCommandView::SetDevice(x@),
        value matches ConnectCommand::SetRemoteMirrorActive(x) ==> value.deep_view() == ConnectCommandView::SetRemoteMirrorActive(x),
        value matches ConnectCommand::SetTakeoverWatchActive(x) ==> value.deep_view() == ConnectCommandView::SetTakeoverWatchActive(x),
{
}

} // verus!

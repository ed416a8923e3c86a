//! The buttons that start, stop and skip. While playback elsewhere is followed
//! they act on the device that plays, otherwise on this one.

use vstd::prelude::*;

use crate::actions;
use crate::actions::{
    ActionDispatcher, ApiCall, ApiCallView, AppAction, EffectView, PlaybackAction,
    PlaybackActionView, Volume,
};
use crate::models::{RemotePlayback, RemotePlaybackView};
use crate::state::PlaybackState;

verus! {

/// A button that was pressed.
#[derive(Clone, Copy, Debug, PartialEq, Eq, Structural)]
pub enum Transport {
    Next,
    Previous,
    Toggle,
    /// Go to this place, in milliseconds.
    SeekTo(u32),
    SetVolume(Volume),
}

/// What plays elsewhere, if it is followed.
pub open spec fn mirrored(p: PlaybackState) -> Option<RemotePlayback> {
    if p.is_mirroring_remote {
        p.remote
    } else {
        None
    }
}

/// What plays elsewhere, if it is followed.
pub fn mirrored_remote(p: &PlaybackState) -> (r: Option<RemotePlayback>)
    ensures
        r.deep_view() == mirrored(*p).deep_view(),
{
    if p.is_mirroring_remote {
        p.remote.clone()
    } else {
        None
    }
}

/// What a button does to another device.
pub open spec fn remote_call(remote: RemotePlaybackView, button: Transport) -> ApiCallView {
    match button {
        Transport::Next => ApiCallView::PlayerNext(remote.device.id),
        Transport::Previous => ApiCallView::PlayerPrevious(remote.device.id),
        Transport::Toggle => if remote.is_playing {
            ApiCallView::PlayerPause(remote.device.id)
        } else {
            ApiCallView::PlayerResume(remote.device.id)
        },
        Transport::SeekTo(position) => ApiCallView::PlayerSeek {
            device_id: remote.device.id,
            position: position as usize,
        },
        Transport::SetVolume(volume) => ApiCallView::PlayerVolume {
            device_id: remote.device.id,
            percent: volume.percent,
        },
    }
}

/// What is shown of the other device before it has answered, if a button changes
/// it.
pub open spec fn foreseen(remote: RemotePlaybackView, button: Transport) -> Option<
    RemotePlaybackView,
> {
    match button {
        Transport::Toggle => Some(RemotePlaybackView { is_playing: !remote.is_playing, ..remote }),
        Transport::SeekTo(position) => Some(RemotePlaybackView { progress_ms: position, ..remote }),
        _ => None,
    }
}

/// What a button does to this device.
pub open spec fn local_action(button: Transport) -> PlaybackActionView {
    match button {
        Transport::Next => PlaybackActionView::Next,
        Transport::Previous => PlaybackActionView::Previous,
        Transport::Toggle => PlaybackActionView::TogglePlay,
        Transport::SeekTo(position) => PlaybackActionView::Seek(position),
        Transport::SetVolume(volume) => PlaybackActionView::SetVolume(volume),
    }
}

/// What a button wants done.
pub open spec fn press_effects(p: PlaybackState, button: Transport) -> Seq<EffectView> {
    match mirrored(p) {
        Some(remote) => (match foreseen(remote.deep_view(), button) {
            Some(next) => seq![actions::play(PlaybackActionView::SetRemotePlayback(Some(next)))],
            None => Seq::empty(),
        }) + seq![EffectView::Call(remote_call(remote.deep_view(), button))],
        None => seq![actions::play(local_action(button))],
    }
}

/// A button was pressed.
pub fn press(p: &PlaybackState, dispatcher: &mut ActionDispatcher, button: Transport)
    ensures
        final(dispatcher)@ == old(dispatcher)@ + press_effects(*p, button),
{
    match mirrored_remote(p) {
        None => {
            let action: PlaybackAction = match button {
                Transport::Next => PlaybackAction::Next,
                Transport::Previous => PlaybackAction::Previous,
                Transport::Toggle => PlaybackAction::TogglePlay,
                Transport::SeekTo(position) => PlaybackAction::Seek(position),
                Transport::SetVolume(volume) => PlaybackAction::SetVolume(volume),
            };
            dispatcher.dispatch(AppAction::PlaybackAction(action));
        },
        Some(remote) => {
            let id: String = remote.device.id.clone();
            let (call, next): (ApiCall, Option<RemotePlayback>) = match button {
                Transport::Next => (ApiCall::PlayerNext(id), None),
                Transport::Previous => (ApiCall::PlayerPrevious(id), None),
                Transport::Toggle => {
                    let call: ApiCall = if remote.is_playing {
                        ApiCall::PlayerPause(id)
                    } else {
                        ApiCall::PlayerResume(id)
                    };
                    let is_playing: bool = !remote.is_playing;
                    (call, Some(RemotePlayback { is_playing, ..remote }))
                },
                Transport::SeekTo(position) => (
                    ApiCall::PlayerSeek { device_id: id, position: position as usize },
                    Some(RemotePlayback { progress_ms: position, ..remote }),
                ),
                Transport::SetVolume(volume) => (
                    ApiCall::PlayerVolume { device_id: id, percent: volume.percent },
                    None,
                ),
            };
            if let Some(next) = next {
                dispatcher.dispatch(
                    AppAction::PlaybackAction(PlaybackAction::SetRemotePlayback(Some(next))),
                );
            }
            dispatcher.call(call);
            assert(dispatcher@ =~= old(dispatcher)@ + press_effects(*p, button));
        },
    }
}

/// While playback elsewhere is followed no button touches what plays here.
pub proof fn law_buttons_act_on_one_device(p: PlaybackState, button: Transport)
    ensures
        mirrored(p) is Some ==> forall|i: int|
            0 <= i < press_effects(p, button).len() ==> #[trigger] press_effects(p, button)[i]
                != actions::play(local_action(button)),
        mirrored(p) is None ==> press_effects(p, button) == seq![
            actions::play(local_action(button)),
        ],
{
}

/// A button that is pressed while this device is shown does here what it says.
pub proof fn law_buttons_act_here(p: PlaybackState, position: u32, volume: Volume)
    requires
        !p.is_mirroring_remote || p.remote is None,
    ensures
        press_effects(p, Transport::Next) == seq![actions::play(PlaybackActionView::Next)],
        press_effects(p, Transport::Previous) == seq![actions::play(PlaybackActionView::Previous)],
        press_effects(p, Transport::Toggle) == seq![actions::play(PlaybackActionView::TogglePlay)],
        press_effects(p, Transport::SeekTo(position)) == seq![
            actions::play(PlaybackActionView::Seek(position)),
        ],
        press_effects(p, Transport::SetVolume(volume)) == seq![
            actions::play(PlaybackActionView::SetVolume(volume)),
        ],
{
}

/// A button that is pressed while another device is followed calls that device to do
/// what the button says. One that plays is paused and one that is paused goes on; that
/// and a new place are shown at once, with nothing else changed.
pub proof fn law_buttons_act_on_the_followed_device(
    p: PlaybackState,
    position: u32,
    volume: Volume,
)
    requires
        p.is_mirroring_remote,
        p.remote is Some,
    ensures
        ({
            let remote = p.remote->0;
            let id = remote.device.id@;
            &&& press_effects(p, Transport::Next) == seq![
                EffectView::Call(ApiCallView::PlayerNext(id)),
            ]
            &&& press_effects(p, Transport::Previous) == seq![
                EffectView::Call(ApiCallView::PlayerPrevious(id)),
            ]
            &&& press_effects(p, Transport::SetVolume(volume)) == seq![
                EffectView::Call(
                    ApiCallView::PlayerVolume { device_id: id, percent: volume.percent },
                ),
            ]
            &&& remote.is_playing ==> press_effects(p, Transport::Toggle) == seq![
                actions::play(
                    PlaybackActionView::SetRemotePlayback(
                        Some(RemotePlaybackView { is_playing: false, ..remote.deep_view() }),
                    ),
                ),
                EffectView::Call(ApiCallView::PlayerPause(id)),
            ]
            &&& !remote.is_playing ==> press_effects(p, Transport::Toggle) == seq![
                actions::play(
                    PlaybackActionView::SetRemotePlayback(
                        Some(RemotePlaybackView { is_playing: true, ..remote.deep_view() }),
                    ),
                ),
                EffectView::Call(ApiCallView::PlayerResume(id)),
            ]
            &&& press_effects(p, Transport::SeekTo(position)) == seq![
                actions::play(
                    PlaybackActionView::SetRemotePlayback(
                        Some(RemotePlaybackView { progress_ms: position, ..remote.deep_view() }),
                    ),
                ),
                EffectView::Call(
                    ApiCallView::PlayerSeek { device_id: id, position: position as usize },
                ),
            ]
        }),
{
    let remote = p.remote->0;
    let id = remote.device.id@;
    assert(press_effects(p, Transport::Next) =~= seq![
        EffectView::Call(ApiCallView::PlayerNext(id)),
    ]);
    assert(press_effects(p, Transport::Previous) =~= seq![
        EffectView::Call(ApiCallView::PlayerPrevious(id)),
    ]);
    assert(press_effects(p, Transport::SetVolume(volume)) =~= seq![
        EffectView::Call(ApiCallView::PlayerVolume { device_id: id, percent: volume.percent }),
    ]);
    assert(press_effects(p, Transport::Toggle).len() == 2);
    assert(press_effects(p, Transport::SeekTo(position)).len() == 2);
}

} // verus!

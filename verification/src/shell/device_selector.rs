//! The choice of the device that plays.

use vstd::prelude::*;

use crate::actions;
use crate::actions::{
    ActionDispatcher, ApiCall, ApiCallView, AppAction, AppEvent, Device, DeviceView, EffectView,
    LoginEvent, PlaybackAction, PlaybackActionView, PlaybackEvent,
};
use crate::api::cached_client::SpotifyResult;
use crate::lists;
use crate::models::{ConnectDevice, ConnectDeviceView};
use crate::state::{AppModel, PlaybackState};
use crate::text::str_eq;

verus! {

/// The data and the wishes of the choice.
#[derive(Debug, PartialEq, Eq)]
pub struct DeviceSelectorModel {
    pub app_model: AppModel,
    pub dispatcher: ActionDispatcher,
}

/// The devices other than the one with the given id.
pub open spec fn not_own(own: Option<Seq<char>>) -> spec_fn(ConnectDeviceView) -> bool {
    |d: ConnectDeviceView| own != Some(d.id)
}

/// The devices that can be chosen besides this one.
pub open spec fn selectable(p: PlaybackState) -> Seq<ConnectDeviceView> {
    p.available_devices.deep_view().filter(not_own(p.own_device_id.deep_view()))
}

/// The first device with the given id, from `i` on.
pub open spec fn device_from(devices: Seq<ConnectDeviceView>, id: Seq<char>, i: int) -> Option<
    ConnectDeviceView,
>
    decreases devices.len() - i,
{
    if i >= devices.len() {
        None
    } else if devices[i].id == id {
        Some(devices[i])
    } else {
        device_from(devices, id, i + 1)
    }
}

/// The device that an id stands for: this one if it stands for no other.
pub open spec fn chosen(p: PlaybackState, id: Option<Seq<char>>) -> DeviceView {
    match id {
        Some(id) => match device_from(selectable(p), id, 0) {
            Some(device) => DeviceView::Connect(device),
            None => DeviceView::Local,
        },
        None => DeviceView::Local,
    }
}

impl DeviceSelectorModel {
    /// The choice.
    pub fn new(app_model: AppModel, dispatcher: ActionDispatcher) -> (r: Self)
        ensures
            r == (DeviceSelectorModel { app_model, dispatcher }),
    {
        DeviceSelectorModel { app_model, dispatcher }
    }

    /// Only the wishes changed: these were added.
    pub open spec fn wants(self, before: Self, added: Seq<EffectView>) -> bool {
        &&& self.app_model == before.app_model
        &&& self.dispatcher@ == before.dispatcher@ + added
    }

    /// Wants the devices read.
    pub fn refresh_available_devices(&mut self)
        ensures
            final(self).wants(
                *old(self),
                seq![EffectView::Call(ApiCallView::ListAvailableDevices)],
            ),
    {
        self.dispatcher.call(ApiCall::ListAvailableDevices);
    }

    /// What follows from the devices.
    pub fn devices_listed(answer: SpotifyResult<Vec<ConnectDevice>>) -> (r: SpotifyResult<
        AppAction,
    >)
        ensures
            match (answer, r) {
                (Ok(devices), Ok(action)) => action == AppAction::PlaybackAction(
                    PlaybackAction::SetAvailableDevices(devices),
                ),
                (Err(e), Err(f)) => e == f,
                _ => false,
            },
    {
        match answer {
            Ok(devices) => Ok(
                AppAction::PlaybackAction(PlaybackAction::SetAvailableDevices(devices)),
            ),
            Err(e) => Err(e),
        }
    }

    /// The devices that can be chosen besides this one.
    pub fn get_available_devices(&self) -> (r: Vec<ConnectDevice>)
        ensures
            r.deep_view() == selectable(self.app_model.state.playback),
    {
        let p = &self.app_model.state.playback;
        let ghost all = p.available_devices.deep_view();
        let ghost other = not_own(p.own_device_id.deep_view());
        let mut out: Vec<ConnectDevice> = Vec::new();
        let mut i: usize = 0;
        proof {
            reveal(Seq::filter);
            assert(out.deep_view() =~= all.take(0).filter(other));
        }
        while i < p.available_devices.len()
            invariant
                i <= p.available_devices.len(),
                all == p.available_devices.deep_view(),
                other == not_own(p.own_device_id.deep_view()),
                out.deep_view() == all.take(i as int).filter(other),
            decreases p.available_devices.len() - i,
        {
            proof {
                lists::lemma_filter_take_push(all, other, i as int);
                assert(all[i as int] == p.available_devices@[i as int].deep_view());
            }
            let own: bool = match &p.own_device_id {
                Some(id) => str_eq(p.available_devices[i].id.as_str(), id.as_str()),
                None => false,
            };
            if !own {
                let ghost before = out;
                let device = p.available_devices[i].clone();
                out.push(device);
                proof {
                    lists::lemma_deep_push(before, out, device);
                }
            }
            i += 1;
        }
        proof {
            lists::lemma_take_all(all);
        }
        out
    }

    /// The device that is shown as the one that plays.
    pub fn get_displayed_device(&self) -> (r: Device)
        ensures
            r.deep_view() == self.app_model.state.playback.spec_displayed_device(),
    {
        self.app_model.state.playback.displayed_device()
    }

    /// Moves playback to the device with the given id; without an id, or with one
    /// that stands for no other device, to this one.
    pub fn set_current_device(&mut self, id: Option<String>)
        ensures
            final(self).wants(
                *old(self),
                seq![
                    actions::play(
                        PlaybackActionView::SwitchDevice(
                            chosen(old(self).app_model.state.playback, id.deep_view()),
                        ),
                    ),
                ],
            ),
    {
        let ghost p = self.app_model.state.playback;
        let mut device: Device = Device::Local;
        match id {
            Some(id) => {
                let devices: Vec<ConnectDevice> = self.get_available_devices();
                let ghost views = devices.deep_view();
                let mut i: usize = 0;
                let mut found: bool = false;
                while i < devices.len() && !found
                    invariant
                        i <= devices.len(),
                        views == devices.deep_view(),
                        views == selectable(p),
                        !found ==> device_from(views, id@, 0) == device_from(views, id@, i as int),
                        !found ==> device.deep_view() == DeviceView::Local,
                        found ==> device.deep_view() == chosen(p, Some(id@)),
                    decreases
                        (devices.len() - i) + (if found {
                            0int
                        } else {
                            1int
                        }),
                {
                    assert(views[i as int] == devices@[i as int].deep_view());
                    if str_eq(devices[i].id.as_str(), id.as_str()) {
                        device = Device::Connect(devices[i].clone());
                        found = true;
                    } else {
                        i += 1;
                    }
                }
            },
            None => {},
        }
        self.dispatcher.dispatch(AppAction::PlaybackAction(PlaybackAction::SwitchDevice(device)));
    }
}

/// This device is never offered as another one.
pub proof fn law_own_device_is_not_offered(p: PlaybackState, i: int)
    requires
        0 <= i < selectable(p).len(),
    ensures
        p.own_device_id.deep_view() != Some(selectable(p)[i].id),
        p.available_devices.deep_view().contains(selectable(p)[i]),
{
    let other = not_own(p.own_device_id.deep_view());
    lists::lemma_filter_set(p.available_devices.deep_view(), other);
    assert(selectable(p).contains(selectable(p)[i]));
}

/// The choice as it is shown.
#[derive(Debug, PartialEq, Eq)]
pub struct DeviceSelector {
    pub model: DeviceSelectorModel,
    pub devices: Vec<ConnectDevice>,
    pub current: Device,
}

impl DeviceSelector {
    /// The choice, before any device is known.
    pub fn new(model: DeviceSelectorModel) -> (r: DeviceSelector)
        ensures
            r.model == model,
            r.devices@.len() == 0,
            r.current == Device::Local,
    {
        DeviceSelector { model, devices: Vec::new(), current: Device::Local }
    }

    /// What an event does to the choice.
    pub fn on_event(&mut self, event: &AppEvent)
        ensures
            match event {
                AppEvent::LoginEvent(LoginEvent::LoginCompleted) => {
                    &&& final(self).devices == old(self).devices
                    &&& final(self).current == old(self).current
                    &&& final(self).model.wants(
                        old(self).model,
                        seq![EffectView::Call(ApiCallView::ListAvailableDevices)],
                    )
                },
                AppEvent::PlaybackEvent(PlaybackEvent::AvailableDevicesChanged)
                | AppEvent::PlaybackEvent(PlaybackEvent::OwnDeviceIdSet(_)) => {
                    &&& final(self).model == old(self).model
                    &&& final(self).current == old(self).current
                    &&& final(self).devices.deep_view() == selectable(
                        old(self).model.app_model.state.playback,
                    )
                },
                AppEvent::PlaybackEvent(PlaybackEvent::SwitchedDevice(_))
                | AppEvent::PlaybackEvent(PlaybackEvent::RemotePlaybackChanged) => {
                    &&& final(self).model == old(self).model
                    &&& final(self).devices == old(self).devices
                    &&& final(self).current.deep_view()
                        == old(self).model.app_model.state.playback.spec_displayed_device()
                },
                _ => *final(self) == *old(self),
            },
    {
        match event {
            AppEvent::LoginEvent(LoginEvent::LoginCompleted) => {
                self.model.refresh_available_devices();
            },
            AppEvent::PlaybackEvent(PlaybackEvent::AvailableDevicesChanged)
            | AppEvent::PlaybackEvent(PlaybackEvent::OwnDeviceIdSet(_)) => {
                self.devices = self.model.get_available_devices();
            },
            AppEvent::PlaybackEvent(PlaybackEvent::SwitchedDevice(_))
            | AppEvent::PlaybackEvent(PlaybackEvent::RemotePlaybackChanged) => {
                self.current = self.model.get_displayed_device();
            },
            _ => {},
        }
    }
}

/// Every device that was found can be chosen, unless it is this one.
pub proof fn law_other_devices_are_offered(p: PlaybackState, k: int)
    requires
        0 <= k < p.available_devices@.len(),
        match p.own_device_id {
            Some(own) => own@ != p.available_devices@[k].id@,
            None => true,
        },
    ensures
        selectable(p).contains(p.available_devices@[k].deep_view()),
{
    let all = p.available_devices.deep_view();
    let other = not_own(p.own_device_id.deep_view());
    lists::lemma_filter_set(all, other);
    assert(all[k] == p.available_devices@[k].deep_view());
    assert(all.contains(all[k]));
    assert(other(all[k]));
}

/// Choosing the id of an offered device moves playback to a device with that id;
/// choosing nothing, or an id that is not offered, moves it here.
pub proof fn law_chosen_device_has_the_id(p: PlaybackState, id: Seq<char>)
    ensures
        chosen(p, None) == DeviceView::Local,
        (exists|k: int| 0 <= k < selectable(p).len() && (#[trigger] selectable(p)[k]).id == id)
            ==> (chosen(p, Some(id)) matches DeviceView::Connect(device) && device.id == id
            && selectable(p).contains(device)),
        !(exists|k: int| 0 <= k < selectable(p).len() && (#[trigger] selectable(p)[k]).id == id)
            ==> chosen(p, Some(id)) == DeviceView::Local,
{
    lemma_device_from(selectable(p), id, 0);
}

proof fn lemma_device_from(devices: Seq<ConnectDeviceView>, id: Seq<char>, i: int)
    requires
        0 <= i <= devices.len(),
    ensures
        match device_from(devices, id, i) {
            Some(device) => device.id == id && devices.contains(device),
            None => forall|k: int| i <= k < devices.len() ==> (#[trigger] devices[k]).id != id,
        },
    decreases devices.len() - i,
{
    if i < devices.len() && devices[i].id != id {
        lemma_device_from(devices, id, i + 1);
    }
}

} // verus!

//! The settings that are chosen from a list.

use vstd::prelude::*;

use crate::actions;
use crate::actions::{
    ActionDispatcher, AppAction, AppEvent, BrowserAction, BrowserActionView, BrowserEvent,
};
use crate::text::str_eq;

verus! {

/// A setting whose value is chosen from a list.
#[derive(Clone, Copy, Debug, PartialEq, Eq, Structural)]
pub enum ChoiceSetting {
    PlayerBitrate,
    AudioBackend,
    VolumeCurve,
    AudioFormat,
    NormalisationType,
    NormalisationMethod,
    Theme,
    CloseBehavior,
}

impl ChoiceSetting {
    /// The key of the setting.
    pub fn key(self) -> (r: &'static str)
        ensures
            r@ == (match self {
                ChoiceSetting::PlayerBitrate => "player-bitrate"@,
                ChoiceSetting::AudioBackend => "audio-backend"@,
                ChoiceSetting::VolumeCurve => "volume-curve"@,
                ChoiceSetting::AudioFormat => "audio-format"@,
                ChoiceSetting::NormalisationType => "normalisation-type"@,
                ChoiceSetting::NormalisationMethod => "normalisation-method"@,
                ChoiceSetting::Theme => "theme-preference"@,
                ChoiceSetting::CloseBehavior => "close-window-behavior"@,
            }),
    {
        match self {
            ChoiceSetting::PlayerBitrate => "player-bitrate",
            ChoiceSetting::AudioBackend => "audio-backend",
            ChoiceSetting::VolumeCurve => "volume-curve",
            ChoiceSetting::AudioFormat => "audio-format",
            ChoiceSetting::NormalisationType => "normalisation-type",
            ChoiceSetting::NormalisationMethod => "normalisation-method",
            ChoiceSetting::Theme => "theme-preference",
            ChoiceSetting::CloseBehavior => "close-window-behavior",
        }
    }

    /// The values of the setting, in the order in which they are listed.
    pub open spec fn spec_values(self) -> Seq<Seq<char>> {
        match self {
            ChoiceSetting::PlayerBitrate => seq!["96"@, "160"@, "320"@],
            ChoiceSetting::AudioBackend => seq!["pulseaudio"@, "alsa"@, "gstreamer"@],
            ChoiceSetting::VolumeCurve => seq!["log"@, "linear"@, "cubic"@],
            ChoiceSetting::AudioFormat => seq![
                "s16"@,
                "s24"@,
                "s24_3"@,
                "s32"@,
                "f32"@,
                "f64"@,
            ],
            ChoiceSetting::NormalisationType => seq!["auto"@, "track"@, "album"@],
            ChoiceSetting::NormalisationMethod => seq!["dynamic"@, "basic"@],
            ChoiceSetting::Theme => seq!["light"@, "dark"@, "system"@],
            ChoiceSetting::CloseBehavior => seq![
                "ask"@,
                "minimize-to-background"@,
                "stop-and-quit"@,
            ],
        }
    }

    /// The setting never holds anything but its values. A setting that may hold
    /// something else is then taken to hold its first value.
    pub open spec fn is_strict(self) -> bool {
        match self {
            ChoiceSetting::PlayerBitrate => true,
            ChoiceSetting::AudioBackend => true,
            ChoiceSetting::Theme => true,
            ChoiceSetting::CloseBehavior => true,
            _ => false,
        }
    }

    /// The values of the setting, in the order in which they are listed.
    pub fn values(self) -> (r: Vec<&'static str>)
        ensures
            r.deep_view() == self.spec_values(),
            0 < r@.len() <= 6,
    {
        let r: Vec<&'static str> = match self {
            ChoiceSetting::PlayerBitrate => vec!["96", "160", "320"],
            ChoiceSetting::AudioBackend => vec!["pulseaudio", "alsa", "gstreamer"],
            ChoiceSetting::VolumeCurve => vec!["log", "linear", "cubic"],
            ChoiceSetting::AudioFormat => vec!["s16", "s24", "s24_3", "s32", "f32", "f64"],
            ChoiceSetting::NormalisationType => vec!["auto", "track", "album"],
            ChoiceSetting::NormalisationMethod => vec!["dynamic", "basic"],
            ChoiceSetting::Theme => vec!["light", "dark", "system"],
            ChoiceSetting::CloseBehavior => vec![
                "ask",
                "minimize-to-background",
                "stop-and-quit",
            ],
        };
        assert(r.deep_view() =~= self.spec_values());
        r
    }

    /// The place in the list of the value that the setting holds.
    pub fn selected_of(self, value: &str) -> (r: u32)
        requires
            self.is_strict() ==> self.spec_values().contains(value@),
        ensures
            r < self.spec_values().len(),
            self.spec_values().contains(value@) ==> self.spec_values()[r as int] == value@,
            !self.spec_values().contains(value@) ==> r == 0,
    {
        let values: Vec<&'static str> = self.values();
        let ghost views = self.spec_values();
        let mut i: usize = 0;
        while i < values.len()
            invariant
                i <= values.len() <= 6,
                values.deep_view() == views,
                views == self.spec_values(),
                forall|k: int| 0 <= k < i ==> views[k] != value@,
            decreases values.len() - i,
        {
            assert(views[i as int] == values@[i as int]@);
            if str_eq(values[i], value) {
                return i as u32;
            }
            i += 1;
        }
        0
    }

    /// The value at a place in the list.
    pub fn value_of(self, selected: u32) -> (r: &'static str)
        requires
            self.is_strict() ==> selected < self.spec_values().len(),
        ensures
            r@ == (if selected < self.spec_values().len() {
                self.spec_values()[selected as int]
            } else {
                self.spec_values()[0]
            }),
    {
        let values: Vec<&'static str> = self.values();
        assert(values.deep_view().len() == values@.len());
        if (selected as usize) < values.len() {
            assert(values.deep_view()[selected as int] == values@[selected as int]@);
            values[selected as usize]
        } else {
            assert(values.deep_view()[0] == values@[0]@);
            values[0]
        }
    }
}

/// No value is in a list twice.
pub proof fn law_values_are_distinct(setting: ChoiceSetting)
    ensures
        setting.spec_values().no_duplicates(),
{
    reveal_strlit("96");
    reveal_strlit("160");
    reveal_strlit("320");
    reveal_strlit("pulseaudio");
    reveal_strlit("alsa");
    reveal_strlit("gstreamer");
    reveal_strlit("log");
    reveal_strlit("linear");
    reveal_strlit("cubic");
    reveal_strlit("s16");
    reveal_strlit("s24");
    reveal_strlit("s24_3");
    reveal_strlit("s32");
    reveal_strlit("f32");
    reveal_strlit("f64");
    reveal_strlit("auto");
    reveal_strlit("track");
    reveal_strlit("album");
    reveal_strlit("dynamic");
    reveal_strlit("basic");
    reveal_strlit("light");
    reveal_strlit("dark");
    reveal_strlit("system");
    reveal_strlit("ask");
    reveal_strlit("minimize-to-background");
    reveal_strlit("stop-and-quit");
    let values = setting.spec_values();
    assert forall|i: int, j: int| 0 <= i < values.len() && 0 <= j < values.len() && i != j implies values[i]
        != values[j] by {
        let a = values[i];
        let b = values[j];
        assert(a.len() != b.len() || a[0] != b[0] || a[1] != b[1] || a[2] != b[2]);
    }
}

/// The place of a value is found again from the value, and the other way round.
pub proof fn law_choices_round_trip(setting: ChoiceSetting, selected: int, found: int)
    requires
        0 <= selected < setting.spec_values().len(),
        0 <= found < setting.spec_values().len(),
        setting.spec_values()[found] == setting.spec_values()[selected],
    ensures
        found == selected,
{
    law_values_are_distinct(setting);
}

/// Whether the entry for the device is shown after the backend was changed: only
/// the second backend has devices.
pub fn alsa_device_visible(selected_backend: u32) -> (r: bool)
    ensures
        r == (selected_backend == 1),
{
    selected_backend == 1
}

/// Whether the entry for the device is hidden when the page opens.
pub fn alsa_device_hidden_at_start(selected_backend: u32) -> (r: bool)
    ensures
        r == (selected_backend == 0),
{
    selected_backend == 0
}

/// The colors of the program.
#[derive(Clone, Copy, Debug, PartialEq, Eq, Structural)]
pub enum ColorScheme {
    ForceLight,
    ForceDark,
    /// As the system has it.
    System,
}

/// The colors that a theme stands for.
pub fn color_scheme_of(selected_theme: u32) -> (r: ColorScheme)
    ensures
        r == (if selected_theme == 0 {
            ColorScheme::ForceLight
        } else if selected_theme == 1 {
            ColorScheme::ForceDark
        } else {
            ColorScheme::System
        }),
{
    match selected_theme {
        0 => ColorScheme::ForceLight,
        1 => ColorScheme::ForceDark,
        _ => ColorScheme::System,
    }
}

/// Whether a switch for an experiment is listed: those for debugging only in
/// builds for debugging.
pub fn is_flag_listed(debug_only: bool, debug_build: bool) -> (r: bool)
    ensures
        r == (debug_only ==> debug_build),
{
    !debug_only || debug_build
}

/// What leaving the settings asks for.
#[derive(Clone, Copy, Debug, PartialEq, Eq, Structural)]
pub enum SettingsCommand {
    StopPlayer,
    /// Take over what was changed.
    SetSettings,
}

/// What leaving the settings asks for: the changes are taken over, and the player
/// is stopped before where they need it.
pub open spec fn commit_commands(requires_reload: bool) -> Seq<SettingsCommand> {
    if requires_reload {
        seq![SettingsCommand::StopPlayer, SettingsCommand::SetSettings]
    } else {
        seq![SettingsCommand::SetSettings]
    }
}

/// What an event asks of the settings: they are committed when the user goes back.
/// `requires_reload` says whether the player cannot take the changes over while it
/// runs.
pub fn settings_on_event(event: &AppEvent, requires_reload: bool) -> (r: Vec<SettingsCommand>)
    ensures
        r@ == (if *event == AppEvent::BrowserEvent(BrowserEvent::NavigationPopped) {
            commit_commands(requires_reload)
        } else {
            Seq::empty()
        }),
{
    let mut commands: Vec<SettingsCommand> = Vec::new();
    match event {
        AppEvent::BrowserEvent(BrowserEvent::NavigationPopped) => {
            if requires_reload {
                commands.push(SettingsCommand::StopPlayer);
            }
            commands.push(SettingsCommand::SetSettings);
            assert(commands@ =~= commit_commands(requires_reload));
        },
        _ => {},
    }
    commands
}

/// The page of the settings.
#[derive(Debug, PartialEq, Eq)]
pub struct SettingsPage {
    pub dispatcher: ActionDispatcher,
}

impl SettingsPage {
    /// The page.
    pub fn new(dispatcher: ActionDispatcher) -> (r: SettingsPage)
        ensures
            r == (SettingsPage { dispatcher }),
    {
        SettingsPage { dispatcher }
    }

    /// The user goes back.
    pub fn go_back(&mut self)
        ensures
            final(self).dispatcher@ == old(self).dispatcher@ + seq![
                actions::browse(BrowserActionView::NavigationPop),
            ],
    {
        self.dispatcher.dispatch(AppAction::BrowserAction(BrowserAction::NavigationPop));
    }

    /// What an event asks for.
    pub fn on_event(&self, event: &AppEvent, requires_reload: bool) -> (r: Vec<SettingsCommand>)
        ensures
            r@ == (if *event == AppEvent::BrowserEvent(BrowserEvent::NavigationPopped) {
                commit_commands(requires_reload)
            } else {
                Seq::empty()
            }),
    {
        settings_on_event(event, requires_reload)
    }
}

/// Every setting offers its own values, in this order.
pub proof fn law_settings_offer_their_values(setting: ChoiceSetting)
    ensures
        setting is PlayerBitrate ==> setting.spec_values() == seq!["96"@, "160"@, "320"@],
        setting is AudioBackend ==> setting.spec_values() == seq![
            "pulseaudio"@,
            "alsa"@,
            "gstreamer"@,
        ],
        setting is VolumeCurve ==> setting.spec_values() == seq!["log"@, "linear"@, "cubic"@],
        setting is AudioFormat ==> setting.spec_values() == seq![
            "s16"@,
            "s24"@,
            "s24_3"@,
            "s32"@,
            "f32"@,
            "f64"@,
        ],
        setting is NormalisationType ==> setting.spec_values() == seq![
            "auto"@,
            "track"@,
            "album"@,
        ],
        setting is NormalisationMethod ==> setting.spec_values() == seq!["dynamic"@, "basic"@],
        setting is Theme ==> setting.spec_values() == seq!["light"@, "dark"@, "system"@],
        setting is CloseBehavior ==> setting.spec_values() == seq![
            "ask"@,
            "minimize-to-background"@,
            "stop-and-quit"@,
        ],
        setting.is_strict() <==> (setting is PlayerBitrate || setting is AudioBackend || setting
            is Theme || setting is CloseBehavior),
{
}

/// What was changed is always taken over, last; the player is stopped before if, and
/// only if, it cannot take it over while it runs.
pub proof fn law_changes_are_taken_over(requires_reload: bool)
    ensures
        commit_commands(requires_reload).last() == SettingsCommand::SetSettings,
        commit_commands(requires_reload).drop_last() == (if requires_reload {
            seq![SettingsCommand::StopPlayer]
        } else {
            Seq::<SettingsCommand>::empty()
        }),
{
    assert(commit_commands(requires_reload).drop_last() =~= (if requires_reload {
        seq![SettingsCommand::StopPlayer]
    } else {
        Seq::<SettingsCommand>::empty()
    }));
}

} // verus!

//! The settings that change the sound while it plays: each change is told to the
//! player here at once.

use vstd::prelude::*;

use crate::shell::commands::{Command, CommandView};
use crate::text;
use crate::text::{cat, decimal_of, str_eq};

verus! {

/// How many bands the equalizer has.
pub const BANDS: usize = 10;

/// The settings as they are. Numbers with a fraction are held by their bits.
#[derive(Debug, PartialEq, Eq)]
pub struct DspSettings {
    pub mono_audio: bool,
    pub pan: u64,
    pub pitch_cents: u64,
    pub bands: [u64; 10],
}

/// The key of the setting of one band.
pub open spec fn band_key(band: nat) -> Seq<char> {
    "eq-band-"@ + text::decimal(band)
}

/// The key of the setting of one band.
pub fn band_key_of(band: usize) -> (r: String)
    ensures
        r@ == band_key(band as nat),
{
    cat("eq-band-", decimal_of(band).as_str())
}

/// The key is that of one of the bands.
pub open spec fn is_band_key(key: Seq<char>) -> bool {
    exists|band: nat| band < BANDS && key == #[trigger] band_key(band)
}

/// Whether the key is that of one of the bands.
pub fn is_band(key: &str) -> (r: bool)
    ensures
        r == is_band_key(key@),
{
    let mut i: usize = 0;
    while i < BANDS
        invariant
            i <= BANDS,
            forall|band: nat| band < i ==> key@ != #[trigger] band_key(band),
        decreases BANDS - i,
    {
        if str_eq(key, band_key_of(i).as_str()) {
            assert(key@ == band_key(i as nat));
            return true;
        }
        i = i + 1;
    }
    false
}

/// What the player here is told when the setting `key` has changed: the setting
/// as it is now, and for a band all of them. Other settings do not concern the
/// sound.
pub open spec fn dsp_change(key: Seq<char>, settings: DspSettings) -> Option<CommandView> {
    if key == "mono-audio"@ {
        Some(CommandView::SetMono(settings.mono_audio))
    } else if key == "pan"@ {
        Some(CommandView::SetPan(settings.pan))
    } else if key == "pitch-cents"@ {
        Some(CommandView::SetPitch(settings.pitch_cents))
    } else if is_band_key(key) {
        Some(CommandView::SetEqualizer(settings.bands))
    } else {
        None
    }
}

/// What the player here is told when the setting `key` has changed.
pub fn dsp_command(key: &str, settings: &DspSettings) -> (r: Option<Command>)
    ensures
        r.deep_view() == dsp_change(key@, *settings),
{
    if str_eq(key, "mono-audio") {
        Some(Command::SetMono(settings.mono_audio))
    } else if str_eq(key, "pan") {
        Some(Command::SetPan(settings.pan))
    } else if str_eq(key, "pitch-cents") {
        Some(Command::SetPitch(settings.pitch_cents))
    } else if is_band(key) {
        Some(Command::SetEqualizer(settings.bands))
    } else {
        None
    }
}

/// Different bands have different keys.
pub proof fn law_bands_have_their_own_keys(a: nat, b: nat)
    requires
        band_key(a) == band_key(b),
    ensures
        a == b,
{
    let x = text::decimal(a);
    let y = text::decimal(b);
    reveal_strlit("eq-band-");
    assert(band_key(a).skip(8) =~= x);
    assert(band_key(b).skip(8) =~= y);
    text::lemma_decimal_injective(a, b);
}

/// Each setting of the sound reaches the player as what it is now, and a band with
/// all ten of them; no other setting is told.
pub proof fn law_settings_reach_the_player(settings: DspSettings, band: nat, key: Seq<char>)
    requires
        band < 10,
    ensures
        dsp_change("mono-audio"@, settings) == Some(CommandView::SetMono(settings.mono_audio)),
        dsp_change("pan"@, settings) == Some(CommandView::SetPan(settings.pan)),
        dsp_change("pitch-cents"@, settings) == Some(CommandView::SetPitch(settings.pitch_cents)),
        dsp_change("eq-band-"@ + text::decimal(band), settings) == Some(
            CommandView::SetEqualizer(settings.bands),
        ),
        dsp_change(key, settings) is Some ==> key == "mono-audio"@ || key == "pan"@ || key
            == "pitch-cents"@ || is_band_key(key),
{
    reveal_strlit("mono-audio");
    reveal_strlit("pan");
    reveal_strlit("pitch-cents");
    reveal_strlit("eq-band-");
    let k = band_key(band);
    assert(k == "eq-band-"@ + text::decimal(band));
    assert(is_band_key(k));
    assert("mono-audio"@[0] == 'm' && "pan"@[0] == 'p' && "pitch-cents"@[0] == 'p');
    assert("pan"@.len() == 3 && "pitch-cents"@.len() == 11);
    assert(k[0] == 'e');
}

/// There are ten bands.
pub proof fn law_there_are_ten_bands()
    ensures
        BANDS == 10,
{
}

} // verus!

//! ALSA control snapshots and the safety rules that decide which mixer writes
//! are allowed on the AE-5.
//!
//! The rules only read snapshots of the live controls; reading the snapshots
//! and performing the writes is the application's job.

use vstd::prelude::*;
use vstd::string::*;

use crate::text::{
    ends_with, eq_ignore_ascii_case, owned, parse_unsigned_text, push_decimal, push_signed,
    push_str, starts_with, str_eq, to_ascii_lowercase,
};
use crate::text;

verus! {

pub const EQUALIZER_PRESET_CONTROL: &'static str = "FX: Equalizer Preset";

pub const DIRECT_MODE_CONTROL: &'static str = "AE-5: Direct Mode";

pub const HARDWARE_OUTFX_CONTROL: &'static str = "Enable OutFX";

pub const UNSAFE_HARDWARE_OUTFX: &'static str = "Hardware OutFX is disabled because AE-5 tests reproduced \
    severe stream distortion. Use software effects; recovering an already-corrupted route \
    requires a driver rebind or cold boot.";

pub const UNSAFE_DIRECT_MODE: &'static str = "Direct Mode is disabled because repeated AE-5 transitions \
    corrupted normal playback. Reboot into the maintained kernel without Direct Mode.";

pub const UNSAFE_OUTPUT_ROUTE_TRANSITION: &'static str = "Output route changes are disabled because they \
    suspend and reopen AE-5 playback, which reproduced severe stream distortion. Keep the current \
    route until the kernel PCM-reopen defect is fixed.";

pub const EQUALIZER_BAND_EDIT_BLOCK: &'static str = "Factory EQ presets use DSP values that the individual \
    1 dB controls cannot represent reliably. Select Flat before editing custom bands.";

pub const DIRECT_MODE_DSP_BLOCK: &'static str = "Direct Mode bypasses the CA0132 DSP, so this control has no \
    effect. Disable Direct Mode first.";

pub const FIXED_SMART_VOLUME_LEVEL: &'static str = "Loud and Night use fixed CA0132 DSP levels. Select Normal \
    to adjust the Smart Volume level.";

pub const INEFFECTIVE_WHAT_U_HEAR_CONTROL: &'static str = "The AE-5 DSP loopback bypasses this advertised \
    HDA gain and mute control. Use the recording application's stream-level volume or mute.";

pub const MUTED_HEADPHONE_PLAYBACK: &'static str = "ALSA selects Headphone, but Front playback is muted; \
    use the explicit route repair action";

pub const UNVERIFIED_HEADPHONE_PLAYBACK: &'static str =
    "ALSA selects Headphone, but the Front playback switch is unavailable";

pub const MUTED_HEADPHONE_MASTER: &'static str = "ALSA selects Headphone, but hardware Master playback is \
    muted; PipeWire's software mute cannot unmute it, so use the explicit route repair action";

pub const UNVERIFIED_HEADPHONE_MASTER: &'static str =
    "ALSA selects Headphone, but the hardware Master playback switch is unavailable";

pub const BASS_NEEDS_SPEAKERS: &'static str = "Select Speakers output before enabling bass redirection.";

pub const BASS_NEEDS_LFE_LAYOUT: &'static str = "Select a 2.1, 4.1, or 5.1 speaker layout first.";

pub const BASS_NEEDS_XBASS_OFF: &'static str = "Turn off X-Bass before enabling speaker bass redirection.";

pub const XBASS_WITH_LFE: &'static str = "X-Bass is unavailable for speaker layouts with an LFE channel.";

/// A volume level of one control direction.
#[derive(Debug, Eq, PartialEq)]
pub struct Level {
    pub value: i64,
    pub min: i64,
    pub max: i64,
    pub db: Option<DecibelRange>,
}

/// The decibel mapping ALSA advertises for a level, in hundredths of a dB.
#[derive(Clone, Copy, Debug, Eq, PartialEq)]
pub struct DecibelRange {
    pub min: i64,
    pub max: i64,
    pub step: i64,
}

/// The level of one named channel.
#[derive(Debug, Eq, PartialEq)]
pub struct ChannelLevel {
    pub name: String,
    pub value: i64,
}

/// Everything read from one ALSA simple control.
#[derive(Clone, Debug, Eq, PartialEq)]
pub struct ControlSnapshot {
    pub name: String,
    pub selected: Option<String>,
    pub choices: Vec<String>,
    pub playback_switch: Option<bool>,
    pub capture_switch: Option<bool>,
    pub playback_level: Option<Level>,
    pub capture_level: Option<Level>,
    pub playback_channels: Vec<ChannelLevel>,
    pub capture_channels: Vec<ChannelLevel>,
}

impl Clone for Level {
    fn clone(&self) -> (r: Self)
        ensures
            r == *self,
    {
        Level { value: self.value, min: self.min, max: self.max, db: self.db }
    }
}

impl Clone for ChannelLevel {
    fn clone(&self) -> (r: Self)
        ensures
            r == *self,
    {
        ChannelLevel { name: self.name.clone(), value: self.value }
    }
}

/// An optional string seen as an optional character sequence.
pub open spec fn opt_text(o: Option<&str>) -> Option<Seq<char>> {
    match o {
        Some(s) => Some(s@),
        None => None,
    }
}

/// The selected choice of a control, as characters.
pub open spec fn selected_text(c: ControlSnapshot) -> Option<Seq<char>> {
    match c.selected {
        Some(s) => Some(s@),
        None => None,
    }
}

/// The position of the first control at or after `i` whose name is `name`.
pub open spec fn control_index_from(cs: Seq<ControlSnapshot>, name: Seq<char>, i: int) -> Option<
    int,
>
    decreases cs.len() - i,
{
    if i < 0 || i >= cs.len() {
        None
    } else if cs[i].name@ == name {
        Some(i)
    } else {
        control_index_from(cs, name, i + 1)
    }
}

/// A found position is in range and names the control that was asked for.
pub proof fn lemma_control_index(cs: Seq<ControlSnapshot>, name: Seq<char>, i: int)
    ensures
        match control_index_from(cs, name, i) {
            Some(j) => i <= j < cs.len() && cs[j].name@ == name,
            None => true,
        },
    decreases cs.len() - i,
{
    if 0 <= i < cs.len() && cs[i].name@ != name {
        lemma_control_index(cs, name, i + 1);
    }
}

/// The first control named `name`.
pub open spec fn find_control(cs: Seq<ControlSnapshot>, name: Seq<char>) -> Option<ControlSnapshot> {
    match control_index_from(cs, name, 0) {
        Some(i) => Some(cs[i]),
        None => None,
    }
}

/// The selected choice of the first control named `name`.
pub open spec fn selected_of(cs: Seq<ControlSnapshot>, name: Seq<char>) -> Option<Seq<char>> {
    match find_control(cs, name) {
        Some(c) => selected_text(c),
        None => None,
    }
}

/// The playback switch of the first control named `name`.
pub open spec fn switch_of(cs: Seq<ControlSnapshot>, name: Seq<char>) -> Option<bool> {
    match find_control(cs, name) {
        Some(c) => c.playback_switch,
        None => None,
    }
}

/// Some control named `name` has `choice` selected.
pub open spec fn any_selects(cs: Seq<ControlSnapshot>, name: Seq<char>, choice: Seq<char>) -> bool {
    exists|i: int|
        0 <= i < cs.len() && (#[trigger] cs[i]).name@ == name && selected_text(cs[i]) == Some(
            choice,
        )
}

/// Some control named `name` has its playback switch on.
pub open spec fn any_switch_on(cs: Seq<ControlSnapshot>, name: Seq<char>) -> bool {
    exists|i: int|
        0 <= i < cs.len() && (#[trigger] cs[i]).name@ == name && cs[i].playback_switch == Some(
            true,
        )
}

/// Some speaker layout control selects a layout with an LFE channel (`*.1`).
pub open spec fn any_lfe_layout(cs: Seq<ControlSnapshot>) -> bool {
    exists|i: int|
        0 <= i < cs.len() && (#[trigger] cs[i]).name@ == "Surround Channel Config"@ && match
            selected_text(cs[i]) {
            Some(layout) => text::has_suffix(layout, ".1"@),
            None => false,
        }
}

/// Speakers are selected as the output.
pub open spec fn speakers_selected(cs: Seq<ControlSnapshot>) -> bool {
    any_selects(cs, "Output Select"@, "Speakers"@)
}

/// `name` is one of the ten hardware equalizer bands `EQ Band0`..`EQ Band9`.
pub open spec fn is_equalizer_band_name(name: Seq<char>) -> bool {
    text::has_prefix(name, "EQ Band"@) && match text::parse_unsigned(
        name.subrange("EQ Band"@.len() as int, name.len() as int),
        255,
    ) {
        Some(band) => band < 10,
        None => false,
    }
}

/// Controls whose writes go through the hardware OutFX path.
pub open spec fn is_unsafe_hardware_playback_name(name: Seq<char>) -> bool {
    name == HARDWARE_OUTFX_CONTROL@ || name == DIRECT_MODE_CONTROL@ || is_equalizer_band_name(name)
        || name == "FX: Surround"@ || name == "FX: Crystalizer"@ || name == "FX: Dialog Plus"@
        || name == "FX: Smart Volume"@ || name == "FX: Smart Volume Setting"@ || name
        == "FX: X-Bass"@ || name == "FX: X-Bass Crossover"@ || name == "FX: Equalizer"@ || name
        == EQUALIZER_PRESET_CONTROL@
}

/// Controls whose writes change the output route.
pub open spec fn is_unsafe_output_route_name(name: Seq<char>) -> bool {
    name == "Output Select"@ || name == "Surround Channel Config"@
}

/// The reason a write to `name` is refused whatever its value.
pub open spec fn unsafe_block(name: Seq<char>) -> Option<Seq<char>> {
    if name == DIRECT_MODE_CONTROL@ {
        Some(UNSAFE_DIRECT_MODE@)
    } else if is_unsafe_output_route_name(name) {
        Some(UNSAFE_OUTPUT_ROUTE_TRANSITION@)
    } else if is_unsafe_hardware_playback_name(name) {
        Some(UNSAFE_HARDWARE_OUTFX@)
    } else {
        None
    }
}

/// The reason enabling a bass-management switch is refused.
pub open spec fn bass_block(name: Seq<char>, cs: Seq<ControlSnapshot>) -> Option<Seq<char>> {
    if name == "Bass Redirection"@ {
        if !speakers_selected(cs) {
            Some(BASS_NEEDS_SPEAKERS@)
        } else if !any_lfe_layout(cs) {
            Some(BASS_NEEDS_LFE_LAYOUT@)
        } else if any_switch_on(cs, "FX: X-Bass"@) {
            Some(BASS_NEEDS_XBASS_OFF@)
        } else {
            None
        }
    } else if name == "FX: X-Bass"@ && speakers_selected(cs) && any_lfe_layout(cs) {
        Some(XBASS_WITH_LFE@)
    } else {
        None
    }
}

/// Some control named `name` is a playback effect (`FX:` with a playback switch or level).
pub open spec fn is_playback_effect(name: Seq<char>, cs: Seq<ControlSnapshot>) -> bool {
    exists|i: int|
        0 <= i < cs.len() && (#[trigger] cs[i]).name@ == name && text::has_prefix(name, "FX:"@) && (
        cs[i].playback_switch is Some || cs[i].playback_level is Some)
}

/// Controls that Direct Mode takes out of the signal path.
pub open spec fn is_direct_mode_bypassed(name: Seq<char>, cs: Seq<ControlSnapshot>) -> bool {
    name == "Enable OutFX"@ || is_playback_effect(name, cs) || text::has_prefix(name, "EQ Band"@) || name
        == "FX: Equalizer Preset"@ || name == "FX: Smart Volume Setting"@ || name
        == "FX: X-Bass Crossover"@ || name == "Bass Redirection"@ || name
        == "Bass Redirection Crossover"@ || name == "Surround Channel Config"@ || name
        == "Full-Range Front Speakers"@ || name == "Full-Range Rear Speakers"@ || name == "Front"@
        || name == "Surround"@ || name == "Center"@ || name == "LFE"@ || name == "Master"@ || name
        == "PCM"@
}

/// The reason a control is inert while Direct Mode is on.
pub open spec fn direct_mode_block(name: Seq<char>, cs: Seq<ControlSnapshot>) -> Option<Seq<char>> {
    if name == DIRECT_MODE_CONTROL@ || !is_direct_mode_bypassed(name, cs) {
        None
    } else if any_switch_on(cs, DIRECT_MODE_CONTROL@) {
        Some(DIRECT_MODE_DSP_BLOCK@)
    } else {
        None
    }
}

/// The reason a playback switch write is refused.
pub open spec fn playback_switch_block(name: Seq<char>, enabled: bool, cs: Seq<ControlSnapshot>) -> Option<
    Seq<char>,
> {
    if unsafe_block(name) is Some {
        unsafe_block(name)
    } else if !enabled {
        None
    } else if direct_mode_block(name, cs) is Some {
        direct_mode_block(name, cs)
    } else {
        bass_block(name, cs)
    }
}

/// The reason a hardware equalizer band cannot be edited.
pub open spec fn equalizer_band_block(name: Seq<char>, cs: Seq<ControlSnapshot>) -> Option<Seq<char>> {
    if !is_equalizer_band_name(name) {
        None
    } else if direct_mode_block(name, cs) is Some {
        direct_mode_block(name, cs)
    } else {
        match selected_of(cs, EQUALIZER_PRESET_CONTROL@) {
            Some(preset) => if text::eq_ignore_case(preset, "Flat"@) {
                None
            } else {
                Some(EQUALIZER_BAND_EDIT_BLOCK@)
            },
            None => None,
        }
    }
}

/// The reason the Smart Volume level cannot be edited.
pub open spec fn smart_volume_block(name: Seq<char>, cs: Seq<ControlSnapshot>) -> Option<Seq<char>> {
    if name != "FX: Smart Volume"@ {
        None
    } else {
        match selected_of(cs, "FX: Smart Volume Setting"@) {
            Some(mode) => if text::eq_ignore_case(mode, "Loud"@) || text::eq_ignore_case(mode, "Night"@) {
                Some(FIXED_SMART_VOLUME_LEVEL@)
            } else {
                None
            },
            None => None,
        }
    }
}

/// What is wrong with the headphone DAC path, if anything.
pub open spec fn headphone_issue(cs: Seq<ControlSnapshot>) -> Option<Seq<char>> {
    if !any_selects(cs, "Output Select"@, "Headphone"@) || any_switch_on(cs, DIRECT_MODE_CONTROL@) {
        None
    } else {
        match switch_of(cs, "Master"@) {
            Some(true) => match switch_of(cs, "Front"@) {
                Some(true) => None,
                Some(false) => Some(MUTED_HEADPHONE_PLAYBACK@),
                None => Some(UNVERIFIED_HEADPHONE_PLAYBACK@),
            },
            Some(false) => Some(MUTED_HEADPHONE_MASTER@),
            None => Some(UNVERIFIED_HEADPHONE_MASTER@),
        }
    }
}

/// The bass-management state that a switch already left invalid.
pub open spec fn invalid_bass_state(cs: Seq<ControlSnapshot>) -> Option<Seq<char>> {
    let redirection_on = switch_of(cs, "Bass Redirection"@) == Some(true);
    let xbass_on = switch_of(cs, "FX: X-Bass"@) == Some(true);
    if redirection_on && bass_block("Bass Redirection"@, cs) is Some {
        bass_block("Bass Redirection"@, cs)
    } else if xbass_on && bass_block("FX: X-Bass"@, cs) is Some {
        bass_block("FX: X-Bass"@, cs)
    } else {
        None
    }
}

/// The position of the first control named `name`.
pub fn find_control_index(controls: &[ControlSnapshot], name: &str) -> (r: Option<usize>)
    ensures
        match r {
            Some(i) => control_index_from(controls@, name@, 0) == Some(i as int) && i
                < controls@.len() && controls@[i as int].name@ == name@,
            None => control_index_from(controls@, name@, 0) is None,
        },
{
    proof {
        lemma_control_index(controls@, name@, 0);
    }
    let mut i: usize = 0;
    while i < controls.len()
        invariant
            i <= controls@.len(),
            control_index_from(controls@, name@, 0) == control_index_from(controls@, name@, i as int),
        decreases controls.len() - i,
    {
        if str_eq(controls[i].name.as_str(), name) {
            return Some(i);
        }
        i += 1;
    }
    None
}

/// The selected choice of the first control named `name`.
pub fn selected_choice_of<'a>(controls: &'a [ControlSnapshot], name: &str) -> (r: Option<&'a String>)
    ensures
        match selected_of(controls@, name@) {
            Some(s) => r is Some && r->0@ == s,
            None => r is None,
        },
{
    match find_control_index(controls, name) {
        Some(i) => match &controls[i].selected {
            Some(s) => Some(s),
            None => None,
        },
        None => None,
    }
}

/// The playback switch of the first control named `name`.
pub fn switch_state_of(controls: &[ControlSnapshot], name: &str) -> (r: Option<bool>)
    ensures
        r == switch_of(controls@, name@),
{
    match find_control_index(controls, name) {
        Some(i) => controls[i].playback_switch,
        None => None,
    }
}

/// Some control named `name` has `choice` selected.
pub fn any_control_selects(controls: &[ControlSnapshot], name: &str, choice: &str) -> (r: bool)
    ensures
        r == any_selects(controls@, name@, choice@),
{
    let mut i: usize = 0;
    while i < controls.len()
        invariant
            i <= controls@.len(),
            forall|j: int|
                0 <= j < i ==> !((#[trigger] controls@[j]).name@ == name@ && selected_text(
                    controls@[j],
                ) == Some(choice@)),
        decreases controls.len() - i,
    {
        let control = &controls[i];
        if str_eq(control.name.as_str(), name) {
            if let Some(selected) = &control.selected {
                if str_eq(selected.as_str(), choice) {
                    return true;
                }
            }
        }
        i += 1;
    }
    false
}

/// Some control named `name` has its playback switch on.
pub fn any_control_switch_on(controls: &[ControlSnapshot], name: &str) -> (r: bool)
    ensures
        r == any_switch_on(controls@, name@),
{
    let mut i: usize = 0;
    while i < controls.len()
        invariant
            i <= controls@.len(),
            forall|j: int|
                0 <= j < i ==> !((#[trigger] controls@[j]).name@ == name@
                    && controls@[j].playback_switch == Some(true)),
        decreases controls.len() - i,
    {
        let control = &controls[i];
        if str_eq(control.name.as_str(), name) && control.playback_switch == Some(true) {
            return true;
        }
        i += 1;
    }
    false
}

/// Some speaker layout control selects a layout with an LFE channel.
fn any_lfe_layout_selected(controls: &[ControlSnapshot]) -> (r: bool)
    ensures
        r == any_lfe_layout(controls@),
{
    let mut i: usize = 0;
    while i < controls.len()
        invariant
            i <= controls@.len(),
            forall|j: int|
                0 <= j < i ==> !((#[trigger] controls@[j]).name@ == "Surround Channel Config"@
                    && match selected_text(controls@[j]) {
                    Some(layout) => text::has_suffix(layout, ".1"@),
                    None => false,
                }),
        decreases controls.len() - i,
    {
        let control = &controls[i];
        if str_eq(control.name.as_str(), "Surround Channel Config") {
            if let Some(selected) = &control.selected {
                if ends_with(selected.as_str(), ".1") {
                    return true;
                }
            }
        }
        i += 1;
    }
    false
}

/// Whether `name` is one of the hardware equalizer bands `EQ Band0`..`EQ Band9`.
pub fn is_equalizer_band(name: &str) -> (r: bool)
    ensures
        r == is_equalizer_band_name(name@),
{
    if !starts_with(name, "EQ Band") {
        return false;
    }
    proof {
        reveal_strlit("EQ Band");
    }
    let n = name.unicode_len();
    let band = name.substring_char(7, n);
    match parse_unsigned_text(band, 255) {
        Some(value) => value < 10,
        None => false,
    }
}

/// Whether writes to `name` go through the hardware OutFX path.
pub fn is_unsafe_hardware_playback_control(name: &str) -> (r: bool)
    ensures
        r == is_unsafe_hardware_playback_name(name@),
{
    str_eq(name, HARDWARE_OUTFX_CONTROL) || str_eq(name, DIRECT_MODE_CONTROL) || is_equalizer_band(
        name,
    ) || str_eq(name, "FX: Surround") || str_eq(name, "FX: Crystalizer") || str_eq(
        name,
        "FX: Dialog Plus",
    ) || str_eq(name, "FX: Smart Volume") || str_eq(name, "FX: Smart Volume Setting") || str_eq(
        name,
        "FX: X-Bass",
    ) || str_eq(name, "FX: X-Bass Crossover") || str_eq(name, "FX: Equalizer") || str_eq(
        name,
        EQUALIZER_PRESET_CONTROL,
    )
}

/// Whether writes to `name` change the output route.
pub fn is_unsafe_output_route_control(name: &str) -> (r: bool)
    ensures
        r == is_unsafe_output_route_name(name@),
{
    str_eq(name, "Output Select") || str_eq(name, "Surround Channel Config")
}

/// The reason any write to `name` is refused, whatever its value.
pub fn unsafe_playback_control_block_reason(name: &str) -> (r: Option<&'static str>)
    ensures
        opt_text(r) == unsafe_block(name@),
{
    if str_eq(name, DIRECT_MODE_CONTROL) {
        Some(UNSAFE_DIRECT_MODE)
    } else if is_unsafe_output_route_control(name) {
        Some(UNSAFE_OUTPUT_ROUTE_TRANSITION)
    } else if is_unsafe_hardware_playback_control(name) {
        Some(UNSAFE_HARDWARE_OUTFX)
    } else {
        None
    }
}

/// The reason enabling a bass-management switch is refused.
fn bass_switch_block_reason(name: &str, controls: &[ControlSnapshot]) -> (r: Option<&'static str>)
    ensures
        opt_text(r) == bass_block(name@, controls@),
{
    let speakers = any_control_selects(controls, "Output Select", "Speakers");
    let has_lfe = any_lfe_layout_selected(controls);
    if str_eq(name, "Bass Redirection") {
        if !speakers {
            Some(BASS_NEEDS_SPEAKERS)
        } else if !has_lfe {
            Some(BASS_NEEDS_LFE_LAYOUT)
        } else if any_control_switch_on(controls, "FX: X-Bass") {
            Some(BASS_NEEDS_XBASS_OFF)
        } else {
            None
        }
    } else if str_eq(name, "FX: X-Bass") && speakers && has_lfe {
        Some(XBASS_WITH_LFE)
    } else {
        None
    }
}

/// Whether some control named `name` is a playback effect.
fn is_playback_effect_control(name: &str, controls: &[ControlSnapshot]) -> (r: bool)
    ensures
        r == is_playback_effect(name@, controls@),
{
    if !starts_with(name, "FX:") {
        return false;
    }
    let mut i: usize = 0;
    while i < controls.len()
        invariant
            i <= controls@.len(),
            text::has_prefix(name@, "FX:"@),
            forall|j: int|
                0 <= j < i ==> !((#[trigger] controls@[j]).name@ == name@ && (
                controls@[j].playback_switch is Some || controls@[j].playback_level is Some)),
        decreases controls.len() - i,
    {
        let control = &controls[i];
        if str_eq(control.name.as_str(), name) && (control.playback_switch.is_some()
            || control.playback_level.is_some()) {
            return true;
        }
        i += 1;
    }
    false
}

/// Whether Direct Mode takes `name` out of the signal path.
fn is_direct_mode_bypassed_control(name: &str, controls: &[ControlSnapshot]) -> (r: bool)
    ensures
        r == is_direct_mode_bypassed(name@, controls@),
{
    str_eq(name, "Enable OutFX") || is_playback_effect_control(name, controls) || starts_with(
        name,
        "EQ Band",
    ) || str_eq(name, "FX: Equalizer Preset") || str_eq(name, "FX: Smart Volume Setting")
        || str_eq(name, "FX: X-Bass Crossover") || str_eq(name, "Bass Redirection") || str_eq(
        name,
        "Bass Redirection Crossover",
    ) || str_eq(name, "Surround Channel Config") || str_eq(name, "Full-Range Front Speakers")
        || str_eq(name, "Full-Range Rear Speakers") || str_eq(name, "Front") || str_eq(
        name,
        "Surround",
    ) || str_eq(name, "Center") || str_eq(name, "LFE") || str_eq(name, "Master") || str_eq(
        name,
        "PCM",
    )
}

/// The reason `name` is inert while Direct Mode is on.
pub fn direct_mode_block_reason(name: &str, controls: &[ControlSnapshot]) -> (r: Option<&'static str>)
    ensures
        opt_text(r) == direct_mode_block(name@, controls@),
{
    if str_eq(name, DIRECT_MODE_CONTROL) || !is_direct_mode_bypassed_control(name, controls) {
        return None;
    }
    if any_control_switch_on(controls, DIRECT_MODE_CONTROL) {
        Some(DIRECT_MODE_DSP_BLOCK)
    } else {
        None
    }
}

/// The reason a playback switch write of `enabled` to `name` is refused.
pub fn playback_switch_block_reason(name: &str, enabled: bool, controls: &[ControlSnapshot]) -> (r:
    Option<&'static str>)
    ensures
        opt_text(r) == playback_switch_block(name@, enabled, controls@),
        !enabled ==> opt_text(r) == unsafe_block(name@),
        unsafe_block(name@) is Some ==> opt_text(r) == unsafe_block(name@),
{
    if let Some(reason) = unsafe_playback_control_block_reason(name) {
        return Some(reason);
    }
    if !enabled {
        return None;
    }
    if let Some(reason) = direct_mode_block_reason(name, controls) {
        return Some(reason);
    }
    bass_switch_block_reason(name, controls)
}

/// The reason a hardware equalizer band cannot be edited.
pub fn equalizer_band_block_reason(name: &str, controls: &[ControlSnapshot]) -> (r: Option<
    &'static str,
>)
    ensures
        opt_text(r) == equalizer_band_block(name@, controls@),
{
    if !is_equalizer_band(name) {
        return None;
    }
    if let Some(reason) = direct_mode_block_reason(name, controls) {
        return Some(reason);
    }
    match selected_choice_of(controls, EQUALIZER_PRESET_CONTROL) {
        Some(preset) => if eq_ignore_ascii_case(preset.as_str(), "Flat") {
            None
        } else {
            Some(EQUALIZER_BAND_EDIT_BLOCK)
        },
        None => None,
    }
}

/// The reason the Smart Volume level cannot be edited.
pub fn smart_volume_level_block_reason(name: &str, controls: &[ControlSnapshot]) -> (r: Option<
    &'static str,
>)
    ensures
        opt_text(r) == smart_volume_block(name@, controls@),
{
    if !str_eq(name, "FX: Smart Volume") {
        return None;
    }
    match selected_choice_of(controls, "FX: Smart Volume Setting") {
        Some(mode) => if eq_ignore_ascii_case(mode.as_str(), "Loud") || eq_ignore_ascii_case(
            mode.as_str(),
            "Night",
        ) {
            Some(FIXED_SMART_VOLUME_LEVEL)
        } else {
            None
        },
        None => None,
    }
}

/// The reason a capture control write is refused.
pub fn capture_control_block_reason(name: &str) -> (r: Option<&'static str>)
    ensures
        opt_text(r) == (if name@ == "What U Hear"@ {
            Some(INEFFECTIVE_WHAT_U_HEAR_CONTROL@)
        } else {
            None
        }),
{
    if str_eq(name, "What U Hear") {
        Some(INEFFECTIVE_WHAT_U_HEAR_CONTROL)
    } else {
        None
    }
}

/// What is wrong with the headphone DAC path, if anything.
pub fn headphone_playback_issue(controls: &[ControlSnapshot]) -> (r: Option<&'static str>)
    ensures
        opt_text(r) == headphone_issue(controls@),
{
    let headphone_selected = any_control_selects(controls, "Output Select", "Headphone");
    let direct_mode = any_control_switch_on(controls, DIRECT_MODE_CONTROL);
    if !headphone_selected || direct_mode {
        return None;
    }
    match switch_state_of(controls, "Master") {
        Some(true) => {},
        Some(false) => return Some(MUTED_HEADPHONE_MASTER),
        None => return Some(UNVERIFIED_HEADPHONE_MASTER),
    }
    match switch_state_of(controls, "Front") {
        Some(true) => None,
        Some(false) => Some(MUTED_HEADPHONE_PLAYBACK),
        None => Some(UNVERIFIED_HEADPHONE_PLAYBACK),
    }
}

/// The reason the current bass-management switches are inconsistent.
pub fn invalid_bass_state_reason(controls: &[ControlSnapshot]) -> (r: Option<&'static str>)
    ensures
        opt_text(r) == invalid_bass_state(controls@),
{
    let redirection_on = switch_state_of(controls, "Bass Redirection") == Some(true);
    if redirection_on {
        if let Some(reason) = bass_switch_block_reason("Bass Redirection", controls) {
            return Some(reason);
        }
    }
    let xbass_on = switch_state_of(controls, "FX: X-Bass") == Some(true);
    if xbass_on {
        if let Some(reason) = bass_switch_block_reason("FX: X-Bass", controls) {
            return Some(reason);
        }
    }
    None
}

/// A failed or refused mixer operation.
#[derive(Clone, Debug, Eq, PartialEq)]
pub enum ControlError {
    /// The ALSA library reported an error; the text is its message.
    Alsa(String),
    /// A PipeWire or WirePlumber operation failed; the text is its message.
    DesktopRoute(String),
    /// The named ALSA control does not exist.
    Missing(String),
    /// The request was refused before any write.
    Invalid(String),
    /// A write did not read back as expected.
    Verification(String),
}

/// The text a user sees for a control error.
pub open spec fn control_error_text(e: ControlError) -> Seq<char> {
    match e {
        ControlError::Alsa(m) => m@,
        ControlError::DesktopRoute(m) => "desktop audio operation failed: "@ + m@,
        ControlError::Missing(name) => "ALSA control '"@ + name@ + "' is unavailable"@,
        ControlError::Invalid(m) => m@,
        ControlError::Verification(m) => m@,
    }
}

impl ControlError {
    /// The text a user sees for this error.
    pub fn message(&self) -> (r: String)
        ensures
            r@ == control_error_text(*self),
    {
        match self {
            ControlError::Alsa(m) => m.clone(),
            ControlError::DesktopRoute(m) => {
                let mut s = owned("desktop audio operation failed: ");
                push_str(&mut s, m.as_str());
                s
            },
            ControlError::Missing(name) => {
                let mut s = owned("ALSA control '");
                push_str(&mut s, name.as_str());
                push_str(&mut s, "' is unavailable");
                s
            },
            ControlError::Invalid(m) => m.clone(),
            ControlError::Verification(m) => m.clone(),
        }
    }
}

/// The message for a value outside a control's range.
pub open spec fn out_of_range_text(name: Seq<char>, value: i64, min: i64, max: i64) -> Seq<char> {
    text::signed_decimal(value as int) + " is outside the valid range for '"@ + name + "' ("@
        + text::signed_decimal(min as int) + ".."@ + text::signed_decimal(max as int) + ")"@
}

/// Refuses a value outside `min..=max` before it reaches the hardware.
pub fn validate_range(name: &str, value: i64, min: i64, max: i64) -> (r: Result<(), ControlError>)
    ensures
        r is Ok <==> min <= value <= max,
        r matches Err(e) ==> e == ControlError::Invalid(e->Invalid_0) && e->Invalid_0@
            == out_of_range_text(name@, value, min, max),
{
    if min <= value && value <= max {
        Ok(())
    } else {
        let mut s = String::new();
        push_signed(&mut s, value);
        push_str(&mut s, " is outside the valid range for '");
        push_str(&mut s, name);
        push_str(&mut s, "' (");
        push_signed(&mut s, min);
        push_str(&mut s, "..");
        push_signed(&mut s, max);
        push_str(&mut s, ")");
        Err(ControlError::Invalid(s))
    }
}

/// The first position of a choice equal to `requested` ignoring ASCII case.
pub open spec fn choice_position_from(choices: Seq<String>, requested: Seq<char>, i: int) -> Option<
    int,
>
    decreases choices.len() - i,
{
    if i < 0 || i >= choices.len() {
        None
    } else if text::eq_ignore_case(choices[i]@, requested) {
        Some(i)
    } else {
        choice_position_from(choices, requested, i + 1)
    }
}

/// The position of the enumerated choice that `requested` names, ignoring ASCII case.
pub fn choice_index(choices: &[String], requested: &str) -> (r: Option<usize>)
    ensures
        match r {
            Some(i) => choice_position_from(choices@, requested@, 0) == Some(i as int),
            None => choice_position_from(choices@, requested@, 0) is None,
        },
{
    let mut i: usize = 0;
    while i < choices.len()
        invariant
            i <= choices@.len(),
            choice_position_from(choices@, requested@, 0) == choice_position_from(
                choices@,
                requested@,
                i as int,
            ),
        decreases choices.len() - i,
    {
        if eq_ignore_ascii_case(choices[i].as_str(), requested) {
            return Some(i);
        }
        i += 1;
    }
    None
}

/// The message for a channel the control does not have, listing the ones it has.
pub open spec fn invalid_channel_text(requested: Seq<char>, names: Seq<String>) -> Seq<char> {
    "'"@ + requested + "' is not a valid channel; expected one of: "@ + text::join_with(
        text::strings_view(names),
        ", "@,
    )
}

/// The position of the channel that `requested` names, ignoring ASCII case,
/// among the channel names a control has.
pub fn find_channel(channel_names: &Vec<String>, requested: &str) -> (r: Result<usize, ControlError>)
    ensures
        match choice_position_from(channel_names@, requested@, 0) {
            Some(i) => r == Ok::<usize, ControlError>(i as usize),
            None => r matches Err(e) && e == ControlError::Invalid(e->Invalid_0)
                && e->Invalid_0@ == invalid_channel_text(requested@, channel_names@),
        },
{
    match choice_index(channel_names.as_slice(), requested) {
        Some(i) => Ok(i),
        None => {
            let mut s = owned("'");
            push_str(&mut s, requested);
            push_str(&mut s, "' is not a valid channel; expected one of: ");
            let choices = text::join_strings(channel_names, ", ");
            push_str(&mut s, choices.as_str());
            Err(ControlError::Invalid(s))
        },
    }
}

/// Whether a control's capture volume is a real capture level: the driver
/// also advertises one on the Bass Redirection crossover, which has none.
pub fn has_capture_level(name: &str, has_capture_volume: bool) -> (r: bool)
    ensures
        r == (name@ != "Bass Redirection Crossover"@ && has_capture_volume),
{
    !str_eq(name, "Bass Redirection Crossover") && has_capture_volume
}

/// Whether a choice for `name` selects the high headphone gain.
pub fn is_high_headphone_gain(name: &str, requested: &str) -> (r: bool)
    ensures
        r == (name@ == "AE-5: Headphone Gain"@ && text::has_prefix(
            text::lower_seq(requested@),
            "high"@,
        )),
{
    if !str_eq(name, "AE-5: Headphone Gain") {
        return false;
    }
    let lowered = to_ascii_lowercase(requested);
    starts_with(lowered.as_str(), "high")
}

/// `Debug` text of an optional boolean.
pub open spec fn option_bool_debug(v: Option<bool>) -> Seq<char> {
    match v {
        Some(true) => "Some(true)"@,
        Some(false) => "Some(false)"@,
        None => "None"@,
    }
}

/// `Debug` text of a boolean.
pub open spec fn bool_text(v: bool) -> Seq<char> {
    if v {
        "true"@
    } else {
        "false"@
    }
}

/// `Debug` text of an optional integer.
pub open spec fn option_int_debug(v: Option<i64>) -> Seq<char> {
    match v {
        Some(x) => "Some("@ + text::signed_decimal(x as int) + ")"@,
        None => "None"@,
    }
}

/// Appends `true` or `false`.
pub fn push_bool(s: &mut String, v: bool)
    ensures
        final(s)@ == old(s)@ + bool_text(v),
{
    if v {
        push_str(s, "true");
    } else {
        push_str(s, "false");
    }
}

/// The readback mismatch message for a switch or single value.
pub open spec fn readback_text(name: Seq<char>, field: Seq<char>, actual: Seq<char>, expected: Seq<
    char,
>) -> Seq<char> {
    "'"@ + name + "' "@ + field + " read back as "@ + actual + ", expected "@ + expected
}

/// Checks that a switch read back as written.
pub fn verify(name: &str, field: &str, expected: bool, actual: Option<bool>) -> (r: Result<
    (),
    ControlError,
>)
    ensures
        r is Ok <==> actual == Some(expected),
        r matches Err(e) ==> e == ControlError::Verification(e->Verification_0)
            && e->Verification_0@ == readback_text(
            name@,
            field@,
            option_bool_debug(actual),
            bool_text(expected),
        ),
{
    if actual == Some(expected) {
        return Ok(());
    }
    let mut s = owned("'");
    push_str(&mut s, name);
    push_str(&mut s, "' ");
    push_str(&mut s, field);
    push_str(&mut s, " read back as ");
    match actual {
        Some(true) => push_str(&mut s, "Some(true)"),
        Some(false) => push_str(&mut s, "Some(false)"),
        None => push_str(&mut s, "None"),
    }
    push_str(&mut s, ", expected ");
    push_bool(&mut s, expected);
    Err(ControlError::Verification(s))
}

/// The characters and value of a channel level.
pub open spec fn channel_view(c: ChannelLevel) -> (Seq<char>, i64) {
    (c.name@, c.value)
}

/// The `Debug` text of a list of channel levels, as the derived `Debug` prints it.
pub uninterp spec fn channels_debug_text(channels: Seq<(Seq<char>, i64)>) -> Seq<char>;

/// The `Debug` text of a list of channel levels.
///
/// Calls `format!("{:?}")` with the derived `Debug` of `ChannelLevel`; the
/// result is named, not spelled out, because `Debug` escaping of the channel
/// names is `core::fmt`'s to define.
#[verifier::external_body]
fn debug_channels(channels: &[ChannelLevel]) -> (r: String)
    ensures
        r@ == channels_debug_text(channels@.map_values(|c: ChannelLevel| channel_view(c))),
{
    format!("{channels:?}")
}

/// Checks that every channel of a level read back as `expected`.
pub fn verify_channels(name: &str, field: &str, expected: i64, actual: &[ChannelLevel]) -> (r:
    Result<(), ControlError>)
    ensures
        r is Ok <==> (actual@.len() > 0 && forall|i: int|
            0 <= i < actual@.len() ==> (#[trigger] actual@[i]).value == expected),
        r matches Err(e) ==> e == ControlError::Verification(e->Verification_0)
            && e->Verification_0@ == "'"@ + name@ + "' "@ + field@ + " read back as "@
            + channels_debug_text(actual@.map_values(|c: ChannelLevel| channel_view(c)))
            + ", expected every channel to be "@ + text::signed_decimal(expected as int),
{
    let mut all = actual.len() > 0;
    let mut i: usize = 0;
    while i < actual.len()
        invariant
            i <= actual@.len(),
            all == (actual@.len() > 0 && forall|j: int|
                0 <= j < i ==> (#[trigger] actual@[j]).value == expected),
        decreases actual.len() - i,
    {
        if actual[i].value != expected {
            all = false;
        }
        i += 1;
    }
    if all {
        return Ok(());
    }
    let mut s = owned("'");
    push_str(&mut s, name);
    push_str(&mut s, "' ");
    push_str(&mut s, field);
    push_str(&mut s, " read back as ");
    let listed = debug_channels(actual);
    push_str(&mut s, listed.as_str());
    push_str(&mut s, ", expected every channel to be ");
    push_signed(&mut s, expected);
    Err(ControlError::Verification(s))
}

/// The value of the first channel whose name equals `channel` ignoring ASCII case.
pub open spec fn channel_value_from(levels: Seq<ChannelLevel>, channel: Seq<char>, i: int) -> Option<
    i64,
>
    decreases levels.len() - i,
{
    if i < 0 || i >= levels.len() {
        None
    } else if text::eq_ignore_case(levels[i].name@, channel) {
        Some(levels[i].value)
    } else {
        channel_value_from(levels, channel, i + 1)
    }
}

/// The value of the first channel named `channel`, ignoring ASCII case.
fn channel_value(actual: &[ChannelLevel], channel: &str) -> (r: Option<i64>)
    ensures
        r == channel_value_from(actual@, channel@, 0),
{
    let mut i: usize = 0;
    while i < actual.len()
        invariant
            i <= actual@.len(),
            channel_value_from(actual@, channel@, 0) == channel_value_from(actual@, channel@, i as int),
        decreases actual.len() - i,
    {
        if eq_ignore_ascii_case(actual[i].name.as_str(), channel) {
            return Some(actual[i].value);
        }
        i += 1;
    }
    None
}

/// Checks that one named channel read back as `expected`.
pub fn verify_channel(name: &str, field: &str, channel: &str, expected: i64, actual: &[ChannelLevel]) -> (r:
    Result<(), ControlError>)
    ensures
        r is Ok <==> channel_value_from(actual@, channel@, 0) == Some(expected),
        r matches Err(e) ==> e == ControlError::Verification(e->Verification_0)
            && e->Verification_0@ == readback_text(
            name@,
            field@ + " channel '"@ + channel@ + "' level"@,
            option_int_debug(channel_value_from(actual@, channel@, 0)),
            text::signed_decimal(expected as int),
        ),
{
    let value = channel_value(actual, channel);
    if value == Some(expected) {
        return Ok(());
    }
    let mut s = owned("'");
    push_str(&mut s, name);
    push_str(&mut s, "' ");
    push_str(&mut s, field);
    push_str(&mut s, " channel '");
    push_str(&mut s, channel);
    push_str(&mut s, "' level");
    push_str(&mut s, " read back as ");
    match value {
        Some(v) => {
            push_str(&mut s, "Some(");
            push_signed(&mut s, v);
            push_str(&mut s, ")");
        },
        None => push_str(&mut s, "None"),
    }
    push_str(&mut s, ", expected ");
    push_signed(&mut s, expected);
    Err(ControlError::Verification(s))
}

/// The absolute value of an integer.
pub open spec fn abs_int(v: int) -> nat {
    if v < 0 {
        (-v) as nat
    } else {
        v as nat
    }
}

/// Two decimal digits for a value below 100.
pub open spec fn two_digits(d: nat) -> Seq<char> {
    seq![text::digit_char(d / 10), text::digit_char(d % 10)]
}

/// Hundredths of a decibel rendered as `+1.00 dB`, with an explicit sign.
pub open spec fn db_text(hundredths: i64) -> Seq<char> {
    let a = abs_int(hundredths as int);
    (if hundredths < 0 {
        "-"@
    } else {
        "+"@
    }) + text::decimal(a / 100) + "."@ + two_digits(a % 100) + " dB"@
}

/// The characters of one decimal digit below 10.
fn digit_str(d: u64) -> (r: &'static str)
    requires
        d < 10,
    ensures
        r@ == seq![text::digit_char(d as nat)],
{
    proof {
        reveal_strlit("0");
        reveal_strlit("1");
        reveal_strlit("2");
        reveal_strlit("3");
        reveal_strlit("4");
        reveal_strlit("5");
        reveal_strlit("6");
        reveal_strlit("7");
        reveal_strlit("8");
        reveal_strlit("9");
    }
    if d == 0 {
        "0"
    } else if d == 1 {
        "1"
    } else if d == 2 {
        "2"
    } else if d == 3 {
        "3"
    } else if d == 4 {
        "4"
    } else if d == 5 {
        "5"
    } else if d == 6 {
        "6"
    } else if d == 7 {
        "7"
    } else if d == 8 {
        "8"
    } else {
        "9"
    }
}

/// Appends hundredths of a decibel as `+1.00 dB`.
pub fn push_db(s: &mut String, hundredths: i64)
    ensures
        final(s)@ == old(s)@ + db_text(hundredths),
{
    let magnitude: u64 = if hundredths == i64::MIN {
        9223372036854775808u64
    } else if hundredths < 0 {
        (-hundredths) as u64
    } else {
        hundredths as u64
    };
    if hundredths < 0 {
        push_str(s, "-");
    } else {
        push_str(s, "+");
    }
    push_decimal(s, magnitude / 100);
    push_str(s, ".");
    let cents = magnitude % 100;
    push_str(s, digit_str(cents / 10));
    push_str(s, digit_str(cents % 10));
    push_str(s, " dB");
    assert(abs_int(hundredths as int) == magnitude as nat);
}

/// Hundredths of a decibel rendered as `+1.00 dB`.
pub fn format_db(hundredths: i64) -> (r: String)
    ensures
        r@ == db_text(hundredths),
{
    let mut s = String::new();
    push_db(&mut s, hundredths);
    s
}

/// `on` or `off`.
pub open spec fn on_off_text(enabled: bool) -> Seq<char> {
    if enabled {
        "on"@
    } else {
        "off"@
    }
}

/// `on` or `off`.
pub fn on_off(enabled: bool) -> (r: &'static str)
    ensures
        r@ == on_off_text(enabled),
{
    if enabled {
        "on"
    } else {
        "off"
    }
}

/// One channel rendered as `name=value`.
pub open spec fn channel_text(c: ChannelLevel) -> Seq<char> {
    c.name@ + "="@ + text::signed_decimal(c.value as int)
}

/// Channels rendered as `name=value`, separated by `, `.
pub open spec fn channels_text(cs: Seq<ChannelLevel>) -> Seq<char>
    decreases cs.len(),
{
    if cs.len() == 0 {
        Seq::empty()
    } else if cs.len() == 1 {
        channel_text(cs[0])
    } else {
        channels_text(cs.drop_last()) + ", "@ + channel_text(cs.last())
    }
}

/// Channels rendered as `name=value`, separated by `, `.
pub fn format_channels(channels: &[ChannelLevel]) -> (r: String)
    ensures
        r@ == channels_text(channels@),
{
    let mut s = String::new();
    let mut i: usize = 0;
    while i < channels.len()
        invariant
            i <= channels@.len(),
            s@ == channels_text(channels@.subrange(0, i as int)),
        decreases channels.len() - i,
    {
        if i > 0 {
            push_str(&mut s, ", ");
        }
        push_str(&mut s, channels[i].name.as_str());
        push_str(&mut s, "=");
        push_signed(&mut s, channels[i].value);
        i += 1;
        assert(channels@.subrange(0, i as int).drop_last() =~= channels@.subrange(0, i - 1));
    }
    assert(channels@.subrange(0, channels@.len() as int) =~= channels@);
    s
}

/// One level rendered for the control summary.
pub open spec fn level_text(direction: Seq<char>, l: Level) -> Seq<char> {
    " | "@ + direction + " level "@ + text::signed_decimal(l.value as int) + " ["@
        + text::signed_decimal(l.min as int) + ".."@ + text::signed_decimal(l.max as int) + "]"@
        + match l.db {
        Some(db) => " | "@ + direction + " dB "@ + db_text(db.min) + ".."@ + db_text(db.max) + " ("@
            + db_text(db.step) + " step)"@,
        None => Seq::empty(),
    }
}

/// The selected-choice part of a control summary.
pub open spec fn selected_part(c: ControlSnapshot) -> Seq<char> {
    match c.selected {
        Some(s) => ": "@ + s@,
        None => Seq::empty(),
    }
}

/// A switch part of a control summary.
pub open spec fn switch_part(direction: Seq<char>, v: Option<bool>) -> Seq<char> {
    match v {
        Some(e) => " | "@ + direction + " "@ + on_off_text(e),
        None => Seq::empty(),
    }
}

/// A level part of a control summary.
pub open spec fn level_part(direction: Seq<char>, v: Option<Level>) -> Seq<char> {
    match v {
        Some(l) => level_text(direction, l),
        None => Seq::empty(),
    }
}

/// A per-channel part of a control summary, shown for more than one channel.
pub open spec fn channels_part(direction: Seq<char>, cs: Seq<ChannelLevel>) -> Seq<char> {
    if cs.len() > 1 {
        " | "@ + direction + " "@ + channels_text(cs)
    } else {
        Seq::empty()
    }
}

/// The one-line summary of a control, as the command line prints it.
pub open spec fn snapshot_text(c: ControlSnapshot) -> Seq<char> {
    c.name@ + selected_part(c) + switch_part("playback"@, c.playback_switch) + level_part(
        "playback"@,
        c.playback_level,
    ) + switch_part("capture"@, c.capture_switch) + level_part("capture"@, c.capture_level)
        + channels_part("playback"@, c.playback_channels@) + channels_part(
        "capture"@,
        c.capture_channels@,
    )
}

/// Appends a switch part of the control summary.
fn push_switch(s: &mut String, direction: &str, v: Option<bool>)
    ensures
        final(s)@ == old(s)@ + switch_part(direction@, v),
{
    if let Some(enabled) = v {
        push_str(s, " | ");
        push_str(s, direction);
        push_str(s, " ");
        push_str(s, on_off(enabled));
    }
}

/// Appends a level part of the control summary.
fn push_level_part(s: &mut String, direction: &str, v: &Option<Level>)
    ensures
        final(s)@ == old(s)@ + level_part(direction@, *v),
{
    if let Some(level) = v {
        push_level(s, direction, level);
    }
}

/// Appends a per-channel part of the control summary.
fn push_channels_part(s: &mut String, direction: &str, channels: &Vec<ChannelLevel>)
    ensures
        final(s)@ == old(s)@ + channels_part(direction@, channels@),
{
    if channels.len() > 1 {
        push_str(s, " | ");
        push_str(s, direction);
        push_str(s, " ");
        let listed = format_channels(channels.as_slice());
        push_str(s, listed.as_str());
    }
}

/// Appends one level of the control summary.
fn push_level(s: &mut String, direction: &str, level: &Level)
    ensures
        final(s)@ == old(s)@ + level_text(direction@, *level),
{
    push_str(s, " | ");
    push_str(s, direction);
    push_str(s, " level ");
    push_signed(s, level.value);
    push_str(s, " [");
    push_signed(s, level.min);
    push_str(s, "..");
    push_signed(s, level.max);
    push_str(s, "]");
    if let Some(db) = &level.db {
        push_str(s, " | ");
        push_str(s, direction);
        push_str(s, " dB ");
        push_db(s, db.min);
        push_str(s, "..");
        push_db(s, db.max);
        push_str(s, " (");
        push_db(s, db.step);
        push_str(s, " step)");
    }
}

impl ControlSnapshot {
    /// The one-line summary of this control, as the command line prints it.
    pub fn display_text(&self) -> (r: String)
        ensures
            r@ == snapshot_text(*self),
    {
        let mut s = self.name.clone();
        if let Some(selected) = &self.selected {
            push_str(&mut s, ": ");
            push_str(&mut s, selected.as_str());
        }
        assert(s@ == self.name@ + selected_part(*self));
        push_switch(&mut s, "playback", self.playback_switch);
        push_level_part(&mut s, "playback", &self.playback_level);
        push_switch(&mut s, "capture", self.capture_switch);
        push_level_part(&mut s, "capture", &self.capture_level);
        push_channels_part(&mut s, "playback", &self.playback_channels);
        push_channels_part(&mut s, "capture", &self.capture_channels);
        s
    }
}

/// The playback level of the first control named `name`.
pub open spec fn level_of(cs: Seq<ControlSnapshot>, name: Seq<char>) -> Option<Level> {
    match find_control(cs, name) {
        Some(c) => c.playback_level,
        None => None,
    }
}

/// `v` limited to `lo..=hi`.
pub open spec fn clamp(v: int, lo: int, hi: int) -> int {
    if v < lo {
        lo
    } else if v > hi {
        hi
    } else {
        v
    }
}

/// The Master and Front levels can be combined without a panic: each range is
/// ordered and every intermediate sum fits in an `i64`.
pub open spec fn vmaster_levels_ok(cs: Seq<ControlSnapshot>) -> bool {
    match (level_of(cs, "Master"@), level_of(cs, "Front"@)) {
        (Some(m), Some(f)) => f.min <= f.max && m.min <= m.max && i64::MIN <= f.value + m.value
            <= i64::MAX && i64::MIN <= f.value + m.value - m.max <= i64::MAX && i64::MIN <= m.max
            + f.min <= i64::MAX && i64::MIN <= m.max + f.min - f.value <= i64::MAX,
        _ => true,
    }
}

/// The warning shown when ALSA's virtual Master and the Front level together
/// hold the effective Front level at its floor.
pub open spec fn vmaster_clamp_warning(cs: Seq<ControlSnapshot>) -> Option<Seq<char>> {
    match (level_of(cs, "Master"@), level_of(cs, "Front"@)) {
        (Some(m), Some(f)) => {
            let effective = clamp(f.value + m.value - m.max, f.min as int, f.max as int);
            if effective != f.min {
                None
            } else {
                let last = clamp(m.max + f.min - f.value, m.min as int, m.max as int);
                let consequence = if last < m.max {
                    "Master changes remain at the floor through "@ + text::signed_decimal(last) + "/"@
                        + text::signed_decimal(m.max as int) + " while Front stays at "@
                        + text::signed_decimal(f.value as int) + "/"@ + text::signed_decimal(
                        f.max as int,
                    ) + "."@
                } else {
                    "Master cannot raise effective Front until the Front level changes."@
                };
                Some(
                    "ALSA's virtual Master and Front attenuations stack: effective Front is "@
                        + text::signed_decimal(effective) + "/"@ + text::signed_decimal(
                        f.max as int,
                    ) + " ("@ + text::signed_decimal(m.value as int) + " + "@
                        + text::signed_decimal(f.value as int) + " − "@ + text::signed_decimal(
                        m.max as int,
                    ) + "). "@ + consequence,
                )
            }
        },
        _ => None,
    }
}

/// `v` limited to `lo..=hi` (`Ord::clamp`).
fn clamp_i64(v: i64, lo: i64, hi: i64) -> (r: i64)
    requires
        lo <= hi,
    ensures
        r == clamp(v as int, lo as int, hi as int),
{
    if v < lo {
        lo
    } else if v > hi {
        hi
    } else {
        v
    }
}

/// Explains when ALSA's virtual Master and the Front level stack so that
/// effective Front sits at its floor.
pub fn front_vmaster_clamp_warning(controls: &[ControlSnapshot]) -> (r: Option<String>)
    requires
        vmaster_levels_ok(controls@),
    ensures
        match vmaster_clamp_warning(controls@) {
            Some(t) => r is Some && r->0@ == t,
            None => r is None,
        },
{
    let master = match find_control_index(controls, "Master") {
        Some(i) => match &controls[i].playback_level {
            Some(level) => level,
            None => return None,
        },
        None => return None,
    };
    let front = match find_control_index(controls, "Front") {
        Some(i) => match &controls[i].playback_level {
            Some(level) => level,
            None => return None,
        },
        None => return None,
    };
    let effective = clamp_i64(front.value + master.value - master.max, front.min, front.max);
    if effective != front.min {
        return None;
    }
    let last_clamped_master = clamp_i64(
        master.max + front.min - front.value,
        master.min,
        master.max,
    );
    let mut s = owned("ALSA's virtual Master and Front attenuations stack: effective Front is ");
    push_signed(&mut s, effective);
    push_str(&mut s, "/");
    push_signed(&mut s, front.max);
    push_str(&mut s, " (");
    push_signed(&mut s, master.value);
    push_str(&mut s, " + ");
    push_signed(&mut s, front.value);
    push_str(&mut s, " − ");
    push_signed(&mut s, master.max);
    push_str(&mut s, "). ");
    if last_clamped_master < master.max {
        push_str(&mut s, "Master changes remain at the floor through ");
        push_signed(&mut s, last_clamped_master);
        push_str(&mut s, "/");
        push_signed(&mut s, master.max);
        push_str(&mut s, " while Front stays at ");
        push_signed(&mut s, front.value);
        push_str(&mut s, "/");
        push_signed(&mut s, front.max);
        push_str(&mut s, ".");
    } else {
        push_str(&mut s, "Master cannot raise effective Front until the Front level changes.");
    }
    Some(s)
}

/// The selected choice of the first control named `name`, which must have one.
pub fn selected_choice<'a>(controls: &'a [ControlSnapshot], name: &str) -> (r: Result<&'a String, ControlError>)
    ensures
        match selected_of(controls@, name@) {
            Some(s) => r matches Ok(x) && x@ == s,
            None => r matches Err(ControlError::Missing(n)) && n@ == name@,
        },
{
    match selected_choice_of(controls, name) {
        Some(s) => Ok(s),
        None => Err(ControlError::Missing(owned(name))),
    }
}

/// What a route repair writes: the output and input choices to apply
/// again, and the playback switches to unmute.
#[derive(Clone, Debug, Eq, PartialEq)]
pub struct RouteRepairPlan {
    pub output: Option<String>,
    pub input: Option<String>,
    pub unmute_master: bool,
    pub unmute_front: bool,
}

/// A route repair plan as plain values.
pub open spec fn route_plan_view(p: RouteRepairPlan) -> (Option<Seq<char>>, Option<Seq<char>>, bool, bool) {
    (text::opt_string_view(p.output), text::opt_string_view(p.input), p.unmute_master, p.unmute_front)
}

impl Default for RouteRepairPlan {
    /// The plan that writes nothing.
    fn default() -> (r: Self)
        ensures
            route_plan_view(r) == (None::<Seq<char>>, None::<Seq<char>>, false, false),
    {
        RouteRepairPlan { output: None, input: None, unmute_master: false, unmute_front: false }
    }
}

/// The headphone path needs the hardware Master and Front playback unmuted
/// unless Direct Mode bypasses them.
pub open spec fn headphone_path(cs: Seq<ControlSnapshot>) -> bool {
    selected_of(cs, "Output Select"@) == Some("Headphone"@) && !any_switch_on(cs, DIRECT_MODE_CONTROL@)
}

/// The route repair the controls need, or the control it cannot be judged
/// without.  `output_issue` and `input_issue` are PipeWire's verdict on the
/// selected output (with its layout) and input.
pub open spec fn route_plan_problem(cs: Seq<ControlSnapshot>) -> Option<Seq<char>> {
    if selected_of(cs, "Output Select"@) is None {
        Some("Output Select"@)
    } else if selected_of(cs, "Surround Channel Config"@) is None {
        Some("Surround Channel Config"@)
    } else if selected_of(cs, "Input Source"@) is None {
        Some("Input Source"@)
    } else if headphone_path(cs) && switch_of(cs, "Master"@) is None {
        Some("Master playback switch"@)
    } else if headphone_path(cs) && switch_of(cs, "Front"@) is None {
        Some("Front playback switch"@)
    } else {
        None
    }
}

/// Decides the route repair from the controls and PipeWire's verdict on
/// the selected output (with its layout) and input.
pub fn route_repair_plan(controls: &[ControlSnapshot], output_issue: bool, input_issue: bool) -> (r: Result<RouteRepairPlan, ControlError>)
    ensures
        match route_plan_problem(controls@) {
            Some(missing) => r matches Err(ControlError::Missing(n)) && n@ == missing,
            None => r matches Ok(p) && route_plan_view(p) == (
                if output_issue { selected_of(controls@, "Output Select"@) } else { None },
                if input_issue { selected_of(controls@, "Input Source"@) } else { None },
                headphone_path(controls@) && switch_of(controls@, "Master"@) == Some(false),
                headphone_path(controls@) && switch_of(controls@, "Front"@) == Some(false),
            ),
        },
{
    proof {
        reveal_strlit("Headphone");
    }
    let output = selected_choice(controls, "Output Select")?;
    let _layout = selected_choice(controls, "Surround Channel Config")?;
    let input = selected_choice(controls, "Input Source")?;
    let direct_mode = any_control_switch_on(controls, DIRECT_MODE_CONTROL);
    let headphones = str_eq(output.as_str(), "Headphone") && !direct_mode;
    let unmute_master = if headphones {
        match switch_state_of(controls, "Master") {
            Some(enabled) => !enabled,
            None => return Err(ControlError::Missing(owned("Master playback switch"))),
        }
    } else {
        false
    };
    let unmute_front = if headphones {
        match switch_state_of(controls, "Front") {
            Some(enabled) => !enabled,
            None => return Err(ControlError::Missing(owned("Front playback switch"))),
        }
    } else {
        false
    };
    Ok(RouteRepairPlan {
        output: if output_issue { Some(output.clone()) } else { None },
        input: if input_issue { Some(input.clone()) } else { None },
        unmute_master,
        unmute_front,
    })
}

/// The changes a route repair reports, in the order it makes them.
pub open spec fn route_repair_change_texts(p: (Option<Seq<char>>, Option<Seq<char>>, bool, bool)) -> Seq<Seq<char>> {
    (match p.0 {
        Some(o) => seq!["reapplied "@ + o + " output"@],
        None => Seq::empty(),
    }) + (match p.1 {
        Some(i) => seq!["reapplied "@ + i + " input"@],
        None => Seq::empty(),
    }) + (if p.2 {
        seq!["unmuted hardware Master playback"@]
    } else {
        Seq::empty()
    }) + (if p.3 {
        seq!["unmuted Front playback"@]
    } else {
        Seq::empty()
    })
}

/// The changes a route repair reports for its plan.
pub fn route_repair_changes(plan: &RouteRepairPlan) -> (r: Vec<String>)
    ensures
        text::strings_view(r@) == route_repair_change_texts(route_plan_view(*plan)),
{
    let mut changes: Vec<String> = Vec::new();
    if let Some(output) = &plan.output {
        let mut m = owned("reapplied ");
        push_str(&mut m, output.as_str());
        push_str(&mut m, " output");
        changes.push(m);
    }
    let ghost c1 = text::strings_view(changes@);
    if let Some(input) = &plan.input {
        let mut m = owned("reapplied ");
        push_str(&mut m, input.as_str());
        push_str(&mut m, " input");
        changes.push(m);
    }
    let ghost c2 = text::strings_view(changes@);
    if plan.unmute_master {
        changes.push(owned("unmuted hardware Master playback"));
    }
    let ghost c3 = text::strings_view(changes@);
    if plan.unmute_front {
        changes.push(owned("unmuted Front playback"));
    }
    proof {
        let v = route_plan_view(*plan);
        assert(c1 =~= (match v.0 {
            Some(o) => seq!["reapplied "@ + o + " output"@],
            None => Seq::<Seq<char>>::empty(),
        }));
        assert(c2 =~= c1 + (match v.1 {
            Some(i) => seq!["reapplied "@ + i + " input"@],
            None => Seq::<Seq<char>>::empty(),
        }));
        assert(c3 =~= c2 + (if v.2 {
            seq!["unmuted hardware Master playback"@]
        } else {
            Seq::<Seq<char>>::empty()
        }));
        assert(text::strings_view(changes@) =~= route_repair_change_texts(v));
    }
    changes
}

/// The `Debug` text of a route repair plan, as the derived `Debug` prints it.
pub uninterp spec fn route_plan_debug_text(p: (Option<Seq<char>>, Option<Seq<char>>, bool, bool)) -> Seq<char>;

/// The `Debug` text of a route repair plan.
///
/// Calls `format!("{:?}")` with the derived `Debug`; the text is named, not
/// spelled out, because the quoting of the strings is `core::fmt`'s.
#[verifier::external_body]
fn debug_route_plan(plan: &RouteRepairPlan) -> (r: String)
    ensures
        r@ == route_plan_debug_text(route_plan_view(*plan)),
{
    format!("{plan:?}")
}

/// The error when a route repair leaves work undone.
pub fn route_repair_not_converged(remaining: &RouteRepairPlan) -> (r: ControlError)
    ensures
        r matches ControlError::Verification(m) && m@ == "route repair did not converge: "@
            + route_plan_debug_text(route_plan_view(*remaining)),
{
    let mut m = owned("route repair did not converge: ");
    let shown = debug_route_plan(remaining);
    push_str(&mut m, shown.as_str());
    ControlError::Verification(m)
}

/// Why a choice request is refused before the control is read, if it is:
/// a control whose writes are disabled, or high headphone gain without
/// explicit approval.
pub open spec fn choice_request_problem(name: Seq<char>, requested: Seq<char>, allow_high_gain: bool) -> Option<Seq<char>> {
    if unsafe_block(name) is Some {
        unsafe_block(name)
    } else if name == "AE-5: Headphone Gain"@ && text::has_prefix(text::lower_seq(requested), "high"@) && !allow_high_gain {
        Some("high headphone gain requires explicit approval"@)
    } else {
        None
    }
}

/// Refuses a choice request before the control is read.
pub fn check_choice_request(name: &str, requested: &str, allow_high_gain: bool) -> (r: Result<(), ControlError>)
    ensures
        match choice_request_problem(name@, requested@, allow_high_gain) {
            Some(m) => r matches Err(ControlError::Invalid(x)) && x@ == m,
            None => r is Ok,
        },
{
    if let Some(reason) = unsafe_playback_control_block_reason(name) {
        return Err(ControlError::Invalid(owned(reason)));
    }
    if is_high_headphone_gain(name, requested) && !allow_high_gain {
        return Err(ControlError::Invalid(owned("high headphone gain requires explicit approval")));
    }
    Ok(())
}

/// What ALSA reports of an element a choice is written to.
#[derive(Clone, Debug, Eq, PartialEq)]
pub struct EnumElement {
    pub enumerated: bool,
    pub choices: Vec<String>,
    /// The position of the current item.
    pub current: u32,
}

/// A choice write, decided before anything is written.
#[derive(Clone, Debug, Eq, PartialEq)]
pub struct ChoiceWrite {
    /// The position of the choice to select.
    pub index: usize,
    /// The choice as ALSA spells it.
    pub expected: String,
    /// The choice selected before, to roll back to.
    pub previous: Option<String>,
    /// The write changes the output route.
    pub changes_output_route: bool,
}

/// The choices joined by `, `.
pub open spec fn choices_text(choices: Seq<String>) -> Seq<char> {
    text::join_with(text::strings_view(choices), ", "@)
}

/// Decides a choice write on the element `name` (absent when ALSA has no
/// such control): it must be enumerated and offer `requested`, matched
/// without regard to ASCII case.
pub fn prepare_choice(name: &str, requested: &str, element: Option<&EnumElement>) -> (r: Result<ChoiceWrite, ControlError>)
    ensures
        element is None ==> (r matches Err(ControlError::Missing(n)) && n@ == name@),
        element matches Some(e) ==> if !e.enumerated {
            r matches Err(ControlError::Invalid(m)) && m@ == "'"@ + name@ + "' is not an enumerated control"@
        } else {
            match choice_position_from(e.choices@, requested@, 0) {
                None => r matches Err(ControlError::Invalid(m)) && m@ == "'"@ + requested@ + "' is not valid for '"@
                    + name@ + "'; expected one of: "@ + choices_text(e.choices@),
                Some(i) => r matches Ok(w) && w.index == i && w.expected@ == e.choices@[i]@
                    && text::opt_string_view(w.previous) == (if e.current < e.choices@.len() {
                        Some(e.choices@[e.current as int]@)
                    } else {
                        None
                    })
                    && w.changes_output_route == is_unsafe_output_route_name(name@),
            }
        },
{
    let e = match element {
        None => return Err(ControlError::Missing(owned(name))),
        Some(e) => e,
    };
    if !e.enumerated {
        let mut m = owned("'");
        push_str(&mut m, name);
        push_str(&mut m, "' is not an enumerated control");
        return Err(ControlError::Invalid(m));
    }
    let index = match choice_index(e.choices.as_slice(), requested) {
        Some(i) => i,
        None => {
            let mut m = owned("'");
            push_str(&mut m, requested);
            push_str(&mut m, "' is not valid for '");
            push_str(&mut m, name);
            push_str(&mut m, "'; expected one of: ");
            let listed = text::join_strings(&e.choices, ", ");
            push_str(&mut m, listed.as_str());
            return Err(ControlError::Invalid(m));
        },
    };
    proof {
        lemma_choice_position(e.choices@, requested@, 0);
    }
    let expected = e.choices[index].clone();
    let previous = if (e.current as usize) < e.choices.len() {
        Some(e.choices[e.current as usize].clone())
    } else {
        None
    };
    Ok(ChoiceWrite { index, expected, previous, changes_output_route: is_unsafe_output_route_control(name) })
}

/// A found choice position is in range.
proof fn lemma_choice_position(choices: Seq<String>, requested: Seq<char>, i: int)
    ensures
        match choice_position_from(choices, requested, i) {
            Some(j) => i <= j < choices.len(),
            None => true,
        },
    decreases choices.len() - i,
{
    if 0 <= i < choices.len() && !text::eq_ignore_case(choices[i]@, requested) {
        lemma_choice_position(choices, requested, i + 1);
    }
}

/// The controls as they will read once `name` selects `expected`.
pub open spec fn projected_controls(cs: Seq<ControlSnapshot>, name: Seq<char>, expected: String) -> Seq<ControlSnapshot> {
    match control_index_from(cs, name, 0) {
        Some(i) => if selected_text(cs[i]) != Some(expected@) {
            cs.update(i, ControlSnapshot { selected: Some(expected), ..cs[i] })
        } else {
            cs
        },
        None => cs,
    }
}

/// The controls as they will read once an output-route choice is written,
/// refused when the new route leaves an enabled bass switch inconsistent.
pub fn project_route_choice(name: &str, expected: &String, controls: Vec<ControlSnapshot>) -> (r: Result<Vec<ControlSnapshot>, ControlError>)
    ensures
        ({
            let p = projected_controls(controls@, name@, *expected);
            let changed = p != controls@;
            if changed && invalid_bass_state(p) is Some {
                r matches Err(ControlError::Invalid(m)) && m@ == invalid_bass_state(p)->0
            } else {
                r matches Ok(v) && v@ == p
            }
        }),
{
    let mut controls = controls;
    let ghost initial = controls@;
    match find_control_index(controls.as_slice(), name) {
        None => Ok(controls),
        Some(i) => {
            let same = match &controls[i].selected {
                Some(s) => str_eq(s.as_str(), expected.as_str()),
                None => false,
            };
            if same {
                return Ok(controls);
            }
            let mut c = controls.remove(i);
            let ghost old_c = c;
            c.selected = Some(expected.clone());
            controls.insert(i, c);
            assert(controls@ =~= initial.update(i as int, ControlSnapshot { selected: Some(*expected), ..old_c }));
            assert(controls@ != initial) by {
                assert(controls@[i as int].selected != initial[i as int].selected);
            }
            match invalid_bass_state_reason(controls.as_slice()) {
                Some(reason) => Err(ControlError::Invalid(owned(reason))),
                None => Ok(controls),
            }
        },
    }
}

/// Checks that a choice read back as written.
pub fn verify_choice(name: &str, expected: &str, actual: &Option<String>) -> (r: Result<(), ControlError>)
    ensures
        text::opt_string_view(*actual) == Some(expected@) ==> r is Ok,
        text::opt_string_view(*actual) != Some(expected@) ==> (r matches Err(ControlError::Verification(m))
            && m@ == "'"@ + name@ + "' read back as "@ + option_string_debug_text(text::opt_string_view(*actual))
            + ", expected '"@ + expected@ + "'"@),
{
    let same = match actual {
        Some(a) => str_eq(a.as_str(), expected),
        None => false,
    };
    if same {
        return Ok(());
    }
    let mut m = owned("'");
    push_str(&mut m, name);
    push_str(&mut m, "' read back as ");
    let shown = debug_option_string(actual);
    push_str(&mut m, shown.as_str());
    push_str(&mut m, ", expected '");
    push_str(&mut m, expected);
    push_str(&mut m, "'");
    Err(ControlError::Verification(m))
}

/// The `Debug` text of an optional string, as `format!("{:?}")` prints it.
pub uninterp spec fn option_string_debug_text(v: Option<Seq<char>>) -> Seq<char>;

/// The `Debug` text of an optional string.
///
/// Calls `format!("{:?}")` on `Option<String>`; the text is named rather
/// than spelled out because the quoting and escaping are `core::fmt`'s.
#[verifier::external_body]
pub(crate) fn debug_option_string(v: &Option<String>) -> (r: String)
    ensures
        r@ == option_string_debug_text(text::opt_string_view(*v)),
{
    format!("{v:?}")
}

/// The error of a failed choice write, with how each rollback step ended.
pub fn choice_write_failure(error: &ControlError, profile_rollback: &str, choice_rollback: &str, playback_rollback: &str) -> (r: ControlError)
    ensures
        r matches ControlError::Verification(m) && m@ == control_error_text(*error) + "; "@ + profile_rollback@
            + "; "@ + choice_rollback@ + "; "@ + playback_rollback@,
{
    let mut m = error.message();
    push_str(&mut m, "; ");
    push_str(&mut m, profile_rollback);
    push_str(&mut m, "; ");
    push_str(&mut m, choice_rollback);
    push_str(&mut m, "; ");
    push_str(&mut m, playback_rollback);
    ControlError::Verification(m)
}

/// The message for a previous choice that the control no longer offers.
pub open spec fn stale_choice_text(name: Seq<char>, previous: Seq<char>) -> Seq<char> {
    "'"@ + previous + "' is no longer valid for '"@ + name + "'"@
}

/// Decides how a failed choice write on `name` selects `previous` again:
/// the position of that choice, matched without regard to ASCII case, among
/// the choices the element offers now.
pub fn prepare_choice_restore(name: &str, previous: &str, choices: &[String]) -> (r: Result<usize, ControlError>)
    ensures
        match choice_position_from(choices@, previous@, 0) {
            Some(i) => r == Ok::<usize, ControlError>(i as usize),
            None => r matches Err(ControlError::Invalid(m)) && m@ == stale_choice_text(name@, previous@),
        },
{
    match choice_index(choices, previous) {
        Some(i) => Ok(i),
        None => {
            let mut m = owned("'");
            push_str(&mut m, previous);
            push_str(&mut m, "' is no longer valid for '");
            push_str(&mut m, name);
            push_str(&mut m, "'");
            Err(ControlError::Invalid(m))
        },
    }
}

/// Checks that a rolled-back choice read back as the previous one.
pub fn verify_choice_restore(previous: &str, actual: &Option<String>) -> (r: Result<(), ControlError>)
    ensures
        text::opt_string_view(*actual) == Some(previous@) ==> r is Ok,
        text::opt_string_view(*actual) != Some(previous@) ==> (r matches Err(ControlError::Verification(m))
            && m@ == "rollback read back as "@ + option_string_debug_text(text::opt_string_view(*actual))
            + ", expected '"@ + previous@ + "'"@),
{
    let same = match actual {
        Some(a) => str_eq(a.as_str(), previous),
        None => false,
    };
    if same {
        return Ok(());
    }
    let mut m = owned("rollback read back as ");
    let shown = debug_option_string(actual);
    push_str(&mut m, shown.as_str());
    push_str(&mut m, ", expected '");
    push_str(&mut m, previous);
    push_str(&mut m, "'");
    Err(ControlError::Verification(m))
}

/// How the choice rollback of a failed write ended.
pub open spec fn choice_rollback_text(previous: Option<Seq<char>>, outcome: Result<(), ControlError>) -> Seq<char> {
    match previous {
        None => "previous ALSA choice unavailable"@,
        Some(p) => match outcome {
            Ok(()) => "restored '"@ + p + "'"@,
            Err(e) => "choice rollback failed: "@ + control_error_text(e),
        },
    }
}

/// How the choice rollback of a failed write ended: the previous choice was
/// restored, its restore failed, or there was none to restore.
pub fn choice_rollback(previous: &Option<String>, outcome: &Result<(), ControlError>) -> (r: String)
    ensures
        r@ == choice_rollback_text(text::opt_string_view(*previous), *outcome),
{
    match previous {
        None => owned("previous ALSA choice unavailable"),
        Some(p) => match outcome {
            Ok(()) => {
                let mut m = owned("restored '");
                push_str(&mut m, p.as_str());
                push_str(&mut m, "'");
                m
            },
            Err(e) => {
                let mut m = owned("choice rollback failed: ");
                let shown = e.message();
                push_str(&mut m, shown.as_str());
                m
            },
        },
    }
}

/// The error of a failed choice write that did not touch the output route:
/// the PipeWire profile and the route-sensitive playback state were left as
/// they were, and the choice rollback ended as `choice_rollback` says.
pub fn unrouted_choice_write_failure(error: &ControlError, choice_rollback: &str) -> (r: ControlError)
    ensures
        r matches ControlError::Verification(m) && m@ == control_error_text(*error) + "; "@
            + "PipeWire profile unchanged"@ + "; "@ + choice_rollback@ + "; "@
            + "route-sensitive playback state unchanged"@,
{
    choice_write_failure(error, "PipeWire profile unchanged", choice_rollback, "route-sensitive playback state unchanged")
}

/// A layout text ends in `.1`, the layouts with an LFE channel.
proof fn lemma_dot_one_suffix(layout: Seq<char>)
    requires
        layout.len() >= 2,
        layout[layout.len() - 2] == '.',
        layout[layout.len() - 1] == '1',
    ensures
        text::has_suffix(layout, ".1"@),
{
    reveal_strlit(".1");
    assert(layout.subrange(layout.len() - 2, layout.len() as int) =~= ".1"@);
}

/// No write to Bass Redirection is refused whatever its value.
proof fn lemma_bass_redirection_not_unsafe()
    ensures
        unsafe_block("Bass Redirection"@) is None,
{
    reveal_strlit("Bass Redirection");
    reveal_strlit("AE-5: Direct Mode");
    reveal_strlit("Output Select");
    reveal_strlit("Surround Channel Config");
    reveal_strlit("Enable OutFX");
    reveal_strlit("EQ Band");
    reveal_strlit("FX: Surround");
    reveal_strlit("FX: Crystalizer");
    reveal_strlit("FX: Dialog Plus");
    reveal_strlit("FX: Smart Volume");
    reveal_strlit("FX: Smart Volume Setting");
    reveal_strlit("FX: X-Bass");
    reveal_strlit("FX: X-Bass Crossover");
    reveal_strlit("FX: Equalizer");
    reveal_strlit("FX: Equalizer Preset");
    let n = "Bass Redirection"@;
    assert(n[0] == 'B');
    assert(!text::has_prefix(n, "EQ Band"@)) by {
        assert(n.subrange(0, 7)[0] != "EQ Band"@[0]);
    }
    assert(!is_equalizer_band_name(n));
    assert(n != DIRECT_MODE_CONTROL@ && n != "Output Select"@ && n != "Surround Channel Config"@) by {
        assert(DIRECT_MODE_CONTROL@[0] != n[0]);
        assert("Output Select"@[0] != n[0]);
        assert("Surround Channel Config"@[0] != n[0]);
    }
    assert(n != HARDWARE_OUTFX_CONTROL@ && n != "FX: Surround"@ && n != "FX: Crystalizer"@ && n != "FX: Dialog Plus"@
        && n != "FX: Smart Volume"@ && n != "FX: Smart Volume Setting"@ && n != "FX: X-Bass"@
        && n != "FX: X-Bass Crossover"@ && n != "FX: Equalizer"@ && n != EQUALIZER_PRESET_CONTROL@) by {
        assert(HARDWARE_OUTFX_CONTROL@[0] != n[0]);
        assert("FX: Surround"@[0] != n[0]);
        assert("FX: Crystalizer"@[0] != n[0]);
        assert("FX: Dialog Plus"@[0] != n[0]);
        assert("FX: Smart Volume"@[0] != n[0]);
        assert("FX: Smart Volume Setting"@[0] != n[0]);
        assert("FX: X-Bass"@[0] != n[0]);
        assert("FX: X-Bass Crossover"@[0] != n[0]);
        assert("FX: Equalizer"@[0] != n[0]);
        assert(EQUALIZER_PRESET_CONTROL@[0] != n[0]);
    }
}

/// Bass redirection is allowed on every speaker layout with an LFE channel:
/// with Speakers selected as the output, a speaker layout whose text ends in
/// `.1` (2.1, 4.1, 5.1), X-Bass off and Direct Mode off, enabling Bass
/// Redirection is not refused.
pub proof fn lemma_bass_redirection_allowed_on_lfe_layouts(
    cs: Seq<ControlSnapshot>,
    output: int,
    layout_control: int,
    layout: Seq<char>,
)
    requires
        0 <= output < cs.len(),
        cs[output].name@ == "Output Select"@,
        selected_text(cs[output]) == Some("Speakers"@),
        0 <= layout_control < cs.len(),
        cs[layout_control].name@ == "Surround Channel Config"@,
        selected_text(cs[layout_control]) == Some(layout),
        layout.len() >= 2,
        layout[layout.len() - 2] == '.',
        layout[layout.len() - 1] == '1',
        forall|x: int| 0 <= x < cs.len() ==> !((#[trigger] cs[x]).name@ == "FX: X-Bass"@ && cs[x].playback_switch == Some(true)),
        forall|x: int| 0 <= x < cs.len() ==> !((#[trigger] cs[x]).name@ == DIRECT_MODE_CONTROL@ && cs[x].playback_switch == Some(true)),
    ensures
        playback_switch_block("Bass Redirection"@, true, cs) is None,
{
    lemma_bass_redirection_not_unsafe();
    lemma_dot_one_suffix(layout);
    assert(speakers_selected(cs)) by {
        assert(cs[output].name@ == "Output Select"@);
    }
    assert(any_lfe_layout(cs)) by {
        assert(cs[layout_control].name@ == "Surround Channel Config"@);
    }
    assert(!any_switch_on(cs, "FX: X-Bass"@));
    assert(!any_switch_on(cs, DIRECT_MODE_CONTROL@));
}

/// Without a speaker layout that ends in `.1`, enabling Bass Redirection
/// with Speakers selected and Direct Mode off is refused for want of an LFE
/// layout.
pub proof fn lemma_bass_redirection_needs_lfe_layout(cs: Seq<ControlSnapshot>, output: int)
    requires
        0 <= output < cs.len(),
        cs[output].name@ == "Output Select"@,
        selected_text(cs[output]) == Some("Speakers"@),
        forall|x: int| 0 <= x < cs.len() && (#[trigger] cs[x]).name@ == "Surround Channel Config"@ ==> match selected_text(cs[x]) {
            Some(l) => !(l.len() >= 2 && l[l.len() - 2] == '.' && l[l.len() - 1] == '1'),
            None => true,
        },
        forall|x: int| 0 <= x < cs.len() ==> !((#[trigger] cs[x]).name@ == DIRECT_MODE_CONTROL@ && cs[x].playback_switch == Some(true)),
    ensures
        playback_switch_block("Bass Redirection"@, true, cs) == Some(BASS_NEEDS_LFE_LAYOUT@),
{
    lemma_bass_redirection_not_unsafe();
    reveal_strlit(".1");
    assert(speakers_selected(cs)) by {
        assert(cs[output].name@ == "Output Select"@);
    }
    assert(!any_lfe_layout(cs)) by {
        if any_lfe_layout(cs) {
            let x = choose|x: int| 0 <= x < cs.len() && (#[trigger] cs[x]).name@ == "Surround Channel Config"@ && match
                selected_text(cs[x]) {
                Some(layout) => text::has_suffix(layout, ".1"@),
                None => false,
            };
            let l = selected_text(cs[x])->0;
            assert(l.subrange(l.len() - 2, l.len() as int) == ".1"@);
            assert(l[l.len() - 2] == l.subrange(l.len() - 2, l.len() as int)[0]);
            assert(l[l.len() - 1] == l.subrange(l.len() - 2, l.len() as int)[1]);
        }
    }
    assert(!any_switch_on(cs, DIRECT_MODE_CONTROL@));
}

} // verus!

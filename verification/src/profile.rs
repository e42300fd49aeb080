//! Saved sound profiles as the control window reads them: whether one is
//! active on the live hardware, how it is described, and its preview.

use vstd::prelude::*;
use vstd::string::*;

use crate::controls::{
    capture_control_block_reason, find_control, find_control_index, is_high_headphone_gain,
    ChannelLevel, ControlSnapshot, Level,
};
use crate::hardware_effects::{channels_view, ProfileControl};
use crate::signal_path::effect_names;
use crate::text::{
    decimal, eq_ignore_ascii_case, eq_ignore_case, has_prefix, join_strings, join_with, lower_seq,
    opt_string_view, owned, push_decimal, push_signed, push_str, signed_decimal, starts_with, str_eq, strings_view,
    trim, trimmed,
};

verus! {

/// A saved profile: the controls it sets, in control-name order, each named
/// once.
#[derive(Debug)]
pub struct Profile {
    pub format_version: u32,
    pub name: String,
    pub target: String,
    pub controls: Vec<(String, ProfileControl)>,
}

/// The position at or after `i` of the entry named `name`.
pub open spec fn entry_index_from(entries: Seq<(String, ProfileControl)>, name: Seq<char>, i: int) -> Option<int>
    decreases entries.len() - i,
{
    if i < 0 || i >= entries.len() {
        None
    } else if entries[i].0@ == name {
        Some(i)
    } else {
        entry_index_from(entries, name, i + 1)
    }
}

/// The setting a profile stores for the control `name`.
pub open spec fn profile_entry(entries: Seq<(String, ProfileControl)>, name: Seq<char>) -> Option<ProfileControl> {
    match entry_index_from(entries, name, 0) {
        Some(i) => Some(entries[i].1),
        None => None,
    }
}

proof fn lemma_entry_index(entries: Seq<(String, ProfileControl)>, name: Seq<char>, i: int)
    ensures
        match entry_index_from(entries, name, i) {
            Some(j) => i <= j < entries.len() && entries[j].0@ == name,
            None => true,
        },
    decreases entries.len() - i,
{
    if 0 <= i < entries.len() && entries[i].0@ != name {
        lemma_entry_index(entries, name, i + 1);
    }
}

/// The position of the entry named `name`.
fn entry_index(entries: &Vec<(String, ProfileControl)>, name: &str) -> (r: Option<usize>)
    ensures
        match r {
            Some(i) => entry_index_from(entries@, name@, 0) == Some(i as int) && i < entries@.len(),
            None => entry_index_from(entries@, name@, 0) is None,
        },
{
    proof {
        lemma_entry_index(entries@, name@, 0);
    }
    let mut i: usize = 0;
    while i < entries.len()
        invariant
            i <= entries@.len(),
            entry_index_from(entries@, name@, 0) == entry_index_from(entries@, name@, i as int),
        decreases entries.len() - i,
    {
        if str_eq(entries[i].0.as_str(), name) {
            return Some(i);
        }
        i += 1;
    }
    None
}

/// A profile picks a factory equalizer preset, so the stored band values
/// are not compared with the hardware.
pub open spec fn skips_equalizer_bands(p: Profile) -> bool {
    match profile_entry(p.controls@, "FX: Equalizer Preset"@) {
        Some(c) => match c.choice {
            Some(preset) => !eq_ignore_case(preset@, "Flat"@),
            None => false,
        },
        None => false,
    }
}

/// The level of the first channel at or after `i` named `name`, ignoring ASCII case.
pub open spec fn channel_value_from(actual: Seq<ChannelLevel>, name: Seq<char>, i: int) -> Option<i64>
    decreases actual.len() - i,
{
    if i < 0 || i >= actual.len() {
        None
    } else if eq_ignore_case(actual[i].name@, name) {
        Some(actual[i].value)
    } else {
        channel_value_from(actual, name, i + 1)
    }
}

/// Every stored channel level reads back on the channel of that name.
pub open spec fn channels_match(expected: Seq<(String, i64)>, actual: Seq<ChannelLevel>) -> bool {
    forall|j: int| 0 <= j < expected.len() ==> channel_value_from(actual, (#[trigger] expected[j]).0@, 0) == Some(expected[j].1)
}

/// The value of a level, if the control has one.
pub open spec fn level_value(l: Option<Level>) -> Option<i64> {
    match l {
        Some(level) => Some(level.value),
        None => None,
    }
}

/// A live control has every value a profile stores for it.
pub open spec fn control_matches(e: ProfileControl, a: ControlSnapshot) -> bool {
    &&& match e.choice {
        Some(v) => match a.selected {
            Some(s) => eq_ignore_case(s@, v@),
            None => false,
        },
        None => true,
    }
    &&& (e.playback_switch is None || a.playback_switch == e.playback_switch)
    &&& (e.capture_switch is None || a.capture_switch == e.capture_switch)
    &&& (e.playback_level is None || level_value(a.playback_level) == e.playback_level)
    &&& (e.capture_level is None || level_value(a.capture_level) == e.capture_level)
    &&& channels_match(e.playback_channels@, a.playback_channels@)
    &&& channels_match(e.capture_channels@, a.capture_channels@)
}

/// One stored control holds on the hardware, or is not compared: What U
/// Hear has no effect, and band values under a factory preset are the DSP's.
pub open spec fn entry_satisfied(p: Profile, cs: Seq<ControlSnapshot>, name: Seq<char>, e: ProfileControl) -> bool {
    name == "What U Hear"@ || (skips_equalizer_bands(p) && has_prefix(name, "EQ Band"@)) || match find_control(cs, name) {
        Some(a) => control_matches(e, a),
        None => false,
    }
}

/// The live hardware holds everything the profile stores.
pub open spec fn profile_matches(p: Profile, cs: Seq<ControlSnapshot>) -> bool {
    forall|i: int| 0 <= i < p.controls@.len() ==> entry_satisfied(p, cs, (#[trigger] p.controls@[i]).0@, p.controls@[i].1)
}

/// The level of the channel named `name`, ignoring ASCII case.
fn channel_value(actual: &Vec<ChannelLevel>, name: &str) -> (r: Option<i64>)
    ensures
        r == channel_value_from(actual@, name@, 0),
{
    let mut i: usize = 0;
    while i < actual.len()
        invariant
            i <= actual@.len(),
            channel_value_from(actual@, name@, 0) == channel_value_from(actual@, name@, i as int),
        decreases actual.len() - i,
    {
        if eq_ignore_ascii_case(actual[i].name.as_str(), name) {
            return Some(actual[i].value);
        }
        i += 1;
    }
    None
}

fn channels_match_exec(expected: &Vec<(String, i64)>, actual: &Vec<ChannelLevel>) -> (r: bool)
    ensures
        r == channels_match(expected@, actual@),
{
    let mut j: usize = 0;
    while j < expected.len()
        invariant
            j <= expected@.len(),
            forall|k: int| 0 <= k < j ==> channel_value_from(actual@, (#[trigger] expected@[k]).0@, 0) == Some(expected@[k].1),
        decreases expected.len() - j,
    {
        if channel_value(actual, expected[j].0.as_str()) != Some(expected[j].1) {
            assert(!(channel_value_from(actual@, expected@[j as int].0@, 0) == Some(expected@[j as int].1)));
            return false;
        }
        j += 1;
    }
    true
}

fn level_of(l: &Option<Level>) -> (r: Option<i64>)
    ensures
        r == level_value(*l),
{
    match l {
        Some(level) => Some(level.value),
        None => None,
    }
}

fn control_matches_exec(e: &ProfileControl, a: &ControlSnapshot) -> (r: bool)
    ensures
        r == control_matches(*e, *a),
{
    let choice_ok = match &e.choice {
        Some(v) => match &a.selected {
            Some(s) => eq_ignore_ascii_case(s.as_str(), v.as_str()),
            None => false,
        },
        None => true,
    };
    choice_ok && (e.playback_switch.is_none() || a.playback_switch == e.playback_switch) && (
    e.capture_switch.is_none() || a.capture_switch == e.capture_switch) && (e.playback_level.is_none()
        || level_of(&a.playback_level) == e.playback_level) && (e.capture_level.is_none() || level_of(
        &a.capture_level,
    ) == e.capture_level) && channels_match_exec(&e.playback_channels, &a.playback_channels)
        && channels_match_exec(&e.capture_channels, &a.capture_channels)
}

fn skips_bands_exec(profile: &Profile) -> (r: bool)
    ensures
        r == skips_equalizer_bands(*profile),
{
    match entry_index(&profile.controls, "FX: Equalizer Preset") {
        Some(i) => match &profile.controls[i].1.choice {
            Some(preset) => !eq_ignore_ascii_case(preset.as_str(), "Flat"),
            None => false,
        },
        None => false,
    }
}

/// Whether the live controls hold everything a saved profile stores, so the
/// window can mark it active.
pub fn profile_matches_controls(profile: &Profile, controls: &[ControlSnapshot]) -> (r: bool)
    ensures
        r == profile_matches(*profile, controls@),
{
    let skip_bands = skips_bands_exec(profile);
    let mut i: usize = 0;
    while i < profile.controls.len()
        invariant
            i <= profile.controls@.len(),
            skip_bands == skips_equalizer_bands(*profile),
            forall|k: int| 0 <= k < i ==> entry_satisfied(*profile, controls@, (#[trigger] profile.controls@[k]).0@, profile.controls@[k].1),
        decreases profile.controls.len() - i,
    {
        let name = profile.controls[i].0.as_str();
        let expected = &profile.controls[i].1;
        let skipped = capture_control_block_reason(name).is_some() || (skip_bands && starts_with(name, "EQ Band"));
        if !skipped {
            match find_control_index(controls, name) {
                None => {
                    return false;
                },
                Some(k) => {
                    if !control_matches_exec(expected, &controls[k]) {
                        return false;
                    }
                },
            }
        }
        i += 1;
    }
    true
}

/// A profile whose stored control disagrees with the live control of that
/// name is not active: when a stored control (other than What U Hear or an
/// equalizer band) has a playback level and the live control reports another
/// level or none, or has a playback switch and the live control reports
/// another state or none, the profile does not match the live controls.
pub proof fn lemma_mismatched_playback_is_inactive(p: Profile, cs: Seq<ControlSnapshot>, i: int)
    requires
        0 <= i < p.controls@.len(),
        p.controls@[i].0@ != "What U Hear"@,
        !has_prefix(p.controls@[i].0@, "EQ Band"@),
        find_control(cs, p.controls@[i].0@) matches Some(a) && ({
            let e = p.controls@[i].1;
            ||| (e.playback_level matches Some(v) && !(a.playback_level matches Some(l) && l.value == v))
            ||| (e.playback_switch matches Some(b) && a.playback_switch != Some(b))
        }),
    ensures
        !profile_matches(p, cs),
{
    assert(!entry_satisfied(p, cs, p.controls@[i].0@, p.controls@[i].1));
}

/// How many of `names` the profile stores with the playback switch `on`.
pub open spec fn switches_set(entries: Seq<(String, ProfileControl)>, names: Seq<Seq<char>>, on: bool) -> nat
    decreases names.len(),
{
    if names.len() == 0 {
        0
    } else {
        switches_set(entries, names.drop_last(), on) + if switch_in(entries, names.last()) == Some(on) {
            1nat
        } else {
            0nat
        }
    }
}

/// The playback switch the profile stores for `name`.
pub open spec fn switch_in(entries: Seq<(String, ProfileControl)>, name: Seq<char>) -> Option<bool> {
    match profile_entry(entries, name) {
        Some(c) => c.playback_switch,
        None => None,
    }
}

/// How an active profile is described from its effect switches.
pub open spec fn detail_text(enabled: nat, disabled: nat, equalizer: bool) -> Seq<char> {
    if enabled == 0 && equalizer && disabled > 0 {
        "Equalizer only · "@ + decimal(disabled) + " effects off by profile"@
    } else if enabled == 0 && equalizer {
        "Equalizer only"@
    } else if equalizer {
        decimal(enabled) + " effects + equalizer enabled"@
    } else if enabled > 0 {
        decimal(enabled) + " effects enabled"@
    } else {
        "All acoustic effects disabled"@
    }
}

/// The description of an active profile.
pub open spec fn profile_detail(p: Profile) -> Seq<char> {
    detail_text(
        switches_set(p.controls@, effect_names(), true),
        switches_set(p.controls@, effect_names(), false),
        switch_in(p.controls@, "FX: Equalizer"@) == Some(true),
    )
}

fn switch_in_exec(entries: &Vec<(String, ProfileControl)>, name: &str) -> (r: Option<bool>)
    ensures
        r == switch_in(entries@, name@),
{
    match entry_index(entries, name) {
        Some(i) => entries[i].1.playback_switch,
        None => None,
    }
}

/// How an active profile is described: which of the five acoustic effects
/// it turns on or off, and whether it enables the equalizer.
pub fn active_profile_detail(profile: &Profile) -> (r: String)
    ensures
        r@ == profile_detail(*profile),
{
    let names: [&str; 5] = ["FX: Surround", "FX: Crystalizer", "FX: X-Bass", "FX: Smart Volume", "FX: Dialog Plus"];
    let ghost views = seq![names[0]@, names[1]@, names[2]@, names[3]@, names[4]@];
    assert(views =~= effect_names());
    let mut enabled: u64 = 0;
    let mut disabled: u64 = 0;
    let mut i: usize = 0;
    while i < 5
        invariant
            i <= 5,
            views == effect_names(),
            forall|j: int| 0 <= j < 5 ==> names@[j]@ == #[trigger] views[j],
            enabled as nat == switches_set(profile.controls@, views.take(i as int), true),
            disabled as nat == switches_set(profile.controls@, views.take(i as int), false),
            enabled <= i,
            disabled <= i,
        decreases 5 - i,
    {
        assert(views.take(i + 1).drop_last() =~= views.take(i as int));
        assert(views.take(i + 1).last() == names@[i as int]@);
        let state = switch_in_exec(&profile.controls, names[i]);
        if state == Some(true) {
            enabled = enabled + 1;
        }
        if state == Some(false) {
            disabled = disabled + 1;
        }
        i += 1;
    }
    assert(views.take(5) =~= views);
    let equalizer = switch_in_exec(&profile.controls, "FX: Equalizer") == Some(true);
    if enabled == 0 && equalizer && disabled > 0 {
        let mut out = owned("Equalizer only · ");
        push_decimal(&mut out, disabled);
        push_str(&mut out, " effects off by profile");
        out
    } else if enabled == 0 && equalizer {
        owned("Equalizer only")
    } else if equalizer {
        let mut out = String::new();
        push_decimal(&mut out, enabled);
        push_str(&mut out, " effects + equalizer enabled");
        proof {
            assert(out@ =~= decimal(enabled as nat) + " effects + equalizer enabled"@);
        }
        out
    } else if enabled > 0 {
        let mut out = String::new();
        push_decimal(&mut out, enabled);
        push_str(&mut out, " effects enabled");
        proof {
            assert(out@ =~= decimal(enabled as nat) + " effects enabled"@);
        }
        out
    } else {
        owned("All acoustic effects disabled")
    }
}

/// The profile selects a High headphone gain.
pub open spec fn requires_high_gain(p: Profile) -> bool {
    exists|i: int| 0 <= i < p.controls@.len() && (#[trigger] p.controls@[i]).0@ == "AE-5: Headphone Gain"@
        && match p.controls@[i].1.choice {
        Some(c) => has_prefix(lower_seq(c@), "high"@),
        None => false,
    }
}

/// Whether applying the profile needs the explicit High-gain permission.
pub fn profile_requires_high_gain(profile: &Profile) -> (r: bool)
    ensures
        r == requires_high_gain(*profile),
{
    let mut i: usize = 0;
    while i < profile.controls.len()
        invariant
            i <= profile.controls@.len(),
            forall|k: int| 0 <= k < i ==> !((#[trigger] profile.controls@[k]).0@ == "AE-5: Headphone Gain"@
                && match profile.controls@[k].1.choice {
                Some(c) => has_prefix(lower_seq(c@), "high"@),
                None => false,
            }),
        decreases profile.controls.len() - i,
    {
        if let Some(choice) = &profile.controls[i].1.choice {
            if is_high_headphone_gain(profile.controls[i].0.as_str(), choice.as_str()) {
                return true;
            }
        }
        i += 1;
    }
    false
}

/// Named channel levels as `name=value`, separated by commas.
pub open spec fn channels_text(chs: Seq<(Seq<char>, i64)>) -> Seq<char> {
    join_with(chs.map_values(|e: (Seq<char>, i64)| e.0 + "="@ + signed_decimal(e.1 as int)), ", "@)
}

/// Named channel levels as `name=value`, separated by commas.
pub fn format_profile_channels(channels: &Vec<(String, i64)>) -> (r: String)
    ensures
        r@ == channels_text(channels_view(channels@)),
{
    let ghost want = channels_view(channels@).map_values(|e: (Seq<char>, i64)| e.0 + "="@ + signed_decimal(e.1 as int));
    let mut parts: Vec<String> = Vec::new();
    let mut i: usize = 0;
    while i < channels.len()
        invariant
            i <= channels@.len(),
            want == channels_view(channels@).map_values(|e: (Seq<char>, i64)| e.0 + "="@ + signed_decimal(e.1 as int)),
            strings_view(parts@) == want.take(i as int),
        decreases channels.len() - i,
    {
        let mut part = owned(channels[i].0.as_str());
        push_str(&mut part, "=");
        push_signed(&mut part, channels[i].1);
        let ghost before = strings_view(parts@);
        parts.push(part);
        assert(strings_view(parts@) =~= before.push(part@));
        assert(want.take(i + 1) =~= want.take(i as int).push(want[i as int]));
        i += 1;
    }
    assert(want.take(channels@.len() as int) =~= want);
    join_strings(&parts, ", ")
}

/// An optional one-item list.
pub open spec fn item_if(cond: bool, s: Seq<char>) -> Seq<Seq<char>> {
    if cond {
        seq![s]
    } else {
        Seq::empty()
    }
}

/// `on` or `off`.
pub open spec fn on_off_text(v: bool) -> Seq<char> {
    if v {
        "on"@
    } else {
        "off"@
    }
}

/// A stored choice as a value.
pub open spec fn choice_item(choice: Option<String>) -> Seq<Seq<char>> {
    match choice {
        Some(s) => seq![s@],
        None => Seq::empty(),
    }
}

/// A stored switch as a value.
pub open spec fn switch_item(prefix: Seq<char>, v: Option<bool>) -> Seq<Seq<char>> {
    match v {
        Some(b) => seq![prefix + on_off_text(b)],
        None => Seq::empty(),
    }
}

/// A stored level as a value.
pub open spec fn level_item(prefix: Seq<char>, v: Option<i64>) -> Seq<Seq<char>> {
    match v {
        Some(l) => seq![prefix + signed_decimal(l as int)],
        None => Seq::empty(),
    }
}

/// Stored channel levels as a value, when there are any.
pub open spec fn channels_item(prefix: Seq<char>, chs: Seq<(String, i64)>) -> Seq<Seq<char>> {
    item_if(chs.len() > 0, prefix + channels_text(channels_view(chs)))
}

/// The values a profile stores for one control, in the order shown.
pub open spec fn control_values(c: ProfileControl) -> Seq<Seq<char>> {
    choice_item(c.choice) + switch_item("playback "@, c.playback_switch) + level_item(
        "playback level "@,
        c.playback_level,
    ) + channels_item("playback channels "@, c.playback_channels@) + switch_item("capture "@, c.capture_switch)
        + level_item("capture level "@, c.capture_level) + channels_item("capture channels "@, c.capture_channels@)
}

/// The summary of one stored control.
pub open spec fn control_summary_text(c: ProfileControl) -> Seq<char> {
    join_with(control_values(c), ", "@)
}

fn push_value(values: &mut Vec<String>, v: String)
    ensures
        strings_view(final(values)@) == strings_view(old(values)@).push(v@),
{
    values.push(v);
    assert(strings_view(values@) =~= strings_view(old(values)@).push(v@));
}

fn push_choice_item(values: &mut Vec<String>, choice: &Option<String>)
    ensures
        strings_view(final(values)@) == strings_view(old(values)@) + choice_item(*choice),
{
    if let Some(c) = choice {
        push_value(values, c.clone());
    }
    assert(strings_view(values@) =~= strings_view(old(values)@) + choice_item(*choice));
}

fn push_switch_item(values: &mut Vec<String>, prefix: &str, v: Option<bool>)
    ensures
        strings_view(final(values)@) == strings_view(old(values)@) + switch_item(prefix@, v),
{
    if let Some(enabled) = v {
        let mut s = owned(prefix);
        push_str(&mut s, if enabled {
            "on"
        } else {
            "off"
        });
        push_value(values, s);
    }
    assert(strings_view(values@) =~= strings_view(old(values)@) + switch_item(prefix@, v));
}

fn push_level_item(values: &mut Vec<String>, prefix: &str, v: Option<i64>)
    ensures
        strings_view(final(values)@) == strings_view(old(values)@) + level_item(prefix@, v),
{
    if let Some(level) = v {
        let mut s = owned(prefix);
        push_signed(&mut s, level);
        push_value(values, s);
    }
    assert(strings_view(values@) =~= strings_view(old(values)@) + level_item(prefix@, v));
}

fn push_channels_item(values: &mut Vec<String>, prefix: &str, chs: &Vec<(String, i64)>)
    ensures
        strings_view(final(values)@) == strings_view(old(values)@) + channels_item(prefix@, chs@),
{
    if chs.len() > 0 {
        let mut s = owned(prefix);
        let text = format_profile_channels(chs);
        push_str(&mut s, text.as_str());
        push_value(values, s);
    }
    assert(strings_view(values@) =~= strings_view(old(values)@) + channels_item(prefix@, chs@));
}

/// The values a profile stores for one control, separated by commas.
pub fn profile_control_summary(control: &ProfileControl) -> (r: String)
    ensures
        r@ == control_summary_text(*control),
{
    let mut values: Vec<String> = Vec::new();
    assert(strings_view(values@) =~= Seq::<Seq<char>>::empty());
    push_choice_item(&mut values, &control.choice);
    push_switch_item(&mut values, "playback ", control.playback_switch);
    push_level_item(&mut values, "playback level ", control.playback_level);
    push_channels_item(&mut values, "playback channels ", &control.playback_channels);
    push_switch_item(&mut values, "capture ", control.capture_switch);
    push_level_item(&mut values, "capture level ", control.capture_level);
    push_channels_item(&mut values, "capture channels ", &control.capture_channels);
    assert(strings_view(values@) =~= control_values(*control));
    join_strings(&values, ", ")
}

/// How many stored controls a preview lists before summing up the rest.
pub const SHOWN_PROFILE_CONTROLS: usize = 18;

/// The preview line of one stored control.
pub open spec fn preview_line(e: (String, ProfileControl)) -> Seq<char> {
    e.0@ + ": "@ + control_summary_text(e.1)
}

/// The lines of a profile preview.
pub open spec fn preview_lines(entries: Seq<(String, ProfileControl)>) -> Seq<Seq<char>> {
    let shown = if entries.len() <= 18 {
        entries
    } else {
        entries.take(18)
    };
    shown.map_values(|e: (String, ProfileControl)| preview_line(e)) + if entries.len() > 18 {
        seq!["…and "@ + decimal((entries.len() - 18) as nat) + " more controls"@]
    } else {
        Seq::<Seq<char>>::empty()
    }
}

/// The preview shown before a profile is applied.
pub open spec fn preview_text(p: Profile) -> Seq<char> {
    decimal(p.controls@.len()) + " validated Linux controls:\n\n"@ + join_with(preview_lines(p.controls@), "\n"@)
}

/// The preview shown before a profile is applied: how many controls it
/// sets and the first eighteen of them.
pub fn profile_preview(profile: &Profile) -> (r: String)
    ensures
        r@ == preview_text(*profile),
{
    let ghost entries = profile.controls@;
    let n = profile.controls.len();
    let shown: usize = if n <= SHOWN_PROFILE_CONTROLS {
        n
    } else {
        SHOWN_PROFILE_CONTROLS
    };
    let ghost shown_entries = if entries.len() <= 18 { entries } else { entries.take(18) };
    assert(entries.take(shown as int) =~= shown_entries);
    let mut lines: Vec<String> = Vec::new();
    let mut i: usize = 0;
    while i < shown
        invariant
            entries == profile.controls@,
            n == entries.len(),
            shown <= n,
            i <= shown,
            strings_view(lines@) == entries.take(i as int).map_values(|e: (String, ProfileControl)| preview_line(e)),
        decreases shown - i,
    {
        let mut line = owned(profile.controls[i].0.as_str());
        push_str(&mut line, ": ");
        let summary = profile_control_summary(&profile.controls[i].1);
        push_str(&mut line, summary.as_str());
        let ghost before = strings_view(lines@);
        lines.push(line);
        proof {
            assert(strings_view(lines@) =~= before.push(line@));
            assert(entries.take(i + 1).map_values(|e: (String, ProfileControl)| preview_line(e)) =~= entries.take(
                i as int,
            ).map_values(|e: (String, ProfileControl)| preview_line(e)).push(preview_line(entries[i as int])));
        }
        i += 1;
    }
    let ghost bullets = strings_view(lines@);
    if n > SHOWN_PROFILE_CONTROLS {
        let mut more = owned("…and ");
        push_decimal(&mut more, (n - SHOWN_PROFILE_CONTROLS) as u64);
        push_str(&mut more, " more controls");
        lines.push(more);
        proof {
            assert(strings_view(lines@) =~= bullets.push(more@));
        }
    }
    proof {
        assert(strings_view(lines@) =~= preview_lines(entries));
    }
    let mut out = String::new();
    push_decimal(&mut out, n as u64);
    push_str(&mut out, " validated Linux controls:\n\n");
    let joined = join_strings(&lines, "\n");
    push_str(&mut out, joined.as_str());
    out
}

/// The profile name a file stem gives: the stem without surrounding white
/// space, when anything is left.
pub open spec fn name_from_stem(stem: Option<Seq<char>>) -> Option<Seq<char>> {
    match stem {
        Some(s) => if trimmed(s).len() > 0 {
            Some(trimmed(s))
        } else {
            None
        },
        None => None,
    }
}

/// The message for a file name that gives no profile name.
pub open spec fn unusable_name_text() -> Seq<char> {
    "the selected filename has no usable profile name"@
}

/// The profile name a file's stem gives, or why there is none.
pub fn profile_name_from_stem(stem: Option<&str>) -> (r: Result<String, String>)
    ensures
        match name_from_stem(match stem {
            Some(s) => Some(s@),
            None => None,
        }) {
            Some(n) => r matches Ok(name) && name@ == n,
            None => r matches Err(m) && m@ == unusable_name_text(),
        },
{
    match stem {
        Some(s) => {
            let name = trim(s);
            if name.unicode_len() > 0 {
                Ok(name)
            } else {
                Err(owned("the selected filename has no usable profile name"))
            }
        },
        None => Err(owned("the selected filename has no usable profile name")),
    }
}

/// The file stem `Path::file_stem` gives for a path, as text.
pub uninterp spec fn path_file_stem(path: Seq<char>) -> Option<Seq<char>>;

/// `Path::file_stem` of a path, as text: the final component without its
/// extension, or `None` when the path has no file name or the stem is not
/// valid text.  The result depends on the path alone.
#[verifier::external_body]
fn file_stem(path: &str) -> (r: Option<String>)
    ensures
        opt_string_view(r) == path_file_stem(path@),
{
    match std::path::Path::new(path).file_stem() {
        Some(stem) => match stem.to_str() {
            Some(text) => Some(text.to_owned()),
            None => None,
        },
        None => None,
    }
}

/// The profile name a chosen file gives: its file stem without surrounding
/// white space, or an error when there is no stem or nothing is left.
pub fn profile_name_from_path(path: &str) -> (r: Result<String, String>)
    ensures
        match name_from_stem(path_file_stem(path@)) {
            Some(n) => r matches Ok(name) && name@ == n,
            None => r matches Err(m) && m@ == unusable_name_text(),
        },
{
    let stem = file_stem(path);
    match &stem {
        Some(s) => profile_name_from_stem(Some(s.as_str())),
        None => profile_name_from_stem(None),
    }
}

} // verus!

//! Applying an Effects profile through the AE-5's hardware OutFX controls.
//!
//! A profile becomes a set of control targets; the targets are checked
//! against the live controls, the previous values are captured for a
//! rollback, and the writes are ordered so that the master bypass is off
//! while the children change.  The mixer writes themselves are performed by
//! the application.

use vstd::prelude::*;

use crate::controls;
use crate::controls::{
    choice_index, find_control_index, push_bool, selected_choice_of, switch_state_of, ControlError, ControlSnapshot,
    DIRECT_MODE_CONTROL, HARDWARE_OUTFX_CONTROL,
};
use crate::effects_chain;
use crate::sound_objects::{effects_profile_view, same_effects_profile, EffectsProfileEntry};
use crate::text;
use crate::text::{eq_ignore_ascii_case, owned, push_signed, push_str, starts_with, str_eq};

verus! {

/// The schema version of the managed state file.
pub const HARDWARE_CONFIG_SCHEMA_VERSION: u32 = 1;

/// The value a profile wants one control to have; an absent field is left
/// as it is.  The channel levels are in channel-name order.
#[derive(Debug, Eq, PartialEq)]
pub struct ProfileControl {
    pub choice: Option<String>,
    pub playback_switch: Option<bool>,
    pub capture_switch: Option<bool>,
    pub playback_level: Option<i64>,
    pub capture_level: Option<i64>,
    pub playback_channels: Vec<(String, i64)>,
    pub capture_channels: Vec<(String, i64)>,
}

/// Named channel levels as plain values.
pub open spec fn channels_view(v: Seq<(String, i64)>) -> Seq<(Seq<char>, i64)> {
    v.map_values(|e: (String, i64)| (e.0@, e.1))
}

/// Everything a profile control holds, as plain values.
pub open spec fn profile_control_view(c: ProfileControl) -> (
    Option<Seq<char>>,
    Option<bool>,
    Option<bool>,
    Option<i64>,
    Option<i64>,
    Seq<(Seq<char>, i64)>,
    Seq<(Seq<char>, i64)>,
) {
    (
        match c.choice {
            Some(s) => Some(s@),
            None => None,
        },
        c.playback_switch,
        c.capture_switch,
        c.playback_level,
        c.capture_level,
        channels_view(c.playback_channels@),
        channels_view(c.capture_channels@),
    )
}

/// A copy of named channel levels.
fn clone_channels(v: &Vec<(String, i64)>) -> (r: Vec<(String, i64)>)
    ensures
        channels_view(r@) == channels_view(v@),
{
    let mut out: Vec<(String, i64)> = Vec::new();
    let mut i: usize = 0;
    while i < v.len()
        invariant
            i <= v@.len(),
            channels_view(out@) == channels_view(v@.take(i as int)),
        decreases v.len() - i,
    {
        let ghost before = out@;
        out.push((v[i].0.clone(), v[i].1));
        assert(channels_view(out@) =~= channels_view(before).push((v@[i as int].0@, v@[i as int].1)));
        assert(v@.take(i + 1) =~= v@.take(i as int).push(v@[i as int]));
        assert(channels_view(v@.take(i + 1)) =~= channels_view(v@.take(i as int)).push((v@[i as int].0@, v@[i as int].1)));
        i += 1;
    }
    assert(v@.take(v@.len() as int) =~= v@);
    out
}

impl ProfileControl {
    /// A control that a profile leaves entirely as it is.
    pub fn unset() -> (r: Self)
        ensures
            profile_control_view(r) == (
                None::<Seq<char>>,
                None::<bool>,
                None::<bool>,
                None::<i64>,
                None::<i64>,
                Seq::<(Seq<char>, i64)>::empty(),
                Seq::<(Seq<char>, i64)>::empty(),
            ),
    {
        let r = ProfileControl {
            choice: None,
            playback_switch: None,
            capture_switch: None,
            playback_level: None,
            capture_level: None,
            playback_channels: Vec::new(),
            capture_channels: Vec::new(),
        };
        assert(channels_view(r.playback_channels@) =~= Seq::<(Seq<char>, i64)>::empty());
        r
    }
}

impl Clone for ProfileControl {
    fn clone(&self) -> (r: Self)
        ensures
            profile_control_view(r) == profile_control_view(*self),
    {
        ProfileControl {
            choice: match &self.choice {
                Some(c) => Some(c.clone()),
                None => None,
            },
            playback_switch: self.playback_switch,
            capture_switch: self.capture_switch,
            playback_level: self.playback_level,
            capture_level: self.capture_level,
            playback_channels: clone_channels(&self.playback_channels),
            capture_channels: clone_channels(&self.capture_channels),
        }
    }
}

/// A target sets no capture switch, capture level or channel level.
pub open spec fn playback_only(c: ProfileControl) -> bool {
    c.capture_switch is None && c.capture_level is None && c.playback_channels@.len() == 0
        && c.capture_channels@.len() == 0
}

/// Every target sets playback values only.
pub open spec fn playback_only_targets(ts: Seq<(String, ProfileControl)>) -> bool {
    forall|i: int| 0 <= i < ts.len() ==> playback_only(#[trigger] ts[i].1)
}

/// A control target as plain values.
pub open spec fn target_view(t: ProfileControl) -> (Option<Seq<char>>, Option<bool>, Option<i64>) {
    (
        match t.choice {
            Some(c) => Some(c@),
            None => None,
        },
        t.playback_switch,
        t.playback_level,
    )
}

/// Named control targets, ordered by name.
pub open spec fn targets_view(ts: Seq<(String, ProfileControl)>) -> Seq<(Seq<char>, (Option<Seq<char>>, Option<bool>, Option<i64>))> {
    ts.map_values(|e: (String, ProfileControl)| (e.0@, target_view(e.1)))
}

/// The saved hardware Effects state.
#[derive(Clone, Debug, Eq, PartialEq)]
pub struct HardwareEffectsConfig {
    /// Where the managed state lives.
    pub path: String,
    pub profile: Option<EffectsProfileEntry>,
}

/// The result of applying or disabling hardware Effects.
#[derive(Clone, Debug, Eq, PartialEq)]
pub struct HardwareEffectsChange {
    pub config: HardwareEffectsConfig,
    pub changed: bool,
}

/// A failed or refused hardware Effects operation.
#[derive(Clone, Debug, Eq, PartialEq)]
pub enum HardwareEffectsError {
    Control(ControlError),
    /// A file operation failed, or a file is not ours; the text is its message.
    Io(String),
    Invalid(String),
}

/// The text a user sees for a hardware Effects error.
pub open spec fn hardware_error_text(e: HardwareEffectsError) -> Seq<char> {
    match e {
        HardwareEffectsError::Control(c) => controls::control_error_text(c),
        HardwareEffectsError::Io(m) => m@,
        HardwareEffectsError::Invalid(m) => m@,
    }
}

impl HardwareEffectsError {
    /// The text a user sees for this error.
    pub fn message(&self) -> (r: String)
        ensures
            r@ == hardware_error_text(*self),
    {
        match self {
            HardwareEffectsError::Control(c) => c.message(),
            HardwareEffectsError::Io(m) => m.clone(),
            HardwareEffectsError::Invalid(m) => m.clone(),
        }
    }
}

/// A switch-only target.
pub open spec fn switch_target(enabled: bool) -> (Option<Seq<char>>, Option<bool>, Option<i64>) {
    (None, Some(enabled), None)
}

/// A switch-and-level target.
pub open spec fn effect_target(enabled: bool, level: u16) -> (Option<Seq<char>>, Option<bool>, Option<i64>) {
    (None, Some(enabled), Some(level as i64))
}

/// The target of one effect, present only when the effect is available.
pub open spec fn optional_effect(available: bool, name: Seq<char>, enabled: bool, level: u16) -> Seq<(Seq<char>, (Option<Seq<char>>, Option<bool>, Option<i64>))> {
    if available {
        seq![(name, effect_target(enabled, level))]
    } else {
        Seq::empty()
    }
}

/// The Smart Volume targets: its switch and level, then its mode.
pub open spec fn smart_volume_entries(p: EffectsProfileEntry) -> Seq<(Seq<char>, (Option<Seq<char>>, Option<bool>, Option<i64>))> {
    if p.smart_volume_available {
        seq![
            ("FX: Smart Volume"@, effect_target(p.smart_volume_enabled, p.smart_volume_level)),
            ("FX: Smart Volume Setting"@, (Some(p.smart_volume_mode@), None, None)),
        ]
    } else {
        Seq::empty()
    }
}

/// The targets a profile sets, in name order: the OutFX master, then each
/// available effect, then the Smart Volume mode when Smart Volume is available.
pub open spec fn profile_target_entries(p: EffectsProfileEntry) -> Seq<(Seq<char>, (Option<Seq<char>>, Option<bool>, Option<i64>))> {
    seq![(HARDWARE_OUTFX_CONTROL@, switch_target(p.outfx_enabled))]
        + optional_effect(p.crystalizer_available, "FX: Crystalizer"@, p.crystalizer_enabled, p.crystalizer_level)
        + optional_effect(p.dialog_available, "FX: Dialog Plus"@, p.dialog_enabled, p.dialog_level)
        + smart_volume_entries(p)
        + optional_effect(p.surround_available, "FX: Surround"@, p.surround_enabled, p.surround_level)
        + optional_effect(p.bass_available, "FX: X-Bass"@, p.bass_enabled, p.bass_level)
}

/// Appends the target of an effect when it is available.
fn push_effect_target(targets: &mut Vec<(String, ProfileControl)>, available: bool, name: &str, enabled: bool, level: u16)
    requires
        playback_only_targets(old(targets)@),
    ensures
        targets_view(final(targets)@) == targets_view(old(targets)@) + optional_effect(available, name@, enabled, level),
        playback_only_targets(final(targets)@),
{
    if available {
        targets.push((owned(name), ProfileControl {
            choice: None,
            playback_switch: Some(enabled),
            capture_switch: None,
            playback_level: Some(level as i64),
            capture_level: None,
            playback_channels: Vec::new(),
            capture_channels: Vec::new(),
        }));
    }
    assert(targets_view(targets@) =~= targets_view(old(targets)@) + optional_effect(available, name@, enabled, level));
}

/// Appends the Smart Volume targets when Smart Volume is available.
fn push_smart_volume_targets(targets: &mut Vec<(String, ProfileControl)>, profile: &EffectsProfileEntry)
    requires
        playback_only_targets(old(targets)@),
    ensures
        targets_view(final(targets)@) == targets_view(old(targets)@) + smart_volume_entries(*profile),
        playback_only_targets(final(targets)@),
{
    if profile.smart_volume_available {
        targets.push((owned("FX: Smart Volume"), ProfileControl {
            choice: None,
            playback_switch: Some(profile.smart_volume_enabled),
            capture_switch: None,
            playback_level: Some(profile.smart_volume_level as i64),
            capture_level: None,
            playback_channels: Vec::new(),
            capture_channels: Vec::new(),
        }));
        targets.push((owned("FX: Smart Volume Setting"), ProfileControl {
            choice: Some(profile.smart_volume_mode.clone()),
            playback_switch: None,
            capture_switch: None,
            playback_level: None,
            capture_level: None,
            playback_channels: Vec::new(),
            capture_channels: Vec::new(),
        }));
    }
    assert(targets_view(targets@) =~= targets_view(old(targets)@) + smart_volume_entries(*profile));
}

/// The control targets a profile sets, ordered by control name.
pub fn profile_targets(profile: &EffectsProfileEntry) -> (r: Vec<(String, ProfileControl)>)
    ensures
        targets_view(r@) == profile_target_entries(*profile),
        playback_only_targets(r@),
{
    let mut targets = master_target(profile.outfx_enabled);
    push_effect_target(&mut targets, profile.crystalizer_available, "FX: Crystalizer", profile.crystalizer_enabled, profile.crystalizer_level);
    push_effect_target(&mut targets, profile.dialog_available, "FX: Dialog Plus", profile.dialog_enabled, profile.dialog_level);
    push_smart_volume_targets(&mut targets, profile);
    push_effect_target(&mut targets, profile.surround_available, "FX: Surround", profile.surround_enabled, profile.surround_level);
    push_effect_target(&mut targets, profile.bass_available, "FX: X-Bass", profile.bass_enabled, profile.bass_level);
    targets
}

/// The single target that sets the OutFX master switch.
pub fn master_target(enabled: bool) -> (r: Vec<(String, ProfileControl)>)
    ensures
        targets_view(r@) == seq![(HARDWARE_OUTFX_CONTROL@, switch_target(enabled))],
        playback_only_targets(r@),
{
    let mut targets: Vec<(String, ProfileControl)> = Vec::new();
    targets.push((owned(HARDWARE_OUTFX_CONTROL), ProfileControl {
        choice: None,
        playback_switch: Some(enabled),
        capture_switch: None,
        playback_level: None,
        capture_level: None,
        playback_channels: Vec::new(),
        capture_channels: Vec::new(),
    }));
    assert(targets_view(targets@) =~= seq![(HARDWARE_OUTFX_CONTROL@, switch_target(enabled))]);
    targets
}

/// The level value a control reports for playback.
pub open spec fn level_value(c: ControlSnapshot) -> Option<i64> {
    match c.playback_level {
        Some(l) => Some(l.value),
        None => None,
    }
}

/// Why the control `name` does not hold target `t`, if it does not.
pub open spec fn readback_problem(name: Seq<char>, t: (Option<Seq<char>>, Option<bool>, Option<i64>), cs: Seq<ControlSnapshot>) -> Option<Seq<char>> {
    match controls::find_control(cs, name) {
        None => Some(name + " is unavailable"@),
        Some(c) => if t.1 is Some && c.playback_switch != Some(t.1->0) {
            Some(name + " playback switch read back as "@ + controls::option_bool_debug(c.playback_switch)
                + ", expected "@ + controls::bool_text(t.1->0))
        } else if t.2 is Some && level_value(c) != Some(t.2->0) {
            Some(name + " playback level read back as "@ + controls::option_int_debug(level_value(c))
                + ", expected "@ + text::signed_decimal(t.2->0 as int))
        } else if t.0 is Some && !(controls::selected_text(c) is Some && text::eq_ignore_case(
            controls::selected_text(c)->0,
            t.0->0,
        )) {
            Some(name + " read back as "@ + controls::option_string_debug_text(controls::selected_text(c))
                + ", expected "@ + t.0->0)
        } else {
            None
        },
    }
}

/// Every target reads back from the controls.
pub open spec fn targets_read_back(ts: Seq<(Seq<char>, (Option<Seq<char>>, Option<bool>, Option<i64>))>, cs: Seq<ControlSnapshot>) -> bool {
    forall|i: int| 0 <= i < ts.len() ==> (#[trigger] readback_problem(ts[i].0, ts[i].1, cs)) is None
}

/// `m` is the problem of the first target that does not read back.
pub open spec fn first_readback_problem(ts: Seq<(Seq<char>, (Option<Seq<char>>, Option<bool>, Option<i64>))>, cs: Seq<ControlSnapshot>, m: Seq<char>) -> bool {
    exists|k: int|
        0 <= k < ts.len() && readback_problem(ts[k].0, ts[k].1, cs) == Some(m) && forall|j: int|
            0 <= j < k ==> (#[trigger] readback_problem(ts[j].0, ts[j].1, cs)) is None
}

/// Appends the `Debug` text of an optional integer.
fn push_option_int(s: &mut String, v: Option<i64>)
    ensures
        final(s)@ == old(s)@ + controls::option_int_debug(v),
{
    match v {
        Some(x) => {
            push_str(s, "Some(");
            push_signed(s, x);
            push_str(s, ")");
        },
        None => push_str(s, "None"),
    }
}

/// Why the control `name` does not hold `target`, if it does not.
fn readback_problem_of(name: &str, target: &ProfileControl, controls: &[ControlSnapshot]) -> (r: Option<String>)
    ensures
        match r {
            Some(m) => readback_problem(name@, target_view(*target), controls@) == Some(m@),
            None => readback_problem(name@, target_view(*target), controls@) is None,
        },
{
    let index = find_control_index(controls, name);
    let k = match index {
        None => {
            let mut m = owned(name);
            push_str(&mut m, " is unavailable");
            return Some(m);
        },
        Some(k) => k,
    };
    let current = &controls[k];
    if let Some(expected) = target.playback_switch {
        if current.playback_switch != Some(expected) {
            let mut m = owned(name);
            push_str(&mut m, " playback switch read back as ");
            match current.playback_switch {
                Some(true) => push_str(&mut m, "Some(true)"),
                Some(false) => push_str(&mut m, "Some(false)"),
                None => push_str(&mut m, "None"),
            }
            push_str(&mut m, ", expected ");
            push_bool(&mut m, expected);
            return Some(m);
        }
    }
    let actual_level = match &current.playback_level {
        Some(l) => Some(l.value),
        None => None,
    };
    if let Some(expected) = target.playback_level {
        if actual_level != Some(expected) {
            let mut m = owned(name);
            push_str(&mut m, " playback level read back as ");
            push_option_int(&mut m, actual_level);
            push_str(&mut m, ", expected ");
            push_signed(&mut m, expected);
            return Some(m);
        }
    }
    if let Some(expected) = &target.choice {
        let matches = match &current.selected {
            Some(actual) => eq_ignore_ascii_case(actual.as_str(), expected.as_str()),
            None => false,
        };
        if !matches {
            let mut m = owned(name);
            push_str(&mut m, " read back as ");
            let shown = controls::debug_option_string(&current.selected);
            push_str(&mut m, shown.as_str());
            push_str(&mut m, ", expected ");
            push_str(&mut m, expected.as_str());
            return Some(m);
        }
    }
    None
}

/// Checks that every target reads back from the controls, reporting the
/// first one that does not.
pub fn verify_targets(targets: &[(String, ProfileControl)], controls: &[ControlSnapshot]) -> (r: Result<(), String>)
    ensures
        r is Ok <==> targets_read_back(targets_view(targets@), controls@),
        r matches Err(m) ==> first_readback_problem(targets_view(targets@), controls@, m@),
{
    let ghost ts = targets_view(targets@);
    let mut i: usize = 0;
    while i < targets.len()
        invariant
            i <= targets@.len(),
            ts == targets_view(targets@),
            forall|j: int| 0 <= j < i ==> (#[trigger] readback_problem(ts[j].0, ts[j].1, controls@)) is None,
        decreases targets.len() - i,
    {
        let (name, target) = &targets[i];
        assert(ts[i as int] == (name@, target_view(*target)));
        match readback_problem_of(name.as_str(), target, controls) {
            Some(m) => {
                assert(readback_problem(ts[i as int].0, ts[i as int].1, controls@) == Some(m@));
                return Err(m);
            },
            None => {},
        }
        i += 1;
    }
    Ok(())
}

/// Why target `t` cannot be written to the control `name`, if it cannot.
pub open spec fn target_problem(name: Seq<char>, t: (Option<Seq<char>>, Option<bool>, Option<i64>), cs: Seq<ControlSnapshot>) -> Option<Seq<char>> {
    match controls::find_control(cs, name) {
        None => Some(name + " is unavailable"@),
        Some(c) => if t.1 is Some && c.playback_switch is None {
            Some(name + " has no playback switch"@)
        } else if t.2 is Some && c.playback_level is None {
            Some(name + " has no playback level"@)
        } else if t.2 is Some && !(c.playback_level->0.min <= t.2->0 <= c.playback_level->0.max) {
            Some(name + " level "@ + text::signed_decimal(t.2->0 as int) + " is outside "@
                + text::signed_decimal(c.playback_level->0.min as int) + ".."@
                + text::signed_decimal(c.playback_level->0.max as int))
        } else if t.0 is Some && controls::choice_position_from(c.choices@, t.0->0, 0) is None {
            Some(name + " does not support "@ + t.0->0)
        } else {
            None
        },
    }
}

/// Every target can be written to the controls.
pub open spec fn targets_writable(ts: Seq<(Seq<char>, (Option<Seq<char>>, Option<bool>, Option<i64>))>, cs: Seq<ControlSnapshot>) -> bool {
    forall|i: int| 0 <= i < ts.len() ==> (#[trigger] target_problem(ts[i].0, ts[i].1, cs)) is None
}

/// `m` is the problem of the first target that cannot be written.
pub open spec fn first_target_problem(ts: Seq<(Seq<char>, (Option<Seq<char>>, Option<bool>, Option<i64>))>, cs: Seq<ControlSnapshot>, m: Seq<char>) -> bool {
    exists|k: int|
        0 <= k < ts.len() && target_problem(ts[k].0, ts[k].1, cs) == Some(m) && forall|j: int|
            0 <= j < k ==> (#[trigger] target_problem(ts[j].0, ts[j].1, cs)) is None
}

/// Why `target` cannot be written to the control `name`, if it cannot.
fn target_problem_of(name: &str, target: &ProfileControl, controls: &[ControlSnapshot]) -> (r: Option<String>)
    ensures
        match r {
            Some(m) => target_problem(name@, target_view(*target), controls@) == Some(m@),
            None => target_problem(name@, target_view(*target), controls@) is None,
        },
{
    let k = match find_control_index(controls, name) {
        None => {
            let mut m = owned(name);
            push_str(&mut m, " is unavailable");
            return Some(m);
        },
        Some(k) => k,
    };
    let current = &controls[k];
    if target.playback_switch.is_some() && current.playback_switch.is_none() {
        let mut m = owned(name);
        push_str(&mut m, " has no playback switch");
        return Some(m);
    }
    if let Some(value) = target.playback_level {
        match &current.playback_level {
            None => {
                let mut m = owned(name);
                push_str(&mut m, " has no playback level");
                return Some(m);
            },
            Some(level) => {
                if !(level.min <= value && value <= level.max) {
                    let mut m = owned(name);
                    push_str(&mut m, " level ");
                    push_signed(&mut m, value);
                    push_str(&mut m, " is outside ");
                    push_signed(&mut m, level.min);
                    push_str(&mut m, "..");
                    push_signed(&mut m, level.max);
                    return Some(m);
                }
            },
        }
    }
    if let Some(choice) = &target.choice {
        if choice_index(current.choices.as_slice(), choice.as_str()).is_none() {
            let mut m = owned(name);
            push_str(&mut m, " does not support ");
            push_str(&mut m, choice.as_str());
            return Some(m);
        }
    }
    None
}

/// Checks that every target can be written before anything is written,
/// reporting the first one that cannot.
pub fn validate_targets(targets: &[(String, ProfileControl)], controls: &[ControlSnapshot]) -> (r: Result<(), HardwareEffectsError>)
    ensures
        r is Ok <==> targets_writable(targets_view(targets@), controls@),
        r matches Err(e) ==> e is Invalid && first_target_problem(targets_view(targets@), controls@, e->Invalid_0@),
{
    let ghost ts = targets_view(targets@);
    let mut i: usize = 0;
    while i < targets.len()
        invariant
            i <= targets@.len(),
            ts == targets_view(targets@),
            forall|j: int| 0 <= j < i ==> (#[trigger] target_problem(ts[j].0, ts[j].1, controls@)) is None,
        decreases targets.len() - i,
    {
        let (name, target) = &targets[i];
        assert(ts[i as int] == (name@, target_view(*target)));
        match target_problem_of(name.as_str(), target, controls) {
            Some(m) => {
                assert(target_problem(ts[i as int].0, ts[i as int].1, controls@) == Some(m@));
                return Err(HardwareEffectsError::Invalid(m));
            },
            None => {},
        }
        i += 1;
    }
    Ok(())
}

/// What capturing `t` records of the control `c`: the current value of each
/// field the target sets.
pub open spec fn captured_target(t: (Option<Seq<char>>, Option<bool>, Option<i64>), c: ControlSnapshot) -> (Option<Seq<char>>, Option<bool>, Option<i64>) {
    (
        if t.0 is Some { controls::selected_text(c) } else { None },
        if t.1 is Some { c.playback_switch } else { None },
        if t.2 is Some { level_value(c) } else { None },
    )
}

/// The current values of every target's control, in the targets' order.
pub open spec fn captured_entries(ts: Seq<(Seq<char>, (Option<Seq<char>>, Option<bool>, Option<i64>))>, cs: Seq<ControlSnapshot>) -> Seq<(Seq<char>, (Option<Seq<char>>, Option<bool>, Option<i64>))> {
    Seq::new(ts.len(), |i: int| (ts[i].0, captured_target(ts[i].1, controls::find_control(cs, ts[i].0)->0)))
}

/// Every target names a control that exists.
pub open spec fn all_targets_present(ts: Seq<(Seq<char>, (Option<Seq<char>>, Option<bool>, Option<i64>))>, cs: Seq<ControlSnapshot>) -> bool {
    forall|i: int| 0 <= i < ts.len() ==> (#[trigger] controls::find_control(cs, ts[i].0)) is Some
}

/// Records the current value of every field the targets set, so that a
/// failed transaction can be rolled back.
pub fn capture_targets(targets: &[(String, ProfileControl)], controls: &[ControlSnapshot]) -> (r: Result<Vec<(String, ProfileControl)>, HardwareEffectsError>)
    ensures
        r is Ok <==> all_targets_present(targets_view(targets@), controls@),
        r matches Ok(v) ==> targets_view(v@) == captured_entries(targets_view(targets@), controls@),
        r matches Err(e) ==> exists|k: int|
            0 <= k < targets@.len() && controls::find_control(controls@, targets@[k].0@) is None
                && e == HardwareEffectsError::Invalid(e->Invalid_0)
                && e->Invalid_0@ == targets@[k].0@ + " is unavailable"@
                && forall|j: int| 0 <= j < k ==> (#[trigger] controls::find_control(controls@, targets@[j].0@)) is Some,
{
    let ghost ts = targets_view(targets@);
    let ghost want = captured_entries(ts, controls@);
    let mut out: Vec<(String, ProfileControl)> = Vec::new();
    let mut i: usize = 0;
    while i < targets.len()
        invariant
            i <= targets@.len(),
            ts == targets_view(targets@),
            want == captured_entries(ts, controls@),
            out@.len() == i,
            forall|j: int| 0 <= j < i ==> (#[trigger] targets_view(out@)[j]) == want[j],
            forall|j: int| 0 <= j < i ==> (#[trigger] controls::find_control(controls@, targets@[j].0@)) is Some,
        decreases targets.len() - i,
    {
        let (name, target) = &targets[i];
        proof {
            assert(ts[i as int] == (name@, target_view(*target)));
        }
        let k = match find_control_index(controls, name.as_str()) {
            None => {
                let mut m = owned(name.as_str());
                push_str(&mut m, " is unavailable");
                assert(controls::find_control(controls@, ts[i as int].0) is None);
                return Err(HardwareEffectsError::Invalid(m));
            },
            Some(k) => k,
        };
        let current = &controls[k];
        assert(controls::find_control(controls@, name@) == Some(controls@[k as int]));
        let choice = if target.choice.is_some() {
            match &current.selected {
                Some(s) => Some(s.clone()),
                None => None,
            }
        } else {
            None
        };
        let playback_switch = if target.playback_switch.is_some() {
            current.playback_switch
        } else {
            None
        };
        let playback_level = if target.playback_level.is_some() {
            match &current.playback_level {
                Some(l) => Some(l.value),
                None => None,
            }
        } else {
            None
        };
        let ghost before = out@;
        let entry = (name.clone(), ProfileControl {
            choice,
            playback_switch,
            capture_switch: None,
            playback_level,
            capture_level: None,
            playback_channels: Vec::new(),
            capture_channels: Vec::new(),
        });
        assert((entry.0@, target_view(entry.1)) == want[i as int]);
        out.push(entry);
        proof {
            assert forall|j: int| 0 <= j <= i implies (#[trigger] targets_view(out@)[j]) == want[j] by {
                if j < i {
                    assert(out@[j] == before[j]);
                    assert(targets_view(before)[j] == want[j]);
                } else {
                    assert(out@[j] == entry);
                }
            }
        }
        i += 1;
    }
    proof {
        assert(targets_view(out@) =~= want);
    }
    Ok(out)
}

/// Whether the controls hold a profile's targets; without `include_master`
/// the OutFX master switch (the first target) is left out, so a profile
/// whose master was switched off still matches.
pub fn hardware_effects_profile_matches(profile: &EffectsProfileEntry, controls: &[ControlSnapshot], include_master: bool) -> (r: bool)
    ensures
        r == targets_read_back(
            if include_master {
                profile_target_entries(*profile)
            } else {
                profile_target_entries(*profile).drop_first()
            },
            controls@,
        ),
{
    let mut targets = profile_targets(profile);
    if !include_master {
        let ghost before = targets@;
        assert(targets_view(targets@).len() == targets@.len());
        assert(profile_target_entries(*profile).len() >= 1);
        let _master = targets.remove(0);
        assert(targets_view(targets@) =~= targets_view(before).drop_first());
    }
    verify_targets(targets.as_slice(), controls).is_ok()
}

/// A profile that matches the controls with its master also matches them
/// without it: leaving the master out only drops a check.
pub proof fn lemma_match_without_master(p: EffectsProfileEntry, cs: Seq<ControlSnapshot>)
    requires
        targets_read_back(profile_target_entries(p), cs),
    ensures
        targets_read_back(profile_target_entries(p).drop_first(), cs),
{
    let ts = profile_target_entries(p);
    let rest = ts.drop_first();
    assert forall|i: int| 0 <= i < rest.len() implies (#[trigger] readback_problem(rest[i].0, rest[i].1, cs)) is None by {
        assert(rest[i] == ts[i + 1]);
        assert(readback_problem(ts[i + 1].0, ts[i + 1].1, cs) is None);
    }
}

/// The message that refuses hardware Effects while Direct Mode is on.
pub open spec fn direct_mode_on_text() -> Seq<char> {
    "Turn Direct Mode off before applying hardware Effects."@
}

/// Refuses hardware Effects while Direct Mode bypasses the DSP.
pub fn require_direct_mode_off(controls: &[ControlSnapshot]) -> (r: Result<(), HardwareEffectsError>)
    ensures
        r is Ok <==> controls::switch_of(controls@, DIRECT_MODE_CONTROL@) != Some(true),
        r matches Err(e) ==> e == HardwareEffectsError::Invalid(e->Invalid_0) && e->Invalid_0@ == direct_mode_on_text(),
{
    if switch_state_of(controls, DIRECT_MODE_CONTROL) == Some(true) {
        Err(HardwareEffectsError::Invalid(owned("Turn Direct Mode off before applying hardware Effects.")))
    } else {
        Ok(())
    }
}

/// The message that refuses hardware OutFX outside the lab setup.
pub open spec fn gate_closed_text() -> Seq<char> {
    "Hardware OutFX needs the exact AE-5 OutFX lab kernel, its boot-scoped module gate, an outfx-lab build, and explicit process confirmation."@
}

/// Refuses hardware OutFX unless the lab setup is active; `lab_active` is
/// what the application found of the kernel, module gate and build.
pub fn require_hardware_effects_gate(lab_active: bool) -> (r: Result<(), HardwareEffectsError>)
    ensures
        r is Ok <==> lab_active,
        r matches Err(e) ==> e == HardwareEffectsError::Invalid(e->Invalid_0) && e->Invalid_0@ == gate_closed_text(),
{
    if lab_active {
        Ok(())
    } else {
        Err(HardwareEffectsError::Invalid(owned(
            "Hardware OutFX needs the exact AE-5 OutFX lab kernel, its boot-scoped module gate, an outfx-lab build, and explicit process confirmation.",
        )))
    }
}

/// How a step of a transaction ended, as the failure message shows it.
pub open spec fn detail_text(r: Result<(), ControlError>) -> Seq<char> {
    match r {
        Ok(()) => "verified"@,
        Err(e) => controls::control_error_text(e),
    }
}

/// How a step of a transaction ended: `verified`, or the error's text.
pub fn result_detail(result: &Result<(), ControlError>) -> (r: String)
    ensures
        r@ == detail_text(*result),
{
    match result {
        Ok(()) => owned("verified"),
        Err(e) => e.message(),
    }
}

/// The message of a failed transaction: the failure, how the rollback
/// ended, and how resuming the output ended.
pub open spec fn transaction_failure_text(failure: ControlError, rollback: Result<(), ControlError>, resume: Result<(), String>) -> Seq<char> {
    "Hardware Effects transaction failed: "@ + controls::control_error_text(failure) + "; rollback: "@
        + detail_text(rollback) + "; output resume: "@ + match resume {
        Ok(()) => "verified"@,
        Err(m) => m@,
    }
}

/// The error reported when a transaction failed; `resume` carries the
/// message of a failed output resume.
pub fn transaction_failure(failure: &ControlError, rollback: &Result<(), ControlError>, resume: &Result<(), String>) -> (r: HardwareEffectsError)
    ensures
        r == HardwareEffectsError::Invalid(r->Invalid_0),
        r->Invalid_0@ == transaction_failure_text(*failure, *rollback, *resume),
{
    let mut m = owned("Hardware Effects transaction failed: ");
    let failed = failure.message();
    push_str(&mut m, failed.as_str());
    push_str(&mut m, "; rollback: ");
    let rolled = result_detail(rollback);
    push_str(&mut m, rolled.as_str());
    push_str(&mut m, "; output resume: ");
    match resume {
        Ok(()) => push_str(&mut m, "verified"),
        Err(e) => push_str(&mut m, e.as_str()),
    }
    HardwareEffectsError::Invalid(m)
}

/// One mixer write of a hardware Effects transaction.
#[derive(Clone, Debug, Eq, PartialEq)]
pub enum TargetWrite {
    /// Set the playback switch of the named control.
    Switch(String, bool),
    /// Select the named choice of the named control.
    Choice(String, String),
    /// Set the playback level of the named control.
    Level(String, i64),
}

/// A mixer write as plain values.
pub enum WriteView {
    Switch(Seq<char>, bool),
    Choice(Seq<char>, Seq<char>),
    Level(Seq<char>, i64),
}

/// A mixer write as plain values.
pub open spec fn write_view(w: TargetWrite) -> WriteView {
    match w {
        TargetWrite::Switch(n, v) => WriteView::Switch(n@, v),
        TargetWrite::Choice(n, c) => WriteView::Choice(n@, c@),
        TargetWrite::Level(n, v) => WriteView::Level(n@, v),
    }
}

/// A sequence of mixer writes as plain values.
pub open spec fn writes_view(ws: Seq<TargetWrite>) -> Seq<WriteView> {
    ws.map_values(|w: TargetWrite| write_view(w))
}

/// The target is an effect whose switch is turned off while the profile changes.
pub open spec fn is_quieted(e: (Seq<char>, (Option<Seq<char>>, Option<bool>, Option<i64>))) -> bool {
    text::has_prefix(e.0, "FX: "@) && e.0 != "FX: Smart Volume Setting"@ && e.1.1 is Some
}

/// The write a target needs in one phase of the transaction, judged from
/// the controls as they were read before the transaction:
/// phase 2 switches quieted effects off, phase 3 selects choices, phase 4
/// sets levels, phase 5 sets every child switch to its target.
pub open spec fn phase_write(phase: int, e: (Seq<char>, (Option<Seq<char>>, Option<bool>, Option<i64>)), cs: Seq<ControlSnapshot>) -> Option<WriteView> {
    let (name, t) = e;
    if phase == 2 {
        if is_quieted(e) && controls::switch_of(cs, name) != Some(false) {
            Some(WriteView::Switch(name, false))
        } else {
            None
        }
    } else if phase == 3 {
        if t.0 is Some && !(controls::selected_of(cs, name) is Some && text::eq_ignore_case(
            controls::selected_of(cs, name)->0,
            t.0->0,
        )) {
            Some(WriteView::Choice(name, t.0->0))
        } else {
            None
        }
    } else if phase == 4 {
        if t.2 is Some && match controls::level_of(cs, name) {
            Some(l) => l.value != t.2->0,
            None => true,
        } {
            Some(WriteView::Level(name, t.2->0))
        } else {
            None
        }
    } else if phase == 5 {
        let live = if is_quieted(e) {
            Some(false)
        } else {
            controls::switch_of(cs, name)
        };
        if name != HARDWARE_OUTFX_CONTROL@ && t.1 is Some && live != Some(t.1->0) {
            Some(WriteView::Switch(name, t.1->0))
        } else {
            None
        }
    } else {
        None
    }
}

/// The writes of one phase for the first `n` targets, in order.
pub open spec fn phase_writes(ts: Seq<(Seq<char>, (Option<Seq<char>>, Option<bool>, Option<i64>))>, cs: Seq<ControlSnapshot>, phase: int, n: int) -> Seq<WriteView>
    decreases n,
{
    if n <= 0 || n > ts.len() {
        Seq::empty()
    } else {
        phase_writes(ts, cs, phase, n - 1) + match phase_write(phase, ts[n - 1], cs) {
            Some(w) => seq![w],
            None => Seq::empty(),
        }
    }
}

/// The position of the first target for the control `name`, at or after `i`.
pub open spec fn target_index_from(ts: Seq<(Seq<char>, (Option<Seq<char>>, Option<bool>, Option<i64>))>, name: Seq<char>, i: int) -> Option<int>
    decreases ts.len() - i,
{
    if i < 0 || i >= ts.len() {
        None
    } else if ts[i].0 == name {
        Some(i)
    } else {
        target_index_from(ts, name, i + 1)
    }
}

/// Phase 1: the OutFX master is switched off first, when it is a target.
pub open spec fn master_off_writes(ts: Seq<(Seq<char>, (Option<Seq<char>>, Option<bool>, Option<i64>))>, cs: Seq<ControlSnapshot>) -> Seq<WriteView> {
    if target_index_from(ts, HARDWARE_OUTFX_CONTROL@, 0) is Some && controls::switch_of(
        cs,
        HARDWARE_OUTFX_CONTROL@,
    ) != Some(false) {
        seq![WriteView::Switch(HARDWARE_OUTFX_CONTROL@, false)]
    } else {
        Seq::empty()
    }
}

/// Phase 6: the OutFX master is switched on last, when its target is on.
pub open spec fn master_last_writes(ts: Seq<(Seq<char>, (Option<Seq<char>>, Option<bool>, Option<i64>))>) -> Seq<WriteView> {
    match target_index_from(ts, HARDWARE_OUTFX_CONTROL@, 0) {
        Some(i) => if ts[i].1.1 == Some(true) {
            seq![WriteView::Switch(HARDWARE_OUTFX_CONTROL@, true)]
        } else {
            Seq::empty()
        },
        None => Seq::empty(),
    }
}

/// Every write that brings the controls to the targets, in the order that
/// keeps the effects silent while they change: the master off, the effects
/// off, the choices, the levels, the effect switches, and the master last.
pub open spec fn write_plan(ts: Seq<(Seq<char>, (Option<Seq<char>>, Option<bool>, Option<i64>))>, cs: Seq<ControlSnapshot>) -> Seq<WriteView> {
    master_off_writes(ts, cs) + phase_writes(ts, cs, 2, ts.len() as int) + phase_writes(ts, cs, 3, ts.len() as int)
        + phase_writes(ts, cs, 4, ts.len() as int) + phase_writes(ts, cs, 5, ts.len() as int)
        + master_last_writes(ts)
}

/// The write `target` needs in one phase.
fn phase_write_of(phase: u8, name: &str, target: &ProfileControl, controls: &[ControlSnapshot]) -> (r: Option<TargetWrite>)
    requires
        2 <= phase <= 5,
    ensures
        match r {
            Some(w) => phase_write(phase as int, (name@, target_view(*target)), controls@) == Some(write_view(w)),
            None => phase_write(phase as int, (name@, target_view(*target)), controls@) is None,
        },
{
    let quieted = starts_with(name, "FX: ") && !str_eq(name, "FX: Smart Volume Setting") && target.playback_switch.is_some();
    if phase == 2 {
        if quieted && switch_state_of(controls, name) != Some(false) {
            Some(TargetWrite::Switch(owned(name), false))
        } else {
            None
        }
    } else if phase == 3 {
        match &target.choice {
            Some(choice) => {
                let current = selected_choice_of(controls, name);
                let same = match current {
                    Some(c) => eq_ignore_ascii_case(c.as_str(), choice.as_str()),
                    None => false,
                };
                if same {
                    None
                } else {
                    Some(TargetWrite::Choice(owned(name), choice.clone()))
                }
            },
            None => None,
        }
    } else if phase == 4 {
        match target.playback_level {
            Some(level) => {
                let current = match find_control_index(controls, name) {
                    Some(k) => match &controls[k].playback_level {
                        Some(l) => Some(l.value),
                        None => None,
                    },
                    None => None,
                };
                if current == Some(level) {
                    None
                } else {
                    Some(TargetWrite::Level(owned(name), level))
                }
            },
            None => None,
        }
    } else {
        let live = if quieted {
            Some(false)
        } else {
            switch_state_of(controls, name)
        };
        match target.playback_switch {
            Some(enabled) => {
                if !str_eq(name, HARDWARE_OUTFX_CONTROL) && live != Some(enabled) {
                    Some(TargetWrite::Switch(owned(name), enabled))
                } else {
                    None
                }
            },
            None => None,
        }
    }
}

/// Appends the writes of one phase for every target.
fn push_phase_writes(out: &mut Vec<TargetWrite>, phase: u8, targets: &[(String, ProfileControl)], controls: &[ControlSnapshot])
    requires
        2 <= phase <= 5,
    ensures
        writes_view(final(out)@) == writes_view(old(out)@) + phase_writes(targets_view(targets@), controls@, phase as int, targets@.len() as int),
{
    let ghost ts = targets_view(targets@);
    let ghost start = writes_view(out@);
    let mut i: usize = 0;
    while i < targets.len()
        invariant
            2 <= phase <= 5,
            i <= targets@.len(),
            ts == targets_view(targets@),
            writes_view(out@) == start + phase_writes(ts, controls@, phase as int, i as int),
        decreases targets.len() - i,
    {
        let (name, target) = &targets[i];
        assert(ts[i as int] == (name@, target_view(*target)));
        let ghost before = writes_view(out@);
        match phase_write_of(phase, name.as_str(), target, controls) {
            Some(w) => {
                out.push(w);
                assert(writes_view(out@) =~= before.push(write_view(w)));
            },
            None => {},
        }
        i += 1;
        assert(phase_writes(ts, controls@, phase as int, i as int) == phase_writes(ts, controls@, phase as int, i - 1) + match phase_write(phase as int, ts[i - 1], controls@) {
            Some(w) => seq![w],
            None => Seq::<WriteView>::empty(),
        });
        assert(writes_view(out@) =~= start + phase_writes(ts, controls@, phase as int, i as int));
    }
}

/// The position of the first target for the control `name`.
fn target_index(targets: &[(String, ProfileControl)], name: &str) -> (r: Option<usize>)
    ensures
        match r {
            Some(i) => target_index_from(targets_view(targets@), name@, 0) == Some(i as int) && i < targets@.len(),
            None => target_index_from(targets_view(targets@), name@, 0) is None,
        },
{
    let ghost ts = targets_view(targets@);
    let mut i: usize = 0;
    while i < targets.len()
        invariant
            i <= targets@.len(),
            ts == targets_view(targets@),
            target_index_from(ts, name@, 0) == target_index_from(ts, name@, i as int),
        decreases targets.len() - i,
    {
        assert(ts[i as int].0 == targets@[i as int].0@);
        if str_eq(targets[i].0.as_str(), name) {
            return Some(i);
        }
        i += 1;
    }
    None
}

/// The writes that bring the controls to the targets, judged from the
/// controls as read before the transaction, in the order that keeps the
/// effects silent while they change.  The application performs them in
/// this order and stops at the first failure.
pub fn plan_target_writes(targets: &[(String, ProfileControl)], controls: &[ControlSnapshot]) -> (r: Vec<TargetWrite>)
    ensures
        writes_view(r@) == write_plan(targets_view(targets@), controls@),
{
    let ghost ts = targets_view(targets@);
    let mut out: Vec<TargetWrite> = Vec::new();
    let master = target_index(targets, HARDWARE_OUTFX_CONTROL);
    if master.is_some() && switch_state_of(controls, HARDWARE_OUTFX_CONTROL) != Some(false) {
        out.push(TargetWrite::Switch(owned(HARDWARE_OUTFX_CONTROL), false));
    }
    assert(writes_view(out@) =~= master_off_writes(ts, controls@));
    push_phase_writes(&mut out, 2, targets, controls);
    push_phase_writes(&mut out, 3, targets, controls);
    push_phase_writes(&mut out, 4, targets, controls);
    push_phase_writes(&mut out, 5, targets, controls);
    let ghost before = writes_view(out@);
    match master {
        Some(i) => {
            assert(ts[i as int].1.1 == targets@[i as int].1.playback_switch);
            if targets[i].1.playback_switch == Some(true) {
                out.push(TargetWrite::Switch(owned(HARDWARE_OUTFX_CONTROL), true));
            }
        },
        None => {},
    }
    assert(writes_view(out@) =~= before + master_last_writes(ts));
    out
}

/// The managed state file's contents.
#[derive(Clone, Debug, Eq, PartialEq)]
pub struct StoredHardwareEffects {
    pub schema_version: u32,
    pub profile: EffectsProfileEntry,
}

/// The error for a state file that AE-5 Control did not write.
fn foreign_hardware_config(path: &str) -> (r: HardwareEffectsError)
    ensures
        r == HardwareEffectsError::Io(r->Io_0) && r->Io_0@ == effects_chain::foreign_config_text(path@),
{
    let mut m = owned(path);
    push_str(&mut m, " exists but is not managed by AE-5 Control");
    HardwareEffectsError::Io(m)
}

/// The saved hardware Effects state at `path`, from the parsed state file
/// (`None` when the file does not exist).  A file that does not parse is
/// foreign; the application reports it with the same error.
pub fn hardware_effects_config(path: &str, stored: Option<StoredHardwareEffects>) -> (r: Result<HardwareEffectsConfig, HardwareEffectsError>)
    ensures
        stored is None ==> (r matches Ok(c) && c.path@ == path@ && c.profile is None),
        stored matches Some(st) ==> if st.schema_version != HARDWARE_CONFIG_SCHEMA_VERSION {
            r matches Err(HardwareEffectsError::Io(m)) && m@ == effects_chain::foreign_config_text(path@)
        } else {
            r matches Ok(c) && c.path@ == path@ && c.profile == Some(st.profile)
        },
{
    match stored {
        None => Ok(HardwareEffectsConfig { path: owned(path), profile: None }),
        Some(stored) => {
            if stored.schema_version != HARDWARE_CONFIG_SCHEMA_VERSION {
                return Err(foreign_hardware_config(path));
            }
            Ok(HardwareEffectsConfig { path: owned(path), profile: Some(stored.profile) })
        },
    }
}

/// The saved state already holds `p`.
pub open spec fn already_saved(current: HardwareEffectsConfig, p: EffectsProfileEntry) -> bool {
    current.profile is Some && effects_profile_view(current.profile->0) == effects_profile_view(p)
}

/// Whether saving `profile` over the saved state `current` writes the file;
/// a profile that is already saved is kept as it is.
pub fn hardware_effects_save_needed(current: &HardwareEffectsConfig, profile: &EffectsProfileEntry) -> (r: bool)
    ensures
        r == !already_saved(*current, *profile),
{
    match &current.profile {
        Some(saved) => !same_effects_profile(saved, profile),
        None => true,
    }
}

/// What restoring a saved hardware Effects state asks for.
#[derive(Clone, Debug, Eq, PartialEq)]
pub enum HardwareEffectsRestore {
    /// Save this profile again.
    Save(EffectsProfileEntry),
    /// Remove the state file; a file that is already gone is no change.
    Remove,
}

/// The message for restoring a state into another file.
pub open spec fn restore_mismatch_text(from: Seq<char>, into: Seq<char>) -> Seq<char> {
    "cannot restore hardware Effects state from "@ + from + " into "@ + into
}

/// Decides how to restore `config` into the state file at `path`.
pub fn restore_hardware_effects_config(config: &HardwareEffectsConfig, path: &str) -> (r: Result<HardwareEffectsRestore, HardwareEffectsError>)
    ensures
        config.path@ != path@ ==> (r matches Err(HardwareEffectsError::Invalid(m)) && m@ == restore_mismatch_text(config.path@, path@)),
        config.path@ == path@ ==> r == Ok::<HardwareEffectsRestore, HardwareEffectsError>(match config.profile {
            Some(p) => HardwareEffectsRestore::Save(p),
            None => HardwareEffectsRestore::Remove,
        }),
{
    if !str_eq(config.path.as_str(), path) {
        let mut m = owned("cannot restore hardware Effects state from ");
        push_str(&mut m, config.path.as_str());
        push_str(&mut m, " into ");
        push_str(&mut m, path);
        return Err(HardwareEffectsError::Invalid(m));
    }
    match &config.profile {
        Some(p) => Ok(HardwareEffectsRestore::Save(p.clone())),
        None => Ok(HardwareEffectsRestore::Remove),
    }
}

/// A hardware Effects transaction, decided before any write: the targets,
/// the values to roll back to, and the ordered writes.
#[derive(Clone, Debug, Eq, PartialEq)]
pub struct HardwareEffectsTransaction {
    pub targets: Vec<(String, ProfileControl)>,
    pub previous: Vec<(String, ProfileControl)>,
    pub writes: Vec<TargetWrite>,
}

/// The message that refuses a profile whose master is off.
pub open spec fn master_disabled_text() -> Seq<char> {
    "Enable the Effects master before applying this hardware profile."@
}

/// Decides a hardware Effects transaction for `profile` on the controls as
/// read now; `lab_active` is what the application found of the lab setup.
/// The refusals come in order: a profile that enables an effect it marks
/// unavailable, a profile whose master is off, a closed gate, Direct Mode
/// on, then the first target that cannot be written.
pub fn apply_hardware_effects(profile: &EffectsProfileEntry, lab_active: bool, controls: &[ControlSnapshot]) -> (r: Result<HardwareEffectsTransaction, HardwareEffectsError>)
    ensures
        effects_chain::profile_problem(*profile) matches Some(m) ==> (r matches Err(HardwareEffectsError::Invalid(x)) && x@ == m),
        effects_chain::profile_problem(*profile) is None && !profile.outfx_enabled ==> (r matches Err(HardwareEffectsError::Invalid(m)) && m@ == master_disabled_text()),
        effects_chain::profile_problem(*profile) is None && profile.outfx_enabled && !lab_active ==> (r matches Err(HardwareEffectsError::Invalid(m)) && m@ == gate_closed_text()),
        effects_chain::profile_problem(*profile) is None && profile.outfx_enabled && lab_active && controls::switch_of(controls@, DIRECT_MODE_CONTROL@) == Some(true)
            ==> (r matches Err(HardwareEffectsError::Invalid(m)) && m@ == direct_mode_on_text()),
        effects_chain::profile_problem(*profile) is None && profile.outfx_enabled && lab_active && controls::switch_of(controls@, DIRECT_MODE_CONTROL@) != Some(true)
            ==> if targets_writable(profile_target_entries(*profile), controls@) {
                r matches Ok(tx) && targets_view(tx.targets@) == profile_target_entries(*profile)
                    && targets_view(tx.previous@) == captured_entries(profile_target_entries(*profile), controls@)
                    && writes_view(tx.writes@) == write_plan(profile_target_entries(*profile), controls@)
            } else {
                r matches Err(HardwareEffectsError::Invalid(m)) && first_target_problem(profile_target_entries(*profile), controls@, m@)
            },
{
    if let Err(effects_chain::EffectsChainError::Invalid(m)) = effects_chain::validate_profile(profile) {
        return Err(HardwareEffectsError::Invalid(m));
    }
    if !profile.outfx_enabled {
        return Err(HardwareEffectsError::Invalid(owned("Enable the Effects master before applying this hardware profile.")));
    }
    require_hardware_effects_gate(lab_active)?;
    require_direct_mode_off(controls)?;
    let targets = profile_targets(profile);
    validate_targets(targets.as_slice(), controls)?;
    proof {
        let ts = targets_view(targets@);
        assert forall|i: int| 0 <= i < ts.len() implies (#[trigger] controls::find_control(controls@, ts[i].0)) is Some by {
            assert(target_problem(ts[i].0, ts[i].1, controls@) is None);
        }
    }
    let previous = match capture_targets(targets.as_slice(), controls) {
        Ok(previous) => previous,
        Err(e) => return Err(e),
    };
    let writes = plan_target_writes(targets.as_slice(), controls);
    Ok(HardwareEffectsTransaction { targets, previous, writes })
}

/// The message for a master control without a playback switch.
pub open spec fn master_without_switch_text() -> Seq<char> {
    HARDWARE_OUTFX_CONTROL@ + " has no playback switch"@
}

/// Decides disabling hardware Effects on the controls as read now: the
/// gate must be open and the OutFX master must exist with a playback
/// switch, whose current state is returned (whether disabling changes it).
pub fn disable_hardware_effects(lab_active: bool, controls: &[ControlSnapshot]) -> (r: Result<bool, HardwareEffectsError>)
    ensures
        !lab_active ==> (r matches Err(HardwareEffectsError::Invalid(m)) && m@ == gate_closed_text()),
        lab_active && controls::find_control(controls@, HARDWARE_OUTFX_CONTROL@) is None
            ==> (r matches Err(HardwareEffectsError::Control(ControlError::Missing(n))) && n@ == HARDWARE_OUTFX_CONTROL@),
        lab_active && controls::find_control(controls@, HARDWARE_OUTFX_CONTROL@) is Some ==> match controls::find_control(controls@, HARDWARE_OUTFX_CONTROL@)->0.playback_switch {
            Some(v) => r == Ok::<bool, HardwareEffectsError>(v),
            None => r matches Err(HardwareEffectsError::Invalid(m)) && m@ == master_without_switch_text(),
        },
{
    require_hardware_effects_gate(lab_active)?;
    let k = match find_control_index(controls, HARDWARE_OUTFX_CONTROL) {
        Some(k) => k,
        None => return Err(HardwareEffectsError::Control(ControlError::Missing(owned(HARDWARE_OUTFX_CONTROL)))),
    };
    match controls[k].playback_switch {
        Some(v) => Ok(v),
        None => {
            let mut m = owned(HARDWARE_OUTFX_CONTROL);
            push_str(&mut m, " has no playback switch");
            Err(HardwareEffectsError::Invalid(m))
        },
    }
}

/// The control a write is addressed to.
pub open spec fn write_name(w: WriteView) -> Seq<char> {
    match w {
        WriteView::Switch(n, _) => n,
        WriteView::Choice(n, _) => n,
        WriteView::Level(n, _) => n,
    }
}

/// A control after one write, when the write takes effect: a switch or
/// level is set, a choice selects the offered choice it names.  A write
/// addressed to another control leaves it as it is.
pub open spec fn apply_write_to(c: ControlSnapshot, w: WriteView) -> ControlSnapshot {
    if c.name@ != write_name(w) {
        c
    } else {
        match w {
            WriteView::Switch(_, v) => ControlSnapshot { playback_switch: Some(v), ..c },
            WriteView::Choice(_, choice) => match controls::choice_position_from(c.choices@, choice, 0) {
                Some(j) => ControlSnapshot { selected: Some(c.choices@[j]), ..c },
                None => c,
            },
            WriteView::Level(_, v) => match c.playback_level {
                Some(l) => ControlSnapshot { playback_level: Some(controls::Level { value: v, ..l }), ..c },
                None => c,
            },
        }
    }
}

/// A control after a sequence of writes that take effect.
pub open spec fn apply_writes_to(c: ControlSnapshot, ws: Seq<WriteView>) -> ControlSnapshot
    decreases ws.len(),
{
    if ws.len() == 0 {
        c
    } else {
        apply_writes_to(apply_write_to(c, ws[0]), ws.drop_first())
    }
}

/// The controls after a sequence of writes that take effect; each write
/// reaches the first control with its name, as the mixer finds it.
pub open spec fn controls_after(cs: Seq<ControlSnapshot>, ws: Seq<WriteView>) -> Seq<ControlSnapshot> {
    Seq::new(
        cs.len(),
        |i: int| if controls::control_index_from(cs, cs[i].name@, 0) == Some(i) {
            apply_writes_to(cs[i], ws)
        } else {
            cs[i]
        },
    )
}

/// Every target names a different control.
pub open spec fn distinct_target_names(ts: Seq<(Seq<char>, (Option<Seq<char>>, Option<bool>, Option<i64>))>) -> bool {
    forall|i: int, j: int| 0 <= i < ts.len() && 0 <= j < ts.len() && i != j ==> #[trigger] ts[i].0 != #[trigger] ts[j].0
}

/// Writes keep a control's name.
proof fn lemma_apply_keeps_name(c: ControlSnapshot, ws: Seq<WriteView>)
    ensures
        apply_writes_to(c, ws).name == c.name,
    decreases ws.len(),
{
    if ws.len() > 0 {
        lemma_apply_keeps_name(apply_write_to(c, ws[0]), ws.drop_first());
    }
}

/// Writes in two parts act as the first part, then the second.
proof fn lemma_apply_concat(c: ControlSnapshot, a: Seq<WriteView>, b: Seq<WriteView>)
    ensures
        apply_writes_to(c, a + b) == apply_writes_to(apply_writes_to(c, a), b),
    decreases a.len(),
{
    if a.len() > 0 {
        assert((a + b).drop_first() =~= a.drop_first() + b);
        lemma_apply_concat(apply_write_to(c, a[0]), a.drop_first(), b);
    } else {
        assert(a + b =~= b);
    }
}

/// Writes addressed to other controls leave a control as it is.
proof fn lemma_apply_other(c: ControlSnapshot, ws: Seq<WriteView>)
    requires
        forall|i: int| 0 <= i < ws.len() ==> write_name(#[trigger] ws[i]) != c.name@,
    ensures
        apply_writes_to(c, ws) == c,
    decreases ws.len(),
{
    if ws.len() > 0 {
        assert(write_name(ws[0]) != c.name@);
        assert forall|i: int| 0 <= i < ws.drop_first().len() implies write_name(#[trigger] ws.drop_first()[i]) != c.name@ by {
            assert(ws.drop_first()[i] == ws[i + 1]);
        }
        lemma_apply_other(c, ws.drop_first());
    }
}

/// The write a target needs in one phase is addressed to its control.
proof fn lemma_phase_write_name(phase: int, e: (Seq<char>, (Option<Seq<char>>, Option<bool>, Option<i64>)), cs: Seq<ControlSnapshot>)
    ensures
        phase_write(phase, e, cs) matches Some(w) ==> write_name(w) == e.0,
{
}

/// The optional write as a sequence.
pub open spec fn opt_writes(w: Option<WriteView>) -> Seq<WriteView> {
    match w {
        Some(x) => seq![x],
        None => Seq::empty(),
    }
}

/// Of the writes of one phase, only the one of the target for a control
/// reaches that control.
proof fn lemma_phase_for_control(
    ts: Seq<(Seq<char>, (Option<Seq<char>>, Option<bool>, Option<i64>))>,
    cs: Seq<ControlSnapshot>,
    phase: int,
    n: int,
    k: int,
    c: ControlSnapshot,
)
    requires
        distinct_target_names(ts),
        0 <= k < ts.len(),
        c.name@ == ts[k].0,
        0 <= n <= ts.len(),
    ensures
        apply_writes_to(c, phase_writes(ts, cs, phase, n)) == if k < n {
            apply_writes_to(c, opt_writes(phase_write(phase, ts[k], cs)))
        } else {
            c
        },
    decreases n,
{
    if n > 0 {
        lemma_phase_for_control(ts, cs, phase, n - 1, k, c);
        let before = phase_writes(ts, cs, phase, n - 1);
        let last = opt_writes(phase_write(phase, ts[n - 1], cs));
        assert(phase_writes(ts, cs, phase, n) == before + last);
        lemma_apply_concat(c, before, last);
        lemma_phase_write_name(phase, ts[n - 1], cs);
        if n - 1 != k {
            assert(ts[n - 1].0 != ts[k].0);
            lemma_apply_keeps_name(c, before);
            assert forall|j: int| 0 <= j < last.len() implies write_name(#[trigger] last[j]) != apply_writes_to(c, before).name@ by {
                assert(last[j] == phase_write(phase, ts[n - 1], cs)->0);
            }
            lemma_apply_other(apply_writes_to(c, before), last);
        } else {
            lemma_phase_for_control(ts, cs, phase, n - 1, k, c);
            assert(apply_writes_to(c, before) == c);
        }
    } else {
        assert(phase_writes(ts, cs, phase, n) =~= Seq::<WriteView>::empty());
    }
}

/// The first target for a control, among targets that each name a
/// different control, is the one that names it.
proof fn lemma_target_index(ts: Seq<(Seq<char>, (Option<Seq<char>>, Option<bool>, Option<i64>))>, name: Seq<char>, i: int, k: int)
    requires
        distinct_target_names(ts),
        0 <= k < ts.len(),
        ts[k].0 == name,
        0 <= i <= k,
    ensures
        target_index_from(ts, name, i) == Some(k),
    decreases k - i,
{
    if i < k {
        assert(ts[i].0 != ts[k].0);
        lemma_target_index(ts, name, i + 1, k);
    }
}

/// No target names the control `name`.
proof fn lemma_no_target_index(ts: Seq<(Seq<char>, (Option<Seq<char>>, Option<bool>, Option<i64>))>, name: Seq<char>, i: int)
    requires
        forall|j: int| 0 <= j < ts.len() ==> (#[trigger] ts[j]).0 != name,
        0 <= i,
    ensures
        target_index_from(ts, name, i) is None,
    decreases ts.len() - i,
{
    if i < ts.len() {
        assert(ts[i].0 != name);
        lemma_no_target_index(ts, name, i + 1);
    }
}

/// The controls keep their names, so every control is found where it was.
proof fn lemma_after_keeps_positions(cs: Seq<ControlSnapshot>, ws: Seq<WriteView>, name: Seq<char>, i: int)
    requires
        0 <= i,
    ensures
        controls::control_index_from(controls_after(cs, ws), name, i) == controls::control_index_from(cs, name, i),
    decreases cs.len() - i,
{
    if i < cs.len() {
        lemma_apply_keeps_name(cs[i], ws);
        assert(controls_after(cs, ws)[i].name == cs[i].name);
        lemma_after_keeps_positions(cs, ws, name, i + 1);
    }
}

/// A control after the transaction's writes, for one target.
proof fn lemma_target_reads_back(
    ts: Seq<(Seq<char>, (Option<Seq<char>>, Option<bool>, Option<i64>))>,
    cs: Seq<ControlSnapshot>,
    k: int,
)
    requires
        targets_writable(ts, cs),
        distinct_target_names(ts),
        0 <= k < ts.len(),
    ensures
        readback_problem(ts[k].0, ts[k].1, controls_after(cs, write_plan(ts, cs))) is None,
{
    let n = ts.len() as int;
    let name = ts[k].0;
    let t = ts[k].1;
    assert(target_problem(ts[k].0, ts[k].1, cs) is None);
    let i = controls::control_index_from(cs, name, 0)->0;
    controls::lemma_control_index(cs, name, 0);
    let c = cs[i];
    let m = master_off_writes(ts, cs);
    let p2 = phase_writes(ts, cs, 2, n);
    let p3 = phase_writes(ts, cs, 3, n);
    let p4 = phase_writes(ts, cs, 4, n);
    let p5 = phase_writes(ts, cs, 5, n);
    let l = master_last_writes(ts);
    let ws = write_plan(ts, cs);
    assert(ws == m + p2 + p3 + p4 + p5 + l);
    lemma_apply_concat(c, m + p2 + p3 + p4 + p5, l);
    lemma_apply_concat(c, m + p2 + p3 + p4, p5);
    lemma_apply_concat(c, m + p2 + p3, p4);
    lemma_apply_concat(c, m + p2, p3);
    lemma_apply_concat(c, m, p2);
    let c1 = apply_writes_to(c, m);
    let c2 = apply_writes_to(c1, p2);
    let c3 = apply_writes_to(c2, p3);
    let c4 = apply_writes_to(c3, p4);
    let c5 = apply_writes_to(c4, p5);
    let c6 = apply_writes_to(c5, l);
    lemma_apply_keeps_name(c, m);
    lemma_apply_keeps_name(c1, p2);
    lemma_apply_keeps_name(c2, p3);
    lemma_apply_keeps_name(c3, p4);
    lemma_apply_keeps_name(c4, p5);
    lemma_phase_for_control(ts, cs, 2, n, k, c1);
    lemma_phase_for_control(ts, cs, 3, n, k, c2);
    lemma_phase_for_control(ts, cs, 4, n, k, c3);
    lemma_phase_for_control(ts, cs, 5, n, k, c4);
    reveal_strlit("Enable OutFX");
    reveal_strlit("FX: ");
    if name == HARDWARE_OUTFX_CONTROL@ {
        lemma_target_index(ts, name, 0, k);
        let off = if controls::switch_of(cs, HARDWARE_OUTFX_CONTROL@) != Some(false) {
            Some(WriteView::Switch(HARDWARE_OUTFX_CONTROL@, false))
        } else {
            None
        };
        assert(m =~= opt_writes(off));
        lemma_apply_one(c, off);
        let on = if ts[k].1.1 == Some(true) {
            Some(WriteView::Switch(HARDWARE_OUTFX_CONTROL@, true))
        } else {
            None
        };
        assert(l =~= opt_writes(on));
        lemma_apply_one(c5, on);
    } else {
        assert forall|j: int| 0 <= j < ts.len() implies (#[trigger] ts[j]).0 != HARDWARE_OUTFX_CONTROL@ || j != k by {}
        lemma_apply_other(c, m);
        lemma_apply_other(c5, l);
    }
    assert(c6 == apply_writes_to(c, ws));
    lemma_after_keeps_positions(cs, ws, name, 0);
    assert(controls_after(cs, ws)[i] == c6);
    assert(controls::find_control(controls_after(cs, ws), name) == Some(c6));
    assert(controls::find_control(cs, name) == Some(c));
    lemma_apply_one(c1, phase_write(2, ts[k], cs));
    lemma_apply_one(c2, phase_write(3, ts[k], cs));
    lemma_apply_one(c3, phase_write(4, ts[k], cs));
    lemma_apply_one(c4, phase_write(5, ts[k], cs));
    // Only the first phase and the last touch the master; in between, the
    // choice, the level and the switch each change in their own phase.
    assert(c1.choices == c.choices && c1.selected == c.selected && c1.playback_level == c.playback_level);
    assert(c2.choices == c.choices && c2.selected == c.selected && c2.playback_level == c.playback_level);
    if t.0 is Some {
        lemma_choice_found(c.choices@, t.0->0, 0);
    }
    assert(t.0 is Some ==> controls::selected_text(c3) is Some && text::eq_ignore_case(controls::selected_text(c3)->0, t.0->0));
    assert(c3.playback_level == c.playback_level && c3.playback_switch == c2.playback_switch);
    assert(t.2 is Some ==> level_value(c4) == Some(t.2->0));
    assert(c4.selected == c3.selected && c4.playback_switch == c2.playback_switch);
    assert(c5.selected == c3.selected && c5.playback_level == c4.playback_level);
    assert(c6.selected == c3.selected && c6.playback_level == c4.playback_level);
    assert(t.1 is Some ==> c6.playback_switch == t.1);

}

/// One optional write acts as that write.
proof fn lemma_apply_one(c: ControlSnapshot, w: Option<WriteView>)
    ensures
        apply_writes_to(c, opt_writes(w)) == match w {
            Some(x) => apply_write_to(c, x),
            None => c,
        },
{
    match w {
        Some(x) => {
            let ws = opt_writes(w);
            assert(ws[0] == x);
            assert(ws.drop_first() =~= Seq::<WriteView>::empty());
            assert(apply_writes_to(apply_write_to(c, x), Seq::<WriteView>::empty()) == apply_write_to(c, x));
        },
        None => {
            assert(opt_writes(w) =~= Seq::<WriteView>::empty());
        },
    }
}

/// A choice found by position matches the requested one without regard to case.
proof fn lemma_choice_found(choices: Seq<String>, requested: Seq<char>, i: int)
    ensures
        match controls::choice_position_from(choices, requested, i) {
            Some(j) => i <= j < choices.len() && text::eq_ignore_case(choices[j]@, requested),
            None => true,
        },
    decreases choices.len() - i,
{
    if 0 <= i < choices.len() && !text::eq_ignore_case(choices[i]@, requested) {
        lemma_choice_found(choices, requested, i + 1);
    }
}

/// The transaction's writes bring the controls to the targets: when every
/// write takes effect, reading the controls back verifies every target.
/// This is what the readback after the writes checks.
pub proof fn lemma_plan_reaches_targets(
    ts: Seq<(Seq<char>, (Option<Seq<char>>, Option<bool>, Option<i64>))>,
    cs: Seq<ControlSnapshot>,
)
    requires
        targets_writable(ts, cs),
        distinct_target_names(ts),
    ensures
        targets_read_back(ts, controls_after(cs, write_plan(ts, cs))),
{
    assert forall|k: int| 0 <= k < ts.len() implies (#[trigger] readback_problem(
        ts[k].0,
        ts[k].1,
        controls_after(cs, write_plan(ts, cs)),
    )) is None by {
        lemma_target_reads_back(ts, cs, k);
    }
}

/// Targets in two parts name each control once when each part does and no
/// control is named in both.
proof fn lemma_distinct_concat(
    a: Seq<(Seq<char>, (Option<Seq<char>>, Option<bool>, Option<i64>))>,
    b: Seq<(Seq<char>, (Option<Seq<char>>, Option<bool>, Option<i64>))>,
)
    requires
        distinct_target_names(a),
        distinct_target_names(b),
        forall|i: int, j: int| 0 <= i < a.len() && 0 <= j < b.len() ==> #[trigger] a[i].0 != #[trigger] b[j].0,
    ensures
        distinct_target_names(a + b),
{
    let ab = a + b;
    assert forall|i: int, j: int| 0 <= i < ab.len() && 0 <= j < ab.len() && i != j implies #[trigger] ab[i].0 != #[trigger] ab[j].0 by {
        if i < a.len() && j >= a.len() {
            assert(a[i].0 != b[j - a.len()].0);
        } else if i >= a.len() && j < a.len() {
            assert(a[j].0 != b[i - a.len()].0);
        } else if i < a.len() {
            assert(a[i].0 != a[j].0);
        } else {
            assert(b[i - a.len()].0 != b[j - a.len()].0);
        }
    }
}

/// A profile's targets name each control once.
#[verifier::spinoff_prover]
#[verifier::rlimit(40)]
pub proof fn lemma_profile_targets_distinct(p: EffectsProfileEntry)
    ensures
        distinct_target_names(profile_target_entries(p)),
{
    reveal_strlit("Enable OutFX");
    reveal_strlit("FX: Crystalizer");
    reveal_strlit("FX: Dialog Plus");
    reveal_strlit("FX: Smart Volume");
    reveal_strlit("FX: Smart Volume Setting");
    reveal_strlit("FX: Surround");
    reveal_strlit("FX: X-Bass");
    let master = HARDWARE_OUTFX_CONTROL@;
    let crystal = "FX: Crystalizer"@;
    let dialog = "FX: Dialog Plus"@;
    let smart = "FX: Smart Volume"@;
    let setting = "FX: Smart Volume Setting"@;
    let surround = "FX: Surround"@;
    let xbass = "FX: X-Bass"@;
    assert(master != crystal && master != dialog && master != smart && master != setting && master != surround && master != xbass) by {
        assert(master[0] != crystal[0]);
        assert(master.len() != smart.len() && master.len() != setting.len() && master.len() != xbass.len());
        assert(master.len() != dialog.len());
    }
    assert(crystal != dialog && crystal != smart && crystal != setting && crystal != surround && crystal != xbass) by {
        assert(crystal[4] != dialog[4]);
    }
    assert(dialog.len() == 15 && smart.len() == 16 && setting.len() == 24 && surround.len() == 12
        && xbass.len() == 10);
    assert(dialog != smart && dialog != setting && dialog != surround && dialog != xbass);
    assert(smart != setting && smart != surround && smart != xbass);
    assert(setting != surround && setting != xbass);
    assert(surround != xbass);
    let p0 = seq![(master, switch_target(p.outfx_enabled))];
    let p1 = optional_effect(p.crystalizer_available, crystal, p.crystalizer_enabled, p.crystalizer_level);
    let p2 = optional_effect(p.dialog_available, dialog, p.dialog_enabled, p.dialog_level);
    let p3 = smart_volume_entries(p);
    let p4 = optional_effect(p.surround_available, surround, p.surround_enabled, p.surround_level);
    let p5 = optional_effect(p.bass_available, xbass, p.bass_enabled, p.bass_level);
    assert(forall|i: int| 0 <= i < p1.len() ==> (#[trigger] p1[i]).0 == crystal);
    assert(forall|i: int| 0 <= i < p2.len() ==> (#[trigger] p2[i]).0 == dialog);
    assert(forall|i: int| 0 <= i < p3.len() ==> (#[trigger] p3[i]).0 == smart || p3[i].0 == setting);
    assert(forall|i: int| 0 <= i < p4.len() ==> (#[trigger] p4[i]).0 == surround);
    assert(forall|i: int| 0 <= i < p5.len() ==> (#[trigger] p5[i]).0 == xbass);
    assert(distinct_target_names(p3));
    let q1 = p0 + p1;
    lemma_distinct_concat(p0, p1);
    assert(forall|i: int| 0 <= i < q1.len() ==> (#[trigger] q1[i]).0 == master || q1[i].0 == crystal);
    let q2 = q1 + p2;
    lemma_distinct_concat(q1, p2);
    assert(forall|i: int| 0 <= i < q2.len() ==> (#[trigger] q2[i]).0 == master || q2[i].0 == crystal || q2[i].0 == dialog);
    let q3 = q2 + p3;
    lemma_distinct_concat(q2, p3);
    assert(forall|i: int| 0 <= i < q3.len() ==> (#[trigger] q3[i]).0 == master || q3[i].0 == crystal || q3[i].0 == dialog
        || q3[i].0 == smart || q3[i].0 == setting);
    let q4 = q3 + p4;
    lemma_distinct_concat(q3, p4);
    assert(forall|i: int| 0 <= i < q4.len() ==> (#[trigger] q4[i]).0 == master || q4[i].0 == crystal || q4[i].0 == dialog
        || q4[i].0 == smart || q4[i].0 == setting || q4[i].0 == surround);
    lemma_distinct_concat(q4, p5);
    assert(profile_target_entries(p) == q4 + p5);
}

/// Applying a profile's transaction, when every write takes effect,
/// leaves the controls matching the profile, master included.
pub proof fn lemma_applied_profile_matches(p: EffectsProfileEntry, cs: Seq<ControlSnapshot>)
    requires
        targets_writable(profile_target_entries(p), cs),
    ensures
        targets_read_back(
            profile_target_entries(p),
            controls_after(cs, write_plan(profile_target_entries(p), cs)),
        ),
{
    lemma_profile_targets_distinct(p);
    lemma_plan_reaches_targets(profile_target_entries(p), cs);
}

/// Rolling back restores what was captured: the values captured before a
/// transaction, written back through the same write plan to whatever state
/// the controls were left in, read back as captured wherever they can be
/// written.
pub proof fn lemma_rollback_restores_captured_state(
    ts: Seq<(Seq<char>, (Option<Seq<char>>, Option<bool>, Option<i64>))>,
    before: Seq<ControlSnapshot>,
    after: Seq<ControlSnapshot>,
)
    requires
        distinct_target_names(ts),
        targets_writable(captured_entries(ts, before), after),
    ensures
        targets_read_back(
            captured_entries(ts, before),
            controls_after(after, write_plan(captured_entries(ts, before), after)),
        ),
{
    let captured = captured_entries(ts, before);
    assert forall|i: int, j: int| 0 <= i < captured.len() && 0 <= j < captured.len() && i != j implies #[trigger] captured[i].0
        != #[trigger] captured[j].0 by {
        assert(captured[i].0 == ts[i].0);
        assert(captured[j].0 == ts[j].0);
    }
    lemma_plan_reaches_targets(captured, after);
}

} // verus!

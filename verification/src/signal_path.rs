//! The signal path across the card: processing, output stage and jack.
//!
//! Each stage reports what the hardware reads and one state, so a stage that
//! stops the signal, or whose control is missing, never reads as healthy.

use vstd::prelude::*;
use vstd::string::*;

use crate::controls::{
    find_control, find_control_index, selected_choice_of, selected_of, switch_of,
    switch_state_of, ControlSnapshot,
};
use crate::text::{
    decimal, has_prefix, owned, push_decimal, push_signed, push_str, signed_decimal,
    split_whitespace, starts_with, strings_view, words_from,
};

verus! {

/// Whether a stage passes signal, wants attention, or stops it.
#[derive(Copy, Clone, Debug, PartialEq, Eq, Structural)]
pub enum StageState {
    /// Signal passes and the stage is at a safe setting.
    Passing,
    /// Signal passes but something is worth knowing about.
    Attention,
    /// Signal stops here.
    Blocked,
    /// The control backing this stage was not found.
    Unknown,
}

/// The mark that shows a state as text.
pub open spec fn mark_text(s: StageState) -> Seq<char> {
    match s {
        StageState::Passing => "\u{25cf}"@,
        StageState::Attention => "\u{25b2}"@,
        StageState::Blocked => "\u{25a0}"@,
        StageState::Unknown => "\u{25cb}"@,
    }
}

/// The style class of a state.
pub open spec fn css_class_text(s: StageState) -> Seq<char> {
    match s {
        StageState::Passing => "stage-passing"@,
        StageState::Attention => "stage-attention"@,
        StageState::Blocked => "stage-blocked"@,
        StageState::Unknown => "stage-unknown"@,
    }
}

impl StageState {
    /// The style class that colours a stage of this state.
    pub fn css_class(self) -> (r: &'static str)
        ensures
            r@ == css_class_text(self),
    {
        match self {
            StageState::Passing => "stage-passing",
            StageState::Attention => "stage-attention",
            StageState::Blocked => "stage-blocked",
            StageState::Unknown => "stage-unknown",
        }
    }

    /// The mark that carries the state as text as well as colour.
    pub fn mark(self) -> (r: &'static str)
        ensures
            r@ == mark_text(self),
    {
        match self {
            StageState::Passing => "\u{25cf}",
            StageState::Attention => "\u{25b2}",
            StageState::Blocked => "\u{25a0}",
            StageState::Unknown => "\u{25cb}",
        }
    }
}

/// One stage of the path: its name, what it reads, and its state.
#[derive(Debug)]
pub struct Stage {
    pub label: &'static str,
    pub reading: String,
    pub state: StageState,
}

/// The effects whose switches count as active processing.
pub open spec fn effect_names() -> Seq<Seq<char>> {
    seq!["FX: Surround"@, "FX: Crystalizer"@, "FX: X-Bass"@, "FX: Smart Volume"@, "FX: Dialog Plus"@]
}

/// How many of `names` have their playback switch on.
pub open spec fn switched_on(cs: Seq<ControlSnapshot>, names: Seq<Seq<char>>) -> nat
    decreases names.len(),
{
    if names.len() == 0 {
        0
    } else {
        switched_on(cs, names.drop_last()) + if switch_of(cs, names.last()) == Some(true) {
            1nat
        } else {
            0nat
        }
    }
}

/// The processing reading for `n` active effects.
pub open spec fn active_count_text(n: nat) -> Seq<char> {
    if n == 0 {
        "on, none active"@
    } else if n == 1 {
        "1 effect"@
    } else {
        decimal(n) + " effects"@
    }
}

/// What the processing stage reads.
pub open spec fn effects_reading(cs: Seq<ControlSnapshot>) -> Seq<char> {
    match switch_of(cs, "Enable OutFX"@) {
        Some(true) => active_count_text(switched_on(cs, effect_names())),
        Some(false) => "bypassed"@,
        None => "unknown"@,
    }
}

/// The state of the processing stage.
pub open spec fn effects_state(cs: Seq<ControlSnapshot>) -> StageState {
    match switch_of(cs, "Enable OutFX"@) {
        Some(true) => StageState::Passing,
        Some(false) => StageState::Attention,
        None => StageState::Unknown,
    }
}

/// What the output stage reads.
pub open spec fn output_reading(cs: Seq<ControlSnapshot>) -> Seq<char> {
    match find_control(cs, "Master"@) {
        None => "unknown"@,
        Some(master) => if master.playback_switch == Some(false) {
            "muted"@
        } else {
            match master.playback_level {
                Some(level) => if level.value == level.max {
                    "0 dB"@
                } else {
                    signed_decimal(level.value as int) + "/"@ + signed_decimal(level.max as int)
                },
                None => "on"@,
            }
        },
    }
}

/// The state of the output stage.
pub open spec fn output_state(cs: Seq<ControlSnapshot>) -> StageState {
    match find_control(cs, "Master"@) {
        None => StageState::Unknown,
        Some(master) => if master.playback_switch == Some(false) {
            StageState::Blocked
        } else {
            StageState::Passing
        },
    }
}

/// The first word of a gain choice, or the whole choice when it has none.
pub open spec fn gain_word(gain: Seq<char>) -> Seq<char> {
    if words_from(gain, 0).len() > 0 {
        words_from(gain, 0)[0]
    } else {
        gain
    }
}

/// What the jack stage reads.
pub open spec fn jack_reading(cs: Seq<ControlSnapshot>) -> Seq<char> {
    match (selected_of(cs, "Output Select"@), selected_of(cs, "AE-5: Headphone Gain"@)) {
        (Some(route), Some(gain)) => route + ", "@ + gain_word(gain) + " gain"@,
        (Some(route), None) => route,
        _ => "unknown"@,
    }
}

/// The headphone gain selects a High setting.
pub open spec fn high_gain_selected(cs: Seq<ControlSnapshot>) -> bool {
    match selected_of(cs, "AE-5: Headphone Gain"@) {
        Some(gain) => has_prefix(gain, "High"@),
        None => false,
    }
}

/// The state of the jack stage.
pub open spec fn jack_state(cs: Seq<ControlSnapshot>) -> StageState {
    if selected_of(cs, "Output Select"@) is None {
        StageState::Unknown
    } else if high_gain_selected(cs) {
        StageState::Attention
    } else {
        StageState::Passing
    }
}

/// The label a screen reader announces for a stage.
pub open spec fn accessible_label_text(label: Seq<char>, reading: Seq<char>) -> Seq<char> {
    label + ": "@ + reading
}

impl Stage {
    /// The label a screen reader announces: the stage name and its reading.
    pub fn accessible_label(&self) -> (r: String)
        ensures
            r@ == accessible_label_text(self.label@, self.reading@),
    {
        let mut out = owned(self.label);
        push_str(&mut out, ": ");
        push_str(&mut out, self.reading.as_str());
        out
    }
}

/// Counts the active effects among the five processing switches.
fn count_active_effects(controls: &[ControlSnapshot]) -> (r: u64)
    ensures
        r as nat == switched_on(controls@, effect_names()),
{
    let names: [&str; 5] = ["FX: Surround", "FX: Crystalizer", "FX: X-Bass", "FX: Smart Volume", "FX: Dialog Plus"];
    let ghost views = seq![names[0]@, names[1]@, names[2]@, names[3]@, names[4]@];
    assert(views =~= effect_names());
    let mut count: u64 = 0;
    let mut i: usize = 0;
    while i < 5
        invariant
            i <= 5,
            views == effect_names(),
            forall|j: int| 0 <= j < 5 ==> names@[j]@ == #[trigger] views[j],
            count as nat == switched_on(controls@, views.take(i as int)),
            count <= i,
        decreases 5 - i,
    {
        assert(views.take(i + 1).drop_last() =~= views.take(i as int));
        assert(views.take(i + 1).last() == names@[i as int]@);
        if switch_state_of(controls, names[i]) == Some(true) {
            count = count + 1;
        }
        i += 1;
    }
    assert(views.take(5) =~= views);
    count
}

/// The processing stage: bypassed, unknown, or on with its active effects.
pub fn effects_stage(controls: &[ControlSnapshot]) -> (r: Stage)
    ensures
        r.label@ == "Processing"@,
        r.reading@ == effects_reading(controls@),
        r.state == effects_state(controls@),
{
    match switch_state_of(controls, "Enable OutFX") {
        Some(true) => {
            let active = count_active_effects(controls);
            let reading = if active == 0 {
                owned("on, none active")
            } else if active == 1 {
                owned("1 effect")
            } else {
                let mut text = String::new();
                push_decimal(&mut text, active);
                push_str(&mut text, " effects");
                proof {
                    assert(text@ =~= decimal(active as nat) + " effects"@);
                }
                text
            };
            Stage { label: "Processing", reading, state: StageState::Passing }
        },
        Some(false) => Stage { label: "Processing", reading: owned("bypassed"), state: StageState::Attention },
        None => Stage { label: "Processing", reading: owned("unknown"), state: StageState::Unknown },
    }
}

/// The output stage: muted stops the signal, otherwise it reads the Master level.
pub fn output_stage(controls: &[ControlSnapshot]) -> (r: Stage)
    ensures
        r.label@ == "Output"@,
        r.reading@ == output_reading(controls@),
        r.state == output_state(controls@),
{
    let index = match find_control_index(controls, "Master") {
        Some(i) => i,
        None => {
            return Stage { label: "Output", reading: owned("unknown"), state: StageState::Unknown };
        },
    };
    let master = &controls[index];
    if master.playback_switch == Some(false) {
        return Stage { label: "Output", reading: owned("muted"), state: StageState::Blocked };
    }
    let reading = match &master.playback_level {
        Some(level) => if level.value == level.max {
            owned("0 dB")
        } else {
            let mut text = String::new();
            push_signed(&mut text, level.value);
            push_str(&mut text, "/");
            push_signed(&mut text, level.max);
            text
        },
        None => owned("on"),
    };
    Stage { label: "Output", reading, state: StageState::Passing }
}

/// The jack stage: the selected output and headphone gain; High gain wants attention.
pub fn jack_stage(controls: &[ControlSnapshot]) -> (r: Stage)
    ensures
        r.label@ == "Jack"@,
        r.reading@ == jack_reading(controls@),
        r.state == jack_state(controls@),
{
    let route = selected_choice_of(controls, "Output Select");
    let gain = selected_choice_of(controls, "AE-5: Headphone Gain");
    let high_gain = match gain {
        Some(g) => starts_with(g.as_str(), "High"),
        None => false,
    };
    let reading = match (route, gain) {
        (Some(route), Some(gain)) => {
            let words = split_whitespace(gain.as_str());
            let mut text = owned(route.as_str());
            push_str(&mut text, ", ");
            if words.len() > 0 {
                assert(strings_view(words@)[0] == words@[0]@);
                push_str(&mut text, words[0].as_str());
            } else {
                push_str(&mut text, gain.as_str());
            }
            push_str(&mut text, " gain");
            text
        },
        (Some(route), None) => owned(route.as_str()),
        _ => owned("unknown"),
    };
    let state = if route.is_none() {
        StageState::Unknown
    } else if high_gain {
        StageState::Attention
    } else {
        StageState::Passing
    };
    Stage { label: "Jack", reading, state }
}

/// Some stage stops the signal.
pub open spec fn any_blocked(states: Seq<StageState>) -> bool {
    exists|i: int| 0 <= i < states.len() && states[i] == StageState::Blocked
}

/// The stages of the path, source side first, and whether one stops the signal.
pub struct SignalPath {
    pub stages: Vec<Stage>,
    pub blocked: bool,
}

/// The states of the three stages, source side first.
pub open spec fn path_states(cs: Seq<ControlSnapshot>) -> Seq<StageState> {
    seq![effects_state(cs), output_state(cs), jack_state(cs)]
}

/// Builds the signal path across the card from the live controls.
pub fn signal_path(controls: &[ControlSnapshot]) -> (r: SignalPath)
    ensures
        r.stages@.len() == 3,
        r.stages@[0].label@ == "Processing"@,
        r.stages@[0].reading@ == effects_reading(controls@),
        r.stages@[1].label@ == "Output"@,
        r.stages@[1].reading@ == output_reading(controls@),
        r.stages@[2].label@ == "Jack"@,
        r.stages@[2].reading@ == jack_reading(controls@),
        forall|i: int| 0 <= i < 3 ==> (#[trigger] r.stages@[i]).state == path_states(controls@)[i],
        r.blocked == any_blocked(path_states(controls@)),
{
    let effects = effects_stage(controls);
    let output = output_stage(controls);
    let jack = jack_stage(controls);
    let blocked = effects.state == StageState::Blocked || output.state == StageState::Blocked
        || jack.state == StageState::Blocked;
    proof {
        let states = path_states(controls@);
        if blocked {
            if effects.state == StageState::Blocked {
                assert(states[0] == StageState::Blocked);
            } else if output.state == StageState::Blocked {
                assert(states[1] == StageState::Blocked);
            } else {
                assert(states[2] == StageState::Blocked);
            }
        }
    }
    let mut stages: Vec<Stage> = Vec::new();
    stages.push(effects);
    stages.push(output);
    stages.push(jack);
    SignalPath { stages, blocked }
}

/// Every state has its own mark, so colour never carries a state alone.
pub proof fn lemma_marks_distinct(a: StageState, b: StageState)
    requires
        a != b,
    ensures
        mark_text(a) != mark_text(b),
{
    reveal_strlit("\u{25cf}");
    reveal_strlit("\u{25b2}");
    reveal_strlit("\u{25a0}");
    reveal_strlit("\u{25cb}");
    assert(mark_text(a)[0] != mark_text(b)[0]);
}

/// A stage whose control is missing reads as unknown, never as healthy.
pub proof fn lemma_missing_controls_read_unknown(cs: Seq<ControlSnapshot>)
    ensures
        find_control(cs, "Enable OutFX"@) is None ==> effects_state(cs) == StageState::Unknown,
        find_control(cs, "Master"@) is None ==> output_state(cs) == StageState::Unknown,
        find_control(cs, "Output Select"@) is None ==> jack_state(cs) == StageState::Unknown,
{
}

/// A muted Master stops the output stage, and with it the whole path.
pub proof fn lemma_muted_master_blocks_path(cs: Seq<ControlSnapshot>)
    requires
        find_control(cs, "Master"@) is Some,
        find_control(cs, "Master"@)->0.playback_switch == Some(false),
    ensures
        output_state(cs) == StageState::Blocked,
        any_blocked(path_states(cs)),
{
    assert(path_states(cs)[1] == StageState::Blocked);
}

/// A High headphone gain on a known output is always surfaced.
pub proof fn lemma_high_gain_wants_attention(cs: Seq<ControlSnapshot>)
    requires
        selected_of(cs, "Output Select"@) is Some,
        high_gain_selected(cs),
    ensures
        jack_state(cs) == StageState::Attention,
{
}

} // verus!

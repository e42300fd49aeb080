//! How the generic ALSA control editors group, order and label controls.

use vstd::prelude::*;
use vstd::string::*;

use crate::controls::{snapshot_text, ControlSnapshot, DIRECT_MODE_CONTROL};
use crate::text::{
    contains, has_infix, has_prefix, owned, parse_unsigned, parse_unsigned_text, push_str,
    starts_with, str_eq,
};

verus! {

/// The page a control is edited on.
#[derive(Copy, Clone, Debug, PartialEq, Eq, Structural)]
pub enum Category {
    Playback,
    Effects,
    Equalizer,
    Recording,
}

/// The controls of a page that come first, in the order Command shows them.
pub open spec fn category_controls(c: Category) -> Seq<Seq<char>> {
    match c {
        Category::Playback => seq![
            "Output Select"@,
            "HP/Speaker Auto Detect"@,
            "Surround Channel Config"@,
            "Full-Range Front Speakers"@,
            "Full-Range Rear Speakers"@,
            "AE-5: Headphone Gain"@,
            "AE-5: Sound Filter"@,
            DIRECT_MODE_CONTROL@,
            "Bass Redirection"@,
            "Bass Redirection Crossover"@,
        ],
        Category::Effects => seq![
            "Enable OutFX"@,
            "FX: Surround"@,
            "FX: Crystalizer"@,
            "FX: X-Bass"@,
            "FX: X-Bass Crossover"@,
            "FX: Smart Volume"@,
            "FX: Smart Volume Setting"@,
            "FX: Dialog Plus"@,
        ],
        Category::Equalizer => seq!["FX: Equalizer"@, "FX: Equalizer Preset"@],
        Category::Recording => seq![
            "Input Source"@,
            "Capture"@,
            "Mic Boost"@,
            "Enable InFX"@,
            "FX: Noise Reduction"@,
            "FX: Mic SVM"@,
            "SVM Level"@,
            "FX: Voice Focus"@,
            "VoiceFX"@,
            "What U Hear"@,
        ],
    }
}

/// The first position at or after `i` where `name` stands in `list`.
pub open spec fn position_from(list: Seq<Seq<char>>, name: Seq<char>, i: int) -> Option<int>
    decreases list.len() - i,
{
    if i < 0 || i >= list.len() {
        None
    } else if list[i] == name {
        Some(i)
    } else {
        position_from(list, name, i + 1)
    }
}

/// The sort key of a control on a page: its place among the page's leading
/// controls, or 255 for every other control.
pub open spec fn control_order_of(c: Category, name: Seq<char>) -> u8 {
    match position_from(category_controls(c), name, 0) {
        Some(i) => i as u8,
        None => 255,
    }
}

/// A control of the Equalizer page.
pub open spec fn is_equalizer_name(n: Seq<char>) -> bool {
    has_prefix(n, "EQ Band"@) || n == "FX: Equalizer Preset"@
}

/// A control of the Recording page.
pub open spec fn is_recording_name(n: Seq<char>) -> bool {
    has_infix(n, "Capture"@) || has_prefix(n, "Input"@) || has_prefix(n, "Mic "@) || has_prefix(
        n,
        "SVM "@,
    ) || has_prefix(n, "Voice"@) || has_prefix(n, "Wedge"@) || n == "Enable InFX"@ || has_prefix(
        n,
        "FX: Mic"@,
    ) || has_prefix(n, "FX: Noise"@) || has_prefix(n, "FX: Voice"@) || n == "What U Hear"@
}

/// A control of the Sound effects page.
pub open spec fn is_effects_name(n: Seq<char>) -> bool {
    !is_recording_name(n) && (n == "Enable OutFX"@ || (has_prefix(n, "FX:"@) && n
        != "FX: Equalizer Preset"@))
}

/// Whether a control belongs on page `c`.
pub open spec fn category_matches(c: Category, n: Seq<char>) -> bool {
    match c {
        Category::Equalizer => is_equalizer_name(n),
        Category::Recording => is_recording_name(n),
        Category::Effects => is_effects_name(n),
        Category::Playback => !is_effects_name(n) && !is_equalizer_name(n) && !is_recording_name(n),
    }
}

/// The page identifier.
pub open spec fn category_id(c: Category) -> Seq<char> {
    match c {
        Category::Playback => "playback"@,
        Category::Effects => "effects"@,
        Category::Equalizer => "equalizer"@,
        Category::Recording => "recording"@,
    }
}

/// The page title.
pub open spec fn category_title(c: Category) -> Seq<char> {
    match c {
        Category::Playback => "Playback"@,
        Category::Effects => "Sound effects"@,
        Category::Equalizer => "Equalizer"@,
        Category::Recording => "Recording"@,
    }
}

/// The page description.
pub open spec fn category_description(c: Category) -> Seq<char> {
    match c {
        Category::Playback => "Choose the physical output, speaker layout, headphone gain, filter, and \
             low-level playback controls exposed by the Linux CA0132 driver."@,
        Category::Effects => "Shape the CA0132 DSP processing path. Changes are written to ALSA and read \
             back from the card immediately."@,
        Category::Equalizer => "Control the ten hardware equalizer bands and the driver's preset selector."@,
        Category::Recording => "Choose the input and configure capture processing. Unsupported or unsafe \
             driver controls stay visible with an explanation."@,
    }
}

impl Category {
    /// Every page, in the order the window shows them.
    pub const ALL: [Category; 4] = [
        Category::Playback,
        Category::Effects,
        Category::Equalizer,
        Category::Recording,
    ];

    /// The page identifier.
    pub fn id(self) -> (r: &'static str)
        ensures
            r@ == category_id(self),
    {
        match self {
            Category::Playback => "playback",
            Category::Effects => "effects",
            Category::Equalizer => "equalizer",
            Category::Recording => "recording",
        }
    }

    /// The page title.
    pub fn title(self) -> (r: &'static str)
        ensures
            r@ == category_title(self),
    {
        match self {
            Category::Playback => "Playback",
            Category::Effects => "Sound effects",
            Category::Equalizer => "Equalizer",
            Category::Recording => "Recording",
        }
    }

    /// The page description.
    pub fn description(self) -> (r: &'static str)
        ensures
            r@ == category_description(self),
    {
        match self {
            Category::Playback => "Choose the physical output, speaker layout, headphone gain, filter, and \
                 low-level playback controls exposed by the Linux CA0132 driver.",
            Category::Effects => "Shape the CA0132 DSP processing path. Changes are written to ALSA and read \
                 back from the card immediately.",
            Category::Equalizer => "Control the ten hardware equalizer bands and the driver's preset selector.",
            Category::Recording => "Choose the input and configure capture processing. Unsupported or unsafe \
                 driver controls stay visible with an explanation.",
        }
    }

    /// The leading controls of this page, in order.
    fn leading_controls(self) -> (r: Vec<&'static str>)
        ensures
            r@.len() == category_controls(self).len(),
            forall|i: int| 0 <= i < r@.len() ==> (#[trigger] r@[i])@ == category_controls(self)[i],
    {
        match self {
            Category::Playback => vec![
                "Output Select",
                "HP/Speaker Auto Detect",
                "Surround Channel Config",
                "Full-Range Front Speakers",
                "Full-Range Rear Speakers",
                "AE-5: Headphone Gain",
                "AE-5: Sound Filter",
                DIRECT_MODE_CONTROL,
                "Bass Redirection",
                "Bass Redirection Crossover",
            ],
            Category::Effects => vec![
                "Enable OutFX",
                "FX: Surround",
                "FX: Crystalizer",
                "FX: X-Bass",
                "FX: X-Bass Crossover",
                "FX: Smart Volume",
                "FX: Smart Volume Setting",
                "FX: Dialog Plus",
            ],
            Category::Equalizer => vec!["FX: Equalizer", "FX: Equalizer Preset"],
            Category::Recording => vec![
                "Input Source",
                "Capture",
                "Mic Boost",
                "Enable InFX",
                "FX: Noise Reduction",
                "FX: Mic SVM",
                "SVM Level",
                "FX: Voice Focus",
                "VoiceFX",
                "What U Hear",
            ],
        }
    }

    /// The sort key of a control on this page: Command's leading controls
    /// first, in Command's order, then every other control.
    pub fn control_order(self, name: &str) -> (r: u8)
        ensures
            r == control_order_of(self, name@),
    {
        let ordered = self.leading_controls();
        let ghost list = category_controls(self);
        let mut i: usize = 0;
        while i < ordered.len()
            invariant
                i <= ordered@.len(),
                list == category_controls(self),
                ordered@.len() == list.len() <= 10,
                forall|j: int| 0 <= j < ordered@.len() ==> (#[trigger] ordered@[j])@ == list[j],
                position_from(list, name@, 0) == position_from(list, name@, i as int),
            decreases ordered.len() - i,
        {
            if str_eq(ordered[i], name) {
                assert(position_from(list, name@, i as int) == Some(i as int));
                return i as u8;
            }
            i += 1;
        }
        255
    }

    /// Whether a control belongs on this page; every control belongs on at
    /// least one.
    pub fn matches(self, name: &str) -> (r: bool)
        ensures
            r == category_matches(self, name@),
    {
        match self {
            Category::Equalizer => equalizer_control(name),
            Category::Recording => recording_control(name),
            Category::Effects => effects_control(name),
            Category::Playback => !effects_control(name) && !equalizer_control(name) && !recording_control(name),
        }
    }
}

fn equalizer_control(name: &str) -> (r: bool)
    ensures
        r == is_equalizer_name(name@),
{
    starts_with(name, "EQ Band") || str_eq(name, "FX: Equalizer Preset")
}

fn recording_control(name: &str) -> (r: bool)
    ensures
        r == is_recording_name(name@),
{
    contains(name, "Capture") || starts_with(name, "Input") || starts_with(name, "Mic ") || starts_with(
        name,
        "SVM ",
    ) || starts_with(name, "Voice") || starts_with(name, "Wedge") || str_eq(name, "Enable InFX")
        || starts_with(name, "FX: Mic") || starts_with(name, "FX: Noise") || starts_with(
        name,
        "FX: Voice",
    ) || str_eq(name, "What U Hear")
}

fn effects_control(name: &str) -> (r: bool)
    ensures
        r == is_effects_name(name@),
{
    !recording_control(name) && (str_eq(name, "Enable OutFX") || (starts_with(name, "FX:") && !str_eq(
        name,
        "FX: Equalizer Preset",
    )))
}

/// The frequency label of hardware equalizer band `i`, with Command's names
/// for the bass and treble bands.
pub open spec fn eq_band_label(i: nat) -> Seq<char> {
    if i == 0 {
        "31 Hz"@
    } else if i == 1 {
        "62 Hz (Bass in Command)"@
    } else if i == 2 {
        "125 Hz"@
    } else if i == 3 {
        "250 Hz"@
    } else if i == 4 {
        "500 Hz"@
    } else if i == 5 {
        "1 kHz"@
    } else if i == 6 {
        "2 kHz"@
    } else if i == 7 {
        "4 kHz"@
    } else if i == 8 {
        "8 kHz (Treble in Command)"@
    } else {
        "16 kHz"@
    }
}

fn band_label(i: u64) -> (r: &'static str)
    requires
        i < 10,
    ensures
        r@ == eq_band_label(i as nat),
{
    if i == 0 {
        "31 Hz"
    } else if i == 1 {
        "62 Hz (Bass in Command)"
    } else if i == 2 {
        "125 Hz"
    } else if i == 3 {
        "250 Hz"
    } else if i == 4 {
        "500 Hz"
    } else if i == 5 {
        "1 kHz"
    } else if i == 6 {
        "2 kHz"
    } else if i == 7 {
        "4 kHz"
    } else if i == 8 {
        "8 kHz (Treble in Command)"
    } else {
        "16 kHz"
    }
}

/// The name a control row shows: an equalizer band `EQ Band<i>` gains its
/// frequency label when `i` names one of the ten bands; every other name is
/// shown as it is.
pub open spec fn display_name(name: Seq<char>) -> Seq<char> {
    if has_prefix(name, "EQ Band"@) {
        match parse_unsigned(name.subrange("EQ Band"@.len() as int, name.len() as int), 9) {
            Some(i) => name + " · "@ + eq_band_label(i),
            None => name,
        }
    } else {
        name
    }
}

/// The name a control row shows.
pub fn control_display_name(name: &str) -> (r: String)
    ensures
        r@ == display_name(name@),
{
    let prefix = "EQ Band";
    proof {
        reveal_strlit("EQ Band");
    }
    if !starts_with(name, prefix) {
        return owned(name);
    }
    let suffix = name.substring_char(7, name.unicode_len());
    match parse_unsigned_text(suffix, 9) {
        Some(i) => {
            let mut out = owned(name);
            push_str(&mut out, " · ");
            push_str(&mut out, band_label(i));
            out
        },
        None => owned(name),
    }
}

/// The description a control row announces: the control's current state,
/// then why its playback switch is unavailable, if it is.
pub open spec fn row_description(c: ControlSnapshot, block: Option<Seq<char>>) -> Seq<char> {
    "Current state: "@ + snapshot_text(c) + match block {
        Some(reason) => ". Unavailable: "@ + reason,
        None => Seq::empty(),
    }
}

/// The description a control row announces.
pub fn control_row_description(control: &ControlSnapshot, playback_switch_block: Option<&str>) -> (r: String)
    ensures
        r@ == row_description(
            *control,
            match playback_switch_block {
                Some(s) => Some(s@),
                None => None,
            },
        ),
{
    let mut description = owned("Current state: ");
    let summary = control.display_text();
    push_str(&mut description, summary.as_str());
    if let Some(reason) = playback_switch_block {
        push_str(&mut description, ". Unavailable: ");
        push_str(&mut description, reason);
    }
    proof {
        assert(description@ =~= row_description(
            *control,
            match playback_switch_block {
                Some(s) => Some(s@),
                None => None,
            },
        ));
    }
    description
}

/// Every control belongs on at least one page.
pub proof fn lemma_every_control_has_a_page(name: Seq<char>)
    ensures
        exists|c: Category| #[trigger] category_matches(c, name),
{
    if is_equalizer_name(name) {
        assert(category_matches(Category::Equalizer, name));
    } else if is_recording_name(name) {
        assert(category_matches(Category::Recording, name));
    } else if is_effects_name(name) {
        assert(category_matches(Category::Effects, name));
    } else {
        assert(category_matches(Category::Playback, name));
    }
}

/// A control belongs on one page only, unless its name reads both as an
/// equalizer band and as a recording control.
pub proof fn lemma_pages_are_exclusive(name: Seq<char>, a: Category, b: Category)
    requires
        !(is_equalizer_name(name) && is_recording_name(name)),
        category_matches(a, name),
        category_matches(b, name),
    ensures
        a == b,
{
    reveal_strlit("EQ Band");
    reveal_strlit("FX:");
    reveal_strlit("Enable OutFX");
    reveal_strlit("FX: Equalizer Preset");
    if is_equalizer_name(name) && is_effects_name(name) {
        if has_prefix(name, "EQ Band"@) {
            if has_prefix(name, "FX:"@) {
                assert(name[0] == "EQ Band"@[0]);
                assert(name[0] == "FX:"@[0]);
            } else {
                assert(name == "Enable OutFX"@);
                assert(name[1] == "EQ Band"@[1]);
            }
        }
    }
}

} // verus!

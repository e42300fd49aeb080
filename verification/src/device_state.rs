//! The device state that the daemon publishes: status codes and the summary
//! of what the AE-5 currently allows.

use vstd::prelude::*;
use vstd::string::*;

use crate::controls;
use crate::controls::{
    find_control_index, selected_choice_of, switch_state_of, ControlSnapshot, DIRECT_MODE_CONTROL,
    HARDWARE_OUTFX_CONTROL,
};
use crate::device::Ae5Device;
use crate::effects_chain;
use crate::effects_chain::EffectsChainConfig;
use crate::hardware_effects;
use crate::hardware_effects::{hardware_effects_profile_matches, HardwareEffectsConfig};
use crate::text;
use crate::text::{
    contains, join_strings, opt_string_eq, owned, push_decimal, push_str, str_eq, to_ascii_lowercase,
};

verus! {

/// Why the device is, or is not, fully usable.
#[derive(Clone, Copy, Debug, PartialEq, Eq, Structural)]
pub enum DeviceStatusCode {
    Ready,
    Partial,
    NoDevice,
    FirmwareMissing,
    PermissionDenied,
    DeviceBusy,
    WriteFailed,
    DaemonUnavailable,
    Connecting,
    DeviceError,
}

/// The stable machine-readable code of a status.
pub open spec fn status_code_text(c: DeviceStatusCode) -> Seq<char> {
    match c {
        DeviceStatusCode::Ready => "ready"@,
        DeviceStatusCode::Partial => "partial"@,
        DeviceStatusCode::NoDevice => "no-device"@,
        DeviceStatusCode::FirmwareMissing => "firmware-missing"@,
        DeviceStatusCode::PermissionDenied => "permission-denied"@,
        DeviceStatusCode::DeviceBusy => "device-busy"@,
        DeviceStatusCode::WriteFailed => "write-failed"@,
        DeviceStatusCode::DaemonUnavailable => "daemon-unavailable"@,
        DeviceStatusCode::Connecting => "connecting"@,
        DeviceStatusCode::DeviceError => "device-error"@,
    }
}

/// The human-readable name of a status.
pub open spec fn status_display_text(c: DeviceStatusCode) -> Seq<char> {
    match c {
        DeviceStatusCode::Ready => "Connected"@,
        DeviceStatusCode::Partial => "Partial capabilities"@,
        DeviceStatusCode::NoDevice => "Not detected"@,
        DeviceStatusCode::FirmwareMissing => "Firmware missing"@,
        DeviceStatusCode::PermissionDenied => "Permission denied"@,
        DeviceStatusCode::DeviceBusy => "Device busy"@,
        DeviceStatusCode::WriteFailed => "Write failed"@,
        DeviceStatusCode::DaemonUnavailable => "Daemon unavailable"@,
        DeviceStatusCode::Connecting => "Connecting"@,
        DeviceStatusCode::DeviceError => "Device error"@,
    }
}

/// The status a code names; an unknown code is a device error.
pub open spec fn status_from_text(code: Seq<char>) -> DeviceStatusCode {
    if code == "ready"@ {
        DeviceStatusCode::Ready
    } else if code == "partial"@ {
        DeviceStatusCode::Partial
    } else if code == "no-device"@ {
        DeviceStatusCode::NoDevice
    } else if code == "firmware-missing"@ {
        DeviceStatusCode::FirmwareMissing
    } else if code == "permission-denied"@ {
        DeviceStatusCode::PermissionDenied
    } else if code == "device-busy"@ {
        DeviceStatusCode::DeviceBusy
    } else if code == "write-failed"@ {
        DeviceStatusCode::WriteFailed
    } else if code == "daemon-unavailable"@ {
        DeviceStatusCode::DaemonUnavailable
    } else if code == "connecting"@ {
        DeviceStatusCode::Connecting
    } else {
        DeviceStatusCode::DeviceError
    }
}

/// The status that an error message is recognized as, if any.
pub open spec fn known_error_status(message: Seq<char>) -> Option<DeviceStatusCode> {
    let m = text::lower_seq(message);
    if text::has_infix(m, "permission denied"@) || text::has_infix(m, "operation not permitted"@)
        || text::has_infix(m, "access denied"@) || text::has_infix(m, "not authorized"@) {
        Some(DeviceStatusCode::PermissionDenied)
    } else if text::has_infix(m, "device or resource busy"@) || text::has_infix(m, "device busy"@)
        || text::has_infix(m, "resource busy"@) {
        Some(DeviceStatusCode::DeviceBusy)
    } else if text::has_infix(m, "firmware"@) && (text::has_infix(m, "missing"@) || text::has_infix(
        m,
        "not found"@,
    ) || text::has_infix(m, "no such file"@) || text::has_infix(m, "unavailable"@)) {
        Some(DeviceStatusCode::FirmwareMissing)
    } else {
        None
    }
}

/// Every error message that contains, in any ASCII case, one of the phrases
/// "permission denied", "operation not permitted", "access denied" or "not
/// authorized" is recognized as a permission failure.
pub proof fn lemma_permission_phrases_recognized(message: Seq<char>, before: Seq<char>, phrase: Seq<char>, after: Seq<char>)
    requires
        phrase == "permission denied"@ || phrase == "operation not permitted"@ || phrase == "access denied"@
            || phrase == "not authorized"@,
        text::lower_seq(message) == before + phrase + after,
    ensures
        known_error_status(message) == Some(DeviceStatusCode::PermissionDenied),
{
    let m = text::lower_seq(message);
    let i = before.len() as int;
    assert(m.subrange(i, i + phrase.len()) =~= phrase);
    assert(text::occurs_at(m, phrase, i));
    assert(text::has_infix(m, phrase));
}

impl DeviceStatusCode {
    /// The stable machine-readable code of this status.
    pub fn as_str(self) -> (r: &'static str)
        ensures
            r@ == status_code_text(self),
    {
        match self {
            DeviceStatusCode::Ready => "ready",
            DeviceStatusCode::Partial => "partial",
            DeviceStatusCode::NoDevice => "no-device",
            DeviceStatusCode::FirmwareMissing => "firmware-missing",
            DeviceStatusCode::PermissionDenied => "permission-denied",
            DeviceStatusCode::DeviceBusy => "device-busy",
            DeviceStatusCode::WriteFailed => "write-failed",
            DeviceStatusCode::DaemonUnavailable => "daemon-unavailable",
            DeviceStatusCode::Connecting => "connecting",
            DeviceStatusCode::DeviceError => "device-error",
        }
    }

    /// The human-readable name of this status.
    pub fn display_name(self) -> (r: &'static str)
        ensures
            r@ == status_display_text(self),
    {
        match self {
            DeviceStatusCode::Ready => "Connected",
            DeviceStatusCode::Partial => "Partial capabilities",
            DeviceStatusCode::NoDevice => "Not detected",
            DeviceStatusCode::FirmwareMissing => "Firmware missing",
            DeviceStatusCode::PermissionDenied => "Permission denied",
            DeviceStatusCode::DeviceBusy => "Device busy",
            DeviceStatusCode::WriteFailed => "Write failed",
            DeviceStatusCode::DaemonUnavailable => "Daemon unavailable",
            DeviceStatusCode::Connecting => "Connecting",
            DeviceStatusCode::DeviceError => "Device error",
        }
    }

    /// The status a code names; an unknown code is a device error.
    pub fn from_code(code: &str) -> (r: Self)
        ensures
            r == status_from_text(code@),
    {
        if str_eq(code, "ready") {
            DeviceStatusCode::Ready
        } else if str_eq(code, "partial") {
            DeviceStatusCode::Partial
        } else if str_eq(code, "no-device") {
            DeviceStatusCode::NoDevice
        } else if str_eq(code, "firmware-missing") {
            DeviceStatusCode::FirmwareMissing
        } else if str_eq(code, "permission-denied") {
            DeviceStatusCode::PermissionDenied
        } else if str_eq(code, "device-busy") {
            DeviceStatusCode::DeviceBusy
        } else if str_eq(code, "write-failed") {
            DeviceStatusCode::WriteFailed
        } else if str_eq(code, "daemon-unavailable") {
            DeviceStatusCode::DaemonUnavailable
        } else if str_eq(code, "connecting") {
            DeviceStatusCode::Connecting
        } else {
            DeviceStatusCode::DeviceError
        }
    }

    /// Recognizes the user-actionable failures in an error message.
    pub fn from_known_error(message: &str) -> (r: Option<Self>)
        ensures
            r == known_error_status(message@),
    {
        let lowered = to_ascii_lowercase(message);
        let m = lowered.as_str();
        if contains(m, "permission denied") || contains(m, "operation not permitted") || contains(
            m,
            "access denied",
        ) || contains(m, "not authorized") {
            Some(DeviceStatusCode::PermissionDenied)
        } else if contains(m, "device or resource busy") || contains(m, "device busy") || contains(
            m,
            "resource busy",
        ) {
            Some(DeviceStatusCode::DeviceBusy)
        } else if contains(m, "firmware") && (contains(m, "missing") || contains(m, "not found")
            || contains(m, "no such file") || contains(m, "unavailable")) {
            Some(DeviceStatusCode::FirmwareMissing)
        } else {
            None
        }
    }
}

/// Reading a status back from its code gives the same status.
pub proof fn lemma_status_code_round_trip(c: DeviceStatusCode)
    ensures
        status_from_text(status_code_text(c)) == c,
{
    reveal_strlit("ready");
    reveal_strlit("partial");
    reveal_strlit("no-device");
    reveal_strlit("firmware-missing");
    reveal_strlit("permission-denied");
    reveal_strlit("device-busy");
    reveal_strlit("write-failed");
    reveal_strlit("daemon-unavailable");
    reveal_strlit("connecting");
    reveal_strlit("device-error");
    assert("ready"@.len() == 5);
    assert("partial"@.len() == 7);
    assert("no-device"@.len() == 9);
    assert("firmware-missing"@.len() == 16);
    assert("permission-denied"@.len() == 17);
    assert("device-busy"@.len() == 11);
    assert("write-failed"@.len() == 12);
    assert("daemon-unavailable"@.len() == 18);
    assert("connecting"@.len() == 10);
    assert("device-error"@.len() == 12);
    assert("device-error"@[0] != "write-failed"@[0]);
}

/// Different statuses have different codes.
pub proof fn lemma_status_codes_distinct(a: DeviceStatusCode, b: DeviceStatusCode)
    ensures
        status_code_text(a) == status_code_text(b) ==> a == b,
{
    lemma_status_code_round_trip(a);
    lemma_status_code_round_trip(b);
}

/// The state published to clients of the daemon (schema version 6).
#[derive(Clone, Debug, Eq, PartialEq)]
pub struct DeviceOutputState {
    pub schema_version: u32,
    pub device_name: String,
    pub connected: bool,
    pub status_code: String,
    pub status_message: String,
    pub audio_format: String,
    pub audio_format_available: bool,
    pub sample_rate_policy: String,
    pub sample_rate_policy_available: bool,
    pub sample_rate_write_enabled: bool,
    pub sample_rate_write_block_reason: String,
    pub master_volume: u16,
    pub volume_available: bool,
    pub muted: bool,
    pub mute_available: bool,
    pub output: String,
    pub output_available: bool,
    pub headphone_gain: String,
    pub headphone_gain_available: bool,
    pub direct_mode: bool,
    pub direct_mode_available: bool,
    pub software_eq_state: String,
    pub software_eq_detail: String,
    pub software_eq_active: bool,
    pub eq_apply_available: bool,
    pub eq_apply_block_reason: String,
    pub software_effects_state: String,
    pub software_effects_detail: String,
    pub software_effects_active: bool,
    pub software_effects_apply_available: bool,
    pub software_effects_apply_block_reason: String,
    pub hardware_effects_state: String,
    pub hardware_effects_detail: String,
    pub hardware_effects_active: bool,
    pub effects_apply_available: bool,
    pub effects_apply_block_reason: String,
    pub hardware_write_enabled: bool,
    pub volume_write_enabled: bool,
    pub mute_write_enabled: bool,
    pub output_write_enabled: bool,
    pub headphone_gain_write_enabled: bool,
    pub headphone_gain_write_block_reason: String,
    pub direct_mode_write_enabled: bool,
    pub hardware_write_block_reason: String,
    pub output_write_block_reason: String,
    pub card_index: i32,
    pub controls_count: u32,
}

/// The message used when no compatible card was found.
pub const NO_DEVICE_MESSAGE: &'static str = "No compatible Sound BlasterX AE-5 was detected.";

/// `s` is the state published when the card cannot be used: every hardware
/// value is unavailable and every write is blocked with `message`.
pub open spec fn is_unavailable_state(s: DeviceOutputState, status: DeviceStatusCode, message: Seq<char>) -> bool {
    &&& s.schema_version == 6
    &&& s.device_name@ == "Sound BlasterX AE-5"@
    &&& !s.connected
    &&& s.status_code@ == status_code_text(status)
    &&& s.status_message@ == message
    &&& s.audio_format@ == "Unavailable"@
    &&& !s.audio_format_available
    &&& s.sample_rate_policy@ == "Unavailable"@
    &&& !s.sample_rate_policy_available
    &&& !s.sample_rate_write_enabled
    &&& s.sample_rate_write_block_reason@ == message
    &&& s.master_volume == 0
    &&& !s.volume_available
    &&& s.muted
    &&& !s.mute_available
    &&& s.output@ == "Unavailable"@
    &&& !s.output_available
    &&& s.headphone_gain@ == "Unavailable"@
    &&& !s.headphone_gain_available
    &&& !s.direct_mode
    &&& !s.direct_mode_available
    &&& s.software_eq_state@ == "unavailable"@
    &&& s.software_eq_detail@ == "No compatible AE-5 is available for software EQ."@
    &&& !s.software_eq_active
    &&& !s.eq_apply_available
    &&& s.eq_apply_block_reason@ == message
    &&& s.software_effects_state@ == "unavailable"@
    &&& s.software_effects_detail@ == "No compatible AE-5 is available for software Effects."@
    &&& !s.software_effects_active
    &&& !s.software_effects_apply_available
    &&& s.software_effects_apply_block_reason@ == message
    &&& s.hardware_effects_state@ == "unavailable"@
    &&& s.hardware_effects_detail@ == "No compatible AE-5 is available for hardware Effects."@
    &&& !s.hardware_effects_active
    &&& !s.effects_apply_available
    &&& s.effects_apply_block_reason@ == message
    &&& !s.hardware_write_enabled
    &&& !s.volume_write_enabled
    &&& !s.mute_write_enabled
    &&& !s.output_write_enabled
    &&& !s.headphone_gain_write_enabled
    &&& s.headphone_gain_write_block_reason@ == message
    &&& !s.direct_mode_write_enabled
    &&& s.hardware_write_block_reason@ == message
    &&& s.output_write_block_reason@ == message
    &&& s.card_index == -1
    &&& s.controls_count == 0
}

impl DeviceOutputState {
    /// The state published when no compatible card is present.
    pub fn no_device() -> (r: Self)
        ensures
            is_unavailable_state(r, DeviceStatusCode::NoDevice, NO_DEVICE_MESSAGE@),
    {
        Self::unavailable(DeviceStatusCode::NoDevice, owned(NO_DEVICE_MESSAGE))
    }

    /// The state published when the card cannot be used, with every write
    /// blocked by `status_message`.
    pub fn unavailable(status: DeviceStatusCode, status_message: String) -> (r: Self)
        ensures
            is_unavailable_state(r, status, status_message@),
    {
        Self {
            schema_version: 6,
            device_name: owned("Sound BlasterX AE-5"),
            connected: false,
            status_code: owned(status.as_str()),
            status_message: status_message.clone(),
            audio_format: owned("Unavailable"),
            audio_format_available: false,
            sample_rate_policy: owned("Unavailable"),
            sample_rate_policy_available: false,
            sample_rate_write_enabled: false,
            sample_rate_write_block_reason: status_message.clone(),
            master_volume: 0,
            volume_available: false,
            muted: true,
            mute_available: false,
            output: owned("Unavailable"),
            output_available: false,
            headphone_gain: owned("Unavailable"),
            headphone_gain_available: false,
            direct_mode: false,
            direct_mode_available: false,
            software_eq_state: owned("unavailable"),
            software_eq_detail: owned("No compatible AE-5 is available for software EQ."),
            software_eq_active: false,
            eq_apply_available: false,
            eq_apply_block_reason: status_message.clone(),
            software_effects_state: owned("unavailable"),
            software_effects_detail: owned("No compatible AE-5 is available for software Effects."),
            software_effects_active: false,
            software_effects_apply_available: false,
            software_effects_apply_block_reason: status_message.clone(),
            hardware_effects_state: owned("unavailable"),
            hardware_effects_detail: owned("No compatible AE-5 is available for hardware Effects."),
            hardware_effects_active: false,
            effects_apply_available: false,
            effects_apply_block_reason: status_message.clone(),
            hardware_write_enabled: false,
            volume_write_enabled: false,
            mute_write_enabled: false,
            output_write_enabled: false,
            headphone_gain_write_enabled: false,
            headphone_gain_write_block_reason: status_message.clone(),
            direct_mode_write_enabled: false,
            hardware_write_block_reason: status_message.clone(),
            output_write_block_reason: status_message,
            card_index: -1,
            controls_count: 0,
        }
    }
}

/// Why a headphone gain write is refused; empty when it is allowed.
pub open spec fn headphone_gain_block(output: Seq<char>, gain_available: bool, output_present: bool, headphone_route_matches: bool) -> Seq<char> {
    if !gain_available {
        "The AE-5 headphone gain control is unavailable."@
    } else if output != "Headphones"@ {
        "Select Headphones before changing headphone gain."@
    } else if !output_present {
        "PipeWire has no AE-5 playback output to pause for a gain change."@
    } else if !headphone_route_matches {
        "The PipeWire and ALSA headphone routes must match before changing gain."@
    } else {
        Seq::empty()
    }
}

/// Why a headphone gain write is refused; empty when it is allowed.
pub fn headphone_gain_write_block_reason(output: &str, gain_available: bool, output_present: bool, headphone_route_matches: bool) -> (r: String)
    ensures
        r@ == headphone_gain_block(output@, gain_available, output_present, headphone_route_matches),
{
    if !gain_available {
        owned("The AE-5 headphone gain control is unavailable.")
    } else if !str_eq(output, "Headphones") {
        owned("Select Headphones before changing headphone gain.")
    } else if !output_present {
        owned("PipeWire has no AE-5 playback output to pause for a gain change.")
    } else if !headphone_route_matches {
        owned("The PipeWire and ALSA headphone routes must match before changing gain.")
    } else {
        String::new()
    }
}

/// The output name shown to users: ALSA's `Headphone` reads `Headphones`.
pub open spec fn normalized_output(output: Seq<char>) -> Seq<char> {
    if output == "Headphone"@ {
        "Headphones"@
    } else {
        output
    }
}

/// The output name shown to users.
pub fn normalize_output(output: &str) -> (r: String)
    ensures
        r@ == normalized_output(output@),
{
    if str_eq(output, "Headphone") {
        owned("Headphones")
    } else {
        owned(output)
    }
}

/// A choice without its parenthesized detail: `Medium (32-149 Ohms)` reads `Medium`.
pub open spec fn short_choice_text(choice: Seq<char>) -> Seq<char> {
    match text::find_from(choice, " ("@, 0) {
        Some(i) => choice.subrange(0, i),
        None => choice,
    }
}

/// A choice without its parenthesized detail.
pub fn short_choice(choice: &str) -> (r: String)
    ensures
        r@ == short_choice_text(choice@),
{
    proof {
        text::lemma_find_from_bounds(choice@, " ("@, 0);
    }
    match text::find(choice, " (") {
        Some(i) => owned(choice.substring_char(0, i)),
        None => owned(choice),
    }
}

/// The format of the running PCM stream.
#[derive(Clone, Debug, Eq, PartialEq)]
pub struct AudioFormat {
    pub sample_format: String,
    pub sample_rate: u32,
}

/// A stream format rendered as `S16LE · 96 kHz`.
pub open spec fn audio_format_text(format: AudioFormat) -> Seq<char> {
    format.sample_format@ + " · "@ + if format.sample_rate % 1000 == 0 {
        text::decimal((format.sample_rate / 1000) as nat) + " kHz"@
    } else {
        text::decimal(format.sample_rate as nat) + " Hz"@
    }
}

/// A stream format rendered as `S16LE · 96 kHz`.
pub fn format_audio_format(format: &AudioFormat) -> (r: String)
    ensures
        r@ == audio_format_text(*format),
{
    let mut s = format.sample_format.clone();
    push_str(&mut s, " · ");
    if format.sample_rate % 1000 == 0 {
        push_decimal(&mut s, (format.sample_rate / 1000) as u64);
        push_str(&mut s, " kHz");
    } else {
        push_decimal(&mut s, format.sample_rate as u64);
        push_str(&mut s, " Hz");
    }
    s
}

/// What the device summary reads of the saved software EQ.
#[derive(Clone, Debug, Eq, PartialEq)]
pub struct EqSummaryConfig {
    pub enabled: bool,
    /// The identity of the saved EQ graph, if it describes one.
    pub signature: Option<String>,
    /// A legacy preamp as the summary prints it (`+1.50`); `None` when the
    /// saved preamp is zero.
    pub legacy_preamp: Option<String>,
}

/// A software graph found running on the AE-5 output.
#[derive(Clone, Debug, Eq, PartialEq)]
pub struct SoftwareGraphOutput {
    /// The identity the running graph carries, if any.
    pub signature: Option<String>,
}

/// The state of one processing backend as the daemon publishes it.
#[derive(Clone, Debug, Eq, PartialEq)]
pub struct BackendSummary {
    pub state: String,
    pub detail: String,
    pub active: bool,
    pub apply_available: bool,
    pub apply_block_reason: String,
}

/// A backend summary as plain values: state, detail, active, block reason.
pub open spec fn summary_view(b: BackendSummary) -> (Seq<char>, Seq<char>, bool, Seq<char>) {
    (b.state@, b.detail@, b.active, b.apply_block_reason@)
}

/// A summary is consistent: applying is available exactly when nothing blocks it.
pub open spec fn summary_consistent(b: BackendSummary) -> bool {
    b.apply_available == (b.apply_block_reason@.len() == 0)
}

/// The signature of a running graph, if a graph runs and carries one.
pub open spec fn runtime_signature(runtime: Option<SoftwareGraphOutput>) -> Option<Seq<char>> {
    match runtime {
        Some(o) => text::opt_string_view(o.signature),
        None => None,
    }
}

/// The note on automatic attenuation that follows a software EQ detail.
pub open spec fn eq_processing_text(legacy_preamp: Option<Seq<char>>, active: bool) -> Seq<char> {
    match legacy_preamp {
        None => "No automatic attenuation is inserted; boosted curves can clip near full scale."@,
        Some(p) => if active {
            "Legacy "@ + p + " dB preamp is active; apply the preset again to remove it."@
        } else {
            "Legacy "@ + p + " dB preamp remains saved; apply the preset again to remove it."@
        },
    }
}

/// The state, detail and activity of the software EQ.
pub open spec fn eq_state(config: Result<EqSummaryConfig, String>, runtime: Result<Option<SoftwareGraphOutput>, String>) -> (Seq<char>, Seq<char>, bool) {
    match (config, runtime) {
        (Err(e), _) => ("unavailable"@, "Software EQ configuration is unavailable: "@ + e@, false),
        (_, Err(e)) => ("unavailable"@, "Software EQ runtime state is unavailable: "@ + e@, false),
        (Ok(c), Ok(rt)) => {
            let active = rt is Some;
            let current = text::opt_string_view(c.signature) == runtime_signature(rt);
            if !c.enabled && !active {
                ("inactive"@, "Desktop audio uses the physical AE-5 output without software EQ."@, false)
            } else if c.enabled && !active {
                ("configured"@, "A software EQ is saved but not active in this PipeWire session. "@
                    + eq_processing_text(text::opt_string_view(c.legacy_preamp), false), false)
            } else if c.enabled && current {
                ("current"@, "Software EQ is active in the existing AE-5 output. "@
                    + eq_processing_text(text::opt_string_view(c.legacy_preamp), true), true)
            } else {
                ("different"@, "A different AE-5 software EQ graph is active; refresh or disable it before replacing it."@, active)
            }
        },
    }
}

/// Why applying a software EQ is refused; empty when it is allowed.
pub open spec fn eq_block(state: Seq<char>, detail: Seq<char>, output_present: bool, direct_mode: bool) -> Seq<char> {
    if !output_present {
        "PipeWire has no AE-5 playback output for software EQ."@
    } else if direct_mode {
        "Turn Direct Mode off before applying software EQ."@
    } else if state == "unavailable"@ {
        detail
    } else if state == "different"@ {
        "A different AE-5 software EQ graph is active; disable it before applying another preset."@
    } else {
        Seq::empty()
    }
}

/// Builds a summary whose availability follows its block reason.
fn backend_summary(state: &str, detail: String, active: bool, apply_block_reason: String) -> (r: BackendSummary)
    ensures
        summary_view(r) == (state@, detail@, active, apply_block_reason@),
        summary_consistent(r),
{
    let apply_available = apply_block_reason.unicode_len() == 0;
    BackendSummary { state: owned(state), detail, active, apply_available, apply_block_reason }
}

/// The software EQ as the daemon publishes it.
pub fn software_eq_summary(config: &Result<EqSummaryConfig, String>, runtime: &Result<Option<SoftwareGraphOutput>, String>, output_present: bool, direct_mode: bool) -> (r: BackendSummary)
    ensures
        summary_consistent(r),
        ({
            let (state, detail, active) = eq_state(*config, *runtime);
            summary_view(r) == (state, detail, active, eq_block(state, detail, output_present, direct_mode))
        }),
{
    let (state, detail, active): (&str, String, bool) = match (config, runtime) {
        (Err(e), _) => {
            let mut d = owned("Software EQ configuration is unavailable: ");
            push_str(&mut d, e.as_str());
            ("unavailable", d, false)
        },
        (_, Err(e)) => {
            let mut d = owned("Software EQ runtime state is unavailable: ");
            push_str(&mut d, e.as_str());
            ("unavailable", d, false)
        },
        (Ok(c), Ok(rt)) => {
            let active = rt.is_some();
            let running = match rt {
                Some(o) => o.signature.clone(),
                None => None,
            };
            let current = opt_string_eq(&c.signature, &running);
            if !c.enabled && !active {
                ("inactive", owned("Desktop audio uses the physical AE-5 output without software EQ."), false)
            } else if c.enabled && !active {
                let mut d = owned("A software EQ is saved but not active in this PipeWire session. ");
                push_eq_processing(&mut d, &c.legacy_preamp, false);
                ("configured", d, false)
            } else if c.enabled && current {
                let mut d = owned("Software EQ is active in the existing AE-5 output. ");
                push_eq_processing(&mut d, &c.legacy_preamp, true);
                ("current", d, true)
            } else {
                ("different", owned("A different AE-5 software EQ graph is active; refresh or disable it before replacing it."), active)
            }
        },
    };
    let block = if !output_present {
        owned("PipeWire has no AE-5 playback output for software EQ.")
    } else if direct_mode {
        owned("Turn Direct Mode off before applying software EQ.")
    } else if str_eq(state, "unavailable") {
        detail.clone()
    } else if str_eq(state, "different") {
        owned("A different AE-5 software EQ graph is active; disable it before applying another preset.")
    } else {
        String::new()
    };
    backend_summary(state, detail, active, block)
}

/// Appends the note on automatic attenuation.
fn push_eq_processing(s: &mut String, legacy_preamp: &Option<String>, active: bool)
    ensures
        final(s)@ == old(s)@ + eq_processing_text(text::opt_string_view(*legacy_preamp), active),
{
    match legacy_preamp {
        None => push_str(s, "No automatic attenuation is inserted; boosted curves can clip near full scale."),
        Some(p) => {
            push_str(s, "Legacy ");
            push_str(s, p.as_str());
            if active {
                push_str(s, " dB preamp is active; apply the preset again to remove it.");
            } else {
                push_str(s, " dB preamp remains saved; apply the preset again to remove it.");
            }
        },
    }
}

/// The state and detail of the hardware Effects.
pub open spec fn hardware_state(config: Result<HardwareEffectsConfig, String>, cs: Seq<ControlSnapshot>, gate_active: bool) -> (Seq<char>, Seq<char>) {
    let master = controls::switch_of(cs, HARDWARE_OUTFX_CONTROL@);
    let active = master == Some(true);
    if master is None {
        ("unavailable"@, "The current AE-5 driver does not expose the hardware OutFX master switch."@)
    } else if !gate_active {
        ("unavailable"@, "Hardware OutFX is locked. Boot the exact AE-5 OutFX lab kernel and start ae5d with explicit lab confirmation."@)
    } else {
        match config {
            Err(e) => ("unavailable"@, "Hardware Effects managed state is unavailable: "@ + e@),
            Ok(c) => match c.profile {
                Some(p) => if hardware_effects::targets_read_back(hardware_effects::profile_target_entries(p), cs) {
                    ("current"@, "Hardware OutFX is active and verified against the saved '"@ + p.name@ + "' profile."@)
                } else if !active && hardware_effects::targets_read_back(hardware_effects::profile_target_entries(p).drop_first(), cs) {
                    ("configured"@, "The saved '"@ + p.name@ + "' hardware profile is intact; hardware OutFX is bypassed."@)
                } else {
                    ("different"@, "The live hardware Effects controls differ from the last profile applied by AE-5 Control."@)
                },
                None => if active {
                    ("different"@, "Hardware OutFX is active but has not yet been adopted by AE-5 Control."@)
                } else {
                    ("inactive"@, "Hardware OutFX is inactive; applying a profile writes and verifies the complete hardware Effects group."@)
                },
            },
        }
    }
}

/// Why applying hardware Effects is refused; empty when it is allowed.
pub open spec fn hardware_block(state: Seq<char>, detail: Seq<char>, output_present: bool, direct_mode: bool, software_effects_active: bool) -> Seq<char> {
    if !output_present {
        "PipeWire has no AE-5 playback output to pause safely for a hardware Effects transaction."@
    } else if direct_mode {
        "Turn Direct Mode off before applying hardware Effects."@
    } else if software_effects_active {
        "Disable the software Effects fallback before enabling hardware OutFX; the two backends are never stacked."@
    } else if state == "unavailable"@ {
        detail
    } else {
        Seq::empty()
    }
}

/// The hardware Effects as the daemon publishes them.
pub fn hardware_effects_summary(config: &Result<HardwareEffectsConfig, String>, controls: &[ControlSnapshot], gate_active: bool, output_present: bool, direct_mode: bool, software_effects_active: bool) -> (r: BackendSummary)
    ensures
        summary_consistent(r),
        ({
            let (state, detail) = hardware_state(*config, controls@, gate_active);
            summary_view(r) == (state, detail, controls::switch_of(controls@, HARDWARE_OUTFX_CONTROL@) == Some(true),
                hardware_block(state, detail, output_present, direct_mode, software_effects_active))
        }),
{
    let master = switch_state_of(controls, HARDWARE_OUTFX_CONTROL);
    let active = master == Some(true);
    let (state, detail): (&str, String) = if master.is_none() {
        ("unavailable", owned("The current AE-5 driver does not expose the hardware OutFX master switch."))
    } else if !gate_active {
        ("unavailable", owned("Hardware OutFX is locked. Boot the exact AE-5 OutFX lab kernel and start ae5d with explicit lab confirmation."))
    } else {
        match config {
            Err(e) => {
                let mut d = owned("Hardware Effects managed state is unavailable: ");
                push_str(&mut d, e.as_str());
                ("unavailable", d)
            },
            Ok(c) => match &c.profile {
                Some(p) => {
                    if hardware_effects_profile_matches(p, controls, true) {
                        let mut d = owned("Hardware OutFX is active and verified against the saved '");
                        push_str(&mut d, p.name.as_str());
                        push_str(&mut d, "' profile.");
                        ("current", d)
                    } else if !active && hardware_effects_profile_matches(p, controls, false) {
                        let mut d = owned("The saved '");
                        push_str(&mut d, p.name.as_str());
                        push_str(&mut d, "' hardware profile is intact; hardware OutFX is bypassed.");
                        ("configured", d)
                    } else {
                        ("different", owned("The live hardware Effects controls differ from the last profile applied by AE-5 Control."))
                    }
                },
                None => if active {
                    ("different", owned("Hardware OutFX is active but has not yet been adopted by AE-5 Control."))
                } else {
                    ("inactive", owned("Hardware OutFX is inactive; applying a profile writes and verifies the complete hardware Effects group."))
                },
            },
        }
    };
    let block = if !output_present {
        owned("PipeWire has no AE-5 playback output to pause safely for a hardware Effects transaction.")
    } else if direct_mode {
        owned("Turn Direct Mode off before applying hardware Effects.")
    } else if software_effects_active {
        owned("Disable the software Effects fallback before enabling hardware OutFX; the two backends are never stacked.")
    } else if str_eq(state, "unavailable") {
        detail.clone()
    } else {
        String::new()
    };
    backend_summary(state, detail, active, block)
}

/// The state, detail and activity of the software Effects.
pub open spec fn software_effects_state(config: Result<EffectsChainConfig, String>, runtime: Result<Option<SoftwareGraphOutput>, String>, support: Result<(), String>) -> (Seq<char>, Seq<char>, bool) {
    match (config, runtime, support) {
        (_, _, Err(e)) => ("unavailable"@, "Software Effects are unavailable: "@ + e@ + "."@, false),
        (Err(e), _, _) => ("unavailable"@, "Software Effects configuration is unavailable: "@ + e@, false),
        (_, Err(e), _) => ("unavailable"@, "Software Effects runtime state is unavailable: "@ + e@, false),
        (Ok(c), Ok(rt), Ok(())) => {
            let active = rt is Some;
            let current = effects_chain::config_signature(c) == runtime_signature(rt);
            if !c.enabled && !active {
                ("inactive"@, "The software Effects fallback is inactive."@, false)
            } else if c.enabled && !active {
                ("configured"@, "A software Effects profile is saved but not active in this PipeWire session."@, false)
            } else if c.enabled && current {
                ("current"@, "Linux software substitutes are active in the existing AE-5 output; the hardware OutFX path was not written."@, true)
            } else {
                ("different"@, "A different AE-5 software Effects graph is active; disable it before replacing it."@, active)
            }
        },
    }
}

/// Why applying software Effects is refused; empty when it is allowed.
pub open spec fn software_effects_block(state: Seq<char>, detail: Seq<char>, output_present: bool, direct_mode: bool, hardware_effects_active: bool) -> Seq<char> {
    if !output_present {
        "PipeWire has no AE-5 playback output for software Effects."@
    } else if direct_mode {
        "Turn Direct Mode off before applying software Effects."@
    } else if hardware_effects_active {
        "Disable hardware OutFX before enabling the software Effects fallback; the two backends are never stacked."@
    } else if state == "unavailable"@ {
        detail
    } else if state == "different"@ {
        "A different AE-5 software Effects graph is active; disable it before applying another profile."@
    } else {
        Seq::empty()
    }
}

/// The software Effects as the daemon publishes them.
pub fn software_effects_summary(config: &Result<EffectsChainConfig, String>, runtime: &Result<Option<SoftwareGraphOutput>, String>, runtime_support: &Result<(), String>, output_present: bool, direct_mode: bool, hardware_effects_active: bool) -> (r: BackendSummary)
    ensures
        summary_consistent(r),
        ({
            let (state, detail, active) = software_effects_state(*config, *runtime, *runtime_support);
            summary_view(r) == (state, detail, active, software_effects_block(state, detail, output_present, direct_mode, hardware_effects_active))
        }),
{
    let (state, detail, active): (&str, String, bool) = match (config, runtime, runtime_support) {
        (_, _, Err(e)) => {
            let mut d = owned("Software Effects are unavailable: ");
            push_str(&mut d, e.as_str());
            push_str(&mut d, ".");
            ("unavailable", d, false)
        },
        (Err(e), _, _) => {
            let mut d = owned("Software Effects configuration is unavailable: ");
            push_str(&mut d, e.as_str());
            ("unavailable", d, false)
        },
        (_, Err(e), _) => {
            let mut d = owned("Software Effects runtime state is unavailable: ");
            push_str(&mut d, e.as_str());
            ("unavailable", d, false)
        },
        (Ok(c), Ok(rt), Ok(())) => {
            let active = rt.is_some();
            let running = match rt {
                Some(o) => o.signature.clone(),
                None => None,
            };
            let saved = c.signature();
            let current = opt_string_eq(&saved, &running);
            if !c.enabled && !active {
                ("inactive", owned("The software Effects fallback is inactive."), false)
            } else if c.enabled && !active {
                ("configured", owned("A software Effects profile is saved but not active in this PipeWire session."), false)
            } else if c.enabled && current {
                ("current", owned("Linux software substitutes are active in the existing AE-5 output; the hardware OutFX path was not written."), true)
            } else {
                ("different", owned("A different AE-5 software Effects graph is active; disable it before replacing it."), active)
            }
        },
    };
    let block = if !output_present {
        owned("PipeWire has no AE-5 playback output for software Effects.")
    } else if direct_mode {
        owned("Turn Direct Mode off before applying software Effects.")
    } else if hardware_effects_active {
        owned("Disable hardware OutFX before enabling the software Effects fallback; the two backends are never stacked.")
    } else if str_eq(state, "unavailable") {
        detail.clone()
    } else if str_eq(state, "different") {
        owned("A different AE-5 software Effects graph is active; disable it before applying another profile.")
    } else {
        String::new()
    };
    backend_summary(state, detail, active, block)
}

/// The PipeWire playback node of the AE-5.
#[derive(Clone, Debug, Eq, PartialEq)]
pub struct PipeWireNode {
    pub id: u32,
    pub node_name: String,
    pub description: String,
    pub is_default: bool,
    pub volume_percent: Option<u16>,
    pub muted: Option<bool>,
}

/// The PipeWire card profile and routes of the AE-5.
#[derive(Clone, Debug, Eq, PartialEq)]
pub struct PipeWireRouteState {
    pub profile_set: Option<String>,
    pub soft_mixer: Option<bool>,
    pub ignore_db: Option<bool>,
    pub persistent_playback: Option<bool>,
    pub active_profile: Option<String>,
    pub input_route: Option<String>,
    pub output_route: Option<String>,
}

/// Everything read about a present card, each part with the error text of
/// the read that failed.
#[derive(Debug, Eq, PartialEq)]
pub struct DeviceStateParts {
    pub controls: Result<Vec<ControlSnapshot>, String>,
    pub output_node: Result<Option<PipeWireNode>, String>,
    pub route_state: Result<PipeWireRouteState, String>,
    pub audio_format: Result<Option<AudioFormat>, String>,
    /// The name of the runtime sample-rate policy, as `96 kHz`.
    pub sample_rate_policy: Result<String, String>,
    pub eq_config: Result<EqSummaryConfig, String>,
    pub eq_output: Result<Option<SoftwareGraphOutput>, String>,
    pub effects_config: Result<EffectsChainConfig, String>,
    pub effects_output: Result<Option<SoftwareGraphOutput>, String>,
    pub effects_runtime_support: Result<(), String>,
    pub hardware_effects_config: Result<HardwareEffectsConfig, String>,
    pub hardware_effects_gate: bool,
    pub output_write_block_reason: Option<String>,
}

/// Why output and Direct Mode writes stay off.
pub const READ_ONLY_REASON: &'static str = "Output and Direct Mode writes remain read-only until their checked ae5d paths are connected.";

/// The PipeWire route of the AE-5 headphone output.
pub const HEADPHONE_ROUTE: &'static str = "sound-blaster-ae5-output-headphones";

/// The controls that were read, or none.
pub open spec fn parts_controls(p: DeviceStateParts) -> Seq<ControlSnapshot> {
    match p.controls {
        Ok(c) => c@,
        Err(_) => Seq::empty(),
    }
}

/// The output as shown, if ALSA reports one.
pub open spec fn output_shown(cs: Seq<ControlSnapshot>) -> Option<Seq<char>> {
    match controls::selected_of(cs, "Output Select"@) {
        Some(o) => Some(normalized_output(o)),
        None => None,
    }
}

/// The headphone gain as shown, if ALSA reports one.
pub open spec fn gain_shown(cs: Seq<ControlSnapshot>) -> Option<Seq<char>> {
    match controls::selected_of(cs, "AE-5: Headphone Gain"@) {
        Some(g) => Some(short_choice_text(g)),
        None => None,
    }
}

/// A shown value, or `Unavailable`.
pub open spec fn or_unavailable(v: Option<Seq<char>>) -> Seq<char> {
    match v {
        Some(x) => x,
        None => "Unavailable"@,
    }
}

/// PipeWire has an AE-5 playback node.
pub open spec fn node_present(p: DeviceStateParts) -> bool {
    p.output_node matches Ok(Some(_))
}

/// The PipeWire route is the headphone route.
pub open spec fn headphone_route_active(p: DeviceStateParts) -> bool {
    p.route_state matches Ok(st) && text::opt_string_view(st.output_route) == Some(HEADPHONE_ROUTE@)
}

/// Direct Mode is on.
pub open spec fn direct_mode_on(cs: Seq<ControlSnapshot>) -> bool {
    controls::switch_of(cs, DIRECT_MODE_CONTROL@) == Some(true)
}

/// A one-issue list when `cond` holds.
pub open spec fn issue_if(cond: bool, m: Seq<char>) -> Seq<Seq<char>> {
    if cond {
        seq![m]
    } else {
        Seq::empty()
    }
}

/// The issues the PipeWire playback node adds.
pub open spec fn node_issues(p: DeviceStateParts) -> Seq<Seq<char>> {
    match p.output_node {
        Ok(Some(n)) => issue_if(n.volume_percent is None, "PipeWire volume is unavailable."@)
            + issue_if(n.muted is None, "PipeWire mute state is unavailable."@),
        Ok(None) => seq!["PipeWire playback output is unavailable."@],
        Err(e) => seq!["PipeWire playback state unavailable: "@ + e@ + "."@],
    }
}

/// Every issue found, in the order the state is put together.
pub open spec fn state_issues(p: DeviceStateParts) -> Seq<Seq<char>> {
    let cs = parts_controls(p);
    (match p.controls {
        Err(e) => seq!["ALSA controls unavailable: "@ + e@ + "."@],
        Ok(_) => Seq::empty(),
    }) + issue_if(output_shown(cs) is None, "Output selection is unavailable."@) + issue_if(
        gain_shown(cs) is None,
        "Headphone gain is unavailable."@,
    ) + node_issues(p) + (match p.audio_format {
        Err(e) => seq!["Active PipeWire format unavailable: "@ + e@ + "."@],
        Ok(_) => Seq::empty(),
    }) + (match p.sample_rate_policy {
        Err(e) => seq!["PipeWire sample-rate policy unavailable: "@ + e@ + "."@],
        Ok(_) => Seq::empty(),
    })
}

/// The status a failed read is recognized as: the controls first, then the
/// playback node, then the stream format.
pub open spec fn specific_status(p: DeviceStateParts) -> Option<DeviceStatusCode> {
    let a = match p.controls {
        Err(e) => known_error_status(e@),
        Ok(_) => None,
    };
    let b = match p.output_node {
        Err(e) => known_error_status(e@),
        Ok(_) => None,
    };
    let c = match p.audio_format {
        Err(e) => known_error_status(e@),
        Ok(_) => None,
    };
    if a is Some {
        a
    } else if b is Some {
        b
    } else {
        c
    }
}

/// The published status: a recognized failure, else ready when nothing is
/// missing, else partial.
pub open spec fn composed_status(p: DeviceStateParts) -> DeviceStatusCode {
    match specific_status(p) {
        Some(s) => s,
        None => if state_issues(p).len() == 0 {
            DeviceStatusCode::Ready
        } else {
            DeviceStatusCode::Partial
        },
    }
}

/// The published status message: the issues joined by spaces.
pub open spec fn composed_message(p: DeviceStateParts) -> Seq<char> {
    if state_issues(p).len() == 0 {
        "Live device state from ae5d."@
    } else {
        text::join_with(state_issues(p), " "@)
    }
}

/// `s` is the state published for `device` with the parts read from it.
pub open spec fn is_composed_state(s: DeviceOutputState, d: Ae5Device, p: DeviceStateParts) -> bool {
    let cs = parts_controls(p);
    let output = or_unavailable(output_shown(cs));
    let gain = or_unavailable(gain_shown(cs));
    let gain_block = headphone_gain_block(output, gain != "Unavailable"@, node_present(p), headphone_route_active(p));
    let (eq_st, eq_detail, eq_active) = eq_state(p.eq_config, p.eq_output);
    let (hw_st, hw_detail) = hardware_state(p.hardware_effects_config, cs, p.hardware_effects_gate);
    let hw_active = controls::switch_of(cs, HARDWARE_OUTFX_CONTROL@) == Some(true);
    let (sw_st, sw_detail, sw_active) = software_effects_state(p.effects_config, p.effects_output, p.effects_runtime_support);
    let eq_blk = eq_block(eq_st, eq_detail, node_present(p), direct_mode_on(cs));
    let hw_blk = hardware_block(hw_st, hw_detail, node_present(p), direct_mode_on(cs), p.effects_output matches Ok(Some(_)));
    let sw_blk = software_effects_block(sw_st, sw_detail, node_present(p), direct_mode_on(cs), hw_active);
    let (volume, volume_ok, muted, mute_ok) = match p.output_node {
        Ok(Some(n)) => (
            match n.volume_percent { Some(v) => v, None => 0u16 },
            n.volume_percent is Some,
            match n.muted { Some(m) => m, None => true },
            n.muted is Some,
        ),
        _ => (0u16, false, true, false),
    };
    let rate_ok = p.sample_rate_policy is Ok;
    &&& s.schema_version == 6
    &&& s.device_name@ == match d.codec_name { Some(n) => n@, None => "Sound BlasterX AE-5"@ }
    &&& s.connected
    &&& s.status_code@ == status_code_text(composed_status(p))
    &&& s.status_message@ == composed_message(p)
    &&& s.audio_format@ == match p.audio_format {
        Ok(Some(f)) => audio_format_text(f),
        Ok(None) => "Idle"@,
        Err(_) => "Unavailable"@,
    }
    &&& s.audio_format_available == (p.audio_format matches Ok(Some(_)))
    &&& s.sample_rate_policy@ == match p.sample_rate_policy { Ok(n) => n@, Err(_) => "Unavailable"@ }
    &&& s.sample_rate_policy_available == rate_ok
    &&& s.sample_rate_write_enabled == (node_present(p) && rate_ok)
    &&& s.sample_rate_write_block_reason@ == if !node_present(p) {
        "PipeWire has no AE-5 playback output for a sample-rate change."@
    } else {
        match p.sample_rate_policy {
            Err(e) => "The live PipeWire sample-rate policy is unavailable: "@ + e@,
            Ok(_) => Seq::empty(),
        }
    }
    &&& s.master_volume == volume
    &&& s.volume_available == volume_ok
    &&& s.muted == muted
    &&& s.mute_available == mute_ok
    &&& s.output@ == output
    &&& s.output_available == (output != "Unavailable"@)
    &&& s.headphone_gain@ == gain
    &&& s.headphone_gain_available == (gain != "Unavailable"@)
    &&& s.direct_mode == direct_mode_on(cs)
    &&& s.direct_mode_available == (controls::find_control(cs, DIRECT_MODE_CONTROL@) matches Some(c) && c.playback_switch is Some)
    &&& s.software_eq_state@ == eq_st
    &&& s.software_eq_detail@ == eq_detail
    &&& s.software_eq_active == eq_active
    &&& s.eq_apply_block_reason@ == eq_blk
    &&& s.eq_apply_available == (eq_blk.len() == 0)
    &&& s.software_effects_state@ == sw_st
    &&& s.software_effects_detail@ == sw_detail
    &&& s.software_effects_active == sw_active
    &&& s.software_effects_apply_block_reason@ == sw_blk
    &&& s.software_effects_apply_available == (sw_blk.len() == 0)
    &&& s.hardware_effects_state@ == hw_st
    &&& s.hardware_effects_detail@ == hw_detail
    &&& s.hardware_effects_active == hw_active
    &&& s.effects_apply_block_reason@ == hw_blk
    &&& s.effects_apply_available == (hw_blk.len() == 0)
    &&& s.hardware_write_enabled == (volume_ok || mute_ok || gain_block.len() == 0)
    &&& s.volume_write_enabled == volume_ok
    &&& s.mute_write_enabled == mute_ok
    &&& !s.output_write_enabled
    &&& s.headphone_gain_write_enabled == (gain_block.len() == 0)
    &&& s.headphone_gain_write_block_reason@ == gain_block
    &&& !s.direct_mode_write_enabled
    &&& s.hardware_write_block_reason@ == READ_ONLY_REASON@
    &&& s.output_write_block_reason@ == match p.output_write_block_reason {
        Some(r) => r@,
        None => READ_ONLY_REASON@,
    }
    &&& s.card_index == d.card_index
    &&& s.controls_count as int == if cs.len() <= u32::MAX { cs.len() as int } else { u32::MAX as int }
}

/// Appends `m` to the issues.
fn push_issue(issues: &mut Vec<String>, m: String)
    ensures
        text::strings_view(final(issues)@) == text::strings_view(old(issues)@).push(m@),
{
    issues.push(m);
    assert(text::strings_view(issues@) =~= text::strings_view(old(issues)@).push(m@));
}

/// `prefix`, `e` and `.` as one message.
fn failure_issue(prefix: &str, e: &str) -> (r: String)
    ensures
        r@ == prefix@ + e@ + "."@,
{
    let mut m = owned(prefix);
    push_str(&mut m, e);
    push_str(&mut m, ".");
    m
}

/// The recognized status of a failed read, if none was found before.
fn first_status(found: Option<DeviceStatusCode>, error: &str) -> (r: Option<DeviceStatusCode>)
    ensures
        r == if found is Some { found } else { known_error_status(error@) },
{
    match found {
        Some(s) => Some(s),
        None => DeviceStatusCode::from_known_error(error),
    }
}

/// Every issue found in the parts, and the status a failed read is
/// recognized as.
#[verifier::spinoff_prover]
#[verifier::rlimit(30)]
fn collect_issues(parts: &DeviceStateParts) -> (r: (Vec<String>, Option<DeviceStatusCode>))
    ensures
        text::strings_view(r.0@) == state_issues(*parts),
        r.1 == specific_status(*parts),
{
    let ghost p = *parts;
    let mut issues: Vec<String> = Vec::new();
    let mut specific: Option<DeviceStatusCode> = None;
    let empty: Vec<ControlSnapshot> = Vec::new();
    let controls: &[ControlSnapshot] = match &parts.controls {
        Ok(c) => c.as_slice(),
        Err(e) => {
            specific = DeviceStatusCode::from_known_error(e.as_str());
            push_issue(&mut issues, failure_issue("ALSA controls unavailable: ", e.as_str()));
            empty.as_slice()
        },
    };
    let ghost cs = parts_controls(p);
    assert(controls@ == cs);
    let ghost i1 = text::strings_view(issues@);
    if selected_choice_of(controls, "Output Select").is_none() {
        push_issue(&mut issues, owned("Output selection is unavailable."));
    }
    let ghost i2 = text::strings_view(issues@);
    assert(i2 =~= i1 + issue_if(output_shown(cs) is None, "Output selection is unavailable."@));
    if selected_choice_of(controls, "AE-5: Headphone Gain").is_none() {
        push_issue(&mut issues, owned("Headphone gain is unavailable."));
    }
    let ghost i3 = text::strings_view(issues@);
    assert(i3 =~= i2 + issue_if(gain_shown(cs) is None, "Headphone gain is unavailable."@));
    match &parts.output_node {
        Ok(Some(node)) => {
            if node.volume_percent.is_none() {
                push_issue(&mut issues, owned("PipeWire volume is unavailable."));
            }
            if node.muted.is_none() {
                push_issue(&mut issues, owned("PipeWire mute state is unavailable."));
            }
        },
        Ok(None) => {
            push_issue(&mut issues, owned("PipeWire playback output is unavailable."));
        },
        Err(e) => {
            specific = first_status(specific, e.as_str());
            push_issue(&mut issues, failure_issue("PipeWire playback state unavailable: ", e.as_str()));
        },
    }
    let ghost i4 = text::strings_view(issues@);
    assert(i4 =~= i3 + node_issues(p));
    match &parts.audio_format {
        Err(e) => {
            specific = first_status(specific, e.as_str());
            push_issue(&mut issues, failure_issue("Active PipeWire format unavailable: ", e.as_str()));
        },
        Ok(_) => {},
    }
    match &parts.sample_rate_policy {
        Err(e) => {
            push_issue(&mut issues, failure_issue("PipeWire sample-rate policy unavailable: ", e.as_str()));
        },
        Ok(_) => {},
    }
    assert(text::strings_view(issues@) =~= state_issues(p));
    (issues, specific)
}

/// The volume, whether it is known, the mute state, and whether it is known.
fn node_values(parts: &DeviceStateParts) -> (r: (u16, bool, bool, bool))
    ensures
        r == match parts.output_node {
            Ok(Some(n)) => (
                match n.volume_percent { Some(v) => v, None => 0u16 },
                n.volume_percent is Some,
                match n.muted { Some(m) => m, None => true },
                n.muted is Some,
            ),
            _ => (0u16, false, true, false),
        },
{
    match &parts.output_node {
        Ok(Some(node)) => (
            match node.volume_percent {
                Some(v) => v,
                None => 0,
            },
            node.volume_percent.is_some(),
            match node.muted {
                Some(m) => m,
                None => true,
            },
            node.muted.is_some(),
        ),
        _ => (0, false, true, false),
    }
}

/// The controls read from the card, or none.
fn controls_of(parts: &DeviceStateParts) -> (r: &[ControlSnapshot])
    ensures
        r@ == parts_controls(*parts),
{
    match &parts.controls {
        Ok(c) => c.as_slice(),
        Err(_) => {
            let none: &[ControlSnapshot] = &[];
            assert(none@ =~= Seq::<ControlSnapshot>::empty());
            none
        },
    }
}

/// The stream format as shown, and whether a stream runs.
fn audio_format_values(parts: &DeviceStateParts) -> (r: (String, bool))
    ensures
        r.0@ == match parts.audio_format {
            Ok(Some(f)) => audio_format_text(f),
            Ok(None) => "Idle"@,
            Err(_) => "Unavailable"@,
        },
        r.1 == (parts.audio_format matches Ok(Some(_))),
{
    match &parts.audio_format {
        Ok(Some(format)) => (format_audio_format(format), true),
        Ok(None) => (owned("Idle"), false),
        Err(_) => (owned("Unavailable"), false),
    }
}

/// The sample-rate policy as shown, whether it is known, and why a
/// sample-rate change is refused (empty when it is allowed).
fn sample_rate_values(parts: &DeviceStateParts, output_present: bool) -> (r: (String, bool, String))
    ensures
        r.0@ == match parts.sample_rate_policy { Ok(n) => n@, Err(_) => "Unavailable"@ },
        r.1 == parts.sample_rate_policy is Ok,
        r.2@ == if !output_present {
            "PipeWire has no AE-5 playback output for a sample-rate change."@
        } else {
            match parts.sample_rate_policy {
                Err(e) => "The live PipeWire sample-rate policy is unavailable: "@ + e@,
                Ok(_) => Seq::empty(),
            }
        },
{
    let (policy, available) = match &parts.sample_rate_policy {
        Ok(name) => (name.clone(), true),
        Err(_) => (owned("Unavailable"), false),
    };
    let block = if !output_present {
        owned("PipeWire has no AE-5 playback output for a sample-rate change.")
    } else {
        match &parts.sample_rate_policy {
            Err(e) => {
                let mut m = owned("The live PipeWire sample-rate policy is unavailable: ");
                push_str(&mut m, e.as_str());
                m
            },
            Ok(_) => String::new(),
        }
    };
    (policy, available, block)
}

/// Puts together the state published for a present card from everything
/// read about it.
#[verifier::spinoff_prover]
pub fn compose_state(device: &Ae5Device, parts: &DeviceStateParts) -> (r: DeviceOutputState)
    ensures
        is_composed_state(r, *device, *parts),
{
    let (issues, specific) = collect_issues(parts);
    let controls = controls_of(parts);
    let count = controls.len();
    let controls_count: u32 = if count <= 4294967295 {
        count as u32
    } else {
        4294967295
    };
    let output = match selected_choice_of(controls, "Output Select") {
        Some(o) => normalize_output(o.as_str()),
        None => owned("Unavailable"),
    };
    let output_available = !str_eq(output.as_str(), "Unavailable");
    let headphone_gain = match selected_choice_of(controls, "AE-5: Headphone Gain") {
        Some(g) => short_choice(g.as_str()),
        None => owned("Unavailable"),
    };
    let headphone_gain_available = !str_eq(headphone_gain.as_str(), "Unavailable");
    let (direct_mode_available, direct_mode) = match find_control_index(controls, DIRECT_MODE_CONTROL) {
        Some(k) => (controls[k].playback_switch.is_some(), controls[k].playback_switch == Some(true)),
        None => (false, false),
    };
    let output_present = match &parts.output_node {
        Ok(Some(_)) => true,
        _ => false,
    };
    let headphone_route_matches = match &parts.route_state {
        Ok(st) => match &st.output_route {
            Some(route) => str_eq(route.as_str(), HEADPHONE_ROUTE),
            None => false,
        },
        Err(_) => false,
    };
    let gain_block = headphone_gain_write_block_reason(
        output.as_str(),
        headphone_gain_available,
        output_present,
        headphone_route_matches,
    );
    let headphone_gain_write_enabled = gain_block.unicode_len() == 0;
    let software_eq = software_eq_summary(&parts.eq_config, &parts.eq_output, output_present, direct_mode);
    let software_running = match &parts.effects_output {
        Ok(Some(_)) => true,
        _ => false,
    };
    let hardware = hardware_effects_summary(
        &parts.hardware_effects_config,
        controls,
        parts.hardware_effects_gate,
        output_present,
        direct_mode,
        software_running,
    );
    let software = software_effects_summary(
        &parts.effects_config,
        &parts.effects_output,
        &parts.effects_runtime_support,
        output_present,
        direct_mode,
        hardware.active,
    );
    let (master_volume, volume_available, muted, mute_available) = node_values(parts);
    let (audio_format, audio_format_available) = audio_format_values(parts);
    let (sample_rate_policy, sample_rate_policy_available, sample_rate_write_block_reason) =
        sample_rate_values(parts, output_present);
    let status_code = match specific {
        Some(s) => s,
        None => if issues.len() == 0 {
            DeviceStatusCode::Ready
        } else {
            DeviceStatusCode::Partial
        },
    };
    let status_message = if issues.len() == 0 {
        owned("Live device state from ae5d.")
    } else {
        join_strings(&issues, " ")
    };
    let output_write_block_reason = match &parts.output_write_block_reason {
        Some(r) => r.clone(),
        None => owned(READ_ONLY_REASON),
    };
    let device_name = match &device.codec_name {
        Some(n) => n.clone(),
        None => owned("Sound BlasterX AE-5"),
    };
    DeviceOutputState {
        schema_version: 6,
        device_name,
        connected: true,
        status_code: owned(status_code.as_str()),
        status_message,
        audio_format,
        audio_format_available,
        sample_rate_policy,
        sample_rate_policy_available,
        sample_rate_write_enabled: output_present && sample_rate_policy_available,
        sample_rate_write_block_reason,
        master_volume,
        volume_available,
        muted,
        mute_available,
        output,
        output_available,
        headphone_gain,
        headphone_gain_available,
        direct_mode,
        direct_mode_available,
        software_eq_state: software_eq.state,
        software_eq_detail: software_eq.detail,
        software_eq_active: software_eq.active,
        eq_apply_available: software_eq.apply_available,
        eq_apply_block_reason: software_eq.apply_block_reason,
        software_effects_state: software.state,
        software_effects_detail: software.detail,
        software_effects_active: software.active,
        software_effects_apply_available: software.apply_available,
        software_effects_apply_block_reason: software.apply_block_reason,
        hardware_effects_state: hardware.state,
        hardware_effects_detail: hardware.detail,
        hardware_effects_active: hardware.active,
        effects_apply_available: hardware.apply_available,
        effects_apply_block_reason: hardware.apply_block_reason,
        hardware_write_enabled: volume_available || mute_available || headphone_gain_write_enabled,
        volume_write_enabled: volume_available,
        mute_write_enabled: mute_available,
        output_write_enabled: false,
        headphone_gain_write_enabled,
        headphone_gain_write_block_reason: gain_block,
        direct_mode_write_enabled: false,
        hardware_write_block_reason: owned(READ_ONLY_REASON),
        output_write_block_reason,
        card_index: device.card_index,
        controls_count,
    }
}

/// The message of a failed card discovery.
pub open spec fn discovery_failure_text(error: Seq<char>) -> Seq<char> {
    "AE-5 discovery failed: "@ + error
}

impl DeviceOutputState {
    /// The state published when discovery finds no usable card: no card, or
    /// a failed discovery recognized by its message.  `None` when a card was
    /// found and the parts read from it are to be composed.
    pub fn capture(discovery: &Result<Option<Ae5Device>, String>) -> (r: Option<Self>)
        ensures
            discovery matches Ok(Some(_)) ==> r is None,
            discovery matches Ok(None) ==> (r matches Some(s) && is_unavailable_state(s, DeviceStatusCode::NoDevice, NO_DEVICE_MESSAGE@)),
            discovery matches Err(e) ==> (r matches Some(s) && is_unavailable_state(
                s,
                match known_error_status(e@) {
                    Some(c) => c,
                    None => DeviceStatusCode::DeviceError,
                },
                discovery_failure_text(e@),
            )),
    {
        match discovery {
            Ok(Some(_)) => None,
            Ok(None) => Some(Self::no_device()),
            Err(e) => {
                let status = match DeviceStatusCode::from_known_error(e.as_str()) {
                    Some(c) => c,
                    None => DeviceStatusCode::DeviceError,
                };
                let mut m = owned("AE-5 discovery failed: ");
                push_str(&mut m, e.as_str());
                Some(Self::unavailable(status, m))
            },
        }
    }
}

/// The software and hardware Effects are never stacked: while hardware
/// OutFX is on, the software fallback cannot be applied, and while a
/// software Effects graph runs, hardware OutFX cannot be applied.
pub proof fn lemma_effects_backends_never_stacked(s: DeviceOutputState, d: Ae5Device, p: DeviceStateParts)
    requires
        is_composed_state(s, d, p),
    ensures
        s.hardware_effects_active ==> !s.software_effects_apply_available,
        p.effects_output matches Ok(Some(_)) ==> !s.effects_apply_available,
{
    reveal_strlit("PipeWire has no AE-5 playback output for software Effects.");
    reveal_strlit("Turn Direct Mode off before applying software Effects.");
    reveal_strlit("Disable hardware OutFX before enabling the software Effects fallback; the two backends are never stacked.");
    reveal_strlit("PipeWire has no AE-5 playback output to pause safely for a hardware Effects transaction.");
    reveal_strlit("Turn Direct Mode off before applying hardware Effects.");
    reveal_strlit("Disable the software Effects fallback before enabling hardware OutFX; the two backends are never stacked.");
}

/// Every published write flag follows its block reason: a write is enabled
/// exactly when nothing blocks it.
pub proof fn lemma_composed_flags_follow_reasons(s: DeviceOutputState, d: Ae5Device, p: DeviceStateParts)
    requires
        is_composed_state(s, d, p),
    ensures
        s.eq_apply_available == (s.eq_apply_block_reason@.len() == 0),
        s.software_effects_apply_available == (s.software_effects_apply_block_reason@.len() == 0),
        s.effects_apply_available == (s.effects_apply_block_reason@.len() == 0),
        s.headphone_gain_write_enabled == (s.headphone_gain_write_block_reason@.len() == 0),
        s.sample_rate_write_enabled == (s.sample_rate_write_block_reason@.len() == 0),
{
    reveal_strlit("PipeWire has no AE-5 playback output for a sample-rate change.");
    reveal_strlit("The live PipeWire sample-rate policy is unavailable: ");
}

/// A ready card reports no issue: its status message is the plain
/// live-state note, and a recognized failure is never reported as ready.
pub proof fn lemma_ready_means_no_issue(s: DeviceOutputState, d: Ae5Device, p: DeviceStateParts)
    requires
        is_composed_state(s, d, p),
        s.status_code@ == "ready"@,
    ensures
        state_issues(p).len() == 0,
        specific_status(p) is None,
        s.status_message@ == "Live device state from ae5d."@,
{
    reveal_strlit("ready");
    lemma_status_codes_distinct(composed_status(p), DeviceStatusCode::Ready);
}

} // verus!

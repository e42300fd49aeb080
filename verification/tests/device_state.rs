use ae5_control::controls::{ChannelLevel, ControlSnapshot, DIRECT_MODE_CONTROL, HARDWARE_OUTFX_CONTROL};
use ae5_control::device::Ae5Device;
use ae5_control::device_state::{
    compose_state, format_audio_format, headphone_gain_write_block_reason, normalize_output,
    short_choice, AudioFormat, DeviceOutputState, DeviceStateParts, DeviceStatusCode,
    EqSummaryConfig, PipeWireNode, PipeWireRouteState, SoftwareGraphOutput, READ_ONLY_REASON,
};
use ae5_control::effects_chain::EffectsChainConfig;
use ae5_control::hardware_effects::HardwareEffectsConfig;
use ae5_control::sound_objects::EffectsProfileEntry;

fn device() -> Ae5Device {
    Ae5Device {
        card_index: 1,
        alsa_name: "HDA Creative".to_owned(),
        alsa_long_name: "HDA Creative at test".to_owned(),
        codec_name: Some("Creative Sound BlasterX AE-5".to_owned()),
        vendor_id: 0x1102,
        device_id: 0x0012,
        subsystem_vendor_id: 0x1102,
        subsystem_device_id: 0x0051,
    }
}

fn choice(name: &str, selected: &str) -> ControlSnapshot {
    ControlSnapshot {
        name: name.to_owned(),
        selected: Some(selected.to_owned()),
        choices: vec![selected.to_owned()],
        playback_switch: None,
        capture_switch: None,
        playback_level: None,
        capture_level: None,
        playback_channels: Vec::<ChannelLevel>::new(),
        capture_channels: Vec::<ChannelLevel>::new(),
    }
}

fn switch(name: &str, enabled: bool) -> ControlSnapshot {
    ControlSnapshot {
        name: name.to_owned(),
        selected: None,
        choices: Vec::new(),
        playback_switch: Some(enabled),
        capture_switch: None,
        playback_level: None,
        capture_level: None,
        playback_channels: Vec::new(),
        capture_channels: Vec::new(),
    }
}

fn controls() -> Vec<ControlSnapshot> {
    vec![
        choice("Output Select", "Headphone"),
        choice("AE-5: Headphone Gain", "Medium (32-149 Ohms)"),
        switch(DIRECT_MODE_CONTROL, false),
        switch("Enable OutFX", false),
    ]
}

fn node() -> PipeWireNode {
    PipeWireNode {
        id: 68,
        node_name: "alsa_output.ae5".to_owned(),
        description: "AE-5 Analog Stereo".to_owned(),
        is_default: true,
        volume_percent: Some(20),
        muted: Some(false),
    }
}

fn healthy_parts() -> DeviceStateParts {
    DeviceStateParts {
        controls: Ok(controls()),
        output_node: Ok(Some(node())),
        route_state: Ok(PipeWireRouteState {
            profile_set: Some("sound-blaster-ae5.conf".to_owned()),
            soft_mixer: Some(true),
            ignore_db: Some(true),
            persistent_playback: Some(true),
            active_profile: Some("output:analog-stereo+input:analog-stereo".to_owned()),
            input_route: Some("sound-blaster-ae5-input-microphone".to_owned()),
            output_route: Some("sound-blaster-ae5-output-headphones".to_owned()),
        }),
        audio_format: Ok(Some(AudioFormat {
            sample_format: "S16LE".to_owned(),
            sample_rate: 96_000,
        })),
        sample_rate_policy: Ok("96 kHz".to_owned()),
        eq_config: Ok(EqSummaryConfig {
            enabled: false,
            signature: None,
            legacy_preamp: None,
        }),
        eq_output: Ok(None),
        effects_config: Ok(EffectsChainConfig {
            path: "/tmp/ae5-test-effects".to_owned(),
            enabled: false,
            target_node: None,
            profile: None,
        }),
        effects_output: Ok(None),
        effects_runtime_support: Ok(()),
        hardware_effects_config: Ok(HardwareEffectsConfig {
            path: "/tmp/ae5-test-hardware-effects".to_owned(),
            profile: None,
        }),
        hardware_effects_gate: true,
        output_write_block_reason: None,
    }
}

fn profile(name: &str) -> EffectsProfileEntry {
    EffectsProfileEntry {
        id: "effects:test".to_owned(),
        name: name.to_owned(),
        source: "Test".to_owned(),
        read_only: false,
        outfx_enabled: true,
        surround_available: false,
        surround_enabled: false,
        surround_level: 0,
        crystalizer_available: false,
        crystalizer_enabled: false,
        crystalizer_level: 0,
        bass_available: false,
        bass_enabled: false,
        bass_level: 0,
        smart_volume_available: false,
        smart_volume_enabled: false,
        smart_volume_level: 0,
        smart_volume_mode: "Normal".to_owned(),
        dialog_available: false,
        dialog_enabled: false,
        dialog_level: 0,
    }
}

fn set_switch(parts: &mut DeviceStateParts, name: &str, enabled: bool) {
    parts
        .controls
        .as_mut()
        .unwrap()
        .iter_mut()
        .find(|control| control.name == name)
        .unwrap()
        .playback_switch = Some(enabled);
}

#[test]
fn no_device_state_disables_every_hardware_value() {
    let state = DeviceOutputState::no_device();
    assert_eq!(
        (
            state.connected,
            state.status_code.as_str(),
            state.output_available,
            state.volume_available,
            state.headphone_gain_available,
        ),
        (false, "no-device", false, false, false)
    );
}

#[test]
fn compose_state_maps_live_hardware_values() {
    let state = compose_state(&device(), &healthy_parts());
    assert_eq!(
        (
            state.status_code.as_str(),
            state.output.as_str(),
            state.headphone_gain.as_str(),
            state.master_volume,
            state.muted,
            state.audio_format.as_str(),
            state.sample_rate_policy.as_str(),
            state.sample_rate_write_enabled,
            state.volume_write_enabled,
            state.mute_write_enabled,
            state.software_eq_state.as_str(),
            state.eq_apply_available,
        ),
        (
            "ready",
            "Headphones",
            "Medium",
            20,
            false,
            "S16LE · 96 kHz",
            "96 kHz",
            true,
            true,
            true,
            "inactive",
            true,
        )
    );
    assert_eq!(
        (
            state.software_effects_state.as_str(),
            state.software_effects_apply_available,
            state.hardware_effects_state.as_str(),
            state.effects_apply_available,
        ),
        ("inactive", true, "inactive", true)
    );
}

#[test]
fn headphone_gain_write_is_available_only_on_the_live_headphone_path() {
    assert_eq!(
        headphone_gain_write_block_reason("Headphones", true, true, true),
        ""
    );
}

#[test]
fn headphone_gain_write_explains_a_non_headphone_output() {
    assert_eq!(
        headphone_gain_write_block_reason("Speakers", true, true, false),
        "Select Headphones before changing headphone gain."
    );
}

#[test]
fn headphone_gain_write_requires_a_live_pipewire_output() {
    assert_eq!(
        headphone_gain_write_block_reason("Headphones", true, false, false),
        "PipeWire has no AE-5 playback output to pause for a gain change."
    );
}

#[test]
fn headphone_gain_write_requires_matching_pipewire_and_alsa_routes() {
    assert_eq!(
        headphone_gain_write_block_reason("Headphones", true, true, false),
        "The PipeWire and ALSA headphone routes must match before changing gain."
    );
}

#[test]
fn compose_state_allows_software_eq_while_outfx_is_active() {
    let mut parts = healthy_parts();
    set_switch(&mut parts, "Enable OutFX", true);

    let state = compose_state(&device(), &parts);

    assert_eq!(
        (
            state.eq_apply_available,
            state.eq_apply_block_reason.as_str(),
        ),
        (true, "")
    );
}

#[test]
fn compose_state_reports_the_verified_runtime_equalizer() {
    let mut parts = healthy_parts();
    let signature = "direct-filter-v2 alsa_output.ae5".to_owned();
    parts.eq_output = Ok(Some(SoftwareGraphOutput {
        signature: Some(signature.clone()),
    }));
    parts.eq_config = Ok(EqSummaryConfig {
        enabled: true,
        signature: Some(signature),
        legacy_preamp: None,
    });

    let state = compose_state(&device(), &parts);

    assert_eq!(
        (
            state.software_eq_state.as_str(),
            state.software_eq_active,
            state.eq_apply_available,
        ),
        ("current", true, true)
    );
}

#[test]
fn compose_state_reports_verified_hardware_effects() {
    let mut parts = healthy_parts();
    set_switch(&mut parts, HARDWARE_OUTFX_CONTROL, true);
    parts.hardware_effects_config = Ok(HardwareEffectsConfig {
        path: "/tmp/ae5-test-hardware-effects".to_owned(),
        profile: Some(profile("Hardware")),
    });

    let state = compose_state(&device(), &parts);

    assert_eq!(
        (
            state.hardware_effects_state.as_str(),
            state.hardware_effects_active,
            state.effects_apply_available,
        ),
        ("current", true, true)
    );
    assert!(!state.software_effects_apply_available);
    assert_eq!(
        state.hardware_effects_detail,
        "Hardware OutFX is active and verified against the saved 'Hardware' profile."
    );
}

#[test]
fn compose_state_reports_verified_software_effects_without_hardware_outfx() {
    let mut parts = healthy_parts();
    let mut software = profile("Test");
    software.surround_available = true;
    software.surround_enabled = true;
    software.surround_level = 35;
    let config = EffectsChainConfig {
        path: "/tmp/ae5-test-effects".to_owned(),
        enabled: true,
        target_node: Some(node().node_name),
        profile: Some(software),
    };
    parts.effects_output = Ok(Some(SoftwareGraphOutput {
        signature: config.signature(),
    }));
    parts.effects_config = Ok(config);

    let state = compose_state(&device(), &parts);

    assert_eq!(
        (
            state.software_effects_state.as_str(),
            state.software_effects_active,
            state.software_effects_apply_available,
        ),
        ("current", true, true)
    );
    assert!(!state.effects_apply_available);
    assert!(state
        .effects_apply_block_reason
        .contains("software Effects fallback"));
}

#[test]
fn compose_state_reports_pipewire_failure_as_partial() {
    let mut parts = healthy_parts();
    parts.output_node = Err("wpctl unavailable".to_owned());
    let state = compose_state(&device(), &parts);
    assert_eq!(
        (
            state.connected,
            state.status_code.as_str(),
            state.volume_available,
            state.mute_available,
        ),
        (true, "partial", false, false)
    );
    assert_eq!(
        state.status_message,
        "PipeWire playback state unavailable: wpctl unavailable."
    );
}

#[test]
fn compose_state_treats_an_idle_pcm_as_healthy() {
    let mut parts = healthy_parts();
    parts.audio_format = Ok(None);

    let state = compose_state(&device(), &parts);

    assert_eq!(
        (
            state.status_code.as_str(),
            state.audio_format.as_str(),
            state.audio_format_available,
        ),
        ("ready", "Idle", false)
    );
}

#[test]
fn classifies_user_actionable_device_failures() {
    assert_eq!(
        DeviceStatusCode::from_known_error("Permission denied opening hw:1"),
        Some(DeviceStatusCode::PermissionDenied)
    );
    assert_eq!(
        DeviceStatusCode::from_known_error("Device or resource busy"),
        Some(DeviceStatusCode::DeviceBusy)
    );
    assert_eq!(
        DeviceStatusCode::from_known_error("DSP firmware file is missing"),
        Some(DeviceStatusCode::FirmwareMissing)
    );
    assert_eq!(
        DeviceStatusCode::from_known_error("wpctl unavailable"),
        None
    );
}

#[test]
fn compose_state_promotes_permission_failures_above_partial() {
    let mut parts = healthy_parts();
    parts.controls = Err("Permission denied opening ALSA controls".to_owned());

    let state = compose_state(&device(), &parts);

    assert_eq!(state.status_code, "permission-denied");
    assert!(state.connected);
    assert!(!state.output_available);
    assert!(state.status_message.contains("Permission denied"));
}

#[test]
fn unavailable_state_explains_why_every_write_is_blocked() {
    let state = DeviceOutputState::unavailable(
        DeviceStatusCode::FirmwareMissing,
        "Required CA0132 firmware is missing.".to_owned(),
    );

    assert_eq!(state.status_code, "firmware-missing");
    assert_eq!(
        state.hardware_write_block_reason,
        "Required CA0132 firmware is missing."
    );
    assert_eq!(
        state.eq_apply_block_reason,
        "Required CA0132 firmware is missing."
    );
    assert!(!state.hardware_write_enabled);
}

#[test]
fn compose_state_keeps_kernel_write_block_reason() {
    let mut parts = healthy_parts();
    parts.output_write_block_reason = Some("qualified kernel required".to_owned());
    let state = compose_state(&device(), &parts);
    assert_eq!(state.output_write_block_reason, "qualified kernel required");
    assert_eq!(state.hardware_write_block_reason, READ_ONLY_REASON);
}

#[test]
fn capture_reports_absent_or_failed_discovery() {
    assert_eq!(DeviceOutputState::capture(&Ok(Some(device()))), None);
    let absent = DeviceOutputState::capture(&Ok(None)).unwrap();
    assert_eq!(absent, DeviceOutputState::no_device());
    let failed = DeviceOutputState::capture(&Err("Device or resource busy".to_owned())).unwrap();
    assert_eq!(failed.status_code, "device-busy");
    assert_eq!(
        failed.status_message,
        "AE-5 discovery failed: Device or resource busy"
    );
    let unknown = DeviceOutputState::capture(&Err("odd".to_owned())).unwrap();
    assert_eq!(unknown.status_code, "device-error");
}

#[test]
fn status_codes_round_trip_and_name_themselves() {
    for code in [
        DeviceStatusCode::Ready,
        DeviceStatusCode::Partial,
        DeviceStatusCode::NoDevice,
        DeviceStatusCode::FirmwareMissing,
        DeviceStatusCode::PermissionDenied,
        DeviceStatusCode::DeviceBusy,
        DeviceStatusCode::WriteFailed,
        DeviceStatusCode::DaemonUnavailable,
        DeviceStatusCode::Connecting,
        DeviceStatusCode::DeviceError,
    ] {
        assert_eq!(DeviceStatusCode::from_code(code.as_str()), code);
    }
    assert_eq!(DeviceStatusCode::from_code("whatever"), DeviceStatusCode::DeviceError);
    assert_eq!(DeviceStatusCode::Partial.display_name(), "Partial capabilities");
}

#[test]
fn formats_outputs_choices_and_stream_formats() {
    assert_eq!(normalize_output("Headphone"), "Headphones");
    assert_eq!(normalize_output("Speakers"), "Speakers");
    assert_eq!(short_choice("High (150-600 Ohms)"), "High");
    assert_eq!(short_choice("Low"), "Low");
    assert_eq!(
        format_audio_format(&AudioFormat {
            sample_format: "S32LE".to_owned(),
            sample_rate: 44_100,
        }),
        "S32LE · 44100 Hz"
    );
}

#[test]
fn a_legacy_preamp_is_named_in_the_equalizer_detail() {
    let mut parts = healthy_parts();
    parts.eq_config = Ok(EqSummaryConfig {
        enabled: true,
        signature: Some("sig".to_owned()),
        legacy_preamp: Some("-3.50".to_owned()),
    });
    let state = compose_state(&device(), &parts);
    assert_eq!(state.software_eq_state, "configured");
    assert_eq!(
        state.software_eq_detail,
        "A software EQ is saved but not active in this PipeWire session. Legacy -3.50 dB preamp remains saved; apply the preset again to remove it."
    );
}

#[test]
fn direct_mode_blocks_every_processing_backend() {
    let mut parts = healthy_parts();
    set_switch(&mut parts, DIRECT_MODE_CONTROL, true);
    let state = compose_state(&device(), &parts);
    assert!(state.direct_mode);
    assert_eq!(state.eq_apply_block_reason, "Turn Direct Mode off before applying software EQ.");
    assert_eq!(
        state.effects_apply_block_reason,
        "Turn Direct Mode off before applying hardware Effects."
    );
    assert_eq!(
        state.software_effects_apply_block_reason,
        "Turn Direct Mode off before applying software Effects."
    );
}

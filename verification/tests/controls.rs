use ae5_control::controls::{
    capture_control_block_reason, choice_index, direct_mode_block_reason,
    equalizer_band_block_reason, front_vmaster_clamp_warning, headphone_playback_issue,
    invalid_bass_state_reason, is_high_headphone_gain, playback_switch_block_reason,
    smart_volume_level_block_reason, unsafe_playback_control_block_reason, validate_range,
    ChannelLevel, ControlSnapshot, DecibelRange, Level, DIRECT_MODE_CONTROL,
    DIRECT_MODE_DSP_BLOCK, EQUALIZER_BAND_EDIT_BLOCK, EQUALIZER_PRESET_CONTROL,
    FIXED_SMART_VOLUME_LEVEL, INEFFECTIVE_WHAT_U_HEAR_CONTROL, MUTED_HEADPHONE_MASTER,
    MUTED_HEADPHONE_PLAYBACK, UNSAFE_DIRECT_MODE, UNSAFE_HARDWARE_OUTFX,
    UNSAFE_OUTPUT_ROUTE_TRANSITION, UNVERIFIED_HEADPHONE_MASTER, UNVERIFIED_HEADPHONE_PLAYBACK,
};

fn playback_switch(name: &str, enabled: bool) -> ControlSnapshot {
    ControlSnapshot {
        name: name.to_owned(),
        selected: None,
        choices: Vec::new(),
        playback_switch: Some(enabled),
        capture_switch: None,
        playback_level: None,
        capture_level: None,
        playback_channels: Vec::new(),
        capture_channels: Vec::new(),
    }
}

fn capture_switch(name: &str, enabled: bool) -> ControlSnapshot {
    ControlSnapshot {
        name: name.to_owned(),
        selected: None,
        choices: Vec::new(),
        playback_switch: None,
        capture_switch: Some(enabled),
        playback_level: None,
        capture_level: None,
        playback_channels: Vec::new(),
        capture_channels: Vec::new(),
    }
}

fn selected_choice(name: &str, selected: &str) -> ControlSnapshot {
    ControlSnapshot {
        name: name.to_owned(),
        selected: Some(selected.to_owned()),
        choices: vec![selected.to_owned()],
        playback_switch: None,
        capture_switch: None,
        playback_level: None,
        capture_level: None,
        playback_channels: Vec::new(),
        capture_channels: Vec::new(),
    }
}

fn playback_level(name: &str, value: i64, min: i64, max: i64) -> ControlSnapshot {
    ControlSnapshot {
        name: name.to_owned(),
        selected: None,
        choices: Vec::new(),
        playback_switch: None,
        capture_switch: None,
        playback_level: Some(Level {
            value,
            min,
            max,
            db: None,
        }),
        capture_level: None,
        playback_channels: Vec::new(),
        capture_channels: Vec::new(),
    }
}

#[test]
fn formats_a_compound_control_readably() {
    let control = ControlSnapshot {
        name: "FX: Crystalizer".to_owned(),
        selected: None,
        choices: Vec::new(),
        playback_switch: Some(true),
        capture_switch: None,
        playback_level: Some(Level {
            value: 65,
            min: 0,
            max: 100,
            db: None,
        }),
        capture_level: None,
        playback_channels: vec![ChannelLevel {
            name: "Front Left".to_owned(),
            value: 65,
        }],
        capture_channels: Vec::new(),
    };

    assert_eq!(
        control.display_text(),
        "FX: Crystalizer | playback on | playback level 65 [0..100]"
    );
}

#[test]
fn formats_the_live_alsa_db_mapping() {
    let control = ControlSnapshot {
        name: "EQ Band0".to_owned(),
        selected: None,
        choices: Vec::new(),
        playback_switch: None,
        capture_switch: None,
        playback_level: Some(Level {
            value: 24,
            min: 0,
            max: 48,
            db: Some(DecibelRange {
                min: -2400,
                max: 2400,
                step: 100,
            }),
        }),
        capture_level: None,
        playback_channels: Vec::new(),
        capture_channels: Vec::new(),
    };

    assert_eq!(
        control.display_text(),
        "EQ Band0 | playback level 24 [0..48] | playback dB -24.00 dB..+24.00 dB (+1.00 dB step)"
    );
}

#[test]
fn validates_choices_and_ranges_before_hardware_writes() {
    let choices = vec!["Speakers".to_owned(), "Headphone".to_owned()];
    assert_eq!(choice_index(&choices, "headphone"), Some(1));
    assert_eq!(choice_index(&choices, "HDMI"), None);
    assert!(is_high_headphone_gain(
        "AE-5: Headphone Gain",
        "High (150-600 Ohms)"
    ));
    assert!(!is_high_headphone_gain(
        "AE-5: Headphone Gain",
        "Medium (32-149 Ohms)"
    ));
    assert!(validate_range("Level", 50, 0, 100).is_ok());
    assert!(validate_range("Level", 101, 0, 100).is_err());
}

#[test]
fn rejects_incompatible_bass_management_and_blocks_hardware_xbass() {
    let controls = vec![
        playback_switch("FX: X-Bass", true),
        playback_switch("Bass Redirection", false),
        selected_choice("Surround Channel Config", "5.1"),
        selected_choice("Output Select", "Speakers"),
    ];

    assert_eq!(
        playback_switch_block_reason("Bass Redirection", true, &controls),
        Some("Turn off X-Bass before enabling speaker bass redirection.")
    );
    assert_eq!(
        playback_switch_block_reason("FX: X-Bass", false, &controls),
        Some(UNSAFE_HARDWARE_OUTFX)
    );
    assert_eq!(
        invalid_bass_state_reason(&controls),
        Some("X-Bass is unavailable for speaker layouts with an LFE channel.")
    );

    let controls = vec![
        playback_switch("FX: X-Bass", false),
        playback_switch("Bass Redirection", false),
        selected_choice("Surround Channel Config", "2.0"),
        selected_choice("Output Select", "Speakers"),
    ];
    assert_eq!(
        playback_switch_block_reason("Bass Redirection", true, &controls),
        Some("Select a 2.1, 4.1, or 5.1 speaker layout first.")
    );

    let controls = vec![
        playback_switch("FX: X-Bass", false),
        playback_switch("Bass Redirection", false),
        selected_choice("Surround Channel Config", "5.1"),
        selected_choice("Output Select", "Headphone"),
    ];
    assert_eq!(
        playback_switch_block_reason("Bass Redirection", true, &controls),
        Some("Select Speakers output before enabling bass redirection.")
    );
    assert_eq!(
        playback_switch_block_reason("FX: X-Bass", true, &controls),
        Some(UNSAFE_HARDWARE_OUTFX)
    );
}

#[test]
fn blocks_custom_eq_bands_until_the_factory_preset_is_flat() {
    let mut controls = vec![selected_choice(EQUALIZER_PRESET_CONTROL, "Acoustic")];
    assert_eq!(
        equalizer_band_block_reason("EQ Band0", &controls),
        Some(EQUALIZER_BAND_EDIT_BLOCK)
    );
    assert_eq!(equalizer_band_block_reason("Front", &controls), None);

    controls[0].selected = Some("Flat".to_owned());
    assert_eq!(equalizer_band_block_reason("EQ Band9", &controls), None);
}

#[test]
fn exposes_the_smart_volume_level_only_in_normal_mode() {
    let mut controls = vec![selected_choice("FX: Smart Volume Setting", "Normal")];
    assert_eq!(
        smart_volume_level_block_reason("FX: Smart Volume", &controls),
        None
    );

    controls[0].selected = Some("Loud".to_owned());
    assert_eq!(
        smart_volume_level_block_reason("FX: Smart Volume", &controls),
        Some(FIXED_SMART_VOLUME_LEVEL)
    );

    controls[0].selected = Some("Night".to_owned());
    assert_eq!(
        smart_volume_level_block_reason("FX: Smart Volume", &controls),
        Some(FIXED_SMART_VOLUME_LEVEL)
    );
    assert_eq!(
        smart_volume_level_block_reason("FX: Crystalizer", &controls),
        None
    );
    assert_eq!(
        smart_volume_level_block_reason("FX: Smart Volume", &[]),
        None
    );
}

#[test]
fn marks_only_dsp_playback_controls_unavailable_in_direct_mode() {
    let controls = vec![
        playback_switch(DIRECT_MODE_CONTROL, true),
        playback_switch("FX: Surround", false),
        playback_switch("FX: X-Bass", true),
        playback_switch("Bass Redirection", false),
        capture_switch("FX: Noise Reduction", true),
        selected_choice("Surround Channel Config", "2.0"),
        selected_choice("Output Select", "Headphone"),
    ];

    assert_eq!(
        direct_mode_block_reason("FX: Surround", &controls),
        Some(DIRECT_MODE_DSP_BLOCK)
    );
    assert_eq!(
        playback_switch_block_reason("FX: Surround", true, &controls),
        Some(UNSAFE_HARDWARE_OUTFX)
    );
    assert_eq!(
        playback_switch_block_reason("FX: Surround", false, &controls),
        Some(UNSAFE_HARDWARE_OUTFX)
    );
    assert_eq!(
        playback_switch_block_reason("FX: X-Bass", true, &controls),
        Some(UNSAFE_HARDWARE_OUTFX)
    );
    assert_eq!(invalid_bass_state_reason(&controls), None);
    assert_eq!(
        equalizer_band_block_reason("EQ Band0", &controls),
        Some(DIRECT_MODE_DSP_BLOCK)
    );
    assert_eq!(
        direct_mode_block_reason("Surround Channel Config", &controls),
        Some(DIRECT_MODE_DSP_BLOCK)
    );
    assert_eq!(
        direct_mode_block_reason("FX: Noise Reduction", &controls),
        None
    );
    assert_eq!(direct_mode_block_reason("VoiceFX", &controls), None);
    assert_eq!(
        direct_mode_block_reason("AE-5: Sound Filter", &controls),
        None
    );
    assert_eq!(
        direct_mode_block_reason("AE-5: Headphone Gain", &controls),
        None
    );
    assert_eq!(direct_mode_block_reason("Output Select", &controls), None);
    assert_eq!(
        direct_mode_block_reason("PCM", &controls),
        Some(DIRECT_MODE_DSP_BLOCK)
    );
    assert_eq!(
        direct_mode_block_reason(DIRECT_MODE_CONTROL, &controls),
        None
    );
}

#[test]
fn blocks_unsafe_ae5_route_transitions_in_both_directions() {
    for enabled in [false, true] {
        assert_eq!(
            playback_switch_block_reason("Enable OutFX", enabled, &[]),
            Some(UNSAFE_HARDWARE_OUTFX)
        );
        assert_eq!(
            playback_switch_block_reason(DIRECT_MODE_CONTROL, enabled, &[]),
            Some(UNSAFE_DIRECT_MODE)
        );
    }
    assert_eq!(
        unsafe_playback_control_block_reason("Output Select"),
        Some(UNSAFE_OUTPUT_ROUTE_TRANSITION)
    );
    assert_eq!(
        unsafe_playback_control_block_reason("Surround Channel Config"),
        Some(UNSAFE_OUTPUT_ROUTE_TRANSITION)
    );
    assert_eq!(
        unsafe_playback_control_block_reason("AE-5: Headphone Gain"),
        None
    );
}

#[test]
fn blocks_only_the_ineffective_what_u_hear_capture_control() {
    assert_eq!(
        capture_control_block_reason("What U Hear"),
        Some(INEFFECTIVE_WHAT_U_HEAR_CONTROL)
    );
    assert_eq!(capture_control_block_reason("Capture"), None);
}

#[test]
fn detects_a_muted_or_unverifiable_headphone_dac() {
    let mut controls = vec![
        selected_choice("Output Select", "Headphone"),
        playback_switch("Master", true),
        playback_switch("Front", true),
    ];
    assert_eq!(headphone_playback_issue(&controls), None);

    controls[2].playback_switch = Some(false);
    assert_eq!(
        headphone_playback_issue(&controls),
        Some(MUTED_HEADPHONE_PLAYBACK)
    );

    controls[2].playback_switch = Some(true);
    controls[1].playback_switch = Some(false);
    assert_eq!(
        headphone_playback_issue(&controls),
        Some(MUTED_HEADPHONE_MASTER)
    );

    controls.remove(1);
    assert_eq!(
        headphone_playback_issue(&controls),
        Some(UNVERIFIED_HEADPHONE_MASTER)
    );

    controls.pop();
    assert_eq!(
        headphone_playback_issue(&controls),
        Some(UNVERIFIED_HEADPHONE_MASTER)
    );

    controls[0].selected = Some("Speakers".to_owned());
    assert_eq!(headphone_playback_issue(&controls), None);

    controls[0].selected = Some("Headphone".to_owned());
    controls.push(playback_switch("Master", true));
    controls.push(playback_switch("Front", false));
    controls.push(playback_switch(DIRECT_MODE_CONTROL, true));
    assert_eq!(headphone_playback_issue(&controls), None);

    controls.pop();
    controls.pop();
    controls.push(playback_switch("Front", true));
    controls.pop();
    assert_eq!(
        headphone_playback_issue(&controls),
        Some(UNVERIFIED_HEADPHONE_PLAYBACK)
    );
}

#[test]
fn explains_when_virtual_master_changes_are_clamped_by_front() {
    let mut controls = vec![
        playback_level("Master", 19, 0, 99),
        playback_level("Front", 19, 0, 99),
    ];
    assert_eq!(
        front_vmaster_clamp_warning(&controls),
        Some(
            "ALSA's virtual Master and Front attenuations stack: effective Front is 0/99 \
             (19 + 19 − 99). Master changes remain at the floor through 80/99 while Front \
             stays at 19/99."
                .to_owned()
        )
    );

    controls[0].playback_level.as_mut().unwrap().value = 81;
    assert_eq!(front_vmaster_clamp_warning(&controls), None);
    controls[0].playback_level.as_mut().unwrap().value = 99;
    controls[1].playback_level.as_mut().unwrap().value = 0;
    assert_eq!(
        front_vmaster_clamp_warning(&controls),
        Some(
            "ALSA's virtual Master and Front attenuations stack: effective Front is 0/99 \
             (99 + 0 − 99). Master cannot raise effective Front until the Front level changes."
                .to_owned()
        )
    );
}

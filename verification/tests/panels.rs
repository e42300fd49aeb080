use ae5_control::controls::{ControlSnapshot, Level, MUTED_HEADPHONE_MASTER, MUTED_HEADPHONE_PLAYBACK};
use ae5_control::device_state::{PipeWireNode, PipeWireRouteState};
use ae5_control::feature_parity::{compatibility_summary, feature_parity, FeatureSupport};
use ae5_control::device::Ae5Device;
use ae5_control::panels::{
    capability_summary, device_identity_lines, effect_card_title, range_health,
    route_repair_message, driver_range_warnings, hardware_level_label, kernel_readiness_summary, migration_preview,
    native_rates_summary, operation_status_for_refresh, pipewire_node_summary,
    report_preview_section, route_health_summary, KernelReadiness, NativeRatesConfig,
    OperationStatus, SbCommandImportReport,
};

// The compatibility matrix is a data file of the application; this table
// has its header and rows of every status.
const FEATURE_TABLE: &str = "Area\tFeature\tStatus\tLinux mechanism\tCurrent evidence\tRemaining gate\tSource\n\
Playback\tOutput selection\tverified\tALSA Output Select\tHardware readback\tNone\tCommand 3.5\n\
Playback\tHeadphone gain\tverified\tALSA Headphone Gain\tHardware readback\tNone\tCommand 3.5\n\
Effects\tSurround\tintentionally substituted\tLADSPA matrix spatialiser\tGraph render\tListening test\tCommand 3.5\n\
Lighting\tOnboard LEDs\tdeferred\tsysfs multicolor LEDs\tDriver patch\tUpstream driver\tCommand 3.5\n\
Recording\tWhat U Hear\tunsupported\tNone\tDSP loopback bypass\tDriver support\tCommand 3.5\n";

fn check_compatibility_summary() {
    let features = feature_parity(FEATURE_TABLE);
    let summary = compatibility_summary(&features);
    assert!(summary.contains(&format!("{} tracked features", features.len())));
    for (label, support) in [
        ("Verified", FeatureSupport::Verified),
        ("Linux-native equivalents", FeatureSupport::Substituted),
        ("Pending acceptance", FeatureSupport::Deferred),
        ("Unavailable", FeatureSupport::Unsupported),
    ] {
        let count = features
            .iter()
            .filter(|feature| feature.support == support)
            .count();
        assert!(summary.contains(&format!("{label}: {count}")));
    }
}

#[test]
fn compatibility_page_summarizes_the_embedded_matrix() {
    check_compatibility_summary();
}

#[test]
fn compatibility_compatibility_page_summarizes_the_embedded_matrix() {
    check_compatibility_summary();
}

#[test]
fn compatibility_summary_has_an_exact_layout() {
    let features = feature_parity(FEATURE_TABLE);
    assert_eq!(
        compatibility_summary(&features),
        "5 tracked features\nVerified: 2\nLinux-native equivalents: 1\nPending acceptance: 1\nUnavailable: 1"
    );
}

#[test]
fn labels_the_fixed_hardware_stage_as_zero_db() {
    assert_eq!(
        hardware_level_label(&Level {
            value: 99,
            min: 0,
            max: 99,
            db: None,
        }),
        "0 dB"
    );
    assert_eq!(
        hardware_level_label(&Level {
            value: 19,
            min: 0,
            max: 99,
            db: None,
        }),
        "19/99 raw"
    );
}

#[test]
fn summarizes_pipewire_default_state() {
    let node = PipeWireNode {
        id: 58,
        node_name: "alsa_output.pci-ae5.analog-stereo".to_owned(),
        description: "AE-5 Analog Stereo".to_owned(),
        is_default: true,
        volume_percent: Some(43),
        muted: None,
    };

    assert_eq!(
        pipewire_node_summary(&node),
        "AE-5 Analog Stereo\nalsa_output.pci-ae5.analog-stereo — currently default\n\
         PipeWire node volume: 43%\nWith the installed AE-5 soft-mixer profile, this is \
         software attenuation and does not rewrite Master, Front, or PCM."
    );
}

#[test]
fn a_node_without_volume_says_so() {
    let node = PipeWireNode {
        id: 7,
        node_name: "n".to_owned(),
        description: "d".to_owned(),
        is_default: false,
        volume_percent: None,
        muted: None,
    };
    assert_eq!(
        pipewire_node_summary(&node),
        "d\nn — not default\nPipeWire node volume unavailable"
    );
}

fn snapshot(name: &str, selected: Option<&str>, playback_switch: Option<bool>) -> ControlSnapshot {
    ControlSnapshot {
        name: name.to_owned(),
        selected: selected.map(str::to_owned),
        choices: Vec::new(),
        playback_switch,
        capture_switch: None,
        playback_level: None,
        capture_level: None,
        playback_channels: Vec::new(),
        capture_channels: Vec::new(),
    }
}

fn matched_state() -> PipeWireRouteState {
    PipeWireRouteState {
        profile_set: Some("sound-blaster-ae5.conf".to_owned()),
        soft_mixer: Some(true),
        ignore_db: Some(true),
        persistent_playback: None,
        active_profile: Some("output:analog-stereo+input:analog-stereo".to_owned()),
        input_route: Some("sound-blaster-ae5-input-microphone".to_owned()),
        output_route: Some("sound-blaster-ae5-output-headphones;output-headphones".to_owned()),
    }
}

// The PipeWire layer's verdicts on the routes are handed in as text; these
// are the ones it gives for a desktop route that differs from ALSA's.
const SPLIT_OUTPUT: &str =
    "PipeWire output route does not match ALSA Output Select; reapply the output choice.";
const SPLIT_INPUT: &str =
    "PipeWire input route does not match ALSA Input Source; reapply the input choice.";

#[test]
fn reports_matched_and_split_desktop_routes() {
    let mut controls = vec![
        snapshot("Output Select", Some("Headphone"), None),
        snapshot("Input Source", Some("Microphone"), None),
        snapshot("Surround Channel Config", Some("2.0"), None),
        snapshot("Master", None, Some(true)),
        snapshot("Front", None, Some(true)),
    ];
    let mut state = matched_state();

    let (summary, healthy) = route_health_summary(&controls, &Ok(state.clone()), None, None);
    assert!(healthy);
    assert!(summary.contains("Matched\nALSA output: Headphone"));
    assert!(summary.contains("ALSA input: Microphone"));
    assert!(summary.contains("sound-blaster-ae5.conf"));

    state.output_route = Some("analog-output-lineout;output-speaker".to_owned());
    let (summary, healthy) =
        route_health_summary(&controls, &Ok(state.clone()), Some(SPLIT_OUTPUT), None);
    assert!(!healthy);
    assert!(summary.contains("Needs attention"));
    assert!(summary.contains("reapply the output choice"));

    state.output_route = Some("sound-blaster-ae5-output-headphones;output-headphones".to_owned());
    state.input_route = Some("sound-blaster-ae5-input-line-in".to_owned());
    let (summary, healthy) = route_health_summary(&controls, &Ok(state), None, Some(SPLIT_INPUT));
    assert!(!healthy);
    assert!(summary.contains("reapply the input choice"));

    controls[4].playback_switch = Some(false);
    let (summary, healthy) = route_health_summary(&controls, &Ok(matched_state()), None, None);
    assert!(!healthy);
    assert!(summary.contains("Front playback is muted"));
    assert!(summary.contains(MUTED_HEADPHONE_PLAYBACK));

    controls[4].playback_switch = Some(true);
    controls[3].playback_switch = Some(false);
    let (summary, healthy) = route_health_summary(&controls, &Ok(matched_state()), None, None);
    assert!(!healthy);
    assert!(summary.contains("hardware Master playback is muted"));
    assert!(summary.contains(MUTED_HEADPHONE_MASTER));
}

#[test]
fn route_summary_has_an_exact_layout_and_names_missing_choices() {
    let controls = vec![
        snapshot("Output Select", Some("Speakers"), None),
        snapshot("Input Source", Some("Line In"), None),
        snapshot("Surround Channel Config", Some("5.1"), None),
    ];
    let state = PipeWireRouteState {
        profile_set: None,
        soft_mixer: None,
        ignore_db: None,
        persistent_playback: None,
        active_profile: None,
        input_route: None,
        output_route: None,
    };
    assert_eq!(
        route_health_summary(&controls, &Ok(state.clone()), Some("first"), Some("second")),
        (
            "Needs attention\nALSA output: Speakers\nPipeWire output: unavailable\nALSA input: Line In\n\
             PipeWire input: unavailable\nProfile: unavailable (unknown profile set)\nfirst\nsecond"
                .to_owned(),
            false
        )
    );
    assert_eq!(
        route_health_summary(&controls[1..], &Ok(state.clone()), None, None),
        ("Output Select is unavailable from ALSA.".to_owned(), false)
    );
    assert_eq!(
        route_health_summary(&controls[..2], &Ok(state.clone()), None, None),
        ("Surround Channel Config is unavailable from ALSA.".to_owned(), false)
    );
    let no_input = vec![controls[0].clone(), controls[2].clone()];
    assert_eq!(
        route_health_summary(&no_input, &Ok(state), None, None),
        ("Input Source is unavailable from ALSA.".to_owned(), false)
    );
    assert_eq!(
        route_health_summary(&controls, &Err("no daemon".to_owned()), None, None),
        ("PipeWire route status is unavailable: no daemon".to_owned(), false)
    );
}

#[test]
fn summarizes_native_rate_configuration() {
    let mut config = NativeRatesConfig {
        path: "/tmp/91-ae5-control-rates.conf".to_owned(),
        enabled: false,
    };
    assert_eq!(
        native_rates_summary(&config),
        "Disabled\nUsing the distribution PipeWire defaults"
    );

    config.enabled = true;
    assert_eq!(
        native_rates_summary(&config),
        "Enabled in PipeWire configuration\n44.1, 48, and 96 kHz"
    );
}

#[test]
fn migration_preview_separates_categories_and_keeps_every_unsupported_item() {
    let report = SbCommandImportReport {
        exact: [
            "Sound Blaster Command 3.5.10.0 → active configuration".to_owned(),
            "Creative AE-5 driver 6.0.105.0065 → active Windows driver package".to_owned(),
        ]
        .into_iter()
        .chain((0..10).map(|index| format!("exact mapping {index}")))
        .collect(),
        approximate: vec!["surround 67.5 → 68".to_owned()],
        unsupported: (0..20).map(|index| format!("unsupported {index}")).collect(),
    };

    let preview = migration_preview(1, &report);
    assert!(preview.contains("Exact mappings (12)"));
    assert!(preview.contains("Sound Blaster Command 3.5.10.0"));
    assert!(preview.contains("Creative AE-5 driver 6.0.105.0065"));
    assert!(preview.contains("Approximate mappings (1)"));
    assert!(preview.contains("Unsupported settings (20)"));
    assert!(preview.contains("unsupported 19"));
    assert!(preview.contains("…and 4 more"));
    assert!(preview.starts_with("1 validated Linux controls will be saved."));
}

#[test]
fn preview_sections_cap_their_items_and_name_empty_lists() {
    let items = vec!["a".to_owned(), "b".to_owned(), "c".to_owned()];
    assert_eq!(
        report_preview_section("Exact mappings", &items, 2),
        "Exact mappings (3)\n• a\n• b\n…and 1 more"
    );
    assert_eq!(
        report_preview_section("Exact mappings", &items, 3),
        "Exact mappings (3)\n• a\n• b\n• c"
    );
    assert_eq!(report_preview_section("Approximate", &[], 12), "Approximate (0)\nNone");
    assert_eq!(report_preview_section("Capped", &items, 0), "Capped (3)\n…and 3 more");
}

#[test]
fn summarizes_clean_project_kernel_readiness() {
    let (summary, readiness) = kernel_readiness_summary("7.1.4-ae5-current", Some(0), true, true);

    assert_eq!(readiness, KernelReadiness::Ready);
    assert!(summary.contains("Running kernel: 7.1.4-ae5-current"));
    assert!(summary.contains("Kernel taint: 0 (clean)"));
    assert!(summary.contains("Direct Mode: available"));
    assert!(summary.contains("Onboard lighting: available (five LEDs)"));
    assert!(summary.contains("physical acceptance is still pending"));
}

#[test]
fn distinguishes_the_clean_stock_kernel_path() {
    let (summary, readiness) =
        kernel_readiness_summary("7.1.4-200.nobara.fc44.x86_64", Some(0), false, false);

    assert_eq!(readiness, KernelReadiness::Stock);
    assert!(summary.contains("Direct Mode: unavailable"));
    assert!(summary.contains("Onboard lighting: unavailable"));
    assert!(summary.contains("Stock-compatible control path active"));
}

#[test]
fn warns_when_the_kernel_is_tainted() {
    let (summary, readiness) = kernel_readiness_summary("7.1.4-ae5-current", Some(512), true, true);

    assert_eq!(readiness, KernelReadiness::Attention);
    assert!(summary.contains("Kernel taint: 512"));
    assert!(summary.contains("needs review before physical driver testing"));
}

#[test]
fn an_unknown_taint_needs_attention() {
    let (summary, readiness) = kernel_readiness_summary("6.9", None, true, false);
    assert_eq!(readiness, KernelReadiness::Attention);
    assert_eq!(
        summary,
        "Running kernel: 6.9\nKernel taint: unavailable\nDirect Mode: available\n\
         Onboard lighting: unavailable\nKernel state needs review before physical driver testing."
    );
}

#[test]
fn reports_driver_values_outside_their_declared_range() {
    let controls = vec![ControlSnapshot {
        name: "Wedge Angle".to_owned(),
        selected: None,
        choices: Vec::new(),
        playback_switch: None,
        capture_switch: None,
        playback_level: None,
        capture_level: Some(Level {
            value: 10,
            min: 20,
            max: 180,
            db: None,
        }),
        playback_channels: Vec::new(),
        capture_channels: Vec::new(),
    }];

    assert_eq!(
        driver_range_warnings(&controls),
        ["Wedge Angle capture value 10 is outside 20..180"]
    );
}

#[test]
fn range_warnings_list_playback_before_capture_and_skip_values_in_range() {
    let mut control = snapshot("Odd", None, None);
    control.playback_level = Some(Level {
        value: -5,
        min: 0,
        max: 10,
        db: None,
    });
    control.capture_level = Some(Level {
        value: 11,
        min: 0,
        max: 10,
        db: None,
    });
    let mut fine = snapshot("Fine", None, None);
    fine.playback_level = Some(Level {
        value: 10,
        min: 0,
        max: 10,
        db: None,
    });
    assert_eq!(
        driver_range_warnings(&[fine, control]),
        [
            "Odd playback value -5 is outside 0..10",
            "Odd capture value 11 is outside 0..10"
        ]
    );
}

#[test]
fn refresh_retains_verified_feedback_until_an_explicit_result_replaces_it() {
    let applied = OperationStatus {
        success: true,
        message: "Applied “Gaming”; 20 controls were verified against the hardware.".to_owned(),
    };
    assert_eq!(
        operation_status_for_refresh(None, Some(applied.clone())),
        Some(applied)
    );
    assert_eq!(
        operation_status_for_refresh(
            Some("Applied “My profile · Headphones”; 21 controls were verified."),
            None,
        ),
        Some(OperationStatus {
            success: true,
            message: "Applied “My profile · Headphones”; 21 controls were verified.".to_owned(),
        })
    );
    assert_eq!(operation_status_for_refresh(None, None), None);
}

#[test]
fn device_page_lists_identity_and_live_capabilities() {
    let device = Ae5Device {
        card_index: 2,
        alsa_name: "AE5".to_owned(),
        alsa_long_name: "Creative AE-5 at 0xf7e00000 irq 150".to_owned(),
        codec_name: None,
        vendor_id: 0x1102,
        device_id: 0x0012,
        subsystem_vendor_id: 0x1102,
        subsystem_device_id: 0x0051,
    };
    assert_eq!(
        device_identity_lines(&device),
        [
            "ALSA card 2 · AE5",
            "Creative AE-5 at 0xf7e00000 irq 150",
            "PCI 1102:0012 · subsystem 1102:0051",
            "Codec not reported"
        ]
    );

    let mut level = snapshot("Front", None, Some(true));
    level.playback_level = Some(Level {
        value: 1,
        min: 0,
        max: 2,
        db: None,
    });
    let mut capture = snapshot("Capture", None, None);
    capture.capture_switch = Some(true);
    let controls = vec![
        snapshot("Output Select", Some("Headphone"), None),
        level,
        capture,
    ];
    assert_eq!(
        capability_summary(&controls),
        "3 live controls · 1 selectable · 1 playback · 1 recording"
    );
    assert_eq!(range_health(&[]), "Driver ranges are internally consistent.");
    assert_eq!(
        range_health(&["x".to_owned()]),
        "One or more driver values are outside their declared ranges."
    );
}

#[test]
fn route_repair_reports_its_changes() {
    assert_eq!(
        route_repair_message(&Vec::new()),
        "Desktop routes were already healthy; no changes made."
    );
    assert_eq!(
        route_repair_message(&vec!["Master on".to_owned(), "Front on".to_owned()]),
        "Desktop route repaired: Master on, Front on."
    );
}

#[test]
fn effect_cards_use_command_names() {
    assert_eq!(effect_card_title("FX: X-Bass"), "Bass");
    assert_eq!(effect_card_title("FX: Dialog Plus"), "Dialog+");
    assert_eq!(effect_card_title("FX: Crystalizer"), "Crystalizer");
    assert_eq!(effect_card_title("Enable OutFX"), "Enable OutFX");
}

#[test]
fn the_library_warns_of_skipped_profiles_with_the_right_number() {
    assert_eq!(ae5_control::panels::skipped_profiles_warning(0), None);
    assert_eq!(
        ae5_control::panels::skipped_profiles_warning(1).as_deref(),
        Some("1 invalid JSON profile was skipped. Open the library folder to inspect them.")
    );
    assert_eq!(
        ae5_control::panels::skipped_profiles_warning(3).as_deref(),
        Some("3 invalid JSON profiles were skipped. Open the library folder to inspect them.")
    );
    assert_eq!(
        ae5_control::panels::library_row_detail(12, "night.json"),
        "12 controls · night.json"
    );
}

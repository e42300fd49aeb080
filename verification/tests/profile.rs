use ae5_control::controls::{ChannelLevel, ControlSnapshot, Level};
use ae5_control::hardware_effects::ProfileControl;
use ae5_control::profile::{
    active_profile_detail, format_profile_channels, profile_control_summary,
    profile_matches_controls, profile_name_from_path, profile_name_from_stem, profile_preview,
    profile_requires_high_gain, Profile,
};

fn stored(name: &str, control: ProfileControl) -> (String, ProfileControl) {
    (name.to_owned(), control)
}

#[test]
fn profile_helpers_name_preview_and_protect_high_gain() {
    let profile = Profile {
        format_version: 1,
        name: "Test".to_owned(),
        target: "1102:0012/1102:0051".to_owned(),
        controls: vec![
            stored(
                "AE-5: Headphone Gain",
                ProfileControl {
                    choice: Some("High (150-600 Ohms)".to_owned()),
                    ..ProfileControl::unset()
                },
            ),
            stored(
                "Front",
                ProfileControl {
                    playback_level: Some(90),
                    playback_channels: vec![
                        ("Front Left".to_owned(), 90),
                        ("Front Right".to_owned(), 82),
                    ],
                    ..ProfileControl::unset()
                },
            ),
        ],
    };

    assert_eq!(
        profile_name_from_path("/tmp/Studio headphones.json").unwrap(),
        "Studio headphones"
    );
    assert!(profile_requires_high_gain(&profile));
    assert!(profile_preview(&profile).contains("High (150-600 Ohms)"));
    assert!(profile_preview(&profile).contains("Front Right=82"));
}

fn snapshot(name: &str) -> ControlSnapshot {
    ControlSnapshot {
        name: name.to_owned(),
        selected: None,
        choices: Vec::new(),
        playback_switch: None,
        capture_switch: None,
        playback_level: None,
        capture_level: None,
        playback_channels: Vec::new(),
        capture_channels: Vec::new(),
    }
}

#[test]
fn matches_profiles_against_live_hardware_and_describes_eq_only_defaults() {
    let profile = Profile {
        format_version: 1,
        name: "DOTA 2".to_owned(),
        target: "1102:0012/1102:0051".to_owned(),
        controls: vec![
            stored(
                "FX: Crystalizer",
                ProfileControl {
                    playback_switch: Some(false),
                    playback_level: Some(38),
                    ..ProfileControl::unset()
                },
            ),
            stored(
                "Output Select",
                ProfileControl {
                    choice: Some("Headphone".to_owned()),
                    ..ProfileControl::unset()
                },
            ),
        ],
    };
    let mut controls = vec![
        ControlSnapshot {
            selected: Some("Headphone".to_owned()),
            choices: vec!["Speakers".to_owned(), "Headphone".to_owned()],
            ..snapshot("Output Select")
        },
        ControlSnapshot {
            playback_switch: Some(false),
            playback_level: Some(Level {
                value: 38,
                min: 0,
                max: 100,
                db: None,
            }),
            ..snapshot("FX: Crystalizer")
        },
    ];

    assert!(profile_matches_controls(&profile, &controls));
    controls[1].playback_switch = Some(true);
    assert!(!profile_matches_controls(&profile, &controls));

    let mut eq_only = profile;
    for effect in [
        "FX: Surround",
        "FX: X-Bass",
        "FX: Smart Volume",
        "FX: Dialog Plus",
    ] {
        eq_only.controls.push(stored(
            effect,
            ProfileControl {
                playback_switch: Some(false),
                ..ProfileControl::unset()
            },
        ));
    }
    eq_only.controls.push(stored(
        "FX: Equalizer",
        ProfileControl {
            playback_switch: Some(true),
            ..ProfileControl::unset()
        },
    ));
    eq_only.controls.sort_by(|left, right| left.0.cmp(&right.0));
    assert_eq!(
        active_profile_detail(&eq_only),
        "Equalizer only · 5 effects off by profile"
    );
}

#[test]
fn profile_details_name_enabled_effects_and_the_equalizer() {
    let on = |name: &str| {
        stored(
            name,
            ProfileControl {
                playback_switch: Some(true),
                ..ProfileControl::unset()
            },
        )
    };
    let profile = |controls: Vec<(String, ProfileControl)>| Profile {
        format_version: 1,
        name: "P".to_owned(),
        target: "t".to_owned(),
        controls,
    };
    assert_eq!(
        active_profile_detail(&profile(vec![on("FX: Equalizer")])),
        "Equalizer only"
    );
    assert_eq!(
        active_profile_detail(&profile(vec![on("FX: Equalizer"), on("FX: X-Bass")])),
        "1 effects + equalizer enabled"
    );
    assert_eq!(
        active_profile_detail(&profile(vec![on("FX: Dialog Plus"), on("FX: Surround")])),
        "2 effects enabled"
    );
    assert_eq!(
        active_profile_detail(&profile(Vec::new())),
        "All acoustic effects disabled"
    );
}

#[test]
fn matching_skips_what_u_hear_and_bands_under_a_factory_preset() {
    let stored_band = stored(
        "EQ Band0",
        ProfileControl {
            playback_level: Some(3),
            ..ProfileControl::unset()
        },
    );
    let what_u_hear = stored(
        "What U Hear",
        ProfileControl {
            capture_switch: Some(true),
            ..ProfileControl::unset()
        },
    );
    let preset = |name: &str| {
        stored(
            "FX: Equalizer Preset",
            ProfileControl {
                choice: Some(name.to_owned()),
                ..ProfileControl::unset()
            },
        )
    };
    let live = vec![ControlSnapshot {
        selected: Some("Rock".to_owned()),
        ..snapshot("FX: Equalizer Preset")
    }];
    let rock = Profile {
        format_version: 1,
        name: "Rock".to_owned(),
        target: "t".to_owned(),
        controls: vec![
            stored_band.clone(),
            preset("rock"),
            what_u_hear.clone(),
        ],
    };
    assert!(profile_matches_controls(&rock, &live));

    let flat = Profile {
        format_version: 1,
        name: "Flat".to_owned(),
        target: "t".to_owned(),
        controls: vec![stored_band, preset("Flat")],
    };
    assert!(!profile_matches_controls(&flat, &live));
}

#[test]
fn channel_levels_match_by_name_ignoring_case() {
    let profile = Profile {
        format_version: 1,
        name: "Levels".to_owned(),
        target: "t".to_owned(),
        controls: vec![stored(
            "Front",
            ProfileControl {
                playback_channels: vec![("front left".to_owned(), 40)],
                capture_level: Some(7),
                ..ProfileControl::unset()
            },
        )],
    };
    let mut front = ControlSnapshot {
        capture_level: Some(Level {
            value: 7,
            min: 0,
            max: 10,
            db: None,
        }),
        playback_channels: vec![ChannelLevel {
            name: "Front Left".to_owned(),
            value: 40,
        }],
        ..snapshot("Front")
    };
    assert!(profile_matches_controls(&profile, &[front.clone()]));
    front.playback_channels[0].value = 41;
    assert!(!profile_matches_controls(&profile, &[front]));
    assert!(!profile_matches_controls(&profile, &[]));
}

#[test]
fn control_summaries_list_every_stored_value_in_order() {
    let control = ProfileControl {
        choice: Some("Headphone".to_owned()),
        playback_switch: Some(true),
        capture_switch: Some(false),
        playback_level: Some(-3),
        capture_level: Some(12),
        playback_channels: vec![("Front Left".to_owned(), 1), ("Front Right".to_owned(), 2)],
        capture_channels: vec![("Mono".to_owned(), 5)],
    };
    assert_eq!(
        profile_control_summary(&control),
        "Headphone, playback on, playback level -3, playback channels Front Left=1, Front Right=2, \
         capture off, capture level 12, capture channels Mono=5"
    );
    assert_eq!(profile_control_summary(&ProfileControl::unset()), "");
    assert_eq!(format_profile_channels(&Vec::new()), "");
}

#[test]
fn previews_list_eighteen_controls_then_count_the_rest() {
    let controls = (0..20)
        .map(|index| {
            stored(
                &format!("Control {index:02}"),
                ProfileControl {
                    playback_switch: Some(index % 2 == 0),
                    ..ProfileControl::unset()
                },
            )
        })
        .collect::<Vec<_>>();
    let profile = Profile {
        format_version: 1,
        name: "Many".to_owned(),
        target: "t".to_owned(),
        controls,
    };
    let preview = profile_preview(&profile);
    assert!(preview.starts_with("20 validated Linux controls:\n\nControl 00: playback on\n"));
    assert!(preview.contains("Control 17: playback off"));
    assert!(!preview.contains("Control 18"));
    assert!(preview.ends_with("…and 2 more controls"));
}

#[test]
fn stems_without_a_name_are_refused() {
    assert_eq!(profile_name_from_stem(Some("  Night  ")), Ok("Night".to_owned()));
    assert_eq!(
        profile_name_from_stem(Some("   ")),
        Err("the selected filename has no usable profile name".to_owned())
    );
    assert_eq!(
        profile_name_from_stem(None),
        Err("the selected filename has no usable profile name".to_owned())
    );
    assert!(profile_name_from_path("/").is_err());
}

#[test]
fn a_profile_name_is_the_trimmed_file_stem() {
    assert_eq!(profile_name_from_path("/tmp/ Late night .json"), Ok("Late night".to_owned()));
    assert_eq!(profile_name_from_path("Gaming"), Ok("Gaming".to_owned()));
    assert_eq!(
        profile_name_from_path("/tmp/   .json"),
        Err("the selected filename has no usable profile name".to_owned())
    );
}

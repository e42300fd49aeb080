use ae5_control::effects_chain::{
    disable_effects_chain, effects_chain_config, effects_filter_slot, enable_effects_chain,
    render_effects_filter_graph, restore_effects_chain_config, smart_volume_controls,
    validate_effects_runtime_support, validate_target_node, CrystalizerSettings,
    EffectsChainAction, EffectsChainConfig, EffectsChainError, EffectsChainRequest,
    StoredEffectsChain,
};
use ae5_control::sound_objects::EffectsProfileEntry;

fn format_number(value: f64) -> String {
    let formatted = format!("{value:.3}");
    let trimmed = formatted.trim_end_matches('0').trim_end_matches('.');
    if trimmed.contains('.') {
        trimmed.to_owned()
    } else {
        format!("{trimmed}.0")
    }
}

fn crystalizer(level: u16) -> CrystalizerSettings {
    let amount = f64::from(level) / 100.0;
    CrystalizerSettings {
        attack: format_number(amount * 0.65),
        sustain: format_number(amount * -0.15),
    }
}

fn effects() -> EffectsProfileEntry {
    EffectsProfileEntry {
        id: "effects:test".to_owned(),
        name: "Test".to_owned(),
        source: "Test".to_owned(),
        read_only: false,
        outfx_enabled: true,
        surround_available: true,
        surround_enabled: true,
        surround_level: 35,
        crystalizer_available: true,
        crystalizer_enabled: true,
        crystalizer_level: 50,
        bass_available: true,
        bass_enabled: true,
        bass_level: 53,
        smart_volume_available: true,
        smart_volume_enabled: true,
        smart_volume_level: 15,
        smart_volume_mode: "Normal".to_owned(),
        dialog_available: true,
        dialog_enabled: true,
        dialog_level: 20,
    }
}

fn render(profile: &EffectsProfileEntry) -> Result<String, EffectsChainError> {
    render_effects_filter_graph(profile, &crystalizer(profile.crystalizer_level))
}

#[test]
fn effects_use_a_filter_slot_independent_from_equalizer_slot_zero() {
    assert_eq!(effects_filter_slot(), 1);
}

#[test]
fn complete_profile_renders_every_substitute_and_safety_limiter() {
    let graph = render(&effects()).unwrap();

    for expected in [
        "matrixSpatialiser",
        "transient",
        "bq_lowshelf",
        "sc4",
        "bq_peaking",
        "fastLookaheadLimiter",
    ] {
        assert!(
            graph.contains(expected),
            "generated graph does not contain {expected}"
        );
    }
}

#[test]
fn disabled_children_are_absent_from_the_runtime_graph() {
    let mut draft = effects();
    draft.surround_enabled = false;
    draft.crystalizer_enabled = false;
    draft.bass_enabled = false;
    draft.smart_volume_enabled = false;
    draft.dialog_enabled = false;

    let graph = render(&draft).unwrap();

    assert!(!graph.contains("matrixSpatialiser"));
    assert!(!graph.contains("transient"));
    assert!(!graph.contains("bq_lowshelf"));
    assert!(!graph.contains("sc4"));
    assert!(!graph.contains("bq_peaking"));
    assert!(!graph.contains("fastLookaheadLimiter"));
    assert!(graph.contains("linear"));
}

#[test]
fn disabled_master_cannot_render_an_active_graph() {
    let mut draft = effects();
    draft.outfx_enabled = false;

    let error = render(&draft).unwrap_err();

    assert!(error.message().contains("master"));
}

#[test]
fn crystalizer_settings_render_into_the_transient_node() {
    let settings = crystalizer(50);
    assert_eq!(settings.attack, "0.325");
    assert_eq!(settings.sustain, "-0.075");
    let graph = render(&effects()).unwrap();
    assert!(graph.contains("\"Attack speed\" = 0.325 \"Sustain time\" = -0.075"));
}

#[test]
fn bass_and_dialog_gains_are_rendered_exactly() {
    let graph = render(&effects()).unwrap();
    assert!(graph.contains("Freq = 110.0 Q = 0.7 Gain = 4.77"));
    assert!(graph.contains("Gain = 1.2"));
}

#[test]
fn smart_volume_modes_map_to_compressor_settings() {
    let normal = smart_volume_controls("Normal", 15);
    assert!(normal.contains("\"Attack time (ms)\""));
    assert!(normal.starts_with("\"RMS/peak\""));
    assert_ne!(smart_volume_controls("Loud", 15), normal);
    assert_ne!(smart_volume_controls("Night", 15), normal);
}

#[test]
fn unavailable_enabled_effects_are_refused() {
    let mut draft = effects();
    draft.surround_available = false;
    assert_eq!(
        render(&draft),
        Err(EffectsChainError::Invalid(
            "Surround is enabled but unavailable in this Effects profile".to_owned()
        ))
    );
}

#[test]
fn target_nodes_must_be_plain_pipewire_names() {
    assert!(validate_target_node("alsa_output.pci-ae5.analog-stereo").is_ok());
    assert!(validate_target_node("").is_err());
    assert!(validate_target_node("node\" } evil").is_err());
}

#[test]
fn runtime_support_names_every_missing_plugin() {
    assert!(validate_effects_runtime_support(&[true, true, true, true]).is_ok());
    let error = validate_effects_runtime_support(&[true, false, true, false]).unwrap_err();
    assert!(error.message().contains("transient_1206"));
    assert!(error.message().contains("fast_lookahead_limiter_1913"));
    assert!(!error.message().contains("matrix_spatialiser_1422"));
}

fn disabled_config() -> EffectsChainConfig {
    EffectsChainConfig {
        path: "/tmp/ae5-effects/software-effects.json".to_owned(),
        enabled: false,
        target_node: None,
        profile: None,
    }
}

#[test]
fn enabling_twice_keeps_the_state_and_disabling_removes_it() {
    let target = "alsa_output.pci-ae5.analog-stereo";
    let empty = disabled_config();
    assert_eq!(
        enable_effects_chain(&empty, &effects(), target),
        Ok(EffectsChainAction::Create)
    );
    let applied = EffectsChainConfig {
        enabled: true,
        target_node: Some(target.to_owned()),
        profile: Some(effects()),
        ..disabled_config()
    };
    assert_eq!(
        enable_effects_chain(&applied, &effects(), target),
        Ok(EffectsChainAction::Keep)
    );
    let mut other = effects();
    other.bass_level = 10;
    assert_eq!(
        enable_effects_chain(&applied, &other, target),
        Ok(EffectsChainAction::Replace)
    );
    assert_eq!(disable_effects_chain(&applied), EffectsChainAction::Remove);
    assert_eq!(disable_effects_chain(&empty), EffectsChainAction::Keep);
}

#[test]
fn saved_state_is_read_and_restored() {
    let path = "/tmp/ae5-effects/software-effects.json";
    let config = effects_chain_config(
        path,
        Some(StoredEffectsChain {
            schema_version: 1,
            target_node: "alsa_output.pci-ae5.analog-stereo".to_owned(),
            profile: effects(),
        }),
    )
    .unwrap();
    assert!(config.enabled);
    assert_eq!(config.signature().is_some(), true);
    assert_eq!(
        restore_effects_chain_config(&config, path),
        Ok(EffectsChainRequest::Enable {
            profile: effects(),
            target_node: "alsa_output.pci-ae5.analog-stereo".to_owned(),
        })
    );
    assert!(matches!(
        effects_chain_config(
            path,
            Some(StoredEffectsChain {
                schema_version: 2,
                target_node: "alsa_output.pci-ae5.analog-stereo".to_owned(),
                profile: effects(),
            }),
        ),
        Err(EffectsChainError::Io(message)) if message.contains("not managed by AE-5 Control")
    ));
    let none = effects_chain_config(path, None).unwrap();
    assert_eq!(none, disabled_config());
    assert_eq!(
        restore_effects_chain_config(&none, "/elsewhere"),
        Err(EffectsChainError::Invalid(
            "cannot restore software Effects state from /tmp/ae5-effects/software-effects.json into /elsewhere"
                .to_owned()
        ))
    );
}

const STATE_PATH: &str = "/tmp/ae5-effects/software-effects.json";
const TARGET: &str = "alsa_output.pci-ae5.analog-stereo";

/// Enables or disables the chain against a state file held in memory, as
/// the application does against the real file; returns whether it changed.
fn set_chain(file: &mut Option<StoredEffectsChain>, request: Option<&EffectsProfileEntry>) -> bool {
    let current = effects_chain_config(STATE_PATH, file.clone()).unwrap();
    let action = match request {
        Some(profile) => enable_effects_chain(&current, profile, TARGET).unwrap(),
        None => disable_effects_chain(&current),
    };
    match action {
        EffectsChainAction::Keep => false,
        EffectsChainAction::Remove => {
            *file = None;
            true
        }
        EffectsChainAction::Create | EffectsChainAction::Replace => {
            *file = Some(StoredEffectsChain {
                schema_version: 1,
                target_node: TARGET.to_owned(),
                profile: request.unwrap().clone(),
            });
            true
        }
    }
}

#[test]
fn enable_disable_round_trip_removes_the_managed_state() {
    let mut file = None;
    let first = set_chain(&mut file, Some(&effects()));
    let second = set_chain(&mut file, Some(&effects()));
    let disabled = set_chain(&mut file, None);

    assert!(first);
    assert!(!second);
    assert!(disabled);
    assert!(file.is_none());
}

#[test]
fn restoring_previous_state_is_byte_identical() {
    let mut file = None;
    let previous = effects();
    set_chain(&mut file, Some(&previous));
    let previous_config = effects_chain_config(STATE_PATH, file.clone()).unwrap();
    let previous_state = file.clone();

    let mut replacement = effects();
    replacement.bass_level = 70;
    assert!(set_chain(&mut file, Some(&replacement)));
    assert_ne!(file, previous_state);

    match restore_effects_chain_config(&previous_config, STATE_PATH).unwrap() {
        EffectsChainRequest::Enable {
            profile,
            target_node,
        } => {
            assert_eq!(target_node, TARGET);
            set_chain(&mut file, Some(&profile));
        }
        EffectsChainRequest::Disable => {
            set_chain(&mut file, None);
        }
    }
    assert_eq!(file, previous_state);
}

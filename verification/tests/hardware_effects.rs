use ae5_control::controls::{
    ChannelLevel, ControlError, ControlSnapshot, Level, DIRECT_MODE_CONTROL,
    HARDWARE_OUTFX_CONTROL,
};
use ae5_control::hardware_effects::{
    apply_hardware_effects, capture_targets, disable_hardware_effects, hardware_effects_config,
    hardware_effects_profile_matches, hardware_effects_save_needed, master_target,
    plan_target_writes, profile_targets, require_direct_mode_off, require_hardware_effects_gate,
    restore_hardware_effects_config, result_detail, transaction_failure, validate_targets,
    verify_targets, HardwareEffectsConfig, HardwareEffectsError, HardwareEffectsRestore,
    ProfileControl, StoredHardwareEffects, TargetWrite,
};
use ae5_control::sound_objects::EffectsProfileEntry;

fn target<'a>(targets: &'a [(String, ProfileControl)], name: &str) -> &'a ProfileControl {
    &targets
        .iter()
        .find(|(candidate, _)| candidate == name)
        .expect("target present")
        .1
}

fn profile() -> EffectsProfileEntry {
    EffectsProfileEntry {
        id: "effects:test".to_owned(),
        name: "Test".to_owned(),
        source: "Test".to_owned(),
        read_only: false,
        outfx_enabled: true,
        surround_available: true,
        surround_enabled: true,
        surround_level: 35,
        crystalizer_available: true,
        crystalizer_enabled: true,
        crystalizer_level: 50,
        bass_available: true,
        bass_enabled: true,
        bass_level: 53,
        smart_volume_available: true,
        smart_volume_enabled: true,
        smart_volume_level: 15,
        smart_volume_mode: "Normal".to_owned(),
        dialog_available: true,
        dialog_enabled: true,
        dialog_level: 20,
    }
}

fn snapshots(profile: &EffectsProfileEntry) -> Vec<ControlSnapshot> {
    profile_targets(profile)
        .into_iter()
        .map(|(name, target)| ControlSnapshot {
            name,
            selected: target.choice.clone(),
            choices: target.choice.into_iter().collect(),
            playback_switch: target.playback_switch,
            capture_switch: None,
            playback_level: target.playback_level.map(|value| Level {
                value,
                min: 0,
                max: 100,
                db: None,
            }),
            capture_level: None,
            playback_channels: target
                .playback_level
                .map(|value| {
                    vec![ChannelLevel {
                        name: "Front Left".to_owned(),
                        value,
                    }]
                })
                .unwrap_or_default(),
            capture_channels: Vec::new(),
        })
        .collect()
}

#[test]
fn profile_targets_keep_master_last_and_children_independent() {
    let targets = profile_targets(&profile());

    assert_eq!(target(&targets, HARDWARE_OUTFX_CONTROL).playback_switch, Some(true));
    assert_eq!(target(&targets, "FX: Surround").playback_level, Some(35));
    assert_eq!(target(&targets, "FX: Crystalizer").playback_switch, Some(true));
    assert_eq!(
        target(&targets, "FX: Smart Volume Setting").choice.as_deref(),
        Some("Normal")
    );
}

#[test]
fn matching_detects_external_hardware_changes() {
    let profile = profile();
    let controls = snapshots(&profile);

    assert!(hardware_effects_profile_matches(&profile, &controls, true));
    let mut changed = controls.clone();
    changed
        .iter_mut()
        .find(|control| control.name == "FX: X-Bass")
        .unwrap()
        .playback_level
        .as_mut()
        .unwrap()
        .value += 1;
    assert!(!hardware_effects_profile_matches(&profile, &changed, true));
}

#[test]
fn matching_can_ignore_only_the_global_bypass() {
    let profile = profile();
    let mut controls = snapshots(&profile);
    controls
        .iter_mut()
        .find(|control| control.name == HARDWARE_OUTFX_CONTROL)
        .unwrap()
        .playback_switch = Some(false);

    assert!(!hardware_effects_profile_matches(&profile, &controls, true));
    assert!(hardware_effects_profile_matches(&profile, &controls, false));
}

#[test]
fn targets_are_ordered_by_control_name() {
    let names = profile_targets(&profile())
        .into_iter()
        .map(|(name, _)| name)
        .collect::<Vec<_>>();
    let mut sorted = names.clone();
    sorted.sort();
    assert_eq!(names, sorted);
    assert_eq!(names.len(), 7);
    let mut partial = profile();
    partial.smart_volume_available = false;
    partial.dialog_available = false;
    assert_eq!(profile_targets(&partial).len(), 4);
}

#[test]
fn readback_reports_the_first_mismatch() {
    let profile = profile();
    let mut controls = snapshots(&profile);
    controls
        .iter_mut()
        .find(|control| control.name == "FX: Crystalizer")
        .unwrap()
        .playback_switch = Some(false);
    assert_eq!(
        verify_targets(&profile_targets(&profile), &controls),
        Err("FX: Crystalizer playback switch read back as Some(false), expected true".to_owned())
    );
    let without_surround = snapshots(&profile)
        .into_iter()
        .filter(|control| control.name != "FX: Surround")
        .collect::<Vec<_>>();
    assert_eq!(
        verify_targets(&profile_targets(&profile), &without_surround),
        Err("FX: Surround is unavailable".to_owned())
    );
}

#[test]
fn validation_refuses_unwritable_targets() {
    let profile = profile();
    let mut controls = snapshots(&profile);
    controls
        .iter_mut()
        .find(|control| control.name == "FX: Surround")
        .unwrap()
        .playback_level
        .as_mut()
        .unwrap()
        .max = 30;
    assert_eq!(
        validate_targets(&profile_targets(&profile), &controls),
        Err(HardwareEffectsError::Invalid(
            "FX: Surround level 35 is outside 0..30".to_owned()
        ))
    );
    let mut no_mode = snapshots(&profile);
    no_mode
        .iter_mut()
        .find(|control| control.name == "FX: Smart Volume Setting")
        .unwrap()
        .choices = vec!["Loud".to_owned()];
    assert_eq!(
        validate_targets(&profile_targets(&profile), &no_mode),
        Err(HardwareEffectsError::Invalid(
            "FX: Smart Volume Setting does not support Normal".to_owned()
        ))
    );
    assert_eq!(validate_targets(&profile_targets(&profile), &snapshots(&profile)), Ok(()));
}

#[test]
fn capture_records_the_current_values_of_the_target_fields() {
    let profile = profile();
    let mut controls = snapshots(&profile);
    controls
        .iter_mut()
        .find(|control| control.name == "FX: X-Bass")
        .unwrap()
        .playback_level
        .as_mut()
        .unwrap()
        .value = 7;
    let previous = capture_targets(&profile_targets(&profile), &controls).unwrap();
    assert_eq!(target(&previous, "FX: X-Bass").playback_level, Some(7));
    assert_eq!(target(&previous, "FX: X-Bass").playback_switch, Some(true));
    assert_eq!(target(&previous, HARDWARE_OUTFX_CONTROL).playback_level, None);
    assert!(matches!(
        capture_targets(&master_target(true), &[]),
        Err(HardwareEffectsError::Invalid(message)) if message == "Enable OutFX is unavailable"
    ));
}

#[test]
fn writes_silence_the_effects_and_turn_the_master_on_last() {
    let mut desired = profile();
    desired.bass_level = 60;
    let current = snapshots(&profile());
    let writes = plan_target_writes(&profile_targets(&desired), &current);
    assert_eq!(writes.first(), Some(&TargetWrite::Switch(HARDWARE_OUTFX_CONTROL.to_owned(), false)));
    assert_eq!(writes.last(), Some(&TargetWrite::Switch(HARDWARE_OUTFX_CONTROL.to_owned(), true)));
    assert!(writes.contains(&TargetWrite::Level("FX: X-Bass".to_owned(), 60)));
    assert!(!writes.contains(&TargetWrite::Level("FX: Surround".to_owned(), 35)));
    let level = writes
        .iter()
        .position(|write| *write == TargetWrite::Level("FX: X-Bass".to_owned(), 60))
        .unwrap();
    let off = writes
        .iter()
        .position(|write| *write == TargetWrite::Switch("FX: X-Bass".to_owned(), false))
        .unwrap();
    let on = writes
        .iter()
        .position(|write| *write == TargetWrite::Switch("FX: X-Bass".to_owned(), true))
        .unwrap();
    assert!(off < level && level < on);
    assert!(!writes.iter().any(|write| matches!(write, TargetWrite::Choice(_, _))));
}

#[test]
fn apply_refuses_in_order_and_plans_a_transaction() {
    let profile = profile();
    let controls = snapshots(&profile);
    let mut master_off = profile.clone();
    master_off.outfx_enabled = false;
    assert_eq!(
        apply_hardware_effects(&master_off, false, &controls),
        Err(HardwareEffectsError::Invalid(
            "Enable the Effects master before applying this hardware profile.".to_owned()
        ))
    );
    assert!(matches!(
        apply_hardware_effects(&profile, false, &controls),
        Err(HardwareEffectsError::Invalid(message)) if message.starts_with("Hardware OutFX needs")
    ));
    let mut direct = controls.clone();
    direct.push(ControlSnapshot {
        name: DIRECT_MODE_CONTROL.to_owned(),
        selected: None,
        choices: Vec::new(),
        playback_switch: Some(true),
        capture_switch: None,
        playback_level: None,
        capture_level: None,
        playback_channels: Vec::new(),
        capture_channels: Vec::new(),
    });
    assert_eq!(
        apply_hardware_effects(&profile, true, &direct),
        Err(HardwareEffectsError::Invalid(
            "Turn Direct Mode off before applying hardware Effects.".to_owned()
        ))
    );
    assert!(require_direct_mode_off(&controls).is_ok());
    let transaction = apply_hardware_effects(&profile, true, &controls).unwrap();
    assert_eq!(transaction.targets, profile_targets(&profile));
    assert_eq!(transaction.previous, profile_targets(&profile));
    assert_eq!(transaction.writes, plan_target_writes(&profile_targets(&profile), &controls));
}

#[test]
fn disabling_reports_the_previous_master_state() {
    let controls = snapshots(&profile());
    assert_eq!(disable_hardware_effects(true, &controls), Ok(true));
    assert_eq!(
        disable_hardware_effects(true, &[]),
        Err(HardwareEffectsError::Control(ControlError::Missing(
            HARDWARE_OUTFX_CONTROL.to_owned()
        )))
    );
    assert!(disable_hardware_effects(false, &controls).is_err());
    assert!(require_hardware_effects_gate(true).is_ok());
}

#[test]
fn failure_messages_name_the_rollback_and_resume() {
    assert_eq!(result_detail(&Ok(())), "verified");
    let failure = transaction_failure(
        &ControlError::Verification("FX: Surround is unavailable".to_owned()),
        &Err(ControlError::Missing("FX: Surround".to_owned())),
        &Err("resume failed".to_owned()),
    );
    assert_eq!(
        failure,
        HardwareEffectsError::Invalid(
            "Hardware Effects transaction failed: FX: Surround is unavailable; rollback: ALSA control 'FX: Surround' is unavailable; output resume: resume failed"
                .to_owned()
        )
    );
}

#[test]
fn saved_state_is_read_saved_and_restored() {
    let path = "/tmp/ae5-hardware/hardware-effects.json";
    let config = hardware_effects_config(
        path,
        Some(StoredHardwareEffects {
            schema_version: 1,
            profile: profile(),
        }),
    )
    .unwrap();
    assert_eq!(config.profile, Some(profile()));
    assert!(!hardware_effects_save_needed(&config, &profile()));
    let mut other = profile();
    other.name = "Other".to_owned();
    assert!(hardware_effects_save_needed(&config, &other));
    assert_eq!(
        restore_hardware_effects_config(&config, path),
        Ok(HardwareEffectsRestore::Save(profile()))
    );
    let empty = HardwareEffectsConfig {
        path: path.to_owned(),
        profile: None,
    };
    assert_eq!(restore_hardware_effects_config(&empty, path), Ok(HardwareEffectsRestore::Remove));
    assert!(matches!(
        restore_hardware_effects_config(&empty, "/elsewhere"),
        Err(HardwareEffectsError::Invalid(message))
            if message == "cannot restore hardware Effects state from /tmp/ae5-hardware/hardware-effects.json into /elsewhere"
    ));
    assert!(matches!(
        hardware_effects_config(path, Some(StoredHardwareEffects { schema_version: 3, profile: profile() })),
        Err(HardwareEffectsError::Io(message)) if message.ends_with("exists but is not managed by AE-5 Control")
    ));
}

/// Performs one planned write on controls held in memory.
fn perform(controls: &mut [ControlSnapshot], write: &TargetWrite) {
    match write {
        TargetWrite::Switch(name, enabled) => {
            let control = controls.iter_mut().find(|c| c.name == *name).unwrap();
            control.playback_switch = Some(*enabled);
        }
        TargetWrite::Choice(name, choice) => {
            let control = controls.iter_mut().find(|c| c.name == *name).unwrap();
            control.selected = Some(choice.clone());
        }
        TargetWrite::Level(name, value) => {
            let control = controls.iter_mut().find(|c| c.name == *name).unwrap();
            control.playback_level.as_mut().unwrap().value = *value;
        }
    }
}

#[test]
fn planned_writes_reach_the_targets_and_a_rollback_restores_the_capture() {
    let mut desired = profile();
    desired.bass_level = 60;
    desired.surround_enabled = false;
    desired.smart_volume_mode = "Night".to_owned();
    let before = {
        let mut controls = snapshots(&profile());
        let setting = controls
            .iter_mut()
            .find(|c| c.name == "FX: Smart Volume Setting")
            .unwrap();
        setting.choices = vec!["Normal".to_owned(), "Loud".to_owned(), "Night".to_owned()];
        controls
    };
    let targets = profile_targets(&desired);
    let previous = capture_targets(&targets, &before).unwrap();

    let mut after = before.clone();
    for write in plan_target_writes(&targets, &before) {
        perform(&mut after, &write);
    }
    assert_eq!(verify_targets(&targets, &after), Ok(()));
    assert!(verify_targets(&previous, &after).is_err());

    let mut restored = after.clone();
    for write in plan_target_writes(&previous, &after) {
        perform(&mut restored, &write);
    }
    assert_eq!(verify_targets(&previous, &restored), Ok(()));
    assert_eq!(
        restored
            .iter()
            .find(|c| c.name == "FX: Smart Volume Setting")
            .unwrap()
            .selected
            .as_deref(),
        Some("Normal")
    );
}

#[test]
fn apply_first_refuses_an_enabled_but_unavailable_effect() {
    let controls = snapshots(&profile());
    let mut unavailable = profile();
    unavailable.bass_available = false;
    assert_eq!(
        apply_hardware_effects(&unavailable, true, &controls),
        Err(HardwareEffectsError::Invalid(
            "Bass is enabled but unavailable in this Effects profile".to_owned()
        ))
    );
    unavailable.outfx_enabled = false;
    assert_eq!(
        apply_hardware_effects(&unavailable, false, &controls),
        Err(HardwareEffectsError::Invalid(
            "Bass is enabled but unavailable in this Effects profile".to_owned()
        ))
    );
}

#[test]
fn profile_targets_set_playback_values_only() {
    for (_, target) in profile_targets(&profile()) {
        assert_eq!(target.capture_switch, None);
        assert_eq!(target.capture_level, None);
        assert!(target.playback_channels.is_empty());
        assert!(target.capture_channels.is_empty());
    }
}
